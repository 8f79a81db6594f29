use net2::convert::{
    bool_to_int, dword_to_ms, duration_to_ms, int_to_bool, int_to_error, ipv4_to_in_addr, ipv6_to_in6_addr,
    ms_to_duration, ms_to_dword, ms_to_timeval, timeval_to_ms, DurationParts, OsError, Timeval,
};
use net2::platform::{fioclex, fionbio, Platform};

#[test]
fn ms_to_timeval_splits_seconds_and_micros() {
    assert_eq!(ms_to_timeval(Some(2_345)), Timeval { secs: 2, micros: 345_000 });
    assert_eq!(ms_to_timeval(Some(999)), Timeval { secs: 0, micros: 999_000 });
    assert_eq!(ms_to_timeval(None), Timeval { secs: 0, micros: 0 });
    assert_eq!(ms_to_timeval(Some(0)), Timeval { secs: 0, micros: 0 });
}

#[test]
fn timeval_to_ms_values() {
    assert_eq!(timeval_to_ms(Timeval { secs: 2, micros: 345_000 }), Some(2_345));
    assert_eq!(timeval_to_ms(Timeval { secs: -1, micros: 0 }), Some(0));
    assert_eq!(timeval_to_ms(Timeval { secs: i64::MAX, micros: 999_999 }), Some(u32::MAX));
}

#[test]
fn duration_conversions() {
    assert_eq!(duration_to_ms(DurationParts { secs: 3, nanos: 250_000_000 }), 3_250);
    assert_eq!(duration_to_ms(DurationParts { secs: 0, nanos: 999_999 }), 0);
    assert_eq!(duration_to_ms(DurationParts { secs: u64::MAX, nanos: 0 }), u32::MAX);
    assert_eq!(ms_to_duration(3_250), DurationParts { secs: 3, nanos: 250_000_000 });
    assert_eq!(duration_to_ms(ms_to_duration(123_456)), 123_456);
}

#[test]
fn int_bool_and_error() {
    assert_eq!(bool_to_int(true), 1);
    assert_eq!(bool_to_int(false), 0);
    assert!(int_to_bool(7));
    assert!(!int_to_bool(0));
    assert_eq!(int_to_error(0), None);
    assert_eq!(int_to_error(-5), Some(OsError { code: -5 }));
}

#[test]
fn addresses_in_network_order() {
    assert_eq!(ipv4_to_in_addr([192, 168, 1, 20]).bytes, [192, 168, 1, 20]);
    let a = ipv6_to_in6_addr([0x2001, 0x0db8, 0, 0, 0, 0, 0xabcd, 0x00ff]);
    assert_eq!(
        a.bytes,
        [0x20, 0x01, 0x0d, 0xb8, 0, 0, 0, 0, 0, 0, 0, 0, 0xab, 0xcd, 0x00, 0xff]
    );
}

#[test]
fn ioctl_codes() {
    assert_eq!(fionbio(Platform::Linux), 0x5421);
    assert_eq!(fioclex(Platform::Linux), 0x5451);
    assert_eq!(fionbio(Platform::Apple), 0x8004667e);
    assert_eq!(fioclex(Platform::DragonFly), 0x20006601);
}

#[test]
fn dword_conversions() {
    assert_eq!(ms_to_dword(Some(2_345)), 2_345);
    assert_eq!(ms_to_dword(None), 0);
    assert_eq!(ms_to_dword(Some(0)), 0);
    assert_eq!(dword_to_ms(0), None);
    assert_eq!(dword_to_ms(2_345), Some(2_345));
    assert_eq!(dword_to_ms(ms_to_dword(Some(u32::MAX))), Some(u32::MAX));
}
