use net2::codec::{IntQuery, IoctlRequest, Payload, SetRequest, TimeoutForm, TimeoutQuery};
use net2::convert::{int_to_bool, int_to_error, timeval_to_ms, InAddr, OsError, Timeval};
use net2::options::{
    count_from_reply, count_query, error_query, flag_query,
    join_multicast_v4, join_multicast_v6, leave_multicast_v4, leave_multicast_v6,
    nonblocking_request, set_count, set_flag, set_timeout_ms, timeout_query,
    Count, Flag, Timeout,
};
use net2::platform::{option_key, OptKey, Platform, SockOpt};

fn key(level: i32, name: i32) -> OptKey {
    OptKey { level, name }
}

#[test]
fn nodelay_round_trip_values() {
    for on in [true, false] {
        let set = set_flag(Platform::Linux, Flag::NoDelay, on);
        assert_eq!(set.key, key(6, 1));
        let q = flag_query(Platform::Linux, Flag::NoDelay);
        assert_eq!(q.key, set.key);
        match set.payload {
            Payload::Int(n) => assert_eq!(int_to_bool(n), on),
            other => panic!("unexpected payload {:?}", other),
        }
    }
}

#[test]
fn every_flag_uses_one_key_for_set_and_get() {
    let flags = [
        Flag::NoDelay,
        Flag::Broadcast,
        Flag::MulticastLoopV4,
        Flag::MulticastLoopV6,
        Flag::OnlyV6,
        Flag::ReuseAddress,
    ];
    for p in [Platform::Linux, Platform::Apple, Platform::FreeBsd, Platform::DragonFly, Platform::Windows] {
        for f in flags {
            assert_eq!(set_flag(p, f, true).key, flag_query(p, f).key);
            assert_eq!(set_flag(p, f, true).payload, Payload::Int(1));
            assert_eq!(set_flag(p, f, false).payload, Payload::Int(0));
        }
    }
}

#[test]
fn any_nonzero_flag_reads_as_on() {
    assert!(int_to_bool(1));
    assert!(int_to_bool(-1));
    assert!(int_to_bool(0x20));
    assert!(!int_to_bool(0));
}

#[test]
fn linux_option_table() {
    let p = Platform::Linux;
    assert_eq!(option_key(p, SockOpt::KeepAlive), key(1, 9));
    assert_eq!(option_key(p, SockOpt::KeepAliveIdle), key(6, 4));
    assert_eq!(option_key(p, SockOpt::RecvTimeout), key(1, 20));
    assert_eq!(option_key(p, SockOpt::SendTimeout), key(1, 21));
    assert_eq!(option_key(p, SockOpt::Ttl), key(0, 2));
    assert_eq!(option_key(p, SockOpt::OnlyV6), key(41, 26));
    assert_eq!(option_key(p, SockOpt::Broadcast), key(1, 6));
    assert_eq!(option_key(p, SockOpt::MulticastLoopV4), key(0, 34));
    assert_eq!(option_key(p, SockOpt::MulticastTtlV4), key(0, 33));
    assert_eq!(option_key(p, SockOpt::MulticastLoopV6), key(41, 19));
    assert_eq!(option_key(p, SockOpt::AddMembershipV4), key(0, 35));
    assert_eq!(option_key(p, SockOpt::DropMembershipV4), key(0, 36));
    assert_eq!(option_key(p, SockOpt::AddMembershipV6), key(41, 20));
    assert_eq!(option_key(p, SockOpt::DropMembershipV6), key(41, 21));
    assert_eq!(option_key(p, SockOpt::Error), key(1, 4));
    assert_eq!(option_key(p, SockOpt::ReuseAddress), key(1, 2));
    assert_eq!(option_key(p, SockOpt::NoDelay), key(6, 1));
}

#[test]
fn bsd_option_table() {
    for p in [Platform::Apple, Platform::FreeBsd, Platform::DragonFly, Platform::Windows] {
        assert_eq!(option_key(p, SockOpt::KeepAlive), key(0xffff, 8));
        assert_eq!(option_key(p, SockOpt::RecvTimeout), key(0xffff, 0x1006));
        assert_eq!(option_key(p, SockOpt::SendTimeout), key(0xffff, 0x1005));
        assert_eq!(option_key(p, SockOpt::Error), key(0xffff, 0x1007));
        assert_eq!(option_key(p, SockOpt::Ttl), key(0, 4));
        assert_eq!(option_key(p, SockOpt::OnlyV6), key(41, 27));
        assert_eq!(option_key(p, SockOpt::MulticastLoopV6), key(41, 11));
        assert_eq!(option_key(p, SockOpt::AddMembershipV6), key(41, 12));
    }
    assert_eq!(option_key(Platform::Apple, SockOpt::KeepAliveIdle), key(6, 0x10));
    assert_eq!(option_key(Platform::FreeBsd, SockOpt::KeepAliveIdle), key(6, 256));
}

#[test]
fn ttl_round_trip_values() {
    for n in [0u32, 1, 64, 255, i32::MAX as u32] {
        let set = set_count(Platform::Linux, Count::Ttl, n);
        assert_eq!(set.key, count_query(Platform::Linux, Count::Ttl).key);
        match set.payload {
            Payload::Int(v) => assert_eq!(count_from_reply(v), n),
            other => panic!("unexpected payload {:?}", other),
        }
    }
}

#[test]
fn ttl_beyond_c_int_wraps() {
    let set = set_count(Platform::Linux, Count::MulticastTtlV4, 0x8000_0000);
    assert_eq!(set.payload, Payload::Int(i32::MIN));
    assert_eq!(set.key, key(0, 33));
}

#[test]
fn timeout_round_trip_values() {
    let set = set_timeout_ms(Platform::Linux, Timeout::Read, Some(1500));
    assert_eq!(set.key, key(1, 20));
    assert_eq!(set.payload, Payload::Timeout(Timeval { secs: 1, micros: 500_000 }));
    assert_eq!(timeout_query(Platform::Linux, Timeout::Read), TimeoutQuery { key: key(1, 20), form: TimeoutForm::Timeval });
    assert_eq!(timeval_to_ms(Timeval { secs: 1, micros: 500_000 }), Some(1500));
    for ms in [1u32, 999, 1000, 60_000, u32::MAX] {
        match set_timeout_ms(Platform::Apple, Timeout::Write, Some(ms)).payload {
            Payload::Timeout(t) => assert_eq!(timeval_to_ms(t), Some(ms)),
            other => panic!("unexpected payload {:?}", other),
        }
    }
}

#[test]
fn zero_timeout_reads_back_as_none() {
    let none = set_timeout_ms(Platform::Linux, Timeout::Write, None);
    let zero = set_timeout_ms(Platform::Linux, Timeout::Write, Some(0));
    assert_eq!(none, zero);
    assert_eq!(none.payload, Payload::Timeout(Timeval { secs: 0, micros: 0 }));
    assert_eq!(timeval_to_ms(Timeval { secs: 0, micros: 0 }), None);
}

#[test]
fn timeout_reply_saturates_and_truncates() {
    assert_eq!(timeval_to_ms(Timeval { secs: 5_000_000, micros: 0 }), Some(u32::MAX));
    assert_eq!(timeval_to_ms(Timeval { secs: 0, micros: 4_000 }), Some(4));
    assert_eq!(timeval_to_ms(Timeval { secs: 0, micros: 999 }), Some(0));
}

#[test]
fn take_error_decodes_slot() {
    assert_eq!(error_query(Platform::Linux), IntQuery { key: key(1, 4) });
    assert_eq!(int_to_error(0), None);
    assert_eq!(int_to_error(111), Some(OsError { code: 111 }));
}

#[test]
fn nonblocking_requests() {
    assert_eq!(
        nonblocking_request(Platform::Linux, true),
        IoctlRequest { request: 0x5421, arg: 1 }
    );
    assert_eq!(
        nonblocking_request(Platform::FreeBsd, false),
        IoctlRequest { request: 0x8004667e, arg: 0 }
    );
}

#[test]
fn multicast_v4_join_and_leave() {
    let join = join_multicast_v4(Platform::Linux, [224, 0, 0, 123], [127, 0, 0, 1]);
    let leave = leave_multicast_v4(Platform::Linux, [224, 0, 0, 123], [127, 0, 0, 1]);
    let payload = Payload::MembershipV4 {
        group: InAddr { bytes: [224, 0, 0, 123] },
        interface: InAddr { bytes: [127, 0, 0, 1] },
    };
    assert_eq!(join, SetRequest { key: key(0, 35), payload });
    assert_eq!(leave, SetRequest { key: key(0, 36), payload });
}

#[test]
fn multicast_v6_join_and_leave() {
    let group = [0xff01, 0, 0, 0, 0, 0, 0, 0x0123];
    let join = join_multicast_v6(Platform::Linux, group, 3);
    let leave = leave_multicast_v6(Platform::Linux, group, 3);
    assert_eq!(join.key, key(41, 20));
    assert_eq!(leave.key, key(41, 21));
    assert_eq!(join.payload, leave.payload);
    match join.payload {
        Payload::MembershipV6 { group, interface } => {
            assert_eq!(interface, 3);
            assert_eq!(
                group.bytes,
                [0xff, 0x01, 0, 0, 0, 0, 0, 0, 0, 0, 0, 0, 0, 0, 0x01, 0x23]
            );
        }
        other => panic!("unexpected payload {:?}", other),
    }
}

#[test]
fn windows_timeout_is_one_millisecond_count() {
    let set = set_timeout_ms(Platform::Windows, Timeout::Read, Some(1500));
    assert_eq!(set, SetRequest { key: key(0xffff, 0x1006), payload: Payload::TimeoutMs(1500) });
    assert_eq!(
        timeout_query(Platform::Windows, Timeout::Write),
        TimeoutQuery { key: key(0xffff, 0x1005), form: TimeoutForm::Millis }
    );
    assert_eq!(set_timeout_ms(Platform::Windows, Timeout::Read, None).payload, Payload::TimeoutMs(0));
    assert_eq!(set_timeout_ms(Platform::Windows, Timeout::Read, Some(0)).payload, Payload::TimeoutMs(0));
}

#[test]
fn windows_option_numbers() {
    let p = Platform::Windows;
    assert_eq!(option_key(p, SockOpt::OnlyV6), key(41, 27));
    assert_eq!(option_key(p, SockOpt::MulticastLoopV6), key(41, 11));
    assert_eq!(option_key(p, SockOpt::Ttl), key(0, 4));
    assert_eq!(option_key(p, SockOpt::Broadcast), key(0xffff, 0x20));
    assert_eq!(nonblocking_request(p, true), IoctlRequest { request: 0x8004667e, arg: 1 });
}
