//! Conversions between the caller's values and the kernel's payload values.
use vstd::prelude::*;

verus! {

/// A seconds-and-microseconds timeout, as POSIX kernels store it.
#[derive(Clone, Copy, Debug, PartialEq, Eq, Structural)]
pub struct Timeval {
    pub secs: i64,
    pub micros: i64,
}

/// A span of time held as whole seconds and a sub-second count of nanoseconds.
#[derive(Clone, Copy, Debug, PartialEq, Eq, Structural)]
pub struct DurationParts {
    pub secs: u64,
    pub nanos: u32,
}

/// An error code that the operating system reported.
#[derive(Clone, Copy, Debug, PartialEq, Eq, Structural)]
pub struct OsError {
    pub code: i32,
}

/// An IPv4 address in network byte order, as it lies in memory.
#[derive(Clone, Copy, Debug, PartialEq, Eq)]
pub struct InAddr {
    pub bytes: [u8; 4],
}

/// An IPv6 address in network byte order, as it lies in memory.
#[derive(Clone, Copy, Debug, PartialEq, Eq)]
pub struct In6Addr {
    pub bytes: [u8; 16],
}

pub open spec fn clamp_u32(x: int) -> u32 {
    if x < 0 {
        0
    } else if x > u32::MAX {
        u32::MAX
    } else {
        x as u32
    }
}

pub open spec fn non_negative(x: int) -> int {
    if x < 0 { 0 } else { x }
}

/// The timeout that stands for an optional number of milliseconds; no
/// timeout is the all-zero value.
pub open spec fn spec_ms_to_timeval(ms: Option<u32>) -> Timeval {
    match ms {
        Some(d) => Timeval { secs: (d / 1000) as i64, micros: ((d % 1000) * 1000) as i64 },
        None => Timeval { secs: 0, micros: 0 },
    }
}

/// The milliseconds that a timeout stands for; the all-zero value is no
/// timeout, negative parts count as zero, and the total saturates.
pub open spec fn spec_timeval_to_ms(t: Timeval) -> Option<u32> {
    if t.secs == 0 && t.micros == 0 {
        None
    } else {
        Some(clamp_u32(non_negative(t.secs as int) * 1000 + non_negative(t.micros as int) / 1000))
    }
}

pub fn ms_to_timeval(ms: Option<u32>) -> (r: Timeval)
    ensures
        r == spec_ms_to_timeval(ms),
{
    match ms {
        Some(d) => Timeval { secs: (d / 1000) as i64, micros: ((d % 1000) * 1000) as i64 },
        None => Timeval { secs: 0, micros: 0 },
    }
}

/// The single millisecond count that Windows keeps as a timeout; zero means none.
pub open spec fn spec_ms_to_dword(ms: Option<u32>) -> u32 {
    match ms {
        Some(d) => d,
        None => 0,
    }
}

pub open spec fn spec_dword_to_ms(d: u32) -> Option<u32> {
    if d == 0 { None } else { Some(d) }
}

pub fn ms_to_dword(ms: Option<u32>) -> (r: u32)
    ensures
        r == spec_ms_to_dword(ms),
{
    match ms {
        Some(d) => d,
        None => 0,
    }
}

pub fn dword_to_ms(d: u32) -> (r: Option<u32>)
    ensures
        r == spec_dword_to_ms(d),
{
    if d == 0 { None } else { Some(d) }
}

fn saturate_u32(x: i128) -> (r: u32)
    ensures
        r == clamp_u32(x as int),
{
    if x < 0 {
        0
    } else if x > u32::MAX as i128 {
        u32::MAX
    } else {
        x as u32
    }
}

pub fn timeval_to_ms(t: Timeval) -> (r: Option<u32>)
    ensures
        r == spec_timeval_to_ms(t),
{
    if t.secs == 0 && t.micros == 0 {
        None
    } else {
        let secs: i128 = if t.secs < 0 { 0 } else { t.secs as i128 };
        let micros: i128 = if t.micros < 0 { 0 } else { t.micros as i128 };
        Some(saturate_u32(secs * 1000 + micros / 1000))
    }
}

pub open spec fn spec_duration_to_ms(d: DurationParts) -> u32 {
    clamp_u32(d.secs * 1000 + d.nanos / 1_000_000)
}

pub open spec fn spec_ms_to_duration(ms: u32) -> DurationParts {
    DurationParts { secs: (ms / 1000) as u64, nanos: ((ms % 1000) * 1_000_000) as u32 }
}

/// Whole milliseconds in a span, truncating finer parts and saturating.
pub fn duration_to_ms(d: DurationParts) -> (r: u32)
    ensures
        r == spec_duration_to_ms(d),
{
    saturate_u32(d.secs as i128 * 1000 + (d.nanos / 1_000_000) as i128)
}

pub fn ms_to_duration(ms: u32) -> (r: DurationParts)
    ensures
        r == spec_ms_to_duration(ms),
{
    DurationParts { secs: (ms / 1000) as u64, nanos: (ms % 1000) * 1_000_000 }
}

/// A C flag: any non-zero value is on.
pub fn int_to_bool(n: i32) -> (r: bool)
    ensures
        r == (n != 0),
{
    n != 0
}

pub fn bool_to_int(b: bool) -> (r: i32)
    ensures
        r == (if b { 1i32 } else { 0i32 }),
{
    if b { 1 } else { 0 }
}

/// The pending error that a raw error slot holds; zero means none.
pub open spec fn spec_int_to_error(n: i32) -> Option<OsError> {
    if n == 0 { None } else { Some(OsError { code: n }) }
}

pub fn int_to_error(n: i32) -> (r: Option<OsError>)
    ensures
        r == spec_int_to_error(n),
        r is None <==> n == 0,
{
    if n == 0 { None } else { Some(OsError { code: n }) }
}

/// The network-order bytes of an IPv6 address given by its eight segments:
/// each segment's high byte first.
pub open spec fn spec_in6_addr_bytes(segments: [u16; 8]) -> Seq<u8> {
    Seq::new(16, |i: int| if i % 2 == 0 {
        (segments@[i / 2] / 256) as u8
    } else {
        (segments@[i / 2] % 256) as u8
    })
}

/// An IPv4 address in network order: its octets, first octet first.
pub fn ipv4_to_in_addr(octets: [u8; 4]) -> (r: InAddr)
    ensures
        r == (InAddr { bytes: octets }),
{
    InAddr { bytes: octets }
}

fn high_byte(x: u16) -> (r: u8)
    ensures
        r == x / 256,
{
    let r = (x >> 8u16) as u8;
    assert((x >> 8u16) as u8 == x / 256) by (bit_vector);
    r
}

fn low_byte(x: u16) -> (r: u8)
    ensures
        r == x % 256,
{
    let r = (x & 0xffu16) as u8;
    assert((x & 0xffu16) as u8 == x % 256) by (bit_vector);
    r
}

/// An IPv6 address in network order: each segment's high byte, then its low byte.
pub fn ipv6_to_in6_addr(segments: [u16; 8]) -> (r: In6Addr)
    ensures
        r.bytes@ == spec_in6_addr_bytes(segments),
{
    let s = segments;
    let bytes: [u8; 16] = [
        high_byte(s[0]), low_byte(s[0]),
        high_byte(s[1]), low_byte(s[1]),
        high_byte(s[2]), low_byte(s[2]),
        high_byte(s[3]), low_byte(s[3]),
        high_byte(s[4]), low_byte(s[4]),
        high_byte(s[5]), low_byte(s[5]),
        high_byte(s[6]), low_byte(s[6]),
        high_byte(s[7]), low_byte(s[7]),
    ];
    assert(bytes@ =~= spec_in6_addr_bytes(segments));
    In6Addr { bytes }
}

} // verus!
