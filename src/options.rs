//! The option facade: for each operation on a stream, listener or datagram
//! socket, the requests it makes and how the replies are read.
use vstd::prelude::*;
use crate::codec::{IntQuery, IoctlRequest, Payload, SetRequest, TimeoutForm, TimeoutQuery};
use crate::convert::{
    InAddr, bool_to_int, ipv4_to_in_addr, ipv6_to_in6_addr, ms_to_dword, ms_to_timeval,
    spec_in6_addr_bytes, spec_ms_to_dword, spec_ms_to_timeval,
};
use crate::platform::{Platform, SockOpt, fionbio, option_key, spec_fionbio, spec_option_key};

verus! {

/// The on/off options.
#[derive(Clone, Copy, Debug, PartialEq, Eq, Structural)]
pub enum Flag {
    NoDelay,
    Broadcast,
    MulticastLoopV4,
    MulticastLoopV6,
    OnlyV6,
    ReuseAddress,
}

/// The options that hold a count.
#[derive(Clone, Copy, Debug, PartialEq, Eq, Structural)]
pub enum Count {
    Ttl,
    MulticastTtlV4,
}

/// The two timeouts of a socket.
#[derive(Clone, Copy, Debug, PartialEq, Eq, Structural)]
pub enum Timeout {
    Read,
    Write,
}

pub open spec fn flag_option(f: Flag) -> SockOpt {
    match f {
        Flag::NoDelay => SockOpt::NoDelay,
        Flag::Broadcast => SockOpt::Broadcast,
        Flag::MulticastLoopV4 => SockOpt::MulticastLoopV4,
        Flag::MulticastLoopV6 => SockOpt::MulticastLoopV6,
        Flag::OnlyV6 => SockOpt::OnlyV6,
        Flag::ReuseAddress => SockOpt::ReuseAddress,
    }
}

pub open spec fn count_option(c: Count) -> SockOpt {
    match c {
        Count::Ttl => SockOpt::Ttl,
        Count::MulticastTtlV4 => SockOpt::MulticastTtlV4,
    }
}

pub open spec fn timeout_option(t: Timeout) -> SockOpt {
    match t {
        Timeout::Read => SockOpt::RecvTimeout,
        Timeout::Write => SockOpt::SendTimeout,
    }
}

fn flag_sockopt(f: Flag) -> (r: SockOpt)
    ensures
        r == flag_option(f),
{
    match f {
        Flag::NoDelay => SockOpt::NoDelay,
        Flag::Broadcast => SockOpt::Broadcast,
        Flag::MulticastLoopV4 => SockOpt::MulticastLoopV4,
        Flag::MulticastLoopV6 => SockOpt::MulticastLoopV6,
        Flag::OnlyV6 => SockOpt::OnlyV6,
        Flag::ReuseAddress => SockOpt::ReuseAddress,
    }
}

fn count_sockopt(c: Count) -> (r: SockOpt)
    ensures
        r == count_option(c),
{
    match c {
        Count::Ttl => SockOpt::Ttl,
        Count::MulticastTtlV4 => SockOpt::MulticastTtlV4,
    }
}

fn timeout_sockopt(t: Timeout) -> (r: SockOpt)
    ensures
        r == timeout_option(t),
{
    match t {
        Timeout::Read => SockOpt::RecvTimeout,
        Timeout::Write => SockOpt::SendTimeout,
    }
}

pub open spec fn spec_set_flag(p: Platform, f: Flag, on: bool) -> SetRequest {
    SetRequest { key: spec_option_key(p, flag_option(f)), payload: Payload::Int(if on { 1 } else { 0 }) }
}

pub open spec fn spec_flag_query(p: Platform, f: Flag) -> IntQuery {
    IntQuery { key: spec_option_key(p, flag_option(f)) }
}

pub open spec fn spec_set_count(p: Platform, c: Count, n: u32) -> SetRequest {
    SetRequest { key: spec_option_key(p, count_option(c)), payload: Payload::Int(n as i32) }
}

pub open spec fn spec_count_query(p: Platform, c: Count) -> IntQuery {
    IntQuery { key: spec_option_key(p, count_option(c)) }
}

/// Windows keeps a timeout as one millisecond count; the others as seconds
/// and microseconds.
pub open spec fn spec_timeout_form(p: Platform) -> TimeoutForm {
    if p == Platform::Windows { TimeoutForm::Millis } else { TimeoutForm::Timeval }
}

pub open spec fn spec_set_timeout(p: Platform, t: Timeout, ms: Option<u32>) -> SetRequest {
    SetRequest {
        key: spec_option_key(p, timeout_option(t)),
        payload: match spec_timeout_form(p) {
            TimeoutForm::Millis => Payload::TimeoutMs(spec_ms_to_dword(ms)),
            TimeoutForm::Timeval => Payload::Timeout(spec_ms_to_timeval(ms)),
        },
    }
}

pub open spec fn spec_timeout_query(p: Platform, t: Timeout) -> TimeoutQuery {
    TimeoutQuery { key: spec_option_key(p, timeout_option(t)), form: spec_timeout_form(p) }
}

pub fn timeout_form(p: Platform) -> (r: TimeoutForm)
    ensures
        r == spec_timeout_form(p),
{
    if matches!(p, Platform::Windows) { TimeoutForm::Millis } else { TimeoutForm::Timeval }
}

/// Turning flag `f` on or off writes one or zero under its key.
pub fn set_flag(p: Platform, f: Flag, on: bool) -> (r: SetRequest)
    ensures
        r == spec_set_flag(p, f, on),
{
    SetRequest { key: option_key(p, flag_sockopt(f)), payload: Payload::Int(bool_to_int(on)) }
}

/// Reading flag `f` reads the integer under its key; `int_to_bool` reads the reply.
pub fn flag_query(p: Platform, f: Flag) -> (r: IntQuery)
    ensures
        r == spec_flag_query(p, f),
{
    IntQuery { key: option_key(p, flag_sockopt(f)) }
}

/// Setting count `c` writes the value as a C `int`, wrapping as a cast does.
pub fn set_count(p: Platform, c: Count, n: u32) -> (r: SetRequest)
    ensures
        r == spec_set_count(p, c, n),
{
    SetRequest { key: option_key(p, count_sockopt(c)), payload: Payload::Int(n as i32) }
}

pub fn count_query(p: Platform, c: Count) -> (r: IntQuery)
    ensures
        r == spec_count_query(p, c),
{
    IntQuery { key: option_key(p, count_sockopt(c)) }
}

/// The count that a C `int` read back stands for, reinterpreted as unsigned.
pub fn count_from_reply(n: i32) -> (r: u32)
    ensures
        r == n as u32,
{
    n as u32
}

/// Setting a timeout writes it in the platform's form; `None` and zero both
/// write the zero value, which means no timeout.
pub fn set_timeout_ms(p: Platform, t: Timeout, ms: Option<u32>) -> (r: SetRequest)
    ensures
        r == spec_set_timeout(p, t, ms),
{
    let payload = match timeout_form(p) {
        TimeoutForm::Millis => Payload::TimeoutMs(ms_to_dword(ms)),
        TimeoutForm::Timeval => Payload::Timeout(ms_to_timeval(ms)),
    };
    SetRequest { key: option_key(p, timeout_sockopt(t)), payload }
}

/// Reading a timeout; `timeval_to_ms` or `dword_to_ms` reads the reply, by its form.
pub fn timeout_query(p: Platform, t: Timeout) -> (r: TimeoutQuery)
    ensures
        r == spec_timeout_query(p, t),
{
    TimeoutQuery { key: option_key(p, timeout_sockopt(t)), form: timeout_form(p) }
}

/// Taking the pending error reads the socket's error slot, which the read
/// clears; `int_to_error` reads the reply.
pub fn error_query(p: Platform) -> (r: IntQuery)
    ensures
        r == (IntQuery { key: spec_option_key(p, SockOpt::Error) }),
{
    IntQuery { key: option_key(p, SockOpt::Error) }
}

/// Switching non-blocking mode is an I/O-control call with the mode as its argument.
pub fn nonblocking_request(p: Platform, on: bool) -> (r: IoctlRequest)
    ensures
        r == (IoctlRequest { request: spec_fionbio(p), arg: if on { 1 } else { 0 } }),
{
    IoctlRequest { request: fionbio(p), arg: if on { 1 } else { 0 } }
}

/// The IPv4 membership payload: the group's address, then the interface's.
pub open spec fn spec_membership_v4(group: [u8; 4], interface: [u8; 4]) -> Payload {
    Payload::MembershipV4 { group: InAddr { bytes: group }, interface: InAddr { bytes: interface } }
}

/// Whether `pl` is the IPv6 membership payload: the group's network-order
/// bytes, then the interface index.
pub open spec fn is_membership_v6(pl: Payload, group: [u16; 8], interface: u32) -> bool {
    pl matches Payload::MembershipV6 { group: g, interface: i }
        && g.bytes@ == spec_in6_addr_bytes(group) && i == interface
}

pub fn membership_v4(group: [u8; 4], interface: [u8; 4]) -> (r: Payload)
    ensures
        r == spec_membership_v4(group, interface),
{
    Payload::MembershipV4 { group: ipv4_to_in_addr(group), interface: ipv4_to_in_addr(interface) }
}

pub fn membership_v6(group: [u16; 8], interface: u32) -> (r: Payload)
    ensures
        is_membership_v6(r, group, interface),
{
    Payload::MembershipV6 { group: ipv6_to_in6_addr(group), interface }
}

/// Joining an IPv4 multicast group on the interface with the given address.
pub fn join_multicast_v4(p: Platform, group: [u8; 4], interface: [u8; 4]) -> (r: SetRequest)
    ensures
        r == (SetRequest {
            key: spec_option_key(p, SockOpt::AddMembershipV4),
            payload: spec_membership_v4(group, interface),
        }),
{
    SetRequest { key: option_key(p, SockOpt::AddMembershipV4), payload: membership_v4(group, interface) }
}

/// Leaving an IPv4 multicast group on the interface with the given address.
pub fn leave_multicast_v4(p: Platform, group: [u8; 4], interface: [u8; 4]) -> (r: SetRequest)
    ensures
        r == (SetRequest {
            key: spec_option_key(p, SockOpt::DropMembershipV4),
            payload: spec_membership_v4(group, interface),
        }),
{
    SetRequest { key: option_key(p, SockOpt::DropMembershipV4), payload: membership_v4(group, interface) }
}

/// Joining an IPv6 multicast group on the interface with the given index.
pub fn join_multicast_v6(p: Platform, group: [u16; 8], interface: u32) -> (r: SetRequest)
    ensures
        r.key == spec_option_key(p, SockOpt::AddMembershipV6),
        is_membership_v6(r.payload, group, interface),
{
    SetRequest { key: option_key(p, SockOpt::AddMembershipV6), payload: membership_v6(group, interface) }
}

/// Leaving an IPv6 multicast group on the interface with the given index.
pub fn leave_multicast_v6(p: Platform, group: [u16; 8], interface: u32) -> (r: SetRequest)
    ensures
        r.key == spec_option_key(p, SockOpt::DropMembershipV6),
        is_membership_v6(r.payload, group, interface),
{
    SetRequest { key: option_key(p, SockOpt::DropMembershipV6), payload: membership_v6(group, interface) }
}

} // verus!
