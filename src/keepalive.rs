//! Keepalive. On POSIX platforms enabling it and setting the idle time are
//! two writes, and reading it back is one read, then a second only when it
//! is enabled. On Windows one I/O-control call carries a three-field struct.
use vstd::prelude::*;
use crate::codec::{IntQuery, Payload, SetRequest};
use crate::convert::{clamp_u32, non_negative};
use crate::platform::{Platform, SockOpt, option_key, spec_option_key};

verus! {

/// Whether keepalive on `p` goes through the `SIO_KEEPALIVE_VALS` control
/// rather than through options.
pub open spec fn spec_keepalive_by_control(p: Platform) -> bool {
    p == Platform::Windows
}

pub fn keepalive_by_control(p: Platform) -> (r: bool)
    ensures
        r == spec_keepalive_by_control(p),
{
    matches!(p, Platform::Windows)
}

/// The I/O-control code that writes or reads the keepalive struct.
pub const SIO_KEEPALIVE_VALS: u32 = 0x98000004;

/// The idle time and interval written when keepalive is switched off.
pub const INFINITE: u32 = 0xffff_ffff;

/// The Windows keepalive struct: on/off, idle time and probe interval, both in
/// milliseconds.
#[derive(Clone, Copy, Debug, PartialEq, Eq, Structural)]
pub struct KeepaliveVals {
    pub onoff: u32,
    pub time: u32,
    pub interval: u32,
}

/// An I/O-control call that carries a keepalive struct.
#[derive(Clone, Copy, Debug, PartialEq, Eq, Structural)]
pub struct KeepaliveControl {
    pub code: u32,
    pub vals: KeepaliveVals,
}

/// The struct for `ms` milliseconds of idle time, used also as the probe
/// interval; off writes zero and infinite times.
pub open spec fn spec_keepalive_vals(ms: Option<u32>) -> KeepaliveVals {
    match ms {
        Some(d) => KeepaliveVals { onoff: 1, time: d, interval: d },
        None => KeepaliveVals { onoff: 0, time: INFINITE, interval: INFINITE },
    }
}

pub fn keepalive_vals(ms: Option<u32>) -> (r: KeepaliveVals)
    ensures
        r == spec_keepalive_vals(ms),
{
    match ms {
        Some(d) => KeepaliveVals { onoff: 1, time: d, interval: d },
        None => KeepaliveVals { onoff: 0, time: INFINITE, interval: INFINITE },
    }
}

/// The control call that sets keepalive to `ms`, or off.
pub fn keepalive_control(ms: Option<u32>) -> (r: KeepaliveControl)
    ensures
        r == (KeepaliveControl { code: SIO_KEEPALIVE_VALS, vals: spec_keepalive_vals(ms) }),
{
    KeepaliveControl { code: SIO_KEEPALIVE_VALS, vals: keepalive_vals(ms) }
}

pub open spec fn spec_keepalive_from_vals(ka: KeepaliveVals) -> Option<u32> {
    if ka.onoff == 0 { None } else { Some(ka.interval) }
}

/// What a keepalive struct read back stands for: off, or the interval in
/// milliseconds.
pub fn keepalive_from_vals(ka: KeepaliveVals) -> (r: Option<u32>)
    ensures
        r == spec_keepalive_from_vals(ka),
{
    if ka.onoff == 0 { None } else { Some(ka.interval) }
}

/// Writes that set keepalive: the enable flag, then, only when enabling,
/// the idle time in whole seconds (sub-second parts are dropped).
pub open spec fn spec_keepalive_plan(p: Platform, ms: Option<u32>) -> Seq<SetRequest> {
    let enable = SetRequest {
        key: spec_option_key(p, SockOpt::KeepAlive),
        payload: Payload::Int(if ms is Some { 1 } else { 0 }),
    };
    match ms {
        None => seq![enable],
        Some(d) => seq![
            enable,
            SetRequest { key: spec_option_key(p, SockOpt::KeepAliveIdle), payload: Payload::Int((d / 1000) as i32) },
        ],
    }
}

/// The writes that set keepalive to `ms` milliseconds of idle time, or off.
/// They are made in order and the first failure stops the rest; an earlier
/// write that succeeded stays in effect.
pub fn keepalive_plan(p: Platform, ms: Option<u32>) -> (r: Vec<SetRequest>)
    ensures
        r@ == spec_keepalive_plan(p, ms),
{
    let on: i32 = if ms.is_some() { 1 } else { 0 };
    let mut plan: Vec<SetRequest> = Vec::new();
    plan.push(SetRequest { key: option_key(p, SockOpt::KeepAlive), payload: Payload::Int(on) });
    if let Some(d) = ms {
        let secs: i32 = (d / 1000) as i32;
        plan.push(SetRequest { key: option_key(p, SockOpt::KeepAliveIdle), payload: Payload::Int(secs) });
    }
    assert(plan@ =~= spec_keepalive_plan(p, ms));
    plan
}

/// What to do after a read of the keepalive state.
#[derive(Clone, Copy, Debug, PartialEq, Eq, Structural)]
pub enum KeepaliveStep {
    /// The answer is known.
    Done(Option<u32>),
    /// Read this integer and hand it to `keepalive_from_idle`.
    Read(IntQuery),
}

/// The first read: the enable flag.
pub fn keepalive_query(p: Platform) -> (r: IntQuery)
    ensures
        r.key == spec_option_key(p, SockOpt::KeepAlive),
{
    IntQuery { key: option_key(p, SockOpt::KeepAlive) }
}

pub open spec fn spec_keepalive_after_flag(p: Platform, flag: i32) -> KeepaliveStep {
    if flag == 0 {
        KeepaliveStep::Done(None)
    } else {
        KeepaliveStep::Read(IntQuery { key: spec_option_key(p, SockOpt::KeepAliveIdle) })
    }
}

/// After the enable flag was read: off means no keepalive, on means the idle
/// time is to be read.
pub fn keepalive_after_flag(p: Platform, flag: i32) -> (r: KeepaliveStep)
    ensures
        r == spec_keepalive_after_flag(p, flag),
{
    if flag == 0 {
        KeepaliveStep::Done(None)
    } else {
        KeepaliveStep::Read(IntQuery { key: option_key(p, SockOpt::KeepAliveIdle) })
    }
}

pub open spec fn spec_keepalive_from_idle(secs: i32) -> Option<u32> {
    Some(clamp_u32(non_negative(secs as int) * 1000))
}

/// The idle time in milliseconds that a read of whole seconds stands for.
pub fn keepalive_from_idle(secs: i32) -> (r: Option<u32>)
    ensures
        r == spec_keepalive_from_idle(secs),
{
    if secs <= 0 {
        Some(0)
    } else if secs as u32 > u32::MAX / 1000 {
        Some(u32::MAX)
    } else {
        Some(secs as u32 * 1000)
    }
}

} // verus!
