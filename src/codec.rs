//! Option payloads and the requests that carry them to the kernel, with an
//! ideal model of a socket's option store.
use vstd::prelude::*;
use crate::convert::{InAddr, In6Addr, Timeval, spec_dword_to_ms, spec_timeval_to_ms};
use crate::platform::OptKey;

verus! {

/// A fixed-shape value written to a socket option.
#[derive(Clone, Copy, Debug, PartialEq, Eq)]
pub enum Payload {
    /// A C `int`: a flag (zero or one) or a count.
    Int(i32),
    /// A timeout as seconds and microseconds.
    Timeout(Timeval),
    /// A timeout as one millisecond count.
    TimeoutMs(u32),
    /// An IPv4 membership request: the group, then the local interface address.
    MembershipV4 { group: InAddr, interface: InAddr },
    /// An IPv6 membership request: the group, then the interface index.
    MembershipV6 { group: In6Addr, interface: u32 },
}

/// Write `payload` under `key`.
#[derive(Clone, Copy, Debug, PartialEq, Eq)]
pub struct SetRequest {
    pub key: OptKey,
    pub payload: Payload,
}

/// Read the C `int` filed under `key`.
#[derive(Clone, Copy, Debug, PartialEq, Eq, Structural)]
pub struct IntQuery {
    pub key: OptKey,
}

/// The shape in which a platform keeps a timeout.
#[derive(Clone, Copy, Debug, PartialEq, Eq, Structural)]
pub enum TimeoutForm {
    /// Seconds and microseconds; read back with `timeval_to_ms`.
    Timeval,
    /// One millisecond count; read back with `dword_to_ms`.
    Millis,
}

/// Read the timeout filed under `key`, kept in the shape `form`.
#[derive(Clone, Copy, Debug, PartialEq, Eq, Structural)]
pub struct TimeoutQuery {
    pub key: OptKey,
    pub form: TimeoutForm,
}

/// An I/O-control call: a request code and its integer argument.
#[derive(Clone, Copy, Debug, PartialEq, Eq, Structural)]
pub struct IoctlRequest {
    pub request: u64,
    pub arg: u64,
}

/// A socket's options as an ideal kernel keeps them: each key holds the
/// last payload written under it.
pub type OptionStore = Map<OptKey, Payload>;

pub open spec fn apply_set(store: OptionStore, req: SetRequest) -> OptionStore {
    store.insert(req.key, req.payload)
}

/// The store after writing each request of `reqs` in order.
pub open spec fn apply_all(store: OptionStore, reqs: Seq<SetRequest>) -> OptionStore
    decreases reqs.len(),
{
    if reqs.len() == 0 {
        store
    } else {
        apply_all(apply_set(store, reqs[0]), reqs.drop_first())
    }
}

/// What an integer read finds in the store, if an integer is there.
pub open spec fn read_int(store: OptionStore, q: IntQuery) -> Option<i32> {
    if store.contains_key(q.key) {
        match store[q.key] {
            Payload::Int(n) => Some(n),
            _ => None,
        }
    } else {
        None
    }
}

/// What a timeout read finds in the store, in milliseconds, if a timeout
/// of the query's shape is there.
pub open spec fn read_timeout(store: OptionStore, q: TimeoutQuery) -> Option<Option<u32>> {
    if store.contains_key(q.key) {
        match (q.form, store[q.key]) {
            (TimeoutForm::Timeval, Payload::Timeout(t)) => Some(spec_timeval_to_ms(t)),
            (TimeoutForm::Millis, Payload::TimeoutMs(d)) => Some(spec_dword_to_ms(d)),
            _ => None,
        }
    } else {
        None
    }
}

} // verus!
