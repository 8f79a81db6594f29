//! Connecting to the first address that accepts, in the order given.
use vstd::prelude::*;

verus! {

/// Why connecting through a list of addresses failed.
#[derive(Debug, PartialEq, Eq)]
pub enum ConnectError<E> {
    /// The list held no address.
    NoAddresses,
    /// Every attempt failed; this is the last attempt's error.
    Failed(E),
}

/// Where a connect through a list of addresses stands.
#[derive(Debug, PartialEq, Eq)]
pub enum ConnectState<E> {
    /// An attempt succeeded; no further address is tried.
    Connected,
    /// No attempt has succeeded; this is the error to report if none follows.
    Pending(ConnectError<E>),
}

/// The state after one more attempt: a success stands, otherwise the
/// attempt's own outcome replaces the earlier failure.
pub open spec fn connect_step<E>(prev: ConnectState<E>, attempt: Result<(), E>) -> ConnectState<E> {
    match prev {
        ConnectState::Connected => ConnectState::Connected,
        ConnectState::Pending(_) => match attempt {
            Ok(_) => ConnectState::Connected,
            Err(e) => ConnectState::Pending(ConnectError::Failed(e)),
        },
    }
}

pub open spec fn fold_attempts<E>(prev: ConnectState<E>, attempts: Seq<Result<(), E>>) -> ConnectState<E>
    decreases attempts.len(),
{
    if attempts.len() == 0 {
        prev
    } else {
        fold_attempts(connect_step(prev, attempts[0]), attempts.drop_first())
    }
}

/// Where a connect ends up through a list whose attempts would have the
/// given outcomes, one per address in order.
pub open spec fn connect_outcome<E>(attempts: Seq<Result<(), E>>) -> ConnectState<E> {
    fold_attempts(ConnectState::Pending(ConnectError::NoAddresses), attempts)
}

/// The result that a final state is reported as.
pub open spec fn reported<E>(s: ConnectState<E>, r: Result<(), ConnectError<E>>) -> bool {
    match s {
        ConnectState::Connected => r is Ok,
        ConnectState::Pending(err) => r == Err::<(), ConnectError<E>>(err),
    }
}

/// A connect through a list of addresses: the caller attempts each address
/// in order while `needs_attempt` holds, and records each outcome.
pub struct ConnectFold<E> {
    state: ConnectState<E>,
}

impl<E> ConnectFold<E> {
    pub closed spec fn state(&self) -> ConnectState<E> {
        self.state
    }

    pub fn new() -> (r: Self)
        ensures
            r.state() == ConnectState::<E>::Pending(ConnectError::NoAddresses),
    {
        ConnectFold { state: ConnectState::Pending(ConnectError::NoAddresses) }
    }

    /// Whether no attempt has succeeded yet, so the next address is to be tried.
    pub fn needs_attempt(&self) -> (r: bool)
        ensures
            r == self.state() is Pending,
    {
        match self.state {
            ConnectState::Connected => false,
            ConnectState::Pending(_) => true,
        }
    }

    pub fn record(&mut self, attempt: Result<(), E>)
        ensures
            final(self).state() == connect_step(old(self).state(), attempt),
    {
        if self.needs_attempt() {
            self.state = match attempt {
                Ok(()) => ConnectState::Connected,
                Err(e) => ConnectState::Pending(ConnectError::Failed(e)),
            };
        }
    }

    /// The result of the whole connect: success if an attempt succeeded,
    /// else the last attempt's error, else that the list held no address.
    pub fn finish(self) -> (r: Result<(), ConnectError<E>>)
        ensures
            reported(self.state(), r),
    {
        match self.state {
            ConnectState::Connected => Ok(()),
            ConnectState::Pending(err) => Err(err),
        }
    }
}

} // verus!
