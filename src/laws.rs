//! What holds of the facade's operations taken together, over the ideal
//! option store.
use vstd::prelude::*;
use crate::codec::{IntQuery, OptionStore, SetRequest, apply_all, apply_set, read_int, read_timeout};
use crate::connect::{ConnectError, ConnectState, connect_outcome, connect_step, fold_attempts};
use crate::convert::spec_int_to_error;
use crate::keepalive::{
    KeepaliveStep, spec_keepalive_after_flag, spec_keepalive_from_idle, spec_keepalive_from_vals,
    spec_keepalive_plan, spec_keepalive_vals,
};
use crate::options::{
    Count, Flag, Timeout, is_membership_v6, spec_membership_v4, spec_count_query, spec_flag_query, spec_set_count,
    spec_set_flag, spec_set_timeout, spec_timeout_query,
};
use crate::platform::{Platform, SockOpt, lemma_option_keys_distinct, spec_option_key};

verus! {

/// Setting a flag and reading it back gives the value that was set.
pub proof fn lemma_flag_round_trip(p: Platform, store: OptionStore, f: Flag, on: bool)
    ensures
        read_int(apply_set(store, spec_set_flag(p, f, on)), spec_flag_query(p, f)) matches Some(n)
            && (n != 0) == on,
{
}

/// Setting a count that fits a C `int` and reading it back gives the count.
pub proof fn lemma_count_round_trip(p: Platform, store: OptionStore, c: Count, n: u32)
    requires
        n <= i32::MAX,
    ensures
        read_int(apply_set(store, spec_set_count(p, c, n)), spec_count_query(p, c)) matches Some(m)
            && m as u32 == n,
{
}

/// Setting a timeout and reading it back gives the same milliseconds, except
/// that a zero timeout reads back as no timeout, as `None` does.
pub proof fn lemma_timeout_round_trip(p: Platform, store: OptionStore, t: Timeout, ms: Option<u32>)
    ensures
        read_timeout(apply_set(store, spec_set_timeout(p, t, ms)), spec_timeout_query(p, t)) == Some(match ms {
            Some(d) => if d == 0 { None } else { Some(d) },
            None => None,
        }),
{
    if let Some(d) = ms {
        assert(d == (d / 1000) * 1000 + d % 1000);
        assert(((d % 1000) * 1000) / 1000 == d % 1000);
    }
}

/// What reading keepalive finds in a store: `None` where a read would find
/// no integer, else whether keepalive is on and its idle time.
pub open spec fn read_keepalive(p: Platform, store: OptionStore) -> Option<Option<u32>> {
    match read_int(store, IntQuery { key: spec_option_key(p, SockOpt::KeepAlive) }) {
        None => None,
        Some(flag) => match spec_keepalive_after_flag(p, flag) {
            KeepaliveStep::Done(v) => Some(v),
            KeepaliveStep::Read(q) => match read_int(store, q) {
                None => None,
                Some(secs) => Some(spec_keepalive_from_idle(secs)),
            },
        },
    }
}

/// Setting keepalive and reading it back gives the idle time truncated to
/// whole seconds; switching it off reads back as off.
pub proof fn lemma_keepalive_round_trip(p: Platform, store: OptionStore, ms: Option<u32>)
    ensures
        read_keepalive(p, apply_all(store, spec_keepalive_plan(p, ms))) == Some(match ms {
            Some(d) => Some((d / 1000 * 1000) as u32),
            None => None,
        }),
{
    lemma_option_keys_distinct(p, SockOpt::KeepAlive, SockOpt::KeepAliveIdle);
    let plan = spec_keepalive_plan(p, ms);
    assert(plan.drop_first().len() == 0 || plan.drop_first().drop_first().len() == 0);
    reveal_with_fuel(apply_all, 3);
    if let Some(d) = ms {
        assert(d / 1000 * 1000 <= d) by (nonlinear_arith);
    }
}

/// Reading back the keepalive struct that was written gives the idle time
/// set, or off where keepalive was switched off.
pub proof fn lemma_keepalive_control_round_trip(ms: Option<u32>)
    ensures
        spec_keepalive_from_vals(spec_keepalive_vals(ms)) == ms,
{
}

/// Join and leave on the same IPv4 group and interface write the same
/// payload, under two different names of the same level.
pub proof fn lemma_membership_v4_shared(p: Platform, group: [u8; 4], interface: [u8; 4], join: SetRequest, leave: SetRequest)
    requires
        join == (SetRequest { key: spec_option_key(p, SockOpt::AddMembershipV4), payload: spec_membership_v4(group, interface) }),
        leave == (SetRequest { key: spec_option_key(p, SockOpt::DropMembershipV4), payload: spec_membership_v4(group, interface) }),
    ensures
        join.payload == leave.payload,
        join.key.level == leave.key.level,
        join.key != leave.key,
{
    lemma_option_keys_distinct(p, SockOpt::AddMembershipV4, SockOpt::DropMembershipV4);
}

/// Join and leave on the same IPv6 group and interface write the same
/// payload, under two different names of the same level.
pub proof fn lemma_membership_v6_shared(p: Platform, group: [u16; 8], interface: u32, join: SetRequest, leave: SetRequest)
    requires
        join.key == spec_option_key(p, SockOpt::AddMembershipV6),
        is_membership_v6(join.payload, group, interface),
        leave.key == spec_option_key(p, SockOpt::DropMembershipV6),
        is_membership_v6(leave.payload, group, interface),
    ensures
        join.payload == leave.payload,
        join.key.level == leave.key.level,
        join.key != leave.key,
{
    lemma_option_keys_distinct(p, SockOpt::AddMembershipV6, SockOpt::DropMembershipV6);
    if let (
        crate::codec::Payload::MembershipV6 { group: g1, interface: _ },
        crate::codec::Payload::MembershipV6 { group: g2, interface: _ },
    ) = (join.payload, leave.payload) {
        assert(g1.bytes =~= g2.bytes);
    }
}

/// An error slot that holds zero reports no pending error; any other value
/// is reported as that code.
pub proof fn lemma_error_slot(n: i32)
    ensures
        spec_int_to_error(n) is None <==> n == 0,
        spec_int_to_error(n) matches Some(e) ==> e.code == n,
{
}

/// Connecting through an empty list fails with the error that no address
/// was given, which is no attempt's error.
pub proof fn lemma_connect_empty<E>()
    ensures
        connect_outcome(Seq::<Result<(), E>>::empty()) == ConnectState::<E>::Pending(ConnectError::NoAddresses),
{
}

proof fn lemma_fold_after_failures<E>(prev: ConnectState<E>, failed: Seq<Result<(), E>>, rest: Seq<Result<(), E>>)
    requires
        prev is Pending,
        rest.len() > 0,
        forall|i: int| 0 <= i < failed.len() ==> (#[trigger] failed[i]) is Err,
    ensures
        fold_attempts(prev, failed + rest) == fold_attempts(ConnectState::Pending(ConnectError::NoAddresses), rest),
    decreases failed.len(),
{
    if failed.len() == 0 {
        assert(failed + rest =~= rest);
        assert(connect_step(prev, rest[0]) == connect_step(ConnectState::Pending(ConnectError::NoAddresses), rest[0]));
    } else {
        assert((failed + rest).drop_first() =~= failed.drop_first() + rest);
        assert(failed.drop_first().len() < failed.len());
        assert forall|i: int| 0 <= i < failed.drop_first().len() implies (#[trigger] failed.drop_first()[i]) is Err by {
            assert(failed.drop_first()[i] == failed[i + 1]);
        }
        assert(failed[0] is Err);
        lemma_fold_after_failures(connect_step(prev, (failed + rest)[0]), failed.drop_first(), rest);
    }
}

/// Failed attempts before the rest of a list change nothing: connecting
/// through them and then the rest ends as connecting through the rest alone.
pub proof fn lemma_connect_skips_failures<E>(failed: Seq<Result<(), E>>, rest: Seq<Result<(), E>>)
    requires
        rest.len() > 0,
        forall|i: int| 0 <= i < failed.len() ==> (#[trigger] failed[i]) is Err,
    ensures
        connect_outcome(failed + rest) == connect_outcome(rest),
{
    lemma_fold_after_failures(ConnectState::Pending(ConnectError::NoAddresses), failed, rest);
}

proof fn lemma_fold_connected<E>(attempts: Seq<Result<(), E>>)
    ensures
        fold_attempts(ConnectState::Connected, attempts) == ConnectState::<E>::Connected,
    decreases attempts.len(),
{
    if attempts.len() > 0 {
        lemma_fold_connected(attempts.drop_first());
    }
}

/// Connecting through a list succeeds when one of its attempts succeeds.
pub proof fn lemma_connect_succeeds<E>(attempts: Seq<Result<(), E>>, i: int)
    requires
        0 <= i < attempts.len(),
        attempts[i] is Ok,
    ensures
        connect_outcome(attempts) == ConnectState::<E>::Connected,
    decreases attempts.len(),
{
    let start = ConnectState::<E>::Pending(ConnectError::NoAddresses);
    let next = connect_step(start, attempts[0]);
    if i == 0 {
        lemma_fold_connected(attempts.drop_first());
    } else if next is Connected {
        lemma_fold_connected(attempts.drop_first());
    } else {
        lemma_connect_succeeds(attempts.drop_first(), i - 1);
        lemma_fold_after_failures(next, Seq::empty(), attempts.drop_first());
        assert(Seq::<Result<(), E>>::empty() + attempts.drop_first() =~= attempts.drop_first());
    }
}

/// Connecting through a non-empty list whose attempts all fail fails with
/// the last attempt's error.
pub proof fn lemma_connect_all_fail<E>(attempts: Seq<Result<(), E>>)
    requires
        attempts.len() > 0,
        forall|i: int| 0 <= i < attempts.len() ==> (#[trigger] attempts[i]) is Err,
    ensures
        attempts.last() matches Err(e) && connect_outcome(attempts) == ConnectState::Pending(ConnectError::Failed(e)),
{
    let n = attempts.len();
    let failed = attempts.take(n - 1);
    let rest = attempts.skip(n - 1);
    assert(failed + rest =~= attempts);
    assert forall|i: int| 0 <= i < failed.len() implies (#[trigger] failed[i]) is Err by {
        assert(failed[i] == attempts[i]);
    }
    lemma_connect_skips_failures(failed, rest);
    assert(rest[0] == attempts.last());
    assert(attempts.last() is Err);
    let start = ConnectState::<E>::Pending(ConnectError::NoAddresses);
    assert(rest.drop_first().len() == 0);
    assert(fold_attempts(connect_step(start, rest[0]), rest.drop_first()) == connect_step(start, rest[0]));
}

} // verus!
