//! The properties the engine guarantees, stated and proved over the spec
//! transitions of `crate::engine`. Each lemma is public: together with the
//! operations' own contracts they are what this library promises.

use vstd::prelude::*;

use crate::engine::Group;
use crate::engine::GroupStatus;
use crate::engine::PhantaGroupsError;
use crate::engine::check_result;
use crate::engine::join_accepted;
use crate::engine::join_result;
use crate::engine::joined;
use crate::engine::majority_threshold;

verus! {

/// The sum of a sequence of deposit amounts, as an unbounded integer.
pub open spec fn sum_of(deposits: Seq<u64>) -> int
    decreases deposits.len(),
{
    if deposits.len() == 0 {
        0
    } else {
        deposits[0] + sum_of(deposits.drop_first())
    }
}

/// The record after this whole sequence of joins, each taken as accepted.
pub open spec fn join_all(g: Group, deposits: Seq<u64>) -> Group
    decreases deposits.len(),
{
    if deposits.len() == 0 {
        g
    } else {
        join_all(joined(g, deposits[0]), deposits.drop_first())
    }
}

/// Whether every join in the sequence is accepted, each against the record
/// the joins before it produced.
pub open spec fn all_joins_accepted(g: Group, deposits: Seq<u64>) -> bool
    decreases deposits.len(),
{
    deposits.len() == 0 || (join_accepted(g, deposits[0]) && all_joins_accepted(
        joined(g, deposits[0]),
        deposits.drop_first(),
    ))
}

/// Deposit accounting invariant: across any sequence of accepted joins,
/// `total_deposited` grows by exactly the sum of the accepted deposits and
/// `member_count` by exactly their number — no deposit is double-applied or
/// dropped — while owner, requirement, status and the derivation proof byte
/// stay untouched. Started from a freshly created record, whose totals are
/// zero, the totals therefore equal the sum and the count themselves.
pub proof fn lemma_deposit_accounting(g: Group, deposits: Seq<u64>)
    requires
        all_joins_accepted(g, deposits),
    ensures
        join_all(g, deposits).total_deposited == g.total_deposited + sum_of(deposits),
        join_all(g, deposits).member_count == g.member_count + deposits.len(),
        join_all(g, deposits).owner == g.owner,
        join_all(g, deposits).required_deposit == g.required_deposit,
        join_all(g, deposits).status == g.status,
        join_all(g, deposits).bump == g.bump,
    decreases deposits.len(),
{
    if deposits.len() != 0 {
        lemma_deposit_accounting(joined(g, deposits[0]), deposits.drop_first());
    }
}

/// Whether a majority check on this record commits the transition to
/// `MajorityReached`: it succeeds and hands back a record in that status.
pub open spec fn reaches_majority(g: Group) -> bool {
    match check_result(g) {
        Ok(g2) => g2.status == GroupStatus::MajorityReached,
        Err(_) => false,
    }
}

/// Idempotence: a majority check on a record already in `MajorityReached`
/// succeeds and changes nothing, so repeating the call any number of times
/// keeps succeeding on the very same record. The one proviso is that the
/// record's threshold is representable — which holds of every record this
/// engine ever moves into `MajorityReached`, since the transition itself
/// computes that threshold.
pub proof fn lemma_check_majority_idempotent(g: Group)
    requires
        g.status == GroupStatus::MajorityReached,
        majority_threshold(g) <= u64::MAX,
    ensures
        check_result(g) == Ok::<Group, PhantaGroupsError>(g),
{
}

/// Threshold correctness: a majority check on an `Active` record commits the
/// transition to `MajorityReached` if and only if `total_deposited` has
/// reached three times `required_deposit`. (When that threshold exceeds
/// `u64`'s range the check fails with `Overflow` — and no representable
/// `total_deposited` could have reached it either.)
pub proof fn lemma_threshold_correctness(g: Group)
    requires
        g.status == GroupStatus::Active,
    ensures
        reaches_majority(g) <==> g.total_deposited >= majority_threshold(g),
{
}

/// Rejection boundary: a deposit below the requirement — in particular
/// `required_deposit - 1` — is rejected with `InsufficientDeposit`, whatever
/// the record's status; a deposit equal to the requirement is never rejected
/// for insufficiency, and on an `Active` record whose accounting fields can
/// absorb it, it is accepted.
pub proof fn lemma_rejection_boundary(g: Group, deposit: u64)
    ensures
        deposit < g.required_deposit ==> join_result(g, deposit) == Err::<
            Group,
            PhantaGroupsError,
        >(PhantaGroupsError::InsufficientDeposit),
        deposit >= g.required_deposit ==> join_result(g, deposit) != Err::<
            Group,
            PhantaGroupsError,
        >(PhantaGroupsError::InsufficientDeposit),
        deposit == g.required_deposit && join_accepted(g, deposit) ==> join_result(g, deposit)
            == Ok::<Group, PhantaGroupsError>(joined(g, deposit)),
{
}

/// Closed-group rejection: once a record's status is not `Active`, every join
/// fails — with `GroupClosed` whenever the deposit itself was sufficient (an
/// insufficient deposit is named first, per the check order). `join_group`'s
/// own contract adds that a failed join leaves the record exactly as it was.
pub proof fn lemma_closed_group_rejection(g: Group, deposit: u64)
    requires
        g.status != GroupStatus::Active,
    ensures
        join_result(g, deposit) is Err,
        deposit >= g.required_deposit ==> join_result(g, deposit) == Err::<
            Group,
            PhantaGroupsError,
        >(PhantaGroupsError::GroupClosed),
{
}

} // verus!
