//! The group record and its three operations: `create_group`, `join_group`
//! and `check_majority`. Each operation is a pure transition of one `Group`
//! value; `join_result` and `check_result` state the transitions as spec
//! functions, and the executable operations are proved to implement them
//! exactly.

use vstd::prelude::*;

verus! {

/// Status of a group record. The only transition this crate performs is
/// `Active -> MajorityReached`, via `check_majority`; `Active -> Closed` is
/// reserved for a mechanism outside this crate, and `MajorityReached` and
/// `Closed` are terminal.
#[derive(Clone, Copy, PartialEq, Eq, Structural, Debug)]
pub enum GroupStatus {
    Active,
    MajorityReached,
    Closed,
}

/// Why an operation was rejected. Every error aborts the whole operation:
/// the record is left exactly as it was.
#[derive(Clone, Copy, PartialEq, Eq, Structural, Debug)]
pub enum PhantaGroupsError {
    /// The offered deposit is below the group's `required_deposit`.
    InsufficientDeposit,
    /// A join was attempted on a record whose status is not `Active`.
    GroupClosed,
    /// A checked arithmetic step would exceed its field's range.
    Overflow,
}

/// One escrow pool, keyed by its owner's identity.
#[derive(Clone, Copy, Debug)]
pub struct Group {
    /// Identity of the creator; set once at creation, never mutated.
    pub owner: [u8; 32],
    /// Minimum contribution accepted from any member; immutable after creation.
    pub required_deposit: u64,
    /// Cumulative sum of all accepted deposits.
    pub total_deposited: u64,
    /// Count of accepted join operations.
    pub member_count: u8,
    /// Where the record stands in its lifecycle.
    pub status: GroupStatus,
    /// Proof byte of the record's deterministic address derivation; carried
    /// through storage verbatim, irrelevant to the logic here.
    pub bump: u8,
}

/// The record `create_group(owner, required_deposit, bump)` produces.
pub open spec fn created(owner: [u8; 32], required_deposit: u64, bump: u8) -> Group {
    Group {
        owner,
        required_deposit,
        total_deposited: 0,
        member_count: 0,
        status: GroupStatus::Active,
        bump,
    }
}

/// Whether a join with this deposit is accepted: the deposit meets the
/// requirement, the record is still `Active`, and both accounting fields can
/// absorb the update.
pub open spec fn join_accepted(g: Group, deposit: u64) -> bool {
    &&& deposit >= g.required_deposit
    &&& g.status == GroupStatus::Active
    &&& g.total_deposited + deposit <= u64::MAX
    &&& g.member_count + 1 <= u8::MAX
}

/// The record after an accepted join: the deposit is counted in full (excess
/// over the requirement included), the member count grows by one, and every
/// other field is untouched.
pub open spec fn joined(g: Group, deposit: u64) -> Group {
    Group {
        total_deposited: (g.total_deposited + deposit) as u64,
        member_count: (g.member_count + 1) as u8,
        ..g
    }
}

/// The outcome of a join, with the preconditions checked in order (the first
/// failing one names the error): deposit sufficiency, then status, then
/// overflow of either accounting field.
pub open spec fn join_result(g: Group, deposit: u64) -> Result<Group, PhantaGroupsError> {
    if deposit < g.required_deposit {
        Err(PhantaGroupsError::InsufficientDeposit)
    } else if g.status != GroupStatus::Active {
        Err(PhantaGroupsError::GroupClosed)
    } else if g.total_deposited + deposit > u64::MAX || g.member_count + 1 > u8::MAX {
        Err(PhantaGroupsError::Overflow)
    } else {
        Ok(joined(g, deposit))
    }
}

/// The majority threshold: three times the per-member requirement, encoding
/// an assumed quorum of three members.
pub open spec fn majority_threshold(g: Group) -> int {
    g.required_deposit * 3
}

/// The outcome of a majority check. The threshold is computed first, and a
/// threshold beyond `u64`'s range is an `Overflow`; otherwise the call always
/// succeeds, transitioning to `MajorityReached` exactly when the record is
/// `Active` and the accumulated deposits have reached the threshold, and
/// changing nothing otherwise.
pub open spec fn check_result(g: Group) -> Result<Group, PhantaGroupsError> {
    if majority_threshold(g) > u64::MAX {
        Err(PhantaGroupsError::Overflow)
    } else if g.status == GroupStatus::Active && g.total_deposited >= majority_threshold(g) {
        Ok(Group { status: GroupStatus::MajorityReached, ..g })
    } else {
        Ok(g)
    }
}

/// Initializes a fresh record for `owner`: nothing deposited, no members,
/// `Active`, with `owner`, `required_deposit` and the derivation proof byte
/// stored verbatim. That at most one record ever exists per owner is the
/// substrate's duty (it derives the record's address from `owner` and rejects
/// a second creation there), not this function's.
pub fn create_group(owner: [u8; 32], required_deposit: u64, bump: u8) -> (g: Group)
    ensures
        g == created(owner, required_deposit, bump),
{
    Group {
        owner,
        required_deposit,
        total_deposited: 0,
        member_count: 0,
        status: GroupStatus::Active,
        bump,
    }
}

/// A member joins the group, depositing `deposit`. On success the deposit is
/// added in full to `total_deposited` and `member_count` grows by one; on any
/// error the record is left exactly as it was. The caller moves the funds:
/// it must transfer `deposit` units into the group's custody exactly when
/// this returns `Ok`, atomically with the update.
///
/// Members are not deduplicated: the same identity may join repeatedly, each
/// accepted call counted separately, so no member identity appears here.
pub fn join_group(group: &mut Group, deposit: u64) -> (r: Result<(), PhantaGroupsError>)
    ensures
        match join_result(*old(group), deposit) {
            Ok(g2) => r == Ok::<(), PhantaGroupsError>(()) && *final(group) == g2,
            Err(e) => r == Err::<(), PhantaGroupsError>(e) && *final(group) == *old(group),
        },
{
    if deposit < group.required_deposit {
        return Err(PhantaGroupsError::InsufficientDeposit);
    }
    if group.status != GroupStatus::Active {
        return Err(PhantaGroupsError::GroupClosed);
    }
    let new_total = match group.total_deposited.checked_add(deposit) {
        Some(t) => t,
        None => {
            return Err(PhantaGroupsError::Overflow);
        },
    };
    let new_count = match group.member_count.checked_add(1) {
        Some(c) => c,
        None => {
            return Err(PhantaGroupsError::Overflow);
        },
    };
    group.total_deposited = new_total;
    group.member_count = new_count;
    Ok(())
}

/// Evaluates the majority condition and possibly commits the one status
/// transition: `Active -> MajorityReached` exactly when `total_deposited`
/// has reached three times `required_deposit`. Callable by anyone, moves no
/// funds, and fails only when the threshold itself is not representable.
pub fn check_majority(group: &mut Group) -> (r: Result<(), PhantaGroupsError>)
    ensures
        match check_result(*old(group)) {
            Ok(g2) => r == Ok::<(), PhantaGroupsError>(()) && *final(group) == g2,
            Err(e) => r == Err::<(), PhantaGroupsError>(e) && *final(group) == *old(group),
        },
{
    let threshold = match group.required_deposit.checked_mul(3) {
        Some(t) => t,
        None => {
            return Err(PhantaGroupsError::Overflow);
        },
    };
    if group.status == GroupStatus::Active && group.total_deposited >= threshold {
        group.status = GroupStatus::MajorityReached;
    }
    Ok(())
}

} // verus!
