use vstd::prelude::*;
use vstd::string::StringExecFns;
use crate::errors::{AppError, ErrorKind};
use crate::models::{Multisig, UpdateProposalStatus};
use crate::status::ProposalStatus;

verus! {

/// The message of a transition that the table does not allow.
pub open spec fn transition_message(from: ProposalStatus, to: ProposalStatus) -> Seq<char> {
    "Invalid status transition from "@ + from.name() + " to "@ + to.name()
}

/// The message of an approval of a proposal that is not `Active`.
pub open spec fn not_approvable_message(status: ProposalStatus) -> Seq<char> {
    "Proposal with status "@ + status.name() + " cannot be approved"@
}

pub open spec fn not_owner_message() -> Seq<char> {
    "User is not an owner of this multisig"@
}

pub open spec fn duplicate_message() -> Seq<char> {
    "User has already approved this proposal"@
}

/// The update that moves a proposal to `target` at time `now`: the execution
/// time is set on entering `Executed` and only then.
pub open spec fn planned(target: ProposalStatus, now: i64) -> UpdateProposalStatus {
    UpdateProposalStatus {
        status: target,
        executed_at: if target == ProposalStatus::Executed {
            Some(now)
        } else {
            None
        },
    }
}

pub fn transition_error(from: ProposalStatus, to: ProposalStatus) -> (e: AppError)
    ensures
        e.is_error(ErrorKind::Validation, transition_message(from, to)),
{
    let m = String::from_str("Invalid status transition from ");
    let m = m.concat(from.as_str());
    let m = m.concat(" to ");
    let m = m.concat(to.as_str());
    AppError::Validation(m)
}

/// Plans moving a proposal from `current` to `target` at time `now`,
/// validated against the transition table.
pub fn plan_transition(current: ProposalStatus, target: ProposalStatus, now: i64) -> (r: Result<
    UpdateProposalStatus,
    AppError,
>)
    ensures
        current.allows(target) ==> r == Ok::<UpdateProposalStatus, AppError>(planned(target, now)),
        !current.allows(target) ==> (r matches Err(e) && e.is_error(
            ErrorKind::Validation,
            transition_message(current, target),
        )),
{
    if !current.can_transition_to(target) {
        return Err(transition_error(current, target));
    }
    let executed_at = match target {
        ProposalStatus::Executed => Some(now),
        _ => None,
    };
    Ok(UpdateProposalStatus { status: target, executed_at })
}

/// The authorization guard: the caller must be an owner of the group.
pub fn authorize(group: &Multisig, user_id: i64) -> (r: Result<(), AppError>)
    ensures
        r is Ok <==> group@.owners.contains(user_id),
        r matches Err(e) ==> e.is_error(ErrorKind::Authorization, not_owner_message()),
{
    if !group.is_owner(user_id) {
        return Err(AppError::Authorization(String::from_str("User is not an owner of this multisig")));
    }
    Ok(())
}

/// The checks that come before an approval is recorded, once the caller is
/// known to own the group: the proposal must be `Active`, and the caller must
/// not have approved it already.
pub fn approval_precheck(status: ProposalStatus, already_approved: bool) -> (r: Result<(), AppError>)
    ensures
        status != ProposalStatus::Active ==> (r matches Err(e) && e.is_error(
            ErrorKind::Validation,
            not_approvable_message(status),
        )),
        status == ProposalStatus::Active && already_approved ==> (r matches Err(e) && e.is_error(
            ErrorKind::Conflict,
            duplicate_message(),
        )),
        status == ProposalStatus::Active && !already_approved ==> r is Ok,
{
    if status != ProposalStatus::Active {
        let m = String::from_str("Proposal with status ");
        let m = m.concat(status.as_str());
        let m = m.concat(" cannot be approved");
        return Err(AppError::Validation(m));
    }
    if already_approved {
        return Err(AppError::Conflict(String::from_str("User has already approved this proposal")));
    }
    Ok(())
}

/// Whether `count` approvals meet the group's threshold.
pub fn quorum_reached(count: i64, threshold: i32) -> (r: bool)
    ensures
        r == (count >= threshold),
{
    count >= threshold as i64
}

} // verus!
