use vstd::prelude::*;
use crate::errors::ErrorKind;
use crate::lifecycle::{duplicate_message, not_approvable_message, transition_message};
use crate::services::{approval_failure, transition_failure};
use crate::status::ProposalStatus;
use crate::models::{MultisigView, ProposalView};
use crate::store::StoreView;

verus! {

/// Every group of a well-formed store has `0 < threshold <= |owners|`; every
/// operation keeps the store well formed.
pub proof fn lemma_group_threshold_valid(m: StoreView, id: i64)
    requires
        m.wf(),
        m.has_group(id),
    ensures
        0 < m.group(id).threshold <= m.group(id).owners.len(),
{
    assert(m.groups[id - 1].valid_threshold());
}

/// No operation changes a group once created: proposals, approvals and
/// status changes leave the groups as they were, and creating a group only
/// appends it.
pub proof fn lemma_groups_never_change(
    m: StoreView,
    g: MultisigView,
    p: ProposalView,
    pid: i64,
    uid: i64,
    status: ProposalStatus,
    executed_at: Option<i64>,
    t: i64,
)
    ensures
        m.add_group(g).groups.take(m.groups.len() as int) == m.groups,
        m.add_proposal(p).groups == m.groups,
        m.with_status(pid, status, executed_at).groups == m.groups,
        m.after_approval(pid, uid, t).groups == m.groups,
{
    assert(m.add_group(g).groups.take(m.groups.len() as int) =~= m.groups);
}

/// A proposal of a well-formed store is `Executed` exactly when its execution
/// time is set.
pub proof fn lemma_executed_iff_time_set(m: StoreView, pid: i64)
    requires
        m.wf(),
        m.has_proposal(pid),
    ensures
        (m.proposal(pid).status == ProposalStatus::Executed) <==> m.proposal(pid).executed_at is Some,
{
    assert(m.proposals[pid - 1].consistent());
}

/// The ledger of a well-formed store holds at most one approval for each
/// (proposal, approver) pair.
pub proof fn lemma_one_approval_per_pair(m: StoreView, i: int, j: int)
    requires
        m.wf(),
        0 <= i < m.approvals.len(),
        0 <= j < m.approvals.len(),
        m.approvals[i].proposal_id == m.approvals[j].proposal_id,
        m.approvals[i].user_id == m.approvals[j].user_id,
    ensures
        i == j,
{
    if i < j {
        assert(!(m.approvals[i].proposal_id == m.approvals[j].proposal_id && m.approvals[i].user_id
            == m.approvals[j].user_id));
    } else if j < i {
        assert(!(m.approvals[j].proposal_id == m.approvals[i].proposal_id && m.approvals[j].user_id
            == m.approvals[i].user_id));
    }
}

/// Of two approvals of one proposal by one owner, one after the other, only
/// the first succeeds: the second is a conflict while the proposal is still
/// `Active`, and a validation failure once the first has completed the quorum.
pub proof fn lemma_second_approval_fails(m: StoreView, pid: i64, uid: i64, t: i64)
    requires
        m.wf(),
        approval_failure(m, pid, uid) is None,
    ensures
        ({
            let m2 = m.after_approval(pid, uid, t);
            &&& m2.has_approved(pid, uid)
            &&& m2.proposal(pid).status == ProposalStatus::Active ==> approval_failure(m2, pid, uid)
                == Some((ErrorKind::Conflict, duplicate_message()))
            &&& m2.proposal(pid).status != ProposalStatus::Active ==> approval_failure(m2, pid, uid)
                == Some(
                (ErrorKind::Validation, not_approvable_message(m2.proposal(pid).status)),
            )
        }),
{
    let m2 = m.after_approval(pid, uid, t);
    let k = m.approvals.len() as int;
    assert(m2.approvals[k].proposal_id == pid && m2.approvals[k].user_id == uid);
    assert(m2.proposal(pid).multisig_id == m.proposal(pid).multisig_id);
}

/// Once the ledger holds as many approvals of a proposal as its group's
/// threshold, every further approval by an owner fails validation: the
/// proposal is no longer `Active`.
pub proof fn lemma_quorum_closes_approval(m: StoreView, pid: i64, uid: i64)
    requires
        m.wf(),
        m.has_proposal(pid),
        m.is_owner_of(pid, uid),
        m.approval_count(pid) >= m.group_of(pid).threshold,
    ensures
        m.proposal(pid).status != ProposalStatus::Active,
        approval_failure(m, pid, uid) == Some(
            (ErrorKind::Validation, not_approvable_message(m.proposal(pid).status)),
        ),
{
    assert(m.quorum_consistent(pid));
    assert(m.groups[m.proposal(pid).multisig_id - 1].valid_threshold()) by {
        assert(m.proposals[pid - 1].id == pid);
    }
}

/// Executing a proposal that is not `Approved`, as an owner of its group, is
/// a validation failure naming the rejected (status, `Executed`) pair; the
/// contract of `ProposalService::execute_proposal` leaves the store as it was
/// on every failure.
pub proof fn lemma_execute_needs_approval(m: StoreView, pid: i64, uid: i64)
    requires
        m.has_proposal(pid),
        m.is_owner_of(pid, uid),
        m.proposal(pid).status != ProposalStatus::Approved,
    ensures
        transition_failure(m, pid, uid, ProposalStatus::Executed) == Some(
            (
                ErrorKind::Validation,
                transition_message(m.proposal(pid).status, ProposalStatus::Executed),
            ),
        ),
{
    let s = m.proposal(pid).status;
    assert(!s.successors().contains(ProposalStatus::Executed)) by {
        if s.successors().contains(ProposalStatus::Executed) {
            let k = choose|k: int| 0 <= k < s.successors().len() && s.successors()[k] == ProposalStatus::Executed;
            assert(s.successors()[k] == ProposalStatus::Executed);
        }
    }
}

} // verus!
