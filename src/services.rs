use vstd::prelude::*;
use crate::clock::current_time;
use crate::errors::{AppError, ErrorKind};
use crate::lifecycle::{
    approval_precheck, authorize, duplicate_message, not_approvable_message, not_owner_message,
    plan_transition, planned, transition_message,
};
use crate::models::{CreateMultisig, CreateProposal, Multisig, Proposal, ProposalApproval};
use crate::status::ProposalStatus;
use crate::store::{
    approvals_of, group_views, groups_newest_first, new_group, new_proposal, proposal_views,
    proposals_newest_first, Store, StoreView,
};

verus! {

/// `r` is the failure `f`: an error of its kind with its message.
pub open spec fn fails_with<T>(r: Result<T, AppError>, f: (ErrorKind, Seq<char>)) -> bool {
    r matches Err(e) && e.is_error(f.0, f.1)
}

/// Why `uid` may not act on group `mid`, if it may not.
pub open spec fn group_guard(m: StoreView, mid: i64, uid: i64) -> Option<(ErrorKind, Seq<char>)> {
    if !m.has_group(mid) {
        Some((ErrorKind::NotFound, "Multisig not found"@))
    } else if !m.group(mid).owners.contains(uid) {
        Some((ErrorKind::Authorization, not_owner_message()))
    } else {
        None
    }
}

/// Why `uid` may not act on proposal `pid`, if it may not.
pub open spec fn proposal_guard(m: StoreView, pid: i64, uid: i64) -> Option<(ErrorKind, Seq<char>)> {
    if !m.has_proposal(pid) {
        Some((ErrorKind::NotFound, "Proposal not found"@))
    } else if !m.is_owner_of(pid, uid) {
        Some((ErrorKind::Authorization, not_owner_message()))
    } else {
        None
    }
}

/// Why `uid` may not move proposal `pid` to `target`, if it may not.
pub open spec fn transition_failure(m: StoreView, pid: i64, uid: i64, target: ProposalStatus) -> Option<
    (ErrorKind, Seq<char>),
> {
    if proposal_guard(m, pid, uid) is Some {
        proposal_guard(m, pid, uid)
    } else if !m.proposal(pid).status.allows(target) {
        Some((ErrorKind::Validation, transition_message(m.proposal(pid).status, target)))
    } else {
        None
    }
}

/// Why `uid` may not approve proposal `pid`, if it may not.
pub open spec fn approval_failure(m: StoreView, pid: i64, uid: i64) -> Option<(ErrorKind, Seq<char>)> {
    if proposal_guard(m, pid, uid) is Some {
        proposal_guard(m, pid, uid)
    } else if m.proposal(pid).status != ProposalStatus::Active {
        Some((ErrorKind::Validation, not_approvable_message(m.proposal(pid).status)))
    } else if m.has_approved(pid, uid) {
        Some((ErrorKind::Conflict, duplicate_message()))
    } else {
        None
    }
}

/// Why `uid` may not create a proposal from `d` in group `mid`, if it may not.
pub open spec fn creation_failure(m: StoreView, d: CreateProposal, mid: i64, uid: i64) -> Option<
    (ErrorKind, Seq<char>),
> {
    match d.rejection() {
        Some(msg) => Some((ErrorKind::Validation, msg)),
        None => group_guard(m, mid, uid),
    }
}

/// The group registry's operations.
pub struct MultisigService;

impl MultisigService {
    /// Creates a group at time `now` from valid input; the creator must be
    /// one of the owners.
    pub fn create_multisig_at(
        store: &mut Store,
        multisig_data: CreateMultisig,
        created_by: i64,
        now: i64,
    ) -> (r: Result<Multisig, AppError>)
        requires
            old(store).wf(),
            old(store)@.has_room(),
        ensures
            final(store).wf(),
            match multisig_data.rejection(created_by) {
                Some(msg) => fails_with(r, (ErrorKind::Validation, msg)) && final(store)@ == old(store)@,
                None => r matches Ok(g) && g@ == new_group(
                    multisig_data,
                    (old(store)@.groups.len() + 1) as i64,
                    created_by,
                    old(store)@.stamped(now),
                ) && final(store)@ == old(store)@.add_group(g@),
            },
    {
        if let Err(msg) = multisig_data.validate(created_by) {
            return Err(AppError::Validation(msg));
        }
        let multisig = store.create_multisig(multisig_data, created_by, now);
        if !multisig.is_valid_threshold() {
            return Err(AppError::Internal(String::from_str("Created multisig has invalid threshold")));
        }
        Ok(multisig)
    }

    /// Creates a group at the current time.
    pub fn create_multisig(store: &mut Store, multisig_data: CreateMultisig, created_by: i64) -> (r:
        Result<Multisig, AppError>)
        requires
            old(store).wf(),
            old(store)@.has_room(),
        ensures
            final(store).wf(),
            match multisig_data.rejection(created_by) {
                Some(msg) => fails_with(r, (ErrorKind::Validation, msg)) && final(store)@ == old(store)@,
                None => r matches Ok(g) && g@ == new_group(
                    multisig_data,
                    (old(store)@.groups.len() + 1) as i64,
                    created_by,
                    g@.created_at,
                ) && g@.created_at >= old(store)@.clock && final(store)@ == old(store)@.add_group(g@),
            },
    {
        let now = current_time();
        Self::create_multisig_at(store, multisig_data, created_by, now)
    }

    pub fn get_multisig(store: &Store, multisig_id: i64) -> (r: Result<Multisig, AppError>)
        requires
            store.wf(),
        ensures
            store@.has_group(multisig_id) ==> (r matches Ok(g) && g@ == store@.group(multisig_id)),
            !store@.has_group(multisig_id) ==> fails_with(
                r,
                (ErrorKind::NotFound, "Multisig not found"@),
            ),
    {
        match store.find_multisig_by_id(multisig_id) {
            Some(g) => Ok(g),
            None => Err(AppError::NotFound(String::from_str("Multisig not found"))),
        }
    }

    /// The groups that `user_id` owns, newest first.
    pub fn list_user_multisigs(store: &Store, user_id: i64) -> (r: Vec<Multisig>)
        requires
            store.wf(),
        ensures
            group_views(r@) == groups_newest_first(store@.groups, user_id),
            forall|i: int, j: int|
                0 <= i < j < r@.len() ==> r@[i].created_at >= r@[j].created_at,
    {
        store.list_user_multisigs(user_id)
    }

    /// The group, once `user_id` is known to be one of its owners.
    pub fn check_user_is_owner(store: &Store, multisig_id: i64, user_id: i64) -> (r: Result<
        Multisig,
        AppError,
    >)
        requires
            store.wf(),
        ensures
            match group_guard(store@, multisig_id, user_id) {
                Some(f) => fails_with(r, f),
                None => r matches Ok(g) && g@ == store@.group(multisig_id),
            },
    {
        let multisig = match Self::get_multisig(store, multisig_id) {
            Ok(g) => g,
            Err(e) => {
                return Err(e);
            },
        };
        match authorize(&multisig, user_id) {
            Ok(()) => Ok(multisig),
            Err(e) => Err(e),
        }
    }
}

/// The proposal state machine and the approval ledger's operations.
pub struct ProposalService;

impl ProposalService {
    /// Creates a `Draft` proposal at time `now`; the title must not be blank
    /// and the creator must own the group.
    pub fn create_proposal_at(
        store: &mut Store,
        proposal_data: CreateProposal,
        multisig_id: i64,
        created_by: i64,
        now: i64,
    ) -> (r: Result<Proposal, AppError>)
        requires
            old(store).wf(),
            old(store)@.has_room(),
        ensures
            final(store).wf(),
            match creation_failure(old(store)@, proposal_data, multisig_id, created_by) {
                Some(f) => fails_with(r, f) && final(store)@ == old(store)@,
                None => r matches Ok(p) && p@ == new_proposal(
                    proposal_data,
                    (old(store)@.proposals.len() + 1) as i64,
                    multisig_id,
                    created_by,
                    old(store)@.stamped(now),
                ) && final(store)@ == old(store)@.add_proposal(p@),
            },
    {
        if let Err(msg) = proposal_data.validate() {
            return Err(AppError::Validation(msg));
        }
        if let Err(e) = MultisigService::check_user_is_owner(store, multisig_id, created_by) {
            return Err(e);
        }
        Ok(store.create_proposal(proposal_data, multisig_id, created_by, now))
    }

    /// Creates a `Draft` proposal at the current time.
    pub fn create_proposal(
        store: &mut Store,
        proposal_data: CreateProposal,
        multisig_id: i64,
        created_by: i64,
    ) -> (r: Result<Proposal, AppError>)
        requires
            old(store).wf(),
            old(store)@.has_room(),
        ensures
            final(store).wf(),
            match creation_failure(old(store)@, proposal_data, multisig_id, created_by) {
                Some(f) => fails_with(r, f) && final(store)@ == old(store)@,
                None => r matches Ok(p) && p@ == new_proposal(
                    proposal_data,
                    (old(store)@.proposals.len() + 1) as i64,
                    multisig_id,
                    created_by,
                    p@.created_at,
                ) && p@.created_at >= old(store)@.clock && final(store)@ == old(store)@.add_proposal(p@),
            },
    {
        let now = current_time();
        Self::create_proposal_at(store, proposal_data, multisig_id, created_by, now)
    }

    pub fn get_proposal(store: &Store, proposal_id: i64) -> (r: Result<Proposal, AppError>)
        requires
            store.wf(),
        ensures
            store@.has_proposal(proposal_id) ==> (r matches Ok(p) && p@ == store@.proposal(
                proposal_id,
            )),
            !store@.has_proposal(proposal_id) ==> fails_with(
                r,
                (ErrorKind::NotFound, "Proposal not found"@),
            ),
    {
        match store.find_proposal_by_id(proposal_id) {
            Some(p) => Ok(p),
            None => Err(AppError::NotFound(String::from_str("Proposal not found"))),
        }
    }

    /// The proposals of a group, newest first, for one of its owners.
    pub fn list_multisig_proposals(store: &Store, multisig_id: i64, user_id: i64) -> (r: Result<
        Vec<Proposal>,
        AppError,
    >)
        requires
            store.wf(),
        ensures
            match group_guard(store@, multisig_id, user_id) {
                Some(f) => fails_with(r, f),
                None => r matches Ok(v) && proposal_views(v@) == proposals_newest_first(
                    store@.proposals,
                    multisig_id,
                ) && forall|i: int, j: int|
                    0 <= i < j < v@.len() ==> v@[i].created_at >= v@[j].created_at,
            },
    {
        if let Err(e) = MultisigService::check_user_is_owner(store, multisig_id, user_id) {
            return Err(e);
        }
        Ok(store.list_multisig_proposals(multisig_id))
    }

    /// Moves proposal `proposal_id` to `target` for an owner of its group,
    /// as the transition table allows; `now` is the execution time when
    /// `target` is `Executed`.
    fn transition(
        store: &mut Store,
        proposal_id: i64,
        user_id: i64,
        target: ProposalStatus,
        now: i64,
    ) -> (r: Result<Proposal, AppError>)
        requires
            old(store).wf(),
            target != ProposalStatus::Approved,
        ensures
            final(store).wf(),
            match transition_failure(old(store)@, proposal_id, user_id, target) {
                Some(f) => fails_with(r, f) && final(store)@ == old(store)@,
                None => r matches Ok(p) && final(store)@ == old(store)@.with_status(
                    proposal_id,
                    target,
                    planned(target, now).executed_at,
                ) && p@ == final(store)@.proposal(proposal_id),
            },
    {
        let proposal = match Self::get_proposal(store, proposal_id) {
            Ok(p) => p,
            Err(e) => {
                return Err(e);
            },
        };
        proof {
            assert(store@.proposals[proposal_id - 1] == store@.proposal(proposal_id));
        }
        if let Err(e) = MultisigService::check_user_is_owner(store, proposal.multisig_id, user_id) {
            return Err(e);
        }
        let update = match plan_transition(proposal.status, target, now) {
            Ok(u) => u,
            Err(e) => {
                return Err(e);
            },
        };
        if let Err(e) = store.update_proposal_status(proposal_id, update) {
            return Err(e);
        }
        Self::get_proposal(store, proposal_id)
    }

    /// Moves a `Draft` proposal to `Active`.
    pub fn activate_proposal(store: &mut Store, proposal_id: i64, user_id: i64) -> (r: Result<
        Proposal,
        AppError,
    >)
        requires
            old(store).wf(),
        ensures
            final(store).wf(),
            match transition_failure(old(store)@, proposal_id, user_id, ProposalStatus::Active) {
                Some(f) => fails_with(r, f) && final(store)@ == old(store)@,
                None => r matches Ok(p) && final(store)@ == old(store)@.with_status(
                    proposal_id,
                    ProposalStatus::Active,
                    None,
                ) && p@ == final(store)@.proposal(proposal_id),
            },
    {
        let now = store.latest_time();
        Self::transition(store, proposal_id, user_id, ProposalStatus::Active, now)
    }

    /// Moves a `Draft` or `Active` proposal to `Rejected`.
    pub fn reject_proposal(store: &mut Store, proposal_id: i64, user_id: i64) -> (r: Result<
        Proposal,
        AppError,
    >)
        requires
            old(store).wf(),
        ensures
            final(store).wf(),
            match transition_failure(old(store)@, proposal_id, user_id, ProposalStatus::Rejected) {
                Some(f) => fails_with(r, f) && final(store)@ == old(store)@,
                None => r matches Ok(p) && final(store)@ == old(store)@.with_status(
                    proposal_id,
                    ProposalStatus::Rejected,
                    None,
                ) && p@ == final(store)@.proposal(proposal_id),
            },
    {
        let now = store.latest_time();
        Self::transition(store, proposal_id, user_id, ProposalStatus::Rejected, now)
    }

    /// Moves an `Approved` proposal to `Executed`, with execution time `now`.
    pub fn execute_proposal_at(store: &mut Store, proposal_id: i64, user_id: i64, now: i64) -> (r:
        Result<Proposal, AppError>)
        requires
            old(store).wf(),
        ensures
            final(store).wf(),
            match transition_failure(old(store)@, proposal_id, user_id, ProposalStatus::Executed) {
                Some(f) => fails_with(r, f) && final(store)@ == old(store)@,
                None => r matches Ok(p) && final(store)@ == old(store)@.with_status(
                    proposal_id,
                    ProposalStatus::Executed,
                    Some(now),
                ) && p@ == final(store)@.proposal(proposal_id),
            },
    {
        Self::transition(store, proposal_id, user_id, ProposalStatus::Executed, now)
    }

    /// Moves an `Approved` proposal to `Executed` at the current time.
    pub fn execute_proposal(store: &mut Store, proposal_id: i64, user_id: i64) -> (r: Result<
        Proposal,
        AppError,
    >)
        requires
            old(store).wf(),
        ensures
            final(store).wf(),
            match transition_failure(old(store)@, proposal_id, user_id, ProposalStatus::Executed) {
                Some(f) => fails_with(r, f) && final(store)@ == old(store)@,
                None => r matches Ok(p) && p.executed_at is Some && final(store)@ == old(store)@.with_status(proposal_id, ProposalStatus::Executed, p.executed_at) && p@
                    == final(store)@.proposal(proposal_id),
            },
    {
        let now = current_time();
        Self::execute_proposal_at(store, proposal_id, user_id, now)
    }

    /// Records the approval of an `Active` proposal by an owner of its group
    /// at time `now`, and moves the proposal to `Approved` once the ledger
    /// holds as many approvals of it as the group's threshold.
    pub fn approve_proposal_at(store: &mut Store, proposal_id: i64, user_id: i64, now: i64) -> (r:
        Result<(ProposalApproval, Proposal), AppError>)
        requires
            old(store).wf(),
            old(store)@.has_room(),
        ensures
            final(store).wf(),
            match approval_failure(old(store)@, proposal_id, user_id) {
                Some(f) => fails_with(r, f) && final(store)@ == old(store)@,
                None => r matches Ok((a, p)) && a == old(store)@.next_approval(
                    proposal_id,
                    user_id,
                    old(store)@.stamped(now),
                ) && final(store)@ == old(store)@.after_approval(
                    proposal_id,
                    user_id,
                    old(store)@.stamped(now),
                ) && p@ == final(store)@.proposal(proposal_id),
            },
    {
        let proposal = match Self::get_proposal(store, proposal_id) {
            Ok(p) => p,
            Err(e) => {
                return Err(e);
            },
        };
        if let Err(e) = MultisigService::check_user_is_owner(store, proposal.multisig_id, user_id) {
            return Err(e);
        }
        let already = store.has_approval(proposal_id, user_id);
        if let Err(e) = approval_precheck(proposal.status, already) {
            return Err(e);
        }
        // The store checks for a duplicate again as part of the recording step.
        store.approve_proposal(proposal_id, user_id, now)
    }

    /// Records an approval at the current time; see `approve_proposal_at`.
    pub fn approve_proposal(store: &mut Store, proposal_id: i64, user_id: i64) -> (r: Result<
        (ProposalApproval, Proposal),
        AppError,
    >)
        requires
            old(store).wf(),
            old(store)@.has_room(),
        ensures
            final(store).wf(),
            match approval_failure(old(store)@, proposal_id, user_id) {
                Some(f) => fails_with(r, f) && final(store)@ == old(store)@,
                None => r matches Ok((a, p)) && a.approved_at >= old(store)@.clock && a == old(store)@.next_approval(proposal_id, user_id, a.approved_at) && final(store)@ == old(store)@.after_approval(proposal_id, user_id, a.approved_at) && p@ == final(store)@.proposal(proposal_id),
            },
    {
        let now = current_time();
        Self::approve_proposal_at(store, proposal_id, user_id, now)
    }

    /// The approvals of a proposal in the order they were recorded, which is
    /// ascending time order, for an owner of its group.
    pub fn get_proposal_approvals(store: &Store, proposal_id: i64, user_id: i64) -> (r: Result<
        Vec<ProposalApproval>,
        AppError,
    >)
        requires
            store.wf(),
        ensures
            match proposal_guard(store@, proposal_id, user_id) {
                Some(f) => fails_with(r, f),
                None => r matches Ok(v) && v@ == approvals_of(store@.approvals, proposal_id)
                    && forall|i: int, j: int|
                    0 <= i < j < v@.len() ==> v@[i].approved_at <= v@[j].approved_at,
            },
    {
        let proposal = match Self::get_proposal(store, proposal_id) {
            Ok(p) => p,
            Err(e) => {
                return Err(e);
            },
        };
        if let Err(e) = MultisigService::check_user_is_owner(store, proposal.multisig_id, user_id) {
            return Err(e);
        }
        Ok(store.get_proposal_approvals(proposal_id))
    }
}

} // verus!
