use vstd::prelude::*;
use crate::errors::{AppError, ErrorKind};
use crate::lifecycle::{duplicate_message, plan_transition, planned, quorum_reached, transition_message};
use crate::models::{
    opt_text, CreateMultisig, CreateProposal, Multisig, MultisigView, Proposal, ProposalApproval,
    ProposalView, UpdateProposalStatus,
};
use crate::status::ProposalStatus;

verus! {

/// The persisted entities: groups, proposals and the approval ledger, each in
/// the order of creation, with the latest time stamped on a record.
pub struct StoreView {
    pub groups: Seq<MultisigView>,
    pub proposals: Seq<ProposalView>,
    pub approvals: Seq<ProposalApproval>,
    pub clock: i64,
}

/// The approvals of proposal `pid`, in the order they were recorded.
pub open spec fn approvals_of(a: Seq<ProposalApproval>, pid: i64) -> Seq<ProposalApproval>
    decreases a.len(),
{
    if a.len() == 0 {
        Seq::empty()
    } else {
        let rest = approvals_of(a.drop_last(), pid);
        if a.last().proposal_id == pid {
            rest.push(a.last())
        } else {
            rest
        }
    }
}

/// The groups that `uid` owns, newest first.
pub open spec fn groups_newest_first(gs: Seq<MultisigView>, uid: i64) -> Seq<MultisigView>
    decreases gs.len(),
{
    if gs.len() == 0 {
        Seq::empty()
    } else {
        let rest = groups_newest_first(gs.drop_first(), uid);
        if gs[0].owners.contains(uid) {
            rest.push(gs[0])
        } else {
            rest
        }
    }
}

/// The proposals of group `mid`, newest first.
pub open spec fn proposals_newest_first(ps: Seq<ProposalView>, mid: i64) -> Seq<ProposalView>
    decreases ps.len(),
{
    if ps.len() == 0 {
        Seq::empty()
    } else {
        let rest = proposals_newest_first(ps.drop_first(), mid);
        if ps[0].multisig_id == mid {
            rest.push(ps[0])
        } else {
            rest
        }
    }
}

pub open spec fn group_views(v: Seq<Multisig>) -> Seq<MultisigView> {
    v.map_values(|m: Multisig| m@)
}

pub open spec fn proposal_views(v: Seq<Proposal>) -> Seq<ProposalView> {
    v.map_values(|p: Proposal| p@)
}

/// The group created from `d` by `created_by`, with identity `id`, at time `t`.
pub open spec fn new_group(d: CreateMultisig, id: i64, created_by: i64, t: i64) -> MultisigView {
    MultisigView {
        id,
        name: d.name@,
        description: opt_text(d.description),
        created_by,
        owners: d.owners@,
        threshold: d.threshold,
        created_at: t,
    }
}

/// The `Draft` proposal created from `d` in group `mid` by `created_by`,
/// with identity `id`, at time `t`.
pub open spec fn new_proposal(d: CreateProposal, id: i64, mid: i64, created_by: i64, t: i64) -> ProposalView {
    ProposalView {
        id,
        multisig_id: mid,
        title: d.title@,
        description: opt_text(d.description),
        status: ProposalStatus::Draft,
        created_by,
        created_at: t,
        executed_at: None,
        transaction_data: opt_text(d.transaction_data),
    }
}

impl StoreView {
    pub open spec fn has_group(self, id: i64) -> bool {
        1 <= id <= self.groups.len()
    }

    pub open spec fn group(self, id: i64) -> MultisigView {
        self.groups[id - 1]
    }

    pub open spec fn has_proposal(self, id: i64) -> bool {
        1 <= id <= self.proposals.len()
    }

    pub open spec fn proposal(self, id: i64) -> ProposalView {
        self.proposals[id - 1]
    }

    /// The group that proposal `pid` belongs to.
    pub open spec fn group_of(self, pid: i64) -> MultisigView {
        self.group(self.proposal(pid).multisig_id)
    }

    pub open spec fn is_owner_of(self, pid: i64, uid: i64) -> bool {
        self.group_of(pid).owners.contains(uid)
    }

    /// The number of approvals that the ledger holds for proposal `pid`.
    pub open spec fn approval_count(self, pid: i64) -> nat {
        approvals_of(self.approvals, pid).len()
    }

    /// Whether the ledger holds an approval of `pid` by `uid`.
    pub open spec fn has_approved(self, pid: i64, uid: i64) -> bool {
        exists|k: int|
            0 <= k < self.approvals.len() && (#[trigger] self.approvals[k]).proposal_id == pid
                && self.approvals[k].user_id == uid
    }

    /// The time a record made now is stamped with: time never goes back.
    pub open spec fn stamped(self, now: i64) -> i64 {
        if now > self.clock {
            now
        } else {
            self.clock
        }
    }

    /// Room for one more identity of each kind.
    pub open spec fn has_room(self) -> bool {
        &&& self.groups.len() < i64::MAX
        &&& self.proposals.len() < i64::MAX
        &&& self.approvals.len() < i64::MAX
    }

    /// Every group keeps `0 < threshold <= |owners|`.
    pub open spec fn groups_wf(self) -> bool {
        &&& self.groups.len() <= i64::MAX
        &&& forall|i: int|
            #![trigger self.groups[i]]
            0 <= i < self.groups.len() ==> {
                &&& self.groups[i].id == i + 1
                &&& self.groups[i].valid_threshold()
                &&& self.groups[i].created_at <= self.clock
            }
        &&& forall|i: int, j: int|
            #![trigger self.groups[i], self.groups[j]]
            0 <= i < j < self.groups.len() ==> self.groups[i].created_at
                <= self.groups[j].created_at
    }

    /// Every proposal belongs to a group, was created by one of its owners,
    /// and has its execution time set exactly when `Executed`.
    pub open spec fn proposals_wf(self) -> bool {
        &&& self.proposals.len() <= i64::MAX
        &&& forall|i: int|
            #![trigger self.proposals[i]]
            0 <= i < self.proposals.len() ==> {
                &&& self.proposals[i].id == i + 1
                &&& self.has_group(self.proposals[i].multisig_id)
                &&& self.group(self.proposals[i].multisig_id).owners.contains(
                    self.proposals[i].created_by,
                )
                &&& self.proposals[i].consistent()
                &&& self.proposals[i].created_at <= self.clock
            }
        &&& forall|i: int, j: int|
            #![trigger self.proposals[i], self.proposals[j]]
            0 <= i < j < self.proposals.len() ==> self.proposals[i].created_at
                <= self.proposals[j].created_at
    }

    /// Every approval is by an owner of its proposal's group, and no
    /// (proposal, owner) pair is recorded twice.
    pub open spec fn ledger_wf(self) -> bool {
        &&& self.approvals.len() <= i64::MAX
        &&& forall|i: int|
            #![trigger self.approvals[i]]
            0 <= i < self.approvals.len() ==> {
                &&& self.approvals[i].id == i + 1
                &&& self.has_proposal(self.approvals[i].proposal_id)
                &&& self.is_owner_of(self.approvals[i].proposal_id, self.approvals[i].user_id)
                &&& self.approvals[i].approved_at <= self.clock
            }
        &&& forall|i: int, j: int|
            #![trigger self.approvals[i], self.approvals[j]]
            0 <= i < j < self.approvals.len() ==> self.approvals[i].approved_at
                <= self.approvals[j].approved_at
        &&& forall|i: int, j: int|
            #![trigger self.approvals[i], self.approvals[j]]
            0 <= i < j < self.approvals.len() ==> !(self.approvals[i].proposal_id
                == self.approvals[j].proposal_id && self.approvals[i].user_id
                == self.approvals[j].user_id)
    }

    /// The status of proposal `pid` agrees with its approval count: none while
    /// `Draft`, fewer than the threshold while `Active`, at least the threshold
    /// once `Approved` or `Executed`.
    pub open spec fn quorum_consistent(self, pid: i64) -> bool {
        let n = self.approval_count(pid);
        let t = self.group_of(pid).threshold;
        match self.proposal(pid).status {
            ProposalStatus::Draft => n == 0,
            ProposalStatus::Active => n < t,
            ProposalStatus::Approved => n >= t,
            ProposalStatus::Executed => n >= t,
            _ => true,
        }
    }

    pub open spec fn wf(self) -> bool {
        &&& self.groups_wf()
        &&& self.proposals_wf()
        &&& self.ledger_wf()
        &&& forall|pid: i64| self.has_proposal(pid) ==> #[trigger] self.quorum_consistent(pid)
    }

    /// The state with group `g` added, the clock at its creation time.
    pub open spec fn add_group(self, g: MultisigView) -> StoreView {
        StoreView { groups: self.groups.push(g), clock: g.created_at, ..self }
    }

    /// The state with proposal `p` added, the clock at its creation time.
    pub open spec fn add_proposal(self, p: ProposalView) -> StoreView {
        StoreView { proposals: self.proposals.push(p), clock: p.created_at, ..self }
    }

    /// The state with proposal `pid` moved to `status`.
    pub open spec fn with_status(self, pid: i64, status: ProposalStatus, executed_at: Option<i64>) -> StoreView {
        StoreView {
            proposals: self.proposals.update(
                pid - 1,
                self.proposal(pid).with_status(status, executed_at),
            ),
            ..self
        }
    }

    /// The approval that recording `pid` by `uid` at time `t` appends.
    pub open spec fn next_approval(self, pid: i64, uid: i64, t: i64) -> ProposalApproval {
        ProposalApproval {
            id: (self.approvals.len() + 1) as i64,
            proposal_id: pid,
            user_id: uid,
            approved_at: t,
        }
    }

    /// The state after recording an approval of `pid` by `uid` at time `t` and
    /// evaluating the quorum: the proposal becomes `Approved` once its count
    /// reaches the threshold.
    pub open spec fn after_approval(self, pid: i64, uid: i64, t: i64) -> StoreView {
        let m = StoreView {
            approvals: self.approvals.push(self.next_approval(pid, uid, t)),
            clock: t,
            ..self
        };
        if m.approval_count(pid) >= m.group_of(pid).threshold {
            m.with_status(pid, ProposalStatus::Approved, None)
        } else {
            m
        }
    }
}

proof fn lemma_approvals_of_push(a: Seq<ProposalApproval>, x: ProposalApproval, pid: i64)
    ensures
        approvals_of(a.push(x), pid) == if x.proposal_id == pid {
            approvals_of(a, pid).push(x)
        } else {
            approvals_of(a, pid)
        },
{
    assert(a.push(x).drop_last() =~= a);
}

proof fn lemma_approvals_of_absent(a: Seq<ProposalApproval>, pid: i64)
    requires
        forall|k: int| 0 <= k < a.len() ==> (#[trigger] a[k]).proposal_id != pid,
    ensures
        approvals_of(a, pid).len() == 0,
    decreases a.len(),
{
    if a.len() > 0 {
        lemma_approvals_of_absent(a.drop_last(), pid);
    }
}

/// The in-memory store of groups, proposals and approvals.
pub struct Store {
    groups: Vec<Multisig>,
    proposals: Vec<Proposal>,
    approvals: Vec<ProposalApproval>,
    clock: i64,
}

impl View for Store {
    type V = StoreView;

    closed spec fn view(&self) -> StoreView {
        StoreView {
            groups: group_views(self.groups@),
            proposals: proposal_views(self.proposals@),
            approvals: self.approvals@,
            clock: self.clock,
        }
    }
}

impl Store {
    pub open spec fn wf(&self) -> bool {
        self@.wf()
    }

    pub fn new() -> (r: Store)
        ensures
            r.wf(),
            r@.groups.len() == 0,
            r@.proposals.len() == 0,
            r@.approvals.len() == 0,
            r@.clock == 0,
    {
        let r = Store { groups: Vec::new(), proposals: Vec::new(), approvals: Vec::new(), clock: 0 };
        assert(r@.groups =~= Seq::<MultisigView>::empty());
        assert(r@.proposals =~= Seq::<ProposalView>::empty());
        r
    }

    fn stamp(&mut self, now: i64) -> (t: i64)
        ensures
            t == old(self)@.stamped(now),
            final(self)@ == (StoreView { clock: t, ..old(self)@ }),
            final(self).groups == old(self).groups,
            final(self).proposals == old(self).proposals,
            final(self).approvals == old(self).approvals,
    {
        if now > self.clock {
            self.clock = now;
        }
        self.clock
    }

    /// The latest time stamped on a record.
    pub fn latest_time(&self) -> (r: i64)
        ensures
            r == self@.clock,
    {
        self.clock
    }

    pub fn find_multisig_by_id(&self, id: i64) -> (r: Option<Multisig>)
        requires
            self.wf(),
        ensures
            self@.has_group(id) ==> (r matches Some(g) && g@ == self@.group(id)),
            !self@.has_group(id) ==> r is None,
    {
        if id < 1 || id > self.groups.len() as i64 {
            return None;
        }
        Some(self.groups[(id - 1) as usize].copied())
    }

    pub fn find_proposal_by_id(&self, id: i64) -> (r: Option<Proposal>)
        requires
            self.wf(),
        ensures
            self@.has_proposal(id) ==> (r matches Some(p) && p@ == self@.proposal(id)),
            !self@.has_proposal(id) ==> r is None,
    {
        if id < 1 || id > self.proposals.len() as i64 {
            return None;
        }
        Some(self.proposals[(id - 1) as usize].copied())
    }

    /// The groups that `user_id` owns, newest first.
    pub fn list_user_multisigs(&self, user_id: i64) -> (r: Vec<Multisig>)
        requires
            self.wf(),
        ensures
            group_views(r@) == groups_newest_first(self@.groups, user_id),
            forall|i: int, j: int|
                0 <= i < j < r@.len() ==> r@[i].created_at >= r@[j].created_at,
    {
        let ghost gs = self@.groups;
        let mut r: Vec<Multisig> = Vec::new();
        let mut i: usize = self.groups.len();
        assert(gs.subrange(i as int, gs.len() as int) =~= Seq::<MultisigView>::empty());
        assert(group_views(r@) =~= Seq::<MultisigView>::empty());
        while i > 0
            invariant
                gs == self@.groups,
                gs.len() == self.groups.len(),
                0 <= i <= self.groups.len(),
                group_views(r@) == groups_newest_first(gs.subrange(i as int, gs.len() as int), user_id),
                self@.groups_wf(),
                forall|a: int, b: int| 0 <= a < b < r@.len() ==> r@[a].created_at >= r@[b].created_at,
                forall|a: int, b: int|
                    0 <= a < r@.len() && 0 <= b < i ==> r@[a].created_at >= gs[b].created_at,
            decreases i,
        {
            i = i - 1;
            let ghost tail = gs.subrange(i as int, gs.len() as int);
            assert(tail.drop_first() =~= gs.subrange(i + 1, gs.len() as int));
            assert(tail[0] == self.groups@[i as int]@);
            if self.groups[i].is_owner(user_id) {
                let ghost before = r@;
                let g = self.groups[i].copied();
                r.push(g);
                assert(group_views(r@) =~= group_views(before).push(g@));
            }
        }
        assert(gs.subrange(0, gs.len() as int) =~= gs);
        r
    }

    /// The proposals of group `multisig_id`, newest first.
    pub fn list_multisig_proposals(&self, multisig_id: i64) -> (r: Vec<Proposal>)
        requires
            self.wf(),
        ensures
            proposal_views(r@) == proposals_newest_first(self@.proposals, multisig_id),
            forall|i: int, j: int|
                0 <= i < j < r@.len() ==> r@[i].created_at >= r@[j].created_at,
    {
        let ghost ps = self@.proposals;
        let mut r: Vec<Proposal> = Vec::new();
        let mut i: usize = self.proposals.len();
        assert(ps.subrange(i as int, ps.len() as int) =~= Seq::<ProposalView>::empty());
        assert(proposal_views(r@) =~= Seq::<ProposalView>::empty());
        while i > 0
            invariant
                ps == self@.proposals,
                ps.len() == self.proposals.len(),
                0 <= i <= self.proposals.len(),
                proposal_views(r@) == proposals_newest_first(
                    ps.subrange(i as int, ps.len() as int),
                    multisig_id,
                ),
                self@.proposals_wf(),
                forall|a: int, b: int| 0 <= a < b < r@.len() ==> r@[a].created_at >= r@[b].created_at,
                forall|a: int, b: int|
                    0 <= a < r@.len() && 0 <= b < i ==> r@[a].created_at >= ps[b].created_at,
            decreases i,
        {
            i = i - 1;
            let ghost tail = ps.subrange(i as int, ps.len() as int);
            assert(tail.drop_first() =~= ps.subrange(i + 1, ps.len() as int));
            assert(tail[0] == self.proposals@[i as int]@);
            if self.proposals[i].multisig_id == multisig_id {
                let ghost before = r@;
                let p = self.proposals[i].copied();
                r.push(p);
                assert(proposal_views(r@) =~= proposal_views(before).push(p@));
            }
        }
        assert(ps.subrange(0, ps.len() as int) =~= ps);
        r
    }

    /// The approvals of proposal `proposal_id`, in the order they were recorded,
    /// which is the order of their times.
    pub fn get_proposal_approvals(&self, proposal_id: i64) -> (r: Vec<ProposalApproval>)
        requires
            self.wf(),
        ensures
            r@ == approvals_of(self@.approvals, proposal_id),
            forall|i: int, j: int|
                0 <= i < j < r@.len() ==> r@[i].approved_at <= r@[j].approved_at,
    {
        let mut r: Vec<ProposalApproval> = Vec::new();
        let mut i: usize = 0;
        while i < self.approvals.len()
            invariant
                0 <= i <= self.approvals.len(),
                self@.approvals == self.approvals@,
                self@.ledger_wf(),
                r@ == approvals_of(self.approvals@.take(i as int), proposal_id),
                forall|a: int, b: int| 0 <= a < b < r@.len() ==> r@[a].approved_at <= r@[b].approved_at,
                forall|a: int, b: int|
                    0 <= a < r@.len() && i <= b < self.approvals@.len() ==> r@[a].approved_at
                        <= self.approvals@[b].approved_at,
            decreases self.approvals.len() - i,
        {
            assert(self.approvals@.take(i + 1).drop_last() =~= self.approvals@.take(i as int));
            if self.approvals[i].proposal_id == proposal_id {
                r.push(self.approvals[i]);
            }
            i = i + 1;
        }
        assert(self.approvals@.take(i as int) =~= self.approvals@);
        r
    }

    fn count_in_ledger(&self, proposal_id: i64) -> (r: i64)
        requires
            self.approvals@.len() <= i64::MAX,
        ensures
            r == approvals_of(self.approvals@, proposal_id).len(),
    {
        let mut n: i64 = 0;
        let mut i: usize = 0;
        while i < self.approvals.len()
            invariant
                0 <= i <= self.approvals.len(),
                self.approvals@.len() <= i64::MAX,
                0 <= n <= i,
                n == approvals_of(self.approvals@.take(i as int), proposal_id).len(),
            decreases self.approvals.len() - i,
        {
            assert(self.approvals@.take(i + 1).drop_last() =~= self.approvals@.take(i as int));
            if self.approvals[i].proposal_id == proposal_id {
                n = n + 1;
            }
            i = i + 1;
        }
        assert(self.approvals@.take(i as int) =~= self.approvals@);
        n
    }

    /// The number of approvals of `proposal_id`, counted from the ledger.
    pub fn count_proposal_approvals(&self, proposal_id: i64) -> (r: i64)
        requires
            self.wf(),
        ensures
            r == self@.approval_count(proposal_id),
    {
        self.count_in_ledger(proposal_id)
    }

    /// Whether the ledger holds an approval of `proposal_id` by `user_id`.
    pub fn has_approval(&self, proposal_id: i64, user_id: i64) -> (r: bool)
        requires
            self.wf(),
        ensures
            r == self@.has_approved(proposal_id, user_id),
    {
        let mut i: usize = 0;
        while i < self.approvals.len()
            invariant
                0 <= i <= self.approvals.len(),
                forall|k: int|
                    0 <= k < i ==> !((#[trigger] self.approvals@[k]).proposal_id == proposal_id
                        && self.approvals@[k].user_id == user_id),
            decreases self.approvals.len() - i,
        {
            if self.approvals[i].proposal_id == proposal_id && self.approvals[i].user_id == user_id {
                assert(self@.approvals[i as int] == self.approvals@[i as int]);
                return true;
            }
            i = i + 1;
        }
        false
    }

    /// Adds the group made from `data` by `created_by`, stamped with the
    /// store's time.
    pub fn create_multisig(&mut self, data: CreateMultisig, created_by: i64, now: i64) -> (g: Multisig)
        requires
            old(self).wf(),
            old(self)@.has_room(),
            data.rejection(created_by) is None,
        ensures
            final(self).wf(),
            g@ == new_group(
                data,
                (old(self)@.groups.len() + 1) as i64,
                created_by,
                old(self)@.stamped(now),
            ),
            final(self)@ == (StoreView {
                groups: old(self)@.groups.push(g@),
                clock: old(self)@.stamped(now),
                ..old(self)@
            }),
    {
        let ghost m0 = self@;
        let t = self.stamp(now);
        let id = self.groups.len() as i64 + 1;
        let g = Multisig {
            id,
            name: data.name,
            description: data.description,
            created_by,
            owners: data.owners,
            threshold: data.threshold,
            created_at: t,
        };
        let copy = g.copied();
        self.groups.push(copy);
        proof {
            assert(group_views(self.groups@) =~= m0.groups.push(g@));
            let m = self@;
            assert(m.groups_wf());
            assert(m.proposals_wf());
            assert(m.ledger_wf());
            assert forall|pid: i64| m.has_proposal(pid) implies #[trigger] m.quorum_consistent(pid) by {
                assert(m0.quorum_consistent(pid));
                assert(m.group_of(pid) == m0.group_of(pid));
            }
        }
        g
    }

    /// Adds a `Draft` proposal made from `data` to group `multisig_id`,
    /// stamped with the store's time.
    pub fn create_proposal(
        &mut self,
        data: CreateProposal,
        multisig_id: i64,
        created_by: i64,
        now: i64,
    ) -> (p: Proposal)
        requires
            old(self).wf(),
            old(self)@.has_room(),
            old(self)@.has_group(multisig_id),
            old(self)@.group(multisig_id).owners.contains(created_by),
        ensures
            final(self).wf(),
            p@ == new_proposal(
                data,
                (old(self)@.proposals.len() + 1) as i64,
                multisig_id,
                created_by,
                old(self)@.stamped(now),
            ),
            final(self)@ == (StoreView {
                proposals: old(self)@.proposals.push(p@),
                clock: old(self)@.stamped(now),
                ..old(self)@
            }),
    {
        let ghost m0 = self@;
        let t = self.stamp(now);
        let id = self.proposals.len() as i64 + 1;
        let p = Proposal {
            id,
            multisig_id,
            title: data.title,
            description: data.description,
            status: ProposalStatus::Draft,
            created_by,
            created_at: t,
            executed_at: None,
            transaction_data: data.transaction_data,
        };
        let copy = p.copied();
        self.proposals.push(copy);
        proof {
            assert(proposal_views(self.proposals@) =~= m0.proposals.push(p@));
            let m = self@;
            assert(m.groups_wf());
            assert(m.proposals_wf());
            assert(m.ledger_wf());
            assert forall|pid: i64| m.has_proposal(pid) implies #[trigger] m.quorum_consistent(pid) by {
                if pid == id {
                    lemma_approvals_of_absent(m.approvals, pid);
                } else {
                    assert(m0.quorum_consistent(pid));
                    assert(m.proposal(pid) == m0.proposal(pid));
                }
            }
        }
        p
    }

    /// Applies a status change to a stored proposal, once the transition
    /// table allows it.
    pub fn update_proposal_status(&mut self, proposal_id: i64, status_update: UpdateProposalStatus) -> (r:
        Result<(), AppError>)
        requires
            old(self).wf(),
            (status_update.status == ProposalStatus::Executed) <==> status_update.executed_at is Some,
            old(self)@.has_proposal(proposal_id) && status_update.status == ProposalStatus::Approved
                ==> old(self)@.approval_count(proposal_id) >= old(self)@.group_of(
                proposal_id,
            ).threshold,
        ensures
            final(self).wf(),
            !old(self)@.has_proposal(proposal_id) ==> (r matches Err(e) && e.is_error(
                ErrorKind::NotFound,
                "Proposal not found"@,
            )) && final(self)@ == old(self)@,
            old(self)@.has_proposal(proposal_id) && !old(self)@.proposal(proposal_id).status.allows(
                status_update.status,
            ) ==> (r matches Err(e) && e.is_error(
                ErrorKind::Validation,
                transition_message(old(self)@.proposal(proposal_id).status, status_update.status),
            )) && final(self)@ == old(self)@,
            old(self)@.has_proposal(proposal_id) && old(self)@.proposal(proposal_id).status.allows(
                status_update.status,
            ) ==> r is Ok && final(self)@ == old(self)@.with_status(
                proposal_id,
                status_update.status,
                status_update.executed_at,
            ),
    {
        if proposal_id < 1 || proposal_id > self.proposals.len() as i64 {
            return Err(AppError::NotFound(String::from_str("Proposal not found")));
        }
        let idx = (proposal_id - 1) as usize;
        let current = self.proposals[idx].status;
        if !current.can_transition_to(status_update.status) {
            return Err(crate::lifecycle::transition_error(current, status_update.status));
        }
        let ghost m0 = self@;
        let mut p = self.proposals[idx].copied();
        p.status = status_update.status;
        p.executed_at = status_update.executed_at;
        self.proposals.set(idx, p);
        proof {
            let m = self@;
            assert(m.proposals =~= m0.proposals.update(
                proposal_id - 1,
                m0.proposal(proposal_id).with_status(status_update.status, status_update.executed_at),
            ));
            assert(m.groups_wf());
            assert(m.proposals_wf());
            assert(m.ledger_wf());
            assert forall|pid: i64| m.has_proposal(pid) implies #[trigger] m.quorum_consistent(pid) by {
                assert(m0.quorum_consistent(pid));
                if pid == proposal_id {
                    assert(m0.group_of(pid).valid_threshold());
                }
            }
        }
        Ok(())
    }

    /// Records the approval of `proposal_id` by `user_id` and evaluates the
    /// quorum, as one step: the count is taken from the ledger after the
    /// insertion, and the proposal becomes `Approved` once it meets the
    /// group's threshold. A second approval by the same owner is a conflict.
    pub fn approve_proposal(&mut self, proposal_id: i64, user_id: i64, now: i64) -> (r: Result<
        (ProposalApproval, Proposal),
        AppError,
    >)
        requires
            old(self).wf(),
            old(self)@.has_room(),
            old(self)@.has_proposal(proposal_id),
            old(self)@.is_owner_of(proposal_id, user_id),
            old(self)@.proposal(proposal_id).status == ProposalStatus::Active,
        ensures
            final(self).wf(),
            old(self)@.has_approved(proposal_id, user_id) ==> (r matches Err(e) && e.is_error(
                ErrorKind::Conflict,
                duplicate_message(),
            )) && final(self)@ == old(self)@,
            !old(self)@.has_approved(proposal_id, user_id) ==> (r matches Ok((a, p)) && a
                == old(self)@.next_approval(proposal_id, user_id, old(self)@.stamped(now)) && p@
                == final(self)@.proposal(proposal_id)) && final(self)@ == old(self)@.after_approval(
                proposal_id,
                user_id,
                old(self)@.stamped(now),
            ),
    {
        if self.has_approval(proposal_id, user_id) {
            return Err(AppError::Conflict(String::from_str("User has already approved this proposal")));
        }
        let ghost m0 = self@;
        let t = self.stamp(now);
        let a = ProposalApproval {
            id: self.approvals.len() as i64 + 1,
            proposal_id,
            user_id,
            approved_at: t,
        };
        self.approvals.push(a);
        let ghost m1 = self@;
        proof {
            lemma_approvals_of_push(m0.approvals, a, proposal_id);
            assert forall|q: i64| q != proposal_id implies #[trigger] approvals_of(m1.approvals, q)
                == approvals_of(m0.approvals, q) by {
                lemma_approvals_of_push(m0.approvals, a, q);
            }
            assert(m0.quorum_consistent(proposal_id));
            assert(proposal_id <= self.proposals.len());
            assert(m0.proposals[proposal_id - 1] == self.proposals@[proposal_id - 1]@);
            assert(m0.has_group(m0.proposal(proposal_id).multisig_id));
        }
        let count = self.count_in_ledger(proposal_id);
        let idx = (proposal_id - 1) as usize;
        let mid = self.proposals[idx].multisig_id;
        proof {
            assert(1 <= mid <= self.groups.len());
        }
        let threshold = self.groups[(mid - 1) as usize].threshold;
        proof {
            assert(self.groups@[mid - 1]@ == m0.groups[mid - 1]);
        }
        if quorum_reached(count, threshold) {
            match plan_transition(ProposalStatus::Active, ProposalStatus::Approved, t) {
                Ok(u) => {
                    let mut p = self.proposals[idx].copied();
                    p.status = u.status;
                    p.executed_at = u.executed_at;
                    self.proposals.set(idx, p);
                    proof {
                        assert(self@.proposals =~= m1.proposals.update(
                            proposal_id - 1,
                            m1.proposal(proposal_id).with_status(ProposalStatus::Approved, None),
                        ));
                    }
                },
                Err(e) => {
                    return Err(e);
                },
            }
        }
        proof {
            let m = self@;
            assert(m.groups_wf());
            assert(m.proposals_wf());
            assert forall|i: int, j: int|
                0 <= i < j < m.approvals.len() implies !(#[trigger] m.approvals[i].proposal_id
                == #[trigger] m.approvals[j].proposal_id && m.approvals[i].user_id
                == m.approvals[j].user_id) by {
                if j == m0.approvals.len() {
                    if m.approvals[i].proposal_id == proposal_id && m.approvals[i].user_id == user_id {
                        assert(m0.approvals[i] == m.approvals[i]);
                        assert(m0.has_approved(proposal_id, user_id));
                    }
                }
            }
            assert(m.ledger_wf());
            assert forall|q: i64| m.has_proposal(q) implies #[trigger] m.quorum_consistent(q) by {
                assert(m0.quorum_consistent(q));
                assert(m.proposal(q).multisig_id == m0.proposal(q).multisig_id);
                if q == proposal_id {
                    assert(m.approval_count(q) == count);
                    if count >= threshold {
                        assert(m.proposal(q).status == ProposalStatus::Approved);
                    } else {
                        assert(m.proposal(q).status == ProposalStatus::Active);
                    }
                } else {
                    assert(m.proposal(q) == m0.proposal(q));
                    assert(approvals_of(m.approvals, q) == approvals_of(m0.approvals, q));
                }
            }
        }
        Ok((a, self.proposals[idx].copied()))
    }
}

} // verus!
