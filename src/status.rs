use vstd::prelude::*;
use vstd::string::StringExecFns;

verus! {

/// Lifecycle status of a proposal.
///
/// `Draft` is initial; `Executed`, `Expired` and `Rejected` are terminal.
#[derive(Debug, Clone, Copy, PartialEq, Eq, Structural)]
pub enum ProposalStatus {
    Draft,
    Active,
    Approved,
    Executed,
    Expired,
    Rejected,
}

impl ProposalStatus {
    /// The transition table: for each status, the statuses it may move to.
    pub open spec fn successors(self) -> Seq<ProposalStatus> {
        match self {
            ProposalStatus::Draft => seq![ProposalStatus::Active, ProposalStatus::Rejected],
            ProposalStatus::Active => seq![
                ProposalStatus::Approved,
                ProposalStatus::Expired,
                ProposalStatus::Rejected,
            ],
            ProposalStatus::Approved => seq![ProposalStatus::Executed],
            ProposalStatus::Executed => seq![],
            ProposalStatus::Expired => seq![],
            ProposalStatus::Rejected => seq![],
        }
    }

    /// Whether the table allows moving from `self` to `next`.
    pub open spec fn allows(self, next: ProposalStatus) -> bool {
        self.successors().contains(next)
    }

    /// A status with no further legal transitions.
    pub open spec fn terminal(self) -> bool {
        self is Executed || self is Expired || self is Rejected
    }

    /// The status's name, as it appears in messages.
    pub open spec fn name(self) -> Seq<char> {
        match self {
            ProposalStatus::Draft => "Draft"@,
            ProposalStatus::Active => "Active"@,
            ProposalStatus::Approved => "Approved"@,
            ProposalStatus::Executed => "Executed"@,
            ProposalStatus::Expired => "Expired"@,
            ProposalStatus::Rejected => "Rejected"@,
        }
    }

    /// The status's name in storage.
    pub open spec fn stored_name(self) -> Seq<char> {
        match self {
            ProposalStatus::Draft => "draft"@,
            ProposalStatus::Active => "active"@,
            ProposalStatus::Approved => "approved"@,
            ProposalStatus::Executed => "executed"@,
            ProposalStatus::Expired => "expired"@,
            ProposalStatus::Rejected => "rejected"@,
        }
    }

    pub fn valid_transitions(&self) -> (r: Vec<ProposalStatus>)
        ensures
            r@ == self.successors(),
    {
        match self {
            ProposalStatus::Draft => vec![ProposalStatus::Active, ProposalStatus::Rejected],
            ProposalStatus::Active => vec![
                ProposalStatus::Approved,
                ProposalStatus::Expired,
                ProposalStatus::Rejected,
            ],
            ProposalStatus::Approved => vec![ProposalStatus::Executed],
            ProposalStatus::Executed => vec![],
            ProposalStatus::Expired => vec![],
            ProposalStatus::Rejected => vec![],
        }
    }

    pub fn can_transition_to(&self, new_status: ProposalStatus) -> (r: bool)
        ensures
            r == self.allows(new_status),
    {
        let table = self.valid_transitions();
        let mut i: usize = 0;
        while i < table.len()
            invariant
                table@ == self.successors(),
                0 <= i <= table.len(),
                forall|k: int| 0 <= k < i ==> table@[k] != new_status,
            decreases table.len() - i,
        {
            if table[i] == new_status {
                return true;
            }
            i = i + 1;
        }
        false
    }

    pub fn as_str(&self) -> (r: &'static str)
        ensures
            r@ == self.name(),
    {
        match self {
            ProposalStatus::Draft => "Draft",
            ProposalStatus::Active => "Active",
            ProposalStatus::Approved => "Approved",
            ProposalStatus::Executed => "Executed",
            ProposalStatus::Expired => "Expired",
            ProposalStatus::Rejected => "Rejected",
        }
    }

    pub fn as_stored_str(&self) -> (r: &'static str)
        ensures
            r@ == self.stored_name(),
    {
        match self {
            ProposalStatus::Draft => "draft",
            ProposalStatus::Active => "active",
            ProposalStatus::Approved => "approved",
            ProposalStatus::Executed => "executed",
            ProposalStatus::Expired => "expired",
            ProposalStatus::Rejected => "rejected",
        }
    }

    /// The status whose name in storage is `s`, if any.
    pub fn from_stored_str(s: &str) -> (r: Option<ProposalStatus>)
        ensures
            r matches Some(st) ==> st.stored_name() == s@,
            r is None ==> forall|st: ProposalStatus| st.stored_name() != s@,
    {
        let all = [
            ProposalStatus::Draft,
            ProposalStatus::Active,
            ProposalStatus::Approved,
            ProposalStatus::Executed,
            ProposalStatus::Expired,
            ProposalStatus::Rejected,
        ];
        let given = String::from_str(s);
        let mut i: usize = 0;
        while i < 6
            invariant
                0 <= i <= 6,
                given@ == s@,
                all@ == seq![
                    ProposalStatus::Draft,
                    ProposalStatus::Active,
                    ProposalStatus::Approved,
                    ProposalStatus::Executed,
                    ProposalStatus::Expired,
                    ProposalStatus::Rejected,
                ],
                forall|k: int| 0 <= k < i ==> (#[trigger] all@[k]).stored_name() != s@,
            decreases 6 - i,
        {
            let name = String::from_str(all[i].as_stored_str());
            if name == given {
                return Some(all[i]);
            }
            i = i + 1;
        }
        proof {
            assert forall|st: ProposalStatus| st.stored_name() != s@ by {
                match st {
                    ProposalStatus::Draft => assert(all@[0] == st),
                    ProposalStatus::Active => assert(all@[1] == st),
                    ProposalStatus::Approved => assert(all@[2] == st),
                    ProposalStatus::Executed => assert(all@[3] == st),
                    ProposalStatus::Expired => assert(all@[4] == st),
                    ProposalStatus::Rejected => assert(all@[5] == st),
                }
            }
        }
        None
    }
}

} // verus!
