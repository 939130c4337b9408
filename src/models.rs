use vstd::prelude::*;
use crate::status::ProposalStatus;
use crate::text::{blank, is_blank, lower_of, lowercase};

verus! {

/// The view of an optional text.
pub open spec fn opt_text(o: Option<String>) -> Option<Seq<char>> {
    match o {
        Some(s) => Some(s@),
        None => None,
    }
}

/// A copy of an optional text.
pub fn copy_text(o: &Option<String>) -> (r: Option<String>)
    ensures
        opt_text(r) == opt_text(*o),
{
    match o {
        Some(s) => Some(s.clone()),
        None => None,
    }
}

/// Whether `user_id` is among `ids`.
pub fn contains_user(ids: &Vec<i64>, user_id: i64) -> (r: bool)
    ensures
        r == ids@.contains(user_id),
{
    let mut i: usize = 0;
    while i < ids.len()
        invariant
            0 <= i <= ids.len(),
            forall|k: int| 0 <= k < i ==> ids@[k] != user_id,
        decreases ids.len() - i,
    {
        if ids[i] == user_id {
            return true;
        }
        i = i + 1;
    }
    false
}

/// An approval group: a set of owners and the number of distinct owner
/// approvals (the threshold) that a proposal of the group needs.
/// Times are microseconds since the Unix epoch.
#[derive(Debug, Clone)]
pub struct Multisig {
    pub id: i64,
    pub name: String,
    pub description: Option<String>,
    pub created_by: i64,
    pub owners: Vec<i64>,
    pub threshold: i32,
    pub created_at: i64,
}

pub struct MultisigView {
    pub id: i64,
    pub name: Seq<char>,
    pub description: Option<Seq<char>>,
    pub created_by: i64,
    pub owners: Seq<i64>,
    pub threshold: i32,
    pub created_at: i64,
}

impl MultisigView {
    /// `0 < threshold <= |owners|`.
    pub open spec fn valid_threshold(self) -> bool {
        0 < self.threshold && self.threshold <= self.owners.len()
    }
}

impl View for Multisig {
    type V = MultisigView;

    open spec fn view(&self) -> MultisigView {
        MultisigView {
            id: self.id,
            name: self.name@,
            description: opt_text(self.description),
            created_by: self.created_by,
            owners: self.owners@,
            threshold: self.threshold,
            created_at: self.created_at,
        }
    }
}

impl Multisig {
    pub fn from_db(
        id: i64,
        name: String,
        description: Option<String>,
        created_by: i64,
        owners: Vec<i64>,
        threshold: i32,
        created_at: i64,
    ) -> (r: Self)
        ensures
            r == (Multisig { id, name, description, created_by, owners, threshold, created_at }),
    {
        Multisig { id, name, description, created_by, owners, threshold, created_at }
    }

    pub fn is_owner(&self, user_id: i64) -> (r: bool)
        ensures
            r == self.owners@.contains(user_id),
    {
        contains_user(&self.owners, user_id)
    }

    pub fn is_valid_threshold(&self) -> (r: bool)
        ensures
            r == self@.valid_threshold(),
    {
        self.threshold > 0 && self.threshold as usize <= self.owners.len()
    }

    /// A copy with the same view.
    pub fn copied(&self) -> (r: Self)
        ensures
            r@ == self@,
    {
        let owners = self.owners.clone();
        assert(owners@ =~= self.owners@);
        Multisig {
            id: self.id,
            name: self.name.clone(),
            description: copy_text(&self.description),
            created_by: self.created_by,
            owners,
            threshold: self.threshold,
            created_at: self.created_at,
        }
    }
}

/// The input of group creation.
#[derive(Debug, Clone)]
pub struct CreateMultisig {
    pub name: String,
    pub description: Option<String>,
    pub owners: Vec<i64>,
    pub threshold: i32,
}

impl CreateMultisig {
    /// Why a group cannot be created from this input by `creator_id`, if it cannot.
    pub open spec fn rejection(&self, creator_id: i64) -> Option<Seq<char>> {
        if blank(self.name@) {
            Some("Multisig name cannot be empty"@)
        } else if self.owners@.len() == 0 {
            Some("Multisig must have at least one owner"@)
        } else if !self.owners@.contains(creator_id) {
            Some("Creator must be included in owners list"@)
        } else if self.threshold <= 0 {
            Some("Threshold must be greater than 0"@)
        } else if self.threshold > self.owners@.len() {
            Some("Threshold cannot exceed number of owners"@)
        } else {
            None
        }
    }

    pub fn new(name: String, description: Option<String>, owners: Vec<i64>, threshold: i32) -> (r:
        Self)
        ensures
            r == (CreateMultisig { name, description, owners, threshold }),
    {
        CreateMultisig { name, description, owners, threshold }
    }

    pub fn validate(&self, creator_id: i64) -> (r: Result<(), String>)
        ensures
            match r {
                Ok(()) => self.rejection(creator_id) is None,
                Err(m) => self.rejection(creator_id) == Some(m@),
            },
    {
        if is_blank(self.name.as_str()) {
            return Err(String::from_str("Multisig name cannot be empty"));
        }
        if self.owners.len() == 0 {
            return Err(String::from_str("Multisig must have at least one owner"));
        }
        if !contains_user(&self.owners, creator_id) {
            return Err(String::from_str("Creator must be included in owners list"));
        }
        if self.threshold <= 0 {
            return Err(String::from_str("Threshold must be greater than 0"));
        }
        if self.threshold as usize > self.owners.len() {
            return Err(String::from_str("Threshold cannot exceed number of owners"));
        }
        Ok(())
    }
}

/// A proposed action of a group, moving through the lifecycle.
/// Times are microseconds since the Unix epoch; the payload is never read.
#[derive(Debug, Clone)]
pub struct Proposal {
    pub id: i64,
    pub multisig_id: i64,
    pub title: String,
    pub description: Option<String>,
    pub status: ProposalStatus,
    pub created_by: i64,
    pub created_at: i64,
    pub executed_at: Option<i64>,
    pub transaction_data: Option<String>,
}

pub struct ProposalView {
    pub id: i64,
    pub multisig_id: i64,
    pub title: Seq<char>,
    pub description: Option<Seq<char>>,
    pub status: ProposalStatus,
    pub created_by: i64,
    pub created_at: i64,
    pub executed_at: Option<i64>,
    pub transaction_data: Option<Seq<char>>,
}

impl ProposalView {
    /// The execution time is set exactly when the status is `Executed`.
    pub open spec fn consistent(self) -> bool {
        (self.status == ProposalStatus::Executed) <==> self.executed_at is Some
    }

    /// The same proposal with another status and execution time.
    pub open spec fn with_status(self, status: ProposalStatus, executed_at: Option<i64>) -> Self {
        ProposalView { status, executed_at, ..self }
    }
}

impl View for Proposal {
    type V = ProposalView;

    open spec fn view(&self) -> ProposalView {
        ProposalView {
            id: self.id,
            multisig_id: self.multisig_id,
            title: self.title@,
            description: opt_text(self.description),
            status: self.status,
            created_by: self.created_by,
            created_at: self.created_at,
            executed_at: self.executed_at,
            transaction_data: opt_text(self.transaction_data),
        }
    }
}

impl Proposal {
    pub fn from_db(
        id: i64,
        multisig_id: i64,
        title: String,
        description: Option<String>,
        status: ProposalStatus,
        created_by: i64,
        created_at: i64,
        executed_at: Option<i64>,
        transaction_data: Option<String>,
    ) -> (r: Self)
        ensures
            r == (Proposal {
                id,
                multisig_id,
                title,
                description,
                status,
                created_by,
                created_at,
                executed_at,
                transaction_data,
            }),
    {
        Proposal {
            id,
            multisig_id,
            title,
            description,
            status,
            created_by,
            created_at,
            executed_at,
            transaction_data,
        }
    }

    pub fn is_terminal(&self) -> (r: bool)
        ensures
            r == self.status.terminal(),
    {
        match self.status {
            ProposalStatus::Executed | ProposalStatus::Expired | ProposalStatus::Rejected => true,
            _ => false,
        }
    }

    pub fn can_be_approved(&self) -> (r: bool)
        ensures
            r == (self.status == ProposalStatus::Active),
    {
        self.status == ProposalStatus::Active
    }

    /// A copy with the same view.
    pub fn copied(&self) -> (r: Self)
        ensures
            r@ == self@,
    {
        Proposal {
            id: self.id,
            multisig_id: self.multisig_id,
            title: self.title.clone(),
            description: copy_text(&self.description),
            status: self.status,
            created_by: self.created_by,
            created_at: self.created_at,
            executed_at: self.executed_at,
            transaction_data: copy_text(&self.transaction_data),
        }
    }
}

/// One owner's approval of one proposal; immutable once recorded.
#[derive(Debug, Clone, Copy, PartialEq, Eq, Structural)]
pub struct ProposalApproval {
    pub id: i64,
    pub proposal_id: i64,
    pub user_id: i64,
    pub approved_at: i64,
}

impl ProposalApproval {
    pub fn from_db(id: i64, proposal_id: i64, user_id: i64, approved_at: i64) -> (r: Self)
        ensures
            r == (ProposalApproval { id, proposal_id, user_id, approved_at }),
    {
        ProposalApproval { id, proposal_id, user_id, approved_at }
    }
}

/// The input of proposal creation.
#[derive(Debug, Clone)]
pub struct CreateProposal {
    pub title: String,
    pub description: Option<String>,
    pub transaction_data: Option<String>,
}

impl CreateProposal {
    /// Why a proposal cannot be created from this input, if it cannot.
    pub open spec fn rejection(&self) -> Option<Seq<char>> {
        if blank(self.title@) {
            Some("Proposal title cannot be empty"@)
        } else {
            None
        }
    }

    pub fn new(title: String, description: Option<String>, transaction_data: Option<String>) -> (r:
        Self)
        ensures
            r == (CreateProposal { title, description, transaction_data }),
    {
        CreateProposal { title, description, transaction_data }
    }

    pub fn validate(&self) -> (r: Result<(), String>)
        ensures
            match r {
                Ok(()) => self.rejection() is None,
                Err(m) => self.rejection() == Some(m@),
            },
    {
        if is_blank(self.title.as_str()) {
            return Err(String::from_str("Proposal title cannot be empty"));
        }
        Ok(())
    }
}

/// A status change to apply to a stored proposal.
#[derive(Debug, Clone, Copy, PartialEq, Eq, Structural)]
pub struct UpdateProposalStatus {
    pub status: ProposalStatus,
    pub executed_at: Option<i64>,
}

/// A registered user. Times are microseconds since the Unix epoch.
#[derive(Debug, Clone)]
pub struct User {
    pub id: i64,
    pub email: String,
    pub created_at: i64,
    pub last_login_at: Option<i64>,
}

impl User {
    pub fn from_db(id: i64, email: String, created_at: i64, last_login_at: Option<i64>) -> (r: Self)
        ensures
            r == (User { id, email, created_at, last_login_at }),
    {
        User { id, email, created_at, last_login_at }
    }
}

/// The input of user registration; the email is kept in lower case.
#[derive(Debug, Clone)]
pub struct CreateUser {
    pub email: String,
    pub password_hash: String,
}

impl CreateUser {
    pub fn new(email: String, password_hash: String) -> (r: Self)
        ensures
            r.email@ == lower_of(email@),
            r.password_hash == password_hash,
    {
        CreateUser { email: lowercase(email.as_str()), password_hash }
    }
}

/// A login time to record for a user.
#[derive(Debug, Clone, Copy)]
pub struct UpdateUserLogin {
    pub last_login_at: i64,
}

/// The body of a group creation request.
#[derive(Debug, Clone)]
pub struct CreateMultisigRequest {
    pub name: String,
    pub description: Option<String>,
    pub owners: Vec<i64>,
    pub threshold: i32,
}

impl CreateMultisigRequest {
    pub fn into_create(self) -> (r: CreateMultisig)
        ensures
            r == (CreateMultisig {
                name: self.name,
                description: self.description,
                owners: self.owners,
                threshold: self.threshold,
            }),
    {
        CreateMultisig::new(self.name, self.description, self.owners, self.threshold)
    }
}

/// The body of a proposal creation request.
#[derive(Debug, Clone)]
pub struct CreateProposalRequest {
    pub title: String,
    pub description: Option<String>,
    pub transaction_data: Option<String>,
}

impl CreateProposalRequest {
    pub fn into_create(self) -> (r: CreateProposal)
        ensures
            r == (CreateProposal {
                title: self.title,
                description: self.description,
                transaction_data: self.transaction_data,
            }),
    {
        CreateProposal::new(self.title, self.description, self.transaction_data)
    }
}

} // verus!
