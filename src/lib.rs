//! Threshold (M-of-N) approval of proposals by a fixed group of co-owners.
//!
//! The library holds the proposal lifecycle state machine, the group registry,
//! the append-only approval ledger with its quorum evaluation, and the
//! authorization guard, all verified against their contracts.
pub mod auth;
mod clock;
pub mod errors;
pub mod laws;
pub mod lifecycle;
pub mod models;
pub mod services;
pub mod status;
pub mod store;
pub mod text;

pub use auth::{AuthUser, Claims, LoginRequest, RegisterRequest};
pub use errors::{AppError, ErrorKind};
pub use models::{
    CreateMultisig, CreateMultisigRequest, CreateProposal, CreateProposalRequest, CreateUser,
    Multisig, Proposal, ProposalApproval, UpdateProposalStatus, UpdateUserLogin, User,
};
pub use services::{MultisigService, ProposalService};
pub use status::ProposalStatus;
pub use store::Store;
