use multisig::{
    AppError, CreateMultisig, CreateProposal, ErrorKind, MultisigService, Proposal,
    ProposalService, ProposalStatus, Store, UpdateProposalStatus,
};

fn group_of_three(store: &mut Store) -> i64 {
    let data = CreateMultisig::new("Treasury".to_string(), None, vec![1, 2, 3], 2);
    MultisigService::create_multisig_at(store, data, 1, 1_000).unwrap().id
}

fn draft(store: &mut Store, group_id: i64) -> Proposal {
    let data = CreateProposal::new("Pay invoice".to_string(), None, Some("blob".to_string()));
    ProposalService::create_proposal_at(store, data, group_id, 1, 2_000).unwrap()
}

fn kind<T>(r: &Result<T, AppError>) -> Option<ErrorKind> {
    match r {
        Ok(_) => None,
        Err(e) => Some(e.kind()),
    }
}

fn detail<T>(r: &Result<T, AppError>) -> String {
    match r {
        Ok(_) => String::new(),
        Err(e) => e.detail_str().to_string(),
    }
}

fn status_of(store: &Store, id: i64) -> ProposalStatus {
    ProposalService::get_proposal(store, id).unwrap().status
}

fn count(store: &Store, id: i64) -> i64 {
    store.count_proposal_approvals(id)
}

#[test]
fn scenario_full_lifecycle() {
    let mut store = Store::new();
    let g = group_of_three(&mut store);
    let p = draft(&mut store, g);
    assert_eq!(p.status, ProposalStatus::Draft);
    assert_eq!(p.executed_at, None);

    let p = ProposalService::activate_proposal(&mut store, p.id, 1).unwrap();
    assert_eq!(p.status, ProposalStatus::Active);

    let (a, p) = ProposalService::approve_proposal_at(&mut store, p.id, 2, 3_000).unwrap();
    assert_eq!(a.user_id, 2);
    assert_eq!(a.proposal_id, p.id);
    assert_eq!(count(&store, p.id), 1);
    assert_eq!(p.status, ProposalStatus::Active);

    let (_, p) = ProposalService::approve_proposal_at(&mut store, p.id, 3, 4_000).unwrap();
    assert_eq!(count(&store, p.id), 2);
    assert_eq!(p.status, ProposalStatus::Approved);
    assert_eq!(p.executed_at, None);

    let p = ProposalService::execute_proposal_at(&mut store, p.id, 1, 5_000).unwrap();
    assert_eq!(p.status, ProposalStatus::Executed);
    assert_eq!(p.executed_at, Some(5_000));
}

#[test]
fn scenario_duplicate_approval_conflicts() {
    let mut store = Store::new();
    let g = group_of_three(&mut store);
    let p = draft(&mut store, g);
    ProposalService::activate_proposal(&mut store, p.id, 1).unwrap();
    assert!(ProposalService::approve_proposal_at(&mut store, p.id, 2, 3_000).is_ok());
    let second = ProposalService::approve_proposal_at(&mut store, p.id, 2, 3_100);
    assert_eq!(kind(&second), Some(ErrorKind::Conflict));
    let ledger = ProposalService::get_proposal_approvals(&store, p.id, 2).unwrap();
    assert_eq!(ledger.len(), 1);
    assert_eq!(ledger[0].user_id, 2);
    assert_eq!(status_of(&store, p.id), ProposalStatus::Active);
}

#[test]
fn scenario_non_owner_cannot_approve() {
    let mut store = Store::new();
    let g = group_of_three(&mut store);
    let p = draft(&mut store, g);
    ProposalService::activate_proposal(&mut store, p.id, 1).unwrap();
    let r = ProposalService::approve_proposal_at(&mut store, p.id, 99, 3_000);
    assert_eq!(kind(&r), Some(ErrorKind::Authorization));
    assert_eq!(detail(&r), "User is not an owner of this multisig");
    assert_eq!(count(&store, p.id), 0);
    assert!(store.get_proposal_approvals(p.id).is_empty());
}

#[test]
fn scenario_execute_before_quorum_names_transition() {
    let mut store = Store::new();
    let g = group_of_three(&mut store);
    let p = draft(&mut store, g);
    ProposalService::activate_proposal(&mut store, p.id, 1).unwrap();
    ProposalService::approve_proposal_at(&mut store, p.id, 2, 3_000).unwrap();
    let r = ProposalService::execute_proposal_at(&mut store, p.id, 1, 4_000);
    assert_eq!(kind(&r), Some(ErrorKind::Validation));
    assert_eq!(detail(&r), "Invalid status transition from Active to Executed");
    let after = ProposalService::get_proposal(&store, p.id).unwrap();
    assert_eq!(after.status, ProposalStatus::Active);
    assert_eq!(after.executed_at, None);
}

#[test]
fn only_one_of_two_same_owner_approvals_succeeds_at_threshold_one() {
    let mut store = Store::new();
    let data = CreateMultisig::new("Solo".to_string(), None, vec![5, 6], 1);
    let g = MultisigService::create_multisig_at(&mut store, data, 5, 10).unwrap().id;
    let data = CreateProposal::new("t".to_string(), None, None);
    let p = ProposalService::create_proposal_at(&mut store, data, g, 5, 20).unwrap();
    ProposalService::activate_proposal(&mut store, p.id, 5).unwrap();
    let first = ProposalService::approve_proposal_at(&mut store, p.id, 5, 30);
    let second = ProposalService::approve_proposal_at(&mut store, p.id, 5, 31);
    assert!(first.is_ok());
    assert_eq!(kind(&second), Some(ErrorKind::Validation));
    assert_eq!(detail(&second), "Proposal with status Approved cannot be approved");
    assert_eq!(count(&store, p.id), 1);
}

#[test]
fn approvals_after_quorum_fail_validation() {
    let mut store = Store::new();
    let data = CreateMultisig::new("Board".to_string(), None, vec![1, 2, 3, 4], 2);
    let g = MultisigService::create_multisig_at(&mut store, data, 1, 10).unwrap().id;
    let p = draft(&mut store, g);
    ProposalService::activate_proposal(&mut store, p.id, 1).unwrap();
    ProposalService::approve_proposal_at(&mut store, p.id, 1, 30).unwrap();
    let (_, q) = ProposalService::approve_proposal_at(&mut store, p.id, 2, 40).unwrap();
    assert_eq!(q.status, ProposalStatus::Approved);
    let late = ProposalService::approve_proposal_at(&mut store, p.id, 3, 50);
    assert_eq!(kind(&late), Some(ErrorKind::Validation));
    let late = ProposalService::approve_proposal_at(&mut store, p.id, 4, 60);
    assert_eq!(kind(&late), Some(ErrorKind::Validation));
    assert_eq!(count(&store, p.id), 2);
    assert_eq!(status_of(&store, p.id), ProposalStatus::Approved);
}

#[test]
fn execute_is_rejected_outside_approved() {
    let mut store = Store::new();
    let g = group_of_three(&mut store);

    let d = draft(&mut store, g);
    let r = ProposalService::execute_proposal_at(&mut store, d.id, 1, 9);
    assert_eq!(detail(&r), "Invalid status transition from Draft to Executed");
    assert_eq!(status_of(&store, d.id), ProposalStatus::Draft);

    let x = draft(&mut store, g);
    ProposalService::activate_proposal(&mut store, x.id, 1).unwrap();
    ProposalService::reject_proposal(&mut store, x.id, 2).unwrap();
    let r = ProposalService::execute_proposal_at(&mut store, x.id, 1, 9);
    assert_eq!(detail(&r), "Invalid status transition from Rejected to Executed");
    assert_eq!(status_of(&store, x.id), ProposalStatus::Rejected);

    let e = draft(&mut store, g);
    ProposalService::activate_proposal(&mut store, e.id, 1).unwrap();
    let upd = UpdateProposalStatus { status: ProposalStatus::Expired, executed_at: None };
    store.update_proposal_status(e.id, upd).unwrap();
    let r = ProposalService::execute_proposal_at(&mut store, e.id, 1, 9);
    assert_eq!(kind(&r), Some(ErrorKind::Validation));
    assert_eq!(detail(&r), "Invalid status transition from Expired to Executed");
    assert_eq!(status_of(&store, e.id), ProposalStatus::Expired);

    let done = draft(&mut store, g);
    ProposalService::activate_proposal(&mut store, done.id, 1).unwrap();
    ProposalService::approve_proposal_at(&mut store, done.id, 1, 10).unwrap();
    ProposalService::approve_proposal_at(&mut store, done.id, 2, 11).unwrap();
    ProposalService::execute_proposal_at(&mut store, done.id, 3, 12).unwrap();
    let r = ProposalService::execute_proposal_at(&mut store, done.id, 1, 13);
    assert_eq!(detail(&r), "Invalid status transition from Executed to Executed");
    let after = ProposalService::get_proposal(&store, done.id).unwrap();
    assert_eq!(after.executed_at, Some(12));
}

#[test]
fn executed_time_is_set_only_on_execution() {
    let mut store = Store::new();
    let g = group_of_three(&mut store);
    let p = draft(&mut store, g);
    assert_eq!(p.executed_at, None);
    ProposalService::activate_proposal(&mut store, p.id, 1).unwrap();
    ProposalService::approve_proposal(&mut store, p.id, 1).unwrap();
    let (_, q) = ProposalService::approve_proposal(&mut store, p.id, 2).unwrap();
    assert_eq!(q.status, ProposalStatus::Approved);
    assert_eq!(q.executed_at, None);
    let q = ProposalService::execute_proposal(&mut store, p.id, 3).unwrap();
    assert_eq!(q.status, ProposalStatus::Executed);
    assert!(q.executed_at.unwrap() > 1_600_000_000_000_000);
}

#[test]
fn activate_only_from_draft() {
    let mut store = Store::new();
    let g = group_of_three(&mut store);
    let p = draft(&mut store, g);
    ProposalService::activate_proposal(&mut store, p.id, 1).unwrap();
    let again = ProposalService::activate_proposal(&mut store, p.id, 1);
    assert_eq!(kind(&again), Some(ErrorKind::Validation));
    assert_eq!(detail(&again), "Invalid status transition from Active to Active");
}

#[test]
fn reject_from_draft_or_active_only() {
    let mut store = Store::new();
    let g = group_of_three(&mut store);
    let p = draft(&mut store, g);
    let r = ProposalService::reject_proposal(&mut store, p.id, 3).unwrap();
    assert_eq!(r.status, ProposalStatus::Rejected);
    let again = ProposalService::reject_proposal(&mut store, p.id, 3);
    assert_eq!(detail(&again), "Invalid status transition from Rejected to Rejected");

    let q = draft(&mut store, g);
    ProposalService::activate_proposal(&mut store, q.id, 1).unwrap();
    ProposalService::approve_proposal_at(&mut store, q.id, 1, 10).unwrap();
    ProposalService::approve_proposal_at(&mut store, q.id, 2, 11).unwrap();
    let late = ProposalService::reject_proposal(&mut store, q.id, 1);
    assert_eq!(detail(&late), "Invalid status transition from Approved to Rejected");
}

#[test]
fn approve_requires_active() {
    let mut store = Store::new();
    let g = group_of_three(&mut store);
    let p = draft(&mut store, g);
    let r = ProposalService::approve_proposal_at(&mut store, p.id, 2, 10);
    assert_eq!(kind(&r), Some(ErrorKind::Validation));
    assert_eq!(detail(&r), "Proposal with status Draft cannot be approved");
}

#[test]
fn missing_proposal_is_not_found() {
    let mut store = Store::new();
    group_of_three(&mut store);
    let r = ProposalService::approve_proposal_at(&mut store, 42, 1, 10);
    assert_eq!(kind(&r), Some(ErrorKind::NotFound));
    assert_eq!(detail(&r), "Proposal not found");
    let r = ProposalService::activate_proposal(&mut store, 0, 1);
    assert_eq!(kind(&r), Some(ErrorKind::NotFound));
    let r = ProposalService::get_proposal_approvals(&store, 7, 1);
    assert_eq!(kind(&r), Some(ErrorKind::NotFound));
}

#[test]
fn non_owner_cannot_transition() {
    let mut store = Store::new();
    let g = group_of_three(&mut store);
    let p = draft(&mut store, g);
    let r = ProposalService::activate_proposal(&mut store, p.id, 4);
    assert_eq!(kind(&r), Some(ErrorKind::Authorization));
    assert_eq!(status_of(&store, p.id), ProposalStatus::Draft);
    let r = ProposalService::get_proposal_approvals(&store, p.id, 4);
    assert_eq!(kind(&r), Some(ErrorKind::Authorization));
}

#[test]
fn update_status_checks_the_table() {
    let mut store = Store::new();
    let g = group_of_three(&mut store);
    let p = draft(&mut store, g);
    let upd = UpdateProposalStatus { status: ProposalStatus::Expired, executed_at: None };
    let r = store.update_proposal_status(p.id, upd);
    assert_eq!(kind(&r), Some(ErrorKind::Validation));
    assert_eq!(detail(&r), "Invalid status transition from Draft to Expired");
    let r = store.update_proposal_status(99, upd);
    assert_eq!(kind(&r), Some(ErrorKind::NotFound));
}

#[test]
fn approvals_listed_in_time_order() {
    let mut store = Store::new();
    let data = CreateMultisig::new("Big".to_string(), None, vec![1, 2, 3, 4], 4);
    let g = MultisigService::create_multisig_at(&mut store, data, 1, 10).unwrap().id;
    let p = draft(&mut store, g);
    ProposalService::activate_proposal(&mut store, p.id, 1).unwrap();
    ProposalService::approve_proposal_at(&mut store, p.id, 3, 5_000).unwrap();
    ProposalService::approve_proposal_at(&mut store, p.id, 1, 4_000).unwrap();
    ProposalService::approve_proposal_at(&mut store, p.id, 2, 6_000).unwrap();
    let list = ProposalService::get_proposal_approvals(&store, p.id, 4).unwrap();
    let users: Vec<i64> = list.iter().map(|a| a.user_id).collect();
    assert_eq!(users, vec![3, 1, 2]);
    let times: Vec<i64> = list.iter().map(|a| a.approved_at).collect();
    assert_eq!(times, vec![5_000, 5_000, 6_000]);
    assert_eq!(status_of(&store, p.id), ProposalStatus::Active);
}
