use multisig::{
    AppError, CreateMultisig, CreateMultisigRequest, CreateProposal, CreateProposalRequest,
    ErrorKind, MultisigService, ProposalService, Store,
};

fn rejected(store: &mut Store, owners: Vec<i64>, threshold: i32, creator: i64, name: &str) -> String {
    let data = CreateMultisig::new(name.to_string(), None, owners, threshold);
    match MultisigService::create_multisig_at(store, data, creator, 1) {
        Ok(_) => String::new(),
        Err(e) => {
            assert_eq!(e.kind(), ErrorKind::Validation);
            e.detail_str().to_string()
        }
    }
}

#[test]
fn group_creation_enforces_threshold_bounds() {
    let mut store = Store::new();
    assert_eq!(rejected(&mut store, vec![1, 2], 0, 1, "g"), "Threshold must be greater than 0");
    assert_eq!(rejected(&mut store, vec![1, 2], -3, 1, "g"), "Threshold must be greater than 0");
    assert_eq!(rejected(&mut store, vec![1, 2], 3, 1, "g"), "Threshold cannot exceed number of owners");
    assert_eq!(rejected(&mut store, vec![], 1, 1, "g"), "Multisig must have at least one owner");
    assert_eq!(rejected(&mut store, vec![2, 3], 1, 1, "g"), "Creator must be included in owners list");
    assert_eq!(rejected(&mut store, vec![1], 1, 1, " \t\n"), "Multisig name cannot be empty");
    assert_eq!(rejected(&mut store, vec![1], 1, 1, "\u{3000}\u{a0}"), "Multisig name cannot be empty");
    assert!(MultisigService::list_user_multisigs(&store, 1).is_empty());
    assert!(store.find_multisig_by_id(1).is_none());
}

#[test]
fn group_creation_accepts_threshold_equal_to_owner_count() {
    let mut store = Store::new();
    let data = CreateMultisig::new("All".to_string(), Some("d".to_string()), vec![7, 8, 9], 3);
    let g = MultisigService::create_multisig_at(&mut store, data, 8, 77).unwrap();
    assert_eq!(g.id, 1);
    assert_eq!(g.threshold, 3);
    assert_eq!(g.owners, vec![7, 8, 9]);
    assert_eq!(g.created_by, 8);
    assert_eq!(g.created_at, 77);
    assert_eq!(g.description, Some("d".to_string()));
    assert!(g.is_valid_threshold());
    assert!(g.is_owner(9));
    assert!(!g.is_owner(10));
}

#[test]
fn validate_reports_first_problem() {
    let data = CreateMultisig::new("  ".to_string(), None, vec![], 0);
    assert_eq!(data.validate(1), Err("Multisig name cannot be empty".to_string()));
    let data = CreateMultisig::new("ok".to_string(), None, vec![1, 1], 2);
    assert_eq!(data.validate(1), Ok(()));
}

#[test]
fn groups_listed_newest_first_for_owner() {
    let mut store = Store::new();
    for (i, owners) in [vec![1, 2], vec![2, 3], vec![1, 3]].iter().enumerate() {
        let data = CreateMultisig::new(format!("g{}", i), None, owners.clone(), 1);
        MultisigService::create_multisig_at(&mut store, data, owners[0], 10 * i as i64).unwrap();
    }
    let ids: Vec<i64> = MultisigService::list_user_multisigs(&store, 1).iter().map(|g| g.id).collect();
    assert_eq!(ids, vec![3, 1]);
    let ids: Vec<i64> = MultisigService::list_user_multisigs(&store, 3).iter().map(|g| g.id).collect();
    assert_eq!(ids, vec![3, 2]);
    assert!(MultisigService::list_user_multisigs(&store, 4).is_empty());
}

#[test]
fn group_lookup_and_owner_check() {
    let mut store = Store::new();
    let data = CreateMultisig::new("g".to_string(), None, vec![1, 2], 1);
    let g = MultisigService::create_multisig(&mut store, data, 1).unwrap();
    assert!(g.created_at > 0);
    assert_eq!(MultisigService::get_multisig(&store, g.id).unwrap().name, "g");
    let missing = MultisigService::get_multisig(&store, 5);
    assert_eq!(missing.unwrap_err().detail_str(), "Multisig not found");
    let denied = MultisigService::check_user_is_owner(&store, g.id, 3);
    assert_eq!(denied.unwrap_err().kind(), ErrorKind::Authorization);
    assert_eq!(MultisigService::check_user_is_owner(&store, g.id, 2).unwrap().id, g.id);
}

#[test]
fn proposal_creation_checks_title_and_membership() {
    let mut store = Store::new();
    let data = CreateMultisig::new("g".to_string(), None, vec![1, 2], 1);
    let g = MultisigService::create_multisig_at(&mut store, data, 1, 5).unwrap().id;
    let blank = CreateProposal::new("   ".to_string(), None, None);
    assert_eq!(blank.validate(), Err("Proposal title cannot be empty".to_string()));
    let r = ProposalService::create_proposal_at(&mut store, blank, g, 1, 6);
    assert_eq!(r.unwrap_err().kind(), ErrorKind::Validation);
    let outsider = CreateProposal::new("t".to_string(), None, None);
    let r = ProposalService::create_proposal_at(&mut store, outsider, g, 9, 6);
    assert_eq!(r.unwrap_err().kind(), ErrorKind::Authorization);
    let nowhere = CreateProposal::new("t".to_string(), None, None);
    let r = ProposalService::create_proposal_at(&mut store, nowhere, 4, 1, 6);
    assert_eq!(r.unwrap_err().detail_str(), "Multisig not found");
    assert!(store.find_proposal_by_id(1).is_none());
    let good = CreateProposal::new(" t ".to_string(), Some("why".to_string()), Some("{}".to_string()));
    let p = ProposalService::create_proposal(&mut store, good, g, 2).unwrap();
    assert_eq!(p.id, 1);
    assert_eq!(p.multisig_id, g);
    assert_eq!(p.title, " t ");
    assert_eq!(p.transaction_data, Some("{}".to_string()));
    assert!(p.created_at >= 5);
}

#[test]
fn proposals_listed_newest_first_for_owners_only() {
    let mut store = Store::new();
    let data = CreateMultisig::new("a".to_string(), None, vec![1], 1);
    let a = MultisigService::create_multisig_at(&mut store, data, 1, 1).unwrap().id;
    let data = CreateMultisig::new("b".to_string(), None, vec![2], 1);
    let b = MultisigService::create_multisig_at(&mut store, data, 2, 2).unwrap().id;
    for (g, u) in [(a, 1), (b, 2), (a, 1)] {
        let d = CreateProposal::new("t".to_string(), None, None);
        ProposalService::create_proposal_at(&mut store, d, g, u, 3).unwrap();
    }
    let ids: Vec<i64> = ProposalService::list_multisig_proposals(&store, a, 1)
        .unwrap()
        .iter()
        .map(|p| p.id)
        .collect();
    assert_eq!(ids, vec![3, 1]);
    let r = ProposalService::list_multisig_proposals(&store, a, 2);
    assert_eq!(r.unwrap_err().kind(), ErrorKind::Authorization);
    let all: Vec<i64> = store.list_multisig_proposals(b).iter().map(|p| p.id).collect();
    assert_eq!(all, vec![2]);
}

#[test]
fn request_bodies_convert() {
    let req = CreateMultisigRequest {
        name: "n".to_string(),
        description: None,
        owners: vec![1],
        threshold: 1,
    };
    let c = req.into_create();
    assert_eq!(c.name, "n");
    assert_eq!(c.owners, vec![1]);
    let req = CreateProposalRequest {
        title: "t".to_string(),
        description: Some("d".to_string()),
        transaction_data: None,
    };
    let c = req.into_create();
    assert_eq!(c.title, "t");
    assert_eq!(c.description, Some("d".to_string()));
}

#[test]
fn internal_error_from_text() {
    let e = AppError::from("boom".to_string());
    assert_eq!(e.kind(), ErrorKind::Internal);
    assert_eq!(e.detail_str(), "boom");
}
