use dg::branches::{classify_branches, BranchFact, BranchesState, Upstream};

fn fact(name: &str, upstream: Upstream) -> BranchFact {
    BranchFact { name: Some(name.to_string()), upstream }
}

#[test]
fn local_only_branch_is_missing_not_ahead() {
    let facts = vec![fact("feature", Upstream::NotConfigured)];
    let state = classify_branches(&facts);
    assert_eq!(state.missing, vec!["feature".to_string()]);
    assert!(state.ahead.is_empty());
}

#[test]
fn ahead_branch_is_ahead_not_missing() {
    let facts = vec![fact("main", Upstream::Ahead)];
    let state = classify_branches(&facts);
    assert_eq!(state.ahead, vec!["main".to_string()]);
    assert!(state.missing.is_empty());
}

#[test]
fn in_sync_branch_is_reported_nowhere() {
    let facts = vec![fact("steady", Upstream::NotAhead)];
    let state = classify_branches(&facts);
    assert!(state.ahead.is_empty());
    assert!(state.missing.is_empty());
}

#[test]
fn enumeration_order_is_kept() {
    let facts = vec![
        fact("b1", Upstream::Ahead),
        fact("b2", Upstream::NotConfigured),
        fact("b3", Upstream::Ahead),
        fact("b4", Upstream::NotAhead),
        fact("b5", Upstream::NotConfigured),
    ];
    let state = classify_branches(&facts);
    assert_eq!(state.ahead, vec!["b1".to_string(), "b3".to_string()]);
    assert_eq!(state.missing, vec!["b2".to_string(), "b5".to_string()]);
}

#[test]
fn nameless_branches_are_dropped() {
    let facts = vec![
        BranchFact { name: None, upstream: Upstream::Ahead },
        BranchFact { name: None, upstream: Upstream::NotConfigured },
        fact("named", Upstream::Ahead),
    ];
    let state = classify_branches(&facts);
    assert_eq!(state.ahead, vec!["named".to_string()]);
    assert!(state.missing.is_empty());
}

#[test]
fn no_facts_yield_empty_state() {
    let state = classify_branches(&vec![]);
    assert!(state.is_empty());
    assert_eq!(state.total(), 0);
}

#[test]
fn branch_state_is_empty_iff_total_zero() {
    let empty = BranchesState::default();
    assert!(empty.is_empty());
    assert_eq!(empty.total(), 0);
    let one = BranchesState { ahead: vec!["main".to_string()], missing: vec![] };
    assert!(!one.is_empty());
    assert_eq!(one.total(), 1);
    let two = BranchesState {
        ahead: vec!["main".to_string()],
        missing: vec!["feature".to_string()],
    };
    assert_eq!(two.total(), 2);
}
