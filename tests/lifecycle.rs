use keygate_sdk::intent::{
    GatewayOutcome, IntentError, IntentStatus, StatusKind, SupportedNetwork, TransactionType,
};
use keygate_sdk::store::IntentStore;
use keygate_sdk::Signer;

fn signer(n: u8) -> Signer {
    Signer::new(vec![n, 1, 2])
}

fn propose_icp(store: &mut IntentStore, to: &str, amount: i64) -> Result<u64, IntentError> {
    store
        .propose(
            to.to_string(),
            "icp:native".to_string(),
            SupportedNetwork::ICP,
            TransactionType::Transfer,
            amount,
        )
        .map(|t| t.id())
}

#[test]
fn single_signer_account_completes() {
    let mut store = IntentStore::new();
    let t = store
        .propose(
            "abc".to_string(),
            "icp:native".to_string(),
            SupportedNetwork::ICP,
            TransactionType::Transfer,
            100,
        )
        .unwrap();
    assert_eq!(t.status_kind(), StatusKind::Pending);
    assert_eq!(t.approvals_count(), 0);
    assert_eq!(t.recipient(), "abc");
    assert_eq!(t.amount(), 100);
    let id = t.id();

    let s1 = signer(1);
    let t = store.record_vote(id, &s1, true).unwrap();
    assert_eq!(t.approvals_count(), 1);
    assert!(t.has_approved(&s1));

    assert_eq!(store.begin_execute(id, 1), Ok(()));
    assert_eq!(store.get(id).unwrap().status_kind(), StatusKind::InProgress);
    let st = store
        .finish_execute(id, GatewayOutcome::Completed("transfer done".to_string()))
        .unwrap();
    assert_eq!(st, IntentStatus::Completed("transfer done".to_string()));
    assert_eq!(store.get(id).unwrap().status(), IntentStatus::Completed("transfer done".to_string()));
}

#[test]
fn two_of_three_quorum() {
    let mut store = IntentStore::new();
    let id = propose_icp(&mut store, "abc", 5).unwrap();
    store.record_vote(id, &signer(1), true).unwrap();
    assert_eq!(store.begin_execute(id, 2), Err(IntentError::QuorumNotMet));
    assert_eq!(store.get(id).unwrap().status_kind(), StatusKind::Pending);

    store.record_vote(id, &signer(2), true).unwrap();
    assert_eq!(store.begin_execute(id, 2), Ok(()));
    assert_eq!(store.get(id).unwrap().status_kind(), StatusKind::InProgress);
    let st = store.finish_execute(id, GatewayOutcome::Completed("ok".to_string())).unwrap();
    assert_eq!(st.kind(), StatusKind::Completed);
}

#[test]
fn terminal_intent_is_immutable() {
    let mut store = IntentStore::new();
    let id = propose_icp(&mut store, "abc", 7).unwrap();
    let s1 = signer(1);
    let s2 = signer(2);
    store.record_vote(id, &s1, true).unwrap();
    store.begin_execute(id, 1).unwrap();
    store.finish_execute(id, GatewayOutcome::Completed("done".to_string())).unwrap();

    let terminal = Err(IntentError::AlreadyTerminal(StatusKind::Completed));
    assert_eq!(store.record_vote(id, &s2, true).map(|t| t.id()), terminal.clone());
    assert_eq!(store.record_vote(id, &s1, false).map(|t| t.id()), terminal.clone());
    assert_eq!(store.begin_execute(id, 1), Err(IntentError::AlreadyTerminal(StatusKind::Completed)));
    assert_eq!(
        store.finish_execute(id, GatewayOutcome::Failed("late".to_string())),
        Err(IntentError::AlreadyTerminal(StatusKind::Completed))
    );
    assert_eq!(
        store.mark_rejected(id, "cancel".to_string()),
        Err(IntentError::AlreadyTerminal(StatusKind::Completed))
    );
    let t = store.get(id).unwrap();
    assert_eq!(t.status(), IntentStatus::Completed("done".to_string()));
    assert_eq!(t.approvals_count(), 1);
    assert_eq!(t.rejections_count(), 0);
    assert!(t.has_approved(&s1));
    assert!(!t.has_rejected(&s1));
}

#[test]
fn zero_and_negative_amounts_are_refused() {
    let mut store = IntentStore::new();
    assert_eq!(propose_icp(&mut store, "abc", 0), Err(IntentError::InvalidAmount));
    assert_eq!(propose_icp(&mut store, "abc", -5), Err(IntentError::InvalidAmount));
    assert_eq!(propose_icp(&mut store, "abc", i64::MIN), Err(IntentError::InvalidAmount));
    assert_eq!(store.len(), 0);
}

#[test]
fn empty_recipient_is_refused() {
    let mut store = IntentStore::new();
    assert_eq!(propose_icp(&mut store, "", 10), Err(IntentError::InvalidRecipient));
    assert_eq!(propose_icp(&mut store, "", 0), Err(IntentError::InvalidAmount));
    assert_eq!(store.len(), 0);
}

#[test]
fn identifiers_are_assigned_in_order() {
    let mut store = IntentStore::new();
    assert_eq!(propose_icp(&mut store, "a", 1), Ok(0));
    assert_eq!(propose_icp(&mut store, "b", i64::MAX), Ok(1));
    assert_eq!(propose_icp(&mut store, "c", 3), Ok(2));
    assert_eq!(store.len(), 3);
    assert_eq!(store.get(1).unwrap().recipient(), "b");
    assert_eq!(store.get(1).unwrap().amount(), i64::MAX as u64);
    assert_eq!(store.get(1).unwrap().asset(), "icp:native");
    assert_eq!(store.get(1).unwrap().network(), SupportedNetwork::ICP);
    assert_eq!(store.get(1).unwrap().kind(), TransactionType::Transfer);
}

#[test]
fn unknown_identifier_is_not_found() {
    let mut store = IntentStore::new();
    propose_icp(&mut store, "abc", 1).unwrap();
    assert_eq!(store.get(1).map(|t| t.id()), Err(IntentError::NotFound));
    assert_eq!(store.record_vote(9, &signer(1), true).map(|t| t.id()), Err(IntentError::NotFound));
    assert_eq!(store.begin_execute(1, 1), Err(IntentError::NotFound));
    assert_eq!(
        store.finish_execute(1, GatewayOutcome::Completed("x".to_string())),
        Err(IntentError::NotFound)
    );
    assert_eq!(store.mark_rejected(u64::MAX, "x".to_string()), Err(IntentError::NotFound));
}

#[test]
fn approving_twice_counts_once() {
    let mut store = IntentStore::new();
    let id = propose_icp(&mut store, "abc", 1).unwrap();
    let s1 = signer(1);
    store.record_vote(id, &s1, true).unwrap();
    let t = store.record_vote(id, &Signer::new(vec![1, 1, 2]), true).unwrap();
    assert_eq!(t.approvals_count(), 1);
    assert_eq!(store.begin_execute(id, 2), Err(IntentError::QuorumNotMet));
}

#[test]
fn vote_order_does_not_change_the_sets() {
    let mut a = IntentStore::new();
    let mut b = IntentStore::new();
    let ia = propose_icp(&mut a, "abc", 1).unwrap();
    let ib = propose_icp(&mut b, "abc", 1).unwrap();
    a.record_vote(ia, &signer(1), true).unwrap();
    a.record_vote(ia, &signer(2), false).unwrap();
    b.record_vote(ib, &signer(2), false).unwrap();
    b.record_vote(ib, &signer(1), true).unwrap();
    for t in [a.get(ia).unwrap(), b.get(ib).unwrap()] {
        assert!(t.has_approved(&signer(1)));
        assert!(t.has_rejected(&signer(2)));
        assert_eq!(t.approvals_count(), 1);
        assert_eq!(t.rejections_count(), 1);
    }
}

#[test]
fn last_vote_wins() {
    let mut store = IntentStore::new();
    let id = propose_icp(&mut store, "abc", 1).unwrap();
    let s = signer(4);
    store.record_vote(id, &s, true).unwrap();
    let t = store.record_vote(id, &s, false).unwrap();
    assert!(t.has_rejected(&s));
    assert!(!t.has_approved(&s));
    assert_eq!(t.approvals_count(), 0);
    assert_eq!(t.rejections_count(), 1);
    let t = store.record_vote(id, &s, true).unwrap();
    assert!(t.has_approved(&s));
    assert!(!t.has_rejected(&s));
}

#[test]
fn quorum_not_met_leaves_intent_pending() {
    let mut store = IntentStore::new();
    let id = propose_icp(&mut store, "abc", 1).unwrap();
    assert_eq!(store.begin_execute(id, 1), Err(IntentError::QuorumNotMet));
    store.record_vote(id, &signer(1), true).unwrap();
    store.record_vote(id, &signer(2), true).unwrap();
    store.record_vote(id, &signer(3), false).unwrap();
    assert_eq!(store.begin_execute(id, 3), Err(IntentError::QuorumNotMet));
    assert_eq!(store.get(id).unwrap().status_kind(), StatusKind::Pending);
    assert_eq!(store.begin_execute(id, 0), Ok(()));
}

#[test]
fn second_execution_while_in_flight_is_refused() {
    let mut store = IntentStore::new();
    let id = propose_icp(&mut store, "abc", 1).unwrap();
    store.record_vote(id, &signer(1), true).unwrap();
    store.begin_execute(id, 1).unwrap();
    assert_eq!(store.begin_execute(id, 1), Err(IntentError::AlreadyInProgress));
    assert_eq!(
        store.mark_rejected(id, "cancel".to_string()),
        Err(IntentError::AlreadyInProgress)
    );
    store.record_vote(id, &signer(2), false).unwrap();
    assert_eq!(store.get(id).unwrap().status_kind(), StatusKind::InProgress);
}

#[test]
fn still_pending_outcome_requeues() {
    let mut store = IntentStore::new();
    let id = propose_icp(&mut store, "abc", 1).unwrap();
    store.record_vote(id, &signer(1), true).unwrap();
    store.begin_execute(id, 1).unwrap();
    let st = store
        .finish_execute(id, GatewayOutcome::StillPending("Transaction is still pending".to_string()))
        .unwrap();
    assert_eq!(st, IntentStatus::Pending("Transaction is still pending".to_string()));
    assert_eq!(
        store.finish_execute(id, GatewayOutcome::Completed("x".to_string())),
        Err(IntentError::NotInProgress)
    );
    assert_eq!(store.begin_execute(id, 1), Ok(()));
    let st = store.finish_execute(id, GatewayOutcome::Failed("ledger refused".to_string())).unwrap();
    assert_eq!(st, IntentStatus::Failed("ledger refused".to_string()));
    assert_eq!(store.begin_execute(id, 1), Err(IntentError::AlreadyTerminal(StatusKind::Failed)));
    assert_eq!(store.begin_execute(id, 1), Err(IntentError::AlreadyTerminal(StatusKind::Failed)));
}

#[test]
fn explicit_rejection_is_terminal() {
    let mut store = IntentStore::new();
    let id = propose_icp(&mut store, "abc", 1).unwrap();
    let st = store.mark_rejected(id, "cancelled by owner".to_string()).unwrap();
    assert_eq!(st, IntentStatus::Rejected("cancelled by owner".to_string()));
    assert_eq!(store.begin_execute(id, 0), Err(IntentError::AlreadyTerminal(StatusKind::Rejected)));
    assert_eq!(
        store.record_vote(id, &signer(1), true).map(|t| t.id()),
        Err(IntentError::AlreadyTerminal(StatusKind::Rejected))
    );
}

#[test]
fn snapshot_is_detached_from_store() {
    let mut store = IntentStore::new();
    let t = store
        .propose(
            "abc".to_string(),
            "icp:native".to_string(),
            SupportedNetwork::ICP,
            TransactionType::Transfer,
            9,
        )
        .unwrap();
    store.record_vote(t.id(), &signer(1), true).unwrap();
    assert_eq!(t.approvals_count(), 0);
    assert_eq!(store.get(t.id()).unwrap().snapshot().approvals_count(), 1);
}

#[test]
fn status_parts() {
    let st = IntentStatus::from_parts(StatusKind::Failed, "boom".to_string());
    assert_eq!(st, IntentStatus::Failed("boom".to_string()));
    assert_eq!(st.kind(), StatusKind::Failed);
    assert_eq!(st.detail(), "boom");
    assert!(StatusKind::Completed.is_terminal());
    assert!(StatusKind::Rejected.is_terminal());
    assert!(StatusKind::Failed.is_terminal());
    assert!(!StatusKind::Pending.is_terminal());
    assert!(!StatusKind::InProgress.is_terminal());
}

#[test]
fn reported_status_maps_to_outcome() {
    let c = GatewayOutcome::from_reported(IntentStatus::Completed("sent".to_string()));
    assert_eq!(c, GatewayOutcome::Completed("sent".to_string()));
    let f = GatewayOutcome::from_reported(IntentStatus::Failed("no funds".to_string()));
    assert_eq!(f, GatewayOutcome::Failed("no funds".to_string()));
    let r = GatewayOutcome::from_reported(IntentStatus::Rejected("vetoed".to_string()));
    assert_eq!(r, GatewayOutcome::Failed("vetoed".to_string()));
    let p = GatewayOutcome::from_reported(IntentStatus::Pending("waiting".to_string()));
    assert_eq!(p, GatewayOutcome::StillPending("waiting".to_string()));
    let i = GatewayOutcome::from_reported(IntentStatus::InProgress("running".to_string()));
    assert_eq!(i, GatewayOutcome::StillPending("running".to_string()));
}
