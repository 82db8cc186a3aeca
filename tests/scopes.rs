use portable_issuer::storage::{FailureSignal, HandleMode, Release, Scope, ScopePhase, StorageFailure};

fn failure(msg: &str) -> StorageFailure {
    StorageFailure { signal: FailureSignal::Other, constraint: None, causes: vec![msg.to_string()] }
}

#[test]
fn bare_connection_is_closed_after_success_and_failure() {
    let mut ok: Scope<i64> = Scope::new(HandleMode::BareConnection);
    assert!(ok.on_acquired(Ok(())).is_none());
    assert_eq!(ok.on_body_finished(Ok(7)), Release::Close);
    assert!(matches!(ok.on_released(Ok(())), Ok(7)));
    assert!(matches!(ok.phase, ScopePhase::Done));

    let mut failed: Scope<i64> = Scope::new(HandleMode::BareConnection);
    assert!(failed.on_acquired(Ok(())).is_none());
    assert_eq!(failed.on_body_finished(Err(failure("body"))), Release::Close);
    match failed.on_released(Ok(())) {
        Err(f) => assert_eq!(f.causes, vec!["body".to_string()]),
        Ok(_) => panic!("the body failed"),
    }
}

#[test]
fn transaction_commits_on_success() {
    let mut scope: Scope<i64> = Scope::new(HandleMode::Transaction);
    assert!(scope.on_acquired(Ok(())).is_none());
    assert!(matches!(scope.phase, ScopePhase::Running));
    assert_eq!(scope.on_body_finished(Ok(3)), Release::Commit);
    assert!(matches!(scope.on_released(Ok(())), Ok(3)));
}

#[test]
fn transaction_rolls_back_a_failed_body() {
    let mut scope: Scope<i64> = Scope::new(HandleMode::Transaction);
    assert!(scope.on_acquired(Ok(())).is_none());
    assert_eq!(scope.on_body_finished(Err(failure("second statement"))), Release::Rollback);
    match scope.on_released(Ok(())) {
        Err(f) => assert_eq!(f.causes, vec!["second statement".to_string()]),
        Ok(_) => panic!("a failed body is never reported as success"),
    }
}

#[test]
fn failed_commit_overrides_body_success() {
    let mut scope: Scope<i64> = Scope::new(HandleMode::Transaction);
    assert!(scope.on_acquired(Ok(())).is_none());
    assert_eq!(scope.on_body_finished(Ok(5)), Release::Commit);
    match scope.on_released(Err(failure("commit"))) {
        Err(f) => assert_eq!(f.causes, vec!["commit".to_string()]),
        Ok(_) => panic!("the commit failed"),
    }
    assert!(matches!(scope.phase, ScopePhase::Done));
}

#[test]
fn failed_acquisition_ends_the_scope() {
    let mut scope: Scope<i64> = Scope::new(HandleMode::Transaction);
    match scope.on_acquired(Err(failure("pool closed"))) {
        Some(Err(f)) => assert_eq!(f.causes, vec!["pool closed".to_string()]),
        _ => panic!("the acquisition failed"),
    }
    assert!(matches!(scope.phase, ScopePhase::Done));
    assert_eq!(scope.mode, HandleMode::Transaction);
}

#[test]
fn constraint_names_are_compared_exactly() {
    let f = StorageFailure {
        signal: FailureSignal::UniqueViolation,
        constraint: Some("un_issue_statuses_name".to_string()),
        causes: vec![],
    };
    assert!(f.has_constraint("un_issue_statuses_name"));
    assert!(!f.has_constraint("un_issue_statuses"));
    assert!(f.is_violation_of(FailureSignal::UniqueViolation, "un_issue_statuses_name"));
    assert!(!f.is_violation_of(FailureSignal::ForeignKeyViolation, "un_issue_statuses_name"));
    let none = StorageFailure { signal: FailureSignal::UniqueViolation, constraint: None, causes: vec![] };
    assert!(!none.has_constraint("un_issue_statuses_name"));
    assert!(none.is_violation_of(FailureSignal::UniqueViolation, "un_issue_statuses_name"));
    assert!(!none.is_violation_of(FailureSignal::ForeignKeyViolation, "fk_issues_status"));
    let other = StorageFailure {
        signal: FailureSignal::UniqueViolation,
        constraint: Some("other".to_string()),
        causes: vec![],
    };
    assert!(!other.is_violation_of(FailureSignal::UniqueViolation, "un_issue_statuses_name"));
}
