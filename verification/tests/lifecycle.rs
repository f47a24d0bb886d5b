use tauri_plugin_decoration::lifecycle::IssueRequest;
use tauri_plugin_decoration::commands::acknowledge_failure;
use tauri_plugin_decoration::lifecycle::{
    ActivationDecision, DocumentToken, FrontendTarget, Generation, Lifecycle, LifecycleError,
    ReadinessDecision,
};

fn reserve(state: &mut Lifecycle, label: &str) -> FrontendTarget {
    match state.begin_activation(label).unwrap() {
        ActivationDecision::Reserved(target) => target,
        other => panic!("expected a reservation, got {other:?}"),
    }
}

fn activate(state: &mut Lifecycle, label: &str) -> FrontendTarget {
    let target = reserve(state, label);
    assert_eq!(
        state.begin_native_apply(label, target),
        ReadinessDecision::Apply
    );
    assert!(state.commit_native_apply(label, target));
    target
}

#[test]
fn initial_activation_prepares_a_window_generation_and_document_token() {
    let mut state = Lifecycle::new();
    let target = reserve(&mut state, "main");

    assert_ne!(target.window.get(), 0);
    assert_ne!(target.document.get(), 0);
    assert_eq!(state.preparing_target("main"), Some(target));
    assert_eq!(state.active_target("main"), None);
}

#[test]
fn active_activation_is_idempotent() {
    let mut state = Lifecycle::new();
    let target = activate(&mut state, "main");

    assert_eq!(
        state.begin_activation("main"),
        Ok(ActivationDecision::AlreadyActive(target))
    );
}

#[test]
fn concurrent_activation_is_rejected_explicitly() {
    let mut state = Lifecycle::new();
    let target = reserve(&mut state, "main");

    assert_eq!(
        state.begin_activation("main"),
        Err(LifecycleError::ActivationInProgress(target))
    );
}

#[test]
fn matching_readiness_can_apply_and_commit() {
    let mut state = Lifecycle::new();
    let target = reserve(&mut state, "main");

    assert_eq!(
        state.begin_native_apply("main", target),
        ReadinessDecision::Apply
    );
    assert!(state.commit_native_apply("main", target));
    assert_eq!(state.active_target("main"), Some(target));
}

#[test]
fn navigation_invalidates_the_previous_document_before_reconciliation() {
    let mut state = Lifecycle::new();
    let old = activate(&mut state, "main");

    let replacement = state.invalidate_document("main").unwrap();
    assert_eq!(replacement.window, old.window);
    assert_ne!(replacement.document, old.document);
    assert_eq!(state.active_target("main"), None);
    assert_eq!(
        state.begin_native_apply("main", old),
        ReadinessDecision::Stale
    );
    assert_eq!(state.preparing_target("main"), Some(replacement));
}

#[test]
fn finished_reconciliation_reuses_an_existing_preparation() {
    let mut state = Lifecycle::new();
    let target = reserve(&mut state, "main");
    assert_eq!(state.prepare_document("main"), Some(target));
}

#[test]
fn failed_frontend_preparation_is_safe_and_retryable() {
    let mut state = Lifecycle::new();
    let failed = reserve(&mut state, "main");

    assert!(state.fail_preparation("main", failed));
    assert_eq!(state.active_target("main"), None);
    assert_eq!(state.preparing_target("main"), None);

    let retry = state.prepare_document("main").unwrap();
    assert_eq!(retry.window, failed.window);
    assert_ne!(retry.document, failed.document);
    assert_eq!(state.preparing_target("main"), Some(retry));
}

#[test]
fn failed_native_apply_cannot_be_committed_by_a_late_success() {
    let mut state = Lifecycle::new();
    let failed = reserve(&mut state, "main");
    assert_eq!(
        state.begin_native_apply("main", failed),
        ReadinessDecision::Apply
    );

    assert!(state.fail_native_apply("main", failed));
    assert!(!state.commit_native_apply("main", failed));
    assert_eq!(state.active_target("main"), None);
}

#[test]
fn cancelling_a_preparation_invalidates_late_readiness_and_preserves_other_windows() {
    let mut state = Lifecycle::new();
    let cancelled = reserve(&mut state, "main");
    let other = activate(&mut state, "secondary");

    assert_eq!(state.cancel_current("main"), Some(cancelled));
    assert_eq!(
        state.begin_native_apply("main", cancelled),
        ReadinessDecision::Stale
    );
    assert_eq!(state.active_target("secondary"), Some(other));

    let retry = reserve(&mut state, "main");
    assert_eq!(retry.window, cancelled.window);
    assert_ne!(retry.document, cancelled.document);
}

#[test]
fn explicit_native_restore_stays_off_across_navigation_until_reactivated() {
    let mut state = Lifecycle::new();
    let cancelled = activate(&mut state, "main");

    assert_eq!(state.cancel_current("main"), Some(cancelled));
    assert_eq!(state.cancel_current("main"), Some(cancelled));
    assert_eq!(state.invalidate_document("main"), None);
    assert_eq!(state.prepare_document("main"), None);
    assert_eq!(
        state.begin_native_apply("main", cancelled),
        ReadinessDecision::Stale
    );

    let reactivated = reserve(&mut state, "main");
    assert_eq!(reactivated.window, cancelled.window);
    assert_ne!(reactivated.document, cancelled.document);
}

#[test]
fn duplicate_readiness_for_an_active_document_is_idempotent() {
    let mut state = Lifecycle::new();
    let target = activate(&mut state, "main");

    assert_eq!(
        state.begin_native_apply("main", target),
        ReadinessDecision::AlreadyActive
    );
}

#[test]
fn duplicate_readiness_during_native_apply_is_explicit() {
    let mut state = Lifecycle::new();
    let target = reserve(&mut state, "main");
    assert_eq!(
        state.begin_native_apply("main", target),
        ReadinessDecision::Apply
    );
    assert_eq!(
        state.begin_native_apply("main", target),
        ReadinessDecision::AlreadyApplying
    );
}

#[test]
fn stale_window_destruction_cannot_remove_a_replacement() {
    let mut state = Lifecycle::new();
    let old = reserve(&mut state, "main");
    assert!(state.begin_destroy("main", old.window));

    let replacement = reserve(&mut state, "main");
    assert_ne!(replacement.window, old.window);
    assert!(!state.finish_destroy("main", old.window));
    assert_eq!(state.preparing_target("main"), Some(replacement));
}

#[test]
fn destroy_current_invalidates_frontend_dispatch() {
    let mut state = Lifecycle::new();
    let target = activate(&mut state, "main");

    assert_eq!(state.begin_destroy_current("main"), Some(target.window));
    assert_eq!(state.current_target("main"), None);
    assert!(state.finish_destroy("main", target.window));
    assert_eq!(state.generation("main"), None);
}

#[test]
fn token_types_are_not_interchangeable() {
    let target = FrontendTarget {
        window: Generation::from_raw(7),
        document: DocumentToken::from_raw(11),
    };
    assert_eq!(target.window.get(), 7);
    assert_eq!(target.document.get(), 11);
}

#[test]
fn frontend_targets_accept_only_nonzero_token_values() {
    assert_eq!(FrontendTarget::from_values(0, 1), None);
    assert_eq!(FrontendTarget::from_values(1, 0), None);
    assert_eq!(
        FrontendTarget::from_values(7, 11),
        Some(FrontendTarget {
            window: Generation::from_raw(7),
            document: DocumentToken::from_raw(11),
        })
    );
}

#[test]
fn first_targets_are_numbered_from_one_and_documents_are_never_reused() {
    let mut state = Lifecycle::new();
    let first = reserve(&mut state, "main");
    assert_eq!((first.window.get(), first.document.get()), (1, 1));
    let second = reserve(&mut state, "second");
    assert_eq!((second.window.get(), second.document.get()), (2, 2));
    let navigated = state.invalidate_document("main").unwrap();
    assert_eq!((navigated.window.get(), navigated.document.get()), (1, 3));
}

#[test]
fn activation_error_describes_the_target_in_flight() {
    let error = LifecycleError::ActivationInProgress(FrontendTarget {
        window: Generation::from_raw(7),
        document: DocumentToken::from_raw(11),
    });
    assert_eq!(
        error.message(),
        "decoration activation is already in progress for window generation 7 and document 11"
    );
}

#[test]
fn failure_reports_must_address_the_preparing_target() {
    let mut state = Lifecycle::new();
    let target = reserve(&mut state, "main");
    let stale = FrontendTarget::from_values(target.window.get(), target.document.get() + 1).unwrap();
    assert_eq!(
        acknowledge_failure(&mut state, "main", stale),
        Err("stale decoration failure acknowledgement".to_string())
    );
    assert_eq!(acknowledge_failure(&mut state, "main", target), Ok(()));
    assert_eq!(state.preparing_target("main"), None);
}

#[test]
fn native_apply_failure_leaves_a_retryable_state() {
    let mut state = Lifecycle::new();
    let target = reserve(&mut state, "main");
    assert_eq!(state.begin_native_apply("main", target), ReadinessDecision::Apply);
    assert!(state.fail_native_apply("main", target));
    let retry = reserve(&mut state, "main");
    assert_eq!(retry.window, target.window);
    assert_ne!(retry.document, target.document);
}

#[test]
fn only_requests_that_issue_a_document_advance_the_counter() {
    let mut state = Lifecycle::new();
    assert!(state.issues_document("main", IssueRequest::Activation));
    assert!(!state.issues_document("main", IssueRequest::Navigation));
    assert!(!state.issues_document("main", IssueRequest::PageLoad));

    let target = reserve(&mut state, "main");
    assert!(!state.issues_document("main", IssueRequest::Activation));
    assert!(state.issues_document("main", IssueRequest::Navigation));
    assert!(!state.issues_document("main", IssueRequest::PageLoad));
    assert_eq!(state.prepare_document("main"), Some(target));

    state.cancel_current("main");
    assert!(state.issues_document("main", IssueRequest::Activation));
    assert!(!state.issues_document("main", IssueRequest::Navigation));
    assert!(!state.issues_document("main", IssueRequest::PageLoad));
}
