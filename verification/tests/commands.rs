use std::cell::{Cell, RefCell};
use std::sync::atomic::{AtomicUsize, Ordering};
use tauri_plugin_decoration::commands::{
    advance_linux_restoration, advance_native_activation, advance_native_mutation,
    begin_linux_restoration, begin_native_activation, begin_native_mutation, first_failure,
    ActivationEvent, LinuxRestoration, NativeActivation, NativeMutation,
};
use tauri_plugin_decoration::lifecycle::{
    ActivationDecision, FrontendTarget, Lifecycle, ReadinessDecision,
};

/// Runs each step the restoration stages name, as the plugin does.
fn run_linux_restoration(
    visible: bool,
    unmap: impl FnOnce() -> Result<(), String>,
    restore: impl FnOnce() -> Result<(), String>,
    show: impl FnOnce() -> Result<(), String>,
    join: impl FnOnce(String, String) -> String,
) -> Result<(), String> {
    let (mut unmap, mut restore, mut show) = (Some(unmap), Some(restore), Some(show));
    let mut stage = begin_linux_restoration(visible);
    loop {
        let outcome = match stage {
            LinuxRestoration::Unmapping => unmap.take().unwrap()(),
            LinuxRestoration::RestoringUnmapped | LinuxRestoration::Restoring => {
                restore.take().unwrap()()
            }
            LinuxRestoration::Showing(_) => show.take().unwrap()(),
            LinuxRestoration::Finished(result) => return result,
            LinuxRestoration::BothFailed(a, b) => return Err(join(a, b)),
        };
        stage = advance_linux_restoration(stage, outcome);
    }
}

/// Runs each step the mutation stages name, as the plugin does.
fn run_native_mutation_transaction(
    apply: impl FnOnce() -> Result<(), String>,
    rollback: impl FnOnce() -> Result<(), String>,
) -> Result<(), String> {
    let (mut apply, mut rollback) = (Some(apply), Some(rollback));
    let mut stage = begin_native_mutation();
    loop {
        let outcome = match stage {
            NativeMutation::Applying => apply.take().unwrap()(),
            NativeMutation::RollingBack(_) => rollback.take().unwrap()(),
            NativeMutation::Finished(result) => return result,
        };
        stage = advance_native_mutation(stage, outcome);
    }
}

fn join(restore: String, show: String) -> String {
    format!("restoring Linux native decorations failed: {restore}; showing the window again also failed: {show}")
}

#[test]
fn visible_linux_restoration_unmaps_before_restoring_and_remaps_afterward() {
    let operations = RefCell::new(Vec::new());
    run_linux_restoration(
        true,
        || {
            operations.borrow_mut().push("hide");
            Ok::<(), String>(())
        },
        || {
            operations.borrow_mut().push("restore");
            Ok(())
        },
        || {
            operations.borrow_mut().push("show");
            Ok(())
        },
        join,
    )
    .unwrap();
    assert_eq!(*operations.borrow(), ["hide", "restore", "show"]);
}

#[test]
fn failed_visible_linux_restoration_still_attempts_to_remap() {
    let shown = AtomicUsize::new(0);
    let error = run_linux_restoration(
        true,
        || Ok(()),
        || Err("restore failed".to_string()),
        || {
            shown.fetch_add(1, Ordering::SeqCst);
            Ok(())
        },
        join,
    )
    .unwrap_err();
    assert!(error.to_string().contains("restore failed"));
    assert_eq!(shown.load(Ordering::SeqCst), 1);
}

#[test]
fn hidden_linux_windows_are_only_restored_and_double_failures_are_joined() {
    let operations = RefCell::new(Vec::new());
    let result = run_linux_restoration(
        false,
        || {
            operations.borrow_mut().push("hide");
            Ok::<(), String>(())
        },
        || {
            operations.borrow_mut().push("restore");
            Err("restore failed".to_string())
        },
        || {
            operations.borrow_mut().push("show");
            Ok(())
        },
        join,
    );
    assert_eq!(result, Err("restore failed".to_string()));
    assert_eq!(*operations.borrow(), ["restore"]);

    let both = run_linux_restoration(
        true,
        || Ok(()),
        || Err("a".to_string()),
        || Err("b".to_string()),
        join,
    );
    assert_eq!(
        both,
        Err("restoring Linux native decorations failed: a; showing the window again also failed: b".to_string())
    );
    let unmap_failed = run_linux_restoration(
        true,
        || Err("hide failed".to_string()),
        || panic!("restore must not run"),
        || panic!("show must not run"),
        join,
    );
    assert_eq!(unmap_failed, Err("hide failed".to_string()));
}

#[test]
fn partial_traffic_light_mutation_is_rolled_back_before_failure_returns() {
    let mutated = Cell::new(false);

    let error = run_native_mutation_transaction(
        || {
            mutated.set(true);
            Err("second AppKit setter failed".to_owned())
        },
        || {
            mutated.set(false);
            Ok(())
        },
    )
    .unwrap_err();

    assert_eq!(error, "second AppKit setter failed");
    assert!(!mutated.get());
}

#[test]
fn failed_rollback_is_appended_to_the_mutation_failure() {
    let error = run_native_mutation_transaction(
        || Err("apply failed".to_owned()),
        || Err("rollback failed".to_owned()),
    )
    .unwrap_err();
    assert_eq!(error, "apply failed; native geometry rollback failed: rollback failed");
    assert_eq!(
        run_native_mutation_transaction(|| Ok(()), || panic!("no rollback after success")),
        Ok(())
    );
}

#[test]
fn independent_cleanup_failures_are_reported_together() {
    let join = |a: String, b: String| format!("{a}; {b}");
    assert_eq!(first_failure(Ok(()), Ok(()), join), Ok(()));
    assert_eq!(first_failure(Err("a".to_string()), Ok(()), join), Err("a".to_string()));
    assert_eq!(first_failure(Ok(()), Err("b".to_string()), join), Err("b".to_string()));
    assert_eq!(
        first_failure(Err("a".to_string()), Err("b".to_string()), join),
        Err("a; b".to_string())
    );
}

fn reserve_main(state: &RefCell<Lifecycle>) -> FrontendTarget {
    match state.borrow_mut().begin_activation("main").unwrap() {
        ActivationDecision::Reserved(target) => target,
        other => panic!("expected reservation, got {other:?}"),
    }
}

fn activate_natively(
    state: &RefCell<Lifecycle>,
    target: FrontendTarget,
    apply: impl FnOnce() -> Result<(), String>,
    rollback: impl FnOnce() -> Result<(), String>,
) -> Result<(), String> {
    let (mut apply, mut rollback) = (Some(apply), Some(rollback));
    let mut stage = begin_native_activation();
    loop {
        let event = match stage {
            NativeActivation::Deciding => {
                ActivationEvent::Decided(state.borrow_mut().begin_native_apply("main", target))
            }
            NativeActivation::Applying => ActivationEvent::Applied(apply.take().unwrap()()),
            NativeActivation::Committing => {
                ActivationEvent::Committed(state.borrow_mut().commit_native_apply("main", target))
            }
            NativeActivation::RollingBack(_) => ActivationEvent::RolledBack(rollback.take().unwrap()()),
            NativeActivation::RecordingFailure(_) => {
                state.borrow_mut().fail_native_apply("main", target);
                ActivationEvent::Recorded
            }
            NativeActivation::Finished(result) => return result,
        };
        stage = advance_native_activation(stage, event);
    }
}

#[test]
fn native_apply_error_rolls_back_and_leaves_a_retryable_state() {
    let state = RefCell::new(Lifecycle::new());
    let target = reserve_main(&state);
    let rollbacks = AtomicUsize::new(0);

    let error = activate_natively(
        &state,
        target,
        || Err("apply failed".to_string()),
        || {
            rollbacks.fetch_add(1, Ordering::SeqCst);
            Ok(())
        },
    )
    .unwrap_err();

    assert!(error.to_string().contains("apply failed"));
    assert_eq!(rollbacks.load(Ordering::SeqCst), 1);
    let retry = reserve_main(&state);
    assert_eq!(retry.window, target.window);
    assert_ne!(retry.document, target.document);
}

#[test]
fn superseded_native_apply_rolls_back_instead_of_committing_old_state() {
    let state = RefCell::new(Lifecycle::new());
    let target = reserve_main(&state);
    let rollbacks = AtomicUsize::new(0);

    let error = activate_natively(
        &state,
        target,
        || {
            assert!(state.borrow_mut().begin_destroy("main", target.window));
            Ok(())
        },
        || {
            rollbacks.fetch_add(1, Ordering::SeqCst);
            Ok(())
        },
    )
    .unwrap_err();

    assert!(error.to_string().contains("superseded"));
    assert_eq!(rollbacks.load(Ordering::SeqCst), 1);
}

#[test]
fn native_activation_commits_without_rolling_back() {
    let state = RefCell::new(Lifecycle::new());
    let target = reserve_main(&state);
    let rollbacks = Cell::new(0);
    activate_natively(&state, target, || Ok(()), || {
        rollbacks.set(rollbacks.get() + 1);
        Ok(())
    })
    .unwrap();
    assert_eq!(rollbacks.get(), 0);
    assert_eq!(state.borrow().active_target("main"), Some(target));

    let applies = Cell::new(0);
    assert_eq!(
        activate_natively(&state, target, || {
            applies.set(applies.get() + 1);
            Ok(())
        }, || Ok(())),
        Ok(())
    );
    assert_eq!(applies.get(), 0);
}

#[test]
fn native_activation_reports_stale_and_duplicate_readiness() {
    let state = RefCell::new(Lifecycle::new());
    let target = reserve_main(&state);
    let stale = FrontendTarget::from_values(target.window.get(), target.document.get() + 1).unwrap();
    assert_eq!(
        activate_natively(&state, stale, || Ok(()), || Ok(())),
        Err("stale decoration readiness acknowledgement".to_string())
    );
    assert_eq!(
        state.borrow_mut().begin_native_apply("main", target),
        ReadinessDecision::Apply
    );
    assert_eq!(
        activate_natively(&state, target, || Ok(()), || Ok(())),
        Err("decoration native activation is already in progress".to_string())
    );
}

#[test]
fn native_activation_joins_apply_and_rollback_failures() {
    let state = RefCell::new(Lifecycle::new());
    let target = reserve_main(&state);
    assert_eq!(
        activate_natively(
            &state,
            target,
            || Err("apply failed".to_string()),
            || Err("restore failed".to_string()),
        ),
        Err("native decoration activation failed: apply failed; rollback failed: restore failed"
            .to_string())
    );
    let retry = reserve_main(&state);
    assert_eq!(
        activate_natively(
            &state,
            retry,
            || {
                state.borrow_mut().begin_destroy("main", retry.window);
                Ok(())
            },
            || Err("restore failed".to_string()),
        ),
        Err("decoration activation was superseded and rollback failed: restore failed".to_string())
    );
}
