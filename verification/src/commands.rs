//! Decisions behind the plugin's commands and native operations.

use crate::lifecycle::{transition_step, FrontendTarget, Lifecycle, Phase, ReadinessDecision, Stage};
use crate::text::str_eq;
use crate::tokens::{parse_frontend_token, parsed_token};
use vstd::prelude::*;

verus! {

/// Whether a webview is the primary webview of its native window, the only
/// one whose commands may drive the window's decorations: the two share a
/// label.
pub fn primary_webview_labels_match(webview_label: &str, native_window_label: &str) -> (r: bool)
    ensures
        r == (webview_label@ == native_window_label@),
{
    str_eq(webview_label, native_window_label)
}

pub open spec fn not_primary_message() -> Seq<char> {
    "decoration commands are limited to the native window's primary webview"@
}

pub open spec fn zero_token_message() -> Seq<char> {
    "decoration acknowledgement tokens must be nonzero"@
}

/// The target a frontend acknowledgement names, or why it is refused: it
/// must come from the primary webview, and both tokens must be canonical,
/// in range and nonzero.
pub open spec fn acknowledgement_target(
    webview_label: Seq<char>,
    native_window_label: Seq<char>,
    window_generation: Seq<char>,
    document_token: Seq<char>,
) -> Result<FrontendTarget, Seq<char>> {
    if webview_label != native_window_label {
        Err(not_primary_message())
    } else {
        match parsed_token(window_generation) {
            Err(m) => Err(m),
            Ok(w) => match parsed_token(document_token) {
                Err(m) => Err(m),
                Ok(d) => if w == 0 || d == 0 {
                    Err(zero_token_message())
                } else {
                    Ok(
                        FrontendTarget {
                            window: crate::lifecycle::Generation(w),
                            document: crate::lifecycle::DocumentToken(d),
                        },
                    )
                },
            },
        }
    }
}

/// Checks a frontend acknowledgement and names its target, as
/// `acknowledgement_target` says.
pub fn parse_acknowledgement(
    webview_label: &str,
    native_window_label: &str,
    window_generation: &str,
    document_token: &str,
) -> (r: Result<FrontendTarget, String>)
    ensures
        match (
            r,
            acknowledgement_target(
                webview_label@,
                native_window_label@,
                window_generation@,
                document_token@,
            ),
        ) {
            (Ok(t), Ok(u)) => t == u,
            (Err(e), Err(m)) => e@ == m,
            _ => false,
        },
{
    if !primary_webview_labels_match(webview_label, native_window_label) {
        proof {
            reveal_strlit("decoration commands are limited to the native window's primary webview");
        }
        return Err(
            String::from_str("decoration commands are limited to the native window's primary webview"),
        );
    }
    let window = match parse_frontend_token(window_generation) {
        Ok(window) => window,
        Err(error) => {
            return Err(error);
        },
    };
    let document = match parse_frontend_token(document_token) {
        Ok(document) => document,
        Err(error) => {
            return Err(error);
        },
    };
    match FrontendTarget::from_values(window, document) {
        Some(target) => Ok(target),
        None => {
            proof {
                reveal_strlit("decoration acknowledgement tokens must be nonzero");
            }
            Err(String::from_str("decoration acknowledgement tokens must be nonzero"))
        },
    }
}

pub open spec fn stale_failure_message() -> Seq<char> {
    "stale decoration failure acknowledgement"@
}

/// Records a frontend report that preparing `target` failed; a report that
/// does not address the preparing target is refused as stale.
pub fn acknowledge_failure(lifecycle: &mut Lifecycle, label: &str, target: FrontendTarget) -> (r:
    Result<(), String>)
    requires
        old(lifecycle).wf(),
    ensures
        final(lifecycle).wf(),
        ({
            let (next, accepted) = transition_step(
                old(lifecycle)@,
                label@,
                target,
                Stage::Preparing,
                Phase::Failed(target.document),
            );
            &&& final(lifecycle)@ == next
            &&& match r {
                Ok(()) => accepted,
                Err(e) => !accepted && e@ == stale_failure_message(),
            }
        }),
{
    if lifecycle.fail_preparation(label, target) {
        Ok(())
    } else {
        proof {
            reveal_strlit("stale decoration failure acknowledgement");
        }
        Err(String::from_str("stale decoration failure acknowledgement"))
    }
}

/// Where restoring native decorations on Linux stands. A visible window is
/// unmapped first, restored, and shown again even when restoring failed; if
/// unmapping fails nothing else happens. A window that is not visible is
/// only restored. Each pending stage names the native step to run next;
/// the caller runs it and hands its outcome to `advance_linux_restoration`.
#[derive(Debug)]
pub enum LinuxRestoration<E> {
    /// Unmap the visible window.
    Unmapping,
    /// Restore the decorations of the unmapped window.
    RestoringUnmapped,
    /// Restore the decorations of a window that is not visible.
    Restoring,
    /// Show the window again, with how restoring went.
    Showing(Result<(), E>),
    /// Done, with this outcome.
    Finished(Result<(), E>),
    /// Done: restoring and showing both failed, and their errors are
    /// reported joined.
    BothFailed(E, E),
}

/// The first stage of restoring a window that is `visible` or not.
pub open spec fn restoration_start<E>(visible: bool) -> LinuxRestoration<E> {
    if visible {
        LinuxRestoration::Unmapping
    } else {
        LinuxRestoration::Restoring
    }
}

/// Whether `stage` still has a native step to run.
pub open spec fn restoration_pending<E>(stage: LinuxRestoration<E>) -> bool {
    stage is Unmapping || stage is RestoringUnmapped || stage is Restoring || stage is Showing
}

/// The stage after the step of `stage` ended with `outcome`.
pub open spec fn restoration_step<E>(stage: LinuxRestoration<E>, outcome: Result<(), E>) -> LinuxRestoration<E> {
    match stage {
        LinuxRestoration::Unmapping => match outcome {
            Ok(()) => LinuxRestoration::RestoringUnmapped,
            Err(e) => LinuxRestoration::Finished(Err(e)),
        },
        LinuxRestoration::RestoringUnmapped => LinuxRestoration::Showing(outcome),
        LinuxRestoration::Restoring => LinuxRestoration::Finished(outcome),
        LinuxRestoration::Showing(restored) => match (restored, outcome) {
            (Ok(()), Ok(())) => LinuxRestoration::Finished(Ok(())),
            (Err(a), Ok(())) => LinuxRestoration::Finished(Err(a)),
            (Ok(()), Err(b)) => LinuxRestoration::Finished(Err(b)),
            (Err(a), Err(b)) => LinuxRestoration::BothFailed(a, b),
        },
        _ => stage,
    }
}

/// Starts restoring native decorations on a window that is `visible` or not.
pub fn begin_linux_restoration<E>(visible: bool) -> (r: LinuxRestoration<E>)
    ensures
        r == restoration_start::<E>(visible),
{
    if visible {
        LinuxRestoration::Unmapping
    } else {
        LinuxRestoration::Restoring
    }
}

/// Moves past the step of `stage`, which ended with `outcome`.
pub fn advance_linux_restoration<E>(stage: LinuxRestoration<E>, outcome: Result<(), E>) -> (r:
    LinuxRestoration<E>)
    requires
        restoration_pending(stage),
    ensures
        r == restoration_step(stage, outcome),
{
    match stage {
        LinuxRestoration::Unmapping => match outcome {
            Ok(()) => LinuxRestoration::RestoringUnmapped,
            Err(e) => LinuxRestoration::Finished(Err(e)),
        },
        LinuxRestoration::RestoringUnmapped => LinuxRestoration::Showing(outcome),
        LinuxRestoration::Restoring => LinuxRestoration::Finished(outcome),
        LinuxRestoration::Showing(restored) => match (restored, outcome) {
            (Ok(()), Ok(())) => LinuxRestoration::Finished(Ok(())),
            (Err(a), Ok(())) => LinuxRestoration::Finished(Err(a)),
            (Ok(()), Err(b)) => LinuxRestoration::Finished(Err(b)),
            (Err(a), Err(b)) => LinuxRestoration::BothFailed(a, b),
        },
        LinuxRestoration::Finished(result) => LinuxRestoration::Finished(result),
        LinuxRestoration::BothFailed(a, b) => LinuxRestoration::BothFailed(a, b),
    }
}

/// A visible window is unmapped, then restored, then shown, and nothing
/// follows showing; a failed unmap ends the restoration with its error. A
/// window that is not visible is restored and nothing else.
pub proof fn lemma_restoration_order<E>(restored: Result<(), E>, shown: Result<(), E>, unmap_error: E)
    ensures
        restoration_start::<E>(true) == LinuxRestoration::<E>::Unmapping,
        restoration_step(LinuxRestoration::<E>::Unmapping, Ok(()))
            == LinuxRestoration::<E>::RestoringUnmapped,
        restoration_step(LinuxRestoration::<E>::Unmapping, Err(unmap_error))
            == LinuxRestoration::<E>::Finished(Err(unmap_error)),
        restoration_step(LinuxRestoration::<E>::RestoringUnmapped, restored)
            == LinuxRestoration::<E>::Showing(restored),
        !restoration_pending(restoration_step(LinuxRestoration::<E>::Showing(restored), shown)),
        restoration_start::<E>(false) == LinuxRestoration::<E>::Restoring,
        restoration_step(LinuxRestoration::<E>::Restoring, restored)
            == LinuxRestoration::<E>::Finished(restored),
{
}

pub open spec fn rollback_failure_suffix() -> Seq<char> {
    "; native geometry rollback failed: "@
}

/// Where a native mutation stands: it is applied; only a failed apply is
/// rolled back, and the failure is reported with the rollback's own
/// failure appended.
#[derive(Debug)]
pub enum NativeMutation {
    /// Apply the mutation.
    Applying,
    /// Roll the mutation back after it failed with this error.
    RollingBack(String),
    /// Done, with this outcome.
    Finished(Result<(), String>),
}

/// Whether the mutation at `stage` has moved to `next` after its step ended
/// with `outcome`.
pub open spec fn mutation_advanced(
    stage: NativeMutation,
    outcome: Result<(), String>,
    next: NativeMutation,
) -> bool {
    match stage {
        NativeMutation::Applying => match outcome {
            Ok(()) => next == NativeMutation::Finished(Ok(())),
            Err(failure) => next == NativeMutation::RollingBack(failure),
        },
        NativeMutation::RollingBack(failure) => match outcome {
            Ok(()) => next == NativeMutation::Finished(Err(failure)),
            Err(rollback_error) => next matches NativeMutation::Finished(Err(e)) && e@ == failure@
                + rollback_failure_suffix() + rollback_error@,
        },
        NativeMutation::Finished(_) => next == stage,
    }
}

/// Starts a native mutation.
pub fn begin_native_mutation() -> (r: NativeMutation)
    ensures
        r == NativeMutation::Applying,
{
    NativeMutation::Applying
}

/// Moves past the step of `stage`, which ended with `outcome`.
pub fn advance_native_mutation(stage: NativeMutation, outcome: Result<(), String>) -> (r:
    NativeMutation)
    requires
        !(stage is Finished),
    ensures
        mutation_advanced(stage, outcome, r),
{
    match stage {
        NativeMutation::Applying => match outcome {
            Ok(()) => NativeMutation::Finished(Ok(())),
            Err(failure) => NativeMutation::RollingBack(failure),
        },
        NativeMutation::RollingBack(failure) => match outcome {
            Ok(()) => NativeMutation::Finished(Err(failure)),
            Err(rollback_error) => {
                proof {
                    reveal_strlit("; native geometry rollback failed: ");
                }
                let mut combined = failure;
                combined.append("; native geometry rollback failed: ");
                combined.append(rollback_error.as_str());
                NativeMutation::Finished(Err(combined))
            },
        },
        NativeMutation::Finished(result) => NativeMutation::Finished(result),
    }
}

/// A mutation that applies is finished at once and never rolled back; a
/// rollback follows only a failed apply, and nothing follows the rollback.
pub proof fn lemma_only_failed_mutations_roll_back(
    stage: NativeMutation,
    outcome: Result<(), String>,
    next: NativeMutation,
)
    requires
        mutation_advanced(stage, outcome, next),
    ensures
        stage is Applying && outcome is Ok ==> next == NativeMutation::Finished(Ok(())),
        next is RollingBack ==> stage is Applying && outcome is Err,
        stage is RollingBack ==> next is Finished && next->Finished_0 is Err,
{
}

pub open spec fn applying_message() -> Seq<char> {
    "decoration native activation is already in progress"@
}

pub open spec fn stale_readiness_message() -> Seq<char> {
    "stale decoration readiness acknowledgement"@
}

pub open spec fn apply_and_rollback_failed(apply_error: Seq<char>, rollback_error: Seq<char>) -> Seq<
    char,
> {
    "native decoration activation failed: "@ + apply_error + "; rollback failed: "@ + rollback_error
}

pub open spec fn superseded_message() -> Seq<char> {
    "decoration activation was superseded before commit"@
}

pub open spec fn superseded_rollback_failed(rollback_error: Seq<char>) -> Seq<char> {
    "decoration activation was superseded and rollback failed: "@ + rollback_error
}

/// Why an applied activation is being rolled back.
#[derive(Debug)]
pub enum RollbackCause {
    /// Applying failed with this error.
    ApplyFailed(String),
    /// The lifecycle refused the commit: the target was superseded.
    Superseded,
}

/// Where applying native decorations for an acknowledged target stands.
/// Each lifecycle step is its own call, so the native work may re-enter the
/// lifecycle between them. Each pending stage names the step to run next;
/// the caller runs it and hands what it answered to
/// `advance_native_activation`.
#[derive(Debug)]
pub enum NativeActivation {
    /// Ask the lifecycle whether to apply (`begin_native_apply`).
    Deciding,
    /// Apply the native decorations.
    Applying,
    /// Commit the applied target (`commit_native_apply`).
    Committing,
    /// Roll the native decorations back.
    RollingBack(RollbackCause),
    /// Record the failure in the lifecycle (`fail_native_apply`), then
    /// report this error.
    RecordingFailure(String),
    /// Done, with this outcome.
    Finished(Result<(), String>),
}

/// What the step of a stage answered.
#[derive(Debug)]
pub enum ActivationEvent {
    Decided(ReadinessDecision),
    Applied(Result<(), String>),
    Committed(bool),
    RolledBack(Result<(), String>),
    Recorded,
}

/// Whether `event` answers the step of `stage`.
pub open spec fn activation_event_fits(stage: NativeActivation, event: ActivationEvent) -> bool {
    match stage {
        NativeActivation::Deciding => event is Decided,
        NativeActivation::Applying => event is Applied,
        NativeActivation::Committing => event is Committed,
        NativeActivation::RollingBack(_) => event is RolledBack,
        NativeActivation::RecordingFailure(_) => event is Recorded,
        NativeActivation::Finished(_) => false,
    }
}

/// Whether the activation at `stage` has moved to `next` after its step
/// answered `event`: only `Apply` goes on to apply; a failed apply or a
/// refused commit is rolled back and then recorded as failed; a commit
/// ends the activation.
pub open spec fn activation_advanced(
    stage: NativeActivation,
    event: ActivationEvent,
    next: NativeActivation,
) -> bool {
    match (stage, event) {
        (NativeActivation::Deciding, ActivationEvent::Decided(decision)) => match decision {
            ReadinessDecision::AlreadyActive => next == NativeActivation::Finished(Ok(())),
            ReadinessDecision::AlreadyApplying => next matches NativeActivation::Finished(Err(e))
                && e@ == applying_message(),
            ReadinessDecision::Stale => next matches NativeActivation::Finished(Err(e)) && e@
                == stale_readiness_message(),
            ReadinessDecision::Apply => next == NativeActivation::Applying,
        },
        (NativeActivation::Applying, ActivationEvent::Applied(applied)) => match applied {
            Ok(()) => next == NativeActivation::Committing,
            Err(e) => next == NativeActivation::RollingBack(RollbackCause::ApplyFailed(e)),
        },
        (NativeActivation::Committing, ActivationEvent::Committed(committed)) => if committed {
            next == NativeActivation::Finished(Ok(()))
        } else {
            next == NativeActivation::RollingBack(RollbackCause::Superseded)
        },
        (NativeActivation::RollingBack(cause), ActivationEvent::RolledBack(rolled_back)) => match (
            cause,
            rolled_back,
        ) {
            (RollbackCause::ApplyFailed(e), Ok(())) => next == NativeActivation::RecordingFailure(e),
            (RollbackCause::ApplyFailed(e), Err(r)) => next matches NativeActivation::RecordingFailure(
                m,
            ) && m@ == apply_and_rollback_failed(e@, r@),
            (RollbackCause::Superseded, Ok(())) => next matches NativeActivation::RecordingFailure(m)
                && m@ == superseded_message(),
            (RollbackCause::Superseded, Err(r)) => next matches NativeActivation::RecordingFailure(m)
                && m@ == superseded_rollback_failed(r@),
        },
        (NativeActivation::RecordingFailure(m), ActivationEvent::Recorded) => next
            == NativeActivation::Finished(Err(m)),
        _ => false,
    }
}

/// Starts applying native decorations for an acknowledged target.
pub fn begin_native_activation() -> (r: NativeActivation)
    ensures
        r == NativeActivation::Deciding,
{
    NativeActivation::Deciding
}

/// Moves past the step of `stage`, which answered `event`.
pub fn advance_native_activation(stage: NativeActivation, event: ActivationEvent) -> (r:
    NativeActivation)
    requires
        activation_event_fits(stage, event),
    ensures
        activation_advanced(stage, event, r),
{
    match (stage, event) {
        (NativeActivation::Deciding, ActivationEvent::Decided(decision)) => match decision {
            ReadinessDecision::AlreadyActive => NativeActivation::Finished(Ok(())),
            ReadinessDecision::AlreadyApplying => {
                proof {
                    reveal_strlit("decoration native activation is already in progress");
                }
                NativeActivation::Finished(
                    Err(String::from_str("decoration native activation is already in progress")),
                )
            },
            ReadinessDecision::Stale => {
                proof {
                    reveal_strlit("stale decoration readiness acknowledgement");
                }
                NativeActivation::Finished(
                    Err(String::from_str("stale decoration readiness acknowledgement")),
                )
            },
            ReadinessDecision::Apply => NativeActivation::Applying,
        },
        (NativeActivation::Applying, ActivationEvent::Applied(applied)) => match applied {
            Ok(()) => NativeActivation::Committing,
            Err(e) => NativeActivation::RollingBack(RollbackCause::ApplyFailed(e)),
        },
        (NativeActivation::Committing, ActivationEvent::Committed(committed)) => if committed {
            NativeActivation::Finished(Ok(()))
        } else {
            NativeActivation::RollingBack(RollbackCause::Superseded)
        },
        (NativeActivation::RollingBack(cause), ActivationEvent::RolledBack(rolled_back)) => match (
            cause,
            rolled_back,
        ) {
            (RollbackCause::ApplyFailed(e), Ok(())) => NativeActivation::RecordingFailure(e),
            (RollbackCause::ApplyFailed(e), Err(r)) => {
                proof {
                    reveal_strlit("native decoration activation failed: ");
                    reveal_strlit("; rollback failed: ");
                }
                let mut message = String::from_str("native decoration activation failed: ");
                message.append(e.as_str());
                message.append("; rollback failed: ");
                message.append(r.as_str());
                NativeActivation::RecordingFailure(message)
            },
            (RollbackCause::Superseded, Ok(())) => {
                proof {
                    reveal_strlit("decoration activation was superseded before commit");
                }
                NativeActivation::RecordingFailure(
                    String::from_str("decoration activation was superseded before commit"),
                )
            },
            (RollbackCause::Superseded, Err(r)) => {
                proof {
                    reveal_strlit("decoration activation was superseded and rollback failed: ");
                }
                let mut message = String::from_str(
                    "decoration activation was superseded and rollback failed: ",
                );
                message.append(r.as_str());
                NativeActivation::RecordingFailure(message)
            },
        },
        (NativeActivation::RecordingFailure(m), ActivationEvent::Recorded) => NativeActivation::Finished(
            Err(m),
        ),
        (stage, _) => stage,
    }
}

/// Native decorations are applied only when the lifecycle answers `Apply`;
/// every other answer ends the activation without touching the window.
pub proof fn lemma_apply_only_when_told(decision: ReadinessDecision, next: NativeActivation)
    requires
        activation_advanced(NativeActivation::Deciding, ActivationEvent::Decided(decision), next),
    ensures
        next is Applying <==> decision is Apply,
        !(decision is Apply) ==> next is Finished,
{
}

/// A committed activation ends successfully and is never rolled back; a
/// rollback follows only a failed apply or a refused commit.
pub proof fn lemma_rollback_only_when_not_committed(
    stage: NativeActivation,
    event: ActivationEvent,
    next: NativeActivation,
)
    requires
        activation_advanced(stage, event, next),
    ensures
        stage is Committing && event == ActivationEvent::Committed(true) ==> next
            == NativeActivation::Finished(Ok(())),
        next is RollingBack ==> (stage is Applying && event matches ActivationEvent::Applied(Err(_)))
            || (stage is Committing && event == ActivationEvent::Committed(false)),
{
}

/// Once native decorations were applied, an activation can only fail by
/// rolling back and then recording the failure in the lifecycle: every
/// rollback is followed by the recording, and a failure is reported only
/// from the recording (or straight from the lifecycle's first answer, before
/// anything was applied).
pub proof fn lemma_failures_are_recorded(
    stage: NativeActivation,
    event: ActivationEvent,
    next: NativeActivation,
)
    requires
        activation_advanced(stage, event, next),
    ensures
        stage is RollingBack ==> next is RecordingFailure,
        next matches NativeActivation::Finished(Err(_)) ==> stage is Deciding
            || stage is RecordingFailure,
{
}

/// Reports two outcomes of independent cleanup steps as one: the failure
/// of either, or both failures joined by `join`.
pub fn first_failure<E, Join>(first: Result<(), E>, second: Result<(), E>, join: Join) -> (r: Result<
    (),
    E,
>) where Join: FnOnce(E, E) -> E
    requires
        forall|a: E, b: E| call_requires(join, (a, b)),
    ensures
        match (first, second) {
            (Ok(()), Ok(())) => r is Ok,
            (Err(_), Ok(())) => r == first,
            (Ok(()), Err(_)) => r == second,
            (Err(a), Err(b)) => r matches Err(c) && call_ensures(join, (a, b), c),
        },
{
    match (first, second) {
        (Ok(()), Ok(())) => Ok(()),
        (Err(a), Ok(())) => Err(a),
        (Ok(()), Err(b)) => Err(b),
        (Err(a), Err(b)) => Err(join(a, b)),
    }
}

} // verus!
