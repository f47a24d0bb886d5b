//! Properties of the activation lifecycle that span several operations.

use crate::lifecycle::{
    activation_step, cancellation_step, destroy_step, entry_of, entry_target, finish_destroy_step,
    fresh_document, invalidation_step, phase_document, preparation_step, readiness_step,
    transition_step, view_wf, ActivationDecision, DocumentToken, Entry, FrontendTarget, Generation,
    LifecycleError, LifecycleView, Phase, ReadinessDecision, Stage,
};
use vstd::prelude::*;

verus! {

/// Whether `target` is addressed by some entry of `v`.
pub open spec fn target_in_use(v: LifecycleView, target: FrontendTarget) -> bool {
    exists|l: Seq<char>| #[trigger]
        v.entries.dom().contains(l) && entry_target(v.entries[l]) == Some(target)
}

/// Every target handed out for preparation (by an activation, a navigation
/// or a finished page load) is new: nonzero, one past the last issued
/// document, and addressed by no entry of the state it was issued from.
pub proof fn lemma_prepared_targets_are_fresh(v: LifecycleView, label: Seq<char>)
    requires
        view_wf(v),
        v.next_document < u64::MAX,
    ensures
        activation_step(v, label).1 matches Ok(ActivationDecision::Reserved(t)) ==> {
            &&& t.window.value() != 0
            &&& t.document.value() == v.next_document + 1
            &&& !target_in_use(v, t)
        },
        invalidation_step(v, label).1 matches Some(t) ==> {
            &&& t.window.value() != 0
            &&& t.document.value() == v.next_document + 1
            &&& !target_in_use(v, t)
        },
        entry_of(v, label) matches Some(e) && (e.phase is Active || e.phase is Failed) ==> (
        preparation_step(v, label).1 matches Some(t) && t.document.value() == v.next_document + 1
            && !target_in_use(v, t)),
{
}

/// No operation lowers the last issued generation or document, so every
/// value handed out (one past the last issued one) is never handed out
/// again.
pub proof fn lemma_issued_values_never_decrease(
    v: LifecycleView,
    label: Seq<char>,
    target: FrontendTarget,
    stage: Stage,
    next: Phase,
    generation: Generation,
)
    requires
        view_wf(v),
        v.next_document < u64::MAX,
    ensures
        activation_step(v, label).0.next_document > v.next_document || activation_step(
            v,
            label,
        ).0 == v,
        activation_step(v, label).0.next_generation >= v.next_generation,
        invalidation_step(v, label).0.next_document >= v.next_document,
        invalidation_step(v, label).0.next_generation == v.next_generation,
        preparation_step(v, label).0.next_document >= v.next_document,
        preparation_step(v, label).0.next_generation == v.next_generation,
        readiness_step(v, label, target).0.next_document == v.next_document,
        transition_step(v, label, target, stage, next).0.next_document == v.next_document,
        cancellation_step(v, label).0.next_document == v.next_document,
        destroy_step(v, label, generation).0.next_document == v.next_document,
        finish_destroy_step(v, label, generation).0.next_document == v.next_document,
        readiness_step(v, label, target).0.next_generation == v.next_generation,
        transition_step(v, label, target, stage, next).0.next_generation == v.next_generation,
        cancellation_step(v, label).0.next_generation == v.next_generation,
        destroy_step(v, label, generation).0.next_generation == v.next_generation,
        finish_destroy_step(v, label, generation).0.next_generation == v.next_generation,
{
}

/// An operation on one label never changes the entry of another label.
pub proof fn lemma_labels_are_isolated(
    v: LifecycleView,
    label: Seq<char>,
    other: Seq<char>,
    target: FrontendTarget,
    generation: Generation,
)
    requires
        label != other,
    ensures
        entry_of(activation_step(v, label).0, other) == entry_of(v, other),
        entry_of(invalidation_step(v, label).0, other) == entry_of(v, other),
        entry_of(preparation_step(v, label).0, other) == entry_of(v, other),
        entry_of(readiness_step(v, label, target).0, other) == entry_of(v, other),
        entry_of(
            transition_step(v, label, target, Stage::Preparing, Phase::Failed(target.document)).0,
            other,
        ) == entry_of(v, other),
        entry_of(
            transition_step(v, label, target, Stage::Applying, Phase::Active(target.document)).0,
            other,
        ) == entry_of(v, other),
        entry_of(
            transition_step(v, label, target, Stage::Applying, Phase::Failed(target.document)).0,
            other,
        ) == entry_of(v, other),
        entry_of(cancellation_step(v, label).0, other) == entry_of(v, other),
        entry_of(destroy_step(v, label, generation).0, other) == entry_of(v, other),
        entry_of(finish_destroy_step(v, label, generation).0, other) == entry_of(v, other),
{
}

/// A message whose target is not the current target of its label changes
/// nothing: readiness is stale and guarded transitions are refused.
pub proof fn lemma_stale_targets_are_inert(
    v: LifecycleView,
    label: Seq<char>,
    target: FrontendTarget,
    stage: Stage,
    next: Phase,
)
    requires
        !(entry_of(v, label) matches Some(e) && entry_target(e) == Some(target)),
    ensures
        readiness_step(v, label, target) == (v, ReadinessDecision::Stale),
        transition_step(v, label, target, stage, next) == (v, false),
{
}

/// Activating a window whose decorations are active changes nothing and
/// answers with the active target.
pub proof fn lemma_activation_is_idempotent(v: LifecycleView, label: Seq<char>)
    requires
        entry_of(v, label) matches Some(e) && e.phase is Active,
    ensures
        activation_step(v, label).0 == v,
        activation_step(v, label).1 == Ok::<ActivationDecision, LifecycleError>(
            ActivationDecision::AlreadyActive(entry_target(v.entries[label])->0),
        ),
        activation_step(activation_step(v, label).0, label) == activation_step(v, label),
{
}

/// After a navigation invalidates the document of a window, readiness for
/// the target it addressed before is stale.
pub proof fn lemma_navigation_stales_previous_target(v: LifecycleView, label: Seq<char>)
    requires
        view_wf(v),
        v.next_document < u64::MAX,
        entry_of(v, label) matches Some(e) && entry_target(e) is Some,
        invalidation_step(v, label).1 is Some,
    ensures
        readiness_step(
            invalidation_step(v, label).0,
            label,
            entry_target(v.entries[label])->0,
        ).1 == ReadinessDecision::Stale,
{
    let e = v.entries[label];
    let d = phase_document(e.phase)->0;
    assert(1 <= d.value() <= v.next_document);
}

/// Once applying native decorations for a target has failed, a late
/// success for the same target cannot commit it.
pub proof fn lemma_failed_apply_cannot_commit(
    v: LifecycleView,
    label: Seq<char>,
    target: FrontendTarget,
)
    requires
        transition_step(v, label, target, Stage::Applying, Phase::Failed(target.document)).1,
    ensures
        ({
            let failed = transition_step(
                v,
                label,
                target,
                Stage::Applying,
                Phase::Failed(target.document),
            ).0;
            transition_step(failed, label, target, Stage::Applying, Phase::Active(target.document))
                == (failed, false)
        }),
{
}

/// After a failure (of preparation or of native application), activating
/// again reserves a fresh document of the same window generation.
pub proof fn lemma_failure_is_retryable(
    v: LifecycleView,
    label: Seq<char>,
    target: FrontendTarget,
    stage: Stage,
)
    requires
        view_wf(v),
        v.next_document < u64::MAX,
        transition_step(v, label, target, stage, Phase::Failed(target.document)).1,
    ensures
        ({
            let failed = transition_step(v, label, target, stage, Phase::Failed(target.document)).0;
            activation_step(failed, label).1 == Ok::<ActivationDecision, LifecycleError>(
                ActivationDecision::Reserved(
                    FrontendTarget {
                        window: target.window,
                        document: DocumentToken((v.next_document + 1) as u64),
                    },
                ),
            )
        }),
{
}

/// Restoring native decorations is sticky: navigation and page loads leave
/// the window alone, every readiness acknowledgement is stale, and only a
/// new activation, which reserves a fresh document of the same window
/// generation, brings custom decorations back.
pub proof fn lemma_native_restore_is_sticky(
    v: LifecycleView,
    label: Seq<char>,
    target: FrontendTarget,
)
    requires
        view_wf(v),
        v.next_document < u64::MAX,
        cancellation_step(v, label).1 is Some,
    ensures
        ({
            let restored = cancellation_step(v, label).0;
            &&& invalidation_step(restored, label) == (restored, None::<FrontendTarget>)
            &&& preparation_step(restored, label) == (restored, None::<FrontendTarget>)
            &&& readiness_step(restored, label, target).1 == ReadinessDecision::Stale
            &&& cancellation_step(restored, label) == (restored, cancellation_step(v, label).1)
            &&& activation_step(restored, label).1 == Ok::<ActivationDecision, LifecycleError>(
                ActivationDecision::Reserved(
                    fresh_document(restored, v.entries[label].generation),
                ),
            )
        }),
{
    let restored = cancellation_step(v, label).0;
    let e = restored.entries[label];
    assert(restored.entries.insert(label, Entry { generation: e.generation, phase: e.phase })
        =~= restored.entries);
}

/// The teardown of a window generation cannot remove a replacement: once a
/// departing window's label is activated again, the new generation differs
/// and finishing the old teardown changes nothing.
pub proof fn lemma_stale_teardown_keeps_replacement(
    v: LifecycleView,
    label: Seq<char>,
    generation: Generation,
)
    requires
        view_wf(v),
        v.next_document < u64::MAX,
        destroy_step(v, label, generation).1,
    ensures
        ({
            let departing = destroy_step(v, label, generation).0;
            let (replaced, decision) = activation_step(departing, label);
            &&& decision matches Ok(ActivationDecision::Reserved(t)) && t.window != generation
            &&& finish_destroy_step(replaced, label, generation) == (replaced, false)
        }),
{
}


/// A navigation re-prepares every window except a natively restored or
/// departing one (a failed or active one included): it answers a fresh
/// document of the same window generation, one past the last issued
/// document, and the entry then prepares exactly that document; nothing
/// else changes.
pub proof fn lemma_navigation_prepares_fresh_document(v: LifecycleView, label: Seq<char>)
    requires
        v.next_document < u64::MAX,
        v.entries.dom().contains(label),
        !(v.entries[label].phase is Native),
        !(v.entries[label].phase is Destroying),
    ensures
        ({
            let (next, answer) = invalidation_step(v, label);
            let fresh = DocumentToken((v.next_document + 1) as u64);
            &&& answer == Some(
                FrontendTarget { window: v.entries[label].generation, document: fresh },
            )
            &&& next.entries.dom().contains(label)
            &&& next.entries[label] == (Entry {
                generation: v.entries[label].generation,
                phase: Phase::Preparing(fresh),
            })
            &&& next.next_document == v.next_document + 1
            &&& next.next_generation == v.next_generation
            &&& forall|other: Seq<char>|
                other != label ==> #[trigger] next.entries.contains_key(other)
                    == v.entries.contains_key(other) && (v.entries.contains_key(other)
                    ==> next.entries[other] == v.entries[other])
        }),
{
}


/// An activation request for a window with no entry, or whose entry is
/// departing, prepares a fresh window generation with a fresh document;
/// one whose decorations failed or were natively restored prepares a fresh
/// document of the same generation. Either way the entry then prepares
/// exactly the reserved target.
pub proof fn lemma_activation_reserves_fresh_target(v: LifecycleView, label: Seq<char>)
    requires
        v.next_document < u64::MAX,
        v.next_generation < u64::MAX,
        !v.entries.dom().contains(label) || v.entries[label].phase is Destroying
            || v.entries[label].phase is Failed || v.entries[label].phase is Native,
    ensures
        ({
            let (next, answer) = activation_step(v, label);
            let fresh = DocumentToken((v.next_document + 1) as u64);
            let window = if !v.entries.dom().contains(label) || v.entries[label].phase is Destroying {
                Generation((v.next_generation + 1) as u64)
            } else {
                v.entries[label].generation
            };
            &&& answer == Ok::<ActivationDecision, LifecycleError>(
                ActivationDecision::Reserved(FrontendTarget { window, document: fresh }),
            )
            &&& next.entries.dom().contains(label)
            &&& next.entries[label] == (Entry { generation: window, phase: Phase::Preparing(fresh) })
            &&& next.next_document == v.next_document + 1
        }),
{
}

/// A finished page load re-prepares an active or failed window with a fresh
/// document of its generation, keeps an in-flight target, and leaves a
/// natively restored, departing or unknown window alone.
pub proof fn lemma_page_load_prepares_document(v: LifecycleView, label: Seq<char>)
    requires
        v.next_document < u64::MAX,
    ensures
        ({
            let (next, answer) = preparation_step(v, label);
            let fresh = DocumentToken((v.next_document + 1) as u64);
            &&& v.entries.dom().contains(label) && (v.entries[label].phase is Active
                || v.entries[label].phase is Failed) ==> answer == Some(
                FrontendTarget { window: v.entries[label].generation, document: fresh },
            ) && next.entries[label] == (Entry {
                generation: v.entries[label].generation,
                phase: Phase::Preparing(fresh),
            })
            &&& v.entries.dom().contains(label) && (v.entries[label].phase is Preparing
                || v.entries[label].phase is Applying) ==> answer == entry_target(
                v.entries[label],
            ) && next == v
            &&& !v.entries.dom().contains(label) || v.entries[label].phase is Native
                || v.entries[label].phase is Destroying ==> answer is None && next == v
        }),
{
}

} // verus!
