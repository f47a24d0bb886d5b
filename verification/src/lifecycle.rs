//! The per-window activation lifecycle of custom decorations.
//!
//! Each native window (by label) has one entry: a window generation that
//! names the native window instance, and a phase that names the frontend
//! document the decoration runtime was prepared for. Every frontend message
//! carries a [`FrontendTarget`]; a message whose target is not the entry's
//! current one is stale and changes nothing.

use crate::text::str_eq;
use crate::tokens::{decimal, decimal_string};
use vstd::prelude::*;

verus! {

/// Identity of one native window instance behind a label.
#[derive(Clone, Copy, Debug, Eq, Hash, PartialEq, Structural)]
pub struct Generation(pub u64);

impl Generation {
    pub open spec fn value(self) -> u64 {
        self.0
    }

    /// The raw value of the generation.
    pub fn get(self) -> (r: u64)
        ensures
            r == self.value(),
    {
        self.0
    }

    /// The generation with the raw value `value`.
    pub fn from_raw(value: u64) -> (r: Self)
        ensures
            r.value() == value,
    {
        Generation(value)
    }
}

/// Identity of one frontend document loaded into a window generation.
#[derive(Clone, Copy, Debug, Eq, Hash, PartialEq, Structural)]
pub struct DocumentToken(pub u64);

impl DocumentToken {
    pub open spec fn value(self) -> u64 {
        self.0
    }

    /// The raw value of the token.
    pub fn get(self) -> (r: u64)
        ensures
            r == self.value(),
    {
        self.0
    }

    /// The token with the raw value `value`.
    pub fn from_raw(value: u64) -> (r: Self)
        ensures
            r.value() == value,
    {
        DocumentToken(value)
    }
}

/// The exact frontend installation a message is meant for.
#[derive(Clone, Copy, Debug, Eq, PartialEq, Structural)]
pub struct FrontendTarget {
    pub window: Generation,
    pub document: DocumentToken,
}

impl FrontendTarget {
    /// The target named by two raw acknowledgement values; both must be
    /// nonzero, since zero is never issued.
    pub fn from_values(window: u64, document: u64) -> (r: Option<Self>)
        ensures
            r == (if window != 0 && document != 0 {
                Some(
                    FrontendTarget {
                        window: Generation(window),
                        document: DocumentToken(document),
                    },
                )
            } else {
                None
            }),
    {
        if window != 0 && document != 0 {
            Some(FrontendTarget { window: Generation(window), document: DocumentToken(document) })
        } else {
            None
        }
    }
}

/// Where a window's decoration stands.
#[derive(Clone, Copy, Debug, Eq, PartialEq, Structural)]
pub enum Phase {
    /// The frontend runtime for the document is being prepared.
    Preparing(DocumentToken),
    /// The frontend acknowledged; native decorations are being applied.
    Applying(DocumentToken),
    /// Custom decorations are in place for the document.
    Active(DocumentToken),
    /// Preparation or application failed; a retry may reserve again.
    Failed(DocumentToken),
    /// Native decorations were restored on request.
    Native(DocumentToken),
    /// The native window is being torn down.
    Destroying,
}

/// The lifecycle record of one label.
#[derive(Clone, Copy, Debug, Eq, PartialEq, Structural)]
pub struct Entry {
    pub generation: Generation,
    pub phase: Phase,
}

/// The document a phase refers to, if any.
pub open spec fn phase_document(phase: Phase) -> Option<DocumentToken> {
    match phase {
        Phase::Preparing(d) => Some(d),
        Phase::Applying(d) => Some(d),
        Phase::Active(d) => Some(d),
        Phase::Failed(d) => Some(d),
        Phase::Native(d) => Some(d),
        Phase::Destroying => None,
    }
}

/// The frontend target an entry currently addresses, if any.
pub open spec fn entry_target(entry: Entry) -> Option<FrontendTarget> {
    match phase_document(entry.phase) {
        Some(d) => Some(FrontendTarget { window: entry.generation, document: d }),
        None => None,
    }
}

impl Entry {
    /// The frontend target this entry currently addresses.
    pub fn target(self) -> (r: Option<FrontendTarget>)
        ensures
            r == entry_target(self),
    {
        let document = match self.phase {
            Phase::Preparing(document) => document,
            Phase::Applying(document) => document,
            Phase::Active(document) => document,
            Phase::Failed(document) => document,
            Phase::Native(document) => document,
            Phase::Destroying => {
                return None;
            },
        };
        Some(FrontendTarget { window: self.generation, document })
    }

    /// Whether `target` is the target this entry currently addresses.
    pub fn matches(self, target: FrontendTarget) -> (r: bool)
        ensures
            r == (entry_target(self) == Some(target)),
    {
        match self.target() {
            Some(current) => current == target,
            None => false,
        }
    }
}

/// Outcome of a request to activate custom decorations.
#[derive(Clone, Copy, Debug, Eq, PartialEq, Structural)]
pub enum ActivationDecision {
    /// Decorations are already active for this target; nothing to do.
    AlreadyActive(FrontendTarget),
    /// A fresh target was reserved and must be prepared.
    Reserved(FrontendTarget),
}

/// Why an activation request was refused.
#[derive(Clone, Copy, Debug, Eq, PartialEq, Structural)]
pub enum LifecycleError {
    /// Another activation of the same window is still in flight.
    ActivationInProgress(FrontendTarget),
}

impl LifecycleError {
    /// The human-readable description of the error.
    pub fn message(&self) -> (r: String)
        ensures
            match *self {
                LifecycleError::ActivationInProgress(t) => r@
                    == "decoration activation is already in progress for window generation "@
                    + decimal(t.window.0 as nat) + " and document "@ + decimal(
                    t.document.0 as nat,
                ),
            },
    {
        match self {
            LifecycleError::ActivationInProgress(target) => {
                let mut text = String::from_str(
                    "decoration activation is already in progress for window generation ",
                );
                let window = decimal_string(target.window.get());
                text.append(window.as_str());
                text.append(" and document ");
                let document = decimal_string(target.document.get());
                text.append(document.as_str());
                text
            },
        }
    }
}

/// Outcome of a frontend readiness acknowledgement.
#[derive(Clone, Copy, Debug, Eq, PartialEq, Structural)]
pub enum ReadinessDecision {
    /// Native decorations must now be applied.
    Apply,
    /// An application for this target is already running.
    AlreadyApplying,
    /// Decorations are already active for this target.
    AlreadyActive,
    /// The acknowledgement does not address the current target.
    Stale,
}

/// Which phase a guarded transition starts from.
#[derive(Clone, Copy, Debug, Eq, PartialEq, Structural)]
pub enum Stage {
    Preparing,
    Applying,
}

pub open spec fn stage_accepts(stage: Stage, phase: Phase) -> bool {
    match stage {
        Stage::Preparing => phase is Preparing,
        Stage::Applying => phase is Applying,
    }
}

/// The abstract state of a [`Lifecycle`]: the last issued generation and
/// document values and the entry of each label.
pub struct LifecycleView {
    pub next_generation: u64,
    pub next_document: u64,
    pub entries: Map<Seq<char>, Entry>,
}

/// The entry of `label`, if it has one.
pub open spec fn entry_of(v: LifecycleView, label: Seq<char>) -> Option<Entry> {
    if v.entries.dom().contains(label) {
        Some(v.entries[label])
    } else {
        None
    }
}

/// Every issued value is nonzero and no greater than the last issued one.
pub open spec fn view_wf(v: LifecycleView) -> bool {
    &&& v.next_generation <= v.next_document
    &&& v.entries.dom().finite()
    &&& forall|l: Seq<char>| #[trigger]
        v.entries.dom().contains(l) ==> {
            let e = v.entries[l];
            &&& 1 <= e.generation.value() <= v.next_generation
            &&& match phase_document(e.phase) {
                Some(d) => 1 <= d.value() <= v.next_document,
                None => true,
            }
        }
}

/// The state after `label` is set to prepare `target`, with `next_generation`
/// as the last issued generation and the target's document as the last
/// issued document.
pub open spec fn with_preparing(
    v: LifecycleView,
    label: Seq<char>,
    target: FrontendTarget,
    next_generation: u64,
) -> LifecycleView {
    LifecycleView {
        next_generation,
        next_document: target.document.value(),
        entries: v.entries.insert(
            label,
            Entry { generation: target.window, phase: Phase::Preparing(target.document) },
        ),
    }
}

/// The state with the phase of `label` replaced by `phase`.
pub open spec fn with_phase(v: LifecycleView, label: Seq<char>, phase: Phase) -> LifecycleView {
    LifecycleView {
        entries: v.entries.insert(label, Entry { generation: v.entries[label].generation, phase }),
        ..v
    }
}

/// A new document of `generation`, one past the last issued document.
pub open spec fn fresh_document(v: LifecycleView, generation: Generation) -> FrontendTarget {
    FrontendTarget {
        window: generation,
        document: DocumentToken((v.next_document + 1) as u64),
    }
}

/// A new window generation and document, one past the last issued ones.
pub open spec fn fresh_window(v: LifecycleView) -> FrontendTarget {
    FrontendTarget {
        window: Generation((v.next_generation + 1) as u64),
        document: DocumentToken((v.next_document + 1) as u64),
    }
}

/// An activation request for `label`: an active entry answers with its
/// target, an in-flight one refuses, a failed or natively restored one is
/// reserved a fresh document of its generation, and a missing or departing
/// one is reserved a fresh window generation.
pub open spec fn activation_step(v: LifecycleView, label: Seq<char>) -> (
    LifecycleView,
    Result<ActivationDecision, LifecycleError>,
) {
    match entry_of(v, label) {
        Some(e) => match e.phase {
            Phase::Active(d) => (
                v,
                Ok(
                    ActivationDecision::AlreadyActive(
                        FrontendTarget { window: e.generation, document: d },
                    ),
                ),
            ),
            Phase::Preparing(d) => (
                v,
                Err(
                    LifecycleError::ActivationInProgress(
                        FrontendTarget { window: e.generation, document: d },
                    ),
                ),
            ),
            Phase::Applying(d) => (
                v,
                Err(
                    LifecycleError::ActivationInProgress(
                        FrontendTarget { window: e.generation, document: d },
                    ),
                ),
            ),
            Phase::Destroying => (
                with_preparing(v, label, fresh_window(v), (v.next_generation + 1) as u64),
                Ok(ActivationDecision::Reserved(fresh_window(v))),
            ),
            _ => (
                with_preparing(v, label, fresh_document(v, e.generation), v.next_generation),
                Ok(ActivationDecision::Reserved(fresh_document(v, e.generation))),
            ),
        },
        None => (
            with_preparing(v, label, fresh_window(v), (v.next_generation + 1) as u64),
            Ok(ActivationDecision::Reserved(fresh_window(v))),
        ),
    }
}

/// The requests that may issue a fresh document.
#[derive(Clone, Copy, Debug, Eq, PartialEq, Structural)]
pub enum IssueRequest {
    /// An activation request (`begin_activation`).
    Activation,
    /// A navigation start (`invalidate_document`).
    Navigation,
    /// A finished page load (`prepare_document`).
    PageLoad,
}

/// Whether handling `request` for `label` issues a fresh document (and so
/// advances the counter of issued documents).
pub open spec fn issues_document(v: LifecycleView, label: Seq<char>, request: IssueRequest) -> bool {
    match request {
        IssueRequest::Activation => match entry_of(v, label) {
            Some(e) => e.phase is Failed || e.phase is Native || e.phase is Destroying,
            None => true,
        },
        IssueRequest::Navigation => match entry_of(v, label) {
            Some(e) => !(e.phase is Native || e.phase is Destroying),
            None => false,
        },
        IssueRequest::PageLoad => match entry_of(v, label) {
            Some(e) => e.phase is Active || e.phase is Failed,
            None => false,
        },
    }
}

/// A navigation start in `label`: unless the entry is natively restored or
/// departing, the old document is invalidated and a fresh one is prepared.
pub open spec fn invalidation_step(v: LifecycleView, label: Seq<char>) -> (
    LifecycleView,
    Option<FrontendTarget>,
) {
    match entry_of(v, label) {
        Some(e) => if e.phase is Native || e.phase is Destroying {
            (v, None)
        } else {
            (
                with_preparing(v, label, fresh_document(v, e.generation), v.next_generation),
                Some(fresh_document(v, e.generation)),
            )
        },
        None => (v, None),
    }
}

/// A finished page load in `label`: an in-flight target is reused, an
/// active or failed entry is prepared again with a fresh document, and a
/// natively restored or departing one is left alone.
pub open spec fn preparation_step(v: LifecycleView, label: Seq<char>) -> (
    LifecycleView,
    Option<FrontendTarget>,
) {
    match entry_of(v, label) {
        Some(e) => match e.phase {
            Phase::Preparing(_) => (v, entry_target(e)),
            Phase::Applying(_) => (v, entry_target(e)),
            Phase::Active(_) => (
                with_preparing(v, label, fresh_document(v, e.generation), v.next_generation),
                Some(fresh_document(v, e.generation)),
            ),
            Phase::Failed(_) => (
                with_preparing(v, label, fresh_document(v, e.generation), v.next_generation),
                Some(fresh_document(v, e.generation)),
            ),
            _ => (v, None),
        },
        None => (v, None),
    }
}

/// A guarded transition: if `label` addresses exactly `target` and is in
/// `stage`, its phase becomes `next`.
pub open spec fn transition_step(
    v: LifecycleView,
    label: Seq<char>,
    target: FrontendTarget,
    stage: Stage,
    next: Phase,
) -> (LifecycleView, bool) {
    match entry_of(v, label) {
        Some(e) => if entry_target(e) == Some(target) && stage_accepts(stage, e.phase) {
            (with_phase(v, label, next), true)
        } else {
            (v, false)
        },
        None => (v, false),
    }
}

/// A readiness acknowledgement for `target`.
pub open spec fn readiness_step(v: LifecycleView, label: Seq<char>, target: FrontendTarget) -> (
    LifecycleView,
    ReadinessDecision,
) {
    match entry_of(v, label) {
        Some(e) => if entry_target(e) != Some(target) {
            (v, ReadinessDecision::Stale)
        } else {
            match e.phase {
                Phase::Preparing(_) => (
                    with_phase(v, label, Phase::Applying(target.document)),
                    ReadinessDecision::Apply,
                ),
                Phase::Applying(_) => (v, ReadinessDecision::AlreadyApplying),
                Phase::Active(_) => (v, ReadinessDecision::AlreadyActive),
                _ => (v, ReadinessDecision::Stale),
            }
        },
        None => (v, ReadinessDecision::Stale),
    }
}

/// A request to restore native decorations in `label`: any entry that is
/// not departing becomes natively restored, keeping its target.
pub open spec fn cancellation_step(v: LifecycleView, label: Seq<char>) -> (
    LifecycleView,
    Option<FrontendTarget>,
) {
    match entry_of(v, label) {
        Some(e) => match phase_document(e.phase) {
            Some(d) => (
                with_phase(v, label, Phase::Native(d)),
                Some(FrontendTarget { window: e.generation, document: d }),
            ),
            None => (v, None),
        },
        None => (v, None),
    }
}

/// The start of the teardown of window generation `generation` of `label`.
pub open spec fn destroy_step(v: LifecycleView, label: Seq<char>, generation: Generation) -> (
    LifecycleView,
    bool,
) {
    match entry_of(v, label) {
        Some(e) => if e.generation == generation && !(e.phase is Destroying) {
            (with_phase(v, label, Phase::Destroying), true)
        } else {
            (v, false)
        },
        None => (v, false),
    }
}

/// The end of the teardown: the entry goes away only if it is the departing
/// generation `generation`.
pub open spec fn finish_destroy_step(
    v: LifecycleView,
    label: Seq<char>,
    generation: Generation,
) -> (LifecycleView, bool) {
    match entry_of(v, label) {
        Some(e) => if e.generation == generation && e.phase is Destroying {
            (LifecycleView { entries: v.entries.remove(label), ..v }, true)
        } else {
            (v, false)
        },
        None => (v, false),
    }
}

/// The activation lifecycle of every decorated window.
pub struct Lifecycle {
    next_generation: u64,
    next_document: u64,
    entries: Vec<(String, Entry)>,
    model: Ghost<Map<Seq<char>, Entry>>,
}

impl View for Lifecycle {
    type V = LifecycleView;

    closed spec fn view(&self) -> LifecycleView {
        LifecycleView {
            next_generation: self.next_generation,
            next_document: self.next_document,
            entries: self.model@,
        }
    }
}

impl Lifecycle {
    /// The record vector holds each label once and agrees with the model.
    closed spec fn records_match(&self) -> bool {
        &&& self.model@.dom().finite()
        &&& forall|i: int, j: int|
            0 <= i < self.entries.len() && 0 <= j < self.entries.len() && i != j
                ==> #[trigger] self.entries@[i].0@ != #[trigger] self.entries@[j].0@
        &&& forall|i: int|
            0 <= i < self.entries.len() ==> self.model@.dom().contains(
                #[trigger] self.entries@[i].0@,
            ) && self.model@[self.entries@[i].0@] == self.entries@[i].1
        &&& forall|l: Seq<char>| #[trigger]
            self.model@.dom().contains(l) ==> exists|i: int|
                0 <= i < self.entries.len() && #[trigger] self.entries@[i].0@ == l
    }

    /// Well-formedness: the records agree with the abstract state, and every
    /// issued value is nonzero and no greater than the last issued one.
    pub closed spec fn wf(&self) -> bool {
        &&& self.records_match()
        &&& view_wf(self@)
    }

    /// The abstract state of a well-formed lifecycle is well-formed, so the
    /// laws stated over views apply to every lifecycle a caller holds.
    pub proof fn lemma_view_wf(&self)
        requires
            self.wf(),
        ensures
            view_wf(self@),
    {
    }

    /// An empty lifecycle that has issued nothing.
    pub fn new() -> (r: Self)
        ensures
            r.wf(),
            r@.next_generation == 0,
            r@.next_document == 0,
            r@.entries == Map::<Seq<char>, Entry>::empty(),
    {
        Lifecycle {
            next_generation: 0,
            next_document: 0,
            entries: Vec::new(),
            model: Ghost(Map::empty()),
        }
    }

    /// Whether another document can be issued without the counter of issued
    /// values overflowing.
    pub fn can_issue(&self) -> (r: bool)
        ensures
            r == (self@.next_document < u64::MAX),
    {
        self.next_document < u64::MAX
    }

    /// Whether handling `request` for `label` would issue a fresh document;
    /// when it would, the counter must not be exhausted (`can_issue`).
    pub fn issues_document(&self, label: &str, request: IssueRequest) -> (r: bool)
        requires
            self.wf(),
        ensures
            r == issues_document(self@, label@, request),
    {
        match self.lookup(label) {
            Some(entry) => match request {
                IssueRequest::Activation => matches!(
                    entry.phase,
                    Phase::Failed(_) | Phase::Native(_) | Phase::Destroying
                ),
                IssueRequest::Navigation => !matches!(entry.phase, Phase::Native(_) | Phase::Destroying),
                IssueRequest::PageLoad => matches!(entry.phase, Phase::Active(_) | Phase::Failed(_)),
            },
            None => match request {
                IssueRequest::Activation => true,
                _ => false,
            },
        }
    }

    /// The index of the record of `label`.
    fn find(&self, label: &str) -> (r: Option<usize>)
        requires
            self.records_match(),
        ensures
            match r {
                Some(i) => i < self.entries.len() && self.entries@[i as int].0@ == label@
                    && self.model@.dom().contains(label@),
                None => !self.model@.dom().contains(label@),
            },
    {
        let mut i: usize = 0;
        while i < self.entries.len()
            invariant
                self.records_match(),
                0 <= i <= self.entries.len(),
                forall|k: int| 0 <= k < i ==> #[trigger] self.entries@[k].0@ != label@,
            decreases self.entries.len() - i,
        {
            if str_eq(self.entries[i].0.as_str(), label) {
                return Some(i);
            }
            i = i + 1;
        }
        None
    }

    /// The entry of `label`.
    fn lookup(&self, label: &str) -> (r: Option<Entry>)
        requires
            self.records_match(),
        ensures
            r == entry_of(self@, label@),
    {
        match self.find(label) {
            Some(i) => Some(self.entries[i].1),
            None => None,
        }
    }

    /// Replaces the entry of `label` (or adds one) with `entry`.
    fn store(&mut self, label: &str, entry: Entry)
        requires
            old(self).records_match(),
        ensures
            final(self).records_match(),
            final(self).next_generation == old(self).next_generation,
            final(self).next_document == old(self).next_document,
            final(self).model@ == old(self).model@.insert(label@, entry),
    {
        let ghost old_model = self.model@;
        match self.find(label) {
            Some(i) => {
                let key = self.entries[i].0.clone();
                self.entries.set(i, (key, entry));
                self.model = Ghost(old_model.insert(label@, entry));
                assert forall|l: Seq<char>| #[trigger]
                    self.model@.dom().contains(l) implies exists|k: int|
                    0 <= k < self.entries.len() && #[trigger] self.entries@[k].0@ == l by {
                    if l != label@ {
                        let k = choose|k: int|
                            0 <= k < old(self).entries.len() && #[trigger] old(self).entries@[k].0@
                                == l;
                        assert(self.entries@[k].0@ == l);
                    } else {
                        assert(self.entries@[i as int].0@ == l);
                    }
                }
            },
            None => {
                let key = label.to_owned();
                self.entries.push((key, entry));
                self.model = Ghost(old_model.insert(label@, entry));
                let n = self.entries.len() - 1;
                assert forall|l: Seq<char>| #[trigger]
                    self.model@.dom().contains(l) implies exists|k: int|
                    0 <= k < self.entries.len() && #[trigger] self.entries@[k].0@ == l by {
                    if l != label@ {
                        let k = choose|k: int|
                            0 <= k < old(self).entries.len() && #[trigger] old(self).entries@[k].0@
                                == l;
                        assert(self.entries@[k].0@ == l);
                    } else {
                        assert(self.entries@[n as int].0@ == l);
                    }
                }
            },
        }
    }

    /// Removes the record at index `i`.
    fn remove_at(&mut self, i: usize)
        requires
            old(self).records_match(),
            i < old(self).entries.len(),
        ensures
            final(self).records_match(),
            final(self).next_generation == old(self).next_generation,
            final(self).next_document == old(self).next_document,
            final(self).model@ == old(self).model@.remove(old(self).entries@[i as int].0@),
    {
        let ghost old_model = self.model@;
        let ghost key = self.entries@[i as int].0@;
        let ghost old_entries = self.entries@;
        self.entries.remove(i);
        self.model = Ghost(old_model.remove(key));
        assert forall|k: int| 0 <= k < self.entries.len() implies #[trigger] self.entries@[k]
            == old_entries[if k < i { k } else { k + 1 }] by {}
        assert forall|l: Seq<char>| #[trigger]
            self.model@.dom().contains(l) implies exists|k: int|
            0 <= k < self.entries.len() && #[trigger] self.entries@[k].0@ == l by {
            let k = choose|k: int| 0 <= k < old_entries.len() && #[trigger] old_entries[k].0@ == l;
            assert(k != i);
            if k < i {
                assert(self.entries@[k].0@ == l);
            } else {
                assert(self.entries@[k - 1].0@ == l);
            }
        }
    }

    /// Sets `label` to prepare `target`.
    fn store_preparing(&mut self, label: &str, target: FrontendTarget)
        requires
            old(self).records_match(),
        ensures
            final(self).records_match(),
            final(self).next_generation == old(self).next_generation,
            final(self).next_document == old(self).next_document,
            final(self).model@ == old(self).model@.insert(
                label@,
                Entry { generation: target.window, phase: Phase::Preparing(target.document) },
            ),
    {
        self.store(label, Entry { generation: target.window, phase: Phase::Preparing(target.document) });
    }

    /// Issues a fresh window generation with a fresh document.
    fn allocate_window_target(&mut self) -> (r: FrontendTarget)
        requires
            old(self).next_document < u64::MAX,
            old(self).next_generation <= old(self).next_document,
        ensures
            r == fresh_window(old(self)@),
            final(self).next_generation == old(self).next_generation + 1,
            final(self).next_document == old(self).next_document + 1,
            final(self).entries == old(self).entries,
            final(self).model == old(self).model,
    {
        self.next_generation = self.next_generation + 1;
        self.next_document = self.next_document + 1;
        FrontendTarget {
            window: Generation(self.next_generation),
            document: DocumentToken(self.next_document),
        }
    }

    /// Issues a fresh document of `generation`.
    fn allocate_document(&mut self, generation: Generation) -> (r: FrontendTarget)
        requires
            old(self).next_document < u64::MAX,
        ensures
            r == fresh_document(old(self)@, generation),
            final(self).next_generation == old(self).next_generation,
            final(self).next_document == old(self).next_document + 1,
            final(self).entries == old(self).entries,
            final(self).model == old(self).model,
    {
        self.next_document = self.next_document + 1;
        FrontendTarget { window: generation, document: DocumentToken(self.next_document) }
    }

    /// Handles a request to activate custom decorations for `label`.
    pub fn begin_activation(&mut self, label: &str) -> (r: Result<
        ActivationDecision,
        LifecycleError,
    >)
        requires
            old(self).wf(),
            issues_document(old(self)@, label@, IssueRequest::Activation) ==> old(self)@.next_document
                < u64::MAX,
        ensures
            final(self).wf(),
            (final(self)@, r) == activation_step(old(self)@, label@),
    {
        let ghost v = self@;
        if let Some(entry) = self.lookup(label) {
            match entry.phase {
                Phase::Active(document) => {
                    return Ok(
                        ActivationDecision::AlreadyActive(
                            FrontendTarget { window: entry.generation, document },
                        ),
                    );
                },
                Phase::Preparing(document) => {
                    return Err(
                        LifecycleError::ActivationInProgress(
                            FrontendTarget { window: entry.generation, document },
                        ),
                    );
                },
                Phase::Applying(document) => {
                    return Err(
                        LifecycleError::ActivationInProgress(
                            FrontendTarget { window: entry.generation, document },
                        ),
                    );
                },
                Phase::Failed(_) | Phase::Native(_) => {
                    let target = self.allocate_document(entry.generation);
                    self.store_preparing(label, target);
                    assert(self@ == activation_step(v, label@).0);
                    return Ok(ActivationDecision::Reserved(target));
                },
                Phase::Destroying => {
                    // A replacement may reuse the label while generation-specific
                    // teardown for the old native window is still completing.
                },
            }
        }
        let target = self.allocate_window_target();
        self.store_preparing(label, target);
        assert(self@ == activation_step(v, label@).0);
        Ok(ActivationDecision::Reserved(target))
    }

    /// Handles the start of a navigation in `label`: the previous document
    /// can no longer acknowledge, and a fresh document is prepared unless
    /// the window is natively restored or departing.
    pub fn invalidate_document(&mut self, label: &str) -> (r: Option<FrontendTarget>)
        requires
            old(self).wf(),
            issues_document(old(self)@, label@, IssueRequest::Navigation) ==> old(self)@.next_document
                < u64::MAX,
        ensures
            final(self).wf(),
            (final(self)@, r) == invalidation_step(old(self)@, label@),
    {
        let ghost v = self@;
        let entry = match self.lookup(label) {
            Some(entry) => entry,
            None => {
                return None;
            },
        };
        if matches!(entry.phase, Phase::Native(_) | Phase::Destroying) {
            return None;
        }
        let target = self.allocate_document(entry.generation);
        self.store_preparing(label, target);
        assert(self@ == invalidation_step(v, label@).0);
        Some(target)
    }

    /// Handles a finished page load in `label`: the document to prepare, if
    /// any.
    pub fn prepare_document(&mut self, label: &str) -> (r: Option<FrontendTarget>)
        requires
            old(self).wf(),
            issues_document(old(self)@, label@, IssueRequest::PageLoad) ==> old(self)@.next_document
                < u64::MAX,
        ensures
            final(self).wf(),
            (final(self)@, r) == preparation_step(old(self)@, label@),
    {
        let ghost v = self@;
        let entry = match self.lookup(label) {
            Some(entry) => entry,
            None => {
                return None;
            },
        };
        match entry.phase {
            Phase::Preparing(_) | Phase::Applying(_) => entry.target(),
            Phase::Active(_) | Phase::Failed(_) => {
                let target = self.allocate_document(entry.generation);
                self.store_preparing(label, target);
                assert(self@ == preparation_step(v, label@).0);
                Some(target)
            },
            Phase::Native(_) | Phase::Destroying => None,
        }
    }

    /// The target `label` is preparing, if it is preparing one.
    pub fn preparing_target(&self, label: &str) -> (r: Option<FrontendTarget>)
        requires
            self.wf(),
        ensures
            r == (match entry_of(self@, label@) {
                Some(e) => if e.phase is Preparing {
                    entry_target(e)
                } else {
                    None
                },
                None => None,
            }),
    {
        match self.lookup(label) {
            Some(entry) => if matches!(entry.phase, Phase::Preparing(_)) {
                entry.target()
            } else {
                None
            },
            None => None,
        }
    }

    /// The target `label` currently addresses, if any.
    pub fn current_target(&self, label: &str) -> (r: Option<FrontendTarget>)
        requires
            self.wf(),
        ensures
            r == (match entry_of(self@, label@) {
                Some(e) => entry_target(e),
                None => None,
            }),
    {
        match self.lookup(label) {
            Some(entry) => entry.target(),
            None => None,
        }
    }

    /// The target whose decorations are active in `label`, if any.
    pub fn active_target(&self, label: &str) -> (r: Option<FrontendTarget>)
        requires
            self.wf(),
        ensures
            r == (match entry_of(self@, label@) {
                Some(e) => if e.phase is Active {
                    entry_target(e)
                } else {
                    None
                },
                None => None,
            }),
    {
        match self.lookup(label) {
            Some(entry) => if matches!(entry.phase, Phase::Active(_)) {
                entry.target()
            } else {
                None
            },
            None => None,
        }
    }

    /// Records that the frontend could not prepare `target`.
    pub fn fail_preparation(&mut self, label: &str, target: FrontendTarget) -> (r: bool)
        requires
            old(self).wf(),
        ensures
            final(self).wf(),
            (final(self)@, r) == transition_step(
                old(self)@,
                label@,
                target,
                Stage::Preparing,
                Phase::Failed(target.document),
            ),
    {
        self.transition(label, target, Stage::Preparing, Phase::Failed(target.document))
    }

    /// Handles the frontend's readiness acknowledgement for `target`.
    pub fn begin_native_apply(&mut self, label: &str, target: FrontendTarget) -> (r:
        ReadinessDecision)
        requires
            old(self).wf(),
        ensures
            final(self).wf(),
            (final(self)@, r) == readiness_step(old(self)@, label@, target),
    {
        let ghost v = self@;
        let entry = match self.lookup(label) {
            Some(entry) => entry,
            None => {
                return ReadinessDecision::Stale;
            },
        };
        if !entry.matches(target) {
            return ReadinessDecision::Stale;
        }
        match entry.phase {
            Phase::Preparing(_) => {
                self.store(
                    label,
                    Entry { generation: target.window, phase: Phase::Applying(target.document) },
                );
                assert(self@ == readiness_step(v, label@, target).0);
                ReadinessDecision::Apply
            },
            Phase::Applying(_) => ReadinessDecision::AlreadyApplying,
            Phase::Active(_) => ReadinessDecision::AlreadyActive,
            Phase::Failed(_) | Phase::Native(_) | Phase::Destroying => ReadinessDecision::Stale,
        }
    }

    /// Records that native decorations for `target` are in place.
    pub fn commit_native_apply(&mut self, label: &str, target: FrontendTarget) -> (r: bool)
        requires
            old(self).wf(),
        ensures
            final(self).wf(),
            (final(self)@, r) == transition_step(
                old(self)@,
                label@,
                target,
                Stage::Applying,
                Phase::Active(target.document),
            ),
    {
        self.transition(label, target, Stage::Applying, Phase::Active(target.document))
    }

    /// Records that applying native decorations for `target` failed.
    pub fn fail_native_apply(&mut self, label: &str, target: FrontendTarget) -> (r: bool)
        requires
            old(self).wf(),
        ensures
            final(self).wf(),
            (final(self)@, r) == transition_step(
                old(self)@,
                label@,
                target,
                Stage::Applying,
                Phase::Failed(target.document),
            ),
    {
        self.transition(label, target, Stage::Applying, Phase::Failed(target.document))
    }

    /// Handles a request to restore native decorations in `label`: the
    /// current target, which the frontend must now cancel.
    pub fn cancel_current(&mut self, label: &str) -> (r: Option<FrontendTarget>)
        requires
            old(self).wf(),
        ensures
            final(self).wf(),
            (final(self)@, r) == cancellation_step(old(self)@, label@),
    {
        let ghost v = self@;
        let entry = match self.lookup(label) {
            Some(entry) => entry,
            None => {
                return None;
            },
        };
        if entry.phase == Phase::Destroying {
            return None;
        }
        let target = match entry.target() {
            Some(target) => target,
            None => {
                return None;
            },
        };
        self.store(label, Entry { generation: entry.generation, phase: Phase::Native(target.document) });
        assert(self@ == cancellation_step(v, label@).0);
        Some(target)
    }

    fn transition(&mut self, label: &str, target: FrontendTarget, stage: Stage, next: Phase) -> (r:
        bool)
        requires
            old(self).wf(),
            match phase_document(next) {
                Some(d) => d == target.document,
                None => true,
            },
        ensures
            final(self).wf(),
            (final(self)@, r) == transition_step(old(self)@, label@, target, stage, next),
    {
        let ghost v = self@;
        let entry = match self.lookup(label) {
            Some(entry) => entry,
            None => {
                return false;
            },
        };
        let accepted = match stage {
            Stage::Preparing => matches!(entry.phase, Phase::Preparing(_)),
            Stage::Applying => matches!(entry.phase, Phase::Applying(_)),
        };
        if !entry.matches(target) || !accepted {
            return false;
        }
        self.store(label, Entry { generation: entry.generation, phase: next });
        assert(self@ == transition_step(v, label@, target, stage, next).0);
        true
    }

    /// The window generation recorded for `label`.
    pub fn generation(&self, label: &str) -> (r: Option<Generation>)
        requires
            self.wf(),
        ensures
            r == (match entry_of(self@, label@) {
                Some(e) => Some(e.generation),
                None => None,
            }),
    {
        match self.lookup(label) {
            Some(entry) => Some(entry.generation),
            None => None,
        }
    }

    /// Starts tearing down window generation `generation` of `label`.
    pub fn begin_destroy(&mut self, label: &str, generation: Generation) -> (r: bool)
        requires
            old(self).wf(),
        ensures
            final(self).wf(),
            (final(self)@, r) == destroy_step(old(self)@, label@, generation),
    {
        let ghost v = self@;
        let entry = match self.lookup(label) {
            Some(entry) => entry,
            None => {
                return false;
            },
        };
        if entry.generation != generation || entry.phase == Phase::Destroying {
            return false;
        }
        self.store(label, Entry { generation, phase: Phase::Destroying });
        assert(self@ == destroy_step(v, label@, generation).0);
        true
    }

    /// Starts tearing down the current window generation of `label`.
    pub fn begin_destroy_current(&mut self, label: &str) -> (r: Option<Generation>)
        requires
            old(self).wf(),
        ensures
            final(self).wf(),
            match entry_of(old(self)@, label@) {
                Some(e) => {
                    let (next, started) = destroy_step(old(self)@, label@, e.generation);
                    &&& final(self)@ == next
                    &&& r == (if started {
                        Some(e.generation)
                    } else {
                        None
                    })
                },
                None => final(self)@ == old(self)@ && r is None,
            },
    {
        let generation = match self.generation(label) {
            Some(generation) => generation,
            None => {
                return None;
            },
        };
        if self.begin_destroy(label, generation) {
            Some(generation)
        } else {
            None
        }
    }

    /// Finishes tearing down window generation `generation` of `label`.
    pub fn finish_destroy(&mut self, label: &str, generation: Generation) -> (r: bool)
        requires
            old(self).wf(),
        ensures
            final(self).wf(),
            (final(self)@, r) == finish_destroy_step(old(self)@, label@, generation),
    {
        let ghost v = self@;
        match self.find(label) {
            Some(i) => {
                let entry = self.entries[i].1;
                if entry.generation == generation && entry.phase == Phase::Destroying {
                    self.remove_at(i);
                    assert(self@ == finish_destroy_step(v, label@, generation).0);
                    true
                } else {
                    false
                }
            },
            None => false,
        }
    }
}

} // verus!
