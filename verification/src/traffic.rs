//! The per-window state behind the macOS traffic-light buttons.
//!
//! Each `NSWindow` (by its address) keeps the configured insets, the window
//! generation whose event listener owns it, the frontend target clearance
//! updates go to, the last clearance dispatched there, and the titlebar
//! geometry AppKit had before the buttons were moved.
//!
//! Floating-point quantities cross this module as the IEEE-754 bit patterns
//! of `f64` values: the registry compares, stores and validates them, and
//! the caller does the arithmetic.

use crate::lifecycle::{FrontendTarget, Generation};
use std::collections::HashMap;
use vstd::prelude::*;

verus! {

broadcast use vstd::std_specs::hash::group_hash_axioms;

/// The bit pattern of the default horizontal inset, 12.0 points.
pub const DEFAULT_INSET_X_BITS: u64 = 0x4028_0000_0000_0000;

/// The bit pattern of the default vertical inset, 16.0 points.
pub const DEFAULT_INSET_Y_BITS: u64 = 0x4030_0000_0000_0000;

/// The bit pattern of +0.0.
pub const ZERO_BITS: u64 = 0;

/// The biased exponent field of the `f64` with bit pattern `bits`.
pub open spec fn exponent_field(bits: u64) -> int {
    (bits as int / 0x10_0000_0000_0000) % 0x800
}

/// The `f64` with bit pattern `bits` is finite (neither infinite nor NaN).
pub open spec fn bits_finite(bits: u64) -> bool {
    exponent_field(bits) != 0x7ff
}

/// The `f64` with bit pattern `bits` is finite and `>= 0.0` (so `-0.0`
/// counts, as `-0.0 >= 0.0`).
pub open spec fn valid_inset_bits(bits: u64) -> bool {
    bits_finite(bits) && (bits < 0x8000_0000_0000_0000 || bits == 0x8000_0000_0000_0000)
}

/// The `f64` with bit pattern `bits` is finite and `> 0.0`.
pub open spec fn positive_finite_bits(bits: u64) -> bool {
    bits_finite(bits) && 0 < bits < 0x8000_0000_0000_0000
}

fn is_finite_bits(bits: u64) -> (r: bool)
    ensures
        r == bits_finite(bits),
{
    (bits / 0x10_0000_0000_0000) % 0x800 != 0x7ff
}

/// Whether an inset of bit pattern `bits` is finite and nonnegative.
pub fn is_valid_inset(bits: u64) -> (r: bool)
    ensures
        r == valid_inset_bits(bits),
{
    is_finite_bits(bits) && (bits < 0x8000_0000_0000_0000 || bits == 0x8000_0000_0000_0000)
}

/// Whether a measurement of bit pattern `bits` is finite and positive.
pub fn is_positive_finite(bits: u64) -> (r: bool)
    ensures
        r == positive_finite_bits(bits),
{
    is_finite_bits(bits) && 0 < bits && bits < 0x8000_0000_0000_0000
}

/// The window events that matter to the traffic lights.
#[derive(Clone, Copy, Debug, Eq, PartialEq, Structural)]
pub enum WindowEventKind {
    Resized,
    ScaleFactorChanged,
    Focused(bool),
    Moved,
    Other,
}

/// Whether a window event can have moved AppKit's traffic lights: a
/// resize, a scale-factor change or gaining focus; moving the window alone
/// cannot.
pub fn should_refresh_traffic_lights(event: WindowEventKind) -> (r: bool)
    ensures
        r == (event is Resized || event is ScaleFactorChanged || event == WindowEventKind::Focused(
            true,
        )),
{
    match event {
        WindowEventKind::Resized | WindowEventKind::ScaleFactorChanged => true,
        WindowEventKind::Focused(focused) => focused,
        _ => false,
    }
}

/// What a failed titlebar dispatch reports, from the evaluation error and
/// the outcomes of rolling back the native geometry and the dispatch claim
/// (`Ok(false)`: the claim had changed before the rollback). `None` when
/// both rollbacks succeeded: the evaluation error stands as it is.
pub open spec fn dispatch_failure_text(
    eval_error: Seq<char>,
    geometry_rollback: Result<(), Seq<char>>,
    dispatch_rollback: Result<bool, Seq<char>>,
) -> Option<Seq<char>> {
    if geometry_rollback is Ok && dispatch_rollback == Ok::<bool, Seq<char>>(true) {
        None
    } else {
        let geometry_part = match geometry_rollback {
            Ok(()) => Seq::<char>::empty(),
            Err(e) => "; native geometry rollback failed: "@ + e,
        };
        let dispatch_part = match dispatch_rollback {
            Ok(true) => Seq::<char>::empty(),
            Ok(false) => "; traffic-light dispatch state changed before rollback"@,
            Err(e) => "; traffic-light dispatch rollback failed: "@ + e,
        };
        Some(
            "dispatching macOS traffic-light clearance failed: "@ + eval_error + geometry_part
                + dispatch_part,
        )
    }
}

/// Reports a failed titlebar dispatch as `dispatch_failure_text` says.
pub fn dispatch_failure_report(
    eval_error: &str,
    geometry_rollback: Result<(), String>,
    dispatch_rollback: Result<bool, String>,
) -> (r: Option<String>)
    ensures
        match (
            r,
            dispatch_failure_text(
                eval_error@,
                match geometry_rollback {
                    Ok(()) => Ok(()),
                    Err(e) => Err(e@),
                },
                match dispatch_rollback {
                    Ok(b) => Ok(b),
                    Err(e) => Err(e@),
                },
            ),
        ) {
            (None, None) => true,
            (Some(m), Some(t)) => m@ == t,
            _ => false,
        },
{
    let geometry_failed = geometry_rollback.is_err();
    let dispatch_kept = match &dispatch_rollback {
        Ok(kept) => *kept,
        Err(_) => false,
    };
    if !geometry_failed && dispatch_kept {
        return None;
    }
    proof {
        reveal_strlit("dispatching macOS traffic-light clearance failed: ");
        reveal_strlit("; native geometry rollback failed: ");
        reveal_strlit("; traffic-light dispatch state changed before rollback");
        reveal_strlit("; traffic-light dispatch rollback failed: ");
    }
    let mut message = String::from_str("dispatching macOS traffic-light clearance failed: ");
    message.append(eval_error);
    match geometry_rollback {
        Ok(()) => {},
        Err(error) => {
            message.append("; native geometry rollback failed: ");
            message.append(error.as_str());
        },
    }
    match dispatch_rollback {
        Ok(true) => {},
        Ok(false) => {
            message.append("; traffic-light dispatch state changed before rollback");
        },
        Err(error) => {
            message.append("; traffic-light dispatch rollback failed: ");
            message.append(error.as_str());
        },
    }
    Some(message)
}

/// The `NSWindowLevel` for a requested level: an `NSInteger`, so levels
/// above `isize::MAX` are refused.
pub fn native_window_level(level: u32) -> (r: Result<isize, &'static str>)
    ensures
        match r {
            Ok(l) => level <= isize::MAX && l == level,
            Err(m) => level > isize::MAX && m@ == "NSWindow level exceeds NSInteger"@,
        },
{
    if (level as u64) <= (isize::MAX as u64) {
        Ok(level as isize)
    } else {
        proof {
            reveal_strlit("NSWindow level exceeds NSInteger");
        }
        Err("NSWindow level exceeds NSInteger")
    }
}

/// The titlebar state the frontend is told about.
#[derive(Clone, Copy, Debug, Eq, PartialEq, Structural)]
pub struct TitlebarState {
    pub fullscreen: bool,
    /// Bit pattern of the horizontal clearance, in points.
    pub clearance: u64,
}

/// The insets of the traffic-light cluster, as `f64` bit patterns.
#[derive(Clone, Copy, Debug, Eq, PartialEq, Structural)]
pub struct Insets {
    pub x: u64,
    pub y: u64,
}

/// What AppKit showed when the window was observed.
#[derive(Clone, Copy, Debug, Eq, PartialEq, Structural)]
pub enum Observation {
    /// The window is fullscreen; no cluster is shown.
    Fullscreen,
    /// The window is normal. `measured` is the measured right edge of the
    /// cluster and `clearance` the clearance it leaves (the edge plus the
    /// gap), both as bit patterns.
    Normal { measured: u64, clearance: u64 },
}

/// How an activation relates to the window's event listener.
#[derive(Clone, Copy, Debug, Eq, PartialEq, Structural)]
pub enum Activation {
    /// A listener for this generation must be installed.
    InstallListener(Generation),
    /// The listener of this generation is in place.
    ReuseListener(Generation),
}

impl Activation {
    pub open spec fn generation_of(self) -> Generation {
        match self {
            Activation::InstallListener(g) => g,
            Activation::ReuseListener(g) => g,
        }
    }

    pub fn generation(self) -> (r: Generation)
        ensures
            r == self.generation_of(),
    {
        match self {
            Activation::InstallListener(generation) => generation,
            Activation::ReuseListener(generation) => generation,
        }
    }

    pub fn installs_listener(self) -> (r: bool)
        ensures
            r == (self is InstallListener),
    {
        matches!(self, Activation::InstallListener(_))
    }
}

/// What a listener of the window needs to position the cluster.
#[derive(Clone, Copy, Debug, Eq, PartialEq, Structural)]
pub struct TrafficSnapshot {
    pub insets: Insets,
    pub target: Option<FrontendTarget>,
}

/// What undoing the custom positioning of a window needs.
#[derive(Clone, Copy, Debug)]
pub struct Deactivation<G> {
    pub generation: Generation,
    pub target: Option<FrontendTarget>,
    pub original_geometry: Option<G>,
}

/// The traffic-light state of one window; `G` is the titlebar geometry
/// AppKit had before the cluster was moved.
#[derive(Clone, Copy, Debug)]
pub struct WindowState<G> {
    pub generation: Option<Generation>,
    pub insets: Insets,
    pub cached_clearance: Option<u64>,
    pub target: Option<FrontendTarget>,
    pub last_dispatched: Option<(FrontendTarget, TitlebarState)>,
    pub original_geometry: Option<G>,
    pub positioning_enabled: bool,
    pub listener_installed: bool,
}

/// A window state that only remembers its insets.
pub open spec fn fresh_state<G>(insets: Insets) -> WindowState<G> {
    WindowState {
        generation: None,
        insets,
        cached_clearance: None,
        target: None,
        last_dispatched: None,
        original_geometry: None,
        positioning_enabled: false,
        listener_installed: false,
    }
}

pub open spec fn default_insets() -> Insets {
    Insets { x: DEFAULT_INSET_X_BITS, y: DEFAULT_INSET_Y_BITS }
}

pub open spec fn activation_of<G>(s: WindowState<G>) -> Option<Activation> {
    match s.generation {
        Some(g) => Some(
            if s.listener_installed {
                Activation::ReuseListener(g)
            } else {
                Activation::InstallListener(g)
            },
        ),
        None => None,
    }
}

/// The state of `key`, created with the default insets if missing.
pub open spec fn state_or_default<G>(m: Map<usize, WindowState<G>>, key: usize) -> WindowState<G> {
    if m.dom().contains(key) {
        m[key]
    } else {
        fresh_state(default_insets())
    }
}

/// Activating `target` in window `key`: a different window generation
/// starts over from the insets alone; the window then belongs to the
/// target's generation, positions its cluster, and addresses the target,
/// forgetting the last dispatch if the target changed.
pub open spec fn activate_state<G>(
    m: Map<usize, WindowState<G>>,
    key: usize,
    target: FrontendTarget,
) -> WindowState<G> {
    let base = state_or_default(m, key);
    let start = if base.generation matches Some(g) && g != target.window {
        fresh_state(base.insets)
    } else {
        base
    };
    WindowState {
        generation: Some(target.window),
        positioning_enabled: true,
        target: Some(target),
        last_dispatched: if start.target == Some(target) {
            start.last_dispatched
        } else {
            None
        },
        ..start
    }
}

/// The titlebar state an observation yields for a window whose clearance
/// cache is `cache`, and the cache afterwards.
pub open spec fn observed(cache: Option<u64>, observation: Observation) -> (TitlebarState, Option<
    u64,
>) {
    match observation {
        Observation::Fullscreen => (TitlebarState { fullscreen: true, clearance: ZERO_BITS }, cache),
        Observation::Normal { measured, clearance } => {
            let next = if positive_finite_bits(measured) {
                Some(clearance)
            } else {
                cache
            };
            (
                TitlebarState {
                    fullscreen: false,
                    clearance: match next {
                        Some(c) => c,
                        None => ZERO_BITS,
                    },
                },
                next,
            )
        },
    }
}

/// Recording an observation by the listener of `generation`: ignored unless
/// the window belongs to that generation and positions its cluster; the
/// clearance cache is updated; the titlebar state is dispatched to the
/// target unless it is exactly the last dispatch.
pub open spec fn observation_step<G>(
    m: Map<usize, WindowState<G>>,
    key: usize,
    generation: Generation,
    observation: Observation,
) -> (Map<usize, WindowState<G>>, Option<(FrontendTarget, TitlebarState)>) {
    if !m.dom().contains(key) || m[key].generation != Some(generation)
        || !m[key].positioning_enabled {
        (m, None)
    } else {
        let s = m[key];
        let (titlebar, cache) = observed(s.cached_clearance, observation);
        let cached = WindowState { cached_clearance: cache, ..s };
        match s.target {
            None => (m.insert(key, cached), None),
            Some(t) => if s.last_dispatched == Some((t, titlebar)) {
                (m.insert(key, cached), None)
            } else {
                (
                    m.insert(key, WindowState { last_dispatched: Some((t, titlebar)), ..cached }),
                    Some((t, titlebar)),
                )
            },
        }
    }
}

/// The traffic-light state of every window, keyed by `NSWindow` address.
pub struct TrafficRegistry<G> {
    windows: HashMap<usize, WindowState<G>>,
}

impl<G> View for TrafficRegistry<G> {
    type V = Map<usize, WindowState<G>>;

    closed spec fn view(&self) -> Map<usize, WindowState<G>> {
        self.windows@
    }
}

impl<G: Copy> TrafficRegistry<G> {
    /// The registry knows finitely many windows.
    pub closed spec fn wf(&self) -> bool {
        self.windows@.dom().finite()
    }

    /// A registry that knows no window.
    pub fn new() -> (r: Self)
        ensures
            r.wf(),
            r@ == Map::<usize, WindowState<G>>::empty(),
    {
        TrafficRegistry { windows: HashMap::new() }
    }

    fn state(&self, key: usize) -> (r: Option<WindowState<G>>)
        ensures
            r == (if self@.dom().contains(key) {
                Some(self@[key])
            } else {
                None
            }),
    {
        match self.windows.get(&key) {
            Some(state) => Some(*state),
            None => None,
        }
    }

    fn put(&mut self, key: usize, state: WindowState<G>)
        ensures
            final(self).wf(),
            final(self)@ == old(self)@.insert(key, state),
    {
        self.windows.insert(key, state);
    }

    fn fresh(insets: Insets) -> (r: WindowState<G>)
        ensures
            r == fresh_state::<G>(insets),
    {
        WindowState {
            generation: None,
            insets,
            cached_clearance: None,
            target: None,
            last_dispatched: None,
            original_geometry: None,
            positioning_enabled: false,
            listener_installed: false,
        }
    }

    /// Activates `target` in window `key`, as `activate_state` says, and
    /// tells whether the generation's listener must be installed.
    pub fn activate(&mut self, key: usize, target: FrontendTarget) -> (r: Activation)
        requires
            old(self).wf(),
        ensures
            final(self).wf(),
            final(self)@ == old(self)@.insert(key, activate_state(old(self)@, key, target)),
            Some(r) == activation_of(activate_state(old(self)@, key, target)),
    {
        let base = match self.state(key) {
            Some(state) => state,
            None => Self::fresh(
                Insets { x: DEFAULT_INSET_X_BITS, y: DEFAULT_INSET_Y_BITS },
            ),
        };
        let start = match base.generation {
            Some(generation) => if generation != target.window {
                Self::fresh(base.insets)
            } else {
                base
            },
            None => base,
        };
        let keeps_dispatch = match start.target {
            Some(current) => current == target,
            None => false,
        };
        let state = WindowState {
            generation: Some(target.window),
            positioning_enabled: true,
            target: Some(target),
            last_dispatched: if keeps_dispatch {
                start.last_dispatched
            } else {
                None
            },
            ..start
        };
        self.put(key, state);
        if state.listener_installed {
            Activation::ReuseListener(target.window)
        } else {
            Activation::InstallListener(target.window)
        }
    }

    /// Records that the listener of `generation` is installed in window
    /// `key`; refused if the window belongs to another generation.
    pub fn mark_listener_installed(&mut self, key: usize, generation: Generation) -> (r: bool)
        requires
            old(self).wf(),
        ensures
            final(self).wf(),
            r == (old(self)@.dom().contains(key) && old(self)@[key].generation == Some(generation)),
            r ==> final(self)@ == old(self)@.insert(
                key,
                WindowState { listener_installed: true, ..old(self)@[key] },
            ),
            !r ==> final(self)@ == old(self)@,
    {
        let state = match self.state(key) {
            Some(state) => state,
            None => {
                return false;
            },
        };
        if state.generation != Some(generation) {
            return false;
        }
        self.put(key, WindowState { listener_installed: true, ..state });
        true
    }

    /// Stops positioning the cluster of window `key` and hands back what
    /// undoing the positioning needs; the state is kept until the undo
    /// commits.
    pub fn begin_deactivation(&mut self, key: usize) -> (r: Option<Deactivation<G>>)
        requires
            old(self).wf(),
        ensures
            final(self).wf(),
            match r {
                Some(d) => old(self)@.dom().contains(key) && old(self)@[key].generation == Some(
                    d.generation,
                ) && d.target == old(self)@[key].target && d.original_geometry == old(
                    self)@[key].original_geometry && final(self)@ == old(self)@.insert(
                    key,
                    WindowState { positioning_enabled: false, ..old(self)@[key] },
                ),
                None => final(self)@ == old(self)@ && !(old(self)@.dom().contains(key) && old(
                    self)@[key].generation is Some),
            },
    {
        let state = match self.state(key) {
            Some(state) => state,
            None => {
                return None;
            },
        };
        let generation = match state.generation {
            Some(generation) => generation,
            None => {
                return None;
            },
        };
        self.put(key, WindowState { positioning_enabled: false, ..state });
        Some(
            Deactivation {
                generation,
                target: state.target,
                original_geometry: state.original_geometry,
            },
        )
    }

    /// Commits the undo of the positioning of generation `generation`:
    /// the target, the last dispatch, the original geometry and the
    /// clearance cache are forgotten. Refused if the window belongs to
    /// another generation or positions its cluster again.
    pub fn commit_deactivation(&mut self, key: usize, generation: Generation) -> (r: bool)
        requires
            old(self).wf(),
        ensures
            final(self).wf(),
            r == (old(self)@.dom().contains(key) && old(self)@[key].generation == Some(generation)
                && !old(self)@[key].positioning_enabled),
            r ==> final(self)@ == old(self)@.insert(
                key,
                WindowState {
                    target: None,
                    last_dispatched: None,
                    original_geometry: None,
                    cached_clearance: None,
                    ..old(self)@[key]
                },
            ),
            !r ==> final(self)@ == old(self)@,
    {
        let state = match self.state(key) {
            Some(state) => state,
            None => {
                return false;
            },
        };
        if state.generation != Some(generation) || state.positioning_enabled {
            return false;
        }
        self.put(
            key,
            WindowState {
                target: None,
                last_dispatched: None,
                original_geometry: None,
                cached_clearance: None,
                ..state
            },
        );
        true
    }

    /// Records the geometry AppKit had before the cluster of generation
    /// `generation` was first moved; later records are refused, as are
    /// records for another generation or while positioning is off.
    pub fn record_original_geometry(&mut self, key: usize, generation: Generation, geometry: G) -> (r:
        bool)
        requires
            old(self).wf(),
        ensures
            final(self).wf(),
            r == (old(self)@.dom().contains(key) && old(self)@[key].generation == Some(generation)
                && old(self)@[key].positioning_enabled && old(self)@[key].original_geometry is None),
            r ==> final(self)@ == old(self)@.insert(
                key,
                WindowState { original_geometry: Some(geometry), ..old(self)@[key] },
            ),
            !r ==> final(self)@ == old(self)@,
    {
        let state = match self.state(key) {
            Some(state) => state,
            None => {
                return false;
            },
        };
        if state.generation != Some(generation) || !state.positioning_enabled
            || state.original_geometry.is_some() {
            return false;
        }
        self.put(key, WindowState { original_geometry: Some(geometry), ..state });
        true
    }

    /// Forgets window `key` when the window of generation `generation` is
    /// destroyed; a stale generation cannot remove a replacement.
    pub fn destroy(&mut self, key: usize, generation: Generation) -> (r: bool)
        requires
            old(self).wf(),
        ensures
            final(self).wf(),
            r == (old(self)@.dom().contains(key) && old(self)@[key].generation == Some(generation)),
            r ==> final(self)@ == old(self)@.remove(key),
            !r ==> final(self)@ == old(self)@,
    {
        match self.state(key) {
            Some(state) => {
                if state.generation == Some(generation) {
                    self.windows.remove(&key);
                    true
                } else {
                    false
                }
            },
            None => false,
        }
    }

    /// Configures the insets of window `key`, creating its state if needed;
    /// an inset that is not finite and nonnegative is refused. Answers the
    /// activation to refresh, if the window is activated.
    pub fn set_inset(&mut self, key: usize, inset_x: u64, inset_y: u64) -> (r: Result<
        Option<Activation>,
        &'static str,
    >)
        requires
            old(self).wf(),
        ensures
            final(self).wf(),
            !(valid_inset_bits(inset_x) && valid_inset_bits(inset_y)) ==> (final(self)@ == old(
                self)@ && (r matches Err(m) && m@
                == "traffic-light insets must be finite and nonnegative"@)),
            valid_inset_bits(inset_x) && valid_inset_bits(inset_y) ==> {
                let updated = WindowState {
                    insets: Insets { x: inset_x, y: inset_y },
                    ..state_or_default(old(self)@, key)
                };
                &&& final(self)@ == old(self)@.insert(key, updated)
                &&& r == Ok::<Option<Activation>, &'static str>(activation_of(updated))
            },
    {
        if !is_valid_inset(inset_x) || !is_valid_inset(inset_y) {
            proof {
                reveal_strlit("traffic-light insets must be finite and nonnegative");
            }
            return Err("traffic-light insets must be finite and nonnegative");
        }
        let base = match self.state(key) {
            Some(state) => state,
            None => Self::fresh(
                Insets { x: DEFAULT_INSET_X_BITS, y: DEFAULT_INSET_Y_BITS },
            ),
        };
        let updated = WindowState { insets: Insets { x: inset_x, y: inset_y }, ..base };
        self.put(key, updated);
        match updated.generation {
            Some(generation) => if updated.listener_installed {
                Ok(Some(Activation::ReuseListener(generation)))
            } else {
                Ok(Some(Activation::InstallListener(generation)))
            },
            None => Ok(None),
        }
    }

    /// The insets and target of window `key`.
    pub fn snapshot(&self, key: usize) -> (r: Option<TrafficSnapshot>)
        requires
            self.wf(),
        ensures
            r == (if self@.dom().contains(key) {
                Some(TrafficSnapshot { insets: self@[key].insets, target: self@[key].target })
            } else {
                None
            }),
    {
        match self.state(key) {
            Some(state) => Some(TrafficSnapshot { insets: state.insets, target: state.target }),
            None => None,
        }
    }

    /// The insets and target of window `key`, for the listener of
    /// `generation`; nothing unless the window belongs to that generation
    /// and positions its cluster.
    pub fn snapshot_for_listener(&self, key: usize, generation: Generation) -> (r: Option<
        TrafficSnapshot,
    >)
        requires
            self.wf(),
        ensures
            r == (if self@.dom().contains(key) && self@[key].generation == Some(generation)
                && self@[key].positioning_enabled {
                Some(TrafficSnapshot { insets: self@[key].insets, target: self@[key].target })
            } else {
                None
            }),
    {
        match self.state(key) {
            Some(state) => if state.generation == Some(generation) && state.positioning_enabled {
                Some(TrafficSnapshot { insets: state.insets, target: state.target })
            } else {
                None
            },
            None => None,
        }
    }

    /// Records an observation by the listener of `generation`, as
    /// `observation_step` says, and answers the dispatch to make, if any.
    pub fn record_observation(
        &mut self,
        key: usize,
        generation: Generation,
        observation: Observation,
    ) -> (r: Option<(FrontendTarget, TitlebarState)>)
        requires
            old(self).wf(),
        ensures
            final(self).wf(),
            (final(self)@, r) == observation_step(old(self)@, key, generation, observation),
    {
        let state = match self.state(key) {
            Some(state) => state,
            None => {
                return None;
            },
        };
        if state.generation != Some(generation) || !state.positioning_enabled {
            return None;
        }
        let (titlebar, cache) = match observation {
            Observation::Fullscreen => (
                TitlebarState { fullscreen: true, clearance: ZERO_BITS },
                state.cached_clearance,
            ),
            Observation::Normal { measured, clearance } => {
                let next = if is_positive_finite(measured) {
                    Some(clearance)
                } else {
                    state.cached_clearance
                };
                (
                    TitlebarState {
                        fullscreen: false,
                        clearance: match next {
                            Some(c) => c,
                            None => ZERO_BITS,
                        },
                    },
                    next,
                )
            },
        };
        let cached = WindowState { cached_clearance: cache, ..state };
        let target = match state.target {
            Some(target) => target,
            None => {
                self.put(key, cached);
                return None;
            },
        };
        let repeated = match state.last_dispatched {
            Some((last_target, last_titlebar)) => last_target == target && last_titlebar
                == titlebar,
            None => false,
        };
        if repeated {
            self.put(key, cached);
            return None;
        }
        self.put(key, WindowState { last_dispatched: Some((target, titlebar)), ..cached });
        Some((target, titlebar))
    }

    /// Releases the claim of a dispatch to `target` that failed, so the same
    /// titlebar state is dispatched again by the next observation; refused
    /// unless it is the last dispatch of the listener's generation.
    pub fn rollback_dispatch(
        &mut self,
        key: usize,
        generation: Generation,
        target: FrontendTarget,
        titlebar: TitlebarState,
    ) -> (r: bool)
        requires
            old(self).wf(),
        ensures
            final(self).wf(),
            r == (old(self)@.dom().contains(key) && old(self)@[key].generation == Some(generation)
                && old(self)@[key].last_dispatched == Some((target, titlebar))),
            r ==> final(self)@ == old(self)@.insert(
                key,
                WindowState { last_dispatched: None, ..old(self)@[key] },
            ),
            !r ==> final(self)@ == old(self)@,
    {
        let state = match self.state(key) {
            Some(state) => state,
            None => {
                return false;
            },
        };
        if state.generation != Some(generation) {
            return false;
        }
        let matches_last = match state.last_dispatched {
            Some((last_target, last_titlebar)) => last_target == target && last_titlebar
                == titlebar,
            None => false,
        };
        if !matches_last {
            return false;
        }
        self.put(key, WindowState { last_dispatched: None, ..state });
        true
    }
}

/// Activating a new window generation for the same `NSWindow` address
/// starts over: the listener must be installed anew, the insets are kept,
/// the old geometry record is dropped, and the old generation's listener
/// can no longer observe, mark, or claim the state.
pub proof fn lemma_new_generation_rotates_state<G>(
    m: Map<usize, WindowState<G>>,
    key: usize,
    old_generation: Generation,
    target: FrontendTarget,
)
    requires
        m.dom().contains(key),
        m[key].generation == Some(old_generation),
        target.window != old_generation,
    ensures
        ({
            let s = activate_state(m, key, target);
            &&& activation_of(s) == Some(Activation::InstallListener(target.window))
            &&& s.insets == m[key].insets
            &&& s.original_geometry is None
            &&& s.generation != Some(old_generation)
            &&& s.target == Some(target)
        }),
{
}

/// Re-activating the same generation with a new document keeps the
/// installed listener and retargets it.
pub proof fn lemma_reactivation_retargets_listener<G>(
    m: Map<usize, WindowState<G>>,
    key: usize,
    target: FrontendTarget,
)
    requires
        m.dom().contains(key),
        m[key].generation == Some(target.window),
        m[key].listener_installed,
    ensures
        activation_of(activate_state(m, key, target)) == Some(
            Activation::ReuseListener(target.window),
        ),
        activate_state(m, key, target).target == Some(target),
{
}

/// An observation that changes nothing is not dispatched twice: once a
/// titlebar state has been dispatched, the same observation yields no
/// dispatch.
pub proof fn lemma_repeated_observation_is_not_redispatched<G>(
    m: Map<usize, WindowState<G>>,
    key: usize,
    generation: Generation,
    observation: Observation,
)
    requires
        observation_step(m, key, generation, observation).1 is Some,
    ensures
        ({
            let after = observation_step(m, key, generation, observation).0;
            observation_step(after, key, generation, observation).1 is None
        }),
{
}

/// Releasing a failed dispatch lets the next identical observation dispatch
/// the same titlebar state again.
pub proof fn lemma_released_dispatch_is_retried<G>(
    m: Map<usize, WindowState<G>>,
    key: usize,
    generation: Generation,
    observation: Observation,
)
    requires
        observation_step(m, key, generation, observation).1 is Some,
    ensures
        ({
            let (after, dispatched) = observation_step(m, key, generation, observation);
            let released = after.insert(key, WindowState { last_dispatched: None, ..after[key] });
            &&& after[key].last_dispatched == dispatched
            &&& observation_step(released, key, generation, observation).1 == dispatched
        }),
{
}

/// While a window does not position its cluster (before activation, after
/// deactivation, or for another generation), observations change nothing.
pub proof fn lemma_inactive_observations_are_inert<G>(
    m: Map<usize, WindowState<G>>,
    key: usize,
    generation: Generation,
    observation: Observation,
)
    requires
        !(m.dom().contains(key) && m[key].generation == Some(generation)
            && m[key].positioning_enabled),
    ensures
        observation_step(m, key, generation, observation) == (m, None::<
            (FrontendTarget, TitlebarState),
        >),
{
}

/// Fullscreen collapses the clearance to zero without forgetting the last
/// measured one, which a later normal observation without a usable
/// measurement restores.
pub proof fn lemma_fullscreen_collapses_clearance(cache: Option<u64>, measured: u64, clearance: u64)
    requires
        !positive_finite_bits(measured),
    ensures
        observed(cache, Observation::Fullscreen) == ((
            TitlebarState { fullscreen: true, clearance: ZERO_BITS },
            cache,
        )),
        observed(cache, (Observation::Normal { measured, clearance })).0 == (TitlebarState {
            fullscreen: false,
            clearance: match cache {
                Some(c) => c,
                None => ZERO_BITS,
            },
        }),
{
}


/// Every usable measurement replaces the cached clearance, whatever was
/// cached before: a normal observation with a finite positive measured edge
/// yields exactly its own clearance and caches it.
pub proof fn lemma_measured_clearance_replaces_cache(
    cache: Option<u64>,
    other_cache: Option<u64>,
    measured: u64,
    clearance: u64,
)
    requires
        positive_finite_bits(measured),
    ensures
        observed(cache, Observation::Normal { measured, clearance }) == (
            TitlebarState { fullscreen: false, clearance },
            Some(clearance),
        ),
        observed(cache, Observation::Normal { measured, clearance }) == observed(
            other_cache,
            Observation::Normal { measured, clearance },
        ),
{
}

/// A window that positions its cluster for a target dispatches the
/// clearance of each usable measurement to that target, unless exactly that
/// titlebar state was the last dispatch, and caches it either way.
pub proof fn lemma_new_clearance_is_dispatched<G>(
    m: Map<usize, WindowState<G>>,
    key: usize,
    generation: Generation,
    measured: u64,
    clearance: u64,
)
    requires
        m.dom().contains(key),
        m[key].generation == Some(generation),
        m[key].positioning_enabled,
        m[key].target is Some,
        positive_finite_bits(measured),
    ensures
        ({
            let t = m[key].target->Some_0;
            let titlebar = TitlebarState { fullscreen: false, clearance };
            let (after, dispatch) = observation_step(
                m,
                key,
                generation,
                Observation::Normal { measured, clearance },
            );
            &&& after.dom().contains(key)
            &&& after[key].cached_clearance == Some(clearance)
            &&& dispatch == (if m[key].last_dispatched == Some((t, titlebar)) {
                None
            } else {
                Some((t, titlebar))
            })
        }),
{
}

} // verus!
