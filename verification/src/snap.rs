//! The Windows snap-layout overlay: its geometry and pointer state.
//!
//! On Windows 11 the maximize button must be a real non-client hit target for
//! the snap-layout flyout to appear, so a transparent child window sits over
//! the HTML maximize button. This module decides where that overlay goes and
//! which frontend events its pointer messages and fullscreen changes raise.

use std::collections::HashMap;
use vstd::prelude::*;

verus! {

broadcast use vstd::std_specs::hash::group_hash_axioms;

/// Largest accepted titlebar height, in logical pixels.
pub const MAX_TITLEBAR_HEIGHT: u32 = 1024;

/// Largest accepted control-button width, in logical pixels.
pub const MAX_BUTTON_WIDTH: u32 = 1024;

/// Largest accepted count of buttons right of the maximize button.
pub const MAX_RIGHT_INDEX: u32 = 16;

/// A frontend event raised by the overlay.
#[derive(Clone, Copy, Debug, Eq, PartialEq, Structural)]
pub enum SnapEvent {
    MouseEnter,
    MouseLeave,
    MouseDown,
    MouseUp,
    Click,
    FullscreenEnter,
    FullscreenExit,
}

pub open spec fn snap_event_name(event: SnapEvent) -> Seq<char> {
    match event {
        SnapEvent::MouseEnter => "snap-mouseenter"@,
        SnapEvent::MouseLeave => "snap-mouseleave"@,
        SnapEvent::MouseDown => "snap-mousedown"@,
        SnapEvent::MouseUp => "snap-mouseup"@,
        SnapEvent::Click => "snap-click"@,
        SnapEvent::FullscreenEnter => "fullscreen-did-enter"@,
        SnapEvent::FullscreenExit => "fullscreen-did-exit"@,
    }
}

impl SnapEvent {
    /// The name the frontend dispatcher knows the event by.
    pub fn as_str(self) -> (r: &'static str)
        ensures
            r@ == snap_event_name(self),
    {
        match self {
            SnapEvent::MouseEnter => "snap-mouseenter",
            SnapEvent::MouseLeave => "snap-mouseleave",
            SnapEvent::MouseDown => "snap-mousedown",
            SnapEvent::MouseUp => "snap-mouseup",
            SnapEvent::Click => "snap-click",
            SnapEvent::FullscreenEnter => "fullscreen-did-enter",
            SnapEvent::FullscreenExit => "fullscreen-did-exit",
        }
    }
}

/// Something the frontend must be told after a registry update.
#[derive(Clone, Copy, Debug, Eq, PartialEq, Structural)]
pub enum Notice {
    /// A named overlay event.
    Event(SnapEvent),
    /// The pointer moved to a client position of the parent window.
    Move(i32, i32),
}

/// The logical geometry of the overlay.
#[derive(Clone, Copy, Debug, Eq, PartialEq, Structural)]
pub struct Geometry {
    pub titlebar_height: u32,
    pub button_width: u32,
    pub right_index: u32,
}

impl Geometry {
    pub fn new(titlebar_height: u32, button_width: u32, right_index: u32) -> (r: Self)
        ensures
            r == (Geometry { titlebar_height, button_width, right_index }),
    {
        Geometry { titlebar_height, button_width, right_index }
    }
}

pub open spec fn geometry_error(titlebar_height: u32, button_width: u32, right_index: u32) -> Option<
    Seq<char>,
> {
    if titlebar_height == 0 || titlebar_height > MAX_TITLEBAR_HEIGHT {
        Some("snap titlebar height must be between 1 and 1024"@)
    } else if button_width == 0 || button_width > MAX_BUTTON_WIDTH {
        Some("snap button width must be between 1 and 1024"@)
    } else if right_index > MAX_RIGHT_INDEX {
        Some("snap right-side button index must not exceed 16"@)
    } else {
        None
    }
}

/// Checks that the overlay geometry is within bounds: a height and a width
/// between 1 and 1024, and at most 16 buttons right of the overlay.
pub fn validate_geometry(titlebar_height: u32, button_width: u32, right_index: u32) -> (r: Result<
    (),
    String,
>)
    ensures
        match (r, geometry_error(titlebar_height, button_width, right_index)) {
            (Ok(()), None) => true,
            (Err(e), Some(m)) => e@ == m,
            _ => false,
        },
{
    if titlebar_height == 0 || titlebar_height > MAX_TITLEBAR_HEIGHT {
        proof {
            reveal_strlit("snap titlebar height must be between 1 and 1024");
        }
        return Err(String::from_str("snap titlebar height must be between 1 and 1024"));
    }
    if button_width == 0 || button_width > MAX_BUTTON_WIDTH {
        proof {
            reveal_strlit("snap button width must be between 1 and 1024");
        }
        return Err(String::from_str("snap button width must be between 1 and 1024"));
    }
    if right_index > MAX_RIGHT_INDEX {
        proof {
            reveal_strlit("snap right-side button index must not exceed 16");
        }
        return Err(String::from_str("snap right-side button index must not exceed 16"));
    }
    Ok(())
}

/// `x` clamped to the range of `i32`.
pub open spec fn clamp_i32(x: int) -> i32 {
    if x > i32::MAX {
        i32::MAX
    } else if x < i32::MIN {
        i32::MIN
    } else {
        x as i32
    }
}

/// A logical length in device pixels at `dpi` dots per inch (96 is 100%),
/// rounded half up, capped at `i32::MAX` and at least 1. The product and
/// the rounding term saturate at `u64::MAX`.
pub open spec fn scaled_length(value: u32, dpi: u64) -> i32 {
    let product = if value * dpi > u64::MAX {
        u64::MAX as int
    } else {
        value * dpi
    };
    let rounded = if product + 48 > u64::MAX {
        u64::MAX as int
    } else {
        product + 48
    };
    let pixels = rounded / 96;
    if pixels > i32::MAX {
        i32::MAX
    } else if pixels < 1 {
        1
    } else {
        pixels as i32
    }
}

/// A logical length in device pixels at `dpi`, as `scaled_length` says.
pub fn scaled(value: u32, dpi: u64) -> (r: i32)
    ensures
        r == scaled_length(value, dpi),
{
    assert((value as u128) * (dpi as u128) <= (u32::MAX as u128) * (u64::MAX as u128)) by (nonlinear_arith);
    let wide: u128 = (value as u128) * (dpi as u128);
    let product: u64 = if wide > u64::MAX as u128 {
        u64::MAX
    } else {
        wide as u64
    };
    let rounded = product.saturating_add(48);
    let pixels = rounded / 96;
    if pixels > i32::MAX as u64 {
        i32::MAX
    } else if pixels < 1 {
        1
    } else {
        pixels as i32
    }
}

/// Scaling rounds to the nearest device pixel, halves up: when `value`
/// logical pixels at `dpi` come to at least half a device pixel and do not
/// exceed `i32::MAX` device pixels, the scaled length `n` is the one with
/// `n - 1/2 <= value * dpi / 96 < n + 1/2`. Below half a pixel it is 1,
/// and it never leaves `1..=i32::MAX`.
pub proof fn lemma_scaling_rounds_to_nearest_pixel(value: u32, dpi: u64)
    ensures
        1 <= scaled_length(value, dpi) <= i32::MAX,
        48 <= value * dpi && value * dpi + 48 < 96 * (i32::MAX + 1) ==> {
            let n = scaled_length(value, dpi) as int;
            &&& 96 * n <= value * dpi + 48
            &&& value * dpi + 48 < 96 * (n + 1)
        },
        value * dpi < 48 ==> scaled_length(value, dpi) == 1,
{
    assert(value * dpi >= 0) by (nonlinear_arith);
}

/// At 100% (96 dpi) a length is unchanged, and at 200% it is doubled, as
/// long as the result fits in `i32`.
pub proof fn lemma_scaling_is_proportional(value: u32)
    requires
        1 <= value,
        2 * value <= i32::MAX,
    ensures
        scaled_length(value, 96) == value,
        scaled_length(value, 192) == 2 * value,
{
    assert(value * 96u64 == 96 * value) by (nonlinear_arith);
    assert(value * 192u64 == 192 * value) by (nonlinear_arith);
}

/// The left edge of the overlay: `right_index + 1` buttons of
/// `button_width` device pixels left of the client area's right edge, each
/// step saturating at the bounds of `i32`.
pub open spec fn overlay_left(client_right: i32, button_width: i32, right_index: u32) -> i32 {
    let count: int = if right_index as int + 1 > u32::MAX {
        u32::MAX as int
    } else {
        right_index as int + 1
    };
    let count_i32: int = if count > i32::MAX {
        i32::MAX as int
    } else {
        count
    };
    let occupied = clamp_i32(button_width * count_i32);
    clamp_i32(client_right - occupied)
}

/// The left edge of the overlay, as `overlay_left` says.
pub fn overlay_x(client_right: i32, button_width: i32, right_index: u32) -> (r: i32)
    ensures
        r == overlay_left(client_right, button_width, right_index),
{
    let count: u32 = right_index.saturating_add(1);
    let count_i32: i64 = if count > i32::MAX as u32 {
        i32::MAX as i64
    } else {
        count as i64
    };
    assert(-0x8000_0000 * 0x7fff_ffff <= (button_width as i64) * count_i32 <= 0x7fff_ffff
        * 0x7fff_ffff) by (nonlinear_arith)
        requires
            -0x8000_0000 <= button_width <= 0x7fff_ffff,
            1 <= count_i32 <= 0x7fff_ffff,
    ;
    let product: i64 = (button_width as i64) * count_i32;
    let occupied: i64 = if product > i32::MAX as i64 {
        i32::MAX as i64
    } else if product < i32::MIN as i64 {
        i32::MIN as i64
    } else {
        product
    };
    let difference: i64 = (client_right as i64) - occupied;
    if difference > i32::MAX as i64 {
        i32::MAX
    } else if difference < i32::MIN as i64 {
        i32::MIN
    } else {
        difference as i32
    }
}

/// A pointer position in client coordinates of the parent window.
#[derive(Clone, Copy, Debug, Eq, PartialEq, Structural)]
pub struct PointerPosition {
    pub x: i32,
    pub y: i32,
}

/// The signed 16-bit value in the low word of `v`.
pub open spec fn low_word_signed(v: int) -> i32 {
    let w = v % 0x1_0000;
    if w >= 0x8000 {
        (w - 0x1_0000) as i32
    } else {
        w as i32
    }
}

/// The client-independent pointer coordinates packed into the `LPARAM` of
/// a non-client mouse message: the signed low word is x, the signed high
/// word (after an arithmetic shift) is y.
#[verifier::spinoff_prover]
#[verifier::rlimit(30)]
pub fn pointer_from_lparam(lparam: isize) -> (r: (i32, i32))
    ensures
        r.0 == low_word_signed(lparam as int),
        r.1 == low_word_signed(lparam as int / 0x1_0000),
{
    let v = lparam as i64;
    let (low, high): (i64, i64) = if v >= 0 {
        (v % 0x1_0000, (v / 0x1_0000) % 0x1_0000)
    } else {
        let w: i64 = -(v + 1);
        let floor_div: i64 = -(w / 0x1_0000) - 1;
        let high_w: i64 = if floor_div >= 0 {
            floor_div % 0x1_0000
        } else {
            0xffff - ((-(floor_div + 1)) % 0x1_0000)
        };
        (0xffff - (w % 0x1_0000), high_w)
    };
    let x: i32 = if low >= 0x8000 {
        (low - 0x1_0000) as i32
    } else {
        low as i32
    };
    let y: i32 = if high >= 0x8000 {
        (high - 0x1_0000) as i32
    } else {
        high as i32
    };
    (x, y)
}

/// Which button of the control strip the snap overlay covers: the
/// maximize button, counted from the right (one more if a close button
/// follows it). Without a maximize button there is no overlay.
pub fn snap_overlay_index(controls: &[&'static str]) -> (r: Option<u32>)
    ensures
        r == (if controls@.map_values(|s: &str| s@).contains("maximize"@) {
            Some(
                if controls@.map_values(|s: &str| s@).contains("close"@) {
                    1u32
                } else {
                    0u32
                },
            )
        } else {
            None
        }),
{
    if !contains_control(controls, "maximize") {
        return None;
    }
    if contains_control(controls, "close") {
        Some(1)
    } else {
        Some(0)
    }
}

fn contains_control(controls: &[&'static str], name: &str) -> (r: bool)
    ensures
        r == controls@.map_values(|s: &str| s@).contains(name@),
{
    let mut i: usize = 0;
    while i < controls.len()
        invariant
            0 <= i <= controls.len(),
            forall|k: int| 0 <= k < i ==> controls@[k]@ != name@,
        decreases controls.len() - i,
    {
        if crate::text::str_eq(controls[i], name) {
            assert(controls@.map_values(|s: &str| s@)[i as int] == name@);
            return true;
        }
        i = i + 1;
    }
    proof {
        if controls@.map_values(|s: &str| s@).contains(name@) {
            let views = controls@.map_values(|s: &str| s@);
            let k = choose|k: int| 0 <= k < views.len() && #[trigger] views[k] == name@;
            assert(controls@[k]@ == name@);
        }
    }
    false
}

/// The pointer and fullscreen state of one overlay.
#[derive(Clone, Copy, Debug, Eq, PartialEq, Structural)]
pub struct SnapEntry {
    pub overlay: isize,
    pub geometry: Geometry,
    pub hovering: bool,
    pub pressing: bool,
    pub fullscreen: bool,
    pub last_position: Option<PointerPosition>,
}

/// A snapshot of what positioning an overlay needs.
#[derive(Clone, Copy, Debug, Eq, PartialEq, Structural)]
pub struct Position {
    pub overlay: isize,
    pub geometry: Geometry,
    pub fullscreen: bool,
}

impl Position {
    pub fn overlay(self) -> (r: isize)
        ensures
            r == self.overlay,
    {
        self.overlay
    }

    pub fn titlebar_height(self) -> (r: u32)
        ensures
            r == self.geometry.titlebar_height,
    {
        self.geometry.titlebar_height
    }

    pub fn button_width(self) -> (r: u32)
        ensures
            r == self.geometry.button_width,
    {
        self.geometry.button_width
    }

    pub fn right_index(self) -> (r: u32)
        ensures
            r == self.geometry.right_index,
    {
        self.geometry.right_index
    }

    pub fn fullscreen(self) -> (r: bool)
        ensures
            r == self.fullscreen,
    {
        self.fullscreen
    }
}

/// A registry entry taken out of the registry.
#[derive(Clone, Copy, Debug, Eq, PartialEq, Structural)]
pub struct Removed {
    pub parent: isize,
    pub overlay: isize,
}

impl Removed {
    pub fn parent(&self) -> (r: isize)
        ensures
            r == self.parent,
    {
        self.parent
    }

    pub fn overlay(&self) -> (r: isize)
        ensures
            r == self.overlay,
    {
        self.overlay
    }
}

pub open spec fn position_of(e: SnapEntry) -> Position {
    Position { overlay: e.overlay, geometry: e.geometry, fullscreen: e.fullscreen }
}

/// A pointer move to `(x, y)`: a move notice unless the pointer is already
/// known to be there, then an enter notice unless it was already hovering.
pub open spec fn move_step(e: SnapEntry, x: i32, y: i32) -> (SnapEntry, Seq<Notice>) {
    (
        SnapEntry { last_position: Some(PointerPosition { x, y }), hovering: true, ..e },
        (if e.last_position != Some(PointerPosition { x, y }) {
            seq![Notice::Move(x, y)]
        } else {
            Seq::empty()
        }) + (if !e.hovering {
            seq![Notice::Event(SnapEvent::MouseEnter)]
        } else {
            Seq::empty()
        }),
    )
}

/// The pointer left: a leave notice if it was hovering or pressing.
pub open spec fn leave_step(e: SnapEntry) -> (SnapEntry, Seq<Notice>) {
    (
        SnapEntry { hovering: false, pressing: false, ..e },
        if e.hovering || e.pressing {
            seq![Notice::Event(SnapEvent::MouseLeave)]
        } else {
            Seq::empty()
        },
    )
}

/// The button went down over the overlay.
pub open spec fn down_step(e: SnapEntry) -> (SnapEntry, Seq<Notice>) {
    (SnapEntry { pressing: true, ..e }, seq![Notice::Event(SnapEvent::MouseDown)])
}

/// The button went up over the overlay: a click if it went down there.
pub open spec fn up_step(e: SnapEntry) -> (SnapEntry, Seq<Notice>) {
    (
        SnapEntry { pressing: false, ..e },
        seq![Notice::Event(SnapEvent::MouseUp)] + if e.pressing {
            seq![Notice::Event(SnapEvent::Click)]
        } else {
            Seq::empty()
        },
    )
}

/// The registry after `parent` enters (`fullscreen`) or leaves fullscreen,
/// if that changes anything.
pub open spec fn fullscreen_update(m: Map<isize, SnapEntry>, parent: isize, fullscreen: bool) -> Option<
    Map<isize, SnapEntry>,
> {
    if m.dom().contains(parent) && m[parent].fullscreen != fullscreen {
        Some(m.insert(parent, SnapEntry { fullscreen, ..m[parent] }))
    } else {
        None
    }
}

/// The registry after a fullscreen change to `attempted` is undone, if
/// `parent` is in that state.
pub open spec fn fullscreen_rollback(m: Map<isize, SnapEntry>, parent: isize, attempted: bool) -> Option<
    Map<isize, SnapEntry>,
> {
    if m.dom().contains(parent) && m[parent].fullscreen == attempted {
        Some(m.insert(parent, SnapEntry { fullscreen: !attempted, ..m[parent] }))
    } else {
        None
    }
}

/// Undoing a fullscreen change restores the registry it was made from, and
/// the change can then be made again.
pub proof fn lemma_fullscreen_rollback_restores(
    m: Map<isize, SnapEntry>,
    parent: isize,
    fullscreen: bool,
)
    requires
        fullscreen_update(m, parent, fullscreen) is Some,
    ensures
        fullscreen_rollback(fullscreen_update(m, parent, fullscreen)->0, parent, fullscreen) == Some(
            m,
        ),
        fullscreen_update(m, parent, fullscreen) == fullscreen_update(
            fullscreen_rollback(fullscreen_update(m, parent, fullscreen)->0, parent, fullscreen)->0,
            parent,
            fullscreen,
        ),
{
    let m1 = fullscreen_update(m, parent, fullscreen)->0;
    assert(m1.insert(parent, SnapEntry { fullscreen: !fullscreen, ..m1[parent] }) =~= m);
}

/// A repeated fullscreen state is reported once: after a change, the same
/// change yields nothing.
pub proof fn lemma_fullscreen_changes_are_deduplicated(
    m: Map<isize, SnapEntry>,
    parent: isize,
    fullscreen: bool,
)
    requires
        fullscreen_update(m, parent, fullscreen) is Some,
    ensures
        fullscreen_update(fullscreen_update(m, parent, fullscreen)->0, parent, fullscreen) is None,
{
}

/// A click is reported exactly for a press and release over the overlay:
/// releasing after a press reports the release and a click; leaving in
/// between cancels the click.
pub proof fn lemma_click_needs_press_and_release(e: SnapEntry)
    ensures
        up_step(down_step(e).0).1 == seq![
            Notice::Event(SnapEvent::MouseUp),
            Notice::Event(SnapEvent::Click),
        ],
        up_step(leave_step(down_step(e).0).0).1 == seq![Notice::Event(SnapEvent::MouseUp)],
        leave_step(down_step(e).0).1 == seq![Notice::Event(SnapEvent::MouseLeave)],
{
    assert(up_step(down_step(e).0).1 =~= seq![
        Notice::Event(SnapEvent::MouseUp),
        Notice::Event(SnapEvent::Click),
    ]);
    assert(up_step(leave_step(down_step(e).0).0).1 =~= seq![Notice::Event(SnapEvent::MouseUp)]);
}

/// Pointer notices are ordered and duplicate moves are suppressed: the
/// first move reports the position and then the entry, and a second move to
/// the same position reports nothing.
pub proof fn lemma_repeated_moves_are_silent(e: SnapEntry, x: i32, y: i32)
    requires
        !e.hovering,
        e.last_position is None,
    ensures
        move_step(e, x, y).1 == seq![Notice::Move(x, y), Notice::Event(SnapEvent::MouseEnter)],
        move_step(move_step(e, x, y).0, x, y).1 == Seq::<Notice>::empty(),
{
    assert(move_step(e, x, y).1 =~= seq![Notice::Move(x, y), Notice::Event(SnapEvent::MouseEnter)]);
    assert(move_step(move_step(e, x, y).0, x, y).1 =~= Seq::<Notice>::empty());
}

/// The outcome of tearing down the overlay of a window, from whether its
/// subclass was removed and why destroying the overlay failed, if it did.
pub open spec fn teardown_report(subclass_removed: bool, destroy_error: Option<Seq<char>>) -> Result<
    (),
    Seq<char>,
> {
    match (subclass_removed, destroy_error) {
        (true, None) => Ok(()),
        (false, None) => Err("RemoveWindowSubclass failed for the snap overlay"@),
        (true, Some(e)) => Err("DestroyWindow failed for the snap overlay: "@ + e),
        (false, Some(e)) => Err("RemoveWindowSubclass failed; DestroyWindow also failed: "@ + e),
    }
}

/// Reports the teardown of a window's overlay as `teardown_report` says.
pub fn overlay_teardown_result(subclass_removed: bool, destroy_error: Option<String>) -> (r: Result<
    (),
    String,
>)
    ensures
        match (r, teardown_report(
            subclass_removed,
            match destroy_error {
                Some(e) => Some(e@),
                None => None,
            },
        )) {
            (Ok(()), Ok(())) => true,
            (Err(e), Err(m)) => e@ == m,
            _ => false,
        },
{
    match destroy_error {
        None => if subclass_removed {
            Ok(())
        } else {
            proof {
                reveal_strlit("RemoveWindowSubclass failed for the snap overlay");
            }
            Err(String::from_str("RemoveWindowSubclass failed for the snap overlay"))
        },
        Some(error) => {
            let mut message = if subclass_removed {
                proof {
                    reveal_strlit("DestroyWindow failed for the snap overlay: ");
                }
                String::from_str("DestroyWindow failed for the snap overlay: ")
            } else {
                proof {
                    reveal_strlit("RemoveWindowSubclass failed; DestroyWindow also failed: ");
                }
                String::from_str("RemoveWindowSubclass failed; DestroyWindow also failed: ")
            };
            message.append(error.as_str());
            Err(message)
        },
    }
}

/// Which pointer message arrived.
#[derive(Clone, Copy, Debug, Eq, PartialEq, Structural)]
pub enum PointerMessage {
    Move(i32, i32),
    Leave,
    Down,
    Up,
}

pub open spec fn pointer_step(e: SnapEntry, message: PointerMessage) -> (SnapEntry, Seq<Notice>) {
    match message {
        PointerMessage::Move(x, y) => move_step(e, x, y),
        PointerMessage::Leave => leave_step(e),
        PointerMessage::Down => down_step(e),
        PointerMessage::Up => up_step(e),
    }
}

/// The overlay registry: one entry per parent window handle.
pub struct Registry {
    entries: HashMap<isize, SnapEntry>,
}

impl View for Registry {
    type V = Map<isize, SnapEntry>;

    closed spec fn view(&self) -> Map<isize, SnapEntry> {
        self.entries@
    }
}

impl Registry {
    /// The registry holds finitely many entries.
    pub closed spec fn wf(&self) -> bool {
        self.entries@.dom().finite()
    }

    /// An empty registry.
    pub fn new() -> (r: Self)
        ensures
            r.wf(),
            r@ == Map::<isize, SnapEntry>::empty(),
    {
        Registry { entries: HashMap::new() }
    }

    /// The entry of `parent`.
    fn entry(&self, parent: isize) -> (r: Option<SnapEntry>)
        ensures
            r == (if self@.dom().contains(parent) {
                Some(self@[parent])
            } else {
                None
            }),
    {
        match self.entries.get(&parent) {
            Some(entry) => Some(*entry),
            None => None,
        }
    }

    /// The parent whose overlay is `overlay`.
    fn find_overlay(&self, overlay: isize) -> (r: Option<isize>)
        ensures
            match r {
                Some(p) => self@.dom().contains(p) && self@[p].overlay == overlay,
                None => forall|p: isize| #[trigger]
                    self@.dom().contains(p) ==> self@[p].overlay != overlay,
            },
    {
        for (parent, entry) in it: self.entries.iter()
            invariant
                forall|k: int| 0 <= k < it.index() ==> (#[trigger] it.seq()[k]).1.overlay != overlay,
        {
            if entry.overlay == overlay {
                return Some(*parent);
            }
        }
        None
    }

    /// Registers the overlay `overlay` of `parent`; a parent that already
    /// has one keeps it and the request is refused.
    pub fn insert(&mut self, parent: isize, overlay: isize, geometry: Geometry) -> (r: Result<
        (),
        &'static str,
    >)
        requires
            old(self).wf(),
        ensures
            final(self).wf(),
            old(self)@.dom().contains(parent) ==> final(self)@ == old(self)@ && r is Err,
            !old(self)@.dom().contains(parent) ==> r is Ok && final(self)@ == old(self)@.insert(
                parent,
                SnapEntry {
                    overlay,
                    geometry,
                    hovering: false,
                    pressing: false,
                    fullscreen: false,
                    last_position: None,
                },
            ),
            r matches Err(m) ==> m@ == "a snap overlay is already installed for this window"@,
    {
        if self.entries.contains_key(&parent) {
            proof {
                reveal_strlit("a snap overlay is already installed for this window");
            }
            return Err("a snap overlay is already installed for this window");
        }
        self.entries.insert(
            parent,
            SnapEntry {
                overlay,
                geometry,
                hovering: false,
                pressing: false,
                fullscreen: false,
                last_position: None,
            },
        );
        Ok(())
    }

    /// Takes the entry of `parent` out of the registry.
    pub fn remove_parent(&mut self, parent: isize) -> (r: Option<Removed>)
        requires
            old(self).wf(),
        ensures
            final(self).wf(),
            final(self)@ == old(self)@.remove(parent),
            match r {
                Some(removed) => old(self)@.dom().contains(parent) && removed == (Removed {
                    parent,
                    overlay: old(self)@[parent].overlay,
                }),
                None => !old(self)@.dom().contains(parent),
            },
    {
        match self.entries.remove(&parent) {
            Some(entry) => Some(Removed { parent, overlay: entry.overlay }),
            None => {
                assert(old(self)@.remove(parent) =~= old(self)@);
                None
            },
        }
    }

    /// Takes the entry whose overlay is `overlay` out of the registry.
    pub fn remove_overlay(&mut self, overlay: isize) -> (r: Option<Removed>)
        requires
            old(self).wf(),
        ensures
            final(self).wf(),
            match r {
                Some(removed) => old(self)@.dom().contains(removed.parent) && old(self)@[removed.parent].overlay == overlay && removed.overlay == overlay && final(self)@ == old(self)@.remove(removed.parent),
                None => final(self)@ == old(self)@ && forall|p: isize| #[trigger]
                    old(self)@.dom().contains(p) ==> old(self)@[p].overlay != overlay,
            },
    {
        match self.find_overlay(overlay) {
            Some(parent) => {
                self.entries.remove(&parent);
                Some(Removed { parent, overlay })
            },
            None => None,
        }
    }

    /// The positioning snapshot of `parent`.
    pub fn position(&self, parent: isize) -> (r: Option<Position>)
        requires
            self.wf(),
        ensures
            r == (if self@.dom().contains(parent) {
                Some(position_of(self@[parent]))
            } else {
                None
            }),
    {
        match self.entry(parent) {
            Some(entry) => {
                Some(
                    Position {
                        overlay: entry.overlay,
                        geometry: entry.geometry,
                        fullscreen: entry.fullscreen,
                    },
                )
            },
            None => None,
        }
    }

    /// The parent window of the overlay `overlay`.
    pub fn parent_for_overlay(&self, overlay: isize) -> (r: Option<isize>)
        requires
            self.wf(),
        ensures
            match r {
                Some(p) => self@.dom().contains(p) && self@[p].overlay == overlay,
                None => forall|p: isize| #[trigger]
                    self@.dom().contains(p) ==> self@[p].overlay != overlay,
            },
    {
        self.find_overlay(overlay)
    }

    /// Records the fullscreen state of `parent`. A change yields the new
    /// positioning snapshot and the matching fullscreen notice; an unknown
    /// parent or an unchanged state yields nothing.
    pub fn set_fullscreen(&mut self, parent: isize, fullscreen: bool) -> (r: Option<
        (Position, Vec<Notice>),
    >)
        requires
            old(self).wf(),
        ensures
            final(self).wf(),
            if let Some(updated) = fullscreen_update(old(self)@, parent, fullscreen) {
                &&& final(self)@ == updated
                &&& r matches Some((position, notices)) && position == position_of(updated[parent])
                    && notices@ == seq![
                    Notice::Event(
                        if fullscreen {
                            SnapEvent::FullscreenEnter
                        } else {
                            SnapEvent::FullscreenExit
                        },
                    ),
                ]
            } else {
                final(self)@ == old(self)@ && r is None
            },
    {
        let entry = match self.entry(parent) {
            Some(entry) => entry,
            None => {
                return None;
            },
        };
        if entry.fullscreen == fullscreen {
            return None;
        }
        let updated = SnapEntry { fullscreen, ..entry };
        self.entries.insert(parent, updated);
        let mut notices: Vec<Notice> = Vec::new();
        notices.push(
            Notice::Event(
                if fullscreen {
                    SnapEvent::FullscreenEnter
                } else {
                    SnapEvent::FullscreenExit
                },
            ),
        );
        Some(
            (
                Position {
                    overlay: updated.overlay,
                    geometry: updated.geometry,
                    fullscreen,
                },
                notices,
            ),
        )
    }

    /// Undoes a fullscreen change to `attempted` whose native update failed.
    pub fn rollback_fullscreen(&mut self, parent: isize, attempted: bool) -> (r: bool)
        requires
            old(self).wf(),
        ensures
            final(self).wf(),
            match fullscreen_rollback(old(self)@, parent, attempted) {
                Some(restored) => r && final(self)@ == restored,
                None => !r && final(self)@ == old(self)@,
            },
    {
        let entry = match self.entry(parent) {
            Some(entry) => entry,
            None => {
                return false;
            },
        };
        if entry.fullscreen != attempted {
            return false;
        }
        self.entries.insert(parent, SnapEntry { fullscreen: !attempted, ..entry });
        true
    }

    /// Applies a pointer message of the overlay `overlay`; an unknown
    /// overlay changes nothing and yields no notice.
    pub fn pointer(&mut self, overlay: isize, message: PointerMessage) -> (r: Vec<Notice>)
        requires
            old(self).wf(),
        ensures
            final(self).wf(),
            (forall|p: isize| #[trigger]
                old(self)@.dom().contains(p) ==> old(self)@[p].overlay != overlay) ==> final(self)@ == old(self)@ && r@ == Seq::<Notice>::empty(),
            (exists|p: isize| #[trigger]
                old(self)@.dom().contains(p) && old(self)@[p].overlay == overlay) ==> exists|p: isize|
                #[trigger] old(self)@.dom().contains(p) && old(self)@[p].overlay == overlay && ({
                    let (next, notices) = pointer_step(old(self)@[p], message);
                    final(self)@ == old(self)@.insert(p, next) && r@ == notices
                }),
    {
        let parent = match self.find_overlay(overlay) {
            Some(parent) => parent,
            None => {
                return Vec::new();
            },
        };
        let mut entry = match self.entry(parent) {
            Some(entry) => entry,
            None => {
                return Vec::new();
            },
        };
        let mut notices: Vec<Notice> = Vec::new();
        match message {
            PointerMessage::Move(x, y) => {
                let moved = match entry.last_position {
                    Some(last) => last.x != x || last.y != y,
                    None => true,
                };
                if moved {
                    entry.last_position = Some(PointerPosition { x, y });
                    notices.push(Notice::Move(x, y));
                }
                if !entry.hovering {
                    entry.hovering = true;
                    notices.push(Notice::Event(SnapEvent::MouseEnter));
                }
            },
            PointerMessage::Leave => {
                let should_emit = entry.hovering || entry.pressing;
                entry.hovering = false;
                entry.pressing = false;
                if should_emit {
                    notices.push(Notice::Event(SnapEvent::MouseLeave));
                }
            },
            PointerMessage::Down => {
                entry.pressing = true;
                notices.push(Notice::Event(SnapEvent::MouseDown));
            },
            PointerMessage::Up => {
                let click = entry.pressing;
                entry.pressing = false;
                notices.push(Notice::Event(SnapEvent::MouseUp));
                if click {
                    notices.push(Notice::Event(SnapEvent::Click));
                }
            },
        }
        let ghost before = self@[parent];
        assert(entry == pointer_step(before, message).0);
        assert(notices@ =~= pointer_step(before, message).1);
        self.entries.insert(parent, entry);
        notices
    }

    /// A pointer move over the overlay `overlay`.
    pub fn mouse_move(&mut self, overlay: isize, x: i32, y: i32) -> (r: Vec<Notice>)
        requires
            old(self).wf(),
        ensures
            final(self).wf(),
            (forall|p: isize| #[trigger]
                old(self)@.dom().contains(p) ==> old(self)@[p].overlay != overlay) ==> final(self)@ == old(self)@ && r@ == Seq::<Notice>::empty(),
            (exists|p: isize| #[trigger]
                old(self)@.dom().contains(p) && old(self)@[p].overlay == overlay) ==> exists|p: isize|
                #[trigger] old(self)@.dom().contains(p) && old(self)@[p].overlay == overlay && ({
                    let (next, notices) = move_step(old(self)@[p], x, y);
                    final(self)@ == old(self)@.insert(p, next) && r@ == notices
                }),
    {
        self.pointer(overlay, PointerMessage::Move(x, y))
    }

    /// The pointer left the overlay `overlay`.
    pub fn mouse_leave(&mut self, overlay: isize) -> (r: Vec<Notice>)
        requires
            old(self).wf(),
        ensures
            final(self).wf(),
            (forall|p: isize| #[trigger]
                old(self)@.dom().contains(p) ==> old(self)@[p].overlay != overlay) ==> final(self)@ == old(self)@ && r@ == Seq::<Notice>::empty(),
            (exists|p: isize| #[trigger]
                old(self)@.dom().contains(p) && old(self)@[p].overlay == overlay) ==> exists|p: isize|
                #[trigger] old(self)@.dom().contains(p) && old(self)@[p].overlay == overlay && ({
                    let (next, notices) = leave_step(old(self)@[p]);
                    final(self)@ == old(self)@.insert(p, next) && r@ == notices
                }),
    {
        self.pointer(overlay, PointerMessage::Leave)
    }

    /// The button went down over the overlay `overlay`.
    pub fn mouse_down(&mut self, overlay: isize) -> (r: Vec<Notice>)
        requires
            old(self).wf(),
        ensures
            final(self).wf(),
            (forall|p: isize| #[trigger]
                old(self)@.dom().contains(p) ==> old(self)@[p].overlay != overlay) ==> final(self)@ == old(self)@ && r@ == Seq::<Notice>::empty(),
            (exists|p: isize| #[trigger]
                old(self)@.dom().contains(p) && old(self)@[p].overlay == overlay) ==> exists|p: isize|
                #[trigger] old(self)@.dom().contains(p) && old(self)@[p].overlay == overlay && ({
                    let (next, notices) = down_step(old(self)@[p]);
                    final(self)@ == old(self)@.insert(p, next) && r@ == notices
                }),
    {
        self.pointer(overlay, PointerMessage::Down)
    }

    /// The button went up over the overlay `overlay`.
    pub fn mouse_up(&mut self, overlay: isize) -> (r: Vec<Notice>)
        requires
            old(self).wf(),
        ensures
            final(self).wf(),
            (forall|p: isize| #[trigger]
                old(self)@.dom().contains(p) ==> old(self)@[p].overlay != overlay) ==> final(self)@ == old(self)@ && r@ == Seq::<Notice>::empty(),
            (exists|p: isize| #[trigger]
                old(self)@.dom().contains(p) && old(self)@[p].overlay == overlay) ==> exists|p: isize|
                #[trigger] old(self)@.dom().contains(p) && old(self)@[p].overlay == overlay && ({
                    let (next, notices) = up_step(old(self)@[p]);
                    final(self)@ == old(self)@.insert(p, next) && r@ == notices
                }),
    {
        self.pointer(overlay, PointerMessage::Up)
    }
}

/// Whether `notices` holds a pointer-enter notice, after which the overlay
/// must ask Windows to report the pointer leaving.
pub fn entered(notices: &Vec<Notice>) -> (r: bool)
    ensures
        r == notices@.contains(Notice::Event(SnapEvent::MouseEnter)),
{
    let mut i: usize = 0;
    while i < notices.len()
        invariant
            0 <= i <= notices.len(),
            forall|k: int| 0 <= k < i ==> notices@[k] != Notice::Event(SnapEvent::MouseEnter),
        decreases notices.len() - i,
    {
        if notices[i] == Notice::Event(SnapEvent::MouseEnter) {
            return true;
        }
        i = i + 1;
    }
    false
}

} // verus!
