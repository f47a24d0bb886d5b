//! Which window controls a titlebar shows, and on which side.
//!
//! GTK describes the side of each titlebar button with its
//! `gtk-decoration-layout` setting; other platforms derive the controls from
//! what the window allows.

use crate::text::{
    chars_of, control_name_in, free_of, is_window_control, lemma_split_two_parts, split_chars,
    split_fields, str_eq, trim, trimmed_bounds, Separators,
};
use vstd::prelude::*;

verus! {

pub open spec fn str_views(v: Seq<&str>) -> Seq<Seq<char>> {
    v.map_values(|s: &str| s@)
}

/// The window controls shown left and right of the title.
#[derive(Clone, Debug, Default, Eq, PartialEq)]
pub struct ControlLayout {
    pub left: Vec<&'static str>,
    pub right: Vec<&'static str>,
}

/// The windowing backend behind a GTK display.
#[derive(Clone, Copy, Debug, Eq, PartialEq, Structural)]
pub enum Backend {
    Wayland,
}

/// A GTK display whose backend cannot host custom decorations.
#[derive(Clone, Debug, Eq, PartialEq)]
pub struct UnsupportedDisplay {
    /// The type name of the display.
    pub display_type: String,
}

/// The backend of a GTK display with type name `display_type`: only a real
/// Wayland display (`GdkWaylandDisplay`) hosts custom decorations.
pub fn backend_from_display_type(display_type: &str) -> (r: Result<Backend, UnsupportedDisplay>)
    ensures
        match r {
            Ok(b) => b == Backend::Wayland && display_type@ == "GdkWaylandDisplay"@,
            Err(e) => e.display_type@ == display_type@ && display_type@ != "GdkWaylandDisplay"@,
        },
{
    if str_eq(display_type, "GdkWaylandDisplay") {
        Ok(Backend::Wayland)
    } else {
        Err(UnsupportedDisplay { display_type: display_type.to_owned() })
    }
}

/// The padded standard-alphabet base64 text of `bytes`.
pub uninterp spec fn base64_standard(bytes: Seq<u8>) -> Seq<char>;

/// How long the padded base64 text of `n` bytes is.
pub open spec fn base64_len(n: nat) -> nat {
    ((n + 2) / 3 * 4) as nat
}

/// Encodes `bytes` with `base64`'s `STANDARD` engine (`Engine::encode`).
///
/// Trusted: the engine writes the padded standard-alphabet text, named
/// `base64_standard`, whose length `encoded_len` gives as four characters
/// for every started group of three bytes. `encode` panics only when that
/// length overflows `usize`, which `requires` rules out.
#[verifier::external_body]
fn base64_encode(bytes: &[u8]) -> (r: String)
    requires
        base64_len(bytes@.len()) <= usize::MAX,
    ensures
        r@ == base64_standard(bytes@),
        r@.len() == base64_len(bytes@.len()),
{
    base64::Engine::encode(&base64::engine::general_purpose::STANDARD, bytes)
}

pub open spec fn png_data_url_text(png: Seq<u8>) -> Seq<char> {
    "data:image/png;base64,"@ + base64_standard(png)
}

/// The `data:` URL that embeds the PNG image `png` in the frontend.
pub fn png_data_url(png: &[u8]) -> (r: String)
    requires
        base64_len(png@.len()) <= usize::MAX,
    ensures
        r@ == png_data_url_text(png@),
{
    let mut url = String::from_str("data:image/png;base64,");
    let encoded = base64_encode(png);
    url.append(encoded.as_str());
    proof {
        reveal_strlit("data:image/png;base64,");
    }
    url
}

/// The icon scale used to rasterize theme icons: the window scale factor
/// clamped to `1..=4`.
pub fn bounded_scale(scale: i32) -> (r: i32)
    ensures
        r == (if scale < 1 {
            1
        } else if scale > 4 {
            4
        } else {
            scale
        }),
{
    if scale < 1 {
        1
    } else if scale > 4 {
        4
    } else {
        scale
    }
}

/// The controls a window offers on Windows and macOS: minimize if the window
/// is minimizable, maximize if it is maximizable and resizable, and close if
/// it is closable, in that order.
pub fn window_controls(minimizable: bool, maximizable: bool, resizable: bool, closable: bool) -> (r:
    Vec<&'static str>)
    ensures
        str_views(r@) == (if minimizable {
            seq!["minimize"@]
        } else {
            Seq::empty()
        }) + (if maximizable && resizable {
            seq!["maximize"@]
        } else {
            Seq::empty()
        }) + (if closable {
            seq!["close"@]
        } else {
            Seq::empty()
        }),
{
    let mut controls: Vec<&'static str> = Vec::new();
    if minimizable {
        controls.push("minimize");
    }
    if maximizable && resizable {
        controls.push("maximize");
    }
    if closable {
        controls.push("close");
    }
    assert(str_views(controls@) =~= (if minimizable {
        seq!["minimize"@]
    } else {
        Seq::empty()
    }) + (if maximizable && resizable {
        seq!["maximize"@]
    } else {
        Seq::empty()
    }) + (if closable {
        seq!["close"@]
    } else {
        Seq::empty()
    }));
    controls
}

/// The controls a GTK window offers: minimize always, maximize if the window
/// is resizable and close if it is deletable, in that order.
pub fn gtk_window_controls(resizable: bool, deletable: bool) -> (r: Vec<&'static str>)
    ensures
        str_views(r@) == seq!["minimize"@] + (if resizable {
            seq!["maximize"@]
        } else {
            Seq::empty()
        }) + (if deletable {
            seq!["close"@]
        } else {
            Seq::empty()
        }),
{
    window_controls(true, true, resizable, deletable)
}

/// The controls named by `fields`, trimmed, in order: those that are window
/// controls, are `available`, and are neither in `seen` nor picked before.
pub open spec fn pick_controls(
    fields: Seq<Seq<char>>,
    available: Seq<Seq<char>>,
    seen: Seq<Seq<char>>,
) -> Seq<Seq<char>>
    decreases fields.len(),
{
    if fields.len() == 0 {
        Seq::empty()
    } else {
        let picked = pick_controls(fields.drop_last(), available, seen);
        let control = trim(fields.last());
        if is_window_control(control) && available.contains(control) && !seen.contains(control)
            && !picked.contains(control) {
            picked.push(control)
        } else {
            picked
        }
    }
}

pub open spec fn separator_message() -> Seq<char> {
    "GTK decoration layout must contain exactly one ':' separator"@
}

pub open spec fn no_controls_message() -> Seq<char> {
    "GTK decoration layout exposes no available window controls"@
}

/// The left and right controls of a `gtk-decoration-layout` value, given
/// the controls the window offers. Without a value every available control
/// goes right. A value must hold exactly one `:`; each side lists controls
/// separated by `,`, each trimmed, unknown, unavailable and repeated names
/// dropped; a value that yields no control at all is refused.
pub open spec fn decoration_layout(value: Option<Seq<char>>, available: Seq<Seq<char>>) -> Result<
    (Seq<Seq<char>>, Seq<Seq<char>>),
    Seq<char>,
> {
    match value {
        None => Ok((Seq::empty(), available)),
        Some(v) => {
            let sections = split_fields(v, Separators::Colon);
            if sections.len() != 2 {
                Err(separator_message())
            } else {
                let left = pick_controls(
                    split_fields(sections[0], Separators::Comma),
                    available,
                    Seq::empty(),
                );
                let right = pick_controls(split_fields(sections[1], Separators::Comma), available, left);
                if left.len() == 0 && right.len() == 0 {
                    Err(no_controls_message())
                } else {
                    Ok((left, right))
                }
            }
        },
    }
}

/// A layout with one ':' between a left and a right part keeps the
/// available controls of each side on that side; it is refused for lacking
/// controls only when neither side names an available control. A control
/// named on the right alone (the left may hold only other buttons, such as
/// `appmenu`) therefore yields a layout with it on the right.
pub proof fn lemma_layout_keeps_each_side(l: Seq<char>, r: Seq<char>, available: Seq<Seq<char>>)
    requires
        free_of(l, Separators::Colon),
        free_of(r, Separators::Colon),
    ensures
        ({
            let left = pick_controls(split_fields(l, Separators::Comma), available, Seq::empty());
            let right = pick_controls(split_fields(r, Separators::Comma), available, left);
            let result = decoration_layout(Some(l + ":"@ + r), available);
            &&& left.len() > 0 || right.len() > 0 ==> result == Ok::<
                (Seq<Seq<char>>, Seq<Seq<char>>),
                Seq<char>,
            >((left, right))
            &&& left.len() == 0 && right.len() == 0 ==> result == Err::<
                (Seq<Seq<char>>, Seq<Seq<char>>),
                Seq<char>,
            >(no_controls_message())
        }),
{
    reveal_strlit(":");
    assert(":"@ == seq![':']);
    lemma_split_two_parts(l, ':', r, Separators::Colon);
}

/// A refusal for lacking controls means neither side had one; any layout
/// that is accepted holds at least one control.
pub proof fn lemma_layout_refused_only_without_controls(
    value: Seq<char>,
    available: Seq<Seq<char>>,
)
    ensures
        decoration_layout(Some(value), available) matches Ok((left, right)) ==> left.len() > 0
            || right.len() > 0,
        decoration_layout(Some(value), available) == Err::<
            (Seq<Seq<char>>, Seq<Seq<char>>),
            Seq<char>,
        >(no_controls_message()) ==> ({
            let sections = split_fields(value, Separators::Colon);
            let left = pick_controls(
                split_fields(sections[0], Separators::Comma),
                available,
                Seq::empty(),
            );
            &&& sections.len() == 2
            &&& left.len() == 0
            &&& pick_controls(split_fields(sections[1], Separators::Comma), available, left).len()
                == 0
        }),
{
    reveal_strlit("GTK decoration layout must contain exactly one ':' separator");
    reveal_strlit("GTK decoration layout exposes no available window controls");
    assert(separator_message()[22] != no_controls_message()[22]);
}

/// Whether `names` holds `name`.
fn contains_name(names: &[&'static str], name: &str) -> (r: bool)
    ensures
        r == str_views(names@).contains(name@),
{
    let mut i: usize = 0;
    while i < names.len()
        invariant
            0 <= i <= names.len(),
            forall|k: int| 0 <= k < i ==> names@[k]@ != name@,
        decreases names.len() - i,
    {
        if str_eq(names[i], name) {
            assert(str_views(names@)[i as int] == name@);
            return true;
        }
        i = i + 1;
    }
    proof {
        if str_views(names@).contains(name@) {
            let k = choose|k: int| 0 <= k < str_views(names@).len() && str_views(names@)[k] == name@;
            assert(names@[k]@ == name@);
        }
    }
    false
}

/// The controls one side of a layout value picks, as `pick_controls` says.
fn pick_side(fields: &Vec<Vec<char>>, available: &[&'static str], seen: &Vec<&'static str>) -> (r:
    Vec<&'static str>)
    ensures
        str_views(r@) == pick_controls(
            fields@.map_values(|f: Vec<char>| f@),
            str_views(available@),
            str_views(seen@),
        ),
{
    let ghost all = fields@.map_values(|f: Vec<char>| f@);
    let mut picked: Vec<&'static str> = Vec::new();
    let mut i: usize = 0;
    assert(all.take(0) =~= Seq::<Seq<char>>::empty());
    assert(str_views(picked@) =~= Seq::<Seq<char>>::empty());
    while i < fields.len()
        invariant
            0 <= i <= fields.len(),
            all == fields@.map_values(|f: Vec<char>| f@),
            str_views(picked@) == pick_controls(all.take(i as int), str_views(available@), str_views(seen@)),
        decreases fields.len() - i,
    {
        assert(all.take(i + 1).drop_last() =~= all.take(i as int));
        assert(all.take(i + 1).last() == fields@[i as int]@);
        let field = &fields[i];
        let (start, end) = trimmed_bounds(field, 0, field.len());
        assert(field@.subrange(0, field.len() as int) =~= field@);
        match control_name_in(field, start, end) {
            Some(name) => {
                if contains_name(available, name) && !contains_name(seen.as_slice(), name)
                    && !contains_name(picked.as_slice(), name) {
                    let ghost before = picked@;
                    picked.push(name);
                    assert(str_views(picked@) =~= str_views(before).push(name@));
                }
            },
            None => {},
        }
        i = i + 1;
    }
    assert(all.take(fields.len() as int) =~= all);
    picked
}

/// The left and right controls of a `gtk-decoration-layout` value, as
/// `decoration_layout` says, given the controls the window offers.
pub fn parse_decoration_layout(value: Option<&str>, available: &[&'static str]) -> (r: Result<
    ControlLayout,
    String,
>)
    ensures
        match (
            r,
            decoration_layout(
                match value {
                    Some(v) => Some(v@),
                    None => None,
                },
                str_views(available@),
            ),
        ) {
            (Ok(layout), Ok((left, right))) => str_views(layout.left@) == left && str_views(
                layout.right@,
            ) == right,
            (Err(e), Err(m)) => e@ == m,
            _ => false,
        },
{
    let value = match value {
        Some(value) => value,
        None => {
            let mut right: Vec<&'static str> = Vec::new();
            let mut i: usize = 0;
            while i < available.len()
                invariant
                    0 <= i <= available.len(),
                    right@ == available@.take(i as int),
                decreases available.len() - i,
            {
                right.push(available[i]);
                assert(available@.take(i + 1) =~= available@.take(i as int).push(available@[i as int]));
                i = i + 1;
            }
            assert(available@.take(available.len() as int) =~= available@);
            let left: Vec<&'static str> = Vec::new();
            assert(str_views(left@) =~= Seq::<Seq<char>>::empty());
            return Ok(ControlLayout { left, right });
        },
    };
    let chars = chars_of(value);
    let sections = split_chars(&chars, Separators::Colon);
    if sections.len() != 2 {
        proof {
            reveal_strlit("GTK decoration layout must contain exactly one ':' separator");
        }
        return Err(String::from_str("GTK decoration layout must contain exactly one ':' separator"));
    }
    let left_fields = split_chars(&sections[0], Separators::Comma);
    let right_fields = split_chars(&sections[1], Separators::Comma);
    let no_seen: Vec<&'static str> = Vec::new();
    assert(str_views(no_seen@) =~= Seq::<Seq<char>>::empty());
    let left = pick_side(&left_fields, available, &no_seen);
    let right = pick_side(&right_fields, available, &left);
    if left.len() == 0 && right.len() == 0 {
        proof {
            reveal_strlit("GTK decoration layout exposes no available window controls");
        }
        return Err(String::from_str("GTK decoration layout exposes no available window controls"));
    }
    Ok(ControlLayout { left, right })
}

} // verus!
