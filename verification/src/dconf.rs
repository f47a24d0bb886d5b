//! The GNOME `button-layout` preference.
//!
//! The preference lists titlebar buttons left and right of a `:`, separated
//! by `,`; only the window controls among them matter here.

use crate::text::{
    chars_of, control_name, is_separator_char, is_window_control, split_fields, trim,
    trimmed_bounds, Separators,
};
use vstd::prelude::*;

verus! {

/// The fields of `fields` that name window controls, in order.
pub open spec fn keep_controls(fields: Seq<Seq<char>>) -> Seq<Seq<char>>
    decreases fields.len(),
{
    if fields.len() == 0 {
        Seq::empty()
    } else {
        let kept = keep_controls(fields.drop_last());
        if is_window_control(fields.last()) {
            kept.push(fields.last())
        } else {
            kept
        }
    }
}

/// The window controls a `button-layout` value lists, left side first.
pub open spec fn button_layout(layout: Seq<char>) -> Seq<Seq<char>> {
    keep_controls(split_fields(layout, Separators::CommaOrColon))
}

pub open spec fn is_quoting(c: char) -> bool {
    c == '\'' || c == '"' || c == '\n'
}

/// `s` without single quotes, double quotes and line feeds.
pub open spec fn strip_quoting(s: Seq<char>) -> Seq<char>
    decreases s.len(),
{
    if s.len() == 0 {
        s
    } else if is_quoting(s.last()) {
        strip_quoting(s.drop_last())
    } else {
        strip_quoting(s.drop_last()).push(s.last())
    }
}

/// The preference value in the output of `dconf read`: the output without
/// its GVariant quoting and line feeds, trimmed.
pub open spec fn dconf_value(output: Seq<char>) -> Seq<char> {
    trim(strip_quoting(output))
}

/// The window controls of the `button-layout` preference, given the output
/// of `dconf read` (`None` when the command could not be run or failed):
/// none for a missing or empty value, and none when the value lists no
/// window control.
pub open spec fn dconf_button_layout(output: Option<Seq<char>>) -> Option<Seq<Seq<char>>> {
    match output {
        None => None,
        Some(o) => if dconf_value(o).len() == 0 {
            None
        } else if button_layout(dconf_value(o)).len() == 0 {
            None
        } else {
            Some(button_layout(dconf_value(o)))
        },
    }
}

/// A `button-layout` value yields its window controls whichever side of
/// the ':' they are on: whenever the value lists at least one window
/// control, the preference is exactly that list; it is absent only when the
/// value lists none (an empty value included).
pub proof fn lemma_listed_controls_are_reported(output: Seq<char>)
    ensures
        dconf_button_layout(Some(output)) == (if button_layout(dconf_value(output)).len() > 0 {
            Some(button_layout(dconf_value(output)))
        } else {
            None::<Seq<Seq<char>>>
        }),
{
    if dconf_value(output).len() == 0 {
        lemma_no_control_in_empty_field();
        assert(dconf_value(output) =~= Seq::<char>::empty());
        assert(split_fields(Seq::<char>::empty(), Separators::CommaOrColon) == seq![
            Seq::<char>::empty(),
        ]);
        let fields = seq![Seq::<char>::empty()];
        assert(fields.drop_last() =~= Seq::<Seq<char>>::empty());
        assert(fields.last() == Seq::<char>::empty());
        assert(keep_controls(Seq::<Seq<char>>::empty()) == Seq::<Seq<char>>::empty());
        assert(keep_controls(fields) == Seq::<Seq<char>>::empty());
    }
}

/// The empty field is no window control.
proof fn lemma_no_control_in_empty_field()
    ensures
        !is_window_control(Seq::<char>::empty()),
{
    reveal_strlit("minimize");
    reveal_strlit("maximize");
    reveal_strlit("close");
    assert("minimize"@.len() > 0);
    assert("maximize"@.len() > 0);
    assert("close"@.len() > 0);
}

/// Controls listed left of a trailing ':' are kept: an empty right side
/// takes nothing away.
pub proof fn lemma_empty_right_side_keeps_left_controls(left: Seq<char>)
    ensures
        button_layout(left + seq![':']) == button_layout(left),
{
    lemma_no_control_in_empty_field();
    let s = left + seq![':'];
    assert(s.drop_last() =~= left);
    assert(s.last() == ':');
    let fields = split_fields(left, Separators::CommaOrColon);
    assert(split_fields(s, Separators::CommaOrColon) == fields.push(Seq::<char>::empty()));
    assert(fields.push(Seq::<char>::empty()).drop_last() =~= fields);
}

pub open spec fn string_views(v: Seq<String>) -> Seq<Seq<char>> {
    v.map_values(|s: String| s@)
}

/// The window controls listed in `chars[lo..hi]`.
fn controls_in(chars: &Vec<char>, lo: usize, hi: usize) -> (r: Vec<String>)
    requires
        lo <= hi <= chars.len(),
    ensures
        string_views(r@) == button_layout(chars@.subrange(lo as int, hi as int)),
{
    let mut controls: Vec<String> = Vec::new();
    let mut field: Vec<char> = Vec::new();
    let mut i = lo;
    proof {
        assert(chars@.subrange(lo as int, lo as int) =~= Seq::<char>::empty());
        assert(keep_controls(Seq::<Seq<char>>::empty()) == Seq::<Seq<char>>::empty());
        assert(string_views(controls@) =~= Seq::<Seq<char>>::empty());
    }
    while i < hi
        invariant
            lo <= i <= hi <= chars.len(),
            ({
                let fields = split_fields(chars@.subrange(lo as int, i as int), Separators::CommaOrColon);
                &&& fields.len() >= 1
                &&& string_views(controls@) == keep_controls(fields.drop_last())
                &&& field@ == fields.last()
            }),
        decreases hi - i,
    {
        let ghost prefix = chars@.subrange(lo as int, i as int);
        let ghost fields = split_fields(prefix, Separators::CommaOrColon);
        let c = chars[i];
        assert(chars@.subrange(lo as int, i + 1).drop_last() =~= prefix);
        assert(chars@.subrange(lo as int, i + 1).last() == c);
        if is_separator_char(Separators::CommaOrColon, c) {
            assert(fields.push(Seq::<char>::empty()).drop_last() =~= fields);
            assert(fields.drop_last().push(fields.last()) =~= fields);
            match control_name(&field) {
                Some(name) => {
                    controls.push(String::from_str(name));
                    assert(string_views(controls@) =~= keep_controls(fields));
                },
                None => {},
            }
            field = Vec::new();
        } else {
            field.push(c);
            assert(fields.drop_last().push(fields.last().push(c)).drop_last() =~= fields.drop_last());
        }
        i = i + 1;
    }
    let ghost fields = split_fields(chars@.subrange(lo as int, hi as int), Separators::CommaOrColon);
    assert(fields.drop_last().push(fields.last()) =~= fields);
    match control_name(&field) {
        Some(name) => {
            controls.push(String::from_str(name));
            assert(string_views(controls@) =~= keep_controls(fields));
        },
        None => {},
    }
    controls
}

/// The window controls a `button-layout` value lists, left side first:
/// every `:`- or `,`-separated field that is `minimize`, `maximize` or
/// `close`.
pub fn parse_button_layout(layout: &str) -> (r: Vec<String>)
    ensures
        string_views(r@) == button_layout(layout@),
{
    let chars = chars_of(layout);
    assert(chars@.subrange(0, chars.len() as int) =~= chars@);
    controls_in(&chars, 0, chars.len())
}

/// The window controls of the GNOME `button-layout` preference, given the
/// standard output of `dconf read` (`None` when the command could not be
/// run or exited unsuccessfully).
pub fn read_button_layout(dconf_output: Option<&str>) -> (r: Option<Vec<String>>)
    ensures
        match (r, dconf_button_layout(
            match dconf_output {
                Some(o) => Some(o@),
                None => None,
            },
        )) {
            (Some(v), Some(w)) => string_views(v@) == w,
            (None, None) => true,
            _ => false,
        },
{
    let output = match dconf_output {
        Some(output) => output,
        None => {
            return None;
        },
    };
    let chars = chars_of(output);
    let mut kept: Vec<char> = Vec::new();
    let mut i: usize = 0;
    while i < chars.len()
        invariant
            0 <= i <= chars.len(),
            kept@ == strip_quoting(chars@.take(i as int)),
        decreases chars.len() - i,
    {
        assert(chars@.take(i + 1).drop_last() =~= chars@.take(i as int));
        let c = chars[i];
        if !(c == '\'' || c == '"' || c == '\n') {
            kept.push(c);
        }
        i = i + 1;
    }
    assert(chars@.take(chars.len() as int) =~= chars@);
    let (start, end) = trimmed_bounds(&kept, 0, kept.len());
    assert(kept@.subrange(0, kept.len() as int) =~= kept@);
    if start == end {
        return None;
    }
    let controls = controls_in(&kept, start, end);
    if controls.len() == 0 {
        return None;
    }
    Some(controls)
}

} // verus!
