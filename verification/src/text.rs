//! Character-level helpers shared by the parsers and the script builders.

use vstd::prelude::*;

verus! {

/// The characters that carry the Unicode `White_Space` property, which is
/// what `str::trim` strips from both ends of a string.
pub open spec fn is_white_space(c: char) -> bool {
    let v = c as u32;
    ||| 0x09 <= v <= 0x0D
    ||| v == 0x20
    ||| v == 0x85
    ||| v == 0xA0
    ||| v == 0x1680
    ||| 0x2000 <= v <= 0x200A
    ||| v == 0x2028
    ||| v == 0x2029
    ||| v == 0x202F
    ||| v == 0x205F
    ||| v == 0x3000
}

/// `s` without its leading white space.
pub open spec fn trim_start(s: Seq<char>) -> Seq<char>
    decreases s.len(),
{
    if s.len() > 0 && is_white_space(s[0]) {
        trim_start(s.drop_first())
    } else {
        s
    }
}

/// `s` without its trailing white space.
pub open spec fn trim_end(s: Seq<char>) -> Seq<char>
    decreases s.len(),
{
    if s.len() > 0 && is_white_space(s.last()) {
        trim_end(s.drop_last())
    } else {
        s
    }
}

/// `s` without white space at either end.
pub open spec fn trim(s: Seq<char>) -> Seq<char> {
    trim_end(trim_start(s))
}

/// Decides the `White_Space` property of one character.
pub fn is_white_space_char(c: char) -> (b: bool)
    ensures
        b == is_white_space(c),
{
    let v = c as u32;
    (0x09 <= v && v <= 0x0D) || v == 0x20 || v == 0x85 || v == 0xA0 || v == 0x1680 || (0x2000
        <= v && v <= 0x200A) || v == 0x2028 || v == 0x2029 || v == 0x202F || v == 0x205F || v
        == 0x3000
}

/// The characters of a string slice, in order.
pub fn chars_of(s: &str) -> (v: Vec<char>)
    ensures
        v@ == s@,
{
    let mut v: Vec<char> = Vec::new();
    for c in it: s.chars()
        invariant
            it.seq() == s@,
            v@ == it.seq().take(it.index() as int),
    {
        proof {
            assert(it.seq().take(it.index() + 1) =~= it.seq().take(it.index() as int).push(c));
        }
        v.push(c);
    }
    assert(v@ =~= s@);
    v
}

/// Whether two string slices hold the same characters.
pub fn str_eq(a: &str, b: &str) -> (r: bool)
    ensures
        r == (a@ == b@),
{
    let a_owned = a.to_owned();
    let b_owned = b.to_owned();
    a_owned == b_owned
}

/// The index range `[start, end)` of `s[lo..hi]` that remains once white
/// space is removed from both ends.
pub fn trimmed_bounds(s: &Vec<char>, lo: usize, hi: usize) -> (r: (usize, usize))
    requires
        lo <= hi <= s.len(),
    ensures
        lo <= r.0 <= r.1 <= hi,
        s@.subrange(r.0 as int, r.1 as int) == trim(s@.subrange(lo as int, hi as int)),
{
    let mut start = lo;
    while start < hi && is_white_space_char(s[start])
        invariant
            lo <= start <= hi <= s.len(),
            trim_start(s@.subrange(lo as int, hi as int)) == trim_start(
                s@.subrange(start as int, hi as int),
            ),
        decreases hi - start,
    {
        assert(s@.subrange(start as int, hi as int).drop_first() =~= s@.subrange(
            start + 1,
            hi as int,
        ));
        start = start + 1;
    }
    assert(trim_start(s@.subrange(start as int, hi as int)) == s@.subrange(start as int, hi as int));
    let mut end = hi;
    while end > start && is_white_space_char(s[end - 1])
        invariant
            lo <= start <= end <= hi <= s.len(),
            trim_end(s@.subrange(start as int, hi as int)) == trim_end(
                s@.subrange(start as int, end as int),
            ),
        decreases end - start,
    {
        assert(s@.subrange(start as int, end as int).drop_last() =~= s@.subrange(
            start as int,
            end - 1,
        ));
        end = end - 1;
    }
    (start, end)
}


/// Which characters separate the fields of a list.
#[derive(Clone, Copy, Debug, Eq, PartialEq, Structural)]
pub enum Separators {
    /// Only `,`.
    Comma,
    /// Only `:`.
    Colon,
    /// Both `,` and `:`.
    CommaOrColon,
}

pub open spec fn is_separator(kind: Separators, c: char) -> bool {
    match kind {
        Separators::Comma => c == ',',
        Separators::Colon => c == ':',
        Separators::CommaOrColon => c == ',' || c == ':',
    }
}

/// The fields of `s` between separators, as `str::split` yields them: one
/// more field than there are separators, empty fields included.
pub open spec fn split_fields(s: Seq<char>, kind: Separators) -> Seq<Seq<char>>
    decreases s.len(),
{
    if s.len() == 0 {
        seq![Seq::<char>::empty()]
    } else {
        let fields = split_fields(s.drop_last(), kind);
        if is_separator(kind, s.last()) {
            fields.push(Seq::<char>::empty())
        } else {
            fields.drop_last().push(fields.last().push(s.last()))
        }
    }
}

/// Whether `s` holds no separator of `kind`.
pub open spec fn free_of(s: Seq<char>, kind: Separators) -> bool {
    forall|i: int| 0 <= i < s.len() ==> !is_separator(kind, #[trigger] s[i])
}

/// Splitting always yields at least one field.
pub proof fn lemma_split_nonempty(s: Seq<char>, kind: Separators)
    ensures
        split_fields(s, kind).len() >= 1,
    decreases s.len(),
{
    if s.len() > 0 {
        lemma_split_nonempty(s.drop_last(), kind);
    }
}

/// Text without separators extends the last field.
pub proof fn lemma_split_extends_last(p: Seq<char>, s: Seq<char>, kind: Separators)
    requires
        free_of(s, kind),
    ensures
        split_fields(p + s, kind) == split_fields(p, kind).drop_last().push(
            split_fields(p, kind).last() + s,
        ),
    decreases s.len(),
{
    lemma_split_nonempty(p, kind);
    if s.len() == 0 {
        assert(p + s =~= p);
        assert(split_fields(p, kind).last() + s =~= split_fields(p, kind).last());
        assert(split_fields(p, kind).drop_last().push(split_fields(p, kind).last())
            =~= split_fields(p, kind));
    } else {
        let t = s.drop_last();
        assert(free_of(t, kind));
        lemma_split_extends_last(p, t, kind);
        assert((p + s).drop_last() =~= p + t);
        assert((p + s).last() == s.last());
        assert(!is_separator(kind, s[s.len() - 1]));
        let f = split_fields(p + t, kind);
        assert(f.last() == split_fields(p, kind).last() + t);
        assert(f.last().push(s.last()) =~= split_fields(p, kind).last() + s);
        assert(f.drop_last() =~= split_fields(p, kind).drop_last());
    }
}

/// Text with one separator between two separator-free parts splits into
/// exactly those two parts.
pub proof fn lemma_split_two_parts(l: Seq<char>, c: char, r: Seq<char>, kind: Separators)
    requires
        free_of(l, kind),
        free_of(r, kind),
        is_separator(kind, c),
    ensures
        split_fields(l + seq![c] + r, kind) == seq![l, r],
{
    lemma_split_extends_last(Seq::<char>::empty(), l, kind);
    assert(Seq::<char>::empty() + l =~= l);
    assert(split_fields(Seq::<char>::empty(), kind) == seq![Seq::<char>::empty()]);
    assert(Seq::<char>::empty() + l =~= l);
    assert(split_fields(l, kind) =~= seq![l]);
    let p = l + seq![c];
    assert(p.drop_last() =~= l);
    assert(p.last() == c);
    assert(split_fields(p, kind) =~= seq![l, Seq::<char>::empty()]);
    lemma_split_extends_last(p, r, kind);
    assert(Seq::<char>::empty() + r =~= r);
    assert(split_fields(p + r, kind) =~= seq![l, r]);
}

pub fn is_separator_char(kind: Separators, c: char) -> (r: bool)
    ensures
        r == is_separator(kind, c),
{
    match kind {
        Separators::Comma => c == ',',
        Separators::Colon => c == ':',
        Separators::CommaOrColon => c == ',' || c == ':',
    }
}

/// Whether `a[lo..hi]` holds the characters of `b`.
pub fn range_eq_str(a: &Vec<char>, lo: usize, hi: usize, b: &str) -> (r: bool)
    requires
        lo <= hi <= a.len(),
    ensures
        r == (a@.subrange(lo as int, hi as int) == b@),
{
    let b_chars = chars_of(b);
    if hi - lo != b_chars.len() {
        return false;
    }
    let mut i: usize = 0;
    while i < b_chars.len()
        invariant
            lo <= hi <= a.len(),
            hi - lo == b_chars.len(),
            b_chars@ == b@,
            0 <= i <= b_chars.len(),
            forall|k: int| 0 <= k < i ==> a@[lo + k] == b_chars@[k],
        decreases b_chars.len() - i,
    {
        if a[lo + i] != b_chars[i] {
            return false;
        }
        i = i + 1;
    }
    assert(a@.subrange(lo as int, hi as int) =~= b@);
    true
}

/// The window-control name spelled by `field[lo..hi]`, as a static string.
pub fn control_name_in(field: &Vec<char>, lo: usize, hi: usize) -> (r: Option<&'static str>)
    requires
        lo <= hi <= field.len(),
    ensures
        match r {
            Some(name) => name@ == field@.subrange(lo as int, hi as int) && is_window_control(
                name@,
            ),
            None => !is_window_control(field@.subrange(lo as int, hi as int)),
        },
{
    if range_eq_str(field, lo, hi, "minimize") {
        Some("minimize")
    } else if range_eq_str(field, lo, hi, "maximize") {
        Some("maximize")
    } else if range_eq_str(field, lo, hi, "close") {
        Some("close")
    } else {
        None
    }
}

/// The window-control name spelled by `field`, as a static string.
pub fn control_name(field: &Vec<char>) -> (r: Option<&'static str>)
    ensures
        match r {
            Some(name) => name@ == field@ && is_window_control(field@),
            None => !is_window_control(field@),
        },
{
    assert(field@.subrange(0, field.len() as int) =~= field@);
    control_name_in(field, 0, field.len())
}

pub open spec fn char_views(v: Seq<Vec<char>>) -> Seq<Seq<char>> {
    v.map_values(|f: Vec<char>| f@)
}

/// The fields of `chars` between the separators of `kind`.
pub fn split_chars(chars: &Vec<char>, kind: Separators) -> (r: Vec<Vec<char>>)
    ensures
        char_views(r@) == split_fields(chars@, kind),
{
    let mut fields: Vec<Vec<char>> = Vec::new();
    let mut field: Vec<char> = Vec::new();
    let mut i: usize = 0;
    assert(chars@.take(0) =~= Seq::<char>::empty());
    assert(char_views(fields@) =~= Seq::<Seq<char>>::empty());
    while i < chars.len()
        invariant
            0 <= i <= chars.len(),
            ({
                let all = split_fields(chars@.take(i as int), kind);
                &&& all.len() >= 1
                &&& char_views(fields@) == all.drop_last()
                &&& field@ == all.last()
            }),
        decreases chars.len() - i,
    {
        let ghost all = split_fields(chars@.take(i as int), kind);
        let c = chars[i];
        assert(chars@.take(i + 1).drop_last() =~= chars@.take(i as int));
        if is_separator_char(kind, c) {
            let done = field;
            let ghost before = fields@;
            fields.push(done);
            field = Vec::new();
            assert(all.drop_last().push(all.last()) =~= all);
            assert(fields@ == before.push(done));
            assert(char_views(fields@) =~= char_views(before).push(done@));
            assert(char_views(fields@) =~= all);
            assert(all.push(Seq::<char>::empty()).drop_last() =~= all);
        } else {
            field.push(c);
            assert(all.drop_last().push(all.last().push(c)).drop_last() =~= all.drop_last());
        }
        i = i + 1;
    }
    let ghost all = split_fields(chars@, kind);
    assert(chars@.take(chars.len() as int) =~= chars@);
    let ghost before = fields@;
    let ghost last = field@;
    fields.push(field);
    assert(all.drop_last().push(all.last()) =~= all);
    assert(char_views(fields@) =~= char_views(before).push(last));
    assert(char_views(fields@) =~= all);
    fields
}

/// The names of the window controls a titlebar can show.
pub open spec fn is_window_control(t: Seq<char>) -> bool {
    t == "minimize"@ || t == "maximize"@ || t == "close"@
}

} // verus!
