//! The decimal codec of window generations and document tokens.
//!
//! Tokens travel to the frontend as decimal strings and come back in
//! acknowledgements; only the canonical spelling of a value is accepted.

use crate::text::chars_of;
use vstd::prelude::*;

verus! {

pub open spec fn is_digit(c: char) -> bool {
    '0' <= c <= '9'
}

pub open spec fn all_digits(s: Seq<char>) -> bool {
    forall|i: int| 0 <= i < s.len() ==> is_digit(#[trigger] s[i])
}

/// A canonical token: a nonempty run of ASCII digits without a leading zero.
pub open spec fn is_canonical_token(s: Seq<char>) -> bool {
    &&& s.len() > 0
    &&& s[0] != '0'
    &&& all_digits(s)
}

/// Value of the decimal digits `s`, most significant first.
pub open spec fn digits_value(s: Seq<char>) -> nat
    decreases s.len(),
{
    if s.len() == 0 {
        0
    } else {
        digits_value(s.drop_last()) * 10 + (s.last() as nat - '0' as nat) as nat
    }
}

/// The character of the decimal digit `d`.
pub open spec fn digit_char(d: nat) -> char {
    ((d + '0' as nat) as u32) as char
}

/// The decimal spelling of `n` without leading zeros (`"0"` for zero).
pub open spec fn decimal(n: nat) -> Seq<char>
    decreases n,
{
    if n < 10 {
        seq![digit_char(n)]
    } else {
        decimal(n / 10).push(digit_char(n % 10))
    }
}

/// Message of the error returned for a token that is not canonical.
pub open spec fn non_canonical_message() -> Seq<char> {
    "decoration acknowledgement contains a non-canonical token"@
}

/// Message of the error returned for a canonical token above `u64::MAX`.
pub open spec fn out_of_range_message() -> Seq<char> {
    "decoration acknowledgement token is out of range"@
}

/// What `parse_frontend_token` returns for a token spelled `s`.
pub open spec fn parsed_token(s: Seq<char>) -> Result<u64, Seq<char>> {
    if !is_canonical_token(s) {
        Err(non_canonical_message())
    } else if digits_value(s) > u64::MAX {
        Err(out_of_range_message())
    } else {
        Ok(digits_value(s) as u64)
    }
}

proof fn lemma_digits_value_prefix_monotone(s: Seq<char>, i: int, j: int)
    requires
        0 <= i <= j <= s.len(),
        all_digits(s),
    ensures
        digits_value(s.take(i)) <= digits_value(s.take(j)),
    decreases j - i,
{
    if i < j {
        lemma_digits_value_prefix_monotone(s, i, j - 1);
        assert(s.take(j).drop_last() =~= s.take(j - 1));
        assert(is_digit(s[j - 1]));
    }
}

proof fn lemma_decimal_digits(n: nat)
    ensures
        is_canonical_token(decimal(n)) || n == 0,
        all_digits(decimal(n)),
        decimal(n).len() > 0,
        digits_value(decimal(n)) == n,
        n > 0 ==> decimal(n)[0] != '0',
    decreases n,
{
    assert(digit_char(n % 10) as nat == n % 10 + '0' as nat);
    assert(digits_value(Seq::<char>::empty()) == 0);
    if n < 10 {
        assert(decimal(n).drop_last() =~= Seq::<char>::empty());
        assert(decimal(n).last() == digit_char(n));
    } else {
        lemma_decimal_digits(n / 10);
        assert(n == (n / 10) * 10 + n % 10);
        assert(decimal(n).drop_last() =~= decimal(n / 10));
        assert(decimal(n)[0] == decimal(n / 10)[0]);
    }
}

/// A nonzero value spelled by `decimal_string` parses back to itself.
pub proof fn lemma_token_round_trip(n: u64)
    requires
        n > 0,
    ensures
        parsed_token(decimal(n as nat)) == Ok::<u64, Seq<char>>(n),
{
    lemma_decimal_digits(n as nat);
}

fn digit_str(d: u64) -> (s: &'static str)
    requires
        d < 10,
    ensures
        s@ == seq![digit_char(d as nat)],
{
    proof {
        reveal_strlit("0");
        reveal_strlit("1");
        reveal_strlit("2");
        reveal_strlit("3");
        reveal_strlit("4");
        reveal_strlit("5");
        reveal_strlit("6");
        reveal_strlit("7");
        reveal_strlit("8");
        reveal_strlit("9");
    }
    match d {
        0 => "0",
        1 => "1",
        2 => "2",
        3 => "3",
        4 => "4",
        5 => "5",
        6 => "6",
        7 => "7",
        8 => "8",
        _ => "9",
    }
}

/// The decimal spelling of `n`, as `u64::to_string` writes it.
pub fn decimal_string(n: u64) -> (s: String)
    ensures
        s@ == decimal(n as nat),
    decreases n,
{
    if n < 10 {
        String::from_str(digit_str(n))
    } else {
        let mut s = decimal_string(n / 10);
        s.append(digit_str(n % 10));
        s
    }
}

/// Parses an acknowledgement token: a canonical decimal `u64`.
///
/// Empty values, values with a leading zero and values holding anything but
/// ASCII digits are rejected as non-canonical; canonical values above
/// `u64::MAX` are rejected as out of range.
pub fn parse_frontend_token(value: &str) -> (r: Result<u64, String>)
    ensures
        match (r, parsed_token(value@)) {
            (Ok(v), Ok(w)) => v == w,
            (Err(e), Err(m)) => e@ == m,
            _ => false,
        },
{
    let chars = chars_of(value);
    let n = chars.len();
    let mut canonical = n > 0 && chars[0] != '0';
    let mut i: usize = 0;
    while i < n
        invariant
            n == chars.len(),
            chars@ == value@,
            0 <= i <= n,
            canonical == (n > 0 && chars@[0] != '0' && forall|k: int|
                0 <= k < i ==> is_digit(#[trigger] chars@[k])),
        decreases n - i,
    {
        let c = chars[i];
        if !('0' <= c && c <= '9') {
            canonical = false;
        }
        i = i + 1;
    }
    if !canonical {
        proof {
            reveal_strlit("decoration acknowledgement contains a non-canonical token");
        }
        return Err(String::from_str("decoration acknowledgement contains a non-canonical token"));
    }
    let mut value_so_far: u64 = 0;
    let mut j: usize = 0;
    while j < n
        invariant
            n == chars.len(),
            chars@ == value@,
            is_canonical_token(chars@),
            0 <= j <= n,
            value_so_far as nat == digits_value(chars@.take(j as int)),
        decreases n - j,
    {
        assert(chars@.take(j + 1).drop_last() =~= chars@.take(j as int));
        assert(is_digit(chars@[j as int]));
        let d = (chars[j] as u32 - '0' as u32) as u64;
        assert(digits_value(chars@.take(j + 1)) == value_so_far * 10 + d);
        let next = match value_so_far.checked_mul(10) {
            Some(t) => t.checked_add(d),
            None => None,
        };
        match next {
            Some(v) => {
                value_so_far = v;
            },
            None => {
                proof {
                    lemma_digits_value_prefix_monotone(chars@, j + 1, n as int);
                    assert(chars@.take(n as int) =~= chars@);
                    reveal_strlit("decoration acknowledgement token is out of range");
                }
                return Err(String::from_str("decoration acknowledgement token is out of range"));
            },
        }
        j = j + 1;
    }
    assert(chars@.take(n as int) =~= chars@);
    Ok(value_so_far)
}

} // verus!
