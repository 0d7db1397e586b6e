//! Text helpers shared by every session: comparing a line with a keyword,
//! trimming it, and reading decimal numbers from it.

use vstd::prelude::*;
use vstd::utf8::encode_utf8;
use vstd::utf8::encode_utf8_decode_utf8;

verus! {

/// The line with leading and trailing whitespace removed, as `str::trim` computes it.
pub uninterp spec fn trimmed(line: Seq<char>) -> Seq<char>;

/// Calls `str::trim`. The contract only names the result: which characters
/// count as whitespace is left to the standard library.
#[verifier::external_body]
pub(crate) fn trim(line: &str) -> (inner: &str)
    ensures
        inner@ == trimmed(line@),
{
    line.trim()
}

/// Whether two strings hold the same characters.
pub fn same_text(a: &str, b: &str) -> (same: bool)
    ensures
        same == (a@ == b@),
{
    let x = a.as_bytes();
    let y = b.as_bytes();
    proof {
        // equal encodings decode to equal texts
        encode_utf8_decode_utf8(a@);
        encode_utf8_decode_utf8(b@);
    }
    if x.len() != y.len() {
        return false;
    }
    let mut i: usize = 0;
    while i < x.len()
        invariant
            i <= x.len(),
            x.len() == y.len(),
            x@ == encode_utf8(a@),
            y@ == encode_utf8(b@),
            forall|j: int| 0 <= j < i ==> x@[j] == y@[j],
        decreases x.len() - i,
    {
        if x[i] != y[i] {
            return false;
        }
        i += 1;
    }
    assert(x@ =~= y@);
    true
}

pub open spec fn is_digit(c: char) -> bool {
    '0' <= c <= '9'
}

/// The value of one decimal digit; zero for any other character.
pub open spec fn digit_value(c: char) -> nat {
    if is_digit(c) {
        (c as nat - '0' as nat) as nat
    } else {
        0
    }
}

pub open spec fn all_digits(s: Seq<char>) -> bool {
    forall|i: int| 0 <= i < s.len() ==> is_digit(#[trigger] s[i])
}

/// The number that a run of decimal digits denotes, most significant digit first.
pub open spec fn digits_value(s: Seq<char>) -> nat
    decreases s.len(),
{
    if s.len() == 0 {
        0
    } else {
        10 * digits_value(s.drop_last()) + digit_value(s.last())
    }
}

/// What remains of a numeral once an optional leading sign is taken off.
pub open spec fn numeral_body(s: Seq<char>, signed: bool) -> Seq<char> {
    if s.len() > 0 && (s[0] == '+' || (signed && s[0] == '-')) {
        s.skip(1)
    } else {
        s
    }
}

/// Reading an unsigned decimal: an optional `+`, then one or more digits,
/// and the value must fit in `usize`.
pub open spec fn spec_parse_usize(s: Seq<char>) -> Option<usize> {
    let body = numeral_body(s, false);
    if body.len() > 0 && all_digits(body) && digits_value(body) <= usize::MAX {
        Some(digits_value(body) as usize)
    } else {
        None
    }
}

/// Reading a signed decimal: an optional `+` or `-`, then one or more digits,
/// and the value must fit in `i32`.
pub open spec fn spec_parse_i32(s: Seq<char>) -> Option<i32> {
    let body = numeral_body(s, true);
    let magnitude = digits_value(body) as int;
    let value = if s.len() > 0 && s[0] == '-' {
        -magnitude
    } else {
        magnitude
    };
    if body.len() > 0 && all_digits(body) && i32::MIN <= value <= i32::MAX {
        Some(value as i32)
    } else {
        None
    }
}

/// The magnitude of a numeral whose digits denote at most `limit`.
pub open spec fn spec_magnitude(s: Seq<char>, signed: bool, limit: nat) -> Option<nat> {
    let body = numeral_body(s, signed);
    if body.len() > 0 && all_digits(body) && digits_value(body) <= limit {
        Some(digits_value(body))
    } else {
        None
    }
}

/// Appending one character multiplies the value by ten and adds the digit.
pub proof fn lemma_digits_value_push(s: Seq<char>, c: char)
    ensures
        digits_value(s.push(c)) == 10 * digits_value(s) + digit_value(c),
{
    assert(s.push(c).drop_last() =~= s);
}

/// A numeral is worth at least as much as any of its prefixes.
pub proof fn lemma_digits_value_prefix(s: Seq<char>, k: int)
    requires
        0 <= k <= s.len(),
    ensures
        digits_value(s.take(k)) <= digits_value(s),
    decreases s.len() - k,
{
    if k == s.len() {
        assert(s.take(k) =~= s);
    } else {
        lemma_digits_value_prefix(s, k + 1);
        assert(s.take(k + 1).drop_last() =~= s.take(k));
    }
}

/// Reads the digits of a numeral, giving up as soon as a character is no
/// digit or the value passes `limit`.
fn parse_magnitude(s: &str, signed: bool, limit: u64) -> (found: Option<u64>)
    ensures
        found matches Some(m) ==> spec_magnitude(s@, signed, limit as nat) == Some(m as nat),
        found is None ==> spec_magnitude(s@, signed, limit as nat) is None,
{
    broadcast use vstd::string::group_string_axioms;

    let ghost whole = numeral_body(s@, signed);
    let mut acc: u64 = 0;
    let mut first = true;
    let mut any_digit = false;
    let ghost mut width: int = 0;
    for c in it: s.chars()
        invariant
            it.seq() == s@,
            whole == numeral_body(s@, signed),
            first == (it.index() == 0),
            0 <= width <= it.index(),
            it.index() > 0 ==> width == s@.len() - whole.len(),
            it.index() == 0 ==> !any_digit,
            any_digit == (it.index() - width > 0),
            all_digits(whole.take(it.index() - width)),
            acc == digits_value(whole.take(it.index() - width)),
            acc <= limit,
    {
        let ghost k = it.index();
        if first && (c == '+' || (signed && c == '-')) {
            proof {
                width = 1;
            }
        } else {
            proof {
                assert(whole[k - width] == c);
            }
            if !(c >= '0' && c <= '9') {
                return None;
            }
            let digit: u32 = c as u32 - '0' as u32;
            let next: u128 = acc as u128 * 10 + digit as u128;
            proof {
                let before = whole.take(k - width);
                let after = whole.take(k - width + 1);
                assert(after =~= before.push(c));
                lemma_digits_value_push(before, c);
                lemma_digits_value_prefix(whole, k - width + 1);
                assert(all_digits(after));
            }
            if next > limit as u128 {
                return None;
            }
            acc = next as u64;
            any_digit = true;
        }
        first = false;
    }
    proof {
        assert(whole.take(whole.len() as int) =~= whole);
    }
    if any_digit {
        Some(acc)
    } else {
        None
    }
}

/// Reads an unsigned decimal number, as `str::parse::<usize>` does.
pub fn parse_usize(s: &str) -> (value: Option<usize>)
    ensures
        value == spec_parse_usize(s@),
{
    match parse_magnitude(s, false, usize::MAX as u64) {
        Some(m) => Some(m as usize),
        None => None,
    }
}

/// Reads a signed decimal number, as `str::parse::<i32>` does.
pub fn parse_i32(s: &str) -> (value: Option<i32>)
    ensures
        value == spec_parse_i32(s@),
{
    let negative = starts_with_minus(s);
    match parse_magnitude(s, true, 2147483648) {
        Some(m) => {
            if negative {
                Some((-(m as i64)) as i32)
            } else if m <= 2147483647 {
                Some(m as i32)
            } else {
                None
            }
        },
        None => None,
    }
}

/// Whether the first character is a minus sign.
fn starts_with_minus(s: &str) -> (minus: bool)
    ensures
        minus == (s@.len() > 0 && s@[0] == '-'),
{
    broadcast use vstd::string::group_string_axioms;

    let mut chars = s.chars();
    match chars.next() {
        Some(c) => c == '-',
        None => false,
    }
}

/// A text has at most as many characters as its encoding has bytes.
pub proof fn lemma_chars_within_bytes(chars: Seq<char>)
    ensures
        chars.len() <= encode_utf8(chars).len(),
    decreases chars.len(),
{
    if chars.len() > 0 {
        lemma_chars_within_bytes(chars.drop_first());
    }
}

/// The characters of a text, one by one.
pub fn collect_chars(s: &str) -> (chars: Vec<char>)
    ensures
        chars@ == s@,
{
    broadcast use vstd::string::group_string_axioms;

    let mut chars: Vec<char> = Vec::new();
    for c in it: s.chars()
        invariant
            it.seq() == s@,
            chars@ == s@.take(it.index()),
    {
        chars.push(c);
    }
    chars
}

} // verus!
