//! A simplified Boyer-Moore search: windows are compared from their right
//! end, and after a difference the window moves by what the last occurrence
//! of the differing character in the pattern allows.

use crate::text::collect_chars;
use std::collections::HashMap;
use vstd::prelude::*;
use vstd::utf8::char_u32_cast;

verus! {

/// The text in lower case, as `str::to_lowercase` gives it.
pub uninterp spec fn lowercase(s: Seq<char>) -> Seq<char>;

/// Calls `str::to_lowercase`. The contract only names the result.
#[verifier::external_body]
fn to_lowercase(s: &str) -> (lower: String)
    ensures
        lower@ == lowercase(s@),
{
    s.to_lowercase()
}

/// The characters that are compared: the text itself where case counts, the
/// text in lower case where it does not.
pub open spec fn folded(s: Seq<char>, case_sensitive: bool) -> Seq<char> {
    if case_sensitive {
        s
    } else {
        lowercase(s)
    }
}

/// The pattern `t` stands in `s` at offset `i`.
pub open spec fn matches_at(s: Seq<char>, t: Seq<char>, i: int) -> bool {
    &&& 0 <= i
    &&& i + t.len() <= s.len()
    &&& forall|k: int| 0 <= k < t.len() ==> s[i + k] == t[k]
}

/// The greatest index up to `k` at which the window of `s` at offset `i`
/// differs from `t`.
pub open spec fn last_difference(s: Seq<char>, t: Seq<char>, i: int, k: int) -> Option<int>
    decreases k + 1,
{
    if k < 0 {
        None
    } else if s[i + k] != t[k] {
        Some(k)
    } else {
        last_difference(s, t, i, k - 1)
    }
}

/// The greatest index at which `c` occurs in `t`.
pub open spec fn last_occurrence(t: Seq<char>, c: char) -> Option<int>
    decreases t.len(),
{
    if t.len() == 0 {
        None
    } else if t.last() == c {
        Some(t.len() - 1)
    } else {
        last_occurrence(t.drop_last(), c)
    }
}

/// The offset of the window that is looked at after the one at `i`. After a
/// match the window moves by one. After a difference at index `k`, on the
/// character `c` of the text, the window moves so that the last `c` of the
/// pattern comes to stand under it, if that `c` lies before `k`, and else to
/// just behind the difference.
pub open spec fn next_window(s: Seq<char>, t: Seq<char>, i: int) -> int {
    match last_difference(s, t, i, t.len() - 1) {
        None => i + 1,
        Some(k) => match last_occurrence(t, s[i + k]) {
            Some(l) => if k < l {
                i + k + 1
            } else {
                i + k - l
            },
            None => i + k + 1,
        },
    }
}

/// The offsets that the search reports from the window at `i` on.
pub open spec fn scan_from(s: Seq<char>, t: Seq<char>, i: int) -> Seq<int>
    decreases s.len() - i,
    via scan_from_decreases
{
    if i < 0 || t.len() == 0 || i + t.len() > s.len() {
        Seq::empty()
    } else if last_difference(s, t, i, t.len() - 1) is None {
        seq![i] + scan_from(s, t, next_window(s, t, i))
    } else {
        scan_from(s, t, next_window(s, t, i))
    }
}

#[via_fn]
proof fn scan_from_decreases(s: Seq<char>, t: Seq<char>, i: int) {
    if !(i < 0 || t.len() == 0 || i + t.len() > s.len()) {
        lemma_next_window(s, t, i);
    }
}

/// Where the window differs from the pattern, and that it agrees behind.
pub proof fn lemma_last_difference(s: Seq<char>, t: Seq<char>, i: int, k: int)
    ensures
        match last_difference(s, t, i, k) {
            Some(d) => 0 <= d <= k && s[i + d] != t[d] && forall|j: int|
                d < j <= k ==> s[i + j] == t[j],
            None => forall|j: int| 0 <= j <= k ==> s[i + j] == t[j],
        },
    decreases k + 1,
{
    if k >= 0 && s[i + k] == t[k] {
        lemma_last_difference(s, t, i, k - 1);
    }
}

/// Where a character occurs last in the pattern, and that it does not occur
/// behind.
pub proof fn lemma_last_occurrence(t: Seq<char>, c: char)
    ensures
        match last_occurrence(t, c) {
            Some(l) => 0 <= l < t.len() && t[l] == c && forall|j: int|
                l < j < t.len() ==> t[j] != c,
            None => forall|j: int| 0 <= j < t.len() ==> t[j] != c,
        },
    decreases t.len(),
{
    if t.len() > 0 && t.last() != c {
        lemma_last_occurrence(t.drop_last(), c);
        assert forall|j: int| 0 <= j < t.len() - 1 implies t[j] == t.drop_last()[j] by {}
    }
}

/// The window always moves on, and never past the end of the one before.
pub proof fn lemma_next_window(s: Seq<char>, t: Seq<char>, i: int)
    requires
        t.len() > 0,
    ensures
        i < next_window(s, t, i) <= i + t.len(),
{
    lemma_last_difference(s, t, i, t.len() - 1);
    if let Some(k) = last_difference(s, t, i, t.len() - 1) {
        lemma_last_occurrence(t, s[i + k]);
    }
}

/// Every offset that the search reports is one where the pattern stands,
/// and the offsets come in ascending order, none before `i`.
pub proof fn lemma_scan_reports_matches(s: Seq<char>, t: Seq<char>, i: int)
    ensures
        forall|k: int|
            0 <= k < scan_from(s, t, i).len() ==> i <= #[trigger] scan_from(s, t, i)[k]
                && matches_at(s, t, scan_from(s, t, i)[k]),
        forall|a: int, b: int|
            0 <= a < b < scan_from(s, t, i).len() ==> scan_from(s, t, i)[a] < scan_from(
                s,
                t,
                i,
            )[b],
    decreases s.len() - i,
{
    if !(i < 0 || t.len() == 0 || i + t.len() > s.len()) {
        lemma_next_window(s, t, i);
        lemma_last_difference(s, t, i, t.len() - 1);
        let next = next_window(s, t, i);
        lemma_scan_reports_matches(s, t, next);
        let rest = scan_from(s, t, next);
        if last_difference(s, t, i, t.len() - 1) is None {
            let all = scan_from(s, t, i);
            assert(all =~= seq![i] + rest);
            assert forall|k: int| 0 <= k < all.len() implies i <= #[trigger] all[k] && matches_at(
                s,
                t,
                all[k],
            ) by {
                if k > 0 {
                    assert(all[k] == rest[k - 1]);
                }
            }
            assert forall|a: int, b: int| 0 <= a < b < all.len() implies all[a] < all[b] by {
                assert(all[b] == rest[b - 1]);
                if a > 0 {
                    assert(all[a] == rest[a - 1]);
                }
            }
        }
    }
}

/// The offsets as mathematical integers.
pub open spec fn positions(found: Seq<usize>) -> Seq<int> {
    found.map_values(|p: usize| p as int)
}

/// The index of the last position, from `i` down, at which `s` and `t`
/// differ, if there is one.
fn find_dif(s: &[char], t: &[char], from: usize) -> (found: Option<usize>)
    requires
        from < s@.len(),
        from < t@.len(),
    ensures
        match found {
            Some(k) => last_difference(s@, t@, 0, from as int) == Some(k as int),
            None => last_difference(s@, t@, 0, from as int) is None,
        },
{
    let mut i = from;
    while s[i] == t[i]
        invariant
            i <= from,
            i < s@.len(),
            i < t@.len(),
            last_difference(s@, t@, 0, i as int) == last_difference(s@, t@, 0, from as int),
        decreases i,
    {
        if i == 0 {
            assert(last_difference(s@, t@, 0, -1) is None);
            return None;
        }
        i -= 1;
    }
    Some(i)
}

/// The window of `s` at offset `i` differs from `t` where the slice cut out
/// at `i` does.
proof fn lemma_last_difference_shift(s: Seq<char>, t: Seq<char>, i: int, k: int)
    requires
        0 <= i,
        k < t.len(),
        i + t.len() <= s.len(),
    ensures
        last_difference(s.subrange(i, i + t.len()), t, 0, k) == last_difference(s, t, i, k),
    decreases k + 1,
{
    if k >= 0 {
        lemma_last_difference_shift(s, t, i, k - 1);
    }
}

/// The table of last occurrences after one more character of the pattern.
proof fn lemma_last_occurrence_push(t: Seq<char>, c: char, d: char)
    ensures
        last_occurrence(t.push(d), c) == if c == d {
            Some(t.len() as int)
        } else {
            last_occurrence(t, c)
        },
{
    assert(t.push(d).drop_last() =~= t);
}

/// Looks for `template_vec` in `string_vec` and returns, in ascending order,
/// the offsets at which it reports the pattern. Each of them is an offset at
/// which the pattern stands; an occurrence can be passed over where the
/// window moves behind a difference although the pattern recurs earlier.
pub fn search_chars(string_vec: &[char], template_vec: &[char]) -> (found: Vec<usize>)
    requires
        1 <= template_vec@.len() <= string_vec@.len(),
    ensures
        positions(found@) == scan_from(string_vec@, template_vec@, 0),
        forall|k: int|
            0 <= k < found@.len() ==> matches_at(string_vec@, template_vec@, #[trigger] found@[k] as int),
        forall|a: int, b: int| 0 <= a < b < found@.len() ==> found@[a] < found@[b],
{
    broadcast use vstd::std_specs::hash::group_hash_axioms;

    let ghost s = string_vec@;
    let ghost t = template_vec@;
    let mut last_occ: HashMap<u32, usize> = HashMap::new();
    let mut at: usize = 0;
    while at < template_vec.len()
        invariant
            t == template_vec@,
            at <= t.len(),
            forall|c: char|
                match #[trigger] last_occurrence(t.take(at as int), c) {
                    Some(l) => last_occ@.contains_key(c as u32) && last_occ@[c as u32] == l,
                    None => !last_occ@.contains_key(c as u32),
                },
        decreases t.len() - at,
    {
        let d = template_vec[at];
        proof {
            assert(t.take(at + 1) =~= t.take(at as int).push(d));
            assert forall|c: char|
                match #[trigger] last_occurrence(t.take(at + 1), c) {
                    Some(l) => last_occ@.insert(d as u32, at).contains_key(c as u32)
                        && last_occ@.insert(d as u32, at)[c as u32] == l,
                    None => !last_occ@.insert(d as u32, at).contains_key(c as u32),
                } by {
                lemma_last_occurrence_push(t.take(at as int), c, d);
                char_u32_cast(c, c as u32);
                char_u32_cast(d, d as u32);
            }
        }
        last_occ.insert(d as u32, at);
        at += 1;
    }
    assert(t.take(t.len() as int) =~= t);
    let mut result: Vec<usize> = Vec::new();
    let mut i: usize = 0;
    proof {
        lemma_scan_reports_matches(s, t, 0);
    }
    while i <= string_vec.len() - template_vec.len()
        invariant
            s == string_vec@,
            t == template_vec@,
            1 <= t.len() <= s.len(),
            i <= s.len(),
            positions(result@) + scan_from(s, t, i as int) == scan_from(s, t, 0),
            forall|c: char|
                match #[trigger] last_occurrence(t, c) {
                    Some(l) => last_occ@.contains_key(c as u32) && last_occ@[c as u32] == l,
                    None => !last_occ@.contains_key(c as u32),
                },
        decreases s.len() - i,
    {
        let j = i + template_vec.len();
        let ghost before = scan_from(s, t, i as int);
        let ghost earlier = positions(result@);
        proof {
            lemma_last_difference_shift(s, t, i as int, t.len() - 1);
            lemma_last_difference(s, t, i as int, t.len() - 1);
            lemma_next_window(s, t, i as int);
        }
        let window = vstd::slice::slice_subrange(string_vec, i, j);
        if let Some(k) = find_dif(window, template_vec, template_vec.len() - 1) {
            let abs_idx = i + k;
            let c = string_vec[abs_idx];
            proof {
                lemma_last_occurrence(t, c);
            }
            match last_occ.get(&(c as u32)) {
                None => {
                    i = abs_idx + 1;
                },
                Some(l) => {
                    if k < *l {
                        i = abs_idx + 1;
                    } else {
                        i = abs_idx - *l;
                    }
                },
            }
        } else {
            result.push(i);
            i += 1;
            proof {
                assert(positions(result@) =~= earlier + seq![(i - 1) as int]);
                assert(positions(result@) + scan_from(s, t, i as int) =~= earlier + before);
            }
        }
    }
    proof {
        assert(scan_from(s, t, i as int) =~= Seq::<int>::empty());
        assert(positions(result@) =~= scan_from(s, t, 0));
        assert forall|k: int| 0 <= k < result@.len() implies matches_at(
            s,
            t,
            #[trigger] result@[k] as int,
        ) by {
            assert(positions(result@)[k] == result@[k] as int);
        }
        assert forall|a: int, b: int| 0 <= a < b < result@.len() implies result@[a] < result@[b] by {
            assert(positions(result@)[a] == result@[a] as int);
            assert(positions(result@)[b] == result@[b] as int);
        }
    }
    result
}

/// The characters that the search compares.
fn folded_chars(s: &str, case_sensitive: bool) -> (chars: Vec<char>)
    ensures
        chars@ == folded(s@, case_sensitive),
{
    if case_sensitive {
        collect_chars(s)
    } else {
        let lower = to_lowercase(s);
        collect_chars(lower.as_str())
    }
}

/// Whether the search can look for `template` in `string`: the pattern,
/// as it is compared, has at least one character and no more than the text.
pub open spec fn searchable(string: Seq<char>, template: Seq<char>, case_sensitive: bool) -> bool {
    1 <= folded(template, case_sensitive).len() <= folded(string, case_sensitive).len()
}

/// Looks for `template` in `string`, in lower case where case does not
/// count, and returns the character offsets at which it reports the pattern.
pub fn boyer_moor_search(string: &str, template: &str, case_sensitive: bool) -> (found: Vec<usize>)
    requires
        searchable(string@, template@, case_sensitive),
    ensures
        positions(found@) == scan_from(
            folded(string@, case_sensitive),
            folded(template@, case_sensitive),
            0,
        ),
        forall|k: int|
            0 <= k < found@.len() ==> matches_at(
                folded(string@, case_sensitive),
                folded(template@, case_sensitive),
                #[trigger] found@[k] as int,
            ),
        forall|a: int, b: int| 0 <= a < b < found@.len() ==> found@[a] < found@[b],
{
    let string_vec = folded_chars(string, case_sensitive);
    let template_vec = folded_chars(template, case_sensitive);
    search_chars(string_vec.as_slice(), template_vec.as_slice())
}

/// Looks for `template` in `string` where that can be done, and says so
/// where it cannot.
pub fn search_if_searchable(string: &str, template: &str, case_sensitive: bool) -> (found: Option<
    Vec<usize>,
>)
    ensures
        found is Some == searchable(string@, template@, case_sensitive),
        found matches Some(offsets) ==> positions(offsets@) == scan_from(
            folded(string@, case_sensitive),
            folded(template@, case_sensitive),
            0,
        ),
{
    let string_len = folded_chars(string, case_sensitive).len();
    let template_len = folded_chars(template, case_sensitive).len();
    if template_len == 0 || template_len > string_len {
        None
    } else {
        Some(boyer_moor_search(string, template, case_sensitive))
    }
}

} // verus!
