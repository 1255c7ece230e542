//! Matching of widget identifiers as the widget host hands them out: ASCII
//! case is ignored, and so are the braces around a GUID.
use vstd::prelude::*;

use crate::text::chars_of;

verus! {

/// A character with its ASCII uppercase letters mapped to lowercase, as a code
/// point (every other character keeps its own).
pub open spec fn ascii_fold(c: char) -> u32 {
    if 'A' <= c && c <= 'Z' {
        (c as u32 + 32) as u32
    } else {
        c as u32
    }
}

/// Two strings match when ASCII case is ignored (`str::eq_ignore_ascii_case`).
pub open spec fn eq_ignore_ascii_case(a: Seq<char>, b: Seq<char>) -> bool {
    a.len() == b.len() && forall|i: int| 0 <= i < a.len() ==> ascii_fold(a[i]) == ascii_fold(b[i])
}

pub open spec fn is_brace(c: char) -> bool {
    c == '{' || c == '}'
}

/// `s` without the braces at its front.
pub open spec fn trim_braces_start(s: Seq<char>) -> Seq<char>
    decreases s.len(),
{
    if s.len() > 0 && is_brace(s[0]) {
        trim_braces_start(s.drop_first())
    } else {
        s
    }
}

/// `s` without the braces at its end.
pub open spec fn trim_braces_end(s: Seq<char>) -> Seq<char>
    decreases s.len(),
{
    if s.len() > 0 && is_brace(s.last()) {
        trim_braces_end(s.drop_last())
    } else {
        s
    }
}

/// `s` without the braces at either end (`str::trim_matches` with `{` and `}`).
pub open spec fn trim_braces(s: Seq<char>) -> Seq<char> {
    trim_braces_end(trim_braces_start(s))
}

/// Two widget ids name the same widget: they match ignoring ASCII case, or
/// they do so once the braces at their ends are taken off.
pub open spec fn widget_ids_match(stored: Seq<char>, target: Seq<char>) -> bool {
    eq_ignore_ascii_case(stored, target) || eq_ignore_ascii_case(
        trim_braces(stored),
        trim_braces(target),
    )
}

/// A character's code point with ASCII case folded.
pub(crate) fn fold(c: char) -> (r: u32)
    ensures
        r == ascii_fold(c),
{
    if 'A' <= c && c <= 'Z' {
        (c as u32) + 32
    } else {
        c as u32
    }
}

fn brace(c: char) -> (r: bool)
    ensures
        r == is_brace(c),
{
    c == '{' || c == '}'
}

/// Whether two character sequences match ignoring ASCII case.
fn eq_fold(a: &Vec<char>, b: &Vec<char>) -> (r: bool)
    ensures
        r == eq_ignore_ascii_case(a@, b@),
{
    if a.len() != b.len() {
        return false;
    }
    let mut i: usize = 0;
    while i < a.len()
        invariant
            a@.len() == b@.len(),
            i <= a@.len(),
            forall|j: int| 0 <= j < i ==> ascii_fold(a@[j]) == ascii_fold(b@[j]),
        decreases a@.len() - i,
    {
        if fold(a[i]) != fold(b[i]) {
            return false;
        }
        i = i + 1;
    }
    true
}

/// The characters of `v` without the braces at either end.
fn trimmed(v: &Vec<char>) -> (r: Vec<char>)
    ensures
        r@ == trim_braces(v@),
{
    let n = v.len();
    let mut i: usize = 0;
    assert(v@.subrange(0, n as int) =~= v@);
    while i < n && brace(v[i])
        invariant
            n == v@.len(),
            i <= n,
            trim_braces_start(v@) == trim_braces_start(v@.subrange(i as int, n as int)),
        decreases n - i,
    {
        proof {
            assert(v@.subrange(i + 1, n as int) =~= v@.subrange(i as int, n as int).drop_first());
        }
        i = i + 1;
    }
    let ghost front = v@.subrange(i as int, n as int);
    assert(trim_braces_start(front) == front);
    let mut j: usize = n;
    while j > i && brace(v[j - 1])
        invariant
            n == v@.len(),
            i <= j <= n,
            front == v@.subrange(i as int, n as int),
            trim_braces_end(front) == trim_braces_end(v@.subrange(i as int, j as int)),
        decreases j - i,
    {
        proof {
            assert(v@.subrange(i as int, j - 1) =~= v@.subrange(i as int, j as int).drop_last());
        }
        j = j - 1;
    }
    let ghost kept = v@.subrange(i as int, j as int);
    assert(trim_braces_end(kept) == kept);
    let mut out: Vec<char> = Vec::new();
    let mut k: usize = i;
    while k < j
        invariant
            n == v@.len(),
            i <= k <= j <= n,
            out@ == v@.subrange(i as int, k as int),
        decreases j - k,
    {
        out.push(v[k]);
        proof {
            assert(out@ =~= v@.subrange(i as int, k + 1));
        }
        k = k + 1;
    }
    out
}

/// Whether a stored widget id and an id received from the host name the same
/// widget: equal ignoring ASCII case, with or without the GUID braces.
pub fn matches_widget_id(stored_id: &str, target_id: &str) -> (r: bool)
    ensures
        r == widget_ids_match(stored_id@, target_id@),
{
    let a = chars_of(stored_id);
    let b = chars_of(target_id);
    if eq_fold(&a, &b) {
        return true;
    }
    let ta = trimmed(&a);
    let tb = trimmed(&b);
    eq_fold(&ta, &tb)
}

/// Every widget id names itself.
pub proof fn lemma_widget_ids_match_reflexive(id: Seq<char>)
    ensures
        widget_ids_match(id, id),
{
}

/// Whether two ids name the same widget does not depend on which is stored.
pub proof fn lemma_widget_ids_match_symmetric(a: Seq<char>, b: Seq<char>)
    ensures
        widget_ids_match(a, b) == widget_ids_match(b, a),
{
    if eq_ignore_ascii_case(a, b) {
        assert(eq_ignore_ascii_case(b, a));
    }
    if eq_ignore_ascii_case(b, a) {
        assert(eq_ignore_ascii_case(a, b));
    }
    if eq_ignore_ascii_case(trim_braces(a), trim_braces(b)) {
        assert(eq_ignore_ascii_case(trim_braces(b), trim_braces(a)));
    }
    if eq_ignore_ascii_case(trim_braces(b), trim_braces(a)) {
        assert(eq_ignore_ascii_case(trim_braces(a), trim_braces(b)));
    }
}

/// A brace matches, ignoring ASCII case, nothing but itself.
proof fn lemma_fold_keeps_braces(a: char, b: char)
    requires
        ascii_fold(a) == ascii_fold(b),
    ensures
        is_brace(a) == is_brace(b),
{
}

/// Trimming braces off the front of two strings that match ignoring ASCII case
/// leaves two strings that still match.
proof fn lemma_trim_start_keeps_match(a: Seq<char>, b: Seq<char>)
    requires
        eq_ignore_ascii_case(a, b),
    ensures
        eq_ignore_ascii_case(trim_braces_start(a), trim_braces_start(b)),
    decreases a.len(),
{
    if a.len() > 0 {
        lemma_fold_keeps_braces(a[0], b[0]);
        if is_brace(a[0]) {
            assert forall|i: int| 0 <= i < a.drop_first().len() implies ascii_fold(a.drop_first()[i])
                == ascii_fold(b.drop_first()[i]) by {
                assert(ascii_fold(a[i + 1]) == ascii_fold(b[i + 1]));
            }
            lemma_trim_start_keeps_match(a.drop_first(), b.drop_first());
        }
    }
}

/// Trimming braces off the end of two strings that match ignoring ASCII case
/// leaves two strings that still match.
proof fn lemma_trim_end_keeps_match(a: Seq<char>, b: Seq<char>)
    requires
        eq_ignore_ascii_case(a, b),
    ensures
        eq_ignore_ascii_case(trim_braces_end(a), trim_braces_end(b)),
    decreases a.len(),
{
    if a.len() > 0 {
        assert(ascii_fold(a[a.len() - 1]) == ascii_fold(b[b.len() - 1]));
        lemma_fold_keeps_braces(a.last(), b.last());
        if is_brace(a.last()) {
            assert forall|i: int| 0 <= i < a.drop_last().len() implies ascii_fold(a.drop_last()[i])
                == ascii_fold(b.drop_last()[i]) by {
                assert(ascii_fold(a[i]) == ascii_fold(b[i]));
            }
            lemma_trim_end_keeps_match(a.drop_last(), b.drop_last());
        }
    }
}

/// Two ids name the same widget exactly when they match ignoring ASCII case
/// once their braces are taken off.
proof fn lemma_match_is_trimmed_match(a: Seq<char>, b: Seq<char>)
    ensures
        widget_ids_match(a, b) == eq_ignore_ascii_case(trim_braces(a), trim_braces(b)),
{
    if eq_ignore_ascii_case(a, b) {
        lemma_trim_start_keeps_match(a, b);
        lemma_trim_end_keeps_match(trim_braces_start(a), trim_braces_start(b));
    }
}

/// Two ids that each name the same widget as a third name the same widget:
/// with reflexivity and symmetry, matching is an equivalence.
pub proof fn lemma_widget_ids_match_transitive(a: Seq<char>, b: Seq<char>, c: Seq<char>)
    requires
        widget_ids_match(a, b),
        widget_ids_match(b, c),
    ensures
        widget_ids_match(a, c),
{
    lemma_match_is_trimmed_match(a, b);
    lemma_match_is_trimmed_match(b, c);
    lemma_match_is_trimmed_match(a, c);
    let (ta, tb, tc) = (trim_braces(a), trim_braces(b), trim_braces(c));
    assert forall|i: int| 0 <= i < ta.len() implies ascii_fold(ta[i]) == ascii_fold(tc[i]) by {
        assert(ascii_fold(ta[i]) == ascii_fold(tb[i]));
        assert(ascii_fold(tb[i]) == ascii_fold(tc[i]));
    }
}

} // verus!
