//! Verified substring search, extraction and replacement over `&str`.
//!
//! Everything is specified against the character sequences (`Seq<char>`)
//! that vstd gives as the view of `str` and `String`.

use vstd::prelude::*;
use vstd::string::StrSliceExecFns;
use vstd::string::StringExecFns;

verus! {

/// `pat` occurs in `text` starting at index `i`.
pub open spec fn match_at(text: Seq<char>, pat: Seq<char>, i: int) -> bool {
    0 <= i && i + pat.len() <= text.len() && text.subrange(i, i + pat.len() as int) == pat
}

/// Index of the first occurrence of `pat` in `text` at or after `from`,
/// or -1 when there is none.
pub open spec fn find_from(text: Seq<char>, pat: Seq<char>, from: int) -> int
    decreases text.len() - from,
{
    if from < 0 {
        find_from(text, pat, 0)
    } else if pat.len() == 0 {
        if from <= text.len() {
            from
        } else {
            -1
        }
    } else if from + pat.len() > text.len() {
        -1
    } else if match_at(text, pat, from) {
        from
    } else {
        find_from(text, pat, from + 1)
    }
}

/// `pat` occurs somewhere in `text`.
pub open spec fn contains_seq(text: Seq<char>, pat: Seq<char>) -> bool {
    exists|i: int| match_at(text, pat, i)
}

/// What `find_from` returns: the first match at or after `from`, if any.
pub proof fn lemma_find_from_props(text: Seq<char>, pat: Seq<char>, from: int)
    requires
        0 <= from,
    ensures
        find_from(text, pat, from) == -1 || find_from(text, pat, from) >= from,
        find_from(text, pat, from) == -1 ==> forall|j: int|
            from <= j ==> !match_at(text, pat, j),
        find_from(text, pat, from) >= 0 ==> {
            let f = find_from(text, pat, from);
            &&& from <= f
            &&& match_at(text, pat, f)
            &&& forall|j: int| from <= j < f ==> !match_at(text, pat, j)
        },
    decreases text.len() - from,
{
    if pat.len() == 0 {
        if from <= text.len() {
            assert(text.subrange(from, from) =~= pat);
        } else {
            assert forall|j: int| from <= j implies !match_at(text, pat, j) by {
                assert(j + pat.len() > text.len());
            }
        }
    } else if from + pat.len() > text.len() {
        assert forall|j: int| from <= j implies !match_at(text, pat, j) by {
            assert(j + pat.len() > text.len());
        }
    } else if match_at(text, pat, from) {
    } else {
        lemma_find_from_props(text, pat, from + 1);
    }
}

/// If `i` is a match and nothing before it (from `from` on) matches,
/// then `find_from` returns exactly `i`.
pub proof fn lemma_find_from_is(text: Seq<char>, pat: Seq<char>, from: int, i: int)
    requires
        0 <= from <= i,
        match_at(text, pat, i),
        forall|j: int| from <= j < i ==> !match_at(text, pat, j),
    ensures
        find_from(text, pat, from) == i,
{
    lemma_find_from_props(text, pat, from);
    let f = find_from(text, pat, from);
    if f == -1 {
        assert(!match_at(text, pat, i));
    } else {
        if f < i {
            assert(!match_at(text, pat, f));
        }
        if f > i {
            assert(!match_at(text, pat, i));
        }
    }
}

/// If nothing at or after `from` matches, `find_from` reports no match.
pub proof fn lemma_find_from_none(text: Seq<char>, pat: Seq<char>, from: int)
    requires
        0 <= from,
        forall|j: int| from <= j ==> !match_at(text, pat, j),
    ensures
        find_from(text, pat, from) == -1,
{
    lemma_find_from_props(text, pat, from);
    let f = find_from(text, pat, from);
    if f >= 0 {
        assert(!match_at(text, pat, f));
    }
}

/// Whether `pat` occurs in `text` at exactly index `i`.
pub fn is_match_at_exec(text: &str, pat: &str, i: usize) -> (r: bool)
    ensures
        r == match_at(text@, pat@, i as int),
{
    let n = text.unicode_len();
    let m = pat.unicode_len();
    if m > n || i > n - m {
        assert(!match_at(text@, pat@, i as int));
        return false;
    }
    let mut j: usize = 0;
    while j < m
        invariant
            j <= m,
            i + m <= n,
            n == text@.len(),
            m == pat@.len(),
            forall|k: int| 0 <= k < j ==> text@[i + k] == pat@[k],
        decreases m - j,
    {
        if text.get_char(i + j) != pat.get_char(j) {
            proof {
                assert(text@.subrange(i as int, i + m as int) != pat@) by {
                    assert(text@.subrange(i as int, i + m as int)[j as int] == text@[i + j]);
                }
            }
            return false;
        }
        j = j + 1;
    }
    proof {
        assert(text@.subrange(i as int, i + m as int) =~= pat@);
    }
    true
}

/// First occurrence of `pat` in `text` at or after index `from`.
pub fn find_sub(text: &str, pat: &str, from: usize) -> (r: Option<usize>)
    requires
        from <= text@.len(),
    ensures
        ({
            let f = find_from(text@, pat@, from as int);
            match r {
                Some(i) => f == i as int,
                None => f == -1,
            }
        }),
{
    let n = text.unicode_len();
    let m = pat.unicode_len();
    if m == 0 {
        return Some(from);
    }
    if m > n || from > n - m {
        proof {
            lemma_find_from_none(text@, pat@, from as int);
        }
        return None;
    }
    let mut i: usize = from;
    while i <= n - m
        invariant
            from <= i,
            1 <= m <= n,
            i <= n - m + 1,
            n == text@.len(),
            m == pat@.len(),
            forall|j: int| from <= j < i ==> !match_at(text@, pat@, j),
        decreases n - m + 1 - i,
    {
        if is_match_at_exec(text, pat, i) {
            proof {
                lemma_find_from_is(text@, pat@, from as int, i as int);
            }
            return Some(i);
        }
        i = i + 1;
    }
    proof {
        assert forall|j: int| from <= j implies !match_at(text@, pat@, j) by {
            if j < i {
            } else {
                assert(j + pat@.len() > text@.len());
            }
        }
        lemma_find_from_none(text@, pat@, from as int);
    }
    None
}

/// Whether `pat` occurs anywhere in `text`.
pub fn contains_sub(text: &str, pat: &str) -> (r: bool)
    ensures
        r == contains_seq(text@, pat@),
{
    match find_sub(text, pat, 0) {
        Some(i) => {
            proof {
                lemma_find_from_props(text@, pat@, 0);
            }
            true
        },
        None => {
            proof {
                lemma_find_from_props(text@, pat@, 0);
                assert forall|j: int| !match_at(text@, pat@, j) by {
                    if j >= 0 {
                        assert(!match_at(text@, pat@, j));
                    }
                }
            }
            false
        },
    }
}

/// Whether `text` begins with `pat`.
pub fn starts_with_sub(text: &str, pat: &str) -> (r: bool)
    ensures
        r == match_at(text@, pat@, 0),
{
    is_match_at_exec(text, pat, 0)
}

/// The text between the first occurrence of `start_tag` and the next
/// occurrence of `end_tag` after it, if both are present.
pub open spec fn extract_spec(t: Seq<char>, start_tag: Seq<char>, end_tag: Seq<char>) -> Option<
    Seq<char>,
> {
    let s0 = find_from(t, start_tag, 0);
    if s0 < 0 {
        None
    } else {
        let cs = s0 + start_tag.len();
        let e = find_from(t, end_tag, cs);
        if e < 0 {
            None
        } else {
            Some(t.subrange(cs, e))
        }
    }
}

/// Locate `start_tag`, then `end_tag` after it, and hand back what lies
/// in between.
pub fn extract_tag_content<'a>(text: &'a str, start_tag: &str, end_tag: &str) -> (r: Option<
    &'a str,
>)
    ensures
        ({
            let ex = extract_spec(text@, start_tag@, end_tag@);
            match r {
                Some(c) => ex matches Some(cv) && c@ == cv,
                None => ex is None,
            }
        }),
{
    let n = text.unicode_len();
    let st_len = start_tag.unicode_len();
    match find_sub(text, start_tag, 0) {
        None => None,
        Some(s0) => {
            proof {
                lemma_find_from_props(text@, start_tag@, 0);
                if start_tag@.len() == 0 {
                    assert(text@.subrange(s0 as int, s0 as int) =~= start_tag@);
                }
            }
            let cs = s0 + st_len;
            match find_sub(text, end_tag, cs) {
                None => None,
                Some(e) => {
                    proof {
                        lemma_find_from_props(text@, end_tag@, cs as int);
                    }
                    Some(text.substring_char(cs, e))
                },
            }
        },
    }
}

/// `s` with every occurrence of `pat` replaced by `to`, scanning left to
/// right without overlap; the empty pattern replaces nothing.
pub open spec fn replace_seq(s: Seq<char>, pat: Seq<char>, to: Seq<char>) -> Seq<char>
    decreases s.len(),
{
    if pat.len() == 0 || s.len() < pat.len() {
        s
    } else if s.subrange(0, pat.len() as int) == pat {
        to + replace_seq(s.subrange(pat.len() as int, s.len() as int), pat, to)
    } else {
        seq![s[0]] + replace_seq(s.subrange(1, s.len() as int), pat, to)
    }
}

proof fn lemma_replace_step_match(s: Seq<char>, pat: Seq<char>, to: Seq<char>, i: int)
    requires
        pat.len() >= 1,
        match_at(s, pat, i),
    ensures
        replace_seq(s.subrange(i, s.len() as int), pat, to) == to + replace_seq(
            s.subrange(i + pat.len(), s.len() as int),
            pat,
            to,
        ),
{
    let suffix = s.subrange(i, s.len() as int);
    assert(suffix.subrange(0, pat.len() as int) =~= s.subrange(i, i + pat.len() as int));
    assert(suffix.subrange(pat.len() as int, suffix.len() as int) =~= s.subrange(
        i + pat.len(),
        s.len() as int,
    ));
}

proof fn lemma_replace_step_no_match(s: Seq<char>, pat: Seq<char>, to: Seq<char>, i: int)
    requires
        pat.len() >= 1,
        0 <= i < s.len(),
        !match_at(s, pat, i),
    ensures
        replace_seq(s.subrange(i, s.len() as int), pat, to) == seq![s[i]] + replace_seq(
            s.subrange(i + 1, s.len() as int),
            pat,
            to,
        ),
{
    let suffix = s.subrange(i, s.len() as int);
    let tail = s.subrange(i + 1, s.len() as int);
    assert(suffix.subrange(1, suffix.len() as int) =~= tail);
    if suffix.len() < pat.len() {
        assert(replace_seq(suffix, pat, to) == suffix);
        assert(replace_seq(tail, pat, to) == tail);
        assert(suffix =~= seq![s[i]] + tail);
    } else {
        assert(suffix.subrange(0, pat.len() as int) =~= s.subrange(i, i + pat.len() as int));
        assert(suffix.subrange(0, pat.len() as int) != pat);
        assert(seq![suffix[0]] =~= seq![s[i]]);
    }
}

/// `s` with every occurrence of `pat` replaced by `to`, left to right.
pub fn replace_all(s: &str, pat: &str, to: &str) -> (r: String)
    requires
        pat@.len() >= 1,
    ensures
        r@ == replace_seq(s@, pat@, to@),
{
    let n = s.unicode_len();
    let m = pat.unicode_len();
    let mut out = String::new();
    let mut i: usize = 0;
    proof {
        assert(s@.subrange(0, n as int) =~= s@);
        assert(out@ + replace_seq(s@, pat@, to@) =~= replace_seq(s@, pat@, to@));
    }
    while i < n
        invariant
            i <= n,
            n == s@.len(),
            m == pat@.len(),
            m >= 1,
            replace_seq(s@, pat@, to@) == out@ + replace_seq(
                s@.subrange(i as int, n as int),
                pat@,
                to@,
            ),
        decreases n - i,
    {
        if is_match_at_exec(s, pat, i) {
            let ghost prev = out@;
            out.append(to);
            proof {
                lemma_replace_step_match(s@, pat@, to@, i as int);
                assert(prev + (to@ + replace_seq(s@.subrange(i + m as int, n as int), pat@, to@))
                    =~= out@ + replace_seq(s@.subrange(i + m as int, n as int), pat@, to@));
            }
            i = i + m;
        } else {
            let ghost prev = out@;
            let piece = s.substring_char(i, i + 1);
            out.append(piece);
            proof {
                lemma_replace_step_no_match(s@, pat@, to@, i as int);
                assert(piece@ =~= seq![s@[i as int]]);
                assert(prev + (seq![s@[i as int]] + replace_seq(
                    s@.subrange(i + 1, n as int),
                    pat@,
                    to@,
                )) =~= out@ + replace_seq(s@.subrange(i + 1, n as int), pat@, to@));
            }
            i = i + 1;
        }
    }
    proof {
        assert(s@.subrange(n as int, n as int) =~= Seq::<char>::empty());
        assert(out@ + Seq::<char>::empty() =~= out@);
    }
    out
}

} // verus!
