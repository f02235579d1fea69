//! Finding the occurrences of a pattern in a text.
use crate::buffer::editor::lemma_walk_bounds;
use crate::search::types::{line_column_at, line_column_of, SearchMatch};
use crate::text::{ascii_lower, chars_of, to_ascii_lower};
use vstd::prelude::*;

verus! {

/// Matches within a text of `n` characters: in order, not overlapping, each
/// with the line and column of its start.
pub open spec fn well_placed(t: Seq<char>, ms: Seq<SearchMatch>) -> bool {
    &&& forall|k: int| 0 <= k < ms.len() ==> (#[trigger] ms[k]).start <= ms[k].end <= t.len()
    &&& forall|k: int|
        0 <= k < ms.len() ==> (#[trigger] ms[k]).line == line_column_of(t, ms[k].start as int).0
            && ms[k].column == line_column_of(t, ms[k].start as int).1
    &&& forall|j: int, k: int| 0 <= j < k < ms.len() ==> (#[trigger] ms[j]).end <= (#[trigger] ms[k]).start
    &&& forall|j: int, k: int| 0 <= j < k < ms.len() ==> (#[trigger] ms[j]).start < (#[trigger] ms[k]).start
}

/// Finds the occurrences of a pattern; implemented by users for other kinds
/// of matching.
pub trait StringMatcher {
    /// The matches this matcher finds.
    spec fn found(&self, text: Seq<char>, pattern: Seq<char>, case_sensitive: bool) -> Seq<SearchMatch>;

    fn find_matches(&self, text: &str, pattern: &str, case_sensitive: bool) -> (r: Vec<SearchMatch>)
        ensures
            r@ == self.found(text@, pattern@, case_sensitive),
            well_placed(text@, r@),
    ;
}

/// Two characters are equal, or equal up to ASCII case.
pub open spec fn chars_match(a: char, b: char, case_sensitive: bool) -> bool {
    if case_sensitive {
        a == b
    } else {
        ascii_lower(a) == ascii_lower(b)
    }
}

/// Pattern `p` occurs in `t` at `i`.
pub open spec fn occurs_here(t: Seq<char>, p: Seq<char>, i: int, cs: bool) -> bool {
    &&& 0 <= i
    &&& i + p.len() <= t.len()
    &&& forall|k: int| 0 <= k < p.len() ==> chars_match(#[trigger] t[i + k], p[k], cs)
}

/// Starts of the occurrences of `p` found scanning `t` from `i`: at each
/// occurrence the scan continues after it, otherwise one character on.
pub open spec fn scan_starts(t: Seq<char>, p: Seq<char>, cs: bool, i: int) -> Seq<int>
    decreases t.len() - i,
{
    if p.len() == 0 || i < 0 || i + p.len() > t.len() {
        Seq::empty()
    } else if occurs_here(t, p, i, cs) {
        seq![i] + scan_starts(t, p, cs, i + p.len())
    } else {
        scan_starts(t, p, cs, i + 1)
    }
}

/// The match of `n` characters at `start`.
pub open spec fn match_at(t: Seq<char>, start: int, n: int) -> SearchMatch {
    SearchMatch {
        start: start as usize,
        end: (start + n) as usize,
        line: line_column_of(t, start).0 as usize,
        column: line_column_of(t, start).1 as usize,
    }
}

/// The literal occurrences of `p` in `t`, left to right, not overlapping.
pub open spec fn literal_matches(t: Seq<char>, p: Seq<char>, cs: bool) -> Seq<SearchMatch> {
    scan_starts(t, p, cs, 0).map_values(|s: int| match_at(t, s, p.len() as int))
}

proof fn lemma_scan_bounds(t: Seq<char>, p: Seq<char>, cs: bool, i: int)
    requires
        i >= 0,
    ensures
        forall|k: int|
            0 <= k < scan_starts(t, p, cs, i).len() ==> i <= #[trigger] scan_starts(t, p, cs, i)[k]
                && scan_starts(t, p, cs, i)[k] + p.len() <= t.len(),
        forall|j: int, k: int|
            0 <= j < k < scan_starts(t, p, cs, i).len() ==> #[trigger] scan_starts(t, p, cs, i)[j] + p.len()
                <= #[trigger] scan_starts(t, p, cs, i)[k],
    decreases t.len() - i,
{
    let s = scan_starts(t, p, cs, i);
    if p.len() == 0 || i + p.len() > t.len() {
    } else if occurs_here(t, p, i, cs) {
        lemma_scan_bounds(t, p, cs, i + p.len());
        let rest = scan_starts(t, p, cs, i + p.len());
        assert(s == seq![i] + rest);
        assert forall|k: int| 0 <= k < s.len() implies i <= #[trigger] s[k] && s[k] + p.len() <= t.len() by {
            if k > 0 {
                assert(s[k] == rest[k - 1]);
            }
        }
        assert forall|j: int, k: int| 0 <= j < k < s.len() implies #[trigger] s[j] + p.len() <= #[trigger] s[k] by {
            assert(s[k] == rest[k - 1]);
            if j > 0 {
                assert(s[j] == rest[j - 1]);
            }
        }
    } else {
        lemma_scan_bounds(t, p, cs, i + 1);
        assert(s == scan_starts(t, p, cs, i + 1));
    }
}

/// Each literal match lies within the text and is an occurrence of the
/// pattern there, under the case rule it was found with.
pub proof fn lemma_literal_matches_occur(t: Seq<char>, p: Seq<char>, cs: bool)
    requires
        t.len() <= usize::MAX,
    ensures
        forall|j: int|
            0 <= j < literal_matches(t, p, cs).len() ==> occurs_here(
                t,
                p,
                (#[trigger] literal_matches(t, p, cs)[j]).start as int,
                cs,
            ) && literal_matches(t, p, cs)[j].end == literal_matches(t, p, cs)[j].start + p.len(),
{
    lemma_scan_bounds(t, p, cs, 0);
    lemma_scan_occurs(t, p, cs, 0);
}

proof fn lemma_scan_occurs(t: Seq<char>, p: Seq<char>, cs: bool, i: int)
    requires
        i >= 0,
    ensures
        forall|k: int|
            0 <= k < scan_starts(t, p, cs, i).len() ==> occurs_here(t, p, #[trigger] scan_starts(t, p, cs, i)[k], cs),
    decreases t.len() - i,
{
    let s = scan_starts(t, p, cs, i);
    if p.len() == 0 || i + p.len() > t.len() {
    } else if occurs_here(t, p, i, cs) {
        lemma_scan_occurs(t, p, cs, i + p.len());
        let rest = scan_starts(t, p, cs, i + p.len());
        assert(s == seq![i] + rest);
        assert forall|k: int| 0 <= k < s.len() implies occurs_here(t, p, #[trigger] s[k], cs) by {
            if k > 0 {
                assert(s[k] == rest[k - 1]);
            } else {
                assert(s[0] == i);
            }
        }
    } else {
        lemma_scan_occurs(t, p, cs, i + 1);
        assert(s == scan_starts(t, p, cs, i + 1));
    }
}

/// Case-insensitive comparison identifies each ASCII letter with its other
/// case and nothing else: two characters match regardless of case exactly
/// when they are equal or are the two cases of one ASCII letter.
pub proof fn law_ascii_case_folding(a: char, b: char)
    ensures
        chars_match(a, b, true) <==> a == b,
        chars_match(a, b, false) <==> (a == b || ('a' <= a <= 'z' && b as u32 == a as u32 - 32) || ('A' <= a <= 'Z'
            && b as u32 == a as u32 + 32)),
{
    let la = ascii_lower(a);
    let lb = ascii_lower(b);
    assert(la as u32 == if 'A' <= a <= 'Z' { a as u32 + 32 } else { a as u32 as int });
    assert(lb as u32 == if 'A' <= b <= 'Z' { b as u32 + 32 } else { b as u32 as int });
}

/// No occurrence is missed: every place where a non-empty pattern occurs
/// is the start of a literal match, or lies inside one found before it
/// (matches do not overlap).
pub proof fn law_literal_matches_complete(t: Seq<char>, p: Seq<char>, cs: bool, j: int)
    requires
        p.len() > 0,
        t.len() <= usize::MAX,
        occurs_here(t, p, j, cs),
    ensures
        exists|k: int|
            0 <= k < literal_matches(t, p, cs).len() && (#[trigger] literal_matches(t, p, cs)[k]).start <= j
                < literal_matches(t, p, cs)[k].start + p.len(),
{
    lemma_scan_complete(t, p, cs, 0, j);
    lemma_scan_bounds(t, p, cs, 0);
    let k = choose|k: int|
        0 <= k < scan_starts(t, p, cs, 0).len() && #[trigger] scan_starts(t, p, cs, 0)[k] <= j < scan_starts(
            t,
            p,
            cs,
            0,
        )[k] + p.len();
    assert(literal_matches(t, p, cs)[k].start == scan_starts(t, p, cs, 0)[k]);
}

proof fn lemma_scan_complete(t: Seq<char>, p: Seq<char>, cs: bool, i: int, j: int)
    requires
        p.len() > 0,
        0 <= i <= j,
        occurs_here(t, p, j, cs),
    ensures
        exists|k: int|
            0 <= k < scan_starts(t, p, cs, i).len() && #[trigger] scan_starts(t, p, cs, i)[k] <= j < scan_starts(
                t,
                p,
                cs,
                i,
            )[k] + p.len(),
    decreases t.len() - i,
{
    let s = scan_starts(t, p, cs, i);
    if occurs_here(t, p, i, cs) {
        assert(s == seq![i] + scan_starts(t, p, cs, i + p.len()));
        if j < i + p.len() {
            assert(s[0] == i);
        } else {
            lemma_scan_complete(t, p, cs, i + p.len(), j);
            let rest = scan_starts(t, p, cs, i + p.len());
            let k = choose|k: int| 0 <= k < rest.len() && #[trigger] rest[k] <= j < rest[k] + p.len();
            assert(s[k + 1] == rest[k]);
        }
    } else {
        assert(j > i);
        lemma_scan_complete(t, p, cs, i + 1, j);
        assert(s == scan_starts(t, p, cs, i + 1));
    }
}

/// The literal matcher.
#[derive(Debug, Clone, Copy)]
pub struct LiteralMatcher;

impl LiteralMatcher {
    /// The matcher.
    pub fn new() -> (r: Self)
        ensures
            r == LiteralMatcher,
    {
        LiteralMatcher
    }

    fn char_eq(a: char, b: char, case_sensitive: bool) -> (r: bool)
        ensures
            r == chars_match(a, b, case_sensitive),
    {
        if case_sensitive {
            a == b
        } else {
            to_ascii_lower(a) == to_ascii_lower(b)
        }
    }

    fn occurs(t: &Vec<char>, p: &Vec<char>, i: usize, case_sensitive: bool) -> (r: bool)
        requires
            i + p@.len() <= t@.len(),
        ensures
            r == occurs_here(t@, p@, i as int, case_sensitive),
    {
        let n = t.len();
        let mut k: usize = 0;
        while k < p.len()
            invariant
                n == t@.len(),
                i + p@.len() <= t@.len(),
                k <= p@.len(),
                forall|m: int| 0 <= m < k ==> chars_match(#[trigger] t@[i + m], p@[m], case_sensitive),
            decreases p@.len() - k,
        {
            if !Self::char_eq(t[i + k], p[k], case_sensitive) {
                assert(!chars_match(t@[i + k], p@[k as int], case_sensitive));
                return false;
            }
            k += 1;
        }
        true
    }
}

impl StringMatcher for LiteralMatcher {
    open spec fn found(&self, text: Seq<char>, pattern: Seq<char>, case_sensitive: bool) -> Seq<SearchMatch> {
        literal_matches(text, pattern, case_sensitive)
    }

    fn find_matches(&self, text: &str, pattern: &str, case_sensitive: bool) -> (r: Vec<SearchMatch>) {
        let t = chars_of(text);
        let p = chars_of(pattern);
        let mut starts: Vec<usize> = Vec::new();
        let mut i: usize = 0;
        if p.len() > 0 {
            while i <= t.len() && p.len() <= t.len() - i
                invariant
                    t@ == text@,
                    p@ == pattern@,
                    p@.len() > 0,
                    i <= t@.len() + 1,
                    scan_starts(t@, p@, case_sensitive, 0) == starts@.map_values(|s: usize| s as int)
                        + scan_starts(t@, p@, case_sensitive, i as int),
                decreases t@.len() + 1 - i,
            {
                if Self::occurs(&t, &p, i, case_sensitive) {
                    assert(scan_starts(t@, p@, case_sensitive, i as int) == seq![i as int] + scan_starts(
                        t@,
                        p@,
                        case_sensitive,
                        i + p@.len(),
                    ));
                    let ghost before = starts@;
                    starts.push(i);
                    assert(starts@.map_values(|s: usize| s as int) =~= before.map_values(|s: usize| s as int).push(i as int));
                    assert(before.map_values(|s: usize| s as int) + (seq![i as int] + scan_starts(
                        t@,
                        p@,
                        case_sensitive,
                        i + p@.len(),
                    )) =~= starts@.map_values(|s: usize| s as int) + scan_starts(t@, p@, case_sensitive, i + p@.len()));
                    i = i + p.len();
                } else {
                    i = i + 1;
                }
            }
        }
        assert(scan_starts(t@, p@, case_sensitive, i as int) =~= Seq::<int>::empty());
        let ghost ss = scan_starts(t@, p@, case_sensitive, 0);
        assert(ss =~= starts@.map_values(|s: usize| s as int));
        proof {
            lemma_scan_bounds(t@, p@, case_sensitive, 0);
        }
        let mut result: Vec<SearchMatch> = Vec::new();
        let mut k: usize = 0;
        while k < starts.len()
            invariant
                t@ == text@,
                p@ == pattern@,
                k <= starts@.len(),
                ss == starts@.map_values(|s: usize| s as int),
                ss == scan_starts(t@, p@, case_sensitive, 0),
                result@.len() == k,
                forall|m: int| 0 <= m < k ==> #[trigger] result@[m] == match_at(t@, ss[m], p@.len() as int),
                forall|m: int| 0 <= m < ss.len() ==> #[trigger] ss[m] + p@.len() <= t@.len(),
            decreases starts@.len() - k,
        {
            let s = starts[k];
            assert(ss[k as int] == s);
            let (line, column) = line_column_at(&t, s);
            result.push(SearchMatch { start: s, end: s + p.len(), line, column });
            k += 1;
        }
        assert(result@ =~= literal_matches(text@, pattern@, case_sensitive));
        let n = t.len();
        proof {
            lemma_literal_well_placed(text@, pattern@, case_sensitive);
        }
        result
    }
}

/// The literal matches are well placed.
pub proof fn lemma_literal_well_placed(t: Seq<char>, p: Seq<char>, cs: bool)
    requires
        t.len() <= usize::MAX,
    ensures
        well_placed(t, literal_matches(t, p, cs)),
{
    lemma_scan_bounds(t, p, cs, 0);
    let ms = literal_matches(t, p, cs);
    let ss = scan_starts(t, p, cs, 0);
    if p.len() == 0 {
        assert(ss.len() == 0);
    }
    assert forall|k: int| 0 <= k < ms.len() implies (#[trigger] ms[k]).start <= ms[k].end <= t.len() by {
        assert(ms[k] == match_at(t, ss[k], p.len() as int));
        assert(ss[k] >= 0);
    }
    assert forall|k: int| 0 <= k < ms.len() implies (#[trigger] ms[k]).line == line_column_of(t, ms[k].start as int).0
        && ms[k].column == line_column_of(t, ms[k].start as int).1 by {
        assert(ms[k] == match_at(t, ss[k], p.len() as int));
        assert(ss[k] >= 0);
        lemma_walk_bounds(0, 0, t.take(ss[k]));
    }
    assert forall|j: int, k: int| 0 <= j < k < ms.len() implies (#[trigger] ms[j]).end <= (#[trigger] ms[k]).start by {
        assert(ms[j] == match_at(t, ss[j], p.len() as int));
        assert(ms[k] == match_at(t, ss[k], p.len() as int));
        assert(ss[j] + p.len() <= ss[k]);
        assert(ss[j] >= 0);
    }
    assert forall|j: int, k: int| 0 <= j < k < ms.len() implies (#[trigger] ms[j]).start < (#[trigger] ms[k]).start by {
        assert(ms[j] == match_at(t, ss[j], p.len() as int));
        assert(ms[k] == match_at(t, ss[k], p.len() as int));
        assert(ss[j] + p.len() <= ss[k]);
        assert(ss[j] >= 0);
    }
}

} // verus!
