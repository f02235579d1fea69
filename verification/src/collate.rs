//! The order of strings by their characters (the order of `str`'s `Ord`,
//! which compares UTF-8 bytes and so code points) and sorting by it.
use crate::text::{chars_of, concat_str};
use vstd::prelude::*;

verus! {

broadcast use vstd::seq_lib::group_to_multiset_ensures;

/// The strings of a sequence of strings, as character sequences.
pub open spec fn texts(v: Seq<String>) -> Seq<Seq<char>> {
    v.map_values(|s: String| s@)
}

/// `a` comes before `b` or equals it, comparing characters by code point
/// and a proper prefix before the longer text.
pub open spec fn text_le(a: Seq<char>, b: Seq<char>) -> bool
    decreases a.len(),
{
    if a.len() == 0 {
        true
    } else if b.len() == 0 {
        false
    } else if a[0] != b[0] {
        (a[0] as int) < (b[0] as int)
    } else {
        text_le(a.drop_first(), b.drop_first())
    }
}

/// Every text comes before or equals the ones after it.
pub open spec fn sorted_texts(s: Seq<Seq<char>>) -> bool {
    forall|i: int, j: int| 0 <= i < j < s.len() ==> text_le(#[trigger] s[i], #[trigger] s[j])
}

pub proof fn lemma_text_le_total(a: Seq<char>, b: Seq<char>)
    ensures
        text_le(a, b) || text_le(b, a),
    decreases a.len(),
{
    if a.len() > 0 && b.len() > 0 && a[0] == b[0] {
        lemma_text_le_total(a.drop_first(), b.drop_first());
    }
}

pub proof fn lemma_text_le_trans(a: Seq<char>, b: Seq<char>, c: Seq<char>)
    requires
        text_le(a, b),
        text_le(b, c),
    ensures
        text_le(a, c),
    decreases a.len(),
{
    if a.len() > 0 && b.len() > 0 && c.len() > 0 && a[0] == b[0] && b[0] == c[0] {
        lemma_text_le_trans(a.drop_first(), b.drop_first(), c.drop_first());
    }
}

proof fn lemma_text_le_skip(a: Seq<char>, b: Seq<char>, i: int)
    requires
        0 <= i <= a.len(),
        i <= b.len(),
        a.take(i) == b.take(i),
    ensures
        text_le(a, b) == text_le(a.skip(i), b.skip(i)),
    decreases i,
{
    if i > 0 {
        assert(a[0] == a.take(i)[0]);
        assert(b[0] == b.take(i)[0]);
        assert(a.drop_first().take(i - 1) =~= a.take(i).drop_first());
        assert(b.drop_first().take(i - 1) =~= b.take(i).drop_first());
        lemma_text_le_skip(a.drop_first(), b.drop_first(), i - 1);
        assert(a.drop_first().skip(i - 1) =~= a.skip(i));
        assert(b.drop_first().skip(i - 1) =~= b.skip(i));
    } else {
        assert(a.skip(0) =~= a);
        assert(b.skip(0) =~= b);
    }
}

/// Whether `a` comes strictly before `b`.
pub fn text_less(a: &str, b: &str) -> (r: bool)
    ensures
        r == !text_le(b@, a@),
{
    let va = chars_of(a);
    let vb = chars_of(b);
    let mut i: usize = 0;
    while i < va.len() && i < vb.len()
        invariant
            va@ == a@,
            vb@ == b@,
            i <= va.len(),
            i <= vb.len(),
            va@.take(i as int) == vb@.take(i as int),
        decreases va.len() - i,
    {
        if va[i] != vb[i] {
            proof {
                lemma_text_le_skip(vb@, va@, i as int);
                assert(vb@.skip(i as int)[0] == vb@[i as int]);
                assert(va@.skip(i as int)[0] == va@[i as int]);
            }
            return va[i] < vb[i];
        }
        assert(va@.take(i + 1) =~= va@.take(i as int).push(va@[i as int]));
        assert(vb@.take(i + 1) =~= vb@.take(i as int).push(vb@[i as int]));
        i += 1;
    }
    proof {
        lemma_text_le_skip(vb@, va@, i as int);
    }
    va.len() < vb.len()
}

/// Inserts `x` into a sorted vector after the texts that do not come
/// after it; the vector stays sorted and gains exactly `x`.
pub fn insert_sorted(v: &mut Vec<String>, x: String)
    requires
        sorted_texts(texts(old(v)@)),
    ensures
        sorted_texts(texts(final(v)@)),
        texts(final(v)@).to_multiset() == texts(old(v)@).to_multiset().insert(x@),
        final(v)@.len() == old(v)@.len() + 1,
{
    let ghost s = texts(v@);
    let mut j: usize = 0;
    let mut found = false;
    while !found && j < v.len()
        invariant
            v@ == old(v)@,
            s == texts(v@),
            j <= v.len(),
            found ==> j < v.len() && !text_le(s[j as int], x@),
            forall|k: int| 0 <= k < j ==> text_le(#[trigger] s[k], x@),
        decreases v.len() - j, if found { 0int } else { 1int },
    {
        assert(s[j as int] == v@[j as int]@);
        if text_less(x.as_str(), v[j].as_str()) {
            found = true;
        } else {
            j += 1;
        }
    }
    let ghost xv = x@;
    v.insert(j, x);
    assert(texts(v@) =~= s.insert(j as int, xv));
    proof {
        vstd::seq_lib::to_multiset_insert(s, j as int, xv);
        let t = texts(v@);
        assert forall|a: int, b: int| 0 <= a < b < t.len() implies text_le(#[trigger] t[a], #[trigger] t[b]) by {
            if b < j {
                assert(t[a] == s[a] && t[b] == s[b]);
            } else if b == j {
                assert(t[a] == s[a] && t[b] == xv);
            } else if a == j {
                assert(t[b] == s[b - 1]);
                assert(!text_le(s[j as int], xv));
                lemma_text_le_total(s[j as int], xv);
                if b - 1 > j {
                    lemma_text_le_trans(xv, s[j as int], s[b - 1]);
                }
            } else if a < j {
                assert(t[a] == s[a] && t[b] == s[b - 1]);
                if b - 1 > a {
                    assert(text_le(s[a], s[b - 1]));
                }
            } else {
                assert(t[a] == s[a - 1] && t[b] == s[b - 1]);
            }
        }
    }
}

/// The same texts in sorted order.
pub fn sorted_copy(v: &Vec<String>) -> (r: Vec<String>)
    ensures
        sorted_texts(texts(r@)),
        texts(r@).to_multiset() == texts(v@).to_multiset(),
        r@.len() == v@.len(),
{
    let mut out: Vec<String> = Vec::new();
    let mut i: usize = 0;
    while i < v.len()
        invariant
            i <= v.len(),
            sorted_texts(texts(out@)),
            texts(out@).to_multiset() == texts(v@.take(i as int)).to_multiset(),
            out@.len() == i,
        decreases v.len() - i,
    {
        proof {
            assert(texts(v@.take(i + 1)) =~= texts(v@.take(i as int)).push(v@[i as int]@));
            vstd::seq_lib::to_multiset_build(texts(v@.take(i as int)), v@[i as int]@);
        }
        insert_sorted(&mut out, v[i].clone());
        i += 1;
    }
    assert(v@.take(v@.len() as int) =~= v@);
    out
}

/// The texts of `ms` joined by `sep`.
pub open spec fn joined(ms: Seq<Seq<char>>, sep: Seq<char>) -> Seq<char>
    decreases ms.len(),
{
    if ms.len() == 0 {
        Seq::empty()
    } else if ms.len() == 1 {
        ms[0]
    } else {
        joined(ms.drop_last(), sep) + sep + ms.last()
    }
}

/// The texts of `ms` joined by `sep`.
pub fn join_texts(ms: &Vec<String>, sep: &str) -> (r: String)
    ensures
        r@ == joined(texts(ms@), sep@),
{
    if ms.len() == 0 {
        return String::new();
    }
    let mut r = ms[0].clone();
    let mut i: usize = 1;
    assert(texts(ms@).take(1) =~= seq![ms@[0]@]);
    while i < ms.len()
        invariant
            1 <= i <= ms.len(),
            r@ == joined(texts(ms@).take(i as int), sep@),
        decreases ms.len() - i,
    {
        let a = concat_str(r.as_str(), sep);
        r = concat_str(a.as_str(), ms[i].as_str());
        assert(texts(ms@).take(i + 1).drop_last() =~= texts(ms@).take(i as int));
        i += 1;
    }
    assert(texts(ms@).take(ms@.len() as int) =~= texts(ms@));
    r
}

} // verus!
