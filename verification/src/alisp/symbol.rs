//! Interned symbols: each distinct name gets one id, in order of first
//! appearance.
use crate::collate::texts;
use crate::text::{chars_equal, chars_of, owned};
use vstd::prelude::*;

verus! {

/// The id of an interned symbol.
#[derive(Debug, Clone, Copy, PartialEq, Eq, Structural, Hash)]
pub struct SymbolId(pub(crate) usize);

impl SymbolId {
    /// The position of the symbol in its table.
    pub closed spec fn number(self) -> usize {
        self.0
    }

    /// The position of the symbol in its table.
    pub fn index(self) -> (r: usize)
        ensures
            r == self.number(),
    {
        self.0
    }
}

/// No name occurs twice in the table.
pub open spec fn distinct_names(t: Seq<Seq<char>>) -> bool {
    forall|i: int, j: int| 0 <= i < j < t.len() ==> t[i] != t[j]
}

/// The first position of `s` in `t`, or `t.len()` when it is absent.
pub open spec fn position(t: Seq<Seq<char>>, s: Seq<char>) -> nat
    decreases t.len(),
{
    if t.len() == 0 {
        0
    } else if t[0] == s {
        0
    } else {
        1 + position(t.drop_first(), s)
    }
}

/// The table after interning `s`, and the id it gets: its position when
/// present, otherwise it is appended.
pub open spec fn interned(t: Seq<Seq<char>>, s: Seq<char>) -> (Seq<Seq<char>>, nat) {
    let p = position(t, s);
    if p < t.len() {
        (t, p)
    } else {
        (t.push(s), t.len())
    }
}

pub proof fn lemma_position(t: Seq<Seq<char>>, s: Seq<char>)
    ensures
        position(t, s) <= t.len(),
        position(t, s) < t.len() ==> t[position(t, s) as int] == s,
        position(t, s) == t.len() ==> !t.contains(s),
        forall|k: int| 0 <= k < position(t, s) ==> t[k] != s,
    decreases t.len(),
{
    if t.len() > 0 && t[0] != s {
        lemma_position(t.drop_first(), s);
        assert forall|k: int| 0 <= k < position(t, s) implies t[k] != s by {
            if k > 0 {
                assert(t[k] == t.drop_first()[k - 1]);
            }
        }
        if position(t, s) == t.len() {
            assert forall|k: int| 0 <= k < t.len() implies t[k] != s by {
                if k > 0 {
                    assert(t[k] == t.drop_first()[k - 1]);
                }
            }
        }
    }
}

/// Resolving the id that interning gives yields the interned name.
pub proof fn law_interned_resolves(t: Seq<Seq<char>>, s: Seq<char>)
    ensures
        interned(t, s).1 < interned(t, s).0.len(),
        interned(t, s).0[interned(t, s).1 as int] == s,
{
    lemma_position(t, s);
}

/// Interning a name again changes nothing and gives the same id.
pub proof fn law_intern_idempotent(t: Seq<Seq<char>>, s: Seq<char>)
    requires
        distinct_names(t),
    ensures
        interned(interned(t, s).0, s) == interned(t, s),
{
    lemma_position(t, s);
    let (t2, i) = interned(t, s);
    lemma_position(t2, s);
    if position(t, s) == t.len() {
        assert(t2[t.len() as int] == s);
        assert forall|k: int| 0 <= k < t.len() implies t2[k] != s by {
            assert(t2[k] == t[k]);
            assert(!t.contains(s));
            if t[k] == s {
                assert(t.contains(s));
            }
        }
    }
}

/// Interning keeps names distinct and earlier ids valid.
pub proof fn law_intern_keeps_table(t: Seq<Seq<char>>, s: Seq<char>)
    requires
        distinct_names(t),
    ensures
        distinct_names(interned(t, s).0),
        interned(t, s).0.len() >= t.len(),
        forall|k: int| 0 <= k < t.len() ==> interned(t, s).0[k] == t[k],
{
    lemma_position(t, s);
    if position(t, s) == t.len() {
        let t2 = t.push(s);
        assert forall|i: int, j: int| 0 <= i < j < t2.len() implies t2[i] != t2[j] by {
            if j == t.len() {
                assert(t2[i] == t[i]);
                if t[i] == s {
                    assert(t.contains(s));
                }
            }
        }
    }
}

/// Symbol names and their ids.
#[derive(Debug)]
pub struct SymbolInterner {
    symbols: Vec<String>,
}

impl View for SymbolInterner {
    type V = Seq<Seq<char>>;

    closed spec fn view(&self) -> Seq<Seq<char>> {
        texts(self.symbols@)
    }
}

impl SymbolInterner {
    /// Well-formed: no name occurs twice.
    pub open spec fn wf(&self) -> bool {
        distinct_names(self@)
    }

    /// An empty table.
    pub fn new() -> (r: Self)
        ensures
            r.wf(),
            r@ == Seq::<Seq<char>>::empty(),
    {
        let r = SymbolInterner { symbols: Vec::new() };
        assert(r@ =~= Seq::<Seq<char>>::empty());
        r
    }

    /// The id of `symbol`, added to the table when new.
    pub fn intern(&mut self, symbol: &str) -> (r: SymbolId)
        requires
            old(self).wf(),
        ensures
            final(self).wf(),
            (final(self)@, r.number() as nat) == interned(old(self)@, symbol@),
    {
        proof {
            lemma_position(self@, symbol@);
            law_intern_keeps_table(self@, symbol@);
        }
        let s = chars_of(symbol);
        let mut i: usize = 0;
        while i < self.symbols.len()
            invariant
                i <= self.symbols.len(),
                s@ == symbol@,
                distinct_names(self@),
                forall|k: int| 0 <= k < i ==> self@[k] != symbol@,
            decreases self.symbols.len() - i,
        {
            let e = chars_of(self.symbols[i].as_str());
            assert(self@[i as int] == self.symbols@[i as int]@);
            if chars_equal(&e, &s) {
                proof {
                    lemma_position(self@, symbol@);
                    if position(self@, symbol@) < i {
                        assert(self@[position(self@, symbol@) as int] == symbol@);
                    }
                    if position(self@, symbol@) > i {
                        assert(self@[i as int] == symbol@);
                    }
                }
                return SymbolId(i);
            }
            i += 1;
        }
        let id = SymbolId(self.symbols.len());
        let ghost before = self.symbols@;
        self.symbols.push(owned(symbol));
        assert(texts(self.symbols@) =~= texts(before).push(symbol@));
        id
    }

    /// The name of `id`, when it is in the table.
    pub fn resolve(&self, id: SymbolId) -> (r: Option<&str>)
        ensures
            id.number() < self@.len() ==> (r matches Some(s) && s@ == self@[id.number() as int]),
            id.number() >= self@.len() ==> r is None,
    {
        if id.0 < self.symbols.len() {
            Some(self.symbols[id.0].as_str())
        } else {
            None
        }
    }
}

impl Default for SymbolInterner {
    fn default() -> (r: Self)
        ensures
            r.wf(),
            r@ == Seq::<Seq<char>>::empty(),
    {
        Self::new()
    }
}

} // verus!
