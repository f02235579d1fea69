//! Emacs-style kill ring: the most recent kill first, bounded in size.
use std::collections::VecDeque;
use vstd::prelude::*;

verus! {

broadcast use vstd::std_specs::vecdeque::group_vec_dequeue_axioms;

/// Default number of entries kept.
pub const DEFAULT_CAPACITY: usize = 32;

/// The kill ring.
#[derive(Debug, Default)]
pub struct KillRing {
    entries: VecDeque<String>,
    capacity: usize,
}

/// The texts of a sequence of strings.
pub open spec fn texts(v: Seq<String>) -> Seq<Seq<char>> {
    v.map_values(|s: String| s@)
}

impl View for KillRing {
    type V = Seq<Seq<char>>;

    /// The entries, most recent first.
    closed spec fn view(&self) -> Seq<Seq<char>> {
        texts(self.entries@)
    }
}

impl KillRing {
    /// The number of entries the ring keeps.
    pub closed spec fn cap(&self) -> nat {
        self.capacity as nat
    }

    /// An empty ring keeping 32 entries.
    pub fn new() -> (r: Self)
        ensures
            r@ == Seq::<Seq<char>>::empty(),
            r.cap() == DEFAULT_CAPACITY,
    {
        Self { entries: VecDeque::with_capacity(DEFAULT_CAPACITY), capacity: DEFAULT_CAPACITY }
    }

    /// An empty ring keeping `capacity` entries.
    pub fn with_capacity(capacity: usize) -> (r: Self)
        ensures
            r@ == Seq::<Seq<char>>::empty(),
            r.cap() == capacity,
    {
        Self { entries: VecDeque::with_capacity(capacity), capacity }
    }

    /// Adds a kill in front; an empty text is ignored. When the ring is at
    /// its capacity the oldest entry is dropped first.
    pub fn push(&mut self, text: String)
        ensures
            final(self).cap() == old(self).cap(),
            text@.len() == 0 ==> final(self)@ == old(self)@,
            text@.len() > 0 && old(self)@.len() == old(self).cap() && old(self)@.len() > 0 ==> final(self)@ == seq![text@] + old(self)@.drop_last(),
            text@.len() > 0 && (old(self)@.len() != old(self).cap() || old(self)@.len() == 0) ==> final(self)@ == seq![text@] + old(self)@,
    {
        if text.as_str().is_empty() {
            return;
        }
        let ghost before = self.entries@;
        if self.entries.len() == self.capacity {
            self.entries.pop_back();
        }
        let ghost mid = self.entries@;
        self.entries.push_front(text);
        proof {
            assert(texts(self.entries@) =~= seq![text@] + texts(mid));
            if before.len() == self.capacity && before.len() > 0 {
                assert(texts(mid) =~= texts(before).drop_last());
            }
        }
    }

    /// Appends `text` to the most recent entry (or makes it one).
    pub fn append_to_front(&mut self, text: &str)
        ensures
            final(self).cap() == old(self).cap(),
            text@.len() == 0 ==> final(self)@ == old(self)@,
            text@.len() > 0 && old(self)@.len() > 0 ==> final(self)@ == old(self)@.update(
                0,
                old(self)@[0] + text@,
            ),
            text@.len() > 0 && old(self)@.len() == 0 ==> final(self)@ == seq![text@],
    {
        if text.is_empty() {
            return;
        }
        let ghost before = self.entries@;
        match self.entries.pop_front() {
            Some(mut front) => {
                front.append(text);
                self.entries.push_front(front);
                assert(texts(self.entries@) =~= texts(before).update(0, before[0]@ + text@));
            },
            None => {
                self.entries.push_front(text.to_owned());
                assert(texts(self.entries@) =~= seq![text@]);
            },
        }
    }

    /// Puts `text` before the most recent entry (or makes it one).
    pub fn prepend_to_front(&mut self, text: &str)
        ensures
            final(self).cap() == old(self).cap(),
            text@.len() == 0 ==> final(self)@ == old(self)@,
            text@.len() > 0 && old(self)@.len() > 0 ==> final(self)@ == old(self)@.update(
                0,
                text@ + old(self)@[0],
            ),
            text@.len() > 0 && old(self)@.len() == 0 ==> final(self)@ == seq![text@],
    {
        if text.is_empty() {
            return;
        }
        let ghost before = self.entries@;
        match self.entries.pop_front() {
            Some(front) => {
                let mut new_text = text.to_owned();
                new_text.append(front.as_str());
                self.entries.push_front(new_text);
                assert(texts(self.entries@) =~= texts(before).update(0, text@ + before[0]@));
            },
            None => {
                self.entries.push_front(text.to_owned());
                assert(texts(self.entries@) =~= seq![text@]);
            },
        }
    }

    /// The most recent entry.
    pub fn front(&self) -> (r: Option<&String>)
        ensures
            self@.len() == 0 ==> r is None,
            self@.len() > 0 ==> (r matches Some(s) && s@ == self@[0]),
    {
        if self.entries.len() > 0 {
            Some(&self.entries[0])
        } else {
            None
        }
    }

    /// A copy of the most recent entry, for yanking.
    pub fn yank(&self) -> (r: Option<String>)
        ensures
            self@.len() == 0 ==> r is None,
            self@.len() > 0 ==> (r matches Some(s) && s@ == self@[0]),
    {
        if self.entries.len() > 0 {
            Some(self.entries[0].clone())
        } else {
            None
        }
    }

    /// Moves the most recent entry to the back and returns the new most
    /// recent entry.
    pub fn rotate(&mut self) -> (r: Option<String>)
        ensures
            final(self).cap() == old(self).cap(),
            final(self)@ == rotated(old(self)@),
            final(self)@.len() == 0 ==> r is None,
            final(self)@.len() > 0 ==> (r matches Some(s) && s@ == final(self)@[0]),
    {
        if self.entries.len() <= 1 {
            return self.yank();
        }
        let ghost before = self.entries@;
        match self.entries.pop_front() {
            Some(front) => {
                self.entries.push_back(front);
            },
            None => {},
        }
        assert(texts(self.entries@) =~= rotated(texts(before)));
        self.yank()
    }

    /// Removes every entry.
    pub fn clear(&mut self)
        ensures
            final(self)@ == Seq::<Seq<char>>::empty(),
            final(self).cap() == old(self).cap(),
    {
        self.entries.clear();
        assert(texts(self.entries@) =~= Seq::<Seq<char>>::empty());
    }

    /// Number of entries.
    pub fn len(&self) -> (r: usize)
        ensures
            r == self@.len(),
    {
        self.entries.len()
    }

    /// Whether the ring is empty.
    pub fn is_empty(&self) -> (r: bool)
        ensures
            r == (self@.len() == 0),
    {
        self.entries.len() == 0
    }
}

/// The entries after one rotation: the front goes to the back.
pub open spec fn rotated(s: Seq<Seq<char>>) -> Seq<Seq<char>> {
    if s.len() <= 1 {
        s
    } else {
        s.drop_first().push(s[0])
    }
}

/// Rotating a ring as many times as it has entries gives it back.
pub open spec fn rotated_n(s: Seq<Seq<char>>, n: nat) -> Seq<Seq<char>>
    decreases n,
{
    if n == 0 {
        s
    } else {
        rotated(rotated_n(s, (n - 1) as nat))
    }
}

proof fn lemma_rotated_n_shape(s: Seq<Seq<char>>, n: nat)
    requires
        n <= s.len(),
        s.len() > 1,
    ensures
        rotated_n(s, n) =~= s.skip(n as int) + s.take(n as int),
    decreases n,
{
    if n > 0 {
        lemma_rotated_n_shape(s, (n - 1) as nat);
        let p = s.skip(n - 1) + s.take(n - 1);
        assert(p[0] == s[n - 1]);
        assert(p.drop_first().push(p[0]) =~= s.skip(n as int) + s.take(n as int));
    } else {
        assert(s.skip(0) + s.take(0) =~= s);
    }
}

/// Law: rotating the ring once per entry brings it back to where it was.
pub proof fn law_rotation_cycles(s: Seq<Seq<char>>)
    ensures
        rotated_n(s, s.len()) == s,
{
    if s.len() > 1 {
        lemma_rotated_n_shape(s, s.len());
        assert(s.skip(s.len() as int) + s.take(s.len() as int) =~= s);
    } else {
        lemma_rotated_small(s, s.len());
    }
}

proof fn lemma_rotated_small(s: Seq<Seq<char>>, n: nat)
    requires
        s.len() <= 1,
    ensures
        rotated_n(s, n) == s,
    decreases n,
{
    if n > 0 {
        lemma_rotated_small(s, (n - 1) as nat);
    }
}

} // verus!
