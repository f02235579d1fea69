//! Input history of one editing session, most recent entry first.
use crate::collate::texts;
use crate::text::str_equal;
use vstd::prelude::*;

verus! {

/// How many entries the history keeps.
pub const HISTORY_LIMIT: usize = 100;

/// The history after `entry` was added to `h`: empty entries and a
/// repeat of the most recent entry leave it as it was; otherwise the entry
/// comes first and only the newest `HISTORY_LIMIT` entries stay.
pub open spec fn history_added(h: Seq<Seq<char>>, entry: Seq<char>) -> Seq<Seq<char>> {
    if entry.len() == 0 || (h.len() > 0 && h[0] == entry) {
        h
    } else if h.len() < HISTORY_LIMIT {
        seq![entry] + h
    } else {
        (seq![entry] + h).take(HISTORY_LIMIT as int)
    }
}

/// Adding an entry never shortens a history within the limit.
pub proof fn lemma_history_added_len(h: Seq<Seq<char>>, entry: Seq<char>)
    requires
        h.len() <= HISTORY_LIMIT,
    ensures
        history_added(h, entry).len() >= h.len(),
        history_added(h, entry).len() <= HISTORY_LIMIT,
{
}

/// The entries entered in this session.
#[derive(Debug, Clone)]
pub struct SessionHistory {
    entries: Vec<String>,
}

impl View for SessionHistory {
    type V = Seq<Seq<char>>;

    closed spec fn view(&self) -> Seq<Seq<char>> {
        texts(self.entries@)
    }
}

impl SessionHistory {
    /// Well-formed: no more than `HISTORY_LIMIT` entries.
    pub open spec fn wf(&self) -> bool {
        self@.len() <= HISTORY_LIMIT
    }

    /// An empty history.
    pub fn new() -> (r: Self)
        ensures
            r.wf(),
            r@ == Seq::<Seq<char>>::empty(),
    {
        let r = SessionHistory { entries: Vec::new() };
        assert(r@ =~= Seq::<Seq<char>>::empty());
        r
    }

    /// Number of entries.
    pub fn len(&self) -> (r: usize)
        ensures
            r == self@.len(),
    {
        self.entries.len()
    }

    /// Whether there are no entries.
    pub fn is_empty(&self) -> (r: bool)
        ensures
            r == (self@.len() == 0),
    {
        self.entries.len() == 0
    }

    /// The entry `index` steps back from the most recent one.
    pub fn get_entry(&self, index: usize) -> (r: Option<&String>)
        ensures
            index < self@.len() ==> r.is_some() && r.unwrap()@ == self@[index as int],
            index >= self@.len() ==> r.is_none(),
    {
        if index < self.entries.len() {
            Some(&self.entries[index])
        } else {
            None
        }
    }

    /// Records an entry as the most recent one (see `history_added`).
    pub fn add_entry(&mut self, entry: String)
        requires
            old(self).wf(),
        ensures
            final(self).wf(),
            final(self)@ == history_added(old(self)@, entry@),
    {
        if entry.as_str().is_empty() {
            return;
        }
        if self.entries.len() > 0 && str_equal(self.entries[0].as_str(), entry.as_str()) {
            return;
        }
        let ghost old_entries = self.entries@;
        let ghost e = entry@;
        self.entries.insert(0, entry);
        assert(texts(self.entries@) =~= seq![e] + texts(old_entries));
        if self.entries.len() > HISTORY_LIMIT {
            self.entries.truncate(HISTORY_LIMIT);
            assert(texts(self.entries@) =~= (seq![e] + texts(old_entries)).take(HISTORY_LIMIT as int));
        }
    }
}

impl Default for SessionHistory {
    fn default() -> (r: Self)
        ensures
            r.wf(),
            r@ == Seq::<Seq<char>>::empty(),
    {
        Self::new()
    }
}

} // verus!
