//! The key map that binds key sequences to command names, with prefix keys
//! that wait for the rest of a sequence.
use crate::input::commands::command_named;
use crate::input::keybinding::{
    action_command, ctrl_key, default_cx_bindings, default_single_bindings, key_step, Direction, KeyBinding, KeyCode,
    KeyModifiers, KeyProcessResult, PartialMatchState,
};
use crate::text::owned;
use vstd::prelude::*;

verus! {

/// A key with the modifiers held, as the command-name key map stores it.
#[derive(Debug, Clone, Copy, PartialEq, Eq, Structural, Hash)]
pub struct KeyCombination {
    pub code: KeyCode,
    pub modifiers: KeyModifiers,
}

/// No modifier held.
pub open spec fn no_modifiers() -> KeyModifiers {
    KeyModifiers { ctrl: false, alt: false, shift: false }
}

/// `code` with Control held.
pub open spec fn ctrl_combo(code: KeyCode) -> KeyCombination {
    KeyCombination { code, modifiers: KeyModifiers { ctrl: true, alt: false, shift: false } }
}

/// `code` with no modifier.
pub open spec fn plain_combo(code: KeyCode) -> KeyCombination {
    KeyCombination { code, modifiers: no_modifiers() }
}

impl KeyCombination {
    /// `code` with `modifiers`.
    pub fn new(code: KeyCode, modifiers: KeyModifiers) -> (r: Self)
        ensures
            r.code == code,
            r.modifiers == modifiers,
    {
        Self { code, modifiers }
    }

    /// `code` with Control held.
    pub fn ctrl(code: KeyCode) -> (r: Self)
        ensures
            r == ctrl_combo(code),
    {
        Self::new(code, KeyModifiers { ctrl: true, alt: false, shift: false })
    }

    /// `code` with Alt held.
    pub fn alt(code: KeyCode) -> (r: Self)
        ensures
            r == (KeyCombination { code, modifiers: KeyModifiers { ctrl: false, alt: true, shift: false } }),
    {
        Self::new(code, KeyModifiers { ctrl: false, alt: true, shift: false })
    }

    /// `code` with no modifier.
    pub fn plain(code: KeyCode) -> (r: Self)
        ensures
            r == plain_combo(code),
    {
        Self::new(code, KeyModifiers { ctrl: false, alt: false, shift: false })
    }
}

/// A sequence of keys.
#[derive(Debug, Clone)]
pub struct LegacyKeySequence {
    keys: Vec<KeyCombination>,
}

impl View for LegacyKeySequence {
    type V = Seq<KeyCombination>;

    closed spec fn view(&self) -> Seq<KeyCombination> {
        self.keys@
    }
}

/// `p` is `s` or its start.
pub open spec fn is_prefix(p: Seq<KeyCombination>, s: Seq<KeyCombination>) -> bool {
    p.len() <= s.len() && s.take(p.len() as int) == p
}

impl LegacyKeySequence {
    /// The sequence of `keys`.
    pub fn new(keys: Vec<KeyCombination>) -> (r: Self)
        ensures
            r@ == keys@,
    {
        Self { keys }
    }

    /// The sequence of one key.
    pub fn single(key: KeyCombination) -> (r: Self)
        ensures
            r@ == seq![key],
    {
        let r = Self::new(vec![key]);
        assert(r@ =~= seq![key]);
        r
    }

    /// Whether the sequence holds a key.
    pub fn is_complete(&self) -> (r: bool)
        ensures
            r == (self@.len() > 0),
    {
        self.keys.len() > 0
    }

    /// The number of keys.
    pub fn len(&self) -> (r: usize)
        ensures
            r == self@.len(),
    {
        self.keys.len()
    }

    /// Whether the sequence holds no key.
    pub fn is_empty(&self) -> (r: bool)
        ensures
            r == (self@.len() == 0),
    {
        self.keys.len() == 0
    }

    /// Appends a key.
    pub fn push(&mut self, key: KeyCombination)
        ensures
            final(self)@ == old(self)@.push(key),
    {
        self.keys.push(key);
    }

    /// Whether `prefix` is this sequence or its start.
    pub fn starts_with(&self, prefix: &LegacyKeySequence) -> (r: bool)
        ensures
            r == is_prefix(prefix@, self@),
    {
        if prefix.keys.len() > self.keys.len() {
            return false;
        }
        let n = prefix.keys.len();
        let mut i: usize = 0;
        while i < n
            invariant
                n == prefix@.len(),
                n <= self@.len(),
                i <= n,
                forall|j: int| 0 <= j < i ==> self@[j] == prefix@[j],
            decreases n - i,
        {
            if self.keys[i] != prefix.keys[i] {
                assert(self@.take(n as int)[i as int] != prefix@[i as int]);
                return false;
            }
            i += 1;
        }
        assert(self@.take(n as int) =~= prefix@);
        true
    }

    /// Whether both sequences hold the same keys.
    pub fn same_keys(&self, other: &LegacyKeySequence) -> (r: bool)
        ensures
            r == (self@ == other@),
    {
        if self.keys.len() != other.keys.len() {
            return false;
        }
        let r = self.starts_with(other);
        assert(self@.take(other@.len() as int) =~= self@);
        r
    }
}

/// The command name a binding gives, or none for a prefix key.
pub open spec fn bound(b: KeyBinding) -> Option<Seq<char>> {
    match b {
        KeyBinding::Command(name) => Some(name@),
        KeyBinding::Prefix => None,
    }
}

/// The binding of `k` in `t`, from its first pair with that sequence: a
/// command name, or none for a prefix key.
pub open spec fn find(t: Seq<(Seq<KeyCombination>, Option<Seq<char>>)>, k: Seq<KeyCombination>) -> Option<
    Option<Seq<char>>,
>
    decreases t.len(),
{
    if t.len() == 0 {
        None
    } else if t[0].0 == k {
        Some(t[0].1)
    } else {
        find(t.drop_first(), k)
    }
}

/// Some bound sequence starts with `k`.
pub open spec fn extended(t: Seq<(Seq<KeyCombination>, Option<Seq<char>>)>, k: Seq<KeyCombination>) -> bool {
    exists|i: int| 0 <= i < t.len() && is_prefix(k, #[trigger] t[i].0)
}

/// What a key gives.
#[derive(Debug, Clone)]
pub enum KeyLookupResult {
    Command(String),
    Prefix,
    Unbound,
}

/// The answer `r` and the next pending sequence `next` when the pending
/// keys with the new key are `cur`: a bound command is given and the
/// sequence starts over; a prefix key, or a start of some bound sequence,
/// waits for more; anything else is unbound and starts over.
pub open spec fn looked_up(
    t: Seq<(Seq<KeyCombination>, Option<Seq<char>>)>,
    cur: Seq<KeyCombination>,
    r: KeyLookupResult,
    next: Seq<KeyCombination>,
) -> bool {
    match find(t, cur) {
        Some(Some(name)) => (r matches KeyLookupResult::Command(c) && c@ == name) && next == Seq::<
            KeyCombination,
        >::empty(),
        Some(None) => r is Prefix && next == cur,
        None => if extended(t, cur) {
            r is Prefix && next == cur
        } else {
            r is Unbound && next == Seq::<KeyCombination>::empty()
        },
    }
}

/// The default bindings: `C-f`, `C-b`, `C-n`, `C-p`, Backspace and `C-d`,
/// the prefix `C-x`, and `C-x C-f`, `C-x C-s`, `C-x C-c`.
pub open spec fn default_command_table() -> Seq<(Seq<KeyCombination>, Option<Seq<char>>)> {
    seq![
        (seq![ctrl_combo(KeyCode::Char('f'))], Some("forward-char"@)),
        (seq![ctrl_combo(KeyCode::Char('b'))], Some("backward-char"@)),
        (seq![ctrl_combo(KeyCode::Char('n'))], Some("next-line"@)),
        (seq![ctrl_combo(KeyCode::Char('p'))], Some("previous-line"@)),
        (seq![plain_combo(KeyCode::Backspace)], Some("delete-backward-char"@)),
        (seq![ctrl_combo(KeyCode::Char('d'))], Some("delete-char"@)),
        (seq![ctrl_combo(KeyCode::Char('x'))], None),
        (seq![ctrl_combo(KeyCode::Char('x')), ctrl_combo(KeyCode::Char('f'))], Some("find-file"@)),
        (seq![ctrl_combo(KeyCode::Char('x')), ctrl_combo(KeyCode::Char('s'))], Some("save-buffer"@)),
        (seq![ctrl_combo(KeyCode::Char('x')), ctrl_combo(KeyCode::Char('c'))], Some("save-buffers-kill-terminal"@)),
    ]
}

/// Key sequences bound to command names, and the keys typed so far.
#[derive(Debug)]
pub struct KeyMap {
    global_bindings: Vec<(LegacyKeySequence, KeyBinding)>,
    current_sequence: LegacyKeySequence,
}

impl KeyMap {
    /// The bindings in order: each sequence with its command name, or none
    /// for a prefix key.
    pub closed spec fn table(&self) -> Seq<(Seq<KeyCombination>, Option<Seq<char>>)> {
        self.global_bindings@.map_values(|p: (LegacyKeySequence, KeyBinding)| (p.0@, bound(p.1)))
    }

    /// The keys typed so far.
    pub closed spec fn current(&self) -> Seq<KeyCombination> {
        self.current_sequence@
    }

    /// The default bindings, no key typed.
    pub fn new() -> (r: Self)
        ensures
            r.table() == default_command_table(),
            r.current() == Seq::<KeyCombination>::empty(),
    {
        let mut keymap = Self { global_bindings: Vec::new(), current_sequence: LegacyKeySequence::new(Vec::new()) };
        keymap.initialize_default_bindings();
        keymap
    }

    fn initialize_default_bindings(&mut self)
        requires
            old(self).global_bindings@.len() == 0,
        ensures
            final(self).table() == default_command_table(),
            final(self).current() == old(self).current(),
    {
        let cx = KeyCombination::ctrl(KeyCode::Char('x'));
        let b = &mut self.global_bindings;
        b.push((LegacyKeySequence::single(KeyCombination::ctrl(KeyCode::Char('f'))), KeyBinding::Command(owned("forward-char"))));
        b.push((LegacyKeySequence::single(KeyCombination::ctrl(KeyCode::Char('b'))), KeyBinding::Command(owned("backward-char"))));
        b.push((LegacyKeySequence::single(KeyCombination::ctrl(KeyCode::Char('n'))), KeyBinding::Command(owned("next-line"))));
        b.push((LegacyKeySequence::single(KeyCombination::ctrl(KeyCode::Char('p'))), KeyBinding::Command(owned("previous-line"))));
        b.push((LegacyKeySequence::single(KeyCombination::plain(KeyCode::Backspace)), KeyBinding::Command(owned("delete-backward-char"))));
        b.push((LegacyKeySequence::single(KeyCombination::ctrl(KeyCode::Char('d'))), KeyBinding::Command(owned("delete-char"))));
        b.push((LegacyKeySequence::single(cx), KeyBinding::Prefix));
        b.push((LegacyKeySequence::new(vec![cx, KeyCombination::ctrl(KeyCode::Char('f'))]), KeyBinding::Command(owned("find-file"))));
        b.push((LegacyKeySequence::new(vec![cx, KeyCombination::ctrl(KeyCode::Char('s'))]), KeyBinding::Command(owned("save-buffer"))));
        b.push((LegacyKeySequence::new(vec![cx, KeyCombination::ctrl(KeyCode::Char('c'))]), KeyBinding::Command(owned("save-buffers-kill-terminal"))));
        assert(self.table() =~= default_command_table());
    }

    /// Binds `sequence` to `binding`, in place of an earlier binding of the
    /// same sequence.
    pub fn bind_global(&mut self, sequence: LegacyKeySequence, binding: KeyBinding)
        ensures
            final(self).current() == old(self).current(),
            forall|q: Seq<KeyCombination>|
                #![trigger find(final(self).table(), q)]
                find(final(self).table(), q) == if q == sequence@ {
                    Some(bound(binding))
                } else {
                    find(old(self).table(), q)
                },
            (exists|i: int|
                0 <= i < old(self).table().len() && old(self).table()[i].0 == sequence@ && final(self).table()
                    == old(self).table().update(i, (sequence@, bound(binding)))) || (forall|j: int|
                0 <= j < old(self).table().len() ==> old(self).table()[j].0 != sequence@) && final(self).table()
                == old(self).table().push((sequence@, bound(binding))),
    {
        let ghost t0 = self.table();
        let ghost k = sequence@;
        let ghost v = bound(binding);
        match self.position_of(&sequence) {
            Some(i) => {
                self.global_bindings.set(i, (sequence, binding));
                assert(self.table() =~= t0.update(i as int, (k, v)));
                proof {
                    assert forall|q: Seq<KeyCombination>| #[trigger]
                        find(self.table(), q) == if q == k {
                            Some(v)
                        } else {
                            find(t0, q)
                        } by {
                        lemma_find_replaced(t0, i as int, k, v, q);
                    }
                }
            },
            None => {
                self.global_bindings.push((sequence, binding));
                assert(self.table() =~= t0.push((k, v)));
                proof {
                    assert forall|q: Seq<KeyCombination>| #[trigger]
                        find(self.table(), q) == if q == k {
                            Some(v)
                        } else {
                            find(t0, q)
                        } by {
                        lemma_find_appended(t0, k, v, q);
                    }
                }
            },
        }
    }

    /// The position of the first binding of `k`.
    fn position_of(&self, k: &LegacyKeySequence) -> (r: Option<usize>)
        ensures
            match r {
                Some(i) => i < self.table().len() && self.table()[i as int].0 == k@ && forall|j: int|
                    0 <= j < i ==> self.table()[j].0 != k@,
                None => forall|j: int| 0 <= j < self.table().len() ==> self.table()[j].0 != k@,
            },
    {
        let mut i: usize = 0;
        while i < self.global_bindings.len()
            invariant
                i <= self.table().len(),
                self.table().len() == self.global_bindings@.len(),
                forall|j: int| 0 <= j < i ==> self.table()[j].0 != k@,
            decreases self.global_bindings@.len() - i,
        {
            if self.global_bindings[i].0.same_keys(k) {
                return Some(i);
            }
            i += 1;
        }
        None
    }

    /// Whether some bound sequence starts with `k`.
    fn extends(&self, k: &LegacyKeySequence) -> (r: bool)
        ensures
            r == extended(self.table(), k@),
    {
        let mut i: usize = 0;
        while i < self.global_bindings.len()
            invariant
                i <= self.table().len(),
                self.table().len() == self.global_bindings@.len(),
                forall|j: int| 0 <= j < i ==> !is_prefix(k@, #[trigger] self.table()[j].0),
            decreases self.global_bindings@.len() - i,
        {
            if self.global_bindings[i].0.starts_with(k) {
                assert(is_prefix(k@, self.table()[i as int].0));
                return true;
            }
            i += 1;
        }
        false
    }

    /// Takes a key: the keys typed so far with this one give a bound
    /// command (and start over), wait for more (a prefix key, or the start
    /// of a bound sequence), or are unbound (and start over).
    pub fn process_key(&mut self, key: KeyCombination) -> (r: KeyLookupResult)
        ensures
            final(self).table() == old(self).table(),
            looked_up(old(self).table(), old(self).current().push(key), r, final(self).current()),
    {
        self.current_sequence.push(key);
        let ghost t = self.table();
        let ghost cur = self.current();
        match self.position_of(&self.current_sequence) {
            Some(i) => {
                proof {
                    lemma_find_at(t, cur, i as int);
                }
                match &self.global_bindings[i].1 {
                    KeyBinding::Command(cmd) => {
                        let result = KeyLookupResult::Command(cmd.clone());
                        self.current_sequence = LegacyKeySequence::new(Vec::new());
                        return result;
                    },
                    KeyBinding::Prefix => {
                        return KeyLookupResult::Prefix;
                    },
                }
            },
            None => {
                proof {
                    lemma_find_at(t, cur, t.len() as int);
                }
            },
        }
        if self.extends(&self.current_sequence) {
            KeyLookupResult::Prefix
        } else {
            self.current_sequence = LegacyKeySequence::new(Vec::new());
            KeyLookupResult::Unbound
        }
    }

    /// Drops the keys typed so far.
    pub fn reset_sequence(&mut self)
        ensures
            final(self).table() == old(self).table(),
            final(self).current() == Seq::<KeyCombination>::empty(),
    {
        self.current_sequence = LegacyKeySequence::new(Vec::new());
    }

    /// The keys typed so far.
    pub fn current_sequence(&self) -> (r: &LegacyKeySequence)
        ensures
            r@ == self.current(),
    {
        &self.current_sequence
    }
}

impl Default for KeyMap {
    fn default() -> (r: Self)
        ensures
            r.table() == default_command_table(),
            r.current() == Seq::<KeyCombination>::empty(),
    {
        Self::new()
    }
}

/// The first pair for `k` is at `i` (or there is none, `i` being the
/// length): its binding is the one found.
proof fn lemma_find_at(t: Seq<(Seq<KeyCombination>, Option<Seq<char>>)>, k: Seq<KeyCombination>, i: int)
    requires
        0 <= i <= t.len(),
        forall|j: int| 0 <= j < i ==> t[j].0 != k,
        i < t.len() ==> t[i].0 == k,
    ensures
        find(t, k) == if i < t.len() {
            Some(t[i].1)
        } else {
            None
        },
    decreases i,
{
    if i > 0 {
        assert(t[0].0 != k);
        lemma_find_at(t.drop_first(), k, i - 1);
    }
}

/// Replacing the first pair for `k` changes what `k` finds, and nothing else.
proof fn lemma_find_replaced(
    t: Seq<(Seq<KeyCombination>, Option<Seq<char>>)>,
    i: int,
    k: Seq<KeyCombination>,
    v: Option<Seq<char>>,
    q: Seq<KeyCombination>,
)
    requires
        0 <= i < t.len(),
        t[i].0 == k,
        forall|j: int| 0 <= j < i ==> t[j].0 != k,
    ensures
        find(t.update(i, (k, v)), q) == if q == k {
            Some(v)
        } else {
            find(t, q)
        },
    decreases i,
{
    let u = t.update(i, (k, v));
    if i == 0 {
        assert(u.drop_first() =~= t.drop_first());
    } else {
        assert(t[0].0 != k);
        assert(u.drop_first() =~= t.drop_first().update(i - 1, (k, v)));
        lemma_find_replaced(t.drop_first(), i - 1, k, v, q);
    }
}

/// Appending a pair for a sequence not yet bound changes what that
/// sequence finds, and nothing else.
proof fn lemma_find_appended(
    t: Seq<(Seq<KeyCombination>, Option<Seq<char>>)>,
    k: Seq<KeyCombination>,
    v: Option<Seq<char>>,
    q: Seq<KeyCombination>,
)
    requires
        forall|j: int| 0 <= j < t.len() ==> t[j].0 != k,
    ensures
        find(t.push((k, v)), q) == if q == k {
            Some(v)
        } else {
            find(t, q)
        },
    decreases t.len(),
{
    let u = t.push((k, v));
    if t.len() > 0 {
        assert(t[0].0 != k);
        assert(u[0] == t[0]);
        assert(u.drop_first() =~= t.drop_first().push((k, v)));
        lemma_find_appended(t.drop_first(), k, v, q);
        if q != t[0].0 {
            assert(find(u, q) == find(u.drop_first(), q));
            assert(find(t, q) == find(t.drop_first(), q));
        }
    } else {
        assert(u[0] == (k, v));
        assert(u.drop_first() =~= Seq::<(Seq<KeyCombination>, Option<Seq<char>>)>::empty());
        if q != k {
            assert(find(u, q) == find(u.drop_first(), q));
            assert(find(u.drop_first(), q) is None);
        }
    }
}

/// The two key maps agree on the motion keys: for each direction, the
/// command the command-name key map binds to that direction's Emacs control
/// key is the command for the action the action key map gives that key.
pub proof fn law_key_maps_agree(d: Direction)
    ensures
        ({
            let letter = match d {
                Direction::Right => 'f',
                Direction::Left => 'b',
                Direction::Down => 'n',
                Direction::Up => 'p',
            };
            let step = key_step(
                default_single_bindings(),
                default_cx_bindings(),
                PartialMatchState::NoPrefix,
                ctrl_key(letter),
            );
            &&& find(default_command_table(), seq![ctrl_combo(KeyCode::Char(letter))]) matches Some(Some(name))
            &&& step.0 matches KeyProcessResult::Action(a)
            &&& command_named(name) == Some(action_command(a))
        }),
{
    reveal_strlit("forward-char");
    reveal_strlit("backward-char");
    reveal_strlit("next-line");
    reveal_strlit("previous-line");
    reveal_with_fuel(find, 5);
    reveal_with_fuel(crate::input::keybinding::lookup, 5);
    let t = default_command_table();
    let kf = ctrl_combo(KeyCode::Char('f'));
    let kb = ctrl_combo(KeyCode::Char('b'));
    let kn = ctrl_combo(KeyCode::Char('n'));
    let kp = ctrl_combo(KeyCode::Char('p'));
    assert(t[0].0 =~= seq![kf]);
    assert(t[1].0 =~= seq![kb]);
    assert(t[2].0 =~= seq![kn]);
    assert(t[3].0 =~= seq![kp]);
    assert(seq![kf][0] == kf && seq![kb][0] == kb && seq![kn][0] == kn && seq![kp][0] == kp);
    assert("forward-char"@[0] == 'f' && "backward-char"@[0] == 'b' && "next-line"@[0] == 'n' && "previous-line"@[0]
        == 'p');
    assert("forward-char"@ != "backward-char"@);
    assert("next-line"@ != "forward-char"@ && "next-line"@ != "backward-char"@);
    assert("previous-line"@ != "forward-char"@ && "previous-line"@ != "backward-char"@ && "previous-line"@
        != "next-line"@);
    assert(t.drop_first()[0] == t[1]);
    assert(t.drop_first().drop_first()[0] == t[2]);
    assert(t.drop_first().drop_first().drop_first()[0] == t[3]);
}

} // verus!
