//! Key presses as the graphical front end sends them: a key name with
//! modifier flags, and sequences of such presses.
use crate::app::keys::{TermKey, TermKeyCode};
use crate::error::AltreError;
use crate::text::{
    ascii_lower_seq, chars_of, concat_str, str_equal, string_from_chars, to_ascii_lower, trim_text, trimmed,
};
use vstd::prelude::*;

verus! {

/// One key press: the key's name and the modifiers held.
#[derive(Debug, Clone, PartialEq)]
pub struct KeyStrokePayload {
    pub key: String,
    pub ctrl: bool,
    pub alt: bool,
    pub shift: bool,
}

/// Key presses in the order they came, in chunks.
#[derive(Debug, Clone, PartialEq)]
pub struct KeySequencePayload {
    pub sequence: Vec<Vec<KeyStrokePayload>>,
}

/// A key name the editor does not know.
#[derive(Debug)]
pub enum KeyConversionError {
    UnsupportedKey(String),
}

impl KeyConversionError {
    /// The message shown for the error.
    pub fn message(&self) -> (r: String)
        ensures
            match self {
                KeyConversionError::UnsupportedKey(k) => r@ == "未対応のキーです: "@ + k@,
            },
    {
        match self {
            KeyConversionError::UnsupportedKey(k) => concat_str("未対応のキーです: ", k.as_str()),
        }
    }
}

/// The key a name stands for: a single ASCII character is itself, a few
/// names (in any case) are special keys; the trimmed name is kept for an
/// unknown one.
pub open spec fn key_code_of(raw: Seq<char>) -> Result<TermKeyCode, Seq<char>> {
    let key = trimmed(raw);
    let lower = ascii_lower_seq(key);
    if key.len() == 1 && (key[0] as u32) < 0x80 {
        Ok(TermKeyCode::Char(key[0]))
    } else if lower == "enter"@ {
        Ok(TermKeyCode::Enter)
    } else if lower == "backspace"@ {
        Ok(TermKeyCode::Backspace)
    } else if lower == "delete"@ {
        Ok(TermKeyCode::Delete)
    } else if lower == "tab"@ {
        Ok(TermKeyCode::Tab)
    } else if lower == "escape"@ || lower == "esc"@ {
        Ok(TermKeyCode::Esc)
    } else if lower == "up"@ {
        Ok(TermKeyCode::Up)
    } else if lower == "down"@ {
        Ok(TermKeyCode::Down)
    } else if lower == "left"@ {
        Ok(TermKeyCode::Left)
    } else if lower == "right"@ {
        Ok(TermKeyCode::Right)
    } else {
        Err(key)
    }
}

/// The key press a payload stands for, when its key is known.
pub open spec fn stroke_key(s: KeyStrokePayload) -> Option<TermKey> {
    match key_code_of(s.key@) {
        Ok(code) => Some(TermKey { code, ctrl: s.ctrl, alt: s.alt, shift: s.shift }),
        Err(_) => None,
    }
}

fn lowercase_ascii(v: &Vec<char>) -> (r: Vec<char>)
    ensures
        r@ == ascii_lower_seq(v@),
{
    let mut out: Vec<char> = Vec::new();
    let mut i: usize = 0;
    while i < v.len()
        invariant
            i <= v.len(),
            out@ == ascii_lower_seq(v@.take(i as int)),
        decreases v.len() - i,
    {
        out.push(to_ascii_lower(v[i]));
        assert(ascii_lower_seq(v@.take(i + 1)) =~= ascii_lower_seq(v@.take(i as int)).push(
            crate::text::ascii_lower(v@[i as int]),
        ));
        i += 1;
    }
    assert(v@.take(v@.len() as int) =~= v@);
    out
}

fn parse_key_code(raw: &str) -> (r: Result<TermKeyCode, KeyConversionError>)
    ensures
        match key_code_of(raw@) {
            Ok(c) => r == Ok::<TermKeyCode, KeyConversionError>(c),
            Err(k) => r matches Err(KeyConversionError::UnsupportedKey(x)) && x@ == k,
        },
{
    let key = trim_text(raw);
    let v = chars_of(key.as_str());
    if v.len() == 1 && (v[0] as u32) < 0x80 {
        return Ok(TermKeyCode::Char(v[0]));
    }
    let lower = string_from_chars(&lowercase_ascii(&v));
    let s = lower.as_str();
    proof {
        reveal_strlit("enter");
        reveal_strlit("backspace");
        reveal_strlit("delete");
        reveal_strlit("tab");
        reveal_strlit("escape");
        reveal_strlit("esc");
        reveal_strlit("up");
        reveal_strlit("down");
        reveal_strlit("left");
        reveal_strlit("right");
    }
    if str_equal(s, "enter") {
        Ok(TermKeyCode::Enter)
    } else if str_equal(s, "backspace") {
        Ok(TermKeyCode::Backspace)
    } else if str_equal(s, "delete") {
        Ok(TermKeyCode::Delete)
    } else if str_equal(s, "tab") {
        Ok(TermKeyCode::Tab)
    } else if str_equal(s, "escape") || str_equal(s, "esc") {
        Ok(TermKeyCode::Esc)
    } else if str_equal(s, "up") {
        Ok(TermKeyCode::Up)
    } else if str_equal(s, "down") {
        Ok(TermKeyCode::Down)
    } else if str_equal(s, "left") {
        Ok(TermKeyCode::Left)
    } else if str_equal(s, "right") {
        Ok(TermKeyCode::Right)
    } else {
        Err(KeyConversionError::UnsupportedKey(key))
    }
}

impl KeyStrokePayload {
    /// The key press, or the error for an unknown key name.
    pub fn to_key_event(self) -> (r: Result<TermKey, KeyConversionError>)
        ensures
            match stroke_key(self) {
                Some(k) => r == Ok::<TermKey, KeyConversionError>(k),
                None => r matches Err(KeyConversionError::UnsupportedKey(x)) && Err::<TermKeyCode, Seq<char>>(x@)
                    == key_code_of(self.key@),
            },
    {
        match parse_key_code(self.key.as_str()) {
            Ok(code) => Ok(TermKey { code, ctrl: self.ctrl, alt: self.alt, shift: self.shift }),
            Err(e) => Err(e),
        }
    }
}

/// The presses of a sequence, chunk after chunk.
pub open spec fn flattened(s: Seq<Vec<KeyStrokePayload>>) -> Seq<KeyStrokePayload>
    decreases s.len(),
{
    if s.len() == 0 {
        Seq::empty()
    } else {
        flattened(s.drop_last()) + s.last()@
    }
}

/// Whether every press of `s` has a known key.
pub open spec fn all_known(s: Seq<KeyStrokePayload>) -> bool {
    forall|k: int| 0 <= k < s.len() ==> (#[trigger] stroke_key(s[k])) is Some
}

impl KeySequencePayload {
    /// A sequence with each press in a chunk of its own.
    pub fn from_strokes(strokes: Vec<KeyStrokePayload>) -> (r: Self)
        ensures
            r.sequence@.len() == strokes@.len(),
            forall|i: int| 0 <= i < strokes@.len() ==> (#[trigger] r.sequence@[i])@ == seq![strokes@[i]],
    {
        let mut sequence: Vec<Vec<KeyStrokePayload>> = Vec::new();
        let mut rest = strokes;
        let ghost all = rest@;
        while rest.len() > 0
            invariant
                sequence@.len() + rest@.len() == all.len(),
                rest@ == all.skip(sequence@.len() as int),
                forall|i: int| 0 <= i < sequence@.len() ==> (#[trigger] sequence@[i])@ == seq![all[i]],
            decreases rest@.len(),
        {
            let stroke = rest.remove(0);
            let ghost n: int = sequence@.len() as int;
            sequence.push(vec![stroke]);
            assert(rest@ =~= all.skip(n + 1 as int));
        }
        Self { sequence }
    }

    /// A sequence of the given chunks.
    pub fn from_sequence(sequence: Vec<Vec<KeyStrokePayload>>) -> (r: Self)
        ensures
            r.sequence@ == sequence@,
    {
        Self { sequence }
    }

    /// The key presses of the sequence in order; a press with an unknown
    /// key name makes the whole sequence an error.
    pub fn into_key_events(self) -> (r: Result<Vec<TermKey>, AltreError>)
        ensures
            r is Ok <==> all_known(flattened(self.sequence@)),
            r matches Ok(v) ==> v@.len() == flattened(self.sequence@).len() && forall|k: int|
                0 <= k < v@.len() ==> Some(#[trigger] v@[k]) == stroke_key(flattened(self.sequence@)[k]),
            r matches Err(e) ==> exists|k: int|
                #![trigger flattened(self.sequence@)[k]]
                0 <= k < flattened(self.sequence@).len() && stroke_key(flattened(self.sequence@)[k]) is None
                    && unknown_key_error(e, flattened(self.sequence@)[k]),
    {
        let ghost chunks = self.sequence@;
        let mut rest = self.sequence;
        let mut events: Vec<TermKey> = Vec::new();
        let ghost mut done: int = 0;
        while rest.len() > 0
            invariant
                chunks == self.sequence@,
                0 <= done <= chunks.len(),
                rest@ == chunks.skip(done),
                events@.len() == flattened(chunks.take(done)).len(),
                all_known(flattened(chunks.take(done))),
                forall|k: int|
                    0 <= k < events@.len() ==> Some(#[trigger] events@[k]) == stroke_key(flattened(chunks.take(done))[k]),
            decreases rest@.len(),
        {
            let mut chunk = rest.remove(0);
            let ghost before = flattened(chunks.take(done));
            let ghost whole = chunk@;
            proof {
                assert(chunks.skip(done)[0] == chunks[done]);
                assert(chunks.take(done + 1).drop_last() =~= chunks.take(done));
                assert(chunks.take(done + 1).last() == chunks[done]);
                assert(whole == chunks[done]@);
                assert(flattened(chunks.take(done + 1)) == before + whole);
            }
            let ghost mut used: int = 0;
            while chunk.len() > 0
                invariant
                    chunks == self.sequence@,
                    0 <= used <= whole.len(),
                    0 <= done < chunks.len(),
                    flattened(chunks.take(done + 1)) == before + whole,
                    chunk@ == whole.skip(used),
                    events@.len() == before.len() + used,
                    all_known(before + whole.take(used)),
                    forall|k: int|
                        0 <= k < events@.len() ==> Some(#[trigger] events@[k]) == stroke_key((before + whole.take(used))[k]),
                decreases chunk@.len(),
            {
                let stroke = chunk.remove(0);
                proof {
                    assert(stroke == whole[used]);
                }
                match stroke.to_key_event() {
                    Ok(event) => {
                        proof {
                            assert((before + whole.take(used + 1)) =~= (before + whole.take(used)).push(whole[used]));
                        }
                        events.push(event);
                        proof {
                            used = used + 1;
                            assert(chunk@ =~= whole.skip(used));
                        }
                    },
                    Err(err) => {
                        let m = err.message();
                        proof {
                            lemma_flattened_prefix(chunks, done + 1);
                            let k = before.len() + used;
                            assert(flattened(chunks.take(done + 1)) == before + whole);
                            assert(flattened(chunks)[k] == whole[used]);
                            assert(stroke_key(flattened(chunks)[k]) is None);
                            assert(!all_known(flattened(chunks)));
                        }
                        let e = AltreError::Application(concat_str("キー入力の変換に失敗しました: ", m.as_str()));
                        proof {
                            let k = before.len() + used;
                            assert(unknown_key_error(e, flattened(chunks)[k]));
                            assert(exists|k: int|
                                #![trigger flattened(chunks)[k]]
                                0 <= k < flattened(chunks).len() && stroke_key(flattened(chunks)[k]) is None
                                    && unknown_key_error(e, flattened(chunks)[k]));
                        }
                        return Err(e);
                    },
                }
            }
            proof {
                assert(whole.take(used) =~= whole);
                assert(flattened(chunks.take(done + 1)) == before + whole);
                done = done + 1;
                assert(rest@ =~= chunks.skip(done));
            }
        }
        proof {
            assert(chunks.take(done) =~= chunks);
            assert(all_known(flattened(chunks)));
        }
        Ok(events)
    }
}

/// `e` reports the unknown key of `s`.
pub open spec fn unknown_key_error(e: AltreError, s: KeyStrokePayload) -> bool {
    match e {
        AltreError::Application(m) => m@ == "キー入力の変換に失敗しました: "@ + ("未対応のキーです: "@ + key_code_of(s.key@)->Err_0),
        _ => false,
    }
}

proof fn lemma_flattened_prefix(s: Seq<Vec<KeyStrokePayload>>, n: int)
    requires
        0 <= n <= s.len(),
    ensures
        flattened(s.take(n)).len() <= flattened(s).len(),
        forall|k: int| 0 <= k < flattened(s.take(n)).len() ==> #[trigger] flattened(s)[k] == flattened(s.take(n))[k],
    decreases s.len(),
{
    if n == s.len() {
        assert(s.take(n) =~= s);
    } else {
        lemma_flattened_prefix(s.drop_last(), n);
        assert(s.drop_last().take(n) =~= s.take(n));
    }
}

/// The name of a key in a key log: a character is itself, a function key
/// `F` and its number, a few keys by name, the rest `Unknown`.
pub open spec fn key_log_name(code: TermKeyCode) -> Seq<char> {
    match code {
        TermKeyCode::Char(c) => seq![c],
        TermKeyCode::Enter => "Enter"@,
        TermKeyCode::Backspace => "Backspace"@,
        TermKeyCode::Delete => "Delete"@,
        TermKeyCode::Tab => "Tab"@,
        TermKeyCode::Esc => "Esc"@,
        TermKeyCode::Up => "Up"@,
        TermKeyCode::Down => "Down"@,
        TermKeyCode::Left => "Left"@,
        TermKeyCode::Right => "Right"@,
        TermKeyCode::F(n) => "F"@ + crate::text::decimal(n as nat),
        _ => "Unknown"@,
    }
}

/// A key press in a key log: `C-`, `M-` and `S-` for the modifiers held,
/// then the key's name.
pub open spec fn key_log_text(k: TermKey) -> Seq<char> {
    (if k.ctrl { "C-"@ } else { Seq::empty() }) + (if k.alt { "M-"@ } else { Seq::empty() }) + (if k.shift {
        "S-"@
    } else {
        Seq::empty()
    }) + key_log_name(k.code)
}

fn key_name_text(code: TermKeyCode) -> (r: String)
    ensures
        r@ == key_log_name(code),
{
    match code {
        TermKeyCode::Char(c) => crate::text::string_of_char(c),
        TermKeyCode::Enter => crate::text::owned("Enter"),
        TermKeyCode::Backspace => crate::text::owned("Backspace"),
        TermKeyCode::Delete => crate::text::owned("Delete"),
        TermKeyCode::Tab => crate::text::owned("Tab"),
        TermKeyCode::Esc => crate::text::owned("Esc"),
        TermKeyCode::Up => crate::text::owned("Up"),
        TermKeyCode::Down => crate::text::owned("Down"),
        TermKeyCode::Left => crate::text::owned("Left"),
        TermKeyCode::Right => crate::text::owned("Right"),
        TermKeyCode::F(n) => {
            let digits = crate::text::usize_to_string(n as usize);
            concat_str("F", digits.as_str())
        },
        _ => crate::text::owned("Unknown"),
    }
}

/// How a key press is written in the key log (see `key_log_text`).
pub fn describe_key_event(key: &TermKey) -> (r: String)
    ensures
        r@ == key_log_text(*key),
{
    let mut out = String::new();
    proof {
        reveal_strlit("");
    }
    if key.ctrl {
        out = concat_str(out.as_str(), "C-");
    }
    if key.alt {
        out = concat_str(out.as_str(), "M-");
    }
    if key.shift {
        out = concat_str(out.as_str(), "S-");
    }
    let name = key_name_text(key.code);
    let r = concat_str(out.as_str(), name.as_str());
    proof {
        let e = Seq::<char>::empty();
        assert(e + e =~= e);
        assert(e + "C-"@ =~= "C-"@);
        assert(e + "M-"@ =~= "M-"@);
        assert(e + "S-"@ =~= "S-"@);
        assert(e + key_log_name(key.code) =~= key_log_name(key.code));
    }
    r
}

} // verus!
