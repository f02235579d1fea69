//! Key presses as the terminal reports them, how they map to editor keys
//! and how they are described to the user.
use crate::input::keybinding::{Key, KeyCode, KeyModifiers};
use crate::text::{char_is_uppercase, concat_str, decimal, owned, spec_is_uppercase, string_of_char, usize_to_string};
use vstd::prelude::*;

verus! {

/// A key as the terminal reports it.
#[derive(Debug, Clone, Copy, PartialEq, Eq, Structural)]
pub enum TermKeyCode {
    Char(char),
    F(u8),
    Enter,
    Left,
    Right,
    Up,
    Down,
    Home,
    End,
    PageUp,
    PageDown,
    Tab,
    BackTab,
    Delete,
    Insert,
    Esc,
    Backspace,
    CapsLock,
    ScrollLock,
    NumLock,
    PrintScreen,
    Pause,
    Menu,
    KeypadBegin,
    /// A key the editor does not tell apart.
    Other,
}

/// A key press as the terminal reports it.
#[derive(Debug, Clone, Copy, PartialEq, Eq, Structural)]
pub struct TermKey {
    pub code: TermKeyCode,
    pub ctrl: bool,
    pub alt: bool,
    pub shift: bool,
}

/// The editor key for a terminal key: the modifiers kept, the codes the
/// editor knows kept, every other code unknown.
pub open spec fn editor_key(k: TermKey) -> Key {
    Key {
        modifiers: KeyModifiers { ctrl: k.ctrl, alt: k.alt, shift: k.shift },
        code: match k.code {
            TermKeyCode::Char(c) => KeyCode::Char(c),
            TermKeyCode::Enter => KeyCode::Enter,
            TermKeyCode::Backspace => KeyCode::Backspace,
            TermKeyCode::Delete => KeyCode::Delete,
            TermKeyCode::Tab => KeyCode::Tab,
            TermKeyCode::Up => KeyCode::Up,
            TermKeyCode::Down => KeyCode::Down,
            TermKeyCode::Left => KeyCode::Left,
            TermKeyCode::Right => KeyCode::Right,
            TermKeyCode::F(n) => KeyCode::F(n),
            TermKeyCode::Esc => KeyCode::Esc,
            _ => KeyCode::Unknown,
        },
    }
}

/// The lower-case form of `c` as `char::to_lowercase` gives it.
pub uninterp spec fn char_lowercase(c: char) -> Seq<char>;

/// `char::to_lowercase`, collected.
#[verifier::external_body]
fn lowercase_char(c: char) -> (r: String)
    ensures
        r@ == char_lowercase(c),
{
    c.to_lowercase().collect()
}

/// Whether `c` is an ASCII control character.
pub open spec fn ascii_control(c: char) -> bool {
    (c as int) < 0x20 || (c as int) == 0x7f
}

/// The name of a key code in key descriptions.
pub open spec fn code_name(code: TermKeyCode, shift: bool) -> Seq<char> {
    match code {
        TermKeyCode::Char(c) => if ascii_control(c) {
            "C-"@ + seq![((c as int) + 0x40) as char]
        } else if spec_is_uppercase(c) && shift {
            "S-"@ + char_lowercase(c)
        } else {
            seq![c]
        },
        TermKeyCode::F(n) => "F"@ + decimal(n as nat),
        TermKeyCode::Enter => "RET"@,
        TermKeyCode::Left => "左"@,
        TermKeyCode::Right => "右"@,
        TermKeyCode::Up => "上"@,
        TermKeyCode::Down => "下"@,
        TermKeyCode::Home => "Home"@,
        TermKeyCode::End => "End"@,
        TermKeyCode::PageUp => "PageUp"@,
        TermKeyCode::PageDown => "PageDown"@,
        TermKeyCode::Tab => "TAB"@,
        TermKeyCode::BackTab => "S-TAB"@,
        TermKeyCode::Delete => "DEL"@,
        TermKeyCode::Insert => "INS"@,
        TermKeyCode::Esc => "ESC"@,
        TermKeyCode::Backspace => "BS"@,
        TermKeyCode::CapsLock => "CapsLock"@,
        TermKeyCode::ScrollLock => "ScrollLock"@,
        TermKeyCode::NumLock => "NumLock"@,
        TermKeyCode::PrintScreen => "PrintScreen"@,
        TermKeyCode::Pause => "Pause"@,
        TermKeyCode::Menu => "Menu"@,
        TermKeyCode::KeypadBegin => "Keypad-Begin"@,
        TermKeyCode::Other => "未知のキー"@,
    }
}

/// How a key press is shown: `C` and `M` for Control and Meta, then the
/// key's name, joined by `-`.
pub open spec fn key_description(k: TermKey) -> Seq<char> {
    let name = code_name(k.code, k.shift);
    if k.ctrl && k.alt {
        "C-M-"@ + name
    } else if k.ctrl {
        "C-"@ + name
    } else if k.alt {
        "M-"@ + name
    } else {
        name
    }
}

impl TermKey {
    /// The editor key for this press.
    pub fn to_key(&self) -> (r: Key)
        ensures
            r == editor_key(*self),
    {
        let code = match self.code {
            TermKeyCode::Char(c) => KeyCode::Char(c),
            TermKeyCode::Enter => KeyCode::Enter,
            TermKeyCode::Backspace => KeyCode::Backspace,
            TermKeyCode::Delete => KeyCode::Delete,
            TermKeyCode::Tab => KeyCode::Tab,
            TermKeyCode::Up => KeyCode::Up,
            TermKeyCode::Down => KeyCode::Down,
            TermKeyCode::Left => KeyCode::Left,
            TermKeyCode::Right => KeyCode::Right,
            TermKeyCode::F(n) => KeyCode::F(n),
            TermKeyCode::Esc => KeyCode::Esc,
            _ => KeyCode::Unknown,
        };
        Key { modifiers: KeyModifiers { ctrl: self.ctrl, alt: self.alt, shift: self.shift }, code }
    }
}

fn code_text(code: TermKeyCode, shift: bool) -> (r: String)
    ensures
        r@ == code_name(code, shift),
{
    match code {
        TermKeyCode::Char(c) => {
            let u = c as u32;
            if u < 0x20 || u == 0x7f {
                let shown = ((u as u8) + 0x40) as char;
                concat_str("C-", string_of_char(shown).as_str())
            } else if char_is_uppercase(c) && shift {
                concat_str("S-", lowercase_char(c).as_str())
            } else {
                string_of_char(c)
            }
        },
        TermKeyCode::F(n) => concat_str("F", usize_to_string(n as usize).as_str()),
        TermKeyCode::Enter => owned("RET"),
        TermKeyCode::Left => owned("左"),
        TermKeyCode::Right => owned("右"),
        TermKeyCode::Up => owned("上"),
        TermKeyCode::Down => owned("下"),
        TermKeyCode::Home => owned("Home"),
        TermKeyCode::End => owned("End"),
        TermKeyCode::PageUp => owned("PageUp"),
        TermKeyCode::PageDown => owned("PageDown"),
        TermKeyCode::Tab => owned("TAB"),
        TermKeyCode::BackTab => owned("S-TAB"),
        TermKeyCode::Delete => owned("DEL"),
        TermKeyCode::Insert => owned("INS"),
        TermKeyCode::Esc => owned("ESC"),
        TermKeyCode::Backspace => owned("BS"),
        TermKeyCode::CapsLock => owned("CapsLock"),
        TermKeyCode::ScrollLock => owned("ScrollLock"),
        TermKeyCode::NumLock => owned("NumLock"),
        TermKeyCode::PrintScreen => owned("PrintScreen"),
        TermKeyCode::Pause => owned("Pause"),
        TermKeyCode::Menu => owned("Menu"),
        TermKeyCode::KeypadBegin => owned("Keypad-Begin"),
        TermKeyCode::Other => owned("未知のキー"),
    }
}

/// How a key press is shown to the user (see `key_description`).
pub fn format_key_event(key: &TermKey) -> (r: String)
    ensures
        r@ == key_description(*key),
{
    let name = code_text(key.code, key.shift);
    if key.ctrl && key.alt {
        concat_str("C-M-", name.as_str())
    } else if key.ctrl {
        concat_str("C-", name.as_str())
    } else if key.alt {
        concat_str("M-", name.as_str())
    } else {
        name
    }
}

} // verus!
