//! The colour theme of the graphical front end, which scripts may
//! override key by key.
use crate::text::{chars_of, owned, str_equal, trim_text, trimmed, utf8_len, utf8_len_of};
use vstd::prelude::*;

verus! {

/// The settings a theme has.
#[derive(Debug, Clone, Copy, PartialEq, Eq, Structural, Hash)]
pub enum GuiThemeKey {
    AppBackground,
    AppForeground,
    FocusRing,
    ActiveLineBackground,
    CursorBackground,
    CursorForeground,
    MinibufferBorder,
    MinibufferPrompt,
    MinibufferInput,
    MinibufferInfo,
    MinibufferError,
    StatuslineBorder,
    StatuslineBackground,
    StatuslineForeground,
}

/// The name of a key in the kebab-case form scripts use.
pub open spec fn key_name(k: GuiThemeKey) -> Seq<char> {
    match k {
        GuiThemeKey::AppBackground => "app-background"@,
        GuiThemeKey::AppForeground => "app-foreground"@,
        GuiThemeKey::FocusRing => "focus-ring"@,
        GuiThemeKey::ActiveLineBackground => "active-line-background"@,
        GuiThemeKey::CursorBackground => "cursor-background"@,
        GuiThemeKey::CursorForeground => "cursor-foreground"@,
        GuiThemeKey::MinibufferBorder => "minibuffer-border"@,
        GuiThemeKey::MinibufferPrompt => "minibuffer-prompt"@,
        GuiThemeKey::MinibufferInput => "minibuffer-input"@,
        GuiThemeKey::MinibufferInfo => "minibuffer-info"@,
        GuiThemeKey::MinibufferError => "minibuffer-error"@,
        GuiThemeKey::StatuslineBorder => "statusline-border"@,
        GuiThemeKey::StatuslineBackground => "statusline-background"@,
        GuiThemeKey::StatuslineForeground => "statusline-foreground"@,
    }
}

/// Different keys have different names, so a name read back with
/// `from_str` gives the key whose `as_str` it was.
pub proof fn law_key_names_distinct(k1: GuiThemeKey, k2: GuiThemeKey)
    ensures
        key_name(k1) == key_name(k2) ==> k1 == k2,
{
    if key_name(k1) == key_name(k2) {
        reveal_strlit("app-background");
        reveal_strlit("app-foreground");
        reveal_strlit("focus-ring");
        reveal_strlit("active-line-background");
        reveal_strlit("cursor-background");
        reveal_strlit("cursor-foreground");
        reveal_strlit("minibuffer-border");
        reveal_strlit("minibuffer-prompt");
        reveal_strlit("minibuffer-input");
        reveal_strlit("minibuffer-info");
        reveal_strlit("minibuffer-error");
        reveal_strlit("statusline-border");
        reveal_strlit("statusline-background");
        reveal_strlit("statusline-foreground");
        assert(key_name(k1).len() == key_name(k2).len());
        assert(key_name(k1)[0] == key_name(k2)[0]);
        assert(key_name(k1)[4] == key_name(k2)[4]);
        assert(key_name(k1)[7] == key_name(k2)[7]);
        assert(key_name(k1)[11] == key_name(k2)[11]);
    }
}

impl GuiThemeKey {
    /// The key named `name`, if any.
    pub fn from_str(name: &str) -> (r: Option<Self>)
        ensures
            match r {
                Some(k) => key_name(k) == name@,
                None => forall|k: GuiThemeKey| key_name(k) != name@,
            },
    {
        if str_equal(name, "app-background") {
            Some(GuiThemeKey::AppBackground)
        } else if str_equal(name, "app-foreground") {
            Some(GuiThemeKey::AppForeground)
        } else if str_equal(name, "focus-ring") {
            Some(GuiThemeKey::FocusRing)
        } else if str_equal(name, "active-line-background") {
            Some(GuiThemeKey::ActiveLineBackground)
        } else if str_equal(name, "cursor-background") {
            Some(GuiThemeKey::CursorBackground)
        } else if str_equal(name, "cursor-foreground") {
            Some(GuiThemeKey::CursorForeground)
        } else if str_equal(name, "minibuffer-border") {
            Some(GuiThemeKey::MinibufferBorder)
        } else if str_equal(name, "minibuffer-prompt") {
            Some(GuiThemeKey::MinibufferPrompt)
        } else if str_equal(name, "minibuffer-input") {
            Some(GuiThemeKey::MinibufferInput)
        } else if str_equal(name, "minibuffer-info") {
            Some(GuiThemeKey::MinibufferInfo)
        } else if str_equal(name, "minibuffer-error") {
            Some(GuiThemeKey::MinibufferError)
        } else if str_equal(name, "statusline-border") {
            Some(GuiThemeKey::StatuslineBorder)
        } else if str_equal(name, "statusline-background") {
            Some(GuiThemeKey::StatuslineBackground)
        } else if str_equal(name, "statusline-foreground") {
            Some(GuiThemeKey::StatuslineForeground)
        } else {
            None
        }
    }

    /// The key's name.
    pub fn as_str(&self) -> (r: &'static str)
        ensures
            r@ == key_name(*self),
    {
        match self {
            GuiThemeKey::AppBackground => "app-background",
            GuiThemeKey::AppForeground => "app-foreground",
            GuiThemeKey::FocusRing => "focus-ring",
            GuiThemeKey::ActiveLineBackground => "active-line-background",
            GuiThemeKey::CursorBackground => "cursor-background",
            GuiThemeKey::CursorForeground => "cursor-foreground",
            GuiThemeKey::MinibufferBorder => "minibuffer-border",
            GuiThemeKey::MinibufferPrompt => "minibuffer-prompt",
            GuiThemeKey::MinibufferInput => "minibuffer-input",
            GuiThemeKey::MinibufferInfo => "minibuffer-info",
            GuiThemeKey::MinibufferError => "minibuffer-error",
            GuiThemeKey::StatuslineBorder => "statusline-border",
            GuiThemeKey::StatuslineBackground => "statusline-background",
            GuiThemeKey::StatuslineForeground => "statusline-foreground",
        }
    }
}

/// Colours of the graphical front end.
#[derive(Debug, Clone, PartialEq, Eq)]
pub struct GuiThemeConfig {
    pub app_background: String,
    pub app_foreground: String,
    pub focus_ring: String,
    pub active_line_background: String,
    pub cursor_background: String,
    pub cursor_foreground: String,
    pub minibuffer_border: String,
    pub minibuffer_prompt: String,
    pub minibuffer_input: String,
    pub minibuffer_info: String,
    pub minibuffer_error: String,
    pub statusline_border: String,
    pub statusline_background: String,
    pub statusline_foreground: String,
}

/// The colour a theme gives a key.
pub open spec fn theme_color(t: GuiThemeConfig, k: GuiThemeKey) -> Seq<char> {
    match k {
        GuiThemeKey::AppBackground => t.app_background@,
        GuiThemeKey::AppForeground => t.app_foreground@,
        GuiThemeKey::FocusRing => t.focus_ring@,
        GuiThemeKey::ActiveLineBackground => t.active_line_background@,
        GuiThemeKey::CursorBackground => t.cursor_background@,
        GuiThemeKey::CursorForeground => t.cursor_foreground@,
        GuiThemeKey::MinibufferBorder => t.minibuffer_border@,
        GuiThemeKey::MinibufferPrompt => t.minibuffer_prompt@,
        GuiThemeKey::MinibufferInput => t.minibuffer_input@,
        GuiThemeKey::MinibufferInfo => t.minibuffer_info@,
        GuiThemeKey::MinibufferError => t.minibuffer_error@,
        GuiThemeKey::StatuslineBorder => t.statusline_border@,
        GuiThemeKey::StatuslineBackground => t.statusline_background@,
        GuiThemeKey::StatuslineForeground => t.statusline_foreground@,
    }
}

/// The colour the default theme gives a key.
pub open spec fn default_color(k: GuiThemeKey) -> Seq<char> {
    match k {
        GuiThemeKey::AppBackground => "#1c1c1c"@,
        GuiThemeKey::AppForeground => "#f0f0f0"@,
        GuiThemeKey::FocusRing => "#4466ff33"@,
        GuiThemeKey::ActiveLineBackground => "#2a2a40"@,
        GuiThemeKey::CursorBackground => "#88aaff"@,
        GuiThemeKey::CursorForeground => "#111"@,
        GuiThemeKey::MinibufferBorder => "#2c2c2c"@,
        GuiThemeKey::MinibufferPrompt => "#9fa8ff"@,
        GuiThemeKey::MinibufferInput => "#ffffff"@,
        GuiThemeKey::MinibufferInfo => "#ffb86c"@,
        GuiThemeKey::MinibufferError => "#ff6b6b"@,
        GuiThemeKey::StatuslineBorder => "#2c2c2c"@,
        GuiThemeKey::StatuslineBackground => "#202025"@,
        GuiThemeKey::StatuslineForeground => "#d0d0d0"@,
    }
}

/// Whether every character is ASCII.
pub open spec fn all_ascii(s: Seq<char>) -> bool {
    forall|i: int| 0 <= i < s.len() ==> (s[i] as int) < 0x80
}

/// A colour value as the theme keeps it: trimmed, and refused when
/// empty, longer than 32 bytes or not ASCII.
pub open spec fn normalized_color(value: Seq<char>) -> Result<Seq<char>, Seq<char>> {
    let t = trimmed(value);
    if t.len() == 0 {
        Err("カラーコードが空です"@)
    } else if utf8_len(t) > 32 {
        Err("カラーコードが長すぎます (32 文字以内)"@)
    } else if !all_ascii(t) {
        Err("カラーコードにASCII以外の文字が含まれています"@)
    } else {
        Ok(t)
    }
}

impl GuiThemeConfig {
    /// The default theme.
    pub fn new() -> (r: Self)
        ensures
            forall|k: GuiThemeKey| #[trigger] theme_color(r, k) == default_color(k),
    {
        Self::default()
    }

    /// Sets the colour of `key` to `value` trimmed; an empty, overlong or
    /// non-ASCII value is refused with its message and changes nothing.
    pub fn set_color(&mut self, key: GuiThemeKey, value: &str) -> (r: Result<(), String>)
        ensures
            match normalized_color(value@) {
                Ok(c) => r is Ok && theme_color(*final(self), key) == c && forall|k: GuiThemeKey|
                    k != key ==> #[trigger] theme_color(*final(self), k) == theme_color(*old(self), k),
                Err(m) => r matches Err(e) && e@ == m && forall|k: GuiThemeKey|
                    #[trigger] theme_color(*final(self), k) == theme_color(*old(self), k),
            },
    {
        let normalized = match Self::normalize_color(value) {
            Ok(c) => c,
            Err(e) => return Err(e),
        };
        match key {
            GuiThemeKey::AppBackground => self.app_background = normalized,
            GuiThemeKey::AppForeground => self.app_foreground = normalized,
            GuiThemeKey::FocusRing => self.focus_ring = normalized,
            GuiThemeKey::ActiveLineBackground => self.active_line_background = normalized,
            GuiThemeKey::CursorBackground => self.cursor_background = normalized,
            GuiThemeKey::CursorForeground => self.cursor_foreground = normalized,
            GuiThemeKey::MinibufferBorder => self.minibuffer_border = normalized,
            GuiThemeKey::MinibufferPrompt => self.minibuffer_prompt = normalized,
            GuiThemeKey::MinibufferInput => self.minibuffer_input = normalized,
            GuiThemeKey::MinibufferInfo => self.minibuffer_info = normalized,
            GuiThemeKey::MinibufferError => self.minibuffer_error = normalized,
            GuiThemeKey::StatuslineBorder => self.statusline_border = normalized,
            GuiThemeKey::StatuslineBackground => self.statusline_background = normalized,
            GuiThemeKey::StatuslineForeground => self.statusline_foreground = normalized,
        }
        Ok(())
    }

    /// The colour of `key`.
    pub fn color(&self, key: GuiThemeKey) -> (r: &str)
        ensures
            r@ == theme_color(*self, key),
    {
        match key {
            GuiThemeKey::AppBackground => self.app_background.as_str(),
            GuiThemeKey::AppForeground => self.app_foreground.as_str(),
            GuiThemeKey::FocusRing => self.focus_ring.as_str(),
            GuiThemeKey::ActiveLineBackground => self.active_line_background.as_str(),
            GuiThemeKey::CursorBackground => self.cursor_background.as_str(),
            GuiThemeKey::CursorForeground => self.cursor_foreground.as_str(),
            GuiThemeKey::MinibufferBorder => self.minibuffer_border.as_str(),
            GuiThemeKey::MinibufferPrompt => self.minibuffer_prompt.as_str(),
            GuiThemeKey::MinibufferInput => self.minibuffer_input.as_str(),
            GuiThemeKey::MinibufferInfo => self.minibuffer_info.as_str(),
            GuiThemeKey::MinibufferError => self.minibuffer_error.as_str(),
            GuiThemeKey::StatuslineBorder => self.statusline_border.as_str(),
            GuiThemeKey::StatuslineBackground => self.statusline_background.as_str(),
            GuiThemeKey::StatuslineForeground => self.statusline_foreground.as_str(),
        }
    }

    fn normalize_color(value: &str) -> (r: Result<String, String>)
        ensures
            match normalized_color(value@) {
                Ok(c) => r matches Ok(s) && s@ == c,
                Err(m) => r matches Err(e) && e@ == m,
            },
    {
        let t = trim_text(value);
        let v = chars_of(t.as_str());
        if v.len() == 0 {
            return Err(owned("カラーコードが空です"));
        }
        let too_long = match utf8_len_of(&v) {
            Some(n) => n > 32,
            None => true,
        };
        if too_long {
            return Err(owned("カラーコードが長すぎます (32 文字以内)"));
        }
        let mut i: usize = 0;
        while i < v.len()
            invariant
                i <= v.len(),
                v@ == t@,
                t@ == trimmed(value@),
                v@.len() > 0,
                utf8_len(v@) <= 32,
                forall|j: int| 0 <= j < i ==> (v@[j] as int) < 0x80,
            decreases v.len() - i,
        {
            if v[i] >= '\u{80}' {
                return Err(owned("カラーコードにASCII以外の文字が含まれています"));
            }
            i += 1;
        }
        Ok(t)
    }
}

impl Default for GuiThemeConfig {
    fn default() -> (r: Self)
        ensures
            forall|k: GuiThemeKey| #[trigger] theme_color(r, k) == default_color(k),
    {
        GuiThemeConfig {
            app_background: owned("#1c1c1c"),
            app_foreground: owned("#f0f0f0"),
            focus_ring: owned("#4466ff33"),
            active_line_background: owned("#2a2a40"),
            cursor_background: owned("#88aaff"),
            cursor_foreground: owned("#111"),
            minibuffer_border: owned("#2c2c2c"),
            minibuffer_prompt: owned("#9fa8ff"),
            minibuffer_input: owned("#ffffff"),
            minibuffer_info: owned("#ffb86c"),
            minibuffer_error: owned("#ff6b6b"),
            statusline_border: owned("#2c2c2c"),
            statusline_background: owned("#202025"),
            statusline_foreground: owned("#d0d0d0"),
        }
    }
}

} // verus!
