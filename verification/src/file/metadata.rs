//! Line endings, byte order marks, decoding and change tracking.
use crate::buffer::editor::normalize_newlines;
use crate::error::{AltreError, FileError, Result};
use crate::text::{
    chars_of, concat_str, contains_char, contains_chars, contains_seq, push_char, string_from_range,
};
use std::path::PathBuf;
use std::time::SystemTime;
use vstd::prelude::*;
use vstd::utf8::{decode_utf8, encode_scalar, encode_utf8, valid_utf8};

verus! {

/// What is known of a file on disk.
#[derive(Debug, Clone)]
pub struct FileInfo {
    pub path: PathBuf,
    pub exists: bool,
    pub is_file: bool,
    pub is_symlink: bool,
    pub is_readable: bool,
    pub is_writable: bool,
    pub size: u64,
    pub modified: SystemTime,
}

/// The hash of a text, as `DefaultHasher` (created with `new`, so the same
/// text always gives the same hash) computes it after hashing the `str`.
pub uninterp spec fn text_hash(s: Seq<char>) -> u64;

/// `str::hash` into a new `DefaultHasher`, then `finish`.
#[verifier::external_body]
fn calculate_hash(content: &str) -> (r: u64)
    ensures
        r == text_hash(content@),
{
    let mut hasher = std::collections::hash_map::DefaultHasher::new();
    std::hash::Hash::hash(content, &mut hasher);
    std::hash::Hasher::finish(&hasher)
}

/// Tracks whether a text differs from its saved version, by hash.
#[derive(Debug, Clone)]
pub struct FileChangeTracker {
    original_content: String,
    original_hash: u64,
    last_saved: SystemTime,
}

impl FileChangeTracker {
    /// The saved text.
    pub closed spec fn saved(&self) -> Seq<char> {
        self.original_content@
    }

    /// The hash matches the saved text.
    pub closed spec fn wf(&self) -> bool {
        self.original_hash == text_hash(self.original_content@)
    }

    /// A tracker whose saved text is `content`.
    pub fn new(content: &str) -> (r: Self)
        ensures
            r.wf(),
            r.saved() == content@,
    {
        Self {
            original_content: crate::text::owned(content),
            original_hash: calculate_hash(content),
            last_saved: crate::time::system_time_now(),
        }
    }

    /// Whether `current_content` hashes differently from the saved text.
    pub fn is_modified(&self, current_content: &str) -> (r: bool)
        requires
            self.wf(),
        ensures
            r == (text_hash(current_content@) != text_hash(self.saved())),
            current_content@ == self.saved() ==> !r,
    {
        calculate_hash(current_content) != self.original_hash
    }

    /// Records `content` as saved now.
    pub fn mark_saved(&mut self, content: &str)
        ensures
            final(self).wf(),
            final(self).saved() == content@,
    {
        self.original_content = crate::text::owned(content);
        self.original_hash = calculate_hash(content);
        self.last_saved = crate::time::system_time_now();
    }

    /// The clock reading taken when the text was last saved.
    pub closed spec fn saved_at(&self) -> SystemTime {
        self.last_saved
    }

    /// When the text was last saved (a clock reading).
    pub fn last_saved_time(&self) -> (r: SystemTime)
        ensures
            r == self.saved_at(),
    {
        self.last_saved
    }

    /// The saved text.
    pub fn original_content(&self) -> (r: &str)
        ensures
            r@ == self.saved(),
    {
        self.original_content.as_str()
    }
}

/// The line endings a text uses.
#[derive(Debug, Clone, Copy, PartialEq, Eq, Structural)]
pub enum LineEndingStyle {
    Lf,
    Crlf,
    Cr,
    Mixed,
    NoEnding,
}

/// The line-ending style of `s`: CRLF anywhere wins; otherwise LF only, CR
/// only, both, or neither.
pub open spec fn line_ending_style(s: Seq<char>) -> LineEndingStyle {
    let has_crlf = contains_seq(s, seq!['\r', '\n']);
    let has_lf = s.contains('\n');
    let has_cr = s.contains('\r');
    if has_crlf {
        LineEndingStyle::Crlf
    } else if has_lf && !has_cr {
        LineEndingStyle::Lf
    } else if !has_lf && has_cr {
        LineEndingStyle::Cr
    } else if has_lf && has_cr {
        LineEndingStyle::Mixed
    } else {
        LineEndingStyle::NoEnding
    }
}

/// Converts line endings.
pub struct LineEndingProcessor;

impl LineEndingProcessor {
    /// CRLF and lone CR become LF.
    pub fn normalize_to_lf(content: &str) -> (r: String)
        ensures
            r@ == normalize_newlines(content@),
    {
        let chars = chars_of(content);
        let mut out = String::new();
        let mut i: usize = 0;
        assert(chars@.skip(0) =~= chars@);
        assert(out@ + normalize_newlines(chars@) =~= normalize_newlines(chars@));
        while i < chars.len()
            invariant
                i <= chars@.len(),
                chars@ == content@,
                out@ + normalize_newlines(chars@.skip(i as int)) == normalize_newlines(chars@),
            decreases chars.len() - i,
        {
            let ghost rest = chars@.skip(i as int);
            assert(rest.drop_first() =~= chars@.skip(i + 1));
            let c = chars[i];
            let ghost before = out@;
            if c == '\r' && i + 1 < chars.len() && chars[i + 1] == '\n' {
            } else if c == '\r' {
                push_char(&mut out, '\n');
                assert(before + normalize_newlines(rest) =~= out@ + normalize_newlines(rest.drop_first()));
            } else {
                push_char(&mut out, c);
                assert(before + normalize_newlines(rest) =~= out@ + normalize_newlines(rest.drop_first()));
            }
            i += 1;
        }
        assert(chars@.skip(chars@.len() as int) =~= Seq::<char>::empty());
        assert(out@ + Seq::<char>::empty() =~= out@);
        out
    }

    /// The line-ending style of `content`.
    pub fn detect_line_endings(content: &str) -> (r: LineEndingStyle)
        ensures
            r == line_ending_style(content@),
    {
        let chars = chars_of(content);
        let mut crlf: Vec<char> = Vec::new();
        crlf.push('\r');
        crlf.push('\n');
        assert(crlf@ =~= seq!['\r', '\n']);
        let has_crlf = contains_chars(&chars, &crlf);
        let has_lf = contains_char(&chars, '\n');
        let has_cr = contains_char(&chars, '\r');
        if has_crlf {
            LineEndingStyle::Crlf
        } else if has_lf && !has_cr {
            LineEndingStyle::Lf
        } else if !has_lf && has_cr {
            LineEndingStyle::Cr
        } else if has_lf && has_cr {
            LineEndingStyle::Mixed
        } else {
            LineEndingStyle::NoEnding
        }
    }

    /// The text with LF line endings, for saving.
    pub fn ensure_lf_endings(content: &str) -> (r: String)
        ensures
            r@ == normalize_newlines(content@),
    {
        Self::normalize_to_lf(content)
    }
}

/// The byte order mark.
pub const BOM: char = '\u{FEFF}';

/// `s` without a leading byte order mark.
pub open spec fn without_bom(s: Seq<char>) -> Seq<char> {
    if s.len() > 0 && s[0] == BOM {
        s.drop_first()
    } else {
        s
    }
}

/// The message of the decoding error of an invalid byte sequence.
pub uninterp spec fn utf8_error_text(bytes: Seq<u8>) -> Seq<char>;

/// `std::str::from_utf8`: for valid UTF-8 (vstd's `valid_utf8`) the text it
/// encodes, otherwise the `Display` text of the decoding error.
#[verifier::external_body]
fn decode_bytes(bytes: &[u8]) -> (r: core::result::Result<String, String>)
    ensures
        match r {
            Ok(s) => valid_utf8(bytes@) && s@ == decode_utf8(bytes@),
            Err(m) => !valid_utf8(bytes@) && m@ == utf8_error_text(bytes@),
        },
{
    match std::str::from_utf8(bytes) {
        Ok(s) => Ok(s.to_string()),
        Err(e) => Err(e.to_string()),
    }
}

/// Encoding one more character appends its encoding.
proof fn lemma_encode_push(a: Seq<char>, c: char)
    ensures
        encode_utf8(a.push(c)) == encode_utf8(a) + encode_scalar(c as u32),
    decreases a.len(),
{
    if a.len() == 0 {
        assert(a.push(c).drop_first() =~= Seq::<char>::empty());
        assert(encode_utf8(Seq::<char>::empty()) =~= Seq::<u8>::empty());
        assert(a.push(c)[0] == c);
        assert(encode_utf8(a.push(c)) =~= encode_scalar(c as u32));
    } else {
        assert(a.push(c).drop_first() =~= a.drop_first().push(c));
        lemma_encode_push(a.drop_first(), c);
        assert(encode_utf8(a.push(c)) =~= encode_utf8(a) + encode_scalar(c as u32));
    }
}

/// Appends the UTF-8 encoding of `c` to `out`.
fn push_utf8(out: &mut Vec<u8>, c: char)
    ensures
        final(out)@ == old(out)@ + encode_scalar(c as u32),
{
    let u = c as u32;
    proof {
        vstd::utf8::char_is_scalar(c);
    }
    if u < 0x80 {
        assert((u & 0x7f) as u8 == u as u8) by (bit_vector)
            requires
                u < 0x80,
        ;
        out.push(u as u8);
    } else if u < 0x800 {
        let b1 = (0xc0 + u / 64) as u8;
        let b2 = (0x80 + u % 64) as u8;
        assert(b1 == 0xC0 | ((u >> 6) & 0x1F) as u8 && b2 == 0x80 | (u & 0x3F) as u8) by (bit_vector)
            requires
                0x80 <= u < 0x800,
                b1 == (0xc0 + u / 64) as u8,
                b2 == (0x80 + u % 64) as u8,
        ;
        out.push(b1);
        out.push(b2);
    } else if u < 0x10000 {
        let b1 = (0xe0 + u / 4096) as u8;
        let b2 = (0x80 + (u / 64) % 64) as u8;
        let b3 = (0x80 + u % 64) as u8;
        assert(b1 == 0xE0 | ((u >> 12) & 0x0F) as u8 && b2 == 0x80 | ((u >> 6) & 0x3F) as u8 && b3 == 0x80 | (u
            & 0x3F) as u8) by (bit_vector)
            requires
                0x800 <= u < 0x10000,
                b1 == (0xe0 + u / 4096) as u8,
                b2 == (0x80 + (u / 64) % 64) as u8,
                b3 == (0x80 + u % 64) as u8,
        ;
        out.push(b1);
        out.push(b2);
        out.push(b3);
    } else {
        let b1 = (0xf0 + u / 262144) as u8;
        let b2 = (0x80 + (u / 4096) % 64) as u8;
        let b3 = (0x80 + (u / 64) % 64) as u8;
        let b4 = (0x80 + u % 64) as u8;
        assert(b1 == 0xF0 | ((u >> 18) & 0x7) as u8 && b2 == 0x80 | ((u >> 12) & 0x3F) as u8 && b3 == 0x80 | ((u
            >> 6) & 0x3F) as u8 && b4 == 0x80 | (u & 0x3F) as u8) by (bit_vector)
            requires
                0x10000 <= u < 0x110000,
                b1 == (0xf0 + u / 262144) as u8,
                b2 == (0x80 + (u / 4096) % 64) as u8,
                b3 == (0x80 + (u / 64) % 64) as u8,
                b4 == (0x80 + u % 64) as u8,
        ;
        out.push(b1);
        out.push(b2);
        out.push(b3);
        out.push(b4);
    }
}

/// Saving what was read back gives the text again: the UTF-8 encoding of
/// any text is valid and decodes to that text.
pub proof fn law_saved_text_reads_back(s: Seq<char>)
    ensures
        valid_utf8(encode_utf8(s)),
        decode_utf8(encode_utf8(s)) == s,
{
    vstd::utf8::encode_utf8_valid_utf8(s);
    vstd::utf8::encode_utf8_decode_utf8(s);
}

/// Decoding and byte order marks.
pub struct EncodingProcessor;

impl EncodingProcessor {
    /// The text without a leading byte order mark.
    pub fn remove_bom(content: &str) -> (r: String)
        ensures
            r@ == without_bom(content@),
    {
        let chars = chars_of(content);
        if chars.len() > 0 && chars[0] == BOM {
            let r = string_from_range(&chars, 1, chars.len());
            assert(chars@.subrange(1, chars@.len() as int) =~= chars@.drop_first());
            r
        } else {
            assert(chars@.subrange(0, chars@.len() as int) =~= chars@);
            string_from_range(&chars, 0, chars.len())
        }
    }

    /// The bytes a text is saved as: its UTF-8 encoding.
    pub fn prepare_save_content(content: &str) -> (r: Vec<u8>)
        ensures
            r@ == encode_utf8(content@),
    {
        let chars = chars_of(content);
        let mut out: Vec<u8> = Vec::new();
        let mut i: usize = 0;
        while i < chars.len()
            invariant
                i <= chars@.len(),
                chars@ == content@,
                out@ == encode_utf8(chars@.take(i as int)),
            decreases chars.len() - i,
        {
            proof {
                assert(chars@.take(i + 1) =~= chars@.take(i as int).push(chars@[i as int]));
                lemma_encode_push(chars@.take(i as int), chars@[i as int]);
            }
            push_utf8(&mut out, chars[i]);
            i += 1;
        }
        proof {
            assert(chars@.take(chars@.len() as int) =~= chars@);
        }
        out
    }

    /// Decodes file bytes as UTF-8 and drops a byte order mark; other
    /// encodings are refused.
    pub fn process_file_content(raw_content: &[u8]) -> (r: Result<String>)
        ensures
            if valid_utf8(raw_content@) {
                r matches Ok(t) && t@ == without_bom(decode_utf8(raw_content@))
            } else {
                r matches Err(AltreError::File(FileError::Encoding { message })) && message@
                    == "ファイルはUTF-8エンコーディングである必要があります: "@ + utf8_error_text(raw_content@)
            },
    {
        match decode_bytes(raw_content) {
            Ok(content) => Ok(Self::remove_bom(content.as_str())),
            Err(m) => Err(
                AltreError::File(
                    FileError::Encoding {
                        message: concat_str("ファイルはUTF-8エンコーディングである必要があります: ", m.as_str()),
                    },
                ),
            ),
        }
    }
}

} // verus!
