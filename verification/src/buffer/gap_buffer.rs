//! Gap buffer: the text is kept in one vector with a hole (the gap) at the
//! editing position, so that insertions and deletions there are cheap.
use crate::error::{AltreError, BufferError};
use crate::text::{
    chars_of, gap_line_starts, lemma_newline_starts_shape, lemma_utf8_len_bounds, newline_starts,
    is_utf8_boundary, lemma_utf8_len_prefix_le, lemma_utf8_len_take, lemma_utf8_len_take_strict,
    push_char, string_from_chars, usize_ints, utf8_len, utf8_len_of, char_utf8_width,
};
use vstd::prelude::*;

verus! {

/// Initial capacity of a new buffer.
pub const DEFAULT_GAP_CAPACITY: usize = 4096;

/// Smallest gap kept after growing.
pub const MIN_GAP_RESERVE: usize = 1024;

/// Largest gap the growth policy aims for.
pub const MAX_GAP_CAPACITY: usize = 65536;

/// Growth factor of the gap.
pub const GAP_GROWTH_FACTOR: usize = 2;

/// Most characters the buffer may hold, gap included (a vector of `char`
/// cannot be larger than `isize::MAX` bytes).
pub const MAX_BUFFER_CHARS: usize = usize::MAX / 8;

#[derive(Debug, Clone)]
struct CharBoundaryCache {
    last_char_pos: usize,
    last_byte_pos: usize,
    line_starts: Vec<usize>,
}

/// Gap buffer holding the text of one editor. The storage holds
/// characters; positions given to the editing methods count characters,
/// while `move_gap_to` and the internal conversions speak of byte offsets in
/// the UTF-8 encoding of the text.
#[derive(Debug, Clone)]
pub struct GapBuffer {
    buffer: Vec<char>,
    gap_start: usize,
    gap_end: usize,
    char_cache: Option<CharBoundaryCache>,
}

impl View for GapBuffer {
    type V = Seq<char>;

    /// The text: what lies before the gap followed by what lies after it.
    closed spec fn view(&self) -> Seq<char> {
        self.buffer@.take(self.gap_start as int) + self.buffer@.skip(self.gap_end as int)
    }
}

impl GapBuffer {
    /// The gap lies inside the storage, the storage respects the size
    /// limit, and the cache holds a true pair of character position and
    /// UTF-8 byte offset and the line table of the text.
    pub closed spec fn wf(&self) -> bool {
        &&& self.gap_start <= self.gap_end <= self.buffer@.len()
        &&& self.buffer@.len() <= MAX_BUFFER_CHARS
        &&& match self.char_cache {
            Some(c) => {
                &&& c.last_char_pos <= self@.len()
                &&& c.last_byte_pos == utf8_len(self@.take(c.last_char_pos as int))
                &&& usize_ints(c.line_starts@) == gap_line_starts(self@)
            },
            None => true,
        }
    }

    /// Size of the gap.
    pub closed spec fn gap_len(&self) -> nat {
        (self.gap_end - self.gap_start) as nat
    }

    /// Position of the gap in the text.
    pub closed spec fn gap_pos(&self) -> nat {
        self.gap_start as nat
    }

    /// Total storage, text and gap.
    pub closed spec fn storage_len(&self) -> nat {
        self.buffer@.len()
    }

    /// The text of a well-formed buffer is within the size limit.
    pub proof fn lemma_len_bound(&self)
        requires
            self.wf(),
        ensures
            self@.len() <= MAX_BUFFER_CHARS,
    {
    }

    proof fn lemma_view_len(&self)
        requires
            self.gap_start <= self.gap_end <= self.buffer@.len(),
        ensures
            self@.len() == self.gap_start + (self.buffer@.len() - self.gap_end),
            self.storage_len() == self@.len() + self.gap_len(),
    {
    }

    fn compute_line_starts(text: &[char]) -> (r: Vec<usize>)
        ensures
            usize_ints(r@) == gap_line_starts(text@),
    {
        let mut starts: Vec<usize> = Vec::new();
        starts.push(0);
        let total = text.len();
        let mut i: usize = 0;
        proof {
            assert(usize_ints(starts@) =~= seq![0int]);
            assert(text@.take(0) =~= Seq::<char>::empty());
        }
        while i < total
            invariant
                total == text@.len(),
                i <= total,
                usize_ints(starts@) == (if i == total && total > 0 && text@[total - 1] == '\n' {
                    newline_starts(text@.take(total - 1))
                } else {
                    newline_starts(text@.take(i as int))
                }),
            decreases total - i,
        {
            let ch = text[i];
            let cumulative = i + 1;
            let ghost before = usize_ints(starts@);
            proof {
                let s = text@.take(i + 1);
                assert(s.drop_last() =~= text@.take(i as int));
            }
            if ch == '\n' && cumulative < total {
                starts.push(cumulative);
                assert(usize_ints(starts@) =~= before.push(cumulative as int));
            }
            i += 1;
        }
        proof {
            assert(text@.take(total as int) =~= text@);
            if total > 0 && text@[total - 1] == '\n' {
                assert(text@.drop_last() =~= text@.take(total - 1));
            }
        }
        starts
    }

    /// A new empty buffer with the default capacity.
    pub fn new() -> (r: Self)
        ensures
            r.wf(),
            r@ == Seq::<char>::empty(),
            r.gap_len() == DEFAULT_GAP_CAPACITY,
    {
        Self::with_capacity(DEFAULT_GAP_CAPACITY)
    }

    /// A new empty buffer whose gap has `capacity` slots.
    pub fn with_capacity(capacity: usize) -> (r: Self)
        requires
            capacity <= MAX_BUFFER_CHARS,
        ensures
            r.wf(),
            r@ == Seq::<char>::empty(),
            r.gap_len() == capacity,
    {
        let mut buffer: Vec<char> = Vec::new();
        let mut i: usize = 0;
        while i < capacity
            invariant
                i <= capacity,
                buffer@.len() == i,
            decreases capacity - i,
        {
            buffer.push('\0');
            i += 1;
        }
        let r = Self { buffer, gap_start: 0, gap_end: capacity, char_cache: None };
        assert(r@ =~= Seq::<char>::empty());
        r
    }

    /// A buffer holding the characters of `s`, with a gap after them.
    pub fn from_str(s: &str) -> (r: Self)
        requires
            s@.len() + 0x10000 <= MAX_BUFFER_CHARS,
        ensures
            r.wf(),
            r@ == s@,
    {
        let chars = chars_of(s);
        let bytes_len = s.len();
        let base = if bytes_len > DEFAULT_GAP_CAPACITY { bytes_len } else { DEFAULT_GAP_CAPACITY };
        let quarter = base / 4;
        let wanted = if quarter > MIN_GAP_RESERVE { quarter } else { MIN_GAP_RESERVE };
        let n = chars.len();
        let gap_size = if wanted <= MAX_BUFFER_CHARS - n { wanted } else { MIN_GAP_RESERVE };
        let mut buffer = chars;
        let mut i: usize = 0;
        while i < gap_size
            invariant
                i <= gap_size,
                n + gap_size <= MAX_BUFFER_CHARS,
                buffer@.len() == n + i,
                buffer@.take(n as int) == s@,
            decreases gap_size - i,
        {
            let ghost before = buffer@;
            buffer.push('\0');
            assert(buffer@.take(n as int) =~= before.take(n as int));
            i += 1;
        }
        let r = Self { buffer, gap_start: n, gap_end: n + gap_size, char_cache: None };
        assert(r@ =~= s@);
        r
    }

    /// The text as a vector of characters.
    fn text_chars(&self) -> (r: Vec<char>)
        requires
            self.wf(),
        ensures
            r@ == self@,
    {
        let mut r: Vec<char> = Vec::new();
        let mut i: usize = 0;
        while i < self.gap_start
            invariant
                self.wf(),
                i <= self.gap_start,
                r@ == self.buffer@.take(i as int),
            decreases self.gap_start - i,
        {
            r.push(self.buffer[i]);
            assert(r@ =~= self.buffer@.take(i + 1));
            i += 1;
        }
        let mut j: usize = self.gap_end;
        while j < self.buffer.len()
            invariant
                self.wf(),
                self.gap_end <= j <= self.buffer@.len(),
                r@ == self.buffer@.take(self.gap_start as int) + self.buffer@.subrange(
                    self.gap_end as int,
                    j as int,
                ),
            decreases self.buffer.len() - j,
        {
            r.push(self.buffer[j]);
            assert(r@ =~= self.buffer@.take(self.gap_start as int) + self.buffer@.subrange(
                self.gap_end as int,
                j + 1,
            ));
            j += 1;
        }
        assert(r@ =~= self@);
        r
    }

    fn invalidate_cache(&mut self)
        requires
            old(self).gap_start <= old(self).gap_end <= old(self).buffer@.len(),
            old(self).buffer@.len() <= MAX_BUFFER_CHARS,
        ensures
            final(self).wf(),
            final(self)@ == old(self)@,
            final(self).buffer == old(self).buffer,
            final(self).gap_start == old(self).gap_start,
            final(self).gap_end == old(self).gap_end,
    {
        self.char_cache = None;
    }

    /// Size of the gap.
    pub fn gap_size(&self) -> (r: usize)
        requires
            self.wf(),
        ensures
            r == self.gap_len(),
    {
        self.gap_end - self.gap_start
    }

    /// Number of characters of the text.
    pub fn len_chars(&self) -> (r: usize)
        requires
            self.wf(),
        ensures
            r == self@.len(),
    {
        self.gap_start + (self.buffer.len() - self.gap_end)
    }

    /// Number of characters of the text (older name of `len_chars`).
    pub fn char_len(&self) -> (r: usize)
        requires
            self.wf(),
        ensures
            r == self@.len(),
    {
        self.len_chars()
    }

    /// Number of bytes of the UTF-8 encoding of the text.
    pub fn len_bytes(&self) -> (r: usize)
        requires
            self.wf(),
        ensures
            r == utf8_len(self@),
    {
        let text = self.text_chars();
        proof {
            lemma_utf8_len_bounds(self@);
        }
        match utf8_len_of(&text) {
            Some(n) => n,
            None => 0,
        }
    }

    /// Number of bytes of the text (older name of `len_bytes`).
    pub fn byte_len(&self) -> (r: usize)
        requires
            self.wf(),
        ensures
            r == utf8_len(self@),
    {
        self.len_bytes()
    }

    /// Whether the text is empty.
    pub fn is_empty(&self) -> (r: bool)
        requires
            self.wf(),
        ensures
            r == (self@.len() == 0),
    {
        self.len_chars() == 0
    }

    /// The whole text as a string.
    pub fn to_string(&self) -> (r: String)
        requires
            self.wf(),
        ensures
            r@ == self@,
    {
        let text = self.text_chars();
        string_from_chars(&text)
    }

    /// The whole text as a string (older name of `to_string`).
    pub fn get_text(&self) -> (r: String)
        requires
            self.wf(),
        ensures
            r@ == self@,
    {
        self.to_string()
    }

    /// The characters in `start..end`.
    pub fn substring(&self, start: usize, end: usize) -> (r: core::result::Result<
        String,
        BufferError,
    >)
        requires
            self.wf(),
        ensures
            start > end ==> r == Err::<String, BufferError>(
                BufferError::InvalidCursorPosition { position: start },
            ),
            start <= end && end > self@.len() ==> r == Err::<String, BufferError>(
                BufferError::InvalidCursorPosition { position: end },
            ),
            start <= end <= self@.len() ==> (r matches Ok(s) && s@ == self@.subrange(
                start as int,
                end as int,
            )),
    {
        if start > end {
            return Err(BufferError::InvalidCursorPosition { position: start });
        }
        let text = self.text_chars();
        if end > text.len() {
            return Err(BufferError::InvalidCursorPosition { position: end });
        }
        let mut s = String::new();
        let mut i: usize = start;
        while i < end
            invariant
                start <= i <= end <= text@.len(),
                s@ == text@.subrange(start as int, i as int),
            decreases end - i,
        {
            push_char(&mut s, text[i]);
            assert(s@ =~= text@.subrange(start as int, i + 1));
            i += 1;
        }
        Ok(s)
    }

    /// The characters in `start..end`, with the error as an application error.
    pub fn get_range(&self, start: usize, end: usize) -> (r: crate::error::Result<String>)
        requires
            self.wf(),
        ensures
            start > end ==> (r matches Err(AltreError::Buffer(
                BufferError::InvalidCursorPosition { position },
            )) && position == start),
            start <= end && end > self@.len() ==> (r matches Err(AltreError::Buffer(
                BufferError::InvalidCursorPosition { position },
            )) && position == end),
            start <= end <= self@.len() ==> (r matches Ok(s) && s@ == self@.subrange(
                start as int,
                end as int,
            )),
    {
        match self.substring(start, end) {
            Ok(s) => Ok(s),
            Err(e) => Err(AltreError::Buffer(e)),
        }
    }

    /// The character at `pos`.
    fn char_at(&self, pos: usize) -> (r: core::result::Result<char, BufferError>)
        requires
            self.wf(),
        ensures
            pos < self@.len() ==> r == Ok::<char, BufferError>(self@[pos as int]),
            pos >= self@.len() ==> r == Err::<char, BufferError>(
                BufferError::InvalidCursorPosition { position: pos },
            ),
    {
        if pos < self.gap_start {
            Ok(self.buffer[pos])
        } else if pos - self.gap_start < self.buffer.len() - self.gap_end {
            Ok(self.buffer[self.gap_end + (pos - self.gap_start)])
        } else {
            Err(BufferError::InvalidCursorPosition { position: pos })
        }
    }

    /// Length of the UTF-8 encoding of the first `n` characters of `text`.
    fn prefix_utf8_len(text: &Vec<char>, n: usize) -> (r: usize)
        requires
            n <= text@.len() <= MAX_BUFFER_CHARS,
        ensures
            r == utf8_len(text@.take(n as int)),
    {
        proof {
            lemma_utf8_len_bounds(text@);
        }
        let mut b: usize = 0;
        let mut i: usize = 0;
        while i < n
            invariant
                i <= n <= text@.len() <= MAX_BUFFER_CHARS,
                utf8_len(text@) <= 4 * text@.len(),
                b == utf8_len(text@.take(i as int)),
            decreases n - i,
        {
            proof {
                lemma_utf8_len_take(text@, i as int);
                lemma_utf8_len_prefix_le(text@, i + 1);
            }
            b = b + char_utf8_width(text[i]);
            i += 1;
        }
        b
    }

    /// Byte offset, in the UTF-8 encoding of the text, of character
    /// position `char_pos`.
    fn char_to_byte_pos_internal(&mut self, char_pos: usize) -> (r: core::result::Result<
        usize,
        BufferError,
    >)
        requires
            old(self).wf(),
        ensures
            final(self).wf(),
            final(self)@ == old(self)@,
            final(self).gap_len() == old(self).gap_len(),
            final(self).gap_pos() == old(self).gap_pos(),
            final(self).storage_len() == old(self).storage_len(),
            char_pos <= old(self)@.len() ==> r == Ok::<usize, BufferError>(
                utf8_len(old(self)@.take(char_pos as int)) as usize,
            ),
            char_pos <= old(self)@.len() ==> final(self).char_cache is Some,
            char_pos > old(self)@.len() ==> r == Err::<usize, BufferError>(
                BufferError::InvalidCursorPosition { position: char_pos },
            ),
    {
        if let Some(cache) = &self.char_cache {
            if cache.last_char_pos == char_pos {
                return Ok(cache.last_byte_pos);
            }
        }
        let total_chars = self.len_chars();
        if char_pos > total_chars {
            return Err(BufferError::InvalidCursorPosition { position: char_pos });
        }
        let text = self.text_chars();
        let byte_pos = Self::prefix_utf8_len(&text, char_pos);
        let line_starts = Self::compute_line_starts(&text);
        let cache_entry = CharBoundaryCache {
            last_char_pos: char_pos,
            last_byte_pos: byte_pos,
            line_starts,
        };
        self.char_cache = Some(cache_entry);
        Ok(byte_pos)
    }

    /// Character position of byte offset `byte_pos` of the UTF-8 encoding of
    /// the text; an offset inside the encoding of a character is refused.
    fn byte_to_char_pos_internal(&mut self, byte_pos: usize) -> (r: core::result::Result<
        usize,
        BufferError,
    >)
        requires
            old(self).wf(),
        ensures
            final(self).wf(),
            final(self)@ == old(self)@,
            final(self).gap_len() == old(self).gap_len(),
            final(self).gap_pos() == old(self).gap_pos(),
            final(self).storage_len() == old(self).storage_len(),
            forall|i: int|
                0 <= i <= old(self)@.len() && #[trigger] utf8_len(old(self)@.take(i)) == byte_pos
                    ==> r == Ok::<usize, BufferError>(i as usize),
            byte_pos > utf8_len(old(self)@) ==> r == Err::<usize, BufferError>(
                BufferError::InvalidCursorPosition { position: byte_pos },
            ),
            byte_pos <= utf8_len(old(self)@) && !is_utf8_boundary(old(self)@, byte_pos as int)
                ==> r == Err::<usize, BufferError>(
                BufferError::Utf8Boundary { position: byte_pos },
            ),
    {
        if let Some(cache) = &self.char_cache {
            if cache.last_byte_pos == byte_pos {
                proof {
                    let c = cache.last_char_pos as int;
                    lemma_utf8_len_prefix_le(self@, c);
                    assert(utf8_len(self@.take(c)) == byte_pos);
                    assert forall|i: int|
                        0 <= i <= self@.len() && #[trigger] utf8_len(self@.take(i))
                            == byte_pos implies i == c by {
                        if i < c {
                            lemma_utf8_len_take_strict(self@, i, c);
                        } else if c < i {
                            lemma_utf8_len_take_strict(self@, c, i);
                        }
                    }
                }
                return Ok(cache.last_char_pos);
            }
        }
        let total_bytes = self.len_bytes();
        if byte_pos > total_bytes {
            proof {
                assert forall|i: int| 0 <= i <= self@.len() implies #[trigger] utf8_len(
                    self@.take(i),
                ) <= total_bytes by {
                    lemma_utf8_len_prefix_le(self@, i);
                }
            }
            return Err(BufferError::InvalidCursorPosition { position: byte_pos });
        }
        let text = self.text_chars();
        proof {
            lemma_utf8_len_bounds(text@);
            assert(text@.take(text@.len() as int) =~= text@);
        }
        let mut b: usize = 0;
        let mut i: usize = 0;
        while b < byte_pos
            invariant
                i <= text@.len() <= MAX_BUFFER_CHARS,
                text@ == self@,
                byte_pos <= utf8_len(text@) <= 4 * text@.len(),
                b == utf8_len(text@.take(i as int)),
                text@.take(text@.len() as int) == text@,
                forall|k: int| 0 <= k < i ==> #[trigger] utf8_len(text@.take(k)) < byte_pos,
            decreases text@.len() - i,
        {
            proof {
                if i == text@.len() {
                    assert(false);
                }
                lemma_utf8_len_take(text@, i as int);
                lemma_utf8_len_prefix_le(text@, i + 1);
                assert forall|k: int| 0 <= k < i + 1 implies #[trigger] utf8_len(text@.take(k))
                    < byte_pos by {
                    if k == i {
                    }
                }
            }
            b = b + char_utf8_width(text[i]);
            i += 1;
        }
        if b != byte_pos {
            proof {
                assert forall|k: int| 0 <= k <= text@.len() implies #[trigger] utf8_len(
                    text@.take(k),
                ) != byte_pos by {
                    if i < k {
                        lemma_utf8_len_take_strict(text@, i as int, k);
                    }
                }
            }
            return Err(BufferError::Utf8Boundary { position: byte_pos });
        }
        proof {
            assert forall|k: int|
                0 <= k <= self@.len() && #[trigger] utf8_len(self@.take(k)) == byte_pos implies k
                == i by {
                if i < k {
                    lemma_utf8_len_take_strict(text@, i as int, k);
                }
            }
        }
        let line_starts = Self::compute_line_starts(&text);
        self.char_cache = Some(
            CharBoundaryCache { last_char_pos: i, last_byte_pos: byte_pos, line_starts },
        );
        Ok(i)
    }

    /// Number of UTF-8 bytes of the character at `char_pos`.
    fn char_byte_len_at_internal(&self, char_pos: usize) -> (r: core::result::Result<
        usize,
        BufferError,
    >)
        requires
            self.wf(),
        ensures
            char_pos < self@.len() ==> r == Ok::<usize, BufferError>(
                crate::text::utf8_width(self@[char_pos as int]) as usize,
            ),
            char_pos >= self@.len() ==> r == Err::<usize, BufferError>(
                BufferError::InvalidCursorPosition { position: char_pos },
            ),
    {
        let ch = self.char_at(char_pos)?;
        Ok(crate::text::char_utf8_width(ch))
    }

    /// Moves the gap to byte offset `pos` of the UTF-8 encoding of the
    /// text; the text does not change.
    pub fn move_gap_to(&mut self, pos: usize) -> (r: core::result::Result<(), BufferError>)
        requires
            old(self).wf(),
        ensures
            final(self).wf(),
            final(self)@ == old(self)@,
            final(self).gap_len() == old(self).gap_len(),
            forall|i: int|
                0 <= i <= old(self)@.len() && #[trigger] utf8_len(old(self)@.take(i)) == pos
                    ==> r is Ok && final(self).gap_pos() == i,
            pos > utf8_len(old(self)@) ==> r == Err::<(), BufferError>(
                BufferError::InvalidCursorPosition { position: pos },
            ),
            pos <= utf8_len(old(self)@) && !is_utf8_boundary(old(self)@, pos as int) ==> r
                == Err::<(), BufferError>(BufferError::Utf8Boundary { position: pos }),
    {
        let char_pos = self.byte_to_char_pos_internal(pos)?;
        self.move_gap_to_internal(char_pos)
    }

    /// Position of the gap in the text.
    pub fn gap_position(&self) -> (r: usize)
        requires
            self.wf(),
        ensures
            r == self.gap_pos(),
            r <= self@.len(),
    {
        self.gap_start
    }

    /// Start positions of the lines of the text (a `'\n'` that ends the text
    /// starts no line).
    pub fn line_start_positions(&mut self) -> (r: Vec<usize>)
        requires
            old(self).wf(),
        ensures
            final(self).wf(),
            final(self)@ == old(self)@,
            usize_ints(r@) == gap_line_starts(old(self)@),
    {
        if let Some(cache) = &self.char_cache {
            return cache.line_starts.clone();
        }
        let len = self.len_chars();
        let _ = self.char_to_byte_pos_internal(len);
        match &self.char_cache {
            Some(cache) => cache.line_starts.clone(),
            None => {
                let mut v: Vec<usize> = Vec::new();
                v.push(0);
                v
            },
        }
    }

    fn move_gap_to_internal(&mut self, pos: usize) -> (r: core::result::Result<(), BufferError>)
        requires
            old(self).wf(),
        ensures
            final(self).wf(),
            final(self)@ == old(self)@,
            final(self).gap_len() == old(self).gap_len(),
            final(self).storage_len() == old(self).storage_len(),
            pos <= old(self)@.len() ==> r is Ok && final(self).gap_pos() == pos,
            pos > old(self)@.len() ==> r == Err::<(), BufferError>(
                BufferError::InvalidCursorPosition { position: pos },
            ) && *final(self) == *old(self),
    {
        if pos > self.len_chars() {
            return Err(BufferError::InvalidCursorPosition { position: pos });
        }
        if pos == self.gap_start {
            return Ok(());
        }
        let ghost b0 = self.buffer@;
        let ghost v0 = self@;
        let gs = self.gap_start;
        let ge = self.gap_end;
        if pos < gs {
            let move_size = gs - pos;
            let new_gap_end = ge - move_size;
            let mut i: usize = move_size;
            while i > 0
                invariant
                    pos < gs <= ge <= b0.len(),
                    move_size == gs - pos,
                    new_gap_end == ge - move_size,
                    i <= move_size,
                    self.buffer@.len() == b0.len(),
                    forall|j: int|
                        0 <= j < b0.len() ==> #[trigger] self.buffer@[j] == if new_gap_end + i <= j
                            < new_gap_end + move_size {
                            b0[j - new_gap_end + pos]
                        } else {
                            b0[j]
                        },
                decreases i,
            {
                let k = i - 1;
                let v = self.buffer[pos + k];
                self.buffer.set(new_gap_end + k, v);
                i = k;
            }
            self.gap_start = pos;
            self.gap_end = new_gap_end;
        } else {
            let move_size = pos - gs;
            let mut i: usize = 0;
            while i < move_size
                invariant
                    gs < pos,
                    gs <= ge <= b0.len(),
                    b0.len() <= MAX_BUFFER_CHARS,
                    move_size == pos - gs,
                    ge + move_size <= b0.len(),
                    i <= move_size,
                    self.buffer@.len() == b0.len(),
                    forall|j: int|
                        0 <= j < b0.len() ==> #[trigger] self.buffer@[j] == if gs <= j < gs + i {
                            b0[j - gs + ge]
                        } else {
                            b0[j]
                        },
                decreases move_size - i,
            {
                let v = self.buffer[ge + i];
                self.buffer.set(gs + i, v);
                i += 1;
            }
            self.gap_start = pos;
            self.gap_end = ge + move_size;
        }
        assert(self@ =~= v0);
        self.invalidate_cache();
        Ok(())
    }

    /// Gives the gap room for at least `min_additional` more characters.
    fn grow_gap_internal(&mut self, min_additional: usize) -> (r: core::result::Result<
        (),
        BufferError,
    >)
        requires
            old(self).wf(),
            min_additional <= MAX_BUFFER_CHARS,
        ensures
            final(self).wf(),
            final(self)@ == old(self)@,
            final(self).gap_pos() == old(self).gap_pos(),
            r is Ok ==> final(self).gap_len() >= min_additional,
            old(self)@.len() + min_additional + MAX_GAP_CAPACITY + MIN_GAP_RESERVE
                <= MAX_BUFFER_CHARS ==> r is Ok,
            r is Err ==> r == Err::<(), BufferError>(BufferError::Overflow),
    {
        let gap = self.gap_end - self.gap_start;
        let current_gap = if gap > MIN_GAP_RESERVE { gap } else { MIN_GAP_RESERVE };
        let required = min_additional + MIN_GAP_RESERVE;
        let doubled = if current_gap <= usize::MAX / GAP_GROWTH_FACTOR {
            current_gap * GAP_GROWTH_FACTOR
        } else {
            usize::MAX
        };
        let mut new_gap_size = if doubled > required { doubled } else { required };
        let cap = if MAX_GAP_CAPACITY > required { MAX_GAP_CAPACITY } else { required };
        if new_gap_size > cap {
            new_gap_size = cap;
        }
        let text_len = self.len_chars();
        if new_gap_size > MAX_BUFFER_CHARS - text_len {
            return Err(BufferError::Overflow);
        }
        let ghost v0 = self@;
        let mut new_buffer: Vec<char> = Vec::new();
        let mut i: usize = 0;
        while i < self.gap_start
            invariant
                old(self).wf(),
                *self == *old(self),
                i <= self.gap_start,
                new_buffer@ == self.buffer@.take(i as int),
            decreases self.gap_start - i,
        {
            new_buffer.push(self.buffer[i]);
            assert(new_buffer@ =~= self.buffer@.take(i + 1));
            i += 1;
        }
        let mut k: usize = 0;
        while k < new_gap_size
            invariant
                *self == *old(self),
                k <= new_gap_size,
                new_buffer@.len() == self.gap_start + k,
                new_buffer@.take(self.gap_start as int) == self.buffer@.take(self.gap_start as int),
            decreases new_gap_size - k,
        {
            let ghost before = new_buffer@;
            new_buffer.push('\0');
            assert(new_buffer@.take(self.gap_start as int) =~= before.take(self.gap_start as int));
            k += 1;
        }
        let mut j: usize = self.gap_end;
        let ghost mid = new_buffer@;
        while j < self.buffer.len()
            invariant
                old(self).wf(),
                *self == *old(self),
                self.gap_end <= j <= self.buffer@.len(),
                mid.len() == self.gap_start + new_gap_size,
                new_buffer@ == mid + self.buffer@.subrange(self.gap_end as int, j as int),
            decreases self.buffer.len() - j,
        {
            new_buffer.push(self.buffer[j]);
            assert(new_buffer@ =~= mid + self.buffer@.subrange(self.gap_end as int, j + 1));
            j += 1;
        }
        let gs = self.gap_start;
        self.buffer = new_buffer;
        self.gap_end = gs + new_gap_size;
        proof {
            assert(self.buffer@.take(gs as int) =~= mid.take(gs as int));
            assert(self.buffer@.skip(self.gap_end as int) =~= old(self).buffer@.skip(
                old(self).gap_end as int,
            ));
            assert(self@ =~= v0);
        }
        self.invalidate_cache();
        Ok(())
    }

    /// Inserts `chars` at character position `char_pos`.
    fn insert_chars_internal(&mut self, char_pos: usize, chars: &[char]) -> (r:
        core::result::Result<(), BufferError>)
        requires
            old(self).wf(),
        ensures
            final(self).wf(),
            char_pos > old(self)@.len() ==> r == Err::<(), BufferError>(
                BufferError::InvalidCursorPosition { position: char_pos },
            ),
            char_pos <= old(self)@.len() && old(self)@.len() + chars@.len() + MAX_GAP_CAPACITY
                + MIN_GAP_RESERVE <= MAX_BUFFER_CHARS ==> r is Ok,
            r is Err ==> final(self)@ == old(self)@,
            r is Err && char_pos <= old(self)@.len() ==> r == Err::<(), BufferError>(
                BufferError::Overflow,
            ),
            r is Ok ==> final(self)@ == old(self)@.take(char_pos as int) + chars@ + old(self)@.skip(char_pos as int),
    {
        self.move_gap_to_internal(char_pos)?;
        let n = chars.len();
        if self.gap_end - self.gap_start < n {
            if n > MAX_BUFFER_CHARS {
                return Err(BufferError::Overflow);
            }
            self.grow_gap_internal(n)?;
        }
        let ghost b0 = self.buffer@;
        let ghost v0 = self@;
        let ghost ge0 = self.gap_end;
        let gs = self.gap_start;
        let mut i: usize = 0;
        while i < n
            invariant
                self.gap_start == gs,
                self.gap_end == ge0,
                gs + n <= self.gap_end <= self.buffer@.len(),
                self.buffer@.len() == b0.len(),
                b0.len() <= MAX_BUFFER_CHARS,
                i <= n,
                n == chars@.len(),
                forall|j: int|
                    0 <= j < b0.len() ==> #[trigger] self.buffer@[j] == if gs <= j < gs + i {
                        chars@[j - gs]
                    } else {
                        b0[j]
                    },
            decreases n - i,
        {
            self.buffer.set(gs + i, chars[i]);
            i += 1;
        }
        self.gap_start = gs + n;
        proof {
            assert(v0 == b0.take(gs as int) + b0.skip(self.gap_end as int));
            assert(self@ =~= b0.take(gs as int) + chars@ + b0.skip(self.gap_end as int));
            assert(v0.take(char_pos as int) =~= b0.take(gs as int));
            assert(v0.skip(char_pos as int) =~= b0.skip(self.gap_end as int));
        }
        self.invalidate_cache();
        Ok(())
    }

    /// Inserts character `ch` at position `pos`.
    pub fn insert(&mut self, pos: usize, ch: char) -> (r: core::result::Result<(), BufferError>)
        requires
            old(self).wf(),
        ensures
            final(self).wf(),
            pos > old(self)@.len() ==> r == Err::<(), BufferError>(
                BufferError::InvalidCursorPosition { position: pos },
            ),
            pos <= old(self)@.len() && old(self)@.len() + 1 + MAX_GAP_CAPACITY + MIN_GAP_RESERVE
                <= MAX_BUFFER_CHARS ==> r is Ok,
            r is Err ==> final(self)@ == old(self)@,
            r is Err && pos <= old(self)@.len() ==> r == Err::<(), BufferError>(
                BufferError::Overflow,
            ),
            r is Ok ==> final(self)@ == old(self)@.insert(pos as int, ch),
    {
        let mut one: Vec<char> = Vec::new();
        one.push(ch);
        let r = self.insert_chars_internal(pos, &one);
        proof {
            if r is Ok {
                assert(old(self)@.take(pos as int) + one@ + old(self)@.skip(pos as int) =~= old(self)@.insert(pos as int, ch));
            }
        }
        r
    }

    /// Inserts character `ch` at position `pos`, with the error as an
    /// application error.
    pub fn insert_char(&mut self, pos: usize, ch: char) -> (r: crate::error::Result<()>)
        requires
            old(self).wf(),
        ensures
            final(self).wf(),
            pos > old(self)@.len() ==> (r matches Err(AltreError::Buffer(
                BufferError::InvalidCursorPosition { position },
            )) && position == pos),
            pos <= old(self)@.len() && old(self)@.len() + 1 + MAX_GAP_CAPACITY + MIN_GAP_RESERVE
                <= MAX_BUFFER_CHARS ==> r is Ok,
            r is Err ==> final(self)@ == old(self)@,
            r is Ok ==> final(self)@ == old(self)@.insert(pos as int, ch),
    {
        match self.insert(pos, ch) {
            Ok(()) => Ok(()),
            Err(e) => Err(AltreError::Buffer(e)),
        }
    }

    /// Inserts the characters of `s` at position `pos`.
    pub fn insert_str(&mut self, pos: usize, s: &str) -> (r: core::result::Result<(), BufferError>)
        requires
            old(self).wf(),
        ensures
            final(self).wf(),
            pos > old(self)@.len() ==> r == Err::<(), BufferError>(
                BufferError::InvalidCursorPosition { position: pos },
            ),
            pos <= old(self)@.len() && old(self)@.len() + s@.len() + MAX_GAP_CAPACITY
                + MIN_GAP_RESERVE <= MAX_BUFFER_CHARS ==> r is Ok,
            r is Err ==> final(self)@ == old(self)@,
            r is Err && pos <= old(self)@.len() ==> r == Err::<(), BufferError>(
                BufferError::Overflow,
            ),
            r is Ok ==> final(self)@ == old(self)@.take(pos as int) + s@ + old(self)@.skip(
                pos as int,
            ),
    {
        let chars = chars_of(s);
        self.insert_chars_internal(pos, &chars)
    }

    /// Inserts the characters `chars` at position `pos`.
    pub fn insert_chars(&mut self, pos: usize, chars: &[char]) -> (r: core::result::Result<
        (),
        BufferError,
    >)
        requires
            old(self).wf(),
        ensures
            final(self).wf(),
            pos > old(self)@.len() ==> r == Err::<(), BufferError>(
                BufferError::InvalidCursorPosition { position: pos },
            ),
            pos <= old(self)@.len() && old(self)@.len() + chars@.len() + MAX_GAP_CAPACITY
                + MIN_GAP_RESERVE <= MAX_BUFFER_CHARS ==> r is Ok,
            r is Err ==> final(self)@ == old(self)@,
            r is Err && pos <= old(self)@.len() ==> r == Err::<(), BufferError>(
                BufferError::Overflow,
            ),
            r is Ok ==> final(self)@ == old(self)@.take(pos as int) + chars@ + old(self)@.skip(
                pos as int,
            ),
    {
        self.insert_chars_internal(pos, chars)
    }

    /// Deletes the character at `pos` and returns it.
    pub fn delete(&mut self, pos: usize) -> (r: core::result::Result<char, BufferError>)
        requires
            old(self).wf(),
        ensures
            final(self).wf(),
            pos >= old(self)@.len() ==> r == Err::<char, BufferError>(
                BufferError::InvalidCursorPosition { position: pos },
            ) && final(self)@ == old(self)@,
            pos < old(self)@.len() ==> r == Ok::<char, BufferError>(old(self)@[pos as int])
                && final(self)@ == old(self)@.remove(pos as int),
    {
        if pos >= self.len_chars() {
            return Err(BufferError::InvalidCursorPosition { position: pos });
        }
        let deleted_char = self.char_at(pos)?;
        self.move_gap_to_internal(pos + 1)?;
        let ghost b = self.buffer@;
        let ghost v = self@;
        self.gap_start = pos;
        proof {
            assert(self@ =~= v.remove(pos as int)) by {
                assert(v.take(pos + 1) =~= b.take(pos + 1));
                assert(v.skip(pos + 1) =~= b.skip(self.gap_end as int));
            }
        }
        self.invalidate_cache();
        Ok(deleted_char)
    }

    /// Deletes the character at `pos`, with the error as an application error.
    pub fn delete_char(&mut self, pos: usize) -> (r: crate::error::Result<()>)
        requires
            old(self).wf(),
        ensures
            final(self).wf(),
            pos >= old(self)@.len() ==> (r matches Err(AltreError::Buffer(
                BufferError::InvalidCursorPosition { position },
            )) && position == pos && final(self)@ == old(self)@),
            pos < old(self)@.len() ==> r is Ok && final(self)@ == old(self)@.remove(pos as int),
    {
        match self.delete(pos) {
            Ok(_) => Ok(()),
            Err(e) => Err(AltreError::Buffer(e)),
        }
    }

    /// Deletes the characters in `start..end` and returns them.
    pub fn delete_range(&mut self, start: usize, end: usize) -> (r: core::result::Result<
        String,
        BufferError,
    >)
        requires
            old(self).wf(),
        ensures
            final(self).wf(),
            start > end ==> r == Err::<String, BufferError>(
                BufferError::InvalidCursorPosition { position: start },
            ),
            start <= end && end > old(self)@.len() ==> r == Err::<String, BufferError>(
                BufferError::InvalidCursorPosition { position: end },
            ),
            r is Err ==> final(self)@ == old(self)@,
            start <= end <= old(self)@.len() ==> (r matches Ok(s) && s@ == old(self)@.subrange(
                start as int,
                end as int,
            ) && final(self)@ == old(self)@.take(start as int) + old(self)@.skip(end as int)),
    {
        if start > end {
            return Err(BufferError::InvalidCursorPosition { position: start });
        }
        let deleted_text = self.substring(start, end)?;
        if start == end {
            assert(self@ =~= self@.take(start as int) + self@.skip(end as int));
            return Ok(deleted_text);
        }
        self.move_gap_to_internal(end)?;
        let ghost b = self.buffer@;
        let ghost v = self@;
        self.gap_start = start;
        proof {
            assert(v.take(end as int) =~= b.take(end as int));
            assert(v.skip(end as int) =~= b.skip(self.gap_end as int));
            assert(self@ =~= v.take(start as int) + v.skip(end as int));
        }
        self.invalidate_cache();
        Ok(deleted_text)
    }

    /// Replaces the characters in `start..end` with those of `s`.
    pub fn replace_range(&mut self, start: usize, end: usize, s: &str) -> (r:
        core::result::Result<(), BufferError>)
        requires
            old(self).wf(),
        ensures
            final(self).wf(),
            start > end ==> r == Err::<(), BufferError>(
                BufferError::InvalidCursorPosition { position: start },
            ),
            start <= end && end > old(self)@.len() ==> r == Err::<(), BufferError>(
                BufferError::InvalidCursorPosition { position: end },
            ),
            start <= end <= old(self)@.len() && old(self)@.len() + s@.len() + MAX_GAP_CAPACITY
                + MIN_GAP_RESERVE <= MAX_BUFFER_CHARS ==> r is Ok,
            r is Ok ==> final(self)@ == old(self)@.take(start as int) + s@ + old(self)@.skip(
                end as int,
            ),
    {
        self.delete_range(start, end)?;
        let ghost mid = self@;
        self.insert_str(start, s)?;
        proof {
            assert(mid.take(start as int) =~= old(self)@.take(start as int));
            assert(mid.skip(start as int) =~= old(self)@.skip(end as int));
        }
        Ok(())
    }
}

impl Default for GapBuffer {
    fn default() -> (r: Self)
        ensures
            r.wf(),
            r@ == Seq::<char>::empty(),
    {
        Self::new()
    }
}

} // verus!
