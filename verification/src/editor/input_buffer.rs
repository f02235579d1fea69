//! Input buffering: typed characters are collected and handed to the editor
//! in batches.
use crate::text::{
    char_utf8_width, chars_of, lemma_utf8_len_take, push_char, string_from_chars, usize_to_string,
    utf8_len, utf8_len_of, utf8_width,
};
use crate::time::{duration_from_millis, elapsed, elapsed_nanos, instant_now, NANOS_PER_MILLI};
use std::time::{Duration, Instant};
use vstd::prelude::*;

verus! {

/// Errors of the input buffer.
#[derive(Debug, Clone)]
pub enum InputBufferError {
    BufferOverflow { max_size: usize },
    InvalidChar { ch: char },
    OperationFailed { message: String },
}

impl InputBufferError {
    /// The message of the error (its `Display` text); a character is shown
    /// in its `Debug` form.
    pub fn message(&self) -> (s: String)
        ensures
            self matches InputBufferError::BufferOverflow { max_size } ==> s@
                == "Input buffer overflow (max size: "@ + crate::text::decimal(max_size as nat) + ")"@,
            self matches InputBufferError::OperationFailed { message } ==> s@
                == "Buffer operation failed: "@ + message@,
            self matches InputBufferError::InvalidChar { ch } ==> s@ == "Invalid input character: "@
                + crate::text::char_debug(*ch),
    {
        match self {
            InputBufferError::BufferOverflow { max_size } => {
                let a = crate::text::concat_str(
                    "Input buffer overflow (max size: ",
                    usize_to_string(*max_size).as_str(),
                );
                crate::text::concat_str(a.as_str(), ")")
            },
            InputBufferError::InvalidChar { ch } => {
                let shown = crate::text::char_for_debug(*ch);
                crate::text::concat_str("Invalid input character: ", shown.as_str())
            },
            InputBufferError::OperationFailed { message } => crate::text::concat_str(
                "Buffer operation failed: ",
                message.as_str(),
            ),
        }
    }
}

/// Statistics of the input buffer.
#[derive(Debug, Clone, Copy)]
pub struct InputBufferStats {
    pub current_size: usize,
    pub max_size: usize,
    pub timeout: Duration,
    pub last_input_age: Duration,
}

/// Collects typed input until it is flushed.
pub struct InputBuffer {
    pending_chars: String,
    last_input_time: Instant,
    buffer_timeout_ms: u64,
    max_buffer_size: usize,
}

impl InputBuffer {
    /// Pending characters.
    pub closed spec fn pending(&self) -> Seq<char> {
        self.pending_chars@
    }

    /// Largest pending size in bytes.
    pub closed spec fn max_size(&self) -> nat {
        self.max_buffer_size as nat
    }

    /// Time after the last input at which the buffer is due, in ms.
    pub closed spec fn timeout_ms(&self) -> nat {
        self.buffer_timeout_ms as nat
    }

    /// The pending bytes fit the machine.
    pub closed spec fn wf(&self) -> bool {
        utf8_len(self.pending_chars@) <= usize::MAX
    }

    /// An empty buffer: 1 ms timeout, 1024 bytes.
    pub fn new() -> (r: Self)
        ensures
            r.wf(),
            r.pending() == Seq::<char>::empty(),
            r.max_size() == 1024,
            r.timeout_ms() == 1,
    {
        Self {
            pending_chars: String::new(),
            last_input_time: instant_now(),
            buffer_timeout_ms: 1,
            max_buffer_size: 1024,
        }
    }

    /// An empty buffer with the given timeout (ms) and size (bytes).
    pub fn with_config(timeout_ms: u64, max_size: usize) -> (r: Self)
        ensures
            r.wf(),
            r.pending() == Seq::<char>::empty(),
            r.max_size() == max_size,
            r.timeout_ms() == timeout_ms,
    {
        Self {
            pending_chars: String::new(),
            last_input_time: instant_now(),
            buffer_timeout_ms: timeout_ms,
            max_buffer_size: max_size,
        }
    }

    /// Pending size in bytes.
    fn pending_bytes(&self) -> (r: usize)
        requires
            self.wf(),
        ensures
            r == utf8_len(self.pending()),
    {
        let chars = chars_of(self.pending_chars.as_str());
        match utf8_len_of(&chars) {
            Some(n) => n,
            None => 0,
        }
    }

    /// Adds a character; fails when the pending bytes would exceed the size.
    pub fn add_char(&mut self, ch: char) -> (r: core::result::Result<(), InputBufferError>)
        requires
            old(self).wf(),
        ensures
            final(self).wf(),
            final(self).max_size() == old(self).max_size(),
            final(self).timeout_ms() == old(self).timeout_ms(),
            utf8_len(old(self).pending()) + utf8_width(ch) > old(self).max_size() ==> (r matches Err(
                InputBufferError::BufferOverflow { max_size },
            ) && max_size == old(self).max_size() && final(self).pending() == old(self).pending()),
            utf8_len(old(self).pending()) + utf8_width(ch) <= old(self).max_size() ==> r is Ok
                && final(self).pending() == old(self).pending().push(ch),
    {
        let len = self.pending_bytes();
        let w = char_utf8_width(ch);
        if len > self.max_buffer_size || w > self.max_buffer_size - len {
            return Err(InputBufferError::BufferOverflow { max_size: self.max_buffer_size });
        }
        let ghost before = self.pending_chars@;
        push_char(&mut self.pending_chars, ch);
        proof {
            assert(self.pending_chars@.drop_last() =~= before);
        }
        self.last_input_time = instant_now();
        Ok(())
    }

    /// Adds a string; fails when the pending bytes would exceed the size.
    pub fn add_str(&mut self, s: &str) -> (r: core::result::Result<(), InputBufferError>)
        requires
            old(self).wf(),
        ensures
            final(self).wf(),
            final(self).max_size() == old(self).max_size(),
            final(self).timeout_ms() == old(self).timeout_ms(),
            utf8_len(old(self).pending()) + utf8_len(s@) > old(self).max_size() ==> (r matches Err(
                InputBufferError::BufferOverflow { max_size },
            ) && max_size == old(self).max_size() && final(self).pending() == old(self).pending()),
            utf8_len(old(self).pending()) + utf8_len(s@) <= old(self).max_size() ==> r is Ok
                && final(self).pending() == old(self).pending() + s@,
    {
        let len = self.pending_bytes();
        let chars = chars_of(s);
        let add = utf8_len_of(&chars);
        let fits = match add {
            Some(n) => len <= self.max_buffer_size && n <= self.max_buffer_size - len,
            None => false,
        };
        if !fits {
            return Err(InputBufferError::BufferOverflow { max_size: self.max_buffer_size });
        }
        let ghost before = self.pending_chars@;
        self.pending_chars.append(s);
        proof {
            lemma_utf8_len_concat(before, s@);
        }
        self.last_input_time = instant_now();
        Ok(())
    }

    /// Whether the buffer, being non-empty, has waited past its timeout.
    pub fn should_flush(&self) -> (r: bool)
        ensures
            r ==> self.pending().len() > 0,
    {
        !self.pending_chars.as_str().is_empty() && flush_due(
            elapsed_nanos(&self.last_input_time),
            self.buffer_timeout_ms,
        )
    }

    /// Whether the pending bytes reach half the size.
    pub fn should_force_flush(&self) -> (r: bool)
        requires
            self.wf(),
        ensures
            r == (utf8_len(self.pending()) >= self.max_size() / 2),
    {
        self.pending_bytes() >= self.max_buffer_size / 2
    }

    /// Takes the pending input, leaving the buffer empty.
    pub fn flush(&mut self) -> (r: String)
        requires
            old(self).wf(),
        ensures
            final(self).wf(),
            r@ == old(self).pending(),
            final(self).pending() == Seq::<char>::empty(),
            final(self).max_size() == old(self).max_size(),
            final(self).timeout_ms() == old(self).timeout_ms(),
    {
        let mut taken = String::new();
        std::mem::swap(&mut taken, &mut self.pending_chars);
        taken
    }

    /// Whether nothing is pending.
    pub fn is_empty(&self) -> (r: bool)
        ensures
            r == (self.pending().len() == 0),
    {
        self.pending_chars.as_str().is_empty()
    }

    /// Pending size in bytes.
    pub fn len(&self) -> (r: usize)
        requires
            self.wf(),
        ensures
            r == utf8_len(self.pending()),
    {
        self.pending_bytes()
    }

    /// The pending input, unconsumed.
    pub fn peek(&self) -> (r: &str)
        ensures
            r@ == self.pending(),
    {
        self.pending_chars.as_str()
    }

    /// Drops the pending input.
    pub fn clear(&mut self)
        ensures
            final(self).wf(),
            final(self).pending() == Seq::<char>::empty(),
            final(self).max_size() == old(self).max_size(),
            final(self).timeout_ms() == old(self).timeout_ms(),
    {
        self.pending_chars = String::new();
    }

    /// Sets the timeout and the size; pending input beyond the new size is
    /// cut off: what stays is the longest run of whole characters at the
    /// front whose encoding fits in `max_size` bytes.
    pub fn update_config(&mut self, timeout_ms: u64, max_size: usize)
        requires
            old(self).wf(),
        ensures
            final(self).wf(),
            final(self).max_size() == max_size,
            final(self).timeout_ms() == timeout_ms,
            utf8_len(old(self).pending()) <= max_size ==> final(self).pending() == old(self).pending(),
            utf8_len(old(self).pending()) > max_size ==> exists|k: int|
                0 <= k < old(self).pending().len() && final(self).pending() == old(self).pending().take(k)
                    && utf8_len(old(self).pending().take(k)) <= max_size
                    && #[trigger] utf8_len(old(self).pending().take(k + 1)) > max_size,
    {
        self.buffer_timeout_ms = timeout_ms;
        self.max_buffer_size = max_size;
        let len = self.pending_bytes();
        if len > max_size {
            let chars = chars_of(self.pending_chars.as_str());
            let ghost p = chars@;
            let mut total: usize = 0;
            let mut i: usize = 0;
            proof {
                assert(p.take(0) =~= Seq::<char>::empty());
                assert(p.take(p.len() as int) =~= p);
            }
            while i < chars.len() && char_utf8_width(chars[i]) <= max_size - total
                invariant
                    p == chars@,
                    i <= p.len(),
                    total == utf8_len(p.take(i as int)),
                    total <= max_size,
                    max_size < utf8_len(p),
                    p.take(p.len() as int) == p,
                decreases chars.len() - i,
            {
                proof {
                    lemma_utf8_len_take(p, i as int);
                }
                total = total + char_utf8_width(chars[i]);
                i += 1;
            }
            proof {
                lemma_utf8_len_take(p, i as int);
                assert(p.take(i as int + 1) == p.take(i as int + 1));
            }
            let kept = string_from_chars(&chars.as_slice()[0..i]);
            proof {
                assert(kept@ =~= p.take(i as int));
            }
            self.pending_chars = kept;
        }
    }

    /// Statistics of the buffer.
    pub fn stats(&self) -> (r: InputBufferStats)
        requires
            self.wf(),
        ensures
            r.current_size == utf8_len(self.pending()),
            r.max_size == self.max_size(),
    {
        InputBufferStats {
            current_size: self.pending_bytes(),
            max_size: self.max_buffer_size,
            timeout: duration_from_millis(self.buffer_timeout_ms),
            last_input_age: elapsed(&self.last_input_time),
        }
    }
}

/// Whether an input `elapsed` nanoseconds old is past a timeout of
/// `timeout_ms` milliseconds.
pub fn flush_due(elapsed: u128, timeout_ms: u64) -> (r: bool)
    ensures
        r == (elapsed > timeout_ms * NANOS_PER_MILLI),
{
    let t: u128 = timeout_ms as u128;
    elapsed > t * NANOS_PER_MILLI
}

pub proof fn lemma_utf8_len_concat(a: Seq<char>, b: Seq<char>)
    ensures
        utf8_len(a + b) == utf8_len(a) + utf8_len(b),
    decreases b.len(),
{
    if b.len() == 0 {
        assert(a + b =~= a);
    } else {
        lemma_utf8_len_concat(a, b.drop_last());
        assert((a + b).drop_last() =~= a + b.drop_last());
    }
}

impl Default for InputBuffer {
    fn default() -> (r: Self)
        ensures
            r.wf(),
            r.pending() == Seq::<char>::empty(),
    {
        Self::new()
    }
}

} // verus!
