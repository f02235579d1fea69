//! Character-sequence utilities shared by the editor: conversion between
//! strings and character vectors, the line structure of a text, decimal
//! rendering of numbers, and the few `char` classifications taken from std.
use vstd::prelude::*;

verus! {

broadcast use vstd::string::group_string_axioms;

// ---------------------------------------------------------------------------
// std character classification (Unicode tables live in std)
// ---------------------------------------------------------------------------

/// `text` as `{:?}` writes a string: in double quotes, with escapes.
pub uninterp spec fn debug_quoted(text: Seq<char>) -> Seq<char>;

/// `format!("{:?}", text)` for a string.
#[verifier::external_body]
pub(crate) fn quote_for_debug(text: &str) -> (r: String)
    ensures
        r@ == debug_quoted(text@),
{
    format!("{:?}", text)
}

/// `c` as `{:?}` writes a character: in single quotes, with escapes.
pub uninterp spec fn char_debug(c: char) -> Seq<char>;

/// `format!("{:?}", c)` for a character.
#[verifier::external_body]
pub(crate) fn char_for_debug(c: char) -> (r: String)
    ensures
        r@ == char_debug(c),
{
    format!("{:?}", c)
}


/// Whether `c` has the Unicode `White_Space` property, which is what std's
/// `char::is_whitespace` tests.
pub open spec fn spec_is_whitespace(c: char) -> bool {
    let u = c as u32;
    ||| 0x09 <= u <= 0x0d
    ||| u == 0x20 || u == 0x85 || u == 0xa0 || u == 0x1680
    ||| 0x2000 <= u <= 0x200a
    ||| u == 0x2028 || u == 0x2029 || u == 0x202f || u == 0x205f || u == 0x3000
}

/// Whether std's `char::is_alphanumeric` holds of a character beyond
/// ASCII (std's Unicode tables decide).
pub uninterp spec fn non_ascii_alphanumeric(c: char) -> bool;

/// Whether `c` is alphanumeric (`char::is_alphanumeric`): within ASCII the
/// letters and digits, beyond it as std's tables say.
pub open spec fn spec_is_alphanumeric(c: char) -> bool {
    if (c as u32) < 0x80 {
        ('a' <= c && c <= 'z') || ('A' <= c && c <= 'Z') || ('0' <= c && c <= '9')
    } else {
        non_ascii_alphanumeric(c)
    }
}

/// Whether `c` is in the general category of control codes (Cc), which is
/// what std's `char::is_control` tests.
pub open spec fn spec_is_control(c: char) -> bool {
    let u = c as u32;
    u <= 0x1f || (0x7f <= u <= 0x9f)
}

/// Whether std's `char::is_uppercase` holds of a character beyond ASCII
/// (std's Unicode tables decide).
pub uninterp spec fn non_ascii_uppercase(c: char) -> bool;

/// Whether `c` is upper case (`char::is_uppercase`): within ASCII the
/// letters `A` to `Z`, beyond it as std's tables say.
pub open spec fn spec_is_uppercase(c: char) -> bool {
    if (c as u32) < 0x80 {
        'A' <= c && c <= 'Z'
    } else {
        non_ascii_uppercase(c)
    }
}

/// The character std's `char::to_ascii_lowercase` gives for `c`.
pub open spec fn ascii_lower(c: char) -> char {
    if 'A' <= c && c <= 'Z' {
        ((c as u32) + 32) as char
    } else {
        c
    }
}

/// Whether `c` is white space (`char::is_whitespace`).
pub fn char_is_whitespace(c: char) -> (r: bool)
    ensures
        r == spec_is_whitespace(c),
{
    let u = c as u32;
    (0x09 <= u && u <= 0x0d) || u == 0x20 || u == 0x85 || u == 0xa0 || u == 0x1680 || (0x2000 <= u
        && u <= 0x200a) || u == 0x2028 || u == 0x2029 || u == 0x202f || u == 0x205f || u == 0x3000
}

/// Calls `char::is_alphanumeric`: within ASCII it holds of the letters and
/// digits only; beyond ASCII the answer is named by `non_ascii_alphanumeric`.
#[verifier::external_body]
pub fn char_is_alphanumeric(c: char) -> (r: bool)
    ensures
        r == spec_is_alphanumeric(c),
        (c as u32) >= 0x80 ==> r == non_ascii_alphanumeric(c),
{
    c.is_alphanumeric()
}

/// Whether `c` is a control code (`char::is_control`).
pub fn char_is_control(c: char) -> (r: bool)
    ensures
        r == spec_is_control(c),
{
    let u = c as u32;
    u <= 0x1f || (0x7f <= u && u <= 0x9f)
}

/// Calls `char::is_uppercase`: within ASCII it holds of `A` to `Z` only;
/// beyond ASCII the answer is named by `non_ascii_uppercase`.
#[verifier::external_body]
pub fn char_is_uppercase(c: char) -> (r: bool)
    ensures
        r == spec_is_uppercase(c),
        (c as u32) >= 0x80 ==> r == non_ascii_uppercase(c),
{
    c.is_uppercase()
}

/// ASCII lower-casing of one character (`char::to_ascii_lowercase`).
pub fn to_ascii_lower(c: char) -> (r: char)
    ensures
        r == ascii_lower(c),
{
    if 'A' <= c && c <= 'Z' {
        let u: u32 = (c as u32) + 32;
        assert(u <= 0x7f);
        u as u8 as char
    } else {
        c
    }
}

/// ASCII lower-casing of a whole sequence.
pub open spec fn ascii_lower_seq(s: Seq<char>) -> Seq<char> {
    s.map_values(|c: char| ascii_lower(c))
}

/// Number of bytes of the UTF-8 encoding of `c` (`char::len_utf8`).
pub open spec fn utf8_width(c: char) -> nat {
    if (c as u32) < 0x80 {
        1
    } else if (c as u32) < 0x800 {
        2
    } else if (c as u32) < 0x10000 {
        3
    } else {
        4
    }
}

/// Number of bytes of the UTF-8 encoding of a character sequence.
pub open spec fn utf8_len(s: Seq<char>) -> nat
    decreases s.len(),
{
    if s.len() == 0 {
        0
    } else {
        utf8_len(s.drop_last()) + utf8_width(s.last())
    }
}

/// `char::len_utf8`.
pub fn char_utf8_width(c: char) -> (n: usize)
    ensures
        n == utf8_width(c),
        1 <= n <= 4,
{
    let u = c as u32;
    if u < 0x80 {
        1
    } else if u < 0x800 {
        2
    } else if u < 0x10000 {
        3
    } else {
        4
    }
}

pub proof fn lemma_utf8_len_bounds(s: Seq<char>)
    ensures
        s.len() <= utf8_len(s) <= 4 * s.len(),
    decreases s.len(),
{
    if s.len() > 0 {
        lemma_utf8_len_bounds(s.drop_last());
    }
}

pub proof fn lemma_utf8_len_take(s: Seq<char>, i: int)
    requires
        0 <= i < s.len(),
    ensures
        utf8_len(s.take(i + 1)) == utf8_len(s.take(i)) + utf8_width(s[i]),
{
    assert(s.take(i + 1).drop_last() =~= s.take(i));
}

/// Longer prefixes have longer encodings.
pub proof fn lemma_utf8_len_take_strict(s: Seq<char>, i: int, j: int)
    requires
        0 <= i < j <= s.len(),
    ensures
        utf8_len(s.take(i)) < utf8_len(s.take(j)),
    decreases j - i,
{
    lemma_utf8_len_take(s, j - 1);
    if i < j - 1 {
        lemma_utf8_len_take_strict(s, i, j - 1);
    }
}

/// Byte offset `b` of the UTF-8 encoding of `s` lies between two characters
/// (or at either end): it is the encoded length of a prefix of `s`.
pub open spec fn is_utf8_boundary(s: Seq<char>, b: int) -> bool {
    exists|i: int| 0 <= i <= s.len() && #[trigger] utf8_len(s.take(i)) == b
}

/// Character positions and UTF-8 byte offsets determine each other: the
/// offset of a position lies on a boundary, and positions with the same
/// offset are the same position.
pub proof fn law_byte_offsets_identify_positions(s: Seq<char>, i: int, j: int)
    requires
        0 <= i <= s.len(),
        0 <= j <= s.len(),
        utf8_len(s.take(i)) == utf8_len(s.take(j)),
    ensures
        i == j,
        is_utf8_boundary(s, utf8_len(s.take(i)) as int),
{
    if i < j {
        lemma_utf8_len_take_strict(s, i, j);
    } else if j < i {
        lemma_utf8_len_take_strict(s, j, i);
    }
}

/// Byte length of the UTF-8 encoding of a character sequence; `None` when
/// it does not fit in `usize`.
pub fn utf8_len_of(v: &[char]) -> (r: Option<usize>)
    ensures
        r matches Some(n) ==> n == utf8_len(v@),
        r is None ==> utf8_len(v@) > usize::MAX,
{
    let mut total: usize = 0;
    let mut i: usize = 0;
    while i < v.len()
        invariant
            i <= v.len(),
            total == utf8_len(v@.take(i as int)),
        decreases v.len() - i,
    {
        proof {
            lemma_utf8_len_take(v@, i as int);
        }
        let w = char_utf8_width(v[i]);
        if total > usize::MAX - w {
            proof {
                lemma_utf8_len_prefix_le(v@, i as int + 1);
            }
            return None;
        }
        total = total + w;
        i += 1;
    }
    assert(v@.take(v@.len() as int) =~= v@);
    Some(total)
}

pub proof fn lemma_utf8_len_prefix_le(s: Seq<char>, i: int)
    requires
        0 <= i <= s.len(),
    ensures
        utf8_len(s.take(i)) <= utf8_len(s),
    decreases s.len() - i,
{
    if i < s.len() {
        lemma_utf8_len_take(s, i);
        lemma_utf8_len_prefix_le(s, i + 1);
    } else {
        assert(s.take(i) =~= s);
    }
}

// ---------------------------------------------------------------------------
// strings and character vectors
// ---------------------------------------------------------------------------

/// The characters of a string slice, in order.
pub fn chars_of(s: &str) -> (v: Vec<char>)
    ensures
        v@ == s@,
{
    let mut v: Vec<char> = Vec::new();
    for c in it: s.chars()
        invariant
            it.seq() == s@,
            v@ == it.seq().take(it.index()),
    {
        v.push(c);
    }
    v
}

/// Appends one character to a string (`String::push`); the string gains
/// exactly that character at its end.
#[verifier::external_body]
pub fn push_char(s: &mut String, c: char)
    ensures
        final(s)@ == old(s)@.push(c),
{
    s.push(c);
}

/// A string holding exactly the given characters.
pub fn string_from_chars(v: &[char]) -> (s: String)
    ensures
        s@ == v@,
{
    let mut s = String::new();
    let mut i: usize = 0;
    while i < v.len()
        invariant
            i <= v.len(),
            s@ == v@.take(i as int),
        decreases v.len() - i,
    {
        push_char(&mut s, v[i]);
        assert(v@.take(i as int).push(v@[i as int]) == v@.take(i + 1));
        i += 1;
    }
    assert(v@.take(v@.len() as int) =~= v@);
    s
}

/// A string holding the characters `v[start..end]`.
pub fn string_from_range(v: &[char], start: usize, end: usize) -> (s: String)
    requires
        start <= end <= v@.len(),
    ensures
        s@ == v@.subrange(start as int, end as int),
{
    let mut s = String::new();
    let mut i: usize = start;
    while i < end
        invariant
            start <= i <= end <= v.len(),
            s@ == v@.subrange(start as int, i as int),
        decreases end - i,
    {
        push_char(&mut s, v[i]);
        assert(v@.subrange(start as int, i as int).push(v@[i as int]) == v@.subrange(
            start as int,
            i + 1,
        ));
        i += 1;
    }
    s
}

/// A string of one character.
pub fn string_of_char(c: char) -> (s: String)
    ensures
        s@ == seq![c],
{
    let mut s = String::new();
    push_char(&mut s, c);
    s
}

/// A copy of a string slice as an owned string.
pub fn owned(s: &str) -> (r: String)
    ensures
        r@ == s@,
{
    s.to_owned()
}

/// The characters of a string followed by those of another.
pub fn concat_str(a: &str, b: &str) -> (r: String)
    ensures
        r@ == a@ + b@,
{
    let mut r = a.to_owned();
    r.append(b);
    r
}

/// Whether two character sequences are equal.
pub fn chars_equal(a: &[char], b: &[char]) -> (r: bool)
    ensures
        r == (a@ == b@),
{
    if a.len() != b.len() {
        return false;
    }
    let mut i: usize = 0;
    while i < a.len()
        invariant
            a.len() == b.len(),
            i <= a.len(),
            forall|j: int| 0 <= j < i ==> a@[j] == b@[j],
        decreases a.len() - i,
    {
        if a[i] != b[i] {
            return false;
        }
        i += 1;
    }
    assert(a@ =~= b@);
    true
}

/// Whether two strings hold the same characters.
pub fn str_equal(a: &str, b: &str) -> (r: bool)
    ensures
        r == (a@ == b@),
{
    let va = chars_of(a);
    let vb = chars_of(b);
    chars_equal(&va, &vb)
}

/// Whether `needle` occurs in `hay` starting at index `at`.
pub open spec fn occurs_at(hay: Seq<char>, needle: Seq<char>, at: int) -> bool {
    0 <= at && at + needle.len() <= hay.len() && hay.subrange(at, at + needle.len()) == needle
}

/// Whether `needle` occurs somewhere in `hay`.
pub open spec fn contains_seq(hay: Seq<char>, needle: Seq<char>) -> bool {
    exists|at: int| occurs_at(hay, needle, at)
}

/// `needle` occurs at index `at` of `hay`.
pub fn matches_at(hay: &[char], needle: &[char], at: usize) -> (r: bool)
    ensures
        r == occurs_at(hay@, needle@, at as int),
{
    if at > hay.len() || needle.len() > hay.len() - at {
        return false;
    }
    let mut j: usize = 0;
    while j < needle.len()
        invariant
            at + needle.len() <= hay.len(),
            j <= needle.len(),
            forall|k: int| 0 <= k < j ==> hay@[at + k] == needle@[k],
        decreases needle.len() - j,
    {
        if hay[at + j] != needle[j] {
            assert(hay@.subrange(at as int, at + needle.len())[j as int] != needle@[j as int]);
            return false;
        }
        j += 1;
    }
    assert(hay@.subrange(at as int, at + needle.len()) =~= needle@);
    true
}

/// Whether `needle` occurs somewhere in `hay`.
pub fn contains_chars(hay: &[char], needle: &[char]) -> (r: bool)
    ensures
        r == contains_seq(hay@, needle@),
{
    let mut at: usize = 0;
    while at < hay.len()
        invariant
            at <= hay.len(),
            forall|k: int| 0 <= k < at ==> !occurs_at(hay@, needle@, k),
        decreases hay.len() - at,
    {
        if matches_at(hay, needle, at) {
            return true;
        }
        at += 1;
    }
    matches_at(hay, needle, at)
}

/// Whether a character occurs in a sequence.
pub fn contains_char(v: &[char], c: char) -> (r: bool)
    ensures
        r == v@.contains(c),
{
    let mut i: usize = 0;
    while i < v.len()
        invariant
            i <= v.len(),
            forall|j: int| 0 <= j < i ==> v@[j] != c,
        decreases v.len() - i,
    {
        if v[i] == c {
            return true;
        }
        i += 1;
    }
    false
}

/// Whether `p` is a prefix of `s`.
pub fn starts_with_chars(s: &[char], p: &[char]) -> (r: bool)
    ensures
        r == p@.is_prefix_of(s@),
{
    let r = matches_at(s, p, 0);
    proof {
        if r {
            assert(s@.subrange(0, p@.len() as int) == p@);
        }
        if p@.is_prefix_of(s@) {
            assert(s@.subrange(0, p@.len() as int) =~= p@);
        }
    }
    r
}

// ---------------------------------------------------------------------------
// decimal numbers
// ---------------------------------------------------------------------------

/// Decimal digit character of a value below ten.
pub open spec fn digit_char(d: nat) -> char {
    ((d + 48) as u32) as char
}

/// Decimal representation of a natural number, without sign or padding.
pub open spec fn decimal(n: nat) -> Seq<char>
    decreases n,
{
    if n < 10 {
        seq![digit_char(n)]
    } else {
        decimal(n / 10).push(digit_char(n % 10))
    }
}

/// Decimal representation of `n` (`usize::to_string`).
pub fn usize_to_string(n: usize) -> (s: String)
    ensures
        s@ == decimal(n as nat),
    decreases n,
{
    let d: u8 = (n % 10) as u8;
    let c = (d + 48) as char;
    if n < 10 {
        string_of_char(c)
    } else {
        let mut s = usize_to_string(n / 10);
        push_char(&mut s, c);
        s
    }
}

/// Decimal representation of `n` (`u64::to_string`).
pub fn u64_to_string(n: u64) -> (s: String)
    ensures
        s@ == decimal(n as nat),
    decreases n,
{
    let d: u8 = (n % 10) as u8;
    let c = (d + 48) as char;
    if n < 10 {
        string_of_char(c)
    } else {
        let mut s = u64_to_string(n / 10);
        push_char(&mut s, c);
        s
    }
}

// ---------------------------------------------------------------------------
// line structure
// ---------------------------------------------------------------------------

/// The pieces of `s` between `'\n'` separators; there is always one more
/// piece than there are newlines.
pub open spec fn newline_pieces(s: Seq<char>) -> Seq<Seq<char>>
    decreases s.len(),
{
    if s.len() == 0 {
        seq![Seq::<char>::empty()]
    } else {
        let p = newline_pieces(s.drop_last());
        if s.last() == '\n' {
            p.push(Seq::<char>::empty())
        } else {
            p.update(p.len() - 1, p.last().push(s.last()))
        }
    }
}

pub proof fn lemma_newline_pieces_nonempty(s: Seq<char>)
    ensures
        newline_pieces(s).len() >= 1,
    decreases s.len(),
{
    if s.len() > 0 {
        lemma_newline_pieces_nonempty(s.drop_last());
    }
}

/// A line without the carriage return that preceded its `'\n'`.
pub open spec fn strip_cr(l: Seq<char>) -> Seq<char> {
    if l.len() > 0 && l.last() == '\r' {
        l.drop_last()
    } else {
        l
    }
}

/// The lines of `s` as std's `str::lines` yields them: split at `'\n'`, a
/// `'\r'` just before a `'\n'` dropped, and no empty line after a final
/// `'\n'`.
pub open spec fn text_lines(s: Seq<char>) -> Seq<Seq<char>> {
    let p = newline_pieces(s);
    let init = p.drop_last().map_values(|l: Seq<char>| strip_cr(l));
    if p.last().len() == 0 {
        init
    } else {
        init.push(p.last())
    }
}

/// The views of a sequence of character vectors.
pub open spec fn views(v: Seq<Vec<char>>) -> Seq<Seq<char>> {
    v.map_values(|x: Vec<char>| x@)
}

/// Length of line `n` of `s`, or 0 when there is no such line.
pub open spec fn line_len(s: Seq<char>, n: int) -> nat {
    if 0 <= n < text_lines(s).len() {
        text_lines(s)[n].len()
    } else {
        0
    }
}

/// Line `n` of `s`, or the empty sequence when there is no such line.
pub open spec fn nth_line(s: Seq<char>, n: int) -> Seq<char> {
    if 0 <= n < text_lines(s).len() {
        text_lines(s)[n]
    } else {
        Seq::empty()
    }
}

/// The characters of `v` without a final `'\r'`.
fn strip_cr_vec(v: Vec<char>) -> (r: Vec<char>)
    ensures
        r@ == strip_cr(v@),
{
    let mut v = v;
    if v.len() > 0 && v[v.len() - 1] == '\r' {
        v.pop();
    }
    v
}

/// The lines of a text, as `str::lines` yields them.
pub fn lines_of(t: &[char]) -> (r: Vec<Vec<char>>)
    ensures
        views(r@) == text_lines(t@),
{
    let mut done: Vec<Vec<char>> = Vec::new();
    let mut cur: Vec<char> = Vec::new();
    let mut i: usize = 0;
    proof {
        assert(t@.take(0) =~= Seq::<char>::empty());
        assert(views(done@) =~= newline_pieces(t@.take(0)).drop_last().map_values(
            |l: Seq<char>| strip_cr(l),
        ));
    }
    while i < t.len()
        invariant
            i <= t.len(),
            newline_pieces(t@.take(i as int)).len() >= 1,
            views(done@) == newline_pieces(t@.take(i as int)).drop_last().map_values(
                |l: Seq<char>| strip_cr(l),
            ),
            cur@ == newline_pieces(t@.take(i as int)).last(),
        decreases t.len() - i,
    {
        let c = t[i];
        let ghost p = newline_pieces(t@.take(i as int));
        let ghost old_done = views(done@);
        proof {
            let s = t@.take(i as int + 1);
            assert(s.drop_last() =~= t@.take(i as int));
            assert(s.last() == c);
            lemma_newline_pieces_nonempty(t@.take(i as int + 1));
        }
        if c == '\n' {
            let finished = strip_cr_vec(cur);
            done.push(finished);
            cur = Vec::new();
            proof {
                let p2 = p.push(Seq::<char>::empty());
                assert(p2.drop_last() =~= p);
                assert(p.map_values(|l: Seq<char>| strip_cr(l)) =~= p.drop_last().map_values(
                    |l: Seq<char>| strip_cr(l),
                ).push(strip_cr(p.last())));
                assert(views(done@) =~= old_done.push(finished@));
                assert(cur@ =~= p2.last());
            }
        } else {
            cur.push(c);
            proof {
                let p2 = p.update(p.len() - 1, p.last().push(c));
                assert(p2.drop_last() =~= p.drop_last());
            }
        }
        i += 1;
    }
    proof {
        assert(t@.take(t@.len() as int) =~= t@);
    }
    if cur.len() > 0 {
        let ghost before = views(done@);
        done.push(cur);
        assert(views(done@) =~= before.push(cur@));
    }
    done
}

/// The pieces of a text between `'\n'` separators (`str::split('\n')`).
pub fn split_pieces(t: &Vec<char>) -> (r: Vec<Vec<char>>)
    ensures
        views(r@) == newline_pieces(t@),
{
    let mut done: Vec<Vec<char>> = Vec::new();
    let mut cur: Vec<char> = Vec::new();
    let mut i: usize = 0;
    proof {
        assert(t@.take(0) =~= Seq::<char>::empty());
        assert(views(done@) =~= newline_pieces(t@.take(0)).drop_last());
    }
    while i < t.len()
        invariant
            i <= t.len(),
            newline_pieces(t@.take(i as int)).len() >= 1,
            views(done@) == newline_pieces(t@.take(i as int)).drop_last(),
            cur@ == newline_pieces(t@.take(i as int)).last(),
        decreases t.len() - i,
    {
        let c = t[i];
        let ghost p = newline_pieces(t@.take(i as int));
        let ghost old_done = views(done@);
        proof {
            let s = t@.take(i as int + 1);
            assert(s.drop_last() =~= t@.take(i as int));
            assert(s.last() == c);
            lemma_newline_pieces_nonempty(t@.take(i as int + 1));
        }
        if c == '\n' {
            let ghost finished = cur@;
            done.push(cur);
            cur = Vec::new();
            proof {
                let p2 = p.push(Seq::<char>::empty());
                assert(p2.drop_last() =~= p);
                assert(p =~= p.drop_last().push(p.last()));
                assert(views(done@) =~= old_done.push(finished));
                assert(cur@ =~= p2.last());
            }
        } else {
            cur.push(c);
            proof {
                let p2 = p.update(p.len() - 1, p.last().push(c));
                assert(p2.drop_last() =~= p.drop_last());
            }
        }
        i += 1;
    }
    proof {
        assert(t@.take(t@.len() as int) =~= t@);
    }
    let ghost before = views(done@);
    let ghost last = cur@;
    done.push(cur);
    proof {
        let p = newline_pieces(t@);
        assert(views(done@) =~= before.push(last));
        assert(p =~= p.drop_last().push(p.last()));
    }
    done
}

/// Start positions of the lines of `s`: position 0 and the position after
/// every `'\n'`.
pub open spec fn newline_starts(s: Seq<char>) -> Seq<int>
    decreases s.len(),
{
    if s.len() == 0 {
        seq![0int]
    } else {
        let p = newline_starts(s.drop_last());
        if s.last() == '\n' {
            p.push(s.len() as int)
        } else {
            p
        }
    }
}

/// The start positions as machine integers.
pub open spec fn usize_ints(v: Seq<usize>) -> Seq<int> {
    v.map_values(|x: usize| x as int)
}

/// Every position of `newline_starts(s)` lies in `0..=s.len()`, the first is
/// 0 and they strictly increase.
pub proof fn lemma_newline_starts_shape(s: Seq<char>)
    ensures
        newline_starts(s).len() >= 1,
        newline_starts(s)[0] == 0,
        forall|i: int| 0 <= i < newline_starts(s).len() ==> 0 <= #[trigger] newline_starts(s)[i] <= s.len(),
        forall|i: int, j: int|
            0 <= i < j < newline_starts(s).len() ==> #[trigger] newline_starts(s)[i] < #[trigger] newline_starts(s)[j],
    decreases s.len(),
{
    if s.len() > 0 {
        lemma_newline_starts_shape(s.drop_last());
    }
}

/// Each piece ends where the next line starts, less its `'\n'`; the last
/// one ends at the end of the text. Pieces hold no character the text does
/// not hold.
pub proof fn lemma_pieces_and_starts(s: Seq<char>)
    ensures
        newline_pieces(s).len() == newline_starts(s).len(),
        forall|k: int|
            0 <= k < newline_pieces(s).len() ==> #[trigger] newline_starts(s)[k] + newline_pieces(s)[k].len() == (
            if k + 1 < newline_pieces(s).len() {
                newline_starts(s)[k + 1] - 1
            } else {
                s.len() as int
            }),
        forall|k: int, j: int|
            0 <= k < newline_pieces(s).len() && 0 <= j < newline_pieces(s)[k].len() ==> s.contains(
                #[trigger] newline_pieces(s)[k][j],
            ),
    decreases s.len(),
{
    if s.len() > 0 {
        let s0 = s.drop_last();
        lemma_pieces_and_starts(s0);
        lemma_newline_pieces_nonempty(s0);
        let p0 = newline_pieces(s0);
        assert forall|k: int, j: int|
            0 <= k < newline_pieces(s).len() && 0 <= j < newline_pieces(s)[k].len() implies s.contains(
            #[trigger] newline_pieces(s)[k][j],
        ) by {
            let x = newline_pieces(s)[k][j];
            if s.last() == '\n' {
                if k < p0.len() {
                    assert(s0.contains(x));
                    let i = choose|i: int| 0 <= i < s0.len() && s0[i] == x;
                    assert(s[i] == x);
                }
            } else if k == p0.len() - 1 && j == p0[k].len() {
                assert(s[s.len() - 1] == x);
            } else {
                assert(x == p0[k][j]);
                assert(s0.contains(x));
                let i = choose|i: int| 0 <= i < s0.len() && s0[i] == x;
                assert(s[i] == x);
            }
        }
    }
}

/// On a text without carriage returns, line `k` is as long as piece `k`.
pub proof fn lemma_line_len_is_piece_len(t: Seq<char>, k: int)
    requires
        0 <= k < newline_pieces(t).len(),
        !t.contains('\r'),
    ensures
        line_len(t, k) == newline_pieces(t)[k].len(),
{
    let pieces = newline_pieces(t);
    let ls = text_lines(t);
    lemma_pieces_and_starts(t);
    lemma_newline_pieces_nonempty(t);
    if k + 1 < pieces.len() {
        assert(ls[k] == strip_cr(pieces[k]));
        if pieces[k].len() > 0 {
            assert(t.contains(pieces[k][pieces[k].len() - 1]));
        }
    } else if pieces[k].len() > 0 {
        assert(ls[k] == pieces[k]);
    }
}

/// Start positions of the lines of a text (0 and every position after a
/// `'\n'`).
pub fn line_starts_of(t: &[char]) -> (r: Vec<usize>)
    ensures
        usize_ints(r@) == newline_starts(t@),
{
    let mut r: Vec<usize> = Vec::new();
    r.push(0);
    let mut i: usize = 0;
    proof {
        assert(t@.take(0) =~= Seq::<char>::empty());
        assert(usize_ints(r@) =~= seq![0int]);
    }
    while i < t.len()
        invariant
            i <= t.len(),
            usize_ints(r@) == newline_starts(t@.take(i as int)),
        decreases t.len() - i,
    {
        let ghost before = usize_ints(r@);
        proof {
            let s = t@.take(i as int + 1);
            assert(s.drop_last() =~= t@.take(i as int));
        }
        if t[i] == '\n' {
            r.push(i + 1);
            assert(usize_ints(r@) =~= before.push(i + 1));
        }
        i += 1;
    }
    assert(t@.take(t@.len() as int) =~= t@);
    r
}

} // verus!

verus! {

/// Line start positions as the gap buffer reports them: those of
/// `newline_starts`, without the position after a `'\n'` that ends the text.
pub open spec fn gap_line_starts(s: Seq<char>) -> Seq<int> {
    if s.len() > 0 && s.last() == '\n' {
        newline_starts(s.drop_last())
    } else {
        newline_starts(s)
    }
}

} // verus!

verus! {

/// Most characters a text handled by the editor may hold (a `char` vector
/// cannot exceed `isize::MAX` bytes).
pub const MAX_TEXT_CHARS: usize = usize::MAX / 8;

/// Characters spanned by a sequence of lines, each counted with one
/// separator.
pub open spec fn lines_span(ls: Seq<Seq<char>>) -> nat
    decreases ls.len(),
{
    if ls.len() == 0 {
        0
    } else {
        lines_span(ls.drop_last()) + ls.last().len() + 1
    }
}

pub proof fn lemma_pieces_span(s: Seq<char>)
    ensures
        lines_span(newline_pieces(s)) == s.len() + 1,
    decreases s.len(),
{
    lemma_newline_pieces_nonempty(s);
    if s.len() == 0 {
        let q = newline_pieces(s);
        assert(q.drop_last() =~= Seq::<Seq<char>>::empty());
        assert(q.last() =~= Seq::<char>::empty());
        assert(lines_span(q) == lines_span(q.drop_last()) + q.last().len() + 1);
        assert(lines_span(Seq::<Seq<char>>::empty()) == 0);
    } else {
        let p = newline_pieces(s.drop_last());
        lemma_pieces_span(s.drop_last());
        lemma_newline_pieces_nonempty(s.drop_last());
        assert(lines_span(p) == lines_span(p.drop_last()) + p.last().len() + 1);
        if s.last() == '\n' {
            let q = p.push(Seq::<char>::empty());
            assert(newline_pieces(s) == q);
            assert(q.drop_last() =~= p);
            assert(lines_span(q) == lines_span(q.drop_last()) + q.last().len() + 1);
        } else {
            let q = p.update(p.len() - 1, p.last().push(s.last()));
            assert(q.drop_last() =~= p.drop_last());
            assert(newline_pieces(s) == q);
            assert(lines_span(q) == lines_span(q.drop_last()) + q.last().len() + 1);
        }
    }
}

pub proof fn lemma_strip_span(ls: Seq<Seq<char>>)
    ensures
        lines_span(ls.map_values(|l: Seq<char>| strip_cr(l))) <= lines_span(ls),
    decreases ls.len(),
{
    if ls.len() > 0 {
        let m = ls.map_values(|l: Seq<char>| strip_cr(l));
        assert(m.drop_last() =~= ls.drop_last().map_values(|l: Seq<char>| strip_cr(l)));
        lemma_strip_span(ls.drop_last());
    }
}

pub proof fn lemma_lines_span(s: Seq<char>)
    ensures
        lines_span(text_lines(s)) <= s.len() + 1,
{
    let p = newline_pieces(s);
    lemma_newline_pieces_nonempty(s);
    lemma_pieces_span(s);
    lemma_strip_span(p.drop_last());
    let init = p.drop_last().map_values(|l: Seq<char>| strip_cr(l));
    if p.last().len() != 0 {
        assert(init.push(p.last()).drop_last() =~= init);
    }
}

pub proof fn lemma_span_take(ls: Seq<Seq<char>>, k: int)
    requires
        0 <= k <= ls.len(),
    ensures
        lines_span(ls.take(k)) <= lines_span(ls),
        k < ls.len() ==> lines_span(ls.take(k + 1)) == lines_span(ls.take(k)) + ls[k].len() + 1,
        k < ls.len() ==> lines_span(ls.take(k)) + ls[k].len() + 1 <= lines_span(ls),
    decreases ls.len() - k,
{
    if k < ls.len() {
        assert(ls.take(k + 1).drop_last() =~= ls.take(k));
        lemma_span_take(ls, k + 1);
    } else {
        assert(ls.take(k) =~= ls);
    }
}

/// Number of lines the cursor logic counts: one for an empty text.
pub open spec fn line_count(s: Seq<char>) -> nat {
    if s.len() == 0 {
        1
    } else {
        text_lines(s).len()
    }
}

/// Character position of (line, column) counting every line with one
/// separator; a column beyond the line is clamped to its end, and a line
/// beyond the text gives the position after all lines.
pub open spec fn line_col_position(ls: Seq<Seq<char>>, line: int, column: int) -> int {
    if 0 <= line < ls.len() {
        lines_span(ls.take(line)) + if column < ls[line].len() {
            column
        } else {
            ls[line].len() as int
        }
    } else {
        lines_span(ls) as int
    }
}

/// Length of line `n` of a line table, or 0 when there is no such line.
pub fn line_length_in(lines: &Vec<Vec<char>>, n: usize) -> (r: usize)
    ensures
        r == (if n < lines@.len() { lines@[n as int]@.len() } else { 0 }),
{
    if n < lines.len() {
        lines[n].len()
    } else {
        0
    }
}

/// The position `line_col_position` describes, computed over a line table.
pub fn position_in_lines(lines: &Vec<Vec<char>>, line: usize, column: usize) -> (r: usize)
    requires
        lines_span(views(lines@)) <= usize::MAX,
    ensures
        r == line_col_position(views(lines@), line as int, column as int),
{
    let ghost ls = views(lines@);
    let mut pos: usize = 0;
    let mut i: usize = 0;
    while i < lines.len()
        invariant
            ls == views(lines@),
            lines_span(ls) <= usize::MAX,
            i <= lines@.len(),
            i <= line,
            pos == lines_span(ls.take(i as int)),
        decreases lines.len() - i,
    {
        proof {
            lemma_span_take(ls, i as int);
        }
        let len = lines[i].len();
        if i == line {
            let add = if column < len { column } else { len };
            return pos + add;
        }
        pos = pos + len + 1;
        i += 1;
    }
    proof {
        assert(ls.take(lines@.len() as int) =~= ls);
    }
    pos
}


// ---------------------------------------------------------------------------
// trimming whitespace (`str::trim`)
// ---------------------------------------------------------------------------

/// `s` without its leading whitespace.
pub open spec fn trim_start(s: Seq<char>) -> Seq<char>
    decreases s.len(),
{
    if s.len() > 0 && spec_is_whitespace(s[0]) {
        trim_start(s.drop_first())
    } else {
        s
    }
}

/// `s` without its trailing whitespace.
pub open spec fn trim_end(s: Seq<char>) -> Seq<char>
    decreases s.len(),
{
    if s.len() > 0 && spec_is_whitespace(s.last()) {
        trim_end(s.drop_last())
    } else {
        s
    }
}

/// `s` without leading and trailing whitespace.
pub open spec fn trimmed(s: Seq<char>) -> Seq<char> {
    trim_end(trim_start(s))
}

proof fn lemma_trim_start_at(s: Seq<char>, a: int)
    requires
        0 <= a <= s.len(),
        forall|k: int| 0 <= k < a ==> spec_is_whitespace(#[trigger] s[k]),
        a == s.len() || !spec_is_whitespace(s[a]),
    ensures
        trim_start(s) == s.skip(a),
    decreases a,
{
    if a > 0 {
        assert(spec_is_whitespace(s[0]));
        assert forall|k: int| 0 <= k < a - 1 implies spec_is_whitespace(#[trigger] s.drop_first()[k]) by {
            assert(s.drop_first()[k] == s[k + 1]);
        }
        if a < s.len() {
            assert(s.drop_first()[a - 1] == s[a]);
        }
        lemma_trim_start_at(s.drop_first(), a - 1);
        assert(s.drop_first().skip(a - 1) =~= s.skip(a));
    } else {
        assert(s.skip(0) =~= s);
    }
}

proof fn lemma_trim_end_at(s: Seq<char>, b: int)
    requires
        0 <= b <= s.len(),
        forall|k: int| b <= k < s.len() ==> spec_is_whitespace(#[trigger] s[k]),
        b == 0 || !spec_is_whitespace(s[b - 1]),
    ensures
        trim_end(s) == s.take(b),
    decreases s.len() - b,
{
    if b < s.len() {
        assert(spec_is_whitespace(s.last()));
        assert forall|k: int| b <= k < s.len() - 1 implies spec_is_whitespace(#[trigger] s.drop_last()[k]) by {
            assert(s.drop_last()[k] == s[k]);
        }
        if b > 0 {
            assert(s.drop_last()[b - 1] == s[b - 1]);
        }
        lemma_trim_end_at(s.drop_last(), b);
        assert(s.drop_last().take(b) =~= s.take(b));
    } else {
        assert(s.take(b) =~= s);
    }
}

/// `s` without leading and trailing whitespace (`str::trim`).
pub fn trim_text(s: &str) -> (r: String)
    ensures
        r@ == trimmed(s@),
{
    let v = chars_of(s);
    let mut a: usize = 0;
    while a < v.len() && char_is_whitespace(v[a])
        invariant
            a <= v.len(),
            v@ == s@,
            forall|k: int| 0 <= k < a ==> spec_is_whitespace(#[trigger] v@[k]),
        decreases v.len() - a,
    {
        a += 1;
    }
    let mut b: usize = v.len();
    while b > a && char_is_whitespace(v[b - 1])
        invariant
            a <= b <= v.len(),
            v@ == s@,
            forall|k: int| b <= k < v.len() ==> spec_is_whitespace(#[trigger] v@[k]),
        decreases b,
    {
        b -= 1;
    }
    proof {
        lemma_trim_start_at(s@, a as int);
        let t = s@.skip(a as int);
        assert forall|k: int| b - a <= k < t.len() implies spec_is_whitespace(#[trigger] t[k]) by {
            assert(t[k] == s@[k + a]);
        }
        if b > a {
            assert(t[b - a - 1] == s@[b - 1]);
        }
        lemma_trim_end_at(t, (b - a) as int);
        assert(t.take((b - a) as int) =~= s@.subrange(a as int, b as int));
    }
    string_from_range(&v, a, b)
}

/// `s` with every occurrence of `p` replaced by `r`, taken from the left
/// without overlaps (`str::replace`); an empty `p` matches before every
/// character and at the end.
pub open spec fn replace_all(s: Seq<char>, p: Seq<char>, r: Seq<char>) -> Seq<char>
    decreases s.len(),
{
    if p.len() == 0 {
        if s.len() == 0 {
            r
        } else {
            r + seq![s[0]] + replace_all(s.drop_first(), p, r)
        }
    } else if s.len() == 0 {
        s
    } else if p.is_prefix_of(s) {
        r + replace_all(s.skip(p.len() as int), p, r)
    } else {
        seq![s[0]] + replace_all(s.drop_first(), p, r)
    }
}

fn push_chars(out: &mut Vec<char>, v: &Vec<char>)
    ensures
        final(out)@ == old(out)@ + v@,
{
    let mut i: usize = 0;
    while i < v.len()
        invariant
            i <= v.len(),
            out@ == old(out)@ + v@.take(i as int),
        decreases v.len() - i,
    {
        out.push(v[i]);
        assert(v@.take(i as int).push(v@[i as int]) =~= v@.take(i + 1));
        i += 1;
    }
    assert(v@.take(v@.len() as int) =~= v@);
}

/// `str::replace`: every occurrence of `from` in `s` replaced by `to`.
pub fn replace_text(s: &str, from: &str, to: &str) -> (out: String)
    ensures
        out@ == replace_all(s@, from@, to@),
{
    let v = chars_of(s);
    let p = chars_of(from);
    let r = chars_of(to);
    let mut out: Vec<char> = Vec::new();
    let mut i: usize = 0;
    proof {
        assert(v@.skip(0) =~= v@);
    }
    while i < v.len()
        invariant
            i <= v.len(),
            v@ == s@,
            p@ == from@,
            r@ == to@,
            out@ + replace_all(v@.skip(i as int), p@, r@) == replace_all(v@, p@, r@),
        decreases v.len() - i,
    {
        let ghost rest = v@.skip(i as int);
        if p.len() == 0 {
            proof {
                assert(rest.drop_first() =~= v@.skip(i + 1));
                assert(out@ + r@ + seq![v@[i as int]] + replace_all(v@.skip(i + 1), p@, r@) =~= out@ + replace_all(
                    rest,
                    p@,
                    r@,
                ));
            }
            push_chars(&mut out, &r);
            out.push(v[i]);
            i += 1;
        } else if matches_at(&v, &p, i) {
            proof {
                assert(p@.is_prefix_of(rest)) by {
                    assert(v@.subrange(i as int, i + p@.len()) =~= rest.take(p@.len() as int));
                }
                assert(rest.skip(p@.len() as int) =~= v@.skip(i + p@.len()));
                assert(out@ + r@ + replace_all(v@.skip(i + p@.len()), p@, r@) =~= out@ + replace_all(rest, p@, r@));
            }
            push_chars(&mut out, &r);
            i += p.len();
        } else {
            proof {
                assert(!p@.is_prefix_of(rest)) by {
                    if p@.is_prefix_of(rest) {
                        assert(v@.subrange(i as int, i + p@.len()) =~= p@);
                    }
                }
                assert(rest.drop_first() =~= v@.skip(i + 1));
                assert(out@.push(v@[i as int]) + replace_all(v@.skip(i + 1), p@, r@) =~= out@ + replace_all(
                    rest,
                    p@,
                    r@,
                ));
            }
            out.push(v[i]);
            i += 1;
        }
    }
    if p.len() == 0 {
        proof {
            assert(v@.skip(i as int).len() == 0);
        }
        push_chars(&mut out, &r);
    } else {
        proof {
            assert(v@.skip(i as int).len() == 0);
            assert(out@ + Seq::<char>::empty() =~= out@);
        }
    }
    string_from_chars(&out)
}

} // verus!
