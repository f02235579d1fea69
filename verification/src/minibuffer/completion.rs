//! Completion of file paths and command names.
use crate::collate::{insert_sorted, sorted_copy, sorted_texts, texts};
use crate::error::AltreError;
use crate::file::operations::{buffer_name_of, file_name_or_empty};
use crate::file::path::{expand_path, parent_of, path_from_text, path_parent, path_text};
use std::path::PathBuf;
use crate::text::{chars_of, concat_str, owned, starts_with_chars, string_from_chars, string_from_range};
use vstd::prelude::*;

verus! {

/// How a directory entry is offered: its name, with `/` after a
/// directory's.
pub open spec fn entry_label(name: Seq<char>, is_dir: bool) -> Seq<char> {
    if is_dir {
        name + "/"@
    } else {
        name
    }
}

/// The labels of the entries of a listing (name, is a directory) that are
/// shown: hidden ones (starting with `.`) only when `show_hidden`.
pub open spec fn shown_labels(show_hidden: bool, listing: Seq<(Seq<char>, bool)>) -> Seq<Seq<char>>
    decreases listing.len(),
{
    if listing.len() == 0 {
        Seq::empty()
    } else {
        let rest = shown_labels(show_hidden, listing.drop_last());
        let e = listing.last();
        if show_hidden || !(e.0.len() > 0 && e.0[0] == '.') {
            rest.push(entry_label(e.0, e.1))
        } else {
            rest
        }
    }
}

/// A directory listing as names and directory flags.
pub open spec fn listing_view(listing: Seq<(String, bool)>) -> Seq<(Seq<char>, bool)> {
    listing.map_values(|e: (String, bool)| (e.0@, e.1))
}

/// Something that offers completions for an input.
pub trait CompletionEngine {
    /// Candidates for `input`.
    fn complete(&self, input: &str) -> Result<Vec<String>, AltreError>;

    /// The longest prefix all candidates share.
    fn common_prefix(&self, candidates: &[String]) -> String;

    /// The input after taking `completion`.
    fn apply_completion(&self, input: &str, completion: &str) -> String;
}

/// Every candidate has the character of the first one at position `k`.
pub open spec fn shared_at(c: Seq<Seq<char>>, k: int) -> bool {
    &&& 0 <= k < c[0].len()
    &&& forall|j: int| 0 <= j < c.len() ==> k < (#[trigger] c[j]).len() && c[j][k] == c[0][k]
}

/// The first `n` characters of the first candidate are shared by all.
pub open spec fn shared_prefix(c: Seq<Seq<char>>, n: int) -> bool {
    forall|k: int| 0 <= k < n ==> #[trigger] shared_at(c, k)
}

/// The longest prefix shared by all candidates: empty for none, the
/// candidate itself for one.
pub open spec fn is_common_prefix(c: Seq<Seq<char>>, p: Seq<char>) -> bool {
    if c.len() == 0 {
        p.len() == 0
    } else {
        &&& p.len() <= c[0].len()
        &&& p == c[0].take(p.len() as int)
        &&& shared_prefix(c, p.len() as int)
        &&& (p.len() == c[0].len() || !shared_at(c, p.len() as int))
    }
}

/// The longest prefix all of `candidates` share.
pub fn longest_common_prefix(candidates: &[String]) -> (r: String)
    ensures
        is_common_prefix(texts(candidates@), r@),
        candidates@.len() == 1 ==> r@ == candidates@[0]@,
{
    if candidates.len() == 0 {
        return String::new();
    }
    let ghost c = texts(candidates@);
    let first = chars_of(candidates[0].as_str());
    let mut all: Vec<Vec<char>> = Vec::new();
    let mut j: usize = 0;
    while j < candidates.len()
        invariant
            j <= candidates.len(),
            c == texts(candidates@),
            all@.len() == j,
            forall|m: int| 0 <= m < j ==> (#[trigger] all@[m])@ == c[m],
        decreases candidates.len() - j,
    {
        all.push(chars_of(candidates[j].as_str()));
        j += 1;
    }
    assert(first@ == c[0]);
    let mut n: usize = 0;
    let mut stop = false;
    while !stop && n < first.len()
        invariant
            c == texts(candidates@),
            c.len() == candidates@.len(),
            c.len() > 0,
            first@ == c[0],
            all@.len() == c.len(),
            forall|m: int| 0 <= m < c.len() ==> (#[trigger] all@[m])@ == c[m],
            n <= first.len(),
            shared_prefix(c, n as int),
            stop ==> !shared_at(c, n as int),
        decreases first.len() - n, if stop { 0int } else { 1int },
    {
        let ch = first[n];
        let mut k: usize = 0;
        let mut ok = true;
        while ok && k < all.len()
            invariant
                c == texts(candidates@),
                all@.len() == c.len(),
                forall|m: int| 0 <= m < c.len() ==> (#[trigger] all@[m])@ == c[m],
                first@ == c[0],
                n < first.len(),
                ch == c[0][n as int],
                k <= all.len(),
                ok ==> forall|m: int| 0 <= m < k ==> n < (#[trigger] c[m]).len() && c[m][n as int] == ch,
                !ok ==> !shared_at(c, n as int),
            decreases all.len() - k, if ok { 1int } else { 0int },
        {
            let w = &all[k];
            assert(w@ == c[k as int]);
            if !(n < w.len() && w[n] == ch) {
                ok = false;
            } else {
                k += 1;
            }
        }
        if ok {
            assert(shared_at(c, n as int));
            assert forall|q: int| 0 <= q < n + 1 implies #[trigger] shared_at(c, q) by {
                if q < n {
                    assert(shared_at(c, q));
                }
            }
            n += 1;
        } else {
            stop = true;
        }
    }
    let r = string_from_range(&first, 0, n);
    assert(first@.subrange(0, n as int) =~= c[0].take(n as int));
    proof {
        if c.len() == 1 && n < first.len() {
            assert(shared_at(c, n as int));
        }
    }
    r
}


/// Position of the last `/` in `s`, or -1.
pub open spec fn last_slash(s: Seq<char>) -> int
    decreases s.len(),
{
    if s.len() == 0 {
        -1
    } else if s.last() == '/' {
        s.len() - 1
    } else {
        last_slash(s.drop_last())
    }
}

/// `input` with what follows its last `/` replaced by `completion`, or
/// `completion` alone when `input` has no `/`.
pub open spec fn applied_completion(input: Seq<char>, completion: Seq<char>) -> Seq<char> {
    let p = last_slash(input);
    if p >= 0 {
        input.take(p) + seq!['/'] + completion
    } else {
        completion
    }
}

proof fn lemma_last_slash(s: Seq<char>)
    ensures
        -1 <= last_slash(s) < s.len(),
        last_slash(s) >= 0 ==> s[last_slash(s)] == '/',
        forall|k: int| last_slash(s) < k < s.len() ==> s[k] != '/',
    decreases s.len(),
{
    if s.len() > 0 && s.last() != '/' {
        lemma_last_slash(s.drop_last());
        assert forall|k: int| last_slash(s) < k < s.len() implies s[k] != '/' by {
            if k < s.len() - 1 {
                assert(s.drop_last()[k] == s[k]);
            }
        }
    }
}

/// Whether `p` begins `e`.
pub open spec fn begins_with(p: Seq<char>) -> spec_fn(Seq<char>) -> bool {
    |e: Seq<char>| p.is_prefix_of(e)
}

/// The entries that begin with `prefix`, in their order.
pub fn entries_with_prefix(entries: &[String], prefix: &str) -> (r: Vec<String>)
    ensures
        texts(r@) == texts(entries@).filter(begins_with(prefix@)),
{
    let p = chars_of(prefix);
    let mut out: Vec<String> = Vec::new();
    let mut i: usize = 0;
    while i < entries.len()
        invariant
            i <= entries.len(),
            p@ == prefix@,
            texts(out@) == texts(entries@.take(i as int)).filter(begins_with(prefix@)),
        decreases entries.len() - i,
    {
        let e = chars_of(entries[i].as_str());
        proof {
            reveal(Seq::filter);
            assert(texts(entries@.take(i + 1)).drop_last() =~= texts(entries@.take(i as int)));
            assert(texts(entries@.take(i + 1)).last() == entries@[i as int]@);
        }
        if starts_with_chars(&e, &p) {
            let ghost before = out@;
            out.push(entries[i].clone());
            assert(texts(out@) =~= texts(before).push(entries@[i as int]@));
        }
        i += 1;
    }
    assert(entries@.take(entries@.len() as int) =~= entries@);
    out
}

/// File-path completion: how paths are expanded and shown. Reading the
/// directories is left to the caller.
#[derive(Debug)]
pub struct PathCompletion {
    /// Whether `~` is expanded to the home directory.
    pub expand_home: bool,
    /// Whether `$VAR` is expanded.
    pub expand_env: bool,
    /// Whether hidden files are offered.
    pub show_hidden: bool,
}

/// How a candidate path is shown for the input `input`: with the home
/// directory written `~` when it leads the path, relative to the current
/// directory when the input was relative, as it is otherwise.
pub open spec fn formatted_path(
    expand_home: bool,
    path: Seq<char>,
    input: Seq<char>,
    home: Option<Seq<char>>,
    current_dir: Result<Seq<char>, Seq<char>>,
) -> Seq<char> {
    if expand_home && home is Some && home->Some_0.is_prefix_of(path) {
        crate::text::replace_all(path, home->Some_0, "~"@)
    } else if !(input.len() > 0 && (input[0] == '/' || input[0] == '~')) && current_dir is Ok
        && crate::file::path::path_stripped(path, current_dir->Ok_0) is Some {
        crate::file::path::path_stripped(path, current_dir->Ok_0)->Some_0
    } else {
        path
    }
}

impl PathCompletion {
    /// Expanding `~` and variables, hiding hidden files.
    pub fn new() -> (r: Self)
        ensures
            r.expand_home && r.expand_env && !r.show_hidden,
    {
        PathCompletion { expand_home: true, expand_env: true, show_hidden: false }
    }

    /// The same settings with hidden files shown or not.
    pub fn with_hidden_files(self, show: bool) -> (r: Self)
        ensures
            r.expand_home == self.expand_home,
            r.expand_env == self.expand_env,
            r.show_hidden == show,
    {
        PathCompletion { show_hidden: show, ..self }
    }

    /// The directory to list and the beginning of the file name for
    /// `input`: for an input ending in a separator, the expanded input and
    /// no name; otherwise the parent of the expanded input and its last
    /// component. The input is expanded (see `expand_path`) when `~` or
    /// variables are to be expanded; `home` and `current_dir` are the home
    /// and current directories.
    pub fn split_path(&self, input: &str, home: Option<&str>, current_dir: &Result<String, String>) -> (r: Result<
        (PathBuf, String),
        AltreError,
    >)
        ensures
            !(self.expand_home || self.expand_env) ==> r is Ok,
            r matches Ok((dir, name)) ==> {
                let ends_dir = input@.len() > 0 && (input@.last() == '/' || input@.last() == '\\');
                if ends_dir {
                    name@.len() == 0
                } else {
                    exists|p: PathBuf|
                        #[trigger] buffer_name_of(p) == name@ && match path_parent(p) {
                            Some(q) => dir == q,
                            None => path_text(dir) == Some("."@),
                        }
                }
            },
    {
        let v = chars_of(input);
        let ends_dir = v.len() > 0 && (v[v.len() - 1] == '/' || v[v.len() - 1] == '\\');
        let expanded = if self.expand_home || self.expand_env {
            match expand_path(input, home, current_dir) {
                Ok(p) => p,
                Err(e) => return Err(e),
            }
        } else {
            path_from_text(input)
        };
        if ends_dir {
            Ok((expanded, String::new()))
        } else {
            let name = file_name_or_empty(&expanded);
            let dir = match parent_of(&expanded) {
                Some(q) => q,
                None => path_from_text("."),
            };
            Ok((dir, name))
        }
    }

    /// How the candidate `path` is shown for the input `original_input`
    /// (see `formatted_path`); `home` is the value of `HOME` and
    /// `current_dir` the current directory.
    pub fn format_path(
        &self,
        path: &str,
        original_input: &str,
        home: Option<&str>,
        current_dir: &Result<String, String>,
    ) -> (r: String)
        ensures
            r@ == formatted_path(
                self.expand_home,
                path@,
                original_input@,
                match home {
                    Some(h) => Some(h@),
                    None => None,
                },
                match current_dir {
                    Ok(c) => Ok(c@),
                    Err(e) => Err(e@),
                },
            ),
    {
        if self.expand_home {
            match home {
                Some(h) => {
                    let pv = chars_of(path);
                    let hv = chars_of(h);
                    if starts_with_chars(&pv, &hv) {
                        proof {
                            reveal_strlit("~");
                        }
                        return crate::text::replace_text(path, h, "~");
                    }
                },
                None => {},
            }
        }
        let iv = chars_of(original_input);
        let absolute = iv.len() > 0 && (iv[0] == '/' || iv[0] == '~');
        if !absolute {
            match current_dir {
                Ok(c) => {
                    match crate::file::path::strip_path_prefix(path, c.as_str()) {
                        Some(rest) => return rest,
                        None => {},
                    }
                },
                Err(_) => {},
            }
        }
        owned(path)
    }

    /// The candidates for `input` among the entries `filtered` of the
    /// directory `dir`: each entry joined to the directory and shown as
    /// `format_path` shows it.
    pub fn candidates(
        &self,
        dir: &str,
        filtered: &[String],
        input: &str,
        home: Option<&str>,
        current_dir: &Result<String, String>,
    ) -> (r: Vec<String>)
        ensures
            r@.len() == filtered@.len(),
            forall|i: int|
                0 <= i < r@.len() ==> (#[trigger] r@[i])@ == formatted_path(
                    self.expand_home,
                    crate::file::path::path_joined(dir@, filtered@[i]@),
                    input@,
                    match home {
                        Some(h) => Some(h@),
                        None => None,
                    },
                    match current_dir {
                        Ok(c) => Ok(c@),
                        Err(e) => Err(e@),
                    },
                ),
    {
        let mut out: Vec<String> = Vec::new();
        let mut i: usize = 0;
        while i < filtered.len()
            invariant
                i <= filtered@.len(),
                out@.len() == i,
                forall|k: int|
                    0 <= k < i ==> (#[trigger] out@[k])@ == formatted_path(
                        self.expand_home,
                        crate::file::path::path_joined(dir@, filtered@[k]@),
                        input@,
                        match home {
                            Some(h) => Some(h@),
                            None => None,
                        },
                        match current_dir {
                            Ok(c) => Ok(c@),
                            Err(e) => Err(e@),
                        },
                    ),
            decreases filtered@.len() - i,
        {
            let full = crate::file::path::join_path(dir, filtered[i].as_str());
            let shown = self.format_path(full.as_str(), input, home, current_dir);
            out.push(shown);
            i += 1;
        }
        out
    }

    /// The entries of a directory listing (name, is a directory) as the
    /// completion offers them: hidden ones left out unless wanted,
    /// directories ending in `/`, all sorted.
    pub fn directory_entries(&self, listing: &Vec<(String, bool)>) -> (r: Vec<String>)
        ensures
            sorted_texts(texts(r@)),
            texts(r@).to_multiset() == shown_labels(self.show_hidden, listing_view(listing@)).to_multiset(),
    {
        let ghost l = listing_view(listing@);
        let mut out: Vec<String> = Vec::new();
        let mut i: usize = 0;
        proof {
            assert(texts(out@) =~= Seq::<Seq<char>>::empty());
            assert(l.take(0) =~= Seq::<(Seq<char>, bool)>::empty());
        }
        while i < listing.len()
            invariant
                i <= listing@.len(),
                l == listing_view(listing@),
                sorted_texts(texts(out@)),
                texts(out@).to_multiset() == shown_labels(self.show_hidden, l.take(i as int)).to_multiset(),
            decreases listing.len() - i,
        {
            let name = &listing[i].0;
            let is_dir = listing[i].1;
            let ghost before = shown_labels(self.show_hidden, l.take(i as int));
            proof {
                assert(l.take(i + 1).drop_last() =~= l.take(i as int));
                assert(l.take(i + 1).last() == (name@, is_dir));
            }
            if self.shows_entry(name.as_str()) {
                let label = if is_dir {
                    concat_str(name.as_str(), "/")
                } else {
                    name.clone()
                };
                proof {
                    vstd::seq_lib::to_multiset_build(before, label@);
                }
                insert_sorted(&mut out, label);
            }
            i += 1;
        }
        proof {
            assert(l.take(listing@.len() as int) =~= l);
        }
        out
    }

    /// The entries that begin with `prefix` (all of them for an empty
    /// prefix).
    pub fn filter_entries(&self, entries: &[String], prefix: &str) -> (r: Vec<String>)
        ensures
            texts(r@) == texts(entries@).filter(begins_with(prefix@)),
    {
        entries_with_prefix(entries, prefix)
    }

    /// Whether an entry is offered: hidden entries (starting with `.`)
    /// only when they are to be shown.
    pub fn shows_entry(&self, name: &str) -> (r: bool)
        ensures
            r == (self.show_hidden || !(name@.len() > 0 && name@[0] == '.')),
    {
        if self.show_hidden {
            return true;
        }
        let v = chars_of(name);
        !(v.len() > 0 && v[0] == '.')
    }

    /// The longest prefix all candidates share.
    pub fn common_prefix(&self, candidates: &[String]) -> (r: String)
        ensures
            is_common_prefix(texts(candidates@), r@),
            candidates@.len() == 1 ==> r@ == candidates@[0]@,
    {
        longest_common_prefix(candidates)
    }

    /// `input` with what follows its last `/` replaced by `completion`.
    pub fn apply_completion(&self, input: &str, completion: &str) -> (r: String)
        ensures
            r@ == applied_completion(input@, completion@),
    {
        let v = chars_of(input);
        let mut k: usize = v.len();
        while k > 0 && v[k - 1] != '/'
            invariant
                k <= v.len(),
                v@ == input@,
                forall|q: int| k <= q < v.len() ==> v@[q] != '/',
            decreases k,
        {
            k -= 1;
        }
        proof {
            lemma_last_slash(input@);
            let p = last_slash(input@);
            if k > 0 {
                assert(p == k - 1) by {
                    if p < k - 1 {
                        assert(input@[k - 1] == '/');
                    }
                }
            } else {
                assert(p == -1);
            }
        }
        if k > 0 {
            let head = string_from_range(&v, 0, k);
            let r = concat_str(head.as_str(), completion);
            assert(v@.subrange(0, k as int) =~= input@.take(k - 1) + seq!['/']);
            r
        } else {
            owned(completion)
        }
    }
}

impl Default for PathCompletion {
    fn default() -> (r: Self)
        ensures
            r.expand_home && r.expand_env && !r.show_hidden,
    {
        PathCompletion::new()
    }
}

/// The command names offered before any are added.
pub open spec fn builtin_command_names() -> Seq<Seq<char>> {
    seq![
        "forward-char"@,
        "backward-char"@,
        "next-line"@,
        "previous-line"@,
        "delete-backward-char"@,
        "delete-char"@,
        "find-file"@,
        "save-buffer"@,
        "save-buffers-kill-terminal"@,
        "quit"@,
    ]
}

/// Completion of command names, kept sorted.
#[derive(Debug)]
pub struct CommandCompletion {
    commands: Vec<String>,
}

impl View for CommandCompletion {
    type V = Seq<Seq<char>>;

    closed spec fn view(&self) -> Seq<Seq<char>> {
        texts(self.commands@)
    }
}

impl CommandCompletion {
    /// Well-formed: the names are sorted.
    pub open spec fn wf(&self) -> bool {
        sorted_texts(self@)
    }

    /// The built-in command names, sorted.
    pub fn new() -> (r: Self)
        ensures
            r.wf(),
            r@.to_multiset() == builtin_command_names().to_multiset(),
    {
        let names = vec![
            owned("forward-char"),
            owned("backward-char"),
            owned("next-line"),
            owned("previous-line"),
            owned("delete-backward-char"),
            owned("delete-char"),
            owned("find-file"),
            owned("save-buffer"),
            owned("save-buffers-kill-terminal"),
            owned("quit"),
        ];
        assert(texts(names@) =~= builtin_command_names());
        CommandCompletion { commands: sorted_copy(&names) }
    }

    /// Adds a command name unless it is already there; the names stay
    /// sorted.
    pub fn add_command(&mut self, command: String)
        requires
            old(self).wf(),
        ensures
            final(self).wf(),
            old(self)@.contains(command@) ==> final(self)@ == old(self)@,
            !old(self)@.contains(command@) ==> final(self)@.to_multiset() == old(self)@.to_multiset().insert(
                command@,
            ) && final(self)@.len() == old(self)@.len() + 1,
    {
        let c = chars_of(command.as_str());
        let mut i: usize = 0;
        while i < self.commands.len()
            invariant
                i <= self.commands.len(),
                self.commands@ == old(self).commands@,
                old(self).wf(),
                c@ == command@,
                forall|k: int| 0 <= k < i ==> self@[k] != command@,
            decreases self.commands.len() - i,
        {
            let e = chars_of(self.commands[i].as_str());
            if crate::text::chars_equal(&e, &c) {
                assert(self@[i as int] == command@);
                return;
            }
            i += 1;
        }
        insert_sorted(&mut self.commands, command);
    }

    /// All command names, sorted.
    pub fn all_commands(&self) -> (r: &[String])
        ensures
            texts(r@) == self@,
    {
        self.commands.as_slice()
    }
}

impl Default for CommandCompletion {
    fn default() -> (r: Self)
        ensures
            r.wf(),
            r@.to_multiset() == builtin_command_names().to_multiset(),
    {
        CommandCompletion::new()
    }
}

impl CompletionEngine for CommandCompletion {
    /// The command names that begin with `input`, in order.
    fn complete(&self, input: &str) -> (r: Result<Vec<String>, AltreError>)
        ensures
            r matches Ok(v) && texts(v@) == self@.filter(begins_with(input@)),
    {
        Ok(entries_with_prefix(self.commands.as_slice(), input))
    }

    fn common_prefix(&self, candidates: &[String]) -> (r: String)
        ensures
            is_common_prefix(texts(candidates@), r@),
    {
        longest_common_prefix(candidates)
    }

    fn apply_completion(&self, input: &str, completion: &str) -> (r: String)
        ensures
            r@ == completion@,
    {
        owned(completion)
    }
}

} // verus!
