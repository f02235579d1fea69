//! Paths: normalization, expansion, and questions about their parts.
use crate::collate::{join_texts, joined, texts};
use crate::error::AltreError;
use crate::text::{chars_of, concat_str, contains_char, owned, str_equal, string_from_range};
use std::path::{Path, PathBuf};
use vstd::prelude::*;

verus! {

/// The text a path holds, as `Path::to_str` gives it (`None` when it is
/// not valid UTF-8).
pub uninterp spec fn path_text(p: PathBuf) -> Option<Seq<char>>;

/// `PathBuf::from` a string: the path holds exactly that text.
#[verifier::external_body]
pub(crate) fn path_from_text(s: &str) -> (p: PathBuf)
    ensures
        path_text(p) == Some(s@),
{
    PathBuf::from(s)
}

/// `Path::to_str`, owned: the text of the path when it is valid UTF-8.
#[verifier::external_body]
pub(crate) fn text_of_path(p: &PathBuf) -> (r: Option<String>)
    ensures
        match r {
            Some(t) => path_text(*p) == Some(t@),
            None => path_text(*p) is None,
        },
{
    match p.to_str() {
        Some(s) => Some(s.to_string()),
        None => None,
    }
}


/// The components of the path written `text`, as `Path::components`
/// yields them, each rendered as text: `/` for the root, `.` for a
/// leading current directory, `..` for a parent and the name otherwise.
pub uninterp spec fn path_components(text: Seq<char>) -> Seq<Seq<char>>;

/// `Path::components` of `path`, each component rendered with
/// `as_os_str().to_string_lossy()`.
#[verifier::external_body]
fn components_of(path: &str) -> (r: Vec<String>)
    ensures
        texts(r@) == path_components(path@),
        forall|i: int| 0 < i < r@.len() ==> (#[trigger] r@[i])@ != root_part(),
{
    let mut out = Vec::new();
    for c in Path::new(path).components() {
        out.push(c.as_os_str().to_string_lossy().into_owned());
    }
    out
}

/// The parent directory of a path (`Path::parent`), when it has one.
pub uninterp spec fn path_parent(p: PathBuf) -> Option<PathBuf>;

/// `Path::parent`, owned.
#[verifier::external_body]
pub(crate) fn parent_of(p: &PathBuf) -> (r: Option<PathBuf>)
    ensures
        r == path_parent(*p),
{
    match p.parent() {
        Some(q) => Some(q.to_path_buf()),
        None => None,
    }
}

/// A path's text as `Path::to_string_lossy` renders it.
pub uninterp spec fn path_lossy_text(p: PathBuf) -> Seq<char>;

/// `Path::to_string_lossy`, owned.
#[verifier::external_body]
fn lossy_text_of(p: &PathBuf) -> (r: String)
    ensures
        r@ == path_lossy_text(*p),
{
    p.to_string_lossy().into_owned()
}

/// The extension of the path written `text` (`Path::extension`, rendered
/// lossily).
pub uninterp spec fn path_extension(text: Seq<char>) -> Option<Seq<char>>;

/// `Path::extension`, rendered with `to_string_lossy`.
#[verifier::external_body]
fn extension_of(path: &str) -> (r: Option<String>)
    ensures
        match r {
            Some(e) => path_extension(path@) == Some(e@),
            None => path_extension(path@) is None,
        },
{
    match Path::new(path).extension() {
        Some(e) => Some(e.to_string_lossy().into_owned()),
        None => None,
    }
}

/// The file stem of the path written `text` (`Path::file_stem` as text).
pub uninterp spec fn path_stem(text: Seq<char>) -> Option<Seq<char>>;

/// `Path::file_stem`, when it is valid UTF-8.
#[verifier::external_body]
fn stem_of(path: &str) -> (r: Option<String>)
    ensures
        match r {
            Some(s) => path_stem(path@) == Some(s@),
            None => path_stem(path@) is None,
        },
{
    match Path::new(path).file_stem() {
        Some(stem) => match stem.to_str() {
            Some(s) => Some(s.to_string()),
            None => None,
        },
        None => None,
    }
}

/// `text` in lower case as `str::to_lowercase` gives it.
pub uninterp spec fn lowercased(text: Seq<char>) -> Seq<char>;

/// `str::to_lowercase`.
#[verifier::external_body]
fn lowercase(text: &str) -> (r: String)
    ensures
        r@ == lowercased(text@),
{
    text.to_lowercase()
}

/// The text of `base` joined with `rest` as `Path::join` forms it.
pub uninterp spec fn path_joined(base: Seq<char>, rest: Seq<char>) -> Seq<char>;

/// `Path::join` of a relative part: for a base that is text, the text of
/// the result is the joined text.
#[verifier::external_body]
pub(crate) fn join_path_buf(base: &PathBuf, part: &str) -> (r: PathBuf)
    ensures
        path_text(*base) matches Some(t) ==> path_text(r) == Some(path_joined(t, part@)),
{
    base.join(part)
}

/// The text of `base` joined with `rest` (see `path_joined`).
pub(crate) fn join_path(base: &str, rest: &str) -> (r: String)
    ensures
        r@ == path_joined(base@, rest@),
{
    let p = path_from_text(base);
    let joined = join_path_buf(&p, rest);
    match text_of_path(&joined) {
        Some(t) => t,
        None => {
            assert(false);
            owned("")
        },
    }
}

/// What is left of the path `path` after the leading components of
/// `base`, as `Path::strip_prefix` finds it, rendered with
/// `to_string_lossy`; `None` when `base` does not lead `path`.
pub uninterp spec fn path_stripped(path: Seq<char>, base: Seq<char>) -> Option<Seq<char>>;

/// `Path::strip_prefix` on two path texts.
#[verifier::external_body]
pub(crate) fn strip_path_prefix(path: &str, base: &str) -> (r: Option<String>)
    ensures
        match r {
            Some(t) => path_stripped(path@, base@) == Some(t@),
            None => path_stripped(path@, base@) is None,
        },
{
    match Path::new(path).strip_prefix(base) {
        Ok(rest) => Some(rest.to_string_lossy().into_owned()),
        Err(_) => None,
    }
}

/// `shellexpand::env`: `$VAR` and `${VAR}` replaced by the values of
/// environment variables; an unknown variable is an error, given by its
/// message. What comes back depends on the environment, so nothing is
/// stated of it.
#[verifier::external_body]
fn expand_env_vars(text: &str) -> Result<String, String> {
    match shellexpand::env(text) {
        Ok(expanded) => Ok(expanded.into_owned()),
        Err(e) => Err(format!("{}", e)),
    }
}

/// The component that stands for the root.
pub open spec fn root_part() -> Seq<char> {
    "/"@
}

/// The text of a list of components: the root followed by the other
/// components joined by `/`, or the components joined by `/`.
pub open spec fn rendered(parts: Seq<Seq<char>>) -> Seq<char> {
    if parts.len() > 0 && parts[0] == root_part() {
        root_part() + joined(parts.drop_first(), "/"@)
    } else {
        joined(parts, "/"@)
    }
}

/// Normalizing components from `i` on onto `stack`: `.` is dropped, `..`
/// removes the last kept component, and fails when there is none.
pub open spec fn normalized_from(parts: Seq<Seq<char>>, i: int, stack: Seq<Seq<char>>) -> Option<Seq<Seq<char>>>
    decreases parts.len() - i,
{
    if i < 0 || i >= parts.len() {
        Some(stack)
    } else if parts[i] == "."@ {
        normalized_from(parts, i + 1, stack)
    } else if parts[i] == ".."@ {
        if stack.len() == 0 {
            None
        } else {
            normalized_from(parts, i + 1, stack.drop_last())
        }
    } else {
        normalized_from(parts, i + 1, stack.push(parts[i]))
    }
}

/// The components of a path with `.` and `..` resolved.
pub open spec fn normalized(parts: Seq<Seq<char>>) -> Option<Seq<Seq<char>>> {
    normalized_from(parts, 0, Seq::empty())
}

/// The error for a `..` that goes above the first component.
pub open spec fn above_root_message() -> Seq<char> {
    "パスが不正です: ルートを超えた親ディレクトリ参照"@
}

/// The text of `parts`.
fn render_parts(parts: &Vec<String>) -> (r: String)
    ensures
        r@ == rendered(texts(parts@)),
{
    if parts.len() > 0 && str_equal(parts[0].as_str(), "/") {
        let mut rest: Vec<String> = Vec::new();
        let mut i: usize = 1;
        while i < parts.len()
            invariant
                1 <= i <= parts.len(),
                texts(rest@) == texts(parts@).subrange(1, i as int),
            decreases parts.len() - i,
        {
            let ghost before = texts(rest@);
            rest.push(parts[i].clone());
            assert(texts(rest@) =~= before.push(parts@[i as int]@));
            assert(texts(parts@).subrange(1, i + 1) =~= texts(parts@).subrange(1, i as int).push(parts@[i as int]@));
            i += 1;
        }
        assert(texts(parts@).subrange(1, parts@.len() as int) =~= texts(parts@).drop_first());
        let tail = join_texts(&rest, "/");
        concat_str("/", tail.as_str())
    } else {
        join_texts(parts, "/")
    }
}

/// The components of `path` with `.` and `..` resolved.
fn normalize_parts(path: &str) -> (r: Result<Vec<String>, AltreError>)
    ensures
        match normalized(path_components(path@)) {
            Some(n) => r matches Ok(v) && texts(v@) == n,
            None => r matches Err(AltreError::Path(m)) && m@ == above_root_message(),
        },
{
    let parts = components_of(path);
    let ghost ps = path_components(path@);
    let mut stack: Vec<String> = Vec::new();
    assert(texts(stack@) =~= Seq::<Seq<char>>::empty());
    let mut i: usize = 0;
    while i < parts.len()
        invariant
            i <= parts.len(),
            texts(parts@) == ps,
            ps == path_components(path@),
            normalized(ps) == normalized_from(ps, i as int, texts(stack@)),
        decreases parts.len() - i,
    {
        assert(ps[i as int] == parts@[i as int]@);
        if str_equal(parts[i].as_str(), ".") {
        } else if str_equal(parts[i].as_str(), "..") {
            if stack.len() == 0 {
                proof {
                    reveal_strlit(".");
                    reveal_strlit("..");
                    assert(ps[i as int] != "."@);
                    assert(ps[i as int] == ".."@);
                    assert(texts(stack@).len() == 0);
                    assert(normalized_from(ps, i as int, texts(stack@)) is None);
                }
                return Err(AltreError::Path(owned("パスが不正です: ルートを超えた親ディレクトリ参照")));
            }
            let ghost before = texts(stack@);
            stack.pop();
            assert(texts(stack@) =~= before.drop_last());
        } else {
            let ghost before = texts(stack@);
            stack.push(parts[i].clone());
            assert(texts(stack@) =~= before.push(ps[i as int]));
        }
        i += 1;
    }
    Ok(stack)
}

/// Whether the path written `text` is absolute: on Unix, whether it
/// begins with `/` (`Path::is_absolute`).
pub open spec fn is_absolute_text(text: Seq<char>) -> bool {
    text.len() > 0 && text[0] == '/'
}

/// The text of `path` made absolute against the current directory.
pub open spec fn absolute_text(path: Seq<char>, current_dir: Result<Seq<char>, Seq<char>>) -> Result<Seq<char>, Seq<char>> {
    if is_absolute_text(path) {
        Ok(path)
    } else {
        match current_dir {
            Ok(d) => Ok(path_joined(d, path)),
            Err(e) => Err("現在のディレクトリが取得できません: "@ + e),
        }
    }
}

/// The text of `path` with a leading `~` replaced by the home directory.
pub open spec fn home_expanded(path: Seq<char>, home: Option<Seq<char>>) -> Result<Seq<char>, Seq<char>> {
    if path.len() > 0 && path[0] == '~' {
        match home {
            None => Err("ホームディレクトリが取得できません"@),
            Some(h) => if path.len() == 1 {
                Ok(h)
            } else if path[1] == '/' {
                Ok(h + path.skip(1))
            } else {
                Err("~user形式のパス展開は未サポートです"@)
            },
        }
    } else {
        Ok(path)
    }
}

/// A result's text, or its error as an `AltreError::Path`.
pub open spec fn path_result(r: Result<PathBuf, AltreError>, expected: Result<Seq<char>, Seq<char>>) -> bool {
    match expected {
        Ok(t) => r matches Ok(p) && path_text(p) == Some(t),
        Err(m) => r matches Err(AltreError::Path(e)) && e@ == m,
    }
}

/// Path handling: normalization, expansion and checks.
pub struct DefaultPathProcessor;

impl DefaultPathProcessor {
    /// `path` with `.` and `..` resolved; a `..` above the first component
    /// is an error.
    pub fn normalize_path(path: &str) -> (r: Result<PathBuf, AltreError>)
        ensures
            path_result(
                r,
                match normalized(path_components(path@)) {
                    Some(n) => Ok(rendered(n)),
                    None => Err(above_root_message()),
                },
            ),
    {
        match normalize_parts(path) {
            Ok(parts) => Ok(path_from_text(render_parts(&parts).as_str())),
            Err(e) => Err(e),
        }
    }

    /// `path` with a leading `~` replaced by `home`, the home directory
    /// (`None` when it is not known). `~user` is not supported.
    pub fn expand_home(path: &str, home: Option<&str>) -> (r: Result<PathBuf, AltreError>)
        ensures
            path_result(
                r,
                home_expanded(
                    path@,
                    match home {
                        Some(h) => Some(h@),
                        None => None,
                    },
                ),
            ),
    {
        match Self::expand_home_text(path, home) {
            Ok(t) => Ok(path_from_text(t.as_str())),
            Err(e) => Err(e),
        }
    }

    fn expand_home_text(path: &str, home: Option<&str>) -> (r: Result<String, AltreError>)
        ensures
            match home_expanded(
                path@,
                match home {
                    Some(h) => Some(h@),
                    None => None,
                },
            ) {
                Ok(t) => r matches Ok(s) && s@ == t,
                Err(m) => r matches Err(AltreError::Path(e)) && e@ == m,
            },
    {
        let v = chars_of(path);
        if v.len() > 0 && v[0] == '~' {
            match home {
                None => Err(AltreError::Path(owned("ホームディレクトリが取得できません"))),
                Some(h) => {
                    if v.len() == 1 {
                        Ok(owned(h))
                    } else if v[1] == '/' {
                        let rest = string_from_range(&v, 1, v.len());
                        assert(v@.subrange(1, v@.len() as int) =~= path@.skip(1));
                        Ok(concat_str(h, rest.as_str()))
                    } else {
                        Err(AltreError::Path(owned("~user形式のパス展開は未サポートです")))
                    }
                },
            }
        } else {
            Ok(owned(path))
        }
    }

    /// `path` with environment variables expanded (`shellexpand::env`);
    /// an unknown variable is an error.
    pub fn expand_env(path: &str) -> (r: Result<PathBuf, AltreError>)
        ensures
            r matches Err(e) ==> e is Path,
    {
        match env_expansion(expand_env_vars(path)) {
            Ok(t) => Ok(path_from_text(t.as_str())),
            Err(e) => Err(e),
        }
    }

    /// `path` made absolute: an absolute path stays, a relative one is
    /// joined to the current directory (`Err` with its message when it
    /// could not be read).
    pub fn to_absolute(path: &str, current_dir: &Result<String, String>) -> (r: Result<PathBuf, AltreError>)
        ensures
            path_result(r, absolute_text(path@, text_result(*current_dir))),
    {
        match Self::absolute(path, current_dir) {
            Ok(t) => Ok(path_from_text(t.as_str())),
            Err(e) => Err(e),
        }
    }

    fn absolute(path: &str, current_dir: &Result<String, String>) -> (r: Result<String, AltreError>)
        ensures
            match absolute_text(path@, text_result(*current_dir)) {
                Ok(t) => r matches Ok(s) && s@ == t,
                Err(m) => r matches Err(AltreError::Path(e)) && e@ == m,
            },
    {
        let v = chars_of(path);
        if v.len() > 0 && v[0] == '/' {
            Ok(owned(path))
        } else {
            match current_dir {
                Ok(d) => Ok(join_path(d.as_str(), path)),
                Err(e) => Err(AltreError::Path(concat_str("現在のディレクトリが取得できません: ", e.as_str()))),
            }
        }
    }

    /// Whether a path is safe: no `..` component and no NUL, CR or LF in
    /// a component.
    pub fn is_safe_path(path: &str) -> (r: bool)
        ensures
            r == safe_parts(path_components(path@)),
    {
        let parts = components_of(path);
        let mut i: usize = 0;
        while i < parts.len()
            invariant
                i <= parts.len(),
                texts(parts@) == path_components(path@),
                forall|k: int| 0 <= k < i ==> safe_part(#[trigger] texts(parts@)[k]),
            decreases parts.len() - i,
        {
            let c = chars_of(parts[i].as_str());
            assert(texts(parts@)[i as int] == parts@[i as int]@);
            if str_equal(parts[i].as_str(), "..") || contains_char(&c, '\0') || contains_char(&c, '\r')
                || contains_char(&c, '\n') {
                return false;
            }
            i += 1;
        }
        true
    }
}

/// A result of texts as character sequences.
pub open spec fn text_result(r: Result<String, String>) -> Result<Seq<char>, Seq<char>> {
    match r {
        Ok(t) => Ok(t@),
        Err(e) => Err(e@),
    }
}

/// A component is safe: not `..` and free of NUL, CR and LF.
pub open spec fn safe_part(c: Seq<char>) -> bool {
    c != ".."@ && !c.contains('\0') && !c.contains('\r') && !c.contains('\n')
}

/// All components are safe.
pub open spec fn safe_parts(parts: Seq<Seq<char>>) -> bool {
    forall|k: int| 0 <= k < parts.len() ==> safe_part(#[trigger] parts[k])
}

/// The result of expanding variables, with an error message turned into
/// an `AltreError::Path`.
pub fn env_expansion(result: Result<String, String>) -> (r: Result<String, AltreError>)
    ensures
        match result {
            Ok(t) => r matches Ok(s) && s@ == t@,
            Err(m) => r matches Err(AltreError::Path(e)) && e@ == "環境変数展開エラー: "@ + m@,
        },
{
    match result {
        Ok(t) => Ok(t),
        Err(m) => Err(AltreError::Path(concat_str("環境変数展開エラー: ", m.as_str()))),
    }
}


/// The rest of `expand_path` once variables are expanded: the path
/// normalized and made absolute.
pub open spec fn expansion_rest(env: Result<Seq<char>, Seq<char>>, current_dir: Result<Seq<char>, Seq<char>>) -> Result<
    Seq<char>,
    Seq<char>,
> {
    match env {
        Err(m) => Err("環境変数展開エラー: "@ + m),
        Ok(t) => match normalized(path_components(t)) {
            None => Err(above_root_message()),
            Some(n) => absolute_text(rendered(n), current_dir),
        },
    }
}

/// Finishes expanding a path from the result of expanding its
/// variables: normalizes it and makes it absolute.
pub fn complete_expansion(expanded: Result<String, String>, current_dir: &Result<String, String>) -> (r: Result<
    PathBuf,
    AltreError,
>)
    ensures
        path_result(r, expansion_rest(text_result(expanded), text_result(*current_dir))),
{
    let text = match env_expansion(expanded) {
        Ok(t) => t,
        Err(e) => return Err(e),
    };
    let parts = match normalize_parts(text.as_str()) {
        Ok(p) => p,
        Err(e) => return Err(e),
    };
    let rendered_text = render_parts(&parts);
    match DefaultPathProcessor::absolute(rendered_text.as_str(), current_dir) {
        Ok(t) => Ok(path_from_text(t.as_str())),
        Err(e) => Err(e),
    }
}

/// `path` with `~` and variables expanded, normalized and made absolute
/// (`home` and `current_dir` are the home and current directories).
/// Variables take their values from the environment, so beyond the home
/// step the result is stated for whatever the expansion gave.
pub fn expand_path(path: &str, home: Option<&str>, current_dir: &Result<String, String>) -> (r: Result<
    PathBuf,
    AltreError,
>)
    ensures
        match home_expanded(
            path@,
            match home {
                Some(h) => Some(h@),
                None => None,
            },
        ) {
            Err(m) => r matches Err(AltreError::Path(e)) && e@ == m,
            Ok(_) => exists|x: Result<Seq<char>, Seq<char>>| path_result(
                r,
                #[trigger] expansion_rest(x, text_result(*current_dir)),
            ),
        },
{
    let home_text = match DefaultPathProcessor::expand_home_text(path, home) {
        Ok(t) => t,
        Err(e) => return Err(e),
    };
    let expanded = expand_env_vars(home_text.as_str());
    let r = complete_expansion(expanded, current_dir);
    assert(path_result(r, expansion_rest(text_result(expanded), text_result(*current_dir))));
    r
}

/// `path` with `.` and `..` resolved (see `DefaultPathProcessor::normalize_path`).
pub fn normalize_path(path: &str) -> (r: Result<PathBuf, AltreError>)
    ensures
        path_result(
            r,
            match normalized(path_components(path@)) {
                Some(n) => Ok(rendered(n)),
                None => Err(above_root_message()),
            },
        ),
{
    DefaultPathProcessor::normalize_path(path)
}

/// Whether the path's extension is one of `extensions`, ignoring case.
pub fn has_extension(path: &str, extensions: &[&str]) -> (r: bool)
    ensures
        r == match path_extension(path@) {
            None => false,
            Some(x) => exists|i: int| 0 <= i < extensions@.len() && lowercased((#[trigger] extensions@[i])@) == lowercased(x),
        },
{
    let ext = match extension_of(path) {
        Some(e) => e,
        None => return false,
    };
    let lower = lowercase(ext.as_str());
    let mut i: usize = 0;
    while i < extensions.len()
        invariant
            i <= extensions.len(),
            path_extension(path@) == Some(ext@),
            lower@ == lowercased(ext@),
            forall|k: int| 0 <= k < i ==> lowercased((#[trigger] extensions@[k])@) != lowercased(ext@),
        decreases extensions.len() - i,
    {
        let e = lowercase(extensions[i]);
        if str_equal(e.as_str(), lower.as_str()) {
            return true;
        }
        i += 1;
    }
    false
}

/// The file name without its extension, when it is valid UTF-8.
pub fn file_stem(path: &str) -> (r: Option<String>)
    ensures
        match r {
            Some(s) => path_stem(path@) == Some(s@),
            None => path_stem(path@) is None,
        },
{
    stem_of(path)
}

/// Number of components of the path.
pub fn path_depth(path: &str) -> (r: usize)
    ensures
        r == path_components(path@).len(),
{
    components_of(path).len()
}

/// The first index from `i` below `lim` where `a` and `b` differ, or
/// `lim`.
pub open spec fn diff_index(a: Seq<Seq<char>>, b: Seq<Seq<char>>, i: int, lim: int) -> int
    decreases lim - i,
{
    if i >= lim {
        lim
    } else if a[i] != b[i] {
        i
    } else {
        diff_index(a, b, i + 1, lim)
    }
}

/// How many leading components of the first path the paths `1..n`
/// share with it, as `common_parent` narrows it down path by path.
pub open spec fn common_len(cs: Seq<Seq<Seq<char>>>, n: int) -> int
    decreases n,
{
    if n <= 1 {
        cs[0].len() as int
    } else {
        let prev = common_len(cs, n - 1);
        if prev == 0 {
            0
        } else {
            let lim = if prev < cs[n - 1].len() { prev } else { cs[n - 1].len() as int };
            diff_index(cs[0], cs[n - 1], 0, lim)
        }
    }
}

proof fn lemma_common_len_zero_stays(cs: Seq<Seq<Seq<char>>>, n: int, m: int)
    requires
        1 <= n <= m,
        common_len(cs, n) == 0,
    ensures
        common_len(cs, m) == 0,
    decreases m - n,
{
    if n < m {
        assert(common_len(cs, n + 1) == 0);
        lemma_common_len_zero_stays(cs, n + 1, m);
    }
}

/// The components of each path.
pub open spec fn all_components(paths: Seq<PathBuf>) -> Seq<Seq<Seq<char>>> {
    paths.map_values(|p: PathBuf| path_components(path_lossy_text(p)))
}

proof fn lemma_diff_index_bounds(a: Seq<Seq<char>>, b: Seq<Seq<char>>, i: int, lim: int)
    requires
        i <= lim,
    ensures
        i <= diff_index(a, b, i, lim) <= lim,
    decreases lim - i,
{
    if i < lim && a[i] == b[i] {
        lemma_diff_index_bounds(a, b, i + 1, lim);
    }
}

proof fn lemma_common_len_bounds(cs: Seq<Seq<Seq<char>>>, n: int)
    requires
        1 <= n <= cs.len(),
    ensures
        0 <= common_len(cs, n) <= cs[0].len(),
    decreases n,
{
    if n > 1 {
        lemma_common_len_bounds(cs, n - 1);
        let prev = common_len(cs, n - 1);
        if prev != 0 {
            let lim = if prev < cs[n - 1].len() { prev } else { cs[n - 1].len() as int };
            lemma_diff_index_bounds(cs[0], cs[n - 1], 0, lim);
        }
    }
}

/// The deepest directory all paths share, by leading components; `None`
/// for no paths, or when two or more paths share none.
pub fn common_parent(paths: &[PathBuf]) -> (r: Option<PathBuf>)
    ensures
        paths@.len() == 0 ==> r is None,
        paths@.len() > 0 ==> {
            let cs = all_components(paths@);
            let n = common_len(cs, paths@.len() as int);
            if paths@.len() > 1 && n == 0 {
                r is None
            } else {
                r matches Some(p) && path_text(p) == Some(rendered(cs[0].take(n)))
            }
        },
{
    if paths.len() == 0 {
        return None;
    }
    let ghost cs = all_components(paths@);
    let first = components_of(lossy_text_of(&paths[0]).as_str());
    assert(texts(first@) == cs[0]);
    let mut common: usize = first.len();
    let mut j: usize = 1;
    while j < paths.len()
        invariant
            1 <= j <= paths.len(),
            cs == all_components(paths@),
            texts(first@) == cs[0],
            common == common_len(cs, j as int),
            j > 1 ==> common > 0,
        decreases paths.len() - j,
    {
        proof {
            lemma_common_len_bounds(cs, j as int);
        }
        let other = components_of(lossy_text_of(&paths[j]).as_str());
        assert(texts(other@) == cs[j as int]);
        let lim = if common < other.len() { common } else { other.len() };
        let mut i: usize = 0;
        let mut found = false;
        while !found && i < lim
            invariant
                lim <= first.len(),
                lim <= other.len(),
                i <= lim,
                texts(first@) == cs[0],
                texts(other@) == cs[j as int],
                found ==> i < lim && cs[0][i as int] != cs[j as int][i as int] && diff_index(cs[0], cs[j as int], i as int, lim as int) == i,
                diff_index(cs[0], cs[j as int], 0, lim as int) == diff_index(cs[0], cs[j as int], i as int, lim as int),
            decreases lim - i, if found { 0int } else { 1int },
        {
            assert(texts(first@)[i as int] == first@[i as int]@);
            assert(texts(other@)[i as int] == other@[i as int]@);
            if !str_equal(first[i].as_str(), other[i].as_str()) {
                found = true;
            } else {
                i += 1;
            }
        }
        if common > 0 {
            common = i;
        }
        assert(common == common_len(cs, j + 1));
        if common == 0 {
            proof {
                lemma_common_len_zero_stays(cs, j + 1, paths@.len() as int);
            }
            return None;
        }
        j += 1;
    }
    proof {
        lemma_common_len_bounds(cs, paths@.len() as int);
    }
    let mut kept: Vec<String> = Vec::new();
    let mut k: usize = 0;
    while k < common
        invariant
            k <= common <= first.len(),
            texts(kept@) == texts(first@).take(k as int),
        decreases common - k,
    {
        let ghost before = kept@;
        kept.push(first[k].clone());
        assert(kept@ =~= before.push(first@[k as int]));
        assert(texts(kept@) =~= texts(before).push(first@[k as int]@));
        assert(texts(first@).take(k + 1) =~= texts(first@).take(k as int).push(first@[k as int]@));
        k += 1;
    }
    Some(path_from_text(render_parts(&kept).as_str()))
}

/// Number of leading components `a` and `b` share.
pub open spec fn shared_count(a: Seq<Seq<char>>, b: Seq<Seq<char>>) -> int {
    diff_index(a, b, 0, if a.len() < b.len() { a.len() as int } else { b.len() as int })
}

/// The components of the way from `from` to `to`: `..` for each
/// component of `from` past the shared ones, then the rest of `to`; when
/// nothing is shared and `to` starts at the root, `to` itself (pushing a
/// root replaces the path).
pub open spec fn relative_parts(from: Seq<Seq<char>>, to: Seq<Seq<char>>) -> Seq<Seq<char>> {
    let c = shared_count(from, to);
    if c == 0 && to.len() > 0 && to[0] == root_part() {
        to
    } else {
        Seq::new((from.len() - c) as nat, |i: int| ".."@) + to.skip(c)
    }
}

/// The relative path from `from` to `to`, both first made absolute
/// against the current directory.
pub fn relative_path(from: &str, to: &str, current_dir: &Result<String, String>) -> (r: Result<PathBuf, AltreError>)
    ensures
        match (absolute_text(from@, text_result(*current_dir)), absolute_text(to@, text_result(*current_dir))) {
            (Err(m), _) => r matches Err(AltreError::Path(e)) && e@ == m,
            (Ok(_), Err(m)) => r matches Err(AltreError::Path(e)) && e@ == m,
            (Ok(f), Ok(t)) => r matches Ok(p) && path_text(p) == Some(
                rendered(relative_parts(path_components(f), path_components(t))),
            ),
        },
{
    let fa = match DefaultPathProcessor::absolute(from, current_dir) {
        Ok(t) => t,
        Err(e) => return Err(e),
    };
    let ta = match DefaultPathProcessor::absolute(to, current_dir) {
        Ok(t) => t,
        Err(e) => return Err(e),
    };
    let fc = components_of(fa.as_str());
    let tc = components_of(ta.as_str());
    let ghost f = texts(fc@);
    let ghost t = texts(tc@);
    let lim = if fc.len() < tc.len() { fc.len() } else { tc.len() };
    let mut c: usize = 0;
    let mut found = false;
    while !found && c < lim
        invariant
            lim <= fc.len(),
            lim <= tc.len(),
            c <= lim,
            f == texts(fc@),
            t == texts(tc@),
            lim == (if f.len() < t.len() { f.len() as int } else { t.len() as int }),
            found ==> c < lim && f[c as int] != t[c as int] && diff_index(f, t, c as int, lim as int) == c,
            diff_index(f, t, 0, lim as int) == diff_index(f, t, c as int, lim as int),
        decreases lim - c, if found { 0int } else { 1int },
    {
        assert(f[c as int] == fc@[c as int]@);
        assert(t[c as int] == tc@[c as int]@);
        if !str_equal(fc[c].as_str(), tc[c].as_str()) {
            found = true;
        } else {
            c += 1;
        }
    }
    assert(c == shared_count(f, t));
    if c == 0 && tc.len() > 0 && str_equal(tc[0].as_str(), "/") {
        return Ok(path_from_text(render_parts(&tc).as_str()));
    }
    let mut parts: Vec<String> = Vec::new();
    let mut k: usize = c;
    while k < fc.len()
        invariant
            c <= k <= fc.len(),
            texts(parts@) == Seq::new((k - c) as nat, |i: int| ".."@),
        decreases fc.len() - k,
    {
        let ghost before = parts@;
        let dd = owned("..");
        let ghost ddv = dd@;
        parts.push(dd);
        assert(parts@ =~= before.push(dd));
        assert(texts(parts@) =~= texts(before).push(ddv));
        assert(texts(parts@) =~= Seq::new((k + 1 - c) as nat, |i: int| ".."@));
        k += 1;
    }
    let ghost dots = texts(parts@);
    let mut m: usize = c;
    while m < tc.len()
        invariant
            c <= m <= tc.len(),
            t == texts(tc@),
            texts(parts@) == dots + t.subrange(c as int, m as int),
        decreases tc.len() - m,
    {
        let ghost before = parts@;
        parts.push(tc[m].clone());
        assert(parts@ =~= before.push(tc@[m as int]));
        assert(texts(parts@) =~= texts(before).push(tc@[m as int]@));
        assert(t[m as int] == tc@[m as int]@);
        assert(texts(parts@) =~= dots + t.subrange(c as int, m + 1));
        m += 1;
    }
    assert(t.subrange(c as int, t.len() as int) =~= t.skip(c as int));
    Ok(path_from_text(render_parts(&parts).as_str()))
}

} // verus!
