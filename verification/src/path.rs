//! Path resolution: anchoring a path at a working directory and accepting
//! what the filesystem reports as its canonical form.
//!
//! A path is a sequence of characters, and the separator of its segments is
//! a value that the caller hands in: `/` where paths are POSIX paths, `\`
//! where they are Windows paths. With `\` a path may also start at a drive
//! (`C:\dir`), and a canonical form carries the verbatim mark (`\\?\`)
//! that the platform puts in front of it.

use vstd::prelude::*;

verus! {

/// The separator of Windows paths, with which drives and the verbatim mark
/// come into play.
pub const BACKSLASH: char = '\\';

/// `path` starts with a drive: a letter or other character, a colon and a
/// separator.
pub open spec fn has_drive(path: Seq<char>, sep: char) -> bool {
    path.len() >= 3 && path[1] == ':' && path[2] == sep
}

/// A path is absolute when it starts at the root, that is with a separator,
/// or, where the separator is the backslash, at a drive.
pub open spec fn is_absolute(path: Seq<char>, sep: char) -> bool {
    (path.len() > 0 && path[0] == sep) || (sep == BACKSLASH && has_drive(path, sep))
}

/// The path that resolution starts from: an absolute `path` as it is, a
/// relative one appended to `cwd`, with one separator between the two unless
/// `cwd` is empty or already ends in one.
pub open spec fn anchored(path: Seq<char>, cwd: Seq<char>, sep: char) -> Seq<char> {
    if is_absolute(path, sep) {
        path
    } else if cwd.len() == 0 || cwd.last() == sep {
        cwd + path
    } else {
        cwd + seq![sep] + path
    }
}

/// Position `k` is just past the end of a segment.
pub open spec fn segment_ends(path: Seq<char>, sep: char, k: int) -> bool {
    k >= path.len() || path[k] == sep
}

/// A segment that is neither empty, nor `.`, nor `..` begins at position `k`.
pub open spec fn plain_segment(path: Seq<char>, sep: char, k: int) -> bool {
    &&& 0 <= k < path.len()
    &&& path[k] != sep
    &&& !(path[k] == '.' && segment_ends(path, sep, k + 1))
    &&& !(path[k] == '.' && k + 1 < path.len() && path[k + 1] == '.' && segment_ends(
        path,
        sep,
        k + 2,
    ))
}

/// The length of the root that a canonical path starts with: one separator,
/// or, where the separator is the backslash, the verbatim mark of four
/// characters. It is 0 for a path that starts with neither.
pub open spec fn root_len(path: Seq<char>, sep: char) -> int {
    if path.len() == 0 || path[0] != sep {
        0
    } else if sep == BACKSLASH && path.len() >= 4 && path[1] == sep && path[2] == '?' && path[3]
        == sep {
        4
    } else {
        1
    }
}

/// The separator at position `i` may end the path: only after the verbatim
/// mark, and only behind a drive's colon (`\\?\C:\`).
pub open spec fn closes_drive(path: Seq<char>, sep: char, i: int) -> bool {
    root_len(path, sep) == 4 && i + 1 == path.len() && i >= 1 && path[i - 1] == ':'
}

/// The lexical shape of a canonical path: either the one separator that is
/// the root, or a root and then a chain of plain segments, each introduced by
/// exactly one separator and none following the last, but for the one that
/// closes a verbatim drive.
pub open spec fn is_canonical(path: Seq<char>, sep: char) -> bool {
    &&& root_len(path, sep) > 0
    &&& path.len() == 1 || {
        &&& plain_segment(path, sep, root_len(path, sep))
        &&& forall|i: int|
            root_len(path, sep) <= i < path.len() && path[i] == sep ==> plain_segment(
                path,
                sep,
                i + 1,
            ) || closes_drive(path, sep, i)
    }
}

/// What the resolution of `target` comes to, given the filesystem's answer:
/// the canonical form it found, if it found one and it has the shape of one;
/// otherwise the failure, which names `target`.
pub open spec fn accepted(target: Seq<char>, outcome: Option<Seq<char>>, sep: char) -> Result<
    Seq<char>,
    Seq<char>,
> {
    if outcome is Some && is_canonical(outcome->0, sep) {
        Ok(outcome->0)
    } else {
        Err(target)
    }
}

/// Resolving `path` from `cwd` on a filesystem whose canonical forms are
/// given by `canon`, which answers `None` for a path that does not exist or
/// cannot be canonicalized.
pub open spec fn resolved_on(
    canon: spec_fn(Seq<char>) -> Option<Seq<char>>,
    path: Seq<char>,
    cwd: Seq<char>,
    sep: char,
) -> Result<Seq<char>, Seq<char>> {
    accepted(anchored(path, cwd, sep), canon(anchored(path, cwd, sep)), sep)
}

/// A path that could not be resolved.
#[derive(Debug, PartialEq, Eq)]
pub struct PathError {
    /// The anchored path that resolution started from.
    pub path: String,
}

/// The model of a resolution's result: the resolved path, or the path that
/// failed.
pub open spec fn result_view(r: Result<String, PathError>) -> Result<Seq<char>, Seq<char>> {
    match r {
        Ok(resolved) => Ok(resolved@),
        Err(e) => Err(e.path@),
    }
}

/// The characters of `text`, in order.
pub fn chars_of(text: &str) -> (chars: Vec<char>)
    ensures
        chars@ == text@,
{
    broadcast use vstd::string::group_string_axioms;

    let mut chars: Vec<char> = Vec::new();
    for c in it: text.chars()
        invariant
            it.seq() == text@,
            chars@ == it.seq().take(it.index()),
    {
        chars.push(c);
    }
    chars
}

/// Whether `path` is absolute, with `sep` as the separator.
pub fn is_absolute_path(path: &str, sep: char) -> (r: bool)
    ensures
        r == is_absolute(path@, sep),
{
    let chars: Vec<char> = chars_of(path);
    let len: usize = chars.len();
    (len > 0 && chars[0] == sep) || (sep == BACKSLASH && len >= 3 && chars[1] == ':' && chars[2]
        == sep)
}

/// Anchors `path` at `cwd`, with `sep` as the separator.
pub fn anchor(path: &str, cwd: &str, sep: char) -> (joined: String)
    ensures
        joined@ == anchored(path@, cwd@, sep),
{
    if is_absolute_path(path, sep) {
        return path.to_owned();
    }
    let width: usize = cwd.unicode_len();
    let mut joined: String = cwd.to_owned();
    if width > 0 && cwd.get_char(width - 1) != sep {
        push_char(&mut joined, sep);
    }
    joined.append(path);
    joined
}

/// Appends one character to a string, by `String::push`: as std documents
/// it, the string is then what it was, followed by the character.
#[verifier::external_body]
fn push_char(text: &mut String, c: char)
    ensures
        final(text)@ == old(text)@.push(c),
{
    text.push(c);
}

/// Whether `path` has the lexical shape of a canonical path, with `sep` as
/// the separator.
pub fn is_canonical_path(path: &str, sep: char) -> (r: bool)
    ensures
        r == is_canonical(path@, sep),
{
    let chars: Vec<char> = chars_of(path);
    let len: usize = chars.len();
    if len == 0 || chars[0] != sep {
        return false;
    }
    let verbatim: bool = sep == BACKSLASH && len >= 4 && chars[1] == sep && chars[2] == '?'
        && chars[3] == sep;
    let root: usize = if verbatim {
        4
    } else {
        1
    };
    if len == 1 {
        return true;
    }
    if !plain_at(&chars, sep, root) {
        return false;
    }
    let mut i: usize = root;
    while i < len
        invariant
            chars@ == path@,
            len == chars.len(),
            root == root_len(path@, sep),
            verbatim == (root == 4),
            0 < root < len,
            plain_segment(path@, sep, root as int),
            root <= i <= len,
            forall|j: int|
                root <= j < i && path@[j] == sep ==> plain_segment(path@, sep, j + 1)
                    || closes_drive(path@, sep, j),
        decreases len - i,
    {
        if chars[i] == sep {
            let closes: bool = verbatim && i + 1 == len && chars[i - 1] == ':';
            if !closes && !plain_at(&chars, sep, i + 1) {
                return false;
            }
        }
        i = i + 1;
    }
    true
}

/// Whether a plain segment begins at position `k` of `chars`.
fn plain_at(chars: &Vec<char>, sep: char, k: usize) -> (r: bool)
    ensures
        r == plain_segment(chars@, sep, k as int),
{
    let len: usize = chars.len();
    if k >= len || chars[k] == sep {
        return false;
    }
    if chars[k] != '.' {
        return true;
    }
    if k + 1 >= len || chars[k + 1] == sep {
        return false;
    }
    !(chars[k + 1] == '.' && (k + 2 >= len || chars[k + 2] == sep))
}

/// Asks the filesystem for the canonical form of `path`, by
/// `std::path::Path::canonicalize`. The answer depends on what is on disk, so
/// nothing is claimed of it: [`resolution`] tests its shape instead of
/// assuming it. `None` stands for every failure the call reports, and for a
/// canonical form that is not valid UTF-8.
#[verifier::external_body]
fn canonical_form(path: &str) -> (outcome: Option<String>) {
    match std::path::Path::new(path).canonicalize() {
        Ok(found) => found.into_os_string().into_string().ok(),
        Err(_) => None,
    }
}

/// Settles the resolution of `target` once the filesystem has answered.
pub fn resolution(target: String, outcome: Option<String>, sep: char) -> (r: Result<
    String,
    PathError,
>)
    ensures
        result_view(r) == accepted(target@, outcome.deep_view(), sep),
{
    match outcome {
        Some(found) => {
            if is_canonical_path(found.as_str(), sep) {
                Ok(found)
            } else {
                Err(PathError { path: target })
            }
        },
        None => Err(PathError { path: target }),
    }
}

/// Resolves `pathStr` to a canonical absolute path: anchors it at `cwd`, asks
/// the filesystem for the canonical form of the anchored path, and accepts
/// the answer if it has the shape of a canonical path. `separator` is the
/// separator of the platform's paths.
///
/// Whether it succeeds is up to the filesystem. A path that comes back is
/// canonical; a failure names the anchored path that was looked up.
pub fn normalizePath(pathStr: &str, cwd: &str, separator: char) -> (r: Result<String, PathError>)
    ensures
        match r {
            Ok(resolved) => is_canonical(resolved@, separator),
            Err(e) => e.path@ == anchored(pathStr@, cwd@, separator),
        },
{
    let target: String = anchor(pathStr, cwd, separator);
    let outcome: Option<String> = canonical_form(target.as_str());
    resolution(target, outcome, separator)
}

/// Joining first changes nothing: on any filesystem, a relative path resolves
/// from a working directory to what its join with that directory resolves to,
/// provided the directory is absolute (or empty, which stands for "here").
pub proof fn lemma_join_then_resolve(
    canon: spec_fn(Seq<char>) -> Option<Seq<char>>,
    path: Seq<char>,
    cwd: Seq<char>,
    sep: char,
)
    requires
        !is_absolute(path, sep),
        cwd.len() == 0 || is_absolute(cwd, sep),
    ensures
        anchored(anchored(path, cwd, sep), cwd, sep) == anchored(path, cwd, sep),
        resolved_on(canon, path, cwd, sep) == resolved_on(canon, anchored(path, cwd, sep), cwd, sep),
{
}

/// A canonical path that the filesystem maps to itself resolves to itself,
/// whatever the working directory.
pub proof fn lemma_canonical_is_fixed(
    canon: spec_fn(Seq<char>) -> Option<Seq<char>>,
    path: Seq<char>,
    cwd: Seq<char>,
    sep: char,
)
    requires
        is_canonical(path, sep),
        canon(path) == Some(path),
    ensures
        resolved_on(canon, path, cwd, sep) == Ok::<Seq<char>, Seq<char>>(path),
{
}

/// A path whose anchored form the filesystem cannot canonicalize does not
/// resolve, and the failure names that anchored form.
pub proof fn lemma_missing_target_fails(
    canon: spec_fn(Seq<char>) -> Option<Seq<char>>,
    path: Seq<char>,
    cwd: Seq<char>,
    sep: char,
)
    requires
        canon(anchored(path, cwd, sep)) is None,
    ensures
        resolved_on(canon, path, cwd, sep) == Err::<Seq<char>, Seq<char>>(
            anchored(path, cwd, sep),
        ),
{
}

/// Whatever the filesystem answers, a resolution that succeeds yields a
/// canonical path, and a canonical path is absolute.
pub proof fn lemma_resolved_is_canonical(
    canon: spec_fn(Seq<char>) -> Option<Seq<char>>,
    path: Seq<char>,
    cwd: Seq<char>,
    sep: char,
)
    ensures
        resolved_on(canon, path, cwd, sep) matches Ok(resolved) ==> is_canonical(resolved, sep)
            && is_absolute(resolved, sep),
{
}

} // verus!
