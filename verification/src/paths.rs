//! The parts of file paths that the clipboard history needs: stem,
//! extension, parent directory and joining, through `std::path`.
//!
//! How `std::path` splits a path depends on the platform the program is built
//! for: on Windows `\` separates components and `C:` starts a drive prefix, on
//! other platforms only `/` separates. The wrappers below state what the
//! documentation gives for two kinds of paths: bare file names, read alike
//! everywhere, and Windows-style paths `dir\name`, where the statement depends
//! on whether `\` is a separator (`path_separator`).
use vstd::prelude::*;

verus! {

/// Whether `std::path::is_separator(c)` holds: whether `c` separates path
/// components on the platform the program is built for (`/` everywhere; `\`
/// on Windows). Fixed for a given build; which one is not stated.
pub uninterp spec fn path_separator(c: char) -> bool;

/// The position of the last `c` in `p`, or -1 where there is none.
pub open spec fn last_of(p: Seq<char>, c: char) -> int
    decreases p.len(),
{
    if p.len() == 0 {
        -1
    } else if p.last() == c {
        p.len() - 1
    } else {
        last_of(p.drop_last(), c)
    }
}

/// Whether `p` is a bare file name: not empty, not `.` or `..`, and free of
/// `/`, backslash and `:`, so that no platform reads a directory, root or
/// drive prefix in it. Such a path is one file name on every platform.
pub open spec fn is_bare_file_name(p: Seq<char>) -> bool {
    &&& p.len() > 0
    &&& p != seq!['.']
    &&& p != seq!['.', '.']
    &&& !p.contains('/')
    &&& !p.contains('\\')
    &&& !p.contains(':')
}

/// Whether `p` is one file name on a platform where only `/` separates
/// components: not empty, not `.` or `..`, and free of `/`.
pub open spec fn is_slash_free_name(p: Seq<char>) -> bool {
    &&& p.len() > 0
    &&& p != seq!['.']
    &&& p != seq!['.', '.']
    &&& !p.contains('/')
}

/// The extension of a file name as `Path::extension` documents it: the part
/// after the last `.`, where that `.` is not the first character.
pub open spec fn name_extension(p: Seq<char>) -> Option<Seq<char>> {
    if last_of(p, '.') > 0 {
        Some(p.subrange(last_of(p, '.') + 1, p.len() as int))
    } else {
        None
    }
}

/// The stem of a file name as `Path::file_stem` documents it: the part before
/// the last `.`, or the whole name where it has no extension.
pub open spec fn name_stem(p: Seq<char>) -> Seq<char> {
    if last_of(p, '.') > 0 {
        p.take(last_of(p, '.'))
    } else {
        p
    }
}

/// Whether `d` is a drive, such as `C:`.
pub open spec fn is_drive(d: Seq<char>) -> bool {
    &&& d.len() == 2
    &&& d[1] == ':'
    &&& ('a' <= d[0] <= 'z' || 'A' <= d[0] <= 'Z')
}

/// Whether `d` is a Windows-style directory path: bare file names separated
/// by single backslashes, possibly after a drive and a backslash, as in
/// `C:\Users\me\Images`; no trailing separator.
pub open spec fn is_backslash_dir(d: Seq<char>) -> bool
    decreases d.len(),
{
    let k = last_of(d, '\\');
    if k < 0 || k >= d.len() {
        is_bare_file_name(d)
    } else {
        &&& is_bare_file_name(d.skip(k + 1))
        &&& (is_drive(d.take(k)) || is_backslash_dir(d.take(k)))
    }
}

/// The directory part of a Windows-style path: before its last backslash.
pub open spec fn backslash_dir(p: Seq<char>) -> Seq<char> {
    p.take(last_of(p, '\\'))
}

/// The file name part of a Windows-style path: after its last backslash.
pub open spec fn backslash_name(p: Seq<char>) -> Seq<char> {
    p.skip(last_of(p, '\\') + 1)
}

/// Whether `p` is a Windows-style path `dir\name`, with `dir` as in
/// `is_backslash_dir` and `name` a bare file name.
pub open spec fn is_backslash_path(p: Seq<char>) -> bool {
    &&& last_of(p, '\\') >= 0
    &&& is_backslash_dir(backslash_dir(p))
    &&& is_bare_file_name(backslash_name(p))
}

/// Whether `p` is one relative component without prefix on this platform.
pub open spec fn is_single_component(p: Seq<char>) -> bool {
    &&& !p.contains('/')
    &&& path_separator('\\') ==> !p.contains('\\') && !p.contains(':')
}

pub proof fn lemma_last_of(p: Seq<char>, c: char)
    ensures
        -1 <= last_of(p, c) < p.len(),
        last_of(p, c) >= 0 ==> p[last_of(p, c)] == c,
        forall|j: int| last_of(p, c) < j < p.len() ==> p[j] != c,
        last_of(p, c) == -1 ==> !p.contains(c),
    decreases p.len(),
{
    if p.len() > 0 && p.last() != c {
        lemma_last_of(p.drop_last(), c);
        assert forall|j: int| last_of(p, c) < j < p.len() implies p[j] != c by {
            if j < p.len() - 1 {
                assert(p.drop_last()[j] == p[j]);
            }
        }
    }
}

/// Where `b` holds `c`, the last `c` of `a + b` is the last `c` of `b`.
pub proof fn lemma_last_of_concat(a: Seq<char>, b: Seq<char>, c: char)
    requires
        last_of(b, c) >= 0,
    ensures
        last_of(a + b, c) == a.len() + last_of(b, c),
    decreases b.len(),
{
    assert((a + b).last() == b.last());
    if b.last() != c {
        assert((a + b).drop_last() =~= a + b.drop_last());
        lemma_last_of_concat(a, b.drop_last(), c);
    }
}

/// A Windows-style directory path holds no `/` and is not empty.
pub proof fn lemma_backslash_dir(d: Seq<char>)
    requires
        is_backslash_dir(d),
    ensures
        !d.contains('/'),
        d.len() > 0,
    decreases d.len(),
{
    let k = last_of(d, '\\');
    lemma_last_of(d, '\\');
    if k >= 0 {
        let head = d.take(k);
        let tail = d.skip(k + 1);
        if is_backslash_dir(head) {
            lemma_backslash_dir(head);
        }
        assert forall|i: int| 0 <= i < d.len() implies d[i] != '/' by {
            if i < k {
                assert(head[i] == d[i]);
                if d[i] == '/' {
                    assert(head.contains('/'));
                }
            } else if i > k {
                assert(tail[i - k - 1] == d[i]);
                if d[i] == '/' {
                    assert(tail.contains('/'));
                }
            }
        }
    }
}

/// A Windows-style path is its directory, a backslash and its name.
pub proof fn lemma_backslash_path(p: Seq<char>)
    requires
        is_backslash_path(p),
    ensures
        p =~= backslash_dir(p) + seq!['\\'] + backslash_name(p),
        !p.contains('/'),
        p.len() >= 2,
{
    lemma_last_of(p, '\\');
    lemma_backslash_dir(backslash_dir(p));
    let d = backslash_dir(p);
    let n = backslash_name(p);
    assert(p =~= d + seq!['\\'] + n);
    assert forall|i: int| 0 <= i < p.len() implies p[i] != '/' by {
        if i < d.len() {
            if p[i] == '/' {
                assert(d[i] == '/');
                assert(d.contains('/'));
            }
        } else if i > d.len() {
            if p[i] == '/' {
                assert(n[i - d.len() - 1] == '/');
                assert(n.contains('/'));
            }
        }
    }
}

/// The file stem of `path` by `std::path::Path::file_stem`. Claimed as the
/// documentation gives it for a file name: the part before the last `.`, or
/// the whole name where it has no `.` after its first character. The file
/// name is the whole path for a bare file name, and for a path that holds no
/// `/` on a platform where `\` does not separate; it is the part after the
/// last backslash for a Windows-style path where `\` separates. For other
/// paths nothing is claimed.
#[verifier::external_body]
pub(crate) fn path_file_stem(path: &str) -> (stem: Option<String>)
    ensures
        is_bare_file_name(path@) ==> stem is Some && stem->0@ == name_stem(path@),
        !path_separator('\\') && is_slash_free_name(path@) ==> stem is Some && stem->0@
            == name_stem(path@),
        path_separator('\\') && is_backslash_path(path@) ==> stem is Some && stem->0@
            == name_stem(backslash_name(path@)),
{
    std::path::Path::new(path).file_stem().map(|s| s.to_string_lossy().into_owned())
}

/// The extension of `path` by `std::path::Path::extension`. A path without
/// any `.` has none, since its file name has none. Otherwise claimed as the
/// documentation gives it for a file name, the part after the last `.` unless
/// that `.` is its first character, for the same paths as `path_file_stem`.
#[verifier::external_body]
pub(crate) fn path_extension(path: &str) -> (ext: Option<String>)
    ensures
        !path@.contains('.') ==> ext is None,
        is_bare_file_name(path@) ==> opt_string(ext) == name_extension(path@),
        !path_separator('\\') && is_slash_free_name(path@) ==> opt_string(ext)
            == name_extension(path@),
        path_separator('\\') && is_backslash_path(path@) ==> opt_string(ext) == name_extension(
            backslash_name(path@),
        ),
{
    std::path::Path::new(path).extension().map(|s| s.to_string_lossy().into_owned())
}

/// The parent directory of `path` by `std::path::Path::parent`: the path
/// without its final component. Claimed for a path of one relative
/// component (a bare file name; a `/`-free name where `\` does not
/// separate), whose parent is the empty path, and for a Windows-style path
/// where `\` separates, whose parent is the part before its last backslash.
/// For other paths nothing is claimed.
#[verifier::external_body]
pub(crate) fn path_parent(path: &str) -> (parent: Option<String>)
    ensures
        is_bare_file_name(path@) ==> parent is Some && parent->0@.len() == 0,
        !path_separator('\\') && is_slash_free_name(path@) ==> parent is Some && parent->0@.len()
            == 0,
        path_separator('\\') && is_backslash_path(path@) ==> parent is Some && parent->0@
            == backslash_dir(path@),
{
    std::path::Path::new(path).parent().map(|p| p.to_string_lossy().into_owned())
}

/// `name` inside directory `dir`, by `std::path::Path::join`. Claimed where
/// `name` is one relative component without prefix: appended to an empty
/// `dir` it is the whole result, since an empty path needs no separator; and
/// where `\` separates, a bare name appended to a Windows-style directory
/// comes after one backslash. Otherwise nothing is claimed.
#[verifier::external_body]
pub(crate) fn path_join(dir: &str, name: &str) -> (joined: String)
    ensures
        dir@.len() == 0 && is_single_component(name@) ==> joined@ == name@,
        path_separator('\\') && is_backslash_dir(dir@) && is_bare_file_name(name@) ==> joined@
            == dir@ + seq!['\\'] + name@,
{
    std::path::Path::new(dir).join(name).to_string_lossy().into_owned()
}

/// The text of an optional string.
pub open spec fn opt_string(o: Option<String>) -> Option<Seq<char>> {
    match o {
        Some(s) => Some(s@),
        None => None,
    }
}

} // verus!
