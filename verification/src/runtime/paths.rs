//! The rule for relative paths inside the guest's input, tool and output
//! directories.
use vstd::prelude::*;
use vstd::utf8::encode_utf8;

verus! {

/// The longest relative path, in bytes.
pub const MAX_RELATIVE_PATH_BYTES: usize = 512;

/// A character that no relative path may hold: a backslash, a colon, NUL,
/// a line feed or a carriage return.
pub open spec fn is_forbidden_path_char(c: char) -> bool {
    c == '\\' || c == ':' || c == '\0' || c == '\n' || c == '\r'
}

/// Index `i` starts a `/`-separated part of `c`.
pub open spec fn part_starts_at(c: Seq<char>, i: int) -> bool {
    i == 0 || (0 < i <= c.len() && c[i - 1] == '/')
}

/// Index `j` ends a `/`-separated part of `c`.
pub open spec fn part_ends_at(c: Seq<char>, j: int) -> bool {
    j == c.len() || (0 <= j < c.len() && c[j] == '/')
}

/// No `/` stands in `c[i..j]`.
pub open spec fn slash_free(c: Seq<char>, i: int, j: int) -> bool {
    forall|k: int| i <= k < j ==> c[k] != '/'
}

/// `c[i..j]` is a part that `split('/')` yields.
pub open spec fn is_part(c: Seq<char>, i: int, j: int) -> bool {
    &&& 0 <= i <= j <= c.len()
    &&& part_starts_at(c, i)
    &&& part_ends_at(c, j)
    &&& slash_free(c, i, j)
}

/// The part `c[i..j]` is neither empty nor `.` nor `..`.
pub open spec fn part_is_name(c: Seq<char>, i: int, j: int) -> bool {
    &&& i < j
    &&& !(j == i + 1 && c[i] == '.')
    &&& !(j == i + 2 && c[i] == '.' && c[i + 1] == '.')
}

/// Every part of `c` between slashes is a proper name.
pub open spec fn parts_are_names(c: Seq<char>) -> bool {
    forall|i: int, j: int|
        #![trigger part_starts_at(c, i), part_ends_at(c, j)]
        is_part(c, i, j) ==> part_is_name(c, i, j)
}

/// A path that may be joined under a directory: at most 512 bytes, none of
/// the forbidden characters, and `/`-separated parts that are neither empty,
/// `.` nor `..`.
pub open spec fn relative_path_ok(path: Seq<char>) -> bool {
    &&& encode_utf8(path).len() <= MAX_RELATIVE_PATH_BYTES
    &&& forall|k: int| 0 <= k < path.len() ==> !is_forbidden_path_char(#[trigger] path[k])
    &&& parts_are_names(path)
}

/// A string has at least as many UTF-8 bytes as characters.
proof fn lemma_chars_fit_in_bytes(c: Seq<char>)
    ensures
        c.len() <= encode_utf8(c).len(),
    decreases c.len(),
{
    if c.len() > 0 {
        lemma_chars_fit_in_bytes(c.drop_first());
    }
}

/// Returns `path` when it is a safe relative path (see [`relative_path_ok`]).
pub fn relative_path(path: &str) -> (res: Option<&str>)
    ensures
        res == (if relative_path_ok(path@) {
            Some(path)
        } else {
            None
        }),
{
    if path.as_bytes().len() > MAX_RELATIVE_PATH_BYTES {
        return None;
    }
    let ghost c = path@;
    proof {
        lemma_chars_fit_in_bytes(c);
    }
    let mut start: usize = 0;
    let mut k: usize = 0;
    let mut c0: char = ' ';
    let mut c1: char = ' ';
    for ch in it: path.chars()
        invariant
            c == path@,
            it.seq() == c,
            k == it.index(),
            k <= c.len(),
            c.len() <= MAX_RELATIVE_PATH_BYTES,
            start <= k,
            part_starts_at(c, start as int),
            slash_free(c, start as int, k as int),
            k > start ==> c0 == c[start as int],
            k > start + 1 ==> c1 == c[start as int + 1],
            forall|m: int| 0 <= m < k ==> !is_forbidden_path_char(#[trigger] c[m]),
            forall|i: int, j: int|
                #![trigger part_starts_at(c, i), part_ends_at(c, j)]
                j < k && is_part(c, i, j) ==> part_is_name(c, i, j),
    {
        if ch == '\\' || ch == ':' || ch == '\0' || ch == '\n' || ch == '\r' {
            return None;
        }
        if ch == '/' {
            let len = k - start;
            if len == 0 || (len == 1 && c0 == '.') || (len == 2 && c0 == '.' && c1 == '.') {
                assert(part_starts_at(c, start as int) && part_ends_at(c, k as int));
                return None;
            }
            assert forall|i: int, j: int|
                #![trigger part_starts_at(c, i), part_ends_at(c, j)]
                j < k + 1 && is_part(c, i, j) implies part_is_name(c, i, j) by {
                if j == k {
                    if i < start {
                        assert(c[start as int - 1] == '/');
                    } else if i > start {
                        assert(c[i - 1] == '/');
                    }
                }
            }
            start = k + 1;
        } else {
            if k == start {
                c0 = ch;
            } else if k == start + 1 {
                c1 = ch;
            }
        }
        k = k + 1;
    }
    let len = k - start;
    if len == 0 || (len == 1 && c0 == '.') || (len == 2 && c0 == '.' && c1 == '.') {
        assert(part_starts_at(c, start as int) && part_ends_at(c, k as int));
        return None;
    }
    assert forall|i: int, j: int|
        #![trigger part_starts_at(c, i), part_ends_at(c, j)]
        is_part(c, i, j) implies part_is_name(c, i, j) by {
        if j == k {
            if i < start {
                assert(c[start as int - 1] == '/');
            } else if i > start {
                assert(c[i - 1] == '/');
            }
        }
    }
    Some(path)
}

/// A path that [`relative_path`] accepts stays beneath the directory it is
/// joined to: it is not empty, neither starts nor ends with `/`, holds no
/// `//`, no part of it is `.` or `..`, and it names no drive or Windows
/// separator.
pub proof fn lemma_accepted_path_stays_below(path: Seq<char>)
    requires
        relative_path_ok(path),
    ensures
        path.len() > 0,
        path[0] != '/',
        path[path.len() - 1] != '/',
        forall|k: int| 0 <= k < path.len() - 1 ==> !(path[k] == '/' && #[trigger] path[k + 1] == '/'),
        forall|k: int|
            0 <= k && k + 1 < path.len() && path[k] == '.' && #[trigger] path[k + 1] == '.' ==> (k
                > 0 && path[k - 1] != '/') || (k + 2 < path.len() && path[k + 2] != '/'),
        forall|k: int|
            0 <= k < path.len() ==> (#[trigger] path[k]) != '\\' && path[k] != ':',
{
    let n = path.len() as int;
    if n == 0 {
        assert(is_part(path, 0, 0) && part_starts_at(path, 0) && part_ends_at(path, 0));
    }
    if path[0] == '/' {
        assert(is_part(path, 0, 0) && part_starts_at(path, 0) && part_ends_at(path, 0));
    }
    if path[n - 1] == '/' {
        assert(is_part(path, n, n) && part_starts_at(path, n) && part_ends_at(path, n));
    }
    assert forall|k: int| 0 <= k < path.len() - 1 implies !(path[k] == '/' && #[trigger] path[k
        + 1] == '/') by {
        if path[k] == '/' && path[k + 1] == '/' {
            assert(part_starts_at(path, k + 1) && part_ends_at(path, k + 1));
            assert(is_part(path, k + 1, k + 1));
        }
    }
    assert forall|k: int|
        0 <= k && k + 1 < path.len() && path[k] == '.' && #[trigger] path[k + 1] == '.' implies (k
            > 0 && path[k - 1] != '/') || (k + 2 < path.len() && path[k + 2] != '/') by {
        if (k == 0 || path[k - 1] == '/') && (k + 2 == path.len() || path[k + 2] == '/') {
            assert(part_starts_at(path, k) && part_ends_at(path, k + 2));
            assert(is_part(path, k, k + 2));
        }
    }
    assert forall|k: int| 0 <= k < path.len() implies (#[trigger] path[k]) != '\\' && path[k]
        != ':' by {
        assert(!is_forbidden_path_char(path[k]));
    }
}

/// An ASCII letter, an ASCII digit, `-`, `.` or `_`.
pub open spec fn is_plain_name_char(c: char) -> bool {
    ('a' <= c <= 'z') || ('A' <= c <= 'Z') || ('0' <= c <= '9') || c == '-' || c == '.' || c
        == '_'
}

/// Every character of `c` from index `i` on is a plain name character.
pub open spec fn plain_from(c: Seq<char>, i: int) -> bool
    decreases c.len() - i,
{
    if i < 0 || i >= c.len() {
        true
    } else {
        is_plain_name_char(c[i]) && plain_from(c, i + 1)
    }
}

proof fn lemma_plain_from_all(c: Seq<char>, i: int)
    requires
        0 <= i,
        plain_from(c, i),
    ensures
        forall|k: int| i <= k < c.len() ==> is_plain_name_char(#[trigger] c[k]),
    decreases c.len() - i,
{
    if i < c.len() {
        lemma_plain_from_all(c, i + 1);
    }
}

/// Text of ASCII characters has one UTF-8 byte per character.
proof fn lemma_ascii_bytes(c: Seq<char>)
    requires
        forall|k: int| 0 <= k < c.len() ==> (#[trigger] c[k] as u32) < 128,
    ensures
        encode_utf8(c).len() == c.len(),
    decreases c.len(),
{
    if c.len() > 0 {
        assert((c[0] as u32) < 128);
        assert forall|k: int| 0 <= k < c.drop_first().len() implies (#[trigger] c.drop_first()[k]
            as u32) < 128 by {
            assert(c.drop_first()[k] == c[k + 1]);
        }
        lemma_ascii_bytes(c.drop_first());
    }
}

/// A name of 1 to 512 plain characters (letters, digits, `-`, `.`, `_`)
/// that is neither `.` nor `..` is a safe relative path.
pub proof fn lemma_plain_name_is_relative(c: Seq<char>)
    requires
        0 < c.len() <= MAX_RELATIVE_PATH_BYTES,
        forall|k: int| 0 <= k < c.len() ==> is_plain_name_char(#[trigger] c[k]),
        !(c.len() == 1 && c[0] == '.'),
        !(c.len() == 2 && c[0] == '.' && c[1] == '.'),
    ensures
        relative_path_ok(c),
{
    assert forall|k: int| 0 <= k < c.len() implies (#[trigger] c[k] as u32) < 128 by {
        assert(is_plain_name_char(c[k]));
    }
    lemma_ascii_bytes(c);
    assert forall|k: int| 0 <= k < c.len() implies !is_forbidden_path_char(#[trigger] c[k]) by {
        assert(is_plain_name_char(c[k]));
    }
    assert forall|i: int, j: int|
        #![trigger part_starts_at(c, i), part_ends_at(c, j)]
        is_part(c, i, j) implies part_is_name(c, i, j) by {
        if i > 0 {
            assert(is_plain_name_char(c[i - 1]));
        }
        if j < c.len() {
            assert(is_plain_name_char(c[j]));
        }
    }
}

/// A literal-like name whose characters are checked one by one: see
/// [`lemma_plain_name_is_relative`].
pub proof fn lemma_plain_text_is_relative(c: Seq<char>)
    requires
        0 < c.len() <= MAX_RELATIVE_PATH_BYTES,
        plain_from(c, 0),
        !(c.len() == 1 && c[0] == '.'),
        !(c.len() == 2 && c[0] == '.' && c[1] == '.'),
    ensures
        relative_path_ok(c),
{
    lemma_plain_from_all(c, 0);
    lemma_plain_name_is_relative(c);
}

/// Every character of a text whose characters all check as plain from the
/// start is plain.
pub proof fn lemma_plain_from_all_public(c: Seq<char>)
    requires
        plain_from(c, 0),
    ensures
        forall|k: int| 0 <= k < c.len() ==> is_plain_name_char(#[trigger] c[k]),
{
    lemma_plain_from_all(c, 0);
}

/// A path holds none of backslash, colon, NUL, line feed and carriage
/// return.
pub open spec fn holds_no_unsafe_char(path: Seq<char>) -> bool {
    forall|k: int|
        0 <= k < path.len() ==> path[k] != '\\' && path[k] != ':' && path[k] != '\0' && path[k]
            != '\n' && path[k] != '\r'
}

/// Every `/`-separated part of `path` (a maximal run without `/`, empty
/// ones included) is non-empty and neither `.` nor `..`.
pub open spec fn every_part_is_a_name(path: Seq<char>) -> bool {
    forall|i: int, j: int|
        #![trigger part_starts_at(path, i), part_ends_at(path, j)]
        0 <= i <= j <= path.len() && part_starts_at(path, i) && part_ends_at(path, j) && (forall|
            m: int,
        | i <= m < j ==> path[m] != '/') ==> {
            &&& i < j
            &&& !(j == i + 1 && path[i] == '.')
            &&& !(j == i + 2 && path[i] == '.' && path[i + 1] == '.')
        }
}

/// Exactly the unsafe paths are refused: a path is accepted when it is at
/// most 512 bytes, holds none of backslash, colon, NUL, line feed and
/// carriage return, and each of its `/`-separated parts is non-empty and
/// neither `.` nor `..`; any other character, a space among them, is
/// allowed. Conversely an accepted path meets all of this.
pub proof fn lemma_relative_path_law(path: Seq<char>)
    ensures
        relative_path_ok(path) <==> (encode_utf8(path).len() <= 512 && holds_no_unsafe_char(path)
            && every_part_is_a_name(path)),
{
    if holds_no_unsafe_char(path) {
        assert forall|k: int| 0 <= k < path.len() implies !is_forbidden_path_char(
            #[trigger] path[k],
        ) by {}
    }
    if relative_path_ok(path) {
        assert forall|k: int| 0 <= k < path.len() implies path[k] != '\\' && path[k] != ':'
            && path[k] != '\0' && path[k] != '\n' && path[k] != '\r' by {
            assert(!is_forbidden_path_char(path[k]));
        }
    }
}

} // verus!
