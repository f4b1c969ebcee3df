//! The few string operations that the library takes from the standard
//! library on trust.

use vstd::prelude::*;

verus! {

/// The lower-case form of `s` as the standard library computes it.
pub uninterp spec fn lowercase(s: Seq<char>) -> Seq<char>;

/// The final component of the path `path`, as the standard library parses
/// paths by the rules of the target that the library is built for; `None`
/// where it finds none. Within one build it depends on the path alone.
pub uninterp spec fn path_file_name(path: Seq<char>) -> Option<Seq<char>>;

/// `needle` stands in `haystack` at offset `at`.
pub open spec fn occurs_at(needle: Seq<char>, haystack: Seq<char>, at: int) -> bool {
    &&& 0 <= at
    &&& at + needle.len() <= haystack.len()
    &&& haystack.subrange(at, at + needle.len()) == needle
}

/// `needle` stands somewhere in `haystack`. The empty string stands in every
/// string.
pub open spec fn contains_text(haystack: Seq<char>, needle: Seq<char>) -> bool {
    exists|at: int| occurs_at(needle, haystack, at)
}

/// The position of the first `c` in `s`, if `s` holds one.
pub open spec fn first_index_of(s: Seq<char>, c: char) -> Option<int>
    decreases s.len(),
{
    if s.len() == 0 {
        None
    } else if s[0] == c {
        Some(0)
    } else {
        match first_index_of(s.skip(1), c) {
            Some(i) => Some(i + 1),
            None => None,
        }
    }
}

/// `a` comes before `b`, or is `b`, in the dictionary order of code points:
/// the first character in which they differ decides, and a string comes
/// before every string that it begins.
pub open spec fn lex_le(a: Seq<char>, b: Seq<char>) -> bool
    decreases a.len(),
{
    if a.len() == 0 {
        true
    } else if b.len() == 0 {
        false
    } else if a[0] != b[0] {
        (a[0] as int) < (b[0] as int)
    } else {
        lex_le(a.skip(1), b.skip(1))
    }
}

/// Of two strings one comes before the other, or they are equal.
pub proof fn lemma_lex_le_total(a: Seq<char>, b: Seq<char>)
    ensures
        lex_le(a, b) || lex_le(b, a),
    decreases a.len(),
{
    if a.len() > 0 && b.len() > 0 {
        if a[0] == b[0] {
            lemma_lex_le_total(a.skip(1), b.skip(1));
        } else {
            assert(a[0] as int != b[0] as int);
        }
    }
}

/// The dictionary order is transitive.
pub proof fn lemma_lex_le_transitive(a: Seq<char>, b: Seq<char>, c: Seq<char>)
    requires
        lex_le(a, b),
        lex_le(b, c),
    ensures
        lex_le(a, c),
    decreases a.len(),
{
    if a.len() > 0 && b.len() > 0 && c.len() > 0 && a[0] == b[0] && b[0] == c[0] {
        lemma_lex_le_transitive(a.skip(1), b.skip(1), c.skip(1));
    }
}

/// Calls `str::to_lowercase`. Trusted: the result is the standard library's
/// lower-case form of the argument, which depends on the argument alone.
#[verifier::external_body]
pub(crate) fn to_lowercase(s: &str) -> (lower: String)
    ensures
        lower@ == lowercase(s@),
{
    s.to_lowercase()
}

/// Calls `str::contains` with a string pattern. Trusted: the result tells
/// whether the pattern's characters stand, in order and without a gap,
/// somewhere in the string.
#[verifier::external_body]
pub(crate) fn str_contains(haystack: &str, needle: &str) -> (found: bool)
    ensures
        found == contains_text(haystack@, needle@),
{
    haystack.contains(needle)
}

/// Calls `Path::file_name` on `path` and hands the component back as a
/// string. Trusted: the result is the standard library's reading of the
/// path by the rules of the build's target, which depends on the path alone.
#[verifier::external_body]
pub(crate) fn file_name_of(path: &str) -> (name: Option<String>)
    ensures
        name is Some == path_file_name(path@) is Some,
        name is Some ==> name.unwrap()@ == path_file_name(path@).unwrap(),
{
    std::path::Path::new(path).file_name().and_then(|f| f.to_str()).map(|f| f.to_string())
}

/// Compares two strings with `<=`. Trusted: the standard library orders
/// strings lexicographically by their bytes, which is the dictionary order
/// of their code points.
#[verifier::external_body]
pub(crate) fn str_le(a: &str, b: &str) -> (le: bool)
    ensures
        le == lex_le(a@, b@),
{
    a <= b
}

/// Calls `str::split_once` with a character as the delimiter. Trusted: the
/// string is parted at the first occurrence of the delimiter, which itself
/// is left out; without an occurrence the result is `None`.
#[verifier::external_body]
pub(crate) fn split_once_at(s: &str, delimiter: char) -> (parts: Option<(String, String)>)
    ensures
        match first_index_of(s@, delimiter) {
            Some(i) => parts is Some && parts.unwrap().0@ == s@.take(i) && parts.unwrap().1@
                == s@.skip(i + 1),
            None => parts is None,
        },
{
    s.split_once(delimiter).map(|(head, tail)| (head.to_string(), tail.to_string()))
}

} // verus!
