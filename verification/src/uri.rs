//! The URI-handler conversions: a native path rendered as a
//! `file`-scheme URI, and a URI resolved back to the path it names.
//!
//! Both directions go through the `url` crate and are pure functions of
//! their input string on the platform this element targets (POSIX-style
//! paths). Their results are named by uninterpreted spec functions; the
//! facts stated beyond the naming are the round trip on normalized
//! absolute paths and the `file://` shape of every rendering, which the
//! library's URI laws build on. The scheme test itself
//! ([`has_file_scheme`]) is the element's own verified logic, applied
//! before any URI is handed to the conversion.

use vstd::prelude::*;

verus! {

/// The `file`-scheme URI that `url::Url::from_file_path` builds for the
/// path `p`, serialized, or `None` where the path is refused (it is not
/// absolute).
pub uninterp spec fn file_uri_of_path(p: Seq<char>) -> Option<Seq<char>>;

/// The native path that `url::Url::parse` followed by
/// `Url::to_file_path` recovers from the string `s`, or `None` where
/// `s` does not parse as a URL, has no path segments, has a host other
/// than an empty one or `localhost`, or decodes to a path that is not
/// valid UTF-8. `to_file_path` itself never looks at the scheme; the
/// element's own scheme test ([`has_file_scheme`]) stands in front of
/// the conversion wherever a URI is accepted.
pub uninterp spec fn path_of_file_uri(s: Seq<char>) -> Option<Seq<char>>;

/// The string begins with the literal `file://`, the scheme test the
/// element applies before it accepts a URI.
pub open spec fn has_file_scheme(s: Seq<char>) -> bool {
    &&& s.len() >= 7
    &&& s[0] == 'f'
    &&& s[1] == 'i'
    &&& s[2] == 'l'
    &&& s[3] == 'e'
    &&& s[4] == ':'
    &&& s[5] == '/'
    &&& s[6] == '/'
}

/// Runtime view of [`has_file_scheme`].
pub(crate) fn begins_with_file_scheme(s: &str) -> (r: bool)
    ensures
        r == has_file_scheme(s@),
{
    if s.unicode_len() < 7 {
        return false;
    }
    s.get_char(0) == 'f' && s.get_char(1) == 'i' && s.get_char(2) == 'l' && s.get_char(3) == 'e'
        && s.get_char(4) == ':' && s.get_char(5) == '/' && s.get_char(6) == '/'
}

/// An ASCII letter.
pub open spec fn is_ascii_alpha(c: char) -> bool {
    ('a' <= c && c <= 'z') || ('A' <= c && c <= 'Z')
}

/// Index `j` closes a path segment of `p`: it is the end of the string
/// or a separator.
pub open spec fn seg_ends_at(p: Seq<char>, j: int) -> bool {
    j == p.len() || p[j] == '/'
}

/// A `.` or `..` path segment starts at index `i` of `p`.
pub open spec fn dot_segment_at(p: Seq<char>, i: int) -> bool {
    p[i] == '.' && (seg_ends_at(p, i + 1) || (p[i + 1] == '.' && seg_ends_at(p, i + 2)))
}

/// A normalized absolute POSIX path: rooted, every segment nonempty
/// and neither `.` nor `..`, no trailing separator, and no segment
/// shaped like a Windows drive letter (`"x:"` or `"x|"`) either at the
/// start or at the end of the path, since the URL machinery treats
/// both positions specially. Such paths survive the URI round trip
/// unchanged: the URL parser folds dot segments, empty segments, and
/// trailing separators away and rewrites a drive-letter-shaped first
/// segment (`/c|/…` becomes `/c:/…`), so a path holding any of those
/// shapes can come back in a different spelling.
pub open spec fn is_normalized_path(p: Seq<char>) -> bool {
    &&& p.len() >= 2
    &&& p[0] == '/'
    &&& p[p.len() - 1] != '/'
    &&& forall|i: int| 0 < i < p.len() ==> !(p[i - 1] == '/' && #[trigger] p[i] == '/')
    &&& forall|i: int| 0 < i < p.len() && #[trigger] p[i - 1] == '/' ==> !dot_segment_at(p, i)
    &&& !(is_ascii_alpha(p[p.len() - 2]) && (p[p.len() - 1] == ':' || p[p.len() - 1] == '|'))
    &&& !(p.len() >= 3 && is_ascii_alpha(p[1]) && (p[2] == ':' || p[2] == '|') && seg_ends_at(
        p,
        3,
    ))
}

/// Relies on `url::Url::from_file_path`, whose result is returned
/// serialized (`Url::as_str`): an absolute path is rendered as the
/// `file` URI naming it — the serialization always begins `file://` —
/// a function of the path alone on this element's target platform; a
/// relative path is refused. On a normalized absolute path
/// ([`is_normalized_path`]) the rendering succeeds, and resolving the
/// URI back through `url::Url::parse` and `Url::to_file_path` recovers
/// exactly the original path: the serialization percent-encodes every
/// byte the parser would rewrite, and normalized paths hold none of
/// the shapes (dot segments, empty segments, drive-letter-shaped first
/// or last segments) the parser or the decoder rewrites or folds away.
#[verifier::external_body]
pub(crate) fn path_to_file_uri(p: &str) -> (r: Option<String>)
    ensures
        r is Some <==> file_uri_of_path(p@) is Some,
        r matches Some(u) ==> file_uri_of_path(p@) == Some(u@) && has_file_scheme(u@) && (
        is_normalized_path(p@) ==> path_of_file_uri(u@) == Some(p@)),
        r is None ==> !is_normalized_path(p@),
{
    match url::Url::from_file_path(p) {
        Ok(u) => Some(String::from(u.as_str())),
        Err(()) => None,
    }
}

/// Relies on `url::Url::parse` and `Url::to_file_path`: the URI is
/// parsed, converted to the native path it names — `to_file_path`
/// accepts any URL with path segments whose host is empty or
/// `localhost`; it does not test the scheme, so the element's own
/// scheme check stands in front of this call — and handed back as a
/// string where the decoded path is valid UTF-8. Any failure along
/// the way is `None`; the result is a function of the URI alone on
/// this element's target platform.
#[verifier::external_body]
pub(crate) fn file_uri_to_path(s: &str) -> (r: Option<String>)
    ensures
        r is Some <==> path_of_file_uri(s@) is Some,
        r matches Some(p) ==> path_of_file_uri(s@) == Some(p@),
{
    match url::Url::parse(s) {
        Ok(u) => match u.to_file_path() {
            Ok(p) => p.into_os_string().into_string().ok(),
            Err(_) => None,
        },
        Err(_) => None,
    }
}

} // verus!
