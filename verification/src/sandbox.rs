use vstd::prelude::*;
use vstd::string::StringExecFns;
use crate::text::{
    contains_str, ends_with_str, s2, spec_contains, spec_ends_with, spec_starts_with,
    starts_with_str, str_eq,
};

verus! {

/// The candidate path for a caller-supplied string: an absolute input is
/// taken as it is, a relative one is joined onto the allowed root.
pub open spec fn spec_candidate(input: Seq<char>) -> Seq<char> {
    if spec_starts_with(input, "/"@) {
        input
    } else {
        "/home/"@ + input
    }
}

/// Whether the path contains a parent-directory segment. The candidate
/// always begins with a separator, so the two shapes below cover every
/// `..` segment.
pub open spec fn spec_has_dotdot(p: Seq<char>) -> bool {
    spec_contains(p, "/../"@) || spec_ends_with(p, "/.."@)
}

/// Whether a caller-supplied path is let through: its candidate must lie
/// under the allowed root `/home` and carry no `..` segment. The check is
/// purely lexical; symbolic links are not resolved.
pub open spec fn spec_path_allowed(input: Seq<char>) -> bool {
    &&& !spec_has_dotdot(spec_candidate(input))
    &&& (spec_candidate(input) == "/home"@ || spec_starts_with(spec_candidate(input), "/home/"@))
}

/// The single choke point for every filesystem-touching method: resolve a
/// caller-supplied path against the allowed root `/home`, or refuse it.
///
/// An absolute input is used as is; a relative one is joined onto the
/// root. A candidate that does not lie under the root, or that carries a
/// `..` segment (a lexical escape the prefix check alone would let
/// through), is refused with the access-denied message, and no filesystem
/// operation is attempted with it.
pub fn resolve_safe_path(path_str: &str) -> (r: Result<String, String>)
    ensures
        spec_path_allowed(path_str@) ==> (r matches Ok(p) && p@ == spec_candidate(path_str@)),
        !spec_path_allowed(path_str@) ==> (r matches Err(m) && m@
            == "Access denied: Path must be within /home"@),
{
    let candidate: String = if starts_with_str(path_str, "/") {
        String::from_str(path_str)
    } else {
        s2("/home/", path_str)
    };
    let denied: bool = if contains_str(candidate.as_str(), "/../") {
        true
    } else if ends_with_str(candidate.as_str(), "/..") {
        true
    } else if str_eq(candidate.as_str(), "/home") {
        false
    } else if starts_with_str(candidate.as_str(), "/home/") {
        false
    } else {
        true
    };
    if denied {
        Err(String::from_str("Access denied: Path must be within /home"))
    } else {
        Ok(candidate)
    }
}

/// A relative input free of `..` segments resolves to the allowed root,
/// a separator, and the input, and is let through.
pub proof fn lemma_relative_path_resolved(input: Seq<char>)
    requires
        !spec_starts_with(input, "/"@),
        !spec_has_dotdot("/home/"@ + input),
    ensures
        spec_path_allowed(input),
        spec_candidate(input) == "/home/"@ + input,
{
    assert((("/home/"@ + input)).subrange(0, "/home/"@.len() as int) =~= "/home/"@);
}

/// An absolute input that does not lie under the allowed root is refused,
/// even though it was already absolute.
pub proof fn lemma_absolute_path_outside_denied(input: Seq<char>)
    requires
        spec_starts_with(input, "/"@),
        input != "/home"@,
        !spec_starts_with(input, "/home/"@),
    ensures
        !spec_path_allowed(input),
{
}

} // verus!
