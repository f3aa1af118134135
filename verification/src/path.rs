//! Paths, held as strings and composed by the standard library.

use vstd::prelude::*;

verus! {

/// The path that `std::path::Path::join` gives for a base and a name.
pub uninterp spec fn joined_path(base: Seq<char>, name: Seq<char>) -> Seq<char>;

/// The path without its final component, as `std::path::Path::parent`
/// gives it: `None` where the path ends in a root or is empty.
pub uninterp spec fn parent_of(path: Seq<char>) -> Option<Seq<char>>;

/// Calls `Path::join`. Trusted: the result depends on the two arguments
/// alone, and is what the contracts call `joined_path`.
#[verifier::external_body]
pub(crate) fn join(base: &str, name: &str) -> (joined: String)
    ensures
        joined@ == joined_path(base@, name@),
{
    std::path::Path::new(base).join(name).to_string_lossy().into_owned()
}

/// Calls `Path::parent`. Trusted: the result depends on the argument
/// alone, and is what the contracts call `parent_of`.
#[verifier::external_body]
pub(crate) fn parent(path: &str) -> (up: Option<String>)
    ensures
        up matches Some(p) ==> parent_of(path@) == Some(p@),
        up is None ==> parent_of(path@) is None,
{
    std::path::Path::new(path).parent().map(|p| p.to_string_lossy().into_owned())
}

} // verus!
