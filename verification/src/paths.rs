//! Filesystem paths as text.

use vstd::prelude::*;

verus! {

/// The path that `std::path::Path::join` makes of a base and a part.
pub uninterp spec fn joined(base: Seq<char>, part: Seq<char>) -> Seq<char>;

/// The path that is left when `std::path::PathBuf::pop` has taken the last
/// component off.
pub uninterp spec fn popped(path: Seq<char>) -> Seq<char>;

/// Whether `std::path::Path::ends_with` finds that the last components of
/// a path are those of `suffix`.
pub uninterp spec fn ends_with_path(path: Seq<char>, suffix: Seq<char>) -> bool;

/// Calls `std::path::Path::join`. The contract names the result.
#[verifier::external_body]
pub(crate) fn path_join(base: &str, part: &str) -> (r: String)
    ensures
        r@ == joined(base@, part@),
{
    std::path::Path::new(base).join(part).into_os_string().into_string().unwrap_or_default()
}

/// Calls `std::path::PathBuf::pop`. The contract names the result.
#[verifier::external_body]
pub(crate) fn path_pop(path: &str) -> (r: String)
    ensures
        r@ == popped(path@),
{
    let mut buf = std::path::PathBuf::from(path);
    buf.pop();
    buf.into_os_string().into_string().unwrap_or_default()
}

/// Calls `std::path::Path::ends_with`. The contract names the result.
#[verifier::external_body]
pub(crate) fn path_ends_with(path: &str, suffix: &str) -> (r: bool)
    ensures
        r == ends_with_path(path@, suffix@),
{
    std::path::Path::new(path).ends_with(suffix)
}

} // verus!
