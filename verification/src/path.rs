//! Paths, read as the platform's path type reads them.

use vstd::prelude::*;

verus! {

/// Whether `std::path::Path::is_absolute` holds of the path written `path`.
pub uninterp spec fn path_is_absolute(path: Seq<char>) -> bool;

/// What `std::path::Path::join` makes of the path written `base` and the
/// path written `path`.
pub uninterp spec fn path_join(base: Seq<char>, path: Seq<char>) -> Seq<char>;

/// `std::path::Path::is_absolute`: whether `path` is absolute, that is,
/// names the same file whatever the current directory is. The answer is
/// claimed to depend on the text of the path alone.
#[verifier::external_body]
pub(crate) fn is_absolute(path: &str) -> (absolute: bool)
    ensures
        absolute == path_is_absolute(path@),
{
    std::path::Path::new(path).is_absolute()
}

/// `std::path::Path::join`: `path` adjoined to `base`. The result is
/// claimed to depend on the text of the two paths alone.
#[verifier::external_body]
pub(crate) fn join(base: &str, path: &str) -> (joined: String)
    ensures
        joined@ == path_join(base@, path@),
{
    std::path::Path::new(base).join(path).to_string_lossy().into_owned()
}

} // verus!
