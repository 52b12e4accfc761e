//! What the library needs of `std::path`: whether a path is absolute, the
//! extension of its file name, and joining a relative path onto a root.
use vstd::prelude::*;

verus! {

/// Whether `std::path::Path::is_absolute` holds of the path with these characters.
pub uninterp spec fn absolute_path(p: Seq<char>) -> bool;

/// What `std::path::Path::extension` gives for the path with these characters.
pub uninterp spec fn extension_of(p: Seq<char>) -> Option<Seq<char>>;

/// The path that `std::path::Path::join` makes of a root and a relative path.
pub uninterp spec fn joined(root: Seq<char>, rel: Seq<char>) -> Seq<char>;

/// Relies on `std::path::Path::is_absolute`, which parses the path text alone.
#[verifier::external_body]
pub(crate) fn is_absolute(p: &str) -> (r: bool)
    ensures
        r == absolute_path(p@),
{
    std::path::Path::new(p).is_absolute()
}

/// Relies on `std::path::Path::extension`: the part of the file name after its
/// last `.`, if there is one. Taken from a `&str`, it is always valid UTF-8.
#[verifier::external_body]
pub(crate) fn extension(p: &str) -> (r: Option<String>)
    ensures
        r is Some <==> extension_of(p@) is Some,
        r matches Some(e) ==> extension_of(p@) == Some(e@),
{
    std::path::Path::new(p).extension().map(|e| e.to_string_lossy().into_owned())
}

/// Relies on `std::path::Path::join`, which appends `rel` to `root` with a
/// separator. Both parts are UTF-8, so the joined path converts back losslessly.
#[verifier::external_body]
pub(crate) fn join(root: &str, rel: &str) -> (r: String)
    ensures
        r@ == joined(root@, rel@),
{
    std::path::Path::new(root).join(rel).to_string_lossy().into_owned()
}

} // verus!
