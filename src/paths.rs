use vstd::prelude::*;

verus! {

/// What `std::path::Path::file_name` gives for a path.
pub uninterp spec fn file_name_of(path: Seq<char>) -> Option<Seq<char>>;

/// What `std::path::Path::join` gives for a base path and a path pushed onto it.
pub uninterp spec fn joined(base: Seq<char>, rest: Seq<char>) -> Seq<char>;

/// What the `Debug` form of a `std::path::Path` is: the path quoted and escaped.
pub uninterp spec fn quoted(path: Seq<char>) -> Seq<char>;

/// Relies on std::path::Path::file_name: the final component of the path, or none
/// where the path ends in `..` or is a root or empty.
#[verifier::external_body]
pub(crate) fn file_name(path: &str) -> (r: Option<String>)
    ensures
        r is None <==> file_name_of(path@) is None,
        r matches Some(s) ==> file_name_of(path@) == Some(s@),
{
    match std::path::Path::new(path).file_name() {
        Some(s) => Some(s.to_string_lossy().into_owned()),
        None => None,
    }
}

/// Relies on std::path::Path::join: the path `rest` adjoined to `base`.
#[verifier::external_body]
pub(crate) fn join(base: &str, rest: &str) -> (r: String)
    ensures
        r@ == joined(base@, rest@),
{
    std::path::Path::new(base).join(rest).to_string_lossy().into_owned()
}

/// Relies on the `Debug` impl of std::path::Path: the path in double quotes, with
/// quotes, backslashes and control characters escaped.
#[verifier::external_body]
pub(crate) fn quote(path: &str) -> (r: String)
    ensures
        r@ == quoted(path@),
{
    format!("{:?}", std::path::Path::new(path))
}

} // verus!
