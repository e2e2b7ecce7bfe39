//! File-system paths, through `std::path`.
use std::path::Path;
use vstd::prelude::*;

verus! {

/// What `Path::parent` gives for the path written as `p`.
pub uninterp spec fn parent_of(p: Seq<char>) -> Option<Seq<char>>;

/// What `Path::join` gives for `base` with the component `name` added.
pub uninterp spec fn joined(base: Seq<char>, name: Seq<char>) -> Seq<char>;

/// Relies on `std::path::Path::parent`: the path without its final
/// component, or `None` where the path ends in a root or a prefix or is empty.
#[verifier::external_body]
pub(crate) fn parent(p: &str) -> (r: Option<String>)
    ensures
        match r {
            Some(d) => parent_of(p@) == Some(d@),
            None => parent_of(p@) is None,
        },
        p@.len() == 0 ==> r is None,
{
    match Path::new(p).parent() {
        Some(d) => Some(d.display().to_string()),
        None => None,
    }
}

/// Relies on `std::path::Path::join`: `base` with `name` added as one more
/// component.
#[verifier::external_body]
pub(crate) fn join(base: &str, name: &str) -> (r: String)
    ensures
        r@ == joined(base@, name@),
{
    Path::new(base).join(name).display().to_string()
}

} // verus!
