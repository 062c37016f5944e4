//! File-system paths as the library carries them: opaque values that are
//! only joined, cloned and handed back.
use std::path::PathBuf;
use vstd::prelude::*;

verus! {

#[verifier::external_type_specification]
#[verifier::external_body]
pub struct ExPathBuf(PathBuf);

/// The path that `Path::join` builds from a base path and a relative name.
pub uninterp spec fn path_joined(base: PathBuf, name: Seq<char>) -> PathBuf;

/// `Path::join`: the base path extended by `name`.
///
/// Trusted: the result is `path_joined` of the base and the name's
/// characters; joining is a pure function of its two arguments.
#[verifier::external_body]
pub(crate) fn join_path(base: &PathBuf, name: &str) -> (r: PathBuf)
    ensures
        r == path_joined(*base, name@),
{
    base.join(name)
}

/// `PathBuf::clone`: a copy of the same path.
///
/// Trusted: the result equals the path it copies.
#[verifier::external_body]
pub(crate) fn clone_path(p: &PathBuf) -> (r: PathBuf)
    ensures
        r == *p,
{
    p.clone()
}

/// `PathBuf::new`: the empty path.
///
/// Trusted: nothing is stated of the value; it is only carried.
#[verifier::external_body]
pub(crate) fn empty_path() -> (r: PathBuf) {
    PathBuf::new()
}

/// The text of a path when it is valid Unicode, as `Path::to_str` gives it.
pub uninterp spec fn path_text(p: PathBuf) -> Option<Seq<char>>;

/// `Path::to_str`: the path as text, if it is valid Unicode.
///
/// Trusted: the result is `path_text` of the path, a function of the path
/// alone.
#[verifier::external_body]
pub(crate) fn path_to_str(p: &PathBuf) -> (r: Option<&str>)
    ensures
        match r {
            Some(s) => path_text(*p) == Some(s@),
            None => path_text(*p) is None,
        },
{
    p.to_str()
}

} // verus!
