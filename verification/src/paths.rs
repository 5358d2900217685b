//! File-system paths of the local caches, built by `std::path`.
//!
//! A path stays opaque to the verifier; the layout functions say which
//! components are joined onto which base, in which order.

use vstd::prelude::*;

verus! {

/// A borrowed file-system path.
#[verifier::external_type_specification]
#[verifier::external_body]
pub struct ExPath(std::path::Path);

/// An owned file-system path.
#[verifier::external_type_specification]
#[verifier::external_body]
pub struct ExPathBuf(std::path::PathBuf);

/// The path that `Path::join` builds from a base path and a component, with
/// the separator and absolute-path rules of the platform the crate is built
/// for.
pub uninterp spec fn path_join(base: &std::path::Path, component: Seq<char>) -> std::path::PathBuf;

/// The path that `PathBuf::as_path` borrows from an owned path.
pub uninterp spec fn path_of(owned: std::path::PathBuf) -> &'static std::path::Path;

/// Calls `Path::join`; claims the path is the one named by `path_join`.
#[verifier::external_body]
pub(crate) fn join(base: &std::path::Path, component: &str) -> (r: std::path::PathBuf)
    ensures
        r == path_join(base, component@),
{
    base.join(component)
}

/// Calls `PathBuf::as_path`; claims the path is the one named by `path_of`.
#[verifier::external_body]
pub(crate) fn as_path(owned: &std::path::PathBuf) -> (r: &std::path::Path)
    ensures
        r == path_of(*owned),
{
    owned.as_path()
}

/// The path an owned path becomes with one more component joined on.
pub open spec fn extended(owned: std::path::PathBuf, component: Seq<char>) -> std::path::PathBuf {
    path_join(path_of(owned), component)
}

/// Join a component onto an owned path.
pub(crate) fn extend(owned: &std::path::PathBuf, component: &str) -> (r: std::path::PathBuf)
    ensures
        r == extended(*owned, component@),
{
    join(as_path(owned), component)
}

/// `Clone` on an owned path: claims the copy equals the original (it
/// copies the path's bytes).
pub assume_specification[ <std::path::PathBuf as Clone>::clone ](owned: &std::path::PathBuf) -> (r: std::path::PathBuf)
    ensures
        r == *owned,
;

} // verus!
