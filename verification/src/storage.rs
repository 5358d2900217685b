//! Directory layout of the local caches (snapshots, projection and
//! process manager checkpoints):
//!
//! ```text
//! <base_dir>/
//!     snapshots/
//!     projections/
//!     process_managers/
//! ```

use vstd::prelude::*;
use crate::paths;

verus! {

/// The on-disk directory layout for local caches, rooted at a base
/// directory.
#[derive(Debug, Clone)]
pub struct StreamLayout {
    base_dir: std::path::PathBuf,
}

impl View for StreamLayout {
    type V = std::path::PathBuf;

    closed spec fn view(&self) -> std::path::PathBuf {
        self.base_dir
    }
}

/// The path that a conversion into `PathBuf` produces, where the source
/// type states it.
pub open spec fn converted_path<P: Into<std::path::PathBuf>>(p: P, r: std::path::PathBuf) -> bool {
    <P as vstd::std_specs::convert::IntoSpec<std::path::PathBuf>>::obeys_into_spec() ==> r
        == <P as vstd::std_specs::convert::IntoSpec<std::path::PathBuf>>::into_spec(p)
}

impl StreamLayout {
    /// A layout rooted at `base_dir`.
    pub fn new<P: Into<std::path::PathBuf>>(base_dir: P) -> (r: Self)
        ensures
            converted_path(base_dir, r@),
    {
        StreamLayout { base_dir: base_dir.into() }
    }

    /// The root directory of this layout.
    pub fn base_dir(&self) -> (r: &std::path::Path)
        ensures
            r == paths::path_of(self@),
    {
        paths::as_path(&self.base_dir)
    }

    /// `<base_dir>/snapshots`
    pub fn snapshots_dir(&self) -> (r: std::path::PathBuf)
        ensures
            r == paths::extended(self@, "snapshots"@),
    {
        paths::extend(&self.base_dir, "snapshots")
    }

    /// `<base_dir>/projections`
    pub fn projections_dir(&self) -> (r: std::path::PathBuf)
        ensures
            r == paths::extended(self@, "projections"@),
    {
        paths::extend(&self.base_dir, "projections")
    }

    /// `<base_dir>/process_managers`
    pub fn process_managers_dir(&self) -> (r: std::path::PathBuf)
        ensures
            r == paths::extended(self@, "process_managers"@),
    {
        paths::extend(&self.base_dir, "process_managers")
    }
}

/// `<base_dir>/projections/<name>`: where a projection keeps its checkpoint.
pub fn projection_checkpoint_dir(base_dir: &std::path::Path, name: &str) -> (r: std::path::PathBuf)
    ensures
        r == paths::extended(paths::path_join(base_dir, "projections"@), name@),
{
    let p = paths::join(base_dir, "projections");
    paths::extend(&p, name)
}

/// `<base_dir>/process_managers/<name>`: where a process manager keeps its
/// checkpoint and dead-letter log.
pub fn process_manager_checkpoint_dir(base_dir: &std::path::Path, name: &str) -> (r: std::path::PathBuf)
    ensures
        r == paths::extended(paths::path_join(base_dir, "process_managers"@), name@),
{
    let p = paths::join(base_dir, "process_managers");
    paths::extend(&p, name)
}

/// `<dir>/checkpoint.json`
pub fn checkpoint_path(dir: &std::path::Path) -> (r: std::path::PathBuf)
    ensures
        r == paths::path_join(dir, "checkpoint.json"@),
{
    paths::join(dir, "checkpoint.json")
}

/// `<dir>/checkpoint.json.tmp`: written first, then renamed over the
/// checkpoint, so that readers never see a partial file.
pub fn checkpoint_temp_path(dir: &std::path::Path) -> (r: std::path::PathBuf)
    ensures
        r == paths::path_join(dir, "checkpoint.json.tmp"@),
{
    paths::join(dir, "checkpoint.json.tmp")
}

/// `<dir>/dead_letters.jsonl`: the log of envelopes that failed to dispatch.
pub fn dead_letter_path(dir: &std::path::Path) -> (r: std::path::PathBuf)
    ensures
        r == paths::path_join(dir, "dead_letters.jsonl"@),
{
    paths::join(dir, "dead_letters.jsonl")
}

} // verus!
