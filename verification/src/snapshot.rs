//! Aggregate snapshots and the reading of local cache files.
//!
//! Snapshots live at
//! `<base_dir>/snapshots/<aggregate_type>/<instance_id>/snapshot.json`.

use vstd::prelude::*;
use crate::paths;

verus! {

/// A point-in-time snapshot of an aggregate's state and stream version.
#[derive(Debug, Clone)]
pub struct Snapshot<A> {
    /// The aggregate state at the time of the snapshot.
    pub state: A,
    /// The stream version of the last event folded into `state`.
    pub stream_version: u64,
}

/// `<base_dir>/snapshots/<aggregate_type>/<instance_id>/snapshot.json`,
/// each component joined by `Path::join`.
pub open spec fn snapshot_location(
    base_dir: &std::path::Path,
    aggregate_type: Seq<char>,
    instance_id: Seq<char>,
) -> std::path::PathBuf {
    paths::extended(
        paths::extended(paths::extended(paths::path_join(base_dir, "snapshots"@), aggregate_type), instance_id),
        "snapshot.json"@,
    )
}

/// Compute the path of a snapshot file.
pub fn snapshot_path(base_dir: &std::path::Path, aggregate_type: &str, instance_id: &str) -> (r: std::path::PathBuf)
    ensures
        r == snapshot_location(base_dir, aggregate_type@, instance_id@),
{
    let p = paths::join(base_dir, "snapshots");
    let p = paths::extend(&p, aggregate_type);
    let p = paths::extend(&p, instance_id);
    paths::extend(&p, "snapshot.json")
}

/// What reading a cache file (snapshot or checkpoint) came to.
pub enum CacheRead<T> {
    /// The file was read and its content decoded.
    Decoded(T),
    /// The file was read but its content did not decode.
    Corrupt,
    /// The file does not exist.
    Missing,
    /// Reading failed for another reason.
    Failed(std::io::Error),
}

/// The answer a cache load gives: a decoded value; nothing for a missing
/// or corrupt file (a corrupt cache is rebuilt, not an error); the I/O
/// failure otherwise.
pub fn load_outcome<T>(read: CacheRead<T>) -> (r: Result<Option<T>, std::io::Error>)
    ensures
        match read {
            CacheRead::Decoded(v) => r == Ok::<Option<T>, std::io::Error>(Some(v)),
            CacheRead::Corrupt => r == Ok::<Option<T>, std::io::Error>(None),
            CacheRead::Missing => r == Ok::<Option<T>, std::io::Error>(None),
            CacheRead::Failed(e) => r == Err::<Option<T>, std::io::Error>(e),
        },
{
    match read {
        CacheRead::Decoded(v) => Ok(Some(v)),
        CacheRead::Corrupt => Ok(None),
        CacheRead::Missing => Ok(None),
        CacheRead::Failed(e) => Err(e),
    }
}

} // verus!
