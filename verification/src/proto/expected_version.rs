//! The variants of an expected stream version.

use vstd::prelude::*;
use super::Empty;

verus! {

/// The oneof carried by an expected version.
#[derive(Debug, Clone, Copy, PartialEq, Eq)]
pub enum Kind {
    /// Accept any current stream version.
    Any(Empty),
    /// The stream must not exist yet.
    NoStream(Empty),
    /// The stream must be at exactly this version.
    Exact(u64),
}

} // verus!
