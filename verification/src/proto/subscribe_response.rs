//! The variants of a subscription message.

use vstd::prelude::*;
use super::{Empty, RecordedEvent};

verus! {

/// The oneof carried by a subscription message.
#[derive(Debug, Clone, PartialEq, Eq)]
pub enum Content {
    /// An event from the global log.
    Event(RecordedEvent),
    /// Every event up to the subscription's start has been delivered.
    CaughtUp(Empty),
}

} // verus!
