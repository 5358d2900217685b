//! Wire messages exchanged with the event store server.
//!
//! These mirror the messages of the event store's gRPC protocol field for
//! field; the transport that carries them lives outside the library.

pub mod expected_version;
pub mod subscribe_response;

use vstd::prelude::*;

verus! {

/// An empty message, used as the payload of sentinel variants.
#[derive(Debug, Clone, Copy, PartialEq, Eq)]
pub struct Empty {}

/// Expected stream version sent with an append for optimistic concurrency.
#[derive(Debug, Clone, Copy, PartialEq, Eq)]
pub struct ExpectedVersion {
    /// Which kind of expectation is requested.
    pub kind: Option<expected_version::Kind>,
}

/// An event proposed for appending to a stream.
#[derive(Debug, Clone, PartialEq, Eq)]
pub struct ProposedEvent {
    /// Client-assigned event ID, in hyphenated UUID form.
    pub event_id: String,
    /// Event type tag.
    pub event_type: String,
    /// JSON payload bytes.
    pub payload: Vec<u8>,
    /// JSON metadata bytes.
    pub metadata: Vec<u8>,
}

/// An event as recorded by the server.
#[derive(Debug, Clone, PartialEq, Eq)]
pub struct RecordedEvent {
    /// Client-assigned event ID, in UUID text form.
    pub event_id: String,
    /// Stream ID, in UUID text form.
    pub stream_id: String,
    /// Zero-based version within the stream.
    pub stream_version: u64,
    /// Zero-based position in the global log.
    pub global_position: u64,
    /// Event type tag.
    pub event_type: String,
    /// JSON metadata bytes.
    pub metadata: Vec<u8>,
    /// JSON payload bytes.
    pub payload: Vec<u8>,
    /// Server-assigned timestamp (Unix epoch milliseconds).
    pub recorded_at: u64,
}

/// Request to append events to one stream.
#[derive(Debug, Clone, PartialEq, Eq)]
pub struct AppendRequest {
    /// Target stream, in hyphenated UUID form.
    pub stream_id: String,
    /// Expected current version of the stream.
    pub expected_version: Option<ExpectedVersion>,
    /// Events to append, in order.
    pub events: Vec<ProposedEvent>,
}

/// The versions and positions the server assigned to an append.
#[derive(Debug, Clone, Copy, PartialEq, Eq)]
pub struct AppendResponse {
    /// Stream version of the first appended event.
    pub first_stream_version: u64,
    /// Stream version of the last appended event.
    pub last_stream_version: u64,
    /// Global position of the first appended event.
    pub first_global_position: u64,
    /// Global position of the last appended event.
    pub last_global_position: u64,
}

/// Request to read events from one stream.
#[derive(Debug, Clone, PartialEq, Eq)]
pub struct ReadStreamRequest {
    /// Stream to read, in hyphenated UUID form.
    pub stream_id: String,
    /// First stream version to return.
    pub from_version: u64,
    /// Maximum number of events to return.
    pub max_count: u64,
}

/// Request to subscribe to the global log.
#[derive(Debug, Clone, Copy, PartialEq, Eq)]
pub struct SubscribeAllRequest {
    /// First global position to deliver.
    pub from_position: u64,
}

/// One message of a global-log subscription.
#[derive(Debug, Clone, PartialEq, Eq)]
pub struct SubscribeResponse {
    /// A recorded event or the caught-up sentinel.
    pub content: Option<subscribe_response::Content>,
}

} // verus!
