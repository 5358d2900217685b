//! Conversion of client-side values into wire messages.

use vstd::prelude::*;
use crate::proto;
use crate::proto::expected_version::Kind;
use crate::event::{self, ProposedEventData};
use crate::{ids, json, status};

verus! {

/// Expected stream version for optimistic concurrency, as callers write it.
#[derive(Debug, Clone, Copy, PartialEq, Eq)]
pub enum ExpectedVersionArg {
    /// Accept any current stream version (no concurrency check).
    Any,
    /// The stream must not exist yet (first write).
    NoStream,
    /// The stream must be at exactly this version.
    Exact(u64),
}

/// The wire form of an expected version.
pub open spec fn expected_version_message(arg: ExpectedVersionArg) -> proto::ExpectedVersion {
    proto::ExpectedVersion {
        kind: Some(
            match arg {
                ExpectedVersionArg::Any => Kind::Any(proto::Empty {}),
                ExpectedVersionArg::NoStream => Kind::NoStream(proto::Empty {}),
                ExpectedVersionArg::Exact(v) => Kind::Exact(v),
            },
        ),
    }
}

/// The expectation a wire `ExpectedVersion` message stands for, read off its
/// kind; `None` where no kind is set.
pub open spec fn expected_version_read(message: proto::ExpectedVersion) -> Option<ExpectedVersionArg> {
    match message.kind {
        Some(Kind::Any(_)) => Some(ExpectedVersionArg::Any),
        Some(Kind::NoStream(_)) => Some(ExpectedVersionArg::NoStream),
        Some(Kind::Exact(v)) => Some(ExpectedVersionArg::Exact(v)),
        None => None,
    }
}

/// Law: the wire form of an expectation says which expectation it is.
/// Reading it back gives the expectation it was made from, so no two
/// expectations share a wire form, and `Exact(v)` travels as an exact
/// version with the same number.
pub proof fn lemma_expected_version_round_trip(a: ExpectedVersionArg, b: ExpectedVersionArg)
    ensures
        expected_version_read(expected_version_message(a)) == Some(a),
        expected_version_message(a) == expected_version_message(b) ==> a == b,
        a matches ExpectedVersionArg::Exact(v) ==> (expected_version_message(a).kind matches Some(Kind::Exact(w))
            && w == v),
        a == ExpectedVersionArg::Any ==> (expected_version_message(a).kind matches Some(Kind::Any(_))),
        a == ExpectedVersionArg::NoStream ==> (expected_version_message(a).kind matches Some(Kind::NoStream(_))),
{
}

impl ExpectedVersionArg {
    /// Convert to the wire `ExpectedVersion` message; the kind is always set,
    /// and reading it back gives `self`.
    pub fn to_proto(self) -> (r: proto::ExpectedVersion)
        ensures
            r == expected_version_message(self),
            expected_version_read(r) == Some(self),
    {
        let kind = match self {
            ExpectedVersionArg::Any => Kind::Any(proto::Empty {}),
            ExpectedVersionArg::NoStream => Kind::NoStream(proto::Empty {}),
            ExpectedVersionArg::Exact(v) => Kind::Exact(v),
        };
        proto::ExpectedVersion { kind: Some(kind) }
    }
}

} // verus!

verus! {

/// Whether `wire` is the wire form of the proposed event `data`: the event
/// ID in hyphenated form, the payload as compact JSON and the metadata as
/// the UTF-8 bytes of its JSON object.
pub open spec fn is_wire_form(data: ProposedEventData, wire: proto::ProposedEvent) -> bool {
    &&& wire.event_id@ == ids::uuid_text(data.event_id)
    &&& ids::uuid_parse(wire.event_id@) == Some(data.event_id)
    &&& wire.event_type@ == data.event_type@
    &&& wire.payload@ == json::json_bytes(data.payload)
    &&& wire.payload@.len() > 0
    &&& wire.metadata@ == vstd::utf8::encode_utf8(event::metadata_json(data.metadata@))
}

/// Convert a proposed event into its wire message.
pub fn to_proto_event(data: &ProposedEventData) -> (r: proto::ProposedEvent)
    ensures
        is_wire_form(*data, r),
{
    let metadata_text = data.metadata.to_json();
    proto::ProposedEvent {
        event_id: ids::to_text(data.event_id),
        event_type: data.event_type.clone(),
        payload: json::to_bytes(&data.payload),
        metadata: vstd::slice::slice_to_vec(metadata_text.as_str().as_bytes()),
    }
}

/// Build the request that appends `events` to a stream with the given
/// expected version.
pub fn append_request(stream_id: u128, expected: ExpectedVersionArg, events: &Vec<ProposedEventData>) -> (r: proto::AppendRequest)
    ensures
        r.stream_id@ == ids::uuid_text(stream_id),
        r.expected_version == Some(expected_version_message(expected)),
        r.events.len() == events.len(),
        forall|i: int| 0 <= i < events.len() ==> is_wire_form(#[trigger] events[i], r.events[i]),
{
    let mut wire: Vec<proto::ProposedEvent> = Vec::new();
    let mut i: usize = 0;
    while i < events.len()
        invariant
            i <= events.len(),
            wire.len() == i,
            forall|j: int| 0 <= j < i ==> is_wire_form(#[trigger] events[j], wire[j]),
        decreases events.len() - i,
    {
        wire.push(to_proto_event(&events[i]));
        i = i + 1;
    }
    proto::AppendRequest {
        stream_id: ids::to_text(stream_id),
        expected_version: Some(expected.to_proto()),
        events: wire,
    }
}

/// Build the request that reads up to `max_count` events of a stream from
/// `from_version` on.
pub fn read_stream_request(stream_id: u128, from_version: u64, max_count: u64) -> (r: proto::ReadStreamRequest)
    ensures
        r.stream_id@ == ids::uuid_text(stream_id),
        r.from_version == from_version,
        r.max_count == max_count,
{
    proto::ReadStreamRequest { stream_id: ids::to_text(stream_id), from_version, max_count }
}

/// Build the request that subscribes to the global log from a position.
pub fn subscribe_all_request(from_position: u64) -> (r: proto::SubscribeAllRequest)
    ensures
        r.from_position == from_position,
{
    proto::SubscribeAllRequest { from_position }
}

/// Interpret the server's answer to a stream read: a stream that was never
/// written to is reported `NOT_FOUND`, which reads as no events; every other
/// failure is passed on.
pub fn read_stream_outcome(result: Result<Vec<proto::RecordedEvent>, tonic::Status>) -> (r: Result<Vec<proto::RecordedEvent>, tonic::Status>)
    ensures
        match result {
            Ok(events) => r == Ok::<Vec<proto::RecordedEvent>, tonic::Status>(events),
            Err(status) => if status::grpc_code(status) == status::CODE_NOT_FOUND {
                r matches Ok(v) && v@.len() == 0
            } else {
                r == Err::<Vec<proto::RecordedEvent>, tonic::Status>(status)
            },
        },
{
    match result {
        Ok(events) => Ok(events),
        Err(status) => {
            if status::code_of(&status) == status::CODE_NOT_FOUND {
                Ok(Vec::new())
            } else {
                Err(status)
            }
        },
    }
}

/// Law: the event ID written with an event is the one read back. A recorded
/// event that carries the wire event ID of a proposed event and decodes at
/// all decodes to that proposed event's ID.
pub proof fn lemma_event_id_roundtrip(data: ProposedEventData, wire: proto::ProposedEvent, recorded: proto::RecordedEvent)
    requires
        is_wire_form(data, wire),
        recorded.event_id@ == wire.event_id@,
        event::decode_view(recorded) is Some,
    ensures
        event::decode_view(recorded)->0.event_id == data.event_id,
{
}

/// Law: events are self-describing. A recorded event that carries the
/// event ID, payload and metadata bytes of a proposed event's wire form,
/// with a non-empty identity and a valid stream ID, and whose payload
/// parses (a payload nested deeper than the parser's recursion limit does
/// not), is one that `decode_stored_event` decodes to the identity it was
/// written with.
pub proof fn lemma_written_event_decodes(data: ProposedEventData, wire: proto::ProposedEvent, recorded: proto::RecordedEvent)
    requires
        is_wire_form(data, wire),
        recorded.event_id@ == wire.event_id@,
        recorded.payload@ == wire.payload@,
        recorded.metadata@ == wire.metadata@,
        ids::uuid_parse(recorded.stream_id@) is Some,
        json::json_parse(recorded.payload@) is Some,
        data.metadata.aggregate_type@.len() > 0,
        data.metadata.instance_id@.len() > 0,
    ensures
        event::written_with(recorded, data.metadata@),
{
}

} // verus!
