//! Stream identity, event metadata, and the encoding and decoding of events.
//!
//! Stream IDs are UUID v5 values derived from a fixed namespace and the
//! name `"{aggregate_type}/{instance_id}"`. Every event written carries JSON
//! metadata naming its aggregate type and instance, so that readers of the
//! global log can recover the aggregate identity without a registry.

use vstd::prelude::*;
use crate::command::CommandContext;
use crate::ids;
use crate::json;
use crate::proto::RecordedEvent;

verus! {

/// Fixed namespace UUID for deterministic stream ID derivation.
pub const STREAM_NAMESPACE: u128 = 0x9a1e7c3b4d2f4a8eb56c1f3d7e9a0bc4u128;

/// The name hashed into a stream ID: `"{aggregate_type}/{instance_id}"`.
pub open spec fn stream_name(aggregate_type: Seq<char>, instance_id: Seq<char>) -> Seq<char> {
    aggregate_type + seq!['/'] + instance_id
}

/// The stream ID of an aggregate instance.
pub open spec fn stream_id_of(aggregate_type: Seq<char>, instance_id: Seq<char>) -> u128 {
    ids::uuid_v5(STREAM_NAMESPACE, vstd::utf8::encode_utf8(stream_name(aggregate_type, instance_id)))
}

/// Derive the stream UUID (v5, under `STREAM_NAMESPACE`) of an aggregate
/// instance from the UTF-8 bytes of `"{aggregate_type}/{instance_id}"`.
pub fn stream_uuid(aggregate_type: &str, instance_id: &str) -> (r: u128)
    ensures
        r == stream_id_of(aggregate_type@, instance_id@),
        (r >> 76u128) & 0xfu128 == 5,
        (r >> 62u128) & 0x3u128 == 2,
{
    let mut name = String::from_str(aggregate_type);
    name.append("/");
    name.append(instance_id);
    proof {
        reveal_strlit("/");
        assert(name@ == stream_name(aggregate_type@, instance_id@));
    }
    ids::new_v5(STREAM_NAMESPACE, name.as_str().as_bytes())
}

/// Law: the name behind a stream ID determines the aggregate identity,
/// provided aggregate type names contain no `/`. Two identities whose
/// names are equal are the same identity, so distinct identities are
/// hashed from distinct bytes.
pub proof fn lemma_stream_name_injective(
    type_a: Seq<char>,
    id_a: Seq<char>,
    type_b: Seq<char>,
    id_b: Seq<char>,
)
    requires
        !type_a.contains('/'),
        !type_b.contains('/'),
        vstd::utf8::encode_utf8(stream_name(type_a, id_a)) == vstd::utf8::encode_utf8(stream_name(type_b, id_b)),
    ensures
        type_a == type_b,
        id_a == id_b,
{
    let na = stream_name(type_a, id_a);
    let nb = stream_name(type_b, id_b);
    vstd::utf8::encode_utf8_decode_utf8(na);
    vstd::utf8::encode_utf8_decode_utf8(nb);
    assert(na == nb);
    assert(na[type_a.len() as int] == '/');
    assert(nb[type_b.len() as int] == '/');
    if type_a.len() < type_b.len() {
        assert(nb[type_a.len() as int] == type_b[type_a.len() as int]);
        assert(type_b.contains('/'));
    } else if type_b.len() < type_a.len() {
        assert(na[type_b.len() as int] == type_a[type_b.len() as int]);
        assert(type_a.contains('/'));
    }
    assert(type_a =~= na.subrange(0, type_a.len() as int));
    assert(type_b =~= nb.subrange(0, type_b.len() as int));
    assert(id_a =~= na.subrange(type_a.len() as int + 1, na.len() as int));
    assert(id_b =~= nb.subrange(type_b.len() as int + 1, nb.len() as int));
}

/// The view of an optional string.
pub open spec fn opt_view(s: Option<String>) -> Option<Seq<char>> {
    match s {
        Some(v) => Some(v@),
        None => None,
    }
}

/// Infrastructure metadata stamped on every event written.
#[derive(Debug, Clone)]
pub struct EventMetadata {
    /// Aggregate type name (e.g., "counter").
    pub aggregate_type: String,
    /// Aggregate instance identifier (e.g., "c-1").
    pub instance_id: String,
    /// Actor identity from the command context, if provided.
    pub actor: Option<String>,
    /// Correlation ID from the command context, if provided.
    pub correlation_id: Option<String>,
    /// Source device ID from the command context, if provided.
    pub source_device: Option<String>,
}

/// The content of an `EventMetadata`.
pub struct EventMetadataView {
    pub aggregate_type: Seq<char>,
    pub instance_id: Seq<char>,
    pub actor: Option<Seq<char>>,
    pub correlation_id: Option<Seq<char>>,
    pub source_device: Option<Seq<char>>,
}

impl View for EventMetadata {
    type V = EventMetadataView;

    open spec fn view(&self) -> EventMetadataView {
        EventMetadataView {
            aggregate_type: self.aggregate_type@,
            instance_id: self.instance_id@,
            actor: opt_view(self.actor),
            correlation_id: opt_view(self.correlation_id),
            source_device: opt_view(self.source_device),
        }
    }
}

/// The member `(key, value)` where the value is present, none otherwise.
pub open spec fn optional_member(key: Seq<char>, value: Option<Seq<char>>) -> Seq<(Seq<char>, Seq<char>)> {
    match value {
        Some(v) => seq![(key, v)],
        None => Seq::empty(),
    }
}

/// The members of the metadata's JSON object, in declaration order: the
/// two identity members, then each optional member that is present.
pub open spec fn metadata_members(m: EventMetadataView) -> Seq<(Seq<char>, Seq<char>)> {
    seq![("aggregate_type"@, m.aggregate_type), ("instance_id"@, m.instance_id)]
        + optional_member("actor"@, m.actor)
        + optional_member("correlation_id"@, m.correlation_id)
        + optional_member("source_device"@, m.source_device)
}

/// The compact JSON object of the metadata.
pub open spec fn metadata_json(m: EventMetadataView) -> Seq<char> {
    json::object_text(metadata_members(m))
}

/// Append one `"key":"value"` member to `out`.
fn push_member(out: &mut String, key: &str, value: &str)
    ensures
        final(out)@ == old(out)@ + json::member_text((key@, value@)),
{
    let k = json::quote(key);
    out.append(k.as_str());
    out.append(":");
    let v = json::quote(value);
    out.append(v.as_str());
    proof {
        reveal_strlit(":");
    }
}

/// Append `,"key":"value"` to `out` when `value` is present, extending the
/// members written so far.
fn push_optional_member(out: &mut String, key: &str, value: &Option<String>, Ghost(members): Ghost<Seq<(Seq<char>, Seq<char>)>>)
    requires
        members.len() > 0,
        old(out)@ == "{"@ + json::members_text(members),
    ensures
        final(out)@ == "{"@ + json::members_text(members + optional_member(key@, opt_view(*value))),
{
    match value {
        Some(v) => {
            out.append(",");
            push_member(out, key, v.as_str());
            proof {
                reveal_strlit(",");
                let grown = members + optional_member(key@, opt_view(*value));
                assert(grown.drop_last() =~= members);
                assert(grown.last() == (key@, v@));
                assert(final(out)@ =~= "{"@ + json::members_text(grown));
            }
        },
        None => {
            assert(members + optional_member(key@, opt_view(*value)) =~= members);
        },
    }
}

impl EventMetadata {
    /// The JSON text stored in an event's metadata bytes. Members whose
    /// value is absent are left out.
    pub fn to_json(&self) -> (r: String)
        ensures
            r@ == metadata_json(self@),
    {
        let mut out = String::from_str("{");
        push_member(&mut out, "aggregate_type", self.aggregate_type.as_str());
        out.append(",");
        push_member(&mut out, "instance_id", self.instance_id.as_str());
        let ghost identity = seq![("aggregate_type"@, self.aggregate_type@), ("instance_id"@, self.instance_id@)];
        proof {
            reveal_strlit("{");
            reveal_strlit(",");
            assert(identity.drop_last() =~= seq![("aggregate_type"@, self.aggregate_type@)]);
            assert(json::members_text(identity.drop_last()) == json::member_text(identity[0]));
            assert(out@ =~= "{"@ + json::members_text(identity));
        }
        let ghost with_actor = identity + optional_member("actor"@, opt_view(self.actor));
        push_optional_member(&mut out, "actor", &self.actor, Ghost(identity));
        let ghost with_correlation = with_actor + optional_member("correlation_id"@, opt_view(self.correlation_id));
        push_optional_member(&mut out, "correlation_id", &self.correlation_id, Ghost(with_actor));
        push_optional_member(&mut out, "source_device", &self.source_device, Ghost(with_correlation));
        out.append("}");
        proof {
            reveal_strlit("}");
            assert(with_correlation + optional_member("source_device"@, opt_view(self.source_device)) =~= metadata_members(self@));
        }
        out
    }
}

/// A proposed event in library form, before it becomes a wire message.
#[derive(Debug, Clone)]
pub struct ProposedEventData {
    /// Newly generated UUID v4 event ID.
    pub event_id: u128,
    /// Event type tag extracted from the adjacently-tagged domain event.
    pub event_type: String,
    /// JSON payload (the `"data"` member of the adjacently-tagged event).
    pub payload: serde_json::Value,
    /// Infrastructure metadata to stamp on the event.
    pub metadata: EventMetadata,
}

/// Whether a serialized domain event carries its tag as a string `"type"`.
pub open spec fn has_type_tag(serialized: serde_json::Value) -> bool {
    json::string_member(serialized, "type"@) is Some
}

/// The payload carried by a serialized domain event: its `"data"` member,
/// or `null` for a variant without data.
pub open spec fn payload_of(serialized: serde_json::Value) -> serde_json::Value {
    match json::json_member(serialized, "data"@) {
        Some(d) => d,
        None => json::json_parse(json::null_text())->0,
    }
}

/// The metadata stamped for an aggregate identity and a command context.
pub open spec fn metadata_for(
    aggregate_type: Seq<char>,
    instance_id: Seq<char>,
    ctx: CommandContext,
) -> EventMetadataView {
    EventMetadataView {
        aggregate_type,
        instance_id,
        actor: opt_view(ctx.actor),
        correlation_id: opt_view(ctx.correlation_id),
        source_device: opt_view(ctx.source_device),
    }
}

fn clone_opt(s: &Option<String>) -> (r: Option<String>)
    ensures
        opt_view(r) == opt_view(*s),
{
    match s {
        Some(v) => Some(v.clone()),
        None => None,
    }
}

/// Build a proposed event from the JSON form of an adjacently-tagged domain
/// event (`{"type": ..., "data": ...}`): the tag becomes the event type,
/// the `"data"` member (or `null`) the payload, the metadata comes from the
/// aggregate identity and the command context, and the event ID is a fresh
/// UUID v4. `None` where the JSON carries no string `"type"` member.
pub fn encode_domain_event(
    serialized: &serde_json::Value,
    ctx: &CommandContext,
    aggregate_type: &str,
    instance_id: &str,
) -> (r: Option<ProposedEventData>)
    ensures
        r is Some <==> has_type_tag(*serialized),
        r matches Some(p) ==> {
            &&& p.event_type@ == json::string_member(*serialized, "type"@)->0
            &&& p.payload == payload_of(*serialized)
            &&& p.metadata@ == metadata_for(aggregate_type@, instance_id@, *ctx)
            &&& (p.event_id >> 76u128) & 0xfu128 == 4
            &&& (p.event_id >> 62u128) & 0x3u128 == 2
        },
{
    let tag = match json::member(serialized, "type") {
        Some(t) => t,
        None => return None,
    };
    let event_type = match json::text(&tag) {
        Some(s) => s,
        None => return None,
    };
    let payload = match json::member(serialized, "data") {
        Some(d) => d,
        None => json::null(),
    };
    let metadata = EventMetadata {
        aggregate_type: String::from_str(aggregate_type),
        instance_id: String::from_str(instance_id),
        actor: clone_opt(&ctx.actor),
        correlation_id: clone_opt(&ctx.correlation_id),
        source_device: clone_opt(&ctx.source_device),
    };
    Some(ProposedEventData { event_id: ids::new_v4(), event_type, payload, metadata })
}

/// An event as delivered to projections and process managers.
#[derive(Debug, Clone)]
pub struct StoredEvent {
    /// Client-assigned event ID.
    pub event_id: u128,
    /// Stream UUID.
    pub stream_id: u128,
    /// Aggregate type extracted from metadata (e.g., "counter").
    pub aggregate_type: String,
    /// Instance ID extracted from metadata (e.g., "c-1").
    pub instance_id: String,
    /// Zero-based version within the stream.
    pub stream_version: u64,
    /// Zero-based position in the global log.
    pub global_position: u64,
    /// Event type tag (e.g., "Incremented").
    pub event_type: String,
    /// Decoded JSON payload (the domain event data).
    pub payload: serde_json::Value,
    /// Decoded JSON metadata (actor, correlation_id, etc.).
    pub metadata: serde_json::Value,
    /// Server-assigned timestamp (Unix epoch milliseconds).
    pub recorded_at: u64,
}

/// The content of a `StoredEvent`.
pub struct StoredEventView {
    pub event_id: u128,
    pub stream_id: u128,
    pub aggregate_type: Seq<char>,
    pub instance_id: Seq<char>,
    pub stream_version: u64,
    pub global_position: u64,
    pub event_type: Seq<char>,
    pub payload: serde_json::Value,
    pub metadata: serde_json::Value,
    pub recorded_at: u64,
}

impl View for StoredEvent {
    type V = StoredEventView;

    open spec fn view(&self) -> StoredEventView {
        StoredEventView {
            event_id: self.event_id,
            stream_id: self.stream_id,
            aggregate_type: self.aggregate_type@,
            instance_id: self.instance_id@,
            stream_version: self.stream_version,
            global_position: self.global_position,
            event_type: self.event_type@,
            payload: self.payload,
            metadata: self.metadata,
            recorded_at: self.recorded_at,
        }
    }
}

/// A non-empty text member of the metadata.
pub open spec fn identity_member(meta: serde_json::Value, key: Seq<char>) -> Option<Seq<char>> {
    match json::string_member(meta, key) {
        Some(t) => if t.len() > 0 { Some(t) } else { None },
        None => None,
    }
}

/// The payload bytes to parse: `null` where the event carries none.
pub open spec fn payload_bytes(recorded: RecordedEvent) -> Seq<u8> {
    if recorded.payload@.len() == 0 { json::null_text() } else { recorded.payload@ }
}

/// What a recorded event decodes to: `None` unless its metadata parses as
/// JSON with non-empty string `aggregate_type` and `instance_id` members,
/// both IDs parse as UUIDs, and the payload (if any) parses as JSON.
pub open spec fn decode_view(recorded: RecordedEvent) -> Option<StoredEventView> {
    match json::json_parse(recorded.metadata@) {
        None => None,
        Some(meta) => {
            let agg = identity_member(meta, "aggregate_type"@);
            let inst = identity_member(meta, "instance_id"@);
            let eid = ids::uuid_parse(recorded.event_id@);
            let sid = ids::uuid_parse(recorded.stream_id@);
            let payload = json::json_parse(payload_bytes(recorded));
            if agg is Some && inst is Some && eid is Some && sid is Some && payload is Some {
                Some(
                    StoredEventView {
                        event_id: eid->0,
                        stream_id: sid->0,
                        aggregate_type: agg->0,
                        instance_id: inst->0,
                        stream_version: recorded.stream_version,
                        global_position: recorded.global_position,
                        event_type: recorded.event_type@,
                        payload: payload->0,
                        metadata: meta,
                        recorded_at: recorded.recorded_at,
                    },
                )
            } else {
                None
            }
        },
    }
}

fn identity_text(meta: &serde_json::Value, key: &str) -> (r: Option<String>)
    ensures
        opt_view(r) == identity_member(*meta, key@),
{
    let m = json::member(meta, key)?;
    let t = json::text(&m)?;
    if t.as_str().is_empty() {
        None
    } else {
        Some(t)
    }
}

/// The metadata of a written event names the identity it was written
/// with: the keys are distinct.
proof fn lemma_metadata_keys_distinct(m: EventMetadataView)
    ensures
        json::distinct_keys(metadata_members(m)),
{
    reveal_strlit("aggregate_type");
    reveal_strlit("instance_id");
    reveal_strlit("actor");
    reveal_strlit("correlation_id");
    reveal_strlit("source_device");
    let ms = metadata_members(m);
    assert forall|i: int, j: int| 0 <= i < j < ms.len() implies ms[i].0 != ms[j].0 by {
        assert(ms[i].0[0] != ms[j].0[0] || ms[i].0.len() != ms[j].0.len() || ms[i].0[1] != ms[j].0[1]);
    }
}

/// Law: the metadata JSON carries each field that is present under its own
/// key, with its value, whatever the other fields hold, and carries no
/// optional key whose field is absent: the identity members always, and
/// `actor`, `correlation_id` and `source_device` exactly when set.
pub proof fn lemma_metadata_members_follow_fields(m: EventMetadataView)
    ensures
        metadata_members(m).contains(("aggregate_type"@, m.aggregate_type)),
        metadata_members(m).contains(("instance_id"@, m.instance_id)),
        forall|v: Seq<char>| #[trigger] metadata_members(m).contains(("actor"@, v)) <==> m.actor == Some(v),
        forall|v: Seq<char>|
            #[trigger] metadata_members(m).contains(("correlation_id"@, v)) <==> m.correlation_id == Some(v),
        forall|v: Seq<char>| #[trigger] metadata_members(m).contains(("source_device"@, v)) <==> m.source_device == Some(v),
{
    reveal_strlit("aggregate_type");
    reveal_strlit("instance_id");
    reveal_strlit("actor");
    reveal_strlit("correlation_id");
    reveal_strlit("source_device");
    let ms = metadata_members(m);
    let identity = seq![("aggregate_type"@, m.aggregate_type), ("instance_id"@, m.instance_id)];
    let a = optional_member("actor"@, m.actor);
    let c = optional_member("correlation_id"@, m.correlation_id);
    let d = optional_member("source_device"@, m.source_device);
    assert(ms == identity + a + c + d);
    assert(ms[0] == ("aggregate_type"@, m.aggregate_type));
    assert(ms[1] == ("instance_id"@, m.instance_id));
    assert("aggregate_type"@.len() != "actor"@.len());
    assert("instance_id"@.len() != "actor"@.len());
    assert("aggregate_type"@[0] != "correlation_id"@[0]);
    assert("instance_id"@[0] != "correlation_id"@[0]);
    assert("aggregate_type"@[0] != "source_device"@[0]);
    assert("instance_id"@[0] != "source_device"@[0]);
    assert("actor"@[0] != "correlation_id"@[0]);
    assert("actor"@[0] != "source_device"@[0]);
    assert("correlation_id"@[0] != "source_device"@[0]);
    lemma_metadata_keys_distinct(m);
    assert forall|key: Seq<char>, opt: Option<Seq<char>>, v: Seq<char>|
        #![trigger optional_member(key, opt).contains((key, v))]
        optional_member(key, opt).contains((key, v)) <==> opt == Some(v) by {
        if opt == Some(v) {
            assert(optional_member(key, opt)[0] == (key, v));
        }
    }
    assert forall|v: Seq<char>| #[trigger] ms.contains(("actor"@, v)) <==> m.actor == Some(v) by {
        if m.actor == Some(v) {
            assert(a.contains(("actor"@, v)));
            let i = identity.len() as int;
            assert(ms[i] == a[0]);
        }
        if ms.contains(("actor"@, v)) {
            let i = choose|i: int| 0 <= i < ms.len() && ms[i] == ("actor"@, v);
            assert(i >= 2);
            if i < 2 + a.len() {
                assert(ms[i] == a[i - 2]);
            } else if i < 2 + a.len() + c.len() {
                assert(ms[i] == c[i - 2 - a.len()]);
                assert(c[i - 2 - a.len()].0 == "correlation_id"@);
            } else {
                assert(ms[i] == d[i - 2 - a.len() - c.len()]);
                assert(d[i - 2 - a.len() - c.len()].0 == "source_device"@);
            }
        }
    }
    assert forall|v: Seq<char>| #[trigger] ms.contains(("correlation_id"@, v)) <==> m.correlation_id == Some(v) by {
        if m.correlation_id == Some(v) {
            let i = (identity.len() + a.len()) as int;
            assert(ms[i] == c[0]);
        }
        if ms.contains(("correlation_id"@, v)) {
            let i = choose|i: int| 0 <= i < ms.len() && ms[i] == ("correlation_id"@, v);
            assert(i >= 2);
            if i < 2 + a.len() {
                assert(ms[i] == a[i - 2]);
                assert(a[i - 2].0 == "actor"@);
            } else if i < 2 + a.len() + c.len() {
                assert(ms[i] == c[i - 2 - a.len()]);
            } else {
                assert(ms[i] == d[i - 2 - a.len() - c.len()]);
                assert(d[i - 2 - a.len() - c.len()].0 == "source_device"@);
            }
        }
    }
    assert forall|v: Seq<char>| #[trigger] ms.contains(("source_device"@, v)) <==> m.source_device == Some(v) by {
        if m.source_device == Some(v) {
            let i = (identity.len() + a.len() + c.len()) as int;
            assert(ms[i] == d[0]);
        }
        if ms.contains(("source_device"@, v)) {
            let i = choose|i: int| 0 <= i < ms.len() && ms[i] == ("source_device"@, v);
            assert(i >= 2);
            if i < 2 + a.len() {
                assert(ms[i] == a[i - 2]);
                assert(a[i - 2].0 == "actor"@);
            } else if i < 2 + a.len() + c.len() {
                assert(ms[i] == c[i - 2 - a.len()]);
                assert(c[i - 2 - a.len()].0 == "correlation_id"@);
            } else {
                assert(ms[i] == d[i - 2 - a.len() - c.len()]);
            }
        }
    }
}

/// Whether a recorded event's metadata bytes are the JSON text that
/// `EventMetadata::to_json` writes for `m`, with a non-empty identity, and
/// its IDs and payload parse.
pub open spec fn written_with(recorded: RecordedEvent, m: EventMetadataView) -> bool {
    &&& recorded.metadata@ == vstd::utf8::encode_utf8(metadata_json(m))
    &&& m.aggregate_type.len() > 0
    &&& m.instance_id.len() > 0
    &&& ids::uuid_parse(recorded.event_id@) is Some
    &&& ids::uuid_parse(recorded.stream_id@) is Some
    &&& json::json_parse(payload_bytes(recorded)) is Some
}

/// Whether the parsed metadata `meta` holds every field of `m` that is
/// present, each as a string under its own key.
pub open spec fn metadata_reads_back(meta: serde_json::Value, m: EventMetadataView) -> bool {
    &&& json::string_member(meta, "aggregate_type"@) == Some(m.aggregate_type)
    &&& json::string_member(meta, "instance_id"@) == Some(m.instance_id)
    &&& (m.actor matches Some(a) ==> json::string_member(meta, "actor"@) == Some(a))
    &&& (m.correlation_id matches Some(c) ==> json::string_member(meta, "correlation_id"@) == Some(c))
    &&& (m.source_device matches Some(d) ==> json::string_member(meta, "source_device"@) == Some(d))
}

/// Given how `serde_json` parses an object of string members, an event
/// whose metadata was written for `m` decodes to `m`'s identity, and its
/// metadata holds every field of `m` that is present.
proof fn lemma_written_metadata_decodes(recorded: RecordedEvent)
    requires
        forall|members: Seq<(Seq<char>, Seq<char>)>|
            #![trigger json::object_text(members)]
            json::distinct_keys(members) && recorded.metadata@ == vstd::utf8::encode_utf8(json::object_text(members))
                ==> (json::json_parse(recorded.metadata@) matches Some(v) && forall|i: int|
                0 <= i < members.len() ==> #[trigger] json::string_member(v, members[i].0) == Some(members[i].1)),
    ensures
        forall|m: EventMetadataView|
            #[trigger] written_with(recorded, m) ==> (decode_view(recorded) matches Some(e) && e.aggregate_type
                == m.aggregate_type && e.instance_id == m.instance_id && metadata_reads_back(e.metadata, m)),
{
    assert forall|m: EventMetadataView| #[trigger] written_with(recorded, m) implies (decode_view(recorded) matches Some(e)
        && e.aggregate_type == m.aggregate_type && e.instance_id == m.instance_id && metadata_reads_back(e.metadata, m)) by {
        let members = metadata_members(m);
        lemma_metadata_keys_distinct(m);
        lemma_metadata_members_follow_fields(m);
        assert(recorded.metadata@ == vstd::utf8::encode_utf8(json::object_text(members)));
        let v = json::json_parse(recorded.metadata@)->0;
        assert(members[0] == ("aggregate_type"@, m.aggregate_type));
        assert(members[1] == ("instance_id"@, m.instance_id));
        assert(json::string_member(v, members[0].0) == Some(members[0].1));
        assert(json::string_member(v, members[1].0) == Some(members[1].1));
        if let Some(a) = m.actor {
            assert(members.contains(("actor"@, a)));
            let i = choose|i: int| 0 <= i < members.len() && members[i] == ("actor"@, a);
            assert(json::string_member(v, members[i].0) == Some(members[i].1));
        }
        if let Some(c) = m.correlation_id {
            assert(members.contains(("correlation_id"@, c)));
            let i = choose|i: int| 0 <= i < members.len() && members[i] == ("correlation_id"@, c);
            assert(json::string_member(v, members[i].0) == Some(members[i].1));
        }
        if let Some(d) = m.source_device {
            assert(members.contains(("source_device"@, d)));
            let i = choose|i: int| 0 <= i < members.len() && members[i] == ("source_device"@, d);
            assert(json::string_member(v, members[i].0) == Some(members[i].1));
        }
    }
}

/// Decode a recorded event into a stored event; events written by other
/// clients (without the expected metadata) decode to `None`. An event whose
/// metadata is the text `to_json` wrote decodes to the identity it was
/// written with, and its metadata holds every field that was present.
pub fn decode_stored_event(recorded: &RecordedEvent) -> (r: Option<StoredEvent>)
    ensures
        r is Some <==> decode_view(*recorded) is Some,
        r matches Some(e) ==> e@ == decode_view(*recorded)->0,
        forall|m: EventMetadataView|
            #[trigger] written_with(*recorded, m) ==> (r matches Some(e) && e.aggregate_type@ == m.aggregate_type
                && e.instance_id@ == m.instance_id && metadata_reads_back(e.metadata, m)),
{
    let parsed = json::parse(recorded.metadata.as_slice());
    proof {
        lemma_written_metadata_decodes(*recorded);
    }
    let meta = parsed?;
    let aggregate_type = identity_text(&meta, "aggregate_type")?;
    let instance_id = identity_text(&meta, "instance_id")?;
    let event_id = ids::parse(recorded.event_id.as_str())?;
    let stream_id = ids::parse(recorded.stream_id.as_str())?;
    let payload = if recorded.payload.len() == 0 {
        json::null()
    } else {
        json::parse(recorded.payload.as_slice())?
    };
    Some(
        StoredEvent {
            event_id,
            stream_id,
            aggregate_type,
            instance_id,
            stream_version: recorded.stream_version,
            global_position: recorded.global_position,
            event_type: recorded.event_type.clone(),
            payload,
            metadata: meta,
            recorded_at: recorded.recorded_at,
        },
    )
}

/// The payload value a recorded event carries, if its bytes parse: an
/// empty payload is `null`.
pub open spec fn payload_value(payload: Seq<u8>) -> Option<serde_json::Value> {
    if payload.len() == 0 {
        json::json_parse(json::null_text())
    } else {
        json::json_parse(payload)
    }
}

/// The members of the adjacently-tagged JSON of a domain event with this
/// type and payload: `{"type":T}` for a null payload (a unit variant),
/// otherwise `{"type":T,"data":P}`.
pub open spec fn tagged_members(event_type: Seq<char>, payload: serde_json::Value) -> Seq<(Seq<char>, serde_json::Value)> {
    if json::json_is_null(payload) {
        seq![("type"@, json::json_string(event_type))]
    } else {
        seq![("type"@, json::json_string(event_type)), ("data"@, payload)]
    }
}

/// Rebuild the adjacently-tagged JSON value of a domain event from a
/// recorded event's type and payload bytes, ready to be deserialized into
/// the aggregate's event type. `None` where the payload does not parse.
pub fn tagged_event_value(event_type: &str, payload: &Vec<u8>) -> (r: Option<serde_json::Value>)
    ensures
        r is Some <==> payload_value(payload@) is Some,
        r matches Some(v) ==> v == json::json_object_of(tagged_members(event_type@, payload_value(payload@)->0)),
{
    let value = if payload.len() == 0 {
        json::null()
    } else {
        match json::parse(payload.as_slice()) {
            Some(v) => v,
            None => return None,
        }
    };
    let tag = json::string_value(String::from_str(event_type));
    let mut members: Vec<(String, serde_json::Value)> = Vec::new();
    members.push((String::from_str("type"), tag));
    if !json::is_null(&value) {
        members.push((String::from_str("data"), value));
    }
    proof {
        assert(json::member_views(members@) =~= tagged_members(event_type@, payload_value(payload@)->0));
    }
    Some(json::object_of(members))
}

} // verus!
