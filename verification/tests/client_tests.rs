use eventfold_es::proto;
use eventfold_es::{EventMetadata, ExpectedVersionArg, ProposedEventData, to_proto_event};

fn metadata(actor: Option<&str>) -> EventMetadata {
    EventMetadata {
        aggregate_type: "counter".to_string(),
        instance_id: "c-1".to_string(),
        actor: actor.map(|a| a.to_string()),
        correlation_id: None,
        source_device: None,
    }
}

#[test]
fn to_proto_event_roundtrip_payload_and_metadata() {
    let proposed = ProposedEventData {
        event_id: uuid::Uuid::new_v4().as_u128(),
        event_type: "Incremented".to_string(),
        payload: serde_json::from_str(r#"{"amount": 42}"#).unwrap(),
        metadata: metadata(Some("user-1")),
    };

    let proto = to_proto_event(&proposed);

    assert_eq!(proto.event_id, uuid::Uuid::from_u128(proposed.event_id).to_string());
    assert_eq!(proto.event_type, "Incremented");

    let payload_decoded: serde_json::Value =
        serde_json::from_slice(&proto.payload).expect("payload should be valid JSON");
    assert_eq!(payload_decoded, serde_json::from_str::<serde_json::Value>(r#"{"amount": 42}"#).unwrap());

    let meta_decoded: serde_json::Value =
        serde_json::from_slice(&proto.metadata).expect("metadata should be valid JSON");
    assert_eq!(meta_decoded["aggregate_type"], "counter");
    assert_eq!(meta_decoded["instance_id"], "c-1");
    assert_eq!(meta_decoded["actor"].as_str(), Some("user-1"));
    assert_eq!(meta_decoded.get("correlation_id"), None);
}

#[test]
fn to_proto_event_null_payload_serializes_as_null() {
    let proposed = ProposedEventData {
        event_id: uuid::Uuid::new_v4().as_u128(),
        event_type: "Incremented".to_string(),
        payload: serde_json::Value::Null,
        metadata: metadata(None),
    };

    let proto = to_proto_event(&proposed);
    let payload_decoded: serde_json::Value =
        serde_json::from_slice(&proto.payload).expect("payload should be valid JSON");
    assert_eq!(payload_decoded, serde_json::Value::Null);
}

#[test]
fn expected_version_any_converts_to_proto() {
    let proto = ExpectedVersionArg::Any.to_proto();
    assert!(
        matches!(proto.kind, Some(proto::expected_version::Kind::Any(_))),
        "Any should map to proto Any variant"
    );
}

#[test]
fn expected_version_no_stream_converts_to_proto() {
    let proto = ExpectedVersionArg::NoStream.to_proto();
    assert!(
        matches!(proto.kind, Some(proto::expected_version::Kind::NoStream(_))),
        "NoStream should map to proto NoStream variant"
    );
}

#[test]
fn expected_version_exact_converts_to_proto() {
    let proto = ExpectedVersionArg::Exact(5).to_proto();
    assert!(
        matches!(proto.kind, Some(proto::expected_version::Kind::Exact(5))),
        "Exact(5) should map to proto Exact(5) variant"
    );
}

#[test]
fn append_request_carries_stream_expectation_and_events_in_order() {
    let events = vec![
        ProposedEventData {
            event_id: 1,
            event_type: "A".to_string(),
            payload: serde_json::Value::Null,
            metadata: metadata(None),
        },
        ProposedEventData {
            event_id: 2,
            event_type: "B".to_string(),
            payload: serde_json::Value::Bool(true),
            metadata: metadata(None),
        },
    ];
    let stream = eventfold_es::stream_uuid("counter", "c-1");
    let req = eventfold_es::client::append_request(stream, ExpectedVersionArg::Exact(7), &events);
    assert_eq!(req.stream_id, uuid::Uuid::from_u128(stream).to_string());
    assert_eq!(
        req.expected_version,
        Some(proto::ExpectedVersion { kind: Some(proto::expected_version::Kind::Exact(7)) })
    );
    assert_eq!(req.events.len(), 2);
    assert_eq!(req.events[0].event_type, "A");
    assert_eq!(req.events[1].event_type, "B");
    assert_eq!(req.events[1].payload, b"true".to_vec());
    assert_eq!(req.events[0].event_id, "00000000-0000-0000-0000-000000000001");
}

#[test]
fn read_and_subscribe_requests_carry_their_arguments() {
    let req = eventfold_es::client::read_stream_request(0xabcdef, 4, u64::MAX);
    assert_eq!(req.stream_id, "00000000-0000-0000-0000-000000abcdef");
    assert_eq!(req.from_version, 4);
    assert_eq!(req.max_count, u64::MAX);
    assert_eq!(eventfold_es::client::subscribe_all_request(9).from_position, 9);
}

#[test]
fn read_stream_not_found_reads_as_empty() {
    let out = eventfold_es::client::read_stream_outcome(Err(tonic::Status::not_found("no stream")));
    assert!(matches!(out, Ok(v) if v.is_empty()));
}

#[test]
fn read_stream_other_failure_is_passed_on() {
    let out = eventfold_es::client::read_stream_outcome(Err(tonic::Status::unavailable("down")));
    match out {
        Err(s) => assert_eq!(s.code(), tonic::Code::Unavailable),
        Ok(_) => panic!("expected the failure to be passed on"),
    }
}

#[test]
fn non_empty_token_inserts_bearer_header() {
    let value = eventfold_es::bearer_header_value("abc").expect("authorization header should be present");
    assert_eq!(value, "Bearer abc");
}

#[test]
fn empty_token_omits_authorization_header() {
    assert!(
        eventfold_es::bearer_header_value("").is_none(),
        "authorization header should not be present for empty token"
    );
}

#[test]
fn changed_token_gives_changed_header() {
    assert_eq!(eventfold_es::bearer_header_value("abc").as_deref(), Some("Bearer abc"));
    assert_eq!(eventfold_es::bearer_header_value("xyz").as_deref(), Some("Bearer xyz"));
}

#[test]
fn written_event_decodes_to_its_identity() {
    let proposed = ProposedEventData {
        event_id: uuid::Uuid::new_v4().as_u128(),
        event_type: "Added".to_string(),
        payload: serde_json::from_str(r#"{"amount": 7}"#).unwrap(),
        metadata: EventMetadata {
            aggregate_type: "counter".to_string(),
            instance_id: "c-\"quoted\"/1".to_string(),
            actor: Some("user-1".to_string()),
            correlation_id: Some("corr".to_string()),
            source_device: Some("dev".to_string()),
        },
    };
    let wire = to_proto_event(&proposed);
    let recorded = proto::RecordedEvent {
        event_id: wire.event_id.clone(),
        stream_id: uuid::Uuid::from_u128(eventfold_es::stream_uuid("counter", "c-\"quoted\"/1")).to_string(),
        stream_version: 3,
        global_position: 9,
        event_type: wire.event_type.clone(),
        metadata: wire.metadata.clone(),
        payload: wire.payload.clone(),
        recorded_at: 1,
    };
    let stored = eventfold_es::decode_stored_event(&recorded).expect("a written event decodes");
    assert_eq!(stored.aggregate_type, "counter");
    assert_eq!(stored.instance_id, "c-\"quoted\"/1");
    assert_eq!(stored.event_id, proposed.event_id);
    assert_eq!(stored.event_type, "Added");
    assert_eq!(stored.payload, proposed.payload);
    assert_eq!(stored.metadata["actor"], "user-1");
    assert_eq!(stored.metadata["correlation_id"], "corr");
    assert_eq!(stored.metadata["source_device"], "dev");
}
