use eventfold_es::process_manager::process_stream;
use eventfold_es::proto::subscribe_response::Content;
use eventfold_es::proto::{Empty, RecordedEvent, SubscribeResponse};
use eventfold_es::{CommandContext, CommandEnvelope, ProcessManager, ProcessManagerCheckpoint, StoredEvent};

#[derive(Debug, Clone, Default, PartialEq)]
struct EchoSaga {
    pub events_seen: u64,
}

impl ProcessManager for EchoSaga {
    const NAME: &'static str = "echo-saga";

    fn react(mut self, event: &StoredEvent) -> (Self, Vec<CommandEnvelope>) {
        if event.aggregate_type != "counter" {
            return (self, Vec::new());
        }
        self.events_seen += 1;
        let mut command = serde_json::Map::new();
        command.insert("source_event_type".to_string(), serde_json::Value::String(event.event_type.clone()));
        let envelope = CommandEnvelope {
            aggregate_type: "target".to_string(),
            instance_id: event.instance_id.clone(),
            command: serde_json::Value::Object(command),
            context: CommandContext::default().with_correlation_id(format!("echo-{}", self.events_seen)),
        };
        (self, vec![envelope])
    }
}

fn make_recorded_event(global_position: u64, stream_version: u64) -> RecordedEvent {
    RecordedEvent {
        event_id: uuid::Uuid::new_v4().to_string(),
        stream_id: uuid::Uuid::from_u128(eventfold_es::stream_uuid("counter", "c-1")).to_string(),
        stream_version,
        global_position,
        event_type: "Incremented".to_string(),
        metadata: br#"{"aggregate_type":"counter","instance_id":"c-1"}"#.to_vec(),
        payload: b"{}".to_vec(),
        recorded_at: 1_700_000_000_000,
    }
}

fn event_response(global_position: u64, stream_version: u64) -> Result<SubscribeResponse, tonic::Status> {
    Ok(SubscribeResponse { content: Some(Content::Event(make_recorded_event(global_position, stream_version))) })
}

fn caught_up_response() -> Result<SubscribeResponse, tonic::Status> {
    Ok(SubscribeResponse { content: Some(Content::CaughtUp(Empty {})) })
}

#[test]
fn process_manager_trait_has_no_subscriptions_method() {
    let saga = EchoSaga::default();
    let stored = StoredEvent {
        event_id: uuid::Uuid::new_v4().as_u128(),
        stream_id: uuid::Uuid::new_v4().as_u128(),
        aggregate_type: "counter".to_string(),
        instance_id: "c-1".to_string(),
        stream_version: 0,
        global_position: 0,
        event_type: "Incremented".to_string(),
        payload: serde_json::from_str("{}").unwrap(),
        metadata: serde_json::from_str("{}").unwrap(),
        recorded_at: 1_700_000_000_000,
    };
    let (saga, envelopes) = saga.react(&stored);
    assert_eq!(envelopes.len(), 1);
    assert_eq!(envelopes[0].aggregate_type, "target");
    assert_eq!(envelopes[0].instance_id, "c-1");
    assert_eq!(envelopes[0].command["source_event_type"], "Incremented");
    assert_eq!(saga.events_seen, 1);
}

#[test]
fn process_manager_checkpoint_default_has_position_zero() {
    let checkpoint = ProcessManagerCheckpoint::<EchoSaga>::default();
    assert_eq!(checkpoint.state.events_seen, 0);
    assert_eq!(checkpoint.last_global_position, 0);
}

#[test]
fn catch_up_with_one_valid_event_returns_one_envelope() {
    let checkpoint = ProcessManagerCheckpoint::<EchoSaga>::default();
    let stream = vec![event_response(0, 0), caught_up_response()];

    let (checkpoint, result) = process_stream(checkpoint, &stream);
    let envelopes = result.expect("process_stream should succeed");

    assert_eq!(envelopes.len(), 1);
    assert_eq!(envelopes[0].aggregate_type, "target");
    assert_eq!(envelopes[0].instance_id, "c-1");
    assert_eq!(checkpoint.state.events_seen, 1);
    assert_eq!(checkpoint.last_global_position, 1);
}

#[test]
fn second_catch_up_with_saved_checkpoint_returns_empty() {
    let checkpoint = ProcessManagerCheckpoint::<EchoSaga>::default();
    let stream = vec![event_response(0, 0), caught_up_response()];
    let (checkpoint, result) = process_stream(checkpoint, &stream);
    let envelopes = result.expect("first process_stream should succeed");
    assert_eq!(envelopes.len(), 1);

    let stream = vec![caught_up_response()];
    let (checkpoint, result) = process_stream(checkpoint, &stream);
    let envelopes = result.expect("second process_stream should succeed");
    assert!(envelopes.is_empty());
    assert_eq!(checkpoint.state.events_seen, 1);
    assert_eq!(checkpoint.last_global_position, 1);
}

#[test]
fn non_es_events_skipped_returns_empty() {
    let recorded = RecordedEvent {
        event_id: uuid::Uuid::new_v4().to_string(),
        stream_id: uuid::Uuid::new_v4().to_string(),
        stream_version: 0,
        global_position: 5,
        event_type: "SomeEvent".to_string(),
        metadata: b"{}".to_vec(),
        payload: b"{}".to_vec(),
        recorded_at: 1_700_000_000_000,
    };
    let stream = vec![Ok(SubscribeResponse { content: Some(Content::Event(recorded)) }), caught_up_response()];
    let checkpoint = ProcessManagerCheckpoint::<EchoSaga>::default();

    let (checkpoint, result) = process_stream(checkpoint, &stream);
    let envelopes = result.expect("process_stream should succeed");

    assert!(envelopes.is_empty());
    assert_eq!(checkpoint.state.events_seen, 0);
    assert_eq!(checkpoint.last_global_position, 6);
}

#[test]
fn envelopes_follow_event_order() {
    let checkpoint = ProcessManagerCheckpoint::<EchoSaga>::default();
    let stream = vec![event_response(0, 0), event_response(1, 1), event_response(2, 2), caught_up_response()];
    let (checkpoint, result) = process_stream(checkpoint, &stream);
    let envelopes = result.expect("succeeds");
    let ids: Vec<_> = envelopes.iter().map(|e| e.context.correlation_id.clone().unwrap()).collect();
    assert_eq!(ids, vec!["echo-1", "echo-2", "echo-3"]);
    assert_eq!(checkpoint.last_global_position, 3);
}

#[test]
fn stream_error_is_reported() {
    let checkpoint = ProcessManagerCheckpoint::<EchoSaga>::default();
    let stream = vec![event_response(0, 0), Err(tonic::Status::internal("boom"))];
    let (checkpoint, result) = process_stream(checkpoint, &stream);
    let err = result.expect_err("a stream failure is reported");
    assert!(err.to_string().starts_with("subscribe stream error: "), "{err}");
    assert!(err.to_string().contains("boom"), "{err}");
    assert_eq!(checkpoint.state.events_seen, 1);
    assert_eq!(checkpoint.last_global_position, 1);
}
