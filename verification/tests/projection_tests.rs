use eventfold_es::projection::{apply_recorded_event, process_stream};
use eventfold_es::proto::subscribe_response::Content;
use eventfold_es::proto::{Empty, RecordedEvent, SubscribeResponse};
use eventfold_es::{Projection, ProjectionCheckpoint, StoredEvent};

#[derive(Debug, Clone, Default, PartialEq)]
struct EventCounter {
    pub count: u64,
}

impl Projection for EventCounter {
    const NAME: &'static str = "event-counter";

    fn apply(mut self, _event: &StoredEvent) -> Self {
        self.count += 1;
        self
    }
}

fn make_recorded_event(global_position: u64, stream_version: u64) -> RecordedEvent {
    let event_id = uuid::Uuid::new_v4().to_string();
    let stream_id = uuid::Uuid::from_u128(eventfold_es::stream_uuid("counter", "c-1")).to_string();
    RecordedEvent {
        event_id,
        stream_id,
        stream_version,
        global_position,
        event_type: "Incremented".to_string(),
        metadata: br#"{"aggregate_type":"counter","instance_id":"c-1"}"#.to_vec(),
        payload: b"{}".to_vec(),
        recorded_at: 1_700_000_000_000,
    }
}

fn event_response(global_position: u64, stream_version: u64) -> Result<SubscribeResponse, tonic::Status> {
    Ok(SubscribeResponse {
        content: Some(Content::Event(make_recorded_event(global_position, stream_version))),
    })
}

fn caught_up_response() -> Result<SubscribeResponse, tonic::Status> {
    Ok(SubscribeResponse { content: Some(Content::CaughtUp(Empty {})) })
}

#[test]
fn projection_trait_has_no_subscriptions_method() {
    let counter = EventCounter::default();
    let stored = StoredEvent {
        event_id: uuid::Uuid::new_v4().as_u128(),
        stream_id: uuid::Uuid::new_v4().as_u128(),
        aggregate_type: "counter".to_string(),
        instance_id: "c-1".to_string(),
        stream_version: 0,
        global_position: 0,
        event_type: "Incremented".to_string(),
        payload: serde_json::from_str("{}").unwrap(),
        metadata: serde_json::from_str("{}").unwrap(),
        recorded_at: 1_700_000_000_000,
    };
    let counter = counter.apply(&stored);
    assert_eq!(counter.count, 1);
}

#[test]
fn projection_checkpoint_default_has_position_zero() {
    let checkpoint = ProjectionCheckpoint::<EventCounter>::default();
    assert_eq!(checkpoint.state.count, 0);
    assert_eq!(checkpoint.last_global_position, 0);
}

#[test]
fn catch_up_fresh_checkpoint_with_two_events() {
    let checkpoint = ProjectionCheckpoint::<EventCounter>::default();
    let stream = vec![event_response(0, 0), event_response(1, 1), caught_up_response()];

    let (checkpoint, result) = process_stream(checkpoint, &stream);
    result.expect("process_stream should succeed");

    assert_eq!(checkpoint.state.count, 2);
    assert_eq!(checkpoint.last_global_position, 2);
}

#[test]
fn second_catch_up_with_only_caught_up_leaves_count_unchanged() {
    let checkpoint = ProjectionCheckpoint { state: EventCounter { count: 2 }, last_global_position: 2 };
    let stream = vec![caught_up_response()];

    let (checkpoint, result) = process_stream(checkpoint, &stream);
    result.expect("process_stream should succeed");

    assert_eq!(checkpoint.state.count, 2);
    assert_eq!(checkpoint.last_global_position, 2);
}

#[test]
fn recorded_event_with_empty_metadata_is_skipped() {
    let recorded = RecordedEvent {
        event_id: uuid::Uuid::new_v4().to_string(),
        stream_id: uuid::Uuid::new_v4().to_string(),
        stream_version: 0,
        global_position: 5,
        event_type: "SomeEvent".to_string(),
        metadata: b"{}".to_vec(),
        payload: b"{}".to_vec(),
        recorded_at: 1_700_000_000_000,
    };
    let stream = vec![
        Ok(SubscribeResponse { content: Some(Content::Event(recorded)) }),
        caught_up_response(),
    ];
    let checkpoint = ProjectionCheckpoint::<EventCounter>::default();

    let (checkpoint, result) = process_stream(checkpoint, &stream);
    result.expect("process_stream should succeed");

    assert_eq!(checkpoint.state.count, 0);
    assert_eq!(checkpoint.last_global_position, 6);
}

#[test]
fn apply_recorded_event_skips_already_processed_positions() {
    let state = EventCounter::default();
    let position: u64 = 5;

    let old_event = make_recorded_event(3, 3);
    let (state, position) = apply_recorded_event(state, position, &old_event);
    assert_eq!(state.count, 0, "should not apply already-processed event");
    assert_eq!(position, 5, "position should not change");

    let current_event = make_recorded_event(5, 5);
    let (state, position) = apply_recorded_event(state, position, &current_event);
    assert_eq!(state.count, 1, "should apply event at current position");
    assert_eq!(position, 6, "position should advance");

    let future_event = make_recorded_event(10, 10);
    let (state, position) = apply_recorded_event(state, position, &future_event);
    assert_eq!(state.count, 2, "should apply event ahead of position");
    assert_eq!(position, 11);
}

#[test]
fn stream_error_stops_and_keeps_progress() {
    let checkpoint = ProjectionCheckpoint::<EventCounter>::default();
    let stream = vec![
        event_response(0, 0),
        Err(tonic::Status::unavailable("gone")),
        event_response(1, 1),
    ];
    let (checkpoint, result) = process_stream(checkpoint, &stream);
    let err = result.expect_err("a stream failure is reported");
    assert_eq!(err.kind(), std::io::ErrorKind::Other);
    assert!(err.to_string().starts_with("subscribe stream error: "), "{err}");
    assert!(err.to_string().contains("gone"), "{err}");
    assert_eq!(checkpoint.state.count, 1);
    assert_eq!(checkpoint.last_global_position, 1);
}

#[test]
fn empty_content_is_skipped_and_end_of_stream_is_ok() {
    let checkpoint = ProjectionCheckpoint::<EventCounter>::default();
    let stream = vec![Ok(SubscribeResponse { content: None }), event_response(3, 0)];
    let (checkpoint, result) = process_stream(checkpoint, &stream);
    result.expect("ends without caught-up");
    assert_eq!(checkpoint.state.count, 1);
    assert_eq!(checkpoint.last_global_position, 4);
}

#[test]
fn replaying_the_same_items_changes_nothing() {
    let checkpoint = ProjectionCheckpoint::<EventCounter>::default();
    let stream = vec![event_response(0, 0), event_response(4, 1), event_response(2, 2), caught_up_response()];
    let (checkpoint, result) = process_stream(checkpoint, &stream);
    result.expect("first pass");
    let (count, pos) = (checkpoint.state.count, checkpoint.last_global_position);
    assert_eq!((count, pos), (2, 5));
    let (checkpoint, result) = process_stream(checkpoint, &stream);
    result.expect("second pass");
    assert_eq!((checkpoint.state.count, checkpoint.last_global_position), (count, pos));
}

#[test]
fn catch_up_ends_at_caught_up_or_error() {
    assert!(eventfold_es::projection::ends_catch_up(&caught_up_response()));
    assert!(eventfold_es::projection::ends_catch_up(&Err(tonic::Status::internal("boom"))));
    assert!(!eventfold_es::projection::ends_catch_up(&event_response(0, 0)));
    assert!(!eventfold_es::projection::ends_catch_up(&Ok(SubscribeResponse { content: None })));
}
