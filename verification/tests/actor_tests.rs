use eventfold_es::actor::{actor_step, catch_up_after_inject, fold_recorded, inject_read_from, starting_point};
use eventfold_es::{ActorAction, ActorEvent};
use eventfold_es::proto::AppendResponse;
use eventfold_es::{Aggregate, CommandExecution, ExecStep, ExecuteError, ExpectedVersionArg, RecordedDomainEvent, Snapshot};

#[derive(Debug, Clone, Default, PartialEq)]
struct Counter {
    value: u64,
}

#[derive(Debug, Clone, PartialEq)]
enum CounterCommand {
    Increment,
    Nothing,
    Refuse,
}

#[derive(Debug, Clone, PartialEq)]
enum CounterEvent {
    Incremented,
    Added { amount: u64 },
}

#[derive(Debug, PartialEq)]
struct CounterError;

impl Aggregate for Counter {
    const AGGREGATE_TYPE: &'static str = "counter";
    type Command = CounterCommand;
    type DomainEvent = CounterEvent;
    type Error = CounterError;

    fn handle(&self, cmd: &CounterCommand) -> Result<Vec<CounterEvent>, CounterError> {
        match cmd {
            CounterCommand::Increment => Ok(vec![CounterEvent::Incremented]),
            CounterCommand::Nothing => Ok(vec![]),
            CounterCommand::Refuse => Err(CounterError),
        }
    }

    fn apply(mut self, event: &CounterEvent) -> Self {
        match event {
            CounterEvent::Incremented => self.value += 1,
            CounterEvent::Added { amount } => self.value += amount,
        }
        self
    }
}

/// An in-memory stream standing in for the event store.
struct MockStore {
    events: Vec<(u64, CounterEvent)>,
    precondition_failures_remaining: u32,
    appends: u32,
    reads: u32,
}

impl MockStore {
    fn with_precondition_failures(n: u32) -> Self {
        MockStore { events: Vec::new(), precondition_failures_remaining: n, appends: 0, reads: 0 }
    }

    fn append(&mut self, events: &[CounterEvent]) -> Result<AppendResponse, tonic::Status> {
        self.appends += 1;
        if self.precondition_failures_remaining > 0 {
            self.precondition_failures_remaining -= 1;
            return Err(tonic::Status::failed_precondition("wrong expected version"));
        }
        let first = self.events.len() as u64;
        for e in events {
            let v = self.events.len() as u64;
            self.events.push((v, e.clone()));
        }
        let last = self.events.len() as u64 - 1;
        Ok(AppendResponse {
            first_stream_version: first,
            last_stream_version: last,
            first_global_position: 0,
            last_global_position: 0,
        })
    }

    fn read(&mut self, from: u64) -> Vec<RecordedDomainEvent<CounterEvent>> {
        self.reads += 1;
        self.events
            .iter()
            .filter(|(v, _)| *v >= from)
            .map(|(v, e)| RecordedDomainEvent { event: Some(e.clone()), stream_version: *v })
            .collect()
    }
}

fn run(
    store: &mut MockStore,
    state: Counter,
    version: u64,
    cmd: CounterCommand,
) -> (CommandExecution<Counter>, Result<Vec<CounterEvent>, ExecuteError<CounterError>>) {
    let (mut exec, mut step) = CommandExecution::start(state, version, &cmd);
    loop {
        match step {
            ExecStep::Done(result) => return (exec, result),
            ExecStep::Append(expected) => {
                assert_eq!(expected, ExpectedVersionArg::Exact(exec.stream_version));
                let result = store.append(&exec.pending);
                let next = exec.on_append(result);
                exec = next.0;
                step = next.1;
            }
            ExecStep::ReadStream(from) => {
                let events = store.read(from);
                let next = exec.on_read(&cmd, Ok(events));
                exec = next.0;
                step = next.1;
            }
        }
    }
}

#[test]
fn three_precondition_failures_returns_wrong_expected_version() {
    let mut store = MockStore::with_precondition_failures(3);
    let (_exec, result) = run(&mut store, Counter::default(), 0, CounterCommand::Increment);
    assert!(
        matches!(result, Err(ExecuteError::WrongExpectedVersion)),
        "expected WrongExpectedVersion, got: {result:?}"
    );
    assert_eq!(store.appends, 3);
}

#[test]
fn two_conflicts_then_success_appends_and_folds() {
    let mut store = MockStore::with_precondition_failures(2);
    store.events.push((0, CounterEvent::Added { amount: 10 }));
    let (exec, result) = run(&mut store, Counter::default(), 0, CounterCommand::Increment);
    assert_eq!(result.expect("third attempt succeeds"), vec![CounterEvent::Incremented]);
    assert_eq!(exec.state.value, 1);
    assert_eq!(exec.stream_version, 1);
    assert_eq!(exec.attempt, 2);
    assert_eq!(store.appends, 3);
}

#[test]
fn conflict_rereads_events_written_by_others() {
    let mut store = MockStore::with_precondition_failures(1);
    store.events.push((0, CounterEvent::Incremented));
    store.events.push((1, CounterEvent::Added { amount: 5 }));
    let (exec, result) = run(&mut store, Counter { value: 1 }, 0, CounterCommand::Increment);
    assert!(result.is_ok());
    assert_eq!(exec.state.value, 7);
    assert_eq!(exec.stream_version, 2);
}

#[test]
fn domain_rejection_is_passed_through_without_append() {
    let mut store = MockStore::with_precondition_failures(0);
    let (exec, result) = run(&mut store, Counter { value: 4 }, 9, CounterCommand::Refuse);
    assert!(matches!(result, Err(ExecuteError::Domain(CounterError))));
    assert_eq!(exec.state.value, 4);
    assert_eq!(store.appends, 0);
}

#[test]
fn empty_decision_appends_nothing() {
    let mut store = MockStore::with_precondition_failures(0);
    let (_exec, result) = run(&mut store, Counter::default(), 0, CounterCommand::Nothing);
    assert_eq!(result.expect("no-op succeeds"), vec![]);
    assert_eq!(store.appends, 0);
}

#[test]
fn other_append_failure_is_transport_error() {
    let (exec, step) = CommandExecution::start(Counter::default(), 3, &CounterCommand::Increment);
    assert!(matches!(step, ExecStep::Append(ExpectedVersionArg::Exact(3))));
    let (exec, step) = exec.on_append(Err(tonic::Status::unavailable("down")));
    assert!(matches!(step, ExecStep::Done(Err(ExecuteError::Transport(_)))));
    assert_eq!(exec.state.value, 0);
}

#[test]
fn failed_reread_is_transport_error() {
    let (exec, _) = CommandExecution::start(Counter::default(), 3, &CounterCommand::Increment);
    let (exec, step) = exec.on_append(Err(tonic::Status::failed_precondition("conflict")));
    assert!(matches!(step, ExecStep::ReadStream(4)));
    let (_exec, step) = exec.on_read(&CounterCommand::Increment, Err(tonic::Status::internal("boom")));
    assert!(matches!(step, ExecStep::Done(Err(ExecuteError::Transport(_)))));
}

#[test]
fn encoding_failure_is_io_error() {
    let (exec, _) = CommandExecution::start(Counter::default(), 0, &CounterCommand::Increment);
    let err = std::io::Error::new(std::io::ErrorKind::InvalidData, "bad");
    let (_exec, step) = exec.on_encode_failed(err);
    assert!(matches!(step, ExecStep::Done(Err(ExecuteError::Io(_)))));
}

/// Decode a recorded event the way the actor does: the adjacently-tagged
/// envelope rebuilt from the event type and payload.
fn decode(event_type: &str, payload: &[u8]) -> Option<CounterEvent> {
    let value: serde_json::Value = if payload.is_empty() {
        serde_json::Value::Null
    } else {
        serde_json::from_slice(payload).ok()?
    };
    match event_type {
        "Incremented" => Some(CounterEvent::Incremented),
        "Added" => Some(CounterEvent::Added { amount: value["amount"].as_u64()? }),
        _ => None,
    }
}

#[test]
fn spawn_with_snapshot_catches_up_from_server() {
    let snap = Snapshot { state: Counter { value: 2 }, stream_version: 2 };
    let (state, version, from_version) = starting_point(Some(snap));
    assert_eq!((version, from_version), (2, 3));

    let server_events = vec![(3u64, "Incremented", b"null".to_vec())];
    let recorded: Vec<RecordedDomainEvent<CounterEvent>> = server_events
        .iter()
        .filter(|(v, _, _)| *v >= from_version)
        .map(|(v, t, p)| RecordedDomainEvent { event: decode(t, p), stream_version: *v })
        .collect();
    let (state, version) = fold_recorded(state, version, &recorded);
    assert_eq!(state.value, 3, "state.value should be 3 after snapshot(2) + 1 Incremented");
    assert_eq!(version, 3);
}

#[test]
fn fresh_actor_starts_from_default_at_zero() {
    let (state, version, from_version) = starting_point::<Counter>(None);
    assert_eq!(state, Counter::default());
    assert_eq!((version, from_version), (0, 0));
}

#[test]
fn undecodable_events_advance_version_only() {
    let recorded = vec![
        RecordedDomainEvent { event: Some(CounterEvent::Incremented), stream_version: 0 },
        RecordedDomainEvent { event: None, stream_version: 1 },
        RecordedDomainEvent { event: Some(CounterEvent::Added { amount: 4 }), stream_version: 2 },
        RecordedDomainEvent { event: None, stream_version: 3 },
    ];
    let (state, version) = fold_recorded(Counter::default(), 0, &recorded);
    assert_eq!(state.value, 5);
    assert_eq!(version, 3);
    let (state, version) = fold_recorded(state, version, &Vec::new());
    assert_eq!((state.value, version), (5, 3));
}

#[test]
fn resuming_from_snapshot_matches_full_replay() {
    let all = vec![
        RecordedDomainEvent { event: Some(CounterEvent::Added { amount: 3 }), stream_version: 0 },
        RecordedDomainEvent { event: Some(CounterEvent::Incremented), stream_version: 1 },
        RecordedDomainEvent { event: None, stream_version: 2 },
        RecordedDomainEvent { event: Some(CounterEvent::Added { amount: 10 }), stream_version: 3 },
    ];
    let (full_state, full_version) = fold_recorded(Counter::default(), 0, &all);

    let (snap_state, snap_version) = fold_recorded(Counter::default(), 0, &all[..2].to_vec());
    let snap = Snapshot { state: snap_state, stream_version: snap_version };
    let (state, version, from_version) = starting_point(Some(snap));
    let rest: Vec<RecordedDomainEvent<CounterEvent>> =
        all.iter().filter(|e| e.stream_version >= from_version).cloned().collect();
    let (resumed_state, resumed_version) = fold_recorded(state, version, &rest);

    assert_eq!(resumed_state, full_state);
    assert_eq!(resumed_version, full_version);
    assert_eq!((full_state.value, full_version), (14, 3));
}

#[test]
fn injection_catches_up_or_keeps_state_on_failed_read() {
    let read = Ok(vec![RecordedDomainEvent { event: Some(CounterEvent::Added { amount: 4 }), stream_version: 6 }]);
    let (state, version) = catch_up_after_inject(Counter { value: 1 }, 5, read);
    assert_eq!((state.value, version), (5, 6));
    let (state, version) = catch_up_after_inject(Counter { value: 1 }, 5, Err(tonic::Status::unavailable("down")));
    assert_eq!((state.value, version), (1, 5));
}

#[test]
fn actor_steps_follow_the_message() {
    assert_eq!(actor_step(4, ActorEvent::Execute), ActorAction::RunCommand);
    assert_eq!(actor_step(4, ActorEvent::GetState), ActorAction::ReplyState);
    assert_eq!(actor_step(4, ActorEvent::Inject), ActorAction::AppendInjected(ExpectedVersionArg::Any));
    assert_eq!(actor_step(4, ActorEvent::Shutdown), ActorAction::SaveSnapshotAndStop(4));
    assert_eq!(actor_step(7, ActorEvent::Closed), ActorAction::SaveSnapshotAndStop(7));
    assert_eq!(actor_step(0, ActorEvent::IdleTimeout), ActorAction::SaveSnapshotAndStop(0));
    assert_eq!(inject_read_from(4), 5);
}
