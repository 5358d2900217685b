//! Aggregates and the decisions of the actor that owns one.
//!
//! The actor keeps an aggregate's state and the version of the last event
//! folded into it. It recovers from a snapshot plus the events written since,
//! and executes commands with optimistic concurrency: events are appended
//! with the expected version `Exact(version)`; on a version conflict it
//! re-reads the stream, folds the new events and decides again, up to
//! `MAX_RETRIES` attempts. The reading and appending themselves are done by
//! the caller, which reports each result back (see `CommandExecution`).

use vstd::prelude::*;
use crate::client::ExpectedVersionArg;
use crate::error::ExecuteError;
use crate::proto::AppendResponse;
use crate::snapshot::Snapshot;
use crate::status;

verus! {

/// Maximum number of append attempts for one command.
pub const MAX_RETRIES: u32 = 3;

/// A domain model: decides events from commands and folds events into state.
///
/// Both methods must be deterministic. The library states its own
/// behaviour in terms of the results they return (`evolves`, `decision`).
pub trait Aggregate: Sized {
    /// The aggregate type name, stamped into event metadata.
    const AGGREGATE_TYPE: &'static str;

    /// The commands the aggregate accepts.
    type Command;

    /// The events the aggregate emits and folds.
    type DomainEvent;

    /// The domain error a command can be rejected with.
    type Error;

    /// Decide the events a command produces, without changing the state.
    fn handle(&self, cmd: &Self::Command) -> Result<Vec<Self::DomainEvent>, Self::Error>;

    /// Fold one event into the state.
    fn apply(self, event: &Self::DomainEvent) -> Self;
}

/// `next` is a state that `apply` returns for `state` and `event`.
pub open spec fn evolves<A: Aggregate>(state: A, event: A::DomainEvent, next: A) -> bool {
    call_ensures(A::apply, (state, &event), next)
}

/// `result` is a state reached by folding `events` into `state` in order.
pub open spec fn evolves_all<A: Aggregate>(state: A, events: Seq<A::DomainEvent>, result: A) -> bool
    decreases events.len(),
{
    if events.len() == 0 {
        result == state
    } else {
        exists|mid: A| evolves_all(state, events.drop_last(), mid) && #[trigger] evolves(mid, events.last(), result)
    }
}

/// Fold `events` into `state` in order.
pub fn apply_all<A: Aggregate>(state: A, events: &Vec<A::DomainEvent>) -> (r: A)
    ensures
        evolves_all(state, events@, r),
{
    let ghost s0 = state;
    let mut state = state;
    let mut i: usize = 0;
    assert(events@.take(0) =~= Seq::<A::DomainEvent>::empty());
    while i < events.len()
        invariant
            i <= events.len(),
            evolves_all(s0, events@.take(i as int), state),
        decreases events.len() - i,
    {
        let ghost before = state;
        state = state.apply(&events[i]);
        assert(events@.take(i + 1).drop_last() =~= events@.take(i as int));
        assert(evolves_all(s0, events@.take(i + 1).drop_last(), before));
        assert(evolves(before, events@.take(i + 1).last(), state));
        i = i + 1;
    }
    assert(events@.take(i as int) =~= events@);
    state
}

/// A recorded event of the aggregate's stream, decoded into a domain event
/// where its payload matches one (`None` otherwise), with its version.
#[derive(Debug, Clone)]
pub struct RecordedDomainEvent<E> {
    /// The decoded domain event, if the recorded event decodes.
    pub event: Option<E>,
    /// The version of the recorded event within its stream.
    pub stream_version: u64,
}

/// The domain events among recorded events, in order.
pub open spec fn decoded_events<E>(events: Seq<RecordedDomainEvent<E>>) -> Seq<E>
    decreases events.len(),
{
    if events.len() == 0 {
        Seq::empty()
    } else {
        let earlier = decoded_events(events.drop_last());
        match events.last().event {
            Some(e) => earlier.push(e),
            None => earlier,
        }
    }
}

/// The version after catching up: that of the last recorded event, or the
/// starting one when there are none.
pub open spec fn caught_up_version<E>(version: u64, events: Seq<RecordedDomainEvent<E>>) -> u64 {
    if events.len() == 0 {
        version
    } else {
        events.last().stream_version
    }
}

/// Catch up on recorded events: the decodable ones are folded in order, and
/// the version follows every recorded event.
pub fn fold_recorded<A: Aggregate>(
    state: A,
    version: u64,
    events: &Vec<RecordedDomainEvent<A::DomainEvent>>,
) -> (r: (A, u64))
    ensures
        evolves_all(state, decoded_events(events@), r.0),
        r.1 == caught_up_version(version, events@),
{
    let ghost s0 = state;
    let ghost v0 = version;
    let mut state = state;
    let mut version = version;
    let mut i: usize = 0;
    assert(events@.take(0) =~= Seq::<RecordedDomainEvent<A::DomainEvent>>::empty());
    assert(decoded_events(events@.take(0)) =~= Seq::<A::DomainEvent>::empty());
    while i < events.len()
        invariant
            i <= events.len(),
            evolves_all(s0, decoded_events(events@.take(i as int)), state),
            version == caught_up_version(v0, events@.take(i as int)),
        decreases events.len() - i,
    {
        let ghost before = state;
        let ghost prefix = events@.take(i as int);
        let ghost next_prefix = events@.take(i + 1);
        assert(next_prefix.drop_last() =~= prefix);
        assert(next_prefix.last() == events@[i as int]);
        match &events[i].event {
            Some(e) => {
                state = state.apply(e);
                let ghost d = decoded_events(next_prefix);
                assert(d == decoded_events(prefix).push(*e));
                assert(d.drop_last() =~= decoded_events(prefix));
                assert(evolves_all(s0, d.drop_last(), before));
                assert(evolves(before, d.last(), state));
            },
            None => {
                assert(decoded_events(next_prefix) == decoded_events(prefix));
            },
        }
        version = events[i].stream_version;
        i = i + 1;
    }
    assert(events@.take(i as int) =~= events@);
    (state, version)
}

/// What an aggregate actor is woken by.
#[derive(Debug, Clone, Copy, PartialEq, Eq)]
pub enum ActorEvent {
    /// A command to execute.
    Execute,
    /// A request for the current state.
    GetState,
    /// An already built event to append to the actor's stream.
    Inject,
    /// A request to stop.
    Shutdown,
    /// Every handle to the actor was dropped.
    Closed,
    /// No message came within the idle timeout.
    IdleTimeout,
}

/// What an aggregate actor does next.
#[derive(Debug, Clone, Copy, PartialEq, Eq)]
pub enum ActorAction {
    /// Run the command through `CommandExecution`.
    RunCommand,
    /// Answer with the current state; state and version stay as they are.
    ReplyState,
    /// Append the injected event with this expectation, then catch up.
    AppendInjected(ExpectedVersionArg),
    /// Save a snapshot of the current state at this stream version and stop.
    SaveSnapshotAndStop(u64),
}

/// The decision of an actor at `stream_version` on what woke it: commands
/// run, state requests are answered, injected events are appended whatever
/// the stream's version, and a shutdown, a closed channel or an idle
/// timeout saves a snapshot at the current version and stops the actor.
pub fn actor_step(stream_version: u64, event: ActorEvent) -> (a: ActorAction)
    ensures
        event == ActorEvent::Execute ==> a == ActorAction::RunCommand,
        event == ActorEvent::GetState ==> a == ActorAction::ReplyState,
        event == ActorEvent::Inject ==> a == ActorAction::AppendInjected(ExpectedVersionArg::Any),
        (event == ActorEvent::Shutdown || event == ActorEvent::Closed || event == ActorEvent::IdleTimeout)
            ==> a == ActorAction::SaveSnapshotAndStop(stream_version),
{
    match event {
        ActorEvent::Execute => ActorAction::RunCommand,
        ActorEvent::GetState => ActorAction::ReplyState,
        ActorEvent::Inject => ActorAction::AppendInjected(ExpectedVersionArg::Any),
        ActorEvent::Shutdown | ActorEvent::Closed | ActorEvent::IdleTimeout => ActorAction::SaveSnapshotAndStop(
            stream_version,
        ),
    }
}

/// The first stream version to read back after an injected event was
/// appended: the one after the actor's own.
pub fn inject_read_from(stream_version: u64) -> (r: u64)
    requires
        stream_version < u64::MAX,
    ensures
        r == stream_version + 1,
{
    stream_version + 1
}

/// The state and version of an actor after an event was injected into its
/// stream and the stream was read back from the version after its own:
/// caught up through the events read, or unchanged where the read failed.
pub fn catch_up_after_inject<A: Aggregate>(
    state: A,
    version: u64,
    read: Result<Vec<RecordedDomainEvent<A::DomainEvent>>, tonic::Status>,
) -> (r: (A, u64))
    ensures
        match read {
            Ok(events) => evolves_all(state, decoded_events(events@), r.0) && r.1 == caught_up_version(version, events@),
            Err(_) => r.0 == state && r.1 == version,
        },
{
    match read {
        Ok(events) => fold_recorded(state, version, &events),
        Err(_) => (state, version),
    }
}

/// Folding in two parts is folding the whole: a state reached from `state`
/// by `first` and then by `second` is reached by `first + second`.
pub proof fn lemma_evolves_all_concat<A: Aggregate>(
    state: A,
    first: Seq<A::DomainEvent>,
    mid: A,
    second: Seq<A::DomainEvent>,
    result: A,
)
    requires
        evolves_all(state, first, mid),
        evolves_all(mid, second, result),
    ensures
        evolves_all(state, first + second, result),
    decreases second.len(),
{
    if second.len() == 0 {
        assert(first + second =~= first);
    } else {
        let prev = choose|m: A| evolves_all(mid, second.drop_last(), m) && #[trigger] evolves(m, second.last(), result);
        lemma_evolves_all_concat(state, first, mid, second.drop_last(), prev);
        let whole = first + second;
        assert(whole.drop_last() =~= first + second.drop_last());
        assert(whole.last() == second.last());
        assert(evolves_all(state, whole.drop_last(), prev) && evolves(prev, whole.last(), result));
    }
}

/// The decodable events of two reads are those of one read of both.
proof fn lemma_decoded_events_concat<E>(first: Seq<RecordedDomainEvent<E>>, second: Seq<RecordedDomainEvent<E>>)
    ensures
        decoded_events(first + second) == decoded_events(first) + decoded_events(second),
    decreases second.len(),
{
    if second.len() == 0 {
        assert(first + second =~= first);
        assert(decoded_events(first) + decoded_events(second) =~= decoded_events(first));
    } else {
        lemma_decoded_events_concat(first, second.drop_last());
        let whole = first + second;
        assert(whole.drop_last() =~= first + second.drop_last());
        assert(whole.last() == second.last());
        match second.last().event {
            Some(e) => {
                assert(decoded_events(first) + decoded_events(second) =~= (decoded_events(first) + decoded_events(
                    second.drop_last(),
                )).push(e));
            },
            None => {},
        }
    }
}

/// Law: recovering from a snapshot reaches what a full replay reaches. If
/// a snapshot's state was reached from `state` by the events `before`, at
/// the version that catching up through `before` gives, then catching up
/// through `after` from the snapshot reaches a state and version that
/// catching up through `before + after` from `state` reaches too.
pub proof fn lemma_snapshot_resume<A: Aggregate>(
    state: A,
    version: u64,
    before: Seq<RecordedDomainEvent<A::DomainEvent>>,
    snapshot: Snapshot<A>,
    after: Seq<RecordedDomainEvent<A::DomainEvent>>,
    result: A,
)
    requires
        evolves_all(state, decoded_events(before), snapshot.state),
        snapshot.stream_version == caught_up_version(version, before),
        evolves_all(snapshot.state, decoded_events(after), result),
    ensures
        evolves_all(state, decoded_events(before + after), result),
        caught_up_version(snapshot.stream_version, after) == caught_up_version(version, before + after),
{
    lemma_decoded_events_concat(before, after);
    lemma_evolves_all_concat(state, decoded_events(before), snapshot.state, decoded_events(after), result);
    if after.len() > 0 {
        assert((before + after).last() == after.last());
    } else {
        assert(before + after =~= before);
    }
}

/// Where an actor starts: from a snapshot at version N, with its state and
/// version, reading on from N + 1; without one, from the default state at
/// version 0, reading from the start of the stream. Returns the state, the
/// version and the first version to read.
pub fn starting_point<A: Aggregate + Default>(snapshot: Option<Snapshot<A>>) -> (r: (A, u64, u64))
    requires
        snapshot matches Some(s) ==> s.stream_version < u64::MAX,
    ensures
        match snapshot {
            Some(s) => r.0 == s.state && r.1 == s.stream_version && r.2 == s.stream_version + 1,
            None => call_ensures(A::default, (), r.0) && r.1 == 0 && r.2 == 0,
        },
{
    match snapshot {
        Some(snap) => {
            let from = snap.stream_version + 1;
            (snap.state, snap.stream_version, from)
        },
        None => (A::default(), 0, 0),
    }
}

/// Where a command execution stands.
#[derive(Debug, Clone, Copy, PartialEq, Eq)]
pub enum ExecPhase {
    /// The events in `pending` are to be encoded and appended.
    AwaitingAppend,
    /// The stream is to be re-read after a version conflict.
    AwaitingRead,
    /// The execution has produced its result.
    Finished,
}

/// What the caller of a command execution is to do next.
pub enum ExecStep<A: Aggregate> {
    /// Encode the pending events and append them with this expectation.
    Append(ExpectedVersionArg),
    /// Read the aggregate's stream from this version on.
    ReadStream(u64),
    /// The command's result: the events produced, or the failure.
    Done(Result<Vec<A::DomainEvent>, ExecuteError<A::Error>>),
}

/// The execution of one command with optimistic concurrency retries.
pub struct CommandExecution<A: Aggregate> {
    /// The aggregate state, kept up to date with what was appended or read.
    pub state: A,
    /// Version of the last event folded into `state`.
    pub stream_version: u64,
    /// Attempts that ended in a version conflict so far.
    pub attempt: u32,
    /// Where the execution stands.
    pub phase: ExecPhase,
    /// Events decided and not yet appended.
    pub pending: Vec<A::DomainEvent>,
}

/// The step taken when deciding `cmd` against `state` at `version`, for a
/// result `handle` returns: a rejection or an empty decision finishes with
/// that result; otherwise the events wait to be appended with the
/// expectation `Exact(version)`.
pub open spec fn decision<A: Aggregate>(
    r: (CommandExecution<A>, ExecStep<A>),
    state: A,
    version: u64,
    cmd: A::Command,
) -> bool {
    exists|h: Result<Vec<A::DomainEvent>, A::Error>|
        #[trigger] call_ensures(A::handle, (&state, &cmd), h) && match h {
            Err(e) => r.0.phase == ExecPhase::Finished && (r.1 matches ExecStep::Done(Err(ExecuteError::Domain(x))) && x == e),
            Ok(events) => if events@.len() == 0 {
                r.0.phase == ExecPhase::Finished && (r.1 matches ExecStep::Done(Ok(v)) && v@.len() == 0)
            } else {
                &&& r.0.phase == ExecPhase::AwaitingAppend
                &&& r.0.pending@ == events@
                &&& (r.1 matches ExecStep::Append(ExpectedVersionArg::Exact(v)) && v == version)
            },
        }
}

impl<A: Aggregate> CommandExecution<A> {
    /// Execution invariant: an unfinished execution has attempts left, and
    /// events are pending exactly while an append is awaited.
    pub open spec fn wf(&self) -> bool {
        &&& self.phase != ExecPhase::Finished ==> self.attempt < MAX_RETRIES
        &&& self.phase == ExecPhase::AwaitingAppend ==> self.pending.len() > 0
    }

    /// Decide against the current state: a rejection or an empty decision
    /// finishes; otherwise the events wait to be appended at `Exact(version)`.
    fn decide(state: A, stream_version: u64, attempt: u32, cmd: &A::Command) -> (r: (Self, ExecStep<A>))
        requires
            attempt < MAX_RETRIES,
        ensures
            r.0.wf(),
            r.0.state == state,
            r.0.stream_version == stream_version,
            r.0.attempt == attempt,
            decision(r, state, stream_version, *cmd),
    {
        match state.handle(cmd) {
            Err(e) => {
                let exec = CommandExecution { state, stream_version, attempt, phase: ExecPhase::Finished, pending: Vec::new() };
                (exec, ExecStep::Done(Err(ExecuteError::Domain(e))))
            },
            Ok(events) => {
                if events.len() == 0 {
                    let exec = CommandExecution { state, stream_version, attempt, phase: ExecPhase::Finished, pending: Vec::new() };
                    (exec, ExecStep::Done(Ok(events)))
                } else {
                    let exec = CommandExecution { state, stream_version, attempt, phase: ExecPhase::AwaitingAppend, pending: events };
                    (exec, ExecStep::Append(ExpectedVersionArg::Exact(stream_version)))
                }
            },
        }
    }

    /// Start executing a command against a state at a stream version.
    pub fn start(state: A, stream_version: u64, cmd: &A::Command) -> (r: (Self, ExecStep<A>))
        ensures
            r.0.wf(),
            r.0.state == state,
            r.0.stream_version == stream_version,
            r.0.attempt == 0,
            decision(r, state, stream_version, *cmd),
    {
        Self::decide(state, stream_version, 0, cmd)
    }

    /// The pending events could not be encoded: the execution fails with the
    /// encoding error.
    pub fn on_encode_failed(self, error: std::io::Error) -> (r: (Self, ExecStep<A>))
        requires
            self.wf(),
            self.phase == ExecPhase::AwaitingAppend,
        ensures
            r.0.wf(),
            r.0.phase == ExecPhase::Finished,
            r.0.state == self.state,
            r.0.stream_version == self.stream_version,
            (r.1 matches ExecStep::Done(Err(ExecuteError::Io(x))) && x == error),
    {
        let exec = CommandExecution {
            state: self.state,
            stream_version: self.stream_version,
            attempt: self.attempt,
            phase: ExecPhase::Finished,
            pending: Vec::new(),
        };
        (exec, ExecStep::Done(Err(ExecuteError::Io(error))))
    }

    /// The append was answered. On success the pending events are folded into
    /// the state, the version becomes the last one assigned, and the events
    /// are the result. A version conflict (`FAILED_PRECONDITION`) asks for a
    /// re-read from the next version; any other failure ends the execution.
    pub fn on_append(self, result: Result<AppendResponse, tonic::Status>) -> (r: (Self, ExecStep<A>))
        requires
            self.wf(),
            self.phase == ExecPhase::AwaitingAppend,
            result matches Err(s) && status::grpc_code(s) == status::CODE_FAILED_PRECONDITION
                ==> self.stream_version < u64::MAX,
        ensures
            r.0.wf(),
            r.0.attempt == self.attempt,
            match result {
                Ok(resp) => {
                    &&& r.0.phase == ExecPhase::Finished
                    &&& evolves_all(self.state, self.pending@, r.0.state)
                    &&& r.0.stream_version == resp.last_stream_version
                    &&& (r.1 matches ExecStep::Done(Ok(v)) && v@ == self.pending@)
                },
                Err(s) => if status::grpc_code(s) == status::CODE_FAILED_PRECONDITION {
                    &&& r.0.phase == ExecPhase::AwaitingRead
                    &&& r.0.state == self.state
                    &&& r.0.stream_version == self.stream_version
                    &&& (r.1 matches ExecStep::ReadStream(from) && from == self.stream_version + 1)
                } else {
                    &&& r.0.phase == ExecPhase::Finished
                    &&& r.0.state == self.state
                    &&& r.0.stream_version == self.stream_version
                    &&& (r.1 matches ExecStep::Done(Err(ExecuteError::Transport(x))) && x == s)
                },
            },
    {
        let CommandExecution { state, stream_version, attempt, phase: _, pending } = self;
        match result {
            Ok(resp) => {
                let state = apply_all(state, &pending);
                let exec = CommandExecution {
                    state,
                    stream_version: resp.last_stream_version,
                    attempt,
                    phase: ExecPhase::Finished,
                    pending: Vec::new(),
                };
                (exec, ExecStep::Done(Ok(pending)))
            },
            Err(s) => {
                if status::code_of(&s) == status::CODE_FAILED_PRECONDITION {
                    let from = stream_version + 1;
                    let exec = CommandExecution { state, stream_version, attempt, phase: ExecPhase::AwaitingRead, pending: Vec::new() };
                    (exec, ExecStep::ReadStream(from))
                } else {
                    let exec = CommandExecution { state, stream_version, attempt, phase: ExecPhase::Finished, pending: Vec::new() };
                    (exec, ExecStep::Done(Err(ExecuteError::Transport(s))))
                }
            },
        }
    }

    /// The re-read after a conflict was answered. The events read are folded
    /// in and the attempt is counted; with attempts left the command is
    /// decided again against the new state, otherwise the execution fails
    /// with `WrongExpectedVersion`. A failed read ends the execution.
    pub fn on_read(
        self,
        cmd: &A::Command,
        result: Result<Vec<RecordedDomainEvent<A::DomainEvent>>, tonic::Status>,
    ) -> (r: (Self, ExecStep<A>))
        requires
            self.wf(),
            self.phase == ExecPhase::AwaitingRead,
        ensures
            r.0.wf(),
            match result {
                Err(s) => {
                    &&& r.0.phase == ExecPhase::Finished
                    &&& r.0.state == self.state
                    &&& r.0.stream_version == self.stream_version
                    &&& (r.1 matches ExecStep::Done(Err(ExecuteError::Transport(x))) && x == s)
                },
                Ok(events) => {
                    &&& evolves_all(self.state, decoded_events(events@), r.0.state)
                    &&& r.0.stream_version == caught_up_version(self.stream_version, events@)
                    &&& r.0.attempt == self.attempt + 1
                    &&& if self.attempt + 1 >= MAX_RETRIES {
                        r.0.phase == ExecPhase::Finished && (r.1 matches ExecStep::Done(Err(ExecuteError::WrongExpectedVersion)))
                    } else {
                        decision(r, r.0.state, r.0.stream_version, *cmd)
                    }
                },
            },
    {
        let CommandExecution { state, stream_version, attempt, phase: _, pending: _ } = self;
        match result {
            Err(s) => {
                let exec = CommandExecution { state, stream_version, attempt, phase: ExecPhase::Finished, pending: Vec::new() };
                (exec, ExecStep::Done(Err(ExecuteError::Transport(s))))
            },
            Ok(events) => {
                let (state, stream_version) = fold_recorded(state, stream_version, &events);
                let attempt = attempt + 1;
                if attempt >= MAX_RETRIES {
                    let exec = CommandExecution { state, stream_version, attempt, phase: ExecPhase::Finished, pending: Vec::new() };
                    (exec, ExecStep::Done(Err(ExecuteError::WrongExpectedVersion)))
                } else {
                    Self::decide(state, stream_version, attempt, cmd)
                }
            },
        }
    }
}

} // verus!
