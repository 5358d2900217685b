//! Cross-aggregate workflows (process managers) over the global event log.
//!
//! A process manager reacts to events by producing command envelopes. It
//! keeps a cursor like a projection, but consuming a subscription does not
//! persist anything: the caller dispatches the envelopes first and saves the
//! checkpoint afterwards, so that a crash mid-dispatch replays the events.

use vstd::prelude::*;
use crate::command::CommandEnvelope;
use crate::event::{self, StoredEvent, StoredEventView};
use crate::proto::{RecordedEvent, SubscribeResponse};
use crate::proto::subscribe_response::Content;
use crate::status;

verus! {

/// A workflow coordinator that reacts to events from the global log by
/// producing command envelopes.
///
/// `react` must be deterministic: given the same sequence of events it must
/// produce the same envelopes. The library states its own behaviour in
/// terms of the results `react` returns (`reacts`).
pub trait ProcessManager: Sized {
    /// Human-readable name, used as the checkpoint directory name.
    const NAME: &'static str;

    /// React to a single event from the global log, returning the new state
    /// and the envelopes to dispatch (none if the event is irrelevant).
    fn react(self, event: &StoredEvent) -> (Self, Vec<CommandEnvelope>);
}

/// `next` and `envelopes` are what `react` returns for `state` and an event
/// whose content is `event`.
pub open spec fn reacts<PM: ProcessManager>(
    state: PM,
    event: StoredEventView,
    next: PM,
    envelopes: Seq<CommandEnvelope>,
) -> bool {
    exists|ev: StoredEvent, out: (PM, Vec<CommandEnvelope>)|
        ev@ == event && out.0 == next && out.1@ == envelopes && #[trigger] call_ensures(PM::react, (state, &ev), out)
}

/// Persisted state of a process manager and its resume token.
#[derive(Debug, Clone)]
pub struct ProcessManagerCheckpoint<PM> {
    /// The process manager's current state.
    pub state: PM,
    /// The next global position to read; 0 means nothing was read yet.
    pub last_global_position: u64,
}

impl<PM: Default> Default for ProcessManagerCheckpoint<PM> {
    /// The default state at position 0.
    fn default() -> (r: Self)
        ensures
            r.last_global_position == 0,
            call_ensures(PM::default, (), r.state),
    {
        ProcessManagerCheckpoint { state: PM::default(), last_global_position: 0 }
    }
}

/// The cursor and failure flag after consuming subscription items: every
/// event moves the cursor just past it (decodable or not, and unlike a
/// projection's cursor even below the current one); stop at the caught-up
/// sentinel or the end, or with failure at a stream error.
pub open spec fn cursor_after(position: u64, items: Seq<Result<SubscribeResponse, tonic::Status>>) -> (u64, bool)
    decreases items.len(),
{
    if items.len() == 0 {
        (position, false)
    } else {
        match items[0] {
            Err(_) => (position, true),
            Ok(resp) => match resp.content {
                Some(Content::CaughtUp(_)) => (position, false),
                None => cursor_after(position, items.drop_first()),
                Some(Content::Event(r)) => cursor_after((r.global_position + 1) as u64, items.drop_first()),
            },
        }
    }
}

/// `result` and `envelopes` are the state and the envelopes, in order,
/// after consuming subscription items: each decodable event reached is
/// reacted to, others are skipped.
pub open spec fn reacts_into<PM: ProcessManager>(
    state: PM,
    items: Seq<Result<SubscribeResponse, tonic::Status>>,
    result: PM,
    envelopes: Seq<CommandEnvelope>,
) -> bool
    decreases items.len(),
{
    if items.len() == 0 {
        result == state && envelopes.len() == 0
    } else {
        match items[0] {
            Err(_) => result == state && envelopes.len() == 0,
            Ok(resp) => match resp.content {
                Some(Content::CaughtUp(_)) => result == state && envelopes.len() == 0,
                None => reacts_into(state, items.drop_first(), result, envelopes),
                Some(Content::Event(r)) => match event::decode_view(r) {
                    None => reacts_into(state, items.drop_first(), result, envelopes),
                    Some(e) => exists|mid: PM, first: Seq<CommandEnvelope>|
                        #[trigger] reacts(state, e, mid, first) && first.len() <= envelopes.len()
                            && envelopes.take(first.len() as int) == first && reacts_into(
                            mid,
                            items.drop_first(),
                            result,
                            envelopes.skip(first.len() as int),
                        ),
                },
            },
        }
    }
}

/// Law: the envelopes of a pass begin with the whole reaction to its first
/// event, when that event decodes: every envelope that `react` returned for
/// it, in its order, followed by the envelopes of the rest of the pass.
pub proof fn lemma_reaction_kept_whole<PM: ProcessManager>(
    state: PM,
    recorded: RecordedEvent,
    rest: Seq<Result<SubscribeResponse, tonic::Status>>,
    result: PM,
    envelopes: Seq<CommandEnvelope>,
)
    requires
        event::decode_view(recorded) is Some,
        reacts_into(
            state,
            seq![Ok(SubscribeResponse { content: Some(Content::Event(recorded)) })] + rest,
            result,
            envelopes,
        ),
    ensures
        exists|mid: PM, first: Seq<CommandEnvelope>|
            #[trigger] reacts(state, event::decode_view(recorded)->0, mid, first) && envelopes == first
                + envelopes.skip(first.len() as int) && reacts_into(
                mid,
                rest,
                result,
                envelopes.skip(first.len() as int),
            ),
{
    let items = seq![Ok(SubscribeResponse { content: Some(Content::Event(recorded)) })] + rest;
    assert(items.drop_first() =~= rest);
    let e = event::decode_view(recorded)->0;
    let (mid, first) = choose|mid: PM, first: Seq<CommandEnvelope>|
        #[trigger] reacts(state, e, mid, first) && first.len() <= envelopes.len() && envelopes.take(first.len() as int)
            == first && reacts_into(mid, items.drop_first(), result, envelopes.skip(first.len() as int));
    assert(envelopes =~= first + envelopes.skip(first.len() as int));
}

/// Law: a pass over one event that decodes, then the caught-up marker,
/// returns exactly the state and every envelope of that one reaction.
pub proof fn lemma_single_reaction<PM: ProcessManager>(
    state: PM,
    recorded: RecordedEvent,
    rest: Seq<Result<SubscribeResponse, tonic::Status>>,
    result: PM,
    envelopes: Seq<CommandEnvelope>,
)
    requires
        event::decode_view(recorded) is Some,
        reacts_into(
            state,
            seq![
                Ok(SubscribeResponse { content: Some(Content::Event(recorded)) }),
                Ok(SubscribeResponse { content: Some(Content::CaughtUp(crate::proto::Empty {})) }),
            ] + rest,
            result,
            envelopes,
        ),
    ensures
        reacts(state, event::decode_view(recorded)->0, result, envelopes),
{
    let marker = Ok::<SubscribeResponse, tonic::Status>(
        SubscribeResponse { content: Some(Content::CaughtUp(crate::proto::Empty {})) },
    );
    let tail = seq![marker] + rest;
    let items = seq![
        Ok(SubscribeResponse { content: Some(Content::Event(recorded)) }),
        Ok(SubscribeResponse { content: Some(Content::CaughtUp(crate::proto::Empty {})) }),
    ] + rest;
    assert(items =~= seq![Ok(SubscribeResponse { content: Some(Content::Event(recorded)) })] + tail);
    lemma_reaction_kept_whole(state, recorded, tail, result, envelopes);
    let e = event::decode_view(recorded)->0;
    let (mid, first) = choose|mid: PM, first: Seq<CommandEnvelope>|
        #[trigger] reacts(state, e, mid, first) && envelopes == first + envelopes.skip(first.len() as int)
            && reacts_into(mid, tail, result, envelopes.skip(first.len() as int));
    assert(tail[0] == marker);
    assert(result == mid);
    assert(envelopes.skip(first.len() as int).len() == 0);
    assert(envelopes =~= first);
}

/// `result` is the state after consuming subscription items, whatever
/// envelopes were produced on the way.
pub open spec fn reaches_state<PM: ProcessManager>(
    state: PM,
    items: Seq<Result<SubscribeResponse, tonic::Status>>,
    result: PM,
) -> bool {
    exists|envelopes: Seq<CommandEnvelope>| #[trigger] reacts_into(state, items, result, envelopes)
}

/// Consume the items of a subscription, updating the checkpoint and
/// returning the envelopes to dispatch: the cursor and outcome are those of
/// `cursor_after`, the state and envelopes as `reacts_into` says. A stream
/// error is returned as an I/O error; the checkpoint keeps what was reached
/// before it. The checkpoint is not saved here.
pub fn process_stream<PM: ProcessManager>(
    checkpoint: ProcessManagerCheckpoint<PM>,
    items: &Vec<Result<SubscribeResponse, tonic::Status>>,
) -> (r: (ProcessManagerCheckpoint<PM>, Result<Vec<CommandEnvelope>, std::io::Error>))
    requires
        crate::projection::positions_fit(items@),
    ensures
        (r.0.last_global_position, r.1.is_err()) == cursor_after(checkpoint.last_global_position, items@),
        r.1 matches Err(e) ==> (crate::projection::first_failure(items@) matches Some(s) && status::is_stream_error(s, e)),
        r.1 matches Ok(v) ==> reacts_into(checkpoint.state, items@, r.0.state, v@),
        r.1.is_err() ==> reaches_state(checkpoint.state, items@, r.0.state),
{
    let ghost s0 = checkpoint.state;
    let ghost p0 = checkpoint.last_global_position;
    let ProcessManagerCheckpoint { state, last_global_position } = checkpoint;
    let mut state = state;
    let mut position = last_global_position;
    let mut envelopes: Vec<CommandEnvelope> = Vec::new();
    let mut i: usize = 0;
    assert(items@.skip(0) =~= items@);
    assert forall|res: PM, more: Seq<CommandEnvelope>| reacts_into(state, items@.skip(0), res, more) implies reacts_into(
        s0,
        items@,
        res,
        envelopes@ + more,
    ) by {
        assert(envelopes@ + more =~= more);
    }
    while i < items.len()
        invariant
            i <= items.len(),
            crate::projection::positions_fit(items@),
            s0 == checkpoint.state,
            p0 == checkpoint.last_global_position,
            cursor_after(position, items@.skip(i as int)) == cursor_after(p0, items@),
            crate::projection::first_failure(items@.skip(i as int)) == crate::projection::first_failure(items@),
            forall|res: PM, more: Seq<CommandEnvelope>|
                reacts_into(state, items@.skip(i as int), res, more) ==> reacts_into(s0, items@, res, envelopes@ + more),
        decreases items.len() - i,
    {
        let ghost rest = items@.skip(i as int);
        assert(rest.drop_first() =~= items@.skip(i + 1));
        assert(rest.len() > 0 && rest[0] == items@[i as int]);
        match &items[i] {
            Err(s) => {
                assert(reacts_into(state, rest, state, Seq::empty()));
                assert(envelopes@ + Seq::<CommandEnvelope>::empty() =~= envelopes@);
                assert(reacts_into(s0, items@, state, envelopes@));
                assert(reaches_state(s0, items@, state));
                return (ProcessManagerCheckpoint { state, last_global_position: position }, Err(status::stream_error(s)));
            },
            Ok(resp) => match &resp.content {
                Some(Content::CaughtUp(_)) => {
                    assert(reacts_into(state, rest, state, Seq::empty()));
                    assert(envelopes@ + Seq::<CommandEnvelope>::empty() =~= envelopes@);
                    return (ProcessManagerCheckpoint { state, last_global_position: position }, Ok(envelopes));
                },
                None => {
                    assert forall|res: PM, more: Seq<CommandEnvelope>| reacts_into(
                        state,
                        items@.skip(i + 1),
                        res,
                        more,
                    ) implies reacts_into(s0, items@, res, envelopes@ + more) by {
                        assert(reacts_into(state, rest, res, more));
                    }
                },
                Some(Content::Event(recorded)) => {
                    assert(match items@[i as int] {
                        Ok(resp) => match resp.content {
                            Some(Content::Event(r)) => r.global_position < u64::MAX,
                            _ => true,
                        },
                        Err(_) => true,
                    });
                    let next_position = recorded.global_position + 1;
                    match event::decode_stored_event(recorded) {
                        Some(stored) => {
                            let ghost before = state;
                            let ghost before_envs = envelopes@;
                            let out = state.react(&stored);
                            let (next, mut produced) = out;
                            let ghost first = produced@;
                            assert(reacts(before, stored@, next, first));
                            envelopes.append(&mut produced);
                            assert forall|res: PM, more: Seq<CommandEnvelope>| reacts_into(
                                next,
                                items@.skip(i + 1),
                                res,
                                more,
                            ) implies reacts_into(s0, items@, res, envelopes@ + more) by {
                                let all = first + more;
                                assert(all.take(first.len() as int) =~= first);
                                assert(all.skip(first.len() as int) =~= more);
                                assert(reacts_into(before, rest, res, all));
                                assert(before_envs + all =~= envelopes@ + more);
                            }
                            state = next;
                        },
                        None => {
                            assert forall|res: PM, more: Seq<CommandEnvelope>| reacts_into(
                                state,
                                items@.skip(i + 1),
                                res,
                                more,
                            ) implies reacts_into(s0, items@, res, envelopes@ + more) by {
                                assert(reacts_into(state, rest, res, more));
                            }
                        },
                    }
                    position = next_position;
                },
            },
        }
        i = i + 1;
    }
    assert(items@.skip(i as int) =~= Seq::<Result<SubscribeResponse, tonic::Status>>::empty());
    assert(reacts_into(state, items@.skip(i as int), state, Seq::empty()));
    assert(envelopes@ + Seq::<CommandEnvelope>::empty() =~= envelopes@);
    (ProcessManagerCheckpoint { state, last_global_position: position }, Ok(envelopes))
}

/// Summary of a pass that dispatches process manager envelopes.
#[derive(Debug, Clone)]
pub struct ProcessManagerReport {
    /// Number of command envelopes successfully dispatched.
    pub dispatched: usize,
    /// Number of command envelopes written to dead-letter logs.
    pub dead_lettered: usize,
}

impl Default for ProcessManagerReport {
    /// A report with nothing counted.
    fn default() -> (r: Self)
        ensures
            r.dispatched == 0,
            r.dead_lettered == 0,
    {
        ProcessManagerReport { dispatched: 0, dead_lettered: 0 }
    }
}

} // verus!
