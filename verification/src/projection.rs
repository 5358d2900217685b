//! Cross-stream projections (read models) over the global event log.
//!
//! A projection keeps one cursor, the next global position to read. Events
//! below the cursor are skipped, so events delivered again (when several
//! projections share one subscription) are not applied twice.

use vstd::prelude::*;
use crate::event::{self, StoredEvent, StoredEventView};
use crate::proto::{RecordedEvent, SubscribeResponse};
use crate::proto::subscribe_response::Content;
use crate::status;

verus! {

/// A cross-stream read model built from the events of the global log.
///
/// `apply` must be deterministic: given the same sequence of events it must
/// produce the same state. The library states its own behaviour in terms of
/// the results `apply` returns (`applies`).
pub trait Projection: Sized {
    /// Human-readable name, used as the checkpoint directory name.
    const NAME: &'static str;

    /// Apply a single event from the global log, returning the new state.
    fn apply(self, event: &StoredEvent) -> Self;
}

/// `next` is a state that `apply` returns for `state` and an event whose
/// content is `event`.
pub open spec fn applies<P: Projection>(state: P, event: StoredEventView, next: P) -> bool {
    exists|ev: StoredEvent| ev@ == event && #[trigger] call_ensures(P::apply, (state, &ev), next)
}

/// Persisted state of a projection and its resume token.
#[derive(Debug, Clone)]
pub struct ProjectionCheckpoint<P> {
    /// The projection's current state.
    pub state: P,
    /// The next global position to read; 0 means nothing was read yet.
    pub last_global_position: u64,
}

impl<P: Default> Default for ProjectionCheckpoint<P> {
    /// The default state at position 0.
    fn default() -> (r: Self)
        ensures
            r.last_global_position == 0,
            call_ensures(P::default, (), r.state),
    {
        ProjectionCheckpoint { state: P::default(), last_global_position: 0 }
    }
}

/// The cursor after one recorded event: unchanged for an event below it,
/// otherwise just past the event.
pub open spec fn cursor_after_event(position: u64, recorded: RecordedEvent) -> u64 {
    if recorded.global_position < position {
        position
    } else {
        (recorded.global_position + 1) as u64
    }
}

/// Whether one recorded event is applied: it is at or above the cursor and
/// decodes; then its decoded content is what is applied.
pub open spec fn applied_event(position: u64, recorded: RecordedEvent) -> Option<StoredEventView> {
    if recorded.global_position < position {
        None
    } else {
        event::decode_view(recorded)
    }
}

/// `next` is the projection state after one recorded event.
pub open spec fn steps_to<P: Projection>(state: P, position: u64, recorded: RecordedEvent, next: P) -> bool {
    match applied_event(position, recorded) {
        Some(e) => applies(state, e, next),
        None => next == state,
    }
}

/// Decode one recorded event and apply it to a projection's state: an event
/// below the cursor is skipped; otherwise a decodable event is applied, and
/// the cursor moves past the event either way. Returns the state and cursor.
pub fn apply_recorded_event<P: Projection>(state: P, last_global_position: u64, recorded: &RecordedEvent) -> (r: (P, u64))
    requires
        last_global_position <= recorded.global_position ==> recorded.global_position < u64::MAX,
    ensures
        steps_to(state, last_global_position, *recorded, r.0),
        r.1 == cursor_after_event(last_global_position, *recorded),
        last_global_position <= recorded.global_position && event::decode_view(*recorded) is Some ==> applies(
            state,
            event::decode_view(*recorded)->0,
            r.0,
        ),
        recorded.global_position < last_global_position ==> r.0 == state && r.1 == last_global_position,
        last_global_position <= recorded.global_position ==> r.1 == recorded.global_position + 1,
{
    if recorded.global_position < last_global_position {
        return (state, last_global_position);
    }
    let next_position = recorded.global_position + 1;
    match event::decode_stored_event(recorded) {
        Some(stored) => {
            let next = state.apply(&stored);
            assert(applies(state, stored@, next));
            (next, next_position)
        },
        None => (state, next_position),
    }
}

/// Law: one step of a catch-up hands every event at or past the cursor
/// that decodes to the projection's `apply`, whatever its payload, and
/// leaves the state alone for an event below the cursor or one that does
/// not decode; the cursor then stands just past an event at or past it and
/// stays where it was for one below it.
pub proof fn lemma_decodable_event_is_applied<P: Projection>(
    state: P,
    position: u64,
    recorded: RecordedEvent,
    next: P,
)
    requires
        steps_to(state, position, recorded, next),
    ensures
        position <= recorded.global_position && event::decode_view(recorded) is Some ==> applies(
            state,
            event::decode_view(recorded)->0,
            next,
        ),
        recorded.global_position < position || event::decode_view(recorded) is None ==> next == state,
        position <= recorded.global_position < u64::MAX ==> cursor_after_event(position, recorded) == recorded.global_position + 1,
        recorded.global_position < position ==> cursor_after_event(position, recorded) == position,
{
}

/// Law: catching up on one event at or past the cursor that decodes, then
/// the caught-up marker, applies exactly that event, whatever comes after
/// the marker.
pub proof fn lemma_single_event_catch_up<P: Projection>(
    state: P,
    position: u64,
    recorded: RecordedEvent,
    rest: Seq<Result<SubscribeResponse, tonic::Status>>,
    result: P,
)
    requires
        position <= recorded.global_position,
        event::decode_view(recorded) is Some,
        folds_into(
            state,
            position,
            seq![
                Ok(SubscribeResponse { content: Some(Content::Event(recorded)) }),
                Ok(SubscribeResponse { content: Some(Content::CaughtUp(crate::proto::Empty {})) }),
            ] + rest,
            result,
        ),
    ensures
        applies(state, event::decode_view(recorded)->0, result),
{
    let items = seq![
        Ok(SubscribeResponse { content: Some(Content::Event(recorded)) }),
        Ok(SubscribeResponse { content: Some(Content::CaughtUp(crate::proto::Empty {})) }),
    ] + rest;
    let after = items.drop_first();
    assert(after[0] == Ok::<SubscribeResponse, tonic::Status>(
        SubscribeResponse { content: Some(Content::CaughtUp(crate::proto::Empty {})) },
    ));
    let mid = choose|mid: P|
        #[trigger] steps_to(state, position, recorded, mid) && folds_into(
            mid,
            cursor_after_event(position, recorded),
            after,
            result,
        );
    assert(folds_into(mid, cursor_after_event(position, recorded), after, result));
    assert(result == mid);
}

/// Every event among `items` lies below the largest position (so moving
/// past it cannot overflow).
pub open spec fn positions_fit(items: Seq<Result<SubscribeResponse, tonic::Status>>) -> bool {
    forall|i: int|
        0 <= i < items.len() ==> match #[trigger] items[i] {
            Ok(resp) => match resp.content {
                Some(Content::Event(r)) => r.global_position < u64::MAX,
                _ => true,
            },
            Err(_) => true,
        }
}

/// The cursor and failure flag after consuming subscription items in order:
/// stop at the caught-up sentinel or at the end; stop with failure at a
/// stream error; skip items without content.
pub open spec fn cursor_after(position: u64, items: Seq<Result<SubscribeResponse, tonic::Status>>) -> (u64, bool)
    decreases items.len(),
{
    if items.len() == 0 {
        (position, false)
    } else {
        match items[0] {
            Err(_) => (position, true),
            Ok(resp) => match resp.content {
                Some(Content::CaughtUp(_)) => (position, false),
                None => cursor_after(position, items.drop_first()),
                Some(Content::Event(r)) => cursor_after(cursor_after_event(position, r), items.drop_first()),
            },
        }
    }
}

/// `result` is the projection state after consuming subscription items
/// (stopping as `cursor_after` does), each reached event being handled as
/// `steps_to` says.
pub open spec fn folds_into<P: Projection>(
    state: P,
    position: u64,
    items: Seq<Result<SubscribeResponse, tonic::Status>>,
    result: P,
) -> bool
    decreases items.len(),
{
    if items.len() == 0 {
        result == state
    } else {
        match items[0] {
            Err(_) => result == state,
            Ok(resp) => match resp.content {
                Some(Content::CaughtUp(_)) => result == state,
                None => folds_into(state, position, items.drop_first(), result),
                Some(Content::Event(r)) => exists|mid: P|
                    #[trigger] steps_to(state, position, r, mid) && folds_into(
                        mid,
                        cursor_after_event(position, r),
                        items.drop_first(),
                        result,
                    ),
            },
        }
    }
}

/// Whether consuming subscription items stops at this item: a stream
/// error or the caught-up sentinel.
pub open spec fn stops_catch_up(item: Result<SubscribeResponse, tonic::Status>) -> bool {
    match item {
        Err(_) => true,
        Ok(resp) => resp.content matches Some(Content::CaughtUp(_)),
    }
}

/// Whether a catch-up ends with this subscription item, so that reading
/// the subscription can stop after it.
pub fn ends_catch_up(item: &Result<SubscribeResponse, tonic::Status>) -> (r: bool)
    ensures
        r == stops_catch_up(*item),
{
    match item {
        Err(_) => true,
        Ok(resp) => match &resp.content {
            Some(Content::CaughtUp(_)) => true,
            _ => false,
        },
    }
}

/// The stream failure at which consuming subscription items stops, if any:
/// the first error met before the caught-up sentinel.
pub open spec fn first_failure(items: Seq<Result<SubscribeResponse, tonic::Status>>) -> Option<tonic::Status>
    decreases items.len(),
{
    if items.len() == 0 {
        None
    } else {
        match items[0] {
            Err(s) => Some(s),
            Ok(resp) => match resp.content {
                Some(Content::CaughtUp(_)) => None,
                _ => first_failure(items.drop_first()),
            },
        }
    }
}

/// Consume the items of a subscription, updating the checkpoint: the cursor
/// and outcome are those of `cursor_after`, the state is as `folds_into`
/// says. A stream error is returned as an I/O error; the checkpoint keeps
/// what was applied before it.
pub fn process_stream<P: Projection>(
    checkpoint: ProjectionCheckpoint<P>,
    items: &Vec<Result<SubscribeResponse, tonic::Status>>,
) -> (r: (ProjectionCheckpoint<P>, Result<(), std::io::Error>))
    requires
        positions_fit(items@),
    ensures
        folds_into(checkpoint.state, checkpoint.last_global_position, items@, r.0.state),
        (r.0.last_global_position, r.1.is_err()) == cursor_after(checkpoint.last_global_position, items@),
        r.1 matches Err(e) ==> (first_failure(items@) matches Some(s) && status::is_stream_error(s, e)),
{
    let ghost s0 = checkpoint.state;
    let ghost p0 = checkpoint.last_global_position;
    let ProjectionCheckpoint { state, last_global_position } = checkpoint;
    let mut state = state;
    let mut position = last_global_position;
    let mut i: usize = 0;
    assert(items@.skip(0) =~= items@);
    while i < items.len()
        invariant
            i <= items.len(),
            positions_fit(items@),
            s0 == checkpoint.state,
            p0 == checkpoint.last_global_position,
            cursor_after(position, items@.skip(i as int)) == cursor_after(p0, items@),
            first_failure(items@.skip(i as int)) == first_failure(items@),
            forall|res: P| folds_into(state, position, items@.skip(i as int), res) ==> folds_into(s0, p0, items@, res),
        decreases items.len() - i,
    {
        let ghost rest = items@.skip(i as int);
        assert(rest.drop_first() =~= items@.skip(i + 1));
        assert(rest.len() > 0 && rest[0] == items@[i as int]);
        match &items[i] {
            Err(s) => {
                assert(folds_into(state, position, rest, state));
                return (ProjectionCheckpoint { state, last_global_position: position }, Err(status::stream_error(s)));
            },
            Ok(resp) => match &resp.content {
                Some(Content::CaughtUp(_)) => {
                    assert(folds_into(state, position, rest, state));
                    return (ProjectionCheckpoint { state, last_global_position: position }, Ok(()));
                },
                None => {},
                Some(Content::Event(recorded)) => {
                    assert(match items@[i as int] {
                        Ok(resp) => match resp.content {
                            Some(Content::Event(r)) => r.global_position < u64::MAX,
                            _ => true,
                        },
                        Err(_) => true,
                    });
                    let ghost before = state;
                    let ghost before_pos = position;
                    let (next, next_pos) = apply_recorded_event(state, position, recorded);
                    assert forall|res: P| folds_into(next, next_pos, items@.skip(i + 1), res) implies folds_into(
                        before,
                        before_pos,
                        rest,
                        res,
                    ) by {
                        assert(steps_to(before, before_pos, *recorded, next));
                    }
                    state = next;
                    position = next_pos;
                },
            },
        }
        i = i + 1;
    }
    assert(items@.skip(i as int) =~= Seq::<Result<SubscribeResponse, tonic::Status>>::empty());
    assert(folds_into(state, position, items@.skip(i as int), state));
    (ProjectionCheckpoint { state, last_global_position: position }, Ok(()))
}

/// Whether consuming `items` from `position` reaches only events below
/// `bound`.
pub open spec fn reached_below(position: u64, items: Seq<Result<SubscribeResponse, tonic::Status>>, bound: u64) -> bool
    decreases items.len(),
{
    if items.len() == 0 {
        true
    } else {
        match items[0] {
            Err(_) => true,
            Ok(resp) => match resp.content {
                Some(Content::CaughtUp(_)) => true,
                None => reached_below(position, items.drop_first(), bound),
                Some(Content::Event(r)) => r.global_position < bound && reached_below(
                    cursor_after_event(position, r),
                    items.drop_first(),
                    bound,
                ),
            },
        }
    }
}

proof fn lemma_fit_rest(items: Seq<Result<SubscribeResponse, tonic::Status>>)
    requires
        items.len() > 0,
        positions_fit(items),
    ensures
        positions_fit(items.drop_first()),
{
    assert forall|i: int| 0 <= i < items.drop_first().len() implies match #[trigger] items.drop_first()[i] {
        Ok(resp) => match resp.content {
            Some(Content::Event(r)) => r.global_position < u64::MAX,
            _ => true,
        },
        Err(_) => true,
    } by {
        assert(items.drop_first()[i] == items[i + 1]);
    }
}

/// Consuming items never moves the cursor back and leaves it above every
/// event reached.
proof fn lemma_cursor_facts(position: u64, items: Seq<Result<SubscribeResponse, tonic::Status>>)
    requires
        positions_fit(items),
    ensures
        cursor_after(position, items).0 >= position,
        reached_below(position, items, cursor_after(position, items).0),
    decreases items.len(),
{
    if items.len() > 0 {
        lemma_fit_rest(items);
        assert(match items[0] {
            Ok(resp) => match resp.content {
                Some(Content::Event(r)) => r.global_position < u64::MAX,
                _ => true,
            },
            Err(_) => true,
        });
        match items[0] {
            Err(_) => {},
            Ok(resp) => match resp.content {
                Some(Content::CaughtUp(_)) => {},
                None => {
                    lemma_cursor_facts(position, items.drop_first());
                },
                Some(Content::Event(r)) => {
                    lemma_cursor_facts(cursor_after_event(position, r), items.drop_first());
                    lemma_reached_below_shift(position, cursor_after_event(position, r), items.drop_first(), cursor_after(position, items).0);
                },
            },
        }
    }
}

/// `reached_below` does not depend on the starting cursor.
proof fn lemma_reached_below_shift(
    p: u64,
    q: u64,
    items: Seq<Result<SubscribeResponse, tonic::Status>>,
    bound: u64,
)
    requires
        reached_below(q, items, bound),
    ensures
        reached_below(p, items, bound),
    decreases items.len(),
{
    if items.len() > 0 {
        match items[0] {
            Err(_) => {},
            Ok(resp) => match resp.content {
                Some(Content::CaughtUp(_)) => {},
                None => {
                    lemma_reached_below_shift(p, q, items.drop_first(), bound);
                },
                Some(Content::Event(r)) => {
                    lemma_reached_below_shift(cursor_after_event(p, r), cursor_after_event(q, r), items.drop_first(), bound);
                },
            },
        }
    }
}

/// With every reached event below the cursor, consuming the items leaves
/// the cursor, and any resulting state equals the starting one.
proof fn lemma_all_skipped<P: Projection>(state: P, position: u64, items: Seq<Result<SubscribeResponse, tonic::Status>>, result: P)
    requires
        reached_below(position, items, position),
    ensures
        cursor_after(position, items).0 == position,
        folds_into(state, position, items, result) ==> result == state,
        folds_into(state, position, items, state),
    decreases items.len(),
{
    if items.len() > 0 {
        match items[0] {
            Err(_) => {},
            Ok(resp) => match resp.content {
                Some(Content::CaughtUp(_)) => {},
                None => {
                    lemma_all_skipped(state, position, items.drop_first(), result);
                },
                Some(Content::Event(r)) => {
                    lemma_all_skipped(state, position, items.drop_first(), result);
                    assert(steps_to(state, position, r, state));
                    if folds_into(state, position, items, result) {
                        let mid = choose|mid: P|
                            #[trigger] steps_to(state, position, r, mid) && folds_into(
                                mid,
                                cursor_after_event(position, r),
                                items.drop_first(),
                                result,
                            );
                        assert(mid == state);
                    }
                },
            },
        }
    }
}

/// Law: the cursor never moves back while consuming subscription items.
pub proof fn lemma_cursor_monotone(position: u64, items: Seq<Result<SubscribeResponse, tonic::Status>>)
    requires
        positions_fit(items),
    ensures
        cursor_after(position, items).0 >= position,
{
    lemma_cursor_facts(position, items);
}

/// Law: delivering the same subscription items again, to the checkpoint
/// that consuming them produced, applies no event: the state and the cursor
/// stay as they are, and the pass ends the same way.
pub proof fn lemma_replay_is_noop<P: Projection>(
    state: P,
    position: u64,
    items: Seq<Result<SubscribeResponse, tonic::Status>>,
    once: P,
    twice: P,
)
    requires
        positions_fit(items),
        folds_into(state, position, items, once),
        folds_into(once, cursor_after(position, items).0, items, twice),
    ensures
        twice == once,
        cursor_after(cursor_after(position, items).0, items) == cursor_after(position, items),
{
    lemma_cursor_facts(position, items);
    let p1 = cursor_after(position, items).0;
    lemma_reached_below_shift(p1, position, items, p1);
    lemma_all_skipped(once, p1, items, twice);
    lemma_stream_outcome(position, p1, items);
}

/// Whether consuming items fails does not depend on the cursor.
proof fn lemma_stream_outcome(p: u64, q: u64, items: Seq<Result<SubscribeResponse, tonic::Status>>)
    ensures
        cursor_after(p, items).1 == cursor_after(q, items).1,
    decreases items.len(),
{
    if items.len() > 0 {
        match items[0] {
            Err(_) => {},
            Ok(resp) => match resp.content {
                Some(Content::CaughtUp(_)) => {},
                None => {
                    lemma_stream_outcome(p, q, items.drop_first());
                },
                Some(Content::Event(r)) => {
                    lemma_stream_outcome(cursor_after_event(p, r), cursor_after_event(q, r), items.drop_first());
                },
            },
        }
    }
}

} // verus!
