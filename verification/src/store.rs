//! Decisions of the aggregate store: routing process manager envelopes to
//! registered aggregate types, tallying the outcome, and injection options.

use vstd::prelude::*;
use crate::command::CommandEnvelope;
use crate::process_manager::ProcessManagerReport;

verus! {

/// Options controlling an event injection.
#[derive(Debug, Clone)]
pub struct InjectOptions {
    /// When `true`, run the process managers after appending the event.
    pub run_process_managers: bool,
}

impl Default for InjectOptions {
    /// Process managers are not run after injection by default.
    fn default() -> (r: Self)
        ensures
            !r.run_process_managers,
    {
        InjectOptions { run_process_managers: false }
    }
}

/// The endpoint a store connects to: the configured one, or
/// `http://127.0.0.1:2113` when none was set.
pub fn resolve_endpoint(configured: &Option<String>) -> (r: String)
    ensures
        configured matches Some(e) ==> r@ == e@,
        configured is None ==> r@ == "http://127.0.0.1:2113"@,
{
    match configured {
        Some(e) => e.clone(),
        None => String::from_str("http://127.0.0.1:2113"),
    }
}

/// The dispatcher of envelopes for one aggregate type `A`: it deserializes
/// the JSON command into `A`'s command type and executes it.
pub struct TypedDispatcher<A> {
    _marker: std::marker::PhantomData<A>,
}

impl<A> TypedDispatcher<A> {
    /// Create a new typed dispatcher.
    pub fn new() -> (r: Self) {
        TypedDispatcher { _marker: std::marker::PhantomData }
    }
}

/// The aggregate types that envelopes can be dispatched to, each once, in
/// the order they were first registered.
#[derive(Debug, Clone)]
pub struct DispatchTable {
    names: Vec<String>,
}

/// The names in `names` are pairwise distinct.
pub open spec fn distinct_names(names: Seq<Seq<char>>) -> bool {
    forall|i: int, j: int| 0 <= i < j < names.len() ==> names[i] != names[j]
}

/// Where an envelope goes.
#[derive(Debug, Clone, PartialEq, Eq)]
pub enum Route {
    /// To the dispatcher registered in this slot.
    Dispatch(usize),
    /// To the dead-letter log, with this error message.
    DeadLetter(String),
}

/// The dead-letter message for an envelope whose aggregate type has no
/// dispatcher.
pub open spec fn unknown_type_message(aggregate_type: Seq<char>) -> Seq<char> {
    "unknown aggregate type: "@ + aggregate_type
}

impl View for DispatchTable {
    type V = Seq<Seq<char>>;

    closed spec fn view(&self) -> Seq<Seq<char>> {
        self.names@.map_values(|s: String| s@)
    }
}

impl DispatchTable {
    /// Table invariant: each aggregate type appears once.
    pub closed spec fn wf(&self) -> bool {
        distinct_names(self@)
    }

    /// A table with no aggregate type.
    pub fn new() -> (r: Self)
        ensures
            r.wf(),
            r@ == Seq::<Seq<char>>::empty(),
    {
        let r = DispatchTable { names: Vec::new() };
        assert(r@ =~= Seq::<Seq<char>>::empty());
        r
    }

    /// The slot of an aggregate type, if it is registered.
    pub fn slot_of(&self, aggregate_type: &str) -> (r: Option<usize>)
        requires
            self.wf(),
        ensures
            match r {
                Some(i) => i < self@.len() && self@[i as int] == aggregate_type@,
                None => !self@.contains(aggregate_type@),
            },
    {
        let wanted = String::from_str(aggregate_type);
        let mut i: usize = 0;
        while i < self.names.len()
            invariant
                i <= self.names.len(),
                self@.len() == self.names.len(),
                wanted@ == aggregate_type@,
                forall|j: int| 0 <= j < i ==> self@[j] != aggregate_type@,
            decreases self.names.len() - i,
        {
            assert(self@[i as int] == self.names@[i as int]@);
            if self.names[i] == wanted {
                return Some(i);
            }
            i = i + 1;
        }
        assert forall|j: int| 0 <= j < self@.len() implies self@[j] != aggregate_type@ by {}
        None
    }

    /// Register an aggregate type. A type registered again keeps its slot,
    /// so the later registration replaces the earlier one there; a new type
    /// gets the next slot. Returns the slot.
    pub fn register(&mut self, aggregate_type: &str) -> (slot: usize)
        requires
            old(self).wf(),
        ensures
            final(self).wf(),
            slot < final(self)@.len(),
            final(self)@[slot as int] == aggregate_type@,
            old(self)@.contains(aggregate_type@) ==> final(self)@ == old(self)@,
            !old(self)@.contains(aggregate_type@) ==> final(self)@ == old(self)@.push(aggregate_type@),
    {
        match self.slot_of(aggregate_type) {
            Some(i) => i,
            None => {
                let slot = self.names.len();
                self.names.push(String::from_str(aggregate_type));
                assert(self@ =~= old(self)@.push(aggregate_type@));
                slot
            },
        }
    }

    /// Route an envelope: to the slot registered for its aggregate type, or
    /// to the dead-letter log when none is.
    pub fn route(&self, envelope: &CommandEnvelope) -> (r: Route)
        requires
            self.wf(),
        ensures
            match r {
                Route::Dispatch(i) => i < self@.len() && self@[i as int] == envelope.aggregate_type@,
                Route::DeadLetter(msg) => !self@.contains(envelope.aggregate_type@)
                    && msg@ == unknown_type_message(envelope.aggregate_type@),
            },
    {
        match self.slot_of(envelope.aggregate_type.as_str()) {
            Some(i) => Route::Dispatch(i),
            None => {
                let mut msg = String::from_str("unknown aggregate type: ");
                msg.append(envelope.aggregate_type.as_str());
                Route::DeadLetter(msg)
            },
        }
    }
}

/// How the dispatch of one envelope ended.
#[derive(Debug, Clone, Copy, PartialEq, Eq)]
pub enum DispatchOutcome {
    /// The target aggregate executed the command.
    Dispatched,
    /// The envelope was written to the dead-letter log.
    DeadLettered,
}

impl ProcessManagerReport {
    /// Count one envelope under its outcome: every envelope is counted
    /// exactly once.
    pub fn record(&mut self, outcome: DispatchOutcome)
        requires
            old(self).dispatched + old(self).dead_lettered < usize::MAX,
        ensures
            final(self).dispatched + final(self).dead_lettered == old(self).dispatched + old(self).dead_lettered + 1,
            outcome == DispatchOutcome::Dispatched ==> final(self).dispatched == old(self).dispatched + 1
                && final(self).dead_lettered == old(self).dead_lettered,
            outcome == DispatchOutcome::DeadLettered ==> final(self).dead_lettered == old(self).dead_lettered + 1
                && final(self).dispatched == old(self).dispatched,
    {
        match outcome {
            DispatchOutcome::Dispatched => self.dispatched = self.dispatched + 1,
            DispatchOutcome::DeadLettered => self.dead_lettered = self.dead_lettered + 1,
        }
    }
}

/// The envelopes of several process managers, in order, each tagged with
/// the index of the process manager that produced it.
pub open spec fn tagged(batches: Seq<Vec<CommandEnvelope>>) -> Seq<(usize, CommandEnvelope)>
    decreases batches.len(),
{
    if batches.len() == 0 {
        Seq::empty()
    } else {
        let k = (batches.len() - 1) as usize;
        tagged(batches.drop_last()) + batches.last()@.map_values(|e: CommandEnvelope| (k, e))
    }
}

/// What a dispatch pass asks its driver to do next.
#[derive(Debug, Clone, PartialEq, Eq)]
pub enum PassAction {
    /// Dispatch the current envelope to the dispatcher in this slot.
    Dispatch(usize),
    /// Write the current envelope to the dead-letter log of its process
    /// manager, with this error message.
    DeadLetter(String),
    /// Every envelope has been handled: save the process manager checkpoints.
    SaveCheckpoints,
}

/// One pass that dispatches the envelopes collected from the process
/// managers, in order, and saves their checkpoints only afterwards (so that
/// a crash mid-dispatch replays the events on restart).
pub struct DispatchPass {
    items: Vec<(usize, CommandEnvelope)>,
    done: usize,
    report: ProcessManagerReport,
}

impl DispatchPass {
    /// The envelopes of the pass, tagged with their process manager.
    pub closed spec fn items(&self) -> Seq<(usize, CommandEnvelope)> {
        self.items@
    }

    /// How many envelopes have been handled.
    pub closed spec fn done(&self) -> nat {
        self.done as nat
    }

    /// The tally so far.
    pub closed spec fn tally(&self) -> ProcessManagerReport {
        self.report
    }

    /// Pass invariant: the tally counts exactly the envelopes handled.
    pub closed spec fn wf(&self) -> bool {
        &&& self.done <= self.items@.len()
        &&& self.report.dispatched + self.report.dead_lettered == self.done
    }

    /// A pass over the envelopes of each process manager, in order.
    pub fn new(batches: &Vec<Vec<CommandEnvelope>>) -> (r: Self)
        ensures
            r.wf(),
            r.items() == tagged(batches@),
            r.done() == 0,
            r.tally().dispatched == 0 && r.tally().dead_lettered == 0,
    {
        let mut items: Vec<(usize, CommandEnvelope)> = Vec::new();
        let mut b: usize = 0;
        assert(batches@.take(0) =~= Seq::<Vec<CommandEnvelope>>::empty());
        while b < batches.len()
            invariant
                b <= batches.len(),
                items@ == tagged(batches@.take(b as int)),
            decreases batches.len() - b,
        {
            let ghost before = items@;
            let batch = &batches[b];
            let mut j: usize = 0;
            while j < batch.len()
                invariant
                    j <= batch.len(),
                    items@ == before + batch@.take(j as int).map_values(|e: CommandEnvelope| (b, e)),
                decreases batch.len() - j,
            {
                let ghost prev = items@;
                items.push((b, batch[j].clone_envelope()));
                assert(batch@.take(j + 1).map_values(|e: CommandEnvelope| (b, e)) =~= batch@.take(j as int).map_values(
                    |e: CommandEnvelope| (b, e),
                ).push((b, batch@[j as int])));
                j = j + 1;
            }
            assert(batch@.take(j as int) =~= batch@);
            assert(batches@.take(b + 1).drop_last() =~= batches@.take(b as int));
            assert(batches@.take(b + 1).last() == batches@[b as int]);
            b = b + 1;
        }
        assert(batches@.take(b as int) =~= batches@);
        DispatchPass { items, done: 0, report: ProcessManagerReport { dispatched: 0, dead_lettered: 0 } }
    }

    /// The envelope to handle now, with its process manager.
    pub fn current(&self) -> (r: &(usize, CommandEnvelope))
        requires
            self.wf(),
            self.done() < self.items().len(),
        ensures
            *r == self.items()[self.done() as int],
    {
        &self.items[self.done]
    }

    /// What to do next: route the current envelope, or, once every envelope
    /// has been handled, save the checkpoints. Saving is asked for only when
    /// the tally accounts for every envelope of the pass.
    pub fn next_action(&self, table: &DispatchTable) -> (a: PassAction)
        requires
            self.wf(),
            table.wf(),
        ensures
            a == PassAction::SaveCheckpoints <==> self.done() == self.items().len(),
            a == PassAction::SaveCheckpoints ==> self.tally().dispatched + self.tally().dead_lettered == self.items().len(),
            a matches PassAction::Dispatch(slot) ==> slot < table@.len()
                && table@[slot as int] == self.items()[self.done() as int].1.aggregate_type@,
            a matches PassAction::DeadLetter(msg) ==> !table@.contains(self.items()[self.done() as int].1.aggregate_type@)
                && msg@ == unknown_type_message(self.items()[self.done() as int].1.aggregate_type@),
    {
        if self.done == self.items.len() {
            PassAction::SaveCheckpoints
        } else {
            match table.route(&self.items[self.done].1) {
                Route::Dispatch(slot) => PassAction::Dispatch(slot),
                Route::DeadLetter(msg) => PassAction::DeadLetter(msg),
            }
        }
    }

    /// The current envelope has been handled with this outcome: count it and
    /// move on.
    pub fn complete(&mut self, outcome: DispatchOutcome)
        requires
            old(self).wf(),
            old(self).done() < old(self).items().len(),
        ensures
            final(self).wf(),
            final(self).items() == old(self).items(),
            final(self).done() == old(self).done() + 1,
            outcome == DispatchOutcome::Dispatched ==> final(self).tally().dispatched == old(self).tally().dispatched + 1
                && final(self).tally().dead_lettered == old(self).tally().dead_lettered,
            outcome == DispatchOutcome::DeadLettered ==> final(self).tally().dead_lettered == old(self).tally().dead_lettered + 1
                && final(self).tally().dispatched == old(self).tally().dispatched,
    {
        assert(self.items@.len() == self.items.len());
        self.report.record(outcome);
        self.done = self.done + 1;
    }

    /// The tally of the pass.
    pub fn report(&self) -> (r: ProcessManagerReport)
        ensures
            r == self.tally(),
    {
        ProcessManagerReport { dispatched: self.report.dispatched, dead_lettered: self.report.dead_lettered }
    }
}

} // verus!
