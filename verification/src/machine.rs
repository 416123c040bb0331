//! The process state machine: a run registers the eight tables, then drives
//! the 22 query indices strictly in order, reporting or skipping each one,
//! and only a registration failure aborts the whole run. The driver that
//! performs the outside work feeds each outcome back in as an event.

use vstd::prelude::*;
use crate::corpus::QUERY_COUNT;
use crate::tables::TABLE_COUNT;

verus! {

/// Where a run stands.
#[derive(Clone, Copy, Debug, PartialEq, Eq, Structural)]
pub enum Phase {
    /// Nothing has happened yet.
    Uninitialized,
    /// Tables are being bound; `bound` of them are done.
    Registering { bound: usize },
    /// A table could not be bound; the run is over and no query was entered.
    Failed,
    /// All eight tables are bound; the query loop may start.
    Ready,
    /// Query `q` is in its round trip.
    Running { q: usize },
    /// Query `q` finished and its full report was emitted.
    Reported { q: usize },
    /// Query `q` failed; its failure was reported and the loop moves on.
    SkippedWithError { q: usize },
    /// All 22 indices were driven to a report or an explicit skip.
    Done,
}

/// What the outside work reports back to the machine.
#[derive(Clone, Copy, Debug, PartialEq, Eq, Structural)]
pub enum Event {
    /// The run starts registering tables.
    Begin,
    /// One table was bound to its data source.
    TableBound,
    /// A table could not be bound.
    TableFailed,
    /// The next query index enters its round trip.
    QueryStarted,
    /// The running query's round trip succeeded and was reported.
    QuerySucceeded,
    /// The running query failed; the failure was reported.
    QueryFailed,
    /// The last index has been driven; the run closes.
    Finish,
}

/// A phase the machine can actually be in.
pub open spec fn phase_wf(s: Phase) -> bool {
    match s {
        Phase::Registering { bound } => bound < TABLE_COUNT,
        Phase::Running { q } => 1 <= q <= QUERY_COUNT,
        Phase::Reported { q } => 1 <= q <= QUERY_COUNT,
        Phase::SkippedWithError { q } => 1 <= q <= QUERY_COUNT,
        _ => true,
    }
}

/// The transition relation. An event that does not apply to the current
/// phase leaves the phase unchanged; `Failed` and `Done` are terminal.
pub open spec fn step_rep(s: Phase, e: Event) -> Phase {
    match (s, e) {
        (Phase::Uninitialized, Event::Begin) => Phase::Registering { bound: 0 },
        (Phase::Registering { bound }, Event::TableBound) => if bound + 1 == TABLE_COUNT {
            Phase::Ready
        } else {
            Phase::Registering { bound: (bound + 1) as usize }
        },
        (Phase::Registering { .. }, Event::TableFailed) => Phase::Failed,
        (Phase::Ready, Event::QueryStarted) => Phase::Running { q: 1 },
        (Phase::Reported { q }, Event::QueryStarted) => if q < QUERY_COUNT {
            Phase::Running { q: (q + 1) as usize }
        } else {
            s
        },
        (Phase::SkippedWithError { q }, Event::QueryStarted) => if q < QUERY_COUNT {
            Phase::Running { q: (q + 1) as usize }
        } else {
            s
        },
        (Phase::Running { q }, Event::QuerySucceeded) => Phase::Reported { q },
        (Phase::Running { q }, Event::QueryFailed) => Phase::SkippedWithError { q },
        (Phase::Reported { q }, Event::Finish) => if q == QUERY_COUNT {
            Phase::Done
        } else {
            s
        },
        (Phase::SkippedWithError { q }, Event::Finish) => if q == QUERY_COUNT {
            Phase::Done
        } else {
            s
        },
        _ => s,
    }
}

/// The phase a run starts in.
pub fn initial_phase() -> (r: Phase)
    ensures
        r == Phase::Uninitialized,
        phase_wf(r),
{
    Phase::Uninitialized
}

/// Advances the machine by one event.
pub fn step(s: Phase, e: Event) -> (r: Phase)
    requires
        phase_wf(s),
    ensures
        r == step_rep(s, e),
        phase_wf(r),
{
    match (s, e) {
        (Phase::Uninitialized, Event::Begin) => Phase::Registering { bound: 0 },
        (Phase::Registering { bound }, Event::TableBound) => if bound + 1 == TABLE_COUNT {
            Phase::Ready
        } else {
            Phase::Registering { bound: bound + 1 }
        },
        (Phase::Registering { bound: _ }, Event::TableFailed) => Phase::Failed,
        (Phase::Ready, Event::QueryStarted) => Phase::Running { q: 1 },
        (Phase::Reported { q }, Event::QueryStarted) => if q < QUERY_COUNT {
            Phase::Running { q: q + 1 }
        } else {
            s
        },
        (Phase::SkippedWithError { q }, Event::QueryStarted) => if q < QUERY_COUNT {
            Phase::Running { q: q + 1 }
        } else {
            s
        },
        (Phase::Running { q }, Event::QuerySucceeded) => Phase::Reported { q },
        (Phase::Running { q }, Event::QueryFailed) => Phase::SkippedWithError { q },
        (Phase::Reported { q }, Event::Finish) => if q == QUERY_COUNT {
            Phase::Done
        } else {
            s
        },
        (Phase::SkippedWithError { q }, Event::Finish) => if q == QUERY_COUNT {
            Phase::Done
        } else {
            s
        },
        _ => s,
    }
}

/// The phase a run reaches after the given events, from `Uninitialized`.
pub open spec fn run_rep(events: Seq<Event>) -> Phase
    decreases events.len(),
{
    if events.len() == 0 {
        Phase::Uninitialized
    } else {
        step_rep(run_rep(events.drop_last()), events.last())
    }
}

/// How many of the events record a successful table binding.
pub open spec fn bound_events(events: Seq<Event>) -> nat
    decreases events.len(),
{
    if events.len() == 0 {
        0
    } else {
        bound_events(events.drop_last()) + if events.last() is TableBound {
            1nat
        } else {
            0nat
        }
    }
}

/// The phases in which the query loop has been entered or passed.
pub open spec fn past_registration(s: Phase) -> bool {
    s is Ready || s is Running || s is Reported || s is SkippedWithError || s is Done
}

/// How many table bindings a phase witnesses.
pub open spec fn registration_measure(s: Phase) -> nat {
    match s {
        Phase::Uninitialized => 0,
        Phase::Registering { bound } => bound as nat,
        Phase::Failed => 0,
        _ => TABLE_COUNT as nat,
    }
}

/// Every reachable phase is well-formed and witnesses no more table bindings
/// than actually happened.
proof fn lemma_run_measure(events: Seq<Event>)
    ensures
        phase_wf(run_rep(events)),
        registration_measure(run_rep(events)) <= bound_events(events),
    decreases events.len(),
{
    if events.len() > 0 {
        lemma_run_measure(events.drop_last());
    }
}

/// Partial registration never proceeds to query execution: however a run's
/// events unfold, if the machine stands in or past the query loop, all eight
/// tables were bound before it got there.
pub proof fn lemma_no_partial_registration(events: Seq<Event>)
    ensures
        past_registration(run_rep(events)) ==> bound_events(events) >= TABLE_COUNT,
{
    lemma_run_measure(events);
}

} // verus!
