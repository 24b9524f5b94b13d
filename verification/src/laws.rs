//! What holds of the poll loop over whole ticks and over runs of ticks.
//!
//! A tick is the stretch from the outcome of a probe to the sleep that
//! follows. The driver is modelled by the answers its collaborators would
//! give; the events of a tick are the answers to the actions that the loop
//! asks for, one after the other.

use crate::poll::{
    ask, initial, next_state, next_step, rest, transition, ActionView, EventView, Failure,
    LoopView, PhaseView, WAIT_TIME_SECS,
};
use crate::probe::ProbeError;
use crate::snapshot::{FetchError, MaterializeError};
use vstd::prelude::*;

verus! {

/// The state after a run of events.
pub open spec fn run(s: LoopView, events: Seq<EventView>) -> LoopView
    decreases events.len(),
{
    if events.len() == 0 {
        s
    } else {
        next_state(run(s, events.drop_last()), events.last())
    }
}

/// The actions that the loop asks for along a run of events, in order. An
/// event out of turn asks for nothing.
pub open spec fn asked(s: LoopView, events: Seq<EventView>) -> Seq<ActionView>
    decreases events.len(),
{
    if events.len() == 0 {
        Seq::empty()
    } else {
        let before = events.drop_last();
        match next_step(run(s, before), events.last()) {
            Some(step) => asked(s, before).push(step.action),
            None => asked(s, before),
        }
    }
}

/// The failures that the loop reports along a run of events, in order.
pub open spec fn reported(s: LoopView, events: Seq<EventView>) -> Seq<Failure>
    decreases events.len(),
{
    if events.len() == 0 {
        Seq::empty()
    } else {
        let before = events.drop_last();
        match next_step(run(s, before), events.last()) {
            Some(step) => match step.report {
                Some(failure) => reported(s, before).push(failure),
                None => reported(s, before),
            },
            None => reported(s, before),
        }
    }
}

/// What the collaborators would answer in one tick, each if it is asked.
pub struct Answers {
    pub probe: Result<Seq<char>, ProbeError>,
    pub fetch: Result<Seq<u8>, FetchError>,
    pub materialize: Result<(), MaterializeError>,
}

/// The event with which the driver answers an action.
pub open spec fn answer(action: ActionView, a: Answers) -> EventView {
    match action {
        ActionView::Probe => EventView::Probed(a.probe),
        ActionView::Fetch => EventView::Fetched(a.fetch),
        ActionView::Materialize(_) => EventView::Materialized(a.materialize),
        ActionView::Sleep(_) => EventView::Woke,
    }
}

/// Whether a probe calls for a fetch: it gave a revision, and not the known
/// one.
pub open spec fn fetch_due(known: Option<Seq<char>>, probe: Result<Seq<char>, ProbeError>) -> bool {
    probe matches Ok(revision) && known != Some(revision)
}

/// The events of one tick: the outcome of the probe, that of the fetch if a
/// fetch is due, and that of the unpacking if the fetch gave a snapshot.
pub open spec fn tick_events(known: Option<Seq<char>>, a: Answers) -> Seq<EventView> {
    if !fetch_due(known, a.probe) {
        seq![EventView::Probed(a.probe)]
    } else if a.fetch is Err {
        seq![EventView::Probed(a.probe), EventView::Fetched(a.fetch)]
    } else {
        seq![
            EventView::Probed(a.probe),
            EventView::Fetched(a.fetch),
            EventView::Materialized(a.materialize),
        ]
    }
}

/// The actions of one tick: a fetch if one is due, the unpacking of what the
/// fetch gave, and the sleep at the end.
pub open spec fn tick_actions(known: Option<Seq<char>>, a: Answers) -> Seq<ActionView> {
    if !fetch_due(known, a.probe) {
        seq![ActionView::Sleep(WAIT_TIME_SECS)]
    } else {
        match a.fetch {
            Err(_) => seq![ActionView::Fetch, ActionView::Sleep(WAIT_TIME_SECS)],
            Ok(snapshot) => seq![
                ActionView::Fetch,
                ActionView::Materialize(snapshot),
                ActionView::Sleep(WAIT_TIME_SECS),
            ],
        }
    }
}

/// The failure of one tick, if it has one: that of the first collaborator
/// that was asked and failed.
pub open spec fn tick_failure(known: Option<Seq<char>>, a: Answers) -> Option<Failure> {
    match a.probe {
        Err(cause) => Some(Failure::Probe(cause)),
        Ok(revision) => if known == Some(revision) {
            None
        } else {
            match a.fetch {
                Err(cause) => Some(Failure::Fetch(cause)),
                Ok(_) => match a.materialize {
                    Err(cause) => Some(Failure::Materialize(cause)),
                    Ok(_) => None,
                },
            }
        },
    }
}

/// The revision known after a tick: the probed one where a fetch was due
/// and both the fetch and the unpacking succeeded, else the one known before.
pub open spec fn delivered(known: Option<Seq<char>>, a: Answers) -> Option<Seq<char>> {
    if fetch_due(known, a.probe) && a.fetch is Ok && a.materialize is Ok {
        Some(a.probe->Ok_0)
    } else {
        known
    }
}

/// A run that is extended by one event ends where that event leads.
pub proof fn lemma_run_push(s: LoopView, events: Seq<EventView>, e: EventView)
    ensures
        run(s, events.push(e)) == next_state(run(s, events), e),
        asked(s, events.push(e)) == match next_step(run(s, events), e) {
            Some(step) => asked(s, events).push(step.action),
            None => asked(s, events),
        },
        reported(s, events.push(e)) == match next_step(run(s, events), e) {
            Some(step) => match step.report {
                Some(failure) => reported(s, events).push(failure),
                None => reported(s, events),
            },
            None => reported(s, events),
        },
{
    assert(events.push(e).drop_last() =~= events);
    assert(events.push(e).last() == e);
}

/// One tick, event by event. From the probing phase, whatever the
/// collaborators answer: the loop asks for exactly the actions of the tick,
/// the last of them the sleep of the fixed interval; each event of the tick
/// answers the action asked just before it; the loop reports the failure of
/// the tick, if it has one, and nothing else; and the tick ends asleep with
/// the delivered revision known.
pub proof fn lemma_tick(s: LoopView, a: Answers)
    requires
        s.phase == PhaseView::Probing,
    ensures
        run(s, tick_events(s.known, a)) == (LoopView {
            known: delivered(s.known, a),
            phase: PhaseView::Sleeping,
        }),
        asked(s, tick_events(s.known, a)) == tick_actions(s.known, a),
        tick_actions(s.known, a).last() == ActionView::Sleep(WAIT_TIME_SECS),
        reported(s, tick_events(s.known, a)) == match tick_failure(s.known, a) {
            Some(failure) => seq![failure],
            None => Seq::empty(),
        },
        tick_events(s.known, a)[0] == answer(ActionView::Probe, a),
        forall|i: int|
            0 < i < tick_events(s.known, a).len() ==> #[trigger] tick_events(s.known, a)[i]
                == answer(tick_actions(s.known, a)[i - 1], a),
{
    let none = Seq::<EventView>::empty();
    let probed = EventView::Probed(a.probe);
    let fetched = EventView::Fetched(a.fetch);
    let unpacked = EventView::Materialized(a.materialize);
    assert(run(s, none) == s);
    assert(asked(s, none) =~= Seq::<ActionView>::empty());
    lemma_run_push(s, none, probed);
    lemma_run_push(s, none.push(probed), fetched);
    lemma_run_push(s, none.push(probed).push(fetched), unpacked);
    assert(seq![probed] =~= none.push(probed));
    assert(seq![probed, fetched] =~= none.push(probed).push(fetched));
    assert(seq![probed, fetched, unpacked] =~= none.push(probed).push(fetched).push(unpacked));
    assert(reported(s, none) =~= Seq::<Failure>::empty());
    assert(asked(s, tick_events(s.known, a)) =~= tick_actions(s.known, a));
    assert(reported(s, tick_events(s.known, a)) =~= match tick_failure(s.known, a) {
        Some(failure) => seq![failure],
        None => Seq::empty(),
    });
}

/// Over one tick the known revision equals the probed one exactly when it
/// was known before or the tick fetched and materialized it, and it is
/// either the one known before or the probed one; a tick whose probe fails
/// leaves the known revision as it was.
pub proof fn lemma_known_after_tick(s: LoopView, a: Answers)
    requires
        s.phase == PhaseView::Probing,
    ensures
        match a.probe {
            Ok(revision) => {
                &&& run(s, tick_events(s.known, a)).known == Some(revision) <==> s.known == Some(
                    revision,
                ) || (a.fetch is Ok && a.materialize is Ok)
                &&& run(s, tick_events(s.known, a)).known == s.known || run(
                    s,
                    tick_events(s.known, a),
                ).known == Some(revision)
            },
            Err(_) => run(s, tick_events(s.known, a)).known == s.known,
        },
{
    lemma_tick(s, a);
}

/// A revision whose fetch or unpacking failed is tried again: after such a
/// tick the loop knows what it knew before, and when the next probe gives
/// the same revision the loop asks for a fetch.
pub proof fn lemma_failed_revision_is_retried(s: LoopView, a: Answers, revision: Seq<char>)
    requires
        s.phase == PhaseView::Probing,
        a.probe == Ok::<Seq<char>, ProbeError>(revision),
        s.known != Some(revision),
        a.fetch is Err || a.materialize is Err,
    ensures
        run(s, tick_events(s.known, a)) == (LoopView { phase: PhaseView::Sleeping, ..s }),
        next_step(
            next_state(run(s, tick_events(s.known, a)), EventView::Woke),
            EventView::Probed(Ok(revision)),
        ) == Some(ask(ActionView::Fetch)),
{
    lemma_tick(s, a);
}

/// A probe that gives the known revision ends the tick at once: the loop
/// goes to sleep with nothing changed, and the whole tick asks for no fetch
/// and no unpacking, whatever those would have answered.
pub proof fn lemma_known_revision_is_skipped(s: LoopView, a: Answers, revision: Seq<char>)
    requires
        s.phase == PhaseView::Probing,
        s.known == Some(revision),
        a.probe == Ok::<Seq<char>, ProbeError>(revision),
    ensures
        transition(s, EventView::Probed(a.probe)) == Some(
            (LoopView { phase: PhaseView::Sleeping, ..s }, rest(None)),
        ),
        tick_events(s.known, a) == seq![EventView::Probed(a.probe)],
        asked(s, tick_events(s.known, a)) == seq![ActionView::Sleep(WAIT_TIME_SECS)],
        run(s, tick_events(s.known, a)) == (LoopView { phase: PhaseView::Sleeping, ..s }),
{
    lemma_tick(s, a);
}

/// The first tick always attempts a fetch: a loop that has just started
/// answers any probed revision by asking for a fetch of it.
pub proof fn lemma_first_tick_fetches(revision: Seq<char>)
    ensures
        transition(initial(), EventView::Start) == Some(
            (LoopView { known: None, phase: PhaseView::Probing }, ask(ActionView::Probe)),
        ),
        transition(
            next_state(initial(), EventView::Start),
            EventView::Probed(Ok(revision)),
        ) == Some(
            (
                LoopView { known: None, phase: PhaseView::Fetching(revision) },
                ask(ActionView::Fetch),
            ),
        ),
{
}

/// A failed probe leaves the known revision as it was, whatever the cause,
/// and is reported as the probe's failure.
pub proof fn lemma_failed_probe_keeps_known(s: LoopView, cause: ProbeError)
    requires
        s.phase == PhaseView::Probing,
    ensures
        transition(s, EventView::Probed(Err(cause))) == Some(
            (
                LoopView { phase: PhaseView::Sleeping, ..s },
                rest(Some(Failure::Probe(cause))),
            ),
        ),
{
}

/// The known revision moves in one way only: the unpacking of the snapshot
/// of a revision has succeeded, and that revision becomes the known one.
pub proof fn lemma_known_moves_on_delivery_only(s: LoopView, e: EventView)
    ensures
        next_state(s, e).known != s.known ==> {
            &&& e matches EventView::Materialized(Ok(_))
            &&& s.phase matches PhaseView::Materializing(revision)
            &&& next_state(s, e).known == Some(revision)
        },
{
}

/// Whether an event is the probe of this revision.
pub open spec fn is_probe_of(e: EventView, revision: Seq<char>) -> bool {
    e == EventView::Probed(Ok(revision))
}

/// Whether an event is a successful unpacking.
pub open spec fn is_unpacked(e: EventView) -> bool {
    e matches EventView::Materialized(Ok(_))
}

/// Whether a run of events holds a probe of this revision.
pub open spec fn probed(events: Seq<EventView>, revision: Seq<char>) -> bool {
    exists|i: int| 0 <= i < events.len() && is_probe_of(#[trigger] events[i], revision)
}

/// Whether a run of events holds a probe of this revision and, after it, a
/// successful unpacking.
pub open spec fn probed_then_unpacked(events: Seq<EventView>, revision: Seq<char>) -> bool {
    exists|i: int, j: int|
        0 <= i < j < events.len() && is_probe_of(#[trigger] events[i], revision) && is_unpacked(
            #[trigger] events[j],
        )
}

/// Whether a state carries no revision that is still on its way.
pub open spec fn between_revisions(s: LoopView) -> bool {
    s.phase == PhaseView::Idle || s.phase == PhaseView::Probing || s.phase == PhaseView::Sleeping
}

/// Over any run of events, in turn or out of turn: a revision that the loop
/// is fetching or unpacking was probed in that run, and a revision that the
/// loop has come to know was probed in that run and followed by a
/// successful unpacking. No other revision ever becomes the known one.
pub proof fn lemma_known_was_probed_and_unpacked(s: LoopView, events: Seq<EventView>)
    requires
        between_revisions(s),
    ensures
        run(s, events).phase matches PhaseView::Fetching(revision) ==> probed(events, revision),
        run(s, events).phase matches PhaseView::Materializing(revision) ==> probed(
            events,
            revision,
        ),
        run(s, events).known == s.known || (run(s, events).known matches Some(revision)
            && probed_then_unpacked(events, revision)),
    decreases events.len(),
{
    if events.len() > 0 {
        let before = events.drop_last();
        let last = events.len() - 1;
        let mid = run(s, before);
        let end = run(s, events);
        lemma_known_was_probed_and_unpacked(s, before);
        assert forall|revision: Seq<char>| probed(before, revision) implies probed(
            events,
            revision,
        ) by {
            let i = choose|i: int|
                0 <= i < before.len() && is_probe_of(#[trigger] before[i], revision);
            assert(is_probe_of(events[i], revision));
        }
        assert forall|revision: Seq<char>| probed_then_unpacked(before, revision) implies
            probed_then_unpacked(events, revision) by {
            let (i, j) = choose|i: int, j: int|
                0 <= i < j < before.len() && is_probe_of(#[trigger] before[i], revision)
                    && is_unpacked(#[trigger] before[j]);
            assert(is_probe_of(events[i], revision) && is_unpacked(events[j]));
        }
        if let PhaseView::Fetching(revision) = end.phase {
            if mid.phase != end.phase {
                assert(is_probe_of(events[last], revision));
            }
        }
        if end.known != mid.known {
            let revision = end.known->0;
            let i = choose|i: int|
                0 <= i < before.len() && is_probe_of(#[trigger] before[i], revision);
            assert(is_probe_of(events[i], revision) && is_unpacked(events[last]));
        }
    }
}

/// Whether the loop rests between ticks: it has not started, or it sleeps.
pub open spec fn resting(s: LoopView) -> bool {
    s.phase == PhaseView::Idle || s.phase == PhaseView::Sleeping
}

/// The event that ends a rest: the start for a loop that has not started,
/// the wake-up for one that sleeps.
pub open spec fn rouse(s: LoopView) -> EventView {
    if s.phase == PhaseView::Idle {
        EventView::Start
    } else {
        EventView::Woke
    }
}

/// The events of one cycle from rest: the rouse, then the tick.
pub open spec fn cycle_events(s: LoopView, a: Answers) -> Seq<EventView> {
    seq![rouse(s)] + tick_events(s.known, a)
}

/// The events of a run of cycles from rest, one cycle for each set of
/// answers.
pub open spec fn history(s: LoopView, answers: Seq<Answers>) -> Seq<EventView>
    decreases answers.len(),
{
    if answers.len() == 0 {
        Seq::empty()
    } else {
        let before = history(s, answers.drop_last());
        before + cycle_events(run(s, before), answers.last())
    }
}

/// The revision known after a run of ticks: each tick in turn delivers its
/// probed revision or leaves the known one.
pub open spec fn known_after(known: Option<Seq<char>>, answers: Seq<Answers>) -> Option<Seq<char>>
    decreases answers.len(),
{
    if answers.len() == 0 {
        known
    } else {
        delivered(known_after(known, answers.drop_last()), answers.last())
    }
}

/// A run of two stretches of events is the run of the second from where the
/// first ends.
pub proof fn lemma_run_concat(s: LoopView, first: Seq<EventView>, second: Seq<EventView>)
    ensures
        run(s, first + second) == run(run(s, first), second),
    decreases second.len(),
{
    if second.len() == 0 {
        assert(first + second =~= first);
    } else {
        lemma_run_concat(s, first, second.drop_last());
        assert((first + second).drop_last() =~= first + second.drop_last());
        assert((first + second).last() == second.last());
    }
}

/// One cycle from rest ends asleep with the delivered revision known.
pub proof fn lemma_cycle(s: LoopView, a: Answers)
    requires
        resting(s),
    ensures
        run(s, cycle_events(s, a)) == (LoopView {
            known: delivered(s.known, a),
            phase: PhaseView::Sleeping,
        }),
{
    let roused = LoopView { phase: PhaseView::Probing, ..s };
    let first = seq![rouse(s)];
    assert(first =~= Seq::<EventView>::empty().push(rouse(s)));
    assert(run(s, Seq::<EventView>::empty()) == s);
    lemma_run_push(s, Seq::<EventView>::empty(), rouse(s));
    assert(run(s, first) == roused);
    lemma_run_concat(s, first, tick_events(s.known, a));
    lemma_tick(roused, a);
}

/// Over any run of ticks, whatever the probes, fetches and unpackings
/// answer: the loop ends at rest, and the revision it knows is what the ticks
/// made of the one it knew at first, each tick in turn delivering its probed
/// revision or leaving the known one.
pub proof fn lemma_known_after_history(s: LoopView, answers: Seq<Answers>)
    requires
        resting(s),
    ensures
        resting(run(s, history(s, answers))),
        run(s, history(s, answers)).known == known_after(s.known, answers),
    decreases answers.len(),
{
    if answers.len() > 0 {
        let before = history(s, answers.drop_last());
        lemma_known_after_history(s, answers.drop_last());
        lemma_run_concat(s, before, cycle_events(run(s, before), answers.last()));
        lemma_cycle(run(s, before), answers.last());
    }
}

} // verus!
