//! The poll loop as a state machine. It owns the known revision, takes the
//! outcome of each piece of outside work as an event and answers with the
//! next piece of work to do. The known revision moves only when a snapshot
//! of the probed revision has been materialized.

use crate::probe::{opt_text, probe_error_text, ProbeError};
use crate::snapshot::{
    fetch_error_text, materialize_error_text, FetchError, MaterializeError, Snapshot,
};
use vstd::prelude::*;
use vstd::string::StringExecFns;

verus! {

/// Seconds between the end of one tick and the start of the next.
pub const WAIT_TIME_SECS: u64 = 60;

/// Where in its cycle the loop stands. While a revision is being fetched or
/// materialized the phase carries it.
#[derive(Debug, PartialEq, Eq)]
pub enum Phase {
    /// Not started yet.
    Idle,
    /// Waiting for the outcome of a probe.
    Probing,
    /// Waiting for the snapshot of the revision.
    Fetching(String),
    /// Waiting for the snapshot of the revision to be unpacked.
    Materializing(String),
    /// Waiting for the interval to pass.
    Sleeping,
}

/// The mathematical content of a [`Phase`].
pub enum PhaseView {
    Idle,
    Probing,
    Fetching(Seq<char>),
    Materializing(Seq<char>),
    Sleeping,
}

impl View for Phase {
    type V = PhaseView;

    open spec fn view(&self) -> PhaseView {
        match self {
            Phase::Idle => PhaseView::Idle,
            Phase::Probing => PhaseView::Probing,
            Phase::Fetching(revision) => PhaseView::Fetching(revision@),
            Phase::Materializing(revision) => PhaseView::Materializing(revision@),
            Phase::Sleeping => PhaseView::Sleeping,
        }
    }
}

/// What the driver reports back to the loop.
#[derive(Debug, PartialEq, Eq)]
pub enum Event {
    /// The driver is ready to begin.
    Start,
    /// The probe ended, with the head revision or without.
    Probed(Result<String, ProbeError>),
    /// The fetch ended, with a snapshot or without.
    Fetched(Result<Snapshot, FetchError>),
    /// The snapshot was unpacked, or was not.
    Materialized(Result<(), MaterializeError>),
    /// The interval has passed.
    Woke,
}

/// The mathematical content of an [`Event`].
pub enum EventView {
    Start,
    Probed(Result<Seq<char>, ProbeError>),
    Fetched(Result<Seq<u8>, FetchError>),
    Materialized(Result<(), MaterializeError>),
    Woke,
}

impl View for Event {
    type V = EventView;

    open spec fn view(&self) -> EventView {
        match self {
            Event::Start => EventView::Start,
            Event::Probed(Ok(revision)) => EventView::Probed(Ok(revision@)),
            Event::Probed(Err(cause)) => EventView::Probed(Err(*cause)),
            Event::Fetched(Ok(snapshot)) => EventView::Fetched(Ok(snapshot@)),
            Event::Fetched(Err(cause)) => EventView::Fetched(Err(*cause)),
            Event::Materialized(outcome) => EventView::Materialized(*outcome),
            Event::Woke => EventView::Woke,
        }
    }
}

/// What the loop asks the driver to do next.
#[derive(Debug, PartialEq, Eq)]
pub enum Action {
    /// Ask for the head revision of the default branch.
    Probe,
    /// Download the archive of the default branch.
    Fetch,
    /// Unpack this snapshot at the destination.
    Materialize(Snapshot),
    /// Wait this many seconds.
    Sleep(u64),
}

/// The mathematical content of an [`Action`].
pub enum ActionView {
    Probe,
    Fetch,
    Materialize(Seq<u8>),
    Sleep(u64),
}

impl View for Action {
    type V = ActionView;

    open spec fn view(&self) -> ActionView {
        match self {
            Action::Probe => ActionView::Probe,
            Action::Fetch => ActionView::Fetch,
            Action::Materialize(snapshot) => ActionView::Materialize(snapshot@),
            Action::Sleep(seconds) => ActionView::Sleep(*seconds),
        }
    }
}

/// A failure inside a tick: the phase that failed and the cause.
#[derive(Clone, Copy, Debug, PartialEq, Eq, Structural)]
pub enum Failure {
    Probe(ProbeError),
    Fetch(FetchError),
    Materialize(MaterializeError),
}

/// The phase that a failure names.
pub open spec fn failed_phase_text(f: Failure) -> Seq<char> {
    match f {
        Failure::Probe(_) => "probe"@,
        Failure::Fetch(_) => "fetch"@,
        Failure::Materialize(_) => "materialize"@,
    }
}

/// The cause that a failure names.
pub open spec fn cause_text(f: Failure) -> Seq<char> {
    match f {
        Failure::Probe(cause) => probe_error_text(cause),
        Failure::Fetch(cause) => fetch_error_text(cause),
        Failure::Materialize(cause) => materialize_error_text(cause),
    }
}

/// The line that reports a failure: the phase, then the cause.
pub open spec fn failure_text(f: Failure) -> Seq<char> {
    failed_phase_text(f) + " failed: "@ + cause_text(f)
}

impl Failure {
    /// The name of the phase that failed.
    pub fn phase_name(&self) -> (text: &'static str)
        ensures
            text@ == failed_phase_text(*self),
    {
        match self {
            Failure::Probe(_) => "probe",
            Failure::Fetch(_) => "fetch",
            Failure::Materialize(_) => "materialize",
        }
    }

    /// The cause in words.
    pub fn cause(&self) -> (text: &'static str)
        ensures
            text@ == cause_text(*self),
    {
        match self {
            Failure::Probe(cause) => cause.describe(),
            Failure::Fetch(cause) => cause.describe(),
            Failure::Materialize(cause) => cause.describe(),
        }
    }

    /// The line to report for this failure.
    pub fn message(&self) -> (line: String)
        ensures
            line@ == failure_text(*self),
    {
        let mut line = String::from_str(self.phase_name());
        line.append(" failed: ");
        line.append(self.cause());
        line
    }
}

/// The answer to an event: what to do next, and the failure to report, if
/// the event was one.
#[derive(Debug, PartialEq, Eq)]
pub struct Step {
    pub action: Action,
    pub report: Option<Failure>,
}

/// The mathematical content of a [`Step`].
pub struct StepView {
    pub action: ActionView,
    pub report: Option<Failure>,
}

impl View for Step {
    type V = StepView;

    open spec fn view(&self) -> StepView {
        StepView { action: self.action@, report: self.report }
    }
}

/// The content of an optional step.
pub open spec fn opt_step(o: Option<Step>) -> Option<StepView> {
    match o {
        Some(step) => Some(step@),
        None => None,
    }
}

/// The state of the loop: the revision last delivered to the destination, if
/// any, and the phase.
pub struct LoopView {
    pub known: Option<Seq<char>>,
    pub phase: PhaseView,
}

/// The state before the first tick: no revision known, not started.
pub open spec fn initial() -> LoopView {
    LoopView { known: None, phase: PhaseView::Idle }
}

/// The step that ends a tick: sleep for the interval, reporting the failure
/// if there was one.
pub open spec fn rest(report: Option<Failure>) -> StepView {
    StepView { action: ActionView::Sleep(WAIT_TIME_SECS), report }
}

/// The step that asks for an action and reports nothing.
pub open spec fn ask(action: ActionView) -> StepView {
    StepView { action, report: None }
}

/// The transition relation of the loop, as a function: the state and the
/// step that follow an event, or nothing where the event does not answer the
/// action that the loop is waiting on.
pub open spec fn transition(s: LoopView, e: EventView) -> Option<(LoopView, StepView)> {
    match (s.phase, e) {
        (PhaseView::Idle, EventView::Start) | (PhaseView::Sleeping, EventView::Woke) => Some(
            (LoopView { phase: PhaseView::Probing, ..s }, ask(ActionView::Probe)),
        ),
        (PhaseView::Probing, EventView::Probed(Err(cause))) => Some(
            (LoopView { phase: PhaseView::Sleeping, ..s }, rest(Some(Failure::Probe(cause)))),
        ),
        (PhaseView::Probing, EventView::Probed(Ok(revision))) => if s.known == Some(revision) {
            Some((LoopView { phase: PhaseView::Sleeping, ..s }, rest(None)))
        } else {
            Some((LoopView { phase: PhaseView::Fetching(revision), ..s }, ask(ActionView::Fetch)))
        },
        (PhaseView::Fetching(revision), EventView::Fetched(Err(cause))) => Some(
            (LoopView { phase: PhaseView::Sleeping, ..s }, rest(Some(Failure::Fetch(cause)))),
        ),
        (PhaseView::Fetching(revision), EventView::Fetched(Ok(snapshot))) => Some(
            (
                LoopView { phase: PhaseView::Materializing(revision), ..s },
                ask(ActionView::Materialize(snapshot)),
            ),
        ),
        (PhaseView::Materializing(revision), EventView::Materialized(Err(cause))) => Some(
            (LoopView { phase: PhaseView::Sleeping, ..s }, rest(Some(Failure::Materialize(cause)))),
        ),
        (PhaseView::Materializing(revision), EventView::Materialized(Ok(()))) => Some(
            (LoopView { known: Some(revision), phase: PhaseView::Sleeping }, rest(None)),
        ),
        _ => None,
    }
}

/// The state after an event; an event out of turn leaves the state as it is.
pub open spec fn next_state(s: LoopView, e: EventView) -> LoopView {
    match transition(s, e) {
        Some((t, _)) => t,
        None => s,
    }
}

/// The step that answers an event; none for an event out of turn.
pub open spec fn next_step(s: LoopView, e: EventView) -> Option<StepView> {
    match transition(s, e) {
        Some((_, step)) => Some(step),
        None => None,
    }
}

/// The poll loop: the known revision and the phase.
#[derive(Debug, PartialEq, Eq)]
pub struct PollLoop {
    known: Option<String>,
    phase: Phase,
}

impl View for PollLoop {
    type V = LoopView;

    closed spec fn view(&self) -> LoopView {
        LoopView { known: opt_text(self.known), phase: self.phase@ }
    }
}

impl PollLoop {
    /// A loop that knows no revision and has not started.
    pub fn new() -> (r: PollLoop)
        ensures
            r@ == initial(),
    {
        PollLoop { known: None, phase: Phase::Idle }
    }

    /// The revision last delivered to the destination, if any.
    pub fn known(&self) -> (r: Option<&String>)
        ensures
            r is Some <==> self@.known is Some,
            r matches Some(revision) ==> self@.known == Some(revision@),
    {
        self.known.as_ref()
    }

    /// The phase the loop stands in.
    pub fn phase(&self) -> (r: &Phase)
        ensures
            r@ == self@.phase,
    {
        &self.phase
    }

    fn sleep(&mut self, report: Option<Failure>) -> (r: Option<Step>)
        ensures
            final(self)@ == (LoopView { phase: PhaseView::Sleeping, ..old(self)@ }),
            opt_step(r) == Some(rest(report)),
    {
        self.phase = Phase::Sleeping;
        Some(Step { action: Action::Sleep(WAIT_TIME_SECS), report })
    }

    fn knows(&self, revision: &String) -> (r: bool)
        ensures
            r == (self@.known == Some(revision@)),
    {
        match &self.known {
            Some(known) => *known == *revision,
            None => false,
        }
    }

    /// Takes the phase out, leaving the loop asleep.
    fn take_phase(&mut self) -> (r: Phase)
        ensures
            r == old(self).phase,
            final(self)@ == (LoopView { phase: PhaseView::Sleeping, ..old(self)@ }),
    {
        let mut phase = Phase::Sleeping;
        core::mem::swap(&mut self.phase, &mut phase);
        phase
    }

    /// Feeds one event to the loop. The loop moves as [`transition`] says and
    /// answers with the next action and the failure to report; an event that
    /// does not answer the action the loop is waiting on is ignored, with no
    /// answer and no change.
    pub fn step(&mut self, event: Event) -> (r: Option<Step>)
        ensures
            final(self)@ == next_state(old(self)@, event@),
            opt_step(r) == next_step(old(self)@, event@),
    {
        match event {
            Event::Start => match self.phase {
                Phase::Idle => {
                    self.phase = Phase::Probing;
                    Some(Step { action: Action::Probe, report: None })
                },
                _ => None,
            },
            Event::Woke => match self.phase {
                Phase::Sleeping => {
                    self.phase = Phase::Probing;
                    Some(Step { action: Action::Probe, report: None })
                },
                _ => None,
            },
            Event::Probed(outcome) => match self.phase {
                Phase::Probing => match outcome {
                    Ok(revision) => if self.knows(&revision) {
                        self.sleep(None)
                    } else {
                        self.phase = Phase::Fetching(revision);
                        Some(Step { action: Action::Fetch, report: None })
                    },
                    Err(cause) => self.sleep(Some(Failure::Probe(cause))),
                },
                _ => None,
            },
            Event::Fetched(outcome) => match self.take_phase() {
                Phase::Fetching(revision) => match outcome {
                    Ok(snapshot) => {
                        self.phase = Phase::Materializing(revision);
                        Some(Step { action: Action::Materialize(snapshot), report: None })
                    },
                    Err(cause) => self.sleep(Some(Failure::Fetch(cause))),
                },
                other => {
                    self.phase = other;
                    None
                },
            },
            Event::Materialized(outcome) => match self.take_phase() {
                Phase::Materializing(revision) => match outcome {
                    Ok(()) => {
                        self.known = Some(revision);
                        self.sleep(None)
                    },
                    Err(cause) => self.sleep(Some(Failure::Materialize(cause))),
                },
                other => {
                    self.phase = other;
                    None
                },
            },
        }
    }
}

} // verus!
