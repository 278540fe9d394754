//! The display consumer: takes readings from the queue, has them laid out
//! and drawn, and keeps going when one of them cannot be shown.

use crate::queue::{spec_receive, ReadingQueue};
use crate::sensor::SensorReading;
use vstd::prelude::*;

verus! {

/// The display refused a command.
#[derive(Clone, Copy, Debug, PartialEq, Eq, Structural)]
pub struct DisplayError;

/// The dashboard could not be laid out.
#[derive(Clone, Copy, Debug, PartialEq, Eq, Structural)]
pub struct DashboardError;

/// Why a reading was not shown.
#[derive(Clone, Copy, Debug, PartialEq, Eq, Structural)]
pub enum ReportError {
    /// An error occurred while constructing the dashboard buffer.
    Dashboard,
    /// An error occurred while updating the display.
    Display,
}

/// What the consumer reports.
#[derive(Clone, Copy, Debug, PartialEq, Eq, Structural)]
pub enum RendererFault {
    /// The display cannot be initialized; the consumer has stopped.
    Initialize,
    /// One reading could not be shown; the consumer goes on.
    Report(ReportError),
}

/// Where the consumer stands.
#[derive(Clone, Copy, Debug, PartialEq, Eq)]
pub enum RendererState {
    /// The display is being initialized.
    Initializing,
    /// Waiting for a reading from the queue.
    Receiving,
    /// The dashboard for this reading is being laid out.
    LayingOut(SensorReading),
    /// The dashboard for this reading is being drawn.
    Drawing(SensorReading),
    /// The display could not be initialized. Nothing follows.
    Halted,
}

/// What the consumer is told.
#[derive(Clone, Copy, Debug, PartialEq, Eq)]
pub enum RendererEvent {
    /// The display was initialized, or could not be.
    Initialized(Result<(), DisplayError>),
    /// A reading came out of the queue.
    Received(SensorReading),
    /// The dashboard was laid out, or could not be.
    LaidOut(Result<(), DashboardError>),
    /// The dashboard was drawn, or could not be.
    Drawn(Result<(), DisplayError>),
}

/// What the consumer does next.
#[derive(Clone, Copy, Debug, PartialEq, Eq)]
pub enum RendererAction {
    /// Initialize the display.
    Initialize,
    /// Take a reading from the queue, waiting for one if it is empty.
    Receive,
    /// Lay out the dashboard for this reading.
    LayOut(SensorReading),
    /// Draw the dashboard that was laid out for this reading.
    Draw(SensorReading),
    /// Stop for good.
    Halt,
}

/// The state after `event`, and the fault to report, if the event brought
/// one. An event that the state does not wait for changes nothing.
pub open spec fn spec_step(state: RendererState, event: RendererEvent) -> (
    RendererState,
    Option<RendererFault>,
) {
    match (state, event) {
        (RendererState::Initializing, RendererEvent::Initialized(Ok(()))) => (
            RendererState::Receiving,
            None,
        ),
        (RendererState::Initializing, RendererEvent::Initialized(Err(_))) => (
            RendererState::Halted,
            Some(RendererFault::Initialize),
        ),
        (RendererState::Receiving, RendererEvent::Received(reading)) => (
            RendererState::LayingOut(reading),
            None,
        ),
        (RendererState::LayingOut(reading), RendererEvent::LaidOut(Ok(()))) => (
            RendererState::Drawing(reading),
            None,
        ),
        (RendererState::LayingOut(_), RendererEvent::LaidOut(Err(_))) => (
            RendererState::Receiving,
            Some(RendererFault::Report(ReportError::Dashboard)),
        ),
        (RendererState::Drawing(_), RendererEvent::Drawn(Ok(()))) => (
            RendererState::Receiving,
            None,
        ),
        (RendererState::Drawing(_), RendererEvent::Drawn(Err(_))) => (
            RendererState::Receiving,
            Some(RendererFault::Report(ReportError::Display)),
        ),
        _ => (state, None),
    }
}

/// What to do in `state`.
pub open spec fn spec_action(state: RendererState) -> RendererAction {
    match state {
        RendererState::Initializing => RendererAction::Initialize,
        RendererState::Receiving => RendererAction::Receive,
        RendererState::LayingOut(reading) => RendererAction::LayOut(reading),
        RendererState::Drawing(reading) => RendererAction::Draw(reading),
        RendererState::Halted => RendererAction::Halt,
    }
}

/// The state after all of `events`, in order.
pub open spec fn spec_state_after(state: RendererState, events: Seq<RendererEvent>) -> RendererState
    decreases events.len(),
{
    if events.len() == 0 {
        state
    } else {
        spec_step(spec_state_after(state, events.drop_last()), events.last()).0
    }
}

/// The faults that are reported while `events` are taken, in order.
pub open spec fn spec_faults(state: RendererState, events: Seq<RendererEvent>) -> Seq<
    RendererFault,
>
    decreases events.len(),
{
    if events.len() == 0 {
        Seq::empty()
    } else {
        let before = events.drop_last();
        match spec_step(spec_state_after(state, before), events.last()).1 {
            Some(fault) => spec_faults(state, before).push(fault),
            None => spec_faults(state, before),
        }
    }
}

/// The readings that the consumer takes while `events` are taken, in order.
pub open spec fn spec_consumed(state: RendererState, events: Seq<RendererEvent>) -> Seq<
    SensorReading,
>
    decreases events.len(),
{
    if events.len() == 0 {
        Seq::empty()
    } else {
        let before = events.drop_last();
        match events.last() {
            RendererEvent::Received(reading) if spec_state_after(state, before) is Receiving => {
                spec_consumed(state, before).push(reading)
            },
            _ => spec_consumed(state, before),
        }
    }
}

/// The readings that reach the display while `events` are taken, in order.
pub open spec fn spec_shown(state: RendererState, events: Seq<RendererEvent>) -> Seq<
    SensorReading,
>
    decreases events.len(),
{
    if events.len() == 0 {
        Seq::empty()
    } else {
        let before = events.drop_last();
        match (spec_state_after(state, before), events.last()) {
            (RendererState::Drawing(reading), RendererEvent::Drawn(Ok(()))) => spec_shown(
                state,
                before,
            ).push(reading),
            _ => spec_shown(state, before),
        }
    }
}

/// The consumer of readings.
#[derive(Clone, Copy, Debug)]
pub struct Renderer {
    /// Where the consumer stands.
    pub state: RendererState,
}

impl Renderer {
    /// A consumer that has yet to initialize its display.
    pub fn new() -> (renderer: Renderer)
        ensures
            renderer.state == RendererState::Initializing,
    {
        Renderer { state: RendererState::Initializing }
    }

    /// What to do now.
    pub fn action(&self) -> (action: RendererAction)
        ensures
            action == spec_action(self.state),
    {
        match self.state {
            RendererState::Initializing => RendererAction::Initialize,
            RendererState::Receiving => RendererAction::Receive,
            RendererState::LayingOut(reading) => RendererAction::LayOut(reading),
            RendererState::Drawing(reading) => RendererAction::Draw(reading),
            RendererState::Halted => RendererAction::Halt,
        }
    }

    /// Takes the outcome of the last action and moves on. Returns the fault
    /// to report, if the outcome was one. A display that cannot be
    /// initialized stops the consumer for good; a reading that cannot be
    /// laid out or drawn is given up and the next one is waited for.
    pub fn step(&mut self, event: RendererEvent) -> (fault: Option<RendererFault>)
        ensures
            (final(self).state, fault) == spec_step(old(self).state, event),
    {
        match (self.state, event) {
            (RendererState::Initializing, RendererEvent::Initialized(Ok(()))) => {
                self.state = RendererState::Receiving;
                None
            },
            (RendererState::Initializing, RendererEvent::Initialized(Err(_))) => {
                self.state = RendererState::Halted;
                Some(RendererFault::Initialize)
            },
            (RendererState::Receiving, RendererEvent::Received(reading)) => {
                self.state = RendererState::LayingOut(reading);
                None
            },
            (RendererState::LayingOut(reading), RendererEvent::LaidOut(Ok(()))) => {
                self.state = RendererState::Drawing(reading);
                None
            },
            (RendererState::LayingOut(_), RendererEvent::LaidOut(Err(_))) => {
                self.state = RendererState::Receiving;
                Some(RendererFault::Report(ReportError::Dashboard))
            },
            (RendererState::Drawing(_), RendererEvent::Drawn(Ok(()))) => {
                self.state = RendererState::Receiving;
                None
            },
            (RendererState::Drawing(_), RendererEvent::Drawn(Err(_))) => {
                self.state = RendererState::Receiving;
                Some(RendererFault::Report(ReportError::Display))
            },
            _ => None,
        }
    }

    /// Asks `queue` for a reading. Where the consumer waits for one and one
    /// is there, the oldest leaves the queue and its dashboard is laid out
    /// next. With an empty queue, or with the consumer busy or stopped,
    /// nothing changes: the consumer asks again after a reading has come.
    pub fn receive(&mut self, queue: &mut ReadingQueue) -> (received: Option<SensorReading>)
        ensures
            received is Some <==> old(self).state is Receiving && old(queue)@.len() > 0,
            received matches Some(reading) ==> reading == old(queue)@.first() && final(self).state
                == RendererState::LayingOut(reading),
            received is None ==> final(self).state == old(self).state,
            final(queue)@ == if old(self).state is Receiving {
                spec_receive(old(queue)@)
            } else {
                old(queue)@
            },
    {
        match self.state {
            RendererState::Receiving => match queue.try_receive() {
                Some(reading) => {
                    self.step(RendererEvent::Received(reading));
                    Some(reading)
                },
                None => None,
            },
            _ => None,
        }
    }
}

/// What happens to one reading on its way to the display.
pub struct Showing {
    /// The reading that came out of the queue.
    pub reading: SensorReading,
    /// Whether the dashboard could be laid out.
    pub layout: Result<(), DashboardError>,
    /// Whether the dashboard could be drawn, where it was laid out.
    pub draw: Result<(), DisplayError>,
}

/// The events that one reading brings: its arrival, the outcome of the
/// layout and, where there is a layout, the outcome of drawing it.
pub open spec fn spec_showing_events(before: Seq<RendererEvent>, showing: Showing) -> Seq<
    RendererEvent,
> {
    let laid_out = before.push(RendererEvent::Received(showing.reading)).push(
        RendererEvent::LaidOut(showing.layout),
    );
    if showing.layout is Ok {
        laid_out.push(RendererEvent::Drawn(showing.draw))
    } else {
        laid_out
    }
}

/// The events of `showings`, one after another.
pub open spec fn spec_showings_events(showings: Seq<Showing>) -> Seq<RendererEvent>
    decreases showings.len(),
{
    if showings.len() == 0 {
        Seq::empty()
    } else {
        spec_showing_events(spec_showings_events(showings.drop_last()), showings.last())
    }
}

/// The fault that a showing is reported with, if it failed.
pub open spec fn spec_showing_fault(showing: Showing) -> Option<RendererFault> {
    if showing.layout is Err {
        Some(RendererFault::Report(ReportError::Dashboard))
    } else if showing.draw is Err {
        Some(RendererFault::Report(ReportError::Display))
    } else {
        None
    }
}

/// What one more event adds to a run.
proof fn lemma_one_more_event(
    state: RendererState,
    events: Seq<RendererEvent>,
    event: RendererEvent,
)
    ensures
        spec_state_after(state, events.push(event)) == spec_step(
            spec_state_after(state, events),
            event,
        ).0,
        spec_faults(state, events.push(event)) == match spec_step(
            spec_state_after(state, events),
            event,
        ).1 {
            Some(fault) => spec_faults(state, events).push(fault),
            None => spec_faults(state, events),
        },
        spec_consumed(state, events.push(event)) == match event {
            RendererEvent::Received(reading) if spec_state_after(state, events) is Receiving => {
                spec_consumed(state, events).push(reading)
            },
            _ => spec_consumed(state, events),
        },
        spec_shown(state, events.push(event)) == match (spec_state_after(state, events), event) {
            (RendererState::Drawing(reading), RendererEvent::Drawn(Ok(()))) => spec_shown(
                state,
                events,
            ).push(reading),
            _ => spec_shown(state, events),
        },
{
    let longer = events.push(event);
    assert(longer.drop_last() =~= events);
    assert(longer.last() == event);
}

/// A failure to show one reading is reported exactly once and stops
/// nothing. Whatever fails on the way, each reading is taken exactly once,
/// in order, and never again; those that were laid out and drawn are on the
/// display, in order; each of the others is reported once, with the step
/// that failed; and the consumer waits for the next reading.
pub proof fn lemma_failures_are_reported_once(showings: Seq<Showing>)
    ensures
        spec_state_after(RendererState::Receiving, spec_showings_events(showings))
            == RendererState::Receiving,
        spec_consumed(RendererState::Receiving, spec_showings_events(showings))
            == showings.map_values(|showing: Showing| showing.reading),
        spec_shown(RendererState::Receiving, spec_showings_events(showings)) == showings.filter(
            |showing: Showing| spec_showing_fault(showing) is None,
        ).map_values(|showing: Showing| showing.reading),
        spec_faults(RendererState::Receiving, spec_showings_events(showings)) == showings.filter(
            |showing: Showing| spec_showing_fault(showing) is Some,
        ).map_values(|showing: Showing| spec_showing_fault(showing)->Some_0),
    decreases showings.len(),
{
    let start = RendererState::Receiving;
    let reading_of = |showing: Showing| showing.reading;
    let succeeded = |showing: Showing| spec_showing_fault(showing) is None;
    let failed = |showing: Showing| spec_showing_fault(showing) is Some;
    let fault_of = |showing: Showing| spec_showing_fault(showing)->Some_0;
    let events = spec_showings_events(showings);
    if showings.len() == 0 {
        assert(showings.filter(succeeded) =~= Seq::<Showing>::empty()) by {
            reveal(Seq::filter);
        }
        assert(showings.filter(failed) =~= Seq::<Showing>::empty()) by {
            reveal(Seq::filter);
        }
        assert(spec_consumed(start, events) =~= showings.map_values(reading_of));
        assert(spec_shown(start, events) =~= showings.filter(succeeded).map_values(reading_of));
        assert(spec_faults(start, events) =~= showings.filter(failed).map_values(fault_of));
    } else {
        let earlier = showings.drop_last();
        let showing = showings.last();
        lemma_failures_are_reported_once(earlier);
        let before = spec_showings_events(earlier);
        let received = before.push(RendererEvent::Received(showing.reading));
        let laid_out = received.push(RendererEvent::LaidOut(showing.layout));
        lemma_one_more_event(start, before, RendererEvent::Received(showing.reading));
        lemma_one_more_event(start, received, RendererEvent::LaidOut(showing.layout));
        if showing.layout is Ok {
            lemma_one_more_event(start, laid_out, RendererEvent::Drawn(showing.draw));
        }
        assert(showings.filter(succeeded) =~= if succeeded(showing) {
            earlier.filter(succeeded).push(showing)
        } else {
            earlier.filter(succeeded)
        }) by {
            reveal(Seq::filter);
        }
        assert(showings.filter(failed) =~= if failed(showing) {
            earlier.filter(failed).push(showing)
        } else {
            earlier.filter(failed)
        }) by {
            reveal(Seq::filter);
        }
        assert(spec_consumed(start, events) =~= showings.map_values(reading_of));
        assert(spec_shown(start, events) =~= showings.filter(succeeded).map_values(reading_of));
        assert(spec_faults(start, events) =~= showings.filter(failed).map_values(fault_of));
    }
}

/// A consumer that has stopped stays stopped: whatever it is told, it takes
/// no reading, shows none and reports nothing more.
pub proof fn lemma_halted_consumes_nothing(events: Seq<RendererEvent>)
    ensures
        spec_state_after(RendererState::Halted, events) == RendererState::Halted,
        spec_consumed(RendererState::Halted, events) == Seq::<SensorReading>::empty(),
        spec_shown(RendererState::Halted, events) == Seq::<SensorReading>::empty(),
        spec_faults(RendererState::Halted, events) == Seq::<RendererFault>::empty(),
    decreases events.len(),
{
    if events.len() > 0 {
        lemma_halted_consumes_nothing(events.drop_last());
    }
}

/// Where the display cannot be initialized, the failure is reported once
/// and the consumer takes no reading for the rest of the run, whatever
/// follows.
pub proof fn lemma_failed_initialization_consumes_nothing(
    error: DisplayError,
    events: Seq<RendererEvent>,
)
    ensures
        spec_state_after(
            RendererState::Initializing,
            seq![RendererEvent::Initialized(Err(error))] + events,
        ) == RendererState::Halted,
        spec_consumed(
            RendererState::Initializing,
            seq![RendererEvent::Initialized(Err(error))] + events,
        ) == Seq::<SensorReading>::empty(),
        spec_shown(
            RendererState::Initializing,
            seq![RendererEvent::Initialized(Err(error))] + events,
        ) == Seq::<SensorReading>::empty(),
        spec_faults(
            RendererState::Initializing,
            seq![RendererEvent::Initialized(Err(error))] + events,
        ) == seq![RendererFault::Initialize],
    decreases events.len(),
{
    let start = RendererState::Initializing;
    let failure = seq![RendererEvent::Initialized(Err(error))];
    if events.len() == 0 {
        assert(failure + events =~= Seq::<RendererEvent>::empty().push(failure[0]));
        lemma_one_more_event(start, Seq::empty(), failure[0]);
        assert(spec_faults(start, failure + events) =~= seq![RendererFault::Initialize]);
    } else {
        lemma_failed_initialization_consumes_nothing(error, events.drop_last());
        assert(failure + events =~= (failure + events.drop_last()).push(events.last()));
        lemma_one_more_event(start, failure + events.drop_last(), events.last());
    }
}

} // verus!
