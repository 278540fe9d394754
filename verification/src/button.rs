//! The button debouncer: one press event for each physical press.

use vstd::prelude::*;

verus! {

/// Milliseconds for which the input is left alone after it first went high.
pub const DEBOUNCE_DURATION_MS: u64 = 250;

/// Where the debouncer stands within one press.
#[derive(Clone, Copy, Debug, PartialEq, Eq, Structural)]
pub enum DebounceState {
    /// Waiting for the input to go high.
    Idle,
    /// The input went high; the contact may still bounce.
    PressDetected,
    /// The contact has settled; waiting for the input to go low.
    Settling,
}

/// What the debouncer is told.
#[derive(Clone, Copy, Debug, PartialEq, Eq, Structural)]
pub enum ButtonEvent {
    /// The input is high.
    High,
    /// The input is low.
    Low,
    /// The debounce interval is over.
    HoldElapsed,
}

/// What the debouncer waits for next.
#[derive(Clone, Copy, Debug, PartialEq, Eq, Structural)]
pub enum ButtonAction {
    /// Wait until the input is high.
    WaitForHigh,
    /// Wait this many milliseconds, whatever the input does.
    Hold(u64),
    /// Wait until the input is low.
    WaitForLow,
}

/// The state after `event`, and whether the event completes a press.
pub open spec fn spec_step(state: DebounceState, event: ButtonEvent) -> (DebounceState, bool) {
    match (state, event) {
        (DebounceState::Idle, ButtonEvent::High) => (DebounceState::PressDetected, false),
        (DebounceState::PressDetected, ButtonEvent::HoldElapsed) => (
            DebounceState::Settling,
            false,
        ),
        (DebounceState::Settling, ButtonEvent::Low) => (DebounceState::Idle, true),
        _ => (state, false),
    }
}

/// What to wait for in `state`.
pub open spec fn spec_action(state: DebounceState) -> ButtonAction {
    match state {
        DebounceState::Idle => ButtonAction::WaitForHigh,
        DebounceState::PressDetected => ButtonAction::Hold(DEBOUNCE_DURATION_MS),
        DebounceState::Settling => ButtonAction::WaitForLow,
    }
}

/// The state after all of `events`, in order.
pub open spec fn spec_state_after(state: DebounceState, events: Seq<ButtonEvent>) -> DebounceState
    decreases events.len(),
{
    if events.len() == 0 {
        state
    } else {
        spec_step(spec_state_after(state, events.drop_last()), events.last()).0
    }
}

/// The number of presses that `events`, in order, complete.
pub open spec fn spec_presses(state: DebounceState, events: Seq<ButtonEvent>) -> nat
    decreases events.len(),
{
    if events.len() == 0 {
        0
    } else {
        let before = events.drop_last();
        let pressed = spec_step(spec_state_after(state, before), events.last()).1;
        spec_presses(state, before) + if pressed {
            1nat
        } else {
            0nat
        }
    }
}

/// A debouncer for one button.
#[derive(Clone, Copy, Debug)]
pub struct Debouncer {
    /// Where the debouncer stands.
    pub state: DebounceState,
}

impl Debouncer {
    /// A debouncer that waits for a press.
    pub fn new() -> (debouncer: Debouncer)
        ensures
            debouncer.state == DebounceState::Idle,
    {
        Debouncer { state: DebounceState::Idle }
    }

    /// What to wait for now.
    pub fn action(&self) -> (action: ButtonAction)
        ensures
            action == spec_action(self.state),
    {
        match self.state {
            DebounceState::Idle => ButtonAction::WaitForHigh,
            DebounceState::PressDetected => ButtonAction::Hold(DEBOUNCE_DURATION_MS),
            DebounceState::Settling => ButtonAction::WaitForLow,
        }
    }

    /// Takes one event and says whether it completes a press: the input
    /// going low after it went high and the debounce interval passed. An
    /// event that the state does not wait for changes nothing.
    pub fn step(&mut self, event: ButtonEvent) -> (pressed: bool)
        ensures
            (final(self).state, pressed) == spec_step(old(self).state, event),
    {
        match (self.state, event) {
            (DebounceState::Idle, ButtonEvent::High) => {
                self.state = DebounceState::PressDetected;
                false
            },
            (DebounceState::PressDetected, ButtonEvent::HoldElapsed) => {
                self.state = DebounceState::Settling;
                false
            },
            (DebounceState::Settling, ButtonEvent::Low) => {
                self.state = DebounceState::Idle;
                true
            },
            _ => false,
        }
    }

    /// Takes events in order and counts the presses that they complete.
    pub fn feed(&mut self, events: &Vec<ButtonEvent>) -> (presses: usize)
        ensures
            final(self).state == spec_state_after(old(self).state, events@),
            presses == spec_presses(old(self).state, events@),
    {
        let mut presses: usize = 0;
        let mut i: usize = 0;
        while i < events.len()
            invariant
                i <= events.len(),
                self.state == spec_state_after(old(self).state, events@.take(i as int)),
                presses == spec_presses(old(self).state, events@.take(i as int)),
                presses <= i,
            decreases events.len() - i,
        {
            proof {
                let upto = events@.take(i + 1);
                assert(upto.drop_last() =~= events@.take(i as int));
                assert(upto.last() == events@[i as int]);
            }
            if self.step(events[i]) {
                presses = presses + 1;
            }
            i = i + 1;
        }
        proof {
            assert(events@.take(events.len() as int) =~= events@);
        }
        presses
    }
}

/// Events taken one after another count as events taken in one go.
pub proof fn lemma_events_compose(
    state: DebounceState,
    first: Seq<ButtonEvent>,
    second: Seq<ButtonEvent>,
)
    ensures
        spec_state_after(state, first + second) == spec_state_after(
            spec_state_after(state, first),
            second,
        ),
        spec_presses(state, first + second) == spec_presses(state, first) + spec_presses(
            spec_state_after(state, first),
            second,
        ),
    decreases second.len(),
{
    if second.len() == 0 {
        assert(first + second =~= first);
    } else {
        lemma_events_compose(state, first, second.drop_last());
        assert((first + second).drop_last() =~= first + second.drop_last());
        assert((first + second).last() == second.last());
    }
}

/// While the debounce interval runs, the input may go up and down as often
/// as it likes: the debouncer stays where it is and counts no press.
pub proof fn lemma_bounce_is_ignored(bounce: Seq<ButtonEvent>)
    requires
        forall|i: int| 0 <= i < bounce.len() ==> bounce[i] != ButtonEvent::HoldElapsed,
    ensures
        spec_state_after(DebounceState::PressDetected, bounce) == DebounceState::PressDetected,
        spec_presses(DebounceState::PressDetected, bounce) == 0,
    decreases bounce.len(),
{
    if bounce.len() > 0 {
        lemma_bounce_is_ignored(bounce.drop_last());
    }
}

/// While the debouncer waits for the input to go low, anything else leaves
/// it waiting and counts no press.
pub proof fn lemma_held_is_ignored(held: Seq<ButtonEvent>)
    requires
        forall|i: int| 0 <= i < held.len() ==> held[i] != ButtonEvent::Low,
    ensures
        spec_state_after(DebounceState::Settling, held) == DebounceState::Settling,
        spec_presses(DebounceState::Settling, held) == 0,
    decreases held.len(),
{
    if held.len() > 0 {
        lemma_held_is_ignored(held.drop_last());
    }
}

/// One physical press is one press event: the input goes high, bounces
/// while the debounce interval runs, stays high for a while and goes low.
/// However it bounces, exactly one press is counted, and the debouncer is
/// ready for the next.
pub proof fn lemma_one_press_per_physical_press(bounce: Seq<ButtonEvent>, held: Seq<ButtonEvent>)
    requires
        forall|i: int| 0 <= i < bounce.len() ==> bounce[i] != ButtonEvent::HoldElapsed,
        forall|i: int| 0 <= i < held.len() ==> held[i] != ButtonEvent::Low,
    ensures
        spec_presses(
            DebounceState::Idle,
            seq![ButtonEvent::High] + bounce + seq![ButtonEvent::HoldElapsed] + held
                + seq![ButtonEvent::Low],
        ) == 1,
        spec_state_after(
            DebounceState::Idle,
            seq![ButtonEvent::High] + bounce + seq![ButtonEvent::HoldElapsed] + held
                + seq![ButtonEvent::Low],
        ) == DebounceState::Idle,
{
    let rise = seq![ButtonEvent::High];
    let elapse = seq![ButtonEvent::HoldElapsed];
    let fall = seq![ButtonEvent::Low];
    lemma_single_event(DebounceState::Idle, ButtonEvent::High);
    lemma_single_event(DebounceState::PressDetected, ButtonEvent::HoldElapsed);
    lemma_single_event(DebounceState::Settling, ButtonEvent::Low);
    lemma_bounce_is_ignored(bounce);
    lemma_held_is_ignored(held);
    lemma_events_compose(DebounceState::Idle, rise, bounce);
    lemma_events_compose(DebounceState::Idle, rise + bounce, elapse);
    lemma_events_compose(DebounceState::Idle, rise + bounce + elapse, held);
    lemma_events_compose(DebounceState::Idle, rise + bounce + elapse + held, fall);
}

/// A single event, taken as a sequence of one.
proof fn lemma_single_event(state: DebounceState, event: ButtonEvent)
    ensures
        spec_state_after(state, seq![event]) == spec_step(state, event).0,
        spec_presses(state, seq![event]) == if spec_step(state, event).1 {
            1nat
        } else {
            0nat
        },
{
    let events = seq![event];
    assert(events.drop_last() =~= Seq::<ButtonEvent>::empty());
    assert(events.last() == event);
    reveal_with_fuel(spec_state_after, 2);
    reveal_with_fuel(spec_presses, 2);
}

} // verus!
