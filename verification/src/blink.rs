//! The heartbeat: a fixed pattern of levels and durations for the status LED.

use vstd::prelude::*;

verus! {

/// Level of a digital output.
#[derive(Clone, Copy, Debug, PartialEq, Eq, Structural)]
pub enum Level {
    /// Low.
    Low,
    /// High.
    High,
}

impl Level {
    /// The other level.
    pub open spec fn spec_toggled(self) -> Level {
        match self {
            Level::Low => Level::High,
            Level::High => Level::Low,
        }
    }

    /// The other level.
    #[verifier::when_used_as_spec(spec_toggled)]
    pub fn toggled(self) -> (level: Level)
        ensures
            level == self.spec_toggled(),
    {
        match self {
            Level::Low => Level::High,
            Level::High => Level::Low,
        }
    }
}

/// Number of steps in the heartbeat pattern.
pub const HEARTBEAT_STEPS: usize = 4;

/// Milliseconds that one round of the heartbeat pattern takes.
pub const HEARTBEAT_PERIOD_MS: u64 = 1_000;

/// The heartbeat pattern: each level with the milliseconds to hold it.
pub open spec fn spec_heartbeat_pattern() -> Seq<(Level, u64)> {
    seq![(Level::High, 100u64), (Level::Low, 100u64), (Level::High, 100u64), (Level::Low, 700u64)]
}

/// The heartbeat pattern: each level with the milliseconds to hold it.
pub fn heartbeat_pattern() -> (pattern: [(Level, u64); 4])
    ensures
        pattern@ == spec_heartbeat_pattern(),
{
    let pattern = [(Level::High, 100), (Level::Low, 100), (Level::High, 100), (Level::Low, 700)];
    assert(pattern@ =~= spec_heartbeat_pattern());
    pattern
}

/// The step of the pattern that is played `steps` steps after the step at
/// `position`.
pub open spec fn spec_step_after(position: nat, steps: nat) -> (Level, u64) {
    spec_heartbeat_pattern()[((position + steps) % HEARTBEAT_STEPS as nat) as int]
}

/// The steps that are played, in order, in `count` steps from `position`.
pub open spec fn spec_played(position: nat, count: nat) -> Seq<(Level, u64)> {
    Seq::new(count, |k: int| spec_step_after(position, k as nat))
}

/// The milliseconds that the steps of `played` take together.
pub open spec fn spec_duration(played: Seq<(Level, u64)>) -> nat
    decreases played.len(),
{
    if played.len() == 0 {
        0
    } else {
        (spec_duration(played.drop_last()) + played.last().1) as nat
    }
}

/// Position in the heartbeat pattern.
#[derive(Clone, Copy, Debug)]
pub struct Heartbeat {
    position: usize,
}

impl Heartbeat {
    #[verifier::type_invariant]
    spec fn in_pattern(self) -> bool {
        self.position < HEARTBEAT_STEPS
    }

    /// Index of the step that is played next.
    pub closed spec fn spec_position(self) -> nat {
        self.position as nat
    }

    /// A heartbeat at the start of the pattern.
    pub fn new() -> (heartbeat: Heartbeat)
        ensures
            heartbeat.spec_position() == 0,
    {
        Heartbeat { position: 0 }
    }

    /// Index of the step that is played next.
    pub fn position(&self) -> (position: usize)
        ensures
            position == self.spec_position(),
            position < HEARTBEAT_STEPS,
    {
        proof {
            use_type_invariant(self);
        }
        self.position
    }

    /// The level to set now and the milliseconds to hold it; moves on to the
    /// next step, and from the last step back to the first.
    pub fn next(&mut self) -> (step: (Level, u64))
        ensures
            step == spec_step_after(old(self).spec_position(), 0),
            final(self).spec_position() == (old(self).spec_position() + 1)
                % HEARTBEAT_STEPS as nat,
    {
        proof {
            use_type_invariant(&*self);
        }
        let pattern = heartbeat_pattern();
        let step = pattern[self.position];
        self.position = if self.position + 1 == HEARTBEAT_STEPS {
            0
        } else {
            self.position + 1
        };
        step
    }
}

/// What one more step adds to the duration.
proof fn lemma_duration_of_one_more(played: Seq<(Level, u64)>, step: (Level, u64))
    ensures
        spec_duration(played.push(step)) == spec_duration(played) + step.1,
{
    let longer = played.push(step);
    assert(longer.drop_last() =~= played);
    assert(longer.last() == step);
}

/// One round from the start plays exactly the pattern, each level with its
/// duration, and takes a second.
pub proof fn lemma_round_plays_pattern()
    ensures
        spec_played(0, HEARTBEAT_STEPS as nat) == spec_heartbeat_pattern(),
        spec_duration(spec_played(0, HEARTBEAT_STEPS as nat)) == HEARTBEAT_PERIOD_MS,
{
    let first = (Level::High, 100u64);
    let second = (Level::Low, 100u64);
    let third = (Level::High, 100u64);
    let fourth = (Level::Low, 700u64);
    let none = Seq::<(Level, u64)>::empty();
    assert(spec_played(0, HEARTBEAT_STEPS as nat) =~= spec_heartbeat_pattern());
    assert(spec_heartbeat_pattern() =~= none.push(first).push(second).push(third).push(fourth));
    lemma_duration_of_one_more(none, first);
    lemma_duration_of_one_more(none.push(first), second);
    lemma_duration_of_one_more(none.push(first).push(second), third);
    lemma_duration_of_one_more(none.push(first).push(second).push(third), fourth);
}

/// The pattern repeats: a whole round later the same step is played again.
pub proof fn lemma_pattern_repeats(position: nat, steps: nat)
    ensures
        spec_step_after(position, steps + HEARTBEAT_STEPS as nat) == spec_step_after(
            position,
            steps,
        ),
{
    let now = position + steps;
    assert((now + 4) % 4 == now % 4);
}

/// Toggling the output at the end of a step already shows the level of the
/// step that follows, so the level changes only where the pattern says so.
pub proof fn lemma_toggle_leads_to_next_level(position: nat)
    ensures
        spec_step_after(position, 0).0.spec_toggled() == spec_step_after(position, 1).0,
{
    let here = position % 4;
    let next = (position + 1) % 4;
    assert(next == if here == 3 {
        0
    } else {
        here + 1
    });
}

} // verus!
