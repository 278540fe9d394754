//! The sampler and the display consumer at the two ends of the queue, taking
//! turns as cooperative tasks do.

use crate::queue::{spec_receive, spec_send, CAPACITY};
use crate::sensor::SensorReading;
use vstd::prelude::*;

verus! {

/// The task that runs until it next has to wait.
#[derive(Clone, Copy, Debug, PartialEq, Eq, Structural)]
pub enum Turn {
    /// The sampler offers its oldest reading to the queue.
    Sampler,
    /// The display consumer asks the queue for a reading.
    Renderer,
}

/// Where the readings of a run are.
pub struct Pipeline {
    /// Produced by the sampler and not yet in the queue, oldest first.
    pub backlog: Seq<SensorReading>,
    /// In the queue, oldest first.
    pub waiting: Seq<SensorReading>,
    /// Taken by the display consumer, oldest first.
    pub observed: Seq<SensorReading>,
}

/// The pipeline after one task had its turn. A sampler that finds the queue
/// full keeps its reading and waits; a consumer that finds it empty waits.
pub open spec fn spec_turn(before: Pipeline, turn: Turn) -> Pipeline {
    match turn {
        Turn::Sampler => if before.backlog.len() > 0 && before.waiting.len() < CAPACITY {
            Pipeline {
                backlog: before.backlog.drop_first(),
                waiting: spec_send(before.waiting, before.backlog.first()),
                observed: before.observed,
            }
        } else {
            before
        },
        Turn::Renderer => Pipeline {
            backlog: before.backlog,
            waiting: spec_receive(before.waiting),
            observed: if before.waiting.len() > 0 {
                before.observed.push(before.waiting.first())
            } else {
                before.observed
            },
        },
    }
}

/// The pipeline after the sampler produced `produced` and the tasks took
/// turns as `schedule` says.
pub open spec fn spec_run(produced: Seq<SensorReading>, schedule: Seq<Turn>) -> Pipeline
    decreases schedule.len(),
{
    if schedule.len() == 0 {
        Pipeline { backlog: produced, waiting: Seq::empty(), observed: Seq::empty() }
    } else {
        spec_turn(spec_run(produced, schedule.drop_last()), schedule.last())
    }
}

/// The schedule in which the sampler and the consumer alternate for
/// `rounds` rounds.
pub open spec fn spec_alternating(rounds: nat) -> Seq<Turn>
    decreases rounds,
{
    if rounds == 0 {
        Seq::empty()
    } else {
        spec_alternating((rounds - 1) as nat).push(Turn::Sampler).push(Turn::Renderer)
    }
}

/// Whatever the sampler produces and however the tasks take turns, the
/// consumer sees the readings in the exact order in which they were
/// produced: what it has seen, what waits in the queue and what the sampler
/// still holds back make up the produced readings, in that order. The queue
/// never holds more than its capacity.
pub proof fn lemma_readings_arrive_in_order(produced: Seq<SensorReading>, schedule: Seq<Turn>)
    ensures
        spec_run(produced, schedule).observed + spec_run(produced, schedule).waiting + spec_run(
            produced,
            schedule,
        ).backlog == produced,
        spec_run(produced, schedule).waiting.len() <= CAPACITY,
    decreases schedule.len(),
{
    if schedule.len() == 0 {
        let start = spec_run(produced, schedule);
        assert(start.observed + start.waiting + start.backlog =~= produced);
    } else {
        lemma_readings_arrive_in_order(produced, schedule.drop_last());
        let before = spec_run(produced, schedule.drop_last());
        let after = spec_run(produced, schedule);
        assert(after.observed + after.waiting + after.backlog =~= before.observed + before.waiting
            + before.backlog);
    }
}

/// Where the two tasks alternate, each reading is seen in the round in
/// which it was produced: after as many rounds as there are readings the
/// consumer has seen them all, and nothing waits.
pub proof fn lemma_every_reading_arrives(produced: Seq<SensorReading>, rounds: nat)
    requires
        rounds <= produced.len(),
    ensures
        spec_run(produced, spec_alternating(rounds)).observed == produced.take(rounds as int),
        spec_run(produced, spec_alternating(rounds)).waiting == Seq::<SensorReading>::empty(),
        spec_run(produced, spec_alternating(rounds)).backlog == produced.skip(rounds as int),
    decreases rounds,
{
    if rounds == 0 {
        let start = spec_run(produced, spec_alternating(0));
        assert(start.observed =~= produced.take(0));
        assert(start.backlog =~= produced.skip(0));
    } else {
        let earlier = spec_alternating((rounds - 1) as nat);
        lemma_every_reading_arrives(produced, (rounds - 1) as nat);
        let offered = earlier.push(Turn::Sampler);
        let schedule = offered.push(Turn::Renderer);
        assert(offered.drop_last() =~= earlier);
        assert(schedule.drop_last() =~= offered);
        let before = spec_run(produced, earlier);
        let between = spec_run(produced, offered);
        let after = spec_run(produced, schedule);
        assert(between == spec_turn(before, Turn::Sampler));
        assert(after == spec_turn(between, Turn::Renderer));
        assert(between.waiting =~= seq![produced[rounds - 1]]);
        assert(after.observed =~= produced.take(rounds as int));
        assert(after.waiting =~= Seq::<SensorReading>::empty());
        assert(after.backlog =~= produced.skip(rounds as int));
    }
}

} // verus!
