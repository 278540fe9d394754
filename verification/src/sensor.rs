//! Samples, timestamped readings and the periodic sampler.

use crate::clock::{unix_epoch, Clock, ClockError, WallClockTime, MAX_UPTIME_SECONDS};
use crate::queue::{spec_send, ReadingQueue, CAPACITY};
use vstd::prelude::*;

verus! {

/// Lowest temperature that is generated, in hundredths of a degree Celsius.
pub const TEMPERATURE_MIN: i32 = 1_500;

/// Highest temperature that is generated, in hundredths of a degree Celsius.
pub const TEMPERATURE_MAX: i32 = 3_000;

/// Lowest humidity that is generated, in hundredths of a percent.
pub const HUMIDITY_MIN: u32 = 2_000;

/// Highest humidity that is generated, in hundredths of a percent.
pub const HUMIDITY_MAX: u32 = 8_000;

/// Lowest pressure that is generated, in pascal.
pub const PRESSURE_MIN: u32 = 99_000;

/// Highest pressure that is generated, in pascal.
pub const PRESSURE_MAX: u32 = 101_000;

/// Interval to wait for sensor warmup, in milliseconds.
pub const WARMUP_INTERVAL_MS: u64 = 10;

/// Interval between two samples, in milliseconds.
pub const WAIT_INTERVAL_MS: u64 = 60_000;

/// Three random numbers, one for each value of a synthetic sample.
#[derive(Clone, Copy, Debug, PartialEq, Eq, Structural)]
pub struct Seeds {
    /// Picks the temperature.
    pub temperature: u32,
    /// Picks the humidity.
    pub humidity: u32,
    /// Picks the pressure.
    pub pressure: u32,
}

/// A sample, in fixed point with two decimal places.
#[derive(Clone, Copy, Debug, PartialEq, Eq, Structural)]
pub struct Sample {
    /// Temperature in hundredths of a degree Celsius.
    pub temperature: i32,
    /// Relative humidity in hundredths of a percent.
    pub humidity: u32,
    /// Pressure in pascal, that is in hundredths of a hectopascal.
    pub pressure: u32,
}

/// The point between `low` and `high` that lies as far along as `seed` lies
/// between zero and the largest seed, rounded down.
pub open spec fn spec_scale(seed: u32, low: int, high: int) -> int {
    low + seed * (high - low) / (u32::MAX as int)
}

/// The point between `low` and `high` that lies as far along as `seed` lies
/// between zero and the largest seed, rounded down.
fn scale(seed: u32, low: u32, high: u32) -> (value: u32)
    requires
        low <= high <= 1_000_000,
    ensures
        value == spec_scale(seed, low as int, high as int),
        low <= value <= high,
        seed == 0 ==> value == low,
        seed == u32::MAX ==> value == high,
{
    let span: u64 = (high - low) as u64;
    proof {
        lemma_share_within_span(seed as int, span as int);
    }
    let along: u64 = seed as u64 * span / u32::MAX as u64;
    low + along as u32
}

/// A share of `span` in proportion to a seed is no more than `span`, nothing
/// for the seed zero and all of it for the largest seed.
proof fn lemma_share_within_span(seed: int, span: int)
    requires
        0 <= seed <= u32::MAX,
        0 <= span <= 1_000_000,
    ensures
        0 <= seed * span <= u32::MAX * 1_000_000,
        0 <= seed * span / (u32::MAX as int) <= span,
        seed == 0 ==> seed * span / (u32::MAX as int) == 0,
        seed == u32::MAX ==> seed * span / (u32::MAX as int) == span,
{
    let max = u32::MAX as int;
    assert(0 <= seed * span <= max * span) by (nonlinear_arith)
        requires
            0 <= seed <= max,
            0 <= span,
    ;
    assert(max * span <= max * 1_000_000) by (nonlinear_arith)
        requires
            0 <= span <= 1_000_000,
            0 <= max,
    ;
    assert(max * span / max == span) by (nonlinear_arith)
        requires
            max > 0,
    ;
    assert(0 <= seed * span / max <= max * span / max) by (nonlinear_arith)
        requires
            0 <= seed * span <= max * span,
            max > 0,
    ;
}

impl Sample {
    /// The sample that three seeds generate.
    pub open spec fn spec_random(seeds: Seeds) -> Sample {
        Sample {
            temperature: spec_scale(
                seeds.temperature,
                TEMPERATURE_MIN as int,
                TEMPERATURE_MAX as int,
            ) as i32,
            humidity: spec_scale(seeds.humidity, HUMIDITY_MIN as int, HUMIDITY_MAX as int) as u32,
            pressure: spec_scale(seeds.pressure, PRESSURE_MIN as int, PRESSURE_MAX as int) as u32,
        }
    }

    /// Each value lies in the range from which samples are generated.
    pub open spec fn in_generation_ranges(self) -> bool {
        &&& TEMPERATURE_MIN <= self.temperature <= TEMPERATURE_MAX
        &&& HUMIDITY_MIN <= self.humidity <= HUMIDITY_MAX
        &&& PRESSURE_MIN <= self.pressure <= PRESSURE_MAX
    }

    /// A synthetic sample: each seed picks a point of its range, the seed
    /// zero the lowest and the largest seed the highest.
    pub fn random(seeds: Seeds) -> (sample: Sample)
        ensures
            sample == Sample::spec_random(seeds),
            sample.in_generation_ranges(),
    {
        let temperature = scale(seeds.temperature, TEMPERATURE_MIN as u32, TEMPERATURE_MAX as u32);
        let humidity = scale(seeds.humidity, HUMIDITY_MIN, HUMIDITY_MAX);
        let pressure = scale(seeds.pressure, PRESSURE_MIN, PRESSURE_MAX);
        Sample::from((temperature as i32, humidity, pressure))
    }
}

impl From<(i32, u32, u32)> for Sample {
    /// The sample of a temperature, a humidity and a pressure, in this order.
    fn from(values: (i32, u32, u32)) -> (sample: Sample) {
        let (temperature, humidity, pressure) = values;
        Sample { temperature, humidity, pressure }
    }
}

impl vstd::std_specs::convert::FromSpecImpl<(i32, u32, u32)> for Sample {
    open spec fn obeys_from_spec() -> bool {
        true
    }

    open spec fn from_spec(values: (i32, u32, u32)) -> Sample {
        Sample { temperature: values.0, humidity: values.1, pressure: values.2 }
    }
}

impl Default for Sample {
    fn default() -> (sample: Sample)
        ensures
            sample == (Sample { temperature: 0, humidity: 0, pressure: 0 }),
    {
        Sample { temperature: 0, humidity: 0, pressure: 0 }
    }
}

/// A sensor reading, i.e. a tuple (time, sample).
pub type SensorReading = (WallClockTime, Sample);

/// Error within sensor sampling.
#[derive(Clone, Copy, Debug, PartialEq, Eq, Structural)]
pub enum SensorError {
    /// Error sampling the sensor.
    Sample,
    /// Error sending the sample.
    Send,
}

/// A sample with the time at which it was taken, where both were had.
pub open spec fn spec_timestamped(
    measurement: Result<Sample, SensorError>,
    now: Result<WallClockTime, ClockError>,
) -> Result<SensorReading, SensorError> {
    match (measurement, now) {
        (Ok(sample), Ok(time)) => Ok((time, sample)),
        _ => Err(SensorError::Sample),
    }
}

/// The reading that stands in where none could be taken: a synthetic
/// sample at the Unix epoch.
pub open spec fn spec_fallback_reading(seeds: Seeds) -> SensorReading {
    (unix_epoch(), Sample::spec_random(seeds))
}

/// A sample with the time at which it was taken. Where the sensor or the
/// clock failed there is no reading, and the error says that sampling
/// failed.
pub fn timestamped(
    measurement: Result<Sample, SensorError>,
    now: Result<WallClockTime, ClockError>,
) -> (r: Result<SensorReading, SensorError>)
    ensures
        r == spec_timestamped(measurement, now),
{
    match (measurement, now) {
        (Ok(sample), Ok(time)) => Ok((time, sample)),
        _ => Err(SensorError::Sample),
    }
}

/// A synthetic sample with the current time of `clock`.
pub fn sample(seeds: Seeds, clock: &Clock) -> (r: Result<SensorReading, SensorError>)
    ensures
        exists|elapsed: nat|
            elapsed <= MAX_UPTIME_SECONDS && r == spec_timestamped(
                Ok(Sample::spec_random(seeds)),
                #[trigger] clock.spec_time_after(elapsed),
            ),
        r matches Ok(reading) ==> reading.0.wf() && reading.1.in_generation_ranges(),
{
    let sample = Sample::random(seeds);
    let now = clock.now();
    timestamped(Ok(sample), now)
}

/// The reading that stands in where none could be taken: a synthetic
/// sample at the Unix epoch.
pub fn fallback_reading(seeds: Seeds) -> (reading: SensorReading)
    ensures
        reading == spec_fallback_reading(seeds),
        reading.0 == unix_epoch(),
        reading.1.in_generation_ranges(),
{
    (unix_epoch(), Sample::random(seeds))
}

/// Where the sampler stands within its cycle.
#[derive(Clone, Copy, Debug, PartialEq, Eq)]
pub enum SamplerState {
    /// Waiting for the sensors to settle after start.
    Warmup,
    /// A sample is being taken.
    Sampling,
    /// Sampling failed; seeds for a synthetic sample are being drawn.
    Recovering,
    /// The reading is on its way into the queue.
    Sending(SensorReading),
    /// Waiting for the next sample to fall due.
    Waiting,
}

/// What the sampler is told.
#[derive(Clone, Copy, Debug, PartialEq, Eq)]
pub enum SamplerEvent {
    /// The interval waited for is over.
    TimerElapsed,
    /// A sample was taken, or could not be.
    Sampled(Result<SensorReading, SensorError>),
    /// Seeds for a synthetic sample were drawn.
    Fallback(Seeds),
    /// The reading is in the queue, or the queue is gone.
    Sent(Result<(), SensorError>),
}

/// What the sampler does next.
#[derive(Clone, Copy, Debug, PartialEq, Eq)]
pub enum SamplerAction {
    /// Wait this many milliseconds.
    Wait(u64),
    /// Take a sample and the time.
    Sample,
    /// Draw seeds for a synthetic sample.
    DrawFallback,
    /// Put this reading into the queue, waiting for room if it is full.
    Send(SensorReading),
}

/// The state after `event`, and the error to report, if the event brought
/// one. An event that the state does not wait for changes nothing.
pub open spec fn spec_step(state: SamplerState, event: SamplerEvent) -> (
    SamplerState,
    Option<SensorError>,
) {
    match (state, event) {
        (SamplerState::Warmup, SamplerEvent::TimerElapsed) => (SamplerState::Sampling, None),
        (SamplerState::Sampling, SamplerEvent::Sampled(Ok(reading))) => (
            SamplerState::Sending(reading),
            None,
        ),
        (SamplerState::Sampling, SamplerEvent::Sampled(Err(error))) => (
            SamplerState::Recovering,
            Some(error),
        ),
        (SamplerState::Recovering, SamplerEvent::Fallback(seeds)) => (
            SamplerState::Sending(spec_fallback_reading(seeds)),
            None,
        ),
        (SamplerState::Sending(_), SamplerEvent::Sent(Ok(()))) => (SamplerState::Waiting, None),
        (SamplerState::Sending(_), SamplerEvent::Sent(Err(error))) => (
            SamplerState::Waiting,
            Some(error),
        ),
        (SamplerState::Waiting, SamplerEvent::TimerElapsed) => (SamplerState::Sampling, None),
        _ => (state, None),
    }
}

/// What to do in `state`.
pub open spec fn spec_action(state: SamplerState) -> SamplerAction {
    match state {
        SamplerState::Warmup => SamplerAction::Wait(WARMUP_INTERVAL_MS),
        SamplerState::Sampling => SamplerAction::Sample,
        SamplerState::Recovering => SamplerAction::DrawFallback,
        SamplerState::Sending(reading) => SamplerAction::Send(reading),
        SamplerState::Waiting => SamplerAction::Wait(WAIT_INTERVAL_MS),
    }
}

/// The periodic producer of readings.
#[derive(Clone, Copy, Debug)]
pub struct Sampler {
    /// Where the sampler stands.
    pub state: SamplerState,
}

impl Sampler {
    /// A sampler that has just started and lets the sensors settle.
    pub fn new() -> (sampler: Sampler)
        ensures
            sampler.state == SamplerState::Warmup,
    {
        Sampler { state: SamplerState::Warmup }
    }

    /// What to do now.
    pub fn action(&self) -> (action: SamplerAction)
        ensures
            action == spec_action(self.state),
    {
        match self.state {
            SamplerState::Warmup => SamplerAction::Wait(WARMUP_INTERVAL_MS),
            SamplerState::Sampling => SamplerAction::Sample,
            SamplerState::Recovering => SamplerAction::DrawFallback,
            SamplerState::Sending(reading) => SamplerAction::Send(reading),
            SamplerState::Waiting => SamplerAction::Wait(WAIT_INTERVAL_MS),
        }
    }

    /// Takes the outcome of the last action and moves on. Returns the error
    /// to report, if the outcome was one: a failed sample is replaced by a
    /// synthetic one at the Unix epoch, and a failed send is dropped; either
    /// way the cycle goes on.
    pub fn step(&mut self, event: SamplerEvent) -> (fault: Option<SensorError>)
        ensures
            (final(self).state, fault) == spec_step(old(self).state, event),
    {
        match (self.state, event) {
            (SamplerState::Warmup, SamplerEvent::TimerElapsed) => {
                self.state = SamplerState::Sampling;
                None
            },
            (SamplerState::Sampling, SamplerEvent::Sampled(Ok(reading))) => {
                self.state = SamplerState::Sending(reading);
                None
            },
            (SamplerState::Sampling, SamplerEvent::Sampled(Err(error))) => {
                self.state = SamplerState::Recovering;
                Some(error)
            },
            (SamplerState::Recovering, SamplerEvent::Fallback(seeds)) => {
                self.state = SamplerState::Sending(fallback_reading(seeds));
                None
            },
            (SamplerState::Sending(_), SamplerEvent::Sent(Ok(()))) => {
                self.state = SamplerState::Waiting;
                None
            },
            (SamplerState::Sending(_), SamplerEvent::Sent(Err(error))) => {
                self.state = SamplerState::Waiting;
                Some(error)
            },
            (SamplerState::Waiting, SamplerEvent::TimerElapsed) => {
                self.state = SamplerState::Sampling;
                None
            },
            _ => None,
        }
    }

    /// Offers the reading that is on its way to `queue`. With room in the
    /// queue the reading joins it and the sampler moves on to wait for the
    /// next sample. With a full queue, or with no reading on its way,
    /// nothing changes: the sampler offers again after a reading has left.
    pub fn send(&mut self, queue: &mut ReadingQueue) -> (sent: bool)
        ensures
            sent == (old(self).state is Sending && old(queue)@.len() < CAPACITY),
            final(queue)@ == match old(self).state {
                SamplerState::Sending(reading) => spec_send(old(queue)@, reading),
                _ => old(queue)@,
            },
            final(self).state == if sent {
                spec_step(old(self).state, SamplerEvent::Sent(Ok(()))).0
            } else {
                old(self).state
            },
    {
        match self.state {
            SamplerState::Sending(reading) => match queue.try_send(reading) {
                Ok(()) => {
                    self.step(SamplerEvent::Sent(Ok(())));
                    true
                },
                Err(_) => false,
            },
            _ => false,
        }
    }
}

/// The state after all of `events`, in order.
pub open spec fn spec_state_after(state: SamplerState, events: Seq<SamplerEvent>) -> SamplerState
    decreases events.len(),
{
    if events.len() == 0 {
        state
    } else {
        spec_step(spec_state_after(state, events.drop_last()), events.last()).0
    }
}

/// The errors that are reported while `events` are taken, in order.
pub open spec fn spec_faults(state: SamplerState, events: Seq<SamplerEvent>) -> Seq<SensorError>
    decreases events.len(),
{
    if events.len() == 0 {
        Seq::empty()
    } else {
        let before = events.drop_last();
        match spec_step(spec_state_after(state, before), events.last()).1 {
            Some(error) => spec_faults(state, before).push(error),
            None => spec_faults(state, before),
        }
    }
}

/// The readings that enter the queue while `events` are taken, in order.
pub open spec fn spec_enqueued(state: SamplerState, events: Seq<SamplerEvent>) -> Seq<
    SensorReading,
>
    decreases events.len(),
{
    if events.len() == 0 {
        Seq::empty()
    } else {
        let before = events.drop_last();
        match (spec_state_after(state, before), events.last()) {
            (SamplerState::Sending(reading), SamplerEvent::Sent(Ok(()))) => spec_enqueued(
                state,
                before,
            ).push(reading),
            _ => spec_enqueued(state, before),
        }
    }
}

/// What happens in one cycle of the sampler.
pub struct Cycle {
    /// The sample that was taken, or the failure to take one.
    pub outcome: Result<SensorReading, SensorError>,
    /// The seeds that are drawn if sampling failed.
    pub seeds: Seeds,
}

/// The events of one cycle: the sample, after a failure the seeds for a
/// synthetic one, the reading's arrival in the queue, and the end of the
/// wait for the next cycle.
pub open spec fn spec_cycle_events(before: Seq<SamplerEvent>, cycle: Cycle) -> Seq<SamplerEvent> {
    let sampled = before.push(SamplerEvent::Sampled(cycle.outcome));
    let recovered = if cycle.outcome is Err {
        sampled.push(SamplerEvent::Fallback(cycle.seeds))
    } else {
        sampled
    };
    recovered.push(SamplerEvent::Sent(Ok(()))).push(SamplerEvent::TimerElapsed)
}

/// The events of `cycles`, one after another.
pub open spec fn spec_cycles_events(cycles: Seq<Cycle>) -> Seq<SamplerEvent>
    decreases cycles.len(),
{
    if cycles.len() == 0 {
        Seq::empty()
    } else {
        spec_cycle_events(spec_cycles_events(cycles.drop_last()), cycles.last())
    }
}

/// The reading that a cycle puts into the queue: the one that was taken,
/// or after a failure the fallback.
pub open spec fn spec_cycle_reading(cycle: Cycle) -> SensorReading {
    match cycle.outcome {
        Ok(reading) => reading,
        Err(_) => spec_fallback_reading(cycle.seeds),
    }
}

/// What one more event adds to a run.
proof fn lemma_one_more_event(state: SamplerState, events: Seq<SamplerEvent>, event: SamplerEvent)
    ensures
        spec_state_after(state, events.push(event)) == spec_step(
            spec_state_after(state, events),
            event,
        ).0,
        spec_faults(state, events.push(event)) == match spec_step(
            spec_state_after(state, events),
            event,
        ).1 {
            Some(error) => spec_faults(state, events).push(error),
            None => spec_faults(state, events),
        },
        spec_enqueued(state, events.push(event)) == match (spec_state_after(state, events), event) {
            (SamplerState::Sending(reading), SamplerEvent::Sent(Ok(()))) => spec_enqueued(
                state,
                events,
            ).push(reading),
            _ => spec_enqueued(state, events),
        },
{
    let longer = events.push(event);
    assert(longer.drop_last() =~= events);
    assert(longer.last() == event);
}

/// Every synthetic sample lies in the generation ranges, whatever the seeds.
pub proof fn lemma_synthetic_sample_in_ranges(seeds: Seeds)
    ensures
        Sample::spec_random(seeds).in_generation_ranges(),
        spec_fallback_reading(seeds).0 == unix_epoch(),
        spec_fallback_reading(seeds).1.in_generation_ranges(),
{
    lemma_share_within_span(seeds.temperature as int, TEMPERATURE_MAX - TEMPERATURE_MIN);
    lemma_share_within_span(seeds.humidity as int, HUMIDITY_MAX - HUMIDITY_MIN);
    lemma_share_within_span(seeds.pressure as int, PRESSURE_MAX - PRESSURE_MIN);
}

/// Each cycle puts exactly one reading into the queue, whether sampling
/// worked or not, and reports each failure once. A cycle in which sampling
/// failed puts in a synthetic sample within the generation ranges, stamped
/// with the Unix epoch. After any number of cycles the sampler is ready for
/// the next.
pub proof fn lemma_one_reading_per_cycle(cycles: Seq<Cycle>)
    ensures
        spec_state_after(SamplerState::Sampling, spec_cycles_events(cycles))
            == SamplerState::Sampling,
        spec_enqueued(SamplerState::Sampling, spec_cycles_events(cycles)) == cycles.map_values(
            |cycle: Cycle| spec_cycle_reading(cycle),
        ),
        spec_enqueued(SamplerState::Sampling, spec_cycles_events(cycles)).len() == cycles.len(),
        forall|i: int|
            0 <= i < cycles.len() && cycles[i].outcome is Err ==> {
                let reading = #[trigger] spec_enqueued(
                    SamplerState::Sampling,
                    spec_cycles_events(cycles),
                )[i];
                reading.0 == unix_epoch() && reading.1.in_generation_ranges()
            },
        spec_faults(SamplerState::Sampling, spec_cycles_events(cycles)) == cycles.filter(
            |cycle: Cycle| cycle.outcome is Err,
        ).map_values(|cycle: Cycle| cycle.outcome->Err_0),
    decreases cycles.len(),
{
    let start = SamplerState::Sampling;
    let readings = cycles.map_values(|cycle: Cycle| spec_cycle_reading(cycle));
    let failed = |cycle: Cycle| cycle.outcome is Err;
    let error_of = |cycle: Cycle| cycle.outcome->Err_0;
    if cycles.len() == 0 {
        assert(spec_enqueued(start, spec_cycles_events(cycles)) =~= readings);
        assert(cycles.filter(failed) =~= Seq::<Cycle>::empty()) by {
            reveal(Seq::filter);
        }
        assert(spec_faults(start, spec_cycles_events(cycles)) =~= cycles.filter(failed).map_values(
            error_of,
        ));
    } else {
        let earlier = cycles.drop_last();
        let cycle = cycles.last();
        lemma_one_reading_per_cycle(earlier);
        let before = spec_cycles_events(earlier);
        let sampled = before.push(SamplerEvent::Sampled(cycle.outcome));
        lemma_one_more_event(start, before, SamplerEvent::Sampled(cycle.outcome));
        let recovered = if cycle.outcome is Err {
            sampled.push(SamplerEvent::Fallback(cycle.seeds))
        } else {
            sampled
        };
        if cycle.outcome is Err {
            lemma_one_more_event(start, sampled, SamplerEvent::Fallback(cycle.seeds));
        }
        let sent = recovered.push(SamplerEvent::Sent(Ok(())));
        lemma_one_more_event(start, recovered, SamplerEvent::Sent(Ok(())));
        lemma_one_more_event(start, sent, SamplerEvent::TimerElapsed);
        lemma_synthetic_sample_in_ranges(cycle.seeds);
        let enqueued = spec_enqueued(start, spec_cycles_events(cycles));
        assert(enqueued == spec_enqueued(start, before).push(spec_cycle_reading(cycle)));
        assert(enqueued =~= readings);
        assert forall|i: int| 0 <= i < cycles.len() && cycles[i].outcome is Err implies {
            let reading = #[trigger] enqueued[i];
            reading.0 == unix_epoch() && reading.1.in_generation_ranges()
        } by {
            lemma_synthetic_sample_in_ranges(cycles[i].seeds);
        }
        assert(cycles.filter(failed) =~= if failed(cycle) {
            earlier.filter(failed).push(cycle)
        } else {
            earlier.filter(failed)
        }) by {
            reveal(Seq::filter);
        }
        assert(spec_faults(start, spec_cycles_events(cycles)) =~= cycles.filter(failed).map_values(
            error_of,
        ));
    }
}

} // verus!
