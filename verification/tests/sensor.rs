use weather_station::clock::{unix_epoch, Clock, ClockError, WallClockTime};
use weather_station::queue::ReadingQueue;
use weather_station::sensor::{
    fallback_reading, sample, timestamped, Sample, Sampler, SamplerAction, SamplerEvent,
    SamplerState, Seeds, SensorError, SensorReading, HUMIDITY_MAX, HUMIDITY_MIN, PRESSURE_MAX,
    PRESSURE_MIN, TEMPERATURE_MAX, TEMPERATURE_MIN, WAIT_INTERVAL_MS, WARMUP_INTERVAL_MS,
};

fn seeds(temperature: u32, humidity: u32, pressure: u32) -> Seeds {
    Seeds { temperature, humidity, pressure }
}

fn at(unix_timestamp: i64) -> WallClockTime {
    WallClockTime { unix_timestamp, offset_seconds: 46_800 }
}

fn in_ranges(sample: &Sample) -> bool {
    (TEMPERATURE_MIN..=TEMPERATURE_MAX).contains(&sample.temperature)
        && (HUMIDITY_MIN..=HUMIDITY_MAX).contains(&sample.humidity)
        && (PRESSURE_MIN..=PRESSURE_MAX).contains(&sample.pressure)
}

#[test]
fn generation_ranges_are_those_of_the_station() {
    assert_eq!((TEMPERATURE_MIN, TEMPERATURE_MAX), (1_500, 3_000));
    assert_eq!((HUMIDITY_MIN, HUMIDITY_MAX), (2_000, 8_000));
    assert_eq!((PRESSURE_MIN, PRESSURE_MAX), (99_000, 101_000));
}

#[test]
fn random_sample_at_the_ends_of_the_ranges() {
    assert_eq!(
        Sample::random(seeds(0, 0, 0)),
        Sample { temperature: 1_500, humidity: 2_000, pressure: 99_000 }
    );
    assert_eq!(
        Sample::random(seeds(u32::MAX, u32::MAX, u32::MAX)),
        Sample { temperature: 3_000, humidity: 8_000, pressure: 101_000 }
    );
}

#[test]
fn random_sample_in_the_middle_of_the_ranges() {
    assert_eq!(
        Sample::random(seeds(1 << 31, 1 << 31, 1 << 31)),
        Sample { temperature: 2_250, humidity: 5_000, pressure: 100_000 }
    );
    assert_eq!(
        Sample::random(seeds((1 << 31) - 1, (1 << 31) - 1, (1 << 31) - 1)),
        Sample { temperature: 2_249, humidity: 4_999, pressure: 99_999 }
    );
}

#[test]
fn random_sample_uses_each_seed_for_its_own_value() {
    assert_eq!(
        Sample::random(seeds(u32::MAX, 0, 1 << 31)),
        Sample { temperature: 3_000, humidity: 2_000, pressure: 100_000 }
    );
    assert_eq!(Sample::random(seeds(1, 1, 1)), Sample::random(seeds(0, 0, 0)));
}

#[test]
fn random_samples_stay_in_the_ranges() {
    let mut seed: u32 = 12_345;
    for _ in 0..1_000 {
        let mut draw = [0u32; 3];
        for value in draw.iter_mut() {
            seed = seed.wrapping_mul(1_664_525).wrapping_add(1_013_904_223);
            *value = seed;
        }
        assert!(in_ranges(&Sample::random(seeds(draw[0], draw[1], draw[2]))));
    }
}

#[test]
fn sample_from_a_tuple_and_by_default() {
    assert_eq!(
        Sample::from((2_150, 4_500, 100_300)),
        Sample { temperature: 2_150, humidity: 4_500, pressure: 100_300 }
    );
    assert_eq!(Sample::default(), Sample { temperature: 0, humidity: 0, pressure: 0 });
}

#[test]
fn timestamped_pairs_time_and_sample() {
    let measured = Sample { temperature: 2_150, humidity: 4_500, pressure: 100_300 };
    assert_eq!(timestamped(Ok(measured), Ok(at(1_000))), Ok((at(1_000), measured)));
}

#[test]
fn timestamped_fails_without_sample_or_time() {
    let measured = Sample { temperature: 2_150, humidity: 4_500, pressure: 100_300 };
    assert_eq!(
        timestamped(Err(SensorError::Sample), Ok(at(1_000))),
        Err(SensorError::Sample)
    );
    assert_eq!(
        timestamped(Ok(measured), Err(ClockError::OutOfRange)),
        Err(SensorError::Sample)
    );
    assert_eq!(
        timestamped(Ok(measured), Err(ClockError::InvalidOffset)),
        Err(SensorError::Sample)
    );
    assert_eq!(
        timestamped(Err(SensorError::Send), Err(ClockError::OutOfRange)),
        Err(SensorError::Sample)
    );
}

#[test]
fn sample_takes_the_time_of_the_clock() {
    let clock = Clock::new(1_700_000_000);
    let (time, taken) = sample(seeds(0, u32::MAX, 1 << 31), &clock).unwrap();
    assert!(time.unix_timestamp >= 1_700_000_000);
    assert_eq!(time.offset_seconds, 46_800);
    assert_eq!(taken, Sample { temperature: 1_500, humidity: 8_000, pressure: 100_000 });
}

#[test]
fn sample_fails_with_a_clock_out_of_range() {
    let clock = Clock::new(u64::MAX);
    assert_eq!(sample(seeds(1, 2, 3), &clock), Err(SensorError::Sample));
}

#[test]
fn fallback_reading_is_synthetic_at_the_epoch() {
    let reading = fallback_reading(seeds(u32::MAX, 0, 1 << 31));
    assert_eq!(reading.0, WallClockTime { unix_timestamp: 0, offset_seconds: 0 });
    assert_eq!(reading.0, unix_epoch());
    assert_eq!(reading.1, Sample { temperature: 3_000, humidity: 2_000, pressure: 100_000 });
}

#[test]
fn sampler_warms_up_before_the_first_sample() {
    let mut sampler = Sampler::new();
    assert_eq!(sampler.state, SamplerState::Warmup);
    assert_eq!(sampler.action(), SamplerAction::Wait(10));
    assert_eq!(WARMUP_INTERVAL_MS, 10);
    assert_eq!(sampler.step(SamplerEvent::TimerElapsed), None);
    assert_eq!(sampler.action(), SamplerAction::Sample);
}

#[test]
fn healthy_cycle_sends_the_reading_and_waits() {
    let reading: SensorReading =
        (at(1_000), Sample { temperature: 2_150, humidity: 4_500, pressure: 100_300 });
    let mut sampler = Sampler { state: SamplerState::Sampling };
    assert_eq!(sampler.step(SamplerEvent::Sampled(Ok(reading))), None);
    assert_eq!(sampler.action(), SamplerAction::Send(reading));
    assert_eq!(sampler.step(SamplerEvent::Sent(Ok(()))), None);
    assert_eq!(sampler.action(), SamplerAction::Wait(60_000));
    assert_eq!(WAIT_INTERVAL_MS, 60_000);
    assert_eq!(sampler.step(SamplerEvent::TimerElapsed), None);
    assert_eq!(sampler.action(), SamplerAction::Sample);
}

#[test]
fn failed_sample_is_replaced_by_the_fallback() {
    let mut sampler = Sampler { state: SamplerState::Sampling };
    assert_eq!(
        sampler.step(SamplerEvent::Sampled(Err(SensorError::Sample))),
        Some(SensorError::Sample)
    );
    assert_eq!(sampler.action(), SamplerAction::DrawFallback);
    assert_eq!(sampler.step(SamplerEvent::Fallback(seeds(0, u32::MAX, 0))), None);
    let expected: SensorReading =
        (unix_epoch(), Sample { temperature: 1_500, humidity: 8_000, pressure: 99_000 });
    assert_eq!(sampler.action(), SamplerAction::Send(expected));
}

#[test]
fn failed_send_is_reported_and_the_cycle_goes_on() {
    let reading: SensorReading =
        (at(1_000), Sample { temperature: 2_150, humidity: 4_500, pressure: 100_300 });
    let mut sampler = Sampler { state: SamplerState::Sending(reading) };
    assert_eq!(
        sampler.step(SamplerEvent::Sent(Err(SensorError::Send))),
        Some(SensorError::Send)
    );
    assert_eq!(sampler.state, SamplerState::Waiting);
    assert_eq!(sampler.step(SamplerEvent::TimerElapsed), None);
    assert_eq!(sampler.state, SamplerState::Sampling);
}

#[test]
fn sampler_ignores_unexpected_events() {
    let reading: SensorReading =
        (at(1_000), Sample { temperature: 2_150, humidity: 4_500, pressure: 100_300 });
    let mut sampler = Sampler::new();
    assert_eq!(sampler.step(SamplerEvent::Sampled(Ok(reading))), None);
    assert_eq!(sampler.step(SamplerEvent::Sent(Err(SensorError::Send))), None);
    assert_eq!(sampler.step(SamplerEvent::Fallback(seeds(1, 2, 3))), None);
    assert_eq!(sampler.state, SamplerState::Warmup);
    let mut sampler = Sampler { state: SamplerState::Sending(reading) };
    assert_eq!(sampler.step(SamplerEvent::TimerElapsed), None);
    assert_eq!(sampler.state, SamplerState::Sending(reading));
}

#[test]
fn failing_sensor_still_enqueues_one_reading_per_period() {
    let mut sampler = Sampler::new();
    let mut queue = ReadingQueue::new();
    assert_eq!(sampler.step(SamplerEvent::TimerElapsed), None);
    let mut seed: u32 = 7;
    for period in 0..5 {
        assert_eq!(sampler.action(), SamplerAction::Sample);
        assert_eq!(
            sampler.step(SamplerEvent::Sampled(Err(SensorError::Sample))),
            Some(SensorError::Sample)
        );
        seed = seed.wrapping_mul(1_664_525).wrapping_add(1_013_904_223);
        assert_eq!(sampler.step(SamplerEvent::Fallback(seeds(seed, !seed, seed / 2))), None);
        assert!(sampler.send(&mut queue));
        assert_eq!(queue.len(), 1, "period {period}");
        let (time, synthetic) = queue.try_receive().unwrap();
        assert_eq!(time, unix_epoch());
        assert!(in_ranges(&synthetic));
        assert_eq!(synthetic, Sample::random(seeds(seed, !seed, seed / 2)));
        assert_eq!(sampler.action(), SamplerAction::Wait(WAIT_INTERVAL_MS));
        assert_eq!(sampler.step(SamplerEvent::TimerElapsed), None);
    }
}

#[test]
fn sampler_waits_while_the_queue_is_full() {
    let mut queue = ReadingQueue::new();
    let mut sampler = Sampler { state: SamplerState::Sampling };
    for n in 0..3 {
        let reading: SensorReading = (at(n), Sample::random(seeds(0, 0, 0)));
        assert_eq!(sampler.step(SamplerEvent::Sampled(Ok(reading))), None);
        assert!(sampler.send(&mut queue));
        assert_eq!(sampler.step(SamplerEvent::TimerElapsed), None);
    }
    let blocked: SensorReading = (at(3), Sample::random(seeds(0, 0, 0)));
    assert_eq!(sampler.step(SamplerEvent::Sampled(Ok(blocked))), None);
    assert!(!sampler.send(&mut queue));
    assert!(!sampler.send(&mut queue));
    assert_eq!(sampler.state, SamplerState::Sending(blocked));
    assert_eq!(queue.len(), 3);
    assert_eq!(queue.try_receive().unwrap().0, at(0));
    assert!(sampler.send(&mut queue));
    assert_eq!(sampler.state, SamplerState::Waiting);
    assert_eq!(queue.len(), 3);
}

#[test]
fn send_without_a_reading_does_nothing() {
    let mut queue = ReadingQueue::new();
    let mut sampler = Sampler::new();
    assert!(!sampler.send(&mut queue));
    assert_eq!(sampler.state, SamplerState::Warmup);
    assert!(queue.is_empty());
}
