//! Telemetry pipeline of a small weather station: a boot-relative clock,
//! a periodic sampler with fallback readings, a bounded hand-off queue,
//! a display consumer, a button debouncer and a heartbeat pattern.
//!
//! Every task is written as a step function from state and event to the
//! next state and the action to perform, so that the part that waits on
//! timers, pins and buses stays outside and the decisions are proved here.

pub mod blink;
pub mod button;
pub mod clock;
pub mod display;
pub mod pipeline;
pub mod queue;
pub mod sensor;
