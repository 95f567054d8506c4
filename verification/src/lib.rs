//! A fixed-tick scheduler and the calendar clock it drives.
//!
//! * [`tick_engine`] holds the tick scheduler: a target rate in ticks per second,
//!   the fixed timestep derived from it, and the rate that was actually measured.
//!   [`tick_engine_laws`] proves what holds of it whatever it is asked.
//! * [`simulation`] holds the calendar clock: an hour / day / month / year
//!   odometer that moves by exactly one tick per call.
//! * [`calendar`] is the mathematical model of that odometer, and
//!   [`calendar_laws`] proves what holds of it after any number of ticks.
//! * [`ratio`] is the exact fraction in which durations and rates are kept.

pub mod calendar;
pub mod calendar_laws;
pub mod ratio;
pub mod simulation;
pub mod tick_engine;
pub mod tick_engine_laws;
