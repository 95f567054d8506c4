//! The tick scheduler: a target rate in ticks per second, the fixed timestep
//! that follows from it, and the rate that was measured on the last tick.
//!
//! The target is what the operator asks for; the measured rate is what was
//! observed. The scheduler reports the second and never lets it change the
//! first.

use crate::ratio::Ratio;
use vstd::prelude::*;

verus! {

/// The slowest target rate that the scheduler accepts, in ticks per second.
pub const MIN_TARGET_TPS: i32 = 1;

/// The fastest target rate that the scheduler accepts, in ticks per second.
pub const MAX_TARGET_TPS: i32 = 1_000_000;

/// The target rate of a scheduler that was never told another.
pub const DEFAULT_TARGET_TPS: i32 = 100;

/// The rate lies within the supported bounds.
pub open spec fn rate_is_supported(ticks_per_second: int) -> bool {
    MIN_TARGET_TPS <= ticks_per_second <= MAX_TARGET_TPS
}

/// The timestep, in seconds, of a supported rate: its exact reciprocal.
pub open spec fn timestep_of(ticks_per_second: int) -> Ratio {
    Ratio::unit_over(ticks_per_second as u64)
}

/// A target rate was refused because it lies outside the supported bounds.
#[derive(Clone, Copy, Debug, PartialEq, Eq)]
pub struct InvalidRateError {
    /// The rate that was asked for.
    pub requested: i32,
}

/// The host's reporting accumulators for the tick in flight. The host adds to
/// them as it sees fit; the scheduler clears them when the tick completes.
#[derive(Clone, Copy, Debug, PartialEq, Eq)]
pub struct TickHistory {
    /// Ticks counted in the current reporting window.
    pub tick_counter: u64,
    /// Seconds gone by in the current reporting window.
    pub seconds_elapsed: Ratio,
}

impl TickHistory {
    /// Both accumulators are back at their start.
    pub open spec fn is_cleared(&self) -> bool {
        self.tick_counter == 0 && self.seconds_elapsed == Ratio::zero()
    }
}

impl Default for TickHistory {
    /// Cleared accumulators.
    fn default() -> (history: TickHistory)
        ensures
            history.is_cleared(),
    {
        TickHistory { tick_counter: 0, seconds_elapsed: Ratio { numerator: 0, denominator: 1 } }
    }
}

/// The scheduler as a mathematical object.
pub struct TickEngineModel {
    /// The rate the operator asked for, in ticks per second.
    pub target_tps: int,
    /// The timestep in force, in seconds.
    pub fixed_timestep: Ratio,
    /// The rate observed on the last tick that took measurable time, in ticks
    /// per second.
    pub measured_tps: Ratio,
    /// The rate whose timestep the fixed-update driver was last given.
    pub applied_tps: int,
}

impl TickEngineModel {
    /// What every scheduler keeps true: both rates are supported, the timestep
    /// is the exact reciprocal of the target, and the measured rate is a number.
    pub open spec fn is_consistent(self) -> bool {
        &&& rate_is_supported(self.target_tps)
        &&& rate_is_supported(self.applied_tps)
        &&& self.fixed_timestep == timestep_of(self.target_tps)
        &&& self.measured_tps.is_defined()
    }

    /// The scheduler before anything was asked of it. Its driver is taken to
    /// have been started with the default timestep.
    pub open spec fn initial() -> TickEngineModel {
        TickEngineModel {
            target_tps: DEFAULT_TARGET_TPS as int,
            fixed_timestep: timestep_of(DEFAULT_TARGET_TPS as int),
            measured_tps: Ratio::zero(),
            applied_tps: DEFAULT_TARGET_TPS as int,
        }
    }

    /// The scheduler after it was asked for a new target: target and timestep
    /// change together for a supported rate, and nothing changes for any other.
    pub open spec fn with_target(self, ticks_per_second: int) -> TickEngineModel {
        if rate_is_supported(ticks_per_second) {
            TickEngineModel {
                target_tps: ticks_per_second,
                fixed_timestep: timestep_of(ticks_per_second),
                ..self
            }
        } else {
            self
        }
    }

    /// The scheduler after a tick that took `actual_elapsed` seconds: the
    /// measured rate becomes the reciprocal of a positive duration, and stays
    /// what it was for a duration that is zero or not a number.
    pub open spec fn after_tick(self, actual_elapsed: Ratio) -> TickEngineModel {
        if actual_elapsed.is_positive() {
            TickEngineModel { measured_tps: actual_elapsed.flipped(), ..self }
        } else {
            self
        }
    }

    /// The timestep that the driver has yet to be given: the one in force, when
    /// the target differs from the rate the driver last got.
    pub open spec fn pending_timestep(self) -> Option<Ratio> {
        if self.target_tps != self.applied_tps {
            Some(self.fixed_timestep)
        } else {
            None
        }
    }

    /// The scheduler after the host has looked for a pending timestep: the
    /// driver now has the target's.
    pub open spec fn after_check(self) -> TickEngineModel {
        TickEngineModel { applied_tps: self.target_tps, ..self }
    }
}

/// The tick scheduler.
pub struct TickEnginePlugin {
    target_tps: i32,
    fixed_timestep: Ratio,
    current_tps: Ratio,
    applied_tps: i32,
}

impl View for TickEnginePlugin {
    type V = TickEngineModel;

    closed spec fn view(&self) -> TickEngineModel {
        TickEngineModel {
            target_tps: self.target_tps as int,
            fixed_timestep: self.fixed_timestep,
            measured_tps: self.current_tps,
            applied_tps: self.applied_tps as int,
        }
    }
}

impl Default for TickEnginePlugin {
    /// A scheduler at the default target rate that has measured nothing yet.
    fn default() -> (engine: TickEnginePlugin)
        ensures
            engine@ == TickEngineModel::initial(),
            engine@.is_consistent(),
    {
        TickEnginePlugin {
            target_tps: DEFAULT_TARGET_TPS,
            fixed_timestep: Ratio { numerator: 1, denominator: DEFAULT_TARGET_TPS as u64 },
            current_tps: Ratio { numerator: 0, denominator: 1 },
            applied_tps: DEFAULT_TARGET_TPS,
        }
    }
}

impl TickEnginePlugin {
    #[verifier::type_invariant]
    spec fn consistent(self) -> bool {
        self@.is_consistent()
    }

    /// The target rate, in ticks per second.
    pub fn target_ticks_per_second(&self) -> (ticks_per_second: i32)
        ensures
            ticks_per_second == self@.target_tps,
            rate_is_supported(ticks_per_second as int),
    {
        proof {
            use_type_invariant(self);
        }
        self.target_tps
    }

    /// Asks for a new target rate.
    ///
    /// A rate within the supported bounds is stored and the timestep becomes its
    /// reciprocal in the same step, so the next tick to be scheduled already
    /// runs at the new cadence. Any other rate is refused and the scheduler
    /// stays exactly as it was.
    pub fn set_target_rate(&mut self, ticks_per_second: i32) -> (outcome: Result<
        (),
        InvalidRateError,
    >)
        ensures
            rate_is_supported(ticks_per_second as int) ==> outcome is Ok,
            !rate_is_supported(ticks_per_second as int) ==> outcome == Err::<(), InvalidRateError>(
                InvalidRateError { requested: ticks_per_second },
            ),
            final(self)@ == old(self)@.with_target(ticks_per_second as int),
            final(self)@.is_consistent(),
    {
        proof {
            use_type_invariant(&*self);
        }
        if ticks_per_second < MIN_TARGET_TPS || ticks_per_second > MAX_TARGET_TPS {
            return Err(InvalidRateError { requested: ticks_per_second });
        }
        *self = TickEnginePlugin {
            target_tps: ticks_per_second,
            fixed_timestep: Ratio { numerator: 1, denominator: ticks_per_second as u64 },
            current_tps: self.current_tps,
            applied_tps: self.applied_tps,
        };
        Ok(())
    }

    /// The timestep in force, in seconds: one over the target rate.
    pub fn get_time_delta(&self) -> (timestep: Ratio)
        ensures
            timestep == self@.fixed_timestep,
            timestep == timestep_of(self@.target_tps),
            timestep.is_positive(),
    {
        proof {
            use_type_invariant(self);
        }
        self.fixed_timestep
    }

    /// The rate observed on the last tick that took measurable time, in ticks
    /// per second; zero before there was one.
    pub fn measured_ticks_per_second(&self) -> (measured: Ratio)
        ensures
            measured == self@.measured_tps,
            measured.is_defined(),
    {
        proof {
            use_type_invariant(self);
        }
        self.current_tps
    }

    /// Records that one fixed update has run and took `actual_elapsed` seconds.
    ///
    /// The measured rate becomes the reciprocal of that duration. A duration
    /// that is zero, or whose denominator is zero, has no reciprocal: the last
    /// measurement then stays. Either way the host's reporting accumulators are
    /// cleared, and the target rate and the timestep are left alone.
    pub fn on_tick_completed(&mut self, actual_elapsed: Ratio, history: &mut TickHistory)
        ensures
            final(self)@ == old(self)@.after_tick(actual_elapsed),
            final(self)@.is_consistent(),
            final(history).is_cleared(),
    {
        proof {
            use_type_invariant(&*self);
        }
        history.tick_counter = 0;
        history.seconds_elapsed = Ratio { numerator: 0, denominator: 1 };

        match actual_elapsed.reciprocal() {
            Some(rate) => {
                *self = TickEnginePlugin {
                    target_tps: self.target_tps,
                    fixed_timestep: self.fixed_timestep,
                    current_tps: rate,
                    applied_tps: self.applied_tps,
                };
            },
            None => {},
        }
    }

    /// Looks whether the target rate has changed since the last look.
    ///
    /// Where it has, the result is the timestep that the host must hand to its
    /// fixed-update driver before the next tick is scheduled, and the scheduler
    /// takes it as handed over. Where it has not, the result is `None` and
    /// nothing changes.
    pub fn check_target_tps_changed(&mut self) -> (push: Option<Ratio>)
        ensures
            push == old(self)@.pending_timestep(),
            final(self)@ == old(self)@.after_check(),
            final(self)@.is_consistent(),
    {
        proof {
            use_type_invariant(&*self);
        }
        if self.target_tps != self.applied_tps {
            *self = TickEnginePlugin {
                target_tps: self.target_tps,
                fixed_timestep: self.fixed_timestep,
                current_tps: self.current_tps,
                applied_tps: self.target_tps,
            };
            Some(self.fixed_timestep)
        } else {
            None
        }
    }
}

} // verus!
