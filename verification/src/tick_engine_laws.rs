//! What holds of the tick scheduler whatever it is asked.

use crate::ratio::{lemma_flipped_is_reciprocal, Ratio};
use crate::tick_engine::{rate_is_supported, timestep_of, TickEngineModel};
use vstd::prelude::*;

verus! {

/// After a supported rate `n` was asked for, the timestep is `1 / n`: the
/// timestep times the rate is exactly one. Nothing else has changed.
pub proof fn lemma_supported_rate_sets_reciprocal_timestep(m: TickEngineModel, n: int)
    requires
        m.is_consistent(),
        rate_is_supported(n),
    ensures
        m.with_target(n).target_tps == n,
        m.with_target(n).fixed_timestep == Ratio::unit_over(n as u64),
        m.with_target(n).fixed_timestep.is_reciprocal_of(Ratio::whole(n as u64)),
        m.with_target(n).measured_tps == m.measured_tps,
        m.with_target(n).applied_tps == m.applied_tps,
        m.with_target(n).is_consistent(),
{
}

/// A rate outside the supported bounds leaves the scheduler as it was, timestep
/// included.
pub proof fn lemma_unsupported_rate_changes_nothing(m: TickEngineModel, n: int)
    requires
        !rate_is_supported(n),
    ensures
        m.with_target(n) == m,
{
}

/// A tick that took a positive time sets the measured rate to the reciprocal of
/// that time; a tick that took none leaves the last measurement. In neither
/// case does the target, the timestep or the driver's rate change.
pub proof fn lemma_tick_measures_reciprocal(m: TickEngineModel, actual_elapsed: Ratio)
    requires
        m.is_consistent(),
    ensures
        actual_elapsed.is_positive() ==> m.after_tick(actual_elapsed).measured_tps.is_reciprocal_of(
            actual_elapsed,
        ),
        !actual_elapsed.is_positive() ==> m.after_tick(actual_elapsed) == m,
        m.after_tick(actual_elapsed).target_tps == m.target_tps,
        m.after_tick(actual_elapsed).fixed_timestep == m.fixed_timestep,
        m.after_tick(actual_elapsed).applied_tps == m.applied_tps,
        m.after_tick(actual_elapsed).is_consistent(),
{
    if actual_elapsed.is_positive() {
        lemma_flipped_is_reciprocal(actual_elapsed);
    }
}

/// A tick that took exactly the timestep in force measures exactly the target
/// rate.
pub proof fn lemma_tick_on_schedule_measures_target(m: TickEngineModel)
    requires
        m.is_consistent(),
    ensures
        m.after_tick(m.fixed_timestep).measured_tps == Ratio::whole(m.target_tps as u64),
{
}

/// A target that differs from the rate the driver has is handed over at the
/// next look, with the new timestep, and only once.
pub proof fn lemma_new_target_is_pushed_once(m: TickEngineModel, n: int)
    requires
        m.is_consistent(),
        rate_is_supported(n),
        n != m.applied_tps,
    ensures
        m.with_target(n).pending_timestep() == Some(timestep_of(n)),
        m.with_target(n).after_check().pending_timestep() is None,
        m.with_target(n).after_check().is_consistent(),
{
}

/// A look that finds nothing pending changes nothing.
pub proof fn lemma_idle_check_changes_nothing(m: TickEngineModel)
    requires
        m.pending_timestep() is None,
    ensures
        m.after_check() == m,
{
}

} // verus!
