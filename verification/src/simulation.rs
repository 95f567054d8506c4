//! The calendar clock: an hour / day / month / year odometer that a host
//! advances by one fixed tick at a time.

use crate::calendar::{
    lemma_scaled_by_units, lemma_total_hours_in_numbers, CalendarEvent, CalendarTime,
    DAYS_PER_MONTH, HOURS_PER_DAY, MONTHS_PER_YEAR, SUNRISE_HOUR, SUNSET_HOUR, TICKS_PER_HOUR,
};
use crate::calendar_laws::lemma_advance_counts_one_tick;
use vstd::prelude::*;

verus! {

/// The state of the calendar clock.
///
/// The fields are open to the host. A clock that is only ever changed by
/// [`tick_simulation`] keeps every unit below the year within its range (see
/// [`SimulationState::wf`]). On a clock that was set out of range by hand the
/// operations still do exactly what their contracts say: one carry per unit and
/// call.
#[derive(Clone, Copy, Debug, PartialEq, Eq)]
pub struct SimulationState {
    /// Day of the month, counted from zero.
    pub current_day: u64,
    /// Hour of the day, counted from zero.
    pub current_hour: u64,
    /// Month of the year, counted from zero.
    pub current_month: u64,
    /// Years gone by.
    pub current_year: u64,
    /// Ticks counted since the last full hour.
    pub ticks_since_last_hour: u64,
}

impl View for SimulationState {
    type V = CalendarTime;

    open spec fn view(&self) -> CalendarTime {
        CalendarTime {
            ticks: self.ticks_since_last_hour as nat,
            hour: self.current_hour as nat,
            day: self.current_day as nat,
            month: self.current_month as nat,
            year: self.current_year as nat,
        }
    }
}

impl Default for SimulationState {
    /// The clock at the zero reading.
    fn default() -> (state: SimulationState)
        ensures
            state@ == CalendarTime::zero(),
            state.wf(),
    {
        SimulationState {
            current_day: 0,
            current_hour: 0,
            current_month: 0,
            current_year: 0,
            ticks_since_last_hour: 0,
        }
    }
}

impl SimulationState {
    /// Fixed ticks that make up one hour.
    pub const TICKS_PER_HOUR: u64 = TICKS_PER_HOUR;

    /// Hours that make up one day.
    pub const HOURS_PER_DAY: u64 = HOURS_PER_DAY;

    /// The hour of the day at which the sun rises.
    pub const SUNRISE_HOUR: u64 = SUNRISE_HOUR;

    /// The hour of the day at which the sun sets.
    pub const SUNSET_HOUR: u64 = SUNSET_HOUR;

    /// Days that make up one month.
    pub const DAYS_PER_MONTH: u64 = DAYS_PER_MONTH;

    /// Months that make up one year.
    pub const MONTHS_PER_YEAR: u64 = MONTHS_PER_YEAR;

    /// The clock's invariant: the fields are the mixed-radix notation of a tick
    /// count.
    pub open spec fn wf(&self) -> bool {
        self@.is_normal()
    }

    /// Counts one tick and, where that completes an hour, carries it into
    /// `current_hour`. Returns whether an hour was completed.
    pub fn handle_hours(&mut self) -> (elapsed: bool)
        requires
            old(self)@.after_hours().is_representable(),
        ensures
            elapsed == old(self)@.hour_elapses(),
            final(self)@ == old(self)@.after_hours(),
    {
        if self.ticks_since_last_hour >= TICKS_PER_HOUR - 1 {
            self.ticks_since_last_hour -= TICKS_PER_HOUR - 1;
            self.current_hour += 1;

            return true;
        }
        self.ticks_since_last_hour += 1;

        false
    }

    /// Carries one day's worth of hours into `current_day`, if there is one.
    /// Returns whether it did.
    pub fn handle_days(&mut self) -> (elapsed: bool)
        requires
            old(self)@.after_days().is_representable(),
        ensures
            elapsed == old(self)@.day_elapses(),
            final(self)@ == old(self)@.after_days(),
    {
        if self.current_hour >= HOURS_PER_DAY {
            self.current_hour -= HOURS_PER_DAY;
            self.current_day += 1;

            return true;
        }
        false
    }

    /// Carries one month's worth of days into `current_month`, if there is one.
    /// Returns whether it did.
    pub fn handle_months(&mut self) -> (elapsed: bool)
        requires
            old(self)@.after_months().is_representable(),
        ensures
            elapsed == old(self)@.month_elapses(),
            final(self)@ == old(self)@.after_months(),
    {
        if self.current_day >= DAYS_PER_MONTH {
            self.current_day -= DAYS_PER_MONTH;
            self.current_month += 1;

            return true;
        }
        false
    }

    /// Carries one year's worth of months into `current_year`, if there is one.
    /// Returns whether it did.
    pub fn handle_years(&mut self) -> (elapsed: bool)
        requires
            old(self)@.after_years().is_representable(),
        ensures
            elapsed == old(self)@.year_elapses(),
            final(self)@ == old(self)@.after_years(),
    {
        if self.current_month >= MONTHS_PER_YEAR {
            self.current_month -= MONTHS_PER_YEAR;
            self.current_year += 1;

            return true;
        }
        false
    }

    /// Whole hours since the zero reading, in a width that no `u64` fields can
    /// overflow.
    pub fn get_total_hours(&self) -> (total: u128)
        ensures
            total == self@.total_hours(),
    {
        proof {
            lemma_total_hours_in_numbers(self@);
            lemma_scaled_by_units(self.current_year as int);
            lemma_scaled_by_units(self.current_month as int);
            lemma_scaled_by_units(self.current_day as int);
        }
        let years_to_hours = self.current_year as u128 * MONTHS_PER_YEAR as u128
            * DAYS_PER_MONTH as u128 * HOURS_PER_DAY as u128;

        let months_to_hours = self.current_month as u128 * DAYS_PER_MONTH as u128
            * HOURS_PER_DAY as u128;

        let days_to_hours = self.current_day as u128 * HOURS_PER_DAY as u128;

        years_to_hours + months_to_hours + days_to_hours + self.current_hour as u128
    }

    /// Tells whether one more tick keeps every field within `u64`, which is what
    /// [`tick_simulation`] asks of its caller. A clock that satisfies
    /// [`SimulationState::wf`] can always advance unless it stands at the very
    /// last tick of year `u64::MAX`.
    pub fn can_advance(&self) -> (ok: bool)
        ensures
            ok == self@.can_advance(),
    {
        let mut probe = *self;
        if probe.ticks_since_last_hour >= TICKS_PER_HOUR - 1 && probe.current_hour == u64::MAX {
            return false;
        }
        probe.handle_hours();
        if probe.current_hour >= HOURS_PER_DAY && probe.current_day == u64::MAX {
            return false;
        }
        probe.handle_days();
        if probe.current_day >= DAYS_PER_MONTH && probe.current_month == u64::MAX {
            return false;
        }
        probe.handle_months();
        !(probe.current_month >= MONTHS_PER_YEAR && probe.current_year == u64::MAX)
    }
}

/// Advances the clock by exactly one fixed tick and returns what came about, in
/// the order hour, sunrise or sunset, day, month, year.
///
/// The four carries run in that order, once each. A clock within its ranges
/// stays within them and counts one tick more than before.
pub fn tick_simulation(state: &mut SimulationState) -> (events: Vec<CalendarEvent>)
    requires
        old(state)@.can_advance(),
    ensures
        final(state)@ == old(state)@.advance(),
        events@ == old(state)@.events(),
        old(state).wf() ==> final(state).wf(),
        old(state).wf() ==> final(state)@.total_ticks() == old(state)@.total_ticks() + 1,
{
    let mut events: Vec<CalendarEvent> = Vec::new();

    if state.handle_hours() {
        events.push(CalendarEvent::HourElapsed);

        if state.current_hour == SUNRISE_HOUR {
            events.push(CalendarEvent::Sunrise);
        }
        if state.current_hour == SUNSET_HOUR {
            events.push(CalendarEvent::Sunset);
        }
    }
    assert(events@ == old(state)@.hour_events());

    if state.handle_days() {
        events.push(CalendarEvent::DayElapsed);
    }
    if state.handle_months() {
        events.push(CalendarEvent::MonthElapsed);
    }
    if state.handle_years() {
        events.push(CalendarEvent::YearElapsed);
    }
    proof {
        if old(state).wf() {
            lemma_advance_counts_one_tick(old(state)@);
        }
    }
    events
}

} // verus!
