//! The calendar as a mathematical object.
//!
//! A calendar reading is five natural numbers. One tick moves it like an
//! odometer: the tick counter rolls into the hour, the hour into the day, the day
//! into the month and the month into the year. Everything here is specification;
//! the executable clock in [`crate::simulation`] is proved to follow it.

use vstd::prelude::*;

verus! {

/// Fixed ticks that make up one hour.
pub const TICKS_PER_HOUR: u64 = 2;

/// Hours that make up one day.
pub const HOURS_PER_DAY: u64 = 24;

/// Days that make up one month.
pub const DAYS_PER_MONTH: u64 = 30;

/// Months that make up one year.
pub const MONTHS_PER_YEAR: u64 = 12;

/// The hour of the day at which the sun rises.
pub const SUNRISE_HOUR: u64 = 6;

/// The hour of the day at which the sun sets.
pub const SUNSET_HOUR: u64 = 18;

/// What a tick can bring about, in the order in which one tick reports it.
#[derive(Clone, Copy, Debug, PartialEq, Eq)]
pub enum CalendarEvent {
    /// A full hour has passed.
    HourElapsed,
    /// The hour that just began is the sunrise hour.
    Sunrise,
    /// The hour that just began is the sunset hour.
    Sunset,
    /// A full day has passed.
    DayElapsed,
    /// A full month has passed.
    MonthElapsed,
    /// A full year has passed.
    YearElapsed,
}

/// A calendar reading over unbounded natural numbers.
pub struct CalendarTime {
    /// Ticks counted since the last full hour.
    pub ticks: nat,
    /// Hour of the day.
    pub hour: nat,
    /// Day of the month.
    pub day: nat,
    /// Month of the year.
    pub month: nat,
    /// Years gone by.
    pub year: nat,
}

impl CalendarTime {
    /// The reading at which every clock starts.
    pub open spec fn zero() -> CalendarTime {
        CalendarTime { ticks: 0, hour: 0, day: 0, month: 0, year: 0 }
    }

    /// Every unit below the year is within its range, so the reading is the
    /// mixed-radix notation of a tick count.
    pub open spec fn is_normal(self) -> bool {
        &&& self.ticks < TICKS_PER_HOUR
        &&& self.hour < HOURS_PER_DAY
        &&& self.day < DAYS_PER_MONTH
        &&& self.month < MONTHS_PER_YEAR
    }

    /// Every field can be held in a `u64`.
    pub open spec fn is_representable(self) -> bool {
        &&& self.ticks <= u64::MAX
        &&& self.hour <= u64::MAX
        &&& self.day <= u64::MAX
        &&& self.month <= u64::MAX
        &&& self.year <= u64::MAX
    }

    /// Whole hours since the zero reading.
    pub open spec fn total_hours(self) -> nat {
        (self.year * MONTHS_PER_YEAR * DAYS_PER_MONTH * HOURS_PER_DAY
            + self.month * DAYS_PER_MONTH * HOURS_PER_DAY
            + self.day * HOURS_PER_DAY
            + self.hour) as nat
    }

    /// Ticks since the zero reading.
    pub open spec fn total_ticks(self) -> nat {
        (self.total_hours() * TICKS_PER_HOUR + self.ticks) as nat
    }

    /// Counting one more tick completes an hour.
    pub open spec fn hour_elapses(self) -> bool {
        self.ticks + 1 >= TICKS_PER_HOUR
    }

    /// The reading after one more tick was counted and, where that completed an
    /// hour, carried into the hour.
    pub open spec fn after_hours(self) -> CalendarTime {
        if self.hour_elapses() {
            CalendarTime {
                ticks: (self.ticks + 1 - TICKS_PER_HOUR) as nat,
                hour: self.hour + 1,
                ..self
            }
        } else {
            CalendarTime { ticks: self.ticks + 1, ..self }
        }
    }

    /// The hour has run past the end of the day.
    pub open spec fn day_elapses(self) -> bool {
        self.hour >= HOURS_PER_DAY
    }

    /// The reading after one day's worth of hours, if there is one, was carried
    /// into the day.
    pub open spec fn after_days(self) -> CalendarTime {
        if self.day_elapses() {
            CalendarTime { hour: (self.hour - HOURS_PER_DAY) as nat, day: self.day + 1, ..self }
        } else {
            self
        }
    }

    /// The day has run past the end of the month.
    pub open spec fn month_elapses(self) -> bool {
        self.day >= DAYS_PER_MONTH
    }

    /// The reading after one month's worth of days, if there is one, was carried
    /// into the month.
    pub open spec fn after_months(self) -> CalendarTime {
        if self.month_elapses() {
            CalendarTime { day: (self.day - DAYS_PER_MONTH) as nat, month: self.month + 1, ..self }
        } else {
            self
        }
    }

    /// The month has run past the end of the year.
    pub open spec fn year_elapses(self) -> bool {
        self.month >= MONTHS_PER_YEAR
    }

    /// The reading after one year's worth of months, if there is one, was carried
    /// into the year.
    pub open spec fn after_years(self) -> CalendarTime {
        if self.year_elapses() {
            CalendarTime {
                month: (self.month - MONTHS_PER_YEAR) as nat,
                year: self.year + 1,
                ..self
            }
        } else {
            self
        }
    }

    /// The reading one tick later.
    ///
    /// The four carries are tried in a fixed order, each exactly once, and a
    /// higher carry never re-runs a lower one. On a normal reading that is the
    /// whole odometer step. On a reading that is several units out of range it
    /// takes away one unit's worth per call and no more.
    pub open spec fn advance(self) -> CalendarTime {
        self.after_hours().after_days().after_months().after_years()
    }

    /// Every reading that one tick passes through can be held in `u64` fields.
    pub open spec fn can_advance(self) -> bool {
        &&& self.after_hours().is_representable()
        &&& self.after_hours().after_days().is_representable()
        &&& self.after_hours().after_days().after_months().is_representable()
        &&& self.advance().is_representable()
    }

    /// What the hour carry reports: nothing where no hour was completed, else
    /// the hour itself, followed by sunrise or sunset where the hour that
    /// begins is one of the two.
    pub open spec fn hour_events(self) -> Seq<CalendarEvent> {
        if !self.hour_elapses() {
            seq![]
        } else if self.hour + 1 == SUNRISE_HOUR {
            seq![CalendarEvent::HourElapsed, CalendarEvent::Sunrise]
        } else if self.hour + 1 == SUNSET_HOUR {
            seq![CalendarEvent::HourElapsed, CalendarEvent::Sunset]
        } else {
            seq![CalendarEvent::HourElapsed]
        }
    }

    /// What one tick reports, in order: the hour events, then one event for
    /// each of the day, month and year carries that took place.
    pub open spec fn events(self) -> Seq<CalendarEvent> {
        let hours = self.after_hours();
        let days = hours.after_days();
        let months = days.after_months();
        self.hour_events() + (if hours.day_elapses() {
            seq![CalendarEvent::DayElapsed]
        } else {
            seq![]
        }) + (if days.month_elapses() {
            seq![CalendarEvent::MonthElapsed]
        } else {
            seq![]
        }) + (if months.year_elapses() {
            seq![CalendarEvent::YearElapsed]
        } else {
            seq![]
        })
    }

    /// What a tick reports, read off the normal reading at which it arrives: an
    /// hour when the tick counter is back at zero, sunrise or sunset when that
    /// hour is one of the two, a day when the hour is back at zero too, a month
    /// when the day is as well, and a year when the month is.
    pub open spec fn arrival_events(self) -> Seq<CalendarEvent> {
        if self.ticks != 0 {
            seq![]
        } else {
            seq![CalendarEvent::HourElapsed] + (if self.hour == SUNRISE_HOUR {
                seq![CalendarEvent::Sunrise]
            } else if self.hour == SUNSET_HOUR {
                seq![CalendarEvent::Sunset]
            } else {
                seq![]
            }) + (if self.hour != 0 {
                seq![]
            } else if self.day != 0 {
                seq![CalendarEvent::DayElapsed]
            } else if self.month != 0 {
                seq![CalendarEvent::DayElapsed, CalendarEvent::MonthElapsed]
            } else {
                seq![
                    CalendarEvent::DayElapsed,
                    CalendarEvent::MonthElapsed,
                    CalendarEvent::YearElapsed,
                ]
            })
        }
    }

    /// The reading `n` ticks later.
    pub open spec fn advance_by(self, n: nat) -> CalendarTime
        decreases n,
    {
        if n == 0 {
            self
        } else {
            self.advance_by((n - 1) as nat).advance()
        }
    }

    /// The normal reading that stands for `n` ticks since zero.
    pub open spec fn from_ticks(n: nat) -> CalendarTime {
        let hours = n / (TICKS_PER_HOUR as nat);
        let days = hours / (HOURS_PER_DAY as nat);
        let months = days / (DAYS_PER_MONTH as nat);
        CalendarTime {
            ticks: n % (TICKS_PER_HOUR as nat),
            hour: hours % (HOURS_PER_DAY as nat),
            day: days % (DAYS_PER_MONTH as nat),
            month: months % (MONTHS_PER_YEAR as nat),
            year: months / (MONTHS_PER_YEAR as nat),
        }
    }
}

/// A count multiplied by the unit sizes, written with plain numbers.
pub proof fn lemma_scaled_by_units(x: int)
    ensures
        x * TICKS_PER_HOUR == x * 2,
        x * HOURS_PER_DAY == x * 24,
        x * DAYS_PER_MONTH == x * 30,
        x * MONTHS_PER_YEAR == x * 12,
        x * DAYS_PER_MONTH * HOURS_PER_DAY == x * 720,
        x * MONTHS_PER_YEAR * DAYS_PER_MONTH == x * 360,
        x * MONTHS_PER_YEAR * DAYS_PER_MONTH * HOURS_PER_DAY == x * 8640,
{
    assert(x * TICKS_PER_HOUR == x * 2) by (nonlinear_arith)
        requires
            TICKS_PER_HOUR == 2,
    ;
    assert(x * HOURS_PER_DAY == x * 24) by (nonlinear_arith)
        requires
            HOURS_PER_DAY == 24,
    ;
    assert(x * DAYS_PER_MONTH == x * 30) by (nonlinear_arith)
        requires
            DAYS_PER_MONTH == 30,
    ;
    assert(x * MONTHS_PER_YEAR == x * 12) by (nonlinear_arith)
        requires
            MONTHS_PER_YEAR == 12,
    ;
    assert(x * DAYS_PER_MONTH * HOURS_PER_DAY == x * 720) by (nonlinear_arith)
        requires
            DAYS_PER_MONTH == 30,
            HOURS_PER_DAY == 24,
    ;
    assert(x * MONTHS_PER_YEAR * DAYS_PER_MONTH == x * 360) by (nonlinear_arith)
        requires
            MONTHS_PER_YEAR == 12,
            DAYS_PER_MONTH == 30,
    ;
    assert(x * MONTHS_PER_YEAR * DAYS_PER_MONTH * HOURS_PER_DAY == x * 8640) by (nonlinear_arith)
        requires
            MONTHS_PER_YEAR == 12,
            DAYS_PER_MONTH == 30,
            HOURS_PER_DAY == 24,
    ;
}

/// The hour and tick totals of a reading, written with plain numbers.
pub proof fn lemma_total_hours_in_numbers(c: CalendarTime)
    ensures
        c.total_hours() == c.year * 8640 + c.month * 720 + c.day * 24 + c.hour,
        c.total_ticks() == c.total_hours() * 2 + c.ticks,
{
    lemma_scaled_by_units(c.year as int);
    lemma_scaled_by_units(c.month as int);
    lemma_scaled_by_units(c.day as int);
    lemma_scaled_by_units(c.total_hours() as int);
}

} // verus!
