//! What holds of the calendar after any number of ticks.

use crate::calendar::{lemma_total_hours_in_numbers, CalendarTime, TICKS_PER_HOUR};
use vstd::prelude::*;

verus! {

/// One tick on a normal reading gives a normal reading that stands for exactly
/// one tick more: the carries neither lose nor invent time.
pub proof fn lemma_advance_counts_one_tick(c: CalendarTime)
    requires
        c.is_normal(),
    ensures
        c.advance().is_normal(),
        c.advance().total_ticks() == c.total_ticks() + 1,
        c.advance().total_hours() == c.total_hours() + (if c.hour_elapses() {
            1nat
        } else {
            0nat
        }),
{
    lemma_total_hours_in_numbers(c);
    lemma_total_hours_in_numbers(c.advance());
}

/// A normal reading whose year is not the last that fits can take one more
/// tick without any field leaving `u64`.
pub proof fn lemma_normal_reading_can_advance(c: CalendarTime)
    requires
        c.is_normal(),
        c.year < u64::MAX,
    ensures
        c.can_advance(),
{
}

/// Any number of ticks on a normal reading gives a normal reading that stands
/// for that many ticks more.
pub proof fn lemma_advance_by_counts_ticks(c: CalendarTime, n: nat)
    requires
        c.is_normal(),
    ensures
        c.advance_by(n).is_normal(),
        c.advance_by(n).total_ticks() == c.total_ticks() + n,
    decreases n,
{
    if n > 0 {
        lemma_advance_by_counts_ticks(c, (n - 1) as nat);
        lemma_advance_counts_one_tick(c.advance_by((n - 1) as nat));
    }
}

/// The reading written for `n` ticks is normal and stands for `n` ticks.
pub proof fn lemma_from_ticks_counts_ticks(n: nat)
    ensures
        CalendarTime::from_ticks(n).is_normal(),
        CalendarTime::from_ticks(n).total_ticks() == n,
        CalendarTime::from_ticks(n).total_hours() == n / (TICKS_PER_HOUR as nat),
{
    let r = CalendarTime::from_ticks(n);
    lemma_total_hours_in_numbers(r);
    let hours = n / 2;
    let days = hours / 24;
    let months = days / 30;
    assert(n == hours * 2 + n % 2);
    assert(hours == days * 24 + hours % 24);
    assert(days == months * 30 + days % 30);
    assert(months == (months / 12) * 12 + months % 12);
}

/// A tick count has one normal reading only: a normal reading is the one
/// written for the ticks it stands for.
pub proof fn lemma_normal_reading_is_unique(c: CalendarTime)
    requires
        c.is_normal(),
    ensures
        c == CalendarTime::from_ticks(c.total_ticks()),
{
    lemma_total_hours_in_numbers(c);
    let n = c.total_ticks();
    let hours = c.total_hours();
    let days = c.year * 360 + c.month * 30 + c.day;
    let months = c.year * 12 + c.month;
    assert(n / 2 == hours && n % 2 == c.ticks);
    assert(hours / 24 == days && hours % 24 == c.hour);
    assert(days / 30 == months && days % 30 == c.day);
    assert(months / 12 == c.year && months % 12 == c.month);
}

/// After `n` ticks from the zero reading the clock shows the reading written
/// for `n` ticks, so the hours it has counted are `n / TICKS_PER_HOUR`, rounded
/// down.
pub proof fn lemma_ticks_from_zero(n: nat)
    ensures
        CalendarTime::zero().advance_by(n) == CalendarTime::from_ticks(n),
        CalendarTime::zero().advance_by(n).is_normal(),
        CalendarTime::zero().advance_by(n).total_ticks() == n,
        CalendarTime::zero().advance_by(n).total_hours() == n / (TICKS_PER_HOUR as nat),
{
    let zero = CalendarTime::zero();
    lemma_total_hours_in_numbers(zero);
    lemma_advance_by_counts_ticks(zero, n);
    lemma_normal_reading_is_unique(zero.advance_by(n));
    lemma_from_ticks_counts_ticks(n);
}

/// What a tick on a normal reading reports can be read off the reading at which
/// it arrives.
pub proof fn lemma_events_match_arrival(c: CalendarTime)
    requires
        c.is_normal(),
    ensures
        c.events() == c.advance().arrival_events(),
{
    assert(c.events() =~= c.advance().arrival_events());
}

} // verus!
