//! Conversion of a relative timelock, counted in blocks, into a calendar
//! duration (years, months, days, hours, minutes).

use vstd::prelude::*;

verus! {

/// Expected time between two blocks, in minutes.
pub const MINUTES_PER_BLOCK: u32 = 10;

/// Minutes in an average year (365.25 days).
pub const MINUTES_PER_YEAR: u32 = 525960;

/// Minutes in an average month (a twelfth of an average year).
pub const MINUTES_PER_MONTH: u32 = 43830;

/// Minutes in a day.
pub const MINUTES_PER_DAY: u32 = 1440;

/// Minutes in an hour.
pub const MINUTES_PER_HOUR: u32 = 60;

/// Minutes that `sequence` blocks take.
pub open spec fn sequence_minutes(sequence: u16) -> int {
    sequence * MINUTES_PER_BLOCK
}

/// The duration of `sequence` blocks, split greedily into years, months,
/// days, hours and minutes, largest unit first.
pub open spec fn spec_duration(sequence: u16) -> (int, int, int, int, int) {
    let total = sequence_minutes(sequence);
    let years = total / MINUTES_PER_YEAR as int;
    let rest_y = total % MINUTES_PER_YEAR as int;
    let months = rest_y / MINUTES_PER_MONTH as int;
    let rest_m = rest_y % MINUTES_PER_MONTH as int;
    let days = rest_m / MINUTES_PER_DAY as int;
    let rest_d = rest_m % MINUTES_PER_DAY as int;
    let hours = rest_d / MINUTES_PER_HOUR as int;
    let minutes = rest_d % MINUTES_PER_HOUR as int;
    (years, months, days, hours, minutes)
}

/// Whether `(years, months, days, hours, minutes)` is the split of `total`
/// minutes, largest unit first: the counts add back up to `total`, and what
/// is left after each unit is less than one of that unit (after the years,
/// less than a year; after the months, less than a month; and so on).
pub open spec fn is_greedy_split(total: int, d: (int, int, int, int, int)) -> bool {
    let (years, months, days, hours, minutes) = d;
    &&& 0 <= years && 0 <= months && 0 <= days && 0 <= hours && 0 <= minutes
    &&& years * MINUTES_PER_YEAR + months * MINUTES_PER_MONTH + days * MINUTES_PER_DAY + hours
        * MINUTES_PER_HOUR + minutes == total
    &&& months * MINUTES_PER_MONTH + days * MINUTES_PER_DAY + hours * MINUTES_PER_HOUR + minutes
        < MINUTES_PER_YEAR
    &&& days * MINUTES_PER_DAY + hours * MINUTES_PER_HOUR + minutes < MINUTES_PER_MONTH
    &&& hours * MINUTES_PER_HOUR + minutes < MINUTES_PER_DAY
    &&& minutes < MINUTES_PER_HOUR
}

/// The split of a timelock adds back up to its length in minutes, and what
/// is left after each unit is less than one of that unit: the years are
/// all the whole years, the months all the whole months of what is left,
/// and so on down to the minutes.
pub proof fn lemma_duration_split(sequence: u16)
    ensures
        is_greedy_split(sequence_minutes(sequence), spec_duration(sequence)),
        ({
            let d = spec_duration(sequence);
            &&& d.0 * 525960 + d.1 * 43830 + d.2 * 1440 + d.3 * 60 + d.4 == sequence * 10
            &&& d.0 >= 0 && d.1 >= 0 && d.2 >= 0 && d.3 >= 0 && d.4 >= 0
            &&& d.1 * 43830 + d.2 * 1440 + d.3 * 60 + d.4 < 525960
            &&& d.2 * 1440 + d.3 * 60 + d.4 < 43830
            &&& d.3 * 60 + d.4 < 1440
            &&& d.4 < 60
            &&& d.1 < 12 && d.2 <= 30 && d.3 < 24
        }),
{
}

/// A number of minutes has only one split, largest unit first: any counts
/// that add back up to it, with less than one unit left after each unit,
/// are the ones `spec_duration` gives.
pub proof fn lemma_duration_unique(sequence: u16, d: (int, int, int, int, int))
    requires
        is_greedy_split(sequence_minutes(sequence), d),
    ensures
        d == spec_duration(sequence),
{
    let total = sequence_minutes(sequence);
    let (years, months, days, hours, minutes) = d;
    let rest_y = months * MINUTES_PER_MONTH + days * MINUTES_PER_DAY + hours * MINUTES_PER_HOUR
        + minutes;
    vstd::arithmetic::div_mod::lemma_fundamental_div_mod_converse(
        total,
        MINUTES_PER_YEAR as int,
        years,
        rest_y,
    );
    let rest_m = days * MINUTES_PER_DAY + hours * MINUTES_PER_HOUR + minutes;
    vstd::arithmetic::div_mod::lemma_fundamental_div_mod_converse(
        rest_y,
        MINUTES_PER_MONTH as int,
        months,
        rest_m,
    );
    let rest_d = hours * MINUTES_PER_HOUR + minutes;
    vstd::arithmetic::div_mod::lemma_fundamental_div_mod_converse(
        rest_m,
        MINUTES_PER_DAY as int,
        days,
        rest_d,
    );
    vstd::arithmetic::div_mod::lemma_fundamental_div_mod_converse(
        rest_d,
        MINUTES_PER_HOUR as int,
        hours,
        minutes,
    );
}

/// A timelock of at least one block never splits into nothing: some unit
/// has a non-zero count.
pub proof fn lemma_nonzero_duration(sequence: u16)
    requires
        sequence > 0,
    ensures
        ({
            let d = spec_duration(sequence);
            d.0 > 0 || d.1 > 0 || d.2 > 0 || d.3 > 0 || d.4 > 0
        }),
{
    lemma_duration_split(sequence);
}

/// Returns the duration of `sequence` blocks as
/// `(years, months, days, hours, minutes)`.
pub fn duration_from_sequence(sequence: u16) -> (d: (u32, u32, u32, u32, u32))
    ensures
        (d.0 as int, d.1 as int, d.2 as int, d.3 as int, d.4 as int) == spec_duration(sequence),
        is_greedy_split(
            sequence_minutes(sequence),
            (d.0 as int, d.1 as int, d.2 as int, d.3 as int, d.4 as int),
        ),
        d.2 * MINUTES_PER_DAY + d.3 * MINUTES_PER_HOUR + d.4 < MINUTES_PER_MONTH,
        d.0 * MINUTES_PER_YEAR + d.1 * MINUTES_PER_MONTH + d.2 * MINUTES_PER_DAY + d.3
            * MINUTES_PER_HOUR + d.4 == sequence_minutes(sequence),
        d.1 < 12,
        d.2 <= 30,
        d.3 < 24,
        d.4 < 60,
{
    let mut n_minutes: u32 = sequence as u32 * MINUTES_PER_BLOCK;
    let n_years: u32 = n_minutes / MINUTES_PER_YEAR;
    n_minutes -= n_years * MINUTES_PER_YEAR;
    let n_months: u32 = n_minutes / MINUTES_PER_MONTH;
    n_minutes -= n_months * MINUTES_PER_MONTH;
    let n_days: u32 = n_minutes / MINUTES_PER_DAY;
    n_minutes -= n_days * MINUTES_PER_DAY;
    let n_hours: u32 = n_minutes / MINUTES_PER_HOUR;
    n_minutes -= n_hours * MINUTES_PER_HOUR;
    (n_years, n_months, n_days, n_hours, n_minutes)
}

} // verus!
