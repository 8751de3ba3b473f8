//! Speed arithmetic: converting a count and an elapsed number of seconds into a
//! rounded per-minute rate, and the timestamp used when a record is saved.

use vstd::prelude::*;

verus! {

/// The per-minute rate for `count` events in `seconds` seconds, rounded half
/// away from zero, and 0 when no time has elapsed. For non-negative operands,
/// rounding half away from zero is `floor(count * 60 / seconds + 1/2)`, which
/// over the integers is `(120 * count + seconds) / (2 * seconds)`.
pub open spec fn per_minute_rate(count: u64, seconds: u64) -> int {
    if seconds == 0 {
        0
    } else {
        (120 * (count as int) + (seconds as int)) / (2 * (seconds as int))
    }
}

/// Words per minute for `word_count` words typed in `duration` seconds.
/// Returns 0 when `duration` is 0 rather than failing on the division.
pub fn calculate_word_speed(word_count: u64, duration: u64) -> (r: i64)
    requires
        per_minute_rate(word_count, duration) <= i64::MAX as int,
    ensures
        r == per_minute_rate(word_count, duration),
        duration == 0 ==> r == 0,
{
    if duration == 0 {
        return 0;
    }
    let num: u128 = 120u128 * (word_count as u128) + (duration as u128);
    let den: u128 = 2u128 * (duration as u128);
    let q: u128 = num / den;
    assert(q == per_minute_rate(word_count, duration));
    q as i64
}

/// Characters per minute for `char_count` characters typed in `duration`
/// seconds. Returns 0 when `duration` is 0 rather than failing on the division.
pub fn calculate_char_speed(char_count: u64, duration: u64) -> (r: i64)
    requires
        per_minute_rate(char_count, duration) <= i64::MAX as int,
    ensures
        r == per_minute_rate(char_count, duration),
        duration == 0 ==> r == 0,
{
    if duration == 0 {
        return 0;
    }
    let num: u128 = 120u128 * (char_count as u128) + (duration as u128);
    let den: u128 = 2u128 * (duration as u128);
    let q: u128 = num / den;
    assert(q == per_minute_rate(char_count, duration));
    q as i64
}

/// Relies on chrono's `Local::now` and `DateTime::format`: the current local
/// time rendered as `%Y-%m-%d %H:%M:%S`. The result depends on the clock, so
/// nothing is promised of its value.
#[verifier::external_body]
pub fn get_current_datetime() -> String {
    chrono::Local::now().format("%Y-%m-%d %H:%M:%S").to_string()
}

} // verus!
