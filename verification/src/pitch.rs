//! The pitch-resolution formulas, computed exactly.
//!
//! Draws and attributes are fixed-point numbers with 52 fractional bits
//! ([`FRAC_ONE`] is 1.0), so every threshold comparison below is an exact
//! rational comparison: both sides are scaled by a common positive factor
//! until they are integers, and no rounding can flip a decision. The clamp
//! is written with explicit branches, mirroring the domain's ordering rules.

use vstd::prelude::*;
use crate::rng::FRAC_ONE;

verus! {

/// Whether the pitch is in the strike zone:
/// `roll < 0.2 + 0.35 * ruthlessness + 0.1 * musclitude`,
/// both sides scaled by 20.
pub open spec fn spec_is_strike(roll: u64, ruthlessness: u64, musclitude: u64) -> bool {
    20 * roll < 4 * (FRAC_ONE as int) + 7 * ruthlessness + 2 * musclitude
}

/// Decides [`spec_is_strike`] on the first pitch draw.
pub fn is_strike_roll(roll: u64, ruthlessness: u64, musclitude: u64) -> (r: bool)
    ensures
        r == spec_is_strike(roll, ruthlessness, musclitude),
{
    20 * (roll as u128) < 4 * (FRAC_ONE as u128) + 7 * (ruthlessness as u128) + 2 * (musclitude as u128)
}

/// The swing threshold against a strike, scaled by 80:
/// `0.7 + 0.35 * avg(divinity, musclitude, 1 - patheticism, thwackability)
///  - 0.4 * ruthlessness`.
pub open spec fn spec_swing_num_strike(
    divinity: u64,
    musclitude: u64,
    thwackability: u64,
    patheticism: u64,
    ruthlessness: u64,
) -> int {
    63 * (FRAC_ONE as int) + 7 * (divinity + musclitude + thwackability) - 7 * patheticism
        - 32 * ruthlessness
}

/// Whether the batter swings at a strike: the second draw against the
/// strike swing threshold, both sides scaled by 80.
pub open spec fn spec_swings_on_strike(
    roll: u64,
    divinity: u64,
    musclitude: u64,
    thwackability: u64,
    patheticism: u64,
    ruthlessness: u64,
) -> bool {
    80 * roll < spec_swing_num_strike(divinity, musclitude, thwackability, patheticism, ruthlessness)
}

/// Decides [`spec_swings_on_strike`] on the second pitch draw.
pub fn swings_on_strike(
    roll: u64,
    divinity: u64,
    musclitude: u64,
    thwackability: u64,
    patheticism: u64,
    ruthlessness: u64,
) -> (r: bool)
    ensures
        r == spec_swings_on_strike(roll, divinity, musclitude, thwackability, patheticism, ruthlessness),
{
    let num: i128 = 63 * (FRAC_ONE as i128)
        + 7 * (divinity as i128 + musclitude as i128 + thwackability as i128)
        - 7 * (patheticism as i128) - 32 * (ruthlessness as i128);
    80 * (roll as i128) < num
}

/// The swing threshold against a ball, scaled by 20:
/// `(12 * ruthlessness - 5 * moxie + 5 * patheticism) / 20`,
/// clamped into [0.1, 0.95] — the upper bound first, with explicit
/// branches, as the domain's ordering rules demand.
pub open spec fn spec_swing_num_ball(ruthlessness: u64, moxie: u64, patheticism: u64) -> int {
    let raw = 12 * (ruthlessness as int) - 5 * moxie + 5 * patheticism;
    let capped = if raw > 19 * (FRAC_ONE as int) { 19 * (FRAC_ONE as int) } else { raw };
    if capped < 2 * (FRAC_ONE as int) { 2 * (FRAC_ONE as int) } else { capped }
}

/// Whether the batter swings at a ball: the second draw against the
/// clamped ball swing threshold, both sides scaled by 20.
pub open spec fn spec_swings_on_ball(roll: u64, ruthlessness: u64, moxie: u64, patheticism: u64) -> bool {
    20 * roll < spec_swing_num_ball(ruthlessness, moxie, patheticism)
}

/// Decides [`spec_swings_on_ball`] on the second pitch draw.
pub fn swings_on_ball(roll: u64, ruthlessness: u64, moxie: u64, patheticism: u64) -> (r: bool)
    ensures
        r == spec_swings_on_ball(roll, ruthlessness, moxie, patheticism),
{
    let mut num: i128 = 12 * (ruthlessness as i128) - 5 * (moxie as i128) + 5 * (patheticism as i128);
    if num > 19 * (FRAC_ONE as i128) {
        num = 19 * (FRAC_ONE as i128);
    }
    if num < 2 * (FRAC_ONE as i128) {
        num = 2 * (FRAC_ONE as i128);
    }
    20 * (roll as i128) < num
}

/// Whether a rolled weather pre-emption fires: `roll < 0.00025`, both
/// sides scaled by 4000. The threshold is a provisional constant shared
/// by every rolled condition.
pub open spec fn spec_weather_fires(roll: u64) -> bool {
    4000 * roll < FRAC_ONE as int
}

/// Decides [`spec_weather_fires`] on the weather draw.
pub fn weather_fires(roll: u64) -> (r: bool)
    ensures
        r == spec_weather_fires(roll),
{
    4000 * (roll as u128) < FRAC_ONE as u128
}

} // verus!
