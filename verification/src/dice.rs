//! The random source of the simulation.
//!
//! All randomness comes from one generator that the caller owns and hands
//! in by `&mut`. The generator can be seeded, so a run can be repeated.
//! Nothing here says which number a draw returns: the rules are verified
//! for every number that can come back.

use crate::cell::MODIFIER_HIGH;
use crate::cell::MODIFIER_LOW;
use crate::cell::Modifiers;
use rand::Rng;
use rand::StdRng;
use vstd::prelude::*;

verus! {

/// `rand::StdRng`, the seedable generator that all draws go through. Its
/// state is not visible to the verifier.
#[verifier::external_type_specification]
#[verifier::external_body]
pub struct ExStdRng(StdRng);

/// Calls `rand::Rng::gen_range` on `u64`: a number from the half-open
/// range `[low, high)`. The outside function panics on an empty range,
/// which the precondition excludes. Which number of the range comes back is
/// not stated.
#[verifier::external_body]
fn draw(rng: &mut StdRng, low: u64, high: u64) -> (r: u64)
    requires
        low < high,
    ensures
        low <= r < high,
{
    rng.gen_range(low, high)
}

/// Draws a number from the half-open range `[low, high)`.
pub fn roll_between(rng: &mut StdRng, low: i32, high: i32) -> (r: i32)
    requires
        low < high,
    ensures
        low <= r < high,
{
    let span: i64 = high as i64 - low as i64;
    let drawn: u64 = draw(rng, 0, span as u64);
    (low as i64 + drawn as i64) as i32
}

/// Draws noise of the given amplitude: a number from `-amplitude` to
/// `amplitude`, both included.
pub fn roll_noise(rng: &mut StdRng, amplitude: i32) -> (noise: i32)
    requires
        0 <= amplitude < i32::MAX,
    ensures
        -amplitude <= noise <= amplitude,
{
    roll_between(rng, -amplitude, amplitude + 1)
}

/// Draws a place in a sequence of `len` items.
pub fn roll_index(rng: &mut StdRng, len: usize) -> (index: usize)
    requires
        len > 0,
    ensures
        index < len,
{
    draw(rng, 0, len as u64) as usize
}

/// Draws a stat of a genome: a number from `low` to 65535, both included.
pub fn roll_stat(rng: &mut StdRng, low: u16) -> (stat: u16)
    ensures
        low <= stat,
{
    draw(rng, low as u64, 65536) as u16
}

/// Draws one modifier from the modifier range.
pub fn roll_modifier(rng: &mut StdRng) -> (m: i8)
    ensures
        MODIFIER_LOW <= m < MODIFIER_HIGH,
{
    roll_between(rng, MODIFIER_LOW as i32, MODIFIER_HIGH as i32) as i8
}

/// Draws five modifiers, each on its own, from the modifier range.
pub fn roll_modifiers(rng: &mut StdRng) -> (m: Modifiers)
    ensures
        m.in_range(),
{
    let health = roll_modifier(rng);
    let strength = roll_modifier(rng);
    let desire = roll_modifier(rng);
    let frequency = roll_modifier(rng);
    let expectancy = roll_modifier(rng);
    Modifiers { health, strength, desire, frequency, expectancy }
}

} // verus!
