//! The numbers that govern a fight and a death: thresholds, noise
//! amplitudes and damage. They are configuration: a scheduler is built with
//! one set of rules and keeps it.

use vstd::prelude::*;

verus! {

/// The combat and ageing rules.
///
/// A noise amplitude `a` means that the noise is drawn from `-a ..= a`. A
/// span `s` means that a roll is drawn from `0 .. s`.
#[derive(Clone, Copy, PartialEq, Eq, Structural, Debug)]
pub struct Rules {
    /// An attacker engages only if its desire, with modifier and noise, is
    /// above this.
    pub engagement_threshold: i32,
    /// Amplitude of the noise on desire, drawn once per candidate pairing.
    pub desire_noise: i32,
    /// Span of the frequency roll: an attacker acts only if the roll is
    /// below its frequency with modifier.
    pub cadence: i32,
    /// Amplitude of the noise on strength, drawn once for each side.
    pub strength_noise: i32,
    /// A strength gap of at most this is a draw.
    pub tie_band: i32,
    /// A strength gap above this is a rout: the loser is captured at once.
    pub rout_threshold: i32,
    /// The health that each side loses in a draw.
    pub draw_damage: u32,
    /// A hit that is no rout costs the loser the strength gap divided by
    /// this.
    pub damage_divisor: i32,
    /// Span of the death roll: a cell past its expectancy dies if the roll
    /// is below the number of ticks by which it is past it.
    pub death_span: i32,
}

impl Rules {
    /// Rules that do not contradict themselves: amplitudes are not
    /// negative, spans and the divisor are positive, and the tie band lies
    /// within the rout threshold.
    pub open spec fn valid(self) -> bool {
        &&& 0 <= self.desire_noise < i32::MAX
        &&& 0 <= self.strength_noise < i32::MAX
        &&& 1 <= self.cadence
        &&& 0 <= self.tie_band <= self.rout_threshold
        &&& 1 <= self.draw_damage
        &&& 1 <= self.damage_divisor
        &&& 1 <= self.death_span
    }

    /// The rules that a scheduler uses unless it is given others.
    pub open spec fn spec_standard() -> Rules {
        Rules {
            engagement_threshold: 32768,
            desire_noise: 16384,
            cadence: 65536,
            strength_noise: 4096,
            tie_band: 1024,
            rout_threshold: 32768,
            draw_damage: 16,
            damage_divisor: 8,
            death_span: 4096,
        }
    }

    /// The standard rules. The stats of a genome range over `0 ..= 65535`;
    /// the engagement threshold is the middle of that range and the desire
    /// noise half the threshold.
    pub fn standard() -> (rules: Rules)
        ensures
            rules == Rules::spec_standard(),
            rules.valid(),
    {
        Rules {
            engagement_threshold: 32768,
            desire_noise: 16384,
            cadence: 65536,
            strength_noise: 4096,
            tie_band: 1024,
            rout_threshold: 32768,
            draw_damage: 16,
            damage_divisor: 8,
            death_span: 4096,
        }
    }

    /// Tests whether these rules are valid.
    pub fn is_valid(&self) -> (ok: bool)
        ensures
            ok == self.valid(),
    {
        0 <= self.desire_noise && self.desire_noise < i32::MAX
            && 0 <= self.strength_noise && self.strength_noise < i32::MAX
            && 1 <= self.cadence
            && 0 <= self.tie_band && self.tie_band <= self.rout_threshold
            && 1 <= self.draw_damage
            && 1 <= self.damage_divisor
            && 1 <= self.death_span
    }
}

impl Default for Rules {
    fn default() -> (rules: Rules)
        ensures
            rules == Rules::spec_standard(),
    {
        Rules::standard()
    }
}

} // verus!
