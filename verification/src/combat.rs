//! The combat resolver: whether a cell attacks, who wins, and what the fight
//! does to both cells.
//!
//! Every function here is a function of its arguments alone. The noise and
//! the rolls that a fight needs are arguments too, so each rule holds for
//! every number that the random source can give.

use crate::cell::Cell;
use crate::cell::Modifiers;
use crate::genome::Genome;
use crate::rules::Rules;
use vstd::prelude::*;

verus! {

/// One of the two cells of a fight.
#[derive(Clone, Copy, PartialEq, Eq, Structural, Debug)]
pub enum Side {
    Attacker,
    Defender,
}

/// How the strengths of the two sides compare.
#[derive(Clone, Copy, PartialEq, Eq, Structural, Debug)]
pub enum Verdict {
    /// The gap is within the tie band: both sides are grazed.
    Draw,
    /// The gap is above the tie band and at most the rout threshold: the
    /// loser takes `damage`, as far as its health goes.
    Hit { loser: Side, damage: u32 },
    /// The gap is above the rout threshold: the loser is captured at once.
    Rout { loser: Side },
}

/// The side that is not `side`.
pub open spec fn other_side(side: Side) -> Side {
    match side {
        Side::Attacker => Side::Defender,
        Side::Defender => Side::Attacker,
    }
}

/// The verdict with the sides exchanged.
pub open spec fn spec_mirrored(verdict: Verdict) -> Verdict {
    match verdict {
        Verdict::Draw => Verdict::Draw,
        Verdict::Hit { loser, damage } => Verdict::Hit { loser: other_side(loser), damage },
        Verdict::Rout { loser } => Verdict::Rout { loser: other_side(loser) },
    }
}

/// The desire of a cell in one pairing: base, modifier and noise.
pub open spec fn spec_desire(genome: Genome, cell: Cell, noise: int) -> int {
    genome.base_desire + cell.modifiers.desire + noise
}

/// The engagement test: the desire is above the engagement threshold.
pub open spec fn spec_engages(genome: Genome, cell: Cell, noise: int, rules: Rules) -> bool {
    spec_desire(genome, cell, noise) > rules.engagement_threshold
}

/// The frequency gate: the cell has not fought in this tick, and the roll
/// is below its frequency with modifier.
pub open spec fn spec_acts(genome: Genome, cell: Cell, roll: int) -> bool {
    !cell.fought_this_tick && roll < genome.base_frequency + cell.modifiers.frequency
}

/// The strength of a cell in one fight: base, modifier and noise.
pub open spec fn spec_strength(genome: Genome, cell: Cell, noise: int) -> int {
    genome.base_strength + cell.modifiers.strength + noise
}

/// The side that loses when `attack` meets `defence` and they differ.
pub open spec fn spec_loser(attack: int, defence: int) -> Side {
    if attack > defence {
        Side::Defender
    } else {
        Side::Attacker
    }
}

/// The absolute difference of the two strengths.
pub open spec fn spec_gap(attack: int, defence: int) -> int {
    if attack >= defence {
        attack - defence
    } else {
        defence - attack
    }
}

/// The verdict on `attack` against `defence`.
pub open spec fn spec_clash(attack: int, defence: int, rules: Rules) -> Verdict {
    let gap = spec_gap(attack, defence);
    if gap <= rules.tie_band {
        Verdict::Draw
    } else if gap > rules.rout_threshold {
        Verdict::Rout { loser: spec_loser(attack, defence) }
    } else {
        Verdict::Hit {
            loser: spec_loser(attack, defence),
            damage: (gap / (rules.damage_divisor as int)) as u32,
        }
    }
}

/// A cell that took part in a fight and was not touched.
pub open spec fn spec_marked(cell: Cell) -> Cell {
    Cell { fought_this_tick: true, ..cell }
}

/// A cell after a draw. A draw changes no owner, so it never takes the last
/// point of health: a cell with no more health than `damage` is left with 1.
pub open spec fn spec_grazed(cell: Cell, damage: u32) -> Cell {
    Cell {
        current_health: if cell.current_health > damage {
            (cell.current_health - damage) as u32
        } else {
            1
        },
        fought_this_tick: true,
        ..cell
    }
}

/// A cell that `winner`, a cell of `winner_genome`, has just captured: it
/// belongs to the winner's species, has the fresh modifiers and the full
/// health that they give, and is of age zero.
pub open spec fn spec_captured(winner: Cell, winner_genome: Genome, fresh: Modifiers) -> Cell {
    Cell {
        genome: winner.genome,
        modifiers: fresh,
        current_health: Cell::full_health(winner_genome, fresh) as u32,
        age: 0,
        fought_this_tick: true,
    }
}

/// The loser of a hit: it loses `damage`, and if that is all the health it
/// has, it is captured.
pub open spec fn spec_struck(
    loser: Cell,
    damage: u32,
    winner: Cell,
    winner_genome: Genome,
    fresh: Modifiers,
) -> Cell {
    if damage >= loser.current_health {
        spec_captured(winner, winner_genome, fresh)
    } else {
        Cell {
            current_health: (loser.current_health - damage) as u32,
            fought_this_tick: true,
            ..loser
        }
    }
}

/// Whether the fight ends with one cell captured, so that fresh modifiers
/// are needed.
pub open spec fn spec_changes_hands(attacker: Cell, defender: Cell, verdict: Verdict) -> bool {
    match verdict {
        Verdict::Draw => false,
        Verdict::Hit { loser: Side::Attacker, damage } => damage >= attacker.current_health,
        Verdict::Hit { loser: Side::Defender, damage } => damage >= defender.current_health,
        Verdict::Rout { .. } => true,
    }
}

/// Both cells after the fight, the attacker first.
pub open spec fn spec_settle(
    attacker: Cell,
    defender: Cell,
    attacker_genome: Genome,
    defender_genome: Genome,
    verdict: Verdict,
    fresh: Modifiers,
    rules: Rules,
) -> (Cell, Cell) {
    match verdict {
        Verdict::Draw => (
            spec_grazed(attacker, rules.draw_damage),
            spec_grazed(defender, rules.draw_damage),
        ),
        Verdict::Hit { loser: Side::Attacker, damage } => (
            spec_struck(attacker, damage, defender, defender_genome, fresh),
            spec_marked(defender),
        ),
        Verdict::Hit { loser: Side::Defender, damage } => (
            spec_marked(attacker),
            spec_struck(defender, damage, attacker, attacker_genome, fresh),
        ),
        Verdict::Rout { loser: Side::Attacker } => (
            spec_captured(defender, defender_genome, fresh),
            spec_marked(defender),
        ),
        Verdict::Rout { loser: Side::Defender } => (
            spec_marked(attacker),
            spec_captured(attacker, attacker_genome, fresh),
        ),
    }
}

/// The engagement test of one pairing: does the attacker, with this noise
/// on its desire, want the fight?
pub fn engages(genome: &Genome, cell: &Cell, noise: i32, rules: &Rules) -> (yes: bool)
    ensures
        yes == spec_engages(*genome, *cell, noise as int, *rules),
{
    let desire: i64 = genome.base_desire as i64 + cell.modifiers.desire as i64 + noise as i64;
    desire > rules.engagement_threshold as i64
}

/// The frequency gate of one pairing: may the attacker, with this roll, act?
pub fn acts(genome: &Genome, cell: &Cell, roll: i32) -> (yes: bool)
    ensures
        yes == spec_acts(*genome, *cell, roll as int),
{
    let frequency: i64 = genome.base_frequency as i64 + cell.modifiers.frequency as i64;
    !cell.fought_this_tick && (roll as i64) < frequency
}

/// The strength that a cell brings to a fight with this noise.
pub fn strength(genome: &Genome, cell: &Cell, noise: i32) -> (s: i64)
    ensures
        s == spec_strength(*genome, *cell, noise as int),
{
    genome.base_strength as i64 + cell.modifiers.strength as i64 + noise as i64
}

/// Compares the two strengths: a draw within the tie band, a rout above the
/// rout threshold, a hit in between, whose damage is the gap divided by the
/// damage divisor.
pub fn clash(attack: i64, defence: i64, rules: &Rules) -> (verdict: Verdict)
    requires
        rules.valid(),
    ensures
        verdict == spec_clash(attack as int, defence as int, *rules),
{
    let gap: i128 = if attack >= defence {
        attack as i128 - defence as i128
    } else {
        defence as i128 - attack as i128
    };
    let loser = if attack > defence {
        Side::Defender
    } else {
        Side::Attacker
    };
    if gap <= rules.tie_band as i128 {
        Verdict::Draw
    } else if gap > rules.rout_threshold as i128 {
        Verdict::Rout { loser }
    } else {
        let damage: i128 = gap / (rules.damage_divisor as i128);
        Verdict::Hit { loser, damage: damage as u32 }
    }
}

/// Whether the fight ends with one cell captured. Fresh modifiers are
/// rolled only then.
pub fn changes_hands(attacker: &Cell, defender: &Cell, verdict: &Verdict) -> (yes: bool)
    ensures
        yes == spec_changes_hands(*attacker, *defender, *verdict),
{
    match verdict {
        Verdict::Draw => false,
        Verdict::Hit { loser: Side::Attacker, damage } => *damage >= attacker.current_health,
        Verdict::Hit { loser: Side::Defender, damage } => *damage >= defender.current_health,
        Verdict::Rout { .. } => true,
    }
}

/// The cell that `winner` has captured with the fresh modifiers.
pub fn captured(winner: &Cell, winner_genome: &Genome, fresh: Modifiers) -> (cell: Cell)
    requires
        winner_genome.fit(),
        fresh.in_range(),
    ensures
        cell == spec_captured(*winner, *winner_genome, fresh),
        cell.alive(),
        cell.genome == winner.genome,
        cell.modifiers == fresh,
        cell.current_health == winner_genome.base_health + fresh.health,
        cell.age == 0,
{
    let health: i32 = winner_genome.base_health as i32 + fresh.health as i32;
    Cell {
        genome: winner.genome,
        modifiers: fresh,
        current_health: health as u32,
        age: 0,
        fought_this_tick: true,
    }
}

/// Applies the verdict to both cells and marks both as having fought. The
/// fresh modifiers go to the cell that is captured, if one is.
pub fn settle(
    attacker: &Cell,
    defender: &Cell,
    attacker_genome: &Genome,
    defender_genome: &Genome,
    verdict: &Verdict,
    fresh: Modifiers,
    rules: &Rules,
) -> (after: (Cell, Cell))
    requires
        attacker.alive(),
        defender.alive(),
        attacker_genome.fit(),
        defender_genome.fit(),
        fresh.in_range(),
    ensures
        after == spec_settle(
            *attacker,
            *defender,
            *attacker_genome,
            *defender_genome,
            *verdict,
            fresh,
            *rules,
        ),
        after.0.alive(),
        after.1.alive(),
        after.0.fought_this_tick,
        after.1.fought_this_tick,
{
    match verdict {
        Verdict::Draw => (graze(attacker, rules.draw_damage), graze(defender, rules.draw_damage)),
        Verdict::Hit { loser: Side::Attacker, damage } => (
            strike(attacker, *damage, defender, defender_genome, fresh),
            mark(defender),
        ),
        Verdict::Hit { loser: Side::Defender, damage } => (
            mark(attacker),
            strike(defender, *damage, attacker, attacker_genome, fresh),
        ),
        Verdict::Rout { loser: Side::Attacker } => (
            captured(defender, defender_genome, fresh),
            mark(defender),
        ),
        Verdict::Rout { loser: Side::Defender } => (
            mark(attacker),
            captured(attacker, attacker_genome, fresh),
        ),
    }
}

fn mark(cell: &Cell) -> (after: Cell)
    ensures
        after == spec_marked(*cell),
{
    Cell { fought_this_tick: true, ..*cell }
}

fn graze(cell: &Cell, damage: u32) -> (after: Cell)
    ensures
        after == spec_grazed(*cell, damage),
{
    let health: u32 = if cell.current_health > damage {
        cell.current_health - damage
    } else {
        1
    };
    Cell { current_health: health, fought_this_tick: true, ..*cell }
}

fn strike(
    loser: &Cell,
    damage: u32,
    winner: &Cell,
    winner_genome: &Genome,
    fresh: Modifiers,
) -> (after: Cell)
    requires
        winner_genome.fit(),
        fresh.in_range(),
    ensures
        after == spec_struck(*loser, damage, *winner, *winner_genome, fresh),
{
    if damage >= loser.current_health {
        captured(winner, winner_genome, fresh)
    } else {
        Cell { current_health: loser.current_health - damage, fought_this_tick: true, ..*loser }
    }
}

/// Whatever the verdict, both cells are marked as having fought, both are
/// alive afterwards, and each belongs to its own genome or to the other's.
pub proof fn both_sides_are_marked(
    attacker: Cell,
    defender: Cell,
    attacker_genome: Genome,
    defender_genome: Genome,
    verdict: Verdict,
    fresh: Modifiers,
    rules: Rules,
)
    requires
        attacker.alive(),
        defender.alive(),
        attacker_genome.fit(),
        defender_genome.fit(),
        fresh.in_range(),
    ensures
        ({
            let after = spec_settle(
                attacker,
                defender,
                attacker_genome,
                defender_genome,
                verdict,
                fresh,
                rules,
            );
            &&& after.0.fought_this_tick && after.1.fought_this_tick
            &&& after.0.alive() && after.1.alive()
            &&& after.0.genome == attacker.genome || after.0.genome == defender.genome
            &&& after.1.genome == attacker.genome || after.1.genome == defender.genome
        }),
{
}

/// A draw changes no owner: both cells keep their genome, their modifiers
/// and their age, and each loses the draw damage or, if it has no more
/// than that, all health but one point.
pub proof fn a_draw_changes_no_owner(
    attacker: Cell,
    defender: Cell,
    attacker_genome: Genome,
    defender_genome: Genome,
    verdict: Verdict,
    fresh: Modifiers,
    rules: Rules,
)
    requires
        verdict is Draw,
    ensures
        !spec_changes_hands(attacker, defender, verdict),
        ({
            let after = spec_settle(
                attacker,
                defender,
                attacker_genome,
                defender_genome,
                verdict,
                fresh,
                rules,
            );
            &&& after.0 == spec_grazed(attacker, rules.draw_damage)
            &&& after.1 == spec_grazed(defender, rules.draw_damage)
            &&& after.0.genome == attacker.genome && after.1.genome == defender.genome
            &&& after.0.modifiers == attacker.modifiers && after.1.modifiers == defender.modifiers
            &&& after.0.age == attacker.age && after.1.age == defender.age
            &&& attacker.current_health > rules.draw_damage ==> after.0.current_health
                == attacker.current_health - rules.draw_damage
            &&& defender.current_health > rules.draw_damage ==> after.1.current_health
                == defender.current_health - rules.draw_damage
            &&& attacker.current_health <= rules.draw_damage ==> after.0.current_health == 1
            &&& defender.current_health <= rules.draw_damage ==> after.1.current_health == 1
        }),
{
}

/// A hit costs the loser no more than the health it has, and leaves the
/// winner as it was but for its mark. The loser changes hands exactly if
/// the damage is all the health it has or more; if it does not, it keeps
/// its genome, its modifiers and its age.
pub proof fn a_hit_wounds_or_captures(
    attacker: Cell,
    defender: Cell,
    attacker_genome: Genome,
    defender_genome: Genome,
    verdict: Verdict,
    fresh: Modifiers,
    rules: Rules,
)
    requires
        verdict is Hit,
    ensures
        ({
            let after = spec_settle(
                attacker,
                defender,
                attacker_genome,
                defender_genome,
                verdict,
                fresh,
                rules,
            );
            let damage = verdict->damage;
            let loser = verdict->Hit_loser;
            match loser {
                Side::Attacker => {
                    &&& after.1 == spec_marked(defender)
                    &&& after.0 == spec_struck(attacker, damage, defender, defender_genome, fresh)
                    &&& damage < attacker.current_health ==> {
                        &&& !spec_changes_hands(attacker, defender, verdict)
                        &&& after.0.current_health == attacker.current_health - damage
                        &&& after.0.genome == attacker.genome
                        &&& after.0.modifiers == attacker.modifiers
                        &&& after.0.age == attacker.age
                    }
                    &&& damage >= attacker.current_health ==> {
                        &&& spec_changes_hands(attacker, defender, verdict)
                        &&& after.0 == spec_captured(defender, defender_genome, fresh)
                    }
                },
                Side::Defender => {
                    &&& after.0 == spec_marked(attacker)
                    &&& after.1 == spec_struck(defender, damage, attacker, attacker_genome, fresh)
                    &&& damage < defender.current_health ==> {
                        &&& !spec_changes_hands(attacker, defender, verdict)
                        &&& after.1.current_health == defender.current_health - damage
                        &&& after.1.genome == defender.genome
                        &&& after.1.modifiers == defender.modifiers
                        &&& after.1.age == defender.age
                    }
                    &&& damage >= defender.current_health ==> {
                        &&& spec_changes_hands(attacker, defender, verdict)
                        &&& after.1 == spec_captured(attacker, attacker_genome, fresh)
                    }
                },
            }
        }),
{
}

/// A rout captures the loser whatever health it has left, and leaves the
/// winner as it was but for its mark.
pub proof fn a_rout_captures(
    attacker: Cell,
    defender: Cell,
    attacker_genome: Genome,
    defender_genome: Genome,
    verdict: Verdict,
    fresh: Modifiers,
    rules: Rules,
)
    requires
        verdict is Rout,
    ensures
        spec_changes_hands(attacker, defender, verdict),
        ({
            let after = spec_settle(
                attacker,
                defender,
                attacker_genome,
                defender_genome,
                verdict,
                fresh,
                rules,
            );
            let loser = verdict->Rout_loser;
            match loser {
                Side::Attacker => {
                    &&& after.0 == spec_captured(defender, defender_genome, fresh)
                    &&& after.1 == spec_marked(defender)
                },
                Side::Defender => {
                    &&& after.0 == spec_marked(attacker)
                    &&& after.1 == spec_captured(attacker, attacker_genome, fresh)
                },
            }
        }),
{
}

/// The verdict does not depend on who attacked: with the strengths
/// exchanged, a draw stays a draw, and a hit or a rout goes against the
/// other side with the same damage.
pub proof fn clash_is_symmetric(attack: int, defence: int, rules: Rules)
    requires
        rules.valid(),
    ensures
        spec_clash(defence, attack, rules) == spec_mirrored(spec_clash(attack, defence, rules)),
{
}

} // verus!
