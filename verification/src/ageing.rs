//! Growing old: a cell's age, and the death of a cell that has outlived its
//! expectancy.
//!
//! A cell past its expectancy dies if a roll from the death span is below
//! the number of ticks by which it is past it, so the chance grows with
//! every tick and is certain once that number reaches the span.

use crate::cell::Cell;
use crate::genome::Genome;
use crate::rules::Rules;
use vstd::prelude::*;

verus! {

/// The cell one tick older. The age stops at the largest `u32`.
pub open spec fn spec_aged(cell: Cell) -> Cell {
    Cell {
        age: if cell.age < u32::MAX {
            (cell.age + 1) as u32
        } else {
            cell.age
        },
        ..cell
    }
}

/// The number of ticks that the cell is expected to live: the base
/// expectancy of its genome with the cell's modifier.
pub open spec fn spec_lifespan(genome: Genome, cell: Cell) -> int {
    genome.base_expectancy + cell.modifiers.expectancy
}

/// By how many ticks the cell's age is above its lifespan. Not positive
/// for a cell that has not outlived it.
pub open spec fn spec_overdue(genome: Genome, cell: Cell) -> int {
    cell.age - spec_lifespan(genome, cell)
}

/// The death roll: the cell is past its lifespan, and the roll is below
/// the number of ticks by which it is.
pub open spec fn spec_dies(genome: Genome, cell: Cell, roll: int) -> bool {
    spec_overdue(genome, cell) > 0 && roll < spec_overdue(genome, cell)
}

/// Whether some roll of the death span kills the cell.
pub open spec fn may_die(genome: Genome, cell: Cell) -> bool {
    spec_overdue(genome, cell) > 0
}

/// Whether every roll of the death span kills the cell.
pub open spec fn must_die(genome: Genome, cell: Cell, rules: Rules) -> bool {
    spec_overdue(genome, cell) >= rules.death_span
}

/// The cell one tick older.
pub fn aged(cell: &Cell) -> (older: Cell)
    ensures
        older == spec_aged(*cell),
{
    let age: u32 = if cell.age < u32::MAX {
        cell.age + 1
    } else {
        cell.age
    };
    Cell { age, ..*cell }
}

/// Whether the cell has outlived its lifespan, so that a death roll is due.
pub fn is_overdue(genome: &Genome, cell: &Cell) -> (yes: bool)
    ensures
        yes == may_die(*genome, *cell),
{
    cell.age as i64 > genome.base_expectancy as i64 + cell.modifiers.expectancy as i64
}

/// The death roll of a cell: does it die with this roll?
pub fn dies(genome: &Genome, cell: &Cell, roll: i32) -> (yes: bool)
    ensures
        yes == spec_dies(*genome, *cell, roll as int),
{
    let overdue: i64 = cell.age as i64 - (genome.base_expectancy as i64
        + cell.modifiers.expectancy as i64);
    overdue > 0 && (roll as i64) < overdue
}

/// The chance of death never falls with age: a roll that kills a cell
/// kills the same cell at any greater age too.
pub proof fn death_grows_with_age(genome: Genome, cell: Cell, later: Cell, roll: int)
    requires
        later.modifiers == cell.modifiers,
        later.age >= cell.age,
        spec_dies(genome, cell, roll),
    ensures
        spec_dies(genome, later, roll),
{
}

/// Within its lifespan a cell survives every roll that is not negative;
/// once it is overdue by the whole death span, no roll of the span saves it.
pub proof fn death_roll_bounds(genome: Genome, cell: Cell, rules: Rules, roll: int)
    requires
        0 <= roll < rules.death_span,
    ensures
        !may_die(genome, cell) ==> !spec_dies(genome, cell, roll),
        must_die(genome, cell, rules) ==> spec_dies(genome, cell, roll),
{
}

} // verus!
