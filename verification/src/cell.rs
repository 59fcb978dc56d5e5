//! One slot of the board: who owns it and how it is doing.

use crate::dice::roll_modifiers;
use crate::genome::Genome;
use rand::StdRng;
use vstd::prelude::*;

verus! {

/// The smallest value a modifier can take.
pub const MODIFIER_LOW: i8 = -10;

/// One more than the largest value a modifier can take.
pub const MODIFIER_HIGH: i8 = 10;

/// The deviations of one cell from its species' baseline stats, one per
/// stat. They are rolled when the cell is created and rolled again whenever
/// the cell changes hands.
#[derive(Clone, Copy, PartialEq, Eq, Structural, Debug)]
pub struct Modifiers {
    pub health: i8,
    pub strength: i8,
    pub desire: i8,
    pub frequency: i8,
    pub expectancy: i8,
}

/// Whether one modifier lies in the range `[MODIFIER_LOW, MODIFIER_HIGH)`.
pub open spec fn modifier_in_range(m: i8) -> bool {
    MODIFIER_LOW <= m < MODIFIER_HIGH
}

impl Modifiers {
    /// All five modifiers lie in the modifier range.
    pub open spec fn in_range(self) -> bool {
        &&& modifier_in_range(self.health)
        &&& modifier_in_range(self.strength)
        &&& modifier_in_range(self.desire)
        &&& modifier_in_range(self.frequency)
        &&& modifier_in_range(self.expectancy)
    }

    /// Modifiers that change nothing.
    pub open spec fn spec_neutral() -> Modifiers {
        Modifiers { health: 0, strength: 0, desire: 0, frequency: 0, expectancy: 0 }
    }

    /// Modifiers that change nothing: a cell exactly at its species' baseline.
    pub fn neutral() -> (m: Modifiers)
        ensures
            m == Modifiers::spec_neutral(),
            m.in_range(),
    {
        Modifiers { health: 0, strength: 0, desire: 0, frequency: 0, expectancy: 0 }
    }

    /// Tests whether all five modifiers lie in the modifier range.
    pub fn is_in_range(&self) -> (ok: bool)
        ensures
            ok == self.in_range(),
    {
        MODIFIER_LOW <= self.health && self.health < MODIFIER_HIGH
            && MODIFIER_LOW <= self.strength && self.strength < MODIFIER_HIGH
            && MODIFIER_LOW <= self.desire && self.desire < MODIFIER_HIGH
            && MODIFIER_LOW <= self.frequency && self.frequency < MODIFIER_HIGH
            && MODIFIER_LOW <= self.expectancy && self.expectancy < MODIFIER_HIGH
    }
}

/// One cell of the board. `genome` is the cell's species, as an index into
/// the population that the board holds.
#[derive(Clone, Copy, PartialEq, Eq, Structural, Debug)]
pub struct Cell {
    pub genome: usize,
    pub modifiers: Modifiers,
    pub current_health: u32,
    pub age: u32,
    pub fought_this_tick: bool,
}

impl Cell {
    /// The health that a cell of `genome` with `modifiers` starts with.
    pub open spec fn full_health(genome: Genome, modifiers: Modifiers) -> int {
        genome.base_health + modifiers.health
    }

    /// A cell as it is right after it was created for species number
    /// `genome_id`: at full health, of age zero, not having fought.
    pub open spec fn born(genome_id: usize, genome: Genome, modifiers: Modifiers) -> Cell {
        Cell {
            genome: genome_id,
            modifiers,
            current_health: Cell::full_health(genome, modifiers) as u32,
            age: 0,
            fought_this_tick: false,
        }
    }

    /// A live cell: its health is positive and its modifiers are in range.
    pub open spec fn alive(self) -> bool {
        self.current_health > 0 && self.modifiers.in_range()
    }

    /// A live cell whose species is one of `genomes`.
    pub open spec fn fits(self, genomes: Seq<Genome>) -> bool {
        self.alive() && self.genome < genomes.len()
    }

    /// A cell as it is right after it was created for a genome of
    /// `genomes`: it fits them, is at full health and of age zero, and has
    /// not fought.
    pub open spec fn newborn(self, genomes: Seq<Genome>) -> bool {
        self.fits(genomes) && self == Cell::born(
            self.genome,
            genomes[self.genome as int],
            self.modifiers,
        )
    }

    /// Creates a cell of species number `genome_id`, which is `genome`, with
    /// the given modifiers.
    pub fn spawn(genome_id: usize, genome: &Genome, modifiers: Modifiers) -> (cell: Cell)
        requires
            genome.fit(),
            modifiers.in_range(),
        ensures
            cell == Cell::born(genome_id, *genome, modifiers),
            cell.alive(),
            cell.current_health == genome.base_health + modifiers.health,
    {
        let health: i32 = genome.base_health as i32 + modifiers.health as i32;
        Cell {
            genome: genome_id,
            modifiers,
            current_health: health as u32,
            age: 0,
            fought_this_tick: false,
        }
    }

    /// Creates a cell of species number `genome_id`, which is `genome`, with
    /// freshly rolled modifiers.
    pub fn new(genome_id: usize, genome: &Genome, rng: &mut StdRng) -> (cell: Cell)
        requires
            genome.fit(),
        ensures
            cell == Cell::born(genome_id, *genome, cell.modifiers),
            cell.modifiers.in_range(),
            cell.alive(),
    {
        Cell::spawn(genome_id, genome, roll_modifiers(rng))
    }

    /// Tests whether this cell is alive.
    pub fn is_alive(&self) -> (ok: bool)
        ensures
            ok == self.alive(),
    {
        self.current_health > 0 && self.modifiers.is_in_range()
    }
}

} // verus!
