//! What can go wrong at the library's boundary.
//!
//! Construction fails with a [`ConfigError`]; a direct accessor fails with
//! [`OutOfBounds`]. Once a board exists, a tick cannot fail.

use vstd::prelude::*;

verus! {

/// Why a population, a board or a scheduler could not be built. Nothing is
/// built in part: on any of these the constructor hands back no value.
#[derive(Clone, Copy, PartialEq, Eq, Structural, Debug)]
pub enum ConfigError {
    /// More species were asked for than the naming scheme has names.
    NamesExhausted,
    /// The population handed to a board is empty.
    EmptyPopulation,
    /// The board would have no cells: its width or its height is zero.
    ZeroArea,
    /// The number of cells, width times height, does not fit in `usize`.
    BoardTooLarge,
    /// A genome's base health is too low for every cell of it to start alive.
    FrailGenome,
    /// Cells were handed in whose number is not width times height, or one
    /// of which does not fit the population.
    MisfitCells,
    /// The combat rules contradict themselves.
    BadRules,
}

/// A coordinate pair that lies outside the board it was used on.
#[derive(Clone, Copy, PartialEq, Eq, Structural, Debug)]
pub struct OutOfBounds {
    pub x: usize,
    pub y: usize,
}

} // verus!
