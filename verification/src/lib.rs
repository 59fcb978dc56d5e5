//! A grid-based artificial-life simulation core.
//!
//! A population of species competes for territory on a rectangular board
//! of cells. Every cell belongs to one species and carries its own small
//! deviations from that species' baseline stats. Once per tick each cell
//! may attack one neighbouring cell of another species; cells that run out
//! of health are taken over by the winner, and cells that outlive their
//! expectancy may die and be replaced.
//!
//! The parts, leaves first:
//!
//! - [`error`]: what construction and the accessors can refuse.
//! - [`direction`]: the eight compass directions and their offsets.
//! - [`genome`]: species, and the generation of a population.
//! - [`cell`]: one slot of the board.
//! - [`rules`]: the thresholds, amplitudes and damages of combat and death.
//! - [`dice`]: the random source. Every draw of the simulation goes
//!   through it.
//! - [`combat`] and [`ageing`]: the rules, as functions of the numbers
//!   drawn.
//! - [`board`]: the board, with its neighbour queries and its colour
//!   buffer.
//! - [`turn`]: what one cell does in a tick.
//! - [`scheduler`]: the tick.
//! - [`report`]: what a tick reports, and what a report means.
//! - [`laws`]: what holds of every tick.
//!
//! Colours are handed out as hue, saturation and lightness. Turning them
//! into red, green and blue is left to the display.

pub mod ageing;
pub mod board;
pub mod cell;
pub mod combat;
pub mod dice;
pub mod direction;
pub mod error;
pub mod genome;
pub mod laws;
pub mod report;
pub mod rules;
pub mod scheduler;
pub mod turn;
