//! Species: the baseline stats that all cells of one kind share.

use crate::cell::MODIFIER_LOW;
use crate::dice::roll_stat;
use crate::error::ConfigError;
use rand::StdRng;
use vstd::arithmetic::div_mod::lemma_div_is_ordered;
use vstd::arithmetic::div_mod::lemma_div_plus_one;
use vstd::arithmetic::div_mod::lemma_multiply_divide_lt;
use vstd::prelude::*;
use vstd::string::*;

verus! {

/// The least base health a genome may have: with it, a cell whose health
/// modifier is as low as it can be still starts with health 1.
pub const MIN_BASE_HEALTH: u16 = 11;

/// The number of names that the naming scheme has: the single letters from
/// `A` to `Y`.
pub const NAME_CAPACITY: usize = 25;

/// One species. A genome is a plain value that nothing changes once its
/// population has been handed to a board; cells refer to it by its place in
/// that population.
#[derive(Clone, Debug, PartialEq, Eq)]
pub struct Genome {
    /// A short identifier, unique within a population.
    pub name: String,
    /// The base colour as an angle in degrees. Only the display uses it.
    pub hue: i16,
    /// How much health a cell of this species starts with.
    pub base_health: u16,
    /// How hard a cell hits.
    pub base_strength: u16,
    /// How much a cell wants to attack.
    pub base_desire: u16,
    /// How often a cell attacks.
    pub base_frequency: u16,
    /// How many ticks a cell is expected to live.
    pub base_expectancy: u16,
}

impl Genome {
    /// Every cell of this genome starts alive, whatever its health modifier.
    pub open spec fn fit(self) -> bool {
        self.base_health >= MIN_BASE_HEALTH
    }

    /// Tests whether every cell of this genome starts alive.
    pub fn is_fit(&self) -> (ok: bool)
        ensures
            ok == self.fit(),
    {
        self.base_health >= MIN_BASE_HEALTH
    }

    /// Creates a species with the given name and hue. Its five base stats
    /// are drawn at random, each on its own and from all values of `u16`,
    /// but for the base health, which is drawn from the fit values.
    pub fn new(name: String, hue: i16, rng: &mut StdRng) -> (genome: Genome)
        ensures
            genome.name == name,
            genome.hue == hue,
            genome.fit(),
    {
        let base_health = roll_stat(rng, MIN_BASE_HEALTH);
        let base_strength = roll_stat(rng, 0);
        let base_desire = roll_stat(rng, 0);
        let base_frequency = roll_stat(rng, 0);
        let base_expectancy = roll_stat(rng, 0);
        Genome {
            name,
            hue,
            base_health,
            base_strength,
            base_desire,
            base_frequency,
            base_expectancy,
        }
    }
}

/// A fit genome leaves positive health under the lowest health modifier.
pub proof fn fit_genome_starts_alive(genome: Genome, health_modifier: i8)
    requires
        genome.fit(),
        MODIFIER_LOW <= health_modifier,
    ensures
        genome.base_health + health_modifier >= 1,
{
}

/// The letter that names species number `i`: `A` for 0, `B` for 1, and so
/// on.
pub open spec fn spec_letter(i: int) -> char {
    (0x41 + i) as char
}

/// The name of species number `i`: its letter.
pub open spec fn spec_name(i: int) -> Seq<char> {
    seq![spec_letter(i)]
}

/// The hue of species number `i` of `n`: the hues are spread evenly over
/// the colour circle, from -180 degrees on.
pub open spec fn spec_hue(i: int, n: int) -> int {
    -180 + (360 * i) / n
}

/// The name of species number `i`.
pub fn name_of(i: usize) -> (name: String)
    requires
        i < NAME_CAPACITY,
    ensures
        name@ == spec_name(i as int),
{
    let alphabet = "ABCDEFGHIJKLMNOPQRSTUVWXY";
    proof {
        reveal_strlit("ABCDEFGHIJKLMNOPQRSTUVWXY");
    }
    let letter = alphabet.substring_ascii(i, i + 1);
    letter.to_owned()
}

/// The hue of species number `i` of `n`.
pub fn hue_of(i: usize, n: usize) -> (hue: i16)
    requires
        i < n <= NAME_CAPACITY,
    ensures
        hue == spec_hue(i as int, n as int),
        -180 <= hue < 180,
{
    proof {
        lemma_multiply_divide_lt(360 * i, n as int, 360);
    }
    let turn: i32 = (360 * i as i32) / n as i32;
    (turn - 180) as i16
}

/// Creates a population of `n` species. Species number `i` has the name
/// and the hue of its number; its five base stats are drawn at random, each
/// on its own, the base health from the fit values only.
///
/// Fails with `NamesExhausted` exactly if `n` is above the number of names.
pub fn generate_population(n: usize, rng: &mut StdRng) -> (r: Result<Vec<Genome>, ConfigError>)
    ensures
        match r {
            Ok(population) => {
                &&& n <= NAME_CAPACITY
                &&& population.len() == n
                &&& forall|i: int|
                    0 <= i < n ==> {
                        &&& (#[trigger] population@[i]).name@ == spec_name(i)
                        &&& population@[i].hue == spec_hue(i, n as int)
                        &&& population@[i].fit()
                    }
            },
            Err(e) => n > NAME_CAPACITY && e == ConfigError::NamesExhausted,
        },
{
    if n > NAME_CAPACITY {
        return Err(ConfigError::NamesExhausted);
    }
    let mut population: Vec<Genome> = Vec::with_capacity(n);
    let mut i: usize = 0;
    while i < n
        invariant
            i <= n <= NAME_CAPACITY,
            population.len() == i,
            forall|k: int|
                0 <= k < i ==> {
                    &&& (#[trigger] population@[k]).name@ == spec_name(k)
                    &&& population@[k].hue == spec_hue(k, n as int)
                    &&& population@[k].fit()
                },
        decreases n - i,
    {
        population.push(Genome::new(name_of(i), hue_of(i, n), rng));
        i += 1;
    }
    Ok(population)
}

/// No two species of a population have the same name.
pub proof fn names_are_unique(i: int, j: int)
    requires
        0 <= i < j < NAME_CAPACITY,
    ensures
        spec_name(i) != spec_name(j),
        spec_name(i).len() == 1,
{
    assert(spec_name(j)[0] == spec_letter(j));
}

/// The hues of a population lie on the colour circle, ascend with the
/// species' numbers, and no two of them are the same.
pub proof fn hues_are_spread(i: int, j: int, n: int)
    requires
        0 <= i < j < n <= NAME_CAPACITY,
    ensures
        -180 <= spec_hue(i, n) < spec_hue(j, n) < 180,
{
    lemma_multiply_divide_lt(360 * j, n, 360);
    lemma_div_plus_one(360 * i, n);
    lemma_div_is_ordered(n + 360 * i, 360 * j, n);
}

} // verus!
