//! The turn of one cell: picking a fight, and growing older.
//!
//! These are the two steps that a tick takes with every cell. The numbers
//! that they need are drawn here; what is done with them is decided by the
//! rules of combat and of ageing.

use crate::ageing::aged;
use crate::ageing::dies;
use crate::ageing::is_overdue;
use crate::board::PixelBoard;
use crate::cell::Cell;
use crate::cell::Modifiers;
use crate::combat::acts;
use crate::combat::changes_hands;
use crate::combat::clash;
use crate::combat::engages;
use crate::combat::settle;
use crate::combat::spec_changes_hands;
use crate::combat::spec_strength;
use crate::combat::strength;
use crate::dice::roll_between;
use crate::dice::roll_index;
use crate::dice::roll_modifiers;
use crate::dice::roll_noise;
use crate::direction::Direction;
use crate::report::after_engagement;
use crate::report::elder_outcome;
use crate::report::genome_at;
use crate::report::keen;
use crate::report::turn_outcome;
use crate::report::verdict_of;
use crate::report::within;
use crate::report::Engagement;
use crate::report::Rebirth;
use crate::rules::Rules;
use rand::StdRng;
use vstd::prelude::*;

verus! {

/// The turn of the cell at `place`: it picks a fight or lets the turn
/// pass. It looks at its neighbours in the canonical order of the
/// directions. For each enemy among them that has not fought in this tick
/// it rolls noise on its desire and, if the engagement test passes, a
/// frequency roll; if the frequency gate passes too, it fights that
/// neighbour and its turn ends. A cell that has fought already, as the
/// defender of an earlier cell, does not attack.
pub fn pick_fight(
    board: &mut PixelBoard,
    rules: &Rules,
    place: usize,
    rng: &mut StdRng,
) -> (outcome: Option<Engagement>)
    requires
        old(board).wf(),
        rules.valid(),
        place < old(board)@.cells.len(),
    ensures
        final(board).wf(),
        turn_outcome(old(board)@, final(board)@, *rules, place as int, outcome),
{
    let me: Cell = *board.cell(place);
    if me.fought_this_tick {
        return None;
    }
    let (x, y) = board.coords(place);
    let dirs = Direction::all();
    let mut rank: usize = 0;
    while rank < 8
        invariant
            rank <= 8,
            board.wf(),
            rules.valid(),
            board@ == old(board)@,
            place < board@.cells.len(),
            me == board@.cells[place as int],
            board@.contains(x as int, y as int),
            board@.index_of(x as int, y as int) == place,
            forall|i: int| 0 <= i < 8 ==> #[trigger] dirs[i] == Direction::of_rank(i),
            keen(board@, *rules, place as int) ==> forall|d: Direction|
                d.rank() < rank ==> !#[trigger] board@.has_target(place as int, d),
        decreases 8 - rank,
    {
        let d = dirs[rank];
        if let Some(target) = board.target_towards(x, y, d) {
            let noise = roll_noise(rng, rules.desire_noise);
            if engages(board.genome(me.genome), &me, noise, rules) {
                let roll = roll_between(rng, 0, rules.cadence);
                if acts(board.genome(me.genome), &me, roll) {
                    return Some(fight(board, rules, place, target, d, rng));
                }
            }
        }
        rank += 1;
    }
    None
}

/// Lets the cell at `place` grow one tick older. If it is then past its
/// lifespan, a death roll is made; if the cell dies, it is replaced by a
/// new cell whose genome is drawn from the whole population and whose
/// modifiers are fresh.
pub fn grow_older(
    board: &mut PixelBoard,
    rules: &Rules,
    place: usize,
    rng: &mut StdRng,
) -> (outcome: Option<Rebirth>)
    requires
        old(board).wf(),
        rules.valid(),
        place < old(board)@.cells.len(),
    ensures
        final(board).wf(),
        elder_outcome(old(board)@, final(board)@, *rules, place as int, outcome),
{
    let older = aged(board.cell(place));
    if is_overdue(board.genome(older.genome), &older) {
        let roll = roll_between(rng, 0, rules.death_span);
        if dies(board.genome(older.genome), &older, roll) {
            let genome = roll_index(rng, board.genomes().len());
            let modifiers = roll_modifiers(rng);
            let newborn = Cell::spawn(genome, board.genome(genome), modifiers);
            board.put(place, newborn);
            return Some(Rebirth { place, genome, modifiers });
        }
    }
    board.put(place, older);
    None
}

/// Lets the cell at `attacker` fight the cell at `defender`, which lies in
/// direction `direction` of it: rolls the noise on both strengths,
/// compares them, rolls fresh modifiers if a cell is captured, and writes
/// both cells back.
fn fight(
    board: &mut PixelBoard,
    rules: &Rules,
    attacker: usize,
    defender: usize,
    direction: Direction,
    rng: &mut StdRng,
) -> (e: Engagement)
    requires
        old(board).wf(),
        rules.valid(),
        attacker < old(board)@.cells.len(),
        defender < old(board)@.cells.len(),
    ensures
        final(board).wf(),
        final(board)@ == after_engagement(old(board)@, *rules, e),
        e.attacker == attacker,
        e.defender == defender,
        e.direction == direction,
        e.fresh.in_range(),
        within(
            e.attack as int,
            spec_strength(
                genome_at(old(board)@, attacker as int),
                old(board)@.cells[attacker as int],
                0,
            ),
            rules.strength_noise as int,
        ),
        within(
            e.defence as int,
            spec_strength(
                genome_at(old(board)@, defender as int),
                old(board)@.cells[defender as int],
                0,
            ),
            rules.strength_noise as int,
        ),
        !spec_changes_hands(
            old(board)@.cells[attacker as int],
            old(board)@.cells[defender as int],
            verdict_of(e, *rules),
        ) ==> e.fresh == Modifiers::spec_neutral(),
{
    let me: Cell = *board.cell(attacker);
    let foe: Cell = *board.cell(defender);
    let attack_noise = roll_noise(rng, rules.strength_noise);
    let defence_noise = roll_noise(rng, rules.strength_noise);
    let attack = strength(board.genome(me.genome), &me, attack_noise);
    let defence = strength(board.genome(foe.genome), &foe, defence_noise);
    let verdict = clash(attack, defence, rules);
    let fresh = if changes_hands(&me, &foe, &verdict) {
        roll_modifiers(rng)
    } else {
        Modifiers::neutral()
    };
    let (me_after, foe_after) = settle(
        &me,
        &foe,
        board.genome(me.genome),
        board.genome(foe.genome),
        &verdict,
        fresh,
        rules,
    );
    board.put(attacker, me_after);
    board.put(defender, foe_after);
    Engagement { attacker, defender, direction, attack, defence, fresh }
}

} // verus!
