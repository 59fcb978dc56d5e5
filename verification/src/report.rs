//! The record of a tick, and what a record means.
//!
//! A tick reports every engagement and every rebirth, in the order in which
//! they happened, with the numbers that were drawn for them. The board
//! after the tick is a function of the board before it and of the report:
//! the functions here say which one, and which reports a tick can give.

use crate::ageing::may_die;
use crate::ageing::must_die;
use crate::ageing::spec_aged;
use crate::board::BoardView;
use crate::cell::Cell;
use crate::cell::Modifiers;
use crate::combat::spec_acts;
use crate::combat::spec_changes_hands;
use crate::combat::spec_clash;
use crate::combat::spec_engages;
use crate::combat::spec_settle;
use crate::combat::spec_strength;
use crate::combat::Verdict;
use crate::direction::Direction;
use crate::genome::Genome;
use crate::rules::Rules;
use vstd::prelude::*;

verus! {

/// One fight. Places are places in the row-major order of the board.
#[derive(Clone, Copy, PartialEq, Eq, Structural, Debug)]
pub struct Engagement {
    /// The place of the cell that attacked.
    pub attacker: usize,
    /// The place of the cell that was attacked.
    pub defender: usize,
    /// The direction from the attacker to the defender.
    pub direction: Direction,
    /// The attacker's strength in this fight, noise included.
    pub attack: i64,
    /// The defender's strength in this fight, noise included.
    pub defence: i64,
    /// The modifiers rolled for the captured cell. Neutral if no cell was
    /// captured.
    pub fresh: Modifiers,
}

/// One death of old age: the cell at `place` was replaced by a new cell of
/// genome number `genome` with these modifiers.
#[derive(Clone, Copy, PartialEq, Eq, Structural, Debug)]
pub struct Rebirth {
    pub place: usize,
    pub genome: usize,
    pub modifiers: Modifiers,
}

/// What happened in one tick.
#[derive(Clone, Debug, PartialEq, Eq)]
pub struct TickReport {
    /// The fights, in the order of their attackers' places.
    pub engagements: Vec<Engagement>,
    /// The deaths of old age, in the order of their places.
    pub rebirths: Vec<Rebirth>,
}

/// The cell at the start of a tick: as it was, and not having fought.
pub open spec fn spec_rested(cell: Cell) -> Cell {
    Cell { fought_this_tick: false, ..cell }
}

/// The board at the start of a tick: no cell has fought.
pub open spec fn rested_board(b: BoardView) -> BoardView {
    BoardView { cells: Seq::new(b.cells.len(), |i: int| spec_rested(b.cells[i])), ..b }
}

/// The board with every cell one tick older.
pub open spec fn aged_board(b: BoardView) -> BoardView {
    BoardView { cells: Seq::new(b.cells.len(), |i: int| spec_aged(b.cells[i])), ..b }
}

/// The genome of the cell at `place`.
pub open spec fn genome_at(b: BoardView, place: int) -> Genome {
    b.genomes[b.cells[place].genome as int]
}

/// Whether the cell at `place` can pass both the engagement test and the
/// frequency gate: it has not fought, and the most favourable noise and
/// roll let it through.
pub open spec fn may_engage(b: BoardView, rules: Rules, place: int) -> bool {
    &&& spec_engages(genome_at(b, place), b.cells[place], rules.desire_noise as int, rules)
    &&& spec_acts(genome_at(b, place), b.cells[place], 0)
}

/// Whether the cell at `place` passes both the engagement test and the
/// frequency gate whatever is drawn: it has not fought, and the least
/// favourable noise and roll let it through.
pub open spec fn keen(b: BoardView, rules: Rules, place: int) -> bool {
    &&& spec_engages(genome_at(b, place), b.cells[place], -rules.desire_noise, rules)
    &&& spec_acts(genome_at(b, place), b.cells[place], rules.cadence - 1)
}

/// Whether the cell at `place` fights in its turn whatever is drawn: it is
/// keen and has a target.
pub open spec fn must_fight(b: BoardView, rules: Rules, place: int) -> bool {
    keen(b, rules, place) && exists|d: Direction| b.has_target(place, d)
}

/// Whether `value` is `centre` with noise of at most `amplitude`.
pub open spec fn within(value: int, centre: int, amplitude: int) -> bool {
    centre - amplitude <= value <= centre + amplitude
}

/// The verdict of an engagement.
pub open spec fn verdict_of(e: Engagement, rules: Rules) -> Verdict {
    spec_clash(e.attack as int, e.defence as int, rules)
}

/// Whether `e` can happen on board `b`: the attacker can pass its tests,
/// the defender is a target of it in the given direction, the first such
/// direction if the attacker is keen, both strengths are those of the
/// cells with noise within the amplitude, and the fresh modifiers are in
/// range.
pub open spec fn lawful(b: BoardView, rules: Rules, e: Engagement) -> bool {
    let attacker = b.cells[e.attacker as int];
    let defender = b.cells[e.defender as int];
    &&& e.attacker < b.cells.len()
    &&& e.defender < b.cells.len()
    &&& e.attacker != e.defender
    &&& b.has_target(e.attacker as int, e.direction)
    &&& e.defender == b.target(e.attacker as int, e.direction)
    &&& may_engage(b, rules, e.attacker as int)
    &&& keen(b, rules, e.attacker as int) ==> forall|d: Direction|
        d.rank() < e.direction.rank() ==> !#[trigger] b.has_target(e.attacker as int, d)
    &&& within(
        e.attack as int,
        spec_strength(genome_at(b, e.attacker as int), attacker, 0),
        rules.strength_noise as int,
    )
    &&& within(
        e.defence as int,
        spec_strength(genome_at(b, e.defender as int), defender, 0),
        rules.strength_noise as int,
    )
    &&& e.fresh.in_range()
    &&& !spec_changes_hands(attacker, defender, verdict_of(e, rules)) ==> e.fresh
        == Modifiers::spec_neutral()
}

/// The board after the engagement `e`: the two cells are as the combat
/// rules leave them, every other cell is as before.
pub open spec fn after_engagement(b: BoardView, rules: Rules, e: Engagement) -> BoardView {
    let after = spec_settle(
        b.cells[e.attacker as int],
        b.cells[e.defender as int],
        genome_at(b, e.attacker as int),
        genome_at(b, e.defender as int),
        verdict_of(e, rules),
        e.fresh,
        rules,
    );
    b.with_cell(e.attacker as int, after.0).with_cell(e.defender as int, after.1)
}

/// The board after the engagements of `log`, one after the other.
pub open spec fn replay(b: BoardView, rules: Rules, log: Seq<Engagement>) -> BoardView
    decreases log.len(),
{
    if log.len() == 0 {
        b
    } else {
        after_engagement(replay(b, rules, log.drop_last()), rules, log.last())
    }
}

/// Whether each engagement of `log` can happen on the board that the
/// engagements before it leave, and the attackers' places ascend.
pub open spec fn lawful_log(start: BoardView, rules: Rules, log: Seq<Engagement>) -> bool
    decreases log.len(),
{
    log.len() == 0 || {
        &&& lawful_log(start, rules, log.drop_last())
        &&& lawful(replay(start, rules, log.drop_last()), rules, log.last())
        &&& log.len() >= 2 ==> log[log.len() - 2].attacker < log.last().attacker
    }
}

/// Whether the cell at `place` attacks in `log`.
pub open spec fn attacks(log: Seq<Engagement>, place: int) -> bool {
    exists|k: int| 0 <= k < log.len() && (#[trigger] log[k]).attacker == place
}

/// How many engagements of `log`, whose attackers' places ascend, have an
/// attacker before `place`.
pub open spec fn turns_before(log: Seq<Engagement>, place: int) -> int
    decreases log.len(),
{
    if log.len() == 0 {
        0
    } else if log.last().attacker < place {
        log.len() as int
    } else {
        turns_before(log.drop_last(), place)
    }
}

/// The board as the cell at `place` finds it in its turn: after the
/// engagements of all attackers before it.
pub open spec fn board_at_turn(
    start: BoardView,
    rules: Rules,
    log: Seq<Engagement>,
    place: int,
) -> BoardView {
    replay(start, rules, log.take(turns_before(log, place)))
}

/// Whether every cell at a place before `upto` that does not attack in
/// `log` was free not to: it was not bound to fight in its turn.
pub open spec fn no_turn_skipped(
    start: BoardView,
    rules: Rules,
    log: Seq<Engagement>,
    upto: int,
) -> bool {
    forall|place: int|
        0 <= place < upto && !attacks(log, place) ==> !must_fight(
            #[trigger] board_at_turn(start, rules, log, place),
            rules,
            place,
        )
}

/// Whether no cell takes part in two engagements of `log`, as attacker or
/// as defender.
pub open spec fn each_fights_once(log: Seq<Engagement>) -> bool {
    &&& forall|k: int| 0 <= k < log.len() ==> (#[trigger] log[k]).attacker != log[k].defender
    &&& forall|j: int, k: int|
        0 <= j < k < log.len() ==> {
            &&& (#[trigger] log[j]).attacker != (#[trigger] log[k]).attacker
            &&& log[j].attacker != log[k].defender
            &&& log[j].defender != log[k].attacker
            &&& log[j].defender != log[k].defender
        }
}

/// The cell that a rebirth puts on the board.
pub open spec fn reborn_cell(b: BoardView, r: Rebirth) -> Cell {
    Cell::born(r.genome, b.genomes[r.genome as int], r.modifiers)
}

/// The board after the rebirth `r`.
pub open spec fn after_rebirth(b: BoardView, r: Rebirth) -> BoardView {
    b.with_cell(r.place as int, reborn_cell(b, r))
}

/// The board after the rebirths of `log`.
pub open spec fn reborn(b: BoardView, log: Seq<Rebirth>) -> BoardView
    decreases log.len(),
{
    if log.len() == 0 {
        b
    } else {
        after_rebirth(reborn(b, log.drop_last()), log.last())
    }
}

/// Whether the cell at `place` dies in `log`.
pub open spec fn buried(log: Seq<Rebirth>, place: int) -> bool {
    exists|k: int| 0 <= k < log.len() && (#[trigger] log[k]).place == place
}

/// Whether the rebirth `r` can happen on the board `b`, whose cells have
/// been aged: the cell is past its lifespan, and the new cell has a genome
/// of the population and modifiers in range.
pub open spec fn lawful_rebirth(b: BoardView, r: Rebirth) -> bool {
    &&& r.place < b.cells.len()
    &&& may_die(genome_at(b, r.place as int), b.cells[r.place as int])
    &&& r.genome < b.genomes.len()
    &&& r.modifiers.in_range()
}

/// Whether `log` can be the deaths of old age on the board `b`, whose
/// cells have been aged: each rebirth is lawful, the places ascend, and
/// every cell that must die does.
pub open spec fn lawful_rebirths(b: BoardView, rules: Rules, log: Seq<Rebirth>) -> bool {
    &&& forall|k: int| 0 <= k < log.len() ==> lawful_rebirth(b, #[trigger] log[k])
    &&& forall|j: int, k: int|
        0 <= j < k < log.len() ==> (#[trigger] log[j]).place < (#[trigger] log[k]).place
    &&& forall|place: int|
        0 <= place < b.cells.len() && must_die(
            genome_at(b, place),
            #[trigger] b.cells[place],
            rules,
        ) ==> buried(log, place)
}

/// What a tick does. The flags are cleared; then the engagements happen in
/// the order of the report, each lawful on the board that it finds, and no
/// cell that was bound to fight stays out; then every cell grows one tick
/// older; then the overdue cells of the report are reborn.
pub open spec fn tick_outcome(
    before: BoardView,
    after: BoardView,
    rules: Rules,
    engagements: Seq<Engagement>,
    rebirths: Seq<Rebirth>,
) -> bool {
    let start = rested_board(before);
    let fought = replay(start, rules, engagements);
    let older = aged_board(fought);
    &&& lawful_log(start, rules, engagements)
    &&& no_turn_skipped(start, rules, engagements, before.cells.len() as int)
    &&& lawful_rebirths(older, rules, rebirths)
    &&& after == reborn(older, rebirths)
}

/// What the turn of the cell at `place` does to the board: nothing, which
/// is open to it only if it was not bound to fight, or one lawful
/// engagement with it as the attacker.
pub open spec fn turn_outcome(
    before: BoardView,
    after: BoardView,
    rules: Rules,
    place: int,
    outcome: Option<Engagement>,
) -> bool {
    match outcome {
        None => after == before && !must_fight(before, rules, place),
        Some(e) => {
            &&& e.attacker == place
            &&& lawful(before, rules, e)
            &&& after == after_engagement(before, rules, e)
        },
    }
}

/// What growing older does to the cell at `place`: it ages by one tick,
/// which is all only if it need not die, or it is past its lifespan and is
/// reborn.
pub open spec fn elder_outcome(
    before: BoardView,
    after: BoardView,
    rules: Rules,
    place: int,
    outcome: Option<Rebirth>,
) -> bool {
    let older = spec_aged(before.cells[place]);
    let genome = before.genomes[older.genome as int];
    match outcome {
        None => after == before.with_cell(place, older) && !must_die(genome, older, rules),
        Some(r) => {
            &&& r.place == place
            &&& may_die(genome, older)
            &&& r.genome < before.genomes.len()
            &&& r.modifiers.in_range()
            &&& after == before.with_cell(place, reborn_cell(before, r))
        },
    }
}

} // verus!
