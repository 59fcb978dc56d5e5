//! What holds of every tick, proved from the meaning of its report.

use crate::ageing::spec_aged;
use crate::board::coords_of_place;
use crate::board::enemy_list_is_exact;
use crate::board::place_of_coords;
use crate::board::BoardView;
use crate::cell::Cell;
use crate::combat::spec_changes_hands;
use crate::combat::spec_loser;
use crate::combat::Side;
use crate::report::after_engagement;
use crate::report::aged_board;
use crate::report::each_fights_once;
use crate::report::genome_at;
use crate::report::lawful;
use crate::report::lawful_log;
use crate::report::reborn;
use crate::report::replay;
use crate::report::rested_board;
use crate::report::spec_rested;
use crate::report::tick_outcome;
use crate::report::verdict_of;
use crate::report::Engagement;
use crate::report::Rebirth;
use crate::rules::Rules;
use vstd::prelude::*;

verus! {

/// Whether the cell at `place` takes part in an engagement of `log`, as
/// attacker or as defender.
pub open spec fn takes_part(log: Seq<Engagement>, place: int) -> bool {
    exists|k: int|
        0 <= k < log.len() && ((#[trigger] log[k]).attacker == place || log[k].defender == place)
}

/// The place of the cell that loses the engagement `e`, if the strengths
/// are not within the tie band.
pub open spec fn loser_place(e: Engagement) -> int {
    match spec_loser(e.attack as int, e.defence as int) {
        Side::Attacker => e.attacker as int,
        Side::Defender => e.defender as int,
    }
}

/// The place of the cell that wins the engagement `e`, if the strengths
/// are not within the tie band.
pub open spec fn winner_place(e: Engagement) -> int {
    match spec_loser(e.attack as int, e.defence as int) {
        Side::Attacker => e.defender as int,
        Side::Defender => e.attacker as int,
    }
}

/// A lawful engagement leaves a sound board sound: both cells are alive
/// afterwards and belong to genomes of the population.
pub proof fn engagement_keeps_board_sound(b: BoardView, rules: Rules, e: Engagement)
    requires
        b.wf(),
        lawful(b, rules, e),
    ensures
        after_engagement(b, rules, e).wf(),
        after_engagement(b, rules, e).width == b.width,
        after_engagement(b, rules, e).height == b.height,
        after_engagement(b, rules, e).genomes == b.genomes,
        after_engagement(b, rules, e).cells.len() == b.cells.len(),
{
}

/// A capture starts the cell afresh. Where an engagement ends with a cell
/// captured, that cell then belongs to the winner's genome, has the fresh
/// modifiers of the report, which lie in the modifier range, is of age
/// zero, and has exactly the health that its new genome and its new health
/// modifier give.
pub proof fn capture_starts_afresh(b: BoardView, rules: Rules, e: Engagement)
    requires
        b.wf(),
        lawful(b, rules, e),
        spec_changes_hands(
            b.cells[e.attacker as int],
            b.cells[e.defender as int],
            verdict_of(e, rules),
        ),
    ensures
        ({
            let captive = after_engagement(b, rules, e).cells[loser_place(e)];
            let new_genome = genome_at(b, winner_place(e));
            &&& captive.genome == b.cells[winner_place(e)].genome
            &&& after_engagement(b, rules, e).genomes[captive.genome as int] == new_genome
            &&& captive.modifiers == e.fresh
            &&& captive.modifiers.in_range()
            &&& captive.age == 0
            &&& captive.current_health == new_genome.base_health + captive.modifiers.health
            &&& captive.current_health > 0
        }),
{
}

/// Replaying a lawful log keeps a sound board sound, and changes neither
/// its dimensions nor its population.
pub proof fn replay_keeps_board_sound(start: BoardView, rules: Rules, log: Seq<Engagement>)
    requires
        start.wf(),
        lawful_log(start, rules, log),
    ensures
        replay(start, rules, log).wf(),
        replay(start, rules, log).width == start.width,
        replay(start, rules, log).height == start.height,
        replay(start, rules, log).genomes == start.genomes,
        replay(start, rules, log).cells.len() == start.cells.len(),
    decreases log.len(),
{
    if log.len() > 0 {
        replay_keeps_board_sound(start, rules, log.drop_last());
    }
}

/// A cell is marked after a replay only if it was marked before or takes
/// part in an engagement of the log.
pub proof fn replay_marks_who_fought(start: BoardView, rules: Rules, log: Seq<Engagement>)
    requires
        start.wf(),
        lawful_log(start, rules, log),
    ensures
        forall|i: int|
            0 <= i < start.cells.len() && (#[trigger] replay(
                start,
                rules,
                log,
            ).cells[i]).fought_this_tick ==> start.cells[i].fought_this_tick || takes_part(log, i),
    decreases log.len(),
{
    if log.len() > 0 {
        replay_marks_who_fought(start, rules, log.drop_last());
        replay_keeps_board_sound(start, rules, log.drop_last());
    }
}

/// Rebirths keep a sound board sound, change neither its dimensions nor
/// its population, and mark no cell.
pub proof fn rebirths_keep_board_sound(b: BoardView, log: Seq<Rebirth>)
    requires
        b.wf(),
        forall|k: int|
            0 <= k < log.len() ==> {
                &&& (#[trigger] log[k]).place < b.cells.len()
                &&& log[k].genome < b.genomes.len()
                &&& log[k].modifiers.in_range()
            },
    ensures
        reborn(b, log).wf(),
        reborn(b, log).width == b.width,
        reborn(b, log).height == b.height,
        reborn(b, log).genomes == b.genomes,
        reborn(b, log).cells.len() == b.cells.len(),
        forall|i: int|
            0 <= i < b.cells.len() && (#[trigger] reborn(b, log).cells[i]).fought_this_tick
                ==> b.cells[i].fought_this_tick,
    decreases log.len(),
{
    if log.len() > 0 {
        rebirths_keep_board_sound(b, log.drop_last());
    }
}

/// A tick leaves a sound board sound: afterwards every cell has positive
/// health, the dimensions and the population are as before, and a cell is
/// marked as having fought only if it took part in an engagement of this
/// very tick. No mark of an earlier tick is left.
pub proof fn tick_keeps_board_sound(
    before: BoardView,
    after: BoardView,
    rules: Rules,
    engagements: Seq<Engagement>,
    rebirths: Seq<Rebirth>,
)
    requires
        before.wf(),
        tick_outcome(before, after, rules, engagements, rebirths),
    ensures
        after.wf(),
        after.width == before.width,
        after.height == before.height,
        after.genomes == before.genomes,
        after.cells.len() == before.cells.len(),
        forall|i: int|
            0 <= i < after.cells.len() ==> (#[trigger] after.cells[i]).current_health > 0,
        forall|i: int|
            0 <= i < after.cells.len() && (#[trigger] after.cells[i]).fought_this_tick
                ==> takes_part(engagements, i),
{
    let start = rested_board(before);
    replay_keeps_board_sound(start, rules, engagements);
    replay_marks_who_fought(start, rules, engagements);
    rebirths_keep_board_sound(aged_board(replay(start, rules, engagements)), rebirths);
}

/// The board after a tick is a function of the board before it, the rules
/// and the report: two ticks that start from the same board and give the
/// same report end on the same board, and show the same colours.
pub proof fn report_determines_board(
    before: BoardView,
    first: BoardView,
    second: BoardView,
    rules: Rules,
    engagements: Seq<Engagement>,
    rebirths: Seq<Rebirth>,
)
    requires
        tick_outcome(before, first, rules, engagements, rebirths),
        tick_outcome(before, second, rules, engagements, rebirths),
    ensures
        first == second,
        first.colors() == second.colors(),
{
}

/// Whether `boards` are the boards of a run of ticks with the given
/// reports: the first is the board at the start, and each tick leads from
/// one board to the next.
pub open spec fn run_outcome(
    boards: Seq<BoardView>,
    rules: Rules,
    reports: Seq<(Seq<Engagement>, Seq<Rebirth>)>,
) -> bool {
    &&& boards.len() == reports.len() + 1
    &&& forall|t: int|
        0 <= t < reports.len() ==> tick_outcome(
            boards[t],
            boards[t + 1],
            rules,
            (#[trigger] reports[t]).0,
            reports[t].1,
        )
}

/// A run is a function of its first board, the rules and its reports: two
/// runs of any number of ticks that start from the same board and give the
/// same reports pass through the same boards, and show the same colours
/// after every tick.
pub proof fn reports_determine_run(
    first: Seq<BoardView>,
    second: Seq<BoardView>,
    rules: Rules,
    reports: Seq<(Seq<Engagement>, Seq<Rebirth>)>,
)
    requires
        run_outcome(first, rules, reports),
        run_outcome(second, rules, reports),
        first[0] == second[0],
    ensures
        first == second,
        forall|t: int| 0 <= t < first.len() ==> (#[trigger] first[t]).colors() == second[t].colors(),
    decreases reports.len(),
{
    if reports.len() > 0 {
        let last = reports.len() - 1;
        reports_determine_run(first.drop_last(), second.drop_last(), rules, reports.drop_last());
        assert(second[last] == second.drop_last()[last]);
        assert(tick_outcome(first[last], first[last + 1], rules, reports[last].0, reports[last].1));
        assert forall|t: int| 0 <= t < first.len() implies first[t] == second[t] by {
            if t <= last {
                assert(second[t] == second.drop_last()[t]);
            }
        }
    }
}

/// The colours of a board depend on nothing but the genome of each cell.
pub proof fn colors_follow_genomes(a: BoardView, b: BoardView)
    requires
        a.genomes == b.genomes,
        a.cells.len() == b.cells.len(),
        forall|i: int|
            0 <= i < a.cells.len() ==> (#[trigger] a.cells[i]).genome == b.cells[i].genome,
    ensures
        a.colors() == b.colors(),
{
}

/// In a lawful log no cell takes part in two engagements, as attacker or
/// as defender; and after the log every cell that took part is marked as
/// having fought.
pub proof fn fights_are_exclusive(start: BoardView, rules: Rules, log: Seq<Engagement>)
    requires
        lawful_log(start, rules, log),
    ensures
        each_fights_once(log),
        replay(start, rules, log).cells.len() == start.cells.len(),
        forall|k: int|
            0 <= k < log.len() ==> {
                &&& (#[trigger] log[k]).attacker < start.cells.len()
                &&& log[k].defender < start.cells.len()
                &&& replay(start, rules, log).cells[log[k].attacker as int].fought_this_tick
                &&& replay(start, rules, log).cells[log[k].defender as int].fought_this_tick
            },
    decreases log.len(),
{
    if log.len() > 0 {
        let shorter = log.drop_last();
        let after = replay(start, rules, log);
        fights_are_exclusive(start, rules, shorter);
        assert forall|k: int| 0 <= k < log.len() implies {
            &&& (#[trigger] log[k]).attacker < start.cells.len()
            &&& log[k].defender < start.cells.len()
            &&& after.cells[log[k].attacker as int].fought_this_tick
            &&& after.cells[log[k].defender as int].fought_this_tick
        } by {
            if k < log.len() - 1 {
                assert(log[k] == shorter[k]);
            }
        }
        assert forall|j: int, k: int| 0 <= j < k < log.len() implies {
            &&& (#[trigger] log[j]).attacker != (#[trigger] log[k]).attacker
            &&& log[j].attacker != log[k].defender
            &&& log[j].defender != log[k].attacker
            &&& log[j].defender != log[k].defender
        } by {
            assert(log[j] == shorter[j]);
            if k < log.len() - 1 {
                assert(log[k] == shorter[k]);
            }
        }
        assert forall|k: int| 0 <= k < log.len() implies (#[trigger] log[k]).attacker
            != log[k].defender by {
            if k < log.len() - 1 {
                assert(log[k] == shorter[k]);
            }
        }
    }
}

/// Only enemies fight: the two cells of a lawful engagement are next to
/// each other and belong to different genomes, neither has fought in this
/// tick, and the attacker has at least one enemy neighbour. A cell without
/// enemy neighbours never attacks.
pub proof fn only_enemies_fight(b: BoardView, rules: Rules, e: Engagement)
    requires
        b.wf(),
        lawful(b, rules, e),
    ensures
        b.cells[e.attacker as int].genome != b.cells[e.defender as int].genome,
        !b.cells[e.attacker as int].fought_this_tick,
        !b.cells[e.defender as int].fought_this_tick,
        b.x_of(e.defender as int) == b.x_of(e.attacker as int) + e.direction.dx(),
        b.y_of(e.defender as int) == b.y_of(e.attacker as int) + e.direction.dy(),
        b.enemies(b.x_of(e.attacker as int), b.y_of(e.attacker as int)).len() > 0,
{
    let x = b.x_of(e.attacker as int);
    let y = b.y_of(e.attacker as int);
    coords_of_place(b, e.attacker as int);
    place_of_coords(b, x + e.direction.dx(), y + e.direction.dy());
    enemy_list_is_exact(b, x, y, 8);
}

/// On a board of one cell nothing ever fights: the cell has no neighbour,
/// and a tick gives no engagement, so that the cell only grows older or
/// dies of old age.
pub proof fn a_lone_cell_never_fights(
    before: BoardView,
    after: BoardView,
    rules: Rules,
    engagements: Seq<Engagement>,
    rebirths: Seq<Rebirth>,
)
    requires
        before.wf(),
        before.width == 1,
        before.height == 1,
        tick_outcome(before, after, rules, engagements, rebirths),
    ensures
        before.enemies(0, 0).len() == 0,
        engagements.len() == 0,
        after.cells.len() == 1,
        rebirths.len() == 0 ==> after.cells[0] == spec_aged(spec_rested(before.cells[0])),
        rebirths.len() > 0 ==> rebirths.len() == 1 && after.cells[0] == Cell::born(
            rebirths[0].genome,
            before.genomes[rebirths[0].genome as int],
            rebirths[0].modifiers,
        ),
{
    let start = rested_board(before);
    reveal_with_fuel(BoardView::enemies_among, 9);
    if engagements.len() > 0 {
        replay_keeps_board_sound(start, rules, engagements.drop_last());
    }
    if rebirths.len() > 0 {
        assert(reborn(aged_board(start), rebirths.drop_last()) == aged_board(start));
    }
}

} // verus!
