//! The tick scheduler: one step of the simulation over the whole board.

use crate::ageing::must_die;
use crate::ageing::spec_aged;
use crate::board::BoardView;
use crate::board::PixelBoard;
use crate::cell::Cell;
use crate::error::ConfigError;
use crate::laws::fights_are_exclusive;
use crate::report::after_engagement;
use crate::report::after_rebirth;
use crate::report::aged_board;
use crate::report::attacks;
use crate::report::board_at_turn;
use crate::report::buried;
use crate::report::each_fights_once;
use crate::report::genome_at;
use crate::report::lawful;
use crate::report::lawful_log;
use crate::report::lawful_rebirth;
use crate::report::lawful_rebirths;
use crate::report::must_fight;
use crate::report::no_turn_skipped;
use crate::report::reborn;
use crate::report::replay;
use crate::report::rested_board;
use crate::report::spec_rested;
use crate::report::tick_outcome;
use crate::report::turns_before;
use crate::report::Engagement;
use crate::report::Rebirth;
use crate::report::TickReport;
use crate::rules::Rules;
use crate::turn::grow_older;
use crate::turn::pick_fight;
use rand::StdRng;
use vstd::prelude::*;

verus! {

/// The count of ticks after one more tick: it stops at the largest `u64`.
pub open spec fn spec_counted(ticks: u64) -> u64 {
    if ticks < u64::MAX {
        (ticks + 1) as u64
    } else {
        ticks
    }
}

/// Whether a tick is under way.
#[derive(Clone, Copy, PartialEq, Eq, Structural, Debug)]
pub enum Phase {
    /// Between two ticks: the board is stable and can be read.
    Idle,
    /// Within a tick.
    Stepping,
}

/// The tick scheduler. It holds the rules and counts the ticks. Ticks are
/// strictly sequential: one runs to its end before the next begins.
#[derive(Debug)]
pub struct Scheduler {
    rules: Rules,
    phase: Phase,
    ticks: u64,
}

impl Scheduler {
    /// The rules by which this scheduler runs.
    pub closed spec fn spec_rules(&self) -> Rules {
        self.rules
    }

    /// The phase in which this scheduler is.
    pub closed spec fn spec_phase(&self) -> Phase {
        self.phase
    }

    /// The number of ticks that this scheduler has run.
    pub closed spec fn spec_ticks(&self) -> u64 {
        self.ticks
    }

    /// The scheduler's invariant: its rules are valid.
    pub open spec fn wf(&self) -> bool {
        self.spec_rules().valid()
    }

    /// A scheduler with the given rules, idle, having run no tick. Fails
    /// with `BadRules` exactly if the rules are not valid.
    pub fn new(rules: Rules) -> (r: Result<Scheduler, ConfigError>)
        ensures
            match r {
                Ok(scheduler) => {
                    &&& rules.valid()
                    &&& scheduler.wf()
                    &&& scheduler.spec_rules() == rules
                    &&& scheduler.spec_phase() == Phase::Idle
                    &&& scheduler.spec_ticks() == 0
                },
                Err(e) => !rules.valid() && e == ConfigError::BadRules,
            },
    {
        if rules.is_valid() {
            Ok(Scheduler { rules, phase: Phase::Idle, ticks: 0 })
        } else {
            Err(ConfigError::BadRules)
        }
    }

    /// The rules by which this scheduler runs.
    pub fn rules(&self) -> (rules: Rules)
        ensures
            rules == self.spec_rules(),
    {
        self.rules
    }

    /// The phase in which this scheduler is.
    pub fn phase(&self) -> (phase: Phase)
        ensures
            phase == self.spec_phase(),
    {
        self.phase
    }

    /// The number of ticks that this scheduler has run. The count stops at
    /// the largest `u64`.
    pub fn ticks(&self) -> (ticks: u64)
        ensures
            ticks == self.spec_ticks(),
    {
        self.ticks
    }

    /// Runs one tick on the board and reports what happened.
    ///
    /// The marks of the tick before are cleared. Then every cell has its
    /// turn as an attacker, in row-major order. Then every cell grows one
    /// tick older, and the cells past their lifespan face death. The
    /// scheduler is stepping while this goes on and idle again at the end.
    pub fn tick(&mut self, board: &mut PixelBoard, rng: &mut StdRng) -> (report: TickReport)
        requires
            old(self).wf(),
            old(self).spec_phase() == Phase::Idle,
            old(board).wf(),
        ensures
            final(self).wf(),
            final(self).spec_rules() == old(self).spec_rules(),
            final(self).spec_phase() == Phase::Idle,
            final(self).spec_ticks() == spec_counted(old(self).spec_ticks()),
            final(board).wf(),
            final(board)@.width == old(board)@.width,
            final(board)@.height == old(board)@.height,
            final(board)@.genomes == old(board)@.genomes,
            final(board)@.cells.len() == old(board)@.cells.len(),
            forall|i: int|
                0 <= i < final(board)@.cells.len() ==> (
                #[trigger] final(board)@.cells[i]).current_health > 0,
            tick_outcome(
                old(board)@,
                final(board)@,
                old(self).spec_rules(),
                report.engagements@,
                report.rebirths@,
            ),
            each_fights_once(report.engagements@),
    {
        self.phase = Phase::Stepping;
        rest(board);
        let ghost start = board@;
        let engagements = combat_sweep(board, &self.rules, rng);
        let rebirths = ageing_sweep(board, &self.rules, rng);
        self.phase = Phase::Idle;
        if self.ticks < u64::MAX {
            self.ticks = self.ticks + 1;
        }
        proof {
            fights_are_exclusive(start, self.rules, engagements@);
        }
        TickReport { engagements, rebirths }
    }
}

/// `turns_before` counts a part of the log.
proof fn lemma_turns_before_bounds(log: Seq<Engagement>, place: int)
    ensures
        0 <= turns_before(log, place) <= log.len(),
    decreases log.len(),
{
    if log.len() > 0 {
        lemma_turns_before_bounds(log.drop_last(), place);
    }
}

/// What the log gains when the cell at `place` has fought: the engagement
/// is lawful where it stands, and the cells before `place` found the same
/// board as without it.
proof fn lemma_turn_fought(
    start: BoardView,
    rules: Rules,
    log: Seq<Engagement>,
    e: Engagement,
    place: int,
)
    requires
        lawful_log(start, rules, log),
        forall|k: int| 0 <= k < log.len() ==> (#[trigger] log[k]).attacker < place,
        e.attacker == place,
        lawful(replay(start, rules, log), rules, e),
        no_turn_skipped(start, rules, log, place),
    ensures
        lawful_log(start, rules, log.push(e)),
        replay(start, rules, log.push(e)) == after_engagement(replay(start, rules, log), rules, e),
        no_turn_skipped(start, rules, log.push(e), place + 1),
        forall|k: int|
            0 <= k < log.push(e).len() ==> (#[trigger] log.push(e)[k]).attacker < place + 1,
{
    let longer = log.push(e);
    assert(longer.drop_last() =~= log);
    assert forall|p: int| 0 <= p < place + 1 && !attacks(longer, p) implies !must_fight(
        #[trigger] board_at_turn(start, rules, longer, p),
        rules,
        p,
    ) by {
        if p < place {
            lemma_turns_before_bounds(log, p);
            let t = turns_before(log, p);
            assert(longer.take(t) =~= log.take(t));
            assert(board_at_turn(start, rules, longer, p) == board_at_turn(start, rules, log, p));
        }
    }
}

/// What is known when the cell at `place` has let its turn pass.
proof fn lemma_turn_passed(start: BoardView, rules: Rules, log: Seq<Engagement>, place: int)
    requires
        forall|k: int| 0 <= k < log.len() ==> (#[trigger] log[k]).attacker < place,
        !must_fight(replay(start, rules, log), rules, place),
        no_turn_skipped(start, rules, log, place),
    ensures
        no_turn_skipped(start, rules, log, place + 1),
{
    assert forall|p: int| 0 <= p < place + 1 && !attacks(log, p) implies !must_fight(
        #[trigger] board_at_turn(start, rules, log, p),
        rules,
        p,
    ) by {
        if p == place {
            assert(log.take(log.len() as int) =~= log);
        }
    }
}

/// Clears the mark of every cell: no cell has fought in the tick that
/// begins.
fn rest(board: &mut PixelBoard)
    requires
        old(board).wf(),
    ensures
        final(board).wf(),
        final(board)@ == rested_board(old(board)@),
{
    let n = board.area();
    let mut place: usize = 0;
    while place < n
        invariant
            place <= n,
            n == board@.cells.len(),
            board.wf(),
            board@.width == old(board)@.width,
            board@.height == old(board)@.height,
            board@.genomes == old(board)@.genomes,
            forall|i: int|
                0 <= i < place ==> #[trigger] board@.cells[i] == spec_rested(old(board)@.cells[i]),
            forall|i: int| place <= i < n ==> #[trigger] board@.cells[i] == old(board)@.cells[i],
        decreases n - place,
    {
        let rested = Cell { fought_this_tick: false, ..*board.cell(place) };
        board.put(place, rested);
        place += 1;
    }
    assert(board@.cells =~= rested_board(old(board)@).cells);
}

/// Gives every cell its turn, in row-major order, and lists the
/// engagements.
fn combat_sweep(board: &mut PixelBoard, rules: &Rules, rng: &mut StdRng) -> (log: Vec<Engagement>)
    requires
        old(board).wf(),
        rules.valid(),
    ensures
        final(board).wf(),
        final(board)@ == replay(old(board)@, *rules, log@),
        final(board)@.width == old(board)@.width,
        final(board)@.height == old(board)@.height,
        final(board)@.genomes == old(board)@.genomes,
        final(board)@.cells.len() == old(board)@.cells.len(),
        lawful_log(old(board)@, *rules, log@),
        no_turn_skipped(old(board)@, *rules, log@, old(board)@.cells.len() as int),
{
    let n = board.area();
    let ghost start = board@;
    let mut log: Vec<Engagement> = Vec::new();
    let mut place: usize = 0;
    while place < n
        invariant
            place <= n,
            n == board@.cells.len(),
            board.wf(),
            rules.valid(),
            board@ == replay(start, *rules, log@),
            board@.width == start.width,
            board@.height == start.height,
            board@.genomes == start.genomes,
            lawful_log(start, *rules, log@),
            forall|k: int| 0 <= k < log@.len() ==> (#[trigger] log@[k]).attacker < place,
            no_turn_skipped(start, *rules, log@, place as int),
        decreases n - place,
    {
        let ghost before = log@;
        match pick_fight(board, rules, place, rng) {
            Some(e) => {
                log.push(e);
                proof {
                    lemma_turn_fought(start, *rules, before, e, place as int);
                }
            },
            None => {
                proof {
                    lemma_turn_passed(start, *rules, before, place as int);
                }
            },
        }
        place += 1;
    }
    log
}

/// The board `b` with the cells before `upto` one tick older.
spec fn aged_upto(b: BoardView, upto: int) -> BoardView {
    BoardView {
        cells: Seq::new(
            b.cells.len(),
            |i: int|
                if i < upto {
                    spec_aged(b.cells[i])
                } else {
                    b.cells[i]
                },
        ),
        ..b
    }
}

/// Rebirths change cells only, and only the cells at their places.
proof fn lemma_reborn_frame(b: BoardView, log: Seq<Rebirth>, place: int)
    requires
        forall|k: int| 0 <= k < log.len() ==> (#[trigger] log[k]).place < b.cells.len(),
        forall|k: int| 0 <= k < log.len() ==> (#[trigger] log[k]).place != place,
        0 <= place < b.cells.len(),
    ensures
        reborn(b, log).width == b.width,
        reborn(b, log).height == b.height,
        reborn(b, log).genomes == b.genomes,
        reborn(b, log).cells.len() == b.cells.len(),
        reborn(b, log).cells[place] == b.cells[place],
        forall|cell: Cell| #[trigger]
            reborn(b.with_cell(place, cell), log) == reborn(b, log).with_cell(place, cell),
    decreases log.len(),
{
    if log.len() > 0 {
        let shorter = log.drop_last();
        lemma_reborn_frame(b, shorter, place);
        assert forall|cell: Cell| #[trigger]
            reborn(b.with_cell(place, cell), log) == reborn(b, log).with_cell(place, cell) by {
            assert(reborn(b.with_cell(place, cell), shorter) == reborn(b, shorter).with_cell(
                place,
                cell,
            ));
            assert(reborn(b.with_cell(place, cell), log).cells =~= reborn(b, log).with_cell(
                place,
                cell,
            ).cells);
        }
    }
}

/// Lets every cell grow one tick older, in row-major order, and lists the
/// rebirths.
fn ageing_sweep(board: &mut PixelBoard, rules: &Rules, rng: &mut StdRng) -> (log: Vec<Rebirth>)
    requires
        old(board).wf(),
        rules.valid(),
    ensures
        final(board).wf(),
        final(board)@ == reborn(aged_board(old(board)@), log@),
        final(board)@.width == old(board)@.width,
        final(board)@.height == old(board)@.height,
        final(board)@.genomes == old(board)@.genomes,
        final(board)@.cells.len() == old(board)@.cells.len(),
        lawful_rebirths(aged_board(old(board)@), *rules, log@),
{
    let n = board.area();
    let ghost start = board@;
    let mut log: Vec<Rebirth> = Vec::new();
    let mut place: usize = 0;
    assert(aged_upto(start, 0).cells =~= start.cells);
    while place < n
        invariant
            place <= n,
            n == start.cells.len(),
            board.wf(),
            rules.valid(),
            board@ == reborn(aged_upto(start, place as int), log@),
            board@.width == start.width,
            board@.height == start.height,
            board@.genomes == start.genomes,
            forall|k: int| 0 <= k < log@.len() ==> (#[trigger] log@[k]).place < place,
            forall|k: int|
                0 <= k < log@.len() ==> lawful_rebirth(aged_board(start), #[trigger] log@[k]),
            forall|j: int, k: int|
                0 <= j < k < log@.len() ==> (#[trigger] log@[j]).place < (#[trigger] log@[k]).place,
            forall|p: int|
                0 <= p < place && must_die(
                    genome_at(aged_board(start), p),
                    #[trigger] aged_board(start).cells[p],
                    *rules,
                ) ==> buried(log@, p),
        decreases n - place,
    {
        let ghost before = log@;
        let ghost older = spec_aged(start.cells[place as int]);
        let ghost now = aged_upto(start, place as int);
        let ghost next = aged_upto(start, place as int + 1);
        proof {
            lemma_reborn_frame(now, before, place as int);
            assert(next.cells =~= now.with_cell(place as int, older).cells);
        }
        match grow_older(board, rules, place, rng) {
            Some(r) => {
                log.push(r);
                proof {
                    assert(log@.drop_last() =~= before);
                    assert(reborn(next, log@) == after_rebirth(reborn(next, before), r));
                    assert(reborn(next, log@).cells =~= board@.cells);
                }
            },
            None => {},
        }
        place += 1;
    }
    assert(aged_upto(start, n as int).cells =~= aged_board(start).cells);
    log
}

} // verus!
