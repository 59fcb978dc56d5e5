use evo_thing::ageing::aged;
use evo_thing::board::PixelBoard;
use evo_thing::cell::{Cell, Modifiers};
use evo_thing::combat::{changes_hands, clash, settle};
use evo_thing::direction::Direction;
use evo_thing::error::ConfigError;
use evo_thing::genome::{generate_population, Genome};
use evo_thing::report::{Engagement, TickReport};
use evo_thing::rules::Rules;
use evo_thing::scheduler::{Phase, Scheduler};
use evo_thing::turn::{grow_older, pick_fight};
use rand::{SeedableRng, StdRng};

fn seeded(seed: usize) -> StdRng {
    SeedableRng::from_seed(&[seed, 2, 7, 1, 8][..])
}

fn genome(name: &str, base_strength: u16) -> Genome {
    Genome {
        name: String::from(name),
        hue: 0,
        base_health: 100,
        base_strength,
        base_desire: 100,
        base_frequency: 100,
        base_expectancy: 60_000,
    }
}

fn plain(genome: usize) -> Cell {
    Cell {
        genome,
        modifiers: Modifiers::neutral(),
        current_health: 100,
        age: 0,
        fought_this_tick: false,
    }
}

/// Rules under which every cell with a target fights, there is no noise,
/// and no cell dies of old age before it is 60 000 ticks old.
fn forced() -> Rules {
    Rules {
        engagement_threshold: 0,
        desire_noise: 0,
        cadence: 1,
        strength_noise: 0,
        tie_band: 0,
        rout_threshold: 1000,
        draw_damage: 5,
        damage_divisor: 2,
        death_span: 1,
    }
}

/// A 3 by 3 board of species B with one cell of species A in the middle.
fn island(strength_a: u16, strength_b: u16) -> PixelBoard {
    let genomes = vec![genome("A", strength_a), genome("B", strength_b)];
    let cells = [1, 1, 1, 1, 0, 1, 1, 1, 1].iter().map(|g| plain(*g)).collect();
    PixelBoard::from_cells(3, 3, genomes, cells).unwrap()
}

fn cells_of(board: &PixelBoard) -> Vec<Cell> {
    (0..board.area()).map(|i| *board.cell(i)).collect()
}

/// The cells that a tick leaves, computed from the cells before it and its
/// report: marks cleared, engagements in their order, every cell one tick
/// older, rebirths in their order.
fn replayed(before: &[Cell], genomes: &[Genome], rules: &Rules, report: &TickReport) -> Vec<Cell> {
    let mut cells: Vec<Cell> =
        before.iter().map(|c| Cell { fought_this_tick: false, ..*c }).collect();
    for e in &report.engagements {
        let me = cells[e.attacker];
        let foe = cells[e.defender];
        let verdict = clash(e.attack, e.defence, rules);
        let (me_after, foe_after) =
            settle(&me, &foe, &genomes[me.genome], &genomes[foe.genome], &verdict, e.fresh, rules);
        cells[e.attacker] = me_after;
        cells[e.defender] = foe_after;
    }
    for c in cells.iter_mut() {
        *c = aged(c);
    }
    for r in &report.rebirths {
        cells[r.place] = Cell::spawn(r.genome, &genomes[r.genome], r.modifiers);
    }
    cells
}

/// What must hold of every report, checked against the cells before the
/// tick.
fn check_report(before: &[Cell], board: &PixelBoard, rules: &Rules, report: &TickReport) {
    let genomes = board.genomes();
    let width = board.width() as isize;
    let height = board.height() as isize;
    let mut cells: Vec<Cell> =
        before.iter().map(|c| Cell { fought_this_tick: false, ..*c }).collect();
    let mut busy = vec![false; before.len()];
    let mut last: Option<usize> = None;
    for e in &report.engagements {
        assert!(last.map_or(true, |l| l < e.attacker));
        last = Some(e.attacker);
        assert!(!busy[e.attacker] && !busy[e.defender] && e.attacker != e.defender);
        busy[e.attacker] = true;
        busy[e.defender] = true;
        let (dx, dy) = e.direction.to_coords();
        let (x, y) = (e.attacker as isize % width, e.attacker as isize / width);
        assert!((0..width).contains(&(x + dx)) && (0..height).contains(&(y + dy)));
        assert_eq!(e.defender as isize, (y + dy) * width + x + dx);
        let me = cells[e.attacker];
        let foe = cells[e.defender];
        assert_ne!(me.genome, foe.genome);
        assert!(!me.fought_this_tick && !foe.fought_this_tick);
        let attack = genomes[me.genome].base_strength as i64 + me.modifiers.strength as i64;
        let defence = genomes[foe.genome].base_strength as i64 + foe.modifiers.strength as i64;
        assert!((e.attack - attack).abs() <= rules.strength_noise as i64);
        assert!((e.defence - defence).abs() <= rules.strength_noise as i64);
        assert!(e.fresh.is_in_range());
        let verdict = clash(e.attack, e.defence, rules);
        if !changes_hands(&me, &foe, &verdict) {
            assert_eq!(e.fresh, Modifiers::neutral());
        }
        let (me_after, foe_after) =
            settle(&me, &foe, &genomes[me.genome], &genomes[foe.genome], &verdict, e.fresh, rules);
        cells[e.attacker] = me_after;
        cells[e.defender] = foe_after;
    }
    let mut last: Option<usize> = None;
    for r in &report.rebirths {
        assert!(last.map_or(true, |l| l < r.place));
        last = Some(r.place);
        assert!(r.genome < genomes.len());
        assert!(r.modifiers.is_in_range());
        let old = aged(&cells[r.place]);
        let lifespan =
            genomes[old.genome].base_expectancy as i64 + old.modifiers.expectancy as i64;
        assert!(old.age as i64 > lifespan);
    }
    assert_eq!(cells_of(board), replayed(before, genomes, rules, report));
    for (i, c) in cells_of(board).iter().enumerate() {
        assert!(c.current_health > 0);
        assert!(c.is_alive());
        if c.fought_this_tick {
            assert!(busy[i]);
        }
    }
}

#[test]
fn a_scheduler_starts_idle_with_its_rules() {
    let scheduler = Scheduler::new(forced()).unwrap();
    assert_eq!(scheduler.phase(), Phase::Idle);
    assert_eq!(scheduler.ticks(), 0);
    assert_eq!(scheduler.rules(), forced());
}

#[test]
fn a_scheduler_refuses_bad_rules() {
    assert_eq!(Scheduler::new(Rules { cadence: 0, ..forced() }).err(), Some(ConfigError::BadRules));
    assert_eq!(
        Scheduler::new(Rules { tie_band: 2000, ..forced() }).err(),
        Some(ConfigError::BadRules)
    );
    assert_eq!(
        Scheduler::new(Rules { death_span: -1, ..forced() }).err(),
        Some(ConfigError::BadRules)
    );
}

#[test]
fn a_draw_on_the_island_costs_the_centre_the_draw_damage_once() {
    let mut board = island(500, 500);
    let mut scheduler = Scheduler::new(forced()).unwrap();
    let mut rng = seeded(1);
    let before = cells_of(&board);
    let report = scheduler.tick(&mut board, &mut rng);
    assert_eq!(
        report.engagements,
        vec![Engagement {
            attacker: 0,
            defender: 4,
            direction: Direction::BottomRight,
            attack: 500,
            defence: 500,
            fresh: Modifiers::neutral(),
        }]
    );
    assert_eq!(report.rebirths, Vec::new());
    let centre = board.cell_at(1, 1).unwrap();
    assert_eq!(centre.genome, 0);
    assert_eq!(board.genome_at(1, 1).unwrap().name, "A");
    assert_eq!(centre.current_health, 95);
    assert_eq!(*centre, Cell { current_health: 95, age: 1, fought_this_tick: true, ..plain(0) });
    assert_eq!(
        *board.cell_at(0, 0).unwrap(),
        Cell { current_health: 95, age: 1, fought_this_tick: true, ..plain(1) }
    );
    for i in [1usize, 2, 3, 5, 6, 7, 8] {
        assert_eq!(*board.cell(i), Cell { age: 1, ..plain(1) });
    }
    check_report(&before, &board, &forced(), &report);
    assert_eq!(scheduler.phase(), Phase::Idle);
    assert_eq!(scheduler.ticks(), 1);
}

#[test]
fn a_rout_on_the_island_captures_the_neighbour_of_the_centre() {
    let mut board = island(60_000, 100);
    let mut scheduler = Scheduler::new(forced()).unwrap();
    let mut rng = seeded(2);
    let before = cells_of(&board);
    let report = scheduler.tick(&mut board, &mut rng);
    assert_eq!(report.engagements.len(), 1);
    let e = report.engagements[0];
    assert_eq!((e.attacker, e.defender, e.direction), (0, 4, Direction::BottomRight));
    assert_eq!((e.attack, e.defence), (100, 60_000));
    assert!(e.fresh.is_in_range());
    let taken = board.cell_at(0, 0).unwrap();
    assert_eq!(taken.genome, 0);
    assert_eq!(board.genome_at(0, 0).unwrap().name, "A");
    assert!(taken.modifiers.is_in_range());
    assert_eq!(taken.modifiers, e.fresh);
    assert_eq!(taken.current_health as i64, 100 + taken.modifiers.health as i64);
    assert_eq!(taken.age, 1);
    assert!(taken.fought_this_tick);
    assert_eq!(
        *board.cell_at(1, 1).unwrap(),
        Cell { age: 1, fought_this_tick: true, ..plain(0) }
    );
    for i in [1usize, 2, 3, 5, 6, 7, 8] {
        assert_eq!(*board.cell(i), Cell { age: 1, ..plain(1) });
    }
    check_report(&before, &board, &forced(), &report);
}

#[test]
fn a_rout_by_the_attacker_captures_the_centre() {
    let mut board = island(100, 60_000);
    let mut scheduler = Scheduler::new(forced()).unwrap();
    let mut rng = seeded(3);
    let before = cells_of(&board);
    let report = scheduler.tick(&mut board, &mut rng);
    assert_eq!(report.engagements.len(), 1);
    let centre = board.cell_at(1, 1).unwrap();
    assert_eq!(centre.genome, 1);
    assert_eq!(centre.modifiers, report.engagements[0].fresh);
    assert_eq!(centre.current_health as i64, 100 + centre.modifiers.health as i64);
    assert_eq!(board.to_color_buffer().iter().filter(|c| c.hue == 0).count(), 9);
    check_report(&before, &board, &forced(), &report);
}

#[test]
fn a_hit_costs_the_loser_the_gap_over_the_divisor() {
    let mut board = island(500, 441);
    let mut scheduler = Scheduler::new(forced()).unwrap();
    let mut rng = seeded(4);
    let report = scheduler.tick(&mut board, &mut rng);
    assert_eq!(report.engagements.len(), 1);
    // The gap is 59 and the divisor 2: the attacker, who is weaker, loses 29.
    assert_eq!(board.cell_at(0, 0).unwrap().current_health, 71);
    assert_eq!(board.cell_at(0, 0).unwrap().genome, 1);
    assert_eq!(board.cell_at(1, 1).unwrap().current_health, 100);
}

#[test]
fn a_board_of_one_cell_only_grows_older() {
    let genomes = vec![genome("A", 500)];
    let mut board = PixelBoard::from_cells(1, 1, genomes, vec![plain(0)]).unwrap();
    let mut scheduler = Scheduler::new(forced()).unwrap();
    let mut rng = seeded(5);
    assert_eq!(board.neighbors_of(0, 0), Ok(Vec::new()));
    for tick in 1..=10u32 {
        let report = scheduler.tick(&mut board, &mut rng);
        assert_eq!(report, TickReport { engagements: Vec::new(), rebirths: Vec::new() });
        assert_eq!(*board.cell(0), Cell { age: tick, ..plain(0) });
    }
    assert_eq!(scheduler.ticks(), 10);
}

#[test]
fn one_species_alone_never_fights() {
    let genomes = vec![genome("A", 500), genome("B", 500)];
    let cells = vec![plain(1); 12];
    let mut board = PixelBoard::from_cells(4, 3, genomes, cells).unwrap();
    let mut scheduler = Scheduler::new(forced()).unwrap();
    let mut rng = seeded(6);
    for _ in 0..5 {
        let report = scheduler.tick(&mut board, &mut rng);
        assert_eq!(report.engagements, Vec::new());
    }
    assert_eq!(cells_of(&board), vec![Cell { age: 5, ..plain(1) }; 12]);
}

#[test]
fn a_cell_without_desire_never_attacks() {
    let mut board = island(500, 500);
    let calm = Rules { engagement_threshold: 100, ..forced() };
    let mut scheduler = Scheduler::new(calm).unwrap();
    let mut rng = seeded(7);
    for _ in 0..5 {
        assert_eq!(scheduler.tick(&mut board, &mut rng).engagements, Vec::new());
    }
    let mut board = island(500, 500);
    let noisy = Rules { engagement_threshold: 100, desire_noise: 1, ..forced() };
    let mut scheduler = Scheduler::new(noisy).unwrap();
    let mut fights = 0;
    for _ in 0..50 {
        fights += scheduler.tick(&mut board, &mut rng).engagements.len();
    }
    assert!(fights > 0);
}

#[test]
fn a_cell_without_frequency_never_attacks() {
    let lazy = Genome { base_frequency: 0, ..genome("A", 500) };
    let genomes = vec![lazy.clone(), Genome { name: String::from("B"), ..lazy }];
    let cells = [0, 1, 0, 1].iter().map(|g| plain(*g)).collect();
    let mut board = PixelBoard::from_cells(2, 2, genomes, cells).unwrap();
    let mut scheduler = Scheduler::new(Rules { cadence: 1000, ..forced() }).unwrap();
    let mut rng = seeded(8);
    for _ in 0..5 {
        assert_eq!(scheduler.tick(&mut board, &mut rng).engagements, Vec::new());
    }
}

#[test]
fn the_marks_of_one_tick_are_gone_in_the_next() {
    let mut board = island(500, 500);
    let mut scheduler = Scheduler::new(forced()).unwrap();
    let mut rng = seeded(9);
    for tick in 1..=4u32 {
        let before = cells_of(&board);
        let report = scheduler.tick(&mut board, &mut rng);
        // In every tick the first cell is free to fight the centre again.
        assert_eq!(report.engagements.len(), 1);
        assert_eq!(report.engagements[0].attacker, 0);
        assert_eq!(board.cell_at(1, 1).unwrap().current_health, 100 - 5 * tick);
        let marked = cells_of(&board).iter().filter(|c| c.fought_this_tick).count();
        assert_eq!(marked, 2);
        check_report(&before, &board, &forced(), &report);
    }
}

#[test]
fn marks_written_from_outside_do_not_last() {
    let mut board = island(500, 500);
    for y in 0..3 {
        for x in 0..3 {
            board.cell_at_mut(x, y).unwrap().fought_this_tick = true;
        }
    }
    let mut scheduler = Scheduler::new(forced()).unwrap();
    let mut rng = seeded(10);
    let report = scheduler.tick(&mut board, &mut rng);
    assert_eq!(report.engagements.len(), 1);
    assert_eq!(cells_of(&board).iter().filter(|c| c.fought_this_tick).count(), 2);
}

#[test]
fn a_keen_cell_attacks_its_first_target() {
    // Two rows: A B A / B A B. Every cell is keen; each attacks the first
    // neighbour, in the canonical order, that is an enemy and has not fought.
    let genomes = vec![genome("A", 500), genome("B", 500)];
    let cells = [0, 1, 0, 1, 0, 1].iter().map(|g| plain(*g)).collect();
    let mut board = PixelBoard::from_cells(3, 2, genomes, cells).unwrap();
    let mut scheduler = Scheduler::new(forced()).unwrap();
    let mut rng = seeded(11);
    let before = cells_of(&board);
    let report = scheduler.tick(&mut board, &mut rng);
    let fights: Vec<(usize, usize, Direction)> =
        report.engagements.iter().map(|e| (e.attacker, e.defender, e.direction)).collect();
    assert_eq!(
        fights,
        vec![(0, 1, Direction::Right), (2, 5, Direction::Bottom), (3, 4, Direction::Right)]
    );
    check_report(&before, &board, &forced(), &report);
}

#[test]
fn pick_fight_lets_a_marked_cell_pass() {
    let mut board = island(500, 500);
    board.cell_at_mut(0, 0).unwrap().fought_this_tick = true;
    let mut rng = seeded(12);
    let before = cells_of(&board);
    assert_eq!(pick_fight(&mut board, &forced(), 0, &mut rng), None);
    assert_eq!(cells_of(&board), before);
    // The centre is still free, and so is the next cell.
    let e = pick_fight(&mut board, &forced(), 1, &mut rng).unwrap();
    assert_eq!((e.attacker, e.defender, e.direction), (1, 4, Direction::Bottom));
    // Now the centre has fought: nobody can attack it, and it attacks nobody.
    assert_eq!(pick_fight(&mut board, &forced(), 2, &mut rng), None);
    assert_eq!(pick_fight(&mut board, &forced(), 4, &mut rng), None);
}

#[test]
fn the_centre_attacks_the_first_neighbour_that_has_not_fought() {
    let mut board = island(500, 500);
    board.cell_at_mut(0, 0).unwrap().fought_this_tick = true;
    board.cell_at_mut(1, 0).unwrap().fought_this_tick = true;
    let mut rng = seeded(13);
    let e = pick_fight(&mut board, &forced(), 4, &mut rng).unwrap();
    assert_eq!((e.attacker, e.defender, e.direction), (4, 2, Direction::TopRight));
    assert!(board.cell(4).fought_this_tick);
    assert!(board.cell(2).fought_this_tick);
    assert_eq!(board.cell(4).current_health, 95);
    assert_eq!(board.cell(2).current_health, 95);
}

#[test]
fn grow_older_ages_a_cell_within_its_lifespan() {
    let mut board = island(500, 500);
    let mut rng = seeded(14);
    assert_eq!(grow_older(&mut board, &forced(), 4, &mut rng), None);
    assert_eq!(*board.cell(4), Cell { age: 1, ..plain(0) });
    assert_eq!(*board.cell(3), plain(1));
}

#[test]
fn a_cell_past_its_lifespan_by_the_whole_span_dies() {
    let short = Genome { base_expectancy: 2, ..genome("A", 500) };
    let genomes = vec![short.clone(), Genome { name: String::from("B"), ..short }];
    let cells = vec![plain(0); 6];
    let mut board = PixelBoard::from_cells(3, 2, genomes.clone(), cells).unwrap();
    let rules = forced();
    let mut scheduler = Scheduler::new(rules).unwrap();
    let mut rng = seeded(15);
    for _ in 0..2 {
        let report = scheduler.tick(&mut board, &mut rng);
        assert_eq!(report.rebirths, Vec::new());
    }
    assert_eq!(cells_of(&board), vec![Cell { age: 2, ..plain(0) }; 6]);
    let before = cells_of(&board);
    let report = scheduler.tick(&mut board, &mut rng);
    let places: Vec<usize> = report.rebirths.iter().map(|r| r.place).collect();
    assert_eq!(places, vec![0, 1, 2, 3, 4, 5]);
    for r in &report.rebirths {
        let c = board.cell(r.place);
        assert_eq!(*c, Cell::spawn(r.genome, &genomes[r.genome], r.modifiers));
        assert_eq!(c.age, 0);
        assert!(!c.fought_this_tick);
        assert!(c.modifiers.is_in_range());
        assert_eq!(c.current_health as i64, 100 + c.modifiers.health as i64);
    }
    check_report(&before, &board, &rules, &report);
}

#[test]
fn death_is_a_matter_of_chance_within_the_span() {
    let short = Genome { base_expectancy: 0, ..genome("A", 500) };
    let cells = vec![plain(0); 400];
    let mut board = PixelBoard::from_cells(20, 20, vec![short], cells).unwrap();
    let rules = Rules { death_span: 4, ..forced() };
    let mut scheduler = Scheduler::new(rules).unwrap();
    let mut rng = seeded(16);
    let before = cells_of(&board);
    let report = scheduler.tick(&mut board, &mut rng);
    // Every cell is one tick past its lifespan: it dies with one roll of four.
    let deaths = report.rebirths.len();
    assert!(deaths > 0 && deaths < 400);
    check_report(&before, &board, &rules, &report);
    for (i, c) in cells_of(&board).iter().enumerate() {
        let died = report.rebirths.iter().any(|r| r.place == i);
        assert_eq!(c.age, if died { 0 } else { 1 });
    }
}

#[test]
fn rebirth_draws_from_the_whole_population() {
    let mut rng = seeded(17);
    let mut population = generate_population(6, &mut rng).unwrap();
    for g in population.iter_mut() {
        g.base_expectancy = 0;
    }
    let first = Cell::spawn(0, &population[0], Modifiers::neutral());
    let cells: Vec<Cell> = vec![first; 100];
    let mut board = PixelBoard::from_cells(10, 10, population, cells).unwrap();
    let mut scheduler = Scheduler::new(Rules { death_span: 1, ..Rules::standard() }).unwrap();
    let report = scheduler.tick(&mut board, &mut rng);
    assert_eq!(report.rebirths.len(), 100);
    let mut seen = [false; 6];
    for r in &report.rebirths {
        seen[r.genome] = true;
    }
    assert_eq!(seen, [true; 6]);
}

#[test]
fn every_tick_is_what_its_report_says() {
    let mut rng = seeded(18);
    let mut population = generate_population(4, &mut rng).unwrap();
    for g in population.iter_mut() {
        g.base_expectancy = 3;
        g.base_health = 40;
    }
    let mut board = PixelBoard::new(9, 7, population, &mut rng).unwrap();
    let rules = Rules {
        engagement_threshold: 30_000,
        desire_noise: 20_000,
        cadence: 40_000,
        strength_noise: 3_000,
        tie_band: 2_000,
        rout_threshold: 30_000,
        draw_damage: 3,
        damage_divisor: 500,
        death_span: 6,
    };
    let mut scheduler = Scheduler::new(rules).unwrap();
    let mut fights = 0;
    let mut deaths = 0;
    for _ in 0..60 {
        let before = cells_of(&board);
        let report = scheduler.tick(&mut board, &mut rng);
        check_report(&before, &board, &rules, &report);
        assert!(board.is_consistent());
        assert_eq!(scheduler.phase(), Phase::Idle);
        fights += report.engagements.len();
        deaths += report.rebirths.len();
    }
    assert!(fights > 0);
    assert!(deaths > 0);
    assert_eq!(scheduler.ticks(), 60);
    assert_eq!(board.width(), 9);
    assert_eq!(board.height(), 7);
}

#[test]
fn no_cell_fights_twice_in_a_tick() {
    let mut rng = seeded(19);
    let population = generate_population(5, &mut rng).unwrap();
    let mut board = PixelBoard::new(12, 12, population, &mut rng).unwrap();
    let eager = Rules { engagement_threshold: -100_000, cadence: 1, ..Rules::standard() };
    let mut scheduler = Scheduler::new(eager).unwrap();
    for _ in 0..20 {
        let report = scheduler.tick(&mut board, &mut rng);
        let mut count = vec![0u32; 144];
        for e in &report.engagements {
            count[e.attacker] += 1;
            count[e.defender] += 1;
        }
        assert!(count.iter().all(|c| *c <= 1));
        for (i, c) in cells_of(&board).iter().enumerate() {
            if c.fought_this_tick {
                assert_eq!(count[i], 1);
            }
        }
    }
}

#[test]
fn every_cell_is_alive_after_every_tick() {
    let mut rng = seeded(20);
    let population = generate_population(8, &mut rng).unwrap();
    let mut board = PixelBoard::new(16, 10, population, &mut rng).unwrap();
    let rough = Rules {
        engagement_threshold: 0,
        cadence: 1,
        draw_damage: 60_000,
        damage_divisor: 1,
        death_span: 1,
        ..Rules::standard()
    };
    let mut scheduler = Scheduler::new(rough).unwrap();
    for _ in 0..30 {
        scheduler.tick(&mut board, &mut rng);
        for c in cells_of(&board) {
            assert!(c.current_health > 0);
            assert!(c.modifiers.is_in_range());
            assert!(c.genome < 8);
        }
        assert!(board.is_consistent());
    }
}

#[test]
fn the_same_seed_gives_the_same_run() {
    let run = |seed: usize| {
        let mut rng = seeded(seed);
        let population = generate_population(6, &mut rng).unwrap();
        let mut board = PixelBoard::new(14, 9, population, &mut rng).unwrap();
        let mut scheduler = Scheduler::new(Rules::standard()).unwrap();
        let mut buffers = vec![board.to_color_buffer()];
        let mut reports = Vec::new();
        for _ in 0..25 {
            reports.push(scheduler.tick(&mut board, &mut rng));
            buffers.push(board.to_color_buffer());
        }
        (buffers, reports, cells_of(&board))
    };
    let first = run(21);
    let second = run(21);
    assert_eq!(first.0, second.0);
    assert_eq!(first.1, second.1);
    assert_eq!(first.2, second.2);
    let other = run(22);
    assert_ne!(first.2, other.2);
}

#[test]
fn the_same_report_gives_the_same_board() {
    let mut rng = seeded(23);
    let population = generate_population(3, &mut rng).unwrap();
    let mut board = PixelBoard::new(8, 8, population, &mut rng).unwrap();
    let eager = Rules { engagement_threshold: 0, cadence: 1, ..Rules::standard() };
    let mut scheduler = Scheduler::new(eager).unwrap();
    let before = cells_of(&board);
    let report = scheduler.tick(&mut board, &mut rng);
    assert!(!report.engagements.is_empty());
    let once = replayed(&before, board.genomes(), &eager, &report);
    let twice = replayed(&before, board.genomes(), &eager, &report);
    assert_eq!(once, twice);
    assert_eq!(once, cells_of(&board));
    let rebuilt =
        PixelBoard::from_cells(8, 8, board.genomes().clone(), once).unwrap().to_color_buffer();
    assert_eq!(rebuilt, board.to_color_buffer());
}

#[test]
fn species_take_territory_over_time() {
    let mut rng = seeded(24);
    let population = generate_population(2, &mut rng).unwrap();
    let mut board = PixelBoard::new(10, 10, population, &mut rng).unwrap();
    let start = board.to_color_buffer();
    let eager = Rules { engagement_threshold: 0, cadence: 1, ..Rules::standard() };
    let mut scheduler = Scheduler::new(eager).unwrap();
    let mut captures = 0;
    for _ in 0..200 {
        let before = cells_of(&board);
        let report = scheduler.tick(&mut board, &mut rng);
        for e in &report.engagements {
            let verdict = clash(e.attack, e.defence, &eager);
            if changes_hands(&before[e.attacker], &before[e.defender], &verdict) {
                captures += 1;
            }
        }
    }
    assert!(captures > 0);
    assert_ne!(board.to_color_buffer(), start);
}
