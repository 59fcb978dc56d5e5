use evo_thing::ageing::{aged, dies, is_overdue};
use evo_thing::cell::{Cell, Modifiers};
use evo_thing::combat::{
    acts, captured, changes_hands, clash, engages, settle, strength, Side, Verdict,
};
use evo_thing::genome::Genome;
use evo_thing::rules::Rules;

fn genome(name: &str, base_health: u16, base_strength: u16) -> Genome {
    Genome {
        name: String::from(name),
        hue: 0,
        base_health,
        base_strength,
        base_desire: 1000,
        base_frequency: 200,
        base_expectancy: 50,
    }
}

fn cell(genome: usize, current_health: u32) -> Cell {
    Cell {
        genome,
        modifiers: Modifiers { health: 1, strength: -2, desire: 3, frequency: -4, expectancy: 5 },
        current_health,
        age: 12,
        fought_this_tick: false,
    }
}

fn rules() -> Rules {
    Rules {
        engagement_threshold: 1000,
        desire_noise: 500,
        cadence: 256,
        strength_noise: 40,
        tie_band: 10,
        rout_threshold: 100,
        draw_damage: 7,
        damage_divisor: 4,
        death_span: 16,
    }
}

#[test]
fn standard_rules_are_valid_and_are_the_default() {
    let standard = Rules::standard();
    assert!(standard.is_valid());
    assert_eq!(Rules::default(), standard);
    assert_eq!(standard.engagement_threshold, 32768);
    assert_eq!(standard.desire_noise, standard.engagement_threshold / 2);
    assert!(standard.tie_band < standard.rout_threshold);
    assert!(rules().is_valid());
}

#[test]
fn rules_that_contradict_themselves_are_not_valid() {
    let ok = rules();
    assert!(!Rules { desire_noise: -1, ..ok }.is_valid());
    assert!(!Rules { desire_noise: i32::MAX, ..ok }.is_valid());
    assert!(!Rules { strength_noise: -1, ..ok }.is_valid());
    assert!(!Rules { strength_noise: i32::MAX, ..ok }.is_valid());
    assert!(!Rules { cadence: 0, ..ok }.is_valid());
    assert!(!Rules { tie_band: -1, ..ok }.is_valid());
    assert!(!Rules { tie_band: 101, ..ok }.is_valid());
    assert!(!Rules { draw_damage: 0, ..ok }.is_valid());
    assert!(!Rules { damage_divisor: 0, ..ok }.is_valid());
    assert!(!Rules { death_span: 0, ..ok }.is_valid());
    assert!(Rules { tie_band: 100, ..ok }.is_valid());
    assert!(Rules { tie_band: 0, rout_threshold: 0, ..ok }.is_valid());
    assert!(Rules { engagement_threshold: i32::MIN, ..ok }.is_valid());
}

#[test]
fn the_engagement_test_is_desire_above_the_threshold() {
    let g = genome("A", 100, 100);
    let c = cell(0, 50);
    // desire 1000, modifier 3: the sum is above 1000 from noise -2 on.
    assert!(!engages(&g, &c, -4, &rules()));
    assert!(!engages(&g, &c, -3, &rules()));
    assert!(engages(&g, &c, -2, &rules()));
    assert!(engages(&g, &c, 500, &rules()));
    assert!(!engages(&g, &c, -500, &rules()));
    assert!(engages(&g, &c, i32::MAX, &rules()));
    assert!(!engages(&g, &c, i32::MIN, &rules()));
}

#[test]
fn the_frequency_gate_wants_a_roll_below_the_frequency() {
    let g = genome("A", 100, 100);
    let c = cell(0, 50);
    // frequency 200, modifier -4: 196.
    assert!(acts(&g, &c, 0));
    assert!(acts(&g, &c, 195));
    assert!(!acts(&g, &c, 196));
    assert!(!acts(&g, &c, 255));
}

#[test]
fn a_cell_that_has_fought_does_not_act() {
    let g = genome("A", 100, 100);
    let c = Cell { fought_this_tick: true, ..cell(0, 50) };
    assert!(!acts(&g, &c, 0));
}

#[test]
fn strength_is_base_modifier_and_noise() {
    let g = genome("A", 100, 300);
    let c = cell(0, 50);
    assert_eq!(strength(&g, &c, 0), 298);
    assert_eq!(strength(&g, &c, 40), 338);
    assert_eq!(strength(&g, &c, -40), 258);
    assert_eq!(strength(&g, &c, i32::MIN), 298 + i32::MIN as i64);
}

#[test]
fn a_gap_within_the_tie_band_is_a_draw() {
    assert_eq!(clash(500, 500, &rules()), Verdict::Draw);
    assert_eq!(clash(510, 500, &rules()), Verdict::Draw);
    assert_eq!(clash(500, 510, &rules()), Verdict::Draw);
    assert_eq!(clash(-5, 5, &rules()), Verdict::Draw);
}

#[test]
fn a_gap_between_tie_band_and_rout_threshold_is_a_hit() {
    assert_eq!(clash(511, 500, &rules()), Verdict::Hit { loser: Side::Defender, damage: 2 });
    assert_eq!(clash(500, 511, &rules()), Verdict::Hit { loser: Side::Attacker, damage: 2 });
    assert_eq!(clash(600, 500, &rules()), Verdict::Hit { loser: Side::Defender, damage: 25 });
    assert_eq!(clash(500, 599, &rules()), Verdict::Hit { loser: Side::Attacker, damage: 24 });
    assert_eq!(clash(0, 13, &rules()), Verdict::Hit { loser: Side::Attacker, damage: 3 });
}

#[test]
fn a_gap_above_the_rout_threshold_is_a_rout() {
    assert_eq!(clash(601, 500, &rules()), Verdict::Rout { loser: Side::Defender });
    assert_eq!(clash(500, 601, &rules()), Verdict::Rout { loser: Side::Attacker });
    assert_eq!(clash(i64::MAX, i64::MIN, &rules()), Verdict::Rout { loser: Side::Defender });
    assert_eq!(clash(i64::MIN, i64::MAX, &rules()), Verdict::Rout { loser: Side::Attacker });
}

#[test]
fn the_largest_hit_fits_its_damage() {
    let wide = Rules { tie_band: 0, rout_threshold: i32::MAX, damage_divisor: 1, ..rules() };
    assert_eq!(
        clash(i32::MAX as i64, 0, &wide),
        Verdict::Hit { loser: Side::Defender, damage: i32::MAX as u32 }
    );
    assert_eq!(clash(i32::MAX as i64 + 1, 0, &wide), Verdict::Rout { loser: Side::Defender });
    assert_eq!(clash(1, 0, &wide), Verdict::Hit { loser: Side::Defender, damage: 1 });
    assert_eq!(clash(0, 0, &wide), Verdict::Draw);
}

#[test]
fn a_draw_grazes_both_and_changes_no_owner() {
    let a = genome("A", 100, 100);
    let b = genome("B", 100, 100);
    let me = cell(0, 50);
    let foe = cell(1, 8);
    let fresh = Modifiers::neutral();
    assert!(!changes_hands(&me, &foe, &Verdict::Draw));
    let (me_after, foe_after) = settle(&me, &foe, &a, &b, &Verdict::Draw, fresh, &rules());
    assert_eq!(me_after, Cell { current_health: 43, fought_this_tick: true, ..me });
    assert_eq!(foe_after, Cell { current_health: 1, fought_this_tick: true, ..foe });
}

#[test]
fn a_draw_never_takes_the_last_point_of_health() {
    let a = genome("A", 100, 100);
    let me = cell(0, 7);
    let foe = cell(1, 1);
    let (me_after, foe_after) =
        settle(&me, &foe, &a, &a, &Verdict::Draw, Modifiers::neutral(), &rules());
    assert_eq!(me_after.current_health, 1);
    assert_eq!(foe_after.current_health, 1);
    assert_eq!(me_after.genome, 0);
    assert_eq!(foe_after.genome, 1);
}

#[test]
fn a_hit_wounds_the_loser_only() {
    let a = genome("A", 100, 100);
    let b = genome("B", 100, 100);
    let me = cell(0, 50);
    let foe = cell(1, 30);
    let fresh = Modifiers::neutral();
    let verdict = Verdict::Hit { loser: Side::Defender, damage: 29 };
    assert!(!changes_hands(&me, &foe, &verdict));
    let (me_after, foe_after) = settle(&me, &foe, &a, &b, &verdict, fresh, &rules());
    assert_eq!(me_after, Cell { fought_this_tick: true, ..me });
    assert_eq!(foe_after, Cell { current_health: 1, fought_this_tick: true, ..foe });

    let verdict = Verdict::Hit { loser: Side::Attacker, damage: 20 };
    assert!(!changes_hands(&me, &foe, &verdict));
    let (me_after, foe_after) = settle(&me, &foe, &a, &b, &verdict, fresh, &rules());
    assert_eq!(me_after, Cell { current_health: 30, fought_this_tick: true, ..me });
    assert_eq!(foe_after, Cell { fought_this_tick: true, ..foe });
}

#[test]
fn a_hit_that_takes_all_health_captures() {
    let a = genome("A", 100, 100);
    let b = genome("B", 70, 100);
    let me = cell(0, 50);
    let foe = cell(1, 30);
    let fresh = Modifiers { health: -3, strength: 4, desire: 5, frequency: 6, expectancy: 7 };
    for damage in [30u32, 31, 1000, u32::MAX] {
        let verdict = Verdict::Hit { loser: Side::Defender, damage };
        assert!(changes_hands(&me, &foe, &verdict));
        let (me_after, foe_after) = settle(&me, &foe, &a, &b, &verdict, fresh, &rules());
        assert_eq!(me_after, Cell { fought_this_tick: true, ..me });
        assert_eq!(
            foe_after,
            Cell { genome: 0, modifiers: fresh, current_health: 97, age: 0, fought_this_tick: true }
        );
    }
    let verdict = Verdict::Hit { loser: Side::Attacker, damage: 50 };
    assert!(changes_hands(&me, &foe, &verdict));
    let (me_after, foe_after) = settle(&me, &foe, &a, &b, &verdict, fresh, &rules());
    assert_eq!(
        me_after,
        Cell { genome: 1, modifiers: fresh, current_health: 67, age: 0, fought_this_tick: true }
    );
    assert_eq!(foe_after, Cell { fought_this_tick: true, ..foe });
}

#[test]
fn a_rout_captures_whatever_health_is_left() {
    let a = genome("A", 100, 100);
    let b = genome("B", 70, 100);
    let me = cell(0, 50_000);
    let foe = cell(1, 60_000);
    let fresh = Modifiers { health: 9, strength: -10, desire: 0, frequency: 0, expectancy: 0 };
    let verdict = Verdict::Rout { loser: Side::Defender };
    assert!(changes_hands(&me, &foe, &verdict));
    let (me_after, foe_after) = settle(&me, &foe, &a, &b, &verdict, fresh, &rules());
    assert_eq!(me_after, Cell { fought_this_tick: true, ..me });
    assert_eq!(
        foe_after,
        Cell { genome: 0, modifiers: fresh, current_health: 109, age: 0, fought_this_tick: true }
    );
    let verdict = Verdict::Rout { loser: Side::Attacker };
    assert!(changes_hands(&me, &foe, &verdict));
    let (me_after, foe_after) = settle(&me, &foe, &a, &b, &verdict, fresh, &rules());
    assert_eq!(
        me_after,
        Cell { genome: 1, modifiers: fresh, current_health: 79, age: 0, fought_this_tick: true }
    );
    assert_eq!(foe_after, Cell { fought_this_tick: true, ..foe });
}

#[test]
fn a_captured_cell_starts_afresh() {
    let winner_genome = genome("W", 11, 100);
    let winner = Cell { age: 900, ..cell(6, 3) };
    for health in [-10i8, 0, 9] {
        let fresh = Modifiers { health, strength: 1, desire: 2, frequency: 3, expectancy: 4 };
        let c = captured(&winner, &winner_genome, fresh);
        assert_eq!(c.genome, 6);
        assert_eq!(c.modifiers, fresh);
        assert_eq!(c.current_health as i64, 11 + health as i64);
        assert_eq!(c.age, 0);
        assert!(c.fought_this_tick);
        assert!(c.is_alive());
    }
}

#[test]
fn a_cell_grows_older_by_one_tick() {
    let c = cell(0, 50);
    assert_eq!(aged(&c), Cell { age: 13, ..c });
    let oldest = Cell { age: u32::MAX, ..c };
    assert_eq!(aged(&oldest), oldest);
    let almost = Cell { age: u32::MAX - 1, ..c };
    assert_eq!(aged(&almost).age, u32::MAX);
}

#[test]
fn death_comes_only_past_the_lifespan() {
    let g = genome("A", 100, 100);
    // expectancy 50, modifier 5: the lifespan is 55.
    let c = cell(0, 50);
    assert!(!is_overdue(&g, &Cell { age: 0, ..c }));
    assert!(!is_overdue(&g, &Cell { age: 55, ..c }));
    assert!(is_overdue(&g, &Cell { age: 56, ..c }));
    assert!(!dies(&g, &Cell { age: 55, ..c }, 0));
    assert!(dies(&g, &Cell { age: 56, ..c }, 0));
    assert!(!dies(&g, &Cell { age: 56, ..c }, 1));
    assert!(dies(&g, &Cell { age: 60, ..c }, 4));
    assert!(!dies(&g, &Cell { age: 60, ..c }, 5));
    assert!(dies(&g, &Cell { age: u32::MAX, ..c }, i32::MAX));
}

#[test]
fn a_short_lifespan_can_be_below_zero() {
    let g = Genome { base_expectancy: 3, ..genome("A", 100, 100) };
    let c = Cell {
        modifiers: Modifiers { expectancy: -10, ..Modifiers::neutral() },
        age: 0,
        ..cell(0, 50)
    };
    // the lifespan is -7: a cell of age 0 is overdue by 7.
    assert!(is_overdue(&g, &c));
    assert!(dies(&g, &c, 6));
    assert!(!dies(&g, &c, 7));
}

#[test]
fn the_chance_of_death_grows_with_age() {
    let g = genome("A", 100, 100);
    let c = cell(0, 50);
    let span = 16;
    let mut before = 0;
    for age in 40..100u32 {
        let old = Cell { age, ..c };
        let deadly = (0..span).filter(|roll| dies(&g, &old, *roll)).count();
        assert!(deadly >= before);
        let overdue = age as i64 - 55;
        assert_eq!(deadly as i64, overdue.clamp(0, span as i64));
        before = deadly;
    }
    assert_eq!(before, span as usize);
}
