use evo_thing::cell::{MODIFIER_HIGH, MODIFIER_LOW};
use evo_thing::dice::{
    roll_between, roll_index, roll_modifier, roll_modifiers, roll_noise, roll_stat,
};
use rand::{SeedableRng, StdRng};

fn seeded(seed: usize) -> StdRng {
    SeedableRng::from_seed(&[seed, 17, 4][..])
}

#[test]
fn roll_between_stays_in_the_half_open_range() {
    let mut rng = seeded(1);
    for _ in 0..2000 {
        let r = roll_between(&mut rng, -3, 4);
        assert!((-3..4).contains(&r));
    }
    let mut seen = [false; 7];
    for _ in 0..2000 {
        seen[(roll_between(&mut rng, -3, 4) + 3) as usize] = true;
    }
    assert_eq!(seen, [true; 7]);
}

#[test]
fn roll_between_of_one_value_gives_it() {
    let mut rng = seeded(2);
    for _ in 0..50 {
        assert_eq!(roll_between(&mut rng, 5, 6), 5);
        assert_eq!(roll_between(&mut rng, -1, 0), -1);
        assert_eq!(roll_between(&mut rng, i32::MAX - 1, i32::MAX), i32::MAX - 1);
        assert_eq!(roll_between(&mut rng, i32::MIN, i32::MIN + 1), i32::MIN);
    }
}

#[test]
fn roll_between_covers_the_whole_of_i32() {
    let mut rng = seeded(3);
    for _ in 0..200 {
        let r = roll_between(&mut rng, i32::MIN, i32::MAX);
        assert!(r < i32::MAX);
    }
}

#[test]
fn roll_noise_is_symmetric_about_zero() {
    let mut rng = seeded(4);
    for _ in 0..50 {
        assert_eq!(roll_noise(&mut rng, 0), 0);
    }
    let mut low = false;
    let mut high = false;
    for _ in 0..2000 {
        let n = roll_noise(&mut rng, 2);
        assert!((-2..=2).contains(&n));
        low |= n == -2;
        high |= n == 2;
    }
    assert!(low && high);
}

#[test]
fn roll_index_is_a_place_in_the_sequence() {
    let mut rng = seeded(5);
    for _ in 0..50 {
        assert_eq!(roll_index(&mut rng, 1), 0);
    }
    for len in 1..40usize {
        for _ in 0..50 {
            assert!(roll_index(&mut rng, len) < len);
        }
    }
}

#[test]
fn roll_stat_is_at_least_the_floor() {
    let mut rng = seeded(6);
    for _ in 0..50 {
        assert_eq!(roll_stat(&mut rng, 65535), 65535);
    }
    for _ in 0..2000 {
        assert!(roll_stat(&mut rng, 11) >= 11);
        assert!(roll_stat(&mut rng, 60000) >= 60000);
    }
}

#[test]
fn roll_modifier_stays_in_the_modifier_range() {
    let mut rng = seeded(7);
    let mut seen = [false; 20];
    for _ in 0..5000 {
        let m = roll_modifier(&mut rng);
        assert!(MODIFIER_LOW <= m && m < MODIFIER_HIGH);
        seen[(m - MODIFIER_LOW) as usize] = true;
    }
    assert_eq!(seen, [true; 20]);
}

#[test]
fn roll_modifiers_rolls_all_five_in_range() {
    let mut rng = seeded(8);
    for _ in 0..1000 {
        let m = roll_modifiers(&mut rng);
        assert!(m.is_in_range());
    }
}

#[test]
fn the_same_seed_gives_the_same_rolls() {
    let mut a = seeded(9);
    let mut b = seeded(9);
    for _ in 0..500 {
        assert_eq!(roll_between(&mut a, -1000, 1000), roll_between(&mut b, -1000, 1000));
    }
}
