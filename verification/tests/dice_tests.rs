use combat_sim::dice::{penetrating_roll, penetrating_roll_with, standard_roll, DiceSource};

#[test]
fn penetrating_roll_subtracts_one_on_extra_rolls() {
    let mut rolls = DiceSource::scripted(vec![6, 2]);
    let total = penetrating_roll_with(6, &mut rolls);
    assert_eq!(total, 7);
}

#[test]
fn penetrating_roll_can_chain_with_minus_one_each_time() {
    let mut rolls = DiceSource::scripted(vec![6, 6, 3]);
    let total = penetrating_roll_with(6, &mut rolls);
    assert_eq!(total, 13);
}

#[test]
fn penetrating_roll_without_maximum_is_the_face() {
    for face in 1..6 {
        let mut rolls = DiceSource::scripted(vec![face, 6, 6]);
        assert_eq!(penetrating_roll_with(6, &mut rolls), face);
        // the next roll starts with what the first left
        assert_eq!(penetrating_roll_with(6, &mut rolls), 6 + 5 + 0);
    }
}

#[test]
fn penetrating_roll_run_of_maxima_follows_the_formula() {
    let sides = 20;
    for k in 1..6 {
        for v in 1..20 {
            let mut script = vec![sides; k as usize];
            script.push(v);
            let mut rolls = DiceSource::scripted(script);
            let total = penetrating_roll_with(sides, &mut rolls);
            assert_eq!(total, sides + (sides - 1) * (k - 1) + (v - 1));
        }
    }
}

#[test]
fn penetrating_roll_takes_one_face_more_than_it_shows_maxima() {
    let sides = 20;
    for k in 1..6 {
        let mut script = vec![sides; k as usize];
        script.push(3);
        script.push(17);
        let mut rolls = DiceSource::scripted(script);
        assert_eq!(penetrating_roll_with(sides, &mut rolls), sides + (sides - 1) * (k - 1) + 2);
        // the face behind the run is the next one to be rolled
        assert_eq!(standard_roll(sides, &mut rolls), 17);
    }
}

#[test]
fn penetrating_roll_that_just_fits_goes_on_to_the_last_face() {
    let sides: i32 = 1 << 30;
    // two maxima and a one: the total is the largest `i32`, and fits
    let mut rolls = DiceSource::scripted(vec![sides, sides, 1, 77]);
    assert_eq!(penetrating_roll_with(sides, &mut rolls), i32::MAX);
    assert_eq!(standard_roll(sides, &mut rolls), 77);
}

#[test]
fn penetrating_roll_that_no_longer_fits_stays_at_the_limit() {
    let sides: i32 = 1 << 30;
    // the third face carries the total over the limit, and ends the roll
    let mut rolls = DiceSource::scripted(vec![sides, sides, 2, 77]);
    assert_eq!(penetrating_roll_with(sides, &mut rolls), i32::MAX);
    assert_eq!(standard_roll(sides, &mut rolls), 77);
    // so does a third maximum
    let mut rolls = DiceSource::scripted(vec![sides, sides, sides, 77]);
    assert_eq!(penetrating_roll_with(sides, &mut rolls), i32::MAX);
    assert_eq!(standard_roll(sides, &mut rolls), 77);
}

#[test]
fn penetrating_roll_ends_when_the_script_runs_out() {
    let mut rolls = DiceSource::scripted(vec![4, 4]);
    // 4, then 4 - 1, then the script is empty and shows 1, which adds nothing
    assert_eq!(penetrating_roll_with(4, &mut rolls), 7);
}

#[test]
fn degenerate_dice_are_not_rolled() {
    let mut rolls = DiceSource::scripted(vec![5, 5, 5]);
    assert_eq!(penetrating_roll(1, &mut rolls), 1);
    assert_eq!(penetrating_roll(0, &mut rolls), 0);
    assert_eq!(penetrating_roll(-3, &mut rolls), 0);
    assert_eq!(standard_roll(1, &mut rolls), 1);
    assert_eq!(standard_roll(0, &mut rolls), 0);
    assert_eq!(standard_roll(-7, &mut rolls), 0);
    // nothing was taken from the script
    assert_eq!(standard_roll(6, &mut rolls), 5);
}

#[test]
fn scripted_faces_are_moved_onto_the_die() {
    let mut rolls = DiceSource::scripted(vec![0, -4, 9, 3]);
    assert_eq!(standard_roll(6, &mut rolls), 1);
    assert_eq!(standard_roll(6, &mut rolls), 1);
    assert_eq!(standard_roll(6, &mut rolls), 6);
    assert_eq!(standard_roll(6, &mut rolls), 3);
    assert_eq!(standard_roll(6, &mut rolls), 1);
    assert_eq!(standard_roll(6, &mut rolls), 1);
}

#[test]
fn standard_roll_does_not_explode() {
    let mut rolls = DiceSource::scripted(vec![6, 6, 2]);
    assert_eq!(standard_roll(6, &mut rolls), 6);
    assert_eq!(standard_roll(6, &mut rolls), 6);
    assert_eq!(standard_roll(6, &mut rolls), 2);
}

#[test]
fn seeded_draws_stay_on_the_die() {
    let mut source = DiceSource::seeded(7);
    for sides in 1..40 {
        for _ in 0..50 {
            let face = standard_roll(sides, &mut source);
            assert!(1 <= face && face <= sides);
        }
    }
}

#[test]
fn seeded_draws_are_not_the_number_of_faces() {
    let mut source = DiceSource::seeded(1);
    let mut below = 0;
    for _ in 0..64 {
        if standard_roll(1000, &mut source) < 1000 {
            below += 1;
        }
    }
    assert!(below > 0);
}

#[test]
fn equal_seeds_give_equal_rolls() {
    let mut a = DiceSource::seeded(42);
    let mut b = DiceSource::seeded(42);
    for _ in 0..200 {
        assert_eq!(penetrating_roll(20, &mut a), penetrating_roll(20, &mut b));
        assert_eq!(standard_roll(6, &mut a), standard_roll(6, &mut b));
    }
}

#[test]
fn different_seeds_give_different_rolls() {
    let mut a = DiceSource::seeded(1);
    let mut b = DiceSource::seeded(2);
    let mut differ = false;
    for _ in 0..200 {
        if standard_roll(1000, &mut a) != standard_roll(1000, &mut b) {
            differ = true;
        }
    }
    assert!(differ);
}

#[test]
fn a_copy_of_a_source_rolls_like_the_source() {
    let mut a = DiceSource::seeded(9);
    for _ in 0..17 {
        standard_roll(20, &mut a);
    }
    let mut b = a.clone();
    for _ in 0..100 {
        assert_eq!(standard_roll(1000, &mut a), standard_roll(1000, &mut b));
    }
}

#[test]
fn seeded_exploding_rolls_are_at_least_one() {
    let mut source = DiceSource::seeded(3);
    for _ in 0..500 {
        assert!(penetrating_roll(4, &mut source) >= 1);
    }
}
