use combat_sim::attack::{
    breakage_roll, damage_after_reduction, defense_die_sides, effective_armor_reduction,
    resolve_attack, shield_breaks,
};
use combat_sim::combatant::{Combatant, ShieldBreakageStep};
use combat_sim::dice::{standard_roll, DiceSource};
use combat_sim::sim::{SimConfig, SimState};
use combat_sim::units::whole;

fn combatant_basic(
    name: String,
    weapon_name: String,
    attack_bonus: i32,
    defense_mod: i32,
    armor_dr: i32,
    armor_is_heavy: bool,
    armor_penetration: i32,
    damage_expr: String,
    strength_damage: i32,
    weapon_speed: i64,
    reach_ft: i64,
    move_speed: i64,
    two_hand_grip: bool,
    use_jab: bool,
    jab_special_expr: Option<String>,
    has_weapon: bool,
    weapon_defense_always: bool,
    max_hp: i32,
) -> Combatant {
    Combatant::new(
        name,
        weapon_name,
        attack_bonus,
        defense_mod,
        armor_dr,
        armor_is_heavy,
        armor_penetration,
        damage_expr,
        None,
        strength_damage,
        weapon_speed,
        reach_ft,
        move_speed,
        two_hand_grip,
        use_jab,
        jab_special_expr,
        has_weapon,
        weapon_defense_always,
        max_hp,
        None,
        0,
        0,
        None,
        false,
        None,
    )
}

fn make_state(attacker: Combatant, defender: Combatant) -> SimState {
    let mut state = SimState::new(SimConfig::new(whole(10), whole(1)));
    state.combatants = [attacker, defender];
    state
}

fn fighter(name: &str, attack_bonus: i32, defense_mod: i32, armor_dr: i32, damage: &str) -> Combatant {
    combatant_basic(
        name.to_string(),
        "Sword".to_string(),
        attack_bonus,
        defense_mod,
        armor_dr,
        false,
        0,
        damage.to_string(),
        0,
        whole(10),
        whole(1),
        whole(5),
        false,
        false,
        None,
        true,
        false,
        20,
    )
}

fn thresholds() -> [ShieldBreakageStep; 4] {
    [
        ShieldBreakageStep { threshold: 5, save_mod: Some(0) },
        ShieldBreakageStep { threshold: 8, save_mod: Some(-2) },
        ShieldBreakageStep { threshold: 11, save_mod: None },
        ShieldBreakageStep { threshold: 14, save_mod: Some(100) },
    ]
}

fn shielded(name: &str) -> Combatant {
    let mut defender = fighter(name, 0, 0, 3, "1d1");
    defender.shield_name = Some("Buckler".to_string());
    defender.shield_defense_bonus = 1;
    defender.shield_dr = 2;
    defender.shield_cover_value = Some(10);
    defender.shield_intact = true;
    defender.shield_breakage = Some(thresholds());
    defender
}

#[test]
fn attack_miss_does_no_damage() {
    let attacker = combatant_basic(
        "Attacker".to_string(),
        "Test Blade".to_string(),
        0,
        0,
        0,
        false,
        0,
        "1d1".to_string(),
        0,
        whole(10),
        whole(1),
        whole(5),
        false,
        false,
        None,
        true,
        false,
        20,
    );
    let defender = combatant_basic(
        "Defender".to_string(),
        "Shield".to_string(),
        0,
        1000,
        0,
        false,
        0,
        "1d1".to_string(),
        0,
        whole(10),
        whole(1),
        whole(5),
        false,
        false,
        None,
        true,
        false,
        20,
    );
    let mut state = make_state(attacker, defender);
    let mut rng = DiceSource::seeded(1);
    let _ = resolve_attack(&mut state.combatants, 0, 1, 0, false, &mut rng);
    assert_eq!(state.combatants[1].hp, 20);
}

#[test]
fn damage_respects_dr_under_five() {
    let attacker = combatant_basic(
        "Attacker".to_string(),
        "Test Blade".to_string(),
        100,
        0,
        0,
        false,
        2,
        "1d1".to_string(),
        5,
        whole(10),
        whole(1),
        whole(5),
        false,
        false,
        None,
        true,
        false,
        20,
    );
    let defender = combatant_basic(
        "Defender".to_string(),
        "Shield".to_string(),
        0,
        0,
        4,
        false,
        0,
        "1d1".to_string(),
        0,
        whole(10),
        whole(1),
        whole(5),
        false,
        false,
        None,
        true,
        false,
        20,
    );
    let mut state = make_state(attacker, defender);
    let mut rng = DiceSource::seeded(2);
    let _ = resolve_attack(&mut state.combatants, 0, 1, 0, false, &mut rng);
    assert_eq!(state.combatants[1].hp, 18);
}

#[test]
fn damage_applies_armor_penetration_when_dr_high() {
    let attacker = combatant_basic(
        "Attacker".to_string(),
        "Test Blade".to_string(),
        100,
        0,
        0,
        false,
        2,
        "1d1".to_string(),
        5,
        whole(10),
        whole(1),
        whole(5),
        false,
        false,
        None,
        true,
        false,
        20,
    );
    let defender = combatant_basic(
        "Defender".to_string(),
        "Shield".to_string(),
        0,
        0,
        6,
        false,
        0,
        "1d1".to_string(),
        0,
        whole(10),
        whole(1),
        whole(5),
        false,
        false,
        None,
        true,
        false,
        20,
    );
    let mut state = make_state(attacker, defender);
    let mut rng = DiceSource::seeded(3);
    let _ = resolve_attack(&mut state.combatants, 0, 1, 0, false, &mut rng);
    assert_eq!(state.combatants[1].hp, 18);
}

#[test]
fn negative_penetration_increases_effective_dr() {
    let attacker = combatant_basic(
        "Attacker".to_string(),
        "Test Blade".to_string(),
        100,
        0,
        0,
        false,
        -1,
        "1d1".to_string(),
        5,
        whole(10),
        whole(1),
        whole(5),
        false,
        false,
        None,
        true,
        false,
        20,
    );
    let defender = combatant_basic(
        "Defender".to_string(),
        "Shield".to_string(),
        0,
        0,
        6,
        false,
        0,
        "1d1".to_string(),
        0,
        whole(10),
        whole(1),
        whole(5),
        false,
        false,
        None,
        true,
        false,
        20,
    );
    let mut state = make_state(attacker, defender);
    let mut rng = DiceSource::seeded(4);
    let _ = resolve_attack(&mut state.combatants, 0, 1, 0, false, &mut rng);
    assert_eq!(state.combatants[1].hp, 20);
}

#[test]
fn damage_can_reduce_to_zero_after_dr() {
    let attacker = combatant_basic(
        "Attacker".to_string(),
        "Test Blade".to_string(),
        100,
        0,
        0,
        false,
        0,
        "1d1".to_string(),
        0,
        whole(10),
        whole(1),
        whole(5),
        false,
        false,
        None,
        true,
        false,
        20,
    );
    let defender = combatant_basic(
        "Defender".to_string(),
        "Shield".to_string(),
        0,
        0,
        10,
        false,
        0,
        "1d1".to_string(),
        0,
        whole(10),
        whole(1),
        whole(5),
        false,
        false,
        None,
        true,
        false,
        20,
    );
    let mut state = make_state(attacker, defender);
    let mut rng = DiceSource::seeded(5);
    let _ = resolve_attack(&mut state.combatants, 0, 1, 0, false, &mut rng);
    assert_eq!(state.combatants[1].hp, 20);
}

#[test]
fn two_hand_grip_bonus_applies_once_between_attacks() {
    let attacker = combatant_basic(
        "Attacker".to_string(),
        "Test Blade".to_string(),
        0,
        0,
        0,
        false,
        0,
        "1d1".to_string(),
        0,
        whole(10),
        whole(1),
        whole(5),
        true,
        false,
        None,
        true,
        false,
        20,
    );
    let defender = combatant_basic(
        "Defender".to_string(),
        "Test Blade".to_string(),
        0,
        0,
        0,
        false,
        0,
        "1d1".to_string(),
        0,
        whole(10),
        whole(1),
        whole(5),
        false,
        false,
        None,
        true,
        false,
        20,
    );
    let mut state = make_state(attacker, defender);
    let mut rng = DiceSource::scripted(vec![]);
    let _ = resolve_attack(&mut state.combatants, 0, 1, 0, false, &mut rng);
    assert!(state.combatants[0].defense_plus_four_ready);

    let mut rng = DiceSource::scripted(vec![]);
    let _ = resolve_attack(&mut state.combatants, 1, 0, 0, false, &mut rng);
    assert!(!state.combatants[0].defense_plus_four_ready);
}

#[test]
fn poleaxe_always_gets_defense_bonus() {
    let attacker = combatant_basic(
        "Attacker".to_string(),
        "Test Blade".to_string(),
        0,
        0,
        0,
        false,
        0,
        "1d1".to_string(),
        0,
        whole(10),
        whole(1),
        whole(5),
        false,
        false,
        None,
        true,
        false,
        20,
    );
    let defender = combatant_basic(
        "Defender".to_string(),
        "Poleaxe".to_string(),
        0,
        0,
        0,
        false,
        0,
        "1d1".to_string(),
        0,
        whole(10),
        whole(1),
        whole(5),
        false,
        false,
        None,
        true,
        true,
        20,
    );
    let mut state = make_state(attacker, defender);
    let mut rng = DiceSource::scripted(vec![]);
    let _ = resolve_attack(&mut state.combatants, 0, 1, 0, false, &mut rng);
    assert_eq!(state.combatants[1].hp, 20);
}

#[test]
fn ranged_stationary_uses_d12p_defense() {
    assert_eq!(defense_die_sides(true, false, false), 12);
}

#[test]
fn ranged_moving_uses_d20p_defense() {
    assert_eq!(defense_die_sides(true, true, false), 20);
}

#[test]
fn ranged_stationary_with_shield_uses_d20p_defense() {
    assert_eq!(defense_die_sides(true, false, true), 20);
}

#[test]
fn melee_always_uses_d20p_defense() {
    for moved in [false, true] {
        for shield in [false, true] {
            assert_eq!(defense_die_sides(false, moved, shield), 20);
        }
    }
    assert_eq!(defense_die_sides(true, true, true), 20);
}

#[test]
fn one_handed_weapon_does_not_grant_defense_bonus() {
    let attacker = combatant_basic(
        "Attacker".to_string(),
        "Test Blade".to_string(),
        0,
        0,
        0,
        false,
        0,
        "1d1".to_string(),
        0,
        whole(10),
        whole(1),
        whole(5),
        false,
        false,
        None,
        true,
        false,
        20,
    );
    let defender = combatant_basic(
        "Defender".to_string(),
        "Short Sword".to_string(),
        0,
        0,
        0,
        false,
        0,
        "1d1".to_string(),
        0,
        whole(10),
        whole(1),
        whole(5),
        false,
        false,
        None,
        true,
        false,
        20,
    );
    let mut state = make_state(attacker, defender);
    let mut rng = DiceSource::scripted(vec![]);
    let _ = resolve_attack(&mut state.combatants, 0, 1, 0, false, &mut rng);
    assert!(!state.combatants[1].defense_plus_four_ready);
}

#[test]
fn defense_always_applies_without_two_hand_grip() {
    let attacker = combatant_basic(
        "Attacker".to_string(),
        "Test Blade".to_string(),
        0,
        0,
        0,
        false,
        0,
        "1d1".to_string(),
        0,
        whole(10),
        whole(1),
        whole(5),
        false,
        false,
        None,
        true,
        false,
        20,
    );
    let defender = combatant_basic(
        "Defender".to_string(),
        "Polehammer".to_string(),
        0,
        0,
        0,
        false,
        0,
        "1d1".to_string(),
        0,
        whole(10),
        whole(1),
        whole(5),
        false,
        false,
        None,
        true,
        true,
        20,
    );
    let mut state = make_state(attacker, defender);
    let mut rng = DiceSource::scripted(vec![]);
    let _ = resolve_attack(&mut state.combatants, 0, 1, 0, false, &mut rng);
    assert_eq!(state.combatants[1].hp, 20);

    let mut rng = DiceSource::scripted(vec![]);
    let _ = resolve_attack(&mut state.combatants, 0, 1, 0, false, &mut rng);
    assert_eq!(state.combatants[1].hp, 20);
}

#[test]
fn armor_reduction_ignores_penetration_below_five() {
    assert_eq!(effective_armor_reduction(4, false, 3), 4);
    assert_eq!(effective_armor_reduction(0, false, 3), 0);
    assert_eq!(effective_armor_reduction(4, false, -3), 4);
    assert_eq!(effective_armor_reduction(-2, false, 7), -2);
}

#[test]
fn armor_reduction_counts_penetration_from_five_or_heavy() {
    assert_eq!(effective_armor_reduction(5, false, 3), 2);
    assert_eq!(effective_armor_reduction(6, false, 2), 4);
    assert_eq!(effective_armor_reduction(6, false, 9), 0);
    assert_eq!(effective_armor_reduction(6, false, -1), 7);
    assert_eq!(effective_armor_reduction(4, true, 3), 1);
    assert_eq!(effective_armor_reduction(2, true, 3), 0);
    assert_eq!(effective_armor_reduction(2, true, -3), 5);
    assert_eq!(effective_armor_reduction(i32::MAX, true, i32::MIN), 4294967295);
}

#[test]
fn final_damage_is_never_negative() {
    assert_eq!(damage_after_reduction(7, 2), 5);
    assert_eq!(damage_after_reduction(2, 7), 0);
    assert_eq!(damage_after_reduction(0, 0), 0);
    assert_eq!(damage_after_reduction(3, -2), 5);
    assert_eq!(damage_after_reduction(-3, -2), 0);
    assert_eq!(damage_after_reduction(i64::MIN, i64::MAX), 0);
    assert_eq!(damage_after_reduction(i64::MAX, i64::MIN), i64::MAX);
}

#[test]
fn a_hit_is_logged_with_its_rolls() {
    let mut attacker = fighter("A", 2, 0, 0, "d6p+2");
    attacker.strength_damage = 1;
    let defender = fighter("B", 0, 3, 2, "1d1");
    let mut pair = [attacker, defender];
    let mut rng = DiceSource::scripted(vec![15, 3, 4]);
    let text = resolve_attack(&mut pair, 0, 1, 0, false, &mut rng);
    assert_eq!(
        text,
        "A hits B with Sword (atk 17 [d20p=15] vs def 6 [d20p=3]) for 5 dmg [1d6=4 + 2] (hp 15)"
    );
    assert_eq!(pair[1].hp, 15);
    assert_eq!(pair[0].hp, 20);
}

#[test]
fn attack_that_equals_defense_hits() {
    let attacker = fighter("A", 0, 0, 0, "3");
    let defender = fighter("B", 0, 0, 0, "1d1");
    let mut pair = [attacker, defender];
    let mut rng = DiceSource::scripted(vec![9, 9]);
    let text = resolve_attack(&mut pair, 0, 1, 0, false, &mut rng);
    assert_eq!(text, "A hits B with Sword (atk 9 [d20p=9] vs def 9 [d20p=9]) for 3 dmg [3] (hp 17)");
    let mut rng = DiceSource::scripted(vec![9, 10]);
    let text = resolve_attack(&mut pair, 0, 1, 0, false, &mut rng);
    assert_eq!(text, "A misses B with Sword (atk 9 [d20p=9] vs def 10 [d20p=10])");
    assert_eq!(pair[1].hp, 17);
}

#[test]
fn the_log_shows_hit_points_not_below_zero() {
    let attacker = fighter("A", 50, 0, 0, "30");
    let defender = fighter("B", 0, 0, 0, "1d1");
    let mut pair = [attacker, defender];
    let mut rng = DiceSource::scripted(vec![2, 2]);
    let text = resolve_attack(&mut pair, 0, 1, 0, false, &mut rng);
    assert_eq!(
        text,
        "A hits B with Sword (atk 52 [d20p=2] vs def 2 [d20p=2]) for 30 dmg [30] (hp 0)"
    );
    assert_eq!(pair[1].hp, -10);
}

#[test]
fn raw_damage_is_not_below_zero() {
    let mut attacker = fighter("A", 50, 0, 0, "2");
    attacker.strength_damage = -9;
    let defender = fighter("B", 0, 0, -4, "1d1");
    let mut pair = [attacker, defender];
    let mut rng = DiceSource::scripted(vec![2, 2]);
    let text = resolve_attack(&mut pair, 0, 1, 0, false, &mut rng);
    // raw 0, armor that "reduces" by -4 adds four
    assert_eq!(text, "A hits B with Sword (atk 52 [d20p=2] vs def 2 [d20p=2]) for 4 dmg [2] (hp 16)");
}

#[test]
fn a_jab_without_its_own_expression_halves_the_roll() {
    let mut attacker = fighter("A", 50, 0, 0, "d6p+3");
    attacker.use_jab = true;
    attacker.strength_damage = 3;
    let defender = fighter("B", 0, 0, 0, "1d1");
    let mut pair = [attacker, defender];
    let mut rng = DiceSource::scripted(vec![2, 2, 6, 5]);
    let text = resolve_attack(&mut pair, 0, 1, 0, false, &mut rng);
    // standard dice: the 6 does not explode; (6 + 3) / 2 = 4, plus strength 3
    assert_eq!(
        text,
        "A hits B with Sword (atk 52 [d20p=2] vs def 2 [d20p=2]) for 7 dmg [1d6=6 + 3] (hp 13)"
    );
}

#[test]
fn a_jab_with_its_own_expression_is_not_halved() {
    let mut attacker = fighter("A", 50, 0, 0, "d6p+3");
    attacker.use_jab = true;
    attacker.jab_special_expr = Some("d4p".to_string());
    attacker.strength_damage = 3;
    let defender = fighter("B", 0, 0, 0, "1d1");
    let mut pair = [attacker, defender];
    let mut rng = DiceSource::scripted(vec![2, 2, 4, 4]);
    let text = resolve_attack(&mut pair, 0, 1, 0, false, &mut rng);
    assert_eq!(
        text,
        "A hits B with Sword (atk 52 [d20p=2] vs def 2 [d20p=2]) for 7 dmg [1d4=4] (hp 13)"
    );
}

#[test]
fn a_negative_jab_roll_is_halved_toward_zero() {
    let mut attacker = fighter("A", 50, 0, 0, "d4p-6");
    attacker.use_jab = true;
    attacker.strength_damage = 5;
    let defender = fighter("B", 0, 0, 0, "1d1");
    let mut pair = [attacker, defender];
    let mut rng = DiceSource::scripted(vec![2, 2, 1]);
    let text = resolve_attack(&mut pair, 0, 1, 0, false, &mut rng);
    // (1 - 6) / 2 = -2, plus strength 5
    assert_eq!(
        text,
        "A hits B with Sword (atk 52 [d20p=2] vs def 2 [d20p=2]) for 3 dmg [1d4=1 - 6] (hp 17)"
    );
}

#[test]
fn a_shield_takes_a_near_miss() {
    let mut attacker = fighter("A", 0, 0, 0, "2d6");
    attacker.strength_damage = 2;
    let defender = shielded("B");
    let mut pair = [attacker, defender];
    let mut rng = DiceSource::scripted(vec![5, 4, 3, 4, 10, 12]);
    let text = resolve_attack(&mut pair, 0, 1, 0, false, &mut rng);
    assert_eq!(
        text,
        "B blocks A with Buckler (atk 5 [d20p=5] vs def 9 [d20p=4]); shield dmg 9 [2d6=3+4] (shield broken), hp 16"
    );
    assert_eq!(pair[1].hp, 16);
    assert!(!pair[1].shield_intact);
}

#[test]
fn a_shield_that_saves_stays_intact() {
    let mut attacker = fighter("A", 0, 0, 0, "2d6");
    attacker.strength_damage = 2;
    let defender = shielded("B");
    let mut pair = [attacker, defender];
    let mut rng = DiceSource::scripted(vec![5, 4, 3, 4, 10, 13]);
    let text = resolve_attack(&mut pair, 0, 1, 0, false, &mut rng);
    assert_eq!(
        text,
        "B blocks A with Buckler (atk 5 [d20p=5] vs def 9 [d20p=4]); shield dmg 9 [2d6=3+4] (shield intact), hp 16"
    );
    assert!(pair[1].shield_intact);
}

#[test]
fn a_shield_does_not_take_a_wide_miss() {
    let attacker = fighter("A", 0, 0, 0, "2d6");
    let defender = shielded("B");
    let mut pair = [attacker, defender];
    // defense 10 + 5 = 15 against attack 5: a margin of ten
    let mut rng = DiceSource::scripted(vec![5, 10, 6, 6]);
    let text = resolve_attack(&mut pair, 0, 1, 0, false, &mut rng);
    assert_eq!(text, "A misses B with Sword (atk 5 [d20p=5] vs def 15 [d20p=10])");
    assert_eq!(pair[1].hp, 20);
    assert!(pair[1].shield_intact);
    // a margin of nine
    let mut rng = DiceSource::scripted(vec![5, 9, 1, 1]);
    let text = resolve_attack(&mut pair, 0, 1, 0, false, &mut rng);
    assert_eq!(
        text,
        "B blocks A with Buckler (atk 5 [d20p=5] vs def 14 [d20p=9]); shield dmg 2 [2d6=1+1] (shield intact), hp 20"
    );
}

#[test]
fn a_shield_never_takes_a_ranged_attack() {
    let attacker = fighter("A", 0, 0, 0, "2d6");
    let defender = shielded("B");
    let mut pair = [attacker, defender];
    // ranged: the shield gives its own bonus only, and the die has twenty faces
    let mut rng = DiceSource::scripted(vec![5, 6, 6, 6]);
    let text = resolve_attack(&mut pair, 0, 1, 0, true, &mut rng);
    assert_eq!(text, "A misses B with Sword (atk 5 [d20p=5] vs def 7 [d20p=6])");
    assert_eq!(pair[1].hp, 20);
    assert!(pair[1].shield_intact);
}

#[test]
fn a_broken_shield_takes_nothing() {
    let attacker = fighter("A", 0, 0, 0, "2d6");
    let mut defender = shielded("B");
    defender.shield_intact = false;
    let mut pair = [attacker, defender];
    let mut rng = DiceSource::scripted(vec![5, 6, 6, 6]);
    let text = resolve_attack(&mut pair, 0, 1, 0, false, &mut rng);
    assert_eq!(text, "A misses B with Sword (atk 5 [d20p=5] vs def 6 [d20p=6])");
    assert!(!pair[1].shield_intact);
}

#[test]
fn a_shield_is_named_shield_where_it_has_no_name() {
    let mut attacker = fighter("A", 0, 0, 0, "2d6");
    attacker.shield_damage_expr = Some("d4".to_string());
    let mut defender = shielded("B");
    defender.shield_name = None;
    defender.shield_breakage = None;
    let mut pair = [attacker, defender];
    let mut rng = DiceSource::scripted(vec![5, 4, 3]);
    let text = resolve_attack(&mut pair, 0, 1, 0, false, &mut rng);
    assert_eq!(
        text,
        "B blocks A with Shield (atk 5 [d20p=5] vs def 9 [d20p=4]); shield dmg 3 [1d4=3] (shield intact), hp 20"
    );
    assert!(pair[1].shield_intact);
}

#[test]
fn an_empty_shield_expression_means_the_weapon_s_own() {
    let mut attacker = fighter("A", 0, 0, 0, "7");
    attacker.shield_damage_expr = Some(String::new());
    let defender = shielded("B");
    let mut pair = [attacker, defender];
    let mut rng = DiceSource::scripted(vec![5, 4, 20, 1]);
    let text = resolve_attack(&mut pair, 0, 1, 0, false, &mut rng);
    // raw 7 meets the first threshold only; attacker 20 + 0 against defender 1 + 0
    assert_eq!(
        text,
        "B blocks A with Buckler (atk 5 [d20p=5] vs def 9 [d20p=4]); shield dmg 7 [7] (shield broken), hp 18"
    );
}

#[test]
fn damage_at_the_top_threshold_always_breaks_the_shield() {
    let steps = thresholds();
    for raw in [14, 15, 400] {
        let mut rng = DiceSource::scripted(vec![1, 20, 7]);
        assert!(shield_breaks(&steps, raw, &mut rng));
        // no die was rolled, though the top step has a save modifier
        assert_eq!(standard_roll(20, &mut rng), 1);
    }
}

#[test]
fn damage_below_the_top_threshold_breaks_by_the_opposed_roll() {
    let mut steps = thresholds();
    steps[2].save_mod = Some(1);
    // raw damage in [t2, t3): attacker 10 against defender 8 + 1
    let mut rng = DiceSource::scripted(vec![10, 8]);
    assert!(shield_breaks(&steps, 12, &mut rng));
    // a tie goes to the attacker
    let mut rng = DiceSource::scripted(vec![10, 9]);
    assert!(shield_breaks(&steps, 11, &mut rng));
    // the defender saves
    let mut rng = DiceSource::scripted(vec![10, 10]);
    assert!(!shield_breaks(&steps, 13, &mut rng));
    // the highest threshold that is met decides: the second, with modifier -2
    let mut rng = DiceSource::scripted(vec![10, 12]);
    assert!(shield_breaks(&steps, 10, &mut rng));
    let mut rng = DiceSource::scripted(vec![10, 13]);
    assert!(!shield_breaks(&steps, 8, &mut rng));
    // the first, with modifier 0
    let mut rng = DiceSource::scripted(vec![10, 11]);
    assert!(!shield_breaks(&steps, 5, &mut rng));
    // below all thresholds nothing is rolled
    let mut rng = DiceSource::scripted(vec![20, 20, 3]);
    assert!(!shield_breaks(&steps, 4, &mut rng));
    assert_eq!(standard_roll(6, &mut rng), 6);
}

#[test]
fn a_threshold_without_a_save_breaks_the_shield() {
    let steps = thresholds();
    let mut rng = DiceSource::scripted(vec![1, 3, 2]);
    assert!(shield_breaks(&steps, 12, &mut rng));
    assert!(breakage_roll(ShieldBreakageStep { threshold: 3, save_mod: None }, &mut rng));
    assert_eq!(standard_roll(20, &mut rng), 1);
    assert!(!breakage_roll(ShieldBreakageStep { threshold: 3, save_mod: Some(5) }, &mut rng));
}

#[test]
fn a_ranged_attack_ignores_the_defense_value() {
    let attacker = fighter("A", 0, 0, 0, "1");
    let mut defender = fighter("B", 0, 50, 0, "1d1");
    defender.moved_last_tick = false;
    let mut pair = [attacker, defender];
    // the defense die has twelve faces: the 12 explodes
    let mut rng = DiceSource::scripted(vec![20, 1, 12, 3]);
    let text = resolve_attack(&mut pair, 0, 1, -4, true, &mut rng);
    assert_eq!(text, "A hits B with Sword (atk 16 [d20p=20] vs def 14 [d20p=14]) for 1 dmg [1] (hp 19)");
    // a defender that moved rolls twenty faces: the 12 does not explode
    pair[1].moved_last_tick = true;
    let mut rng = DiceSource::scripted(vec![20, 1, 12, 3]);
    let text = resolve_attack(&mut pair, 0, 1, -4, true, &mut rng);
    assert_eq!(text, "A hits B with Sword (atk 16 [d20p=20] vs def 12 [d20p=12]) for 1 dmg [1] (hp 18)");
}

#[test]
fn a_shield_caps_a_ranged_attack() {
    let attacker = fighter("A", 30, 0, 0, "1");
    let defender = shielded("B");
    let mut pair = [attacker, defender];
    let mut rng = DiceSource::scripted(vec![5, 10]);
    let text = resolve_attack(&mut pair, 0, 1, -4, true, &mut rng);
    // 5 + 30 - 4 is capped at the cover value 10; defense 10 + 1
    assert_eq!(text, "A misses B with Sword (atk 10 [d20p=5] vs def 11 [d20p=10])");
    // the cap does not count in melee
    let mut rng = DiceSource::scripted(vec![5, 10]);
    let text = resolve_attack(&mut pair, 0, 1, 0, false, &mut rng);
    assert_eq!(text, "A hits B with Sword (atk 35 [d20p=5] vs def 15 [d20p=10]) for 0 dmg [1] (hp 20)");
}

#[test]
fn readiness_is_spent_by_the_next_attack_on_its_holder() {
    let mut a = fighter("A", 0, 0, 0, "1");
    a.two_hand_grip = true;
    let b = fighter("B", 0, 0, 0, "1");
    let mut pair = [a, b];
    let mut rng = DiceSource::scripted(vec![1, 20, 1]);
    let _ = resolve_attack(&mut pair, 0, 1, 0, false, &mut rng);
    assert!(pair[0].defense_plus_four_ready);
    // the bonus of four counts against the next attack on A ...
    let mut rng = DiceSource::scripted(vec![8, 5]);
    let text = resolve_attack(&mut pair, 1, 0, 0, false, &mut rng);
    assert_eq!(text, "B misses A with Sword (atk 8 [d20p=8] vs def 9 [d20p=5])");
    assert!(!pair[0].defense_plus_four_ready);
    // ... and not against the one after
    let mut rng = DiceSource::scripted(vec![8, 5]);
    let text = resolve_attack(&mut pair, 1, 0, 0, false, &mut rng);
    assert_eq!(text, "B hits A with Sword (atk 8 [d20p=8] vs def 5 [d20p=5]) for 1 dmg [1] (hp 19)");
    assert!(!pair[0].defense_plus_four_ready);
}

#[test]
fn readiness_needs_a_weapon_that_does_not_give_the_bonus_anyway() {
    let mut a = fighter("A", 0, 0, 0, "1");
    a.two_hand_grip = true;
    a.has_weapon = false;
    let mut b = fighter("B", 0, 0, 0, "1");
    b.two_hand_grip = true;
    b.weapon_defense_always = true;
    let mut pair = [a, b];
    let mut rng = DiceSource::scripted(vec![]);
    let _ = resolve_attack(&mut pair, 0, 1, 0, false, &mut rng);
    assert!(!pair[0].defense_plus_four_ready);
    let _ = resolve_attack(&mut pair, 1, 0, 0, false, &mut rng);
    assert!(!pair[1].defense_plus_four_ready);
}

#[test]
fn a_fighter_that_attacks_itself_is_defender_and_then_attacker() {
    let mut a = fighter("A", 5, 0, 1, "4");
    a.two_hand_grip = true;
    a.defense_plus_four_ready = true;
    let b = fighter("B", 0, 0, 0, "1");
    let mut pair = [a, b];
    // the defense has the bonus of readiness: 7 + 5 against 8 + 4
    let mut rng = DiceSource::scripted(vec![7, 8]);
    let text = resolve_attack(&mut pair, 0, 0, 0, false, &mut rng);
    assert_eq!(text, "A hits A with Sword (atk 12 [d20p=7] vs def 12 [d20p=8]) for 3 dmg [4] (hp 17)");
    assert_eq!(pair[0].hp, 17);
    // readiness was spent by the attack and gained by the swing
    assert!(pair[0].defense_plus_four_ready);
    assert_eq!(pair[1].hp, 20);
    let mut rng = DiceSource::scripted(vec![7, 9]);
    let text = resolve_attack(&mut pair, 1, 1, 0, false, &mut rng);
    assert_eq!(text, "B misses B with Sword (atk 7 [d20p=7] vs def 9 [d20p=9])");
    assert!(!pair[1].defense_plus_four_ready);
}
