use combat_sim::combatant::{Combatant, ShieldBreakageStep};
use combat_sim::dice::{standard_roll, DiceSource};
use combat_sim::sim::{SimConfig, SimState};
use combat_sim::units::whole;

fn basic(name: &str, weapon: &str, reach_ft: i64, move_speed: i64, max_hp: i32) -> Combatant {
    Combatant::new(
        name.to_string(),
        weapon.to_string(),
        0,
        0,
        0,
        false,
        0,
        "1d1".to_string(),
        None,
        0,
        whole(10),
        reach_ft,
        move_speed,
        false,
        false,
        None,
        true,
        false,
        max_hp,
        None,
        0,
        0,
        None,
        false,
        None,
    )
}

fn duel(distance: i64, a: Combatant, b: Combatant) -> SimState {
    let mut state = SimState::new(SimConfig::new(distance, whole(1)));
    state.reset_with_combatants([a, b]);
    state
}

#[test]
fn moving_flag_set_when_positions_change() {
    let mut state = SimState::new(SimConfig::new(whole(500), whole(1)));
    let ranged = basic("Archer", "Longbow", whole(1), whole(5), 10);
    state.reset_with_combatants([ranged.clone(), ranged]);
    state.tick();
    assert!(state.combatants[0].moved_last_tick);
    assert!(state.combatants[1].moved_last_tick);
}

#[test]
fn moving_flag_clear_when_no_movement() {
    let mut state = SimState::new(SimConfig::new(whole(20), whole(1)));
    let melee = basic("Fighter", "Sword", whole(1), 0, 10);
    state.reset_with_combatants([melee.clone(), melee]);
    state.tick();
    assert!(!state.combatants[0].moved_last_tick);
    assert!(!state.combatants[1].moved_last_tick);
}

#[test]
fn a_new_engagement_has_stand_in_fighters() {
    let state = SimState::new(SimConfig::new(whole(200), whole(3)));
    assert_eq!(state.config.start_distance, whole(200));
    assert_eq!(state.config.stop_distance, whole(3));
    assert_eq!(state.actors[0].position, 0);
    assert_eq!(state.actors[1].position, whole(200));
    assert_eq!(state.distance(), whole(200));
    assert_eq!(state.elapsed_seconds, 0);
    assert!(!state.done);
    assert_eq!(state.last_event, None);
    assert!(state.combat_log.is_empty());
    for fighter in &state.combatants {
        assert_eq!(fighter.name, "Combatant");
        assert_eq!(fighter.weapon_name, "Weapon");
        assert_eq!(fighter.damage_expr, "d4p");
        assert_eq!((fighter.hp, fighter.max_hp), (10, 10));
        assert_eq!(fighter.weapon_speed, whole(10));
        assert_eq!(fighter.reach_ft, whole(1));
        assert_eq!(fighter.move_speed, whole(5));
        assert!(!fighter.has_weapon);
        assert_eq!(fighter.next_attack_time, None);
    }
}

#[test]
fn reset_makes_the_fighters_fresh() {
    let mut a = basic("A", "Sword", whole(1), whole(5), 12);
    a.hp = 3;
    a.next_attack_time = Some(7000);
    a.defense_plus_four_ready = true;
    a.moved_last_tick = true;
    a.shield_name = Some("Buckler".to_string());
    a.shield_intact = false;
    let mut b = basic("B", "Sword", whole(1), whole(5), 9);
    b.shield_intact = true;
    let mut state = SimState::new(SimConfig::new(whole(30), whole(1)));
    state.elapsed_seconds = 44;
    state.done = true;
    state.last_event = Some("old".to_string());
    state.combat_log.push("old".to_string());
    state.actors[0].position = 12;
    state.tick_accum = 500;
    state.reset_with_combatants([a, b]);
    assert_eq!(state.elapsed_seconds, 0);
    assert!(!state.done);
    assert_eq!(state.last_event, None);
    assert!(state.combat_log.is_empty());
    assert_eq!((state.actors[0].position, state.actors[1].position), (0, whole(30)));
    assert_eq!(state.tick_accum, 0);
    assert_eq!(state.combatants[0].hp, 12);
    assert_eq!(state.combatants[0].next_attack_time, None);
    assert!(!state.combatants[0].defense_plus_four_ready);
    assert!(!state.combatants[0].moved_last_tick);
    // a shield is armed again if there is one, and only then
    assert!(state.combatants[0].shield_intact);
    assert!(!state.combatants[1].shield_intact);
    assert_eq!(state.combatants[1].hp, 9);
}

#[test]
fn distance_is_never_negative() {
    let mut state = SimState::new(SimConfig::new(whole(10), whole(1)));
    assert_eq!(state.distance(), whole(10));
    // the first fighter beyond the second: the distance is the absolute value
    state.actors[0].position = whole(25);
    assert_eq!(state.distance(), whole(15));
    state.actors[1].position = whole(25);
    assert_eq!(state.distance(), 0);
    state.actors[0].position = i64::MIN;
    state.actors[1].position = i64::MAX;
    assert_eq!(state.distance(), i64::MAX);
    state.actors[0].position = i64::MAX;
    state.actors[1].position = i64::MIN;
    assert_eq!(state.distance(), i64::MAX);
}

#[test]
fn distance_is_the_same_from_either_side() {
    let mut state = SimState::new(SimConfig::new(whole(10), whole(1)));
    for (a, b) in [(0, 3000), (3000, 0), (-2500, 4000), (4000, -2500), (7, 7), (-1, -9)] {
        state.actors[0].position = a;
        state.actors[1].position = b;
        let there = state.distance();
        state.actors[0].position = b;
        state.actors[1].position = a;
        assert_eq!(state.distance(), there);
        assert_eq!(there, (b - a).abs());
    }
}

#[test]
fn melee_fighters_close_ground_before_the_fight() {
    let a = basic("A", "Sword", whole(1), whole(5), 10);
    let b = basic("B", "Sword", whole(1), whole(3), 10);
    let mut state = duel(whole(20), a, b);
    state.combatants[0].next_attack_time = Some(1);
    state.tick();
    assert_eq!((state.actors[0].position, state.actors[1].position), (whole(5), whole(17)));
    assert_eq!(state.elapsed_seconds, 1);
    assert_eq!(state.combatants[0].next_attack_time, None);
    assert_eq!(state.combatants[1].next_attack_time, None);
    assert!(state.combatants[0].moved_last_tick && state.combatants[1].moved_last_tick);
    assert!(state.combat_log.is_empty());
    state.tick();
    assert_eq!((state.actors[0].position, state.actors[1].position), (whole(10), whole(14)));
    // the next step carries them past each other, four feet apart again
    state.tick();
    assert_eq!((state.actors[0].position, state.actors[1].position), (whole(15), whole(11)));
    assert_eq!(state.distance(), whole(4));
    assert!(state.combat_log.is_empty());
    // which is out of reach: no round is fought, and both go on
    state.tick();
    assert_eq!((state.actors[0].position, state.actors[1].position), (whole(20), whole(8)));
    assert_eq!(state.distance(), whole(12));
    assert!(state.combat_log.is_empty());
    assert!(state.combatants[0].moved_last_tick && state.combatants[1].moved_last_tick);
    assert_eq!(state.elapsed_seconds, 4);
}

#[test]
fn melee_fighters_who_meet_within_reach_fight_where_they_stand() {
    let a = basic("A", "Sword", whole(1), whole(5), 10);
    let b = basic("B", "Sword", whole(1), whole(3), 10);
    let mut state = duel(whole(17), a, b);
    state.tick();
    assert_eq!((state.actors[0].position, state.actors[1].position), (whole(5), whole(14)));
    state.tick();
    assert_eq!((state.actors[0].position, state.actors[1].position), (whole(10), whole(11)));
    assert_eq!(state.distance(), whole(1));
    assert!(state.combat_log.is_empty());
    // now they are within reach: a round is fought and nobody moves
    state.tick();
    assert_eq!((state.actors[0].position, state.actors[1].position), (whole(10), whole(11)));
    assert_eq!(state.combat_log.len(), 1);
    assert!(!state.combatants[0].moved_last_tick && !state.combatants[1].moved_last_tick);
}

#[test]
fn a_negative_movement_speed_is_no_movement() {
    let a = basic("A", "Sword", whole(1), -whole(5), 10);
    let b = basic("B", "Sword", whole(1), -1, 10);
    let mut state = duel(whole(20), a, b);
    state.tick();
    assert_eq!((state.actors[0].position, state.actors[1].position), (0, whole(20)));
    assert!(!state.combatants[0].moved_last_tick && !state.combatants[1].moved_last_tick);
}

#[test]
fn the_shorter_reach_advances() {
    // within the configured distance, neither ranged: only the shorter reach moves
    let a = basic("A", "Dagger", whole(1), whole(5), 10);
    let b = basic("B", "Spear", whole(6), whole(5), 10);
    let mut state = SimState::new(SimConfig::new(whole(20), whole(30)));
    state.reset_with_combatants([a, b]);
    state.tick();
    assert_eq!((state.actors[0].position, state.actors[1].position), (whole(5), whole(20)));
    assert!(state.combatants[0].moved_last_tick);
    assert!(!state.combatants[1].moved_last_tick);
    let a = basic("A", "Spear", whole(6), whole(5), 10);
    let b = basic("B", "Dagger", 1500, 2500, 10);
    state.reset_with_combatants([a, b]);
    state.tick();
    assert_eq!((state.actors[0].position, state.actors[1].position), (0, 17_500));
    // equal reaches: nobody moves
    let a = basic("A", "Sword", whole(3), whole(5), 10);
    let b = basic("B", "Sword", whole(3), whole(5), 10);
    state.reset_with_combatants([a, b]);
    state.tick();
    assert_eq!((state.actors[0].position, state.actors[1].position), (0, whole(20)));
}

#[test]
fn a_reach_below_one_foot_counts_as_one() {
    let a = basic("A", "Fang", 500, whole(5), 10);
    let b = basic("B", "Claw", 0, whole(5), 10);
    let mut state = SimState::new(SimConfig::new(whole(1), whole(30)));
    state.reset_with_combatants([a, b]);
    state.rng = DiceSource::scripted(vec![1, 2, 1, 2]);
    state.tick();
    // both reach one foot: nobody moves, and A, whose reach is the longer, strikes first
    assert_eq!((state.actors[0].position, state.actors[1].position), (0, whole(1)));
    assert_eq!(
        state.last_event,
        Some("t=0s | A misses B with Fang (atk 1 [d20p=1] vs def 2 [d20p=2])".to_string())
    );
    assert_eq!(state.combatants[0].next_attack_time, Some(whole(10)));
    // B, whose reach is the shorter, waits a second
    assert_eq!(state.combatants[1].next_attack_time, Some(whole(1)));
}

#[test]
fn archers_keep_their_distance() {
    let archer = basic("Archer", "Longbow", whole(1), whole(5), 10);
    let knight = basic("Knight", "Sword", whole(3), whole(4), 10);
    // beyond the bow's range of 210 feet the archer advances
    let mut state = duel(whole(300), archer.clone(), knight.clone());
    state.tick();
    assert_eq!((state.actors[0].position, state.actors[1].position), (whole(5), whole(300)));
    assert!(state.combat_log.is_empty());
    // within range the archer backs away five feet; the knight, whose reach is
    // the longer, does not advance
    let mut state = duel(whole(100), archer.clone(), knight.clone());
    state.tick();
    assert_eq!((state.actors[0].position, state.actors[1].position), (-whole(5), whole(100)));
    assert_eq!(state.combat_log.len(), 1);
    // the other way round
    let mut state = duel(whole(100), knight.clone(), archer.clone());
    state.tick();
    assert_eq!((state.actors[0].position, state.actors[1].position), (0, whole(105)));
    // a melee fighter whose reach is not the longer advances
    let brawler = basic("Brawler", "Fist", whole(1), whole(4), 10);
    let mut state = duel(whole(100), archer.clone(), brawler.clone());
    state.tick();
    assert_eq!((state.actors[0].position, state.actors[1].position), (-whole(5), whole(96)));
    let mut state = duel(whole(100), brawler, archer.clone());
    state.tick();
    assert_eq!((state.actors[0].position, state.actors[1].position), (whole(4), whole(105)));
    // within the shorter of the two reaches nobody moves
    let mut state = duel(whole(1), archer.clone(), knight.clone());
    state.tick();
    assert_eq!((state.actors[0].position, state.actors[1].position), (0, whole(1)));
    // beyond the archer's reach of one foot but within the knight's: the archer backs away
    let mut state = duel(whole(2), archer, knight);
    state.tick();
    assert_eq!((state.actors[0].position, state.actors[1].position), (-whole(5), whole(2)));
}

#[test]
fn an_archer_out_of_range_does_not_shoot() {
    let archer = basic("Archer", "Dart", whole(1), 0, 10);
    let knight = basic("Knight", "Sword", whole(3), 0, 10);
    let mut state = duel(whole(41), archer, knight);
    state.tick();
    assert!(state.combat_log.is_empty());
    assert_eq!(state.combatants[0].next_attack_time, None);
    state.actors[1].position = whole(40);
    state.rng = DiceSource::scripted(vec![3, 4]);
    state.tick();
    // at forty feet the dart has a penalty of eight
    assert_eq!(
        state.last_event,
        Some("t=1s | Archer misses Knight with Dart (atk -5 [d20p=3] vs def 4 [d20p=4])".to_string())
    );
}

#[test]
fn a_round_is_one_line_of_the_log() {
    let mut a = basic("A", "Sword", whole(1), 0, 20);
    a.attack_bonus = 2;
    a.strength_damage = 1;
    a.damage_expr = "d6p+2".to_string();
    let mut b = basic("B", "Mace", whole(1), 0, 20);
    b.defense_mod = 3;
    b.armor_dr = 2;
    let mut state = duel(whole(1), a, b);
    state.rng = DiceSource::scripted(vec![15, 3, 4, 2, 19]);
    state.tick();
    let line = "t=0s | A hits B with Sword (atk 17 [d20p=15] vs def 6 [d20p=3]) for 5 dmg [1d6=4 + 2] (hp 15) | B misses A with Mace (atk 2 [d20p=2] vs def 19 [d20p=19])";
    assert_eq!(state.last_event, Some(line.to_string()));
    assert_eq!(state.combat_log, vec![line.to_string()]);
    assert_eq!(state.elapsed_seconds, 1);
    assert!(!state.done);
    // both attacked at time 0 and attack again ten seconds later
    assert_eq!(state.combatants[0].next_attack_time, Some(whole(10)));
    assert_eq!(state.combatants[1].next_attack_time, Some(whole(10)));
    for second in 1..10 {
        state.tick();
        assert_eq!(state.combat_log.len(), 1);
        assert_eq!(state.elapsed_seconds, second + 1);
    }
    state.rng = DiceSource::scripted(vec![1, 1, 1, 1, 1]);
    state.tick();
    assert_eq!(state.combat_log.len(), 2);
    assert_eq!(
        state.last_event,
        Some("t=10s | A misses B with Sword (atk 3 [d20p=1] vs def 4 [d20p=1]) | B hits A with Mace (atk 1 [d20p=1] vs def 1 [d20p=1]) for 1 dmg [1d1=1] (hp 19)"
            .to_string())
    );
    assert_eq!(state.combatants[0].next_attack_time, Some(whole(20)));
}

#[test]
fn a_cycle_time_below_one_second_counts_as_one() {
    let mut a = basic("A", "Sword", whole(1), 0, 20);
    a.weapon_speed = 250;
    let mut b = basic("B", "Sword", whole(1), 0, 20);
    b.weapon_speed = 2500;
    let mut state = duel(whole(1), a, b);
    state.rng = DiceSource::scripted(vec![1, 20, 1, 1, 20, 1]);
    state.tick();
    assert_eq!(state.combatants[0].next_attack_time, Some(whole(1)));
    assert_eq!(state.combatants[1].next_attack_time, Some(2500));
    state.rng = DiceSource::scripted(vec![1, 20, 1]);
    state.tick();
    assert_eq!(state.combatants[0].next_attack_time, Some(whole(2)));
    assert_eq!(state.combatants[1].next_attack_time, Some(2500));
    assert_eq!(state.combat_log.len(), 2);
    state.rng = DiceSource::scripted(vec![1, 20, 1]);
    state.tick();
    // B's attack was due at 2.5 s and is made at 3 s; the next is due at 5 s
    assert_eq!(state.combat_log.len(), 3);
    assert_eq!(state.combatants[1].next_attack_time, Some(2500));
    state.rng = DiceSource::scripted(vec![1, 20, 1, 1, 20, 1]);
    state.tick();
    assert_eq!(state.combatants[1].next_attack_time, Some(5000));
}

#[test]
fn the_engagement_ends_when_a_defender_goes_down() {
    let mut a = basic("A", "Sword", whole(1), 0, 20);
    a.attack_bonus = 100;
    a.damage_expr = "25".to_string();
    let mut b = basic("B", "Sword", whole(1), 0, 20);
    b.attack_bonus = 100;
    b.damage_expr = "25".to_string();
    let mut state = duel(whole(1), a, b);
    state.rng = DiceSource::scripted(vec![2, 2, 9, 9]);
    assert!(!state.done);
    state.tick();
    assert!(state.done);
    // B went down before it could strike back
    assert_eq!(state.combatants[1].hp, -5);
    assert_eq!(state.combatants[0].hp, 20);
    assert_eq!(
        state.last_event,
        Some("t=0s | A hits B with Sword (atk 102 [d20p=2] vs def 2 [d20p=2]) for 25 dmg [25] (hp 0)"
            .to_string())
    );
    assert_eq!(state.combatants[1].next_attack_time, None);
    assert_eq!(state.elapsed_seconds, 1);
    assert_eq!(standard_roll(20, &mut state.rng), 9);
}

#[test]
fn the_second_fighter_can_end_the_engagement() {
    let a = basic("A", "Sword", whole(1), 0, 20);
    let mut b = basic("B", "Sword", whole(1), 0, 20);
    b.attack_bonus = 100;
    b.damage_expr = "20".to_string();
    let mut state = duel(whole(1), a, b);
    state.rng = DiceSource::scripted(vec![2, 3, 4, 4]);
    state.tick();
    assert!(state.done);
    assert_eq!(state.combatants[0].hp, 0);
    assert_eq!(
        state.last_event,
        Some("t=0s | A misses B with Sword (atk 2 [d20p=2] vs def 3 [d20p=3]) | B hits A with Sword (atk 104 [d20p=4] vs def 4 [d20p=4]) for 20 dmg [20] (hp 0)"
            .to_string())
    );
}

#[test]
fn an_engagement_that_is_over_stays_as_it_is() {
    let mut a = basic("A", "Sword", whole(1), whole(5), 20);
    a.attack_bonus = 100;
    a.damage_expr = "25".to_string();
    let b = basic("B", "Longbow", whole(1), whole(5), 20);
    let mut state = duel(whole(1), a, b);
    state.tick();
    assert!(state.done);
    let positions = (state.actors[0].position, state.actors[1].position);
    let log = state.combat_log.clone();
    let hp = (state.combatants[0].hp, state.combatants[1].hp);
    let times = (state.combatants[0].next_attack_time, state.combatants[1].next_attack_time);
    let accum = state.tick_accum;
    let mut twin = state.rng.clone();
    for _ in 0..5 {
        state.tick();
        state.update(whole(3));
        state.update(250);
    }
    assert!(state.done);
    assert_eq!(state.elapsed_seconds, 1);
    assert_eq!((state.actors[0].position, state.actors[1].position), positions);
    assert_eq!(state.combat_log, log);
    assert_eq!((state.combatants[0].hp, state.combatants[1].hp), hp);
    assert_eq!(
        (state.combatants[0].next_attack_time, state.combatants[1].next_attack_time),
        times
    );
    assert_eq!(state.tick_accum, accum);
    assert_eq!(standard_roll(1000, &mut state.rng), standard_roll(1000, &mut twin));
}

#[test]
fn a_round_never_reopens_an_engagement() {
    let mut a = basic("A", "Sword", whole(1), 0, 20);
    a.attack_bonus = 100;
    a.damage_expr = "25".to_string();
    let b = basic("B", "Sword", whole(1), 0, 20);
    let mut state = duel(whole(1), a, b);
    state.tick();
    assert!(state.done);
    let log = state.combat_log.clone();
    // a round on the finished engagement: nobody attacks, and it stays over
    state.resolve_combat_round();
    assert!(state.done);
    assert_eq!(state.combat_log, log);
    assert_eq!(state.combatants[1].hp, -5);

    // over by decree, with both fighters standing: the round is fought, and
    // the engagement is still over
    let a = basic("A", "Sword", whole(1), 0, 20);
    let b = basic("B", "Sword", whole(1), 0, 20);
    let mut state = duel(whole(1), a, b);
    state.done = true;
    state.rng = DiceSource::scripted(vec![2, 3, 2, 3]);
    state.resolve_combat_round();
    assert!(state.done);
    assert_eq!(state.combat_log.len(), 1);
    assert_eq!((state.combatants[0].hp, state.combatants[1].hp), (20, 20));
}

#[test]
fn fighters_who_start_down_never_fight() {
    let a = basic("A", "Sword", whole(1), 0, 0);
    let b = basic("B", "Sword", whole(1), 0, 20);
    let mut state = duel(whole(1), a, b);
    for _ in 0..20 {
        state.tick();
    }
    assert!(!state.done);
    assert!(state.combat_log.is_empty());
    assert_eq!(state.elapsed_seconds, 20);
}

#[test]
fn update_ticks_once_for_every_whole_second() {
    let a = basic("A", "Sword", whole(1), whole(1), 20);
    let b = basic("B", "Sword", whole(1), whole(1), 20);
    let mut state = duel(whole(100), a, b);
    state.update(400);
    assert_eq!((state.elapsed_seconds, state.tick_accum), (0, 400));
    state.update(400);
    assert_eq!((state.elapsed_seconds, state.tick_accum), (0, 800));
    state.update(400);
    assert_eq!((state.elapsed_seconds, state.tick_accum), (1, 200));
    state.update(3900);
    assert_eq!((state.elapsed_seconds, state.tick_accum), (5, 100));
    state.update(-100);
    assert_eq!((state.elapsed_seconds, state.tick_accum), (5, 0));
    state.update(-2000);
    state.update(whole(2));
    assert_eq!((state.elapsed_seconds, state.tick_accum), (5, 0));
    state.update(whole(1));
    assert_eq!((state.elapsed_seconds, state.tick_accum), (6, 0));
    assert_eq!(state.actors[0].position, whole(6));
    assert_eq!(state.actors[1].position, whole(94));
}

#[test]
fn update_stops_when_the_engagement_ends() {
    let mut a = basic("A", "Sword", whole(1), 0, 20);
    a.attack_bonus = 100;
    a.damage_expr = "25".to_string();
    let b = basic("B", "Sword", whole(1), 0, 20);
    let mut state = duel(whole(1), a, b);
    state.update(whole(10) + 7);
    assert!(state.done);
    assert_eq!(state.elapsed_seconds, 1);
    // the seconds that were not ticked off stay pending
    assert_eq!(state.tick_accum, whole(9) + 7);
}

fn knight(name: &str) -> Combatant {
    Combatant::new(
        name.to_string(),
        "Longsword".to_string(),
        4,
        -2,
        5,
        true,
        1,
        "2d8p".to_string(),
        Some("d6p".to_string()),
        2,
        whole(10),
        3500,
        whole(5),
        true,
        false,
        None,
        true,
        false,
        31,
        Some("Medium Shield".to_string()),
        2,
        3,
        Some(14),
        true,
        Some([
            ShieldBreakageStep { threshold: 9, save_mod: Some(2) },
            ShieldBreakageStep { threshold: 12, save_mod: Some(0) },
            ShieldBreakageStep { threshold: 15, save_mod: Some(-2) },
            ShieldBreakageStep { threshold: 18, save_mod: None },
        ]),
    )
}

fn archer(name: &str) -> Combatant {
    let mut archer = basic(name, "Shortbow", 0, whole(6), 24);
    archer.attack_bonus = 3;
    archer.damage_expr = "2d6p".to_string();
    archer.weapon_speed = whole(7);
    archer
}

#[test]
fn equal_engagements_have_equal_logs() {
    let config = SimConfig::new(whole(120), whole(1));
    let mut first = SimState::new(config);
    first.reset_with_combatants([knight("Ser A"), archer("B")]);
    // the second engagement has a history before it is reset
    let mut second = SimState::new(config);
    second.reset_with_combatants([archer("X"), archer("Y")]);
    for _ in 0..30 {
        second.tick();
    }
    second.reset_with_combatants([knight("Ser A"), archer("B")]);
    for _ in 0..400 {
        first.tick();
        second.tick();
        assert_eq!(first.combat_log, second.combat_log);
        assert_eq!(first.last_event, second.last_event);
        assert_eq!(first.done, second.done);
        assert_eq!(first.elapsed_seconds, second.elapsed_seconds);
        assert_eq!(first.distance(), second.distance());
        assert_eq!(first.combatants[0].hp, second.combatants[0].hp);
        assert_eq!(first.combatants[1].hp, second.combatants[1].hp);
    }
    assert!(!first.combat_log.is_empty());
}

#[test]
fn reset_repeats_the_engagement() {
    let mut state = SimState::new(SimConfig::new(whole(30), whole(1)));
    state.reset_with_combatants([knight("A"), knight("B")]);
    for _ in 0..300 {
        state.tick();
    }
    let log = state.combat_log.clone();
    assert!(!log.is_empty());
    state.reset();
    for _ in 0..300 {
        state.tick();
    }
    assert_eq!(state.combat_log, log);
}

#[test]
fn hit_points_fall_and_times_rise() {
    let mut state = SimState::new(SimConfig::new(whole(30), whole(1)));
    state.reset_with_combatants([knight("A"), knight("B")]);
    let mut hp = (31, 31);
    let mut times: (Option<i64>, Option<i64>) = (None, None);
    let mut shields = (true, true);
    let mut ended = false;
    for _ in 0..2000 {
        let was_done = state.done;
        state.tick();
        let now = (state.combatants[0].hp, state.combatants[1].hp);
        assert!(now.0 <= hp.0 && now.1 <= hp.1);
        // done turns true on the tick in which a fighter first goes down
        let fell = (hp.0 > 0 && now.0 <= 0) || (hp.1 > 0 && now.1 <= 0);
        assert_eq!(state.done && !was_done, fell);
        hp = now;
        let next = (state.combatants[0].next_attack_time, state.combatants[1].next_attack_time);
        if let (Some(before), Some(after)) = (times.0, next.0) {
            assert!(after >= before);
        }
        if let (Some(before), Some(after)) = (times.1, next.1) {
            assert!(after >= before);
        }
        if times.0.is_some() {
            assert!(next.0.is_some());
        }
        times = next;
        // a broken shield stays broken
        let intact = (state.combatants[0].shield_intact, state.combatants[1].shield_intact);
        assert!(!(intact.0 && !shields.0) && !(intact.1 && !shields.1));
        shields = intact;
        assert!(state.distance() >= 0);
        if state.done {
            ended = true;
            break;
        }
    }
    assert!(ended);
}

#[test]
fn the_clock_stops_at_the_end_of_its_type() {
    let a = basic("A", "Sword", whole(1), 0, 0);
    let b = basic("B", "Sword", whole(1), 0, 20);
    let mut state = duel(whole(1), a, b);
    state.elapsed_seconds = u32::MAX - 1;
    state.tick();
    assert_eq!(state.elapsed_seconds, u32::MAX);
    state.tick();
    assert_eq!(state.elapsed_seconds, u32::MAX);
}

#[test]
fn places_stay_within_their_type() {
    let bowman = basic("A", "Longbow", whole(1), whole(5), 10);
    let swordsman = basic("B", "Sword", whole(1), whole(4), 10);
    let mut state = duel(whole(50), bowman, swordsman);
    state.actors[0].position = i64::MIN + 100;
    state.actors[1].position = i64::MIN + 100 + whole(50);
    state.tick();
    // the bowman backs away as far as the line goes
    assert_eq!(state.actors[0].position, i64::MIN);
    assert_eq!(state.actors[1].position, i64::MIN + 100 + whole(46));
    assert!(state.combatants[1].moved_last_tick);
    assert!(state.combatants[0].moved_last_tick);
    let a = basic("A", "Sword", whole(1), i64::MAX, 10);
    let b = basic("B", "Sword", whole(1), i64::MAX, 10);
    let mut state = duel(whole(20), a, b);
    state.actors[0].position = i64::MAX - whole(20);
    state.actors[1].position = i64::MAX;
    state.tick();
    assert_eq!(state.actors[0].position, i64::MAX);
    assert_eq!(state.actors[1].position, 0);
}
