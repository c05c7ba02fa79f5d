use combat_sim::character::{
    attack_bonus_for, derive_abilities, initiative_die_for, initiative_mod_for, lookup_cha,
    lookup_con, lookup_dex, lookup_int, lookup_looks, lookup_strength, lookup_wis, q, speed_mod_for,
    AbilityScore, AbilitySet, ChaMods, ConMods, DexMods, InitiativeDieQuality, IntMods, LooksMods,
    MasteryState, Progression, ProgressionTier, StrengthMods, WisMods, BASE_DV,
};

#[test]
fn strength_damage_bonus_matches_table() {
    let abilities = AbilitySet {
        strength: AbilityScore::new(15, 1),
        intelligence: 10,
        wisdom: 10,
        dexterity: AbilityScore::new(10, 1),
        constitution: 10,
        looks: 10,
        charisma: 10,
    };
    let derived = derive_abilities(&abilities);
    assert_eq!(derived.strength.damage, 2);
}

#[test]
fn speed_advancement_matches_table() {
    assert_eq!(speed_mod_for(1, ProgressionTier::I), 1);
    assert_eq!(speed_mod_for(4, ProgressionTier::VI), -1);
    assert_eq!(speed_mod_for(20, ProgressionTier::VI), -5);
}

#[test]
fn initiative_advancement_matches_table() {
    assert_eq!(initiative_mod_for(1, ProgressionTier::I), 2);
    assert_eq!(initiative_mod_for(4, ProgressionTier::IV), -1);
    assert_eq!(initiative_mod_for(20, ProgressionTier::V), -4);
}

#[test]
fn attack_advancement_matches_table() {
    assert_eq!(attack_bonus_for(1, ProgressionTier::I), 0);
    assert_eq!(attack_bonus_for(5, ProgressionTier::III), 2);
    assert_eq!(attack_bonus_for(12, ProgressionTier::VI), 7);
    assert_eq!(attack_bonus_for(20, ProgressionTier::VI), 12);
}

#[test]
fn levels_outside_the_table_use_its_ends() {
    assert_eq!(attack_bonus_for(0, ProgressionTier::VI), attack_bonus_for(1, ProgressionTier::VI));
    assert_eq!(attack_bonus_for(21, ProgressionTier::VI), 12);
    assert_eq!(attack_bonus_for(255, ProgressionTier::I), 3);
    assert_eq!(speed_mod_for(0, ProgressionTier::I), 1);
    assert_eq!(speed_mod_for(200, ProgressionTier::V), -4);
    assert_eq!(initiative_mod_for(0, ProgressionTier::I), 2);
    assert_eq!(initiative_mod_for(99, ProgressionTier::I), -1);
}

#[test]
fn sixth_tier_shares_the_fifth_initiative_column() {
    for level in 0..=25u8 {
        assert_eq!(
            initiative_mod_for(level, ProgressionTier::VI),
            initiative_mod_for(level, ProgressionTier::V)
        );
        assert_eq!(
            initiative_die_for(level, ProgressionTier::VI),
            initiative_die_for(level, ProgressionTier::V)
        );
    }
}

#[test]
fn initiative_die_matches_table() {
    assert_eq!(initiative_die_for(1, ProgressionTier::V), InitiativeDieQuality::Standard);
    assert_eq!(initiative_die_for(2, ProgressionTier::V), InitiativeDieQuality::OneBetter);
    assert_eq!(initiative_die_for(5, ProgressionTier::V), InitiativeDieQuality::TwoBetter);
    assert_eq!(initiative_die_for(11, ProgressionTier::III), InitiativeDieQuality::TwoBetter);
    assert_eq!(initiative_die_for(14, ProgressionTier::IV), InitiativeDieQuality::ThreeBetter);
    assert_eq!(initiative_die_for(18, ProgressionTier::V), InitiativeDieQuality::FourBetter);
    assert_eq!(initiative_die_for(20, ProgressionTier::I), InitiativeDieQuality::Standard);
    assert_eq!(q(), InitiativeDieQuality::Standard);
    assert_eq!(InitiativeDieQuality::default(), InitiativeDieQuality::Standard);
}

#[test]
fn tier_columns() {
    assert_eq!(ProgressionTier::I.attack_index(), 0);
    assert_eq!(ProgressionTier::VI.attack_index(), 5);
    assert_eq!(ProgressionTier::IV.speed_index(), 3);
    assert_eq!(ProgressionTier::VI.speed_index(), 5);
    assert_eq!(ProgressionTier::V.initiative_index(), 4);
    assert_eq!(ProgressionTier::VI.initiative_index(), 4);
    assert_eq!(ProgressionTier::II.health_index(), 1);
    assert_eq!(ProgressionTier::VI.health_index(), 4);
}

#[test]
fn ability_tables_hold_their_rows() {
    assert_eq!(
        lookup_strength(&AbilityScore::new(1, 1)),
        StrengthMods {
            damage: -7,
            feat: -14,
            lift: 32,
            carry_none: 3,
            carry_light: 5,
            carry_medium: 10,
            carry_heavy: 15,
            drag: 80
        }
    );
    assert_eq!(
        lookup_strength(&AbilityScore::new(25, 51)),
        StrengthMods {
            damage: 12,
            feat: 28,
            lift: 1750,
            carry_none: 166,
            carry_light: 333,
            carry_medium: 667,
            carry_heavy: 1000,
            drag: 4375
        }
    );
    assert_eq!(
        lookup_dex(&AbilityScore::new(14, 51)),
        DexMods { initiative: -1, attack: 2, defense: 3, dodge_save: 1, feat_of_agility: 6 }
    );
    assert_eq!(lookup_int(12), IntMods { attack: 1, lp_bonus: 2, weapon_exp_threshold_pct: -4 });
    assert_eq!(
        lookup_wis(18),
        WisMods { initiative: -1, lp_bonus: 28, defense: 3, mental_save: 3, base_ff: -3 }
    );
    assert_eq!(lookup_con(1), ConMods { physical_save: -5, base_ff: 5 });
    assert_eq!(lookup_looks(25), LooksMods { charisma: 11, honor: 7, fame: 17 });
    assert_eq!(
        lookup_cha(16),
        ChaMods { lp_bonus: 15, honor: 3, turning: 6, morale: 3, max_proteges: 4 }
    );
}

#[test]
fn scores_outside_the_tables_give_nothing() {
    assert_eq!(lookup_strength(&AbilityScore::new(0, 1)), StrengthMods::default());
    assert_eq!(lookup_strength(&AbilityScore::new(10, 2)), StrengthMods::default());
    assert_eq!(lookup_strength(&AbilityScore::new(26, 1)), StrengthMods::default());
    assert_eq!(lookup_dex(&AbilityScore::new(10, 50)), DexMods::default());
    assert_eq!(lookup_int(0), IntMods::default());
    assert_eq!(lookup_int(26), IntMods::default());
    assert_eq!(lookup_wis(0), WisMods::default());
    assert_eq!(lookup_con(26), ConMods::default());
    assert_eq!(lookup_looks(0), LooksMods::default());
    assert_eq!(lookup_cha(200), ChaMods::default());
}

#[test]
fn defaults() {
    assert_eq!(AbilityScore::default(), AbilityScore::new(10, 1));
    assert_eq!(
        Progression::default(),
        Progression::new(
            ProgressionTier::I,
            ProgressionTier::I,
            ProgressionTier::I,
            ProgressionTier::I
        )
    );
    let abilities = AbilitySet::default();
    assert_eq!(abilities.strength, AbilityScore::new(10, 1));
    assert_eq!(abilities.intelligence, 0);
    assert_eq!(BASE_DV, -4);
}

#[test]
fn mastery_tier_is_the_least_aspect() {
    assert_eq!(MasteryState { attack: 3, defense: 2, damage: 5, speed: 4 }.max_tier(), 2);
    assert_eq!(MasteryState { attack: 1, defense: 2, damage: 5, speed: 4 }.max_tier(), 1);
    assert_eq!(MasteryState { attack: 3, defense: 2, damage: 0, speed: 4 }.max_tier(), 0);
    assert_eq!(MasteryState { attack: 3, defense: 2, damage: 5, speed: -1 }.max_tier(), -1);
    assert_eq!(MasteryState::default().max_tier(), 0);
}
