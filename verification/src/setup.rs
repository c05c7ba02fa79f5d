//! From a player's choices to a combat record: the weapon and armor are
//! picked from catalogs, the character is built, and its numbers, or those of
//! a ready-made opponent, fill the record that the engine takes.

use crate::character::{
    derived_of, initiative_die_of, AbilityScore, AbilitySet, ArmorType, MasteryState,
    Progression, WeaponGroup,
};
use crate::combatant::{text_of, Combatant, CombatantView};
use crate::expr::sat32;
use crate::gear::{
    apply_armor_material_tier, armor_made, can_two_hand, effective_two_hand, grips_two_handed,
    material_bonuses, strength_damage_for_weapon, tier_of, two_hand_damage_bonus, uses_projectiles,
    Armor, NpcPreset, RollSummary, WeaponHandedness, WeaponSize,
};
use crate::range::{is_ranged, is_ranged_weapon, max_range, max_range_for_weapon};
use crate::sheet::{
    armor_dr_of, attack_bonus_of, base_dv_of, clamp32, gear_weight, health_mult_of, hit_points_of,
    initiative_mod_of, load_of, recorded, speed_mod_of, Character, CharacterBuilder,
    DerivedStats, Equipment, Weapon, WeaponMastery,
};
use crate::units::{add_milli, max_milli, max_of, sat64, Milli};
use vstd::prelude::*;

verus! {

/// A weapon as a catalog lists it. Times are in thousandths of a second, the
/// reach in thousandths of a foot.
#[derive(Clone, Debug)]
pub struct WeaponPreset {
    pub name: String,
    pub group: WeaponGroup,
    pub speed: Milli,
    pub speed_label: String,
    pub jab_speed: Option<Milli>,
    pub jab_speed_label: Option<String>,
    pub jab_special_expr: Option<String>,
    pub damage_expr: String,
    pub reach_label: String,
    pub reach_ft: Milli,
    pub armor_pen: i32,
    pub defense_bonus_always: bool,
    pub size: WeaponSize,
    pub handedness: WeaponHandedness,
    pub ammunition: Option<String>,
}

/// An armor as a catalog lists it: a label, and the armor, if the entry is
/// one.
#[derive(Clone, Debug)]
pub struct ArmorEntry {
    pub label: String,
    pub armor: Option<Armor>,
}

/// What a player chose. The movement speed is in thousandths of a foot for
/// each second.
#[derive(Clone, Debug)]
pub struct PlayerConfig {
    pub name: String,
    pub level: u8,
    pub progression: Progression,
    pub base_hp: u32,
    pub move_speed: Milli,
    pub strength_base: u8,
    pub strength_pct: u8,
    pub dex_base: u8,
    pub dex_pct: u8,
    pub intelligence: u8,
    pub wisdom: u8,
    pub constitution: u8,
    pub looks: u8,
    pub charisma: u8,
    pub weapon_index: usize,
    pub armor_index: usize,
    pub weapon_material_tier: i32,
    pub armor_material_tier: i32,
    pub projectile_material_tier: i32,
    pub npc_preset: Option<usize>,
    pub two_hand_grip: bool,
    pub use_jab: bool,
}

impl PlayerConfig {
    /// A first-level player with average scores and the weapon at
    /// `weapon_index` of the catalog.
    pub fn new(name: &str, weapon_index: usize) -> (player: PlayerConfig)
        ensures
            player.name@ == name@,
            player.weapon_index == weapon_index,
            player.level == 1,
            player.progression == Progression::default_spec(),
            player.base_hp == 10,
            player.move_speed == 5000,
            player.abilities() == (AbilitySet {
                strength: AbilityScore { base: 10, percentile: 1 },
                intelligence: 10,
                wisdom: 10,
                dexterity: AbilityScore { base: 10, percentile: 1 },
                constitution: 10,
                looks: 10,
                charisma: 10,
            }),
            player.armor_index == 0,
            player.weapon_material_tier == 0,
            player.armor_material_tier == 0,
            player.projectile_material_tier == 0,
            player.npc_preset is None,
            !player.two_hand_grip,
            !player.use_jab,
    {
        PlayerConfig {
            name: name.to_owned(),
            level: 1,
            progression: Progression::default(),
            base_hp: 10,
            move_speed: 5000,
            strength_base: 10,
            strength_pct: 1,
            dex_base: 10,
            dex_pct: 1,
            intelligence: 10,
            wisdom: 10,
            constitution: 10,
            looks: 10,
            charisma: 10,
            weapon_index,
            armor_index: 0,
            weapon_material_tier: 0,
            armor_material_tier: 0,
            projectile_material_tier: 0,
            npc_preset: None,
            two_hand_grip: false,
            use_jab: false,
        }
    }

    /// The ability scores that the player chose.
    pub open spec fn abilities(self) -> AbilitySet {
        AbilitySet {
            strength: AbilityScore { base: self.strength_base, percentile: self.strength_pct },
            intelligence: self.intelligence,
            wisdom: self.wisdom,
            dexterity: AbilityScore { base: self.dex_base, percentile: self.dex_pct },
            constitution: self.constitution,
            looks: self.looks,
            charisma: self.charisma,
        }
    }
}

/// Whether a weapon of the catalog shoots projectiles.
pub fn weapon_uses_projectiles(weapon: &WeaponPreset) -> (yes: bool)
    ensures
        yes == (weapon.ammunition is Some || weapon.name@ == "Sling"@),
{
    uses_projectiles(weapon.name.as_str(), weapon.ammunition.is_some())
}

/// Sets the tier of the projectiles to zero where the weapon shoots none.
pub fn sanitize_projectile_tier(player: &mut PlayerConfig, weapon: &WeaponPreset)
    ensures
        *final(player) == (PlayerConfig {
            projectile_material_tier: if weapon.ammunition is Some || weapon.name@ == "Sling"@ {
                old(player).projectile_material_tier
            } else {
                0
            },
            ..*old(player)
        }),
{
    if !weapon_uses_projectiles(weapon) {
        player.projectile_material_tier = 0;
    }
}

/// The experience that the first tier of mastery takes in a weapon group, in
/// thousandths.
pub fn base_weapon_threshold(group: WeaponGroup) -> (threshold: Milli)
    ensures
        threshold == match group {
            WeaponGroup::Bows => 150000int,
            WeaponGroup::Crossbows => 150000int,
            WeaponGroup::Shields => 200000int,
            _ => 100000int,
        },
{
    match group {
        WeaponGroup::Bows => 150000,
        WeaponGroup::Crossbows => 150000,
        WeaponGroup::Shields => 200000,
        _ => 100000,
    }
}

/// The weapon that a character wields when it picks this one of the catalog.
pub open spec fn wielded(preset: WeaponPreset) -> Weapon {
    Weapon {
        name: preset.name,
        group: preset.group,
        speed: preset.speed,
        damage_expr: preset.damage_expr,
        reach_ft: preset.reach_ft,
        armor_pen: preset.armor_pen,
        defense_bonus_always: preset.defense_bonus_always,
    }
}

/// The armor that a player wears: the one at its index of the catalog, if
/// there is one, made of the material it chose.
pub open spec fn worn(player: PlayerConfig, armor_catalog: Seq<ArmorEntry>) -> Option<Armor> {
    if player.armor_index < armor_catalog.len() {
        match armor_catalog[player.armor_index as int].armor {
            Some(armor) => Some(armor_made(armor, player.armor_material_tier as int)),
            None => None,
        }
    } else {
        None
    }
}

/// What the character of a player carries: the weapon it picked and the
/// armor it wears.
pub open spec fn kit(preset: WeaponPreset, armor: Option<Armor>) -> Equipment {
    Equipment {
        weapon: Some(wielded(preset)),
        shield: None,
        armor,
        weapon_material: None,
        armor_material: None,
        shield_material: None,
    }
}

/// The mastery with which a character starts in its weapon's group: no
/// points, and the first threshold of the group.
pub open spec fn first_mastery(group: WeaponGroup) -> WeaponMastery {
    WeaponMastery {
        group,
        points: MasteryState { attack: 0, defense: 0, damage: 0, speed: 0 },
        base_threshold: match group {
            WeaponGroup::Bows => 150000i64,
            WeaponGroup::Crossbows => 150000i64,
            WeaponGroup::Shields => 200000i64,
            _ => 100000i64,
        },
    }
}

fn copy_text(text: &Option<String>) -> (copy: Option<String>)
    ensures
        copy == *text,
{
    match text {
        Some(s) => Some(s.clone()),
        None => None,
    }
}

fn picked_armor(player: &PlayerConfig, armor_catalog: &[ArmorEntry]) -> (armor: Option<Armor>)
    ensures
        armor == worn(*player, armor_catalog@),
{
    if player.armor_index < armor_catalog.len() {
        match &armor_catalog[player.armor_index].armor {
            Some(armor) => Some(
                apply_armor_material_tier(armor.copy(), player.armor_material_tier),
            ),
            None => None,
        }
    } else {
        None
    }
}

/// Builds the character that a player's choices make: the weapon at the
/// player's index of the weapon catalog, the armor at its index of the armor
/// catalog, if there is one, in the chosen material, the chosen scores, and a
/// first mastery in the weapon's group.
pub fn build_character(
    player: &PlayerConfig,
    weapon_catalog: &[WeaponPreset],
    armor_catalog: &[ArmorEntry],
) -> (character: Character)
    requires
        player.weapon_index < weapon_catalog@.len(),
    ensures
        character.name == player.name,
        character.level == player.level,
        character.progression == player.progression,
        character.base_hp == player.base_hp,
        character.abilities == player.abilities(),
        character.ability_mods == derived_of(player.abilities()),
        character.weapon_masteries@ == seq![
            first_mastery(weapon_catalog@[player.weapon_index as int].group),
        ],
        character.equipment == kit(
            weapon_catalog@[player.weapon_index as int],
            worn(*player, armor_catalog@),
        ),
{
    let preset = &weapon_catalog[player.weapon_index];
    let weapon = Weapon {
        name: preset.name.clone(),
        group: preset.group,
        speed: preset.speed,
        damage_expr: preset.damage_expr.clone(),
        reach_ft: preset.reach_ft,
        armor_pen: preset.armor_pen,
        defense_bonus_always: preset.defense_bonus_always,
    };
    let armor = picked_armor(player, armor_catalog);
    let abilities = AbilitySet {
        strength: AbilityScore::new(player.strength_base, player.strength_pct),
        intelligence: player.intelligence,
        wisdom: player.wisdom,
        dexterity: AbilityScore::new(player.dex_base, player.dex_pct),
        constitution: player.constitution,
        looks: player.looks,
        charisma: player.charisma,
    };
    let mastery = WeaponMastery {
        group: preset.group,
        points: MasteryState { attack: 0, defense: 0, damage: 0, speed: 0 },
        base_threshold: base_weapon_threshold(preset.group),
    };
    let equipment = Equipment {
        weapon: Some(weapon),
        shield: None,
        armor,
        weapon_material: None,
        armor_material: None,
        shield_material: None,
    };
    let builder = CharacterBuilder::new(player.name.clone());
    let builder = builder.level(player.level, player.progression);
    let builder = builder.base_hp(player.base_hp);
    let builder = builder.abilities(abilities);
    let builder = builder.weapon_mastery(mastery);
    let builder = builder.equipment(equipment);
    let character = builder.build();
    proof {
        assert(recorded(Seq::<WeaponMastery>::empty(), mastery) =~= seq![mastery]);
        assert(character.weapon_masteries@ =~= seq![mastery]);
    }
    character
}

/// The numbers that go into a player's rolls: the attack bonus of the
/// character and of the material; the damage bonus of strength, none with a
/// ranged weapon, of a two-handed grip on a weapon made for one hand, and of
/// the material. Sums stay within `i32`.
pub open spec fn rolls_of(player: PlayerConfig, preset: WeaponPreset) -> RollSummary {
    let ranged = is_ranged(preset.name@);
    let shoots = ranged && (preset.ammunition is Some || preset.name@ == "Sling"@);
    let weapon_tier = tier_of(player.weapon_material_tier as int);
    let projectile_tier = tier_of(player.projectile_material_tier as int);
    RollSummary {
        attack_bonus: sat32(
            attack_bonus_of(player.level, player.progression.attack, derived_of(player.abilities()))
                + if shoots {
                projectile_tier
            } else {
                weapon_tier
            },
        ) as i32,
        strength_damage: sat32(
            (if ranged {
                0
            } else {
                derived_of(player.abilities()).strength.damage as int
            }) + (if player.two_hand_grip && can_two_hand(preset.size, preset.handedness) {
                3int
            } else {
                0int
            }) + if shoots {
                weapon_tier + projectile_tier
            } else {
                weapon_tier
            },
        ) as i32,
        is_ranged_weapon: ranged,
    }
}

fn roll_summary(
    player: &PlayerConfig,
    weapon: &WeaponPreset,
    character: &Character,
    derived: &DerivedStats,
) -> (roll: RollSummary)
    requires
        derived.attack_bonus == attack_bonus_of(
            player.level,
            player.progression.attack,
            derived_of(player.abilities()),
        ),
        character.ability_mods == derived_of(player.abilities()),
    ensures
        roll == rolls_of(*player, *weapon),
{
    let ranged = is_ranged_weapon(weapon.name.as_str());
    let shoots = uses_projectiles(weapon.name.as_str(), weapon.ammunition.is_some());
    let (material_attack, material_damage) = material_bonuses(
        player.weapon_material_tier,
        player.projectile_material_tier,
        ranged,
        shoots,
    );
    let attack_bonus = clamp32(derived.attack_bonus as i64 + material_attack as i64);
    let strength_damage = clamp32(
        strength_damage_for_weapon(weapon.name.as_str(), character.ability_mods.strength.damage)
            as i64 + two_hand_damage_bonus(weapon.size, weapon.handedness, player.two_hand_grip)
            as i64 + material_damage as i64,
    );
    RollSummary { attack_bonus, strength_damage, is_ranged_weapon: ranged }
}

/// A player's combat numbers and the numbers that go into its rolls.
pub struct PlayerSummary {
    pub derived: DerivedStats,
    pub roll: RollSummary,
}

/// The combat numbers of the character that a player's choices make, and the
/// numbers that go into its rolls.
pub fn player_summary(
    player: &PlayerConfig,
    weapon_catalog: &[WeaponPreset],
    armor_catalog: &[ArmorEntry],
) -> (summary: PlayerSummary)
    requires
        player.weapon_index < weapon_catalog@.len(),
    ensures
        summary.roll == rolls_of(*player, weapon_catalog@[player.weapon_index as int]),
        summary.derived.attack_bonus == attack_bonus_of(
            player.level,
            player.progression.attack,
            derived_of(player.abilities()),
        ),
        summary.derived.speed_mod == speed_mod_of(
            player.level,
            player.progression.speed,
            worn(*player, armor_catalog@),
        ),
        summary.derived.initiative_mod == initiative_mod_of(
            player.level,
            player.progression.initiative,
            derived_of(player.abilities()),
            worn(*player, armor_catalog@),
        ),
        summary.derived.base_dv == base_dv_of(
            derived_of(player.abilities()),
            worn(*player, armor_catalog@),
        ),
        summary.derived.armor_dr == armor_dr_of(worn(*player, armor_catalog@)),
        summary.derived.hit_points == hit_points_of(
            player.base_hp,
            player.constitution,
            health_mult_of(player.level, player.progression.health),
        ),
        summary.derived.health_mult == health_mult_of(player.level, player.progression.health),
        summary.derived.initiative_die == initiative_die_of(
            player.level,
            player.progression.initiative,
        ),
        summary.derived.load_category@ == load_of(
            gear_weight(
                kit(weapon_catalog@[player.weapon_index as int], worn(*player, armor_catalog@)),
            ),
            derived_of(player.abilities()).strength,
        ),
        summary.derived.carry_capacity == (
            derived_of(player.abilities()).strength.carry_none,
            derived_of(player.abilities()).strength.carry_light,
            derived_of(player.abilities()).strength.carry_medium,
            derived_of(player.abilities()).strength.carry_heavy,
        ),
{
    let weapon = &weapon_catalog[player.weapon_index];
    let character = build_character(player, weapon_catalog, armor_catalog);
    let derived = character.derived();
    let roll = roll_summary(player, weapon, &character, &derived);
    PlayerSummary { derived, roll }
}

/// The ready-made opponent that a player stands for, if it chose one that
/// the list holds.
pub open spec fn stand_in(player: PlayerConfig, npc_presets: Seq<NpcPreset>) -> Option<NpcPreset> {
    match player.npc_preset {
        Some(index) => if index < npc_presets.len() {
            Some(npc_presets[index as int])
        } else {
            None
        },
        None => None,
    }
}

/// The cycle time with which a player attacks: that of the jab where it jabs,
/// else that of the weapon, and two seconds more with a two-handed grip on a
/// weapon made for one hand.
pub open spec fn cycle_time(player: PlayerConfig, preset: WeaponPreset) -> int {
    match preset.jab_speed {
        Some(jab) => if player.use_jab {
            jab as int
        } else {
            slowed(player, preset)
        },
        None => slowed(player, preset),
    }
}

/// The cycle time of the weapon, and two seconds more with a two-handed grip
/// on a weapon made for one hand.
pub open spec fn slowed(player: PlayerConfig, preset: WeaponPreset) -> int {
    if player.two_hand_grip && can_two_hand(preset.size, preset.handedness) {
        sat64(preset.speed + 2000)
    } else {
        preset.speed as int
    }
}

/// Hit points as a combat record holds them.
pub open spec fn as_hp(hit_points: int) -> int {
    if hit_points > i32::MAX {
        i32::MAX as int
    } else {
        hit_points
    }
}

/// The combat record that a player's choices make. The numbers of attack,
/// defense, armor, damage bonus and hit points are the character's, or those
/// of the ready-made opponent that the player stands for, who has at least
/// one hit point and whose name the record bears. No shield is carried.
pub open spec fn combatant_of(
    player: PlayerConfig,
    preset: WeaponPreset,
    armor: Option<Armor>,
    npc: Option<NpcPreset>,
) -> CombatantView {
    let jabs = player.use_jab && preset.jab_speed is Some;
    let rolls = rolls_of(player, preset);
    let hit_points = hit_points_of(
        player.base_hp,
        player.constitution,
        health_mult_of(player.level, player.progression.health),
    );
    CombatantView {
        name: match npc {
            Some(npc) => npc.name@,
            None => player.name@,
        },
        weapon_name: preset.name@,
        attack_bonus: match npc {
            Some(npc) => npc.attack_bonus,
            None => rolls.attack_bonus,
        },
        defense_mod: match npc {
            Some(npc) => npc.defense_mod,
            None => base_dv_of(derived_of(player.abilities()), armor) as i32,
        },
        armor_dr: match npc {
            Some(npc) => npc.armor_dr,
            None => armor_dr_of(armor) as i32,
        },
        armor_is_heavy: match armor {
            Some(armor) => armor.armor_type == ArmorType::Heavy,
            None => false,
        },
        armor_penetration: preset.armor_pen,
        damage_expr: preset.damage_expr@,
        shield_damage_expr: None,
        strength_damage: match npc {
            Some(npc) => npc.damage_bonus,
            None => rolls.strength_damage,
        },
        weapon_speed: cycle_time(player, preset) as i64,
        reach_ft: preset.reach_ft,
        move_speed: player.move_speed,
        two_hand_grip: grips_two_handed(preset.size, preset.handedness, player.two_hand_grip),
        use_jab: jabs,
        jab_special_expr: if jabs {
            text_of(preset.jab_special_expr)
        } else {
            None
        },
        has_weapon: true,
        weapon_defense_always: preset.defense_bonus_always,
        max_hp: match npc {
            Some(npc) => max_of(npc.hp as int, 1) as i32,
            None => as_hp(hit_points) as i32,
        },
        hp: match npc {
            Some(npc) => max_of(npc.hp as int, 1) as i32,
            None => as_hp(hit_points) as i32,
        },
        next_attack_time: None,
        defense_plus_four_ready: false,
        moved_last_tick: false,
        shield_name: None,
        shield_defense_bonus: 0,
        shield_dr: 0,
        shield_cover_value: None,
        shield_intact: false,
        shield_breakage: None,
    }
}

/// Builds the combat record that a player's choices make.
pub fn build_combatant(
    player: &PlayerConfig,
    weapon_catalog: &[WeaponPreset],
    armor_catalog: &[ArmorEntry],
    npc_presets: &[NpcPreset],
) -> (combatant: Combatant)
    requires
        player.weapon_index < weapon_catalog@.len(),
    ensures
        combatant@ == combatant_of(
            *player,
            weapon_catalog@[player.weapon_index as int],
            worn(*player, armor_catalog@),
            stand_in(*player, npc_presets@),
        ),
{
    let preset = &weapon_catalog[player.weapon_index];
    let character = build_character(player, weapon_catalog, armor_catalog);
    let derived = character.derived();
    let roll = roll_summary(player, preset, &character, &derived);
    let armor_is_heavy = match &character.equipment.armor {
        Some(armor) => match armor.armor_type {
            ArmorType::Heavy => true,
            _ => false,
        },
        None => false,
    };
    let two_handed = effective_two_hand(preset.size, preset.handedness, player.two_hand_grip);
    let slow = two_hand_damage_bonus(preset.size, preset.handedness, player.two_hand_grip) > 0;
    let use_jab = player.use_jab && preset.jab_speed.is_some();
    let weapon_speed = match preset.jab_speed {
        Some(jab) => if player.use_jab {
            jab
        } else if slow {
            add_milli(preset.speed, 2000)
        } else {
            preset.speed
        },
        None => if slow {
            add_milli(preset.speed, 2000)
        } else {
            preset.speed
        },
    };
    let jab_special_expr = if use_jab {
        copy_text(&preset.jab_special_expr)
    } else {
        None
    };
    let mut name = player.name.clone();
    let mut attack_bonus = roll.attack_bonus;
    let mut defense_mod = derived.base_dv;
    let mut armor_dr = derived.armor_dr;
    let mut strength_damage = roll.strength_damage;
    let mut max_hp: i32 = if derived.hit_points > i32::MAX as u32 {
        i32::MAX
    } else {
        derived.hit_points as i32
    };
    match player.npc_preset {
        Some(index) => {
            if index < npc_presets.len() {
                let npc = &npc_presets[index];
                name = npc.name.clone();
                attack_bonus = npc.attack_bonus;
                defense_mod = npc.defense_mod;
                armor_dr = npc.armor_dr;
                strength_damage = npc.damage_bonus;
                max_hp = if npc.hp < 1 {
                    1
                } else {
                    npc.hp
                };
            }
        },
        None => {},
    }
    Combatant::new(
        name,
        preset.name.clone(),
        attack_bonus,
        defense_mod,
        armor_dr,
        armor_is_heavy,
        preset.armor_pen,
        preset.damage_expr.clone(),
        None,
        strength_damage,
        weapon_speed,
        preset.reach_ft,
        player.move_speed,
        two_handed,
        use_jab,
        jab_special_expr,
        true,
        preset.defense_bonus_always,
        max_hp,
        None,
        0,
        0,
        None,
        false,
        None,
    )
}

/// Builds the combat records of both players.
pub fn build_combatants(
    players: &[PlayerConfig; 2],
    weapon_catalog: &[WeaponPreset],
    armor_catalog: &[ArmorEntry],
    npc_presets: &[NpcPreset],
) -> (combatants: [Combatant; 2])
    requires
        players[0].weapon_index < weapon_catalog@.len(),
        players[1].weapon_index < weapon_catalog@.len(),
    ensures
        combatants[0]@ == combatant_of(
            players[0],
            weapon_catalog@[players[0].weapon_index as int],
            worn(players[0], armor_catalog@),
            stand_in(players[0], npc_presets@),
        ),
        combatants[1]@ == combatant_of(
            players[1],
            weapon_catalog@[players[1].weapon_index as int],
            worn(players[1], armor_catalog@),
            stand_in(players[1], npc_presets@),
        ),
{
    [
        build_combatant(&players[0], weapon_catalog, armor_catalog, npc_presets),
        build_combatant(&players[1], weapon_catalog, armor_catalog, npc_presets),
    ]
}

/// How far a player's weapon reaches: the range of a ranged weapon, else the
/// reach, which counts as at least one foot; one foot where the catalog has
/// no weapon at the player's index.
pub open spec fn span_of(player: PlayerConfig, weapon_catalog: Seq<WeaponPreset>) -> int {
    if player.weapon_index < weapon_catalog.len() {
        let weapon = weapon_catalog[player.weapon_index as int];
        match max_range(weapon.name@) {
            Some(range) => range,
            None => max_of(weapon.reach_ft as int, 1000),
        }
    } else {
        1000
    }
}

fn span(player: &PlayerConfig, weapon_catalog: &[WeaponPreset]) -> (reach: Milli)
    ensures
        reach == span_of(*player, weapon_catalog@),
{
    if player.weapon_index < weapon_catalog.len() {
        let weapon = &weapon_catalog[player.weapon_index];
        match max_range_for_weapon(weapon.name.as_str()) {
            Some(range) => range,
            None => max_milli(weapon.reach_ft, 1000),
        }
    } else {
        1000
    }
}

/// The distance within which two players fight: the longer of what their
/// weapons reach.
pub fn stop_distance_for_players(
    players: &[PlayerConfig; 2],
    weapon_catalog: &[WeaponPreset],
) -> (distance: Milli)
    ensures
        distance == max_of(
            span_of(players[0], weapon_catalog@),
            span_of(players[1], weapon_catalog@),
        ),
{
    max_milli(span(&players[0], weapon_catalog), span(&players[1], weapon_catalog))
}

/// The armor catalog that holds no armor: its one entry is labelled `None`.
pub fn default_armor_catalog() -> (catalog: Vec<ArmorEntry>)
    ensures
        catalog@.len() == 1,
        catalog@[0].label@ == "None"@,
        catalog@[0].armor is None,
{
    let mut catalog = Vec::new();
    catalog.push(ArmorEntry { label: "None".to_owned(), armor: None });
    catalog
}

} // verus!
