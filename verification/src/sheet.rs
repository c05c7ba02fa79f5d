//! A character: level, progression, ability scores and equipment, and the
//! combat numbers that follow from them.

use crate::character::{
    attack_bonus_for, attack_row, derive_abilities, derived_of, initiative_die_for, AbilityScore,
    initiative_die_of, initiative_mod_for, initiative_row, int_mods, level_row, lookup_int,
    speed_mod_for, speed_row, AbilityDerived, AbilitySet, InitiativeDieQuality, MasteryState,
    MaterialKind, Progression, ProgressionTier, StrengthMods, WeaponGroup, BASE_DV,
};
use crate::expr::sat32;
use crate::gear::Armor;
use crate::text::str_eq;
use crate::units::{sat64, Milli, MILLI};
use vstd::prelude::*;

verus! {

/// A kind of shield. The weight is in thousandths of a pound.
#[derive(Clone, Debug)]
pub struct Shield {
    pub name: String,
    pub defense_bonus: i32,
    pub dr: i32,
    pub cover_value: i32,
    pub breakage_thresholds: [i32; 4],
    pub weight_lbs: Milli,
}

/// A character's mastery of a weapon group. The threshold is in thousandths
/// of a point of experience.
#[derive(Clone, Copy, Debug, PartialEq, Eq, Structural)]
pub struct WeaponMastery {
    pub group: WeaponGroup,
    pub points: MasteryState,
    pub base_threshold: Milli,
}

/// A weapon. The cycle time is in thousandths of a second, the reach in
/// thousandths of a foot.
#[derive(Clone, Debug)]
pub struct Weapon {
    pub name: String,
    pub group: WeaponGroup,
    pub speed: Milli,
    pub damage_expr: String,
    pub reach_ft: Milli,
    pub armor_pen: i32,
    pub defense_bonus_always: bool,
}

/// A material. The weight multiplier is in thousandths.
#[derive(Clone, Debug)]
pub struct Material {
    pub tier: i32,
    pub name: String,
    pub weight_mult: Milli,
    pub kind: MaterialKind,
}

/// What a character carries.
#[derive(Clone, Debug)]
pub struct Equipment {
    pub weapon: Option<Weapon>,
    pub shield: Option<Shield>,
    pub armor: Option<Armor>,
    pub weapon_material: Option<Material>,
    pub armor_material: Option<Material>,
    pub shield_material: Option<Material>,
}

/// A character that carries nothing.
pub open spec fn no_equipment() -> Equipment {
    Equipment {
        weapon: None,
        shield: None,
        armor: None,
        weapon_material: None,
        armor_material: None,
        shield_material: None,
    }
}

/// The ability scores of a character of whom nothing else is said: strength
/// and dexterity 10/01, and no other score.
pub open spec fn first_abilities() -> AbilitySet {
    AbilitySet {
        strength: AbilityScore { base: 10, percentile: 1 },
        intelligence: 0,
        wisdom: 0,
        dexterity: AbilityScore { base: 10, percentile: 1 },
        constitution: 0,
        looks: 0,
        charisma: 0,
    }
}

impl Default for Equipment {
    fn default() -> (equipment: Equipment)
        ensures
            equipment == no_equipment(),
    {
        Equipment {
            weapon: None,
            shield: None,
            armor: None,
            weapon_material: None,
            armor_material: None,
            shield_material: None,
        }
    }
}

/// A character. Of the masteries no two are of the same weapon group.
#[derive(Clone, Debug)]
pub struct Character {
    pub name: String,
    pub level: u8,
    pub progression: Progression,
    pub base_hp: u32,
    pub abilities: AbilitySet,
    pub ability_mods: AbilityDerived,
    pub weapon_masteries: Vec<WeaponMastery>,
    pub equipment: Equipment,
}

/// The combat numbers of a character. The health multiplier is in
/// thousandths.
#[derive(Clone, Copy, Debug)]
pub struct DerivedStats {
    pub attack_bonus: i32,
    pub speed_mod: i32,
    pub initiative_mod: i32,
    pub initiative_die: InitiativeDieQuality,
    pub health_mult: Milli,
    pub hit_points: u32,
    pub base_dv: i32,
    pub armor_dr: i32,
    pub load_category: &'static str,
    pub carry_capacity: (u32, u32, u32, u32),
}

/// The health multiplier by level, in tenths, one column for each of five
/// tiers.
pub open spec fn health_row(row: int) -> Seq<int> {
    if row == 0 {
        seq![8, 10, 11, 12, 13]
    } else if row == 1 {
        seq![10, 11, 13, 14, 15]
    } else if row == 2 {
        seq![11, 13, 14, 16, 18]
    } else if row == 3 {
        seq![13, 14, 16, 18, 20]
    } else if row == 4 {
        seq![14, 16, 18, 20, 22]
    } else if row == 5 {
        seq![15, 18, 20, 22, 24]
    } else if row == 6 {
        seq![17, 19, 22, 24, 26]
    } else if row == 7 {
        seq![18, 21, 23, 26, 29]
    } else if row == 8 {
        seq![20, 22, 25, 28, 31]
    } else if row == 9 {
        seq![21, 24, 27, 30, 33]
    } else if row == 10 {
        seq![22, 26, 29, 32, 35]
    } else if row == 11 {
        seq![24, 27, 31, 34, 37]
    } else if row == 12 {
        seq![25, 29, 32, 36, 40]
    } else if row == 13 {
        seq![27, 30, 34, 38, 42]
    } else if row == 14 {
        seq![28, 32, 36, 40, 44]
    } else if row == 15 {
        seq![29, 34, 38, 42, 46]
    } else if row == 16 {
        seq![31, 35, 40, 44, 48]
    } else if row == 17 {
        seq![32, 37, 41, 46, 51]
    } else if row == 18 {
        seq![34, 38, 43, 48, 53]
    } else {
        seq![35, 40, 45, 50, 55]
    }
}

fn health_cells(row: usize) -> (cells: [i64; 5])
    requires
        row < 20,
    ensures
        forall|i: int| 0 <= i < 5 ==> cells@[i] == #[trigger] health_row(row as int)[i],
        forall|i: int| 0 <= i < 5 ==> 8 <= #[trigger] cells@[i] <= 55,
{
    if row == 0 {
        [8, 10, 11, 12, 13]
    } else if row == 1 {
        [10, 11, 13, 14, 15]
    } else if row == 2 {
        [11, 13, 14, 16, 18]
    } else if row == 3 {
        [13, 14, 16, 18, 20]
    } else if row == 4 {
        [14, 16, 18, 20, 22]
    } else if row == 5 {
        [15, 18, 20, 22, 24]
    } else if row == 6 {
        [17, 19, 22, 24, 26]
    } else if row == 7 {
        [18, 21, 23, 26, 29]
    } else if row == 8 {
        [20, 22, 25, 28, 31]
    } else if row == 9 {
        [21, 24, 27, 30, 33]
    } else if row == 10 {
        [22, 26, 29, 32, 35]
    } else if row == 11 {
        [24, 27, 31, 34, 37]
    } else if row == 12 {
        [25, 29, 32, 36, 40]
    } else if row == 13 {
        [27, 30, 34, 38, 42]
    } else if row == 14 {
        [28, 32, 36, 40, 44]
    } else if row == 15 {
        [29, 34, 38, 42, 46]
    } else if row == 16 {
        [31, 35, 40, 44, 48]
    } else if row == 17 {
        [32, 37, 41, 46, 51]
    } else if row == 18 {
        [34, 38, 43, 48, 53]
    } else {
        [35, 40, 45, 50, 55]
    }
}

/// The health multiplier of a character of this level and tier, in
/// thousandths.
pub open spec fn health_mult_of(level: u8, tier: ProgressionTier) -> int {
    health_row(level_row(level))[tier.narrow_column()] * 100
}

/// The health multiplier of a character of this level and tier, in
/// thousandths: `1100` is 1.1.
pub fn health_mult_for(level: u8, tier: ProgressionTier) -> (mult: Milli)
    ensures
        mult == health_mult_of(level, tier),
        800 <= mult <= 5500,
{
    let row: usize = if level < 1 {
        0
    } else if level > 20 {
        19
    } else {
        (level - 1) as usize
    };
    let cells = health_cells(row);
    cells[tier.health_index()] * 100
}

/// A quantity in thousandths rounded to the nearest whole, halves upward.
pub open spec fn rounded(v: int) -> int {
    (v + 500) / 1000
}

/// `v` moved into the range of `u32`.
pub open spec fn sat_u32(v: int) -> int {
    if v < 0 {
        0
    } else if v > u32::MAX {
        u32::MAX as int
    } else {
        v
    }
}

/// The hit points of a character: the base, and the constitution score times
/// the health multiplier, rounded to the nearest whole.
pub open spec fn hit_points_of(base_hp: u32, constitution: u8, health_mult: int) -> int {
    sat_u32(rounded(base_hp * MILLI + constitution * health_mult))
}

/// What a shield weighs in the sum of a character's gear, in thousandths of
/// a pound: by its name.
pub open spec fn shield_load(name: Seq<char>) -> int {
    if name == "Buckler"@ {
        2000
    } else if name == "Small Shield"@ {
        3000
    } else if name == "Medium Shield"@ {
        6000
    } else if name == "Large Shield"@ {
        10000
    } else {
        5000
    }
}

/// The weight of a character's gear in thousandths of a pound. A weapon
/// counts with the number of its reach, a shield by its name, armor with its
/// weight.
pub open spec fn gear_load(equipment: Equipment) -> int {
    (match equipment.weapon {
        Some(weapon) => weapon.reach_ft as int,
        None => 0,
    }) + (match equipment.shield {
        Some(shield) => shield_load(shield.name@),
        None => 0,
    }) + (match equipment.armor {
        Some(armor) => armor.weight_lbs as int,
        None => 0,
    })
}

/// The weight of a character's gear in whole pounds, rounded down; nothing
/// where it is not above zero.
pub open spec fn gear_weight(equipment: Equipment) -> Option<int> {
    if gear_load(equipment) <= 0 {
        None
    } else {
        Some(sat_u32(gear_load(equipment) / 1000))
    }
}

/// How loaded a character is: by the first carrying limit that its gear does
/// not exceed.
pub open spec fn load_of(weight: Option<int>, strength: StrengthMods) -> Seq<char> {
    match weight {
        Some(w) => if w <= strength.carry_none {
            "none"@
        } else if w <= strength.carry_light {
            "light"@
        } else if w <= strength.carry_medium {
            "medium"@
        } else if w <= strength.carry_heavy {
            "heavy"@
        } else {
            "overloaded"@
        },
        None => "unknown"@,
    }
}

/// The speed modifier of an armor; none without armor.
pub open spec fn armor_speed(armor: Option<Armor>) -> int {
    match armor {
        Some(armor) => armor.speed_mod as int,
        None => 0,
    }
}

/// The initiative modifier of an armor; none without armor.
pub open spec fn armor_initiative(armor: Option<Armor>) -> int {
    match armor {
        Some(armor) => armor.initiative_mod as int,
        None => 0,
    }
}

/// The defense adjustment of an armor; none without armor.
pub open spec fn armor_defense(armor: Option<Armor>) -> int {
    match armor {
        Some(armor) => armor.defense_adj as int,
        None => 0,
    }
}

/// The damage reduction of an armor; none without armor.
pub open spec fn armor_dr_of(armor: Option<Armor>) -> int {
    match armor {
        Some(armor) => armor.damage_reduction as int,
        None => 0,
    }
}

/// The attack bonus: that of level and tier plus those of intelligence and
/// dexterity, within `i32`.
pub open spec fn attack_bonus_of(level: u8, tier: ProgressionTier, mods: AbilityDerived) -> int {
    sat32(
        attack_row(level_row(level))[tier.column()] + mods.intelligence.attack
            + mods.dexterity.attack,
    )
}

/// The speed modifier: that of level and tier plus the armor's, within `i32`.
pub open spec fn speed_mod_of(level: u8, tier: ProgressionTier, armor: Option<Armor>) -> int {
    sat32(speed_row(level_row(level))[tier.column()] + armor_speed(armor))
}

/// The initiative modifier: that of level and tier plus those of dexterity,
/// wisdom and armor, within `i32`.
pub open spec fn initiative_mod_of(
    level: u8,
    tier: ProgressionTier,
    mods: AbilityDerived,
    armor: Option<Armor>,
) -> int {
    sat32(
        initiative_row(level_row(level))[tier.narrow_column()] + mods.dexterity.initiative
            + mods.wisdom.initiative + armor_initiative(armor),
    )
}

/// The defense value: the base value plus those of dexterity and armor,
/// within `i32`.
pub open spec fn base_dv_of(mods: AbilityDerived, armor: Option<Armor>) -> int {
    sat32(BASE_DV + mods.dexterity.defense + armor_defense(armor))
}

impl Character {
    /// The attack bonus of the character.
    pub open spec fn attack_bonus(self) -> int {
        attack_bonus_of(self.level, self.progression.attack, self.ability_mods)
    }

    /// The speed modifier of the character.
    pub open spec fn speed_mod(self) -> int {
        speed_mod_of(self.level, self.progression.speed, self.equipment.armor)
    }

    /// The initiative modifier of the character.
    pub open spec fn initiative_mod(self) -> int {
        initiative_mod_of(
            self.level,
            self.progression.initiative,
            self.ability_mods,
            self.equipment.armor,
        )
    }

    /// The defense value of the character.
    pub open spec fn base_dv(self) -> int {
        base_dv_of(self.ability_mods, self.equipment.armor)
    }

    /// The damage reduction of the character's armor.
    pub open spec fn armor_reduction(self) -> int {
        armor_dr_of(self.equipment.armor)
    }

    /// The hit points: the base, and the constitution score times the health
    /// multiplier, rounded to the nearest whole.
    pub open spec fn hit_points(self) -> int {
        hit_points_of(
            self.base_hp,
            self.abilities.constitution,
            health_mult_of(self.level, self.progression.health),
        )
    }

    /// Whether no two masteries are of the same weapon group.
    pub open spec fn masteries_distinct(self) -> bool {
        forall|i: int, j: int|
            0 <= i < j < self.weapon_masteries@.len() ==> self.weapon_masteries@[i].group
                != self.weapon_masteries@[j].group
    }

    /// A builder for a character of this name.
    pub fn builder(name: &str) -> (builder: CharacterBuilder)
        ensures
            builder.name@ == name@,
            builder.level == 1,
            builder.progression == Progression::default_spec(),
            builder.base_hp == 10,
            builder.abilities == first_abilities(),
            builder.weapon_masteries@.len() == 0,
            builder.equipment == no_equipment(),
    {
        CharacterBuilder::new(name.to_owned())
    }

    fn total_gear_weight(&self) -> (weight: Option<u32>)
        ensures
            match weight {
                Some(w) => gear_weight(self.equipment) == Some(w as int),
                None => gear_weight(self.equipment) is None,
            },
    {
        let mut total: i128 = 0;
        match &self.equipment.weapon {
            Some(weapon) => {
                total = total + weapon.reach_ft as i128;
            },
            None => {},
        }
        match &self.equipment.shield {
            Some(shield) => {
                let name = shield.name.as_str();
                let load: i128 = if str_eq(name, "Buckler") {
                    2000
                } else if str_eq(name, "Small Shield") {
                    3000
                } else if str_eq(name, "Medium Shield") {
                    6000
                } else if str_eq(name, "Large Shield") {
                    10000
                } else {
                    5000
                };
                total = total + load;
            },
            None => {},
        }
        match &self.equipment.armor {
            Some(armor) => {
                total = total + armor.weight_lbs as i128;
            },
            None => {},
        }
        if total <= 0 {
            None
        } else {
            let pounds = total / 1000;
            Some(
                if pounds > u32::MAX as i128 {
                    u32::MAX
                } else {
                    pounds as u32
                },
            )
        }
    }

    /// The combat numbers of the character.
    pub fn derived(&self) -> (stats: DerivedStats)
        ensures
            stats.attack_bonus == self.attack_bonus(),
            stats.speed_mod == self.speed_mod(),
            stats.initiative_mod == self.initiative_mod(),
            stats.initiative_die == initiative_die_of(self.level, self.progression.initiative),
            stats.health_mult == health_mult_of(self.level, self.progression.health),
            stats.hit_points == self.hit_points(),
            stats.armor_dr == self.armor_reduction(),
            stats.base_dv == self.base_dv(),
            stats.load_category@ == load_of(
                gear_weight(self.equipment),
                self.ability_mods.strength,
            ),
            stats.carry_capacity == (
                self.ability_mods.strength.carry_none,
                self.ability_mods.strength.carry_light,
                self.ability_mods.strength.carry_medium,
                self.ability_mods.strength.carry_heavy,
            ),
    {
        let ability = &self.ability_mods;
        let (armor_speed, armor_initiative, armor_defense, armor_dr) = match &self.equipment.armor {
            Some(armor) => (
                armor.speed_mod,
                armor.initiative_mod,
                armor.defense_adj,
                armor.damage_reduction,
            ),
            None => (0, 0, 0, 0),
        };
        let attack_bonus = clamp32(
            attack_bonus_for(self.level, self.progression.attack) as i64
                + ability.intelligence.attack as i64 + ability.dexterity.attack as i64,
        );
        let speed_mod = clamp32(
            speed_mod_for(self.level, self.progression.speed) as i64 + armor_speed as i64,
        );
        let initiative_mod = clamp32(
            initiative_mod_for(self.level, self.progression.initiative) as i64
                + ability.dexterity.initiative as i64 + ability.wisdom.initiative as i64
                + armor_initiative as i64,
        );
        let initiative_die = initiative_die_for(self.level, self.progression.initiative);
        let health_mult = health_mult_for(self.level, self.progression.health);
        let constitution = self.abilities.constitution as i64;
        assert(0 <= constitution * health_mult <= 255 * 5500) by (nonlinear_arith)
            requires
                0 <= constitution <= 255,
                800 <= health_mult <= 5500,
        ;
        let thousandths: i64 = self.base_hp as i64 * 1000 + constitution * health_mult;
        let whole = (thousandths + 500) / 1000;
        let hit_points: u32 = if whole > u32::MAX as i64 {
            u32::MAX
        } else {
            whole as u32
        };
        let base_dv = clamp32(
            BASE_DV as i64 + ability.dexterity.defense as i64 + armor_defense as i64,
        );
        let strength = self.ability_mods.strength;
        let load_category = match self.total_gear_weight() {
            Some(weight) => if weight <= strength.carry_none {
                "none"
            } else if weight <= strength.carry_light {
                "light"
            } else if weight <= strength.carry_medium {
                "medium"
            } else if weight <= strength.carry_heavy {
                "heavy"
            } else {
                "overloaded"
            },
            None => "unknown",
        };
        DerivedStats {
            attack_bonus,
            speed_mod,
            initiative_mod,
            initiative_die,
            health_mult,
            hit_points,
            base_dv,
            armor_dr,
            load_category,
            carry_capacity: (
                strength.carry_none,
                strength.carry_light,
                strength.carry_medium,
                strength.carry_heavy,
            ),
        }
    }
}

/// `v` moved into the range of `i32`.
pub fn clamp32(v: i64) -> (clamped: i32)
    ensures
        clamped == sat32(v as int),
{
    if v > i32::MAX as i64 {
        i32::MAX
    } else if v < i32::MIN as i64 {
        i32::MIN
    } else {
        v as i32
    }
}

impl Progression {
    /// The progression of a character of whom nothing else is said: the first
    /// tier in every track.
    pub open spec fn default_spec() -> Progression {
        Progression {
            attack: ProgressionTier::I,
            speed: ProgressionTier::I,
            initiative: ProgressionTier::I,
            health: ProgressionTier::I,
        }
    }
}

/// A character in the making.
pub struct CharacterBuilder {
    pub name: String,
    pub level: u8,
    pub progression: Progression,
    pub base_hp: u32,
    pub abilities: AbilitySet,
    pub weapon_masteries: Vec<WeaponMastery>,
    pub equipment: Equipment,
}

/// The masteries after one more is recorded: it takes the place of the one of
/// its weapon group, or is added where there is none.
pub open spec fn recorded(masteries: Seq<WeaponMastery>, mastery: WeaponMastery) -> Seq<
    WeaponMastery,
>
    decreases masteries.len(),
{
    if masteries.len() == 0 {
        seq![mastery]
    } else if masteries[0].group == mastery.group {
        seq![mastery] + masteries.drop_first()
    } else {
        seq![masteries[0]] + recorded(masteries.drop_first(), mastery)
    }
}

impl CharacterBuilder {
    /// A builder for a first-level character with ten base hit points, every
    /// ability at its default, and no equipment.
    pub fn new(name: String) -> (builder: CharacterBuilder)
        ensures
            builder.name == name,
            builder.level == 1,
            builder.progression == Progression::default_spec(),
            builder.base_hp == 10,
            builder.abilities == first_abilities(),
            builder.weapon_masteries@.len() == 0,
            builder.equipment == no_equipment(),
    {
        CharacterBuilder {
            name,
            level: 1,
            progression: Progression::default(),
            base_hp: 10,
            abilities: AbilitySet::default(),
            weapon_masteries: Vec::new(),
            equipment: Equipment::default(),
        }
    }

    /// Sets the level and the progression.
    pub fn level(self, level: u8, progression: Progression) -> (builder: CharacterBuilder)
        ensures
            builder == (CharacterBuilder { level, progression, ..self }),
    {
        let mut builder = self;
        builder.level = level;
        builder.progression = progression;
        builder
    }

    /// Sets the base hit points.
    pub fn base_hp(self, base_hp: u32) -> (builder: CharacterBuilder)
        ensures
            builder == (CharacterBuilder { base_hp, ..self }),
    {
        let mut builder = self;
        builder.base_hp = base_hp;
        builder
    }

    /// Sets the ability scores.
    pub fn abilities(self, abilities: AbilitySet) -> (builder: CharacterBuilder)
        ensures
            builder == (CharacterBuilder { abilities, ..self }),
    {
        let mut builder = self;
        builder.abilities = abilities;
        builder
    }

    /// Records a mastery: it takes the place of the one of its weapon group,
    /// or is added where there is none.
    pub fn weapon_mastery(self, mastery: WeaponMastery) -> (builder: CharacterBuilder)
        ensures
            builder.weapon_masteries@ == recorded(self.weapon_masteries@, mastery),
            builder.name == self.name,
            builder.level == self.level,
            builder.progression == self.progression,
            builder.base_hp == self.base_hp,
            builder.abilities == self.abilities,
            builder.equipment == self.equipment,
    {
        let mut builder = self;
        let ghost before = builder.weapon_masteries@;
        let mut i: usize = 0;
        let mut found = false;
        proof {
            assert(before.subrange(0, before.len() as int) =~= before);
            assert(before.subrange(0, 0) + recorded(before, mastery) =~= recorded(before, mastery));
        }
        while i < builder.weapon_masteries.len() && !found
            invariant
                i <= builder.weapon_masteries@.len(),
                builder.weapon_masteries@.len() == before.len(),
                builder.name == self.name,
                builder.level == self.level,
                builder.progression == self.progression,
                builder.base_hp == self.base_hp,
                builder.abilities == self.abilities,
                builder.equipment == self.equipment,
                !found ==> builder.weapon_masteries@ == before,
                !found ==> recorded(before, mastery) == before.subrange(0, i as int) + recorded(
                    before.subrange(i as int, before.len() as int),
                    mastery,
                ),
                found ==> builder.weapon_masteries@ == recorded(before, mastery),
            decreases builder.weapon_masteries@.len() - i, !found as int,
        {
            let ghost rest = before.subrange(i as int, before.len() as int);
            proof {
                assert(rest[0] == before[i as int]);
                assert(rest.drop_first() =~= before.subrange(i + 1, before.len() as int));
            }
            if same_group(builder.weapon_masteries[i].group, mastery.group) {
                builder.weapon_masteries[i] = mastery;
                found = true;
                proof {
                    assert(builder.weapon_masteries@ =~= before.subrange(0, i as int) + (
                    seq![mastery] + rest.drop_first()));
                }
            } else {
                proof {
                    assert(before.subrange(0, i as int) + (seq![before[i as int]] + recorded(
                        rest.drop_first(),
                        mastery,
                    )) =~= before.subrange(0, i + 1) + recorded(rest.drop_first(), mastery));
                }
                i = i + 1;
            }
        }
        if !found {
            builder.weapon_masteries.push(mastery);
            proof {
                assert(before.subrange(0, before.len() as int) =~= before);
                assert(before.subrange(before.len() as int, before.len() as int)
                    =~= Seq::<WeaponMastery>::empty());
                assert(builder.weapon_masteries@ =~= before + seq![mastery]);
            }
        }
        builder
    }

    /// Sets the equipment.
    pub fn equipment(self, equipment: Equipment) -> (builder: CharacterBuilder)
        ensures
            builder == (CharacterBuilder { equipment, ..self }),
    {
        let mut builder = self;
        builder.equipment = equipment;
        builder
    }

    /// The character: what was given to the builder, and what its ability
    /// scores give.
    pub fn build(self) -> (character: Character)
        ensures
            character == (Character {
                name: self.name,
                level: self.level,
                progression: self.progression,
                base_hp: self.base_hp,
                abilities: self.abilities,
                ability_mods: derived_of(self.abilities),
                weapon_masteries: self.weapon_masteries,
                equipment: self.equipment,
            }),
    {
        let ability_mods = derive_abilities(&self.abilities);
        Character {
            name: self.name,
            level: self.level,
            progression: self.progression,
            base_hp: self.base_hp,
            abilities: self.abilities,
            ability_mods,
            weapon_masteries: self.weapon_masteries,
            equipment: self.equipment,
        }
    }
}

fn same_group(a: WeaponGroup, b: WeaponGroup) -> (same: bool)
    ensures
        same == (a == b),
{
    a == b
}

/// `n` divided by the positive `d`, with the fraction dropped.
pub open spec fn quotient(n: int, d: int) -> int {
    if n >= 0 {
        n / d
    } else {
        -((-n) / d)
    }
}

/// The experience that the next tier of mastery takes, in thousandths: the
/// base threshold, changed by the percentage that intelligence gives, and
/// grown by a fifth for each tier already complete. Fractions of a
/// thousandth are dropped, and the result stays within `i64`.
pub open spec fn threshold_of(base_threshold: int, intelligence: u8, completed_tiers: int) -> int {
    let by_wits = base_threshold * (100 + int_mods(intelligence).weapon_exp_threshold_pct);
    if completed_tiers > 0 {
        sat64(quotient(by_wits * (10 + 2 * completed_tiers), 1000))
    } else {
        sat64(quotient(by_wits, 100))
    }
}

/// The experience that the next tier of mastery takes, in thousandths.
pub fn mastery_threshold(
    base_threshold: Milli,
    intelligence: u8,
    completed_tiers: i32,
) -> (threshold: Milli)
    ensures
        threshold == threshold_of(base_threshold as int, intelligence, completed_tiers as int),
{
    let percent = lookup_int(intelligence).weapon_exp_threshold_pct as i128;
    assert(-30 <= percent <= 18);
    let base = base_threshold as i128;
    assert(-0x8000_0000_0000_0000 * 130 <= base * (100 + percent) <= 0x8000_0000_0000_0000 * 130)
        by (nonlinear_arith)
        requires
            -0x8000_0000_0000_0000 <= base < 0x8000_0000_0000_0000,
            -30 <= percent <= 18,
    ;
    let by_wits: i128 = base * (100 + percent);
    let scaled: i128 = if completed_tiers > 0 {
        let growth = 10 + 2 * completed_tiers as i128;
        assert(-0x8000_0000_0000_0000 * 130 * 0x1_0000_0010 <= by_wits * growth
            <= 0x8000_0000_0000_0000 * 130 * 0x1_0000_0010) by (nonlinear_arith)
            requires
                -0x8000_0000_0000_0000 * 130 <= by_wits <= 0x8000_0000_0000_0000 * 130,
                10 < growth <= 0x1_0000_0010,
        ;
        by_wits * growth / 1000
    } else {
        by_wits / 100
    };
    if scaled > i64::MAX as i128 {
        i64::MAX
    } else if scaled < i64::MIN as i128 {
        i64::MIN
    } else {
        scaled as i64
    }
}

} // verus!
