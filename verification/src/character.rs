//! The tables by which a character's ability scores, level and progression
//! become combat numbers.

use vstd::prelude::*;

verus! {

/// How fast a character advances in one of the four tracks.
#[derive(Clone, Copy, Debug, PartialEq, Eq, Hash, Structural)]
pub enum ProgressionTier {
    I,
    II,
    III,
    IV,
    V,
    VI,
}

impl ProgressionTier {
    /// The tier's column in the attack table: 0 for the first tier to 5 for
    /// the sixth.
    pub open spec fn column(self) -> int {
        match self {
            ProgressionTier::I => 0,
            ProgressionTier::II => 1,
            ProgressionTier::III => 2,
            ProgressionTier::IV => 3,
            ProgressionTier::V => 4,
            ProgressionTier::VI => 5,
        }
    }

    /// The tier's column in a table with five columns: the sixth tier shares
    /// the fifth's.
    pub open spec fn narrow_column(self) -> int {
        if self.column() > 4 {
            4
        } else {
            self.column()
        }
    }

    /// The tier's column in the attack table.
    pub fn attack_index(self) -> (index: usize)
        ensures
            index == self.column(),
            index < 6,
    {
        match self {
            ProgressionTier::I => 0,
            ProgressionTier::II => 1,
            ProgressionTier::III => 2,
            ProgressionTier::IV => 3,
            ProgressionTier::V => 4,
            ProgressionTier::VI => 5,
        }
    }

    /// The tier's column in the speed table.
    pub fn speed_index(self) -> (index: usize)
        ensures
            index == self.column(),
            index < 6,
    {
        self.attack_index()
    }

    /// The tier's column in the initiative tables, which have five columns.
    pub fn initiative_index(self) -> (index: usize)
        ensures
            index == self.narrow_column(),
            index < 5,
    {
        let index = self.attack_index();
        if index > 4 {
            4
        } else {
            index
        }
    }

    /// The tier's column in the health table, which has five columns.
    pub fn health_index(self) -> (index: usize)
        ensures
            index == self.narrow_column(),
            index < 5,
    {
        let index = self.attack_index();
        if index > 4 {
            4
        } else {
            index
        }
    }
}

/// A character's tier in each of the four tracks.
#[derive(Clone, Copy, Debug, PartialEq, Eq, Structural)]
pub struct Progression {
    pub attack: ProgressionTier,
    pub speed: ProgressionTier,
    pub initiative: ProgressionTier,
    pub health: ProgressionTier,
}

impl Progression {
    /// The progression with these tiers.
    pub fn new(
        attack: ProgressionTier,
        speed: ProgressionTier,
        initiative: ProgressionTier,
        health: ProgressionTier,
    ) -> (progression: Progression)
        ensures
            progression == (Progression { attack, speed, initiative, health }),
    {
        Progression { attack, speed, initiative, health }
    }
}

impl Default for Progression {
    fn default() -> (progression: Progression)
        ensures
            progression == (Progression {
                attack: ProgressionTier::I,
                speed: ProgressionTier::I,
                initiative: ProgressionTier::I,
                health: ProgressionTier::I,
            }),
    {
        Progression::new(
            ProgressionTier::I,
            ProgressionTier::I,
            ProgressionTier::I,
            ProgressionTier::I,
        )
    }
}

/// By how many steps a character's initiative die is better than the
/// standard one.
#[derive(Clone, Copy, Debug, PartialEq, Eq, Structural)]
pub enum InitiativeDieQuality {
    Standard,
    OneBetter,
    TwoBetter,
    ThreeBetter,
    FourBetter,
}

impl Default for InitiativeDieQuality {
    fn default() -> (quality: InitiativeDieQuality)
        ensures
            quality == InitiativeDieQuality::Standard,
    {
        InitiativeDieQuality::Standard
    }
}

/// An ability score with its percentile: `15/51` is base 15, percentile 51.
#[derive(Clone, Copy, Debug, PartialEq, Eq, Structural)]
pub struct AbilityScore {
    pub base: u8,
    pub percentile: u8,
}

/// The defense value of a character before any adjustment.
pub const BASE_DV: i32 = -4;

impl AbilityScore {
    /// The score `base`/`percentile`.
    pub fn new(base: u8, percentile: u8) -> (score: AbilityScore)
        ensures
            score == (AbilityScore { base, percentile }),
    {
        AbilityScore { base, percentile }
    }
}

impl Default for AbilityScore {
    fn default() -> (score: AbilityScore)
        ensures
            score == (AbilityScore { base: 10, percentile: 1 }),
    {
        AbilityScore { base: 10, percentile: 1 }
    }
}

/// The seven ability scores of a character.
#[derive(Clone, Copy, Debug, PartialEq, Eq, Structural)]
pub struct AbilitySet {
    pub strength: AbilityScore,
    pub intelligence: u8,
    pub wisdom: u8,
    pub dexterity: AbilityScore,
    pub constitution: u8,
    pub looks: u8,
    pub charisma: u8,
}

impl Default for AbilitySet {
    fn default() -> (abilities: AbilitySet)
        ensures
            abilities == (AbilitySet {
                strength: AbilityScore { base: 10, percentile: 1 },
                intelligence: 0,
                wisdom: 0,
                dexterity: AbilityScore { base: 10, percentile: 1 },
                constitution: 0,
                looks: 0,
                charisma: 0,
            }),
    {
        AbilitySet {
            strength: AbilityScore::default(),
            intelligence: 0,
            wisdom: 0,
            dexterity: AbilityScore::default(),
            constitution: 0,
            looks: 0,
            charisma: 0,
        }
    }
}

/// What strength gives.
#[derive(Clone, Copy, Debug, Default, PartialEq, Eq, Structural)]
pub struct StrengthMods {
    pub damage: i32,
    pub feat: i32,
    pub lift: u32,
    pub carry_none: u32,
    pub carry_light: u32,
    pub carry_medium: u32,
    pub carry_heavy: u32,
    pub drag: u32,
}

/// What dexterity gives.
#[derive(Clone, Copy, Debug, Default, PartialEq, Eq, Structural)]
pub struct DexMods {
    pub initiative: i32,
    pub attack: i32,
    pub defense: i32,
    pub dodge_save: i32,
    pub feat_of_agility: i32,
}

/// What intelligence gives.
#[derive(Clone, Copy, Debug, Default, PartialEq, Eq, Structural)]
pub struct IntMods {
    pub attack: i32,
    pub lp_bonus: i32,
    pub weapon_exp_threshold_pct: i32,
}

/// What wisdom gives.
#[derive(Clone, Copy, Debug, Default, PartialEq, Eq, Structural)]
pub struct WisMods {
    pub initiative: i32,
    pub lp_bonus: i32,
    pub defense: i32,
    pub mental_save: i32,
    pub base_ff: i32,
}

/// What constitution gives.
#[derive(Clone, Copy, Debug, Default, PartialEq, Eq, Structural)]
pub struct ConMods {
    pub physical_save: i32,
    pub base_ff: i32,
}

/// What looks give.
#[derive(Clone, Copy, Debug, Default, PartialEq, Eq, Structural)]
pub struct LooksMods {
    pub charisma: i32,
    pub honor: i32,
    pub fame: i32,
}

/// What charisma gives.
#[derive(Clone, Copy, Debug, Default, PartialEq, Eq, Structural)]
pub struct ChaMods {
    pub lp_bonus: i32,
    pub honor: i32,
    pub turning: i32,
    pub morale: i32,
    pub max_proteges: i32,
}

/// What the seven ability scores give.
#[derive(Clone, Copy, Debug, Default, PartialEq, Eq, Structural)]
pub struct AbilityDerived {
    pub strength: StrengthMods,
    pub dexterity: DexMods,
    pub intelligence: IntMods,
    pub wisdom: WisMods,
    pub constitution: ConMods,
    pub looks: LooksMods,
    pub charisma: ChaMods,
}

/// Where a kind of armor comes from.
#[derive(Clone, Copy, Debug, PartialEq, Eq, Hash, Structural)]
pub enum ArmorRegion {
    Northern,
    Southern,
}

/// How heavy a kind of armor is.
#[derive(Clone, Copy, Debug, PartialEq, Eq, Hash, Structural)]
pub enum ArmorType {
    Unarmored,
    Light,
    Medium,
    Heavy,
}

/// The groups of weapons.
#[derive(Clone, Copy, Debug, PartialEq, Eq, Hash, Structural)]
pub enum WeaponGroup {
    Unarmed,
    Axes,
    Basic,
    Blunt,
    Bows,
    Crossbows,
    Double,
    Ensnaring,
    Lashes,
    LargeSwords,
    SmallSwords,
    Polearms,
    Spears,
    Shields,
}

/// The four aspects in which a weapon can be mastered.
#[derive(Clone, Copy, Debug, PartialEq, Eq, Hash, Structural)]
pub enum MasteryAspect {
    Attack,
    Defense,
    Damage,
    Speed,
}

/// The tiers of mastery that a character has in each aspect of a weapon group.
#[derive(Clone, Copy, Debug, Default, PartialEq, Eq, Structural)]
pub struct MasteryState {
    pub attack: i32,
    pub defense: i32,
    pub damage: i32,
    pub speed: i32,
}

impl MasteryState {
    /// The tier that is complete in all four aspects: the least of them.
    pub open spec fn complete_tier(self) -> int {
        let a = if self.attack <= self.defense {
            self.attack
        } else {
            self.defense
        };
        let b = if a <= self.damage {
            a
        } else {
            self.damage
        };
        if b <= self.speed {
            b as int
        } else {
            self.speed as int
        }
    }

    /// The tier that is complete in all four aspects.
    pub fn max_tier(&self) -> (tier: i32)
        ensures
            tier == self.complete_tier(),
            tier <= self.attack && tier <= self.defense && tier <= self.damage && tier
                <= self.speed,
            tier == self.attack || tier == self.defense || tier == self.damage || tier
                == self.speed,
    {
        let mut tier = self.attack;
        if self.defense < tier {
            tier = self.defense;
        }
        if self.damage < tier {
            tier = self.damage;
        }
        if self.speed < tier {
            tier = self.speed;
        }
        tier
    }
}

/// What a material is made of.
#[derive(Clone, Copy, Debug, PartialEq, Eq, Structural)]
pub enum MaterialKind {
    Metal,
    Fabric,
    Wood,
}

impl StrengthMods {
    /// The row of the table with these entries.
    pub open spec fn of(
        damage: int,
        feat: int,
        lift: int,
        carry_none: int,
        carry_light: int,
        carry_medium: int,
        carry_heavy: int,
        drag: int,
    ) -> StrengthMods {
        StrengthMods {
            damage: damage as i32,
            feat: feat as i32,
            lift: lift as u32,
            carry_none: carry_none as u32,
            carry_light: carry_light as u32,
            carry_medium: carry_medium as u32,
            carry_heavy: carry_heavy as u32,
            drag: drag as u32,
        }
    }

    /// The row of the table with these entries.
    pub fn new(
        damage: i32,
        feat: i32,
        lift: u32,
        carry_none: u32,
        carry_light: u32,
        carry_medium: u32,
        carry_heavy: u32,
        drag: u32,
    ) -> (mods: StrengthMods)
        ensures
            mods == StrengthMods::of(
                damage as int,
                feat as int,
                lift as int,
                carry_none as int,
                carry_light as int,
                carry_medium as int,
                carry_heavy as int,
                drag as int,
            ),
    {
        StrengthMods {
            damage,
            feat,
            lift,
            carry_none,
            carry_light,
            carry_medium,
            carry_heavy,
            drag,
        }
    }
}

impl DexMods {
    /// The row of the table with these entries.
    pub open spec fn of(
        initiative: int,
        attack: int,
        defense: int,
        dodge_save: int,
        feat_of_agility: int,
    ) -> DexMods {
        DexMods {
            initiative: initiative as i32,
            attack: attack as i32,
            defense: defense as i32,
            dodge_save: dodge_save as i32,
            feat_of_agility: feat_of_agility as i32,
        }
    }

    /// The row of the table with these entries.
    pub fn new(
        initiative: i32,
        attack: i32,
        defense: i32,
        dodge_save: i32,
        feat_of_agility: i32,
    ) -> (mods: DexMods)
        ensures
            mods == DexMods::of(
                initiative as int,
                attack as int,
                defense as int,
                dodge_save as int,
                feat_of_agility as int,
            ),
    {
        DexMods {
            initiative,
            attack,
            defense,
            dodge_save,
            feat_of_agility,
        }
    }
}

impl IntMods {
    /// The row of the table with these entries.
    pub open spec fn of(
        attack: int,
        lp_bonus: int,
        weapon_exp_threshold_pct: int,
    ) -> IntMods {
        IntMods {
            attack: attack as i32,
            lp_bonus: lp_bonus as i32,
            weapon_exp_threshold_pct: weapon_exp_threshold_pct as i32,
        }
    }

    /// The row of the table with these entries.
    pub fn new(
        attack: i32,
        lp_bonus: i32,
        weapon_exp_threshold_pct: i32,
    ) -> (mods: IntMods)
        ensures
            mods == IntMods::of(
                attack as int,
                lp_bonus as int,
                weapon_exp_threshold_pct as int,
            ),
    {
        IntMods {
            attack,
            lp_bonus,
            weapon_exp_threshold_pct,
        }
    }
}

impl WisMods {
    /// The row of the table with these entries.
    pub open spec fn of(
        initiative: int,
        lp_bonus: int,
        defense: int,
        mental_save: int,
        base_ff: int,
    ) -> WisMods {
        WisMods {
            initiative: initiative as i32,
            lp_bonus: lp_bonus as i32,
            defense: defense as i32,
            mental_save: mental_save as i32,
            base_ff: base_ff as i32,
        }
    }

    /// The row of the table with these entries.
    pub fn new(
        initiative: i32,
        lp_bonus: i32,
        defense: i32,
        mental_save: i32,
        base_ff: i32,
    ) -> (mods: WisMods)
        ensures
            mods == WisMods::of(
                initiative as int,
                lp_bonus as int,
                defense as int,
                mental_save as int,
                base_ff as int,
            ),
    {
        WisMods {
            initiative,
            lp_bonus,
            defense,
            mental_save,
            base_ff,
        }
    }
}

impl ConMods {
    /// The row of the table with these entries.
    pub open spec fn of(
        physical_save: int,
        base_ff: int,
    ) -> ConMods {
        ConMods {
            physical_save: physical_save as i32,
            base_ff: base_ff as i32,
        }
    }

    /// The row of the table with these entries.
    pub fn new(
        physical_save: i32,
        base_ff: i32,
    ) -> (mods: ConMods)
        ensures
            mods == ConMods::of(
                physical_save as int,
                base_ff as int,
            ),
    {
        ConMods {
            physical_save,
            base_ff,
        }
    }
}

impl LooksMods {
    /// The row of the table with these entries.
    pub open spec fn of(
        charisma: int,
        honor: int,
        fame: int,
    ) -> LooksMods {
        LooksMods {
            charisma: charisma as i32,
            honor: honor as i32,
            fame: fame as i32,
        }
    }

    /// The row of the table with these entries.
    pub fn new(
        charisma: i32,
        honor: i32,
        fame: i32,
    ) -> (mods: LooksMods)
        ensures
            mods == LooksMods::of(
                charisma as int,
                honor as int,
                fame as int,
            ),
    {
        LooksMods {
            charisma,
            honor,
            fame,
        }
    }
}

impl ChaMods {
    /// The row of the table with these entries.
    pub open spec fn of(
        lp_bonus: int,
        honor: int,
        turning: int,
        morale: int,
        max_proteges: int,
    ) -> ChaMods {
        ChaMods {
            lp_bonus: lp_bonus as i32,
            honor: honor as i32,
            turning: turning as i32,
            morale: morale as i32,
            max_proteges: max_proteges as i32,
        }
    }

    /// The row of the table with these entries.
    pub fn new(
        lp_bonus: i32,
        honor: i32,
        turning: i32,
        morale: i32,
        max_proteges: i32,
    ) -> (mods: ChaMods)
        ensures
            mods == ChaMods::of(
                lp_bonus as int,
                honor as int,
                turning as int,
                morale as int,
                max_proteges as int,
            ),
    {
        ChaMods {
            lp_bonus,
            honor,
            turning,
            morale,
            max_proteges,
        }
    }
}

/// What a strength score gives. A score that the table lacks gives nothing.
pub open spec fn strength_mods(score: AbilityScore) -> StrengthMods {
    if score.base == 1 && score.percentile == 1 {
        StrengthMods::of(-7, -14, 32, 3, 5, 10, 15, 80)
    } else if score.base == 1 && score.percentile == 51 {
        StrengthMods::of(-6, -13, 42, 3, 6, 13, 20, 105)
    } else if score.base == 2 && score.percentile == 1 {
        StrengthMods::of(-6, -12, 52, 4, 8, 16, 24, 130)
    } else if score.base == 2 && score.percentile == 51 {
        StrengthMods::of(-5, -11, 58, 5, 9, 18, 27, 145)
    } else if score.base == 3 && score.percentile == 1 {
        StrengthMods::of(-5, -10, 64, 5, 10, 20, 30, 160)
    } else if score.base == 3 && score.percentile == 51 {
        StrengthMods::of(-4, -9, 76, 6, 11, 22, 33, 190)
    } else if score.base == 4 && score.percentile == 1 {
        StrengthMods::of(-4, -9, 88, 6, 12, 24, 36, 220)
    } else if score.base == 4 && score.percentile == 51 {
        StrengthMods::of(-4, -8, 99, 7, 13, 26, 39, 248)
    } else if score.base == 5 && score.percentile == 1 {
        StrengthMods::of(-3, -7, 110, 7, 15, 29, 44, 275)
    } else if score.base == 5 && score.percentile == 51 {
        StrengthMods::of(-3, -7, 120, 8, 16, 31, 47, 300)
    } else if score.base == 6 && score.percentile == 1 {
        StrengthMods::of(-3, -6, 130, 8, 16, 32, 48, 325)
    } else if score.base == 6 && score.percentile == 51 {
        StrengthMods::of(-2, -5, 140, 9, 17, 34, 51, 350)
    } else if score.base == 7 && score.percentile == 1 {
        StrengthMods::of(-2, -5, 149, 9, 18, 36, 54, 373)
    } else if score.base == 7 && score.percentile == 51 {
        StrengthMods::of(-2, -4, 157, 10, 19, 38, 57, 393)
    } else if score.base == 8 && score.percentile == 1 {
        StrengthMods::of(-1, -3, 166, 10, 20, 39, 59, 415)
    } else if score.base == 8 && score.percentile == 51 {
        StrengthMods::of(-1, -3, 173, 10, 20, 40, 60, 433)
    } else if score.base == 9 && score.percentile == 1 {
        StrengthMods::of(-1, -2, 181, 11, 21, 42, 63, 453)
    } else if score.base == 9 && score.percentile == 51 {
        StrengthMods::of(-1, -1, 187, 11, 22, 43, 65, 468)
    } else if score.base == 10 && score.percentile == 1 {
        StrengthMods::of(0, 0, 194, 11, 22, 44, 66, 485)
    } else if score.base == 10 && score.percentile == 51 {
        StrengthMods::of(0, 0, 200, 11, 23, 45, 68, 500)
    } else if score.base == 11 && score.percentile == 1 {
        StrengthMods::of(0, 0, 205, 12, 24, 48, 72, 513)
    } else if score.base == 11 && score.percentile == 51 {
        StrengthMods::of(0, 0, 210, 13, 26, 52, 78, 525)
    } else if score.base == 12 && score.percentile == 1 {
        StrengthMods::of(1, 1, 215, 14, 28, 56, 84, 538)
    } else if score.base == 12 && score.percentile == 51 {
        StrengthMods::of(1, 2, 220, 15, 31, 61, 92, 550)
    } else if score.base == 13 && score.percentile == 1 {
        StrengthMods::of(1, 3, 225, 17, 33, 66, 99, 563)
    } else if score.base == 13 && score.percentile == 51 {
        StrengthMods::of(1, 4, 230, 18, 36, 71, 107, 575)
    } else if score.base == 14 && score.percentile == 1 {
        StrengthMods::of(2, 5, 235, 19, 39, 77, 116, 588)
    } else if score.base == 14 && score.percentile == 51 {
        StrengthMods::of(2, 6, 240, 21, 42, 84, 126, 600)
    } else if score.base == 15 && score.percentile == 1 {
        StrengthMods::of(2, 7, 245, 23, 46, 91, 137, 613)
    } else if score.base == 15 && score.percentile == 51 {
        StrengthMods::of(3, 8, 267, 25, 50, 99, 149, 668)
    } else if score.base == 16 && score.percentile == 1 {
        StrengthMods::of(3, 9, 291, 27, 54, 108, 162, 728)
    } else if score.base == 16 && score.percentile == 51 {
        StrengthMods::of(3, 10, 318, 30, 50, 118, 177, 795)
    } else if score.base == 17 && score.percentile == 1 {
        StrengthMods::of(4, 11, 347, 32, 65, 129, 194, 868)
    } else if score.base == 17 && score.percentile == 51 {
        StrengthMods::of(4, 12, 380, 36, 71, 142, 213, 950)
    } else if score.base == 18 && score.percentile == 1 {
        StrengthMods::of(4, 13, 417, 39, 78, 156, 234, 1043)
    } else if score.base == 18 && score.percentile == 51 {
        StrengthMods::of(5, 14, 458, 43, 86, 171, 257, 1145)
    } else if score.base == 19 && score.percentile == 1 {
        StrengthMods::of(5, 15, 504, 47, 95, 189, 284, 1260)
    } else if score.base == 19 && score.percentile == 51 {
        StrengthMods::of(6, 16, 554, 52, 105, 209, 314, 1385)
    } else if score.base == 20 && score.percentile == 1 {
        StrengthMods::of(6, 17, 612, 58, 116, 231, 347, 1530)
    } else if score.base == 20 && score.percentile == 51 {
        StrengthMods::of(7, 18, 675, 64, 128, 256, 384, 1688)
    } else if score.base == 21 && score.percentile == 1 {
        StrengthMods::of(7, 19, 743, 70, 140, 280, 420, 1857)
    } else if score.base == 21 && score.percentile == 51 {
        StrengthMods::of(8, 20, 817, 77, 154, 308, 462, 2042)
    } else if score.base == 22 && score.percentile == 1 {
        StrengthMods::of(8, 21, 898, 85, 170, 340, 510, 2245)
    } else if score.base == 22 && score.percentile == 51 {
        StrengthMods::of(9, 22, 988, 94, 188, 376, 564, 2471)
    } else if score.base == 23 && score.percentile == 1 {
        StrengthMods::of(9, 23, 1088, 103, 206, 412, 618, 2719)
    } else if score.base == 23 && score.percentile == 51 {
        StrengthMods::of(10, 24, 1196, 113, 226, 456, 678, 2990)
    } else if score.base == 24 && score.percentile == 1 {
        StrengthMods::of(10, 25, 1316, 125, 250, 500, 750, 3289)
    } else if score.base == 24 && score.percentile == 51 {
        StrengthMods::of(11, 26, 1447, 137, 274, 548, 822, 3618)
    } else if score.base == 25 && score.percentile == 1 {
        StrengthMods::of(11, 27, 1592, 151, 302, 604, 906, 3980)
    } else if score.base == 25 && score.percentile == 51 {
        StrengthMods::of(12, 28, 1750, 166, 333, 667, 1000, 4375)
    } else {
        StrengthMods::of(0, 0, 0, 0, 0, 0, 0, 0)
    }
}

/// What a strength score gives. A score that the table lacks gives nothing.
pub fn lookup_strength(score: &AbilityScore) -> (mods: StrengthMods)
    ensures
        mods == strength_mods(*score),
{
    if score.base == 1 && score.percentile == 1 {
        StrengthMods::new(-7, -14, 32, 3, 5, 10, 15, 80)
    } else if score.base == 1 && score.percentile == 51 {
        StrengthMods::new(-6, -13, 42, 3, 6, 13, 20, 105)
    } else if score.base == 2 && score.percentile == 1 {
        StrengthMods::new(-6, -12, 52, 4, 8, 16, 24, 130)
    } else if score.base == 2 && score.percentile == 51 {
        StrengthMods::new(-5, -11, 58, 5, 9, 18, 27, 145)
    } else if score.base == 3 && score.percentile == 1 {
        StrengthMods::new(-5, -10, 64, 5, 10, 20, 30, 160)
    } else if score.base == 3 && score.percentile == 51 {
        StrengthMods::new(-4, -9, 76, 6, 11, 22, 33, 190)
    } else if score.base == 4 && score.percentile == 1 {
        StrengthMods::new(-4, -9, 88, 6, 12, 24, 36, 220)
    } else if score.base == 4 && score.percentile == 51 {
        StrengthMods::new(-4, -8, 99, 7, 13, 26, 39, 248)
    } else if score.base == 5 && score.percentile == 1 {
        StrengthMods::new(-3, -7, 110, 7, 15, 29, 44, 275)
    } else if score.base == 5 && score.percentile == 51 {
        StrengthMods::new(-3, -7, 120, 8, 16, 31, 47, 300)
    } else if score.base == 6 && score.percentile == 1 {
        StrengthMods::new(-3, -6, 130, 8, 16, 32, 48, 325)
    } else if score.base == 6 && score.percentile == 51 {
        StrengthMods::new(-2, -5, 140, 9, 17, 34, 51, 350)
    } else if score.base == 7 && score.percentile == 1 {
        StrengthMods::new(-2, -5, 149, 9, 18, 36, 54, 373)
    } else if score.base == 7 && score.percentile == 51 {
        StrengthMods::new(-2, -4, 157, 10, 19, 38, 57, 393)
    } else if score.base == 8 && score.percentile == 1 {
        StrengthMods::new(-1, -3, 166, 10, 20, 39, 59, 415)
    } else if score.base == 8 && score.percentile == 51 {
        StrengthMods::new(-1, -3, 173, 10, 20, 40, 60, 433)
    } else if score.base == 9 && score.percentile == 1 {
        StrengthMods::new(-1, -2, 181, 11, 21, 42, 63, 453)
    } else if score.base == 9 && score.percentile == 51 {
        StrengthMods::new(-1, -1, 187, 11, 22, 43, 65, 468)
    } else if score.base == 10 && score.percentile == 1 {
        StrengthMods::new(0, 0, 194, 11, 22, 44, 66, 485)
    } else if score.base == 10 && score.percentile == 51 {
        StrengthMods::new(0, 0, 200, 11, 23, 45, 68, 500)
    } else if score.base == 11 && score.percentile == 1 {
        StrengthMods::new(0, 0, 205, 12, 24, 48, 72, 513)
    } else if score.base == 11 && score.percentile == 51 {
        StrengthMods::new(0, 0, 210, 13, 26, 52, 78, 525)
    } else if score.base == 12 && score.percentile == 1 {
        StrengthMods::new(1, 1, 215, 14, 28, 56, 84, 538)
    } else if score.base == 12 && score.percentile == 51 {
        StrengthMods::new(1, 2, 220, 15, 31, 61, 92, 550)
    } else if score.base == 13 && score.percentile == 1 {
        StrengthMods::new(1, 3, 225, 17, 33, 66, 99, 563)
    } else if score.base == 13 && score.percentile == 51 {
        StrengthMods::new(1, 4, 230, 18, 36, 71, 107, 575)
    } else if score.base == 14 && score.percentile == 1 {
        StrengthMods::new(2, 5, 235, 19, 39, 77, 116, 588)
    } else if score.base == 14 && score.percentile == 51 {
        StrengthMods::new(2, 6, 240, 21, 42, 84, 126, 600)
    } else if score.base == 15 && score.percentile == 1 {
        StrengthMods::new(2, 7, 245, 23, 46, 91, 137, 613)
    } else if score.base == 15 && score.percentile == 51 {
        StrengthMods::new(3, 8, 267, 25, 50, 99, 149, 668)
    } else if score.base == 16 && score.percentile == 1 {
        StrengthMods::new(3, 9, 291, 27, 54, 108, 162, 728)
    } else if score.base == 16 && score.percentile == 51 {
        StrengthMods::new(3, 10, 318, 30, 50, 118, 177, 795)
    } else if score.base == 17 && score.percentile == 1 {
        StrengthMods::new(4, 11, 347, 32, 65, 129, 194, 868)
    } else if score.base == 17 && score.percentile == 51 {
        StrengthMods::new(4, 12, 380, 36, 71, 142, 213, 950)
    } else if score.base == 18 && score.percentile == 1 {
        StrengthMods::new(4, 13, 417, 39, 78, 156, 234, 1043)
    } else if score.base == 18 && score.percentile == 51 {
        StrengthMods::new(5, 14, 458, 43, 86, 171, 257, 1145)
    } else if score.base == 19 && score.percentile == 1 {
        StrengthMods::new(5, 15, 504, 47, 95, 189, 284, 1260)
    } else if score.base == 19 && score.percentile == 51 {
        StrengthMods::new(6, 16, 554, 52, 105, 209, 314, 1385)
    } else if score.base == 20 && score.percentile == 1 {
        StrengthMods::new(6, 17, 612, 58, 116, 231, 347, 1530)
    } else if score.base == 20 && score.percentile == 51 {
        StrengthMods::new(7, 18, 675, 64, 128, 256, 384, 1688)
    } else if score.base == 21 && score.percentile == 1 {
        StrengthMods::new(7, 19, 743, 70, 140, 280, 420, 1857)
    } else if score.base == 21 && score.percentile == 51 {
        StrengthMods::new(8, 20, 817, 77, 154, 308, 462, 2042)
    } else if score.base == 22 && score.percentile == 1 {
        StrengthMods::new(8, 21, 898, 85, 170, 340, 510, 2245)
    } else if score.base == 22 && score.percentile == 51 {
        StrengthMods::new(9, 22, 988, 94, 188, 376, 564, 2471)
    } else if score.base == 23 && score.percentile == 1 {
        StrengthMods::new(9, 23, 1088, 103, 206, 412, 618, 2719)
    } else if score.base == 23 && score.percentile == 51 {
        StrengthMods::new(10, 24, 1196, 113, 226, 456, 678, 2990)
    } else if score.base == 24 && score.percentile == 1 {
        StrengthMods::new(10, 25, 1316, 125, 250, 500, 750, 3289)
    } else if score.base == 24 && score.percentile == 51 {
        StrengthMods::new(11, 26, 1447, 137, 274, 548, 822, 3618)
    } else if score.base == 25 && score.percentile == 1 {
        StrengthMods::new(11, 27, 1592, 151, 302, 604, 906, 3980)
    } else if score.base == 25 && score.percentile == 51 {
        StrengthMods::new(12, 28, 1750, 166, 333, 667, 1000, 4375)
    } else {
        StrengthMods::new(0, 0, 0, 0, 0, 0, 0, 0)
    }
}

/// What a dexterity score gives. A score that the table lacks gives nothing.
pub open spec fn dex_mods(score: AbilityScore) -> DexMods {
    if score.base == 1 && score.percentile == 1 {
        DexMods::of(8, -5, -6, -4, -14)
    } else if score.base == 1 && score.percentile == 51 {
        DexMods::of(8, -4, -6, -4, -13)
    } else if score.base == 2 && score.percentile == 1 {
        DexMods::of(8, -4, -6, -4, -12)
    } else if score.base == 2 && score.percentile == 51 {
        DexMods::of(7, -4, -5, -4, -11)
    } else if score.base == 3 && score.percentile == 1 {
        DexMods::of(7, -4, -5, -3, -10)
    } else if score.base == 3 && score.percentile == 51 {
        DexMods::of(7, -3, -5, -3, -9)
    } else if score.base == 4 && score.percentile == 1 {
        DexMods::of(6, -3, -4, -3, -9)
    } else if score.base == 4 && score.percentile == 51 {
        DexMods::of(6, -3, -4, -3, -8)
    } else if score.base == 5 && score.percentile == 1 {
        DexMods::of(6, -3, -4, -2, -7)
    } else if score.base == 5 && score.percentile == 51 {
        DexMods::of(5, -2, -3, -2, -7)
    } else if score.base == 6 && score.percentile == 1 {
        DexMods::of(5, -2, -3, -2, -6)
    } else if score.base == 6 && score.percentile == 51 {
        DexMods::of(5, -2, -3, -2, -5)
    } else if score.base == 7 && score.percentile == 1 {
        DexMods::of(4, -2, -2, -1, -5)
    } else if score.base == 7 && score.percentile == 51 {
        DexMods::of(4, -1, -2, -1, -4)
    } else if score.base == 8 && score.percentile == 1 {
        DexMods::of(4, -1, -2, -1, -3)
    } else if score.base == 8 && score.percentile == 51 {
        DexMods::of(3, -1, -1, -1, -3)
    } else if score.base == 9 && score.percentile == 1 {
        DexMods::of(3, -1, -1, 0, -2)
    } else if score.base == 9 && score.percentile == 51 {
        DexMods::of(3, 0, -1, 0, -1)
    } else if score.base == 10 && score.percentile == 1 {
        DexMods::of(2, 0, 0, 0, 0)
    } else if score.base == 10 && score.percentile == 51 {
        DexMods::of(2, 0, 0, 0, 0)
    } else if score.base == 11 && score.percentile == 1 {
        DexMods::of(2, 0, 0, 0, 0)
    } else if score.base == 11 && score.percentile == 51 {
        DexMods::of(1, 0, 1, 0, 0)
    } else if score.base == 12 && score.percentile == 1 {
        DexMods::of(1, 1, 1, 0, 1)
    } else if score.base == 12 && score.percentile == 51 {
        DexMods::of(1, 1, 1, 0, 2)
    } else if score.base == 13 && score.percentile == 1 {
        DexMods::of(0, 1, 2, 1, 3)
    } else if score.base == 13 && score.percentile == 51 {
        DexMods::of(0, 1, 2, 1, 4)
    } else if score.base == 14 && score.percentile == 1 {
        DexMods::of(0, 2, 2, 1, 5)
    } else if score.base == 14 && score.percentile == 51 {
        DexMods::of(-1, 2, 3, 1, 6)
    } else if score.base == 15 && score.percentile == 1 {
        DexMods::of(-1, 2, 3, 2, 7)
    } else if score.base == 15 && score.percentile == 51 {
        DexMods::of(-1, 2, 3, 2, 8)
    } else if score.base == 16 && score.percentile == 1 {
        DexMods::of(-2, 3, 4, 2, 9)
    } else if score.base == 16 && score.percentile == 51 {
        DexMods::of(-2, 3, 4, 2, 10)
    } else if score.base == 17 && score.percentile == 1 {
        DexMods::of(-2, 3, 4, 2, 11)
    } else if score.base == 17 && score.percentile == 51 {
        DexMods::of(-3, 3, 5, 2, 12)
    } else if score.base == 18 && score.percentile == 1 {
        DexMods::of(-3, 4, 5, 3, 13)
    } else if score.base == 18 && score.percentile == 51 {
        DexMods::of(-3, 4, 5, 3, 14)
    } else if score.base == 19 && score.percentile == 1 {
        DexMods::of(-4, 4, 6, 3, 15)
    } else if score.base == 19 && score.percentile == 51 {
        DexMods::of(-4, 4, 6, 3, 16)
    } else if score.base == 20 && score.percentile == 1 {
        DexMods::of(-4, 5, 6, 3, 17)
    } else if score.base == 20 && score.percentile == 51 {
        DexMods::of(-5, 5, 7, 3, 18)
    } else if score.base == 21 && score.percentile == 1 {
        DexMods::of(-5, 5, 7, 3, 19)
    } else if score.base == 21 && score.percentile == 51 {
        DexMods::of(-5, 5, 7, 3, 20)
    } else if score.base == 22 && score.percentile == 1 {
        DexMods::of(-5, 5, 7, 4, 21)
    } else if score.base == 22 && score.percentile == 51 {
        DexMods::of(-6, 6, 8, 4, 22)
    } else if score.base == 23 && score.percentile == 1 {
        DexMods::of(-6, 6, 8, 4, 23)
    } else if score.base == 23 && score.percentile == 51 {
        DexMods::of(-6, 6, 8, 4, 24)
    } else if score.base == 24 && score.percentile == 1 {
        DexMods::of(-6, 6, 8, 4, 25)
    } else if score.base == 24 && score.percentile == 51 {
        DexMods::of(-7, 6, 8, 4, 26)
    } else if score.base == 25 && score.percentile == 1 {
        DexMods::of(-7, 6, 9, 4, 27)
    } else if score.base == 25 && score.percentile == 51 {
        DexMods::of(-7, 7, 9, 4, 28)
    } else {
        DexMods::of(0, 0, 0, 0, 0)
    }
}

/// What a dexterity score gives. A score that the table lacks gives nothing.
pub fn lookup_dex(score: &AbilityScore) -> (mods: DexMods)
    ensures
        mods == dex_mods(*score),
{
    if score.base == 1 && score.percentile == 1 {
        DexMods::new(8, -5, -6, -4, -14)
    } else if score.base == 1 && score.percentile == 51 {
        DexMods::new(8, -4, -6, -4, -13)
    } else if score.base == 2 && score.percentile == 1 {
        DexMods::new(8, -4, -6, -4, -12)
    } else if score.base == 2 && score.percentile == 51 {
        DexMods::new(7, -4, -5, -4, -11)
    } else if score.base == 3 && score.percentile == 1 {
        DexMods::new(7, -4, -5, -3, -10)
    } else if score.base == 3 && score.percentile == 51 {
        DexMods::new(7, -3, -5, -3, -9)
    } else if score.base == 4 && score.percentile == 1 {
        DexMods::new(6, -3, -4, -3, -9)
    } else if score.base == 4 && score.percentile == 51 {
        DexMods::new(6, -3, -4, -3, -8)
    } else if score.base == 5 && score.percentile == 1 {
        DexMods::new(6, -3, -4, -2, -7)
    } else if score.base == 5 && score.percentile == 51 {
        DexMods::new(5, -2, -3, -2, -7)
    } else if score.base == 6 && score.percentile == 1 {
        DexMods::new(5, -2, -3, -2, -6)
    } else if score.base == 6 && score.percentile == 51 {
        DexMods::new(5, -2, -3, -2, -5)
    } else if score.base == 7 && score.percentile == 1 {
        DexMods::new(4, -2, -2, -1, -5)
    } else if score.base == 7 && score.percentile == 51 {
        DexMods::new(4, -1, -2, -1, -4)
    } else if score.base == 8 && score.percentile == 1 {
        DexMods::new(4, -1, -2, -1, -3)
    } else if score.base == 8 && score.percentile == 51 {
        DexMods::new(3, -1, -1, -1, -3)
    } else if score.base == 9 && score.percentile == 1 {
        DexMods::new(3, -1, -1, 0, -2)
    } else if score.base == 9 && score.percentile == 51 {
        DexMods::new(3, 0, -1, 0, -1)
    } else if score.base == 10 && score.percentile == 1 {
        DexMods::new(2, 0, 0, 0, 0)
    } else if score.base == 10 && score.percentile == 51 {
        DexMods::new(2, 0, 0, 0, 0)
    } else if score.base == 11 && score.percentile == 1 {
        DexMods::new(2, 0, 0, 0, 0)
    } else if score.base == 11 && score.percentile == 51 {
        DexMods::new(1, 0, 1, 0, 0)
    } else if score.base == 12 && score.percentile == 1 {
        DexMods::new(1, 1, 1, 0, 1)
    } else if score.base == 12 && score.percentile == 51 {
        DexMods::new(1, 1, 1, 0, 2)
    } else if score.base == 13 && score.percentile == 1 {
        DexMods::new(0, 1, 2, 1, 3)
    } else if score.base == 13 && score.percentile == 51 {
        DexMods::new(0, 1, 2, 1, 4)
    } else if score.base == 14 && score.percentile == 1 {
        DexMods::new(0, 2, 2, 1, 5)
    } else if score.base == 14 && score.percentile == 51 {
        DexMods::new(-1, 2, 3, 1, 6)
    } else if score.base == 15 && score.percentile == 1 {
        DexMods::new(-1, 2, 3, 2, 7)
    } else if score.base == 15 && score.percentile == 51 {
        DexMods::new(-1, 2, 3, 2, 8)
    } else if score.base == 16 && score.percentile == 1 {
        DexMods::new(-2, 3, 4, 2, 9)
    } else if score.base == 16 && score.percentile == 51 {
        DexMods::new(-2, 3, 4, 2, 10)
    } else if score.base == 17 && score.percentile == 1 {
        DexMods::new(-2, 3, 4, 2, 11)
    } else if score.base == 17 && score.percentile == 51 {
        DexMods::new(-3, 3, 5, 2, 12)
    } else if score.base == 18 && score.percentile == 1 {
        DexMods::new(-3, 4, 5, 3, 13)
    } else if score.base == 18 && score.percentile == 51 {
        DexMods::new(-3, 4, 5, 3, 14)
    } else if score.base == 19 && score.percentile == 1 {
        DexMods::new(-4, 4, 6, 3, 15)
    } else if score.base == 19 && score.percentile == 51 {
        DexMods::new(-4, 4, 6, 3, 16)
    } else if score.base == 20 && score.percentile == 1 {
        DexMods::new(-4, 5, 6, 3, 17)
    } else if score.base == 20 && score.percentile == 51 {
        DexMods::new(-5, 5, 7, 3, 18)
    } else if score.base == 21 && score.percentile == 1 {
        DexMods::new(-5, 5, 7, 3, 19)
    } else if score.base == 21 && score.percentile == 51 {
        DexMods::new(-5, 5, 7, 3, 20)
    } else if score.base == 22 && score.percentile == 1 {
        DexMods::new(-5, 5, 7, 4, 21)
    } else if score.base == 22 && score.percentile == 51 {
        DexMods::new(-6, 6, 8, 4, 22)
    } else if score.base == 23 && score.percentile == 1 {
        DexMods::new(-6, 6, 8, 4, 23)
    } else if score.base == 23 && score.percentile == 51 {
        DexMods::new(-6, 6, 8, 4, 24)
    } else if score.base == 24 && score.percentile == 1 {
        DexMods::new(-6, 6, 8, 4, 25)
    } else if score.base == 24 && score.percentile == 51 {
        DexMods::new(-7, 6, 8, 4, 26)
    } else if score.base == 25 && score.percentile == 1 {
        DexMods::new(-7, 6, 9, 4, 27)
    } else if score.base == 25 && score.percentile == 51 {
        DexMods::new(-7, 7, 9, 4, 28)
    } else {
        DexMods::new(0, 0, 0, 0, 0)
    }
}

/// What an intelligence score gives. A score that the table lacks gives nothing.
pub open spec fn int_mods(score: u8) -> IntMods {
    if score == 1 {
        IntMods::of(-5, 0, 18)
    } else if score == 2 {
        IntMods::of(-4, 0, 16)
    } else if score == 3 {
        IntMods::of(-3, 0, 14)
    } else if score == 4 {
        IntMods::of(-2, 0, 12)
    } else if score == 5 {
        IntMods::of(-2, 0, 10)
    } else if score == 6 {
        IntMods::of(-2, 0, 8)
    } else if score == 7 {
        IntMods::of(-1, 0, 6)
    } else if score == 8 {
        IntMods::of(-1, 0, 4)
    } else if score == 9 {
        IntMods::of(-1, 0, 2)
    } else if score == 10 {
        IntMods::of(0, 0, 0)
    } else if score == 11 {
        IntMods::of(0, 1, -2)
    } else if score == 12 {
        IntMods::of(1, 2, -4)
    } else if score == 13 {
        IntMods::of(1, 3, -6)
    } else if score == 14 {
        IntMods::of(1, 6, -8)
    } else if score == 15 {
        IntMods::of(2, 10, -10)
    } else if score == 16 {
        IntMods::of(2, 15, -12)
    } else if score == 17 {
        IntMods::of(2, 21, -14)
    } else if score == 18 {
        IntMods::of(3, 28, -16)
    } else if score == 19 {
        IntMods::of(3, 36, -18)
    } else if score == 20 {
        IntMods::of(3, 45, -20)
    } else if score == 21 {
        IntMods::of(4, 55, -22)
    } else if score == 22 {
        IntMods::of(4, 66, -24)
    } else if score == 23 {
        IntMods::of(5, 78, -26)
    } else if score == 24 {
        IntMods::of(5, 91, -28)
    } else if score == 25 {
        IntMods::of(6, 105, -30)
    } else {
        IntMods::of(0, 0, 0)
    }
}

/// What an intelligence score gives. A score that the table lacks gives nothing.
pub fn lookup_int(score: u8) -> (mods: IntMods)
    ensures
        mods == int_mods(score),
{
    if score == 1 {
        IntMods::new(-5, 0, 18)
    } else if score == 2 {
        IntMods::new(-4, 0, 16)
    } else if score == 3 {
        IntMods::new(-3, 0, 14)
    } else if score == 4 {
        IntMods::new(-2, 0, 12)
    } else if score == 5 {
        IntMods::new(-2, 0, 10)
    } else if score == 6 {
        IntMods::new(-2, 0, 8)
    } else if score == 7 {
        IntMods::new(-1, 0, 6)
    } else if score == 8 {
        IntMods::new(-1, 0, 4)
    } else if score == 9 {
        IntMods::new(-1, 0, 2)
    } else if score == 10 {
        IntMods::new(0, 0, 0)
    } else if score == 11 {
        IntMods::new(0, 1, -2)
    } else if score == 12 {
        IntMods::new(1, 2, -4)
    } else if score == 13 {
        IntMods::new(1, 3, -6)
    } else if score == 14 {
        IntMods::new(1, 6, -8)
    } else if score == 15 {
        IntMods::new(2, 10, -10)
    } else if score == 16 {
        IntMods::new(2, 15, -12)
    } else if score == 17 {
        IntMods::new(2, 21, -14)
    } else if score == 18 {
        IntMods::new(3, 28, -16)
    } else if score == 19 {
        IntMods::new(3, 36, -18)
    } else if score == 20 {
        IntMods::new(3, 45, -20)
    } else if score == 21 {
        IntMods::new(4, 55, -22)
    } else if score == 22 {
        IntMods::new(4, 66, -24)
    } else if score == 23 {
        IntMods::new(5, 78, -26)
    } else if score == 24 {
        IntMods::new(5, 91, -28)
    } else if score == 25 {
        IntMods::new(6, 105, -30)
    } else {
        IntMods::new(0, 0, 0)
    }
}

/// What a wisdom score gives. A score that the table lacks gives nothing.
pub open spec fn wis_mods(score: u8) -> WisMods {
    if score == 1 {
        WisMods::of(7, 0, -4, -4, 3)
    } else if score == 2 {
        WisMods::of(6, 0, -3, -4, 3)
    } else if score == 3 {
        WisMods::of(5, 0, -3, -3, 2)
    } else if score == 4 {
        WisMods::of(4, 0, -2, -3, 2)
    } else if score == 5 {
        WisMods::of(4, 0, -2, -2, 2)
    } else if score == 6 {
        WisMods::of(4, 0, -2, -2, 1)
    } else if score == 7 {
        WisMods::of(3, 0, -1, -1, 1)
    } else if score == 8 {
        WisMods::of(3, 0, -1, -1, 1)
    } else if score == 9 {
        WisMods::of(3, 0, -1, 0, 0)
    } else if score == 10 {
        WisMods::of(2, 0, 0, 0, 0)
    } else if score == 11 {
        WisMods::of(2, 1, 0, 0, 0)
    } else if score == 12 {
        WisMods::of(1, 2, 1, 0, -1)
    } else if score == 13 {
        WisMods::of(1, 3, 1, 1, -1)
    } else if score == 14 {
        WisMods::of(1, 6, 1, 1, -1)
    } else if score == 15 {
        WisMods::of(0, 10, 2, 2, -2)
    } else if score == 16 {
        WisMods::of(0, 15, 2, 2, -2)
    } else if score == 17 {
        WisMods::of(0, 21, 2, 2, -2)
    } else if score == 18 {
        WisMods::of(-1, 28, 3, 3, -3)
    } else if score == 19 {
        WisMods::of(-1, 36, 3, 3, -3)
    } else if score == 20 {
        WisMods::of(-1, 45, 3, 3, -3)
    } else if score == 21 {
        WisMods::of(-2, 55, 4, 3, -4)
    } else if score == 22 {
        WisMods::of(-2, 66, 4, 4, -4)
    } else if score == 23 {
        WisMods::of(-2, 78, 4, 4, -4)
    } else if score == 24 {
        WisMods::of(-3, 91, 4, 4, -5)
    } else if score == 25 {
        WisMods::of(-3, 105, 5, 4, -5)
    } else {
        WisMods::of(0, 0, 0, 0, 0)
    }
}

/// What a wisdom score gives. A score that the table lacks gives nothing.
pub fn lookup_wis(score: u8) -> (mods: WisMods)
    ensures
        mods == wis_mods(score),
{
    if score == 1 {
        WisMods::new(7, 0, -4, -4, 3)
    } else if score == 2 {
        WisMods::new(6, 0, -3, -4, 3)
    } else if score == 3 {
        WisMods::new(5, 0, -3, -3, 2)
    } else if score == 4 {
        WisMods::new(4, 0, -2, -3, 2)
    } else if score == 5 {
        WisMods::new(4, 0, -2, -2, 2)
    } else if score == 6 {
        WisMods::new(4, 0, -2, -2, 1)
    } else if score == 7 {
        WisMods::new(3, 0, -1, -1, 1)
    } else if score == 8 {
        WisMods::new(3, 0, -1, -1, 1)
    } else if score == 9 {
        WisMods::new(3, 0, -1, 0, 0)
    } else if score == 10 {
        WisMods::new(2, 0, 0, 0, 0)
    } else if score == 11 {
        WisMods::new(2, 1, 0, 0, 0)
    } else if score == 12 {
        WisMods::new(1, 2, 1, 0, -1)
    } else if score == 13 {
        WisMods::new(1, 3, 1, 1, -1)
    } else if score == 14 {
        WisMods::new(1, 6, 1, 1, -1)
    } else if score == 15 {
        WisMods::new(0, 10, 2, 2, -2)
    } else if score == 16 {
        WisMods::new(0, 15, 2, 2, -2)
    } else if score == 17 {
        WisMods::new(0, 21, 2, 2, -2)
    } else if score == 18 {
        WisMods::new(-1, 28, 3, 3, -3)
    } else if score == 19 {
        WisMods::new(-1, 36, 3, 3, -3)
    } else if score == 20 {
        WisMods::new(-1, 45, 3, 3, -3)
    } else if score == 21 {
        WisMods::new(-2, 55, 4, 3, -4)
    } else if score == 22 {
        WisMods::new(-2, 66, 4, 4, -4)
    } else if score == 23 {
        WisMods::new(-2, 78, 4, 4, -4)
    } else if score == 24 {
        WisMods::new(-3, 91, 4, 4, -5)
    } else if score == 25 {
        WisMods::new(-3, 105, 5, 4, -5)
    } else {
        WisMods::new(0, 0, 0, 0, 0)
    }
}

/// What a constitution score gives. A score that the table lacks gives nothing.
pub open spec fn con_mods(score: u8) -> ConMods {
    if score == 1 {
        ConMods::of(-5, 5)
    } else if score == 2 {
        ConMods::of(-4, 4)
    } else if score == 3 {
        ConMods::of(-3, 4)
    } else if score == 4 {
        ConMods::of(-3, 3)
    } else if score == 5 {
        ConMods::of(-2, 3)
    } else if score == 6 {
        ConMods::of(-2, 2)
    } else if score == 7 {
        ConMods::of(-1, 2)
    } else if score == 8 {
        ConMods::of(-1, 1)
    } else if score == 9 {
        ConMods::of(0, 1)
    } else if score == 10 {
        ConMods::of(0, 0)
    } else if score == 11 {
        ConMods::of(0, -1)
    } else if score == 12 {
        ConMods::of(0, -1)
    } else if score == 13 {
        ConMods::of(1, -2)
    } else if score == 14 {
        ConMods::of(1, -2)
    } else if score == 15 {
        ConMods::of(2, -3)
    } else if score == 16 {
        ConMods::of(2, -3)
    } else if score == 17 {
        ConMods::of(2, -4)
    } else if score == 18 {
        ConMods::of(3, -4)
    } else if score == 19 {
        ConMods::of(3, -5)
    } else if score == 20 {
        ConMods::of(3, -5)
    } else if score == 21 {
        ConMods::of(4, -6)
    } else if score == 22 {
        ConMods::of(4, -6)
    } else if score == 23 {
        ConMods::of(4, -7)
    } else if score == 24 {
        ConMods::of(4, -7)
    } else if score == 25 {
        ConMods::of(4, -8)
    } else {
        ConMods::of(0, 0)
    }
}

/// What a constitution score gives. A score that the table lacks gives nothing.
pub fn lookup_con(score: u8) -> (mods: ConMods)
    ensures
        mods == con_mods(score),
{
    if score == 1 {
        ConMods::new(-5, 5)
    } else if score == 2 {
        ConMods::new(-4, 4)
    } else if score == 3 {
        ConMods::new(-3, 4)
    } else if score == 4 {
        ConMods::new(-3, 3)
    } else if score == 5 {
        ConMods::new(-2, 3)
    } else if score == 6 {
        ConMods::new(-2, 2)
    } else if score == 7 {
        ConMods::new(-1, 2)
    } else if score == 8 {
        ConMods::new(-1, 1)
    } else if score == 9 {
        ConMods::new(0, 1)
    } else if score == 10 {
        ConMods::new(0, 0)
    } else if score == 11 {
        ConMods::new(0, -1)
    } else if score == 12 {
        ConMods::new(0, -1)
    } else if score == 13 {
        ConMods::new(1, -2)
    } else if score == 14 {
        ConMods::new(1, -2)
    } else if score == 15 {
        ConMods::new(2, -3)
    } else if score == 16 {
        ConMods::new(2, -3)
    } else if score == 17 {
        ConMods::new(2, -4)
    } else if score == 18 {
        ConMods::new(3, -4)
    } else if score == 19 {
        ConMods::new(3, -5)
    } else if score == 20 {
        ConMods::new(3, -5)
    } else if score == 21 {
        ConMods::new(4, -6)
    } else if score == 22 {
        ConMods::new(4, -6)
    } else if score == 23 {
        ConMods::new(4, -7)
    } else if score == 24 {
        ConMods::new(4, -7)
    } else if score == 25 {
        ConMods::new(4, -8)
    } else {
        ConMods::new(0, 0)
    }
}

/// What a looks score gives. A score that the table lacks gives nothing.
pub open spec fn looks_mods(score: u8) -> LooksMods {
    if score == 1 {
        LooksMods::of(-6, -6, 9)
    } else if score == 2 {
        LooksMods::of(-5, -5, 6)
    } else if score == 3 {
        LooksMods::of(-5, -4, 4)
    } else if score == 4 {
        LooksMods::of(-4, -3, 2)
    } else if score == 5 {
        LooksMods::of(-3, -3, 1)
    } else if score == 6 {
        LooksMods::of(-2, -2, 1)
    } else if score == 7 {
        LooksMods::of(-2, -2, 0)
    } else if score == 8 {
        LooksMods::of(-1, -1, 0)
    } else if score == 9 {
        LooksMods::of(-1, -1, 0)
    } else if score == 10 {
        LooksMods::of(0, 0, 0)
    } else if score == 11 {
        LooksMods::of(0, 0, 0)
    } else if score == 12 {
        LooksMods::of(0, 1, 0)
    } else if score == 13 {
        LooksMods::of(1, 1, 0)
    } else if score == 14 {
        LooksMods::of(1, 2, 1)
    } else if score == 15 {
        LooksMods::of(2, 2, 2)
    } else if score == 16 {
        LooksMods::of(2, 3, 3)
    } else if score == 17 {
        LooksMods::of(3, 3, 5)
    } else if score == 18 {
        LooksMods::of(4, 4, 7)
    } else if score == 19 {
        LooksMods::of(5, 4, 8)
    } else if score == 20 {
        LooksMods::of(6, 5, 9)
    } else if score == 21 {
        LooksMods::of(7, 5, 11)
    } else if score == 22 {
        LooksMods::of(8, 6, 13)
    } else if score == 23 {
        LooksMods::of(9, 6, 14)
    } else if score == 24 {
        LooksMods::of(10, 7, 15)
    } else if score == 25 {
        LooksMods::of(11, 7, 17)
    } else {
        LooksMods::of(0, 0, 0)
    }
}

/// What a looks score gives. A score that the table lacks gives nothing.
pub fn lookup_looks(score: u8) -> (mods: LooksMods)
    ensures
        mods == looks_mods(score),
{
    if score == 1 {
        LooksMods::new(-6, -6, 9)
    } else if score == 2 {
        LooksMods::new(-5, -5, 6)
    } else if score == 3 {
        LooksMods::new(-5, -4, 4)
    } else if score == 4 {
        LooksMods::new(-4, -3, 2)
    } else if score == 5 {
        LooksMods::new(-3, -3, 1)
    } else if score == 6 {
        LooksMods::new(-2, -2, 1)
    } else if score == 7 {
        LooksMods::new(-2, -2, 0)
    } else if score == 8 {
        LooksMods::new(-1, -1, 0)
    } else if score == 9 {
        LooksMods::new(-1, -1, 0)
    } else if score == 10 {
        LooksMods::new(0, 0, 0)
    } else if score == 11 {
        LooksMods::new(0, 0, 0)
    } else if score == 12 {
        LooksMods::new(0, 1, 0)
    } else if score == 13 {
        LooksMods::new(1, 1, 0)
    } else if score == 14 {
        LooksMods::new(1, 2, 1)
    } else if score == 15 {
        LooksMods::new(2, 2, 2)
    } else if score == 16 {
        LooksMods::new(2, 3, 3)
    } else if score == 17 {
        LooksMods::new(3, 3, 5)
    } else if score == 18 {
        LooksMods::new(4, 4, 7)
    } else if score == 19 {
        LooksMods::new(5, 4, 8)
    } else if score == 20 {
        LooksMods::new(6, 5, 9)
    } else if score == 21 {
        LooksMods::new(7, 5, 11)
    } else if score == 22 {
        LooksMods::new(8, 6, 13)
    } else if score == 23 {
        LooksMods::new(9, 6, 14)
    } else if score == 24 {
        LooksMods::new(10, 7, 15)
    } else if score == 25 {
        LooksMods::new(11, 7, 17)
    } else {
        LooksMods::new(0, 0, 0)
    }
}

/// What a charisma score gives. A score that the table lacks gives nothing.
pub open spec fn cha_mods(score: u8) -> ChaMods {
    if score == 1 {
        ChaMods::of(0, -6, -9, -5, 0)
    } else if score == 2 {
        ChaMods::of(0, -5, -8, -4, 1)
    } else if score == 3 {
        ChaMods::of(0, -4, -7, -4, 1)
    } else if score == 4 {
        ChaMods::of(0, -3, -6, -3, 1)
    } else if score == 5 {
        ChaMods::of(0, -3, -5, -3, 1)
    } else if score == 6 {
        ChaMods::of(0, -2, -4, -2, 2)
    } else if score == 7 {
        ChaMods::of(0, -2, -3, -2, 2)
    } else if score == 8 {
        ChaMods::of(0, -1, -2, -1, 2)
    } else if score == 9 {
        ChaMods::of(0, -1, -1, -1, 2)
    } else if score == 10 {
        ChaMods::of(0, 0, 0, 0, 3)
    } else if score == 11 {
        ChaMods::of(0, 0, 1, 1, 3)
    } else if score == 12 {
        ChaMods::of(1, 1, 2, 1, 3)
    } else if score == 13 {
        ChaMods::of(3, 1, 3, 2, 3)
    } else if score == 14 {
        ChaMods::of(6, 2, 4, 2, 3)
    } else if score == 15 {
        ChaMods::of(10, 2, 5, 3, 3)
    } else if score == 16 {
        ChaMods::of(15, 3, 6, 3, 4)
    } else if score == 17 {
        ChaMods::of(21, 3, 7, 4, 4)
    } else if score == 18 {
        ChaMods::of(28, 4, 8, 4, 4)
    } else if score == 19 {
        ChaMods::of(36, 4, 9, 5, 4)
    } else if score == 20 {
        ChaMods::of(45, 5, 10, 5, 4)
    } else if score == 21 {
        ChaMods::of(55, 5, 11, 6, 5)
    } else if score == 22 {
        ChaMods::of(66, 6, 12, 6, 5)
    } else if score == 23 {
        ChaMods::of(78, 6, 13, 7, 5)
    } else if score == 24 {
        ChaMods::of(91, 7, 14, 7, 5)
    } else if score == 25 {
        ChaMods::of(105, 7, 15, 8, 6)
    } else {
        ChaMods::of(0, 0, 0, 0, 0)
    }
}

/// What a charisma score gives. A score that the table lacks gives nothing.
pub fn lookup_cha(score: u8) -> (mods: ChaMods)
    ensures
        mods == cha_mods(score),
{
    if score == 1 {
        ChaMods::new(0, -6, -9, -5, 0)
    } else if score == 2 {
        ChaMods::new(0, -5, -8, -4, 1)
    } else if score == 3 {
        ChaMods::new(0, -4, -7, -4, 1)
    } else if score == 4 {
        ChaMods::new(0, -3, -6, -3, 1)
    } else if score == 5 {
        ChaMods::new(0, -3, -5, -3, 1)
    } else if score == 6 {
        ChaMods::new(0, -2, -4, -2, 2)
    } else if score == 7 {
        ChaMods::new(0, -2, -3, -2, 2)
    } else if score == 8 {
        ChaMods::new(0, -1, -2, -1, 2)
    } else if score == 9 {
        ChaMods::new(0, -1, -1, -1, 2)
    } else if score == 10 {
        ChaMods::new(0, 0, 0, 0, 3)
    } else if score == 11 {
        ChaMods::new(0, 0, 1, 1, 3)
    } else if score == 12 {
        ChaMods::new(1, 1, 2, 1, 3)
    } else if score == 13 {
        ChaMods::new(3, 1, 3, 2, 3)
    } else if score == 14 {
        ChaMods::new(6, 2, 4, 2, 3)
    } else if score == 15 {
        ChaMods::new(10, 2, 5, 3, 3)
    } else if score == 16 {
        ChaMods::new(15, 3, 6, 3, 4)
    } else if score == 17 {
        ChaMods::new(21, 3, 7, 4, 4)
    } else if score == 18 {
        ChaMods::new(28, 4, 8, 4, 4)
    } else if score == 19 {
        ChaMods::new(36, 4, 9, 5, 4)
    } else if score == 20 {
        ChaMods::new(45, 5, 10, 5, 4)
    } else if score == 21 {
        ChaMods::new(55, 5, 11, 6, 5)
    } else if score == 22 {
        ChaMods::new(66, 6, 12, 6, 5)
    } else if score == 23 {
        ChaMods::new(78, 6, 13, 7, 5)
    } else if score == 24 {
        ChaMods::new(91, 7, 14, 7, 5)
    } else if score == 25 {
        ChaMods::new(105, 7, 15, 8, 6)
    } else {
        ChaMods::new(0, 0, 0, 0, 0)
    }
}

/// What a set of ability scores gives: each score looked up in its table.
pub open spec fn derived_of(abilities: AbilitySet) -> AbilityDerived {
    AbilityDerived {
        strength: strength_mods(abilities.strength),
        dexterity: dex_mods(abilities.dexterity),
        intelligence: int_mods(abilities.intelligence),
        wisdom: wis_mods(abilities.wisdom),
        constitution: con_mods(abilities.constitution),
        looks: looks_mods(abilities.looks),
        charisma: cha_mods(abilities.charisma),
    }
}

/// What a set of ability scores gives.
pub fn derive_abilities(abilities: &AbilitySet) -> (derived: AbilityDerived)
    ensures
        derived == derived_of(*abilities),
{
    AbilityDerived {
        strength: lookup_strength(&abilities.strength),
        dexterity: lookup_dex(&abilities.dexterity),
        intelligence: lookup_int(abilities.intelligence),
        wisdom: lookup_wis(abilities.wisdom),
        constitution: lookup_con(abilities.constitution),
        looks: lookup_looks(abilities.looks),
        charisma: lookup_cha(abilities.charisma),
    }
}

/// The row of a level in the advancement tables: levels below 1 count as 1,
/// levels above 20 as 20.
pub open spec fn level_row(level: u8) -> int {
    if level < 1 {
        0
    } else if level > 20 {
        19
    } else {
        level - 1
    }
}

fn row_of(level: u8) -> (row: usize)
    ensures
        row == level_row(level),
        row < 20,
{
    if level < 1 {
        0
    } else if level > 20 {
        19
    } else {
        (level - 1) as usize
    }
}

/// The attack bonus by level, one column for each tier.
pub open spec fn attack_row(row: int) -> Seq<int> {
    if row == 0 {
        seq![0, 0, 0, 0, 1, 1]
    } else if row == 1 {
        seq![0, 0, 0, 0, 1, 1]
    } else if row == 2 {
        seq![0, 0, 1, 1, 2, 2]
    } else if row == 3 {
        seq![0, 1, 1, 1, 2, 2]
    } else if row == 4 {
        seq![1, 1, 2, 2, 3, 3]
    } else if row == 5 {
        seq![1, 1, 2, 2, 3, 3]
    } else if row == 6 {
        seq![1, 1, 2, 3, 4, 4]
    } else if row == 7 {
        seq![1, 2, 3, 3, 4, 4]
    } else if row == 8 {
        seq![1, 2, 3, 4, 5, 5]
    } else if row == 9 {
        seq![1, 2, 3, 4, 5, 5]
    } else if row == 10 {
        seq![2, 2, 4, 5, 6, 6]
    } else if row == 11 {
        seq![2, 3, 4, 5, 6, 7]
    } else if row == 12 {
        seq![2, 3, 4, 6, 7, 7]
    } else if row == 13 {
        seq![2, 3, 5, 6, 7, 8]
    } else if row == 14 {
        seq![2, 3, 5, 7, 8, 9]
    } else if row == 15 {
        seq![2, 4, 5, 7, 8, 9]
    } else if row == 16 {
        seq![3, 4, 6, 8, 9, 10]
    } else if row == 17 {
        seq![3, 4, 6, 8, 9, 11]
    } else if row == 18 {
        seq![3, 4, 6, 9, 10, 11]
    } else {
        seq![3, 5, 7, 9, 10, 12]
    }
}

fn attack_cells(row: usize) -> (cells: [i32; 6])
    requires
        row < 20,
    ensures
        cells@.len() == 6,
        forall|i: int| 0 <= i < 6 ==> cells@[i] == #[trigger] attack_row(row as int)[i],
{
    if row == 0 {
        [0, 0, 0, 0, 1, 1]
    } else if row == 1 {
        [0, 0, 0, 0, 1, 1]
    } else if row == 2 {
        [0, 0, 1, 1, 2, 2]
    } else if row == 3 {
        [0, 1, 1, 1, 2, 2]
    } else if row == 4 {
        [1, 1, 2, 2, 3, 3]
    } else if row == 5 {
        [1, 1, 2, 2, 3, 3]
    } else if row == 6 {
        [1, 1, 2, 3, 4, 4]
    } else if row == 7 {
        [1, 2, 3, 3, 4, 4]
    } else if row == 8 {
        [1, 2, 3, 4, 5, 5]
    } else if row == 9 {
        [1, 2, 3, 4, 5, 5]
    } else if row == 10 {
        [2, 2, 4, 5, 6, 6]
    } else if row == 11 {
        [2, 3, 4, 5, 6, 7]
    } else if row == 12 {
        [2, 3, 4, 6, 7, 7]
    } else if row == 13 {
        [2, 3, 5, 6, 7, 8]
    } else if row == 14 {
        [2, 3, 5, 7, 8, 9]
    } else if row == 15 {
        [2, 4, 5, 7, 8, 9]
    } else if row == 16 {
        [3, 4, 6, 8, 9, 10]
    } else if row == 17 {
        [3, 4, 6, 8, 9, 11]
    } else if row == 18 {
        [3, 4, 6, 9, 10, 11]
    } else {
        [3, 5, 7, 9, 10, 12]
    }
}

/// The speed modifier by level, one column for each tier.
pub open spec fn speed_row(row: int) -> Seq<int> {
    if row == 0 {
        seq![1, 0, 0, 0, 0, 0]
    } else if row == 1 {
        seq![1, 0, 0, 0, 0, 0]
    } else if row == 2 {
        seq![1, 0, 0, 0, 0, 0]
    } else if row == 3 {
        seq![1, 0, 0, 0, 0, -1]
    } else if row == 4 {
        seq![1, 0, 0, 0, -1, -1]
    } else if row == 5 {
        seq![1, 0, 0, 0, -1, -1]
    } else if row == 6 {
        seq![1, 0, -1, -1, -1, -1]
    } else if row == 7 {
        seq![1, 0, -1, -1, -1, -2]
    } else if row == 8 {
        seq![1, 0, -1, -1, -2, -2]
    } else if row == 9 {
        seq![1, 0, -1, -1, -2, -2]
    } else if row == 10 {
        seq![0, -1, -1, -2, -2, -3]
    } else if row == 11 {
        seq![0, -1, -1, -2, -2, -3]
    } else if row == 12 {
        seq![0, -1, -1, -2, -2, -3]
    } else if row == 13 {
        seq![0, -1, -2, -2, -3, -3]
    } else if row == 14 {
        seq![0, -1, -2, -2, -3, -4]
    } else if row == 15 {
        seq![0, -1, -2, -3, -3, -4]
    } else if row == 16 {
        seq![0, -1, -2, -3, -3, -4]
    } else if row == 17 {
        seq![0, -1, -2, -3, -3, -4]
    } else if row == 18 {
        seq![0, -1, -2, -3, -3, -4]
    } else {
        seq![0, -1, -2, -3, -4, -5]
    }
}

fn speed_cells(row: usize) -> (cells: [i32; 6])
    requires
        row < 20,
    ensures
        cells@.len() == 6,
        forall|i: int| 0 <= i < 6 ==> cells@[i] == #[trigger] speed_row(row as int)[i],
{
    if row == 0 {
        [1, 0, 0, 0, 0, 0]
    } else if row == 1 {
        [1, 0, 0, 0, 0, 0]
    } else if row == 2 {
        [1, 0, 0, 0, 0, 0]
    } else if row == 3 {
        [1, 0, 0, 0, 0, -1]
    } else if row == 4 {
        [1, 0, 0, 0, -1, -1]
    } else if row == 5 {
        [1, 0, 0, 0, -1, -1]
    } else if row == 6 {
        [1, 0, -1, -1, -1, -1]
    } else if row == 7 {
        [1, 0, -1, -1, -1, -2]
    } else if row == 8 {
        [1, 0, -1, -1, -2, -2]
    } else if row == 9 {
        [1, 0, -1, -1, -2, -2]
    } else if row == 10 {
        [0, -1, -1, -2, -2, -3]
    } else if row == 11 {
        [0, -1, -1, -2, -2, -3]
    } else if row == 12 {
        [0, -1, -1, -2, -2, -3]
    } else if row == 13 {
        [0, -1, -2, -2, -3, -3]
    } else if row == 14 {
        [0, -1, -2, -2, -3, -4]
    } else if row == 15 {
        [0, -1, -2, -3, -3, -4]
    } else if row == 16 {
        [0, -1, -2, -3, -3, -4]
    } else if row == 17 {
        [0, -1, -2, -3, -3, -4]
    } else if row == 18 {
        [0, -1, -2, -3, -3, -4]
    } else {
        [0, -1, -2, -3, -4, -5]
    }
}

/// The initiative modifier by level, one column for each of five tiers.
pub open spec fn initiative_row(row: int) -> Seq<int> {
    if row == 0 {
        seq![2, 1, 0, 0, -1]
    } else if row == 1 {
        seq![2, 1, 0, 0, -1]
    } else if row == 2 {
        seq![2, 1, 0, 0, -1]
    } else if row == 3 {
        seq![2, 1, 0, -1, -1]
    } else if row == 4 {
        seq![1, 1, 0, -1, -2]
    } else if row == 5 {
        seq![1, 0, -1, -1, -2]
    } else if row == 6 {
        seq![1, 0, -1, -1, -2]
    } else if row == 7 {
        seq![1, 0, -1, -2, -2]
    } else if row == 8 {
        seq![1, 0, -1, -2, -2]
    } else if row == 9 {
        seq![1, 0, -1, -2, -3]
    } else if row == 10 {
        seq![0, 0, -1, -2, -3]
    } else if row == 11 {
        seq![0, -1, -2, -2, -3]
    } else if row == 12 {
        seq![0, -1, -2, -2, -3]
    } else if row == 13 {
        seq![0, -1, -2, -3, -3]
    } else if row == 14 {
        seq![0, -1, -2, -3, -3]
    } else if row == 15 {
        seq![0, -1, -2, -3, -4]
    } else if row == 16 {
        seq![0, -1, -2, -3, -4]
    } else if row == 17 {
        seq![0, -1, -2, -3, -4]
    } else if row == 18 {
        seq![-1, -2, -3, -3, -4]
    } else {
        seq![-1, -2, -3, -3, -4]
    }
}

fn initiative_cells(row: usize) -> (cells: [i32; 5])
    requires
        row < 20,
    ensures
        cells@.len() == 5,
        forall|i: int| 0 <= i < 5 ==> cells@[i] == #[trigger] initiative_row(row as int)[i],
{
    if row == 0 {
        [2, 1, 0, 0, -1]
    } else if row == 1 {
        [2, 1, 0, 0, -1]
    } else if row == 2 {
        [2, 1, 0, 0, -1]
    } else if row == 3 {
        [2, 1, 0, -1, -1]
    } else if row == 4 {
        [1, 1, 0, -1, -2]
    } else if row == 5 {
        [1, 0, -1, -1, -2]
    } else if row == 6 {
        [1, 0, -1, -1, -2]
    } else if row == 7 {
        [1, 0, -1, -2, -2]
    } else if row == 8 {
        [1, 0, -1, -2, -2]
    } else if row == 9 {
        [1, 0, -1, -2, -3]
    } else if row == 10 {
        [0, 0, -1, -2, -3]
    } else if row == 11 {
        [0, -1, -2, -2, -3]
    } else if row == 12 {
        [0, -1, -2, -2, -3]
    } else if row == 13 {
        [0, -1, -2, -3, -3]
    } else if row == 14 {
        [0, -1, -2, -3, -3]
    } else if row == 15 {
        [0, -1, -2, -3, -4]
    } else if row == 16 {
        [0, -1, -2, -3, -4]
    } else if row == 17 {
        [0, -1, -2, -3, -4]
    } else if row == 18 {
        [-1, -2, -3, -3, -4]
    } else {
        [-1, -2, -3, -3, -4]
    }
}

/// The steps by which the initiative die is better than the standard one, by
/// level, one column for each of five tiers.
pub open spec fn initiative_die_steps(row: int) -> Seq<int> {
    if row == 0 {
        seq![0, 0, 0, 0, 0]
    } else if row == 1 {
        seq![0, 0, 0, 0, 1]
    } else if row == 2 {
        seq![0, 0, 0, 0, 1]
    } else if row == 3 {
        seq![0, 0, 0, 1, 1]
    } else if row == 4 {
        seq![0, 0, 0, 1, 2]
    } else if row == 5 {
        seq![0, 0, 1, 1, 2]
    } else if row == 6 {
        seq![0, 0, 1, 1, 2]
    } else if row == 7 {
        seq![0, 1, 1, 2, 2]
    } else if row == 8 {
        seq![0, 1, 1, 2, 2]
    } else if row == 9 {
        seq![0, 1, 1, 2, 2]
    } else if row == 10 {
        seq![0, 1, 2, 2, 3]
    } else if row == 11 {
        seq![0, 1, 2, 2, 3]
    } else if row == 12 {
        seq![0, 1, 2, 2, 3]
    } else if row == 13 {
        seq![0, 1, 2, 3, 3]
    } else if row == 14 {
        seq![0, 1, 2, 3, 3]
    } else if row == 15 {
        seq![0, 1, 2, 3, 3]
    } else if row == 16 {
        seq![0, 1, 2, 3, 3]
    } else if row == 17 {
        seq![0, 1, 2, 3, 4]
    } else if row == 18 {
        seq![0, 1, 2, 3, 4]
    } else {
        seq![0, 1, 2, 3, 4]
    }
}

fn initiative_die_cells(row: usize) -> (cells: [i32; 5])
    requires
        row < 20,
    ensures
        cells@.len() == 5,
        forall|i: int| 0 <= i < 5 ==> cells@[i] == #[trigger] initiative_die_steps(row as int)[i],
{
    if row == 0 {
        [0, 0, 0, 0, 0]
    } else if row == 1 {
        [0, 0, 0, 0, 1]
    } else if row == 2 {
        [0, 0, 0, 0, 1]
    } else if row == 3 {
        [0, 0, 0, 1, 1]
    } else if row == 4 {
        [0, 0, 0, 1, 2]
    } else if row == 5 {
        [0, 0, 1, 1, 2]
    } else if row == 6 {
        [0, 0, 1, 1, 2]
    } else if row == 7 {
        [0, 1, 1, 2, 2]
    } else if row == 8 {
        [0, 1, 1, 2, 2]
    } else if row == 9 {
        [0, 1, 1, 2, 2]
    } else if row == 10 {
        [0, 1, 2, 2, 3]
    } else if row == 11 {
        [0, 1, 2, 2, 3]
    } else if row == 12 {
        [0, 1, 2, 2, 3]
    } else if row == 13 {
        [0, 1, 2, 3, 3]
    } else if row == 14 {
        [0, 1, 2, 3, 3]
    } else if row == 15 {
        [0, 1, 2, 3, 3]
    } else if row == 16 {
        [0, 1, 2, 3, 3]
    } else if row == 17 {
        [0, 1, 2, 3, 4]
    } else if row == 18 {
        [0, 1, 2, 3, 4]
    } else {
        [0, 1, 2, 3, 4]
    }
}

/// The standard quality of an initiative die.
pub fn q() -> (quality: InitiativeDieQuality)
    ensures
        quality == InitiativeDieQuality::Standard,
{
    InitiativeDieQuality::Standard
}

/// The attack bonus of a character of this level and tier.
pub fn attack_bonus_for(level: u8, tier: ProgressionTier) -> (bonus: i32)
    ensures
        bonus == attack_row(level_row(level))[tier.column()],
{
    let cells = attack_cells(row_of(level));
    cells[tier.attack_index()]
}

/// The speed modifier of a character of this level and tier.
pub fn speed_mod_for(level: u8, tier: ProgressionTier) -> (modifier: i32)
    ensures
        modifier == speed_row(level_row(level))[tier.column()],
{
    let cells = speed_cells(row_of(level));
    cells[tier.speed_index()]
}

/// The initiative modifier of a character of this level and tier.
pub fn initiative_mod_for(level: u8, tier: ProgressionTier) -> (modifier: i32)
    ensures
        modifier == initiative_row(level_row(level))[tier.narrow_column()],
{
    let cells = initiative_cells(row_of(level));
    cells[tier.initiative_index()]
}

/// The quality of a die that is better than the standard one by `steps`
/// steps.
pub open spec fn quality_of(steps: int) -> InitiativeDieQuality {
    if steps <= 0 {
        InitiativeDieQuality::Standard
    } else if steps == 1 {
        InitiativeDieQuality::OneBetter
    } else if steps == 2 {
        InitiativeDieQuality::TwoBetter
    } else if steps == 3 {
        InitiativeDieQuality::ThreeBetter
    } else {
        InitiativeDieQuality::FourBetter
    }
}

/// The quality of the initiative die of a character of this level and tier.
pub open spec fn initiative_die_of(level: u8, tier: ProgressionTier) -> InitiativeDieQuality {
    quality_of(initiative_die_steps(level_row(level))[tier.narrow_column()])
}

/// The quality of the initiative die of a character of this level and tier.
pub fn initiative_die_for(level: u8, tier: ProgressionTier) -> (quality: InitiativeDieQuality)
    ensures
        quality == initiative_die_of(level, tier),
{
    let cells = initiative_die_cells(row_of(level));
    let steps = cells[tier.initiative_index()];
    if steps <= 0 {
        q()
    } else if steps == 1 {
        InitiativeDieQuality::OneBetter
    } else if steps == 2 {
        InitiativeDieQuality::TwoBetter
    } else if steps == 3 {
        InitiativeDieQuality::ThreeBetter
    } else {
        InitiativeDieQuality::FourBetter
    }
}

} // verus!
