//! What the engine and its callers need to know of weapons and materials
//! beside the range bands: sizes, grips, the bonuses of materials, and the
//! names under which catalogs list them.

use crate::character::{ArmorRegion, ArmorType, ProgressionTier, WeaponGroup};
use crate::range::{is_ranged, is_ranged_weapon};
use crate::expr::sat32;
use crate::combatant::text_of;
use crate::text::{str_eq, to_chars};
use crate::units::{min_of, Milli};
use vstd::prelude::*;
use vstd::string::*;

verus! {

/// The size of a weapon.
#[derive(Clone, Copy, Debug, PartialEq, Eq, Structural)]
pub enum WeaponSize {
    Small,
    Medium,
    Large,
}

/// How many hands a weapon is made for.
#[derive(Clone, Copy, Debug, PartialEq, Eq, Structural)]
pub enum WeaponHandedness {
    OneHanded,
    TwoHanded,
}

/// A ready-made opponent, whose numbers replace those that a character's
/// scores would give.
#[derive(Clone, Debug)]
pub struct NpcPreset {
    pub name: String,
    pub hp: i32,
    pub attack_bonus: i32,
    pub damage_bonus: i32,
    pub defense_mod: i32,
    pub armor_dr: i32,
    pub top: i32,
}

/// The numbers that go into a fighter's rolls.
#[derive(Clone, Copy, Debug, PartialEq, Eq, Structural)]
pub struct RollSummary {
    pub attack_bonus: i32,
    pub strength_damage: i32,
    pub is_ranged_weapon: bool,
}

/// Whether a weapon shoots projectiles: it has ammunition, or it is a sling.
pub fn uses_projectiles(weapon_name: &str, has_ammo: bool) -> (yes: bool)
    ensures
        yes == (has_ammo || weapon_name@ == "Sling"@),
{
    has_ammo || str_eq(weapon_name, "Sling")
}

/// A material tier as it counts: not below 0, not above 5.
pub open spec fn tier_of(tier: int) -> int {
    if tier < 0 {
        0
    } else if tier > 5 {
        5
    } else {
        tier
    }
}

fn counted_tier(tier: i32) -> (counted: i32)
    ensures
        counted == tier_of(tier as int),
{
    if tier < 0 {
        0
    } else if tier > 5 {
        5
    } else {
        tier
    }
}

/// The bonuses that materials give to attack and to damage. A ranged weapon
/// that shoots projectiles attacks with the projectile's tier and damages
/// with both tiers; any other weapon has its own tier for both.
pub fn material_bonuses(
    weapon_tier: i32,
    projectile_tier: i32,
    is_ranged: bool,
    uses_projectiles: bool,
) -> (bonuses: (i32, i32))
    ensures
        is_ranged && uses_projectiles ==> bonuses.0 == tier_of(projectile_tier as int) && bonuses.1
            == tier_of(weapon_tier as int) + tier_of(projectile_tier as int),
        !(is_ranged && uses_projectiles) ==> bonuses.0 == tier_of(weapon_tier as int) && bonuses.1
            == tier_of(weapon_tier as int),
{
    let weapon_tier = counted_tier(weapon_tier);
    let projectile_tier = counted_tier(projectile_tier);
    if is_ranged && uses_projectiles {
        (projectile_tier, weapon_tier + projectile_tier)
    } else {
        (weapon_tier, weapon_tier)
    }
}

/// The strength bonus to damage with a weapon: none with a ranged weapon.
pub fn strength_damage_for_weapon(weapon_name: &str, base: i32) -> (bonus: i32)
    ensures
        bonus == if is_ranged(weapon_name@) {
            0
        } else {
            base
        },
{
    if is_ranged_weapon(weapon_name) {
        0
    } else {
        base
    }
}

/// Whether a weapon may be gripped with two hands though made for one: it is
/// of medium or large size.
pub open spec fn can_two_hand(size: WeaponSize, handedness: WeaponHandedness) -> bool {
    handedness == WeaponHandedness::OneHanded && (size == WeaponSize::Medium || size
        == WeaponSize::Large)
}

/// Whether a fighter grips its weapon with two hands: the weapon is made for
/// two, or it may be gripped so and the fighter chooses to.
pub open spec fn grips_two_handed(
    size: WeaponSize,
    handedness: WeaponHandedness,
    chosen: bool,
) -> bool {
    handedness == WeaponHandedness::TwoHanded || (chosen && can_two_hand(size, handedness))
}

/// Whether a fighter grips its weapon with two hands.
pub fn effective_two_hand(size: WeaponSize, handedness: WeaponHandedness, chosen: bool) -> (yes:
    bool)
    ensures
        yes == grips_two_handed(size, handedness, chosen),
{
    match handedness {
        WeaponHandedness::TwoHanded => true,
        WeaponHandedness::OneHanded => chosen && match size {
            WeaponSize::Small => false,
            WeaponSize::Medium => true,
            WeaponSize::Large => true,
        },
    }
}

/// The damage that a two-handed grip adds to a weapon made for one hand:
/// three, and nothing to a weapon made for two.
pub fn two_hand_damage_bonus(
    size: WeaponSize,
    handedness: WeaponHandedness,
    chosen: bool,
) -> (bonus: i32)
    ensures
        bonus == if chosen && can_two_hand(size, handedness) {
            3int
        } else {
            0int
        },
{
    match handedness {
        WeaponHandedness::TwoHanded => 0,
        WeaponHandedness::OneHanded => if chosen {
            match size {
                WeaponSize::Small => 0,
                WeaponSize::Medium => 3,
                WeaponSize::Large => 3,
            }
        } else {
            0
        },
    }
}

/// The weapon group that a catalog names.
pub open spec fn group_named(name: Seq<char>) -> Option<WeaponGroup> {
    if name == "Unarmed"@ {
        Some(WeaponGroup::Unarmed)
    } else if name == "Axes"@ {
        Some(WeaponGroup::Axes)
    } else if name == "Basic"@ {
        Some(WeaponGroup::Basic)
    } else if name == "Blunt"@ {
        Some(WeaponGroup::Blunt)
    } else if name == "Bows"@ {
        Some(WeaponGroup::Bows)
    } else if name == "Crossbows"@ {
        Some(WeaponGroup::Crossbows)
    } else if name == "Double"@ {
        Some(WeaponGroup::Double)
    } else if name == "Ensnaring"@ {
        Some(WeaponGroup::Ensnaring)
    } else if name == "Lashes"@ {
        Some(WeaponGroup::Lashes)
    } else if name == "Large Swords"@ {
        Some(WeaponGroup::LargeSwords)
    } else if name == "Small Swords"@ {
        Some(WeaponGroup::SmallSwords)
    } else if name == "Polearms"@ {
        Some(WeaponGroup::Polearms)
    } else if name == "Spears"@ {
        Some(WeaponGroup::Spears)
    } else if name == "Shields"@ {
        Some(WeaponGroup::Shields)
    } else {
        None
    }
}

/// The weapon group that a catalog names, or `None` for an unknown name.
pub fn weapon_group_from_str(group: &str) -> (found: Option<WeaponGroup>)
    ensures
        found == group_named(group@),
{
    if str_eq(group, "Unarmed") {
        Some(WeaponGroup::Unarmed)
    } else if str_eq(group, "Axes") {
        Some(WeaponGroup::Axes)
    } else if str_eq(group, "Basic") {
        Some(WeaponGroup::Basic)
    } else if str_eq(group, "Blunt") {
        Some(WeaponGroup::Blunt)
    } else if str_eq(group, "Bows") {
        Some(WeaponGroup::Bows)
    } else if str_eq(group, "Crossbows") {
        Some(WeaponGroup::Crossbows)
    } else if str_eq(group, "Double") {
        Some(WeaponGroup::Double)
    } else if str_eq(group, "Ensnaring") {
        Some(WeaponGroup::Ensnaring)
    } else if str_eq(group, "Lashes") {
        Some(WeaponGroup::Lashes)
    } else if str_eq(group, "Large Swords") {
        Some(WeaponGroup::LargeSwords)
    } else if str_eq(group, "Small Swords") {
        Some(WeaponGroup::SmallSwords)
    } else if str_eq(group, "Polearms") {
        Some(WeaponGroup::Polearms)
    } else if str_eq(group, "Spears") {
        Some(WeaponGroup::Spears)
    } else if str_eq(group, "Shields") {
        Some(WeaponGroup::Shields)
    } else {
        None
    }
}

/// The armor region that a catalog names, or `None` for an unknown name.
pub fn armor_region_from_str(region: &str) -> (found: Option<ArmorRegion>)
    ensures
        found == if region@ == "Northern"@ {
            Some(ArmorRegion::Northern)
        } else if region@ == "Southern"@ {
            Some(ArmorRegion::Southern)
        } else {
            None
        },
{
    if str_eq(region, "Northern") {
        Some(ArmorRegion::Northern)
    } else if str_eq(region, "Southern") {
        Some(ArmorRegion::Southern)
    } else {
        None
    }
}

/// The armor type that a catalog names, or `None` for an unknown name.
pub fn armor_type_from_str(kind: &str) -> (found: Option<ArmorType>)
    ensures
        found == if kind@ == "None"@ {
            Some(ArmorType::Unarmored)
        } else if kind@ == "Light"@ {
            Some(ArmorType::Light)
        } else if kind@ == "Medium"@ {
            Some(ArmorType::Medium)
        } else if kind@ == "Heavy"@ {
            Some(ArmorType::Heavy)
        } else {
            None
        },
{
    if str_eq(kind, "None") {
        Some(ArmorType::Unarmored)
    } else if str_eq(kind, "Light") {
        Some(ArmorType::Light)
    } else if str_eq(kind, "Medium") {
        Some(ArmorType::Medium)
    } else if str_eq(kind, "Heavy") {
        Some(ArmorType::Heavy)
    } else {
        None
    }
}

/// The weapon size that a catalog names by a letter, or `None` for an
/// unknown one.
pub fn weapon_size_from_str(size: &str) -> (found: Option<WeaponSize>)
    ensures
        found == if size@ == "S"@ {
            Some(WeaponSize::Small)
        } else if size@ == "M"@ {
            Some(WeaponSize::Medium)
        } else if size@ == "L"@ {
            Some(WeaponSize::Large)
        } else {
            None
        },
{
    if str_eq(size, "S") {
        Some(WeaponSize::Small)
    } else if str_eq(size, "M") {
        Some(WeaponSize::Medium)
    } else if str_eq(size, "L") {
        Some(WeaponSize::Large)
    } else {
        None
    }
}

/// The grip that a catalog names, or `None` for an unknown name.
pub fn weapon_handedness_from_str(handedness: &str) -> (found: Option<WeaponHandedness>)
    ensures
        found == if handedness@ == "1h"@ {
            Some(WeaponHandedness::OneHanded)
        } else if handedness@ == "2h"@ {
            Some(WeaponHandedness::TwoHanded)
        } else {
            None
        },
{
    if str_eq(handedness, "1h") {
        Some(WeaponHandedness::OneHanded)
    } else if str_eq(handedness, "2h") {
        Some(WeaponHandedness::TwoHanded)
    } else {
        None
    }
}

/// A tier written as a Roman numeral.
pub fn tier_label(tier: ProgressionTier) -> (label: &'static str)
    ensures
        label@ == match tier {
            ProgressionTier::I => "I"@,
            ProgressionTier::II => "II"@,
            ProgressionTier::III => "III"@,
            ProgressionTier::IV => "IV"@,
            ProgressionTier::V => "V"@,
            ProgressionTier::VI => "VI"@,
        },
{
    match tier {
        ProgressionTier::I => "I",
        ProgressionTier::II => "II",
        ProgressionTier::III => "III",
        ProgressionTier::IV => "IV",
        ProgressionTier::V => "V",
        ProgressionTier::VI => "VI",
    }
}

/// A kind of armor. The weight is in thousandths of a pound.
#[derive(Clone, Debug)]
pub struct Armor {
    pub name: String,
    pub region: ArmorRegion,
    pub damage_reduction: i32,
    pub defense_adj: i32,
    pub initiative_mod: i32,
    pub speed_mod: i32,
    pub armor_type: ArmorType,
    pub weight_lbs: Milli,
}

/// An armor's damage reduction with a material of the given tier: it grows by
/// the tier, as far as an `i32` can follow.
pub open spec fn reduction_with(damage_reduction: int, tier: int) -> int {
    sat32(damage_reduction + tier_of(tier))
}

/// An armor's defense adjustment with a material of the given tier: a penalty
/// shrinks by the tier, but turns into no bonus.
pub open spec fn adjustment_with(defense_adj: int, tier: int) -> int {
    if defense_adj < 0 && tier_of(tier) > 0 {
        min_of(defense_adj + tier_of(tier), 0)
    } else {
        defense_adj
    }
}

/// The armor made of a material of the given tier.
pub open spec fn armor_made(armor: Armor, tier: int) -> Armor {
    Armor {
        damage_reduction: reduction_with(armor.damage_reduction as int, tier) as i32,
        defense_adj: adjustment_with(armor.defense_adj as int, tier) as i32,
        ..armor
    }
}

/// The armor made of a material of the given tier.
pub fn apply_armor_material_tier(armor: Armor, tier: i32) -> (made: Armor)
    ensures
        made == armor_made(armor, tier as int),
{
    let tier = counted_tier(tier);
    let mut armor = armor;
    if tier > 0 {
        let grown: i64 = armor.damage_reduction as i64 + tier as i64;
        armor.damage_reduction = if grown > i32::MAX as i64 {
            i32::MAX
        } else {
            grown as i32
        };
        if armor.defense_adj < 0 {
            let eased = armor.defense_adj + tier;
            armor.defense_adj = if eased > 0 {
                0
            } else {
                eased
            };
        }
    }
    armor
}

impl Armor {
    /// A copy of the armor.
    pub fn copy(&self) -> (copy: Armor)
        ensures
            copy == *self,
    {
        Armor {
            name: self.name.clone(),
            region: self.region,
            damage_reduction: self.damage_reduction,
            defense_adj: self.defense_adj,
            initiative_mod: self.initiative_mod,
            speed_mod: self.speed_mod,
            armor_type: self.armor_type,
            weight_lbs: self.weight_lbs,
        }
    }
}

/// The categories under which weapons are compared.
#[derive(Clone, Copy, Debug, PartialEq, Eq, Hash, Structural)]
pub enum WeaponCategory {
    Unarmed,
    Axes,
    Blunt,
    Basic,
    Bows,
    Crossbows,
    Double,
    Ensnaring,
    Lashes,
    LargeSwords,
    SmallSwords,
    Polearms,
    Spears,
}

impl WeaponCategory {
    /// The name of the category as a reader sees it.
    pub open spec fn label_of(self) -> Seq<char> {
        match self {
            WeaponCategory::Unarmed => "Unarmed"@,
            WeaponCategory::Axes => "Axes"@,
            WeaponCategory::Blunt => "Blunt Weapons"@,
            WeaponCategory::Basic => "Basic Weapons"@,
            WeaponCategory::Bows => "Bows"@,
            WeaponCategory::Crossbows => "Crossbows"@,
            WeaponCategory::Double => "Double Weapons"@,
            WeaponCategory::Ensnaring => "Ensnaring"@,
            WeaponCategory::Lashes => "Lashes"@,
            WeaponCategory::LargeSwords => "Large Swords"@,
            WeaponCategory::SmallSwords => "Small Swords"@,
            WeaponCategory::Polearms => "Polearms"@,
            WeaponCategory::Spears => "Spears"@,
        }
    }

    /// The name of the category as part of a file name.
    pub open spec fn slug_of(self) -> Seq<char> {
        match self {
            WeaponCategory::Unarmed => "unarmed"@,
            WeaponCategory::Axes => "axes"@,
            WeaponCategory::Blunt => "blunt"@,
            WeaponCategory::Basic => "basic"@,
            WeaponCategory::Bows => "bows"@,
            WeaponCategory::Crossbows => "crossbows"@,
            WeaponCategory::Double => "double"@,
            WeaponCategory::Ensnaring => "ensnaring"@,
            WeaponCategory::Lashes => "lashes"@,
            WeaponCategory::LargeSwords => "large_swords"@,
            WeaponCategory::SmallSwords => "small_swords"@,
            WeaponCategory::Polearms => "polearms"@,
            WeaponCategory::Spears => "spears"@,
        }
    }

    /// The name of the category as a reader sees it.
    pub fn label(&self) -> (label: &'static str)
        ensures
            label@ == self.label_of(),
    {
        match self {
            WeaponCategory::Unarmed => "Unarmed",
            WeaponCategory::Axes => "Axes",
            WeaponCategory::Blunt => "Blunt Weapons",
            WeaponCategory::Basic => "Basic Weapons",
            WeaponCategory::Bows => "Bows",
            WeaponCategory::Crossbows => "Crossbows",
            WeaponCategory::Double => "Double Weapons",
            WeaponCategory::Ensnaring => "Ensnaring",
            WeaponCategory::Lashes => "Lashes",
            WeaponCategory::LargeSwords => "Large Swords",
            WeaponCategory::SmallSwords => "Small Swords",
            WeaponCategory::Polearms => "Polearms",
            WeaponCategory::Spears => "Spears",
        }
    }

    /// The name of the category as part of a file name.
    pub fn slug(&self) -> (slug: &'static str)
        ensures
            slug@ == self.slug_of(),
    {
        match self {
            WeaponCategory::Unarmed => "unarmed",
            WeaponCategory::Axes => "axes",
            WeaponCategory::Blunt => "blunt",
            WeaponCategory::Basic => "basic",
            WeaponCategory::Bows => "bows",
            WeaponCategory::Crossbows => "crossbows",
            WeaponCategory::Double => "double",
            WeaponCategory::Ensnaring => "ensnaring",
            WeaponCategory::Lashes => "lashes",
            WeaponCategory::LargeSwords => "large_swords",
            WeaponCategory::SmallSwords => "small_swords",
            WeaponCategory::Polearms => "polearms",
            WeaponCategory::Spears => "spears",
        }
    }
}

/// Whether a weapon of this name, size and category may be used in the
/// two-handed mode of the comparison: the spear, and every weapon of medium
/// size that is no bow.
pub fn weapon_allows_two_handed_mode(
    name: &str,
    size: WeaponSize,
    category: WeaponCategory,
) -> (yes: bool)
    ensures
        yes == (name@ == "Spear"@ || (size == WeaponSize::Medium && category
            != WeaponCategory::Bows)),
{
    if str_eq(name, "Spear") {
        return true;
    }
    match size {
        WeaponSize::Medium => match category {
            WeaponCategory::Bows => false,
            _ => true,
        },
        _ => false,
    }
}

/// Whether the byte `b` is ASCII white space.
pub open spec fn is_blank(b: u8) -> bool {
    b == 32 || b == 9 || b == 10 || b == 12 || b == 13
}

/// The index of the first byte of `s` at or after `from` that is not ASCII
/// white space; the length of `s` if there is none.
pub open spec fn blanks_end(s: Seq<u8>, from: int) -> int
    decreases s.len() - from,
{
    if from < 0 || from >= s.len() {
        s.len() as int
    } else if !is_blank(s[from]) {
        from
    } else {
        blanks_end(s, from + 1)
    }
}

/// Whether a lone `3` stands at index `at` of `s`: a `3` that no digit
/// follows.
pub open spec fn lone_three_at(s: Seq<u8>, at: int) -> bool {
    &&& 0 <= at < s.len()
    &&& s[at] == 51
    &&& (at + 1 == s.len() || !(48 <= s[at + 1] <= 57))
}

/// Whether, reading the bytes `s` from index `idx`, a `+` is found that a
/// lone `3` follows, white space between them or not. The reading goes on
/// two bytes at a time, so that only every other byte is looked at, and
/// behind a `+` and its white space one byte further on: a `+` that is
/// passed over does not count.
pub open spec fn flat_three_from(s: Seq<u8>, idx: int) -> bool
    decreases s.len() - idx,
{
    if idx < 0 || idx >= s.len() {
        false
    } else if s[idx] == 43 {
        let after = blanks_end(s, idx + 1);
        if idx < after < s.len() {
            lone_three_at(s, after) || flat_three_from(s, after + 1)
        } else {
            false
        }
    } else if idx + 2 <= s.len() {
        flat_three_from(s, idx + 2)
    } else {
        false
    }
}

proof fn lemma_blanks_end_bounds(s: Seq<u8>, from: int)
    requires
        0 <= from <= s.len(),
    ensures
        from <= blanks_end(s, from) <= s.len(),
    decreases s.len() - from,
{
    if from < s.len() && is_blank(s[from]) {
        lemma_blanks_end_bounds(s, from + 1);
    }
}

/// Whether a damage expression is read as adding a flat three, as in
/// `2d6p+3`. The expression is read as the bytes of its UTF-8 form.
pub fn damage_expr_has_flat_three(expr: &str) -> (yes: bool)
    ensures
        yes == flat_three_from(expr.spec_bytes(), 0),
{
    let bytes = expr.as_bytes_vec();
    let n = bytes.len();
    let mut idx: usize = 0;
    while idx < n
        invariant
            n == bytes@.len(),
            bytes@ == expr.spec_bytes(),
            flat_three_from(bytes@, 0) == flat_three_from(bytes@, idx as int),
        decreases n - idx,
    {
        if bytes[idx] == 43 {
            let mut j: usize = idx + 1;
            while j < n && (bytes[j] == 32 || bytes[j] == 9 || bytes[j] == 10 || bytes[j] == 12
                || bytes[j] == 13)
                invariant
                    idx < j <= n == bytes@.len(),
                    blanks_end(bytes@, idx + 1) == blanks_end(bytes@, j as int),
                decreases n - j,
            {
                j = j + 1;
            }
            proof {
                lemma_blanks_end_bounds(bytes@, idx + 1);
            }
            if j < n && bytes[j] == 51 {
                if j + 1 == n || !(bytes[j + 1] >= 48 && bytes[j + 1] <= 57) {
                    return true;
                }
            }
            if j == n {
                return false;
            }
            idx = j + 1;
        } else if n - idx < 2 {
            return false;
        } else {
            idx = idx + 2;
        }
    }
    false
}

/// Whether `c` is white space: a character with the Unicode property
/// `White_Space`.
pub open spec fn is_space(c: char) -> bool {
    ||| c == ' '
    ||| ('\u{9}' <= c && c <= '\u{d}')
    ||| c == '\u{85}'
    ||| c == '\u{a0}'
    ||| c == '\u{1680}'
    ||| ('\u{2000}' <= c && c <= '\u{200a}')
    ||| c == '\u{2028}'
    ||| c == '\u{2029}'
    ||| c == '\u{202f}'
    ||| c == '\u{205f}'
    ||| c == '\u{3000}'
}

/// The index of the first character of `s` at or after `from` that is no
/// white space; the length of `s` if there is none.
pub open spec fn spaces_end(s: Seq<char>, from: int) -> int
    decreases s.len() - from,
{
    if from < 0 || from >= s.len() {
        s.len() as int
    } else if !is_space(s[from]) {
        from
    } else {
        spaces_end(s, from + 1)
    }
}

/// The index behind the last character of `s` before `to` that is no white
/// space; zero if there is none.
pub open spec fn spaces_start(s: Seq<char>, to: int) -> int
    decreases to,
{
    if to <= 0 || to > s.len() {
        0
    } else if !is_space(s[to - 1]) {
        to
    } else {
        spaces_start(s, to - 1)
    }
}

/// `s` without the white space at its start and at its end.
pub open spec fn trimmed(s: Seq<char>) -> Seq<char> {
    let from = spaces_end(s, 0);
    if from >= s.len() {
        Seq::empty()
    } else {
        s.subrange(from, spaces_start(s, s.len() as int))
    }
}

/// The index of the first `c` in `s`; the length of `s` if there is none.
pub open spec fn index_of(s: Seq<char>, c: char, from: int) -> int
    decreases s.len() - from,
{
    if from < 0 || from >= s.len() {
        s.len() as int
    } else if s[from] == c {
        from
    } else {
        index_of(s, c, from + 1)
    }
}

/// The label of a weapon's speed and the label of its jab speed. Where the
/// catalog gives a jab speed both labels are trimmed. Where it gives none and
/// the speed label holds a `(` before a `)`, with more than white space
/// between the first of each, the jab speed is what stands between them and
/// the speed what stands before the `(`, both trimmed. Otherwise the speed
/// label is trimmed and there is no jab speed.
pub open spec fn split_label(speed: Seq<char>, jab_speed: Option<Seq<char>>) -> (
    Seq<char>,
    Option<Seq<char>>,
) {
    match jab_speed {
        Some(jab) => (trimmed(speed), Some(trimmed(jab))),
        None => {
            let open = index_of(speed, '(', 0);
            let close = index_of(speed, ')', 0);
            if open < close < speed.len() && trimmed(speed.subrange(open + 1, close)).len() > 0 {
                (trimmed(speed.subrange(0, open)), Some(trimmed(speed.subrange(open + 1, close))))
            } else {
                (trimmed(speed), None)
            }
        },
    }
}

fn is_space_char(c: char) -> (yes: bool)
    ensures
        yes == is_space(c),
{
    c == ' ' || (c >= '\u{9}' && c <= '\u{d}') || c == '\u{85}' || c == '\u{a0}' || c
        == '\u{1680}' || (c >= '\u{2000}' && c <= '\u{200a}') || c == '\u{2028}' || c
        == '\u{2029}' || c == '\u{202f}' || c == '\u{205f}' || c == '\u{3000}'
}

fn position_of(chars: &Vec<char>, c: char) -> (at: usize)
    ensures
        at <= chars@.len(),
        at == index_of(chars@, c, 0),
{
    let mut i: usize = 0;
    while i < chars.len()
        invariant
            i <= chars@.len(),
            index_of(chars@, c, 0) == index_of(chars@, c, i as int),
        decreases chars@.len() - i,
    {
        if chars[i] == c {
            return i;
        }
        i = i + 1;
    }
    i
}

/// The characters `chars[lo..hi]` without the white space at their start and
/// at their end, as a string.
fn trim_range(chars: &Vec<char>, lo: usize, hi: usize) -> (text: String)
    requires
        lo <= hi <= chars@.len(),
    ensures
        text@ == trimmed(chars@.subrange(lo as int, hi as int)),
{
    let ghost s = chars@.subrange(lo as int, hi as int);
    let mut from: usize = lo;
    while from < hi && is_space_char(chars[from])
        invariant
            lo <= from <= hi <= chars@.len(),
            s == chars@.subrange(lo as int, hi as int),
            spaces_end(s, 0) == spaces_end(s, from - lo),
        decreases hi - from,
    {
        assert(s[from - lo] == chars@[from as int]);
        from = from + 1;
    }
    let mut text = String::new();
    if from == hi {
        return text;
    }
    assert(s[from - lo] == chars@[from as int]);
    let mut to: usize = hi;
    while to > from && is_space_char(chars[to - 1])
        invariant
            lo <= from < to <= hi <= chars@.len(),
            s == chars@.subrange(lo as int, hi as int),
            !is_space(chars@[from as int]),
            spaces_start(s, s.len() as int) == spaces_start(s, to - lo),
        decreases to,
    {
        assert(s[to - 1 - lo] == chars@[to - 1]);
        to = to - 1;
    }
    proof {
        assert(s[to - 1 - lo] == chars@[to - 1]);
    }
    let mut i: usize = from;
    while i < to
        invariant
            from <= i <= to <= chars@.len(),
            text@ == chars@.subrange(from as int, i as int),
        decreases to - i,
    {
        text.push(chars[i]);
        proof {
            assert(text@ =~= chars@.subrange(from as int, i + 1));
        }
        i = i + 1;
    }
    proof {
        assert(chars@.subrange(from as int, to as int) =~= s.subrange(from - lo, to - lo));
    }
    text
}

/// Splits the label of a weapon's speed into the speed and the jab speed,
/// which a catalog may give apart or in parentheses behind the speed, as in
/// `10 (7)`.
pub fn split_speed_label(speed: &str, jab_speed: Option<&str>) -> (labels: (String, Option<String>))
    ensures
        labels.0@ == split_label(speed@, match jab_speed {
            Some(jab) => Some(jab@),
            None => None,
        }).0,
        text_of(labels.1) == split_label(speed@, match jab_speed {
            Some(jab) => Some(jab@),
            None => None,
        }).1,
{
    let chars = to_chars(speed);
    let n = chars.len();
    proof {
        assert(chars@.subrange(0, n as int) =~= speed@);
    }
    match jab_speed {
        Some(jab) => {
            let other = to_chars(jab);
            proof {
                assert(other@.subrange(0, other@.len() as int) =~= jab@);
            }
            (trim_range(&chars, 0, n), Some(trim_range(&other, 0, other.len())))
        },
        None => {
            let open = position_of(&chars, '(');
            let close = position_of(&chars, ')');
            if open < close && close < n {
                let jab = trim_range(&chars, open + 1, close);
                if !jab.as_str().is_empty() {
                    return (trim_range(&chars, 0, open), Some(jab));
                }
            }
            (trim_range(&chars, 0, n), None)
        },
    }
}

} // verus!
