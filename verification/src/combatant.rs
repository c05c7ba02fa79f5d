//! One fighter: the combat record that the engine is given, and the small
//! state that the engine changes during an engagement.

use crate::units::Milli;
use vstd::prelude::*;

verus! {

/// One breakage threshold of a shield: raw shield damage of at least
/// `threshold` may break it. With a save modifier the defender may save the
/// shield by an opposed roll; without one the shield breaks.
#[derive(Clone, Copy, Debug, PartialEq, Eq, Structural)]
pub struct ShieldBreakageStep {
    pub threshold: i32,
    pub save_mod: Option<i32>,
}

/// A fighter. Lengths are in thousandths of a foot, times in thousandths of a
/// second.
#[derive(Clone, Debug)]
pub struct Combatant {
    pub name: String,
    pub weapon_name: String,
    pub attack_bonus: i32,
    pub defense_mod: i32,
    pub armor_dr: i32,
    pub armor_is_heavy: bool,
    pub armor_penetration: i32,
    pub damage_expr: String,
    pub shield_damage_expr: Option<String>,
    pub strength_damage: i32,
    pub weapon_speed: Milli,
    pub reach_ft: Milli,
    pub move_speed: Milli,
    pub two_hand_grip: bool,
    pub use_jab: bool,
    pub jab_special_expr: Option<String>,
    pub has_weapon: bool,
    pub weapon_defense_always: bool,
    pub max_hp: i32,
    pub hp: i32,
    pub next_attack_time: Option<Milli>,
    pub defense_plus_four_ready: bool,
    pub moved_last_tick: bool,
    pub shield_name: Option<String>,
    pub shield_defense_bonus: i32,
    pub shield_dr: i32,
    pub shield_cover_value: Option<i32>,
    pub shield_intact: bool,
    pub shield_breakage: Option<[ShieldBreakageStep; 4]>,
}

/// A fighter as the rules see it: texts as sequences of characters.
pub struct CombatantView {
    pub name: Seq<char>,
    pub weapon_name: Seq<char>,
    pub attack_bonus: i32,
    pub defense_mod: i32,
    pub armor_dr: i32,
    pub armor_is_heavy: bool,
    pub armor_penetration: i32,
    pub damage_expr: Seq<char>,
    pub shield_damage_expr: Option<Seq<char>>,
    pub strength_damage: i32,
    pub weapon_speed: Milli,
    pub reach_ft: Milli,
    pub move_speed: Milli,
    pub two_hand_grip: bool,
    pub use_jab: bool,
    pub jab_special_expr: Option<Seq<char>>,
    pub has_weapon: bool,
    pub weapon_defense_always: bool,
    pub max_hp: i32,
    pub hp: i32,
    pub next_attack_time: Option<Milli>,
    pub defense_plus_four_ready: bool,
    pub moved_last_tick: bool,
    pub shield_name: Option<Seq<char>>,
    pub shield_defense_bonus: i32,
    pub shield_dr: i32,
    pub shield_cover_value: Option<i32>,
    pub shield_intact: bool,
    pub shield_breakage: Option<[ShieldBreakageStep; 4]>,
}

/// The characters of an optional text.
pub open spec fn text_of(text: Option<String>) -> Option<Seq<char>> {
    match text {
        Some(s) => Some(s@),
        None => None,
    }
}

impl View for Combatant {
    type V = CombatantView;

    open spec fn view(&self) -> CombatantView {
        CombatantView {
            name: self.name@,
            weapon_name: self.weapon_name@,
            attack_bonus: self.attack_bonus,
            defense_mod: self.defense_mod,
            armor_dr: self.armor_dr,
            armor_is_heavy: self.armor_is_heavy,
            armor_penetration: self.armor_penetration,
            damage_expr: self.damage_expr@,
            shield_damage_expr: text_of(self.shield_damage_expr),
            strength_damage: self.strength_damage,
            weapon_speed: self.weapon_speed,
            reach_ft: self.reach_ft,
            move_speed: self.move_speed,
            two_hand_grip: self.two_hand_grip,
            use_jab: self.use_jab,
            jab_special_expr: text_of(self.jab_special_expr),
            has_weapon: self.has_weapon,
            weapon_defense_always: self.weapon_defense_always,
            max_hp: self.max_hp,
            hp: self.hp,
            next_attack_time: self.next_attack_time,
            defense_plus_four_ready: self.defense_plus_four_ready,
            moved_last_tick: self.moved_last_tick,
            shield_name: text_of(self.shield_name),
            shield_defense_bonus: self.shield_defense_bonus,
            shield_dr: self.shield_dr,
            shield_cover_value: self.shield_cover_value,
            shield_intact: self.shield_intact,
            shield_breakage: self.shield_breakage,
        }
    }
}

impl CombatantView {
    /// The fighter as an engagement starts: at full hit points, with no attack
    /// scheduled, not ready, not moved, and the shield intact if there is one.
    pub open spec fn fresh(self) -> CombatantView {
        CombatantView {
            hp: self.max_hp,
            next_attack_time: None,
            defense_plus_four_ready: false,
            moved_last_tick: false,
            shield_intact: self.shield_name is Some,
            ..self
        }
    }

    /// Whether the fighter is defeated.
    pub open spec fn down(self) -> bool {
        self.hp <= 0
    }
}

impl Combatant {
    /// A fighter from its combat record, at full hit points, with no attack
    /// scheduled.
    pub fn new(
        name: String,
        weapon_name: String,
        attack_bonus: i32,
        defense_mod: i32,
        armor_dr: i32,
        armor_is_heavy: bool,
        armor_penetration: i32,
        damage_expr: String,
        shield_damage_expr: Option<String>,
        strength_damage: i32,
        weapon_speed: Milli,
        reach_ft: Milli,
        move_speed: Milli,
        two_hand_grip: bool,
        use_jab: bool,
        jab_special_expr: Option<String>,
        has_weapon: bool,
        weapon_defense_always: bool,
        max_hp: i32,
        shield_name: Option<String>,
        shield_defense_bonus: i32,
        shield_dr: i32,
        shield_cover_value: Option<i32>,
        shield_intact: bool,
        shield_breakage: Option<[ShieldBreakageStep; 4]>,
    ) -> (fighter: Combatant)
        ensures
            fighter@ == (CombatantView {
                name: name@,
                weapon_name: weapon_name@,
                attack_bonus,
                defense_mod,
                armor_dr,
                armor_is_heavy,
                armor_penetration,
                damage_expr: damage_expr@,
                shield_damage_expr: text_of(shield_damage_expr),
                strength_damage,
                weapon_speed,
                reach_ft,
                move_speed,
                two_hand_grip,
                use_jab,
                jab_special_expr: text_of(jab_special_expr),
                has_weapon,
                weapon_defense_always,
                max_hp,
                hp: max_hp,
                next_attack_time: None,
                defense_plus_four_ready: false,
                moved_last_tick: false,
                shield_name: text_of(shield_name),
                shield_defense_bonus,
                shield_dr,
                shield_cover_value,
                shield_intact,
                shield_breakage,
            }),
    {
        Combatant {
            name,
            weapon_name,
            attack_bonus,
            defense_mod,
            armor_dr,
            armor_is_heavy,
            armor_penetration,
            damage_expr,
            shield_damage_expr,
            strength_damage,
            weapon_speed,
            reach_ft,
            move_speed,
            two_hand_grip,
            use_jab,
            jab_special_expr,
            has_weapon,
            weapon_defense_always,
            max_hp,
            hp: max_hp,
            next_attack_time: None,
            defense_plus_four_ready: false,
            moved_last_tick: false,
            shield_name,
            shield_defense_bonus,
            shield_dr,
            shield_cover_value,
            shield_intact,
            shield_breakage,
        }
    }

    /// Returns the fighter to the start of an engagement.
    pub fn reset_hp(&mut self)
        ensures
            final(self)@ == old(self)@.fresh(),
    {
        self.hp = self.max_hp;
        self.next_attack_time = None;
        self.defense_plus_four_ready = false;
        self.moved_last_tick = false;
        self.shield_intact = self.shield_name.is_some();
    }
}

/// The fighter that stands in a simulation before any record is given.
pub open spec fn default_combatant() -> CombatantView {
    CombatantView {
        name: "Combatant"@,
        weapon_name: "Weapon"@,
        attack_bonus: 0,
        defense_mod: 0,
        armor_dr: 0,
        armor_is_heavy: false,
        armor_penetration: 0,
        damage_expr: "d4p"@,
        shield_damage_expr: None,
        strength_damage: 0,
        weapon_speed: 10000,
        reach_ft: 1000,
        move_speed: 5000,
        two_hand_grip: false,
        use_jab: false,
        jab_special_expr: None,
        has_weapon: false,
        weapon_defense_always: false,
        max_hp: 10,
        hp: 10,
        next_attack_time: None,
        defense_plus_four_ready: false,
        moved_last_tick: false,
        shield_name: None,
        shield_defense_bonus: 0,
        shield_dr: 0,
        shield_cover_value: None,
        shield_intact: false,
        shield_breakage: None,
    }
}

impl Default for Combatant {
    fn default() -> (fighter: Combatant)
        ensures
            fighter@ == default_combatant(),
    {
        Combatant {
            name: "Combatant".to_owned(),
            weapon_name: "Weapon".to_owned(),
            attack_bonus: 0,
            defense_mod: 0,
            armor_dr: 0,
            armor_is_heavy: false,
            armor_penetration: 0,
            damage_expr: "d4p".to_owned(),
            shield_damage_expr: None,
            strength_damage: 0,
            weapon_speed: 10000,
            reach_ft: 1000,
            move_speed: 5000,
            two_hand_grip: false,
            use_jab: false,
            jab_special_expr: None,
            has_weapon: false,
            weapon_defense_always: false,
            max_hp: 10,
            hp: 10,
            next_attack_time: None,
            defense_plus_four_ready: false,
            moved_last_tick: false,
            shield_name: None,
            shield_defense_bonus: 0,
            shield_dr: 0,
            shield_cover_value: None,
            shield_intact: false,
            shield_breakage: None,
        }
    }
}

} // verus!
