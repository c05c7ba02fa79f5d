//! One attack: the opposed rolls, the hit, the blow that a shield takes, the
//! miss, and the readiness that a two-handed grip gives and spends.

use crate::combatant::{Combatant, CombatantView, ShieldBreakageStep};
use crate::dice::{penetrating_roll, penetrating_total, DiceSource, DiceView};
use crate::expr::{damage_roll, roll_damage_expr_with_detail};
use crate::expr::{roll_damage_expr_with_detail_nonpenetrating, sat32, Rolled};
use crate::text::{decimal, push_decimal};
use crate::units::{max_of, min_of};
use vstd::prelude::*;
use vstd::string::*;

verus! {

/// The faces of the defense die: twelve against a ranged attack on a defender
/// who stood still and has no intact shield, twenty otherwise.
pub open spec fn defense_die(is_ranged: bool, moved: bool, shield: bool) -> int {
    if is_ranged && !shield && !moved {
        12
    } else {
        20
    }
}

/// The faces of the defense die.
pub fn defense_die_sides(
    is_ranged: bool,
    defender_moved_last_tick: bool,
    has_shield: bool,
) -> (sides: i32)
    ensures
        sides == defense_die(is_ranged, defender_moved_last_tick, has_shield),
{
    if is_ranged {
        if has_shield {
            20
        } else if defender_moved_last_tick {
            20
        } else {
            12
        }
    } else {
        20
    }
}

/// The damage reduction that armor gives against a weapon. Penetration counts
/// only against armor that reduces by five or more, or is heavy; it then
/// lowers the reduction, but not below zero.
pub open spec fn effective_reduction(armor_dr: int, heavy: bool, penetration: int) -> int {
    if armor_dr >= 5 || heavy {
        max_of(armor_dr - penetration, 0)
    } else {
        armor_dr
    }
}

/// The damage that is left of `raw` after a reduction: never below zero.
pub open spec fn damage_after(raw: int, reduction: int) -> int {
    max_of(raw - reduction, 0)
}

/// The damage reduction that armor gives against a weapon.
pub fn effective_armor_reduction(
    armor_dr: i32,
    armor_is_heavy: bool,
    armor_penetration: i32,
) -> (reduction: i64)
    ensures
        reduction == effective_reduction(armor_dr as int, armor_is_heavy, armor_penetration as int),
        armor_dr < 5 && !armor_is_heavy ==> reduction == armor_dr,
        armor_dr >= 5 || armor_is_heavy ==> reduction == max_of(armor_dr - armor_penetration, 0),
{
    if armor_dr >= 5 || armor_is_heavy {
        let lowered: i64 = armor_dr as i64 - armor_penetration as i64;
        if lowered < 0 {
            0
        } else {
            lowered
        }
    } else {
        armor_dr as i64
    }
}

/// The damage that is left of `raw` after `reduction`: never below zero, and
/// kept within `i64`.
pub fn damage_after_reduction(raw: i64, reduction: i64) -> (damage: i64)
    ensures
        damage == min_of(damage_after(raw as int, reduction as int), i64::MAX as int),
        damage >= 0,
{
    match raw.checked_sub(reduction) {
        Some(left) => if left < 0 {
            0
        } else {
            left
        },
        None => if reduction < 0 {
            i64::MAX
        } else {
            0
        },
    }
}

/// What the two opposed rolls of an attack gave.
pub struct Exchange {
    pub attack_die: int,
    pub defense_die: int,
    pub attack_roll: int,
    pub defense_roll: int,
    pub source: DiceView,
}

/// How an attack ended.
pub enum AttackKind {
    Hit,
    Blocked,
    Missed,
}

/// The bonus of four that the defender's weapon gives: always, for some
/// weapons, or while the defender is ready after a two-handed swing.
pub open spec fn weapon_defense_bonus(defender: CombatantView) -> int {
    if defender.weapon_defense_always || defender.defense_plus_four_ready {
        4
    } else {
        0
    }
}

/// What an intact shield adds to the defense: its own bonus, and four more
/// against a melee attack.
pub open spec fn shield_defense(defender: CombatantView, is_ranged: bool) -> int {
    if defender.shield_intact {
        defender.shield_defense_bonus + if is_ranged {
            0int
        } else {
            4int
        }
    } else {
        0
    }
}

/// The attack total as it is compared: a ranged attack on a defender behind
/// an intact shield counts for no more than the shield's cover value.
pub open spec fn covered(total: int, defender: CombatantView, is_ranged: bool) -> int {
    if is_ranged && defender.shield_intact {
        match defender.shield_cover_value {
            Some(cap) => min_of(total, cap as int),
            None => total,
        }
    } else {
        total
    }
}

/// The two opposed rolls: the attacker's exploding d20, then the defender's
/// exploding die.
pub open spec fn exchange(
    attacker: CombatantView,
    defender: CombatantView,
    range_mod: int,
    is_ranged: bool,
    source: DiceView,
) -> Exchange {
    let attack = penetrating_total(source, 20);
    let defense = penetrating_total(
        attack.1,
        defense_die(is_ranged, defender.moved_last_tick, defender.shield_intact),
    );
    Exchange {
        attack_die: attack.0,
        defense_die: defense.0,
        attack_roll: covered(attack.0 + attacker.attack_bonus + range_mod, defender, is_ranged),
        defense_roll: defense.0 + (if is_ranged {
            0int
        } else {
            defender.defense_mod as int
        }) + weapon_defense_bonus(defender) + shield_defense(defender, is_ranged),
        source: defense.1,
    }
}

/// How the attack ends: a hit where the attack total reaches the defense
/// total; a blow on the shield where a melee attack misses a defender with an
/// intact shield by less than ten; a miss otherwise.
pub open spec fn kind_of(rolls: Exchange, defender: CombatantView, is_ranged: bool) -> AttackKind {
    if rolls.attack_roll >= rolls.defense_roll {
        AttackKind::Hit
    } else if defender.shield_intact && !is_ranged && rolls.defense_roll - rolls.attack_roll < 10 {
        AttackKind::Blocked
    } else {
        AttackKind::Missed
    }
}

/// Half of `v`, rounded toward zero.
pub open spec fn half(v: int) -> int {
    if v >= 0 {
        v / 2
    } else {
        -((-v) / 2)
    }
}

/// The damage roll of a hit. A jab rolls the jab expression, or the weapon's
/// own where it has none, with standard dice; any other attack rolls the
/// weapon's expression with the dice it names.
pub open spec fn hit_roll(attacker: CombatantView, source: DiceView) -> Rolled {
    if attacker.use_jab {
        damage_roll(
            match attacker.jab_special_expr {
                Some(e) => e,
                None => attacker.damage_expr,
            },
            source,
            false,
        )
    } else {
        damage_roll(attacker.damage_expr, source, true)
    }
}

/// The raw damage of a hit: what was rolled, halved for a jab without an
/// expression of its own, plus the strength bonus, and not below zero.
pub open spec fn hit_raw(attacker: CombatantView, rolled: int) -> int {
    max_of(
        (if attacker.use_jab && attacker.jab_special_expr is None {
            half(rolled)
        } else {
            rolled
        }) + attacker.strength_damage,
        0,
    )
}

/// The armor reduction of the defender against the attacker's weapon.
pub open spec fn armor_against(attacker: CombatantView, defender: CombatantView) -> int {
    effective_reduction(
        defender.armor_dr as int,
        defender.armor_is_heavy,
        attacker.armor_penetration as int,
    )
}

/// The expression rolled for a blow on a shield: the attacker's shield
/// expression, or the weapon's own where that is missing or empty.
pub open spec fn shield_expr(attacker: CombatantView) -> Seq<char> {
    match attacker.shield_damage_expr {
        Some(e) => if e.len() > 0 {
            e
        } else {
            attacker.damage_expr
        },
        None => attacker.damage_expr,
    }
}

/// The raw damage of a blow on a shield.
pub open spec fn shield_raw(attacker: CombatantView, rolled: int) -> int {
    max_of(rolled + attacker.strength_damage, 0)
}

/// What gets through a shield to the hit points: the raw damage less the
/// shield's reduction, then less the armor's.
pub open spec fn blocked_damage(attacker: CombatantView, defender: CombatantView, raw: int) -> int {
    damage_after(damage_after(raw, defender.shield_dr as int), armor_against(attacker, defender))
}

/// Whether a threshold that was met breaks the shield. With a save modifier
/// the attacker's exploding d20 is held against the defender's plus the
/// modifier, and the attacker wins ties; without one the shield breaks.
pub open spec fn opposed(step: ShieldBreakageStep, source: DiceView) -> (bool, DiceView) {
    match step.save_mod {
        Some(modifier) => {
            let attack = penetrating_total(source, 20);
            let defense = penetrating_total(attack.1, 20);
            (attack.0 >= defense.0 + modifier, defense.1)
        },
        None => (true, source),
    }
}

/// Whether raw shield damage breaks a shield. At the fourth threshold it
/// does; below that the highest threshold that is met decides.
pub open spec fn breakage(steps: [ShieldBreakageStep; 4], raw: int, source: DiceView) -> (
    bool,
    DiceView,
) {
    if raw >= steps[3].threshold {
        (true, source)
    } else if raw >= steps[2].threshold {
        opposed(steps[2], source)
    } else if raw >= steps[1].threshold {
        opposed(steps[1], source)
    } else if raw >= steps[0].threshold {
        opposed(steps[0], source)
    } else {
        (false, source)
    }
}

/// Whether readiness applies to a fighter: it grips a weapon two-handed, and
/// the weapon does not give the defense bonus anyway.
pub open spec fn uses_readiness(fighter: CombatantView) -> bool {
    fighter.two_hand_grip && fighter.has_weapon && !fighter.weapon_defense_always
}

/// The attacker after its attack: ready, where readiness applies.
pub open spec fn after_swing(attacker: CombatantView) -> CombatantView {
    if uses_readiness(attacker) {
        CombatantView { defense_plus_four_ready: true, ..attacker }
    } else {
        attacker
    }
}

/// The defender after an attack on it that took `damage` hit points and
/// left the shield `intact`: no longer ready, where readiness applies.
pub open spec fn after_attack(defender: CombatantView, damage: int, intact: bool) -> CombatantView {
    CombatantView {
        hp: sat32(defender.hp - damage) as i32,
        shield_intact: intact,
        defense_plus_four_ready: if uses_readiness(defender) {
            false
        } else {
            defender.defense_plus_four_ready
        },
        ..defender
    }
}

/// Two totals and the dice behind them as the log shows them.
pub open spec fn note_of(
    attack_roll: int,
    attack_die: int,
    defense_roll: int,
    defense_die: int,
) -> Seq<char> {
    " (atk "@ + decimal(attack_roll) + " [d20p="@ + decimal(attack_die) + "] vs def "@ + decimal(
        defense_roll,
    ) + " [d20p="@ + decimal(defense_die) + "])"@
}

/// The opposed rolls as the log shows them.
pub open spec fn rolls_note(rolls: Exchange) -> Seq<char> {
    note_of(rolls.attack_roll, rolls.attack_die, rolls.defense_roll, rolls.defense_die)
}

/// The log line of a hit.
pub open spec fn hit_line(
    attacker: CombatantView,
    defender: CombatantView,
    note: Seq<char>,
    damage: int,
    detail: Seq<char>,
    hp: int,
) -> Seq<char> {
    attacker.name + " hits "@ + defender.name + " with "@ + attacker.weapon_name + note + " for "@
        + decimal(damage) + " dmg "@ + detail + " (hp "@ + shown_hp(hp) + ")"@
}

/// The name under which the log shows the defender's shield.
pub open spec fn shown_shield(defender: CombatantView) -> Seq<char> {
    match defender.shield_name {
        Some(name) => name,
        None => "Shield"@,
    }
}

/// The log line of a blow that the shield took.
pub open spec fn block_line(
    attacker: CombatantView,
    defender: CombatantView,
    note: Seq<char>,
    raw: int,
    detail: Seq<char>,
    broken: bool,
    hp: int,
) -> Seq<char> {
    defender.name + " blocks "@ + attacker.name + " with "@ + shown_shield(defender) + note
        + "; shield dmg "@ + decimal(raw) + " "@ + detail + " ("@ + (if broken {
        "shield broken"@
    } else {
        "shield intact"@
    }) + "), hp "@ + shown_hp(hp)
}

/// The log line of a miss.
pub open spec fn miss_line(
    attacker: CombatantView,
    defender: CombatantView,
    note: Seq<char>,
) -> Seq<char> {
    attacker.name + " misses "@ + defender.name + " with "@ + attacker.weapon_name + note
}

/// Hit points as the log shows them: not below zero.
pub open spec fn shown_hp(hp: int) -> Seq<char> {
    decimal(max_of(hp, 0))
}

/// What an attack leaves behind: both fighters, the line for the log, and the
/// random source.
pub struct AttackOutcome {
    pub attacker: CombatantView,
    pub defender: CombatantView,
    pub text: Seq<char>,
    pub source: DiceView,
}

/// The outcome of a hit, after opposed rolls that left the random source in
/// `source` and are shown as `note`.
pub open spec fn hit_outcome(
    attacker: CombatantView,
    defender: CombatantView,
    note: Seq<char>,
    source: DiceView,
) -> AttackOutcome {
    let rolled = hit_roll(attacker, source);
    let damage = damage_after(hit_raw(attacker, rolled.total), armor_against(attacker, defender));
    let hurt = after_attack(defender, damage, defender.shield_intact);
    AttackOutcome {
        attacker: after_swing(attacker),
        defender: hurt,
        text: hit_line(attacker, defender, note, damage, rolled.detail, hurt.hp as int),
        source: rolled.source,
    }
}

/// Whether the blow of raw damage `raw` breaks the defender's shield, and the
/// random source after the decision. A shield without thresholds holds.
pub open spec fn shield_fate(defender: CombatantView, raw: int, source: DiceView) -> (
    bool,
    DiceView,
) {
    match defender.shield_breakage {
        Some(steps) => breakage(steps, raw, source),
        None => (false, source),
    }
}

/// The outcome of a blow that the shield took.
pub open spec fn block_outcome(
    attacker: CombatantView,
    defender: CombatantView,
    note: Seq<char>,
    source: DiceView,
) -> AttackOutcome {
    let rolled = damage_roll(shield_expr(attacker), source, true);
    let raw = shield_raw(attacker, rolled.total);
    let broken = shield_fate(defender, raw, rolled.source);
    let hurt = after_attack(
        defender,
        blocked_damage(attacker, defender, raw),
        defender.shield_intact && !broken.0,
    );
    AttackOutcome {
        attacker: after_swing(attacker),
        defender: hurt,
        text: block_line(attacker, defender, note, raw, rolled.detail, broken.0, hurt.hp as int),
        source: broken.1,
    }
}

/// The outcome of a miss.
pub open spec fn miss_outcome(
    attacker: CombatantView,
    defender: CombatantView,
    note: Seq<char>,
    source: DiceView,
) -> AttackOutcome {
    AttackOutcome {
        attacker: after_swing(attacker),
        defender: after_attack(defender, 0, defender.shield_intact),
        text: miss_line(attacker, defender, note),
        source,
    }
}

/// The record at `index` of the two after an attack that left the attacker
/// and the defender as given. A fighter that attacks itself is first the
/// defender and then the attacker.
pub open spec fn record_after(
    attacker: CombatantView,
    defender: CombatantView,
    index: usize,
    attacker_idx: usize,
    defender_idx: usize,
) -> CombatantView {
    if index != defender_idx {
        attacker
    } else if attacker_idx == defender_idx {
        after_swing(defender)
    } else {
        defender
    }
}

/// The outcome of one attack.
#[verifier::opaque]
pub open spec fn attack_outcome(
    attacker: CombatantView,
    defender: CombatantView,
    range_mod: int,
    is_ranged: bool,
    source: DiceView,
) -> AttackOutcome {
    let rolls = exchange(attacker, defender, range_mod, is_ranged, source);
    match kind_of(rolls, defender, is_ranged) {
        AttackKind::Hit => hit_outcome(attacker, defender, rolls_note(rolls), rolls.source),
        AttackKind::Blocked => block_outcome(attacker, defender, rolls_note(rolls), rolls.source),
        AttackKind::Missed => miss_outcome(attacker, defender, rolls_note(rolls), rolls.source),
    }
}

fn push_note(
    text: &mut String,
    attack_roll: i64,
    attack_die: i32,
    defense_roll: i64,
    defense_die: i32,
)
    ensures
        final(text)@ == old(text)@ + note_of(
            attack_roll as int,
            attack_die as int,
            defense_roll as int,
            defense_die as int,
        ),
{
    text.append(" (atk ");
    push_decimal(text, attack_roll);
    text.append(" [d20p=");
    push_decimal(text, attack_die as i64);
    text.append("] vs def ");
    push_decimal(text, defense_roll);
    text.append(" [d20p=");
    push_decimal(text, defense_die as i64);
    text.append("])");
    proof {
        assert(text@ =~= old(text)@ + note_of(
            attack_roll as int,
            attack_die as int,
            defense_roll as int,
            defense_die as int,
        ));
    }
}

fn push_shown_hp(text: &mut String, hp: i32)
    ensures
        final(text)@ == old(text)@ + shown_hp(hp as int),
{
    push_decimal(
        text,
        if hp < 0 {
            0
        } else {
            hp as i64
        },
    );
}

fn hit_text(
    attacker: &Combatant,
    defender: &Combatant,
    note: &str,
    damage: i64,
    detail: &str,
) -> (text: String)
    ensures
        text@ == hit_line(attacker@, defender@, note@, damage as int, detail@, defender.hp as int),
{
    let mut text = attacker.name.clone();
    text.append(" hits ");
    text.append(defender.name.as_str());
    text.append(" with ");
    text.append(attacker.weapon_name.as_str());
    text.append(note);
    text.append(" for ");
    push_decimal(&mut text, damage);
    text.append(" dmg ");
    text.append(detail);
    text.append(" (hp ");
    push_shown_hp(&mut text, defender.hp);
    text.append(")");
    proof {
        assert(text@ =~= hit_line(
            attacker@,
            defender@,
            note@,
            damage as int,
            detail@,
            defender.hp as int,
        ));
    }
    text
}

fn block_text(
    attacker: &Combatant,
    defender: &Combatant,
    note: &str,
    raw: i64,
    detail: &str,
    broken: bool,
) -> (text: String)
    ensures
        text@ == block_line(
            attacker@,
            defender@,
            note@,
            raw as int,
            detail@,
            broken,
            defender.hp as int,
        ),
{
    let mut text = defender.name.clone();
    text.append(" blocks ");
    text.append(attacker.name.as_str());
    text.append(" with ");
    match &defender.shield_name {
        Some(name) => text.append(name.as_str()),
        None => text.append("Shield"),
    }
    text.append(note);
    text.append("; shield dmg ");
    push_decimal(&mut text, raw);
    text.append(" ");
    text.append(detail);
    text.append(" (");
    if broken {
        text.append("shield broken");
    } else {
        text.append("shield intact");
    }
    text.append("), hp ");
    push_shown_hp(&mut text, defender.hp);
    proof {
        assert(text@ =~= block_line(
            attacker@,
            defender@,
            note@,
            raw as int,
            detail@,
            broken,
            defender.hp as int,
        ));
    }
    text
}

fn miss_text(attacker: &Combatant, defender: &Combatant, note: &str) -> (text: String)
    ensures
        text@ == miss_line(attacker@, defender@, note@),
{
    let mut text = attacker.name.clone();
    text.append(" misses ");
    text.append(defender.name.as_str());
    text.append(" with ");
    text.append(attacker.weapon_name.as_str());
    text.append(note);
    proof {
        assert(text@ =~= miss_line(attacker@, defender@, note@));
    }
    text
}

/// Decides whether a breakage threshold that was met breaks the shield.
pub fn breakage_roll(step: ShieldBreakageStep, rng: &mut DiceSource) -> (broken: bool)
    ensures
        (broken, final(rng)@) == opposed(step, old(rng)@),
        step.save_mod is None ==> broken,
{
    match step.save_mod {
        Some(modifier) => {
            let attack = penetrating_roll(20, rng);
            let defense = penetrating_roll(20, rng);
            attack as i64 >= defense as i64 + modifier as i64
        },
        None => true,
    }
}

/// Decides whether raw shield damage of `raw` breaks a shield with the
/// thresholds `steps`. Damage that reaches the fourth threshold always does.
pub fn shield_breaks(steps: &[ShieldBreakageStep; 4], raw: i64, rng: &mut DiceSource) -> (broken:
    bool)
    ensures
        (broken, final(rng)@) == breakage(*steps, raw as int, old(rng)@),
        raw >= steps[3].threshold ==> broken && final(rng)@ == old(rng)@,
{
    if raw >= steps[3].threshold as i64 {
        true
    } else if raw >= steps[2].threshold as i64 {
        breakage_roll(steps[2], rng)
    } else if raw >= steps[1].threshold as i64 {
        breakage_roll(steps[1], rng)
    } else if raw >= steps[0].threshold as i64 {
        breakage_roll(steps[0], rng)
    } else {
        false
    }
}

fn halved(v: i64) -> (h: i64)
    requires
        i32::MIN <= v <= i32::MAX,
    ensures
        h == half(v as int),
{
    if v >= 0 {
        v / 2
    } else {
        -((-v) / 2)
    }
}

fn hp_after(hp: i32, damage: i64) -> (left: i32)
    requires
        damage >= 0,
    ensures
        left == sat32(hp - damage),
{
    match (hp as i64).checked_sub(damage) {
        Some(v) => if v < i32::MIN as i64 {
            i32::MIN
        } else {
            v as i32
        },
        None => i32::MIN,
    }
}

fn grants_readiness(fighter: &Combatant) -> (yes: bool)
    ensures
        yes == uses_readiness(fighter@),
{
    fighter.two_hand_grip && fighter.has_weapon && !fighter.weapon_defense_always
}

/// Rolls attack and defense. Returns the attack total, the attack die, the
/// defense total and the defense die.
fn roll_exchange(
    attacker: &Combatant,
    defender: &Combatant,
    range_mod: i32,
    is_ranged: bool,
    rng: &mut DiceSource,
) -> (r: (i64, i32, i64, i32))
    ensures
        exchange(attacker@, defender@, range_mod as int, is_ranged, old(rng)@) == (Exchange {
            attack_die: r.1 as int,
            defense_die: r.3 as int,
            attack_roll: r.0 as int,
            defense_roll: r.2 as int,
            source: final(rng)@,
        }),
{
    let shield_active = defender.shield_intact;
    let attack_die = penetrating_roll(20, rng);
    let defense_die = penetrating_roll(
        defense_die_sides(is_ranged, defender.moved_last_tick, shield_active),
        rng,
    );
    let mut attack_roll: i64 = attack_die as i64 + attacker.attack_bonus as i64 + range_mod as i64;
    if is_ranged && shield_active {
        match defender.shield_cover_value {
            Some(cap) => {
                if attack_roll > cap as i64 {
                    attack_roll = cap as i64;
                }
            },
            None => {},
        }
    }
    let defense_mod: i64 = if is_ranged {
        0
    } else {
        defender.defense_mod as i64
    };
    let weapon_bonus: i64 = if defender.weapon_defense_always || defender.defense_plus_four_ready {
        4
    } else {
        0
    };
    let shield_bonus: i64 = if shield_active {
        defender.shield_defense_bonus as i64 + if is_ranged {
            0
        } else {
            4
        }
    } else {
        0
    };
    let defense_roll: i64 = defense_die as i64 + defense_mod + weapon_bonus + shield_bonus;
    (attack_roll, attack_die, defense_roll, defense_die)
}

fn settle_defender(defender: &mut Combatant, damage: i64, intact: bool)
    requires
        damage >= 0,
    ensures
        final(defender)@ == after_attack(old(defender)@, damage as int, intact),
{
    defender.hp = hp_after(defender.hp, damage);
    defender.shield_intact = intact;
    if grants_readiness(defender) {
        defender.defense_plus_four_ready = false;
    }
}

fn settle_attacker(attacker: &mut Combatant)
    ensures
        final(attacker)@ == after_swing(old(attacker)@),
{
    if grants_readiness(attacker) {
        attacker.defense_plus_four_ready = true;
    }
}

/// Writes the result of an attack into the two records.
fn settle(
    combatants: &mut [Combatant; 2],
    attacker_idx: usize,
    defender_idx: usize,
    damage: i64,
    intact: bool,
)
    requires
        attacker_idx < 2,
        defender_idx < 2,
        damage >= 0,
    ensures
        final(combatants)[attacker_idx as int]@ == record_after(
            after_swing(old(combatants)[attacker_idx as int]@),
            after_attack(old(combatants)[defender_idx as int]@, damage as int, intact),
            attacker_idx,
            attacker_idx,
            defender_idx,
        ),
        final(combatants)[defender_idx as int]@ == record_after(
            after_swing(old(combatants)[attacker_idx as int]@),
            after_attack(old(combatants)[defender_idx as int]@, damage as int, intact),
            defender_idx,
            attacker_idx,
            defender_idx,
        ),
{
    settle_defender(&mut combatants[defender_idx], damage, intact);
    settle_attacker(&mut combatants[attacker_idx]);
}

/// The damage roll of a hit and its raw damage.
fn roll_hit(attacker: &Combatant, rng: &mut DiceSource) -> (r: (i64, String))
    ensures
        r.0 == hit_raw(attacker@, hit_roll(attacker@, old(rng)@).total),
        r.1@ == hit_roll(attacker@, old(rng)@).detail,
        final(rng)@ == hit_roll(attacker@, old(rng)@).source,
        0 <= r.0 <= 0x1_0000_0000,
{
    let (rolled, detail) = if attacker.use_jab {
        match &attacker.jab_special_expr {
            Some(special) => roll_damage_expr_with_detail_nonpenetrating(special.as_str(), rng),
            None => roll_damage_expr_with_detail_nonpenetrating(attacker.damage_expr.as_str(), rng),
        }
    } else {
        roll_damage_expr_with_detail(attacker.damage_expr.as_str(), rng)
    };
    let dice: i64 = if attacker.use_jab && attacker.jab_special_expr.is_none() {
        halved(rolled as i64)
    } else {
        rolled as i64
    };
    let sum: i64 = dice + attacker.strength_damage as i64;
    (
        if sum < 0 {
            0
        } else {
            sum
        },
        detail,
    )
}

/// The damage roll of a blow on a shield and its raw damage.
fn roll_block(attacker: &Combatant, rng: &mut DiceSource) -> (r: (i64, String))
    ensures
        r.0 == shield_raw(attacker@, damage_roll(shield_expr(attacker@), old(rng)@, true).total),
        r.1@ == damage_roll(shield_expr(attacker@), old(rng)@, true).detail,
        final(rng)@ == damage_roll(shield_expr(attacker@), old(rng)@, true).source,
        0 <= r.0 <= 0x1_0000_0000,
{
    let (rolled, detail) = match &attacker.shield_damage_expr {
        Some(special) => if special.as_str().is_empty() {
            roll_damage_expr_with_detail(attacker.damage_expr.as_str(), rng)
        } else {
            roll_damage_expr_with_detail(special.as_str(), rng)
        },
        None => roll_damage_expr_with_detail(attacker.damage_expr.as_str(), rng),
    };
    let sum: i64 = rolled as i64 + attacker.strength_damage as i64;
    (
        if sum < 0 {
            0
        } else {
            sum
        },
        detail,
    )
}

fn armor_reduction(attacker: &Combatant, defender: &Combatant) -> (reduction: i64)
    ensures
        reduction == armor_against(attacker@, defender@),
        -0x1_0000_0000 <= reduction <= 0x1_0000_0000,
{
    effective_armor_reduction(
        defender.armor_dr,
        defender.armor_is_heavy,
        attacker.armor_penetration,
    )
}

fn land_hit(
    combatants: &mut [Combatant; 2],
    attacker_idx: usize,
    defender_idx: usize,
    note: &str,
    rng: &mut DiceSource,
) -> (text: String)
    requires
        attacker_idx < 2,
        defender_idx < 2,
    ensures
        final(combatants)[attacker_idx as int]@ == record_after(
            hit_outcome(
            old(combatants)[attacker_idx as int]@,
            old(combatants)[defender_idx as int]@,
            note@,
            old(rng)@,
        ).attacker,
            hit_outcome(
            old(combatants)[attacker_idx as int]@,
            old(combatants)[defender_idx as int]@,
            note@,
            old(rng)@,
        ).defender,
            attacker_idx,
            attacker_idx,
            defender_idx,
        ),
        final(combatants)[defender_idx as int]@ == record_after(
            hit_outcome(
            old(combatants)[attacker_idx as int]@,
            old(combatants)[defender_idx as int]@,
            note@,
            old(rng)@,
        ).attacker,
            hit_outcome(
            old(combatants)[attacker_idx as int]@,
            old(combatants)[defender_idx as int]@,
            note@,
            old(rng)@,
        ).defender,
            defender_idx,
            attacker_idx,
            defender_idx,
        ),
        text@ == hit_outcome(
            old(combatants)[attacker_idx as int]@,
            old(combatants)[defender_idx as int]@,
            note@,
            old(rng)@,
        ).text,
        final(rng)@ == hit_outcome(
            old(combatants)[attacker_idx as int]@,
            old(combatants)[defender_idx as int]@,
            note@,
            old(rng)@,
        ).source,
{
    let reduction = armor_reduction(&combatants[attacker_idx], &combatants[defender_idx]);
    let (raw, detail) = roll_hit(&combatants[attacker_idx], rng);
    let damage = damage_after_reduction(raw, reduction);
    let intact = combatants[defender_idx].shield_intact;
    settle(combatants, attacker_idx, defender_idx, damage, intact);
    hit_text(
        &combatants[attacker_idx],
        &combatants[defender_idx],
        note,
        damage,
        detail.as_str(),
    )
}

fn land_on_shield(
    combatants: &mut [Combatant; 2],
    attacker_idx: usize,
    defender_idx: usize,
    note: &str,
    rng: &mut DiceSource,
) -> (text: String)
    requires
        attacker_idx < 2,
        defender_idx < 2,
    ensures
        final(combatants)[attacker_idx as int]@ == record_after(
            block_outcome(
            old(combatants)[attacker_idx as int]@,
            old(combatants)[defender_idx as int]@,
            note@,
            old(rng)@,
        ).attacker,
            block_outcome(
            old(combatants)[attacker_idx as int]@,
            old(combatants)[defender_idx as int]@,
            note@,
            old(rng)@,
        ).defender,
            attacker_idx,
            attacker_idx,
            defender_idx,
        ),
        final(combatants)[defender_idx as int]@ == record_after(
            block_outcome(
            old(combatants)[attacker_idx as int]@,
            old(combatants)[defender_idx as int]@,
            note@,
            old(rng)@,
        ).attacker,
            block_outcome(
            old(combatants)[attacker_idx as int]@,
            old(combatants)[defender_idx as int]@,
            note@,
            old(rng)@,
        ).defender,
            defender_idx,
            attacker_idx,
            defender_idx,
        ),
        text@ == block_outcome(
            old(combatants)[attacker_idx as int]@,
            old(combatants)[defender_idx as int]@,
            note@,
            old(rng)@,
        ).text,
        final(rng)@ == block_outcome(
            old(combatants)[attacker_idx as int]@,
            old(combatants)[defender_idx as int]@,
            note@,
            old(rng)@,
        ).source,
{
    let reduction = armor_reduction(&combatants[attacker_idx], &combatants[defender_idx]);
    let (raw, detail) = roll_block(&combatants[attacker_idx], rng);
    let behind_shield = damage_after_reduction(raw, combatants[defender_idx].shield_dr as i64);
    let damage = damage_after_reduction(behind_shield, reduction);
    let broken = match &combatants[defender_idx].shield_breakage {
        Some(steps) => shield_breaks(steps, raw, rng),
        None => false,
    };
    let intact = combatants[defender_idx].shield_intact && !broken;
    settle(combatants, attacker_idx, defender_idx, damage, intact);
    block_text(
        &combatants[attacker_idx],
        &combatants[defender_idx],
        note,
        raw,
        detail.as_str(),
        broken,
    )
}

fn pass_by(
    combatants: &mut [Combatant; 2],
    attacker_idx: usize,
    defender_idx: usize,
    note: &str,
) -> (text: String)
    requires
        attacker_idx < 2,
        defender_idx < 2,
    ensures
        final(combatants)[attacker_idx as int]@ == record_after(
            after_swing(old(combatants)[attacker_idx as int]@),
            after_attack(
                old(combatants)[defender_idx as int]@,
                0,
                old(combatants)[defender_idx as int].shield_intact,
            ),
            attacker_idx,
            attacker_idx,
            defender_idx,
        ),
        final(combatants)[defender_idx as int]@ == record_after(
            after_swing(old(combatants)[attacker_idx as int]@),
            after_attack(
                old(combatants)[defender_idx as int]@,
                0,
                old(combatants)[defender_idx as int].shield_intact,
            ),
            defender_idx,
            attacker_idx,
            defender_idx,
        ),
        text@ == miss_line(
            old(combatants)[attacker_idx as int]@,
            old(combatants)[defender_idx as int]@,
            note@,
        ),
{
    let intact = combatants[defender_idx].shield_intact;
    settle(combatants, attacker_idx, defender_idx, 0, intact);
    miss_text(&combatants[attacker_idx], &combatants[defender_idx], note)
}

/// Resolves one attack of `combatants[attacker_idx]` on
/// `combatants[defender_idx]`: rolls attack and defense, applies the damage
/// of a hit or of a blow on the shield, breaks the shield where the blow was
/// hard enough, spends and grants readiness, and returns the line for the
/// log. `range_mod` is the range penalty, zero for a melee attack. The two
/// indices are those of the array, and so below two.
pub fn resolve_attack(
    combatants: &mut [Combatant; 2],
    attacker_idx: usize,
    defender_idx: usize,
    range_mod: i32,
    is_ranged: bool,
    rng: &mut DiceSource,
) -> (text: String)
    requires
        attacker_idx < 2,
        defender_idx < 2,
    ensures
        final(combatants)[attacker_idx as int]@ == record_after(
            attack_outcome(
            old(combatants)[attacker_idx as int]@,
            old(combatants)[defender_idx as int]@,
            range_mod as int,
            is_ranged,
            old(rng)@,
        ).attacker,
            attack_outcome(
            old(combatants)[attacker_idx as int]@,
            old(combatants)[defender_idx as int]@,
            range_mod as int,
            is_ranged,
            old(rng)@,
        ).defender,
            attacker_idx,
            attacker_idx,
            defender_idx,
        ),
        final(combatants)[defender_idx as int]@ == record_after(
            attack_outcome(
            old(combatants)[attacker_idx as int]@,
            old(combatants)[defender_idx as int]@,
            range_mod as int,
            is_ranged,
            old(rng)@,
        ).attacker,
            attack_outcome(
            old(combatants)[attacker_idx as int]@,
            old(combatants)[defender_idx as int]@,
            range_mod as int,
            is_ranged,
            old(rng)@,
        ).defender,
            defender_idx,
            attacker_idx,
            defender_idx,
        ),
        text@ == attack_outcome(
            old(combatants)[attacker_idx as int]@,
            old(combatants)[defender_idx as int]@,
            range_mod as int,
            is_ranged,
            old(rng)@,
        ).text,
        final(rng)@ == attack_outcome(
            old(combatants)[attacker_idx as int]@,
            old(combatants)[defender_idx as int]@,
            range_mod as int,
            is_ranged,
            old(rng)@,
        ).source,
        final(combatants)[defender_idx as int].hp <= old(combatants)[defender_idx as int].hp,
        attacker_idx != defender_idx ==> final(combatants)[attacker_idx as int].hp == old(
            combatants,
        )[attacker_idx as int].hp,
{
    reveal(attack_outcome);
    proof {
        lemma_attack_effects(
            combatants[attacker_idx as int]@,
            combatants[defender_idx as int]@,
            range_mod as int,
            is_ranged,
            rng@,
        );
    }
    let (attack_roll, attack_die, defense_roll, defense_die) = roll_exchange(
        &combatants[attacker_idx],
        &combatants[defender_idx],
        range_mod,
        is_ranged,
        rng,
    );
    let mut note = String::new();
    push_note(&mut note, attack_roll, attack_die, defense_roll, defense_die);
    proof {
        assert(note@ =~= note_of(
            attack_roll as int,
            attack_die as int,
            defense_roll as int,
            defense_die as int,
        ));
    }
    if attack_roll >= defense_roll {
        land_hit(combatants, attacker_idx, defender_idx, note.as_str(), rng)
    } else if combatants[defender_idx].shield_intact && !is_ranged && defense_roll - attack_roll
        < 10 {
        land_on_shield(combatants, attacker_idx, defender_idx, note.as_str(), rng)
    } else {
        pass_by(combatants, attacker_idx, defender_idx, note.as_str())
    }
}

/// Against armor that reduces by less than five and is not heavy, the
/// weapon's penetration makes no difference: the reduction is the armor's.
pub proof fn lemma_light_armor_ignores_penetration(armor_dr: int, penetration: int)
    requires
        armor_dr < 5,
    ensures
        effective_reduction(armor_dr, false, penetration) == armor_dr,
{
}

/// Against armor that reduces by five or more, or is heavy, the reduction is
/// the armor's less the penetration, and not below zero; a negative
/// penetration makes the reduction larger than the armor's.
pub proof fn lemma_stout_armor_counts_penetration(armor_dr: int, heavy: bool, penetration: int)
    requires
        armor_dr >= 5 || heavy,
    ensures
        effective_reduction(armor_dr, heavy, penetration) == max_of(armor_dr - penetration, 0),
        penetration < 0 ==> effective_reduction(armor_dr, heavy, penetration) > armor_dr,
{
}

/// A hit that is no jab, on a defender whose armor reduces by less than five
/// and is not heavy, costs the defender the raw damage less the armor's
/// reduction, and no less than nothing: the weapon's penetration makes no
/// difference to it, and a weapon of any other penetration would have left
/// the defender the same. Hit points stop at the least `i32`. Of the
/// defender's record nothing but hit points and readiness changes.
pub proof fn lemma_hit_on_light_armor(
    attacker: CombatantView,
    defender: CombatantView,
    range_mod: int,
    is_ranged: bool,
    source: DiceView,
    penetration: i32,
)
    requires
        kind_of(exchange(attacker, defender, range_mod, is_ranged, source), defender, is_ranged)
            is Hit,
        !attacker.use_jab,
        defender.armor_dr < 5,
        !defender.armor_is_heavy,
    ensures
        ({
            let rolls = exchange(attacker, defender, range_mod, is_ranged, source);
            let rolled = damage_roll(attacker.damage_expr, rolls.source, true).total;
            let raw = max_of(rolled + attacker.strength_damage, 0);
            let damage = max_of(raw - defender.armor_dr, 0);
            let after = attack_outcome(attacker, defender, range_mod, is_ranged, source).defender;
            &&& after.hp == sat32(defender.hp - damage)
            &&& defender.hp - damage >= i32::MIN ==> after.hp == defender.hp - damage
            &&& after == (CombatantView {
                hp: after.hp,
                defense_plus_four_ready: after.defense_plus_four_ready,
                ..defender
            })
            &&& after == attack_outcome(
                CombatantView { armor_penetration: penetration, ..attacker },
                defender,
                range_mod,
                is_ranged,
                source,
            ).defender
        }),
{
    reveal(attack_outcome);
}

/// A hit that is no jab, on a defender whose armor reduces by five or more,
/// or is heavy, costs the defender the raw damage less what is left of the
/// armor's reduction after the weapon's penetration, neither below nothing.
/// Hit points stop at the least `i32`. Of the defender's record nothing but
/// hit points and readiness changes.
pub proof fn lemma_hit_on_stout_armor(
    attacker: CombatantView,
    defender: CombatantView,
    range_mod: int,
    is_ranged: bool,
    source: DiceView,
)
    requires
        kind_of(exchange(attacker, defender, range_mod, is_ranged, source), defender, is_ranged)
            is Hit,
        !attacker.use_jab,
        defender.armor_dr >= 5 || defender.armor_is_heavy,
    ensures
        ({
            let rolls = exchange(attacker, defender, range_mod, is_ranged, source);
            let rolled = damage_roll(attacker.damage_expr, rolls.source, true).total;
            let raw = max_of(rolled + attacker.strength_damage, 0);
            let reduction = max_of(defender.armor_dr - attacker.armor_penetration, 0);
            let damage = max_of(raw - reduction, 0);
            let after = attack_outcome(attacker, defender, range_mod, is_ranged, source).defender;
            &&& after.hp == sat32(defender.hp - damage)
            &&& defender.hp - damage >= i32::MIN ==> after.hp == defender.hp - damage
            &&& after == (CombatantView {
                hp: after.hp,
                defense_plus_four_ready: after.defense_plus_four_ready,
                ..defender
            })
        }),
{
    reveal(attack_outcome);
}

/// Damage is never negative, whatever was rolled and whatever the armor.
pub proof fn lemma_damage_never_negative(raw: int, reduction: int)
    ensures
        damage_after(raw, reduction) >= 0,
{
}

/// What an attack changes, and what it leaves. The attacker keeps its hit
/// points and its shield; at most its readiness changes. The defender never
/// gains hit points, and a shield of its that is broken stays broken. The
/// combat records themselves stay as they were.
pub proof fn lemma_attack_effects(
    attacker: CombatantView,
    defender: CombatantView,
    range_mod: int,
    is_ranged: bool,
    source: DiceView,
)
    ensures
        ({
            let outcome = attack_outcome(attacker, defender, range_mod, is_ranged, source);
            &&& outcome.attacker == after_swing(attacker)
            &&& outcome.defender.hp <= defender.hp
            &&& outcome.defender.shield_intact ==> defender.shield_intact
            &&& is_ranged ==> outcome.defender.shield_intact == defender.shield_intact
            &&& outcome.defender == (CombatantView {
                hp: outcome.defender.hp,
                shield_intact: outcome.defender.shield_intact,
                defense_plus_four_ready: defender.defense_plus_four_ready && !uses_readiness(
                    defender,
                ),
                ..defender
            })
        }),
{
    reveal(attack_outcome);
}

/// A shield takes a blow only where a melee attack misses a defender with an
/// intact shield by less than ten; never where the attack is ranged.
pub proof fn lemma_block_only_on_near_melee_miss(
    rolls: Exchange,
    defender: CombatantView,
    is_ranged: bool,
)
    ensures
        kind_of(rolls, defender, is_ranged) is Blocked <==> {
            &&& !is_ranged
            &&& defender.shield_intact
            &&& rolls.attack_roll < rolls.defense_roll
            &&& rolls.defense_roll - rolls.attack_roll < 10
        },
        is_ranged ==> !(kind_of(rolls, defender, is_ranged) is Blocked),
{
}

/// A shield breaks only by a blow that it took: an attack that changes
/// whether the defender's shield is intact was blocked.
pub proof fn lemma_shield_breaks_only_when_blocking(
    attacker: CombatantView,
    defender: CombatantView,
    range_mod: int,
    is_ranged: bool,
    source: DiceView,
)
    ensures
        attack_outcome(attacker, defender, range_mod, is_ranged, source).defender.shield_intact
            != defender.shield_intact ==> kind_of(
            exchange(attacker, defender, range_mod, is_ranged, source),
            defender,
            is_ranged,
        ) is Blocked,
{
    reveal(attack_outcome);
}

/// Raw shield damage that reaches the fourth threshold breaks the shield
/// without a roll. Damage from the third threshold up to the fourth leaves
/// the decision to the third step: without a save modifier the shield
/// breaks; with one it breaks exactly when the attacker's exploding d20 is at
/// least the defender's plus the modifier.
pub proof fn lemma_breakage_by_threshold(
    steps: [ShieldBreakageStep; 4],
    raw: int,
    source: DiceView,
)
    ensures
        raw >= steps[3].threshold ==> breakage(steps, raw, source) == (true, source),
        steps[2].threshold <= raw < steps[3].threshold ==> breakage(steps, raw, source) == opposed(
            steps[2],
            source,
        ),
        steps[2].save_mod is None ==> opposed(steps[2], source) == (true, source),
        steps[2].save_mod is Some ==> opposed(steps[2], source).0 == (penetrating_total(
            source,
            20,
        ).0 >= penetrating_total(penetrating_total(source, 20).1, 20).0
            + steps[2].save_mod->0),
{
}

/// Readiness is spent once for each time it is gained. A fighter to whom
/// readiness applies is ready after its own attack; the next attack on it
/// finds it ready and leaves it not ready; the attack after that finds it not
/// ready, and so without the bonus unless its weapon gives it anyway.
pub proof fn lemma_readiness_spent_once(
    holder: CombatantView,
    target: CombatantView,
    first: CombatantView,
    second: CombatantView,
    range_mods: (int, int, int),
    ranged: (bool, bool, bool),
    sources: (DiceView, DiceView, DiceView),
)
    requires
        uses_readiness(holder),
    ensures
        ({
            let gained = attack_outcome(holder, target, range_mods.0, ranged.0, sources.0).attacker;
            let spent = attack_outcome(first, gained, range_mods.1, ranged.1, sources.1).defender;
            let later = attack_outcome(second, spent, range_mods.2, ranged.2, sources.2).defender;
            &&& gained.defense_plus_four_ready
            &&& weapon_defense_bonus(gained) == 4
            &&& !spent.defense_plus_four_ready
            &&& weapon_defense_bonus(spent) == 0
            &&& !later.defense_plus_four_ready
        }),
{
    let gained = attack_outcome(holder, target, range_mods.0, ranged.0, sources.0).attacker;
    lemma_attack_effects(holder, target, range_mods.0, ranged.0, sources.0);
    lemma_attack_effects(first, gained, range_mods.1, ranged.1, sources.1);
    let spent = attack_outcome(first, gained, range_mods.1, ranged.1, sources.1).defender;
    lemma_attack_effects(second, spent, range_mods.2, ranged.2, sources.2);
}

} // verus!
