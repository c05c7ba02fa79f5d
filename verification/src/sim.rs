//! The engagement: two fighters on a line, one-second ticks, movement, the
//! scheduling of attacks, and the log.

use crate::attack::{attack_outcome, lemma_attack_effects, resolve_attack, AttackOutcome};
use crate::combatant::{default_combatant, text_of, Combatant, CombatantView};
use crate::dice::{seeded_generator, DiceSource, DiceView};
use crate::range::{is_ranged, is_ranged_weapon, max_range, max_range_for_weapon};
use crate::range::{range_modifier, range_modifier_for_weapon};
use crate::text::{decimal, push_decimal};
use crate::units::{abs_of, add_milli, apart_milli, max_milli, max_of, min_milli, min_of};
use crate::units::{sat64, sub_milli, Milli};
use vstd::prelude::*;
use vstd::string::*;

verus! {

/// One whole second, and one whole foot, in thousandths.
pub const ONE: Milli = 1000;

/// The step by which a ranged fighter backs away: five feet.
pub const BACKSTEP: Milli = 5000;

/// The seed of every engagement.
pub const SEED: u64 = 1;

/// Where the fighters start, and the distance beyond which two melee fighters
/// only close ground. Both in thousandths of a foot.
#[derive(Clone, Copy, Debug, PartialEq, Eq, Structural)]
pub struct SimConfig {
    pub start_distance: Milli,
    pub stop_distance: Milli,
}

impl SimConfig {
    /// The configuration with these two distances.
    pub fn new(start_distance: Milli, stop_distance: Milli) -> (config: SimConfig)
        ensures
            config == (SimConfig { start_distance, stop_distance }),
    {
        SimConfig { start_distance, stop_distance }
    }
}

/// A place on the line, in thousandths of a foot. The first fighter starts
/// at zero and advances up the line; the second starts at the configured
/// distance and advances down it.
#[derive(Clone, Copy, Debug, PartialEq, Eq, Structural)]
pub struct SimActor {
    pub position: Milli,
}

/// An engagement.
#[derive(Clone, Debug)]
pub struct SimState {
    pub config: SimConfig,
    pub actors: [SimActor; 2],
    pub combatants: [Combatant; 2],
    pub elapsed_seconds: u32,
    pub done: bool,
    pub last_event: Option<String>,
    pub combat_log: Vec<String>,
    pub rng: DiceSource,
    pub tick_accum: Milli,
}

/// An engagement as the rules see it.
pub struct SimView {
    pub config: SimConfig,
    pub positions: (Milli, Milli),
    pub combatants: (CombatantView, CombatantView),
    pub elapsed_seconds: u32,
    pub done: bool,
    pub last_event: Option<Seq<char>>,
    pub log: Seq<Seq<char>>,
    pub source: DiceView,
    pub tick_accum: Milli,
}

/// The lines of a log as sequences of characters.
pub open spec fn lines_of(log: Seq<String>) -> Seq<Seq<char>> {
    log.map_values(|line: String| line@)
}

impl View for SimState {
    type V = SimView;

    open spec fn view(&self) -> SimView {
        SimView {
            config: self.config,
            positions: (self.actors[0].position, self.actors[1].position),
            combatants: (self.combatants[0]@, self.combatants[1]@),
            elapsed_seconds: self.elapsed_seconds,
            done: self.done,
            last_event: text_of(self.last_event),
            log: lines_of(self.combat_log@),
            source: self.rng@,
            tick_accum: self.tick_accum,
        }
    }
}

/// The distance between two places: the absolute value of their difference,
/// whichever lies further up the line, kept within `i64`.
pub open spec fn gap(positions: (Milli, Milli)) -> int {
    sat64(abs_of(positions.1 - positions.0))
}

/// The distance is never negative, it is the same from either side, and it
/// is zero exactly where the two places are one. Where the difference of the
/// places fits an `i64`, the distance is its absolute value.
pub proof fn lemma_distance_is_absolute(positions: (Milli, Milli))
    ensures
        gap(positions) >= 0,
        gap(positions) == gap((positions.1, positions.0)),
        gap(positions) == 0 <==> positions.0 == positions.1,
        positions.0 <= positions.1 && positions.1 - positions.0 <= i64::MAX ==> gap(positions)
            == positions.1 - positions.0,
        positions.1 <= positions.0 && positions.0 - positions.1 <= i64::MAX ==> gap(positions)
            == positions.0 - positions.1,
{
}

impl SimView {
    /// The distance between the fighters.
    pub open spec fn distance(self) -> int {
        gap(self.positions)
    }

    /// The engagement before its first tick: the fighters at their places,
    /// fresh, the clock at zero, the log empty, the random source seeded anew.
    pub open spec fn restarted(self) -> SimView {
        SimView {
            config: self.config,
            positions: (0, self.config.start_distance),
            combatants: (self.combatants.0.fresh(), self.combatants.1.fresh()),
            elapsed_seconds: 0,
            done: false,
            last_event: None,
            log: Seq::empty(),
            source: DiceView::Seeded(seeded_generator(SEED)),
            tick_accum: 0,
        }
    }
}

/// A new engagement with two stand-in fighters.
pub open spec fn new_sim(config: SimConfig) -> SimView {
    SimView {
        config,
        positions: (0, config.start_distance),
        combatants: (default_combatant(), default_combatant()),
        elapsed_seconds: 0,
        done: false,
        last_event: None,
        log: Seq::empty(),
        source: DiceView::Seeded(seeded_generator(SEED)),
        tick_accum: 0,
    }
}

impl SimState {
    /// A new engagement with two stand-in fighters, to be replaced by
    /// [`SimState::reset_with_combatants`].
    pub fn new(config: SimConfig) -> (state: SimState)
        ensures
            state@ == new_sim(config),
    {
        let state = SimState {
            config,
            actors: [SimActor { position: 0 }, SimActor { position: config.start_distance }],
            combatants: [Combatant::default(), Combatant::default()],
            elapsed_seconds: 0,
            done: false,
            last_event: None,
            combat_log: Vec::new(),
            rng: DiceSource::seeded(SEED),
            tick_accum: 0,
        };
        proof {
            assert(lines_of(state.combat_log@) =~= Seq::<Seq<char>>::empty());
        }
        state
    }

    /// Starts the engagement over with the fighters it has.
    pub fn reset(&mut self)
        ensures
            final(self)@ == old(self)@.restarted(),
    {
        self.actors = [SimActor { position: 0 }, SimActor { position: self.config.start_distance }];
        self.elapsed_seconds = 0;
        self.done = false;
        self.last_event = None;
        self.combat_log.clear();
        self.rng = DiceSource::seeded(SEED);
        self.combatants[0].reset_hp();
        self.combatants[1].reset_hp();
        self.tick_accum = 0;
        proof {
            assert(lines_of(self.combat_log@) =~= Seq::<Seq<char>>::empty());
        }
    }

    /// Starts an engagement of the two fighters given.
    pub fn reset_with_combatants(&mut self, combatants: [Combatant; 2])
        ensures
            final(self)@ == (SimView {
                combatants: (combatants[0]@, combatants[1]@),
                ..old(self)@
            }).restarted(),
    {
        self.combatants = combatants;
        self.reset();
    }

    /// The distance between the fighters, in thousandths of a foot: the
    /// absolute value of the difference of their places, whichever of them
    /// stands further up the line.
    pub fn distance(&self) -> (distance: Milli)
        ensures
            distance == self@.distance(),
            distance == sat64(abs_of(self.actors[1].position - self.actors[0].position)),
            distance >= 0,
    {
        apart_milli(self.actors[1].position, self.actors[0].position)
    }
}

/// A fighter's reach as the engine counts it: at least one foot.
pub open spec fn reach_of(fighter: CombatantView) -> int {
    max_of(fighter.reach_ft as int, ONE as int)
}

/// The ground a fighter covers in a tick: its movement speed, and not less
/// than nothing.
pub open spec fn step_of(fighter: CombatantView) -> int {
    max_of(fighter.move_speed as int, 0)
}

/// The time between two attacks of a fighter: its weapon's cycle time, and at
/// least one second.
pub open spec fn cycle_of(fighter: CombatantView) -> int {
    max_of(fighter.weapon_speed as int, ONE as int)
}

/// What one fighter's turn in a round leaves behind.
pub struct Turn {
    pub attacker: CombatantView,
    pub defender: CombatantView,
    pub source: DiceView,
    pub event: Option<Seq<char>>,
}

/// Whether the attacker may attack at all at this distance: both fighters
/// stand, and the defender is within reach, or within a usable range band.
pub open spec fn can_attack(
    attacker: CombatantView,
    defender: CombatantView,
    distance: int,
) -> bool {
    &&& attacker.hp > 0
    &&& defender.hp > 0
    &&& if is_ranged(attacker.weapon_name) {
        range_modifier(attacker.weapon_name, distance) is Some
    } else {
        distance <= reach_of(attacker)
    }
}

/// The time of the attacker's next attack: the time it has, or, on its first
/// turn, now, and a second later for a melee fighter whose reach is shorter
/// than the defender's.
pub open spec fn scheduled(attacker: CombatantView, defender: CombatantView, now: int) -> int {
    match attacker.next_attack_time {
        Some(at) => at as int,
        None => if !is_ranged(attacker.weapon_name) && attacker.reach_ft < defender.reach_ft {
            now + ONE
        } else {
            now
        },
    }
}

/// The range penalty of the attacker's weapon at this distance; zero for a
/// melee weapon.
pub open spec fn penalty_of(attacker: CombatantView, distance: int) -> int {
    match range_modifier(attacker.weapon_name, distance) {
        Some(p) => p,
        None => 0,
    }
}

/// One fighter's turn in a round. A fighter that cannot attack does nothing.
/// One that can has its next attack scheduled if it was not; if that time has
/// come it attacks, and its next attack is one cycle after the time that was
/// scheduled.
#[verifier::opaque]
pub open spec fn turn(
    attacker: CombatantView,
    defender: CombatantView,
    now: int,
    distance: int,
    source: DiceView,
) -> Turn {
    if !can_attack(attacker, defender, distance) {
        Turn { attacker, defender, source, event: None }
    } else {
        let at = scheduled(attacker, defender, now);
        let waiting = CombatantView { next_attack_time: Some(at as i64), ..attacker };
        if now >= at {
            let outcome = attack_outcome(
                waiting,
                defender,
                penalty_of(attacker, distance),
                is_ranged(attacker.weapon_name),
                source,
            );
            Turn {
                attacker: CombatantView {
                    next_attack_time: Some(sat64(at + cycle_of(attacker)) as i64),
                    ..outcome.attacker
                },
                defender: outcome.defender,
                source: outcome.source,
                event: Some(outcome.text),
            }
        } else {
            Turn { attacker: waiting, defender, source, event: None }
        }
    }
}

/// Whether a turn ended the engagement: an attack was made, and the defender
/// is down.
pub open spec fn ends_fight(turn: Turn) -> bool {
    turn.event is Some && turn.defender.hp <= 0
}

/// The line that a round adds to the log: the time, and the attacks of the
/// round joined by ` | `; no line for a round without an attack.
pub open spec fn round_line(
    elapsed: int,
    first: Option<Seq<char>>,
    second: Option<Seq<char>>,
) -> Option<Seq<char>> {
    let head = "t="@ + decimal(elapsed) + "s | "@;
    match first {
        Some(a) => match second {
            Some(b) => Some(head + a + " | "@ + b),
            None => Some(head + a),
        },
        None => match second {
            Some(b) => Some(head + b),
            None => None,
        },
    }
}

/// The clock of the engagement, in thousandths of a second.
pub open spec fn now_of(elapsed_seconds: u32) -> int {
    elapsed_seconds * ONE
}

/// The engagement with one more line in its log, which is also its last
/// event; unchanged where there is no line.
pub open spec fn logged(state: SimView, line: Option<Seq<char>>) -> SimView {
    match line {
        Some(text) => SimView { last_event: Some(text), log: state.log.push(text), ..state },
        None => state,
    }
}

/// One combat round: the first fighter's turn, then, unless that ended the
/// engagement, the second's. A round may end the engagement; it never
/// reopens one that is over.
pub open spec fn round(state: SimView) -> SimView {
    let now = now_of(state.elapsed_seconds);
    let distance = state.distance();
    let first = turn(state.combatants.0, state.combatants.1, now, distance, state.source);
    if ends_fight(first) {
        logged(
            SimView {
                combatants: (first.attacker, first.defender),
                source: first.source,
                done: true,
                ..state
            },
            round_line(state.elapsed_seconds as int, first.event, None),
        )
    } else {
        let second = turn(first.defender, first.attacker, now, distance, first.source);
        logged(
            SimView {
                combatants: (second.defender, second.attacker),
                source: second.source,
                done: state.done || ends_fight(second),
                ..state
            },
            round_line(state.elapsed_seconds as int, first.event, second.event),
        )
    }
}

/// Whether two fighters at this distance are still closing ground before the
/// fight: neither has a ranged weapon, and they are further apart than the
/// configured distance, which counts as at least one foot.
pub open spec fn closing_at(
    a: CombatantView,
    b: CombatantView,
    config: SimConfig,
    distance: int,
) -> bool {
    &&& !is_ranged(a.weapon_name)
    &&& !is_ranged(b.weapon_name)
    &&& distance > max_of(config.stop_distance as int, ONE as int)
}

/// Whether the fighters are still closing ground before the fight.
pub open spec fn closing(state: SimView) -> bool {
    closing_at(state.combatants.0, state.combatants.1, state.config, state.distance())
}

/// Both fighters advance, the first up the line and the second down it, and
/// neither has an attack scheduled.
pub open spec fn approach(state: SimView) -> SimView {
    SimView {
        positions: (
            sat64(state.positions.0 + step_of(state.combatants.0)) as i64,
            sat64(state.positions.1 - step_of(state.combatants.1)) as i64,
        ),
        combatants: (
            CombatantView { next_attack_time: None, ..state.combatants.0 },
            CombatantView { next_attack_time: None, ..state.combatants.1 },
        ),
        ..state
    }
}

/// How far a fighter steps back after a round in which either has a ranged
/// weapon; a negative number is an advance. The first fighter advances up
/// the line and the second down it, and each steps back the other way.
/// Nobody moves once the fighters are within the shorter of the two reaches.
/// Until then a ranged fighter backs away five feet while the other is within
/// its range, and advances where it is not; a melee fighter advances unless
/// its reach is the longer one.
pub open spec fn retreat_of(mover: CombatantView, other: CombatantView, distance: int) -> int {
    if distance <= min_of(reach_of(mover), reach_of(other)) {
        0
    } else {
        match max_range(mover.weapon_name) {
            Some(range) => if distance <= range {
                BACKSTEP as int
            } else {
                -step_of(mover)
            },
            None => if reach_of(mover) > reach_of(other) {
                0
            } else {
                -step_of(mover)
            },
        }
    }
}

/// The places of two fighters after a round's movement. Where either has a
/// ranged weapon each moves by its own rule. Where neither has, the one with
/// the shorter reach advances while it is out of reach, and none where the
/// reaches are equal.
pub open spec fn moved_from(a: CombatantView, b: CombatantView, positions: (Milli, Milli)) -> (
    Milli,
    Milli,
) {
    let distance = gap(positions);
    if is_ranged(a.weapon_name) || is_ranged(b.weapon_name) {
        (
            sat64(positions.0 - retreat_of(a, b, distance)) as i64,
            sat64(positions.1 + retreat_of(b, a, distance)) as i64,
        )
    } else if distance > min_of(reach_of(a), reach_of(b)) {
        if reach_of(a) < reach_of(b) {
            (sat64(positions.0 + step_of(a)) as i64, positions.1)
        } else if reach_of(b) < reach_of(a) {
            (positions.0, sat64(positions.1 - step_of(b)) as i64)
        } else {
            positions
        }
    } else {
        positions
    }
}

/// The places of the fighters after a round's movement.
pub open spec fn moved(state: SimView) -> (Milli, Milli) {
    moved_from(state.combatants.0, state.combatants.1, state.positions)
}

/// The number of seconds after one more, as far as a `u32` can count.
pub open spec fn next_second(elapsed_seconds: u32) -> u32 {
    if elapsed_seconds < u32::MAX {
        (elapsed_seconds + 1) as u32
    } else {
        elapsed_seconds
    }
}

/// The end of a tick that began with the fighters at `from`: each fighter is
/// marked as moved or not, and the clock goes on by a second.
pub open spec fn close_tick(state: SimView, from: (Milli, Milli)) -> SimView {
    SimView {
        combatants: (
            CombatantView {
                moved_last_tick: state.positions.0 != from.0,
                ..state.combatants.0
            },
            CombatantView {
                moved_last_tick: state.positions.1 != from.1,
                ..state.combatants.1
            },
        ),
        elapsed_seconds: next_second(state.elapsed_seconds),
        ..state
    }
}

/// One tick. An engagement that is over stays as it is. Otherwise the
/// fighters close ground, or fight a round and then move.
pub open spec fn tick_of(state: SimView) -> SimView {
    if state.done {
        state
    } else if closing(state) {
        close_tick(approach(state), state.positions)
    } else {
        let fought = round(state);
        close_tick(SimView { positions: moved(fought), ..fought }, state.positions)
    }
}

/// The engagement after `n` ticks.
pub open spec fn ticks_of(state: SimView, n: nat) -> SimView
    decreases n,
{
    if n == 0 {
        state
    } else {
        ticks_of(tick_of(state), (n - 1) as nat)
    }
}

/// A tick leaves the time that is not yet ticked off as it is.
pub proof fn lemma_tick_keeps_accum(state: SimView)
    ensures
        tick_of(state).tick_accum == state.tick_accum,
        tick_of(state).config == state.config,
{
}

/// The engagement after the whole seconds of its pending time have been
/// ticked off, one tick for each, unless it ends before.
pub open spec fn run_of(state: SimView) -> SimView
    decreases state.tick_accum,
    via run_of_decreases
{
    if state.tick_accum >= ONE {
        let ticked = tick_of(SimView { tick_accum: (state.tick_accum - ONE) as i64, ..state });
        if ticked.done {
            ticked
        } else {
            run_of(ticked)
        }
    } else {
        state
    }
}

#[via_fn]
proof fn run_of_decreases(state: SimView) {
    if state.tick_accum >= ONE {
        lemma_tick_keeps_accum(SimView { tick_accum: (state.tick_accum - ONE) as i64, ..state });
    }
}

/// The engagement after `dt` thousandths of a second more: the time is added
/// to the pending time, and the whole seconds of that are ticked off. An
/// engagement that is over stays as it is.
pub open spec fn update_of(state: SimView, dt: int) -> SimView {
    if state.done {
        state
    } else {
        run_of(SimView { tick_accum: sat64(state.tick_accum + dt) as i64, ..state })
    }
}

fn reach(fighter: &Combatant) -> (r: Milli)
    ensures
        r == reach_of(fighter@),
{
    max_milli(fighter.reach_ft, ONE)
}

fn step(fighter: &Combatant) -> (r: Milli)
    ensures
        r == step_of(fighter@),
{
    max_milli(fighter.move_speed, 0)
}

fn cycle(fighter: &Combatant) -> (r: Milli)
    ensures
        r == cycle_of(fighter@),
{
    max_milli(fighter.weapon_speed, ONE)
}

fn set_next_attack(fighter: &mut Combatant, at: Option<Milli>)
    ensures
        final(fighter)@ == (CombatantView { next_attack_time: at, ..old(fighter)@ }),
{
    fighter.next_attack_time = at;
}

fn set_moved(fighter: &mut Combatant, moved: bool)
    ensures
        final(fighter)@ == (CombatantView { moved_last_tick: moved, ..old(fighter)@ }),
{
    fighter.moved_last_tick = moved;
}

/// Whether the attacker may attack at this distance, and if so with which
/// range penalty and whether with a ranged weapon.
fn ability(
    attacker: &Combatant,
    defender: &Combatant,
    distance: Milli,
) -> (able: Option<(i32, bool)>)
    ensures
        match able {
            Some(found) => {
                &&& can_attack(attacker@, defender@, distance as int)
                &&& found.0 == penalty_of(attacker@, distance as int)
                &&& found.1 == is_ranged(attacker@.weapon_name)
            },
            None => !can_attack(attacker@, defender@, distance as int),
        },
{
    if attacker.hp <= 0 || defender.hp <= 0 {
        return None;
    }
    if is_ranged_weapon(attacker.weapon_name.as_str()) {
        match range_modifier_for_weapon(attacker.weapon_name.as_str(), distance) {
            Some(penalty) => Some((penalty, true)),
            None => None,
        }
    } else if distance > reach(attacker) {
        None
    } else {
        Some((0, false))
    }
}

fn first_attack_time(attacker: &Combatant, defender: &Combatant, ranged: bool, now: Milli) -> (at:
    Milli)
    requires
        ranged == is_ranged(attacker@.weapon_name),
        0 <= now <= u32::MAX * ONE,
    ensures
        at == scheduled(attacker@, defender@, now as int),
{
    match attacker.next_attack_time {
        Some(at) => at,
        None => if !ranged && attacker.reach_ft < defender.reach_ft {
            now + ONE
        } else {
            now
        },
    }
}

/// The attacker, whose attack was due at `at`, attacks, and will attack again
/// at `again`.
fn strike(
    combatants: &mut [Combatant; 2],
    attacker_idx: usize,
    defender_idx: usize,
    at: Milli,
    again: Milli,
    penalty: i32,
    ranged: bool,
    rng: &mut DiceSource,
) -> (text: String)
    requires
        attacker_idx < 2,
        defender_idx < 2,
        attacker_idx != defender_idx,
    ensures
        final(combatants)[attacker_idx as int]@ == (CombatantView {
            next_attack_time: Some(again),
            ..attack_outcome(
                CombatantView {
                    next_attack_time: Some(at),
                    ..old(combatants)[attacker_idx as int]@
                },
                old(combatants)[defender_idx as int]@,
                penalty as int,
                ranged,
                old(rng)@,
            ).attacker
        }),
        final(combatants)[defender_idx as int]@ == attack_outcome(
            CombatantView {
                next_attack_time: Some(at),
                ..old(combatants)[attacker_idx as int]@
            },
            old(combatants)[defender_idx as int]@,
            penalty as int,
            ranged,
            old(rng)@,
        ).defender,
        text@ == attack_outcome(
            CombatantView {
                next_attack_time: Some(at),
                ..old(combatants)[attacker_idx as int]@
            },
            old(combatants)[defender_idx as int]@,
            penalty as int,
            ranged,
            old(rng)@,
        ).text,
        final(rng)@ == attack_outcome(
            CombatantView {
                next_attack_time: Some(at),
                ..old(combatants)[attacker_idx as int]@
            },
            old(combatants)[defender_idx as int]@,
            penalty as int,
            ranged,
            old(rng)@,
        ).source,
{
    set_next_attack(&mut combatants[attacker_idx], Some(at));
    let text = resolve_attack(combatants, attacker_idx, defender_idx, penalty, ranged, rng);
    set_next_attack(&mut combatants[attacker_idx], Some(again));
    text
}

proof fn lemma_turn_idle(
    attacker: CombatantView,
    defender: CombatantView,
    now: int,
    distance: int,
    source: DiceView,
)
    requires
        !can_attack(attacker, defender, distance),
    ensures
        turn(attacker, defender, now, distance, source) == (Turn {
            attacker,
            defender,
            source,
            event: None,
        }),
{
    reveal(turn);
}

proof fn lemma_turn_wait(
    attacker: CombatantView,
    defender: CombatantView,
    now: int,
    distance: int,
    source: DiceView,
    at: Milli,
)
    requires
        can_attack(attacker, defender, distance),
        at == scheduled(attacker, defender, now),
        now < at,
    ensures
        turn(attacker, defender, now, distance, source) == (Turn {
            attacker: CombatantView { next_attack_time: Some(at), ..attacker },
            defender,
            source,
            event: None,
        }),
{
    reveal(turn);
}

proof fn lemma_turn_strike(
    attacker: CombatantView,
    defender: CombatantView,
    now: int,
    distance: int,
    source: DiceView,
    at: Milli,
    again: Milli,
    outcome: AttackOutcome,
)
    requires
        can_attack(attacker, defender, distance),
        at == scheduled(attacker, defender, now),
        now >= at,
        again == sat64(at + cycle_of(attacker)),
        outcome == attack_outcome(
            CombatantView { next_attack_time: Some(at), ..attacker },
            defender,
            penalty_of(attacker, distance),
            is_ranged(attacker.weapon_name),
            source,
        ),
    ensures
        turn(attacker, defender, now, distance, source) == (Turn {
            attacker: CombatantView { next_attack_time: Some(again), ..outcome.attacker },
            defender: outcome.defender,
            source: outcome.source,
            event: Some(outcome.text),
        }),
{
    reveal(turn);
}

/// One fighter's turn in a round. Returns the line of its attack, if it
/// made one.
fn take_turn(
    combatants: &mut [Combatant; 2],
    attacker_idx: usize,
    defender_idx: usize,
    now: Milli,
    distance: Milli,
    rng: &mut DiceSource,
) -> (event: Option<String>)
    requires
        attacker_idx < 2,
        defender_idx < 2,
        attacker_idx != defender_idx,
        0 <= now <= u32::MAX * ONE,
    ensures
        (Turn {
            attacker: final(combatants)[attacker_idx as int]@,
            defender: final(combatants)[defender_idx as int]@,
            source: final(rng)@,
            event: text_of(event),
        }) == turn(
            old(combatants)[attacker_idx as int]@,
            old(combatants)[defender_idx as int]@,
            now as int,
            distance as int,
            old(rng)@,
        ),
{
    let ghost attacker = combatants[attacker_idx as int]@;
    let ghost defender = combatants[defender_idx as int]@;
    let ghost source = rng@;
    match ability(&combatants[attacker_idx], &combatants[defender_idx], distance) {
        None => {
            proof {
                lemma_turn_idle(attacker, defender, now as int, distance as int, source);
            }
            None
        },
        Some((penalty, ranged)) => {
            let at = first_attack_time(
                &combatants[attacker_idx],
                &combatants[defender_idx],
                ranged,
                now,
            );
            if now >= at {
                let again = add_milli(at, cycle(&combatants[attacker_idx]));
                let text = strike(
                    combatants,
                    attacker_idx,
                    defender_idx,
                    at,
                    again,
                    penalty,
                    ranged,
                    rng,
                );
                proof {
                    lemma_turn_strike(
                        attacker,
                        defender,
                        now as int,
                        distance as int,
                        source,
                        at,
                        again,
                        attack_outcome(
                            CombatantView { next_attack_time: Some(at), ..attacker },
                            defender,
                            penalty as int,
                            ranged,
                            source,
                        ),
                    );
                }
                Some(text)
            } else {
                set_next_attack(&mut combatants[attacker_idx], Some(at));
                proof {
                    lemma_turn_wait(attacker, defender, now as int, distance as int, source, at);
                }
                None
            }
        },
    }
}

/// The line of a round, from the lines of its attacks.
fn compose_line(elapsed_seconds: u32, first: Option<String>, second: Option<String>) -> (line:
    Option<String>)
    ensures
        text_of(line) == round_line(elapsed_seconds as int, text_of(first), text_of(second)),
{
    if first.is_none() && second.is_none() {
        return None;
    }
    let mut line = String::new();
    line.append("t=");
    push_decimal(&mut line, elapsed_seconds as i64);
    line.append("s | ");
    let ghost head = line@;
    proof {
        assert(head =~= "t="@ + decimal(elapsed_seconds as int) + "s | "@);
    }
    match first {
        Some(a) => {
            line.append(a.as_str());
            match second {
                Some(b) => {
                    line.append(" | ");
                    line.append(b.as_str());
                    proof {
                        assert(line@ =~= head + a@ + " | "@ + b@);
                    }
                },
                None => {},
            }
        },
        None => {
            match second {
                Some(b) => {
                    line.append(b.as_str());
                },
                None => {},
            }
        },
    }
    Some(line)
}

fn down(fighter: &Combatant) -> (yes: bool)
    ensures
        yes == (fighter@.hp <= 0),
{
    fighter.hp <= 0
}

impl SimState {
    fn log_line(&mut self, line: Option<String>)
        ensures
            final(self)@ == logged(old(self)@, text_of(line)),
    {
        match line {
            Some(text) => {
                self.combat_log.push(text.clone());
                self.last_event = Some(text);
                proof {
                    assert(lines_of(self.combat_log@) =~= lines_of(old(self).combat_log@).push(
                        text@,
                    ));
                }
            },
            None => {},
        }
    }

    fn now(&self) -> (now: Milli)
        ensures
            now == now_of(self.elapsed_seconds),
            0 <= now <= u32::MAX * ONE,
    {
        self.elapsed_seconds as i64 * ONE
    }

    /// One combat round: each fighter's turn, and the line for the log. An
    /// engagement that is over stays over.
    pub fn resolve_combat_round(&mut self)
        ensures
            final(self)@ == round(old(self)@),
            old(self).done ==> final(self).done,
    {
        let now = self.now();
        let distance = self.distance();
        let first = take_turn(&mut self.combatants, 0, 1, now, distance, &mut self.rng);
        if first.is_some() && down(&self.combatants[1]) {
            self.done = true;
            let line = compose_line(self.elapsed_seconds, first, None);
            self.log_line(line);
        } else {
            let second = take_turn(&mut self.combatants, 1, 0, now, distance, &mut self.rng);
            if second.is_some() && down(&self.combatants[0]) {
                self.done = true;
            }
            let line = compose_line(self.elapsed_seconds, first, second);
            self.log_line(line);
        }
    }
}

/// How far a fighter moves away from the other after a round.
fn retreat(mover: &Combatant, other: &Combatant, distance: Milli) -> (r: Milli)
    ensures
        r == retreat_of(mover@, other@, distance as int),
{
    if distance <= min_milli(reach(mover), reach(other)) {
        return 0;
    }
    match max_range_for_weapon(mover.weapon_name.as_str()) {
        Some(range) => if distance <= range {
            BACKSTEP
        } else {
            -step(mover)
        },
        None => if reach(mover) > reach(other) {
            0
        } else {
            -step(mover)
        },
    }
}

/// The places of the fighters after a round's movement.
fn places_after(
    a: &Combatant,
    b: &Combatant,
    positions: (Milli, Milli),
    distance: Milli,
) -> (places: (Milli, Milli))
    requires
        distance == gap(positions),
    ensures
        places == moved_from(a@, b@, positions),
{
    if is_ranged_weapon(a.weapon_name.as_str()) || is_ranged_weapon(b.weapon_name.as_str()) {
        (
            sub_milli(positions.0, retreat(a, b, distance)),
            add_milli(positions.1, retreat(b, a, distance)),
        )
    } else if distance > min_milli(reach(a), reach(b)) {
        if reach(a) < reach(b) {
            (add_milli(positions.0, step(a)), positions.1)
        } else if reach(b) < reach(a) {
            (positions.0, sub_milli(positions.1, step(b)))
        } else {
            positions
        }
    } else {
        positions
    }
}

fn is_closing(a: &Combatant, b: &Combatant, config: &SimConfig, distance: Milli) -> (yes: bool)
    ensures
        yes == closing_at(a@, b@, *config, distance as int),
{
    !is_ranged_weapon(a.weapon_name.as_str()) && !is_ranged_weapon(b.weapon_name.as_str())
        && distance > max_milli(config.stop_distance, ONE)
}

impl SimState {
    fn place(&mut self, places: (Milli, Milli))
        ensures
            final(self)@ == (SimView { positions: places, ..old(self)@ }),
    {
        self.actors = [SimActor { position: places.0 }, SimActor { position: places.1 }];
    }

    fn advance(&mut self)
        ensures
            final(self)@ == approach(old(self)@),
    {
        let places = (
            add_milli(self.actors[0].position, step(&self.combatants[0])),
            sub_milli(self.actors[1].position, step(&self.combatants[1])),
        );
        self.place(places);
        set_next_attack(&mut self.combatants[0], None);
        set_next_attack(&mut self.combatants[1], None);
    }

    fn reposition(&mut self)
        ensures
            final(self)@ == (SimView { positions: moved(old(self)@), ..old(self)@ }),
    {
        let distance = self.distance();
        let places = places_after(
            &self.combatants[0],
            &self.combatants[1],
            (self.actors[0].position, self.actors[1].position),
            distance,
        );
        self.place(places);
    }

    fn close(&mut self, from: (Milli, Milli))
        ensures
            final(self)@ == close_tick(old(self)@, from),
    {
        let moved_a = self.actors[0].position != from.0;
        let moved_b = self.actors[1].position != from.1;
        set_moved(&mut self.combatants[0], moved_a);
        set_moved(&mut self.combatants[1], moved_b);
        if self.elapsed_seconds < u32::MAX {
            self.elapsed_seconds = self.elapsed_seconds + 1;
        }
    }

    /// Advances the engagement by one second: the fighters close ground, or
    /// fight a round and then move. An engagement that is over stays as it is.
    pub fn tick(&mut self)
        ensures
            final(self)@ == tick_of(old(self)@),
            old(self).done ==> final(self)@ == old(self)@,
            !old(self).done ==> (final(self).done <==> {
                ||| old(self).combatants[0].hp > 0 && final(self).combatants[0].hp <= 0
                ||| old(self).combatants[1].hp > 0 && final(self).combatants[1].hp <= 0
            }),
    {
        if self.done {
            return;
        }
        proof {
            lemma_done_when_a_fighter_falls(self@);
        }
        let from = (self.actors[0].position, self.actors[1].position);
        let distance = self.distance();
        if is_closing(&self.combatants[0], &self.combatants[1], &self.config, distance) {
            self.advance();
        } else {
            self.resolve_combat_round();
            self.reposition();
        }
        self.close(from);
    }

    /// Advances the engagement by `dt` thousandths of a second: one tick for
    /// every whole second that has gathered, until the engagement is over.
    pub fn update(&mut self, dt: Milli)
        ensures
            final(self)@ == update_of(old(self)@, dt as int),
            old(self).done ==> final(self)@ == old(self)@,
    {
        if self.done {
            return;
        }
        self.tick_accum = add_milli(self.tick_accum, dt);
        while self.tick_accum >= ONE
            invariant_except_break
                !self.done,
                update_of(old(self)@, dt as int) == run_of(self@),
            ensures
                update_of(old(self)@, dt as int) == self@,
            decreases self.tick_accum,
        {
            self.tick_accum = self.tick_accum - ONE;
            proof {
                lemma_tick_keeps_accum(self@);
            }
            self.tick();
            if self.done {
                break;
            }
        }
    }
}

/// What a turn changes, and what it leaves. The attacker keeps its hit points
/// and its shield, and the time of its next attack, once set, stays set and
/// does not go back. The defender never gains hit points, a shield of its
/// that is broken stays broken, and the time of its next attack stays as it
/// is. Without an attack the defender and the random source stay as they
/// were; an attack is made only while both stand.
pub proof fn lemma_turn_effects(
    attacker: CombatantView,
    defender: CombatantView,
    now: int,
    distance: int,
    source: DiceView,
)
    ensures
        ({
            let after = turn(attacker, defender, now, distance, source);
            &&& after.attacker.hp == attacker.hp
            &&& after.attacker.shield_intact == attacker.shield_intact
            &&& after.defender.hp <= defender.hp
            &&& after.defender.shield_intact ==> defender.shield_intact
            &&& after.event is None ==> after.defender == defender && after.source == source
            &&& after.event is Some ==> attacker.hp > 0 && defender.hp > 0
            &&& after.defender.next_attack_time == defender.next_attack_time
            &&& attacker.next_attack_time is Some ==> after.attacker.next_attack_time is Some
                && after.attacker.next_attack_time->0 >= attacker.next_attack_time->0
        }),
{
    reveal(turn);
    if can_attack(attacker, defender, distance) {
        let at = scheduled(attacker, defender, now);
        lemma_attack_effects(
            CombatantView { next_attack_time: Some(at as i64), ..attacker },
            defender,
            penalty_of(attacker, distance),
            is_ranged(attacker.weapon_name),
            source,
        );
    }
}

/// What a round changes: no fighter gains hit points, no broken shield is
/// whole again, no time of a next attack that is set goes back, and the round
/// ends the engagement exactly when a fighter who stood goes down in it.
pub proof fn lemma_round_effects(state: SimView)
    requires
        !state.done,
    ensures
        ({
            let after = round(state);
            &&& after.combatants.0.hp <= state.combatants.0.hp
            &&& after.combatants.1.hp <= state.combatants.1.hp
            &&& after.combatants.0.shield_intact ==> state.combatants.0.shield_intact
            &&& after.combatants.1.shield_intact ==> state.combatants.1.shield_intact
            &&& after.positions == state.positions
            &&& after.elapsed_seconds == state.elapsed_seconds
            &&& state.combatants.0.next_attack_time is Some
                ==> after.combatants.0.next_attack_time is Some
                && after.combatants.0.next_attack_time->0
                >= state.combatants.0.next_attack_time->0
            &&& state.combatants.1.next_attack_time is Some
                ==> after.combatants.1.next_attack_time is Some
                && after.combatants.1.next_attack_time->0
                >= state.combatants.1.next_attack_time->0
            &&& after.done <==> {
                ||| state.combatants.0.hp > 0 && after.combatants.0.hp <= 0
                ||| state.combatants.1.hp > 0 && after.combatants.1.hp <= 0
            }
        }),
{
    let now = now_of(state.elapsed_seconds);
    let distance = state.distance();
    let first = turn(state.combatants.0, state.combatants.1, now, distance, state.source);
    lemma_turn_effects(state.combatants.0, state.combatants.1, now, distance, state.source);
    if !ends_fight(first) {
        lemma_turn_effects(first.defender, first.attacker, now, distance, first.source);
    }
}

/// A round on an engagement that is over leaves it over.
pub proof fn lemma_round_keeps_over(state: SimView)
    requires
        state.done,
    ensures
        round(state).done,
{
}

/// The engagement ends exactly on the tick in which a fighter who stood goes
/// down.
pub proof fn lemma_done_when_a_fighter_falls(state: SimView)
    requires
        !state.done,
    ensures
        tick_of(state).done <==> {
            ||| state.combatants.0.hp > 0 && tick_of(state).combatants.0.hp <= 0
            ||| state.combatants.1.hp > 0 && tick_of(state).combatants.1.hp <= 0
        },
{
    if !closing(state) {
        lemma_round_effects(state);
    }
}

/// An engagement that is over stays as it is, whatever is called on it: one
/// tick, any number of ticks, or any passing of time.
pub proof fn lemma_over_stays_over(state: SimView, n: nat, dt: int)
    requires
        state.done,
    ensures
        tick_of(state) == state,
        ticks_of(state, n) == state,
        update_of(state, dt) == state,
    decreases n,
{
    if n > 0 {
        lemma_over_stays_over(state, (n - 1) as nat, dt);
    }
}

/// Once over, always over: an engagement that is over after some ticks is
/// over after more, and in the same state.
pub proof fn lemma_done_is_final(state: SimView, n: nat, more: nat)
    requires
        ticks_of(state, n).done,
    ensures
        ticks_of(state, n + more) == ticks_of(state, n),
    decreases n,
{
    if n == 0 {
        lemma_over_stays_over(state, more, 0);
    } else {
        lemma_done_is_final(tick_of(state), (n - 1) as nat, more);
    }
}

/// Through a tick no fighter gains hit points, no broken shield is whole
/// again, and the distance is not negative.
pub proof fn lemma_tick_effects(state: SimView)
    ensures
        ({
            let after = tick_of(state);
            &&& after.combatants.0.hp <= state.combatants.0.hp
            &&& after.combatants.1.hp <= state.combatants.1.hp
            &&& after.combatants.0.shield_intact ==> state.combatants.0.shield_intact
            &&& after.combatants.1.shield_intact ==> state.combatants.1.shield_intact
            &&& after.distance() >= 0
            &&& state.done ==> after.done
        }),
{
    if !state.done && !closing(state) {
        lemma_round_effects(state);
    }
}

/// Engagements that are started with equal records under equal
/// configurations have equal logs after equally many ticks, whatever went on
/// in them before: the start seeds the random source anew, and every tick is
/// a function of the engagement.
pub proof fn lemma_equal_starts_equal_logs(
    one: SimView,
    other: SimView,
    records: (CombatantView, CombatantView),
    n: nat,
)
    requires
        one.config == other.config,
    ensures
        ticks_of((SimView { combatants: records, ..one }).restarted(), n).log == ticks_of(
            (SimView { combatants: records, ..other }).restarted(),
            n,
        ).log,
        ticks_of((SimView { combatants: records, ..one }).restarted(), n) == ticks_of(
            (SimView { combatants: records, ..other }).restarted(),
            n,
        ),
{
}

} // verus!
