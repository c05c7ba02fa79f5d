//! A duel of two fighters under a dice-based ruleset, advanced in ticks of
//! one second and logged attack by attack.
//!
//! The engine is [`sim::SimState`]. It takes two combat records
//! ([`combatant::Combatant`]), moves the fighters, schedules their attacks and
//! resolves each one ([`attack::resolve_attack`]) with rolls of damage
//! expressions ([`expr`]) from a random source ([`dice::DiceSource`]). Every
//! function states what it computes over a mathematical view of its data, so
//! that an engagement is a function of its records, its configuration and
//! its random source.
//!
//! Lengths and times are fixed-point numbers in thousandths ([`units::Milli`]).

pub mod units;
pub mod text;
pub mod dice;
pub mod grammar;
pub mod expr;
pub mod range;
pub mod combatant;
pub mod attack;
pub mod sim;
pub mod character;
pub mod gear;
pub mod sheet;
pub mod setup;
