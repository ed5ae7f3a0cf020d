//! A discrete-tick combat simulation: actors execute prioritized action
//! rotations against a target, gated by cooldowns, combos and status
//! effects, with an integer damage formula.

pub mod actor;
pub mod arith;
pub mod sim;
pub mod world;
