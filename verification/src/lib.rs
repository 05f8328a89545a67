//! A deterministic rules kernel for Magic: The Gathering duels, centred on
//! lands and the mana they make.

pub mod actions;
pub mod board;
pub mod cardkit;
pub mod cards;
pub mod catalog;
pub mod choices;
pub mod combat;
pub mod effects;
pub mod engine;
pub mod flow;
pub mod helpers;
pub mod ids;
pub mod laws;
pub mod legal;
pub mod mana;
pub mod query;
pub mod rules;
pub mod sets;
pub mod state;
pub mod testkit;
pub mod turn;
pub mod vecs;
