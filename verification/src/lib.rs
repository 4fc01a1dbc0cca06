//! Deterministic rules kernel for a turn-based card-battle game: an
//! effect-queue interpreter with modifier (buff/debuff) bookkeeping, an
//! action-to-effect translator, a derived input-state machine, and
//! per-archetype monster move selection. Driven step by step by an external
//! caller and reproducible from a seed and an action sequence.

pub mod types;
pub mod modifier;
pub mod effect;
pub mod card;
pub mod rng;
pub mod state;
pub mod monster;
pub mod game_map;
pub mod process;
pub mod action;
pub mod game;

