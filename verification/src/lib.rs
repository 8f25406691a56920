//! A small engine for a turn-based resource-collection card game: a resource
//! algebra over per-currency token counts, a card table split into face-up and
//! hidden rows, and a turn-action state machine that validates and applies
//! player moves.

pub mod cards;
pub mod game;
pub mod rand;
pub mod tokens;
