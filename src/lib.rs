//! The round engine of a colour-matching puzzle: palettes of near-identical
//! colours, a difficulty curve, tile layout, a pausable countdown, and a
//! paginated history of the rounds played.

mod random;

pub mod color;
pub mod difficulty;
pub mod timer;
pub mod layout;
pub mod round;
pub mod history;
pub mod engine;
pub mod menu;

