//! What drives the wands tick by tick: the animated feedback values and
//! the register of connected wands.

pub mod animation;
pub mod history;
pub mod players;
