//! Rules state of a trading-card game: what one card carries while it is in
//! play, and the order in which a turn runs through its phases.

pub mod card;
pub mod phase_manager;
