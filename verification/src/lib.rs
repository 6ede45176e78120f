//! Discrete rules of a calendar-driven idle economy: which of the 31 day
//! slots are active, what a tick, a purchase or a prestige does to the
//! counts, and how saved progress is matched against the current upgrade
//! catalog.
//!
//! Everything held here is a whole number. Amounts that are not (the primary
//! currency, prices, production multipliers) are kept by the host; the
//! commands take the host's verdict on them, such as "the player can afford
//! this", and say exactly what follows.

use vstd::prelude::*;

pub mod clock;
pub mod commands;
pub mod economy;
pub mod laws;
pub mod snapshot;
pub mod upgrades;
pub mod window;

verus! {

/// Something that is brought up to date once per frame.
pub trait Update {
    fn update(&self);
}

} // verus!
