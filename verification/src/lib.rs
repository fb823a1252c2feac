//! The rules of HashQuest, a crypto-mining idle game: the clock, the rig and
//! its upgrades, coin selection, the paint studio's undo stack and palette,
//! and the bookkeeping behind cloud saves.
use vstd::prelude::*;

pub mod text;
pub mod game_time;
pub mod slots;
pub mod mining_rig;
pub mod selection;
pub mod ui_state;
pub mod market;
pub mod galaxy;
pub mod schedule;
pub mod upgrades;
pub mod resume;

verus! {
} // verus!
