//! The game's own mutable record: the player's name, the health counter and
//! the terminal "lost" flag.

use vstd::prelude::*;
use crate::INITIAL_HEALTH;

verus! {

/// State the core owns across frames.  Everything else (sprite positions,
/// audio, text labels) belongs to the engine and is handed in per frame.
pub struct GameState {
    /// Identifier of the player's entity; never changes after creation.
    pub player_name: String,
    /// Remaining health; starts at [`INITIAL_HEALTH`] and never increases.
    pub health_amount: u8,
    /// Terminal flag: once set, no frame update mutates anything again.
    pub lost: bool,
}

impl GameState {
    /// The health counter never exceeds its initial value.
    pub open spec fn wf(self) -> bool {
        self.health_amount <= INITIAL_HEALTH
    }

    /// A fresh state: full health, game not lost.
    pub fn new(player_name: String) -> (s: GameState)
        ensures
            s.player_name == player_name,
            s.health_amount == INITIAL_HEALTH,
            !s.lost,
            s.wf(),
    {
        GameState { player_name, health_amount: INITIAL_HEALTH, lost: false }
    }
}

} // verus!
