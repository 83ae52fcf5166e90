//! The terminal transition: an empty health counter ends the game.

use vstd::prelude::*;
use crate::state::GameState;

verus! {

/// Checks whether the game is over: with the health counter at zero the
/// state becomes — and stays — lost.  Returns whether the driver must
/// perform the game-over effects (show the "Game Over" label, stop the
/// music, play the jingle).
pub fn check_health(state: &mut GameState) -> (game_over: bool)
    ensures
        final(state).player_name == old(state).player_name,
        final(state).health_amount == old(state).health_amount,
        final(state).lost == (old(state).lost || old(state).health_amount == 0),
        game_over == (old(state).health_amount == 0),
{
    if state.health_amount == 0 {
        state.lost = true;
        true
    } else {
        false
    }
}

} // verus!
