//! One frame of the game: the per-frame entry point the driver calls, and
//! the record of side effects it must perform afterwards.

use vstd::prelude::*;
use crate::collisions::{handle_collisions, health_after, CollisionEvent};
use crate::entity::{coords_bounded, wf_world, Entity, Role};
use crate::health::check_health;
use crate::input::direction_of;
use crate::kinematics::{handle_keyboard, move_road_objects, player_oob, scrolled};
use crate::state::GameState;
use crate::text::health_text_of;
use crate::{PLAYER_SPEED, PLAYER_TILT};

verus! {

/// Everything the engine tells the core about one frame.
pub struct FrameInput {
    /// Time since the previous frame, in milliseconds.
    pub delta_ms: u32,
    /// Whether the "up" key is currently held.
    pub up_pressed: bool,
    /// Whether the "down" key is currently held.
    pub down_pressed: bool,
    /// Collision notifications since the previous frame, in order.
    pub collisions: Vec<CollisionEvent>,
}

/// Everything the driver must do after one frame, besides writing the new
/// entity positions back to the engine.
pub struct FrameOutput {
    /// How many impact sound effects to play: one per health point lost to
    /// a collision this frame.
    pub impacts: u8,
    /// The new text of the health label, if a collision changed it.
    pub health_text: Option<String>,
    /// Whether the game ended this frame: show the "Game Over" label, stop
    /// the music and play the game-over sound, exactly once.
    pub game_over: bool,
}

impl FrameOutput {
    /// An output that asks the driver to do nothing at all.
    pub open spec fn quiet(self) -> bool {
        self.impacts == 0 && self.health_text is None && !self.game_over
    }
}

/// The vertical position the player's car reaches this frame.
pub open spec fn player_y_after(y0: int, up: bool, down: bool, dt: int) -> int {
    y0 + direction_of(up, down) * PLAYER_SPEED * dt
}

/// The health counter once the boundary is accounted for: leaving the road
/// forfeits all health at once.
pub open spec fn health_after_boundary(h: nat, y_new: int) -> nat {
    if player_oob(y_new) {
        0
    } else {
        h
    }
}

/// Leaving the road forfeits the whole health counter: whatever health the
/// player had before, and whatever collision events the same frame also
/// brought, a frame whose new vertical position is out of bounds ends with
/// exactly zero health.
pub proof fn lemma_boundary_zeroes_health(
    events: Seq<CollisionEvent>,
    player: Seq<char>,
    h: nat,
    y_new: int,
)
    requires
        player_oob(y_new),
    ensures
        health_after(events, player, health_after_boundary(h, y_new)) == 0,
{
    crate::collisions::lemma_health_after_le(events, player, health_after_boundary(h, y_new));
}

/// Runs one frame: steers the player, scrolls road lines and obstacles,
/// charges collisions against the health counter and detects the end of
/// the game.  Once the game is lost the call changes nothing at all.
pub fn game_logic(state: &mut GameState, entities: &mut Vec<Entity>, input: &FrameInput) -> (out:
    FrameOutput)
    requires
        !old(state).lost ==> wf_world(old(entities)@, old(state).player_name@),
        !old(state).lost ==> coords_bounded(old(entities)@),
    ensures
        final(state).player_name == old(state).player_name,
        final(state).health_amount <= old(state).health_amount,
        final(entities)@.len() == old(entities)@.len(),
        old(state).lost ==> {
            &&& *final(state) == *old(state)
            &&& final(entities)@ == old(entities)@
            &&& out.quiet()
        },
        !old(state).lost ==> {
            &&& final(state).lost == (final(state).health_amount == 0)
            &&& out.game_over == (final(state).health_amount == 0)
            &&& (out.impacts > 0 ==> (out.health_text matches Some(t) && t@ == health_text_of(
                final(state).health_amount as nat,
            )))
            &&& (out.impacts == 0 ==> out.health_text is None)
        },
        !old(state).lost ==> forall|i: int|
            0 <= i < old(entities)@.len() && old(entities)@[i].label@ != old(
                state,
            ).player_name@ ==> scrolled(
                old(entities)@[i],
                #[trigger] final(entities)@[i],
                input.delta_ms as int,
            ),
        !old(state).lost ==> forall|i: int|
            0 <= i < old(entities)@.len() && old(entities)@[i].label@ == old(
                state,
            ).player_name@ ==> {
                &&& #[trigger] final(entities)@[i].y == player_y_after(
                    old(entities)@[i].y as int,
                    input.up_pressed,
                    input.down_pressed,
                    input.delta_ms as int,
                )
                &&& final(entities)@[i].rotation == direction_of(
                    input.up_pressed,
                    input.down_pressed,
                ) * PLAYER_TILT
                &&& final(entities)@[i].x == old(entities)@[i].x
                &&& final(entities)@[i].label == old(entities)@[i].label
                &&& final(entities)@[i].role == old(entities)@[i].role
                &&& final(state).health_amount == health_after(
                    input.collisions@,
                    old(state).player_name@,
                    health_after_boundary(
                        old(state).health_amount as nat,
                        final(entities)@[i].y as int,
                    ),
                )
                &&& out.impacts == health_after_boundary(
                    old(state).health_amount as nat,
                    final(entities)@[i].y as int,
                ) - final(state).health_amount
            },
{
    if state.lost {
        return FrameOutput { impacts: 0, health_text: None, game_over: false };
    }
    proof {
        assert forall|i: int|
            0 <= i < entities@.len() && entities@[i].label@
                == state.player_name@ implies entities@[i].role == Role::Player by {
            assert(entities@[i].role == crate::entity::role_of(
                entities@[i].label@,
                state.player_name@,
            ));
        }
    }
    handle_keyboard(state, entities, input.up_pressed, input.down_pressed, input.delta_ms);
    let ghost mid = entities@;
    let ghost h1 = state.health_amount;
    proof {
        assert forall|i: int|
            0 <= i < entities@.len() implies -crate::COORD_LIMIT <= #[trigger] entities@[i].x
            <= crate::COORD_LIMIT by {
            assert(-crate::COORD_LIMIT <= old(entities)@[i].x <= crate::COORD_LIMIT);
            if old(entities)@[i].label@ == old(state).player_name@ {
                assert(mid[i].x == old(entities)@[i].x);
            } else {
                assert(mid[i] == old(entities)@[i]);
            }
        }
        assert(crate::entity::xs_bounded(entities@));
    }
    move_road_objects(entities, input.delta_ms);
    proof {
        let playerv = old(state).player_name@;
        assert(crate::entity::has_player(old(entities)@, playerv));
        let pi = choose|i: int|
            0 <= i < old(entities)@.len() && (#[trigger] old(entities)@[i].label@) == playerv;
        assert(0 <= pi < old(entities)@.len() && old(entities)@[pi].label@ == playerv);
        assert(h1 == if player_oob(mid[pi].y as int) {
            0u8
        } else {
            old(state).health_amount
        });
        assert(h1 <= old(state).health_amount);
    }
    let outcome = handle_collisions(state, &input.collisions);
    let game_over = check_health(state);
    FrameOutput { impacts: outcome.impacts, health_text: outcome.health_text, game_over }
}

} // verus!
