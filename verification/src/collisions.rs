//! Reacting to the engine's collision notifications: each new collision
//! that involves the player costs one point of health.

use vstd::prelude::*;
use crate::state::GameState;
use crate::text::{health_text, health_text_of, str_eq};

verus! {

/// Whether two shapes began or stopped overlapping.
#[derive(Clone, Copy, Debug, PartialEq, Eq, Structural)]
pub enum CollisionPhase {
    Begin,
    End,
}

/// One collision notification from the engine: the identifiers of the two
/// entities involved and the phase of the collision.
pub struct CollisionEvent {
    pub phase: CollisionPhase,
    pub first: String,
    pub second: String,
}

/// Whether the event's pair contains the player.
pub open spec fn involves_player(e: CollisionEvent, player: Seq<char>) -> bool {
    e.first@ == player || e.second@ == player
}

/// The events that cost health: a collision that *begins* and involves the
/// player.  Collisions among other entities, and collisions that end, do
/// not matter.
pub open spec fn qualifying(e: CollisionEvent, player: Seq<char>) -> bool {
    e.phase is Begin && involves_player(e, player)
}

/// The health counter after processing `events` in order, starting from
/// `h`: each qualifying event removes one point while any point is left.
pub open spec fn health_after(events: Seq<CollisionEvent>, player: Seq<char>, h: nat) -> nat
    decreases events.len(),
{
    if events.len() == 0 {
        h
    } else {
        let prev = health_after(events.drop_last(), player, h);
        if qualifying(events.last(), player) && prev > 0 {
            (prev - 1) as nat
        } else {
            prev
        }
    }
}

/// Processing collision events never restores health: the counter after a
/// batch of events is at most the counter before it.
pub proof fn lemma_health_after_le(events: Seq<CollisionEvent>, player: Seq<char>, h: nat)
    ensures
        health_after(events, player, h) <= h,
    decreases events.len(),
{
    if events.len() > 0 {
        lemma_health_after_le(events.drop_last(), player, h);
    }
}

/// What the driver must do after the events of a frame were processed.
pub struct CollisionOutcome {
    /// How many impact sound effects to play: one per health point lost.
    pub impacts: u8,
    /// The new text of the health label, if health changed this frame.
    pub health_text: Option<String>,
}

/// Drains the frame's collision events: every qualifying event decrements
/// the health counter (while it lasts), rewrites the health label and asks
/// for an impact sound.
#[verifier::loop_isolation(false)]
pub fn handle_collisions(state: &mut GameState, events: &Vec<CollisionEvent>) -> (out:
    CollisionOutcome)
    ensures
        final(state).player_name == old(state).player_name,
        final(state).lost == old(state).lost,
        final(state).health_amount == health_after(
            events@,
            old(state).player_name@,
            old(state).health_amount as nat,
        ),
        final(state).health_amount <= old(state).health_amount,
        out.impacts == old(state).health_amount - final(state).health_amount,
        out.impacts > 0 ==> (out.health_text matches Some(t) && t@ == health_text_of(
            final(state).health_amount as nat,
        )),
        out.impacts == 0 ==> out.health_text is None,
{
    let mut impacts: u8 = 0;
    let mut text: Option<String> = None;
    let n = events.len();
    let mut i: usize = 0;
    while i < n
        invariant
            i <= n,
            state.player_name == old(state).player_name,
            state.lost == old(state).lost,
            state.health_amount == health_after(
                events@.take(i as int),
                old(state).player_name@,
                old(state).health_amount as nat,
            ),
            state.health_amount <= old(state).health_amount,
            impacts == old(state).health_amount - state.health_amount,
            impacts > 0 ==> (text matches Some(t) && t@ == health_text_of(
                state.health_amount as nat,
            )),
            impacts == 0 ==> text is None,
        decreases n - i,
    {
        let ev = &events[i];
        let is_begin = match ev.phase {
            CollisionPhase::Begin => true,
            CollisionPhase::End => false,
        };
        let involves = str_eq(ev.first.as_str(), state.player_name.as_str()) || str_eq(
            ev.second.as_str(),
            state.player_name.as_str(),
        );
        if is_begin && involves && state.health_amount > 0 {
            state.health_amount = state.health_amount - 1;
            text = Some(health_text(state.health_amount));
            impacts = impacts + 1;
        }
        proof {
            assert(events@.take(i + 1).drop_last() =~= events@.take(i as int));
            assert(events@.take(i + 1).last() == events@[i as int]);
        }
        i = i + 1;
    }
    proof {
        assert(events@.take(n as int) =~= events@);
    }
    CollisionOutcome { impacts, health_text: text }
}

} // verus!
