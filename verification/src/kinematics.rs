//! Per-frame motion: steering the player's car and scrolling the road
//! lines and obstacles leftward, with wrap-around and respawn.

use vstd::prelude::*;
use crate::entity::{coords_bounded, has_player, labels_distinct, xs_bounded, Entity, Role};
use crate::input::{direction_of, resolve_direction};
use crate::rng::random_in_range;
use crate::state::GameState;
use crate::text::str_eq;
use crate::{
    COORD_LIMIT, OBSTACLE_RESPAWN_X, OBSTACLE_SPAWN_MAX_X, OBSTACLE_SPAWN_MAX_Y,
    OBSTACLE_SPAWN_MIN_X, OBSTACLE_SPAWN_MIN_Y, PLAYER_SPEED, PLAYER_TILT, PLAYER_Y_LIMIT,
    ROAD_LINE_WRAP_SHIFT, ROAD_LINE_WRAP_X, ROAD_SPEED,
};

verus! {

/// A vertical position past either edge of the road is an instant loss.
pub open spec fn player_oob(y: int) -> bool {
    y < -PLAYER_Y_LIMIT || y > PLAYER_Y_LIMIT
}

/// Where a road line ends up after `dt` milliseconds: it drifts left at
/// [`ROAD_SPEED`], and wraps to the right once it passes the wrap line.
pub open spec fn road_x_after(x: int, dt: int) -> int {
    if x - ROAD_SPEED * dt < ROAD_LINE_WRAP_X {
        x - ROAD_SPEED * dt + ROAD_LINE_WRAP_SHIFT
    } else {
        x - ROAD_SPEED * dt
    }
}

/// Whether an obstacle drifts past the left edge this frame and respawns.
pub open spec fn obstacle_respawns(x: int, dt: int) -> bool {
    x - ROAD_SPEED * dt < OBSTACLE_RESPAWN_X
}

/// Moves the player's car: the vertical position advances by
/// `direction * PLAYER_SPEED * delta_ms`, and the car tilts by
/// `direction * PLAYER_TILT`.
pub fn move_player(e: &mut Entity, direction: i64, delta_ms: u32)
    requires
        -1 <= direction <= 1,
        -COORD_LIMIT <= old(e).y <= COORD_LIMIT,
    ensures
        final(e).y == old(e).y + direction * PLAYER_SPEED * (delta_ms as int),
        final(e).rotation == direction * PLAYER_TILT,
        final(e).x == old(e).x,
        final(e).label == old(e).label,
        final(e).role == old(e).role,
{
    let step: i64 = PLAYER_SPEED * (delta_ms as i64);
    proof {
        let dt = delta_ms as int;
        if direction == 1 {
            assert(direction * step == step);
            assert(direction * PLAYER_SPEED * dt == step);
        } else if direction == -1 {
            assert(direction * step == -step);
            assert(direction * PLAYER_SPEED * dt == -step);
        } else {
            assert(direction == 0);
            assert(direction * step == 0);
            assert(direction * PLAYER_SPEED * dt == 0);
        }
    }
    let dy: i64 = direction * step;
    e.y = e.y + dy;
    e.rotation = direction * PLAYER_TILT;
}

/// Scrolls one road line leftward, wrapping it to the other side of the
/// screen once it has gone too far.
pub fn move_road_line(e: &mut Entity, delta_ms: u32)
    requires
        -COORD_LIMIT <= old(e).x <= COORD_LIMIT,
    ensures
        final(e).x == road_x_after(old(e).x as int, delta_ms as int),
        final(e).y == old(e).y,
        final(e).rotation == old(e).rotation,
        final(e).label == old(e).label,
        final(e).role == old(e).role,
{
    e.x = e.x - ROAD_SPEED * (delta_ms as i64);
    if e.x < ROAD_LINE_WRAP_X {
        e.x = e.x + ROAD_LINE_WRAP_SHIFT;
    }
}

/// Scrolls one obstacle leftward; once it passes the left edge it respawns
/// at a random position off the right edge of the screen, in a random lane.
pub fn move_obstacle(e: &mut Entity, delta_ms: u32)
    requires
        -COORD_LIMIT <= old(e).x <= COORD_LIMIT,
    ensures
        obstacle_respawns(old(e).x as int, delta_ms as int) ==> {
            &&& OBSTACLE_SPAWN_MIN_X <= final(e).x < OBSTACLE_SPAWN_MAX_X
            &&& OBSTACLE_SPAWN_MIN_Y <= final(e).y < OBSTACLE_SPAWN_MAX_Y
        },
        !obstacle_respawns(old(e).x as int, delta_ms as int) ==> {
            &&& final(e).x == old(e).x - ROAD_SPEED * (delta_ms as int)
            &&& final(e).y == old(e).y
        },
        final(e).rotation == old(e).rotation,
        final(e).label == old(e).label,
        final(e).role == old(e).role,
{
    e.x = e.x - ROAD_SPEED * (delta_ms as i64);
    if e.x < OBSTACLE_RESPAWN_X {
        e.x = random_in_range(OBSTACLE_SPAWN_MIN_X, OBSTACLE_SPAWN_MAX_X);
        e.y = random_in_range(OBSTACLE_SPAWN_MIN_Y, OBSTACLE_SPAWN_MAX_Y);
    }
}

/// How one frame of scrolling changes one entity: road lines translate and
/// wrap, obstacles translate and respawn, everything else stays put.
pub open spec fn scrolled(e0: Entity, e1: Entity, dt: int) -> bool {
    &&& e1.label == e0.label
    &&& e1.role == e0.role
    &&& e1.rotation == e0.rotation
    &&& match e0.role {
        Role::RoadLine => e1.x == road_x_after(e0.x as int, dt) && e1.y == e0.y,
        Role::Obstacle => if obstacle_respawns(e0.x as int, dt) {
            &&& OBSTACLE_SPAWN_MIN_X <= e1.x < OBSTACLE_SPAWN_MAX_X
            &&& OBSTACLE_SPAWN_MIN_Y <= e1.y < OBSTACLE_SPAWN_MAX_Y
        } else {
            e1.x == e0.x - ROAD_SPEED * dt && e1.y == e0.y
        },
        _ => e1 == e0,
    }
}

/// Scrolls every road line and obstacle; entities of any other role are
/// left untouched.
#[verifier::loop_isolation(false)]
pub fn move_road_objects(entities: &mut Vec<Entity>, delta_ms: u32)
    requires
        xs_bounded(old(entities)@),
    ensures
        final(entities)@.len() == old(entities)@.len(),
        forall|i: int|
            0 <= i < old(entities)@.len() ==> scrolled(
                old(entities)@[i],
                #[trigger] final(entities)@[i],
                delta_ms as int,
            ),
{
    let n = entities.len();
    let mut i: usize = 0;
    while i < n
        invariant
            i <= n,
            entities@.len() == old(entities)@.len(),
            forall|j: int| i <= j < n ==> entities@[j] == old(entities)@[j],
            forall|j: int|
                0 <= j < i ==> scrolled(
                    old(entities)@[j],
                    #[trigger] entities@[j],
                    delta_ms as int,
                ),
        decreases n - i,
    {
        let role = entities[i].role;
        match role {
            Role::RoadLine => {
                let e = &mut entities[i];
                move_road_line(e, delta_ms);
            },
            Role::Obstacle => {
                let e = &mut entities[i];
                move_obstacle(e, delta_ms);
            },
            _ => {},
        }
        i = i + 1;
    }
}

/// Steers the player by the held keys: resolves the direction, moves and
/// tilts the car, and zeroes the health counter if the car left the road.
///
/// Only the entity carrying the player's name changes; the health counter
/// drops to `0` exactly when the new vertical position is out of bounds.
#[verifier::loop_isolation(false)]
pub fn handle_keyboard(
    state: &mut GameState,
    entities: &mut Vec<Entity>,
    up_pressed: bool,
    down_pressed: bool,
    delta_ms: u32,
)
    requires
        labels_distinct(old(entities)@),
        has_player(old(entities)@, old(state).player_name@),
        coords_bounded(old(entities)@),
    ensures
        final(state).player_name == old(state).player_name,
        final(state).lost == old(state).lost,
        final(entities)@.len() == old(entities)@.len(),
        forall|i: int|
            0 <= i < old(entities)@.len() && old(entities)@[i].label@ != old(
                state,
            ).player_name@ ==> #[trigger] final(entities)@[i] == old(entities)@[i],
        forall|i: int|
            #![trigger final(entities)@[i]]
            0 <= i < old(entities)@.len() && old(entities)@[i].label@ == old(
                state,
            ).player_name@ ==> {
                &&& final(entities)@[i].y == old(entities)@[i].y + direction_of(
                    up_pressed,
                    down_pressed,
                ) * PLAYER_SPEED * (delta_ms as int)
                &&& final(entities)@[i].rotation == direction_of(up_pressed, down_pressed)
                    * PLAYER_TILT
                &&& final(entities)@[i].x == old(entities)@[i].x
                &&& final(entities)@[i].label == old(entities)@[i].label
                &&& final(entities)@[i].role == old(entities)@[i].role
                &&& final(state).health_amount == (if player_oob(final(entities)@[i].y as int) {
                    0u8
                } else {
                    old(state).health_amount
                })
            },
{
    let direction = resolve_direction(up_pressed, down_pressed);
    let n = entities.len();
    let mut idx: usize = 0;
    let mut pidx: usize = 0;
    let mut found = false;
    while idx < n
        invariant
            idx <= n,
            found ==> pidx < n && entities@[pidx as int].label@ == state.player_name@,
            !found ==> forall|j: int| 0 <= j < idx ==> entities@[j].label@ != state.player_name@,
        decreases n - idx,
    {
        if !found && str_eq(entities[idx].label.as_str(), state.player_name.as_str()) {
            found = true;
            pidx = idx;
        }
        idx = idx + 1;
    }
    assert(found);
    assert(-COORD_LIMIT <= entities@[pidx as int].x <= COORD_LIMIT);
    let e = &mut entities[pidx];
    move_player(e, direction, delta_ms);
    let new_y = e.y;
    if new_y < -PLAYER_Y_LIMIT || new_y > PLAYER_Y_LIMIT {
        state.health_amount = 0;
    }
}

} // verus!
