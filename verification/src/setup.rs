//! Initial placement of the scrolling entities.  Creating the sprites,
//! labels and music is the driver's one-time job; the numbers it places
//! them at come from here.

use vstd::prelude::*;
use crate::rng::random_in_range;
use crate::{
    OBSTACLE_SPAWN_MAX_X, OBSTACLE_SPAWN_MAX_Y, OBSTACLE_SPAWN_MIN_X, OBSTACLE_SPAWN_MIN_Y,
    ROAD_LINE_SPACING, ROAD_LINE_START_X,
};

verus! {

/// Where road line `i` starts: evenly spaced lanes from the left.
pub fn road_line_start_x(i: u8) -> (x: i64)
    ensures
        x == ROAD_LINE_START_X + ROAD_LINE_SPACING * i,
{
    ROAD_LINE_START_X + ROAD_LINE_SPACING * (i as i64)
}

/// A fresh position for an obstacle: somewhere off the right edge of the
/// screen, in a random lane.  Used both at startup and for respawns.
pub fn random_obstacle_spawn() -> (pos: (i64, i64))
    ensures
        OBSTACLE_SPAWN_MIN_X <= pos.0 < OBSTACLE_SPAWN_MAX_X,
        OBSTACLE_SPAWN_MIN_Y <= pos.1 < OBSTACLE_SPAWN_MAX_Y,
{
    let x = random_in_range(OBSTACLE_SPAWN_MIN_X, OBSTACLE_SPAWN_MAX_X);
    let y = random_in_range(OBSTACLE_SPAWN_MIN_Y, OBSTACLE_SPAWN_MAX_Y);
    (x, y)
}

} // verus!
