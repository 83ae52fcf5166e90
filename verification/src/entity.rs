//! Entities of the game world and their roles.
//!
//! The engine owns the sprites; each frame the driver hands the core one
//! [`Entity`] record per sprite.  An entity's role decides which update rule
//! applies to it, and is fixed at creation from its identifier, instead of
//! being re-derived from the identifier every frame.

use vstd::prelude::*;
use crate::text::{has_prefix, spec_has_prefix, str_eq};

verus! {

/// The functional category of an entity.
#[derive(Clone, Copy, Debug, PartialEq, Eq, Structural)]
pub enum Role {
    /// The one entity the keyboard steers.
    Player,
    /// A scrolling white lane marker.
    RoadLine,
    /// A scrolling obstacle that respawns on the right.
    Obstacle,
    /// Anything else; the per-frame update leaves it untouched.
    Other,
}

/// One game object, identified by a unique label.  Positions are in
/// milliunits, the rotation in milliradians.
pub struct Entity {
    pub label: String,
    pub role: Role,
    pub x: i64,
    pub y: i64,
    pub rotation: i64,
}

/// The role an identifier resolves to: the player's own name names the
/// player, a `"roadline"` prefix a road line, an `"obstacle"` prefix an
/// obstacle, and anything else is left alone.
pub open spec fn role_of(label: Seq<char>, player: Seq<char>) -> Role {
    if label == player {
        Role::Player
    } else if spec_has_prefix(label, "roadline"@) {
        Role::RoadLine
    } else if spec_has_prefix(label, "obstacle"@) {
        Role::Obstacle
    } else {
        Role::Other
    }
}

/// Resolves an identifier to its role, by the naming convention the driver
/// uses when it creates sprites.
pub fn role_of_label(label: &str, player_name: &str) -> (role: Role)
    ensures
        role == role_of(label@, player_name@),
{
    if str_eq(label, player_name) {
        Role::Player
    } else if has_prefix(label, "roadline") {
        Role::RoadLine
    } else if has_prefix(label, "obstacle") {
        Role::Obstacle
    } else {
        Role::Other
    }
}

/// No two entities share a label.
pub open spec fn labels_distinct(entities: Seq<Entity>) -> bool {
    forall|i: int, j: int|
        0 <= i < j < entities.len() ==> entities[i].label@ != entities[j].label@
}

/// Every entity's stored role agrees with its label.
pub open spec fn roles_match(entities: Seq<Entity>, player: Seq<char>) -> bool {
    forall|i: int|
        0 <= i < entities.len() ==> #[trigger] entities[i].role == role_of(
            entities[i].label@,
            player,
        )
}

/// Some entity carries the player's name.
pub open spec fn has_player(entities: Seq<Entity>, player: Seq<char>) -> bool {
    exists|i: int| 0 <= i < entities.len() && (#[trigger] entities[i].label@) == player
}

/// A world the per-frame update accepts: labels are unique, roles agree
/// with labels, and the player exists.
pub open spec fn wf_world(entities: Seq<Entity>, player: Seq<char>) -> bool {
    &&& labels_distinct(entities)
    &&& roles_match(entities, player)
    &&& has_player(entities, player)
}

/// Builds an entity, deriving its role from its label once and for all.
pub fn make_entity(label: String, player_name: &str, x: i64, y: i64) -> (e: Entity)
    ensures
        e.label == label,
        e.role == role_of(label@, player_name@),
        e.x == x,
        e.y == y,
        e.rotation == 0,
{
    let role = role_of_label(label.as_str(), player_name);
    Entity { label, role, x, y, rotation: 0 }
}

/// Checks at construction time that the driver assembled a world the
/// per-frame update accepts: labels unique, roles agreeing with labels,
/// and the player present.  A duplicated identifier is a setup bug, caught
/// here rather than silently tolerated.
#[verifier::loop_isolation(false)]
pub fn check_world(entities: &Vec<Entity>, player_name: &str) -> (ok: bool)
    ensures
        ok == wf_world(entities@, player_name@),
{
    let n = entities.len();
    let mut i: usize = 0;
    while i < n
        invariant
            i <= n,
            forall|a: int, b: int|
                0 <= a < b < n && a < i ==> entities@[a].label@ != entities@[b].label@,
        decreases n - i,
    {
        let mut j: usize = i + 1;
        while j < n
            invariant
                i < j <= n,
                forall|b: int| i < b < j ==> entities@[i as int].label@ != entities@[b].label@,
            decreases n - j,
        {
            if str_eq(entities[i].label.as_str(), entities[j].label.as_str()) {
                return false;
            }
            j = j + 1;
        }
        i = i + 1;
    }
    let mut k: usize = 0;
    while k < n
        invariant
            k <= n,
            forall|a: int|
                0 <= a < k ==> #[trigger] entities@[a].role == role_of(
                    entities@[a].label@,
                    player_name@,
                ),
        decreases n - k,
    {
        let expected = role_of_label(entities[k].label.as_str(), player_name);
        let actual = entities[k].role;
        if actual != expected {
            return false;
        }
        k = k + 1;
    }
    let mut p: usize = 0;
    while p < n
        invariant
            p <= n,
            forall|a: int| 0 <= a < p ==> entities@[a].label@ != player_name@,
        decreases n - p,
    {
        if str_eq(entities[p].label.as_str(), player_name) {
            return true;
        }
        p = p + 1;
    }
    false
}

/// Horizontal positions are small enough that one frame's displacement
/// cannot overflow.
pub open spec fn xs_bounded(entities: Seq<Entity>) -> bool {
    forall|i: int|
        0 <= i < entities.len() ==> -crate::COORD_LIMIT <= #[trigger] entities[i].x
            <= crate::COORD_LIMIT
}

/// Positions are small enough that one frame's displacement cannot
/// overflow.
pub open spec fn coords_bounded(entities: Seq<Entity>) -> bool {
    forall|i: int|
        0 <= i < entities.len() ==> {
            &&& -crate::COORD_LIMIT <= #[trigger] entities[i].x <= crate::COORD_LIMIT
            &&& -crate::COORD_LIMIT <= entities[i].y <= crate::COORD_LIMIT
        }
}

} // verus!
