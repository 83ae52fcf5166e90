//! Whole-frame behaviour: collisions, the terminal state and the game-over
//! transition.

use road_race::collisions::{handle_collisions, CollisionEvent, CollisionPhase};
use road_race::entity::{make_entity, Entity};
use road_race::state::GameState;
use road_race::update::{game_logic, FrameInput};

fn player_name() -> String {
    "Colin".to_string()
}

fn world() -> Vec<Entity> {
    vec![
        make_entity(player_name(), "Colin", -500_000, 0),
        make_entity("roadline0".to_string(), "Colin", -600_000, 0),
        make_entity("obstacle0".to_string(), "Colin", 900_000, 50_000),
    ]
}

fn state_with_health(health: u8) -> GameState {
    GameState { player_name: player_name(), health_amount: health, lost: false }
}

fn begin_with_player() -> CollisionEvent {
    CollisionEvent {
        phase: CollisionPhase::Begin,
        first: player_name(),
        second: "obstacle0".to_string(),
    }
}

fn quiet_input(delta_ms: u32) -> FrameInput {
    FrameInput { delta_ms, up_pressed: false, down_pressed: false, collisions: Vec::new() }
}

#[test]
fn collision_begin_decrements_health() {
    let mut state = state_with_health(3);
    let events = vec![begin_with_player()];
    let out = handle_collisions(&mut state, &events);
    assert_eq!(state.health_amount, 2);
    assert_eq!(out.impacts, 1);
    assert_eq!(out.health_text, Some("Health: 2".to_string()));
    assert!(!state.lost);
}

#[test]
fn collision_end_is_noop() {
    let mut state = state_with_health(3);
    let events = vec![CollisionEvent {
        phase: CollisionPhase::End,
        first: player_name(),
        second: "obstacle0".to_string(),
    }];
    let out = handle_collisions(&mut state, &events);
    assert_eq!(state.health_amount, 3);
    assert_eq!(out.impacts, 0);
    assert_eq!(out.health_text, None);
}

#[test]
fn collision_without_player_is_noop() {
    let mut state = state_with_health(3);
    let events = vec![CollisionEvent {
        phase: CollisionPhase::Begin,
        first: "roadline0".to_string(),
        second: "obstacle0".to_string(),
    }];
    let out = handle_collisions(&mut state, &events);
    assert_eq!(state.health_amount, 3);
    assert_eq!(out.impacts, 0);
    assert_eq!(out.health_text, None);
}

#[test]
fn lost_frame_changes_nothing() {
    let mut state = GameState { player_name: player_name(), health_amount: 3, lost: true };
    let mut entities = world();
    let input = FrameInput {
        delta_ms: 100,
        up_pressed: true,
        down_pressed: false,
        collisions: vec![begin_with_player()],
    };
    let out = game_logic(&mut state, &mut entities, &input);
    assert_eq!(state.health_amount, 3);
    assert!(state.lost);
    assert_eq!(entities[0].x, -500_000);
    assert_eq!(entities[0].y, 0);
    assert_eq!(entities[1].x, -600_000);
    assert_eq!(entities[2].x, 900_000);
    assert_eq!(out.impacts, 0);
    assert_eq!(out.health_text, None);
    assert!(!out.game_over);
}

#[test]
fn frame_moves_player_and_scrolls_world() {
    let mut state = state_with_health(5);
    let mut entities = world();
    let input = FrameInput {
        delta_ms: 16,
        up_pressed: true,
        down_pressed: false,
        collisions: Vec::new(),
    };
    let out = game_logic(&mut state, &mut entities, &input);
    // Player: 16 ms at 250 units/s upward, with the cosmetic tilt.
    assert_eq!(entities[0].y, 4_000);
    assert_eq!(entities[0].rotation, 150);
    assert_eq!(entities[0].x, -500_000);
    // Road line and obstacle: 16 ms at 400 units/s leftward.
    assert_eq!(entities[1].x, -606_400);
    assert_eq!(entities[2].x, 893_600);
    assert_eq!(entities[2].y, 50_000);
    assert_eq!(state.health_amount, 5);
    assert!(!state.lost);
    assert!(!out.game_over);
    assert_eq!(out.impacts, 0);
    assert_eq!(out.health_text, None);
}

#[test]
fn single_hit_at_one_health_ends_game() {
    let mut state = state_with_health(1);
    let mut entities = world();
    let input = FrameInput {
        delta_ms: 16,
        up_pressed: false,
        down_pressed: false,
        collisions: vec![begin_with_player()],
    };
    let out = game_logic(&mut state, &mut entities, &input);
    assert_eq!(state.health_amount, 0);
    assert!(state.lost);
    assert!(out.game_over);
    assert_eq!(out.impacts, 1);
    assert_eq!(out.health_text, Some("Health: 0".to_string()));
}

#[test]
fn extra_hits_after_zero_change_nothing_more() {
    let mut state = state_with_health(1);
    let mut entities = world();
    let input = FrameInput {
        delta_ms: 16,
        up_pressed: false,
        down_pressed: false,
        collisions: vec![begin_with_player(), begin_with_player(), begin_with_player()],
    };
    let out = game_logic(&mut state, &mut entities, &input);
    // Only the first event finds any health to take; the game ends once.
    assert_eq!(state.health_amount, 0);
    assert!(state.lost);
    assert!(out.game_over);
    assert_eq!(out.impacts, 1);
    assert_eq!(out.health_text, Some("Health: 0".to_string()));
}

#[test]
fn leaving_the_road_forfeits_all_health() {
    let mut state = state_with_health(5);
    let mut entities = world();
    // 1464 ms at 250 units/s upward from y = 0 reaches 366 units, past the
    // 360-unit edge.
    let input = FrameInput {
        delta_ms: 1_464,
        up_pressed: true,
        down_pressed: false,
        collisions: Vec::new(),
    };
    let out = game_logic(&mut state, &mut entities, &input);
    assert_eq!(entities[0].y, 366_000);
    assert_eq!(state.health_amount, 0);
    assert!(state.lost);
    assert!(out.game_over);
    // No collision was involved: no impact sound, no label rewrite.
    assert_eq!(out.impacts, 0);
    assert_eq!(out.health_text, None);
}

#[test]
fn second_frame_after_loss_is_inert() {
    let mut state = state_with_health(1);
    let mut entities = world();
    let hit = FrameInput {
        delta_ms: 16,
        up_pressed: false,
        down_pressed: false,
        collisions: vec![begin_with_player()],
    };
    let first = game_logic(&mut state, &mut entities, &hit);
    assert!(first.game_over);
    let xs: Vec<i64> = entities.iter().map(|e| e.x).collect();
    let second = game_logic(&mut state, &mut entities, &quiet_input(16));
    // The game-over effects fired exactly once; nothing moves any more.
    assert!(!second.game_over);
    assert_eq!(second.impacts, 0);
    assert_eq!(second.health_text, None);
    let xs_after: Vec<i64> = entities.iter().map(|e| e.x).collect();
    assert_eq!(xs, xs_after);
}
