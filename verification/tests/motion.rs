//! Direction resolution, kinematics, spawning, labels and world checks.

use road_race::entity::{check_world, make_entity, role_of_label, Entity, Role};
use road_race::input::resolve_direction;
use road_race::kinematics::{move_obstacle, move_player, move_road_line};
use road_race::setup::{random_obstacle_spawn, road_line_start_x};
use road_race::state::GameState;
use road_race::text::health_text;

fn entity(label: &str, role: Role, x: i64, y: i64) -> Entity {
    Entity { label: label.to_string(), role, x, y, rotation: 0 }
}

#[test]
fn resolve_direction_cases() {
    assert_eq!(resolve_direction(true, false), 1);
    assert_eq!(resolve_direction(false, true), -1);
    assert_eq!(resolve_direction(true, true), 0);
    assert_eq!(resolve_direction(false, false), 0);
}

#[test]
fn move_player_up_exact() {
    let mut e = entity("Colin", Role::Player, -500_000, 0);
    // 100 ms at 250 units/s: 25 units = 25_000 milliunits.
    move_player(&mut e, 1, 100);
    assert_eq!(e.y, 25_000);
    assert_eq!(e.rotation, 150);
    assert_eq!(e.x, -500_000);
    assert_eq!(e.label, "Colin".to_string());
}

#[test]
fn move_player_down_exact() {
    let mut e = entity("Colin", Role::Player, -500_000, 10_000);
    move_player(&mut e, -1, 40);
    assert_eq!(e.y, 0);
    assert_eq!(e.rotation, -150);
}

#[test]
fn move_player_neutral() {
    let mut e = entity("Colin", Role::Player, -500_000, 12_345);
    move_player(&mut e, 0, 1_000);
    assert_eq!(e.y, 12_345);
    assert_eq!(e.rotation, 0);
}

#[test]
fn road_line_translates_exact() {
    let mut e = entity("roadline0", Role::RoadLine, 0, 0);
    // 100 ms at 400 units/s leftward: -40 units.
    move_road_line(&mut e, 100);
    assert_eq!(e.x, -40_000);
    assert_eq!(e.y, 0);
}

#[test]
fn road_line_wraps_around() {
    // A line at -676.0 units crosses the wrap threshold this frame and
    // comes back 1500 units to the right, inside the visible band.
    let mut e = entity("roadline1", Role::RoadLine, -676_000, 0);
    move_road_line(&mut e, 16);
    assert_eq!(e.x, -676_000 - 400 * 16 + 1_500_000);
    assert!(e.x >= -675_000 && e.x <= 825_000);
}

#[test]
fn obstacle_translates_exact() {
    let mut e = entity("obstacle0", Role::Obstacle, 100_000, 42_000);
    move_obstacle(&mut e, 100);
    assert_eq!(e.x, 60_000);
    assert_eq!(e.y, 42_000);
}

#[test]
fn obstacle_respawns_in_bounds() {
    for _ in 0..200 {
        let mut e = entity("obstacle0", Role::Obstacle, -801_000, 0);
        move_obstacle(&mut e, 1);
        assert!(e.x >= 800_000 && e.x < 1_600_000);
        assert!(e.y >= -300_000 && e.y < 300_000);
    }
}

#[test]
fn obstacle_spawn_sampling_in_bounds() {
    for _ in 0..200 {
        let (x, y) = random_obstacle_spawn();
        assert!(x >= 800_000 && x < 1_600_000);
        assert!(y >= -300_000 && y < 300_000);
    }
}

#[test]
fn road_line_start_positions() {
    assert_eq!(road_line_start_x(0), -600_000);
    assert_eq!(road_line_start_x(1), -450_000);
    assert_eq!(road_line_start_x(9), 750_000);
}

#[test]
fn health_text_values() {
    assert_eq!(health_text(0), "Health: 0".to_string());
    assert_eq!(health_text(2), "Health: 2".to_string());
    assert_eq!(health_text(5), "Health: 5".to_string());
    assert_eq!(health_text(57), "Health: 57".to_string());
    assert_eq!(health_text(123), "Health: 123".to_string());
    assert_eq!(health_text(255), "Health: 255".to_string());
}

#[test]
fn role_from_label() {
    assert_eq!(role_of_label("Colin", "Colin"), Role::Player);
    assert_eq!(role_of_label("roadline3", "Colin"), Role::RoadLine);
    assert_eq!(role_of_label("obstacle0", "Colin"), Role::Obstacle);
    assert_eq!(role_of_label("player_message", "Colin"), Role::Other);
    assert_eq!(role_of_label("road", "Colin"), Role::Other);
}

#[test]
fn make_entity_assigns_role() {
    let e = make_entity("obstacle2".to_string(), "Colin", 900_000, -10_000);
    assert_eq!(e.role, Role::Obstacle);
    assert_eq!(e.x, 900_000);
    assert_eq!(e.y, -10_000);
    assert_eq!(e.rotation, 0);
}

#[test]
fn new_game_state() {
    let s = GameState::new("Colin".to_string());
    assert_eq!(s.health_amount, 5);
    assert!(!s.lost);
    assert_eq!(s.player_name, "Colin".to_string());
}

#[test]
fn world_check_accepts_valid_world() {
    let entities = vec![
        make_entity("Colin".to_string(), "Colin", -500_000, 0),
        make_entity("roadline0".to_string(), "Colin", -600_000, 0),
        make_entity("obstacle0".to_string(), "Colin", 900_000, 0),
        make_entity("player_message".to_string(), "Colin", -550_000, 320_000),
    ];
    assert!(check_world(&entities, "Colin"));
}

#[test]
fn world_check_rejects_duplicate_labels() {
    let entities = vec![
        make_entity("Colin".to_string(), "Colin", -500_000, 0),
        make_entity("roadline0".to_string(), "Colin", -600_000, 0),
        make_entity("roadline0".to_string(), "Colin", -450_000, 0),
    ];
    assert!(!check_world(&entities, "Colin"));
}

#[test]
fn world_check_rejects_missing_player() {
    let entities = vec![make_entity("roadline0".to_string(), "Colin", -600_000, 0)];
    assert!(!check_world(&entities, "Colin"));
}

#[test]
fn world_check_rejects_wrong_role() {
    let entities = vec![
        make_entity("Colin".to_string(), "Colin", -500_000, 0),
        entity("roadline0", Role::Obstacle, -600_000, 0),
    ];
    assert!(!check_world(&entities, "Colin"));
}
