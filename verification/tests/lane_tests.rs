use brainbreak::config::{EndConfig, GameConfig, Mechanic, ThemeConfig};
use brainbreak::config_game::{ConfigGame, Entity, MAX_ENTITIES};
use brainbreak::config_lanes::{compact_kept, move_lane};

fn lane_config(mechanic: Mechanic) -> GameConfig {
    GameConfig {
        schema_version: 1,
        id: "lanes".to_string(),
        title: "Lane Game".to_string(),
        actions: [4, 8, 0],
        mechanic,
        end: EndConfig::default(),
        theme: ThemeConfig::default(),
    }
}

fn running(mechanic: Mechanic) -> (GameConfig, ConfigGame) {
    let config = lane_config(mechanic);
    let mut game = ConfigGame::new(&config);
    game.start_run(&config, [true, false, false, false]);
    game.countdown_finished();
    (config, game)
}

fn points_table() -> Vec<u32> {
    (0..32).map(|c| 10 + c).collect()
}

#[test]
fn lanes_step_once_and_stay_on_the_track() {
    assert_eq!(move_lane(0, 1), -1);
    assert_eq!(move_lane(-1, 1), -1);
    assert_eq!(move_lane(0, 2), 1);
    assert_eq!(move_lane(1, 2), 1);
    assert_eq!(move_lane(1, 3), 1);
    assert_eq!(move_lane(-1, 3), 0);
    assert_eq!(move_lane(0, 4), 0);
}

#[test]
fn obstacles_take_the_picked_action_and_seeded_lane() {
    let (config, mut game) = running(Mechanic::Dodge);
    assert!(game.spawn_obstacle(&config, 3, 4));
    assert_eq!(game.entity_count, 1);
    assert_eq!(game.entities[0], Entity { lane: 0, action: 8, resolved: false });
    assert!(game.spawn_obstacle(&config, 0, 0));
    assert_eq!(game.entities[1], Entity { lane: -1, action: 4, resolved: false });
    for _ in 2..MAX_ENTITIES {
        assert!(game.spawn_target(2));
    }
    assert_eq!(game.entities[7], Entity { lane: 1, action: 0, resolved: false });
    assert!(!game.spawn_target(2));
    assert_eq!(game.entity_count, MAX_ENTITIES);
}

#[test]
fn dodge_action_resolves_obstacle_and_scores_from_the_table() {
    let (config, mut game) = running(Mechanic::Dodge);
    game.spawn_obstacle(&config, 0, 1); // lane 0, jump
    game.spawn_obstacle(&config, 1, 1); // lane 0, squat
    game.begin_frame();
    game.dodge_step([0, 4, 0, 0], [true, true, false, false, false, false, false, false], [false; 8], &points_table());
    // The whole group's mask counts: player 2 jumped for player 1.
    assert!(game.entities[0].resolved);
    assert!(!game.entities[1].resolved);
    assert_eq!(game.players[0].score, 10);
    assert_eq!(game.players[0].combo, 1);
    assert_eq!(game.players[1].score, 0);
    assert!(game.hit_flash);
    assert!(!game.miss_flash);
}

#[test]
fn dodge_collision_in_lane_costs_a_life_and_the_combo() {
    let (config, mut game) = running(Mechanic::Dodge);
    game.players[0].combo = 5;
    game.spawn_obstacle(&config, 0, 1); // lane 0
    game.spawn_obstacle(&config, 0, 0); // lane -1
    game.begin_frame();
    game.dodge_step([0; 4], [true; 8], [true; 8], &points_table());
    assert!(game.entities[0].resolved);
    assert!(!game.entities[1].resolved);
    assert_eq!(game.players[0].lives, 2);
    assert_eq!(game.players[0].combo, 0);
    assert!(game.miss_flash);
    // Stepping left out of the way meets the other obstacle instead.
    let (config, mut moved) = running(Mechanic::Dodge);
    moved.spawn_obstacle(&config, 0, 1);
    moved.spawn_obstacle(&config, 0, 0);
    moved.dodge_step([1, 0, 0, 0], [true; 8], [true; 8], &points_table());
    assert_eq!(moved.players[0].lane, -1);
    assert!(!moved.entities[0].resolved);
    assert!(moved.entities[1].resolved);
    assert_eq!(moved.players[0].lives, 2);
}

#[test]
fn dodge_obstacles_out_of_reach_are_left_alone() {
    let (config, mut game) = running(Mechanic::Dodge);
    game.spawn_obstacle(&config, 0, 1);
    game.dodge_step([4, 0, 0, 0], [false; 8], [false; 8], &points_table());
    assert!(!game.entities[0].resolved);
    assert_eq!(game.players[0].score, 0);
    assert!(!game.hit_flash);
}

#[test]
fn catch_in_lane_scores_and_fallen_targets_break_combos() {
    let (_config, mut game) = running(Mechanic::Catch);
    game.spawn_target(1); // lane 0
    game.spawn_target(2); // lane 1
    game.spawn_target(0); // lane -1
    game.begin_frame();
    let catchable = [true, true, false, false, false, false, false, false];
    let fallen = [false, false, true, false, false, false, false, false];
    game.catch_step([2, 0, 0, 0], catchable, fallen, &points_table());
    // Player moved right into lane 1 and caught only that target.
    assert_eq!(game.players[0].lane, 1);
    assert!(!game.entities[0].resolved);
    assert!(game.entities[1].resolved);
    assert!(game.entities[2].resolved);
    assert_eq!(game.players[0].score, 10);
    // The fallen target broke the combo the catch had built.
    assert_eq!(game.players[0].combo, 0);
    assert_eq!(game.players[0].best_combo, 1);
    assert!(game.hit_flash);
    assert!(game.miss_flash);
}

#[test]
fn consecutive_catches_use_the_growing_combo() {
    let (_config, mut game) = running(Mechanic::Catch);
    game.spawn_target(1);
    game.spawn_target(1);
    game.catch_step([0; 4], [true; 8], [false; 8], &points_table());
    assert_eq!(game.players[0].score, 10 + 11);
    assert_eq!(game.players[0].combo, 2);
}

#[test]
fn compaction_keeps_order_and_drops_passed_entities() {
    let (config, mut game) = running(Mechanic::Dodge);
    for lane_seed in 0..4u8 {
        game.spawn_obstacle(&config, 0, lane_seed);
    }
    game.compact_entities([true, false, true, false, true, true, true, true]);
    assert_eq!(game.entity_count, 2);
    assert_eq!(game.entities[0].lane, -1);
    assert_eq!(game.entities[1].lane, 1);
    let mut distances = [0.5f32, -0.2, 0.3, -0.3, 0.0, 0.0, 0.0, 0.0];
    let kept = compact_kept(&mut distances, 4, [true, false, true, false, true, true, true, true]);
    assert_eq!(kept, 2);
    assert_eq!(distances[0], 0.5);
    assert_eq!(distances[1], 0.3);
    assert_eq!(distances[2], 0.3);
    assert_eq!(distances[3], -0.3);
}
