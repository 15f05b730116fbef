use brainbreak::action::{
    compose_active, keyboard_actions, Action, ActionEdges, KeyPresses, PoseSignals, ACTION_COUNT,
    GAMEPLAY_MASK, DROP_RELEASE_MASK,
};
use brainbreak::config::{
    action_label, color_channels, default_goal_score, default_lives, default_primary,
    default_secondary, EndConfig, EndMode, GameConfig, Mechanic, ThemeConfig, ThemeStyle,
};
use brainbreak::config_game::{ConfigGame, ConfigOutcome, ConfigPhase};
use brainbreak::game_state::{target_for_beat, GameMode, GameState};
use brainbreak::mode_art::{decode_mode_art, is_small_lossy_webp};
use brainbreak::runtime::{tracking_change, LocalPose, MotionFrame, MotionRuntime, TrackingChange};
use brainbreak::supernova::{SupernovaGame, SupernovaOutcome, SupernovaPhase, SupernovaTransition};

fn test_config(mechanic: Mechanic) -> GameConfig {
    GameConfig {
        schema_version: 1,
        id: "test".to_string(),
        title: "Test Game".to_string(),
        actions: [4, 8, 64],
        mechanic,
        end: EndConfig::default(),
        theme: ThemeConfig::default(),
    }
}

fn evaluation() -> [bool; 4] {
    [true, false, false, false]
}

#[test]
fn mode_titles_and_cycles() {
    assert_eq!(GameMode::MirrorBeat.title(), "MIRROR BEAT");
    assert_eq!(GameMode::DuoGroove.title(), "DUO GROOVE");
    for mode in [GameMode::MirrorBeat, GameMode::BeatStrike, GameMode::DuoGroove] {
        assert_eq!(mode.next().previous(), mode);
        assert_eq!(mode.next().next().next(), mode);
        assert_ne!(mode.next_with_duo(false), GameMode::DuoGroove);
        assert_eq!(GameMode::from_value(mode.value()), mode);
    }
    assert_eq!(GameMode::BeatStrike.next_with_duo(false), GameMode::MirrorBeat);
    assert_eq!(GameMode::DuoGroove.previous_with_duo(false), GameMode::MirrorBeat);
    assert_eq!(GameMode::from_value(7), GameMode::MirrorBeat);
}

#[test]
fn action_masks_labels_and_lookup() {
    assert_eq!(Action::MoveLeft.mask(), 1);
    assert_eq!(Action::HandsDown.mask(), 256);
    assert_eq!(Action::LeftUp.label(), "LEFT HAND UP");
    assert_eq!(Action::from_mask(64), Some(Action::Clap));
    assert_eq!(Action::from_mask(3), None);
    assert_eq!(Action::from_mask(0), None);
    assert_eq!(GAMEPLAY_MASK, 127);
    assert_eq!(DROP_RELEASE_MASK, Action::Squat.mask() | Action::HandsDown.mask());
}

#[test]
fn pose_signals_compose_held_actions() {
    let none = PoseSignals {
        lean_left: false,
        lean_right: false,
        rise: false,
        crouch: false,
        left_hand_up: false,
        right_hand_up: false,
        left_hand_down: false,
        right_hand_down: false,
        hands_together: false,
        pause_pose: false,
        pause_held: false,
    };
    assert_eq!(compose_active(none), 0);
    let both = PoseSignals { lean_left: true, lean_right: true, rise: true, crouch: true, ..none };
    assert_eq!(compose_active(both), Action::MoveLeft.mask() | Action::Jump.mask());
    let down = PoseSignals { left_hand_down: true, right_hand_down: true, ..none };
    assert_eq!(compose_active(down), Action::HandsDown.mask());
    let mixed = PoseSignals { left_hand_up: true, ..down };
    assert_eq!(compose_active(mixed), Action::LeftUp.mask());
    let pausing = PoseSignals { left_hand_up: true, right_hand_up: true, pause_pose: true, ..none };
    assert_eq!(compose_active(pausing), 0);
    assert_eq!(compose_active(PoseSignals { pause_held: true, ..pausing }), Action::Pause.mask());
}

#[test]
fn raised_hand_only_triggers_on_rising_edge() {
    let mut edges = ActionEdges::new();
    let ready = [true; ACTION_COUNT];
    assert_eq!(edges.update(0, ready).triggered, 0);
    assert_eq!(edges.update(Action::LeftUp.mask(), ready).triggered, Action::LeftUp.mask());
    assert_eq!(edges.update(Action::LeftUp.mask(), ready).triggered, 0);
    edges.lose_tracking();
    assert_eq!(edges.update(Action::LeftUp.mask(), ready).triggered, Action::LeftUp.mask());
}

#[test]
fn cooldown_blocks_a_rising_edge() {
    let mut edges = ActionEdges::new();
    let mut ready = [true; ACTION_COUNT];
    ready[4] = false;
    let held = Action::LeftUp.mask() | Action::Clap.mask();
    let sample = edges.update(held, ready);
    assert_eq!(sample.active, held);
    assert_eq!(sample.triggered, Action::Clap.mask());
}

#[test]
fn keyboard_fallback_maps_keys_to_actions() {
    let none = KeyPresses {
        left: false, a: false, right: false, d: false, space: false, w: false,
        down: false, s: false, c: false, enter: false, r: false, p: false,
    };
    assert_eq!(keyboard_actions(none, true), 0);
    assert_eq!(keyboard_actions(KeyPresses { a: true, w: true, ..none }, false), 1 | 4);
    assert_eq!(keyboard_actions(KeyPresses { r: true, ..none }, false), 0);
    assert_eq!(keyboard_actions(KeyPresses { r: true, ..none }, true), 64);
    assert_eq!(keyboard_actions(KeyPresses { p: true, down: true, ..none }, false), 128 | 8);
}

#[test]
fn beat_targets_follow_the_mode_sequence() {
    assert_eq!(target_for_beat(GameMode::MirrorBeat, 0), Action::LeftUp);
    assert_eq!(target_for_beat(GameMode::MirrorBeat, 12), Action::LeftUp);
    assert_eq!(target_for_beat(GameMode::BeatStrike, 4), Action::Clap);
    assert_eq!(target_for_beat(GameMode::DuoGroove, 14), Action::Jump);
}

#[test]
fn combo_points_stop_growing_after_twenty_hits() {
    let mut game = GameState::new(GameMode::MirrorBeat);
    for _ in 0..110 {
        let t = game.target.mask();
        game.judge([t, 0, 0, 0], None);
        game.advance_beat();
    }
    assert_eq!(game.combos[0], 110);
    // 19 hits below the combo cap, then 91 hits at 300 points each.
    assert_eq!(game.scores[0], 19 * 100 + 10 * 190 + 91 * 300);
    let mut again = GameState::new(GameMode::MirrorBeat);
    for _ in 0..110 {
        let t = again.target.mask();
        again.judge([t, 0, 0, 0], None);
        again.advance_beat();
    }
    assert_eq!(again.scores, game.scores);
}

#[test]
fn update_advances_the_beats_then_judges() {
    let mut game = GameState::new(GameMode::MirrorBeat);
    let first = target_for_beat(GameMode::MirrorBeat, 1).mask();
    game.update(1, [first, 0, 0, 0], None);
    assert_eq!(game.beat_index, 1);
    assert_eq!(game.scores[0], 110);
    assert_eq!(game.combos[0], 1);
    // No beat passes: a second hit in the same beat scores nothing.
    game.update(0, [first, 0, 0, 0], None);
    assert_eq!(game.beat_index, 1);
    assert_eq!(game.scores[0], 110);
    assert_eq!(game.combos[0], 0);
    // Two beats pass at once; the target is that of beat three.
    let third = target_for_beat(GameMode::MirrorBeat, 3).mask();
    game.update(2, [third, 0, 0, 0], None);
    assert_eq!(game.beat_index, 3);
    assert_eq!(game.target.mask(), third);
    assert_eq!(game.scores[0], 220);
}

#[test]
fn a_second_hit_in_one_beat_scores_nothing_and_breaks_the_combo() {
    let mut game = GameState::new(GameMode::BeatStrike);
    let t = game.target.mask();
    game.judge([t, 0, 0, 0], None);
    assert_eq!(game.scores[0], 110);
    assert_eq!(game.combos[0], 1);
    game.judge([t, 0, 0, 0], None);
    assert_eq!(game.scores[0], 110);
    assert_eq!(game.combos[0], 0);
}

#[test]
fn mode_change_resets_match_state() {
    let mut game = GameState::new(GameMode::MirrorBeat);
    game.scores[0] = 900;
    game.set_mode(GameMode::DuoGroove);
    assert_eq!(game.scores, [0; 4]);
    assert_eq!(game.mode, GameMode::DuoGroove);
}

#[test]
fn custom_target_is_used_for_scoring() {
    let mut game = GameState::new(GameMode::MirrorBeat);
    game.judge([Action::Squat.mask(), 0, 0, 0], Some(Action::Squat.mask()));
    assert_eq!(game.target, Action::Squat);
    assert_eq!(game.scores[0], 110);
    let mut other = GameState::new(GameMode::MirrorBeat);
    other.judge([Action::Squat.mask(), 0, 0, 0], Some(3));
    assert_eq!(other.target, Action::LeftUp);
    assert_eq!(other.scores[0], 0);
}

#[test]
fn duo_groove_awards_one_sync_bonus_per_beat() {
    let mut game = GameState::new(GameMode::DuoGroove);
    game.judge([Action::LeftUp.mask(), Action::LeftUp.mask(), 0, 0], None);
    assert_eq!(game.scores[0], 260);
    assert_eq!(game.scores[1], 260);
    game.judge([Action::LeftUp.mask(), Action::LeftUp.mask(), 0, 0], None);
    assert_eq!(game.scores[0], 260);
    assert_eq!(game.scores[1], 260);
}

#[test]
fn duo_bonus_waits_for_both_partners() {
    let mut game = GameState::new(GameMode::DuoGroove);
    let t = game.target.mask();
    game.judge([t, 0, 0, 0], None);
    assert_eq!(game.scores[0], 110);
    game.judge([0, t, 0, 0], None);
    assert_eq!(game.scores, [260, 260, 0, 0]);
}

#[test]
fn motion_runtime_marks_hits_and_misses() {
    let mut runtime = MotionRuntime::new(GameMode::MirrorBeat);
    runtime.begin_frame();
    assert_eq!(runtime.track_local(0, Some(1)), TrackingChange::Continue);
    let ready = [true; ACTION_COUNT];
    let sample = runtime.record_local(0, LocalPose::Seen { active: Action::LeftUp.mask(), cooldown_ready: ready }, true, 0);
    assert_eq!(sample.triggered, Action::LeftUp.mask());
    runtime.record_local(1, LocalPose::Absent, true, Action::Jump.mask());
    runtime.record_remote(0, Action::Clap.mask(), false);
    runtime.judge(0, None);
    assert!(runtime.players[0].hit);
    assert!(!runtime.players[0].miss);
    assert!(runtime.players[1].miss);
    assert!(!runtime.players[2].hit && !runtime.players[2].miss);
    assert_eq!(runtime.local_triggered(), [Action::LeftUp.mask(), Action::Jump.mask()]);
    assert_eq!(runtime.local_evaluated_triggered(), [Action::LeftUp.mask(), Action::Jump.mask()]);
}

#[test]
fn pause_control_action_is_not_scored_or_marked_as_a_miss() {
    let mut runtime = MotionRuntime::new(GameMode::MirrorBeat);
    runtime.begin_frame();
    runtime.record_local(0, LocalPose::Absent, true, Action::Pause.mask());
    runtime.record_local(1, LocalPose::Absent, false, 0);
    runtime.record_remote(0, 0, false);
    runtime.record_remote(1, 0, false);
    runtime.judge(0, None);
    assert_eq!(runtime.game.scores[0], 0);
    assert_eq!(runtime.game.combos[0], 0);
    assert!(!runtime.players[0].hit);
    assert!(!runtime.players[0].miss);
    assert_eq!(runtime.local_evaluated_triggered()[0], Action::Pause.mask());
}

#[test]
fn tracking_changes_restart_or_drop_recognition() {
    assert_eq!(tracking_change(Some(1), Some(2)), TrackingChange::NewPerson);
    assert_eq!(tracking_change(Some(1), None), TrackingChange::Lost);
    assert_eq!(tracking_change(None, Some(4)), TrackingChange::Continue);
    assert_eq!(tracking_change(Some(3), Some(3)), TrackingChange::Continue);
    let mut runtime = MotionRuntime::new(GameMode::MirrorBeat);
    runtime.edges[0].previous_active = Action::Clap.mask();
    assert_eq!(runtime.track_local(0, None), TrackingChange::Lost);
    assert_eq!(runtime.edges[0].previous_active, 0);
}

#[test]
fn beats_advance_before_judging() {
    let mut runtime = MotionRuntime::new(GameMode::BeatStrike);
    runtime.begin_frame();
    runtime.record_local(0, LocalPose::Absent, true, Action::MoveRight.mask());
    runtime.judge(1, None);
    assert_eq!(runtime.game.beat_index, 1);
    assert!(runtime.players[0].hit);
}

#[test]
fn motion_update_records_every_player_then_judges() {
    let mut runtime = MotionRuntime::new(GameMode::MirrorBeat);
    let ready = [true; ACTION_COUNT];
    let up = Action::LeftUp.mask();
    let frame = MotionFrame {
        tracked_ids: [Some(7), None],
        local_poses: [LocalPose::Seen { active: up, cooldown_ready: ready }, LocalPose::Absent],
        fallback_actions: [0, Action::Jump.mask()],
        remote_actions: [Action::Clap.mask(), 0],
        evaluation_enabled: [true, true, false, false],
        custom_target: None,
    };
    let samples = runtime.update(0, &frame);
    assert_eq!(samples[0].triggered, up);
    assert_eq!(samples[1].triggered, 0);
    assert_eq!(runtime.players[0].tracked_id, Some(7));
    assert_eq!(runtime.edges[0].previous_active, up);
    assert!(runtime.players[0].hit);
    assert!(runtime.players[1].miss);
    assert_eq!(runtime.players[2].triggered, Action::Clap.mask());
    assert!(!runtime.players[2].hit && !runtime.players[2].miss);
    assert_eq!(runtime.game.scores[0], 110);
    assert_eq!(runtime.local_triggered(), [up, Action::Jump.mask()]);

    // Held on the next frame: no new trigger, and last frame's marks clear.
    let samples = runtime.update(0, &frame);
    assert_eq!(samples[0].triggered, 0);
    assert!(!runtime.players[0].hit && !runtime.players[0].miss);

    // A different person: edge detection restarts and the pose triggers again.
    let other = MotionFrame { tracked_ids: [Some(8), None], ..frame };
    let samples = runtime.update(1, &other);
    assert_eq!(samples[0].triggered, up);
    assert_eq!(runtime.game.beat_index, 1);
}

#[test]
fn matches_action_respects_allowed_slots() {
    let config = test_config(Mechanic::Dodge);
    assert!(config.matches_action(4));
    assert!(config.matches_action(64));
    assert!(!config.matches_action(1));
    assert!(!config.matches_action(0));
}

#[test]
fn max_three_actions_enforced() {
    let config = test_config(Mechanic::Dodge);
    let active: Vec<u32> = config.active_actions();
    assert!(active.len() <= 3);
    let mut empty = config.clone();
    empty.actions = [0, 0, 0];
    assert_eq!(empty.active_actions().len(), 0);
}

#[test]
fn config_acceptance_and_defaults() {
    let config = test_config(Mechanic::Catch);
    assert!(config.clone().accept().is_some());
    let mut wrong_version = config.clone();
    wrong_version.schema_version = 99;
    assert!(wrong_version.accept().is_none());
    let mut untitled = config.clone();
    untitled.title = String::new();
    assert!(untitled.accept().is_none());
    let mut unnamed = config;
    unnamed.id = String::new();
    assert!(unnamed.accept().is_none());
    assert_eq!(default_lives(), 3);
    assert_eq!(default_goal_score(), 100);
    assert_eq!(default_primary(), 0x00E5FF);
    assert_eq!(default_secondary(), 0xFF4081);
    assert_eq!(ThemeConfig::default().style, ThemeStyle::Neon);
    assert_eq!(EndConfig::default().mode, EndMode::TimeBased);
    assert_eq!(color_channels(0xFF4081), (0xFF, 0x40, 0x81));
    assert_eq!(action_label(8), "SQT");
    assert_eq!(action_label(3), "?");
}

#[test]
fn config_game_start_run_enters_countdown() {
    let config = test_config(Mechanic::Pump);
    let mut game = ConfigGame::new(&config);
    assert_eq!(game.phase, ConfigPhase::Ready);
    game.start_run(&config, evaluation());
    assert_eq!(game.phase, ConfigPhase::Countdown);
    assert!(game.players[0].evaluated);
    assert!(!game.players[1].evaluated);
    assert_eq!(game.pattern, [4, 8, 64, 4]);
    assert_eq!(game.players[0].lives, 3);
}

#[test]
fn pattern_advances_on_the_expected_action_and_completes() {
    let config = test_config(Mechanic::Pattern);
    let mut game = ConfigGame::new(&config);
    game.start_run(&config, evaluation());
    game.countdown_finished();
    let expected = game.pattern[0];
    game.pattern_step(&config, [expected, 0, 0, 0], 0, [10; 4]);
    assert_eq!(game.pattern_index, 1);
    assert!(game.hit_flash);
    assert_eq!(game.players[0].combo, 1);
    game.begin_frame();
    game.pattern_step(&config, [64, 0, 0, 0], 0, [10; 4]);
    assert_eq!(game.pattern_index, 1);
    assert!(game.miss_flash);
    assert_eq!(game.players[0].combo, 0);
    game.pattern_index = 4;
    game.pattern_step(&config, [0; 4], 1, [12, 0, 0, 0]);
    assert_eq!(game.pattern_index, 0);
    assert_eq!(game.players[0].score, 12);
    assert_eq!(game.pattern, [8, 64, 4, 8]);
}

#[test]
fn pump_on_beat_adds_combo_and_score() {
    let config = test_config(Mechanic::Pump);
    let mut game = ConfigGame::new(&config);
    game.start_run(&config, evaluation());
    let pumped = game.pump_step(&config, [4, 4, 0, 0], true, [10; 4]);
    assert_eq!(pumped, [true, false, false, false]);
    assert_eq!(game.players[0].combo, 1);
    assert_eq!(game.players[0].score, 10);
    assert!(game.hit_flash);
    let pumped = game.pump_step(&config, [1, 0, 0, 0], false, [11; 4]);
    assert_eq!(pumped, [false; 4]);
    game.pump_step(&config, [8, 0, 0, 0], false, [11; 4]);
    assert_eq!(game.players[0].combo, 0);
    assert_eq!(game.players[0].score, 21);
}

#[test]
fn end_conditions_and_best_score() {
    let mut config = test_config(Mechanic::Hold);
    let mut game = ConfigGame::new(&config);
    game.start_run(&config, evaluation());
    game.countdown_finished();
    assert!(!game.check_end(&config, false, false));
    game.players[0].score = 42;
    assert!(game.check_end(&config, true, false));
    assert_eq!(game.phase, ConfigPhase::Result);
    assert_eq!(game.outcome, Some(ConfigOutcome::Complete));
    assert_eq!(game.best_score, 42);
    assert!(game.new_best);
    assert!(game.request_replay(&config));
    assert_eq!(game.phase, ConfigPhase::Countdown);
    assert!(game.check_end(&config, true, false));
    assert_eq!(game.best_score, 42);
    assert!(!game.new_best);
    config.end.mode = EndMode::LifeBased;
    game.start_run(&config, evaluation());
    game.players[0].lives = 0;
    assert!(game.check_end(&config, false, false));
    assert_eq!(game.outcome, Some(ConfigOutcome::Depleted));
    config.end.mode = EndMode::GoalBased;
    config.end.goal_score = 50;
    game.start_run(&config, evaluation());
    game.players[0].score = 60;
    assert!(game.check_end(&config, false, false));
    assert_eq!(game.outcome, Some(ConfigOutcome::Complete));
    assert_eq!(game.total_score(), 60);
}

#[test]
fn supernova_ignores_unevaluated_dancers() {
    let mut game = SupernovaGame::new();
    game.start_run([true, false, false, false]);
    game.countdown_finished();
    game.begin_frame();
    let hits = game.dance_hits([0, Action::Jump.mask(), Action::Clap.mask(), Action::Squat.mask()], [true; 4], true);
    assert_eq!(hits, [None; 4]);
    assert_eq!(game.combo, 0);
    assert!(!game.feedback[1].hit);
    assert!(!game.freeze_motion([0, Action::Jump.mask(), Action::Jump.mask(), Action::Jump.mask()], true));
    assert!(!game.freeze_wobble);
}

#[test]
fn supernova_rounds_hits_stars_and_score() {
    let mut game = SupernovaGame::new();
    assert_eq!(game.phase, SupernovaPhase::Ready);
    game.best_score = 100;
    game.start_run([true, true, false, false]);
    assert_eq!(game.phase, SupernovaPhase::Countdown);
    assert_eq!(game.active_player_count(), 2);
    assert_eq!(game.countdown_finished(), SupernovaTransition::Dance);
    assert_eq!(game.round, 1);
    game.begin_frame();
    let hits = game.dance_hits([Action::Jump.mask(), Action::Jump.mask(), 0, 0], [true; 4], true);
    assert_eq!(hits, [Some(1), Some(2), None, None]);
    assert!(game.feedback[0].on_beat && game.feedback[0].hit);
    assert_eq!(game.best_combo, 2);
    game.begin_frame();
    let hits = game.dance_hits([Action::Pause.mask(), Action::Clap.mask(), 0, 0], [true, false, true, true], false);
    assert_eq!(hits, [None; 4]);
    let hits = game.dance_hits([0, Action::Clap.mask(), 0, 0], [true; 4], false);
    assert_eq!(hits, [None, Some(0), None, None]);
    assert_eq!(game.combo, 0);
    assert_eq!(game.end_dance_frame(false, true, false, 300), SupernovaTransition::Freeze);
    assert_eq!(game.phase, SupernovaPhase::Freeze);
    assert!(!game.freeze_motion([Action::Jump.mask(), 0, 0, 0], false));
    assert!(game.freeze_motion([Action::Jump.mask(), 0, 0, 0], true));
    assert!(game.freeze_wobble);
    assert_eq!(game.end_freeze_frame(true, true, false, false, 460), SupernovaTransition::Dance);
    assert_eq!(game.freeze_stars, 1);
    assert_eq!(game.round, 2);
    assert_eq!(game.end_dance_frame(true, false, false, 1000), SupernovaTransition::Drop);
    assert_eq!(game.outcome, Some(SupernovaOutcome::FullSupernova));
    assert_eq!(game.score, 1000 + 150 + 2 * 40 + 500);
    assert!(game.new_best);
    assert_eq!(game.best_score, game.score);
    assert!(!game.request_replay());
    assert_eq!(game.drop_finished(), SupernovaTransition::Result);
    let best = game.best_score;
    assert!(game.request_replay());
    assert_eq!(game.phase, SupernovaPhase::Countdown);
    assert_eq!(game.best_score, best);
    assert_eq!(game.freeze_stars, 0);
    assert!(game.players[1].evaluated);
}

#[test]
fn supernova_time_expiry_is_a_partial_burst() {
    let mut game = SupernovaGame::new();
    game.start_run([true, false, false, false]);
    game.countdown_finished();
    assert_eq!(game.end_dance_frame(false, false, false, 0), SupernovaTransition::Stay);
    assert_eq!(game.end_dance_frame(false, false, true, 420), SupernovaTransition::Drop);
    assert_eq!(game.outcome, Some(SupernovaOutcome::TimeExpired));
    assert_eq!(game.score, 420);
    assert!(game.drop_triggered);
}

#[test]
fn mode_art_refuses_empty_oversized_and_invalid_files() {
    assert!(decode_mode_art(&[]).is_none());
    assert!(decode_mode_art(&vec![0u8; 512 * 1024 + 1]).is_none());
    assert!(decode_mode_art(b"not a webp").is_none());
}

#[test]
fn mode_art_refuses_extended_webp_files() {
    // RIFF header, then an extended (VP8X) chunk announcing an animation.
    let mut extended = vec![0x52, 0x49, 0x46, 0x46, 0x2a, 0x00, 0x00, 0x00, 0x57, 0x45, 0x42, 0x50];
    extended.extend_from_slice(&[0x56, 0x50, 0x38, 0x58, 0x0a, 0x00, 0x00, 0x00]);
    extended.extend_from_slice(&[0x02, 0x00, 0x00, 0x00, 0x09, 0x00, 0x00, 0x09, 0x00, 0x00]);
    extended.extend_from_slice(&[0x41, 0x4e, 0x49, 0x4d, 0x06, 0x00, 0x00, 0x00, 0, 0, 0, 0, 0, 0]);
    assert!(!is_small_lossy_webp(&extended, 1024));
    assert!(decode_mode_art(&extended).is_none());
}

#[test]
fn mode_art_refuses_lossless_webp_files() {
    // A valid 1x1 lossless (VP8L) file.
    let lossless: [u8; 34] = [
        0x52, 0x49, 0x46, 0x46, 0x1a, 0x00, 0x00, 0x00, 0x57, 0x45, 0x42, 0x50, 0x56, 0x50, 0x38, 0x4c,
        0x0d, 0x00, 0x00, 0x00, 0x2f, 0x00, 0x00, 0x00, 0x10, 0x07, 0x10, 0x11, 0x11, 0x88, 0x88, 0xfe,
        0x07, 0x00,
    ];
    assert!(!is_small_lossy_webp(&lossless, 1024));
    assert!(decode_mode_art(&lossless).is_none());
}

#[test]
fn mode_art_refuses_lossy_headers_beyond_the_dimension_limit() {
    let mut wide = LOSSY_GRAY_100.to_vec();
    // Width 2000 (0x07d0) in the frame header.
    wide[26] = 0xd0;
    wide[27] = 0x07;
    assert!(!is_small_lossy_webp(&wide, 1024));
    assert!(decode_mode_art(&wide).is_none());
    // The two scale bits above the 14-bit width are not part of it.
    let mut scaled = LOSSY_GRAY_100.to_vec();
    scaled[27] = 0xc0;
    assert!(is_small_lossy_webp(&scaled, 1024));
    assert!(!is_small_lossy_webp(&LOSSY_GRAY_100, 99));
    assert!(is_small_lossy_webp(&LOSSY_GRAY_100, 100));
}

#[test]
fn mode_art_decodes_a_lossy_webp_to_rgba() {
    assert!(is_small_lossy_webp(&LOSSY_GRAY_100, 1024));
    let art = decode_mode_art(&LOSSY_GRAY_100).expect("decode a 100x100 lossy webp");
    assert_eq!(art.width, 100);
    assert_eq!(art.height, 100);
    assert_eq!(art.rgba.len(), 100 * 100 * 4);
    assert!(art.rgba.chunks(4).all(|px| px[3] == 255));
}

/// A 100x100 grey lossy WebP file.
const LOSSY_GRAY_100: [u8; 1236] = [
    0x52, 0x49, 0x46, 0x46, 0xcc, 0x04, 0x00, 0x00, 0x57, 0x45, 0x42, 0x50, 0x56, 0x50, 0x38, 0x20,
    0xc0, 0x04, 0x00, 0x00, 0xb0, 0x23, 0x00, 0x9d, 0x01, 0x2a, 0x64, 0x00, 0x64, 0x00, 0x3e, 0x31,
    0x14, 0x87, 0x42, 0xa2, 0x21, 0x0c, 0x17, 0xae, 0x00, 0x10, 0x01, 0x82, 0x5a, 0x42, 0x1c, 0x00,
    0x08, 0x3e, 0xff, 0x94, 0xda, 0x04, 0xff, 0x1e, 0xfc, 0x7b, 0xf7, 0x8c, 0xe4, 0xff, 0xdb, 0xb5,
    0x95, 0x7c, 0x9a, 0xfe, 0x53, 0xfe, 0x33, 0xf3, 0x03, 0xcc, 0x66, 0x44, 0x1e, 0x36, 0xb8, 0xd4,
    0xf5, 0x4d, 0xfe, 0x33, 0xc7, 0x5f, 0xd1, 0xff, 0xf3, 0xbd, 0xc2, 0x7f, 0x94, 0xff, 0x43, 0xff,
    0x75, 0xc0, 0x4a, 0x3a, 0x62, 0x8c, 0xf7, 0xfb, 0x09, 0xa2, 0x51, 0xde, 0x8e, 0x91, 0xa4, 0x38,
    0xee, 0x98, 0x00, 0x3e, 0x8f, 0xfe, 0x24, 0x4c, 0xcc, 0xb0, 0x37, 0x00, 0xa6, 0xe7, 0x41, 0x2c,
    0xfb, 0xa4, 0x10, 0x05, 0x66, 0x0e, 0xb4, 0x77, 0xed, 0x05, 0x36, 0x8e, 0xe4, 0x20, 0x71, 0xc3,
    0x90, 0x9a, 0xb5, 0x6b, 0xc9, 0xe6, 0xcf, 0xf3, 0x8d, 0x69, 0xf6, 0xe8, 0x5b, 0x42, 0x84, 0x0b,
    0x67, 0x70, 0x99, 0xdc, 0x1b, 0x60, 0x9d, 0x42, 0x78, 0xae, 0x79, 0x2a, 0x97, 0x83, 0x74, 0x5c,
    0xd6, 0x99, 0x4f, 0x94, 0xfd, 0x4c, 0x2f, 0x2d, 0x88, 0xb0, 0x7b, 0x16, 0x8e, 0x1e, 0x25, 0x2a,
    0xe2, 0x85, 0x96, 0xc5, 0x3e, 0x93, 0xac, 0x39, 0x78, 0x2c, 0x90, 0x36, 0x93, 0x83, 0x09, 0xcc,
    0x56, 0xab, 0x28, 0x32, 0x4e, 0x7a, 0xc5, 0x56, 0x1b, 0x93, 0x9a, 0xbe, 0x4d, 0x49, 0xf4, 0xd6,
    0xcb, 0x3a, 0x76, 0xef, 0x7f, 0xa4, 0x2d, 0x0b, 0x5e, 0x75, 0xd3, 0xcc, 0x0f, 0x79, 0x3b, 0xbf,
    0x39, 0xb0, 0x3f, 0x9e, 0x18, 0x34, 0x4b, 0x97, 0xb1, 0x63, 0x12, 0x19, 0x15, 0x79, 0x1b, 0xae,
    0xac, 0x32, 0x4b, 0x39, 0xe7, 0xa9, 0xca, 0x2d, 0x13, 0x73, 0x3c, 0xd6, 0x0f, 0x79, 0x3c, 0x33,
    0xaf, 0xa7, 0x44, 0x80, 0x41, 0x43, 0xb2, 0xd6, 0x15, 0xf6, 0xe1, 0x5a, 0x71, 0xd6, 0x0d, 0x81,
    0x19, 0x36, 0xcf, 0xf6, 0x09, 0xe2, 0x3e, 0x29, 0x7c, 0x6c, 0x3d, 0x7a, 0xbd, 0xc0, 0xc0, 0xe5,
    0xf0, 0xbe, 0xa5, 0x47, 0xaa, 0x63, 0x81, 0x03, 0x83, 0x30, 0x00, 0xfe, 0xff, 0xcb, 0xdd, 0x7d,
    0x87, 0xf1, 0x47, 0x0c, 0x9b, 0x60, 0xff, 0x39, 0xbe, 0xd3, 0x7f, 0x9a, 0xf0, 0x8e, 0x75, 0xf7,
    0x0f, 0x2c, 0xb2, 0xd0, 0x88, 0x6e, 0x00, 0x12, 0x3a, 0x4d, 0x60, 0xa3, 0xbf, 0x81, 0x08, 0x86,
    0x53, 0x1a, 0x0b, 0x9d, 0xef, 0x31, 0xd1, 0x7a, 0x92, 0x1f, 0xce, 0x1b, 0xc9, 0x0f, 0x44, 0xc8,
    0x81, 0xf8, 0xe8, 0xce, 0xe8, 0xb4, 0x46, 0xeb, 0xaf, 0x64, 0xd0, 0x7b, 0x99, 0x22, 0xf1, 0x1e,
    0x51, 0x28, 0x44, 0x9d, 0xca, 0xb1, 0x88, 0xdc, 0x98, 0xb2, 0x14, 0x66, 0x18, 0x2f, 0x8b, 0x8a,
    0x1c, 0xf5, 0x40, 0x23, 0xe0, 0xb0, 0x18, 0x24, 0xdc, 0xa6, 0x0a, 0x6c, 0x7e, 0x6e, 0xdf, 0xd1,
    0xce, 0xc6, 0xca, 0x3c, 0x12, 0x9e, 0x25, 0x2f, 0xa9, 0x96, 0x8f, 0x71, 0xec, 0x1a, 0xa7, 0x78,
    0xc9, 0xe5, 0xb2, 0x30, 0x21, 0x5c, 0x51, 0xfa, 0x8c, 0x1f, 0xe4, 0x96, 0x43, 0xe3, 0x28, 0x6d,
    0xf1, 0xc2, 0x2e, 0xb1, 0xfd, 0x01, 0x71, 0x64, 0x55, 0xe9, 0x76, 0x7c, 0x37, 0x4a, 0x72, 0x82,
    0x60, 0x21, 0x3b, 0x5e, 0xb8, 0xa6, 0x77, 0x1d, 0xb8, 0x7a, 0x0d, 0xc5, 0x3c, 0x91, 0x67, 0x0d,
    0xbe, 0x75, 0x83, 0xa2, 0x16, 0x11, 0x24, 0xdf, 0xda, 0x1c, 0x94, 0xa1, 0x2e, 0x65, 0x0c, 0xf2,
    0xcf, 0x37, 0x31, 0xb0, 0xbc, 0x14, 0x94, 0x89, 0x74, 0x4c, 0xa3, 0xec, 0x27, 0x0e, 0x88, 0x8c,
    0x76, 0xf2, 0xe2, 0xb5, 0x58, 0xa7, 0xf0, 0x40, 0x92, 0xa3, 0xd0, 0x41, 0x37, 0xf4, 0x79, 0xc0,
    0x92, 0xf6, 0xef, 0x76, 0xda, 0x11, 0x18, 0x1b, 0x06, 0xff, 0x0e, 0xda, 0xda, 0x6b, 0xe5, 0x26,
    0x50, 0xf8, 0xde, 0xb9, 0x2d, 0x9d, 0x8c, 0x1c, 0xfe, 0xb0, 0x74, 0x1b, 0xc9, 0x04, 0x82, 0x16,
    0x25, 0xe7, 0x22, 0xca, 0x82, 0x36, 0x6b, 0x7f, 0xe7, 0xae, 0x47, 0xe1, 0xe9, 0x5a, 0x8b, 0x70,
    0xf9, 0x47, 0xee, 0x9f, 0xd8, 0xf4, 0x35, 0x8a, 0xba, 0x40, 0x22, 0x1c, 0x5a, 0x63, 0x79, 0xa4,
    0x2c, 0x28, 0x59, 0xb6, 0xf0, 0x8d, 0x04, 0xe5, 0x1a, 0x91, 0x46, 0x66, 0x1d, 0x91, 0xea, 0xab,
    0xe9, 0xe2, 0xce, 0xd2, 0xf8, 0xf6, 0x8a, 0x4c, 0xef, 0xdd, 0x3a, 0x61, 0x20, 0x30, 0xa3, 0x37,
    0x1f, 0xfe, 0x64, 0xb1, 0x25, 0xc7, 0xeb, 0x3a, 0x8d, 0x22, 0x28, 0x9f, 0x39, 0x87, 0x66, 0x22,
    0xcb, 0xdf, 0xa8, 0xfd, 0xd8, 0x2d, 0x17, 0xac, 0x66, 0xce, 0xa0, 0x68, 0x25, 0xfa, 0x71, 0x5b,
    0x97, 0x95, 0x87, 0xa9, 0xeb, 0x46, 0x9f, 0x31, 0x8a, 0xfc, 0xb5, 0x12, 0xc8, 0x74, 0x2d, 0xa4,
    0x5f, 0x91, 0xde, 0x6e, 0xd9, 0xfa, 0x58, 0x70, 0x83, 0x93, 0x27, 0x7b, 0x00, 0x62, 0x7e, 0x6d,
    0x6f, 0xf6, 0xe7, 0xd3, 0xd7, 0x05, 0x1f, 0xf9, 0x33, 0xd2, 0x8d, 0x91, 0xe1, 0x05, 0x95, 0x79,
    0xa6, 0x2a, 0xe2, 0xfc, 0xfb, 0x83, 0x4b, 0x20, 0x00, 0x95, 0x1a, 0x7b, 0x97, 0xfe, 0x76, 0x5b,
    0xe3, 0x81, 0xfe, 0x3c, 0xfe, 0x9a, 0x04, 0xe4, 0xe2, 0xf2, 0x15, 0x86, 0xab, 0x8e, 0x4e, 0x0d,
    0xa7, 0x96, 0x9b, 0xf4, 0x7f, 0xbf, 0x73, 0xdf, 0x1d, 0x2d, 0x61, 0xa7, 0xc2, 0x6b, 0x85, 0x36,
    0x36, 0x4d, 0x11, 0xd4, 0x0a, 0x65, 0xbf, 0x1a, 0x5e, 0x81, 0x45, 0xf8, 0x0b, 0xa8, 0x44, 0xa4,
    0x9d, 0xec, 0x4a, 0x74, 0xf4, 0x51, 0x93, 0xb8, 0x2d, 0x82, 0xc7, 0x42, 0x34, 0xea, 0x34, 0x67,
    0x5b, 0xdd, 0x33, 0x72, 0x2a, 0xdf, 0x16, 0x9b, 0x1b, 0x4a, 0xc6, 0x9b, 0x7b, 0xb9, 0x6d, 0xdc,
    0xe7, 0x6e, 0x50, 0x1b, 0x14, 0xc1, 0xc4, 0xa3, 0x9c, 0x7d, 0x7f, 0x4d, 0x01, 0xdf, 0xf6, 0x90,
    0x01, 0xc0, 0x07, 0xe4, 0x10, 0x5f, 0xfc, 0x22, 0x5f, 0xad, 0x84, 0xa0, 0xd2, 0x37, 0x48, 0x33,
    0x22, 0xfd, 0x7d, 0xe3, 0xf5, 0x7f, 0xdd, 0x77, 0xeb, 0xa2, 0xbd, 0xe2, 0x65, 0x7e, 0xb1, 0x7b,
    0xf7, 0xe3, 0x05, 0xcb, 0x4e, 0x9a, 0x5f, 0x44, 0xdc, 0xf4, 0x23, 0x72, 0xc7, 0xf9, 0x3a, 0xc4,
    0x54, 0x0c, 0x61, 0x3e, 0xb1, 0x40, 0xad, 0x1f, 0xa9, 0x6d, 0x21, 0xdd, 0x88, 0xef, 0xa3, 0xee,
    0xc4, 0x55, 0xa6, 0xf1, 0xc1, 0x7a, 0x5e, 0xcb, 0x6d, 0x65, 0xbd, 0x8b, 0x01, 0x05, 0x0e, 0xb5,
    0x15, 0x66, 0xe0, 0xc5, 0x64, 0x1d, 0xd5, 0x15, 0xc6, 0x86, 0x6f, 0x76, 0x41, 0x79, 0x6b, 0x69,
    0x56, 0xdc, 0x39, 0x50, 0x0d, 0x87, 0x59, 0xd2, 0xa8, 0xce, 0x19, 0xd4, 0x7e, 0x90, 0xcf, 0xb7,
    0xb8, 0x5c, 0xfb, 0x1f, 0x81, 0x58, 0x35, 0x29, 0x26, 0x2f, 0x87, 0x37, 0xa1, 0xa2, 0x4e, 0x60,
    0x5e, 0xea, 0x00, 0x17, 0xcd, 0xdb, 0x15, 0x97, 0x89, 0xbc, 0x4f, 0x3f, 0x73, 0x40, 0xc3, 0x71,
    0x42, 0x4d, 0x82, 0x42, 0x64, 0xbf, 0x87, 0x3a, 0xf3, 0x44, 0x6e, 0x43, 0xed, 0xe4, 0x53, 0xf8,
    0x5c, 0x2a, 0x9a, 0xee, 0xaa, 0xae, 0x89, 0x91, 0xb0, 0x63, 0x64, 0xb2, 0x00, 0xc7, 0x33, 0xd1,
    0x27, 0xe0, 0x13, 0x1d, 0x40, 0xd9, 0x68, 0x9a, 0xc8, 0xd2, 0xc0, 0x2d, 0x40, 0x83, 0xca, 0x2e,
    0x71, 0x83, 0xe5, 0x6a, 0xec, 0x62, 0x36, 0xe9, 0xac, 0x9a, 0xf8, 0xbe, 0xd1, 0x09, 0xe2, 0x45,
    0xbc, 0x3b, 0x4f, 0xce, 0x5b, 0xbb, 0xfe, 0x55, 0x8b, 0xcf, 0x1a, 0x8b, 0x7a, 0x4f, 0xe4, 0x2e,
    0xec, 0xc2, 0xd7, 0xf9, 0xf2, 0xd3, 0x97, 0x77, 0x45, 0x0c, 0x55, 0xf0, 0xae, 0xae, 0xab, 0xc3,
    0x7e, 0xcc, 0x3c, 0x85, 0x34, 0xdd, 0xbb, 0xfd, 0x83, 0x4b, 0xa4, 0xaf, 0x7b, 0x74, 0xff, 0x6f,
    0x0b, 0x79, 0xe0, 0xfa, 0xef, 0x34, 0x6e, 0x25, 0x67, 0xcd, 0xf1, 0x7f, 0x50, 0x1a, 0x1a, 0x9a,
    0x65, 0x4f, 0xdf, 0x25, 0xff, 0xf8, 0xaf, 0xff, 0xf2, 0x52, 0x17, 0x32, 0x7e, 0x44, 0x9c, 0x57,
    0xef, 0xe7, 0x66, 0x2b, 0xb0, 0xe9, 0x31, 0x61, 0x3c, 0x95, 0x4a, 0x8e, 0x91, 0x86, 0x6f, 0xff,
    0xd5, 0x2f, 0xe8, 0x39, 0x85, 0x20, 0x9a, 0x7f, 0x08, 0xeb, 0xcf, 0x4f, 0x7b, 0x3d, 0x70, 0x90,
    0x1b, 0xe8, 0x79, 0x62, 0x23, 0x3d, 0xa8, 0x80, 0xfe, 0x5c, 0x2d, 0xe4, 0x51, 0xf1, 0xa1, 0xd1,
    0xa0, 0x34, 0x7a, 0x21, 0x59, 0x9c, 0xf7, 0x0f, 0xf6, 0x11, 0x29, 0x14, 0xc0, 0xab, 0xe7, 0x30,
    0x3f, 0xf5, 0x1f, 0x7f, 0xea, 0x39, 0xd3, 0x36, 0xb7, 0xd2, 0xa9, 0x7c, 0xc5, 0xe6, 0xea, 0xcd,
    0x88, 0x52, 0x99, 0x57, 0x89, 0x06, 0x6a, 0x42, 0x60, 0x2f, 0xe6, 0x79, 0x5f, 0x06, 0x15, 0xd7,
    0x70, 0x8f, 0xbd, 0x1c, 0x10, 0xa6, 0x38, 0x44, 0x9c, 0x1b, 0x2c, 0xe1, 0x9d, 0xc9, 0xba, 0xc0,
    0x9a, 0x7e, 0x4d, 0xc6, 0x28, 0x8e, 0x2c, 0x84, 0xd7, 0x24, 0x91, 0x5f, 0xa5, 0x93, 0x8b, 0xd1,
    0x65, 0x1c, 0x00, 0x00,
];

#[test]
fn scoring_is_bounded_and_deterministic() {
    let mut game = GameState::new(GameMode::MirrorBeat);
    game.judge([Action::LeftUp.mask(), 0, 0, 0], None);
    assert_eq!(game.scores[0], 110);
    assert_eq!(game.combos[0], 1);
    game.judge([Action::MoveRight.mask(), 0, 0, 0], None);
    assert_eq!(game.combos[0], 0);
}

#[test]
fn custom_target_is_used_for_scoring_and_display() {
    let mut game = GameState::new(GameMode::MirrorBeat);
    game.judge([Action::Clap.mask(), 0, 0, 0], Some(Action::Clap.mask()));
    assert_eq!(game.target, Action::Clap);
    assert_eq!(game.scores[0], 110);
}

/// One runtime frame as the host drives it: player 0's pose (its tracked
/// id and what it shows) and fallback, no beat boundary crossed.
fn runtime_frame(
    runtime: &mut MotionRuntime,
    pose: Option<(u32, u32)>,
    fallback: u32,
    evaluation: [bool; 4],
    custom_target: Option<u32>,
) {
    let ready = [true; ACTION_COUNT];
    runtime.begin_frame();
    runtime.track_local(0, pose.map(|(id, _)| id));
    let local = match pose {
        Some((_, active)) => LocalPose::Seen { active, cooldown_ready: ready },
        None => LocalPose::Absent,
    };
    runtime.record_local(0, local, evaluation[0], fallback);
    runtime.track_local(1, None);
    runtime.record_local(1, LocalPose::Absent, evaluation[1], 0);
    runtime.record_remote(0, 0, evaluation[2]);
    runtime.record_remote(1, 0, evaluation[3]);
    runtime.judge(0, custom_target);
}

#[test]
fn motion_runtime_exposes_pose_action_and_hit_feedback() {
    let mut runtime = MotionRuntime::new(GameMode::MirrorBeat);
    runtime_frame(&mut runtime, Some((1, 0)), Action::LeftUp.mask(), [true; 4], None);
    assert_eq!(runtime.players[0].tracked_id, Some(1));
    assert_eq!(runtime.local_triggered(), [Action::LeftUp.mask(), 0]);
    assert!(runtime.players[0].hit);
    assert!(!runtime.players[0].miss);
}

#[test]
fn motion_runtime_marks_wrong_actions_as_misses() {
    let mut runtime = MotionRuntime::new(GameMode::MirrorBeat);
    runtime_frame(&mut runtime, None, Action::MoveRight.mask(), [true; 4], None);
    assert!(runtime.players[0].miss);
    assert!(!runtime.players[0].hit);
}

#[test]
fn guide_only_input_never_scores_or_emits_feedback() {
    let mut runtime = MotionRuntime::new(GameMode::MirrorBeat);
    runtime_frame(&mut runtime, None, Action::LeftUp.mask(), [false; 4], None);
    assert_eq!(runtime.game.scores, [0; 4]);
    assert_eq!(runtime.local_evaluated_triggered(), [0, 0]);
    assert!(!runtime.players[0].hit);
    assert!(!runtime.players[0].miss);
}

#[test]
fn reacquired_pose_can_trigger_an_action_again() {
    let mut runtime = MotionRuntime::new(GameMode::MirrorBeat);
    runtime_frame(&mut runtime, Some((1, Action::LeftUp.mask())), 0, [true; 4], None);
    assert_ne!(runtime.players[0].triggered & Action::LeftUp.mask(), 0);
    runtime_frame(&mut runtime, None, 0, [true; 4], None);
    runtime_frame(&mut runtime, Some((1, Action::LeftUp.mask())), 0, [true; 4], None);
    assert_ne!(runtime.players[0].triggered & Action::LeftUp.mask(), 0);
}

fn signals() -> PoseSignals {
    PoseSignals {
        lean_left: false,
        lean_right: false,
        rise: false,
        crouch: false,
        left_hand_up: false,
        right_hand_up: false,
        left_hand_down: false,
        right_hand_down: false,
        hands_together: false,
        pause_pose: false,
        pause_held: false,
    }
}

#[test]
fn pause_dwell_reserves_both_hands_from_gameplay_scoring() {
    let mut runtime = MotionRuntime::new(GameMode::MirrorBeat);
    let eval = [true, false, false, false];
    let target = Some(Action::LeftUp.mask());
    runtime_frame(&mut runtime, Some((1, compose_active(signals()))), 0, eval, target);
    let pausing = PoseSignals { left_hand_up: true, right_hand_up: true, pause_pose: true, ..signals() };
    // Dwell started, nearly a second, a full second.
    for held in [false, false, true] {
        let active = compose_active(PoseSignals { pause_held: held, ..pausing });
        runtime_frame(&mut runtime, Some((1, active)), 0, eval, target);
        assert_eq!(runtime.game.scores[0], 0);
        assert_eq!(runtime.game.combos[0], 0);
        assert!(!runtime.players[0].hit);
        assert!(!runtime.players[0].miss);
    }
    assert_eq!(runtime.local_evaluated_triggered()[0], Action::Pause.mask());
}

#[test]
fn both_wrists_below_hips_trigger_hands_down() {
    let mut edges = ActionEdges::new();
    let ready = [true; ACTION_COUNT];
    edges.update(compose_active(signals()), ready);
    let reach_down = compose_active(PoseSignals { left_hand_down: true, right_hand_down: true, ..signals() });
    let sample = edges.update(reach_down, ready);
    assert_ne!(sample.active & Action::HandsDown.mask(), 0);
    assert_eq!(sample.triggered & Action::HandsDown.mask(), Action::HandsDown.mask());
    assert_eq!(sample.active & GAMEPLAY_MASK, 0);
    assert_eq!(edges.update(reach_down, ready).triggered & Action::HandsDown.mask(), 0);
}

#[test]
fn pause_requires_a_one_second_separated_two_hand_hold() {
    let mut edges = ActionEdges::new();
    let ready = [true; ACTION_COUNT];
    edges.update(compose_active(signals()), ready);
    let pausing = PoseSignals { left_hand_up: true, right_hand_up: true, pause_pose: true, ..signals() };
    let started = edges.update(compose_active(pausing), ready);
    assert_eq!(started.triggered & Action::Pause.mask(), 0);
    assert_eq!(started.active & GAMEPLAY_MASK, 0);
    assert_eq!(started.triggered & GAMEPLAY_MASK, 0);
    let almost = edges.update(compose_active(pausing), ready);
    assert_eq!(almost.active & Action::Pause.mask(), 0);
    assert_eq!(almost.triggered & Action::Pause.mask(), 0);
    assert_eq!(almost.active & GAMEPLAY_MASK, 0);
    let held_signals = PoseSignals { pause_held: true, ..pausing };
    let held = edges.update(compose_active(held_signals), ready);
    assert_ne!(held.active & Action::Pause.mask(), 0);
    assert_eq!(held.triggered & Action::Pause.mask(), Action::Pause.mask());
    assert_eq!(edges.update(compose_active(held_signals), ready).triggered, 0);
}

#[test]
fn transient_hands_and_overhead_clap_do_not_trigger_pause() {
    let mut edges = ActionEdges::new();
    let ready = [true; ACTION_COUNT];
    edges.update(compose_active(signals()), ready);
    let pausing = PoseSignals { left_hand_up: true, right_hand_up: true, pause_pose: true, ..signals() };
    edges.update(compose_active(pausing), ready);
    assert_eq!(edges.update(compose_active(pausing), ready).triggered & Action::Pause.mask(), 0);
    edges.update(compose_active(signals()), ready);
    // Hands up but together: a clap, not the separated pause pose.
    let overhead_clap = PoseSignals { left_hand_up: true, right_hand_up: true, hands_together: true, ..signals() };
    let clap = edges.update(compose_active(overhead_clap), ready);
    assert_ne!(clap.triggered & Action::Clap.mask(), 0);
    let held_clap = edges.update(compose_active(overhead_clap), ready);
    assert_eq!(held_clap.active & Action::Pause.mask(), 0);
    assert_eq!(held_clap.triggered & Action::Pause.mask(), 0);
}
