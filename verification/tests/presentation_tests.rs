use brainbreak::presentation::supernova_guide_pose;
use brainbreak::supernova::SupernovaPhase;
use brainbreak::game_state::GameMode;
use brainbreak::presentation::{
    action_cue_lane_label, action_cue_presentation, feedback_presentation, guide_pose_for_hazard,
    guide_pose_for_obstacle, hud_combo_visible, pause_presentation, player_label, ready_presentation,
    result_choices, result_duo_available, result_title, stage_player_visibility,
    tracking_hold_presentation, displayed_player_count, mode_label, GestureCue, GuidePose,
    MotionFigure, MotionPromptTone,
};
use brainbreak::runner::{RunnerFeedback, RunnerGame, RunnerHazard, RunnerOutcome};
use brainbreak::PLAYER_CAPACITY;

fn player_flags(p1: bool, p2: bool) -> [bool; PLAYER_CAPACITY] {
    [p1, p2, false, false]
}

#[test]
fn ready_presentation_preserves_runtime_truth_with_static_ascii_copy() {
    let cases = [
        (
            ready_presentation(GameMode::MirrorBeat, true, 0, false, false),
            "CAMERA NEEDED",
            [MotionFigure::Camera, MotionFigure::Hidden],
        ),
        (
            ready_presentation(GameMode::MirrorBeat, false, 0, false, false),
            "STEP INTO FRAME",
            [MotionFigure::Searching, MotionFigure::Hidden],
        ),
        (
            ready_presentation(GameMode::MirrorBeat, false, 1, false, false),
            "READY TO MOVE",
            [MotionFigure::Present, MotionFigure::Hidden],
        ),
        (
            ready_presentation(GameMode::MirrorBeat, false, 1, true, false),
            "SIGNAL RECEIVED",
            [MotionFigure::Ready, MotionFigure::Hidden],
        ),
        (
            ready_presentation(GameMode::DuoGroove, false, 1, false, false),
            "PLAYER 1 FOUND",
            [MotionFigure::Present, MotionFigure::Searching],
        ),
        (
            ready_presentation(GameMode::DuoGroove, false, 1, true, false),
            "PLAYER 1 READY",
            [MotionFigure::Ready, MotionFigure::Searching],
        ),
        (
            ready_presentation(GameMode::DuoGroove, false, 2, false, false),
            "DUO READY CHECK",
            [MotionFigure::Present, MotionFigure::Present],
        ),
        (
            ready_presentation(GameMode::DuoGroove, false, 2, true, false),
            "PLAYER 1 READY",
            [MotionFigure::Ready, MotionFigure::Present],
        ),
        (
            ready_presentation(GameMode::DuoGroove, false, 2, false, true),
            "PLAYER 2 READY",
            [MotionFigure::Present, MotionFigure::Ready],
        ),
        (
            ready_presentation(GameMode::DuoGroove, false, 2, true, true),
            "BOTH PLAYERS READY",
            [MotionFigure::Ready, MotionFigure::Ready],
        ),
    ];

    for (presentation, title, figures) in cases {
        assert_eq!(presentation.title, title);
        assert_eq!(presentation.figures, figures);
        assert!(presentation.title.is_ascii());
        assert!(presentation.instruction.is_ascii());
        assert!(presentation.title.len() <= 20);
        assert!(presentation.instruction.len() <= 25);
    }
}

#[test]
fn tracking_hold_presentation_preserves_required_player_truth() {
    let remote_only = [false, false, true, true];
    let remote_ready = [false, false, true, false];
    let cases = [
        (
            tracking_hold_presentation(GameMode::MirrorBeat, player_flags(false, false), player_flags(false, false)),
            "FIND YOUR FRAME",
            [MotionFigure::Searching, MotionFigure::Hidden],
        ),
        (
            tracking_hold_presentation(GameMode::MirrorBeat, player_flags(true, false), player_flags(false, false)),
            "TRACKING RESTORED",
            [MotionFigure::Present, MotionFigure::Hidden],
        ),
        (
            tracking_hold_presentation(GameMode::MirrorBeat, remote_only, remote_ready),
            "SIGNAL RECEIVED",
            [MotionFigure::Ready, MotionFigure::Hidden],
        ),
        (
            tracking_hold_presentation(GameMode::DuoGroove, remote_only, [false; PLAYER_CAPACITY]),
            "FIND BOTH PLAYERS",
            [MotionFigure::Searching, MotionFigure::Searching],
        ),
        (
            tracking_hold_presentation(GameMode::DuoGroove, player_flags(true, false), player_flags(false, false)),
            "PLAYER 1 FOUND",
            [MotionFigure::Present, MotionFigure::Searching],
        ),
        (
            tracking_hold_presentation(GameMode::DuoGroove, player_flags(false, true), player_flags(false, true)),
            "PLAYER 2 READY",
            [MotionFigure::Searching, MotionFigure::Ready],
        ),
        (
            tracking_hold_presentation(GameMode::DuoGroove, player_flags(true, true), player_flags(false, false)),
            "TRACKING RESTORED",
            [MotionFigure::Present, MotionFigure::Present],
        ),
        (
            tracking_hold_presentation(GameMode::DuoGroove, player_flags(true, true), player_flags(true, false)),
            "PLAYER 1 READY",
            [MotionFigure::Ready, MotionFigure::Present],
        ),
        (
            tracking_hold_presentation(GameMode::DuoGroove, player_flags(true, true), player_flags(false, true)),
            "PLAYER 2 READY",
            [MotionFigure::Present, MotionFigure::Ready],
        ),
        (
            tracking_hold_presentation(GameMode::DuoGroove, player_flags(true, true), player_flags(true, true)),
            "BOTH PLAYERS READY",
            [MotionFigure::Ready, MotionFigure::Ready],
        ),
    ];

    for (presentation, title, figures) in cases {
        assert_eq!(presentation.title, title);
        assert_eq!(presentation.figures, figures);
        assert!(!presentation.title.contains("PAUSED"));
        assert!(presentation.title.is_ascii());
        assert!(presentation.instruction.is_ascii());
        assert!(presentation.title.len() <= 20);
        assert!(presentation.instruction.len() <= 25);
    }
}

#[test]
fn pause_presentation_requires_frame_before_clap_and_preserves_player_truth() {
    let remote_only = [false, false, true, true];
    let remote_ready = [false, false, true, false];
    let cases = [
        (
            pause_presentation(GameMode::MirrorBeat, [false; PLAYER_CAPACITY], [false; PLAYER_CAPACITY]),
            "STEP BACK INTO FRAME",
            [MotionFigure::Searching, MotionFigure::Hidden],
        ),
        (
            pause_presentation(GameMode::MirrorBeat, player_flags(true, false), [false; PLAYER_CAPACITY]),
            "CLAP TO RESUME",
            [MotionFigure::Present, MotionFigure::Hidden],
        ),
        (
            pause_presentation(GameMode::MirrorBeat, remote_only, remote_ready),
            "GET READY",
            [MotionFigure::Ready, MotionFigure::Hidden],
        ),
        (
            pause_presentation(GameMode::DuoGroove, remote_only, [false; PLAYER_CAPACITY]),
            "BOTH STEP BACK INTO FRAME",
            [MotionFigure::Searching, MotionFigure::Searching],
        ),
        (
            pause_presentation(GameMode::DuoGroove, player_flags(true, false), player_flags(false, false)),
            "PLAYER 2 BACK IN FRAME",
            [MotionFigure::Present, MotionFigure::Searching],
        ),
        (
            pause_presentation(GameMode::DuoGroove, player_flags(false, true), player_flags(false, true)),
            "PLAYER 1 BACK IN FRAME",
            [MotionFigure::Searching, MotionFigure::Ready],
        ),
        (
            pause_presentation(GameMode::DuoGroove, player_flags(true, true), player_flags(false, false)),
            "BOTH CLAP TO RESUME",
            [MotionFigure::Present, MotionFigure::Present],
        ),
        (
            pause_presentation(GameMode::DuoGroove, player_flags(true, true), player_flags(true, false)),
            "PLAYER 2 CLAP TO RESUME",
            [MotionFigure::Ready, MotionFigure::Present],
        ),
        (
            pause_presentation(GameMode::DuoGroove, player_flags(true, true), player_flags(false, true)),
            "PLAYER 1 CLAP TO RESUME",
            [MotionFigure::Present, MotionFigure::Ready],
        ),
        (
            pause_presentation(GameMode::DuoGroove, player_flags(true, true), player_flags(true, true)),
            "GET READY",
            [MotionFigure::Ready, MotionFigure::Ready],
        ),
    ];

    for (presentation, instruction, figures) in cases {
        assert_eq!(presentation.title, "PAUSED");
        assert_eq!(presentation.instruction, instruction);
        assert_eq!(presentation.figures, figures);
        assert!(presentation.instruction.is_ascii());
        assert!(!presentation.instruction.contains('•'));
        assert!(presentation.instruction.len() <= 25);
    }
}

#[test]
fn pause_prompt_tones_warn_until_players_are_back() {
    let p = pause_presentation(GameMode::DuoGroove, player_flags(true, false), player_flags(true, false));
    assert_eq!(p.tone, MotionPromptTone::Warning);
    assert_eq!(p.figures, [MotionFigure::Ready, MotionFigure::Searching]);
    let p = pause_presentation(GameMode::BeatStrike, player_flags(true, false), player_flags(true, false));
    assert_eq!(p.tone, MotionPromptTone::Ready);
}

#[test]
fn runner_hazards_map_to_voice_synced_guide_poses() {
    assert_eq!(guide_pose_for_hazard(RunnerHazard::Hurdle, 0), GuidePose::Jump);
    assert_eq!(guide_pose_for_hazard(RunnerHazard::OverheadGate, 0), GuidePose::Squat);
    assert_eq!(guide_pose_for_hazard(RunnerHazard::BeatOrb, 0), GuidePose::Clap);
    assert_eq!(guide_pose_for_hazard(RunnerHazard::LaneBlock, -1), GuidePose::DodgeRight);
    assert_eq!(guide_pose_for_obstacle(None, true), GuidePose::Idle);
}

#[test]
fn hazard_poses_follow_voice_cues_and_dodge_away() {
    assert_eq!(guide_pose_for_hazard(RunnerHazard::Hurdle, 1), GuidePose::from_voice_cue("jump"));
    assert_eq!(guide_pose_for_hazard(RunnerHazard::OverheadGate, -1), GuidePose::from_voice_cue("drop"));
    assert_eq!(guide_pose_for_hazard(RunnerHazard::LaneBlock, 0), GuidePose::DodgeLeft);
    assert_eq!(guide_pose_for_hazard(RunnerHazard::LaneBlock, 1), GuidePose::DodgeLeft);
}

#[test]
fn every_hazard_has_a_distinct_shape_and_action_verb() {
    let presentations = [
        action_cue_presentation(RunnerHazard::LaneBlock),
        action_cue_presentation(RunnerHazard::Hurdle),
        action_cue_presentation(RunnerHazard::OverheadGate),
        action_cue_presentation(RunnerHazard::BeatOrb),
    ];

    assert_eq!(presentations[0].verb, "DODGE");
    assert_eq!(presentations[1].verb, "JUMP");
    assert_eq!(presentations[2].verb, "SQUAT");
    assert_eq!(presentations[3].verb, "CLAP");
    for left in 0..presentations.len() {
        for right in left + 1..presentations.len() {
            assert_ne!(presentations[left].pictogram, presentations[right].pictogram);
        }
    }
}

#[test]
fn lane_labels_describe_obstacle_location_not_move_direction() {
    assert_eq!(action_cue_lane_label(-1), "LEFT LANE");
    assert_eq!(action_cue_lane_label(0), "CENTER LANE");
    assert_eq!(action_cue_lane_label(1), "RIGHT LANE");
}

#[test]
fn feedback_events_have_distinct_shape_and_positive_recovery_copy() {
    let dodge = feedback_presentation(RunnerFeedback::Dodge).expect("dodge feedback");
    let crash = feedback_presentation(RunnerFeedback::Crash).expect("crash feedback");
    let beat = feedback_presentation(RunnerFeedback::BeatPickup).expect("beat feedback");

    assert_eq!(dodge.label, "NICE");
    assert_eq!(crash.label, "NEXT");
    assert_eq!(beat.label, "BEAT");
    assert_ne!(dodge.glyph, crash.glyph);
    assert_ne!(dodge.glyph, beat.glyph);
    assert_ne!(crash.glyph, beat.glyph);
    assert_eq!(feedback_presentation(RunnerFeedback::Quiet), None);
}

#[test]
fn single_modes_show_only_truthful_player_slots() {
    let mut game = RunnerGame::new();
    assert_eq!(stage_player_visibility(&game), [true, false, false, false]);

    game.players[1].evaluated = true;
    game.players[3].evaluated = true;
    assert_eq!(stage_player_visibility(&game), [true, true, false, true]);

    game.mode = GameMode::BeatStrike;
    assert_eq!(stage_player_visibility(&game), [true, true, false, true]);
}

#[test]
fn duo_keeps_two_required_slots_and_truthful_remote_presence() {
    let mut game = RunnerGame::with_mode(GameMode::DuoGroove);
    assert_eq!(stage_player_visibility(&game), [true, true, false, false]);

    game.players[2].evaluated = true;
    assert_eq!(stage_player_visibility(&game), [true, true, true, false]);
}

#[test]
fn voice_cues_map_to_expected_poses() {
    assert_eq!(GuidePose::from_voice_cue("jump"), GuidePose::Jump);
    assert_eq!(GuidePose::from_voice_cue("freeze"), GuidePose::Freeze);
    assert_eq!(GuidePose::from_voice_cue("drop"), GuidePose::Squat);
    assert_eq!(GuidePose::from_voice_cue("raise_hand"), GuidePose::RaiseHands);
    assert_eq!(GuidePose::from_voice_cue("clap_replay"), GuidePose::Clap);
    assert_eq!(GuidePose::from_voice_cue("lava"), GuidePose::Jump);
    assert_eq!(GuidePose::from_voice_cue("dance"), GuidePose::Dance);
    assert_eq!(GuidePose::from_voice_cue("go"), GuidePose::Go);
}

#[test]
fn unknown_and_near_miss_voice_cues_idle() {
    assert_eq!(GuidePose::from_voice_cue("nice_try"), GuidePose::Idle);
    assert_eq!(GuidePose::from_voice_cue(""), GuidePose::Idle);
    assert_eq!(GuidePose::from_voice_cue("jumps"), GuidePose::Idle);
    assert_eq!(GuidePose::from_voice_cue("count_2"), GuidePose::Go);
    assert_eq!(GuidePose::from_voice_cue("celebrate"), GuidePose::Jump);
}

#[test]
fn dance_verb_cycle_covers_core_actions() {
    let poses: Vec<_> = (0..8).map(GuidePose::from_dance_verb).collect();
    assert!(poses.contains(&GuidePose::Jump));
    assert!(poses.contains(&GuidePose::Clap));
    assert!(poses.contains(&GuidePose::RaiseHands));
}

#[test]
fn dance_verbs_and_gestures_repeat_every_eight() {
    for i in 0..16usize {
        assert_eq!(GuidePose::from_dance_verb(i), GuidePose::from_dance_verb(i + 8));
        assert_eq!(GestureCue::from_index(i), GestureCue::from_index(i + 8));
    }
    assert_eq!(GuidePose::from_dance_verb(3), GuidePose::Go);
    assert_eq!(GuidePose::from_dance_verb(6), GuidePose::Dance);
    assert_eq!(GestureCue::from_index(7), GestureCue::RoyalWave);
}

#[test]
fn result_duo_art_matches_deterministic_availability() {
    let mut runner = RunnerGame::new();
    assert!(!result_duo_available(&runner));
    assert_eq!(
        result_choices(false),
        [(GameMode::MirrorBeat, true), (GameMode::BeatStrike, true), (GameMode::DuoGroove, false)]
    );

    runner.players[0].evaluated = true;
    runner.players[1].evaluated = true;
    assert!(result_duo_available(&runner));
    assert!(result_choices(true).into_iter().all(|(_, available)| available));
}

#[test]
fn result_layout_stays_inside_target_viewports() {
    assert_eq!(result_title(Some(RunnerOutcome::BreakComplete)), "BREAK COMPLETE");
    assert_eq!(result_title(Some(RunnerOutcome::EnergySpent)), "NICE RUN!");
}

#[test]
fn result_titles_celebrate_both_outcomes() {
    assert_eq!(result_title(Some(RunnerOutcome::BreakComplete)), "BREAK COMPLETE");
    assert_eq!(result_title(Some(RunnerOutcome::EnergySpent)), "NICE RUN!");
    assert_eq!(result_title(None), "NICE RUN!");
    assert_eq!(mode_label(GameMode::DuoGroove), "DUO");
}

#[test]
fn combo_badge_starts_at_two() {
    assert!(!hud_combo_visible(0));
    assert!(!hud_combo_visible(1));
    assert!(hud_combo_visible(2));
}

#[test]
fn hud_shows_evaluated_locals_or_all_four_online() {
    let mut runner = RunnerGame::new();
    assert_eq!(displayed_player_count(&runner, 0), 1);
    runner.players[0].evaluated = true;
    runner.players[1].evaluated = true;
    assert_eq!(displayed_player_count(&runner, 1), 2);
    assert_eq!(displayed_player_count(&runner, 2), 4);
    assert_eq!(player_label(0), "P1");
    assert_eq!(player_label(9), "P4");
}

#[test]
fn supernova_coach_follows_the_party_phases() {
    assert_eq!(supernova_guide_pose(SupernovaPhase::Ready, 0), GuidePose::RaiseHands);
    assert_eq!(supernova_guide_pose(SupernovaPhase::Countdown, 0), GuidePose::Go);
    assert_eq!(supernova_guide_pose(SupernovaPhase::Dance, 1), GuidePose::Clap);
    assert_eq!(supernova_guide_pose(SupernovaPhase::Dance, 8), GuidePose::Jump);
    assert_eq!(supernova_guide_pose(SupernovaPhase::Freeze, 3), GuidePose::Freeze);
    assert_eq!(supernova_guide_pose(SupernovaPhase::Drop, 3), GuidePose::Squat);
    assert_eq!(supernova_guide_pose(SupernovaPhase::Result, 3), GuidePose::Clap);
}
