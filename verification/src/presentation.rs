//! What the screens say and show: motion prompts for the ready check, the
//! tracking hold and the pause, result screen choices and titles, HUD labels,
//! and the guide coach's pose for each cue. Every prompt tells the truth
//! about which players are found and which are ready.
use vstd::prelude::*;
use crate::game_state::GameMode;
use crate::runner::{RunnerFeedback, RunnerGame, RunnerHazard, RunnerOutcome};
use crate::supernova::SupernovaPhase;
use crate::PLAYER_CAPACITY;

verus! {

#[derive(Clone, Copy, Debug, PartialEq, Eq, Structural)]
pub enum MotionPromptTone {
    Warning,
    Active,
    Ready,
}

/// What each player's figure shows on a prompt.
#[derive(Clone, Copy, Debug, PartialEq, Eq, Structural)]
pub enum MotionFigure {
    Hidden,
    Camera,
    Searching,
    Present,
    Ready,
}

#[derive(Clone, Copy, Debug, PartialEq, Eq)]
pub struct MotionPromptPresentation {
    pub title: &'static str,
    pub instruction: &'static str,
    pub tone: MotionPromptTone,
    pub figures: [MotionFigure; 2],
}

/// The figure of a found player: Ready once they signalled.
pub open spec fn found_figure(ready: bool) -> MotionFigure {
    if ready { MotionFigure::Ready } else { MotionFigure::Present }
}

fn found_figure_exec(ready: bool) -> (f: MotionFigure)
    ensures
        f == found_figure(ready),
{
    if ready { MotionFigure::Ready } else { MotionFigure::Present }
}

fn prompt(title: &'static str, instruction: &'static str, tone: MotionPromptTone, first: MotionFigure, second: MotionFigure) -> (p: MotionPromptPresentation)
    ensures
        p.title == title,
        p.instruction == instruction,
        p.tone == tone,
        p.figures[0] == first,
        p.figures[1] == second,
{
    MotionPromptPresentation { title, instruction, tone, figures: [first, second] }
}

/// The ready-check prompt: camera off, nobody found, one of two duo players
/// found, the duo ready check, or a single player's ready check.
pub open spec fn ready_prompt(mode: GameMode, guide_only: bool, tracked_players: usize, p1_ready: bool, p2_ready: bool)
    -> (&'static str, &'static str, MotionPromptTone, MotionFigure, MotionFigure)
{
    if guide_only {
        ("CAMERA NEEDED", "TURN ON MOTION TO PLAY", MotionPromptTone::Warning, MotionFigure::Camera, MotionFigure::Hidden)
    } else if tracked_players == 0 {
        ("STEP INTO FRAME", "SHOW YOUR FULL BODY", MotionPromptTone::Active, MotionFigure::Searching, MotionFigure::Hidden)
    } else if mode == GameMode::DuoGroove && tracked_players < 2 {
        (if p1_ready { "PLAYER 1 READY" } else { "PLAYER 1 FOUND" }, "PLAYER 2 STEP INTO FRAME",
            MotionPromptTone::Warning, found_figure(p1_ready), MotionFigure::Searching)
    } else if mode == GameMode::DuoGroove {
        if p1_ready && p2_ready {
            ("BOTH PLAYERS READY", "GET READY", MotionPromptTone::Ready, MotionFigure::Ready, MotionFigure::Ready)
        } else if p1_ready {
            ("PLAYER 1 READY", "PLAYER 2 RAISE A HAND", MotionPromptTone::Active, MotionFigure::Ready, MotionFigure::Present)
        } else if p2_ready {
            ("PLAYER 2 READY", "PLAYER 1 RAISE A HAND", MotionPromptTone::Active, MotionFigure::Present, MotionFigure::Ready)
        } else {
            ("DUO READY CHECK", "BOTH RAISE A HAND", MotionPromptTone::Active, MotionFigure::Present, MotionFigure::Present)
        }
    } else if p1_ready || p2_ready {
        ("SIGNAL RECEIVED", "GET READY", MotionPromptTone::Ready, MotionFigure::Ready, MotionFigure::Hidden)
    } else {
        ("READY TO MOVE", "RAISE A HAND OR CLAP", MotionPromptTone::Active, MotionFigure::Present, MotionFigure::Hidden)
    }
}

/// Whether `p` equals the prompt tuple `t`.
pub open spec fn shows(p: MotionPromptPresentation, t: (&'static str, &'static str, MotionPromptTone, MotionFigure, MotionFigure)) -> bool {
    p.title == t.0 && p.instruction == t.1 && p.tone == t.2 && p.figures[0] == t.3 && p.figures[1] == t.4
}

/// The ready-check prompt.
pub fn ready_presentation(mode: GameMode, guide_only: bool, tracked_players: usize, p1_ready: bool, p2_ready: bool) -> (p: MotionPromptPresentation)
    ensures
        shows(p, ready_prompt(mode, guide_only, tracked_players, p1_ready, p2_ready)),
{
    if guide_only {
        return prompt("CAMERA NEEDED", "TURN ON MOTION TO PLAY", MotionPromptTone::Warning, MotionFigure::Camera, MotionFigure::Hidden);
    }
    if tracked_players == 0 {
        return prompt("STEP INTO FRAME", "SHOW YOUR FULL BODY", MotionPromptTone::Active, MotionFigure::Searching, MotionFigure::Hidden);
    }
    if mode == GameMode::DuoGroove && tracked_players < 2 {
        return prompt(if p1_ready { "PLAYER 1 READY" } else { "PLAYER 1 FOUND" }, "PLAYER 2 STEP INTO FRAME",
            MotionPromptTone::Warning, found_figure_exec(p1_ready), MotionFigure::Searching);
    }
    if mode == GameMode::DuoGroove {
        return if p1_ready && p2_ready {
            prompt("BOTH PLAYERS READY", "GET READY", MotionPromptTone::Ready, MotionFigure::Ready, MotionFigure::Ready)
        } else if p1_ready {
            prompt("PLAYER 1 READY", "PLAYER 2 RAISE A HAND", MotionPromptTone::Active, MotionFigure::Ready, MotionFigure::Present)
        } else if p2_ready {
            prompt("PLAYER 2 READY", "PLAYER 1 RAISE A HAND", MotionPromptTone::Active, MotionFigure::Present, MotionFigure::Ready)
        } else {
            prompt("DUO READY CHECK", "BOTH RAISE A HAND", MotionPromptTone::Active, MotionFigure::Present, MotionFigure::Present)
        };
    }
    if p1_ready || p2_ready {
        prompt("SIGNAL RECEIVED", "GET READY", MotionPromptTone::Ready, MotionFigure::Ready, MotionFigure::Hidden)
    } else {
        prompt("READY TO MOVE", "RAISE A HAND OR CLAP", MotionPromptTone::Active, MotionFigure::Present, MotionFigure::Hidden)
    }
}

/// Whether some evaluated player is ready.
pub open spec fn any_evaluated_ready(evaluated: [bool; PLAYER_CAPACITY], ready: [bool; PLAYER_CAPACITY]) -> bool {
    (evaluated[0] && ready[0]) || (evaluated[1] && ready[1]) || (evaluated[2] && ready[2]) || (evaluated[3] && ready[3])
}

pub open spec fn any_evaluated(evaluated: [bool; PLAYER_CAPACITY]) -> bool {
    evaluated[0] || evaluated[1] || evaluated[2] || evaluated[3]
}

fn any_evaluated_exec(evaluated: [bool; PLAYER_CAPACITY]) -> (b: bool)
    ensures
        b == any_evaluated(evaluated),
{
    evaluated[0] || evaluated[1] || evaluated[2] || evaluated[3]
}

fn any_evaluated_ready_exec(evaluated: [bool; PLAYER_CAPACITY], ready: [bool; PLAYER_CAPACITY]) -> (b: bool)
    ensures
        b == any_evaluated_ready(evaluated, ready),
{
    (evaluated[0] && ready[0]) || (evaluated[1] && ready[1]) || (evaluated[2] && ready[2]) || (evaluated[3] && ready[3])
}

/// The tracking-hold prompt: in Duo Groove each local player's figure shows
/// whether they are found and ready; otherwise one figure for the team.
pub open spec fn tracking_hold_prompt(mode: GameMode, evaluated: [bool; PLAYER_CAPACITY], ready: [bool; PLAYER_CAPACITY])
    -> (&'static str, &'static str, MotionPromptTone, MotionFigure, MotionFigure)
{
    if mode == GameMode::DuoGroove {
        if !evaluated[0] && !evaluated[1] {
            ("FIND BOTH PLAYERS", "STEP BACK INTO VIEW", MotionPromptTone::Warning, MotionFigure::Searching, MotionFigure::Searching)
        } else if evaluated[0] && !evaluated[1] {
            (if ready[0] { "PLAYER 1 READY" } else { "PLAYER 1 FOUND" }, "PLAYER 2 STEP INTO VIEW",
                MotionPromptTone::Warning, found_figure(ready[0]), MotionFigure::Searching)
        } else if !evaluated[0] && evaluated[1] {
            (if ready[1] { "PLAYER 2 READY" } else { "PLAYER 2 FOUND" }, "PLAYER 1 STEP INTO VIEW",
                MotionPromptTone::Warning, MotionFigure::Searching, found_figure(ready[1]))
        } else if ready[0] && ready[1] {
            ("BOTH PLAYERS READY", "GET READY", MotionPromptTone::Ready, MotionFigure::Ready, MotionFigure::Ready)
        } else if ready[0] {
            ("PLAYER 1 READY", "PLAYER 2 RAISE A HAND", MotionPromptTone::Active, MotionFigure::Ready, MotionFigure::Present)
        } else if ready[1] {
            ("PLAYER 2 READY", "PLAYER 1 RAISE A HAND", MotionPromptTone::Active, MotionFigure::Present, MotionFigure::Ready)
        } else {
            ("TRACKING RESTORED", "BOTH RAISE A HAND", MotionPromptTone::Active, MotionFigure::Present, MotionFigure::Present)
        }
    } else if !any_evaluated(evaluated) {
        ("FIND YOUR FRAME", "STEP BACK INTO VIEW", MotionPromptTone::Warning, MotionFigure::Searching, MotionFigure::Hidden)
    } else if any_evaluated_ready(evaluated, ready) {
        ("SIGNAL RECEIVED", "GET READY", MotionPromptTone::Ready, MotionFigure::Ready, MotionFigure::Hidden)
    } else {
        ("TRACKING RESTORED", "RAISE A HAND OR CLAP", MotionPromptTone::Active, MotionFigure::Present, MotionFigure::Hidden)
    }
}

/// The tracking-hold prompt.
pub fn tracking_hold_presentation(mode: GameMode, evaluated: [bool; PLAYER_CAPACITY], ready: [bool; PLAYER_CAPACITY]) -> (p: MotionPromptPresentation)
    ensures
        shows(p, tracking_hold_prompt(mode, evaluated, ready)),
{
    if mode == GameMode::DuoGroove {
        return if !evaluated[0] && !evaluated[1] {
            prompt("FIND BOTH PLAYERS", "STEP BACK INTO VIEW", MotionPromptTone::Warning, MotionFigure::Searching, MotionFigure::Searching)
        } else if evaluated[0] && !evaluated[1] {
            prompt(if ready[0] { "PLAYER 1 READY" } else { "PLAYER 1 FOUND" }, "PLAYER 2 STEP INTO VIEW",
                MotionPromptTone::Warning, found_figure_exec(ready[0]), MotionFigure::Searching)
        } else if !evaluated[0] && evaluated[1] {
            prompt(if ready[1] { "PLAYER 2 READY" } else { "PLAYER 2 FOUND" }, "PLAYER 1 STEP INTO VIEW",
                MotionPromptTone::Warning, MotionFigure::Searching, found_figure_exec(ready[1]))
        } else if ready[0] && ready[1] {
            prompt("BOTH PLAYERS READY", "GET READY", MotionPromptTone::Ready, MotionFigure::Ready, MotionFigure::Ready)
        } else if ready[0] {
            prompt("PLAYER 1 READY", "PLAYER 2 RAISE A HAND", MotionPromptTone::Active, MotionFigure::Ready, MotionFigure::Present)
        } else if ready[1] {
            prompt("PLAYER 2 READY", "PLAYER 1 RAISE A HAND", MotionPromptTone::Active, MotionFigure::Present, MotionFigure::Ready)
        } else {
            prompt("TRACKING RESTORED", "BOTH RAISE A HAND", MotionPromptTone::Active, MotionFigure::Present, MotionFigure::Present)
        };
    }
    if !any_evaluated_exec(evaluated) {
        prompt("FIND YOUR FRAME", "STEP BACK INTO VIEW", MotionPromptTone::Warning, MotionFigure::Searching, MotionFigure::Hidden)
    } else if any_evaluated_ready_exec(evaluated, ready) {
        prompt("SIGNAL RECEIVED", "GET READY", MotionPromptTone::Ready, MotionFigure::Ready, MotionFigure::Hidden)
    } else {
        prompt("TRACKING RESTORED", "RAISE A HAND OR CLAP", MotionPromptTone::Active, MotionFigure::Present, MotionFigure::Hidden)
    }
}

/// The pause prompt: always titled PAUSED; players must be back in frame
/// before a Clap resumes.
pub open spec fn pause_prompt(mode: GameMode, evaluated: [bool; PLAYER_CAPACITY], ready: [bool; PLAYER_CAPACITY])
    -> (&'static str, &'static str, MotionPromptTone, MotionFigure, MotionFigure)
{
    if mode == GameMode::DuoGroove {
        if !evaluated[0] && !evaluated[1] {
            ("PAUSED", "BOTH STEP BACK INTO FRAME", MotionPromptTone::Warning, MotionFigure::Searching, MotionFigure::Searching)
        } else if evaluated[0] && !evaluated[1] {
            ("PAUSED", "PLAYER 2 BACK IN FRAME", MotionPromptTone::Warning, found_figure(ready[0]), MotionFigure::Searching)
        } else if !evaluated[0] && evaluated[1] {
            ("PAUSED", "PLAYER 1 BACK IN FRAME", MotionPromptTone::Warning, MotionFigure::Searching, found_figure(ready[1]))
        } else if ready[0] && ready[1] {
            ("PAUSED", "GET READY", MotionPromptTone::Ready, MotionFigure::Ready, MotionFigure::Ready)
        } else if ready[0] {
            ("PAUSED", "PLAYER 2 CLAP TO RESUME", MotionPromptTone::Active, MotionFigure::Ready, MotionFigure::Present)
        } else if ready[1] {
            ("PAUSED", "PLAYER 1 CLAP TO RESUME", MotionPromptTone::Active, MotionFigure::Present, MotionFigure::Ready)
        } else {
            ("PAUSED", "BOTH CLAP TO RESUME", MotionPromptTone::Active, MotionFigure::Present, MotionFigure::Present)
        }
    } else if !any_evaluated(evaluated) {
        ("PAUSED", "STEP BACK INTO FRAME", MotionPromptTone::Warning, MotionFigure::Searching, MotionFigure::Hidden)
    } else if any_evaluated_ready(evaluated, ready) {
        ("PAUSED", "GET READY", MotionPromptTone::Ready, MotionFigure::Ready, MotionFigure::Hidden)
    } else {
        ("PAUSED", "CLAP TO RESUME", MotionPromptTone::Active, MotionFigure::Present, MotionFigure::Hidden)
    }
}

/// The pause prompt.
pub fn pause_presentation(mode: GameMode, evaluated: [bool; PLAYER_CAPACITY], ready: [bool; PLAYER_CAPACITY]) -> (p: MotionPromptPresentation)
    ensures
        shows(p, pause_prompt(mode, evaluated, ready)),
{
    if mode == GameMode::DuoGroove {
        return if !evaluated[0] && !evaluated[1] {
            prompt("PAUSED", "BOTH STEP BACK INTO FRAME", MotionPromptTone::Warning, MotionFigure::Searching, MotionFigure::Searching)
        } else if evaluated[0] && !evaluated[1] {
            prompt("PAUSED", "PLAYER 2 BACK IN FRAME", MotionPromptTone::Warning, found_figure_exec(ready[0]), MotionFigure::Searching)
        } else if !evaluated[0] && evaluated[1] {
            prompt("PAUSED", "PLAYER 1 BACK IN FRAME", MotionPromptTone::Warning, MotionFigure::Searching, found_figure_exec(ready[1]))
        } else if ready[0] && ready[1] {
            prompt("PAUSED", "GET READY", MotionPromptTone::Ready, MotionFigure::Ready, MotionFigure::Ready)
        } else if ready[0] {
            prompt("PAUSED", "PLAYER 2 CLAP TO RESUME", MotionPromptTone::Active, MotionFigure::Ready, MotionFigure::Present)
        } else if ready[1] {
            prompt("PAUSED", "PLAYER 1 CLAP TO RESUME", MotionPromptTone::Active, MotionFigure::Present, MotionFigure::Ready)
        } else {
            prompt("PAUSED", "BOTH CLAP TO RESUME", MotionPromptTone::Active, MotionFigure::Present, MotionFigure::Present)
        };
    }
    if !any_evaluated_exec(evaluated) {
        prompt("PAUSED", "STEP BACK INTO FRAME", MotionPromptTone::Warning, MotionFigure::Searching, MotionFigure::Hidden)
    } else if any_evaluated_ready_exec(evaluated, ready) {
        prompt("PAUSED", "GET READY", MotionPromptTone::Ready, MotionFigure::Ready, MotionFigure::Hidden)
    } else {
        prompt("PAUSED", "CLAP TO RESUME", MotionPromptTone::Active, MotionFigure::Present, MotionFigure::Hidden)
    }
}

/// Duo prompts tell the truth about each local player: a figure searches
/// exactly when that player is not found, and shows Ready exactly when the
/// player is found and ready.
pub proof fn lemma_duo_prompts_truthful(evaluated: [bool; PLAYER_CAPACITY], ready: [bool; PLAYER_CAPACITY], i: int)
    requires
        0 <= i < 2,
    ensures
        ({
            let t = tracking_hold_prompt(GameMode::DuoGroove, evaluated, ready);
            let f = if i == 0 { t.3 } else { t.4 };
            &&& (f == MotionFigure::Searching) == !evaluated[i]
            &&& (f == MotionFigure::Ready) == (evaluated[i] && ready[i])
        }),
        ({
            let t = pause_prompt(GameMode::DuoGroove, evaluated, ready);
            let f = if i == 0 { t.3 } else { t.4 };
            &&& (f == MotionFigure::Searching) == !evaluated[i]
            &&& (f == MotionFigure::Ready) == (evaluated[i] && ready[i])
        }),
{
}

/// The pause screen is always titled PAUSED, and never asks for a Clap
/// while a required player is out of frame.
pub proof fn lemma_pause_prompt_titled_and_frame_first(mode: GameMode, evaluated: [bool; PLAYER_CAPACITY], ready: [bool; PLAYER_CAPACITY])
    ensures
        pause_prompt(mode, evaluated, ready).0 == "PAUSED",
        mode == GameMode::DuoGroove && !(evaluated[0] && evaluated[1]) ==>
            pause_prompt(mode, evaluated, ready).2 == MotionPromptTone::Warning,
        mode != GameMode::DuoGroove && !any_evaluated(evaluated) ==>
            pause_prompt(mode, evaluated, ready).2 == MotionPromptTone::Warning,
{
}

} // verus!

verus! {

/// Title of the result screen.
pub open spec fn result_title_text(outcome: Option<RunnerOutcome>) -> &'static str {
    match outcome {
        Some(RunnerOutcome::BreakComplete) => "BREAK COMPLETE",
        _ => "NICE RUN!",
    }
}

/// Title of the result screen: a completed break, or a cheer for a run
/// that ended early.
pub fn result_title(outcome: Option<RunnerOutcome>) -> (s: &'static str)
    ensures
        s == result_title_text(outcome),
{
    match outcome {
        Some(RunnerOutcome::BreakComplete) => "BREAK COMPLETE",
        Some(RunnerOutcome::EnergySpent) | None => "NICE RUN!",
    }
}

/// Share hint on the result screen (none).
pub fn result_share_hint() -> (s: &'static str)
    ensures
        s == "",
{
    ""
}

/// Action hint on the result screen (none).
pub fn result_action_hint() -> (s: &'static str)
    ensures
        s == "",
{
    ""
}

/// The three modes offered after a run, each with whether it is available:
/// Duo Groove only when a duo is available.
pub fn result_choices(duo_available: bool) -> (c: [(GameMode, bool); 3])
    ensures
        c[0] == (GameMode::MirrorBeat, true),
        c[1] == (GameMode::BeatStrike, true),
        c[2] == (GameMode::DuoGroove, duo_available),
{
    [(GameMode::MirrorBeat, true), (GameMode::BeatStrike, true), (GameMode::DuoGroove, duo_available)]
}

/// A duo is available when both local players are evaluated.
pub fn result_duo_available(runner: &RunnerGame) -> (b: bool)
    ensures
        b == (runner.players[0].evaluated && runner.players[1].evaluated),
{
    runner.players[0].evaluated && runner.players[1].evaluated
}

pub open spec fn mode_label_text(mode: GameMode) -> &'static str {
    match mode {
        GameMode::MirrorBeat => "MIRROR",
        GameMode::BeatStrike => "STRIKE",
        GameMode::DuoGroove => "DUO",
    }
}

/// Short mode label on result chips.
pub fn mode_label(mode: GameMode) -> (s: &'static str)
    ensures
        s == mode_label_text(mode),
{
    match mode {
        GameMode::MirrorBeat => "MIRROR",
        GameMode::BeatStrike => "STRIKE",
        GameMode::DuoGroove => "DUO",
    }
}

/// HUD cards shown: all four with a networked session (status 2 or more),
/// otherwise one per evaluated local player, at least one.
pub open spec fn displayed_count(runner: RunnerGame, network: u32) -> usize {
    if network >= 2 {
        4
    } else {
        let n = (if runner.players[0].evaluated { 1usize } else { 0usize })
            + (if runner.players[1].evaluated { 1usize } else { 0usize });
        if n == 0 { 1 } else { n as usize }
    }
}

/// Number of HUD cards shown.
pub fn displayed_player_count(runner: &RunnerGame, network: u32) -> (n: usize)
    ensures
        n == displayed_count(*runner, network),
        1 <= n <= 4,
{
    if network >= 2 {
        4
    } else {
        let mut n: usize = 0;
        if runner.players[0].evaluated {
            n = n + 1;
        }
        if runner.players[1].evaluated {
            n = n + 1;
        }
        if n == 0 { 1 } else { n }
    }
}

/// The combo badge appears from a combo of two.
pub fn hud_combo_visible(combo: u16) -> (b: bool)
    ensures
        b == (combo >= 2),
{
    combo >= 2
}

pub open spec fn player_label_text(player: usize) -> &'static str {
    if player == 0 {
        "P1"
    } else if player == 1 {
        "P2"
    } else if player == 2 {
        "P3"
    } else {
        "P4"
    }
}

/// HUD label of a player slot (slots past the fourth read P4).
pub fn player_label(player: usize) -> (s: &'static str)
    ensures
        s == player_label_text(player),
{
    match player {
        0 => "P1",
        1 => "P2",
        2 => "P3",
        _ => "P4",
    }
}

/// Which runner slots are drawn: player 1 always, player 2 always in Duo
/// Groove, others when evaluated.
pub fn stage_player_visibility(game: &RunnerGame) -> (v: [bool; PLAYER_CAPACITY])
    ensures
        v[0],
        v[1] == (game.players[1].evaluated || game.mode == GameMode::DuoGroove),
        v[2] == game.players[2].evaluated,
        v[3] == game.players[3].evaluated,
{
    [true, game.players[1].evaluated || game.mode == GameMode::DuoGroove, game.players[2].evaluated, game.players[3].evaluated]
}

pub open spec fn lane_label_text(lane: i8) -> &'static str {
    if lane == -1 {
        "LEFT LANE"
    } else if lane == 1 {
        "RIGHT LANE"
    } else {
        "CENTER LANE"
    }
}

/// Where an obstacle is (not where to move).
pub fn action_cue_lane_label(lane: i8) -> (s: &'static str)
    ensures
        s == lane_label_text(lane),
{
    match lane {
        -1 => "LEFT LANE",
        1 => "RIGHT LANE",
        _ => "CENTER LANE",
    }
}

/// Pictogram of an action cue.
#[derive(Clone, Copy, Debug, PartialEq, Eq, Structural)]
pub enum ActionPictogram {
    Dodge,
    Jump,
    Squat,
    Clap,
}

#[derive(Clone, Copy, Debug, PartialEq, Eq)]
pub struct ActionCuePresentation {
    pub verb: &'static str,
    pub pictogram: ActionPictogram,
}

pub open spec fn cue_verb(kind: RunnerHazard) -> (&'static str, ActionPictogram) {
    match kind {
        RunnerHazard::LaneBlock => ("DODGE", ActionPictogram::Dodge),
        RunnerHazard::Hurdle => ("JUMP", ActionPictogram::Jump),
        RunnerHazard::OverheadGate => ("SQUAT", ActionPictogram::Squat),
        RunnerHazard::BeatOrb => ("CLAP", ActionPictogram::Clap),
    }
}

/// The verb and pictogram cueing a hazard: each hazard its own.
pub fn action_cue_presentation(kind: RunnerHazard) -> (p: ActionCuePresentation)
    ensures
        p.verb == cue_verb(kind).0,
        p.pictogram == cue_verb(kind).1,
{
    match kind {
        RunnerHazard::LaneBlock => ActionCuePresentation { verb: "DODGE", pictogram: ActionPictogram::Dodge },
        RunnerHazard::Hurdle => ActionCuePresentation { verb: "JUMP", pictogram: ActionPictogram::Jump },
        RunnerHazard::OverheadGate => ActionCuePresentation { verb: "SQUAT", pictogram: ActionPictogram::Squat },
        RunnerHazard::BeatOrb => ActionCuePresentation { verb: "CLAP", pictogram: ActionPictogram::Clap },
    }
}

/// Every hazard has a distinct pictogram.
pub proof fn lemma_cue_pictograms_distinct(a: RunnerHazard, b: RunnerHazard)
    ensures
        a != b ==> cue_verb(a).1 != cue_verb(b).1,
{
}

#[derive(Clone, Copy, Debug, PartialEq, Eq, Structural)]
pub enum FeedbackGlyph {
    Check,
    Cross,
    BeatSpark,
}

#[derive(Clone, Copy, Debug, PartialEq, Eq)]
pub struct FeedbackPresentation {
    pub label: &'static str,
    pub glyph: FeedbackGlyph,
}

pub open spec fn feedback_text(feedback: RunnerFeedback) -> Option<(&'static str, FeedbackGlyph)> {
    match feedback {
        RunnerFeedback::Quiet => None,
        RunnerFeedback::Dodge => Some(("NICE", FeedbackGlyph::Check)),
        RunnerFeedback::Crash => Some(("NEXT", FeedbackGlyph::Cross)),
        RunnerFeedback::BeatPickup => Some(("BEAT", FeedbackGlyph::BeatSpark)),
    }
}

/// The marker shown for a frame's feedback: positive copy even after a crash.
pub fn feedback_presentation(feedback: RunnerFeedback) -> (p: Option<FeedbackPresentation>)
    ensures
        match feedback_text(feedback) {
            Some((label, glyph)) => p == Some(FeedbackPresentation { label, glyph }),
            None => p is None,
        },
{
    match feedback {
        RunnerFeedback::Quiet => None,
        RunnerFeedback::Dodge => Some(FeedbackPresentation { label: "NICE", glyph: FeedbackGlyph::Check }),
        RunnerFeedback::Crash => Some(FeedbackPresentation { label: "NEXT", glyph: FeedbackGlyph::Cross }),
        RunnerFeedback::BeatPickup => Some(FeedbackPresentation { label: "BEAT", glyph: FeedbackGlyph::BeatSpark }),
    }
}

} // verus!

verus! {

/// Whether two strings hold the same text.
pub fn same_text(a: &str, b: &str) -> (r: bool)
    ensures
        r == (a@ == b@),
{
    let x = a.as_bytes();
    let y = b.as_bytes();
    let mut equal = x.len() == y.len();
    if equal {
        let mut i: usize = 0;
        while i < x.len()
            invariant_except_break
                equal,
                x@.len() == y@.len(),
                i <= x@.len(),
                forall|j: int| 0 <= j < i ==> x@[j] == y@[j],
            ensures
                equal == (x@ =~= y@),
            decreases x.len() - i,
        {
            if x[i] != y[i] {
                equal = false;
                break;
            }
            i = i + 1;
        }
    }
    proof {
        vstd::utf8::encode_utf8_decode_utf8(a@);
        vstd::utf8::encode_utf8_decode_utf8(b@);
        if equal {
            assert(x@ == y@);
        }
    }
    equal
}

/// The pose the guide coach demonstrates.
#[derive(Clone, Copy, Debug, PartialEq, Eq, Structural)]
pub enum GuidePose {
    Idle,
    Jump,
    Clap,
    Freeze,
    Squat,
    RaiseHands,
    DodgeLeft,
    DodgeRight,
    Go,
    Dance,
}

/// Coach pose for a voice cue id.
pub open spec fn voice_cue_pose(id: Seq<char>) -> GuidePose {
    if id == "jump"@ || id == "ritual_jump"@ {
        GuidePose::Jump
    } else if id == "clap_replay"@ {
        GuidePose::Clap
    } else if id == "freeze"@ {
        GuidePose::Freeze
    } else if id == "drop"@ {
        GuidePose::Squat
    } else if id == "lava"@ || id == "ritual_lava"@ {
        GuidePose::Jump
    } else if id == "raise_hand"@ || id == "hold"@ || id == "duo_invite"@ {
        GuidePose::RaiseHands
    } else if id == "dance"@ || id == "lets_go"@ {
        GuidePose::Dance
    } else if id == "go"@ || id == "count_3"@ || id == "count_2"@ || id == "count_1"@ {
        GuidePose::Go
    } else if id == "perfect"@ || id == "celebrate"@ {
        GuidePose::Jump
    } else {
        GuidePose::Idle
    }
}

/// Coach pose for dance verb `index` (an eight-step cycle).
pub open spec fn dance_verb_pose(index: usize) -> GuidePose {
    let i = index % 8;
    if i == 0 {
        GuidePose::Jump
    } else if i == 1 {
        GuidePose::Clap
    } else if i == 3 {
        GuidePose::Go
    } else if i == 6 {
        GuidePose::Dance
    } else {
        GuidePose::RaiseHands
    }
}

impl GuidePose {
    /// Coach pose for a voice cue id; unknown ids idle.
    pub fn from_voice_cue(id: &str) -> (p: GuidePose)
        ensures
            p == voice_cue_pose(id@),
    {
        if same_text(id, "jump") || same_text(id, "ritual_jump") {
            GuidePose::Jump
        } else if same_text(id, "clap_replay") {
            GuidePose::Clap
        } else if same_text(id, "freeze") {
            GuidePose::Freeze
        } else if same_text(id, "drop") {
            GuidePose::Squat
        } else if same_text(id, "lava") || same_text(id, "ritual_lava") {
            GuidePose::Jump
        } else if same_text(id, "raise_hand") || same_text(id, "hold") || same_text(id, "duo_invite") {
            GuidePose::RaiseHands
        } else if same_text(id, "dance") || same_text(id, "lets_go") {
            GuidePose::Dance
        } else if same_text(id, "go") || same_text(id, "count_3") || same_text(id, "count_2") || same_text(id, "count_1") {
            GuidePose::Go
        } else if same_text(id, "perfect") || same_text(id, "celebrate") {
            GuidePose::Jump
        } else {
            GuidePose::Idle
        }
    }

    /// Coach pose for dance verb `index`: jump, clap, raise hands, go,
    /// raise hands, raise hands, dance, raise hands, repeating.
    pub fn from_dance_verb(index: usize) -> (p: GuidePose)
        ensures
            p == dance_verb_pose(index),
    {
        let i = index % 8;
        if i == 0 {
            GuidePose::Jump
        } else if i == 1 {
            GuidePose::Clap
        } else if i == 3 {
            GuidePose::Go
        } else if i == 6 {
            GuidePose::Dance
        } else {
            GuidePose::RaiseHands
        }
    }
}

/// Coach pose of the freeze party in `phase`: hands raised while waiting, go
/// on the countdown, dance verb `verb_index` while dancing, the poses of the
/// freeze and drop cues, and a clap on the result screen.
pub open spec fn supernova_coach_pose(phase: SupernovaPhase, verb_index: usize) -> GuidePose {
    match phase {
        SupernovaPhase::Ready => GuidePose::RaiseHands,
        SupernovaPhase::Countdown => GuidePose::Go,
        SupernovaPhase::Dance => dance_verb_pose(verb_index),
        SupernovaPhase::Freeze => voice_cue_pose("freeze"@),
        SupernovaPhase::Drop => voice_cue_pose("drop"@),
        SupernovaPhase::Result => GuidePose::Clap,
    }
}

/// Coach pose of the freeze party; the host picks `verb_index` from how
/// long the coach has been dancing.
pub fn supernova_guide_pose(phase: SupernovaPhase, verb_index: usize) -> (p: GuidePose)
    ensures
        p == supernova_coach_pose(phase, verb_index),
{
    match phase {
        SupernovaPhase::Ready => GuidePose::RaiseHands,
        SupernovaPhase::Countdown => GuidePose::Go,
        SupernovaPhase::Dance => GuidePose::from_dance_verb(verb_index),
        SupernovaPhase::Freeze => GuidePose::from_voice_cue("freeze"),
        SupernovaPhase::Drop => GuidePose::from_voice_cue("drop"),
        SupernovaPhase::Result => GuidePose::Clap,
    }
}

/// Coach pose for a hazard in `lane`: jump a hurdle (the "jump" cue), squat
/// under a gate (the "drop" cue), clap an orb, and dodge a block away from
/// its lane (a centre block is dodged to the left).
pub open spec fn hazard_pose(kind: RunnerHazard, lane: i8) -> GuidePose {
    match kind {
        RunnerHazard::Hurdle => GuidePose::Jump,
        RunnerHazard::OverheadGate => GuidePose::Squat,
        RunnerHazard::BeatOrb => GuidePose::Clap,
        RunnerHazard::LaneBlock => if lane < 0 { GuidePose::DodgeRight } else { GuidePose::DodgeLeft },
    }
}

/// Coach pose for a hazard in `lane`.
pub fn guide_pose_for_hazard(kind: RunnerHazard, lane: i8) -> (p: GuidePose)
    ensures
        p == hazard_pose(kind, lane),
{
    match kind {
        RunnerHazard::Hurdle => GuidePose::Jump,
        RunnerHazard::OverheadGate => GuidePose::Squat,
        RunnerHazard::BeatOrb => GuidePose::Clap,
        RunnerHazard::LaneBlock => {
            if lane < 0 {
                GuidePose::DodgeRight
            } else {
                GuidePose::DodgeLeft
            }
        },
    }
}

/// Dance gestures of the freeze party, cycled by verb index.
#[derive(Clone, Copy, Debug, PartialEq, Eq, Structural)]
pub enum GestureCue {
    Jump,
    Clap,
    Paint,
    Tiptoe,
    Wiggle,
    Reach,
    March,
    RoyalWave,
}

impl GestureCue {
    pub open spec fn at(i: usize) -> GestureCue {
        let k = i % 8;
        if k == 0 { GestureCue::Jump }
        else if k == 1 { GestureCue::Clap }
        else if k == 2 { GestureCue::Paint }
        else if k == 3 { GestureCue::Tiptoe }
        else if k == 4 { GestureCue::Wiggle }
        else if k == 5 { GestureCue::Reach }
        else if k == 6 { GestureCue::March }
        else { GestureCue::RoyalWave }
    }

    /// The gesture of verb `i` (an eight-step cycle).
    pub fn from_index(i: usize) -> (g: GestureCue)
        ensures
            g == GestureCue::at(i),
    {
        let k = i % 8;
        if k == 0 { GestureCue::Jump }
        else if k == 1 { GestureCue::Clap }
        else if k == 2 { GestureCue::Paint }
        else if k == 3 { GestureCue::Tiptoe }
        else if k == 4 { GestureCue::Wiggle }
        else if k == 5 { GestureCue::Reach }
        else if k == 6 { GestureCue::March }
        else { GestureCue::RoyalWave }
    }
}

} // verus!

verus! {

/// Coach pose for the next obstacle: idle without one or while it is still
/// beyond cue range (judged by the host from its distance).
pub fn guide_pose_for_obstacle(next: Option<crate::runner::RunnerObstacle>, in_cue_range: bool) -> (p: GuidePose)
    ensures
        match next {
            Some(o) => p == (if in_cue_range { hazard_pose(o.kind, o.lane) } else { GuidePose::Idle }),
            None => p == GuidePose::Idle,
        },
{
    match next {
        Some(o) => if in_cue_range { guide_pose_for_hazard(o.kind, o.lane) } else { GuidePose::Idle },
        None => GuidePose::Idle,
    }
}

} // verus!
