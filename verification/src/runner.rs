//! Neon Beat Runner: a three-lane runner whose session is a state machine of
//! ready checks, countdowns, pauses and tracking holds, and whose hazards are
//! judged per player as they reach the collision line.
//!
//! The host keeps the continuous quantities (seconds, distances, action
//! timers) and reports what they imply each frame; this module owns every
//! discrete decision: phases, readiness, lanes, scores, lives, combos,
//! spawning and result navigation.
use vstd::prelude::*;
use crate::action::Action;
use crate::game_state::GameMode;
use crate::PLAYER_CAPACITY;

verus! {

/// Number of obstacle slots.
pub const RUNNER_OBSTACLE_CAPACITY: usize = 12;

/// Lives each player starts a run with.
pub const RUNNER_START_LIVES: u8 = 3;

/// Length of the obstacle pattern.
pub const RUNNER_PATTERN_LEN: usize = 16;

#[derive(Clone, Copy, Debug, PartialEq, Eq, Structural)]
pub enum RunnerPhase {
    Ready,
    Starting,
    Running,
    Paused,
    PauseResuming,
    TrackingHold,
    Resuming,
    GameOver,
}

impl RunnerPhase {
    /// Phases that run a countdown before play resumes.
    pub open spec fn counts_down(self) -> bool {
        self == RunnerPhase::Starting || self == RunnerPhase::PauseResuming
            || self == RunnerPhase::Resuming
    }

    /// Whether this phase runs a countdown.
    pub fn is_countdown(self) -> (b: bool)
        ensures
            b == self.counts_down(),
    {
        match self {
            RunnerPhase::Starting | RunnerPhase::PauseResuming | RunnerPhase::Resuming => true,
            _ => false,
        }
    }
}

#[derive(Clone, Copy, Debug, PartialEq, Eq, Structural)]
pub enum RunnerHazard {
    LaneBlock,
    Hurdle,
    OverheadGate,
    BeatOrb,
}

impl RunnerHazard {
    pub open spec fn cue_text(self) -> &'static str {
        match self {
            RunnerHazard::LaneBlock => "SWITCH LANE",
            RunnerHazard::Hurdle => "JUMP",
            RunnerHazard::OverheadGate => "SQUAT",
            RunnerHazard::BeatOrb => "CLAP",
        }
    }

    pub open spec fn required(self) -> Option<Action> {
        match self {
            RunnerHazard::LaneBlock => None,
            RunnerHazard::Hurdle => Some(Action::Jump),
            RunnerHazard::OverheadGate => Some(Action::Squat),
            RunnerHazard::BeatOrb => Some(Action::Clap),
        }
    }

    /// The spoken cue for this hazard.
    pub fn cue(self) -> (s: &'static str)
        ensures
            s == self.cue_text(),
    {
        match self {
            RunnerHazard::LaneBlock => "SWITCH LANE",
            RunnerHazard::Hurdle => "JUMP",
            RunnerHazard::OverheadGate => "SQUAT",
            RunnerHazard::BeatOrb => "CLAP",
        }
    }

    /// The action that clears this hazard; a lane block is cleared by being
    /// in another lane.
    pub fn required_action(self) -> (a: Option<Action>)
        ensures
            a == self.required(),
    {
        match self {
            RunnerHazard::LaneBlock => None,
            RunnerHazard::Hurdle => Some(Action::Jump),
            RunnerHazard::OverheadGate => Some(Action::Squat),
            RunnerHazard::BeatOrb => Some(Action::Clap),
        }
    }
}

/// Per-player feedback of the current frame.
#[derive(Clone, Copy, Debug, PartialEq, Eq, Structural)]
pub enum RunnerFeedback {
    Quiet,
    Dodge,
    Crash,
    BeatPickup,
}

#[derive(Clone, Copy, Debug, PartialEq, Eq, Structural)]
pub enum RunnerOutcome {
    BreakComplete,
    EnergySpent,
}

#[derive(Clone, Copy, Debug, PartialEq, Eq, Structural)]
pub struct RunnerResultEvent {
    pub mode: GameMode,
    pub outcome: RunnerOutcome,
}

/// An obstacle in a slot. Its distance to the collision line is kept by the
/// host, slot by slot.
#[derive(Clone, Copy, Debug, PartialEq, Eq, Structural)]
pub struct RunnerObstacle {
    pub id: u32,
    pub lane: i8,
    pub kind: RunnerHazard,
    /// Bit `p` is set once player `p` has been judged against the obstacle.
    pub resolved_players: u8,
}

/// The bit of player `p` in an obstacle's resolved mask.
pub open spec fn player_bit(p: int) -> u8 {
    if p == 0 {
        1
    } else if p == 1 {
        2
    } else if p == 2 {
        4
    } else {
        8
    }
}

impl RunnerObstacle {
    pub open spec fn resolved_for(self, p: int) -> bool {
        self.resolved_players & player_bit(p) != 0
    }
}

fn player_bit_exec(p: usize) -> (b: u8)
    requires
        p < PLAYER_CAPACITY,
    ensures
        b == player_bit(p as int),
{
    if p == 0 {
        1
    } else if p == 1 {
        2
    } else if p == 2 {
        4
    } else {
        8
    }
}

/// Marking player `p` resolved sets exactly its bit.
proof fn lemma_mark_resolved(r: u8, p: int, q: int)
    requires
        0 <= p < 4,
        0 <= q < 4,
    ensures
        ((r | player_bit(p)) & player_bit(q) != 0) == (p == q || r & player_bit(q) != 0),
{
    assert(forall|r: u8| #![auto] (r | 1u8) & 1u8 != 0) by (bit_vector);
    assert(forall|r: u8| #![auto] (r | 2u8) & 2u8 != 0) by (bit_vector);
    assert(forall|r: u8| #![auto] (r | 4u8) & 4u8 != 0) by (bit_vector);
    assert(forall|r: u8| #![auto] (r | 8u8) & 8u8 != 0) by (bit_vector);
    assert(forall|r: u8| #![auto] ((r | 1u8) & 2u8 != 0) == (r & 2u8 != 0) && ((r | 1u8) & 4u8 != 0) == (r & 4u8 != 0) && ((r | 1u8) & 8u8 != 0) == (r & 8u8 != 0)) by (bit_vector);
    assert(forall|r: u8| #![auto] ((r | 2u8) & 1u8 != 0) == (r & 1u8 != 0) && ((r | 2u8) & 4u8 != 0) == (r & 4u8 != 0) && ((r | 2u8) & 8u8 != 0) == (r & 8u8 != 0)) by (bit_vector);
    assert(forall|r: u8| #![auto] ((r | 4u8) & 1u8 != 0) == (r & 1u8 != 0) && ((r | 4u8) & 2u8 != 0) == (r & 2u8 != 0) && ((r | 4u8) & 8u8 != 0) == (r & 8u8 != 0)) by (bit_vector);
    assert(forall|r: u8| #![auto] ((r | 8u8) & 1u8 != 0) == (r & 1u8 != 0) && ((r | 8u8) & 2u8 != 0) == (r & 2u8 != 0) && ((r | 8u8) & 4u8 != 0) == (r & 4u8 != 0)) by (bit_vector);
}

/// A runner's discrete state. Action timers (jump, slide, pulse, crash) are
/// kept by the host.
#[derive(Clone, Copy, Debug, PartialEq, Eq, Structural)]
pub struct RunnerPlayer {
    pub lane: i8,
    pub score: u32,
    pub best_score: u32,
    pub combo: u16,
    pub best_combo: u16,
    pub lives: u8,
    pub new_best: bool,
    pub evaluated: bool,
}

impl RunnerPlayer {
    pub open spec fn initial() -> RunnerPlayer {
        RunnerPlayer {
            lane: 0,
            score: 0,
            best_score: 0,
            combo: 0,
            best_combo: 0,
            lives: RUNNER_START_LIVES,
            new_best: false,
            evaluated: false,
        }
    }

    /// A player still in the run: evaluated and with lives left.
    pub open spec fn in_play(self) -> bool {
        self.evaluated && self.lives > 0
    }
}

impl Default for RunnerPlayer {
    fn default() -> (p: RunnerPlayer)
        ensures
            p == RunnerPlayer::initial(),
    {
        RunnerPlayer {
            lane: 0,
            score: 0,
            best_score: 0,
            combo: 0,
            best_combo: 0,
            lives: RUNNER_START_LIVES,
            new_best: false,
            evaluated: false,
        }
    }
}

/// The hazard pattern the runner cycles through, with each hazard's lane.
pub open spec fn runner_pattern() -> Seq<(RunnerHazard, i8)> {
    seq![
        (RunnerHazard::Hurdle, 0i8),
        (RunnerHazard::BeatOrb, 0i8),
        (RunnerHazard::LaneBlock, -1i8),
        (RunnerHazard::OverheadGate, 0i8),
        (RunnerHazard::LaneBlock, 1i8),
        (RunnerHazard::Hurdle, -1i8),
        (RunnerHazard::BeatOrb, 1i8),
        (RunnerHazard::OverheadGate, 1i8),
        (RunnerHazard::LaneBlock, 0i8),
        (RunnerHazard::Hurdle, 1i8),
        (RunnerHazard::BeatOrb, -1i8),
        (RunnerHazard::OverheadGate, -1i8),
        (RunnerHazard::LaneBlock, -1i8),
        (RunnerHazard::Hurdle, 0i8),
        (RunnerHazard::LaneBlock, 1i8),
        (RunnerHazard::BeatOrb, 0i8),
    ]
}

/// Step `i` of the hazard pattern.
pub fn pattern_step(i: usize) -> (r: (RunnerHazard, i8))
    requires
        i < RUNNER_PATTERN_LEN,
    ensures
        r == runner_pattern()[i as int],
{
    if i == 0 { (RunnerHazard::Hurdle, 0) }
    else if i == 1 { (RunnerHazard::BeatOrb, 0) }
    else if i == 2 { (RunnerHazard::LaneBlock, -1) }
    else if i == 3 { (RunnerHazard::OverheadGate, 0) }
    else if i == 4 { (RunnerHazard::LaneBlock, 1) }
    else if i == 5 { (RunnerHazard::Hurdle, -1) }
    else if i == 6 { (RunnerHazard::BeatOrb, 1) }
    else if i == 7 { (RunnerHazard::OverheadGate, 1) }
    else if i == 8 { (RunnerHazard::LaneBlock, 0) }
    else if i == 9 { (RunnerHazard::Hurdle, 1) }
    else if i == 10 { (RunnerHazard::BeatOrb, -1) }
    else if i == 11 { (RunnerHazard::OverheadGate, -1) }
    else if i == 12 { (RunnerHazard::LaneBlock, -1) }
    else if i == 13 { (RunnerHazard::Hurdle, 0) }
    else if i == 14 { (RunnerHazard::LaneBlock, 1) }
    else { (RunnerHazard::BeatOrb, 0) }
}

} // verus!

verus! {

/// What the host does with the rest of a frame after `RunnerGame::control`.
#[derive(Clone, Copy, Debug, PartialEq, Eq, Structural)]
pub enum RunnerStep {
    /// Nothing more this frame: the world is frozen.
    Hold,
    /// A countdown began: the host sets it to its full length.
    CountdownStarted,
    /// A countdown continues: the host advances it and calls
    /// `finish_countdown` when it runs out.
    CountdownTick,
    /// Play runs this frame: the host advances the session clock and calls
    /// `run_frame` (or `finish_run` when the session is over).
    Run,
}

/// Mathematical model of a runner game.
#[verifier::ext_equal]
pub struct RunnerModel {
    pub mode: GameMode,
    pub phase: RunnerPhase,
    pub players: Seq<RunnerPlayer>,
    pub obstacles: Seq<Option<RunnerObstacle>>,
    pub feedback: Seq<RunnerFeedback>,
    pub beat_index: u32,
    pub ready_players: Seq<bool>,
    pub result_selection: GameMode,
    pub result_outcome: Option<RunnerOutcome>,
    pub next_obstacle_id: u32,
    pub pattern_cursor: usize,
    pub next_run_request: Option<GameMode>,
    pub pending_result_event: Option<RunnerResultEvent>,
}

/// Whether some player index `p < 4` satisfies `f`.
pub open spec fn any_player(f: spec_fn(int) -> bool) -> bool {
    f(0) || f(1) || f(2) || f(3)
}

/// Whether the players the mode needs are evaluated: both local players for
/// Duo Groove, anyone otherwise.
pub open spec fn required_evaluation(mode: GameMode, evaluation: Seq<bool>) -> bool {
    if mode == GameMode::DuoGroove {
        evaluation[0] && evaluation[1]
    } else {
        any_player(|p: int| evaluation[p])
    }
}

/// Whether an evaluated player triggered Pause.
pub open spec fn pause_signal(triggered: Seq<u32>, evaluation: Seq<bool>) -> bool {
    any_player(|p: int| evaluation[p] && triggered[p] & 128 != 0)
}

/// Whether an evaluated player triggered `bit` (after the evaluation flags
/// were copied onto the players).
pub open spec fn evaluated_signal(triggered: Seq<u32>, evaluation: Seq<bool>, bit: u32) -> bool {
    any_player(|p: int| evaluation[p] && triggered[p] & bit != 0)
}

/// Readiness after a ready check: an evaluated player who moves or triggers
/// anything becomes ready; an unevaluated one is not ready.
pub open spec fn signalled_ready(ready: Seq<bool>, active: Seq<u32>, triggered: Seq<u32>, evaluation: Seq<bool>) -> Seq<bool> {
    Seq::new(4, |p: int| if evaluation[p] { ready[p] || triggered[p] != 0 || active[p] != 0 } else { false })
}

/// Readiness after a pause check: only a Clap makes an evaluated player ready.
pub open spec fn clapped_ready(ready: Seq<bool>, triggered: Seq<u32>, evaluation: Seq<bool>) -> Seq<bool> {
    Seq::new(4, |p: int| if evaluation[p] { ready[p] || triggered[p] & 64 != 0 } else { false })
}

/// Whether the run may (re)start: Duo Groove needs both local players
/// evaluated and ready; other modes need one player who is both.
pub open spec fn ready_to_run(mode: GameMode, ready: Seq<bool>, evaluation: Seq<bool>) -> bool {
    if mode == GameMode::DuoGroove {
        evaluation[0] && evaluation[1] && ready[0] && ready[1]
    } else {
        any_player(|p: int| ready[p] && evaluation[p])
    }
}

pub open spec fn no_obstacles() -> Seq<Option<RunnerObstacle>> {
    Seq::new(RUNNER_OBSTACLE_CAPACITY as nat, |i: int| None)
}

pub open spec fn nobody_ready() -> Seq<bool> {
    Seq::new(4, |p: int| false)
}

pub open spec fn quiet_feedback() -> Seq<RunnerFeedback> {
    Seq::new(4, |p: int| RunnerFeedback::Quiet)
}

impl RunnerModel {
    /// A fresh game of `mode`, waiting in Ready.
    pub open spec fn initial(mode: GameMode) -> RunnerModel {
        RunnerModel {
            mode,
            phase: RunnerPhase::Ready,
            players: Seq::new(4, |p: int| RunnerPlayer::initial()),
            obstacles: no_obstacles(),
            feedback: quiet_feedback(),
            beat_index: 0,
            ready_players: nobody_ready(),
            result_selection: mode,
            result_outcome: None,
            next_obstacle_id: 1,
            pattern_cursor: 0,
            next_run_request: None,
            pending_result_event: None,
        }
    }

    /// Shape invariant: four players and twelve obstacle slots.
    pub open spec fn wf(self) -> bool {
        &&& self.players.len() == 4
        &&& self.feedback.len() == 4
        &&& self.ready_players.len() == 4
        &&& self.obstacles.len() == RUNNER_OBSTACLE_CAPACITY
    }

    /// Feedback cleared and the evaluation flags copied onto the players.
    pub open spec fn with_evaluation(self, evaluation: Seq<bool>) -> RunnerModel {
        RunnerModel {
            players: Seq::new(4, |p: int| RunnerPlayer { evaluated: evaluation[p], ..self.players[p] }),
            feedback: quiet_feedback(),
            ..self
        }
    }

    /// Enter a frozen phase: hazards cleared and nobody ready.
    pub open spec fn frozen_in(self, phase: RunnerPhase) -> RunnerModel {
        RunnerModel { phase, obstacles: no_obstacles(), ready_players: nobody_ready(), ..self }
    }

    /// Fall back from a countdown: nobody ready, hazards kept.
    pub open spec fn fallen_back_to(self, phase: RunnerPhase) -> RunnerModel {
        RunnerModel { phase, ready_players: nobody_ready(), ..self }
    }

    /// The run ends with `outcome`: hazards and readiness cleared, personal
    /// bests updated, the result selection reset to the played mode and one
    /// result event queued.
    pub open spec fn finished(self, outcome: RunnerOutcome) -> RunnerModel {
        RunnerModel {
            phase: RunnerPhase::GameOver,
            obstacles: no_obstacles(),
            ready_players: nobody_ready(),
            result_outcome: Some(outcome),
            players: Seq::new(4, |p: int| RunnerPlayer {
                new_best: self.players[p].score > self.players[p].best_score,
                best_score: if self.players[p].score > self.players[p].best_score {
                    self.players[p].score
                } else {
                    self.players[p].best_score
                },
                ..self.players[p]
            }),
            result_selection: self.mode,
            pending_result_event: Some(RunnerResultEvent { mode: self.mode, outcome }),
            ..self
        }
    }

    /// Result screen navigation (players already carry `evaluation`): Duo
    /// Groove is dropped when unavailable, one-sided MoveLeft/MoveRight steps
    /// the selection, and a Clap requests a run of the selection.
    pub open spec fn navigated(self, triggered: Seq<u32>, evaluation: Seq<bool>) -> RunnerModel {
        let duo_available = evaluation[0] && evaluation[1];
        let start = if !duo_available && self.result_selection == GameMode::DuoGroove {
            GameMode::MirrorBeat
        } else {
            self.result_selection
        };
        let left = evaluated_signal(triggered, evaluation, 1);
        let right = evaluated_signal(triggered, evaluation, 2);
        let selection = if left != right {
            if left {
                start.previous_mode_with_duo(duo_available)
            } else {
                start.next_mode_with_duo(duo_available)
            }
        } else {
            start
        };
        RunnerModel {
            result_selection: selection,
            next_run_request: if evaluated_signal(triggered, evaluation, 64) {
                Some(selection)
            } else {
                self.next_run_request
            },
            ..self
        }
    }

    /// One control step of a frame: the model after it and what the host
    /// does next.
    pub open spec fn control(self, active: Seq<u32>, triggered: Seq<u32>, evaluation: Seq<bool>) -> (RunnerModel, RunnerStep) {
        let s = self.with_evaluation(evaluation);
        match s.phase {
            RunnerPhase::GameOver => (s.navigated(triggered, evaluation), RunnerStep::Hold),
            RunnerPhase::Running => if pause_signal(triggered, evaluation) {
                (s.frozen_in(RunnerPhase::Paused), RunnerStep::Hold)
            } else if !required_evaluation(s.mode, evaluation) {
                (s.frozen_in(RunnerPhase::TrackingHold), RunnerStep::Hold)
            } else {
                (s, RunnerStep::Run)
            },
            RunnerPhase::Paused => {
                let ready = clapped_ready(s.ready_players, triggered, evaluation);
                if ready_to_run(s.mode, ready, evaluation) {
                    (RunnerModel { phase: RunnerPhase::PauseResuming, ready_players: ready, ..s },
                        RunnerStep::CountdownStarted)
                } else {
                    (RunnerModel { ready_players: ready, ..s }, RunnerStep::Hold)
                }
            },
            RunnerPhase::TrackingHold => {
                let ready = signalled_ready(s.ready_players, active, triggered, evaluation);
                if ready_to_run(s.mode, ready, evaluation) {
                    (RunnerModel { phase: RunnerPhase::Resuming, ready_players: ready, ..s },
                        RunnerStep::CountdownStarted)
                } else {
                    (RunnerModel { ready_players: ready, ..s }, RunnerStep::Hold)
                }
            },
            RunnerPhase::Ready => {
                let ready = signalled_ready(s.ready_players, active, triggered, evaluation);
                if ready_to_run(s.mode, ready, evaluation) {
                    (RunnerModel { phase: RunnerPhase::Starting, ready_players: ready, ..s },
                        RunnerStep::CountdownStarted)
                } else {
                    (RunnerModel { ready_players: ready, ..s }, RunnerStep::Hold)
                }
            },
            _ => if !required_evaluation(s.mode, evaluation) {
                (match s.phase {
                    RunnerPhase::Starting => s.fallen_back_to(RunnerPhase::Ready),
                    RunnerPhase::PauseResuming => s.fallen_back_to(RunnerPhase::Paused),
                    _ => s.frozen_in(RunnerPhase::TrackingHold),
                }, RunnerStep::Hold)
            } else {
                (s, RunnerStep::CountdownTick)
            },
        }
    }
}

} // verus!

verus! {

/// The runner game.
#[derive(Clone, Debug)]
pub struct RunnerGame {
    pub mode: GameMode,
    pub phase: RunnerPhase,
    pub players: [RunnerPlayer; PLAYER_CAPACITY],
    pub obstacles: [Option<RunnerObstacle>; RUNNER_OBSTACLE_CAPACITY],
    pub feedback: [RunnerFeedback; PLAYER_CAPACITY],
    pub beat_index: u32,
    pub ready_players: [bool; PLAYER_CAPACITY],
    pub result_selection: GameMode,
    pub result_outcome: Option<RunnerOutcome>,
    /// Id given to the next spawned obstacle (never 0).
    pub next_obstacle_id: u32,
    /// Position in the hazard pattern.
    pub pattern_cursor: usize,
    pub next_run_request: Option<GameMode>,
    pub pending_result_event: Option<RunnerResultEvent>,
}

impl View for RunnerGame {
    type V = RunnerModel;

    open spec fn view(&self) -> RunnerModel {
        RunnerModel {
            mode: self.mode,
            phase: self.phase,
            players: self.players@,
            obstacles: self.obstacles@,
            feedback: self.feedback@,
            beat_index: self.beat_index,
            ready_players: self.ready_players@,
            result_selection: self.result_selection,
            result_outcome: self.result_outcome,
            next_obstacle_id: self.next_obstacle_id,
            pattern_cursor: self.pattern_cursor,
            next_run_request: self.next_run_request,
            pending_result_event: self.pending_result_event,
        }
    }
}

impl RunnerGame {
    /// A new Mirror Beat game.
    pub fn new() -> (g: RunnerGame)
        ensures
            g@ == RunnerModel::initial(GameMode::MirrorBeat),
    {
        RunnerGame::with_mode(GameMode::MirrorBeat)
    }

    /// A new game of `mode`, waiting for players in Ready.
    pub fn with_mode(mode: GameMode) -> (g: RunnerGame)
        ensures
            g@ == RunnerModel::initial(mode),
    {
        let p = RunnerPlayer::default();
        let g = RunnerGame {
            mode,
            phase: RunnerPhase::Ready,
            players: [p; PLAYER_CAPACITY],
            obstacles: [None; RUNNER_OBSTACLE_CAPACITY],
            feedback: [RunnerFeedback::Quiet; PLAYER_CAPACITY],
            beat_index: 0,
            ready_players: [false; PLAYER_CAPACITY],
            result_selection: mode,
            result_outcome: None,
            next_obstacle_id: 1,
            pattern_cursor: 0,
            next_run_request: None,
            pending_result_event: None,
        };
        assert(g@ =~= RunnerModel::initial(mode));
        g
    }

    /// Switches mode, restarting the game only when the mode changes.
    pub fn set_mode(&mut self, mode: GameMode) -> (changed: bool)
        ensures
            changed == (old(self)@.mode != mode),
            changed ==> final(self)@ == RunnerModel::initial(mode),
            !changed ==> final(self)@ == old(self)@,
    {
        if self.mode != mode {
            *self = RunnerGame::with_mode(mode);
            true
        } else {
            false
        }
    }

    /// Whether the players the mode needs are evaluated.
    pub fn has_required_evaluation(&self, evaluation_enabled: [bool; PLAYER_CAPACITY]) -> (b: bool)
        ensures
            b == required_evaluation(self@.mode, evaluation_enabled@),
    {
        if self.mode == GameMode::DuoGroove {
            evaluation_enabled[0] && evaluation_enabled[1]
        } else {
            evaluation_enabled[0] || evaluation_enabled[1] || evaluation_enabled[2]
                || evaluation_enabled[3]
        }
    }

    /// Whether an evaluated player triggered Pause.
    pub fn pause_requested(triggered: [u32; PLAYER_CAPACITY], evaluation_enabled: [bool; PLAYER_CAPACITY]) -> (b: bool)
        ensures
            b == pause_signal(triggered@, evaluation_enabled@),
    {
        let mut i: usize = 0;
        while i < PLAYER_CAPACITY
            invariant
                i <= PLAYER_CAPACITY,
                forall|p: int| 0 <= p < i ==> !(evaluation_enabled[p] && triggered[p] & 128 != 0),
            decreases PLAYER_CAPACITY - i,
        {
            if evaluation_enabled[i] && triggered[i] & 128 != 0 {
                return true;
            }
            i = i + 1;
        }
        false
    }

    fn evaluated_signal_exec(triggered: [u32; PLAYER_CAPACITY], evaluation_enabled: [bool; PLAYER_CAPACITY], bit: u32) -> (b: bool)
        ensures
            b == evaluated_signal(triggered@, evaluation_enabled@, bit),
    {
        let mut i: usize = 0;
        while i < PLAYER_CAPACITY
            invariant
                i <= PLAYER_CAPACITY,
                forall|p: int| 0 <= p < i ==> !(evaluation_enabled[p] && triggered[p] & bit != 0),
            decreases PLAYER_CAPACITY - i,
        {
            if evaluation_enabled[i] && triggered[i] & bit != 0 {
                return true;
            }
            i = i + 1;
        }
        false
    }

    /// Ready check: evaluated players who move or trigger become ready,
    /// unevaluated players are not ready.
    fn update_ready_players(&mut self, active: [u32; PLAYER_CAPACITY], triggered: [u32; PLAYER_CAPACITY], evaluation_enabled: [bool; PLAYER_CAPACITY])
        ensures
            final(self)@ == (RunnerModel {
                ready_players: signalled_ready(old(self)@.ready_players, active@, triggered@, evaluation_enabled@),
                ..old(self)@
            }),
    {
        let ghost pre = self@;
        let mut index: usize = 0;
        while index < PLAYER_CAPACITY
            invariant
                index <= PLAYER_CAPACITY,
                self@ == (RunnerModel { ready_players: self.ready_players@, ..pre }),
                forall|p: int| 0 <= p < index ==> self.ready_players[p]
                    == signalled_ready(pre.ready_players, active@, triggered@, evaluation_enabled@)[p],
                forall|p: int| index <= p < 4 ==> self.ready_players[p] == pre.ready_players[p],
            decreases PLAYER_CAPACITY - index,
        {
            if evaluation_enabled[index] {
                if triggered[index] != 0 || active[index] != 0 {
                    self.ready_players[index] = true;
                }
            } else {
                self.ready_players[index] = false;
            }
            index = index + 1;
        }
        assert(self.ready_players@ =~= signalled_ready(pre.ready_players, active@, triggered@, evaluation_enabled@));
    }

    /// Pause check: only a Clap makes an evaluated player ready.
    fn update_pause_ready_players(&mut self, triggered: [u32; PLAYER_CAPACITY], evaluation_enabled: [bool; PLAYER_CAPACITY])
        ensures
            final(self)@ == (RunnerModel {
                ready_players: clapped_ready(old(self)@.ready_players, triggered@, evaluation_enabled@),
                ..old(self)@
            }),
    {
        let ghost pre = self@;
        let mut index: usize = 0;
        while index < PLAYER_CAPACITY
            invariant
                index <= PLAYER_CAPACITY,
                self@ == (RunnerModel { ready_players: self.ready_players@, ..pre }),
                forall|p: int| 0 <= p < index ==> self.ready_players[p]
                    == clapped_ready(pre.ready_players, triggered@, evaluation_enabled@)[p],
                forall|p: int| index <= p < 4 ==> self.ready_players[p] == pre.ready_players[p],
            decreases PLAYER_CAPACITY - index,
        {
            if evaluation_enabled[index] {
                if triggered[index] & 64 != 0 {
                    self.ready_players[index] = true;
                }
            } else {
                self.ready_players[index] = false;
            }
            index = index + 1;
        }
        assert(self.ready_players@ =~= clapped_ready(pre.ready_players, triggered@, evaluation_enabled@));
    }

    /// Whether the run may (re)start.
    fn ready_to_run_exec(&self, evaluation_enabled: [bool; PLAYER_CAPACITY]) -> (b: bool)
        ensures
            b == ready_to_run(self@.mode, self@.ready_players, evaluation_enabled@),
    {
        if self.mode == GameMode::DuoGroove {
            evaluation_enabled[0] && evaluation_enabled[1] && self.ready_players[0]
                && self.ready_players[1]
        } else {
            (self.ready_players[0] && evaluation_enabled[0]) || (self.ready_players[1]
                && evaluation_enabled[1]) || (self.ready_players[2] && evaluation_enabled[2]) || (
            self.ready_players[3] && evaluation_enabled[3])
        }
    }

    fn freeze_in(&mut self, phase: RunnerPhase)
        ensures
            final(self)@ == old(self)@.frozen_in(phase),
    {
        self.phase = phase;
        self.obstacles = [None; RUNNER_OBSTACLE_CAPACITY];
        self.ready_players = [false; PLAYER_CAPACITY];
        assert(self@ =~= old(self)@.frozen_in(phase));
    }

    fn fall_back_to(&mut self, phase: RunnerPhase)
        ensures
            final(self)@ == old(self)@.fallen_back_to(phase),
    {
        self.phase = phase;
        self.ready_players = [false; PLAYER_CAPACITY];
        assert(self@ =~= old(self)@.fallen_back_to(phase));
    }

    /// Ends the run with `outcome` (session over or every evaluated player
    /// out of lives).
    pub fn finish_run(&mut self, outcome: RunnerOutcome)
        ensures
            final(self)@ == old(self)@.finished(outcome),
    {
        let ghost pre = self@;
        self.phase = RunnerPhase::GameOver;
        self.obstacles = [None; RUNNER_OBSTACLE_CAPACITY];
        self.ready_players = [false; PLAYER_CAPACITY];
        self.result_outcome = Some(outcome);
        self.result_selection = self.mode;
        self.pending_result_event = Some(RunnerResultEvent { mode: self.mode, outcome });
        assert(self.obstacles@ =~= no_obstacles());
        assert(self.ready_players@ =~= nobody_ready());
        let mut i: usize = 0;
        while i < PLAYER_CAPACITY
            invariant
                i <= PLAYER_CAPACITY,
                self.mode == pre.mode,
                forall|p: int| 0 <= p < i ==> self.players[p] == pre.finished(outcome).players[p],
                forall|p: int| i <= p < 4 ==> self.players[p] == pre.players[p],
                self@ == (RunnerModel { players: self.players@, ..pre.finished(outcome) }),
            decreases PLAYER_CAPACITY - i,
        {
            let player = self.players[i];
            let best = if player.score > player.best_score { player.score } else { player.best_score };
            self.players[i] = RunnerPlayer { new_best: player.score > player.best_score, best_score: best, ..player };
            i = i + 1;
        }
        assert(self.players@ =~= pre.finished(outcome).players);
        assert(self@ =~= pre.finished(outcome));
    }

    /// The countdown ran out: play (re)starts.
    pub fn finish_countdown(&mut self)
        ensures
            final(self)@ == (RunnerModel { phase: RunnerPhase::Running, ..old(self)@ }),
    {
        self.phase = RunnerPhase::Running;
    }

    /// Takes the pending request to start another run, if any.
    pub fn take_next_run_request(&mut self) -> (r: Option<GameMode>)
        ensures
            r == old(self)@.next_run_request,
            final(self)@ == (RunnerModel { next_run_request: None, ..old(self)@ }),
    {
        let r = self.next_run_request;
        self.next_run_request = None;
        r
    }

    /// Takes the pending result event, if any.
    pub fn take_result_event(&mut self) -> (r: Option<RunnerResultEvent>)
        ensures
            r == old(self)@.pending_result_event,
            final(self)@ == (RunnerModel { pending_result_event: None, ..old(self)@ }),
    {
        let r = self.pending_result_event;
        self.pending_result_event = None;
        r
    }

    /// Whether player `index` earns distance points and meets hazards.
    pub fn in_play(&self, index: usize) -> (b: bool)
        requires
            index < PLAYER_CAPACITY,
        ensures
            b == self@.players[index as int].in_play(),
    {
        self.players[index].evaluated && self.players[index].lives > 0
    }

    fn navigate_result(&mut self, triggered: [u32; PLAYER_CAPACITY], evaluation_enabled: [bool; PLAYER_CAPACITY])
        ensures
            final(self)@ == old(self)@.navigated(triggered@, evaluation_enabled@),
    {
        let duo_available = evaluation_enabled[0] && evaluation_enabled[1];
        if !duo_available && self.result_selection == GameMode::DuoGroove {
            self.result_selection = GameMode::MirrorBeat;
        }
        let move_left = RunnerGame::evaluated_signal_exec(triggered, evaluation_enabled, 1);
        let move_right = RunnerGame::evaluated_signal_exec(triggered, evaluation_enabled, 2);
        if move_left != move_right {
            self.result_selection = if move_left {
                self.result_selection.previous_with_duo(duo_available)
            } else {
                self.result_selection.next_with_duo(duo_available)
            };
        }
        if RunnerGame::evaluated_signal_exec(triggered, evaluation_enabled, 64) {
            self.next_run_request = Some(self.result_selection);
        }
    }

    /// First half of a frame: clears feedback, records who is evaluated and
    /// runs the phase machine. Running frames pause on an evaluated Pause and
    /// hold when required players lose tracking; Paused waits for Claps,
    /// Ready and TrackingHold for any evaluated motion; countdowns fall back
    /// when required players are lost; the result screen navigates modes.
    pub fn control(&mut self, active: [u32; PLAYER_CAPACITY], triggered: [u32; PLAYER_CAPACITY], evaluation_enabled: [bool; PLAYER_CAPACITY]) -> (step: RunnerStep)
        ensures
            (final(self)@, step) == old(self)@.control(active@, triggered@, evaluation_enabled@),
    {
        let ghost pre = self@;
        self.feedback = [RunnerFeedback::Quiet; PLAYER_CAPACITY];
        let mut i: usize = 0;
        while i < PLAYER_CAPACITY
            invariant
                i <= PLAYER_CAPACITY,
                forall|p: int| 0 <= p < i ==> self.players[p] == pre.with_evaluation(evaluation_enabled@).players[p],
                forall|p: int| i <= p < 4 ==> self.players[p] == pre.players[p],
                self@ == (RunnerModel { players: self.players@, ..pre.with_evaluation(evaluation_enabled@) }),
            decreases PLAYER_CAPACITY - i,
        {
            self.players[i].evaluated = evaluation_enabled[i];
            i = i + 1;
        }
        assert(self.players@ =~= pre.with_evaluation(evaluation_enabled@).players);
        assert(self@ =~= pre.with_evaluation(evaluation_enabled@));
        match self.phase {
            RunnerPhase::GameOver => {
                self.navigate_result(triggered, evaluation_enabled);
                RunnerStep::Hold
            },
            RunnerPhase::Running => {
                if RunnerGame::pause_requested(triggered, evaluation_enabled) {
                    self.freeze_in(RunnerPhase::Paused);
                    RunnerStep::Hold
                } else if !self.has_required_evaluation(evaluation_enabled) {
                    self.freeze_in(RunnerPhase::TrackingHold);
                    RunnerStep::Hold
                } else {
                    RunnerStep::Run
                }
            },
            RunnerPhase::Paused => {
                self.update_pause_ready_players(triggered, evaluation_enabled);
                if self.ready_to_run_exec(evaluation_enabled) {
                    self.phase = RunnerPhase::PauseResuming;
                    RunnerStep::CountdownStarted
                } else {
                    RunnerStep::Hold
                }
            },
            RunnerPhase::TrackingHold => {
                self.update_ready_players(active, triggered, evaluation_enabled);
                if self.ready_to_run_exec(evaluation_enabled) {
                    self.phase = RunnerPhase::Resuming;
                    RunnerStep::CountdownStarted
                } else {
                    RunnerStep::Hold
                }
            },
            RunnerPhase::Ready => {
                self.update_ready_players(active, triggered, evaluation_enabled);
                if self.ready_to_run_exec(evaluation_enabled) {
                    self.phase = RunnerPhase::Starting;
                    RunnerStep::CountdownStarted
                } else {
                    RunnerStep::Hold
                }
            },
            RunnerPhase::Starting | RunnerPhase::PauseResuming | RunnerPhase::Resuming => {
                if !self.has_required_evaluation(evaluation_enabled) {
                    match self.phase {
                        RunnerPhase::Starting => self.fall_back_to(RunnerPhase::Ready),
                        RunnerPhase::PauseResuming => self.fall_back_to(RunnerPhase::Paused),
                        _ => self.freeze_in(RunnerPhase::TrackingHold),
                    }
                    RunnerStep::Hold
                } else {
                    RunnerStep::CountdownTick
                }
            },
        }
    }
}

} // verus!

verus! {

/// Host-kept action timers of a player that are still running this frame.
#[derive(Clone, Copy, Debug, PartialEq, Eq, Structural)]
pub struct PlayerTimers {
    pub jumping: bool,
    pub sliding: bool,
    pub pulsing: bool,
}

/// Which host timers a player's actions restart this frame.
#[derive(Clone, Copy, Debug, PartialEq, Eq, Structural)]
pub struct TimerRefresh {
    pub jump: bool,
    pub slide: bool,
    pub pulse: bool,
}

/// What the host measured for one running frame.
#[derive(Clone, Copy, Debug)]
pub struct RunnerFrame {
    pub active: [u32; PLAYER_CAPACITY],
    pub triggered: [u32; PLAYER_CAPACITY],
    /// Timers still running after this frame's decay.
    pub timers: [PlayerTimers; PLAYER_CAPACITY],
    /// A beat boundary was crossed (at most one per frame).
    pub beat_elapsed: bool,
    /// Spawn on beats `b` with `b % spawn_interval == 1` (from the breath arc).
    pub spawn_interval: u32,
    /// The occupied slot nearest the player, reused when no slot is free.
    pub fallback_slot: usize,
    /// Whole distance points each player earned this frame.
    pub points: [u32; PLAYER_CAPACITY],
    /// Slots whose obstacle is at or past the collision line after moving.
    pub reached: [bool; RUNNER_OBSTACLE_CAPACITY],
    /// Slots whose obstacle has passed out of view after moving.
    pub passed: [bool; RUNNER_OBSTACLE_CAPACITY],
}

/// What a running frame asks of the host.
#[derive(Clone, Copy, Debug)]
pub struct RunnerFrameEffects {
    /// Timers to restart, per player.
    pub refresh: [TimerRefresh; PLAYER_CAPACITY],
    /// Players who crashed (the host starts their crash timer).
    pub crashed: [bool; PLAYER_CAPACITY],
    /// Slot of a freshly spawned obstacle, placed at the horizon.
    pub spawned: Option<usize>,
}

/// Lane after a one-sided lane change, kept within -1..=1.
pub open spec fn moved_lane(lane: i8, mask: u32) -> i8 {
    let left = mask & 1 != 0;
    let right = mask & 2 != 0;
    if left != right {
        if left {
            if lane - 1 < -1 { -1i8 } else { (lane - 1) as i8 }
        } else {
            if lane + 1 > 1 { 1i8 } else { (lane + 1) as i8 }
        }
    } else {
        lane
    }
}

/// Bonus points for a dodged hazard at combo `combo`.
pub open spec fn dodge_points(combo: u16) -> u32 {
    (120 + (if combo < 20 { combo as int } else { 20 }) * 10) as u32
}

/// Bonus points for a collected beat orb at combo `combo`.
pub open spec fn orb_points(combo: u16) -> u32 {
    (250 + (if combo < 20 { combo as int } else { 20 }) * 15) as u32
}

/// Whether a player in lane `lane`, moving as `motion`, clears `kind` in
/// lane `obstacle_lane`. A beat orb counts as cleared when it is collected.
pub open spec fn clears(kind: RunnerHazard, lane: i8, obstacle_lane: i8, motion: PlayerTimers) -> bool {
    let same_lane = lane == obstacle_lane;
    match kind {
        RunnerHazard::LaneBlock => !same_lane,
        RunnerHazard::Hurdle => !same_lane || motion.jumping,
        RunnerHazard::OverheadGate => !same_lane || motion.sliding,
        RunnerHazard::BeatOrb => same_lane && motion.pulsing,
    }
}

impl RunnerModel {
    /// Timers a frame's actions restart: only players in play act.
    pub open spec fn refreshes(self, f: RunnerFrame) -> Seq<TimerRefresh> {
        Seq::new(4, |p: int| {
            let on = self.players[p].in_play();
            TimerRefresh {
                jump: on && (f.triggered[p] & 4 != 0 || f.active[p] & 4 != 0),
                slide: on && (f.triggered[p] & 8 != 0 || f.active[p] & 8 != 0),
                pulse: on && f.triggered[p] & 64 != 0,
            }
        })
    }

    /// Motion of each player when hazards are judged: timers that were
    /// running or were restarted this frame.
    pub open spec fn motions(self, f: RunnerFrame) -> Seq<PlayerTimers> {
        Seq::new(4, |p: int| PlayerTimers {
            jumping: f.timers[p].jumping || self.refreshes(f)[p].jump,
            sliding: f.timers[p].sliding || self.refreshes(f)[p].slide,
            pulsing: f.timers[p].pulsing || self.refreshes(f)[p].pulse,
        })
    }

    /// Lane changes of players in play.
    pub open spec fn lanes_moved(self, f: RunnerFrame) -> RunnerModel {
        RunnerModel {
            players: Seq::new(4, |p: int| if self.players[p].in_play() {
                RunnerPlayer { lane: moved_lane(self.players[p].lane, f.triggered[p]), ..self.players[p] }
            } else {
                self.players[p]
            }),
            ..self
        }
    }

    /// The first free obstacle slot, if any.
    pub open spec fn free_slot(self) -> Option<int> {
        if exists|i: int| 0 <= i < RUNNER_OBSTACLE_CAPACITY && self.obstacles[i] is None {
            Some(choose|i: int| 0 <= i < RUNNER_OBSTACLE_CAPACITY && self.obstacles[i] is None
                && forall|j: int| 0 <= j < i ==> self.obstacles[j] is Some)
        } else {
            None
        }
    }

    /// Spawns `kind` in `lane` (clamped to -1..=1) into the first free slot,
    /// or into `fallback` when all are taken. Ids count up from 1, skipping 0.
    pub open spec fn spawned(self, kind: RunnerHazard, lane: i8, fallback: int) -> (RunnerModel, int) {
        let slot = match self.free_slot() {
            Some(i) => i,
            None => fallback,
        };
        let obstacle = RunnerObstacle {
            id: self.next_obstacle_id,
            lane: if lane < -1 { -1i8 } else if lane > 1 { 1i8 } else { lane },
            kind,
            resolved_players: 0,
        };
        let next_id = if self.next_obstacle_id == u32::MAX { 1 } else { (self.next_obstacle_id + 1) as u32 };
        (RunnerModel {
            obstacles: self.obstacles.update(slot, Some(obstacle)),
            next_obstacle_id: next_id,
            ..self
        }, slot)
    }

    /// The beat step: the beat index advances and every `spawn_interval`-th
    /// beat (those with remainder 1) spawns the next pattern hazard.
    pub open spec fn beat_stepped(self, f: RunnerFrame) -> (RunnerModel, Option<int>) {
        if !f.beat_elapsed {
            (self, None)
        } else {
            let beat = if self.beat_index == u32::MAX { 0u32 } else { (self.beat_index + 1) as u32 };
            let s = RunnerModel { beat_index: beat, ..self };
            if beat % f.spawn_interval == 1 {
                let step = runner_pattern()[(self.pattern_cursor as int) % (RUNNER_PATTERN_LEN as int)];
                let (t, slot) = s.spawned(step.0, step.1, f.fallback_slot as int);
                let cursor = if self.pattern_cursor == usize::MAX { 0usize } else { (self.pattern_cursor + 1) as usize };
                (RunnerModel { pattern_cursor: cursor, ..t }, Some(slot))
            } else {
                (s, None)
            }
        }
    }

    /// Distance points for players in play.
    pub open spec fn points_awarded(self, f: RunnerFrame) -> RunnerModel {
        RunnerModel {
            players: Seq::new(4, |p: int| if self.players[p].in_play() {
                RunnerPlayer { score: self.players[p].score.saturating_add(f.points[p]), ..self.players[p] }
            } else {
                self.players[p]
            }),
            ..self
        }
    }

    /// Player `p` meets the obstacle in `slot`: once per obstacle and player,
    /// and only a player in play is judged. Clearing extends the combo and
    /// scores; failing a non-orb hazard costs a life and the combo; missing
    /// an orb costs nothing.
    pub open spec fn meet(self, crashed: Seq<bool>, slot: int, p: int, motion: PlayerTimers) -> (RunnerModel, Seq<bool>) {
        let o = self.obstacles[slot]->Some_0;
        if o.resolved_for(p) {
            (self, crashed)
        } else {
            let marked = RunnerObstacle { resolved_players: o.resolved_players | player_bit(p), ..o };
            let s = RunnerModel { obstacles: self.obstacles.update(slot, Some(marked)), ..self };
            let player = self.players[p];
            if !player.in_play() {
                (s, crashed)
            } else {
                let success = clears(o.kind, player.lane, o.lane, motion);
                let combo = player.combo.saturating_add(1);
                let best_combo = if player.best_combo > combo { player.best_combo } else { combo };
                if o.kind == RunnerHazard::BeatOrb {
                    if success {
                        (RunnerModel {
                            players: s.players.update(p, RunnerPlayer {
                                combo, best_combo, score: player.score.saturating_add(orb_points(combo)), ..player }),
                            feedback: s.feedback.update(p, RunnerFeedback::BeatPickup),
                            ..s
                        }, crashed)
                    } else {
                        (s, crashed)
                    }
                } else if success {
                    (RunnerModel {
                        players: s.players.update(p, RunnerPlayer {
                            combo, best_combo, score: player.score.saturating_add(dodge_points(combo)), ..player }),
                        feedback: s.feedback.update(p, RunnerFeedback::Dodge),
                        ..s
                    }, crashed)
                } else {
                    (RunnerModel {
                        players: s.players.update(p, RunnerPlayer {
                            lives: player.lives.saturating_sub(1), combo: 0, ..player }),
                        feedback: s.feedback.update(p, RunnerFeedback::Crash),
                        ..s
                    }, crashed.update(p, true))
                }
            }
        }
    }

    /// Players `0..n` meet the obstacle in `slot`, in order.
    pub open spec fn meet_players(self, crashed: Seq<bool>, slot: int, motions: Seq<PlayerTimers>, n: int) -> (RunnerModel, Seq<bool>)
        decreases n,
    {
        if n <= 0 {
            (self, crashed)
        } else {
            let (s, c) = self.meet_players(crashed, slot, motions, n - 1);
            s.meet(c, slot, n - 1, motions[n - 1])
        }
    }

    /// Slots `0..n` that reached the collision line (other than a fresh spawn)
    /// are judged, in slot order.
    pub open spec fn judge_slots(self, crashed: Seq<bool>, f: RunnerFrame, spawned: Option<int>, motions: Seq<PlayerTimers>, n: int) -> (RunnerModel, Seq<bool>)
        decreases n,
    {
        if n <= 0 {
            (self, crashed)
        } else {
            let (s, c) = self.judge_slots(crashed, f, spawned, motions, n - 1);
            let slot = n - 1;
            if s.obstacles[slot] is Some && spawned != Some(slot) && f.reached[slot] {
                s.meet_players(c, slot, motions, 4)
            } else {
                (s, c)
            }
        }
    }

    /// Obstacles that passed out of view are removed.
    pub open spec fn passed_removed(self, f: RunnerFrame, spawned: Option<int>) -> RunnerModel {
        RunnerModel {
            obstacles: Seq::new(RUNNER_OBSTACLE_CAPACITY as nat, |i: int|
                if spawned != Some(i) && f.passed[i] { None } else { self.obstacles[i] }),
            ..self
        }
    }

    /// Whether some player is evaluated and every evaluated player is out of
    /// lives.
    pub open spec fn energy_spent(self) -> bool {
        &&& any_player(|p: int| self.players[p].evaluated)
        &&& forall|p: int| 0 <= p < 4 && self.players[p].evaluated ==> self.players[p].lives == 0
    }

    /// One running frame: lane changes and timer refreshes, the beat and its
    /// spawn, distance points, hazards at the collision line, removal of
    /// passed hazards, and the end of the run when everyone is out of lives.
    pub open spec fn run_frame(self, f: RunnerFrame) -> (RunnerModel, Seq<TimerRefresh>, Seq<bool>, Option<int>) {
        let refresh = self.refreshes(f);
        let motions = self.motions(f);
        let s1 = self.lanes_moved(f);
        let (s2, spawned) = s1.beat_stepped(f);
        let s3 = s2.points_awarded(f);
        let (s4, crashed) = s3.judge_slots(Seq::new(4, |p: int| false), f, spawned, motions, RUNNER_OBSTACLE_CAPACITY as int);
        let s5 = s4.passed_removed(f, spawned);
        let s6 = if s5.energy_spent() { s5.finished(RunnerOutcome::EnergySpent) } else { s5 };
        (s6, refresh, crashed, spawned)
    }

    /// A new run of `mode`: personal bests carried over (a higher current
    /// score counts), evaluation flags set, and the countdown started when
    /// the required players are evaluated.
    pub open spec fn started(self, mode: GameMode, evaluation: Seq<bool>) -> (RunnerModel, RunnerStep) {
        let base = RunnerModel {
            players: Seq::new(4, |p: int| RunnerPlayer {
                best_score: if self.players[p].best_score > self.players[p].score {
                    self.players[p].best_score
                } else {
                    self.players[p].score
                },
                evaluated: evaluation[p],
                ..RunnerPlayer::initial()
            }),
            ..RunnerModel::initial(mode)
        };
        if required_evaluation(mode, evaluation) {
            (RunnerModel { phase: RunnerPhase::Starting, ..base }, RunnerStep::CountdownStarted)
        } else {
            (base, RunnerStep::Hold)
        }
    }
}

} // verus!

verus! {

impl RunnerGame {
    /// Starts a new run of `mode`: bests carried over, evaluation set, and
    /// the countdown begun when the required players are evaluated.
    #[verifier::loop_isolation(false)]
    pub fn start_run(&mut self, mode: GameMode, evaluation_enabled: [bool; PLAYER_CAPACITY]) -> (step: RunnerStep)
        ensures
            (final(self)@, step) == old(self)@.started(mode, evaluation_enabled@),
    {
        let ghost pre = self@;
        let ghost target_players = Seq::new(4, |p: int| RunnerPlayer {
            best_score: if pre.players[p].best_score > pre.players[p].score {
                pre.players[p].best_score
            } else {
                pre.players[p].score
            },
            evaluated: evaluation_enabled@[p],
            ..RunnerPlayer::initial()
        });
        assert(pre.started(mode, evaluation_enabled@).0.players == target_players);
        let old_players = self.players;
        *self = RunnerGame::with_mode(mode);
        let mut index: usize = 0;
        while index < PLAYER_CAPACITY
            invariant
                index <= PLAYER_CAPACITY,
                old_players@ == pre.players,
                self@ == (RunnerModel { players: self.players@, ..RunnerModel::initial(mode) }),
                forall|p: int| 0 <= p < index ==> self.players[p] == target_players[p],
                forall|p: int| index <= p < 4 ==> self.players[p] == RunnerPlayer::initial(),
            decreases PLAYER_CAPACITY - index,
        {
            let old_player = old_players[index];
            self.players[index].best_score = if old_player.best_score > old_player.score {
                old_player.best_score
            } else {
                old_player.score
            };
            self.players[index].evaluated = evaluation_enabled[index];
            assert(old_player == pre.players[index as int]);
            assert(self.players[index as int] == target_players[index as int]);
            index = index + 1;
        }
        assert(self.players@ =~= target_players);
        if self.has_required_evaluation(evaluation_enabled) {
            self.phase = RunnerPhase::Starting;
            RunnerStep::CountdownStarted
        } else {
            RunnerStep::Hold
        }
    }

    /// Spawns `kind` in `lane` into the first free slot, or into
    /// `fallback_slot` (the obstacle nearest the player) when none is free.
    /// Returns the slot used.
    pub fn spawn(&mut self, kind: RunnerHazard, lane: i8, fallback_slot: usize) -> (slot: usize)
        requires
            fallback_slot < RUNNER_OBSTACLE_CAPACITY,
        ensures
            (final(self)@, slot as int) == old(self)@.spawned(kind, lane, fallback_slot as int),
            slot < RUNNER_OBSTACLE_CAPACITY,
    {
        let ghost pre = self@;
        let mut slot: usize = fallback_slot;
        let mut i: usize = 0;
        let mut found = false;
        while i < RUNNER_OBSTACLE_CAPACITY
            invariant_except_break
                i <= RUNNER_OBSTACLE_CAPACITY,
                !found,
                slot == fallback_slot,
                forall|j: int| 0 <= j < i ==> self.obstacles[j] is Some,
            ensures
                found ==> slot < RUNNER_OBSTACLE_CAPACITY && self.obstacles[slot as int] is None
                    && forall|j: int| 0 <= j < slot ==> self.obstacles[j] is Some,
                !found ==> slot == fallback_slot && forall|j: int| 0 <= j < RUNNER_OBSTACLE_CAPACITY ==> self.obstacles[j] is Some,
            decreases RUNNER_OBSTACLE_CAPACITY - i,
        {
            if self.obstacles[i].is_none() {
                slot = i;
                found = true;
                break;
            }
            i = i + 1;
        }
        proof {
            if found {
                let c = choose|k: int| 0 <= k < RUNNER_OBSTACLE_CAPACITY && pre.obstacles[k] is None
                    && forall|j: int| 0 <= j < k ==> pre.obstacles[j] is Some;
                assert(0 <= slot < RUNNER_OBSTACLE_CAPACITY && pre.obstacles[slot as int] is None
                    && forall|j: int| 0 <= j < slot ==> pre.obstacles[j] is Some);
                if c < slot {
                    assert(pre.obstacles[c] is Some);
                } else if c > slot {
                    assert(pre.obstacles[slot as int] is Some);
                }
                assert(pre.free_slot() == Some(slot as int));
            } else {
                assert(pre.free_slot() is None);
            }
        }
        let clamped: i8 = if lane < -1 { -1 } else if lane > 1 { 1 } else { lane };
        self.obstacles[slot] = Some(RunnerObstacle {
            id: self.next_obstacle_id,
            lane: clamped,
            kind,
            resolved_players: 0,
        });
        self.next_obstacle_id = if self.next_obstacle_id == u32::MAX { 1 } else { self.next_obstacle_id + 1 };
        assert(self@ =~= pre.spawned(kind, lane, fallback_slot as int).0);
        slot
    }

    #[verifier::loop_isolation(false)]
    fn move_lanes(&mut self, frame: &RunnerFrame) -> (refresh: [TimerRefresh; PLAYER_CAPACITY])
        ensures
            final(self)@ == old(self)@.lanes_moved(*frame),
            refresh@ == old(self)@.refreshes(*frame),
    {
        let ghost pre = self@;
        let mut refresh = [TimerRefresh { jump: false, slide: false, pulse: false }; PLAYER_CAPACITY];
        let mut index: usize = 0;
        while index < PLAYER_CAPACITY
            invariant
                index <= PLAYER_CAPACITY,
                self@ == (RunnerModel { players: self.players@, ..pre }),
                forall|p: int| 0 <= p < index ==> self.players[p] == pre.lanes_moved(*frame).players[p],
                forall|p: int| 0 <= p < index ==> refresh[p] == pre.refreshes(*frame)[p],
                forall|p: int| index <= p < 4 ==> self.players[p] == pre.players[p],
                forall|p: int| index <= p < 4 ==> refresh[p] == (TimerRefresh { jump: false, slide: false, pulse: false }),
            decreases PLAYER_CAPACITY - index,
        {
            let player = self.players[index];
            proof {
                assert(pre.players[index as int] == player);
            }
            if player.evaluated && player.lives > 0 {
                let mask = frame.triggered[index];
                let left = mask & 1 != 0;
                let right = mask & 2 != 0;
                if left != right {
                    let lane = player.lane;
                    self.players[index].lane = if left {
                        if lane <= 0 { -1 } else { lane - 1 }
                    } else {
                        if lane >= 0 { 1 } else { lane + 1 }
                    };
                }
                let active = frame.active[index];
                refresh[index] = TimerRefresh {
                    jump: mask & 4 != 0 || active & 4 != 0,
                    slide: mask & 8 != 0 || active & 8 != 0,
                    pulse: mask & 64 != 0,
                };
            }
            assert(self.players[index as int] == pre.lanes_moved(*frame).players[index as int]);
            assert(refresh[index as int] == pre.refreshes(*frame)[index as int]);
            index = index + 1;
        }
        assert(self.players@ =~= pre.lanes_moved(*frame).players);
        assert(refresh@ =~= pre.refreshes(*frame));
        refresh
    }

    fn step_beat(&mut self, frame: &RunnerFrame) -> (spawned: Option<usize>)
        requires
            frame.spawn_interval > 0,
            frame.fallback_slot < RUNNER_OBSTACLE_CAPACITY,
        ensures
            final(self)@ == old(self)@.beat_stepped(*frame).0,
            match spawned {
                Some(s) => old(self)@.beat_stepped(*frame).1 == Some(s as int) && s < RUNNER_OBSTACLE_CAPACITY,
                None => old(self)@.beat_stepped(*frame).1 is None,
            },
    {
        if !frame.beat_elapsed {
            return None;
        }
        self.beat_index = self.beat_index.wrapping_add(1);
        if self.beat_index % frame.spawn_interval == 1 {
            let step = pattern_step(self.pattern_cursor % RUNNER_PATTERN_LEN);
            let slot = self.spawn(step.0, step.1, frame.fallback_slot);
            self.pattern_cursor = self.pattern_cursor.wrapping_add(1);
            Some(slot)
        } else {
            None
        }
    }

    fn award_points(&mut self, frame: &RunnerFrame)
        ensures
            final(self)@ == old(self)@.points_awarded(*frame),
    {
        let ghost pre = self@;
        let mut index: usize = 0;
        while index < PLAYER_CAPACITY
            invariant
                index <= PLAYER_CAPACITY,
                self@ == (RunnerModel { players: self.players@, ..pre }),
                forall|p: int| 0 <= p < index ==> self.players[p] == pre.points_awarded(*frame).players[p],
                forall|p: int| index <= p < 4 ==> self.players[p] == pre.players[p],
            decreases PLAYER_CAPACITY - index,
        {
            if self.players[index].evaluated && self.players[index].lives > 0 {
                self.players[index].score = self.players[index].score.saturating_add(frame.points[index]);
            }
            index = index + 1;
        }
        assert(self.players@ =~= pre.points_awarded(*frame).players);
    }
}

} // verus!

verus! {

/// A slot index as a mathematical integer.
pub open spec fn slot_int(s: Option<usize>) -> Option<int> {
    match s {
        Some(i) => Some(i as int),
        None => None,
    }
}

impl RunnerGame {
    fn meet(&mut self, crashed: &mut [bool; PLAYER_CAPACITY], slot: usize, p: usize, motion: PlayerTimers)
        requires
            slot < RUNNER_OBSTACLE_CAPACITY,
            p < PLAYER_CAPACITY,
            old(self).obstacles[slot as int] is Some,
        ensures
            (final(self)@, final(crashed)@) == old(self)@.meet(old(crashed)@, slot as int, p as int, motion),
            final(self).obstacles[slot as int] is Some,
    {
        let ghost pre = self@;
        let ghost pre_crashed = crashed@;
        let o = self.obstacles[slot].unwrap();
        let bit = player_bit_exec(p);
        if o.resolved_players & bit != 0 {
            return;
        }
        self.obstacles[slot] = Some(RunnerObstacle { resolved_players: o.resolved_players | bit, ..o });
        let player = self.players[p];
        if !(player.evaluated && player.lives > 0) {
            assert(self@ =~= pre.meet(pre_crashed, slot as int, p as int, motion).0);
            return;
        }
        let same_lane = player.lane == o.lane;
        let success = match o.kind {
            RunnerHazard::LaneBlock => !same_lane,
            RunnerHazard::Hurdle => !same_lane || motion.jumping,
            RunnerHazard::OverheadGate => !same_lane || motion.sliding,
            RunnerHazard::BeatOrb => same_lane && motion.pulsing,
        };
        let combo = player.combo.saturating_add(1);
        let best_combo = if player.best_combo > combo { player.best_combo } else { combo };
        let capped: u32 = if combo < 20 { combo as u32 } else { 20 };
        if o.kind == RunnerHazard::BeatOrb {
            if success {
                self.players[p] = RunnerPlayer {
                    combo,
                    best_combo,
                    score: player.score.saturating_add(250 + capped * 15),
                    ..player
                };
                self.feedback[p] = RunnerFeedback::BeatPickup;
            }
        } else if success {
            self.players[p] = RunnerPlayer {
                combo,
                best_combo,
                score: player.score.saturating_add(120 + capped * 10),
                ..player
            };
            self.feedback[p] = RunnerFeedback::Dodge;
        } else {
            self.players[p] = RunnerPlayer { lives: player.lives.saturating_sub(1), combo: 0, ..player };
            self.feedback[p] = RunnerFeedback::Crash;
            crashed[p] = true;
        }
        assert(self@ =~= pre.meet(pre_crashed, slot as int, p as int, motion).0);
        assert(crashed@ =~= pre.meet(pre_crashed, slot as int, p as int, motion).1);
    }

    fn judge_reached(&mut self, frame: &RunnerFrame, spawned: Option<usize>, motions: [PlayerTimers; PLAYER_CAPACITY]) -> (crashed: [bool; PLAYER_CAPACITY])
        ensures
            (final(self)@, crashed@) == old(self)@.judge_slots(Seq::new(4, |p: int| false), *frame,
                slot_int(spawned), motions@, RUNNER_OBSTACLE_CAPACITY as int),
    {
        let ghost pre = self@;
        let mut crashed = [false; PLAYER_CAPACITY];
        assert(crashed@ =~= Seq::new(4, |p: int| false));
        let mut slot: usize = 0;
        while slot < RUNNER_OBSTACLE_CAPACITY
            invariant
                slot <= RUNNER_OBSTACLE_CAPACITY,
                (self@, crashed@) == pre.judge_slots(Seq::new(4, |p: int| false), *frame,
                    slot_int(spawned), motions@, slot as int),
            decreases RUNNER_OBSTACLE_CAPACITY - slot,
        {
            let is_spawned = match spawned {
                Some(s) => s == slot,
                None => false,
            };
            if self.obstacles[slot].is_some() && !is_spawned && frame.reached[slot] {
                let ghost mid = self@;
                let ghost mid_crashed = crashed@;
                let mut p: usize = 0;
                while p < PLAYER_CAPACITY
                    invariant
                        p <= PLAYER_CAPACITY,
                        slot < RUNNER_OBSTACLE_CAPACITY,
                        self.obstacles[slot as int] is Some,
                        (self@, crashed@) == mid.meet_players(mid_crashed, slot as int, motions@, p as int),
                    decreases PLAYER_CAPACITY - p,
                {
                    self.meet(&mut crashed, slot, p, motions[p]);
                    p = p + 1;
                }
            }
            slot = slot + 1;
        }
        crashed
    }

    fn remove_passed(&mut self, frame: &RunnerFrame, spawned: Option<usize>)
        ensures
            final(self)@ == old(self)@.passed_removed(*frame, slot_int(spawned)),
    {
        let ghost pre = self@;
        let mut slot: usize = 0;
        while slot < RUNNER_OBSTACLE_CAPACITY
            invariant
                slot <= RUNNER_OBSTACLE_CAPACITY,
                self@ == (RunnerModel { obstacles: self.obstacles@, ..pre }),
                forall|i: int| 0 <= i < slot ==> self.obstacles[i] == pre.passed_removed(*frame, slot_int(spawned)).obstacles[i],
                forall|i: int| slot <= i < RUNNER_OBSTACLE_CAPACITY ==> self.obstacles[i] == pre.obstacles[i],
            decreases RUNNER_OBSTACLE_CAPACITY - slot,
        {
            let is_spawned = match spawned {
                Some(s) => s == slot,
                None => false,
            };
            if !is_spawned && frame.passed[slot] {
                self.obstacles[slot] = None;
            }
            slot = slot + 1;
        }
        assert(self.obstacles@ =~= pre.passed_removed(*frame, slot_int(spawned)).obstacles);
    }

    /// Whether some player is evaluated and all evaluated players are out.
    pub fn all_evaluated_players_out(&self) -> (b: bool)
        ensures
            b == self@.energy_spent(),
    {
        let mut any = false;
        let mut all_out = true;
        let mut i: usize = 0;
        while i < PLAYER_CAPACITY
            invariant
                i <= PLAYER_CAPACITY,
                any == (exists|p: int| 0 <= p < i && self.players[p].evaluated),
                all_out == (forall|p: int| 0 <= p < i && self.players[p].evaluated ==> self.players[p].lives == 0),
            decreases PLAYER_CAPACITY - i,
        {
            if self.players[i].evaluated {
                any = true;
                if self.players[i].lives != 0 {
                    all_out = false;
                }
            }
            i = i + 1;
        }
        proof {
            if any {
                let p = choose|p: int| 0 <= p < 4 && self.players[p].evaluated;
                assert(self.players[p].evaluated);
            }
        }
        any && all_out
    }

    /// Second half of a running frame (after the host advanced the session
    /// clock without ending it): lanes and timers, the beat and its spawn,
    /// distance points, hazards at the collision line, removal of passed
    /// hazards, and the end of the run once every evaluated player is out.
    pub fn run_frame(&mut self, frame: &RunnerFrame) -> (effects: RunnerFrameEffects)
        requires
            frame.spawn_interval > 0,
            frame.fallback_slot < RUNNER_OBSTACLE_CAPACITY,
        ensures
            ({
                let (m, refresh, crashed, spawned) = old(self)@.run_frame(*frame);
                &&& final(self)@ == m
                &&& effects.refresh@ == refresh
                &&& effects.crashed@ == crashed
                &&& slot_int(effects.spawned) == spawned
            }),
            match effects.spawned {
                Some(s) => s < RUNNER_OBSTACLE_CAPACITY,
                None => true,
            },
    {
        let ghost pre = self@;
        let refresh = self.move_lanes(frame);
        let mut motions = [PlayerTimers { jumping: false, sliding: false, pulsing: false }; PLAYER_CAPACITY];
        let mut i: usize = 0;
        while i < PLAYER_CAPACITY
            invariant
                i <= PLAYER_CAPACITY,
                refresh@ == pre.refreshes(*frame),
                forall|p: int| 0 <= p < i ==> motions[p] == pre.motions(*frame)[p],
            decreases PLAYER_CAPACITY - i,
        {
            motions[i] = PlayerTimers {
                jumping: frame.timers[i].jumping || refresh[i].jump,
                sliding: frame.timers[i].sliding || refresh[i].slide,
                pulsing: frame.timers[i].pulsing || refresh[i].pulse,
            };
            i = i + 1;
        }
        assert(motions@ =~= pre.motions(*frame));
        let spawned = self.step_beat(frame);
        self.award_points(frame);
        let crashed = self.judge_reached(frame, spawned, motions);
        self.remove_passed(frame, spawned);
        if self.all_evaluated_players_out() {
            self.finish_run(RunnerOutcome::EnergySpent);
        }
        RunnerFrameEffects { refresh, crashed, spawned }
    }
}

} // verus!

verus! {

/// How players may change while hazards are judged: scores only grow, lives
/// only shrink, lanes, bests and evaluation stay, and a player out of play
/// is untouched.
pub open spec fn judged_players(before: RunnerModel, after: RunnerModel) -> bool {
    &&& after.players.len() == before.players.len()
    &&& forall|p: int| #![trigger after.players[p]] 0 <= p < before.players.len() ==> {
        let a = before.players[p];
        let b = after.players[p];
        &&& b.score >= a.score
        &&& b.lives <= a.lives
        &&& b.lane == a.lane
        &&& b.best_score == a.best_score
        &&& b.best_combo >= a.best_combo
        &&& b.evaluated == a.evaluated
        &&& !a.in_play() ==> b == a
    }
}

/// Hazards keep their slots and lanes.
pub open spec fn same_obstacle_lanes(before: RunnerModel, after: RunnerModel) -> bool {
    forall|i: int| #![trigger after.obstacles[i]] 0 <= i < RUNNER_OBSTACLE_CAPACITY ==> {
        &&& (after.obstacles[i] is Some) == (before.obstacles[i] is Some)
        &&& after.obstacles[i] is Some ==> after.obstacles[i]->Some_0.lane == before.obstacles[i]->Some_0.lane
    }
}

proof fn lemma_judged_players_transitive(a: RunnerModel, b: RunnerModel, c: RunnerModel)
    requires
        judged_players(a, b),
        judged_players(b, c),
    ensures
        judged_players(a, c),
{
    assert forall|p: int| #![trigger c.players[p]] 0 <= p < a.players.len() implies {
        let x = a.players[p];
        let z = c.players[p];
        &&& z.score >= x.score
        &&& z.lives <= x.lives
        &&& z.lane == x.lane
        &&& z.best_score == x.best_score
        &&& z.best_combo >= x.best_combo
        &&& z.evaluated == x.evaluated
        &&& !x.in_play() ==> z == x
    } by {
        let y = b.players[p];
        assert(b.players[p] == y);
        if !a.players[p].in_play() {
            assert(y == a.players[p]);
        }
    }
}

/// Meeting a hazard changes nothing but players (as `judged_players` allows),
/// feedback and the hazard's resolved mask, and marks the player resolved.
proof fn lemma_meet_shape(m: RunnerModel, c: Seq<bool>, slot: int, p: int, motion: PlayerTimers)
    requires
        c.len() == 4,
        m.wf(),
        0 <= slot < RUNNER_OBSTACLE_CAPACITY,
        0 <= p < 4,
        m.obstacles[slot] is Some,
    ensures
        ({
            let (n, d) = m.meet(c, slot, p, motion);
            &&& n.wf()
            &&& judged_players(m, n)
            &&& n.obstacles[slot] is Some
            &&& n.obstacles[slot]->Some_0.resolved_for(p)
            &&& same_obstacle_lanes(m, n)
            &&& n.phase == m.phase
            &&& n.mode == m.mode
            &&& n.beat_index == m.beat_index
            &&& d.len() == c.len()
        }),
{
    let o = m.obstacles[slot]->Some_0;
    lemma_mark_resolved(o.resolved_players, p, p);
    let (n, d) = m.meet(c, slot, p, motion);
    assert(n.wf());
    assert(n.obstacles[slot] is Some);
    assert(n.obstacles[slot]->Some_0.resolved_for(p));
    assert(d.len() == c.len());
    assert(judged_players(m, n));
}

/// A player already resolved against a hazard is not judged by it again:
/// each hazard costs each player at most one life.
pub proof fn lemma_meet_once(m: RunnerModel, c: Seq<bool>, slot: int, p: int, motion: PlayerTimers)
    requires
        0 <= slot < RUNNER_OBSTACLE_CAPACITY,
        0 <= p < 4,
        m.obstacles[slot] is Some,
        m.obstacles[slot]->Some_0.resolved_for(p),
    ensures
        m.meet(c, slot, p, motion) == (m, c),
{
}

proof fn lemma_meet_players_shape(m: RunnerModel, c: Seq<bool>, slot: int, motions: Seq<PlayerTimers>, n: int)
    requires
        c.len() == 4,
        m.wf(),
        0 <= slot < RUNNER_OBSTACLE_CAPACITY,
        0 <= n <= 4,
        m.obstacles[slot] is Some,
    ensures
        ({
            let (r, d) = m.meet_players(c, slot, motions, n);
            &&& r.wf()
            &&& judged_players(m, r)
            &&& same_obstacle_lanes(m, r)
            &&& r.obstacles[slot] is Some
            &&& r.phase == m.phase
            &&& r.mode == m.mode
            &&& d.len() == c.len()
        }),
    decreases n,
{
    if n > 0 {
        lemma_meet_players_shape(m, c, slot, motions, n - 1);
        let (s, d) = m.meet_players(c, slot, motions, n - 1);
        lemma_meet_shape(s, d, slot, n - 1, motions[n - 1]);
        lemma_judged_players_transitive(m, s, s.meet(d, slot, n - 1, motions[n - 1]).0);
    } else {
        assert(judged_players(m, m));
    }
}

proof fn lemma_judge_slots_shape(m: RunnerModel, c: Seq<bool>, f: RunnerFrame, spawned: Option<int>, motions: Seq<PlayerTimers>, n: int)
    requires
        c.len() == 4,
        m.wf(),
        0 <= n <= RUNNER_OBSTACLE_CAPACITY,
    ensures
        ({
            let (r, d) = m.judge_slots(c, f, spawned, motions, n);
            &&& r.wf()
            &&& judged_players(m, r)
            &&& same_obstacle_lanes(m, r)
            &&& r.phase == m.phase
            &&& r.mode == m.mode
            &&& d.len() == c.len()
        }),
    decreases n,
{
    if n > 0 {
        lemma_judge_slots_shape(m, c, f, spawned, motions, n - 1);
        let (s, d) = m.judge_slots(c, f, spawned, motions, n - 1);
        if s.obstacles[n - 1] is Some && spawned != Some(n - 1) && f.reached[n - 1] {
            lemma_meet_players_shape(s, d, n - 1, motions, 4);
            lemma_judged_players_transitive(m, s, s.meet_players(d, n - 1, motions, 4).0);
        }
    } else {
        assert(judged_players(m, m));
    }
}

/// Lanes stay within the three lanes.
pub open spec fn lanes_in_range(m: RunnerModel) -> bool {
    forall|p: int| 0 <= p < 4 ==> -1 <= #[trigger] m.players[p].lane <= 1
}

/// Hazards stand within the three lanes.
pub open spec fn obstacle_lanes_in_range(m: RunnerModel) -> bool {
    forall|i: int| 0 <= i < RUNNER_OBSTACLE_CAPACITY && #[trigger] m.obstacles[i] is Some
        ==> -1 <= m.obstacles[i]->Some_0.lane <= 1
}

/// Over a running frame scores never fall, lives never rise, personal bests
/// and best combos never fall, players and hazards stay within the three
/// lanes, and a player who is not in play (unevaluated or out of lives)
/// neither scores nor loses lives.
pub proof fn lemma_run_frame_progress(m: RunnerModel, f: RunnerFrame)
    requires
        m.wf(),
        f.fallback_slot < RUNNER_OBSTACLE_CAPACITY,
        f.spawn_interval > 0,
    ensures
        ({
            let r = m.run_frame(f).0;
            &&& r.wf()
            &&& forall|p: int| 0 <= p < 4 ==> {
                &&& r.players[p].score >= m.players[p].score
                &&& r.players[p].lives <= m.players[p].lives
                &&& r.players[p].best_score >= m.players[p].best_score
                &&& r.players[p].best_combo >= m.players[p].best_combo
                &&& !m.players[p].in_play() ==> r.players[p].score == m.players[p].score
                    && r.players[p].lives == m.players[p].lives
                    && r.players[p].combo == m.players[p].combo
                    && r.players[p].lane == m.players[p].lane
            }
            &&& lanes_in_range(m) ==> lanes_in_range(r)
            &&& obstacle_lanes_in_range(m) ==> obstacle_lanes_in_range(r)
        }),
{
    let s1 = m.lanes_moved(f);
    let (s2, spawned) = s1.beat_stepped(f);
    let s3 = s2.points_awarded(f);
    let motions = m.motions(f);
    lemma_judge_slots_shape(s3, Seq::new(4, |p: int| false), f, spawned, motions, RUNNER_OBSTACLE_CAPACITY as int);
    let (s4, crashed) = s3.judge_slots(Seq::new(4, |p: int| false), f, spawned, motions, RUNNER_OBSTACLE_CAPACITY as int);
    let s5 = s4.passed_removed(f, spawned);
    assert(s2.players == s1.players);
    assert forall|p: int| 0 <= p < 4 implies {
        &&& s5.players[p].score >= m.players[p].score
        &&& s5.players[p].lives <= m.players[p].lives
        &&& s5.players[p].best_score == m.players[p].best_score
        &&& s5.players[p].best_combo >= m.players[p].best_combo
        &&& !m.players[p].in_play() ==> s5.players[p] == m.players[p]
        &&& -1 <= m.players[p].lane <= 1 ==> -1 <= s5.players[p].lane <= 1
    } by {
        assert(s4.players[p].lane == s3.players[p].lane);
    }
    if obstacle_lanes_in_range(m) {
        assert forall|i: int| 0 <= i < RUNNER_OBSTACLE_CAPACITY && #[trigger] s2.obstacles[i] is Some
            implies -1 <= s2.obstacles[i]->Some_0.lane <= 1 by {
            if s1.obstacles[i] is Some {
                assert(s1.obstacles[i] == m.obstacles[i]);
            }
        }
        assert forall|i: int| 0 <= i < RUNNER_OBSTACLE_CAPACITY && #[trigger] s5.obstacles[i] is Some
            implies -1 <= s5.obstacles[i]->Some_0.lane <= 1 by {
            assert(s4.obstacles[i] is Some);
            assert(s3.obstacles[i] == s2.obstacles[i]);
        }
    }
}

/// The first half of a frame never touches scores, lives, combos, lanes or
/// bests: outside a running frame the world is frozen.
pub proof fn lemma_control_freezes_players(m: RunnerModel, active: Seq<u32>, triggered: Seq<u32>, evaluation: Seq<bool>)
    requires
        m.wf(),
    ensures
        ({
            let r = m.control(active, triggered, evaluation).0;
            forall|p: int| 0 <= p < 4 ==> {
                &&& r.players[p].score == m.players[p].score
                &&& r.players[p].lives == m.players[p].lives
                &&& r.players[p].combo == m.players[p].combo
                &&& r.players[p].lane == m.players[p].lane
                &&& r.players[p].best_score == m.players[p].best_score
                &&& r.players[p].evaluated == evaluation[p]
            }
        }),
        m.control(active, triggered, evaluation).0.beat_index == m.beat_index,
{
}

/// Finishing a run records a new personal best exactly when the score beats
/// the old best, and the best becomes the larger of the two.
pub proof fn lemma_finish_records_best(m: RunnerModel, outcome: RunnerOutcome, p: int)
    requires
        m.wf(),
        0 <= p < 4,
    ensures
        m.finished(outcome).players[p].new_best == (m.players[p].score > m.players[p].best_score),
        m.finished(outcome).players[p].best_score >= m.players[p].best_score,
        m.finished(outcome).players[p].best_score >= m.players[p].score,
        m.finished(outcome).pending_result_event == Some(RunnerResultEvent { mode: m.mode, outcome }),
        m.finished(outcome).phase == RunnerPhase::GameOver,
{
}

/// Starting a run keeps every player's personal best (a better current
/// score counts) and resets scores and lives.
pub proof fn lemma_start_keeps_bests(m: RunnerModel, mode: GameMode, evaluation: Seq<bool>, p: int)
    requires
        m.wf(),
        0 <= p < 4,
    ensures
        m.started(mode, evaluation).0.players[p].best_score >= m.players[p].best_score,
        m.started(mode, evaluation).0.players[p].best_score >= m.players[p].score,
        m.started(mode, evaluation).0.players[p].score == 0,
        m.started(mode, evaluation).0.players[p].lives == RUNNER_START_LIVES,
{
}

/// Duo Groove never starts, resumes or leaves a pause unless both local
/// players are evaluated; other modes need at least one evaluated player.
pub proof fn lemma_countdown_needs_required_players(m: RunnerModel, active: Seq<u32>, triggered: Seq<u32>, evaluation: Seq<bool>)
    requires
        m.wf(),
        evaluation.len() == 4,
        m.control(active, triggered, evaluation).1 == RunnerStep::CountdownStarted
            || m.control(active, triggered, evaluation).1 == RunnerStep::CountdownTick
            || m.control(active, triggered, evaluation).1 == RunnerStep::Run,
    ensures
        required_evaluation(m.mode, evaluation),
{
}

/// Leaving an intentional pause takes an evaluated player's Clap: a frame
/// that starts the resume countdown from Paused saw a Clap from an evaluated
/// player or found one already ready.
pub proof fn lemma_pause_resumes_on_clap(m: RunnerModel, active: Seq<u32>, triggered: Seq<u32>, evaluation: Seq<bool>)
    requires
        m.wf(),
        m.phase == RunnerPhase::Paused,
        m.control(active, triggered, evaluation).1 == RunnerStep::CountdownStarted,
    ensures
        m.control(active, triggered, evaluation).0.phase == RunnerPhase::PauseResuming,
        exists|p: int| 0 <= p < 4 && evaluation[p] && (m.ready_players[p] || triggered[p] & 64 != 0),
{
    let ready = clapped_ready(m.ready_players, triggered, evaluation);
    if m.mode == GameMode::DuoGroove {
        assert(evaluation[0] && ready[0]);
    } else {
        if ready[0] && evaluation[0] {
        } else if ready[1] && evaluation[1] {
        } else if ready[2] && evaluation[2] {
        } else {
            assert(ready[3] && evaluation[3]);
        }
    }
}

} // verus!

verus! {

/// On the result screen a frame changes nothing but the selection and the
/// run request: the phase stays GameOver, hazards and every player's score,
/// lives and lane stay; only evaluated players' actions count; a Clap from
/// an evaluated player requests a run of the selection; and without both
/// local players evaluated the selection is never Duo Groove.
pub proof fn lemma_result_screen_navigation(m: RunnerModel, active: Seq<u32>, triggered: Seq<u32>, evaluation: Seq<bool>)
    requires
        m.wf(),
        m.phase == RunnerPhase::GameOver,
    ensures
        ({
            let (r, step) = m.control(active, triggered, evaluation);
            &&& step == RunnerStep::Hold
            &&& r.phase == RunnerPhase::GameOver
            &&& r.obstacles == m.obstacles
            &&& r.beat_index == m.beat_index
            &&& forall|p: int| 0 <= p < 4 ==> {
                &&& #[trigger] r.players[p].score == m.players[p].score
                &&& r.players[p].lives == m.players[p].lives
                &&& r.players[p].lane == m.players[p].lane
            }
            &&& r.next_run_request == (if evaluated_signal(triggered, evaluation, 64) {
                Some(r.result_selection)
            } else {
                m.next_run_request
            })
            &&& !(evaluation[0] && evaluation[1]) ==> r.result_selection != GameMode::DuoGroove
        }),
{
    let s = m.with_evaluation(evaluation);
    let duo = evaluation[0] && evaluation[1];
    if !duo {
        let start = if s.result_selection == GameMode::DuoGroove { GameMode::MirrorBeat } else { s.result_selection };
        crate::game_state::lemma_duo_skipped_when_unavailable(start);
    }
}

/// Losing the required players while running, without a Pause, freezes the
/// run in the tracking hold: hazards cleared, nobody ready, the beat and
/// every player's score, combo, lives and lane kept.
pub proof fn lemma_tracking_loss_holds(m: RunnerModel, active: Seq<u32>, triggered: Seq<u32>, evaluation: Seq<bool>)
    requires
        m.wf(),
        m.phase == RunnerPhase::Running,
        !pause_signal(triggered, evaluation),
        !required_evaluation(m.mode, evaluation),
    ensures
        ({
            let (r, step) = m.control(active, triggered, evaluation);
            &&& step == RunnerStep::Hold
            &&& r.phase == RunnerPhase::TrackingHold
            &&& r.obstacles == no_obstacles()
            &&& r.ready_players == nobody_ready()
            &&& r.beat_index == m.beat_index
            &&& forall|p: int| 0 <= p < 4 ==> {
                &&& #[trigger] r.players[p].score == m.players[p].score
                &&& r.players[p].combo == m.players[p].combo
                &&& r.players[p].lives == m.players[p].lives
                &&& r.players[p].lane == m.players[p].lane
            }
        }),
{
}

/// A ready check (Ready, tracking hold or pause) records who is ready: an
/// evaluated player who was ready or now signals (a Clap in a pause, any
/// action or held pose otherwise); an unevaluated player is not ready. The
/// countdown starts exactly when the mode's required players are ready, and
/// leads to Starting, Resuming or PauseResuming respectively.
pub proof fn lemma_ready_check(m: RunnerModel, active: Seq<u32>, triggered: Seq<u32>, evaluation: Seq<bool>)
    requires
        m.wf(),
        m.phase == RunnerPhase::Ready || m.phase == RunnerPhase::TrackingHold || m.phase == RunnerPhase::Paused,
    ensures
        ({
            let (r, step) = m.control(active, triggered, evaluation);
            &&& forall|p: int| 0 <= p < 4 ==> #[trigger] r.ready_players[p] == (evaluation[p] && (m.ready_players[p]
                || if m.phase == RunnerPhase::Paused { triggered[p] & 64 != 0 } else { triggered[p] != 0 || active[p] != 0 }))
            &&& (step == RunnerStep::CountdownStarted) == ready_to_run(m.mode, r.ready_players, evaluation)
            &&& step == RunnerStep::CountdownStarted || step == RunnerStep::Hold
            &&& step == RunnerStep::CountdownStarted ==> r.phase == (match m.phase {
                RunnerPhase::Ready => RunnerPhase::Starting,
                RunnerPhase::TrackingHold => RunnerPhase::Resuming,
                _ => RunnerPhase::PauseResuming,
            })
            &&& step == RunnerStep::Hold ==> r.phase == m.phase
            &&& r.obstacles == m.obstacles
            &&& r.beat_index == m.beat_index
        }),
{
}

/// During a countdown (starting, resuming after a pause or after a tracking
/// hold) losing the required players falls back to Ready, Paused or the
/// tracking hold with nobody ready; otherwise the countdown goes on.
pub proof fn lemma_countdown_falls_back(m: RunnerModel, active: Seq<u32>, triggered: Seq<u32>, evaluation: Seq<bool>)
    requires
        m.wf(),
        m.phase.counts_down(),
    ensures
        ({
            let (r, step) = m.control(active, triggered, evaluation);
            &&& !required_evaluation(m.mode, evaluation) ==> {
                &&& step == RunnerStep::Hold
                &&& r.ready_players == nobody_ready()
                &&& r.phase == (match m.phase {
                    RunnerPhase::Starting => RunnerPhase::Ready,
                    RunnerPhase::PauseResuming => RunnerPhase::Paused,
                    _ => RunnerPhase::TrackingHold,
                })
            }
            &&& required_evaluation(m.mode, evaluation) ==> step == RunnerStep::CountdownTick && r.phase == m.phase
            &&& r.beat_index == m.beat_index
        }),
{
}

} // verus!

verus! {

impl RunnerModel {
    /// One whole frame: the control step, then, when play runs, either the
    /// end of the session (the host's clock reached it) or a running frame.
    /// Also gives the step and, for a running frame, its timer refreshes,
    /// crashes and spawned slot.
    pub open spec fn frame_update(self, active: Seq<u32>, triggered: Seq<u32>, evaluation: Seq<bool>, session_over: bool, f: RunnerFrame)
        -> (RunnerModel, RunnerStep, Option<(Seq<TimerRefresh>, Seq<bool>, Option<int>)>)
    {
        let (m, step) = self.control(active, triggered, evaluation);
        if step == RunnerStep::Run {
            if session_over {
                (m.finished(RunnerOutcome::BreakComplete), step, None)
            } else {
                let (r, refresh, crashed, spawned) = m.run_frame(f);
                (r, step, Some((refresh, crashed, spawned)))
            }
        } else {
            (m, step, None)
        }
    }
}

impl RunnerGame {
    /// One whole frame of the runner. `session_over` says whether the host's
    /// session clock, advanced by this frame, reached the end of the break;
    /// `frame` holds what the host measured for a running frame (used only
    /// when play runs and the session goes on). Returns the control step and,
    /// for a running frame, its effects.
    pub fn update(
        &mut self,
        active: [u32; PLAYER_CAPACITY],
        triggered: [u32; PLAYER_CAPACITY],
        evaluation_enabled: [bool; PLAYER_CAPACITY],
        session_over: bool,
        frame: &RunnerFrame,
    ) -> (r: (RunnerStep, Option<RunnerFrameEffects>))
        requires
            frame.spawn_interval > 0,
            frame.fallback_slot < RUNNER_OBSTACLE_CAPACITY,
        ensures
            ({
                let (m, step, effects) = old(self)@.frame_update(active@, triggered@, evaluation_enabled@, session_over, *frame);
                &&& final(self)@ == m
                &&& r.0 == step
                &&& match (r.1, effects) {
                    (None, None) => true,
                    (Some(e), Some((refresh, crashed, spawned))) => e.refresh@ == refresh && e.crashed@ == crashed
                        && slot_int(e.spawned) == spawned,
                    _ => false,
                }
            }),
            match r.1 {
                Some(e) => match e.spawned {
                    Some(s) => s < RUNNER_OBSTACLE_CAPACITY,
                    None => true,
                },
                None => true,
            },
    {
        let step = self.control(active, triggered, evaluation_enabled);
        if step == RunnerStep::Run {
            if session_over {
                self.finish_run(RunnerOutcome::BreakComplete);
                (step, None)
            } else {
                let effects = self.run_frame(frame);
                (step, Some(effects))
            }
        } else {
            (step, None)
        }
    }
}

/// A frame that does not run play is exactly its control step.
pub proof fn lemma_update_without_play(m: RunnerModel, active: Seq<u32>, triggered: Seq<u32>, evaluation: Seq<bool>, session_over: bool, f: RunnerFrame)
    requires
        m.control(active, triggered, evaluation).1 != RunnerStep::Run,
    ensures
        m.frame_update(active, triggered, evaluation, session_over, f).0 == m.control(active, triggered, evaluation).0,
        m.frame_update(active, triggered, evaluation, session_over, f).1 == m.control(active, triggered, evaluation).1,
{
}

/// Outside a running phase a frame never runs play: the beat and every
/// player's score, combo, lives and lane stay (the host's session clock,
/// world distance and speed only move on a running step).
pub proof fn lemma_update_frozen_outside_running(m: RunnerModel, active: Seq<u32>, triggered: Seq<u32>, evaluation: Seq<bool>, session_over: bool, f: RunnerFrame)
    requires
        m.wf(),
        m.phase != RunnerPhase::Running,
    ensures
        ({
            let (r, step, effects) = m.frame_update(active, triggered, evaluation, session_over, f);
            &&& step != RunnerStep::Run
            &&& effects is None
            &&& r.beat_index == m.beat_index
            &&& forall|p: int| 0 <= p < 4 ==> {
                &&& #[trigger] r.players[p].score == m.players[p].score
                &&& r.players[p].combo == m.players[p].combo
                &&& r.players[p].lives == m.players[p].lives
                &&& r.players[p].lane == m.players[p].lane
            }
        }),
{
    lemma_control_freezes_players(m, active, triggered, evaluation);
}

/// Over any frame scores, personal bests and best combos never fall, lives
/// never rise, players and hazards stay within the three lanes, and a
/// finished run stays finished.
pub proof fn lemma_update_bounds(m: RunnerModel, active: Seq<u32>, triggered: Seq<u32>, evaluation: Seq<bool>, session_over: bool, f: RunnerFrame)
    requires
        m.wf(),
        f.spawn_interval > 0,
        f.fallback_slot < RUNNER_OBSTACLE_CAPACITY,
    ensures
        ({
            let r = m.frame_update(active, triggered, evaluation, session_over, f).0;
            &&& forall|p: int| 0 <= p < 4 ==> {
                &&& #[trigger] r.players[p].score >= m.players[p].score
                &&& r.players[p].lives <= m.players[p].lives
                &&& r.players[p].best_score >= m.players[p].best_score
                &&& r.players[p].best_combo >= m.players[p].best_combo
            }
            &&& lanes_in_range(m) ==> lanes_in_range(r)
            &&& obstacle_lanes_in_range(m) ==> obstacle_lanes_in_range(r)
            &&& m.phase == RunnerPhase::GameOver ==> r.phase == RunnerPhase::GameOver
        }),
{
    let (c, step) = m.control(active, triggered, evaluation);
    lemma_control_freezes_players(m, active, triggered, evaluation);
    assert(c.wf());
    assert forall|p: int| 0 <= p < 4 implies #[trigger] c.players[p].best_combo == m.players[p].best_combo by {}
    if obstacle_lanes_in_range(m) {
        assert forall|i: int| 0 <= i < RUNNER_OBSTACLE_CAPACITY && #[trigger] c.obstacles[i] is Some
            implies -1 <= c.obstacles[i]->Some_0.lane <= 1 by {
            assert(c.obstacles[i] == m.obstacles[i]);
        }
    }
    if step == RunnerStep::Run && !session_over {
        lemma_run_frame_progress(c, f);
    }
}

/// A whole frame on the result screen: the phase stays GameOver and play
/// does not run; hazards, the beat and every player's score, lives and lane
/// stay; only evaluated players' actions count; a Clap from an evaluated
/// player requests a run of the selection, otherwise the request stays; and
/// without both local players evaluated the selection is never Duo Groove.
pub proof fn lemma_update_on_result_screen(m: RunnerModel, active: Seq<u32>, triggered: Seq<u32>, evaluation: Seq<bool>, session_over: bool, f: RunnerFrame)
    requires
        m.wf(),
        m.phase == RunnerPhase::GameOver,
    ensures
        ({
            let (r, step, effects) = m.frame_update(active, triggered, evaluation, session_over, f);
            &&& step == RunnerStep::Hold
            &&& effects is None
            &&& r.phase == RunnerPhase::GameOver
            &&& r.obstacles == m.obstacles
            &&& r.beat_index == m.beat_index
            &&& forall|p: int| 0 <= p < 4 ==> {
                &&& #[trigger] r.players[p].score == m.players[p].score
                &&& r.players[p].lives == m.players[p].lives
                &&& r.players[p].lane == m.players[p].lane
            }
            &&& r.next_run_request == (if evaluated_signal(triggered, evaluation, 64) {
                Some(r.result_selection)
            } else {
                m.next_run_request
            })
            &&& !(evaluation[0] && evaluation[1]) ==> r.result_selection != GameMode::DuoGroove
        }),
{
    lemma_result_screen_navigation(m, active, triggered, evaluation);
}

/// A whole running frame that loses the required players, without a Pause,
/// runs no play and freezes the run in the tracking hold: hazards cleared,
/// nobody ready, the beat and every player's score, combo, lives and lane
/// kept.
pub proof fn lemma_update_tracking_loss(m: RunnerModel, active: Seq<u32>, triggered: Seq<u32>, evaluation: Seq<bool>, session_over: bool, f: RunnerFrame)
    requires
        m.wf(),
        m.phase == RunnerPhase::Running,
        !pause_signal(triggered, evaluation),
        !required_evaluation(m.mode, evaluation),
    ensures
        ({
            let (r, step, effects) = m.frame_update(active, triggered, evaluation, session_over, f);
            &&& step == RunnerStep::Hold
            &&& effects is None
            &&& r.phase == RunnerPhase::TrackingHold
            &&& r.obstacles == no_obstacles()
            &&& r.ready_players == nobody_ready()
            &&& r.beat_index == m.beat_index
            &&& forall|p: int| 0 <= p < 4 ==> {
                &&& #[trigger] r.players[p].score == m.players[p].score
                &&& r.players[p].combo == m.players[p].combo
                &&& r.players[p].lives == m.players[p].lives
                &&& r.players[p].lane == m.players[p].lane
            }
        }),
{
    lemma_tracking_loss_holds(m, active, triggered, evaluation);
}

/// A whole frame of a ready check (Ready, tracking hold or pause) runs no
/// play and records who is ready: an evaluated player who was ready or now
/// signals (a Clap in a pause, any action or held pose otherwise). The
/// countdown starts, into Starting, Resuming or PauseResuming, exactly when
/// the mode's required players are ready; otherwise the phase stays.
pub proof fn lemma_update_ready_check(m: RunnerModel, active: Seq<u32>, triggered: Seq<u32>, evaluation: Seq<bool>, session_over: bool, f: RunnerFrame)
    requires
        m.wf(),
        m.phase == RunnerPhase::Ready || m.phase == RunnerPhase::TrackingHold || m.phase == RunnerPhase::Paused,
    ensures
        ({
            let (r, step, effects) = m.frame_update(active, triggered, evaluation, session_over, f);
            &&& effects is None
            &&& forall|p: int| 0 <= p < 4 ==> #[trigger] r.ready_players[p] == (evaluation[p] && (m.ready_players[p]
                || if m.phase == RunnerPhase::Paused { triggered[p] & 64 != 0 } else { triggered[p] != 0 || active[p] != 0 }))
            &&& (step == RunnerStep::CountdownStarted) == ready_to_run(m.mode, r.ready_players, evaluation)
            &&& step == RunnerStep::CountdownStarted ==> r.phase == (match m.phase {
                RunnerPhase::Ready => RunnerPhase::Starting,
                RunnerPhase::TrackingHold => RunnerPhase::Resuming,
                _ => RunnerPhase::PauseResuming,
            })
            &&& step != RunnerStep::CountdownStarted ==> r.phase == m.phase
            &&& r.obstacles == m.obstacles
            &&& r.beat_index == m.beat_index
        }),
{
    lemma_ready_check(m, active, triggered, evaluation);
}

/// A whole frame of a countdown (starting, resuming after a pause or after a
/// tracking hold) runs no play: losing the required players falls back to
/// Ready, Paused or the tracking hold with nobody ready; otherwise the
/// countdown ticks on in the same phase (its clock is the host's).
pub proof fn lemma_update_countdown(m: RunnerModel, active: Seq<u32>, triggered: Seq<u32>, evaluation: Seq<bool>, session_over: bool, f: RunnerFrame)
    requires
        m.wf(),
        m.phase.counts_down(),
    ensures
        ({
            let (r, step, effects) = m.frame_update(active, triggered, evaluation, session_over, f);
            &&& effects is None
            &&& !required_evaluation(m.mode, evaluation) ==> {
                &&& step == RunnerStep::Hold
                &&& r.ready_players == nobody_ready()
                &&& r.phase == (match m.phase {
                    RunnerPhase::Starting => RunnerPhase::Ready,
                    RunnerPhase::PauseResuming => RunnerPhase::Paused,
                    _ => RunnerPhase::TrackingHold,
                })
            }
            &&& required_evaluation(m.mode, evaluation) ==> step == RunnerStep::CountdownTick && r.phase == m.phase
            &&& r.beat_index == m.beat_index
        }),
{
    lemma_countdown_falls_back(m, active, triggered, evaluation);
}

/// Whether `motion` shows the movement of action `a`: a jump for Jump, a
/// slide for Squat, a pulse for Clap; no other action has a movement.
pub open spec fn shows_motion(motion: PlayerTimers, a: Action) -> bool {
    match a {
        Action::Jump => motion.jumping,
        Action::Squat => motion.sliding,
        Action::Clap => motion.pulsing,
        _ => false,
    }
}

/// A running frame starts, for a player in play, the movement of each of
/// Jump, Squat and Clap they trigger (and of Jump and Squat they hold);
/// a movement already running keeps running; a player out of play starts
/// nothing.
pub proof fn lemma_actions_start_their_motions(m: RunnerModel, f: RunnerFrame, p: int, a: Action)
    requires
        0 <= p < 4,
        a == Action::Jump || a == Action::Squat || a == Action::Clap,
    ensures
        m.players[p].in_play() && f.triggered[p] & a.mask_of() != 0 ==> shows_motion(m.motions(f)[p], a),
        m.players[p].in_play() && a != Action::Clap && f.active[p] & a.mask_of() != 0
            ==> shows_motion(m.motions(f)[p], a),
        shows_motion(f.timers[p], a) ==> shows_motion(m.motions(f)[p], a),
        !m.players[p].in_play() ==> m.motions(f)[p] == f.timers[p],
{
}

/// A hazard that asks for an action is judged by that action's movement: a
/// player in play meeting it in its own lane clears it (a dodge, or an orb
/// pickup) exactly when the movement of the action the hazard requires
/// (`required`: Jump for a hurdle, Squat for a gate, Clap for an orb) is
/// running. Clearing extends the combo and adds points; failing a hurdle or
/// a gate crashes (a life and the combo lost); missing an orb costs nothing.
pub proof fn lemma_meet_judges_the_required_action(m: RunnerModel, crashed: Seq<bool>, slot: int, p: int, motion: PlayerTimers)
    requires
        m.wf(),
        crashed.len() == 4,
        0 <= slot < RUNNER_OBSTACLE_CAPACITY,
        0 <= p < 4,
        m.obstacles[slot] is Some,
        !m.obstacles[slot]->Some_0.resolved_for(p),
        m.players[p].in_play(),
        m.players[p].lane == m.obstacles[slot]->Some_0.lane,
        m.obstacles[slot]->Some_0.kind.required() is Some,
    ensures
        ({
            let o = m.obstacles[slot]->Some_0;
            let a = o.kind.required()->Some_0;
            let before = m.players[p];
            let (r, c) = m.meet(crashed, slot, p, motion);
            let after = r.players[p];
            &&& shows_motion(motion, a) ==> {
                &&& r.feedback[p] == (if a == Action::Clap { RunnerFeedback::BeatPickup } else { RunnerFeedback::Dodge })
                &&& after.combo == before.combo.saturating_add(1)
                &&& after.score > before.score || before.score == u32::MAX
                &&& after.lives == before.lives
                &&& c == crashed
            }
            &&& !shows_motion(motion, a) && a != Action::Clap ==> {
                &&& r.feedback[p] == RunnerFeedback::Crash
                &&& after.lives == before.lives - 1
                &&& after.combo == 0
                &&& after.score == before.score
                &&& c[p]
            }
            &&& !shows_motion(motion, a) && a == Action::Clap ==> after == before && c == crashed
                && r.feedback[p] == m.feedback[p]
        }),
{
}

/// Out of a hazard's lane a player in play dodges every hazard but an orb,
/// and collects no orb.
pub proof fn lemma_meet_in_another_lane(m: RunnerModel, crashed: Seq<bool>, slot: int, p: int, motion: PlayerTimers)
    requires
        m.wf(),
        0 <= slot < RUNNER_OBSTACLE_CAPACITY,
        0 <= p < 4,
        m.obstacles[slot] is Some,
        !m.obstacles[slot]->Some_0.resolved_for(p),
        m.players[p].in_play(),
        m.players[p].lane != m.obstacles[slot]->Some_0.lane,
    ensures
        ({
            let o = m.obstacles[slot]->Some_0;
            let (r, c) = m.meet(crashed, slot, p, motion);
            &&& o.kind != RunnerHazard::BeatOrb ==> r.feedback[p] == RunnerFeedback::Dodge
                && r.players[p].lives == m.players[p].lives && c == crashed
            &&& o.kind == RunnerHazard::BeatOrb ==> r.players[p] == m.players[p] && c == crashed
        }),
{
}

/// A lane block in a player's own lane cannot be cleared by any movement: a
/// player in play meeting it crashes, losing a life and the combo.
pub proof fn lemma_lane_block_in_lane_crashes(m: RunnerModel, crashed: Seq<bool>, slot: int, p: int, motion: PlayerTimers)
    requires
        m.wf(),
        crashed.len() == 4,
        0 <= slot < RUNNER_OBSTACLE_CAPACITY,
        0 <= p < 4,
        m.obstacles[slot] is Some,
        m.obstacles[slot]->Some_0.kind == RunnerHazard::LaneBlock,
        !m.obstacles[slot]->Some_0.resolved_for(p),
        m.players[p].in_play(),
        m.players[p].lane == m.obstacles[slot]->Some_0.lane,
    ensures
        ({
            let (r, c) = m.meet(crashed, slot, p, motion);
            &&& r.feedback[p] == RunnerFeedback::Crash
            &&& r.players[p].lives == m.players[p].lives - 1
            &&& r.players[p].combo == 0
            &&& c[p]
        }),
{
}

/// Lane changes: a MoveLeft without MoveRight steps one lane left, a
/// MoveRight without MoveLeft one lane right, never past the outer lanes;
/// both or neither keep the lane; other actions do not move.
pub proof fn lemma_lane_changes(lane: i8, mask: u32)
    requires
        -1 <= lane <= 1,
    ensures
        ({
            let left = mask & Action::MoveLeft.mask_of() != 0;
            let right = mask & Action::MoveRight.mask_of() != 0;
            &&& left && !right ==> moved_lane(lane, mask) == (if lane == -1 { -1 } else { lane - 1 })
            &&& right && !left ==> moved_lane(lane, mask) == (if lane == 1 { 1 } else { lane + 1 })
            &&& left == right ==> moved_lane(lane, mask) == lane
            &&& -1 <= moved_lane(lane, mask) <= 1
        }),
{
}

/// The runner's point ladders: a dodge is worth 120 points at combo zero and
/// 10 more per combo step, an orb 250 and 15 more per step, both growing up
/// to combo 20 and flat from there.
pub proof fn lemma_point_ladders(combo: u16)
    ensures
        dodge_points(0) == 120,
        orb_points(0) == 250,
        combo < 20 ==> dodge_points((combo + 1) as u16) == dodge_points(combo) + 10,
        combo < 20 ==> orb_points((combo + 1) as u16) == orb_points(combo) + 15,
        combo >= 20 ==> dodge_points(combo) == dodge_points(20) && orb_points(combo) == orb_points(20),
{
}

} // verus!
