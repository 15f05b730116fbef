//! The motion runtime: per-player action bookkeeping for the beat game.
//! Two local players are seen by the camera (their poses are measured by the
//! host), two remote players arrive as action masks; evaluated gameplay
//! actions are judged against the beat and marked as hits or misses.
use vstd::prelude::*;
use crate::action::{ActionEdges, ActionSample, ACTION_COUNT, GAMEPLAY_MASK};
use crate::game_state::{GameMode, GameState, beats_advanced};
use crate::PLAYER_CAPACITY;

verus! {

/// What happened to a local player's tracked identity this frame.
#[derive(Clone, Copy, Debug, PartialEq, Eq, Structural)]
pub enum TrackingChange {
    /// The same person (or the first person) is tracked.
    Continue,
    /// A different person replaced the tracked one: recognition restarts.
    NewPerson,
    /// Nobody is tracked: held actions are dropped.
    Lost,
}

/// Tracking change from the previous to the next tracked identity.
pub open spec fn tracking_change_spec(previous_id: Option<u32>, next_id: Option<u32>) -> TrackingChange {
    if previous_id is Some && next_id is Some && previous_id != next_id {
        TrackingChange::NewPerson
    } else if next_id is None {
        TrackingChange::Lost
    } else {
        TrackingChange::Continue
    }
}

/// Tracking change from the previous to the next tracked identity.
pub fn tracking_change(previous_id: Option<u32>, next_id: Option<u32>) -> (c: TrackingChange)
    ensures
        c == tracking_change_spec(previous_id, next_id),
{
    match (previous_id, next_id) {
        (Some(a), Some(b)) => if a != b { TrackingChange::NewPerson } else { TrackingChange::Continue },
        (_, None) => TrackingChange::Lost,
        (None, Some(_)) => TrackingChange::Continue,
    }
}

/// A local player's pose this frame, as the host judged it.
#[derive(Clone, Copy, Debug)]
pub enum LocalPose {
    /// No pose.
    Absent,
    /// A pose too poor to read.
    Poor,
    /// A readable pose holding `active`, with per-action cooldown readiness.
    Seen { active: u32, cooldown_ready: [bool; ACTION_COUNT] },
}

/// A player's actions this frame. The host keeps the pose itself and the
/// calibration progress.
#[derive(Clone, Copy, Debug, PartialEq, Eq, Structural)]
pub struct PlayerMotionState {
    /// Identity of the tracked pose, if any.
    pub tracked_id: Option<u32>,
    pub evaluation_enabled: bool,
    pub active: u32,
    pub triggered: u32,
    pub hit: bool,
    pub miss: bool,
}

impl PlayerMotionState {
    pub open spec fn initial() -> PlayerMotionState {
        PlayerMotionState { tracked_id: None, evaluation_enabled: false, active: 0, triggered: 0, hit: false, miss: false }
    }

    /// The gameplay actions of this player that are judged.
    pub open spec fn attempted(self) -> u32 {
        if self.evaluation_enabled { self.triggered & GAMEPLAY_MASK } else { 0 }
    }
}

impl Default for PlayerMotionState {
    fn default() -> (s: PlayerMotionState)
        ensures
            s == PlayerMotionState::initial(),
    {
        PlayerMotionState { tracked_id: None, evaluation_enabled: false, active: 0, triggered: 0, hit: false, miss: false }
    }
}


/// Everything one frame of the motion runtime takes from the host.
#[derive(Clone, Copy, Debug)]
pub struct MotionFrame {
    /// Identity of each local player's tracked pose, if any.
    pub tracked_ids: [Option<u32>; 2],
    /// Each local player's pose as the host judged it, after restarting or
    /// dropping its recognition as `tracking_change` says.
    pub local_poses: [LocalPose; 2],
    /// Keyboard/gamepad actions of the two local players.
    pub fallback_actions: [u32; 2],
    /// Action masks of the two remote players.
    pub remote_actions: [u32; 2],
    pub evaluation_enabled: [bool; PLAYER_CAPACITY],
    pub custom_target: Option<u32>,
}

/// A local player's action sample and the mask their edge detection holds
/// afterwards, from the mask held before, the tracking change and the pose.
pub open spec fn local_step(previous: u32, change: TrackingChange, pose: LocalPose) -> (ActionSample, u32) {
    let prev = if change == TrackingChange::Continue { previous } else { 0 };
    match pose {
        LocalPose::Absent => (ActionSample { active: 0, triggered: 0 }, prev),
        LocalPose::Poor => (ActionSample { active: 0, triggered: 0 }, 0),
        LocalPose::Seen { active, cooldown_ready } => (
            ActionSample { active, triggered: active & !prev & crate::action::ready_bits(cooldown_ready) },
            active,
        ),
    }
}

/// Player `p`'s state before judging a frame: local players (0 and 1) carry
/// their tracked identity, their sample and their fallback actions; remote
/// players (2 and 3) their mask, held and triggered.
pub open spec fn framed_player(frame: MotionFrame, samples: Seq<ActionSample>, p: int) -> PlayerMotionState {
    if p < 2 {
        PlayerMotionState {
            tracked_id: frame.tracked_ids[p],
            evaluation_enabled: frame.evaluation_enabled[p],
            active: samples[p].active,
            triggered: samples[p].triggered | frame.fallback_actions[p],
            hit: false,
            miss: false,
        }
    } else {
        PlayerMotionState {
            tracked_id: None,
            evaluation_enabled: frame.evaluation_enabled[p],
            active: frame.remote_actions[p - 2],
            triggered: frame.remote_actions[p - 2],
            hit: false,
            miss: false,
        }
    }
}

/// Beat game with motion bookkeeping for four players.
#[derive(Clone, Debug)]
pub struct MotionRuntime {
    pub game: GameState,
    pub players: [PlayerMotionState; PLAYER_CAPACITY],
    /// Edge detection of the two local players.
    pub edges: [ActionEdges; 2],
}

impl MotionRuntime {
    pub open spec fn reset_for(self, mode: GameMode) -> bool {
        &&& self.game.fresh(mode)
        &&& self.game.wf()
        &&& forall|p: int| 0 <= p < 4 ==> #[trigger] self.players[p] == PlayerMotionState::initial()
        &&& self.edges[0].previous_active == 0
        &&& self.edges[1].previous_active == 0
    }

    /// A runtime for `mode` with nobody tracked.
    pub fn new(mode: GameMode) -> (r: MotionRuntime)
        ensures
            r.reset_for(mode),
    {
        let p = PlayerMotionState::default();
        MotionRuntime { game: GameState::new(mode), players: [p; PLAYER_CAPACITY], edges: [ActionEdges::new(); 2] }
    }

    /// Switches mode: the match, the players and recognition all restart.
    pub fn set_mode(&mut self, mode: GameMode)
        ensures
            final(self).reset_for(mode),
    {
        *self = MotionRuntime::new(mode);
    }

    /// Starts a frame: last frame's triggers, hits and misses are cleared.
    pub fn begin_frame(&mut self)
        ensures
            final(self).game == old(self).game,
            final(self).edges == old(self).edges,
            forall|p: int| 0 <= p < 4 ==> #[trigger] final(self).players[p] == (PlayerMotionState {
                triggered: 0, hit: false, miss: false, ..old(self).players[p] }),
    {
        let mut i: usize = 0;
        while i < PLAYER_CAPACITY
            invariant
                i <= PLAYER_CAPACITY,
                self.game == old(self).game,
                self.edges == old(self).edges,
                forall|p: int| 0 <= p < i ==> #[trigger] self.players[p] == (PlayerMotionState {
                    triggered: 0, hit: false, miss: false, ..old(self).players[p] }),
                forall|p: int| i <= p < 4 ==> #[trigger] self.players[p] == old(self).players[p],
            decreases PLAYER_CAPACITY - i,
        {
            self.players[i].triggered = 0;
            self.players[i].hit = false;
            self.players[i].miss = false;
            i = i + 1;
        }
    }

    /// Local player `player`'s tracked identity this frame. A new person
    /// restarts their edge detection, a lost one drops held actions; the
    /// host restarts or drops its own recognition state the same way.
    pub fn track_local(&mut self, player: usize, next_id: Option<u32>) -> (c: TrackingChange)
        requires
            player < 2,
        ensures
            c == tracking_change_spec(old(self).players[player as int].tracked_id, next_id),
            final(self).players[player as int] == (PlayerMotionState { tracked_id: next_id, ..old(self).players[player as int] }),
            c != TrackingChange::Continue ==> final(self).edges[player as int].previous_active == 0,
            c == TrackingChange::Continue ==> final(self).edges[player as int] == old(self).edges[player as int],
            final(self).edges[1 - player] == old(self).edges[1 - player],
            final(self).game == old(self).game,
            forall|p: int| 0 <= p < 4 && p != player ==> #[trigger] final(self).players[p] == old(self).players[p],
    {
        let c = tracking_change(self.players[player].tracked_id, next_id);
        match c {
            TrackingChange::NewPerson => {
                self.edges[player] = ActionEdges::new();
            },
            TrackingChange::Lost => {
                self.edges[player].lose_tracking();
            },
            TrackingChange::Continue => {},
        }
        self.players[player].tracked_id = next_id;
        c
    }

    /// Records local player `player`'s actions: what the pose shows (a poor
    /// pose drops held actions) plus the keyboard/gamepad fallback mask.
    pub fn record_local(&mut self, player: usize, pose: LocalPose, evaluation_enabled: bool, fallback: u32) -> (s: ActionSample)
        requires
            player < 2,
        ensures
            match pose {
                LocalPose::Absent => s == ActionSample { active: 0, triggered: 0 }
                    && final(self).edges[player as int] == old(self).edges[player as int],
                LocalPose::Poor => s == ActionSample { active: 0, triggered: 0 }
                    && final(self).edges[player as int].previous_active == 0,
                LocalPose::Seen { active, cooldown_ready } => s.active == active
                    && s.triggered == active & !old(self).edges[player as int].previous_active & crate::action::ready_bits(cooldown_ready)
                    && final(self).edges[player as int].previous_active == active,
            },
            final(self).players[player as int] == (PlayerMotionState {
                evaluation_enabled,
                active: s.active,
                triggered: s.triggered | fallback,
                ..old(self).players[player as int]
            }),
            final(self).edges[1 - player] == old(self).edges[1 - player],
            final(self).game == old(self).game,
            forall|p: int| 0 <= p < 4 && p != player ==> #[trigger] final(self).players[p] == old(self).players[p],
    {
        let sample = match pose {
            LocalPose::Absent => ActionSample::default(),
            LocalPose::Poor => {
                self.edges[player].lose_tracking();
                ActionSample::default()
            },
            LocalPose::Seen { active, cooldown_ready } => self.edges[player].update(active, cooldown_ready),
        };
        self.players[player].evaluation_enabled = evaluation_enabled;
        self.players[player].active = sample.active;
        self.players[player].triggered = sample.triggered | fallback;
        sample
    }

    /// Records remote player `remote` (player slot `remote + 2`): its mask
    /// counts as both held and triggered.
    pub fn record_remote(&mut self, remote: usize, mask: u32, evaluation_enabled: bool)
        requires
            remote < 2,
        ensures
            final(self).players[remote + 2] == (PlayerMotionState {
                tracked_id: None,
                evaluation_enabled,
                active: mask,
                triggered: mask,
                ..old(self).players[remote + 2]
            }),
            final(self).edges == old(self).edges,
            final(self).game == old(self).game,
            forall|p: int| 0 <= p < 4 && p != remote + 2 ==> #[trigger] final(self).players[p] == old(self).players[p],
    {
        let index = remote + 2;
        self.players[index].tracked_id = None;
        self.players[index].evaluation_enabled = evaluation_enabled;
        self.players[index].active = mask;
        self.players[index].triggered = mask;
    }

    /// The gameplay actions judged this frame, per player.
    pub fn evaluated_gameplay_triggered(&self) -> (masks: [u32; PLAYER_CAPACITY])
        ensures
            forall|p: int| 0 <= p < 4 ==> #[trigger] masks[p] == self.players[p].attempted(),
    {
        let mut masks = [0u32; PLAYER_CAPACITY];
        let mut i: usize = 0;
        while i < PLAYER_CAPACITY
            invariant
                i <= PLAYER_CAPACITY,
                forall|p: int| 0 <= p < i ==> #[trigger] masks[p] == self.players[p].attempted(),
            decreases PLAYER_CAPACITY - i,
        {
            masks[i] = if self.players[i].evaluation_enabled {
                self.players[i].triggered & GAMEPLAY_MASK
            } else {
                0
            };
            i = i + 1;
        }
        masks
    }

    /// Judges the frame: `beats` beat boundaries pass, then the evaluated
    /// gameplay actions are judged. A player who attempted something is
    /// marked hit if their score rose, miss otherwise.
    pub fn judge(&mut self, beats: u32, custom_target: Option<u32>)
        ensures
            ({
                let attempted = Seq::new(4, |p: int| old(self).players[p].attempted());
                exists|mid: GameState| #[trigger] beats_advanced(old(self).game, mid, beats)
                    && mid.judges_to(final(self).game, attempted, custom_target)
            }),
            final(self).edges == old(self).edges,
            forall|p: int| 0 <= p < 4 ==> {
                let before = old(self).players[p];
                let after = #[trigger] final(self).players[p];
                &&& after == (PlayerMotionState { hit: after.hit, miss: after.miss, ..before })
                &&& after.hit == (before.attempted() != 0 && final(self).game.scores[p] > old(self).game.scores[p])
                &&& after.miss == (before.attempted() != 0 && !after.hit)
            },
            old(self).game.wf() ==> final(self).game.wf(),
    {
        let masks = self.evaluated_gameplay_triggered();
        let scores_before = self.game.scores;
        self.game.update(beats, masks, custom_target);
        let ghost judged = self.game;
        let mut i: usize = 0;
        while i < PLAYER_CAPACITY
            invariant
                i <= PLAYER_CAPACITY,
                self.game == judged,
                self.edges == old(self).edges,
                scores_before == old(self).game.scores,
                forall|p: int| 0 <= p < 4 ==> #[trigger] masks[p] == old(self).players[p].attempted(),
                forall|p: int| 0 <= p < i ==> {
                    let before = old(self).players[p];
                    let after = #[trigger] self.players[p];
                    &&& after == (PlayerMotionState { hit: after.hit, miss: after.miss, ..before })
                    &&& after.hit == (before.attempted() != 0 && self.game.scores[p] > scores_before[p])
                    &&& after.miss == (before.attempted() != 0 && !after.hit)
                },
                forall|p: int| i <= p < 4 ==> #[trigger] self.players[p] == old(self).players[p],
            decreases PLAYER_CAPACITY - i,
        {
            let attempted = masks[i] != 0;
            let hit = attempted && self.game.scores[i] > scores_before[i];
            self.players[i].hit = hit;
            self.players[i].miss = attempted && !hit;
            i = i + 1;
        }
        assert(masks@ =~= Seq::new(4, |p: int| old(self).players[p].attempted()));
    }

    /// One whole frame: last frame's triggers are cleared, each local
    /// player's tracking change and pose are recorded, then the remote
    /// players' masks; `beats` beat boundaries pass and the evaluated
    /// gameplay actions are judged. Returns the local players' samples (the
    /// host restarts the cooldown of what they triggered).
    pub fn update(&mut self, beats: u32, frame: &MotionFrame) -> (samples: [ActionSample; 2])
        ensures
            forall|p: int| 0 <= p < 2 ==> (#[trigger] samples[p], final(self).edges[p].previous_active) == local_step(
                old(self).edges[p].previous_active,
                tracking_change_spec(old(self).players[p].tracked_id, frame.tracked_ids[p]),
                frame.local_poses[p],
            ),
            ({
                let attempted = Seq::new(4, |p: int| framed_player(*frame, samples@, p).attempted());
                exists|mid: GameState| #[trigger] beats_advanced(old(self).game, mid, beats)
                    && mid.judges_to(final(self).game, attempted, frame.custom_target)
            }),
            forall|p: int| 0 <= p < 4 ==> {
                let before = framed_player(*frame, samples@, p);
                let after = #[trigger] final(self).players[p];
                &&& after == (PlayerMotionState { hit: after.hit, miss: after.miss, ..before })
                &&& after.hit == (before.attempted() != 0 && final(self).game.scores[p] > old(self).game.scores[p])
                &&& after.miss == (before.attempted() != 0 && !after.hit)
            },
            old(self).game.wf() ==> final(self).game.wf(),
    {
        let ghost start = *self;
        self.begin_frame();
        self.track_local(0, frame.tracked_ids[0]);
        let first = self.record_local(0, frame.local_poses[0], frame.evaluation_enabled[0], frame.fallback_actions[0]);
        self.track_local(1, frame.tracked_ids[1]);
        let second = self.record_local(1, frame.local_poses[1], frame.evaluation_enabled[1], frame.fallback_actions[1]);
        self.record_remote(0, frame.remote_actions[0], frame.evaluation_enabled[2]);
        self.record_remote(1, frame.remote_actions[1], frame.evaluation_enabled[3]);
        let samples = [first, second];
        let ghost recorded = *self;
        proof {
            assert forall|p: int| 0 <= p < 4 implies #[trigger] recorded.players[p] == framed_player(*frame, samples@, p) by {}
            assert(recorded.game == start.game);
        }
        self.judge(beats, frame.custom_target);
        proof {
            assert(Seq::new(4, |p: int| recorded.players[p].attempted())
                =~= Seq::new(4, |p: int| framed_player(*frame, samples@, p).attempted()));
        }
        samples
    }

    /// Triggered masks of the two local players.
    pub fn local_triggered(&self) -> (t: [u32; 2])
        ensures
            t[0] == self.players[0].triggered,
            t[1] == self.players[1].triggered,
    {
        [self.players[0].triggered, self.players[1].triggered]
    }

    /// Triggered masks of the two local players, zero for an unevaluated one.
    pub fn local_evaluated_triggered(&self) -> (t: [u32; 2])
        ensures
            forall|p: int| 0 <= p < 2 ==> #[trigger] t[p] == (if self.players[p].evaluation_enabled {
                self.players[p].triggered
            } else {
                0
            }),
    {
        let first = if self.players[0].evaluation_enabled { self.players[0].triggered } else { 0 };
        let second = if self.players[1].evaluation_enabled { self.players[1].triggered } else { 0 };
        [first, second]
    }
}

} // verus!
