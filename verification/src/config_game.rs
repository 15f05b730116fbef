//! The config-driven game interpreter: a shared phase machine, scoring and
//! end conditions for any game a `GameConfig` describes, with the mechanic
//! rules that decide who acted, who scored and who broke their combo.
//!
//! The host keeps the continuous quantities (session clock, beat phase,
//! energy, hold progress, entity distances) and the floating-point point
//! values of each award; this module owns phases, combos, scores, lives,
//! the pattern sequence and the outcome.
use vstd::prelude::*;
use crate::config::{EndMode, GameConfig, Mechanic, allowed_mask, nonzero_actions};
use crate::PLAYER_CAPACITY;

verus! {

/// Maximum entities (obstacles or targets) alive at once.
pub const MAX_ENTITIES: usize = 8;
/// Length of the pattern sequence.
pub const PATTERN_LENGTH: usize = 4;

/// Phase of a config-driven session.
#[derive(Clone, Copy, Debug, PartialEq, Eq, Structural)]
pub enum ConfigPhase {
    Ready,
    Countdown,
    Active,
    Result,
}

/// Outcome of a finished session.
#[derive(Clone, Copy, Debug, PartialEq, Eq, Structural)]
pub enum ConfigOutcome {
    /// Timer expired or goal reached.
    Complete,
    /// Lives depleted.
    Depleted,
}

/// A moving entity. Its distance to the player is kept by the host.
#[derive(Clone, Copy, Debug, PartialEq, Eq, Structural)]
pub struct Entity {
    /// Lane (-1, 0, 1).
    pub lane: i8,
    /// Action mask that resolves it (0: avoid it by leaving its lane).
    pub action: u32,
    /// Already hit or resolved.
    pub resolved: bool,
}

/// A player of a config game. Hold progress is kept by the host.
#[derive(Clone, Copy, Debug, PartialEq, Eq, Structural)]
pub struct ConfigPlayer {
    pub score: u32,
    pub combo: u16,
    pub best_combo: u16,
    pub lives: u8,
    pub evaluated: bool,
    pub lane: i8,
}

impl ConfigPlayer {
    pub open spec fn initial() -> ConfigPlayer {
        ConfigPlayer { score: 0, combo: 0, best_combo: 0, lives: 0, evaluated: false, lane: 0 }
    }

    /// After an award of `points`: combo extended, best combo kept, score up.
    pub open spec fn awarded(self, points: u32) -> ConfigPlayer {
        let combo = (self.combo + 1) as u16;
        ConfigPlayer {
            combo,
            best_combo: if self.best_combo > combo { self.best_combo } else { combo },
            score: (self.score + points) as u32,
            ..self
        }
    }

    /// Room for an award of `points`.
    pub open spec fn can_award(self, points: u32) -> bool {
        self.combo < u16::MAX && self.score + points <= u32::MAX
    }
}

impl Default for ConfigPlayer {
    fn default() -> (p: ConfigPlayer)
        ensures
            p == ConfigPlayer::initial(),
    {
        ConfigPlayer { score: 0, combo: 0, best_combo: 0, lives: 0, evaluated: false, lane: 0 }
    }
}

/// Pattern slot `i` seeded from the active actions (0 when there are none).
pub open spec fn seeded_slot(actions: Seq<u32>, i: int) -> u32 {
    if actions.len() == 0 { 0 } else { actions[i % (actions.len() as int)] }
}

/// A config-driven game session.
#[derive(Clone, Debug)]
pub struct ConfigGame {
    pub phase: ConfigPhase,
    pub outcome: Option<ConfigOutcome>,
    pub players: [ConfigPlayer; PLAYER_CAPACITY],
    pub entities: [Entity; MAX_ENTITIES],
    pub entity_count: usize,
    /// Pattern sequence (pattern mechanic).
    pub pattern: [u32; PATTERN_LENGTH],
    /// Pattern position being evaluated.
    pub pattern_index: usize,
    /// A hit or score happened this frame.
    pub hit_flash: bool,
    /// A miss or crash happened this frame.
    pub miss_flash: bool,
    /// Best team score across sessions.
    pub best_score: u32,
    /// The last session set a new best.
    pub new_best: bool,
}

impl ConfigGame {
    /// Player `p`'s share of the team score: their score when evaluated.
    pub open spec fn counted_score(self, p: int) -> int {
        if self.players[p].evaluated { self.players[p].score as int } else { 0 }
    }

    /// Sum of the evaluated players' scores.
    pub open spec fn score_sum(self) -> int {
        self.counted_score(0) + self.counted_score(1) + self.counted_score(2) + self.counted_score(3)
    }

    /// Whether every evaluated player is out of lives (true when nobody is
    /// evaluated).
    pub open spec fn all_evaluated_out(self) -> bool {
        forall|p: int| 0 <= p < 4 && self.players[p].evaluated ==> #[trigger] self.players[p].lives == 0
    }

    /// A session ready to count down: players reset with the configured
    /// lives, the pattern seeded from the active actions.
    pub open spec fn run_started(self, config: GameConfig, evaluation: Seq<bool>) -> bool {
        &&& self.phase == ConfigPhase::Countdown
        &&& self.entity_count == 0
        &&& self.pattern_index == 0
        &&& self.outcome is None
        &&& !self.new_best
        &&& forall|p: int| 0 <= p < 4 ==> #[trigger] self.players[p] == (ConfigPlayer {
            evaluated: evaluation[p], lives: config.end.lives, ..ConfigPlayer::initial() })
        &&& forall|i: int| 0 <= i < 4 ==> #[trigger] self.pattern[i] == seeded_slot(nonzero_actions(config.actions@), i)
    }

    /// A new session waiting in Ready.
    pub fn new(config: &GameConfig) -> (g: ConfigGame)
        ensures
            g.phase == ConfigPhase::Ready,
            g.outcome is None,
            forall|p: int| 0 <= p < 4 ==> #[trigger] g.players[p] == ConfigPlayer::initial(),
            g.entity_count == 0,
            g.pattern_index == 0,
            forall|i: int| 0 <= i < 4 ==> #[trigger] g.pattern[i] == 0,
            !g.hit_flash && !g.miss_flash,
            g.best_score == 0,
            !g.new_best,
            forall|i: int| 0 <= i < MAX_ENTITIES ==> #[trigger] g.entities[i] == (Entity { lane: 0, action: 0, resolved: false }),
    {
        let p = ConfigPlayer::default();
        ConfigGame {
            phase: ConfigPhase::Ready,
            outcome: None,
            players: [p; PLAYER_CAPACITY],
            entities: [Entity { lane: 0, action: 0, resolved: false }; MAX_ENTITIES],
            entity_count: 0,
            pattern: [0; PATTERN_LENGTH],
            pattern_index: 0,
            hit_flash: false,
            miss_flash: false,
            best_score: 0,
            new_best: false,
        }
    }

    /// Ready (or Result) → Countdown with fresh players and pattern; the best
    /// score is kept.
    pub fn start_run(&mut self, config: &GameConfig, evaluation: [bool; PLAYER_CAPACITY])
        ensures
            final(self).run_started(*config, evaluation@),
            final(self).best_score == old(self).best_score,
            final(self).hit_flash == old(self).hit_flash,
            final(self).miss_flash == old(self).miss_flash,
            final(self).entities == old(self).entities,
    {
        let mut players = self.players;
        let mut i: usize = 0;
        while i < PLAYER_CAPACITY
            invariant
                i <= PLAYER_CAPACITY,
                forall|p: int| 0 <= p < i ==> #[trigger] players[p] == (ConfigPlayer {
                    evaluated: evaluation[p], lives: config.end.lives, ..ConfigPlayer::initial() }),
            decreases PLAYER_CAPACITY - i,
        {
            players[i] = ConfigPlayer {
                score: 0,
                combo: 0,
                best_combo: 0,
                lives: config.end.lives,
                evaluated: evaluation[i],
                lane: 0,
            };
            i = i + 1;
        }
        let actions = config.active_actions();
        let mut pattern = self.pattern;
        let mut j: usize = 0;
        while j < PATTERN_LENGTH
            invariant
                j <= PATTERN_LENGTH,
                actions@ == nonzero_actions(config.actions@),
                actions@.len() <= 3,
                forall|k: int| 0 <= k < j ==> #[trigger] pattern[k] == seeded_slot(actions@, k),
            decreases PATTERN_LENGTH - j,
        {
            pattern[j] = if actions.len() == 0 { 0 } else { actions[j % actions.len()] };
            j = j + 1;
        }
        self.players = players;
        self.pattern = pattern;
        self.phase = ConfigPhase::Countdown;
        self.entity_count = 0;
        self.pattern_index = 0;
        self.outcome = None;
        self.new_best = false;
    }

    /// Replays from Result with the same evaluated players; elsewhere does
    /// nothing and returns false.
    pub fn request_replay(&mut self, config: &GameConfig) -> (started: bool)
        ensures
            started == (old(self).phase == ConfigPhase::Result),
            !started ==> *final(self) == *old(self),
            started ==> final(self).run_started(*config, old(self).players@.map_values(|p: ConfigPlayer| p.evaluated))
                && final(self).best_score == old(self).best_score
                && final(self).hit_flash == old(self).hit_flash
                && final(self).miss_flash == old(self).miss_flash
                && final(self).entities == old(self).entities,
    {
        if self.phase != ConfigPhase::Result {
            return false;
        }
        let evaluation = [self.players[0].evaluated, self.players[1].evaluated, self.players[2].evaluated, self.players[3].evaluated];
        assert(evaluation@ =~= old(self).players@.map_values(|p: ConfigPlayer| p.evaluated));
        self.start_run(config, evaluation);
        true
    }

    /// Clears the per-frame flashes.
    pub fn begin_frame(&mut self)
        ensures
            *final(self) == (ConfigGame { hit_flash: false, miss_flash: false, ..*old(self) }),
    {
        self.hit_flash = false;
        self.miss_flash = false;
    }

    /// The start of a frame: the flashes clear; in a countdown that the host
    /// found run out (`countdown_over`) play begins. Returns whether the
    /// mechanic runs this frame (the game is active). Ready and Result
    /// frames change nothing else.
    pub fn begin_phase_frame(&mut self, countdown_over: bool) -> (active: bool)
        ensures
            active == (old(self).phase == ConfigPhase::Active),
            *final(self) == (ConfigGame {
                hit_flash: false,
                miss_flash: false,
                phase: if old(self).phase == ConfigPhase::Countdown && countdown_over {
                    ConfigPhase::Active
                } else {
                    old(self).phase
                },
                ..*old(self)
            }),
    {
        self.hit_flash = false;
        self.miss_flash = false;
        match self.phase {
            ConfigPhase::Countdown => {
                if countdown_over {
                    self.phase = ConfigPhase::Active;
                }
                false
            },
            ConfigPhase::Active => true,
            _ => false,
        }
    }

    /// The countdown ran out: play begins.
    pub fn countdown_finished(&mut self)
        ensures
            *final(self) == (ConfigGame { phase: ConfigPhase::Active, ..*old(self) }),
    {
        self.phase = ConfigPhase::Active;
    }

    /// Total score across all evaluated players.
    pub fn total_score(&self) -> (t: u32)
        requires
            self.score_sum() <= u32::MAX,
        ensures
            t == self.score_sum(),
    {
        let mut total: u32 = 0;
        let mut i: usize = 0;
        while i < PLAYER_CAPACITY
            invariant
                i <= PLAYER_CAPACITY,
                self.score_sum() <= u32::MAX,
                total == (if i > 0 { self.counted_score(0) } else { 0 })
                    + (if i > 1 { self.counted_score(1) } else { 0 })
                    + (if i > 2 { self.counted_score(2) } else { 0 })
                    + (if i > 3 { self.counted_score(3) } else { 0 }),
            decreases PLAYER_CAPACITY - i,
        {
            if self.players[i].evaluated {
                total = total + self.players[i].score;
            }
            i = i + 1;
        }
        total
    }

    /// Whether every evaluated player is out of lives.
    pub fn everyone_out(&self) -> (b: bool)
        ensures
            b == self.all_evaluated_out(),
    {
        let mut i: usize = 0;
        while i < PLAYER_CAPACITY
            invariant
                i <= PLAYER_CAPACITY,
                forall|p: int| 0 <= p < i && self.players[p].evaluated ==> #[trigger] self.players[p].lives == 0,
            decreases PLAYER_CAPACITY - i,
        {
            if self.players[i].evaluated && self.players[i].lives != 0 {
                return false;
            }
            i = i + 1;
        }
        true
    }

    /// Whether the session ends now: the end mode's condition (`time_up` for
    /// timed games), or a full energy core in a pump game.
    pub open spec fn should_end(self, config: GameConfig, time_up: bool, energy_full: bool) -> bool {
        let ended = match config.end.mode {
            EndMode::TimeBased => time_up,
            EndMode::LifeBased => self.all_evaluated_out(),
            EndMode::GoalBased => self.score_sum() >= config.end.goal_score,
        };
        ended || (config.mechanic == Mechanic::Pump && energy_full)
    }

    /// Checks the end conditions. On ending: Result phase, best score
    /// updated, outcome Depleted for a life-based game whose players are all
    /// out and Complete otherwise.
    pub fn check_end(&mut self, config: &GameConfig, time_up: bool, energy_full: bool) -> (ended: bool)
        requires
            old(self).score_sum() <= u32::MAX,
        ensures
            ended == old(self).should_end(*config, time_up, energy_full),
            !ended ==> *final(self) == *old(self),
            ended ==> {
                let score = old(self).score_sum();
                &&& final(self).phase == ConfigPhase::Result
                &&& final(self).new_best == (score > old(self).best_score)
                &&& final(self).best_score == (if score > old(self).best_score { score as u32 } else { old(self).best_score })
                &&& final(self).outcome == Some(
                    if config.end.mode == EndMode::LifeBased && old(self).all_evaluated_out() {
                        ConfigOutcome::Depleted
                    } else {
                        ConfigOutcome::Complete
                    })
                &&& *final(self) == (ConfigGame {
                    phase: final(self).phase,
                    new_best: final(self).new_best,
                    best_score: final(self).best_score,
                    outcome: final(self).outcome,
                    ..*old(self)
                })
            },
    {
        let total = self.total_score();
        let out = self.everyone_out();
        let ended = match config.end.mode {
            EndMode::TimeBased => time_up,
            EndMode::LifeBased => out,
            EndMode::GoalBased => total >= config.end.goal_score,
        };
        let pump_complete = config.mechanic == Mechanic::Pump && energy_full;
        if ended || pump_complete {
            self.phase = ConfigPhase::Result;
            self.new_best = total > self.best_score;
            if self.new_best {
                self.best_score = total;
            }
            self.outcome = Some(if config.end.mode == EndMode::LifeBased && out {
                ConfigOutcome::Depleted
            } else {
                ConfigOutcome::Complete
            });
            true
        } else {
            false
        }
    }
}

} // verus!

verus! {

impl ConfigGame {
    /// Whether player `i`'s mask performs the expected pattern action.
    pub open spec fn pattern_hit(self, i: int, mask: u32, expected: u32) -> bool {
        self.players[i].evaluated && mask != 0 && mask & expected != 0
    }

    /// The first player, from `i` on, whose mask performs the expected action.
    pub open spec fn first_pattern_hit(self, triggered: Seq<u32>, expected: u32, i: int) -> Option<int>
        decreases 4 - i,
    {
        if i >= 4 || i < 0 {
            None
        } else if self.pattern_hit(i, triggered[i], expected) {
            Some(i)
        } else {
            self.first_pattern_hit(triggered, expected, i + 1)
        }
    }

    /// Whether player `i`'s mask is a wrong but allowed action.
    pub open spec fn pattern_miss(self, config: GameConfig, i: int, mask: u32, expected: u32) -> bool {
        &&& self.players[i].evaluated
        &&& mask != 0
        &&& mask & expected == 0
        &&& mask & allowed_mask(config.actions) != 0
    }

    /// Room to complete a pattern round with `points`.
    pub open spec fn pattern_headroom(self, points: [u32; PLAYER_CAPACITY]) -> bool {
        forall|p: int| 0 <= p < 4 ==> #[trigger] self.players[p].can_award(points[p])
    }

    /// One pattern-mechanic frame.
    ///
    /// With the sequence complete, every evaluated player is awarded (points
    /// `points[p]`, computed by the host from their combo), the index
    /// restarts and, when the game has actions, the pattern is reseeded
    /// starting `shuffle` slots along. Otherwise the first evaluated player
    /// performing the expected action advances the sequence (co-op: one is
    /// enough) and extends their combo; evaluated players before them who
    /// performed a wrong allowed action lose their combo.
    pub fn pattern_step(&mut self, config: &GameConfig, triggered: [u32; PLAYER_CAPACITY], shuffle: usize, points: [u32; PLAYER_CAPACITY])
        requires
            old(self).pattern_index <= PATTERN_LENGTH,
            old(self).pattern_headroom(points),
            shuffle <= usize::MAX - PATTERN_LENGTH,
        ensures
            *final(self) == (ConfigGame {
                players: final(self).players,
                pattern: final(self).pattern,
                pattern_index: final(self).pattern_index,
                hit_flash: final(self).hit_flash,
                miss_flash: final(self).miss_flash,
                ..*old(self)
            }),
            final(self).pattern_index <= PATTERN_LENGTH,
            old(self).pattern_index >= PATTERN_LENGTH ==> {
                let actions = nonzero_actions(config.actions@);
                &&& final(self).pattern_index == 0
                &&& final(self).hit_flash
                &&& final(self).miss_flash == old(self).miss_flash
                &&& forall|p: int| 0 <= p < 4 ==> #[trigger] final(self).players[p] == (if old(self).players[p].evaluated {
                    old(self).players[p].awarded(points[p])
                } else {
                    old(self).players[p]
                })
                &&& forall|i: int| 0 <= i < 4 ==> #[trigger] final(self).pattern[i] == (if actions.len() == 0 {
                    old(self).pattern[i]
                } else {
                    actions[(i + shuffle) % (actions.len() as int)]
                })
            },
            old(self).pattern_index < PATTERN_LENGTH ==> {
                let expected = old(self).pattern[old(self).pattern_index as int];
                let first = old(self).first_pattern_hit(triggered@, expected, 0);
                let stop = match first { Some(k) => k, None => 4 };
                &&& final(self).pattern == old(self).pattern
                &&& final(self).pattern_index == old(self).pattern_index + (if first is Some { 1int } else { 0int })
                &&& final(self).hit_flash == (old(self).hit_flash || first is Some)
                &&& final(self).miss_flash == (old(self).miss_flash || exists|p: int| 0 <= p < stop
                    && old(self).pattern_miss(*config, p, triggered[p], expected))
                &&& forall|p: int| 0 <= p < 4 ==> #[trigger] final(self).players[p] == (
                    if first == Some(p) {
                        ConfigPlayer { score: old(self).players[p].score, ..old(self).players[p].awarded(0) }
                    } else if p < stop && old(self).pattern_miss(*config, p, triggered[p], expected) {
                        ConfigPlayer { combo: 0, ..old(self).players[p] }
                    } else {
                        old(self).players[p]
                    })
            },
    {
        let ghost pre = *self;
        if self.pattern_index >= PATTERN_LENGTH {
            let mut players = self.players;
            let mut i: usize = 0;
            while i < PLAYER_CAPACITY
                invariant
                    i <= PLAYER_CAPACITY,
                    pre.pattern_headroom(points),
                    forall|p: int| 0 <= p < i ==> #[trigger] players[p] == (if pre.players[p].evaluated {
                        pre.players[p].awarded(points[p])
                    } else {
                        pre.players[p]
                    }),
                    forall|p: int| i <= p < 4 ==> #[trigger] players[p] == pre.players[p],
                decreases PLAYER_CAPACITY - i,
            {
                let player = players[i];
                assert(player.can_award(points[i as int]));
                if player.evaluated {
                    let combo = player.combo + 1;
                    players[i] = ConfigPlayer {
                        combo,
                        best_combo: if player.best_combo > combo { player.best_combo } else { combo },
                        score: player.score + points[i],
                        ..player
                    };
                }
                i = i + 1;
            }
            self.players = players;
            self.hit_flash = true;
            self.pattern_index = 0;
            let actions = config.active_actions();
            if actions.len() > 0 {
                let mut pattern = self.pattern;
                let mut j: usize = 0;
                while j < PATTERN_LENGTH
                    invariant
                        j <= PATTERN_LENGTH,
                        actions@ == nonzero_actions(config.actions@),
                        actions@.len() > 0,
                        shuffle <= usize::MAX - PATTERN_LENGTH,
                        forall|k: int| 0 <= k < j ==> #[trigger] pattern[k] == actions@[(k + shuffle) % (actions@.len() as int)],
                    decreases PATTERN_LENGTH - j,
                {
                    pattern[j] = actions[(j + shuffle) % actions.len()];
                    j = j + 1;
                }
                self.pattern = pattern;
            }
            return;
        }
        let expected = self.pattern[self.pattern_index];
        let mut players = self.players;
        let mut missed = false;
        let mut advanced = false;
        let mut i: usize = 0;
        while i < PLAYER_CAPACITY
            invariant_except_break
                i <= PLAYER_CAPACITY,
                !advanced,
                pre.first_pattern_hit(triggered@, expected, 0) == pre.first_pattern_hit(triggered@, expected, i as int),
                missed == exists|p: int| 0 <= p < i && pre.pattern_miss(*config, p, triggered[p], expected),
                forall|p: int| 0 <= p < i ==> #[trigger] players[p] == (if pre.pattern_miss(*config, p, triggered[p], expected) {
                    ConfigPlayer { combo: 0, ..pre.players[p] }
                } else {
                    pre.players[p]
                }),
                forall|p: int| i <= p < 4 ==> #[trigger] players[p] == pre.players[p],
            invariant
                pre.pattern_headroom(points),
                expected == pre.pattern[pre.pattern_index as int],
            ensures
                advanced ==> {
                    let k = i as int;
                    &&& 0 <= k < 4
                    &&& pre.first_pattern_hit(triggered@, expected, 0) == Some(k)
                    &&& missed == exists|p: int| 0 <= p < k && pre.pattern_miss(*config, p, triggered[p], expected)
                    &&& forall|p: int| 0 <= p < 4 ==> #[trigger] players[p] == (
                        if p == k {
                            ConfigPlayer { score: pre.players[p].score, ..pre.players[p].awarded(0) }
                        } else if p < k && pre.pattern_miss(*config, p, triggered[p], expected) {
                            ConfigPlayer { combo: 0, ..pre.players[p] }
                        } else {
                            pre.players[p]
                        })
                },
                !advanced ==> {
                    &&& pre.first_pattern_hit(triggered@, expected, 0) is None
                    &&& missed == exists|p: int| 0 <= p < 4 && pre.pattern_miss(*config, p, triggered[p], expected)
                    &&& forall|p: int| 0 <= p < 4 ==> #[trigger] players[p] == (if pre.pattern_miss(*config, p, triggered[p], expected) {
                        ConfigPlayer { combo: 0, ..pre.players[p] }
                    } else {
                        pre.players[p]
                    })
                },
            decreases PLAYER_CAPACITY - i,
        {
            let mask = triggered[i];
            let player = players[i];
            if player.evaluated && mask != 0 {
                if mask & expected != 0 {
                    assert(player.can_award(points[i as int]));
                    let combo = player.combo + 1;
                    players[i] = ConfigPlayer {
                        combo,
                        best_combo: if player.best_combo > combo { player.best_combo } else { combo },
                        ..player
                    };
                    advanced = true;
                    break;
                } else if config.matches_action(mask) {
                    players[i] = ConfigPlayer { combo: 0, ..player };
                    missed = true;
                }
            }
            proof {
                if pre.pattern_miss(*config, i as int, triggered[i as int], expected) {
                    assert(0 <= i < i + 1 && pre.pattern_miss(*config, i as int, triggered[i as int], expected));
                }
            }
            i = i + 1;
        }
        self.players = players;
        if advanced {
            self.pattern_index = self.pattern_index + 1;
            self.hit_flash = true;
        }
        if missed {
            self.miss_flash = true;
        }
    }
}

} // verus!

verus! {

impl ConfigGame {
    /// Whether player `p` pumps this frame: evaluated, acting, with an
    /// action of this game.
    pub open spec fn pumps(self, config: GameConfig, p: int, mask: u32) -> bool {
        self.players[p].evaluated && mask != 0 && mask & allowed_mask(config.actions) != 0
    }

    /// One pump-mechanic frame. Each pumping player scores `points[p]`
    /// (from their combo before this frame, computed by the host); on the
    /// beat their combo extends and the hit flashes, off the beat it breaks.
    /// Returns who pumped (the host adds their energy).
    pub fn pump_step(&mut self, config: &GameConfig, triggered: [u32; PLAYER_CAPACITY], on_beat: bool, points: [u32; PLAYER_CAPACITY]) -> (pumped: [bool; PLAYER_CAPACITY])
        requires
            old(self).pattern_headroom(points),
        ensures
            forall|p: int| 0 <= p < 4 ==> #[trigger] pumped[p] == old(self).pumps(*config, p, triggered[p]),
            forall|p: int| 0 <= p < 4 ==> #[trigger] final(self).players[p] == (if old(self).pumps(*config, p, triggered[p]) {
                if on_beat {
                    old(self).players[p].awarded(points[p])
                } else {
                    ConfigPlayer { combo: 0, score: (old(self).players[p].score + points[p]) as u32, ..old(self).players[p] }
                }
            } else {
                old(self).players[p]
            }),
            final(self).hit_flash == (old(self).hit_flash || (on_beat && exists|p: int| 0 <= p < 4
                && old(self).pumps(*config, p, triggered[p]))),
            *final(self) == (ConfigGame { players: final(self).players, hit_flash: final(self).hit_flash, ..*old(self) }),
    {
        let ghost pre = *self;
        let mut players = self.players;
        let mut pumped = [false; PLAYER_CAPACITY];
        let mut flash = self.hit_flash;
        let mut i: usize = 0;
        while i < PLAYER_CAPACITY
            invariant
                i <= PLAYER_CAPACITY,
                pre.pattern_headroom(points),
                flash == (pre.hit_flash || (on_beat && exists|p: int| 0 <= p < i && pre.pumps(*config, p, triggered[p]))),
                forall|p: int| 0 <= p < i ==> #[trigger] pumped[p] == pre.pumps(*config, p, triggered[p]),
                forall|p: int| i <= p < 4 ==> #[trigger] pumped[p] == false,
                forall|p: int| 0 <= p < i ==> #[trigger] players[p] == (if pre.pumps(*config, p, triggered[p]) {
                    if on_beat {
                        pre.players[p].awarded(points[p])
                    } else {
                        ConfigPlayer { combo: 0, score: (pre.players[p].score + points[p]) as u32, ..pre.players[p] }
                    }
                } else {
                    pre.players[p]
                }),
                forall|p: int| i <= p < 4 ==> #[trigger] players[p] == pre.players[p],
            decreases PLAYER_CAPACITY - i,
        {
            let player = players[i];
            let mask = triggered[i];
            if player.evaluated && mask != 0 && config.matches_action(mask) {
                assert(player.can_award(points[i as int]));
                pumped[i] = true;
                if on_beat {
                    let combo = player.combo + 1;
                    players[i] = ConfigPlayer {
                        combo,
                        best_combo: if player.best_combo > combo { player.best_combo } else { combo },
                        score: player.score + points[i],
                        ..player
                    };
                    flash = true;
                    assert(0 <= i < i + 1 && pre.pumps(*config, i as int, triggered[i as int]));
                } else {
                    players[i] = ConfigPlayer { combo: 0, score: player.score + points[i], ..player };
                }
            }
            i = i + 1;
        }
        self.players = players;
        self.hit_flash = flash;
        pumped
    }

    /// Whether any evaluated player holds one of this game's actions (hold
    /// mechanic: the host advances every evaluated player's hold progress
    /// while someone holds, and decays it otherwise).
    pub fn anyone_holding(&self, config: &GameConfig, triggered: [u32; PLAYER_CAPACITY]) -> (b: bool)
        ensures
            b == exists|p: int| 0 <= p < 4 && self.players[p].evaluated
                && #[trigger] (triggered[p] & allowed_mask(config.actions)) != 0,
    {
        let mut i: usize = 0;
        while i < PLAYER_CAPACITY
            invariant
                i <= PLAYER_CAPACITY,
                forall|p: int| 0 <= p < i ==> !(self.players[p].evaluated
                    && #[trigger] (triggered[p] & allowed_mask(config.actions)) != 0),
            decreases PLAYER_CAPACITY - i,
        {
            if self.players[i].evaluated && config.matches_action(triggered[i]) {
                return true;
            }
            i = i + 1;
        }
        false
    }

    /// A completed hold (or any single award) for player `player`: combo
    /// extended, `points` scored, the hit flashes.
    pub fn award(&mut self, player: usize, points: u32)
        requires
            player < PLAYER_CAPACITY,
            old(self).players[player as int].can_award(points),
        ensures
            *final(self) == (ConfigGame { players: final(self).players, hit_flash: true, ..*old(self) }),
            final(self).players@ == old(self).players@.update(player as int, old(self).players[player as int].awarded(points)),
    {
        let p = self.players[player];
        let combo = p.combo + 1;
        self.players[player] = ConfigPlayer {
            combo,
            best_combo: if p.best_combo > combo { p.best_combo } else { combo },
            score: p.score + points,
            ..p
        };
        self.hit_flash = true;
    }
}

/// When a session ends. A pump game ends as soon as its energy core is full,
/// whatever its end mode and clock; a timed game ends when its time is up,
/// whatever its mechanic. A full core ends nothing in a game of another
/// mechanic, and the clock ends nothing in a game with another end mode.
/// Ending moves the game to the result screen.
pub proof fn lemma_when_sessions_end(g: ConfigGame, config: GameConfig, time_up: bool, energy_full: bool)
    ensures
        config.mechanic == Mechanic::Pump ==> g.should_end(config, time_up, true),
        config.end.mode == EndMode::TimeBased ==> g.should_end(config, true, energy_full),
        config.mechanic != Mechanic::Pump ==> g.should_end(config, time_up, true) == g.should_end(config, time_up, false),
        config.end.mode != EndMode::TimeBased ==> g.should_end(config, true, energy_full) == g.should_end(config, false, energy_full),
        config.mechanic != Mechanic::Pump && config.end.mode == EndMode::TimeBased ==> !g.should_end(config, false, energy_full),
        config.end.mode == EndMode::GoalBased && g.score_sum() >= config.end.goal_score
            ==> g.should_end(config, time_up, energy_full),
        config.end.mode == EndMode::GoalBased && config.mechanic != Mechanic::Pump && g.score_sum() < config.end.goal_score
            ==> !g.should_end(config, time_up, energy_full),
        config.end.mode == EndMode::LifeBased && (forall|p: int| 0 <= p < 4 && g.players[p].evaluated ==> #[trigger] g.players[p].lives == 0)
            ==> g.should_end(config, time_up, energy_full),
        config.end.mode == EndMode::LifeBased && config.mechanic != Mechanic::Pump
            && (exists|p: int| 0 <= p < 4 && g.players[p].evaluated && #[trigger] g.players[p].lives > 0)
            ==> !g.should_end(config, time_up, energy_full),
{
}

} // verus!
