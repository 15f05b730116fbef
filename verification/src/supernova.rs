//! Supernova Freeze Party: dance rounds charge a shared energy core, freeze
//! rounds reward holding still with stars, and the core bursts into a
//! supernova when full or when the session ends.
//!
//! The host keeps the continuous quantities (timers, energy, beat phase) and
//! reports what they imply; this module owns phases, rounds, hits, combos,
//! stars, the final score and personal bests.
use vstd::prelude::*;
use crate::action::{Action, GAMEPLAY_MASK};
use crate::PLAYER_CAPACITY;

verus! {

/// Points per perfect-freeze star in the final score.
pub const STAR_POINTS: u32 = 150;
/// Points per step of the best combo in the final score.
pub const COMBO_POINTS: u32 = 40;
/// Bonus for filling the core.
pub const FULL_SUPERNOVA_BONUS: u32 = 500;
/// Most points the core's energy can give (a full core).
pub const MAX_ENERGY_POINTS: u32 = 1000;

#[derive(Clone, Copy, Debug, PartialEq, Eq, Structural)]
pub enum SupernovaPhase {
    Ready,
    Countdown,
    /// Music on: dance to charge the core.
    Dance,
    /// Music stops: hold perfectly still.
    Freeze,
    /// Supernova celebration.
    Drop,
    Result,
}

#[derive(Clone, Copy, Debug, PartialEq, Eq, Structural)]
pub enum SupernovaOutcome {
    /// The core reached full energy.
    FullSupernova,
    /// The session ran out before the core was full.
    TimeExpired,
}

/// A dancer's counters. The energy a dancer contributed is kept by the host.
#[derive(Clone, Copy, Debug, PartialEq, Eq, Structural)]
pub struct SupernovaPlayer {
    pub hits: u16,
    pub on_beat_hits: u16,
    pub combo: u16,
    pub best_combo: u16,
    pub evaluated: bool,
}

impl SupernovaPlayer {
    pub open spec fn initial(evaluated: bool) -> SupernovaPlayer {
        SupernovaPlayer { hits: 0, on_beat_hits: 0, combo: 0, best_combo: 0, evaluated }
    }
}

impl Default for SupernovaPlayer {
    fn default() -> (p: SupernovaPlayer)
        ensures
            p == SupernovaPlayer::initial(false),
    {
        SupernovaPlayer { hits: 0, on_beat_hits: 0, combo: 0, best_combo: 0, evaluated: false }
    }
}

/// Per-frame feedback of a dancer.
#[derive(Clone, Copy, Debug, PartialEq, Eq, Structural)]
pub struct SupernovaFeedback {
    /// An action landed on the beat this frame.
    pub on_beat: bool,
    /// An action registered this frame.
    pub hit: bool,
}

/// Phase change the host mirrors in its timers.
#[derive(Clone, Copy, Debug, PartialEq, Eq, Structural)]
pub enum SupernovaTransition {
    Stay,
    /// A dance round began (dance timer, freeze clock reset).
    Dance,
    /// A freeze round began (freeze timer, freeze clock reset).
    Freeze,
    /// The drop began (drop timer).
    Drop,
    /// The celebration ended.
    Result,
}

/// The final score: energy points, 150 per star, 40 per best-combo step and
/// 500 for a full supernova.
pub open spec fn final_score(energy_points: u32, stars: u8, best_combo: u16, outcome: SupernovaOutcome) -> int {
    energy_points + stars * 150 + best_combo * 40 + if outcome == SupernovaOutcome::FullSupernova { 500int } else { 0int }
}

/// Number of `true` entries.
pub open spec fn count_flags(s: Seq<bool>) -> int
    decreases s.len(),
{
    if s.len() == 0 {
        0
    } else {
        count_flags(s.drop_last()) + if s.last() { 1int } else { 0int }
    }
}

/// The freeze-dance game.
#[derive(Clone, Debug)]
pub struct SupernovaGame {
    pub phase: SupernovaPhase,
    pub players: [SupernovaPlayer; PLAYER_CAPACITY],
    pub feedback: [SupernovaFeedback; PLAYER_CAPACITY],
    /// Shared combo across dancers.
    pub combo: u16,
    pub best_combo: u16,
    /// Stars from perfect freezes.
    pub freeze_stars: u8,
    /// Current round (1-based once dancing).
    pub round: u8,
    pub score: u32,
    pub best_score: u32,
    pub new_best: bool,
    pub outcome: Option<SupernovaOutcome>,
    /// A perfect freeze was awarded this frame.
    pub perfect_freeze: bool,
    /// Someone moved during the freeze this frame.
    pub freeze_wobble: bool,
    pub beat_index: u32,
    /// The drop began this frame.
    pub drop_triggered: bool,
}

impl SupernovaGame {
    /// Combos never exceed their bests.
    pub open spec fn wf(self) -> bool {
        &&& self.combo <= self.best_combo
        &&& forall|p: int| 0 <= p < 4 ==> #[trigger] self.players[p].combo <= self.players[p].best_combo
    }

    /// Room in the counters for one more frame of hits (each hit adds one to
    /// a dancer's counters and to the shared combo).
    pub open spec fn has_headroom(self) -> bool {
        &&& self.combo <= u16::MAX - 4
        &&& forall|p: int| #![trigger self.players[p]] 0 <= p < 4 ==> {
            &&& self.players[p].hits < u16::MAX
            &&& self.players[p].on_beat_hits < u16::MAX
            &&& self.players[p].combo < u16::MAX
        }
    }

    /// Frame flags all cleared.
    pub open spec fn frame_cleared(self) -> bool {
        &&& forall|p: int| 0 <= p < 4 ==> #[trigger] self.feedback[p] == (SupernovaFeedback { on_beat: false, hit: false })
        &&& !self.drop_triggered
        &&& !self.perfect_freeze
        &&& !self.freeze_wobble
    }

    /// The state of a fresh run: counters zero, bests kept elsewhere.
    pub open spec fn run_reset(self, evaluation: Seq<bool>) -> bool {
        &&& self.combo == 0
        &&& self.best_combo == 0
        &&& self.freeze_stars == 0
        &&& self.round == 0
        &&& self.score == 0
        &&& !self.new_best
        &&& self.outcome is None
        &&& !self.perfect_freeze
        &&& !self.freeze_wobble
        &&& self.beat_index == 0
        &&& !self.drop_triggered
        &&& forall|p: int| 0 <= p < 4 ==> #[trigger] self.players[p] == SupernovaPlayer::initial(evaluation[p])
    }

    /// A new game waiting in Ready.
    pub fn new() -> (g: SupernovaGame)
        ensures
            g.phase == SupernovaPhase::Ready,
            g.run_reset(Seq::new(4, |p: int| false)),
            g.best_score == 0,
            g.frame_cleared(),
            g.wf(),
    {
        let p = SupernovaPlayer::default();
        SupernovaGame {
            phase: SupernovaPhase::Ready,
            players: [p; PLAYER_CAPACITY],
            feedback: [SupernovaFeedback { on_beat: false, hit: false }; PLAYER_CAPACITY],
            combo: 0,
            best_combo: 0,
            freeze_stars: 0,
            round: 0,
            score: 0,
            best_score: 0,
            new_best: false,
            outcome: None,
            perfect_freeze: false,
            freeze_wobble: false,
            beat_index: 0,
            drop_triggered: false,
        }
    }

    /// Starts a run (Ready → Countdown) with the given evaluated dancers; the
    /// personal best is kept.
    #[verifier::loop_isolation(false)]
    pub fn start_run(&mut self, evaluation_enabled: [bool; PLAYER_CAPACITY])
        ensures
            final(self).phase == SupernovaPhase::Countdown,
            final(self).run_reset(evaluation_enabled@),
            final(self).best_score == old(self).best_score,
            final(self).feedback == old(self).feedback,
            final(self).wf(),
    {
        let mut players = self.players;
        let mut i: usize = 0;
        while i < PLAYER_CAPACITY
            invariant
                i <= PLAYER_CAPACITY,
                forall|p: int| 0 <= p < i ==> players[p] == SupernovaPlayer::initial(evaluation_enabled[p]),
            decreases PLAYER_CAPACITY - i,
        {
            players[i] = SupernovaPlayer {
                hits: 0,
                on_beat_hits: 0,
                combo: 0,
                best_combo: 0,
                evaluated: evaluation_enabled[i],
            };
            i = i + 1;
        }
        self.players = players;
        self.phase = SupernovaPhase::Countdown;
        self.combo = 0;
        self.best_combo = 0;
        self.freeze_stars = 0;
        self.round = 0;
        self.score = 0;
        self.new_best = false;
        self.outcome = None;
        self.perfect_freeze = false;
        self.freeze_wobble = false;
        self.beat_index = 0;
        self.drop_triggered = false;
    }

    /// Replays from the Result screen with the same dancers; elsewhere does
    /// nothing and returns false.
    #[verifier::loop_isolation(false)]
    pub fn request_replay(&mut self) -> (started: bool)
        ensures
            started == (old(self).phase == SupernovaPhase::Result),
            !started ==> *final(self) == *old(self),
            started ==> final(self).phase == SupernovaPhase::Countdown
                && final(self).run_reset(old(self).players@.map_values(|p: SupernovaPlayer| p.evaluated))
                && final(self).best_score == old(self).best_score,
    {
        if self.phase != SupernovaPhase::Result {
            return false;
        }
        let mut evaluation = [false; PLAYER_CAPACITY];
        let mut i: usize = 0;
        while i < PLAYER_CAPACITY
            invariant
                i <= PLAYER_CAPACITY,
                forall|p: int| 0 <= p < i ==> evaluation[p] == self.players[p].evaluated,
            decreases PLAYER_CAPACITY - i,
        {
            evaluation[i] = self.players[i].evaluated;
            i = i + 1;
        }
        self.start_run(evaluation);
        true
    }
}

} // verus!

verus! {

impl SupernovaGame {
    /// `next` is `self` after the drop begins with `outcome`, the core
    /// holding `energy_points`: score computed, best updated, drop phase.
    pub open spec fn drops_to(self, next: SupernovaGame, outcome: SupernovaOutcome, energy_points: u32) -> bool {
        let score = final_score(energy_points, self.freeze_stars, self.best_combo, outcome);
        &&& next.outcome == Some(outcome)
        &&& next.drop_triggered
        &&& next.score == score
        &&& next.new_best == (score > self.best_score)
        &&& next.best_score == (if score > self.best_score { score as u32 } else { self.best_score })
        &&& next.phase == SupernovaPhase::Drop
        &&& next.players == self.players
        &&& next.feedback == self.feedback
        &&& next.combo == self.combo
        &&& next.best_combo == self.best_combo
        &&& next.freeze_stars == self.freeze_stars
        &&& next.round == self.round
        &&& next.perfect_freeze == self.perfect_freeze
        &&& next.freeze_wobble == self.freeze_wobble
        &&& next.beat_index == self.beat_index
    }

    /// `next` is `self` with phase `phase` and everything else unchanged.
    pub open spec fn only_phase(self, next: SupernovaGame, phase: SupernovaPhase) -> bool {
        next == SupernovaGame { phase, ..self }
    }

    /// `next` is `self` with a new dance round begun.
    pub open spec fn dance_round_from(self, next: SupernovaGame) -> bool {
        next == SupernovaGame { phase: SupernovaPhase::Dance, round: self.round.saturating_add(1), ..self }
    }

    /// Clears the per-frame feedback and flags.
    pub fn begin_frame(&mut self)
        ensures
            final(self).frame_cleared(),
            *final(self) == (SupernovaGame {
                feedback: final(self).feedback,
                drop_triggered: false,
                perfect_freeze: false,
                freeze_wobble: false,
                ..*old(self)
            }),
    {
        self.feedback = [SupernovaFeedback { on_beat: false, hit: false }; PLAYER_CAPACITY];
        self.drop_triggered = false;
        self.perfect_freeze = false;
        self.freeze_wobble = false;
    }

    fn begin_dance_round(&mut self)
        ensures
            old(self).dance_round_from(*final(self)),
    {
        self.phase = SupernovaPhase::Dance;
        self.round = self.round.saturating_add(1);
    }

    /// The countdown ran out: the first dance round begins.
    pub fn countdown_finished(&mut self) -> (t: SupernovaTransition)
        ensures
            old(self).dance_round_from(*final(self)),
            t == SupernovaTransition::Dance,
    {
        self.begin_dance_round();
        SupernovaTransition::Dance
    }

    /// A beat boundary was crossed during a dance round.
    pub fn beat(&mut self)
        ensures
            *final(self) == (SupernovaGame {
                beat_index: if old(self).beat_index == u32::MAX { 0 } else { (old(self).beat_index + 1) as u32 },
                ..*old(self)
            }),
    {
        self.beat_index = self.beat_index.wrapping_add(1);
    }

    /// Number of evaluated dancers.
    pub open spec fn evaluated_count(self) -> int {
        count_flags(Seq::new(4, |p: int| self.players[p].evaluated))
    }

    /// Number of evaluated dancers.
    pub fn active_player_count(&self) -> (n: usize)
        ensures
            n == self.evaluated_count(),
            n <= PLAYER_CAPACITY,
    {
        let mut n: usize = 0;
        let mut i: usize = 0;
        while i < PLAYER_CAPACITY
            invariant
                i <= PLAYER_CAPACITY,
                n == count_flags(Seq::new(4, |p: int| self.players[p].evaluated).take(i as int)),
                n <= i,
            decreases PLAYER_CAPACITY - i,
        {
            proof {
                assert(Seq::new(4, |p: int| self.players[p].evaluated).take(i as int + 1).drop_last()
                    =~= Seq::new(4, |p: int| self.players[p].evaluated).take(i as int));
            }
            if self.players[i].evaluated {
                n = n + 1;
            }
            i = i + 1;
        }
        assert(Seq::new(4, |p: int| self.players[p].evaluated).take(4) =~= Seq::new(4, |p: int| self.players[p].evaluated));
        n
    }

    /// The drop begins with `outcome`, the core holding `energy_points`
    /// (its energy times 1000, rounded down).
    pub fn trigger_drop(&mut self, outcome: SupernovaOutcome, energy_points: u32) -> (t: SupernovaTransition)
        requires
            energy_points <= MAX_ENERGY_POINTS,
        ensures
            old(self).drops_to(*final(self), outcome, energy_points),
            t == SupernovaTransition::Drop,
    {
        self.outcome = Some(outcome);
        self.drop_triggered = true;
        let star_bonus: u32 = self.freeze_stars as u32 * STAR_POINTS;
        let combo_bonus: u32 = self.best_combo as u32 * COMBO_POINTS;
        let full_bonus: u32 = match outcome {
            SupernovaOutcome::FullSupernova => FULL_SUPERNOVA_BONUS,
            SupernovaOutcome::TimeExpired => 0,
        };
        self.score = energy_points + star_bonus + combo_bonus + full_bonus;
        self.new_best = self.score > self.best_score;
        if self.new_best {
            self.best_score = self.score;
        }
        self.phase = SupernovaPhase::Drop;
        SupernovaTransition::Drop
    }

    /// Whether dancer `p` registers a dance hit: evaluated, showing a
    /// gameplay action and with the hit cooldown run out.
    pub open spec fn dance_hit(self, p: int, triggered: [u32; PLAYER_CAPACITY], cooled: [bool; PLAYER_CAPACITY]) -> bool {
        self.players[p].evaluated && triggered[p] & GAMEPLAY_MASK != 0 && cooled[p]
    }

    /// Whether an evaluated dancer holds a gameplay action.
    pub open spec fn someone_moving(self, active: [u32; PLAYER_CAPACITY]) -> bool {
        exists|p: int| 0 <= p < 4 && self.players[p].evaluated && active[p] & GAMEPLAY_MASK != 0
    }

    /// Dance hits of one frame. An evaluated dancer whose gameplay mask is
    /// non-empty and whose hit cooldown has run out (`cooled`) registers a
    /// hit; on the beat it extends their combo and the shared combo,
    /// off the beat it breaks both. Returns, per dancer who hit, the shared
    /// combo right after the hit (the host's energy multiplier).
    pub fn dance_hits(&mut self, triggered: [u32; PLAYER_CAPACITY], cooled: [bool; PLAYER_CAPACITY], on_beat: bool) -> (hits: [Option<u16>; PLAYER_CAPACITY])
        requires
            old(self).has_headroom(),
        ensures
            final(self).phase == old(self).phase,
            final(self).round == old(self).round,
            final(self).freeze_stars == old(self).freeze_stars,
            final(self).score == old(self).score,
            final(self).best_score == old(self).best_score,
            final(self).beat_index == old(self).beat_index,
            final(self).new_best == old(self).new_best,
            final(self).outcome == old(self).outcome,
            final(self).perfect_freeze == old(self).perfect_freeze,
            final(self).freeze_wobble == old(self).freeze_wobble,
            final(self).drop_triggered == old(self).drop_triggered,
            old(self).wf() ==> final(self).wf(),
            forall|p: int| #![trigger final(self).players[p]] #![trigger final(self).feedback[p]] #![trigger hits[p]] 0 <= p < 4 ==> {
                let before = old(self).players[p];
                let after = final(self).players[p];
                let hit = old(self).dance_hit(p, triggered, cooled);
                &&& (hits[p] is Some) == hit
                &&& after.evaluated == before.evaluated
                &&& after.hits == (if hit { before.hits + 1 } else { before.hits as int })
                &&& after.on_beat_hits == (if hit && on_beat { before.on_beat_hits + 1 } else { before.on_beat_hits as int })
                &&& after.combo == (if hit { if on_beat { before.combo + 1 } else { 0 } } else { before.combo as int })
                &&& after.best_combo == (if hit && on_beat && before.combo + 1 > before.best_combo {
                    before.combo + 1
                } else {
                    before.best_combo as int
                })
                &&& final(self).feedback[p] == (if hit { SupernovaFeedback { on_beat, hit: true } } else { old(self).feedback[p] })
            },
            forall|p: int| 0 <= p < 4 && #[trigger] hits[p] is Some ==> hits[p]->0 == (if on_beat {
                old(self).combo + count_flags(hits@.map_values(|h: Option<u16>| h is Some).take(p + 1))
            } else {
                0
            }),
            on_beat ==> final(self).combo == old(self).combo + count_flags(hits@.map_values(|h: Option<u16>| h is Some)),
            on_beat && (exists|p: int| 0 <= p < 4 && hits[p] is Some) ==> final(self).best_combo == (
                if final(self).combo > old(self).best_combo { final(self).combo } else { old(self).best_combo }),
            !(on_beat && (exists|p: int| 0 <= p < 4 && hits[p] is Some)) ==> final(self).best_combo == old(self).best_combo,
            !on_beat && (exists|p: int| 0 <= p < 4 && hits[p] is Some) ==> final(self).combo == 0,
            (forall|p: int| 0 <= p < 4 ==> hits[p] is None) ==> final(self).combo == old(self).combo,
    {
        let ghost pre = *self;
        let mut hits: [Option<u16>; PLAYER_CAPACITY] = [None; PLAYER_CAPACITY];
        let ghost mut any_hit = false;
        let mut i: usize = 0;
        while i < PLAYER_CAPACITY
            invariant
                i <= PLAYER_CAPACITY,
                self.phase == pre.phase,
                self.round == pre.round,
                self.freeze_stars == pre.freeze_stars,
                self.score == pre.score,
                self.best_score == pre.best_score,
                self.beat_index == pre.beat_index,
                self.new_best == pre.new_best,
                self.outcome == pre.outcome,
                self.perfect_freeze == pre.perfect_freeze,
                self.freeze_wobble == pre.freeze_wobble,
                self.drop_triggered == pre.drop_triggered,
                pre.has_headroom(),
                self.combo <= pre.combo + i,
                pre.wf() ==> self.wf(),
                forall|p: int| i <= p < 4 ==> #[trigger] self.players[p] == pre.players[p],
                forall|p: int| i <= p < 4 ==> #[trigger] self.feedback[p] == pre.feedback[p],
                forall|p: int| i <= p < 4 ==> #[trigger] hits[p] is None,
                forall|p: int| #![trigger self.players[p]] #![trigger self.feedback[p]] #![trigger hits[p]] 0 <= p < i ==> {
                    let before = pre.players[p];
                    let after = self.players[p];
                    let hit = before.evaluated && triggered[p] & GAMEPLAY_MASK != 0 && cooled[p];
                    &&& (hits[p] is Some) == hit
                    &&& after.evaluated == before.evaluated
                    &&& after.hits == (if hit { before.hits + 1 } else { before.hits as int })
                    &&& after.on_beat_hits == (if hit && on_beat { before.on_beat_hits + 1 } else { before.on_beat_hits as int })
                    &&& after.combo == (if hit { if on_beat { before.combo + 1 } else { 0 } } else { before.combo as int })
                    &&& after.best_combo == (if hit && on_beat && before.combo + 1 > before.best_combo {
                        before.combo + 1
                    } else {
                        before.best_combo as int
                    })
                    &&& self.feedback[p] == (if hit { SupernovaFeedback { on_beat, hit: true } } else { pre.feedback[p] })
                },
                on_beat && any_hit ==> self.best_combo == (if self.combo > pre.best_combo { self.combo } else { pre.best_combo }),
                !(on_beat && any_hit) ==> self.best_combo == pre.best_combo,
                on_beat ==> self.combo == pre.combo + count_flags(hits@.map_values(|h: Option<u16>| h is Some).take(i as int)),
                forall|p: int| 0 <= p < i && #[trigger] hits[p] is Some ==> hits[p]->0 == (if on_beat {
                    pre.combo + count_flags(hits@.map_values(|h: Option<u16>| h is Some).take(p + 1))
                } else {
                    0
                }),
                any_hit == (exists|p: int| 0 <= p < i && hits[p] is Some),
                !on_beat && any_hit ==> self.combo == 0,
                !any_hit ==> self.combo == pre.combo,
            decreases PLAYER_CAPACITY - i,
        {
            let ghost hits_before = hits@;
            let ghost had = any_hit;
            let player = self.players[i];
            assert(player == pre.players[i as int]);
            assert(player.hits < u16::MAX && player.on_beat_hits < u16::MAX && player.combo < u16::MAX);
            if player.evaluated && triggered[i] & GAMEPLAY_MASK != 0 && cooled[i] {
                self.players[i].hits = player.hits + 1;
                self.feedback[i] = SupernovaFeedback { on_beat, hit: true };
                if on_beat {
                    self.players[i].on_beat_hits = player.on_beat_hits + 1;
                    let combo = player.combo + 1;
                    self.players[i].combo = combo;
                    self.players[i].best_combo = if player.best_combo > combo { player.best_combo } else { combo };
                    self.combo = self.combo + 1;
                    self.best_combo = if self.best_combo > self.combo { self.best_combo } else { self.combo };
                } else {
                    self.players[i].combo = 0;
                    self.combo = 0;
                }
                hits[i] = Some(self.combo);
                proof {
                    any_hit = true;
                }
            }
            proof {
                if had {
                    let w = choose|p: int| 0 <= p < i && hits_before[p] is Some;
                    assert(hits[w] is Some);
                }
                if hits[i as int] is Some {
                    assert(0 <= i < i + 1 && hits[i as int] is Some);
                }
                let flags = hits@.map_values(|h: Option<u16>| h is Some);
                let flags_before = hits_before.map_values(|h: Option<u16>| h is Some);
                assert(flags.take(i as int + 1).drop_last() =~= flags_before.take(i as int));
                assert forall|q: int| 0 <= q < i implies #[trigger] flags.take(q + 1) == flags_before.take(q + 1) by {
                    assert(flags.take(q + 1) =~= flags_before.take(q + 1));
                }
            }
            i = i + 1;
        }
        assert(hits@.map_values(|h: Option<u16>| h is Some).take(4) =~= hits@.map_values(|h: Option<u16>| h is Some));
        hits
    }

    /// End of a dance frame: a full core goes supernova; otherwise a dance
    /// round that ran out becomes a freeze round; otherwise an exhausted
    /// session ends in a partial burst.
    pub fn end_dance_frame(&mut self, core_full: bool, round_over: bool, session_over: bool, energy_points: u32) -> (t: SupernovaTransition)
        requires
            energy_points <= MAX_ENERGY_POINTS,
        ensures
            core_full ==> old(self).drops_to(*final(self), SupernovaOutcome::FullSupernova, energy_points)
                && t == SupernovaTransition::Drop,
            !core_full && round_over ==> old(self).only_phase(*final(self), SupernovaPhase::Freeze)
                && t == SupernovaTransition::Freeze,
            !core_full && !round_over && session_over ==> old(self).drops_to(*final(self), SupernovaOutcome::TimeExpired, energy_points)
                && t == SupernovaTransition::Drop,
            !core_full && !round_over && !session_over ==> *final(self) == *old(self) && t == SupernovaTransition::Stay,
    {
        if core_full {
            return self.trigger_drop(SupernovaOutcome::FullSupernova, energy_points);
        }
        if round_over {
            self.phase = SupernovaPhase::Freeze;
            return SupernovaTransition::Freeze;
        }
        if session_over {
            return self.trigger_drop(SupernovaOutcome::TimeExpired, energy_points);
        }
        SupernovaTransition::Stay
    }

    /// Whether an evaluated dancer holds a gameplay action.
    pub fn anyone_moving(&self, active: [u32; PLAYER_CAPACITY]) -> (b: bool)
        ensures
            b == self.someone_moving(active),
    {
        let mut i: usize = 0;
        while i < PLAYER_CAPACITY
            invariant
                i <= PLAYER_CAPACITY,
                forall|p: int| 0 <= p < i ==> !(self.players[p].evaluated && active[p] & GAMEPLAY_MASK != 0),
            decreases PLAYER_CAPACITY - i,
        {
            if self.players[i].evaluated && active[i] & GAMEPLAY_MASK != 0 {
                return true;
            }
            i = i + 1;
        }
        false
    }

    /// Freeze-round stillness check. Past the reaction grace, an evaluated
    /// dancer holding a gameplay action wobbles the freeze; returns whether
    /// this frame's time counts as movement.
    pub fn freeze_motion(&mut self, active: [u32; PLAYER_CAPACITY], past_grace: bool) -> (moving: bool)
        ensures
            moving == (past_grace && old(self).someone_moving(active)),
            *final(self) == (SupernovaGame { freeze_wobble: old(self).freeze_wobble || moving, ..*old(self) }),
    {
        let moving = past_grace && self.anyone_moving(active);
        if moving {
            self.freeze_wobble = true;
        }
        moving
    }

    /// End of a freeze frame. When the round is over a perfect freeze earns
    /// a star (and the host adds bonus energy); a full core then goes
    /// supernova, otherwise dancing resumes. When the round goes on, an
    /// exhausted session ends in a partial burst.
    pub fn end_freeze_frame(&mut self, round_over: bool, perfect: bool, core_full: bool, session_over: bool, energy_points: u32) -> (t: SupernovaTransition)
        requires
            energy_points <= MAX_ENERGY_POINTS,
        ensures
            round_over ==> {
                let starred = SupernovaGame {
                    freeze_stars: if perfect { old(self).freeze_stars.saturating_add(1) } else { old(self).freeze_stars },
                    perfect_freeze: old(self).perfect_freeze || perfect,
                    ..*old(self)
                };
                &&& core_full ==> starred.drops_to(*final(self), SupernovaOutcome::FullSupernova, energy_points)
                    && t == SupernovaTransition::Drop
                &&& !core_full ==> starred.dance_round_from(*final(self)) && t == SupernovaTransition::Dance
            },
            !round_over && session_over ==> old(self).drops_to(*final(self), SupernovaOutcome::TimeExpired, energy_points)
                && t == SupernovaTransition::Drop,
            !round_over && !session_over ==> *final(self) == *old(self) && t == SupernovaTransition::Stay,
    {
        if round_over {
            if perfect {
                self.freeze_stars = self.freeze_stars.saturating_add(1);
                self.perfect_freeze = true;
            }
            if core_full {
                return self.trigger_drop(SupernovaOutcome::FullSupernova, energy_points);
            }
            self.begin_dance_round();
            return SupernovaTransition::Dance;
        }
        if session_over {
            return self.trigger_drop(SupernovaOutcome::TimeExpired, energy_points);
        }
        SupernovaTransition::Stay
    }

    /// The drop celebration ended: show the result.
    pub fn drop_finished(&mut self) -> (t: SupernovaTransition)
        ensures
            old(self).only_phase(*final(self), SupernovaPhase::Result),
            t == SupernovaTransition::Result,
    {
        self.phase = SupernovaPhase::Result;
        SupernovaTransition::Result
    }
}

/// The final score never overflows and a new best is recorded exactly when
/// the score beats the previous best; the best never decreases.
pub proof fn lemma_drop_score_and_best(g: SupernovaGame, next: SupernovaGame, outcome: SupernovaOutcome, energy_points: u32)
    requires
        energy_points <= MAX_ENERGY_POINTS,
        g.drops_to(next, outcome, energy_points),
    ensures
        next.score == final_score(energy_points, g.freeze_stars, g.best_combo, outcome),
        next.score <= 1000 + 255 * 150 + 65535 * 40 + 500,
        next.best_score >= g.best_score,
        next.best_score >= next.score,
        next.new_best <==> next.score > g.best_score,
        outcome == SupernovaOutcome::FullSupernova ==> next.score >= 500,
{
}

/// Only evaluated dancers' inputs count: trigger masks that agree on the
/// evaluated dancers give every dancer the same dance hit, and held masks
/// that agree on them give the same freeze verdict.
pub proof fn lemma_unevaluated_dancers_ignored(g: SupernovaGame, t1: [u32; PLAYER_CAPACITY], t2: [u32; PLAYER_CAPACITY],
    a1: [u32; PLAYER_CAPACITY], a2: [u32; PLAYER_CAPACITY], cooled: [bool; PLAYER_CAPACITY])
    requires
        forall|p: int| 0 <= p < 4 && g.players[p].evaluated ==> t1[p] == t2[p] && a1[p] == a2[p],
    ensures
        forall|p: int| 0 <= p < 4 ==> g.dance_hit(p, t1, cooled) == #[trigger] g.dance_hit(p, t2, cooled),
        g.someone_moving(a1) == g.someone_moving(a2),
{
    if g.someone_moving(a1) {
        let p = choose|p: int| 0 <= p < 4 && g.players[p].evaluated && a1[p] & GAMEPLAY_MASK != 0;
        assert(a2[p] & GAMEPLAY_MASK != 0);
    }
    if g.someone_moving(a2) {
        let p = choose|p: int| 0 <= p < 4 && g.players[p].evaluated && a2[p] & GAMEPLAY_MASK != 0;
        assert(a1[p] & GAMEPLAY_MASK != 0);
    }
}

/// The actions that count as movement: every gameplay action, neither the
/// pause pose nor hands down.
pub open spec fn is_gameplay_action(a: Action) -> bool {
    a != Action::Pause && a != Action::HandsDown
}

proof fn lemma_gameplay_bits(x: u32)
    ensures
        (x & GAMEPLAY_MASK != 0) == (x & 1 != 0 || x & 2 != 0 || x & 4 != 0 || x & 8 != 0
            || x & 16 != 0 || x & 32 != 0 || x & 64 != 0),
{
    assert((x & 0x7f != 0) == (x & 1 != 0 || x & 2 != 0 || x & 4 != 0 || x & 8 != 0
        || x & 16 != 0 || x & 32 != 0 || x & 64 != 0)) by (bit_vector);
}

/// During a freeze a dancer counts as moving exactly when some evaluated
/// dancer's held mask holds some gameplay action (a lean, jump, squat, hand
/// raise or clap); the pause pose and hands down do not count.
pub proof fn lemma_moving_means_a_held_gameplay_action(g: SupernovaGame, active: [u32; PLAYER_CAPACITY])
    ensures
        g.someone_moving(active) <==> exists|p: int, a: Action| 0 <= p < 4 && g.players[p].evaluated
            && is_gameplay_action(a) && #[trigger] (active[p] & a.mask_of()) != 0,
{
    if g.someone_moving(active) {
        let p = choose|p: int| 0 <= p < 4 && g.players[p].evaluated && active[p] & GAMEPLAY_MASK != 0;
        lemma_gameplay_bits(active[p]);
        if active[p] & 1 != 0 {
            assert(active[p] & Action::MoveLeft.mask_of() != 0);
        } else if active[p] & 2 != 0 {
            assert(active[p] & Action::MoveRight.mask_of() != 0);
        } else if active[p] & 4 != 0 {
            assert(active[p] & Action::Jump.mask_of() != 0);
        } else if active[p] & 8 != 0 {
            assert(active[p] & Action::Squat.mask_of() != 0);
        } else if active[p] & 16 != 0 {
            assert(active[p] & Action::LeftUp.mask_of() != 0);
        } else if active[p] & 32 != 0 {
            assert(active[p] & Action::RightUp.mask_of() != 0);
        } else {
            assert(active[p] & Action::Clap.mask_of() != 0);
        }
    }
    if exists|p: int, a: Action| 0 <= p < 4 && g.players[p].evaluated
        && is_gameplay_action(a) && #[trigger] (active[p] & a.mask_of()) != 0 {
        let (p, a) = choose|p: int, a: Action| 0 <= p < 4 && g.players[p].evaluated
            && is_gameplay_action(a) && #[trigger] (active[p] & a.mask_of()) != 0;
        lemma_gameplay_bits(active[p]);
        assert(g.players[p].evaluated && active[p] & GAMEPLAY_MASK != 0);
    }
}

} // verus!
