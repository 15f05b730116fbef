//! Game modes and the beat-matching game: each beat shows a target action,
//! players who perform it score once per beat, and Duo Groove pairs earn a
//! sync bonus when both partners hit the same beat.
use vstd::prelude::*;
use crate::action::Action;
use crate::PLAYER_CAPACITY;

verus! {

/// The three selectable motion modes.
#[derive(Clone, Copy, Debug, PartialEq, Eq, Structural)]
pub enum GameMode {
    MirrorBeat,
    BeatStrike,
    DuoGroove,
}

impl GameMode {
    pub open spec fn title_text(self) -> &'static str {
        match self {
            GameMode::MirrorBeat => "MIRROR BEAT",
            GameMode::BeatStrike => "BEAT STRIKE",
            GameMode::DuoGroove => "DUO GROOVE",
        }
    }

    pub open spec fn next_mode(self) -> GameMode {
        match self {
            GameMode::MirrorBeat => GameMode::BeatStrike,
            GameMode::BeatStrike => GameMode::DuoGroove,
            GameMode::DuoGroove => GameMode::MirrorBeat,
        }
    }

    pub open spec fn previous_mode(self) -> GameMode {
        match self {
            GameMode::MirrorBeat => GameMode::DuoGroove,
            GameMode::BeatStrike => GameMode::MirrorBeat,
            GameMode::DuoGroove => GameMode::BeatStrike,
        }
    }

    /// Cycling with Duo Groove skipped when it is unavailable.
    pub open spec fn next_mode_with_duo(self, duo_available: bool) -> GameMode {
        if duo_available {
            self.next_mode()
        } else {
            match self {
                GameMode::MirrorBeat => GameMode::BeatStrike,
                _ => GameMode::MirrorBeat,
            }
        }
    }

    pub open spec fn previous_mode_with_duo(self, duo_available: bool) -> GameMode {
        if duo_available {
            self.previous_mode()
        } else {
            match self {
                GameMode::MirrorBeat => GameMode::BeatStrike,
                _ => GameMode::MirrorBeat,
            }
        }
    }

    /// Numeric code of the mode on the host bridge.
    pub open spec fn code(self) -> u32 {
        match self {
            GameMode::MirrorBeat => 0,
            GameMode::BeatStrike => 1,
            GameMode::DuoGroove => 2,
        }
    }

    /// Display title.
    pub fn title(self) -> (s: &'static str)
        ensures
            s == self.title_text(),
    {
        match self {
            GameMode::MirrorBeat => "MIRROR BEAT",
            GameMode::BeatStrike => "BEAT STRIKE",
            GameMode::DuoGroove => "DUO GROOVE",
        }
    }

    /// The next mode in the Mirror → Strike → Duo cycle.
    pub fn next(self) -> (m: GameMode)
        ensures
            m == self.next_mode(),
    {
        match self {
            GameMode::MirrorBeat => GameMode::BeatStrike,
            GameMode::BeatStrike => GameMode::DuoGroove,
            GameMode::DuoGroove => GameMode::MirrorBeat,
        }
    }

    /// The previous mode in the Mirror → Strike → Duo cycle.
    pub fn previous(self) -> (m: GameMode)
        ensures
            m == self.previous_mode(),
    {
        match self {
            GameMode::MirrorBeat => GameMode::DuoGroove,
            GameMode::BeatStrike => GameMode::MirrorBeat,
            GameMode::DuoGroove => GameMode::BeatStrike,
        }
    }

    /// Next mode; without Duo Groove the cycle is Mirror ↔ Strike.
    pub fn next_with_duo(self, duo_available: bool) -> (m: GameMode)
        ensures
            m == self.next_mode_with_duo(duo_available),
    {
        if duo_available {
            return self.next();
        }
        match self {
            GameMode::MirrorBeat => GameMode::BeatStrike,
            GameMode::BeatStrike | GameMode::DuoGroove => GameMode::MirrorBeat,
        }
    }

    /// Previous mode; without Duo Groove the cycle is Mirror ↔ Strike.
    pub fn previous_with_duo(self, duo_available: bool) -> (m: GameMode)
        ensures
            m == self.previous_mode_with_duo(duo_available),
    {
        if duo_available {
            return self.previous();
        }
        match self {
            GameMode::MirrorBeat => GameMode::BeatStrike,
            GameMode::BeatStrike | GameMode::DuoGroove => GameMode::MirrorBeat,
        }
    }

    /// Numeric code of the mode on the host bridge (0 Mirror, 1 Strike, 2 Duo).
    pub fn value(self) -> (v: u32)
        ensures
            v == self.code(),
    {
        match self {
            GameMode::MirrorBeat => 0,
            GameMode::BeatStrike => 1,
            GameMode::DuoGroove => 2,
        }
    }

    /// Mode for a bridge code: 1 Strike, 2 Duo, anything else Mirror.
    pub fn from_value(value: u32) -> (m: GameMode)
        ensures
            value == 1 ==> m == GameMode::BeatStrike,
            value == 2 ==> m == GameMode::DuoGroove,
            value != 1 && value != 2 ==> m == GameMode::MirrorBeat,
    {
        if value == 1 {
            GameMode::BeatStrike
        } else if value == 2 {
            GameMode::DuoGroove
        } else {
            GameMode::MirrorBeat
        }
    }
}

/// `next` undoes `previous` and `previous` undoes `next`.
pub proof fn lemma_next_previous_inverse(m: GameMode)
    ensures
        m.next_mode().previous_mode() == m,
        m.previous_mode().next_mode() == m,
{
}

/// Three steps of `next` come back to the start.
pub proof fn lemma_next_cycles_in_three(m: GameMode)
    ensures
        m.next_mode().next_mode().next_mode() == m,
        m.next_mode() != m,
{
}

/// Without a duo available, result navigation never lands on Duo Groove, and
/// from a single-player mode a step back undoes a step forward.
pub proof fn lemma_duo_skipped_when_unavailable(m: GameMode)
    ensures
        m.next_mode_with_duo(false) != GameMode::DuoGroove,
        m.previous_mode_with_duo(false) != GameMode::DuoGroove,
        m != GameMode::DuoGroove ==> m.next_mode_with_duo(false).previous_mode_with_duo(false)
            == m,
{
}

/// Beat targets of Mirror Beat.
pub open spec fn mirror_sequence() -> Seq<Action> {
    seq![
        Action::LeftUp,
        Action::RightUp,
        Action::Clap,
        Action::Squat,
        Action::MoveLeft,
        Action::MoveRight,
        Action::Jump,
        Action::Clap,
        Action::LeftUp,
        Action::RightUp,
        Action::Squat,
        Action::Jump,
    ]
}

/// Beat targets of Beat Strike.
pub open spec fn strike_sequence() -> Seq<Action> {
    seq![
        Action::MoveLeft,
        Action::MoveRight,
        Action::LeftUp,
        Action::RightUp,
        Action::Clap,
        Action::MoveRight,
        Action::MoveLeft,
        Action::Clap,
        Action::RightUp,
        Action::LeftUp,
    ]
}

/// Beat targets of Duo Groove.
pub open spec fn duo_sequence() -> Seq<Action> {
    seq![
        Action::LeftUp,
        Action::RightUp,
        Action::Clap,
        Action::Squat,
        Action::RightUp,
        Action::LeftUp,
        Action::Jump,
        Action::Clap,
    ]
}

pub open spec fn mode_sequence(mode: GameMode) -> Seq<Action> {
    match mode {
        GameMode::MirrorBeat => mirror_sequence(),
        GameMode::BeatStrike => strike_sequence(),
        GameMode::DuoGroove => duo_sequence(),
    }
}

/// The target of beat `beat_index` in `mode`: the sequence repeats forever.
pub open spec fn beat_target(mode: GameMode, beat_index: u32) -> Action {
    mode_sequence(mode)[(beat_index as int) % (mode_sequence(mode).len() as int)]
}

/// Length of the beat sequence of a mode.
pub fn sequence_len(mode: GameMode) -> (n: u32)
    ensures
        n == mode_sequence(mode).len(),
        n > 0,
{
    match mode {
        GameMode::MirrorBeat => 12,
        GameMode::BeatStrike => 10,
        GameMode::DuoGroove => 8,
    }
}

/// The target action at step `step` of a mode's sequence.
pub fn sequence_step(mode: GameMode, step: u32) -> (a: Action)
    requires
        step < mode_sequence(mode).len(),
    ensures
        a == mode_sequence(mode)[step as int],
{
    match mode {
        GameMode::MirrorBeat => {
            if step == 0 { Action::LeftUp }
            else if step == 1 { Action::RightUp }
            else if step == 2 { Action::Clap }
            else if step == 3 { Action::Squat }
            else if step == 4 { Action::MoveLeft }
            else if step == 5 { Action::MoveRight }
            else if step == 6 { Action::Jump }
            else if step == 7 { Action::Clap }
            else if step == 8 { Action::LeftUp }
            else if step == 9 { Action::RightUp }
            else if step == 10 { Action::Squat }
            else { Action::Jump }
        },
        GameMode::BeatStrike => {
            if step == 0 { Action::MoveLeft }
            else if step == 1 { Action::MoveRight }
            else if step == 2 { Action::LeftUp }
            else if step == 3 { Action::RightUp }
            else if step == 4 { Action::Clap }
            else if step == 5 { Action::MoveRight }
            else if step == 6 { Action::MoveLeft }
            else if step == 7 { Action::Clap }
            else if step == 8 { Action::RightUp }
            else { Action::LeftUp }
        },
        GameMode::DuoGroove => {
            if step == 0 { Action::LeftUp }
            else if step == 1 { Action::RightUp }
            else if step == 2 { Action::Clap }
            else if step == 3 { Action::Squat }
            else if step == 4 { Action::RightUp }
            else if step == 5 { Action::LeftUp }
            else if step == 6 { Action::Jump }
            else { Action::Clap }
        },
    }
}

/// The target of beat `beat_index` of a mode.
pub fn target_for_beat(mode: GameMode, beat_index: u32) -> (a: Action)
    ensures
        a == beat_target(mode, beat_index),
{
    let n = sequence_len(mode);
    sequence_step(mode, beat_index % n)
}

} // verus!

verus! {

/// Points for a hit that brings the combo to `combo`: 100 plus 10 per combo
/// step, the combo counting up to 20.
pub open spec fn hit_points(combo: u16) -> u32 {
    (100 + (if combo < 20 { combo as int } else { 20 }) * 10) as u32
}

/// Bonus each partner earns when a Duo Groove pair both hit a beat.
pub const DUO_SYNC_BONUS: u32 = 150;

/// `next` is `g` after `beats` beat boundaries.
pub open spec fn beats_advanced(g: GameState, next: GameState, beats: u32) -> bool {
    if beats == 0 {
        next == g
    } else {
        &&& next.mode == g.mode
        &&& next.beat_index == ((g.beat_index + beats) % 0x1_0000_0000) as u32
        &&& next.target == beat_target(g.mode, next.beat_index)
        &&& next.scores == g.scores
        &&& next.combos == g.combos
        &&& forall|p: int| 0 <= p < 4 ==> !#[trigger] next.hit_this_beat[p]
        &&& !next.duo_bonus_awarded[0]
        &&& !next.duo_bonus_awarded[1]
    }
}

/// Beat-matching game state. `hit_this_beat` and `duo_bonus_awarded` are
/// cleared at every beat.
#[derive(Clone, Debug)]
pub struct GameState {
    pub mode: GameMode,
    pub beat_index: u32,
    pub target: Action,
    pub scores: [u32; PLAYER_CAPACITY],
    pub combos: [u16; PLAYER_CAPACITY],
    /// Players who already scored on the current beat.
    pub hit_this_beat: [bool; PLAYER_CAPACITY],
    /// Duo pairs (players 0–1 and 2–3) already given the sync bonus this beat.
    pub duo_bonus_awarded: [bool; 2],
}

/// The target after a custom target mask is applied: a mask naming exactly
/// one action replaces the target, anything else leaves it.
pub open spec fn effective_target(target: Action, custom_target: Option<u32>) -> Action {
    match custom_target {
        Some(m) => match Action::for_mask(m) {
            Some(a) => a,
            None => target,
        },
        None => target,
    }
}

impl GameState {
    /// Well-formed: a pair holds the sync bonus only if both partners hit.
    pub open spec fn wf(self) -> bool {
        &&& self.duo_bonus_awarded[0] ==> self.hit_this_beat[0] && self.hit_this_beat[1]
        &&& self.duo_bonus_awarded[1] ==> self.hit_this_beat[2] && self.hit_this_beat[3]
    }

    /// A fresh match of `mode`: beat 0, its first target, all scores zero.
    pub open spec fn fresh(self, mode: GameMode) -> bool {
        &&& self.mode == mode
        &&& self.beat_index == 0
        &&& self.target == mode_sequence(mode)[0]
        &&& forall|p: int| 0 <= p < 4 ==> {
            &&& self.scores[p] == 0
            &&& self.combos[p] == 0
            &&& !self.hit_this_beat[p]
        }
        &&& !self.duo_bonus_awarded[0]
        &&& !self.duo_bonus_awarded[1]
    }

    /// Whether player `p`'s mask scores against `target` this beat.
    pub open spec fn scores_hit(self, p: int, mask: u32, target: Action) -> bool {
        mask & target.mask_of() != 0 && !self.hit_this_beat[p]
    }

    /// Player `p`'s combo after judging `mask`: a hit extends it, any other
    /// non-empty mask (a second hit in the same beat included) breaks it.
    pub open spec fn judged_combo(self, p: int, mask: u32, target: Action) -> u16 {
        if self.scores_hit(p, mask, target) {
            self.combos[p].saturating_add(1)
        } else if mask != 0 {
            0
        } else {
            self.combos[p]
        }
    }

    pub open spec fn judged_hit(self, p: int, mask: u32, target: Action) -> bool {
        self.hit_this_beat[p] || self.scores_hit(p, mask, target)
    }

    /// Player `p`'s score after the hit award, before any duo bonus.
    pub open spec fn judged_base_score(self, p: int, mask: u32, target: Action) -> u32 {
        if self.scores_hit(p, mask, target) {
            self.scores[p].saturating_add(hit_points(self.judged_combo(p, mask, target)))
        } else {
            self.scores[p]
        }
    }

    /// Whether pair `k` (players 2k and 2k+1) earns the sync bonus now.
    pub open spec fn pair_bonus(self, k: int, triggered: Seq<u32>, target: Action) -> bool {
        &&& self.mode == GameMode::DuoGroove
        &&& !self.duo_bonus_awarded[k]
        &&& self.judged_hit(2 * k, triggered[2 * k], target)
        &&& self.judged_hit(2 * k + 1, triggered[2 * k + 1], target)
    }

    /// Player `p`'s score after judging, duo bonus included.
    pub open spec fn judged_score(self, p: int, triggered: Seq<u32>, target: Action) -> u32 {
        if self.pair_bonus(p / 2, triggered, target) {
            self.judged_base_score(p, triggered[p], target).saturating_add(DUO_SYNC_BONUS)
        } else {
            self.judged_base_score(p, triggered[p], target)
        }
    }

    /// `next` is `self` after judging one frame of `triggered` masks with an
    /// optional custom target.
    pub open spec fn judges_to(self, next: GameState, triggered: Seq<u32>, custom_target: Option<u32>) -> bool {
        let target = effective_target(self.target, custom_target);
        &&& next.mode == self.mode
        &&& next.beat_index == self.beat_index
        &&& next.target == target
        &&& forall|p: int| 0 <= p < 4 ==> {
            &&& next.hit_this_beat[p] == self.judged_hit(p, triggered[p], target)
            &&& next.combos[p] == self.judged_combo(p, triggered[p], target)
            &&& next.scores[p] == self.judged_score(p, triggered, target)
        }
        &&& forall|k: int| 0 <= k < 2 ==> next.duo_bonus_awarded[k] == (self.duo_bonus_awarded[k]
            || self.pair_bonus(k, triggered, target))
    }

    /// A new match of `mode`.
    pub fn new(mode: GameMode) -> (s: GameState)
        ensures
            s.fresh(mode),
            s.wf(),
    {
        GameState {
            mode,
            beat_index: 0,
            target: sequence_step(mode, 0),
            scores: [0; PLAYER_CAPACITY],
            combos: [0; PLAYER_CAPACITY],
            hit_this_beat: [false; PLAYER_CAPACITY],
            duo_bonus_awarded: [false; 2],
        }
    }

    /// Restart as a new match of `mode`.
    pub fn set_mode(&mut self, mode: GameMode)
        ensures
            final(self).fresh(mode),
            final(self).wf(),
    {
        *self = GameState::new(mode);
    }

    /// One beat elapses: the beat index advances (wrapping), the target
    /// becomes that beat's step of the sequence, and per-beat flags clear.
    pub fn advance_beat(&mut self)
        ensures
            final(self).mode == old(self).mode,
            final(self).beat_index == (if old(self).beat_index == u32::MAX { 0 } else {
                (old(self).beat_index + 1) as u32 }),
            final(self).target == beat_target(final(self).mode, final(self).beat_index),
            final(self).scores == old(self).scores,
            final(self).combos == old(self).combos,
            forall|p: int| 0 <= p < 4 ==> !final(self).hit_this_beat[p],
            !final(self).duo_bonus_awarded[0],
            !final(self).duo_bonus_awarded[1],
            final(self).wf(),
    {
        self.beat_index = self.beat_index.wrapping_add(1);
        self.target = target_for_beat(self.mode, self.beat_index);
        self.hit_this_beat = [false; PLAYER_CAPACITY];
        self.duo_bonus_awarded = [false; 2];
    }

    /// One frame of the beat game: `beats` beat boundaries pass (counted by
    /// the host's clock), then the frame's masks are judged against the
    /// target, with an optional custom target.
    pub fn update(&mut self, beats: u32, triggered: [u32; PLAYER_CAPACITY], custom_target: Option<u32>)
        ensures
            exists|mid: GameState| #[trigger] beats_advanced(*old(self), mid, beats)
                && mid.judges_to(*final(self), triggered@, custom_target),
            old(self).wf() ==> final(self).wf(),
    {
        let mut b: u32 = 0;
        while b < beats
            invariant
                b <= beats,
                b == 0 ==> *self == *old(self),
                b > 0 ==> beats_advanced(*old(self), *self, b),
                old(self).wf() ==> self.wf(),
            decreases beats - b,
        {
            self.advance_beat();
            b = b + 1;
        }
        let ghost mid = *self;
        assert(beats_advanced(*old(self), mid, beats));
        self.judge(triggered, custom_target);
    }

    /// Judges one frame of triggered masks against the current target.
    ///
    /// A custom target mask naming one action replaces the target first. A
    /// player whose mask holds the target and who has not hit this beat
    /// scores `hit_points` of the extended combo; any other non-empty mask
    /// breaks the combo. In Duo Groove each pair whose partners have both hit
    /// earns `DUO_SYNC_BONUS` each, once per beat.
    pub fn judge(&mut self, triggered: [u32; PLAYER_CAPACITY], custom_target: Option<u32>)
        ensures
            old(self).judges_to(*final(self), triggered@, custom_target),
            old(self).wf() ==> final(self).wf(),
    {
        let ghost pre = *self;
        if let Some(custom) = custom_target {
            if let Some(a) = Action::from_mask(custom) {
                self.target = a;
            }
        }
        let target = self.target;
        let target_mask = target.mask();
        let mut player: usize = 0;
        while player < PLAYER_CAPACITY
            invariant
                player <= PLAYER_CAPACITY,
                target == self.target,
                target_mask == target.mask_of(),
                self.mode == pre.mode,
                self.beat_index == pre.beat_index,
                self.duo_bonus_awarded == pre.duo_bonus_awarded,
                forall|p: int| 0 <= p < player ==> {
                    &&& self.hit_this_beat[p] == pre.judged_hit(p, triggered[p], target)
                    &&& self.combos[p] == pre.judged_combo(p, triggered[p], target)
                    &&& self.scores[p] == pre.judged_base_score(p, triggered[p], target)
                },
                forall|p: int| player <= p < 4 ==> {
                    &&& self.hit_this_beat[p] == pre.hit_this_beat[p]
                    &&& self.combos[p] == pre.combos[p]
                    &&& self.scores[p] == pre.scores[p]
                },
            decreases PLAYER_CAPACITY - player,
        {
            let mask = triggered[player];
            if mask & target_mask != 0 && !self.hit_this_beat[player] {
                self.hit_this_beat[player] = true;
                let combo = self.combos[player].saturating_add(1);
                self.combos[player] = combo;
                let capped: u32 = if combo < 20 { combo as u32 } else { 20 };
                self.scores[player] = self.scores[player].saturating_add(100 + capped * 10);
            } else if mask != 0 {
                self.combos[player] = 0;
            }
            player = player + 1;
        }
        if self.mode == GameMode::DuoGroove {
            let mut pair: usize = 0;
            while pair < 2
                invariant
                    pair <= 2,
                    target == self.target,
                    self.mode == GameMode::DuoGroove,
                    self.mode == pre.mode,
                    self.beat_index == pre.beat_index,
                    forall|p: int| 0 <= p < 4 ==> {
                        &&& self.hit_this_beat[p] == pre.judged_hit(p, triggered[p], target)
                        &&& self.combos[p] == pre.judged_combo(p, triggered[p], target)
                    },
                    forall|p: int| 0 <= p < 2 * pair ==> self.scores[p] == (if pre.pair_bonus(p / 2, triggered@, target) {
                        pre.judged_base_score(p, triggered[p], target).saturating_add(DUO_SYNC_BONUS)
                    } else {
                        pre.judged_base_score(p, triggered[p], target)
                    }),
                    forall|p: int| 2 * pair <= p < 4 ==> self.scores[p] == pre.judged_base_score(p, triggered[p], target),
                    forall|k: int| 0 <= k < pair ==> self.duo_bonus_awarded[k] == (pre.duo_bonus_awarded[k]
                        || pre.pair_bonus(k, triggered@, target)),
                    forall|k: int| pair <= k < 2 ==> self.duo_bonus_awarded[k] == pre.duo_bonus_awarded[k],
                decreases 2 - pair,
            {
                let a = 2 * pair;
                let b = a + 1;
                if !self.duo_bonus_awarded[pair] && self.hit_this_beat[a] && self.hit_this_beat[b] {
                    self.duo_bonus_awarded[pair] = true;
                    self.scores[a] = self.scores[a].saturating_add(DUO_SYNC_BONUS);
                    self.scores[b] = self.scores[b].saturating_add(DUO_SYNC_BONUS);
                }
                pair = pair + 1;
            }
        }
    }
}

} // verus!

verus! {

/// Judging never lowers a score and keeps the state well formed.
pub proof fn lemma_judge_keeps_scores_and_wf(
    s: GameState,
    next: GameState,
    triggered: Seq<u32>,
    custom_target: Option<u32>,
)
    requires
        s.judges_to(next, triggered, custom_target),
    ensures
        forall|p: int| 0 <= p < 4 ==> next.scores[p] >= s.scores[p],
        s.wf() ==> next.wf(),
{
}

/// Within one beat a player earns the hit award at most once and a Duo pair
/// the sync bonus at most once: judging a state in which the player has
/// already hit and the pair already holds its bonus leaves the score as is.
pub proof fn lemma_one_award_per_beat(
    s: GameState,
    next: GameState,
    triggered: Seq<u32>,
    custom_target: Option<u32>,
    p: int,
)
    requires
        0 <= p < 4,
        s.judges_to(next, triggered, custom_target),
        s.hit_this_beat[p],
        s.mode == GameMode::DuoGroove ==> s.duo_bonus_awarded[p / 2],
    ensures
        next.scores[p] == s.scores[p],
{
}

/// The hit award is always between 100 and 300 points.
pub proof fn lemma_hit_points_bounded(combo: u16)
    ensures
        100 <= hit_points(combo) <= 300,
        combo >= 20 ==> hit_points(combo) == 300,
        hit_points(0) == 100,
        combo < 20 ==> hit_points((combo + 1) as u16) == hit_points(combo) + 10,
{
}

} // verus!
