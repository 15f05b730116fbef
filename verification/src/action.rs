//! The action vocabulary: bitmask actions recognised from poses, keyboards and
//! gamepads, and the edge detection that turns held actions into triggers.
use vstd::prelude::*;

verus! {

/// A recognised body action. Each action owns one bit of a `u32` mask.
#[derive(Clone, Copy, Debug, PartialEq, Eq, Structural)]
pub enum Action {
    MoveLeft,
    MoveRight,
    Jump,
    Squat,
    LeftUp,
    RightUp,
    Clap,
    Pause,
    /// Both wrists clearly below hips.
    HandsDown,
}

/// Mask of the seven gameplay actions (everything but Pause and HandsDown).
pub const GAMEPLAY_MASK: u32 = 0x7f;

/// Drop release verbs: Squat or HandsDown.
pub const DROP_RELEASE_MASK: u32 = 0x108;

/// Number of actions in the vocabulary.
pub const ACTION_COUNT: usize = 9;

impl Action {
    /// The bit position of this action in a mask.
    pub open spec fn bit(self) -> nat {
        match self {
            Action::MoveLeft => 0,
            Action::MoveRight => 1,
            Action::Jump => 2,
            Action::Squat => 3,
            Action::LeftUp => 4,
            Action::RightUp => 5,
            Action::Clap => 6,
            Action::Pause => 7,
            Action::HandsDown => 8,
        }
    }

    /// The mask of this action: one bit, at position `bit()`.
    pub open spec fn mask_of(self) -> u32 {
        match self {
            Action::MoveLeft => 1,
            Action::MoveRight => 2,
            Action::Jump => 4,
            Action::Squat => 8,
            Action::LeftUp => 16,
            Action::RightUp => 32,
            Action::Clap => 64,
            Action::Pause => 128,
            Action::HandsDown => 256,
        }
    }

    /// The action at position `i` of the canonical order.
    pub open spec fn at_index(i: int) -> Action {
        if i == 0 {
            Action::MoveLeft
        } else if i == 1 {
            Action::MoveRight
        } else if i == 2 {
            Action::Jump
        } else if i == 3 {
            Action::Squat
        } else if i == 4 {
            Action::LeftUp
        } else if i == 5 {
            Action::RightUp
        } else if i == 6 {
            Action::Clap
        } else if i == 7 {
            Action::Pause
        } else {
            Action::HandsDown
        }
    }

    /// The action whose mask is exactly `m`, if there is one.
    pub open spec fn for_mask(m: u32) -> Option<Action> {
        if m == 1 {
            Some(Action::MoveLeft)
        } else if m == 2 {
            Some(Action::MoveRight)
        } else if m == 4 {
            Some(Action::Jump)
        } else if m == 8 {
            Some(Action::Squat)
        } else if m == 16 {
            Some(Action::LeftUp)
        } else if m == 32 {
            Some(Action::RightUp)
        } else if m == 64 {
            Some(Action::Clap)
        } else if m == 128 {
            Some(Action::Pause)
        } else if m == 256 {
            Some(Action::HandsDown)
        } else {
            None
        }
    }

    pub open spec fn label_text(self) -> &'static str {
        match self {
            Action::MoveLeft => "MOVE LEFT",
            Action::MoveRight => "MOVE RIGHT",
            Action::Jump => "JUMP",
            Action::Squat => "SQUAT",
            Action::LeftUp => "LEFT HAND UP",
            Action::RightUp => "RIGHT HAND UP",
            Action::Clap => "CLAP",
            Action::Pause => "PAUSE",
            Action::HandsDown => "HANDS DOWN",
        }
    }

    /// The mask bit of this action.
    pub fn mask(self) -> (m: u32)
        ensures
            m == self.mask_of(),
            m == 1u32 << self.bit(),
    {
        let m: u32 = match self {
            Action::MoveLeft => 1,
            Action::MoveRight => 2,
            Action::Jump => 4,
            Action::Squat => 8,
            Action::LeftUp => 16,
            Action::RightUp => 32,
            Action::Clap => 64,
            Action::Pause => 128,
            Action::HandsDown => 256,
        };
        proof {
            assert(1u32 << 0u32 == 1u32) by (bit_vector);
            assert(1u32 << 1u32 == 2u32) by (bit_vector);
            assert(1u32 << 2u32 == 4u32) by (bit_vector);
            assert(1u32 << 3u32 == 8u32) by (bit_vector);
            assert(1u32 << 4u32 == 16u32) by (bit_vector);
            assert(1u32 << 5u32 == 32u32) by (bit_vector);
            assert(1u32 << 6u32 == 64u32) by (bit_vector);
            assert(1u32 << 7u32 == 128u32) by (bit_vector);
            assert(1u32 << 8u32 == 256u32) by (bit_vector);
        }
        m
    }

    /// Upper-case display label.
    pub fn label(self) -> (s: &'static str)
        ensures
            s == self.label_text(),
    {
        match self {
            Action::MoveLeft => "MOVE LEFT",
            Action::MoveRight => "MOVE RIGHT",
            Action::Jump => "JUMP",
            Action::Squat => "SQUAT",
            Action::LeftUp => "LEFT HAND UP",
            Action::RightUp => "RIGHT HAND UP",
            Action::Clap => "CLAP",
            Action::Pause => "PAUSE",
            Action::HandsDown => "HANDS DOWN",
        }
    }

    /// The action at `index` of the canonical order (MoveLeft .. HandsDown).
    pub fn from_index(index: usize) -> (a: Action)
        requires
            index < ACTION_COUNT,
        ensures
            a == Action::at_index(index as int),
            a.bit() == index,
    {
        if index == 0 {
            Action::MoveLeft
        } else if index == 1 {
            Action::MoveRight
        } else if index == 2 {
            Action::Jump
        } else if index == 3 {
            Action::Squat
        } else if index == 4 {
            Action::LeftUp
        } else if index == 5 {
            Action::RightUp
        } else if index == 6 {
            Action::Clap
        } else if index == 7 {
            Action::Pause
        } else {
            Action::HandsDown
        }
    }

    /// The action whose mask is exactly `mask`, if any.
    pub fn from_mask(mask: u32) -> (r: Option<Action>)
        ensures
            r == Action::for_mask(mask),
            match r {
                Some(a) => a.mask_of() == mask,
                None => forall|a: Action| a.mask_of() != mask,
            },
    {
        let mut i: usize = 0;
        while i < ACTION_COUNT
            invariant
                i <= ACTION_COUNT,
                forall|j: int| 0 <= j < i ==> Action::at_index(j).mask_of() != mask,
            decreases ACTION_COUNT - i,
        {
            let a = Action::from_index(i);
            if a.mask() == mask {
                return Some(a);
            }
            i = i + 1;
        }
        proof {
            assert forall|a: Action| a.mask_of() != mask by {
                assert(Action::at_index(a.bit() as int) == a);
            }
            assert(Action::MoveLeft.mask_of() != mask);
            assert(Action::MoveRight.mask_of() != mask);
            assert(Action::Jump.mask_of() != mask);
            assert(Action::Squat.mask_of() != mask);
            assert(Action::LeftUp.mask_of() != mask);
            assert(Action::RightUp.mask_of() != mask);
            assert(Action::Clap.mask_of() != mask);
            assert(Action::Pause.mask_of() != mask);
            assert(Action::HandsDown.mask_of() != mask);
        }
        None
    }
}

} // verus!

verus! {

/// What a recognised pose shows, as decided from its geometry.
#[derive(Clone, Copy, Debug, PartialEq, Eq, Structural)]
pub struct PoseSignals {
    /// Shoulders left of the calibrated centre.
    pub lean_left: bool,
    /// Shoulders right of the calibrated centre.
    pub lean_right: bool,
    /// Hips above the calibrated height.
    pub rise: bool,
    /// Hips below the calibrated height.
    pub crouch: bool,
    pub left_hand_up: bool,
    pub right_hand_up: bool,
    pub left_hand_down: bool,
    pub right_hand_down: bool,
    /// Both wrists close together.
    pub hands_together: bool,
    /// Both hands up and apart: the pause pose.
    pub pause_pose: bool,
    /// The pause pose has been held long enough.
    pub pause_held: bool,
}

/// The held-action mask a pose shows. Left wins over right and rising over
/// crouching; HandsDown needs both hands down and neither up; the pause
/// pose reserves both hands, so it shows nothing but Pause once held.
pub open spec fn active_mask(s: PoseSignals) -> u32 {
    if s.pause_pose {
        if s.pause_held { 128 } else { 0 }
    } else {
        (if s.lean_left { 1u32 } else if s.lean_right { 2u32 } else { 0u32 })
        | (if s.rise { 4u32 } else if s.crouch { 8u32 } else { 0u32 })
        | (if s.left_hand_up { 16u32 } else { 0u32 })
        | (if s.right_hand_up { 32u32 } else { 0u32 })
        | (if s.left_hand_down && s.right_hand_down && !s.left_hand_up && !s.right_hand_up { 256u32 } else { 0u32 })
        | (if s.hands_together { 64u32 } else { 0u32 })
    }
}

/// The held-action mask a pose shows.
pub fn compose_active(s: PoseSignals) -> (m: u32)
    ensures
        m == active_mask(s),
{
    if s.pause_pose {
        return if s.pause_held { Action::Pause.mask() } else { 0 };
    }
    let lateral: u32 = if s.lean_left { 1 } else if s.lean_right { 2 } else { 0 };
    let vertical: u32 = if s.rise { 4 } else if s.crouch { 8 } else { 0 };
    let left_up: u32 = if s.left_hand_up { 16 } else { 0 };
    let right_up: u32 = if s.right_hand_up { 32 } else { 0 };
    let down: u32 = if s.left_hand_down && s.right_hand_down && !s.left_hand_up && !s.right_hand_up { 256 } else { 0 };
    let clap: u32 = if s.hands_together { 64 } else { 0 };
    lateral | vertical | left_up | right_up | down | clap
}

/// Actions recognised from one pose: held (`active`) and newly started
/// this frame (`triggered`).
#[derive(Clone, Copy, Debug, PartialEq, Eq, Structural)]
pub struct ActionSample {
    pub active: u32,
    pub triggered: u32,
}

impl Default for ActionSample {
    fn default() -> (s: ActionSample)
        ensures
            s == (ActionSample { active: 0, triggered: 0 }),
    {
        ActionSample { active: 0, triggered: 0 }
    }
}

/// Bits of the actions whose trigger cooldown has elapsed.
pub open spec fn ready_bits(ready: [bool; ACTION_COUNT]) -> u32 {
    (if ready[0] { 1u32 } else { 0u32 }) | (if ready[1] { 2u32 } else { 0u32 })
    | (if ready[2] { 4u32 } else { 0u32 }) | (if ready[3] { 8u32 } else { 0u32 })
    | (if ready[4] { 16u32 } else { 0u32 }) | (if ready[5] { 32u32 } else { 0u32 })
    | (if ready[6] { 64u32 } else { 0u32 }) | (if ready[7] { 128u32 } else { 0u32 })
    | (if ready[8] { 256u32 } else { 0u32 })
}

/// Rising-edge detection: an action triggers when it starts being held and
/// its cooldown has elapsed.
#[derive(Clone, Copy, Debug, PartialEq, Eq, Structural)]
pub struct ActionEdges {
    /// The mask held on the previous tracked frame.
    pub previous_active: u32,
}

impl ActionEdges {
    pub fn new() -> (e: ActionEdges)
        ensures
            e.previous_active == 0,
    {
        ActionEdges { previous_active: 0 }
    }

    /// One tracked frame holding `active`. `cooldown_ready[i]` says whether
    /// action `i` (canonical order) may trigger again; the host restarts the
    /// cooldown of every action in the returned `triggered` mask.
    pub fn update(&mut self, active: u32, cooldown_ready: [bool; ACTION_COUNT]) -> (s: ActionSample)
        ensures
            s.active == active,
            s.triggered == active & !old(self).previous_active & ready_bits(cooldown_ready),
            final(self).previous_active == active,
    {
        let ready: u32 = (if cooldown_ready[0] { 1u32 } else { 0u32 }) | (if cooldown_ready[1] { 2u32 } else { 0u32 })
            | (if cooldown_ready[2] { 4u32 } else { 0u32 }) | (if cooldown_ready[3] { 8u32 } else { 0u32 })
            | (if cooldown_ready[4] { 16u32 } else { 0u32 }) | (if cooldown_ready[5] { 32u32 } else { 0u32 })
            | (if cooldown_ready[6] { 64u32 } else { 0u32 }) | (if cooldown_ready[7] { 128u32 } else { 0u32 })
            | (if cooldown_ready[8] { 256u32 } else { 0u32 });
        let rising = active & !self.previous_active;
        self.previous_active = active;
        ActionSample { active, triggered: rising & ready }
    }

    /// Tracking was lost (or the pose was too poor): nothing is held, so the
    /// next held action triggers again.
    pub fn lose_tracking(&mut self)
        ensures
            final(self).previous_active == 0,
    {
        self.previous_active = 0;
    }
}

/// A trigger is a rising edge: an action held on the previous frame never
/// triggers, and only held actions trigger.
pub proof fn lemma_triggers_only_on_rising_edge(active: u32, previous: u32, ready: [bool; ACTION_COUNT], a: Action)
    ensures
        (active & !previous & ready_bits(ready)) & a.mask_of() != 0 ==> active & a.mask_of() != 0
            && previous & a.mask_of() == 0,
{
    let r = ready_bits(ready);
    let bit = a.mask_of();
    assert((active & !previous & r) & bit != 0 ==> active & bit != 0 && previous & bit == 0) by (bit_vector)
        requires
            bit == 1 || bit == 2 || bit == 4 || bit == 8 || bit == 16 || bit == 32 || bit == 64 || bit == 128
                || bit == 256;
}

/// Over whole masks: what one update triggers is held in that sample, and
/// shares no action with the mask held on the frame before (the previous
/// update's `active`, unless tracking was lost in between, which clears it).
pub proof fn lemma_triggered_masks_are_rising_edges(active: u32, previous: u32, ready: [bool; ACTION_COUNT])
    ensures
        (active & !previous & ready_bits(ready)) & !active == 0,
        (active & !previous & ready_bits(ready)) & previous == 0,
{
    let r = ready_bits(ready);
    assert((active & !previous & r) & !active == 0) by (bit_vector);
    assert((active & !previous & r) & previous == 0) by (bit_vector);
}

/// Holding the same pose on two consecutive frames triggers nothing the
/// second time.
pub proof fn lemma_held_pose_triggers_once(active: u32, ready: [bool; ACTION_COUNT])
    ensures
        active & !active & ready_bits(ready) == 0,
{
    let r = ready_bits(ready);
    assert(active & !active & r == 0) by (bit_vector);
}

/// The pause pose never shows a gameplay action.
pub proof fn lemma_pause_pose_reserves_gameplay(s: PoseSignals)
    requires
        s.pause_pose,
    ensures
        active_mask(s) & GAMEPLAY_MASK == 0,
        s.pause_held <==> active_mask(s) == 128,
{
    assert(128u32 & 0x7fu32 == 0) by (bit_vector);
    assert(0u32 & 0x7fu32 == 0) by (bit_vector);
}

/// Keys pressed this frame, as the keyboard fallback reads them.
#[derive(Clone, Copy, Debug, PartialEq, Eq, Structural)]
pub struct KeyPresses {
    pub left: bool,
    pub a: bool,
    pub right: bool,
    pub d: bool,
    pub space: bool,
    pub w: bool,
    pub down: bool,
    pub s: bool,
    pub c: bool,
    pub enter: bool,
    pub r: bool,
    pub p: bool,
}

/// The action mask of the keyboard fallback: arrows or WASD move, jump and
/// squat; C or Enter (or R when restarting) claps; P pauses.
pub open spec fn key_mask(k: KeyPresses, restart: bool) -> u32 {
    (if k.left || k.a { 1u32 } else { 0u32 })
    | (if k.right || k.d { 2u32 } else { 0u32 })
    | (if k.space || k.w { 4u32 } else { 0u32 })
    | (if k.down || k.s { 8u32 } else { 0u32 })
    | (if k.c || k.enter || (restart && k.r) { 64u32 } else { 0u32 })
    | (if k.p { 128u32 } else { 0u32 })
}

/// The action mask of the keyboard fallback.
pub fn keyboard_actions(keys: KeyPresses, restart: bool) -> (m: u32)
    ensures
        m == key_mask(keys, restart),
{
    let left: u32 = if keys.left || keys.a { Action::MoveLeft.mask() } else { 0 };
    let right: u32 = if keys.right || keys.d { Action::MoveRight.mask() } else { 0 };
    let jump: u32 = if keys.space || keys.w { Action::Jump.mask() } else { 0 };
    let squat: u32 = if keys.down || keys.s { Action::Squat.mask() } else { 0 };
    let clap: u32 = if keys.c || keys.enter || (restart && keys.r) { Action::Clap.mask() } else { 0 };
    let pause: u32 = if keys.p { Action::Pause.mask() } else { 0 };
    left | right | jump | squat | clap | pause
}

proof fn lemma_six_fields(a: u32, b: u32, c: u32, d: u32, e: u32, f: u32)
    requires
        a == 0 || a == 1 || a == 2,
        b == 0 || b == 4 || b == 8,
        c == 0 || c == 16,
        d == 0 || d == 32,
        e == 0 || e == 64,
        f == 0 || f == 128 || f == 256,
    ensures
        ((a | b | c | d | e | f) & 1 != 0) == (a == 1),
        ((a | b | c | d | e | f) & 2 != 0) == (a == 2),
        ((a | b | c | d | e | f) & 4 != 0) == (b == 4),
        ((a | b | c | d | e | f) & 8 != 0) == (b == 8),
        ((a | b | c | d | e | f) & 16 != 0) == (c == 16),
        ((a | b | c | d | e | f) & 32 != 0) == (d == 32),
        ((a | b | c | d | e | f) & 64 != 0) == (e == 64),
        ((a | b | c | d | e | f) & 128 != 0) == (f == 128),
        ((a | b | c | d | e | f) & 256 != 0) == (f == 256),
        (a | b | c | d | e | f) & !0x1ffu32 == 0,
{
    assert(
        ((a | b | c | d | e | f) & 1 != 0) == (a == 1)
        && ((a | b | c | d | e | f) & 2 != 0) == (a == 2)
        && ((a | b | c | d | e | f) & 4 != 0) == (b == 4)
        && ((a | b | c | d | e | f) & 8 != 0) == (b == 8)
        && ((a | b | c | d | e | f) & 16 != 0) == (c == 16)
        && ((a | b | c | d | e | f) & 32 != 0) == (d == 32)
        && ((a | b | c | d | e | f) & 64 != 0) == (e == 64)
        && ((a | b | c | d | e | f) & 128 != 0) == (f == 128)
        && ((a | b | c | d | e | f) & 256 != 0) == (f == 256)
        && (a | b | c | d | e | f) & !0x1ffu32 == 0
    ) by (bit_vector)
        requires
            a == 0 || a == 1 || a == 2,
            b == 0 || b == 4 || b == 8,
            c == 0 || c == 16,
            d == 0 || d == 32,
            e == 0 || e == 64,
            f == 0 || f == 128 || f == 256;
}

/// What a pose shows, action by action. Outside the pause pose: MoveLeft
/// with a lean left, MoveRight with a lean right (a lean left wins), Jump
/// when rising, Squat when crouching (rising wins), LeftUp exactly when the
/// left hand is up and RightUp exactly when the right hand is up (each hand
/// on its own), Clap with the hands together, HandsDown with both hands down
/// and neither up, never Pause. In the pause pose: Pause once held, and
/// nothing else.
pub proof fn lemma_pose_actions(s: PoseSignals)
    ensures
        !s.pause_pose ==> {
            let m = active_mask(s);
            &&& (m & Action::MoveLeft.mask_of() != 0) == s.lean_left
            &&& (m & Action::MoveRight.mask_of() != 0) == (s.lean_right && !s.lean_left)
            &&& (m & Action::Jump.mask_of() != 0) == s.rise
            &&& (m & Action::Squat.mask_of() != 0) == (s.crouch && !s.rise)
            &&& (m & Action::LeftUp.mask_of() != 0) == s.left_hand_up
            &&& (m & Action::RightUp.mask_of() != 0) == s.right_hand_up
            &&& (m & Action::Clap.mask_of() != 0) == s.hands_together
            &&& (m & Action::HandsDown.mask_of() != 0)
                == (s.left_hand_down && s.right_hand_down && !s.left_hand_up && !s.right_hand_up)
            &&& m & Action::Pause.mask_of() == 0
        },
        s.pause_pose ==> active_mask(s) == (if s.pause_held { Action::Pause.mask_of() } else { 0 }),
{
    if !s.pause_pose {
        let a: u32 = if s.lean_left { 1u32 } else if s.lean_right { 2u32 } else { 0u32 };
        let b: u32 = if s.rise { 4u32 } else if s.crouch { 8u32 } else { 0u32 };
        let c: u32 = if s.left_hand_up { 16u32 } else { 0u32 };
        let d: u32 = if s.right_hand_up { 32u32 } else { 0u32 };
        let f: u32 = if s.left_hand_down && s.right_hand_down && !s.left_hand_up && !s.right_hand_up { 256u32 } else { 0u32 };
        let e: u32 = if s.hands_together { 64u32 } else { 0u32 };
        assert(active_mask(s) == a | b | c | d | f | e);
        assert(a | b | c | d | f | e == a | b | c | d | e | f) by (bit_vector);
        lemma_six_fields(a, b, c, d, e, f);
    }
}

/// The keyboard fallback, key by key: Left or A moves left, Right or D moves
/// right, Space or W jumps, Down or S squats, C or Enter claps (and R too
/// when restarting), P pauses; no key gives a hand raise or hands down.
pub proof fn lemma_keyboard_keys(k: KeyPresses, restart: bool)
    ensures
        ({
            let m = key_mask(k, restart);
            &&& (m & Action::MoveLeft.mask_of() != 0) == (k.left || k.a)
            &&& (m & Action::MoveRight.mask_of() != 0) == (k.right || k.d)
            &&& (m & Action::Jump.mask_of() != 0) == (k.space || k.w)
            &&& (m & Action::Squat.mask_of() != 0) == (k.down || k.s)
            &&& (m & Action::Clap.mask_of() != 0) == (k.c || k.enter || (restart && k.r))
            &&& (m & Action::Pause.mask_of() != 0) == k.p
            &&& m & Action::LeftUp.mask_of() == 0
            &&& m & Action::RightUp.mask_of() == 0
            &&& m & Action::HandsDown.mask_of() == 0
        }),
{
    let l: u32 = if k.left || k.a { 1u32 } else { 0u32 };
    let r: u32 = if k.right || k.d { 2u32 } else { 0u32 };
    let j: u32 = if k.space || k.w { 4u32 } else { 0u32 };
    let q: u32 = if k.down || k.s { 8u32 } else { 0u32 };
    let c: u32 = if k.c || k.enter || (restart && k.r) { 64u32 } else { 0u32 };
    let p: u32 = if k.p { 128u32 } else { 0u32 };
    assert(key_mask(k, restart) == l | r | j | q | c | p);
    assert(((l | r | j | q | c | p) & 1 != 0) == (l == 1)
        && ((l | r | j | q | c | p) & 2 != 0) == (r == 2)
        && ((l | r | j | q | c | p) & 4 != 0) == (j == 4)
        && ((l | r | j | q | c | p) & 8 != 0) == (q == 8)
        && ((l | r | j | q | c | p) & 64 != 0) == (c == 64)
        && ((l | r | j | q | c | p) & 128 != 0) == (p == 128)
        && (l | r | j | q | c | p) & 16 == 0
        && (l | r | j | q | c | p) & 32 == 0
        && (l | r | j | q | c | p) & 256 == 0) by (bit_vector)
        requires
            l == 0 || l == 1,
            r == 0 || r == 2,
            j == 0 || j == 4,
            q == 0 || q == 8,
            c == 0 || c == 64,
            p == 0 || p == 128;
}

} // verus!
