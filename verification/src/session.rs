//! Session decisions of the game loop: when an activity starts by itself,
//! when a finished one replays, and which party-director cues a frame of
//! the freeze-dance game sends (each phase and countdown number once).
use vstd::prelude::*;
use crate::bridge::supernova_phase_event;
use crate::supernova::{SupernovaOutcome, SupernovaPhase};
use crate::PLAYER_CAPACITY;

verus! {

/// Whether some player's mask is non-empty.
pub open spec fn anyone_acts(masks: [u32; PLAYER_CAPACITY]) -> bool {
    exists|p: int| 0 <= p < 4 && #[trigger] masks[p] != 0
}

fn any_nonzero(masks: [u32; PLAYER_CAPACITY]) -> (b: bool)
    ensures
        b == anyone_acts(masks),
{
    let mut i: usize = 0;
    while i < PLAYER_CAPACITY
        invariant
            i <= PLAYER_CAPACITY,
            forall|p: int| 0 <= p < i ==> #[trigger] masks[p] == 0,
        decreases PLAYER_CAPACITY - i,
    {
        if masks[i] != 0 {
            return true;
        }
        i = i + 1;
    }
    false
}

/// An activity that has not started yet starts as soon as some player holds
/// an action (is seen moving).
pub fn auto_start_due(started: bool, active: [u32; PLAYER_CAPACITY]) -> (b: bool)
    ensures
        b == (!started && anyone_acts(active)),
{
    !started && any_nonzero(active)
}

/// A finished activity replays as soon as some player triggers an action on
/// its result screen.
pub fn replay_due(on_result: bool, triggered: [u32; PLAYER_CAPACITY]) -> (b: bool)
    ensures
        b == (on_result && anyone_acts(triggered)),
{
    on_result && any_nonzero(triggered)
}

/// Kind of the countdown cue (its value is the number shown).
pub const COUNTDOWN_CUE: u32 = 1;
/// Kind of the perfect-freeze cue.
pub const PERFECT_FREEZE_CUE: u32 = 4;

/// The cue a phase change sends, if any.
pub open spec fn phase_cue(phase: SupernovaPhase, outcome: Option<SupernovaOutcome>) -> Option<(u32, u32)> {
    match phase {
        SupernovaPhase::Dance => Some((2u32, 0u32)),
        SupernovaPhase::Freeze => Some((3u32, 0u32)),
        SupernovaPhase::Drop => Some((5u32, 0u32)),
        SupernovaPhase::Result => Some((6u32, if outcome == Some(SupernovaOutcome::FullSupernova) { 0u32 } else { 1u32 })),
        _ => None,
    }
}

/// The party-director cues already sent.
#[derive(Clone, Copy, Debug, PartialEq, Eq, Structural)]
pub struct PartyCues {
    /// Phase whose cue was last sent.
    pub phase_sent: SupernovaPhase,
    /// Countdown number last sent (`u8::MAX` when none).
    pub countdown_sent: u8,
}

/// The cues of one frame, in order: phase, countdown number, perfect freeze.
pub type FrameCues = [Option<(u32, u32)>; 3];

impl PartyCues {
    /// Nothing sent yet.
    pub fn new() -> (c: PartyCues)
        ensures
            c == (PartyCues { phase_sent: SupernovaPhase::Ready, countdown_sent: u8::MAX }),
    {
        PartyCues { phase_sent: SupernovaPhase::Ready, countdown_sent: u8::MAX }
    }

    /// The cues a frame sends. When the phase changed, its cue goes out (if
    /// it has one) and entering the countdown re-arms the countdown cue.
    /// During the countdown, a number (the host's remaining seconds rounded
    /// up) that differs from the last one sent and is at least 1 goes out.
    /// A perfect freeze always sends its cue.
    pub fn frame_cues(&mut self, phase: SupernovaPhase, outcome: Option<SupernovaOutcome>, countdown_number: u8, perfect_freeze: bool) -> (cues: FrameCues)
        ensures
            ({
                let changed = phase != old(self).phase_sent;
                let armed = if changed && phase == SupernovaPhase::Countdown { u8::MAX } else { old(self).countdown_sent };
                let counts = phase == SupernovaPhase::Countdown && countdown_number != armed && countdown_number >= 1;
                &&& cues[0] == (if changed { phase_cue(phase, outcome) } else { None })
                &&& cues[1] == (if counts { Some((COUNTDOWN_CUE, countdown_number as u32)) } else { None })
                &&& cues[2] == (if perfect_freeze { Some((PERFECT_FREEZE_CUE, 0u32)) } else { None })
                &&& final(self).phase_sent == phase
                &&& final(self).countdown_sent == (if counts { countdown_number } else { armed })
            }),
    {
        let mut cues: FrameCues = [None, None, None];
        if phase != self.phase_sent {
            cues[0] = supernova_phase_event(phase, outcome);
            if phase == SupernovaPhase::Countdown {
                self.countdown_sent = u8::MAX;
            }
            self.phase_sent = phase;
        }
        if phase == SupernovaPhase::Countdown && countdown_number != self.countdown_sent && countdown_number >= 1 {
            self.countdown_sent = countdown_number;
            cues[1] = Some((COUNTDOWN_CUE, countdown_number as u32));
        }
        if perfect_freeze {
            cues[2] = Some((PERFECT_FREEZE_CUE, 0));
        }
        cues
    }
}

} // verus!
