//! The host bridge: the binary pose-frame format the camera side writes,
//! the numeric mode the page selects, and the numeric codes of the events
//! the game reports back (sound cues, party-director cues, run outcomes).
//!
//! Pose coordinates are IEEE-754 values on the wire; the parser hands back
//! their bit patterns and the host reinterprets them.
use vstd::prelude::*;
use crate::game_state::GameMode;
use crate::runner::{RunnerFeedback, RunnerOutcome};
use crate::supernova::{SupernovaOutcome, SupernovaPhase};

verus! {

/// Version word at the start of a pose buffer.
pub const POSE_WIRE_VERSION: u32 = 1;
/// Header: version, pose count, timestamp in milliseconds (f64).
pub const POSE_HEADER_BYTES: usize = 16;
/// Coordinates per pose: 17 keypoints of x, y and confidence.
pub const KEYPOINT_WORDS: usize = 51;
/// One pose record: tracked id, quality, then the keypoint coordinates.
pub const POSE_RECORD_BYTES: usize = 212;
/// Most poses a buffer carries.
pub const MAX_WIRE_POSES: u32 = 2;

/// A pose as it arrives, floating-point fields as their bit patterns.
#[derive(Clone, Copy, Debug, PartialEq, Eq)]
pub struct WirePose {
    pub tracked_id: u32,
    /// Bits of the f32 tracking quality.
    pub quality_bits: u32,
    /// Bits of the f64 frame timestamp (milliseconds).
    pub timestamp_bits: u64,
    /// Bits of the f32 x, y, confidence of each keypoint in order.
    pub keypoint_bits: [u32; KEYPOINT_WORDS],
}

/// The little-endian word at `at`.
pub open spec fn le_u32(b: Seq<u8>, at: int) -> u32 {
    (b[at] + 256 * b[at + 1] + 65536 * b[at + 2] + 16777216 * b[at + 3]) as u32
}

/// The little-endian double word at `at`.
pub open spec fn le_u64(b: Seq<u8>, at: int) -> u64 {
    (le_u32(b, at) + 4294967296 * le_u32(b, at + 4)) as u64
}

/// How many poses a buffer yields: none unless it holds a whole header of
/// the right version; otherwise the announced count, at most two, and no
/// more than the complete records present.
pub open spec fn wire_pose_count(b: Seq<u8>) -> int {
    if b.len() < POSE_HEADER_BYTES || le_u32(b, 0) != POSE_WIRE_VERSION {
        0
    } else {
        let announced: int = if le_u32(b, 4) < MAX_WIRE_POSES { le_u32(b, 4) as int } else { MAX_WIRE_POSES as int };
        let present: int = (b.len() - POSE_HEADER_BYTES) / (POSE_RECORD_BYTES as int);
        if announced < present { announced } else { present }
    }
}

/// Whether `p` is the `k`-th pose record of the buffer.
pub open spec fn is_wire_pose(b: Seq<u8>, k: int, p: WirePose) -> bool {
    let at = POSE_HEADER_BYTES + k * POSE_RECORD_BYTES;
    &&& p.tracked_id == le_u32(b, at)
    &&& p.quality_bits == le_u32(b, at + 4)
    &&& p.timestamp_bits == le_u64(b, 8)
    &&& forall|j: int| 0 <= j < KEYPOINT_WORDS ==> #[trigger] p.keypoint_bits[j] == le_u32(b, at + 8 + 4 * j)
}

fn read_u32(b: &[u8], at: usize) -> (v: u32)
    requires
        at + 4 <= b@.len(),
    ensures
        v == le_u32(b@, at as int),
{
    (b[at] as u32) + (b[at + 1] as u32) * 256 + (b[at + 2] as u32) * 65536 + (b[at + 3] as u32) * 16777216
}

fn read_u64(b: &[u8], at: usize) -> (v: u64)
    requires
        at + 8 <= b@.len(),
    ensures
        v == le_u64(b@, at as int),
{
    let len = b.len();
    let lo = read_u32(b, at);
    let hi = read_u32(b, at + 4);
    (lo as u64) + (hi as u64) * 4294967296
}

/// Decodes a pose buffer: the version must match and the header be whole;
/// then up to the announced count (at most two) of complete records follow,
/// a trailing partial record being dropped.
pub fn parse_pose_frames(b: &[u8]) -> (poses: Vec<WirePose>)
    ensures
        poses@.len() == wire_pose_count(b@),
        forall|k: int| 0 <= k < poses@.len() ==> is_wire_pose(b@, k, #[trigger] poses@[k]),
{
    let mut poses: Vec<WirePose> = Vec::new();
    if b.len() < POSE_HEADER_BYTES || read_u32(b, 0) != POSE_WIRE_VERSION {
        return poses;
    }
    let announced = read_u32(b, 4);
    let count: usize = if announced < MAX_WIRE_POSES { announced as usize } else { MAX_WIRE_POSES as usize };
    let timestamp_bits = read_u64(b, 8);
    let len = b.len();
    let mut at: usize = POSE_HEADER_BYTES;
    let mut k: usize = 0;
    while k < count && POSE_RECORD_BYTES <= b.len() - at
        invariant
            b@.len() >= POSE_HEADER_BYTES,
            len == b@.len(),
            count <= MAX_WIRE_POSES,
            k <= count,
            at == POSE_HEADER_BYTES + k * POSE_RECORD_BYTES,
            at <= b@.len(),
            timestamp_bits == le_u64(b@, 8),
            poses@.len() == k,
            forall|i: int| 0 <= i < k ==> is_wire_pose(b@, i, #[trigger] poses@[i]),
            k * POSE_RECORD_BYTES <= b@.len() - POSE_HEADER_BYTES,
        decreases count - k,
    {
        let mut words = [0u32; KEYPOINT_WORDS];
        let mut j: usize = 0;
        while j < KEYPOINT_WORDS
            invariant
                j <= KEYPOINT_WORDS,
                at + POSE_RECORD_BYTES <= b@.len(),
                len == b@.len(),
                forall|i: int| 0 <= i < j ==> #[trigger] words[i] == le_u32(b@, at + 8 + 4 * i),
            decreases KEYPOINT_WORDS - j,
        {
            words[j] = read_u32(b, at + 8 + 4 * j);
            j = j + 1;
        }
        let pose = WirePose {
            tracked_id: read_u32(b, at),
            quality_bits: read_u32(b, at + 4),
            timestamp_bits,
            keypoint_bits: words,
        };
        poses.push(pose);
        at = at + POSE_RECORD_BYTES;
        k = k + 1;
    }
    proof {
        let present: int = (b@.len() - POSE_HEADER_BYTES) / (POSE_RECORD_BYTES as int);
        assert(k == count || b@.len() - at < POSE_RECORD_BYTES);
        assert(k <= present) by (nonlinear_arith)
            requires
                k * POSE_RECORD_BYTES <= b@.len() - POSE_HEADER_BYTES,
                present == (b@.len() - POSE_HEADER_BYTES) / (POSE_RECORD_BYTES as int),
                POSE_RECORD_BYTES == 212;
        if k < count {
            assert(present <= k) by (nonlinear_arith)
                requires
                    b@.len() - (POSE_HEADER_BYTES + k * POSE_RECORD_BYTES) < POSE_RECORD_BYTES,
                    present == (b@.len() - POSE_HEADER_BYTES) / (POSE_RECORD_BYTES as int),
                    POSE_RECORD_BYTES == 212,
                    POSE_HEADER_BYTES == 16;
        }
    }
    poses
}

} // verus!

verus! {

/// How the page's numeric mode selects what runs: 3 the freeze-dance drop,
/// 4 a config-driven game, anything else the runner in the mode of that
/// number.
#[derive(Clone, Copy, Debug, PartialEq, Eq, Structural)]
pub enum HostMode {
    Runner(GameMode),
    Supernova,
    Custom,
}

/// The activity a numeric page mode selects.
pub fn host_mode(raw: u32) -> (m: HostMode)
    ensures
        raw == 3 ==> m == HostMode::Supernova,
        raw == 4 ==> m == HostMode::Custom,
        raw != 3 && raw != 4 ==> m == HostMode::Runner(
            if raw == 1 { GameMode::BeatStrike } else if raw == 2 { GameMode::DuoGroove } else { GameMode::MirrorBeat }),
{
    if raw == 3 {
        HostMode::Supernova
    } else if raw == 4 {
        HostMode::Custom
    } else {
        HostMode::Runner(GameMode::from_value(raw))
    }
}

/// Sound cue of a runner feedback: none (0), dodge (1), crash (2), beat
/// pickup (3).
pub fn feedback_sound(feedback: RunnerFeedback) -> (code: u32)
    ensures
        code == match feedback {
            RunnerFeedback::Quiet => 0u32,
            RunnerFeedback::Dodge => 1u32,
            RunnerFeedback::Crash => 2u32,
            RunnerFeedback::BeatPickup => 3u32,
        },
{
    match feedback {
        RunnerFeedback::Quiet => 0,
        RunnerFeedback::Dodge => 1,
        RunnerFeedback::Crash => 2,
        RunnerFeedback::BeatPickup => 3,
    }
}

/// Code of a finished run's outcome: break complete (1), energy spent (2).
pub fn run_outcome_code(outcome: RunnerOutcome) -> (code: u32)
    ensures
        code == match outcome {
            RunnerOutcome::BreakComplete => 1u32,
            RunnerOutcome::EnergySpent => 2u32,
        },
{
    match outcome {
        RunnerOutcome::BreakComplete => 1,
        RunnerOutcome::EnergySpent => 2,
    }
}

/// Party-director cue when the freeze-dance game enters `phase`: dance (2),
/// freeze (3), drop (5) and result (6), the result carrying 0 for a full
/// supernova and 1 otherwise; no cue for the other phases.
pub fn supernova_phase_event(phase: SupernovaPhase, outcome: Option<SupernovaOutcome>) -> (event: Option<(u32, u32)>)
    ensures
        event == match phase {
            SupernovaPhase::Dance => Some((2u32, 0u32)),
            SupernovaPhase::Freeze => Some((3u32, 0u32)),
            SupernovaPhase::Drop => Some((5u32, 0u32)),
            SupernovaPhase::Result => Some((6u32, if outcome == Some(SupernovaOutcome::FullSupernova) { 0u32 } else { 1u32 })),
            _ => None,
        },
{
    match phase {
        SupernovaPhase::Dance => Some((2, 0)),
        SupernovaPhase::Freeze => Some((3, 0)),
        SupernovaPhase::Drop => Some((5, 0)),
        SupernovaPhase::Result => {
            let value = match outcome {
                Some(SupernovaOutcome::FullSupernova) => 0,
                _ => 1,
            };
            Some((6, value))
        },
        _ => None,
    }
}

} // verus!
