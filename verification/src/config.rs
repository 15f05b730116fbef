//! Data-driven game configuration: which actions a custom game uses, its core
//! mechanic, how it ends and how it looks. The tuning numbers in seconds and
//! multipliers (scoring, pacing, challenge) are held by the host.
use vstd::prelude::*;

verus! {

/// Most action slots a game may use.
pub const MAX_ACTIONS: usize = 3;

/// The primary gameplay verb.
#[derive(Clone, Copy, Debug, PartialEq, Eq, Structural)]
pub enum Mechanic {
    /// Dodge incoming obstacles.
    Dodge,
    /// Pump energy by acting on the beat.
    Pump,
    /// Catch falling targets by moving into them.
    Catch,
    /// Hold a pose for a required duration.
    Hold,
    /// Mimic a shown action sequence.
    Pattern,
}

impl Default for Mechanic {
    fn default() -> (m: Mechanic)
        ensures
            m == Mechanic::Dodge,
    {
        Mechanic::Dodge
    }
}

/// Intensity curve shape over a session.
#[derive(Clone, Copy, Debug, PartialEq, Eq, Structural)]
pub enum IntensityCurve {
    /// Rise, peak, release.
    BreathArc,
    /// Linear ramp.
    SteadyRamp,
    /// Sinusoidal waves.
    Waves,
}

impl Default for IntensityCurve {
    fn default() -> (c: IntensityCurve)
        ensures
            c == IntensityCurve::BreathArc,
    {
        IntensityCurve::BreathArc
    }
}

/// How a session ends.
#[derive(Clone, Copy, Debug, PartialEq, Eq, Structural)]
pub enum EndMode {
    /// When the timer expires.
    TimeBased,
    /// When every evaluated player is out of lives.
    LifeBased,
    /// When the team reaches the goal score.
    GoalBased,
}

impl Default for EndMode {
    fn default() -> (m: EndMode)
        ensures
            m == EndMode::TimeBased,
    {
        EndMode::TimeBased
    }
}

/// Visual style preset.
#[derive(Clone, Copy, Debug, PartialEq, Eq, Structural)]
pub enum ThemeStyle {
    Neon,
    Cosmic,
    Minimal,
}

impl Default for ThemeStyle {
    fn default() -> (s: ThemeStyle)
        ensures
            s == ThemeStyle::Neon,
    {
        ThemeStyle::Neon
    }
}

/// Lives per player when none are configured.
pub fn default_lives() -> (l: u8)
    ensures
        l == 3,
{
    3
}

/// Goal score when none is configured.
pub fn default_goal_score() -> (g: u32)
    ensures
        g == 100,
{
    100
}

/// Primary theme colour when none is configured (0xRRGGBB).
pub fn default_primary() -> (c: u32)
    ensures
        c == 0x00E5FF,
{
    0x00E5FF
}

/// Secondary theme colour when none is configured (0xRRGGBB).
pub fn default_secondary() -> (c: u32)
    ensures
        c == 0xFF4081,
{
    0xFF4081
}

/// End condition.
#[derive(Clone, Copy, Debug, PartialEq, Eq, Structural)]
pub struct EndConfig {
    pub mode: EndMode,
    /// Lives (used by `LifeBased`).
    pub lives: u8,
    /// Goal score (used by `GoalBased`).
    pub goal_score: u32,
}

impl Default for EndConfig {
    fn default() -> (c: EndConfig)
        ensures
            c == (EndConfig { mode: EndMode::TimeBased, lives: 3, goal_score: 100 }),
    {
        EndConfig { mode: EndMode::default(), lives: default_lives(), goal_score: default_goal_score() }
    }
}

/// Visual theme.
#[derive(Clone, Copy, Debug, PartialEq, Eq, Structural)]
pub struct ThemeConfig {
    /// Primary colour, 0xRRGGBB.
    pub primary: u32,
    /// Secondary colour, 0xRRGGBB.
    pub secondary: u32,
    pub style: ThemeStyle,
}

impl Default for ThemeConfig {
    fn default() -> (c: ThemeConfig)
        ensures
            c == (ThemeConfig { primary: 0x00E5FF, secondary: 0xFF4081, style: ThemeStyle::Neon }),
    {
        ThemeConfig { primary: default_primary(), secondary: default_secondary(), style: ThemeStyle::default() }
    }
}

/// A custom game's configuration.
#[derive(Clone, Debug)]
pub struct GameConfig {
    /// Schema version (currently 1).
    pub schema_version: u8,
    /// Unique slug.
    pub id: String,
    /// Display title.
    pub title: String,
    /// Action masks of the three slots; 0 is an empty slot.
    pub actions: [u32; MAX_ACTIONS],
    pub mechanic: Mechanic,
    pub end: EndConfig,
    pub theme: ThemeConfig,
}

/// The non-empty action slots, in slot order.
pub open spec fn nonzero_actions(actions: Seq<u32>) -> Seq<u32> {
    actions.filter(|a: u32| a != 0)
}

/// The union of the configured action masks.
pub open spec fn allowed_mask(actions: [u32; MAX_ACTIONS]) -> u32 {
    0u32 | actions[0] | actions[1] | actions[2]
}

impl GameConfig {
    /// A parsed configuration is usable: schema 1 with a title and an id.
    pub open spec fn is_valid(self) -> bool {
        self.schema_version == 1 && self.title@.len() > 0 && self.id@.len() > 0
    }

    /// Keeps a parsed configuration only if it is usable.
    pub fn accept(self) -> (r: Option<GameConfig>)
        ensures
            self.is_valid() ==> r == Some(self),
            !self.is_valid() ==> r is None,
    {
        if self.schema_version != 1 {
            return None;
        }
        if self.title.as_str().is_empty() || self.id.as_str().is_empty() {
            return None;
        }
        Some(self)
    }

    /// The non-empty action masks, in slot order.
    pub fn active_actions(&self) -> (v: Vec<u32>)
        ensures
            v@ == nonzero_actions(self.actions@),
            v@.len() <= MAX_ACTIONS,
    {
        let mut v: Vec<u32> = Vec::new();
        let mut i: usize = 0;
        while i < MAX_ACTIONS
            invariant
                i <= MAX_ACTIONS,
                v@ == nonzero_actions(self.actions@.take(i as int)),
                v@.len() <= i,
            decreases MAX_ACTIONS - i,
        {
            proof {
                reveal(Seq::filter);
                assert(self.actions@.take(i as int + 1).drop_last() =~= self.actions@.take(i as int));
            }
            if self.actions[i] != 0 {
                v.push(self.actions[i]);
            }
            i = i + 1;
        }
        assert(self.actions@.take(3) =~= self.actions@);
        v
    }

    /// Whether `triggered_mask` holds any of this game's actions.
    pub fn matches_action(&self, triggered_mask: u32) -> (b: bool)
        ensures
            b == (triggered_mask & allowed_mask(self.actions) != 0),
    {
        let mut allowed: u32 = 0;
        let mut i: usize = 0;
        while i < MAX_ACTIONS
            invariant
                i <= MAX_ACTIONS,
                i == 0 ==> allowed == 0u32,
                i == 1 ==> allowed == 0u32 | self.actions[0],
                i == 2 ==> allowed == 0u32 | self.actions[0] | self.actions[1],
                i == 3 ==> allowed == allowed_mask(self.actions),
            decreases MAX_ACTIONS - i,
        {
            allowed = allowed | self.actions[i];
            i = i + 1;
        }
        triggered_mask & allowed != 0
    }
}

/// A configured action never matches an empty mask, and a mask that holds a
/// configured action always matches.
pub proof fn lemma_matches_configured_actions(actions: [u32; MAX_ACTIONS], mask: u32, slot: int)
    requires
        0 <= slot < MAX_ACTIONS,
    ensures
        0u32 & allowed_mask(actions) == 0,
        mask & actions[slot] != 0 ==> mask & allowed_mask(actions) != 0,
{
    let a0 = actions[0];
    let a1 = actions[1];
    let a2 = actions[2];
    assert(0u32 & (0u32 | a0 | a1 | a2) == 0) by (bit_vector);
    assert(mask & a0 != 0 ==> mask & (0u32 | a0 | a1 | a2) != 0) by (bit_vector);
    assert(mask & a1 != 0 ==> mask & (0u32 | a0 | a1 | a2) != 0) by (bit_vector);
    assert(mask & a2 != 0 ==> mask & (0u32 | a0 | a1 | a2) != 0) by (bit_vector);
}

/// Red, green and blue bytes of a 0xRRGGBB colour.
pub fn color_channels(hex: u32) -> (rgb: (u8, u8, u8))
    ensures
        rgb.0 == (hex / 0x10000) % 0x100,
        rgb.1 == (hex / 0x100) % 0x100,
        rgb.2 == hex % 0x100,
{
    let r = (hex >> 16) & 0xFF;
    let g = (hex >> 8) & 0xFF;
    let b = hex & 0xFF;
    assert(r == (hex / 0x10000) % 0x100) by (bit_vector)
        requires
            r == (hex >> 16) & 0xFF;
    assert(g == (hex / 0x100) % 0x100) by (bit_vector)
        requires
            g == (hex >> 8) & 0xFF;
    assert(b == hex % 0x100) by (bit_vector)
        requires
            b == hex & 0xFF;
    (r as u8, g as u8, b as u8)
}

/// Short on-screen label of a single action mask.
pub open spec fn action_short_label(action: u32) -> &'static str {
    if action == 1 {
        "L"
    } else if action == 2 {
        "R"
    } else if action == 4 {
        "JMP"
    } else if action == 8 {
        "SQT"
    } else if action == 16 {
        "LH"
    } else if action == 32 {
        "RH"
    } else if action == 64 {
        "CLP"
    } else {
        "?"
    }
}

/// Short on-screen label of a single action mask ("?" for anything else).
pub fn action_label(action: u32) -> (s: &'static str)
    ensures
        s == action_short_label(action),
{
    match action {
        1 => "L",
        2 => "R",
        4 => "JMP",
        8 => "SQT",
        16 => "LH",
        32 => "RH",
        64 => "CLP",
        _ => "?",
    }
}

} // verus!
