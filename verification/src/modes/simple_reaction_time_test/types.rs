pub use crate::run_files::RunFileInfo;
use vstd::prelude::*;

verus! {

/// What a click before the react colour appears does to the run.
#[derive(Debug, Clone, Copy, PartialEq, Eq, Structural)]
pub enum FalseClickAction {
    RetryRound,
    EndRun,
}

impl Default for FalseClickAction {
    fn default() -> (r: Self)
        ensures
            r == FalseClickAction::RetryRound,
    {
        FalseClickAction::RetryRound
    }
}

/// The user-editable settings of the simple reaction time test.
#[derive(Debug, Clone, Copy, PartialEq, Eq)]
pub struct Configurables {
    pub wait_color: [u8; 3],
    pub react_color: [u8; 3],
    pub min_wait_ms: u64,
    pub max_wait_ms: u64,
    pub round_count: usize,
    pub false_click_action: FalseClickAction,
}

pub fn default_wait_color() -> (r: [u8; 3])
    ensures
        r@ == seq![255u8, 0u8, 0u8],
{
    [255, 0, 0]
}

pub fn default_react_color() -> (r: [u8; 3])
    ensures
        r@ == seq![0u8, 255u8, 0u8],
{
    [0, 255, 0]
}

pub fn default_min_wait() -> (r: u64)
    ensures
        r == 250,
{
    250
}

pub fn default_max_wait() -> (r: u64)
    ensures
        r == 10000,
{
    10000
}

pub fn default_round_count() -> (r: usize)
    ensures
        r == 5,
{
    5
}

/// The settings a fresh installation starts with.
pub open spec fn default_configurables(c: Configurables) -> bool {
    &&& c.wait_color@ == seq![255u8, 0u8, 0u8]
    &&& c.react_color@ == seq![0u8, 255u8, 0u8]
    &&& c.min_wait_ms == 250
    &&& c.max_wait_ms == 10000
    &&& c.round_count == 5
    &&& c.false_click_action == FalseClickAction::RetryRound
}

impl Default for Configurables {
    fn default() -> (r: Self)
        ensures
            default_configurables(r),
    {
        Configurables {
            wait_color: default_wait_color(),
            react_color: default_react_color(),
            min_wait_ms: default_min_wait(),
            max_wait_ms: default_max_wait(),
            round_count: default_round_count(),
            false_click_action: FalseClickAction::RetryRound,
        }
    }
}

/// The wait bounds can be drawn from: the minimum does not exceed the maximum.
pub open spec fn wait_bounds_ok(c: Configurables) -> bool {
    c.min_wait_ms <= c.max_wait_ms
}

impl Configurables {
    /// Whether a round can be started with these settings.
    pub fn wait_bounds_are_valid(&self) -> (r: bool)
        ensures
            r == wait_bounds_ok(*self),
    {
        self.min_wait_ms <= self.max_wait_ms
    }
}

/// One completed round: how long the wait lasted and how long the reaction took,
/// both in nanoseconds.
#[derive(Debug, Clone, Copy, PartialEq, Eq, Structural)]
pub struct RoundResult {
    pub wait_time_ns: u128,
    pub reaction_time_ns: u64,
}

/// A finished run, as it is stored.
#[derive(Debug, Clone)]
pub struct RunData {
    pub timestamp: String,
    pub config: Configurables,
    pub rounds: Vec<RoundResult>,
}

/// The screen the test shows.
#[derive(Debug, Clone, Copy, PartialEq, Eq, Structural)]
pub enum AppScreen {
    Start,
    Round,
    End,
}

/// The phase of the current round.
#[derive(Debug, Clone, Copy, PartialEq, Eq, Structural)]
pub enum RoundState {
    Waiting,
    Reacting,
    ResultShowing,
    TooSoon,
}

} // verus!
