pub use crate::run_files::RunFileInfo;
use vstd::prelude::*;

verus! {

/// How timestamps in a video are entered: as clock time or as frame numbers.
#[derive(Debug, Clone, Copy, PartialEq, Eq, Structural)]
pub enum MeasurementUnit {
    Time,
    Frame,
}

impl Default for MeasurementUnit {
    fn default() -> (r: Self)
        ensures
            r == MeasurementUnit::Time,
    {
        MeasurementUnit::Time
    }
}

pub open spec fn measurement_unit_label(unit: MeasurementUnit) -> Seq<char> {
    match unit {
        MeasurementUnit::Time => "Time"@,
        MeasurementUnit::Frame => "Frame"@,
    }
}

impl MeasurementUnit {
    pub fn label(self) -> (r: &'static str)
        ensures
            r@ == measurement_unit_label(self),
    {
        match self {
            MeasurementUnit::Time => "Time",
            MeasurementUnit::Frame => "Frame",
        }
    }
}

/// What an unsuccessful attempt does to the run.
#[derive(Debug, Clone, Copy, PartialEq, Eq, Structural)]
pub enum FalseClickAction {
    RetryRound,
    EndRun,
}

impl Default for FalseClickAction {
    fn default() -> (r: Self)
        ensures
            r == FalseClickAction::RetryRound,
    {
        FalseClickAction::RetryRound
    }
}

/// How an attempt ended.
#[derive(Debug, Clone, Copy, PartialEq, Eq, Structural)]
pub enum RoundOutcome {
    Hit,
    TooSoon,
    TooLateNoClick,
}

pub open spec fn round_outcome_label(outcome: RoundOutcome) -> Seq<char> {
    match outcome {
        RoundOutcome::Hit => "Hit"@,
        RoundOutcome::TooSoon => "Too soon"@,
        RoundOutcome::TooLateNoClick => "Too late, no click"@,
    }
}

impl RoundOutcome {
    pub fn label(self) -> (r: &'static str)
        ensures
            r@ == round_outcome_label(self),
    {
        match self {
            RoundOutcome::Hit => "Hit",
            RoundOutcome::TooSoon => "Too soon",
            RoundOutcome::TooLateNoClick => "Too late, no click",
        }
    }

    pub fn is_hit(self) -> (r: bool)
        ensures
            r == (self == RoundOutcome::Hit),
    {
        match self {
            RoundOutcome::Hit => true,
            _ => false,
        }
    }
}

/// A time-of-day style timestamp: minutes, seconds, milliseconds.
#[derive(Debug, Clone, Copy, PartialEq, Eq, Structural, Default)]
pub struct VideoTimeStamp {
    pub minutes: u64,
    pub seconds: u64,
    pub milliseconds: u64,
}

/// The timestamp in milliseconds.
pub open spec fn video_time_ms(t: VideoTimeStamp) -> int {
    (t.minutes * 60 + t.seconds) * 1000 + t.milliseconds
}

impl VideoTimeStamp {
    /// The timestamp in milliseconds.
    pub fn to_ms(self) -> (r: u64)
        requires
            video_time_ms(self) <= u64::MAX,
        ensures
            r == video_time_ms(self),
    {
        (self.minutes * 60 + self.seconds) * 1000 + self.milliseconds
    }
}

/// A single point in a video, editable either as a clock time or a frame number.
#[derive(Debug, Clone, Copy, PartialEq, Eq, Structural, Default)]
pub struct TimestampInput {
    pub time: VideoTimeStamp,
    pub frame: u64,
}

/// Settings of a run of the video click timing test.
#[derive(Debug, Clone, Copy, PartialEq, Eq, Structural)]
pub struct RunSettings {
    pub min_wait_ms: u64,
    pub max_wait_ms: u64,
    pub round_count: usize,
    pub false_click_action: FalseClickAction,
    pub notify_miss_after_ms: u64,
}

pub fn default_min_wait() -> (r: u64)
    ensures
        r == 500,
{
    500
}

pub fn default_max_wait() -> (r: u64)
    ensures
        r == 5000,
{
    5000
}

pub fn default_round_count() -> (r: usize)
    ensures
        r == 5,
{
    5
}

pub fn default_notify_miss_after() -> (r: u64)
    ensures
        r == 200,
{
    200
}

impl Default for RunSettings {
    fn default() -> (r: Self)
        ensures
            r == (RunSettings {
                min_wait_ms: 500,
                max_wait_ms: 5000,
                round_count: 5,
                false_click_action: FalseClickAction::RetryRound,
                notify_miss_after_ms: 200,
            }),
    {
        RunSettings {
            min_wait_ms: default_min_wait(),
            max_wait_ms: default_max_wait(),
            round_count: default_round_count(),
            false_click_action: FalseClickAction::RetryRound,
            notify_miss_after_ms: default_notify_miss_after(),
        }
    }
}

/// The problems `validation_messages` reports for `s`, in order.
pub open spec fn run_settings_messages(s: RunSettings) -> Seq<Seq<char>> {
    let first: Seq<Seq<char>> = if s.min_wait_ms > s.max_wait_ms {
        seq!["Minimum wait cannot exceed maximum wait."@]
    } else {
        seq![]
    };
    if s.round_count == 0 {
        first.push("Round count must be at least 1."@)
    } else {
        first
    }
}

impl RunSettings {
    /// Human-readable problems that prevent a run with these settings.
    pub fn validation_messages(&self) -> (r: Vec<String>)
        ensures
            r@.map_values(|m: String| m@) == run_settings_messages(*self),
    {
        let mut messages: Vec<String> = Vec::new();
        if self.min_wait_ms > self.max_wait_ms {
            messages.push(String::from_str("Minimum wait cannot exceed maximum wait."));
        }
        if self.round_count == 0 {
            messages.push(String::from_str("Round count must be at least 1."));
        }
        proof {
            assert(messages@.map_values(|m: String| m@) =~= run_settings_messages(*self));
        }
        messages
    }
}

/// One attempt of a run; times are in nanoseconds.
#[derive(Debug, Clone, PartialEq, Eq)]
pub struct RoundResult {
    pub round_number: usize,
    pub attempt_number: usize,
    pub group_name: String,
    pub video_path: String,
    pub appearance_wait_ns: u128,
    pub click_offset_ns: Option<u64>,
    pub outcome: RoundOutcome,
}

impl RoundResult {
    /// An equal copy.
    pub fn duplicate(&self) -> (r: RoundResult)
        ensures
            r == *self,
    {
        RoundResult {
            round_number: self.round_number,
            attempt_number: self.attempt_number,
            group_name: self.group_name.clone(),
            video_path: self.video_path.clone(),
            appearance_wait_ns: self.appearance_wait_ns,
            click_offset_ns: self.click_offset_ns,
            outcome: self.outcome,
        }
    }
}

/// Equal copies of `results`, in order.
pub fn duplicate_results(results: &Vec<RoundResult>) -> (r: Vec<RoundResult>)
    ensures
        r@ == results@,
{
    let mut out: Vec<RoundResult> = Vec::new();
    let n = results.len();
    let mut i: usize = 0;
    while i < n
        invariant
            n == results@.len(),
            0 <= i <= n,
            out@ == results@.take(i as int),
        decreases n - i,
    {
        out.push(results[i].duplicate());
        proof {
            assert(results@.take(i + 1) =~= results@.take(i as int).push(results@[i as int]));
        }
        i = i + 1;
    }
    proof {
        assert(results@.take(n as int) =~= results@);
    }
    out
}

/// A finished run, as it is stored.
#[derive(Debug, Clone)]
pub struct RunData {
    pub timestamp: String,
    pub settings: RunSettings,
    pub attempts: Vec<RoundResult>,
}

/// The screen the test shows.
#[derive(Debug, Clone, Copy, PartialEq, Eq, Structural)]
pub enum AppScreen {
    Start,
    SelectGroup,
    /// Pre-extracting every video in the selected group before round one.
    Preparing,
    Round,
    End,
}

} // verus!
