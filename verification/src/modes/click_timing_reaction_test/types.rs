//! The discrete values of the click timing reaction test. The settings and the
//! per-attempt measurements are floating-point and are kept by the application.

pub use crate::run_files::RunFileInfo;
use vstd::prelude::*;

verus! {

#[derive(Debug, Clone, Copy, PartialEq, Eq, Structural)]
pub enum CrosshairStyle {
    Regular,
    Plus,
    CircularDot,
}

impl Default for CrosshairStyle {
    fn default() -> (r: Self)
        ensures
            r == CrosshairStyle::Regular,
    {
        CrosshairStyle::Regular
    }
}

#[derive(Debug, Clone, Copy, PartialEq, Eq, Structural)]
pub enum InitialVelocityMode {
    Full,
    Mixed,
    Zero,
}

impl Default for InitialVelocityMode {
    fn default() -> (r: Self)
        ensures
            r == InitialVelocityMode::Full,
    {
        InitialVelocityMode::Full
    }
}

#[derive(Debug, Clone, Copy, PartialEq, Eq, Structural)]
pub enum FalseClickAction {
    RetryRound,
    EndRun,
}

impl Default for FalseClickAction {
    fn default() -> (r: Self)
        ensures
            r == FalseClickAction::RetryRound,
    {
        FalseClickAction::RetryRound
    }
}

/// The side the target comes in from.
#[derive(Debug, Clone, Copy, PartialEq, Eq, Structural)]
pub enum TargetDirection {
    FromLeft,
    FromRight,
}

pub open spec fn target_direction_label(d: TargetDirection) -> Seq<char> {
    match d {
        TargetDirection::FromLeft => "Left"@,
        TargetDirection::FromRight => "Right"@,
    }
}

impl TargetDirection {
    pub fn label(self) -> (r: &'static str)
        ensures
            r@ == target_direction_label(self),
    {
        match self {
            TargetDirection::FromLeft => "Left",
            TargetDirection::FromRight => "Right",
        }
    }
}

/// Whether the target stops on the crosshair or runs on to the opposite wall.
#[derive(Debug, Clone, Copy, PartialEq, Eq, Structural)]
pub enum StopBehavior {
    StopOnCrosshair,
    ContinueToOppositeWall,
}

pub open spec fn stop_behavior_label(b: StopBehavior) -> Seq<char> {
    match b {
        StopBehavior::StopOnCrosshair => "Stop on crosshair"@,
        StopBehavior::ContinueToOppositeWall => "Continue to opposite wall"@,
    }
}

impl StopBehavior {
    pub fn label(self) -> (r: &'static str)
        ensures
            r@ == stop_behavior_label(self),
    {
        match self {
            StopBehavior::StopOnCrosshair => "Stop on crosshair",
            StopBehavior::ContinueToOppositeWall => "Continue to opposite wall",
        }
    }
}

/// How an attempt ended.
#[derive(Debug, Clone, Copy, PartialEq, Eq, Structural)]
pub enum RoundOutcome {
    Hit,
    TooSoon,
    AlmostThereTooSoon,
    AlmostThereTooLate,
    TooLateClick,
    TooLateNoClick,
}

pub open spec fn round_outcome_label(o: RoundOutcome) -> Seq<char> {
    match o {
        RoundOutcome::Hit => "Hit"@,
        RoundOutcome::TooSoon => "Too soon"@,
        RoundOutcome::AlmostThereTooSoon => "Almost there, too soon"@,
        RoundOutcome::AlmostThereTooLate => "Almost there, too late"@,
        RoundOutcome::TooLateClick => "Too late click"@,
        RoundOutcome::TooLateNoClick => "Too late, no click"@,
    }
}

impl RoundOutcome {
    pub fn label(self) -> (r: &'static str)
        ensures
            r@ == round_outcome_label(self),
    {
        match self {
            RoundOutcome::Hit => "Hit",
            RoundOutcome::TooSoon => "Too soon",
            RoundOutcome::AlmostThereTooSoon => "Almost there, too soon",
            RoundOutcome::AlmostThereTooLate => "Almost there, too late",
            RoundOutcome::TooLateClick => "Too late click",
            RoundOutcome::TooLateNoClick => "Too late, no click",
        }
    }

    pub fn is_hit(self) -> (r: bool)
        ensures
            r == (self == RoundOutcome::Hit),
    {
        match self {
            RoundOutcome::Hit => true,
            _ => false,
        }
    }
}

/// The screen the test shows.
#[derive(Debug, Clone, Copy, PartialEq, Eq, Structural)]
pub enum AppScreen {
    Start,
    Round,
    End,
}

/// The phase of the current round.
#[derive(Debug, Clone, Copy, PartialEq, Eq, Structural)]
pub enum RoundState {
    Waiting,
    Moving,
    ResultShowing,
}

/// The default crosshair colour, as RGBA.
pub fn default_crosshair_color() -> (r: [u8; 4])
    ensures
        r@ == seq![255u8, 210u8, 40u8, 255u8],
{
    [255, 210, 40, 255]
}

/// The default colour of the crosshair's outline, as RGBA.
pub fn default_crosshair_outline_color() -> (r: [u8; 4])
    ensures
        r@ == seq![0u8, 0u8, 0u8, 255u8],
{
    [0, 0, 0, 255]
}

/// The default colour of the target, as RGBA.
pub fn default_target_color() -> (r: [u8; 4])
    ensures
        r@ == seq![200u8, 200u8, 255u8, 255u8],
{
    [200, 200, 255, 255]
}

/// By default the target may also run on to the opposite wall.
pub fn default_stop_on_crosshair() -> (r: bool)
    ensures
        !r,
{
    false
}

/// The default time, in milliseconds, the target takes to reach full speed.
pub fn default_acceleration_duration() -> (r: u64)
    ensures
        r == 500,
{
    500
}

/// The default time, in milliseconds, the target takes to come to a stop.
pub fn default_deceleration_duration() -> (r: u64)
    ensures
        r == 125,
{
    125
}

/// The default time, in milliseconds, after which a missed target counts as no click.
pub fn default_notify_miss_after() -> (r: u64)
    ensures
        r == 200,
{
    200
}

/// By default the target may come from the left.
pub fn default_target_direction_left() -> (r: bool)
    ensures
        r,
{
    true
}

/// By default the target may come from the right.
pub fn default_target_direction_right() -> (r: bool)
    ensures
        r,
{
    true
}

/// The default shortest wait before the target appears, in milliseconds.
pub fn default_min_wait() -> (r: u64)
    ensures
        r == 500,
{
    500
}

/// The default longest wait before the target appears, in milliseconds.
pub fn default_max_wait() -> (r: u64)
    ensures
        r == 5000,
{
    5000
}

/// The default number of rounds in a run.
pub fn default_round_count() -> (r: usize)
    ensures
        r == 5,
{
    5
}

} // verus!
