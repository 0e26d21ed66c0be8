//! The round state machine of the video click timing test.
//!
//! A round plays up to three decoded video segments: an optional pre-wait clip,
//! the clip that runs up to the click point, and an optional post-click clip.
//! Time is a monotonic clock reading in nanoseconds, supplied by the caller, and
//! a segment is known by its frame count and its duration. Decoding the segments
//! and picking the video are the caller's work: when the machine needs a new
//! round it says so, and the caller begins one with `begin_round`.

use super::types::{
    duplicate_results, AppScreen, FalseClickAction, RoundOutcome, RoundResult, RunData,
    RunSettings,
};
use crate::modes::simple_reaction_time_test::state::{elapsed_between, elapsed_ns, NANOS_PER_MILLI};
use crate::random::random_wait_ns;
use crate::timestamp::{is_run_timestamp, run_timestamp_now};
use vstd::prelude::*;

verus! {

/// The part of a round being played.
#[derive(Debug, Clone, Copy, PartialEq, Eq, Structural)]
pub enum Phase {
    PreWait,
    Waiting,
    PlayingToClick,
    ClickPending,
    PostClick,
    Result,
}

/// The timing of a decoded segment: how many frames it has and how long it plays.
#[derive(Debug, Clone, Copy, PartialEq, Eq, Structural)]
pub struct SegmentTiming {
    pub frame_count: usize,
    pub duration_ns: u64,
}

/// The frame shown `elapsed` nanoseconds into `seg`: frames are spread evenly over
/// the duration, and the last frame stays up once it is reached.
pub open spec fn frame_at(seg: SegmentTiming, elapsed: u64) -> usize {
    if seg.frame_count == 0 {
        0
    } else if seg.duration_ns == 0 {
        (seg.frame_count - 1) as usize
    } else {
        let idx = (elapsed as int * seg.frame_count as int) / seg.duration_ns as int;
        if idx < seg.frame_count - 1 {
            idx as usize
        } else {
            (seg.frame_count - 1) as usize
        }
    }
}

/// The frame shown `elapsed` nanoseconds into `seg`.
pub fn frame_for_elapsed(seg: &SegmentTiming, elapsed: u64) -> (r: usize)
    ensures
        r == frame_at(*seg, elapsed),
        seg.frame_count > 0 ==> r < seg.frame_count,
{
    if seg.frame_count == 0 {
        return 0;
    }
    let last = seg.frame_count - 1;
    if seg.duration_ns == 0 {
        return last;
    }
    proof {
        assert((elapsed as int) * (seg.frame_count as int) <= 0xffff_ffff_ffff_ffff
            * 0xffff_ffff_ffff_ffff) by (nonlinear_arith)
            requires
                elapsed <= 0xffff_ffff_ffff_ffff,
                seg.frame_count <= 0xffff_ffff_ffff_ffff,
        ;
        assert(0xffff_ffff_ffff_ffff * 0xffff_ffff_ffff_ffff <= u128::MAX);
    }
    let product: u128 = (elapsed as u128) * (seg.frame_count as u128);
    let idx = product / (seg.duration_ns as u128);
    if idx < last as u128 {
        idx as usize
    } else {
        last
    }
}

/// Time elapsed since an optional phase start; zero when there is none.
pub open spec fn since(now: u64, start: Option<u64>) -> u64 {
    match start {
        Some(s) => elapsed_ns(now, s),
        None => 0,
    }
}

/// Time elapsed since an optional phase start.
pub fn phase_elapsed(now: u64, start: Option<u64>) -> (r: u64)
    ensures
        r == since(now, start),
{
    match start {
        Some(s) => elapsed_between(now, s),
        None => 0,
    }
}

/// What the caller has to do after an update.
#[derive(Debug)]
pub enum UpdateAction {
    /// Nothing.
    Idle,
    /// The result was acknowledged and the run goes on: begin the next round.
    StartNextRound,
    /// The run is over; here is its record.
    Finished(RunData),
}

pub struct AppState {
    pub screen: AppScreen,
    pub run_settings: RunSettings,
    pub selected_group: Option<usize>,
    pub group_name: String,
    pub current_round: usize,
    pub attempt_results: Vec<RoundResult>,
    pub phase: Phase,
    pub phase_start: Option<u64>,
    pub appearance_wait_ns: u128,
    pub current_video_path: Option<String>,
    pub pre_wait_seg: Option<SegmentTiming>,
    pub to_click_seg: Option<SegmentTiming>,
    pub post_click_seg: Option<SegmentTiming>,
    pub click_point_ns: u64,
    pub click_point_start: Option<u64>,
    pub pending_result: Option<RoundResult>,
    pub last_result: Option<RoundResult>,
    pub last_error: Option<String>,
    pub display_idx: usize,
    /// The run timestamp taken when the current run started; the run is saved under it.
    pub run_timestamp: String,
}

/// The number of hits among `results`.
pub open spec fn hit_count(results: Seq<RoundResult>) -> nat
    decreases results.len(),
{
    if results.len() == 0 {
        0
    } else {
        hit_count(results.drop_last()) + if results.last().outcome == RoundOutcome::Hit {
            1nat
        } else {
            0nat
        }
    }
}

/// Whether the result waiting to be acknowledged is a hit.
pub open spec fn pending_hit(s: AppState) -> nat {
    match s.pending_result {
        Some(p) => if p.outcome == RoundOutcome::Hit {
            1nat
        } else {
            0nat
        },
        None => 0nat,
    }
}

/// What every operation of the machine keeps:
/// attempts are numbered 1, 2, ... in the order they were made; the round counter
/// counts the acknowledged hits; the result awaiting acknowledgement is the last
/// attempt; and while an attempt is under way there is no result awaiting.
pub open spec fn attempts_invariant(s: AppState) -> bool {
    &&& forall|i: int|
        0 <= i < s.attempt_results@.len() ==> #[trigger] s.attempt_results@[i].attempt_number
            == i + 1
    &&& hit_count(s.attempt_results@) == s.current_round + pending_hit(s)
    &&& s.pending_result matches Some(p) ==> s.attempt_results@.len() > 0
        && s.attempt_results@.last() == p
    &&& (s.phase != Phase::Result && s.phase != Phase::PostClick) ==> s.pending_result is None
}

/// Every segment on hand has at least one frame.
pub open spec fn segments_have_frames(s: AppState) -> bool {
    &&& s.pre_wait_seg matches Some(g) ==> g.frame_count > 0
    &&& s.to_click_seg matches Some(g) ==> g.frame_count > 0
    &&& s.post_click_seg matches Some(g) ==> g.frame_count > 0
}

/// The larger of the configured round count and one.
pub open spec fn rounds_per_run(s: RunSettings) -> int {
    if s.round_count >= 1 {
        s.round_count as int
    } else {
        1
    }
}

/// `a` is the attempt `record_result` makes of `pre` for an outcome and a click offset.
pub open spec fn is_attempt_of(
    a: RoundResult,
    pre: AppState,
    outcome: RoundOutcome,
    offset: Option<u64>,
) -> bool {
    &&& a.round_number == pre.current_round + 1
    &&& a.attempt_number == pre.attempt_results@.len() + 1
    &&& a.group_name == pre.group_name
    &&& a.video_path@ == match pre.current_video_path {
        Some(p) => p@,
        None => Seq::<char>::empty(),
    }
    &&& a.appearance_wait_ns == pre.appearance_wait_ns
    &&& a.click_offset_ns == offset
    &&& a.outcome == outcome
}

/// `post` is `pre` with one more attempt, awaiting acknowledgement, recorded at `now`.
pub open spec fn attempt_added(
    pre: AppState,
    post: AppState,
    now: u64,
    outcome: RoundOutcome,
    offset: Option<u64>,
) -> bool {
    let a = post.attempt_results@.last();
    &&& post.attempt_results@.len() == pre.attempt_results@.len() + 1
    &&& post.attempt_results@.drop_last() == pre.attempt_results@
    &&& is_attempt_of(a, pre, outcome, offset)
    &&& post.last_result == Some(a)
    &&& post.pending_result == Some(a)
    &&& post.phase_start == Some(now)
}

/// `post` is `pre` with the attempt recorded at `now` and shown as the result.
pub open spec fn recorded(
    pre: AppState,
    post: AppState,
    now: u64,
    outcome: RoundOutcome,
    offset: Option<u64>,
) -> bool {
    attempt_added(pre, post, now, outcome, offset) && post.phase == Phase::Result
}

/// `post` is `pre` with a hit recorded at `now`; the post-click clip, if any, starts playing.
pub open spec fn hit_recorded(pre: AppState, post: AppState, now: u64, offset: u64) -> bool {
    &&& attempt_added(pre, post, now, RoundOutcome::Hit, Some(offset))
    &&& if pre.post_click_seg is Some {
        post.phase == Phase::PostClick && post.display_idx == 0
    } else {
        post.phase == Phase::Result
    }
}

/// The fields an update never touches keep their values.
pub open spec fn untouched(pre: AppState, post: AppState) -> bool {
    &&& post.run_settings == pre.run_settings
    &&& post.selected_group == pre.selected_group
    &&& post.group_name == pre.group_name
    &&& post.appearance_wait_ns == pre.appearance_wait_ns
    &&& post.current_video_path == pre.current_video_path
    &&& post.pre_wait_seg == pre.pre_wait_seg
    &&& post.to_click_seg == pre.to_click_seg
    &&& post.post_click_seg == pre.post_click_seg
    &&& post.click_point_ns == pre.click_point_ns
    &&& post.last_error == pre.last_error
    &&& post.run_timestamp == pre.run_timestamp
}

/// `post` is `pre` with the phase switched at `now`.
pub open spec fn switched(pre: AppState, post: AppState, phase: Phase, now: u64) -> bool {
    &&& post.phase == phase
    &&& post.phase_start == Some(now)
    &&& post.screen == pre.screen
    &&& post.current_round == pre.current_round
    &&& post.attempt_results@ == pre.attempt_results@
    &&& post.pending_result == pre.pending_result
    &&& post.last_result == pre.last_result
}

/// `post` is `pre` with nothing changed but the frame on display.
pub open spec fn only_frame(pre: AppState, post: AppState) -> bool {
    &&& post.phase == pre.phase
    &&& post.phase_start == pre.phase_start
    &&& post.click_point_start == pre.click_point_start
    &&& post.screen == pre.screen
    &&& post.current_round == pre.current_round
    &&& post.attempt_results@ == pre.attempt_results@
    &&& post.pending_result == pre.pending_result
    &&& post.last_result == pre.last_result
}

/// What acknowledging the awaited result does.
pub open spec fn acknowledged(pre: AppState, post: AppState, action: UpdateAction) -> bool {
    match pre.pending_result {
        None => action is Idle && post == pre,
        Some(p) => {
            &&& post.pending_result is None
            &&& post.phase == pre.phase
            &&& post.phase_start == pre.phase_start
            &&& post.attempt_results@ == pre.attempt_results@
            &&& post.last_result == pre.last_result
            &&& if p.outcome == RoundOutcome::Hit {
                let next = pre.current_round + 1;
                &&& post.current_round == next
                &&& if next >= rounds_per_run(pre.run_settings) {
                    &&& post.screen == AppScreen::End
                    &&& action matches UpdateAction::Finished(run) && run.settings
                        == pre.run_settings && run.attempts@ == pre.attempt_results@
                        && run.timestamp@ == pre.run_timestamp@
                } else {
                    post.screen == pre.screen && action is StartNextRound
                }
            } else {
                &&& post.current_round == pre.current_round
                &&& match pre.run_settings.false_click_action {
                    FalseClickAction::RetryRound => post.screen == pre.screen
                        && action is StartNextRound,
                    FalseClickAction::EndRun => {
                        &&& post.screen == AppScreen::End
                        &&& action matches UpdateAction::Finished(run) && run.settings
                            == pre.run_settings && run.attempts@ == pre.attempt_results@
                            && run.timestamp@ == pre.run_timestamp@
                    },
                }
            }
        },
    }
}

/// What an update at `now` does, for each phase, with or without a click.
pub open spec fn update_transition(
    pre: AppState,
    post: AppState,
    now: u64,
    clicked: bool,
    action: UpdateAction,
) -> bool {
    if pre.screen != AppScreen::Round {
        action is Idle && post == pre
    } else {
        match pre.phase {
            Phase::PreWait => match pre.pre_wait_seg {
                None => action is Idle && switched(pre, post, Phase::Waiting, now),
                Some(seg) => {
                    let elapsed = since(now, pre.phase_start);
                    &&& action is Idle
                    &&& if clicked {
                        recorded(pre, post, now, RoundOutcome::TooSoon, None)
                    } else if elapsed >= seg.duration_ns {
                        &&& switched(pre, post, Phase::Waiting, now)
                        &&& post.display_idx == seg.frame_count - 1
                    } else {
                        only_frame(pre, post) && post.display_idx == frame_at(seg, elapsed)
                    }
                },
            },
            Phase::Waiting => {
                let elapsed = since(now, pre.phase_start);
                &&& action is Idle
                &&& if clicked {
                    recorded(pre, post, now, RoundOutcome::TooSoon, None)
                } else if elapsed >= pre.appearance_wait_ns {
                    switched(pre, post, Phase::PlayingToClick, now) && post.display_idx == 0
                } else {
                    only_frame(pre, post) && post.display_idx == 0
                }
            },
            Phase::PlayingToClick => match pre.to_click_seg {
                None => action is Idle && post == pre,
                Some(seg) => {
                    let elapsed = since(now, pre.phase_start);
                    &&& action is Idle
                    &&& if clicked {
                        if elapsed >= pre.click_point_ns {
                            hit_recorded(pre, post, now, (elapsed - pre.click_point_ns) as u64)
                        } else {
                            recorded(pre, post, now, RoundOutcome::TooSoon, None)
                        }
                    } else if elapsed >= pre.click_point_ns {
                        &&& switched(pre, post, Phase::ClickPending, now)
                        &&& post.click_point_start == Some(now)
                        &&& post.display_idx == seg.frame_count - 1
                    } else {
                        only_frame(pre, post) && post.display_idx == frame_at(seg, elapsed)
                    }
                },
            },
            Phase::ClickPending => {
                let elapsed = since(now, pre.click_point_start);
                &&& action is Idle
                &&& if clicked {
                    hit_recorded(pre, post, now, elapsed)
                } else if elapsed >= pre.run_settings.notify_miss_after_ms * NANOS_PER_MILLI {
                    recorded(pre, post, now, RoundOutcome::TooLateNoClick, None)
                } else {
                    &&& only_frame(pre, post)
                    &&& post.display_idx == match pre.to_click_seg {
                        Some(seg) => (seg.frame_count - 1) as usize,
                        None => 0,
                    }
                }
            },
            Phase::PostClick => match pre.post_click_seg {
                None => action is Idle && switched(pre, post, Phase::Result, now),
                Some(seg) => {
                    let elapsed = since(now, pre.phase_start);
                    &&& action is Idle
                    &&& if elapsed >= seg.duration_ns {
                        &&& switched(pre, post, Phase::Result, now)
                        &&& post.display_idx == seg.frame_count - 1
                    } else {
                        only_frame(pre, post) && post.display_idx == frame_at(seg, elapsed)
                    }
                },
            },
            Phase::Result => if clicked {
                acknowledged(pre, post, action)
            } else {
                action is Idle && post == pre
            },
        }
    }
}

impl AppState {
    /// A fresh state on the start screen.
    pub fn new() -> (s: Self)
        ensures
            s.screen == AppScreen::Start,
            s.run_settings == (RunSettings {
                min_wait_ms: 500,
                max_wait_ms: 5000,
                round_count: 5,
                false_click_action: FalseClickAction::RetryRound,
                notify_miss_after_ms: 200,
            }),
            (s.selected_group is None),
            s.current_round == 0,
            s.attempt_results@.len() == 0,
            s.phase == Phase::Result,
            (s.pending_result is None),
            (s.last_error is None),
            attempts_invariant(s),
            segments_have_frames(s),
    {
        AppState {
            screen: AppScreen::Start,
            run_settings: RunSettings::default(),
            selected_group: None,
            group_name: String::new(),
            current_round: 0,
            attempt_results: Vec::new(),
            phase: Phase::Result,
            phase_start: None,
            appearance_wait_ns: 0,
            current_video_path: None,
            pre_wait_seg: None,
            to_click_seg: None,
            post_click_seg: None,
            click_point_ns: 0,
            click_point_start: None,
            pending_result: None,
            last_result: None,
            last_error: None,
            display_idx: 0,
            run_timestamp: String::new(),
        }
    }

    /// Clears everything the run and its rounds hold.
    pub fn reset_round_data(&mut self)
        ensures
            final(self).screen == old(self).screen,
            final(self).run_settings == old(self).run_settings,
            final(self).selected_group == old(self).selected_group,
            final(self).group_name == old(self).group_name,
            final(self).current_round == 0,
            final(self).attempt_results@.len() == 0,
            final(self).phase == Phase::Result,
            (final(self).phase_start is None),
            final(self).appearance_wait_ns == 0,
            (final(self).current_video_path is None),
            (final(self).pre_wait_seg is None),
            (final(self).to_click_seg is None),
            (final(self).post_click_seg is None),
            final(self).click_point_ns == 0,
            (final(self).click_point_start is None),
            (final(self).pending_result is None),
            (final(self).last_result is None),
            (final(self).last_error is None),
            attempts_invariant(*final(self)),
            segments_have_frames(*final(self)),
    {
        self.current_round = 0;
        self.attempt_results.clear();
        self.phase = Phase::Result;
        self.phase_start = None;
        self.appearance_wait_ns = 0;
        self.current_video_path = None;
        self.pre_wait_seg = None;
        self.to_click_seg = None;
        self.post_click_seg = None;
        self.click_point_ns = 0;
        self.click_point_start = None;
        self.pending_result = None;
        self.last_result = None;
        self.last_error = None;
    }

    /// Returns to the start screen with the run cleared.
    pub fn go_to_start(&mut self)
        ensures
            final(self).screen == AppScreen::Start,
            final(self).run_settings == old(self).run_settings,
            final(self).current_round == 0,
            final(self).attempt_results@.len() == 0,
            final(self).phase == Phase::Result,
            (final(self).pending_result is None),
            (final(self).last_result is None),
            (final(self).last_error is None),
            attempts_invariant(*final(self)),
            segments_have_frames(*final(self)),
    {
        self.reset_round_data();
        self.screen = AppScreen::Start;
    }

    /// Returns to the start screen with the run cleared.
    pub fn reset_to_start(&mut self)
        ensures
            final(self).screen == AppScreen::Start,
            final(self).run_settings == old(self).run_settings,
            final(self).current_round == 0,
            final(self).attempt_results@.len() == 0,
            final(self).phase == Phase::Result,
            (final(self).pending_result is None),
            (final(self).last_result is None),
            (final(self).last_error is None),
            attempts_invariant(*final(self)),
            segments_have_frames(*final(self)),
    {
        self.reset_round_data();
        self.screen = AppScreen::Start;
    }

    /// Starts a run on the group at `index`, named `name`: the run is cleared and
    /// stamped with the current local time.
    pub fn select_group(&mut self, index: usize, name: String)
        ensures
            final(self).selected_group == Some(index),
            final(self).group_name == name,
            is_run_timestamp(final(self).run_timestamp@),
            final(self).screen == old(self).screen,
            final(self).run_settings == old(self).run_settings,
            final(self).current_round == 0,
            final(self).attempt_results@.len() == 0,
            (final(self).pending_result is None),
            (final(self).last_error is None),
            attempts_invariant(*final(self)),
            segments_have_frames(*final(self)),
    {
        self.reset_round_data();
        self.selected_group = Some(index);
        self.group_name = name;
        self.run_timestamp = run_timestamp_now();
    }

    /// Gives up on the run with `error`, back on the start screen.
    pub fn abort_with_error(&mut self, error: String)
        ensures
            final(self).last_error == Some(error),
            final(self).screen == AppScreen::Start,
            final(self).current_round == old(self).current_round,
            final(self).attempt_results@ == old(self).attempt_results@,
            final(self).phase == old(self).phase,
            final(self).pending_result == old(self).pending_result,
            attempts_invariant(*old(self)) ==> attempts_invariant(*final(self)),
            segments_have_frames(*old(self)) ==> segments_have_frames(*final(self)),
    {
        self.last_error = Some(error);
        self.screen = AppScreen::Start;
    }

    /// Begins a round at `now` on the video at `video_path`, with its decoded segments,
    /// and a wait drawn at random between the configured bounds (in either order).
    pub fn begin_round(
        &mut self,
        now: u64,
        video_path: String,
        pre_wait: Option<SegmentTiming>,
        to_click: SegmentTiming,
        post_click: Option<SegmentTiming>,
    )
        ensures
            ({
                let s = old(self).run_settings;
                let low = if s.min_wait_ms <= s.max_wait_ms {
                    s.min_wait_ms
                } else {
                    s.max_wait_ms
                };
                let high = if s.min_wait_ms <= s.max_wait_ms {
                    s.max_wait_ms
                } else {
                    s.min_wait_ms
                };
                low * NANOS_PER_MILLI <= final(self).appearance_wait_ns <= high * NANOS_PER_MILLI
            }),
            final(self).current_video_path == Some(video_path),
            final(self).pre_wait_seg == pre_wait,
            final(self).to_click_seg == Some(to_click),
            final(self).post_click_seg == post_click,
            final(self).click_point_ns == to_click.duration_ns,
            final(self).display_idx == 0,
            final(self).phase == if pre_wait is Some {
                Phase::PreWait
            } else {
                Phase::Waiting
            },
            final(self).phase_start == Some(now),
            final(self).screen == old(self).screen,
            final(self).run_settings == old(self).run_settings,
            final(self).group_name == old(self).group_name,
            final(self).current_round == old(self).current_round,
            final(self).attempt_results@ == old(self).attempt_results@,
            final(self).pending_result == old(self).pending_result,
            final(self).last_result == old(self).last_result,
            final(self).run_timestamp == old(self).run_timestamp,
            attempts_invariant(*old(self)) && old(self).pending_result is None
                ==> attempts_invariant(*final(self)),
            to_click.frame_count > 0 && (pre_wait matches Some(g) ==> g.frame_count > 0) && (
            post_click matches Some(g) ==> g.frame_count > 0) ==> segments_have_frames(
                *final(self),
            ),
    {
        self.pre_wait_seg = pre_wait;
        self.to_click_seg = Some(to_click);
        self.post_click_seg = post_click;
        self.current_video_path = Some(video_path);
        self.click_point_ns = to_click.duration_ns;
        let min_wait = if self.run_settings.min_wait_ms <= self.run_settings.max_wait_ms {
            self.run_settings.min_wait_ms
        } else {
            self.run_settings.max_wait_ms
        };
        let max_wait = if self.run_settings.min_wait_ms <= self.run_settings.max_wait_ms {
            self.run_settings.max_wait_ms
        } else {
            self.run_settings.min_wait_ms
        };
        self.appearance_wait_ns = random_wait_ns(min_wait, max_wait);
        self.display_idx = 0;
        if self.pre_wait_seg.is_some() {
            self.set_phase(Phase::PreWait, now);
        } else {
            self.set_phase(Phase::Waiting, now);
        }
    }

    /// Advances the round to `now`, with `clicked` telling whether the user clicked.
    pub fn update_at(&mut self, now: u64, clicked: bool) -> (action: UpdateAction)
        requires
            segments_have_frames(*old(self)),
            old(self).current_round < usize::MAX,
            old(self).attempt_results@.len() < usize::MAX,
        ensures
            update_transition(*old(self), *final(self), now, clicked, action),
            untouched(*old(self), *final(self)),
            segments_have_frames(*final(self)),
            attempts_invariant(*old(self)) ==> attempts_invariant(*final(self)),
            // A run finished by acknowledging a hit holds as many hits as rounds were
            // counted, and that count reached the configured number of rounds.
            (attempts_invariant(*old(self)) && action is Finished && pending_hit(*old(self)) == 1)
                ==> (hit_count(action->0.attempts@) == final(self).current_round
                && final(self).current_round >= rounds_per_run(old(self).run_settings)),
            // A click before the target moment is never ignored: while the pre-wait clip
            // plays or the round waits, it records exactly one new attempt, a false
            // start without an offset, and shows the result.
            old(self).screen == AppScreen::Round && clicked && ((old(self).phase == Phase::PreWait
                && old(self).pre_wait_seg is Some) || old(self).phase == Phase::Waiting) ==> {
                &&& action is Idle
                &&& final(self).attempt_results@.len() == old(self).attempt_results@.len() + 1
                &&& final(self).attempt_results@.drop_last() == old(self).attempt_results@
                &&& final(self).attempt_results@.last().outcome == RoundOutcome::TooSoon
                &&& final(self).attempt_results@.last().click_offset_ns is None
                &&& final(self).last_result == Some(final(self).attempt_results@.last())
                &&& final(self).phase == Phase::Result
            },
            // A click while the clip plays to the click point is a false start before the
            // click point and a hit, late by the time past it, from then on.
            old(self).screen == AppScreen::Round && clicked && old(self).phase
                == Phase::PlayingToClick && old(self).to_click_seg is Some ==> {
                let elapsed = since(now, old(self).phase_start);
                &&& final(self).attempt_results@.len() == old(self).attempt_results@.len() + 1
                &&& final(self).attempt_results@.drop_last() == old(self).attempt_results@
                &&& if elapsed >= old(self).click_point_ns {
                    &&& final(self).attempt_results@.last().outcome == RoundOutcome::Hit
                    &&& final(self).attempt_results@.last().click_offset_ns == Some(
                        (elapsed - old(self).click_point_ns) as u64,
                    )
                } else {
                    &&& final(self).attempt_results@.last().outcome == RoundOutcome::TooSoon
                    &&& final(self).attempt_results@.last().click_offset_ns is None
                }
            },
            // A click while the clip holds on the click point is a hit, late by the time
            // since the click point was reached.
            old(self).screen == AppScreen::Round && clicked && old(self).phase
                == Phase::ClickPending ==> {
                &&& final(self).attempt_results@.len() == old(self).attempt_results@.len() + 1
                &&& final(self).attempt_results@.drop_last() == old(self).attempt_results@
                &&& final(self).attempt_results@.last().outcome == RoundOutcome::Hit
                &&& final(self).attempt_results@.last().click_offset_ns == Some(
                    since(now, old(self).click_point_start),
                )
            },
            // Without a click, the target held on the click point past the notice time
            // is a miss with no click.
            old(self).screen == AppScreen::Round && !clicked && old(self).phase
                == Phase::ClickPending && since(now, old(self).click_point_start)
                >= old(self).run_settings.notify_miss_after_ms * NANOS_PER_MILLI ==> {
                &&& final(self).attempt_results@.len() == old(self).attempt_results@.len() + 1
                &&& final(self).attempt_results@.last().outcome == RoundOutcome::TooLateNoClick
                &&& final(self).attempt_results@.last().click_offset_ns is None
                &&& final(self).phase == Phase::Result
            },
            // Off the round screen an update changes nothing.
            old(self).screen != AppScreen::Round ==> *final(self) == *old(self) && action is Idle,
    {
        if self.screen != AppScreen::Round {
            return UpdateAction::Idle;
        }
        match self.phase {
            Phase::PreWait => {
                match self.pre_wait_seg {
                    None => {
                        self.set_phase(Phase::Waiting, now);
                        UpdateAction::Idle
                    },
                    Some(seg) => {
                        let elapsed = phase_elapsed(now, self.phase_start);
                        self.display_idx = frame_for_elapsed(&seg, elapsed);
                        if clicked {
                            self.record_result(RoundOutcome::TooSoon, None, now);
                            return UpdateAction::Idle;
                        }
                        if elapsed >= seg.duration_ns {
                            self.display_idx = seg.frame_count - 1;
                            self.set_phase(Phase::Waiting, now);
                        }
                        UpdateAction::Idle
                    },
                }
            },
            Phase::Waiting => {
                self.display_idx = 0;
                let elapsed = phase_elapsed(now, self.phase_start);
                if clicked {
                    self.record_result(RoundOutcome::TooSoon, None, now);
                    return UpdateAction::Idle;
                }
                if elapsed as u128 >= self.appearance_wait_ns {
                    self.set_phase(Phase::PlayingToClick, now);
                }
                UpdateAction::Idle
            },
            Phase::PlayingToClick => {
                match self.to_click_seg {
                    None => UpdateAction::Idle,
                    Some(seg) => {
                        let elapsed = phase_elapsed(now, self.phase_start);
                        if clicked {
                            if elapsed >= self.click_point_ns {
                                self.record_hit(elapsed - self.click_point_ns, now);
                            } else {
                                self.record_result(RoundOutcome::TooSoon, None, now);
                            }
                            return UpdateAction::Idle;
                        }
                        if elapsed >= self.click_point_ns {
                            self.display_idx = seg.frame_count - 1;
                            self.click_point_start = Some(now);
                            self.set_phase(Phase::ClickPending, now);
                        } else {
                            self.display_idx = frame_for_elapsed(&seg, elapsed);
                        }
                        UpdateAction::Idle
                    },
                }
            },
            Phase::ClickPending => {
                self.display_idx = match self.to_click_seg {
                    Some(seg) => seg.frame_count - 1,
                    None => 0,
                };
                let elapsed = phase_elapsed(now, self.click_point_start);
                if clicked {
                    self.record_hit(elapsed, now);
                    return UpdateAction::Idle;
                }
                if (elapsed as u128) >= (self.run_settings.notify_miss_after_ms as u128)
                    * (NANOS_PER_MILLI as u128) {
                    self.record_result(RoundOutcome::TooLateNoClick, None, now);
                }
                UpdateAction::Idle
            },
            Phase::PostClick => {
                match self.post_click_seg {
                    None => {
                        self.set_phase(Phase::Result, now);
                        UpdateAction::Idle
                    },
                    Some(seg) => {
                        let elapsed = phase_elapsed(now, self.phase_start);
                        self.display_idx = frame_for_elapsed(&seg, elapsed);
                        if elapsed >= seg.duration_ns {
                            self.display_idx = seg.frame_count - 1;
                            self.set_phase(Phase::Result, now);
                        }
                        UpdateAction::Idle
                    },
                }
            },
            Phase::Result => {
                if clicked {
                    self.acknowledge()
                } else {
                    UpdateAction::Idle
                }
            },
        }
    }

    /// Records a hit `offset_ns` after the click point; the post-click clip, if any,
    /// starts playing.
    fn record_hit(&mut self, offset_ns: u64, now: u64)
        requires
            old(self).current_round < usize::MAX,
            old(self).attempt_results@.len() < usize::MAX,
        ensures
            hit_recorded(*old(self), *final(self), now, offset_ns),
            untouched(*old(self), *final(self)),
            final(self).screen == old(self).screen,
            final(self).current_round == old(self).current_round,
            final(self).click_point_start == old(self).click_point_start,
            (old(self).post_click_seg is None) ==> final(self).display_idx == old(
                self,
            ).display_idx,
            attempts_invariant(*old(self)) && old(self).pending_result is None
                ==> attempts_invariant(*final(self)),
    {
        self.record_result(RoundOutcome::Hit, Some(offset_ns), now);
        if self.post_click_seg.is_some() {
            self.display_idx = 0;
            self.set_phase(Phase::PostClick, now);
        }
    }

    /// Records an attempt with its outcome and click offset, and shows it as the result.
    fn record_result(&mut self, outcome: RoundOutcome, click_offset_ns: Option<u64>, now: u64)
        requires
            old(self).current_round < usize::MAX,
            old(self).attempt_results@.len() < usize::MAX,
        ensures
            recorded(*old(self), *final(self), now, outcome, click_offset_ns),
            untouched(*old(self), *final(self)),
            final(self).screen == old(self).screen,
            final(self).current_round == old(self).current_round,
            final(self).click_point_start == old(self).click_point_start,
            final(self).display_idx == old(self).display_idx,
            attempts_invariant(*old(self)) && old(self).pending_result is None
                ==> attempts_invariant(*final(self)),
    {
        let ghost pre = *self;
        let video_path = match &self.current_video_path {
            Some(p) => p.clone(),
            None => String::new(),
        };
        let result = RoundResult {
            round_number: self.current_round + 1,
            attempt_number: self.attempt_results.len() + 1,
            group_name: self.group_name.clone(),
            video_path,
            appearance_wait_ns: self.appearance_wait_ns,
            click_offset_ns,
            outcome,
        };
        self.attempt_results.push(result.duplicate());
        self.last_result = Some(result.duplicate());
        self.pending_result = Some(result);
        self.set_phase(Phase::Result, now);
        proof {
            let a = self.attempt_results@.last();
            assert(self.attempt_results@ == pre.attempt_results@.push(result));
            assert(self.attempt_results@.drop_last() =~= pre.attempt_results@);
            assert(a == result);
            if attempts_invariant(pre) && pre.pending_result is None {
                assert(hit_count(self.attempt_results@) == hit_count(pre.attempt_results@)
                    + pending_hit(*self));
                assert forall|i: int| 0 <= i < self.attempt_results@.len() implies
                    #[trigger] self.attempt_results@[i].attempt_number == i + 1 by {
                    if i < pre.attempt_results@.len() {
                        assert(self.attempt_results@[i] == pre.attempt_results@[i]);
                    }
                }
            }
        }
    }

    /// Acknowledges the awaited result: counts a hit, and ends the run or asks for
    /// the next round.
    fn acknowledge(&mut self) -> (action: UpdateAction)
        requires
            old(self).current_round < usize::MAX,
        ensures
            acknowledged(*old(self), *final(self), action),
            untouched(*old(self), *final(self)),
            final(self).display_idx == old(self).display_idx,
            final(self).click_point_start == old(self).click_point_start,
    {
        let result = match self.pending_result.take() {
            Some(r) => r,
            None => return UpdateAction::Idle,
        };
        if result.outcome.is_hit() {
            self.current_round = self.current_round + 1;
            let rounds = if self.run_settings.round_count >= 1 {
                self.run_settings.round_count
            } else {
                1
            };
            if self.current_round >= rounds {
                return UpdateAction::Finished(self.finish_run());
            }
            return UpdateAction::StartNextRound;
        }
        match self.run_settings.false_click_action {
            FalseClickAction::RetryRound => UpdateAction::StartNextRound,
            FalseClickAction::EndRun => UpdateAction::Finished(self.finish_run()),
        }
    }

    /// Ends the run: the end screen, and the run's record.
    fn finish_run(&mut self) -> (run: RunData)
        ensures
            *final(self) == (AppState { screen: AppScreen::End, ..*old(self) }),
            run.settings == old(self).run_settings,
            run.attempts@ == old(self).attempt_results@,
            run.timestamp@ == old(self).run_timestamp@,
    {
        let run = RunData {
            timestamp: self.run_timestamp.clone(),
            settings: self.run_settings,
            attempts: duplicate_results(&self.attempt_results),
        };
        self.screen = AppScreen::End;
        run
    }

    fn set_phase(&mut self, phase: Phase, now: u64)
        ensures
            *final(self) == (AppState { phase, phase_start: Some(now), ..*old(self) }),
    {
        self.phase = phase;
        self.phase_start = Some(now);
    }
}

} // verus!
