//! The round state machine of the simple reaction time test.
//!
//! Time is a monotonic clock reading in nanoseconds; the caller supplies it.

use super::types::{
    wait_bounds_ok, AppScreen, Configurables, FalseClickAction, RoundResult, RoundState, RunData,
};
use crate::random::random_wait_ns;
use crate::timestamp::{is_run_timestamp, run_timestamp_now};
use vstd::prelude::*;

verus! {

/// Nanoseconds in a millisecond.
pub const NANOS_PER_MILLI: u64 = 1_000_000;

/// Time elapsed from `start` to `now`; zero when `now` is earlier, as a monotonic clock saturates.
pub open spec fn elapsed_ns(now: u64, start: u64) -> u64 {
    if now >= start {
        (now - start) as u64
    } else {
        0
    }
}

/// Saturating elapsed time.
pub fn elapsed_between(now: u64, start: u64) -> (r: u64)
    ensures
        r == elapsed_ns(now, start),
{
    if now >= start {
        now - start
    } else {
        0
    }
}

pub struct AppState {
    pub screen: AppScreen,
    pub config: Configurables,
    pub round_state: RoundState,
    pub current_round: usize,
    pub round_results: Vec<RoundResult>,
    pub wait_start: Option<u64>,
    pub react_start: Option<u64>,
    pub random_wait_ns: u128,
    pub last_reaction_ns: Option<u64>,
    /// The run timestamp taken when the current run started; the run is saved under it.
    pub run_timestamp: String,
}

/// The larger of the configured round count and one: a run always holds at least one round.
pub open spec fn rounds_per_run(c: Configurables) -> int {
    if c.round_count >= 1 {
        c.round_count as int
    } else {
        1
    }
}

/// What holds on the round screen: every finished round of the run has exactly one
/// result (plus the one on display), and the run has not yet reached its round count.
pub open spec fn round_invariant(s: AppState) -> bool {
    s.screen == AppScreen::Round ==> {
        &&& s.round_results@.len() == s.current_round + (if s.round_state
            == RoundState::ResultShowing {
            1int
        } else {
            0int
        })
        &&& s.current_round < rounds_per_run(s.config)
        &&& is_run_timestamp(s.run_timestamp@)
    }
}

/// A reacting round always knows when the react colour appeared.
pub open spec fn reacting_has_start(s: AppState) -> bool {
    s.round_state == RoundState::Reacting ==> s.react_start is Some
}

/// `post` is `pre` with a new round begun at `now`: waiting, with a wait drawn
/// from the configured bounds; screen, settings, round number and results unchanged.
pub open spec fn new_round_begun(pre: AppState, post: AppState, now: u64) -> bool {
    &&& post.round_state == RoundState::Waiting
    &&& post.wait_start == Some(now)
    &&& post.react_start is None
    &&& post.last_reaction_ns is None
    &&& pre.config.min_wait_ms * NANOS_PER_MILLI <= post.random_wait_ns
    &&& post.random_wait_ns <= pre.config.max_wait_ms * NANOS_PER_MILLI
    &&& post.screen == pre.screen
    &&& post.config == pre.config
    &&& post.current_round == pre.current_round
    &&& post.round_results@ == pre.round_results@
    &&& post.run_timestamp == pre.run_timestamp
}

/// `post` is `pre` with the run finished: the end screen, everything else unchanged.
pub open spec fn run_finished(pre: AppState, post: AppState) -> bool {
    &&& post.screen == AppScreen::End
    &&& post.config == pre.config
    &&& post.round_state == pre.round_state
    &&& post.current_round == pre.current_round
    &&& post.round_results@ == pre.round_results@
    &&& post.wait_start == pre.wait_start
    &&& post.react_start == pre.react_start
    &&& post.random_wait_ns == pre.random_wait_ns
    &&& post.last_reaction_ns == pre.last_reaction_ns
    &&& post.run_timestamp == pre.run_timestamp
}

/// `run` records the run of `s`: its start timestamp, its settings and its round results.
pub open spec fn records_run(run: RunData, s: AppState) -> bool {
    &&& run.timestamp@ == s.run_timestamp@
    &&& run.config == s.config
    &&& run.rounds@ == s.round_results@
}

/// What a click at `now` does, for each phase of the round.
pub open spec fn click_transition(pre: AppState, post: AppState, now: u64, r: Option<RunData>) -> bool {
    match pre.round_state {
        RoundState::Waiting => {
            &&& r is None
            &&& post == AppState { round_state: RoundState::TooSoon, ..pre }
        },
        RoundState::Reacting => {
            let reaction = elapsed_ns(now, pre.react_start->0);
            &&& r is None
            &&& post.round_state == RoundState::ResultShowing
            &&& post.last_reaction_ns == Some(reaction)
            &&& post.round_results@ == pre.round_results@.push(
                RoundResult { wait_time_ns: pre.random_wait_ns, reaction_time_ns: reaction },
            )
            &&& post.screen == pre.screen
            &&& post.config == pre.config
            &&& post.current_round == pre.current_round
            &&& post.wait_start == pre.wait_start
            &&& post.react_start == pre.react_start
            &&& post.random_wait_ns == pre.random_wait_ns
            &&& post.run_timestamp == pre.run_timestamp
        },
        RoundState::ResultShowing => {
            let next = pre.current_round + 1;
            &&& post.current_round == next
            &&& if next >= pre.config.round_count {
                &&& r matches Some(run) && records_run(run, pre)
                &&& run_finished(AppState { current_round: post.current_round, ..pre }, post)
            } else {
                &&& r is None
                &&& new_round_begun(AppState { current_round: post.current_round, ..pre }, post, now)
            }
        },
        RoundState::TooSoon => match pre.config.false_click_action {
            FalseClickAction::RetryRound => r is None && new_round_begun(pre, post, now),
            FalseClickAction::EndRun => {
                &&& r matches Some(run) && records_run(run, pre)
                &&& run_finished(pre, post)
            },
        },
    }
}

impl AppState {
    /// A fresh state on the start screen.
    pub fn new(config: Configurables) -> (s: Self)
        ensures
            s.screen == AppScreen::Start,
            s.config == config,
            s.round_state == RoundState::Waiting,
            s.current_round == 0,
            s.round_results@.len() == 0,
            (s.wait_start is None),
            (s.react_start is None),
            s.random_wait_ns == 0,
            (s.last_reaction_ns is None),
            s.run_timestamp@.len() == 0,
    {
        AppState {
            screen: AppScreen::Start,
            config,
            round_state: RoundState::Waiting,
            current_round: 0,
            round_results: Vec::new(),
            wait_start: None,
            react_start: None,
            random_wait_ns: 0,
            last_reaction_ns: None,
            run_timestamp: String::new(),
        }
    }

    /// Begins a round at `now`: waiting, for a time drawn at random between the
    /// configured minimum and maximum wait.
    pub fn start_new_round_at(&mut self, now: u64)
        requires
            wait_bounds_ok(old(self).config),
        ensures
            new_round_begun(*old(self), *final(self), now),
    {
        self.random_wait_ns = random_wait_ns(self.config.min_wait_ms, self.config.max_wait_ms);
        self.round_state = RoundState::Waiting;
        self.wait_start = Some(now);
        self.react_start = None;
        self.last_reaction_ns = None;
    }

    /// Switches a waiting round to reacting once its wait has elapsed at `now`.
    pub fn update_waiting_at(&mut self, now: u64)
        ensures
            ({
                let pre = *old(self);
                if pre.round_state == RoundState::Waiting && pre.wait_start is Some
                    && elapsed_ns(now, pre.wait_start->0) >= pre.random_wait_ns {
                    *final(self) == AppState {
                        round_state: RoundState::Reacting,
                        react_start: Some(now),
                        ..pre
                    }
                } else {
                    *final(self) == pre
                }
            }),
            round_invariant(*old(self)) ==> round_invariant(*final(self)),
            reacting_has_start(*old(self)) ==> reacting_has_start(*final(self)),
    {
        if self.round_state == RoundState::Waiting {
            match self.wait_start {
                Some(start) => {
                    if elapsed_between(now, start) as u128 >= self.random_wait_ns {
                        self.round_state = RoundState::Reacting;
                        self.react_start = Some(now);
                    }
                },
                None => {},
            }
        }
    }

    /// Handles a click at `now`. Returns the finished run when the click ends it.
    pub fn handle_click_at(&mut self, now: u64) -> (r: Option<RunData>)
        requires
            reacting_has_start(*old(self)),
            old(self).round_state == RoundState::ResultShowing ==> old(self).current_round
                < usize::MAX,
            (old(self).round_state == RoundState::ResultShowing || old(self).round_state
                == RoundState::TooSoon) ==> wait_bounds_ok(old(self).config),
        ensures
            click_transition(*old(self), *final(self), now, r),
            round_invariant(*old(self)) ==> round_invariant(*final(self)),
            reacting_has_start(*final(self)),
            // A run ended by acknowledging its last result holds one result per round.
            round_invariant(*old(self)) && old(self).screen == AppScreen::Round
                && old(self).round_state == RoundState::ResultShowing && r is Some
                ==> r->0.rounds@.len() == rounds_per_run(old(self).config),
            // A run ended on the round screen is saved under the timestamp of its start.
            round_invariant(*old(self)) && old(self).screen == AppScreen::Round && r is Some
                ==> is_run_timestamp(r->0.timestamp@),
    {
        match self.round_state {
            RoundState::Waiting => {
                self.round_state = RoundState::TooSoon;
                None
            },
            RoundState::Reacting => {
                let react_start = match self.react_start {
                    Some(t) => t,
                    None => 0,
                };
                let reaction = elapsed_between(now, react_start);
                self.last_reaction_ns = Some(reaction);
                self.round_results.push(
                    RoundResult { wait_time_ns: self.random_wait_ns, reaction_time_ns: reaction },
                );
                self.round_state = RoundState::ResultShowing;
                None
            },
            RoundState::ResultShowing => {
                self.current_round = self.current_round + 1;
                if self.current_round >= self.config.round_count {
                    Some(self.finish_run())
                } else {
                    self.start_new_round_at(now);
                    None
                }
            },
            RoundState::TooSoon => match self.config.false_click_action {
                FalseClickAction::RetryRound => {
                    self.start_new_round_at(now);
                    None
                },
                FalseClickAction::EndRun => Some(self.finish_run()),
            },
        }
    }

    /// Clears the run and begins its first round at `now`, on the round screen.
    pub fn restart_run(&mut self, now: u64)
        requires
            wait_bounds_ok(old(self).config),
        ensures
            final(self).screen == AppScreen::Round,
            final(self).config == old(self).config,
            final(self).round_state == RoundState::Waiting,
            final(self).current_round == 0,
            final(self).round_results@.len() == 0,
            final(self).wait_start == Some(now),
            (final(self).react_start is None),
            (final(self).last_reaction_ns is None),
            is_run_timestamp(final(self).run_timestamp@),
            old(self).config.min_wait_ms * NANOS_PER_MILLI <= final(self).random_wait_ns
                <= old(self).config.max_wait_ms * NANOS_PER_MILLI,
            round_invariant(*final(self)),
            reacting_has_start(*final(self)),
    {
        self.round_results.clear();
        self.current_round = 0;
        self.round_state = RoundState::Waiting;
        self.wait_start = None;
        self.react_start = None;
        self.random_wait_ns = 0;
        self.last_reaction_ns = None;
        self.run_timestamp = run_timestamp_now();
        self.start_new_round_at(now);
        self.screen = AppScreen::Round;
    }

    /// Returns to the start screen, dropping the run's results.
    pub fn go_to_start(&mut self)
        ensures
            (*final(self) == AppState {
                screen: AppScreen::Start,
                current_round: 0,
                round_results: final(self).round_results,
                ..*old(self)
            }),
            final(self).round_results@.len() == 0,
            round_invariant(*final(self)),
            reacting_has_start(*old(self)) ==> reacting_has_start(*final(self)),
    {
        self.screen = AppScreen::Start;
        self.round_results.clear();
        self.current_round = 0;
    }

    /// Returns to the start screen with every trace of the active round cleared.
    pub fn reset_to_start(&mut self)
        ensures
            final(self).screen == AppScreen::Start,
            final(self).config == old(self).config,
            final(self).round_state == RoundState::Waiting,
            final(self).current_round == 0,
            final(self).round_results@.len() == 0,
            (final(self).wait_start is None),
            (final(self).react_start is None),
            final(self).random_wait_ns == 0,
            (final(self).last_reaction_ns is None),
            round_invariant(*final(self)),
            reacting_has_start(*final(self)),
    {
        self.screen = AppScreen::Start;
        self.round_state = RoundState::Waiting;
        self.round_results.clear();
        self.current_round = 0;
        self.wait_start = None;
        self.react_start = None;
        self.random_wait_ns = 0;
        self.last_reaction_ns = None;
    }

    /// Ends the run: the end screen, and the run's record.
    fn finish_run(&mut self) -> (run: RunData)
        ensures
            run_finished(*old(self), *final(self)),
            records_run(run, *old(self)),
    {
        let run = RunData {
            timestamp: self.run_timestamp.clone(),
            config: self.config,
            rounds: self.round_results.clone(),
        };
        self.screen = AppScreen::End;
        run
    }
}

} // verus!
