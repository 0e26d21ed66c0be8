//! The discrete round machine of the click timing reaction test: waiting for the
//! target, the target moving, the result on display, and what each click does.
//!
//! Time is a monotonic clock reading in nanoseconds; the caller supplies it. Where
//! the target is when a click lands is floating-point motion, judged by the caller:
//! the machine is told the outcome such a click would have and whether the miss
//! deadline has passed, and keeps the attempts, their numbering and the rounds.

use super::state::{acknowledge, rounds_per_run, Acknowledgement};
use super::types::{AppScreen, FalseClickAction, RoundOutcome, RoundState};
use crate::modes::simple_reaction_time_test::state::{elapsed_between, elapsed_ns, NANOS_PER_MILLI};
use crate::random::random_in_range;
use crate::timestamp::{is_run_timestamp, run_timestamp_now};
use vstd::prelude::*;

verus! {

/// One attempt of a run: the round it belongs to, its place among the attempts,
/// and how it ended.
#[derive(Debug, Clone, Copy, PartialEq, Eq, Structural)]
pub struct Attempt {
    pub round_number: usize,
    pub attempt_number: usize,
    pub outcome: RoundOutcome,
}

/// What an update leads to.
#[derive(Debug, Clone, Copy, PartialEq, Eq, Structural)]
pub enum Step {
    /// Nothing to do.
    Idle,
    /// This attempt was made and is now on display.
    Recorded(Attempt),
    /// The result was acknowledged and the run goes on: begin the next round.
    NextRound,
    /// The run is over.
    Finished,
}

/// The state of a run of the click timing reaction test.
pub struct RoundTracker {
    pub screen: AppScreen,
    pub round_state: RoundState,
    pub current_round: usize,
    pub attempts: Vec<Attempt>,
    /// The attempt on display, awaiting acknowledgement.
    pub pending: Option<Attempt>,
    pub wait_start: Option<u64>,
    pub movement_start: Option<u64>,
    pub appearance_wait_ns: u128,
    /// The run timestamp taken when the run started; the run is saved under it.
    pub run_timestamp: String,
}

/// The number of hits among `attempts`.
pub open spec fn hit_count(attempts: Seq<Attempt>) -> nat
    decreases attempts.len(),
{
    if attempts.len() == 0 {
        0
    } else {
        hit_count(attempts.drop_last()) + if attempts.last().outcome == RoundOutcome::Hit {
            1nat
        } else {
            0nat
        }
    }
}

/// Whether the attempt awaiting acknowledgement is a hit.
pub open spec fn pending_hit(s: RoundTracker) -> nat {
    match s.pending {
        Some(p) => if p.outcome == RoundOutcome::Hit {
            1nat
        } else {
            0nat
        },
        None => 0nat,
    }
}

/// What every operation keeps: attempts are numbered 1, 2, ... in order; each
/// belongs to the round after the hits made before it, so a failed attempt keeps
/// its round and the retry makes another attempt of the same round; the round
/// counter counts the acknowledged hits; the attempt awaiting acknowledgement is
/// the last one and is only there while a result shows; a moving target knows
/// when it started.
pub open spec fn tracker_invariant(s: RoundTracker) -> bool {
    &&& forall|i: int|
        0 <= i < s.attempts@.len() ==> #[trigger] s.attempts@[i].attempt_number == i + 1
    &&& forall|i: int|
        0 <= i < s.attempts@.len() ==> #[trigger] s.attempts@[i].round_number == hit_count(
            s.attempts@.take(i),
        ) + 1
    &&& hit_count(s.attempts@) == s.current_round + pending_hit(s)
    &&& s.pending matches Some(p) ==> s.attempts@.len() > 0 && s.attempts@.last() == p
    &&& s.round_state != RoundState::ResultShowing ==> s.pending is None
    &&& s.round_state == RoundState::Moving ==> s.movement_start is Some
}

/// What holds of every state that `new` and the public methods reach, whatever
/// order they are called in: attempts are numbered 1, 2, ... in order; round
/// numbers never decrease along the attempts; and each lies between 1 and the
/// round after the counted ones.
pub open spec fn numbering_invariant(s: RoundTracker) -> bool {
    &&& forall|i: int|
        0 <= i < s.attempts@.len() ==> #[trigger] s.attempts@[i].attempt_number == i + 1
    &&& forall|i: int, j: int|
        0 <= i <= j < s.attempts@.len() ==> #[trigger] s.attempts@[i].round_number
            <= #[trigger] s.attempts@[j].round_number
    &&& forall|i: int|
        0 <= i < s.attempts@.len() ==> 1 <= #[trigger] s.attempts@[i].round_number
            <= s.current_round + 1
}

/// Time elapsed since an optional start; zero when there is none.
pub open spec fn since(now: u64, start: Option<u64>) -> u64 {
    match start {
        Some(t) => elapsed_ns(now, t),
        None => 0,
    }
}

/// The state seen at `now`: a waiting round whose wait is over has its target moving
/// since `now`.
pub open spec fn advanced(s: RoundTracker, now: u64) -> RoundTracker {
    if s.round_state == RoundState::Waiting && since(now, s.wait_start) >= s.appearance_wait_ns {
        RoundTracker { round_state: RoundState::Moving, movement_start: Some(now), ..s }
    } else {
        s
    }
}

/// The attempt the next one of `s` would be, with this outcome.
pub open spec fn next_attempt(s: RoundTracker, outcome: RoundOutcome) -> Attempt {
    Attempt {
        round_number: (s.current_round + 1) as usize,
        attempt_number: (s.attempts@.len() + 1) as usize,
        outcome,
    }
}

/// `post` is `pre` with an attempt of this outcome made and put on display.
pub open spec fn recorded(pre: RoundTracker, post: RoundTracker, outcome: RoundOutcome, step: Step) -> bool {
    let a = next_attempt(pre, outcome);
    &&& post == RoundTracker {
        attempts: post.attempts,
        pending: Some(a),
        round_state: RoundState::ResultShowing,
        ..pre
    }
    &&& post.attempts@ == pre.attempts@.push(a)
    &&& step == Step::Recorded(a)
}

/// What acknowledging the attempt on display does: a hit counts a round and ends
/// the run once the configured number of rounds (at least one) is reached; any
/// other outcome retries the round or ends the run, as configured.
pub open spec fn acknowledged(
    pre: RoundTracker,
    post: RoundTracker,
    round_count: usize,
    false_click_action: FalseClickAction,
    step: Step,
) -> bool {
    match pre.pending {
        None => post == pre && step == Step::Idle,
        Some(p) => if p.outcome == RoundOutcome::Hit {
            let next = (pre.current_round + 1) as usize;
            if next >= rounds_per_run(round_count) {
                post == RoundTracker {
                    pending: None,
                    current_round: next,
                    screen: AppScreen::End,
                    ..pre
                } && step == Step::Finished
            } else {
                post == RoundTracker { pending: None, current_round: next, ..pre } && step
                    == Step::NextRound
            }
        } else {
            match false_click_action {
                FalseClickAction::RetryRound => post == RoundTracker { pending: None, ..pre }
                    && step == Step::NextRound,
                FalseClickAction::EndRun => post == RoundTracker {
                    pending: None,
                    screen: AppScreen::End,
                    ..pre
                } && step == Step::Finished,
            }
        },
    }
}

/// What an update at `now` does. `clicked` tells whether the user clicked;
/// `outcome` is how a click on the moving target would be judged, and
/// `deadline_passed` whether the target has run past the miss deadline.
pub open spec fn step_transition(
    pre: RoundTracker,
    post: RoundTracker,
    now: u64,
    clicked: bool,
    outcome: RoundOutcome,
    deadline_passed: bool,
    round_count: usize,
    false_click_action: FalseClickAction,
    step: Step,
) -> bool {
    let a = advanced(pre, now);
    match a.round_state {
        RoundState::Waiting => if clicked {
            recorded(a, post, RoundOutcome::TooSoon, step)
        } else {
            post == a && step == Step::Idle
        },
        RoundState::Moving => if clicked {
            recorded(a, post, outcome, step)
        } else if deadline_passed {
            recorded(a, post, RoundOutcome::TooLateNoClick, step)
        } else {
            post == a && step == Step::Idle
        },
        RoundState::ResultShowing => if clicked {
            acknowledged(a, post, round_count, false_click_action, step)
        } else {
            post == a && step == Step::Idle
        },
    }
}

/// A round begun at `now` with a wait of `wait_ns`: waiting, nothing on display,
/// everything else unchanged.
pub open spec fn round_begun(pre: RoundTracker, post: RoundTracker, now: u64, wait_ns: u128) -> bool {
    post == RoundTracker {
        round_state: RoundState::Waiting,
        wait_start: Some(now),
        movement_start: None,
        appearance_wait_ns: wait_ns,
        pending: None,
        attempts: post.attempts,
        ..pre
    } && post.attempts@ == pre.attempts@
}

proof fn lemma_hit_count_push(s: Seq<Attempt>, a: Attempt)
    ensures
        hit_count(s.push(a)) == hit_count(s) + if a.outcome == RoundOutcome::Hit {
            1nat
        } else {
            0nat
        },
{
    assert(s.push(a).drop_last() =~= s);
}

proof fn lemma_record_keeps_invariant(pre: RoundTracker, post: RoundTracker, outcome: RoundOutcome, step: Step)
    requires
        tracker_invariant(pre),
        pre.round_state != RoundState::ResultShowing,
        recorded(pre, post, outcome, step),
        pre.current_round < usize::MAX,
        pre.attempts@.len() < usize::MAX,
    ensures
        tracker_invariant(post),
{
    let a = next_attempt(pre, outcome);
    lemma_hit_count_push(pre.attempts@, a);
    let n = pre.attempts@.len() as int;
    assert(post.attempts@[n] == a);
    assert(pre.pending is None);
    assert(hit_count(pre.attempts@) == pre.current_round);
    assert forall|i: int| 0 <= i < post.attempts@.len() implies #[trigger] post.attempts@[i].round_number
        == hit_count(post.attempts@.take(i)) + 1 by {
        if i < pre.attempts@.len() {
            assert(post.attempts@.take(i) =~= pre.attempts@.take(i));
            assert(post.attempts@[i] == pre.attempts@[i]);
        } else {
            assert(post.attempts@.take(i) =~= pre.attempts@);
        }
    }
    assert forall|i: int| 0 <= i < post.attempts@.len() implies #[trigger] post.attempts@[i].attempt_number
        == i + 1 by {
        if i < pre.attempts@.len() {
            assert(post.attempts@[i] == pre.attempts@[i]);
        }
    }
}

proof fn lemma_record_keeps_numbering(pre: RoundTracker, post: RoundTracker, outcome: RoundOutcome, step: Step)
    requires
        numbering_invariant(pre),
        recorded(pre, post, outcome, step),
        pre.current_round < usize::MAX,
        pre.attempts@.len() < usize::MAX,
    ensures
        numbering_invariant(post),
{
    let n = pre.attempts@.len() as int;
    assert(post.attempts@[n] == next_attempt(pre, outcome));
    assert forall|i: int| 0 <= i < post.attempts@.len() implies #[trigger] post.attempts@[i].attempt_number
        == i + 1 by {
        if i < n {
            assert(post.attempts@[i] == pre.attempts@[i]);
        }
    }
    assert forall|i: int, j: int| 0 <= i <= j < post.attempts@.len() implies #[trigger] post.attempts@[i].round_number
        <= #[trigger] post.attempts@[j].round_number by {
        if j < n {
            assert(post.attempts@[i] == pre.attempts@[i]);
            assert(post.attempts@[j] == pre.attempts@[j]);
        } else if i < n {
            assert(post.attempts@[i] == pre.attempts@[i]);
            assert(1 <= pre.attempts@[i].round_number <= pre.current_round + 1);
        }
    }
    assert forall|i: int| 0 <= i < post.attempts@.len() implies 1 <= #[trigger] post.attempts@[i].round_number
        <= post.current_round + 1 by {
        if i < n {
            assert(post.attempts@[i] == pre.attempts@[i]);
        }
    }
}

impl RoundTracker {
    /// A fresh tracker on the start screen.
    pub fn new() -> (s: Self)
        ensures
            s.screen == AppScreen::Start,
            s.round_state == RoundState::Waiting,
            s.current_round == 0,
            s.attempts@.len() == 0,
            (s.pending is None),
            (s.wait_start is None),
            (s.movement_start is None),
            s.appearance_wait_ns == 0,
            s.run_timestamp@.len() == 0,
            tracker_invariant(s),
            numbering_invariant(s),
    {
        RoundTracker {
            screen: AppScreen::Start,
            round_state: RoundState::Waiting,
            current_round: 0,
            attempts: Vec::new(),
            pending: None,
            wait_start: None,
            movement_start: None,
            appearance_wait_ns: 0,
            run_timestamp: String::new(),
        }
    }

    /// Begins a round at `now` whose target appears after `wait_ns`.
    pub fn begin_round_with_wait(&mut self, now: u64, wait_ns: u128)
        ensures
            round_begun(*old(self), *final(self), now, wait_ns),
            tracker_invariant(*old(self)) && old(self).pending is None ==> tracker_invariant(
                *final(self),
            ),
            numbering_invariant(*old(self)) ==> numbering_invariant(*final(self)),
    {
        self.round_state = RoundState::Waiting;
        self.wait_start = Some(now);
        self.movement_start = None;
        self.appearance_wait_ns = wait_ns;
        self.pending = None;
    }

    /// Begins a round at `now`, with a wait of whole milliseconds drawn at random
    /// between the two configured bounds (in either order).
    pub fn begin_round(&mut self, now: u64, min_wait_ms: u64, max_wait_ms: u64)
        ensures
            round_begun(*old(self), *final(self), now, final(self).appearance_wait_ns),
            ({
                let low = if min_wait_ms <= max_wait_ms {
                    min_wait_ms
                } else {
                    max_wait_ms
                };
                let high = if min_wait_ms <= max_wait_ms {
                    max_wait_ms
                } else {
                    min_wait_ms
                };
                &&& low * NANOS_PER_MILLI <= final(self).appearance_wait_ns <= high * NANOS_PER_MILLI
                &&& final(self).appearance_wait_ns % (NANOS_PER_MILLI as u128) == 0
            }),
            tracker_invariant(*old(self)) && old(self).pending is None ==> tracker_invariant(
                *final(self),
            ),
            numbering_invariant(*old(self)) ==> numbering_invariant(*final(self)),
    {
        let low = if min_wait_ms <= max_wait_ms {
            min_wait_ms
        } else {
            max_wait_ms
        };
        let high = if min_wait_ms <= max_wait_ms {
            max_wait_ms
        } else {
            min_wait_ms
        };
        let ms = random_in_range(low, high);
        proof {
            assert(low * NANOS_PER_MILLI <= ms * NANOS_PER_MILLI <= high * NANOS_PER_MILLI)
                by (nonlinear_arith)
                requires
                    low <= ms <= high,
            ;
        }
        let wait: u128 = (ms as u128) * (NANOS_PER_MILLI as u128);
        proof {
            assert(wait % (NANOS_PER_MILLI as u128) == 0) by (nonlinear_arith)
                requires
                    wait == ms * NANOS_PER_MILLI,
                    NANOS_PER_MILLI == 1_000_000,
            ;
        }
        self.begin_round_with_wait(now, wait);
    }

    /// Starts a new run at `now`: no attempts, the first round, the round screen,
    /// and the run stamped with the current local time.
    pub fn restart_run(&mut self, now: u64, min_wait_ms: u64, max_wait_ms: u64)
        ensures
            final(self).screen == AppScreen::Round,
            final(self).round_state == RoundState::Waiting,
            final(self).current_round == 0,
            final(self).attempts@.len() == 0,
            (final(self).pending is None),
            final(self).wait_start == Some(now),
            (final(self).movement_start is None),
            ({
                let low = if min_wait_ms <= max_wait_ms {
                    min_wait_ms
                } else {
                    max_wait_ms
                };
                let high = if min_wait_ms <= max_wait_ms {
                    max_wait_ms
                } else {
                    min_wait_ms
                };
                &&& low * NANOS_PER_MILLI <= final(self).appearance_wait_ns <= high * NANOS_PER_MILLI
                &&& final(self).appearance_wait_ns % (NANOS_PER_MILLI as u128) == 0
            }),
            is_run_timestamp(final(self).run_timestamp@),
            tracker_invariant(*final(self)),
            numbering_invariant(*final(self)),
    {
        self.attempts.clear();
        self.current_round = 0;
        self.pending = None;
        self.run_timestamp = run_timestamp_now();
        self.begin_round(now, min_wait_ms, max_wait_ms);
        self.screen = AppScreen::Round;
    }

    /// Back to the start screen with the run cleared.
    pub fn reset_to_start(&mut self)
        ensures
            final(self).screen == AppScreen::Start,
            final(self).round_state == RoundState::Waiting,
            final(self).current_round == 0,
            final(self).attempts@.len() == 0,
            (final(self).pending is None),
            (final(self).wait_start is None),
            (final(self).movement_start is None),
            final(self).appearance_wait_ns == 0,
            final(self).run_timestamp == old(self).run_timestamp,
            tracker_invariant(*final(self)),
            numbering_invariant(*final(self)),
    {
        self.screen = AppScreen::Start;
        self.round_state = RoundState::Waiting;
        self.current_round = 0;
        self.attempts.clear();
        self.pending = None;
        self.wait_start = None;
        self.movement_start = None;
        self.appearance_wait_ns = 0;
    }

    /// How long the target has been moving at `now`, as the next update sees it:
    /// none while it waits or a result shows.
    pub fn movement_elapsed_at(&self, now: u64) -> (r: Option<u64>)
        ensures
            r == if advanced(*self, now).round_state == RoundState::Moving {
                Some(since(now, advanced(*self, now).movement_start))
            } else {
                None
            },
    {
        match self.round_state {
            RoundState::Waiting => {
                let waited = match self.wait_start {
                    Some(t) => elapsed_between(now, t),
                    None => 0,
                };
                if waited as u128 >= self.appearance_wait_ns {
                    Some(0)
                } else {
                    None
                }
            },
            RoundState::Moving => match self.movement_start {
                Some(t) => Some(elapsed_between(now, t)),
                None => Some(0),
            },
            RoundState::ResultShowing => None,
        }
    }

    /// Makes an attempt of this outcome and puts it on display.
    fn record(&mut self, outcome: RoundOutcome) -> (step: Step)
        requires
            old(self).current_round < usize::MAX,
            old(self).attempts@.len() < usize::MAX,
        ensures
            recorded(*old(self), *final(self), outcome, step),
    {
        let a = Attempt {
            round_number: self.current_round + 1,
            attempt_number: self.attempts.len() + 1,
            outcome,
        };
        self.attempts.push(a);
        self.pending = Some(a);
        self.round_state = RoundState::ResultShowing;
        Step::Recorded(a)
    }

    /// Acknowledges the attempt on display.
    fn acknowledge_pending(&mut self, round_count: usize, false_click_action: FalseClickAction) -> (step: Step)
        requires
            old(self).current_round < usize::MAX,
        ensures
            acknowledged(*old(self), *final(self), round_count, false_click_action, step),
    {
        let p = match self.pending {
            Some(p) => p,
            None => return Step::Idle,
        };
        self.pending = None;
        let (next_round, next) = acknowledge(
            p.outcome.is_hit(),
            self.current_round,
            round_count,
            false_click_action,
        );
        self.current_round = next_round;
        match next {
            Acknowledgement::FinishRun => {
                self.screen = AppScreen::End;
                Step::Finished
            },
            Acknowledgement::NextRound => Step::NextRound,
        }
    }

    /// Advances the round to `now`. `clicked` tells whether the user clicked;
    /// `outcome` is how a click on the moving target is judged and
    /// `deadline_passed` whether the target has run past the miss deadline, both
    /// for the movement time that `movement_elapsed_at(now)` gives.
    pub fn update_at(
        &mut self,
        now: u64,
        clicked: bool,
        outcome: RoundOutcome,
        deadline_passed: bool,
        round_count: usize,
        false_click_action: FalseClickAction,
    ) -> (step: Step)
        requires
            old(self).current_round < usize::MAX,
            old(self).attempts@.len() < usize::MAX,
        ensures
            step_transition(
                *old(self),
                *final(self),
                now,
                clicked,
                outcome,
                deadline_passed,
                round_count,
                false_click_action,
                step,
            ),
            tracker_invariant(*old(self)) ==> tracker_invariant(*final(self)),
            numbering_invariant(*old(self)) ==> numbering_invariant(*final(self)),
            // An update keeps the attempts made so far and adds at most one.
            final(self).attempts@.len() <= old(self).attempts@.len() + 1,
            final(self).attempts@.take(old(self).attempts@.len() as int) == old(self).attempts@,
            // A run ended by acknowledging a hit holds as many hits as rounds were
            // counted, and that count reached the configured number of rounds.
            tracker_invariant(*old(self)) && step == Step::Finished && pending_hit(*old(self))
                == 1 ==> hit_count(final(self).attempts@) == final(self).current_round
                && final(self).current_round >= rounds_per_run(round_count),
    {
        let ghost pre = *self;
        if self.round_state == RoundState::Waiting {
            let waited = match self.wait_start {
                Some(t) => elapsed_between(now, t),
                None => 0,
            };
            if waited as u128 >= self.appearance_wait_ns {
                self.round_state = RoundState::Moving;
                self.movement_start = Some(now);
            }
        }
        let ghost a = *self;
        proof {
            assert(a == advanced(pre, now));
        }
        let step = match self.round_state {
            RoundState::Waiting => if clicked {
                self.record(RoundOutcome::TooSoon)
            } else {
                Step::Idle
            },
            RoundState::Moving => if clicked {
                self.record(outcome)
            } else if deadline_passed {
                self.record(RoundOutcome::TooLateNoClick)
            } else {
                Step::Idle
            },
            RoundState::ResultShowing => if clicked {
                self.acknowledge_pending(round_count, false_click_action)
            } else {
                Step::Idle
            },
        };
        proof {
            assert(self.attempts@.take(pre.attempts@.len() as int) =~= pre.attempts@);
            if numbering_invariant(pre) && step is Recorded {
                let o = match step {
                    Step::Recorded(x) => x.outcome,
                    _ => outcome,
                };
                lemma_record_keeps_numbering(a, *self, o, step);
            }
            if tracker_invariant(pre) {
                assert(tracker_invariant(a));
                if a.round_state != RoundState::ResultShowing && step is Recorded {
                    let o = match step {
                        Step::Recorded(x) => x.outcome,
                        _ => outcome,
                    };
                    lemma_record_keeps_invariant(a, *self, o, step);
                }
            }
        }
        step
    }
}

} // verus!
