use reactionlab::modes::click_timing_reaction_test::round::{RoundTracker, Step};
use reactionlab::modes::click_timing_reaction_test::types::{
    AppScreen, FalseClickAction, RoundOutcome, RoundState,
};

const MS: u64 = 1_000_000;
const WAIT_MS: u128 = 1_000_000;
const EPOCH: u64 = 5_000_000_000;

fn started(wait_ms: u64) -> RoundTracker {
    let mut tracker = RoundTracker::new();
    tracker.restart_run(EPOCH, wait_ms, wait_ms);
    tracker
}

fn click(tracker: &mut RoundTracker, at: u64, outcome: RoundOutcome, rule: FalseClickAction) -> Step {
    tracker.update_at(at, true, outcome, false, 5, rule)
}

#[test]
fn tracker_click_while_waiting_is_too_soon() {
    let mut tracker = started(1000);
    assert_eq!(tracker.appearance_wait_ns, 1000 * WAIT_MS);
    assert_eq!(tracker.movement_elapsed_at(EPOCH + 100 * MS), None);
    let step = click(&mut tracker, EPOCH + 100 * MS, RoundOutcome::Hit, FalseClickAction::RetryRound);
    let attempt = match step {
        Step::Recorded(a) => a,
        other => panic!("expected a recorded attempt, got {other:?}"),
    };
    assert_eq!(attempt.outcome, RoundOutcome::TooSoon);
    assert_eq!(attempt.attempt_number, 1);
    assert_eq!(attempt.round_number, 1);
    assert_eq!(tracker.round_state, RoundState::ResultShowing);
}

#[test]
fn tracker_target_moves_once_the_wait_is_over() {
    let mut tracker = started(100);
    assert_eq!(tracker.movement_elapsed_at(EPOCH + 100 * MS), Some(0));
    let step = tracker.update_at(EPOCH + 100 * MS, false, RoundOutcome::Hit, false, 5, FalseClickAction::RetryRound);
    assert_eq!(step, Step::Idle);
    assert_eq!(tracker.round_state, RoundState::Moving);
    assert_eq!(tracker.movement_start, Some(EPOCH + 100 * MS));
    assert_eq!(tracker.movement_elapsed_at(EPOCH + 350 * MS), Some(250 * MS));
}

#[test]
fn tracker_click_on_moving_target_takes_its_judgement() {
    let mut tracker = started(0);
    let step = click(&mut tracker, EPOCH + 10 * MS, RoundOutcome::AlmostThereTooLate, FalseClickAction::RetryRound);
    assert!(matches!(step, Step::Recorded(a) if a.outcome == RoundOutcome::AlmostThereTooLate));
}

#[test]
fn tracker_missed_deadline_is_a_no_click_failure() {
    let mut tracker = started(0);
    tracker.update_at(EPOCH, false, RoundOutcome::Hit, false, 5, FalseClickAction::RetryRound);
    let step = tracker.update_at(EPOCH + 900 * MS, false, RoundOutcome::Hit, true, 5, FalseClickAction::RetryRound);
    assert!(matches!(step, Step::Recorded(a) if a.outcome == RoundOutcome::TooLateNoClick));
}

#[test]
fn tracker_retry_keeps_the_failure_and_the_round() {
    let mut tracker = started(0);
    click(&mut tracker, EPOCH, RoundOutcome::TooSoon, FalseClickAction::RetryRound);
    let step = click(&mut tracker, EPOCH + MS, RoundOutcome::TooSoon, FalseClickAction::RetryRound);
    assert_eq!(step, Step::NextRound);
    assert_eq!(tracker.attempts.len(), 1);
    assert_eq!(tracker.attempts[0].attempt_number, 1);
    assert_eq!(tracker.attempts[0].round_number, 1);
    assert_eq!(tracker.current_round, 0);
    tracker.begin_round_with_wait(EPOCH + MS, 0);
    assert_eq!(tracker.round_state, RoundState::Waiting);
}

#[test]
fn tracker_end_run_setting_finishes_on_a_failure() {
    let mut tracker = started(0);
    click(&mut tracker, EPOCH, RoundOutcome::TooSoon, FalseClickAction::EndRun);
    let step = click(&mut tracker, EPOCH + MS, RoundOutcome::TooSoon, FalseClickAction::EndRun);
    assert_eq!(step, Step::Finished);
    assert_eq!(tracker.screen, AppScreen::End);
    assert_eq!(tracker.attempts[0].outcome, RoundOutcome::TooSoon);
}

#[test]
fn tracker_retry_then_hit_numbers_both_attempts() {
    let mut tracker = started(0);
    let one_round = |t: &mut RoundTracker, at: u64, o: RoundOutcome| {
        t.update_at(at, true, o, false, 1, FalseClickAction::RetryRound)
    };
    one_round(&mut tracker, EPOCH, RoundOutcome::TooSoon);
    assert_eq!(one_round(&mut tracker, EPOCH + MS, RoundOutcome::Hit), Step::NextRound);
    tracker.begin_round_with_wait(EPOCH + MS, 0);
    one_round(&mut tracker, EPOCH + 500 * MS, RoundOutcome::Hit);
    assert_eq!(one_round(&mut tracker, EPOCH + 501 * MS, RoundOutcome::Hit), Step::Finished);
    assert_eq!(tracker.attempts.len(), 2);
    assert_eq!(tracker.attempts[0].outcome, RoundOutcome::TooSoon);
    assert_eq!(tracker.attempts[1].outcome, RoundOutcome::Hit);
    assert_eq!(tracker.attempts[1].attempt_number, 2);
    assert_eq!(tracker.attempts[1].round_number, 1);
    assert_eq!(tracker.current_round, 1);
}

#[test]
fn tracker_random_wait_is_whole_milliseconds_between_the_bounds() {
    for _ in 0..20 {
        let mut tracker = RoundTracker::new();
        tracker.restart_run(EPOCH, 900, 300);
        assert!(tracker.appearance_wait_ns >= 300 * WAIT_MS && tracker.appearance_wait_ns <= 900 * WAIT_MS);
        assert_eq!(tracker.appearance_wait_ns % WAIT_MS, 0);
    }
}

#[test]
fn tracker_reset_clears_the_run() {
    let mut tracker = started(0);
    click(&mut tracker, EPOCH, RoundOutcome::Hit, FalseClickAction::RetryRound);
    tracker.reset_to_start();
    assert_eq!(tracker.screen, AppScreen::Start);
    assert!(tracker.attempts.is_empty());
    assert_eq!(tracker.pending, None);
    assert_eq!(tracker.round_state, RoundState::Waiting);
}

#[test]
fn tracker_draws_waits_of_any_length() {
    for _ in 0..20 {
        let mut tracker = RoundTracker::new();
        tracker.restart_run(EPOCH, u64::MAX, 0);
        assert!(tracker.appearance_wait_ns <= u64::MAX as u128 * WAIT_MS);
        assert_eq!(tracker.appearance_wait_ns % WAIT_MS, 0);
    }
    let mut tracker = RoundTracker::new();
    tracker.restart_run(EPOCH, u64::MAX, u64::MAX);
    assert_eq!(tracker.appearance_wait_ns, u64::MAX as u128 * WAIT_MS);
}

#[test]
fn tracker_numbers_attempts_even_when_a_round_is_begun_over_a_result() {
    let mut tracker = started(0);
    click(&mut tracker, EPOCH, RoundOutcome::Hit, FalseClickAction::RetryRound);
    tracker.begin_round_with_wait(EPOCH + MS, 0);
    click(&mut tracker, EPOCH + 2 * MS, RoundOutcome::Hit, FalseClickAction::RetryRound);
    assert_eq!(tracker.attempts.len(), 2);
    assert_eq!(tracker.attempts[1].attempt_number, 2);
    assert!(tracker.attempts[0].round_number <= tracker.attempts[1].round_number);
    assert!(tracker.attempts[1].round_number <= tracker.current_round + 1);
}
