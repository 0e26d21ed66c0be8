use reactionlab::modes::simple_reaction_time_test::state::AppState;
use reactionlab::modes::simple_reaction_time_test::types::{
    AppScreen, Configurables, FalseClickAction, RoundResult, RoundState,
};

const MS: u64 = 1_000_000;
const WAIT_MS: u128 = 1_000_000;
const EPOCH: u64 = 7_000_000_000;

fn ms_of(ns: u64) -> f64 {
    ns as f64 / MS as f64
}

#[test]
fn waiting_round_becomes_reacting_after_delay() {
    let config = Configurables {
        min_wait_ms: 100,
        max_wait_ms: 100,
        ..Default::default()
    };
    let mut state = AppState::new(config);
    let start = EPOCH;
    state.random_wait_ns = 100 * WAIT_MS;
    state.wait_start = Some(start);
    state.update_waiting_at(start + 99 * MS);
    assert!(matches!(state.round_state, RoundState::Waiting));
    state.update_waiting_at(start + 100 * MS);
    assert!(matches!(state.round_state, RoundState::Reacting));
}

#[test]
fn reacting_click_records_result() {
    let mut state = AppState::new(Configurables::default());
    let start = EPOCH;
    state.random_wait_ns = 250 * WAIT_MS;
    state.round_state = RoundState::Reacting;
    state.react_start = Some(start);
    state.handle_click_at(start + 125 * MS);
    assert!(matches!(state.round_state, RoundState::ResultShowing));
    assert_eq!(state.round_results.len(), 1);
    assert_eq!(ms_of(state.round_results[0].reaction_time_ns), 125.0);
}

#[test]
fn too_soon_retry_starts_a_new_round() {
    let mut state = AppState::new(Configurables::default());
    state.round_state = RoundState::TooSoon;
    state.handle_click_at(EPOCH);
    assert!(matches!(state.round_state, RoundState::Waiting));
    assert!(state.wait_start.is_some());
}

#[test]
fn too_soon_end_finishes_run() {
    let config = Configurables {
        false_click_action: FalseClickAction::EndRun,
        ..Default::default()
    };
    let mut state = AppState::new(config);
    state.round_state = RoundState::TooSoon;
    let result = state.handle_click_at(EPOCH);
    assert!(result.is_some());
    assert!(matches!(state.screen, AppScreen::End));
}

#[test]
fn restart_clears_previous_results_and_enters_round_screen() {
    let mut state = AppState::new(Configurables::default());
    state.current_round = 3;
    state.round_results.push(RoundResult {
        wait_time_ns: 250 * WAIT_MS,
        reaction_time_ns: 125 * MS,
    });
    state.restart_run(EPOCH);
    assert!(state.round_results.is_empty());
    assert_eq!(state.current_round, 0);
    assert!(matches!(state.screen, AppScreen::Round));
    assert!(matches!(state.round_state, RoundState::Waiting));
}

#[test]
fn reset_to_start_clears_active_round_state() {
    let mut state = AppState::new(Configurables::default());
    state.screen = AppScreen::Round;
    state.round_state = RoundState::Reacting;
    state.current_round = 2;
    state.round_results.push(RoundResult {
        wait_time_ns: 250 * WAIT_MS,
        reaction_time_ns: 125 * MS,
    });
    state.wait_start = Some(EPOCH);
    state.react_start = Some(EPOCH);
    state.random_wait_ns = 250 * WAIT_MS;
    state.last_reaction_ns = Some(125 * MS);

    state.reset_to_start();

    assert!(matches!(state.screen, AppScreen::Start));
    assert!(matches!(state.round_state, RoundState::Waiting));
    assert_eq!(state.current_round, 0);
    assert!(state.round_results.is_empty());
    assert!(state.wait_start.is_none());
    assert!(state.react_start.is_none());
    assert_eq!(state.random_wait_ns, 0);
    assert!(state.last_reaction_ns.is_none());
}

#[test]
fn completing_last_result_finishes_run() {
    let config = Configurables {
        round_count: 1,
        ..Default::default()
    };
    let mut state = AppState::new(config);
    state.round_state = RoundState::ResultShowing;
    state.current_round = 0;
    state.round_results.push(RoundResult {
        wait_time_ns: 250 * WAIT_MS,
        reaction_time_ns: 125 * MS,
    });
    let result = state.handle_click_at(EPOCH);
    assert!(result.is_some());
    assert!(matches!(state.screen, AppScreen::End));
}

#[test]
fn new_round_wait_lies_within_configured_bounds() {
    let config = Configurables {
        min_wait_ms: 300,
        max_wait_ms: 400,
        ..Default::default()
    };
    let mut state = AppState::new(config);
    for k in 0..50u64 {
        state.start_new_round_at(EPOCH + k);
        assert!(state.random_wait_ns >= 300 * WAIT_MS && state.random_wait_ns <= 400 * WAIT_MS);
        assert_eq!(state.wait_start, Some(EPOCH + k));
        assert!(state.react_start.is_none());
    }
}

#[test]
fn waiting_click_is_too_soon_and_keeps_results() {
    let mut state = AppState::new(Configurables::default());
    state.restart_run(EPOCH);
    let run = state.handle_click_at(EPOCH + 10 * MS);
    assert!(run.is_none());
    assert!(matches!(state.round_state, RoundState::TooSoon));
    assert!(state.round_results.is_empty());
}

#[test]
fn full_run_holds_one_result_per_round() {
    let config = Configurables {
        min_wait_ms: 10,
        max_wait_ms: 10,
        round_count: 3,
        ..Default::default()
    };
    let mut state = AppState::new(config);
    let mut now = EPOCH;
    state.restart_run(now);
    let mut finished = None;
    for round in 0..3u64 {
        now += 10 * MS;
        state.update_waiting_at(now);
        assert!(matches!(state.round_state, RoundState::Reacting));
        now += (200 + round) * MS;
        assert!(state.handle_click_at(now).is_none());
        assert_eq!(state.last_reaction_ns, Some((200 + round) * MS));
        now += MS;
        finished = state.handle_click_at(now);
    }
    let run = finished.expect("the third acknowledgement ends the run");
    assert_eq!(run.rounds.len(), 3);
    assert_eq!(run.rounds[1].reaction_time_ns, 201 * MS);
    assert_eq!(run.rounds[2].wait_time_ns, 10 * WAIT_MS);
    assert_eq!(run.config.round_count, 3);
    assert!(matches!(state.screen, AppScreen::End));
}

#[test]
fn zero_round_count_still_plays_one_round() {
    let config = Configurables {
        min_wait_ms: 0,
        max_wait_ms: 0,
        round_count: 0,
        ..Default::default()
    };
    let mut state = AppState::new(config);
    state.restart_run(EPOCH);
    state.update_waiting_at(EPOCH);
    state.handle_click_at(EPOCH + 150 * MS);
    let run = state.handle_click_at(EPOCH + 151 * MS).expect("one round ends the run");
    assert_eq!(run.rounds.len(), 1);
}

#[test]
fn clock_going_backwards_counts_as_no_time() {
    let mut state = AppState::new(Configurables::default());
    state.round_state = RoundState::Reacting;
    state.react_start = Some(EPOCH);
    state.handle_click_at(EPOCH - 5);
    assert_eq!(state.round_results[0].reaction_time_ns, 0);
}

#[test]
fn go_to_start_drops_results() {
    let mut state = AppState::new(Configurables::default());
    state.screen = AppScreen::End;
    state.current_round = 5;
    state.round_results.push(RoundResult {
        wait_time_ns: 1,
        reaction_time_ns: 2,
    });
    state.go_to_start();
    assert!(matches!(state.screen, AppScreen::Start));
    assert_eq!(state.current_round, 0);
    assert!(state.round_results.is_empty());
}

#[test]
fn defaults_match_the_documented_configurables() {
    let config = Configurables::default();
    assert_eq!(config.wait_color, [255, 0, 0]);
    assert_eq!(config.react_color, [0, 255, 0]);
    assert_eq!(config.min_wait_ms, 250);
    assert_eq!(config.max_wait_ms, 10000);
    assert_eq!(config.round_count, 5);
    assert_eq!(config.false_click_action, FalseClickAction::RetryRound);
    assert!(config.wait_bounds_are_valid());
    let reversed = Configurables {
        min_wait_ms: 20,
        max_wait_ms: 10,
        ..Default::default()
    };
    assert!(!reversed.wait_bounds_are_valid());
}

#[test]
fn finished_run_carries_the_start_timestamp() {
    let config = Configurables {
        min_wait_ms: 10,
        max_wait_ms: 10,
        round_count: 1,
        ..Default::default()
    };
    let mut state = AppState::new(config);
    state.restart_run(EPOCH);
    let stamp = state.run_timestamp.clone();
    assert_eq!(stamp.len(), "2026-08-18_12-34-56.123".len());
    assert_eq!(&stamp[4..5], "-");
    assert_eq!(&stamp[10..11], "_");
    assert_eq!(&stamp[19..20], ".");
    state.update_waiting_at(EPOCH + 10 * MS);
    state.handle_click_at(EPOCH + 200 * MS);
    let run = state.handle_click_at(EPOCH + 300 * MS).unwrap();
    assert_eq!(run.timestamp, stamp);
    assert_eq!(run.rounds.len(), 1);
}

#[test]
fn waits_of_any_length_can_be_drawn() {
    let config = Configurables {
        min_wait_ms: u64::MAX - 1,
        max_wait_ms: u64::MAX,
        ..Default::default()
    };
    let mut state = AppState::new(config);
    state.start_new_round_at(EPOCH);
    assert!(state.random_wait_ns >= (u64::MAX - 1) as u128 * WAIT_MS);
    assert!(state.random_wait_ns <= u64::MAX as u128 * WAIT_MS);
    state.update_waiting_at(u64::MAX);
    assert!(matches!(state.round_state, RoundState::Waiting));
}
