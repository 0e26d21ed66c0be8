use reactionlab::modes::video_click_timing_test::extraction::{
    error_with_tail, scaled_dimensions, MAX_FRAME_WIDTH,
};
use reactionlab::modes::video_click_timing_test::preload::PreloadProgress;
use reactionlab::modes::video_click_timing_test::probe::stream_entries;
use reactionlab::modes::video_click_timing_test::state::{
    frame_for_elapsed, AppState, Phase, SegmentTiming, UpdateAction,
};
use reactionlab::modes::video_click_timing_test::types::{
    AppScreen, FalseClickAction, MeasurementUnit, RoundOutcome, RunSettings, VideoTimeStamp,
};

const MS: u64 = 1_000_000;
const WAIT_MS: u128 = 1_000_000;
const EPOCH: u64 = 3_000_000_000;

fn segment(frames: usize, duration_ms: u64) -> SegmentTiming {
    SegmentTiming {
        frame_count: frames,
        duration_ns: duration_ms * MS,
    }
}

fn round_state(settings: RunSettings, post_click: bool) -> AppState {
    let mut state = AppState::new();
    state.run_settings = settings;
    state.select_group(0, "group".to_string());
    state.screen = AppScreen::Round;
    let post = if post_click { Some(segment(30, 1000)) } else { None };
    state.begin_round(EPOCH, "clip.mp4".to_string(), None, segment(60, 2000), post);
    state
}

fn fixed_wait() -> RunSettings {
    RunSettings {
        min_wait_ms: 100,
        max_wait_ms: 100,
        ..Default::default()
    }
}

#[test]
fn scales_down_preserving_aspect_ratio() {
    assert_eq!(scaled_dimensions(2560, 1440), (1920, 1080));
    assert_eq!(scaled_dimensions(3840, 2160), (1920, 1080));
    assert_eq!(scaled_dimensions(800, 600), (800, 600));
    assert_eq!(scaled_dimensions(641, 481), (641, 481));
    assert_eq!(scaled_dimensions(0, 100), (1, 100));
}

#[test]
fn scaling_rounds_and_keeps_two_rows() {
    assert_eq!(MAX_FRAME_WIDTH, 1920);
    assert_eq!(scaled_dimensions(3000, 1), (1920, 2));
    assert_eq!(scaled_dimensions(3840, 1001), (1920, 501));
    assert_eq!(scaled_dimensions(100, 0), (100, 1));
}

#[test]
fn time_timestamp_converts_to_ms() {
    let stamp = VideoTimeStamp {
        minutes: 1,
        seconds: 35,
        milliseconds: 500,
    };
    assert_eq!(stamp.to_ms() as f64, 95500.0);
}

#[test]
fn frames_follow_elapsed_time() {
    let seg = segment(30, 1000);
    assert_eq!(frame_for_elapsed(&seg, 0), 0);
    assert_eq!(frame_for_elapsed(&seg, 500 * MS), 15);
    assert_eq!(frame_for_elapsed(&seg, 999 * MS), 29);
    assert_eq!(frame_for_elapsed(&seg, 5000 * MS), 29);
    assert_eq!(frame_for_elapsed(&segment(0, 1000), 5), 0);
}

#[test]
fn click_while_waiting_is_too_soon() {
    let mut state = round_state(fixed_wait(), false);
    assert_eq!(state.phase, Phase::Waiting);
    let action = state.update_at(EPOCH + 50 * MS, true);
    assert!(matches!(action, UpdateAction::Idle));
    assert_eq!(state.phase, Phase::Result);
    let last = state.last_result.as_ref().unwrap();
    assert_eq!(last.outcome, RoundOutcome::TooSoon);
    assert_eq!(last.group_name, "group");
    assert_eq!(last.video_path, "clip.mp4");
    assert_eq!(last.appearance_wait_ns, 100 * WAIT_MS);
}

#[test]
fn click_after_click_point_is_a_hit_with_its_offset() {
    let mut state = round_state(fixed_wait(), false);
    state.update_at(EPOCH + 100 * MS, false);
    assert_eq!(state.phase, Phase::PlayingToClick);
    state.update_at(EPOCH + 1100 * MS, false);
    assert_eq!(state.display_idx, 30);
    state.update_at(EPOCH + 2100 * MS, false);
    assert_eq!(state.phase, Phase::ClickPending);
    state.update_at(EPOCH + 2150 * MS, true);
    let last = state.last_result.as_ref().unwrap();
    assert_eq!(last.outcome, RoundOutcome::Hit);
    assert_eq!(last.click_offset_ns, Some(50 * MS));
    assert_eq!(state.phase, Phase::Result);
}

#[test]
fn missing_the_click_point_is_too_late() {
    let mut state = round_state(fixed_wait(), false);
    state.update_at(EPOCH + 100 * MS, false);
    state.update_at(EPOCH + 2100 * MS, false);
    state.update_at(EPOCH + 2299 * MS, false);
    assert_eq!(state.phase, Phase::ClickPending);
    state.update_at(EPOCH + 2300 * MS, false);
    assert_eq!(
        state.last_result.as_ref().unwrap().outcome,
        RoundOutcome::TooLateNoClick
    );
}

#[test]
fn hit_plays_the_post_click_clip_first() {
    let mut state = round_state(fixed_wait(), true);
    state.update_at(EPOCH + 100 * MS, false);
    state.update_at(EPOCH + 2200 * MS, true);
    assert_eq!(state.phase, Phase::PostClick);
    assert_eq!(state.display_idx, 0);
    state.update_at(EPOCH + 2700 * MS, false);
    assert_eq!(state.display_idx, 15);
    state.update_at(EPOCH + 3200 * MS, false);
    assert_eq!(state.phase, Phase::Result);
    assert_eq!(state.display_idx, 29);
}

#[test]
fn retry_keeps_attempts_numbered_and_round_unchanged() {
    let mut state = round_state(fixed_wait(), false);
    state.update_at(EPOCH + 10 * MS, true);
    let action = state.update_at(EPOCH + 20 * MS, true);
    assert!(matches!(action, UpdateAction::StartNextRound));
    assert_eq!(state.attempt_results.len(), 1);
    assert_eq!(state.attempt_results[0].attempt_number, 1);
    assert_eq!(state.attempt_results[0].round_number, 1);
    assert_eq!(state.current_round, 0);
    state.begin_round(EPOCH + 30 * MS, "clip.mp4".to_string(), None, segment(60, 2000), None);
    assert_eq!(state.phase, Phase::Waiting);
    state.update_at(EPOCH + 40 * MS, true);
    assert_eq!(state.attempt_results[1].attempt_number, 2);
    assert_eq!(state.attempt_results[1].round_number, 1);
}

#[test]
fn end_run_setting_finishes_on_a_failure() {
    let settings = RunSettings {
        false_click_action: FalseClickAction::EndRun,
        ..fixed_wait()
    };
    let mut state = round_state(settings, false);
    state.update_at(EPOCH + 10 * MS, true);
    match state.update_at(EPOCH + 20 * MS, true) {
        UpdateAction::Finished(run) => {
            assert_eq!(run.attempts.len(), 1);
            assert_eq!(run.attempts[0].outcome, RoundOutcome::TooSoon);
            assert_eq!(run.settings, settings);
        }
        _ => panic!("the run should have finished"),
    }
    assert_eq!(state.screen, AppScreen::End);
}

#[test]
fn last_hit_finishes_the_run() {
    let settings = RunSettings {
        round_count: 1,
        ..fixed_wait()
    };
    let mut state = round_state(settings, false);
    state.update_at(EPOCH + 100 * MS, false);
    state.update_at(EPOCH + 2100 * MS, true);
    match state.update_at(EPOCH + 2200 * MS, true) {
        UpdateAction::Finished(run) => {
            assert_eq!(run.attempts.len(), 1);
            assert_eq!(run.attempts[0].outcome, RoundOutcome::Hit);
            assert_eq!(run.timestamp, state.run_timestamp);
            assert_eq!(run.timestamp.len(), "2026-08-18_12-34-56.123".len());
        }
        _ => panic!("the run should have finished"),
    }
    assert_eq!(state.current_round, 1);
}

#[test]
fn updates_off_the_round_screen_do_nothing() {
    let mut state = round_state(fixed_wait(), false);
    state.screen = AppScreen::Start;
    let action = state.update_at(EPOCH + 10 * MS, true);
    assert!(matches!(action, UpdateAction::Idle));
    assert!(state.attempt_results.is_empty());
}

#[test]
fn aborting_and_resetting_clear_the_run() {
    let mut state = round_state(fixed_wait(), false);
    state.update_at(EPOCH + 10 * MS, true);
    state.abort_with_error("Selected group has no usable videos".to_string());
    assert_eq!(state.screen, AppScreen::Start);
    assert_eq!(
        state.last_error.as_deref(),
        Some("Selected group has no usable videos")
    );
    state.reset_to_start();
    assert!(state.attempt_results.is_empty());
    assert!(state.last_error.is_none());
    assert_eq!(state.phase, Phase::Result);
}

#[test]
fn reversed_wait_bounds_still_draw_between_them() {
    let settings = RunSettings {
        min_wait_ms: 900,
        max_wait_ms: 300,
        ..Default::default()
    };
    for _ in 0..20 {
        let state = round_state(settings, false);
        assert!(state.appearance_wait_ns >= 300 * WAIT_MS && state.appearance_wait_ns <= 900 * WAIT_MS);
    }
    let huge = RunSettings {
        min_wait_ms: u64::MAX,
        max_wait_ms: 0,
        ..Default::default()
    };
    let state = round_state(huge, false);
    assert!(state.appearance_wait_ns <= u64::MAX as u128 * WAIT_MS);
}

#[test]
fn run_settings_validation() {
    assert!(RunSettings::default().validation_messages().is_empty());
    let bad = RunSettings {
        min_wait_ms: 10,
        max_wait_ms: 5,
        round_count: 0,
        ..Default::default()
    };
    assert_eq!(
        bad.validation_messages(),
        vec![
            "Minimum wait cannot exceed maximum wait.".to_string(),
            "Round count must be at least 1.".to_string()
        ]
    );
    assert_eq!(MeasurementUnit::Frame.label(), "Frame");
    assert_eq!(RoundOutcome::TooLateNoClick.label(), "Too late, no click");
    assert!(RoundOutcome::Hit.is_hit());
}

#[test]
fn error_message_quotes_the_log_tail() {
    assert_eq!(
        error_with_tail("ffmpeg produced no frames.", ""),
        "ffmpeg produced no frames. No ffmpeg error output was captured."
    );
    assert_eq!(
        error_with_tail("ctx", " \n\t\r\n"),
        "ctx No ffmpeg error output was captured."
    );
    assert_eq!(
        error_with_tail("ctx", "first\r\nsecond\n"),
        "ctx\nffmpeg output:\nfirst\nsecond"
    );
    assert_eq!(error_with_tail("ctx", "a\n\nb\r"), "ctx\nffmpeg output:\na\n\nb\r");
    let logs: String = (1..=14).map(|i| format!("line {i}\n")).collect();
    let expected_tail: Vec<String> = (3..=14).map(|i| format!("line {i}")).collect();
    assert_eq!(
        error_with_tail("ctx", &logs),
        format!("ctx\nffmpeg output:\n{}", expected_tail.join("\n"))
    );
}

#[test]
fn preload_progress_tracks_successes_and_failures() {
    let mut progress = PreloadProgress::new(3);
    assert_eq!(progress.total, 3);
    assert_eq!(progress.processed, 0);
    assert!(!progress.is_finished(false));
    assert!(progress.is_finished(true));
    progress.segments_ready(2);
    progress.video_done();
    progress.video_failed("a.mp4".to_string(), "bad data".to_string());
    progress.video_done();
    progress.segments_ready(0);
    assert!(!progress.is_finished(false));
    progress.video_done();
    assert_eq!(progress.processed, 3);
    assert!(progress.is_finished(false));
    assert!(progress.has_succeeded(0));
    assert!(!progress.has_succeeded(1));
    assert_eq!(progress.prepared_indices(3), vec![0, 2]);
    assert_eq!(progress.prepared_indices(1), vec![0]);
}

#[test]
fn failure_report_lists_each_failed_video() {
    let mut progress = PreloadProgress::new(2);
    assert_eq!(progress.failure_report(), "No videos could be prepared.");
    progress.video_failed("a.mp4".to_string(), "bad data".to_string());
    assert_eq!(
        progress.failure_report(),
        "No videos could be prepared.\na.mp4: bad data"
    );
    progress.video_failed("b.mp4".to_string(), "no stream".to_string());
    assert_eq!(
        progress.failure_report(),
        "No videos could be prepared.\na.mp4: bad data\nb.mp4: no stream"
    );
}

#[test]
fn reads_ffprobe_stream_entries() {
    let entries = stream_entries("r_frame_rate=30000/1001\nwidth=1920\nheight=1080\n");
    assert_eq!(entries.frame_rate.as_deref(), Some("30000/1001"));
    assert_eq!(entries.width, Some(1920));
    assert_eq!(entries.height, Some(1080));
}

#[test]
fn stream_entries_trim_override_and_reject() {
    let entries = stream_entries(" width = +640 \r\nnoise\nheight=12x\nwidth=800\r\nother=1");
    assert_eq!(entries.frame_rate, None);
    assert_eq!(entries.width, Some(800));
    assert_eq!(entries.height, None);
    let entries = stream_entries("width=4294967296\nheight=4294967295");
    assert_eq!(entries.width, None);
    assert_eq!(entries.height, Some(4294967295));
    let entries = stream_entries("");
    assert_eq!(entries.width, None);
}
