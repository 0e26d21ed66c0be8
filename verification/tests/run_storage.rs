use reactionlab::modes::click_timing_reaction_test::storage as click_storage;
use reactionlab::modes::simple_reaction_time_test::storage::{
    filename_to_display, is_filename_stem_before, parse_timestamp, run_file_infos, run_filename,
};
use reactionlab::timestamp::{latest_runs, DateParts, DateTimeParts};

fn date(year: i32, month: u32, day: u32) -> DateParts {
    DateParts { year, month, day }
}

fn at(year: i32, month: u32, day: u32, hour: u32, minute: u32, second: u32, ms: u32) -> DateTimeParts {
    DateTimeParts {
        year,
        month,
        day,
        hour,
        minute,
        second,
        nanosecond: ms * 1_000_000,
    }
}

#[test]
fn displays_millisecond_precision_timestamp() {
    assert_eq!(
        filename_to_display("reactionlab-2026-08-18_12-34-56.123.json"),
        "18 August 2026, 12:34:56.123"
    );
}

#[test]
fn marks_filename_stem_before_date() {
    let date = date(2026, 8, 19);

    assert!(is_filename_stem_before(
        "reactionlab-2026-08-18_12-34-56.123",
        date
    ));
}

#[test]
fn denies_filename_stem_after_date() {
    let date = date(2026, 8, 18);

    assert!(!is_filename_stem_before(
        "reactionlab-2026-08-19_12-34-56.123",
        date
    ));
}

#[test]
fn same_day_is_not_before() {
    assert!(!is_filename_stem_before("reactionlab-2026-08-18_00-00-00.000", date(2026, 8, 18)));
    assert!(!is_filename_stem_before("other-2026-08-01_00-00-00.000", date(2026, 8, 18)));
    assert!(!is_filename_stem_before("reactionlab-2026-08", date(2026, 8, 18)));
    assert!(!is_filename_stem_before("reactionlab-2026-08-0é", date(2026, 8, 18)));
}

#[test]
fn single_digit_day_and_short_millis_are_padded() {
    assert_eq!(
        filename_to_display("reactionlab-2026-01-05_09-08-07.004.json"),
        " 5 January 2026, 09:08:07.004"
    );
}

#[test]
fn unreadable_names_are_listed_as_they_are() {
    assert_eq!(filename_to_display("notes.json"), "notes.json");
    assert_eq!(
        filename_to_display("reactionlab-2026-08-18_12-34-56.json"),
        "reactionlab-2026-08-18_12-34-56.json"
    );
    assert_eq!(
        filename_to_display("reactionlab-2026-13-18_12-34-56.123.json"),
        "reactionlab-2026-13-18_12-34-56.123.json"
    );
}

#[test]
fn parses_stored_timestamps() {
    assert_eq!(
        parse_timestamp("2026-08-18_12-34-56.123"),
        Some(at(2026, 8, 18, 12, 34, 56, 123))
    );
    assert_eq!(parse_timestamp("2026-08-18_12-34-56"), None);
    assert_eq!(
        click_storage::parse_timestamp("2026-08-18_12-34-56"),
        Some(at(2026, 8, 18, 12, 34, 56, 0))
    );
    assert_eq!(
        click_storage::filename_to_display("reactionlab-2026-08-18_12-34-56.json"),
        "18 August 2026, 12:34:56.000"
    );
}

#[test]
fn run_files_are_named_after_their_timestamp() {
    assert_eq!(
        run_filename("2026-08-18_12-34-56.123"),
        "reactionlab-2026-08-18_12-34-56.123.json"
    );
}

#[test]
fn listing_keeps_run_files_latest_first() {
    let names = vec![
        "reactionlab-2026-08-18_12-34-56.123.json".to_string(),
        "config.json".to_string(),
        "reactionlab-2026-08-19_08-00-00.000.json".to_string(),
        "reactionlab-2026-08-17_23-59-59.999.txt".to_string(),
        "reactionlab-2025-12-31_23-59-59.999.json".to_string(),
    ];
    let listed = run_file_infos(&names);
    let files: Vec<&str> = listed.iter().map(|f| f.filename.as_str()).collect();
    assert_eq!(
        files,
        vec![
            "reactionlab-2026-08-19_08-00-00.000.json",
            "reactionlab-2026-08-18_12-34-56.123.json",
            "reactionlab-2025-12-31_23-59-59.999.json",
        ]
    );
    assert_eq!(listed[1].display_name, "18 August 2026, 12:34:56.123");
    let click_listed = click_storage::run_file_infos(&names);
    assert_eq!(click_listed.len(), 3);
}

#[test]
fn click_stem_date_test_matches_simple_one() {
    assert!(click_storage::is_run_stem_before(
        "reactionlab-2026-08-18_12-34-56",
        date(2026, 8, 19)
    ));
    assert!(!click_storage::is_run_stem_before(
        "reactionlab-2026-08-19_12-34-56",
        date(2026, 8, 19)
    ));
}

#[test]
fn history_keeps_the_ten_latest_in_time_order() {
    let mut entries = Vec::new();
    for day in [3u32, 14, 1, 9, 12, 5, 7, 11, 2, 13, 8, 4, 6, 10] {
        entries.push((at(2026, 3, day, 10, 0, 0, 0), day));
    }
    let latest = latest_runs(entries);
    let days: Vec<u32> = latest.iter().map(|(_, d)| *d).collect();
    assert_eq!(days, vec![5, 6, 7, 8, 9, 10, 11, 12, 13, 14]);

    let few = latest_runs(vec![(at(2026, 1, 2, 0, 0, 0, 0), 'b'), (at(2026, 1, 1, 0, 0, 0, 0), 'a')]);
    let labels: Vec<char> = few.iter().map(|(_, c)| *c).collect();
    assert_eq!(labels, vec!['a', 'b']);
    assert!(latest_runs(Vec::<(DateTimeParts, u8)>::new()).is_empty());
}
