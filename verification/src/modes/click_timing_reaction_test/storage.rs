//! The pure part of the click timing reaction test's run storage: file naming,
//! listed names, the listing order and the date test that old runs are deleted by.
//! Reading and writing the files is the application's work.

use super::types::RunFileInfo;
use crate::run_files::{
    lemma_run_filename_round_trip, run_suffix,
    display_of, display_with_millis, info_view, is_run_file_name, names_descending, run_prefix,
    run_file_name_matches, run_timestamp_part, sort_latest_first, stem_before, stem_date_before,
    stripped_timestamp,
};
use crate::text::is_prefix;
use crate::timestamp::{
    chrono_date_time_parse, parse_date_time, run_format, run_format_seconds, DateParts,
    DateTimeParts,
};
use vstd::prelude::*;
use vstd::utf8::{encode_utf8, is_char_boundary};

verus! {

pub use crate::run_files::run_filename;

/// A stored run timestamp: the run layout with milliseconds, or else without them.
pub open spec fn parsed_timestamp(timestamp: Seq<char>) -> Option<DateTimeParts> {
    match chrono_date_time_parse(timestamp, run_format()) {
        Some(t) => Some(t),
        None => chrono_date_time_parse(timestamp, run_format_seconds()),
    }
}

/// Reads a stored run timestamp.
pub fn parse_timestamp(timestamp: &str) -> (r: Option<DateTimeParts>)
    ensures
        r == parsed_timestamp(timestamp@),
{
    let with_millis = "%Y-%m-%d_%H-%M-%S%.3f";
    let seconds = "%Y-%m-%d_%H-%M-%S";
    proof {
        reveal_strlit("%Y-%m-%d_%H-%M-%S%.3f");
        reveal_strlit("%Y-%m-%d_%H-%M-%S");
        assert(with_millis@ =~= run_format());
        assert(seconds@ =~= run_format_seconds());
    }
    match parse_date_time(timestamp, with_millis) {
        Some(t) => Some(t),
        None => parse_date_time(timestamp, seconds),
    }
}

/// The name a run file is listed under: its date and time to the millisecond, or
/// the file name itself when no timestamp can be read from it.
pub open spec fn display_name(filename: Seq<char>) -> Seq<char> {
    match parsed_timestamp(stripped_timestamp(filename)) {
        Some(t) => display_of(t, filename),
        None => filename,
    }
}

/// The name a run file is listed under.
pub fn filename_to_display(filename: &str) -> (r: String)
    ensures
        r@ == display_name(filename@),
{
    let timestamp = run_timestamp_part(filename);
    match parse_timestamp(timestamp) {
        Some(t) => display_with_millis(&t, filename),
        None => String::from_str(filename),
    }
}

/// The run files among `names`, with their listed names, in directory order.
pub open spec fn listed(names: Seq<String>) -> Seq<(Seq<char>, Seq<char>)>
    decreases names.len(),
{
    if names.len() == 0 {
        Seq::empty()
    } else {
        let rest = listed(names.drop_last());
        let name = names.last()@;
        if is_run_file_name(name) {
            rest.push((name, display_name(name)))
        } else {
            rest
        }
    }
}

/// The listing of the run files among the file names of the storage directory,
/// the latest first.
pub fn run_file_infos(file_names: &Vec<String>) -> (r: Vec<RunFileInfo>)
    ensures
        names_descending(r@),
        r@.map_values(|i: RunFileInfo| info_view(i)).to_multiset() == listed(
            file_names@,
        ).to_multiset(),
{
    let mut infos: Vec<RunFileInfo> = Vec::new();
    let n = file_names.len();
    let mut i: usize = 0;
    while i < n
        invariant
            n == file_names@.len(),
            0 <= i <= n,
            infos@.map_values(|i: RunFileInfo| info_view(i)) == listed(
                file_names@.take(i as int),
            ),
        decreases n - i,
    {
        let name = &file_names[i];
        proof {
            assert(file_names@.take(i + 1).drop_last() =~= file_names@.take(i as int));
        }
        if run_file_name_matches(name.as_str()) {
            let info = RunFileInfo {
                filename: name.clone(),
                display_name: filename_to_display(name.as_str()),
            };
            infos.push(info);
        }
        proof {
            assert(infos@.map_values(|i: RunFileInfo| info_view(i)) =~= listed(
                file_names@.take(i + 1),
            ));
        }
        i = i + 1;
    }
    proof {
        assert(file_names@.take(n as int) =~= file_names@);
    }
    sort_latest_first(infos)
}

/// The ten bytes after the prefix of a run file stem can be cut off as text: there
/// are fewer than ten, or the tenth ends a character.
pub open spec fn stem_date_sliceable(stem: Seq<char>) -> bool {
    is_prefix(run_prefix(), stem) ==> {
        let bytes = encode_utf8(stem.skip(run_prefix().len() as int));
        bytes.len() >= 10 ==> is_char_boundary(bytes, 10)
    }
}

/// Whether a run file stem (the name without `.json`) names a date before `date`.
pub fn is_run_stem_before(stem: &str, date: DateParts) -> (r: bool)
    requires
        stem_date_sliceable(stem@),
    ensures
        r == stem_before(stem@, date),
{
    stem_date_before(stem, &date)
}

/// A run saved under the name made from its timestamp is listed under that
/// timestamp: its date and time when the timestamp can be read, else its file name.
pub proof fn lemma_saved_run_listed_name(timestamp: Seq<char>)
    ensures
        display_name(run_prefix() + timestamp + run_suffix()) == match parsed_timestamp(
            timestamp,
        ) {
            Some(t) => display_of(t, run_prefix() + timestamp + run_suffix()),
            None => run_prefix() + timestamp + run_suffix(),
        },
{
    lemma_run_filename_round_trip(timestamp);
}

} // verus!
