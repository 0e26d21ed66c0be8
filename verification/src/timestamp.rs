//! Calendar values read from and written to run file names, the calls into
//! `chrono` that parse and format them, and the choice of the most recent runs.

use chrono::{Datelike, Timelike};
use std::fmt::Write;
use vstd::multiset::Multiset;
use vstd::prelude::*;

verus! {

/// A calendar date, as `chrono::NaiveDate` reports it.
#[derive(Debug, Clone, Copy, PartialEq, Eq, Structural)]
pub struct DateParts {
    pub year: i32,
    pub month: u32,
    pub day: u32,
}

/// A date and time of day, as `chrono::NaiveDateTime` reports it.
#[derive(Debug, Clone, Copy, PartialEq, Eq, Structural)]
pub struct DateTimeParts {
    pub year: i32,
    pub month: u32,
    pub day: u32,
    pub hour: u32,
    pub minute: u32,
    pub second: u32,
    pub nanosecond: u32,
}

/// What `chrono::NaiveDate::parse_from_str(text, format)` yields, as date parts.
pub uninterp spec fn chrono_date_parse(text: Seq<char>, format: Seq<char>) -> Option<DateParts>;

/// What `chrono::NaiveDateTime::parse_from_str(text, format)` yields, as date-time parts.
pub uninterp spec fn chrono_date_time_parse(text: Seq<char>, format: Seq<char>) -> Option<
    DateTimeParts,
>;

/// The text `chrono` writes for the date-time `value` under `format`, or `None`
/// where `value` is no valid date-time or the format cannot be written.
pub uninterp spec fn chrono_date_time_format(value: DateTimeParts, format: Seq<char>) -> Option<
    Seq<char>,
>;

/// Parses a date with `chrono::NaiveDate::parse_from_str`. The contract names the
/// result (`chrono_date_parse`) and states nothing more of it.
#[verifier::external_body]
pub fn parse_date(text: &str, format: &str) -> (r: Option<DateParts>)
    ensures
        r == chrono_date_parse(text@, format@),
{
    match chrono::NaiveDate::parse_from_str(text, format) {
        Ok(d) => Some(DateParts { year: d.year(), month: d.month(), day: d.day() }),
        Err(_) => None,
    }
}

/// Parses a date-time with `chrono::NaiveDateTime::parse_from_str`. The contract
/// names the result (`chrono_date_time_parse`) and states nothing more of it.
#[verifier::external_body]
pub fn parse_date_time(text: &str, format: &str) -> (r: Option<DateTimeParts>)
    ensures
        r == chrono_date_time_parse(text@, format@),
{
    match chrono::NaiveDateTime::parse_from_str(text, format) {
        Ok(t) => Some(
            DateTimeParts {
                year: t.year(),
                month: t.month(),
                day: t.day(),
                hour: t.hour(),
                minute: t.minute(),
                second: t.second(),
                nanosecond: t.nanosecond(),
            },
        ),
        Err(_) => None,
    }
}

/// Writes a date-time with `chrono`'s `format` (its `Display` output written into a
/// `String`). The contract names the result (`chrono_date_time_format`); `None`
/// comes back where `chrono` builds no date-time from the parts or the writing fails.
#[verifier::external_body]
pub fn format_date_time(value: &DateTimeParts, format: &str) -> (r: Option<String>)
    ensures
        r matches Some(s) ==> chrono_date_time_format(*value, format@) == Some(s@),
        r is None ==> chrono_date_time_format(*value, format@) is None,
{
    let built = chrono::NaiveDate::from_ymd_opt(value.year, value.month, value.day).and_then(
        |d| d.and_hms_nano_opt(value.hour, value.minute, value.second, value.nanosecond),
    );
    match built {
        Some(t) => {
            let mut out = String::new();
            match write!(out, "{}", t.format(format)) {
                Ok(()) => Some(out),
                Err(_) => None,
            }
        },
        None => None,
    }
}

/// Reads the local wall-clock time with `chrono::Local::now`. Nothing is promised of
/// the value: it depends on the clock and the time zone.
#[verifier::external_body]
pub fn local_now() -> (r: DateTimeParts) {
    let t = chrono::Local::now().naive_local();
    DateTimeParts {
        year: t.year(),
        month: t.month(),
        day: t.day(),
        hour: t.hour(),
        minute: t.minute(),
        second: t.second(),
        nanosecond: t.nanosecond(),
    }
}

/// The timestamp layout of run file names: date, time and milliseconds.
pub open spec fn run_format() -> Seq<char> {
    "%Y-%m-%d_%H-%M-%S%.3f"@
}

/// The same layout without the fractional part, as older run files use it.
pub open spec fn run_format_seconds() -> Seq<char> {
    "%Y-%m-%d_%H-%M-%S"@
}

/// The layout of calendar dates in run file names.
pub open spec fn date_format() -> Seq<char> {
    "%Y-%m-%d"@
}

/// A run timestamp: some date-time written in the run layout, or empty where
/// `chrono` could not write it.
pub open spec fn is_run_timestamp(s: Seq<char>) -> bool {
    exists|t: DateTimeParts|
        #![trigger chrono_date_time_format(t, run_format())]
        chrono_date_time_format(t, run_format()) == Some(s) || (chrono_date_time_format(
            t,
            run_format(),
        ) is None && s.len() == 0)
}

/// The run timestamp of the current local time; empty where it cannot be written.
pub fn run_timestamp_now() -> (r: String)
    ensures
        is_run_timestamp(r@),
{
    let now = local_now();
    let format = "%Y-%m-%d_%H-%M-%S%.3f";
    proof {
        reveal_strlit("%Y-%m-%d_%H-%M-%S%.3f");
        assert(format@ =~= run_format());
    }
    let r = match format_date_time(&now, format) {
        Some(s) => s,
        None => String::new(),
    };
    proof {
        assert(chrono_date_time_format(now, run_format()) == Some(r@) || (chrono_date_time_format(
            now,
            run_format(),
        ) is None && r@.len() == 0));
    }
    r
}

/// `a` is no later than `b`.
pub open spec fn date_time_le(a: DateTimeParts, b: DateTimeParts) -> bool {
    if a.year != b.year {
        a.year < b.year
    } else if a.month != b.month {
        a.month < b.month
    } else if a.day != b.day {
        a.day < b.day
    } else if a.hour != b.hour {
        a.hour < b.hour
    } else if a.minute != b.minute {
        a.minute < b.minute
    } else if a.second != b.second {
        a.second < b.second
    } else {
        a.nanosecond <= b.nanosecond
    }
}

/// The date `a` comes strictly before the date `b`.
pub open spec fn date_lt(a: DateParts, b: DateParts) -> bool {
    if a.year != b.year {
        a.year < b.year
    } else if a.month != b.month {
        a.month < b.month
    } else {
        a.day < b.day
    }
}

/// Whether `a` is no later than `b`.
pub fn date_time_no_later(a: &DateTimeParts, b: &DateTimeParts) -> (r: bool)
    ensures
        r == date_time_le(*a, *b),
        a.year < b.year ==> r,
        a.year > b.year ==> !r,
        a.year == b.year && a.month < b.month ==> r,
        a.year == b.year && a.month > b.month ==> !r,
        *a == *b ==> r,
{
    if a.year != b.year {
        a.year < b.year
    } else if a.month != b.month {
        a.month < b.month
    } else if a.day != b.day {
        a.day < b.day
    } else if a.hour != b.hour {
        a.hour < b.hour
    } else if a.minute != b.minute {
        a.minute < b.minute
    } else if a.second != b.second {
        a.second < b.second
    } else {
        a.nanosecond <= b.nanosecond
    }
}

/// Whether the date `a` comes strictly before the date `b`.
pub fn date_before(a: &DateParts, b: &DateParts) -> (r: bool)
    ensures
        r == date_lt(*a, *b),
        a.year < b.year ==> r,
        a.year > b.year ==> !r,
        a.year == b.year && a.month < b.month ==> r,
        a.year == b.year && a.month > b.month ==> !r,
        *a == *b ==> !r,
{
    if a.year != b.year {
        a.year < b.year
    } else if a.month != b.month {
        a.month < b.month
    } else {
        a.day < b.day
    }
}

/// `date_time_le` is the chronological order of date-times: every date-time is no
/// later than itself; of two date-times one is no later than the other; two that
/// are each no later than the other are the same; it is transitive; and an earlier
/// year, or the same year and an earlier month, day, hour, minute, second or
/// nanosecond, makes a date-time strictly earlier.
pub proof fn lemma_date_time_le_is_chronological(a: DateTimeParts, b: DateTimeParts, c: DateTimeParts)
    ensures
        date_time_le(a, a),
        date_time_le(a, b) || date_time_le(b, a),
        date_time_le(a, b) && date_time_le(b, a) ==> a == b,
        date_time_le(a, b) && date_time_le(b, c) ==> date_time_le(a, c),
        a.year < b.year ==> date_time_le(a, b) && !date_time_le(b, a),
        a.year == b.year && a.month < b.month ==> date_time_le(a, b) && !date_time_le(b, a),
        a.year == b.year && a.month == b.month && a.day < b.day ==> date_time_le(a, b)
            && !date_time_le(b, a),
        a.year == b.year && a.month == b.month && a.day == b.day && a.hour < b.hour
            ==> date_time_le(a, b) && !date_time_le(b, a),
        a.year == b.year && a.month == b.month && a.day == b.day && a.hour == b.hour && a.minute
            < b.minute ==> date_time_le(a, b) && !date_time_le(b, a),
        a.year == b.year && a.month == b.month && a.day == b.day && a.hour == b.hour && a.minute
            == b.minute && a.second < b.second ==> date_time_le(a, b) && !date_time_le(b, a),
        a.year == b.year && a.month == b.month && a.day == b.day && a.hour == b.hour && a.minute
            == b.minute && a.second == b.second && a.nanosecond < b.nanosecond ==> date_time_le(
            a,
            b,
        ) && !date_time_le(b, a),
{
}

/// `date_lt` is the strict calendar order of dates: no date is before itself; of
/// two different dates one is before the other, and never both; it is transitive;
/// and an earlier year, or the same year and an earlier month or day, makes a date
/// earlier.
pub proof fn lemma_date_lt_is_calendar_order(a: DateParts, b: DateParts, c: DateParts)
    ensures
        !date_lt(a, a),
        a != b ==> date_lt(a, b) || date_lt(b, a),
        !(date_lt(a, b) && date_lt(b, a)),
        date_lt(a, b) && date_lt(b, c) ==> date_lt(a, c),
        a.year < b.year ==> date_lt(a, b),
        a.year > b.year ==> !date_lt(a, b),
        a.year == b.year && a.month < b.month ==> date_lt(a, b),
        a.year == b.year && a.month > b.month ==> !date_lt(a, b),
        a.year == b.year && a.month == b.month ==> (date_lt(a, b) <==> a.day < b.day),
{
}

/// The number of runs the history shows.
pub const HISTORY_LENGTH: usize = 10;

/// Entries ordered from the latest to the earliest.
pub open spec fn latest_first<T>(s: Seq<(DateTimeParts, T)>) -> bool {
    forall|i: int, j: int| 0 <= i < j < s.len() ==> date_time_le(s[j].0, s[i].0)
}

/// Entries ordered from the earliest to the latest.
pub open spec fn earliest_first<T>(s: Seq<(DateTimeParts, T)>) -> bool {
    forall|i: int, j: int| 0 <= i < j < s.len() ==> date_time_le(s[i].0, s[j].0)
}

/// `chosen` holds the `HISTORY_LENGTH` latest of `all` (or all of them, when fewer),
/// from the earliest to the latest: it is drawn from `all`, and what it leaves out
/// is no later than anything it holds.
pub open spec fn is_latest_selection<T>(
    all: Seq<(DateTimeParts, T)>,
    chosen: Seq<(DateTimeParts, T)>,
) -> bool {
    &&& chosen.len() == if all.len() < HISTORY_LENGTH {
        all.len()
    } else {
        HISTORY_LENGTH as nat
    }
    &&& earliest_first(chosen)
    &&& chosen.to_multiset().subset_of(all.to_multiset())
    &&& forall|e: (DateTimeParts, T)|
        #![trigger all.to_multiset().count(e)]
        all.to_multiset().count(e) > chosen.to_multiset().count(e) ==> date_time_le(
            e.0,
            chosen[0].0,
        )
}

/// Inserts `e` into `sorted` (latest first) after every entry that is no earlier.
fn insert_latest_first<T>(sorted: &mut Vec<(DateTimeParts, T)>, e: (DateTimeParts, T))
    requires
        latest_first(old(sorted)@),
    ensures
        latest_first(final(sorted)@),
        final(sorted)@.to_multiset() == old(sorted)@.to_multiset().insert(e),
{
    let n = sorted.len();
    let mut p: usize = 0;
    while p < n && date_time_no_later(&e.0, &sorted[p].0)
        invariant
            n == sorted@.len(),
            0 <= p <= n,
            latest_first(sorted@),
            forall|i: int| 0 <= i < p ==> date_time_le(e.0, #[trigger] sorted@[i].0),
        decreases n - p,
    {
        p = p + 1;
    }
    let ghost before = sorted@;
    proof {
        assert forall|i: int| p <= i < n implies date_time_le(#[trigger] before[i].0, e.0) by {
            assert(!date_time_le(e.0, before[p as int].0));
            if i > p {
                assert(date_time_le(before[i].0, before[p as int].0));
            }
        }
    }
    sorted.insert(p, e);
    proof {
        vstd::seq_lib::to_multiset_insert(before, p as int, e);
        assert(sorted@ == before.insert(p as int, e));
        assert forall|i: int, j: int| 0 <= i < j < sorted@.len() implies date_time_le(
            sorted@[j].0,
            sorted@[i].0,
        ) by {
            if i < p && j < p {
                assert(sorted@[i] == before[i] && sorted@[j] == before[j]);
            } else if i < p && j == p {
                assert(sorted@[i] == before[i]);
            } else if i < p && j > p {
                assert(sorted@[i] == before[i] && sorted@[j] == before[j - 1]);
            } else if i == p {
                assert(sorted@[j] == before[j - 1]);
            } else {
                assert(sorted@[i] == before[i - 1] && sorted@[j] == before[j - 1]);
            }
        }
    }
}

/// The `HISTORY_LENGTH` latest entries (all of them, when fewer), from the earliest
/// to the latest.
pub fn latest_runs<T>(entries: Vec<(DateTimeParts, T)>) -> (r: Vec<(DateTimeParts, T)>)
    ensures
        is_latest_selection(entries@, r@),
{
    let ghost all = entries@;
    let mut rest = entries;
    let mut sorted: Vec<(DateTimeParts, T)> = Vec::new();
    let ghost mut taken: Seq<(DateTimeParts, T)> = Seq::empty();
    while rest.len() > 0
        invariant
            all == taken + rest@,
            latest_first(sorted@),
            sorted@.to_multiset() == taken.to_multiset(),
        decreases rest@.len(),
    {
        let ghost prev = rest@;
        let e = rest.remove(0);
        proof {
            assert(prev =~= seq![e] + rest@);
            assert(taken.push(e) + rest@ =~= taken + prev);
            vstd::seq_lib::to_multiset_build(taken, e);
            taken = taken.push(e);
        }
        insert_latest_first(&mut sorted, e);
    }
    proof {
        assert(taken =~= all);
        vstd::seq_lib::to_multiset_len(sorted@);
        vstd::seq_lib::to_multiset_len(all);
    }
    let ghost full = sorted@;
    sorted.truncate(HISTORY_LENGTH);
    let ghost kept = sorted@;
    proof {
        assert(full =~= kept + full.skip(kept.len() as int));
        vstd::seq_lib::lemma_multiset_commutative(kept, full.skip(kept.len() as int));
    }
    let mut result: Vec<(DateTimeParts, T)> = Vec::new();
    while sorted.len() > 0
        invariant
            kept.len() <= HISTORY_LENGTH,
            latest_first(kept),
            sorted@ == kept.take(sorted@.len() as int),
            sorted@.len() <= kept.len(),
            result@.len() == kept.len() - sorted@.len(),
            forall|i: int|
                0 <= i < result@.len() ==> #[trigger] result@[i] == kept[kept.len() - 1 - i],
        decreases sorted@.len(),
    {
        let ghost prev = sorted@;
        let e = sorted.pop().unwrap();
        proof {
            assert(e == kept[prev.len() - 1]);
            assert(sorted@ =~= kept.take(sorted@.len() as int));
        }
        result.push(e);
    }
    proof {
        assert(result@ =~= kept.reverse());
        kept.lemma_reverse_to_multiset();
        assert(result@.len() == kept.len());
        assert(kept.len() == if all.len() < HISTORY_LENGTH {
            all.len()
        } else {
            HISTORY_LENGTH as nat
        });
        assert(result@.to_multiset().subset_of(all.to_multiset()));
        assert forall|i: int, j: int| 0 <= i < j < result@.len() implies date_time_le(
            result@[i].0,
            result@[j].0,
        ) by {
            assert(result@[i] == kept[kept.len() - 1 - i]);
            assert(result@[j] == kept[kept.len() - 1 - j]);
        }
        let dropped = full.skip(kept.len() as int);
        assert forall|e: (DateTimeParts, T)|
            all.to_multiset().count(e) > result@.to_multiset().count(e) implies date_time_le(
            e.0,
            result@[0].0,
        ) by {
            assert(dropped.to_multiset().count(e) > 0);
            assert(dropped.contains(e)) by {
                vstd::seq_lib::to_multiset_contains(dropped, e);
            }
            let k = choose|k: int| 0 <= k < dropped.len() && dropped[k] == e;
            assert(full[kept.len() + k] == e);
            assert(result@[0] == kept[kept.len() - 1]);
            assert(full[kept.len() - 1] == kept[kept.len() - 1]);
        }
    }
    result
}

} // verus!
