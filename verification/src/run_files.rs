//! Naming and listing of stored run files: `reactionlab-<timestamp>.json`.

use crate::text::{
    decimal_padded, ends_with, is_prefix, is_suffix, lemma_lex_le_total, lemma_lex_le_transitive,
    lex_le, push_decimal_padded, starts_with, str_le, strip_prefix, strip_suffix,
};
use crate::timestamp::{
    chrono_date_parse, chrono_date_time_format, date_before, date_format, date_lt, format_date_time,
    parse_date, DateParts, DateTimeParts,
};
use vstd::string::StringSliceAdditionalSpecFns;
use vstd::utf8::{decode_utf8, encode_utf8, is_char_boundary};
use vstd::multiset::Multiset;
use vstd::prelude::*;

verus! {

/// The prefix of every run file name.
pub open spec fn run_prefix() -> Seq<char> {
    "reactionlab-"@
}

/// The extension of every run file name.
pub open spec fn run_suffix() -> Seq<char> {
    ".json"@
}

/// A file name that holds a run: the run prefix and the `json` extension.
pub open spec fn is_run_file_name(name: Seq<char>) -> bool {
    is_prefix(run_prefix(), name) && is_suffix(run_suffix(), name)
}

/// Whether `name` is the name of a run file.
pub fn run_file_name_matches(name: &str) -> (r: bool)
    ensures
        r == is_run_file_name(name@),
{
    let prefix = "reactionlab-";
    let suffix = ".json";
    proof {
        reveal_strlit("reactionlab-");
        reveal_strlit(".json");
        assert(prefix@ =~= run_prefix());
        assert(suffix@ =~= run_suffix());
    }
    starts_with(name, prefix) && ends_with(name, suffix)
}

/// The file name a run with this timestamp is stored under.
pub fn run_filename(timestamp: &str) -> (r: String)
    ensures
        r@ == run_prefix() + timestamp@ + run_suffix(),
{
    let mut name = String::from_str("reactionlab-");
    name.append(timestamp);
    name.append(".json");
    proof {
        reveal_strlit("reactionlab-");
        reveal_strlit(".json");
    }
    name
}

/// A stored run file and the name it is listed under.
#[derive(Debug, Clone)]
pub struct RunFileInfo {
    pub filename: String,
    pub display_name: String,
}

/// The file name and the listed name, as character sequences.
pub open spec fn info_view(i: RunFileInfo) -> (Seq<char>, Seq<char>) {
    (i.filename@, i.display_name@)
}

/// File names ordered from the greatest to the least.
pub open spec fn names_descending(s: Seq<RunFileInfo>) -> bool {
    forall|i: int, j: int| 0 <= i < j < s.len() ==> lex_le(s[j].filename@, s[i].filename@)
}

/// Mapping two sequences with equal multisets gives sequences with equal multisets.
pub proof fn lemma_map_multiset<A, B>(s: Seq<A>, t: Seq<A>, f: spec_fn(A) -> B)
    requires
        s.to_multiset() == t.to_multiset(),
    ensures
        s.map_values(f).to_multiset() == t.map_values(f).to_multiset(),
    decreases s.len(),
{
    broadcast use vstd::seq_lib::group_to_multiset_ensures;

    vstd::seq_lib::to_multiset_len(s);
    vstd::seq_lib::to_multiset_len(t);
    if s.len() == 0 {
        assert(t.len() == 0);
        assert(s.map_values(f) =~= t.map_values(f));
    } else {
        let x = s.last();
        assert(s.to_multiset().count(x) > 0) by {
            assert(s.contains(x)) by {
                assert(s[s.len() - 1] == x);
            }
        }
        assert(t.contains(x));
        let k = choose|k: int| 0 <= k < t.len() && t[k] == x;
        assert(s.drop_last().push(x) =~= s);
        assert(s.drop_last().to_multiset() == s.to_multiset().remove(x));
        assert(t.remove(k).to_multiset() == t.to_multiset().remove(x));
        lemma_map_multiset(s.drop_last(), t.remove(k), f);
        assert(s.map_values(f) =~= s.drop_last().map_values(f).push(f(x)));
        assert(t.map_values(f) =~= t.remove(k).map_values(f).insert(k, f(x)));
        vstd::seq_lib::to_multiset_insert(t.remove(k).map_values(f), k, f(x));
    }
}

/// Inserts `e` after every entry whose file name is no smaller.
fn insert_descending(sorted: &mut Vec<RunFileInfo>, e: RunFileInfo)
    requires
        names_descending(old(sorted)@),
    ensures
        names_descending(final(sorted)@),
        final(sorted)@.to_multiset() == old(sorted)@.to_multiset().insert(e),
{
    let n = sorted.len();
    let mut p: usize = 0;
    while p < n && str_le(e.filename.as_str(), sorted[p].filename.as_str())
        invariant
            n == sorted@.len(),
            0 <= p <= n,
            names_descending(sorted@),
            forall|i: int| 0 <= i < p ==> lex_le(e.filename@, #[trigger] sorted@[i].filename@),
        decreases n - p,
    {
        p = p + 1;
    }
    let ghost before = sorted@;
    proof {
        assert forall|i: int| p <= i < n implies lex_le(
            #[trigger] before[i].filename@,
            e.filename@,
        ) by {
            lemma_lex_le_total(before[i].filename@, e.filename@);
            if lex_le(e.filename@, before[i].filename@) {
                assert(i > p);
                assert(lex_le(before[i].filename@, before[p as int].filename@));
                lemma_lex_le_transitive(
                    e.filename@,
                    before[i].filename@,
                    before[p as int].filename@,
                );
            }
        }
    }
    sorted.insert(p, e);
    proof {
        vstd::seq_lib::to_multiset_insert(before, p as int, e);
        assert(sorted@ == before.insert(p as int, e));
        assert forall|i: int, j: int| 0 <= i < j < sorted@.len() implies lex_le(
            sorted@[j].filename@,
            sorted@[i].filename@,
        ) by {
            if i < p && j < p {
                assert(sorted@[i] == before[i] && sorted@[j] == before[j]);
            } else if i < p && j == p {
                assert(sorted@[i] == before[i]);
            } else if i < p && j > p {
                assert(sorted@[i] == before[i] && sorted@[j] == before[j - 1]);
                lemma_lex_le_transitive(before[j - 1].filename@, e.filename@, before[i].filename@);
            } else if i == p {
                assert(sorted@[j] == before[j - 1]);
            } else {
                assert(sorted@[i] == before[i - 1] && sorted@[j] == before[j - 1]);
            }
        }
    }
}

/// The listing reordered by file name, from the greatest (the latest run) to the least.
pub fn sort_latest_first(entries: Vec<RunFileInfo>) -> (r: Vec<RunFileInfo>)
    ensures
        names_descending(r@),
        r@.to_multiset() == entries@.to_multiset(),
        r@.map_values(|i: RunFileInfo| info_view(i)).to_multiset() == entries@.map_values(
            |i: RunFileInfo| info_view(i),
        ).to_multiset(),
{
    let ghost all = entries@;
    let mut rest = entries;
    let mut sorted: Vec<RunFileInfo> = Vec::new();
    let ghost mut taken: Seq<RunFileInfo> = Seq::empty();
    while rest.len() > 0
        invariant
            all == taken + rest@,
            names_descending(sorted@),
            sorted@.to_multiset() == taken.to_multiset(),
        decreases rest@.len(),
    {
        let ghost prev = rest@;
        let e = rest.remove(0);
        proof {
            assert(prev =~= seq![e] + rest@);
            assert(taken.push(e) + rest@ =~= taken + prev);
            vstd::seq_lib::to_multiset_build(taken, e);
            taken = taken.push(e);
        }
        insert_descending(&mut sorted, e);
    }
    proof {
        assert(taken =~= all);
        lemma_map_multiset(sorted@, all, |i: RunFileInfo| info_view(i));
    }
    sorted
}

/// The timestamp part of a run file name: what lies between the prefix and the
/// extension, or nothing when the name has not both.
pub open spec fn stripped_timestamp(filename: Seq<char>) -> Seq<char> {
    if is_prefix(run_prefix(), filename) {
        let rest = filename.skip(run_prefix().len() as int);
        if is_suffix(run_suffix(), rest) {
            rest.take(rest.len() - run_suffix().len())
        } else {
            Seq::empty()
        }
    } else {
        Seq::empty()
    }
}

/// The timestamp part of a run file name.
pub fn run_timestamp_part(filename: &str) -> (r: &str)
    ensures
        r@ == stripped_timestamp(filename@),
{
    let prefix = "reactionlab-";
    let suffix = ".json";
    proof {
        reveal_strlit("reactionlab-");
        reveal_strlit(".json");
        reveal_strlit("");
        assert(prefix@ =~= run_prefix());
        assert(suffix@ =~= run_suffix());
    }
    match strip_prefix(filename, prefix) {
        Some(rest) => match strip_suffix(rest, suffix) {
            Some(timestamp) => timestamp,
            None => "",
        },
        None => "",
    }
}

/// The layout of the date and time in a listed run name.
pub open spec fn display_format() -> Seq<char> {
    "%e %B %Y, %H:%M:%S"@
}

/// The listed name of a run taken at `t`: the date and time, a dot and the
/// milliseconds in three digits; `fallback` where the date cannot be written.
pub open spec fn display_of(t: DateTimeParts, fallback: Seq<char>) -> Seq<char> {
    match chrono_date_time_format(t, display_format()) {
        Some(text) => text + "."@ + decimal_padded((t.nanosecond / 1_000_000) as nat, 3),
        None => fallback,
    }
}

/// The listed name of a run taken at `t`.
pub fn display_with_millis(t: &DateTimeParts, fallback: &str) -> (r: String)
    ensures
        r@ == display_of(*t, fallback@),
{
    let format = "%e %B %Y, %H:%M:%S";
    proof {
        reveal_strlit("%e %B %Y, %H:%M:%S");
        assert(format@ =~= display_format());
    }
    match format_date_time(t, format) {
        Some(text) => {
            let mut out = text;
            out.append(".");
            push_decimal_padded(&mut out, (t.nanosecond / 1_000_000) as u64, 3);
            proof {
                reveal_strlit(".");
            }
            out
        },
        None => String::from_str(fallback),
    }
}

/// The date a run file stem names: the first ten bytes after the prefix, read as a
/// date, when they end on a character boundary.
pub open spec fn stem_date(stem: Seq<char>) -> Option<DateParts> {
    if is_prefix(run_prefix(), stem) {
        let bytes = encode_utf8(stem.skip(run_prefix().len() as int));
        if is_char_boundary(bytes, 10) {
            chrono_date_parse(decode_utf8(bytes.subrange(0, 10)), date_format())
        } else {
            None
        }
    } else {
        None
    }
}

/// The run file stem names a date before `date`.
pub open spec fn stem_before(stem: Seq<char>, date: DateParts) -> bool {
    match stem_date(stem) {
        Some(d) => date_lt(d, date),
        None => false,
    }
}

/// Whether the run file stem names a date before `date`.
pub fn stem_date_before(stem: &str, date: &DateParts) -> (r: bool)
    ensures
        r == stem_before(stem@, *date),
{
    let prefix = "reactionlab-";
    let format = "%Y-%m-%d";
    proof {
        reveal_strlit("reactionlab-");
        reveal_strlit("%Y-%m-%d");
        assert(prefix@ =~= run_prefix());
        assert(format@ =~= date_format());
    }
    match strip_prefix(stem, prefix) {
        None => false,
        Some(timestamp) => {
            if timestamp.is_char_boundary(10) {
                let (head, _tail) = timestamp.split_at(10);
                proof {
                    vstd::utf8::encode_utf8_decode_utf8(head@);
                    assert(head.spec_bytes() == encode_utf8(head@));
                    assert(timestamp.spec_bytes() == encode_utf8(timestamp@));
                }
                match parse_date(head, format) {
                    Some(d) => date_before(&d, date),
                    None => false,
                }
            } else {
                false
            }
        },
    }
}

/// The timestamp a run file is named after is read back from its name: the
/// timestamp part of `run_filename(t)` is `t`, and the name is a run file name.
pub proof fn lemma_run_filename_round_trip(timestamp: Seq<char>)
    ensures
        is_run_file_name(run_prefix() + timestamp + run_suffix()),
        stripped_timestamp(run_prefix() + timestamp + run_suffix()) == timestamp,
{
    reveal_strlit("reactionlab-");
    reveal_strlit(".json");
    let name = run_prefix() + timestamp + run_suffix();
    let p = run_prefix().len() as int;
    assert(name.take(p) =~= run_prefix());
    let rest = name.skip(p);
    assert(rest =~= timestamp + run_suffix());
    assert(rest.skip(rest.len() - run_suffix().len()) =~= run_suffix());
    assert(name.skip(name.len() - run_suffix().len()) =~= run_suffix());
    assert(rest.take(rest.len() - run_suffix().len()) =~= timestamp);
}

} // verus!
