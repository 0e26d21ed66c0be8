//! Reading the stream entries that `ffprobe -of default=nw=1` prints, one
//! `key=value` per line. Running ffprobe, and reading the frame rate as a
//! floating-point number, is the application's work.

use super::extraction::{
    is_white_space, line_at, line_total, newline_pieces, ranges_of_pieces, text_lines,
    white_space,
};
use vstd::prelude::*;

verus! {

/// What a decimal digit stands for.
pub open spec fn digit_value(c: char) -> int {
    c as int - '0' as int
}

/// An ASCII decimal digit.
pub open spec fn is_digit(c: char) -> bool {
    '0' <= c && c <= '9'
}

/// The number the digits of `s` spell, most significant first.
pub open spec fn digits_value(s: Seq<char>) -> int
    decreases s.len(),
{
    if s.len() == 0 {
        0
    } else {
        digits_value(s.drop_last()) * 10 + digit_value(s.last())
    }
}

/// The digits of an unsigned number as written: without a leading `+`.
pub open spec fn unsigned_digits(s: Seq<char>) -> Seq<char> {
    if s.len() > 0 && s[0] == '+' {
        s.skip(1)
    } else {
        s
    }
}

/// Every character of `d` is a decimal digit.
pub open spec fn all_digits(d: Seq<char>) -> bool {
    forall|i: int| 0 <= i < d.len() ==> is_digit(#[trigger] d[i])
}

/// What `str::parse::<u32>` reads from `s`: an optional `+`, then one or more
/// decimal digits whose value fits in a `u32`; anything else is an error.
pub open spec fn u32_from_text(s: Seq<char>) -> Option<u32> {
    let d = unsigned_digits(s);
    if d.len() > 0 && all_digits(d) && digits_value(d) <= u32::MAX {
        Some(digits_value(d) as u32)
    } else {
        None
    }
}

/// A sequence of digits is worth at least any of its prefixes.
proof fn lemma_digits_value_prefix(s: Seq<char>, k: int)
    requires
        0 <= k <= s.len(),
        forall|i: int| 0 <= i < s.len() ==> is_digit(#[trigger] s[i]),
    ensures
        digits_value(s.take(k)) <= digits_value(s),
        digits_value(s) >= 0,
    decreases s.len(),
{
    if s.len() > 0 {
        let t = s.drop_last();
        assert forall|i: int| 0 <= i < t.len() implies is_digit(#[trigger] t[i]) by {
            assert(t[i] == s[i]);
        }
        assert(is_digit(s.last()));
        if k == s.len() {
            assert(s.take(k) =~= s);
            lemma_digits_value_prefix(t, 0);
        } else {
            assert(t.take(k) =~= s.take(k));
            lemma_digits_value_prefix(t, k);
        }
    } else {
        assert(s.take(k) =~= s);
    }
}

/// Reads a `u32` as `str::parse` does: an optional `+`, then decimal digits only,
/// within the range of `u32`.
fn parse_u32(s: &str) -> (r: Option<u32>)
    ensures
        r == u32_from_text(s@),
{
    let n = s.unicode_len();
    let start: usize = if n > 0 && s.get_char(0) == '+' {
        1
    } else {
        0
    };
    let ghost d = unsigned_digits(s@);
    proof {
        assert(d =~= s@.skip(start as int));
    }
    if start == n {
        return None;
    }
    let mut value: u64 = 0;
    let mut i: usize = start;
    while i < n
        invariant
            n == s@.len(),
            start <= i <= n,
            d == s@.skip(start as int),
            d == unsigned_digits(s@),
            d.len() > 0,
            forall|j: int| 0 <= j < i - start ==> is_digit(#[trigger] d[j]),
            value == digits_value(d.take(i - start)),
            value <= u32::MAX,
        decreases n - i,
    {
        let c = s.get_char(i);
        proof {
            assert(d[i - start] == c);
        }
        if !('0' <= c && c <= '9') {
            proof {
                assert(!is_digit(d[i - start]));
                assert(!all_digits(d));
            }
            return None;
        }
        let digit = (c as u32 - '0' as u32) as u64;
        let next = value * 10 + digit;
        proof {
            assert(d.take(i + 1 - start).drop_last() =~= d.take(i - start));
            assert(d.take(i + 1 - start).last() == c);
        }
        if next > u32::MAX as u64 {
            proof {
                assert(digits_value(d.take(i + 1 - start)) == next);
                if all_digits(d) {
                    lemma_digits_value_prefix(d, i + 1 - start);
                }
            }
            return None;
        }
        value = next;
        i = i + 1;
    }
    proof {
        assert(d.take(n - start) =~= d);
    }
    Some(value as u32)
}

/// `s` without its leading and trailing white space, as `str::trim` gives it.
pub open spec fn trim_white(s: Seq<char>) -> Seq<char> {
    if forall|i: int| 0 <= i < s.len() ==> is_white_space(#[trigger] s[i]) {
        Seq::empty()
    } else {
        let a = choose|a: int|
            0 <= a < s.len() && !is_white_space(s[a]) && forall|j: int|
                0 <= j < a ==> is_white_space(#[trigger] s[j]);
        let b = choose|b: int|
            0 <= b < s.len() && !is_white_space(s[b]) && forall|j: int|
                b < j < s.len() ==> is_white_space(#[trigger] s[j]);
        s.subrange(a, b + 1)
    }
}

/// `s` without its leading and trailing white space.
fn trim(s: &str) -> (r: &str)
    ensures
        r@ == trim_white(s@),
{
    let n = s.unicode_len();
    let mut a: usize = 0;
    while a < n && white_space(s.get_char(a))
        invariant
            n == s@.len(),
            0 <= a <= n,
            forall|j: int| 0 <= j < a ==> is_white_space(#[trigger] s@[j]),
        decreases n - a,
    {
        a = a + 1;
    }
    if a == n {
        return s.substring_char(0, 0);
    }
    let mut b: usize = n - 1;
    while b > a && white_space(s.get_char(b))
        invariant
            n == s@.len(),
            a < n,
            !is_white_space(s@[a as int]),
            a <= b < n,
            forall|j: int| b < j < n ==> is_white_space(#[trigger] s@[j]),
        decreases b,
    {
        b = b - 1;
    }
    proof {
        let ca = choose|x: int|
            0 <= x < s@.len() && !is_white_space(s@[x]) && forall|j: int|
                0 <= j < x ==> is_white_space(#[trigger] s@[j]);
        let cb = choose|x: int|
            0 <= x < s@.len() && !is_white_space(s@[x]) && forall|j: int|
                x < j < s@.len() ==> is_white_space(#[trigger] s@[j]);
        assert(!is_white_space(s@[b as int]));
        assert(!(forall|i: int| 0 <= i < s@.len() ==> is_white_space(#[trigger] s@[i])));
        assert(ca == a as int) by {
            if ca < a {
                assert(is_white_space(s@[ca]));
            } else if ca > a {
                assert(is_white_space(s@[a as int]));
            }
        }
        assert(cb == b as int) by {
            if cb < b {
                assert(is_white_space(s@[b as int]));
            } else if cb > b {
                assert(is_white_space(s@[cb]));
            }
        }
    }
    s.substring_char(a, b + 1)
}

/// A line cut at its first `=`: the text before it and the text after it.
pub open spec fn split_at_equals(line: Seq<char>) -> Option<(Seq<char>, Seq<char>)> {
    if exists|i: int| 0 <= i < line.len() && line[i] == '=' {
        let i = choose|i: int|
            0 <= i < line.len() && line[i] == '=' && forall|j: int|
                0 <= j < i ==> #[trigger] line[j] != '=';
        Some((line.take(i), line.skip(i + 1)))
    } else {
        None
    }
}

/// The stream entries read so far: the frame rate as written, the width and the height.
pub type EntriesView = (Option<Seq<char>>, Option<u32>, Option<u32>);

/// What one line does to the entries read so far: a `key=value` line with the key
/// (trimmed) `r_frame_rate`, `width` or `height` sets that entry from the trimmed
/// value, a later line overriding an earlier one; other lines change nothing.
pub open spec fn apply_line(acc: EntriesView, line: Seq<char>) -> EntriesView {
    match split_at_equals(line) {
        None => acc,
        Some((k, v)) => {
            let key = trim_white(k);
            let value = trim_white(v);
            if key == "r_frame_rate"@ {
                (Some(value), acc.1, acc.2)
            } else if key == "width"@ {
                (acc.0, u32_from_text(value), acc.2)
            } else if key == "height"@ {
                (acc.0, acc.1, u32_from_text(value))
            } else {
                acc
            }
        },
    }
}

/// The entries read from `lines`, in order.
pub open spec fn read_entries(lines: Seq<Seq<char>>) -> EntriesView
    decreases lines.len(),
{
    if lines.len() == 0 {
        (None, None, None)
    } else {
        apply_line(read_entries(lines.drop_last()), lines.last())
    }
}

/// The entries of the video stream that ffprobe reported.
pub struct StreamEntries {
    /// The `r_frame_rate` value as written, such as `30000/1001`.
    pub frame_rate: Option<String>,
    pub width: Option<u32>,
    pub height: Option<u32>,
}

/// The entries as character sequences and numbers.
pub open spec fn entries_view(e: StreamEntries) -> EntriesView {
    (
        match e.frame_rate {
            Some(s) => Some(s@),
            None => None,
        },
        e.width,
        e.height,
    )
}

/// Whether `a` and `b` hold the same characters.
fn same_text(a: &str, b: &str) -> (r: bool)
    ensures
        r == (a@ == b@),
{
    let n = a.unicode_len();
    if n != b.unicode_len() {
        return false;
    }
    let mut i: usize = 0;
    while i < n
        invariant
            n == a@.len(),
            n == b@.len(),
            0 <= i <= n,
            forall|j: int| 0 <= j < i ==> a@[j] == b@[j],
        decreases n - i,
    {
        if a.get_char(i) != b.get_char(i) {
            return false;
        }
        i = i + 1;
    }
    proof {
        assert(a@ =~= b@);
    }
    true
}

/// The entries after reading one more line.
fn read_line(entries: StreamEntries, line: &str) -> (r: StreamEntries)
    ensures
        entries_view(r) == apply_line(entries_view(entries), line@),
{
    let mut entries = entries;
    let n = line.unicode_len();
    let mut i: usize = 0;
    while i < n && line.get_char(i) != '='
        invariant
            n == line@.len(),
            0 <= i <= n,
            forall|k: int| 0 <= k < i ==> #[trigger] line@[k] != '=',
        decreases n - i,
    {
        i = i + 1;
    }
    if i == n {
        proof {
            assert(!(exists|x: int| 0 <= x < line@.len() && line@[x] == '='));
        }
        return entries;
    }
    let key = trim(line.substring_char(0, i));
    let value = trim(line.substring_char(i + 1, n));
    proof {
        let c = choose|x: int|
            0 <= x < line@.len() && line@[x] == '=' && forall|k: int|
                0 <= k < x ==> #[trigger] line@[k] != '=';
        assert(line@[i as int] == '=');
        assert(c == i as int) by {
            if c < i {
                assert(line@[c] != '=');
            } else if c > i {
                assert(line@[i as int] != '=');
            }
        }
        assert(line@.subrange(0, i as int) =~= line@.take(i as int));
        assert(line@.subrange(i + 1, n as int) =~= line@.skip(i + 1));
        reveal_strlit("r_frame_rate");
        reveal_strlit("width");
        reveal_strlit("height");
    }
    if same_text(key, "r_frame_rate") {
        entries.frame_rate = Some(String::from_str(value));
    } else if same_text(key, "width") {
        entries.width = parse_u32(value);
    } else if same_text(key, "height") {
        entries.height = parse_u32(value);
    }
    entries
}

/// Reads the `r_frame_rate`, `width` and `height` entries from ffprobe's output,
/// line by line as `str::lines` splits it.
pub fn stream_entries(text: &str) -> (r: StreamEntries)
    ensures
        entries_view(r) == read_entries(text_lines(text@)),
{
    let pieces = newline_pieces(text);
    let line_count = line_total(text, &pieces);
    let ghost lines = text_lines(text@);
    let mut entries = StreamEntries { frame_rate: None, width: None, height: None };
    let mut j: usize = 0;
    while j < line_count
        invariant
            ranges_of_pieces(pieces@, text@),
            lines == text_lines(text@),
            lines.len() == line_count,
            0 <= j <= line_count,
            entries_view(entries) == read_entries(lines.take(j as int)),
        decreases line_count - j,
    {
        let line = line_at(text, &pieces, j);
        proof {
            assert(lines.take(j + 1).drop_last() =~= lines.take(j as int));
            assert(lines.take(j + 1).last() == line@);
        }
        entries = read_line(entries, line);
        j = j + 1;
    }
    proof {
        assert(lines.take(line_count as int) =~= lines);
    }
    entries
}

} // verus!
