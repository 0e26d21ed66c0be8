//! Frame geometry for decoded video segments. Running ffprobe and ffmpeg is the
//! application's work.

use vstd::prelude::*;

verus! {

/// Maximum width (px) a decoded frame is scaled down to, to bound texture memory.
pub const MAX_FRAME_WIDTH: u32 = 1920;

/// The width a frame is decoded at: the source width, capped, and at least one pixel.
pub open spec fn scaled_width(src_width: u32) -> u32 {
    if src_width < 1 {
        1
    } else if src_width > MAX_FRAME_WIDTH {
        MAX_FRAME_WIDTH
    } else {
        src_width
    }
}

/// The height matching the scaled width at the source aspect ratio, rounded to the
/// nearest pixel (halves up) and at least two pixels.
pub open spec fn scaled_height(src_width: u32, src_height: u32) -> int {
    let w = scaled_width(src_width) as int;
    let rounded = (src_height * w * 2 + src_width) / (2 * src_width as int);
    if rounded < 2 {
        2
    } else {
        rounded
    }
}

/// Output dimensions after scaling to at most `MAX_FRAME_WIDTH` wide while
/// preserving the aspect ratio; a zero side is taken as one pixel, unscaled.
pub open spec fn scaled(src_width: u32, src_height: u32) -> (u32, u32) {
    if src_width == 0 || src_height == 0 {
        (
            if src_width < 1 {
                1u32
            } else {
                src_width
            },
            if src_height < 1 {
                1u32
            } else {
                src_height
            },
        )
    } else {
        (scaled_width(src_width), scaled_height(src_width, src_height) as u32)
    }
}

/// Output dimensions after scaling to at most `MAX_FRAME_WIDTH` wide while
/// preserving the aspect ratio.
pub fn scaled_dimensions(src_width: u32, src_height: u32) -> (r: (u32, u32))
    ensures
        r == scaled(src_width, src_height),
        src_width > 0 && src_height > 0 ==> r.1 as int == scaled_height(src_width, src_height),
{
    if src_width == 0 || src_height == 0 {
        let w = if src_width < 1 {
            1
        } else {
            src_width
        };
        let h = if src_height < 1 {
            1
        } else {
            src_height
        };
        return (w, h);
    }
    let width = if src_width > MAX_FRAME_WIDTH {
        MAX_FRAME_WIDTH
    } else {
        src_width
    };
    let w = width as u64;
    let sw = src_width as u64;
    let sh = src_height as u64;
    proof {
        assert(sh * w <= 0xffff_ffff * 1920) by (nonlinear_arith)
            requires
                sh <= 0xffff_ffff,
                w <= 1920,
        ;
        assert(sh * w <= sh * sw) by (nonlinear_arith)
            requires
                w <= sw,
        ;
    }
    let numerator = sh * w * 2 + sw;
    let rounded = numerator / (2 * sw);
    proof {
        let n = numerator as int;
        let d = 2 * sw as int;
        assert(n / d <= sh) by (nonlinear_arith)
            requires
                n == sh * w * 2 + sw,
                sh * w <= sh * sw,
                sw >= 1,
                d == 2 * sw,
        ;
    }
    let height = if rounded < 2 {
        2
    } else {
        rounded as u32
    };
    (width, height)
}


/// The pieces of `s` between newline characters (one more than there are newlines).
pub open spec fn split_newlines(s: Seq<char>) -> Seq<Seq<char>>
    decreases s.len(),
{
    if s.len() == 0 {
        seq![Seq::empty()]
    } else {
        let prev = split_newlines(s.drop_last());
        if s.last() == '\n' {
            prev.push(Seq::empty())
        } else {
            prev.update(prev.len() - 1, prev.last().push(s.last()))
        }
    }
}

proof fn lemma_split_newlines_nonempty(s: Seq<char>)
    ensures
        split_newlines(s).len() >= 1,
    decreases s.len(),
{
    if s.len() > 0 {
        lemma_split_newlines_nonempty(s.drop_last());
    }
}

/// A line without the carriage return that came before its newline.
pub open spec fn without_cr(line: Seq<char>) -> Seq<char> {
    if line.len() > 0 && line.last() == '\r' {
        line.drop_last()
    } else {
        line
    }
}

/// The lines of `s` as `str::lines` yields them: split at `\n`, a `\r` before a `\n`
/// dropped, and no empty line after a final newline.
pub open spec fn text_lines(s: Seq<char>) -> Seq<Seq<char>> {
    let pieces = split_newlines(s);
    let ended = pieces.drop_last().map_values(|l: Seq<char>| without_cr(l));
    if pieces.last().len() == 0 {
        ended
    } else {
        ended.push(pieces.last())
    }
}

/// The lines joined with `\n` between them.
pub open spec fn join_lines(lines: Seq<Seq<char>>) -> Seq<char>
    decreases lines.len(),
{
    if lines.len() == 0 {
        Seq::empty()
    } else if lines.len() == 1 {
        lines[0]
    } else {
        join_lines(lines.drop_last()) + "\n"@ + lines.last()
    }
}

/// How many trailing lines of ffmpeg's log an error message quotes.
pub const TAIL_LINES: usize = 12;

/// The last `TAIL_LINES` lines (or all of them), joined.
pub open spec fn log_tail(logs: Seq<char>) -> Seq<char> {
    let lines = text_lines(logs);
    let start = if lines.len() >= TAIL_LINES {
        lines.len() - TAIL_LINES
    } else {
        0
    };
    join_lines(lines.skip(start))
}

/// Unicode white space, as `char::is_whitespace` tells it.
pub open spec fn is_white_space(c: char) -> bool {
    let u = c as u32;
    (0x9 <= u <= 0xd) || u == 0x20 || u == 0x85 || u == 0xa0 || u == 0x1680 || (0x2000 <= u
        <= 0x200a) || u == 0x2028 || u == 0x2029 || u == 0x202f || u == 0x205f || u == 0x3000
}

/// The message for a failed extraction: the context, then the tail of ffmpeg's log,
/// or a note that it printed nothing but white space.
pub open spec fn error_message(context: Seq<char>, logs: Seq<char>) -> Seq<char> {
    let tail = log_tail(logs);
    if forall|i: int| 0 <= i < tail.len() ==> is_white_space(#[trigger] tail[i]) {
        context + " No ffmpeg error output was captured."@
    } else {
        context + "\nffmpeg output:\n"@ + tail
    }
}

pub(crate) fn white_space(c: char) -> (r: bool)
    ensures
        r == is_white_space(c),
{
    let u = c as u32;
    (0x9 <= u && u <= 0xd) || u == 0x20 || u == 0x85 || u == 0xa0 || u == 0x1680 || (0x2000 <= u
        && u <= 0x200a) || u == 0x2028 || u == 0x2029 || u == 0x202f || u == 0x205f || u == 0x3000
}

/// Whether `s` holds nothing but white space.
fn all_white_space(s: &str) -> (r: bool)
    ensures
        r == forall|i: int| 0 <= i < s@.len() ==> is_white_space(#[trigger] s@[i]),
{
    let mut all = true;
    for c in it: s.chars()
        invariant
            it.seq() == s@,
            all == forall|j: int| 0 <= j < it.index() ==> is_white_space(#[trigger] s@[j]),
    {
        if !white_space(c) {
            all = false;
        }
    }
    all
}

/// `pieces` are the character ranges of the pieces of `s` between newlines.
pub open spec fn ranges_of_pieces(pieces: Seq<(usize, usize)>, s: Seq<char>) -> bool {
    &&& pieces.len() == split_newlines(s).len()
    &&& pieces.len() >= 1 && pieces[pieces.len() - 1].1 == s.len()
    &&& forall|k: int|
        #![trigger pieces[k]]
        0 <= k < pieces.len() ==> pieces[k].0 <= pieces[k].1 <= s.len() && s.subrange(
            pieces[k].0 as int,
            pieces[k].1 as int,
        ) == split_newlines(s)[k]
}

/// The character ranges of the pieces of `s` between newlines.
pub(crate) fn newline_pieces(s: &str) -> (r: Vec<(usize, usize)>)
    ensures
        ranges_of_pieces(r@, s@),
        r@.len() >= 1,
{
    let n = s.unicode_len();
    let mut pieces: Vec<(usize, usize)> = Vec::new();
    pieces.push((0, 0));
    let mut pos: usize = 0;
    proof {
        assert(s@.take(0) =~= Seq::<char>::empty());
        assert(split_newlines(s@.take(0)) == seq![Seq::<char>::empty()]);
        assert(s@.take(0).subrange(0, 0) =~= Seq::<char>::empty());
        assert(pieces@[0] == (0usize, 0usize));
    }
    for c in it: s.chars()
        invariant
            it.seq() == s@,
            n == s@.len(),
            pos == it.index(),
            pos <= n,
            pieces@.len() >= 1,
            ranges_of_pieces(pieces@, s@.take(pos as int)),
    {
        let ghost before = pieces@;
        let ghost prefix = s@.take(pos as int);
        proof {
            assert(s@.take(pos + 1).drop_last() =~= prefix);
            assert(s@.take(pos + 1).last() == c);
            lemma_split_newlines_nonempty(prefix);
        }
        if c == '\n' {
            pieces.push((pos + 1, pos + 1));
            proof {
                assert forall|k: int| 0 <= k < pieces@.len() implies pieces@[k].0 <= pieces@[k].1
                    <= pos + 1 && s@.take(pos + 1).subrange(
                    pieces@[k].0 as int,
                    pieces@[k].1 as int,
                ) == split_newlines(s@.take(pos + 1))[k] by {
                    if k < before.len() {
                        assert(s@.take(pos + 1).subrange(pieces@[k].0 as int, pieces@[k].1 as int)
                            =~= prefix.subrange(pieces@[k].0 as int, pieces@[k].1 as int));
                    } else {
                        assert(s@.take(pos + 1).subrange(pos + 1, pos + 1) =~= Seq::<char>::empty());
                    }
                }
            }
        } else {
            let last = pieces.len() - 1;
            let start = pieces[last].0;
            pieces.set(last, (start, pos + 1));
            proof {
                assert forall|k: int| 0 <= k < pieces@.len() implies pieces@[k].0 <= pieces@[k].1
                    <= pos + 1 && s@.take(pos + 1).subrange(
                    pieces@[k].0 as int,
                    pieces@[k].1 as int,
                ) == split_newlines(s@.take(pos + 1))[k] by {
                    if k < last {
                        assert(pieces@[k] == before[k]);
                        assert(s@.take(pos + 1).subrange(pieces@[k].0 as int, pieces@[k].1 as int)
                            =~= prefix.subrange(pieces@[k].0 as int, pieces@[k].1 as int));
                    } else {
                        assert(before[k].1 == pos);
                        assert(s@.take(pos + 1).subrange(start as int, pos + 1) =~= prefix.subrange(
                            start as int,
                            before[k].1 as int,
                        ).push(c));
                    }
                }
            }
        }
        pos = pos + 1;
    }
    proof {
        assert(s@.take(n as int) =~= s@);
    }
    pieces
}

/// The number of lines of `s`, from its pieces between newlines.
pub(crate) fn line_total(s: &str, pieces: &Vec<(usize, usize)>) -> (r: usize)
    requires
        ranges_of_pieces(pieces@, s@),
    ensures
        r == text_lines(s@).len(),
{
    let count = pieces.len();
    proof {
        let split = split_newlines(s@);
        assert(split.last() == s@.subrange(
            pieces@[count - 1].0 as int,
            pieces@[count - 1].1 as int,
        ));
    }
    if pieces[count - 1].0 == pieces[count - 1].1 {
        count - 1
    } else {
        count
    }
}

/// The line at `j` of `s`, cut from its piece between newlines.
pub(crate) fn line_at<'a>(s: &'a str, pieces: &Vec<(usize, usize)>, j: usize) -> (r: &'a str)
    requires
        ranges_of_pieces(pieces@, s@),
        j < text_lines(s@).len(),
    ensures
        r@ == text_lines(s@)[j as int],
{
    let count = pieces.len();
    let a = pieces[j].0;
    let b = pieces[j].1;
    let ended_line = j + 1 < count;
    let end = if ended_line && b > a && s.get_char(b - 1) == '\r' {
        b - 1
    } else {
        b
    };
    let line = s.substring_char(a, end);
    proof {
        let split = split_newlines(s@);
        let lines = text_lines(s@);
        assert(split[j as int] == s@.subrange(a as int, b as int));
        if ended_line {
            assert(lines[j as int] == without_cr(split[j as int]));
            assert(line@ =~= without_cr(split[j as int]));
        } else {
            assert(lines[j as int] == split.last());
        }
    }
    line
}

/// The message for a failed extraction: the context, then the last lines of
/// ffmpeg's log, or a note that the log held nothing but white space.
pub fn error_with_tail(context: &str, logs: &str) -> (r: String)
    ensures
        r@ == error_message(context@, logs@),
{
    let pieces = newline_pieces(logs);
    let line_count = line_total(logs, &pieces);
    let start = if line_count >= TAIL_LINES {
        line_count - TAIL_LINES
    } else {
        0
    };
    let ghost lines = text_lines(logs@);
    let mut tail = String::new();
    let mut j: usize = start;
    while j < line_count
        invariant
            ranges_of_pieces(pieces@, logs@),
            lines == text_lines(logs@),
            lines.len() == line_count,
            start <= j <= line_count,
            tail@ == join_lines(lines.skip(start as int).take(j - start)),
        decreases line_count - j,
    {
        let line = line_at(logs, &pieces, j);
        if j > start {
            tail.append("\n");
        }
        tail.append(line);
        proof {
            reveal_strlit("\n");
            let t = lines.skip(start as int);
            assert(t.take(j + 1 - start).drop_last() =~= t.take(j - start));
            assert(t.take(j + 1 - start).last() == lines[j as int]);
            assert(tail@ =~= join_lines(t.take(j + 1 - start)));
        }
        j = j + 1;
    }
    proof {
        let t = lines.skip(start as int);
        assert(t.take(line_count - start) =~= t);
        assert(tail@ == log_tail(logs@));
    }
    let mut out = String::from_str(context);
    if all_white_space(tail.as_str()) {
        out.append(" No ffmpeg error output was captured.");
        proof {
            reveal_strlit(" No ffmpeg error output was captured.");
        }
    } else {
        out.append("\nffmpeg output:\n");
        out.append(tail.as_str());
        proof {
            reveal_strlit("\nffmpeg output:\n");
        }
    }
    out
}

} // verus!
