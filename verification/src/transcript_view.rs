//! The transcript columns of the transcription screen: each source's
//! blocks wrapped word by word, each word tinted by its age, the sources
//! sharing the rows.
use vstd::prelude::*;

use crate::app_state::{transcript_of, AppState};
use crate::blocks::{any_content, block_texts, TranscriptBlock, TranscriptWord};
use crate::layout::spaces;
use crate::modes::SourceKind;
use crate::text::{chars_of, string_of, trim};
use crate::view::{line_view, lines_view, one_line, StyledLine, StyledSegment, Tint};

verus! {

/// A line as plain values.
pub type LineModel = Seq<(Seq<char>, Tint)>;

/// The colour of fresh text of a source.
pub open spec fn fresh_rgb(source: SourceKind) -> (u8, u8, u8) {
    match source {
        SourceKind::Microphone => (255, 56, 56),
        SourceKind::SystemOutput => (255, 255, 255),
    }
}

/// The tint of a word: the source's colour fading from when it was first
/// seen.
pub open spec fn word_tint(source: SourceKind, w: TranscriptWord) -> Tint {
    let (r, g, b) = fresh_rgb(source);
    Tint::Fading { r, g, b, since_ms: w.first_seen }
}

/// The indent of transcript rows in a column `width` wide.
pub open spec fn word_indent(width: usize) -> nat {
    if width >= 5 { 4 } else if width >= 1 { (width - 1) as nat } else { 0 }
}

/// A row holding only the indent.
pub open spec fn indent_row(iw: nat) -> LineModel {
    seq![(spaces(iw), Tint::DarkGrey)]
}

/// Words laid out on rows of `width` columns after an indent: a word goes
/// to the next row when it would pass the width, unless it is the first of
/// its row. The state is the finished rows, the open row and its width.
pub open spec fn word_fold(source: SourceKind, ws: Seq<TranscriptWord>, width: usize) -> (Seq<LineModel>, LineModel, nat)
    decreases ws.len(),
{
    let iw = word_indent(width);
    if ws.len() == 0 {
        (Seq::empty(), indent_row(iw), iw)
    } else {
        let (done, cur, cw) = word_fold(source, ws.drop_last(), width);
        let w = ws.last();
        let ww = w.text@.len();
        let sep: nat = if cw > iw { 1 } else { 0 };
        let (done1, cur1, cw1) = if cw + sep + ww > width && cw > iw {
            (done.push(cur), indent_row(iw), iw)
        } else {
            (done, cur, cw)
        };
        let (cur2, cw2) = if cw1 > iw { (cur1.push((" "@, word_tint(source, w))), cw1 + 1) } else { (cur1, cw1) };
        (done1, cur2.push((w.text@, word_tint(source, w))), cw2 + ww)
    }
}

/// The rows of a block's words; see `word_fold`. An empty block gives one
/// indent row.
pub open spec fn word_rows(source: SourceKind, ws: Seq<TranscriptWord>, width: usize) -> Seq<LineModel> {
    let (done, cur, cw) = word_fold(source, ws, width);
    if cw > word_indent(width) || done.len() == 0 { done.push(cur) } else { done }
}

fn indent_segment(iw: usize) -> (r: StyledSegment)
    ensures
        r.text@ == spaces(iw as nat),
        r.tint == Tint::DarkGrey,
{
    StyledSegment { text: string_of(&crate::layout::space_chars(iw)), tint: Tint::DarkGrey }
}

fn push_segment(line: &mut StyledLine, seg: StyledSegment)
    ensures
        line_view(*final(line)) == line_view(*old(line)).push((seg.text@, seg.tint)),
{
    let ghost sv = (seg.text@, seg.tint);
    line.segments.push(seg);
    assert(line_view(*line) =~= line_view(*old(line)).push(sv));
}

/// Lays out the words of a block; see `word_rows`.
pub fn wrap_transcript_words(source: SourceKind, words: &Vec<TranscriptWord>, width: usize) -> (r: Vec<StyledLine>)
    ensures
        lines_view(r@) == word_rows(source, words@, width),
{
    let iw: usize = if width >= 5 { 4 } else if width >= 1 { width - 1 } else { 0 };
    let (fr, fg, fb) = match source {
        SourceKind::Microphone => (255u8, 56u8, 56u8),
        SourceKind::SystemOutput => (255u8, 255u8, 255u8),
    };
    let mut lines: Vec<StyledLine> = Vec::new();
    let mut current = StyledLine { segments: vec![indent_segment(iw)] };
    proof {
        assert(line_view(current) =~= indent_row(iw as nat));
    }
    let mut cw: u128 = iw as u128;
    let mut i: usize = 0;
    while i < words.len()
        invariant
            i <= words.len(),
            iw as nat == word_indent(width),
            fresh_rgb(source) == (fr, fg, fb),
            iw <= 4,
            cw <= usize::MAX as u128 + 4,
            (lines_view(lines@), line_view(current), cw as nat) == word_fold(source, words@.take(i as int), width),
        decreases words.len() - i,
    {
        proof {
            assert(words@.take(i + 1).drop_last() =~= words@.take(i as int));
            assert(words@.take(i + 1).last() == words@[i as int]);
        }
        let w = &words[i];
        let ww = chars_of(w.text.as_str()).len() as u128;
        let sep: u128 = if cw > iw as u128 { 1 } else { 0 };
        let tint = Tint::Fading { r: fr, g: fg, b: fb, since_ms: w.first_seen };
        if cw + sep + ww > width as u128 && cw > iw as u128 {
            let mut fresh = StyledLine { segments: vec![indent_segment(iw)] };
            proof {
                assert(line_view(fresh) =~= indent_row(iw as nat));
            }
            core::mem::swap(&mut fresh, &mut current);
            let ghost prev = lines@;
            let ghost fv = line_view(fresh);
            lines.push(fresh);
            proof {
                assert(lines_view(lines@) =~= lines_view(prev).push(fv));
            }
            cw = iw as u128;
        }
        if cw > iw as u128 {
            push_segment(&mut current, StyledSegment { text: string_of(&chars_of(" ")), tint });
            cw = cw + 1;
        }
        push_segment(&mut current, StyledSegment { text: w.text.clone(), tint });
        cw = cw + ww;
        i += 1;
    }
    proof {
        assert(words@.take(words.len() as int) =~= words@);
    }
    if cw > iw as u128 || lines.len() == 0 {
        let ghost prev = lines@;
        let ghost cv = line_view(current);
        lines.push(current);
        proof {
            assert(lines_view(lines@) =~= lines_view(prev).push(cv));
        }
    }
    lines
}

/// The rows of a source's blocks: the blocks with words, one blank row
/// between them, and one more when the last block is still blank (a pause
/// has started a new one).
pub open spec fn block_fold(source: SourceKind, bs: Seq<TranscriptBlock>, width: usize) -> (Seq<LineModel>, nat)
    decreases bs.len(),
{
    if bs.len() == 0 {
        (Seq::empty(), 0)
    } else {
        let (rows, n) = block_fold(source, bs.drop_last(), width);
        let b = bs.last();
        if b.words@.len() == 0 {
            (rows, n)
        } else {
            ((if n > 0 { rows + one_line(""@, Tint::White) } else { rows }) + word_rows(source, b.words@, width), n + 1)
        }
    }
}

/// The rows of a source's blocks; see `block_fold`.
pub open spec fn block_rows(source: SourceKind, bs: Seq<TranscriptBlock>, width: usize) -> Seq<LineModel> {
    let (rows, n) = block_fold(source, bs, width);
    if n > 0 && bs.len() > 0 && trim(bs.last().text@).len() == 0 { rows + one_line(""@, Tint::White) } else { rows }
}

fn append_lines(rows: &mut Vec<StyledLine>, more: Vec<StyledLine>)
    ensures
        lines_view(final(rows)@) == lines_view(old(rows)@) + lines_view(more@),
{
    let mut more = more;
    let ghost mv = more@;
    rows.append(&mut more);
    assert(lines_view(rows@) =~= lines_view(old(rows)@) + lines_view(mv));
}

fn push_line(rows: &mut Vec<StyledLine>, line: StyledLine)
    ensures
        lines_view(final(rows)@) == lines_view(old(rows)@).push(line_view(line)),
{
    let ghost lv = line_view(line);
    rows.push(line);
    assert(lines_view(rows@) =~= lines_view(old(rows)@).push(lv));
}

/// Lays out a source's blocks; see `block_rows`.
pub fn wrap_transcript_blocks(source: SourceKind, blocks: &Vec<TranscriptBlock>, width: usize) -> (r: Vec<StyledLine>)
    ensures
        lines_view(r@) == block_rows(source, blocks@, width),
{
    let mut lines: Vec<StyledLine> = Vec::new();
    let mut rendered: usize = 0;
    let mut i: usize = 0;
    while i < blocks.len()
        invariant
            i <= blocks.len(),
            (lines_view(lines@), rendered as nat) == block_fold(source, blocks@.take(i as int), width),
            rendered <= i,
        decreases blocks.len() - i,
    {
        proof {
            assert(blocks@.take(i + 1).drop_last() =~= blocks@.take(i as int));
            assert(blocks@.take(i + 1).last() == blocks@[i as int]);
        }
        let b = &blocks[i];
        if b.words.len() > 0 {
            if rendered > 0 {
                push_line(&mut lines, crate::view::plain_str("", Tint::White));
            }
            let rows = wrap_transcript_words(source, &b.words, width);
            append_lines(&mut lines, rows);
            rendered += 1;
        }
        i += 1;
    }
    proof {
        assert(blocks@.take(blocks.len() as int) =~= blocks@);
    }
    if rendered > 0 && blocks.len() > 0 && crate::text::str_is_blank(blocks[blocks.len() - 1].text.as_str()) {
        push_line(&mut lines, crate::view::plain_str("", Tint::White));
    }
    lines
}

/// The colour of a source's heading.
pub open spec fn header_tint(source: SourceKind) -> Tint {
    match source {
        SourceKind::Microphone => Tint::Rgb(255, 80, 80),
        SourceKind::SystemOutput => Tint::White,
    }
}

/// The label of a source's heading.
pub open spec fn source_label(source: SourceKind) -> Seq<char> {
    match source {
        SourceKind::Microphone => "mic"@,
        SourceKind::SystemOutput => "system"@,
    }
}

/// The last `n` rows of some rows (all when there are fewer).
pub open spec fn last_rows(rows: Seq<LineModel>, n: nat) -> Seq<LineModel> {
    if rows.len() > n { rows.subrange(rows.len() - n, rows.len() as int) } else { rows }
}

/// A source's column section of at most `max_lines` rows: its heading,
/// then the last rows of its transcript, or a waiting note.
pub open spec fn source_rows_spec(s: AppState, source: SourceKind, width: usize, max_lines: usize) -> Seq<LineModel> {
    if max_lines == 0 {
        Seq::empty()
    } else if max_lines == 1 {
        one_line(source_label(source), header_tint(source))
    } else {
        let body = match transcript_of(s, source) {
            Some(t) => if any_content(block_texts(t.blocks@)) {
                block_rows(source, t.blocks@, width)
            } else {
                one_line("    waiting for transcript"@, Tint::DarkGrey)
            },
            None => one_line("    waiting for transcript"@, Tint::DarkGrey),
        };
        one_line(source_label(source), header_tint(source)) + last_rows(body, (max_lines - 1) as nat)
    }
}

/// A source's column section; see `source_rows_spec`.
pub fn source_transcript_rows(state: &AppState, source: SourceKind, width: usize, max_lines: usize) -> (r: Vec<StyledLine>)
    ensures
        lines_view(r@) == source_rows_spec(*state, source, width, max_lines),
        r@.len() <= max_lines,
{
    let mut rows: Vec<StyledLine> = Vec::new();
    if max_lines == 0 {
        return rows;
    }
    let header = crate::view::plain_str(source.label(), match source {
        SourceKind::Microphone => Tint::Rgb(255, 80, 80),
        SourceKind::SystemOutput => Tint::White,
    });
    push_line(&mut rows, header);
    if max_lines == 1 {
        return rows;
    }
    let body_rows = max_lines - 1;
    let wrapped = match state.transcript(source) {
        Some(t) => if t.has_content() {
            wrap_transcript_blocks(source, &t.blocks, width)
        } else {
            vec![crate::view::plain_str("    waiting for transcript", Tint::DarkGrey)]
        },
        None => vec![crate::view::plain_str("    waiting for transcript", Tint::DarkGrey)],
    };
    let ghost wv = lines_view(wrapped@);
    proof {
        if wrapped@.len() == 1 {
            assert(wv =~= seq![line_view(wrapped@[0])]);
        }
    }
    let start = if wrapped.len() > body_rows { wrapped.len() - body_rows } else { 0 };
    let mut tail = wrapped;
    let rest = tail.split_off(start);
    proof {
        assert(lines_view(rest@) =~= last_rows(wv, body_rows as nat));
    }
    append_lines(&mut rows, rest);
    rows
}

/// The sections of the transcript column from source `i` on, with `lines`
/// rows already laid out, `extra` sections still due one more row than
/// `base`.
pub open spec fn sections_fold(s: AppState, width: usize, max_lines: usize, base: nat, i: nat, extra: nat, acc: Seq<LineModel>) -> Seq<LineModel>
    decreases s.sources@.len() - i,
{
    if i >= s.sources@.len() {
        acc
    } else {
        let acc1 = if i > 0 && acc.len() < max_lines { acc + one_line(""@, Tint::White) } else { acc };
        let h0 = if extra > 0 { base + 1 } else { base };
        let extra1: nat = if extra > 0 { (extra - 1) as nat } else { 0 };
        let remaining: nat = if acc1.len() <= max_lines { (max_lines - acc1.len()) as nat } else { 0 };
        let h: nat = if h0 < remaining { h0 } else { remaining };
        if h == 0 {
            acc1
        } else {
            sections_fold(s, width, max_lines, base, i + 1, extra1, acc1 + source_rows_spec(s, s.sources@[i as int], width, h as usize))
        }
    }
}

/// The transcript column of at most `max_lines` rows: the sources share
/// the rows that the blank rows between them leave, the first ones taking
/// the rest of an uneven split.
pub open spec fn transcript_rows_spec(s: AppState, width: usize, max_lines: usize) -> Seq<LineModel> {
    let n = s.sources@.len();
    if max_lines == 0 || n == 0 {
        Seq::empty()
    } else {
        let gaps: nat = if (n - 1) as nat <= max_lines { (n - 1) as nat } else { max_lines as nat };
        let available: nat = (max_lines - gaps) as nat;
        if available == 0 {
            Seq::empty()
        } else {
            let b = available / n;
            sections_fold(s, width, max_lines, if b < 1 { 1 } else { b }, 0, available % n, Seq::empty())
        }
    }
}

/// The transcript column; see `transcript_rows_spec`.
pub fn visible_transcript_rows(state: &AppState, width: usize, max_lines: usize) -> (r: Vec<StyledLine>)
    ensures
        lines_view(r@) == transcript_rows_spec(*state, width, max_lines),
        r@.len() <= max_lines,
{
    let mut lines: Vec<StyledLine> = Vec::new();
    let n = state.sources.len();
    if max_lines == 0 || n == 0 {
        return lines;
    }
    let gaps: usize = if n - 1 <= max_lines { n - 1 } else { max_lines };
    let available = max_lines - gaps;
    if available == 0 {
        return lines;
    }
    let b = available / n;
    let base: usize = if b < 1 { 1 } else { b };
    let mut extra = available % n;
    proof {
        if extra > 0 {
            assert(n >= 2);
            assert(b <= available / 2) by (nonlinear_arith)
                requires
                    n >= 2,
                    b == available / n,
            ;
        }
    }
    let ghost goal = transcript_rows_spec(*state, width, max_lines);
    let mut i: usize = 0;
    while i < n
        invariant
            i <= n == state.sources@.len(),
            lines@.len() <= max_lines,
            extra > 0 ==> base < usize::MAX,
            goal == transcript_rows_spec(*state, width, max_lines),
            sections_fold(*state, width, max_lines, base as nat, i as nat, extra as nat, lines_view(lines@)) == goal,
        decreases n - i,
    {
        let ghost before = lines_view(lines@);
        let ghost extra0 = extra as nat;
        if i > 0 && lines.len() < max_lines {
            push_line(&mut lines, crate::view::plain_str("", Tint::White));
        }
        let ghost acc1 = lines_view(lines@);
        assert(acc1 == (if i > 0 && before.len() < max_lines { before + one_line(""@, Tint::White) } else { before }));
        assert(acc1.len() == lines@.len());
        let mut h = if extra > 0 { base + 1 } else { base };
        if extra > 0 {
            extra = extra - 1;
        }
        let remaining = max_lines - lines.len();
        if remaining < h {
            h = remaining;
        }
        if h == 0 {
            assert(sections_fold(*state, width, max_lines, base as nat, i as nat, extra0, before) == acc1);
            return lines;
        }
        let rows = source_transcript_rows(state, state.sources[i], width, h);
        assert(lines_view(rows@).len() == rows@.len());
        let ghost rv = lines_view(rows@);
        append_lines(&mut lines, rows);
        assert(lines_view(lines@).len() == lines@.len());
        assert(sections_fold(*state, width, max_lines, base as nat, i as nat, extra0, before) == sections_fold(
            *state,
            width,
            max_lines,
            base as nat,
            (i + 1) as nat,
            extra as nat,
            acc1 + rv,
        ));
        i += 1;
    }
    lines
}

} // verus!
