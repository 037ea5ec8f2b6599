//! Text layout for the terminal panes: splitting into lines, greedy word
//! wrapping with indentation and chunking of over-long words, fitting a line
//! to a width, and the width of the enhanced-typing window.
use vstd::prelude::*;

use crate::text::{
    char_is_whitespace, chars_of, is_whitespace, seqs, split_words, string_of, trim, trim_vec,
    words_of,
};

verus! {

/// Narrowest enhanced-typing window, in columns.
pub const TYPING_MIN_WIDTH: u16 = 16;

/// Widest text area of the enhanced-typing window, in columns.
pub const TYPING_MAX_CONTENT_WIDTH: u16 = 72;

/// Columns kept free right of the enhanced-typing text.
pub const TYPING_RIGHT_GUTTER_COLS: u16 = 5;

/// Widest enhanced-typing window: text area plus gutter.
pub const TYPING_MAX_WIDTH: u16 = 77;

/// Tallest enhanced-typing window, in rows.
pub const TYPING_MAX_HEIGHT: u16 = 10;

/// The character sequences of a vector of strings.
pub open spec fn string_seqs(ws: Seq<String>) -> Seq<Seq<char>> {
    ws.map_values(|w: String| w@)
}

/// `n` spaces.
pub open spec fn spaces(n: nat) -> Seq<char> {
    Seq::new(n, |i: int| ' ')
}

/// `n` spaces.
pub fn space_chars(n: usize) -> (r: Vec<char>)
    ensures
        r@ == spaces(n as nat),
{
    let mut r: Vec<char> = Vec::new();
    let mut i: usize = 0;
    while i < n
        invariant
            i <= n,
            r@ == spaces(i as nat),
        decreases n - i,
    {
        r.push(' ');
        i += 1;
        assert(r@ =~= spaces(i as nat));
    }
    r
}

// ---------------------------------------------------------------------------
// Lines
// ---------------------------------------------------------------------------

/// A line that ended in `\n` loses one trailing `\r`.
pub open spec fn strip_cr(s: Seq<char>) -> Seq<char> {
    if s.len() > 0 && s.last() == '\r' {
        s.drop_last()
    } else {
        s
    }
}

/// State of `str::lines` after the first `n` characters: the finished lines
/// and the line being read.
pub open spec fn line_scan(s: Seq<char>, n: nat) -> (Seq<Seq<char>>, Seq<char>)
    decreases n,
{
    if n == 0 {
        (Seq::empty(), Seq::empty())
    } else {
        let prev = line_scan(s, (n - 1) as nat);
        if s[n - 1] == '\n' {
            (prev.0.push(strip_cr(prev.1)), Seq::empty())
        } else {
            (prev.0, prev.1.push(s[n - 1]))
        }
    }
}

/// `str::lines`: pieces between `\n`, a `\r` before each `\n` dropped, and no
/// empty piece after a final `\n`.
pub open spec fn lines_of(s: Seq<char>) -> Seq<Seq<char>> {
    let st = line_scan(s, s.len());
    if st.1.len() > 0 {
        st.0.push(st.1)
    } else {
        st.0
    }
}

/// Splits text into its lines (see `lines_of`).
pub fn split_lines(v: &Vec<char>) -> (r: Vec<Vec<char>>)
    ensures
        seqs(r@) == lines_of(v@),
{
    let mut lines: Vec<Vec<char>> = Vec::new();
    let mut cur: Vec<char> = Vec::new();
    let mut i: usize = 0;
    while i < v.len()
        invariant
            i <= v.len(),
            (seqs(lines@), cur@) == line_scan(v@, i as nat),
        decreases v.len() - i,
    {
        let c = v[i];
        if c == '\n' {
            let ghost before = seqs(lines@);
            let mut finished = cur;
            if finished.len() > 0 && finished[finished.len() - 1] == '\r' {
                finished.pop();
            }
            assert(finished@ == strip_cr(line_scan(v@, i as nat).1));
            lines.push(finished);
            cur = Vec::new();
            assert(seqs(lines@) =~= before.push(finished@));
        } else {
            cur.push(c);
        }
        i += 1;
    }
    if cur.len() > 0 {
        let ghost before = seqs(lines@);
        let ghost last = cur@;
        lines.push(cur);
        assert(seqs(lines@) =~= before.push(last));
    }
    lines
}

// ---------------------------------------------------------------------------
// Window widths
// ---------------------------------------------------------------------------

/// The widest of the given line lengths.
pub open spec fn max_len(ls: Seq<Seq<char>>) -> nat
    decreases ls.len(),
{
    if ls.len() == 0 {
        0
    } else {
        let rest = max_len(ls.drop_last());
        if ls.last().len() > rest {
            ls.last().len()
        } else {
            rest
        }
    }
}

/// The text width wanted for the typing window before the cast to `u16`: the
/// widest line, at least `minimum_width` and the minimum window width, at
/// most `max_content_width` (or 1).
pub open spec fn desired_width(text: Seq<char>, minimum_width: int, max_content_width: int) -> int {
    let w = max_len(lines_of(text)) as int;
    let w1 = if minimum_width > w { minimum_width } else { w };
    let w2 = if TYPING_MIN_WIDTH > w1 { TYPING_MIN_WIDTH as int } else { w1 };
    let cap = if max_content_width > 1 { max_content_width } else { 1 };
    if w2 < cap { w2 } else { cap }
}

/// The text width of the enhanced-typing window for `text`; see
/// `desired_width`.
pub fn typing_desired_width(text: &str, minimum_width: usize, max_content_width: usize) -> (r: u16)
    ensures
        r == desired_width(text@, minimum_width as int, max_content_width as int) as u16,
{
    let v = chars_of(text);
    let lines = split_lines(&v);
    let mut widest: usize = 0;
    let mut i: usize = 0;
    while i < lines.len()
        invariant
            i <= lines.len(),
            widest == max_len(seqs(lines@).take(i as int)),
        decreases lines.len() - i,
    {
        assert(seqs(lines@).take(i + 1).drop_last() =~= seqs(lines@).take(i as int));
        if lines[i].len() > widest {
            widest = lines[i].len();
        }
        i += 1;
    }
    assert(seqs(lines@).take(lines.len() as int) =~= seqs(lines@));
    let w1 = if minimum_width > widest {
        minimum_width
    } else {
        widest
    };
    let w2 = if (TYPING_MIN_WIDTH as usize) > w1 {
        TYPING_MIN_WIDTH as usize
    } else {
        w1
    };
    let cap = if max_content_width > 1 {
        max_content_width
    } else {
        1
    };
    let w = if w2 < cap {
        w2
    } else {
        cap
    };
    w as u16
}

/// The width of the enhanced-typing window around a text area: the gutter
/// added (saturating), then clamped to the window's width range.
pub open spec fn window_width(content_width: int) -> int {
    let w = if content_width + TYPING_RIGHT_GUTTER_COLS > u16::MAX {
        u16::MAX as int
    } else {
        content_width + TYPING_RIGHT_GUTTER_COLS
    };
    if w < TYPING_MIN_WIDTH {
        TYPING_MIN_WIDTH as int
    } else if w > TYPING_MAX_WIDTH {
        TYPING_MAX_WIDTH as int
    } else {
        w
    }
}

/// The enhanced-typing window width for a text area; see `window_width`.
pub fn typing_window_width(content_width: u16) -> (r: u16)
    ensures
        r == window_width(content_width as int),
{
    let w = content_width.saturating_add(TYPING_RIGHT_GUTTER_COLS);
    if w < TYPING_MIN_WIDTH {
        TYPING_MIN_WIDTH
    } else if w > TYPING_MAX_WIDTH {
        TYPING_MAX_WIDTH
    } else {
        w
    }
}

/// The columns a row may use: all but the last terminal column, which would
/// make the terminal scroll.
pub fn typing_safe_row_width(terminal_width: u16) -> (r: usize)
    ensures
        r == (if terminal_width == 0 { 0 } else { terminal_width - 1 }),
{
    terminal_width.saturating_sub(1) as usize
}

/// The enhanced-typing status line at its widest, with no request yet.
pub open spec fn widest_status_line() -> Seq<char> {
    "F1 Flush/Show | Esc Clear | F9 Settings | requests 0 | \u{25cf} listening..."@
}

/// The width of the enhanced-typing status line at its widest.
pub fn min_typing_status_width() -> (r: usize)
    ensures
        r == widest_status_line().len(),
{
    chars_of("F1 Flush/Show | Esc Clear | F9 Settings | requests 0 | \u{25cf} listening...").len()
}

// ---------------------------------------------------------------------------
// Fitting
// ---------------------------------------------------------------------------

/// A line cut or padded with spaces to exactly `width` characters.
pub open spec fn fit_spec(line: Seq<char>, width: nat) -> Seq<char> {
    if width == 0 {
        Seq::empty()
    } else if line.len() > width {
        line.take(width as int)
    } else {
        line + spaces((width - line.len()) as nat)
    }
}

/// Cuts or pads a line to exactly `width` characters.
pub fn fit_line(line: &str, width: usize) -> (r: String)
    ensures
        r@ == fit_spec(line@, width as nat),
        width > 0 ==> r@.len() == width,
{
    let v = chars_of(line);
    if width == 0 {
        return String::new();
    }
    if v.len() > width {
        return crate::text::string_of_range(&v, 0, width);
    }
    let mut out = crate::text::copy_chars(&v);
    let pad = space_chars(width - v.len());
    crate::text::append_chars(&mut out, &pad);
    string_of(&out)
}

/// A text cut to at most `width` characters.
pub open spec fn fragment_spec(text: Seq<char>, width: nat) -> Seq<char> {
    if text.len() <= width {
        text
    } else {
        text.take(width as int)
    }
}

/// Cuts a text to at most `width` characters.
pub fn fit_line_fragment(text: &str, width: usize) -> (r: String)
    ensures
        r@ == fragment_spec(text@, width as nat),
{
    let v = chars_of(text);
    if v.len() <= width {
        return string_of(&v);
    }
    crate::text::string_of_range(&v, 0, width)
}

// ---------------------------------------------------------------------------
// Chunking and wrapping
// ---------------------------------------------------------------------------

/// A text cut into pieces of `width` characters, the last one shorter.
pub open spec fn chunks(s: Seq<char>, width: nat) -> Seq<Seq<char>>
    decreases s.len(),
{
    if width == 0 || s.len() == 0 {
        Seq::empty()
    } else if s.len() <= width {
        seq![s]
    } else {
        seq![s.take(width as int)] + chunks(s.skip(width as int), width)
    }
}

proof fn lemma_chunks_push(s: Seq<char>, width: nat, c: char)
    requires
        width > 0,
    ensures
        s.len() > 0 ==> chunks(s, width).len() > 0,
        s.len() > 0 ==> 1 <= chunks(s, width).last().len() <= width,
        chunks(s.push(c), width) == (if s.len() == 0 || chunks(s, width).last().len() == width {
            chunks(s, width).push(seq![c])
        } else {
            chunks(s, width).drop_last().push(chunks(s, width).last().push(c))
        }),
    decreases s.len(),
{
    if s.len() == 0 {
        assert(s.push(c) =~= seq![c]);
        assert(chunks(s, width) =~= Seq::<Seq<char>>::empty());
        assert(chunks(seq![c], width) == seq![seq![c]]);
        assert(chunks(s, width).push(seq![c]) =~= seq![seq![c]]);
    } else if s.len() < width {
        assert(chunks(s, width) == seq![s]);
        assert(chunks(s.push(c), width) == seq![s.push(c)]);
        assert(seq![s].drop_last().push(s.push(c)) =~= seq![s.push(c)]);
    } else if s.len() == width {
        assert(s.push(c).take(width as int) =~= s);
        assert(s.push(c).skip(width as int) =~= seq![c]);
        assert(chunks(seq![c], width) == seq![seq![c]]);
        assert(chunks(s.push(c), width) =~= seq![s] + seq![seq![c]]);
        assert(chunks(s, width) == seq![s]);
        assert(seq![s].push(seq![c]) =~= seq![s] + seq![seq![c]]);
    } else {
        let rest = s.skip(width as int);
        lemma_chunks_push(rest, width, c);
        assert(s.push(c).take(width as int) =~= s.take(width as int));
        assert(s.push(c).skip(width as int) =~= rest.push(c));
        let head = seq![s.take(width as int)];
        let cs = chunks(rest, width);
        assert(chunks(s, width) == head + cs);
        assert(chunks(s.push(c), width) == head + chunks(rest.push(c), width));
        assert((head + cs).last() == cs.last());
        if cs.last().len() == width {
            assert(head + cs.push(seq![c]) =~= (head + cs).push(seq![c]));
        } else {
            assert(head + cs.drop_last().push(cs.last().push(c)) =~= (head + cs).drop_last().push(
                cs.last().push(c),
            ));
        }
    }
}

fn chunk_chars(text: &Vec<char>, width: usize) -> (r: Vec<Vec<char>>)
    ensures
        seqs(r@) == chunks(text@, width as nat),
{
    let mut out: Vec<Vec<char>> = Vec::new();
    if width == 0 {
        assert(seqs(out@) =~= chunks(text@, 0));
        return out;
    }
    let mut current: Vec<char> = Vec::new();
    let mut i: usize = 0;
    while i < text.len()
        invariant
            width > 0,
            i <= text.len(),
            i == 0 ==> current@.len() == 0 && out@.len() == 0,
            i > 0 ==> 1 <= current@.len() <= width,
            i > 0 ==> seqs(out@).push(current@) == chunks(text@.take(i as int), width as nat),
        decreases text.len() - i,
    {
        let c = text[i];
        proof {
            lemma_chunks_push(text@.take(i as int), width as nat, c);
            assert(text@.take(i + 1) =~= text@.take(i as int).push(c));
        }
        if current.len() == width {
            let ghost before = seqs(out@);
            let finished = current;
            out.push(finished);
            assert(seqs(out@) =~= before.push(finished@));
            current = Vec::new();
            current.push(c);
            assert(current@ =~= seq![c]);
        } else {
            let ghost before_cur = current@;
            let ghost before_out = seqs(out@);
            current.push(c);
            proof {
                if i == 0 {
                    assert(before_out =~= Seq::<Seq<char>>::empty());
                    assert(current@ =~= seq![c]);
                    assert(before_out.push(current@) =~= Seq::<Seq<char>>::empty().push(seq![c]));
                    assert(text@.take(0) =~= Seq::<char>::empty());
                } else {
                    assert(before_out.push(before_cur).drop_last() =~= before_out);
                    assert(before_out.push(before_cur).last() == before_cur);
                }
            }
        }
        i += 1;
    }
    if current.len() > 0 {
        let ghost before = seqs(out@);
        let ghost last = current@;
        out.push(current);
        assert(seqs(out@) =~= before.push(last));
        assert(text@.take(text.len() as int) =~= text@);
    } else {
        assert(text@.len() == 0);
        assert(seqs(out@) =~= Seq::<Seq<char>>::empty());
        assert(chunks(text@, width as nat) =~= Seq::<Seq<char>>::empty());
    }
    out
}

/// Cuts a text into pieces of `width` characters.
pub fn chunk_text(text: &str, width: usize) -> (r: Vec<String>)
    ensures
        string_seqs(r@) == chunks(text@, width as nat),
{
    let v = chars_of(text);
    let parts = chunk_chars(&v, width);
    let mut out: Vec<String> = Vec::new();
    let mut i: usize = 0;
    while i < parts.len()
        invariant
            i <= parts.len(),
            string_seqs(out@) == seqs(parts@).take(i as int),
        decreases parts.len() - i,
    {
        let ghost before = string_seqs(out@);
        let piece = string_of(&parts[i]);
        out.push(piece);
        assert(string_seqs(out@) =~= before.push(parts@[i as int]@));
        i += 1;
        assert(seqs(parts@).take(i as int) =~= seqs(parts@).take(i - 1).push(parts@[i - 1]@));
    }
    assert(seqs(parts@).take(parts.len() as int) =~= seqs(parts@));
    out
}

/// The columns of the leading whitespace from position `i` on: a tab counts
/// four, any other whitespace character one.
pub open spec fn lead_cols(s: Seq<char>, i: nat) -> nat
    decreases s.len() - i,
{
    if i < s.len() && char_is_whitespace(s[i as int]) {
        (if s[i as int] == '\t' { 4nat } else { 1nat }) + lead_cols(s, i + 1)
    } else {
        0
    }
}

/// The indentation kept on every wrapped row: the leading whitespace columns,
/// at most `width - 1`.
pub open spec fn indent_of(line: Seq<char>, width: nat) -> nat {
    let w1 = if width == 0 { 0 } else { (width - 1) as nat };
    if lead_cols(line, 0) < w1 { lead_cols(line, 0) } else { w1 }
}

/// Each piece prefixed with the indentation.
pub open spec fn indented(pieces: Seq<Seq<char>>, indent: Seq<char>) -> Seq<Seq<char>> {
    pieces.map_values(|p: Seq<char>| indent + p)
}

/// One word added to the wrapping state `(rows, current row)`: an over-long
/// word ends the current row and is cut into indented chunks; another word
/// goes on the current row after a space, or starts a new row when it does
/// not fit.
pub open spec fn wrap_step(st: (Seq<Seq<char>>, Seq<char>), word: Seq<char>, width: nat, iw: nat) -> (Seq<Seq<char>>, Seq<char>) {
    let indent = spaces(iw);
    let ww: nat = if width > iw { (width - iw) as nat } else { 1 };
    if word.len() > ww {
        let first = if st.1.len() > iw { (st.0.push(st.1), indent) } else { st };
        (first.0 + indented(chunks(word, ww), indent), first.1)
    } else {
        let first = if st.1.len() > iw && st.1.len() + 1 + word.len() > width {
            (st.0.push(st.1), indent)
        } else {
            st
        };
        let cur = if first.1.len() > iw { first.1.push(' ') } else { first.1 };
        (first.0, cur + word)
    }
}

/// The wrapping state after the given words.
pub open spec fn wrap_fold(words: Seq<Seq<char>>, width: nat, iw: nat) -> (Seq<Seq<char>>, Seq<char>)
    decreases words.len(),
{
    if words.len() == 0 {
        (Seq::empty(), spaces(iw))
    } else {
        wrap_step(wrap_fold(words.drop_last(), width, iw), words.last(), width, iw)
    }
}

/// The rows of a finished wrapping state: the current row if it holds a
/// word, and one empty row when nothing was produced.
pub open spec fn wrap_finish(st: (Seq<Seq<char>>, Seq<char>), iw: nat) -> Seq<Seq<char>> {
    if st.1.len() > iw {
        st.0.push(st.1)
    } else if st.0.len() == 0 {
        seq![Seq::empty()]
    } else {
        st.0
    }
}

/// A line wrapped greedily at `width` columns, keeping its indentation.
pub open spec fn wrap_line_spec(line: Seq<char>, width: nat) -> Seq<Seq<char>> {
    if width == 0 {
        Seq::empty()
    } else if trim(line).len() == 0 {
        seq![Seq::empty()]
    } else {
        let iw = indent_of(line, width);
        wrap_finish(wrap_fold(words_of(line), width, iw), iw)
    }
}

/// Every row fits in `width` columns.
pub open spec fn rows_fit(rows: Seq<Seq<char>>, width: nat) -> bool {
    forall|k: int| 0 <= k < rows.len() ==> #[trigger] rows[k].len() <= width
}

proof fn lemma_chunks_fit(s: Seq<char>, width: nat)
    ensures
        rows_fit(chunks(s, width), width),
    decreases s.len(),
{
    if width == 0 || s.len() == 0 {
    } else if s.len() <= width {
    } else {
        lemma_chunks_fit(s.skip(width as int), width);
        let a = seq![s.take(width as int)];
        let b = chunks(s.skip(width as int), width);
        assert forall|k: int| 0 <= k < (a + b).len() implies #[trigger] (a + b)[k].len() <= width by {
            if k > 0 {
                assert((a + b)[k] == b[k - 1]);
            }
        }
    }
}

proof fn lemma_wrap_fold_fits(words: Seq<Seq<char>>, width: nat, iw: nat)
    requires
        iw < width,
    ensures
        rows_fit(wrap_fold(words, width, iw).0, width),
        iw <= wrap_fold(words, width, iw).1.len() <= width,
        wrap_fold(words, width, iw).1.len() == iw ==> wrap_fold(words, width, iw).1 == spaces(iw),
    decreases words.len(),
{
    if words.len() > 0 {
        lemma_wrap_fold_fits(words.drop_last(), width, iw);
        let st = wrap_fold(words.drop_last(), width, iw);
        let word = words.last();
        let ww: nat = (width - iw) as nat;
        let indent = spaces(iw);
        if word.len() > ww {
            let first = if st.1.len() > iw { (st.0.push(st.1), indent) } else { st };
            lemma_chunks_fit(word, ww);
            let cs = chunks(word, ww);
            assert(rows_fit(first.0, width));
            assert forall|k: int| 0 <= k < (first.0 + indented(cs, indent)).len() implies
                #[trigger] (first.0 + indented(cs, indent))[k].len() <= width by {
                if k >= first.0.len() {
                    assert((first.0 + indented(cs, indent))[k] == indent + cs[k - first.0.len()]);
                    assert(cs[k - first.0.len()].len() <= ww);
                }
            }
        } else {
            let first = if st.1.len() > iw && st.1.len() + 1 + word.len() > width {
                (st.0.push(st.1), indent)
            } else {
                st
            };
            assert(rows_fit(first.0, width));
            let cur = if first.1.len() > iw { first.1.push(' ') } else { first.1 };
            assert((cur + word).len() <= width);
            if (cur + word).len() == iw {
                assert(word.len() == 0);
                assert(cur == first.1);
                assert(cur + word =~= cur);
            }
        }
    }
}

/// Wrapped rows never exceed the width.
pub proof fn wrapped_rows_fit(line: Seq<char>, width: nat)
    ensures
        rows_fit(wrap_line_spec(line, width), width),
{
    if width > 0 && trim(line).len() != 0 {
        let iw = indent_of(line, width);
        lemma_wrap_fold_fits(words_of(line), width, iw);
    }
}

fn indent_width(line: &Vec<char>, width: usize) -> (r: usize)
    requires
        width > 0,
    ensures
        r == indent_of(line@, width as nat),
{
    let mut acc: u128 = 0;
    let mut i: usize = 0;
    while i < line.len() && acc < (width as u128) && is_whitespace(line[i])
        invariant
            i <= line.len(),
            acc + lead_cols(line@, i as nat) == lead_cols(line@, 0),
        decreases line.len() - i,
    {
        if line[i] == '\t' {
            acc = acc + 4;
        } else {
            acc = acc + 1;
        }
        i += 1;
    }
    if acc >= (width as u128) {
        width - 1
    } else {
        let a = acc as usize;
        if a < width - 1 {
            a
        } else {
            width - 1
        }
    }
}

/// Wraps a line greedily at `width` columns; see `wrap_line_spec`.
pub fn wrap_line(line: &str, width: usize) -> (r: Vec<String>)
    ensures
        string_seqs(r@) == wrap_line_spec(line@, width as nat),
        rows_fit(string_seqs(r@), width as nat),
{
    proof {
        wrapped_rows_fit(line@, width as nat);
    }
    let mut out: Vec<String> = Vec::new();
    if width == 0 {
        assert(string_seqs(out@) =~= Seq::<Seq<char>>::empty());
        return out;
    }
    let v = chars_of(line);
    if trim_vec(&v).len() == 0 {
        out.push(String::new());
        assert(string_seqs(out@) =~= seq![Seq::<char>::empty()]);
        return out;
    }
    let iw = indent_width(&v, width);
    let indent = space_chars(iw);
    let word_width: usize = if width > iw {
        width - iw
    } else {
        1
    };
    let words = split_words(&v);
    let mut current: Vec<char> = crate::text::copy_chars(&indent);
    let mut i: usize = 0;
    while i < words.len()
        invariant
            0 < width,
            iw < width,
            word_width == width - iw,
            indent@ == spaces(iw as nat),
            i <= words.len(),
            (string_seqs(out@), current@) == wrap_fold(seqs(words@).take(i as int), width as nat, iw as nat),
        decreases words.len() - i,
    {
        proof {
            lemma_wrap_fold_fits(seqs(words@).take(i as int), width as nat, iw as nat);
        }
        let ghost ws = seqs(words@).take(i + 1);
        assert(ws.drop_last() =~= seqs(words@).take(i as int));
        assert(ws.last() == words@[i as int]@);
        let word = &words[i];
        let word_len = word.len();
        if word_len > word_width {
            if current.len() > iw {
                let ghost before = string_seqs(out@);
                out.push(string_of(&current));
                assert(string_seqs(out@) =~= before.push(current@));
                current = crate::text::copy_chars(&indent);
            }
            let pieces = chunk_chars(word, word_width);
            let mut k: usize = 0;
            let ghost base = string_seqs(out@);
            while k < pieces.len()
                invariant
                    k <= pieces.len(),
                    indent@ == spaces(iw as nat),
                    string_seqs(out@) == base + indented(seqs(pieces@).take(k as int), indent@),
                decreases pieces.len() - k,
            {
                let mut row = crate::text::copy_chars(&indent);
                crate::text::append_chars(&mut row, &pieces[k]);
                let ghost before = string_seqs(out@);
                out.push(string_of(&row));
                k += 1;
                assert(string_seqs(out@) =~= before.push(row@));
                assert(indented(seqs(pieces@).take(k as int), indent@) =~= indented(
                    seqs(pieces@).take(k - 1),
                    indent@,
                ).push(indent@ + seqs(pieces@)[k - 1]));
            }
            assert(seqs(pieces@).take(pieces.len() as int) =~= seqs(pieces@));
        } else {
            if current.len() > iw && word_len >= width - current.len() {
                let ghost before = string_seqs(out@);
                out.push(string_of(&current));
                assert(string_seqs(out@) =~= before.push(current@));
                current = crate::text::copy_chars(&indent);
            }
            if current.len() > iw {
                current.push(' ');
            }
            crate::text::append_chars(&mut current, word);
        }
        i += 1;
    }
    assert(seqs(words@).take(words.len() as int) =~= seqs(words@));
    if current.len() > iw {
        let ghost before = string_seqs(out@);
        out.push(string_of(&current));
        assert(string_seqs(out@) =~= before.push(current@));
    } else if out.len() == 0 {
        out.push(String::new());
        assert(string_seqs(out@) =~= seq![Seq::<char>::empty()]);
    }
    out
}

/// Text wrapped line by line, each line trimmed first; one empty row when
/// the text has no line.
pub open spec fn wrap_lines_fold(ls: Seq<Seq<char>>, width: nat) -> Seq<Seq<char>>
    decreases ls.len(),
{
    if ls.len() == 0 {
        Seq::empty()
    } else {
        wrap_lines_fold(ls.drop_last(), width) + wrap_line_spec(trim(ls.last()), width)
    }
}

pub open spec fn wrap_plain_spec(text: Seq<char>, width: nat) -> Seq<Seq<char>> {
    let rows = wrap_lines_fold(lines_of(text), width);
    if rows.len() == 0 {
        seq![Seq::empty()]
    } else {
        rows
    }
}

/// Wraps every line of a text at `width` columns; see `wrap_plain_spec`.
pub fn wrap_plain_text(text: &str, width: usize) -> (r: Vec<String>)
    ensures
        string_seqs(r@) == wrap_plain_spec(text@, width as nat),
        width > 0 ==> rows_fit(string_seqs(r@), width as nat),
{
    let v = chars_of(text);
    let paragraphs = split_lines(&v);
    let mut out: Vec<String> = Vec::new();
    let mut i: usize = 0;
    while i < paragraphs.len()
        invariant
            i <= paragraphs.len(),
            string_seqs(out@) == wrap_lines_fold(seqs(paragraphs@).take(i as int), width as nat),
            rows_fit(string_seqs(out@), width as nat),
        decreases paragraphs.len() - i,
    {
        let ghost ps = seqs(paragraphs@).take(i + 1);
        assert(ps.drop_last() =~= seqs(paragraphs@).take(i as int));
        let trimmed = trim_vec(&paragraphs[i]);
        let s = string_of(&trimmed);
        let rows = wrap_line(s.as_str(), width);
        let ghost base = string_seqs(out@);
        let mut k: usize = 0;
        while k < rows.len()
            invariant
                k <= rows.len(),
                string_seqs(out@) == base + string_seqs(rows@).take(k as int),
                rows_fit(base, width as nat),
                rows_fit(string_seqs(rows@), width as nat),
                rows_fit(string_seqs(out@), width as nat),
            decreases rows.len() - k,
        {
            let ghost before = string_seqs(out@);
            let row = rows[k].clone();
            out.push(row);
            assert(string_seqs(out@) =~= before.push(rows@[k as int]@));
            k += 1;
            assert(string_seqs(rows@).take(k as int) =~= string_seqs(rows@).take(k - 1).push(
                rows@[k - 1]@,
            ));
        }
        assert(string_seqs(rows@).take(rows.len() as int) =~= string_seqs(rows@));
        i += 1;
    }
    assert(seqs(paragraphs@).take(paragraphs.len() as int) =~= seqs(paragraphs@));
    if out.len() == 0 {
        out.push(String::new());
        assert(string_seqs(out@) =~= seq![Seq::<char>::empty()]);
    }
    out
}

} // verus!
