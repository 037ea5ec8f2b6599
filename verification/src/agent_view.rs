//! The insight column of the transcription screen: each shown field under
//! its title, the fields sharing the rows, the answer first, and the last
//! error below.
use vstd::prelude::*;

use crate::layout::{spaces, string_seqs, wrap_plain_spec};
use crate::panes::{AgentFieldState, AgentPaneState};
use crate::text::{chars_of, string_of, trim};
use crate::transcript_view::{last_rows, LineModel};
use crate::view::{line_view, lines_view, one_line, plain_rows, StyledLine, StyledSegment, Tint};

verus! {

/// The indent of insight rows in a column `width` wide.
pub open spec fn agent_indent(width: usize) -> nat {
    if width >= 5 { 4 } else if width >= 1 { (width - 1) as nat } else { 0 }
}

/// The width insight text wraps at: what the indent leaves, from 1 to 72.
pub open spec fn agent_text_width(width: usize) -> nat {
    let w: int = width - agent_indent(width);
    if w < 1 { 1 } else if w > 72 { 72 } else { w as nat }
}

/// Rows of wrapped text, each trimmed and indented.
pub open spec fn indented_rows(rows: Seq<Seq<char>>, iw: nat) -> Seq<Seq<char>> {
    rows.map_values(|r: Seq<char>| spaces(iw) + trim(r))
}

/// The values of a field wrapped for the column, one value after the
/// other; a lone indent when there are none.
pub open spec fn agent_lines_fold(values: Seq<Seq<char>>, width: usize) -> Seq<Seq<char>>
    decreases values.len(),
{
    if values.len() == 0 {
        Seq::empty()
    } else {
        agent_lines_fold(values.drop_last(), width) + indented_rows(
            wrap_plain_spec(trim(values.last()), agent_text_width(width)),
            agent_indent(width),
        )
    }
}

/// See `agent_lines_fold`.
pub open spec fn agent_lines_spec(values: Seq<Seq<char>>, width: usize) -> Seq<Seq<char>> {
    let rows = agent_lines_fold(values, width);
    if rows.len() == 0 { seq![spaces(agent_indent(width))] } else { rows }
}

fn push_indented(out: &mut Vec<String>, rows: &Vec<String>, iw: usize)
    ensures
        string_seqs(final(out)@) == string_seqs(old(out)@) + indented_rows(string_seqs(rows@), iw as nat),
{
    let ghost start = string_seqs(out@);
    let mut i: usize = 0;
    while i < rows.len()
        invariant
            i <= rows.len(),
            string_seqs(out@) == start + indented_rows(string_seqs(rows@).take(i as int), iw as nat),
        decreases rows.len() - i,
    {
        let mut line = crate::layout::space_chars(iw);
        crate::text::append_chars(&mut line, &crate::text::trim_vec(&chars_of(rows[i].as_str())));
        let ghost prev = out@;
        out.push(string_of(&line));
        proof {
            assert(string_seqs(out@) =~= string_seqs(prev).push(line@));
            assert(string_seqs(rows@).take(i + 1) =~= string_seqs(rows@).take(i as int).push(rows@[i as int]@));
            assert(indented_rows(string_seqs(rows@).take(i + 1), iw as nat) =~= indented_rows(string_seqs(rows@).take(i as int), iw as nat).push(
                spaces(iw as nat) + trim(rows@[i as int]@),
            ));
        }
        i += 1;
    }
    proof {
        assert(string_seqs(rows@).take(rows.len() as int) =~= string_seqs(rows@));
    }
}

fn indent_of(width: usize) -> (r: (usize, usize))
    ensures
        r.0 == agent_indent(width),
        r.1 == agent_text_width(width),
{
    let iw: usize = if width >= 5 { 4 } else if width >= 1 { width - 1 } else { 0 };
    let w = width - iw;
    (iw, if w < 1 { 1 } else if w > 72 { 72 } else { w })
}

/// The values of a field wrapped for the column; see `agent_lines_spec`.
pub fn wrap_agent_lines(values: &Vec<String>, width: usize) -> (r: Vec<String>)
    ensures
        string_seqs(r@) == agent_lines_spec(string_seqs(values@), width),
{
    let (iw, usable) = indent_of(width);
    let mut out: Vec<String> = Vec::new();
    let mut i: usize = 0;
    while i < values.len()
        invariant
            i <= values.len(),
            iw == agent_indent(width),
            usable == agent_text_width(width),
            string_seqs(out@) == agent_lines_fold(string_seqs(values@).take(i as int), width),
        decreases values.len() - i,
    {
        let value = crate::text::trim_string(values[i].as_str());
        let wrapped = crate::layout::wrap_plain_text(value.as_str(), usable);
        push_indented(&mut out, &wrapped, iw);
        proof {
            assert(string_seqs(values@).take(i + 1).drop_last() =~= string_seqs(values@).take(i as int));
            assert(string_seqs(values@).take(i + 1).last() == values@[i as int]@);
        }
        i += 1;
    }
    proof {
        assert(string_seqs(values@).take(values.len() as int) =~= string_seqs(values@));
    }
    if out.len() == 0 {
        out.push(string_of(&crate::layout::space_chars(iw)));
        proof {
            assert(string_seqs(out@) =~= seq![spaces(iw as nat)]);
        }
    }
    out
}

/// The error rows of the insight column, at most `max_lines`: a heading,
/// then the last rows of the message.
pub open spec fn error_rows_spec(message: Seq<char>, width: usize, max_lines: usize) -> Seq<LineModel> {
    if max_lines == 0 {
        Seq::empty()
    } else if max_lines == 1 {
        one_line("Agent error"@, Tint::Red)
    } else {
        one_line("Agent error"@, Tint::Red) + last_rows(
            plain_rows(indented_rows(wrap_plain_spec(trim(message), agent_text_width(width)), agent_indent(width)), Tint::Rgb(255, 120, 120)),
            (max_lines - 1) as nat,
        )
    }
}

fn plain_lines(texts: &Vec<String>, tint: Tint) -> (r: Vec<StyledLine>)
    ensures
        lines_view(r@) == plain_rows(string_seqs(texts@), tint),
{
    let mut out: Vec<StyledLine> = Vec::new();
    let mut i: usize = 0;
    while i < texts.len()
        invariant
            i <= texts.len(),
            lines_view(out@) == plain_rows(string_seqs(texts@).take(i as int), tint),
        decreases texts.len() - i,
    {
        let line = crate::view::plain_line(texts[i].clone(), tint);
        let ghost prev = out@;
        let ghost lv = line_view(line);
        out.push(line);
        proof {
            assert(lines_view(out@) =~= lines_view(prev).push(lv));
            assert(string_seqs(texts@).take(i + 1) =~= string_seqs(texts@).take(i as int).push(texts@[i as int]@));
            assert(plain_rows(string_seqs(texts@).take(i + 1), tint) =~= plain_rows(string_seqs(texts@).take(i as int), tint).push(
                seq![(texts@[i as int]@, tint)],
            ));
        }
        i += 1;
    }
    proof {
        assert(string_seqs(texts@).take(texts.len() as int) =~= string_seqs(texts@));
    }
    out
}

fn append_last(rows: &mut Vec<StyledLine>, more: Vec<StyledLine>, n: usize)
    ensures
        lines_view(final(rows)@) == lines_view(old(rows)@) + last_rows(lines_view(more@), n as nat),
{
    let ghost mv = lines_view(more@);
    let start = if more.len() > n { more.len() - n } else { 0 };
    let mut more = more;
    let mut tail = more.split_off(start);
    proof {
        assert(lines_view(tail@) =~= last_rows(mv, n as nat));
    }
    let ghost tv = lines_view(tail@);
    rows.append(&mut tail);
    assert(lines_view(rows@) =~= lines_view(old(rows)@) + tv);
}

/// The error rows of the insight column; see `error_rows_spec`.
pub fn agent_error_rows(message: &str, width: usize, max_lines: usize) -> (r: Vec<StyledLine>)
    ensures
        lines_view(r@) == error_rows_spec(message@, width, max_lines),
{
    let mut rows: Vec<StyledLine> = Vec::new();
    if max_lines == 0 {
        return rows;
    }
    let heading = crate::view::plain_str("Agent error", Tint::Red);
    let ghost hv = line_view(heading);
    rows.push(heading);
    proof {
        assert(lines_view(rows@) =~= seq![hv]);
    }
    if max_lines == 1 {
        return rows;
    }
    let (iw, usable) = indent_of(width);
    let trimmed = crate::text::trim_string(message);
    let wrapped = crate::layout::wrap_plain_text(trimmed.as_str(), usable);
    let mut texts: Vec<String> = Vec::new();
    push_indented(&mut texts, &wrapped, iw);
    let lines = plain_lines(&texts, Tint::Rgb(255, 120, 120));
    append_last(&mut rows, lines, max_lines - 1);
    rows
}

/// A field's section of at most `max_lines` rows: its title, then its
/// first rows; when they do not all fit, the last shown row ends in an
/// ellipsis. The value fades from when the field was updated.
pub open spec fn field_rows_spec(f: AgentFieldState, width: usize, max_lines: usize) -> Seq<LineModel> {
    let (tr, tg, tb) = f.config.title_rgb;
    let (vr, vg, vb) = f.config.value_rgb;
    let tint = match f.updated_at_ms {
        Some(t) => Tint::Fading { r: vr, g: vg, b: vb, since_ms: t },
        None => Tint::Rgb(vr, vg, vb),
    };
    let title = one_line(f.config.title@, Tint::Rgb(tr, tg, tb));
    if max_lines == 0 {
        Seq::empty()
    } else if max_lines == 1 {
        title
    } else {
        let body = agent_lines_spec(string_seqs(f.lines@), width);
        let n = (max_lines - 1) as nat;
        if body.len() > n {
            let shown = body.take(n as int);
            let last = shown.last();
            let cut = if width <= 1 { seq!['\u{2026}'] } else {
                crate::text::trim_end(last.take(if last.len() < width - 2 { last.len() as int } else { width - 2 })) + " \u{2026}"@
            };
            title + plain_rows(shown.drop_last().push(cut), tint)
        } else {
            title + plain_rows(body, tint)
        }
    }
}

fn cut_row(last: &Vec<char>, width: usize) -> (r: Vec<char>)
    ensures
        r@ == (if width <= 1 { seq!['\u{2026}'] } else {
            crate::text::trim_end(last@.take(if last@.len() < width - 2 { last@.len() as int } else { width - 2 })) + " \u{2026}"@
        }),
{
    if width <= 1 {
        let r = vec!['\u{2026}'];
        assert(r@ =~= seq!['\u{2026}']);
        return r;
    }
    let keep = if last.len() < width - 2 { last.len() } else { width - 2 };
    let mut prefix: Vec<char> = Vec::new();
    let mut i: usize = 0;
    while i < keep
        invariant
            i <= keep <= last.len(),
            prefix@ == last@.take(i as int),
        decreases keep - i,
    {
        prefix.push(last[i]);
        proof {
            assert(prefix@ =~= last@.take(i + 1));
        }
        i += 1;
    }
    let mut out = crate::text::trim_end_vec(&prefix);
    crate::text::append_chars(&mut out, &chars_of(" \u{2026}"));
    out
}

/// A field's section; see `field_rows_spec`.
pub fn agent_field_rows(field: &AgentFieldState, width: usize, max_lines: usize) -> (r: Vec<StyledLine>)
    ensures
        lines_view(r@) == field_rows_spec(*field, width, max_lines),
{
    let mut rows: Vec<StyledLine> = Vec::new();
    if max_lines == 0 {
        return rows;
    }
    let (tr, tg, tb) = field.config.title_rgb;
    let (vr, vg, vb) = field.config.value_rgb;
    let tint = match field.updated_at_ms {
        Some(t) => Tint::Fading { r: vr, g: vg, b: vb, since_ms: t },
        None => Tint::Rgb(vr, vg, vb),
    };
    let title = crate::view::plain_line(field.config.title.clone(), Tint::Rgb(tr, tg, tb));
    let ghost tv = line_view(title);
    rows.push(title);
    proof {
        assert(lines_view(rows@) =~= seq![tv]);
    }
    if max_lines == 1 {
        return rows;
    }
    let body = wrap_agent_lines(&field.lines, width);
    let n = max_lines - 1;
    let ghost bv = string_seqs(body@);
    let mut texts: Vec<String> = Vec::new();
    if body.len() > n {
        let mut i: usize = 0;
        while i + 1 < n
            invariant
                n >= 1,
                n < body.len(),
                i + 1 <= n,
                bv == string_seqs(body@),
                string_seqs(texts@) == bv.take(i as int),
            decreases n - i,
        {
            let ghost prev = texts@;
            texts.push(body[i].clone());
            proof {
                assert(string_seqs(texts@) =~= string_seqs(prev).push(body@[i as int]@));
                assert(bv.take(i + 1) =~= bv.take(i as int).push(bv[i as int]));
            }
            i += 1;
        }
        let cut = cut_row(&chars_of(body[n - 1].as_str()), width);
        let ghost prev = texts@;
        texts.push(string_of(&cut));
        proof {
            assert(string_seqs(texts@) =~= string_seqs(prev).push(cut@));
            assert(bv.take(n as int).drop_last() =~= bv.take((n - 1) as int));
            assert(string_seqs(texts@) =~= bv.take(n as int).drop_last().push(cut@));
        }
    } else {
        texts = body;
    }
    let lines = plain_lines(&texts, tint);
    let ghost lv = lines_view(lines@);
    let mut lines = lines;
    rows.append(&mut lines);
    proof {
        assert(lines_view(rows@) =~= seq![tv] + lv);
    }
    rows
}

/// The sum of some heights.
pub open spec fn total(hs: Seq<usize>) -> nat
    decreases hs.len(),
{
    if hs.len() == 0 { 0 } else { (total(hs.drop_last()) + hs.last()) as nat }
}

proof fn lemma_total_update(hs: Seq<usize>, i: int, v: usize)
    requires
        0 <= i < hs.len(),
    ensures
        total(hs.update(i, v)) == total(hs) - hs[i] + v,
    decreases hs.len(),
{
    if i < hs.len() - 1 {
        lemma_total_update(hs.drop_last(), i, v);
        assert(hs.update(i, v).drop_last() =~= hs.drop_last().update(i, v));
    } else {
        assert(hs.update(i, v).drop_last() =~= hs.drop_last());
    }
}

/// How the rows of the insight column are shared between its fields,
/// given the rows each field wants (`desired`, each at least one), the
/// field that holds the answer and the rows `available`: the first fields
/// get their title row, the answer then gets what it wants, and the rest go
/// round one row at a time to the fields that want more.
pub open spec fn heights_ok(desired: Seq<usize>, answer: Option<usize>, available: usize, hs: Seq<usize>) -> bool {
    let titled = if available < desired.len() { available as int } else { desired.len() as int };
    &&& hs.len() == desired.len()
    &&& total(hs) <= available
    &&& forall|i: int| 0 <= i < hs.len() ==> (#[trigger] hs[i] >= 1) == (i < titled)
    &&& forall|i: int| 0 <= i < titled ==> #[trigger] hs[i] <= desired[i]
    &&& (total(hs) < available ==> forall|i: int| 0 <= i < hs.len() ==> #[trigger] hs[i] == desired[i])
    &&& match answer {
        Some(a) => a < titled ==> {
            let left: int = available - titled;
            let want: int = desired[a as int] - 1;
            hs[a as int] >= 1 + (if want < left { want } else { left })
        },
        None => true,
    }
}

/// One round of sharing: in order, each field that wants more gets one
/// more row while rows remain; gives the heights and the rows left.
pub open spec fn share_round(hs: Seq<usize>, desired: Seq<usize>, remaining: nat, k: nat) -> (Seq<usize>, nat)
    decreases hs.len() - k,
{
    if k >= hs.len() || remaining == 0 {
        (hs, remaining)
    } else if hs[k as int] < desired[k as int] {
        share_round(hs.update(k as int, (hs[k as int] + 1) as usize), desired, (remaining - 1) as nat, k + 1)
    } else {
        share_round(hs, desired, remaining, k + 1)
    }
}

pub proof fn lemma_share_round_le(hs: Seq<usize>, desired: Seq<usize>, remaining: nat, k: nat)
    ensures
        share_round(hs, desired, remaining, k).1 <= remaining,
        share_round(hs, desired, remaining, k).1 == remaining ==> share_round(hs, desired, remaining, k).0 == hs,
    decreases hs.len() - k,
{
    if k >= hs.len() || remaining == 0 {
    } else if hs[k as int] < desired[k as int] {
        lemma_share_round_le(hs.update(k as int, (hs[k as int] + 1) as usize), desired, (remaining - 1) as nat, k + 1);
    } else {
        lemma_share_round_le(hs, desired, remaining, k + 1);
    }
}

/// Rounds of sharing until no row is left or no field wants more.
pub open spec fn share_rest(hs: Seq<usize>, desired: Seq<usize>, remaining: nat) -> Seq<usize>
    decreases remaining,
{
    if remaining == 0 {
        hs
    } else {
        let (h2, r2) = share_round(hs, desired, remaining, 0);
        proof {
            lemma_share_round_le(hs, desired, remaining, 0);
        }
        if r2 == remaining {
            h2
        } else {
            share_rest(h2, desired, r2)
        }
    }
}

/// The heights `agent_section_heights` gives: a title row for each of the
/// first fields that fit, the answer field raised to what it wants as far
/// as rows remain, then rounds of sharing.
pub open spec fn heights_spec(desired: Seq<usize>, answer: Option<usize>, available: usize) -> Seq<usize> {
    let n = desired.len();
    let titled: nat = if available < n { available as nat } else { n };
    let base = Seq::new(n, |j: int| if j < titled { 1usize } else { 0usize });
    let rem0: nat = (available - titled) as nat;
    match answer {
        Some(a) => if a < n && base[a as int] > 0 {
            let want: nat = (desired[a as int] - base[a as int]) as nat;
            let extra: nat = if want < rem0 { want } else { rem0 };
            share_rest(base.update(a as int, (base[a as int] + extra) as usize), desired, (rem0 - extra) as nat)
        } else {
            share_rest(base, desired, rem0)
        },
        None => share_rest(base, desired, rem0),
    }
}

/// Shares the rows of the insight column; see `heights_ok`.
pub fn agent_section_heights(desired: &Vec<usize>, answer: Option<usize>, available: usize) -> (r: Vec<usize>)
    requires
        forall|i: int| 0 <= i < desired.len() ==> #[trigger] desired@[i] >= 1,
    ensures
        heights_ok(desired@, answer, available, r@),
        r@ == heights_spec(desired@, answer, available),
{
    let n = desired.len();
    let titled = if available < n { available } else { n };
    let mut hs: Vec<usize> = Vec::new();
    let mut i: usize = 0;
    while i < n
        invariant
            i <= n == desired.len(),
            titled <= n,
            hs@.len() == i,
            forall|j: int| 0 <= j < i ==> #[trigger] hs@[j] == (if j < titled { 1usize } else { 0usize }),
            total(hs@) == (if i < titled { i as nat } else { titled as nat }),
        decreases n - i,
    {
        let ghost prev = hs@;
        hs.push(if i < titled { 1 } else { 0 });
        proof {
            assert(hs@.drop_last() =~= prev);
        }
        i += 1;
    }
    let mut remaining = available - titled;
    let ghost base = hs@;
    assert(base =~= Seq::new(n as nat, |j: int| if j < titled { 1usize } else { 0usize }));
    match answer {
        Some(a) => {
            if a < n && hs[a] > 0 {
                let want = desired[a] - hs[a];
                let extra = if want < remaining { want } else { remaining };
                let ghost before = hs@;
                hs.set(a, hs[a] + extra);
                proof {
                    lemma_total_update(before, a as int, (before[a as int] + extra) as usize);
                }
                remaining = remaining - extra;
            }
        },
        None => {},
    }
    assert(total(hs@) + remaining == available);
    assert(remaining > 0 ==> titled == n);
    let ghost boosted = hs@;
    let ghost goal = share_rest(boosted, desired@, remaining as nat);
    assert(goal == heights_spec(desired@, answer, available));
    let mut added = true;
    while remaining > 0 && added
        invariant
            hs@.len() == n == desired.len(),
            total(hs@) + remaining == available,
            forall|j: int| 0 <= j < n ==> (#[trigger] hs@[j] >= 1) == (j < titled),
            forall|j: int| 0 <= j < titled ==> #[trigger] hs@[j] <= desired@[j],
            forall|j: int| 0 <= j < n ==> #[trigger] hs@[j] >= boosted[j],
            forall|j: int| 0 <= j < n ==> (j >= titled ==> #[trigger] hs@[j] == 0),
            !added ==> forall|j: int| 0 <= j < n ==> #[trigger] hs@[j] >= desired@[j],
            forall|j: int| 0 <= j < desired.len() ==> #[trigger] desired@[j] >= 1,
            titled <= n,
            titled == (if available < n { available } else { n }),
            boosted.len() == n,
            remaining > 0 ==> titled == n,
            added ==> share_rest(hs@, desired@, remaining as nat) == goal,
            !added ==> hs@ == goal,
        decreases remaining, (if added { 1int } else { 0int }),
    {
        added = false;
        let mut k: usize = 0;
        let ghost start = remaining;
        let ghost start_hs = hs@;
        let ghost round = share_round(start_hs, desired@, start as nat, 0);
        while k < n && remaining > 0
            invariant
                k <= n == desired.len(),
                hs@.len() == n,
                total(hs@) + remaining == available,
                remaining <= start,
                added ==> remaining < start,
                !added ==> remaining == start,
                boosted.len() == n,
                start > 0 ==> titled == n,
                forall|j: int| 0 <= j < n ==> (#[trigger] hs@[j] >= 1) == (j < titled),
                forall|j: int| 0 <= j < titled ==> #[trigger] hs@[j] <= desired@[j],
                forall|j: int| 0 <= j < n ==> #[trigger] hs@[j] >= boosted[j],
                forall|j: int| 0 <= j < n ==> (j >= titled ==> #[trigger] hs@[j] == 0),
                !added ==> forall|j: int| 0 <= j < k ==> #[trigger] hs@[j] >= desired@[j],
                forall|j: int| 0 <= j < desired.len() ==> #[trigger] desired@[j] >= 1,
                titled <= n,
                share_round(hs@, desired@, remaining as nat, k as nat) == round,
            decreases n - k,
        {
            if hs[k] < desired[k] {
                let ghost before = hs@;
                hs.set(k, hs[k] + 1);
                proof {
                    lemma_total_update(before, k as int, (before[k as int] + 1) as usize);
                }
                remaining = remaining - 1;
                added = true;
            }
            k += 1;
        }
        proof {
            if !added && remaining > 0 {
                assert(k == n);
            }
            assert(share_round(hs@, desired@, remaining as nat, k as nat) == (hs@, remaining as nat));
            lemma_share_round_le(start_hs, desired@, start as nat, 0);
            if !added {
                assert(hs@ =~= start_hs);
            }
        }
        if remaining > 0 && !added {
            assert(forall|j: int| 0 <= j < n ==> #[trigger] hs@[j] >= desired@[j]);
        }
    }
    proof {
        if total(hs@) < available {
            assert(remaining > 0);
            assert(!added);
        }
    }
    hs
}

/// Whether a field shows lines.
pub open spec fn shows(f: AgentFieldState) -> bool {
    f.lines@.len() > 0
}

/// The positions of the fields that show, in order.
pub open spec fn shown_indices(fs: Seq<AgentFieldState>) -> Seq<usize>
    decreases fs.len(),
{
    if fs.len() == 0 {
        Seq::empty()
    } else if shows(fs.last()) {
        shown_indices(fs.drop_last()).push((fs.len() - 1) as usize)
    } else {
        shown_indices(fs.drop_last())
    }
}

/// The rows a field wants: its wrapped values and its title.
pub open spec fn wanted_rows(f: AgentFieldState, width: usize) -> usize {
    let n = agent_lines_spec(string_seqs(f.lines@), width).len() + 1;
    if n > usize::MAX { usize::MAX } else { n as usize }
}

/// The rows each shown field wants.
pub open spec fn wanted(fs: Seq<AgentFieldState>, idx: Seq<usize>, width: usize) -> Seq<usize> {
    idx.map_values(|i: usize| wanted_rows(fs[i as int], width))
}

/// The position, among the shown fields from `k` on, of the first answer
/// field.
pub open spec fn first_answer(fs: Seq<AgentFieldState>, idx: Seq<usize>, k: nat) -> Option<usize>
    decreases idx.len() - k,
{
    if k >= idx.len() {
        None
    } else if fs[idx[k as int] as int].config.key@ == "answer_guidance"@ {
        Some(k as usize)
    } else {
        first_answer(fs, idx, k + 1)
    }
}

/// The first `j` sections laid out: a blank row before each section but
/// the first when `gap` and there is room, then the section in the rows its
/// height and the room left allow.
pub open spec fn sections_fold(
    fs: Seq<AgentFieldState>,
    idx: Seq<usize>,
    hs: Seq<usize>,
    width: usize,
    max_lines: usize,
    gap: bool,
    j: nat,
) -> Seq<LineModel>
    decreases j,
{
    if j == 0 {
        Seq::empty()
    } else {
        let prev = sections_fold(fs, idx, hs, width, max_lines, gap, (j - 1) as nat);
        let h = hs[j - 1];
        if h == 0 {
            prev
        } else {
            let spaced = if j - 1 > 0 && gap && prev.len() < max_lines { prev + one_line(""@, Tint::White) } else { prev };
            let room: int = max_lines - spaced.len();
            let take: usize = if h < room { h } else { room as usize };
            spaced + field_rows_spec(fs[idx[j - 1] as int], width, take)
        }
    }
}

/// The field rows of the insight column in at most `max_lines` rows: the
/// shown fields share the rows (see `heights_spec`), the answer field
/// first served, with a blank row between fields when all of them fit
/// whole.
pub open spec fn field_column_spec(pane: AgentPaneState, width: usize, max_lines: usize) -> Seq<LineModel> {
    let fs = pane.fields@;
    let idx = shown_indices(fs);
    let n = idx.len();
    if max_lines == 0 || n == 0 {
        Seq::empty()
    } else {
        let desired = wanted(fs, idx, width);
        let whole: int = total(desired) + (n - 1);
        let gap = (if whole > usize::MAX { usize::MAX as int } else { whole }) <= max_lines;
        let available: int = if gap { max_lines - (n - 1) } else { max_lines as int };
        if available <= 0 {
            Seq::empty()
        } else {
            sections_fold(fs, idx, heights_spec(desired, first_answer(fs, idx, 0), available as usize), width, max_lines, gap, n)
        }
    }
}

proof fn lemma_sections_len(fs: Seq<AgentFieldState>, idx: Seq<usize>, hs: Seq<usize>, width: usize, max_lines: usize, gap: bool, j: nat)
    requires
        j <= hs.len(),
        j <= idx.len(),
    ensures
        sections_fold(fs, idx, hs, width, max_lines, gap, j).len() <= max_lines,
    decreases j,
{
    if j > 0 {
        lemma_sections_len(fs, idx, hs, width, max_lines, gap, (j - 1) as nat);
        let prev = sections_fold(fs, idx, hs, width, max_lines, gap, (j - 1) as nat);
        let h = hs[j - 1];
        if h > 0 {
            let spaced = if j - 1 > 0 && gap && prev.len() < max_lines { prev + one_line(""@, Tint::White) } else { prev };
            let room: int = max_lines - spaced.len();
            let take: usize = if h < room { h } else { room as usize };
            lemma_field_rows_len(fs[idx[j - 1] as int], width, take);
        }
    }
}

/// The fields of the insight column; see `field_column_spec`.
pub fn visible_agent_field_rows(pane: &AgentPaneState, width: usize, max_lines: usize) -> (r: Vec<StyledLine>)
    ensures
        lines_view(r@) == field_column_spec(*pane, width, max_lines),
        r@.len() <= max_lines,
        (max_lines == 0 || !(exists|i: int| 0 <= i < pane.fields.len() && #[trigger] shows(pane.fields@[i]))) ==> r@.len() == 0,
{
    let ghost fs = pane.fields@;
    let mut rows: Vec<StyledLine> = Vec::new();
    if max_lines == 0 {
        assert(lines_view(rows@) =~= Seq::<LineModel>::empty());
        return rows;
    }
    let mut active: Vec<usize> = Vec::new();
    let mut i: usize = 0;
    while i < pane.fields.len()
        invariant
            i <= pane.fields.len(),
            fs == pane.fields@,
            active@ == shown_indices(fs.take(i as int)),
            forall|j: int| 0 <= j < active.len() ==> #[trigger] active@[j] < pane.fields.len(),
            active@.len() <= i,
            active@.len() == 0 ==> forall|j: int| 0 <= j < i ==> !#[trigger] shows(pane.fields@[j]),
            forall|j: int| 0 <= j < active.len() ==> #[trigger] shows(pane.fields@[active@[j] as int]),
        decreases pane.fields.len() - i,
    {
        assert(fs.take(i + 1).drop_last() =~= fs.take(i as int));
        if pane.fields[i].lines.len() > 0 {
            active.push(i);
        }
        i += 1;
    }
    assert(fs.take(fs.len() as int) =~= fs);
    if active.len() == 0 {
        assert(lines_view(rows@) =~= Seq::<LineModel>::empty());
        return rows;
    }
    assert(shows(pane.fields@[active@[0] as int]));
    let n = active.len();
    let mut desired: Vec<usize> = Vec::new();
    let mut sum: usize = 0;
    let mut k: usize = 0;
    while k < n
        invariant
            k <= n == active.len(),
            fs == pane.fields@,
            desired@.len() == k,
            desired@ == wanted(fs, active@, width).take(k as int),
            sum as int == (if total(desired@) > usize::MAX { usize::MAX as int } else { total(desired@) as int }),
            forall|j: int| 0 <= j < k ==> #[trigger] desired@[j] >= 1,
            forall|j: int| 0 <= j < active.len() ==> #[trigger] active@[j] < pane.fields.len(),
        decreases n - k,
    {
        let wrapped = wrap_agent_lines(&pane.fields[active[k]].lines, width);
        let d = wrapped.len().saturating_add(1);
        let ghost prev = desired@;
        desired.push(d);
        sum = sum.saturating_add(d);
        proof {
            assert(desired@.drop_last() =~= prev);
            assert(wanted(fs, active@, width).take(k + 1) =~= prev.push(d));
        }
        k += 1;
    }
    assert(desired@ =~= wanted(fs, active@, width));
    let full_gaps = n - 1;
    let with_gaps = sum.saturating_add(full_gaps);
    let gap_rows: usize = if with_gaps <= max_lines { 1 } else { 0 };
    let gap_total: usize = if gap_rows == 1 { full_gaps } else { 0 };
    let available = max_lines.saturating_sub(gap_total);
    if available == 0 {
        assert(lines_view(rows@) =~= Seq::<LineModel>::empty());
        return rows;
    }
    let mut answer: Option<usize> = None;
    let mut a: usize = 0;
    while a < n && answer.is_none()
        invariant
            a <= n == active.len(),
            fs == pane.fields@,
            forall|j: int| 0 <= j < active.len() ==> #[trigger] active@[j] < pane.fields.len(),
            answer matches Some(x) ==> x < n,
            answer is None ==> first_answer(fs, active@, a as nat) == first_answer(fs, active@, 0),
            answer is Some ==> answer == first_answer(fs, active@, 0),
        decreases n - a, (if answer is None { 1int } else { 0int }),
    {
        if crate::normalize::is_text(&chars_of(pane.fields[active[a]].config.key.as_str()), "answer_guidance") {
            answer = Some(a);
        } else {
            a += 1;
        }
    }
    let hs = agent_section_heights(&desired, answer, available);
    let ghost gap = gap_rows == 1;
    let ghost titled: int = if available < n { available as int } else { n as int };
    let mut rendered: usize = 0;
    let mut j: usize = 0;
    while j < n
        invariant
            j <= n == active.len() == hs@.len(),
            fs == pane.fields@,
            gap == (gap_rows == 1),
            gap_rows == 0 || gap_rows == 1,
            titled == (if available < n { available as int } else { n as int }),
            forall|x: int| 0 <= x < hs@.len() ==> (#[trigger] hs@[x] >= 1) == (x < titled),
            rows@.len() <= max_lines,
            rendered == (if j < titled { j as int } else { titled }),
            lines_view(rows@) == sections_fold(fs, active@, hs@, width, max_lines, gap, j as nat),
            forall|x: int| 0 <= x < active.len() ==> #[trigger] active@[x] < pane.fields.len(),
        decreases n - j,
    {
        let h = hs[j];
        let ghost prev = lines_view(rows@);
        let ghost spaced = if j > 0 && gap && prev.len() < max_lines { prev + one_line(""@, Tint::White) } else { prev };
        assert(prev.len() == rows@.len());
        if h > 0 {
            assert(j < titled);
            assert(rendered > 0 <==> j > 0);
            if rendered > 0 && gap_rows > 0 && rows.len() < max_lines {
                let blank = crate::view::plain_str("", Tint::White);
                let ghost before = rows@;
                rows.push(blank);
                proof {
                    assert(lines_view(rows@) =~= lines_view(before) + one_line(""@, Tint::White));
                }
            }
            assert(lines_view(rows@) == spaced);
            assert(lines_view(rows@).len() == rows@.len());
            let room = max_lines - rows.len();
            let take = if h < room { h } else { room };
            let section = agent_field_rows(&pane.fields[active[j]], width, take);
            assert(lines_view(section@).len() == section@.len());
            proof {
                lemma_field_rows_len(pane.fields@[active@[j as int] as int], width, take);
            }
            let ghost before = rows@;
            let mut section = section;
            let ghost sv = section@;
            rows.append(&mut section);
            proof {
                assert(lines_view(rows@) =~= lines_view(before) + lines_view(sv));
                assert(lines_view(sv) == field_rows_spec(fs[active@[j as int] as int], width, take));
                assert(sections_fold(fs, active@, hs@, width, max_lines, gap, (j + 1) as nat) == spaced + field_rows_spec(
                    fs[active@[j as int] as int],
                    width,
                    take,
                ));
            }
            rendered += 1;
        } else {
            assert(sections_fold(fs, active@, hs@, width, max_lines, gap, (j + 1) as nat) == prev);
        }
        j += 1;
    }
    proof {
        let whole: int = total(desired@) + (n - 1);
        assert(with_gaps as int == (if whole > usize::MAX { usize::MAX as int } else { whole }));
        assert(lines_view(rows@) == field_column_spec(*pane, width, max_lines));
    }
    rows
}

proof fn lemma_field_rows_len(f: AgentFieldState, width: usize, max_lines: usize)
    ensures
        field_rows_spec(f, width, max_lines).len() <= max_lines,
{
    if max_lines > 1 {
        let body = agent_lines_spec(string_seqs(f.lines@), width);
        let n = (max_lines - 1) as nat;
        if body.len() > n {
            assert(body.take(n as int).drop_last().len() + 1 == n);
        }
    }
}

/// Whether some field of the pane shows lines.
pub open spec fn pane_has_content(pane: AgentPaneState) -> bool {
    exists|i: int| 0 <= i < pane.fields.len() && (#[trigger] pane.fields@[i])@.lines.len() > 0
}

/// The insight column in at most `max_lines` rows: the fields (see
/// `field_column_spec`), and the last error (at most four rows) at the
/// bottom, blank rows between, and one row kept free between them when
/// both show. Nothing when the pane is off.
pub open spec fn agent_column_spec(pane: AgentPaneState, width: usize, max_lines: usize) -> Seq<LineModel> {
    if max_lines == 0 || width == 0 || !pane.enabled {
        Seq::empty()
    } else {
        let errors = match pane.last_error {
            Some(m) => error_rows_spec(m@, width, if max_lines < 4 { max_lines } else { 4 }),
            None => Seq::empty(),
        };
        let separator: int = if errors.len() > 0 && pane_has_content(pane) { 1 } else { 0 };
        let used: int = errors.len() as int + separator;
        let field_max: usize = if used >= max_lines { 0 } else { (max_lines - used) as usize };
        let fields = field_column_spec(pane, width, field_max);
        if errors.len() > 0 {
            let filled: int = fields.len() as int + errors.len() as int;
            let padding: nat = if filled >= max_lines { 0 } else { (max_lines - filled) as nat };
            fields + Seq::new(padding, |k: int| seq![(""@, Tint::White)]) + errors
        } else {
            fields
        }
    }
}

/// The insight column; see `agent_column_spec`.
pub fn visible_agent_rows(pane: &AgentPaneState, width: usize, max_lines: usize) -> (r: Vec<StyledLine>)
    ensures
        lines_view(r@) == agent_column_spec(*pane, width, max_lines),
        r@.len() <= max_lines,
        (max_lines == 0 || width == 0 || !pane.enabled) ==> r@.len() == 0,
{
    if max_lines == 0 || width == 0 || !pane.enabled {
        let r: Vec<StyledLine> = Vec::new();
        assert(lines_view(r@) =~= Seq::<LineModel>::empty());
        return r;
    }
    let error_rows = match &pane.last_error {
        Some(message) => {
            let cap = if max_lines < 4 { max_lines } else { 4 };
            let e = agent_error_rows(message.as_str(), width, cap);
            proof {
                lemma_error_rows_len(message@, width, cap);
                assert(lines_view(e@).len() == e@.len());
            }
            e
        },
        None => Vec::new(),
    };
    let ghost errors = lines_view(error_rows@);
    assert(errors.len() == error_rows@.len());
    assert(pane.last_error is None ==> errors =~= Seq::<LineModel>::empty());
    let separator: usize = if error_rows.len() > 0 && pane.has_content() { 1 } else { 0 };
    let field_max = max_lines.saturating_sub(error_rows.len() + separator);
    let mut rows = visible_agent_field_rows(pane, width, field_max);
    let ghost fields = lines_view(rows@);
    assert(fields.len() == rows@.len());
    assert(error_rows@.len() <= max_lines);
    if error_rows.len() > 0 {
        let padding = max_lines.saturating_sub(rows.len() + error_rows.len());
        let rows0 = rows.len();
        assert(rows0 + error_rows@.len() <= max_lines);
        let mut p: usize = 0;
        while p < padding
            invariant
                p <= padding,
                rows@.len() == rows0 + p,
                rows0 + padding + error_rows@.len() <= max_lines,
                lines_view(rows@) == fields + Seq::new(p as nat, |k: int| seq![(""@, Tint::White)]),
            decreases padding - p,
        {
            let ghost before = rows@;
            let blank = crate::view::plain_str("", Tint::White);
            let ghost bv = line_view(blank);
            rows.push(blank);
            proof {
                assert(lines_view(rows@) =~= lines_view(before).push(bv));
                assert(bv == seq![(""@, Tint::White)]);
                assert(lines_view(rows@) =~= fields + Seq::new((p + 1) as nat, |k: int| seq![(""@, Tint::White)]));
            }
            p += 1;
        }
        let ghost padded = rows@;
        let mut e = error_rows;
        rows.append(&mut e);
        proof {
            assert(lines_view(rows@) =~= lines_view(padded) + errors);
        }
    }
    proof {
        assert(lines_view(rows@) == agent_column_spec(*pane, width, max_lines));
    }
    rows
}

proof fn lemma_error_rows_len(message: Seq<char>, width: usize, max_lines: usize)
    ensures
        error_rows_spec(message, width, max_lines).len() <= max_lines,
{
}

} // verus!
