//! What the small typing window shows: the draft or its settings, with a
//! status line, and the window size that fits them.
use vstd::prelude::*;

use crate::layout::{desired_width, string_seqs, widest_status_line, window_width, wrap_plain_spec, TYPING_MAX_HEIGHT, TYPING_MIN_WIDTH};
use crate::numbers::decimal;
use crate::panes::MarkerColor;
use crate::settings::opt_text;
use crate::text::{chars_of, string_of};
use crate::typing_pane::{display_text_spec, TypingPaneState};
use crate::view::{line_view, lines_view, one_line, plain_rows, typing_help_spec, StyledLine, StyledSegment, Tint};
use crate::modes::{speed_preset_spec, transparency_preset_spec};

verus! {

/// Rows of the typing window at least.
pub const TYPING_MIN_HEIGHT: u16 = 2;

/// Rows of the typing settings window at most.
pub const TYPING_SETTINGS_MAX_HEIGHT: u16 = 18;

/// The colour of the draft.
pub open spec fn draft_tint() -> Tint {
    Tint::Rgb(210, 245, 255)
}

/// The width of a line in columns.
pub open spec fn line_width(l: Seq<(Seq<char>, Tint)>) -> nat
    decreases l.len(),
{
    if l.len() == 0 { 0 } else { line_width(l.drop_last()) + l.last().0.len() }
}

/// The widest of some lines.
pub open spec fn widest(ls: Seq<Seq<(Seq<char>, Tint)>>) -> nat
    decreases ls.len(),
{
    if ls.len() == 0 {
        0
    } else {
        let w = widest(ls.drop_last());
        let x = capped_width(ls.last());
        if x > w { x } else { w }
    }
}

/// The width of a line, or `usize::MAX` when it is wider.
pub open spec fn capped_width(l: Seq<(Seq<char>, Tint)>) -> nat {
    if line_width(l) > usize::MAX { usize::MAX as nat } else { line_width(l) }
}

/// The width of a line; see `capped_width`.
pub fn styled_line_width(line: &StyledLine) -> (r: usize)
    ensures
        r == capped_width(line_view(*line)),
{
    let ghost lv = line_view(*line);
    let mut total: usize = 0;
    let mut i: usize = 0;
    while i < line.segments.len()
        invariant
            i <= line.segments.len(),
            lv == line_view(*line),
            total == capped_width(lv.take(i as int)),
        decreases line.segments.len() - i,
    {
        proof {
            assert(lv.take(i + 1).drop_last() =~= lv.take(i as int));
        }
        let n = chars_of(line.segments[i].text.as_str()).len();
        total = total.saturating_add(n);
        i += 1;
    }
    proof {
        assert(lv.take(line.segments.len() as int) =~= lv);
    }
    total
}

/// The state marker of the typing pane and its colour.
pub open spec fn marker_spec(t: TypingPaneState) -> (Seq<char>, Tint) {
    if t.settings_open || !t.terminal_focused {
        ("\u{25cf} hold."@, Tint::Yellow)
    } else if t.request_in_flight {
        ("\u{25cf} thinking..."@, Tint::Red)
    } else if t.microphone_active {
        ("\u{25cf} listening..."@, Tint::Cyan)
    } else {
        ("\u{25cf} hold."@, Tint::Yellow)
    }
}

/// The status line of the typing window: its keys, the request count and
/// the state marker.
pub open spec fn typing_status_spec(t: TypingPaneState) -> Seq<(Seq<char>, Tint)> {
    seq![
        ("F1 Flush/Show"@, Tint::DarkGrey),
        (" | "@, Tint::DarkGrey),
        ("Esc Clear"@, Tint::DarkGrey),
        (" | "@, Tint::DarkGrey),
        ("F9 Settings"@, Tint::DarkGrey),
        (" | "@, Tint::DarkGrey),
        ("requests "@ + decimal(t.request_count as nat), Tint::DarkGrey),
        (" | "@, Tint::DarkGrey),
        marker_spec(t),
    ]
}

fn segment(text: &str, tint: Tint) -> (r: StyledSegment)
    ensures
        r.text@ == text@,
        r.tint == tint,
{
    StyledSegment { text: string_of(&chars_of(text)), tint }
}

/// The status line of the typing window; see `typing_status_spec`.
pub fn build_short_typing_status(t: &TypingPaneState) -> (r: StyledLine)
    ensures
        line_view(r) == typing_status_spec(*t),
{
    let (marker, color) = t.state_marker();
    let mut count = chars_of("requests ");
    crate::text::append_chars(&mut count, &crate::numbers::decimal_chars(t.request_count));
    let tint = match color {
        MarkerColor::Red => Tint::Red,
        MarkerColor::Yellow => Tint::Yellow,
        MarkerColor::Cyan => Tint::Cyan,
    };
    let segments = vec![
        segment("F1 Flush/Show", Tint::DarkGrey),
        segment(" | ", Tint::DarkGrey),
        segment("Esc Clear", Tint::DarkGrey),
        segment(" | ", Tint::DarkGrey),
        segment("F9 Settings", Tint::DarkGrey),
        segment(" | ", Tint::DarkGrey),
        StyledSegment { text: string_of(&count), tint: Tint::DarkGrey },
        segment(" | ", Tint::DarkGrey),
        segment(marker, tint),
    ];
    let r = StyledLine { segments };
    proof {
        assert(line_view(r) =~= typing_status_spec(*t));
    }
    r
}

/// What the typing window shows and how large it should be.
pub struct TypingLayout {
    pub width: u16,
    pub content_width: u16,
    pub height: u16,
    pub visible_lines: Vec<StyledLine>,
    pub status: StyledLine,
}

/// A row count plus the status row, as the window takes it (modulo the
/// range of `u16`), within `min..=max`.
pub open spec fn window_rows(n: nat, min: u16, max: u16) -> u16 {
    let h = ((n + 1) % 65536) as u16;
    if h < min { min } else if h > max { max } else { h }
}

fn window_rows_exec(n: usize, min: u16, max: u16) -> (r: u16)
    requires
        min <= max,
    ensures
        r == window_rows(n as nat, min, max),
{
    let h: u16 = ((n as u128 + 1) % 65536) as u16;
    if h < min { min } else if h > max { max } else { h }
}

/// The text width of the draft view: the draft's widest line, at least the
/// status line (and its widest form), at most `max_content_width`.
pub open spec fn draft_width(t: TypingPaneState, max_content_width: usize) -> u16 {
    let sw = capped_width(typing_status_spec(t));
    let minimum = if sw > widest_status_line().len() { sw } else { widest_status_line().len() };
    desired_width(display_text_spec(t), minimum as int, max_content_width as int) as u16
}

/// The rows of the draft that show: at most `max_body_rows - 1` (at least
/// one), from the scroll offset, clamped so that the last rows can show.
pub open spec fn draft_rows(t: TypingPaneState, max_content_width: usize, max_body_rows: usize) -> Seq<Seq<char>> {
    let wrapped = wrap_plain_spec(display_text_spec(t), draft_width(t, max_content_width) as nat);
    let capacity: int = if max_body_rows <= 1 { 1 } else { max_body_rows - 1 };
    let visible: int = if wrapped.len() < capacity { wrapped.len() as int } else { capacity };
    let visible1: int = if visible < 1 { 1 } else { visible };
    let max_offset: int = if wrapped.len() >= visible1 { wrapped.len() - visible1 } else { 0 };
    let offset: int = if t.scroll_offset <= max_offset { t.scroll_offset as int } else { max_offset };
    let end: int = if offset + visible1 <= wrapped.len() { offset + visible1 } else { wrapped.len() as int };
    wrapped.subrange(offset, end)
}

/// The draft view: the rows that show, a blank row below when there is
/// room, and the status line.
pub open spec fn typing_layout_spec(t: TypingPaneState, max_content_width: usize, max_body_rows: usize, l: TypingLayout) -> bool {
    let rows = plain_rows(draft_rows(t, max_content_width, max_body_rows), draft_tint());
    let lines = if rows.len() < max_body_rows { rows + one_line(""@, Tint::White) } else { rows };
    &&& l.content_width == draft_width(t, max_content_width)
    &&& l.width == window_width(l.content_width as int) as u16
    &&& lines_view(l.visible_lines@) == lines
    &&& l.height == window_rows(lines.len(), TYPING_MIN_HEIGHT, TYPING_MAX_HEIGHT)
    &&& line_view(l.status) == typing_status_spec(t)
}

/// The draft view; see `typing_layout_spec`.
#[verifier::spinoff_prover]
pub fn typing_layout(t: &TypingPaneState, max_content_width: usize, max_body_rows: usize) -> (r: TypingLayout)
    ensures
        typing_layout_spec(*t, max_content_width, max_body_rows, r),
{
    let text = crate::typing_pane::typing_display_text(t);
    let status = build_short_typing_status(t);
    let sw = styled_line_width(&status);
    let least = crate::layout::min_typing_status_width();
    let minimum = if sw > least { sw } else { least };
    let content_width = crate::layout::typing_desired_width(text.as_str(), minimum, max_content_width);
    let wrapped = crate::layout::wrap_plain_text(text.as_str(), content_width as usize);
    let capacity: usize = if max_body_rows <= 1 { 1 } else { max_body_rows - 1 };
    let visible: usize = if wrapped.len() < capacity { wrapped.len() } else { capacity };
    let visible1: usize = if visible < 1 { 1 } else { visible };
    let max_offset: usize = if wrapped.len() >= visible1 { wrapped.len() - visible1 } else { 0 };
    let offset: usize = if t.scroll_offset <= max_offset { t.scroll_offset } else { max_offset };
    let end: usize = if offset as u128 + visible1 as u128 <= wrapped.len() as u128 { offset + visible1 } else { wrapped.len() };
    let ghost ws = string_seqs(wrapped@);
    let mut lines: Vec<StyledLine> = Vec::new();
    let mut i: usize = offset;
    while i < end
        invariant
            offset <= i <= end <= wrapped.len(),
            ws == string_seqs(wrapped@),
            lines_view(lines@) == plain_rows(ws.subrange(offset as int, i as int), Tint::Rgb(210, 245, 255)),
        decreases end - i,
    {
        let line = crate::view::plain_line(wrapped[i].clone(), Tint::Rgb(210, 245, 255));
        let ghost prev = lines@;
        let ghost lv = line_view(line);
        lines.push(line);
        proof {
            assert(lines_view(lines@) =~= lines_view(prev).push(lv));
            assert(ws.subrange(offset as int, i + 1) =~= ws.subrange(offset as int, i as int).push(wrapped@[i as int]@));
            assert(plain_rows(ws.subrange(offset as int, i + 1), Tint::Rgb(210, 245, 255)) =~= plain_rows(
                ws.subrange(offset as int, i as int),
                Tint::Rgb(210, 245, 255),
            ).push(seq![(wrapped@[i as int]@, Tint::Rgb(210, 245, 255))]));
        }
        i += 1;
    }
    let ghost rows_spec = plain_rows(draft_rows(*t, max_content_width, max_body_rows), draft_tint());
    assert(ws.subrange(offset as int, end as int) == draft_rows(*t, max_content_width, max_body_rows)) by {
        assert(content_width == draft_width(*t, max_content_width));
    }
    assert(lines_view(lines@) == rows_spec);
    assert(lines@.len() == rows_spec.len());
    if lines.len() < max_body_rows {
        let blank = crate::view::plain_str("", Tint::White);
        let ghost prev = lines@;
        let ghost lv = line_view(blank);
        lines.push(blank);
        proof {
            assert(lines_view(lines@) =~= lines_view(prev).push(lv));
        }
    }
    let ghost all = if rows_spec.len() < max_body_rows { rows_spec + one_line(""@, Tint::White) } else { rows_spec };
    assert(lines_view(lines@) =~= all);
    assert(lines@.len() == all.len());
    let height = window_rows_exec(lines.len(), TYPING_MIN_HEIGHT, TYPING_MAX_HEIGHT);
    let width = crate::layout::typing_window_width(content_width);
    TypingLayout { width, content_width, height, visible_lines: lines, status }
}

/// The lowest the draft view scrolls: as many rows as do not fit in the
/// largest window.
pub open spec fn max_scroll_spec(t: TypingPaneState) -> nat {
    let width = desired_width(display_text_spec(t), capped_width(typing_status_spec(t)) as int, 72) as u16;
    let wrapped = wrap_plain_spec(display_text_spec(t), width as nat);
    let visible: nat = if wrapped.len() < 9 { wrapped.len() } else { 9 };
    let visible1: nat = if visible < 1 { 1 } else { visible };
    if wrapped.len() >= visible1 { (wrapped.len() - visible1) as nat } else { 0 }
}

/// The lowest the draft view scrolls; see `max_scroll_spec`.
pub fn typing_max_scroll_offset(t: &TypingPaneState) -> (r: usize)
    ensures
        r == max_scroll_spec(*t),
{
    let text = crate::typing_pane::typing_display_text(t);
    let status = build_short_typing_status(t);
    let width = crate::layout::typing_desired_width(text.as_str(), styled_line_width(&status), 72);
    let wrapped = crate::layout::wrap_plain_text(text.as_str(), width as usize);
    let visible: usize = if wrapped.len() < 9 { wrapped.len() } else { 9 };
    let visible1: usize = if visible < 1 { 1 } else { visible };
    if wrapped.len() >= visible1 { wrapped.len() - visible1 } else { 0 }
}

/// What the intelligence row says.
pub open spec fn intelligence_value(t: TypingPaneState) -> Seq<char> {
    if !t.intelligence_available { "unavailable"@ } else if t.intelligence_enabled { "on"@ } else { "off"@ }
}

/// The name of a flush mode.
pub open spec fn flush_mode_name(m: crate::modes::TypingFlushMode) -> Seq<char> {
    match m {
        crate::modes::TypingFlushMode::Clipboard => "clipboard"@,
        crate::modes::TypingFlushMode::Type => "type"@,
        crate::modes::TypingFlushMode::Discard => "discard"@,
    }
}

/// The name of a capture source.
pub open spec fn source_name(s: crate::modes::SourceKind) -> Seq<char> {
    match s {
        crate::modes::SourceKind::Microphone => "Microphone"@,
        crate::modes::SourceKind::SystemOutput => "System output"@,
    }
}

/// The label and value of a row of the typing settings.
pub open spec fn typing_setting_row(t: TypingPaneState, i: int) -> (Seq<char>, Seq<char>) {
    if i == 0 {
        ("Intelligence"@, intelligence_value(t))
    } else if i == 1 {
        ("Flush mode"@, flush_mode_name(t.flush_mode))
    } else if i == 2 {
        ("Typing speed"@, speed_preset_spec(t.typing_speed_index as int).0)
    } else if i == 3 {
        ("Input"@, source_name(t.input_source))
    } else if i == 4 {
        ("Transparency"@, transparency_preset_spec(t.transparency_index as int).0)
    } else {
        ("Refiner model"@, t.refiner_model@)
    }
}

/// The lines of the typing settings view, with the name of the Whisper
/// model file and whether CUDA runs it, wrapped at `max_content_width`.
pub open spec fn settings_lines_spec(t: TypingPaneState, whisper_model: Seq<char>, cuda: bool, max_content_width: usize) -> Seq<Seq<(Seq<char>, Tint)>> {
    let w = crate::view::at_least_one(max_content_width);
    one_line("Settings"@, draft_tint()) + Seq::new(6, |i: int| {
        let (label, value) = typing_setting_row(t, i);
        let selected = i == t.settings_selection;
        seq![((if selected { "> "@ } else { "  "@ }) + label + ": "@ + value, if selected { Tint::Cyan } else { Tint::DarkGrey })]
    }) + one_line("  Whisper: "@ + whisper_model, Tint::DarkGrey) + one_line(
        "  Backend: "@ + (if cuda { "CUDA"@ } else { "CPU"@ }),
        Tint::DarkGrey,
    ) + one_line(""@, Tint::White) + one_line("Selected setting"@, Tint::Yellow) + plain_rows(
        wrap_plain_spec(typing_help_spec(t.settings_selection as int), w),
        Tint::DarkGrey,
    ) + (match opt_text(t.settings_load_error) {
        Some(e) => one_line(""@, Tint::White) + one_line("Settings error"@, Tint::Red) + plain_rows(wrap_plain_spec(e, w), Tint::Red)
            + one_line("Press Enter or A to apply the safe values without another change."@, Tint::Yellow),
        None => Seq::empty(),
    }) + (match opt_text(t.settings_note) {
        Some(n) => one_line("  "@ + n, Tint::Rgb(190, 190, 190)),
        None => Seq::empty(),
    }) + one_line("\u{2191}/\u{2193} select | \u{2190}/\u{2192} change | Esc closes"@, Tint::DarkGrey)
}

/// The settings view: its lines, the status line, a width that fits the
/// widest of them (at least the minimum, at most `max_content_width`) and
/// a height that fits the lines.
pub open spec fn settings_layout_spec(t: TypingPaneState, whisper_model: Seq<char>, cuda: bool, max_content_width: usize, l: TypingLayout) -> bool {
    let lines = settings_lines_spec(t, whisper_model, cuda, max_content_width);
    let wide = widest(lines.push(typing_status_spec(t)));
    let least = if wide > TYPING_MIN_WIDTH { wide } else { TYPING_MIN_WIDTH as nat };
    let cap = crate::view::at_least_one(max_content_width);
    &&& lines_view(l.visible_lines@) == lines
    &&& line_view(l.status) == typing_status_spec(t)
    &&& l.content_width == (if least < cap { least } else { cap }) as u16
    &&& l.width == window_width(l.content_width as int) as u16
    &&& l.height == window_rows(lines.len(), TYPING_MIN_HEIGHT, TYPING_SETTINGS_MAX_HEIGHT)
}

fn push_plain(lines: &mut Vec<StyledLine>, text: Vec<char>, tint: Tint)
    ensures
        lines_view(final(lines)@) == lines_view(old(lines)@) + one_line(text@, tint),
{
    let line = crate::view::plain_line(string_of(&text), tint);
    let ghost lv = line_view(line);
    lines.push(line);
    assert(lines_view(lines@) =~= lines_view(old(lines)@) + one_line(text@, tint));
}

fn push_wrapped(lines: &mut Vec<StyledLine>, text: &str, width: usize, tint: Tint)
    requires
        width > 0,
    ensures
        lines_view(final(lines)@) == lines_view(old(lines)@) + plain_rows(wrap_plain_spec(text@, width as nat), tint),
{
    let rows = crate::layout::wrap_plain_text(text, width);
    let ghost start = lines_view(lines@);
    let mut i: usize = 0;
    while i < rows.len()
        invariant
            i <= rows.len(),
            string_seqs(rows@) == wrap_plain_spec(text@, width as nat),
            lines_view(lines@) == start + plain_rows(string_seqs(rows@).take(i as int), tint),
        decreases rows.len() - i,
    {
        push_plain(lines, chars_of(rows[i].as_str()), tint);
        proof {
            assert(string_seqs(rows@).take(i + 1) =~= string_seqs(rows@).take(i as int).push(rows@[i as int]@));
            assert(plain_rows(string_seqs(rows@).take(i + 1), tint) =~= plain_rows(string_seqs(rows@).take(i as int), tint) + one_line(
                rows@[i as int]@,
                tint,
            ));
        }
        i += 1;
    }
    proof {
        assert(string_seqs(rows@).take(rows.len() as int) =~= string_seqs(rows@));
    }
}

fn widest_exec(lines: &Vec<StyledLine>) -> (r: usize)
    ensures
        r == widest(lines_view(lines@)),
{
    let ghost lv = lines_view(lines@);
    let mut best: usize = 0;
    let mut i: usize = 0;
    while i < lines.len()
        invariant
            i <= lines.len(),
            lv == lines_view(lines@),
            best == widest(lv.take(i as int)),
        decreases lines.len() - i,
    {
        proof {
            assert(lv.take(i + 1).drop_last() =~= lv.take(i as int));
        }
        let w = styled_line_width(&lines[i]);
        if w > best {
            best = w;
        }
        i += 1;
    }
    proof {
        assert(lv.take(lines.len() as int) =~= lv);
    }
    best
}

/// The settings view; see `settings_layout_spec`.
#[verifier::spinoff_prover]
#[verifier::rlimit(40)]
pub fn typing_settings_layout(t: &TypingPaneState, whisper_model: &str, cuda_enabled: bool, max_content_width: usize) -> (r: TypingLayout)
    requires
        t.wf(),
    ensures
        settings_layout_spec(*t, whisper_model@, cuda_enabled, max_content_width, r),
{
    let w = if max_content_width == 0 { 1 } else { max_content_width };
    let mut lines: Vec<StyledLine> = Vec::new();
    push_plain(&mut lines, chars_of("Settings"), Tint::Rgb(210, 245, 255));
    let ghost head = lines_view(lines@);
    let mut i: usize = 0;
    while i < 6
        invariant
            i <= 6,
            t.wf(),
            lines_view(lines@) == head + Seq::new(i as nat, |k: int| {
                let (label, value) = typing_setting_row(*t, k);
                let selected = k == t.settings_selection;
                seq![((if selected { "> "@ } else { "  "@ }) + label + ": "@ + value, if selected { Tint::Cyan } else { Tint::DarkGrey })]
            }),
        decreases 6 - i,
    {
        let (label, value): (&str, Vec<char>) = if i == 0 {
            ("Intelligence", if !t.intelligence_available {
                chars_of("unavailable")
            } else if t.intelligence_enabled {
                chars_of("on")
            } else {
                chars_of("off")
            })
        } else if i == 1 {
            ("Flush mode", chars_of(t.flush_mode.display_name()))
        } else if i == 2 {
            ("Typing speed", chars_of(t.typing_speed_label()))
        } else if i == 3 {
            ("Input", chars_of(t.input_source.display_name()))
        } else if i == 4 {
            ("Transparency", chars_of(t.transparency_label()))
        } else {
            ("Refiner model", chars_of(t.refiner_model.as_str()))
        };
        let selected = i == t.settings_selection;
        let mut text = if selected { chars_of("> ") } else { chars_of("  ") };
        crate::text::append_chars(&mut text, &chars_of(label));
        crate::text::append_chars(&mut text, &chars_of(": "));
        crate::text::append_chars(&mut text, &value);
        let ghost before = lines_view(lines@);
        push_plain(&mut lines, text, if selected { Tint::Cyan } else { Tint::DarkGrey });
        proof {
            assert((label@, value@) == typing_setting_row(*t, i as int));
            assert(lines_view(lines@) =~= head + Seq::new((i + 1) as nat, |k: int| {
                let (label, value) = typing_setting_row(*t, k);
                let selected = k == t.settings_selection;
                seq![((if selected { "> "@ } else { "  "@ }) + label + ": "@ + value, if selected { Tint::Cyan } else { Tint::DarkGrey })]
            }));
        }
        i += 1;
    }
    let mut whisper = chars_of("  Whisper: ");
    crate::text::append_chars(&mut whisper, &chars_of(whisper_model));
    push_plain(&mut lines, whisper, Tint::DarkGrey);
    let mut backend = chars_of("  Backend: ");
    crate::text::append_chars(&mut backend, &chars_of(if cuda_enabled { "CUDA" } else { "CPU" }));
    push_plain(&mut lines, backend, Tint::DarkGrey);
    push_plain(&mut lines, chars_of(""), Tint::White);
    push_plain(&mut lines, chars_of("Selected setting"), Tint::Yellow);
    push_wrapped(&mut lines, crate::view::typing_setting_help(t.settings_selection), w, Tint::DarkGrey);
    let ghost before_error = lines_view(lines@);
    match &t.settings_load_error {
        Some(e) => {
            push_plain(&mut lines, chars_of(""), Tint::White);
            push_plain(&mut lines, chars_of("Settings error"), Tint::Red);
            push_wrapped(&mut lines, e.as_str(), w, Tint::Red);
            push_plain(&mut lines, chars_of("Press Enter or A to apply the safe values without another change."), Tint::Yellow);
        },
        None => {},
    }
    let ghost before_note = lines_view(lines@);
    match &t.settings_note {
        Some(n) => {
            let mut text = chars_of("  ");
            crate::text::append_chars(&mut text, &chars_of(n.as_str()));
            push_plain(&mut lines, text, Tint::Rgb(190, 190, 190));
        },
        None => {},
    }
    push_plain(&mut lines, chars_of("\u{2191}/\u{2193} select | \u{2190}/\u{2192} change | Esc closes"), Tint::DarkGrey);
    let ghost all = lines_view(lines@);
    proof {
        assert(all =~= settings_lines_spec(*t, whisper_model@, cuda_enabled, max_content_width));
    }
    let status = build_short_typing_status(t);
    let n = lines.len();
    let mut with_status = lines;
    let ghost sv = line_view(status);
    with_status.push(status);
    proof {
        assert(lines_view(with_status@) =~= all.push(sv));
    }
    let wide = widest_exec(&with_status);
    let status = match with_status.pop() {
        Some(s) => s,
        None => build_short_typing_status(t),
    };
    proof {
        assert(lines_view(with_status@) =~= all);
    }
    let least = if wide > TYPING_MIN_WIDTH as usize { wide } else { TYPING_MIN_WIDTH as usize };
    let content_width = (if least < w { least } else { w }) as u16;
    let height = window_rows_exec(n, TYPING_MIN_HEIGHT, TYPING_SETTINGS_MAX_HEIGHT);
    let width = crate::layout::typing_window_width(content_width);
    TypingLayout { width, content_width, height, visible_lines: with_status, status }
}

} // verus!
