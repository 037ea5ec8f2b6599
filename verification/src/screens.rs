//! Whole screens of the transcription product, row by row: the live
//! screen with its two columns, the settings screen and the token budget
//! prompt. Each row is fitted to the screen's usable width; drawing them is
//! the terminal's.
use vstd::prelude::*;

use crate::agent_view::{agent_column_spec, visible_agent_rows};
use crate::app_state::AppState;
use crate::layout::{fit_line, fit_spec};
use crate::transcript_view::{transcript_rows_spec, visible_transcript_rows, LineModel};
use crate::view::{
    agent_header_line, agent_header_spec, budget_prompt_spec, build_footer_line, combine_styled_columns, combined_spec,
    content_rows_spec, fitted_spec, footer_spec, line_view, lines_view, plain_line, plain_str, screen_columns_spec,
    settings_frame_spec, token_budget_prompt_rows, transcription_screen_columns, transcription_settings_content_rows,
    transcription_settings_frame, StyledLine, Tint,
};

verus! {

/// Row `i` of some rows, if there is one.
pub open spec fn opt_row(rows: Seq<LineModel>, i: int) -> Option<LineModel> {
    if 0 <= i < rows.len() { Some(rows[i]) } else { None }
}

fn row_at(rows: &Vec<StyledLine>, i: usize) -> (r: Option<&StyledLine>)
    ensures
        match r {
            Some(l) => opt_row(lines_view(rows@), i as int) == Some(line_view(*l)),
            None => opt_row(lines_view(rows@), i as int) is None,
        },
{
    if i < rows.len() {
        Some(&rows[i])
    } else {
        None
    }
}

fn fitted_line(line: Option<&StyledLine>, width: usize) -> (r: StyledLine)
    ensures
        line_view(r) == fitted_spec(
            match line {
                Some(l) => Some(line_view(*l)),
                None => None,
            },
            width as nat,
        ),
{
    let r = combine_styled_columns(line, width, 0, None, 0);
    proof {
        let lv = match line {
            Some(l) => Some(line_view(*l)),
            None => None,
        };
        assert(fitted_spec(None, 0) =~= Seq::<(Seq<char>, Tint)>::empty());
        assert(combined_spec(lv, width as nat, 0, None, 0) =~= fitted_spec(lv, width as nat));
    }
    r
}

/// A line of text fitted to `width`, in one colour.
pub open spec fn text_row(text: Seq<char>, width: nat, tint: Tint) -> LineModel {
    seq![(fit_spec(text, width), tint)]
}

fn text_line(text: &str, width: usize, tint: Tint) -> (r: StyledLine)
    ensures
        line_view(r) == text_row(text@, width as nat, tint),
{
    plain_line(fit_line(text, width), tint)
}

/// The live screen: the title over the transcript column and the insight
/// header over the insight column, a blank row, the two columns side by
/// side, and the footer at the bottom; at least 80 by 24.
pub open spec fn live_screen_spec(s: AppState, width: u16, height: u16) -> Seq<LineModel> {
    let (usable, left, right, body) = screen_columns_spec(width, height);
    let total: nat = if height < 24 { 24 } else { height as nat };
    let gap: nat = (usable - left - right) as nat;
    let transcript = transcript_rows_spec(s, left as usize, body as usize);
    let agent = agent_column_spec(s.agent, right as usize, body as usize);
    Seq::new(total, |r: int| if r == 0 {
        combined_spec(Some(seq![("Transcription"@, Tint::White)]), left, gap, Some(agent_header_spec(s.agent, right as usize)), right)
    } else if r == total - 1 {
        text_row(footer_spec(s.agent.request_count, s.agent.status@, s.status@), usable, Tint::DarkGrey)
    } else if r >= 2 {
        combined_spec(opt_row(transcript, r - 2), left, gap, opt_row(agent, r - 2), right)
    } else {
        combined_spec(None, left, gap, None, right)
    })
}

/// See `live_screen_spec`.
pub fn live_screen(s: &AppState, width: u16, height: u16) -> (r: Vec<StyledLine>)
    ensures
        lines_view(r@) == live_screen_spec(*s, width, height),
{
    let (usable, left, right, body) = transcription_screen_columns(width, height);
    let total: u16 = if height < 24 { 24 } else { height };
    let gap = usable - left - right;
    let transcript = visible_transcript_rows(s, left, body);
    let agent = visible_agent_rows(&s.agent, right, body);
    let header = agent_header_line(&s.agent, right);
    let title = plain_str("Transcription", Tint::White);
    let footer = build_footer_line(s);
    let ghost goal = live_screen_spec(*s, width, height);
    let mut out: Vec<StyledLine> = Vec::new();
    let mut row: u16 = 0;
    while row < total
        invariant
            row <= total,
            total as nat == (if height < 24 { 24 } else { height as nat }),
            goal == live_screen_spec(*s, width, height),
            goal.len() == total,
            (usable as nat, left as nat, right as nat, body as nat) == screen_columns_spec(width, height),
            gap == usable - left - right,
            lines_view(transcript@) == transcript_rows_spec(*s, left, body),
            lines_view(agent@) == agent_column_spec(s.agent, right, body),
            line_view(header) == agent_header_spec(s.agent, right),
            line_view(title) == seq![("Transcription"@, Tint::White)],
            footer@ == footer_spec(s.agent.request_count, s.agent.status@, s.status@),
            lines_view(out@) == goal.take(row as int),
        decreases total - row,
    {
        let line = if row == 0 {
            combine_styled_columns(Some(&title), left, gap, Some(&header), right)
        } else if row == total - 1 {
            text_line(footer.as_str(), usable, Tint::DarkGrey)
        } else if row >= 2 {
            combine_styled_columns(row_at(&transcript, (row - 2) as usize), left, gap, row_at(&agent, (row - 2) as usize), right)
        } else {
            combine_styled_columns(None, left, gap, None, right)
        };
        let ghost prev = out@;
        let ghost lv = line_view(line);
        out.push(line);
        proof {
            assert(lv == goal[row as int]);
            assert(lines_view(out@) =~= lines_view(prev).push(lv));
            assert(goal.take(row + 1) =~= goal.take(row as int).push(goal[row as int]));
        }
        row += 1;
    }
    proof {
        assert(goal.take(total as int) =~= goal);
    }
    out
}

/// The usable width of a full-width screen: all but the last column, and
/// at least one.
pub open spec fn usable_width(width: u16) -> nat {
    if width <= 1 { 1 } else { (width - 1) as nat }
}

/// The settings screen: the title with the rows shown, the content rows
/// from the scroll offset (kept within the machine word), and the keys at
/// the bottom.
pub open spec fn settings_screen_spec(s: AppState, width: u16, height: u16, monitor_available: bool) -> Seq<LineModel> {
    let usable = usable_width(width);
    let body: nat = if height < 2 { 0 } else { (height - 2) as nat };
    let rows = content_rows_spec(s, usable as usize, monitor_available);
    let max_scroll: nat = if rows.len() > body { (rows.len() - body) as nat } else { 0 };
    let wanted: nat = if s.transcription_settings.scroll_offset < max_scroll { s.transcription_settings.scroll_offset as nat } else { max_scroll };
    let offset: nat = if wanted < usize::MAX { wanted } else { (usize::MAX - 1) as nat };
    let (title, keys) = settings_frame_spec(rows.len() as usize, body as usize, offset as usize, max_scroll as usize, s.transcription_settings.confirm_close);
    Seq::new(height as nat, |r: int| if r == height - 1 {
        text_row(keys, usable, Tint::DarkGrey)
    } else if r == 0 {
        text_row(title, usable, Tint::White)
    } else {
        fitted_spec(opt_row(rows, offset + r - 1), usable)
    })
}

/// The settings screen; see `settings_screen_spec`.
pub fn settings_screen(s: &AppState, width: u16, height: u16, monitor_available: bool) -> (r: Vec<StyledLine>)
    ensures
        lines_view(r@) == settings_screen_spec(*s, width, height, monitor_available),
{
    let usable: usize = if width <= 1 { 1 } else { (width - 1) as usize };
    let body: usize = if height < 2 { 0 } else { (height - 2) as usize };
    let rows = transcription_settings_content_rows(s, usable, monitor_available);
    let max_scroll: usize = if rows.len() > body { rows.len() - body } else { 0 };
    let wanted: usize = if s.transcription_settings.scroll_offset < max_scroll { s.transcription_settings.scroll_offset } else { max_scroll };
    let offset: usize = if wanted < usize::MAX { wanted } else { usize::MAX - 1 };
    assert(lines_view(rows@).len() == rows@.len());
    let (title, keys) = transcription_settings_frame(rows.len(), body, offset, max_scroll, s.transcription_settings.confirm_close);
    let ghost goal = settings_screen_spec(*s, width, height, monitor_available);
    let mut out: Vec<StyledLine> = Vec::new();
    let mut row: u16 = 0;
    while row < height
        invariant
            row <= height,
            goal == settings_screen_spec(*s, width, height, monitor_available),
            goal.len() == height,
            usable as nat == usable_width(width),
            lines_view(rows@) == content_rows_spec(*s, usable, monitor_available),
            offset <= max_scroll <= rows@.len(),
            max_scroll as nat == (if rows@.len() > body { (rows@.len() - body) as nat } else { 0 }),
            body as nat == (if height < 2 { 0 } else { (height - 2) as nat }),
            wanted as nat == (if s.transcription_settings.scroll_offset < max_scroll { s.transcription_settings.scroll_offset as nat } else { max_scroll as nat }),
            offset as nat == (if wanted < usize::MAX { wanted as nat } else { (usize::MAX - 1) as nat }),
            (title@, keys@) == settings_frame_spec(rows@.len() as usize, body, offset, max_scroll, s.transcription_settings.confirm_close),
            lines_view(out@) == goal.take(row as int),
        decreases height - row,
    {
        let line = if row == height - 1 {
            text_line(keys, usable, Tint::DarkGrey)
        } else if row == 0 {
            text_line(title.as_str(), usable, Tint::White)
        } else {
            let i: usize = if (row as usize - 1) < rows.len() - offset { offset + (row as usize - 1) } else { rows.len() };
            fitted_line(row_at(&rows, i), usable)
        };
        let ghost prev = out@;
        let ghost lv = line_view(line);
        out.push(line);
        proof {
            assert(lv == goal[row as int]);
            assert(lines_view(out@) =~= lines_view(prev).push(lv));
            assert(goal.take(row + 1) =~= goal.take(row as int).push(goal[row as int]));
        }
        row += 1;
    }
    proof {
        assert(goal.take(height as int) =~= goal);
    }
    out
}

/// The token budget prompt: its rows, and the keys at the bottom.
pub open spec fn budget_screen_spec(s: AppState, width: u16, height: u16) -> Seq<LineModel> {
    let usable = usable_width(width);
    let rows = budget_prompt_spec(s, usable as usize);
    Seq::new(height as nat, |r: int| if r == height - 1 {
        text_row("Enter/Y/C continue | N/Esc keep API paused | Ctrl+C exits"@, usable, Tint::DarkGrey)
    } else {
        fitted_spec(opt_row(rows, r), usable)
    })
}

/// The token budget prompt; see `budget_screen_spec`.
pub fn budget_screen(s: &AppState, width: u16, height: u16) -> (r: Vec<StyledLine>)
    ensures
        lines_view(r@) == budget_screen_spec(*s, width, height),
{
    let usable: usize = if width <= 1 { 1 } else { (width - 1) as usize };
    let rows = token_budget_prompt_rows(s, usable);
    let ghost goal = budget_screen_spec(*s, width, height);
    let mut out: Vec<StyledLine> = Vec::new();
    let mut row: u16 = 0;
    while row < height
        invariant
            row <= height,
            goal == budget_screen_spec(*s, width, height),
            goal.len() == height,
            usable as nat == usable_width(width),
            lines_view(rows@) == budget_prompt_spec(*s, usable),
            lines_view(out@) == goal.take(row as int),
        decreases height - row,
    {
        let line = if row == height - 1 {
            text_line("Enter/Y/C continue | N/Esc keep API paused | Ctrl+C exits", usable, Tint::DarkGrey)
        } else {
            fitted_line(row_at(&rows, row as usize), usable)
        };
        let ghost prev = out@;
        let ghost lv = line_view(line);
        out.push(line);
        proof {
            assert(lv == goal[row as int]);
            assert(lines_view(out@) =~= lines_view(prev).push(lv));
            assert(goal.take(row + 1) =~= goal.take(row as int).push(goal[row as int]));
        }
        row += 1;
    }
    proof {
        assert(goal.take(height as int) =~= goal);
    }
    out
}

} // verus!
