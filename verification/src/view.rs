//! What the screens show, as lines of tinted text: the settings screens,
//! their explanations and choices, and the status lines. Drawing the lines
//! on the terminal, and turning a fading tint into a colour, is left to the
//! caller.
use vstd::prelude::*;

use crate::layout::{string_seqs, wrap_line_spec, lines_of};
use crate::modes::{ContextStrictness, SourceKind, TranscriptionAnswerMode, transparency_preset_spec, TYPING_TRANSPARENCY_PRESET_COUNT};
use crate::layout::{wrap_plain_spec, fragment_spec, spaces};
use crate::errors::{error_entry_text, AppErrorEntry};
use crate::settings::restart_differs;
use crate::choices::{language_choices, model_id_choices};
use crate::numbers::decimal;
use crate::screen::{language_or_auto, model_choices_spec, TranscriptionSettingsState};
use crate::settings::opt_text;
use crate::text::{chars_of, lower_seq, seqs, string_of, trim};

verus! {

/// The colour of a piece of text.
#[derive(Clone, Copy, Debug, PartialEq, Eq, Structural)]
pub enum Tint {
    White,
    DarkGrey,
    Yellow,
    Cyan,
    Red,
    Green,
    Rgb(u8, u8, u8),
    /// A colour that fades from `(r, g, b)` with the age of the text, which
    /// was first seen at `since_ms`.
    Fading { r: u8, g: u8, b: u8, since_ms: u64 },
}

/// A piece of text in one colour.
pub struct StyledSegment {
    pub text: String,
    pub tint: Tint,
}

/// A screen line: pieces of text side by side.
pub struct StyledLine {
    pub segments: Vec<StyledSegment>,
}

/// A piece of text as plain values.
pub open spec fn segment_view(s: StyledSegment) -> (Seq<char>, Tint) {
    (s.text@, s.tint)
}

/// A line as plain values.
pub open spec fn line_view(l: StyledLine) -> Seq<(Seq<char>, Tint)> {
    l.segments@.map_values(|s: StyledSegment| segment_view(s))
}

/// Lines as plain values.
pub open spec fn lines_view(ls: Seq<StyledLine>) -> Seq<Seq<(Seq<char>, Tint)>> {
    ls.map_values(|l: StyledLine| line_view(l))
}

/// Rows of text in one colour, one piece each.
pub open spec fn plain_rows(rows: Seq<Seq<char>>, tint: Tint) -> Seq<Seq<(Seq<char>, Tint)>> {
    rows.map_values(|r: Seq<char>| seq![(r, tint)])
}

/// A line of one piece.
pub fn plain_line(text: String, tint: Tint) -> (r: StyledLine)
    ensures
        line_view(r) == seq![(text@, tint)],
{
    let segments = vec![StyledSegment { text, tint }];
    let r = StyledLine { segments };
    proof {
        assert(line_view(r) =~= seq![(r.segments@[0].text@, tint)]);
    }
    r
}

/// A line of one piece of literal text.
pub fn plain_str(text: &str, tint: Tint) -> (r: StyledLine)
    ensures
        line_view(r) == seq![(text@, tint)],
{
    plain_line(string_of(&chars_of(text)), tint)
}

/// `on` or `off`.
pub open spec fn on_off_spec(value: bool) -> Seq<char> {
    if value { "on"@ } else { "off"@ }
}

/// `on` or `off`; see `on_off_spec`.
pub fn on_off(value: bool) -> (r: &'static str)
    ensures
        r@ == on_off_spec(value),
{
    if value { "on" } else { "off" }
}

/// The grace period before requests pause while hidden, or `off`.
pub open spec fn hidden_pause_spec(enabled: bool, seconds: u64) -> Seq<char> {
    if enabled { "after "@ + decimal(seconds as nat) + "s"@ } else { "off"@ }
}

/// See `hidden_pause_spec`.
pub fn hidden_pause_text(enabled: bool, seconds: u64) -> (r: String)
    ensures
        r@ == hidden_pause_spec(enabled, seconds),
{
    if enabled {
        let mut out = chars_of("after ");
        crate::text::append_chars(&mut out, &crate::numbers::decimal_chars(seconds));
        crate::text::append_chars(&mut out, &chars_of("s"));
        string_of(&out)
    } else {
        string_of(&chars_of("off"))
    }
}

/// A number of minutes, or `off` for none.
pub open spec fn minutes_spec(minutes: u64) -> Seq<char> {
    if minutes == 0 { "off"@ } else { decimal(minutes as nat) + "m"@ }
}

/// See `minutes_spec`.
pub fn minutes_text(minutes: u64) -> (r: String)
    ensures
        r@ == minutes_spec(minutes),
{
    if minutes == 0 {
        string_of(&chars_of("off"))
    } else {
        let mut out = crate::numbers::decimal_chars(minutes);
        crate::text::append_chars(&mut out, &chars_of("m"));
        string_of(&out)
    }
}

/// A token budget in thousands, or `off` for none.
pub open spec fn token_budget_spec(tokens: u64) -> Seq<char> {
    if tokens == 0 { "off"@ } else { decimal((tokens / 1000) as nat) + "k"@ }
}

/// See `token_budget_spec`.
pub fn token_budget_text(tokens: u64) -> (r: String)
    ensures
        r@ == token_budget_spec(tokens),
{
    if tokens == 0 {
        string_of(&chars_of("off"))
    } else {
        let mut out = crate::numbers::decimal_chars(tokens / 1000);
        crate::text::append_chars(&mut out, &chars_of("k"));
        string_of(&out)
    }
}

/// The capture sources in words.
pub open spec fn sources_text_spec(s: Seq<SourceKind>) -> Seq<char> {
    if s == seq![SourceKind::Microphone, SourceKind::SystemOutput] || s == seq![SourceKind::SystemOutput, SourceKind::Microphone] {
        "Microphone + system output"@
    } else if s == seq![SourceKind::Microphone] {
        "Microphone"@
    } else if s == seq![SourceKind::SystemOutput] {
        "System output"@
    } else {
        "None"@
    }
}

/// See `sources_text_spec`.
pub fn transcription_sources_text(sources: &Vec<SourceKind>) -> (r: String)
    ensures
        r@ == sources_text_spec(sources@),
{
    let text = if sources.len() == 2 && sources[0] != sources[1] {
        proof {
            assert(sources@ =~= seq![sources@[0], sources@[1]]);
        }
        "Microphone + system output"
    } else if sources.len() == 1 && sources[0] == SourceKind::Microphone {
        proof {
            assert(sources@ =~= seq![SourceKind::Microphone]);
        }
        "Microphone"
    } else if sources.len() == 1 {
        proof {
            assert(sources@ =~= seq![SourceKind::SystemOutput]);
        }
        "System output"
    } else {
        proof {
            if sources@.len() == 2 {
                assert(sources@[0] == sources@[1]);
            }
        }
        "None"
    };
    string_of(&chars_of(text))
}

/// The explanation of a row of the transcription settings screen.
pub open spec fn transcription_help_spec(selection: int) -> Seq<char> {
    if selection == 0 {
        "How long older transcript words remain bright before fading to the readable floor. Applies immediately and does not restart capture."@
    } else if selection == 1 {
        "Chooses microphone, system output, or both. Changing capture endpoints restarts the worker after settings are applied."@
    } else if selection == 2 {
        "Constrains Whisper to a language, or lets it auto-detect. A fixed language is usually faster and more accurate. Selecting Spanish or another non-English language replaces a standard English-only .en model with its multilingual counterpart; an incompatible custom .en model falls back to multilingual medium. Whisper then restarts."@
    } else if selection == 3 {
        "Selects the local Whisper model. The non-.en models are multilingual and support Spanish; medium is the largest Spanish-capable choice available here. English-only .en models are offered only when Language is English. Larger models improve recognition but use more memory and compute; changing the model downloads it if needed and restarts."@
    } else if selection == 4 {
        "Controls the rolling audio context sent to local Whisper. Longer windows preserve context but increase inference work and latency; changing it restarts."@
    } else if selection == 5 {
        "Enables the remote insight pane. Local capture and Whisper continue when this is off; applying the change restarts agent wiring."@
    } else if selection == 6 {
        "Selects the OpenAI model used for insight updates. Sol prioritizes capability, Terra balances intelligence and cost and is the initial default, and Luna prioritizes low cost and high volume. Changing it restarts agent wiring."@
    } else if selection == 7 {
        "Silhouette returns a content-free answer frame with blanks for your own knowledge. Natural Answer returns a concise, directly usable answer. Changing modes uses the normal automatic application restart."@
    } else if selection == 8 {
        "Allows microphone transcript text to be included in API context. Off keeps local speech out of remote requests; changing it restarts agent wiring."@
    } else if selection == 9 {
        "Stops only new API requests after this terminal has remained hidden, minimized, cloaked, or out of the foreground for the selected grace period. Audio capture, Whisper, and context buffering continue locally. If terminal visibility cannot be monitored, API requests pause and F9 shows a warning."@
    } else if selection == 10 {
        "Closes the application after it remains hidden for this long. Off disables this shutdown rule; API pausing still follows its separately configured grace period."@
    } else if selection == 11 {
        "Closes the application after no transcript changes for this long. Off allows an idle visible session to remain open indefinitely."@
    } else if selection == 12 {
        "Sets a hard wall-clock limit for one transcription session. Off removes the maximum-session safeguard."@
    } else if selection == 13 {
        "Pauses new insight requests at this reported API-token threshold and asks before granting another block of the same size. Local transcription and context collection keep running; Off removes the prompt and cap."@
    } else if selection == 14 {
        "Applies the existing terminal transparency tool to this window. Opaque disables the effect; clear presets keep a sharp background, while blurry presets use acrylic blur. The choice is saved and does not restart capture."@
    } else if selection == 15 {
        "Selects one Markdown, text, JSON, or CSV reference from the local contexts folder. Its full contents are added to each Agent Insights request, up to 32 KiB; None sends no reference document. Applying a different selection restarts only the worker wiring."@
    } else if selection == 16 {
        "Soft treats the selected document as useful background while allowing transcript evidence and reliable general knowledge. Strong treats it as authoritative grounding, avoids outside facts, and states when the context is insufficient. Document text is always treated as data, not as instructions."@
    } else {
        ""@
    }
}

/// The explanation of a row of the transcription settings screen; see `transcription_help_spec`.
pub fn transcription_setting_help(selection: usize) -> (r: &'static str)
    ensures
        r@ == transcription_help_spec(selection as int),
{
    match selection {
        0 => "How long older transcript words remain bright before fading to the readable floor. Applies immediately and does not restart capture.",
        1 => "Chooses microphone, system output, or both. Changing capture endpoints restarts the worker after settings are applied.",
        2 => "Constrains Whisper to a language, or lets it auto-detect. A fixed language is usually faster and more accurate. Selecting Spanish or another non-English language replaces a standard English-only .en model with its multilingual counterpart; an incompatible custom .en model falls back to multilingual medium. Whisper then restarts.",
        3 => "Selects the local Whisper model. The non-.en models are multilingual and support Spanish; medium is the largest Spanish-capable choice available here. English-only .en models are offered only when Language is English. Larger models improve recognition but use more memory and compute; changing the model downloads it if needed and restarts.",
        4 => "Controls the rolling audio context sent to local Whisper. Longer windows preserve context but increase inference work and latency; changing it restarts.",
        5 => "Enables the remote insight pane. Local capture and Whisper continue when this is off; applying the change restarts agent wiring.",
        6 => "Selects the OpenAI model used for insight updates. Sol prioritizes capability, Terra balances intelligence and cost and is the initial default, and Luna prioritizes low cost and high volume. Changing it restarts agent wiring.",
        7 => "Silhouette returns a content-free answer frame with blanks for your own knowledge. Natural Answer returns a concise, directly usable answer. Changing modes uses the normal automatic application restart.",
        8 => "Allows microphone transcript text to be included in API context. Off keeps local speech out of remote requests; changing it restarts agent wiring.",
        9 => "Stops only new API requests after this terminal has remained hidden, minimized, cloaked, or out of the foreground for the selected grace period. Audio capture, Whisper, and context buffering continue locally. If terminal visibility cannot be monitored, API requests pause and F9 shows a warning.",
        10 => "Closes the application after it remains hidden for this long. Off disables this shutdown rule; API pausing still follows its separately configured grace period.",
        11 => "Closes the application after no transcript changes for this long. Off allows an idle visible session to remain open indefinitely.",
        12 => "Sets a hard wall-clock limit for one transcription session. Off removes the maximum-session safeguard.",
        13 => "Pauses new insight requests at this reported API-token threshold and asks before granting another block of the same size. Local transcription and context collection keep running; Off removes the prompt and cap.",
        14 => "Applies the existing terminal transparency tool to this window. Opaque disables the effect; clear presets keep a sharp background, while blurry presets use acrylic blur. The choice is saved and does not restart capture.",
        15 => "Selects one Markdown, text, JSON, or CSV reference from the local contexts folder. Its full contents are added to each Agent Insights request, up to 32 KiB; None sends no reference document. Applying a different selection restarts only the worker wiring.",
        16 => "Soft treats the selected document as useful background while allowing transcript evidence and reliable general knowledge. Strong treats it as authoritative grounding, avoids outside facts, and states when the context is insufficient. Document text is always treated as data, not as instructions.",
        _ => "",
    }
}

/// The explanation of a row of the typing settings screen.
pub open spec fn typing_help_spec(selection: int) -> Seq<char> {
    if selection == 0 {
        "Uses the OpenAI refiner after a phrase completes. Off keeps dictation local and appends raw Whisper text without API cost."@
    } else if selection == 1 {
        "Chooses what F1 does with the draft: copy it, type it into the previous application, or discard it."@
    } else if selection == 2 {
        "Sets the delay between simulated keystrokes in type mode. Slower speeds are safer for applications that drop fast input."@
    } else if selection == 3 {
        "Chooses microphone or system output as the local Whisper source. Changing it clears the active audio window but does not call the API."@
    } else if selection == 4 {
        "Changes this terminal's opacity and background effect. The visual update applies immediately and is remembered for the next launch."@
    } else if selection == 5 {
        "Selects the OpenAI model used only for dictation cleanup. Sol prioritizes capability, Terra balances intelligence and cost and is the initial default, and Luna prioritizes low cost and high volume."@
    } else {
        ""@
    }
}

/// The explanation of a row of the typing settings screen; see `typing_help_spec`.
pub fn typing_setting_help(selection: usize) -> (r: &'static str)
    ensures
        r@ == typing_help_spec(selection as int),
{
    match selection {
        0 => "Uses the OpenAI refiner after a phrase completes. Off keeps dictation local and appends raw Whisper text without API cost.",
        1 => "Chooses what F1 does with the draft: copy it, type it into the previous application, or discard it.",
        2 => "Sets the delay between simulated keystrokes in type mode. Slower speeds are safer for applications that drop fast input.",
        3 => "Chooses microphone or system output as the local Whisper source. Changing it clears the active audio window but does not call the API.",
        4 => "Changes this terminal's opacity and background effect. The visual update applies immediately and is remembered for the next launch.",
        5 => "Selects the OpenAI model used only for dictation cleanup. Sol prioritizes capability, Terra balances intelligence and cost and is the initial default, and Luna prioritizes low cost and high volume.",
        _ => "",
    }
}

/// The rows of the paragraphs of a text wrapped at `width` columns, each
/// paragraph trimmed and, with `indent`, shifted by two spaces.
pub open spec fn paragraph_rows(paragraphs: Seq<Seq<char>>, width: nat, indent: bool) -> Seq<Seq<char>>
    decreases paragraphs.len(),
{
    if paragraphs.len() == 0 {
        Seq::empty()
    } else {
        let p = trim(paragraphs.last());
        paragraph_rows(paragraphs.drop_last(), width, indent) + wrap_line_spec(if indent { "  "@ + p } else { p }, width)
    }
}

/// `width`, at least one.
pub open spec fn at_least_one(width: usize) -> nat {
    if width == 0 { 1 } else { width as nat }
}

/// Adds the rows of a text wrapped at `width` (at least one) columns, in
/// one colour; see `paragraph_rows`.
pub fn append_wrapped_rows(rows: &mut Vec<StyledLine>, text: &str, width: usize, tint: Tint, indent: bool)
    ensures
        lines_view(final(rows)@) == lines_view(old(rows)@) + plain_rows(
            paragraph_rows(lines_of(text@), at_least_one(width), indent),
            tint,
        ),
{
    let width = if width == 0 { 1 } else { width };
    let paragraphs = crate::layout::split_lines(&chars_of(text));
    let ghost ps = seqs(paragraphs@);
    let ghost start = lines_view(rows@);
    let mut i: usize = 0;
    while i < paragraphs.len()
        invariant
            i <= paragraphs.len(),
            ps == seqs(paragraphs@),
            lines_view(rows@) == start + plain_rows(paragraph_rows(ps.take(i as int), width as nat, indent), tint),
        decreases paragraphs.len() - i,
    {
        let p = crate::text::trim_vec(&paragraphs[i]);
        let mut line = if indent { chars_of("  ") } else { Vec::new() };
        crate::text::append_chars(&mut line, &p);
        let text_line = string_of(&line);
        let wrapped = crate::layout::wrap_line(text_line.as_str(), width);
        proof {
            assert(ps.take(i + 1).drop_last() =~= ps.take(i as int));
            assert(ps.take(i + 1).last() == ps[i as int]);
            assert(ps[i as int] == paragraphs@[i as int]@);
            if indent {
                assert(line@ =~= "  "@ + trim(ps[i as int]));
            } else {
                assert(line@ =~= trim(ps[i as int]));
            }
        }
        let mut j: usize = 0;
        let ghost before = lines_view(rows@);
        while j < wrapped.len()
            invariant
                j <= wrapped.len(),
                lines_view(rows@) == before + plain_rows(string_seqs(wrapped@).take(j as int), tint),
            decreases wrapped.len() - j,
        {
            let row = plain_line(wrapped[j].clone(), tint);
            let ghost prev = rows@;
            let ghost rv = line_view(row);
            rows.push(row);
            proof {
                assert(string_seqs(wrapped@).take(j + 1) =~= string_seqs(wrapped@).take(j as int).push(wrapped@[j as int]@));
                assert(lines_view(rows@) =~= lines_view(prev).push(rv));
                assert(plain_rows(string_seqs(wrapped@).take(j + 1), tint) =~= plain_rows(string_seqs(wrapped@).take(j as int), tint).push(seq![(wrapped@[j as int]@, tint)]));
            }
            j += 1;
        }
        proof {
            assert(string_seqs(wrapped@).take(wrapped.len() as int) =~= string_seqs(wrapped@));
            assert(plain_rows(paragraph_rows(ps.take(i + 1), width as nat, indent), tint) =~= plain_rows(paragraph_rows(ps.take(i as int), width as nat, indent), tint) + plain_rows(string_seqs(wrapped@), tint));
        }
        i += 1;
    }
    proof {
        assert(ps.take(paragraphs.len() as int) =~= ps);
    }
}

fn strings_of(items: &[&str]) -> (r: Vec<String>)
    ensures
        string_seqs(r@) == items@.map_values(|s: &str| s@),
{
    let mut out: Vec<String> = Vec::new();
    let mut i: usize = 0;
    while i < items.len()
        invariant
            i <= items@.len(),
            string_seqs(out@) == items@.take(i as int).map_values(|s: &str| s@),
        decreases items@.len() - i,
    {
        let item = items[i];
        let ghost prev = out@;
        out.push(string_of(&chars_of(item)));
        proof {
            assert(string_seqs(out@) =~= string_seqs(prev).push(item@));
            assert(items@.take(i + 1) =~= items@.take(i as int).push(items@[i as int]));
            assert(string_seqs(out@) =~= items@.take(i + 1).map_values(|s: &str| s@));
        }
        i += 1;
    }
    proof {
        assert(items@.take(items@.len() as int) =~= items@);
    }
    out
}

/// The fixed choices listed for a row of the transcription settings screen.
pub open spec fn fixed_choices_spec(selection: int) -> Seq<Seq<char>> {
    if selection == 0 {
        seq!["Range: 5s-180s"@, "Left/Right adjusts by 5s"@]
    } else if selection == 1 {
        seq!["Microphone + system output"@, "Microphone"@, "System output"@]
    } else if selection == 2 {
        seq!["Auto"@, "English (en)"@, "Spanish (es)"@, "Portuguese (pt)"@, "French (fr)"@, "German (de)"@, "Italian (it)"@, "Other language codes from saved settings or CLI"@]
    } else if selection == 4 {
        seq!["6s"@, "8s"@, "10s"@, "12s"@, "15s"@, "20s"@, "30s"@]
    } else if selection == 5 {
        seq!["On"@, "Off"@]
    } else if selection == 6 {
        seq!["gpt-5.6-sol"@, "gpt-5.6-terra"@, "gpt-5.6-luna"@, "Other non-empty model IDs from saved settings or CLI"@]
    } else if selection == 7 {
        seq!["Silhouette"@, "Natural Answer"@]
    } else if selection == 8 {
        seq!["On"@, "Off"@]
    } else if selection == 9 {
        seq!["Off"@, "After 5s"@, "After 10s"@, "After 15s"@, "After 30s"@, "After 60s"@]
    } else if selection == 10 {
        seq!["Off"@, "5m"@, "10m"@, "15m"@, "30m"@, "60m"@]
    } else if selection == 11 {
        seq!["Off"@, "15m"@, "30m"@, "60m"@, "120m"@, "240m"@]
    } else if selection == 12 {
        seq!["Off"@, "60m"@, "120m"@, "240m"@, "480m"@, "720m"@]
    } else if selection == 13 {
        seq!["Off"@, "25k"@, "50k"@, "100k"@, "250k"@, "500k"@]
    } else if selection == 16 {
        seq!["Soft"@, "Strong"@]
    } else if selection == 14 {
        Seq::new(TYPING_TRANSPARENCY_PRESET_COUNT as nat, |i: int| transparency_preset_spec(i).0)
    } else {
        Seq::empty()
    }
}

fn fixed_choices(selection: usize) -> (r: Vec<String>)
    ensures
        string_seqs(r@) == fixed_choices_spec(selection as int),
{
    if selection == 0 {
        let items = ["Range: 5s-180s", "Left/Right adjusts by 5s"];
        strings_of(&items)
    } else if selection == 1 {
        let items = ["Microphone + system output", "Microphone", "System output"];
        strings_of(&items)
    } else if selection == 2 {
        let items = ["Auto", "English (en)", "Spanish (es)", "Portuguese (pt)", "French (fr)", "German (de)", "Italian (it)", "Other language codes from saved settings or CLI"];
        strings_of(&items)
    } else if selection == 4 {
        let items = ["6s", "8s", "10s", "12s", "15s", "20s", "30s"];
        strings_of(&items)
    } else if selection == 5 {
        let items = ["On", "Off"];
        strings_of(&items)
    } else if selection == 6 {
        let items = ["gpt-5.6-sol", "gpt-5.6-terra", "gpt-5.6-luna", "Other non-empty model IDs from saved settings or CLI"];
        strings_of(&items)
    } else if selection == 7 {
        let items = ["Silhouette", "Natural Answer"];
        strings_of(&items)
    } else if selection == 8 {
        let items = ["On", "Off"];
        strings_of(&items)
    } else if selection == 9 {
        let items = ["Off", "After 5s", "After 10s", "After 15s", "After 30s", "After 60s"];
        strings_of(&items)
    } else if selection == 10 {
        let items = ["Off", "5m", "10m", "15m", "30m", "60m"];
        strings_of(&items)
    } else if selection == 11 {
        let items = ["Off", "15m", "30m", "60m", "120m", "240m"];
        strings_of(&items)
    } else if selection == 12 {
        let items = ["Off", "60m", "120m", "240m", "480m", "720m"];
        strings_of(&items)
    } else if selection == 13 {
        let items = ["Off", "25k", "50k", "100k", "250k", "500k"];
        strings_of(&items)
    } else if selection == 16 {
        let items = ["Soft", "Strong"];
        strings_of(&items)
    } else if selection == 14 {
        let mut out: Vec<String> = Vec::new();
        let mut i: usize = 0;
        while i < TYPING_TRANSPARENCY_PRESET_COUNT
            invariant
                i <= TYPING_TRANSPARENCY_PRESET_COUNT,
                string_seqs(out@) == Seq::new(i as nat, |j: int| transparency_preset_spec(j).0),
            decreases TYPING_TRANSPARENCY_PRESET_COUNT - i,
        {
            let preset = crate::modes::typing_transparency_preset(i);
            let ghost prev = out@;
            out.push(string_of(&chars_of(preset.label)));
            proof {
                assert(preset.label@ == transparency_preset_spec(i as int).0);
                assert(string_seqs(out@) =~= string_seqs(prev).push(preset.label@));
                assert(string_seqs(out@) =~= Seq::new((i + 1) as nat, |j: int| transparency_preset_spec(j).0));
            }
            i += 1;
        }
        out
    } else {
        let out: Vec<String> = Vec::new();
        proof {
            assert(string_seqs(out@) =~= Seq::<Seq<char>>::empty());
        }
        out
    }
}

/// Whether a text is in a list, ignoring ASCII case.
pub open spec fn has_ci(s: Seq<Seq<char>>, x: Seq<char>) -> bool {
    exists|i: int| 0 <= i < s.len() && lower_seq(#[trigger] s[i]) == lower_seq(x)
}

fn any_ci(list: &Vec<Vec<char>>, x: &Vec<char>) -> (r: bool)
    ensures
        r == has_ci(seqs(list@), x@),
{
    let mut i: usize = 0;
    while i < list.len()
        invariant
            i <= list.len(),
            forall|j: int| 0 <= j < i ==> lower_seq(#[trigger] seqs(list@)[j]) != lower_seq(x@),
        decreases list.len() - i,
    {
        if crate::normalize::eq_ignore_ascii_case(&list[i], x) {
            assert(lower_seq(seqs(list@)[i as int]) == lower_seq(x@));
            return true;
        }
        i += 1;
    }
    false
}

fn char_lists(list: &Vec<String>) -> (r: Vec<Vec<char>>)
    ensures
        seqs(r@) == string_seqs(list@),
{
    let mut out: Vec<Vec<char>> = Vec::new();
    let mut i: usize = 0;
    while i < list.len()
        invariant
            i <= list.len(),
            seqs(out@) == string_seqs(list@).take(i as int),
        decreases list.len() - i,
    {
        let ghost prev = out@;
        out.push(chars_of(list[i].as_str()));
        proof {
            assert(seqs(out@) =~= seqs(prev).push(list@[i as int]@));
            assert(string_seqs(list@).take(i + 1) =~= string_seqs(list@).take(i as int).push(list@[i as int]@));
        }
        i += 1;
    }
    proof {
        assert(string_seqs(list@).take(list.len() as int) =~= string_seqs(list@));
    }
    out
}

fn strings_from(list: &Vec<Vec<char>>) -> (r: Vec<String>)
    ensures
        string_seqs(r@) == seqs(list@),
{
    let mut out: Vec<String> = Vec::new();
    let mut i: usize = 0;
    while i < list.len()
        invariant
            i <= list.len(),
            string_seqs(out@) == seqs(list@).take(i as int),
        decreases list.len() - i,
    {
        let ghost prev = out@;
        out.push(string_of(&list[i]));
        proof {
            assert(string_seqs(out@) =~= string_seqs(prev).push(list@[i as int]@));
            assert(seqs(list@).take(i + 1) =~= seqs(list@).take(i as int).push(list@[i as int]@));
        }
        i += 1;
    }
    proof {
        assert(seqs(list@).take(list.len() as int) =~= seqs(list@));
    }
    out
}

fn prepend(first: Vec<char>, rest: Vec<String>) -> (r: Vec<String>)
    ensures
        string_seqs(r@) == seq![first@] + string_seqs(rest@),
{
    let mut out: Vec<String> = vec![string_of(&first)];
    let mut i: usize = 0;
    while i < rest.len()
        invariant
            i <= rest.len(),
            string_seqs(out@) == seq![first@] + string_seqs(rest@).take(i as int),
        decreases rest.len() - i,
    {
        let ghost prev = out@;
        out.push(rest[i].clone());
        proof {
            assert(string_seqs(out@) =~= string_seqs(prev).push(rest@[i as int]@));
            assert(string_seqs(rest@).take(i + 1) =~= string_seqs(rest@).take(i as int).push(rest@[i as int]@));
        }
        i += 1;
    }
    proof {
        assert(string_seqs(rest@).take(rest.len() as int) =~= string_seqs(rest@));
    }
    out
}

/// The model choice as listed: Spanish is named where `medium` offers it.
pub open spec fn model_label(language: Seq<char>, m: Seq<char>) -> Seq<char> {
    if language == "es"@ && m == "medium"@ { "medium (multilingual; Spanish-capable)"@ } else { m }
}

/// The choices listed for the selected row of the transcription settings
/// screen: the fixed ones, the models and context files found, and a
/// current value that is not among them.
pub open spec fn setting_choices_spec(ts: TranscriptionSettingsState) -> Seq<Seq<char>> {
    let p = ts.pending;
    if ts.selection == 15 {
        let files = string_seqs(ts.available_context_files@);
        let base = seq!["None"@] + files;
        match opt_text(p.context_file) {
            Some(c) => if !has_ci(files, c) { seq!["Current file is missing: "@ + c] + base } else { base },
            None => base,
        }
    } else if ts.selection == 3 {
        let lang = language_or_auto(opt_text(p.language));
        let cs = model_choices_spec(lang, string_seqs(ts.available_models@));
        let listed = if !has_ci(cs, p.model@) { seq!["Current model file is missing: "@ + p.model@] + cs } else { cs };
        listed.map_values(|m: Seq<char>| model_label(lang, m))
    } else if ts.selection == 2 {
        let current = language_or_auto(opt_text(p.language));
        if !has_ci(language_choices(), current) {
            seq!["Current custom value: "@ + current] + fixed_choices_spec(2)
        } else {
            fixed_choices_spec(2)
        }
    } else if ts.selection == 6 {
        if !has_ci(model_id_choices(), p.agent_model@) {
            seq!["Current custom value: "@ + p.agent_model@] + fixed_choices_spec(6)
        } else {
            fixed_choices_spec(6)
        }
    } else {
        fixed_choices_spec(ts.selection as int)
    }
}

/// The choices of the selected row; see `setting_choices_spec`.
pub fn transcription_setting_choices(ts: &TranscriptionSettingsState) -> (r: Vec<String>)
    ensures
        string_seqs(r@) == setting_choices_spec(*ts),
{
    let p = &ts.pending;
    if ts.selection == 15 {
        let files = char_lists(&ts.available_context_files);
        let mut base: Vec<String> = vec![string_of(&chars_of("None"))];
        let mut i: usize = 0;
        while i < ts.available_context_files.len()
            invariant
                i <= ts.available_context_files.len(),
                string_seqs(base@) == seq!["None"@] + string_seqs(ts.available_context_files@).take(i as int),
            decreases ts.available_context_files.len() - i,
        {
            let ghost prev = base@;
            base.push(ts.available_context_files[i].clone());
            proof {
                assert(string_seqs(base@) =~= string_seqs(prev).push(ts.available_context_files@[i as int]@));
                assert(string_seqs(ts.available_context_files@).take(i + 1) =~= string_seqs(ts.available_context_files@).take(
                    i as int,
                ).push(ts.available_context_files@[i as int]@));
            }
            i += 1;
        }
        proof {
            assert(string_seqs(ts.available_context_files@).take(ts.available_context_files.len() as int) =~= string_seqs(
                ts.available_context_files@,
            ));
        }
        match &p.context_file {
            Some(c) => {
                let cv = chars_of(c.as_str());
                if !any_ci(&files, &cv) {
                    let mut first = chars_of("Current file is missing: ");
                    crate::text::append_chars(&mut first, &cv);
                    return prepend(first, base);
                }
                base
            },
            None => base,
        }
    } else if ts.selection == 3 {
        let language = match &p.language {
            Some(l) => chars_of(l.as_str()),
            None => chars_of("auto"),
        };
        let lang_text = string_of(&language);
        let choices = crate::normalize::transcription_model_choices_for_language(lang_text.as_str(), &ts.available_models);
        let listed = if !any_ci(&choices, &chars_of(p.model.as_str())) {
            let mut first = chars_of("Current model file is missing: ");
            crate::text::append_chars(&mut first, &chars_of(p.model.as_str()));
            prepend(first, strings_from(&choices))
        } else {
            strings_from(&choices)
        };
        let spanish = crate::normalize::is_text(&language, "es");
        let mut out: Vec<String> = Vec::new();
        let mut i: usize = 0;
        while i < listed.len()
            invariant
                i <= listed.len(),
                string_seqs(out@) == string_seqs(listed@).take(i as int).map_values(|m: Seq<char>| model_label(language@, m)),
                spanish == (language@ == "es"@),
            decreases listed.len() - i,
        {
            let m = chars_of(listed[i].as_str());
            let label = if spanish && crate::normalize::is_text(&m, "medium") {
                string_of(&chars_of("medium (multilingual; Spanish-capable)"))
            } else {
                listed[i].clone()
            };
            let ghost prev = out@;
            out.push(label);
            proof {
                assert(string_seqs(out@) =~= string_seqs(prev).push(model_label(language@, listed@[i as int]@)));
                assert(string_seqs(listed@).take(i + 1) =~= string_seqs(listed@).take(i as int).push(listed@[i as int]@));
                assert(string_seqs(listed@).take(i + 1).map_values(|m: Seq<char>| model_label(language@, m)) =~= string_seqs(
                    listed@,
                ).take(i as int).map_values(|m: Seq<char>| model_label(language@, m)).push(model_label(language@, listed@[i as int]@)));
            }
            i += 1;
        }
        proof {
            assert(string_seqs(listed@).take(listed.len() as int) =~= string_seqs(listed@));
        }
        out
    } else if ts.selection == 2 {
        let current = match &p.language {
            Some(l) => chars_of(l.as_str()),
            None => chars_of("auto"),
        };
        let known = crate::choices::transcription_language_choices();
        if !any_ci(&known, &current) {
            let mut first = chars_of("Current custom value: ");
            crate::text::append_chars(&mut first, &current);
            prepend(first, fixed_choices(2))
        } else {
            fixed_choices(2)
        }
    } else if ts.selection == 6 {
        let current = chars_of(p.agent_model.as_str());
        let known = crate::choices::model_id_choice_list();
        if !any_ci(&known, &current) {
            let mut first = chars_of("Current custom value: ");
            crate::text::append_chars(&mut first, &current);
            prepend(first, fixed_choices(6))
        } else {
            fixed_choices(6)
        }
    } else {
        fixed_choices(ts.selection)
    }
}

/// The rows of a list of choices, each a bulleted item wrapped at `width`.
pub open spec fn choice_rows(choices: Seq<Seq<char>>, width: nat) -> Seq<Seq<char>>
    decreases choices.len(),
{
    if choices.len() == 0 {
        Seq::empty()
    } else {
        choice_rows(choices.drop_last(), width) + wrap_line_spec("  \u{2022} "@ + choices.last(), width)
    }
}

/// Adds the rows of a list of choices; see `choice_rows`.
pub fn append_choice_rows(rows: &mut Vec<StyledLine>, choices: &Vec<String>, width: usize, tint: Tint)
    ensures
        lines_view(final(rows)@) == lines_view(old(rows)@) + plain_rows(choice_rows(string_seqs(choices@), at_least_one(width)), tint),
{
    let width = if width == 0 { 1 } else { width };
    let ghost cs = string_seqs(choices@);
    let ghost start = lines_view(rows@);
    let mut i: usize = 0;
    while i < choices.len()
        invariant
            i <= choices.len(),
            cs == string_seqs(choices@),
            lines_view(rows@) == start + plain_rows(choice_rows(cs.take(i as int), width as nat), tint),
        decreases choices.len() - i,
    {
        let mut item = chars_of("  \u{2022} ");
        crate::text::append_chars(&mut item, &chars_of(choices[i].as_str()));
        let item_text = string_of(&item);
        let wrapped = crate::layout::wrap_line(item_text.as_str(), width);
        let ghost before = lines_view(rows@);
        let mut j: usize = 0;
        while j < wrapped.len()
            invariant
                j <= wrapped.len(),
                lines_view(rows@) == before + plain_rows(string_seqs(wrapped@).take(j as int), tint),
            decreases wrapped.len() - j,
        {
            let row = plain_line(wrapped[j].clone(), tint);
            let ghost prev = rows@;
            let ghost rv = line_view(row);
            rows.push(row);
            proof {
                assert(lines_view(rows@) =~= lines_view(prev).push(rv));
                assert(string_seqs(wrapped@).take(j + 1) =~= string_seqs(wrapped@).take(j as int).push(wrapped@[j as int]@));
                assert(plain_rows(string_seqs(wrapped@).take(j + 1), tint) =~= plain_rows(string_seqs(wrapped@).take(j as int), tint).push(
                    seq![(wrapped@[j as int]@, tint)],
                ));
            }
            j += 1;
        }
        proof {
            assert(cs.take(i + 1).drop_last() =~= cs.take(i as int));
            assert(cs.take(i + 1).last() == choices@[i as int]@);
            assert(string_seqs(wrapped@).take(wrapped.len() as int) =~= string_seqs(wrapped@));
            assert(plain_rows(choice_rows(cs.take(i + 1), width as nat), tint) =~= plain_rows(choice_rows(cs.take(i as int), width as nat), tint)
                + plain_rows(string_seqs(wrapped@), tint));
        }
        i += 1;
    }
    proof {
        assert(cs.take(choices.len() as int) =~= cs);
    }
}

fn take_chars(v: &Vec<char>, n: usize) -> (r: Vec<char>)
    requires
        n <= v.len(),
    ensures
        r@ == v@.take(n as int),
{
    let mut out: Vec<char> = Vec::new();
    let mut i: usize = 0;
    while i < n
        invariant
            i <= n <= v.len(),
            out@ == v@.take(i as int),
        decreases n - i,
    {
        out.push(v[i]);
        proof {
            assert(out@ =~= v@.take(i + 1));
        }
        i += 1;
    }
    out
}

/// The label shown for a settings row of `width` columns: whole when the
/// row fits, shortened with an ellipsis when only the label is too long,
/// and left out when even that does not fit.
pub open spec fn shown_label(label: Seq<char>, value: Seq<char>, width: nat) -> Option<Seq<char>> {
    if 2 + label.len() + 2 + value.len() <= width {
        Some(label)
    } else {
        let fixed = 2 + 2 + value.len();
        if fixed + 2 <= width {
            let label_width = (width - fixed) as nat;
            Some(if label.len() > label_width {
                label.take(if label_width >= 1 { label_width - 1 } else { 0 }) + seq!['\u{2026}']
            } else {
                label
            })
        } else {
            None
        }
    }
}

/// A settings row: a selection marker, the label and the value.
pub open spec fn option_line_spec(label: Seq<char>, value: Seq<char>, selected: bool, width: nat) -> Seq<(Seq<char>, Tint)> {
    let marker = if selected { ">"@ } else { " "@ };
    seq![(marker + " "@, if selected { Tint::Cyan } else { Tint::DarkGrey })] + (match shown_label(label, value, width) {
        Some(l) => seq![(l + ": "@, Tint::DarkGrey)],
        None => Seq::empty(),
    }) + seq![(value, Tint::White)]
}

/// A settings row; see `option_line_spec`.
pub fn transcription_setting_option_line(label: &str, value: &str, selected: bool, width: usize) -> (r: StyledLine)
    ensures
        line_view(r) == option_line_spec(label@, value@, selected, width as nat),
{
    let l = chars_of(label);
    let v = chars_of(value);
    let marker = if selected { chars_of("> ") } else { chars_of("  ") };
    let mut segments: Vec<StyledSegment> = Vec::new();
    segments.push(StyledSegment { text: string_of(&marker), tint: if selected { Tint::Cyan } else { Tint::DarkGrey } });
    let total: u128 = 4u128 + l.len() as u128 + v.len() as u128;
    let shown: Option<Vec<char>> = if total <= width as u128 {
        Some(l)
    } else {
        let fixed: u128 = 4u128 + v.len() as u128;
        if fixed + 2 <= width as u128 {
            let label_width: usize = (width as u128 - fixed) as usize;
            if l.len() > label_width {
                let keep: usize = if label_width >= 1 { label_width - 1 } else { 0 };
                let mut cut = take_chars(&l, keep);
                cut.push('\u{2026}');
                Some(cut)
            } else {
                Some(l)
            }
        } else {
            None
        }
    };
    let ghost m = if selected { ">"@ } else { " "@ };
    proof {
        reveal_strlit("> ");
        reveal_strlit("  ");
        reveal_strlit(">");
        reveal_strlit(" ");
        assert(marker@ =~= m + " "@);
        assert(shown matches Some(x) ==> shown_label(label@, value@, width as nat) == Some(x@));
        assert(shown is None ==> shown_label(label@, value@, width as nat) is None);
    }
    let ghost s0 = segments@;
    assert(s0.map_values(|x: StyledSegment| segment_view(x)) =~= seq![(m + " "@, if selected { Tint::Cyan } else { Tint::DarkGrey })]);
    match shown {
        Some(text) => {
            let mut t = text;
            crate::text::append_chars(&mut t, &chars_of(": "));
            let seg = StyledSegment { text: string_of(&t), tint: Tint::DarkGrey };
            let ghost sv = segment_view(seg);
            segments.push(seg);
            assert(segments@.map_values(|x: StyledSegment| segment_view(x)) =~= s0.map_values(|x: StyledSegment| segment_view(x)).push(sv));
        },
        None => {},
    }
    let ghost s1 = segments@;
    let last = StyledSegment { text: string_of(&v), tint: Tint::White };
    let ghost lv = segment_view(last);
    segments.push(last);
    assert(segments@.map_values(|x: StyledSegment| segment_view(x)) =~= s1.map_values(|x: StyledSegment| segment_view(x)).push(lv));
    let r = StyledLine { segments };
    proof {
        assert(line_view(r) =~= option_line_spec(label@, value@, selected, width as nat));
    }
    r
}

/// The status line at the foot of the transcription screen.
pub open spec fn footer_spec(request_count: u64, agent_status: Seq<char>, status: Seq<char>) -> Seq<char> {
    "F9 settings | F1 update | F5 reset | requests "@ + decimal(request_count as nat) + " | "@ + agent_status + " | "@ + status
}

/// The status line at the foot of the transcription screen; see
/// `footer_spec`.
pub fn build_footer_line(state: &crate::app_state::AppState) -> (r: String)
    ensures
        r@ == footer_spec(state.agent.request_count, state.agent.status@, state.status@),
{
    let mut out = chars_of("F9 settings | F1 update | F5 reset | requests ");
    crate::text::append_chars(&mut out, &crate::numbers::decimal_chars(state.agent.request_count));
    crate::text::append_chars(&mut out, &chars_of(" | "));
    crate::text::append_chars(&mut out, &chars_of(state.agent.status.as_str()));
    crate::text::append_chars(&mut out, &chars_of(" | "));
    crate::text::append_chars(&mut out, &chars_of(state.status.as_str()));
    string_of(&out)
}

/// The label of a row of the transcription settings screen.
pub open spec fn setting_label(i: int) -> Seq<char> {
    if i == 0 {
        "Transcript fade"@
    } else if i == 1 {
        "Sources"@
    } else if i == 2 {
        "Language"@
    } else if i == 3 {
        "Whisper model"@
    } else if i == 4 {
        "Whisper window"@
    } else if i == 5 {
        "Agent"@
    } else if i == 6 {
        "Agent model"@
    } else if i == 7 {
        "Answer mode"@
    } else if i == 8 {
        "Mic context"@
    } else if i == 9 {
        "Pause API when hidden"@
    } else if i == 10 {
        "Exit while hidden"@
    } else if i == 11 {
        "Exit when idle"@
    } else if i == 12 {
        "Maximum session"@
    } else if i == 13 {
        "Agent token budget"@
    } else if i == 14 {
        "Transparency"@
    } else if i == 15 {
        "Reference context"@
    } else if i == 16 {
        "Context strictness"@
    } else {
        Seq::empty()
    }
}

/// The name of an answer mode.
pub open spec fn answer_mode_name(m: TranscriptionAnswerMode) -> Seq<char> {
    match m {
        TranscriptionAnswerMode::Silhouette => "Silhouette"@,
        TranscriptionAnswerMode::NaturalAnswer => "Natural Answer"@,
    }
}

/// The name of a context strictness.
pub open spec fn strictness_name(c: ContextStrictness) -> Seq<char> {
    match c {
        ContextStrictness::Soft => "Soft"@,
        ContextStrictness::Strong => "Strong"@,
    }
}

/// The value shown in a row of the transcription settings screen, for the
/// pending settings and the fade time.
pub open spec fn setting_value(ts: TranscriptionSettingsState, fade_secs: u64, i: int) -> Seq<char> {
    let p = ts.pending;
    if i == 0 {
        decimal(fade_secs as nat) + "s"@
    } else if i == 1 {
        sources_text_spec(p.sources@)
    } else if i == 2 {
        language_or_auto(opt_text(p.language))
    } else if i == 3 {
        p.model@
    } else if i == 4 {
        decimal(p.chunk_seconds as nat) + "s"@
    } else if i == 5 {
        on_off_spec(p.agent_enabled)
    } else if i == 6 {
        p.agent_model@
    } else if i == 7 {
        answer_mode_name(p.answer_mode)
    } else if i == 8 {
        on_off_spec(p.include_microphone)
    } else if i == 9 {
        hidden_pause_spec(p.pause_agent_when_hidden, p.hidden_pause_seconds)
    } else if i == 10 {
        minutes_spec(p.hidden_exit_minutes)
    } else if i == 11 {
        minutes_spec(p.idle_exit_minutes)
    } else if i == 12 {
        minutes_spec(p.max_session_minutes)
    } else if i == 13 {
        token_budget_spec(p.agent_token_budget)
    } else if i == 14 {
        p.transparency_label@
    } else if i == 15 {
        match opt_text(p.context_file) {
            Some(f) => f,
            None => "none"@,
        }
    } else {
        strictness_name(p.context_strictness)
    }
}

fn setting_row(ts: &TranscriptionSettingsState, fade_secs: u64, i: usize) -> (r: (&'static str, String))
    requires
        i < 17,
    ensures
        r.0@ == setting_label(i as int),
        r.1@ == setting_value(*ts, fade_secs, i as int),
{
    let p = &ts.pending;
    if i == 0 {
        let mut v = crate::numbers::decimal_chars(fade_secs);
        crate::text::append_chars(&mut v, &chars_of("s"));
        ("Transcript fade", string_of(&v))
    } else if i == 1 {
        ("Sources", transcription_sources_text(&p.sources))
    } else if i == 2 {
        ("Language", match &p.language {
            Some(l) => l.clone(),
            None => string_of(&chars_of("auto")),
        })
    } else if i == 3 {
        ("Whisper model", p.model.clone())
    } else if i == 4 {
        let mut v = crate::numbers::decimal_chars(p.chunk_seconds as u64);
        crate::text::append_chars(&mut v, &chars_of("s"));
        ("Whisper window", string_of(&v))
    } else if i == 5 {
        ("Agent", string_of(&chars_of(on_off(p.agent_enabled))))
    } else if i == 6 {
        ("Agent model", p.agent_model.clone())
    } else if i == 7 {
        ("Answer mode", string_of(&chars_of(p.answer_mode.display_name())))
    } else if i == 8 {
        ("Mic context", string_of(&chars_of(on_off(p.include_microphone))))
    } else if i == 9 {
        ("Pause API when hidden", hidden_pause_text(p.pause_agent_when_hidden, p.hidden_pause_seconds))
    } else if i == 10 {
        ("Exit while hidden", minutes_text(p.hidden_exit_minutes))
    } else if i == 11 {
        ("Exit when idle", minutes_text(p.idle_exit_minutes))
    } else if i == 12 {
        ("Maximum session", minutes_text(p.max_session_minutes))
    } else if i == 13 {
        ("Agent token budget", token_budget_text(p.agent_token_budget))
    } else if i == 14 {
        ("Transparency", p.transparency_label.clone())
    } else if i == 15 {
        ("Reference context", match &p.context_file {
            Some(f) => f.clone(),
            None => string_of(&chars_of("none")),
        })
    } else {
        ("Context strictness", string_of(&chars_of(p.context_strictness.display_name())))
    }
}

/// The rows of the options column of the transcription settings screen.
pub open spec fn option_rows_spec(ts: TranscriptionSettingsState, fade_secs: u64, width: nat) -> Seq<Seq<(Seq<char>, Tint)>> {
    Seq::new(17, |i: int| option_line_spec(setting_label(i), setting_value(ts, fade_secs, i), i == ts.selection, width))
}

/// Lines of text, each a line of one piece in one colour.
pub open spec fn one_line(text: Seq<char>, tint: Tint) -> Seq<Seq<(Seq<char>, Tint)>> {
    seq![seq![(text, tint)]]
}

/// The rows of the details column of the transcription settings screen:
/// the explanation of the selected row, its choices, and what applying
/// would do.
pub open spec fn detail_rows_spec(ts: TranscriptionSettingsState, width: usize) -> Seq<Seq<(Seq<char>, Tint)>> {
    let w = at_least_one(width);
    one_line("Settings details"@, Tint::Yellow) + plain_rows(wrap_plain_spec(transcription_help_spec(ts.selection as int), w), Tint::DarkGrey)
        + one_line(""@, Tint::White) + one_line("Choices"@, Tint::Cyan) + plain_rows(
        choice_rows(setting_choices_spec(ts), w),
        Tint::DarkGrey,
    ) + (if restart_differs(ts.pending, ts.active) {
        one_line(""@, Tint::White) + plain_rows(
            paragraph_rows(lines_of("Pending worker changes will restart capture after you apply them."@), w, false),
            Tint::Yellow,
        )
    } else {
        Seq::empty()
    }) + (match opt_text(ts.note) {
        Some(n) => plain_rows(paragraph_rows(lines_of(n), w, false), Tint::Yellow),
        None => Seq::empty(),
    }) + (if ts.confirm_close {
        plain_rows(paragraph_rows(lines_of("Apply these changes or discard them?"@), w, false), Tint::Yellow)
    } else {
        Seq::empty()
    })
}

fn push_line(rows: &mut Vec<StyledLine>, line: StyledLine)
    ensures
        lines_view(final(rows)@) == lines_view(old(rows)@).push(line_view(line)),
{
    let ghost lv = line_view(line);
    rows.push(line);
    assert(lines_view(rows@) =~= lines_view(old(rows)@).push(lv));
}

fn push_plain_rows(rows: &mut Vec<StyledLine>, texts: &Vec<String>, tint: Tint)
    ensures
        lines_view(final(rows)@) == lines_view(old(rows)@) + plain_rows(string_seqs(texts@), tint),
{
    let ghost start = lines_view(rows@);
    let mut i: usize = 0;
    while i < texts.len()
        invariant
            i <= texts.len(),
            lines_view(rows@) == start + plain_rows(string_seqs(texts@).take(i as int), tint),
        decreases texts.len() - i,
    {
        push_line(rows, plain_line(texts[i].clone(), tint));
        proof {
            assert(string_seqs(texts@).take(i + 1) =~= string_seqs(texts@).take(i as int).push(texts@[i as int]@));
            assert(plain_rows(string_seqs(texts@).take(i + 1), tint) =~= plain_rows(string_seqs(texts@).take(i as int), tint).push(
                seq![(texts@[i as int]@, tint)],
            ));
        }
        i += 1;
    }
    proof {
        assert(string_seqs(texts@).take(texts.len() as int) =~= string_seqs(texts@));
    }
}

/// The two columns of the transcription settings screen, the options
/// `option_width` wide and the details `detail_width` wide (each at least
/// one column).
pub fn transcription_settings_columns(ts: &TranscriptionSettingsState, fade_secs: u64, option_width: usize, detail_width: usize) -> (r: (
    Vec<StyledLine>,
    Vec<StyledLine>,
))
    ensures
        lines_view(r.0@) == option_rows_spec(*ts, fade_secs, at_least_one(option_width)),
        lines_view(r.1@) == detail_rows_spec(*ts, detail_width),
{
    let ow = if option_width == 0 { 1 } else { option_width };
    let dw = if detail_width == 0 { 1 } else { detail_width };
    let mut options: Vec<StyledLine> = Vec::new();
    let mut i: usize = 0;
    while i < 17
        invariant
            i <= 17,
            lines_view(options@) == option_rows_spec(*ts, fade_secs, ow as nat).take(i as int),
        decreases 17 - i,
    {
        let (label, value) = setting_row(ts, fade_secs, i);
        let line = transcription_setting_option_line(label, value.as_str(), i == ts.selection, ow);
        push_line(&mut options, line);
        proof {
            assert(option_rows_spec(*ts, fade_secs, ow as nat).take(i + 1) =~= option_rows_spec(*ts, fade_secs, ow as nat).take(
                i as int,
            ).push(option_rows_spec(*ts, fade_secs, ow as nat)[i as int]));
        }
        i += 1;
    }
    proof {
        assert(option_rows_spec(*ts, fade_secs, ow as nat).take(17) =~= option_rows_spec(*ts, fade_secs, ow as nat));
    }
    let mut details: Vec<StyledLine> = Vec::new();
    push_line(&mut details, plain_str("Settings details", Tint::Yellow));
    let help = crate::layout::wrap_plain_text(transcription_setting_help(ts.selection), dw);
    push_plain_rows(&mut details, &help, Tint::DarkGrey);
    push_line(&mut details, plain_str("", Tint::White));
    push_line(&mut details, plain_str("Choices", Tint::Cyan));
    let choices = transcription_setting_choices(ts);
    append_choice_rows(&mut details, &choices, dw, Tint::DarkGrey);
    let ghost d0 = lines_view(details@);
    if ts.has_restart_changes() {
        push_line(&mut details, plain_str("", Tint::White));
        append_wrapped_rows(&mut details, "Pending worker changes will restart capture after you apply them.", dw, Tint::Yellow, false);
    }
    let ghost d1 = lines_view(details@);
    match &ts.note {
        Some(n) => append_wrapped_rows(&mut details, n.as_str(), dw, Tint::Yellow, false),
        None => {},
    }
    let ghost d2 = lines_view(details@);
    if ts.confirm_close {
        append_wrapped_rows(&mut details, "Apply these changes or discard them?", dw, Tint::Yellow, false);
    }
    proof {
        assert(d1 =~= d0 + (if restart_differs(ts.pending, ts.active) {
            one_line(""@, Tint::White) + plain_rows(
                paragraph_rows(lines_of("Pending worker changes will restart capture after you apply them."@), dw as nat, false),
                Tint::Yellow,
            )
        } else {
            Seq::empty()
        }));
        assert(lines_view(details@) =~= detail_rows_spec(*ts, detail_width));
    }
    (options, details)
}

/// The rows of the recent errors: each entry wrapped at `width`.
pub open spec fn error_rows(es: Seq<AppErrorEntry>, width: nat) -> Seq<Seq<char>>
    decreases es.len(),
{
    if es.len() == 0 {
        Seq::empty()
    } else {
        error_rows(es.drop_last(), width) + wrap_line_spec(error_entry_text(es.last()), width)
    }
}

/// The heading of the recent errors.
pub open spec fn error_heading(stored: nat, discarded: u64) -> Seq<char> {
    if discarded == 0 {
        "Recent errors ("@ + decimal(stored) + ")"@
    } else {
        "Recent errors ("@ + decimal(stored) + " stored; "@ + decimal(discarded as nat) + " older discarded)"@
    }
}

/// The warning shown while the terminal's visibility cannot be followed.
pub open spec fn monitor_warning(hidden_exit_minutes: u64) -> Seq<char> {
    if hidden_exit_minutes > 0 {
        "Terminal visibility is unavailable. API requests are paused, and the hidden auto-exit timer is running until monitoring recovers."@
    } else {
        "Terminal visibility is unavailable. API requests are paused until monitoring recovers."@
    }
}

/// The diagnostics below the settings: the agent's status, a settings load
/// error, a visibility warning, and the recent errors.
pub open spec fn diagnostic_rows_spec(s: crate::app_state::AppState, width: usize, monitor_available: bool) -> Seq<Seq<(Seq<char>, Tint)>> {
    let w = at_least_one(width);
    let entries = s.errors.entries@;
    one_line("Agent status"@, Tint::Cyan) + plain_rows(
        paragraph_rows(lines_of(s.agent.status@ + "; "@ + decimal(s.agent.request_count as nat) + " requests"@), w, true),
        if s.agent.enabled { Tint::DarkGrey } else { Tint::Yellow },
    ) + (match opt_text(s.transcription_settings.load_error) {
        Some(e) => one_line("Settings error"@, Tint::Red) + plain_rows(paragraph_rows(lines_of(e), w, true), Tint::Red),
        None => Seq::empty(),
    }) + (if !monitor_available {
        one_line("Warnings (1)"@, Tint::Yellow) + plain_rows(
            paragraph_rows(lines_of(monitor_warning(s.transcription_settings.active.hidden_exit_minutes)), w, true),
            Tint::Yellow,
        )
    } else {
        Seq::empty()
    }) + one_line(error_heading(entries.len(), s.errors.discarded_count), if entries.len() == 0 { Tint::DarkGrey } else { Tint::Red })
        + (if entries.len() == 0 {
        one_line("  None."@, Tint::DarkGrey)
    } else {
        plain_rows(error_rows(entries, w), Tint::Red)
    })
}

/// The diagnostics of the settings screen; see `diagnostic_rows_spec`. The
/// caller says whether the terminal's visibility can be followed.
#[verifier::spinoff_prover]
#[verifier::rlimit(100)]
pub fn transcription_diagnostic_rows(state: &crate::app_state::AppState, width: usize, monitor_available: bool) -> (r: Vec<StyledLine>)
    ensures
        lines_view(r@) == diagnostic_rows_spec(*state, width, monitor_available),
{
    let w = if width == 0 { 1 } else { width };
    let mut rows: Vec<StyledLine> = Vec::new();
    push_line(&mut rows, plain_str("Agent status", Tint::Cyan));
    let mut status = chars_of(state.agent.status.as_str());
    crate::text::append_chars(&mut status, &chars_of("; "));
    crate::text::append_chars(&mut status, &crate::numbers::decimal_chars(state.agent.request_count));
    crate::text::append_chars(&mut status, &chars_of(" requests"));
    let status_text = string_of(&status);
    append_wrapped_rows(&mut rows, status_text.as_str(), w, if state.agent.enabled { Tint::DarkGrey } else { Tint::Yellow }, true);
    let ghost r0 = lines_view(rows@);
    match &state.transcription_settings.load_error {
        Some(e) => {
            push_line(&mut rows, plain_str("Settings error", Tint::Red));
            append_wrapped_rows(&mut rows, e.as_str(), w, Tint::Red, true);
        },
        None => {},
    }
    let ghost r1 = lines_view(rows@);
    if !monitor_available {
        push_line(&mut rows, plain_str("Warnings (1)", Tint::Yellow));
        let warning = if state.transcription_settings.active.hidden_exit_minutes > 0 {
            "Terminal visibility is unavailable. API requests are paused, and the hidden auto-exit timer is running until monitoring recovers."
        } else {
            "Terminal visibility is unavailable. API requests are paused until monitoring recovers."
        };
        append_wrapped_rows(&mut rows, warning, w, Tint::Yellow, true);
    }
    let ghost r2 = lines_view(rows@);
    let stored = state.errors.entries.len();
    let mut heading = chars_of("Recent errors (");
    crate::text::append_chars(&mut heading, &crate::numbers::decimal_chars(stored as u64));
    if state.errors.discarded_count == 0 {
        crate::text::append_chars(&mut heading, &chars_of(")"));
    } else {
        crate::text::append_chars(&mut heading, &chars_of(" stored; "));
        crate::text::append_chars(&mut heading, &crate::numbers::decimal_chars(state.errors.discarded_count));
        crate::text::append_chars(&mut heading, &chars_of(" older discarded)"));
    }
    push_line(&mut rows, plain_line(string_of(&heading), if stored == 0 { Tint::DarkGrey } else { Tint::Red }));
    let ghost r3 = lines_view(rows@);
    proof {
        reveal_strlit("Recent errors (");
        reveal_strlit(")");
        reveal_strlit(" stored; ");
        reveal_strlit(" older discarded)");
    }
    if stored == 0 {
        push_line(&mut rows, plain_str("  None.", Tint::DarkGrey));
    } else {
        let mut i: usize = 0;
        while i < stored
            invariant
                i <= stored == state.errors.entries@.len(),
                lines_view(rows@) == r3 + plain_rows(error_rows(state.errors.entries@.take(i as int), w as nat), Tint::Red),
            decreases stored - i,
        {
            let text = crate::errors::format_error_entry(&state.errors.entries[i]);
            let wrapped = crate::layout::wrap_line(text.as_str(), w);
            push_plain_rows(&mut rows, &wrapped, Tint::Red);
            proof {
                assert(state.errors.entries@.take(i + 1).drop_last() =~= state.errors.entries@.take(i as int));
                assert(state.errors.entries@.take(i + 1).last() == state.errors.entries@[i as int]);
                assert(plain_rows(error_rows(state.errors.entries@.take(i + 1), w as nat), Tint::Red) =~= plain_rows(
                    error_rows(state.errors.entries@.take(i as int), w as nat),
                    Tint::Red,
                ) + plain_rows(string_seqs(wrapped@), Tint::Red));
            }
            i += 1;
        }
        proof {
            assert(state.errors.entries@.take(stored as int) =~= state.errors.entries@);
        }
    }
    proof {
        assert(lines_view(rows@) =~= diagnostic_rows_spec(*state, width, monitor_available));
    }
    rows
}

/// The pieces of a line fitted into `width` columns from the left: each
/// piece cut to what is left, empty ones dropped.
pub open spec fn fit_prefix(segs: Seq<(Seq<char>, Tint)>, n: nat, width: nat) -> (Seq<(Seq<char>, Tint)>, nat)
    decreases n,
{
    if n == 0 || n > segs.len() {
        (Seq::empty(), 0)
    } else {
        let (acc, used) = fit_prefix(segs, (n - 1) as nat, width);
        if used >= width {
            (acc, used)
        } else {
            let t = fragment_spec(segs[n - 1].0, (width - used) as nat);
            (if t.len() > 0 { acc.push((t, segs[n - 1].1)) } else { acc }, used + t.len())
        }
    }
}

proof fn lemma_fit_prefix_used(segs: Seq<(Seq<char>, Tint)>, n: nat, width: nat)
    ensures
        fit_prefix(segs, n, width).1 <= width,
    decreases n,
{
    if n > 0 && n <= segs.len() {
        lemma_fit_prefix_used(segs, (n - 1) as nat, width);
    }
}

/// A line (or nothing) fitted to exactly `width` columns: its pieces cut
/// and the rest filled with spaces.
pub open spec fn fitted_spec(line: Option<Seq<(Seq<char>, Tint)>>, width: nat) -> Seq<(Seq<char>, Tint)> {
    let (acc, used) = match line {
        Some(segs) => fit_prefix(segs, segs.len(), width),
        None => (Seq::empty(), 0),
    };
    if used < width { acc.push((spaces((width - used) as nat), Tint::White)) } else { acc }
}

/// Two lines side by side, each fitted to its column, with `gap` spaces
/// between.
pub open spec fn combined_spec(left: Option<Seq<(Seq<char>, Tint)>>, left_width: nat, gap: nat, right: Option<Seq<(Seq<char>, Tint)>>, right_width: nat) -> Seq<(Seq<char>, Tint)> {
    fitted_spec(left, left_width) + (if gap > 0 { seq![(spaces(gap), Tint::White)] } else { Seq::empty() }) + fitted_spec(right, right_width)
}

fn append_fitted(out: &mut Vec<StyledSegment>, line: Option<&StyledLine>, width: usize)
    ensures
        final(out)@.map_values(|x: StyledSegment| segment_view(x)) == old(out)@.map_values(|x: StyledSegment| segment_view(x)) + fitted_spec(
            match line {
                Some(l) => Some(line_view(*l)),
                None => None,
            },
            width as nat,
        ),
{
    let ghost start = out@.map_values(|x: StyledSegment| segment_view(x));
    let mut used: usize = 0;
    match line {
        Some(l) => {
            let ghost segs = line_view(*l);
            let mut i: usize = 0;
            while i < l.segments.len()
                invariant
                    i <= l.segments.len(),
                    segs == line_view(*l),
                    used <= width,
                    (out@.map_values(|x: StyledSegment| segment_view(x)), used as nat) == (start + fit_prefix(segs, i as nat, width as nat).0, fit_prefix(segs, i as nat, width as nat).1),
                decreases l.segments.len() - i,
            {
                proof {
                    lemma_fit_prefix_used(segs, (i + 1) as nat, width as nat);
                }
                if used < width {
                    let seg = &l.segments[i];
                    let text = crate::layout::fit_line_fragment(seg.text.as_str(), width - used);
                    let tc = chars_of(text.as_str());
                    let n = tc.len();
                    if n > 0 {
                        let ns = StyledSegment { text, tint: seg.tint };
                        let ghost prev = out@;
                        let ghost sv = segment_view(ns);
                        out.push(ns);
                        assert(out@.map_values(|x: StyledSegment| segment_view(x)) =~= prev.map_values(|x: StyledSegment| segment_view(x)).push(sv));
                    }
                    used = used + n;
                }
                i += 1;
            }
        },
        None => {},
    }
    if used < width {
        let pad = crate::layout::space_chars(width - used);
        let ns = StyledSegment { text: string_of(&pad), tint: Tint::White };
        let ghost prev = out@;
        let ghost sv = segment_view(ns);
        out.push(ns);
        assert(out@.map_values(|x: StyledSegment| segment_view(x)) =~= prev.map_values(|x: StyledSegment| segment_view(x)).push(sv));
    }
}

/// Two lines side by side; see `combined_spec`.
pub fn combine_styled_columns(left: Option<&StyledLine>, left_width: usize, gap_width: usize, right: Option<&StyledLine>, right_width: usize) -> (r: StyledLine)
    ensures
        line_view(r) == combined_spec(
            match left {
                Some(l) => Some(line_view(*l)),
                None => None,
            },
            left_width as nat,
            gap_width as nat,
            match right {
                Some(l) => Some(line_view(*l)),
                None => None,
            },
            right_width as nat,
        ),
{
    let mut segments: Vec<StyledSegment> = Vec::new();
    append_fitted(&mut segments, left, left_width);
    if gap_width > 0 {
        let pad = crate::layout::space_chars(gap_width);
        let ns = StyledSegment { text: string_of(&pad), tint: Tint::White };
        let ghost prev = segments@;
        let ghost sv = segment_view(ns);
        segments.push(ns);
        assert(segments@.map_values(|x: StyledSegment| segment_view(x)) =~= prev.map_values(|x: StyledSegment| segment_view(x)).push(sv));
    }
    append_fitted(&mut segments, right, right_width);
    let r = StyledLine { segments };
    assert(line_view(r) =~= combined_spec(
        match left {
            Some(l) => Some(line_view(*l)),
            None => None,
        },
        left_width as nat,
        gap_width as nat,
        match right {
            Some(l) => Some(line_view(*l)),
            None => None,
        },
        right_width as nat,
    ));
    r
}

fn append_lines(rows: &mut Vec<StyledLine>, more: Vec<StyledLine>)
    ensures
        lines_view(final(rows)@) == lines_view(old(rows)@) + lines_view(more@),
{
    let mut more = more;
    let ghost mv = more@;
    rows.append(&mut more);
    assert(lines_view(rows@) =~= lines_view(old(rows)@) + lines_view(mv));
}

/// The widths of the two columns of a wide settings screen and the gap
/// between them: `(gap, left, right)`.
pub open spec fn column_widths(width: nat) -> (nat, nat, nat) {
    let gap: nat = if width >= 2 { if width - 2 < 4 { (width - 2) as nat } else { 4 } } else { 0 };
    let columns = (width - gap) as nat;
    let left: nat = if columns > 1 {
        let l = columns * 45 / 100;
        if l < 1 { 1 } else if l > columns - 1 { (columns - 1) as nat } else { l }
    } else {
        columns
    };
    (gap, left, (columns - left) as nat)
}

/// The lines of the settings screen at `width` columns: the options and
/// details side by side when there is room, one above the other otherwise,
/// then the diagnostics.
pub open spec fn content_rows_spec(s: crate::app_state::AppState, width: usize, monitor_available: bool) -> Seq<Seq<(Seq<char>, Tint)>> {
    let w = at_least_one(width);
    let ts = s.transcription_settings;
    (if w >= 64 {
        let (gap, left, right) = column_widths(w);
        let opts = option_rows_spec(ts, s.fade_secs, at_least_one(left as usize));
        let dets = detail_rows_spec(ts, right as usize);
        let n = if opts.len() >= dets.len() { opts.len() } else { dets.len() };
        Seq::new(n, |i: int| combined_spec(
            if i < opts.len() { Some(opts[i]) } else { None },
            left,
            gap,
            if i < dets.len() { Some(dets[i]) } else { None },
            right,
        ))
    } else {
        option_rows_spec(ts, s.fade_secs, w) + one_line(""@, Tint::White) + detail_rows_spec(ts, w as usize)
    }) + one_line(""@, Tint::White) + one_line(""@, Tint::White) + diagnostic_rows_spec(s, w as usize, monitor_available)
}

/// The lines of the settings screen; see `content_rows_spec`.
pub fn transcription_settings_content_rows(state: &crate::app_state::AppState, width: usize, monitor_available: bool) -> (r: Vec<StyledLine>)
    ensures
        lines_view(r@) == content_rows_spec(*state, width, monitor_available),
{
    let w = if width == 0 { 1 } else { width };
    let mut rows: Vec<StyledLine> = Vec::new();
    if w >= 64 {
        let gap: usize = if w - 2 < 4 { w - 2 } else { 4 };
        let columns = w - gap;
        let left: usize = if columns > 1 {
            let l = ((columns as u128) * 45 / 100) as usize;
            if l < 1 { 1 } else if l > columns - 1 { columns - 1 } else { l }
        } else {
            columns
        };
        let right = columns - left;
        proof {
            assert(column_widths(w as nat) == (gap as nat, left as nat, right as nat));
        }
        let (opts, dets) = transcription_settings_columns(&state.transcription_settings, state.fade_secs, left, right);
        let n = if opts.len() >= dets.len() { opts.len() } else { dets.len() };
        let ghost os = lines_view(opts@);
        let ghost ds = lines_view(dets@);
        let mut i: usize = 0;
        while i < n
            invariant
                i <= n,
                n == (if opts.len() >= dets.len() { opts.len() } else { dets.len() }),
                os == lines_view(opts@),
                ds == lines_view(dets@),
                lines_view(rows@) == Seq::new(i as nat, |k: int| combined_spec(
                    if k < os.len() { Some(os[k]) } else { None },
                    left as nat,
                    gap as nat,
                    if k < ds.len() { Some(ds[k]) } else { None },
                    right as nat,
                )),
            decreases n - i,
        {
            let l = if i < opts.len() { Some(&opts[i]) } else { None };
            let r = if i < dets.len() { Some(&dets[i]) } else { None };
            let line = combine_styled_columns(l, left, gap, r, right);
            push_line(&mut rows, line);
            proof {
                assert(lines_view(rows@) =~= Seq::new((i + 1) as nat, |k: int| combined_spec(
                    if k < os.len() { Some(os[k]) } else { None },
                    left as nat,
                    gap as nat,
                    if k < ds.len() { Some(ds[k]) } else { None },
                    right as nat,
                )));
            }
            i += 1;
        }
    } else {
        let (opts, dets) = transcription_settings_columns(&state.transcription_settings, state.fade_secs, w, w);
        append_lines(&mut rows, opts);
        push_line(&mut rows, plain_str("", Tint::White));
        append_lines(&mut rows, dets);
    }
    let ghost head = lines_view(rows@);
    push_line(&mut rows, plain_str("", Tint::White));
    push_line(&mut rows, plain_str("", Tint::White));
    let diagnostics = transcription_diagnostic_rows(state, w, monitor_available);
    append_lines(&mut rows, diagnostics);
    proof {
        assert(lines_view(rows@) =~= content_rows_spec(*state, width, monitor_available));
    }
    rows
}

/// The pane marker of the insight column as text and tint, if any.
pub open spec fn agent_marker_spec(a: crate::panes::AgentPaneState) -> Option<(Seq<char>, Tint)> {
    if a.request_in_flight {
        Some(("\u{25cf} waiting"@, Tint::Red))
    } else if a.microphone_active {
        Some(("\u{25cf} hold"@, Tint::Yellow))
    } else if a.system_output_active {
        Some(("\u{25cf} hearing"@, Tint::Cyan))
    } else {
        None
    }
}

/// The heading of the insight column, `width` wide: its title, and the
/// pane marker at the right end when both fit.
pub open spec fn agent_header_spec(a: crate::panes::AgentPaneState, width: usize) -> Seq<(Seq<char>, Tint)> {
    let title = "Agent insights"@;
    if width == 0 {
        Seq::empty()
    } else {
        match agent_marker_spec(a) {
            Some((m, t)) => if title.len() + 1 + m.len() > width {
                seq![(title, Tint::DarkGrey)]
            } else {
                seq![(title, Tint::DarkGrey), (spaces((width - title.len() - m.len()) as nat), Tint::White), (m, t)]
            },
            None => seq![(title, Tint::DarkGrey)],
        }
    }
}

/// The heading of the insight column; see `agent_header_spec`.
pub fn agent_header_line(a: &crate::panes::AgentPaneState, width: usize) -> (r: StyledLine)
    ensures
        line_view(r) == agent_header_spec(*a, width),
{
    let mut segments: Vec<StyledSegment> = Vec::new();
    if width == 0 {
        let r = StyledLine { segments };
        assert(line_view(r) =~= Seq::<(Seq<char>, Tint)>::empty());
        return r;
    }
    let title = chars_of("Agent insights");
    match a.marker() {
        Some((text, color)) => {
            let m = chars_of(text);
            let tint = match color {
                crate::panes::MarkerColor::Red => Tint::Red,
                crate::panes::MarkerColor::Yellow => Tint::Yellow,
                crate::panes::MarkerColor::Cyan => Tint::Cyan,
            };
            if title.len() as u128 + 1 + m.len() as u128 > width as u128 {
                segments.push(StyledSegment { text: string_of(&title), tint: Tint::DarkGrey });
            } else {
                segments.push(StyledSegment { text: string_of(&title), tint: Tint::DarkGrey });
                segments.push(StyledSegment { text: string_of(&crate::layout::space_chars(width - title.len() - m.len())), tint: Tint::White });
                segments.push(StyledSegment { text: string_of(&m), tint });
            }
        },
        None => {
            segments.push(StyledSegment { text: string_of(&title), tint: Tint::DarkGrey });
        },
    }
    let r = StyledLine { segments };
    assert(line_view(r) =~= agent_header_spec(*a, width));
    r
}

/// The rows of the token budget prompt at `width` columns (at least one).
pub open spec fn budget_prompt_spec(s: crate::app_state::AppState, width: usize) -> Seq<Seq<(Seq<char>, Tint)>> {
    let w = at_least_one(width);
    let limit = match s.agent_token_limit {
        Some(l) => l,
        None => s.agent.total_tokens,
    };
    one_line("Agent token budget reached"@, Tint::Yellow) + one_line(""@, Tint::White) + one_line(
        crate::layout::fit_spec(
            "Reported API usage: "@ + decimal(s.agent.total_tokens as nat) + " tokens (current limit: "@ + decimal(limit as nat) + " tokens)"@,
            w,
        ),
        Tint::White,
    ) + one_line(""@, Tint::White) + plain_rows(
        wrap_plain_spec(
            "New insight requests are paused. Local audio capture, Whisper, transcript history, and context collection are still running."@,
            w,
        ),
        Tint::DarkGrey,
    ) + one_line(""@, Tint::White) + one_line(
        crate::layout::fit_spec("Allow another "@ + decimal(s.transcription_settings.active.agent_token_budget as nat) + " API tokens?"@, w),
        Tint::Cyan,
    )
}

/// The rows of the token budget prompt; see `budget_prompt_spec`.
pub fn token_budget_prompt_rows(state: &crate::app_state::AppState, width: usize) -> (r: Vec<StyledLine>)
    ensures
        lines_view(r@) == budget_prompt_spec(*state, width),
{
    let w = if width == 0 { 1 } else { width };
    let limit = match state.agent_token_limit {
        Some(l) => l,
        None => state.agent.total_tokens,
    };
    let mut rows: Vec<StyledLine> = Vec::new();
    push_line(&mut rows, plain_str("Agent token budget reached", Tint::Yellow));
    push_line(&mut rows, plain_str("", Tint::White));
    let mut usage = chars_of("Reported API usage: ");
    crate::text::append_chars(&mut usage, &crate::numbers::decimal_chars(state.agent.total_tokens));
    crate::text::append_chars(&mut usage, &chars_of(" tokens (current limit: "));
    crate::text::append_chars(&mut usage, &crate::numbers::decimal_chars(limit));
    crate::text::append_chars(&mut usage, &chars_of(" tokens)"));
    let usage_text = string_of(&usage);
    push_line(&mut rows, plain_line(crate::layout::fit_line(usage_text.as_str(), w), Tint::White));
    push_line(&mut rows, plain_str("", Tint::White));
    let note = crate::layout::wrap_plain_text(
        "New insight requests are paused. Local audio capture, Whisper, transcript history, and context collection are still running.",
        w,
    );
    push_plain_rows(&mut rows, &note, Tint::DarkGrey);
    push_line(&mut rows, plain_str("", Tint::White));
    let mut ask = chars_of("Allow another ");
    crate::text::append_chars(&mut ask, &crate::numbers::decimal_chars(state.transcription_settings.active.agent_token_budget));
    crate::text::append_chars(&mut ask, &chars_of(" API tokens?"));
    let ask_text = string_of(&ask);
    push_line(&mut rows, plain_line(crate::layout::fit_line(ask_text.as_str(), w), Tint::Cyan));
    assert(lines_view(rows@) =~= budget_prompt_spec(*state, width));
    rows
}

/// The title and footer of the settings screen, with `total` content rows
/// of which `body` show from `offset` on (when they do not all fit).
pub open spec fn settings_frame_spec(total: usize, body: usize, offset: usize, max_scroll: usize, confirm: bool) -> (Seq<char>, Seq<char>) {
    let end: nat = if offset + body <= total { (offset + body) as nat } else { total as nat };
    let title = if max_scroll > 0 && body > 0 {
        "Transcription settings  |  rows "@ + decimal((offset + 1) as nat) + "-"@ + decimal(end) + " of "@ + decimal(total as nat)
    } else {
        "Transcription settings"@
    };
    let footer = if max_scroll > 0 && confirm {
        "PgUp/PgDn scroll | End diagnostics | Enter/A apply | D discard | Esc returns"@
    } else if max_scroll > 0 {
        "PgUp/PgDn scroll | End diagnostics | F9/Esc close | Up/Down select | Left/Right change"@
    } else if confirm {
        "Enter/A apply | D discard | Esc returns"@
    } else {
        "F9/Esc close | Up/Down select | Left/Right change"@
    };
    (title, footer)
}

/// The title and footer of the settings screen; see `settings_frame_spec`.
pub fn transcription_settings_frame(total: usize, body: usize, offset: usize, max_scroll: usize, confirm: bool) -> (r: (String, &'static str))
    requires
        offset < usize::MAX,
    ensures
        (r.0@, r.1@) == settings_frame_spec(total, body, offset, max_scroll, confirm),
{
    let end: usize = if offset as u128 + body as u128 <= total as u128 { offset + body } else { total };
    let title = if max_scroll > 0 && body > 0 {
        let mut t = chars_of("Transcription settings  |  rows ");
        crate::text::append_chars(&mut t, &crate::numbers::decimal_chars((offset + 1) as u64));
        crate::text::append_chars(&mut t, &chars_of("-"));
        crate::text::append_chars(&mut t, &crate::numbers::decimal_chars(end as u64));
        crate::text::append_chars(&mut t, &chars_of(" of "));
        crate::text::append_chars(&mut t, &crate::numbers::decimal_chars(total as u64));
        string_of(&t)
    } else {
        string_of(&chars_of("Transcription settings"))
    };
    let footer = if max_scroll > 0 && confirm {
        "PgUp/PgDn scroll | End diagnostics | Enter/A apply | D discard | Esc returns"
    } else if max_scroll > 0 {
        "PgUp/PgDn scroll | End diagnostics | F9/Esc close | Up/Down select | Left/Right change"
    } else if confirm {
        "Enter/A apply | D discard | Esc returns"
    } else {
        "F9/Esc close | Up/Down select | Left/Right change"
    };
    (title, footer)
}

/// The columns of the transcription screen for a terminal `width` by
/// `height` (taken as at least 80 by 24): `(usable, left, right, body)` —
/// the usable width, the transcript and insight column widths around a gap
/// of six, and the rows between the headings and the footer.
pub open spec fn screen_columns_spec(width: u16, height: u16) -> (nat, nat, nat, nat) {
    let w: nat = if width < 80 { 80 } else { width as nat };
    let h: nat = if height < 24 { 24 } else { height as nat };
    let usable = (w - 1) as nat;
    let left = ((usable - 6) as nat) / 2;
    let right = (usable - (left + 6)) as nat;
    (usable, left, right, (h - 3) as nat)
}

/// See `screen_columns_spec`.
pub fn transcription_screen_columns(width: u16, height: u16) -> (r: (usize, usize, usize, usize))
    ensures
        (r.0 as nat, r.1 as nat, r.2 as nat, r.3 as nat) == screen_columns_spec(width, height),
{
    let w: usize = if width < 80 { 80 } else { width as usize };
    let h: usize = if height < 24 { 24 } else { height as usize };
    let usable = w - 1;
    let left = (usable - 6) / 2;
    let right = usable - (left + 6);
    (usable, left, right, h - 3)
}

} // verus!
