//! The live session's state and how it takes the events of the capture,
//! recognition, agent and typing workers.
use vstd::prelude::*;

use crate::agent::AgentInput;
use crate::blocks::{aligned_time, any_content, block_texts, TranscriptBlock, TranscriptState, TranscriptWord};
use crate::delta::compact_error_spec;
use crate::errors::{error_recorded, ErrorLog, ERROR_MESSAGE_CHARS};
use crate::insight::AgentUsage;
use crate::json::JsonValue;
use crate::modes::{AppMode, SourceKind};
use crate::numbers::decimal;
use crate::panes::{usage_fits, AgentPaneState};
use crate::screen::TranscriptionSettingsState;
use crate::stream::sat_sub;
use crate::text::{chars_of, string_of, trim, words_of};
use crate::transcript::merge_estimate;
use crate::typing_pane::TypingPaneState;

verus! {

/// An event from a worker thread.
pub enum UiEvent {
    Status(String),
    Fatal(String),
    Transcript { source: SourceKind, text: String, elapsed_ms: u64, generation: u64 },
    PartialTranscript { source: SourceKind, text: String, elapsed_ms: u64, generation: u64 },
    TranscriptBreak { source: SourceKind, generation: u64 },
    SourceError { source: SourceKind, message: String },
    SourceActivity { source: SourceKind, active: bool },
    AgentStatus(String),
    AgentRequestStarted { query_bytes: usize, generation: u64 },
    AgentRequestRetrying { message: String, usage: Option<AgentUsage>, generation: u64 },
    AgentRequestFailed { message: String, usage: Option<AgentUsage>, generation: u64 },
    AgentContextFailed { message: String, generation: u64 },
    AgentOutput {
        result: JsonValue,
        successful_input: AgentInput,
        usage: Option<AgentUsage>,
        force_hints: bool,
        elapsed_ms: u64,
        generation: u64,
    },
    TypingRequestStarted { raw_text: String, query_bytes: usize, intelligence_enabled: bool, generation: u64 },
    TypingRequestFailed { message: String, generation: u64 },
    TypingOutput {
        raw_text: String,
        typed_text: String,
        display_note: String,
        usage: Option<AgentUsage>,
        elapsed_ms: u64,
        paste_status: String,
        generation: u64,
    },
    TransparencyFailed { mode: AppMode, generation: u64, message: String },
}

/// Whether a changed transcript is to be written to the dump file, and
/// whether a failed write sets the status line.
#[derive(Clone, Copy, Debug, PartialEq, Eq, Structural)]
pub enum DumpRequest {
    Nothing,
    KeepStatus,
    SetStatus,
}

/// What applying an event did.
#[derive(Clone, Copy, Debug, PartialEq, Eq, Structural)]
pub struct ApplyOutcome {
    pub changed: bool,
    pub dump: DumpRequest,
}

/// The live session.
pub struct AppState {
    pub mode: AppMode,
    pub model_path: String,
    pub dump_enabled: bool,
    pub terminal_hwnd: Option<isize>,
    pub terminal_view_focused: Option<bool>,
    pub transcription_settings_path: String,
    pub cuda_enabled: bool,
    pub sources: Vec<SourceKind>,
    pub fade_secs: u64,
    pub agent: AgentPaneState,
    pub transcription_settings: TranscriptionSettingsState,
    pub typing: TypingPaneState,
    pub microphone_transcript: Option<TranscriptState>,
    pub system_transcript: Option<TranscriptState>,
    pub errors: ErrorLog,
    pub status: String,
    pub fatal_error: Option<String>,
    pub restart_requested: bool,
    pub restart_force_agent_update: bool,
    pub started_at_ms: u64,
    pub last_context_activity_at_ms: u64,
    pub hidden_since_ms: Option<u64>,
    pub agent_inactive_since_ms: Option<u64>,
    pub agent_generation: u64,
    pub agent_token_limit: Option<u64>,
    pub token_budget_prompt_open: bool,
    pub token_budget_prompt_dismissed: bool,
}

/// The transcript of a source.
pub open spec fn transcript_of(s: AppState, source: SourceKind) -> Option<TranscriptState> {
    match source {
        SourceKind::Microphone => s.microphone_transcript,
        SourceKind::SystemOutput => s.system_transcript,
    }
}

/// Whether a pause starts a new block of a transcript: it has content
/// and its last block is not blank.
pub open spec fn break_due(t: Option<TranscriptState>) -> bool {
    match t {
        Some(x) => any_content(block_texts(x.blocks@)) && trim(x.blocks@.last().text@).len() > 0,
        None => false,
    }
}

/// The blocks of an optional transcript.
pub open spec fn blocks_of(t: Option<TranscriptState>) -> Seq<TranscriptBlock> {
    match t {
        Some(x) => x.blocks@,
        None => Seq::empty(),
    }
}

/// Words aligned to a new text: one per word of the text, each with the age
/// `aligned_time` gives it.
pub open spec fn is_aligned(r: Seq<TranscriptWord>, existing: Seq<TranscriptWord>, next_text: Seq<char>, now: u64) -> bool {
    &&& r.len() == words_of(next_text).len()
    &&& forall|i: int| 0 <= i < r.len() ==> #[trigger] r[i].text@ == words_of(next_text)[i]
    &&& forall|i: int| 0 <= i < r.len() ==> #[trigger] r[i].first_seen == aligned_time(existing, words_of(next_text), now, i)
}

/// The text of the block being written, empty when there is none.
pub open spec fn current_text(t: Option<TranscriptState>) -> Seq<char> {
    if blocks_of(t).len() == 0 {
        Seq::empty()
    } else {
        blocks_of(t).last().text@
    }
}

/// The words of the block being written, none when there is none.
pub open spec fn current_words(t: Option<TranscriptState>) -> Seq<TranscriptWord> {
    if blocks_of(t).len() == 0 {
        Seq::empty()
    } else {
        blocks_of(t).last().words@
    }
}

/// Whether the new text (trimmed) changes the current block's estimate.
pub open spec fn transcript_changes(t: Option<TranscriptState>, text: Seq<char>) -> bool {
    trim(text).len() > 0 && trim(current_text(t)) != trim(merge_estimate(current_text(t), trim(text)))
}

/// The effect of a new estimate of `source`'s speech on the transcripts
/// (everything but the status line): a blank text changes nothing;
/// otherwise the source gets a transcript with a block being written, and
/// when the merged estimate differs, that block takes it with re-aligned
/// word ages and the context activity time becomes `now`.
pub open spec fn transcript_update_post(s: AppState, n: AppState, source: SourceKind, text: Seq<char>, now: u64, r: bool) -> bool {
    let t = transcript_of(s, source);
    let nt = transcript_of(n, source);
    let old_blocks = blocks_of(t);
    let new_blocks = blocks_of(nt);
    let merged = merge_estimate(current_text(t), trim(text));
    &&& r == transcript_changes(t, text)
    &&& (trim(text).len() == 0 ==> n == AppState { status: n.status, ..s })
    &&& (trim(text).len() > 0 ==> {
        &&& nt is Some
        &&& new_blocks.len() == (if old_blocks.len() == 0 { 1 } else { old_blocks.len() })
        &&& forall|i: int| 0 <= i < new_blocks.len() - 1 ==> #[trigger] new_blocks[i] == old_blocks[i]
        &&& (r ==> new_blocks.last().text@ == merged && is_aligned(new_blocks.last().words@, current_words(t), merged, now))
        &&& (!r ==> new_blocks.last().text@ == current_text(t) && new_blocks.last().words@ == current_words(t))
        &&& n == (match source {
            SourceKind::Microphone => AppState {
                microphone_transcript: nt,
                last_context_activity_at_ms: if r { now } else { s.last_context_activity_at_ms },
                status: n.status,
                ..s
            },
            SourceKind::SystemOutput => AppState {
                system_transcript: nt,
                last_context_activity_at_ms: if r { now } else { s.last_context_activity_at_ms },
                status: n.status,
                ..s
            },
        })
    })
}

/// `<source> committed in <ms> ms` or `<source> live update in <ms> ms`.
pub open spec fn transcript_status(source: SourceKind, partial: bool, elapsed_ms: u64) -> Seq<char> {
    let name = match source {
        SourceKind::Microphone => "Microphone"@,
        SourceKind::SystemOutput => "System output"@,
    };
    name + (if partial { " live update in "@ } else { " committed in "@ }) + decimal(elapsed_ms as nat) + " ms"@
}

fn transcript_status_text(source: SourceKind, partial: bool, elapsed_ms: u64) -> (r: String)
    ensures
        r@ == transcript_status(source, partial, elapsed_ms),
{
    let mut out = chars_of(source.display_name());
    crate::numbers::push_str_chars(&mut out, if partial { " live update in " } else { " committed in " });
    crate::text::append_chars(&mut out, &crate::numbers::decimal_chars(elapsed_ms));
    crate::numbers::push_str_chars(&mut out, " ms");
    string_of(&out)
}

/// A prefix and a message joined.
pub open spec fn prefixed(prefix: Seq<char>, message: Seq<char>) -> Seq<char> {
    prefix + message
}

fn prefixed_text(prefix: &str, message: &str) -> (r: String)
    ensures
        r@ == prefixed(prefix@, message@),
{
    let mut out = chars_of(prefix);
    crate::text::append_chars(&mut out, &chars_of(message));
    string_of(&out)
}

/// Status messages that are not shown: listening levels, refresh notes and
/// empty passes.
pub open spec fn noisy_status(m: Seq<char>) -> bool {
    crate::text::contains_sub(m, " listening, rms "@) || crate::text::is_prefix("Refreshing "@, m)
        || crate::text::is_suffix(" live pass produced no text"@, m)
}

/// Status messages that are errors.
pub open spec fn error_status(m: Seq<char>) -> bool {
    crate::text::is_prefix("Whisper failed:"@, m)
}

/// Whether a status message is not shown; see `noisy_status`.
pub fn is_noisy_status(message: &str) -> (r: bool)
    ensures
        r == noisy_status(message@),
{
    let m = chars_of(message);
    crate::text::contains_chars(&m, &chars_of(" listening, rms ")) || crate::text::starts_with(&m, &chars_of("Refreshing "))
        || crate::text::ends_with(&m, &chars_of(" live pass produced no text"))
}

/// Whether a status message is an error; see `error_status`.
pub fn is_error_status(message: &str) -> (r: bool)
    ensures
        r == error_status(message@),
{
    crate::text::starts_with(&chars_of(message), &chars_of("Whisper failed:"))
}

impl AppState {
    /// The buffers are within their bounds.
    pub open spec fn wf(&self) -> bool {
        self.errors.wf() && self.typing.wf()
    }

    /// The transcript of a source.
    pub fn transcript(&self, source: SourceKind) -> (r: Option<&TranscriptState>)
        ensures
            match r {
                Some(t) => transcript_of(*self, source) == Some(*t),
                None => transcript_of(*self, source) is None,
            },
    {
        match source {
            SourceKind::Microphone => match &self.microphone_transcript {
                Some(t) => Some(t),
                None => None,
            },
            SourceKind::SystemOutput => match &self.system_transcript {
                Some(t) => Some(t),
                None => None,
            },
        }
    }

    /// Records an error at `now_ms` in the error buffer.
    pub fn record_error(&mut self, message: &str, now_ms: u64)
        requires
            old(self).wf(),
        ensures
            final(self).wf(),
            *final(self) == (AppState { errors: final(self).errors, ..*old(self) }),
            error_recorded(old(self).errors, final(self).errors, message@, sat_sub(now_ms, old(self).started_at_ms)),
    {
        let elapsed = now_ms.saturating_sub(self.started_at_ms);
        self.errors.record(message, elapsed);
    }

    /// Takes a new estimate of `source`'s speech; see
    /// `transcript_update_post`. Returns whether the estimate changed.
    pub fn update_transcript(&mut self, source: SourceKind, text: &str, now_ms: u64) -> (r: bool)
        ensures
            transcript_update_post(*old(self), *final(self), source, text@, now_ms, r),
            final(self).status == old(self).status,
    {
        let trimmed = crate::text::trim_string(text);
        if chars_of(trimmed.as_str()).len() == 0 {
            return false;
        }
        let ghost t0 = transcript_of(*self, source);
        let mut transcript = match source {
            SourceKind::Microphone => self.microphone_transcript.take(),
            SourceKind::SystemOutput => self.system_transcript.take(),
        };
        let mut t = match transcript {
            Some(x) => x,
            None => TranscriptState::new(),
        };
        assert(t.blocks@ == blocks_of(t0));
        let ghost old_blocks = t.blocks@;
        let changed = {
            let block = t.current_block_mut();
            assert(block.text@ == current_text(t0));
            assert(block.words@ == current_words(t0));
            let merged = crate::transcript::merge_transcript_estimate(block.text.as_str(), trimmed.as_str());
            let same = crate::text::chars_equal(
                &crate::text::trim_vec(&chars_of(block.text.as_str())),
                &crate::text::trim_vec(&chars_of(merged.as_str())),
            );
            if same {
                false
            } else {
                block.words = crate::blocks::align_transcript_words(&block.words, merged.as_str(), now_ms);
                block.text = merged;
                true
            }
        };
        match source {
            SourceKind::Microphone => self.microphone_transcript = Some(t),
            SourceKind::SystemOutput => self.system_transcript = Some(t),
        }
        if changed {
            self.last_context_activity_at_ms = now_ms;
        }
        changed
    }

    /// Whether the counters an event adds to stay within their range, so
    /// that `apply` may take it; see `counters_fit`.
    pub fn apply_allowed(&self, event: &UiEvent) -> (r: bool)
        ensures
            r == counters_fit(*self, *event),
    {
        match event {
            UiEvent::AgentRequestStarted { generation, .. } => *generation != self.agent_generation || self.agent.request_count < u64::MAX,
            UiEvent::AgentRequestRetrying { usage, .. } | UiEvent::AgentRequestFailed { usage, .. } | UiEvent::AgentOutput { usage, .. } => {
                self.agent.usage_fits_counters(usage)
            },
            UiEvent::TypingRequestStarted { generation, intelligence_enabled, .. } => {
                !(*generation == self.agent_generation && *intelligence_enabled) || self.typing.request_count < u64::MAX
            },
            UiEvent::TypingOutput { usage, .. } => crate::panes::counters_take(self.typing.input_tokens, self.typing.output_tokens, self.typing.total_tokens, usage),
            _ => true,
        }
    }

    /// Starts a new block of `source`'s transcript after a pause; see
    /// `TranscriptState::add_break`. Returns whether a block started.
    pub fn add_transcript_break(&mut self, source: SourceKind) -> (r: bool)
        ensures
            r == break_due(transcript_of(*old(self), source)),
            transcript_of(*old(self), source) is None ==> !r && *final(self) == *old(self),
            !r ==> blocks_of(transcript_of(*final(self), source)) == blocks_of(transcript_of(*old(self), source)),
            transcript_of(*final(self), source) is Some == transcript_of(*old(self), source) is Some,
            r ==> blocks_of(transcript_of(*final(self), source)).len() == blocks_of(transcript_of(*old(self), source)).len() + 1,
            r ==> blocks_of(transcript_of(*final(self), source)).drop_last() == blocks_of(transcript_of(*old(self), source)),
            r ==> blocks_of(transcript_of(*final(self), source)).last().text@.len() == 0,
            r ==> blocks_of(transcript_of(*final(self), source)).last().words.len() == 0,
            *final(self) == (match source {
                SourceKind::Microphone => AppState { microphone_transcript: final(self).microphone_transcript, ..*old(self) },
                SourceKind::SystemOutput => AppState { system_transcript: final(self).system_transcript, ..*old(self) },
            }),
    {
        let mut taken = match source {
            SourceKind::Microphone => self.microphone_transcript.take(),
            SourceKind::SystemOutput => self.system_transcript.take(),
        };
        let r = match &mut taken {
            Some(t) => t.add_break(),
            None => false,
        };
        match source {
            SourceKind::Microphone => self.microphone_transcript = taken,
            SourceKind::SystemOutput => self.system_transcript = taken,
        }
        r
    }
}

/// The elapsed session time at `now`.
pub open spec fn session_ms(s: AppState, now: u64) -> u64 {
    sat_sub(now, s.started_at_ms)
}

/// `a + 1`, or `u64::MAX` when that overflows.
pub open spec fn sat_inc(a: u64) -> u64 {
    if a == u64::MAX { u64::MAX } else { (a + 1) as u64 }
}

/// The agent totals after a usage.
pub open spec fn agent_with_usage(a: AgentPaneState, usage: Option<AgentUsage>) -> AgentPaneState {
    match usage {
        Some(u) => AgentPaneState {
            input_tokens: (a.input_tokens + u.input_tokens) as u64,
            output_tokens: (a.output_tokens + u.output_tokens) as u64,
            total_tokens: (a.total_tokens + u.total_tokens) as u64,
            last_total_tokens: Some(u.total_tokens),
            ..a
        },
        None => a,
    }
}

/// What an event needs of the state: sound buffers and counters that do
/// not overflow.
pub open spec fn apply_requires(s: AppState, event: UiEvent) -> bool {
    s.wf() && counters_fit(s, event)
}

/// The counters an event adds to stay within their range.
pub open spec fn counters_fit(s: AppState, event: UiEvent) -> bool {
    match event {
        UiEvent::AgentRequestStarted { query_bytes, generation } => generation == s.agent_generation ==> s.agent.request_count < u64::MAX,
        UiEvent::AgentRequestRetrying { message, usage, generation } => usage_fits(s.agent.input_tokens, s.agent.output_tokens, s.agent.total_tokens, usage),
        UiEvent::AgentRequestFailed { message, usage, generation } => usage_fits(s.agent.input_tokens, s.agent.output_tokens, s.agent.total_tokens, usage),
        UiEvent::AgentOutput { result, successful_input, usage, force_hints, elapsed_ms, generation } => usage_fits(
            s.agent.input_tokens,
            s.agent.output_tokens,
            s.agent.total_tokens,
            usage,
        ),
        UiEvent::TypingRequestStarted { raw_text, query_bytes, intelligence_enabled, generation } => generation
            == s.agent_generation && intelligence_enabled ==> s.typing.request_count < u64::MAX,
        UiEvent::TypingOutput { raw_text, typed_text, display_note, usage, elapsed_ms, paste_status, generation } => usage_fits(
            s.typing.input_tokens,
            s.typing.output_tokens,
            s.typing.total_tokens,
            usage,
        ),
        _ => true,
    }
}

/// State `n` is `s` with an error recorded at `now` and the other named
/// changes made by the caller (`m` is `s` with those changes).
pub open spec fn with_error(s: AppState, m: AppState, n: AppState, message: Seq<char>, now: u64) -> bool {
    n == AppState { errors: n.errors, ..m } && error_recorded(s.errors, n.errors, message, session_ms(s, now))
}

/// The effect of an event on the state and what applying it reports.
pub open spec fn apply_post(s: AppState, n: AppState, event: UiEvent, now: u64, out: ApplyOutcome) -> bool {
    match event {
        UiEvent::Status(m) => {
            let err = error_status(m@);
            let show = !noisy_status(m@) && s.status@ != m@;
            &&& out == ApplyOutcome { changed: err || show, dump: DumpRequest::Nothing }
            &&& (show ==> n.status == m)
            &&& (!show ==> n.status == s.status)
            &&& (err ==> with_error(s, AppState { status: n.status, ..s }, n, m@, now))
            &&& (!err ==> n == AppState { status: n.status, ..s })
        },
        UiEvent::Fatal(m) => {
            &&& out == ApplyOutcome { changed: true, dump: DumpRequest::Nothing }
            &&& n.status@ == m@
            &&& n.fatal_error == Some(m)
            &&& with_error(s, AppState { status: n.status, fatal_error: n.fatal_error, ..s }, n, m@, now)
        },
        UiEvent::Transcript { source, text, elapsed_ms, generation } => if generation != s.agent_generation {
            out == ApplyOutcome { changed: false, dump: DumpRequest::Nothing } && n == s
        } else {
            let r = transcript_changes(transcript_of(s, source), text@);
            &&& transcript_update_post(s, n, source, text@, now, r)
            &&& (r ==> n.status@ == transcript_status(source, false, elapsed_ms))
            &&& (!r ==> n.status == s.status)
            &&& out == ApplyOutcome { changed: r, dump: if r && s.dump_enabled { DumpRequest::KeepStatus } else { DumpRequest::Nothing } }
        },
        UiEvent::PartialTranscript { source, text, elapsed_ms, generation } => if generation != s.agent_generation {
            out == ApplyOutcome { changed: false, dump: DumpRequest::Nothing } && n == s
        } else {
            let r = transcript_changes(transcript_of(s, source), text@);
            &&& transcript_update_post(s, n, source, text@, now, r)
            &&& (r ==> n.status@ == transcript_status(source, true, elapsed_ms))
            &&& (!r ==> n.status == s.status)
            &&& out == ApplyOutcome { changed: r, dump: if r && s.dump_enabled { DumpRequest::KeepStatus } else { DumpRequest::Nothing } }
        },
        UiEvent::TranscriptBreak { source, generation } => {
            &&& (generation != s.agent_generation ==> n == s && !out.changed)
            &&& out.changed == (generation == s.agent_generation && break_due(transcript_of(s, source)))
            &&& (out.changed ==> blocks_of(transcript_of(n, source)) == blocks_of(transcript_of(s, source)).push(
                blocks_of(transcript_of(n, source)).last(),
            ) && blocks_of(transcript_of(n, source)).last().text@.len() == 0
                && blocks_of(transcript_of(n, source)).last().words.len() == 0)
            &&& (!out.changed ==> blocks_of(transcript_of(n, source)) == blocks_of(transcript_of(s, source)))
            &&& out.dump == (if out.changed && s.dump_enabled { DumpRequest::SetStatus } else { DumpRequest::Nothing })
            &&& n == (match source {
                SourceKind::Microphone => AppState { microphone_transcript: n.microphone_transcript, ..s },
                SourceKind::SystemOutput => AppState { system_transcript: n.system_transcript, ..s },
            })
        },
        UiEvent::SourceError { source, message } => {
            let msg = match source {
                SourceKind::Microphone => "Microphone"@,
                SourceKind::SystemOutput => "System output"@,
            } + " failed: "@ + compact_error_spec(message@, 90);
            &&& out == ApplyOutcome { changed: true, dump: DumpRequest::Nothing }
            &&& n.status@ == msg
            &&& n.agent == (match source {
                SourceKind::Microphone => AgentPaneState { microphone_active: false, ..s.agent },
                SourceKind::SystemOutput => AgentPaneState { system_output_active: false, ..s.agent },
            })
            &&& n.typing == (if source == s.typing.input_source {
                TypingPaneState { microphone_active: false, ..s.typing }
            } else {
                s.typing
            })
            &&& with_error(s, AppState { status: n.status, agent: n.agent, typing: n.typing, ..s }, n, msg, now)
        },
        UiEvent::SourceActivity { source, active } => {
            let agent_changed = match source {
                SourceKind::Microphone => s.agent.microphone_active != active,
                SourceKind::SystemOutput => s.agent.system_output_active != active,
            };
            let typing_changed = source == s.typing.input_source && s.typing.microphone_active != active;
            &&& out == ApplyOutcome { changed: agent_changed || typing_changed, dump: DumpRequest::Nothing }
            &&& n == AppState {
                agent: match source {
                    SourceKind::Microphone => AgentPaneState { microphone_active: active, ..s.agent },
                    SourceKind::SystemOutput => AgentPaneState { system_output_active: active, ..s.agent },
                },
                typing: if source == s.typing.input_source {
                    TypingPaneState { microphone_active: active, ..s.typing }
                } else {
                    s.typing
                },
                ..s
            }
        },
        UiEvent::AgentStatus(m) => if s.agent.status@ == m@ {
            out == ApplyOutcome { changed: false, dump: DumpRequest::Nothing } && n == s
        } else {
            out == ApplyOutcome { changed: true, dump: DumpRequest::Nothing } && n == AppState {
                agent: AgentPaneState { status: m, ..s.agent },
                ..s
            }
        },
        UiEvent::AgentRequestStarted { query_bytes, generation } => {
            &&& out == ApplyOutcome { changed: true, dump: DumpRequest::Nothing }
            &&& if generation != s.agent_generation {
                n == AppState {
                    agent: AgentPaneState {
                        request_count: sat_inc(s.agent.request_count),
                        last_query_bytes: Some(query_bytes),
                        ..s.agent
                    },
                    ..s
                }
            } else {
                n.agent.status@ == "waiting for model"@ && n == AppState {
                    agent: AgentPaneState {
                        request_in_flight: true,
                        request_count: (s.agent.request_count + 1) as u64,
                        last_query_bytes: Some(query_bytes),
                        status: n.agent.status,
                        ..s.agent
                    },
                    ..s
                }
            }
        },
        UiEvent::AgentRequestRetrying { message, usage, generation } => {
            let a = agent_with_usage(s.agent, usage);
            if generation != s.agent_generation {
                out == ApplyOutcome { changed: usage is Some, dump: DumpRequest::Nothing } && n == AppState { agent: a, ..s }
            } else {
                out == ApplyOutcome { changed: true, dump: DumpRequest::Nothing } && n == AppState {
                    agent: AgentPaneState { request_in_flight: false, status: message, ..a },
                    ..s
                }
            }
        },
        UiEvent::AgentRequestFailed { message, usage, generation } => {
            let a = agent_with_usage(s.agent, usage);
            if generation != s.agent_generation {
                out == ApplyOutcome { changed: usage is Some, dump: DumpRequest::Nothing } && n == AppState { agent: a, ..s }
            } else {
                &&& out == ApplyOutcome { changed: true, dump: DumpRequest::Nothing }
                &&& n.agent == AgentPaneState {
                    request_in_flight: false,
                    last_error: n.agent.last_error,
                    status: n.agent.status,
                    ..a
                }
                &&& opt_view_eq(n.agent.last_error, message@)
                &&& n.agent.status@ == message@
                &&& with_error(s, AppState { agent: n.agent, ..s }, n, "Agent request failed: "@ + message@, now)
            }
        },
        UiEvent::AgentContextFailed { message, generation } => if generation != s.agent_generation {
            out == ApplyOutcome { changed: false, dump: DumpRequest::Nothing } && n == s
        } else {
            &&& out == ApplyOutcome { changed: true, dump: DumpRequest::Nothing }
            &&& n.agent == AgentPaneState { last_error: n.agent.last_error, status: n.agent.status, ..s.agent }
            &&& opt_view_eq(n.agent.last_error, message@)
            &&& n.agent.status@ == message@
            &&& with_error(s, AppState { agent: n.agent, ..s }, n, "Agent context failed: "@ + message@, now)
        },
        UiEvent::AgentOutput { result, successful_input, usage, force_hints, elapsed_ms, generation } => {
            let a = agent_with_usage(s.agent, usage);
            if generation != s.agent_generation {
                out == ApplyOutcome { changed: usage is Some, dump: DumpRequest::Nothing } && n == AppState { agent: a, ..s }
            } else {
                &&& out == ApplyOutcome { changed: true, dump: DumpRequest::Nothing }
                &&& n.agent.fields.len() == a.fields.len()
                &&& forall|i: int| 0 <= i < a.fields.len() ==> (#[trigger] n.agent.fields@[i])@
                    == crate::panes::apply_field_spec(a.fields@[i]@, result@, force_hints, now).0
                &&& n.agent.status@ == "updated in "@ + decimal(elapsed_ms as nat) + " ms"@
                &&& n == AppState {
                    agent: AgentPaneState {
                        fields: n.agent.fields,
                        canonical_result: result,
                        last_successful_input: Some(successful_input),
                        request_in_flight: false,
                        last_error: None,
                        status: n.agent.status,
                        ..a
                    },
                    ..s
                }
            }
        },
        UiEvent::TypingRequestStarted { raw_text, query_bytes, intelligence_enabled, generation } => if generation
            != s.agent_generation {
            out == ApplyOutcome { changed: false, dump: DumpRequest::Nothing } && n == s
        } else {
            &&& out == ApplyOutcome { changed: true, dump: DumpRequest::Nothing }
            &&& n.typing.paste_status@ == (if intelligence_enabled { "refining"@ } else { "typing raw"@ })
            &&& n == AppState {
                typing: TypingPaneState {
                    request_in_flight: true,
                    discard_pending_typing_output: false,
                    exit_confirmation_open: false,
                    request_count: if intelligence_enabled { (s.typing.request_count + 1) as u64 } else { s.typing.request_count },
                    last_query_bytes: Some(query_bytes),
                    last_raw_text: raw_text,
                    intelligence_enabled,
                    paste_status: n.typing.paste_status,
                    last_error: None,
                    ..s.typing
                },
                ..s
            }
        },
        UiEvent::TypingRequestFailed { message, generation } => if generation != s.agent_generation {
            out == ApplyOutcome { changed: false, dump: DumpRequest::Nothing } && n == s
        } else if s.typing.discard_pending_typing_output {
            &&& out == ApplyOutcome { changed: true, dump: DumpRequest::Nothing }
            &&& n.typing.last_raw_text@.len() == 0
            &&& n.typing.paste_status@ == "cleared"@
            &&& n == AppState {
                typing: TypingPaneState {
                    request_in_flight: false,
                    discard_pending_typing_output: false,
                    last_raw_text: n.typing.last_raw_text,
                    last_error: None,
                    paste_status: n.typing.paste_status,
                    updated_at_ms: Some(now),
                    ..s.typing
                },
                ..s
            }
        } else {
            &&& out == ApplyOutcome { changed: true, dump: DumpRequest::Nothing }
            &&& opt_view_eq(n.typing.last_error, message@)
            &&& n.typing.paste_status@ == message@
            &&& n.typing == TypingPaneState {
                request_in_flight: false,
                last_error: n.typing.last_error,
                paste_status: n.typing.paste_status,
                ..s.typing
            }
            &&& with_error(s, AppState { typing: n.typing, ..s }, n, "Typing request failed: "@ + message@, now)
        },
        UiEvent::TypingOutput { raw_text, typed_text, display_note, usage, elapsed_ms, paste_status, generation } => {
            let stale = generation != s.agent_generation;
            let k: u8 = if stale { 0 } else if s.typing.discard_pending_typing_output { 1 } else { 2 };
            &&& crate::typing_pane::output_received(s.typing, n.typing, raw_text, typed_text, display_note, usage, paste_status, stale, now, k)
            &&& n == AppState { typing: n.typing, status: n.status, ..s }
            &&& (k == 0 ==> out == ApplyOutcome { changed: usage is Some, dump: DumpRequest::Nothing } && n.status == s.status)
            &&& (k == 1 ==> out == ApplyOutcome { changed: true, dump: DumpRequest::Nothing }
                && n.status@ == "enhanced typing cleared in "@ + decimal(elapsed_ms as nat) + " ms"@)
            &&& (k == 2 ==> out == ApplyOutcome { changed: true, dump: DumpRequest::Nothing }
                && n.status@ == "enhanced typing updated in "@ + decimal(elapsed_ms as nat) + " ms"@)
        },
        UiEvent::TransparencyFailed { mode, generation, message } => {
            let current = match mode {
                AppMode::Transcription => generation == s.transcription_settings.transparency_generation,
                AppMode::EnhancedTyping => generation == s.typing.transparency_generation,
            };
            if !current {
                out == ApplyOutcome { changed: false, dump: DumpRequest::Nothing } && n == s
            } else {
                let m = match mode {
                    AppMode::Transcription => AppState {
                        transcription_settings: TranscriptionSettingsState { note: Some(message), ..s.transcription_settings },
                        ..s
                    },
                    AppMode::EnhancedTyping => AppState {
                        typing: TypingPaneState { settings_note: Some(message), ..s.typing },
                        ..s
                    },
                };
                out == ApplyOutcome { changed: true, dump: DumpRequest::Nothing } && with_error(
                    s,
                    m,
                    n,
                    "Transparency update failed: "@ + message@,
                    now,
                )
            }
        },
    }
}

/// Whether an optional text holds the given text.
pub open spec fn opt_view_eq(o: Option<String>, t: Seq<char>) -> bool {
    match o {
        Some(s) => s@ == t,
        None => false,
    }
}

fn updated_in(prefix: &str, elapsed_ms: u64) -> (r: String)
    ensures
        r@ == prefix@ + decimal(elapsed_ms as nat) + " ms"@,
{
    let mut out = chars_of(prefix);
    crate::text::append_chars(&mut out, &crate::numbers::decimal_chars(elapsed_ms));
    crate::numbers::push_str_chars(&mut out, " ms");
    string_of(&out)
}

impl AppState {
    /// Applies a worker event at time `now_ms`; see `apply_post`.
    pub fn apply(&mut self, event: UiEvent, now_ms: u64) -> (out: ApplyOutcome)
        requires
            apply_requires(*old(self), event),
        ensures
            final(self).wf(),
            apply_post(*old(self), *final(self), event, now_ms, out),
    {
        match event {
            UiEvent::Status(message) => self.apply_status(message, now_ms),
            UiEvent::Fatal(message) => self.apply_fatal(message, now_ms),
            UiEvent::Transcript { source, text, elapsed_ms, generation } => self.apply_transcript(source, text, elapsed_ms, generation, now_ms),
            UiEvent::PartialTranscript { source, text, elapsed_ms, generation } => self.apply_partial_transcript(source, text, elapsed_ms, generation, now_ms),
            UiEvent::TranscriptBreak { source, generation } => self.apply_transcript_break(source, generation, now_ms),
            UiEvent::SourceError { source, message } => self.apply_source_error(source, message, now_ms),
            UiEvent::SourceActivity { source, active } => self.apply_source_activity(source, active, now_ms),
            UiEvent::AgentStatus(message) => self.apply_agent_status(message, now_ms),
            UiEvent::AgentRequestStarted { query_bytes, generation } => self.apply_agent_request_started(query_bytes, generation, now_ms),
            UiEvent::AgentRequestRetrying { message, usage, generation } => self.apply_agent_request_retrying(message, usage, generation, now_ms),
            UiEvent::AgentRequestFailed { message, usage, generation } => self.apply_agent_request_failed(message, usage, generation, now_ms),
            UiEvent::AgentContextFailed { message, generation } => self.apply_agent_context_failed(message, generation, now_ms),
            UiEvent::AgentOutput { result, successful_input, usage, force_hints, elapsed_ms, generation } => self.apply_agent_output(result, successful_input, usage, force_hints, elapsed_ms, generation, now_ms),
            UiEvent::TypingRequestStarted { raw_text, query_bytes, intelligence_enabled, generation } => self.apply_typing_request_started(raw_text, query_bytes, intelligence_enabled, generation, now_ms),
            UiEvent::TypingRequestFailed { message, generation } => self.apply_typing_request_failed(message, generation, now_ms),
            UiEvent::TypingOutput { raw_text, typed_text, display_note, usage, elapsed_ms, paste_status, generation } => self.apply_typing_output(raw_text, typed_text, display_note, usage, elapsed_ms, paste_status, generation, now_ms),
            UiEvent::TransparencyFailed { mode, generation, message } => self.apply_transparency_failed(mode, generation, message, now_ms),
        }
    }

    fn apply_status(&mut self, message: String, now_ms: u64) -> (out: ApplyOutcome)
        requires
            apply_requires(*old(self), UiEvent::Status(message)),
        ensures
            final(self).wf(),
            apply_post(*old(self), *final(self), UiEvent::Status(message), now_ms, out),
    {
        let nothing = DumpRequest::Nothing;
            let err = is_error_status(message.as_str());
            if err {
                self.record_error(message.as_str(), now_ms);
            }
            let same = crate::text::chars_equal(&chars_of(self.status.as_str()), &chars_of(message.as_str()));
            if is_noisy_status(message.as_str()) || same {
                return ApplyOutcome { changed: err, dump: nothing };
            }
            self.status = message;
            ApplyOutcome { changed: true, dump: nothing }
    }

    fn apply_fatal(&mut self, message: String, now_ms: u64) -> (out: ApplyOutcome)
        requires
            apply_requires(*old(self), UiEvent::Fatal(message)),
        ensures
            final(self).wf(),
            apply_post(*old(self), *final(self), UiEvent::Fatal(message), now_ms, out),
    {
        let nothing = DumpRequest::Nothing;
            self.status = message.clone();
            self.record_error(message.as_str(), now_ms);
            self.fatal_error = Some(message);
            ApplyOutcome { changed: true, dump: nothing }
    }

    fn apply_transcript(&mut self, source: SourceKind, text: String, elapsed_ms: u64, generation: u64, now_ms: u64) -> (out: ApplyOutcome)
        requires
            apply_requires(*old(self), UiEvent::Transcript { source, text, elapsed_ms, generation }),
        ensures
            final(self).wf(),
            apply_post(*old(self), *final(self), UiEvent::Transcript { source, text, elapsed_ms, generation }, now_ms, out),
    {
        let nothing = DumpRequest::Nothing;
            if generation != self.agent_generation {
                return ApplyOutcome { changed: false, dump: nothing };
            }
            let changed = self.update_transcript(source, text.as_str(), now_ms);
            if changed {
                self.status = transcript_status_text(source, false, elapsed_ms);
            }
            let dump = if changed && self.dump_enabled {
                DumpRequest::KeepStatus
            } else {
                nothing
            };
            ApplyOutcome { changed, dump }
    }

    fn apply_partial_transcript(&mut self, source: SourceKind, text: String, elapsed_ms: u64, generation: u64, now_ms: u64) -> (out: ApplyOutcome)
        requires
            apply_requires(*old(self), UiEvent::PartialTranscript { source, text, elapsed_ms, generation }),
        ensures
            final(self).wf(),
            apply_post(*old(self), *final(self), UiEvent::PartialTranscript { source, text, elapsed_ms, generation }, now_ms, out),
    {
        let nothing = DumpRequest::Nothing;
            if generation != self.agent_generation {
                return ApplyOutcome { changed: false, dump: nothing };
            }
            let changed = self.update_transcript(source, text.as_str(), now_ms);
            if changed {
                self.status = transcript_status_text(source, true, elapsed_ms);
            }
            let dump = if changed && self.dump_enabled {
                DumpRequest::KeepStatus
            } else {
                nothing
            };
            ApplyOutcome { changed, dump }
    }

    fn apply_transcript_break(&mut self, source: SourceKind, generation: u64, now_ms: u64) -> (out: ApplyOutcome)
        requires
            apply_requires(*old(self), UiEvent::TranscriptBreak { source, generation }),
        ensures
            final(self).wf(),
            apply_post(*old(self), *final(self), UiEvent::TranscriptBreak { source, generation }, now_ms, out),
    {
        let nothing = DumpRequest::Nothing;
            let changed = generation == self.agent_generation && self.add_transcript_break(source);
        proof {
            if changed {
                assert(blocks_of(transcript_of(*self, source)) =~= blocks_of(transcript_of(*old(self), source)).push(
                    blocks_of(transcript_of(*self, source)).last(),
                ));
            }
        }
            let dump = if changed && self.dump_enabled {
                DumpRequest::SetStatus
            } else {
                nothing
            };
            ApplyOutcome { changed, dump }
    }

    fn apply_source_error(&mut self, source: SourceKind, message: String, now_ms: u64) -> (out: ApplyOutcome)
        requires
            apply_requires(*old(self), UiEvent::SourceError { source, message }),
        ensures
            final(self).wf(),
            apply_post(*old(self), *final(self), UiEvent::SourceError { source, message }, now_ms, out),
    {
        let nothing = DumpRequest::Nothing;
            let mut text = chars_of(source.display_name());
            crate::numbers::push_str_chars(&mut text, " failed: ");
            let compact = crate::delta::compact_error(message.as_str(), 90);
            crate::text::append_chars(&mut text, &chars_of(compact.as_str()));
            let full = string_of(&text);
            self.status = full.clone();
            self.agent.set_source_activity(source, false);
            self.typing.set_source_activity(source, false);
            self.record_error(full.as_str(), now_ms);
            ApplyOutcome { changed: true, dump: nothing }
    }

    fn apply_source_activity(&mut self, source: SourceKind, active: bool, now_ms: u64) -> (out: ApplyOutcome)
        requires
            apply_requires(*old(self), UiEvent::SourceActivity { source, active }),
        ensures
            final(self).wf(),
            apply_post(*old(self), *final(self), UiEvent::SourceActivity { source, active }, now_ms, out),
    {
        let nothing = DumpRequest::Nothing;
            let agent_changed = self.agent.set_source_activity(source, active);
            let typing_changed = self.typing.set_source_activity(source, active);
            ApplyOutcome { changed: agent_changed || typing_changed, dump: nothing }
    }

    fn apply_agent_status(&mut self, message: String, now_ms: u64) -> (out: ApplyOutcome)
        requires
            apply_requires(*old(self), UiEvent::AgentStatus(message)),
        ensures
            final(self).wf(),
            apply_post(*old(self), *final(self), UiEvent::AgentStatus(message), now_ms, out),
    {
        let nothing = DumpRequest::Nothing;
            if crate::text::chars_equal(&chars_of(self.agent.status.as_str()), &chars_of(message.as_str())) {
                return ApplyOutcome { changed: false, dump: nothing };
            }
            self.agent.status = message;
            ApplyOutcome { changed: true, dump: nothing }
    }

    fn apply_agent_request_started(&mut self, query_bytes: usize, generation: u64, now_ms: u64) -> (out: ApplyOutcome)
        requires
            apply_requires(*old(self), UiEvent::AgentRequestStarted { query_bytes, generation }),
        ensures
            final(self).wf(),
            apply_post(*old(self), *final(self), UiEvent::AgentRequestStarted { query_bytes, generation }, now_ms, out),
    {
        let nothing = DumpRequest::Nothing;
            if generation != self.agent_generation {
                self.agent.request_count = self.agent.request_count.saturating_add(1);
                self.agent.last_query_bytes = Some(query_bytes);
                return ApplyOutcome { changed: true, dump: nothing };
            }
            self.agent.start_request(query_bytes);
            ApplyOutcome { changed: true, dump: nothing }
    }

    fn apply_agent_request_retrying(&mut self, message: String, usage: Option<AgentUsage>, generation: u64, now_ms: u64) -> (out: ApplyOutcome)
        requires
            apply_requires(*old(self), UiEvent::AgentRequestRetrying { message, usage, generation }),
        ensures
            final(self).wf(),
            apply_post(*old(self), *final(self), UiEvent::AgentRequestRetrying { message, usage, generation }, now_ms, out),
    {
        let nothing = DumpRequest::Nothing;
            self.agent.record_usage(usage);
            if generation != self.agent_generation {
                return ApplyOutcome { changed: usage.is_some(), dump: nothing };
            }
            self.agent.finish_request();
            self.agent.status = message;
            ApplyOutcome { changed: true, dump: nothing }
    }

    fn apply_agent_request_failed(&mut self, message: String, usage: Option<AgentUsage>, generation: u64, now_ms: u64) -> (out: ApplyOutcome)
        requires
            apply_requires(*old(self), UiEvent::AgentRequestFailed { message, usage, generation }),
        ensures
            final(self).wf(),
            apply_post(*old(self), *final(self), UiEvent::AgentRequestFailed { message, usage, generation }, now_ms, out),
    {
        let nothing = DumpRequest::Nothing;
            self.agent.record_usage(usage);
            if generation != self.agent_generation {
                return ApplyOutcome { changed: usage.is_some(), dump: nothing };
            }
            self.agent.finish_request();
            self.agent.record_error(message.clone());
            self.agent.status = message.clone();
            let full = prefixed_text("Agent request failed: ", message.as_str());
            self.record_error(full.as_str(), now_ms);
            ApplyOutcome { changed: true, dump: nothing }
    }

    fn apply_agent_context_failed(&mut self, message: String, generation: u64, now_ms: u64) -> (out: ApplyOutcome)
        requires
            apply_requires(*old(self), UiEvent::AgentContextFailed { message, generation }),
        ensures
            final(self).wf(),
            apply_post(*old(self), *final(self), UiEvent::AgentContextFailed { message, generation }, now_ms, out),
    {
        let nothing = DumpRequest::Nothing;
            if generation != self.agent_generation {
                return ApplyOutcome { changed: false, dump: nothing };
            }
            self.agent.record_error(message.clone());
            self.agent.status = message.clone();
            let full = prefixed_text("Agent context failed: ", message.as_str());
            self.record_error(full.as_str(), now_ms);
            ApplyOutcome { changed: true, dump: nothing }
    }

    fn apply_agent_output(&mut self, result: JsonValue, successful_input: AgentInput, usage: Option<AgentUsage>, force_hints: bool, elapsed_ms: u64, generation: u64, now_ms: u64) -> (out: ApplyOutcome)
        requires
            apply_requires(*old(self), UiEvent::AgentOutput { result, successful_input, usage, force_hints, elapsed_ms, generation }),
        ensures
            final(self).wf(),
            apply_post(*old(self), *final(self), UiEvent::AgentOutput { result, successful_input, usage, force_hints, elapsed_ms, generation }, now_ms, out),
    {
        let nothing = DumpRequest::Nothing;
            self.agent.record_usage(usage);
            if generation != self.agent_generation {
                return ApplyOutcome { changed: usage.is_some(), dump: nothing };
            }
            self.agent.canonical_result = result;
            self.agent.last_successful_input = Some(successful_input);
            let canonical = crate::json::clone_value(&self.agent.canonical_result);
            self.agent.apply_result(&canonical, force_hints, now_ms);
            self.agent.finish_request();
            self.agent.clear_error();
            self.agent.status = updated_in("updated in ", elapsed_ms);
            ApplyOutcome { changed: true, dump: nothing }
    }

    fn apply_typing_request_started(&mut self, raw_text: String, query_bytes: usize, intelligence_enabled: bool, generation: u64, now_ms: u64) -> (out: ApplyOutcome)
        requires
            apply_requires(*old(self), UiEvent::TypingRequestStarted { raw_text, query_bytes, intelligence_enabled, generation }),
        ensures
            final(self).wf(),
            apply_post(*old(self), *final(self), UiEvent::TypingRequestStarted { raw_text, query_bytes, intelligence_enabled, generation }, now_ms, out),
    {
        let nothing = DumpRequest::Nothing;
            if generation != self.agent_generation {
                return ApplyOutcome { changed: false, dump: nothing };
            }
            self.typing.start_request(raw_text, query_bytes, intelligence_enabled);
            ApplyOutcome { changed: true, dump: nothing }
    }

    fn apply_typing_request_failed(&mut self, message: String, generation: u64, now_ms: u64) -> (out: ApplyOutcome)
        requires
            apply_requires(*old(self), UiEvent::TypingRequestFailed { message, generation }),
        ensures
            final(self).wf(),
            apply_post(*old(self), *final(self), UiEvent::TypingRequestFailed { message, generation }, now_ms, out),
    {
        let nothing = DumpRequest::Nothing;
            if generation != self.agent_generation {
                return ApplyOutcome { changed: false, dump: nothing };
            }
            if self.typing.discard_pending_typing_output {
                self.typing.finish_discarded_request(now_ms);
                return ApplyOutcome { changed: true, dump: nothing };
            }
            self.typing.finish_request();
            self.typing.record_error(message.clone());
            self.typing.paste_status = message.clone();
            let full = prefixed_text("Typing request failed: ", message.as_str());
            self.record_error(full.as_str(), now_ms);
            ApplyOutcome { changed: true, dump: nothing }
    }

    #[verifier::spinoff_prover]
    #[verifier::rlimit(100)]
    fn apply_typing_output(&mut self, raw_text: String, typed_text: String, display_note: String, usage: Option<AgentUsage>, elapsed_ms: u64, paste_status: String, generation: u64, now_ms: u64) -> (out: ApplyOutcome)
        requires
            apply_requires(*old(self), UiEvent::TypingOutput { raw_text, typed_text, display_note, usage, elapsed_ms, paste_status, generation }),
        ensures
            final(self).wf(),
            apply_post(*old(self), *final(self), UiEvent::TypingOutput { raw_text, typed_text, display_note, usage, elapsed_ms, paste_status, generation }, now_ms, out),
    {
        let nothing = DumpRequest::Nothing;
        let stale = generation != self.agent_generation;
        let kind = self.typing.receive_output(raw_text, typed_text, display_note, usage, paste_status, stale, now_ms);
        if kind == 0 {
            return ApplyOutcome { changed: usage.is_some(), dump: nothing };
        }
        if kind == 1 {
            self.status = updated_in("enhanced typing cleared in ", elapsed_ms);
        } else {
            self.status = updated_in("enhanced typing updated in ", elapsed_ms);
        }
        ApplyOutcome { changed: true, dump: nothing }
    }

    #[verifier::spinoff_prover]
    #[verifier::rlimit(100)]
    fn apply_transparency_failed(&mut self, mode: AppMode, generation: u64, message: String, now_ms: u64) -> (out: ApplyOutcome)
        requires
            apply_requires(*old(self), UiEvent::TransparencyFailed { mode, generation, message }),
        ensures
            final(self).wf(),
            apply_post(*old(self), *final(self), UiEvent::TransparencyFailed { mode, generation, message }, now_ms, out),
    {
        let nothing = DumpRequest::Nothing;
            match mode {
                AppMode::Transcription => {
                    if generation != self.transcription_settings.transparency_generation {
                        return ApplyOutcome { changed: false, dump: nothing };
                    }
                    self.transcription_settings.note = Some(message.clone());
                },
                AppMode::EnhancedTyping => {
                    if generation != self.typing.transparency_generation {
                        return ApplyOutcome { changed: false, dump: nothing };
                    }
                    self.typing.settings_note = Some(message.clone());
                },
            }
            let full = prefixed_text("Transparency update failed: ", message.as_str());
            self.record_error(full.as_str(), now_ms);
            ApplyOutcome { changed: true, dump: nothing }
    }
}

} // verus!
