//! Carrying a transcription session across a restart: the snapshot taken
//! before the process exits with the restart code, and how the next process
//! takes it back. Times in the snapshot are ages in milliseconds; the time
//! the process was down is added to each of them on the way back.
use vstd::prelude::*;

use crate::agent::AgentInput;
use crate::app_state::{transcript_of, AppState};
use crate::blocks::{TranscriptBlock, TranscriptState, TranscriptWord};
use crate::delta::{compact_error, compact_error_spec};
use crate::errors::{sat_add, AppErrorEntry, ErrorLog, ERROR_BUFFER_CAPACITY, ERROR_MESSAGE_CHARS};
use crate::agent_config::{fields_view, AgentFieldModel};
use crate::insight::{agent_result_matches_fields, matches_fields_spec};
use crate::json::{clone_value, has_content, value_has_content, JsonValue};
use crate::panes::{apply_field_spec, AgentFieldState, AgentPaneState};
use crate::modes::SourceKind;
use crate::numbers::decimal;
use crate::stream::sat_sub;
use crate::text::trim;

verus! {

/// The snapshot format this build writes and reads.
pub const TRANSCRIPTION_RESTART_STATE_VERSION: u32 = 2;

/// How far back in time the saving clock may be ahead, in milliseconds.
pub const RESTART_CLOCK_SKEW_MS: u64 = 60000;

/// A transcript word and how long ago it was first seen.
pub struct RestartTranscriptWord {
    pub text: String,
    pub age_ms: u64,
}

/// A transcript block.
pub struct RestartTranscriptBlock {
    pub text: String,
    pub words: Vec<RestartTranscriptWord>,
}

/// The blocks of one source.
pub struct RestartTranscriptEntry {
    pub source: SourceKind,
    pub blocks: Vec<RestartTranscriptBlock>,
}

/// A kept error.
pub struct RestartErrorEntry {
    pub elapsed_ms: u64,
    pub message: String,
    pub repeat_count: u32,
}

/// The part of the snapshot that holds what was said; it travels encrypted.
pub struct TranscriptionRestartContext {
    pub transcripts: Vec<RestartTranscriptEntry>,
    pub agent_result: JsonValue,
    pub agent_last_successful_input: Option<AgentInput>,
    pub errors: Vec<RestartErrorEntry>,
}

/// The snapshot. `protected_context` is the encrypted context as written to
/// disk; `context` is the same context in the clear, once decrypted.
pub struct TranscriptionRestartState {
    pub version: u32,
    pub saved_at_unix_ms: u64,
    pub session_elapsed_ms: u64,
    pub idle_elapsed_ms: u64,
    pub hidden_elapsed_ms: Option<u64>,
    pub agent_inactive_elapsed_ms: Option<u64>,
    pub agent_request_count: u64,
    pub agent_input_tokens: u64,
    pub agent_output_tokens: u64,
    pub agent_total_tokens: u64,
    pub agent_last_total_tokens: Option<u64>,
    pub agent_last_query_bytes: Option<u64>,
    pub agent_token_limit: Option<u64>,
    pub token_budget_prompt_open: bool,
    pub token_budget_prompt_dismissed: bool,
    pub force_agent_update: bool,
    pub discarded_error_count: u64,
    pub protected_context: String,
    pub context: Option<TranscriptionRestartContext>,
}

/// Which age of the snapshot could not be placed on this process's clock.
#[derive(Clone, Copy, Debug, PartialEq, Eq, Structural)]
pub enum RestartClock {
    SessionElapsed,
    IdleElapsed,
    HiddenElapsed,
    AgentInactiveElapsed,
    TranscriptWordAge,
}

/// Why a snapshot was refused.
#[derive(Clone, Copy, Debug, PartialEq, Eq, Structural)]
pub enum RestoreError {
    UnsupportedVersion(u32),
    FutureTimestamp,
    InvalidTime(RestartClock),
    InvalidQuerySize,
    MissingContext,
}

/// The name of an age in messages.
pub open spec fn clock_label(c: RestartClock) -> Seq<char> {
    match c {
        RestartClock::SessionElapsed => "session elapsed time"@,
        RestartClock::IdleElapsed => "idle elapsed time"@,
        RestartClock::HiddenElapsed => "hidden elapsed time"@,
        RestartClock::AgentInactiveElapsed => "Agent inactive elapsed time"@,
        RestartClock::TranscriptWordAge => "transcript word age"@,
    }
}

/// The message of a refusal.
pub open spec fn restore_message(e: RestoreError) -> Seq<char> {
    match e {
        RestoreError::UnsupportedVersion(v) => "unsupported transcription restart-state version "@ + decimal(v as nat),
        RestoreError::FutureTimestamp => "transcription restart state has a future timestamp"@,
        RestoreError::InvalidTime(c) => "transcription restart state has invalid "@ + clock_label(c),
        RestoreError::InvalidQuerySize => "transcription restart state has an invalid query size"@,
        RestoreError::MissingContext => "transcription restart state has no protected context"@,
    }
}

impl RestoreError {
    /// The message shown for the refusal.
    pub fn message(&self) -> (r: String)
        ensures
            r@ == restore_message(*self),
    {
        let (head, tail) = match self {
            RestoreError::UnsupportedVersion(v) => (
                "unsupported transcription restart-state version ",
                crate::numbers::decimal_chars(*v as u64),
            ),
            RestoreError::FutureTimestamp => ("transcription restart state has a future timestamp", Vec::new()),
            RestoreError::InvalidTime(c) => {
                let label = match c {
                    RestartClock::SessionElapsed => "session elapsed time",
                    RestartClock::IdleElapsed => "idle elapsed time",
                    RestartClock::HiddenElapsed => "hidden elapsed time",
                    RestartClock::AgentInactiveElapsed => "Agent inactive elapsed time",
                    RestartClock::TranscriptWordAge => "transcript word age",
                };
                ("transcription restart state has invalid ", crate::text::chars_of(label))
            },
            RestoreError::InvalidQuerySize => ("transcription restart state has an invalid query size", Vec::new()),
            RestoreError::MissingContext => ("transcription restart state has no protected context", Vec::new()),
        };
        let mut out = crate::text::chars_of(head);
        crate::text::append_chars(&mut out, &tail);
        crate::text::string_of(&out)
    }
}

/// The time on this process's clock `elapsed_ms` plus the downtime before
/// `now_ms`, if the clock reaches that far back.
pub open spec fn restored_at(elapsed_ms: u64, downtime_ms: u64, now_ms: u64) -> Option<u64> {
    let back = sat_add(elapsed_ms, downtime_ms);
    if back <= now_ms {
        Some((now_ms - back) as u64)
    } else {
        None
    }
}

/// How long the process was down: from the save to now, never negative.
pub open spec fn downtime_of(saved: TranscriptionRestartState, now_unix_ms: u64) -> u64 {
    sat_sub(now_unix_ms, saved.saved_at_unix_ms)
}

fn restore_time(elapsed_ms: u64, downtime_ms: u64, now_ms: u64) -> (r: Option<u64>)
    ensures
        r == restored_at(elapsed_ms, downtime_ms, now_ms),
{
    let back = elapsed_ms.saturating_add(downtime_ms);
    if back <= now_ms {
        Some(now_ms - back)
    } else {
        None
    }
}

/// Whether every word age of the entries can be placed on the clock.
pub open spec fn ages_fit(es: Seq<RestartTranscriptEntry>, downtime_ms: u64, now_ms: u64) -> bool {
    forall|i: int, j: int, k: int|
        0 <= i < es.len() && 0 <= j < es[i].blocks@.len() && 0 <= k < es[i].blocks@[j].words@.len()
            ==> #[trigger] restored_at(es[i].blocks@[j].words@[k].age_ms, downtime_ms, now_ms) is Some
}

/// Whether an optional age can be placed on the clock.
pub open spec fn opt_fits(o: Option<u64>, downtime_ms: u64, now_ms: u64) -> bool {
    match o {
        Some(e) => restored_at(e, downtime_ms, now_ms) is Some,
        None => true,
    }
}

/// An optional age placed on the clock.
pub open spec fn opt_restored(o: Option<u64>, downtime_ms: u64, now_ms: u64) -> Option<u64> {
    match o {
        Some(e) => restored_at(e, downtime_ms, now_ms),
        None => None,
    }
}

/// Why a snapshot is refused at `now_unix_ms` (wall clock) and `now_ms`
/// (this process's clock), checked in this order, or `None`.
pub open spec fn restore_error(saved: TranscriptionRestartState, now_unix_ms: u64, now_ms: u64) -> Option<RestoreError> {
    let d = downtime_of(saved, now_unix_ms);
    if saved.version != TRANSCRIPTION_RESTART_STATE_VERSION {
        Some(RestoreError::UnsupportedVersion(saved.version))
    } else if saved.saved_at_unix_ms > sat_add(now_unix_ms, RESTART_CLOCK_SKEW_MS) {
        Some(RestoreError::FutureTimestamp)
    } else if restored_at(saved.session_elapsed_ms, d, now_ms) is None {
        Some(RestoreError::InvalidTime(RestartClock::SessionElapsed))
    } else if restored_at(saved.idle_elapsed_ms, d, now_ms) is None {
        Some(RestoreError::InvalidTime(RestartClock::IdleElapsed))
    } else if !opt_fits(saved.hidden_elapsed_ms, d, now_ms) {
        Some(RestoreError::InvalidTime(RestartClock::HiddenElapsed))
    } else if !opt_fits(saved.agent_inactive_elapsed_ms, d, now_ms) {
        Some(RestoreError::InvalidTime(RestartClock::AgentInactiveElapsed))
    } else if (match saved.agent_last_query_bytes {
        Some(b) => b > usize::MAX,
        None => false,
    }) {
        Some(RestoreError::InvalidQuerySize)
    } else if saved.context is None {
        Some(RestoreError::MissingContext)
    } else if !ages_fit(saved.context.unwrap().transcripts@, d, now_ms) {
        Some(RestoreError::InvalidTime(RestartClock::TranscriptWordAge))
    } else {
        None
    }
}

fn ages_fit_exec(es: &Vec<RestartTranscriptEntry>, downtime_ms: u64, now_ms: u64) -> (r: bool)
    ensures
        r == ages_fit(es@, downtime_ms, now_ms),
{
    let mut i: usize = 0;
    while i < es.len()
        invariant
            i <= es.len(),
            forall|a: int, j: int, k: int|
                0 <= a < i && 0 <= j < es@[a].blocks@.len() && 0 <= k < es@[a].blocks@[j].words@.len()
                    ==> #[trigger] restored_at(es@[a].blocks@[j].words@[k].age_ms, downtime_ms, now_ms) is Some,
        decreases es.len() - i,
    {
        let blocks = &es[i].blocks;
        let mut j: usize = 0;
        while j < blocks.len()
            invariant
                i < es.len(),
                blocks@ == es@[i as int].blocks@,
                j <= blocks.len(),
                forall|a: int, jj: int, k: int|
                    0 <= a < i && 0 <= jj < es@[a].blocks@.len() && 0 <= k < es@[a].blocks@[jj].words@.len()
                        ==> #[trigger] restored_at(es@[a].blocks@[jj].words@[k].age_ms, downtime_ms, now_ms) is Some,
                forall|jj: int, k: int|
                    0 <= jj < j && 0 <= k < blocks@[jj].words@.len()
                        ==> #[trigger] restored_at(blocks@[jj].words@[k].age_ms, downtime_ms, now_ms) is Some,
            decreases blocks.len() - j,
        {
            let words = &blocks[j].words;
            let mut k: usize = 0;
            while k < words.len()
                invariant
                    i < es.len(),
                    blocks@ == es@[i as int].blocks@,
                    j < blocks.len(),
                    words@ == blocks@[j as int].words@,
                    k <= words.len(),
                    forall|kk: int| 0 <= kk < k ==> #[trigger] restored_at(words@[kk].age_ms, downtime_ms, now_ms) is Some,
                decreases words.len() - k,
            {
                if restore_time(words[k].age_ms, downtime_ms, now_ms).is_none() {
                    proof {
                        assert(restored_at(es@[i as int].blocks@[j as int].words@[k as int].age_ms, downtime_ms, now_ms) is None);
                    }
                    return false;
                }
                k += 1;
            }
            proof {
                assert forall|jj: int, kk: int|
                    0 <= jj < j + 1 && 0 <= kk < blocks@[jj].words@.len()
                        implies #[trigger] restored_at(blocks@[jj].words@[kk].age_ms, downtime_ms, now_ms) is Some by {
                    if jj == j {
                        assert(restored_at(words@[kk].age_ms, downtime_ms, now_ms) is Some);
                    }
                }
            }
            j += 1;
        }
        proof {
            assert forall|a: int, jj: int, k: int|
                0 <= a < i + 1 && 0 <= jj < es@[a].blocks@.len() && 0 <= k < es@[a].blocks@[jj].words@.len()
                    implies #[trigger] restored_at(es@[a].blocks@[jj].words@[k].age_ms, downtime_ms, now_ms) is Some by {
                if a == i {
                    assert(restored_at(blocks@[jj].words@[k].age_ms, downtime_ms, now_ms) is Some);
                }
            }
        }
        i += 1;
    }
    true
}

/// Checks a snapshot before anything of it is taken; returns the downtime.
pub fn check_restart_state(saved: &TranscriptionRestartState, now_unix_ms: u64, now_ms: u64) -> (r: Result<u64, RestoreError>)
    ensures
        match r {
            Ok(d) => restore_error(*saved, now_unix_ms, now_ms) is None && d == downtime_of(*saved, now_unix_ms),
            Err(e) => restore_error(*saved, now_unix_ms, now_ms) == Some(e),
        },
{
    if saved.version != TRANSCRIPTION_RESTART_STATE_VERSION {
        return Err(RestoreError::UnsupportedVersion(saved.version));
    }
    if saved.saved_at_unix_ms > now_unix_ms.saturating_add(RESTART_CLOCK_SKEW_MS) {
        return Err(RestoreError::FutureTimestamp);
    }
    let d = now_unix_ms.saturating_sub(saved.saved_at_unix_ms);
    if restore_time(saved.session_elapsed_ms, d, now_ms).is_none() {
        return Err(RestoreError::InvalidTime(RestartClock::SessionElapsed));
    }
    if restore_time(saved.idle_elapsed_ms, d, now_ms).is_none() {
        return Err(RestoreError::InvalidTime(RestartClock::IdleElapsed));
    }
    if let Some(h) = saved.hidden_elapsed_ms {
        if restore_time(h, d, now_ms).is_none() {
            return Err(RestoreError::InvalidTime(RestartClock::HiddenElapsed));
        }
    }
    if let Some(a) = saved.agent_inactive_elapsed_ms {
        if restore_time(a, d, now_ms).is_none() {
            return Err(RestoreError::InvalidTime(RestartClock::AgentInactiveElapsed));
        }
    }
    if let Some(b) = saved.agent_last_query_bytes {
        if b > usize::MAX as u64 {
            return Err(RestoreError::InvalidQuerySize);
        }
    }
    match &saved.context {
        None => Err(RestoreError::MissingContext),
        Some(context) => {
            if ages_fit_exec(&context.transcripts, d, now_ms) {
                Ok(d)
            } else {
                Err(RestoreError::InvalidTime(RestartClock::TranscriptWordAge))
            }
        },
    }
}

/// A word taken back: same text, first seen its age plus the downtime ago.
pub open spec fn word_restored(w: TranscriptWord, saved: RestartTranscriptWord, downtime_ms: u64, now_ms: u64) -> bool {
    &&& w.text@ == saved.text@
    &&& restored_at(saved.age_ms, downtime_ms, now_ms) == Some(w.first_seen)
}

/// A block taken back word by word.
pub open spec fn block_restored(b: TranscriptBlock, saved: RestartTranscriptBlock, downtime_ms: u64, now_ms: u64) -> bool {
    &&& b.text@ == saved.text@
    &&& b.words@.len() == saved.words@.len()
    &&& forall|k: int| 0 <= k < b.words@.len() ==> #[trigger] word_restored(b.words@[k], saved.words@[k], downtime_ms, now_ms)
}

/// A transcript taken back block by block.
pub open spec fn transcript_restored(t: TranscriptState, saved: RestartTranscriptEntry, downtime_ms: u64, now_ms: u64) -> bool {
    &&& t.blocks@.len() == saved.blocks@.len()
    &&& forall|j: int| 0 <= j < t.blocks@.len() ==> #[trigger] block_restored(t.blocks@[j], saved.blocks@[j], downtime_ms, now_ms)
}

/// The last entry of the list for `source`: a later entry replaces an
/// earlier one.
pub open spec fn last_entry_index(es: Seq<RestartTranscriptEntry>, source: SourceKind) -> Option<int>
    decreases es.len(),
{
    if es.len() == 0 {
        None
    } else if es.last().source == source {
        Some(es.len() - 1)
    } else {
        last_entry_index(es.drop_last(), source)
    }
}

proof fn lemma_last_entry_index_bounds(es: Seq<RestartTranscriptEntry>, source: SourceKind)
    ensures
        match last_entry_index(es, source) {
            Some(i) => 0 <= i < es.len() && es[i].source == source,
            None => true,
        },
    decreases es.len(),
{
    if es.len() > 0 && es.last().source != source {
        lemma_last_entry_index_bounds(es.drop_last(), source);
    }
}

/// The transcript of `source` after taking back the entries.
pub open spec fn source_restored(t: Option<TranscriptState>, es: Seq<RestartTranscriptEntry>, source: SourceKind, downtime_ms: u64, now_ms: u64) -> bool {
    match last_entry_index(es, source) {
        None => t is None,
        Some(i) => t is Some && transcript_restored(t.unwrap(), es[i], downtime_ms, now_ms),
    }
}

fn restore_block(saved: &RestartTranscriptBlock, downtime_ms: u64, now_ms: u64) -> (r: TranscriptBlock)
    requires
        forall|k: int| 0 <= k < saved.words@.len() ==> #[trigger] restored_at(saved.words@[k].age_ms, downtime_ms, now_ms) is Some,
    ensures
        block_restored(r, *saved, downtime_ms, now_ms),
{
    let mut words: Vec<TranscriptWord> = Vec::new();
    let mut k: usize = 0;
    while k < saved.words.len()
        invariant
            k <= saved.words.len(),
            words@.len() == k,
            forall|kk: int| 0 <= kk < saved.words@.len() ==> #[trigger] restored_at(saved.words@[kk].age_ms, downtime_ms, now_ms) is Some,
            forall|kk: int| 0 <= kk < k ==> #[trigger] word_restored(words@[kk], saved.words@[kk], downtime_ms, now_ms),
        decreases saved.words.len() - k,
    {
        let w = &saved.words[k];
        assert(restored_at(saved.words@[k as int].age_ms, downtime_ms, now_ms) is Some);
        let back = w.age_ms.saturating_add(downtime_ms);
        let first_seen = now_ms - back;
        words.push(TranscriptWord { text: w.text.clone(), first_seen });
        proof {
            assert(word_restored(words@[k as int], saved.words@[k as int], downtime_ms, now_ms));
        }
        k += 1;
    }
    TranscriptBlock { text: saved.text.clone(), words }
}

fn restore_transcript(saved: &RestartTranscriptEntry, downtime_ms: u64, now_ms: u64) -> (r: TranscriptState)
    requires
        forall|j: int, k: int|
            0 <= j < saved.blocks@.len() && 0 <= k < saved.blocks@[j].words@.len()
                ==> #[trigger] restored_at(saved.blocks@[j].words@[k].age_ms, downtime_ms, now_ms) is Some,
    ensures
        transcript_restored(r, *saved, downtime_ms, now_ms),
{
    let mut blocks: Vec<TranscriptBlock> = Vec::new();
    let mut j: usize = 0;
    while j < saved.blocks.len()
        invariant
            j <= saved.blocks.len(),
            blocks@.len() == j,
            forall|jj: int, k: int|
                0 <= jj < saved.blocks@.len() && 0 <= k < saved.blocks@[jj].words@.len()
                    ==> #[trigger] restored_at(saved.blocks@[jj].words@[k].age_ms, downtime_ms, now_ms) is Some,
            forall|jj: int| 0 <= jj < j ==> #[trigger] block_restored(blocks@[jj], saved.blocks@[jj], downtime_ms, now_ms),
        decreases saved.blocks.len() - j,
    {
        let b = restore_block(&saved.blocks[j], downtime_ms, now_ms);
        blocks.push(b);
        j += 1;
    }
    TranscriptState { blocks }
}

/// Takes back the transcripts of the entries: the microphone's and the
/// system output's.
pub fn restore_transcripts(es: &Vec<RestartTranscriptEntry>, downtime_ms: u64, now_ms: u64) -> (r: (Option<TranscriptState>, Option<TranscriptState>))
    requires
        ages_fit(es@, downtime_ms, now_ms),
    ensures
        source_restored(r.0, es@, SourceKind::Microphone, downtime_ms, now_ms),
        source_restored(r.1, es@, SourceKind::SystemOutput, downtime_ms, now_ms),
{
    let mut microphone: Option<TranscriptState> = None;
    let mut system: Option<TranscriptState> = None;
    let mut i: usize = 0;
    while i < es.len()
        invariant
            i <= es.len(),
            ages_fit(es@, downtime_ms, now_ms),
            source_restored(microphone, es@.take(i as int), SourceKind::Microphone, downtime_ms, now_ms),
            source_restored(system, es@.take(i as int), SourceKind::SystemOutput, downtime_ms, now_ms),
        decreases es.len() - i,
    {
        let e = &es[i];
        proof {
            assert forall|j: int, k: int|
                0 <= j < e.blocks@.len() && 0 <= k < e.blocks@[j].words@.len()
                    implies #[trigger] restored_at(e.blocks@[j].words@[k].age_ms, downtime_ms, now_ms) is Some by {
                assert(restored_at(es@[i as int].blocks@[j].words@[k].age_ms, downtime_ms, now_ms) is Some);
            }
        }
        let t = restore_transcript(e, downtime_ms, now_ms);
        let ghost pre = es@.take(i as int);
        let ghost post = es@.take(i + 1);
        proof {
            assert(post.drop_last() =~= pre);
            assert(post.last() == es@[i as int]);
            lemma_last_entry_index_bounds(pre, SourceKind::Microphone);
            lemma_last_entry_index_bounds(pre, SourceKind::SystemOutput);
            assert forall|x: int| 0 <= x < i implies #[trigger] post[x] == pre[x] by {}
        }
        match e.source {
            SourceKind::Microphone => microphone = Some(t),
            SourceKind::SystemOutput => system = Some(t),
        }
        proof {
            assert(last_entry_index(post, e.source) == Some(i as int));
            match last_entry_index(pre, SourceKind::Microphone) {
                Some(x) => { assert(post[x] == pre[x]); },
                None => {},
            }
            match last_entry_index(pre, SourceKind::SystemOutput) {
                Some(x) => { assert(post[x] == pre[x]); },
                None => {},
            }
        }
        i += 1;
    }
    proof {
        assert(es@.take(es.len() as int) =~= es@);
    }
    (microphone, system)
}

/// How often an error counts: its repeat count, at least once.
pub open spec fn weight(repeat_count: u32) -> u64 {
    if repeat_count == 0 { 1 } else { repeat_count as u64 }
}

/// The occurrences of the entries, summed without overflow.
pub open spec fn repeats_of(es: Seq<RestartErrorEntry>) -> u64
    decreases es.len(),
{
    if es.len() == 0 {
        0
    } else {
        sat_add(repeats_of(es.drop_last()), weight(es.last().repeat_count))
    }
}

/// How many of `n` saved errors do not fit in the buffer.
pub open spec fn skipped_count(n: int) -> int {
    if n > ERROR_BUFFER_CAPACITY { n - ERROR_BUFFER_CAPACITY } else { 0 }
}

/// An error entry as plain values.
pub open spec fn entry_model(e: AppErrorEntry) -> (u64, Seq<char>, u32) {
    (e.elapsed_ms, e.message@, e.repeat_count)
}

/// The entries kept of the saved ones: the non-blank messages, trimmed
/// and compacted, each counted at least once.
pub open spec fn kept_errors(es: Seq<RestartErrorEntry>) -> Seq<(u64, Seq<char>, u32)>
    decreases es.len(),
{
    if es.len() == 0 {
        Seq::empty()
    } else {
        let rest = kept_errors(es.drop_last());
        let e = es.last();
        let m = trim(e.message@);
        if m.len() == 0 {
            rest
        } else {
            rest.push((e.elapsed_ms, compact_error_spec(m, ERROR_MESSAGE_CHARS as int), if e.repeat_count == 0 { 1u32 } else { e.repeat_count }))
        }
    }
}

/// The error buffer taken back from saved errors: the last entries that fit,
/// the earlier ones counted as discarded on top of those already counted.
pub open spec fn errors_restored(log: ErrorLog, discarded: u64, es: Seq<RestartErrorEntry>) -> bool {
    let k = skipped_count(es.len() as int);
    &&& log.entries@.map_values(|e: AppErrorEntry| entry_model(e)) == kept_errors(es.subrange(k, es.len() as int))
    &&& log.discarded_count == sat_add(discarded, repeats_of(es.take(k)))
}

/// Takes back the error buffer; the revision becomes 1 when something is
/// shown, and stays `revision` otherwise.
pub fn restore_errors(discarded: u64, es: &Vec<RestartErrorEntry>, revision: u64) -> (r: ErrorLog)
    ensures
        r.wf(),
        errors_restored(r, discarded, es@),
        r.revision == (if r.entries@.len() > 0 || r.discarded_count > 0 { 1 } else { revision }),
{
    let skipped: usize = if es.len() > ERROR_BUFFER_CAPACITY { es.len() - ERROR_BUFFER_CAPACITY } else { 0 };
    let mut repeats: u64 = 0;
    let mut i: usize = 0;
    while i < skipped
        invariant
            skipped <= es.len(),
            i <= skipped,
            repeats == repeats_of(es@.take(i as int)),
        decreases skipped - i,
    {
        let rc = es[i].repeat_count;
        let w: u64 = if rc == 0 { 1 } else { rc as u64 };
        proof {
            assert(es@.take(i + 1).drop_last() =~= es@.take(i as int));
        }
        repeats = repeats.saturating_add(w);
        i += 1;
    }
    let mut log = ErrorLog::new();
    log.discarded_count = discarded.saturating_add(repeats);
    let mut j: usize = skipped;
    while j < es.len()
        invariant
            skipped <= j <= es.len(),
            skipped as int == skipped_count(es.len() as int),
            log.entries@.len() <= j - skipped,
            forall|x: int| 0 <= x < log.entries@.len() ==> (#[trigger] log.entries@[x]).repeat_count >= 1,
            log.entries@.map_values(|e: AppErrorEntry| entry_model(e)) == kept_errors(es@.subrange(skipped as int, j as int)),
            log.discarded_count == sat_add(discarded, repeats_of(es@.take(skipped as int))),
            log.revision == 0,
        decreases es.len() - j,
    {
        let e = &es[j];
        let trimmed = crate::text::trim_string(e.message.as_str());
        let ghost before = log.entries@;
        proof {
            assert(es@.subrange(skipped as int, j + 1).drop_last() =~= es@.subrange(skipped as int, j as int));
            assert(es@.subrange(skipped as int, j + 1).last() == es@[j as int]);
        }
        let trimmed_chars = crate::text::chars_of(trimmed.as_str());
        if trimmed_chars.len() > 0 {
            let message = compact_error(trimmed.as_str(), ERROR_MESSAGE_CHARS);
            let repeat_count: u32 = if e.repeat_count == 0 { 1 } else { e.repeat_count };
            log.entries.push_back(AppErrorEntry { elapsed_ms: e.elapsed_ms, message, repeat_count });
            proof {
                assert(log.entries@.map_values(|e: AppErrorEntry| entry_model(e)) =~= before.map_values(|e: AppErrorEntry| entry_model(e)).push(entry_model(log.entries@.last())));
            }
        }
        j += 1;
    }
    proof {
        assert(es@.subrange(skipped as int, es.len() as int).len() == es.len() - skipped);
    }
    if log.entries.len() > 0 || log.discarded_count > 0 {
        log.revision = 1;
    } else {
        log.revision = revision;
    }
    log
}

/// Whether the microphone transcript goes to the agent under the active
/// settings.
pub open spec fn keeps_microphone(s: AppState) -> bool {
    s.transcription_settings.active.include_microphone && s.transcription_settings.active.sources@.contains(
        SourceKind::Microphone,
    )
}

/// The last agent input taken back: not forced, of the current generation,
/// without the microphone transcript unless it still goes to the agent.
pub open spec fn restored_input(i: AgentInput, generation: u64, keep_microphone: bool) -> AgentInput {
    AgentInput {
        force: false,
        generation,
        microphone_transcript: if keep_microphone { i.microphone_transcript } else { None },
        ..i
    }
}

/// The field configurations of the insight pane.
pub open spec fn pane_configs(a: AgentPaneState) -> Seq<AgentFieldModel> {
    a.fields@.map_values(|f: AgentFieldState| f.config@)
}

/// The insight pane after taking back a context: a saved answer that still
/// fits the fields becomes the canonical result and is shown at once; the
/// last input is taken back in any case.
pub open spec fn agent_restored(a: AgentPaneState, n: AgentPaneState, ctx: TranscriptionRestartContext, generation: u64, keep_microphone: bool, now_ms: u64) -> bool {
    let fits = matches_fields_spec(ctx.agent_result@, pane_configs(a));
    &&& n.last_successful_input == (match ctx.agent_last_successful_input {
        Some(i) => Some(restored_input(i, generation, keep_microphone)),
        None => None,
    })
    &&& (if fits { n.canonical_result@ == ctx.agent_result@ } else { n.canonical_result == a.canonical_result })
    &&& (if fits && has_content(ctx.agent_result@) {
        &&& n.fields.len() == a.fields.len()
        &&& forall|i: int| 0 <= i < a.fields.len() ==> (#[trigger] n.fields@[i])@ == apply_field_spec(a.fields@[i]@, ctx.agent_result@, true, now_ms).0
    } else {
        n.fields == a.fields
    })
    &&& n == (AgentPaneState {
        fields: n.fields,
        canonical_result: n.canonical_result,
        last_successful_input: n.last_successful_input,
        ..a
    })
}

fn restore_agent(agent: &mut AgentPaneState, ctx: &TranscriptionRestartContext, generation: u64, keep_microphone: bool, now_ms: u64)
    ensures
        agent_restored(*old(agent), *final(agent), *ctx, generation, keep_microphone, now_ms),
{
    let configs = agent.field_configs();
    proof {
        assert(fields_view(configs@) =~= pane_configs(*agent));
    }
    if agent_result_matches_fields(&ctx.agent_result, &configs) {
        agent.canonical_result = clone_value(&ctx.agent_result);
        if value_has_content(&ctx.agent_result) {
            let _ = agent.apply_result(&ctx.agent_result, true, now_ms);
        }
    }
    agent.last_successful_input = match &ctx.agent_last_successful_input {
        Some(i) => {
            let mut x = i.clone();
            x.force = false;
            x.generation = generation;
            if !keep_microphone {
                x.microphone_transcript = None;
            }
            Some(x)
        },
        None => None,
    };
}

/// The insight pane with the counters of the snapshot.
pub open spec fn counted_agent(a: AgentPaneState, saved: TranscriptionRestartState) -> AgentPaneState {
    AgentPaneState {
        request_count: saved.agent_request_count,
        input_tokens: saved.agent_input_tokens,
        output_tokens: saved.agent_output_tokens,
        total_tokens: saved.agent_total_tokens,
        last_total_tokens: saved.agent_last_total_tokens,
        last_query_bytes: match saved.agent_last_query_bytes {
            Some(b) => Some(b as usize),
            None => None,
        },
        ..a
    }
}

/// The session after taking back a snapshot that passed the checks at
/// `now_unix_ms` (wall clock) and `now_ms` (this process's clock).
pub open spec fn restore_post(s: AppState, n: AppState, saved: TranscriptionRestartState, now_unix_ms: u64, now_ms: u64) -> bool {
    let d = downtime_of(saved, now_unix_ms);
    let ctx = saved.context.unwrap();
    let counted = counted_agent(s.agent, saved);
    &&& Some(n.started_at_ms) == restored_at(saved.session_elapsed_ms, d, now_ms)
    &&& Some(n.last_context_activity_at_ms) == restored_at(saved.idle_elapsed_ms, d, now_ms)
    &&& n.hidden_since_ms == opt_restored(saved.hidden_elapsed_ms, d, now_ms)
    &&& n.agent_inactive_since_ms == opt_restored(saved.agent_inactive_elapsed_ms, d, now_ms)
    &&& n.agent_token_limit == saved.agent_token_limit
    &&& n.token_budget_prompt_open == saved.token_budget_prompt_open
    &&& n.token_budget_prompt_dismissed == saved.token_budget_prompt_dismissed
    &&& source_restored(n.microphone_transcript, ctx.transcripts@, SourceKind::Microphone, d, now_ms)
    &&& source_restored(n.system_transcript, ctx.transcripts@, SourceKind::SystemOutput, d, now_ms)
    &&& errors_restored(n.errors, saved.discarded_error_count, ctx.errors@)
    &&& n.errors.revision == (if n.errors.entries@.len() > 0 || n.errors.discarded_count > 0 { 1 } else { s.errors.revision })
    &&& (if saved.force_agent_update {
        n.agent == counted
    } else {
        agent_restored(counted, n.agent, ctx, s.agent_generation, keeps_microphone(s), now_ms)
    })
    &&& n == (AppState {
        started_at_ms: n.started_at_ms,
        last_context_activity_at_ms: n.last_context_activity_at_ms,
        hidden_since_ms: n.hidden_since_ms,
        agent_inactive_since_ms: n.agent_inactive_since_ms,
        agent: n.agent,
        microphone_transcript: n.microphone_transcript,
        system_transcript: n.system_transcript,
        errors: n.errors,
        agent_token_limit: n.agent_token_limit,
        token_budget_prompt_open: n.token_budget_prompt_open,
        token_budget_prompt_dismissed: n.token_budget_prompt_dismissed,
        ..s
    })
}

impl AppState {
    /// Takes back a snapshot saved before a restart, at `now_unix_ms` on the
    /// wall clock and `now_ms` on this process's clock. A refused snapshot
    /// (see `restore_error`) leaves the session as it was.
    #[verifier::spinoff_prover]
    #[verifier::rlimit(100)]
    pub fn restore_restart_state(&mut self, saved: &TranscriptionRestartState, now_unix_ms: u64, now_ms: u64) -> (r: Result<(), RestoreError>)
        requires
            old(self).wf(),
        ensures
            final(self).wf(),
            match r {
                Ok(()) => restore_error(*saved, now_unix_ms, now_ms) is None && restore_post(*old(self), *final(self), *saved, now_unix_ms, now_ms),
                Err(e) => restore_error(*saved, now_unix_ms, now_ms) == Some(e) && *final(self) == *old(self),
            },
    {
        let d = match check_restart_state(saved, now_unix_ms, now_ms) {
            Ok(d) => d,
            Err(e) => return Err(e),
        };
        let context = match &saved.context {
            Some(c) => c,
            None => return Err(RestoreError::MissingContext),
        };
        let keep_microphone = self.transcription_settings.active.include_microphone
            && crate::normalize::contains_source(&self.transcription_settings.active.sources, SourceKind::Microphone);
        let ghost s0 = *self;
        self.started_at_ms = now_ms - saved.session_elapsed_ms.saturating_add(d);
        self.last_context_activity_at_ms = now_ms - saved.idle_elapsed_ms.saturating_add(d);
        self.hidden_since_ms = match saved.hidden_elapsed_ms {
            Some(h) => Some(now_ms - h.saturating_add(d)),
            None => None,
        };
        self.agent_inactive_since_ms = match saved.agent_inactive_elapsed_ms {
            Some(a) => Some(now_ms - a.saturating_add(d)),
            None => None,
        };
        self.agent.request_count = saved.agent_request_count;
        self.agent.input_tokens = saved.agent_input_tokens;
        self.agent.output_tokens = saved.agent_output_tokens;
        self.agent.total_tokens = saved.agent_total_tokens;
        self.agent.last_total_tokens = saved.agent_last_total_tokens;
        self.agent.last_query_bytes = match saved.agent_last_query_bytes {
            Some(b) => Some(b as usize),
            None => None,
        };
        self.agent_token_limit = saved.agent_token_limit;
        self.token_budget_prompt_open = saved.token_budget_prompt_open;
        self.token_budget_prompt_dismissed = saved.token_budget_prompt_dismissed;
        let (microphone, system) = restore_transcripts(&context.transcripts, d, now_ms);
        self.microphone_transcript = microphone;
        self.system_transcript = system;
        if !saved.force_agent_update {
            let generation = self.agent_generation;
            restore_agent(&mut self.agent, context, generation, keep_microphone, now_ms);
        }
        let revision = self.errors.revision;
        self.errors = restore_errors(saved.discarded_error_count, &context.errors, revision);
        Ok(())
    }
}

/// A transcript as saved: the same blocks and words, each word with its age
/// at `now_ms`.
pub open spec fn transcript_saved(e: RestartTranscriptEntry, t: TranscriptState, now_ms: u64) -> bool {
    &&& e.blocks@.len() == t.blocks@.len()
    &&& forall|j: int| 0 <= j < e.blocks@.len() ==> {
        &&& (#[trigger] e.blocks@[j]).text@ == t.blocks@[j].text@
        &&& e.blocks@[j].words@.len() == t.blocks@[j].words@.len()
        &&& forall|k: int| 0 <= k < e.blocks@[j].words@.len() ==> {
            &&& (#[trigger] e.blocks@[j].words@[k]).text@ == t.blocks@[j].words@[k].text@
            &&& e.blocks@[j].words@[k].age_ms == sat_sub(now_ms, t.blocks@[j].words@[k].first_seen)
        }
    }
}

/// The saved transcripts: the microphone's, then the system output's, each
/// where there is one.
pub open spec fn transcripts_saved(es: Seq<RestartTranscriptEntry>, s: AppState, now_ms: u64) -> bool {
    let m = transcript_of(s, SourceKind::Microphone);
    let y = transcript_of(s, SourceKind::SystemOutput);
    &&& es.len() == (if m is Some { 1int } else { 0 }) + (if y is Some { 1int } else { 0 })
    &&& (m is Some ==> es[0].source == SourceKind::Microphone && transcript_saved(es[0], m.unwrap(), now_ms))
    &&& (y is Some ==> es.last().source == SourceKind::SystemOutput && transcript_saved(es.last(), y.unwrap(), now_ms))
}

/// The saved errors: the entries of the buffer as they are.
pub open spec fn errors_saved(es: Seq<RestartErrorEntry>, log: ErrorLog) -> bool {
    &&& es.len() == log.entries@.len()
    &&& forall|i: int| 0 <= i < es.len() ==> {
        &&& (#[trigger] es[i]).elapsed_ms == log.entries@[i].elapsed_ms
        &&& es[i].message@ == log.entries@[i].message@
        &&& es[i].repeat_count == log.entries@[i].repeat_count
    }
}

/// The snapshot of a session at `now_unix_ms` (wall clock) and `now_ms`
/// (this process's clock): ages instead of times, the counters, and the
/// context in the clear; the encrypted form is left empty for the caller.
pub open spec fn snapshot_of(s: AppState, saved: TranscriptionRestartState, now_unix_ms: u64, now_ms: u64) -> bool {
    &&& saved.version == TRANSCRIPTION_RESTART_STATE_VERSION
    &&& saved.saved_at_unix_ms == now_unix_ms
    &&& saved.session_elapsed_ms == sat_sub(now_ms, s.started_at_ms)
    &&& saved.idle_elapsed_ms == sat_sub(now_ms, s.last_context_activity_at_ms)
    &&& saved.hidden_elapsed_ms == (match s.hidden_since_ms {
        Some(t) => Some(sat_sub(now_ms, t)),
        None => None,
    })
    &&& saved.agent_inactive_elapsed_ms == (match s.agent_inactive_since_ms {
        Some(t) => Some(sat_sub(now_ms, t)),
        None => None,
    })
    &&& saved.agent_request_count == s.agent.request_count
    &&& saved.agent_input_tokens == s.agent.input_tokens
    &&& saved.agent_output_tokens == s.agent.output_tokens
    &&& saved.agent_total_tokens == s.agent.total_tokens
    &&& saved.agent_last_total_tokens == s.agent.last_total_tokens
    &&& saved.agent_last_query_bytes == (match s.agent.last_query_bytes {
        Some(b) => Some(b as u64),
        None => None,
    })
    &&& saved.agent_token_limit == s.agent_token_limit
    &&& saved.token_budget_prompt_open == s.token_budget_prompt_open
    &&& saved.token_budget_prompt_dismissed == s.token_budget_prompt_dismissed
    &&& saved.force_agent_update == s.restart_force_agent_update
    &&& saved.discarded_error_count == s.errors.discarded_count
    &&& saved.protected_context@.len() == 0
    &&& saved.context is Some
    &&& transcripts_saved(saved.context.unwrap().transcripts@, s, now_ms)
    &&& saved.context.unwrap().agent_result@ == s.agent.canonical_result@
    &&& saved.context.unwrap().agent_last_successful_input == s.agent.last_successful_input
    &&& errors_saved(saved.context.unwrap().errors@, s.errors)
}

fn save_transcript(source: SourceKind, t: &TranscriptState, now_ms: u64) -> (r: RestartTranscriptEntry)
    ensures
        r.source == source,
        transcript_saved(r, *t, now_ms),
{
    let mut blocks: Vec<RestartTranscriptBlock> = Vec::new();
    let mut j: usize = 0;
    while j < t.blocks.len()
        invariant
            j <= t.blocks.len(),
            blocks@.len() == j,
            forall|jj: int| 0 <= jj < j ==> {
                &&& (#[trigger] blocks@[jj]).text@ == t.blocks@[jj].text@
                &&& blocks@[jj].words@.len() == t.blocks@[jj].words@.len()
                &&& forall|k: int| 0 <= k < blocks@[jj].words@.len() ==> {
                    &&& (#[trigger] blocks@[jj].words@[k]).text@ == t.blocks@[jj].words@[k].text@
                    &&& blocks@[jj].words@[k].age_ms == sat_sub(now_ms, t.blocks@[jj].words@[k].first_seen)
                }
            },
        decreases t.blocks.len() - j,
    {
        let b = &t.blocks[j];
        let mut words: Vec<RestartTranscriptWord> = Vec::new();
        let mut k: usize = 0;
        while k < b.words.len()
            invariant
                k <= b.words.len(),
                words@.len() == k,
                forall|kk: int| 0 <= kk < k ==> {
                    &&& (#[trigger] words@[kk]).text@ == b.words@[kk].text@
                    &&& words@[kk].age_ms == sat_sub(now_ms, b.words@[kk].first_seen)
                },
            decreases b.words.len() - k,
        {
            let w = &b.words[k];
            words.push(RestartTranscriptWord { text: w.text.clone(), age_ms: now_ms.saturating_sub(w.first_seen) });
            k += 1;
        }
        blocks.push(RestartTranscriptBlock { text: b.text.clone(), words });
        j += 1;
    }
    RestartTranscriptEntry { source, blocks }
}

impl AppState {
    /// The snapshot to save before a restart, at `now_unix_ms` on the wall
    /// clock and `now_ms` on this process's clock; see `snapshot_of`.
    pub fn restart_state(&self, now_unix_ms: u64, now_ms: u64) -> (r: TranscriptionRestartState)
        ensures
            snapshot_of(*self, r, now_unix_ms, now_ms),
    {
        let mut transcripts: Vec<RestartTranscriptEntry> = Vec::new();
        if let Some(t) = &self.microphone_transcript {
            transcripts.push(save_transcript(SourceKind::Microphone, t, now_ms));
        }
        if let Some(t) = &self.system_transcript {
            transcripts.push(save_transcript(SourceKind::SystemOutput, t, now_ms));
        }
        let mut errors: Vec<RestartErrorEntry> = Vec::new();
        let mut i: usize = 0;
        while i < self.errors.entries.len()
            invariant
                i <= self.errors.entries@.len(),
                errors@.len() == i,
                forall|x: int| 0 <= x < i ==> {
                    &&& (#[trigger] errors@[x]).elapsed_ms == self.errors.entries@[x].elapsed_ms
                    &&& errors@[x].message@ == self.errors.entries@[x].message@
                    &&& errors@[x].repeat_count == self.errors.entries@[x].repeat_count
                },
            decreases self.errors.entries@.len() - i,
        {
            let e = &self.errors.entries[i];
            errors.push(RestartErrorEntry { elapsed_ms: e.elapsed_ms, message: e.message.clone(), repeat_count: e.repeat_count });
            i += 1;
        }
        let context = TranscriptionRestartContext {
            transcripts,
            agent_result: clone_value(&self.agent.canonical_result),
            agent_last_successful_input: match &self.agent.last_successful_input {
                Some(input) => Some(input.clone()),
                None => None,
            },
            errors,
        };
        TranscriptionRestartState {
            version: TRANSCRIPTION_RESTART_STATE_VERSION,
            saved_at_unix_ms: now_unix_ms,
            session_elapsed_ms: now_ms.saturating_sub(self.started_at_ms),
            idle_elapsed_ms: now_ms.saturating_sub(self.last_context_activity_at_ms),
            hidden_elapsed_ms: match self.hidden_since_ms {
                Some(t) => Some(now_ms.saturating_sub(t)),
                None => None,
            },
            agent_inactive_elapsed_ms: match self.agent_inactive_since_ms {
                Some(t) => Some(now_ms.saturating_sub(t)),
                None => None,
            },
            agent_request_count: self.agent.request_count,
            agent_input_tokens: self.agent.input_tokens,
            agent_output_tokens: self.agent.output_tokens,
            agent_total_tokens: self.agent.total_tokens,
            agent_last_total_tokens: self.agent.last_total_tokens,
            agent_last_query_bytes: match self.agent.last_query_bytes {
                Some(b) => Some(b as u64),
                None => None,
            },
            agent_token_limit: self.agent_token_limit,
            token_budget_prompt_open: self.token_budget_prompt_open,
            token_budget_prompt_dismissed: self.token_budget_prompt_dismissed,
            force_agent_update: self.restart_force_agent_update,
            discarded_error_count: self.errors.discarded_count,
            protected_context: String::new(),
            context: Some(context),
        }
    }
}

/// A transcript carried across a restart: the same blocks and words, each
/// word seen `downtime_ms` longer ago at `after_ms` than at `before_ms`.
pub open spec fn transcript_carried(before: Option<TranscriptState>, after: Option<TranscriptState>, before_ms: u64, after_ms: u64, downtime_ms: u64) -> bool {
    &&& (before is Some <==> after is Some)
    &&& (before is Some ==> {
        let x = before.unwrap();
        let y = after.unwrap();
        &&& y.blocks@.len() == x.blocks@.len()
        &&& forall|j: int| 0 <= j < x.blocks@.len() ==> {
            &&& (#[trigger] y.blocks@[j]).text@ == x.blocks@[j].text@
            &&& y.blocks@[j].words@.len() == x.blocks@[j].words@.len()
            &&& forall|k: int| 0 <= k < x.blocks@[j].words@.len() ==> {
                &&& (#[trigger] y.blocks@[j].words@[k]).text@ == x.blocks@[j].words@[k].text@
                &&& sat_sub(after_ms, y.blocks@[j].words@[k].first_seen) == sat_add(
                    sat_sub(before_ms, x.blocks@[j].words@[k].first_seen),
                    downtime_ms,
                )
            }
        }
    })
}

proof fn lemma_saved_entry_index(es: Seq<RestartTranscriptEntry>, s: AppState, now_ms: u64)
    requires
        transcripts_saved(es, s, now_ms),
    ensures
        transcript_of(s, SourceKind::Microphone) is Some ==> last_entry_index(es, SourceKind::Microphone) == Some(0int),
        transcript_of(s, SourceKind::Microphone) is None ==> last_entry_index(es, SourceKind::Microphone) is None,
        transcript_of(s, SourceKind::SystemOutput) is Some ==> last_entry_index(es, SourceKind::SystemOutput) == Some(es.len() - 1),
        transcript_of(s, SourceKind::SystemOutput) is None ==> last_entry_index(es, SourceKind::SystemOutput) is None,
{
    reveal_with_fuel(last_entry_index, 3);
    if es.len() == 2 {
        assert(es.drop_last().last() == es[0]);
        assert(es.drop_last().drop_last().len() == 0);
    } else if es.len() == 1 {
        assert(es.drop_last().len() == 0);
    }
}

proof fn lemma_transcript_carried(t: Option<TranscriptState>, e: RestartTranscriptEntry, n: Option<TranscriptState>, t0: u64, t1: u64, d: u64)
    requires
        t is Some,
        transcript_saved(e, t.unwrap(), t0),
        n is Some,
        transcript_restored(n.unwrap(), e, d, t1),
    ensures
        transcript_carried(t, n, t0, t1, d),
{
    let x = t.unwrap();
    let y = n.unwrap();
    assert forall|j: int| 0 <= j < x.blocks@.len() implies {
        &&& (#[trigger] y.blocks@[j]).text@ == x.blocks@[j].text@
        &&& y.blocks@[j].words@.len() == x.blocks@[j].words@.len()
        &&& forall|k: int| 0 <= k < x.blocks@[j].words@.len() ==> {
            &&& (#[trigger] y.blocks@[j].words@[k]).text@ == x.blocks@[j].words@[k].text@
            &&& sat_sub(t1, y.blocks@[j].words@[k].first_seen) == sat_add(sat_sub(t0, x.blocks@[j].words@[k].first_seen), d)
        }
    } by {
        assert(block_restored(y.blocks@[j], e.blocks@[j], d, t1));
        assert(e.blocks@[j].text@ == x.blocks@[j].text@);
        assert forall|k: int| 0 <= k < x.blocks@[j].words@.len() implies {
            &&& (#[trigger] y.blocks@[j].words@[k]).text@ == x.blocks@[j].words@[k].text@
            &&& sat_sub(t1, y.blocks@[j].words@[k].first_seen) == sat_add(sat_sub(t0, x.blocks@[j].words@[k].first_seen), d)
        } by {
            assert(word_restored(y.blocks@[j].words@[k], e.blocks@[j].words@[k], d, t1));
            assert(e.blocks@[j].words@[k].text@ == x.blocks@[j].words@[k].text@);
        }
    }
}

/// Saving a session and taking the snapshot back after `u1 - u0`
/// milliseconds of downtime (wall clock) gives back its transcripts word for
/// word, each word and the session's start and last activity that much
/// further in the past, its agent counters and token limit, and its count of
/// discarded errors.
pub proof fn restart_round_trip(s: AppState, saved: TranscriptionRestartState, u0: u64, t0: u64, s2: AppState, n: AppState, u1: u64, t1: u64)
    requires
        s.wf(),
        snapshot_of(s, saved, u0, t0),
        restore_error(saved, u1, t1) is None,
        restore_post(s2, n, saved, u1, t1),
    ensures
        sat_sub(t1, n.started_at_ms) == sat_add(sat_sub(t0, s.started_at_ms), sat_sub(u1, u0)),
        sat_sub(t1, n.last_context_activity_at_ms) == sat_add(sat_sub(t0, s.last_context_activity_at_ms), sat_sub(u1, u0)),
        transcript_carried(transcript_of(s, SourceKind::Microphone), transcript_of(n, SourceKind::Microphone), t0, t1, sat_sub(u1, u0)),
        transcript_carried(transcript_of(s, SourceKind::SystemOutput), transcript_of(n, SourceKind::SystemOutput), t0, t1, sat_sub(u1, u0)),
        n.agent.request_count == s.agent.request_count,
        n.agent.input_tokens == s.agent.input_tokens,
        n.agent.output_tokens == s.agent.output_tokens,
        n.agent.total_tokens == s.agent.total_tokens,
        n.agent.last_total_tokens == s.agent.last_total_tokens,
        n.agent.last_query_bytes == s.agent.last_query_bytes,
        n.agent_token_limit == s.agent_token_limit,
        n.token_budget_prompt_open == s.token_budget_prompt_open,
        n.token_budget_prompt_dismissed == s.token_budget_prompt_dismissed,
        n.errors.discarded_count == s.errors.discarded_count,
{
    let d = sat_sub(u1, u0);
    let ctx = saved.context.unwrap();
    let es = ctx.transcripts@;
    lemma_saved_entry_index(es, s, t0);
    if transcript_of(s, SourceKind::Microphone) is Some {
        lemma_transcript_carried(transcript_of(s, SourceKind::Microphone), es[0], transcript_of(n, SourceKind::Microphone), t0, t1, d);
    }
    if transcript_of(s, SourceKind::SystemOutput) is Some {
        lemma_transcript_carried(transcript_of(s, SourceKind::SystemOutput), es[es.len() - 1], transcript_of(n, SourceKind::SystemOutput), t0, t1, d);
    }
    assert(skipped_count(ctx.errors@.len() as int) == 0);
    assert(ctx.errors@.take(0) =~= Seq::<RestartErrorEntry>::empty());
    match s.agent.last_query_bytes {
        Some(b) => {
            assert(b as u64 as usize == b);
        },
        None => {},
    }
}

} // verus!
