//! Per-source recognition state of the live transcriber: the current
//! estimate, the finished blocks, the recognition prompt, and the decisions
//! taken when a pass returns, when a commit is due and when the speaker falls
//! silent. The audio samples themselves stay with the capture runtime.
use vstd::prelude::*;

use crate::agent::{updates_agent, AgentInput, AGENT_CONTEXT_CHARS};
use crate::blocks::joined_blocks;
use crate::delta::{new_text, prompt_of, set_prompt};
use crate::layout::string_seqs;
use crate::modes::SourceKind;
use crate::text::{alnum_count, chars_of, string_of, trim, trim_idempotent, trim_vec};
use crate::transcript::merge_estimate;

verus! {

/// Minimum time between two live recognition passes, in milliseconds.
pub const STREAM_PARTIAL_INTERVAL_MS: u64 = 2000;

/// Minimum time between two committed transcript updates, in milliseconds.
pub const STREAM_COMMIT_INTERVAL_MS: u64 = 5000;

/// Silence after which a transcription block ends, in milliseconds.
pub const SILENCE_BREAK_AFTER_MS: u64 = 1200;

/// Minimum time between two live passes while dictating, in milliseconds.
pub const TYPING_PARTIAL_INTERVAL_MS: u64 = 700;

/// Silence after which a dictated phrase ends, in milliseconds.
pub const TYPING_SILENCE_BREAK_AFTER_MS: u64 = 1200;

/// The recognition state of one audio source.
pub struct StreamingSourceState {
    pub prompt: String,
    pub history: Vec<String>,
    pub best_text: String,
    pub pending_commit: String,
    pub agent_update_pending: bool,
    pub voice_active: bool,
    pub last_pass_ms: u64,
    pub last_commit_ms: u64,
    pub last_voice_at_ms: Option<u64>,
}

/// `a - b`, or 0 when `b` is larger.
pub open spec fn sat_sub(a: u64, b: u64) -> u64 {
    if a >= b { (a - b) as u64 } else { 0 }
}

/// Finished blocks joined with a blank line, as they are (`join("\n\n")`).
pub open spec fn joined_raw(ts: Seq<Seq<char>>) -> Seq<char>
    decreases ts.len(),
{
    if ts.len() == 0 {
        Seq::empty()
    } else if ts.len() == 1 {
        ts[0]
    } else {
        joined_raw(ts.drop_last()) + seq!['\n', '\n'] + ts.last()
    }
}

fn join_history(history: &Vec<String>) -> (r: String)
    ensures
        r@ == joined_raw(string_seqs(history@)),
{
    let mut out: Vec<char> = Vec::new();
    let mut i: usize = 0;
    while i < history.len()
        invariant
            i <= history.len(),
            out@ == joined_raw(string_seqs(history@).take(i as int)),
        decreases history.len() - i,
    {
        let ghost before = string_seqs(history@).take(i as int);
        if i > 0 {
            out.push('\n');
            out.push('\n');
        }
        crate::text::append_chars(&mut out, &chars_of(history[i].as_str()));
        i += 1;
        proof {
            let now = string_seqs(history@).take(i as int);
            assert(now.drop_last() =~= before);
            if i == 1 {
                assert(out@ =~= now[0]);
            }
        }
    }
    assert(string_seqs(history@).take(history.len() as int) =~= string_seqs(history@));
    string_of(&out)
}

/// What the whole transcript of a source reads: the finished blocks and the
/// current estimate, trimmed, blank ones left out, separated by blank lines.
pub open spec fn full_text_spec(history: Seq<Seq<char>>, best: Seq<char>) -> Seq<char> {
    joined_blocks(history.push(best))
}

fn push_block(out: &mut Vec<char>, t: &Vec<char>)
    ensures
        final(out)@ == (if trim(t@).len() == 0 {
            old(out)@
        } else if old(out)@.len() == 0 {
            trim(t@)
        } else {
            old(out)@ + seq!['\n', '\n'] + trim(t@)
        }),
{
    let trimmed = trim_vec(t);
    if trimmed.len() > 0 {
        if out.len() > 0 {
            out.push('\n');
            out.push('\n');
        }
        crate::text::append_chars(out, &trimmed);
    }
}

impl StreamingSourceState {
    /// The view of the finished blocks.
    pub open spec fn history_view(&self) -> Seq<Seq<char>> {
        string_seqs(self.history@)
    }

    /// A fresh state at time `now_ms`: passes and commits are due at once.
    pub fn new(now_ms: u64) -> (r: Self)
        ensures
            r.prompt@.len() == 0,
            r.history@.len() == 0,
            r.best_text@.len() == 0,
            r.pending_commit@.len() == 0,
            !r.agent_update_pending,
            !r.voice_active,
            r.last_pass_ms == sat_sub(now_ms, STREAM_PARTIAL_INTERVAL_MS),
            r.last_commit_ms == sat_sub(now_ms, STREAM_COMMIT_INTERVAL_MS),
            r.last_voice_at_ms is None,
    {
        StreamingSourceState {
            prompt: String::new(),
            history: Vec::new(),
            best_text: String::new(),
            pending_commit: String::new(),
            agent_update_pending: false,
            voice_active: false,
            last_pass_ms: now_ms.saturating_sub(STREAM_PARTIAL_INTERVAL_MS),
            last_commit_ms: now_ms.saturating_sub(STREAM_COMMIT_INTERVAL_MS),
            last_voice_at_ms: None,
        }
    }

    /// Forgets everything, as after a session refresh.
    pub fn reset(&mut self, now_ms: u64)
        ensures
            final(self).prompt@.len() == 0,
            final(self).history@.len() == 0,
            final(self).best_text@.len() == 0,
            final(self).pending_commit@.len() == 0,
            !final(self).agent_update_pending,
            !final(self).voice_active,
            final(self).last_pass_ms == sat_sub(now_ms, STREAM_PARTIAL_INTERVAL_MS),
            final(self).last_commit_ms == sat_sub(now_ms, STREAM_COMMIT_INTERVAL_MS),
            final(self).last_voice_at_ms is None,
    {
        *self = StreamingSourceState::new(now_ms);
    }

    /// The whole transcript of the source; see `full_text_spec`.
    pub fn full_text(&self) -> (r: String)
        ensures
            r@ == full_text_spec(self.history_view(), self.best_text@),
    {
        let mut out: Vec<char> = Vec::new();
        let ghost all = self.history_view().push(self.best_text@);
        let mut i: usize = 0;
        while i < self.history.len()
            invariant
                i <= self.history.len(),
                all == self.history_view().push(self.best_text@),
                out@ == joined_blocks(all.take(i as int)),
            decreases self.history.len() - i,
        {
            let t = chars_of(self.history[i].as_str());
            assert(t@ == all[i as int]);
            push_block(&mut out, &t);
            i += 1;
            assert(all.take(i as int).drop_last() =~= all.take(i - 1));
        }
        let t = chars_of(self.best_text.as_str());
        assert(t@ == all[i as int]);
        push_block(&mut out, &t);
        assert(all.take(i + 1).drop_last() =~= all.take(i as int));
        assert(all.take(i + 1) =~= all);
        string_of(&out)
    }

    /// The last finished block, trimmed, unless there is none or it is blank.
    pub fn last_history_text(&self) -> (r: Option<String>)
        ensures
            match r {
                Some(s) => self.history@.len() > 0 && s@ == trim(self.history@.last()@) && s@.len() > 0,
                None => self.history@.len() == 0 || trim(self.history@.last()@).len() == 0,
            },
    {
        if self.history.len() == 0 {
            return None;
        }
        let last = chars_of(self.history[self.history.len() - 1].as_str());
        let t = trim_vec(&last);
        if t.len() == 0 {
            None
        } else {
            Some(string_of(&t))
        }
    }

    /// Ends the current block: the trimmed estimate, when there is one,
    /// becomes a finished block and the prompt follows the finished blocks.
    /// Pending commits and the silence clock are dropped either way.
    pub fn finish_current_block(&mut self, now_ms: u64) -> (r: bool)
        ensures
            r == (trim(old(self).best_text@).len() > 0),
            final(self).pending_commit@.len() == 0,
            final(self).last_pass_ms == sat_sub(now_ms, STREAM_PARTIAL_INTERVAL_MS),
            final(self).last_commit_ms == sat_sub(now_ms, STREAM_COMMIT_INTERVAL_MS),
            final(self).last_voice_at_ms is None,
            final(self).agent_update_pending == old(self).agent_update_pending,
            final(self).voice_active == old(self).voice_active,
            r ==> final(self).history_view() == old(self).history_view().push(trim(old(self).best_text@)),
            r ==> final(self).best_text@.len() == 0,
            r ==> final(self).prompt@ == prompt_of(joined_raw(final(self).history_view())),
            !r ==> final(self).history_view() == old(self).history_view(),
            !r ==> final(self).best_text@ == old(self).best_text@,
            !r ==> final(self).prompt@ == old(self).prompt@,
    {
        let best = chars_of(self.best_text.as_str());
        let current = trim_vec(&best);
        self.pending_commit = String::new();
        self.last_pass_ms = now_ms.saturating_sub(STREAM_PARTIAL_INTERVAL_MS);
        self.last_commit_ms = now_ms.saturating_sub(STREAM_COMMIT_INTERVAL_MS);
        self.last_voice_at_ms = None;
        if current.len() == 0 {
            return false;
        }
        let ghost before = self.history_view();
        self.history.push(string_of(&current));
        assert(self.history_view() =~= before.push(current@));
        self.best_text = String::new();
        let joined = join_history(&self.history);
        set_prompt(&mut self.prompt, joined.as_str());
        true
    }

    /// Takes a new recognition hypothesis: it is merged into the estimate,
    /// and a change of the estimate becomes the pending commit and, for a
    /// source that feeds the agent, a pending agent update. Returns the
    /// merged estimate.
    pub fn record_estimate(&mut self, source: SourceKind, text: &str, include_microphone: bool) -> (r: String)
        ensures
            r@ == merge_estimate(old(self).best_text@, text@),
            trim(old(self).best_text@) != trim(r@) ==> (final(self).best_text@ == r@
                && final(self).pending_commit@ == r@ && final(self).agent_update_pending == (
            old(self).agent_update_pending || updates_agent(source, include_microphone))),
            trim(old(self).best_text@) == trim(r@) ==> (final(self).best_text@ == old(self).best_text@
                && final(self).pending_commit@ == old(self).pending_commit@
                && final(self).agent_update_pending == old(self).agent_update_pending),
            final(self).history@ == old(self).history@,
            final(self).prompt@ == old(self).prompt@,
            final(self).voice_active == old(self).voice_active,
            final(self).last_pass_ms == old(self).last_pass_ms,
            final(self).last_commit_ms == old(self).last_commit_ms,
            final(self).last_voice_at_ms == old(self).last_voice_at_ms,
    {
        let merged = crate::transcript::merge_transcript_estimate(self.best_text.as_str(), text);
        let old_trim = trim_vec(&chars_of(self.best_text.as_str()));
        let new_trim = trim_vec(&chars_of(merged.as_str()));
        if !crate::text::chars_equal(&old_trim, &new_trim) {
            self.best_text = merged.clone();
            self.pending_commit = merged.clone();
            if crate::agent::source_updates_agent(source, include_microphone) {
                self.agent_update_pending = true;
            }
        }
        merged
    }

    /// Commits the pending estimate when the commit interval has passed since
    /// the last commit and it is not blank: it is returned trimmed, the
    /// prompt follows the whole transcript, and a source that feeds the agent
    /// gets a pending agent update.
    pub fn take_due_commit(&mut self, source: SourceKind, now_ms: u64, include_microphone: bool) -> (r: Option<String>)
        ensures
            r is Some == (sat_sub(now_ms, old(self).last_commit_ms) >= STREAM_COMMIT_INTERVAL_MS
                && trim(old(self).pending_commit@).len() > 0),
            match r {
                Some(c) => c@ == trim(old(self).pending_commit@) && final(self).pending_commit@.len() == 0
                    && final(self).last_commit_ms == now_ms
                    && final(self).prompt@ == prompt_of(full_text_spec(old(self).history_view(), old(self).best_text@))
                    && final(self).agent_update_pending == (old(self).agent_update_pending
                    || updates_agent(source, include_microphone)),
                None => *final(self) == *old(self),
            },
            final(self).history@ == old(self).history@,
            final(self).best_text@ == old(self).best_text@,
            final(self).voice_active == old(self).voice_active,
            final(self).last_pass_ms == old(self).last_pass_ms,
            final(self).last_voice_at_ms == old(self).last_voice_at_ms,
    {
        if now_ms.saturating_sub(self.last_commit_ms) < STREAM_COMMIT_INTERVAL_MS {
            return None;
        }
        let pending = trim_vec(&chars_of(self.pending_commit.as_str()));
        if pending.len() == 0 {
            return None;
        }
        self.pending_commit = String::new();
        self.last_commit_ms = now_ms;
        let full = self.full_text();
        set_prompt(&mut self.prompt, full.as_str());
        if crate::agent::source_updates_agent(source, include_microphone) {
            self.agent_update_pending = true;
        }
        Some(string_of(&pending))
    }

    /// Notes one audio frame, voiced or not, captured at `captured_ms`.
    /// Returns whether the source just became active and whether the frame's
    /// samples are kept: a silent frame is dropped while no estimate exists,
    /// so a short utterance is not diluted with silence.
    pub fn note_frame(&mut self, voiced: bool, captured_ms: u64) -> (r: (bool, bool))
        ensures
            r.0 == (voiced && !old(self).voice_active),
            r.1 == (voiced || trim(old(self).best_text@).len() > 0),
            final(self).voice_active == (old(self).voice_active || voiced),
            final(self).last_voice_at_ms == (if voiced { Some(captured_ms) } else { old(self).last_voice_at_ms }),
            final(self).history@ == old(self).history@,
            final(self).best_text@ == old(self).best_text@,
            final(self).pending_commit@ == old(self).pending_commit@,
            final(self).prompt@ == old(self).prompt@,
            final(self).agent_update_pending == old(self).agent_update_pending,
            final(self).last_pass_ms == old(self).last_pass_ms,
            final(self).last_commit_ms == old(self).last_commit_ms,
    {
        if voiced {
            let became_active = !self.voice_active;
            self.voice_active = true;
            self.last_voice_at_ms = Some(captured_ms);
            (became_active, true)
        } else {
            let blank = crate::text::str_is_blank(self.best_text.as_str());
            (false, !blank)
        }
    }

    /// Ends the source's utterance after silence (the last step of a
    /// silence flush). Returns whether the agent needs an update, whether a
    /// block was finished, and the dictated phrase to type for the selected
    /// typing source.
    pub fn close_after_silence(
        &mut self,
        source: SourceKind,
        is_typing_source: bool,
        include_microphone: bool,
        now_ms: u64,
    ) -> (r: (bool, bool, Option<String>))
        ensures
            r.0 == (updates_agent(source, include_microphone) && old(self).agent_update_pending),
            r.1 == (trim(old(self).best_text@).len() > 0),
            match r.2 {
                Some(t) => r.1 && is_typing_source && typing_text_spec(old(self).history_view(), old(self).best_text@) == Some(t@)
                    && alnum_count(t@) >= 2,
                None => !r.1 || !is_typing_source || match typing_text_spec(old(self).history_view(), old(self).best_text@) {
                    Some(t) => alnum_count(t) < 2,
                    None => true,
                },
            },
            !final(self).voice_active,
            !final(self).agent_update_pending,
            final(self).pending_commit@.len() == 0,
            final(self).last_voice_at_ms is None,
            r.1 ==> final(self).history_view() == old(self).history_view().push(trim(old(self).best_text@)),
            r.1 ==> final(self).best_text@.len() == 0,
            !r.1 ==> final(self).history_view() == old(self).history_view(),
    {
        let agent_update = crate::agent::source_updates_agent(source, include_microphone) && self.agent_update_pending;
        let typing_text = if is_typing_source {
            match typing_submission_text(self) {
                Some(t) => if crate::delta::should_submit_typing(t.as_str()) {
                    Some(t)
                } else {
                    None
                },
                None => None,
            }
        } else {
            None
        };
        self.voice_active = false;
        let finished = self.finish_current_block(now_ms);
        self.agent_update_pending = false;
        if finished {
            (agent_update, true, typing_text)
        } else {
            (agent_update, false, None)
        }
    }

    /// Seeds the finished blocks from a saved transcript: the trimmed,
    /// non-blank block texts, and the prompt that follows them.
    pub fn restore_history(&mut self, block_texts: &Vec<String>)
        ensures
            final(self).history_view() == trimmed_nonblank(string_seqs(block_texts@)),
            final(self).prompt@ == prompt_of(joined_raw(trimmed_nonblank(string_seqs(block_texts@)))),
            final(self).best_text@ == old(self).best_text@,
            final(self).pending_commit@ == old(self).pending_commit@,
            final(self).agent_update_pending == old(self).agent_update_pending,
            final(self).voice_active == old(self).voice_active,
    {
        let mut history: Vec<String> = Vec::new();
        let mut i: usize = 0;
        while i < block_texts.len()
            invariant
                i <= block_texts.len(),
                string_seqs(history@) == trimmed_nonblank(string_seqs(block_texts@).take(i as int)),
            decreases block_texts.len() - i,
        {
            let t = trim_vec(&chars_of(block_texts[i].as_str()));
            let ghost before = string_seqs(history@);
            if t.len() > 0 {
                history.push(string_of(&t));
                assert(string_seqs(history@) =~= before.push(t@));
            }
            i += 1;
            assert(string_seqs(block_texts@).take(i as int).drop_last() =~= string_seqs(block_texts@).take(
                i - 1,
            ));
        }
        assert(string_seqs(block_texts@).take(block_texts.len() as int) =~= string_seqs(block_texts@));
        let joined = join_history(&history);
        self.history = history;
        set_prompt(&mut self.prompt, joined.as_str());
    }
}

/// The trimmed texts, blank ones left out.
pub open spec fn trimmed_nonblank(ts: Seq<Seq<char>>) -> Seq<Seq<char>>
    decreases ts.len(),
{
    if ts.len() == 0 {
        Seq::empty()
    } else {
        let rest = trimmed_nonblank(ts.drop_last());
        if trim(ts.last()).len() > 0 {
            rest.push(trim(ts.last()))
        } else {
            rest
        }
    }
}

/// Ending a block keeps the whole transcript text unchanged: the estimate
/// moves, trimmed, into the finished blocks.
pub proof fn finishing_block_keeps_full_text(history: Seq<Seq<char>>, best: Seq<char>)
    ensures
        trim(best).len() > 0 ==> full_text_spec(history.push(trim(best)), Seq::empty())
            == full_text_spec(history, best),
        trim(best).len() == 0 ==> full_text_spec(history, Seq::empty()) == full_text_spec(history, best),
{
    trim_idempotent(best);
    let e: Seq<char> = Seq::empty();
    assert(trim(e).len() == 0) by {
        assert(crate::text::trim_start_by(e, crate::text::ws_class()) == e);
    }
    let a = history.push(trim(best)).push(e);
    assert(a.drop_last() == history.push(trim(best)));
    assert(a.last() == e);
    assert(joined_blocks(a) == joined_blocks(history.push(trim(best))));
    assert(history.push(trim(best)).drop_last() == history);
    assert(history.push(trim(best)).last() == trim(best));
    assert(history.push(best).drop_last() == history);
    assert(history.push(best).last() == best);
    assert(joined_blocks(history.push(trim(best))) == joined_blocks(history.push(best)));
    let b2 = history.push(e);
    assert(b2.drop_last() == history);
    assert(b2.last() == e);
}

/// The new part of the current estimate since the last finished block, or
/// the whole estimate when nothing is new; none when the estimate is blank.
pub open spec fn typing_text_spec(history: Seq<Seq<char>>, best: Seq<char>) -> Option<Seq<char>> {
    let current = trim(best);
    let last = if history.len() > 0 && trim(history.last()).len() > 0 {
        Some(trim(history.last()))
    } else {
        None
    };
    if current.len() == 0 {
        None
    } else {
        let fresh = trim(new_text(last, current, AGENT_CONTEXT_CHARS as int));
        if fresh.len() == 0 {
            Some(current)
        } else {
            Some(fresh)
        }
    }
}

/// The dictated text to type for a source: what is new since the previous
/// phrase; see `typing_text_spec`.
pub fn typing_submission_text(stream: &StreamingSourceState) -> (r: Option<String>)
    ensures
        match r {
            Some(t) => typing_text_spec(stream.history_view(), stream.best_text@) == Some(t@),
            None => typing_text_spec(stream.history_view(), stream.best_text@) is None,
        },
{
    let current = trim_vec(&chars_of(stream.best_text.as_str()));
    if current.len() == 0 {
        return None;
    }
    let last = stream.last_history_text();
    let current_s = string_of(&current);
    let fresh = match &last {
        Some(l) => crate::delta::new_text_since(Some(l.as_str()), current_s.as_str(), AGENT_CONTEXT_CHARS),
        None => crate::delta::new_text_since(None, current_s.as_str(), AGENT_CONTEXT_CHARS),
    };
    let t = trim_vec(&chars_of(fresh.as_str()));
    if t.len() == 0 {
        Some(current_s)
    } else {
        Some(string_of(&t))
    }
}

/// Whether the source has been silent for `silence_ms` since its last voice,
/// while marked active.
pub open spec fn silence_elapsed_spec(voice_active: bool, last_voice_at_ms: Option<u64>, reference_ms: u64, silence_ms: u64) -> bool {
    voice_active && match last_voice_at_ms {
        Some(t) => sat_sub(reference_ms, t) >= silence_ms,
        None => false,
    }
}

/// Whether an active source has fallen silent long enough to end its
/// utterance; see `silence_elapsed_spec`.
pub fn stream_silence_elapsed(
    voice_active: bool,
    last_voice_at_ms: Option<u64>,
    reference_ms: u64,
    silence_break_after_ms: u64,
) -> (r: bool)
    ensures
        r == silence_elapsed_spec(voice_active, last_voice_at_ms, reference_ms, silence_break_after_ms),
{
    voice_active && match last_voice_at_ms {
        Some(t) => reference_ms.saturating_sub(t) >= silence_break_after_ms,
        None => false,
    }
}

/// Whether a source's utterance is flushed now: in dictation only the
/// selected source is considered.
pub fn flush_is_due(
    stream: &StreamingSourceState,
    source: SourceKind,
    typing_mode: bool,
    selected_typing_source: SourceKind,
    reference_ms: u64,
    silence_break_after_ms: u64,
) -> (r: bool)
    ensures
        r == ((!typing_mode || source == selected_typing_source) && silence_elapsed_spec(
            stream.voice_active,
            stream.last_voice_at_ms,
            reference_ms,
            silence_break_after_ms,
        )),
{
    let selected = !typing_mode || source == selected_typing_source;
    selected && stream_silence_elapsed(
        stream.voice_active,
        stream.last_voice_at_ms,
        reference_ms,
        silence_break_after_ms,
    )
}

/// Whether an audio frame of `source` is taken: while dictating, only the
/// selected source's frames, and none while dictation is paused.
pub fn frame_admitted(typing_mode: bool, source: SourceKind, selected_typing_source: SourceKind, paused: bool) -> (r: bool)
    ensures
        r == (!typing_mode || (source == selected_typing_source && !paused)),
{
    !typing_mode || (source == selected_typing_source && !paused)
}

/// Whether a live recognition pass is due: enough audio, and the pass
/// interval passed since the last one.
pub fn partial_pass_due(sample_count: usize, min_samples: usize, last_pass_ms: u64, now_ms: u64, interval_ms: u64) -> (r: bool)
    ensures
        r == (sample_count >= min_samples && sat_sub(now_ms, last_pass_ms) >= interval_ms),
{
    sample_count >= min_samples && now_ms.saturating_sub(last_pass_ms) >= interval_ms
}

/// The recognition prompt used for a source: none while dictating.
pub fn whisper_prompt_for_mode(typing_mode: bool, stream: &StreamingSourceState) -> (r: Option<String>)
    ensures
        typing_mode ==> r is None,
        !typing_mode ==> r == Some(stream.prompt),
{
    if typing_mode {
        None
    } else {
        Some(stream.prompt.clone())
    }
}

/// The agent input built from the sources' transcripts: the system
/// transcript (empty without that source) and, when the microphone is
/// shared, its non-empty transcript. None when both are empty.
pub open spec fn agent_update_spec(
    system: Option<Seq<char>>,
    microphone: Option<Seq<char>>,
    include_microphone: bool,
) -> Option<(Seq<char>, Option<Seq<char>>)> {
    let sys = match system {
        Some(s) => s,
        None => Seq::empty(),
    };
    let mic = if include_microphone {
        match microphone {
            Some(m) => if m.len() > 0 { Some(m) } else { None },
            None => None,
        }
    } else {
        None
    };
    if sys.len() == 0 && mic is None {
        None
    } else {
        Some((sys, mic))
    }
}

/// The full transcript of an optional source.
pub open spec fn opt_full_text(stream: Option<&StreamingSourceState>) -> Option<Seq<char>> {
    match stream {
        Some(s) => Some(full_text_spec(s.history_view(), s.best_text@)),
        None => None,
    }
}

/// The agent input for the current transcripts; see `agent_update_spec`.
pub fn agent_update_input(
    system: Option<&StreamingSourceState>,
    microphone: Option<&StreamingSourceState>,
    include_microphone: bool,
    force: bool,
    generation: u64,
) -> (r: Option<AgentInput>)
    ensures
        match r {
            Some(input) => agent_update_spec(opt_full_text(system), opt_full_text(microphone), include_microphone)
                == Some((input.system_transcript@, crate::agent::opt_view(input.microphone_transcript)))
                && input.force == force && input.generation == generation,
            None => agent_update_spec(opt_full_text(system), opt_full_text(microphone), include_microphone) is None,
        },
{
    let system_transcript = match system {
        Some(s) => s.full_text(),
        None => String::new(),
    };
    let microphone_transcript = if include_microphone {
        match microphone {
            Some(m) => {
                let t = m.full_text();
                if chars_of(t.as_str()).len() > 0 {
                    Some(t)
                } else {
                    None
                }
            },
            None => None,
        }
    } else {
        None
    };
    if chars_of(system_transcript.as_str()).len() == 0 && microphone_transcript.is_none() {
        return None;
    }
    Some(AgentInput { system_transcript, microphone_transcript, force, generation })
}

/// A dictated phrase handed to the typing worker: trimmed, and only when not
/// blank.
pub fn typing_update_text(raw_text: &str) -> (r: Option<String>)
    ensures
        match r {
            Some(t) => t@ == trim(raw_text@) && t@.len() > 0,
            None => trim(raw_text@).len() == 0,
        },
{
    let t = trim_vec(&chars_of(raw_text));
    if t.len() == 0 {
        None
    } else {
        Some(string_of(&t))
    }
}

} // verus!
