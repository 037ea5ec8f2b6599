//! Session-wide decisions of live transcription: refreshing the session,
//! the transcript dump, the agent token budget, and when the session pauses
//! its requests or ends by itself.
use vstd::prelude::*;

use crate::app_state::{sat_inc, session_ms, AppState, DumpRequest};
use crate::errors::error_recorded;
use crate::layout::{string_seqs, wrap_plain_spec};
use crate::modes::{AppMode, SourceKind};
use crate::panes::AgentPaneState;
use crate::stream::sat_sub;
use crate::text::{chars_of, string_of};

verus! {

/// `a * 60` in range, as `u64::saturating_mul` gives it.
pub open spec fn minutes_secs(minutes: u64) -> int {
    if minutes as int * 60 > u64::MAX { u64::MAX as int } else { minutes as int * 60 }
}

/// Whether a span of `elapsed_ms` reaches a limit of `minutes` (0: never).
pub open spec fn expired(elapsed_ms: u64, minutes: u64) -> bool {
    minutes > 0 && elapsed_ms as int >= minutes_secs(minutes) * 1000
}

fn expired_exec(elapsed_ms: u64, minutes: u64) -> (r: bool)
    ensures
        r == expired(elapsed_ms, minutes),
{
    let secs: u128 = if (minutes as u128) * 60 > (u64::MAX as u128) {
        u64::MAX as u128
    } else {
        (minutes as u128) * 60
    };
    minutes > 0 && (elapsed_ms as u128) >= secs * 1000
}

/// Whether a span of `elapsed_ms` reaches `secs` seconds.
pub open spec fn reached_secs(elapsed_ms: u64, secs: u64) -> bool {
    elapsed_ms as int >= secs as int * 1000
}

/// What one pass of the lifecycle check decided: whether the screen needs
/// redrawing, whether the session ends, and whether agent requests may go
/// out.
#[derive(Clone, Copy, Debug, PartialEq, Eq, Structural)]
pub struct LifecycleOutcome {
    pub changed: bool,
    pub exit: bool,
    pub requests_allowed: bool,
}

/// The request visibility: the window's, except that a terminal view known
/// to be unfocused counts as hidden.
pub open spec fn request_visibility(window: Option<bool>, view_focused: Option<bool>) -> Option<bool> {
    if window == Some(true) && view_focused == Some(false) {
        Some(false)
    } else {
        window
    }
}

/// The visibility of the monitored window: none without a window.
pub open spec fn monitored_visibility(terminal_hwnd: Option<isize>, window: Option<bool>) -> Option<bool> {
    if terminal_hwnd is None { None } else { window }
}

/// A "since" time after a visibility check: cleared when visible, started
/// at `now` when not visible and not yet started.
pub open spec fn since_after(since: Option<u64>, visible: bool, now: u64) -> Option<u64> {
    if visible {
        None
    } else if since is None {
        Some(now)
    } else {
        since
    }
}

/// The reason the session ends by itself, if it does: hidden too long
/// (monitor unavailable or out of view), idle too long, or too long
/// overall.
pub open spec fn exit_reason(
    visibility: Option<bool>,
    hidden_elapsed: u64,
    idle_elapsed: u64,
    session_elapsed: u64,
    hidden_exit_minutes: u64,
    idle_exit_minutes: u64,
    max_session_minutes: u64,
) -> Option<Seq<char>> {
    if visibility != Some(true) && expired(hidden_elapsed, hidden_exit_minutes) {
        Some(if visibility is None {
            "Auto-exit: terminal monitor remained unavailable"@
        } else {
            "Auto-exit: terminal remained out of view"@
        })
    } else if expired(idle_elapsed, idle_exit_minutes) {
        Some("Auto-exit: no transcript activity"@)
    } else if expired(session_elapsed, max_session_minutes) {
        Some("Auto-exit: maximum session reached"@)
    } else {
        None
    }
}

/// Whether the agent has used up its token limit.
pub open spec fn budget_reached(s: AppState) -> bool {
    match s.agent_token_limit {
        Some(limit) => s.agent.total_tokens >= limit,
        None => false,
    }
}

/// The agent's status while its requests pause, if they do.
pub open spec fn pause_status(
    budget: bool,
    dismissed: bool,
    monitor_unavailable: bool,
    hidden_exit_minutes: u64,
    hidden_pause: bool,
) -> Option<Seq<char>> {
    if budget && dismissed {
        Some("paused; token budget reached (F1 to review)"@)
    } else if budget {
        Some("paused; session token budget reached"@)
    } else if monitor_unavailable {
        Some(if hidden_exit_minutes > 0 {
            "paused; terminal monitor unavailable; hidden auto-exit timer running"@
        } else {
            "paused; terminal monitor unavailable; hidden auto-exit is off"@
        })
    } else if hidden_pause {
        Some("paused; terminal not foreground, local context continues"@)
    } else {
        None
    }
}

/// The dump file's text for the sources: each source's label, then its
/// transcript wrapped at 100 columns and indented by four spaces, then a
/// blank line.
pub open spec fn dump_spec(sources: Seq<SourceKind>, texts: spec_fn(SourceKind) -> Seq<char>) -> Seq<char>
    decreases sources.len(),
{
    if sources.len() == 0 {
        Seq::empty()
    } else {
        let s = sources.last();
        dump_spec(sources.drop_last(), texts) + (match s {
            SourceKind::Microphone => "mic"@,
            SourceKind::SystemOutput => "system"@,
        }) + seq!['\n'] + indented_rows(wrap_plain_spec(texts(s), 100)) + seq!['\n']
    }
}

/// Rows each indented by four spaces and ended by a new line.
pub open spec fn indented_rows(rows: Seq<Seq<char>>) -> Seq<char>
    decreases rows.len(),
{
    if rows.len() == 0 {
        Seq::empty()
    } else {
        indented_rows(rows.drop_last()) + "    "@ + rows.last() + seq!['\n']
    }
}

/// The transcript text of a source in a state, empty without a
/// transcript.
pub open spec fn source_text(s: AppState, source: SourceKind) -> Seq<char> {
    match crate::app_state::transcript_of(s, source) {
        Some(t) => crate::blocks::joined_blocks(crate::blocks::block_texts(t.blocks@)),
        None => Seq::empty(),
    }
}

impl AppState {
    /// Starts a new session generation: transcripts and insight results
    /// are forgotten, the fields emptied, the typing pane refreshed.
    /// Returns the dump request for the emptied transcripts.
    pub fn refresh_session(&mut self, generation: u64, now_ms: u64, terminal_focused: bool) -> (r: DumpRequest)
        requires
            old(self).wf(),
        ensures
            final(self).wf(),
            final(self).agent_generation == generation,
            final(self).microphone_transcript is None,
            final(self).system_transcript is None,
            final(self).agent.fields.len() == old(self).agent.fields.len(),
            forall|i: int| 0 <= i < final(self).agent.fields.len() ==> (#[trigger] final(self).agent.fields@[i])@
                == (crate::panes::FieldStateModel {
                config: old(self).agent.fields@[i].config@,
                lines: Seq::empty(),
                pending: None,
                updated_at_ms: None,
            }),
            final(self).agent.canonical_result@ == crate::insight::default_result_spec(
                old(self).agent.fields@.map_values(|f: crate::panes::AgentFieldState| f.config@),
            ),
            final(self).agent.last_successful_input is None,
            final(self).agent.status@ == (if old(self).agent.enabled { "refreshed"@ } else { "off"@ }),
            !final(self).agent.microphone_active,
            !final(self).agent.system_output_active,
            !final(self).agent.request_in_flight,
            final(self).agent.last_error is None,
            final(self).agent.request_count == old(self).agent.request_count,
            final(self).agent.total_tokens == old(self).agent.total_tokens,
            final(self).typing.request_count == 0,
            final(self).typing.last_typed_text@.len() == 0,
            final(self).typing.terminal_focused == terminal_focused,
            final(self).last_context_activity_at_ms == now_ms,
            final(self).status@ == "Refreshed"@,
            final(self).errors == old(self).errors,
            r == (if old(self).dump_enabled { DumpRequest::SetStatus } else { DumpRequest::Nothing }),
    {
        self.agent_generation = generation;
        self.microphone_transcript = None;
        self.system_transcript = None;
        let configs = self.agent.field_configs();
        let fields = crate::panes::default_agent_fields(&configs);
        proof {
            assert(crate::agent_config::fields_view(configs@) =~= old(self).agent.fields@.map_values(
                |f: crate::panes::AgentFieldState| f.config@,
            ));
        }
        self.agent.canonical_result = crate::insight::default_agent_result(&configs);
        self.agent.fields = fields;
        self.agent.last_successful_input = None;
        self.agent.status = if self.agent.enabled {
            string_of(&chars_of("refreshed"))
        } else {
            string_of(&chars_of("off"))
        };
        self.agent.microphone_active = false;
        self.agent.system_output_active = false;
        self.agent.request_in_flight = false;
        self.agent.clear_error();
        self.typing.refresh(terminal_focused);
        self.last_context_activity_at_ms = now_ms;
        self.status = string_of(&chars_of("Refreshed"));
        if self.dump_enabled {
            DumpRequest::SetStatus
        } else {
            DumpRequest::Nothing
        }
    }

    /// A transcript dump failed: the error is recorded, and the status line
    /// shows it when the request says so.
    pub fn note_dump_failure(&mut self, error: &str, request: DumpRequest, now_ms: u64)
        requires
            old(self).wf(),
        ensures
            final(self).wf(),
            request == DumpRequest::SetStatus ==> final(self).status@ == "Transcript dump failed: "@ + error@,
            request != DumpRequest::SetStatus ==> final(self).status == old(self).status,
            *final(self) == (AppState { status: final(self).status, errors: final(self).errors, ..*old(self) }),
            error_recorded(old(self).errors, final(self).errors, "Transcript dump failed: "@ + error@, session_ms(*old(self), now_ms)),
    {
        let mut m = chars_of("Transcript dump failed: ");
        crate::text::append_chars(&mut m, &chars_of(error));
        let message = string_of(&m);
        if request == DumpRequest::SetStatus {
            self.status = message.clone();
        }
        self.record_error(message.as_str(), now_ms);
    }

    /// The text of the transcript dump; see `dump_spec`.
    pub fn dump_content(&self) -> (r: String)
        ensures
            r@ == dump_spec(self.sources@, |s: SourceKind| source_text(*self, s)),
    {
        let mut out: Vec<char> = Vec::new();
        let mut i: usize = 0;
        while i < self.sources.len()
            invariant
                i <= self.sources.len(),
                out@ == dump_spec(self.sources@.take(i as int), |s: SourceKind| source_text(*self, s)),
            decreases self.sources.len() - i,
        {
            let source = self.sources[i];
            let ghost before = out@;
            crate::numbers::push_str_chars(&mut out, source.label());
            out.push('\n');
            let text = match self.transcript(source) {
                Some(t) => t.text(),
                None => String::new(),
            };
            let rows = crate::layout::wrap_plain_text(text.as_str(), 100);
            let ghost row_views = string_seqs(rows@);
            let mut k: usize = 0;
            let ghost base = out@;
            while k < rows.len()
                invariant
                    k <= rows.len(),
                    row_views == string_seqs(rows@),
                    out@ == base + indented_rows(row_views.take(k as int)),
                decreases rows.len() - k,
            {
                crate::numbers::push_str_chars(&mut out, "    ");
                crate::text::append_chars(&mut out, &chars_of(rows[k].as_str()));
                out.push('\n');
                k += 1;
                assert(row_views.take(k as int).drop_last() =~= row_views.take(k - 1));
                assert(out@ =~= base + indented_rows(row_views.take(k as int)));
            }
            assert(row_views.take(rows.len() as int) =~= row_views);
            out.push('\n');
            i += 1;
            proof {
                let ss = self.sources@.take(i as int);
                assert(ss.drop_last() =~= self.sources@.take(i - 1));
                assert(text@ == source_text(*self, source));
                assert(out@ =~= dump_spec(ss, |s: SourceKind| source_text(*self, s)));
            }
        }
        assert(self.sources@.take(self.sources.len() as int) =~= self.sources@);
        string_of(&out)
    }

    /// Whether the agent has used up its token limit.
    pub fn agent_token_budget_reached(&self) -> (r: bool)
        ensures
            r == budget_reached(*self),
    {
        match self.agent_token_limit {
            Some(limit) => self.agent.total_tokens >= limit,
            None => false,
        }
    }

    /// Grants another token block of the configured size (none when the
    /// budget is off) past the current limit or usage, whichever is later,
    /// and closes the prompt.
    pub fn continue_after_token_budget(&mut self)
        ensures
            final(self).agent_token_limit == (if old(self).transcription_settings.active.agent_token_budget == 0 {
                None::<u64>
            } else {
                let start = match old(self).agent_token_limit {
                    Some(l) => if l > old(self).agent.total_tokens { l } else { old(self).agent.total_tokens },
                    None => old(self).agent.total_tokens,
                };
                Some(crate::errors::sat_add(start, old(self).transcription_settings.active.agent_token_budget))
            }),
            final(self).agent.status@ == "token budget extended; resuming with latest context"@,
            *final(self) == (AppState {
                agent_token_limit: final(self).agent_token_limit,
                token_budget_prompt_open: false,
                token_budget_prompt_dismissed: false,
                agent: AgentPaneState { status: final(self).agent.status, ..old(self).agent },
                ..*old(self)
            }),
            old(self).transcription_settings.active.agent_token_budget > 0 && old(self).agent.total_tokens as int
                + old(self).transcription_settings.active.agent_token_budget <= u64::MAX ==> !budget_reached(*final(self)),
    {
        let increment = self.transcription_settings.active.agent_token_budget;
        if increment == 0 {
            self.agent_token_limit = None;
        } else {
            let current = match self.agent_token_limit {
                Some(l) => l,
                None => 0,
            };
            let start = if current > self.agent.total_tokens {
                current
            } else {
                self.agent.total_tokens
            };
            self.agent_token_limit = Some(start.saturating_add(increment));
        }
        self.token_budget_prompt_open = false;
        self.token_budget_prompt_dismissed = false;
        self.agent.status = string_of(&chars_of("token budget extended; resuming with latest context"));
    }

    /// Keeps requests paused after the budget prompt was declined.
    pub fn keep_token_budget_paused(&mut self)
        ensures
            final(self).agent.status@ == "paused; token budget reached (F1 to review)"@,
            *final(self) == (AppState {
                token_budget_prompt_open: false,
                token_budget_prompt_dismissed: true,
                agent: AgentPaneState { status: final(self).agent.status, ..old(self).agent },
                ..*old(self)
            }),
    {
        self.token_budget_prompt_open = false;
        self.token_budget_prompt_dismissed = true;
        self.agent.status = string_of(&chars_of("paused; token budget reached (F1 to review)"));
    }

    /// The monitored window after validation: when the previous window is
    /// gone, its focus evidence is dropped. Returns whether a window must be
    /// found again.
    pub fn note_monitor_window(&mut self, validated: Option<isize>) -> (r: bool)
        ensures
            r == validated is None,
            old(self).terminal_hwnd is Some && validated is None ==> final(self).terminal_view_focused is None,
            !(old(self).terminal_hwnd is Some && validated is None) ==> final(self).terminal_view_focused
                == old(self).terminal_view_focused,
            *final(self) == (AppState { terminal_view_focused: final(self).terminal_view_focused, ..*old(self) }),
    {
        if self.terminal_hwnd.is_some() && validated.is_none() {
            self.terminal_view_focused = None;
        }
        validated.is_none()
    }

    /// While a restart waits for the request in flight, the status says so.
    /// Returns whether the status changed.
    pub fn note_restart_wait(&mut self, request_in_flight: bool) -> (r: bool)
        ensures
            request_in_flight ==> final(self).status@ == "Settings saved; waiting for current Agent request"@,
            !request_in_flight ==> final(self).status == old(self).status,
            r == (request_in_flight && old(self).status@ != "Settings saved; waiting for current Agent request"@),
            *final(self) == (AppState { status: final(self).status, ..*old(self) }),
    {
        if !request_in_flight {
            return false;
        }
        let waiting = chars_of("Settings saved; waiting for current Agent request");
        if crate::text::chars_equal(&chars_of(self.status.as_str()), &waiting) {
            return false;
        }
        self.status = string_of(&waiting);
        true
    }

    /// One pass of the live-transcription lifecycle at `now_ms`, with the
    /// monitored window found and its request visibility: tracks how long
    /// the terminal has been hidden, ends the session after the configured
    /// hidden, idle or session limits, opens the token budget prompt, and
    /// pauses agent requests while hidden, unmonitored or over budget.
    /// Without a monitored window its visibility counts as unknown.
    /// Dictation leaves requests to its own gate and changes nothing; a
    /// pending restart holds requests back and changes nothing.
    pub fn update_transcription_lifecycle(
        &mut self,
        terminal_hwnd: Option<isize>,
        window_request_visibility: Option<bool>,
        now_ms: u64,
    ) -> (r: LifecycleOutcome)
        ensures
            old(self).mode != AppMode::Transcription ==> r == (LifecycleOutcome {
                changed: false,
                exit: false,
                requests_allowed: true,
            }) && *final(self) == *old(self),
            old(self).mode == AppMode::Transcription && old(self).restart_requested ==> r == (LifecycleOutcome {
                changed: false,
                exit: false,
                requests_allowed: false,
            }) && *final(self) == *old(self),
            old(self).mode == AppMode::Transcription && r.requests_allowed ==> {
                &&& final(self).agent.enabled
                &&& !final(self).restart_requested
                &&& !r.exit
                &&& final(self).terminal_hwnd is Some
                &&& !budget_reached(*final(self))
            },
            r.exit ==> !r.requests_allowed && "Auto-exit:"@.is_prefix_of(final(self).status@),
            old(self).mode == AppMode::Transcription && !old(self).restart_requested ==> ({
                let s = *old(self);
                let n = *final(self);
                let settings = s.transcription_settings.active;
                let visibility = request_visibility(monitored_visibility(terminal_hwnd, window_request_visibility), s.terminal_view_focused);
                let hidden_since = since_after(s.hidden_since_ms, visibility == Some(true), now_ms);
                let inactive_since = since_after(s.agent_inactive_since_ms, visibility == Some(true), now_ms);
                let hidden_elapsed = match hidden_since { Some(t) => sat_sub(now_ms, t), None => 0 };
                let inactive_elapsed = match inactive_since { Some(t) => sat_sub(now_ms, t), None => 0 };
                let reason = exit_reason(
                    visibility,
                    hidden_elapsed,
                    sat_sub(now_ms, s.last_context_activity_at_ms),
                    sat_sub(now_ms, s.started_at_ms),
                    settings.hidden_exit_minutes,
                    settings.idle_exit_minutes,
                    settings.max_session_minutes,
                );
                let budget = s.agent.enabled && budget_reached(s);
                let open_prompt = budget && !s.token_budget_prompt_open && !s.token_budget_prompt_dismissed;
                let unavailable = visibility is None;
                let hidden_pause = unavailable || (settings.pause_agent_when_hidden && visibility == Some(false)
                    && reached_secs(inactive_elapsed, settings.hidden_pause_seconds));
                let pause = pause_status(budget, s.token_budget_prompt_dismissed, unavailable, settings.hidden_exit_minutes, hidden_pause);
                let monitor_changed = s.terminal_hwnd != terminal_hwnd;
                &&& n.terminal_hwnd == terminal_hwnd
                &&& n.hidden_since_ms == hidden_since
                &&& n.agent_inactive_since_ms == inactive_since
                &&& match reason {
                    Some(text) => {
                        &&& r == LifecycleOutcome { changed: s.status@ != text, exit: true, requests_allowed: false }
                        &&& n.status@ == text
                        &&& n == AppState {
                            terminal_hwnd,
                            hidden_since_ms: hidden_since,
                            agent_inactive_since_ms: inactive_since,
                            status: n.status,
                            ..s
                        }
                    },
                    None => {
                        &&& r.exit == false
                        &&& r.requests_allowed == (s.agent.enabled && !hidden_pause && !budget)
                        &&& n.token_budget_prompt_open == (s.token_budget_prompt_open || open_prompt)
                        &&& match pause {
                            Some(text) => if s.agent.status@ != text {
                                n.agent.status@ == text && r.changed
                            } else {
                                n.agent.status == s.agent.status && r.changed == (open_prompt || monitor_changed)
                            },
                            None => n.agent.status == s.agent.status && r.changed == (open_prompt || monitor_changed),
                        }
                        &&& n == AppState {
                            terminal_hwnd,
                            hidden_since_ms: hidden_since,
                            agent_inactive_since_ms: inactive_since,
                            token_budget_prompt_open: n.token_budget_prompt_open,
                            agent: AgentPaneState { status: n.agent.status, ..s.agent },
                            ..s
                        }
                    },
                }
            }),
    {
        match self.mode {
            AppMode::Transcription => {},
            AppMode::EnhancedTyping => {
                return LifecycleOutcome { changed: false, exit: false, requests_allowed: true };
            },
        }
        if self.restart_requested {
            return LifecycleOutcome { changed: false, exit: false, requests_allowed: false };
        }
        let window_visibility = if terminal_hwnd.is_none() { None } else { window_request_visibility };
        let plan = self.lifecycle_plan(window_visibility, now_ms);
        let monitor_changed = self.terminal_hwnd != terminal_hwnd;
        self.terminal_hwnd = terminal_hwnd;
        self.hidden_since_ms = plan.hidden_since;
        self.agent_inactive_since_ms = plan.inactive_since;
        match plan.exit_text {
            Some(text) => {
                let t = chars_of(text);
                let changed = !crate::text::chars_equal(&chars_of(self.status.as_str()), &t);
                self.status = string_of(&t);
                proof {
                    reveal_strlit("Auto-exit:");
                    reveal_strlit("Auto-exit: terminal monitor remained unavailable");
                    reveal_strlit("Auto-exit: terminal remained out of view");
                    reveal_strlit("Auto-exit: no transcript activity");
                    reveal_strlit("Auto-exit: maximum session reached");
                    assert("Auto-exit:"@.is_prefix_of(self.status@)) by {
                        assert(self.status@.take(10) =~= "Auto-exit:"@);
                    }
                }
                return LifecycleOutcome { changed, exit: true, requests_allowed: false };
            },
            None => {},
        }
        if plan.open_prompt {
            self.token_budget_prompt_open = true;
        }
        match plan.pause_text {
            Some(text) => {
                let t = chars_of(text);
                if !crate::text::chars_equal(&chars_of(self.agent.status.as_str()), &t) {
                    self.agent.status = string_of(&t);
                    return LifecycleOutcome { changed: true, exit: false, requests_allowed: plan.allowed };
                }
            },
            None => {},
        }
        LifecycleOutcome { changed: plan.open_prompt || monitor_changed, exit: false, requests_allowed: plan.allowed }
    }

    /// The lifecycle decisions for a visibility at `now_ms`; see
    /// `update_transcription_lifecycle`.
    fn lifecycle_plan(&self, window_request_visibility: Option<bool>, now_ms: u64) -> (p: LifecyclePlan)
        ensures
            ({
                let s = *self;
                let settings = s.transcription_settings.active;
                let visibility = request_visibility(window_request_visibility, s.terminal_view_focused);
                let hidden_since = since_after(s.hidden_since_ms, visibility == Some(true), now_ms);
                let inactive_since = since_after(s.agent_inactive_since_ms, visibility == Some(true), now_ms);
                let hidden_elapsed = match hidden_since { Some(t) => sat_sub(now_ms, t), None => 0 };
                let inactive_elapsed = match inactive_since { Some(t) => sat_sub(now_ms, t), None => 0 };
                let reason = exit_reason(
                    visibility,
                    hidden_elapsed,
                    sat_sub(now_ms, s.last_context_activity_at_ms),
                    sat_sub(now_ms, s.started_at_ms),
                    settings.hidden_exit_minutes,
                    settings.idle_exit_minutes,
                    settings.max_session_minutes,
                );
                let budget = s.agent.enabled && budget_reached(s);
                let unavailable = visibility is None;
                let hidden_pause = unavailable || (settings.pause_agent_when_hidden && visibility == Some(false)
                    && reached_secs(inactive_elapsed, settings.hidden_pause_seconds));
                &&& p.hidden_since == hidden_since
                &&& p.inactive_since == inactive_since
                &&& match p.exit_text { Some(t) => reason == Some(t@), None => reason is None }
                &&& p.open_prompt == (budget && !s.token_budget_prompt_open && !s.token_budget_prompt_dismissed)
                &&& p.allowed == (s.agent.enabled && !hidden_pause && !budget)
                &&& match p.pause_text {
                    Some(t) => pause_status(budget, s.token_budget_prompt_dismissed, unavailable, settings.hidden_exit_minutes, hidden_pause) == Some(t@),
                    None => pause_status(budget, s.token_budget_prompt_dismissed, unavailable, settings.hidden_exit_minutes, hidden_pause) is None,
                }
            }),
    {
        let visibility = if window_request_visibility == Some(true) && self.terminal_view_focused == Some(false) {
            Some(false)
        } else {
            window_request_visibility
        };
        let visible = visibility == Some(true);
        let hidden_since = if visible {
            None
        } else if self.hidden_since_ms.is_none() {
            Some(now_ms)
        } else {
            self.hidden_since_ms
        };
        let inactive_since = if visible {
            None
        } else if self.agent_inactive_since_ms.is_none() {
            Some(now_ms)
        } else {
            self.agent_inactive_since_ms
        };
        let hidden_elapsed = match hidden_since {
            Some(t) => now_ms.saturating_sub(t),
            None => 0,
        };
        let inactive_elapsed = match inactive_since {
            Some(t) => now_ms.saturating_sub(t),
            None => 0,
        };
        let idle_elapsed = now_ms.saturating_sub(self.last_context_activity_at_ms);
        let session_elapsed = now_ms.saturating_sub(self.started_at_ms);
        let settings = &self.transcription_settings.active;
        let exit_text: Option<&'static str> = if visibility != Some(true) && expired_exec(hidden_elapsed, settings.hidden_exit_minutes) {
            if visibility.is_none() {
                Some("Auto-exit: terminal monitor remained unavailable")
            } else {
                Some("Auto-exit: terminal remained out of view")
            }
        } else if expired_exec(idle_elapsed, settings.idle_exit_minutes) {
            Some("Auto-exit: no transcript activity")
        } else if expired_exec(session_elapsed, settings.max_session_minutes) {
            Some("Auto-exit: maximum session reached")
        } else {
            None
        };
        let budget = self.agent.enabled && self.agent_token_budget_reached();
        let open_prompt = budget && !self.token_budget_prompt_open && !self.token_budget_prompt_dismissed;
        let unavailable = visibility.is_none();
        let hidden_pause = unavailable || (settings.pause_agent_when_hidden && visibility == Some(false)
            && (inactive_elapsed as u128) >= (settings.hidden_pause_seconds as u128) * 1000);
        let allowed = self.agent.enabled && !hidden_pause && !budget;
        let pause_text: Option<&'static str> = if budget && self.token_budget_prompt_dismissed {
            Some("paused; token budget reached (F1 to review)")
        } else if budget {
            Some("paused; session token budget reached")
        } else if unavailable {
            if settings.hidden_exit_minutes > 0 {
                Some("paused; terminal monitor unavailable; hidden auto-exit timer running")
            } else {
                Some("paused; terminal monitor unavailable; hidden auto-exit is off")
            }
        } else if hidden_pause {
            Some("paused; terminal not foreground, local context continues")
        } else {
            None
        };
        LifecyclePlan { hidden_since, inactive_since, exit_text, open_prompt, allowed, pause_text }
    }
}

/// The decisions of one lifecycle pass.
pub struct LifecyclePlan {
    pub hidden_since: Option<u64>,
    pub inactive_since: Option<u64>,
    pub exit_text: Option<&'static str>,
    pub open_prompt: bool,
    pub allowed: bool,
    pub pause_text: Option<&'static str>,
}

} // verus!
