//! The enhanced-typing pane: the refined draft, the request in flight, the
//! flush of the draft, and the typing settings.
use vstd::prelude::*;

use crate::delta::{appended_draft, compact_error_spec};
use crate::insight::AgentUsage;
use crate::modes::{
    cycled, refiner_model_spec, speed_preset_spec, transparency_preset_spec, SourceKind,
    TypingFlushMode, TypingSettingDirection, TypingSpeedPreset, TypingTransparencyPreset,
    TYPING_SPEED_PRESET_COUNT, TYPING_TRANSPARENCY_PRESET_COUNT,
};
use crate::panes::{usage_fits, MarkerColor};
use crate::settings::EnhancedTypingSettings;
use crate::text::{chars_of, string_of, trim, trim_vec};

verus! {

/// What a flush of the draft led to.
#[derive(Debug, PartialEq, Eq)]
pub enum TypingFlushOutcome {
    /// A phrase is still being refined; nothing was flushed.
    PendingRequest,
    /// The draft is blank.
    NoContent,
    /// The draft was flushed and cleared.
    Completed,
    /// Copying the draft failed.
    Failed,
    /// The draft is to be typed into the target window.
    TypeText(String),
    /// The draft is to be copied to the clipboard.
    CopyText(String),
}

/// The enhanced-typing pane.
pub struct TypingPaneState {
    pub enabled: bool,
    pub refiner_model: String,
    pub settings_path: String,
    pub transparency_index: usize,
    pub typing_speed_index: usize,
    pub transparency_generation: u64,
    pub settings_note: Option<String>,
    pub settings_load_error: Option<String>,
    pub intelligence_available: bool,
    pub intelligence_enabled: bool,
    pub flush_mode: TypingFlushMode,
    pub input_source: SourceKind,
    pub settings_open: bool,
    pub settings_selection: usize,
    pub terminal_hwnd: Option<isize>,
    pub terminal_focused: bool,
    pub last_target_hwnd: Option<isize>,
    pub microphone_active: bool,
    pub request_in_flight: bool,
    pub discard_pending_typing_output: bool,
    pub exit_confirmation_open: bool,
    pub request_count: u64,
    pub input_tokens: u64,
    pub output_tokens: u64,
    pub total_tokens: u64,
    pub last_total_tokens: Option<u64>,
    pub last_query_bytes: Option<usize>,
    pub last_raw_text: String,
    pub last_typed_text: String,
    pub display_note: String,
    pub paste_status: String,
    pub last_error: Option<String>,
    pub updated_at_ms: Option<u64>,
    pub scroll_offset: usize,
    pub last_requested_size: Option<(u16, u16)>,
}

/// Texts equal as character sequences.
pub open spec fn is_text(s: String, t: Seq<char>) -> bool {
    s@ == t
}

impl TypingPaneState {
    /// The preset indices are in range.
    pub open spec fn wf(&self) -> bool {
        self.transparency_index < TYPING_TRANSPARENCY_PRESET_COUNT && self.typing_speed_index < TYPING_SPEED_PRESET_COUNT
    }

    /// A fresh pane.
    pub fn new(
        enabled: bool,
        refiner_model: String,
        settings_path: String,
        transparency_index: usize,
        typing_speed_index: usize,
        settings_load_error: Option<String>,
        intelligence_available: bool,
        intelligence_enabled: bool,
        flush_mode: TypingFlushMode,
        input_source: SourceKind,
        terminal_hwnd: Option<isize>,
    ) -> (r: Self)
        requires
            transparency_index < TYPING_TRANSPARENCY_PRESET_COUNT,
            typing_speed_index < TYPING_SPEED_PRESET_COUNT,
        ensures
            r.wf(),
            r.enabled == enabled,
            r.refiner_model == refiner_model,
            r.settings_path == settings_path,
            r.transparency_index == transparency_index,
            r.typing_speed_index == typing_speed_index,
            r.settings_load_error == settings_load_error,
            r.intelligence_available == intelligence_available,
            r.intelligence_enabled == intelligence_enabled,
            r.flush_mode == flush_mode,
            r.input_source == input_source,
            r.terminal_hwnd == terminal_hwnd,
            r.terminal_focused,
            !r.request_in_flight,
            !r.microphone_active,
            r.request_count == 0,
            r.last_typed_text@.len() == 0,
            r.paste_status@ == "waiting for speech"@,
            r.last_error is None,
    {
        TypingPaneState {
            enabled,
            refiner_model,
            settings_path,
            transparency_index,
            typing_speed_index,
            transparency_generation: 0,
            settings_note: None,
            settings_load_error,
            intelligence_available,
            intelligence_enabled,
            flush_mode,
            input_source,
            settings_open: false,
            settings_selection: 0,
            terminal_hwnd,
            terminal_focused: true,
            last_target_hwnd: None,
            microphone_active: false,
            request_in_flight: false,
            discard_pending_typing_output: false,
            exit_confirmation_open: false,
            request_count: 0,
            input_tokens: 0,
            output_tokens: 0,
            total_tokens: 0,
            last_total_tokens: None,
            last_query_bytes: None,
            last_raw_text: String::new(),
            last_typed_text: String::new(),
            display_note: String::new(),
            paste_status: string_of(&chars_of("waiting for speech")),
            last_error: None,
            updated_at_ms: None,
            scroll_offset: 0,
            last_requested_size: None,
        }
    }

    /// Forgets the session: counters, draft, errors and the settings screen;
    /// `terminal_focused` is whether the terminal is in the foreground.
    pub fn refresh(&mut self, terminal_focused: bool)
        ensures
            final(self).paste_status@ == (if old(self).enabled { "waiting for speech"@ } else { "off"@ }),
            final(self).last_raw_text@.len() == 0,
            final(self).last_typed_text@.len() == 0,
            final(self).display_note@.len() == 0,
            *final(self) == (TypingPaneState {
                microphone_active: false,
                request_in_flight: false,
                request_count: 0,
                input_tokens: 0,
                output_tokens: 0,
                total_tokens: 0,
                last_total_tokens: None,
                last_query_bytes: None,
                last_raw_text: final(self).last_raw_text,
                last_typed_text: final(self).last_typed_text,
                display_note: final(self).display_note,
                discard_pending_typing_output: false,
                exit_confirmation_open: false,
                paste_status: final(self).paste_status,
                last_error: None,
                updated_at_ms: None,
                scroll_offset: 0,
                last_requested_size: None,
                settings_open: false,
                settings_selection: 0,
                settings_note: None,
                terminal_focused,
                ..*old(self)
            }),
    {
        self.microphone_active = false;
        self.request_in_flight = false;
        self.request_count = 0;
        self.input_tokens = 0;
        self.output_tokens = 0;
        self.total_tokens = 0;
        self.last_total_tokens = None;
        self.last_query_bytes = None;
        self.last_raw_text = String::new();
        self.last_typed_text = String::new();
        self.display_note = String::new();
        self.discard_pending_typing_output = false;
        self.exit_confirmation_open = false;
        self.paste_status = if self.enabled {
            string_of(&chars_of("waiting for speech"))
        } else {
            string_of(&chars_of("off"))
        };
        self.last_error = None;
        self.updated_at_ms = None;
        self.scroll_offset = 0;
        self.last_requested_size = None;
        self.settings_open = false;
        self.settings_selection = 0;
        self.settings_note = None;
        self.terminal_focused = terminal_focused;
    }

    /// Notes the activity of the selected input source; returns whether it
    /// changed. Other sources are ignored.
    pub fn set_source_activity(&mut self, source: SourceKind, active: bool) -> (r: bool)
        ensures
            r == (source == old(self).input_source && old(self).microphone_active != active),
            r ==> *final(self) == (TypingPaneState { microphone_active: active, ..*old(self) }),
            !r ==> *final(self) == *old(self),
    {
        if source != self.input_source || self.microphone_active == active {
            return false;
        }
        self.microphone_active = active;
        true
    }

    /// A phrase went out to be typed, refined or raw.
    pub fn start_request(&mut self, raw_text: String, query_bytes: usize, intelligence_enabled: bool)
        requires
            intelligence_enabled ==> old(self).request_count < u64::MAX,
        ensures
            final(self).paste_status@ == (if intelligence_enabled { "refining"@ } else { "typing raw"@ }),
            *final(self) == (TypingPaneState {
                request_in_flight: true,
                discard_pending_typing_output: false,
                exit_confirmation_open: false,
                request_count: if intelligence_enabled { (old(self).request_count + 1) as u64 } else { old(self).request_count },
                last_query_bytes: Some(query_bytes),
                last_raw_text: raw_text,
                intelligence_enabled,
                paste_status: final(self).paste_status,
                last_error: None,
                ..*old(self)
            }),
    {
        self.request_in_flight = true;
        self.discard_pending_typing_output = false;
        self.exit_confirmation_open = false;
        if intelligence_enabled {
            self.request_count = self.request_count + 1;
        }
        self.last_query_bytes = Some(query_bytes);
        self.last_raw_text = raw_text;
        self.intelligence_enabled = intelligence_enabled;
        self.paste_status = if intelligence_enabled {
            string_of(&chars_of("refining"))
        } else {
            string_of(&chars_of("typing raw"))
        };
        self.last_error = None;
    }

    /// The request in flight ended.
    pub fn finish_request(&mut self)
        ensures
            *final(self) == (TypingPaneState { request_in_flight: false, ..*old(self) }),
    {
        self.request_in_flight = false;
    }

    /// Keeps the last error message.
    pub fn record_error(&mut self, message: String)
        ensures
            *final(self) == (TypingPaneState { last_error: Some(message), ..*old(self) }),
    {
        self.last_error = Some(message);
    }

    /// Adds a request's token usage to the totals.
    pub fn record_usage(&mut self, usage: Option<AgentUsage>)
        requires
            usage_fits(old(self).input_tokens, old(self).output_tokens, old(self).total_tokens, usage),
        ensures
            *final(self) == (match usage {
                Some(u) => TypingPaneState {
                    input_tokens: (old(self).input_tokens + u.input_tokens) as u64,
                    output_tokens: (old(self).output_tokens + u.output_tokens) as u64,
                    total_tokens: (old(self).total_tokens + u.total_tokens) as u64,
                    last_total_tokens: Some(u.total_tokens),
                    ..*old(self)
                },
                None => *old(self),
            }),
    {
        match usage {
            Some(u) => {
                self.input_tokens = self.input_tokens + u.input_tokens;
                self.output_tokens = self.output_tokens + u.output_tokens;
                self.total_tokens = self.total_tokens + u.total_tokens;
                self.last_total_tokens = Some(u.total_tokens);
            },
            None => {},
        }
    }

    /// A refined phrase arrived: it is appended to the draft (see
    /// `appended_draft`) and the request ends.
    pub fn apply_output(&mut self, raw_text: String, typed_text: String, display_note: String, paste_status: String, now_ms: u64)
        ensures
            final(self).last_typed_text@ == appended_draft(old(self).last_typed_text@, typed_text@),
            *final(self) == (TypingPaneState {
                request_in_flight: false,
                last_error: None,
                last_raw_text: raw_text,
                last_typed_text: final(self).last_typed_text,
                display_note,
                paste_status,
                updated_at_ms: Some(now_ms),
                scroll_offset: 0,
                ..*old(self)
            }),
    {
        self.request_in_flight = false;
        self.last_error = None;
        self.last_raw_text = raw_text;
        crate::delta::append_typing_text(&mut self.last_typed_text, typed_text.as_str());
        self.display_note = display_note;
        self.paste_status = paste_status;
        self.updated_at_ms = Some(now_ms);
        self.scroll_offset = 0;
    }

    /// Follows the terminal's focus: an unfocused terminal stops listening.
    /// Returns whether the pane changed.
    pub fn sync_focus(&mut self, focused: bool) -> (r: bool)
        ensures
            r == (old(self).terminal_focused != focused || (!focused && old(self).microphone_active)),
            *final(self) == (TypingPaneState {
                terminal_focused: focused,
                microphone_active: old(self).microphone_active && focused,
                ..*old(self)
            }),
            old(self).wf() ==> final(self).wf(),
    {
        let changed = self.terminal_focused != focused || (!focused && self.microphone_active);
        self.terminal_focused = focused;
        if !focused {
            self.microphone_active = false;
        }
        changed
    }

    /// Whether the pane shows a draft or an error.
    pub fn has_content(&self) -> (r: bool)
        ensures
            r == (trim(self.last_typed_text@).len() > 0 || self.last_error is Some),
    {
        !crate::text::str_is_blank(self.last_typed_text.as_str()) || self.last_error.is_some()
    }

    /// Whether Esc has something to clear.
    pub fn has_clearable_content(&self) -> (r: bool)
        ensures
            r == (trim(self.last_typed_text@).len() > 0 || self.last_error is Some || self.request_in_flight),
    {
        self.has_content() || self.request_in_flight
    }

    /// Clears the draft; a phrase in flight will be discarded when it
    /// arrives.
    pub fn clear_content(&mut self, now_ms: u64)
        ensures
            final(self).last_raw_text@.len() == 0,
            final(self).last_typed_text@.len() == 0,
            final(self).display_note@.len() == 0,
            final(self).paste_status@ == (if old(self).request_in_flight {
                "cleared; waiting for current phrase"@
            } else {
                "cleared"@
            }),
            *final(self) == (TypingPaneState {
                last_raw_text: final(self).last_raw_text,
                last_typed_text: final(self).last_typed_text,
                display_note: final(self).display_note,
                last_error: None,
                scroll_offset: 0,
                exit_confirmation_open: false,
                discard_pending_typing_output: old(self).discard_pending_typing_output || old(self).request_in_flight,
                paste_status: final(self).paste_status,
                updated_at_ms: Some(now_ms),
                ..*old(self)
            }),
    {
        self.last_raw_text = String::new();
        self.last_typed_text = String::new();
        self.display_note = String::new();
        self.last_error = None;
        self.scroll_offset = 0;
        self.exit_confirmation_open = false;
        if self.request_in_flight {
            self.discard_pending_typing_output = true;
            self.paste_status = string_of(&chars_of("cleared; waiting for current phrase"));
        } else {
            self.paste_status = string_of(&chars_of("cleared"));
        }
        self.updated_at_ms = Some(now_ms);
    }

    /// The discarded phrase arrived (or failed): the pane stays cleared.
    pub fn finish_discarded_request(&mut self, now_ms: u64)
        ensures
            final(self).last_raw_text@.len() == 0,
            final(self).paste_status@ == "cleared"@,
            *final(self) == (TypingPaneState {
                request_in_flight: false,
                discard_pending_typing_output: false,
                last_raw_text: final(self).last_raw_text,
                last_error: None,
                paste_status: final(self).paste_status,
                updated_at_ms: Some(now_ms),
                ..*old(self)
            }),
    {
        self.request_in_flight = false;
        self.discard_pending_typing_output = false;
        self.last_raw_text = String::new();
        self.last_error = None;
        self.paste_status = string_of(&chars_of("cleared"));
        self.updated_at_ms = Some(now_ms);
    }

    /// Asks to press Esc again to exit.
    pub fn request_exit_confirmation(&mut self, now_ms: u64)
        ensures
            final(self).paste_status@ == "press Esc again to exit"@,
            *final(self) == (TypingPaneState {
                exit_confirmation_open: true,
                paste_status: final(self).paste_status,
                updated_at_ms: Some(now_ms),
                ..*old(self)
            }),
    {
        self.exit_confirmation_open = true;
        self.paste_status = string_of(&chars_of("press Esc again to exit"));
        self.updated_at_ms = Some(now_ms);
    }

    /// Withdraws the exit question.
    pub fn cancel_exit_confirmation(&mut self, now_ms: u64)
        ensures
            final(self).paste_status@ == "ready"@,
            *final(self) == (TypingPaneState {
                exit_confirmation_open: false,
                paste_status: final(self).paste_status,
                updated_at_ms: Some(now_ms),
                ..*old(self)
            }),
    {
        self.exit_confirmation_open = false;
        self.paste_status = string_of(&chars_of("ready"));
        self.updated_at_ms = Some(now_ms);
    }

    /// Flushes the draft according to the flush mode: nothing while a
    /// phrase is in flight or when the draft is blank; discarding clears it
    /// at once; copying and typing hand the trimmed draft out.
    pub fn flush(&mut self, now_ms: u64) -> (r: TypingFlushOutcome)
        ensures
            old(self).request_in_flight ==> r == TypingFlushOutcome::PendingRequest
                && final(self).paste_status@ == "waiting for current phrase"@
                && *final(self) == (TypingPaneState {
                paste_status: final(self).paste_status,
                updated_at_ms: Some(now_ms),
                ..*old(self)
            }),
            !old(self).request_in_flight && trim(old(self).last_typed_text@).len() == 0 ==> r
                == TypingFlushOutcome::NoContent && final(self).paste_status@ == "nothing to flush"@
                && *final(self) == (TypingPaneState {
                paste_status: final(self).paste_status,
                updated_at_ms: Some(now_ms),
                ..*old(self)
            }),
            !old(self).request_in_flight && trim(old(self).last_typed_text@).len() > 0 ==> match old(self).flush_mode {
                TypingFlushMode::Discard => r == TypingFlushOutcome::Completed && final(self).last_typed_text@.len() == 0
                    && final(self).display_note@.len() == 0 && final(self).paste_status@ == "flushed"@
                    && *final(self) == (TypingPaneState {
                    last_typed_text: final(self).last_typed_text,
                    display_note: final(self).display_note,
                    scroll_offset: 0,
                    paste_status: final(self).paste_status,
                    updated_at_ms: Some(now_ms),
                    ..*old(self)
                }),
                TypingFlushMode::Clipboard => (match r {
                    TypingFlushOutcome::CopyText(t) => t@ == trim(old(self).last_typed_text@),
                    _ => false,
                }) && *final(self) == *old(self),
                TypingFlushMode::Type => (match r {
                    TypingFlushOutcome::TypeText(t) => t@ == trim(old(self).last_typed_text@),
                    _ => false,
                }) && final(self).paste_status@ == "typing"@ && *final(self) == (TypingPaneState {
                    paste_status: final(self).paste_status,
                    updated_at_ms: Some(now_ms),
                    ..*old(self)
                }),
            },
    {
        if self.request_in_flight {
            self.paste_status = string_of(&chars_of("waiting for current phrase"));
            self.updated_at_ms = Some(now_ms);
            return TypingFlushOutcome::PendingRequest;
        }
        let text = trim_vec(&chars_of(self.last_typed_text.as_str()));
        if text.len() == 0 {
            self.paste_status = string_of(&chars_of("nothing to flush"));
            self.updated_at_ms = Some(now_ms);
            return TypingFlushOutcome::NoContent;
        }
        match self.flush_mode {
            TypingFlushMode::Clipboard => TypingFlushOutcome::CopyText(string_of(&text)),
            TypingFlushMode::Discard => self.clear_after_flush(string_of(&chars_of("flushed")), now_ms),
            TypingFlushMode::Type => {
                self.paste_status = string_of(&chars_of("typing"));
                self.updated_at_ms = Some(now_ms);
                TypingFlushOutcome::TypeText(string_of(&text))
            },
        }
    }

    /// The draft was handed on: it is cleared, with the given status.
    pub fn clear_after_flush(&mut self, paste_status: String, now_ms: u64) -> (r: TypingFlushOutcome)
        ensures
            r == TypingFlushOutcome::Completed,
            final(self).last_typed_text@.len() == 0,
            final(self).display_note@.len() == 0,
            *final(self) == (TypingPaneState {
                last_typed_text: final(self).last_typed_text,
                display_note: final(self).display_note,
                scroll_offset: 0,
                paste_status,
                updated_at_ms: Some(now_ms),
                ..*old(self)
            }),
    {
        self.last_typed_text = String::new();
        self.display_note = String::new();
        self.scroll_offset = 0;
        self.paste_status = paste_status;
        self.updated_at_ms = Some(now_ms);
        TypingFlushOutcome::Completed
    }

    /// The result of copying the draft: success clears it with the copy's
    /// status, failure keeps it with a bounded error message.
    pub fn finish_copy_flush(&mut self, result: Result<String, String>, now_ms: u64) -> (r: TypingFlushOutcome)
        ensures
            match result {
                Ok(status) => r == TypingFlushOutcome::Completed && final(self).last_typed_text@.len() == 0
                    && final(self).paste_status == status,
                Err(e) => r == TypingFlushOutcome::Failed && final(self).paste_status@ == "copy failed: "@
                    + compact_error_spec(e@, 90) && *final(self) == (TypingPaneState {
                    paste_status: final(self).paste_status,
                    updated_at_ms: Some(now_ms),
                    ..*old(self)
                }),
            },
    {
        match result {
            Ok(status) => self.clear_after_flush(status, now_ms),
            Err(e) => {
                let mut m = chars_of("copy failed: ");
                let c = crate::delta::compact_error(e.as_str(), 90);
                crate::text::append_chars(&mut m, &chars_of(c.as_str()));
                self.paste_status = string_of(&m);
                self.updated_at_ms = Some(now_ms);
                TypingFlushOutcome::Failed
            },
        }
    }

    /// The draft was typed into the target window.
    pub fn finish_type_flush(&mut self, now_ms: u64)
        ensures
            final(self).last_typed_text@.len() == 0,
            final(self).display_note@.len() == 0,
            final(self).paste_status@ == "typed"@,
            *final(self) == (TypingPaneState {
                last_typed_text: final(self).last_typed_text,
                display_note: final(self).display_note,
                scroll_offset: 0,
                paste_status: final(self).paste_status,
                updated_at_ms: Some(now_ms),
                ..*old(self)
            }),
    {
        self.last_typed_text = String::new();
        self.display_note = String::new();
        self.scroll_offset = 0;
        self.paste_status = string_of(&chars_of("typed"));
        self.updated_at_ms = Some(now_ms);
    }

    /// Typing the draft failed; it is kept.
    pub fn fail_type_flush(&mut self, error: &str, now_ms: u64)
        ensures
            final(self).paste_status@ == "type failed: "@ + compact_error_spec(error@, 90),
            *final(self) == (TypingPaneState {
                paste_status: final(self).paste_status,
                updated_at_ms: Some(now_ms),
                ..*old(self)
            }),
    {
        let mut m = chars_of("type failed: ");
        let c = crate::delta::compact_error(error, 90);
        crate::text::append_chars(&mut m, &chars_of(c.as_str()));
        self.paste_status = string_of(&m);
        self.updated_at_ms = Some(now_ms);
    }

    /// Switches refinement; it stays off without an API key. Returns
    /// whether it is on.
    pub fn set_intelligence(&mut self, enabled: bool) -> (r: bool)
        ensures
            r == (old(self).intelligence_available && enabled),
            *final(self) == (TypingPaneState { intelligence_enabled: r, ..*old(self) }),
    {
        if !self.intelligence_available {
            self.intelligence_enabled = false;
            return false;
        }
        self.intelligence_enabled = enabled;
        self.intelligence_enabled
    }

    /// Sets the flush mode; returns whether it changed.
    pub fn set_flush_mode(&mut self, mode: TypingFlushMode) -> (r: bool)
        ensures
            r == (old(self).flush_mode != mode),
            *final(self) == (TypingPaneState { flush_mode: mode, ..*old(self) }),
    {
        if self.flush_mode == mode {
            return false;
        }
        self.flush_mode = mode;
        true
    }

    /// Steps the flush mode through clipboard, type, discard.
    pub fn cycle_flush_mode(&mut self, direction: TypingSettingDirection) -> (r: TypingFlushMode)
        ensures
            r == flush_mode_at(cycled(flush_mode_index(old(self).flush_mode), 3, direction)),
            *final(self) == (TypingPaneState { flush_mode: r, ..*old(self) }),
    {
        let current: usize = match self.flush_mode {
            TypingFlushMode::Clipboard => 0,
            TypingFlushMode::Type => 1,
            TypingFlushMode::Discard => 2,
        };
        let next = crate::modes::cycle_index(current, 3, direction);
        let mode = if next == 0 {
            TypingFlushMode::Clipboard
        } else if next == 1 {
            TypingFlushMode::Type
        } else {
            TypingFlushMode::Discard
        };
        self.set_flush_mode(mode);
        self.flush_mode
    }

    /// Sets the input source; a change resets its activity. Returns whether
    /// it changed.
    pub fn set_input_source(&mut self, source: SourceKind) -> (r: bool)
        ensures
            r == (old(self).input_source != source),
            r ==> *final(self) == (TypingPaneState { input_source: source, microphone_active: false, ..*old(self) }),
            !r ==> *final(self) == *old(self),
    {
        if self.input_source == source {
            return false;
        }
        self.input_source = source;
        self.microphone_active = false;
        true
    }

    /// Switches between the two input sources.
    pub fn cycle_input_source(&mut self, direction: TypingSettingDirection) -> (r: SourceKind)
        ensures
            r == (match old(self).input_source {
                SourceKind::Microphone => SourceKind::SystemOutput,
                SourceKind::SystemOutput => SourceKind::Microphone,
            }),
            *final(self) == (TypingPaneState { input_source: r, microphone_active: false, ..*old(self) }),
    {
        let next = match self.input_source {
            SourceKind::Microphone => SourceKind::SystemOutput,
            SourceKind::SystemOutput => SourceKind::Microphone,
        };
        self.set_input_source(next);
        self.input_source
    }

    /// Steps the transparency preset.
    pub fn cycle_transparency(&mut self, direction: TypingSettingDirection) -> (r: TypingTransparencyPreset)
        requires
            old(self).wf(),
        ensures
            final(self).wf(),
            final(self).transparency_index == cycled(old(self).transparency_index as int, TYPING_TRANSPARENCY_PRESET_COUNT as int, direction),
            (r.label@, r.opacity, r.background) == transparency_preset_spec(final(self).transparency_index as int),
            *final(self) == (TypingPaneState { transparency_index: final(self).transparency_index, ..*old(self) }),
    {
        self.transparency_index = crate::modes::cycle_index(self.transparency_index, TYPING_TRANSPARENCY_PRESET_COUNT, direction);
        crate::modes::typing_transparency_preset(self.transparency_index)
    }

    /// The current transparency preset's label.
    pub fn transparency_label(&self) -> (r: &'static str)
        requires
            self.wf(),
        ensures
            r@ == transparency_preset_spec(self.transparency_index as int).0,
    {
        crate::modes::typing_transparency_preset(self.transparency_index).label
    }

    /// The current transparency preset.
    pub fn transparency_preset(&self) -> (r: TypingTransparencyPreset)
        requires
            self.wf(),
        ensures
            (r.label@, r.opacity, r.background) == transparency_preset_spec(self.transparency_index as int),
    {
        crate::modes::typing_transparency_preset(self.transparency_index)
    }

    /// Steps the typing speed preset.
    pub fn cycle_typing_speed(&mut self, direction: TypingSettingDirection) -> (r: TypingSpeedPreset)
        requires
            old(self).wf(),
        ensures
            final(self).wf(),
            final(self).typing_speed_index == cycled(old(self).typing_speed_index as int, TYPING_SPEED_PRESET_COUNT as int, direction),
            (r.label@, r.key_delay_ms) == speed_preset_spec(final(self).typing_speed_index as int),
            *final(self) == (TypingPaneState { typing_speed_index: final(self).typing_speed_index, ..*old(self) }),
    {
        self.typing_speed_index = crate::modes::cycle_index(self.typing_speed_index, TYPING_SPEED_PRESET_COUNT, direction);
        crate::modes::typing_speed_preset(self.typing_speed_index)
    }

    /// The current typing speed's label.
    pub fn typing_speed_label(&self) -> (r: &'static str)
        requires
            self.wf(),
        ensures
            r@ == speed_preset_spec(self.typing_speed_index as int).0,
    {
        crate::modes::typing_speed_preset(self.typing_speed_index).label
    }

    /// The delay between keystrokes, in milliseconds.
    pub fn typing_key_delay(&self) -> (r: u64)
        requires
            self.wf(),
        ensures
            r == speed_preset_spec(self.typing_speed_index as int).1,
    {
        crate::modes::typing_speed_preset(self.typing_speed_index).key_delay()
    }

    /// Steps the refiner model through the offered models; an unknown model
    /// steps to the first (backward from the start) or the last (forward
    /// from the end).
    pub fn cycle_refiner_model(&mut self, direction: TypingSettingDirection) -> (r: String)
        ensures
            r@ == refiner_model_spec(cycled(
                match refiner_index(old(self).refiner_model@) {
                    Some(i) => i,
                    None => match direction {
                        TypingSettingDirection::Previous => 0,
                        TypingSettingDirection::Next => 2,
                    },
                },
                3,
                direction,
            )),
            final(self).refiner_model@ == r@,
            *final(self) == (TypingPaneState { refiner_model: final(self).refiner_model, ..*old(self) }),
    {
        let m = chars_of(self.refiner_model.as_str());
        let current: usize = if crate::normalize::is_text(&m, "gpt-5.6-sol") {
            0
        } else if crate::normalize::is_text(&m, "gpt-5.6-terra") {
            1
        } else if crate::normalize::is_text(&m, "gpt-5.6-luna") {
            2
        } else {
            match direction {
                TypingSettingDirection::Previous => 0,
                TypingSettingDirection::Next => 2,
            }
        };
        let next = crate::modes::cycle_index(current, 3, direction);
        let model = crate::modes::typing_refiner_model(next);
        self.refiner_model = string_of(&chars_of(model));
        self.refiner_model.clone()
    }

    /// Opens the typing settings; listening pauses.
    pub fn open_settings(&mut self)
        ensures
            *final(self) == (TypingPaneState { settings_open: true, microphone_active: false, settings_note: None, ..*old(self) }),
    {
        self.settings_open = true;
        self.microphone_active = false;
        self.settings_note = None;
    }

    /// Closes the typing settings.
    pub fn close_settings(&mut self)
        ensures
            *final(self) == (TypingPaneState { settings_open: false, ..*old(self) }),
    {
        self.settings_open = false;
    }

    /// The settings as saved.
    pub fn persisted_settings(&self) -> (r: EnhancedTypingSettings)
        requires
            self.wf(),
        ensures
            r.intelligence_enabled == self.intelligence_enabled,
            r.clipboard_enabled == (self.flush_mode == TypingFlushMode::Clipboard),
            r.flush_mode == Some(self.flush_mode),
            r.input_source == self.input_source,
            r.transparency_label@ == transparency_preset_spec(self.transparency_index as int).0,
            r.typing_speed_label@ == speed_preset_spec(self.typing_speed_index as int).0,
            r.refiner_model@ == self.refiner_model@,
    {
        EnhancedTypingSettings {
            intelligence_enabled: self.intelligence_enabled,
            clipboard_enabled: self.flush_mode == TypingFlushMode::Clipboard,
            flush_mode: Some(self.flush_mode),
            input_source: self.input_source,
            transparency_label: string_of(&chars_of(self.transparency_label())),
            typing_speed_label: string_of(&chars_of(self.typing_speed_label())),
            refiner_model: self.refiner_model.clone(),
        }
    }

    /// The pane's state marker: holding while the settings are open or the
    /// terminal is not focused, thinking while a phrase is refined,
    /// listening while the source is active.
    pub fn state_marker(&self) -> (r: (&'static str, MarkerColor))
        ensures
            r.0@ == (if self.settings_open || !self.terminal_focused {
                "\u{25cf} hold."@
            } else if self.request_in_flight {
                "\u{25cf} thinking..."@
            } else if self.microphone_active {
                "\u{25cf} listening..."@
            } else {
                "\u{25cf} hold."@
            }),
            r.1 == (if self.settings_open || !self.terminal_focused {
                MarkerColor::Yellow
            } else if self.request_in_flight {
                MarkerColor::Red
            } else if self.microphone_active {
                MarkerColor::Cyan
            } else {
                MarkerColor::Yellow
            }),
    {
        if self.settings_open || !self.terminal_focused {
            ("\u{25cf} hold.", MarkerColor::Yellow)
        } else if self.request_in_flight {
            ("\u{25cf} thinking...", MarkerColor::Red)
        } else if self.microphone_active {
            ("\u{25cf} listening...", MarkerColor::Cyan)
        } else {
            ("\u{25cf} hold.", MarkerColor::Yellow)
        }
    }
}

/// The effect of a typing result on the pane; see `receive_output`.
pub open spec fn output_received(
    t0: TypingPaneState,
    t1: TypingPaneState,
    raw_text: String,
    typed_text: String,
    display_note: String,
    usage: Option<AgentUsage>,
    paste_status: String,
    stale: bool,
    now_ms: u64,
    r: u8,
) -> bool {
                let t = match usage {
                    Some(u) => TypingPaneState {
                        input_tokens: (t0.input_tokens + u.input_tokens) as u64,
                        output_tokens: (t0.output_tokens + u.output_tokens) as u64,
                        total_tokens: (t0.total_tokens + u.total_tokens) as u64,
                        last_total_tokens: Some(u.total_tokens),
                        ..t0
                    },
                    None => t0,
                };
                &&& stale ==> r == 0 && t1 == (if usage is Some {
                    TypingPaneState {
                        request_count: if t.request_count == u64::MAX { u64::MAX } else { (t.request_count + 1) as u64 },
                        ..t
                    }
                } else {
                    t
                })
                &&& !stale && t0.discard_pending_typing_output ==> r == 1 && t1.last_raw_text@.len() == 0
                    && t1.paste_status@ == "cleared"@ && t1 == (TypingPaneState {
                    request_in_flight: false,
                    discard_pending_typing_output: false,
                    last_raw_text: t1.last_raw_text,
                    last_error: None,
                    paste_status: t1.paste_status,
                    updated_at_ms: Some(now_ms),
                    ..t
                })
                &&& !stale && !t0.discard_pending_typing_output ==> r == 2 && t1.last_typed_text@
                    == appended_draft(t0.last_typed_text@, typed_text@) && t1 == (TypingPaneState {
                    request_in_flight: false,
                    last_error: None,
                    last_raw_text: raw_text,
                    last_typed_text: t1.last_typed_text,
                    display_note,
                    paste_status,
                    updated_at_ms: Some(now_ms),
                    scroll_offset: 0,
                    ..t
                })
}

impl TypingPaneState {
    /// A typing result arrived: its usage is counted; a stale result (from
    /// an earlier session) counts as one more request when it used tokens; a
    /// result the user cleared is dropped; any other is appended to the
    /// draft. Returns 0, 1 or 2 for these three cases.
    pub fn receive_output(
        &mut self,
        raw_text: String,
        typed_text: String,
        display_note: String,
        usage: Option<AgentUsage>,
        paste_status: String,
        stale: bool,
        now_ms: u64,
    ) -> (r: u8)
        requires
            usage_fits(old(self).input_tokens, old(self).output_tokens, old(self).total_tokens, usage),
        ensures
            output_received(*old(self), *final(self), raw_text, typed_text, display_note, usage, paste_status, stale, now_ms, r),
    {
        self.record_usage(usage);
        if stale {
            if usage.is_some() {
                self.request_count = self.request_count.saturating_add(1);
            }
            return 0;
        }
        if self.discard_pending_typing_output {
            self.finish_discarded_request(now_ms);
            return 1;
        }
        self.apply_output(raw_text, typed_text, display_note, paste_status, now_ms);
        2
    }
}

/// Position of a flush mode in the cycling order.
pub open spec fn flush_mode_index(m: TypingFlushMode) -> int {
    match m {
        TypingFlushMode::Clipboard => 0,
        TypingFlushMode::Type => 1,
        TypingFlushMode::Discard => 2,
    }
}

/// The flush mode at a position of the cycling order.
pub open spec fn flush_mode_at(i: int) -> TypingFlushMode {
    if i == 0 {
        TypingFlushMode::Clipboard
    } else if i == 1 {
        TypingFlushMode::Type
    } else {
        TypingFlushMode::Discard
    }
}

/// Position of a refiner model among the offered ones.
pub open spec fn refiner_index(model: Seq<char>) -> Option<int> {
    if model == "gpt-5.6-sol"@ {
        Some(0)
    } else if model == "gpt-5.6-terra"@ {
        Some(1)
    } else if model == "gpt-5.6-luna"@ {
        Some(2)
    } else {
        None
    }
}

/// The text the pane shows: the draft, else a prompt matching its state.
pub open spec fn display_text_spec(p: TypingPaneState) -> Seq<char> {
    if trim(p.last_typed_text@).len() > 0 {
        p.last_typed_text@
    } else if p.exit_confirmation_open {
        "Press Esc again to exit."@
    } else if p.request_in_flight {
        "Refining..."@
    } else if p.microphone_active {
        "Listening..."@
    } else {
        "Speak, then pause."@
    }
}

/// The text the typing pane shows; see `display_text_spec`.
pub fn typing_display_text(typing: &TypingPaneState) -> (r: String)
    ensures
        r@ == display_text_spec(*typing),
{
    if !crate::text::str_is_blank(typing.last_typed_text.as_str()) {
        return typing.last_typed_text.clone();
    }
    let s = if typing.exit_confirmation_open {
        "Press Esc again to exit."
    } else if typing.request_in_flight {
        "Refining..."
    } else if typing.microphone_active {
        "Listening..."
    } else {
        "Speak, then pause."
    };
    string_of(&chars_of(s))
}

} // verus!
