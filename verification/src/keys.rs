//! What a key press does to the panes. Where a key leads to outside work
//! (saving settings, telling a worker), the handler says which, and the
//! caller does it and hands the result back.
use vstd::prelude::*;

use crate::app_state::AppState;
use crate::delta::compact_error_spec;
use crate::errors::error_recorded;
use crate::modes::{
    cycled, refiner_model_spec, speed_preset_spec, transparency_preset_spec, SourceKind, TypingFlushMode,
    TypingSettingDirection, TypingTransparencyPreset, TYPING_SPEED_PRESET_COUNT, TYPING_TRANSPARENCY_PRESET_COUNT,
};
use crate::typing_pane::{flush_mode_at, flush_mode_index, refiner_index};
use crate::panes::AgentPaneState;
use crate::screen::{next_fade, stepped_settings, TranscriptionSettingsState, TypingKeyOutcome};
use crate::layout::string_seqs;
use crate::session::budget_reached;
use crate::settings::{restart_differs, same_settings, TranscriptionRestartSettings, TRANSCRIPTION_SETTINGS_OPTION_COUNT};
use crate::json::{JsonModel, JsonValue};
use crate::insight::{default_result_spec, insert_member};
use crate::agent_config::fields_view;
use crate::restore::pane_configs;
use crate::settings::opt_text;
use crate::stream::sat_sub;
use crate::typing_pane::TypingPaneState;

verus! {

/// A key, as the terminal reports it.
#[derive(Clone, Copy, Debug, PartialEq, Eq, Structural)]
pub enum KeyCode {
    Char(char),
    F(u8),
    Esc,
    Enter,
    Up,
    Down,
    Left,
    Right,
    PageUp,
    PageDown,
    Home,
    End,
    Other,
}

/// A key press: the key and whether Control was held.
#[derive(Clone, Copy, Debug, PartialEq, Eq, Structural)]
pub struct KeyPress {
    pub code: KeyCode,
    pub control: bool,
}

/// Rows of the typing settings screen.
pub const TYPING_SETTINGS_OPTION_COUNT: usize = 6;

/// What the typing pane made of a key.
#[derive(Clone, Copy, Debug, PartialEq, Eq, Structural)]
pub enum TypingKeyStep {
    /// Handled; nothing more to do.
    Done(TypingKeyOutcome),
    /// The selected setting is to be changed; see
    /// `TypingPaneState::change_setting`.
    ChangeSetting(TypingSettingDirection),
    /// The settings file is to be written anew; see
    /// `AppState::finish_typing_settings_repair`.
    RepairSettings,
}

/// `Changed` when a value moved, `Consumed` otherwise.
pub open spec fn moved(before: usize, after: usize) -> TypingKeyOutcome {
    if before == after { TypingKeyOutcome::Consumed } else { TypingKeyOutcome::Changed }
}

/// `min(a, b)` over the integers.
pub open spec fn min_int(a: int, b: int) -> int {
    if a <= b { a } else { b }
}

/// The typing pane after a key press with the view scrolled at most
/// `max_scroll` rows, and what is left to do.
pub open spec fn typing_key_post(t: TypingPaneState, n: TypingPaneState, key: KeyPress, max_scroll: usize, now_ms: u64, r: TypingKeyStep) -> bool {
    if key.code == KeyCode::F(9) {
        &&& r == TypingKeyStep::Done(TypingKeyOutcome::Changed)
        &&& n == (if t.settings_open {
            TypingPaneState { settings_open: false, ..t }
        } else {
            TypingPaneState { settings_open: true, microphone_active: false, settings_note: None, ..t }
        })
    } else if t.settings_open {
        match key.code {
            KeyCode::Esc => r == TypingKeyStep::Done(TypingKeyOutcome::Changed) && n == TypingPaneState { settings_open: false, ..t },
            KeyCode::Up => {
                let s = sat_sub(t.settings_selection as u64, 1) as usize;
                r == TypingKeyStep::Done(moved(t.settings_selection, s)) && n == TypingPaneState { settings_selection: s, ..t }
            },
            KeyCode::Down => {
                let s = min_int(t.settings_selection + 1, TYPING_SETTINGS_OPTION_COUNT - 1) as usize;
                r == TypingKeyStep::Done(moved(t.settings_selection, s)) && n == TypingPaneState { settings_selection: s, ..t }
            },
            KeyCode::Left => r == TypingKeyStep::ChangeSetting(TypingSettingDirection::Previous) && n == t,
            KeyCode::Right => r == TypingKeyStep::ChangeSetting(TypingSettingDirection::Next) && n == t,
            _ => {
                &&& n == t
                &&& r == (if t.settings_load_error is Some && (key.code == KeyCode::Enter || key.code == KeyCode::Char('a') || key.code == KeyCode::Char('A')) {
                    TypingKeyStep::RepairSettings
                } else {
                    TypingKeyStep::Done(TypingKeyOutcome::Consumed)
                })
            },
        }
    } else if t.exit_confirmation_open {
        if key.code == KeyCode::Esc {
            r == TypingKeyStep::Done(TypingKeyOutcome::ExitRequested) && n == t
        } else {
            &&& r == TypingKeyStep::Done(TypingKeyOutcome::Changed)
            &&& n.paste_status@ == "ready"@
            &&& n == (TypingPaneState { exit_confirmation_open: false, paste_status: n.paste_status, updated_at_ms: Some(now_ms), ..t })
        }
    } else {
        match key.code {
            KeyCode::Esc => {
                &&& r == TypingKeyStep::Done(TypingKeyOutcome::Changed)
                &&& if crate::text::trim(t.last_typed_text@).len() > 0 || t.last_error is Some || t.request_in_flight {
                    &&& n.last_raw_text@.len() == 0
                    &&& n.last_typed_text@.len() == 0
                    &&& n.display_note@.len() == 0
                    &&& n.paste_status@ == (if t.request_in_flight { "cleared; waiting for current phrase"@ } else { "cleared"@ })
                    &&& n == (TypingPaneState {
                        last_raw_text: n.last_raw_text,
                        last_typed_text: n.last_typed_text,
                        display_note: n.display_note,
                        last_error: None,
                        scroll_offset: 0,
                        exit_confirmation_open: false,
                        discard_pending_typing_output: t.discard_pending_typing_output || t.request_in_flight,
                        paste_status: n.paste_status,
                        updated_at_ms: Some(now_ms),
                        ..t
                    })
                } else {
                    &&& n.paste_status@ == "press Esc again to exit"@
                    &&& n == (TypingPaneState { exit_confirmation_open: true, paste_status: n.paste_status, updated_at_ms: Some(now_ms), ..t })
                }
            },
            KeyCode::Up => scrolled(t, n, sat_sub(t.scroll_offset as u64, 1) as usize, r),
            KeyCode::Down => scrolled(t, n, min_int(t.scroll_offset + 1, max_scroll as int) as usize, r),
            KeyCode::PageUp => scrolled(t, n, sat_sub(t.scroll_offset as u64, 5) as usize, r),
            KeyCode::PageDown => scrolled(t, n, min_int(t.scroll_offset + 5, max_scroll as int) as usize, r),
            KeyCode::Home => scrolled(t, n, 0, r),
            KeyCode::End => scrolled(t, n, max_scroll, r),
            _ => r == TypingKeyStep::Done(TypingKeyOutcome::Ignored) && n == t,
        }
    }
}

/// The view scrolled to `offset`.
pub open spec fn scrolled(t: TypingPaneState, n: TypingPaneState, offset: usize, r: TypingKeyStep) -> bool {
    r == TypingKeyStep::Done(moved(t.scroll_offset, offset)) && n == TypingPaneState { scroll_offset: offset, ..t }
}

fn scroll_to(t: &mut TypingPaneState, offset: usize) -> (r: TypingKeyStep)
    ensures
        scrolled(*old(t), *final(t), offset, r),
{
    let previous = t.scroll_offset;
    t.scroll_offset = offset;
    if offset == previous {
        TypingKeyStep::Done(TypingKeyOutcome::Consumed)
    } else {
        TypingKeyStep::Done(TypingKeyOutcome::Changed)
    }
}

fn min_usize(a: usize, b: usize) -> (r: usize)
    ensures
        r == min_int(a as int, b as int),
{
    if a <= b { a } else { b }
}

impl TypingPaneState {
    /// Takes a key press at `now_ms`, with the view scrollable by at most
    /// `max_scroll_offset` rows; see `typing_key_post`.
    pub fn handle_key(&mut self, key: KeyPress, max_scroll_offset: usize, now_ms: u64) -> (r: TypingKeyStep)
        ensures
            typing_key_post(*old(self), *final(self), key, max_scroll_offset, now_ms, r),
    {
        if key.code == KeyCode::F(9) {
            if self.settings_open {
                self.close_settings();
            } else {
                self.open_settings();
            }
            return TypingKeyStep::Done(TypingKeyOutcome::Changed);
        }
        if self.settings_open {
            return match key.code {
                KeyCode::Esc => {
                    self.close_settings();
                    TypingKeyStep::Done(TypingKeyOutcome::Changed)
                },
                KeyCode::Up => {
                    let previous = self.settings_selection;
                    self.settings_selection = previous.saturating_sub(1);
                    if self.settings_selection == previous {
                        TypingKeyStep::Done(TypingKeyOutcome::Consumed)
                    } else {
                        TypingKeyStep::Done(TypingKeyOutcome::Changed)
                    }
                },
                KeyCode::Down => {
                    let previous = self.settings_selection;
                    self.settings_selection = min_usize(previous.saturating_add(1), TYPING_SETTINGS_OPTION_COUNT - 1);
                    if self.settings_selection == previous {
                        TypingKeyStep::Done(TypingKeyOutcome::Consumed)
                    } else {
                        TypingKeyStep::Done(TypingKeyOutcome::Changed)
                    }
                },
                KeyCode::Left => TypingKeyStep::ChangeSetting(TypingSettingDirection::Previous),
                KeyCode::Right => TypingKeyStep::ChangeSetting(TypingSettingDirection::Next),
                _ => {
                    if self.settings_load_error.is_some() && (key.code == KeyCode::Enter || key.code == KeyCode::Char('a')
                        || key.code == KeyCode::Char('A')) {
                        TypingKeyStep::RepairSettings
                    } else {
                        TypingKeyStep::Done(TypingKeyOutcome::Consumed)
                    }
                },
            };
        }
        if self.exit_confirmation_open {
            if key.code == KeyCode::Esc {
                return TypingKeyStep::Done(TypingKeyOutcome::ExitRequested);
            }
            self.cancel_exit_confirmation(now_ms);
            return TypingKeyStep::Done(TypingKeyOutcome::Changed);
        }
        match key.code {
            KeyCode::Esc => {
                if self.has_clearable_content() {
                    self.clear_content(now_ms);
                } else {
                    self.request_exit_confirmation(now_ms);
                }
                TypingKeyStep::Done(TypingKeyOutcome::Changed)
            },
            KeyCode::Up => {
                let next = self.scroll_offset.saturating_sub(1);
                scroll_to(self, next)
            },
            KeyCode::Down => {
                let next = min_usize(self.scroll_offset.saturating_add(1), max_scroll_offset);
                scroll_to(self, next)
            },
            KeyCode::PageUp => {
                let next = self.scroll_offset.saturating_sub(5);
                scroll_to(self, next)
            },
            KeyCode::PageDown => {
                let next = min_usize(self.scroll_offset.saturating_add(5), max_scroll_offset);
                scroll_to(self, next)
            },
            KeyCode::Home => scroll_to(self, 0),
            KeyCode::End => scroll_to(self, max_scroll_offset),
            _ => TypingKeyStep::Done(TypingKeyOutcome::Ignored),
        }
    }
}

/// Takes a key press of the typing product; see `typing_key_post`. Only the
/// typing pane changes.
pub fn handle_typing_key(state: &mut AppState, key: KeyPress, max_scroll_offset: usize, now_ms: u64) -> (r: TypingKeyStep)
    ensures
        typing_key_post(old(state).typing, final(state).typing, key, max_scroll_offset, now_ms, r),
        *final(state) == (AppState { typing: final(state).typing, ..*old(state) }),
{
    state.typing.handle_key(key, max_scroll_offset, now_ms)
}

/// Whether typing waits: while its settings are open or the terminal is not
/// in front.
pub fn typing_paused_for(state: &AppState) -> (r: bool)
    ensures
        r == (state.typing.settings_open || !state.typing.terminal_focused),
{
    state.typing.settings_open || !state.typing.terminal_focused
}

/// The saved typing settings and the settings note before a change.
pub struct TypingSettingValues {
    pub intelligence_enabled: bool,
    pub flush_mode: TypingFlushMode,
    pub input_source: SourceKind,
    pub typing_speed_index: usize,
    pub transparency_index: usize,
    pub refiner_model: String,
    pub settings_note: Option<String>,
}

/// The saved typing settings as plain values.
pub open spec fn values_of(t: TypingPaneState) -> (bool, TypingFlushMode, SourceKind, usize, usize, Seq<char>) {
    (t.intelligence_enabled, t.flush_mode, t.input_source, t.typing_speed_index, t.transparency_index, t.refiner_model@)
}

/// The saved values kept before a change.
pub open spec fn kept_values(v: TypingSettingValues) -> (bool, TypingFlushMode, SourceKind, usize, usize, Seq<char>) {
    (v.intelligence_enabled, v.flush_mode, v.input_source, v.typing_speed_index, v.transparency_index, v.refiner_model@)
}

/// What a workers needs to hear after a typing setting changed.
pub enum TypingSettingEffect {
    Nothing,
    /// The refiner is switched on or off.
    Intelligence(bool),
    /// Capture moves to another source.
    InputSource(SourceKind),
    /// The terminal takes another transparency preset.
    Transparency { generation: u64, preset: TypingTransparencyPreset },
    /// The refiner uses another model.
    RefinerModel(String),
}

/// The refiner model after a step in `direction`.
pub open spec fn next_refiner(model: Seq<char>, direction: TypingSettingDirection) -> Seq<char> {
    refiner_model_spec(cycled(
        match refiner_index(model) {
            Some(i) => i,
            None => match direction {
                TypingSettingDirection::Previous => 0,
                TypingSettingDirection::Next => 2,
            },
        },
        3,
        direction,
    ))
}

/// The typing pane after changing the selected setting in `direction`, and
/// what a worker needs to hear of it.
pub open spec fn setting_changed(t: TypingPaneState, n: TypingPaneState, direction: TypingSettingDirection, effect: TypingSettingEffect) -> bool {
    &&& n.wf()
    &&& if t.settings_selection == 0 {
        let requested = !t.intelligence_enabled;
        let enabled = t.intelligence_available && requested;
        &&& effect == TypingSettingEffect::Intelligence(enabled)
        &&& opt_text(n.settings_note) == (if requested && !enabled { Some("Intelligence unavailable"@) } else { None })
        &&& n == (TypingPaneState { intelligence_enabled: enabled, settings_note: n.settings_note, ..t })
    } else if t.settings_selection == 1 {
        &&& effect == TypingSettingEffect::Nothing
        &&& n == (TypingPaneState { flush_mode: flush_mode_at(cycled(flush_mode_index(t.flush_mode), 3, direction)), settings_note: None, ..t })
    } else if t.settings_selection == 2 {
        &&& effect == TypingSettingEffect::Nothing
        &&& n == (TypingPaneState {
            typing_speed_index: cycled(t.typing_speed_index as int, TYPING_SPEED_PRESET_COUNT as int, direction) as usize,
            settings_note: None,
            ..t
        })
    } else if t.settings_selection == 3 {
        let source = match t.input_source {
            SourceKind::Microphone => SourceKind::SystemOutput,
            SourceKind::SystemOutput => SourceKind::Microphone,
        };
        &&& effect == TypingSettingEffect::InputSource(source)
        &&& n == (TypingPaneState { input_source: source, microphone_active: false, settings_note: None, ..t })
    } else if t.settings_selection == 4 {
        let index = cycled(t.transparency_index as int, TYPING_TRANSPARENCY_PRESET_COUNT as int, direction) as usize;
        let generation = if t.transparency_generation == u64::MAX { 0 } else { (t.transparency_generation + 1) as u64 };
        &&& (match effect {
            TypingSettingEffect::Transparency { generation: g, preset } => g == generation && (preset.label@, preset.opacity, preset.background)
                == transparency_preset_spec(index as int),
            _ => false,
        })
        &&& n == (TypingPaneState { transparency_index: index, transparency_generation: generation, settings_note: None, ..t })
    } else if t.settings_selection == 5 {
        &&& n.refiner_model@ == next_refiner(t.refiner_model@, direction)
        &&& (match effect {
            TypingSettingEffect::RefinerModel(m) => m@ == n.refiner_model@,
            _ => false,
        })
        &&& n == (TypingPaneState { refiner_model: n.refiner_model, settings_note: None, ..t })
    } else {
        effect == TypingSettingEffect::Nothing && n == TypingPaneState { settings_note: None, ..t }
    }
}

impl TypingPaneState {
    /// The saved settings and the note as they are now.
    pub fn setting_values(&self) -> (r: TypingSettingValues)
        ensures
            kept_values(r) == values_of(*self),
            opt_text(r.settings_note) == opt_text(self.settings_note),
    {
        TypingSettingValues {
            intelligence_enabled: self.intelligence_enabled,
            flush_mode: self.flush_mode,
            input_source: self.input_source,
            typing_speed_index: self.typing_speed_index,
            transparency_index: self.transparency_index,
            refiner_model: self.refiner_model.clone(),
            settings_note: crate::settings::opt_string_clone(&self.settings_note),
        }
    }

    /// Changes the selected setting in `direction`; returns the values
    /// before and what a worker needs to hear (see `setting_changed`).
    #[verifier::spinoff_prover]
    #[verifier::rlimit(100)]
    pub fn change_setting(&mut self, direction: TypingSettingDirection) -> (r: (TypingSettingValues, TypingSettingEffect))
        requires
            old(self).wf(),
        ensures
            kept_values(r.0) == values_of(*old(self)),
            opt_text(r.0.settings_note) == opt_text(old(self).settings_note),
            setting_changed(*old(self), *final(self), direction, r.1),
    {
        let before = self.setting_values();
        self.settings_note = None;
        let effect = if self.settings_selection == 0 {
            let requested = !self.intelligence_enabled;
            let enabled = self.set_intelligence(requested);
            if requested && !enabled {
                self.settings_note = Some(crate::text::string_of(&crate::text::chars_of("Intelligence unavailable")));
            }
            TypingSettingEffect::Intelligence(enabled)
        } else if self.settings_selection == 1 {
            self.cycle_flush_mode(direction);
            TypingSettingEffect::Nothing
        } else if self.settings_selection == 2 {
            self.cycle_typing_speed(direction);
            TypingSettingEffect::Nothing
        } else if self.settings_selection == 3 {
            let source = self.cycle_input_source(direction);
            TypingSettingEffect::InputSource(source)
        } else if self.settings_selection == 4 {
            let preset = self.cycle_transparency(direction);
            self.transparency_generation = self.transparency_generation.wrapping_add(1);
            TypingSettingEffect::Transparency { generation: self.transparency_generation, preset }
        } else if self.settings_selection == 5 {
            let model = self.cycle_refiner_model(direction);
            TypingSettingEffect::RefinerModel(model)
        } else {
            TypingSettingEffect::Nothing
        };
        (before, effect)
    }

    /// Whether a saved setting differs from `before`, so that the settings
    /// are to be written.
    pub fn settings_differ(&self, before: &TypingSettingValues) -> (r: bool)
        ensures
            r == (values_of(*self) != kept_values(*before)),
    {
        !(self.intelligence_enabled == before.intelligence_enabled && self.flush_mode == before.flush_mode
            && self.input_source == before.input_source && self.typing_speed_index == before.typing_speed_index
            && self.transparency_index == before.transparency_index && crate::settings::text_equal(
            &self.refiner_model,
            &before.refiner_model,
        ))
    }

    /// What a setting change did: `Consumed` when neither a saved setting
    /// nor the note moved, `Changed` otherwise.
    pub fn setting_outcome(&self, before: &TypingSettingValues) -> (r: TypingKeyOutcome)
        ensures
            r == (if values_of(*self) == kept_values(*before) && opt_text(self.settings_note) == opt_text(before.settings_note) {
                TypingKeyOutcome::Consumed
            } else {
                TypingKeyOutcome::Changed
            }),
    {
        if !self.settings_differ(before) && crate::settings::opt_string_equal(&self.settings_note, &before.settings_note) {
            TypingKeyOutcome::Consumed
        } else {
            TypingKeyOutcome::Changed
        }
    }
}

/// The note of a failed save of the typing settings.
pub open spec fn save_failed_note(error: Seq<char>) -> Seq<char> {
    "Settings save failed: "@ + compact_error_spec(error, 56)
}

/// The session after writing the typing settings gave `saved`: a success
/// clears the load error; a failure is noted and recorded.
pub open spec fn typing_save_noted(s: AppState, n: AppState, saved: Result<(), Seq<char>>, now_ms: u64) -> bool {
    &&& n.wf()
    &&& match saved {
        Ok(()) => n == (AppState { typing: TypingPaneState { settings_load_error: None, ..s.typing }, ..s }),
        Err(e) => {
            &&& opt_text(n.typing.settings_note) == Some(save_failed_note(e))
            &&& error_recorded(s.errors, n.errors, "Enhanced typing "@ + save_failed_note(e), sat_sub(now_ms, s.started_at_ms))
            &&& n == (AppState { typing: TypingPaneState { settings_note: n.typing.settings_note, ..s.typing }, errors: n.errors, ..s })
        },
    }
}

/// The view of a save result.
pub open spec fn save_view(r: Result<(), String>) -> Result<(), Seq<char>> {
    match r {
        Ok(()) => Ok(()),
        Err(e) => Err(e@),
    }
}

impl AppState {
    /// Takes the result of writing the typing settings; see
    /// `typing_save_noted`.
    pub fn finish_typing_settings_save(&mut self, saved: Result<(), String>, now_ms: u64)
        requires
            old(self).wf(),
        ensures
            typing_save_noted(*old(self), *final(self), save_view(saved), now_ms),
    {
        match saved {
            Ok(()) => {
                self.typing.settings_load_error = None;
            },
            Err(e) => {
                let mut note = crate::text::chars_of("Settings save failed: ");
                let compact = crate::delta::compact_error(e.as_str(), 56);
                crate::text::append_chars(&mut note, &crate::text::chars_of(compact.as_str()));
                let mut full = crate::text::chars_of("Enhanced typing ");
                crate::text::append_chars(&mut full, &note);
                let message = crate::text::string_of(&full);
                self.typing.settings_note = Some(crate::text::string_of(&note));
                self.record_error(message.as_str(), now_ms);
                proof {
                    assert(full@ =~= "Enhanced typing "@ + save_failed_note(e@));
                }
            },
        }
    }

    /// Takes the result of writing the typing settings anew after a load
    /// error: a success says so in the note.
    pub fn finish_typing_settings_repair(&mut self, saved: Result<(), String>, now_ms: u64) -> (r: TypingKeyOutcome)
        requires
            old(self).wf(),
        ensures
            r == TypingKeyOutcome::Changed,
            final(self).wf(),
            match saved {
                Ok(()) => {
                    &&& opt_text(final(self).typing.settings_note) == Some("Settings repaired"@)
                    &&& *final(self) == (AppState {
                        typing: TypingPaneState { settings_load_error: None, settings_note: final(self).typing.settings_note, ..old(self).typing },
                        ..*old(self)
                    })
                },
                Err(e) => typing_save_noted(*old(self), *final(self), Err(e@), now_ms),
            },
    {
        let ok = saved.is_ok();
        self.finish_typing_settings_save(saved, now_ms);
        if ok {
            self.typing.settings_note = Some(crate::text::string_of(&crate::text::chars_of("Settings repaired")));
        }
        TypingKeyOutcome::Changed
    }
}

/// What the transcription screen made of a key.
#[derive(Clone, Copy, Debug, PartialEq, Eq, Structural)]
pub enum TranscriptionKeyStep {
    /// Handled; nothing more to do.
    Done(TypingKeyOutcome),
    /// The settings screen is to be opened with fresh listings of the model
    /// and context folders, and the selection shown.
    OpenSettings,
    /// The selection moved and is to be shown.
    RevealSelection,
    /// The screen is to be scrolled by this key.
    Scroll(KeyCode),
    /// The pending settings are to be saved and applied; see
    /// `AppState::plan_transcription_settings_apply`.
    ApplySettings,
}

/// The session after granting another token block from the prompt.
pub open spec fn budget_continued(s: AppState, n: AppState) -> bool {
    &&& n.agent_token_limit == (if s.transcription_settings.active.agent_token_budget == 0 {
        None::<u64>
    } else {
        let start = match s.agent_token_limit {
            Some(l) => if l > s.agent.total_tokens { l } else { s.agent.total_tokens },
            None => s.agent.total_tokens,
        };
        Some(crate::errors::sat_add(start, s.transcription_settings.active.agent_token_budget))
    })
    &&& n.agent.status@ == "token budget extended; resuming with latest context"@
    &&& n == (AppState {
        agent_token_limit: n.agent_token_limit,
        token_budget_prompt_open: false,
        token_budget_prompt_dismissed: false,
        agent: AgentPaneState { status: n.agent.status, ..s.agent },
        ..s
    })
}

/// The session after declining another token block.
pub open spec fn budget_kept(s: AppState, n: AppState) -> bool {
    &&& n.agent.status@ == "paused; token budget reached (F1 to review)"@
    &&& n == (AppState {
        token_budget_prompt_open: false,
        token_budget_prompt_dismissed: true,
        agent: AgentPaneState { status: n.agent.status, ..s.agent },
        ..s
    })
}

/// The settings screen after asking to close it.
pub open spec fn close_requested(t: TranscriptionSettingsState, n: TranscriptionSettingsState, fade_secs: u64) -> bool {
    if t.load_error is Some || !same_settings(t.pending, t.snapshot) || fade_secs != t.fade_snapshot_secs {
        n == TranscriptionSettingsState { confirm_close: true, note: None, ..t }
    } else {
        n == TranscriptionSettingsState { open: false, scroll_offset: 0, note: None, confirm_close: false, ..t }
    }
}

/// Whether a key is Control-C.
pub open spec fn is_interrupt(key: KeyPress) -> bool {
    key.code == KeyCode::Char('c') && key.control
}

/// The screen with the selection moved to `selection`.
pub open spec fn selection_moved(s: AppState, n: AppState, selection: usize) -> bool {
    n == AppState {
        transcription_settings: TranscriptionSettingsState { selection, note: None, ..s.transcription_settings },
        ..s
    }
}

/// The session after a key press of the transcription product, and what
/// is left to do.
pub open spec fn transcription_key_post(s: AppState, n: AppState, key: KeyPress, r: TranscriptionKeyStep) -> bool {
    let ts = s.transcription_settings;
    if s.token_budget_prompt_open {
        if is_interrupt(key) {
            r == TranscriptionKeyStep::Done(TypingKeyOutcome::Ignored) && n == s
        } else if key.code == KeyCode::Enter || key.code == KeyCode::Char('y') || key.code == KeyCode::Char('Y')
            || key.code == KeyCode::Char('c') || key.code == KeyCode::Char('C') {
            r == TranscriptionKeyStep::Done(TypingKeyOutcome::Changed) && budget_continued(s, n)
        } else if key.code == KeyCode::Esc || key.code == KeyCode::Char('n') || key.code == KeyCode::Char('N') {
            r == TranscriptionKeyStep::Done(TypingKeyOutcome::Changed) && budget_kept(s, n)
        } else {
            r == TranscriptionKeyStep::Done(TypingKeyOutcome::Consumed) && n == s
        }
    } else if key.code == KeyCode::F(1) && s.token_budget_prompt_dismissed && budget_reached(s) {
        &&& r == TranscriptionKeyStep::Done(TypingKeyOutcome::Changed)
        &&& n == (AppState { token_budget_prompt_open: true, token_budget_prompt_dismissed: false, ..s })
    } else if key.code == KeyCode::F(9) {
        if ts.open {
            &&& r == TranscriptionKeyStep::Done(TypingKeyOutcome::Changed)
            &&& close_requested(ts, n.transcription_settings, s.fade_secs)
            &&& n == (AppState { transcription_settings: n.transcription_settings, ..s })
        } else {
            r == TranscriptionKeyStep::OpenSettings && n == s
        }
    } else if !ts.open || is_interrupt(key) {
        r == TranscriptionKeyStep::Done(TypingKeyOutcome::Ignored) && n == s
    } else if key.code == KeyCode::PageUp || key.code == KeyCode::PageDown || key.code == KeyCode::Home || key.code == KeyCode::End {
        r == TranscriptionKeyStep::Scroll(key.code) && n == s
    } else if ts.confirm_close {
        if key.code == KeyCode::Enter || key.code == KeyCode::Char('a') || key.code == KeyCode::Char('A') {
            r == TranscriptionKeyStep::ApplySettings && n == s
        } else if key.code == KeyCode::Char('d') || key.code == KeyCode::Char('D') {
            &&& r == TranscriptionKeyStep::Done(TypingKeyOutcome::Changed)
            &&& same_settings(n.transcription_settings.pending, ts.snapshot)
            &&& n.fade_secs == ts.fade_snapshot_secs
            &&& !n.transcription_settings.open
            &&& n.transcription_settings.scroll_offset == 0
            &&& n.transcription_settings.note is None
            &&& !n.transcription_settings.confirm_close
            &&& n.transcription_settings.snapshot == ts.snapshot
            &&& n.transcription_settings.active == ts.active
            &&& n.transcription_settings.selection == ts.selection
            &&& n == (AppState { transcription_settings: n.transcription_settings, fade_secs: n.fade_secs, ..s })
        } else if key.code == KeyCode::Esc {
            &&& r == TranscriptionKeyStep::Done(TypingKeyOutcome::Changed)
            &&& n == (AppState { transcription_settings: TranscriptionSettingsState { confirm_close: false, ..ts }, ..s })
        } else {
            r == TranscriptionKeyStep::Done(TypingKeyOutcome::Consumed) && n == s
        }
    } else {
        match key.code {
            KeyCode::Esc => {
                &&& r == TranscriptionKeyStep::Done(TypingKeyOutcome::Changed)
                &&& close_requested(ts, n.transcription_settings, s.fade_secs)
                &&& n == (AppState { transcription_settings: n.transcription_settings, ..s })
            },
            KeyCode::Up => r == TranscriptionKeyStep::RevealSelection && selection_moved(
                s,
                n,
                ((ts.selection + TRANSCRIPTION_SETTINGS_OPTION_COUNT - 1) % (TRANSCRIPTION_SETTINGS_OPTION_COUNT as int)) as usize,
            ),
            KeyCode::Down => r == TranscriptionKeyStep::RevealSelection && selection_moved(
                s,
                n,
                ((ts.selection + 1) % (TRANSCRIPTION_SETTINGS_OPTION_COUNT as int)) as usize,
            ),
            KeyCode::Left | KeyCode::Right => {
                let direction = if key.code == KeyCode::Left { TypingSettingDirection::Previous } else { TypingSettingDirection::Next };
                let nts = n.transcription_settings;
                &&& r == TranscriptionKeyStep::Done(if ts.selection <= 16 && (n.fade_secs != s.fade_secs || !same_settings(nts.pending, ts.pending)) {
                    TypingKeyOutcome::Changed
                } else {
                    TypingKeyOutcome::Consumed
                })
                &&& nts == (TranscriptionSettingsState { pending: nts.pending, note: nts.note, ..ts })
                &&& (ts.selection > 16 ==> nts.pending == ts.pending && nts.note == ts.note)
                &&& (ts.selection == 0 ==> opt_text(nts.note) == Some("Fade applies immediately"@))
                &&& (1 <= ts.selection <= 16 ==> nts.note is None)
                &&& n.fade_secs == (if ts.selection == 0 { next_fade(s.fade_secs, direction) } else { s.fade_secs })
                &&& ts.selection <= 16 ==> stepped_settings(
                    ts.selection,
                    ts.pending,
                    n.transcription_settings.pending,
                    string_seqs(ts.available_models@),
                    string_seqs(ts.available_context_files@),
                    direction,
                )
                &&& n == (AppState { transcription_settings: n.transcription_settings, fade_secs: n.fade_secs, ..s })
            },
            _ => r == TranscriptionKeyStep::Done(TypingKeyOutcome::Consumed) && n == s,
        }
    }
}

/// Takes a key press of the transcription product; see
/// `transcription_key_post`.
pub fn handle_transcription_key(state: &mut AppState, key: KeyPress) -> (r: TranscriptionKeyStep)
    ensures
        transcription_key_post(*old(state), *final(state), key, r),
{
    let interrupt = key.code == KeyCode::Char('c') && key.control;
    if state.token_budget_prompt_open {
        if interrupt {
            return TranscriptionKeyStep::Done(TypingKeyOutcome::Ignored);
        }
        return match key.code {
            KeyCode::Enter | KeyCode::Char('y') | KeyCode::Char('Y') | KeyCode::Char('c') | KeyCode::Char('C') => {
                state.continue_after_token_budget();
                TranscriptionKeyStep::Done(TypingKeyOutcome::Changed)
            },
            KeyCode::Esc | KeyCode::Char('n') | KeyCode::Char('N') => {
                state.keep_token_budget_paused();
                TranscriptionKeyStep::Done(TypingKeyOutcome::Changed)
            },
            _ => TranscriptionKeyStep::Done(TypingKeyOutcome::Consumed),
        };
    }
    if key.code == KeyCode::F(1) && state.token_budget_prompt_dismissed && state.agent_token_budget_reached() {
        state.token_budget_prompt_open = true;
        state.token_budget_prompt_dismissed = false;
        return TranscriptionKeyStep::Done(TypingKeyOutcome::Changed);
    }
    if key.code == KeyCode::F(9) {
        if state.transcription_settings.open {
            let fade = state.fade_secs;
            state.transcription_settings.request_close(fade);
            return TranscriptionKeyStep::Done(TypingKeyOutcome::Changed);
        }
        return TranscriptionKeyStep::OpenSettings;
    }
    if !state.transcription_settings.open || interrupt {
        return TranscriptionKeyStep::Done(TypingKeyOutcome::Ignored);
    }
    if key.code == KeyCode::PageUp || key.code == KeyCode::PageDown || key.code == KeyCode::Home || key.code == KeyCode::End {
        return TranscriptionKeyStep::Scroll(key.code);
    }
    if state.transcription_settings.confirm_close {
        return match key.code {
            KeyCode::Enter | KeyCode::Char('a') | KeyCode::Char('A') => TranscriptionKeyStep::ApplySettings,
            KeyCode::Char('d') | KeyCode::Char('D') => {
                state.transcription_settings.discard_close(&mut state.fade_secs);
                TranscriptionKeyStep::Done(TypingKeyOutcome::Changed)
            },
            KeyCode::Esc => {
                state.transcription_settings.confirm_close = false;
                TranscriptionKeyStep::Done(TypingKeyOutcome::Changed)
            },
            _ => TranscriptionKeyStep::Done(TypingKeyOutcome::Consumed),
        };
    }
    match key.code {
        KeyCode::Esc => {
            let fade = state.fade_secs;
            state.transcription_settings.request_close(fade);
            TranscriptionKeyStep::Done(TypingKeyOutcome::Changed)
        },
        KeyCode::Up => {
            let count = TRANSCRIPTION_SETTINGS_OPTION_COUNT;
            let sel = state.transcription_settings.selection;
            assert(((sel % 17) + 16) % 17 == (sel + 16) % 17) by (nonlinear_arith);
            state.transcription_settings.selection = (sel % count + count - 1) % count;
            state.transcription_settings.note = None;
            TranscriptionKeyStep::RevealSelection
        },
        KeyCode::Down => {
            let count = TRANSCRIPTION_SETTINGS_OPTION_COUNT;
            let sel = state.transcription_settings.selection;
            assert(((sel % 17) + 1) % 17 == (sel + 1) % 17) by (nonlinear_arith);
            state.transcription_settings.selection = (sel % count + 1) % count;
            state.transcription_settings.note = None;
            TranscriptionKeyStep::RevealSelection
        },
        KeyCode::Left => {
            let o = state.transcription_settings.change_setting(&mut state.fade_secs, TypingSettingDirection::Previous);
            TranscriptionKeyStep::Done(o)
        },
        KeyCode::Right => {
            let o = state.transcription_settings.change_setting(&mut state.fade_secs, TypingSettingDirection::Next);
            TranscriptionKeyStep::Done(o)
        },
        _ => TranscriptionKeyStep::Done(TypingKeyOutcome::Consumed),
    }
}

/// Where the settings screen scrolls to on a key, with `viewport_height`
/// rows shown and at most `max_scroll` rows scrolled; `usize::MAX` stands
/// for the end.
pub open spec fn scroll_target(offset: usize, code: KeyCode, viewport_height: usize, max_scroll: usize) -> Option<usize> {
    let current = if offset <= max_scroll { offset } else { max_scroll };
    let page = if viewport_height <= 1 { 1 } else { (viewport_height - 1) as usize };
    match code {
        KeyCode::Home => Some(0),
        KeyCode::End => Some(usize::MAX),
        KeyCode::PageUp => Some(sat_sub(current as u64, page as u64) as usize),
        KeyCode::PageDown => {
            let next = if current + page > usize::MAX { usize::MAX } else { (current + page) as usize };
            Some(if next >= max_scroll { usize::MAX } else { next })
        },
        _ => None,
    }
}

/// Where the settings screen scrolls to show the selection.
pub open spec fn reveal_target(offset: usize, selection: usize, viewport_height: usize, max_scroll: usize) -> usize {
    let current = if offset <= max_scroll { offset } else { max_scroll };
    let reach = if current + viewport_height > usize::MAX { usize::MAX as int } else { current + viewport_height };
    let below = if selection + 1 > usize::MAX { usize::MAX as int } else { selection + 1 };
    if selection < current {
        selection
    } else if selection >= reach {
        if below >= viewport_height { (below - viewport_height) as usize } else { 0 }
    } else {
        current
    }
}

impl AppState {
    /// Scrolls the settings screen by a key; see `scroll_target`.
    pub fn scroll_transcription_settings(&mut self, code: KeyCode, viewport_height: usize, max_scroll: usize) -> (r: TypingKeyOutcome)
        ensures
            match scroll_target(old(self).transcription_settings.scroll_offset, code, viewport_height, max_scroll) {
                None => r == TypingKeyOutcome::Consumed && *final(self) == *old(self),
                Some(next) => {
                    &&& r == moved(old(self).transcription_settings.scroll_offset, next)
                    &&& *final(self) == (AppState {
                        transcription_settings: TranscriptionSettingsState { scroll_offset: next, ..old(self).transcription_settings },
                        ..*old(self)
                    })
                },
            },
    {
        let offset = self.transcription_settings.scroll_offset;
        let current = if offset <= max_scroll { offset } else { max_scroll };
        let page = if viewport_height <= 1 { 1 } else { viewport_height - 1 };
        let next = match code {
            KeyCode::Home => 0,
            KeyCode::End => usize::MAX,
            KeyCode::PageUp => current.saturating_sub(page),
            KeyCode::PageDown => {
                let next = current.saturating_add(page);
                if next >= max_scroll { usize::MAX } else { next }
            },
            _ => return TypingKeyOutcome::Consumed,
        };
        if offset == next {
            TypingKeyOutcome::Consumed
        } else {
            self.transcription_settings.scroll_offset = next;
            TypingKeyOutcome::Changed
        }
    }

    /// Scrolls the settings screen so that the selection shows; see
    /// `reveal_target`. Nothing happens without a viewport.
    pub fn reveal_transcription_setting_selection(&mut self, viewport_height: usize, max_scroll: usize)
        ensures
            viewport_height == 0 ==> *final(self) == *old(self),
            viewport_height > 0 ==> *final(self) == (AppState {
                transcription_settings: TranscriptionSettingsState {
                    scroll_offset: reveal_target(
                        old(self).transcription_settings.scroll_offset,
                        old(self).transcription_settings.selection,
                        viewport_height,
                        max_scroll,
                    ),
                    ..old(self).transcription_settings
                },
                ..*old(self)
            }),
    {
        if viewport_height == 0 {
            return;
        }
        let selection = self.transcription_settings.selection;
        let offset = self.transcription_settings.scroll_offset;
        let current = if offset <= max_scroll { offset } else { max_scroll };
        self.transcription_settings.scroll_offset = if selection < current {
            selection
        } else if selection >= current.saturating_add(viewport_height) {
            selection.saturating_add(1).saturating_sub(viewport_height)
        } else {
            current
        };
    }
}

/// What applying the pending transcription settings involves, decided
/// before they are saved.
#[derive(Clone, Copy, Debug, PartialEq, Eq, Structural)]
pub struct SettingsApplyPlan {
    pub restart_needed: bool,
    pub answer_mode_changed: bool,
    pub reference_context_changed: bool,
    pub microphone_sharing_disabled: bool,
    pub transparency_changed: bool,
    pub refresh_agent_after_restart: bool,
    pub previous_token_budget: u64,
}

/// Whether settings send the microphone transcript to the agent.
pub open spec fn shares_microphone(t: TranscriptionRestartSettings) -> bool {
    t.include_microphone && t.sources@.contains(SourceKind::Microphone)
}

/// The plan for applying the pending settings of a screen.
pub open spec fn apply_plan_spec(ts: TranscriptionSettingsState) -> SettingsApplyPlan {
    let a = ts.active;
    let p = ts.pending;
    let answer = p.answer_mode != a.answer_mode;
    let reference = opt_text(p.context_file) != opt_text(a.context_file) || p.context_strictness != a.context_strictness;
    SettingsApplyPlan {
        restart_needed: restart_differs(p, a),
        answer_mode_changed: answer,
        reference_context_changed: reference,
        microphone_sharing_disabled: shares_microphone(a) && !shares_microphone(p),
        transparency_changed: p.transparency_label@ != a.transparency_label@,
        refresh_agent_after_restart: answer || reference || shares_microphone(a) != shares_microphone(p)
            || p.agent_enabled != a.agent_enabled || p.agent_model@ != a.agent_model@
            || p.sources@.contains(SourceKind::SystemOutput) != a.sources@.contains(SourceKind::SystemOutput),
        previous_token_budget: a.agent_token_budget,
    }
}

/// The message of a failed save of the transcription settings.
pub open spec fn apply_failed_message(error: Seq<char>) -> Seq<char> {
    "Failed to save transcription settings: "@ + error
}

/// The canonical result with an empty answer guidance.
pub open spec fn without_guidance(v: JsonModel) -> JsonModel {
    match v {
        JsonModel::Object(pairs) => JsonModel::Object(insert_member(pairs, "answer_guidance"@, JsonModel::Str(Seq::empty()))),
        _ => v,
    }
}

/// The insight pane of a restart after the settings were saved: a result
/// made under another reference context or with the microphone is reset,
/// and a changed answer mode drops the answer guidance and the last input.
pub open spec fn agent_for_restart(a: AgentPaneState, n: AgentPaneState, plan: SettingsApplyPlan) -> bool {
    let reset = plan.microphone_sharing_disabled || plan.reference_context_changed;
    let base = if reset { default_result_spec(pane_configs(a)) } else { a.canonical_result@ };
    let input = if plan.microphone_sharing_disabled {
        match a.last_successful_input {
            Some(i) => Some(crate::agent::AgentInput { microphone_transcript: None, ..i }),
            None => None,
        }
    } else {
        a.last_successful_input
    };
    &&& n.canonical_result@ == (if plan.answer_mode_changed { without_guidance(base) } else { base })
    &&& n.last_successful_input == (if plan.answer_mode_changed { None } else { input })
    &&& n == (AgentPaneState { canonical_result: n.canonical_result, last_successful_input: n.last_successful_input, ..a })
}

fn without_guidance_value(v: JsonValue) -> (r: JsonValue)
    ensures
        r@ == without_guidance(v@),
{
    match v {
        JsonValue::Object(pairs) => {
            let mut pairs = pairs;
            let key = crate::text::chars_of("answer_guidance");
            let value = JsonValue::Str(String::new());
            proof {
                assert(value@ == JsonModel::Str(Seq::empty()));
            }
            crate::insight::insert_member_value(&mut pairs, &key, value);
            JsonValue::Object(pairs)
        },
        other => other,
    }
}

/// Resets the insight pane for a restart; see `agent_for_restart`.
fn reset_agent_for_restart(agent: &mut AgentPaneState, plan: SettingsApplyPlan)
    ensures
        agent_for_restart(*old(agent), *final(agent), plan),
{
    let ghost a0 = *agent;
    if plan.microphone_sharing_disabled || plan.reference_context_changed {
        let configs = agent.field_configs();
        proof {
            assert(fields_view(configs@) =~= pane_configs(*agent));
        }
        agent.canonical_result = crate::insight::default_agent_result(&configs);
        if plan.microphone_sharing_disabled {
            let taken = agent.last_successful_input.take();
            agent.last_successful_input = match taken {
                Some(input) => Some(crate::agent::AgentInput { microphone_transcript: None, ..input }),
                None => None,
            };
        }
    }
    if plan.answer_mode_changed {
        let mut current = JsonValue::Null;
        core::mem::swap(&mut current, &mut agent.canonical_result);
        agent.canonical_result = without_guidance_value(current);
        agent.last_successful_input = None;
    }
}

impl AppState {
    /// Decides what applying the pending settings involves; the caller then
    /// saves `transcription_settings.persisted_settings(fade_secs)` and hands
    /// the result to `finish_transcription_settings_apply`.
    pub fn plan_transcription_settings_apply(&self) -> (r: SettingsApplyPlan)
        ensures
            r == apply_plan_spec(self.transcription_settings),
    {
        let ts = &self.transcription_settings;
        let a = &ts.active;
        let p = &ts.pending;
        let answer = p.answer_mode != a.answer_mode;
        let reference = !crate::settings::opt_string_equal(&p.context_file, &a.context_file) || p.context_strictness != a.context_strictness;
        let was_sharing = a.include_microphone && crate::normalize::contains_source(&a.sources, SourceKind::Microphone);
        let will_share = p.include_microphone && crate::normalize::contains_source(&p.sources, SourceKind::Microphone);
        SettingsApplyPlan {
            restart_needed: ts.has_restart_changes(),
            answer_mode_changed: answer,
            reference_context_changed: reference,
            microphone_sharing_disabled: was_sharing && !will_share,
            transparency_changed: !crate::settings::text_equal(&p.transparency_label, &a.transparency_label),
            refresh_agent_after_restart: answer || reference || was_sharing != will_share || p.agent_enabled != a.agent_enabled
                || !crate::settings::text_equal(&p.agent_model, &a.agent_model) || crate::normalize::contains_source(
                &p.sources,
                SourceKind::SystemOutput,
            ) != crate::normalize::contains_source(&a.sources, SourceKind::SystemOutput),
            previous_token_budget: a.agent_token_budget,
        }
    }

    /// Takes the result of saving the pending settings at `now_ms`. On
    /// success they become active: the transparency request to send, if the
    /// preset changed, is returned (its generation and preset index); the
    /// token budget follows; the screen closes; a change that needs a
    /// restart asks for one. On failure the screen stays with the message.
    #[verifier::spinoff_prover]
    #[verifier::rlimit(100)]
    pub fn finish_transcription_settings_apply(&mut self, plan: SettingsApplyPlan, saved: Result<(), String>, now_ms: u64) -> (r: Option<(u64, usize)>)
        requires
            old(self).wf(),
            plan == apply_plan_spec(old(self).transcription_settings),
        ensures
            final(self).wf(),
            match saved {
                Err(e) => {
                    let message = apply_failed_message(e@);
                    &&& r is None
                    &&& opt_text(final(self).transcription_settings.note) == Some(message)
                    &&& error_recorded(old(self).errors, final(self).errors, message, sat_sub(now_ms, old(self).started_at_ms))
                    &&& *final(self) == (AppState {
                        transcription_settings: TranscriptionSettingsState {
                            confirm_close: false,
                            note: final(self).transcription_settings.note,
                            ..old(self).transcription_settings
                        },
                        errors: final(self).errors,
                        ..*old(self)
                    })
                },
                Ok(()) => {
                    let ts = old(self).transcription_settings;
                    let n = final(self).transcription_settings;
                    let generation = if plan.transparency_changed {
                        if ts.transparency_generation == u64::MAX { 0 } else { (ts.transparency_generation + 1) as u64 }
                    } else {
                        ts.transparency_generation
                    };
                    let budget = ts.pending.agent_token_budget;
                    &&& same_settings(n.active, ts.pending)
                    &&& n == (TranscriptionSettingsState {
                        active: n.active,
                        load_error: None,
                        transparency_generation: generation,
                        open: false,
                        scroll_offset: 0,
                        note: None,
                        confirm_close: false,
                        ..ts
                    })
                    &&& r == (if plan.transparency_changed {
                        Some((generation, match crate::normalize::transparency_index_spec(ts.pending.transparency_label@) {
                            Some(i) => i as usize,
                            None => 0usize,
                        }))
                    } else {
                        None
                    })
                    &&& (budget != plan.previous_token_budget ==> {
                        &&& final(self).agent_token_limit == (if budget > 0 { Some(budget) } else { None })
                        &&& !final(self).token_budget_prompt_open
                        &&& !final(self).token_budget_prompt_dismissed
                    })
                    &&& (budget == plan.previous_token_budget ==> {
                        &&& final(self).agent_token_limit == old(self).agent_token_limit
                        &&& final(self).token_budget_prompt_open == old(self).token_budget_prompt_open
                        &&& final(self).token_budget_prompt_dismissed == old(self).token_budget_prompt_dismissed
                    })
                    &&& final(self).status@ == (if plan.restart_needed { "Settings saved; restarting"@ } else { "Settings saved"@ })
                    &&& (if plan.restart_needed {
                        &&& final(self).agent_generation == (if old(self).agent_generation == u64::MAX { 0 } else { (old(self).agent_generation + 1) as u64 })
                        &&& final(self).restart_force_agent_update == plan.refresh_agent_after_restart
                        &&& final(self).restart_requested
                        &&& agent_for_restart(old(self).agent, final(self).agent, plan)
                    } else {
                        &&& final(self).agent_generation == old(self).agent_generation
                        &&& final(self).restart_force_agent_update == old(self).restart_force_agent_update
                        &&& final(self).restart_requested == old(self).restart_requested
                        &&& final(self).agent == old(self).agent
                    })
                    &&& *final(self) == (AppState {
                        transcription_settings: n,
                        agent_token_limit: final(self).agent_token_limit,
                        token_budget_prompt_open: final(self).token_budget_prompt_open,
                        token_budget_prompt_dismissed: final(self).token_budget_prompt_dismissed,
                        status: final(self).status,
                        agent_generation: final(self).agent_generation,
                        restart_force_agent_update: final(self).restart_force_agent_update,
                        restart_requested: final(self).restart_requested,
                        agent: final(self).agent,
                        ..*old(self)
                    })
                },
            },
    {
        match saved {
            Err(e) => {
                let mut text = crate::text::chars_of("Failed to save transcription settings: ");
                crate::text::append_chars(&mut text, &crate::text::chars_of(e.as_str()));
                let message = crate::text::string_of(&text);
                self.transcription_settings.confirm_close = false;
                self.transcription_settings.note = Some(crate::text::string_of(&text));
                self.record_error(message.as_str(), now_ms);
                None
            },
            Ok(()) => {
                self.transcription_settings.active = self.transcription_settings.pending.copy();
                self.transcription_settings.load_error = None;
                let mut request: Option<(u64, usize)> = None;
                if plan.transparency_changed {
                    self.transcription_settings.transparency_generation = self.transcription_settings.transparency_generation.wrapping_add(1);
                    let index = match crate::normalize::typing_transparency_preset_index(
                        self.transcription_settings.active.transparency_label.as_str(),
                    ) {
                        Some(i) => i,
                        None => 0,
                    };
                    request = Some((self.transcription_settings.transparency_generation, index));
                }
                let next_budget = self.transcription_settings.active.agent_token_budget;
                if next_budget != plan.previous_token_budget {
                    self.agent_token_limit = if next_budget > 0 { Some(next_budget) } else { None };
                    self.token_budget_prompt_open = false;
                    self.token_budget_prompt_dismissed = false;
                }
                self.transcription_settings.close();
                if plan.restart_needed {
                    self.agent_generation = self.agent_generation.wrapping_add(1);
                    self.restart_force_agent_update = plan.refresh_agent_after_restart;
                    reset_agent_for_restart(&mut self.agent, plan);
                    self.status = crate::text::string_of(&crate::text::chars_of("Settings saved; restarting"));
                    self.restart_requested = true;
                } else {
                    self.status = crate::text::string_of(&crate::text::chars_of("Settings saved"));
                }
                request
            },
        }
    }
}

} // verus!
