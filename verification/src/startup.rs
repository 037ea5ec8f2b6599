//! The configuration a session starts from and the session it starts as.
use vstd::prelude::*;

use crate::agent::AgentInput;
use crate::agent_config::AgentFieldConfig;
use crate::app_state::{transcript_of, AppState};
use crate::errors::{error_recorded, ErrorLog};
use crate::json::JsonValue;
use crate::modes::{AppMode, ContextStrictness, SourceKind, TranscriptionAnswerMode, TypingFlushMode};
use crate::panes::{AgentPaneState, FieldStateModel};
use crate::restore::{restore_error, restore_post, TranscriptionRestartState};
use crate::screen::TranscriptionSettingsState;
use crate::settings::{restart_of, same_settings, EnchantedTranscriptionSettings};
use crate::stream::sat_sub;
use crate::modes::{TYPING_SPEED_PRESET_COUNT, TYPING_TRANSPARENCY_PRESET_COUNT};
use crate::settings::opt_text;
use crate::typing_pane::TypingPaneState;

verus! {

/// What the insight worker is started with.
pub struct AgentConfig {
    pub enabled: bool,
    pub model: String,
    pub api_key: Option<String>,
    pub include_microphone: bool,
    pub answer_mode: TranscriptionAnswerMode,
    pub context_dir: String,
    pub context_file: Option<String>,
    pub context_strictness: ContextStrictness,
    pub instructions: String,
    pub response_schema: JsonValue,
    pub max_output_tokens: u64,
    pub fields: Vec<AgentFieldConfig>,
    pub microphone_delta_gate_field: Option<String>,
    pub initial_result: JsonValue,
    pub initial_input: Option<AgentInput>,
}

impl AgentConfig {
    /// The configuration of a switched-off insight pane.
    pub fn disabled(model: String) -> (r: Self)
        ensures
            !r.enabled,
            r.model == model,
            r.api_key is None,
            !r.include_microphone,
            r.answer_mode == TranscriptionAnswerMode::Silhouette,
            r.context_dir@.len() == 0,
            r.context_file is None,
            r.context_strictness == ContextStrictness::Soft,
            r.instructions@.len() == 0,
            r.response_schema@ == crate::json::JsonModel::Object(Seq::empty()),
            r.max_output_tokens == 220,
            r.fields@.len() == 0,
            r.microphone_delta_gate_field is None,
            r.initial_result@ == crate::json::JsonModel::Object(Seq::empty()),
            r.initial_input is None,
    {
        let schema = JsonValue::Object(Vec::new());
        let initial = JsonValue::Object(Vec::new());
        proof {
            assert(schema@ == crate::json::JsonModel::Object(Seq::empty()));
            assert(initial@ == crate::json::JsonModel::Object(Seq::empty()));
        }
        AgentConfig {
            enabled: false,
            model,
            api_key: None,
            include_microphone: false,
            answer_mode: TranscriptionAnswerMode::Silhouette,
            context_dir: String::new(),
            context_file: None,
            context_strictness: ContextStrictness::Soft,
            instructions: String::new(),
            response_schema: schema,
            max_output_tokens: 220,
            fields: Vec::new(),
            microphone_delta_gate_field: None,
            initial_result: initial,
            initial_input: None,
        }
    }

    /// The same configuration with another reference context.
    pub fn with_reference_context(self, context_dir: String, context_file: Option<String>, context_strictness: ContextStrictness) -> (r: Self)
        ensures
            r == (AgentConfig { context_dir, context_file, context_strictness, ..self }),
    {
        AgentConfig { context_dir, context_file, context_strictness, ..self }
    }
}

/// What the typing pane is started with.
pub struct TypingConfig {
    pub model: String,
    pub api_key: Option<String>,
    pub instructions: String,
    pub response_schema: JsonValue,
    pub max_output_tokens: u64,
    pub input_source: SourceKind,
    pub terminal_hwnd: Option<isize>,
    pub settings_path: String,
    pub settings_load_error: Option<String>,
    pub transparency_index: usize,
    pub typing_speed_index: usize,
    pub apply_saved_transparency: bool,
    pub intelligence_enabled: bool,
    pub flush_mode: TypingFlushMode,
}

/// What a session is started with.
pub struct AppConfig {
    pub mode: AppMode,
    pub model_path: String,
    pub temp_dir: String,
    pub terminal_hwnd: Option<isize>,
    pub transcription_settings_path: String,
    pub transcription_settings_load_error: Option<String>,
    pub restart_state_path: Option<String>,
    pub restart_state: Option<TranscriptionRestartState>,
    pub transcription_settings: EnchantedTranscriptionSettings,
    pub sources: Vec<SourceKind>,
    pub chunk_seconds: usize,
    pub language: Option<String>,
    pub fade_secs: u64,
    pub transparency_tool: String,
    pub agent: AgentConfig,
    pub typing: Option<TypingConfig>,
}

/// The preset indexes of a typing configuration are in range.
pub open spec fn config_wf(config: AppConfig) -> bool {
    match config.typing {
        Some(t) => t.transparency_index < TYPING_TRANSPARENCY_PRESET_COUNT && t.typing_speed_index < TYPING_SPEED_PRESET_COUNT,
        None => true,
    }
}

/// Whether a configuration can start a session; see `config_wf`.
pub fn config_wf_holds(config: &AppConfig) -> (r: bool)
    ensures
        r == config_wf(*config),
{
    match &config.typing {
        Some(t) => t.transparency_index < TYPING_TRANSPARENCY_PRESET_COUNT && t.typing_speed_index < TYPING_SPEED_PRESET_COUNT,
        None => true,
    }
}

/// The typing pane a configuration starts: the configured one, or a
/// switched-off one.
pub open spec fn typing_started(config: AppConfig, t: TypingPaneState) -> bool {
    &&& t.wf()
    &&& t.terminal_focused
    &&& !t.request_in_flight
    &&& !t.microphone_active
    &&& t.request_count == 0
    &&& t.last_error is None
    &&& match config.typing {
        Some(c) => {
            &&& t.enabled
            &&& t.refiner_model@ == c.model@
            &&& t.settings_path@ == c.settings_path@
            &&& t.transparency_index == c.transparency_index
            &&& t.typing_speed_index == c.typing_speed_index
            &&& opt_text(t.settings_load_error) == opt_text(c.settings_load_error)
            &&& t.intelligence_available == (c.api_key is Some)
            &&& t.intelligence_enabled == c.intelligence_enabled
            &&& t.flush_mode == c.flush_mode
            &&& t.input_source == c.input_source
            &&& t.terminal_hwnd == c.terminal_hwnd
        },
        None => {
            &&& !t.enabled
            &&& t.refiner_model@.len() == 0
            &&& t.settings_path@.len() == 0
            &&& t.transparency_index == 0
            &&& t.typing_speed_index == 1
            &&& t.settings_load_error is None
            &&& !t.intelligence_available
            &&& !t.intelligence_enabled
            &&& t.flush_mode == TypingFlushMode::Clipboard
            &&& t.input_source == SourceKind::Microphone
            &&& t.terminal_hwnd is None
        },
    }
}

/// The insight pane a configuration starts.
pub open spec fn agent_started(config: AppConfig, a: AgentPaneState) -> bool {
    &&& a.enabled == config.agent.enabled
    &&& a.fields.len() == config.agent.fields.len()
    &&& forall|i: int| 0 <= i < a.fields.len() ==> (#[trigger] a.fields@[i])@ == (FieldStateModel {
        config: config.agent.fields@[i]@,
        lines: Seq::empty(),
        pending: None,
        updated_at_ms: None,
    })
    &&& a.canonical_result@ == config.agent.initial_result@
    &&& a.last_successful_input == config.agent.initial_input
    &&& a.status@ == (if config.agent.enabled { "waiting for system output"@ } else { "off"@ })
    &&& !a.microphone_active
    &&& !a.system_output_active
    &&& !a.request_in_flight
    &&& a.request_count == 0
    &&& a.input_tokens == 0
    &&& a.output_tokens == 0
    &&& a.total_tokens == 0
    &&& a.last_total_tokens is None
    &&& a.last_query_bytes is None
    &&& a.last_error is None
}

/// The session a configuration starts at `now_ms`, before a snapshot is
/// taken back and before the start-up problems are noted.
pub open spec fn fresh_state(
    config: AppConfig,
    s: AppState,
    terminal_view_focused: Option<bool>,
    dump_enabled: bool,
    cuda_enabled: bool,
    available_models: Seq<String>,
    available_context_files: Seq<String>,
    now_ms: u64,
) -> bool {
    &&& s.wf()
    &&& s.mode == config.mode
    &&& s.model_path@ == config.model_path@
    &&& s.dump_enabled == dump_enabled
    &&& s.terminal_hwnd == config.terminal_hwnd
    &&& s.terminal_view_focused == terminal_view_focused
    &&& s.transcription_settings_path@ == config.transcription_settings_path@
    &&& s.cuda_enabled == cuda_enabled
    &&& s.sources@ == config.sources@
    &&& s.fade_secs == config.fade_secs
    &&& agent_started(config, s.agent)
    &&& !s.transcription_settings.open
    &&& s.transcription_settings.selection == 0
    &&& s.transcription_settings.scroll_offset == 0
    &&& s.transcription_settings.note is None
    &&& opt_text(s.transcription_settings.load_error) == opt_text(config.transcription_settings_load_error)
    &&& !s.transcription_settings.confirm_close
    &&& restart_of(s.transcription_settings.active, config.transcription_settings)
    &&& same_settings(s.transcription_settings.pending, s.transcription_settings.active)
    &&& same_settings(s.transcription_settings.snapshot, s.transcription_settings.active)
    &&& s.transcription_settings.fade_snapshot_secs == config.fade_secs
    &&& s.transcription_settings.available_models@ == available_models
    &&& s.transcription_settings.available_context_files@ == available_context_files
    &&& typing_started(config, s.typing)
    &&& s.typing.paste_status@ == "waiting for speech"@
    &&& s.microphone_transcript is None
    &&& s.system_transcript is None
    &&& s.errors.entries@.len() == 0
    &&& s.errors.discarded_count == 0
    &&& s.errors.revision == 0
    &&& s.status@ == "Starting"@
    &&& s.fatal_error is None
    &&& !s.restart_requested
    &&& !s.restart_force_agent_update
    &&& s.started_at_ms == now_ms
    &&& s.last_context_activity_at_ms == now_ms
    &&& s.hidden_since_ms is None
    &&& s.agent_inactive_since_ms is None
    &&& s.agent_generation == 0
    &&& s.agent_token_limit == (if config.transcription_settings.agent_token_budget > 0 {
        Some(config.transcription_settings.agent_token_budget)
    } else {
        None
    })
    &&& !s.token_budget_prompt_open
    &&& !s.token_budget_prompt_dismissed
}

/// The message noted when the insight pane was asked for but is off.
pub open spec fn agent_unavailable_message(config: AppConfig) -> Option<Seq<char>> {
    if config.mode == AppMode::Transcription && config.transcription_settings.agent_enabled && !config.agent.enabled {
        if !config.sources@.contains(SourceKind::SystemOutput) {
            Some("Agent Insights unavailable: System output capture is disabled."@)
        } else {
            Some("Agent Insights unavailable: the OpenAI API key was not loaded."@)
        }
    } else {
        None
    }
}

/// The session after noting, at `now_ms`, an insight pane that was asked
/// for but is off: the pane's status and the error buffer say why.
pub open spec fn agent_noted(config: AppConfig, s: AppState, n: AppState, now_ms: u64) -> bool {
    &&& n.wf()
    &&& match agent_unavailable_message(config) {
        Some(x) => {
            &&& n.agent.status@ == x
            &&& error_recorded(s.errors, n.errors, x, sat_sub(now_ms, s.started_at_ms))
            &&& n == (AppState { agent: AgentPaneState { status: n.agent.status, ..s.agent }, errors: n.errors, ..s })
        },
        None => n == s,
    }
}

/// The session after noting, at `now_ms`, a typing settings file that
/// could not be read: the paste status and the error buffer say so.
pub open spec fn typing_noted(s: AppState, n: AppState, now_ms: u64) -> bool {
    &&& n.wf()
    &&& match opt_text(s.typing.settings_load_error) {
        Some(y) => {
            &&& n.typing.paste_status@ == "settings error; intelligence disabled"@
            &&& error_recorded(s.errors, n.errors, y, sat_sub(now_ms, s.started_at_ms))
            &&& n == (AppState { typing: TypingPaneState { paste_status: n.typing.paste_status, ..s.typing }, errors: n.errors, ..s })
        },
        None => n == s,
    }
}

/// The session after the start-up problems are noted: first the insight
/// pane's, then the typing settings'.
pub open spec fn startup_noted(config: AppConfig, s: AppState, n: AppState, now_ms: u64) -> bool {
    exists|k: AppState| #[trigger] agent_noted(config, s, k, now_ms) && typing_noted(k, n, now_ms)
}

impl AppState {
    /// The session a configuration starts at `now_ms`; see `fresh_state`.
    /// The caller passes what it found out around it: whether the terminal
    /// takes requests, whether transcript dumps are on, whether the build
    /// has CUDA, and the models and context files on disk.
    pub fn fresh(
        config: &AppConfig,
        terminal_view_focused: Option<bool>,
        dump_enabled: bool,
        cuda_enabled: bool,
        available_models: Vec<String>,
        available_context_files: Vec<String>,
        now_ms: u64,
    ) -> (r: AppState)
        requires
            config_wf(*config),
        ensures
            fresh_state(*config, r, terminal_view_focused, dump_enabled, cuda_enabled, available_models@, available_context_files@, now_ms),
    {
        let ghost models = available_models@;
        let ghost files = available_context_files@;
        let agent_status = if config.agent.enabled {
            crate::text::string_of(&crate::text::chars_of("waiting for system output"))
        } else {
            crate::text::string_of(&crate::text::chars_of("off"))
        };
        let agent = AgentPaneState {
            enabled: config.agent.enabled,
            fields: crate::panes::default_agent_fields(&config.agent.fields),
            canonical_result: crate::json::clone_value(&config.agent.initial_result),
            last_successful_input: match &config.agent.initial_input {
                Some(i) => Some(i.clone()),
                None => None,
            },
            status: agent_status,
            microphone_active: false,
            system_output_active: false,
            request_in_flight: false,
            request_count: 0,
            input_tokens: 0,
            output_tokens: 0,
            total_tokens: 0,
            last_total_tokens: None,
            last_query_bytes: None,
            last_error: None,
        };
        let transcription_settings = TranscriptionSettingsState::new(
            &config.transcription_settings,
            crate::settings::opt_string_clone(&config.transcription_settings_load_error),
            config.fade_secs,
            available_models,
            available_context_files,
        );
        let typing = match &config.typing {
            Some(t) => TypingPaneState::new(
                true,
                crate::text::string_of(&crate::text::chars_of(t.model.as_str())),
                crate::text::string_of(&crate::text::chars_of(t.settings_path.as_str())),
                t.transparency_index,
                t.typing_speed_index,
                crate::settings::opt_string_clone(&t.settings_load_error),
                t.api_key.is_some(),
                t.intelligence_enabled,
                t.flush_mode,
                t.input_source,
                t.terminal_hwnd,
            ),
            None => TypingPaneState::new(
                false,
                String::new(),
                String::new(),
                0,
                1,
                None,
                false,
                false,
                TypingFlushMode::Clipboard,
                SourceKind::Microphone,
                None,
            ),
        };
        let budget = config.transcription_settings.agent_token_budget;
        AppState {
            mode: config.mode,
            model_path: crate::text::string_of(&crate::text::chars_of(config.model_path.as_str())),
            dump_enabled,
            terminal_hwnd: config.terminal_hwnd,
            terminal_view_focused,
            transcription_settings_path: crate::text::string_of(&crate::text::chars_of(config.transcription_settings_path.as_str())),
            cuda_enabled,
            sources: crate::normalize::copy_sources(&config.sources),
            fade_secs: config.fade_secs,
            agent,
            transcription_settings,
            typing,
            microphone_transcript: None,
            system_transcript: None,
            errors: ErrorLog::new(),
            status: crate::text::string_of(&crate::text::chars_of("Starting")),
            fatal_error: None,
            restart_requested: false,
            restart_force_agent_update: false,
            started_at_ms: now_ms,
            last_context_activity_at_ms: now_ms,
            hidden_since_ms: None,
            agent_inactive_since_ms: None,
            agent_generation: 0,
            agent_token_limit: if budget > 0 { Some(budget) } else { None },
            token_budget_prompt_open: false,
            token_budget_prompt_dismissed: false,
        }
    }

    /// Notes an insight pane that was asked for but is off; see
    /// `agent_noted`.
    pub fn note_agent_unavailable(&mut self, config: &AppConfig, now_ms: u64)
        requires
            old(self).wf(),
        ensures
            agent_noted(*config, *old(self), *final(self), now_ms),
    {
        if config.mode == AppMode::Transcription && config.transcription_settings.agent_enabled && !config.agent.enabled {
            let message = if !crate::normalize::contains_source(&config.sources, SourceKind::SystemOutput) {
                "Agent Insights unavailable: System output capture is disabled."
            } else {
                "Agent Insights unavailable: the OpenAI API key was not loaded."
            };
            self.agent.status = crate::text::string_of(&crate::text::chars_of(message));
            self.record_error(message, now_ms);
        }
    }

    /// Notes a typing settings file that could not be read; see
    /// `typing_noted`.
    pub fn note_typing_settings_error(&mut self, now_ms: u64)
        requires
            old(self).wf(),
        ensures
            typing_noted(*old(self), *final(self), now_ms),
    {
        match crate::settings::opt_string_clone(&self.typing.settings_load_error) {
            Some(message) => {
                self.typing.paste_status = crate::text::string_of(&crate::text::chars_of("settings error; intelligence disabled"));
                self.record_error(message.as_str(), now_ms);
            },
            None => {},
        }
    }

    /// Notes the start-up problems at `now_ms`; see `startup_noted`.
    pub fn note_startup_problems(&mut self, config: &AppConfig, now_ms: u64)
        requires
            old(self).wf(),
        ensures
            startup_noted(*config, *old(self), *final(self), now_ms),
    {
        self.note_agent_unavailable(config, now_ms);
        let ghost k = *self;
        self.note_typing_settings_error(now_ms);
        assert(agent_noted(*config, *old(self), k, now_ms) && typing_noted(k, *self, now_ms));
    }

    /// Starts a session: the fresh session of `config`, with its snapshot
    /// taken back if there is one, and the start-up problems noted. Fails
    /// only when the snapshot is refused.
    pub fn new(
        config: &AppConfig,
        terminal_view_focused: Option<bool>,
        dump_enabled: bool,
        cuda_enabled: bool,
        available_models: Vec<String>,
        available_context_files: Vec<String>,
        now_unix_ms: u64,
        now_ms: u64,
    ) -> (r: Result<AppState, crate::restore::RestoreError>)
        requires
            config_wf(*config),
        ensures
            match r {
                Err(e) => config.restart_state is Some && restore_error(config.restart_state.unwrap(), now_unix_ms, now_ms) == Some(e),
                Ok(s) => {
                    &&& (config.restart_state is Some ==> restore_error(config.restart_state.unwrap(), now_unix_ms, now_ms) is None)
                    &&& exists|f: AppState, m: AppState| {
                        &&& #[trigger] fresh_state(*config, f, terminal_view_focused, dump_enabled, cuda_enabled, available_models@, available_context_files@, now_ms)
                        &&& (match config.restart_state {
                            Some(saved) => restore_post(f, m, saved, now_unix_ms, now_ms),
                            None => m == f,
                        })
                        &&& #[trigger] startup_noted(*config, m, s, now_ms)
                    }
                },
            },
    {
        let ghost models = available_models@;
        let ghost files = available_context_files@;
        let mut state = AppState::fresh(config, terminal_view_focused, dump_enabled, cuda_enabled, available_models, available_context_files, now_ms);
        let ghost f = state;
        match &config.restart_state {
            Some(saved) => {
                match state.restore_restart_state(saved, now_unix_ms, now_ms) {
                    Ok(()) => {},
                    Err(e) => return Err(e),
                }
            },
            None => {},
        }
        let ghost m = state;
        state.note_startup_problems(config, now_ms);
        proof {
            assert(fresh_state(*config, f, terminal_view_focused, dump_enabled, cuda_enabled, models, files, now_ms));
            assert(startup_noted(*config, m, state, now_ms));
        }
        Ok(state)
    }
}

} // verus!
