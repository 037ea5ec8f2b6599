use speech_agent_core::app_state::AppState;
use speech_agent_core::args::{
    is_expiring_session_file, parse_app_mode, parse_args, parse_fade_seconds, parse_terminal_window_handle,
    transcript_dump_switch, CliErrorKind, CliFlag, ParsedArgs,
};
use speech_agent_core::keys::{
    handle_transcription_key, handle_typing_key, KeyCode, KeyPress, TranscriptionKeyStep, TypingKeyStep,
    TypingSettingEffect,
};
use speech_agent_core::modes::{AppMode, SourceKind, TypingFlushMode, TypingSettingDirection};
use speech_agent_core::restore::{RestartClock, RestoreError, TRANSCRIPTION_RESTART_STATE_VERSION};
use speech_agent_core::screen::TypingKeyOutcome;
use speech_agent_core::settings::EnchantedTranscriptionSettings;
use speech_agent_core::startup::{AgentConfig, AppConfig, TypingConfig};
use speech_agent_core::json::JsonValue;

fn config(mode: AppMode, typing: bool) -> AppConfig {
    AppConfig {
        mode,
        model_path: "models/ggml-small.bin".to_string(),
        temp_dir: ".temp".to_string(),
        terminal_hwnd: None,
        transcription_settings_path: String::new(),
        transcription_settings_load_error: None,
        restart_state_path: None,
        restart_state: None,
        transcription_settings: EnchantedTranscriptionSettings::default(),
        sources: vec![SourceKind::Microphone, SourceKind::SystemOutput],
        chunk_seconds: 12,
        language: Some("en".to_string()),
        fade_secs: 70,
        transparency_tool: String::new(),
        agent: AgentConfig::disabled("gpt-5.6-terra".to_string()),
        typing: if typing {
            Some(TypingConfig {
                model: "gpt-5.6-terra".to_string(),
                api_key: Some("key".to_string()),
                instructions: String::new(),
                response_schema: JsonValue::Object(Vec::new()),
                max_output_tokens: 256,
                input_source: SourceKind::Microphone,
                terminal_hwnd: None,
                settings_path: String::new(),
                settings_load_error: None,
                transparency_index: 0,
                typing_speed_index: 1,
                apply_saved_transparency: false,
                intelligence_enabled: true,
                flush_mode: TypingFlushMode::Clipboard,
            })
        } else {
            None
        },
    }
}

fn state_at(mode: AppMode, typing: bool, now_ms: u64) -> AppState {
    match AppState::new(&config(mode, typing), None, false, false, Vec::new(), Vec::new(), now_ms, now_ms) {
        Ok(state) => state,
        Err(_) => panic!("a fresh state starts"),
    }
}

fn key(code: KeyCode) -> KeyPress {
    KeyPress { code, control: false }
}

fn strings(items: &[&str]) -> Vec<String> {
    items.iter().map(|s| s.to_string()).collect()
}

#[test]
fn restart_snapshot_round_trip_keeps_transcripts_and_counters() {
    let mut state = state_at(AppMode::Transcription, false, 1_000);
    let startup_errors = state.errors.entries.len();
    assert!(state.update_transcript(SourceKind::SystemOutput, "When is the launch?", 2_000));
    state.record_error("capture failed", 3_000);
    state.agent.total_tokens = 42;
    state.agent_token_limit = Some(100);

    let saved = state.restart_state(50_000, 10_000);
    assert_eq!(saved.version, TRANSCRIPTION_RESTART_STATE_VERSION);
    assert_eq!(saved.session_elapsed_ms, 9_000);

    let mut next = state_at(AppMode::Transcription, false, 500_000);
    let restored = next.restore_restart_state(&saved, 53_000, 500_000);
    assert!(restored.is_ok());
    assert_eq!(500_000 - next.started_at_ms, 9_000 + 3_000);
    let transcript = next.system_transcript.as_ref().expect("system transcript comes back");
    assert_eq!(transcript.blocks[0].text, "When is the launch?");
    assert_eq!(500_000 - transcript.blocks[0].words[0].first_seen, 8_000 + 3_000);
    assert!(next.microphone_transcript.is_none());
    assert_eq!(next.agent.total_tokens, 42);
    assert_eq!(next.agent_token_limit, Some(100));
    assert_eq!(next.errors.entries.len(), startup_errors + 1);
    assert_eq!(next.errors.entries[startup_errors].message, "capture failed");
    assert_eq!(next.errors.revision, 1);
}

#[test]
fn restart_snapshot_refusals_are_named() {
    let state = state_at(AppMode::Transcription, false, 1_000);
    let mut saved = state.restart_state(50_000, 10_000);
    saved.version = 1;
    let mut next = state_at(AppMode::Transcription, false, 500_000);
    match next.restore_restart_state(&saved, 50_000, 500_000) {
        Err(e) => {
            assert_eq!(e, RestoreError::UnsupportedVersion(1));
            assert_eq!(e.message(), "unsupported transcription restart-state version 1");
        },
        Ok(()) => panic!("an old snapshot is refused"),
    }

    let mut saved = state.restart_state(500_000, 10_000);
    assert_eq!(
        next.restore_restart_state(&saved, 400_000, 500_000),
        Err(RestoreError::FutureTimestamp)
    );

    saved.saved_at_unix_ms = 400_000;
    assert_eq!(
        next.restore_restart_state(&saved, 400_000, 1_000),
        Err(RestoreError::InvalidTime(RestartClock::SessionElapsed))
    );

    saved.context = None;
    match next.restore_restart_state(&saved, 400_000, 500_000) {
        Err(e) => assert_eq!(e.message(), "transcription restart state has no protected context"),
        Ok(()) => panic!("a snapshot without its context is refused"),
    }
}

#[test]
fn command_line_is_read_left_to_right() {
    let args = strings(&["--model", "m.bin", "--fade-seconds", "30", "--language", " EN ", "--agent-disabled"]);
    match parse_args(&args, AppMode::Transcription) {
        Ok(ParsedArgs::Run(cli)) => {
            assert_eq!(cli.model_path, "m.bin");
            assert_eq!(cli.fade_seconds, 30);
            assert!(cli.fade_seconds_provided);
            assert_eq!(cli.language.as_deref(), Some("en"));
            assert!(cli.agent_disabled);
            assert_eq!(cli.agent_model, "gpt-5.6-terra");
            assert!(!cli.agent_model_provided);
            assert_eq!(cli.temp_dir, ".temp");
        },
        _ => panic!("arguments parse"),
    }

    match parse_args(&strings(&["--model"]), AppMode::Transcription) {
        Err(e) => {
            assert_eq!(e.kind, CliErrorKind::MissingValue(CliFlag::Model));
            assert_eq!(e.message(), "--model requires a model path");
        },
        _ => panic!("a missing value is refused"),
    }
    match parse_args(&strings(&["--bogus"]), AppMode::Transcription) {
        Err(e) => assert_eq!(e.message(), "unknown argument: --bogus"),
        _ => panic!("an unknown argument is refused"),
    }
    match parse_args(&strings(&["--fade-seconds", "200", "--model", "m.bin"]), AppMode::Transcription) {
        Err(e) => assert_eq!(e.message(), "fade seconds must be a number from 5 to 180"),
        _ => panic!("a fade out of range is refused"),
    }
    match parse_args(&strings(&["--mode", "Typing", "--model", "m.bin"]), AppMode::Transcription) {
        Err(e) => assert_eq!(e.message(), "Typing cannot start through this product entrypoint"),
        _ => panic!("another product is refused"),
    }
    match parse_args(&strings(&[]), AppMode::Transcription) {
        Err(e) => assert_eq!(e.message(), "missing --model <path>"),
        _ => panic!("a model is needed"),
    }
    assert!(matches!(parse_args(&strings(&["--help", "--bogus"]), AppMode::Transcription), Ok(ParsedArgs::Help)));
}

#[test]
fn argument_values_are_checked() {
    assert!(matches!(parse_app_mode(" enhanced-typing "), Ok(AppMode::EnhancedTyping)));
    match parse_app_mode("Radio") {
        Err(e) => assert_eq!(e.message(), "--mode must be transcription or enhanced-typing, got radio"),
        Ok(_) => panic!("an unknown mode is refused"),
    }
    assert_eq!(parse_fade_seconds("5"), Some(5));
    assert_eq!(parse_fade_seconds("4"), None);
    assert_eq!(parse_fade_seconds("x"), None);
    assert_eq!(parse_terminal_window_handle(" 0 ").ok(), Some(None));
    assert_eq!(parse_terminal_window_handle("-5").ok(), Some(None));
    assert_eq!(parse_terminal_window_handle("1234").ok(), Some(Some(1234)));
    match parse_terminal_window_handle(" abc ") {
        Err(e) => assert_eq!(e.message(), "invalid terminal window handle: abc"),
        Ok(_) => panic!("a non-number is refused"),
    }
}

#[test]
fn session_files_and_dump_switch_are_recognised() {
    assert!(is_expiring_session_file("transcription-1700000000.txt"));
    assert!(is_expiring_session_file("restart-state-42.json"));
    assert!(is_expiring_session_file(".restart-state-42.tmp"));
    assert!(!is_expiring_session_file("notes.txt"));
    assert!(!is_expiring_session_file("restart-state-42.txt"));
    assert!(transcript_dump_switch(" Yes "));
    assert!(transcript_dump_switch("1"));
    assert!(!transcript_dump_switch("off"));
}

#[test]
fn typing_keys_open_settings_and_change_the_selected_one() {
    let mut state = state_at(AppMode::EnhancedTyping, true, 0);
    assert_eq!(handle_typing_key(&mut state, key(KeyCode::F(9)), 0, 1), TypingKeyStep::Done(TypingKeyOutcome::Changed));
    assert!(state.typing.settings_open);
    assert_eq!(handle_typing_key(&mut state, key(KeyCode::Up), 0, 2), TypingKeyStep::Done(TypingKeyOutcome::Consumed));
    assert_eq!(handle_typing_key(&mut state, key(KeyCode::Down), 0, 3), TypingKeyStep::Done(TypingKeyOutcome::Changed));
    assert_eq!(state.typing.settings_selection, 1);
    assert_eq!(
        handle_typing_key(&mut state, key(KeyCode::Right), 0, 4),
        TypingKeyStep::ChangeSetting(TypingSettingDirection::Next)
    );

    state.typing.settings_selection = 2;
    let (before, effect) = state.typing.change_setting(TypingSettingDirection::Next);
    assert!(matches!(effect, TypingSettingEffect::Nothing));
    assert_eq!(state.typing.typing_speed_index, 2);
    assert!(state.typing.settings_differ(&before));
    assert_eq!(state.typing.setting_outcome(&before), TypingKeyOutcome::Changed);

    state.finish_typing_settings_save(Err("disk full".to_string()), 5);
    assert_eq!(state.typing.settings_note.as_deref(), Some("Settings save failed: disk full"));
    assert_eq!(state.errors.entries.len(), 1);
    assert_eq!(state.errors.entries[0].message, "Enhanced typing Settings save failed: disk full");

    state.typing.settings_selection = 0;
    let (_, effect) = state.typing.change_setting(TypingSettingDirection::Next);
    assert!(matches!(effect, TypingSettingEffect::Intelligence(false)));
    assert!(!state.typing.intelligence_enabled);
}

#[test]
fn typing_escape_clears_then_asks_then_exits() {
    let mut state = state_at(AppMode::EnhancedTyping, true, 0);
    state.typing.last_typed_text = "Draft.".to_string();
    assert_eq!(handle_typing_key(&mut state, key(KeyCode::Esc), 0, 1), TypingKeyStep::Done(TypingKeyOutcome::Changed));
    assert!(state.typing.last_typed_text.is_empty());
    assert_eq!(handle_typing_key(&mut state, key(KeyCode::Esc), 0, 2), TypingKeyStep::Done(TypingKeyOutcome::Changed));
    assert!(state.typing.exit_confirmation_open);
    assert_eq!(
        handle_typing_key(&mut state, key(KeyCode::Esc), 0, 3),
        TypingKeyStep::Done(TypingKeyOutcome::ExitRequested)
    );
    assert_eq!(handle_typing_key(&mut state, key(KeyCode::Char('x')), 0, 4), TypingKeyStep::Done(TypingKeyOutcome::Changed));
    assert!(!state.typing.exit_confirmation_open);
    assert_eq!(handle_typing_key(&mut state, key(KeyCode::End), 7, 5), TypingKeyStep::Done(TypingKeyOutcome::Changed));
    assert_eq!(state.typing.scroll_offset, 7);
    assert_eq!(handle_typing_key(&mut state, key(KeyCode::PageDown), 7, 6), TypingKeyStep::Done(TypingKeyOutcome::Consumed));
}

#[test]
fn transcription_keys_open_move_and_apply_settings() {
    let mut state = state_at(AppMode::Transcription, false, 0);
    assert_eq!(handle_transcription_key(&mut state, key(KeyCode::Char('x'))), TranscriptionKeyStep::Done(TypingKeyOutcome::Ignored));
    assert_eq!(handle_transcription_key(&mut state, key(KeyCode::F(9))), TranscriptionKeyStep::OpenSettings);
    state.transcription_settings.open(state.fade_secs, Ok(Vec::new()), Ok(Vec::new()));
    assert_eq!(handle_transcription_key(&mut state, key(KeyCode::Up)), TranscriptionKeyStep::RevealSelection);
    assert_eq!(state.transcription_settings.selection, 16);
    state.reveal_transcription_setting_selection(5, 20);
    assert_eq!(state.transcription_settings.scroll_offset, 12);
    assert_eq!(handle_transcription_key(&mut state, key(KeyCode::Down)), TranscriptionKeyStep::RevealSelection);
    assert_eq!(state.transcription_settings.selection, 0);
    assert_eq!(handle_transcription_key(&mut state, key(KeyCode::Home)), TranscriptionKeyStep::Scroll(KeyCode::Home));
    assert_eq!(state.scroll_transcription_settings(KeyCode::Home, 5, 20), TypingKeyOutcome::Changed);
    assert_eq!(state.transcription_settings.scroll_offset, 0);

    state.transcription_settings.pending.agent_token_budget = 5_000;
    assert_eq!(handle_transcription_key(&mut state, key(KeyCode::Esc)), TranscriptionKeyStep::Done(TypingKeyOutcome::Changed));
    assert!(state.transcription_settings.confirm_close);
    assert_eq!(handle_transcription_key(&mut state, key(KeyCode::Enter)), TranscriptionKeyStep::ApplySettings);
    let plan = state.plan_transcription_settings_apply();
    assert!(!plan.restart_needed);
    assert_eq!(state.finish_transcription_settings_apply(plan, Ok(()), 10), None);
    assert_eq!(state.agent_token_limit, Some(5_000));
    assert_eq!(state.status, "Settings saved");
    assert!(!state.transcription_settings.open);
}

#[test]
fn failed_settings_save_keeps_the_screen_with_the_reason() {
    let mut state = state_at(AppMode::Transcription, false, 0);
    state.transcription_settings.open(state.fade_secs, Ok(Vec::new()), Ok(Vec::new()));
    state.transcription_settings.confirm_close = true;
    let errors_before = state.errors.entries.len();
    let plan = state.plan_transcription_settings_apply();
    assert_eq!(state.finish_transcription_settings_apply(plan, Err("access denied".to_string()), 10), None);
    assert!(state.transcription_settings.open);
    assert!(!state.transcription_settings.confirm_close);
    assert_eq!(
        state.transcription_settings.note.as_deref(),
        Some("Failed to save transcription settings: access denied")
    );
    assert_eq!(state.errors.entries.len(), errors_before + 1);
}

#[test]
fn token_budget_prompt_takes_its_keys() {
    let mut state = state_at(AppMode::Transcription, false, 0);
    state.token_budget_prompt_open = true;
    state.agent.total_tokens = 150;
    state.agent_token_limit = Some(100);
    assert_eq!(
        handle_transcription_key(&mut state, KeyPress { code: KeyCode::Char('c'), control: true }),
        TranscriptionKeyStep::Done(TypingKeyOutcome::Ignored)
    );
    assert_eq!(handle_transcription_key(&mut state, key(KeyCode::Char('n'))), TranscriptionKeyStep::Done(TypingKeyOutcome::Changed));
    assert!(state.token_budget_prompt_dismissed);
    assert_eq!(handle_transcription_key(&mut state, key(KeyCode::F(1))), TranscriptionKeyStep::Done(TypingKeyOutcome::Changed));
    assert!(state.token_budget_prompt_open);
    assert_eq!(handle_transcription_key(&mut state, key(KeyCode::Enter)), TranscriptionKeyStep::Done(TypingKeyOutcome::Changed));
    assert!(!state.token_budget_prompt_open);
    assert!(state.agent_token_limit.unwrap() > 150);
}

use speech_agent_core::agent::AgentInput;
use speech_agent_core::worker::{AgentWorkerState, FailureReport, PermissionChange, RequestPlan};

fn question(generation: u64) -> AgentInput {
    AgentInput {
        system_transcript: "When is the launch?".to_string(),
        microphone_transcript: None,
        force: false,
        generation,
    }
}

#[test]
fn agent_worker_sends_new_context_and_retries_within_the_limit() {
    let mut worker = AgentWorkerState::new(JsonValue::Object(Vec::new()), None, 0);
    assert!(matches!(worker.plan_request(0, None), RequestPlan::Wait));

    worker.take_input(Some(question(1)), 1);
    assert!(worker.latest_input.is_none());
    worker.take_input(Some(question(0)), 0);
    let signature = match worker.plan_request(10_000, None) {
        RequestPlan::Send { signature, force, force_hints } => {
            assert!(!force);
            assert!(force_hints);
            signature
        },
        RequestPlan::Wait => panic!("new context is sent"),
    };
    assert_eq!(signature, "system:When is the launch?\nmic:");
    assert_eq!(worker.request_timeout_secs(), 75);

    for (count, delay) in [(1u32, 2u64), (2, 4), (3, 8)] {
        match worker.request_failed(signature.clone(), "timeout", true, 10_000) {
            FailureReport::Retrying { message, delay_secs } => {
                assert_eq!(delay_secs, delay);
                assert_eq!(message, format!("Temporary API failure; retry {}/3 in {}s: timeout", count, delay));
            },
            FailureReport::Failed { .. } => panic!("a retry is scheduled"),
        }
        worker.finish_request(false, 10_000);
        assert!(matches!(worker.plan_request(10_000 + delay * 1000 - 1, None), RequestPlan::Wait));
        assert!(matches!(worker.plan_request(10_000 + delay * 1000, None), RequestPlan::Send { .. }));
    }
    match worker.request_failed(signature.clone(), "timeout", true, 30_000) {
        FailureReport::Failed { message } => assert_eq!(message, "OpenAI request failed: timeout"),
        FailureReport::Retrying { .. } => panic!("the retries are used up"),
    }
    worker.finish_request(false, 30_000);
    assert_eq!(worker.retry_count, 0);
    assert!(matches!(worker.plan_request(90_000, None), RequestPlan::Wait));
}

#[test]
fn agent_worker_refresh_forgets_the_earlier_contract() {
    let mut worker = AgentWorkerState::new(JsonValue::Object(Vec::new()), Some(question(0)), 0);
    worker.take_input(Some(question(0)), 0);
    assert!(!worker.refresh(0, JsonValue::Null));
    assert!(worker.latest_input.is_some());
    assert!(worker.refresh(1, JsonValue::Null));
    assert!(worker.latest_input.is_none());
    assert!(worker.last_successful_input.is_none());
    assert_eq!(worker.seen_refresh_generation, 1);
    assert_eq!(worker.note_permission(false), PermissionChange::Paused);
    assert_eq!(worker.note_permission(false), PermissionChange::Unchanged);
    assert_eq!(worker.note_permission(true), PermissionChange::Resumed);
}

fn row_text(line: &speech_agent_core::view::StyledLine) -> String {
    line.segments.iter().map(|s| s.text.as_str()).collect::<Vec<_>>().join("")
}

#[test]
fn live_screen_has_titles_columns_and_footer() {
    let state = state_at(AppMode::Transcription, false, 1000);
    let rows = speech_agent_core::screens::live_screen(&state, 100, 30);
    assert_eq!(rows.len(), 30);
    assert!(row_text(&rows[0]).starts_with("Transcription"));
    assert_eq!(row_text(&rows[0]).chars().count(), 99);
    assert!(row_text(&rows[29]).starts_with("F9 settings | F1 update | F5 reset | requests 0"));
    assert!(rows.iter().all(|line| row_text(line).chars().count() == 99));
}

#[test]
fn small_terminals_still_get_the_minimum_live_screen() {
    let state = state_at(AppMode::Transcription, false, 1000);
    let rows = speech_agent_core::screens::live_screen(&state, 10, 5);
    assert_eq!(rows.len(), 24);
    assert_eq!(row_text(&rows[0]).chars().count(), 79);
}

#[test]
fn settings_screen_keeps_keys_on_the_last_row() {
    let mut state = state_at(AppMode::Transcription, false, 1000);
    assert_eq!(handle_transcription_key(&mut state, key(KeyCode::F(9))), TranscriptionKeyStep::OpenSettings);
    state.transcription_settings.open(state.fade_secs, Ok(Vec::new()), Ok(Vec::new()));
    let rows = speech_agent_core::screens::settings_screen(&state, 120, 40, false);
    assert_eq!(rows.len(), 40);
    assert!(row_text(&rows[0]).starts_with("Transcription settings"));
    assert!(row_text(&rows[39]).contains("Esc"));
}

#[test]
fn budget_screen_asks_to_continue() {
    let state = state_at(AppMode::Transcription, false, 1000);
    let rows = speech_agent_core::screens::budget_screen(&state, 90, 20);
    assert_eq!(rows.len(), 20);
    assert!(row_text(&rows[0]).starts_with("Agent token budget reached"));
    assert!(row_text(&rows[19]).starts_with("Enter/Y/C continue"));
}
