use speech_agent_core::agent_config::{parse_agent_config, RawAgentFieldConfig, RawAgentInstructionsConfig};
use speech_agent_core::args::CliArgs;
use speech_agent_core::json::JsonValue;
use speech_agent_core::launch::{
    accept_saved_transcription_settings, agent_requests_possible, launch_transcription_settings, transcription_agent_config,
    typing_launch_config, typing_response_schema, usable_api_key, AgentInstructions, LaunchError,
};
use speech_agent_core::modes::{AppMode, SourceKind, TypingFlushMode};
use speech_agent_core::settings::{EnchantedTranscriptionSettings, EnhancedTypingSettings};
use speech_agent_core::worker::{refiner_failed_note, retryable_status, TypingRefinerState};

fn cli() -> CliArgs {
    CliArgs {
        mode: AppMode::Transcription,
        model_path: "models/ggml-medium.en.bin".to_string(),
        temp_dir: ".temp".to_string(),
        agent_root: None,
        terminal_window_handle: None,
        restart_state_path: None,
        fade_seconds: 70,
        fade_seconds_provided: false,
        language: None,
        language_provided: false,
        agent_model: "gpt-5.6-terra".to_string(),
        agent_model_provided: false,
        agent_disabled: false,
    }
}

fn answer_field() -> RawAgentFieldConfig {
    let mut schema = Vec::new();
    schema.push(("type".to_string(), JsonValue::Str("string".to_string())));
    RawAgentFieldConfig {
        key: "answer_guidance".to_string(),
        title: "Answer".to_string(),
        render: Some("text".to_string()),
        empty: None,
        title_color: "#FFFFFF".to_string(),
        value_color: "#FFFFFF".to_string(),
        min_display_seconds: None,
        preserve_on_empty: false,
        schema: JsonValue::Object(schema),
    }
}

fn instructions() -> AgentInstructions {
    let raw = RawAgentInstructionsConfig { max_output_tokens: None, microphone_delta_gate_field: None, fields: vec![answer_field()] };
    match parse_agent_config(&raw) {
        Ok(declared) => AgentInstructions { instructions: "Help.".to_string(), declared },
        Err(_) => panic!("config should parse"),
    }
}

#[test]
fn fresh_launch_resets_language_and_reference_document() {
    let mut saved = EnchantedTranscriptionSettings::default();
    saved.language = "de".to_string();
    saved.context_file = Some("notes.md".to_string());
    match launch_transcription_settings(saved, None, false, "medium.en", &cli()) {
        Ok((settings, note)) => {
            assert_eq!(settings.language, "en");
            assert_eq!(settings.model, "medium.en");
            assert_eq!(settings.context_file, None);
            assert!(settings.agent_enabled);
            assert_eq!(note, None);
        }
        Err(_) => panic!("default settings should launch"),
    }
}

#[test]
fn restart_keeps_reference_document_and_arguments_override() {
    let mut saved = EnchantedTranscriptionSettings::default();
    saved.context_file = Some("notes.md".to_string());
    let mut args = cli();
    args.fade_seconds = 30;
    args.fade_seconds_provided = true;
    args.agent_disabled = true;
    match launch_transcription_settings(saved, None, true, "medium.en", &args) {
        Ok((settings, _)) => {
            assert_eq!(settings.context_file, Some("notes.md".to_string()));
            assert_eq!(settings.fade_seconds, 30);
            assert!(!settings.agent_enabled);
        }
        Err(_) => panic!("restart should launch"),
    }
}

#[test]
fn unreadable_settings_never_reenable_requests() {
    let saved = EnchantedTranscriptionSettings::default();
    match launch_transcription_settings(saved, Some("Could not read.".to_string()), false, "medium.en", &cli()) {
        Ok((settings, note)) => {
            assert!(!settings.agent_enabled);
            assert_eq!(
                note,
                Some("Could not read. Agent API requests are disabled until you explicitly review and apply settings.".to_string())
            );
        }
        Err(_) => panic!("defaults should launch"),
    }
}

#[test]
fn english_only_model_is_refused_for_other_languages() {
    let mut args = cli();
    args.language = Some("es".to_string());
    args.language_provided = true;
    match launch_transcription_settings(EnchantedTranscriptionSettings::default(), None, false, "medium.en", &args) {
        Err(LaunchError::EnglishOnlyModel { loaded, language, suggested }) => {
            assert_eq!(loaded, "medium.en");
            assert_eq!(language, "es");
            assert_eq!(suggested, "medium");
            let e = LaunchError::EnglishOnlyModel { loaded, language, suggested };
            assert_eq!(e.message(), "Whisper model medium.en is English-only and cannot be used with language es; use medium instead");
        }
        Ok(_) => panic!("an English-only model cannot serve Spanish"),
    }
}

#[test]
fn api_keys_are_trimmed_and_blank_ones_ignored() {
    assert_eq!(usable_api_key(Some("  sk-test \n".to_string())), Some("sk-test".to_string()));
    assert_eq!(usable_api_key(Some("   ".to_string())), None);
    assert_eq!(usable_api_key(None), None);
}

#[test]
fn insight_configuration_needs_key_and_system_output() {
    let settings = EnchantedTranscriptionSettings::default();
    assert!(agent_requests_possible(&settings, &Some("k".to_string())));
    assert!(!agent_requests_possible(&settings, &None));
    let off = transcription_agent_config(&settings, None, None, "contexts".to_string());
    assert!(!off.enabled);
    assert_eq!(off.context_dir, "contexts");
    let on = transcription_agent_config(&settings, Some("k".to_string()), Some(instructions()), "contexts".to_string());
    assert!(on.enabled);
    assert_eq!(on.fields[0].title, "Silhouette");
    assert!(on.instructions.starts_with("Help.\n\n## Active answer mode\n\n"));
    let mut mic_only = EnchantedTranscriptionSettings::default();
    mic_only.sources = vec![SourceKind::Microphone];
    assert!(!transcription_agent_config(&mic_only, Some("k".to_string()), Some(instructions()), String::new()).enabled);
}

#[test]
fn typing_configuration_follows_saved_settings() {
    let mut settings = EnhancedTypingSettings::default();
    settings.transparency_label = "no such preset".to_string();
    settings.typing_speed_label = "no such speed".to_string();
    settings.refiner_model = "  ".to_string();
    settings.flush_mode = None;
    settings.clipboard_enabled = false;
    let c = typing_launch_config(&settings, None, true, None, "Type.".to_string(), None, "s.json".to_string(), "gpt-5.6-terra");
    assert_eq!(c.transparency_index, 0);
    assert_eq!(c.typing_speed_index, 1);
    assert_eq!(c.model, "gpt-5.6-terra");
    assert!(!c.intelligence_enabled);
    assert!(c.apply_saved_transparency);
    assert_eq!(c.flush_mode, TypingFlushMode::Discard);
    let schema = typing_response_schema();
    let limit = schema.get("properties").and_then(|p| p.get("typed_text")).and_then(|t| t.get("maxLength")).and_then(|m| m.as_u64());
    assert_eq!(limit, Some(4000));
}

#[test]
fn saved_settings_note_adjustments() {
    let (_, note) = accept_saved_transcription_settings(EnchantedTranscriptionSettings::default());
    assert_eq!(note, None);
    let mut odd = EnchantedTranscriptionSettings::default();
    odd.chunk_seconds = 7;
    let (settings, note) = accept_saved_transcription_settings(odd);
    assert_ne!(settings.chunk_seconds, 7);
    assert!(note.is_some());
}

#[test]
fn retryable_statuses() {
    assert!(retryable_status(408));
    assert!(retryable_status(429));
    assert!(retryable_status(503));
    assert!(!retryable_status(400));
    assert!(!retryable_status(401));
}

#[test]
fn refiner_takes_each_phrase_once_per_generation() {
    let mut refiner = TypingRefinerState::new(0);
    assert_eq!(refiner.take("  hello there ", 0, 0), Some("hello there".to_string()));
    assert_eq!(refiner.take("hello there", 0, 0), None);
    assert_eq!(refiner.take("   ", 0, 0), None);
    assert_eq!(refiner.take("stale", 0, 1), None);
    assert_eq!(refiner.take("hello there", 1, 1), Some("hello there".to_string()));
    assert_eq!(refiner.seen_generation, 1);
}

#[test]
fn refiner_failure_note_is_compact() {
    assert_eq!(refiner_failed_note("  timed   out \n"), "raw transcription; refiner failed: timed out");
}
