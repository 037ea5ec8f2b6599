use std::collections::VecDeque;

use speech_agent_core::agent_config::AgentFieldConfig;
use speech_agent_core::app_state::{AppState, UiEvent};
use speech_agent_core::errors::ErrorLog;
use speech_agent_core::insight::AgentUsage;
use speech_agent_core::json::JsonValue;
use speech_agent_core::modes::{AppMode, SourceKind, TypingSettingDirection};
use speech_agent_core::replies::{agent_call_outcome, parse_json_text, typing_call_outcome, AgentCallError};
use speech_agent_core::run_app;
use speech_agent_core::args::{CliErrorKind, ParsedArgs};
use speech_agent_core::screen::TypingKeyOutcome;
use speech_agent_core::settings::EnchantedTranscriptionSettings;
use speech_agent_core::startup::{AgentConfig, AppConfig};
use speech_agent_core::stream::frame_admitted;
use speech_agent_core::transcript::merge_transcript_estimate;
use speech_agent_core::worker::{AgentWorkerState, FailureReport, RequestPlan};

fn reply(output: &str, usage: bool) -> String {
    let usage_part = if usage {
        ",\"usage\":{\"input_tokens\":7,\"output_tokens\":3,\"total_tokens\":10}"
    } else {
        ""
    };
    format!(
        "{{\"output\":[{{\"type\":\"message\",\"content\":[{{\"type\":\"output_text\",\"text\":{}}}]}}]{}}}",
        serde_json::to_string(output).unwrap(),
        usage_part
    )
}

fn ok<T>(r: Result<T, AgentCallError>) -> T {
    match r {
        Ok(v) => v,
        Err(e) => panic!("unexpected failure: {}", e.message),
    }
}

fn failed<T>(r: Result<T, AgentCallError>) -> AgentCallError {
    match r {
        Ok(_) => panic!("expected a failure"),
        Err(e) => e,
    }
}

fn no_fields() -> Vec<AgentFieldConfig> {
    Vec::new()
}

fn state_in(mode: AppMode) -> AppState {
    let config = AppConfig {
        mode,
        model_path: "models/ggml-small.bin".to_string(),
        temp_dir: ".temp".to_string(),
        terminal_hwnd: None,
        transcription_settings_path: String::new(),
        transcription_settings_load_error: None,
        restart_state_path: None,
        restart_state: None,
        transcription_settings: EnchantedTranscriptionSettings::default(),
        sources: vec![SourceKind::Microphone],
        chunk_seconds: 12,
        language: Some("en".to_string()),
        fade_secs: 70,
        transparency_tool: String::new(),
        agent: AgentConfig::disabled("gpt-5.6-terra".to_string()),
        typing: None,
    };
    match AppState::new(&config, None, false, false, Vec::new(), Vec::new(), 1_000, 1_000) {
        Ok(state) => state,
        Err(_) => panic!("a fresh state starts"),
    }
}

#[test]
fn parse_json_text_reads_values_and_refuses_other_text() {
    match parse_json_text("[1, -2, true, null, \"x\"]") {
        Ok(JsonValue::Array(items)) => {
            assert_eq!(items.len(), 5);
            assert!(matches!(items[0], JsonValue::Int(1)));
            assert!(matches!(items[1], JsonValue::NegInt(-2)));
            assert!(matches!(items[2], JsonValue::Bool(true)));
            assert!(matches!(items[3], JsonValue::Null));
            assert!(matches!(&items[4], JsonValue::Str(x) if x == "x"));
        }
        _ => panic!("an array is read"),
    }
    assert!(parse_json_text("not json").is_err());
}

#[test]
fn rate_limited_reply_is_retryable_without_usage() {
    let err = failed(agent_call_outcome(429, "429 Too Many Requests", "slow down", &no_fields()));
    assert!(err.retryable);
    assert_eq!(err.usage, None);
    assert_eq!(err.message, "OpenAI API returned 429 Too Many Requests: slow down");
    let err = failed(agent_call_outcome(503, "503 Service Unavailable", "", &no_fields()));
    assert!(err.retryable);
}

#[test]
fn bad_request_reply_is_not_retryable() {
    let err = failed(agent_call_outcome(400, "400 Bad Request", "bad", &no_fields()));
    assert!(!err.retryable);
    assert_eq!(err.message, "OpenAI API returned 400 Bad Request: bad");
}

#[test]
fn reply_body_that_is_not_json_fails_without_retry() {
    let err = failed(agent_call_outcome(200, "200 OK", "<html>", &no_fields()));
    assert!(!err.retryable);
    assert_eq!(err.usage, None);
    let detail = serde_json::from_str::<serde_json::Value>("<html>").unwrap_err().to_string();
    assert_eq!(err.message, format!("OpenAI response was not valid JSON: {detail}"));
}

#[test]
fn reply_without_output_text_keeps_its_usage() {
    let body = "{\"usage\":{\"input_tokens\":7,\"output_tokens\":3,\"total_tokens\":10}}";
    let err = failed(agent_call_outcome(200, "200 OK", body, &no_fields()));
    assert!(!err.retryable);
    assert_eq!(err.message, "OpenAI response did not contain output text");
    assert_eq!(err.usage, Some(AgentUsage { input_tokens: 7, output_tokens: 3, total_tokens: 10 }));
}

#[test]
fn reply_with_matching_output_gives_the_result_and_usage() {
    let (result, usage) = ok(agent_call_outcome(200, "200 OK", &reply("{}", true), &no_fields()));
    assert!(matches!(&result, JsonValue::Object(members) if members.is_empty()));
    assert_eq!(usage, Some(AgentUsage { input_tokens: 7, output_tokens: 3, total_tokens: 10 }));
}

#[test]
fn reply_whose_output_is_not_json_or_not_the_fields_fails() {
    let err = failed(agent_call_outcome(200, "200 OK", &reply("plain words", false), &no_fields()));
    assert!(err.message.starts_with("OpenAI structured output did not match the agent instruction schema: "));
    assert!(!err.retryable);
    let err = failed(agent_call_outcome(200, "200 OK", &reply("{\"extra\":1}", true), &no_fields()));
    assert_eq!(err.message, "OpenAI structured output had unexpected field types");
    assert_eq!(err.usage, Some(AgentUsage { input_tokens: 7, output_tokens: 3, total_tokens: 10 }));
}

#[test]
fn dictation_reply_gives_typed_text_and_note() {
    let body = reply("{\"typed_text\":\"Hello there.\",\"display_note\":\"punctuated\"}", true);
    let (typed, note, usage) = ok(typing_call_outcome(200, "200 OK", &body));
    assert_eq!(typed, "Hello there.");
    assert_eq!(note, "punctuated");
    assert_eq!(usage, Some(AgentUsage { input_tokens: 7, output_tokens: 3, total_tokens: 10 }));
}

#[test]
fn dictation_reply_with_blank_or_extra_fields_fails() {
    let blank = reply("{\"typed_text\":\"  \",\"display_note\":\"\"}", false);
    let err = failed(typing_call_outcome(200, "200 OK", &blank));
    assert_eq!(err.message, "OpenAI response returned empty typed_text");
    let extra = reply("{\"typed_text\":\"a\",\"display_note\":\"b\",\"other\":1}", false);
    let err = failed(typing_call_outcome(200, "200 OK", &extra));
    assert!(err.message.starts_with("OpenAI structured output did not match the enhanced typing schema: "));
    let err = failed(typing_call_outcome(500, "500 Internal Server Error", "oops"));
    assert!(err.retryable);
}

#[test]
fn frames_are_gated_only_while_dictating() {
    assert!(frame_admitted(false, SourceKind::SystemOutput, SourceKind::Microphone, true));
    assert!(frame_admitted(true, SourceKind::Microphone, SourceKind::Microphone, false));
    assert!(!frame_admitted(true, SourceKind::SystemOutput, SourceKind::Microphone, false));
    assert!(!frame_admitted(true, SourceKind::Microphone, SourceKind::Microphone, true));
}

#[test]
fn error_log_counts_repeats_and_discards_the_oldest() {
    let mut log = ErrorLog { entries: VecDeque::new(), discarded_count: 0, revision: 0 };
    log.record("capture failed", 10);
    log.record("  capture failed ", 20);
    assert_eq!(log.entries.len(), 1);
    assert_eq!(log.entries[0].repeat_count, 2);
    assert_eq!(log.entries[0].elapsed_ms, 20);
    log.record("   ", 25);
    assert_eq!(log.entries.len(), 1);
    for (i, message) in ["b", "c", "d", "e", "f"].iter().enumerate() {
        log.record(message, 30 + i as u64);
    }
    assert_eq!(log.entries.len(), 6);
    assert_eq!(log.discarded_count, 0);
    log.record("g", 40);
    assert_eq!(log.entries.len(), 6);
    assert_eq!(log.discarded_count, 2);
    assert_eq!(log.entries[0].message, "b");
    assert_eq!(log.entries[5].message, "g");
    assert_eq!(log.entries[5].repeat_count, 1);
}

#[test]
fn event_admission_follows_the_counters() {
    let mut state = state_in(AppMode::Transcription);
    let event = UiEvent::AgentOutput {
        result: JsonValue::Object(Vec::new()),
        successful_input: speech_agent_core::agent::AgentInput {
            system_transcript: String::new(),
            microphone_transcript: None,
            force: false,
            generation: 0,
        },
        usage: Some(AgentUsage { input_tokens: 1, output_tokens: 1, total_tokens: 2 }),
        force_hints: false,
        elapsed_ms: 1,
        generation: 0,
    };
    assert!(state.apply_allowed(&event));
    state.agent.total_tokens = u64::MAX;
    assert!(!state.apply_allowed(&event));
}

#[test]
fn lifecycle_leaves_dictation_and_pending_restarts_alone() {
    let mut typing = state_in(AppMode::EnhancedTyping);
    let status = typing.status.clone();
    let outcome = typing.update_transcription_lifecycle(None, None, 900_000_000);
    assert!(!outcome.changed && !outcome.exit && outcome.requests_allowed);
    assert_eq!(typing.status, status);
    assert_eq!(typing.hidden_since_ms, None);

    let mut restarting = state_in(AppMode::Transcription);
    restarting.restart_requested = true;
    let outcome = restarting.update_transcription_lifecycle(None, None, 900_000_000);
    assert!(!outcome.changed && !outcome.exit && !outcome.requests_allowed);
    assert_eq!(restarting.hidden_since_ms, None);
}

#[test]
fn restart_wait_names_the_request_in_flight_once() {
    let mut state = state_in(AppMode::Transcription);
    let before = state.status.clone();
    assert!(!state.note_restart_wait(false));
    assert_eq!(state.status, before);
    assert!(state.note_restart_wait(true));
    assert_eq!(state.status, "Settings saved; waiting for current Agent request");
    assert!(!state.note_restart_wait(true));
}

#[test]
fn settings_rows_past_the_list_change_nothing() {
    let mut state = state_in(AppMode::Transcription);
    state.transcription_settings.selection = 17;
    let mut fade = 70u64;
    let scroll = state.transcription_settings.scroll_offset;
    let outcome = state.transcription_settings.change_setting(&mut fade, TypingSettingDirection::Next);
    assert_eq!(outcome, TypingKeyOutcome::Consumed);
    assert_eq!(fade, 70);
    assert_eq!(state.transcription_settings.scroll_offset, scroll);
    state.transcription_settings.selection = 0;
    let outcome = state.transcription_settings.change_setting(&mut fade, TypingSettingDirection::Next);
    assert_eq!(outcome, TypingKeyOutcome::Changed);
    assert_eq!(fade, 75);
}

#[test]
fn transcription_entry_point_refuses_dictation() {
    let args: Vec<String> = ["--model", "m.bin", "--mode", "enhanced-typing"].iter().map(|s| s.to_string()).collect();
    let err = match run_app(&args) {
        Err(err) => err,
        Ok(_) => panic!("dictation is refused here"),
    };
    assert_eq!(err.kind, CliErrorKind::ModeUnavailable);
    assert_eq!(err.message(), "enhanced-typing cannot start through this product entrypoint");
    let args: Vec<String> = ["--model", "m.bin"].iter().map(|s| s.to_string()).collect();
    match run_app(&args) {
        Ok(ParsedArgs::Run(cli)) => {
            assert_eq!(cli.mode, AppMode::Transcription);
            assert_eq!(cli.model_path, "m.bin");
        }
        _ => panic!("a model path is enough"),
    }
}

#[test]
fn normalizing_settings_twice_changes_nothing() {
    let mut saved = EnchantedTranscriptionSettings::default();
    saved.sources = vec![SourceKind::SystemOutput, SourceKind::Microphone, SourceKind::SystemOutput];
    saved.language = "  EN ".to_string();
    saved.model = " Small ".to_string();
    saved.chunk_seconds = 7;
    saved.fade_seconds = 2;
    saved.agent_model = " GPT-5.4-mini ".to_string();
    saved.context_file = Some(" notes.MD ".to_string());
    saved.pause_agent_when_hidden = true;
    saved.hidden_pause_seconds = 0;
    saved.transparency_label = " Clear 85% ".to_string();
    let once = saved.normalized();
    assert_eq!(once.sources, vec![SourceKind::Microphone, SourceKind::SystemOutput]);
    assert_eq!(once.language, "en");
    assert_eq!(once.model, "small.en");
    assert_eq!(once.chunk_seconds, 12);
    assert_eq!(once.fade_seconds, 5);
    assert_eq!(once.agent_model, "gpt-5.6-terra");
    assert_eq!(once.context_file.as_deref(), Some("notes.MD"));
    assert!(!once.pause_agent_when_hidden);
    let snapshot = (
        once.sources.clone(),
        once.language.clone(),
        once.model.clone(),
        once.chunk_seconds,
        once.fade_seconds,
        once.agent_model.clone(),
        once.context_file.clone(),
        once.pause_agent_when_hidden,
        once.hidden_pause_seconds,
        once.transparency_label.clone(),
    );
    let twice = once.normalized();
    assert_eq!(
        (
            twice.sources.clone(),
            twice.language.clone(),
            twice.model.clone(),
            twice.chunk_seconds,
            twice.fade_seconds,
            twice.agent_model.clone(),
            twice.context_file.clone(),
            twice.pause_agent_when_hidden,
            twice.hidden_pause_seconds,
            twice.transparency_label.clone(),
        ),
        snapshot
    );
}

#[test]
fn failing_input_is_retried_three_times_then_given_up() {
    let mut worker = AgentWorkerState::new(JsonValue::Object(Vec::new()), None, 0);
    let input = speech_agent_core::agent::AgentInput {
        system_transcript: "The launch moved to Friday.".to_string(),
        microphone_transcript: None,
        force: false,
        generation: 0,
    };
    worker.take_input(Some(input), 0);
    let mut now = 10_000u64;
    let mut sent = 0;
    let mut retries = Vec::new();
    loop {
        let signature = match worker.plan_request(now, None) {
            RequestPlan::Send { signature, .. } => signature,
            RequestPlan::Wait => break,
        };
        sent += 1;
        match worker.request_failed(signature, "503 Service Unavailable", true, now) {
            FailureReport::Retrying { delay_secs, .. } => {
                retries.push(delay_secs);
                assert!(matches!(worker.plan_request(now + delay_secs * 1000 - 1, None), RequestPlan::Wait));
            }
            FailureReport::Failed { message } => {
                assert_eq!(message, "OpenAI request failed: 503 Service Unavailable");
            }
        }
        worker.finish_request(false, now);
        now += 1_000_000;
        assert!(sent <= 4);
    }
    assert_eq!(sent, 4);
    assert_eq!(retries, vec![2, 4, 8]);
}

#[test]
fn merge_edges_keep_the_other_side_or_the_containing_hypothesis() {
    assert_eq!(merge_transcript_estimate("", "  hello world  "), "hello world");
    assert_eq!(merge_transcript_estimate(" hello world ", ""), "hello world");
    assert_eq!(merge_transcript_estimate("hello world", "hello world"), "hello world");
    assert_eq!(
        merge_transcript_estimate("brown fox", "the quick brown fox jumps"),
        "the quick brown fox jumps"
    );
}

#[test]
fn temporary_folder_defaults_next_to_the_models_folder() {
    let args: Vec<String> = ["--model", "agent/models/m.bin"].iter().map(|s| s.to_string()).collect();
    match run_app(&args) {
        Ok(ParsedArgs::Run(cli)) => assert_eq!(cli.temp_dir, "agent/.temp"),
        _ => panic!("a model path is enough"),
    }
    let args: Vec<String> = ["--model", "agent/models/m.bin", "--temp-dir", "scratch"].iter().map(|s| s.to_string()).collect();
    match run_app(&args) {
        Ok(ParsedArgs::Run(cli)) => assert_eq!(cli.temp_dir, "scratch"),
        _ => panic!("a model path is enough"),
    }
    assert_eq!(speech_agent_core::args::default_temp_dir("m.bin"), ".temp");
    assert_eq!(speech_agent_core::args::default_temp_dir("models/m.bin"), ".temp");
}
