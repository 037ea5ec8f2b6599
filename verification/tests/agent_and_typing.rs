use speech_agent_core::agent::AgentInput;
use speech_agent_core::agent_config::{
    extract_agent_config_block, parse_agent_config, RawAgentFieldConfig, RawAgentInstructionsConfig,
};
use speech_agent_core::app_state::{AppState, UiEvent};
use speech_agent_core::insight::{
    agent_input_has_informative_delta, agent_result_matches_fields, build_response_schema, canonical_agent_result,
    extract_agent_usage, extract_response_text, AgentUsage,
};
use speech_agent_core::json::JsonValue;
use speech_agent_core::modes::{typing_speed_preset, AppMode, SourceKind, TypingFlushMode};
use speech_agent_core::panes::default_agent_fields;
use speech_agent_core::settings::{EnchantedTranscriptionSettings, EnhancedTypingSettings};
use speech_agent_core::startup::{AgentConfig, AppConfig, TypingConfig};
use speech_agent_core::typing_pane::{typing_display_text, TypingFlushOutcome};
use speech_agent_core::layout::{min_typing_status_width, TYPING_MAX_CONTENT_WIDTH};
use speech_agent_core::request::{
    agent_developer_instructions, agent_request_body, agent_request_payload, check_reference_content, check_reference_name,
    ReferenceError,
};
use speech_agent_core::typing_view::{styled_line_width, typing_layout};

fn text(s: &str) -> JsonValue {
    JsonValue::Str(s.to_string())
}

fn object(members: Vec<(&str, JsonValue)>) -> JsonValue {
    JsonValue::Object(members.into_iter().map(|(k, v)| (k.to_string(), v)).collect())
}

fn string_schema() -> JsonValue {
    object(vec![("type", text("string"))])
}

fn field(key: &str, title: &str, render: &str, title_color: &str, value_color: &str, schema: JsonValue) -> RawAgentFieldConfig {
    RawAgentFieldConfig {
        key: key.to_string(),
        title: title.to_string(),
        render: Some(render.to_string()),
        empty: None,
        title_color: title_color.to_string(),
        value_color: value_color.to_string(),
        min_display_seconds: None,
        preserve_on_empty: false,
        schema,
    }
}

fn raw_config(fields: Vec<RawAgentFieldConfig>) -> RawAgentInstructionsConfig {
    RawAgentInstructionsConfig { max_output_tokens: None, microphone_delta_gate_field: None, fields }
}

fn input(system: &str, microphone: Option<&str>) -> AgentInput {
    AgentInput {
        system_transcript: system.to_string(),
        microphone_transcript: microphone.map(|m| m.to_string()),
        force: false,
        generation: 0,
    }
}

fn test_typing_state(draft: &str) -> AppState {
    let config = AppConfig {
        mode: AppMode::EnhancedTyping,
        model_path: "ggml-small.bin".to_string(),
        temp_dir: ".".to_string(),
        terminal_hwnd: None,
        transcription_settings_path: String::new(),
        transcription_settings_load_error: None,
        restart_state_path: None,
        restart_state: None,
        transcription_settings: EnchantedTranscriptionSettings::default(),
        sources: vec![SourceKind::Microphone],
        chunk_seconds: 4,
        language: Some("en".to_string()),
        fade_secs: 70,
        transparency_tool: String::new(),
        agent: AgentConfig::disabled("gpt-5.6-terra".to_string()),
        typing: Some(TypingConfig {
            model: "gpt-5.6-terra".to_string(),
            api_key: None,
            instructions: String::new(),
            response_schema: object(vec![]),
            max_output_tokens: 256,
            input_source: SourceKind::Microphone,
            terminal_hwnd: None,
            settings_path: String::new(),
            settings_load_error: None,
            transparency_index: 0,
            typing_speed_index: 1,
            apply_saved_transparency: false,
            intelligence_enabled: false,
            flush_mode: TypingFlushMode::Clipboard,
        }),
    };
    let mut state = match AppState::new(&config, None, false, false, Vec::new(), Vec::new(), 0, 0) {
        Ok(state) => state,
        Err(_) => panic!("test AppState should initialize"),
    };
    state.typing.last_typed_text = draft.to_string();
    state
}

const CONFIG_MARKDOWN: &str = r##"
Before.

```agent-config
{
  "fields": [
    {
      "key": "critical_hints",
      "title": "Hints",
      "render": "text",
      "title_color": "#FFD85C",
      "value_color": "#FFEEAA",
      "schema": { "type": "string" }
    }
  ]
}
```

After.
"##;

fn check_extracts_agent_config() {
    let (config_text, instructions) = match extract_agent_config_block(CONFIG_MARKDOWN) {
        Ok(parts) => parts,
        Err(_) => panic!("config should parse"),
    };

    assert!(config_text.contains("critical_hints"));
    assert!(!instructions.contains("agent-config"));
    assert!(instructions.contains("Before."));
    assert!(instructions.contains("After."));
}

#[test]
fn lib_extracts_agent_config_and_strips_it_from_prompt() {
    check_extracts_agent_config();
}

#[test]
fn main_extracts_agent_config_and_strips_it_from_prompt() {
    check_extracts_agent_config();
}

fn check_builds_response_schema() {
    let mut hints = field(
        "critical_hints",
        "Hints",
        "text",
        "#FFD85C",
        "#FFEEAA",
        object(vec![("type", text("string")), ("maxLength", JsonValue::Int(240))]),
    );
    hints.empty = Some("none".to_string());
    let questions = field(
        "unanswered_questions",
        "Unanswered questions",
        "list",
        "#70D6FF",
        "#C4ECFF",
        object(vec![("type", text("array")), ("items", string_schema())]),
    );
    let mut raw = raw_config(vec![hints, questions]);
    raw.max_output_tokens = Some(220);
    let parsed = match parse_agent_config(&raw) {
        Ok(parsed) => parsed,
        Err(_) => panic!("agent config should parse"),
    };
    let schema = build_response_schema(&parsed.fields);

    assert_eq!(parsed.fields.len(), 2);
    assert_eq!(parsed.fields[0].title_rgb, (255, 216, 92));
    assert_eq!(schema.get("type").and_then(|v| v.as_str()).map(|s| s.as_str()), Some("object"));
    let hint_type = schema
        .get("properties")
        .and_then(|p| p.get("critical_hints"))
        .and_then(|h| h.get("type"))
        .and_then(|t| t.as_str())
        .map(|s| s.as_str());
    assert_eq!(hint_type, Some("string"));
    let first_required = schema
        .get("required")
        .and_then(|r| r.as_array())
        .and_then(|items| items.first())
        .and_then(|v| v.as_str())
        .map(|s| s.as_str());
    assert_eq!(first_required, Some("critical_hints"));
}

#[test]
fn lib_builds_response_schema_from_agent_config() {
    check_builds_response_schema();
}

#[test]
fn main_builds_response_schema_from_agent_config() {
    check_builds_response_schema();
}

fn check_rejects_render_schema_mismatch() {
    let raw = raw_config(vec![field("questions", "Questions", "list", "#70D6FF", "#C4ECFF", string_schema())]);
    let error = match parse_agent_config(&raw) {
        Ok(_) => panic!("agent config should reject list render with string schema"),
        Err(error) => error.message(),
    };

    assert!(error.contains("render=list"));
    assert!(error.contains("schema.type must be array"));
}

#[test]
fn lib_agent_config_rejects_render_schema_mismatch() {
    check_rejects_render_schema_mismatch();
}

#[test]
fn main_agent_config_rejects_render_schema_mismatch() {
    check_rejects_render_schema_mismatch();
}

fn check_rejects_missing_gate_field() {
    let mut raw = raw_config(vec![field("critical_hints", "Hints", "text", "#FFD85C", "#FFEEAA", string_schema())]);
    raw.microphone_delta_gate_field = Some("missing_field".to_string());
    let error = match parse_agent_config(&raw) {
        Ok(_) => panic!("agent config should reject a missing microphone gate field"),
        Err(error) => error.message(),
    };

    assert!(error.contains("microphone_delta_gate_field"));
    assert!(error.contains("references missing field"));
}

#[test]
fn lib_agent_config_rejects_missing_microphone_gate_field() {
    check_rejects_missing_gate_field();
}

#[test]
fn main_agent_config_rejects_missing_microphone_gate_field() {
    check_rejects_missing_gate_field();
}

fn check_extracts_output_text() {
    let value = object(vec![(
        "output",
        JsonValue::Array(vec![object(vec![
            ("type", text("message")),
            (
                "content",
                JsonValue::Array(vec![object(vec![
                    ("type", text("output_text")),
                    ("text", text("{\"mode\":\"insight\",\"text\":\"Watch the deadline.\"}")),
                ])]),
            ),
        ])]),
    )]);

    assert_eq!(
        extract_response_text(&value).as_deref(),
        Some("{\"mode\":\"insight\",\"text\":\"Watch the deadline.\"}")
    );
}

#[test]
fn lib_extracts_responses_api_output_text() {
    check_extracts_output_text();
}

#[test]
fn main_extracts_responses_api_output_text() {
    check_extracts_output_text();
}

fn check_extracts_usage() {
    let value = object(vec![(
        "usage",
        object(vec![
            ("input_tokens", JsonValue::Int(120)),
            ("output_tokens", JsonValue::Int(30)),
            ("total_tokens", JsonValue::Int(150)),
        ]),
    )]);

    assert_eq!(
        extract_agent_usage(&value),
        Some(AgentUsage { input_tokens: 120, output_tokens: 30, total_tokens: 150 })
    );
}

#[test]
fn lib_extracts_responses_api_usage() {
    check_extracts_usage();
}

#[test]
fn main_extracts_responses_api_usage() {
    check_extracts_usage();
}

fn empty_questions() -> JsonValue {
    object(vec![("unanswered_questions", JsonValue::Array(vec![]))])
}

fn check_gate_skips_empty_revisions() {
    let previous = input("We should decide soon.", None);
    let current = input("We should decide soon...", None);

    assert!(!agent_input_has_informative_delta(
        &current,
        Some(&previous),
        &empty_questions(),
        Some("unanswered_questions")
    ));
}

#[test]
fn lib_agent_delta_gate_skips_empty_revisions() {
    check_gate_skips_empty_revisions();
}

#[test]
fn main_agent_delta_gate_skips_empty_revisions() {
    check_gate_skips_empty_revisions();
}

fn check_gate_skips_mic_only_changes() {
    let previous = input("Can we discuss the launch?", Some("Yes."));
    let current = input("Can we discuss the launch?", Some("Yes. The launch is on track."));

    assert!(!agent_input_has_informative_delta(
        &current,
        Some(&previous),
        &empty_questions(),
        Some("unanswered_questions")
    ));
}

#[test]
fn lib_agent_delta_gate_skips_mic_only_changes_without_questions() {
    check_gate_skips_mic_only_changes();
}

#[test]
fn main_agent_delta_gate_skips_mic_only_changes_without_questions() {
    check_gate_skips_mic_only_changes();
}

fn check_gate_allows_open_questions() {
    let previous = input("When is the launch?", Some("Let me check."));
    let current = input("When is the launch?", Some("Let me check. It is planned for Friday."));
    let state = object(vec![
        ("critical_hints", text("Answer with the date.")),
        ("unanswered_questions", JsonValue::Array(vec![text("When is the launch?")])),
        ("conversation_value", text("Useful planning.")),
    ]);

    assert!(agent_input_has_informative_delta(&current, Some(&previous), &state, Some("unanswered_questions")));
}

#[test]
fn lib_agent_delta_gate_allows_mic_only_changes_when_questions_are_open() {
    check_gate_allows_open_questions();
}

#[test]
fn main_agent_delta_gate_allows_mic_only_changes_when_questions_are_open() {
    check_gate_allows_open_questions();
}

fn check_settings_defaults() {
    // The saved file holds only `clipboard_enabled`; every other field takes
    // its default, and a missing flush mode is no flush mode.
    let settings = EnhancedTypingSettings { clipboard_enabled: false, flush_mode: None, ..EnhancedTypingSettings::default() };

    assert!(settings.intelligence_enabled);
    assert!(!settings.clipboard_enabled);
    assert_eq!(settings.flush_mode(), TypingFlushMode::Discard);
    assert_eq!(settings.input_source, SourceKind::Microphone);
    assert_eq!(settings.transparency_label, "opaque");
    assert_eq!(settings.typing_speed_label, "normal");
    assert_eq!(settings.refiner_model, "gpt-5.6-terra");
}

#[test]
fn lib_enhanced_typing_settings_default_missing_fields() {
    check_settings_defaults();
}

#[test]
fn main_enhanced_typing_settings_default_missing_fields() {
    check_settings_defaults();
}

#[test]
fn typing_outputs_accumulate_until_flush() {
    let mut state = test_typing_state("");
    state.typing.flush_mode = TypingFlushMode::Discard;

    state.typing.apply_output(
        "hello".to_string(),
        "Hello.".to_string(),
        "cleaned".to_string(),
        "draft updated".to_string(),
        1,
    );
    state.typing.apply_output(
        "world".to_string(),
        "World.".to_string(),
        "cleaned".to_string(),
        "draft updated".to_string(),
        2,
    );

    assert_eq!(state.typing.last_typed_text, "Hello. World.");
    assert_eq!(typing_display_text(&state.typing), "Hello. World.");
    assert_eq!(state.typing.flush(3), TypingFlushOutcome::Completed);
    assert!(state.typing.last_typed_text.is_empty());
}

#[test]
fn typing_clear_content_and_exit_confirmation_are_visible() {
    let mut state = test_typing_state("Hello.");

    state.typing.clear_content(1);
    assert!(state.typing.last_typed_text.is_empty());
    assert_eq!(state.typing.paste_status, "cleared");
    assert_eq!(typing_display_text(&state.typing), "Speak, then pause.");

    state.typing.request_exit_confirmation(2);
    assert!(state.typing.exit_confirmation_open);
    assert_eq!(typing_display_text(&state.typing), "Press Esc again to exit.");

    state.typing.cancel_exit_confirmation(3);
    assert!(!state.typing.exit_confirmation_open);
    assert_eq!(state.typing.paste_status, "ready");
}

#[test]
fn typing_speed_persists_with_settings() {
    let mut state = test_typing_state("");
    state.typing.typing_speed_index = 3;

    let settings = state.typing.persisted_settings();

    assert_eq!(settings.typing_speed_label, typing_speed_preset(3).label);
}

#[test]
fn typing_flush_waits_for_pending_phrase() {
    let mut state = test_typing_state("Ready to send.");
    state.typing.request_in_flight = true;
    state.typing.flush_mode = TypingFlushMode::Clipboard;

    assert_eq!(state.typing.flush(1), TypingFlushOutcome::PendingRequest);
    assert_eq!(state.typing.last_typed_text, "Ready to send.");
    assert_eq!(state.typing.paste_status, "waiting for current phrase");

    state.typing.flush_mode = TypingFlushMode::Type;
    assert_eq!(state.typing.flush(2), TypingFlushOutcome::PendingRequest);
    assert_eq!(state.typing.last_typed_text, "Ready to send.");
}

#[test]
fn empty_agent_state_is_valid_and_preserved_fields_use_canonical_state() {
    let mut answer = field("answer_guidance", "Answer", "text", "#FFFFFF", "#FFFFFF", string_schema());
    answer.empty = Some("none".to_string());
    answer.preserve_on_empty = true;
    let parsed = match parse_agent_config(&raw_config(vec![answer])) {
        Ok(parsed) => parsed,
        Err(_) => panic!("agent config should parse"),
    };
    let empty = object(vec![("answer_guidance", text(""))]);
    assert!(agent_result_matches_fields(&empty, &parsed.fields));

    let current = object(vec![("answer_guidance", text("A useful answer."))]);
    let canonical = canonical_agent_result(&parsed.fields, &current, empty);
    assert_eq!(
        canonical.get("answer_guidance").and_then(|v| v.as_str()).map(|s| s.as_str()),
        Some("A useful answer.")
    );
}

#[test]
fn stale_agent_output_counts_usage_without_repopulating_fields() {
    let raw = raw_config(vec![field("answer_guidance", "Answer", "text", "#FFFFFF", "#FFFFFF", string_schema())]);
    let parsed = match parse_agent_config(&raw) {
        Ok(parsed) => parsed,
        Err(_) => panic!("agent config should parse"),
    };
    let mut state = test_typing_state("");
    state.agent.fields = default_agent_fields(&parsed.fields);
    state.agent_generation = 1;

    let outcome = state.apply(
        UiEvent::AgentOutput {
            result: object(vec![("answer_guidance", text("stale"))]),
            successful_input: input("stale context", None),
            usage: Some(AgentUsage { input_tokens: 10, output_tokens: 5, total_tokens: 15 }),
            force_hints: true,
            elapsed_ms: 100,
            generation: 0,
        },
        1000,
    );
    assert!(outcome.changed);
    assert!(state.agent.fields[0].lines.is_empty());
    assert_eq!(state.agent.total_tokens, 15);
}

#[test]
fn stale_whisper_transcript_does_not_repopulate_after_refresh() {
    let mut state = test_typing_state("");
    state.agent_generation = 1;

    let outcome = state.apply(
        UiEvent::Transcript {
            source: SourceKind::SystemOutput,
            text: "stale context".to_string(),
            elapsed_ms: 100,
            generation: 0,
        },
        1000,
    );
    assert!(!outcome.changed);
    assert!(state.microphone_transcript.is_none());
    assert!(state.system_transcript.is_none());
}

fn check_typing_layout_keeps_blank_row_above_footer() {
    let state = test_typing_state("Hello. This is just a test.");
    let layout = typing_layout(&state.typing, TYPING_MAX_CONTENT_WIDTH as usize, 8);

    assert_eq!(layout.visible_lines.len(), 2);
    assert!(layout.visible_lines[0]
        .segments
        .iter()
        .any(|segment| segment.text == "Hello. This is just a test."));
    assert_eq!(styled_line_width(&layout.visible_lines[1]), 0);
    assert_eq!(layout.height, 3);
}

#[test]
fn lib_typing_layout_keeps_blank_row_above_footer() {
    check_typing_layout_keeps_blank_row_above_footer();
}

#[test]
fn main_typing_layout_keeps_blank_row_above_footer() {
    check_typing_layout_keeps_blank_row_above_footer();
}

fn check_typing_status_state_changes_do_not_resize_width() {
    let mut state = test_typing_state("");
    let hold = typing_layout(&state.typing, TYPING_MAX_CONTENT_WIDTH as usize, 8);

    state.typing.microphone_active = true;
    let listening = typing_layout(&state.typing, TYPING_MAX_CONTENT_WIDTH as usize, 8);

    assert!(hold.content_width as usize >= min_typing_status_width());
    assert_eq!(hold.content_width, listening.content_width);
    assert_eq!(hold.width, listening.width);
    assert_eq!(hold.height, listening.height);
}

#[test]
fn lib_typing_status_state_changes_do_not_resize_width() {
    check_typing_status_state_changes_do_not_resize_width();
}

#[test]
fn main_typing_status_state_changes_do_not_resize_width() {
    check_typing_status_state_changes_do_not_resize_width();
}

#[test]
fn transcription_requests_disable_response_storage() {
    let config = AgentConfig::disabled("gpt-5.6-terra".to_string());
    let request_input = input("What is the deadline?", None);
    let payload = agent_request_payload(&config, &request_input, None, &object(vec![]), None);
    assert!(payload.get("answer_mode").is_some());
    let body = agent_request_body(&config, agent_developer_instructions(&config, false), "{}".to_string());

    assert!(matches!(body.get("store"), Some(JsonValue::Bool(false))));
}

#[test]
fn request_body_carries_model_schema_and_token_limit() {
    let config = AgentConfig::disabled("gpt-5.6-terra".to_string());
    let body = agent_request_body(&config, "Be brief.".to_string(), "{\"a\":1}".to_string());
    assert!(matches!(body.get("model").and_then(|m| m.as_str()), Some(m) if m == "gpt-5.6-terra"));
    assert!(matches!(body.get("max_output_tokens").and_then(|m| m.as_u64()), Some(n) if n == config.max_output_tokens));
    let format = body.get("text").and_then(|t| t.get("format"));
    assert!(matches!(format.and_then(|f| f.get("name")).and_then(|n| n.as_str()), Some(n) if n == "enchanted_transcription_agent"));
    match body.get("input").and_then(|i| i.as_array()) {
        Some(items) => {
            assert_eq!(items.len(), 2);
            assert!(matches!(items[1].get("role").and_then(|r| r.as_str()), Some(r) if r == "user"));
        },
        None => panic!("input should be an array"),
    }
}

#[test]
fn reference_documents_are_checked_for_size_and_content() {
    assert!(check_reference_name("notes.md").is_ok());
    assert!(matches!(check_reference_name(" notes.md"), Err(ReferenceError::InvalidName)));
    assert!(matches!(check_reference_name("../notes.md"), Err(ReferenceError::InvalidName)));
    assert!(check_reference_content("notes.md", 10, "hello").is_ok());
    match check_reference_content("notes.md", 40000, "hello") {
        Err(e) => assert_eq!(e.message(), "notes.md is 40000 bytes; the limit is 32768 bytes"),
        Ok(()) => panic!("too large"),
    }
    let big = "é".repeat(16385);
    match check_reference_content("notes.md", 10, &big) {
        Err(e) => assert_eq!(e.message(), "notes.md changed while loading and exceeds the 32768 byte limit"),
        Ok(()) => panic!("changed"),
    }
    assert!(check_reference_content("notes.md", 10, &"é".repeat(16384)).is_ok());
    match check_reference_content("notes.md", 10, "  \n ") {
        Err(e) => assert_eq!(e.message(), "notes.md is empty"),
        Ok(()) => panic!("empty"),
    }
}

#[test]
fn agent_instructions_add_reference_policy_only_with_a_document() {
    let config = AgentConfig::disabled("gpt-5.6-terra".to_string());
    let without = agent_developer_instructions(&config, false);
    let with = agent_developer_instructions(&config, true);
    assert_eq!(without, config.instructions);
    assert!(with.starts_with(&without));
    assert!(with.contains("## Reference context policy"));
}
