use speech_agent_core::agent::{
    agent_input_signature, agent_retry_delay, has_explicit_system_question_delta,
    source_updates_agent, AgentInput,
};
use speech_agent_core::layout::{
    chunk_text, fit_line, fit_line_fragment, min_typing_status_width, typing_desired_width,
    typing_safe_row_width, typing_window_width, wrap_line, wrap_plain_text,
    TYPING_MAX_CONTENT_WIDTH, TYPING_RIGHT_GUTTER_COLS,
};
use speech_agent_core::modes::{typing_transparency_presets, SourceKind, TypingTransparencyBackground};
use speech_agent_core::stream::{
    agent_update_input, stream_silence_elapsed, typing_submission_text, typing_update_text,
    StreamingSourceState, SILENCE_BREAK_AFTER_MS,
};
use std::time::Duration;

fn check_window_width(status_text: &str) {
    let status_width = status_text.len();
    let content_width =
        typing_desired_width("short", status_width, TYPING_MAX_CONTENT_WIDTH as usize);
    assert!(usize::from(content_width) >= status_width);
    assert_eq!(
        typing_window_width(content_width),
        content_width + TYPING_RIGHT_GUTTER_COLS
    );

    let capped_content_width =
        typing_desired_width(&"x".repeat(200), 0, TYPING_MAX_CONTENT_WIDTH as usize);
    assert_eq!(capped_content_width, TYPING_MAX_CONTENT_WIDTH);
    assert_eq!(
        typing_window_width(capped_content_width),
        TYPING_MAX_CONTENT_WIDTH + TYPING_RIGHT_GUTTER_COLS
    );
}

#[test]
fn lib_typing_window_width_keeps_gutter_outside_content() {
    check_window_width("F1 Flush/Show | Esc Clear | F9 Settings | requests 0 | listening...");
}

#[test]
fn main_typing_window_width_keeps_gutter_outside_content() {
    check_window_width("F9 Settings | listening...");
}

fn check_safe_row_width() {
    assert_eq!(typing_safe_row_width(0), 0);
    assert_eq!(typing_safe_row_width(1), 0);
    assert_eq!(typing_safe_row_width(2), 1);
    assert_eq!(typing_safe_row_width(80), 79);
}

#[test]
fn lib_typing_render_width_never_uses_last_terminal_column() {
    check_safe_row_width();
}

#[test]
fn main_typing_render_width_never_uses_last_terminal_column() {
    check_safe_row_width();
}

fn check_wrap_long_sentences() {
    let wrapped = wrap_plain_text(
        "This is a long typed sentence that should wrap cleanly without corrupting the status row.",
        18,
    );
    assert!(wrapped.len() > 1);
    assert!(wrapped.iter().all(|line| line.chars().count() <= 18));

    let wrapped_word = wrap_plain_text("supercalifragilisticexpialidocious", 8);
    assert!(wrapped_word.len() > 1);
    assert!(wrapped_word.iter().all(|line| line.chars().count() <= 8));
}

#[test]
fn lib_typing_wrap_keeps_long_sentences_inside_width() {
    check_wrap_long_sentences();
}

#[test]
fn main_typing_wrap_keeps_long_sentences_inside_width() {
    check_wrap_long_sentences();
}

fn check_blurry_presets() {
    let presets = typing_transparency_presets();
    assert!(presets
        .iter()
        .any(|preset| preset.background == TypingTransparencyBackground::Blurry));
    assert!(presets.iter().any(|preset| preset.label == "clear 55%"));
    assert!(presets.iter().any(|preset| preset.label == "blurry 55%"));

    let blurry = presets
        .iter()
        .find(|preset| preset.label == "blurry 55%")
        .expect("blurry preset should exist");
    assert_eq!(blurry.background.powershell_switch(), "-Acrylic");
}

#[test]
fn lib_typing_transparency_presets_include_blurry_modes() {
    check_blurry_presets();
}

#[test]
fn main_typing_transparency_presets_include_blurry_modes() {
    check_blurry_presets();
}

fn check_signature(generation: u64) {
    let signature = agent_input_signature(&AgentInput {
        system_transcript: "What is the deadline?".to_string(),
        microphone_transcript: Some("I can answer that.".to_string()),
        force: false,
        generation,
    });

    assert!(signature.contains("system:What is the deadline?"));
    assert!(signature.contains("mic:I can answer that."));
}

#[test]
fn lib_agent_input_signature_labels_sources() {
    check_signature(0);
}

#[test]
fn main_agent_input_signature_labels_sources() {
    check_signature(0);
}

#[test]
fn microphone_snapshots_publish_only_when_context_sharing_is_enabled() {
    assert!(source_updates_agent(SourceKind::SystemOutput, false));
    assert!(!source_updates_agent(SourceKind::Microphone, false));
    assert!(source_updates_agent(SourceKind::Microphone, true));
}

#[test]
fn agent_retry_backoff_is_bounded() {
    assert_eq!(Duration::from_secs(agent_retry_delay(1)), Duration::from_secs(2));
    assert_eq!(Duration::from_secs(agent_retry_delay(2)), Duration::from_secs(4));
    assert_eq!(Duration::from_secs(agent_retry_delay(3)), Duration::from_secs(8));
    assert_eq!(Duration::from_secs(agent_retry_delay(20)), Duration::from_secs(8));
}

#[test]
fn short_utterance_reaches_silence_flush_deadline() {
    let last_voice_at: u64 = 50_000;
    let before_deadline = last_voice_at + SILENCE_BREAK_AFTER_MS - 1;
    let at_deadline = last_voice_at + SILENCE_BREAK_AFTER_MS;

    assert!(!stream_silence_elapsed(
        true,
        Some(last_voice_at),
        before_deadline,
        SILENCE_BREAK_AFTER_MS,
    ));
    assert!(stream_silence_elapsed(
        true,
        Some(last_voice_at),
        at_deadline,
        SILENCE_BREAK_AFTER_MS,
    ));
    assert!(!stream_silence_elapsed(
        false,
        Some(last_voice_at),
        at_deadline,
        SILENCE_BREAK_AFTER_MS,
    ));
}

#[test]
fn typing_submission_strips_previous_hypothesis_prefix() {
    let mut stream = StreamingSourceState::new(16_000);
    stream
        .history
        .push("Hi. Hello. This is just a test.".to_string());
    stream.best_text = "Hi. Hello. This is just a test. Now write only this sentence.".to_string();

    assert_eq!(
        typing_submission_text(&stream).as_deref(),
        Some("Now write only this sentence.")
    );
}

#[test]
fn retry_delay_grows_then_stays_at_cap() {
    assert_eq!(agent_retry_delay(0), 2);
    for retry in 3..40 {
        assert_eq!(agent_retry_delay(retry), 8);
    }
}

#[test]
fn wrap_line_keeps_indentation_and_chunks_long_words() {
    assert_eq!(wrap_line("  alpha beta gamma", 12), vec!["  alpha beta", "  gamma"]);
    assert_eq!(wrap_line("\tx", 10), vec!["    x"]);
    assert_eq!(wrap_line("abcdefghij", 4), vec!["abcd", "efgh", "ij"]);
    assert_eq!(wrap_line("one abcdefghij", 6), vec!["one", "abcdef", "ghij"]);
    assert_eq!(wrap_line("   ", 5), vec![""]);
    assert!(wrap_line("anything", 0).is_empty());
}

#[test]
fn chunk_text_cuts_fixed_width_pieces() {
    assert_eq!(chunk_text("abcdefg", 3), vec!["abc", "def", "g"]);
    assert_eq!(chunk_text("abcdef", 3), vec!["abc", "def"]);
    assert!(chunk_text("", 3).is_empty());
    assert!(chunk_text("abc", 0).is_empty());
}

#[test]
fn wrap_plain_text_wraps_each_line() {
    assert_eq!(wrap_plain_text("a b\r\n  c d  \n", 3), vec!["a b", "c d"]);
    assert_eq!(wrap_plain_text("", 10), vec![""]);
    assert_eq!(wrap_plain_text("one\n\ntwo", 10), vec!["one", "", "two"]);
}

#[test]
fn fit_line_pads_or_cuts() {
    assert_eq!(fit_line("abc", 5), "abc  ");
    assert_eq!(fit_line("abcdef", 4), "abcd");
    assert_eq!(fit_line("abc", 0), "");
    assert_eq!(fit_line_fragment("abcdef", 4), "abcd");
    assert_eq!(fit_line_fragment("ab", 4), "ab");
}

#[test]
fn desired_width_respects_minimum_and_lines() {
    assert_eq!(typing_desired_width("short\nmuch longer line here", 0, 72), 21);
    assert_eq!(typing_desired_width("", 0, 72), 16);
    assert_eq!(typing_desired_width("abc", 30, 72), 30);
    assert_eq!(typing_desired_width("abc", 30, 0), 1);
    assert_eq!(typing_window_width(0), 16);
    assert_eq!(typing_window_width(u16::MAX), 77);
    assert_eq!(
        min_typing_status_width(),
        "F1 Flush/Show | Esc Clear | F9 Settings | requests 0 | \u{25cf} listening..."
            .chars()
            .count()
    );
}

#[test]
fn system_question_delta_needs_a_new_question_mark() {
    let previous = AgentInput {
        system_transcript: "We need the answer".to_string(),
        microphone_transcript: None,
        force: false,
        generation: 0,
    };
    let asked = AgentInput {
        system_transcript: "We need the answer. Can you do it by Friday?".to_string(),
        microphone_transcript: None,
        force: false,
        generation: 0,
    };
    assert!(has_explicit_system_question_delta(&asked, Some(&previous)));
    assert!(!has_explicit_system_question_delta(&previous, Some(&previous)));
}

#[test]
fn finishing_a_block_keeps_the_full_text() {
    let mut stream = StreamingSourceState::new(100);
    stream.best_text = "  First block. ".to_string();
    let before = stream.full_text();
    assert!(stream.finish_current_block(200));
    assert_eq!(stream.full_text(), before);
    assert_eq!(stream.history, vec!["First block.".to_string()]);
    assert_eq!(stream.last_voice_at_ms, None);
    stream.best_text = "Second".to_string();
    assert_eq!(stream.full_text(), "First block.\n\nSecond");
}

#[test]
fn agent_update_needs_some_transcript() {
    let system = StreamingSourceState::new(0);
    let mut mic = StreamingSourceState::new(0);
    assert!(agent_update_input(Some(&system), Some(&mic), true, false, 3).is_none());
    mic.best_text = "hello".to_string();
    let input = agent_update_input(Some(&system), Some(&mic), true, true, 3).unwrap();
    assert_eq!(input.system_transcript, "");
    assert_eq!(input.microphone_transcript.as_deref(), Some("hello"));
    assert!(input.force);
    assert_eq!(input.generation, 3);
    assert!(agent_update_input(Some(&system), Some(&mic), false, false, 3).is_none());
    assert_eq!(typing_update_text("  hi  ").as_deref(), Some("hi"));
    assert_eq!(typing_update_text("   "), None);
}
