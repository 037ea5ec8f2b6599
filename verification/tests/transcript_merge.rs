use speech_agent_core::blocks::{align_transcript_words, TranscriptState, TranscriptWord};
use speech_agent_core::delta::{append_typing_text, is_informative_text, new_text_since};
use speech_agent_core::transcript::merge_transcript_estimate;

fn check_rolling_window() {
    let mut estimate = String::new();
    for current in [
        "Hello.",
        "Yes, very well, how are you?",
        "Hello. Yes, very well, how are you? Well, I was thinking that maybe we can do something about that.",
        "Well, I was thinking that maybe we could do something about it.",
    ] {
        estimate = merge_transcript_estimate(&estimate, current);
    }

    assert!(estimate.starts_with("Hello. Yes, very well, how are you?"));
    assert!(estimate.contains("maybe we could do something about it."));
    assert_eq!(estimate.matches("Hello.").count(), 1);
}

#[test]
fn lib_rolling_window_estimates_replace_overlapping_tail() {
    check_rolling_window();
}

#[test]
fn main_rolling_window_estimates_replace_overlapping_tail() {
    check_rolling_window();
}

fn check_longer_compound() {
    let estimate = merge_transcript_estimate(
        "Hello. Yes, very well, how are you?",
        "Hello. Yes, very well, how are you? Well, I was thinking.",
    );

    assert_eq!(
        estimate,
        "Hello. Yes, very well, how are you? Well, I was thinking."
    );
}

#[test]
fn lib_longer_compound_window_replaces_previous_shorter_estimate() {
    check_longer_compound();
}

#[test]
fn main_longer_compound_window_replaces_previous_shorter_estimate() {
    check_longer_compound();
}

fn check_newer_shared_prefix() {
    let estimate = merge_transcript_estimate(
        "Hi, hello. How are you? Well, I would just...",
        "Hi, hello. How are you? Well, I was just thinking how to...",
    );

    assert_eq!(
        estimate,
        "Hi, hello. How are you? Well, I was just thinking how to..."
    );
}

#[test]
fn lib_newer_shared_prefix_replaces_revised_tail() {
    check_newer_shared_prefix();
}

#[test]
fn main_newer_shared_prefix_replaces_revised_tail() {
    check_newer_shared_prefix();
}

fn check_compact_restarted_prefix() {
    let estimate = merge_transcript_estimate(
        "",
        "Hi, hello. How are you? Well, I would just... Hi, hello. How are you? Well, I was just thinking how to...",
    );

    assert_eq!(
        estimate,
        "Hi, hello. How are you? Well, I was just thinking how to..."
    );
}

#[test]
fn lib_compact_restarted_prefix_inside_single_hypothesis() {
    check_compact_restarted_prefix();
}

#[test]
fn main_compact_restarted_prefix_inside_single_hypothesis() {
    check_compact_restarted_prefix();
}

fn check_compact_internal_revision() {
    let estimate = merge_transcript_estimate(
        "",
        "Hey, hello. What were you? I was just looking into it. I was just looking into getting something done.",
    );

    assert_eq!(
        estimate,
        "Hey, hello. What were you? I was just looking into getting something done."
    );
}

#[test]
fn lib_compact_internal_repeated_revision_inside_single_hypothesis() {
    check_compact_internal_revision();
}

#[test]
fn main_compact_internal_repeated_revision_inside_single_hypothesis() {
    check_compact_internal_revision();
}

fn check_word_alignment() {
    let old_time: u64 = 1_000;
    let new_time: u64 = 91_000;
    let existing = vec![
        TranscriptWord {
            text: "Hello".to_string(),
            first_seen: old_time,
        },
        TranscriptWord {
            text: "there".to_string(),
            first_seen: old_time,
        },
    ];

    let aligned = align_transcript_words(&existing, "Hello there again", new_time);

    assert_eq!(aligned[0].first_seen, old_time);
    assert_eq!(aligned[1].first_seen, old_time);
    assert_eq!(aligned[2].first_seen, new_time);
}

#[test]
fn lib_transcript_word_alignment_preserves_stable_prefix_age() {
    check_word_alignment();
}

#[test]
fn main_transcript_word_alignment_preserves_stable_prefix_age() {
    check_word_alignment();
}

fn check_transcript_break() {
    let now: u64 = 5_000;
    let mut transcript = TranscriptState::new();
    {
        let block = transcript.current_block_mut();
        block.text = "First speech block.".to_string();
        block.words = align_transcript_words(&Vec::new(), &block.text, now);
    }

    assert!(transcript.add_break());
    {
        let block = transcript.current_block_mut();
        block.text = "Second speech block.".to_string();
        block.words = align_transcript_words(&Vec::new(), &block.text, now);
    }

    assert_eq!(
        transcript.text(),
        "First speech block.\n\nSecond speech block."
    );
}

#[test]
fn lib_transcript_break_preserves_previous_blocks() {
    check_transcript_break();
}

#[test]
fn main_transcript_break_preserves_previous_blocks() {
    check_transcript_break();
}

fn check_new_text_suffix() {
    assert_eq!(
        new_text_since(
            Some("We need the answer"),
            "We need the answer by Friday.",
            100
        ),
        "by Friday."
    );
}

#[test]
fn lib_new_text_since_returns_suffix_for_extended_transcript() {
    check_new_text_suffix();
}

#[test]
fn main_new_text_since_returns_suffix_for_extended_transcript() {
    check_new_text_suffix();
}

fn check_new_text_revision() {
    assert_eq!(
        new_text_since(
            Some("We need the answer by Thursday."),
            "We need the answer by Friday.",
            100
        ),
        "Friday."
    );
}

#[test]
fn lib_new_text_since_returns_revised_tail_after_whisper_revision() {
    check_new_text_revision();
}

#[test]
fn main_new_text_since_returns_revised_tail_after_whisper_revision() {
    check_new_text_revision();
}

#[test]
fn new_text_since_ignores_punctuation_and_case_in_existing_prefix() {
    assert_eq!(
        new_text_since(Some("Hello, world."), "hello world again today.", 100),
        "again today."
    );
    assert_eq!(
        new_text_since(Some("Hello, world."), "hello world", 100),
        ""
    );
}

fn check_informative() {
    assert!(!is_informative_text("..."));
    assert!(!is_informative_text("uh"));
    assert!(is_informative_text("Any updates?"));
    assert!(is_informative_text("need answer"));
}

#[test]
fn lib_informative_text_ignores_tiny_churn() {
    check_informative();
}

#[test]
fn main_informative_text_ignores_tiny_churn() {
    check_informative();
}

#[test]
fn typing_append_replaces_revised_tail_instead_of_duplicating() {
    let mut draft =
        "Hey, hello, this is just a test. Ah, very good. This again is the second.".to_string();
    append_typing_text(
        &mut draft,
        "Oh, very good. This, again, is the second test.",
    );

    assert_eq!(
        draft,
        "Hey, hello, this is just a test. Ah, very good. This, again, is the second test."
    );
}
