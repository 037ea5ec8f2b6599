//! Saved settings of both products: their defaults, their normalization on
//! load, the settings that need a restart, and the transcription settings
//! screen with its pending changes.
use vstd::prelude::*;

use crate::choices::{
    cycle_context_file, cycle_context_spec, cycle_num_spec, cycle_sources_spec, cycle_str_choice,
    cycle_str_spec, cycle_transcription_sources, cycle_u64_choice, cycle_usize_choice,
    hidden_exit_choices, hidden_pause_choices, idle_exit_choices, index_ci, language_choices,
    model_id_choices, session_choices, token_budget_choices, window_choices,
};
use crate::layout::string_seqs;
use crate::modes::{
    cycled, transparency_preset_spec, typing_transparency_preset, ContextStrictness, SourceKind,
    TranscriptionAnswerMode, TypingFlushMode, TypingSettingDirection,
    TYPING_TRANSPARENCY_PRESET_COUNT,
};
use crate::normalize::{
    compatible_model_spec, default_language, default_model_for_language_spec, default_sources,
    language_option_spec, normalize_language_spec, normalize_model_id_spec,
    normalize_model_name_spec, normalize_sources_spec, transparency_index_spec,
};
use crate::text::{chars_of, lower_seq, string_of, trim, trim_vec};

verus! {

/// Default transcription window, in seconds.
pub const DEFAULT_CHUNK_SECONDS: usize = 12;

/// Default fade time of transcript text, in seconds.
pub const DEFAULT_TEXT_FADE_SECONDS: u64 = 70;

/// Default hidden pause delay, in seconds.
pub const DEFAULT_HIDDEN_PAUSE_SECONDS: u64 = 15;

/// Default hidden exit delay, in minutes.
pub const DEFAULT_HIDDEN_EXIT_MINUTES: u64 = 15;

/// Default idle exit delay, in minutes.
pub const DEFAULT_IDLE_EXIT_MINUTES: u64 = 30;

/// Default session limit, in minutes.
pub const DEFAULT_SESSION_MINUTES: u64 = 240;

/// Default agent token budget.
pub const DEFAULT_AGENT_TOKEN_BUDGET: u64 = 100_000;

/// Number of rows of the transcription settings screen.
pub const TRANSCRIPTION_SETTINGS_OPTION_COUNT: usize = 17;

// ---------------------------------------------------------------------------
// Enhanced typing settings
// ---------------------------------------------------------------------------

/// Saved settings of enhanced typing.
pub struct EnhancedTypingSettings {
    pub intelligence_enabled: bool,
    pub clipboard_enabled: bool,
    pub flush_mode: Option<TypingFlushMode>,
    pub input_source: SourceKind,
    pub transparency_label: String,
    pub typing_speed_label: String,
    pub refiner_model: String,
}

impl Default for EnhancedTypingSettings {
    fn default() -> (r: Self)
        ensures
            r.intelligence_enabled,
            r.clipboard_enabled,
            r.flush_mode == Some(TypingFlushMode::Clipboard),
            r.input_source == SourceKind::Microphone,
            r.transparency_label@ == "opaque"@,
            r.typing_speed_label@ == "normal"@,
            r.refiner_model@ == "gpt-5.6-terra"@,
    {
        EnhancedTypingSettings {
            intelligence_enabled: true,
            clipboard_enabled: true,
            flush_mode: Some(TypingFlushMode::Clipboard),
            input_source: SourceKind::Microphone,
            transparency_label: string_of(&chars_of("opaque")),
            typing_speed_label: string_of(&chars_of("normal")),
            refiner_model: string_of(&chars_of("gpt-5.6-terra")),
        }
    }
}

impl EnhancedTypingSettings {
    /// The flush mode: the saved one, or the one the older clipboard switch
    /// implies.
    pub fn flush_mode(&self) -> (r: TypingFlushMode)
        ensures
            r == (match self.flush_mode {
                Some(m) => m,
                None => if self.clipboard_enabled {
                    TypingFlushMode::Clipboard
                } else {
                    TypingFlushMode::Discard
                },
            }),
    {
        match self.flush_mode {
            Some(m) => m,
            None => if self.clipboard_enabled {
                TypingFlushMode::Clipboard
            } else {
                TypingFlushMode::Discard
            },
        }
    }
}

// ---------------------------------------------------------------------------
// Reference documents
// ---------------------------------------------------------------------------

/// Position of the last `.`, or -1.
pub open spec fn last_dot(t: Seq<char>) -> int
    decreases t.len(),
{
    if t.len() == 0 {
        -1
    } else if t.last() == '.' {
        t.len() - 1
    } else {
        last_dot(t.drop_last())
    }
}

/// Whether a name is one plain path component on Windows: no separator, no
/// drive prefix, not `.` or `..`.
pub open spec fn single_component(t: Seq<char>) -> bool {
    &&& !t.contains('/')
    &&& !t.contains('\\')
    &&& t != "."@
    &&& t != ".."@
    &&& !(t.len() >= 2 && t[1] == ':' && (('a' <= t[0] && t[0] <= 'z') || ('A' <= t[0] && t[0] <= 'Z')))
}

/// Whether a name has a supported extension (`md`, `txt`, `json`, `csv`,
/// ignoring ASCII case) after a dot that is not its first character.
pub open spec fn supported_extension(t: Seq<char>) -> bool {
    let p = last_dot(t);
    let ext = lower_seq(t.skip(p + 1));
    p >= 1 && (ext == "md"@ || ext == "txt"@ || ext == "json"@ || ext == "csv"@)
}

/// A reference document name: trimmed, one plain file name with a supported
/// extension.
pub open spec fn context_name_spec(value: Seq<char>) -> Option<Seq<char>> {
    let t = trim(value);
    if t.len() > 0 && single_component(t) && supported_extension(t) {
        Some(t)
    } else {
        None
    }
}

fn last_dot_exec(t: &Vec<char>) -> (r: usize)
    ensures
        r as int == last_dot(t@) + 1,
        r <= t@.len(),
{
    let mut i: usize = t.len();
    assert(t@.take(t.len() as int) =~= t@);
    while i > 0 && t[i - 1] != '.'
        invariant
            i <= t.len(),
            last_dot(t@) == last_dot(t@.take(i as int)),
        decreases i,
    {
        assert(t@.take(i as int).drop_last() =~= t@.take(i - 1));
        i -= 1;
    }
    if i > 0 {
        assert(t@.take(i as int).last() == t@[i - 1]);
    }
    i
}

/// Validates a reference document name; see `context_name_spec`.
pub fn normalize_context_file_name(value: &str) -> (r: Option<String>)
    ensures
        match r {
            Some(s) => context_name_spec(value@) == Some(s@),
            None => context_name_spec(value@) is None,
        },
{
    let t = trim_vec(&chars_of(value));
    if t.len() == 0 {
        return None;
    }
    if crate::text::contains_char(&t, '/') || crate::text::contains_char(&t, '\\') {
        return None;
    }
    if crate::normalize::is_text(&t, ".") || crate::normalize::is_text(&t, "..") {
        return None;
    }
    if t.len() >= 2 && t[1] == ':' && (('a' <= t[0] && t[0] <= 'z') || ('A' <= t[0] && t[0] <= 'Z')) {
        return None;
    }
    let p = last_dot_exec(&t);
    if p < 2 {
        return None;
    }
    let ext = crate::text::to_ascii_lowercase(&crate::text::sub_vec(&t, p, t.len()));
    assert(t@.skip(p as int) =~= t@.subrange(p as int, t@.len() as int));
    if crate::normalize::is_text(&ext, "md") || crate::normalize::is_text(&ext, "txt") || crate::normalize::is_text(&ext, "json")
        || crate::normalize::is_text(&ext, "csv") {
        Some(string_of(&t))
    } else {
        None
    }
}

// ---------------------------------------------------------------------------
// Transcription settings
// ---------------------------------------------------------------------------

/// Saved settings of live transcription.
pub struct EnchantedTranscriptionSettings {
    pub sources: Vec<SourceKind>,
    pub language: String,
    pub model: String,
    pub chunk_seconds: usize,
    pub fade_seconds: u64,
    pub agent_enabled: bool,
    pub agent_model: String,
    pub answer_mode: TranscriptionAnswerMode,
    pub include_microphone: bool,
    pub context_file: Option<String>,
    pub context_strictness: ContextStrictness,
    pub pause_agent_when_hidden: bool,
    pub hidden_pause_seconds: u64,
    pub hidden_exit_minutes: u64,
    pub idle_exit_minutes: u64,
    pub max_session_minutes: u64,
    pub agent_token_budget: u64,
    pub transparency_label: String,
}

impl Default for EnchantedTranscriptionSettings {
    fn default() -> (r: Self)
        ensures
            r.sources@ == default_sources(),
            r.language@ == default_language(),
            r.model@ == "medium.en"@,
            r.chunk_seconds == DEFAULT_CHUNK_SECONDS,
            r.fade_seconds == DEFAULT_TEXT_FADE_SECONDS,
            r.agent_enabled,
            r.agent_model@ == "gpt-5.6-terra"@,
            r.answer_mode == TranscriptionAnswerMode::Silhouette,
            !r.include_microphone,
            r.context_file is None,
            r.context_strictness == ContextStrictness::Soft,
            r.pause_agent_when_hidden,
            r.hidden_pause_seconds == DEFAULT_HIDDEN_PAUSE_SECONDS,
            r.hidden_exit_minutes == DEFAULT_HIDDEN_EXIT_MINUTES,
            r.idle_exit_minutes == DEFAULT_IDLE_EXIT_MINUTES,
            r.max_session_minutes == DEFAULT_SESSION_MINUTES,
            r.agent_token_budget == DEFAULT_AGENT_TOKEN_BUDGET,
            r.transparency_label@ == "opaque"@,
    {
        EnchantedTranscriptionSettings {
            sources: crate::normalize::default_transcription_sources(),
            language: string_of(&chars_of(crate::normalize::default_language_str())),
            model: string_of(&chars_of("medium.en")),
            chunk_seconds: DEFAULT_CHUNK_SECONDS,
            fade_seconds: DEFAULT_TEXT_FADE_SECONDS,
            agent_enabled: true,
            agent_model: string_of(&chars_of("gpt-5.6-terra")),
            answer_mode: TranscriptionAnswerMode::Silhouette,
            include_microphone: false,
            context_file: None,
            context_strictness: ContextStrictness::Soft,
            pause_agent_when_hidden: true,
            hidden_pause_seconds: DEFAULT_HIDDEN_PAUSE_SECONDS,
            hidden_exit_minutes: DEFAULT_HIDDEN_EXIT_MINUTES,
            idle_exit_minutes: DEFAULT_IDLE_EXIT_MINUTES,
            max_session_minutes: DEFAULT_SESSION_MINUTES,
            agent_token_budget: DEFAULT_AGENT_TOKEN_BUDGET,
            transparency_label: string_of(&chars_of("opaque")),
        }
    }
}

/// `value` when it is one of `choices`, otherwise `fallback`.
pub open spec fn choice_or<A>(value: A, choices: Seq<A>, fallback: A) -> A {
    if choices.contains(value) { value } else { fallback }
}

/// The model kept for a saved model name and normalized language.
pub open spec fn normalized_model_spec(model: Seq<char>, language: Seq<char>) -> Seq<char> {
    match normalize_model_name_spec(model) {
        Some(m) => compatible_model_spec(m, language),
        None => default_model_for_language_spec(language),
    }
}

/// Whether `r` is the normalized form of `s`: sources in canonical order, a
/// valid language and a model that suits it, offered window and delay
/// choices (else their defaults), the fade clamped to 5..=180 seconds, a
/// current model identifier, a valid reference document name, no hidden
/// pause without a delay, and a known transparency label.
pub open spec fn is_normalized_of(r: EnchantedTranscriptionSettings, s: EnchantedTranscriptionSettings) -> bool {
    is_normalized_from(
        r,
        s.sources@,
        s.language@,
        s.model@,
        s.chunk_seconds,
        s.fade_seconds,
        s.agent_enabled,
        s.agent_model@,
        s.answer_mode,
        s.include_microphone,
        opt_text(s.context_file),
        s.context_strictness,
        s.pause_agent_when_hidden,
        s.hidden_pause_seconds,
        s.hidden_exit_minutes,
        s.idle_exit_minutes,
        s.max_session_minutes,
        s.agent_token_budget,
        s.transparency_label@,
    )
}

/// `is_normalized_of`, with the saved values given one by one.
pub open spec fn is_normalized_from(
    r: EnchantedTranscriptionSettings,
    sources: Seq<SourceKind>,
    language_in: Seq<char>,
    model: Seq<char>,
    chunk_seconds: usize,
    fade_seconds: u64,
    agent_enabled: bool,
    agent_model: Seq<char>,
    answer_mode: TranscriptionAnswerMode,
    include_microphone: bool,
    context_file: Option<Seq<char>>,
    context_strictness: ContextStrictness,
    pause_agent_when_hidden: bool,
    hidden_pause_seconds: u64,
    hidden_exit_minutes: u64,
    idle_exit_minutes: u64,
    max_session_minutes: u64,
    agent_token_budget: u64,
    transparency_label: Seq<char>,
) -> bool {
    let language = normalize_language_spec(language_in);
    let pause = choice_or(hidden_pause_seconds, hidden_pause_choices(), DEFAULT_HIDDEN_PAUSE_SECONDS);
    &&& r.sources@ == normalize_sources_spec(sources)
    &&& r.language@ == language
    &&& r.model@ == normalized_model_spec(model, language)
    &&& r.chunk_seconds == choice_or(chunk_seconds, window_choices(), DEFAULT_CHUNK_SECONDS)
    &&& r.fade_seconds == (if fade_seconds < 5 { 5 } else if fade_seconds > 180 { 180 } else { fade_seconds })
    &&& r.agent_enabled == agent_enabled
    &&& r.agent_model@ == normalize_model_id_spec(agent_model)
    &&& r.answer_mode == answer_mode
    &&& r.include_microphone == include_microphone
    &&& opt_text(r.context_file) == (match context_file {
        Some(f) => context_name_spec(f),
        None => None,
    })
    &&& r.context_strictness == context_strictness
    &&& r.hidden_pause_seconds == pause
    &&& r.pause_agent_when_hidden == (pause_agent_when_hidden && pause != 0)
    &&& r.hidden_exit_minutes == choice_or(hidden_exit_minutes, hidden_exit_choices(), DEFAULT_HIDDEN_EXIT_MINUTES)
    &&& r.idle_exit_minutes == choice_or(idle_exit_minutes, idle_exit_choices(), DEFAULT_IDLE_EXIT_MINUTES)
    &&& r.max_session_minutes == choice_or(max_session_minutes, session_choices(), DEFAULT_SESSION_MINUTES)
    &&& r.agent_token_budget == choice_or(agent_token_budget, token_budget_choices(), DEFAULT_AGENT_TOKEN_BUDGET)
    &&& r.transparency_label@ == (if transparency_index_spec(transparency_label) is Some {
        transparency_label
    } else {
        "opaque"@
    })
}

/// Normalizing saved settings a second time gives what normalizing once
/// gave, and normalized settings are in range: the fade between 5 and 180
/// seconds, an offered window, one or both sources, no hidden pause without
/// a delay, and a known transparency label.
pub proof fn normalized_settings_are_stable(
    s: EnchantedTranscriptionSettings,
    r: EnchantedTranscriptionSettings,
    again: EnchantedTranscriptionSettings,
)
    requires
        is_normalized_of(r, s),
        is_normalized_of(again, r),
    ensures
        again.sources@ == r.sources@,
        again.language@ == r.language@,
        again.model@ == r.model@,
        again.chunk_seconds == r.chunk_seconds,
        again.fade_seconds == r.fade_seconds,
        again.agent_enabled == r.agent_enabled,
        again.agent_model@ == r.agent_model@,
        again.answer_mode == r.answer_mode,
        again.include_microphone == r.include_microphone,
        opt_text(again.context_file) == opt_text(r.context_file),
        again.context_strictness == r.context_strictness,
        again.pause_agent_when_hidden == r.pause_agent_when_hidden,
        again.hidden_pause_seconds == r.hidden_pause_seconds,
        again.hidden_exit_minutes == r.hidden_exit_minutes,
        again.idle_exit_minutes == r.idle_exit_minutes,
        again.max_session_minutes == r.max_session_minutes,
        again.agent_token_budget == r.agent_token_budget,
        again.transparency_label@ == r.transparency_label@,
        5 <= r.fade_seconds <= 180,
        window_choices().contains(r.chunk_seconds),
        r.sources@ == seq![SourceKind::Microphone] || r.sources@ == seq![SourceKind::SystemOutput]
            || r.sources@ == crate::normalize::default_sources(),
        r.hidden_pause_seconds == 0 ==> !r.pause_agent_when_hidden,
        crate::normalize::transparency_index_spec(r.transparency_label@) is Some,
{
    assert(window_choices()[3] == DEFAULT_CHUNK_SECONDS);
    crate::normalize::normalized_language_is_stable(s.language@);
    crate::normalize::lemma_kept_model_stable(s.model@, r.language@);
    crate::normalize::lemma_model_id_stable(s.agent_model@);
    crate::normalize::lemma_opaque_label_known();
    match opt_text(s.context_file) {
        Some(f) => {
            crate::text::trim_idempotent(f);
        },
        None => {},
    }
    assert(seq![SourceKind::Microphone].contains(SourceKind::Microphone) && seq![SourceKind::SystemOutput].contains(SourceKind::SystemOutput));
    assert(crate::normalize::default_sources()[0] == SourceKind::Microphone);
    assert(crate::normalize::default_sources()[1] == SourceKind::SystemOutput);
    assert(seq![SourceKind::Microphone][0] == SourceKind::Microphone);
    assert(seq![SourceKind::SystemOutput][0] == SourceKind::SystemOutput);
}

fn contains_usize(v: &Vec<usize>, x: usize) -> (r: bool)
    ensures
        r == v@.contains(x),
{
    let mut i: usize = 0;
    while i < v.len()
        invariant
            i <= v.len(),
            forall|j: int| 0 <= j < i ==> v@[j] != x,
        decreases v.len() - i,
    {
        if v[i] == x {
            return true;
        }
        i += 1;
    }
    false
}

impl EnchantedTranscriptionSettings {
    /// The settings as kept after loading; see `is_normalized_of`.
    pub fn normalized(self) -> (r: Self)
        ensures
            is_normalized_of(r, self),
    {
        let s = self;
        let sources = crate::normalize::normalize_transcription_sources(&s.sources);
        let language = crate::normalize::normalize_transcription_language(s.language.as_str());
        let model = match crate::normalize::normalize_whisper_model_name(s.model.as_str()) {
            Some(m) => crate::normalize::compatible_model_for_language(m.as_str(), language.as_str()),
            None => crate::normalize::default_model_for_language(language.as_str()),
        };
        let chunk_seconds = if contains_usize(&crate::choices::transcription_window_choices(), s.chunk_seconds) {
            s.chunk_seconds
        } else {
            DEFAULT_CHUNK_SECONDS
        };
        let fade_seconds = if s.fade_seconds < 5 {
            5
        } else if s.fade_seconds > 180 {
            180
        } else {
            s.fade_seconds
        };
        let agent_model = crate::normalize::normalize_openai_model_id(s.agent_model.as_str());
        let context_file = match &s.context_file {
            Some(f) => normalize_context_file_name(f.as_str()),
            None => None,
        };
        let hidden_pause_seconds = crate::normalize::normalize_choice(
            s.hidden_pause_seconds,
            &crate::choices::hidden_pause_second_choices(),
            DEFAULT_HIDDEN_PAUSE_SECONDS,
        );
        let pause_agent_when_hidden = s.pause_agent_when_hidden && hidden_pause_seconds != 0;
        let hidden_exit_minutes = crate::normalize::normalize_choice(
            s.hidden_exit_minutes,
            &crate::choices::hidden_exit_minute_choices(),
            DEFAULT_HIDDEN_EXIT_MINUTES,
        );
        let idle_exit_minutes = crate::normalize::normalize_choice(
            s.idle_exit_minutes,
            &crate::choices::idle_exit_minute_choices(),
            DEFAULT_IDLE_EXIT_MINUTES,
        );
        let max_session_minutes = crate::normalize::normalize_choice(
            s.max_session_minutes,
            &crate::choices::session_minute_choices(),
            DEFAULT_SESSION_MINUTES,
        );
        let agent_token_budget = crate::normalize::normalize_choice(
            s.agent_token_budget,
            &crate::choices::agent_token_budget_choices(),
            DEFAULT_AGENT_TOKEN_BUDGET,
        );
        let transparency_label = match crate::normalize::typing_transparency_preset_index(s.transparency_label.as_str()) {
            Some(_) => s.transparency_label.clone(),
            None => string_of(&chars_of("opaque")),
        };
        EnchantedTranscriptionSettings {
            sources,
            language,
            model,
            chunk_seconds,
            fade_seconds,
            agent_enabled: s.agent_enabled,
            agent_model,
            answer_mode: s.answer_mode,
            include_microphone: s.include_microphone,
            context_file,
            context_strictness: s.context_strictness,
            pause_agent_when_hidden,
            hidden_pause_seconds,
            hidden_exit_minutes,
            idle_exit_minutes,
            max_session_minutes,
            agent_token_budget,
            transparency_label,
        }
    }
}

// ---------------------------------------------------------------------------
// Settings that need a restart
// ---------------------------------------------------------------------------

/// The transcription settings the running session was started with, or
/// that are pending on the settings screen.
pub struct TranscriptionRestartSettings {
    pub sources: Vec<SourceKind>,
    pub language: Option<String>,
    pub model: String,
    pub chunk_seconds: usize,
    pub agent_enabled: bool,
    pub agent_model: String,
    pub answer_mode: TranscriptionAnswerMode,
    pub include_microphone: bool,
    pub context_file: Option<String>,
    pub context_strictness: ContextStrictness,
    pub pause_agent_when_hidden: bool,
    pub hidden_pause_seconds: u64,
    pub hidden_exit_minutes: u64,
    pub idle_exit_minutes: u64,
    pub max_session_minutes: u64,
    pub agent_token_budget: u64,
    pub transparency_label: String,
}

/// The text of an optional string.
pub open spec fn opt_text(o: Option<String>) -> Option<Seq<char>> {
    match o {
        Some(s) => Some(s@),
        None => None,
    }
}

/// Whether two setting sets hold the same values.
pub open spec fn same_settings(a: TranscriptionRestartSettings, b: TranscriptionRestartSettings) -> bool {
    &&& a.sources@ == b.sources@
    &&& opt_text(a.language) == opt_text(b.language)
    &&& a.model@ == b.model@
    &&& a.chunk_seconds == b.chunk_seconds
    &&& a.agent_enabled == b.agent_enabled
    &&& a.agent_model@ == b.agent_model@
    &&& a.answer_mode == b.answer_mode
    &&& a.include_microphone == b.include_microphone
    &&& opt_text(a.context_file) == opt_text(b.context_file)
    &&& a.context_strictness == b.context_strictness
    &&& a.pause_agent_when_hidden == b.pause_agent_when_hidden
    &&& a.hidden_pause_seconds == b.hidden_pause_seconds
    &&& a.hidden_exit_minutes == b.hidden_exit_minutes
    &&& a.idle_exit_minutes == b.idle_exit_minutes
    &&& a.max_session_minutes == b.max_session_minutes
    &&& a.agent_token_budget == b.agent_token_budget
    &&& a.transparency_label@ == b.transparency_label@
}

/// Whether two setting sets differ in a setting that needs a restart.
pub open spec fn restart_differs(a: TranscriptionRestartSettings, b: TranscriptionRestartSettings) -> bool {
    ||| a.sources@ != b.sources@
    ||| opt_text(a.language) != opt_text(b.language)
    ||| a.model@ != b.model@
    ||| a.chunk_seconds != b.chunk_seconds
    ||| a.agent_enabled != b.agent_enabled
    ||| a.agent_model@ != b.agent_model@
    ||| a.answer_mode != b.answer_mode
    ||| a.include_microphone != b.include_microphone
    ||| opt_text(a.context_file) != opt_text(b.context_file)
    ||| a.context_strictness != b.context_strictness
}

pub fn opt_string_clone(o: &Option<String>) -> (r: Option<String>)
    ensures
        opt_text(r) == opt_text(*o),
{
    match o {
        Some(s) => Some(s.clone()),
        None => None,
    }
}

pub fn opt_string_equal(a: &Option<String>, b: &Option<String>) -> (r: bool)
    ensures
        r == (opt_text(*a) == opt_text(*b)),
{
    match (a, b) {
        (Some(x), Some(y)) => crate::text::chars_equal(&chars_of(x.as_str()), &chars_of(y.as_str())),
        (None, None) => true,
        _ => false,
    }
}

pub fn sources_equal(a: &Vec<SourceKind>, b: &Vec<SourceKind>) -> (r: bool)
    ensures
        r == (a@ == b@),
{
    if a.len() != b.len() {
        return false;
    }
    let mut i: usize = 0;
    while i < a.len()
        invariant
            i <= a.len(),
            a.len() == b.len(),
            forall|j: int| 0 <= j < i ==> a@[j] == b@[j],
        decreases a.len() - i,
    {
        if a[i] != b[i] {
            return false;
        }
        i += 1;
    }
    assert(a@ =~= b@);
    true
}

pub fn text_equal(a: &String, b: &String) -> (r: bool)
    ensures
        r == (a@ == b@),
{
    crate::text::chars_equal(&chars_of(a.as_str()), &chars_of(b.as_str()))
}

/// Whether `r` holds the values of saved settings `s`, the language as an
/// optional constraint.
pub open spec fn restart_of(r: TranscriptionRestartSettings, s: EnchantedTranscriptionSettings) -> bool {
    &&& r.sources@ == s.sources@
    &&& opt_text(r.language) == language_option_spec(s.language@)
    &&& r.model@ == s.model@
    &&& r.chunk_seconds == s.chunk_seconds
    &&& r.agent_enabled == s.agent_enabled
    &&& r.agent_model@ == s.agent_model@
    &&& r.answer_mode == s.answer_mode
    &&& r.include_microphone == s.include_microphone
    &&& opt_text(r.context_file) == opt_text(s.context_file)
    &&& r.context_strictness == s.context_strictness
    &&& r.pause_agent_when_hidden == s.pause_agent_when_hidden
    &&& r.hidden_pause_seconds == s.hidden_pause_seconds
    &&& r.hidden_exit_minutes == s.hidden_exit_minutes
    &&& r.idle_exit_minutes == s.idle_exit_minutes
    &&& r.max_session_minutes == s.max_session_minutes
    &&& r.agent_token_budget == s.agent_token_budget
    &&& r.transparency_label@ == s.transparency_label@
}

impl TranscriptionRestartSettings {
    /// The restart-relevant view of saved settings (the language as an
    /// optional constraint).
    pub fn from_settings(settings: &EnchantedTranscriptionSettings) -> (r: Self)
        ensures
            restart_of(r, *settings),
            r.sources@ == settings.sources@,
            opt_text(r.language) == language_option_spec(settings.language@),
            r.model@ == settings.model@,
            r.chunk_seconds == settings.chunk_seconds,
            r.agent_enabled == settings.agent_enabled,
            r.agent_model@ == settings.agent_model@,
            r.answer_mode == settings.answer_mode,
            r.include_microphone == settings.include_microphone,
            opt_text(r.context_file) == opt_text(settings.context_file),
            r.context_strictness == settings.context_strictness,
            r.pause_agent_when_hidden == settings.pause_agent_when_hidden,
            r.hidden_pause_seconds == settings.hidden_pause_seconds,
            r.hidden_exit_minutes == settings.hidden_exit_minutes,
            r.idle_exit_minutes == settings.idle_exit_minutes,
            r.max_session_minutes == settings.max_session_minutes,
            r.agent_token_budget == settings.agent_token_budget,
            r.transparency_label@ == settings.transparency_label@,
    {
        TranscriptionRestartSettings {
            sources: settings.sources.clone(),
            language: crate::normalize::transcription_language_option(settings.language.as_str()),
            model: settings.model.clone(),
            chunk_seconds: settings.chunk_seconds,
            agent_enabled: settings.agent_enabled,
            agent_model: settings.agent_model.clone(),
            answer_mode: settings.answer_mode,
            include_microphone: settings.include_microphone,
            context_file: opt_string_clone(&settings.context_file),
            context_strictness: settings.context_strictness,
            pause_agent_when_hidden: settings.pause_agent_when_hidden,
            hidden_pause_seconds: settings.hidden_pause_seconds,
            hidden_exit_minutes: settings.hidden_exit_minutes,
            idle_exit_minutes: settings.idle_exit_minutes,
            max_session_minutes: settings.max_session_minutes,
            agent_token_budget: settings.agent_token_budget,
            transparency_label: settings.transparency_label.clone(),
        }
    }

    /// A copy holding the same values.
    pub fn copy(&self) -> (r: Self)
        ensures
            same_settings(r, *self),
    {
        TranscriptionRestartSettings {
            sources: self.sources.clone(),
            language: opt_string_clone(&self.language),
            model: self.model.clone(),
            chunk_seconds: self.chunk_seconds,
            agent_enabled: self.agent_enabled,
            agent_model: self.agent_model.clone(),
            answer_mode: self.answer_mode,
            include_microphone: self.include_microphone,
            context_file: opt_string_clone(&self.context_file),
            context_strictness: self.context_strictness,
            pause_agent_when_hidden: self.pause_agent_when_hidden,
            hidden_pause_seconds: self.hidden_pause_seconds,
            hidden_exit_minutes: self.hidden_exit_minutes,
            idle_exit_minutes: self.idle_exit_minutes,
            max_session_minutes: self.max_session_minutes,
            agent_token_budget: self.agent_token_budget,
            transparency_label: self.transparency_label.clone(),
        }
    }

    /// Whether both sets hold the same values.
    pub fn same_as(&self, other: &Self) -> (r: bool)
        ensures
            r == same_settings(*self, *other),
    {
        sources_equal(&self.sources, &other.sources) && opt_string_equal(&self.language, &other.language)
            && text_equal(&self.model, &other.model) && self.chunk_seconds == other.chunk_seconds
            && self.agent_enabled == other.agent_enabled && text_equal(&self.agent_model, &other.agent_model)
            && self.answer_mode == other.answer_mode && self.include_microphone == other.include_microphone
            && opt_string_equal(&self.context_file, &other.context_file)
            && self.context_strictness == other.context_strictness
            && self.pause_agent_when_hidden == other.pause_agent_when_hidden
            && self.hidden_pause_seconds == other.hidden_pause_seconds
            && self.hidden_exit_minutes == other.hidden_exit_minutes
            && self.idle_exit_minutes == other.idle_exit_minutes
            && self.max_session_minutes == other.max_session_minutes
            && self.agent_token_budget == other.agent_token_budget
            && text_equal(&self.transparency_label, &other.transparency_label)
    }
}

} // verus!
