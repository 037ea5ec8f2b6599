//! How a run starts from what was saved and what was asked for: the
//! transcription settings in effect, the insight configuration, the insight
//! baseline a restart carries over, and the dictation configuration. Reading
//! the files and the environment is the caller's.
use vstd::prelude::*;

use crate::agent::{opt_view, AgentInput};
use crate::agent_config::{fields_view, AgentFieldConfig, AgentFieldModel, ParsedAgentConfig};
use crate::args::CliArgs;
use crate::insight::{build_response_schema, default_agent_result, default_result_spec, matches_fields_spec, response_schema_spec};
use crate::json::{JsonModel, JsonValue};
use crate::modes::{
    answer_mode_display, answer_mode_instruction, AppMode, SourceKind, TYPING_SPEED_PRESET_COUNT,
    TYPING_TRANSPARENCY_PRESET_COUNT,
};
use crate::normalize::{
    default_language, default_language_str, normalize_language_spec, normalize_model_id_spec, speed_index_spec,
    transparency_index_spec,
};
use crate::restore::TranscriptionRestartState;
use crate::settings::{is_normalized_from, opt_text, EnchantedTranscriptionSettings, EnhancedTypingSettings};
use crate::startup::{config_wf, AgentConfig, AppConfig, TypingConfig};
use crate::text::{chars_of, string_of, trim, trim_vec};

verus! {

/// Seconds of audio a dictation pass listens to.
pub const TYPING_CHUNK_SECONDS: usize = 4;

/// Output tokens of a dictation refinement.
pub const TYPING_MAX_OUTPUT_TOKENS: u64 = 256;

/// Why the saved transcription settings cannot start.
pub enum LaunchError {
    /// The loaded model is English-only and the language is another one;
    /// `suggested` is the model that fits.
    EnglishOnlyModel { loaded: String, language: String, suggested: String },
}

impl LaunchError {
    /// The message shown for the refusal.
    pub fn message(&self) -> (r: String)
        ensures
            match self {
                LaunchError::EnglishOnlyModel { loaded, language, suggested } => r@ == "Whisper model "@ + loaded@
                    + " is English-only and cannot be used with language "@ + language@ + "; use "@ + suggested@
                    + " instead"@,
            },
    {
        match self {
            LaunchError::EnglishOnlyModel { loaded, language, suggested } => {
                let mut out = chars_of("Whisper model ");
                crate::text::append_chars(&mut out, &chars_of(loaded.as_str()));
                crate::text::append_chars(&mut out, &chars_of(" is English-only and cannot be used with language "));
                crate::text::append_chars(&mut out, &chars_of(language.as_str()));
                crate::text::append_chars(&mut out, &chars_of("; use "));
                crate::text::append_chars(&mut out, &chars_of(suggested.as_str()));
                crate::text::append_chars(&mut out, &chars_of(" instead"));
                string_of(&out)
            },
        }
    }
}

/// The language asked for: the argument when one was given, the saved one
/// on a restart, else the default.
pub open spec fn launch_language(saved: Seq<char>, restarting: bool, args: CliArgs) -> Seq<char> {
    if args.language_provided {
        match args.language {
            Some(l) => normalize_language_spec(l@),
            None => "auto"@,
        }
    } else if restarting {
        saved
    } else {
        default_language()
    }
}

/// What a settings document that could not be read says after its error.
pub open spec fn review_note() -> Seq<char> {
    " Agent API requests are disabled until you explicitly review and apply settings."@
}

/// The transcription settings a run starts with: the saved ones, with the
/// language and reference document kept only across a restart, the loaded
/// model, the values the arguments give, and requests switched off when
/// the document could not be read or the arguments ask so; then kept as
/// loading keeps them.
pub open spec fn launch_settings_spec(
    saved: EnchantedTranscriptionSettings,
    load_error_present: bool,
    restarting: bool,
    loaded_model: Seq<char>,
    args: CliArgs,
    r: EnchantedTranscriptionSettings,
) -> bool {
    is_normalized_from(
        r,
        saved.sources@,
        launch_language(saved.language@, restarting, args),
        loaded_model,
        saved.chunk_seconds,
        if args.fade_seconds_provided { args.fade_seconds } else { saved.fade_seconds },
        saved.agent_enabled && !load_error_present && !args.agent_disabled,
        if args.agent_model_provided { args.agent_model@ } else { saved.agent_model@ },
        saved.answer_mode,
        saved.include_microphone,
        if restarting { opt_text(saved.context_file) } else { None },
        saved.context_strictness,
        saved.pause_agent_when_hidden,
        saved.hidden_pause_seconds,
        saved.hidden_exit_minutes,
        saved.idle_exit_minutes,
        saved.max_session_minutes,
        saved.agent_token_budget,
        saved.transparency_label@,
    )
}

/// The transcription settings a run starts with; see `launch_settings_spec`.
/// They start only when loading keeps the loaded model; the error of an
/// unreadable document comes back with the review note.
pub fn launch_transcription_settings(
    saved: EnchantedTranscriptionSettings,
    load_error: Option<String>,
    restarting: bool,
    loaded_model: &str,
    args: &CliArgs,
) -> (r: Result<(EnchantedTranscriptionSettings, Option<String>), LaunchError>)
    ensures
        match r {
            Ok((s, note)) => launch_settings_spec(saved, load_error is Some, restarting, loaded_model@, *args, s)
                && s.model@ == loaded_model@
                && (load_error is Some || args.agent_disabled ==> !s.agent_enabled)
                && opt_text(note) == (match load_error {
                    Some(e) => Some(e@ + review_note()),
                    None => None,
                }),
            Err(LaunchError::EnglishOnlyModel { loaded, language, suggested }) => exists|s: EnchantedTranscriptionSettings|
                #[trigger] launch_settings_spec(saved, load_error is Some, restarting, loaded_model@, *args, s)
                    && s.model@ != loaded_model@ && loaded@ == loaded_model@ && language@ == s.language@
                    && suggested@ == s.model@,
        },
{
    let ghost original = saved;
    let note = match &load_error {
        Some(e) => {
            let mut t = chars_of(e.as_str());
            crate::text::append_chars(&mut t, &chars_of(" Agent API requests are disabled until you explicitly review and apply settings."));
            Some(string_of(&t))
        },
        None => None,
    };
    let mut s = saved;
    if load_error.is_some() {
        s.agent_enabled = false;
    }
    if !restarting {
        s.language = string_of(&chars_of(default_language_str()));
        s.context_file = None;
    }
    s.model = string_of(&chars_of(loaded_model));
    if args.language_provided {
        let l = match &args.language {
            Some(l) => Some(l.as_str()),
            None => None,
        };
        s.language = crate::normalize::transcription_language_setting(l);
    }
    if args.fade_seconds_provided {
        s.fade_seconds = args.fade_seconds;
    }
    if args.agent_model_provided {
        s.agent_model = args.agent_model.clone();
    }
    if args.agent_disabled {
        s.agent_enabled = false;
    }
    let s = s.normalized();
    proof {
        assert(launch_settings_spec(original, load_error is Some, restarting, loaded_model@, *args, s));
    }
    if crate::normalize::is_text(&chars_of(s.model.as_str()), loaded_model) {
        Ok((s, note))
    } else {
        let language = s.language.clone();
        let suggested = s.model.clone();
        Err(LaunchError::EnglishOnlyModel { loaded: string_of(&chars_of(loaded_model)), language, suggested })
    }
}

/// The saved model as loading compares it: a known name made compatible
/// with the language, else as saved.
pub open spec fn comparable_model(model: Seq<char>, language: Seq<char>) -> Seq<char> {
    match crate::normalize::normalize_model_name_spec(model) {
        Some(m) => crate::normalize::compatible_model_spec(m, normalize_language_spec(language)),
        None => model,
    }
}

/// Whether loading changed saved settings `s` into `n` beyond the
/// normalizations of the sources, the model and the agent model.
pub open spec fn adjusted_spec(s: EnchantedTranscriptionSettings, n: EnchantedTranscriptionSettings) -> bool {
    !{
    &&& crate::normalize::normalize_sources_spec(s.sources@) == n.sources@
    &&& s.language@ == n.language@
    &&& comparable_model(s.model@, s.language@) == n.model@
    &&& s.chunk_seconds == n.chunk_seconds
    &&& s.fade_seconds == n.fade_seconds
    &&& s.agent_enabled == n.agent_enabled
    &&& normalize_model_id_spec(s.agent_model@) == n.agent_model@
    &&& s.answer_mode == n.answer_mode
    &&& s.include_microphone == n.include_microphone
    &&& opt_text(s.context_file) == opt_text(n.context_file)
    &&& s.context_strictness == n.context_strictness
    &&& s.pause_agent_when_hidden == n.pause_agent_when_hidden
    &&& s.hidden_pause_seconds == n.hidden_pause_seconds
    &&& s.hidden_exit_minutes == n.hidden_exit_minutes
    &&& s.idle_exit_minutes == n.idle_exit_minutes
    &&& s.max_session_minutes == n.max_session_minutes
    &&& s.agent_token_budget == n.agent_token_budget
    &&& s.transparency_label@ == n.transparency_label@
    }
}

/// The note shown when saved settings were adjusted on loading.
pub open spec fn adjusted_note() -> Seq<char> {
    "Some saved transcription settings were adjusted to supported values. Review them before applying; the original file has not been changed."@
}

/// Saved transcription settings as a run takes them: normalized, with a
/// note when loading had to adjust them; see `adjusted_spec`.
pub fn accept_saved_transcription_settings(parsed: EnchantedTranscriptionSettings) -> (r: (EnchantedTranscriptionSettings, Option<String>))
    ensures
        crate::settings::is_normalized_of(r.0, parsed),
        opt_text(r.1) == (if adjusted_spec(parsed, r.0) { Some(adjusted_note()) } else { None }),
{
    let ghost saved = parsed;
    let sources = crate::normalize::normalize_transcription_sources(&parsed.sources);
    let model = match crate::normalize::normalize_whisper_model_name(parsed.model.as_str()) {
        Some(m) => {
            let language = crate::normalize::normalize_transcription_language(parsed.language.as_str());
            crate::normalize::compatible_model_for_language(m.as_str(), language.as_str())
        },
        None => parsed.model.clone(),
    };
    let agent_model = crate::normalize::normalize_openai_model_id(parsed.agent_model.as_str());
    let language = parsed.language.clone();
    let chunk_seconds = parsed.chunk_seconds;
    let fade_seconds = parsed.fade_seconds;
    let agent_enabled = parsed.agent_enabled;
    let answer_mode = parsed.answer_mode;
    let include_microphone = parsed.include_microphone;
    let context_file = crate::settings::opt_string_clone(&parsed.context_file);
    let context_strictness = parsed.context_strictness;
    let pause = parsed.pause_agent_when_hidden;
    let hidden_pause_seconds = parsed.hidden_pause_seconds;
    let hidden_exit_minutes = parsed.hidden_exit_minutes;
    let idle_exit_minutes = parsed.idle_exit_minutes;
    let max_session_minutes = parsed.max_session_minutes;
    let agent_token_budget = parsed.agent_token_budget;
    let transparency_label = parsed.transparency_label.clone();
    let n = parsed.normalized();
    let same = crate::settings::sources_equal(&sources, &n.sources)
        && crate::settings::text_equal(&language, &n.language)
        && crate::settings::text_equal(&model, &n.model)
        && chunk_seconds == n.chunk_seconds
        && fade_seconds == n.fade_seconds
        && agent_enabled == n.agent_enabled
        && crate::settings::text_equal(&agent_model, &n.agent_model)
        && answer_mode == n.answer_mode
        && include_microphone == n.include_microphone
        && crate::settings::opt_string_equal(&context_file, &n.context_file)
        && context_strictness == n.context_strictness
        && pause == n.pause_agent_when_hidden
        && hidden_pause_seconds == n.hidden_pause_seconds
        && hidden_exit_minutes == n.hidden_exit_minutes
        && idle_exit_minutes == n.idle_exit_minutes
        && max_session_minutes == n.max_session_minutes
        && agent_token_budget == n.agent_token_budget
        && crate::settings::text_equal(&transparency_label, &n.transparency_label);
    assert(same == !adjusted_spec(saved, n));
    if same {
        (n, None)
    } else {
        (n, Some(string_of(&chars_of(
            "Some saved transcription settings were adjusted to supported values. Review them before applying; the original file has not been changed.",
        ))))
    }
}

/// Saved dictation settings as a run takes them: the refiner model as a
/// model identifier.
pub fn accept_saved_typing_settings(parsed: EnhancedTypingSettings) -> (r: EnhancedTypingSettings)
    ensures
        r == (EnhancedTypingSettings { refiner_model: r.refiner_model, ..parsed }),
        r.refiner_model@ == normalize_model_id_spec(parsed.refiner_model@),
{
    let refiner_model = crate::normalize::normalize_openai_model_id(parsed.refiner_model.as_str());
    EnhancedTypingSettings { refiner_model, ..parsed }
}

/// Dictation settings that could not be read: the defaults, with the
/// refinement off.
pub fn unreadable_typing_settings() -> (r: EnhancedTypingSettings)
    ensures
        !r.intelligence_enabled,
        r.clipboard_enabled,
        r.flush_mode == Some(crate::modes::TypingFlushMode::Clipboard),
        r.input_source == SourceKind::Microphone,
        r.transparency_label@ == "opaque"@,
        r.typing_speed_label@ == "normal"@,
        r.refiner_model@ == "gpt-5.6-terra"@,
{
    let mut s = EnhancedTypingSettings::default();
    s.intelligence_enabled = false;
    s
}

/// A key from the environment: trimmed, and only when not blank.
pub fn usable_api_key(raw: Option<String>) -> (r: Option<String>)
    ensures
        opt_text(r) == (match raw {
            Some(k) => if trim(k@).len() > 0 { Some(trim(k@)) } else { None },
            None => None,
        }),
{
    match raw {
        Some(k) => {
            let t = trim_vec(&chars_of(k.as_str()));
            if t.len() > 0 {
                Some(string_of(&t))
            } else {
                None
            }
        },
        None => None,
    }
}

/// Whether the insight pane can send requests: it is switched on, system
/// output is captured, and there is a key.
pub open spec fn agent_possible_spec(settings: EnchantedTranscriptionSettings, has_key: bool) -> bool {
    settings.agent_enabled && settings.sources@.contains(SourceKind::SystemOutput) && has_key
}

/// See `agent_possible_spec`; only then are the agent's instructions read.
pub fn agent_requests_possible(settings: &EnchantedTranscriptionSettings, api_key: &Option<String>) -> (r: bool)
    ensures
        r == agent_possible_spec(*settings, api_key is Some),
{
    settings.agent_enabled && crate::normalize::contains_source(&settings.sources, SourceKind::SystemOutput)
        && api_key.is_some()
}

/// The fields with the first answer field titled `title`.
pub open spec fn titled_fields(fs: Seq<AgentFieldModel>, title: Seq<char>) -> Seq<AgentFieldModel>
    decreases fs.len(),
{
    if fs.len() == 0 {
        fs
    } else if fs[0].key == "answer_guidance"@ {
        seq![AgentFieldModel { title, ..fs[0] }] + fs.drop_first()
    } else {
        seq![fs[0]] + titled_fields(fs.drop_first(), title)
    }
}

proof fn lemma_titled_fields_skip(fs: Seq<AgentFieldModel>, title: Seq<char>, i: int)
    requires
        0 <= i <= fs.len(),
        forall|j: int| 0 <= j < i ==> (#[trigger] fs[j]).key != "answer_guidance"@,
    ensures
        titled_fields(fs, title) == fs.take(i) + titled_fields(fs.skip(i), title),
    decreases i,
{
    if i == 0 {
        assert(fs.take(0) + fs.skip(0) =~= fs);
        assert(fs.skip(0) =~= fs);
        assert(fs.take(0) + titled_fields(fs, title) =~= titled_fields(fs, title));
    } else {
        let rest = fs.drop_first();
        assert forall|j: int| 0 <= j < i - 1 implies (#[trigger] rest[j]).key != "answer_guidance"@ by {
            assert(rest[j] == fs[j + 1]);
        }
        lemma_titled_fields_skip(rest, title, i - 1);
        assert(fs[0].key != "answer_guidance"@);
        assert(rest.skip(i - 1) =~= fs.skip(i));
        assert(seq![fs[0]] + rest.take(i - 1) =~= fs.take(i));
        assert(seq![fs[0]] + (rest.take(i - 1) + titled_fields(rest.skip(i - 1), title)) =~= fs.take(i) + titled_fields(fs.skip(i), title));
    }
}

fn retitle_answer_field(fields: &mut Vec<AgentFieldConfig>, title: &str)
    ensures
        fields_view(final(fields)@) == titled_fields(fields_view(old(fields)@), title@),
{
    let ghost start = fields_view(fields@);
    let mut i: usize = 0;
    while i < fields.len()
        invariant
            i <= fields.len(),
            fields@ == old(fields)@,
            start == fields_view(old(fields)@),
            forall|j: int| 0 <= j < i ==> (#[trigger] start[j]).key != "answer_guidance"@,
        decreases fields.len() - i,
    {
        if crate::normalize::is_text(&chars_of(fields[i].key.as_str()), "answer_guidance") {
            proof {
                lemma_titled_fields_skip(start, title@, i as int);
                assert(start.skip(i as int)[0] == start[i as int]);
                assert(start.skip(i as int).drop_first() =~= start.skip(i + 1));
            }
            let mut f = fields.remove(i);
            f.title = string_of(&chars_of(title));
            fields.insert(i, f);
            proof {
                assert(fields_view(fields@) =~= start.take(i as int) + (seq![AgentFieldModel { title: title@, ..start[i as int] }]
                    + start.skip(i + 1)));
            }
            return;
        }
        proof {
            reveal_strlit("answer_guidance");
            assert(start[i as int] == fields@[i as int]@);
        }
        i += 1;
    }
    proof {
        lemma_titled_fields_skip(start, title@, start.len() as int);
        assert(start.take(start.len() as int) =~= start);
        assert(start.skip(start.len() as int) =~= Seq::<AgentFieldModel>::empty());
        assert(fields_view(fields@) =~= start);
    }
}

/// The insight configuration of the agent's instructions file: its prose
/// and its declared fields.
pub struct AgentInstructions {
    pub instructions: String,
    pub declared: ParsedAgentConfig,
}

/// The instructions of a configuration that can send requests: the file's,
/// then the active answer mode.
pub open spec fn active_instructions(instructions: Seq<char>, settings: EnchantedTranscriptionSettings) -> Seq<char> {
    instructions + "\n\n## Active answer mode\n\n"@ + answer_mode_instruction(settings.answer_mode)
}

/// The insight configuration of a run; see `agent_possible_spec`. Without
/// requests, it is the switched-off one with the reference document;
/// otherwise the file's fields, the answer field titled by the answer mode,
/// and the microphone shared only when it is captured.
pub fn transcription_agent_config(
    settings: &EnchantedTranscriptionSettings,
    api_key: Option<String>,
    instructions: Option<AgentInstructions>,
    context_dir: String,
) -> (r: AgentConfig)
    ensures
        r.enabled ==> settings.agent_enabled && settings.sources@.contains(SourceKind::SystemOutput) && api_key is Some,
        match (api_key, instructions) {
            (Some(key), Some(given)) => {
                if settings.agent_enabled && settings.sources@.contains(SourceKind::SystemOutput) {
                    &&& r.enabled
                    &&& r.model@ == settings.agent_model@
                    &&& opt_text(r.api_key) == Some(key@)
                    &&& r.include_microphone == (settings.include_microphone && settings.sources@.contains(SourceKind::Microphone))
                    &&& r.answer_mode == settings.answer_mode
                    &&& r.context_dir@ == context_dir@
                    &&& opt_text(r.context_file) == opt_text(settings.context_file)
                    &&& r.context_strictness == settings.context_strictness
                    &&& r.instructions@ == active_instructions(given.instructions@, *settings)
                    &&& r.response_schema@ == response_schema_spec(fields_view(given.declared.fields@))
                    &&& r.max_output_tokens == given.declared.max_output_tokens
                    &&& fields_view(r.fields@) == titled_fields(fields_view(given.declared.fields@), answer_mode_display(settings.answer_mode))
                    &&& opt_text(r.microphone_delta_gate_field) == opt_text(given.declared.microphone_delta_gate_field)
                    &&& r.initial_result@ == default_result_spec(fields_view(r.fields@))
                    &&& r.initial_input is None
                } else {
                    switched_off_agent(*settings, context_dir@, r)
                }
            },
            _ => switched_off_agent(*settings, context_dir@, r),
        },
{
    let usable = settings.agent_enabled && crate::normalize::contains_source(&settings.sources, SourceKind::SystemOutput);
    match (api_key, instructions) {
        (Some(key), Some(given)) => {
            if usable {
                let AgentInstructions { instructions, declared } = given;
                let response_schema = build_response_schema(&declared.fields);
                let mut fields = declared.fields;
                retitle_answer_field(&mut fields, settings.answer_mode.display_name());
                let mut text = chars_of(instructions.as_str());
                crate::text::append_chars(&mut text, &chars_of("\n\n## Active answer mode\n\n"));
                crate::text::append_chars(&mut text, &chars_of(settings.answer_mode.developer_instruction()));
                let initial_result = default_agent_result(&fields);
                AgentConfig {
                    enabled: true,
                    model: settings.agent_model.clone(),
                    api_key: Some(key),
                    include_microphone: settings.include_microphone
                        && crate::normalize::contains_source(&settings.sources, SourceKind::Microphone),
                    answer_mode: settings.answer_mode,
                    context_dir,
                    context_file: crate::settings::opt_string_clone(&settings.context_file),
                    context_strictness: settings.context_strictness,
                    instructions: string_of(&text),
                    response_schema,
                    max_output_tokens: declared.max_output_tokens,
                    fields,
                    microphone_delta_gate_field: declared.microphone_delta_gate_field,
                    initial_result,
                    initial_input: None,
                }
            } else {
                switched_off(settings, context_dir)
            }
        },
        _ => switched_off(settings, context_dir),
    }
}

/// The switched-off insight configuration of the settings: their model and
/// reference document.
pub open spec fn switched_off_agent(settings: EnchantedTranscriptionSettings, context_dir: Seq<char>, r: AgentConfig) -> bool {
    &&& !r.enabled
    &&& r.model@ == settings.agent_model@
    &&& r.api_key is None
    &&& r.context_dir@ == context_dir
    &&& opt_text(r.context_file) == opt_text(settings.context_file)
    &&& r.context_strictness == settings.context_strictness
    &&& r.fields@.len() == 0
    &&& r.initial_input is None
}

fn switched_off(settings: &EnchantedTranscriptionSettings, context_dir: String) -> (r: AgentConfig)
    ensures
        switched_off_agent(*settings, context_dir@, r),
{
    AgentConfig::disabled(settings.agent_model.clone()).with_reference_context(
        context_dir,
        crate::settings::opt_string_clone(&settings.context_file),
        settings.context_strictness,
    )
}

/// The input an insight answer was last given for, as a restart carries it
/// over: not forced, of the first generation, and without the microphone
/// when it is not shared.
pub open spec fn carried_input(i: AgentInput, include_microphone: bool) -> (Seq<char>, Option<Seq<char>>, bool, u64) {
    (i.system_transcript@, if include_microphone { opt_view(i.microphone_transcript) } else { None }, false, 0)
}

/// The view of an input as `carried_input` gives it.
pub open spec fn input_parts(i: AgentInput) -> (Seq<char>, Option<Seq<char>>, bool, u64) {
    (i.system_transcript@, opt_view(i.microphone_transcript), i.force, i.generation)
}

/// Seeds the insight configuration from a restart that does not ask for a
/// fresh update: the saved answer when it fits the fields, and the saved
/// baseline input.
pub fn seed_from_restart(agent: &mut AgentConfig, restart: &Option<TranscriptionRestartState>)
    ensures
        match restart {
            Some(state) if !state.force_agent_update && state.context is Some => {
                let c = state.context.unwrap();
                &&& final(agent).initial_result@ == (if matches_fields_spec(c.agent_result@, fields_view(old(agent).fields@)) {
                    c.agent_result@
                } else {
                    old(agent).initial_result@
                })
                &&& match c.agent_last_successful_input {
                    Some(i) => final(agent).initial_input is Some
                        && input_parts(final(agent).initial_input.unwrap()) == carried_input(i, old(agent).include_microphone),
                    None => final(agent).initial_input is None,
                }
                &&& final(agent).fields == old(agent).fields
                &&& final(agent).enabled == old(agent).enabled
                &&& final(agent).include_microphone == old(agent).include_microphone
            },
            _ => *final(agent) == *old(agent),
        },
{
    match restart {
        Some(state) => {
            if state.force_agent_update {
                return;
            }
            match &state.context {
                Some(c) => {
                    if crate::insight::agent_result_matches_fields(&c.agent_result, &agent.fields) {
                        agent.initial_result = crate::json::clone_value(&c.agent_result);
                    }
                    agent.initial_input = match &c.agent_last_successful_input {
                        Some(i) => Some(AgentInput {
                            system_transcript: i.system_transcript.clone(),
                            microphone_transcript: if agent.include_microphone {
                                crate::settings::opt_string_clone(&i.microphone_transcript)
                            } else {
                                None
                            },
                            force: false,
                            generation: 0,
                        }),
                        None => None,
                    };
                },
                None => {},
            }
        },
        None => {},
    }
}

/// The refiner model of the dictation settings: the saved one, or the
/// fallback when none is saved, as a model identifier.
pub fn saved_typing_refiner_model(settings: &EnhancedTypingSettings, fallback: &str) -> (r: String)
    ensures
        r@ == normalize_model_id_spec(if trim(settings.refiner_model@).len() == 0 {
            fallback@
        } else {
            trim(settings.refiner_model@)
        }),
{
    let t = trim_vec(&chars_of(settings.refiner_model.as_str()));
    if t.len() == 0 {
        crate::normalize::normalize_openai_model_id(fallback)
    } else {
        crate::normalize::normalize_openai_model_id(string_of(&t).as_str())
    }
}

/// The index of a saved label, or `fallback` for an unknown one.
pub open spec fn index_or(found: Option<int>, fallback: usize) -> usize {
    match found {
        Some(i) => i as usize,
        None => fallback,
    }
}

/// The dictation configuration of a run: the saved settings, with the
/// refinement on only when it is both available and saved on, and the saved
/// look applied only when the settings file was read.
pub fn typing_launch_config(
    settings: &EnhancedTypingSettings,
    settings_load_error: Option<String>,
    settings_file_exists: bool,
    api_key: Option<String>,
    instructions: String,
    terminal_hwnd: Option<isize>,
    settings_path: String,
    fallback_model: &str,
) -> (r: TypingConfig)
    ensures
        r.model@ == normalize_model_id_spec(if trim(settings.refiner_model@).len() == 0 {
            fallback_model@
        } else {
            trim(settings.refiner_model@)
        }),
        opt_text(r.api_key) == opt_text(api_key),
        r.instructions@ == instructions@,
        r.response_schema@ == typing_schema_spec(),
        r.max_output_tokens == TYPING_MAX_OUTPUT_TOKENS,
        r.input_source == settings.input_source,
        r.terminal_hwnd == terminal_hwnd,
        r.settings_path@ == settings_path@,
        opt_text(r.settings_load_error) == opt_text(settings_load_error),
        r.transparency_index == index_or(transparency_index_spec(settings.transparency_label@), 0),
        r.typing_speed_index == index_or(speed_index_spec(settings.typing_speed_label@), 1),
        r.transparency_index < TYPING_TRANSPARENCY_PRESET_COUNT,
        r.typing_speed_index < TYPING_SPEED_PRESET_COUNT,
        r.apply_saved_transparency == (settings_file_exists && settings_load_error is None),
        r.intelligence_enabled == (api_key is Some && settings.intelligence_enabled),
        r.flush_mode == (match settings.flush_mode {
            Some(m) => m,
            None => if settings.clipboard_enabled {
                crate::modes::TypingFlushMode::Clipboard
            } else {
                crate::modes::TypingFlushMode::Discard
            },
        }),
{
    let model = saved_typing_refiner_model(settings, fallback_model);
    let transparency_index = match crate::normalize::typing_transparency_preset_index(settings.transparency_label.as_str()) {
        Some(i) => i,
        None => 0,
    };
    let typing_speed_index = match crate::normalize::typing_speed_preset_index(settings.typing_speed_label.as_str()) {
        Some(i) => i,
        None => 1,
    };
    let apply_saved_transparency = settings_file_exists && settings_load_error.is_none();
    let intelligence_enabled = api_key.is_some() && settings.intelligence_enabled;
    TypingConfig {
        model,
        api_key,
        instructions,
        response_schema: typing_response_schema(),
        max_output_tokens: TYPING_MAX_OUTPUT_TOKENS,
        input_source: settings.input_source,
        terminal_hwnd,
        settings_path,
        settings_load_error,
        transparency_index,
        typing_speed_index,
        apply_saved_transparency,
        intelligence_enabled,
        flush_mode: settings.flush_mode(),
    }
}

/// A string schema of at most `n` characters.
pub open spec fn bounded_text(n: u64) -> JsonModel {
    JsonModel::Object(seq![("type"@, JsonModel::Str("string"@)), ("maxLength"@, JsonModel::Int(n))])
}

/// The answer a dictation refinement is held to: the text to type and a
/// short note.
pub open spec fn typing_schema_spec() -> JsonModel {
    JsonModel::Object(seq![
        ("type"@, JsonModel::Str("object"@)),
        ("additionalProperties"@, JsonModel::Bool(false)),
        ("properties"@, JsonModel::Object(seq![("typed_text"@, bounded_text(4000)), ("display_note"@, bounded_text(160))])),
        ("required"@, JsonModel::Array(seq![JsonModel::Str("typed_text"@), JsonModel::Str("display_note"@)])),
    ])
}

fn bounded_text_value(n: u64) -> (r: JsonValue)
    ensures
        r@ == bounded_text(n),
{
    crate::request::object2("type", crate::request::str_value("string"), "maxLength", JsonValue::Int(n))
}

/// See `typing_schema_spec`.
pub fn typing_response_schema() -> (r: JsonValue)
    ensures
        r@ == typing_schema_spec(),
{
    let properties = crate::request::object2("typed_text", bounded_text_value(4000), "display_note", bounded_text_value(160));
    let required = crate::request::array2(crate::request::str_value("typed_text"), crate::request::str_value("display_note"));
    crate::request::object4(
        "type", crate::request::str_value("object"),
        "additionalProperties", JsonValue::Bool(false),
        "properties", properties,
        "required", required,
    )
}

/// The transcription run: the settings in effect decide the sources, the
/// window, the language and the fade.
pub fn transcription_app_config(
    model_path: String,
    temp_dir: String,
    terminal_hwnd: Option<isize>,
    transcription_settings_path: String,
    transcription_settings_load_error: Option<String>,
    restart_state_path: Option<String>,
    restart_state: Option<TranscriptionRestartState>,
    settings: EnchantedTranscriptionSettings,
    transparency_tool: String,
    agent: AgentConfig,
) -> (r: AppConfig)
    ensures
        r.mode == AppMode::Transcription,
        r.model_path@ == model_path@,
        r.temp_dir@ == temp_dir@,
        r.terminal_hwnd == terminal_hwnd,
        r.transcription_settings_path@ == transcription_settings_path@,
        opt_text(r.transcription_settings_load_error) == opt_text(transcription_settings_load_error),
        opt_text(r.restart_state_path) == opt_text(restart_state_path),
        r.restart_state == restart_state,
        r.transcription_settings == settings,
        r.sources@ == settings.sources@,
        r.chunk_seconds == settings.chunk_seconds,
        opt_text(r.language) == crate::normalize::language_option_spec(settings.language@),
        r.fade_secs == settings.fade_seconds,
        r.transparency_tool@ == transparency_tool@,
        r.agent == agent,
        r.typing is None,
        config_wf(r),
{
    let sources = crate::normalize::copy_sources(&settings.sources);
    let language = crate::normalize::transcription_language_option(settings.language.as_str());
    let chunk_seconds = settings.chunk_seconds;
    let fade_secs = settings.fade_seconds;
    AppConfig {
        mode: AppMode::Transcription,
        model_path,
        temp_dir,
        terminal_hwnd,
        transcription_settings_path,
        transcription_settings_load_error,
        restart_state_path,
        restart_state,
        transcription_settings: settings,
        sources,
        chunk_seconds,
        language,
        fade_secs,
        transparency_tool,
        agent,
        typing: None,
    }
}

/// The dictation run: both sources, the short window, the language asked
/// for or the default, and the insight pane switched off.
pub fn typing_app_config(
    args: &CliArgs,
    temp_dir: String,
    transcription_settings_path: String,
    transparency_tool: String,
    typing: TypingConfig,
) -> (r: AppConfig)
    requires
        typing.transparency_index < TYPING_TRANSPARENCY_PRESET_COUNT,
        typing.typing_speed_index < TYPING_SPEED_PRESET_COUNT,
    ensures
        r.mode == AppMode::EnhancedTyping,
        r.model_path@ == args.model_path@,
        r.temp_dir@ == temp_dir@,
        r.terminal_hwnd == typing.terminal_hwnd,
        r.transcription_settings_path@ == transcription_settings_path@,
        r.transcription_settings_load_error is None,
        r.restart_state_path is None,
        r.restart_state is None,
        r.sources@ == seq![SourceKind::Microphone, SourceKind::SystemOutput],
        r.chunk_seconds == TYPING_CHUNK_SECONDS,
        opt_text(r.language) == (if args.language_provided { opt_text(args.language) } else { Some(default_language()) }),
        r.fade_secs == args.fade_seconds,
        r.transparency_tool@ == transparency_tool@,
        !r.agent.enabled,
        r.agent.model@ == args.agent_model@,
        r.typing == Some(typing),
        config_wf(r),
{
    let language = if args.language_provided {
        crate::settings::opt_string_clone(&args.language)
    } else {
        Some(string_of(&chars_of(default_language_str())))
    };
    let terminal_hwnd = typing.terminal_hwnd;
    AppConfig {
        mode: AppMode::EnhancedTyping,
        model_path: args.model_path.clone(),
        temp_dir,
        terminal_hwnd,
        transcription_settings_path,
        transcription_settings_load_error: None,
        restart_state_path: None,
        restart_state: None,
        transcription_settings: EnchantedTranscriptionSettings::default(),
        sources: vec![SourceKind::Microphone, SourceKind::SystemOutput],
        chunk_seconds: TYPING_CHUNK_SECONDS,
        language,
        fade_secs: args.fade_seconds,
        transparency_tool,
        agent: AgentConfig::disabled(args.agent_model.clone()),
        typing: Some(typing),
    }
}

} // verus!
