//! Normalization of saved and requested values: languages, Whisper model
//! names, OpenAI model identifiers, reference file names and preset labels.
use vstd::prelude::*;
use crate::modes::{
    speed_preset_spec, transparency_preset_spec, typing_speed_preset, typing_transparency_preset,
    SourceKind, TYPING_SPEED_PRESET_COUNT, TYPING_TRANSPARENCY_PRESET_COUNT,
};
use crate::text::{
    ascii_alphanumeric, chars_equal, chars_of, copy_chars, ends_with, is_suffix, lower_seq,
    string_of, sub_vec, to_ascii_lowercase, trim, trim_vec, contains_sub, contains_chars,
};

verus! {

/// Language used when none is chosen.
pub open spec fn default_language() -> Seq<char> {
    "en"@
}

/// Agent model used when none is chosen.
pub open spec fn default_agent_model() -> Seq<char> {
    "gpt-5.6-terra"@
}

/// The literal `"en"`.
pub fn default_language_str() -> (r: &'static str)
    ensures
        r@ == default_language(),
{
    proof {
        reveal_strlit("en");
    }
    "en"
}

/// The default agent model identifier.
pub fn default_agent_model_str() -> (r: &'static str)
    ensures
        r@ == default_agent_model(),
{
    "gpt-5.6-terra"
}

/// Whether two character sequences are equal ignoring ASCII case.
pub fn eq_ignore_ascii_case(a: &Vec<char>, b: &Vec<char>) -> (r: bool)
    ensures
        r == (lower_seq(a@) == lower_seq(b@)),
{
    let la = to_ascii_lowercase(a);
    let lb = to_ascii_lowercase(b);
    chars_equal(&la, &lb)
}

/// Whether `v` equals the text of `s`.
pub fn is_text(v: &Vec<char>, s: &str) -> (r: bool)
    ensures
        r == (v@ == s@),
{
    let w = chars_of(s);
    chars_equal(v, &w)
}

// ---------------------------------------------------------------------------
// Sources
// ---------------------------------------------------------------------------

/// Both capture sources, microphone first.
pub open spec fn default_sources() -> Seq<SourceKind> {
    seq![SourceKind::Microphone, SourceKind::SystemOutput]
}

/// Sources in canonical order (microphone, then system output), without
/// duplicates; both when none is chosen.
pub open spec fn normalize_sources_spec(sources: Seq<SourceKind>) -> Seq<SourceKind> {
    let mic = sources.contains(SourceKind::Microphone);
    let sys = sources.contains(SourceKind::SystemOutput);
    if mic && sys {
        default_sources()
    } else if mic {
        seq![SourceKind::Microphone]
    } else if sys {
        seq![SourceKind::SystemOutput]
    } else {
        default_sources()
    }
}

/// A copy of a list of capture sources.
pub fn copy_sources(sources: &Vec<SourceKind>) -> (r: Vec<SourceKind>)
    ensures
        r@ == sources@,
{
    let mut out: Vec<SourceKind> = Vec::new();
    let mut i: usize = 0;
    while i < sources.len()
        invariant
            i <= sources.len(),
            out@ == sources@.take(i as int),
        decreases sources.len() - i,
    {
        out.push(sources[i]);
        proof {
            assert(out@ =~= sources@.take(i + 1));
        }
        i += 1;
    }
    proof {
        assert(sources@.take(sources.len() as int) =~= sources@);
    }
    out
}

/// Whether `source` is in the list.
pub fn contains_source(sources: &Vec<SourceKind>, source: SourceKind) -> (r: bool)
    ensures
        r == sources@.contains(source),
{
    let mut i: usize = 0;
    while i < sources.len()
        invariant
            i <= sources.len(),
            forall|j: int| 0 <= j < i ==> sources@[j] != source,
        decreases sources.len() - i,
    {
        if sources[i] == source {
            return true;
        }
        i += 1;
    }
    false
}

/// The default capture sources.
pub fn default_transcription_sources() -> (r: Vec<SourceKind>)
    ensures
        r@ == default_sources(),
{
    let r = vec![SourceKind::Microphone, SourceKind::SystemOutput];
    assert(r@ =~= default_sources());
    r
}

/// Puts capture sources in canonical order; see `normalize_sources_spec`.
pub fn normalize_transcription_sources(sources: &Vec<SourceKind>) -> (r: Vec<SourceKind>)
    ensures
        r@ == normalize_sources_spec(sources@),
{
    let mut normalized: Vec<SourceKind> = Vec::new();
    if contains_source(sources, SourceKind::Microphone) {
        normalized.push(SourceKind::Microphone);
    }
    if contains_source(sources, SourceKind::SystemOutput) {
        normalized.push(SourceKind::SystemOutput);
    }
    if normalized.len() == 0 {
        default_transcription_sources()
    } else {
        proof {
            let mic = sources@.contains(SourceKind::Microphone);
            let sys = sources@.contains(SourceKind::SystemOutput);
            if mic && sys {
                assert(normalized@ =~= default_sources());
            } else if mic {
                assert(normalized@ =~= seq![SourceKind::Microphone]);
            } else {
                assert(normalized@ =~= seq![SourceKind::SystemOutput]);
            }
        }
        normalized
    }
}

// ---------------------------------------------------------------------------
// Languages
// ---------------------------------------------------------------------------

/// A language code character: ASCII letter, digit or `-`.
pub open spec fn language_char(c: char) -> bool {
    ascii_alphanumeric(c) || c == '-'
}

/// A saved language: trimmed and lower-cased; `"en"` when empty or when it
/// holds anything but ASCII letters, digits and `-` (except `"auto"`).
pub open spec fn normalize_language_spec(language: Seq<char>) -> Seq<char> {
    let n = lower_seq(trim(language));
    if n.len() == 0 {
        default_language()
    } else if n == "auto"@ || (forall|i: int| 0 <= i < n.len() ==> language_char(#[trigger] n[i])) {
        n
    } else {
        default_language()
    }
}

fn all_language_chars(v: &Vec<char>) -> (r: bool)
    ensures
        r == (forall|i: int| 0 <= i < v.len() ==> language_char(#[trigger] v@[i])),
{
    let mut i: usize = 0;
    while i < v.len()
        invariant
            i <= v.len(),
            forall|j: int| 0 <= j < i ==> language_char(#[trigger] v@[j]),
        decreases v.len() - i,
    {
        let c = v[i];
        if !(('a' <= c && c <= 'z') || ('A' <= c && c <= 'Z') || ('0' <= c && c <= '9') || c == '-') {
            return false;
        }
        i += 1;
    }
    true
}

/// Normalizes a saved transcription language; see `normalize_language_spec`.
pub fn normalize_transcription_language(language: &str) -> (r: String)
    ensures
        r@ == normalize_language_spec(language@),
{
    let v = chars_of(language);
    let t = trim_vec(&v);
    let normalized = to_ascii_lowercase(&t);
    if normalized.len() == 0 {
        return string_of(&chars_of(default_language_str()));
    }
    if is_text(&normalized, "auto") || all_language_chars(&normalized) {
        string_of(&normalized)
    } else {
        string_of(&chars_of(default_language_str()))
    }
}

/// The language Whisper is constrained to, or `None` for detection.
pub open spec fn language_option_spec(language: Seq<char>) -> Option<Seq<char>> {
    let n = normalize_language_spec(language);
    if n == "auto"@ {
        None
    } else {
        Some(n)
    }
}

/// The language Whisper is constrained to, or `None` to detect it.
pub fn transcription_language_option(language: &str) -> (r: Option<String>)
    ensures
        match r {
            Some(s) => language_option_spec(language@) == Some(s@),
            None => language_option_spec(language@) is None,
        },
{
    let n = normalize_transcription_language(language);
    let nv = chars_of(n.as_str());
    if is_text(&nv, "auto") {
        None
    } else {
        Some(n)
    }
}

/// The saved language setting for an optional constraint: `"auto"` when
/// there is none.
pub fn transcription_language_setting(language: Option<&str>) -> (r: String)
    ensures
        r@ == (match language {
            Some(l) => normalize_language_spec(l@),
            None => "auto"@,
        }),
{
    match language {
        Some(l) => normalize_transcription_language(l),
        None => string_of(&chars_of("auto")),
    }
}

/// A command-line language: trimmed and lower-cased; `None` when empty or
/// `"auto"`; an error unless only ASCII lower-case letters, digits and `-`.
pub open spec fn language_argument_spec(value: Seq<char>) -> Result<Option<Seq<char>>, ()> {
    let l = lower_seq(trim(value));
    if l.len() == 0 || l == "auto"@ {
        Ok(None)
    } else if forall|i: int| 0 <= i < l.len() ==> language_char(#[trigger] l[i]) {
        Ok(Some(l))
    } else {
        Err(())
    }
}

/// Reasons a command-line argument is refused.
#[derive(Clone, Copy, Debug, PartialEq, Eq, Structural)]
pub enum ArgumentError {
    /// `--language` was neither a language code nor `auto`.
    InvalidLanguage,
    /// `--fade-seconds` was not a number from 5 to 180.
    InvalidFadeSeconds,
    /// `--terminal-window-handle` was not an integer.
    InvalidWindowHandle,
    /// `--mode` named no known product.
    InvalidMode,
}

impl ArgumentError {
    /// The message shown for this error.
    pub fn message(self) -> (r: &'static str)
        ensures
            r@ == (match self {
                ArgumentError::InvalidLanguage => "language must be a Whisper language code or auto"@,
                ArgumentError::InvalidFadeSeconds => "fade seconds must be a number from 5 to 180"@,
                ArgumentError::InvalidWindowHandle => "invalid terminal window handle"@,
                ArgumentError::InvalidMode => "--mode must be transcription or enhanced-typing"@,
            }),
    {
        match self {
            ArgumentError::InvalidLanguage => "language must be a Whisper language code or auto",
            ArgumentError::InvalidFadeSeconds => "fade seconds must be a number from 5 to 180",
            ArgumentError::InvalidWindowHandle => "invalid terminal window handle",
            ArgumentError::InvalidMode => "--mode must be transcription or enhanced-typing",
        }
    }
}

/// Parses `--language`; see `language_argument_spec`.
pub fn parse_language_argument(value: &str) -> (r: Result<Option<String>, ArgumentError>)
    ensures
        match r {
            Ok(Some(s)) => language_argument_spec(value@) == Ok::<Option<Seq<char>>, ()>(Some(s@)),
            Ok(None) => language_argument_spec(value@) == Ok::<Option<Seq<char>>, ()>(None),
            Err(e) => language_argument_spec(value@) is Err && e == ArgumentError::InvalidLanguage,
        },
{
    let v = chars_of(value);
    let t = trim_vec(&v);
    let language = to_ascii_lowercase(&t);
    if language.len() == 0 || is_text(&language, "auto") {
        return Ok(None);
    }
    if all_language_chars(&language) {
        return Ok(Some(string_of(&language)));
    }
    Err(ArgumentError::InvalidLanguage)
}

// ---------------------------------------------------------------------------
// Whisper models
// ---------------------------------------------------------------------------

/// Whisper model names offered out of the box.
pub open spec fn builtin_models() -> Seq<Seq<char>> {
    seq![
        "tiny"@,
        "base"@,
        "small"@,
        "medium"@,
        "tiny.en"@,
        "base.en"@,
        "small.en"@,
        "medium.en"@,
    ]
}

/// The built-in Whisper model names.
pub fn builtin_model_names() -> (r: Vec<Vec<char>>)
    ensures
        crate::text::seqs(r@) == builtin_models(),
{
    let r = vec![
        chars_of("tiny"),
        chars_of("base"),
        chars_of("small"),
        chars_of("medium"),
        chars_of("tiny.en"),
        chars_of("base.en"),
        chars_of("small.en"),
        chars_of("medium.en"),
    ];
    assert(crate::text::seqs(r@) =~= builtin_models());
    r
}

pub fn is_builtin_model(model: &Vec<char>) -> (r: bool)
    ensures
        r == builtin_models().contains(model@),
{
    let names = builtin_model_names();
    let mut i: usize = 0;
    while i < names.len()
        invariant
            i <= names.len(),
            crate::text::seqs(names@) == builtin_models(),
            forall|j: int| 0 <= j < i ==> builtin_models()[j] != model@,
        decreases names.len() - i,
    {
        if chars_equal(&names[i], model) {
            assert(builtin_models()[i as int] == model@);
            return true;
        }
        i += 1;
    }
    false
}

/// The model used for a language when no compatible one is chosen.
pub open spec fn default_model_for_language_spec(language: Seq<char>) -> Seq<char> {
    if language == default_language() {
        "medium.en"@
    } else {
        "medium"@
    }
}

/// The default Whisper model for a language.
pub fn default_model_for_language(language: &str) -> (r: String)
    ensures
        r@ == default_model_for_language_spec(language@),
{
    let l = chars_of(language);
    if is_text(&l, "en") {
        proof {
            reveal_strlit("en");
        }
        string_of(&chars_of("medium.en"))
    } else {
        proof {
            reveal_strlit("en");
        }
        string_of(&chars_of("medium"))
    }
}

/// A model name character after the first: ASCII letter, digit, `.`, `-`, `_`.
pub open spec fn model_char(c: char) -> bool {
    ascii_alphanumeric(c) || c == '.' || c == '-' || c == '_'
}

/// A Whisper model name: trimmed and lower-cased, at most 100 characters,
/// starting with an ASCII letter or digit and otherwise made of ASCII
/// letters, digits, `.`, `-` and `_`.
pub open spec fn normalize_model_name_spec(model: Seq<char>) -> Option<Seq<char>> {
    let m = lower_seq(trim(model));
    if m.len() > 100 || m.len() == 0 || !ascii_alphanumeric(m[0]) {
        None
    } else if forall|i: int| 1 <= i < m.len() ==> model_char(#[trigger] m[i]) {
        Some(m)
    } else {
        None
    }
}

/// Validates and normalizes a Whisper model name; see
/// `normalize_model_name_spec`.
pub fn normalize_whisper_model_name(model: &str) -> (r: Option<String>)
    ensures
        match r {
            Some(s) => normalize_model_name_spec(model@) == Some(s@),
            None => normalize_model_name_spec(model@) is None,
        },
{
    let v = chars_of(model);
    let t = trim_vec(&v);
    let m = to_ascii_lowercase(&t);
    if m.len() > 100 || m.len() == 0 {
        return None;
    }
    let c0 = m[0];
    if !(('a' <= c0 && c0 <= 'z') || ('A' <= c0 && c0 <= 'Z') || ('0' <= c0 && c0 <= '9')) {
        return None;
    }
    let mut i: usize = 1;
    while i < m.len()
        invariant
            1 <= i <= m.len(),
            m@ == lower_seq(trim(model@)),
            forall|j: int| 1 <= j < i ==> model_char(#[trigger] m@[j]),
        decreases m.len() - i,
    {
        let c = m[i];
        if !(('a' <= c && c <= 'z') || ('A' <= c && c <= 'Z') || ('0' <= c && c <= '9') || c == '.'
            || c == '-' || c == '_') {
            return None;
        }
        i += 1;
    }
    Some(string_of(&m))
}

/// The model name in a `ggml-<model>.bin` file name, normalized.
pub open spec fn model_name_from_file_spec(file_name: Seq<char>) -> Option<Seq<char>> {
    if file_name.len() >= 9 && file_name.take(5) == "ggml-"@ && is_suffix(".bin"@, file_name) {
        normalize_model_name_spec(file_name.subrange(5, file_name.len() - 4))
    } else {
        None
    }
}

/// The Whisper model named by a model file name (`ggml-<model>.bin`).
pub fn whisper_model_name_from_path(file_name: &str) -> (r: Option<String>)
    ensures
        match r {
            Some(s) => model_name_from_file_spec(file_name@) == Some(s@),
            None => model_name_from_file_spec(file_name@) is None,
        },
{
    let v = chars_of(file_name);
    if v.len() < 9 {
        return None;
    }
    let head = sub_vec(&v, 0, 5);
    assert(head@ =~= v@.take(5));
    let suffix = chars_of(".bin");
    if !is_text(&head, "ggml-") || !ends_with(&v, &suffix) {
        return None;
    }
    let inner = sub_vec(&v, 5, v.len() - 4);
    let s = string_of(&inner);
    normalize_whisper_model_name(s.as_str())
}

/// Whether a Whisper model only handles English.
pub open spec fn english_only_spec(model: Seq<char>) -> bool {
    is_suffix(".en"@, model) || contains_sub(model, ".en-"@) || contains_sub(model, ".en_"@)
}

/// Whether a Whisper model only handles English (`.en` models).
pub fn whisper_model_is_english_only(model: &Vec<char>) -> (r: bool)
    ensures
        r == english_only_spec(model@),
{
    ends_with(model, &chars_of(".en")) || contains_chars(model, &chars_of(".en-"))
        || contains_chars(model, &chars_of(".en_"))
}

/// The model to use with a language: a built-in multilingual model gains
/// `.en` for English; a built-in English-only model loses it for other
/// languages; any other English-only model falls back to the language's
/// default; everything else is kept.
pub open spec fn compatible_model_spec(model: Seq<char>, language: Seq<char>) -> Seq<char> {
    let english = language == default_language();
    let builtin = builtin_models().contains(model);
    let eng_only = english_only_spec(model);
    if english && builtin && !eng_only {
        model + ".en"@
    } else if !english && builtin && eng_only {
        model.take(model.len() - 3)
    } else if !english && !builtin && eng_only {
        default_model_for_language_spec(language)
    } else {
        model
    }
}

/// Adjusts a Whisper model to a language; see `compatible_model_spec`.
pub fn compatible_model_for_language(model: &str, language: &str) -> (r: String)
    ensures
        r@ == compatible_model_spec(model@, language@),
{
    let m = chars_of(model);
    let l = chars_of(language);
    let english = is_text(&l, default_language_str());
    let builtin = is_builtin_model(&m);
    let eng_only = whisper_model_is_english_only(&m);
    if english && builtin && !eng_only {
        let mut out = copy_chars(&m);
        crate::text::append_chars(&mut out, &chars_of(".en"));
        string_of(&out)
    } else if !english && builtin && eng_only {
        proof {
            reveal_strlit(".en");
            reveal_strlit(".en-");
            reveal_strlit(".en_");
            assert(m@.len() >= 3);
        }
        let out = sub_vec(&m, 0, m.len() - 3);
        string_of(&out)
    } else if !english && !builtin && eng_only {
        default_model_for_language(language)
    } else {
        string_of(&m)
    }
}

/// The built-in models offered for a language: the English-only ones for
/// English, the multilingual ones otherwise.
pub open spec fn standard_choices_spec(language: Seq<char>) -> Seq<Seq<char>> {
    if language == default_language() {
        builtin_models().subrange(4, 8)
    } else {
        builtin_models().subrange(0, 4)
    }
}

/// The built-in Whisper models offered for a language.
pub fn standard_model_choices_for_language(language: &str) -> (r: Vec<Vec<char>>)
    ensures
        crate::text::seqs(r@) == standard_choices_spec(language@),
{
    let l = chars_of(language);
    let names = builtin_model_names();
    let english = is_text(&l, default_language_str());
    let mut out: Vec<Vec<char>> = Vec::new();
    let lo: usize = if english {
        4
    } else {
        0
    };
    let mut i: usize = lo;
    assert(crate::text::seqs(names@).len() == names@.len());
    while i < lo + 4
        invariant
            lo == 0 || lo == 4,
            lo <= i <= lo + 4,
            crate::text::seqs(names@) == builtin_models(),
            names.len() == 8,
            crate::text::seqs(out@) == builtin_models().subrange(lo as int, i as int),
        decreases lo + 4 - i,
    {
        let x = copy_chars(&names[i]);
        let ghost before = crate::text::seqs(out@);
        out.push(x);
        assert(crate::text::seqs(out@) =~= before.push(builtin_models()[i as int]));
        i += 1;
        assert(builtin_models().subrange(lo as int, i as int) =~= builtin_models().subrange(
            lo as int,
            i - 1,
        ).push(builtin_models()[i - 1]));
    }
    out
}

/// Adds discovered model files that are not built in, fit the language and
/// are not listed yet.
pub open spec fn add_discovered(choices: Seq<Seq<char>>, language: Seq<char>, discovered: Seq<Seq<char>>) -> Seq<Seq<char>>
    decreases discovered.len(),
{
    if discovered.len() == 0 {
        choices
    } else {
        let prev = add_discovered(choices, language, discovered.drop_last());
        let m = discovered.last();
        if !builtin_models().contains(m) && (language == default_language() || !english_only_spec(m))
            && !prev.contains(m) {
            prev.push(m)
        } else {
            prev
        }
    }
}

fn contains_word(ws: &Vec<Vec<char>>, w: &Vec<char>) -> (r: bool)
    ensures
        r == crate::text::seqs(ws@).contains(w@),
{
    let mut i: usize = 0;
    while i < ws.len()
        invariant
            i <= ws.len(),
            forall|j: int| 0 <= j < i ==> crate::text::seqs(ws@)[j] != w@,
        decreases ws.len() - i,
    {
        if chars_equal(&ws[i], w) {
            assert(crate::text::seqs(ws@)[i as int] == w@);
            return true;
        }
        i += 1;
    }
    false
}

/// Whisper models offered for a language: the standard ones, then
/// compatible discovered model files.
pub fn transcription_model_choices_for_language(language: &str, discovered_models: &Vec<String>) -> (r: Vec<Vec<char>>)
    ensures
        crate::text::seqs(r@) == add_discovered(
            standard_choices_spec(language@),
            language@,
            discovered_models@.map_values(|s: String| s@),
        ),
{
    let l = chars_of(language);
    let english = is_text(&l, default_language_str());
    let mut choices = standard_model_choices_for_language(language);
    let ghost ds = discovered_models@.map_values(|s: String| s@);
    let mut i: usize = 0;
    while i < discovered_models.len()
        invariant
            i <= discovered_models.len(),
            ds == discovered_models@.map_values(|s: String| s@),
            english == (language@ == default_language()),
            crate::text::seqs(choices@) == add_discovered(
                standard_choices_spec(language@),
                language@,
                ds.take(i as int),
            ),
        decreases discovered_models.len() - i,
    {
        let model = chars_of(discovered_models[i].as_str());
        let is_builtin = is_builtin_model(&model);
        let is_compatible = english || !whisper_model_is_english_only(&model);
        let ghost prev = crate::text::seqs(choices@);
        if !is_builtin && is_compatible && !contains_word(&choices, &model) {
            let ghost mv = model@;
            choices.push(model);
            assert(crate::text::seqs(choices@) =~= prev.push(mv));
        }
        i += 1;
        assert(ds.take(i as int).drop_last() =~= ds.take(i - 1));
    }
    assert(ds.take(discovered_models.len() as int) =~= ds);
    choices
}

// ---------------------------------------------------------------------------
// Choices and identifiers
// ---------------------------------------------------------------------------

/// `value` when it is one of `choices`, otherwise `fallback`.
pub fn normalize_choice(value: u64, choices: &Vec<u64>, fallback: u64) -> (r: u64)
    ensures
        r == (if choices@.contains(value) { value } else { fallback }),
{
    let mut i: usize = 0;
    while i < choices.len()
        invariant
            i <= choices.len(),
            forall|j: int| 0 <= j < i ==> choices@[j] != value,
        decreases choices.len() - i,
    {
        if choices[i] == value {
            return value;
        }
        i += 1;
    }
    fallback
}

/// An OpenAI model identifier as saved: trimmed; the names of earlier model
/// generations map to their current counterparts (compared ignoring ASCII
/// case); empty means the default model.
pub open spec fn normalize_model_id_spec(model: Seq<char>) -> Seq<char> {
    let m = trim(model);
    let l = lower_seq(m);
    if l == "gpt-5.4-nano"@ || l == "gpt-5.6-luna"@ {
        "gpt-5.6-luna"@
    } else if l == "gpt-5.4-mini"@ || l == "gpt-5.6-terra"@ {
        "gpt-5.6-terra"@
    } else if l == "gpt-5.5"@ || l == "gpt-5.6-sol"@ || l == "gpt-5.6"@ {
        "gpt-5.6-sol"@
    } else if l.len() == 0 {
        default_agent_model()
    } else {
        m
    }
}

/// Normalizes an OpenAI model identifier; see `normalize_model_id_spec`.
pub fn normalize_openai_model_id(model: &str) -> (r: String)
    ensures
        r@ == normalize_model_id_spec(model@),
{
    let v = chars_of(model);
    let m = trim_vec(&v);
    let l = to_ascii_lowercase(&m);
    if is_text(&l, "gpt-5.4-nano") || is_text(&l, "gpt-5.6-luna") {
        string_of(&chars_of("gpt-5.6-luna"))
    } else if is_text(&l, "gpt-5.4-mini") || is_text(&l, "gpt-5.6-terra") {
        string_of(&chars_of("gpt-5.6-terra"))
    } else if is_text(&l, "gpt-5.5") || is_text(&l, "gpt-5.6-sol") || is_text(&l, "gpt-5.6") {
        string_of(&chars_of("gpt-5.6-sol"))
    } else if l.len() == 0 {
        string_of(&chars_of(default_agent_model_str()))
    } else {
        string_of(&m)
    }
}

/// Index of the transparency preset whose label equals the trimmed text,
/// ignoring ASCII case.
pub open spec fn transparency_index_spec(label: Seq<char>) -> Option<int> {
    if exists|i: int|
        0 <= i < TYPING_TRANSPARENCY_PRESET_COUNT && lower_seq(#[trigger] transparency_preset_spec(i).0)
            == lower_seq(trim(label)) {
        Some(
            choose|i: int|
                0 <= i < TYPING_TRANSPARENCY_PRESET_COUNT && lower_seq(
                    #[trigger] transparency_preset_spec(i).0,
                ) == lower_seq(trim(label)) && forall|j: int|
                    0 <= j < i ==> lower_seq(#[trigger] transparency_preset_spec(j).0) != lower_seq(
                        trim(label),
                    ),
        )
    } else {
        None
    }
}

/// Index of the typing speed preset whose label equals the trimmed text,
/// ignoring ASCII case.
pub open spec fn speed_index_spec(label: Seq<char>) -> Option<int> {
    if exists|i: int|
        0 <= i < TYPING_SPEED_PRESET_COUNT && lower_seq(#[trigger] speed_preset_spec(i).0)
            == lower_seq(trim(label)) {
        Some(
            choose|i: int|
                0 <= i < TYPING_SPEED_PRESET_COUNT && lower_seq(#[trigger] speed_preset_spec(i).0)
                    == lower_seq(trim(label)) && forall|j: int|
                    0 <= j < i ==> lower_seq(#[trigger] speed_preset_spec(j).0) != lower_seq(
                        trim(label),
                    ),
        )
    } else {
        None
    }
}

/// Finds a transparency preset by label; see `transparency_index_spec`.
pub fn typing_transparency_preset_index(label: &str) -> (r: Option<usize>)
    ensures
        match r {
            Some(i) => transparency_index_spec(label@) == Some(i as int),
            None => transparency_index_spec(label@) is None,
        },
{
    let v = chars_of(label);
    let t = trim_vec(&v);
    let mut i: usize = 0;
    while i < TYPING_TRANSPARENCY_PRESET_COUNT
        invariant
            i <= TYPING_TRANSPARENCY_PRESET_COUNT,
            t@ == trim(label@),
            forall|j: int| 0 <= j < i ==> lower_seq(#[trigger] transparency_preset_spec(j).0) != lower_seq(t@),
        decreases TYPING_TRANSPARENCY_PRESET_COUNT - i,
    {
        let preset = typing_transparency_preset(i);
        let pl = chars_of(preset.label);
        if eq_ignore_ascii_case(&pl, &t) {
            proof {
                let w = choose|k: int|
                    0 <= k < TYPING_TRANSPARENCY_PRESET_COUNT && lower_seq(
                        #[trigger] transparency_preset_spec(k).0,
                    ) == lower_seq(trim(label@)) && forall|j: int|
                        0 <= j < k ==> lower_seq(#[trigger] transparency_preset_spec(j).0)
                            != lower_seq(trim(label@));
                assert(0 <= i < TYPING_TRANSPARENCY_PRESET_COUNT && lower_seq(
                    transparency_preset_spec(i as int).0,
                ) == lower_seq(trim(label@)));
                if w < i {
                } else if w > i {
                    assert(lower_seq(transparency_preset_spec(i as int).0) != lower_seq(trim(label@)));
                }
            }
            return Some(i);
        }
        i += 1;
    }
    None
}

/// Finds a typing speed preset by label; see `speed_index_spec`.
pub fn typing_speed_preset_index(label: &str) -> (r: Option<usize>)
    ensures
        match r {
            Some(i) => speed_index_spec(label@) == Some(i as int),
            None => speed_index_spec(label@) is None,
        },
{
    let v = chars_of(label);
    let t = trim_vec(&v);
    let mut i: usize = 0;
    while i < TYPING_SPEED_PRESET_COUNT
        invariant
            i <= TYPING_SPEED_PRESET_COUNT,
            t@ == trim(label@),
            forall|j: int| 0 <= j < i ==> lower_seq(#[trigger] speed_preset_spec(j).0) != lower_seq(t@),
        decreases TYPING_SPEED_PRESET_COUNT - i,
    {
        let preset = typing_speed_preset(i);
        let pl = chars_of(preset.label);
        if eq_ignore_ascii_case(&pl, &t) {
            proof {
                let w = choose|k: int|
                    0 <= k < TYPING_SPEED_PRESET_COUNT && lower_seq(#[trigger] speed_preset_spec(k).0)
                        == lower_seq(trim(label@)) && forall|j: int|
                        0 <= j < k ==> lower_seq(#[trigger] speed_preset_spec(j).0) != lower_seq(
                            trim(label@),
                        );
                assert(0 <= i < TYPING_SPEED_PRESET_COUNT && lower_seq(speed_preset_spec(i as int).0)
                    == lower_seq(trim(label@)));
                if w > i {
                    assert(lower_seq(speed_preset_spec(i as int).0) != lower_seq(trim(label@)));
                }
            }
            return Some(i);
        }
        i += 1;
    }
    None
}

// ---------------------------------------------------------------------------
// Normalized values stay as they are
// ---------------------------------------------------------------------------

/// A text of non-whitespace ASCII characters without upper-case letters is
/// its own trimmed, lower-cased form.
proof fn lemma_plain_ascii_fixed(s: Seq<char>)
    requires
        forall|i: int| 0 <= i < s.len() ==> (#[trigger] s[i] as u32) < 128 && !crate::text::ascii_whitespace(s[i])
            && !('A' <= s[i] && s[i] <= 'Z'),
    ensures
        trim(s) == s,
        lower_seq(trim(s)) == s,
{
    if s.len() > 0 {
        crate::text::ascii_whitespace_agrees(s[0]);
        crate::text::ascii_whitespace_agrees(s.last());
    }
    crate::text::trim_of_unpadded(s);
    crate::text::lower_of_lowercase(s);
}

/// A normalized language normalizes to itself.
pub proof fn normalized_language_is_stable(language: Seq<char>)
    ensures
        normalize_language_spec(normalize_language_spec(language)) == normalize_language_spec(language),
{
    reveal_strlit("en");
    reveal_strlit("auto");
    let n = normalize_language_spec(language);
    let l = lower_seq(trim(language));
    crate::text::lowered_has_no_upper(trim(language));
    assert(forall|i: int| 0 <= i < n.len() ==> language_char(#[trigger] n[i]));
    assert(forall|i: int| 0 <= i < n.len() ==> !('A' <= #[trigger] n[i] && n[i] <= 'Z'));
    lemma_plain_ascii_fixed(n);
}

/// A valid model name: at most 100 characters, an ASCII letter or digit
/// first, model characters after it, no upper-case letter.
proof fn lemma_valid_name_fixed(m: Seq<char>)
    requires
        0 < m.len() <= 100,
        ascii_alphanumeric(m[0]),
        forall|i: int| 1 <= i < m.len() ==> model_char(#[trigger] m[i]),
        forall|i: int| 0 <= i < m.len() ==> !('A' <= #[trigger] m[i] && m[i] <= 'Z'),
    ensures
        normalize_model_name_spec(m) == Some(m),
{
    assert forall|i: int| 0 <= i < m.len() implies (#[trigger] m[i] as u32) < 128 && !crate::text::ascii_whitespace(m[i])
        && !('A' <= m[i] && m[i] <= 'Z') by {
        if i > 0 {
            assert(model_char(m[i]));
        }
    }
    lemma_plain_ascii_fixed(m);
}

/// A normalized model name normalizes to itself.
proof fn lemma_name_stable(model: Seq<char>, m: Seq<char>)
    requires
        normalize_model_name_spec(model) == Some(m),
    ensures
        normalize_model_name_spec(m) == Some(m),
{
    crate::text::lowered_has_no_upper(trim(model));
    lemma_valid_name_fixed(m);
}

/// A text without the character `p[k]` does not contain `p`.
proof fn lemma_missing_char_no_sub(s: Seq<char>, p: Seq<char>, k: int)
    requires
        0 <= k < p.len(),
        forall|j: int| 0 <= j < s.len() ==> #[trigger] s[j] != p[k],
    ensures
        !contains_sub(s, p),
{
    if contains_sub(s, p) {
        let i = choose|i: int| 0 <= i <= s.len() - p.len() && #[trigger] s.subrange(i, i + p.len()) == p;
        assert(s.subrange(i, i + p.len())[k] == s[i + k]);
    }
}

/// A built-in model is a valid name, and English-only exactly when it
/// ends in `.en`.
proof fn lemma_builtin_name(b: Seq<char>)
    requires
        !b.contains('-'),
        !b.contains('_'),
        0 < b.len() <= 100,
        forall|i: int| 0 <= i < b.len() ==> ('a' <= #[trigger] b[i] && b[i] <= 'z') || b[i] == '.',
        ascii_alphanumeric(b[0]),
    ensures
        normalize_model_name_spec(b) == Some(b),
        english_only_spec(b) == is_suffix(".en"@, b),
{
    reveal_strlit(".en-");
    reveal_strlit(".en_");
    assert forall|i: int| 1 <= i < b.len() implies model_char(#[trigger] b[i]) by {}
    lemma_valid_name_fixed(b);
    assert forall|j: int| 0 <= j < b.len() implies #[trigger] b[j] != ".en-"@[3] by {
        if b[j] == '-' {
            assert(b.contains('-'));
        }
    }
    lemma_missing_char_no_sub(b, ".en-"@, 3);
    assert forall|j: int| 0 <= j < b.len() implies #[trigger] b[j] != ".en_"@[3] by {
        if b[j] == '_' {
            assert(b.contains('_'));
        }
    }
    lemma_missing_char_no_sub(b, ".en_"@, 3);
}

/// Facts about the built-in models: each is a valid name; the four
/// multilingual ones are not English-only and gain `.en` into the list; the
/// four English-only ones lose it back into the list.
proof fn lemma_builtin_models()
    ensures
        forall|b: Seq<char>| builtin_models().contains(b) ==> normalize_model_name_spec(b) == Some(b),
        forall|b: Seq<char>| #[trigger] builtin_models().contains(b) && !english_only_spec(b)
            ==> builtin_models().contains(b + ".en"@) && english_only_spec(b + ".en"@),
        forall|b: Seq<char>| #[trigger] builtin_models().contains(b) && english_only_spec(b)
            ==> builtin_models().contains(b.take(b.len() - 3)) && !english_only_spec(b.take(b.len() - 3)),
        builtin_models().contains("medium"@),
        builtin_models().contains("medium.en"@),
        !english_only_spec("medium"@),
        english_only_spec("medium.en"@),
{
    reveal_strlit("tiny");
    reveal_strlit("base");
    reveal_strlit("small");
    reveal_strlit("medium");
    reveal_strlit("tiny.en");
    reveal_strlit("base.en");
    reveal_strlit("small.en");
    reveal_strlit("medium.en");
    reveal_strlit(".en");
    let list = builtin_models();
    assert forall|i: int| 0 <= i < list.len() implies
        normalize_model_name_spec(#[trigger] list[i]) == Some(list[i])
        && english_only_spec(list[i]) == (i >= 4)
        && (i < 4 ==> list[i] + ".en"@ == list[i + 4])
        && (i >= 4 ==> list[i].take(list[i].len() - 3) == list[i - 4]) by {
        let b = list[i];
        assert(!b.contains('-'));
        assert(!b.contains('_'));
        lemma_builtin_name(b);
        if i < 4 {
            assert(b.subrange(b.len() - 3, b.len() as int)[0] == b[b.len() - 3]);
            assert(b[b.len() - 3] != '.');
            assert(b + ".en"@ =~= list[i + 4]);
        } else {
            assert(b.subrange(b.len() - 3, b.len() as int) =~= ".en"@);
            assert(b.take(b.len() - 3) =~= list[i - 4]);
        }
    }
    assert(list[3] == "medium"@);
    assert(list[7] == "medium.en"@);
    assert forall|b: Seq<char>| builtin_models().contains(b) implies normalize_model_name_spec(b) == Some(b) by {
        let i = choose|i: int| 0 <= i < list.len() && list[i] == b;
        assert(normalize_model_name_spec(list[i]) == Some(list[i]));
    }
    assert forall|b: Seq<char>| #[trigger] builtin_models().contains(b) && !english_only_spec(b)
        implies builtin_models().contains(b + ".en"@) && english_only_spec(b + ".en"@) by {
        let i = choose|i: int| 0 <= i < list.len() && list[i] == b;
        assert(normalize_model_name_spec(list[i]) == Some(list[i]));
        assert(i < 4);
        assert(list[i + 4] == b + ".en"@);
        assert(normalize_model_name_spec(list[i + 4]) == Some(list[i + 4]));
    }
    assert forall|b: Seq<char>| #[trigger] builtin_models().contains(b) && english_only_spec(b)
        implies builtin_models().contains(b.take(b.len() - 3)) && !english_only_spec(b.take(b.len() - 3)) by {
        let i = choose|i: int| 0 <= i < list.len() && list[i] == b;
        assert(normalize_model_name_spec(list[i]) == Some(list[i]));
        assert(i >= 4);
        assert(list[i - 4] == b.take(b.len() - 3));
        assert(normalize_model_name_spec(list[i - 4]) == Some(list[i - 4]));
    }
    assert(normalize_model_name_spec(list[3]) == Some(list[3]));
    assert(normalize_model_name_spec(list[7]) == Some(list[7]));
}

/// The model chosen for a language, chosen again for it, stays.
pub(crate) proof fn lemma_kept_model_stable(model: Seq<char>, language: Seq<char>)
    ensures
        ({
            let kept = match normalize_model_name_spec(model) {
                Some(m) => compatible_model_spec(m, language),
                None => default_model_for_language_spec(language),
            };
            &&& normalize_model_name_spec(kept) == Some(kept)
            &&& compatible_model_spec(kept, language) == kept
        }),
{
    lemma_builtin_models();
    match normalize_model_name_spec(model) {
        Some(m) => {
            lemma_name_stable(model, m);
            let english = language == default_language();
            let builtin = builtin_models().contains(m);
            let eng_only = english_only_spec(m);
            if english && builtin && !eng_only {
                assert(builtin_models().contains(m + ".en"@));
            } else if !english && builtin && eng_only {
                assert(builtin_models().contains(m.take(m.len() - 3)));
            }
        },
        None => {},
    }
}

/// An OpenAI model identifier as saved is saved unchanged.
pub(crate) proof fn lemma_model_id_stable(model: Seq<char>)
    ensures
        normalize_model_id_spec(normalize_model_id_spec(model)) == normalize_model_id_spec(model),
{
    reveal_strlit("gpt-5.4-nano");
    reveal_strlit("gpt-5.6-luna");
    reveal_strlit("gpt-5.4-mini");
    reveal_strlit("gpt-5.6-terra");
    reveal_strlit("gpt-5.5");
    reveal_strlit("gpt-5.6-sol");
    reveal_strlit("gpt-5.6");
    let r = normalize_model_id_spec(model);
    let m = trim(model);
    crate::text::trim_idempotent(model);
    if r == m {
        assert(trim(r) == m);
    } else {
        assert(forall|i: int| 0 <= i < r.len() ==> (#[trigger] r[i] as u32) < 128 && !crate::text::ascii_whitespace(r[i])
            && !('A' <= r[i] && r[i] <= 'Z'));
        lemma_plain_ascii_fixed(r);
    }
}

/// The fallback transparency label is a known one.
pub(crate) proof fn lemma_opaque_label_known()
    ensures
        transparency_index_spec("opaque"@) is Some,
{
    reveal_strlit("opaque");
    lemma_plain_ascii_fixed("opaque"@);
    assert(lower_seq(transparency_preset_spec(0).0) == lower_seq(trim("opaque"@)));
}

} // verus!
