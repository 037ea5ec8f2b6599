//! The requests sent to the model: what the insight pane and the typing
//! refiner ask, built as JSON values. The payload travels as its
//! pretty-printed text inside the request; printing it is the caller's.
use vstd::prelude::*;

use crate::agent::{opt_view, AgentInput, AGENT_CONTEXT_CHARS};
use crate::delta::{new_text, recent};
use crate::json::{lemma_item_views, lemma_member_views, members_view, values_view, JsonModel, JsonValue};
use crate::modes::{answer_mode_value, strictness_instruction, strictness_value, ContextStrictness};
use crate::startup::{AgentConfig, TypingConfig};
use crate::text::{chars_of, string_of, trim};
use crate::hex::utf8_len;
use crate::numbers::{decimal, decimal_chars, push_str_chars};
use crate::settings::{context_name_spec, normalize_context_file_name};

verus! {

/// The largest reference document sent, in bytes.
pub const MAX_REFERENCE_CONTEXT_BYTES: u64 = 32768;

/// A reference document read from the contexts folder.
pub struct ReferenceContext {
    pub file_name: String,
    pub content: String,
}

/// A text value.
pub open spec fn text_model(s: Seq<char>) -> JsonModel {
    JsonModel::Str(s)
}

/// An optional text value: null when absent.
pub open spec fn opt_text_model(s: Option<Seq<char>>) -> JsonModel {
    match s {
        Some(t) => JsonModel::Str(t),
        None => JsonModel::Null,
    }
}

/// The recent part of an optional transcript.
pub open spec fn opt_recent(m: Option<Seq<char>>, max: int) -> Option<Seq<char>> {
    match m {
        Some(t) => Some(recent(t, max)),
        None => None,
    }
}

/// What is new in an optional transcript.
pub open spec fn opt_new_text(previous: Option<Seq<char>>, m: Option<Seq<char>>, max: int) -> Option<Seq<char>> {
    match m {
        Some(t) => Some(new_text(previous, t, max)),
        None => None,
    }
}

/// The reference document sent: its name, the strictness and its text.
pub open spec fn reference_model(reference: Option<(Seq<char>, Seq<char>)>, strictness: ContextStrictness) -> JsonModel {
    match reference {
        Some((name, content)) => JsonModel::Object(seq![
            ("file_name"@, text_model(name)),
            ("strictness"@, text_model(strictness_value(strictness))),
            ("content"@, text_model(content)),
        ]),
        None => JsonModel::Null,
    }
}

/// The system transcript of an earlier input.
pub open spec fn earlier_system(previous: Option<AgentInput>) -> Option<Seq<char>> {
    match previous {
        Some(p) => Some(p.system_transcript@),
        None => None,
    }
}

/// The microphone transcript of an earlier input.
pub open spec fn earlier_microphone(previous: Option<AgentInput>) -> Option<Seq<char>> {
    match previous {
        Some(p) => opt_view(p.microphone_transcript),
        None => None,
    }
}

/// What the insight pane sends besides its instructions: the answer mode,
/// the reference document, the current answer, the recent transcripts and
/// what is new in them since the last answered input.
pub open spec fn agent_payload_spec(
    config: AgentConfig,
    input: AgentInput,
    previous: Option<AgentInput>,
    current_state: JsonModel,
    reference: Option<(Seq<char>, Seq<char>)>,
) -> JsonModel {
    let max = AGENT_CONTEXT_CHARS as int;
    let microphone = opt_view(input.microphone_transcript);
    JsonModel::Object(seq![
        ("answer_mode"@, text_model(answer_mode_value(config.answer_mode))),
        ("reference_context"@, reference_model(reference, config.context_strictness)),
        ("current_agent_state"@, current_state),
        ("transcript_context"@, JsonModel::Object(seq![
            ("system_output_transcript"@, text_model(recent(input.system_transcript@, max))),
            ("microphone_transcript"@, opt_text_model(opt_recent(microphone, max))),
        ])),
        ("new_since_last_agent_update"@, JsonModel::Object(seq![
            ("system_output"@, text_model(new_text(earlier_system(previous), input.system_transcript@, max))),
            ("microphone"@, opt_text_model(opt_new_text(earlier_microphone(previous), microphone, max))),
        ])),
    ])
}

pub(crate) fn str_value(s: &str) -> (r: JsonValue)
    ensures
        r@ == text_model(s@),
{
    JsonValue::Str(string_of(&chars_of(s)))
}

pub(crate) fn string_value(s: String) -> (r: JsonValue)
    ensures
        r@ == text_model(s@),
{
    JsonValue::Str(s)
}

fn member(key: &str, value: JsonValue) -> (r: (String, JsonValue))
    ensures
        r.0@ == key@,
        r.1 == value,
{
    (string_of(&chars_of(key)), value)
}

pub(crate) fn object1(k1: &str, v1: JsonValue) -> (r: JsonValue)
    ensures
        r@ == JsonModel::Object(seq![(k1@, v1@)]),
{
    let pairs = vec![member(k1, v1)];
    proof {
        lemma_member_views(pairs@, pairs@.len());
        assert(members_view(pairs@) =~= seq![(k1@, v1@)]);
    }
    JsonValue::Object(pairs)
}

pub(crate) fn object2(k1: &str, v1: JsonValue, k2: &str, v2: JsonValue) -> (r: JsonValue)
    ensures
        r@ == JsonModel::Object(seq![(k1@, v1@), (k2@, v2@)]),
{
    let pairs = vec![member(k1, v1), member(k2, v2)];
    proof {
        lemma_member_views(pairs@, pairs@.len());
        assert(members_view(pairs@) =~= seq![(k1@, v1@), (k2@, v2@)]);
    }
    JsonValue::Object(pairs)
}

pub(crate) fn object3(k1: &str, v1: JsonValue, k2: &str, v2: JsonValue, k3: &str, v3: JsonValue) -> (r: JsonValue)
    ensures
        r@ == JsonModel::Object(seq![(k1@, v1@), (k2@, v2@), (k3@, v3@)]),
{
    let pairs = vec![member(k1, v1), member(k2, v2), member(k3, v3)];
    proof {
        lemma_member_views(pairs@, pairs@.len());
        assert(members_view(pairs@) =~= seq![(k1@, v1@), (k2@, v2@), (k3@, v3@)]);
    }
    JsonValue::Object(pairs)
}

pub(crate) fn object4(k1: &str, v1: JsonValue, k2: &str, v2: JsonValue, k3: &str, v3: JsonValue, k4: &str, v4: JsonValue) -> (r: JsonValue)
    ensures
        r@ == JsonModel::Object(seq![(k1@, v1@), (k2@, v2@), (k3@, v3@), (k4@, v4@)]),
{
    let pairs = vec![member(k1, v1), member(k2, v2), member(k3, v3), member(k4, v4)];
    proof {
        lemma_member_views(pairs@, pairs@.len());
        assert(members_view(pairs@) =~= seq![(k1@, v1@), (k2@, v2@), (k3@, v3@), (k4@, v4@)]);
    }
    JsonValue::Object(pairs)
}

pub(crate) fn object5(k1: &str, v1: JsonValue, k2: &str, v2: JsonValue, k3: &str, v3: JsonValue, k4: &str, v4: JsonValue, k5: &str, v5: JsonValue) -> (r: JsonValue)
    ensures
        r@ == JsonModel::Object(seq![(k1@, v1@), (k2@, v2@), (k3@, v3@), (k4@, v4@), (k5@, v5@)]),
{
    let pairs = vec![member(k1, v1), member(k2, v2), member(k3, v3), member(k4, v4), member(k5, v5)];
    proof {
        lemma_member_views(pairs@, pairs@.len());
        assert(members_view(pairs@) =~= seq![(k1@, v1@), (k2@, v2@), (k3@, v3@), (k4@, v4@), (k5@, v5@)]);
    }
    JsonValue::Object(pairs)
}

pub(crate) fn array1(v1: JsonValue) -> (r: JsonValue)
    ensures
        r@ == JsonModel::Array(seq![v1@]),
{
    let items = vec![v1];
    proof {
        lemma_item_views(items@, items@.len());
        assert(values_view(items@) =~= seq![v1@]);
    }
    JsonValue::Array(items)
}

pub(crate) fn array2(v1: JsonValue, v2: JsonValue) -> (r: JsonValue)
    ensures
        r@ == JsonModel::Array(seq![v1@, v2@]),
{
    let items = vec![v1, v2];
    proof {
        lemma_item_views(items@, items@.len());
        assert(values_view(items@) =~= seq![v1@, v2@]);
    }
    JsonValue::Array(items)
}

/// The payload of an insight request; see `agent_payload_spec`.
pub fn agent_request_payload(
    config: &AgentConfig,
    input: &AgentInput,
    previous: Option<&AgentInput>,
    current_state: &JsonValue,
    reference: Option<&ReferenceContext>,
) -> (r: JsonValue)
    ensures
        r@ == agent_payload_spec(
            *config,
            *input,
            match previous {
                Some(p) => Some(*p),
                None => None,
            },
            current_state@,
            match reference {
                Some(c) => Some((c.file_name@, c.content@)),
                None => None,
            },
        ),
{
    let previous_system = match previous {
        Some(p) => Some(p.system_transcript.as_str()),
        None => None,
    };
    let previous_microphone = match previous {
        Some(p) => match &p.microphone_transcript {
            Some(m) => Some(m.as_str()),
            None => None,
        },
        None => None,
    };
    let system_new = crate::delta::new_text_since(previous_system, input.system_transcript.as_str(), AGENT_CONTEXT_CHARS);
    let microphone_new = match &input.microphone_transcript {
        Some(m) => string_value(crate::delta::new_text_since(previous_microphone, m.as_str(), AGENT_CONTEXT_CHARS)),
        None => JsonValue::Null,
    };
    assert(microphone_new@ == opt_text_model(opt_new_text(
        match previous_microphone { Some(p) => Some(p@), None => None::<Seq<char>> },
        opt_view(input.microphone_transcript),
        AGENT_CONTEXT_CHARS as int,
    )));
    let microphone_recent = match &input.microphone_transcript {
        Some(m) => string_value(crate::delta::recent_chars(m.as_str(), AGENT_CONTEXT_CHARS)),
        None => JsonValue::Null,
    };
    assert(microphone_recent@ == opt_text_model(opt_recent(opt_view(input.microphone_transcript), AGENT_CONTEXT_CHARS as int)));
    let reference_value = match reference {
        Some(c) => object3(
            "file_name", string_value(c.file_name.clone()),
            "strictness", str_value(config.context_strictness.request_value()),
            "content", string_value(c.content.clone()),
        ),
        None => JsonValue::Null,
    };
    let transcripts = object2(
        "system_output_transcript", string_value(crate::delta::recent_chars(input.system_transcript.as_str(), AGENT_CONTEXT_CHARS)),
        "microphone_transcript", microphone_recent,
    );
    let fresh = object2("system_output", string_value(system_new), "microphone", microphone_new);
    let r = object5(
        "answer_mode", str_value(config.answer_mode.request_value()),
        "reference_context", reference_value,
        "current_agent_state", crate::json::clone_value(current_state),
        "transcript_context", transcripts,
        "new_since_last_agent_update", fresh,
    );
    proof {
        let prev_model: Option<AgentInput> = match previous {
            Some(p) => Some(*p),
            None => None,
        };
        let spec_reference: Option<(Seq<char>, Seq<char>)> = match reference {
            Some(c) => Some((c.file_name@, c.content@)),
            None => None,
        };
        assert(earlier_system(prev_model) == match previous_system { Some(p) => Some(p@), None => None::<Seq<char>> });
        assert(earlier_microphone(prev_model) == match previous_microphone { Some(p) => Some(p@), None => None::<Seq<char>> });
        assert(r@ =~= agent_payload_spec(*config, *input, prev_model, current_state@, spec_reference));
    }
    r
}

/// The developer instructions of an insight request: the configured ones,
/// with the reference policy of the strictness when a document is sent.
pub open spec fn agent_instructions_spec(config: AgentConfig, has_reference: bool) -> Seq<char> {
    if has_reference {
        config.instructions@ + "\n\n## Reference context policy\n\n"@ + strictness_instruction(config.context_strictness)
    } else {
        config.instructions@
    }
}

/// See `agent_instructions_spec`.
pub fn agent_developer_instructions(config: &AgentConfig, has_reference: bool) -> (r: String)
    ensures
        r@ == agent_instructions_spec(*config, has_reference),
{
    let mut out = chars_of(config.instructions.as_str());
    if has_reference {
        crate::text::append_chars(&mut out, &chars_of("\n\n## Reference context policy\n\n"));
        crate::text::append_chars(&mut out, &chars_of(config.context_strictness.developer_instruction()));
    }
    string_of(&out)
}

/// A request to the model: no stored response, the developer instructions
/// and the user text as input, the token limit, and an answer held to a
/// schema under `format_name`.
pub open spec fn request_body_spec(model: Seq<char>, instructions: Seq<char>, user_text: Seq<char>, max_output_tokens: u64, format_name: Seq<char>, schema: JsonModel) -> JsonModel {
    JsonModel::Object(seq![
        ("model"@, text_model(model)),
        ("store"@, JsonModel::Bool(false)),
        ("input"@, JsonModel::Array(seq![
            JsonModel::Object(seq![
                ("role"@, text_model("developer"@)),
                ("content"@, JsonModel::Array(seq![JsonModel::Object(seq![
                    ("type"@, text_model("input_text"@)),
                    ("text"@, text_model(instructions)),
                ])])),
            ]),
            JsonModel::Object(seq![
                ("role"@, text_model("user"@)),
                ("content"@, JsonModel::Array(seq![JsonModel::Object(seq![
                    ("type"@, text_model("input_text"@)),
                    ("text"@, text_model(user_text)),
                ])])),
            ]),
        ])),
        ("max_output_tokens"@, JsonModel::Int(max_output_tokens)),
        ("text"@, JsonModel::Object(seq![
            ("format"@, JsonModel::Object(seq![
                ("type"@, text_model("json_schema"@)),
                ("name"@, text_model(format_name)),
                ("strict"@, JsonModel::Bool(true)),
                ("schema"@, schema),
            ])),
        ])),
    ])
}

fn input_entry(role: &str, text: String) -> (r: JsonValue)
    ensures
        r@ == JsonModel::Object(seq![
            ("role"@, text_model(role@)),
            ("content"@, JsonModel::Array(seq![JsonModel::Object(seq![
                ("type"@, text_model("input_text"@)),
                ("text"@, text_model(text@)),
            ])])),
        ]),
{
    let part = object2("type", str_value("input_text"), "text", string_value(text));
    let r = object2("role", str_value(role), "content", array1(part));
    proof {
        assert(r@ =~= JsonModel::Object(seq![
            ("role"@, text_model(role@)),
            ("content"@, JsonModel::Array(seq![JsonModel::Object(seq![
                ("type"@, text_model("input_text"@)),
                ("text"@, text_model(text@)),
            ])])),
        ]));
    }
    r
}

fn request_body(model: String, instructions: String, user_text: String, max_output_tokens: u64, format_name: &str, schema: &JsonValue) -> (r: JsonValue)
    ensures
        r@ == request_body_spec(model@, instructions@, user_text@, max_output_tokens, format_name@, schema@),
{
    let format = object4(
        "type", str_value("json_schema"),
        "name", str_value(format_name),
        "strict", JsonValue::Bool(true),
        "schema", crate::json::clone_value(schema),
    );
    let r = object5(
        "model", string_value(model),
        "store", JsonValue::Bool(false),
        "input", array2(input_entry("developer", instructions), input_entry("user", user_text)),
        "max_output_tokens", JsonValue::Int(max_output_tokens),
        "text", object1("format", format),
    );
    proof {
        assert(r@ =~= request_body_spec(model@, instructions@, user_text@, max_output_tokens, format_name@, schema@));
    }
    r
}

/// An insight request with the printed payload; see `request_body_spec`.
pub fn agent_request_body(config: &AgentConfig, instructions: String, payload_text: String) -> (r: JsonValue)
    ensures
        r@ == request_body_spec(
            config.model@,
            instructions@,
            payload_text@,
            config.max_output_tokens,
            "enchanted_transcription_agent"@,
            config.response_schema@,
        ),
{
    request_body(config.model.clone(), instructions, payload_text, config.max_output_tokens, "enchanted_transcription_agent", &config.response_schema)
}

/// What the typing refiner sends: the raw dictation.
pub open spec fn typing_payload_spec(raw_text: Seq<char>) -> JsonModel {
    JsonModel::Object(seq![("raw_mic_transcript"@, text_model(raw_text))])
}

/// See `typing_payload_spec`.
pub fn typing_request_payload(raw_text: &str) -> (r: JsonValue)
    ensures
        r@ == typing_payload_spec(raw_text@),
{
    let r = object1("raw_mic_transcript", str_value(raw_text));
    proof {
        assert(r@ =~= typing_payload_spec(raw_text@));
    }
    r
}

/// A typing refinement request for `model` with the printed payload; see
/// `request_body_spec`.
pub fn typing_request_body(config: &TypingConfig, model: &str, payload_text: String) -> (r: JsonValue)
    ensures
        r@ == request_body_spec(model@, config.instructions@, payload_text@, config.max_output_tokens, "enhanced_typing"@, config.response_schema@),
{
    request_body(string_of(&chars_of(model)), config.instructions.clone(), payload_text, config.max_output_tokens, "enhanced_typing", &config.response_schema)
}

/// Why a reference document is not sent.
pub enum ReferenceError {
    /// The configured name is not a plain file name of the folder.
    InvalidName,
    /// The file is larger than the limit.
    TooLarge { file_name: String, bytes: u64 },
    /// The file grew past the limit while it was read.
    Changed { file_name: String },
    /// The file holds nothing but whitespace.
    Empty { file_name: String },
}

/// The message shown for a refused reference document.
pub open spec fn reference_message(e: ReferenceError) -> Seq<char> {
    match e {
        ReferenceError::InvalidName => "invalid context file name"@,
        ReferenceError::TooLarge { file_name, bytes } => file_name@ + " is "@ + decimal(bytes as nat) + " bytes; the limit is "@
            + decimal(MAX_REFERENCE_CONTEXT_BYTES as nat) + " bytes"@,
        ReferenceError::Changed { file_name } => file_name@ + " changed while loading and exceeds the "@
            + decimal(MAX_REFERENCE_CONTEXT_BYTES as nat) + " byte limit"@,
        ReferenceError::Empty { file_name } => file_name@ + " is empty"@,
    }
}

impl ReferenceError {
    /// See `reference_message`.
    pub fn message(&self) -> (r: String)
        ensures
            r@ == reference_message(*self),
    {
        let mut out: Vec<char> = Vec::new();
        match self {
            ReferenceError::InvalidName => {
                push_str_chars(&mut out, "invalid context file name");
            },
            ReferenceError::TooLarge { file_name, bytes } => {
                push_str_chars(&mut out, file_name.as_str());
                push_str_chars(&mut out, " is ");
                let d = decimal_chars(*bytes);
                crate::text::append_chars(&mut out, &d);
                push_str_chars(&mut out, " bytes; the limit is ");
                let m = decimal_chars(MAX_REFERENCE_CONTEXT_BYTES);
                crate::text::append_chars(&mut out, &m);
                push_str_chars(&mut out, " bytes");
            },
            ReferenceError::Changed { file_name } => {
                push_str_chars(&mut out, file_name.as_str());
                push_str_chars(&mut out, " changed while loading and exceeds the ");
                let m = decimal_chars(MAX_REFERENCE_CONTEXT_BYTES);
                crate::text::append_chars(&mut out, &m);
                push_str_chars(&mut out, " byte limit");
            },
            ReferenceError::Empty { file_name } => {
                push_str_chars(&mut out, file_name.as_str());
                push_str_chars(&mut out, " is empty");
            },
        }
        string_of(&out)
    }
}

/// Checks the configured reference document name: it is used only when it
/// is already a plain, supported file name; the name to open is returned.
pub fn check_reference_name(configured: &str) -> (r: Result<String, ReferenceError>)
    ensures
        match r {
            Ok(name) => context_name_spec(configured@) == Some(configured@) && name@ == configured@,
            Err(e) => context_name_spec(configured@) != Some(configured@) && e is InvalidName,
        },
{
    match normalize_context_file_name(configured) {
        Some(name) => {
            let same = crate::normalize::is_text(&chars_of(name.as_str()), configured);
            if same {
                Ok(name)
            } else {
                Err(ReferenceError::InvalidName)
            }
        },
        None => Err(ReferenceError::InvalidName),
    }
}

proof fn lemma_utf8_len_prefix(s: Seq<char>, i: int)
    requires
        0 <= i <= s.len(),
    ensures
        utf8_len(s.take(i)) <= utf8_len(s),
    decreases s.len(),
{
    if i < s.len() {
        assert(s.drop_last().take(i) =~= s.take(i));
        lemma_utf8_len_prefix(s.drop_last(), i);
    } else {
        assert(s.take(i) =~= s);
    }
}

/// Whether the UTF-8 length of a text is above `limit`.
fn utf8_len_above(content: &str, limit: u64) -> (r: bool)
    requires
        limit < 0xffff_ffff,
    ensures
        r == (utf8_len(content@) > limit),
{
    let v = chars_of(content);
    let mut total: u64 = 0;
    let mut i: usize = 0;
    assert(v@.take(0) =~= Seq::<char>::empty());
    while i < v.len()
        invariant
            i <= v.len(),
            v@ == content@,
            total == utf8_len(v@.take(i as int)),
            total <= limit,
            limit < 0xffff_ffff,
        decreases v.len() - i,
    {
        let code: u32 = v[i] as u32;
        let width: u64 = if code < 0x80 {
            1
        } else if code < 0x800 {
            2
        } else if code < 0x10000 {
            3
        } else {
            4
        };
        assert(v@.take(i + 1).drop_last() =~= v@.take(i as int));
        total = total + width;
        i += 1;
        if total > limit {
            proof {
                lemma_utf8_len_prefix(v@, i as int);
            }
            return true;
        }
    }
    assert(v@.take(v.len() as int) =~= v@);
    false
}

/// Checks what was read of a reference document: its size on disk, then
/// the text read, which must fit the limit and hold something.
pub fn check_reference_content(file_name: &str, file_bytes: u64, content: &str) -> (r: Result<(), ReferenceError>)
    ensures
        match r {
            Ok(()) => file_bytes <= MAX_REFERENCE_CONTEXT_BYTES && utf8_len(content@) <= MAX_REFERENCE_CONTEXT_BYTES && trim(content@).len() > 0,
            Err(ReferenceError::TooLarge { file_name: n, bytes }) => file_bytes > MAX_REFERENCE_CONTEXT_BYTES && bytes == file_bytes && n@ == file_name@,
            Err(ReferenceError::Changed { file_name: n }) => file_bytes <= MAX_REFERENCE_CONTEXT_BYTES && utf8_len(content@) > MAX_REFERENCE_CONTEXT_BYTES && n@ == file_name@,
            Err(ReferenceError::Empty { file_name: n }) => file_bytes <= MAX_REFERENCE_CONTEXT_BYTES && utf8_len(content@) <= MAX_REFERENCE_CONTEXT_BYTES && trim(content@).len() == 0 && n@ == file_name@,
            Err(ReferenceError::InvalidName) => false,
        },
{
    if file_bytes > MAX_REFERENCE_CONTEXT_BYTES {
        return Err(ReferenceError::TooLarge { file_name: string_of(&chars_of(file_name)), bytes: file_bytes });
    }
    if utf8_len_above(content, MAX_REFERENCE_CONTEXT_BYTES) {
        return Err(ReferenceError::Changed { file_name: string_of(&chars_of(file_name)) });
    }
    if crate::text::str_is_blank(content) {
        return Err(ReferenceError::Empty { file_name: string_of(&chars_of(file_name)) });
    }
    Ok(())
}

} // verus!
