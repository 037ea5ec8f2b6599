//! What a Responses API reply says: the reply text is parsed as JSON, its
//! output text is parsed again as the model's structured answer, and the
//! answer is held to the configured fields.
use vstd::prelude::*;

use crate::agent_config::{fields_view, AgentFieldConfig};
use crate::delta::compact_error_spec;
use crate::insight::{
    agent_result_matches_fields, agent_usage_sum_fits, extract_agent_usage, extract_response_text, matches_fields_spec,
    response_text_spec, usage_spec, usage_sum_fits, AgentUsage,
};
use crate::json::{JsonModel, JsonValue};
use crate::text::{chars_of, string_of};
use crate::worker::retryable_status;
use serde_json::Value;

verus! {

/// A value as `serde_json` holds it.
#[verifier::external_type_specification]
#[verifier::external_body]
pub struct ExJsonValue(serde_json::Value);

/// What `serde_json` reads from a text: the value it parses, or, when the
/// text is not JSON, the message of its error.
pub uninterp spec fn json_text_model(text: Seq<char>) -> Result<JsonModel, Seq<char>>;

/// Converts a `serde_json` value, variant by variant. A number is told
/// apart by `serde_json`'s own three kinds of number: a non-negative
/// integer (`as_u64`), a negative one (`as_i64`), or any other, kept by its
/// text.
#[verifier::external_body]
fn json_value_of(v: &Value) -> JsonValue {
    match v {
        Value::Null => JsonValue::Null,
        Value::Bool(b) => JsonValue::Bool(*b),
        Value::Number(n) => match (n.as_u64(), n.as_i64()) {
            (Some(u), _) => JsonValue::Int(u),
            (None, Some(i)) => JsonValue::NegInt(i),
            (None, None) => JsonValue::Float(n.to_string()),
        },
        Value::String(s) => JsonValue::Str(s.clone()),
        Value::Array(items) => JsonValue::Array(items.iter().map(json_value_of).collect()),
        Value::Object(map) => JsonValue::Object(map.iter().map(|(k, x)| (k.clone(), json_value_of(x))).collect()),
    }
}

/// `serde_json::from_str` into `serde_json::Value`, converted: the value
/// parsed, or the message of the error, as `json_text_model` names them.
#[verifier::external_body]
pub fn parse_json_text(text: &str) -> (r: Result<JsonValue, String>)
    ensures
        match r {
            Ok(v) => json_text_model(text@) == Ok::<JsonModel, Seq<char>>(v@),
            Err(e) => json_text_model(text@) == Err::<JsonModel, Seq<char>>(e@),
        },
{
    match serde_json::from_str::<serde_json::Value>(text) {
        Ok(v) => Ok(json_value_of(&v)),
        Err(err) => Err(err.to_string()),
    }
}

/// Why a call for insights failed: what the screen shows, the usage the
/// reply reported, and whether the call is worth repeating.
pub struct AgentCallError {
    pub message: String,
    pub usage: Option<AgentUsage>,
    pub retryable: bool,
}

/// The usage a reply reports, when its total is computable.
pub open spec fn reported_usage(v: JsonModel) -> Option<AgentUsage> {
    if usage_sum_fits(v) { usage_spec(v) } else { None }
}

/// Whether an HTTP status is a success.
pub open spec fn success_status(status: u16) -> bool {
    200 <= status <= 299
}

/// The message of an unsuccessful status.
pub open spec fn status_message(status_text: Seq<char>, body: Seq<char>) -> Seq<char> {
    "OpenAI API returned "@ + status_text + ": "@ + compact_error_spec(body, 140)
}

fn message_of(prefix: &str, detail: &str) -> (r: String)
    ensures
        r@ == prefix@ + detail@,
        prefix@.is_prefix_of(r@),
{
    let mut out = chars_of(prefix);
    crate::text::append_chars(&mut out, &chars_of(detail));
    let r = string_of(&out);
    assert(r@.take(prefix@.len() as int) =~= prefix@);
    r
}

/// The first reading of a reply, from its HTTP status (with its text, as
/// `200 OK`) and its body: an unsuccessful status fails, retryably for the
/// statuses `retryable_status` names; a body that is not JSON fails without
/// retry; a reply without output text fails without retry, with the usage
/// it reports. Otherwise the reply's value, which the answer comes from.
pub open spec fn reply_stage_ok(status: u16, body: Seq<char>, v: JsonModel, out: Seq<char>) -> bool {
    success_status(status) && json_text_model(body) == Ok::<JsonModel, Seq<char>>(v) && response_text_spec(v) == Some(out)
}

/// See `reply_stage_ok`: the output text and the usage of a readable reply,
/// or why it is not readable.
pub fn reply_output_text(status: u16, status_text: &str, response_text: &str) -> (r: Result<(String, Option<AgentUsage>), AgentCallError>)
    ensures
        !success_status(status) ==> match r {
            Err(e) => e.retryable == (status == 408 || status == 409 || status == 429 || (500 <= status && status <= 599))
                && e.usage is None && e.message@ == status_message(status_text@, response_text@),
            Ok(_) => false,
        },
        success_status(status) ==> match json_text_model(response_text@) {
            Err(detail) => r matches Err(e) && !e.retryable && e.usage is None
                && e.message@ == "OpenAI response was not valid JSON: "@ + detail,
            Ok(v) => match response_text_spec(v) {
                None => r matches Err(e) && !e.retryable && e.usage == reported_usage(v)
                    && e.message@ == "OpenAI response did not contain output text"@,
                Some(out) => r matches Ok((t, u)) && t@ == out && u == reported_usage(v),
            },
        },
{
    if !(200 <= status && status <= 299) {
        let compact = crate::delta::compact_error(response_text, 140);
        let mut out = chars_of("OpenAI API returned ");
        crate::text::append_chars(&mut out, &chars_of(status_text));
        crate::text::append_chars(&mut out, &chars_of(": "));
        crate::text::append_chars(&mut out, &chars_of(compact.as_str()));
        return Err(AgentCallError { message: string_of(&out), usage: None, retryable: retryable_status(status) });
    }
    let value = match parse_json_text(response_text) {
        Ok(v) => v,
        Err(detail) => {
            let message = message_of("OpenAI response was not valid JSON: ", detail.as_str());
            return Err(AgentCallError { message, usage: None, retryable: false });
        },
    };
    let usage = if agent_usage_sum_fits(&value) { extract_agent_usage(&value) } else { None };
    match extract_response_text(&value) {
        Some(t) => Ok((t, usage)),
        None => Err(AgentCallError {
            message: string_of(&chars_of("OpenAI response did not contain output text")),
            usage,
            retryable: false,
        }),
    }
}

/// What a reply to an insight request gives: the first reading (see
/// `reply_output_text`), then the output parsed as JSON and held to the
/// fields; an output that is not JSON or does not fit the fields fails
/// without retry, with the usage reported.
pub fn agent_call_outcome(status: u16, status_text: &str, response_text: &str, fields: &Vec<AgentFieldConfig>) -> (r: Result<
    (JsonValue, Option<AgentUsage>),
    AgentCallError,
>)
    ensures
        !success_status(status) ==> match r {
            Err(e) => e.retryable == (status == 408 || status == 409 || status == 429 || (500 <= status && status <= 599))
                && e.usage is None && e.message@ == status_message(status_text@, response_text@),
            Ok(_) => false,
        },
        success_status(status) ==> match json_text_model(response_text@) {
            Err(detail) => r matches Err(e) && !e.retryable && e.usage is None
                && e.message@ == "OpenAI response was not valid JSON: "@ + detail,
            Ok(v) => match response_text_spec(v) {
                None => r matches Err(e) && !e.retryable && e.usage == reported_usage(v)
                    && e.message@ == "OpenAI response did not contain output text"@,
                Some(out) => match json_text_model(out) {
                    Err(detail) => r matches Err(e) && !e.retryable && e.usage == reported_usage(v)
                        && e.message@ == "OpenAI structured output did not match the agent instruction schema: "@ + detail,
                    Ok(m) => if matches_fields_spec(m, fields_view(fields@)) {
                        r matches Ok((a, u)) && a@ == m && u == reported_usage(v)
                    } else {
                        r matches Err(e) && !e.retryable && e.usage == reported_usage(v)
                            && e.message@ == "OpenAI structured output had unexpected field types"@
                    },
                },
            },
        },
{
    let (output, usage) = match reply_output_text(status, status_text, response_text) {
        Ok(x) => x,
        Err(e) => return Err(e),
    };
    let parsed = match parse_json_text(output.as_str()) {
        Ok(v) => v,
        Err(detail) => {
            let message = message_of("OpenAI structured output did not match the agent instruction schema: ", detail.as_str());
            return Err(AgentCallError { message, usage, retryable: false });
        },
    };
    if !agent_result_matches_fields(&parsed, fields) {
        return Err(AgentCallError {
            message: string_of(&chars_of("OpenAI structured output had unexpected field types")),
            usage,
            retryable: false,
        });
    }
    Ok((parsed, usage))
}

/// A key a dictation answer may hold.
pub open spec fn typing_key(k: Seq<char>) -> bool {
    k == "typed_text"@ || k == "display_note"@
}

/// The dictation answer of a structured output: an object of only the
/// typed text and a display note, both strings.
pub open spec fn typing_answer(m: JsonModel) -> Option<(Seq<char>, Seq<char>)> {
    match m {
        JsonModel::Object(ms) => if (forall|i: int| 0 <= i < ms.len() ==> typing_key(#[trigger] ms[i].0)) {
            match (crate::json::get_spec(m, "typed_text"@), crate::json::get_spec(m, "display_note"@)) {
                (Some(JsonModel::Str(t)), Some(JsonModel::Str(d))) => Some((t, d)),
                _ => None,
            }
        } else {
            None
        },
        _ => None,
    }
}

fn only_typing_keys(pairs: &Vec<(String, JsonValue)>) -> (r: bool)
    ensures
        crate::json::members_view(pairs@).len() == pairs@.len(),
        r == (forall|i: int| 0 <= i < pairs@.len() ==> typing_key(#[trigger] crate::json::members_view(pairs@)[i].0)),
{
    proof {
        crate::json::lemma_member_views(pairs@, pairs@.len());
    }
    let mut i: usize = 0;
    while i < pairs.len()
        invariant
            i <= pairs.len(),
            crate::json::members_view(pairs@).len() == pairs@.len(),
            forall|j: int| 0 <= j < pairs@.len() ==> #[trigger] crate::json::members_view(pairs@)[j] == (pairs@[j].0@, pairs@[j].1@),
            forall|j: int| 0 <= j < i ==> typing_key(#[trigger] crate::json::members_view(pairs@)[j].0),
        decreases pairs.len() - i,
    {
        let k = chars_of(pairs[i].0.as_str());
        if !(crate::normalize::is_text(&k, "typed_text") || crate::normalize::is_text(&k, "display_note")) {
            assert(crate::json::members_view(pairs@)[i as int].0 == pairs@[i as int].0@);
            return false;
        }
        i += 1;
    }
    true
}

fn string_member(v: &JsonValue, key: &str) -> (r: Option<String>)
    ensures
        match r {
            Some(t) => crate::json::get_spec(v@, key@) == Some(JsonModel::Str(t@)),
            None => !(crate::json::get_spec(v@, key@) matches Some(JsonModel::Str(_))),
        },
{
    match v.get(key) {
        Some(JsonValue::Str(t)) => Some(t.clone()),
        _ => None,
    }
}

/// What a reply to a dictation request gives: the first reading (see
/// `reply_output_text`), then the output parsed as the dictation answer
/// (see `typing_answer`); an output that is not such an answer, or whose
/// typed text is blank, fails without retry, with the usage reported.
pub fn typing_call_outcome(status: u16, status_text: &str, response_text: &str) -> (r: Result<
    (String, String, Option<AgentUsage>),
    AgentCallError,
>)
    ensures
        !success_status(status) ==> match r {
            Err(e) => e.retryable == (status == 408 || status == 409 || status == 429 || (500 <= status && status <= 599))
                && e.usage is None && e.message@ == status_message(status_text@, response_text@),
            Ok(_) => false,
        },
        success_status(status) ==> match json_text_model(response_text@) {
            Err(detail) => r matches Err(e) && !e.retryable && e.usage is None
                && e.message@ == "OpenAI response was not valid JSON: "@ + detail,
            Ok(v) => match response_text_spec(v) {
                None => r matches Err(e) && !e.retryable && e.usage == reported_usage(v)
                    && e.message@ == "OpenAI response did not contain output text"@,
                Some(out) => match (match json_text_model(out) { Ok(m) => typing_answer(m), Err(_) => None }) {
                    None => r matches Err(e) && !e.retryable && e.usage == reported_usage(v)
                        && "OpenAI structured output did not match the enhanced typing schema: "@.is_prefix_of(e.message@)
                        && (json_text_model(out) matches Err(detail) ==> e.message@
                            == "OpenAI structured output did not match the enhanced typing schema: "@ + detail),
                    Some((t, d)) => if crate::text::trim(t).len() == 0 {
                        r matches Err(e) && !e.retryable && e.usage == reported_usage(v)
                            && e.message@ == "OpenAI response returned empty typed_text"@
                    } else {
                        r matches Ok((a, b, u)) && a@ == t && b@ == d && u == reported_usage(v)
                    },
                },
            },
        },
{
    let (output, usage) = match reply_output_text(status, status_text, response_text) {
        Ok(x) => x,
        Err(e) => return Err(e),
    };
    let parsed = match parse_json_text(output.as_str()) {
        Ok(v) => v,
        Err(detail) => {
            let message = message_of("OpenAI structured output did not match the enhanced typing schema: ", detail.as_str());
            return Err(AgentCallError { message, usage, retryable: false });
        },
    };
    let answer: Option<(String, String)> = match &parsed {
        JsonValue::Object(pairs) => {
            let ghost m = parsed@;
            assert(m == JsonModel::Object(crate::json::members_view(pairs@)));
            if only_typing_keys(pairs) {
                let t0 = string_member(&parsed, "typed_text");
                let d0 = string_member(&parsed, "display_note");
                proof {
                    reveal_strlit("typed_text");
                    reveal_strlit("display_note");
                }
                match (t0, d0) {
                    (Some(t), Some(d)) => {
                        assert(forall|i: int| 0 <= i < crate::json::members_view(pairs@).len() ==> typing_key(#[trigger] crate::json::members_view(pairs@)[i].0));
                        assert(crate::json::get_spec(m, "typed_text"@) == Some(JsonModel::Str(t@)));
                        assert(crate::json::get_spec(m, "display_note"@) == Some(JsonModel::Str(d@)));
                        assert(typing_answer(m) == Some((t@, d@)));
                        Some((t, d))
                    },
                    _ => None,
                }
            } else {
                None
            }
        },
        _ => None,
    };
    assert(match answer {
        Some((t, d)) => typing_answer(parsed@) == Some((t@, d@)),
        None => typing_answer(parsed@) is None,
    });
    match answer {
        Some((t, d)) => {
            if crate::text::str_is_blank(t.as_str()) {
                Err(AgentCallError {
                    message: string_of(&chars_of("OpenAI response returned empty typed_text")),
                    usage,
                    retryable: false,
                })
            } else {
                Ok((t, d, usage))
            }
        },
        None => {
            let message = message_of(
                "OpenAI structured output did not match the enhanced typing schema: ",
                "typed_text and display_note are required strings and nothing else",
            );
            Err(AgentCallError { message, usage, retryable: false })
        },
    }
}

} // verus!
