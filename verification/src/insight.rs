//! The agent's structured result: its default and canonical forms, whether
//! it suits the configured fields, the text and token usage of an API
//! response, the response schema, and when a transcript change is worth a
//! new request.
use vstd::prelude::*;

use crate::agent::{AgentInput, AGENT_CONTEXT_CHARS};
use crate::agent_config::{fields_view, AgentFieldConfig, AgentFieldModel, AgentFieldRender};
use crate::delta::{informative, new_text};
use crate::json::{
    clone_value, get_spec, has_content, lemma_item_views, lemma_member_views, member, members_view,
    opt_str_spec, str_spec, u64_spec, value_has_content, values_view, JsonModel, JsonValue,
};
use crate::text::{chars_of, chars_equal, chars_equal_str, string_of, trim, trim_vec};

verus! {

// ---------------------------------------------------------------------------
// Object members
// ---------------------------------------------------------------------------

/// Position of the first member named `key`, or -1.
pub open spec fn key_index(pairs: Seq<(Seq<char>, JsonModel)>, key: Seq<char>) -> int
    decreases pairs.len(),
{
    if pairs.len() == 0 {
        -1
    } else if pairs[0].0 == key {
        0
    } else {
        let r = key_index(pairs.drop_first(), key);
        if r < 0 { -1 } else { r + 1 }
    }
}

/// `Map::insert`: the member named `key` gets the value, or a new member is
/// appended.
pub open spec fn insert_member(pairs: Seq<(Seq<char>, JsonModel)>, key: Seq<char>, v: JsonModel) -> Seq<(Seq<char>, JsonModel)> {
    let i = key_index(pairs, key);
    if i >= 0 {
        pairs.update(i, (key, v))
    } else {
        pairs.push((key, v))
    }
}

proof fn lemma_key_index(pairs: Seq<(Seq<char>, JsonModel)>, key: Seq<char>, i: int)
    requires
        0 <= i <= pairs.len(),
        forall|j: int| 0 <= j < i ==> (#[trigger] pairs[j]).0 != key,
    ensures
        i < pairs.len() && pairs[i].0 == key ==> key_index(pairs, key) == i,
        i == pairs.len() ==> key_index(pairs, key) == -1,
        i == pairs.len() ==> member(pairs, key) is None,
        i < pairs.len() && pairs[i].0 == key ==> member(pairs, key) == Some(pairs[i].1),
    decreases i,
{
    if i > 0 {
        lemma_key_index(pairs.drop_first(), key, i - 1);
    }
}

fn key_position(pairs: &Vec<(String, JsonValue)>, key: &Vec<char>) -> (r: Option<usize>)
    ensures
        match r {
            Some(i) => i < pairs.len() && key_index(members_view(pairs@), key@) == i,
            None => key_index(members_view(pairs@), key@) == -1,
        },
{
    proof {
        lemma_member_views(pairs@, pairs@.len());
    }
    let ghost views = members_view(pairs@);
    let mut i: usize = 0;
    while i < pairs.len()
        invariant
            i <= pairs.len(),
            views == members_view(pairs@),
            views.len() == pairs.len(),
            forall|j: int| 0 <= j < pairs.len() ==> #[trigger] views[j] == (pairs@[j].0@, crate::json::json_view(pairs@[j].1)),
            forall|j: int| 0 <= j < i ==> (#[trigger] views[j]).0 != key@,
        decreases pairs.len() - i,
    {
        let name = chars_of(pairs[i].0.as_str());
        assert(views[i as int].0 == pairs@[i as int].0@);
        if chars_equal(&name, key) {
            proof {
                lemma_key_index(views, key@, i as int);
            }
            return Some(i);
        }
        i += 1;
    }
    proof {
        lemma_key_index(views, key@, i as int);
    }
    None
}

/// Sets a member of an object; see `insert_member`.
pub fn insert_member_value(pairs: &mut Vec<(String, JsonValue)>, key: &Vec<char>, value: JsonValue)
    ensures
        members_view(final(pairs)@) == insert_member(members_view(old(pairs)@), key@, value@),
{
    proof {
        lemma_member_views(old(pairs)@, old(pairs)@.len());
    }
    let pos = key_position(pairs, key);
    let ghost before = members_view(pairs@);
    match pos {
        Some(i) => {
            pairs.set(i, (string_of(key), value));
            proof {
                lemma_member_views(pairs@, pairs@.len());
                assert(members_view(pairs@) =~= before.update(i as int, (key@, value@)));
            }
        },
        None => {
            pairs.push((string_of(key), value));
            proof {
                lemma_member_views(pairs@, pairs@.len());
                assert(members_view(pairs@) =~= before.push((key@, value@)));
            }
        },
    }
}

// ---------------------------------------------------------------------------
// Default and canonical results
// ---------------------------------------------------------------------------

/// The empty value of a field: `[]` when its schema's type is `array`, `""`
/// otherwise.
pub open spec fn empty_value_spec(f: AgentFieldModel) -> JsonModel {
    if opt_str_spec(get_spec(f.schema, "type"@)) == Some("array"@) {
        JsonModel::Array(Seq::empty())
    } else {
        JsonModel::Str(Seq::empty())
    }
}

/// The members of the default result for the first `n` fields.
pub open spec fn default_members(fs: Seq<AgentFieldModel>, n: nat) -> Seq<(Seq<char>, JsonModel)>
    decreases n,
{
    if n == 0 || n > fs.len() {
        Seq::empty()
    } else {
        insert_member(default_members(fs, (n - 1) as nat), fs[n - 1].key, empty_value_spec(fs[n - 1]))
    }
}

/// The result with every field empty.
pub open spec fn default_result_spec(fs: Seq<AgentFieldModel>) -> JsonModel {
    JsonModel::Object(default_members(fs, fs.len()))
}

/// The result with every field empty; see `default_result_spec`.
pub fn default_agent_result(fields: &Vec<AgentFieldConfig>) -> (r: JsonValue)
    ensures
        r@ == default_result_spec(fields_view(fields@)),
{
    let mut out: Vec<(String, JsonValue)> = Vec::new();
    let mut i: usize = 0;
    proof {
        lemma_member_views(out@, 0);
        assert(members_view(out@) =~= Seq::<(Seq<char>, JsonModel)>::empty());
    }
    while i < fields.len()
        invariant
            i <= fields.len(),
            members_view(out@) == default_members(fields_view(fields@), i as nat),
        decreases fields.len() - i,
    {
        let f = &fields[i];
        let is_array = crate::json::str_is(f.schema.get("type"), "array");
        let value = if is_array {
            JsonValue::Array(Vec::new())
        } else {
            JsonValue::Str(String::new())
        };
        proof {
            assert(fields_view(fields@)[i as int] == f@);
            lemma_item_views(Seq::<JsonValue>::empty(), 0);
            assert(value@ == empty_value_spec(f@));
        }
        let key = chars_of(f.key.as_str());
        insert_member_value(&mut out, &key, value);
        i += 1;
    }
    proof {
        lemma_member_views(out@, out@.len());
    }
    JsonValue::Object(out)
}

/// Whether every item is a string.
pub open spec fn all_strings(items: Seq<JsonModel>) -> bool {
    forall|i: int| 0 <= i < items.len() ==> (#[trigger] items[i]) is Str
}

/// Whether a field's member suits its render: a string for text, an array
/// of strings for a list.
pub open spec fn member_suits(v: Option<JsonModel>, render: AgentFieldRender) -> bool {
    match render {
        AgentFieldRender::Text => v matches Some(JsonModel::Str(_)),
        AgentFieldRender::List => match v {
            Some(JsonModel::Array(items)) => all_strings(items),
            _ => false,
        },
    }
}

/// Whether a result is an object with one suitable member per field and
/// nothing else.
pub open spec fn matches_fields_spec(result: JsonModel, fs: Seq<AgentFieldModel>) -> bool {
    match result {
        JsonModel::Object(pairs) => pairs.len() == fs.len() && forall|i: int|
            0 <= i < fs.len() ==> member_suits(member(pairs, (#[trigger] fs[i]).key), fs[i].render),
        _ => false,
    }
}

fn array_of_strings(v: &JsonValue) -> (r: bool)
    ensures
        r == (match v@ {
            JsonModel::Array(items) => all_strings(items),
            _ => false,
        }),
{
    match v {
        JsonValue::Array(items) => {
            proof {
                lemma_item_views(items@, items@.len());
            }
            let mut i: usize = 0;
            while i < items.len()
                invariant
                    i <= items.len(),
                    v@ == JsonModel::Array(values_view(items@)),
                    values_view(items@).len() == items.len(),
                    forall|j: int| 0 <= j < items.len() ==> #[trigger] values_view(items@)[j] == crate::json::json_view(items@[j]),
                    forall|j: int| 0 <= j < i ==> (#[trigger] values_view(items@)[j]) is Str,
                decreases items.len() - i,
            {
                match &items[i] {
                    JsonValue::Str(_) => {},
                    _ => {
                        assert(!(values_view(items@)[i as int] is Str));
                        return false;
                    },
                }
                i += 1;
            }
            true
        },
        _ => false,
    }
}

/// Whether a result suits the fields; see `matches_fields_spec`.
pub fn agent_result_matches_fields(result: &JsonValue, fields: &Vec<AgentFieldConfig>) -> (r: bool)
    ensures
        r == matches_fields_spec(result@, fields_view(fields@)),
{
    let pairs = match result {
        JsonValue::Object(pairs) => pairs,
        _ => return false,
    };
    proof {
        lemma_member_views(pairs@, pairs@.len());
    }
    if pairs.len() != fields.len() {
        return false;
    }
    let mut i: usize = 0;
    while i < fields.len()
        invariant
            i <= fields.len(),
            result@ == JsonModel::Object(members_view(pairs@)),
            members_view(pairs@).len() == fields.len(),
            forall|j: int| 0 <= j < i ==> member_suits(
                member(members_view(pairs@), (#[trigger] fields_view(fields@)[j]).key),
                fields_view(fields@)[j].render,
            ),
        decreases fields.len() - i,
    {
        let f = &fields[i];
        assert(fields_view(fields@)[i as int] == f@);
        let m = crate::json::member_of(pairs, f.key.as_str());
        let ok = match f.render {
            AgentFieldRender::Text => match m {
                Some(JsonValue::Str(_)) => true,
                _ => false,
            },
            AgentFieldRender::List => match m {
                Some(v) => array_of_strings(v),
                None => false,
            },
        };
        if !ok {
            return false;
        }
        i += 1;
    }
    true
}

/// The members of the canonical result after the first `n` fields: a
/// field kept on empty whose new value has no content gets the current
/// value back, when that one has content.
pub open spec fn canonical_members(fs: Seq<AgentFieldModel>, current: JsonModel, next: Seq<(Seq<char>, JsonModel)>, n: nat) -> Seq<(Seq<char>, JsonModel)>
    decreases n,
{
    if n == 0 || n > fs.len() {
        next
    } else {
        let prev = canonical_members(fs, current, next, (n - 1) as nat);
        let f = fs[n - 1];
        let next_has = match member(prev, f.key) {
            Some(v) => has_content(v),
            None => false,
        };
        if !f.preserve_on_empty || next_has {
            prev
        } else {
            match get_spec(current, f.key) {
                Some(old) => if has_content(old) {
                    insert_member(prev, f.key, old)
                } else {
                    prev
                },
                None => prev,
            }
        }
    }
}

/// The canonical result: a non-object result as it is; otherwise the
/// result with preserved fields restored; see `canonical_members`.
pub open spec fn canonical_spec(fs: Seq<AgentFieldModel>, current: JsonModel, next: JsonModel) -> JsonModel {
    match next {
        JsonModel::Object(pairs) => JsonModel::Object(canonical_members(fs, current, pairs, fs.len())),
        _ => next,
    }
}

proof fn lemma_key_index_range(pairs: Seq<(Seq<char>, JsonModel)>, key: Seq<char>)
    ensures
        -1 <= key_index(pairs, key) < pairs.len(),
    decreases pairs.len(),
{
    if pairs.len() > 0 && pairs[0].0 != key {
        lemma_key_index_range(pairs.drop_first(), key);
    }
}

/// Setting a member: the key then holds the value, every other key keeps
/// what it held.
pub proof fn insert_member_sets_only_its_key(
    pairs: Seq<(Seq<char>, JsonModel)>,
    key: Seq<char>,
    v: JsonModel,
    other: Seq<char>,
)
    ensures
        member(insert_member(pairs, key, v), other) == (if other == key { Some(v) } else { member(pairs, other) }),
    decreases pairs.len(),
{
    let r = insert_member(pairs, key, v);
    if pairs.len() == 0 {
        assert(r =~= seq![(key, v)]);
        assert(r.drop_first() =~= Seq::<(Seq<char>, JsonModel)>::empty());
        assert(member(r.drop_first(), other) is None);
    } else if pairs[0].0 == key {
        assert(key_index(pairs, key) == 0);
        assert(r =~= pairs.update(0, (key, v)));
        assert(r.drop_first() =~= pairs.drop_first());
        assert(r[0] == (key, v));
    } else {
        let rest = pairs.drop_first();
        insert_member_sets_only_its_key(rest, key, v, other);
        let ri = key_index(rest, key);
        lemma_key_index_range(rest, key);
        if ri >= 0 {
            assert(key_index(pairs, key) == ri + 1);
            assert(r =~= seq![pairs[0]] + rest.update(ri, (key, v)));
        } else {
            assert(key_index(pairs, key) == -1);
            assert(r =~= seq![pairs[0]] + rest.push((key, v)));
        }
        assert(r.drop_first() =~= insert_member(rest, key, v));
        assert(r[0] == pairs[0]);
        if pairs[0].0 == other {
            assert(member(r, other) == Some(pairs[0].1));
        } else {
            assert(member(r, other) == member(r.drop_first(), other));
        }
    }
}

proof fn lemma_canonical_keeps_content(
    fs: Seq<AgentFieldModel>,
    current: JsonModel,
    next: Seq<(Seq<char>, JsonModel)>,
    n: nat,
    key: Seq<char>,
)
    requires
        member(next, key) matches Some(v) && has_content(v),
    ensures
        member(canonical_members(fs, current, next, n), key) == member(next, key),
    decreases n,
{
    if n > 0 && n <= fs.len() {
        lemma_canonical_keeps_content(fs, current, next, (n - 1) as nat, key);
        let prev = canonical_members(fs, current, next, (n - 1) as nat);
        let f = fs[n - 1];
        match get_spec(current, f.key) {
            Some(old) => {
                insert_member_sets_only_its_key(prev, f.key, old, key);
            },
            None => {},
        }
    }
}

/// A new result's member that has content is kept as it came: only
/// members left without content may get the current value back, and
/// every key the new result has no field for is left alone.
pub proof fn canonical_keeps_new_content(fs: Seq<AgentFieldModel>, current: JsonModel, next: JsonModel, key: Seq<char>)
    requires
        get_spec(next, key) matches Some(v) && has_content(v),
    ensures
        get_spec(canonical_spec(fs, current, next), key) == get_spec(next, key),
{
    match next {
        JsonModel::Object(pairs) => {
            lemma_canonical_keeps_content(fs, current, pairs, fs.len(), key);
        },
        _ => {},
    }
}

/// A key that no preserved field names keeps what the new result holds.
pub proof fn canonical_leaves_other_keys(fs: Seq<AgentFieldModel>, current: JsonModel, next: JsonModel, key: Seq<char>)
    requires
        forall|i: int| 0 <= i < fs.len() && (#[trigger] fs[i]).preserve_on_empty ==> fs[i].key != key,
    ensures
        get_spec(canonical_spec(fs, current, next), key) == get_spec(next, key),
{
    match next {
        JsonModel::Object(pairs) => {
            lemma_canonical_other_keys(fs, current, pairs, fs.len(), key);
        },
        _ => {},
    }
}

proof fn lemma_canonical_other_keys(
    fs: Seq<AgentFieldModel>,
    current: JsonModel,
    next: Seq<(Seq<char>, JsonModel)>,
    n: nat,
    key: Seq<char>,
)
    requires
        forall|i: int| 0 <= i < fs.len() && (#[trigger] fs[i]).preserve_on_empty ==> fs[i].key != key,
    ensures
        member(canonical_members(fs, current, next, n), key) == member(next, key),
    decreases n,
{
    if n > 0 && n <= fs.len() {
        lemma_canonical_other_keys(fs, current, next, (n - 1) as nat, key);
        let prev = canonical_members(fs, current, next, (n - 1) as nat);
        let f = fs[n - 1];
        assert(f.preserve_on_empty ==> f.key != key);
        match get_spec(current, f.key) {
            Some(old) => {
                insert_member_sets_only_its_key(prev, f.key, old, key);
            },
            None => {},
        }
    }
}

proof fn lemma_canonical_untouched(
    fs: Seq<AgentFieldModel>,
    current: JsonModel,
    next: Seq<(Seq<char>, JsonModel)>,
    m: nat,
    n: nat,
    key: Seq<char>,
)
    requires
        m <= n <= fs.len(),
        forall|j: int| m <= j < n ==> (#[trigger] fs[j]).key != key,
    ensures
        member(canonical_members(fs, current, next, n), key) == member(canonical_members(fs, current, next, m), key),
    decreases n,
{
    if n > m {
        lemma_canonical_untouched(fs, current, next, m, (n - 1) as nat, key);
        let prev = canonical_members(fs, current, next, (n - 1) as nat);
        let f = fs[n - 1];
        assert(f.key != key);
        match get_spec(current, f.key) {
            Some(old) => {
                insert_member_sets_only_its_key(prev, f.key, old, key);
            },
            None => {},
        }
    }
}

/// A field kept on empty, whose key no other field names, gets the current
/// value back when the new result leaves it without content and the
/// current value has content.
pub proof fn canonical_restores_kept_field(fs: Seq<AgentFieldModel>, current: JsonModel, next: JsonModel, i: int)
    requires
        0 <= i < fs.len(),
        fs[i].preserve_on_empty,
        forall|j: int| 0 <= j < fs.len() && j != i ==> (#[trigger] fs[j]).key != fs[i].key,
        next is Object,
        !(get_spec(next, fs[i].key) matches Some(v) && has_content(v)),
        get_spec(current, fs[i].key) matches Some(old) && has_content(old),
    ensures
        get_spec(canonical_spec(fs, current, next), fs[i].key) == get_spec(current, fs[i].key),
{
    let key = fs[i].key;
    let pairs = next->Object_0;
    lemma_canonical_untouched(fs, current, pairs, 0, i as nat, key);
    let prev = canonical_members(fs, current, pairs, i as nat);
    let old = get_spec(current, key)->0;
    insert_member_sets_only_its_key(prev, key, old, key);
    assert(canonical_members(fs, current, pairs, (i + 1) as nat) == insert_member(prev, key, old));
    lemma_canonical_untouched(fs, current, pairs, (i + 1) as nat, fs.len(), key);
}

/// Restores preserved fields that the new result left empty; see
/// `canonical_spec`.
pub fn canonical_agent_result(fields: &Vec<AgentFieldConfig>, current: &JsonValue, next: JsonValue) -> (r: JsonValue)
    ensures
        r@ == canonical_spec(fields_view(fields@), current@, next@),
{
    let mut pairs = match next {
        JsonValue::Object(pairs) => pairs,
        other => return other,
    };
    proof {
        lemma_member_views(pairs@, pairs@.len());
    }
    let ghost original = members_view(pairs@);
    let mut i: usize = 0;
    while i < fields.len()
        invariant
            i <= fields.len(),
            members_view(pairs@) == canonical_members(fields_view(fields@), current@, original, i as nat),
        decreases fields.len() - i,
    {
        let f = &fields[i];
        assert(fields_view(fields@)[i as int] == f@);
        if f.preserve_on_empty {
            let next_has = match crate::json::member_of(&pairs, f.key.as_str()) {
                Some(v) => value_has_content(v),
                None => false,
            };
            if !next_has {
                match current.get(f.key.as_str()) {
                    Some(old) => {
                        if value_has_content(old) {
                            let copy = clone_value(old);
                            let key = chars_of(f.key.as_str());
                            insert_member_value(&mut pairs, &key, copy);
                        }
                    },
                    None => {},
                }
            }
        }
        i += 1;
    }
    proof {
        lemma_member_views(pairs@, pairs@.len());
    }
    JsonValue::Object(pairs)
}

// ---------------------------------------------------------------------------
// Response envelope
// ---------------------------------------------------------------------------

/// The non-blank texts of the `output_text` and `text` parts, trimmed.
pub open spec fn part_texts(parts: Seq<JsonModel>) -> Seq<Seq<char>>
    decreases parts.len(),
{
    if parts.len() == 0 {
        Seq::empty()
    } else {
        let rest = part_texts(parts.drop_last());
        let part = parts.last();
        let kind = match opt_str_spec(get_spec(part, "type"@)) {
            Some(t) => t,
            None => Seq::empty(),
        };
        if kind == "output_text"@ || kind == "text"@ {
            match opt_str_spec(get_spec(part, "text"@)) {
                Some(t) => if trim(t).len() > 0 { rest.push(trim(t)) } else { rest },
                None => rest,
            }
        } else {
            rest
        }
    }
}

/// The part texts of every output item that has a `content` array.
pub open spec fn item_texts(items: Seq<JsonModel>) -> Seq<Seq<char>>
    decreases items.len(),
{
    if items.len() == 0 {
        Seq::empty()
    } else {
        let rest = item_texts(items.drop_last());
        match get_spec(items.last(), "content"@) {
            Some(JsonModel::Array(parts)) => rest + part_texts(parts),
            _ => rest,
        }
    }
}

/// The response text: a non-blank `output_text`, trimmed; otherwise the
/// texts of the `output` items joined by new lines, if there are any.
pub open spec fn response_text_spec(v: JsonModel) -> Option<Seq<char>> {
    match opt_str_spec(get_spec(v, "output_text"@)) {
        Some(t) if trim(t).len() > 0 => Some(trim(t)),
        _ => match get_spec(v, "output"@) {
            Some(JsonModel::Array(items)) => {
                let texts = item_texts(items);
                if texts.len() == 0 {
                    None
                } else {
                    Some(crate::agent_config::joined_lines(texts))
                }
            },
            _ => None,
        },
    }
}

/// A content part of type `text` counts as one of type `output_text`:
/// after the parts before it, it adds its trimmed text when that is not
/// blank.
pub proof fn text_part_adds_its_text(parts: Seq<JsonModel>, part: JsonModel, t: Seq<char>)
    requires
        get_spec(part, "type"@) == Some(JsonModel::Str("text"@)) || get_spec(part, "type"@) == Some(
            JsonModel::Str("output_text"@),
        ),
        get_spec(part, "text"@) == Some(JsonModel::Str(t)),
    ensures
        part_texts(parts.push(part)) == (if trim(t).len() > 0 { part_texts(parts).push(trim(t)) } else { part_texts(parts) }),
{
    assert(parts.push(part).drop_last() =~= parts);
}

/// A content part of any other type adds nothing.
pub proof fn other_part_adds_nothing(parts: Seq<JsonModel>, part: JsonModel)
    requires
        get_spec(part, "type"@) != Some(JsonModel::Str("text"@)),
        get_spec(part, "type"@) != Some(JsonModel::Str("output_text"@)),
    ensures
        part_texts(parts.push(part)) == part_texts(parts),
{
    reveal_strlit("text");
    reveal_strlit("output_text");
    assert(parts.push(part).drop_last() =~= parts);
    assert("text"@.len() == 4);
    assert("output_text"@.len() == 11);
    assert(Seq::<char>::empty().len() == 0);
}

/// A reply with a non-blank top-level `output_text` reads as that text,
/// trimmed, whatever its output items hold.
pub proof fn top_level_text_wins(v: JsonModel, t: Seq<char>)
    requires
        get_spec(v, "output_text"@) == Some(JsonModel::Str(t)),
        trim(t).len() > 0,
    ensures
        response_text_spec(v) == Some(trim(t)),
{
}

/// A reply whose only output item holds one non-blank part of type `text`
/// or `output_text` reads as that part's trimmed text.
pub proof fn reply_of_one_text_part(kind: Seq<char>, t: Seq<char>)
    requires
        kind == "text"@ || kind == "output_text"@,
        trim(t).len() > 0,
    ensures
        response_text_spec(JsonModel::Object(seq![(
            "output"@,
            JsonModel::Array(seq![JsonModel::Object(seq![
                ("type"@, JsonModel::Str("message"@)),
                ("content"@, JsonModel::Array(seq![JsonModel::Object(seq![
                    ("type"@, JsonModel::Str(kind)),
                    ("text"@, JsonModel::Str(t)),
                ])])),
            ])]),
        )])) == Some(trim(t)),
{
    reveal_strlit("output");
    reveal_strlit("output_text");
    reveal_strlit("type");
    reveal_strlit("text");
    reveal_strlit("content");
    reveal_strlit("message");
    let part = JsonModel::Object(seq![("type"@, JsonModel::Str(kind)), ("text"@, JsonModel::Str(t))]);
    let item = JsonModel::Object(seq![("type"@, JsonModel::Str("message"@)), ("content"@, JsonModel::Array(seq![part]))]);
    let items = seq![item];
    let v = JsonModel::Object(seq![("output"@, JsonModel::Array(items))]);
    assert("type"@[1] != "text"@[1]);
    assert("type"@ != "text"@);
    assert(get_spec(part, "type"@) == Some(JsonModel::Str(kind)));
    let pp = seq![("type"@, JsonModel::Str(kind)), ("text"@, JsonModel::Str(t))];
    assert(pp.drop_first()[0] == ("text"@, JsonModel::Str(t)));
    assert(member(pp.drop_first(), "text"@) == Some(JsonModel::Str(t)));
    assert(member(pp, "text"@) == member(pp.drop_first(), "text"@));
    assert(get_spec(part, "text"@) == Some(JsonModel::Str(t)));
    text_part_adds_its_text(Seq::empty(), part, t);
    assert(Seq::<JsonModel>::empty().push(part) =~= seq![part]);
    assert("type"@ != "content"@);
    let ip = seq![("type"@, JsonModel::Str("message"@)), ("content"@, JsonModel::Array(seq![part]))];
    assert(ip.drop_first()[0] == ("content"@, JsonModel::Array(seq![part])));
    assert(member(ip.drop_first(), "content"@) == Some(JsonModel::Array(seq![part])));
    assert(member(ip, "content"@) == member(ip.drop_first(), "content"@));
    assert(get_spec(item, "content"@) == Some(JsonModel::Array(seq![part])));
    assert(items.drop_last() =~= Seq::<JsonModel>::empty());
    assert(part_texts(Seq::<JsonModel>::empty()) =~= Seq::<Seq<char>>::empty());
    assert(part_texts(seq![part]) =~= seq![trim(t)]);
    assert(item_texts(items.drop_last()) =~= Seq::<Seq<char>>::empty());
    assert(item_texts(items) =~= seq![trim(t)]);
    assert("output"@.len() != "output_text"@.len());
    assert("output"@ != "output_text"@);
    let vp = seq![("output"@, JsonModel::Array(items))];
    assert(vp.drop_first() =~= Seq::<(Seq<char>, JsonModel)>::empty());
    assert(member(vp.drop_first(), "output_text"@) is None);
    assert(get_spec(v, "output_text"@) is None);
    assert(get_spec(v, "output"@) == Some(JsonModel::Array(items)));
}

fn text_member(v: &JsonValue, key: &str) -> (r: Option<Vec<char>>)
    ensures
        match r {
            Some(t) => opt_str_spec(get_spec(v@, key@)) == Some(t@),
            None => opt_str_spec(get_spec(v@, key@)) is None,
        },
{
    match v.get(key) {
        Some(m) => match m.as_str() {
            Some(s) => Some(chars_of(s.as_str())),
            None => None,
        },
        None => None,
    }
}

fn collect_part_texts(parts: &Vec<JsonValue>, out: &mut Vec<Vec<char>>)
    ensures
        crate::text::seqs(final(out)@) == crate::text::seqs(old(out)@) + part_texts(values_view(parts@)),
{
    proof {
        lemma_item_views(parts@, parts@.len());
    }
    let ghost base = crate::text::seqs(out@);
    let mut i: usize = 0;
    while i < parts.len()
        invariant
            i <= parts.len(),
            values_view(parts@).len() == parts.len(),
            forall|j: int| 0 <= j < parts.len() ==> #[trigger] values_view(parts@)[j] == crate::json::json_view(parts@[j]),
            crate::text::seqs(out@) == base + part_texts(values_view(parts@).take(i as int)),
        decreases parts.len() - i,
    {
        let ghost ps = values_view(parts@).take(i + 1);
        assert(ps.drop_last() =~= values_view(parts@).take(i as int));
        assert(ps.last() == parts@[i as int]@);
        let part = &parts[i];
        let kind = match text_member(part, "type") {
            Some(t) => t,
            None => Vec::new(),
        };
        if chars_equal_str(&kind, "output_text") || chars_equal_str(&kind, "text") {
            match text_member(part, "text") {
                Some(t) => {
                    let tt = trim_vec(&t);
                    if tt.len() > 0 {
                        let ghost before = crate::text::seqs(out@);
                        out.push(tt);
                        assert(crate::text::seqs(out@) =~= before.push(trim(t@)));
                    }
                },
                None => {},
            }
        }
        i += 1;
    }
    assert(values_view(parts@).take(parts.len() as int) =~= values_view(parts@));
}

/// The text of a Responses API reply; see `response_text_spec`.
pub fn extract_response_text(value: &JsonValue) -> (r: Option<String>)
    ensures
        match r {
            Some(t) => response_text_spec(value@) == Some(t@),
            None => response_text_spec(value@) is None,
        },
{
    match text_member(value, "output_text") {
        Some(t) => {
            let tt = trim_vec(&t);
            if tt.len() > 0 {
                return Some(string_of(&tt));
            }
        },
        None => {},
    }
    let items = match value.get("output") {
        Some(JsonValue::Array(items)) => items,
        _ => return None,
    };
    proof {
        lemma_item_views(items@, items@.len());
    }
    let mut chunks: Vec<Vec<char>> = Vec::new();
    let mut i: usize = 0;
    assert(crate::text::seqs(chunks@) =~= Seq::<Seq<char>>::empty());
    while i < items.len()
        invariant
            i <= items.len(),
            values_view(items@).len() == items.len(),
            forall|j: int| 0 <= j < items.len() ==> #[trigger] values_view(items@)[j] == crate::json::json_view(items@[j]),
            crate::text::seqs(chunks@) == item_texts(values_view(items@).take(i as int)),
        decreases items.len() - i,
    {
        let ghost its = values_view(items@).take(i + 1);
        assert(its.drop_last() =~= values_view(items@).take(i as int));
        assert(its.last() == items@[i as int]@);
        match items[i].get("content") {
            Some(JsonValue::Array(parts)) => {
                collect_part_texts(parts, &mut chunks);
            },
            _ => {},
        }
        i += 1;
    }
    assert(values_view(items@).take(items.len() as int) =~= values_view(items@));
    if chunks.len() == 0 {
        return None;
    }
    let mut out: Vec<char> = Vec::new();
    let mut k: usize = 0;
    while k < chunks.len()
        invariant
            k <= chunks.len(),
            out@ == crate::agent_config::joined_lines(crate::text::seqs(chunks@).take(k as int)),
        decreases chunks.len() - k,
    {
        let ghost before = crate::text::seqs(chunks@).take(k as int);
        if k > 0 {
            out.push('\n');
        }
        crate::text::append_chars(&mut out, &chunks[k]);
        k += 1;
        proof {
            let now = crate::text::seqs(chunks@).take(k as int);
            assert(now.drop_last() =~= before);
            if k == 1 {
                assert(out@ =~= now[0]);
            }
        }
    }
    assert(crate::text::seqs(chunks@).take(chunks.len() as int) =~= crate::text::seqs(chunks@));
    Some(string_of(&out))
}

/// Token counts of one request.
#[derive(Clone, Copy, Debug, PartialEq, Eq, Structural)]
pub struct AgentUsage {
    pub input_tokens: u64,
    pub output_tokens: u64,
    pub total_tokens: u64,
}

/// The first present of two optional values.
pub open spec fn or_else<A>(a: Option<A>, b: Option<A>) -> Option<A> {
    match a {
        Some(x) => Some(x),
        None => b,
    }
}

/// The counts named in a reply's `usage`: input (`input_tokens` or
/// `prompt_tokens`), output (`output_tokens` or `completion_tokens`), and
/// total (`total_tokens`, else input plus output). The counts that are
/// present are non-negative integers.
pub open spec fn usage_counts(v: JsonModel) -> Option<(Option<u64>, Option<u64>, Option<u64>)> {
    match get_spec(v, "usage"@) {
        None => None,
        Some(u) => Some((
            u64_spec(or_else(get_spec(u, "input_tokens"@), get_spec(u, "prompt_tokens"@))),
            u64_spec(or_else(get_spec(u, "output_tokens"@), get_spec(u, "completion_tokens"@))),
            u64_spec(get_spec(u, "total_tokens"@)),
        )),
    }
}

/// Whether a missing total can be computed without overflow.
pub open spec fn usage_sum_fits(v: JsonModel) -> bool {
    match usage_counts(v) {
        Some((i, o, t)) => t is Some || (match i { Some(x) => x as int, None => 0 }) + (match o {
            Some(x) => x as int,
            None => 0,
        }) <= u64::MAX,
        None => true,
    }
}

/// The usage of a reply, when it names some count.
pub open spec fn usage_spec(v: JsonModel) -> Option<AgentUsage> {
    match usage_counts(v) {
        None => None,
        Some((i, o, t)) => if i is None && o is None && t is None {
            None
        } else {
            let input = match i { Some(x) => x, None => 0 };
            let output = match o { Some(x) => x, None => 0 };
            Some(AgentUsage {
                input_tokens: input,
                output_tokens: output,
                total_tokens: match t {
                    Some(x) => x,
                    None => (input + output) as u64,
                },
            })
        },
    }
}

fn count_member(u: &JsonValue, first: &str, second: &str) -> (r: Option<u64>)
    ensures
        r == u64_spec(or_else(get_spec(u@, first@), get_spec(u@, second@))),
{
    match u.get(first) {
        Some(v) => v.as_u64(),
        None => match u.get(second) {
            Some(v) => v.as_u64(),
            None => None,
        },
    }
}

/// Whether the total of a reply's usage is computable without overflow;
/// see `usage_sum_fits`.
pub fn agent_usage_sum_fits(value: &JsonValue) -> (r: bool)
    ensures
        r == usage_sum_fits(value@),
{
    let usage = match value.get("usage") {
        Some(u) => u,
        None => return true,
    };
    let input = count_member(usage, "input_tokens", "prompt_tokens");
    let output = count_member(usage, "output_tokens", "completion_tokens");
    let total = match usage.get("total_tokens") {
        Some(v) => v.as_u64(),
        None => None,
    };
    if total.is_some() {
        return true;
    }
    let a: u64 = match input { Some(x) => x, None => 0 };
    let b: u64 = match output { Some(x) => x, None => 0 };
    a <= u64::MAX - b
}

/// The token usage of a reply; see `usage_spec`.
pub fn extract_agent_usage(value: &JsonValue) -> (r: Option<AgentUsage>)
    requires
        usage_sum_fits(value@),
    ensures
        r == usage_spec(value@),
{
    let usage = match value.get("usage") {
        Some(u) => u,
        None => return None,
    };
    let input = count_member(usage, "input_tokens", "prompt_tokens");
    let output = count_member(usage, "output_tokens", "completion_tokens");
    let total = match usage.get("total_tokens") {
        Some(v) => v.as_u64(),
        None => None,
    };
    if input.is_none() && output.is_none() && total.is_none() {
        return None;
    }
    let input_tokens: u64 = match input { Some(x) => x, None => 0 };
    let output_tokens: u64 = match output { Some(x) => x, None => 0 };
    let total_tokens: u64 = match total {
        Some(x) => x,
        None => input_tokens + output_tokens,
    };
    Some(AgentUsage { input_tokens, output_tokens, total_tokens })
}

// ---------------------------------------------------------------------------
// Response schema
// ---------------------------------------------------------------------------

/// The `properties` members of the response schema for the first `n`
/// fields: each field's key with its schema.
pub open spec fn schema_properties(fs: Seq<AgentFieldModel>, n: nat) -> Seq<(Seq<char>, JsonModel)>
    decreases n,
{
    if n == 0 || n > fs.len() {
        Seq::empty()
    } else {
        insert_member(schema_properties(fs, (n - 1) as nat), fs[n - 1].key, fs[n - 1].schema)
    }
}

/// The response schema: an object with exactly the fields' members, all
/// required, and no others.
pub open spec fn response_schema_spec(fs: Seq<AgentFieldModel>) -> JsonModel {
    JsonModel::Object(seq![
        ("type"@, JsonModel::Str("object"@)),
        ("additionalProperties"@, JsonModel::Bool(false)),
        ("properties"@, JsonModel::Object(schema_properties(fs, fs.len()))),
        ("required"@, JsonModel::Array(fs.map_values(|f: AgentFieldModel| JsonModel::Str(f.key)))),
    ])
}

/// Builds the response schema of the fields; see `response_schema_spec`.
pub fn build_response_schema(fields: &Vec<AgentFieldConfig>) -> (r: JsonValue)
    ensures
        r@ == response_schema_spec(fields_view(fields@)),
{
    let mut properties: Vec<(String, JsonValue)> = Vec::new();
    let mut required: Vec<JsonValue> = Vec::new();
    proof {
        lemma_member_views(properties@, 0);
        assert(members_view(properties@) =~= Seq::<(Seq<char>, JsonModel)>::empty());
    }
    let mut i: usize = 0;
    while i < fields.len()
        invariant
            i <= fields.len(),
            members_view(properties@) == schema_properties(fields_view(fields@), i as nat),
            required.len() == i,
            forall|j: int| 0 <= j < i ==> crate::json::json_view(#[trigger] required@[j]) == JsonModel::Str(fields@[j].key@),
        decreases fields.len() - i,
    {
        let f = &fields[i];
        assert(fields_view(fields@)[i as int] == f@);
        let key = chars_of(f.key.as_str());
        insert_member_value(&mut properties, &key, clone_value(&f.schema));
        required.push(JsonValue::Str(f.key.clone()));
        i += 1;
    }
    proof {
        lemma_member_views(properties@, properties@.len());
        lemma_item_views(required@, required@.len());
        assert(values_view(required@) =~= fields_view(fields@).map_values(|f: AgentFieldModel| JsonModel::Str(f.key)));
    }
    let mut top: Vec<(String, JsonValue)> = Vec::new();
    top.push((string_of(&chars_of("type")), JsonValue::Str(string_of(&chars_of("object")))));
    top.push((string_of(&chars_of("additionalProperties")), JsonValue::Bool(false)));
    top.push((string_of(&chars_of("properties")), JsonValue::Object(properties)));
    top.push((string_of(&chars_of("required")), JsonValue::Array(required)));
    proof {
        lemma_member_views(top@, top@.len());
        assert(members_view(top@) =~= seq![
            ("type"@, JsonModel::Str("object"@)),
            ("additionalProperties"@, JsonModel::Bool(false)),
            ("properties"@, JsonModel::Object(schema_properties(fields_view(fields@), fields@.len()))),
            ("required"@, JsonModel::Array(fields_view(fields@).map_values(|f: AgentFieldModel| JsonModel::Str(f.key)))),
        ]);
    }
    JsonValue::Object(top)
}

// ---------------------------------------------------------------------------
// Request gating
// ---------------------------------------------------------------------------

/// Whether an input is worth a request (see the clauses below).
pub open spec fn informative_delta_spec(
    system: Seq<char>,
    microphone: Option<Seq<char>>,
    previous: Option<(Seq<char>, Option<Seq<char>>)>,
    state: JsonModel,
    gate: Option<Seq<char>>,
) -> bool {
    let prev_system = match previous {
        Some(p) => Some(p.0),
        None => None,
    };
    let prev_mic = match previous {
        Some(p) => p.1,
        None => None,
    };
    let gate_open = match gate {
        Some(key) => match get_spec(state, key) {
            Some(v) => has_content(v),
            None => false,
        },
        None => false,
    };
    informative(new_text(prev_system, system, AGENT_CONTEXT_CHARS as int)) || (gate_open && match microphone {
        Some(m) => informative(new_text(prev_mic, m, AGENT_CONTEXT_CHARS as int)),
        None => false,
    })
}

/// The transcripts of an optional previous input.
pub open spec fn previous_view(previous: Option<&AgentInput>) -> Option<(Seq<char>, Option<Seq<char>>)> {
    match previous {
        Some(p) => Some((p.system_transcript@, crate::agent::opt_view(p.microphone_transcript))),
        None => None,
    }
}

/// Whether an agent input is worth a request; see `informative_delta_spec`.
pub fn agent_input_has_informative_delta(
    input: &AgentInput,
    previous: Option<&AgentInput>,
    current_state: &JsonValue,
    microphone_delta_gate_field: Option<&str>,
) -> (r: bool)
    ensures
        r == informative_delta_spec(
            input.system_transcript@,
            crate::agent::opt_view(input.microphone_transcript),
            previous_view(previous),
            current_state@,
            match microphone_delta_gate_field { Some(g) => Some(g@), None => None },
        ),
{
    let prev_system = match previous {
        Some(p) => Some(p.system_transcript.as_str()),
        None => None,
    };
    let system_new = crate::delta::new_text_since(prev_system, input.system_transcript.as_str(), AGENT_CONTEXT_CHARS);
    if crate::delta::is_informative_text(system_new.as_str()) {
        return true;
    }
    let gate_open = match microphone_delta_gate_field {
        Some(key) => match current_state.get(key) {
            Some(v) => value_has_content(v),
            None => false,
        },
        None => false,
    };
    if !gate_open {
        return false;
    }
    match &input.microphone_transcript {
        Some(current) => {
            let prev_mic = match previous {
                Some(p) => match &p.microphone_transcript {
                    Some(m) => Some(m.as_str()),
                    None => None,
                },
                None => None,
            };
            let mic_new = crate::delta::new_text_since(prev_mic, current.as_str(), AGENT_CONTEXT_CHARS);
            crate::delta::is_informative_text(mic_new.as_str())
        },
        None => false,
    }
}

} // verus!
