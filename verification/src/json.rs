//! JSON values as the agent logic reads them: the model's structured result,
//! the response envelope of the Responses API, and field schemas.
use vstd::prelude::*;

use crate::numbers::{parse_u64, parse_u64_spec};
use crate::text::{chars_equal_str, chars_of, trim};

verus! {

/// A JSON value. An object keeps its members in order, each key once.
pub enum JsonValue {
    Null,
    Bool(bool),
    /// A non-negative integer.
    Int(u64),
    /// A negative integer.
    NegInt(i64),
    /// Any other number, by its text.
    Float(String),
    Str(String),
    Array(Vec<JsonValue>),
    Object(Vec<(String, JsonValue)>),
}

/// The mathematical form of a JSON value: texts as character sequences.
pub enum JsonModel {
    Null,
    Bool(bool),
    Int(u64),
    NegInt(i64),
    Float(Seq<char>),
    Str(Seq<char>),
    Array(Seq<JsonModel>),
    Object(Seq<(Seq<char>, JsonModel)>),
}

/// The model of a value.
pub open spec fn json_view(v: JsonValue) -> JsonModel
    decreases v, 0nat,
{
    match v {
        JsonValue::Null => JsonModel::Null,
        JsonValue::Bool(b) => JsonModel::Bool(b),
        JsonValue::Int(n) => JsonModel::Int(n),
        JsonValue::NegInt(n) => JsonModel::NegInt(n),
        JsonValue::Float(t) => JsonModel::Float(t@),
        JsonValue::Str(s) => JsonModel::Str(s@),
        JsonValue::Array(items) => JsonModel::Array(item_views(items@, items@.len())),
        JsonValue::Object(pairs) => JsonModel::Object(member_views(pairs@, pairs@.len())),
    }
}

/// The models of the first `n` items.
pub open spec fn item_views(items: Seq<JsonValue>, n: nat) -> Seq<JsonModel>
    decreases items, n,
{
    if n == 0 || n > items.len() {
        Seq::empty()
    } else {
        item_views(items, (n - 1) as nat).push(json_view(items[n - 1]))
    }
}

/// The models of the first `n` members.
pub open spec fn member_views(pairs: Seq<(String, JsonValue)>, n: nat) -> Seq<(Seq<char>, JsonModel)>
    decreases pairs, n,
{
    if n == 0 || n > pairs.len() {
        Seq::empty()
    } else {
        member_views(pairs, (n - 1) as nat).push((pairs[n - 1].0@, json_view(pairs[n - 1].1)))
    }
}

impl View for JsonValue {
    type V = JsonModel;

    open spec fn view(&self) -> JsonModel {
        json_view(*self)
    }
}

pub proof fn lemma_item_views(items: Seq<JsonValue>, n: nat)
    requires
        n <= items.len(),
    ensures
        item_views(items, n).len() == n,
        forall|j: int| 0 <= j < n ==> #[trigger] item_views(items, n)[j] == json_view(items[j]),
    decreases n,
{
    if n > 0 {
        lemma_item_views(items, (n - 1) as nat);
    }
}

pub proof fn lemma_member_views(pairs: Seq<(String, JsonValue)>, n: nat)
    requires
        n <= pairs.len(),
    ensures
        member_views(pairs, n).len() == n,
        forall|j: int| 0 <= j < n ==> #[trigger] member_views(pairs, n)[j] == (pairs[j].0@, json_view(pairs[j].1)),
    decreases n,
{
    if n > 0 {
        lemma_member_views(pairs, (n - 1) as nat);
    }
}

/// The models of a vector of values.
pub open spec fn values_view(items: Seq<JsonValue>) -> Seq<JsonModel> {
    item_views(items, items.len())
}

/// The models of a vector of members.
pub open spec fn members_view(pairs: Seq<(String, JsonValue)>) -> Seq<(Seq<char>, JsonModel)> {
    member_views(pairs, pairs.len())
}

/// Copies a value.
pub fn clone_value(v: &JsonValue) -> (r: JsonValue)
    ensures
        r@ == v@,
    decreases v,
{
    match v {
        JsonValue::Null => JsonValue::Null,
        JsonValue::Bool(b) => JsonValue::Bool(*b),
        JsonValue::Int(n) => JsonValue::Int(*n),
        JsonValue::NegInt(n) => JsonValue::NegInt(*n),
        JsonValue::Float(t) => JsonValue::Float(t.clone()),
        JsonValue::Str(s) => JsonValue::Str(s.clone()),
        JsonValue::Array(items) => {
            let mut out: Vec<JsonValue> = Vec::new();
            let mut i: usize = 0;
            proof {
                lemma_item_views(items@, items@.len());
            }
            while i < items.len()
                invariant
                    i <= items.len(),
                    out.len() == i,
                    *v == JsonValue::Array(*items),
                    v@ == JsonModel::Array(values_view(items@)),
                    forall|j: int| 0 <= j < i ==> json_view(#[trigger] out@[j]) == json_view(items@[j]),
                decreases items.len() - i,
            {
                proof {
                    assert(decreases_to!(*v => *items));
                    assert(decreases_to!(*items => items@[i as int]));
                }
                let item = clone_value(&items[i]);
                out.push(item);
                i += 1;
            }
            proof {
                lemma_item_views(out@, out@.len());
                assert(item_views(out@, out@.len()) =~= item_views(items@, items@.len()));
            }
            JsonValue::Array(out)
        },
        JsonValue::Object(pairs) => {
            let mut out: Vec<(String, JsonValue)> = Vec::new();
            let mut i: usize = 0;
            proof {
                lemma_member_views(pairs@, pairs@.len());
            }
            while i < pairs.len()
                invariant
                    i <= pairs.len(),
                    out.len() == i,
                    *v == JsonValue::Object(*pairs),
                    v@ == JsonModel::Object(members_view(pairs@)),
                    forall|j: int| 0 <= j < i ==> (#[trigger] out@[j]).0@ == pairs@[j].0@
                        && json_view(out@[j].1) == json_view(pairs@[j].1),
                decreases pairs.len() - i,
            {
                proof {
                    assert(decreases_to!(*v => *pairs));
                    assert(decreases_to!(*pairs => pairs@[i as int]));
                    assert(decreases_to!(pairs@[i as int] => pairs@[i as int].1));
                }
                let key = pairs[i].0.clone();
                let value = clone_value(&pairs[i].1);
                out.push((key, value));
                i += 1;
            }
            proof {
                lemma_member_views(out@, out@.len());
                assert(member_views(out@, out@.len()) =~= member_views(pairs@, pairs@.len()));
            }
            JsonValue::Object(out)
        },
    }
}

impl Clone for JsonValue {
    fn clone(&self) -> (r: Self)
        ensures
            r@ == self@,
    {
        clone_value(self)
    }
}

/// The value of the first member named `key`.
pub open spec fn member(pairs: Seq<(Seq<char>, JsonModel)>, key: Seq<char>) -> Option<JsonModel>
    decreases pairs.len(),
{
    if pairs.len() == 0 {
        None
    } else if pairs[0].0 == key {
        Some(pairs[0].1)
    } else {
        member(pairs.drop_first(), key)
    }
}

/// `value.get(key)`: the member of an object, none for anything else.
pub open spec fn get_spec(v: JsonModel, key: Seq<char>) -> Option<JsonModel> {
    match v {
        JsonModel::Object(pairs) => member(pairs, key),
        _ => None,
    }
}

/// The text of a string value.
pub open spec fn str_spec(v: JsonModel) -> Option<Seq<char>> {
    match v {
        JsonModel::Str(s) => Some(s),
        _ => None,
    }
}

/// The text of an optional string value.
pub open spec fn opt_str_spec(v: Option<JsonModel>) -> Option<Seq<char>> {
    match v {
        Some(x) => str_spec(x),
        None => None,
    }
}

/// `Value::as_u64`: a non-negative integer.
pub open spec fn u64_spec(v: Option<JsonModel>) -> Option<u64> {
    match v {
        Some(JsonModel::Int(n)) => Some(n),
        _ => None,
    }
}

proof fn lemma_member_skip(pairs: Seq<(Seq<char>, JsonModel)>, key: Seq<char>, i: int)
    requires
        0 <= i <= pairs.len(),
        forall|j: int| 0 <= j < i ==> (#[trigger] pairs[j]).0 != key,
    ensures
        member(pairs, key) == member(pairs.skip(i), key),
    decreases i,
{
    if i > 0 {
        assert(pairs[0].0 != key);
        lemma_member_skip(pairs.drop_first(), key, i - 1);
        assert(pairs.drop_first().skip(i - 1) =~= pairs.skip(i));
    } else {
        assert(pairs.skip(0) =~= pairs);
    }
}

/// The member named `key`.
pub fn member_of<'a>(pairs: &'a Vec<(String, JsonValue)>, key: &str) -> (r: Option<&'a JsonValue>)
    ensures
        match r {
            Some(x) => member(members_view(pairs@), key@) == Some(x@),
            None => member(members_view(pairs@), key@) is None,
        },
{
    let k = chars_of(key);
    let ghost views = members_view(pairs@);
    proof {
        lemma_member_views(pairs@, pairs@.len());
    }
    let mut i: usize = 0;
    while i < pairs.len()
        invariant
            i <= pairs.len(),
            k@ == key@,
            views == members_view(pairs@),
            views.len() == pairs.len(),
            forall|j: int| 0 <= j < pairs.len() ==> #[trigger] views[j] == (pairs@[j].0@, json_view(pairs@[j].1)),
            forall|j: int| 0 <= j < i ==> (#[trigger] views[j]).0 != key@,
        decreases pairs.len() - i,
    {
        let name = chars_of(pairs[i].0.as_str());
        assert(views[i as int].0 == pairs@[i as int].0@);
        if crate::text::chars_equal(&name, &k) {
            proof {
                lemma_member_skip(views, key@, i as int);
                assert(views.skip(i as int)[0] == views[i as int]);
            }
            return Some(&pairs[i].1);
        }
        i += 1;
    }
    proof {
        lemma_member_skip(views, key@, i as int);
        assert(views.skip(i as int).len() == 0);
    }
    None
}

impl JsonValue {
    /// `value.get(key)`; see `get_spec`.
    pub fn get(&self, key: &str) -> (r: Option<&JsonValue>)
        ensures
            match r {
                Some(x) => get_spec(self@, key@) == Some(x@),
                None => get_spec(self@, key@) is None,
            },
    {
        match self {
            JsonValue::Object(pairs) => member_of(pairs, key),
            _ => None,
        }
    }

    /// The text of a string value.
    pub fn as_str(&self) -> (r: Option<&String>)
        ensures
            match r {
                Some(s) => str_spec(self@) == Some(s@),
                None => str_spec(self@) is None,
            },
    {
        match self {
            JsonValue::Str(s) => Some(s),
            _ => None,
        }
    }

    /// The items of an array value.
    pub fn as_array(&self) -> (r: Option<&Vec<JsonValue>>)
        ensures
            match r {
                Some(items) => self@ == JsonModel::Array(values_view(items@)),
                None => !(self@ is Array),
            },
    {
        match self {
            JsonValue::Array(items) => Some(items),
            _ => None,
        }
    }

    /// The value of a non-negative integer.
    pub fn as_u64(&self) -> (r: Option<u64>)
        ensures
            r == u64_spec(Some(self@)),
    {
        match self {
            JsonValue::Int(n) => Some(*n),
            _ => None,
        }
    }
}

/// Whether a value says anything: non-blank text, `true`, any number, or a
/// container with such a value inside.
pub open spec fn has_content(v: JsonModel) -> bool
    decreases v, 0nat,
{
    match v {
        JsonModel::Null => false,
        JsonModel::Bool(b) => b,
        JsonModel::Int(_) => true,
        JsonModel::NegInt(_) => true,
        JsonModel::Float(_) => true,
        JsonModel::Str(s) => trim(s).len() > 0,
        JsonModel::Array(items) => items_have_content(items, items.len()),
        JsonModel::Object(pairs) => members_have_content(pairs, pairs.len()),
    }
}

/// Whether one of the first `n` items has content.
pub open spec fn items_have_content(items: Seq<JsonModel>, n: nat) -> bool
    decreases items, n,
{
    if n == 0 || n > items.len() {
        false
    } else {
        items_have_content(items, (n - 1) as nat) || has_content(items[n - 1])
    }
}

/// Whether one of the first `n` member values has content.
pub open spec fn members_have_content(pairs: Seq<(Seq<char>, JsonModel)>, n: nat) -> bool
    decreases pairs, n,
{
    if n == 0 || n > pairs.len() {
        false
    } else {
        members_have_content(pairs, (n - 1) as nat) || has_content(pairs[n - 1].1)
    }
}

proof fn lemma_items_content_mono(items: Seq<JsonModel>, n: nat, m: nat)
    requires
        n <= m <= items.len(),
        items_have_content(items, n),
    ensures
        items_have_content(items, m),
    decreases m,
{
    if m > n {
        lemma_items_content_mono(items, n, (m - 1) as nat);
    }
}

proof fn lemma_members_content_mono(pairs: Seq<(Seq<char>, JsonModel)>, n: nat, m: nat)
    requires
        n <= m <= pairs.len(),
        members_have_content(pairs, n),
    ensures
        members_have_content(pairs, m),
    decreases m,
{
    if m > n {
        lemma_members_content_mono(pairs, n, (m - 1) as nat);
    }
}

/// Whether a value has content; see `has_content`.
pub fn value_has_content(v: &JsonValue) -> (r: bool)
    ensures
        r == has_content(v@),
    decreases v,
{
    match v {
        JsonValue::Null => false,
        JsonValue::Bool(b) => *b,
        JsonValue::Int(_) => true,
        JsonValue::NegInt(_) => true,
        JsonValue::Float(_) => true,
        JsonValue::Str(s) => !crate::text::str_is_blank(s.as_str()),
        JsonValue::Array(items) => {
            let ghost views = values_view(items@);
            proof {
                lemma_item_views(items@, items@.len());
            }
            let mut i: usize = 0;
            while i < items.len()
                invariant
                    i <= items.len(),
                    views == values_view(items@),
                    *v == JsonValue::Array(*items),
                    v@ == JsonModel::Array(views),
                    views.len() == items.len(),
                    forall|j: int| 0 <= j < items.len() ==> #[trigger] views[j] == json_view(items@[j]),
                    !items_have_content(views, i as nat),
                decreases items.len() - i,
            {
                proof {
                    assert(decreases_to!(*v => *items));
                    assert(decreases_to!(*items => items@[i as int]));
                }
                if value_has_content(&items[i]) {
                    assert(items_have_content(views, (i + 1) as nat));
                    proof {
                        lemma_items_content_mono(views, (i + 1) as nat, views.len());
                    }
                    return true;
                }
                i += 1;
            }
            false
        },
        JsonValue::Object(pairs) => {
            let ghost views = members_view(pairs@);
            proof {
                lemma_member_views(pairs@, pairs@.len());
            }
            let mut i: usize = 0;
            while i < pairs.len()
                invariant
                    i <= pairs.len(),
                    views == members_view(pairs@),
                    *v == JsonValue::Object(*pairs),
                    v@ == JsonModel::Object(views),
                    views.len() == pairs.len(),
                    forall|j: int| 0 <= j < pairs.len() ==> #[trigger] views[j] == (pairs@[j].0@, json_view(pairs@[j].1)),
                    !members_have_content(views, i as nat),
                decreases pairs.len() - i,
            {
                proof {
                    assert(decreases_to!(*v => *pairs));
                    assert(decreases_to!(*pairs => pairs@[i as int]));
                    assert(decreases_to!(pairs@[i as int] => pairs@[i as int].1));
                }
                if value_has_content(&pairs[i].1) {
                    assert(members_have_content(views, (i + 1) as nat));
                    proof {
                        lemma_members_content_mono(views, (i + 1) as nat, views.len());
                    }
                    return true;
                }
                i += 1;
            }
            false
        },
    }
}

/// Whether an optional value is the given text.
pub fn str_is(v: Option<&JsonValue>, text: &str) -> (r: bool)
    ensures
        r == (match v {
            Some(x) => str_spec(x@) == Some(text@),
            None => false,
        }),
{
    match v {
        Some(JsonValue::Str(s)) => {
            let c = chars_of(s.as_str());
            chars_equal_str(&c, text)
        },
        _ => false,
    }
}

} // verus!
