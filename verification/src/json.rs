//! JSON documents as plain values.

use vstd::prelude::*;

verus! {

/// A JSON value: its compact text, and what it is made of.
#[derive(Debug)]
pub struct JsonValue {
    pub text: String,
    pub node: JsonNode,
}

/// What a JSON value is made of.
#[derive(Debug)]
pub enum JsonNode {
    Null,
    Bool(bool),
    /// A number, with its value where that is an unsigned 64-bit integer.
    Number(Option<u64>),
    Text(String),
    Array(Vec<JsonValue>),
    Object(Vec<JsonMember>),
}

/// A member of a JSON object.
#[derive(Debug)]
pub struct JsonMember {
    pub key: String,
    pub value: JsonValue,
}

/// What a [`JsonValue`] says.
pub struct JsonView {
    pub text: Seq<char>,
    pub node: JsonNodeView,
}

/// What a [`JsonNode`] says.
pub enum JsonNodeView {
    Null,
    Bool(bool),
    Number(Option<u64>),
    Text(Seq<char>),
    Array(Seq<JsonView>),
    Object(Seq<(Seq<char>, JsonView)>),
}

/// The value of the first member with the given key.
pub open spec fn find_member(members: Seq<(Seq<char>, JsonView)>, key: Seq<char>) -> Option<
    JsonView,
>
    decreases members.len(),
{
    if members.len() == 0 {
        None
    } else if members[0].0 == key {
        Some(members[0].1)
    } else {
        find_member(members.drop_first(), key)
    }
}

impl JsonView {
    /// The member with the given key, of an object that has one.
    pub open spec fn member(self, key: Seq<char>) -> Option<JsonView> {
        match self.node {
            JsonNodeView::Object(members) => find_member(members, key),
            _ => None,
        }
    }

    /// The items of an array.
    pub open spec fn items(self) -> Option<Seq<JsonView>> {
        match self.node {
            JsonNodeView::Array(items) => Some(items),
            _ => None,
        }
    }

    /// The characters of a string.
    pub open spec fn string(self) -> Option<Seq<char>> {
        match self.node {
            JsonNodeView::Text(text) => Some(text),
            _ => None,
        }
    }

    /// The value of a number that is an unsigned 64-bit integer.
    pub open spec fn unsigned(self) -> Option<u64> {
        match self.node {
            JsonNodeView::Number(number) => number,
            _ => None,
        }
    }

    /// The value of a boolean.
    pub open spec fn boolean(self) -> Option<bool> {
        match self.node {
            JsonNodeView::Bool(b) => Some(b),
            _ => None,
        }
    }
}

impl JsonValue {
    /// The member with the given key, of an object that has one.
    pub fn get(&self, key: &str) -> (res: Option<&JsonValue>)
        ensures
            match res {
                Some(value) => self@.member(key@) == Some(value@),
                None => self@.member(key@) is None,
            },
    {
        let wanted: String = key.to_owned();
        if let JsonNode::Object(members) = &self.node {
            let ghost pairs = self@.node->Object_0;
            assert(pairs.skip(0) =~= pairs);
            for i in 0..members.len()
                invariant
                    wanted@ == key@,
                    pairs.len() == members@.len(),
                    forall|k: int|
                        0 <= k < members@.len() ==> #[trigger] pairs[k] == (
                            members@[k].key@,
                            members@[k].value@,
                        ),
                    self@.member(key@) == find_member(pairs.skip(i as int), key@),
            {
                let ghost left = pairs.skip(i as int);
                assert(left[0] == pairs[i as int]);
                assert(left.drop_first() =~= pairs.skip(i + 1));
                if members[i].key == wanted {
                    return Some(&members[i].value);
                }
            }
        }
        None
    }

    /// The items of an array.
    pub fn as_array(&self) -> (res: Option<&Vec<JsonValue>>)
        ensures
            match res {
                Some(items) => self@.items() == Some(items@.map_values(|item: JsonValue| item@)),
                None => self@.items() is None,
            },
    {
        match &self.node {
            JsonNode::Array(items) => {
                assert(self@.node->Array_0 =~= items@.map_values(|item: JsonValue| item@));
                Some(items)
            },
            _ => None,
        }
    }

    /// The text of a string.
    pub fn as_str(&self) -> (res: Option<&str>)
        ensures
            match res {
                Some(text) => self@.string() == Some(text@),
                None => self@.string() is None,
            },
    {
        match &self.node {
            JsonNode::Text(text) => Some(text.as_str()),
            _ => None,
        }
    }

    /// The value of a number that is an unsigned 64-bit integer.
    pub fn as_u64(&self) -> (res: Option<u64>)
        ensures
            res == self@.unsigned(),
    {
        match &self.node {
            JsonNode::Number(number) => *number,
            _ => None,
        }
    }

    /// The value of a boolean.
    pub fn as_bool(&self) -> (res: Option<bool>)
        ensures
            res == self@.boolean(),
    {
        match &self.node {
            JsonNode::Bool(b) => Some(*b),
            _ => None,
        }
    }

    /// The value with every text in it taken as its characters.
    pub open spec fn model(self) -> JsonView
        decreases self,
    {
        JsonView {
            text: self.text@,
            node: match self.node {
                JsonNode::Null => JsonNodeView::Null,
                JsonNode::Bool(b) => JsonNodeView::Bool(b),
                JsonNode::Number(n) => JsonNodeView::Number(n),
                JsonNode::Text(s) => JsonNodeView::Text(s@),
                JsonNode::Array(items) => JsonNodeView::Array(
                    Seq::new(
                        items@.len(),
                        |i: int|
                            if 0 <= i < items@.len() {
                                items@[i].model()
                            } else {
                                arbitrary()
                            },
                    ),
                ),
                JsonNode::Object(members) => JsonNodeView::Object(
                    Seq::new(
                        members@.len(),
                        |i: int|
                            if 0 <= i < members@.len() {
                                (members@[i].key@, members@[i].value.model())
                            } else {
                                arbitrary()
                            },
                    ),
                ),
            },
        }
    }
}

impl View for JsonValue {
    type V = JsonView;

    open spec fn view(&self) -> JsonView {
        self.model()
    }
}

/// Declares `serde_json::Value`, whose inside stays closed; what it holds is
/// named by [`json_contents`].
#[verifier::external_type_specification]
#[verifier::external_body]
pub struct ExValue(serde_json::Value);

/// Declares `serde_json::Error`, which is only ever dropped.
#[verifier::external_type_specification]
#[verifier::external_body]
pub struct ExError(serde_json::Error);

/// A `serde_json::Value` opened by one level.
pub(crate) enum JsonParts {
    Null,
    Bool(bool),
    Number(Option<u64>),
    Text(String),
    Array(Vec<serde_json::Value>),
    Object(Vec<(String, serde_json::Value)>),
}

/// The document that `serde_json::from_slice` reads from bytes, or `None`
/// where it finds no JSON document in them.
pub uninterp spec fn json_document(bytes: Seq<u8>) -> Option<JsonView>;

/// What a `serde_json::Value` holds: its compact text, and what it is made
/// of, down to the leaves.
pub uninterp spec fn json_contents(value: serde_json::Value) -> JsonView;

impl JsonParts {
    /// What the parts hold together.
    pub(crate) open spec fn node(self) -> JsonNodeView {
        match self {
            JsonParts::Null => JsonNodeView::Null,
            JsonParts::Bool(b) => JsonNodeView::Bool(b),
            JsonParts::Number(n) => JsonNodeView::Number(n),
            JsonParts::Text(s) => JsonNodeView::Text(s@),
            JsonParts::Array(items) => JsonNodeView::Array(
                Seq::new(items@.len(), |i: int| json_contents(items@[i])),
            ),
            JsonParts::Object(members) => JsonNodeView::Object(
                Seq::new(
                    members@.len(),
                    |i: int| (members@[i].0@, json_contents(members@[i].1)),
                ),
            ),
        }
    }
}

/// Reads one JSON document that fills `bytes`.
///
/// Calls `serde_json::from_slice`. What it finds is a function of the bytes,
/// and [`json_document`] names it.
#[verifier::external_body]
fn read_value(bytes: &[u8]) -> (res: Result<serde_json::Value, serde_json::Error>)
    ensures
        match res {
            Ok(value) => json_document(bytes@) == Some(json_contents(value)),
            Err(_) => json_document(bytes@) is None,
        },
{
    serde_json::from_slice(bytes)
}

/// The compact text of a JSON value.
///
/// Calls `to_string` of `serde_json::Value`, that is its `Display`. The text
/// is part of what the value holds, see [`json_contents`].
#[verifier::external_body]
fn value_text(value: &serde_json::Value) -> (res: String)
    ensures
        res@ == json_contents(*value).text,
{
    value.to_string()
}

/// Opens a JSON value by one level.
///
/// Tells the variants of `serde_json::Value` apart and moves their fields
/// out, an object's members in the order of `serde_json::Map`. Of a number it
/// keeps what `serde_json::Number::as_u64` returns.
#[verifier::external_body]
fn open_value(value: serde_json::Value) -> (res: JsonParts)
    ensures
        res.node() == json_contents(value).node,
{
    match value {
        serde_json::Value::Null => JsonParts::Null,
        serde_json::Value::Bool(b) => JsonParts::Bool(b),
        serde_json::Value::Number(n) => JsonParts::Number(n.as_u64()),
        serde_json::Value::String(s) => JsonParts::Text(s),
        serde_json::Value::Array(items) => JsonParts::Array(items),
        serde_json::Value::Object(members) => JsonParts::Object(members.into_iter().collect()),
    }
}

/// Takes a JSON value apart down to its leaves.
fn take_apart(value: serde_json::Value) -> (res: JsonValue)
    ensures
        res@ == json_contents(value),
    decreases json_contents(value),
{
    let text: String = value_text(&value);
    let ghost whole = json_contents(value);
    let node = match open_value(value) {
        JsonParts::Null => JsonNode::Null,
        JsonParts::Bool(b) => JsonNode::Bool(b),
        JsonParts::Number(n) => JsonNode::Number(n),
        JsonParts::Text(s) => JsonNode::Text(s),
        JsonParts::Array(values) => {
            let ghost all = values@;
            let mut items: Vec<JsonValue> = Vec::new();
            for item in it: values
                invariant
                    it.seq() == all,
                    whole == json_contents(value),
                    whole.node == JsonParts::Array(values).node(),
                    items@.len() == it.index(),
                    forall|k: int| 0 <= k < it.index() ==> items@[k]@ == json_contents(all[k]),
            {
                proof {
                    let inner = whole.node->Array_0;
                    assert(inner[it.index()] == json_contents(item));
                    assert(decreases_to!(whole => whole.node));
                    assert(decreases_to!(whole.node => inner));
                    assert(decreases_to!(inner => inner[it.index()]));
                }
                items.push(take_apart(item));
            }
            assert(JsonValue { text, node: JsonNode::Array(items) }@.node->Array_0
                =~= whole.node->Array_0);
            JsonNode::Array(items)
        },
        JsonParts::Object(values) => {
            let ghost all = values@;
            let mut members: Vec<JsonMember> = Vec::new();
            for member in it: values
                invariant
                    it.seq() == all,
                    whole == json_contents(value),
                    whole.node == JsonParts::Object(values).node(),
                    members@.len() == it.index(),
                    forall|k: int|
                        0 <= k < it.index() ==> members@[k].key@ == all[k].0@
                            && members@[k].value@ == json_contents(all[k].1),
            {
                let (key, inner) = member;
                proof {
                    let pairs = whole.node->Object_0;
                    assert(pairs[it.index()].1 == json_contents(inner));
                    assert(decreases_to!(whole => whole.node));
                    assert(decreases_to!(whole.node => pairs));
                    assert(decreases_to!(pairs => pairs[it.index()]));
                    assert(decreases_to!(pairs[it.index()] => pairs[it.index()].1));
                }
                members.push(JsonMember { key, value: take_apart(inner) });
            }
            assert(JsonValue { text, node: JsonNode::Object(members) }@.node->Object_0
                =~= whole.node->Object_0);
            JsonNode::Object(members)
        },
    };
    JsonValue { text, node }
}

/// Reads the JSON document that fills `bytes`, see [`json_document`].
pub fn parse_json(bytes: &[u8]) -> (res: Option<JsonValue>)
    ensures
        match res {
            Some(value) => json_document(bytes@) == Some(value@),
            None => json_document(bytes@) is None,
        },
{
    match read_value(bytes) {
        Ok(value) => Some(take_apart(value)),
        Err(_) => None,
    }
}

/// A member is found where an object has one with exactly that key, and of
/// several the first one counts. What is no object has no members.
pub proof fn law_first_member_with_the_key_counts(
    value: JsonView,
    members: Seq<(Seq<char>, JsonView)>,
    key: Seq<char>,
)
    ensures
        !(value.node is Object) ==> value.member(key) is None,
        value.node == JsonNodeView::Object(members) ==> {
            &&& (forall|i: int| 0 <= i < members.len() ==> (#[trigger] members[i]).0 != key)
                ==> value.member(key) is None
            &&& forall|i: int|
                #![trigger members[i]]
                0 <= i < members.len() && members[i].0 == key && (forall|k: int|
                    0 <= k < i ==> (#[trigger] members[k]).0 != key) ==> value.member(key) == Some(
                    members[i].1,
                )
        },
    decreases members.len(),
{
    if members.len() > 0 && members[0].0 != key {
        let rest = members.drop_first();
        assert(forall|i: int| 0 <= i < rest.len() ==> rest[i] == members[i + 1]);
        law_first_member_with_the_key_counts(
            JsonView { text: value.text, node: JsonNodeView::Object(rest) },
            rest,
            key,
        );
        assert forall|i: int|
            #![trigger members[i]]
            0 <= i < members.len() && members[i].0 == key && (forall|k: int|
                0 <= k < i ==> (#[trigger] members[k]).0 != key) implies find_member(members, key)
            == Some(members[i].1) by {
            assert(rest[i - 1] == members[i]);
            assert forall|k: int| 0 <= k < i - 1 implies (#[trigger] rest[k]).0 != key by {
                assert(members[k + 1].0 != key);
            }
        }
        if forall|i: int| 0 <= i < members.len() ==> (#[trigger] members[i]).0 != key {
            assert forall|i: int| 0 <= i < rest.len() implies (#[trigger] rest[i]).0 != key by {
                assert(members[i + 1].0 != key);
            }
        }
    }
}

/// A value is read as what it is made of and as nothing else: an array as its
/// items, a string as its characters, a boolean as itself, and a number as its
/// value where that is an unsigned 64-bit integer.
pub proof fn law_values_are_read_as_what_they_are(value: JsonView)
    ensures
        match value.node {
            JsonNodeView::Array(items) => value.items() == Some(items),
            _ => value.items() is None,
        },
        match value.node {
            JsonNodeView::Text(text) => value.string() == Some(text),
            _ => value.string() is None,
        },
        match value.node {
            JsonNodeView::Number(Some(n)) => value.unsigned() == Some(n),
            _ => value.unsigned() is None,
        },
        match value.node {
            JsonNodeView::Bool(b) => value.boolean() == Some(b),
            _ => value.boolean() is None,
        },
{
}

/// A JSON value says its text and what it is made of, with every item and
/// every member in its place.
pub proof fn law_json_value_says_its_parts(value: JsonValue)
    ensures
        value@.text == value.text@,
        match value.node {
            JsonNode::Null => value@.node is Null,
            JsonNode::Bool(b) => value@.node == JsonNodeView::Bool(b),
            JsonNode::Number(n) => value@.node == JsonNodeView::Number(n),
            JsonNode::Text(text) => value@.node == JsonNodeView::Text(text@),
            JsonNode::Array(items) => {
                &&& value@.node is Array
                &&& value@.node->Array_0.len() == items@.len()
                &&& forall|i: int|
                    0 <= i < items@.len() ==> #[trigger] value@.node->Array_0[i] == items@[i]@
            },
            JsonNode::Object(members) => {
                &&& value@.node is Object
                &&& value@.node->Object_0.len() == members@.len()
                &&& forall|i: int|
                    0 <= i < members@.len() ==> #[trigger] value@.node->Object_0[i] == (
                        members@[i].key@,
                        members@[i].value@,
                    )
            },
        },
{
}

} // verus!
