//! The JSON records of the protocol: flat objects whose members are text,
//! unsigned numbers or null.
//!
//! Writing and reading JSON text is `serde_json`'s work. The library hands it
//! a list of named members and gets such a list back; which members a record
//! has, in which order, and what is made of them is decided here.

use vstd::prelude::*;
use serde_json::Value;

verus! {

/// The value of one member of a record.
#[derive(Clone, Debug)]
pub enum JsonValue {
    /// `null`.
    Null,
    /// A string.
    Text(String),
    /// A whole number from 0 to 2^64 - 1.
    Number(u64),
    /// Anything else: a boolean, another number, an array or an object.
    Other,
}

/// A member's value as text and numbers.
pub enum JsonModel {
    Null,
    Text(Seq<char>),
    Number(u64),
    Other,
}

impl View for JsonValue {
    type V = JsonModel;

    open spec fn view(&self) -> JsonModel {
        match self {
            JsonValue::Null => JsonModel::Null,
            JsonValue::Text(t) => JsonModel::Text(t@),
            JsonValue::Number(n) => JsonModel::Number(*n),
            JsonValue::Other => JsonModel::Other,
        }
    }
}

/// A named member of a record.
#[derive(Clone, Debug)]
pub struct JsonMember {
    pub name: String,
    pub value: JsonValue,
}

/// The members of a record in order, each as its name and value.
pub open spec fn document_model(members: Seq<JsonMember>) -> Seq<(Seq<char>, JsonModel)> {
    Seq::new(members.len(), |i: int| (members[i].name@, members[i].value@))
}

/// A record that is read back as it was written: no two members share a
/// name, and every value is text, an unsigned number or null.
pub open spec fn is_plain_record(members: Seq<(Seq<char>, JsonModel)>) -> bool {
    &&& forall|i: int, j: int|
        0 <= i < j < members.len() ==> (#[trigger] members[i]).0 != (#[trigger] members[j]).0
    &&& forall|i: int| 0 <= i < members.len() ==> !((#[trigger] members[i]).1 is Other)
}

/// The indented JSON text of an object with the given members in the given
/// order, as `serde_json` writes it.
pub uninterp spec fn json_pretty_text(members: Seq<(Seq<char>, JsonModel)>) -> Seq<char>;

/// The compact JSON text of an object with the given members in the given
/// order, as `serde_json` writes it.
pub uninterp spec fn json_compact_text(members: Seq<(Seq<char>, JsonModel)>) -> Seq<char>;

/// The members of the JSON object that a text holds, in order; `None` where
/// the text is no JSON or its value is no object.
pub uninterp spec fn json_members(text: Seq<char>) -> Option<Seq<(Seq<char>, JsonModel)>>;

/// Builds a `serde_json` object by inserting the members in order and writes
/// it with `serde_json::to_string_pretty`. A member of kind `Other` is
/// written as `null`. Writing such an object to memory cannot fail: its
/// names are strings and its values null, strings or unsigned numbers. The
/// text is a function of the members, and reading the text of a plain record
/// gives its members back.
#[verifier::external_body]
pub(crate) fn write_pretty(members: &Vec<JsonMember>) -> (r: Result<String, String>)
    ensures
        r is Ok,
        r->Ok_0@ == json_pretty_text(document_model(members@)),
        is_plain_record(document_model(members@)) ==> json_members(r->Ok_0@) == Some(
            document_model(members@),
        ),
{
    let mut object = serde_json::Map::new();
    for member in members.iter() {
        let value = match &member.value {
            JsonValue::Text(text) => Value::from(text.as_str()),
            JsonValue::Number(number) => Value::from(*number),
            JsonValue::Null | JsonValue::Other => Value::Null,
        };
        object.insert(member.name.clone(), value);
    }
    serde_json::to_string_pretty(&Value::Object(object)).map_err(|e| e.to_string())
}

/// Builds a `serde_json` object by inserting the members in order and writes
/// it with `serde_json::to_string`. A member of kind `Other` is written as
/// `null`. Writing such an object to memory cannot fail: its names are
/// strings and its values null, strings or unsigned numbers. The text is a
/// function of the members, and reading the text of a plain record gives its
/// members back.
#[verifier::external_body]
pub(crate) fn write_compact(members: &Vec<JsonMember>) -> (r: Result<String, String>)
    ensures
        r is Ok,
        r->Ok_0@ == json_compact_text(document_model(members@)),
        is_plain_record(document_model(members@)) ==> json_members(r->Ok_0@) == Some(
            document_model(members@),
        ),
{
    let mut object = serde_json::Map::new();
    for member in members.iter() {
        let value = match &member.value {
            JsonValue::Text(text) => Value::from(text.as_str()),
            JsonValue::Number(number) => Value::from(*number),
            JsonValue::Null | JsonValue::Other => Value::Null,
        };
        object.insert(member.name.clone(), value);
    }
    serde_json::to_string(&Value::Object(object)).map_err(|e| e.to_string())
}

/// Parses the text with `serde_json::from_str` and, where it holds an
/// object, hands out its members in order, one for one. The error carries
/// the outside error's message; it is empty where the text is valid JSON
/// other than an object.
#[verifier::external_body]
pub(crate) fn read_object(text: &str) -> (r: Result<Vec<JsonMember>, String>)
    ensures
        match r {
            Ok(members) => json_members(text@) == Some(document_model(members@)),
            Err(_) => json_members(text@) is None,
        },
{
    match serde_json::from_str::<Value>(text) {
        Ok(Value::Object(object)) => Ok(object.into_iter().map(|(name, value)| JsonMember {
            name,
            value: match value {
                Value::Null => JsonValue::Null,
                Value::String(text) => JsonValue::Text(text),
                Value::Number(number) => number.as_u64().map_or(JsonValue::Other, JsonValue::Number),
                _ => JsonValue::Other,
            },
        }).collect()),
        Ok(_) => Err(String::new()),
        Err(e) => Err(e.to_string()),
    }
}

/// The value of the first member of that name.
pub open spec fn member_value(members: Seq<(Seq<char>, JsonModel)>, name: Seq<char>) -> Option<JsonModel>
    decreases members.len(),
{
    if members.len() == 0 {
        None
    } else if members[0].0 == name {
        Some(members[0].1)
    } else {
        member_value(members.drop_first(), name)
    }
}

/// The text of a member that has to be a string.
pub open spec fn text_member(members: Seq<(Seq<char>, JsonModel)>, name: Seq<char>) -> Option<Seq<char>> {
    match member_value(members, name) {
        Some(JsonModel::Text(text)) => Some(text),
        _ => None,
    }
}

/// The number of a member that has to be an unsigned number.
pub open spec fn number_member(members: Seq<(Seq<char>, JsonModel)>, name: Seq<char>) -> Option<u64> {
    match member_value(members, name) {
        Some(JsonModel::Number(number)) => Some(number),
        _ => None,
    }
}

/// The text of a member that may be a string, null or missing; the outer
/// `None` stands for a member of another kind.
pub open spec fn optional_text_member(members: Seq<(Seq<char>, JsonModel)>, name: Seq<char>) -> Option<
    Option<Seq<char>>,
> {
    match member_value(members, name) {
        Some(JsonModel::Text(text)) => Some(Some(text)),
        Some(JsonModel::Null) | None => Some(None),
        _ => None,
    }
}

/// A member whose name no earlier member has is the one that is found.
pub proof fn lemma_member_at(members: Seq<(Seq<char>, JsonModel)>, name: Seq<char>, i: int)
    requires
        0 <= i < members.len(),
        members[i].0 == name,
        forall|j: int| 0 <= j < i ==> (#[trigger] members[j]).0 != name,
    ensures
        member_value(members, name) == Some(members[i].1),
    decreases i,
{
    if i > 0 {
        let rest = members.drop_first();
        assert(members[0].0 != name);
        assert forall|j: int| 0 <= j < i - 1 implies (#[trigger] rest[j]).0 != name by {
            assert(rest[j] == members[j + 1]);
        }
        lemma_member_at(rest, name, i - 1);
    }
}

/// Finds the first member of the given name.
pub fn find_member(members: &Vec<JsonMember>, name: &str) -> (r: Option<usize>)
    ensures
        match r {
            Some(i) => i < members@.len() && member_value(document_model(members@), name@) == Some(
                members@[i as int].value@,
            ),
            None => member_value(document_model(members@), name@) is None,
        },
{
    let wanted = name.to_owned();
    let ghost doc = document_model(members@);
    let mut i: usize = 0;
    assert(doc.subrange(0, doc.len() as int) =~= doc);
    while i < members.len()
        invariant
            i <= members@.len(),
            wanted@ == name@,
            doc == document_model(members@),
            member_value(doc, name@) == member_value(doc.subrange(i as int, doc.len() as int), name@),
        decreases members@.len() - i,
    {
        let ghost rest = doc.subrange(i as int, doc.len() as int);
        assert(rest[0] == doc[i as int]);
        if members[i].name == wanted {
            return Some(i);
        }
        assert(rest.drop_first() =~= doc.subrange(i + 1, doc.len() as int));
        i = i + 1;
    }
    assert(doc.subrange(i as int, doc.len() as int) =~= Seq::<(Seq<char>, JsonModel)>::empty());
    None
}

/// Reads a member that has to be a string.
pub fn text_of(members: &Vec<JsonMember>, name: &str) -> (r: Option<String>)
    ensures
        match text_member(document_model(members@), name@) {
            Some(text) => r is Some && r->Some_0@ == text,
            None => r is None,
        },
{
    match find_member(members, name) {
        Some(i) => match &members[i].value {
            JsonValue::Text(text) => Some(text.clone()),
            _ => None,
        },
        None => None,
    }
}

/// Reads a member that has to be an unsigned number.
pub fn number_of(members: &Vec<JsonMember>, name: &str) -> (r: Option<u64>)
    ensures
        r == number_member(document_model(members@), name@),
{
    match find_member(members, name) {
        Some(i) => match &members[i].value {
            JsonValue::Number(number) => Some(*number),
            _ => None,
        },
        None => None,
    }
}

/// Reads a member that may be a string, null or missing.
pub fn optional_text_of(members: &Vec<JsonMember>, name: &str) -> (r: Option<Option<String>>)
    ensures
        match optional_text_member(document_model(members@), name@) {
            Some(Some(text)) => r is Some && r->Some_0 is Some && r->Some_0->Some_0@ == text,
            Some(None) => r is Some && r->Some_0 is None,
            None => r is None,
        },
{
    match find_member(members, name) {
        Some(i) => match &members[i].value {
            JsonValue::Text(text) => Some(Some(text.clone())),
            JsonValue::Null => Some(None),
            _ => None,
        },
        None => Some(None),
    }
}

/// A member that holds text.
pub fn text_entry(name: &str, text: &str) -> (r: JsonMember)
    ensures
        r.name@ == name@,
        r.value@ == JsonModel::Text(text@),
{
    JsonMember { name: name.to_owned(), value: JsonValue::Text(text.to_owned()) }
}

/// A member that holds a number.
pub fn number_entry(name: &str, number: u64) -> (r: JsonMember)
    ensures
        r.name@ == name@,
        r.value@ == JsonModel::Number(number),
{
    JsonMember { name: name.to_owned(), value: JsonValue::Number(number) }
}

/// A member that holds `null`.
pub fn null_entry(name: &str) -> (r: JsonMember)
    ensures
        r.name@ == name@,
        r.value@ == JsonModel::Null,
{
    JsonMember { name: name.to_owned(), value: JsonValue::Null }
}

} // verus!
