//! JSON documents as values of the library, and the parser that yields them.

use serde_json::Value;
use vstd::prelude::*;

verus! {

/// A JSON document.
#[derive(Debug, PartialEq)]
pub enum Json {
    Null,
    Bool(bool),
    /// A number, held as its decimal text.
    Number(String),
    Text(String),
    Array(Vec<Json>),
    Object(Vec<Member>),
}

/// A member of a JSON object.
#[derive(Debug, PartialEq)]
pub struct Member {
    pub name: String,
    pub value: Json,
}

/// What a [`Json`] stands for.
pub enum JsonModel {
    Null,
    Bool(bool),
    Number(Seq<char>),
    Text(Seq<char>),
    Array(Seq<JsonModel>),
    Object(Seq<MemberModel>),
}

/// What a [`Member`] stands for.
pub struct MemberModel {
    pub name: Seq<char>,
    pub value: JsonModel,
}

/// The value of the first member of `members` that is named `key`.
pub open spec fn lookup(members: Seq<MemberModel>, key: Seq<char>) -> Option<JsonModel>
    decreases members.len(),
{
    if members.len() == 0 {
        None
    } else if members[0].name == key {
        Some(members[0].value)
    } else {
        lookup(members.drop_first(), key)
    }
}

impl JsonModel {
    /// The member named `key`, if this is an object that has one.
    pub open spec fn member(self, key: Seq<char>) -> Option<JsonModel> {
        match self {
            JsonModel::Object(members) => lookup(members, key),
            _ => None,
        }
    }

    /// The items, if this is an array.
    pub open spec fn items(self) -> Option<Seq<JsonModel>> {
        match self {
            JsonModel::Array(items) => Some(items),
            _ => None,
        }
    }
}

/// The models of `items`, in order.
pub open spec fn item_models(items: Seq<Json>) -> Seq<JsonModel> {
    Seq::new(items.len(), |i: int| items[i]@)
}

/// The models of `members`, in order.
pub open spec fn member_models(members: Seq<Member>) -> Seq<MemberModel> {
    Seq::new(
        members.len(),
        |i: int| MemberModel { name: members[i].name@, value: members[i].value@ },
    )
}

impl View for Json {
    type V = JsonModel;

    open spec fn view(&self) -> JsonModel
        decreases self,
    {
        match self {
            Json::Null => JsonModel::Null,
            Json::Bool(b) => JsonModel::Bool(*b),
            Json::Number(digits) => JsonModel::Number(digits@),
            Json::Text(text) => JsonModel::Text(text@),
            // A sequence never asks for an index out of its range; the tests
            // on `i` are there to show that the recursion ends.
            Json::Array(items) => JsonModel::Array(
                Seq::new(
                    items@.len(),
                    |i: int|
                        if 0 <= i < items@.len() {
                            items@[i].view()
                        } else {
                            JsonModel::Null
                        },
                ),
            ),
            Json::Object(members) => JsonModel::Object(
                Seq::new(
                    members@.len(),
                    |i: int|
                        if 0 <= i < members@.len() {
                            MemberModel { name: members@[i].name@, value: members@[i].value.view() }
                        } else {
                            MemberModel { name: Seq::empty(), value: JsonModel::Null }
                        },
                ),
            ),
        }
    }
}

/// A parsed document as `serde_json` holds it.
#[verifier::external_type_specification]
#[verifier::external_body]
pub struct ExValue(serde_json::Value);

/// The error of `serde_json`'s parser.
#[verifier::external_type_specification]
#[verifier::external_body]
pub struct ExError(serde_json::Error);

/// The document that a `serde_json::Value` holds.
pub uninterp spec fn value_model(value: Value) -> JsonModel;

/// The text that a `serde_json::Error` displays.
pub uninterp spec fn error_message(error: serde_json::Error) -> Seq<char>;

/// What `serde_json` makes of `text`: the document it parses to, or the
/// message of the error it is refused with.
pub uninterp spec fn parse_outcome(text: Seq<char>) -> Result<JsonModel, Seq<char>>;

/// Calls `serde_json::from_str` for a `serde_json::Value`. The contract only
/// names the outcome: the same text always gives the same document or the
/// same error.
#[verifier::external_body]
fn parse_value(text: &str) -> (parsed: Result<Value, serde_json::Error>)
    ensures
        match parsed {
            Ok(value) => parse_outcome(text@) == Ok::<JsonModel, Seq<char>>(value_model(value)),
            Err(error) => parse_outcome(text@) == Err::<JsonModel, Seq<char>>(
                error_message(error),
            ),
        },
{
    serde_json::from_str::<Value>(text)
}

/// Moves a `serde_json::Value` into a [`Json`], variant by variant: the
/// result stands for the document the value holds. A number comes over as
/// the text that `serde_json::Number` displays, the members of an object in
/// the order in which its map hands them out.
#[verifier::external_body]
fn json_from_value(value: Value) -> (json: Json)
    ensures
        json@ == value_model(value),
{
    match value {
        Value::Null => Json::Null,
        Value::Bool(b) => Json::Bool(b),
        Value::Number(n) => Json::Number(n.to_string()),
        Value::String(s) => Json::Text(s),
        Value::Array(a) => Json::Array(a.into_iter().map(json_from_value).collect()),
        Value::Object(m) => Json::Object(
            m.into_iter().map(|(name, v)| Member { name, value: json_from_value(v) }).collect(),
        ),
    }
}

/// The text that `serde_json::Error` displays.
#[verifier::external_body]
fn error_text(error: &serde_json::Error) -> (message: String)
    ensures
        message@ == error_message(*error),
{
    error.to_string()
}

/// Parses `text` as one JSON document.
///
/// Returns the document, or the parser's message where it refuses the text.
pub fn parse_json(text: &str) -> (parsed: Result<Json, String>)
    ensures
        match parsed {
            Ok(json) => parse_outcome(text@) == Ok::<JsonModel, Seq<char>>(json@),
            Err(message) => parse_outcome(text@) == Err::<JsonModel, Seq<char>>(message@),
        },
{
    match parse_value(text) {
        Ok(value) => Ok(json_from_value(value)),
        Err(error) => Err(error_text(&error)),
    }
}

impl Json {
    /// The model of an array is the sequence of its items' models.
    pub proof fn lemma_array_view(items: Vec<Json>)
        ensures
            Json::Array(items)@ == JsonModel::Array(item_models(items@)),
    {
        assert(Json::Array(items)@->Array_0 =~= item_models(items@));
    }

    /// The model of an object is the sequence of its members' models.
    pub proof fn lemma_object_view(members: Vec<Member>)
        ensures
            Json::Object(members)@ == JsonModel::Object(member_models(members@)),
    {
        assert(Json::Object(members)@->Object_0 =~= member_models(members@));
    }

    /// The items, if this is an array.
    pub fn as_array(&self) -> (items: Option<&Vec<Json>>)
        ensures
            match items {
                Some(items) => self@.items() == Some(item_models(items@)),
                None => self@.items() is None,
            },
    {
        match self {
            Json::Array(items) => {
                proof {
                    Json::lemma_array_view(*items);
                }
                Some(items)
            },
            _ => None,
        }
    }

    /// The member named `key`, if this is an object that has one.
    pub fn get(&self, key: &str) -> (value: Option<&Json>)
        ensures
            match value {
                Some(value) => self@.member(key@) == Some(value@),
                None => self@.member(key@) is None,
            },
    {
        match self {
            Json::Object(members) => {
                proof {
                    Json::lemma_object_view(*members);
                }
                let wanted = key.to_owned();
                let ghost all = member_models(members@);
                let mut i: usize = 0;
                assert(all.skip(0) =~= all);
                while i < members.len()
                    invariant
                        i <= members.len(),
                        wanted@ == key@,
                        all == member_models(members@),
                        self@ == JsonModel::Object(all),
                        lookup(all, key@) == lookup(all.skip(i as int), key@),
                    decreases members.len() - i,
                {
                    let ghost rest = all.skip(i as int);
                    assert(rest[0] == all[i as int]);
                    assert(rest.drop_first() =~= all.skip(i + 1));
                    if members[i].name == wanted {
                        return Some(&members[i].value);
                    }
                    i += 1;
                }
                None
            },
            _ => None,
        }
    }

    /// Tells whether this is the string `text`.
    pub fn is_text(&self, text: &str) -> (same: bool)
        ensures
            same == (self@ == JsonModel::Text(text@)),
    {
        match self {
            Json::Text(own) => *own == text.to_owned(),
            _ => false,
        }
    }
}

} // verus!
