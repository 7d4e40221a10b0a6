//! Reading JSON documents through `serde_json`.
//!
//! A parsed document is `serde_json`'s own value and stays opaque. What the
//! verifier knows of one is its content, [`Json`]; the functions declared
//! `external_body` here forward to `serde_json` and say over that content
//! what its source shows of them. The readers built on them are verified.

use vstd::prelude::*;
use vstd::string::*;
use serde_json::Value;
use crate::claims::{text_view, texts};

verus! {

#[verifier::external_type_specification]
#[verifier::external_body]
pub struct ExValue(Value);

/// The content of a JSON value.
pub ghost enum Json {
    Null,
    Bool(bool),
    /// A number, with the `u64` that it equals where it is a non-negative
    /// integer in that range.
    Number(Option<u64>),
    Text(Seq<char>),
    List(Seq<Json>),
    /// An object: its members by name.
    Object(Map<Seq<char>, Json>),
}

/// The content of a `serde_json::Value`.
pub uninterp spec fn json_view(value: Value) -> Json;

/// What `serde_json::from_slice` makes of `bytes` when asked for a `Value`:
/// `None` where it refuses them, else the content of the value it builds.
pub uninterp spec fn parsed_json(bytes: Seq<u8>) -> Option<Json>;

/// The contents of a list of values.
pub open spec fn json_views(values: Seq<Value>) -> Seq<Json> {
    values.map_values(|value: Value| json_view(value))
}

/// The member of an object that goes by `name`. Only an object has members.
pub open spec fn member_of(document: Json, name: Seq<char>) -> Option<Json> {
    match document {
        Json::Object(members) => if members.contains_key(name) {
            Some(members[name])
        } else {
            None
        },
        _ => None,
    }
}

/// The text, where the value is one.
pub open spec fn text_in(item: Json) -> Option<Seq<char>> {
    match item {
        Json::Text(text) => Some(text),
        _ => None,
    }
}

/// The number as `u64`, where the value is such a number.
pub open spec fn number_in(item: Json) -> Option<u64> {
    match item {
        Json::Number(number) => number,
        _ => None,
    }
}

/// The texts among `items`, in their order; what is not a text is left out.
pub open spec fn texts_among(items: Seq<Json>) -> Seq<Seq<char>>
    decreases items.len(),
{
    if items.len() == 0 {
        Seq::empty()
    } else {
        match items.last() {
            Json::Text(text) => texts_among(items.drop_last()).push(text),
            _ => texts_among(items.drop_last()),
        }
    }
}

/// The text held under `name`, where the document is an object that holds a
/// text there.
pub open spec fn text_under(document: Json, name: Seq<char>) -> Option<Seq<char>> {
    match member_of(document, name) {
        Some(item) => text_in(item),
        None => None,
    }
}

/// The number held under `name`, where the document is an object that holds
/// a non-negative integer there.
pub open spec fn number_under(document: Json, name: Seq<char>) -> Option<u64> {
    match member_of(document, name) {
        Some(item) => number_in(item),
        None => None,
    }
}

/// The texts held under `name`: the one text, or the texts of a list in the
/// list's order. A member that is missing or of another shape gives none.
pub open spec fn texts_under(document: Json, name: Seq<char>) -> Seq<Seq<char>> {
    match member_of(document, name) {
        Some(Json::Text(text)) => seq![text],
        Some(Json::List(items)) => texts_among(items),
        _ => Seq::empty(),
    }
}

/// `serde_json::from_slice` at `Value`. The parser is a function of the
/// bytes alone: whether it accepts them, and the content of the value it then
/// builds, are what [`parsed_json`] stands for.
#[verifier::external_body]
pub(crate) fn parse_document(bytes: &Vec<u8>) -> (document: Option<Value>)
    ensures
        document is Some <==> parsed_json(bytes@) is Some,
        document is Some ==> parsed_json(bytes@) == Some(json_view(document->Some_0)),
{
    serde_json::from_slice::<Value>(bytes.as_slice()).ok()
}

/// `Value::get` with a name as index: the member of that name where the
/// value is an object that has one, and nothing otherwise.
#[verifier::external_body]
pub(crate) fn member<'a>(document: &'a Value, name: &str) -> (found: Option<&'a Value>)
    ensures
        found is Some <==> member_of(json_view(*document), name@) is Some,
        found is Some ==> member_of(json_view(*document), name@) == Some(
            json_view(*found->Some_0),
        ),
{
    document.get(name)
}

/// `Value::as_str`: the text where the value is a string, and nothing
/// otherwise.
#[verifier::external_body]
pub(crate) fn as_text<'a>(value: &'a Value) -> (text: Option<&'a str>)
    ensures
        text_view_of(text) == text_in(json_view(*value)),
{
    value.as_str()
}

/// `Value::as_u64`: the number where the value is a non-negative integer
/// that fits, and nothing otherwise.
#[verifier::external_body]
pub(crate) fn as_number(value: &Value) -> (number: Option<u64>)
    ensures
        number == number_in(json_view(*value)),
{
    value.as_u64()
}

/// `Value::as_array`: the entries where the value is an array, and nothing
/// otherwise.
#[verifier::external_body]
pub(crate) fn as_list<'a>(value: &'a Value) -> (entries: Option<&'a Vec<Value>>)
    ensures
        entries is Some <==> json_view(*value) is List,
        entries is Some ==> json_view(*value) == Json::List(json_views(entries->Some_0@)),
{
    value.as_array()
}

/// The text of an optional string slice.
pub open spec fn text_view_of(text: Option<&str>) -> Option<Seq<char>> {
    match text {
        Some(s) => Some(s@),
        None => None,
    }
}

/// The text held under `name`, where the document is an object that holds a
/// string there.
pub(crate) fn text_member(document: &Value, name: &str) -> (text: Option<String>)
    ensures
        text_view(text) == text_under(json_view(*document), name@),
{
    match member(document, name) {
        Some(value) => match as_text(value) {
            Some(text) => Some(String::from_str(text)),
            None => None,
        },
        None => None,
    }
}

/// The number held under `name`, where the document is an object that holds
/// a non-negative integer there.
pub(crate) fn number_member(document: &Value, name: &str) -> (number: Option<u64>)
    ensures
        number == number_under(json_view(*document), name@),
{
    match member(document, name) {
        Some(value) => as_number(value),
        None => None,
    }
}

/// The texts held under `name`: the one string, or the strings of a list,
/// in the list's order. What is not a string is passed over, so a member
/// that is missing or of another shape gives no text at all.
pub(crate) fn texts_member(document: &Value, name: &str) -> (found: Vec<String>)
    ensures
        texts(found@) == texts_under(json_view(*document), name@),
{
    let mut found: Vec<String> = Vec::new();
    match member(document, name) {
        Some(value) => match as_text(value) {
            Some(text) => {
                found.push(String::from_str(text));
                assert(texts(found@) =~= seq![text@]);
            },
            None => match as_list(value) {
                Some(entries) => {
                    let ghost items = json_views(entries@);
                    let mut i: usize = 0;
                    assert(items.take(0) =~= Seq::<Json>::empty());
                    while i < entries.len()
                        invariant
                            i <= entries.len(),
                            items == json_views(entries@),
                            texts(found@) == texts_among(items.take(i as int)),
                        decreases entries.len() - i,
                    {
                        proof {
                            assert(items.take(i + 1).drop_last() =~= items.take(i as int));
                            assert(items.take(i + 1).last() == json_view(entries[i as int]));
                        }
                        let ghost before = found@;
                        match as_text(&entries[i]) {
                            Some(text) => {
                                found.push(String::from_str(text));
                                assert(texts(found@) =~= texts(before).push(text@));
                            },
                            None => {},
                        }
                        i += 1;
                    }
                    assert(items.take(i as int) =~= items);
                },
                None => {
                    assert(texts(found@) =~= Seq::<Seq<char>>::empty());
                },
            },
        },
        None => {
            assert(texts(found@) =~= Seq::<Seq<char>>::empty());
        },
    }
    found
}

} // verus!
