//! JSON text, read by `serde_json`. A text is parsed into a
//! `serde_json::Value`, which is then taken apart into a [`JsonValue`].
use crate::element::json_entity::{parse_entity, JsonEntity, JsonEntityView};
use crate::element::{build_from_json, ParseError};
use crate::entity::{Entity, EntityView};
use crate::json::{json_views, member_views, JsonValue, JsonView, Member};
use crate::text::owned;
use vstd::prelude::*;

verus! {

/// `serde_json::Value`, carried through without looking inside.
#[verifier::external_type_specification]
#[verifier::external_body]
pub struct ExSerdeValue(serde_json::Value);

/// `serde_json::Error`, carried through without looking inside.
#[verifier::external_type_specification]
#[verifier::external_body]
pub struct ExSerdeError(serde_json::Error);

/// What a `serde_json::Value` holds: `Null`, a `Bool`, the integer of a
/// number that is one, `Real` for any other number, the characters of a
/// string, the contents of the items of an array in their order, or the
/// names and contents of the entries of an object in the order in which
/// its map is walked.
pub uninterp spec fn json_content(value: serde_json::Value) -> JsonView;

/// What `serde_json::from_str` makes of a text: the contents of the value
/// that it parses the text into, or `None` where it reports an error.
pub uninterp spec fn json_parsed(text: Seq<char>) -> Option<JsonView>;

/// The contents of a sequence of values.
pub open spec fn json_contents(items: Seq<serde_json::Value>) -> Seq<JsonView> {
    Seq::new(items.len(), |i: int| json_content(items[i]))
}

/// The names and contents of a sequence of entries.
pub open spec fn entry_contents(entries: Seq<(&String, &serde_json::Value)>) -> Seq<Member> {
    Seq::new(entries.len(), |i: int| (entries[i].0@, json_content(*entries[i].1)))
}

/// `serde_json::from_str` at the type `serde_json::Value`: the text is
/// parsed as one JSON value. The contract names what the value holds; it
/// claims that the same text always gives the same outcome.
#[verifier::external_body]
fn parse_value(text: &str) -> (r: Result<serde_json::Value, serde_json::Error>)
    ensures
        r matches Ok(value) ==> json_parsed(text@) == Some(json_content(value)),
        r is Err ==> json_parsed(text@) is None,
{
    serde_json::from_str::<serde_json::Value>(text)
}

/// `Value::is_null`: whether the value is `Null`.
pub assume_specification[ serde_json::Value::is_null ](value: &serde_json::Value) -> (r: bool)
    ensures
        r == (json_content(*value) is Null),
;

/// `Value::as_bool`: the boolean of a `Bool`, `None` for any other value.
pub assume_specification[ serde_json::Value::as_bool ](value: &serde_json::Value) -> (r: Option<
    bool,
>)
    ensures
        r == (match json_content(*value) {
            JsonView::Bool(b) => Some(b),
            _ => None::<bool>,
        }),
;

/// `Value::as_i64`: the integer of a number that is an integer and fits
/// `i64`, `None` for any other value.
pub assume_specification[ serde_json::Value::as_i64 ](value: &serde_json::Value) -> (r: Option<
    i64,
>)
    ensures
        r matches Some(n) ==> json_content(*value) == JsonView::Number(n as i128),
        r is None ==> !(json_content(*value) matches JsonView::Number(n) && n <= i64::MAX),
;

/// `Value::as_u64`: the integer of a number that is an integer and not
/// negative, `None` for any other value.
pub assume_specification[ serde_json::Value::as_u64 ](value: &serde_json::Value) -> (r: Option<
    u64,
>)
    ensures
        r matches Some(n) ==> json_content(*value) == JsonView::Number(n as i128),
        r is None ==> !(json_content(*value) matches JsonView::Number(n) && n >= 0),
;

/// `Value::as_str`: the characters of a `String`, `None` for any other
/// value.
pub assume_specification<'a>[ serde_json::Value::as_str ](value: &'a serde_json::Value) -> (r:
    Option<&'a str>)
    ensures
        r matches Some(s) ==> json_content(*value) == JsonView::Text(s@),
        r is None ==> !(json_content(*value) is Text),
;

/// `Value::as_array`: the items of an `Array`, `None` for any other
/// value.
pub assume_specification<'a>[ serde_json::Value::as_array ](value: &'a serde_json::Value) -> (r:
    Option<&'a Vec<serde_json::Value>>)
    ensures
        r matches Some(items) ==> json_content(*value) == JsonView::Array(json_contents(items@)),
        r is None ==> !(json_content(*value) is Array),
;

/// `Value::as_object`, and the entries of the map that it gives, in the
/// order in which `Map::iter` walks them; `None` for a value that is no
/// `Object`.
#[verifier::external_body]
fn object_entries<'a>(value: &'a serde_json::Value) -> (r: Option<
    Vec<(&'a String, &'a serde_json::Value)>,
>)
    ensures
        r matches Some(entries) ==> json_content(*value) == JsonView::Object(
            entry_contents(entries@),
        ),
        r is None ==> !(json_content(*value) is Object),
{
    match value.as_object() {
        Some(map) => Some(map.iter().collect()),
        None => None,
    }
}

/// The value that a `serde_json::Value` holds, taken apart layer by
/// layer.
fn lift(value: &serde_json::Value) -> (r: JsonValue)
    ensures
        r@ == json_content(*value),
    decreases json_content(*value),
{
    if value.is_null() {
        return JsonValue::Null;
    }
    match value.as_bool() {
        Some(b) => {
            return JsonValue::Bool(b);
        },
        None => {},
    }
    match value.as_str() {
        Some(s) => {
            return JsonValue::Text(owned(s));
        },
        None => {},
    }
    match value.as_array() {
        Some(items) => {
            let ghost contents = json_contents(items@);
            let mut lifted: Vec<JsonValue> = Vec::new();
            let mut i: usize = 0;
            while i < items.len()
                invariant
                    i <= items.len(),
                    contents == json_contents(items@),
                    json_content(*value) == JsonView::Array(contents),
                    lifted@.len() == i,
                    forall|k: int| 0 <= k < i ==> (#[trigger] lifted@[k])@ == contents[k],
                decreases items.len() - i,
            {
                proof {
                    vstd::seq::axiom_seq_index_decreases(contents, i as int);
                    let whole = json_content(*value);
                    assert(whole->Array_0 == contents);
                }
                lifted.push(lift(&items[i]));
                i += 1;
            }
            assert(json_views(lifted@) =~= contents);
            return JsonValue::Array(lifted);
        },
        None => {},
    }
    match object_entries(value) {
        Some(entries) => {
            let ghost contents = entry_contents(entries@);
            let mut lifted: Vec<(String, JsonValue)> = Vec::new();
            let mut i: usize = 0;
            while i < entries.len()
                invariant
                    i <= entries.len(),
                    contents == entry_contents(entries@),
                    json_content(*value) == JsonView::Object(contents),
                    lifted@.len() == i,
                    forall|k: int|
                        0 <= k < i ==> (#[trigger] lifted@[k]).0@ == contents[k].0 && lifted@[k].1@
                            == contents[k].1,
                decreases entries.len() - i,
            {
                proof {
                    vstd::seq::axiom_seq_index_decreases(contents, i as int);
                    let whole = json_content(*value);
                    assert(whole->Object_0 == contents);
                    let entry = contents[i as int];
                    assert(decreases_to!(whole => entry.1));
                }
                let name = entries[i].0.clone();
                let member = lift(entries[i].1);
                lifted.push((name, member));
                i += 1;
            }
            assert(member_views(lifted@) =~= contents);
            return JsonValue::Object(lifted);
        },
        None => {},
    }
    match value.as_i64() {
        Some(n) => {
            return JsonValue::Number(n as i128);
        },
        None => {},
    }
    match value.as_u64() {
        Some(n) => {
            return JsonValue::Number(n as i128);
        },
        None => {},
    }
    JsonValue::Real
}

/// What a text gives as an entity: `Syntax` where the text is no JSON,
/// `Schema` where its value does not give an entity.
pub open spec fn entity_of_text(text: Seq<char>) -> Result<EntityView, ParseError> {
    match json_parsed(text) {
        None => Err(ParseError::Syntax),
        Some(json) => match parse_entity(json) {
            Some(entity) => Ok(entity),
            None => Err(ParseError::Schema),
        },
    }
}

/// What a text gives as an identifier and a model's JSON.
pub open spec fn parts_of_text(text: Seq<char>) -> Result<JsonEntityView, ParseError> {
    match json_parsed(text) {
        None => Err(ParseError::Syntax),
        Some(json) => match JsonEntity::parse(json) {
            Some(parts) => Ok(parts),
            None => Err(ParseError::Schema),
        },
    }
}

/// Parses a text as one JSON value. Fails with `ParseError::Syntax` where
/// the text is no JSON.
pub fn parse_json(text: &str) -> (r: Result<JsonValue, ParseError>)
    ensures
        r matches Ok(value) ==> json_parsed(text@) == Some(value@),
        r matches Err(error) ==> error == ParseError::Syntax && json_parsed(text@) is None,
{
    match parse_value(text) {
        Ok(value) => Ok(lift(&value)),
        Err(_) => Err(ParseError::Syntax),
    }
}

/// Reads the identifier of a persisted entity from a text, and keeps the
/// model as JSON.
pub fn json_entity_from_text(text: &str) -> (r: Result<JsonEntity, ParseError>)
    ensures
        r matches Ok(parts) ==> parts_of_text(text@) == Ok::<JsonEntityView, ParseError>(parts@),
        r matches Err(error) ==> parts_of_text(text@) == Err::<JsonEntityView, ParseError>(error),
{
    match parse_json(text) {
        Ok(value) => match JsonEntity::from_value(value) {
            Some(parts) => Ok(parts),
            None => Err(ParseError::Schema),
        },
        Err(error) => Err(error),
    }
}

/// Reads an entity from the text of its persisted form.
pub fn build_from_text(text: &str) -> (r: Result<Entity, ParseError>)
    ensures
        r matches Ok(entity) ==> entity_of_text(text@) == Ok::<EntityView, ParseError>(entity@)
            && entity@.wf(),
        r matches Err(error) ==> entity_of_text(text@) == Err::<EntityView, ParseError>(error),
{
    match parse_json(text) {
        Ok(value) => build_from_json(value),
        Err(error) => Err(error),
    }
}

} // verus!
