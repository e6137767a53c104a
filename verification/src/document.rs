//! The persisted document as the registry sees it, read and written by
//! `serde_json`.
//!
//! The registry is stored as JSON text: an array of objects with string
//! members. This module gives the text that shape and no more of one: the
//! items of the array, the members of each item that is an object, and the
//! text of each member that is a string. Whatever else the text holds is
//! carried along as `serde_json` made it, unread. Reading text into this
//! shape and writing it out again is left to `serde_json`; everything that
//! the crate decides about a document, it decides on the shape.

use vstd::prelude::*;
use serde_json::Value;

verus! {

#[verifier::external_type_specification]
#[verifier::external_body]
pub struct ExJsonValue(serde_json::Value);

#[verifier::external_type_specification]
#[verifier::external_body]
pub struct ExJsonError(serde_json::Error);

/// The value of a member of an object.
#[derive(Debug)]
pub enum Field {
    /// A JSON string.
    Text(String),
    /// Any other JSON value.
    Other(Value),
}

/// An item of the document's array.
#[derive(Debug)]
pub enum Item {
    /// A JSON object: its members, in the order in which the parser hands
    /// them out.
    Object(Vec<(String, Field)>),
    /// Any other JSON value.
    Other(Value),
}

/// A JSON document.
#[derive(Debug)]
pub enum Document {
    /// A JSON array: its items, in order.
    List(Vec<Item>),
    /// Any other JSON value.
    Other(Value),
}

/// The mathematical content of a field.
pub enum FieldView {
    Text(Seq<char>),
    Other(Value),
}

/// The mathematical content of an item.
pub enum ItemView {
    Object(Seq<(Seq<char>, FieldView)>),
    Other(Value),
}

/// The mathematical content of a document.
pub enum DocumentView {
    List(Seq<ItemView>),
    Other(Value),
}

impl View for Field {
    type V = FieldView;

    open spec fn view(&self) -> FieldView {
        match self {
            Field::Text(text) => FieldView::Text(text@),
            Field::Other(value) => FieldView::Other(*value),
        }
    }
}

/// The members of an object, each by its content.
pub open spec fn members_view(members: Seq<(String, Field)>) -> Seq<(Seq<char>, FieldView)> {
    Seq::new(members.len(), |i: int| (members[i].0@, members[i].1@))
}

impl View for Item {
    type V = ItemView;

    open spec fn view(&self) -> ItemView {
        match self {
            Item::Object(members) => ItemView::Object(members_view(members@)),
            Item::Other(value) => ItemView::Other(*value),
        }
    }
}

/// The items of an array, each by its content.
pub open spec fn items_view(items: Seq<Item>) -> Seq<ItemView> {
    Seq::new(items.len(), |i: int| items[i]@)
}

impl View for Document {
    type V = DocumentView;

    open spec fn view(&self) -> DocumentView {
        match self {
            Document::List(items) => DocumentView::List(items_view(items@)),
            Document::Other(value) => DocumentView::Other(*value),
        }
    }
}

/// The text of the array without items.
pub open spec fn empty_array_text() -> Seq<char> {
    "[]"@
}

/// The document that `serde_json` reads from a text, or `None` where it
/// reports an error.
pub uninterp spec fn json_parse(text: Seq<char>) -> Option<DocumentView>;

/// The text that `serde_json` writes for a document, in its compact form.
pub uninterp spec fn json_render(doc: DocumentView) -> Seq<char>;

/// The content of what the parser gave: a document, or nothing where it
/// reported an error.
pub open spec fn parsed_view(result: Result<Document, serde_json::Error>) -> Option<DocumentView> {
    match result {
        Ok(doc) => Some(doc@),
        Err(_) => None,
    }
}

/// Calls `serde_json::from_str` for a `Value`, which reads one JSON document
/// from the whole text or reports an error, and sorts what it read by
/// variant: an array into its items, an object among them into its members,
/// a string among those into its text. Claims that whether it succeeds, and
/// the document it gives, depend on the text alone; and that the two
/// characters `[]` read as the array without items.
#[verifier::external_body]
pub(crate) fn parse(text: &str) -> (result: Result<Document, serde_json::Error>)
    ensures
        parsed_view(result) == json_parse(text@),
        text@ == empty_array_text() ==> parsed_view(result) == Some(
            DocumentView::List(Seq::empty()),
        ),
{
    Ok(match serde_json::from_str::<Value>(text)? {
        Value::Array(items) => Document::List(items.into_iter().map(|item| match item {
            Value::Object(members) => Item::Object(members.into_iter().map(|(key, field)| match field {
                Value::String(text) => (key, Field::Text(text)),
                other => (key, Field::Other(other)),
            }).collect()),
            other => Item::Other(other),
        }).collect()),
        other => Document::Other(other),
    })
}

/// Puts a document back together as a `serde_json::Value`, variant by
/// variant, and calls `to_string` on it, which writes it as compact JSON.
/// Where an object names a key twice, the value keeps the later member.
/// Claims that the text depends on the document alone.
#[verifier::external_body]
pub(crate) fn render(doc: &Document) -> (text: String)
    ensures
        text@ == json_render(doc@),
{
    let value = match doc {
        Document::List(items) => Value::Array(items.iter().map(|item| match item {
            Item::Object(members) => Value::Object(members.iter().map(|(key, field)| match field {
                Field::Text(text) => (key.clone(), Value::String(text.clone())),
                Field::Other(other) => (key.clone(), other.clone()),
            }).collect()),
            Item::Other(other) => other.clone(),
        }).collect()),
        Document::Other(other) => other.clone(),
    };
    value.to_string()
}

} // verus!
