//! What sources that listen for HTTP requests share.

use vstd::prelude::*;
use vstd::string::StringExecFns;

verus! {

/// A value that a source puts into an event.
#[derive(Clone, Debug, PartialEq, Eq)]
pub enum FieldValue {
    /// A text.
    Text(String),
    /// Bytes as they came.
    Bytes(Vec<u8>),
    /// The absence of a value, kept as such.
    Null,
    /// The time at which the event was made.
    Now,
}

/// What a `FieldValue` stands for.
pub enum FieldValueView {
    Text(Seq<char>),
    Bytes(Seq<u8>),
    Null,
    Now,
}

impl View for FieldValue {
    type V = FieldValueView;

    open spec fn view(&self) -> FieldValueView {
        match self {
            FieldValue::Text(text) => FieldValueView::Text(text@),
            FieldValue::Bytes(bytes) => FieldValueView::Bytes(bytes@),
            FieldValue::Null => FieldValueView::Null,
            FieldValue::Now => FieldValueView::Now,
        }
    }
}

/// One field that a source gives to an event: its name, its value, and
/// whether it takes the place of a field of that name that the event has
/// already.
#[derive(Clone, Debug, PartialEq, Eq)]
pub struct Insertion {
    pub key: String,
    pub value: FieldValue,
    pub overwrite: bool,
}

/// What an `Insertion` stands for.
pub struct InsertionView {
    pub key: Seq<char>,
    pub value: FieldValueView,
    pub overwrite: bool,
}

impl View for Insertion {
    type V = InsertionView;

    open spec fn view(&self) -> InsertionView {
        InsertionView { key: self.key@, value: self.value@, overwrite: self.overwrite }
    }
}

/// What each of `added` stands for, in their order.
pub open spec fn views(added: Seq<Insertion>) -> Seq<InsertionView> {
    added.map_values(|insertion: Insertion| insertion@)
}

/// The field `key` with the text `value`.
pub open spec fn text_field(key: Seq<char>, value: Seq<char>, overwrite: bool) -> InsertionView {
    InsertionView { key, value: FieldValueView::Text(value), overwrite }
}

impl Insertion {
    /// The field `key` with the text `value`.
    pub fn text(key: &str, value: &str, overwrite: bool) -> (insertion: Self)
        ensures
            insertion@ == text_field(key@, value@, overwrite),
    {
        Insertion {
            key: String::from_str(key),
            value: FieldValue::Text(String::from_str(value)),
            overwrite,
        }
    }
}

/// What a request that is refused is answered with: the status code and the
/// text of the body.
#[derive(Clone, Debug, PartialEq, Eq)]
pub struct ErrorMessage {
    pub code: u16,
    pub message: String,
}

impl ErrorMessage {
    /// The answer with status `code` and text `message`.
    pub fn new(code: u16, message: String) -> (answer: Self)
        ensures
            answer == (ErrorMessage { code, message }),
    {
        ErrorMessage { code, message }
    }
}

/// The credentials that a request must carry.
pub struct HttpSourceAuthConfig {
    pub username: String,
    pub password: String,
}

} // verus!
