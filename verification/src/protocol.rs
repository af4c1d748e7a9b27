//! The JSON that the host and a preprocessor exchange.

use mdbook::book::Book;
use mdbook::preprocess::PreprocessorContext;
use serde_json::Value;
use vstd::prelude::*;

verus! {

/// `mdbook::book::Book`: the chapters of a book. Nothing in this crate looks
/// inside one.
#[verifier::external_type_specification]
#[verifier::external_body]
pub struct ExBook(mdbook::book::Book);

/// `mdbook::preprocess::PreprocessorContext`: what the host says of the build
/// that it is running. Nothing in this crate looks inside one.
#[verifier::external_type_specification]
#[verifier::external_body]
pub struct ExPreprocessorContext(mdbook::preprocess::PreprocessorContext);

/// `serde_json::Error`: why a value could not be read from JSON or written
/// as JSON.
#[verifier::external_type_specification]
#[verifier::external_body]
pub struct ExJsonError(serde_json::Error);

/// `serde_json::Value`: a JSON document in memory.
#[verifier::external_type_specification]
#[verifier::external_body]
pub struct ExJsonValue(serde_json::Value);

/// `serde_json::Map`: the members of a JSON object.
#[verifier::external_type_specification]
#[verifier::external_body]
#[verifier::reject_recursive_types(K)]
#[verifier::reject_recursive_types(V)]
pub struct ExJsonObject<K, V>(serde_json::Map<K, V>);

/// The document that `serde_json::from_slice` reads out of `input`, or `None`
/// where it reports an error.
pub uninterp spec fn json_document(input: Seq<u8>) -> Option<Value>;

/// The elements of `value` as `serde_json::Value::as_array` gives them:
/// `None` where `value` is no array.
pub uninterp spec fn json_elements(value: Value) -> Option<Seq<Value>>;

/// The members of `value` as `serde_json::Value::as_object` gives them:
/// `None` where `value` is no object.
pub uninterp spec fn json_members(value: Value) -> Option<serde_json::Map<String, Value>>;

/// The member of `members` called `key`, as `serde_json::Map::get` gives it.
pub uninterp spec fn json_member(members: serde_json::Map<String, Value>, key: Seq<char>) -> Option<Value>;

/// The key that `serde_json::Map::keys` gives first, which is the key that a
/// reader of `members` meets first; `None` where there is no member.
pub uninterp spec fn json_first_key(members: serde_json::Map<String, Value>) -> Option<Seq<char>>;

/// The context and the book that `serde_json::from_value` reads out of
/// `value`, or `None` where it reports an error.
pub uninterp spec fn json_pair(value: Value) -> Option<(PreprocessorContext, Book)>;

/// The bytes that `serde_json::to_vec` writes for `book`, or `None` where it
/// reports an error.
pub uninterp spec fn book_json(book: Book) -> Option<Seq<u8>>;

/// Calls `serde_json::from_slice` for a `serde_json::Value`. The contract
/// claims that the outcome depends on the bytes alone, and calls it
/// `json_document`; it says nothing of the error.
#[verifier::external_body]
fn from_slice(input: &[u8]) -> (document: Result<Value, serde_json::Error>)
    ensures
        match document {
            Ok(value) => json_document(input@) == Some(value),
            Err(_) => json_document(input@).is_none(),
        },
{
    serde_json::from_slice(input)
}

/// Calls `serde_json::Value::as_array`, and calls what it returns
/// `json_elements`.
#[verifier::external_body]
fn as_array(value: &Value) -> (elements: Option<&Vec<Value>>)
    ensures
        match elements {
            Some(items) => json_elements(*value) == Some(items@),
            None => json_elements(*value).is_none(),
        },
{
    value.as_array()
}

/// Calls `serde_json::Value::as_object`, and calls what it returns
/// `json_members`.
#[verifier::external_body]
fn as_object(value: &Value) -> (members: Option<&serde_json::Map<String, Value>>)
    ensures
        match members {
            Some(object) => json_members(*value) == Some(*object),
            None => json_members(*value).is_none(),
        },
{
    value.as_object()
}

/// Calls `serde_json::Map::get`, and calls what it returns `json_member`.
#[verifier::external_body]
fn get<'a>(members: &'a serde_json::Map<String, Value>, key: &str) -> (member: Option<&'a Value>)
    ensures
        match member {
            Some(value) => json_member(*members, key@) == Some(*value),
            None => json_member(*members, key@).is_none(),
        },
{
    members.get(key)
}

/// Calls `serde_json::Map::keys` and takes the first key that the iterator
/// gives; the contract calls it `json_first_key`.
#[verifier::external_body]
fn first_key(members: &serde_json::Map<String, Value>) -> (first: Option<&String>)
    ensures
        match first {
            Some(key) => json_first_key(*members) == Some(key@),
            None => json_first_key(*members).is_none(),
        },
{
    members.keys().next()
}

/// Calls `serde_json::from_value` for a context and a book. The context is
/// read from the first element of the document. Its member `config`, or its
/// second element where it is an array, goes to the reader of a
/// configuration in `mdbook`, which panics on what it does not read as a
/// table: so a document with such a configuration is left out. The contract
/// claims that the outcome depends on the document alone, and calls it
/// `json_pair`; it says nothing of the error.
#[verifier::external_body]
fn from_value(value: Value) -> (pair: Result<(PreprocessorContext, Book), serde_json::Error>)
    requires
        holds_no_other_configuration(value),
    ensures
        match pair {
            Ok(read) => json_pair(value) == Some(read),
            Err(_) => json_pair(value).is_none(),
        },
{
    serde_json::from_value(value)
}

/// Calls `serde_json::to_vec` on `book`. The contract claims that the outcome
/// depends on the book alone, and calls it `book_json`; it says nothing of
/// the error.
#[verifier::external_body]
pub(crate) fn to_json(book: &Book) -> (written: Result<Vec<u8>, serde_json::Error>)
    ensures
        match written {
            Ok(bytes) => book_json(*book) == Some(bytes@),
            Err(_) => book_json(*book).is_none(),
        },
{
    serde_json::to_vec(book)
}

/// The member under which a context holds the configuration of the book.
pub open spec fn configuration_key() -> Seq<char> {
    "config"@
}

/// The key by which the reader of a configuration, `toml` in its version
/// 0.5, tells a date from a table: an object whose first key is this one is
/// read as a date.
pub open spec fn date_key() -> Seq<char> {
    "$__toml_private_datetime"@
}

/// Whether the reader of a configuration takes `value` for a table: it is an
/// object, and its first key does not make a date of it.
pub open spec fn is_table(value: Value) -> bool {
    match json_members(value) {
        Some(members) => json_first_key(members) != Some(date_key()),
        None => false,
    }
}

/// Whether the configuration that `context` holds, if it holds one, is a
/// table. A context written as an object holds it under the key `config`,
/// one written as an array holds it in the second place.
pub open spec fn configuration_is_table(context: Value) -> bool {
    &&& match json_members(context) {
        Some(members) => match json_member(members, configuration_key()) {
            Some(configuration) => is_table(configuration),
            None => true,
        },
        None => true,
    }
    &&& match json_elements(context) {
        Some(items) => items.len() > 1 ==> is_table(items[1]),
        None => true,
    }
}

/// Whether `value` is free of a configuration that is no table. The context
/// is the first element of the document; a document that is no array, or an
/// empty one, holds none.
pub open spec fn holds_no_other_configuration(value: Value) -> bool {
    match json_elements(value) {
        Some(items) => items.len() > 0 ==> configuration_is_table(items[0]),
        None => true,
    }
}

/// The context and the book that `input` holds. There is none where the
/// input is no JSON, where the context holds a configuration that is no
/// table, and where the document cannot be read as a context and a book.
pub open spec fn parsed_input(input: Seq<u8>) -> Option<(PreprocessorContext, Book)> {
    match json_document(input) {
        Some(value) => if holds_no_other_configuration(value) {
            json_pair(value)
        } else {
            None
        },
        None => None,
    }
}

/// Tells whether the reader of a configuration takes `value` for a table.
pub fn check_table(value: &Value) -> (table: bool)
    ensures
        table == is_table(*value),
{
    match as_object(value) {
        Some(members) => match first_key(members) {
            Some(key) => {
                let date = "$__toml_private_datetime".to_owned();
                !(*key == date)
            },
            None => true,
        },
        None => false,
    }
}

/// Tells whether the configuration that `context` holds, if any, is a table.
pub fn check_configuration(context: &Value) -> (table: bool)
    ensures
        table == configuration_is_table(*context),
{
    let by_key = match as_object(context) {
        Some(members) => match get(members, "config") {
            Some(configuration) => check_table(configuration),
            None => true,
        },
        None => true,
    };
    let by_place = match as_array(context) {
        Some(items) => if items.len() > 1 {
            check_table(&items[1])
        } else {
            true
        },
        None => true,
    };
    by_key && by_place
}

/// Tells whether `value` is free of a configuration that is no table.
pub fn check_document(value: &Value) -> (free: bool)
    ensures
        free == holds_no_other_configuration(*value),
{
    match as_array(value) {
        Some(items) => if items.len() > 0 {
            check_configuration(&items[0])
        } else {
            true
        },
        None => true,
    }
}

/// Reads a context and a book from the JSON in `input`: first the document,
/// then, unless it holds a configuration that is no table, the pair.
///
/// The pair is read from the document, not from the bytes. So of a key that
/// an object of the input writes twice, the last counts; and the keys of an
/// object come in sorted order, whatever order the input wrote them in,
/// which decides what the first key of a configuration is.
pub fn read_input(input: &[u8]) -> (read: Option<(PreprocessorContext, Book)>)
    ensures
        read == parsed_input(input@),
{
    match from_slice(input) {
        Ok(value) => if check_document(&value) {
            match from_value(value) {
                Ok(pair) => Some(pair),
                Err(_) => None,
            }
        } else {
            None
        },
        Err(_) => None,
    }
}

} // verus!
