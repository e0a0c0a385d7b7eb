//! The manifest as a parsed document. Parsing, printing and the tables
//! themselves are the `toml` crate's; this module states what the rest of
//! the library relies on.

use vstd::prelude::*;
use crate::error::LicenseError;

verus! {

/// A parsed value of a manifest: a table, an array or a scalar.
#[verifier::external_type_specification]
#[verifier::external_body]
pub struct ExValue(toml::Value);

/// A table of a manifest, from keys to values.
#[verifier::external_type_specification]
#[verifier::external_body]
#[verifier::reject_recursive_types(K)]
#[verifier::reject_recursive_types(V)]
pub struct ExTable<K, V>(toml::map::Map<K, V>);

/// Why a text is no manifest.
#[verifier::external_type_specification]
#[verifier::external_body]
pub struct ExParseError(toml::de::Error);

/// Why a document has no text.
#[verifier::external_type_specification]
#[verifier::external_body]
pub struct ExPrintError(toml::ser::Error);

/// The document that `toml::from_str` reads from `text`, if it reads one.
pub uninterp spec fn parsed_document(text: Seq<char>) -> Option<toml::Value>;

/// What a table holds: its keys, each with its value.
pub uninterp spec fn table_entries(table: toml::map::Map<String, toml::Value>) -> Map<
    Seq<char>,
    toml::Value,
>;

/// The table that `value` is, if it is one.
pub uninterp spec fn value_table(value: toml::Value) -> Option<
    toml::map::Map<String, toml::Value>,
>;

/// The value that is the table with these entries.
pub uninterp spec fn entries_value(entries: Map<Seq<char>, toml::Value>) -> toml::Value;

/// The items of `value`, if it is an array.
pub uninterp spec fn value_array(value: toml::Value) -> Option<Seq<toml::Value>>;

/// The text that `value` is written as, if it has one: for a string, its
/// encoded form with the quotes. A value built by hand may have none (a
/// date with a month that does not exist).
pub uninterp spec fn value_text(value: toml::Value) -> Option<Seq<char>>;

/// The string value that holds `text`.
pub uninterp spec fn text_value(text: Seq<char>) -> toml::Value;

/// The text that `toml::ser::to_string_pretty` prints for `value`, if it
/// prints one.
pub uninterp spec fn pretty_document(value: toml::Value) -> Option<Seq<char>>;

/// The entries of `value`, if it is a table.
pub open spec fn value_entries(value: toml::Value) -> Option<Map<Seq<char>, toml::Value>> {
    match value_table(value) {
        Some(table) => Some(table_entries(table)),
        None => None,
    }
}

/// The entries of the table under `key` in the table `value`; `None` where
/// `value` is no table, has no such key, or holds something else there.
pub open spec fn section_entries(value: toml::Value, key: Seq<char>) -> Option<
    Map<Seq<char>, toml::Value>,
> {
    match value_entries(value) {
        Some(top) => if top.contains_key(key) {
            value_entries(top[key])
        } else {
            None
        },
        None => None,
    }
}

/// Calls `toml::from_str` for a `toml::Value`. Trusted: the outcome depends
/// on the text alone, so it is `parsed_document` of the text.
#[verifier::external_body]
pub(crate) fn parse_document(text: &str) -> (r: Result<toml::Value, toml::de::Error>)
    ensures
        r matches Ok(value) ==> parsed_document(text@) == Some(value),
        r is Err ==> parsed_document(text@) is None,
{
    toml::from_str::<toml::Value>(text)
}

/// Calls `toml::Value::as_table` and copies the table. Trusted: the result
/// is the table that the value is, or `None` for any other kind of value.
#[verifier::external_body]
pub(crate) fn as_table(value: &toml::Value) -> (r: Option<toml::map::Map<String, toml::Value>>)
    ensures
        r == value_table(*value),
{
    value.as_table().cloned()
}

/// Calls `toml::map::Map::get` and copies the value. Trusted: the result is
/// the value under `key`, or `None` where the table has no such key.
#[verifier::external_body]
pub(crate) fn table_get(table: &toml::map::Map<String, toml::Value>, key: &str) -> (r: Option<
    toml::Value,
>)
    ensures
        r == (if table_entries(*table).contains_key(key@) {
            Some(table_entries(*table)[key@])
        } else {
            None
        }),
{
    table.get(key).cloned()
}

/// Calls `toml::map::Map::remove`. Trusted: afterwards the table holds what
/// it held, but for `key`.
#[verifier::external_body]
pub(crate) fn table_remove(table: &mut toml::map::Map<String, toml::Value>, key: &str)
    ensures
        table_entries(*final(table)) == table_entries(*old(table)).remove(key@),
{
    table.remove(key);
}

/// Calls `toml::map::Map::insert`. Trusted: afterwards the table holds what
/// it held, and `value` under `key`, in place of what stood there.
#[verifier::external_body]
pub(crate) fn table_insert(
    table: &mut toml::map::Map<String, toml::Value>,
    key: &str,
    value: toml::Value,
)
    ensures
        table_entries(*final(table)) == table_entries(*old(table)).insert(key@, value),
{
    table.insert(key.to_owned(), value);
}

/// Calls `toml::Value::from` on a table. Trusted: the value is the table
/// itself, seen as a value, and so is determined by the table's entries.
#[verifier::external_body]
pub(crate) fn table_into_value(table: toml::map::Map<String, toml::Value>) -> (r: toml::Value)
    ensures
        r == entries_value(table_entries(table)),
        value_table(r) == Some(table),
{
    toml::Value::from(table)
}

/// Calls `toml::Value::from` on a string slice. Trusted: the result is the
/// string value with that text.
#[verifier::external_body]
pub(crate) fn text_into_value(text: &str) -> (r: toml::Value)
    ensures
        r == text_value(text@),
{
    toml::Value::from(text)
}

/// Calls `toml::Value::as_array` and copies the items. Trusted: the result
/// holds the array's items in their order, or is `None` for any other kind
/// of value.
#[verifier::external_body]
pub(crate) fn as_array(value: &toml::Value) -> (r: Option<Vec<toml::Value>>)
    ensures
        match r {
            Some(items) => value_array(*value) == Some(items@),
            None => value_array(*value) is None,
        },
{
    value.as_array().cloned()
}

/// Calls `serialize` of `toml::Value` with a `toml::ser::ValueSerializer`,
/// as the value's `Display` does, but hands the serializer's failure on in
/// place of a panic. Trusted: the outcome depends on the value alone.
#[verifier::external_body]
pub(crate) fn value_to_text(value: &toml::Value) -> (r: Option<String>)
    ensures
        match r {
            Some(text) => value_text(*value) == Some(text@),
            None => value_text(*value) is None,
        },
{
    let mut text = String::new();
    match serde::Serialize::serialize(value, toml::ser::ValueSerializer::new(&mut text)) {
        Ok(_) => Some(text),
        Err(_) => None,
    }
}

/// Calls `toml::ser::to_string_pretty`. Trusted: the outcome depends on the
/// value alone, so it is `pretty_document` of the value.
#[verifier::external_body]
pub(crate) fn to_pretty_text(value: &toml::Value) -> (r: Result<String, toml::ser::Error>)
    ensures
        r matches Ok(text) ==> pretty_document(*value) == Some(text@),
        r is Err ==> pretty_document(*value) is None,
{
    toml::ser::to_string_pretty(value)
}

/// Parses the text of a manifest.
pub fn read_to_toml(contents: &str) -> (r: Result<toml::Value, LicenseError>)
    ensures
        match r {
            Ok(value) => parsed_document(contents@) == Some(value),
            Err(e) => e == LicenseError::ManifestParseError && parsed_document(contents@) is None,
        },
{
    match parse_document(contents) {
        Ok(value) => Ok(value),
        Err(_) => Err(LicenseError::ManifestParseError),
    }
}

/// The table under `key` in the table `value`.
pub fn section(value: &toml::Value, key: &str) -> (r: Option<toml::map::Map<String, toml::Value>>)
    ensures
        match r {
            Some(table) => section_entries(*value, key@) == Some(table_entries(table)),
            None => section_entries(*value, key@) is None,
        },
{
    match as_table(value) {
        Some(top) => match table_get(&top, key) {
            Some(inner) => as_table(&inner),
            None => None,
        },
        None => None,
    }
}

} // verus!
