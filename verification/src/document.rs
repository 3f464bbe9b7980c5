//! The TOML documents of the `toml` crate, as far as the configuration reads
//! them. Nothing in this file is proved: each contract states what the
//! crate's source shows of the function that the body calls.

use vstd::prelude::*;

verus! {

/// `toml::Value`: one node of a document, opaque to the verifier.
#[verifier::external_type_specification]
#[verifier::external_body]
pub struct ExValue(toml::Value);

/// `toml::map::Map`: a table of a document, opaque to the verifier.
#[verifier::external_type_specification]
#[verifier::external_body]
#[verifier::reject_recursive_types(K)]
#[verifier::reject_recursive_types(V)]
pub struct ExTable<K, V>(toml::map::Map<K, V>);

/// `toml::de::Error`: why a text is no document.
#[verifier::external_type_specification]
#[verifier::external_body]
pub struct ExSyntaxError(toml::de::Error);

/// The keys of a table with their values, in the order in which the table's
/// iterator yields them.
pub uninterp spec fn table_entries(table: toml::map::Map<String, toml::Value>) -> Seq<(Seq<char>, toml::Value)>;

/// The table inside a node, if the node is a table (`Value::as_table`).
pub uninterp spec fn value_table(value: toml::Value) -> Option<toml::map::Map<String, toml::Value>>;

/// The items of a node, if the node is an array (`Value::as_array`).
pub uninterp spec fn value_array(value: toml::Value) -> Option<Seq<toml::Value>>;

/// The text of a node, if the node is a string (`Value::as_str`).
pub uninterp spec fn value_text(value: toml::Value) -> Option<Seq<char>>;

/// What a node holds under a key (`Value::get` with a string index): a
/// value only for a table that has the key.
pub uninterp spec fn value_member(value: toml::Value, key: Seq<char>) -> Option<toml::Value>;

/// The table that a text parses to, if it is a TOML document.
pub uninterp spec fn parsed_table(text: Seq<char>) -> Option<toml::map::Map<String, toml::Value>>;

/// Calls `str::parse` for a table, which runs the crate's parser on the text.
#[verifier::external_body]
pub(crate) fn parse_table(text: &str) -> (r: Result<toml::map::Map<String, toml::Value>, toml::de::Error>)
    ensures
        match r {
            Ok(table) => parsed_table(text@) == Some(table),
            Err(_) => parsed_table(text@) is None,
        },
{
    text.parse::<toml::map::Map<String, toml::Value>>()
}

/// Calls `Map::iter` and collects what it yields: each key with its value, in
/// the iterator's order.
#[verifier::external_body]
pub(crate) fn entries<'a>(table: &'a toml::map::Map<String, toml::Value>) -> (out: Vec<(&'a String, &'a toml::Value)>)
    ensures
        out@.len() == table_entries(*table).len(),
        forall|i: int| 0 <= i < out@.len() ==> {
            &&& (#[trigger] out@[i]).0@ == table_entries(*table)[i].0
            &&& *out@[i].1 == table_entries(*table)[i].1
        },
{
    table.iter().collect()
}

/// Calls `Value::as_table`.
#[verifier::external_body]
pub(crate) fn as_table<'a>(value: &'a toml::Value) -> (r: Option<&'a toml::map::Map<String, toml::Value>>)
    ensures
        match r {
            Some(table) => value_table(*value) == Some(*table),
            None => value_table(*value) is None,
        },
{
    value.as_table()
}

/// Calls `Value::as_array`.
#[verifier::external_body]
pub(crate) fn as_array<'a>(value: &'a toml::Value) -> (r: Option<&'a Vec<toml::Value>>)
    ensures
        match r {
            Some(items) => value_array(*value) == Some(items@),
            None => value_array(*value) is None,
        },
{
    value.as_array()
}

/// Calls `Value::as_str`.
#[verifier::external_body]
pub(crate) fn as_text<'a>(value: &'a toml::Value) -> (r: Option<&'a str>)
    ensures
        match r {
            Some(text) => value_text(*value) == Some(text@),
            None => value_text(*value) is None,
        },
{
    value.as_str()
}

/// Calls `Value::get` with a string index.
#[verifier::external_body]
pub(crate) fn member<'a>(value: &'a toml::Value, key: &str) -> (r: Option<&'a toml::Value>)
    ensures
        match r {
            Some(found) => value_member(*value, key@) == Some(*found),
            None => value_member(*value, key@) is None,
        },
{
    value.get(key)
}

} // verus!
