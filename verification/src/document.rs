//! The TOML reader that the descriptor is parsed with, and what the library
//! takes for granted about it.
//!
//! Parsing is left to the `toml` crate. Its values stay opaque here; the
//! functions below name what they hold, and every statement about them is a
//! claim about `toml` that is believed, not proved.

use vstd::prelude::*;

verus! {

/// What a TOML value holds, as far as a descriptor is read: a string, a
/// table of named values in the order in which the table hands them out, or
/// anything else.
pub enum Item {
    Text(Seq<char>),
    Table(Seq<(Seq<char>, Item)>),
    Other,
}

/// `toml::Value`, carried through without a look inside.
#[verifier::external_type_specification]
#[verifier::external_body]
pub struct ExValue(toml::Value);

/// `toml::map::Map`, the table type of `toml`, carried through without a look
/// inside.
#[verifier::external_type_specification]
#[verifier::external_body]
#[verifier::reject_recursive_types(K)]
#[verifier::reject_recursive_types(V)]
pub struct ExMap<K, V>(toml::map::Map<K, V>);

/// `toml::de::Error`, carried through without a look inside.
#[verifier::external_type_specification]
#[verifier::external_body]
pub struct ExError(toml::de::Error);

/// What `toml::from_str` makes of `text` when it is asked for a table: the
/// entries of the document, or the message of the error.
pub uninterp spec fn parsed_document(text: Seq<char>) -> Result<Seq<(Seq<char>, Item)>, Seq<char>>;

/// The entries of a table, in the order in which it hands them out.
pub uninterp spec fn table_entries(table: toml::Table) -> Seq<(Seq<char>, Item)>;

/// What a value holds.
pub uninterp spec fn value_item(value: toml::Value) -> Item;

/// The message of an error.
pub uninterp spec fn error_text(error: toml::de::Error) -> Seq<char>;

/// The item under `key` in `entries`: that of the first entry with this key.
pub open spec fn find_entry(entries: Seq<(Seq<char>, Item)>, key: Seq<char>) -> Option<Item>
    decreases entries.len(),
{
    if entries.len() == 0 {
        None
    } else if entries[0].0 == key {
        Some(entries[0].1)
    } else {
        find_entry(entries.drop_first(), key)
    }
}

/// Calls `toml::from_str` for a `toml::Table`.
///
/// The claim: the outcome is a function of the text alone. A document comes
/// back as a table whose entries are those that `parsed_document` names, and
/// a failure as an error whose message is the one that it names.
#[verifier::external_body]
pub(crate) fn parse_document(text: &str) -> (parsed: Result<toml::Table, toml::de::Error>)
    ensures
        match parsed {
            Ok(table) => parsed_document(text@) == Ok::<Seq<(Seq<char>, Item)>, Seq<char>>(
                table_entries(table),
            ),
            Err(error) => parsed_document(text@) == Err::<Seq<(Seq<char>, Item)>, Seq<char>>(
                error_text(error),
            ),
        },
{
    toml::from_str::<toml::Table>(text)
}

/// Calls `toml::map::Map::get`.
///
/// The claim: the value found is the one that the table holds under `key`,
/// and none is found exactly when the table has no such key.
#[verifier::external_body]
pub(crate) fn table_get<'a>(table: &'a toml::Table, key: &str) -> (found: Option<&'a toml::Value>)
    ensures
        match found {
            Some(value) => find_entry(table_entries(*table), key@) == Some(value_item(*value)),
            None => find_entry(table_entries(*table), key@) is None,
        },
{
    table.get(key)
}

/// Calls `toml::map::Map::iter` and collects what it yields, each key as a
/// copy.
///
/// The claim: the list holds the entries of the table, one for one and in the
/// table's order, and no key occurs twice in it.
#[verifier::external_body]
pub(crate) fn table_list<'a>(table: &'a toml::Table) -> (list: Vec<(String, &'a toml::Value)>)
    ensures
        list@.len() == table_entries(*table).len(),
        forall|i: int|
            0 <= i < list@.len() ==> (#[trigger] list@[i]).0@ == table_entries(*table)[i].0
                && value_item(*list@[i].1) == table_entries(*table)[i].1,
        forall|i: int, j: int|
            0 <= i < j < list@.len() ==> (#[trigger] list@[i]).0@ != (#[trigger] list@[j]).0@,
{
    table.iter().map(|(key, value)| (key.clone(), value)).collect()
}

/// `toml::Value::as_str`: the string of a value that is one, and nothing for
/// any other value.
pub assume_specification[ toml::Value::as_str ](value: &toml::Value) -> (text: Option<&str>)
    ensures
        match text {
            Some(s) => value_item(*value) == Item::Text(s@),
            None => !(value_item(*value) is Text),
        },
;

/// `toml::Value::as_table`: the table of a value that is one, and nothing for
/// any other value.
pub assume_specification[ toml::Value::as_table ](value: &toml::Value) -> (table: Option<
    &toml::Table,
>)
    ensures
        match table {
            Some(t) => value_item(*value) == Item::Table(table_entries(*t)),
            None => !(value_item(*value) is Table),
        },
;

/// `toml::de::Error::message`: what went wrong, in words.
pub assume_specification[ toml::de::Error::message ](error: &toml::de::Error) -> (text: &str)
    ensures
        text@ == error_text(*error),
;

} // verus!
