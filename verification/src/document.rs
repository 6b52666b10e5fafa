//! TOML documents, as the `toml` crate parses and prints them.
//!
//! The crate's `Table` and `Value` stay what they are. The proofs see them
//! through a model: a table is a map from keys to items, and an item is a
//! tree of plain values. Everything in this module that touches the `toml`
//! crate is trusted, not proved.
//!
//! The model has no order. That fits the `toml` crate as it is built here,
//! with its default features, where a table keeps its keys sorted.

use vstd::prelude::*;

verus! {

#[verifier::external_type_specification]
#[verifier::external_body]
pub struct ExValue(toml::Value);

#[verifier::external_type_specification]
#[verifier::external_body]
#[verifier::reject_recursive_types(K)]
#[verifier::reject_recursive_types(V)]
pub struct ExMap<K, V>(toml::map::Map<K, V>);

#[verifier::external_type_specification]
#[verifier::external_body]
pub struct ExParseError(toml::de::Error);

#[verifier::external_type_specification]
#[verifier::external_body]
pub struct ExPrintError(toml::ser::Error);

/// What a TOML value holds. A float and a date-time are told apart from the
/// rest, but what they hold is not part of the model.
pub enum Item {
    Text(Seq<char>),
    Integer(i64),
    Boolean(bool),
    Float,
    Datetime,
    Array(Seq<Item>),
    Table(Map<Seq<char>, Item>),
}

/// The entries of a document or of a table in it.
pub type Entries = Map<Seq<char>, Item>;

/// What `value` holds.
pub uninterp spec fn value_item(value: toml::Value) -> Item;

/// The entries of `table`: its keys, each with what its value holds.
pub uninterp spec fn table_entries(table: toml::Table) -> Entries;

/// The entries of the table that `toml::from_str` reads from `text`, or
/// `None` where it reports an error.
pub uninterp spec fn parsed_document(text: Seq<char>) -> Option<Entries>;

/// The text that `toml::to_string` prints for a table with the entries
/// `entries`, or `None` where it reports an error.
pub uninterp spec fn printed_document(entries: Entries) -> Option<Seq<char>>;

/// What each of `values` holds, in order.
pub open spec fn items_of(values: Seq<toml::Value>) -> Seq<Item> {
    Seq::new(values.len(), |i: int| value_item(values[i]))
}

/// A string, an integer or a boolean.
pub open spec fn is_scalar(item: Item) -> bool {
    item is Text || item is Integer || item is Boolean
}

/// A table whose entries are strings, integers and booleans.
pub open spec fn is_section(item: Item) -> bool {
    match item {
        Item::Table(fields) => forall|field: Seq<char>| #[trigger]
            fields.contains_key(field) ==> is_scalar(fields[field]),
        _ => false,
    }
}

/// A document made of sections and of nothing else.
pub open spec fn is_sectioned(entries: Entries) -> bool {
    forall|section: Seq<char>| #[trigger]
        entries.contains_key(section) ==> is_section(entries[section])
}

/// Calls `toml::from_str` for a `toml::Table`.
///
/// Trusted: whether the text is accepted, and the table that is read from
/// it, depend on the text alone; they are what [`parsed_document`] names.
#[verifier::external_body]
pub(crate) fn parse_document(text: &str) -> (parsed: Result<toml::Table, toml::de::Error>)
    ensures
        match parsed {
            Ok(table) => parsed_document(text@) == Some(table_entries(table)),
            Err(_) => parsed_document(text@) is None,
        },
{
    toml::from_str::<toml::Table>(text)
}

/// Calls `toml::to_string` on a table.
///
/// Trusted: for a table made of sections, whether it can be printed, and
/// the text, depend on its entries alone; they are what
/// [`printed_document`] names.
#[verifier::external_body]
pub(crate) fn print_document(table: &toml::Table) -> (printed: Result<String, toml::ser::Error>)
    requires
        is_sectioned(table_entries(*table)),
    ensures
        match printed {
            Ok(text) => printed_document(table_entries(*table)) == Some(text@),
            Err(_) => printed_document(table_entries(*table)) is None,
        },
{
    toml::to_string(table)
}

/// Prints a parse error of the `toml` crate through its `Display`.
///
/// Trusted: nothing is claimed of the message.
#[verifier::external_body]
pub(crate) fn parse_error_message(error: &toml::de::Error) -> (message: String) {
    error.to_string()
}

/// Prints a print error of the `toml` crate through its `Display`.
///
/// Trusted: nothing is claimed of the message.
#[verifier::external_body]
pub(crate) fn print_error_message(error: &toml::ser::Error) -> (message: String) {
    error.to_string()
}

/// Calls `Map::new`.
///
/// Trusted: the new table has no entries.
#[verifier::external_body]
pub(crate) fn table_new() -> (table: toml::Table)
    ensures
        table_entries(table) == Entries::empty(),
{
    toml::Table::new()
}

/// Calls `Map::insert`.
///
/// Trusted: afterwards `key` holds `value`, and every other key holds what
/// it held before.
#[verifier::external_body]
pub(crate) fn table_insert(table: &mut toml::Table, key: &str, value: toml::Value)
    ensures
        table_entries(*final(table)) == table_entries(*old(table)).insert(key@, value_item(value)),
{
    table.insert(key.to_owned(), value);
}

/// Calls `Map::get`.
///
/// Trusted: the result is the value under `key`, and `None` where the table
/// has no such key.
#[verifier::external_body]
pub(crate) fn table_get<'a>(table: &'a toml::Table, key: &str) -> (found: Option<&'a toml::Value>)
    ensures
        found is Some <==> table_entries(*table).contains_key(key@),
        found is Some ==> value_item(*found->0) == table_entries(*table)[key@],
{
    table.get(key)
}

/// Calls `Map::keys` and copies the keys out.
///
/// Trusted: every key of the table comes out, and nothing else does.
#[verifier::external_body]
pub(crate) fn table_keys(table: &toml::Table) -> (keys: Vec<String>)
    ensures
        forall|key: Seq<char>|
            table_entries(*table).contains_key(key) <==> exists|i: int|
                0 <= i < keys.len() && #[trigger] keys[i]@ == key,
{
    let mut keys = Vec::new();
    for key in table.keys() {
        keys.push(key.clone());
    }
    keys
}

/// Builds `Value::Boolean`.
///
/// Trusted: the value holds `flag`.
#[verifier::external_body]
pub(crate) fn value_from_bool(flag: bool) -> (value: toml::Value)
    ensures
        value_item(value) == Item::Boolean(flag),
{
    toml::Value::Boolean(flag)
}

/// Builds `Value::Integer`.
///
/// Trusted: the value holds `number`.
#[verifier::external_body]
pub(crate) fn value_from_integer(number: i64) -> (value: toml::Value)
    ensures
        value_item(value) == Item::Integer(number),
{
    toml::Value::Integer(number)
}

/// Builds `Value::String`.
///
/// Trusted: the value holds `text`.
#[verifier::external_body]
pub(crate) fn value_from_str(text: &str) -> (value: toml::Value)
    ensures
        value_item(value) == Item::Text(text@),
{
    toml::Value::String(text.to_owned())
}

/// Builds `Value::Table`.
///
/// Trusted: the value holds the entries of `table`.
#[verifier::external_body]
pub(crate) fn value_from_table(table: toml::Table) -> (value: toml::Value)
    ensures
        value_item(value) == Item::Table(table_entries(table)),
{
    toml::Value::Table(table)
}

/// Calls `Value::as_bool`.
///
/// Trusted: the result is the boolean that the value holds, and `None`
/// where it holds anything else.
#[verifier::external_body]
pub(crate) fn value_as_bool(value: &toml::Value) -> (flag: Option<bool>)
    ensures
        flag == (match value_item(*value) {
            Item::Boolean(held) => Some(held),
            _ => None,
        }),
{
    value.as_bool()
}

/// Calls `Value::as_integer`.
///
/// Trusted: the result is the integer that the value holds, and `None`
/// where it holds anything else.
#[verifier::external_body]
pub(crate) fn value_as_integer(value: &toml::Value) -> (number: Option<i64>)
    ensures
        number == (match value_item(*value) {
            Item::Integer(held) => Some(held),
            _ => None,
        }),
{
    value.as_integer()
}

/// Calls `Value::as_str`.
///
/// Trusted: the result is the string that the value holds, and `None` where
/// it holds anything else.
#[verifier::external_body]
pub(crate) fn value_as_str<'a>(value: &'a toml::Value) -> (text: Option<&'a str>)
    ensures
        value_item(*value) is Text <==> text is Some,
        text is Some ==> value_item(*value) == Item::Text(text->0@),
{
    value.as_str()
}

/// Calls `Value::as_array`.
///
/// Trusted: the result is the array that the value holds, and `None` where
/// it holds anything else.
#[verifier::external_body]
pub(crate) fn value_as_array<'a>(value: &'a toml::Value) -> (values: Option<&'a Vec<toml::Value>>)
    ensures
        value_item(*value) is Array <==> values is Some,
        values is Some ==> value_item(*value) == Item::Array(items_of(values->0@)),
{
    value.as_array()
}

/// Calls `Value::as_table`.
///
/// Trusted: the result is the table that the value holds, and `None` where
/// it holds anything else.
#[verifier::external_body]
pub(crate) fn value_as_table<'a>(value: &'a toml::Value) -> (table: Option<&'a toml::Table>)
    ensures
        value_item(*value) is Table <==> table is Some,
        table is Some ==> value_item(*value) == Item::Table(table_entries(*table->0)),
{
    value.as_table()
}

} // verus!
