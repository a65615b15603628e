//! The TOML document tree, as the `toml` crate holds it, and a mathematical
//! model of it.
//!
//! The functions of this module are the only place where a value of that
//! crate is read.  Their contracts are stated against [`Node`]; they are
//! believed, not proved.

use vstd::prelude::*;

verus! {

/// `toml::Value`: one node of a parsed TOML document.  What it holds is
/// known only through [`node_of`].
#[verifier::external_type_specification]
#[verifier::external_body]
pub struct ExValue(toml::Value);

/// `toml::map::Map`: the table type of the `toml` crate.  What it holds is
/// known only through [`entries_of`].
#[verifier::external_type_specification]
#[verifier::external_body]
#[verifier::reject_recursive_types(K)]
#[verifier::reject_recursive_types(V)]
pub struct ExMap<K, V>(toml::map::Map<K, V>);

/// A TOML table: its keys are strings, no key occurs twice.
pub type ConfigTable = toml::map::Map<String, toml::Value>;

/// What a TOML value is: a scalar, an array of values, or a table that maps
/// each of its keys to a value.  Of a float and of a datetime only the kind
/// is kept.
pub ghost enum Node {
    String(Seq<char>),
    Integer(i64),
    Float,
    Boolean(bool),
    Datetime,
    Array(Seq<Node>),
    Table(Map<Seq<char>, Node>),
}

/// The tree that a `toml::Value` holds: the variant of the value and, below
/// it, the trees of its items or entries.
pub uninterp spec fn node_of(value: toml::Value) -> Node;

/// The entries that a table holds: each key, as the sequence of its
/// characters, with the tree of the value stored under it.
pub uninterp spec fn entries_of(table: toml::map::Map<String, toml::Value>) -> Map<Seq<char>, Node>;

/// The trees that a sequence of values holds, in the same order.
pub open spec fn nodes_of(values: Seq<toml::Value>) -> Seq<Node> {
    Seq::new(values.len(), |i: int| node_of(values[i]))
}

/// `toml::map::Map::get`: something exactly when the table has the key, and
/// then the value stored under it.
#[verifier::external_body]
pub(crate) fn table_get<'a>(table: &'a ConfigTable, key: &str) -> (found: Option<&'a toml::Value>)
    ensures
        found is Some <==> entries_of(*table).contains_key(key@),
        found matches Some(value) ==> node_of(*value) == entries_of(*table)[key@],
{
    table.get(key)
}

/// `toml::Value::as_str`: something exactly when the value is a string, and
/// then its text.
#[verifier::external_body]
pub(crate) fn value_as_str(value: &toml::Value) -> (text: Option<&str>)
    ensures
        text is Some <==> node_of(*value) is String,
        text matches Some(s) ==> node_of(*value) == Node::String(s@),
{
    value.as_str()
}

/// `toml::Value::as_integer`: something exactly when the value is an
/// integer, and then its number.
#[verifier::external_body]
pub(crate) fn value_as_integer(value: &toml::Value) -> (number: Option<i64>)
    ensures
        number is Some <==> node_of(*value) is Integer,
        number matches Some(n) ==> node_of(*value) == Node::Integer(n),
{
    value.as_integer()
}

/// `toml::Value::as_bool`: something exactly when the value is a boolean,
/// and then its truth value.
#[verifier::external_body]
pub(crate) fn value_as_bool(value: &toml::Value) -> (flag: Option<bool>)
    ensures
        flag is Some <==> node_of(*value) is Boolean,
        flag matches Some(b) ==> node_of(*value) == Node::Boolean(b),
{
    value.as_bool()
}

/// `toml::Value::as_array`: something exactly when the value is an array,
/// and then its items in their order.
#[verifier::external_body]
pub(crate) fn value_as_array(value: &toml::Value) -> (items: Option<&Vec<toml::Value>>)
    ensures
        items is Some <==> node_of(*value) is Array,
        items matches Some(v) ==> node_of(*value) == Node::Array(nodes_of(v@)),
{
    value.as_array()
}

/// `toml::Value::as_table`: something exactly when the value is a table,
/// and then that table.
#[verifier::external_body]
pub(crate) fn value_as_table(value: &toml::Value) -> (table: Option<&ConfigTable>)
    ensures
        table is Some <==> node_of(*value) is Table,
        table matches Some(t) ==> node_of(*value) == Node::Table(entries_of(*t)),
{
    value.as_table()
}

} // verus!
