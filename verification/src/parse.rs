//! Reading a document, and the settings in it, from TOML text.
//!
//! The text is parsed by the `toml` crate. What that crate makes of a text
//! is not proved here: it is named, and everything after the parse is proved
//! of whatever it makes.

use vstd::prelude::*;
use crate::accept::{accept, accepted, viewed};
use crate::config::{Config, ConfigView};
use crate::document::{Item, Node, Table};
use crate::error::ConfigError;

verus! {

/// `toml::Value`, a value of a parsed document. Nothing inside it is seen
/// here but through `unpack`.
#[verifier::external_type_specification]
#[verifier::external_body]
pub struct ExTomlValue(toml::Value);

/// `toml::de::Error`, what `toml::from_str` fails with. It is only told
/// apart from success.
#[verifier::external_type_specification]
#[verifier::external_body]
pub struct ExTomlError(toml::de::Error);

/// What the `toml` crate makes of `text` as a document: the bindings of its
/// root table, or nothing where it turns the text down.
pub uninterp spec fn toml_document(text: Seq<char>) -> Option<Map<Seq<char>, Node>>;

/// What a value of the `toml` crate stands for. Integers, floats, dates and
/// arrays all stand for `Node::Other`.
pub uninterp spec fn toml_node(value: toml::Value) -> Node;

/// A value of the `toml` crate, taken apart one level.
enum Piece {
    Text(String),
    Flag(bool),
    Table(Vec<(String, toml::Value)>),
    Other,
}

/// `items` holds each binding of `table` once.
spec fn lists(items: Seq<(String, toml::Value)>, table: Map<Seq<char>, Node>) -> bool {
    &&& table.dom().finite()
    &&& forall|i: int, j: int| 0 <= i < j < items.len() ==> items[i].0@ != items[j].0@
    &&& forall|i: int|
        0 <= i < items.len() ==> table.contains_key(#[trigger] items[i].0@) && table[items[i].0@]
            == toml_node(items[i].1)
    &&& forall|k: Seq<char>| #[trigger]
        table.contains_key(k) ==> exists|i: int| 0 <= i < items.len() && #[trigger] items[i].0@ == k
}

/// Calls `toml::from_str` for a `toml::Table` and hands the table on as a
/// `toml::Value`. Trusted: the call succeeds exactly on the texts for which
/// `toml_document` holds bindings, and the table then stands for them.
#[verifier::external_body]
fn parse_toml(text: &str) -> (parsed: Result<toml::Value, toml::de::Error>)
    ensures
        match parsed {
            Ok(root) => toml_document(text@) == Some(toml_node(root)->Table_0) && toml_node(
                root,
            ) is Table,
            Err(_) => toml_document(text@) is None,
        },
{
    match toml::from_str::<toml::Table>(text) {
        Ok(table) => Ok(toml::Value::Table(table)),
        Err(error) => Err(error),
    }
}

/// Tells the variants of `toml::Value` apart and moves the payload out; a
/// table is walked by `toml::map::Map::into_iter`. Trusted: the piece holds
/// what the value stands for, and the items of a table hold each of its
/// bindings once.
#[verifier::external_body]
fn unpack(value: toml::Value) -> (piece: Piece)
    ensures
        match piece {
            Piece::Text(text) => toml_node(value) == Node::Text(text@),
            Piece::Flag(flag) => toml_node(value) == Node::Flag(flag),
            Piece::Table(items) => toml_node(value) is Table && lists(
                items@,
                toml_node(value)->Table_0,
            ),
            Piece::Other => toml_node(value) == Node::Other,
        },
{
    match value {
        toml::Value::String(text) => Piece::Text(text),
        toml::Value::Boolean(flag) => Piece::Flag(flag),
        toml::Value::Table(table) => Piece::Table(table.into_iter().collect()),
        toml::Value::Integer(_) => Piece::Other,
        toml::Value::Float(_) => Piece::Other,
        toml::Value::Datetime(_) => Piece::Other,
        toml::Value::Array(_) => Piece::Other,
    }
}

/// The value of a document that a value of the `toml` crate stands for.
fn convert(value: toml::Value) -> (converted: Item)
    ensures
        converted@ == toml_node(value),
    decreases toml_node(value),
{
    match unpack(value) {
        Piece::Text(text) => Item::String(text),
        Piece::Flag(flag) => Item::Boolean(flag),
        Piece::Other => Item::Other,
        Piece::Table(items) => {
            let ghost table = toml_node(value)->Table_0;
            let ghost all = items@;
            let mut items = items;
            let mut converted = Table::new();
            while items.len() > 0
                invariant
                    toml_node(value) == Node::Table(table),
                    lists(all, table),
                    items@.len() <= all.len(),
                    items@ == all.subrange(0, items@.len() as int),
                    forall|k: Seq<char>|
                        converted@.contains_key(k) <==> exists|i: int|
                            items@.len() <= i < all.len() && #[trigger] all[i].0@ == k,
                    forall|k: Seq<char>| #[trigger]
                        converted@.contains_key(k) ==> converted@[k] == table[k],
                decreases items@.len(),
            {
                let ghost before = converted@;
                let ghost at = items@.len() - 1;
                let (key, item) = items.pop().unwrap();
                assert(all[at] == (key, item));
                assert(table.contains_key(all[at].0@));
                proof {
                    vstd::map::axiom_map_index_decreases_finite(table, key@);
                    assert(decreases_to!(toml_node(value) => toml_node(value)->Table_0));
                }
                let inner = convert(item);
                converted.insert(key, inner);
                assert forall|k: Seq<char>|
                    converted@.contains_key(k) <==> exists|i: int|
                        items@.len() <= i < all.len() && #[trigger] all[i].0@ == k by {
                    if converted@.contains_key(k) && k != key@ {
                        let i = choose|i: int| at < i < all.len() && #[trigger] all[i].0@ == k;
                        assert(all[i].0@ == k);
                    }
                    if exists|i: int| items@.len() <= i < all.len() && #[trigger] all[i].0@ == k {
                        let i = choose|i: int|
                            items@.len() <= i < all.len() && #[trigger] all[i].0@ == k;
                        if i != at {
                            assert(before.contains_key(k));
                        }
                    }
                }
            }
            assert(converted@ =~= table) by {
                assert forall|k: Seq<char>| table.contains_key(k) implies converted@.contains_key(
                    k,
                ) by {
                    let i = choose|i: int| 0 <= i < all.len() && #[trigger] all[i].0@ == k;
                    assert(all[i].0@ == k);
                }
            }
            Item::Table(converted)
        },
    }
}

/// What comes of reading settings from `text`: a syntax fault where the
/// `toml` crate turns the text down, else what comes of reading its document.
pub open spec fn parsed(text: Seq<char>) -> Result<ConfigView, ConfigError> {
    match toml_document(text) {
        Some(doc) => accepted(doc),
        None => Err(ConfigError::Syntax),
    }
}

/// Reads a document from TOML text.
///
/// Fails with `ConfigError::Syntax` exactly where the text is no TOML
/// document; otherwise the table binds what the document binds.
pub fn read_document(text: &str) -> (outcome: Result<Table, ConfigError>)
    ensures
        match outcome {
            Ok(table) => toml_document(text@) == Some(table@),
            Err(error) => toml_document(text@) is None && error == ConfigError::Syntax,
        },
{
    match parse_toml(text) {
        Err(_) => Err(ConfigError::Syntax),
        Ok(root) => match convert(root) {
            Item::Table(table) => Ok(table),
            _ => Err(ConfigError::Syntax),
        },
    }
}

/// Reads the settings from TOML text.
pub fn parse(text: &str) -> (outcome: Result<Config, ConfigError>)
    ensures
        viewed(outcome) == parsed(text@),
{
    match read_document(text) {
        Ok(table) => accept(&table),
        Err(error) => Err(error),
    }
}

} // verus!
