//! JSON documents as trees of plain values, and the reading of JSON text.
//!
//! The text is read by `serde_json`; what it returns is then copied, node by
//! node, into a [`Json`] tree that the rest of the library works on.

use crate::error::{ErrorKind, HeimError};
use vstd::prelude::*;

verus! {

/// The mathematical model of a JSON document.
pub enum JsonTree {
    Null,
    Bool(bool),
    /// A number, by its decimal notation.
    Number(Seq<char>),
    Text(Seq<char>),
    Array(Seq<JsonTree>),
    /// An object: its entries, key and value, in order.
    Object(Seq<(Seq<char>, JsonTree)>),
}

/// A JSON document.
#[derive(Debug, PartialEq, Eq)]
pub enum Json {
    Null,
    Bool(bool),
    /// A number, by its decimal notation.
    Number(String),
    Text(String),
    Array(Vec<Json>),
    /// An object: its entries, key and value, in order. Where a key occurs
    /// more than once, the first entry counts.
    Object(Vec<(String, Json)>),
}

impl Json {
    /// The document that the tree stands for.
    pub open spec fn tree(&self) -> JsonTree
        decreases self,
    {
        match self {
            Json::Null => JsonTree::Null,
            Json::Bool(flag) => JsonTree::Bool(*flag),
            Json::Number(notation) => JsonTree::Number(notation@),
            Json::Text(text) => JsonTree::Text(text@),
            Json::Array(items) => JsonTree::Array(
                Seq::new(
                    items@.len(),
                    |i: int|
                        if 0 <= i < items@.len() {
                            items@[i].tree()
                        } else {
                            JsonTree::Null
                        },
                ),
            ),
            Json::Object(entries) => JsonTree::Object(
                Seq::new(
                    entries@.len(),
                    |i: int|
                        if 0 <= i < entries@.len() {
                            (entries@[i].0@, entries@[i].1.tree())
                        } else {
                            (Seq::empty(), JsonTree::Null)
                        },
                ),
            ),
        }
    }
}

impl View for Json {
    type V = JsonTree;

    open spec fn view(&self) -> JsonTree {
        self.tree()
    }
}

/// Whether the entry at `i` is the first one under the key.
pub open spec fn first_under(entries: Seq<(Seq<char>, JsonTree)>, key: Seq<char>, i: int) -> bool {
    &&& 0 <= i < entries.len()
    &&& entries[i].0 == key
    &&& forall|j: int| 0 <= j < i ==> (#[trigger] entries[j]).0 != key
}

impl JsonTree {
    /// The value under a key of an object: that of the first entry with the
    /// key. Anything but an object has no fields.
    pub open spec fn field(self, key: Seq<char>) -> Option<JsonTree> {
        match self {
            JsonTree::Object(entries) => {
                if exists|i: int| first_under(entries, key, i) {
                    Some(entries[choose|i: int| first_under(entries, key, i)].1)
                } else {
                    None
                }
            },
            _ => None,
        }
    }
}

/// The entry at `i`, where it is the first under the key, is the field.
pub proof fn lemma_field_at(entries: Seq<(Seq<char>, JsonTree)>, key: Seq<char>, i: int)
    requires
        first_under(entries, key, i),
    ensures
        JsonTree::Object(entries).field(key) == Some(entries[i].1),
{
    let chosen = choose|k: int| first_under(entries, key, k);
    if chosen < i {
        assert(entries[chosen].0 != key);
    }
    if i < chosen {
        assert(entries[i].0 != key);
    }
}

/// The model of an object, entry by entry.
pub proof fn lemma_object_view(entries: Vec<(String, Json)>)
    ensures
        Json::Object(entries)@ is Object,
        Json::Object(entries)@->Object_0.len() == entries@.len(),
        forall|i: int|
            0 <= i < entries@.len() ==> (#[trigger] Json::Object(entries)@->Object_0[i]) == (
                entries@[i].0@,
                entries@[i].1@,
            ),
{
}

/// The model of an array, item by item.
pub proof fn lemma_array_view(items: Vec<Json>)
    ensures
        Json::Array(items)@ is Array,
        Json::Array(items)@->Array_0.len() == items@.len(),
        forall|i: int|
            0 <= i < items@.len() ==> (#[trigger] Json::Array(items)@->Array_0[i]) == items@[i]@,
{
}

impl Json {
    /// The value under a key, where this is an object that has the key.
    pub fn field(&self, key: &str) -> (found: Option<&Json>)
        ensures
            match found {
                Some(json) => self@.field(key@) == Some(json@),
                None => self@.field(key@) is None,
            },
    {
        match self {
            Json::Object(entries) => {
                let ghost trees = self@->Object_0;
                proof {
                    lemma_object_view(*entries);
                }
                let wanted = String::from_str(key);
                let mut i: usize = 0;
                while i < entries.len()
                    invariant
                        i <= entries@.len(),
                        wanted@ == key@,
                        self@ == JsonTree::Object(trees),
                        trees.len() == entries@.len(),
                        forall|k: int|
                            0 <= k < trees.len() ==> (#[trigger] trees[k]) == (
                                entries@[k].0@,
                                entries@[k].1@,
                            ),
                        forall|k: int| 0 <= k < i ==> (#[trigger] trees[k]).0 != key@,
                    decreases entries@.len() - i,
                {
                    if entries[i].0 == wanted {
                        proof {
                            assert(trees[i as int].0 == key@);
                            lemma_field_at(trees, key@, i as int);
                        }
                        return Some(&entries[i].1);
                    }
                    assert(trees[i as int].0 != key@);
                    i += 1;
                }
                assert(!exists|k: int| first_under(trees, key@, k));
                None
            },
            _ => None,
        }
    }

    /// The text, where this is a string.
    pub fn text(&self) -> (found: Option<&String>)
        ensures
            match found {
                Some(text) => self@ == JsonTree::Text(text@),
                None => !(self@ is Text),
            },
    {
        match self {
            Json::Text(text) => Some(text),
            _ => None,
        }
    }

    /// The boolean, where this is one.
    pub fn flag(&self) -> (found: Option<bool>)
        ensures
            match found {
                Some(flag) => self@ == JsonTree::Bool(flag),
                None => !(self@ is Bool),
            },
    {
        match self {
            Json::Bool(flag) => Some(*flag),
            _ => None,
        }
    }

    /// The items, where this is an array.
    pub fn items(&self) -> (found: Option<&Vec<Json>>)
        ensures
            match found {
                Some(items) => {
                    &&& self@ is Array
                    &&& self@->Array_0.len() == items@.len()
                    &&& forall|i: int|
                        0 <= i < items@.len() ==> self@->Array_0[i] == (#[trigger] items@[i])@
                },
                None => !(self@ is Array),
            },
    {
        match self {
            Json::Array(items) => Some(items),
            _ => None,
        }
    }

    /// Whether this is the JSON null.
    pub fn is_null(&self) -> (null: bool)
        ensures
            null == (self@ is Null),
    {
        match self {
            Json::Null => true,
            _ => false,
        }
    }
}

/// `serde_json::Value`, carried through as it is: what it holds is known
/// only by what the functions below say of it.
#[verifier::external_type_specification]
#[verifier::external_body]
pub struct ExValue(serde_json::Value);

/// `serde_json::Error`, carried through as it is: nothing of it is read.
#[verifier::external_type_specification]
#[verifier::external_body]
pub struct ExParseError(serde_json::Error);

/// The document that a `serde_json::Value` holds. The entries of an object
/// stand in the order in which the value hands them out.
pub uninterp spec fn value_tree(value: serde_json::Value) -> JsonTree;

/// The document that `serde_json` reads from a text, where it reads one.
pub uninterp spec fn text_tree(text: Seq<char>) -> Option<JsonTree>;

/// `serde_json::from_str` at the type `Value`: the text is either read as
/// one whole document, or refused.
#[verifier::external_body]
fn read_value(text: &str) -> (outcome: Result<serde_json::Value, serde_json::Error>)
    ensures
        match outcome {
            Ok(value) => text_tree(text@) == Some(value_tree(value)),
            Err(_) => text_tree(text@) is None,
        },
{
    serde_json::from_str::<serde_json::Value>(text)
}

/// `Value::is_null`: whether the value is the JSON null.
#[verifier::external_body]
fn value_is_null(value: &serde_json::Value) -> (null: bool)
    ensures
        null == (value_tree(*value) is Null),
{
    value.is_null()
}

/// `Value::as_bool`: the boolean, where the value is one.
#[verifier::external_body]
fn value_bool(value: &serde_json::Value) -> (flag: Option<bool>)
    ensures
        flag == match value_tree(*value) {
            JsonTree::Bool(b) => Some(b),
            _ => None,
        },
{
    value.as_bool()
}

/// `Value::as_number`, printed by the number's `Display`: the decimal
/// notation, where the value is a number.
#[verifier::external_body]
fn value_number(value: &serde_json::Value) -> (notation: Option<String>)
    ensures
        match value_tree(*value) {
            JsonTree::Number(n) => notation matches Some(s) && s@ == n,
            _ => notation is None,
        },
{
    match value.as_number() {
        Some(number) => Some(number.to_string()),
        None => None,
    }
}

/// `Value::as_str`: the string, where the value is one.
#[verifier::external_body]
fn value_text(value: &serde_json::Value) -> (text: Option<&str>)
    ensures
        match value_tree(*value) {
            JsonTree::Text(t) => text matches Some(s) && s@ == t,
            _ => text is None,
        },
{
    value.as_str()
}

/// `Value::as_array`: the items in order, where the value is an array.
#[verifier::external_body]
fn value_items(value: &serde_json::Value) -> (items: Option<&Vec<serde_json::Value>>)
    ensures
        match value_tree(*value) {
            JsonTree::Array(trees) => {
                &&& items matches Some(list)
                &&& list@.len() == trees.len()
                &&& forall|i: int|
                    0 <= i < trees.len() ==> #[trigger] value_tree(list@[i]) == trees[i]
            },
            _ => items is None,
        },
{
    value.as_array()
}

/// `Value::as_object`, walked by `Map::iter`: the entries in the order of
/// the walk, where the value is an object.
#[verifier::external_body]
fn value_entries(value: &serde_json::Value) -> (entries: Option<
    Vec<(&String, &serde_json::Value)>,
>)
    ensures
        match value_tree(*value) {
            JsonTree::Object(trees) => {
                &&& entries matches Some(list)
                &&& list@.len() == trees.len()
                &&& forall|i: int|
                    0 <= i < trees.len() ==> (#[trigger] list@[i]).0@ == trees[i].0
                        && value_tree(*list@[i].1) == trees[i].1
            },
            _ => entries is None,
        },
{
    match value.as_object() {
        Some(map) => Some(map.iter().collect()),
        None => None,
    }
}

/// Copies a `serde_json::Value` into a tree of the library.
fn from_value(value: &serde_json::Value) -> (json: Json)
    ensures
        json@ == value_tree(*value),
    decreases value_tree(*value),
{
    if value_is_null(value) {
        return Json::Null;
    }
    if let Some(flag) = value_bool(value) {
        return Json::Bool(flag);
    }
    if let Some(notation) = value_number(value) {
        return Json::Number(notation);
    }
    if let Some(text) = value_text(value) {
        return Json::Text(String::from_str(text));
    }
    if let Some(list) = value_items(value) {
        let ghost trees = value_tree(*value)->Array_0;
        let mut items: Vec<Json> = Vec::new();
        let mut i: usize = 0;
        while i < list.len()
            invariant
                i <= list@.len(),
                list@.len() == trees.len(),
                value_tree(*value) == JsonTree::Array(trees),
                forall|k: int| 0 <= k < trees.len() ==> #[trigger] value_tree(list@[k]) == trees[k],
                items@.len() == i,
                forall|k: int| 0 <= k < i ==> (#[trigger] items@[k])@ == trees[k],
            decreases list@.len() - i,
        {
            assert(value_tree(list@[i as int]) == trees[i as int]);
            assert(decreases_to!(value_tree(*value)->Array_0 => trees[i as int]));
            let item = from_value(&list[i]);
            items.push(item);
            i += 1;
        }
        let json = Json::Array(items);
        assert(json@->Array_0 =~= trees);
        return json;
    }
    if let Some(list) = value_entries(value) {
        let ghost trees = value_tree(*value)->Object_0;
        let mut entries: Vec<(String, Json)> = Vec::new();
        let mut i: usize = 0;
        while i < list.len()
            invariant
                i <= list@.len(),
                list@.len() == trees.len(),
                value_tree(*value) == JsonTree::Object(trees),
                forall|k: int|
                    0 <= k < trees.len() ==> (#[trigger] list@[k]).0@ == trees[k].0
                        && value_tree(*list@[k].1) == trees[k].1,
                entries@.len() == i,
                forall|k: int|
                    0 <= k < i ==> (#[trigger] entries@[k]).0@ == trees[k].0 && entries@[k].1@
                        == trees[k].1,
            decreases list@.len() - i,
        {
            let key = list[i].0.clone();
            assert(value_tree(*list@[i as int].1) == trees[i as int].1);
            assert(decreases_to!(value_tree(*value)->Object_0 => trees[i as int].1));
            let item = from_value(list[i].1);
            entries.push((key, item));
            i += 1;
        }
        let json = Json::Object(entries);
        assert(json@->Object_0 =~= trees);
        return json;
    }
    Json::Null
}


impl Json {
    /// Reads a JSON text.
    pub fn parse(text: &str) -> (outcome: Result<Json, HeimError>)
        ensures
            match outcome {
                Ok(json) => text_tree(text@) == Some(json@),
                Err(error) => text_tree(text@) is None && error.kind == ErrorKind::DecodeError
                    && error.plain(),
            },
    {
        match read_value(text) {
            Ok(value) => Ok(from_value(&value)),
            Err(_) => Err(HeimError::of(ErrorKind::DecodeError)),
        }
    }
}

} // verus!
