//! JSON documents: reading and writing them with `serde_json`.

use vstd::prelude::*;

use crate::json;
use crate::json::Json;
use crate::json::JsonTree;
use crate::lists::reversed;
use crate::number;
use crate::number::JsonNumber;

verus! {

/// `serde_json`'s value, opaque but for what [`value_tree`] says it holds.
#[verifier::external_type_specification]
#[verifier::external_body]
pub struct ExValue(serde_json::Value);

/// What a `serde_json` value holds.
pub uninterp spec fn value_tree(value: serde_json::Value) -> JsonTree;

/// What `serde_json::from_str::<Value>` makes of a text: a value, or the text of its error.
pub uninterp spec fn parsed_document(document: Seq<char>) -> Result<JsonTree, Seq<char>>;

/// The compact document that `serde_json` writes of a value.
pub uninterp spec fn written_document(tree: JsonTree) -> Seq<char>;

/// The outermost layer of a value.
pub enum Node {
    Null,
    Bool(bool),
    Number(String),
    Text(String),
    Array(Vec<serde_json::Value>),
    Object(Vec<(String, serde_json::Value)>),
}

impl Node {
    /// What the layer says, with the values below it.
    pub open spec fn tree(self) -> JsonTree {
        match self {
            Node::Null => JsonTree::Null,
            Node::Bool(b) => JsonTree::Bool(b),
            Node::Number(number) => JsonTree::Number(number@),
            Node::Text(contents) => JsonTree::Text(contents@),
            Node::Array(items) => JsonTree::Array(
                items@.map_values(|v: serde_json::Value| value_tree(v)),
            ),
            Node::Object(entries) => JsonTree::Object(
                value_entries(entries@, entries@.len()),
            ),
        }
    }
}

/// What the first `n` entries say; the later of two entries under one key counts.
pub open spec fn value_entries(entries: Seq<(String, serde_json::Value)>, n: nat) -> Map<
    Seq<char>,
    JsonTree,
>
    decreases n,
{
    if n == 0 || n > entries.len() {
        Map::empty()
    } else {
        value_entries(entries, (n - 1) as nat).insert(
            entries[n - 1].0@,
            value_tree(entries[n - 1].1),
        )
    }
}

/// Every number of the value has a text that `serde_json` keeps as it is.
pub open spec fn numbers_kept(tree: JsonTree) -> bool
    decreases tree,
{
    match tree {
        JsonTree::Number(digits) => number::number_kept(digits) == Some(digits),
        JsonTree::Array(items) => forall|i: int|
            0 <= i < items.len() ==> numbers_kept(#[trigger] items[i]),
        JsonTree::Object(entries) => entries.dom().finite() && forall|key: Seq<char>|
            entries.contains_key(key) ==> numbers_kept(#[trigger] entries[key]),
        _ => true,
    }
}

/// `serde_json::from_str` into a `Value`: the value that the document holds, or its error's text.
/// The number texts of such a value are those that `serde_json` keeps.
#[verifier::external_body]
fn value_from_document(document: &str) -> (r: Result<serde_json::Value, String>)
    ensures
        match r {
            Ok(value) => parsed_document(document@) == Ok::<JsonTree, Seq<char>>(value_tree(value))
                && numbers_kept(value_tree(value)),
            Err(error) => parsed_document(document@) == Err::<JsonTree, Seq<char>>(error@),
        },
{
    serde_json::from_str::<serde_json::Value>(document).map_err(|error| error.to_string())
}

/// Takes a `serde_json` value apart: the variant, with what its fields hold. A number is the text
/// that its `Display` gives, an object its entries, each key once.
#[verifier::external_body]
fn value_node(value: serde_json::Value) -> (node: Node)
    ensures
        node.tree() == value_tree(value),
        node is Object ==> distinct_keys(node->Object_0@),
{
    match value {
        serde_json::Value::Null => Node::Null,
        serde_json::Value::Bool(b) => Node::Bool(b),
        serde_json::Value::Number(number) => Node::Number(number.to_string()),
        serde_json::Value::String(contents) => Node::Text(contents),
        serde_json::Value::Array(items) => Node::Array(items),
        serde_json::Value::Object(entries) => Node::Object(entries.into_iter().collect()),
    }
}

/// Puts a `serde_json` value together. A number goes through the `FromStr` of `Number`, which
/// gives back the text it keeps; in an object the later of two entries under one key counts.
#[verifier::external_body]
fn node_value(node: Node) -> (r: Option<serde_json::Value>)
    requires
        node is Number ==> number::number_kept(node->Number_0@) == Some(node->Number_0@),
    ensures
        r is Some && value_tree(r->Some_0) == node.tree(),
{
    Some(match node {
        Node::Null => serde_json::Value::Null,
        Node::Bool(b) => serde_json::Value::Bool(b),
        Node::Number(number) => serde_json::Value::Number(number.parse().ok()?),
        Node::Text(contents) => serde_json::Value::String(contents),
        Node::Array(items) => serde_json::Value::Array(items),
        Node::Object(entries) => serde_json::Value::Object(entries.into_iter().collect()),
    })
}

/// `Display` of a `serde_json` value: the compact document.
#[verifier::external_body]
fn value_document(value: &serde_json::Value) -> (document: String)
    ensures
        document@ == written_document(value_tree(*value)),
{
    value.to_string()
}

/// No two entries share a key.
pub open spec fn distinct_keys(entries: Seq<(String, serde_json::Value)>) -> bool {
    forall|i: int, j: int| 0 <= i < j < entries.len() ==> entries[i].0@ != entries[j].0@
}

proof fn lemma_distinct_entries(entries: Seq<(String, serde_json::Value)>, n: nat, i: int)
    requires
        distinct_keys(entries),
        0 <= i < n <= entries.len(),
    ensures
        value_entries(entries, n).contains_key(entries[i].0@),
        value_entries(entries, n)[entries[i].0@] == value_tree(entries[i].1),
    decreases n,
{
    if i < n - 1 {
        lemma_distinct_entries(entries, (n - 1) as nat, i);
    }
}

proof fn lemma_finite_entries(entries: Seq<(String, serde_json::Value)>, n: nat)
    ensures
        value_entries(entries, n).dom().finite(),
    decreases n,
{
    if n > 0 && n <= entries.len() {
        lemma_finite_entries(entries, (n - 1) as nat);
    }
}

proof fn lemma_same_entries(
    own: Seq<(String, Json)>,
    entries: Seq<(String, serde_json::Value)>,
    n: nat,
)
    requires
        n <= own.len(),
        own.len() == entries.len(),
        forall|i: int|
            0 <= i < own.len() ==> (#[trigger] own[i]).0@ == entries[i].0@ && own[i].1@
                == value_tree(entries[i].1),
    ensures
        json::entry_trees(own, n) == value_entries(entries, n),
    decreases n,
{
    if n > 0 {
        lemma_same_entries(own, entries, (n - 1) as nat);
    }
}

/// The library's own value for a `serde_json` value.
fn json_from_value(value: serde_json::Value) -> (r: Json)
    requires
        numbers_kept(value_tree(value)),
    ensures
        r@ == value_tree(value),
    decreases value_tree(value),
{
    match value_node(value) {
        Node::Null => Json::Null,
        Node::Bool(b) => Json::Bool(b),
        Node::Number(digits) => Json::Number(JsonNumber::from_kept(digits)),
        Node::Text(contents) => Json::Text(contents),
        Node::Array(items) => {
            let ghost all = items@;
            let ghost trees = all.map_values(|v: serde_json::Value| value_tree(v));
            let mut rest = reversed(items);
            let mut own: Vec<Json> = Vec::new();
            while rest.len() > 0
                invariant
                    rest@.len() + own@.len() == all.len(),
                    value_tree(value) == JsonTree::Array(trees),
                    numbers_kept(value_tree(value)),
                    trees == all.map_values(|v: serde_json::Value| value_tree(v)),
                    forall|i: int|
                        0 <= i < rest@.len() ==> #[trigger] rest@[i] == all[all.len() - 1 - i],
                    forall|i: int|
                        0 <= i < own@.len() ==> (#[trigger] own@[i])@ == value_tree(all[i]),
                decreases rest@.len(),
            {
                let item = rest.pop().unwrap();
                assert(trees[own@.len() as int] == value_tree(item));
                assert(decreases_to!(value_tree(value) => value_tree(value)->Array_0));
                assert(decreases_to!(trees => trees[own@.len() as int]));
                own.push(json_from_value(item));
            }
            proof {
                json::array_holds_its_items(own);
                assert(Json::Array(own)@->Array_0 =~= trees);
            }
            Json::Array(own)
        },
        Node::Object(entries) => {
            let ghost all = entries@;
            let ghost map = value_entries(all, all.len());
            let mut rest = reversed(entries);
            let mut own: Vec<(String, Json)> = Vec::new();
            while rest.len() > 0
                invariant
                    rest@.len() + own@.len() == all.len(),
                    value_tree(value) == JsonTree::Object(map),
                    numbers_kept(value_tree(value)),
                    map == value_entries(all, all.len()),
                    distinct_keys(all),
                    forall|i: int|
                        0 <= i < rest@.len() ==> #[trigger] rest@[i] == all[all.len() - 1 - i],
                    forall|i: int|
                        0 <= i < own@.len() ==> (#[trigger] own@[i]).0@ == all[i].0@ && own@[i].1@
                            == value_tree(all[i].1),
                decreases rest@.len(),
            {
                let (key, item) = rest.pop().unwrap();
                assert((key, item) == all[own@.len() as int]);
                proof {
                    lemma_distinct_entries(all, all.len(), own@.len() as int);
                    lemma_finite_entries(all, all.len());
                }
                assert(decreases_to!(value_tree(value) => value_tree(value)->Object_0));
                assert(decreases_to!(map => map[key@]));
                own.push((key, json_from_value(item)));
            }
            proof {
                lemma_same_entries(own@, all, all.len());
            }
            Json::Object(own)
        },
    }
}

/// Reads a JSON document; an error comes as its text.
pub fn parse_json(document: &str) -> (r: Result<Json, String>)
    ensures
        match r {
            Ok(value) => parsed_document(document@) == Ok::<JsonTree, Seq<char>>(value@),
            Err(error) => parsed_document(document@) == Err::<JsonTree, Seq<char>>(error@),
        },
{
    match value_from_document(document) {
        Ok(value) => Ok(json_from_value(value)),
        Err(error) => Err(error),
    }
}

/// The `serde_json` value for a value of the library.
fn value_from_json(value: &Json) -> (r: serde_json::Value)
    ensures
        value_tree(r) == value@,
    decreases value,
{
    let node = match value {
        Json::Null => Node::Null,
        Json::Bool(b) => Node::Bool(*b),
        Json::Number(digits) => Node::Number(digits.as_text().to_owned()),
        Json::Text(contents) => Node::Text(contents.clone()),
        Json::Array(items) => {
            let mut own: Vec<serde_json::Value> = Vec::new();
            let mut i: usize = 0;
            while i < items.len()
                invariant
                    i <= items@.len(),
                    own@.len() == i,
                    decreases_to!(value => items@),
                    forall|j: int| 0 <= j < i ==> value_tree(#[trigger] own@[j]) == items@[j]@,
                decreases items@.len() - i,
            {
                own.push(value_from_json(&items[i]));
                i = i + 1;
            }
            proof {
                json::array_holds_its_items(*items);
                assert(Node::Array(own).tree()->Array_0 =~= value@->Array_0);
            }
            Node::Array(own)
        },
        Json::Object(entries) => {
            let mut own: Vec<(String, serde_json::Value)> = Vec::new();
            let mut i: usize = 0;
            while i < entries.len()
                invariant
                    i <= entries@.len(),
                    own@.len() == i,
                    decreases_to!(value => entries@),
                    forall|j: int|
                        0 <= j < i ==> entries@[j].0@ == (#[trigger] own@[j]).0@
                            && entries@[j].1@ == value_tree(own@[j].1),
                decreases entries@.len() - i,
            {
                own.push((entries[i].0.clone(), value_from_json(&entries[i].1)));
                i = i + 1;
            }
            proof {
                assert forall|j: int| 0 <= j < entries@.len() implies (#[trigger] entries@[j]).0@
                    == own@[j].0@ && entries@[j].1@ == value_tree(own@[j].1) by {
                    let _ = own@[j];
                }
                lemma_same_entries(entries@, own@, own@.len());
            }
            Node::Object(own)
        },
    };
    node_value(node).unwrap()
}

/// The compact document of a value.
pub fn json_document(value: &Json) -> (document: String)
    ensures
        document@ == written_document(value@),
{
    value_document(&value_from_json(value))
}

} // verus!
