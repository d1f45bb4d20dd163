//! JSON values that keep every number as the text it was written with.

use vstd::prelude::*;

use crate::number::JsonNumber;
use crate::text;
use crate::text::same_text;

verus! {

/// What a JSON value says: a number is its text, an object a map from keys to values.
#[verifier::ext_equal]
pub enum JsonTree {
    Null,
    Bool(bool),
    Number(Seq<char>),
    Text(Seq<char>),
    Array(Seq<JsonTree>),
    Object(Map<Seq<char>, JsonTree>),
}

/// A JSON value. Where an object names a key twice, the later entry counts.
#[derive(Debug)]
pub enum Json {
    Null,
    Bool(bool),
    Number(JsonNumber),
    Text(String),
    Array(Vec<Json>),
    Object(Vec<(String, Json)>),
}

impl Json {
    /// What the value says.
    pub open spec fn tree(self) -> JsonTree
        decreases self, 0nat,
    {
        match self {
            Json::Null => JsonTree::Null,
            Json::Bool(b) => JsonTree::Bool(b),
            Json::Number(number) => JsonTree::Number(number@),
            Json::Text(text) => JsonTree::Text(text@),
            Json::Array(items) => JsonTree::Array(item_trees(items@, items@.len())),
            Json::Object(entries) => JsonTree::Object(entry_trees(entries@, entries@.len())),
        }
    }
}

impl View for Json {
    type V = JsonTree;

    open spec fn view(&self) -> JsonTree {
        self.tree()
    }
}

/// What the first `n` items say.
pub open spec fn item_trees(items: Seq<Json>, n: nat) -> Seq<JsonTree>
    decreases items, n,
{
    if n == 0 || n > items.len() {
        Seq::empty()
    } else {
        item_trees(items, (n - 1) as nat).push(items[n - 1].tree())
    }
}

/// What the first `n` entries say.
pub open spec fn entry_trees(entries: Seq<(String, Json)>, n: nat) -> Map<Seq<char>, JsonTree>
    decreases entries, n,
{
    if n == 0 || n > entries.len() {
        Map::empty()
    } else {
        entry_trees(entries, (n - 1) as nat).insert(entries[n - 1].0@, entries[n - 1].1.tree())
    }
}

proof fn lemma_item_trees(items: Seq<Json>, n: nat)
    requires
        n <= items.len(),
    ensures
        item_trees(items, n).len() == n,
        forall|i: int| 0 <= i < n ==> #[trigger] item_trees(items, n)[i] == items[i]@,
    decreases n,
{
    if n > 0 {
        lemma_item_trees(items, (n - 1) as nat);
    }
}

/// An array says what its items say, in their order.
pub proof fn array_holds_its_items(items: Vec<Json>)
    ensures
        Json::Array(items)@ is Array,
        Json::Array(items)@->Array_0.len() == items@.len(),
        forall|i: int|
            0 <= i < items@.len() ==> #[trigger] Json::Array(items)@->Array_0[i] == items@[i]@,
{
    lemma_item_trees(items@, items@.len());
}

impl JsonTree {
    /// The value under a key of an object.
    pub open spec fn field(self, key: Seq<char>) -> Option<JsonTree> {
        match self {
            JsonTree::Object(entries) => if entries.contains_key(key) {
                Some(entries[key])
            } else {
                None
            },
            _ => None,
        }
    }

    /// The items of an array.
    pub open spec fn array(self) -> Option<Seq<JsonTree>> {
        match self {
            JsonTree::Array(items) => Some(items),
            _ => None,
        }
    }

    /// The item of an array at a position.
    pub open spec fn item(self, index: int) -> Option<JsonTree> {
        match self {
            JsonTree::Array(items) => if 0 <= index < items.len() {
                Some(items[index])
            } else {
                None
            },
            _ => None,
        }
    }

    /// The contents of a string.
    pub open spec fn string(self) -> Option<Seq<char>> {
        match self {
            JsonTree::Text(text) => Some(text),
            _ => None,
        }
    }

    /// The truth value.
    pub open spec fn truth(self) -> Option<bool> {
        match self {
            JsonTree::Bool(b) => Some(b),
            _ => None,
        }
    }

    /// The text of a string, number or truth value.
    pub open spec fn scalar(self) -> Option<Seq<char>> {
        match self {
            JsonTree::Bool(b) => Some(
                if b {
                    "true"@
                } else {
                    "false"@
                },
            ),
            JsonTree::Number(text) => Some(text),
            JsonTree::Text(text) => Some(text),
            _ => None,
        }
    }

    /// A number that is written as an integer between `min` and `max`.
    pub open spec fn integer(self, min: int, max: int) -> Option<int> {
        match self {
            JsonTree::Number(text) => match text::parsed_int(text, min, max) {
                Ok(value) => Some(value),
                Err(_) => None,
            },
            _ => None,
        }
    }
}

/// The value under a key, where there is a value.
pub open spec fn under(tree: Option<JsonTree>, key: Seq<char>) -> Option<JsonTree> {
    match tree {
        Some(t) => t.field(key),
        None => None,
    }
}

/// The item at a position, where there is a value.
pub open spec fn item_of(tree: Option<JsonTree>, index: int) -> Option<JsonTree> {
    match tree {
        Some(t) => t.item(index),
        None => None,
    }
}

/// The items, where there is an array.
pub open spec fn array_of(tree: Option<JsonTree>) -> Option<Seq<JsonTree>> {
    match tree {
        Some(t) => t.array(),
        None => None,
    }
}

/// The contents, where there is a string.
pub open spec fn string_of(tree: Option<JsonTree>) -> Option<Seq<char>> {
    match tree {
        Some(t) => t.string(),
        None => None,
    }
}

/// The truth value, where there is one.
pub open spec fn truth_of(tree: Option<JsonTree>) -> Option<bool> {
    match tree {
        Some(t) => t.truth(),
        None => None,
    }
}

/// The text of the scalar, where there is one.
pub open spec fn scalar_of(tree: Option<JsonTree>) -> Option<Seq<char>> {
    match tree {
        Some(t) => t.scalar(),
        None => None,
    }
}

/// The integer of 64 bits, where there is one.
pub open spec fn i64_of(tree: Option<JsonTree>) -> Option<i64> {
    match tree {
        Some(t) => match t.integer(i64::MIN as int, i64::MAX as int) {
            Some(value) => Some(value as i64),
            None => None,
        },
        None => None,
    }
}

/// The unsigned integer of 64 bits, where there is one.
pub open spec fn u64_of(tree: Option<JsonTree>) -> Option<u64> {
    match tree {
        Some(t) => match t.integer(0, u64::MAX as int) {
            Some(value) => Some(value as u64),
            None => None,
        },
        None => None,
    }
}

/// What an optional value says.
pub open spec fn tree_of(value: Option<&Json>) -> Option<JsonTree> {
    match value {
        Some(v) => Some(v@),
        None => None,
    }
}

/// The characters of an optional text.
pub open spec fn opt_text(o: Option<String>) -> Option<Seq<char>> {
    match o {
        Some(s) => Some(s@),
        None => None,
    }
}

/// The characters of an optional text.
pub open spec fn opt_str(o: Option<&str>) -> Option<Seq<char>> {
    match o {
        Some(s) => Some(s@),
        None => None,
    }
}

impl Json {
    /// The value under a key of an object.
    pub fn get(&self, key: &str) -> (value: Option<&Json>)
        ensures
            tree_of(value) == self@.field(key@),
    {
        match self {
            Json::Object(entries) => {
                let mut n: usize = entries.len();
                while n > 0
                    invariant
                        n <= entries@.len(),
                        self@ == JsonTree::Object(entry_trees(entries@, entries@.len())),
                        self@.field(key@) == JsonTree::Object(
                            entry_trees(entries@, n as nat),
                        ).field(key@),
                    decreases n,
                {
                    if same_text(entries[n - 1].0.as_str(), key) {
                        return Some(&entries[n - 1].1);
                    }
                    n = n - 1;
                }
                None
            },
            _ => None,
        }
    }

    /// The item of an array at a position.
    pub fn at(&self, index: usize) -> (value: Option<&Json>)
        ensures
            tree_of(value) == self@.item(index as int),
    {
        match self {
            Json::Array(items) => {
                proof {
                    lemma_item_trees(items@, items@.len());
                }
                if index < items.len() {
                    Some(&items[index])
                } else {
                    None
                }
            },
            _ => None,
        }
    }

    /// The items of an array.
    pub fn as_array(&self) -> (items: Option<&Vec<Json>>)
        ensures
            match items {
                Some(v) => self@.array() matches Some(trees) && trees.len() == v@.len() && (
                forall|i: int| 0 <= i < v@.len() ==> #[trigger] trees[i] == v@[i]@),
                None => self@.array() is None,
            },
    {
        match self {
            Json::Array(items) => {
                proof {
                    lemma_item_trees(items@, items@.len());
                }
                Some(items)
            },
            _ => None,
        }
    }

    /// The contents of a string.
    pub fn as_str(&self) -> (s: Option<&str>)
        ensures
            opt_str(s) == self@.string(),
    {
        match self {
            Json::Text(s) => Some(s.as_str()),
            _ => None,
        }
    }

    /// The truth value.
    pub fn as_bool(&self) -> (b: Option<bool>)
        ensures
            b == self@.truth(),
    {
        match self {
            Json::Bool(b) => Some(*b),
            _ => None,
        }
    }

    /// A number that is an integer of 64 bits.
    pub fn as_i64(&self) -> (n: Option<i64>)
        ensures
            n == i64_of(Some(self@)),
    {
        match self {
            Json::Number(digits) => match text::parse_i64_text(digits.as_text()) {
                Ok(value) => Some(value),
                Err(_) => None,
            },
            _ => None,
        }
    }

    /// A number that is an unsigned integer of 64 bits.
    pub fn as_u64(&self) -> (n: Option<u64>)
        ensures
            n == u64_of(Some(self@)),
    {
        match self {
            Json::Number(digits) => match text::parse_u64_text(digits.as_text()) {
                Ok(value) => Some(value),
                Err(_) => None,
            },
            _ => None,
        }
    }
}

/// The value under a key, where there is a value.
pub fn get_under<'a>(value: Option<&'a Json>, key: &str) -> (r: Option<&'a Json>)
    ensures
        tree_of(r) == under(tree_of(value), key@),
{
    match value {
        Some(v) => v.get(key),
        None => None,
    }
}

/// The contents, where there is a string.
pub fn str_of<'a>(value: Option<&'a Json>) -> (r: Option<&'a str>)
    ensures
        opt_str(r) == string_of(tree_of(value)),
{
    match value {
        Some(v) => v.as_str(),
        None => None,
    }
}

/// The truth value, where there is one.
pub fn bool_of(value: Option<&Json>) -> (r: Option<bool>)
    ensures
        r == truth_of(tree_of(value)),
{
    match value {
        Some(v) => v.as_bool(),
        None => None,
    }
}

/// The text of a string, number or truth value; nothing for null, arrays and objects.
pub fn json_value_string(value: &Json) -> (r: Option<String>)
    ensures
        opt_text(r) == value@.scalar(),
{
    match value {
        Json::Bool(b) => Some(
            if *b {
                "true".to_owned()
            } else {
                "false".to_owned()
            },
        ),
        Json::Number(number) => Some(number.as_text().to_owned()),
        Json::Text(s) => Some(s.clone()),
        _ => None,
    }
}

/// The integer that a number writes.
pub fn json_value_i64(value: &Json) -> (r: Option<i64>)
    ensures
        r == i64_of(Some(value@)),
{
    value.as_i64()
}

/// The integer under a key.
pub fn json_field_i64(value: &Json, field: &str) -> (r: Option<i64>)
    ensures
        r == i64_of(value@.field(field@)),
{
    match value.get(field) {
        Some(v) => json_value_i64(v),
        None => None,
    }
}

/// The scalar text under a key.
pub fn json_field_string(value: &Json, field: &str) -> (r: Option<String>)
    ensures
        opt_text(r) == scalar_of(value@.field(field@)),
{
    match value.get(field) {
        Some(v) => json_value_string(v),
        None => None,
    }
}

/// The scalar text under a key of the object under another key.
pub fn json_pointer_string(value: &Json, outer: &str, inner: &str) -> (r: Option<String>)
    ensures
        opt_text(r) == scalar_of(under(value@.field(outer@), inner@)),
{
    match value.get(outer) {
        Some(v) => json_field_string(v, inner),
        None => None,
    }
}

/// The integer at a position of an array.
pub fn json_array_i64(value: &Json, index: usize) -> (r: Option<i64>)
    ensures
        r == i64_of(value@.item(index as int)),
{
    match value.at(index) {
        Some(v) => json_value_i64(v),
        None => None,
    }
}

/// The scalar text at a position of an array.
pub fn json_array_string(value: &Json, index: usize) -> (r: Option<String>)
    ensures
        opt_text(r) == scalar_of(value@.item(index as int)),
{
    match value.at(index) {
        Some(v) => json_value_string(v),
        None => None,
    }
}

/// A string.
pub fn text_value(contents: &str) -> (r: Json)
    ensures
        r@ == JsonTree::Text(contents@),
{
    Json::Text(contents.to_owned())
}

/// A whole number.
pub fn number_value(n: u64) -> (r: Json)
    ensures
        r@ == JsonTree::Number(text::nat_text(n as nat)),
{
    Json::Number(JsonNumber::from_u64(n))
}

/// An object without entries.
pub fn empty_object() -> (r: Json)
    ensures
        r@ == JsonTree::Object(Map::empty()),
{
    Json::Object(Vec::new())
}

/// An object of one entry.
pub fn object_of(key: &str, value: Json) -> (r: Json)
    ensures
        r@ == JsonTree::Object(map![key@ => value@]),
{
    with_entry(empty_object(), key, value)
}

/// An object with one more entry.
pub fn with_entry(object: Json, key: &str, value: Json) -> (r: Json)
    requires
        object@ is Object,
    ensures
        r@ == JsonTree::Object(object@->Object_0.insert(key@, value@)),
{
    match object {
        Json::Object(entries) => {
            let mut all = entries;
            let ghost before = all@;
            all.push((key.to_owned(), value));
            proof {
                assert(before =~= all@.take(before.len() as int));
                lemma_entries_in_front(before, all@, before.len());
            }
            Json::Object(all)
        },
        other => other,
    }
}

/// The entries in front say the same in a longer list.
proof fn lemma_entries_in_front(short: Seq<(String, Json)>, long: Seq<(String, Json)>, n: nat)
    requires
        n <= short.len() <= long.len(),
        short == long.take(short.len() as int),
    ensures
        entry_trees(short, n) == entry_trees(long, n),
    decreases n,
{
    if n > 0 {
        lemma_entries_in_front(short, long, (n - 1) as nat);
        assert(short[n - 1] == long[n - 1]);
    }
}

/// An array of strings.
pub fn text_array(list: &Vec<String>, from: usize, to: usize) -> (r: Json)
    requires
        from <= to <= list@.len(),
    ensures
        r@ == JsonTree::Array(
            text::texts(list@.subrange(from as int, to as int)).map_values(
                |s: Seq<char>| JsonTree::Text(s),
            ),
        ),
{
    let mut items: Vec<Json> = Vec::new();
    let mut i: usize = from;
    while i < to
        invariant
            from <= i <= to <= list@.len(),
            items@.len() == i - from,
            forall|j: int|
                0 <= j < items@.len() ==> (#[trigger] items@[j])@ == JsonTree::Text(
                    list@[from + j]@,
                ),
        decreases to - i,
    {
        items.push(text_value(list[i].as_str()));
        i = i + 1;
    }
    proof {
        array_holds_its_items(items);
        assert(Json::Array(items)@->Array_0 =~= text::texts(
            list@.subrange(from as int, to as int),
        ).map_values(|s: Seq<char>| JsonTree::Text(s)));
    }
    Json::Array(items)
}

} // verus!
