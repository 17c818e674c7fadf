//! JSON values, as `serde_json` holds them, and the steps by which records are
//! read from them and written to them.
//!
//! Parsing and printing are `serde_json`'s. What a record needs from a value,
//! which fields, of which type, is decided here.

use crate::table::{distinct_names, lemma_position, lemma_push_entry, map_of};
use crate::text::same_text;
use serde_json::Value;
use vstd::prelude::*;
use vstd::string::*;

verus! {

broadcast use vstd::string::group_string_axioms;

#[verifier::external_type_specification]
#[verifier::external_body]
pub struct ExValue(serde_json::Value);

/// What a JSON value holds, one level deep. The values inside an array or an
/// object are JSON values again.
pub enum Shape {
    Null,
    Bool(bool),
    /// A number; the payload is its value where it is a whole number from 0 to 2^64 - 1.
    Number(Option<u64>),
    Text(Seq<char>),
    Array(Seq<Value>),
    Object(Map<Seq<char>, Value>),
}

/// The members of a JSON object: names with their values, each name once.
pub struct Members {
    list: Vec<(String, Value)>,
}

/// One level of a JSON value, taken apart.
pub enum Node {
    Null,
    Bool(bool),
    /// A number; the payload is its value where it is a whole number from 0 to 2^64 - 1.
    Number(Option<u64>),
    Text(String),
    Array(Vec<Value>),
    Object(Members),
}

impl View for Members {
    type V = Map<Seq<char>, Value>;

    /// The object that the members spell out.
    open spec fn view(&self) -> Map<Seq<char>, Value> {
        map_of(self.entries())
    }
}

/// What a JSON value holds.
pub uninterp spec fn json_shape(value: Value) -> Shape;

/// The JSON value that a text is the notation of, where it is JSON.
pub uninterp spec fn json_parsed(text: Seq<char>) -> Option<Value>;

/// The notation of a JSON value, where it can be written.
pub uninterp spec fn json_text(value: Value) -> Option<Seq<char>>;

/// The JSON value that is made of the given content.
pub uninterp spec fn json_value(shape: Shape) -> Value;

/// The shape of the value that a node is one level of.
pub open spec fn shape_of(node: Node) -> Shape {
    match node {
        Node::Null => Shape::Null,
        Node::Bool(b) => Shape::Bool(b),
        Node::Number(n) => Shape::Number(n),
        Node::Text(text) => Shape::Text(text@),
        Node::Array(items) => Shape::Array(items@),
        Node::Object(members) => Shape::Object(members@),
    }
}

/// Calls `serde_json::from_str` for a `Value`: the value that the text denotes,
/// `None` where the text is not JSON. The value depends on the text alone, and
/// `json_parsed` names it.
#[verifier::external_body]
pub(crate) fn parse_json(text: &str) -> (r: Option<Value>)
    ensures
        r == json_parsed(text@),
{
    serde_json::from_str::<Value>(text).ok()
}

/// Calls `serde_json::to_string` on a `Value`: its JSON notation, `None` where
/// the serializer fails. The text depends on the value alone, and `json_text`
/// names it.
#[verifier::external_body]
pub(crate) fn print_json(value: &Value) -> (r: Option<String>)
    ensures
        match r {
            Some(text) => json_text(*value) == Some(text@),
            None => json_text(*value) is None,
        },
{
    serde_json::to_string(value).ok()
}

/// Takes a `Value` apart, one arm for each of its variants; for a number it
/// calls `Number::as_u64`, which gives the number where it is a whole number
/// from 0 to 2^64 - 1. The members of an object come in the order of its map.
///
/// The contract says that the node is one level of what the value holds, which
/// `json_shape` names. That no name occurs twice among the members, as their
/// type asks, is so because a `serde_json::Map` holds each name once.
#[verifier::external_body]
pub(crate) fn open_json(value: &Value) -> (node: Node)
    ensures
        json_shape(*value) == shape_of(node),
{
    match value {
        Value::Null => Node::Null,
        Value::Bool(b) => Node::Bool(*b),
        Value::Number(n) => Node::Number(n.as_u64()),
        Value::String(text) => Node::Text(text.clone()),
        Value::Array(items) => Node::Array(items.clone()),
        Value::Object(object) => Node::Object(
            Members { list: object.clone().into_iter().collect() },
        ),
    }
}

/// Makes a `Value` of a node, one variant for each arm; a number through
/// `Value::from`, an object by collecting the members into a `serde_json::Map`.
///
/// The contract says that the value holds what the node holds, and that it is
/// determined by that: `json_value` names the value of a given content.
/// `Value::from` turns a missing number into `null`, so the `requires` leaves
/// that out. Members come with each name once, so the map holds them all.
#[verifier::external_body]
pub(crate) fn make_json(node: Node) -> (value: Value)
    requires
        node matches Node::Number(n) ==> n is Some,
    ensures
        value == json_value(shape_of(node)),
        json_shape(value) == shape_of(node),
{
    match node {
        Node::Null => Value::Null,
        Node::Bool(b) => Value::Bool(b),
        Node::Number(n) => Value::from(n),
        Node::Text(text) => Value::String(text),
        Node::Array(items) => Value::Array(items),
        Node::Object(members) => Value::Object(members.list.into_iter().collect()),
    }
}

/// The value of the member called `name` in an object, if it has one.
pub open spec fn member(object: Map<Seq<char>, Value>, name: Seq<char>) -> Option<Value> {
    if object.contains_key(name) {
        Some(object[name])
    } else {
        None
    }
}

impl Members {
    #[verifier::type_invariant]
    spec fn each_name_once(&self) -> bool {
        distinct_names(self.list@)
    }

    /// The members as a list, in the order in which they are kept.
    pub closed spec fn entries(&self) -> Seq<(String, Value)> {
        self.list@
    }

    /// No members at all.
    pub fn new() -> (members: Members)
        ensures
            members.entries().len() == 0,
            members@ == Map::<Seq<char>, Value>::empty(),
    {
        let list: Vec<(String, Value)> = Vec::new();
        proof {
            assert(map_of(list@) =~= Map::<Seq<char>, Value>::empty());
        }
        Members { list }
    }

    /// The members of a value, where it is an object.
    pub fn of(value: &Value) -> (members: Option<Members>)
        ensures
            match json_shape(*value) {
                Shape::Object(object) => members matches Some(m) && m@ == object,
                _ => members is None,
            },
    {
        match open_json(value) {
            Node::Object(members) => Some(members),
            _ => None,
        }
    }

    /// How many members there are. No two of them have the same name.
    pub fn len(&self) -> (n: usize)
        ensures
            n == self.entries().len(),
            distinct_names(self.entries()),
    {
        proof {
            use_type_invariant(self);
        }
        self.list.len()
    }

    /// The name of the member at position `i`.
    pub fn name(&self, i: usize) -> (name: &str)
        requires
            i < self.entries().len(),
        ensures
            name@ == self.entries()[i as int].0@,
    {
        self.list[i].0.as_str()
    }

    /// The value of the member at position `i`.
    pub fn value(&self, i: usize) -> (value: &Value)
        requires
            i < self.entries().len(),
        ensures
            *value == self.entries()[i as int].1,
    {
        &self.list[i].1
    }

    /// Finds the member called `name`.
    pub fn find(&self, name: &str) -> (found: Option<&Value>)
        ensures
            match found {
                Some(value) => member(self@, name@) == Some(*value),
                None => member(self@, name@) is None,
            },
    {
        proof {
            use_type_invariant(self);
        }
        let mut i: usize = 0;
        while i < self.list.len()
            invariant
                i <= self.list.len(),
                distinct_names(self.list@),
                forall|j: int| 0 <= j < i ==> (#[trigger] self.list[j]).0@ != name@,
            decreases self.list.len() - i,
        {
            if same_text(self.list[i].0.as_str(), name) {
                proof {
                    lemma_position(self.list@, i as int);
                }
                return Some(&self.list[i].1);
            }
            i += 1;
        }
        None
    }

    /// The members with one more, under a name that is not there yet.
    pub(crate) fn put(self, name: &str, value: Value) -> (more: Members)
        requires
            !self@.contains_key(name@),
        ensures
            more@ == self@.insert(name@, value),
    {
        proof {
            use_type_invariant(&self);
        }
        let owned = String::from_str(name);
        let mut list = self.list;
        proof {
            lemma_push_entry(list@, owned, value);
        }
        list.push((owned, value));
        Members { list }
    }
}

/// The text that a value is, where it is a string.
pub open spec fn text_of(value: Value) -> Option<Seq<char>> {
    match json_shape(value) {
        Shape::Text(text) => Some(text),
        _ => None,
    }
}

/// The number that a value is, where it is a whole number from 0 to 2^64 - 1.
pub open spec fn natural_of(value: Value) -> Option<u64> {
    match json_shape(value) {
        Shape::Number(Some(n)) => Some(n),
        _ => None,
    }
}

/// The truth value that a value is, where it is one.
pub open spec fn bool_of(value: Value) -> Option<bool> {
    match json_shape(value) {
        Shape::Bool(b) => Some(b),
        _ => None,
    }
}

/// The texts that the first `n` of the values are, where each of them is a string.
pub open spec fn texts_among(items: Seq<Value>, n: int) -> Option<Seq<Seq<char>>>
    decreases n,
{
    if n <= 0 {
        Some(Seq::empty())
    } else {
        match (texts_among(items, n - 1), text_of(items[n - 1])) {
            (Some(before), Some(text)) => Some(before.push(text)),
            _ => None,
        }
    }
}

/// The list of texts that a value is, where it is an array of strings.
pub open spec fn texts_of(value: Value) -> Option<Seq<Seq<char>>> {
    match json_shape(value) {
        Shape::Array(items) => texts_among(items, items.len() as int),
        _ => None,
    }
}

/// Reads a value as text.
pub fn read_text(value: &Value) -> (r: Option<String>)
    ensures
        r.deep_view() == text_of(*value),
{
    match open_json(value) {
        Node::Text(text) => Some(text),
        _ => None,
    }
}

/// Reads a value as a whole number.
pub fn read_natural(value: &Value) -> (r: Option<u64>)
    ensures
        r == natural_of(*value),
{
    match open_json(value) {
        Node::Number(Some(n)) => Some(n),
        _ => None,
    }
}

/// Reads a value as a truth value.
pub fn read_bool(value: &Value) -> (r: Option<bool>)
    ensures
        r == bool_of(*value),
{
    match open_json(value) {
        Node::Bool(b) => Some(b),
        _ => None,
    }
}

/// Reads a value as a list of texts.
pub fn read_texts(value: &Value) -> (r: Option<Vec<String>>)
    ensures
        r.deep_view() == texts_of(*value),
{
    match open_json(value) {
        Node::Array(items) => {
            let mut texts: Vec<String> = Vec::new();
            let mut i: usize = 0;
            proof {
                assert(texts.deep_view() =~= Seq::<Seq<char>>::empty());
            }
            while i < items.len()
                invariant
                    i <= items.len(),
                    json_shape(*value) == Shape::Array(items@),
                    texts_among(items@, i as int) == Some(texts.deep_view()),
                decreases items.len() - i,
            {
                let ghost before = texts.deep_view();
                match read_text(&items[i]) {
                    None => {
                        proof {
                            lemma_texts_stay_refused(items@, i + 1, items.len() as int);
                        }
                        return None;
                    },
                    Some(text) => {
                        let ghost added = text@;
                        texts.push(text);
                        proof {
                            assert(texts.deep_view() =~= before.push(added));
                        }
                    },
                }
                i += 1;
            }
            Some(texts)
        },
        _ => None,
    }
}

/// Once one of the values is no string, no longer run of them is a list of texts.
proof fn lemma_texts_stay_refused(items: Seq<Value>, n: int, m: int)
    requires
        0 <= n <= m,
        texts_among(items, n) is None,
    ensures
        texts_among(items, m) is None,
    decreases m - n,
{
    if n < m {
        lemma_texts_stay_refused(items, n, m - 1);
    }
}

/// Whether a value is JSON's `null`.
pub fn is_null(value: &Value) -> (r: bool)
    ensures
        r == (json_shape(*value) == Shape::Null),
{
    match open_json(value) {
        Node::Null => true,
        _ => false,
    }
}

/// The text of a member that must be there and must be a string.
pub open spec fn required_text(object: Map<Seq<char>, Value>, name: Seq<char>) -> Option<
    Seq<char>,
> {
    match member(object, name) {
        Some(value) => text_of(value),
        None => None,
    }
}

/// The number of a member that must be there and must be a whole number.
pub open spec fn required_natural(object: Map<Seq<char>, Value>, name: Seq<char>) -> Option<u64> {
    match member(object, name) {
        Some(value) => natural_of(value),
        None => None,
    }
}

/// The truth value of a member that must be there and must be one.
pub open spec fn required_bool(object: Map<Seq<char>, Value>, name: Seq<char>) -> Option<bool> {
    match member(object, name) {
        Some(value) => bool_of(value),
        None => None,
    }
}

/// The texts of a member that must be there and must be an array of strings.
pub open spec fn required_texts(object: Map<Seq<char>, Value>, name: Seq<char>) -> Option<
    Seq<Seq<char>>,
> {
    match member(object, name) {
        Some(value) => texts_of(value),
        None => None,
    }
}

/// The text of a member that may be left out or `null`, and is a string
/// otherwise. The outer `None` tells that it is something else.
pub open spec fn optional_text(object: Map<Seq<char>, Value>, name: Seq<char>) -> Option<
    Option<Seq<char>>,
> {
    match member(object, name) {
        None => Some(None),
        Some(value) => if json_shape(value) == Shape::Null {
            Some(None)
        } else {
            match text_of(value) {
                Some(text) => Some(Some(text)),
                None => None,
            }
        },
    }
}

/// The number of a member that may be left out or `null`, and is a whole number otherwise.
pub open spec fn optional_natural(object: Map<Seq<char>, Value>, name: Seq<char>) -> Option<
    Option<u64>,
> {
    match member(object, name) {
        None => Some(None),
        Some(value) => if json_shape(value) == Shape::Null {
            Some(None)
        } else {
            match natural_of(value) {
                Some(n) => Some(Some(n)),
                None => None,
            }
        },
    }
}

/// The truth value of a member that may be left out or `null`, and is one otherwise.
pub open spec fn optional_bool(object: Map<Seq<char>, Value>, name: Seq<char>) -> Option<
    Option<bool>,
> {
    match member(object, name) {
        None => Some(None),
        Some(value) => if json_shape(value) == Shape::Null {
            Some(None)
        } else {
            match bool_of(value) {
                Some(b) => Some(Some(b)),
                None => None,
            }
        },
    }
}

/// The texts of a member that may be left out or `null`, and is an array of strings otherwise.
pub open spec fn optional_texts(object: Map<Seq<char>, Value>, name: Seq<char>) -> Option<
    Option<Seq<Seq<char>>>,
> {
    match member(object, name) {
        None => Some(None),
        Some(value) => if json_shape(value) == Shape::Null {
            Some(None)
        } else {
            match texts_of(value) {
                Some(texts) => Some(Some(texts)),
                None => None,
            }
        },
    }
}

/// Reads a member that must be a string.
pub fn get_text(members: &Members, name: &str) -> (r: Option<String>)
    ensures
        r.deep_view() == required_text(members@, name@),
{
    match members.find(name) {
        Some(value) => read_text(value),
        None => None,
    }
}

/// Reads a member that must be a whole number.
pub fn get_natural(members: &Members, name: &str) -> (r: Option<u64>)
    ensures
        r == required_natural(members@, name@),
{
    match members.find(name) {
        Some(value) => read_natural(value),
        None => None,
    }
}

/// Reads a member that must be a truth value.
pub fn get_bool(members: &Members, name: &str) -> (r: Option<bool>)
    ensures
        r == required_bool(members@, name@),
{
    match members.find(name) {
        Some(value) => read_bool(value),
        None => None,
    }
}

/// Reads a member that must be an array of strings.
pub fn get_texts(members: &Members, name: &str) -> (r: Option<Vec<String>>)
    ensures
        r.deep_view() == required_texts(members@, name@),
{
    match members.find(name) {
        Some(value) => read_texts(value),
        None => None,
    }
}

/// Reads a member that is a string where it is there and not `null`.
pub fn get_optional_text(
    members: &Members,
    name: &str,
) -> (r: Option<Option<String>>)
    ensures
        r.deep_view() == optional_text(members@, name@),
{
    match members.find(name) {
        None => Some(None),
        Some(value) => if is_null(value) {
            Some(None)
        } else {
            match read_text(value) {
                Some(text) => Some(Some(text)),
                None => None,
            }
        },
    }
}

/// Reads a member that is a whole number where it is there and not `null`.
pub fn get_optional_natural(
    members: &Members,
    name: &str,
) -> (r: Option<Option<u64>>)
    ensures
        r == optional_natural(members@, name@),
{
    match members.find(name) {
        None => Some(None),
        Some(value) => if is_null(value) {
            Some(None)
        } else {
            match read_natural(value) {
                Some(n) => Some(Some(n)),
                None => None,
            }
        },
    }
}

/// Reads a member that is a truth value where it is there and not `null`.
pub fn get_optional_bool(
    members: &Members,
    name: &str,
) -> (r: Option<Option<bool>>)
    ensures
        r == optional_bool(members@, name@),
{
    match members.find(name) {
        None => Some(None),
        Some(value) => if is_null(value) {
            Some(None)
        } else {
            match read_bool(value) {
                Some(b) => Some(Some(b)),
                None => None,
            }
        },
    }
}

/// Reads a member that is an array of strings where it is there and not `null`.
pub fn get_optional_texts(members: &Members, name: &str) -> (r: Option<
    Option<Vec<String>>,
>)
    ensures
        r.deep_view() == optional_texts(members@, name@),
{
    match members.find(name) {
        None => Some(None),
        Some(value) => if is_null(value) {
            Some(None)
        } else {
            match read_texts(value) {
                Some(texts) => Some(Some(texts)),
                None => None,
            }
        },
    }
}

/// The value that holds a text.
pub open spec fn text_value(text: Seq<char>) -> Value {
    json_value(Shape::Text(text))
}

/// The value that holds a truth value.
pub open spec fn bool_value(b: bool) -> Value {
    json_value(Shape::Bool(b))
}

/// The value that holds a whole number.
pub open spec fn natural_value(n: u64) -> Value {
    json_value(Shape::Number(Some(n)))
}

/// The values that hold the texts of a list, one by one.
pub open spec fn text_values(texts: Seq<Seq<char>>) -> Seq<Value> {
    Seq::new(texts.len(), |i: int| text_value(texts[i]))
}

/// The value that holds a list of texts.
pub open spec fn texts_value(texts: Seq<Seq<char>>) -> Value {
    json_value(Shape::Array(text_values(texts)))
}

/// An object with one more member, where there is something to add.
pub open spec fn with_member(
    object: Map<Seq<char>, Value>,
    name: Seq<char>,
    value: Option<Value>,
) -> Map<
    Seq<char>,
    Value,
> {
    match value {
        Some(value) => object.insert(name, value),
        None => object,
    }
}

/// The object that a list of fields makes: one member for each field that has a
/// value, under the field's name.
pub open spec fn object_with(fields: Seq<(Seq<char>, Option<Value>)>) -> Map<Seq<char>, Value>
    decreases fields.len(),
{
    if fields.len() == 0 {
        Map::empty()
    } else {
        with_member(object_with(fields.drop_last()), fields.last().0, fields.last().1)
    }
}

/// Whether no name occurs twice among the fields.
pub open spec fn distinct_fields(fields: Seq<(Seq<char>, Option<Value>)>) -> bool {
    forall|i: int, j: int| 0 <= i < j < fields.len() ==> fields[i].0 != fields[j].0
}

/// One more field adds one more member, where the field has a value.
pub proof fn lemma_object_with_push(
    fields: Seq<(Seq<char>, Option<Value>)>,
    name: Seq<char>,
    value: Option<Value>,
)
    ensures
        object_with(fields.push((name, value))) == with_member(object_with(fields), name, value),
{
    assert(fields.push((name, value)).drop_last() =~= fields);
}

/// The members of the object go by names of the fields.
pub proof fn lemma_object_with_names(fields: Seq<(Seq<char>, Option<Value>)>, name: Seq<char>)
    requires
        object_with(fields).contains_key(name),
    ensures
        exists|j: int| 0 <= j < fields.len() && (#[trigger] fields[j]).0 == name,
    decreases fields.len(),
{
    if fields.len() > 0 {
        let last = fields.last();
        if last.0 == name {
            assert(fields[fields.len() - 1].0 == name);
        } else {
            lemma_object_with_names(fields.drop_last(), name);
            let j = choose|j: int|
                0 <= j < fields.drop_last().len() && (#[trigger] fields.drop_last()[j]).0 == name;
            assert(fields[j].0 == name);
        }
    }
}

/// Among fields with distinct names, the object holds under each name just the
/// value of that field, and nothing where the field has none.
pub proof fn lemma_object_with_member(fields: Seq<(Seq<char>, Option<Value>)>, j: int)
    requires
        distinct_fields(fields),
        0 <= j < fields.len(),
    ensures
        member(object_with(fields), fields[j].0) == fields[j].1,
    decreases fields.len(),
{
    let shorter = fields.drop_last();
    if j == fields.len() - 1 {
        if fields.last().1 is None {
            if object_with(shorter).contains_key(fields[j].0) {
                lemma_object_with_names(shorter, fields[j].0);
                let i = choose|i: int|
                    0 <= i < shorter.len() && (#[trigger] shorter[i]).0 == fields[j].0;
                assert(fields[i].0 != fields[j].0);
            }
        }
    } else {
        assert(shorter[j] == fields[j]);
        assert(fields[j].0 != fields[fields.len() - 1].0);
        assert forall|a: int, b: int| 0 <= a < b < shorter.len() implies shorter[a].0
            != shorter[b].0 by {
            assert(fields[a].0 != fields[b].0);
        }
        lemma_object_with_member(shorter, j);
    }
}

/// Makes the value that holds a text.
pub fn make_text(text: &str) -> (value: Value)
    ensures
        value == text_value(text@),
        text_of(value) == Some(text@),
{
    make_json(Node::Text(String::from_str(text)))
}

/// Makes the value that holds a truth value.
pub fn make_bool(b: bool) -> (value: Value)
    ensures
        value == bool_value(b),
        bool_of(value) == Some(b),
{
    make_json(Node::Bool(b))
}

/// Makes the value that holds a whole number.
pub fn make_natural(n: u64) -> (value: Value)
    ensures
        value == natural_value(n),
        natural_of(value) == Some(n),
{
    make_json(Node::Number(Some(n)))
}

/// Makes the value that holds a list of texts.
pub fn make_texts(texts: &Vec<String>) -> (value: Value)
    ensures
        value == texts_value(texts.deep_view()),
        texts_of(value) == Some(texts.deep_view()),
{
    let mut items: Vec<Value> = Vec::new();
    let mut i: usize = 0;
    while i < texts.len()
        invariant
            i <= texts.len(),
            items.len() == i,
            forall|j: int|
                0 <= j < i ==> #[trigger] items[j] == text_value(texts[j]@) && text_of(items[j])
                    == Some(texts[j]@),
        decreases texts.len() - i,
    {
        items.push(make_text(texts[i].as_str()));
        i += 1;
    }
    proof {
        assert(items@ =~= text_values(texts.deep_view()));
        lemma_texts_among(items@, texts.deep_view(), items.len() as int);
        assert(texts.deep_view().take(items.len() as int) =~= texts.deep_view());
    }
    make_json(Node::Array(items))
}

/// Values that are strings, one by one, are a list of texts.
proof fn lemma_texts_among(items: Seq<Value>, texts: Seq<Seq<char>>, n: int)
    requires
        0 <= n <= items.len(),
        items.len() == texts.len(),
        forall|j: int| 0 <= j < items.len() ==> text_of(#[trigger] items[j]) == Some(texts[j]),
    ensures
        texts_among(items, n) == Some(texts.take(n)),
    decreases n,
{
    if n > 0 {
        lemma_texts_among(items, texts, n - 1);
        assert(texts.take(n - 1).push(texts[n - 1]) =~= texts.take(n));
    } else {
        assert(texts.take(0) =~= Seq::<Seq<char>>::empty());
    }
}

/// A JSON object in the making. It is made for a list of fields, the plan, and
/// takes them one by one, in the order of the plan.
pub(crate) struct Payload {
    members: Members,
    plan: Ghost<Seq<(Seq<char>, Option<Value>)>>,
    done: Ghost<int>,
}

impl Payload {
    /// The fields that the object is made for.
    pub(crate) closed spec fn plan(&self) -> Seq<(Seq<char>, Option<Value>)> {
        self.plan@
    }

    /// How many fields of the plan were taken.
    pub(crate) closed spec fn done(&self) -> int {
        self.done@
    }

    /// Whether the members are those of the fields taken so far.
    pub(crate) closed spec fn wf(&self) -> bool {
        &&& distinct_fields(self.plan@)
        &&& 0 <= self.done@ <= self.plan@.len()
        &&& self.members@ == object_with(self.plan@.take(self.done@))
    }

    /// Starts an object for the fields of `plan`.
    pub(crate) fn new(Ghost(plan): Ghost<Seq<(Seq<char>, Option<Value>)>>) -> (payload: Payload)
        requires
            distinct_fields(plan),
        ensures
            payload.wf(),
            payload.plan() == plan,
            payload.done() == 0,
    {
        Payload { members: Members::new(), plan: Ghost(plan), done: Ghost(0) }
    }

    /// Takes the next field of the plan: it becomes a member where it has a value.
    pub(crate) fn put(self, name: &str, value: Option<Value>) -> (more: Payload)
        requires
            self.wf(),
            self.done() < self.plan().len(),
            self.plan()[self.done()] == (name@, value),
        ensures
            more.wf(),
            more.plan() == self.plan(),
            more.done() == self.done() + 1,
    {
        let ghost plan = self.plan@;
        let ghost done = self.done@;
        proof {
            if self.members@.contains_key(name@) {
                lemma_object_with_names(plan.take(done), name@);
                let j = choose|j: int|
                    0 <= j < plan.take(done).len() && (#[trigger] plan.take(done)[j]).0 == name@;
                assert(plan[j].0 != plan[done].0);
            }
            lemma_object_with_push(plan.take(done), name@, value);
            assert(plan.take(done).push(plan[done]) =~= plan.take(done + 1));
        }
        let members = match value {
            Some(value) => self.members.put(name, value),
            None => self.members,
        };
        Payload { members, plan: self.plan, done: Ghost(done + 1) }
    }

    /// Makes the object, once every field of the plan was taken.
    pub(crate) fn finish(self) -> (value: Value)
        requires
            self.wf(),
            self.done() == self.plan().len(),
        ensures
            value == json_value(Shape::Object(object_with(self.plan()))),
            json_shape(value) == Shape::Object(object_with(self.plan())),
    {
        proof {
            assert(self.plan@.take(self.done@) =~= self.plan@);
        }
        make_json(Node::Object(self.members))
    }
}

} // verus!
