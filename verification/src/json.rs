//! JSON documents as trees, with the text form left to `serde_json`.

use vstd::prelude::*;

verus! {

/// A JSON document held as a tree of plain values.
///
/// A number is kept only where it is a non-negative integer below 2^64;
/// any other number is `Number(None)`.
#[derive(Debug, PartialEq, Eq)]
pub enum Json {
    Null,
    Bool(bool),
    Number(Option<u64>),
    Text(String),
    List(Vec<Json>),
    Object(Vec<(String, Json)>),
}

/// The mathematical model of a [`Json`] tree.
pub enum JsonValue {
    Null,
    Bool(bool),
    Number(Option<u64>),
    Text(Seq<char>),
    List(Seq<JsonValue>),
    Object(Seq<(Seq<char>, JsonValue)>),
}

/// The model of a tree.
pub open spec fn tree_view(tree: Json) -> JsonValue
    decreases tree,
{
    match tree {
        Json::Null => JsonValue::Null,
        Json::Bool(b) => JsonValue::Bool(b),
        Json::Number(n) => JsonValue::Number(n),
        Json::Text(t) => JsonValue::Text(t@),
        Json::List(items) => JsonValue::List(
            Seq::new(
                items@.len(),
                |i: int| if 0 <= i < items@.len() {
                    tree_view(items@[i])
                } else {
                    JsonValue::Null
                },
            ),
        ),
        Json::Object(fields) => JsonValue::Object(
            Seq::new(
                fields@.len(),
                |i: int| if 0 <= i < fields@.len() {
                    (fields@[i].0@, tree_view(fields@[i].1))
                } else {
                    (Seq::empty(), JsonValue::Null)
                },
            ),
        ),
    }
}

impl View for Json {
    type V = JsonValue;

    open spec fn view(&self) -> JsonValue {
        tree_view(*self)
    }
}

impl JsonValue {
    /// Whether every number in the tree is an integer and no object names a
    /// key twice: the trees that a `serde_json::Value` can hold one for one.
    pub open spec fn printable(self) -> bool
        decreases self,
    {
        match self {
            JsonValue::Number(n) => n is Some,
            JsonValue::List(items) => forall|i: int|
                0 <= i < items.len() ==> (#[trigger] items[i]).printable(),
            JsonValue::Object(fields) => {
                &&& forall|i: int|
                    0 <= i < fields.len() ==> (#[trigger] fields[i]).1.printable()
                &&& forall|i: int, j: int|
                    0 <= i < j < fields.len() ==> (#[trigger] fields[i]).0 != (
                    #[trigger] fields[j]).0
            },
            _ => true,
        }
    }

    /// The value that an object holds under `key`: that of the first field
    /// with this key. `None` for anything but an object, and where no field
    /// has the key.
    pub open spec fn member(self, key: Seq<char>) -> Option<JsonValue> {
        match self {
            JsonValue::Object(fields) => first_with_key(fields, key),
            _ => None,
        }
    }

    /// The text that the value holds, where it is a string.
    pub open spec fn text(self) -> Option<Seq<char>> {
        match self {
            JsonValue::Text(t) => Some(t),
            _ => None,
        }
    }

    /// The integer that the value holds, where it is a number below 2^16.
    pub open spec fn small_integer(self) -> Option<u16> {
        match self {
            JsonValue::Number(Some(n)) => if n <= 0xffff {
                Some(n as u16)
            } else {
                None
            },
            _ => None,
        }
    }
}

/// The value of the first field of `fields` whose key is `key`.
pub open spec fn first_with_key(
    fields: Seq<(Seq<char>, JsonValue)>,
    key: Seq<char>,
) -> Option<JsonValue>
    decreases fields.len(),
{
    if fields.len() == 0 {
        None
    } else if fields[0].0 == key {
        Some(fields[0].1)
    } else {
        first_with_key(fields.drop_first(), key)
    }
}

/// Looking a key up in `fields` from index `from` on is looking it up in the
/// fields that start there.
pub proof fn lemma_first_with_key_skip(
    fields: Seq<(Seq<char>, JsonValue)>,
    key: Seq<char>,
    from: int,
)
    requires
        0 <= from < fields.len(),
        fields[from].0 != key,
    ensures
        first_with_key(fields.skip(from), key) == first_with_key(fields.skip(from + 1), key),
{
    assert(fields.skip(from).drop_first() =~= fields.skip(from + 1));
}

/// `serde_json::Value`, carried between the calls into `serde_json`; what
/// it holds is read through [`value_tree`] only.
#[verifier::external_type_specification]
#[verifier::external_body]
pub struct ExValue(serde_json::Value);

/// `serde_json::Error`: why a text was not read. Nothing is read from it.
#[verifier::external_type_specification]
#[verifier::external_body]
pub struct ExError(serde_json::Error);

/// The tree that a `serde_json::Value` holds: its variants one for one, the
/// fields of an object in the order in which the value keeps them, and a
/// number as what `Number::as_u64` gives for it.
pub uninterp spec fn value_tree(value: serde_json::Value) -> JsonValue;

/// What `serde_json::from_str` makes of a text: the tree of the value it
/// returns, or `None` where it returns an error. Which texts it accepts is
/// not stated here.
pub uninterp spec fn json_parsed(text: Seq<char>) -> Option<JsonValue>;

/// The compact text that `serde_json` writes for a value with this tree,
/// where the tree is printable. How it escapes is not stated here.
pub uninterp spec fn json_printed(tree: JsonValue) -> Seq<char>;

/// Calls `serde_json::from_str` for a `Value`. Believed, not proved: the
/// outcome depends on the text alone. The contract gives it its name,
/// [`json_parsed`], and says nothing of which texts are accepted.
#[verifier::external_body]
fn parse_value(text: &str) -> (res: Result<serde_json::Value, serde_json::Error>)
    ensures
        res matches Ok(value) ==> json_parsed(text@) == Some(value_tree(value)),
        res is Err ==> json_parsed(text@) is None,
{
    serde_json::from_str::<serde_json::Value>(text)
}

/// Calls `to_string` on a `serde_json::Value`, which writes the value in
/// compact form through its `Display` impl. Believed, not proved: for a
/// value whose numbers are all integers below 2^64 the text depends on the
/// tree alone. The contract gives it its name, [`json_printed`].
#[verifier::external_body]
fn print_value(value: &serde_json::Value) -> (text: String)
    requires
        value_tree(*value).printable(),
    ensures
        text@ == json_printed(value_tree(*value)),
{
    value.to_string()
}

/// Copies a `serde_json::Value` into a tree, variant by variant; a number is
/// read with `Number::as_u64`, the fields of an object with `Map::iter`.
/// Believed, not proved: the copy is what [`value_tree`] names.
#[verifier::external_body]
fn tree_of(value: &serde_json::Value) -> (tree: Json)
    ensures
        tree@ == value_tree(*value),
{
    match value {
        serde_json::Value::Null => Json::Null,
        serde_json::Value::Bool(b) => Json::Bool(*b),
        serde_json::Value::Number(n) => Json::Number(n.as_u64()),
        serde_json::Value::String(t) => Json::Text(t.clone()),
        serde_json::Value::Array(items) => Json::List(items.iter().map(tree_of).collect()),
        serde_json::Value::Object(fields) => Json::Object(
            fields.iter().map(|(k, v)| (k.clone(), tree_of(v))).collect(),
        ),
    }
}

/// Builds a `serde_json::Value` from a tree, variant by variant; a number
/// goes through `Value::from`, an object is collected into a
/// `serde_json::Map`, which keeps one value for each key and, as this crate
/// builds `serde_json` with `preserve_order`, the order of insertion.
/// Believed, not proved: for a printable tree the value holds that tree.
#[verifier::external_body]
fn value_of(tree: &Json) -> (value: serde_json::Value)
    requires
        tree@.printable(),
    ensures
        value_tree(value) == tree@,
{
    match tree {
        Json::Null => serde_json::Value::Null,
        Json::Bool(b) => serde_json::Value::Bool(*b),
        Json::Number(n) => serde_json::Value::from(*n),
        Json::Text(t) => serde_json::Value::String(t.clone()),
        Json::List(items) => serde_json::Value::Array(items.iter().map(value_of).collect()),
        Json::Object(fields) => serde_json::Value::Object(
            fields.iter().map(|(k, v)| (k.clone(), value_of(v))).collect(),
        ),
    }
}

/// The model of the fields of an object.
pub open spec fn fields_view(fields: Seq<(String, Json)>) -> Seq<(Seq<char>, JsonValue)> {
    Seq::new(
        fields.len(),
        |i: int| if 0 <= i < fields.len() {
            (fields[i].0@, fields[i].1@)
        } else {
            (Seq::empty(), JsonValue::Null)
        },
    )
}

/// The model of an object is the model of its fields.
pub proof fn lemma_object_view(fields: Vec<(String, Json)>)
    ensures
        Json::Object(fields)@ == JsonValue::Object(fields_view(fields@)),
{
    let tree = Json::Object(fields);
    assert(tree@->Object_0.len() == fields@.len());
    assert(tree@->Object_0 =~= fields_view(fields@));
}

/// The value of the first of `fields` whose key is `key`.
fn find_field<'a>(fields: &'a Vec<(String, Json)>, key: &str) -> (res: Option<&'a Json>)
    ensures
        res matches Some(found) ==> first_with_key(fields_view(fields@), key@) == Some(found@),
        res is None ==> first_with_key(fields_view(fields@), key@) is None,
{
    let ghost all = fields_view(fields@);
    let wanted = String::from_str(key);
    let mut i: usize = 0;
    assert(all.skip(0) =~= all);
    while i < fields.len()
        invariant
            0 <= i <= fields.len(),
            all == fields_view(fields@),
            wanted@ == key@,
            first_with_key(all, key@) == first_with_key(all.skip(i as int), key@),
        decreases fields.len() - i,
    {
        let field = &fields[i];
        if field.0 == wanted {
            assert(all.skip(i as int)[0] == all[i as int]);
            return Some(&field.1);
        }
        proof {
            lemma_first_with_key_skip(all, key@, i as int);
        }
        i += 1;
    }
    assert(all.skip(i as int).len() == 0);
    None
}

/// An object is printable where its values are and its keys differ.
pub proof fn lemma_printable_object(fields: Seq<(Seq<char>, JsonValue)>)
    ensures
        JsonValue::Object(fields).printable() <==> {
            &&& forall|i: int| 0 <= i < fields.len() ==> (#[trigger] fields[i]).1.printable()
            &&& forall|i: int, j: int|
                0 <= i < j < fields.len() ==> (#[trigger] fields[i]).0 != (#[trigger] fields[j]).0
        },
{
    let tree = JsonValue::Object(fields);
    assert(tree->Object_0 == fields);
}

/// Whether the key at `at` differs from every key before it.
fn key_is_new(fields: &Vec<(String, Json)>, at: usize) -> (res: bool)
    requires
        at < fields.len(),
    ensures
        res == forall|i: int| 0 <= i < at ==> fields@[i].0@ != fields@[at as int].0@,
{
    let mut i: usize = 0;
    while i < at
        invariant
            0 <= i <= at < fields.len(),
            forall|k: int| 0 <= k < i ==> fields@[k].0@ != fields@[at as int].0@,
        decreases at - i,
    {
        if fields[i].0 == fields[at].0 {
            return false;
        }
        i += 1;
    }
    true
}

impl Json {
    /// Whether the tree is printable.
    pub fn is_printable(&self) -> (res: bool)
        ensures
            res == self@.printable(),
        decreases self,
    {
        match self {
            Json::Number(n) => n.is_some(),
            Json::List(items) => {
                let mut i: usize = 0;
                while i < items.len()
                    invariant
                        0 <= i <= items.len(),
                        self == Json::List(*items),
                        forall|k: int| 0 <= k < i ==> (#[trigger] self@->List_0[k]).printable(),
                    decreases items.len() - i,
                {
                    if !items[i].is_printable() {
                        assert(!self@->List_0[i as int].printable());
                        return false;
                    }
                    i += 1;
                }
                true
            },
            Json::Object(fields) => {
                proof {
                    lemma_object_view(*fields);
                }
                let ghost all = fields_view(fields@);
                let mut i: usize = 0;
                while i < fields.len()
                    invariant
                        0 <= i <= fields.len(),
                        self == Json::Object(*fields),
                        all == fields_view(fields@),
                        self@ == JsonValue::Object(all),
                        forall|k: int| 0 <= k < i ==> (#[trigger] all[k]).1.printable(),
                        forall|k: int, l: int|
                            0 <= k < l < i ==> (#[trigger] all[k]).0 != (#[trigger] all[l]).0,
                    decreases fields.len() - i,
                {
                    assert(all[i as int] == (fields@[i as int].0@, fields@[i as int].1@));
                    if !fields[i].1.is_printable() {
                        proof {
                            lemma_printable_object(all);
                        }
                        return false;
                    }
                    if !key_is_new(fields, i) {
                        let ghost k = choose|k: int|
                            0 <= k < i && fields@[k].0@ == fields@[i as int].0@;
                        assert(all[k] == (fields@[k].0@, fields@[k].1@));
                        proof {
                            lemma_printable_object(all);
                        }
                        return false;
                    }
                    assert forall|k: int| 0 <= k < i implies (#[trigger] all[k]).0 != all[i as int].0 by {
                        assert(all[k] == (fields@[k].0@, fields@[k].1@));
                    }
                    i += 1;
                }
                true
            },
            _ => true,
        }
    }

    /// Writes the tree as compact JSON text, where it is printable.
    pub fn try_print(&self) -> (res: Option<String>)
        ensures
            self@.printable() ==> (res matches Some(text) && text@ == json_printed(self@)),
            !self@.printable() ==> res is None,
    {
        if self.is_printable() {
            Some(self.print())
        } else {
            None
        }
    }

    /// Reads a JSON text. `None` where the text is not JSON.
    pub fn parse(text: &str) -> (res: Option<Json>)
        ensures
            res matches Some(tree) ==> json_parsed(text@) == Some(tree@),
            res is None ==> json_parsed(text@) is None,
    {
        match parse_value(text) {
            Ok(value) => Some(tree_of(&value)),
            Err(_) => None,
        }
    }

    /// Writes the tree as compact JSON text.
    pub fn print(&self) -> (text: String)
        requires
            self@.printable(),
        ensures
            text@ == json_printed(self@),
    {
        let value = value_of(self);
        print_value(&value)
    }

    /// The value under `key`, where `self` is an object that has the key.
    pub fn member(&self, key: &str) -> (res: Option<&Json>)
        ensures
            res matches Some(found) ==> self@.member(key@) == Some(found@),
            res is None ==> self@.member(key@) is None,
    {
        match self {
            Json::Object(fields) => {
                proof {
                    lemma_object_view(*fields);
                }
                find_field(fields, key)
            },
            _ => None,
        }
    }

    /// The text of a string value.
    pub fn text(&self) -> (res: Option<String>)
        ensures
            res matches Some(t) ==> self@.text() == Some(t@),
            res is None ==> self@.text() is None,
    {
        match self {
            Json::Text(t) => Some(t.clone()),
            _ => None,
        }
    }

    /// The integer of a number value, where it is below 2^16.
    pub fn small_integer(&self) -> (res: Option<u16>)
        ensures
            res == self@.small_integer(),
    {
        match self {
            Json::Number(Some(n)) => if *n <= 0xffff {
                Some(*n as u16)
            } else {
                None
            },
            _ => None,
        }
    }
}

} // verus!

