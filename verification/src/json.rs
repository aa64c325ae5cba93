//! JSON documents as plain data.
//!
//! [`Json`] is the in-memory form of a document and [`JsonValue`] its
//! mathematical content. Reading and writing JSON text is left to
//! `serde_json`; everything between is ordinary verified code.

use crate::text::owned;
use serde_json::Value;
use vstd::prelude::*;

verus! {

/// The mathematical content of a JSON document.
///
/// An object is the sequence of its fields in document order, so that two
/// fields of one name can be told apart; [`lookup`] takes the first.
pub enum JsonValue {
    Null,
    Bool(bool),
    /// A non-negative integer.
    Unsigned(u64),
    /// An integer, as a rule a negative one.
    Signed(i64),
    /// A number that is not an integer, by its decimal text.
    Float(Seq<char>),
    Text(Seq<char>),
    Array(Seq<JsonValue>),
    Object(Seq<(Seq<char>, JsonValue)>),
}

/// A JSON document held in memory.
#[derive(Debug, PartialEq, Eq)]
pub enum Json {
    Null,
    Bool(bool),
    /// A non-negative integer.
    Unsigned(u64),
    /// An integer, as a rule a negative one.
    Signed(i64),
    /// A number that is not an integer, by its decimal text.
    Float(String),
    Text(String),
    Array(Vec<Json>),
    Object(Vec<(String, Json)>),
}

/// The content of a document.
pub open spec fn content(json: Json) -> JsonValue
    decreases json,
{
    match json {
        Json::Null => JsonValue::Null,
        Json::Bool(b) => JsonValue::Bool(b),
        Json::Unsigned(n) => JsonValue::Unsigned(n),
        Json::Signed(n) => JsonValue::Signed(n),
        Json::Float(t) => JsonValue::Float(t@),
        Json::Text(t) => JsonValue::Text(t@),
        Json::Array(items) => JsonValue::Array(
            Seq::new(
                items@.len(),
                |i: int|
                    if 0 <= i < items@.len() {
                        content(items@[i])
                    } else {
                        JsonValue::Null
                    },
            ),
        ),
        Json::Object(fields) => JsonValue::Object(
            Seq::new(
                fields@.len(),
                |i: int|
                    if 0 <= i < fields@.len() {
                        (fields@[i].0@, content(fields@[i].1))
                    } else {
                        (Seq::empty(), JsonValue::Null)
                    },
            ),
        ),
    }
}

impl View for Json {
    type V = JsonValue;

    open spec fn view(&self) -> JsonValue {
        content(*self)
    }
}

/// The contents of a list of documents.
pub open spec fn items_view(items: Seq<Json>) -> Seq<JsonValue> {
    Seq::new(items.len(), |i: int| items[i]@)
}

/// The contents of a list of named documents.
pub open spec fn fields_view(fields: Seq<(String, Json)>) -> Seq<(Seq<char>, JsonValue)> {
    Seq::new(fields.len(), |i: int| (fields[i].0@, fields[i].1@))
}

/// An array's content is the content of its items, one by one.
pub proof fn lemma_array_view(items: Vec<Json>)
    ensures
        Json::Array(items)@ == JsonValue::Array(items_view(items@)),
{
    assert(Json::Array(items)@->Array_0 =~= items_view(items@));
}

/// An object's content is the content of its fields, one by one.
pub proof fn lemma_object_view(fields: Vec<(String, Json)>)
    ensures
        Json::Object(fields)@ == JsonValue::Object(fields_view(fields@)),
{
    assert(Json::Object(fields)@->Object_0 =~= fields_view(fields@));
}

/// The value of the first field called `name`, if there is one.
pub open spec fn lookup(fields: Seq<(Seq<char>, JsonValue)>, name: Seq<char>) -> Option<JsonValue>
    decreases fields.len(),
{
    if fields.len() == 0 {
        None
    } else if fields.first().0 == name {
        Some(fields.first().1)
    } else {
        lookup(fields.drop_first(), name)
    }
}

/// The characters of each of a list of strings.
pub open spec fn names_view(names: Seq<String>) -> Seq<Seq<char>> {
    Seq::new(names.len(), |i: int| names[i]@)
}

/// The fields whose name is none of `names`, in their order.
pub open spec fn without(fields: Seq<(Seq<char>, JsonValue)>, names: Seq<Seq<char>>) -> Seq<
    (Seq<char>, JsonValue),
>
    decreases fields.len(),
{
    if fields.len() == 0 {
        Seq::empty()
    } else {
        let before = without(fields.drop_last(), names);
        if names.contains(fields.last().0) {
            before
        } else {
            before.push(fields.last())
        }
    }
}

/// Whether no field is called by one of `names`.
pub open spec fn free_of(fields: Seq<(Seq<char>, JsonValue)>, names: Seq<Seq<char>>) -> bool {
    forall|i: int| 0 <= i < fields.len() ==> !names.contains(#[trigger] fields[i].0)
}

/// Fields that avoid `names` are all kept.
pub proof fn lemma_without_keeps(fields: Seq<(Seq<char>, JsonValue)>, names: Seq<Seq<char>>)
    requires
        free_of(fields, names),
    ensures
        without(fields, names) == fields,
    decreases fields.len(),
{
    if fields.len() > 0 {
        let front = fields.drop_last();
        assert forall|i: int| 0 <= i < front.len() implies !names.contains(
            #[trigger] front[i].0,
        ) by {
            assert(front[i] == fields[i]);
        }
        lemma_without_keeps(front, names);
        assert(!names.contains(fields[fields.len() - 1].0));
        assert(front.push(fields.last()) =~= fields);
    } else {
        assert(fields =~= Seq::empty());
    }
}

/// Removing fields goes part by part.
pub proof fn lemma_without_concat(
    left: Seq<(Seq<char>, JsonValue)>,
    right: Seq<(Seq<char>, JsonValue)>,
    names: Seq<Seq<char>>,
)
    ensures
        without(left + right, names) == without(left, names) + without(right, names),
    decreases right.len(),
{
    if right.len() == 0 {
        assert(left + right =~= left);
        assert(without(left, names) + without(right, names) =~= without(left, names));
    } else {
        let whole = left + right;
        assert(whole.drop_last() =~= left + right.drop_last());
        assert(whole.last() == right.last());
        lemma_without_concat(left, right.drop_last(), names);
        if names.contains(right.last().0) {
        } else {
            assert((without(left, names) + without(right.drop_last(), names)).push(right.last())
                =~= without(left, names) + without(right.drop_last(), names).push(
                right.last(),
            ));
        }
    }
}

/// What is left after removing fields avoids the names removed.
pub proof fn lemma_without_is_free(fields: Seq<(Seq<char>, JsonValue)>, names: Seq<Seq<char>>)
    ensures
        free_of(without(fields, names), names),
    decreases fields.len(),
{
    if fields.len() > 0 {
        lemma_without_is_free(fields.drop_last(), names);
    }
}

impl JsonValue {
    /// The value of the first field called `name`, where this is an object
    /// that has one.
    pub open spec fn field(self, name: Seq<char>) -> Option<JsonValue> {
        match self {
            JsonValue::Object(fields) => lookup(fields, name),
            _ => None,
        }
    }

    /// The integer that this number stands for, where it is an integer.
    pub open spec fn as_int(self) -> Option<int> {
        match self {
            JsonValue::Unsigned(n) => Some(n as int),
            JsonValue::Signed(n) => Some(n as int),
            _ => None,
        }
    }

    /// The integer of this number, where it is one that fits in `u64`.
    pub open spec fn as_u64(self) -> Option<u64> {
        match self.as_int() {
            Some(n) if 0 <= n <= u64::MAX => Some(n as u64),
            _ => None,
        }
    }

    /// The integer of this number, where it is one that fits in `i64`.
    pub open spec fn as_i64(self) -> Option<i64> {
        match self.as_int() {
            Some(n) if i64::MIN <= n <= i64::MAX => Some(n as i64),
            _ => None,
        }
    }

    /// The characters of this value, where it is a string.
    pub open spec fn as_text(self) -> Option<Seq<char>> {
        match self {
            JsonValue::Text(t) => Some(t),
            _ => None,
        }
    }

    /// The items of this value, where it is an array.
    pub open spec fn as_array(self) -> Option<Seq<JsonValue>> {
        match self {
            JsonValue::Array(items) => Some(items),
            _ => None,
        }
    }

    /// The integer `n` as a JSON number.
    pub open spec fn of_i64(n: i64) -> JsonValue {
        if n >= 0 {
            JsonValue::Unsigned(n as u64)
        } else {
            JsonValue::Signed(n)
        }
    }
}

/// The value of the first of `fields` that is called `name`, if there is
/// one.
pub fn find_field<'a>(fields: &'a Vec<(String, Json)>, name: &str) -> (found: Option<&'a Json>)
    ensures
        match found {
            Some(value) => lookup(fields_view(fields@), name@) == Some(value@),
            None => lookup(fields_view(fields@), name@) is None,
        },
{
    let key = owned(name);
    let mut i: usize = 0;
    assert(fields_view(fields@).skip(0) =~= fields_view(fields@));
    while i < fields.len()
        invariant
            i <= fields.len(),
            key@ == name@,
            lookup(fields_view(fields@), name@) == lookup(
                fields_view(fields@).skip(i as int),
                name@,
            ),
        decreases fields.len() - i,
    {
        let ghost rest = fields_view(fields@).skip(i as int);
        assert(rest.first() == (fields@[i as int].0@, fields@[i as int].1@));
        if fields[i].0 == key {
            return Some(&fields[i].1);
        }
        assert(rest.drop_first() =~= fields_view(fields@).skip(i + 1));
        i += 1;
    }
    None
}

/// Whether `names` holds `name`.
pub fn holds_name(names: &Vec<String>, name: &String) -> (found: bool)
    ensures
        found == names_view(names@).contains(name@),
{
    let mut i: usize = 0;
    while i < names.len()
        invariant
            i <= names.len(),
            forall|j: int| 0 <= j < i ==> names_view(names@)[j] != name@,
        decreases names.len() - i,
    {
        if names[i] == *name {
            assert(names_view(names@)[i as int] == name@);
            return true;
        }
        i += 1;
    }
    false
}

/// Copies of the fields whose name is none of `names`, in their order.
pub fn fields_without(fields: &Vec<(String, Json)>, names: &Vec<String>) -> (kept: Vec<
    (String, Json),
>)
    ensures
        fields_view(kept@) == without(fields_view(fields@), names_view(names@)),
{
    let mut kept: Vec<(String, Json)> = Vec::new();
    let mut i: usize = 0;
    assert(fields_view(fields@).take(0) =~= Seq::empty());
    assert(fields_view(kept@) =~= Seq::empty());
    while i < fields.len()
        invariant
            i <= fields.len(),
            fields_view(kept@) == without(
                fields_view(fields@).take(i as int),
                names_view(names@),
            ),
        decreases fields.len() - i,
    {
        let ghost all = fields_view(fields@);
        let ghost before = fields_view(kept@);
        assert(all.take(i + 1).drop_last() =~= all.take(i as int));
        assert(all.take(i + 1).last() == (fields@[i as int].0@, fields@[i as int].1@));
        if !holds_name(names, &fields[i].0) {
            kept.push((fields[i].0.clone(), fields[i].1.copy()));
            assert(fields_view(kept@) =~= before.push(all[i as int]));
        }
        i += 1;
    }
    assert(fields_view(fields@).take(fields.len() as int) =~= fields_view(fields@));
    kept
}

impl Json {
    /// The value of the first field called `name`, where this is an object
    /// that has one.
    pub fn get(&self, name: &str) -> (found: Option<&Json>)
        ensures
            match found {
                Some(value) => self@.field(name@) == Some(value@),
                None => self@.field(name@) is None,
            },
    {
        match self {
            Json::Object(fields) => {
                proof {
                    lemma_object_view(*fields);
                }
                find_field(fields, name)
            },
            _ => None,
        }
    }

    /// The integer of this number, where it is one that fits in `u64`.
    pub fn as_u64(&self) -> (n: Option<u64>)
        ensures
            n == self@.as_u64(),
    {
        match self {
            Json::Unsigned(n) => Some(*n),
            Json::Signed(n) => if *n >= 0 {
                Some(*n as u64)
            } else {
                None
            },
            _ => None,
        }
    }

    /// The integer of this number, where it is one that fits in `i64`.
    pub fn as_i64(&self) -> (n: Option<i64>)
        ensures
            n == self@.as_i64(),
    {
        match self {
            Json::Unsigned(n) => if *n <= i64::MAX as u64 {
                Some(*n as i64)
            } else {
                None
            },
            Json::Signed(n) => Some(*n),
            _ => None,
        }
    }

    /// The characters of this value, where it is a string.
    pub fn as_text(&self) -> (text: Option<&String>)
        ensures
            match text {
                Some(t) => self@.as_text() == Some(t@),
                None => self@.as_text() is None,
            },
    {
        match self {
            Json::Text(t) => Some(t),
            _ => None,
        }
    }

    /// The items of this value, where it is an array.
    pub fn as_array(&self) -> (items: Option<&Vec<Json>>)
        ensures
            match items {
                Some(list) => self@.as_array() == Some(items_view(list@)),
                None => self@.as_array() is None,
            },
    {
        match self {
            Json::Array(list) => {
                proof {
                    lemma_array_view(*list);
                }
                Some(list)
            },
            _ => None,
        }
    }

    /// The integer `n` as a JSON number.
    pub fn from_i64(n: i64) -> (json: Json)
        ensures
            json@ == JsonValue::of_i64(n),
    {
        if n >= 0 {
            Json::Unsigned(n as u64)
        } else {
            Json::Signed(n)
        }
    }

    /// The string `text` as a JSON value.
    pub fn from_text(text: &str) -> (json: Json)
        ensures
            json@ == JsonValue::Text(text@),
    {
        Json::Text(owned(text))
    }

    /// Reads a document from JSON text; `None` where the text is not one.
    pub fn parse(text: &str) -> (document: Option<Json>)
        ensures
            match document {
                Some(d) => json_parse(text@) == Some(d@),
                None => json_parse(text@) is None,
            },
    {
        match read_value(text) {
            Some(value) => Some(lift(&value)),
            None => None,
        }
    }

    /// Writes this document as compact JSON text; `None` where it holds a
    /// `Float` whose text is not a number, or cannot be written.
    pub fn to_text(&self) -> (text: Option<String>)
        ensures
            match text {
                Some(t) => json_print(self@) == Some(t@),
                None => json_print(self@) is None,
            },
    {
        match lower(self) {
            Some(value) => write_value(&value),
            None => None,
        }
    }

    /// A deep copy of this document.
    pub fn copy(&self) -> (same: Json)
        ensures
            same@ == self@,
        decreases self,
    {
        match self {
            Json::Null => Json::Null,
            Json::Bool(b) => Json::Bool(*b),
            Json::Unsigned(n) => Json::Unsigned(*n),
            Json::Signed(n) => Json::Signed(*n),
            Json::Float(t) => Json::Float(t.clone()),
            Json::Text(t) => Json::Text(t.clone()),
            Json::Array(items) => {
                let mut out: Vec<Json> = Vec::new();
                let mut i: usize = 0;
                while i < items.len()
                    invariant
                        i <= items.len(),
                        out.len() == i,
                        *self == Json::Array(*items),
                        forall|j: int| 0 <= j < i ==> out@[j]@ == items@[j]@,
                    decreases items.len() - i,
                {
                    proof {
                        assert(decreases_to!(*self => self->Array_0));
                        assert(decreases_to!(*items => items[i as int]));
                    }
                    out.push(items[i].copy());
                    i += 1;
                }
                proof {
                    lemma_array_view(*items);
                    lemma_array_view(out);
                    assert(items_view(out@) =~= items_view(items@));
                }
                Json::Array(out)
            },
            Json::Object(fields) => {
                let mut out: Vec<(String, Json)> = Vec::new();
                let mut i: usize = 0;
                while i < fields.len()
                    invariant
                        i <= fields.len(),
                        out.len() == i,
                        *self == Json::Object(*fields),
                        forall|j: int|
                            0 <= j < i ==> out@[j].0@ == fields@[j].0@ && out@[j].1@
                                == fields@[j].1@,
                    decreases fields.len() - i,
                {
                    proof {
                        assert(decreases_to!(*self => self->Object_0));
                        assert(decreases_to!(*fields => fields[i as int]));
                    }
                    out.push((fields[i].0.clone(), fields[i].1.copy()));
                    i += 1;
                }
                proof {
                    lemma_object_view(*fields);
                    lemma_object_view(out);
                    assert(fields_view(out@) =~= fields_view(fields@));
                }
                Json::Object(out)
            },
        }
    }
}

/// `serde_json::Value`, which is only passed between the functions below.
#[verifier::external_type_specification]
#[verifier::external_body]
pub struct ExValue(serde_json::Value);

/// The document that `serde_json` reads from `text`, `None` where it reads
/// none.
pub uninterp spec fn json_parse(text: Seq<char>) -> Option<JsonValue>;

/// The content of a `serde_json::Value`.
pub uninterp spec fn json_document(value: Value) -> JsonValue;

/// The content of the `serde_json::Value` that stands for `document`, `None`
/// where none does.
pub uninterp spec fn json_lowered(document: JsonValue) -> Option<JsonValue>;

/// The compact text that `serde_json` writes for a value of content
/// `document`, `None` where it writes none.
pub uninterp spec fn json_written(document: JsonValue) -> Option<Seq<char>>;

/// The compact JSON text of `document`, `None` where it has none.
pub open spec fn json_print(document: JsonValue) -> Option<Seq<char>> {
    match json_lowered(document) {
        Some(lowered) => json_written(lowered),
        None => None,
    }
}

/// `serde_json::from_str` at `serde_json::Value`. The parser keeps no state,
/// so what it reads depends on the text alone; the contract gives that result
/// its name and claims nothing else of it.
#[verifier::external_body]
fn read_value(text: &str) -> (value: Option<Value>)
    ensures
        match value {
            Some(v) => json_parse(text@) == Some(json_document(v)),
            None => json_parse(text@) is None,
        },
{
    serde_json::from_str::<Value>(text).ok()
}

/// Copies a `serde_json::Value` into a [`Json`], variant by variant. A number
/// goes by `Number::as_u64`, then `Number::as_i64`, else by its decimal text
/// (`Number::to_string`). The contract names the content of the value after
/// what comes out.
#[verifier::external_body]
fn lift(value: &Value) -> (json: Json)
    ensures
        json@ == json_document(*value),
{
    match value {
        Value::Null => Json::Null,
        Value::Bool(b) => Json::Bool(*b),
        Value::Number(n) => match (n.as_u64(), n.as_i64()) {
            (Some(u), _) => Json::Unsigned(u),
            (None, Some(i)) => Json::Signed(i),
            (None, None) => Json::Float(n.to_string()),
        },
        Value::String(s) => Json::Text(s.clone()),
        Value::Array(a) => Json::Array(a.iter().map(lift).collect()),
        Value::Object(m) => Json::Object(
            m.iter().map(|(k, v)| (k.clone(), lift(v))).collect(),
        ),
    }
}

/// Copies a [`Json`] into a `serde_json::Value`, variant by variant. The text
/// of a `Float` is read back by `Number::from_str`; where that fails there is
/// no value. The contract names the content of what comes out.
#[verifier::external_body]
fn lower(json: &Json) -> (value: Option<Value>)
    ensures
        match value {
            Some(v) => json_lowered(json@) == Some(json_document(v)),
            None => json_lowered(json@) is None,
        },
{
    Some(match json {
        Json::Null => Value::Null,
        Json::Bool(b) => Value::Bool(*b),
        Json::Unsigned(n) => Value::from(*n),
        Json::Signed(n) => Value::from(*n),
        Json::Float(t) => Value::Number(t.parse().ok()?),
        Json::Text(t) => Value::String(t.clone()),
        Json::Array(a) => Value::Array(a.iter().map(lower).collect::<Option<_>>()?),
        Json::Object(f) => Value::Object(
            f.iter().map(|(k, v)| Some((k.clone(), lower(v)?))).collect::<Option<_>>()?,
        ),
    })
}

/// `serde_json::to_string` on a `serde_json::Value`. The text depends on the
/// value alone; the contract gives it its name and claims nothing else of it.
#[verifier::external_body]
fn write_value(value: &Value) -> (text: Option<String>)
    ensures
        match text {
            Some(t) => json_written(json_document(*value)) == Some(t@),
            None => json_written(json_document(*value)) is None,
        },
{
    serde_json::to_string(value).ok()
}

} // verus!
