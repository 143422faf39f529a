//! A JSON document as a value of this crate.
use serde_json::Value;
use vstd::prelude::*;
use vstd::string::*;
use crate::text::same;

verus! {

/// A JSON number: a natural number, a negative integer, or any other number
/// kept as the decimal text it was written with.
#[derive(Debug)]
pub enum JsonNumber {
    Unsigned(u64),
    Negative(i64),
    Real(String),
}

#[derive(Debug)]
pub enum JsonValue {
    Null,
    Bool(bool),
    Number(JsonNumber),
    Text(String),
    Array(Vec<JsonValue>),
    Object(Vec<(String, JsonValue)>),
}

pub enum NumberModel {
    Unsigned(u64),
    Negative(i64),
    Real(Seq<char>),
}

/// What a JSON value holds: texts as character sequences, arrays and objects
/// as sequences of what their items hold, an object's members in order.
pub enum JsonModel {
    Null,
    Bool(bool),
    Number(NumberModel),
    Text(Seq<char>),
    Array(Seq<JsonModel>),
    Object(Seq<(Seq<char>, JsonModel)>),
}

impl DeepView for JsonNumber {
    type V = NumberModel;

    open spec fn deep_view(&self) -> NumberModel {
        match self {
            JsonNumber::Unsigned(n) => NumberModel::Unsigned(*n),
            JsonNumber::Negative(n) => NumberModel::Negative(*n),
            JsonNumber::Real(t) => NumberModel::Real(t@),
        }
    }
}

/// What a value holds.
pub open spec fn model_of(v: JsonValue) -> JsonModel
    decreases v,
{
    match v {
        JsonValue::Null => JsonModel::Null,
        JsonValue::Bool(b) => JsonModel::Bool(b),
        JsonValue::Number(n) => JsonModel::Number(n.deep_view()),
        JsonValue::Text(t) => JsonModel::Text(t@),
        JsonValue::Array(items) => JsonModel::Array(
            Seq::new(
                items@.len(),
                |i: int|
                    if 0 <= i < items@.len() {
                        model_of(items@[i])
                    } else {
                        JsonModel::Null
                    },
            ),
        ),
        JsonValue::Object(members) => JsonModel::Object(
            Seq::new(
                members@.len(),
                |i: int|
                    if 0 <= i < members@.len() {
                        (members@[i].0@, model_of(members@[i].1))
                    } else {
                        (Seq::empty(), JsonModel::Null)
                    },
            ),
        ),
    }
}

impl DeepView for JsonValue {
    type V = JsonModel;

    open spec fn deep_view(&self) -> JsonModel {
        model_of(*self)
    }
}

// ---------------------------------------------------------------------------
// What a model holds
// ---------------------------------------------------------------------------

/// The first member named `key` among `members[from..]`.
pub open spec fn member_from(members: Seq<(Seq<char>, JsonModel)>, key: Seq<char>, from: int) -> Option<
    JsonModel,
>
    decreases members.len() - from,
{
    if from < 0 || from >= members.len() {
        None
    } else if members[from].0 == key {
        Some(members[from].1)
    } else {
        member_from(members, key, from + 1)
    }
}

/// The member named `key` of an object; nothing for any other value.
pub open spec fn member(m: JsonModel, key: Seq<char>) -> Option<JsonModel> {
    match m {
        JsonModel::Object(members) => member_from(members, key, 0),
        _ => None,
    }
}

/// The text that a value is, where it is one.
pub open spec fn text_value(m: JsonModel) -> Option<Seq<char>> {
    match m {
        JsonModel::Text(t) => Some(t),
        _ => None,
    }
}

/// The natural number that a value is, where it is one.
pub open spec fn natural_value(m: JsonModel) -> Option<u64> {
    match m {
        JsonModel::Number(NumberModel::Unsigned(n)) => Some(n),
        _ => None,
    }
}

/// The truth value that a value is, where it is one.
pub open spec fn bool_value(m: JsonModel) -> Option<bool> {
    match m {
        JsonModel::Bool(b) => Some(b),
        _ => None,
    }
}

/// The items of an array; nothing for any other value.
pub open spec fn items_of(m: JsonModel) -> Option<Seq<JsonModel>> {
    match m {
        JsonModel::Array(items) => Some(items),
        _ => None,
    }
}

/// The texts among the items of a list, in order; items that are no text are
/// passed over.
pub open spec fn texts_among(items: Seq<JsonModel>) -> Seq<Seq<char>>
    decreases items.len(),
{
    if items.len() == 0 {
        Seq::empty()
    } else {
        match items.last() {
            JsonModel::Text(t) => texts_among(items.drop_last()).push(t),
            _ => texts_among(items.drop_last()),
        }
    }
}

/// The member `key` of an optional payload.
pub open spec fn field(payload: Option<JsonModel>, key: Seq<char>) -> Option<JsonModel> {
    match payload {
        Some(m) => member(m, key),
        None => None,
    }
}

/// The text under `key`, where the payload has one.
pub open spec fn text_field(payload: Option<JsonModel>, key: Seq<char>) -> Option<Seq<char>> {
    match field(payload, key) {
        Some(m) => text_value(m),
        None => None,
    }
}

/// The text under `key`, or the empty text.
pub open spec fn text_field_or_empty(payload: Option<JsonModel>, key: Seq<char>) -> Seq<char> {
    match text_field(payload, key) {
        Some(t) => t,
        None => Seq::empty(),
    }
}

/// The natural number under `key`, or `default`.
pub open spec fn natural_field_or(payload: Option<JsonModel>, key: Seq<char>, default: u64) -> u64 {
    match field(payload, key) {
        Some(JsonModel::Number(NumberModel::Unsigned(n))) => n,
        _ => default,
    }
}

/// The truth value under `key`, or `default`.
pub open spec fn bool_field_or(payload: Option<JsonModel>, key: Seq<char>, default: bool) -> bool {
    match field(payload, key) {
        Some(JsonModel::Bool(b)) => b,
        _ => default,
    }
}

/// The texts of the array under `key`; empty where there is no array.
pub open spec fn text_list_field(payload: Option<JsonModel>, key: Seq<char>) -> Seq<Seq<char>> {
    match field(payload, key) {
        Some(JsonModel::Array(items)) => texts_among(items),
        _ => Seq::empty(),
    }
}

/// What an array holds is what its items hold.
pub proof fn array_model(v: JsonValue)
    requires
        v is Array,
    ensures
        v.deep_view() == JsonModel::Array(v->Array_0.deep_view()),
{
    let items = v->Array_0;
    assert(v.deep_view()->Array_0 =~= items.deep_view());
}

/// What an object holds is, member by member, the name and what the value
/// holds.
pub proof fn object_model(v: JsonValue)
    requires
        v is Object,
    ensures
        v.deep_view() is Object,
        v.deep_view()->Object_0.len() == v->Object_0@.len(),
        forall|i: int|
            0 <= i < v->Object_0@.len() ==> (#[trigger] v.deep_view()->Object_0[i]) == (
                v->Object_0@[i].0@,
                v->Object_0@[i].1.deep_view(),
            ),
{
}

// ---------------------------------------------------------------------------
// Reading a value
// ---------------------------------------------------------------------------

impl JsonValue {
    /// The member named `key`, where the value is an object that has one.
    #[verifier::loop_isolation(false)]
    pub fn get(&self, key: &str) -> (r: Option<&JsonValue>)
        ensures
            r.deep_view() == member(self.deep_view(), key@),
    {
        match self {
            JsonValue::Object(members) => {
                let ghost model = self.deep_view()->Object_0;
                proof {
                    object_model(*self);
                }
                let mut i: usize = 0;
                while i < members.len()
                    invariant
                        i <= members.len(),
                        member_from(model, key@, 0) == member_from(model, key@, i as int),
                    decreases members.len() - i,
                {
                    if same(members[i].0.as_str(), key) {
                        return Some(&members[i].1);
                    }
                    i += 1;
                }
                None
            },
            _ => None,
        }
    }

    pub fn as_text(&self) -> (r: Option<&str>)
        ensures
            r.deep_view() == text_value(self.deep_view()),
    {
        match self {
            JsonValue::Text(t) => Some(t.as_str()),
            _ => None,
        }
    }

    pub fn as_natural(&self) -> (r: Option<u64>)
        ensures
            r == natural_value(self.deep_view()),
    {
        match self {
            JsonValue::Number(JsonNumber::Unsigned(n)) => Some(*n),
            _ => None,
        }
    }

    pub fn as_bool(&self) -> (r: Option<bool>)
        ensures
            r == bool_value(self.deep_view()),
    {
        match self {
            JsonValue::Bool(b) => Some(*b),
            _ => None,
        }
    }

    pub fn as_array(&self) -> (r: Option<&Vec<JsonValue>>)
        ensures
            r.deep_view() == items_of(self.deep_view()),
    {
        match self {
            JsonValue::Array(items) => {
                proof {
                    array_model(*self);
                }
                Some(items)
            },
            _ => None,
        }
    }

    pub fn is_object(&self) -> (r: bool)
        ensures
            r == (self.deep_view() is Object),
    {
        match self {
            JsonValue::Object(_) => true,
            _ => false,
        }
    }
}

/// The texts among the items of a list.
#[verifier::loop_isolation(false)]
pub fn texts_in(items: &Vec<JsonValue>) -> (r: Vec<String>)
    ensures
        r.deep_view() == texts_among(items.deep_view()),
{
    let mut out: Vec<String> = Vec::new();
    let mut i: usize = 0;
    assert(items.deep_view().take(0) =~= Seq::empty());
    while i < items.len()
        invariant
            i <= items.len(),
            out.deep_view() == texts_among(items.deep_view().take(i as int)),
        decreases items.len() - i,
    {
        proof {
            let next = items.deep_view().take(i + 1);
            assert(next.drop_last() == items.deep_view().take(i as int));
            assert(next.last() == items[i as int].deep_view());
        }
        let ghost before = out.deep_view();
        match &items[i] {
            JsonValue::Text(t) => {
                out.push(t.clone());
                assert(out.deep_view() =~= before.push(t@));
            },
            _ => {},
        }
        i += 1;
    }
    assert(items.deep_view().take(items.len() as int) == items.deep_view());
    out
}

/// The member `key` of an optional payload.
pub fn field_of<'a>(payload: &'a Option<JsonValue>, key: &str) -> (r: Option<&'a JsonValue>)
    ensures
        r.deep_view() == field(payload.deep_view(), key@),
{
    match payload {
        Some(v) => v.get(key),
        None => None,
    }
}

/// The text under `key`, where the payload has one.
pub fn text_arg(payload: &Option<JsonValue>, key: &str) -> (r: Option<String>)
    ensures
        r.deep_view() == text_field(payload.deep_view(), key@),
{
    match field_of(payload, key) {
        Some(v) => match v.as_text() {
            Some(t) => Some(t.to_owned()),
            None => None,
        },
        None => None,
    }
}

/// The text under `key`, or the empty text.
pub fn text_arg_or_empty(payload: &Option<JsonValue>, key: &str) -> (r: String)
    ensures
        r@ == text_field_or_empty(payload.deep_view(), key@),
{
    match text_arg(payload, key) {
        Some(t) => t,
        None => String::new(),
    }
}

/// The natural number under `key`, or `default`.
pub fn natural_arg_or(payload: &Option<JsonValue>, key: &str, default: u64) -> (r: u64)
    ensures
        r == natural_field_or(payload.deep_view(), key@, default),
{
    match field_of(payload, key) {
        Some(v) => match v.as_natural() {
            Some(n) => n,
            None => default,
        },
        None => default,
    }
}

/// The truth value under `key`, or `default`.
pub fn bool_arg_or(payload: &Option<JsonValue>, key: &str, default: bool) -> (r: bool)
    ensures
        r == bool_field_or(payload.deep_view(), key@, default),
{
    match field_of(payload, key) {
        Some(v) => match v.as_bool() {
            Some(b) => b,
            None => default,
        },
        None => default,
    }
}

/// The texts of the array under `key`; empty where there is no array.
pub fn text_list_arg(payload: &Option<JsonValue>, key: &str) -> (r: Vec<String>)
    ensures
        r.deep_view() == text_list_field(payload.deep_view(), key@),
{
    match field_of(payload, key) {
        Some(v) => match v.as_array() {
            Some(items) => texts_in(items),
            None => Vec::new(),
        },
        None => Vec::new(),
    }
}


/// The text under `key` of a value, or the empty text.
pub fn text_member_or_empty(value: &JsonValue, key: &str) -> (r: String)
    ensures
        r@ == text_field_or_empty(Some(value.deep_view()), key@),
{
    match value.get(key) {
        Some(v) => match v.as_text() {
            Some(t) => t.to_owned(),
            None => String::new(),
        },
        None => String::new(),
    }
}

/// The texts of the array under `key` of a value; empty where there is no
/// array.
pub fn text_list_member(value: &JsonValue, key: &str) -> (r: Vec<String>)
    ensures
        r.deep_view() == text_list_field(Some(value.deep_view()), key@),
{
    match value.get(key) {
        Some(v) => match v.as_array() {
            Some(items) => texts_in(items),
            None => Vec::new(),
        },
        None => Vec::new(),
    }
}

// ---------------------------------------------------------------------------
// Making a value
// ---------------------------------------------------------------------------

impl JsonValue {
    /// The text `s` as a value.
    pub fn text(s: &str) -> (r: JsonValue)
        ensures
            r.deep_view() == JsonModel::Text(s@),
    {
        JsonValue::Text(s.to_owned())
    }

    /// The natural number `n` as a value.
    pub fn natural(n: u64) -> (r: JsonValue)
        ensures
            r.deep_view() == JsonModel::Number(NumberModel::Unsigned(n)),
    {
        JsonValue::Number(JsonNumber::Unsigned(n))
    }

    /// The array of the items.
    pub fn array(items: Vec<JsonValue>) -> (r: JsonValue)
        ensures
            r.deep_view() == JsonModel::Array(items.deep_view()),
    {
        let r = JsonValue::Array(items);
        proof {
            array_model(r);
        }
        r
    }

    /// The object of the members.
    pub fn object(members: Vec<(String, JsonValue)>) -> (r: JsonValue)
        ensures
            r.deep_view() == JsonModel::Object(members.deep_view()),
    {
        let r = JsonValue::Object(members);
        proof {
            object_model(r);
            assert(r.deep_view()->Object_0 =~= members.deep_view());
        }
        r
    }

    /// The member of an object that has `name` and `value`.
    pub fn member(name: &str, value: JsonValue) -> (r: (String, JsonValue))
        ensures
            r.deep_view() == (name@, value.deep_view()),
    {
        (name.to_owned(), value)
    }

    /// The object with one more member at its end; any other value as it is.
    pub fn with(self, name: &str, value: JsonValue) -> (r: JsonValue)
        ensures
            r.deep_view() == with_member(self.deep_view(), name@, value.deep_view()),
    {
        match self {
            JsonValue::Object(members) => {
                proof {
                    object_model(self);
                }
                let ghost before = self.deep_view()->Object_0;
                let mut members = members;
                members.push((name.to_owned(), value));
                let r = JsonValue::Object(members);
                proof {
                    object_model(r);
                    assert(r.deep_view()->Object_0 =~= before.push((name@, value.deep_view())));
                }
                r
            },
            other => other,
        }
    }

    /// The array with one more item at its end; any other value as it is.
    pub fn and(self, item: JsonValue) -> (r: JsonValue)
        ensures
            r.deep_view() == with_item(self.deep_view(), item.deep_view()),
    {
        match self {
            JsonValue::Array(items) => {
                proof {
                    array_model(self);
                }
                let ghost before = self.deep_view()->Array_0;
                let mut items = items;
                items.push(item);
                let r = JsonValue::Array(items);
                proof {
                    array_model(r);
                    assert(r.deep_view()->Array_0 =~= before.push(item.deep_view()));
                }
                r
            },
            other => other,
        }
    }

    /// The object without members.
    pub fn empty_object() -> (r: JsonValue)
        ensures
            r.deep_view() == JsonModel::Object(Seq::empty()),
    {
        let members: Vec<(String, JsonValue)> = Vec::new();
        assert(members.deep_view() =~= Seq::empty());
        JsonValue::object(members)
    }

    /// The array without items.
    pub fn empty_array() -> (r: JsonValue)
        ensures
            r.deep_view() == JsonModel::Array(Seq::empty()),
    {
        let items: Vec<JsonValue> = Vec::new();
        assert(items.deep_view() =~= Seq::empty());
        JsonValue::array(items)
    }
}

/// The object with one more member at its end; any other value as it is.
pub open spec fn with_member(value: JsonModel, name: Seq<char>, member: JsonModel) -> JsonModel {
    match value {
        JsonModel::Object(members) => JsonModel::Object(members.push((name, member))),
        other => other,
    }
}

/// The array with one more item at its end; any other value as it is.
pub open spec fn with_item(value: JsonModel, item: JsonModel) -> JsonModel {
    match value {
        JsonModel::Array(items) => JsonModel::Array(items.push(item)),
        other => other,
    }
}

// ---------------------------------------------------------------------------
// Copies
// ---------------------------------------------------------------------------

impl Clone for JsonNumber {
    fn clone(&self) -> (r: Self)
        ensures
            r.deep_view() == self.deep_view(),
    {
        match self {
            JsonNumber::Unsigned(n) => JsonNumber::Unsigned(*n),
            JsonNumber::Negative(n) => JsonNumber::Negative(*n),
            JsonNumber::Real(t) => JsonNumber::Real(t.clone()),
        }
    }
}

impl Clone for JsonValue {
    fn clone(&self) -> (r: Self)
        ensures
            r.deep_view() == self.deep_view(),
        decreases self,
    {
        match self {
            JsonValue::Null => JsonValue::Null,
            JsonValue::Bool(b) => JsonValue::Bool(*b),
            JsonValue::Number(n) => JsonValue::Number(n.clone()),
            JsonValue::Text(t) => JsonValue::Text(t.clone()),
            JsonValue::Array(items) => {
                let mut out: Vec<JsonValue> = Vec::new();
                let mut i: usize = 0;
                while i < items.len()
                    invariant
                        i <= items.len(),
                        decreases_to!(*self => *items),
                        out@.len() == i,
                        forall|j: int| 0 <= j < i ==> model_of(out@[j]) == model_of(items@[j]),
                    decreases items.len() - i,
                {
                    proof {
                        vstd::std_specs::vec::axiom_vec_index_decreases(*items, i as int);
                    }
                    out.push(items[i].clone());
                    i += 1;
                }
                let r = JsonValue::Array(out);
                assert(r.deep_view()->Array_0 =~= self.deep_view()->Array_0);
                r
            },
            JsonValue::Object(members) => {
                let mut out: Vec<(String, JsonValue)> = Vec::new();
                let mut i: usize = 0;
                while i < members.len()
                    invariant
                        i <= members.len(),
                        decreases_to!(*self => *members),
                        out@.len() == i,
                        forall|j: int|
                            0 <= j < i ==> out@[j].0@ == members@[j].0@ && model_of(out@[j].1)
                                == model_of(members@[j].1),
                    decreases members.len() - i,
                {
                    proof {
                        vstd::std_specs::vec::axiom_vec_index_decreases(*members, i as int);
                    }
                    out.push((members[i].0.clone(), members[i].1.clone()));
                    i += 1;
                }
                let r = JsonValue::Object(out);
                assert(r.deep_view()->Object_0 =~= self.deep_view()->Object_0);
                r
            },
        }
    }
}

// ---------------------------------------------------------------------------
// Reading JSON text
// ---------------------------------------------------------------------------

#[verifier::external_type_specification]
#[verifier::external_body]
pub struct ExValue(Value);

#[verifier::external_type_specification]
#[verifier::external_body]
pub struct ExError(serde_json::Error);

/// What `serde_json::from_str` makes of a text: the document it holds, or
/// nothing where the text is no JSON document.
pub uninterp spec fn document_of(text: Seq<char>) -> Option<JsonModel>;

/// What a `serde_json::Value` holds, variant by variant: an object's members
/// in the order in which its map hands them out.
pub uninterp spec fn outside_model(v: Value) -> JsonModel;

/// Calls `serde_json::from_str` for a `Value`. The outcome depends on the
/// text alone: a value when the text is a JSON document, an error otherwise.
#[verifier::external_body]
fn read_value(text: &str) -> (r: Result<Value, serde_json::Error>)
    ensures
        match r {
            Ok(v) => document_of(text@) == Some(outside_model(v)),
            Err(_) => document_of(text@) is None,
        },
{
    serde_json::from_str::<Value>(text)
}

/// Turns a `serde_json::Value` into a value of this crate, variant by
/// variant; a number through `Number::as_u64`, `Number::as_i64` and, for any
/// other, its `to_string`.
#[verifier::external_body]
fn from_outside(v: &Value) -> (r: JsonValue)
    ensures
        r.deep_view() == outside_model(*v),
{
    match v {
        Value::Null => JsonValue::Null,
        Value::Bool(b) => JsonValue::Bool(*b),
        Value::Number(n) => JsonValue::Number(match (n.as_u64(), n.as_i64()) {
            (Some(u), _) => JsonNumber::Unsigned(u),
            (_, Some(i)) => JsonNumber::Negative(i),
            _ => JsonNumber::Real(n.to_string()),
        }),
        Value::String(s) => JsonValue::Text(s.clone()),
        Value::Array(a) => JsonValue::Array(a.iter().map(from_outside).collect()),
        Value::Object(o) => JsonValue::Object(
            o.iter().map(|(k, v)| (k.clone(), from_outside(v))).collect()),
    }
}

/// The message of a `serde_json::Error`, as its `Display` gives it.
#[verifier::external_body]
fn error_text(e: &serde_json::Error) -> String {
    e.to_string()
}

impl JsonValue {
    /// Reads a JSON document: the value it holds, or the parser's message
    /// where the text is no JSON document.
    pub fn parse(text: &str) -> (r: Result<JsonValue, String>)
        ensures
            match r {
                Ok(v) => document_of(text@) == Some(v.deep_view()),
                Err(_) => document_of(text@) is None,
            },
    {
        match read_value(text) {
            Ok(v) => Ok(from_outside(&v)),
            Err(e) => Err(error_text(&e)),
        }
    }
}

} // verus!
