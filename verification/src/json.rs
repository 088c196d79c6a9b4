//! JSON values as the streaming client reads and writes them.
//!
//! Parsing and printing are done by `serde_json`. Verified code sees a
//! `serde_json::Value` only through [`value_model`], the mathematical tree it
//! stands for, and through the accessors specified here.
use vstd::prelude::*;

verus! {

/// What can be observed of a JSON number: its integer value, if it was
/// written as an integer that fits 64 bits, and the IEEE-754 double nearest
/// to it, given by its bit pattern.
pub ghost struct JsonNumber {
    pub integer: Option<int>,
    pub float_bits: u64,
}

/// The mathematical content of a JSON document.
pub ghost enum JsonModel {
    Null,
    Bool(bool),
    Number(JsonNumber),
    Str(Seq<char>),
    Array(Seq<JsonModel>),
    Object(Map<Seq<char>, JsonModel>),
}

/// A double-precision number carried by its IEEE-754 bit pattern, so that
/// it passes through integer-only code unchanged.
#[derive(Clone, Copy, Debug)]
pub struct Float64 {
    pub bits: u64,
}

/// `serde_json::Value`, a JSON value. Nothing is known of what is inside but
/// what the accessors below say.
#[verifier::external_type_specification]
#[verifier::external_body]
pub struct ExValue(serde_json::Value);

/// `serde_json::Error`, the parser's complaint. It is only passed on.
#[verifier::external_type_specification]
#[verifier::external_body]
pub struct ExJsonError(serde_json::Error);

/// The tree that a `serde_json::Value` holds.
pub uninterp spec fn value_model(v: serde_json::Value) -> JsonModel;

/// The tree that `serde_json::from_str` reads from a text, or `None` where it
/// reports an error.
pub uninterp spec fn parsed_json(text: Seq<char>) -> Option<JsonModel>;

/// The compact text that `serde_json` prints for a tree.
pub uninterp spec fn json_text(m: JsonModel) -> Seq<char>;

/// The trees held by a sequence of values, in order.
pub open spec fn models_of(items: Seq<serde_json::Value>) -> Seq<JsonModel> {
    Seq::new(items.len(), |i: int| value_model(items[i]))
}

/// The member of an object under a key, if the tree is an object that has it.
pub open spec fn member_of(m: JsonModel, key: Seq<char>) -> Option<JsonModel> {
    if m is Object && m->Object_0.contains_key(key) {
        Some(m->Object_0[key])
    } else {
        None
    }
}

/// Whether no key occurs twice among the entries.
pub open spec fn distinct_keys(entries: Seq<(Seq<char>, JsonModel)>) -> bool {
    forall|i: int, j: int|
        0 <= i < j < entries.len() ==> (#[trigger] entries[i]).0 != (#[trigger] entries[j]).0
}

/// The object that holds the entries, built by inserting them in order.
pub open spec fn object_of(entries: Seq<(Seq<char>, JsonModel)>) -> Map<Seq<char>, JsonModel>
    decreases entries.len(),
{
    if entries.len() == 0 {
        Map::empty()
    } else {
        object_of(entries.drop_last()).insert(entries.last().0, entries.last().1)
    }
}

/// The keys and trees of a list of owned entries.
pub open spec fn entry_models(entries: Seq<(String, serde_json::Value)>) -> Seq<
    (Seq<char>, JsonModel),
> {
    Seq::new(entries.len(), |i: int| (entries[i].0@, value_model(entries[i].1)))
}

/// An array of strings.
pub open spec fn string_array(items: Seq<Seq<char>>) -> JsonModel {
    JsonModel::Array(Seq::new(items.len(), |i: int| JsonModel::Str(items[i])))
}

/// `Value::as_str`: the text of a string value, `None` for every other kind.
pub assume_specification<'a>[ serde_json::Value::as_str ](v: &'a serde_json::Value) -> (r: Option<
    &'a str,
>)
    ensures
        r is Some <==> value_model(*v) is Str,
        r matches Some(s) ==> s@ == value_model(*v)->Str_0,
;

/// `Value::as_array`: the elements of an array value, `None` for every other
/// kind.
pub assume_specification<'a>[ serde_json::Value::as_array ](v: &'a serde_json::Value) -> (r: Option<
    &'a Vec<serde_json::Value>,
>)
    ensures
        r is Some <==> value_model(*v) is Array,
        r matches Some(items) ==> models_of(items@) == value_model(*v)->Array_0,
;

/// `Value::as_i64`: the value of a number written as an integer within the
/// range of `i64`; `None` for other numbers and other kinds.
pub assume_specification[ serde_json::Value::as_i64 ](v: &serde_json::Value) -> (r: Option<i64>)
    ensures
        r is Some <==> (value_model(*v) matches JsonModel::Number(n) && n.integer matches Some(i)
            && i64::MIN <= i <= i64::MAX),
        r matches Some(x) ==> value_model(*v)->Number_0.integer == Some(x as int),
;

/// `Value::as_bool`: the value of a boolean, `None` for every other kind.
pub assume_specification[ serde_json::Value::as_bool ](v: &serde_json::Value) -> (r: Option<bool>)
    ensures
        r is Some <==> value_model(*v) is Bool,
        r matches Some(b) ==> b == value_model(*v)->Bool_0,
;

/// `Value::is_null`: whether the value is `null`.
pub assume_specification[ serde_json::Value::is_null ](v: &serde_json::Value) -> (r: bool)
    ensures
        r == (value_model(*v) is Null),
;

/// `serde_json::from_str` at `Value`: succeeds exactly on the texts that
/// [`parsed_json`] maps to a tree, and returns a value holding that tree.
#[verifier::external_body]
pub(crate) fn parse_value(text: &str) -> (r: Result<serde_json::Value, serde_json::Error>)
    ensures
        r is Ok <==> parsed_json(text@) is Some,
        r matches Ok(v) ==> parsed_json(text@) == Some(value_model(v)),
{
    serde_json::from_str::<serde_json::Value>(text)
}

/// `Value::get` with a string key: the member under that key where the value
/// is an object that has it, `None` otherwise.
#[verifier::external_body]
pub(crate) fn member<'a>(v: &'a serde_json::Value, key: &str) -> (r: Option<&'a serde_json::Value>)
    ensures
        r is Some <==> member_of(value_model(*v), key@) is Some,
        r matches Some(x) ==> member_of(value_model(*v), key@) == Some(value_model(*x)),
{
    v.get(key)
}

/// `Value::as_f64`: for every number, the double nearest to it, here as its
/// bit pattern; `None` for every other kind.
#[verifier::external_body]
pub(crate) fn float_bits(v: &serde_json::Value) -> (r: Option<Float64>)
    ensures
        r is Some <==> value_model(*v) is Number,
        r matches Some(x) ==> x.bits == value_model(*v)->Number_0.float_bits,
{
    v.as_f64().map(|x| Float64 { bits: x.to_bits() })
}

/// `Value::from` on a `String`: a string value with that text.
#[verifier::external_body]
pub(crate) fn json_string(s: String) -> (r: serde_json::Value)
    ensures
        value_model(r) == JsonModel::Str(s@),
{
    serde_json::Value::from(s)
}

/// `Value::from` on a `Vec<String>`: an array of string values, in order.
#[verifier::external_body]
pub(crate) fn json_strings(items: Vec<String>) -> (r: serde_json::Value)
    ensures
        value_model(r) == string_array(items.deep_view()),
{
    serde_json::Value::from(items)
}

/// `Value::Object` over a map collected from the entries: always an object;
/// where no key occurs twice, the object that holds exactly the entries.
#[verifier::external_body]
pub(crate) fn json_object(entries: Vec<(String, serde_json::Value)>) -> (r: serde_json::Value)
    ensures
        value_model(r) is Object,
        distinct_keys(entry_models(entries@)) ==> value_model(r) == JsonModel::Object(
            object_of(entry_models(entries@)),
        ),
{
    serde_json::Value::Object(entries.into_iter().collect())
}

/// `Value`'s `to_string`: the compact text of the tree it holds.
#[verifier::external_body]
pub(crate) fn render(v: &serde_json::Value) -> (r: String)
    ensures
        r@ == json_text(value_model(*v)),
{
    v.to_string()
}

} // verus!
