//! Reading the members of a wire object.
//!
//! Every message on the wire is a JSON object whose members have short keys.
//! The readers here fetch one member each and say exactly when they fail:
//! with `MissingField` where the object lacks the key, with `InvalidField`
//! where the member has the wrong shape.
use crate::json::{float_bits, member, member_of, value_model, Float64, JsonModel};
use vstd::prelude::*;

verus! {

/// Why a frame, or one message of a frame, could not be decoded.
#[derive(Debug, Clone, PartialEq, Eq)]
pub enum DecodeError {
    /// The frame is not a JSON text.
    InvalidJson,
    /// The frame is JSON but not an array.
    NotAnArray,
    /// The discriminant names no known message kind.
    UnknownTag(String),
    /// A required member is absent.
    MissingField(String),
    /// A member is present with the wrong shape.
    InvalidField(String),
}

/// The mathematical content of a [`DecodeError`].
pub ghost enum DecodeFault {
    InvalidJson,
    NotAnArray,
    UnknownTag(Seq<char>),
    MissingField(Seq<char>),
    InvalidField(Seq<char>),
}

impl View for DecodeError {
    type V = DecodeFault;

    open spec fn view(&self) -> DecodeFault {
        match self {
            DecodeError::InvalidJson => DecodeFault::InvalidJson,
            DecodeError::NotAnArray => DecodeFault::NotAnArray,
            DecodeError::UnknownTag(t) => DecodeFault::UnknownTag(t@),
            DecodeError::MissingField(k) => DecodeFault::MissingField(k@),
            DecodeError::InvalidField(k) => DecodeFault::InvalidField(k@),
        }
    }
}

/// The shapes a member can be asked to have.
pub ghost enum Shape {
    /// A string.
    Text,
    /// A number written as an integer within the range of `i64`.
    Integer,
    /// Any number.
    Float,
    /// A boolean.
    Flag,
    /// An array of strings.
    TextList,
}

/// Whether a tree has the given shape.
pub open spec fn conforms(x: JsonModel, shape: Shape) -> bool {
    match shape {
        Shape::Text => x is Str,
        Shape::Integer => x matches JsonModel::Number(n) && n.integer matches Some(i) && i64::MIN
            <= i <= i64::MAX,
        Shape::Float => x is Number,
        Shape::Flag => x is Bool,
        Shape::TextList => x matches JsonModel::Array(a) && forall|i: int|
            0 <= i < a.len() ==> #[trigger] a[i] is Str,
    }
}

/// The fault of a member that must be present with the given shape.
pub open spec fn required_fault(m: JsonModel, key: Seq<char>, shape: Shape) -> Option<DecodeFault> {
    match member_of(m, key) {
        None => Some(DecodeFault::MissingField(key)),
        Some(x) => if conforms(x, shape) {
            None
        } else {
            Some(DecodeFault::InvalidField(key))
        },
    }
}

/// The fault of a member that may be absent or `null`, and otherwise must
/// have the given shape.
pub open spec fn optional_fault(m: JsonModel, key: Seq<char>, shape: Shape) -> Option<DecodeFault> {
    match member_of(m, key) {
        None => None,
        Some(x) => if x is Null || conforms(x, shape) {
            None
        } else {
            Some(DecodeFault::InvalidField(key))
        },
    }
}

/// The fault of a member that may be absent, and otherwise must have the
/// given shape.
pub open spec fn defaulted_fault(m: JsonModel, key: Seq<char>, shape: Shape) -> Option<
    DecodeFault,
> {
    match member_of(m, key) {
        None => None,
        Some(x) => if conforms(x, shape) {
            None
        } else {
            Some(DecodeFault::InvalidField(key))
        },
    }
}

/// The first fault of two, in order.
pub open spec fn first_fault(a: Option<DecodeFault>, b: Option<DecodeFault>) -> Option<
    DecodeFault,
> {
    if a is Some {
        a
    } else {
        b
    }
}

/// The text of a string member.
pub open spec fn text_at(m: JsonModel, key: Seq<char>) -> Seq<char> {
    member_of(m, key).unwrap()->Str_0
}

/// The value of an integer member.
pub open spec fn integer_at(m: JsonModel, key: Seq<char>) -> i64 {
    member_of(m, key).unwrap()->Number_0.integer.unwrap() as i64
}

/// The bit pattern of a number member read as a double.
pub open spec fn float_at(m: JsonModel, key: Seq<char>) -> u64 {
    member_of(m, key).unwrap()->Number_0.float_bits
}

/// The strings of an array.
pub open spec fn texts_of(x: JsonModel) -> Seq<Seq<char>> {
    Seq::new(x->Array_0.len(), |i: int| x->Array_0[i]->Str_0)
}

/// The strings of an array member.
pub open spec fn texts_at(m: JsonModel, key: Seq<char>) -> Seq<Seq<char>> {
    texts_of(member_of(m, key).unwrap())
}

/// The strings of an array member, none where it is absent.
pub open spec fn texts_or_empty_at(m: JsonModel, key: Seq<char>) -> Seq<Seq<char>> {
    match member_of(m, key) {
        None => Seq::empty(),
        Some(x) => texts_of(x),
    }
}

/// The text of a string member, `None` where it is absent or `null`.
pub open spec fn optional_text_at(m: JsonModel, key: Seq<char>) -> Option<Seq<char>> {
    match member_of(m, key) {
        Some(JsonModel::Str(s)) => Some(s),
        _ => None,
    }
}

/// The value of an integer member, `None` where it is absent or `null`.
pub open spec fn optional_integer_at(m: JsonModel, key: Seq<char>) -> Option<i64> {
    match member_of(m, key) {
        Some(JsonModel::Number(n)) => Some(n.integer.unwrap() as i64),
        _ => None,
    }
}

/// The value of a boolean member, `None` where it is absent or `null`.
pub open spec fn optional_flag_at(m: JsonModel, key: Seq<char>) -> Option<bool> {
    match member_of(m, key) {
        Some(JsonModel::Bool(b)) => Some(b),
        _ => None,
    }
}

/// Fetches a member that must be present.
pub fn required<'a>(v: &'a serde_json::Value, key: &str) -> (r: Result<
    &'a serde_json::Value,
    DecodeError,
>)
    ensures
        match r {
            Ok(x) => member_of(value_model(*v), key@) == Some(value_model(*x)),
            Err(e) => member_of(value_model(*v), key@) is None && e@ == DecodeFault::MissingField(
                key@,
            ),
        },
{
    match member(v, key) {
        Some(x) => Ok(x),
        None => Err(DecodeError::MissingField(key.to_owned())),
    }
}

/// Reads a value that must be a string; `key` names it in the error.
pub fn text_of(x: &serde_json::Value, key: &str) -> (r: Result<String, DecodeError>)
    ensures
        match r {
            Ok(s) => conforms(value_model(*x), Shape::Text) && s@ == value_model(*x)->Str_0,
            Err(e) => !conforms(value_model(*x), Shape::Text) && e@ == DecodeFault::InvalidField(
                key@,
            ),
        },
{
    match x.as_str() {
        Some(s) => Ok(s.to_owned()),
        None => Err(DecodeError::InvalidField(key.to_owned())),
    }
}

/// Reads a value that must be an array of strings; `key` names it in the
/// error.
pub fn texts_in(x: &serde_json::Value, key: &str) -> (r: Result<Vec<String>, DecodeError>)
    ensures
        match r {
            Ok(list) => conforms(value_model(*x), Shape::TextList) && list.deep_view() == texts_of(
                value_model(*x),
            ),
            Err(e) => !conforms(value_model(*x), Shape::TextList) && e@
                == DecodeFault::InvalidField(key@),
        },
{
    match x.as_array() {
        None => Err(DecodeError::InvalidField(key.to_owned())),
        Some(items) => {
            let ghost a = value_model(*x)->Array_0;
            let mut list: Vec<String> = Vec::new();
            let mut i: usize = 0;
            while i < items.len()
                invariant
                    i <= items.len(),
                    value_model(*x) == JsonModel::Array(a),
                    crate::json::models_of(items@) == a,
                    list.len() == i,
                    forall|j: int| 0 <= j < i ==> #[trigger] a[j] is Str,
                    forall|j: int| 0 <= j < i ==> (#[trigger] list@[j])@ == a[j]->Str_0,
                decreases items.len() - i,
            {
                assert(value_model(items@[i as int]) == a[i as int]);
                match items[i].as_str() {
                    Some(s) => {
                        list.push(s.to_owned());
                    },
                    None => {
                        return Err(DecodeError::InvalidField(key.to_owned()));
                    },
                }
                i += 1;
            }
            assert(list.deep_view() =~= texts_of(value_model(*x)));
            Ok(list)
        },
    }
}

/// Reads a required string member.
pub fn read_text(v: &serde_json::Value, key: &str) -> (r: Result<String, DecodeError>)
    ensures
        match r {
            Ok(s) => required_fault(value_model(*v), key@, Shape::Text) is None && s@ == text_at(
                value_model(*v),
                key@,
            ),
            Err(e) => required_fault(value_model(*v), key@, Shape::Text) == Some(e@),
        },
{
    let x = required(v, key)?;
    text_of(x, key)
}

/// Reads a required integer member.
pub fn read_integer(v: &serde_json::Value, key: &str) -> (r: Result<i64, DecodeError>)
    ensures
        match r {
            Ok(n) => required_fault(value_model(*v), key@, Shape::Integer) is None && n
                == integer_at(value_model(*v), key@),
            Err(e) => required_fault(value_model(*v), key@, Shape::Integer) == Some(e@),
        },
{
    let x = required(v, key)?;
    match x.as_i64() {
        Some(n) => Ok(n),
        None => Err(DecodeError::InvalidField(key.to_owned())),
    }
}

/// Reads a required number member as a double.
pub fn read_float(v: &serde_json::Value, key: &str) -> (r: Result<Float64, DecodeError>)
    ensures
        match r {
            Ok(x) => required_fault(value_model(*v), key@, Shape::Float) is None && x.bits
                == float_at(value_model(*v), key@),
            Err(e) => required_fault(value_model(*v), key@, Shape::Float) == Some(e@),
        },
{
    let x = required(v, key)?;
    match float_bits(x) {
        Some(f) => Ok(f),
        None => Err(DecodeError::InvalidField(key.to_owned())),
    }
}

/// Reads a required member that is an array of strings.
pub fn read_texts(v: &serde_json::Value, key: &str) -> (r: Result<Vec<String>, DecodeError>)
    ensures
        match r {
            Ok(list) => required_fault(value_model(*v), key@, Shape::TextList) is None
                && list.deep_view() == texts_at(value_model(*v), key@),
            Err(e) => required_fault(value_model(*v), key@, Shape::TextList) == Some(e@),
        },
{
    let x = required(v, key)?;
    texts_in(x, key)
}

/// Reads an array of strings that is empty where the member is absent.
pub fn read_texts_or_empty(v: &serde_json::Value, key: &str) -> (r: Result<
    Vec<String>,
    DecodeError,
>)
    ensures
        match r {
            Ok(list) => defaulted_fault(value_model(*v), key@, Shape::TextList) is None
                && list.deep_view() == texts_or_empty_at(value_model(*v), key@),
            Err(e) => defaulted_fault(value_model(*v), key@, Shape::TextList) == Some(e@),
        },
{
    match member(v, key) {
        None => {
            let list: Vec<String> = Vec::new();
            assert(list.deep_view() =~= Seq::<Seq<char>>::empty());
            Ok(list)
        },
        Some(x) => texts_in(x, key),
    }
}

/// Reads a string member that may be absent or `null`.
pub fn read_optional_text(v: &serde_json::Value, key: &str) -> (r: Result<
    Option<String>,
    DecodeError,
>)
    ensures
        match r {
            Ok(s) => optional_fault(value_model(*v), key@, Shape::Text) is None && s.deep_view()
                == optional_text_at(value_model(*v), key@),
            Err(e) => optional_fault(value_model(*v), key@, Shape::Text) == Some(e@),
        },
{
    match member(v, key) {
        None => Ok(None),
        Some(x) => {
            if x.is_null() {
                Ok(None)
            } else {
                let s = text_of(x, key)?;
                Ok(Some(s))
            }
        },
    }
}

/// Reads an integer member that may be absent or `null`.
pub fn read_optional_integer(v: &serde_json::Value, key: &str) -> (r: Result<
    Option<i64>,
    DecodeError,
>)
    ensures
        match r {
            Ok(n) => optional_fault(value_model(*v), key@, Shape::Integer) is None && n
                == optional_integer_at(value_model(*v), key@),
            Err(e) => optional_fault(value_model(*v), key@, Shape::Integer) == Some(e@),
        },
{
    match member(v, key) {
        None => Ok(None),
        Some(x) => {
            if x.is_null() {
                Ok(None)
            } else {
                match x.as_i64() {
                    Some(n) => Ok(Some(n)),
                    None => Err(DecodeError::InvalidField(key.to_owned())),
                }
            }
        },
    }
}

/// Reads a boolean member that may be absent or `null`.
pub fn read_optional_flag(v: &serde_json::Value, key: &str) -> (r: Result<
    Option<bool>,
    DecodeError,
>)
    ensures
        match r {
            Ok(b) => optional_fault(value_model(*v), key@, Shape::Flag) is None && b
                == optional_flag_at(value_model(*v), key@),
            Err(e) => optional_fault(value_model(*v), key@, Shape::Flag) == Some(e@),
        },
{
    match member(v, key) {
        None => Ok(None),
        Some(x) => {
            if x.is_null() {
                Ok(None)
            } else {
                match x.as_bool() {
                    Some(b) => Ok(Some(b)),
                    None => Err(DecodeError::InvalidField(key.to_owned())),
                }
            }
        },
    }
}

} // verus!
