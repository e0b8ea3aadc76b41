use vstd::prelude::*;

verus! {

/// A JSON number as the decoder receives it.
///
/// `PosInt` holds a non-negative integer, `NegInt` a negative one, and
/// `Float` the IEEE-754 bit pattern of a number with a fraction or an
/// exponent.
#[derive(Clone, Copy, Debug, PartialEq, Eq)]
pub enum JsonNumber {
    PosInt(u64),
    NegInt(i64),
    Float(u64),
}

/// A JSON document: the structured payload carried by a webhook event.
///
/// An object is the list of its entries in document order.
#[derive(Debug)]
pub enum JsonValue {
    Null,
    Bool(bool),
    Number(JsonNumber),
    String(String),
    Array(Vec<JsonValue>),
    Object(Vec<(String, JsonValue)>),
}

} // verus!
