//! Loosely typed operand values and narrowing accessors.
use vstd::prelude::*;

verus! {

/// A numeric operand, kept in the form in which it was written.
/// `Real` holds the IEEE-754 single-precision bit pattern of the value.
#[derive(Clone, Copy, Debug, PartialEq, Eq, Structural)]
pub enum Number {
    Integer(i64),
    Real(u32),
}

/// An operand as the content tokenizer hands it over.
#[derive(Debug)]
pub enum RawValue {
    Null,
    Boolean(bool),
    Integer(i64),
    Real(u32),
    Name(Vec<u8>),
    StringLiteral(Vec<u8>),
    Array(Vec<RawValue>),
    Dictionary,
    Stream,
    Reference(u32, u16),
}

/// The number a value stands for, if it is numeric.
pub open spec fn number_of(v: RawValue) -> Option<Number> {
    match v {
        RawValue::Integer(i) => Some(Number::Integer(i)),
        RawValue::Real(bits) => Some(Number::Real(bits)),
        _ => None,
    }
}

/// The number held by the operand at position `i`, if there is one.
pub open spec fn number_at(args: Seq<RawValue>, i: int) -> Option<Number> {
    if 0 <= i < args.len() {
        number_of(args[i])
    } else {
        None
    }
}

/// Narrows a value to a number; integers and reals both qualify.
pub fn as_number(v: &RawValue) -> (r: Option<Number>)
    ensures
        r == number_of(*v),
{
    match v {
        RawValue::Integer(i) => Some(Number::Integer(*i)),
        RawValue::Real(bits) => Some(Number::Real(*bits)),
        _ => None,
    }
}

/// Narrows a value to the bytes of a name.
pub fn as_name(v: &RawValue) -> (r: Option<&Vec<u8>>)
    ensures
        match *v {
            RawValue::Name(n) => r == Some(&n),
            _ => r is None,
        },
{
    match v {
        RawValue::Name(n) => Some(n),
        _ => None,
    }
}

/// Narrows a value to the bytes of a string literal.
pub fn as_string(v: &RawValue) -> (r: Option<&Vec<u8>>)
    ensures
        match *v {
            RawValue::StringLiteral(s) => r == Some(&s),
            _ => r is None,
        },
{
    match v {
        RawValue::StringLiteral(s) => Some(s),
        _ => None,
    }
}

/// Narrows a value to the items of an array.
pub fn as_array(v: &RawValue) -> (r: Option<&Vec<RawValue>>)
    ensures
        match *v {
            RawValue::Array(a) => r == Some(&a),
            _ => r is None,
        },
{
    match v {
        RawValue::Array(a) => Some(a),
        _ => None,
    }
}

} // verus!
