//! The serde data model as a value: what a `Serialize` implementation hands a serializer.
//!
//! The serializers of this crate ([`crate::quadlet_ser`], [`crate::args_ser`],
//! [`crate::mount_options`]) are functions of a [`Value`]. Values that serde writes through
//! `Display` (floats, `collect_str`) are [`Value::Str`] holding that text.

use vstd::prelude::*;

use crate::num::{decimal, signed_decimal, write_decimal, write_signed_decimal};
use crate::text::{push_char, push_str};

verus! {

/// A field of a struct: its (serialized) name and its value.
pub struct Field {
    pub key: String,
    pub value: Value,
}

/// One value of the serde data model.
pub enum Value {
    Bool(bool),
    Signed(i128),
    Unsigned(u128),
    Char(char),
    Str(String),
    Bytes(Vec<u8>),
    OptionNone,
    OptionSome(Box<Value>),
    Unit,
    UnitStruct(String),
    UnitVariant { name: String, variant: String },
    NewtypeStruct { name: String, value: Box<Value> },
    NewtypeVariant { name: String, variant: String, value: Box<Value> },
    SeqOf(Vec<Value>),
    Tuple(Vec<Value>),
    TupleStruct { name: String, fields: Vec<Value> },
    TupleVariant { name: String, variant: String, fields: Vec<Value> },
    MapOf(Vec<(Value, Value)>),
    Struct { name: String, fields: Vec<Field> },
    StructVariant { name: String, variant: String, fields: Vec<Field> },
}

/// The text that `Display` gives a primitive value, if `v` is one (`bool`, integers, `char`,
/// strings).
pub open spec fn primitive_text(v: Value) -> Option<Seq<char>> {
    match v {
        Value::Bool(b) => Some(
            if b {
                "true"@
            } else {
                "false"@
            },
        ),
        Value::Signed(n) => Some(signed_decimal(n as int)),
        Value::Unsigned(n) => Some(decimal(n as nat)),
        Value::Char(c) => Some(seq![c]),
        Value::Str(s) => Some(s@),
        _ => None,
    }
}

/// How a value serializes as the value of one option: as text, as nothing, as an error, or as a
/// sequence of values. `Option` and newtype wrappers are seen through; a unit variant is its
/// name.
pub ghost enum Scalar {
    Text(Seq<char>),
    Nothing,
    Invalid,
    Elements(Seq<Value>),
    Unit,
}

/// Classify `v` as the value of one option.
pub open spec fn scalar(v: Value) -> Scalar
    decreases v,
{
    match v {
        Value::OptionSome(b) => scalar(*b),
        Value::NewtypeStruct { value, .. } => scalar(*value),
        Value::NewtypeVariant { value, .. } => scalar(*value),
        Value::OptionNone => Scalar::Nothing,
        Value::UnitVariant { variant, .. } => Scalar::Text(variant@),
        Value::SeqOf(es) => Scalar::Elements(es@),
        Value::Tuple(es) => Scalar::Elements(es@),
        Value::TupleStruct { fields, .. } => Scalar::Elements(fields@),
        Value::TupleVariant { fields, .. } => Scalar::Elements(fields@),
        Value::Unit => Scalar::Unit,
        Value::UnitStruct(_) => Scalar::Unit,
        _ => match primitive_text(v) {
            Some(t) => Scalar::Text(t),
            None => Scalar::Invalid,
        },
    }
}

/// [`Scalar`], for executable code.
pub enum ScalarRef<'a> {
    Text(String),
    Nothing,
    Invalid,
    Elements(&'a Vec<Value>),
    Unit,
}

/// The [`Scalar`] that a [`ScalarRef`] stands for.
pub open spec fn scalar_ref_view(r: ScalarRef) -> Scalar {
    match r {
        ScalarRef::Text(t) => Scalar::Text(t@),
        ScalarRef::Nothing => Scalar::Nothing,
        ScalarRef::Invalid => Scalar::Invalid,
        ScalarRef::Elements(es) => Scalar::Elements(es@),
        ScalarRef::Unit => Scalar::Unit,
    }
}

/// Append the `Display` text of a primitive value to `out`.
pub fn write_primitive(v: &Value, out: &mut String) -> (ok: bool)
    ensures
        ok == (primitive_text(*v) is Some),
        ok ==> final(out)@ == old(out)@ + primitive_text(*v)->Some_0,
        !ok ==> final(out)@ == old(out)@,
{
    match v {
        Value::Bool(b) => {
            if *b {
                push_str(out, "true");
            } else {
                push_str(out, "false");
            }
            true
        },
        Value::Signed(n) => {
            write_signed_decimal(out, *n);
            true
        },
        Value::Unsigned(n) => {
            write_decimal(out, *n);
            true
        },
        Value::Char(c) => {
            let ghost o = out@;
            push_char(out, *c);
            assert(out@ =~= o + seq![*c]);
            true
        },
        Value::Str(s) => {
            push_str(out, s.as_str());
            true
        },
        _ => false,
    }
}

/// Classify `v` as the value of one option.
pub fn classify(v: &Value) -> (r: ScalarRef)
    ensures
        scalar_ref_view(r) == scalar(*v),
    decreases v,
{
    match v {
        Value::OptionSome(b) => classify(b),
        Value::NewtypeStruct { value, .. } => classify(value),
        Value::NewtypeVariant { value, .. } => classify(value),
        Value::OptionNone => ScalarRef::Nothing,
        Value::UnitVariant { variant, .. } => ScalarRef::Text(variant.clone()),
        Value::SeqOf(es) => ScalarRef::Elements(es),
        Value::Tuple(es) => ScalarRef::Elements(es),
        Value::TupleStruct { fields, .. } => ScalarRef::Elements(fields),
        Value::TupleVariant { fields, .. } => ScalarRef::Elements(fields),
        Value::Unit => ScalarRef::Unit,
        Value::UnitStruct(_) => ScalarRef::Unit,
        _ => {
            let mut t = String::new();
            if write_primitive(v, &mut t) {
                assert(t@ =~= primitive_text(*v)->Some_0);
                ScalarRef::Text(t)
            } else {
                ScalarRef::Invalid
            }
        },
    }
}

} // verus!
