//! Serializing a struct into command-line arguments: each field becomes `--field value`, with the
//! value quoted for a shell when needed, and a sequence repeats its flag for each element.

use vstd::prelude::*;

use crate::escape::{double_quote, double_quoted, has_whitespace, str_has_whitespace};
use crate::num::{decimal, signed_decimal, write_decimal, write_signed_decimal};
use crate::text::{push_char, push_str};
use crate::value::{Field, Value};

verus! {

/// Error returned when serializing arguments.
#[derive(Debug, Clone, PartialEq, Eq)]
pub enum Error {
    /// An error while serializing.
    Custom(String),
    /// A flag was empty or held whitespace.
    InvalidFlag,
    /// A struct or map held a struct or map.
    Nested,
    /// A type that cannot be serialized was given.
    InvalidType,
}

/// The kind of an [`Error`] that serializing a value gives.
#[derive(Debug, Clone, Copy, PartialEq, Eq, Structural)]
pub enum ErrorKind {
    InvalidFlag,
    Nested,
    InvalidType,
}

/// The [`Error`] of an [`ErrorKind`].
pub open spec fn error_of(k: ErrorKind) -> Error {
    match k {
        ErrorKind::InvalidFlag => Error::InvalidFlag,
        ErrorKind::Nested => Error::Nested,
        ErrorKind::InvalidType => Error::InvalidType,
    }
}

/// `out` followed by the flag `--flag`, after a space unless `out` is empty.
pub open spec fn with_flag(out: Seq<char>, flag: Seq<char>) -> Seq<char> {
    (if out.len() > 0 {
        out.push(' ')
    } else {
        out
    }) + seq!['-', '-'] + flag
}

/// `out` followed by `--flag arg`, with the argument quoted for a shell; an empty argument
/// gives the flag alone.
pub open spec fn with_arg(out: Seq<char>, flag: Seq<char>, arg: Seq<char>) -> Seq<char> {
    with_flag(out, flag) + (if arg.len() > 0 {
        seq![' '] + double_quoted(arg)
    } else {
        Seq::<char>::empty()
    })
}

/// The output after writing the value `v` of the flag `flag` onto `out`.
pub open spec fn flag_value(out: Seq<char>, flag: Seq<char>, v: Value) -> Result<
    Seq<char>,
    ErrorKind,
>
    decreases v, 0nat,
{
    match v {
        Value::Bool(b) => Ok(
            if b {
                with_flag(out, flag)
            } else {
                with_flag(out, flag) + "=false"@
            },
        ),
        Value::Char(c) => Ok(with_flag(out, flag) + seq![' ', c]),
        Value::Signed(n) => Ok(with_arg(out, flag, signed_decimal(n as int))),
        Value::Unsigned(n) => Ok(with_arg(out, flag, decimal(n as nat))),
        Value::Str(s) => Ok(with_arg(out, flag, s@)),
        Value::UnitVariant { variant, .. } => Ok(with_arg(out, flag, variant@)),
        Value::OptionNone => Ok(out),
        Value::OptionSome(b) => flag_value(out, flag, *b),
        Value::NewtypeStruct { value, .. } => flag_value(out, flag, *value),
        Value::NewtypeVariant { value, .. } => flag_value(out, flag, *value),
        Value::SeqOf(es) => flag_values(out, flag, es@),
        Value::Tuple(es) => flag_values(out, flag, es@),
        Value::TupleStruct { fields, .. } => flag_values(out, flag, fields@),
        Value::TupleVariant { fields, .. } => flag_values(out, flag, fields@),
        Value::MapOf(_) => Err(ErrorKind::Nested),
        Value::Struct { .. } => Err(ErrorKind::Nested),
        Value::StructVariant { .. } => Err(ErrorKind::Nested),
        _ => Err(ErrorKind::InvalidType),
    }
}

/// The output after writing each element of a sequence value of `flag`, repeating the flag.
pub open spec fn flag_values(out: Seq<char>, flag: Seq<char>, es: Seq<Value>) -> Result<
    Seq<char>,
    ErrorKind,
>
    decreases es, 1nat,
{
    if es.len() == 0 {
        Ok(out)
    } else {
        match flag_values(out, flag, es.drop_last()) {
            Err(e) => Err(e),
            Ok(o) => flag_value(o, flag, es.last()),
        }
    }
}

/// A flag must be non-empty and without whitespace.
pub open spec fn valid_flag(flag: Seq<char>) -> bool {
    flag.len() > 0 && !has_whitespace(flag)
}

/// The output after writing the fields of a struct, each as a flag and its value.
pub open spec fn fields_args(out: Seq<char>, fields: Seq<Field>) -> Result<Seq<char>, ErrorKind>
    decreases fields.len(),
{
    if fields.len() == 0 {
        Ok(out)
    } else {
        match fields_args(out, fields.drop_last()) {
            Err(e) => Err(e),
            Ok(o) => if !valid_flag(fields.last().key@) {
                Err(ErrorKind::InvalidFlag)
            } else {
                flag_value(o, fields.last().key@, fields.last().value)
            },
        }
    }
}

/// The output after writing the top-level value `v`, which must be a struct, a unit, or an
/// `Option` or newtype of one.
pub open spec fn top_args(out: Seq<char>, v: Value) -> Result<Seq<char>, ErrorKind>
    decreases v,
{
    match v {
        Value::OptionNone => Ok(out),
        Value::OptionSome(b) => top_args(out, *b),
        Value::Unit => Ok(out),
        Value::UnitStruct(_) => Ok(out),
        Value::UnitVariant { .. } => Ok(out),
        Value::NewtypeStruct { value, .. } => top_args(out, *value),
        Value::NewtypeVariant { value, .. } => top_args(out, *value),
        Value::Struct { fields, .. } => fields_args(out, fields@),
        Value::StructVariant { fields, .. } => fields_args(out, fields@),
        _ => Err(ErrorKind::InvalidType),
    }
}

/// Append `--flag`, after a space unless `out` is empty.
fn push_flag(out: &mut String, flag: &str)
    ensures
        final(out)@ == with_flag(old(out)@, flag@),
{
    let ghost o = out@;
    if !out.as_str().is_empty() {
        push_char(out, ' ');
    }
    push_str(out, "--");
    push_str(out, flag);
    proof {
        reveal_strlit("--");
    }
    assert(out@ =~= with_flag(o, flag@));
}

/// Append `--flag arg`, quoting the argument for a shell.
pub(crate) fn push_arg(out: &mut String, flag: &str, arg: &str)
    ensures
        final(out)@ == with_arg(old(out)@, flag@, arg@),
{
    let ghost o = out@;
    push_flag(out, flag);
    if !arg.is_empty() {
        push_char(out, ' ');
        let q = double_quote(arg);
        push_str(out, q.as_str());
    }
    assert(out@ =~= with_arg(o, flag@, arg@));
}

fn kind_error(k: ErrorKind) -> (e: Error)
    ensures
        e == error_of(k),
{
    match k {
        ErrorKind::InvalidFlag => Error::InvalidFlag,
        ErrorKind::Nested => Error::Nested,
        ErrorKind::InvalidType => Error::InvalidType,
    }
}

/// Write the value `v` of the flag `flag`.
fn write_flag_value(out: &mut String, flag: &str, v: &Value) -> (r: Result<(), ErrorKind>)
    ensures
        match r {
            Ok(_) => flag_value(old(out)@, flag@, *v) == Ok::<Seq<char>, ErrorKind>(final(out)@),
            Err(e) => flag_value(old(out)@, flag@, *v) == Err::<Seq<char>, ErrorKind>(e),
        },
    decreases v, 0nat,
{
    match v {
        Value::Bool(b) => {
            push_flag(out, flag);
            if !*b {
                push_str(out, "=false");
            }
            Ok(())
        },
        Value::Char(c) => {
            let ghost o = out@;
            push_flag(out, flag);
            push_char(out, ' ');
            push_char(out, *c);
            assert(out@ =~= with_flag(o, flag@) + seq![' ', *c]);
            Ok(())
        },
        Value::Signed(n) => {
            let mut t = String::new();
            write_signed_decimal(&mut t, *n);
            assert(t@ =~= signed_decimal(*n as int));
            push_arg(out, flag, t.as_str());
            Ok(())
        },
        Value::Unsigned(n) => {
            let mut t = String::new();
            write_decimal(&mut t, *n);
            assert(t@ =~= decimal(*n as nat));
            push_arg(out, flag, t.as_str());
            Ok(())
        },
        Value::Str(s) => {
            push_arg(out, flag, s.as_str());
            Ok(())
        },
        Value::UnitVariant { variant, .. } => {
            push_arg(out, flag, variant.as_str());
            Ok(())
        },
        Value::OptionNone => Ok(()),
        Value::OptionSome(b) => write_flag_value(out, flag, b),
        Value::NewtypeStruct { value, .. } => write_flag_value(out, flag, value),
        Value::NewtypeVariant { value, .. } => write_flag_value(out, flag, value),
        Value::SeqOf(es) => write_flag_values(out, flag, es),
        Value::Tuple(es) => write_flag_values(out, flag, es),
        Value::TupleStruct { fields, .. } => write_flag_values(out, flag, fields),
        Value::TupleVariant { fields, .. } => write_flag_values(out, flag, fields),
        Value::MapOf(_) => Err(ErrorKind::Nested),
        Value::Struct { .. } => Err(ErrorKind::Nested),
        Value::StructVariant { .. } => Err(ErrorKind::Nested),
        _ => Err(ErrorKind::InvalidType),
    }
}

/// Write each element of a sequence value of `flag`.
fn write_flag_values(out: &mut String, flag: &str, es: &Vec<Value>) -> (r: Result<(), ErrorKind>)
    ensures
        match r {
            Ok(_) => flag_values(old(out)@, flag@, es@) == Ok::<Seq<char>, ErrorKind>(final(out)@),
            Err(e) => flag_values(old(out)@, flag@, es@) == Err::<Seq<char>, ErrorKind>(e),
        },
    decreases es@, 1nat,
{
    let ghost o0 = out@;
    let mut i: usize = 0;
    while i < es.len()
        invariant
            i <= es@.len(),
            o0 == old(out)@,
            flag_values(o0, flag@, es@.subrange(0, i as int)) == Ok::<Seq<char>, ErrorKind>(out@),
        decreases es@.len() - i,
    {
        let ghost pre = es@.subrange(0, i + 1);
        assert(pre.drop_last() =~= es@.subrange(0, i as int));
        assert(pre.last() == es@[i as int]);
        match write_flag_value(out, flag, &es[i]) {
            Ok(()) => {},
            Err(e) => {
                proof {
                    lemma_flag_values_err(o0, flag@, es@, i as int, e);
                }
                return Err(e);
            },
        }
        i = i + 1;
    }
    assert(es@.subrange(0, es@.len() as int) =~= es@);
    Ok(())
}

proof fn lemma_flag_values_err(out: Seq<char>, flag: Seq<char>, es: Seq<Value>, i: int, e: ErrorKind)
    requires
        0 <= i < es.len(),
        flag_values(out, flag, es.subrange(0, i + 1)) == Err::<Seq<char>, ErrorKind>(e),
    ensures
        flag_values(out, flag, es) == Err::<Seq<char>, ErrorKind>(e),
    decreases es.len() - i,
{
    if i + 1 < es.len() {
        assert(es.subrange(0, i + 2).drop_last() =~= es.subrange(0, i + 1));
        lemma_flag_values_err(out, flag, es, i + 1, e);
    } else {
        assert(es.subrange(0, i + 1) =~= es);
    }
}

/// Write the fields of a struct, each as a flag and its value.
fn write_fields(out: &mut String, fields: &Vec<Field>) -> (r: Result<(), ErrorKind>)
    ensures
        match r {
            Ok(_) => fields_args(old(out)@, fields@) == Ok::<Seq<char>, ErrorKind>(final(out)@),
            Err(e) => fields_args(old(out)@, fields@) == Err::<Seq<char>, ErrorKind>(e),
        },
{
    let ghost o0 = out@;
    let mut i: usize = 0;
    while i < fields.len()
        invariant
            i <= fields@.len(),
            o0 == old(out)@,
            fields_args(o0, fields@.subrange(0, i as int)) == Ok::<Seq<char>, ErrorKind>(out@),
        decreases fields@.len() - i,
    {
        let ghost pre = fields@.subrange(0, i + 1);
        assert(pre.drop_last() =~= fields@.subrange(0, i as int));
        assert(pre.last() == fields@[i as int]);
        let f = &fields[i];
        let key = f.key.as_str();
        let r = if key.is_empty() || str_has_whitespace(key) {
            Err(ErrorKind::InvalidFlag)
        } else {
            write_flag_value(out, key, &f.value)
        };
        match r {
            Ok(()) => {},
            Err(e) => {
                proof {
                    lemma_fields_args_err(o0, fields@, i as int, e);
                }
                return Err(e);
            },
        }
        i = i + 1;
    }
    assert(fields@.subrange(0, fields@.len() as int) =~= fields@);
    Ok(())
}

proof fn lemma_fields_args_err(out: Seq<char>, fields: Seq<Field>, i: int, e: ErrorKind)
    requires
        0 <= i < fields.len(),
        fields_args(out, fields.subrange(0, i + 1)) == Err::<Seq<char>, ErrorKind>(e),
    ensures
        fields_args(out, fields) == Err::<Seq<char>, ErrorKind>(e),
    decreases fields.len() - i,
{
    if i + 1 < fields.len() {
        assert(fields.subrange(0, i + 2).drop_last() =~= fields.subrange(0, i + 1));
        lemma_fields_args_err(out, fields, i + 1, e);
    } else {
        assert(fields.subrange(0, i + 1) =~= fields);
    }
}

fn write_top(out: &mut String, v: &Value) -> (r: Result<(), ErrorKind>)
    ensures
        match r {
            Ok(_) => top_args(old(out)@, *v) == Ok::<Seq<char>, ErrorKind>(final(out)@),
            Err(e) => top_args(old(out)@, *v) == Err::<Seq<char>, ErrorKind>(e),
        },
    decreases v,
{
    match v {
        Value::OptionNone => Ok(()),
        Value::OptionSome(b) => write_top(out, b),
        Value::Unit => Ok(()),
        Value::UnitStruct(_) => Ok(()),
        Value::UnitVariant { .. } => Ok(()),
        Value::NewtypeStruct { value, .. } => write_top(out, value),
        Value::NewtypeVariant { value, .. } => write_top(out, value),
        Value::Struct { fields, .. } => write_fields(out, fields),
        Value::StructVariant { fields, .. } => write_fields(out, fields),
        _ => Err(ErrorKind::InvalidType),
    }
}

/// The arguments that `v` serializes to, or the kind of error.
pub open spec fn args_text(v: Value) -> Result<Seq<char>, ErrorKind> {
    top_args(Seq::<char>::empty(), v)
}

/// Serializes a struct into arguments suitable for a shell.
///
/// Each field becomes `--field value`; `true` becomes `--field` and `false` `--field=false`; a
/// sequence repeats the flag for each element; `None` fields are left out.
///
/// Returns an error if the value is not a struct, a field name is empty or holds whitespace, or a
/// field holds a struct or map.
pub fn to_string(value: &Value) -> (r: Result<String, Error>)
    ensures
        match r {
            Ok(s) => args_text(*value) == Ok::<Seq<char>, ErrorKind>(s@),
            Err(e) => exists|k: ErrorKind|
                args_text(*value) == Err::<Seq<char>, ErrorKind>(k) && e == error_of(k),
        },
{
    let mut out = String::new();
    match write_top(&mut out, value) {
        Ok(()) => Ok(out),
        Err(k) => Err(kind_error(k)),
    }
}

} // verus!
