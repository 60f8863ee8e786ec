//! The mount options format: "key\[=value\],...", as used by `podman run --mount` and the
//! `Mount=` Quadlet option.
//!
//! [`to_string`] writes the fields of a struct [`Value`] in order: a text value as "key=text",
//! a unit as the bare "key", and `None` not at all. [`from_str`] splits the input into its
//! entries, each a key with an optional value; an empty value counts as none.

use vstd::prelude::*;

use crate::text::{join, join_with, push_char, push_str, push_string, split_once, split_terminator, str_split, str_split_once};
use crate::value::{Field, Scalar, ScalarRef, Value, classify, scalar};

verus! {

/// Error returned when serializing mount options.
#[derive(Debug, Clone, PartialEq, Eq)]
pub enum Error {
    /// An error occurred while serializing.
    Custom(String),
    /// A type that cannot be serialized was encountered.
    BadType,
}

/// The item that the field `key` with value `v` gives: `Some(None)` when it is left out, `None`
/// when its value cannot be written.
pub open spec fn field_item(key: Seq<char>, v: Value) -> Option<Option<Seq<char>>> {
    match scalar(v) {
        Scalar::Text(t) => Some(Some(key + seq!['='] + t)),
        Scalar::Unit => Some(Some(key)),
        Scalar::Nothing => Some(None),
        _ => None,
    }
}

/// The items of all fields, in order; `None` when a value cannot be written.
pub open spec fn field_items(fields: Seq<Field>) -> Option<Seq<Seq<char>>>
    decreases fields.len(),
{
    if fields.len() == 0 {
        Some(Seq::<Seq<char>>::empty())
    } else {
        match field_items(fields.drop_last()) {
            None => None,
            Some(items) => match field_item(fields.last().key@, fields.last().value) {
                None => None,
                Some(None) => Some(items),
                Some(Some(item)) => Some(items.push(item)),
            },
        }
    }
}

/// The mount options text of `v`: the items of its fields joined by ','; `None` when `v` is not
/// a struct or a field's value cannot be written.
pub open spec fn options_string(v: Value) -> Option<Seq<char>> {
    match v {
        Value::Struct { fields, .. } => match field_items(fields@) {
            Some(items) => Some(join(items, seq![','])),
            None => None,
        },
        _ => None,
    }
}

/// Serialize the struct `value` as mount options.
pub fn to_string(value: &Value) -> (r: Result<String, Error>)
    ensures
        match r {
            Ok(s) => options_string(*value) == Some(s@),
            Err(e) => options_string(*value) is None && e == Error::BadType,
        },
{
    let fields = match value {
        Value::Struct { fields, .. } => fields,
        _ => {
            return Err(Error::BadType);
        },
    };
    let mut items: Vec<String> = Vec::new();
    let mut i: usize = 0;
    while i < fields.len()
        invariant
            i <= fields@.len(),
            *value matches Value::Struct { fields: fs, .. } && fs@ == fields@,
            field_items(fields@.subrange(0, i as int)) == Some(items.deep_view()),
        decreases fields@.len() - i,
    {
        let ghost pre = fields@.subrange(0, i + 1);
        assert(pre.drop_last() =~= fields@.subrange(0, i as int));
        assert(pre.last() == fields@[i as int]);
        let f = &fields[i];
        let ghost before = items.deep_view();
        match classify(&f.value) {
            ScalarRef::Text(t) => {
                let mut item = f.key.clone();
                push_char(&mut item, '=');
                push_str(&mut item, t.as_str());
                assert(item@ =~= f.key@ + seq!['='] + t@);
                push_string(&mut items, item);
            },
            ScalarRef::Unit => {
                push_string(&mut items, f.key.clone());
            },
            ScalarRef::Nothing => {},
            _ => {
                proof {
                    lemma_field_items_none(fields@, i as int);
                }
                return Err(Error::BadType);
            },
        }
        i = i + 1;
    }
    assert(fields@.subrange(0, fields@.len() as int) =~= fields@);
    Ok(join_with(&items, ','))
}

/// A field that cannot be written makes the whole struct unwritable.
proof fn lemma_field_items_none(fields: Seq<Field>, i: int)
    requires
        0 <= i < fields.len(),
        field_items(fields.subrange(0, i + 1)) is None,
    ensures
        field_items(fields) is None,
    decreases fields.len() - i,
{
    if i + 1 < fields.len() {
        assert(fields.subrange(0, i + 2).drop_last() =~= fields.subrange(0, i + 1));
        lemma_field_items_none(fields, i + 1);
    } else {
        assert(fields.subrange(0, i + 1) =~= fields);
    }
}

/// The `bool` that an option's value gives: no value means `true`; otherwise "true" or "false".
pub open spec fn bool_value(value: Option<Seq<char>>) -> Option<bool> {
    match value {
        None => Some(true),
        Some(v) => if v == "true"@ {
            Some(true)
        } else if v == "false"@ {
            Some(false)
        } else {
            None
        },
    }
}

/// The `bool` that an option's value gives: no value means `true`; otherwise "true" or "false".
pub fn parse_bool(value: Option<&str>) -> (r: Option<bool>)
    ensures
        r == bool_value(match value {
            Some(v) => Some(v@),
            None => None,
        }),
{
    match value {
        None => Some(true),
        Some(v) => {
            if crate::text::str_eq(v, "true") {
                Some(true)
            } else if crate::text::str_eq(v, "false") {
                Some(false)
            } else {
                None
            }
        },
    }
}

/// An entry's key and value: "key=value", or a bare "key"; an empty value counts as none.
pub open spec fn key_value(entry: Seq<char>) -> (Seq<char>, Option<Seq<char>>) {
    match split_once(entry, '=') {
        None => (entry, None),
        Some((k, v)) => (
            k,
            if v.len() > 0 {
                Some(v)
            } else {
                None
            },
        ),
    }
}

/// The keys and values of entries.
pub open spec fn kvs(es: Seq<Seq<char>>) -> Seq<(Seq<char>, Option<Seq<char>>)> {
    es.map_values(|e: Seq<char>| key_value(e))
}

/// The entries of mount options: the input split at ',', without a trailing empty piece.
pub open spec fn entries(input: Seq<char>) -> Seq<(Seq<char>, Option<Seq<char>>)> {
    kvs(split_terminator(input, ','))
}

/// One mount option: its key and its value, if it has one.
#[derive(Debug, Clone, PartialEq, Eq)]
pub struct Entry {
    pub key: String,
    pub value: Option<String>,
}

impl View for Entry {
    type V = (Seq<char>, Option<Seq<char>>);

    open spec fn view(&self) -> (Seq<char>, Option<Seq<char>>) {
        (
            self.key@,
            match self.value {
                Some(v) => Some(v@),
                None => None,
            },
        )
    }
}

/// The views of a sequence of entries.
pub open spec fn entries_view(es: Seq<Entry>) -> Seq<(Seq<char>, Option<Seq<char>>)> {
    es.map_values(|e: Entry| e@)
}

/// Split one entry into its key and value.
fn entry_of(piece: &str) -> (e: Entry)
    ensures
        e@ == key_value(piece@),
{
    match str_split_once(piece, '=') {
        None => Entry { key: piece.to_owned(), value: None },
        Some((k, v)) => {
            if v.as_str().is_empty() {
                Entry { key: k, value: None }
            } else {
                Entry { key: k, value: Some(v) }
            }
        },
    }
}

/// A deserializer of mount options: it holds the input and hands out its entries.
pub struct Deserializer {
    input: String,
}

impl View for Deserializer {
    type V = Seq<char>;

    closed spec fn view(&self) -> Seq<char> {
        self.input@
    }
}

impl Deserializer {
    /// Create a [`Deserializer`] from an input string.
    pub fn from_str(input: &str) -> (d: Deserializer)
        ensures
            d@ == input@,
    {
        Deserializer { input: input.to_owned() }
    }

    /// The entries of the input, in order.
    pub fn entries(&self) -> (r: Vec<Entry>)
        ensures
            entries_view(r@) == entries(self@),
    {
        let pieces = str_split(self.input.as_str(), ',');
        let ghost all = split_terminator(self.input@, ',');
        let n = if pieces.len() > 0 && pieces[pieces.len() - 1].as_str().is_empty() {
            pieces.len() - 1
        } else {
            pieces.len()
        };
        proof {
            crate::text::lemma_split_props(self.input@, ',');
            assert(all =~= pieces.deep_view().subrange(0, n as int));
        }
        let mut out: Vec<Entry> = Vec::new();
        let mut i: usize = 0;
        while i < n
            invariant
                i <= n <= pieces@.len(),
                all == pieces.deep_view().subrange(0, n as int),
                all == split_terminator(self.input@, ','),
                entries_view(out@) == kvs(all.subrange(0, i as int)),
            decreases n - i,
        {
            let e = entry_of(pieces[i].as_str());
            let ghost before = out@;
            out.push(e);
            proof {
                assert(all[i as int] == pieces[i as int]@);
                assert(kvs(all.subrange(0, i + 1)) =~= kvs(all.subrange(0, i as int)).push(
                    key_value(all[i as int]),
                ));
                assert(entries_view(out@) =~= entries_view(before).push(e@));
            }
            i = i + 1;
        }
        assert(all.subrange(0, n as int) =~= all);
        out
    }
}

/// The entries of mount options "key\[=value\],...".
pub fn from_str(input: &str) -> (r: Vec<Entry>)
    ensures
        entries_view(r@) == entries(input@),
{
    Deserializer::from_str(input).entries()
}

} // verus!
