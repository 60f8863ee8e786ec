//! Building the fields of one Quadlet section so that what the Quadlet serializer writes for
//! them is known line by line: optional values, flags written only when set, lists written one
//! line per item, and lists joined onto one line.

use vstd::prelude::*;

use crate::escape::{escape_spaces_join, space_quoted};
use crate::quadlet_ser::{element_texts, fields_lines, header, option_line, option_lines, quadlet_text, to_string, JoinOption};
use crate::text::join;
use crate::value::{scalar, Field, Scalar, Value};

verus! {

/// No option is joined.
pub open spec fn no_joins() -> Seq<JoinOption> {
    Seq::<JoinOption>::empty()
}

/// The line "key=value" where there is a value.
pub open spec fn opt_line(key: Seq<char>, value: Option<String>) -> Seq<char> {
    match value {
        Some(v) => option_line(key, v@),
        None => Seq::<char>::empty(),
    }
}

/// The line "key=true" where the flag is set; nothing otherwise.
pub open spec fn flag_line(key: Seq<char>, set: bool) -> Seq<char> {
    if set {
        option_line(key, "true"@)
    } else {
        Seq::<char>::empty()
    }
}

/// One line "key=item" for each item.
pub open spec fn list_lines(key: Seq<char>, items: Seq<String>) -> Seq<char> {
    option_lines(key, items.map_values(|s: String| s@))
}

/// One line "key=..." with all items, each in double quotes where it holds a space, joined by
/// spaces; nothing without items.
pub open spec fn joined_line(key: Seq<char>, items: Seq<String>) -> Seq<char> {
    if items.len() > 0 {
        option_line(key, join(items.map_values(|s: String| space_quoted(s@)), seq![' ']))
    } else {
        Seq::<char>::empty()
    }
}

/// The lines of the fields built so far are `lines`.
pub open spec fn fields_give(fields: Seq<Field>, lines: Seq<char>) -> bool {
    fields_lines(fields, no_joins()) == Some(lines)
}

/// Adding a field adds its lines.
proof fn lemma_push_field(fields: Seq<Field>, f: Field)
    ensures
        fields_lines(fields.push(f), no_joins()) == match fields_lines(fields, no_joins()) {
            None => None,
            Some(a) => match crate::quadlet_ser::field_lines(f.key@, f.value, no_joins()) {
                None => None,
                Some(b) => Some(a + b),
            },
        },
{
    assert(fields.push(f).drop_last() =~= fields);
}

/// A copy of an optional text.
pub(crate) fn copy_text(o: &Option<String>) -> (r: Option<String>)
    ensures
        r == *o,
{
    match o {
        Some(s) => Some(s.clone()),
        None => None,
    }
}

/// Appends the field `key` with an optional text value.
pub(crate) fn push_option(
    fields: &mut Vec<Field>,
    key: &str,
    value: Option<String>,
    Ghost(lines): Ghost<Seq<char>>,
)
    requires
        fields_give(old(fields)@, lines),
    ensures
        fields_give(final(fields)@, lines + opt_line(key@, value)),
{
    let ghost v = value;
    let ghost before = fields@;
    let val = match value {
        Some(s) => Value::OptionSome(Box::new(Value::Str(s))),
        None => Value::OptionNone,
    };
    let f = Field { key: key.to_owned(), value: val };
    proof {
        lemma_push_field(before, f);
        match v {
            Some(s) => {
                assert(scalar(Value::Str(s)) == Scalar::Text(s@));
            },
            None => {
                assert(lines + opt_line(key@, v) =~= lines);
            },
        }
    }
    fields.push(f);
}

/// Appends the field `key` with the value `true` where `set` holds; nothing otherwise.
pub(crate) fn push_flag(fields: &mut Vec<Field>, key: &str, set: bool, Ghost(lines): Ghost<Seq<char>>)
    requires
        fields_give(old(fields)@, lines),
    ensures
        fields_give(final(fields)@, lines + flag_line(key@, set)),
{
    if set {
        let ghost before = fields@;
        let f = Field { key: key.to_owned(), value: Value::Bool(true) };
        proof {
            lemma_push_field(before, f);
        }
        fields.push(f);
    } else {
        assert(lines + flag_line(key@, set) =~= lines);
    }
}

/// The texts of string elements are the strings.
proof fn lemma_string_texts(es: Seq<Value>, items: Seq<String>)
    requires
        es.len() == items.len(),
        forall|i: int|
            0 <= i < items.len() ==> (#[trigger] es[i] matches Value::Str(s) && s@ == items[i]@),
    ensures
        element_texts(es) == Some(items.map_values(|s: String| s@)),
    decreases es.len(),
{
    if es.len() > 0 {
        lemma_string_texts(es.drop_last(), items.drop_last());
        assert(es[es.len() - 1] == es.last());
        assert(items.map_values(|s: String| s@) =~= items.drop_last().map_values(
            |s: String| s@,
        ).push(items.last()@));
    } else {
        assert(items.map_values(|s: String| s@) =~= Seq::<Seq<char>>::empty());
    }
}

/// Appends the field `key` with the list `items`, one line per item.
pub(crate) fn push_list(
    fields: &mut Vec<Field>,
    key: &str,
    items: &Vec<String>,
    Ghost(lines): Ghost<Seq<char>>,
)
    requires
        fields_give(old(fields)@, lines),
    ensures
        fields_give(final(fields)@, lines + list_lines(key@, items@)),
{
    let ghost before = fields@;
    let v = crate::quadlet_ser::serialize_display_seq(items);
    proof {
        if let Value::SeqOf(es) = &v {
            lemma_string_texts(es@, items@);
        }
    }
    let f = Field { key: key.to_owned(), value: v };
    proof {
        lemma_push_field(before, f);
    }
    fields.push(f);
}

/// Appends the field `key` with all `items` on one line, each quoted where it holds a space;
/// nothing without items.
pub(crate) fn push_joined(
    fields: &mut Vec<Field>,
    key: &str,
    items: &Vec<String>,
    Ghost(lines): Ghost<Seq<char>>,
)
    requires
        fields_give(old(fields)@, lines),
    ensures
        fields_give(final(fields)@, lines + joined_line(key@, items@)),
{
    if items.len() > 0 {
        let ghost before = fields@;
        let text = escape_spaces_join(items);
        assert(items.deep_view().map_values(|w: Seq<char>| space_quoted(w)) =~= items@.map_values(
            |s: String| space_quoted(s@),
        ));
        let f = Field { key: key.to_owned(), value: Value::Str(text) };
        proof {
            lemma_push_field(before, f);
        }
        fields.push(f);
    } else {
        assert(lines + joined_line(key@, items@) =~= lines);
    }
}

/// The text of the section `name` with the given fields: its header, then the fields' lines.
pub(crate) fn section_text(name: &str, fields: Vec<Field>, Ghost(lines): Ghost<Seq<char>>) -> (r:
    String)
    requires
        fields_give(fields@, lines),
    ensures
        r@ == header(false, name@) + lines,
{
    let v = Value::Struct { name: name.to_owned(), fields };
    let joins: Vec<JoinOption> = Vec::new();
    assert(joins@ =~= no_joins());
    assert(quadlet_text(v, no_joins()) == Some(Seq::<char>::empty() + header(false, name@) + lines));
    assert(Seq::<char>::empty() + header(false, name@) + lines =~= header(false, name@) + lines);
    match to_string(&v, &joins) {
        Ok(s) => s,
        Err(_) => String::new(),
    }
}

} // verus!
