//! Serializing values into the sections of a Quadlet file.
//!
//! Only structs, sequences, and tuples are allowed at the top level. Elements in a sequence are
//! serialized as separate sections with a new line inserted between them. Tuples combine structs
//! into a single section; the name from the first struct in the tuple is used as the section name.
//!
//! Each field of a struct becomes "Key=value" lines. Sequence values are written as one line per
//! element, repeating the key, unless the key names a [`JoinOption`] in the given set, in which case
//! the elements are joined by a space onto one line.

use vstd::prelude::*;

use crate::escape::{quote_whitespace, whitespace_quoted};
use crate::text::{join, push_char, push_str, str_eq};
use crate::value::{classify, scalar, Field, Scalar, ScalarRef, Value, scalar_ref_view};

verus! {

/// Quadlet options whose sequence values may be joined onto one line.
#[derive(Debug, Clone, Copy, PartialEq, Eq, Structural)]
pub enum JoinOption {
    AddCapability,
    After,
    Annotation,
    Before,
    BindsTo,
    DropCapability,
    Environment,
    Label,
    Mask,
    RequiredBy,
    Requires,
    Sysctl,
    Unmask,
    WantedBy,
    Wants,
}

/// The Quadlet option name of a [`JoinOption`].
pub open spec fn join_option_name(o: JoinOption) -> Seq<char> {
    match o {
        JoinOption::AddCapability => "AddCapability"@,
        JoinOption::After => "After"@,
        JoinOption::Annotation => "Annotation"@,
        JoinOption::Before => "Before"@,
        JoinOption::BindsTo => "BindsTo"@,
        JoinOption::DropCapability => "DropCapability"@,
        JoinOption::Environment => "Environment"@,
        JoinOption::Label => "Label"@,
        JoinOption::Mask => "Mask"@,
        JoinOption::RequiredBy => "RequiredBy"@,
        JoinOption::Requires => "Requires"@,
        JoinOption::Sysctl => "Sysctl"@,
        JoinOption::Unmask => "Unmask"@,
        JoinOption::WantedBy => "WantedBy"@,
        JoinOption::Wants => "Wants"@,
    }
}

/// Every [`JoinOption`], in the order of their names.
pub open spec fn all_join_options() -> Seq<JoinOption> {
    seq![
        JoinOption::AddCapability,
        JoinOption::After,
        JoinOption::Annotation,
        JoinOption::Before,
        JoinOption::BindsTo,
        JoinOption::DropCapability,
        JoinOption::Environment,
        JoinOption::Label,
        JoinOption::Mask,
        JoinOption::RequiredBy,
        JoinOption::Requires,
        JoinOption::Sysctl,
        JoinOption::Unmask,
        JoinOption::WantedBy,
        JoinOption::Wants,
    ]
}

/// The [`JoinOption`] named `key`, if any.
pub open spec fn join_option_of(key: Seq<char>) -> Option<JoinOption> {
    if key == "AddCapability"@ {
        Some(JoinOption::AddCapability)
    } else if key == "After"@ {
        Some(JoinOption::After)
    } else if key == "Annotation"@ {
        Some(JoinOption::Annotation)
    } else if key == "Before"@ {
        Some(JoinOption::Before)
    } else if key == "BindsTo"@ {
        Some(JoinOption::BindsTo)
    } else if key == "DropCapability"@ {
        Some(JoinOption::DropCapability)
    } else if key == "Environment"@ {
        Some(JoinOption::Environment)
    } else if key == "Label"@ {
        Some(JoinOption::Label)
    } else if key == "Mask"@ {
        Some(JoinOption::Mask)
    } else if key == "RequiredBy"@ {
        Some(JoinOption::RequiredBy)
    } else if key == "Requires"@ {
        Some(JoinOption::Requires)
    } else if key == "Sysctl"@ {
        Some(JoinOption::Sysctl)
    } else if key == "Unmask"@ {
        Some(JoinOption::Unmask)
    } else if key == "WantedBy"@ {
        Some(JoinOption::WantedBy)
    } else if key == "Wants"@ {
        Some(JoinOption::Wants)
    } else {
        None
    }
}

/// The sequence values of the option `key` are joined onto one line under `options`.
pub open spec fn is_joined(key: Seq<char>, options: Seq<JoinOption>) -> bool {
    match join_option_of(key) {
        Some(o) => options.contains(o),
        None => false,
    }
}

impl JoinOption {
    /// The [`JoinOption`] named `key`, if any.
    pub fn from_key(key: &str) -> (r: Option<JoinOption>)
        ensures
            r == join_option_of(key@),
    {
        if str_eq(key, "AddCapability") {
            Some(JoinOption::AddCapability)
        } else if str_eq(key, "After") {
            Some(JoinOption::After)
        } else if str_eq(key, "Annotation") {
            Some(JoinOption::Annotation)
        } else if str_eq(key, "Before") {
            Some(JoinOption::Before)
        } else if str_eq(key, "BindsTo") {
            Some(JoinOption::BindsTo)
        } else if str_eq(key, "DropCapability") {
            Some(JoinOption::DropCapability)
        } else if str_eq(key, "Environment") {
            Some(JoinOption::Environment)
        } else if str_eq(key, "Label") {
            Some(JoinOption::Label)
        } else if str_eq(key, "Mask") {
            Some(JoinOption::Mask)
        } else if str_eq(key, "RequiredBy") {
            Some(JoinOption::RequiredBy)
        } else if str_eq(key, "Requires") {
            Some(JoinOption::Requires)
        } else if str_eq(key, "Sysctl") {
            Some(JoinOption::Sysctl)
        } else if str_eq(key, "Unmask") {
            Some(JoinOption::Unmask)
        } else if str_eq(key, "WantedBy") {
            Some(JoinOption::WantedBy)
        } else if str_eq(key, "Wants") {
            Some(JoinOption::Wants)
        } else {
            None
        }
    }

    /// Every [`JoinOption`].
    pub fn all_set() -> (r: Vec<JoinOption>)
        ensures
            r@ == all_join_options(),
            forall|o: JoinOption| r@.contains(o),
    {
        let r = vec![
            JoinOption::AddCapability,
            JoinOption::After,
            JoinOption::Annotation,
            JoinOption::Before,
            JoinOption::BindsTo,
            JoinOption::DropCapability,
            JoinOption::Environment,
            JoinOption::Label,
            JoinOption::Mask,
            JoinOption::RequiredBy,
            JoinOption::Requires,
            JoinOption::Sysctl,
            JoinOption::Unmask,
            JoinOption::WantedBy,
            JoinOption::Wants,
        ];
        assert forall|o: JoinOption| r@.contains(o) by {
            match o {
                JoinOption::AddCapability => assert(r@[0] == o),
                JoinOption::After => assert(r@[1] == o),
                JoinOption::Annotation => assert(r@[2] == o),
                JoinOption::Before => assert(r@[3] == o),
                JoinOption::BindsTo => assert(r@[4] == o),
                JoinOption::DropCapability => assert(r@[5] == o),
                JoinOption::Environment => assert(r@[6] == o),
                JoinOption::Label => assert(r@[7] == o),
                JoinOption::Mask => assert(r@[8] == o),
                JoinOption::RequiredBy => assert(r@[9] == o),
                JoinOption::Requires => assert(r@[10] == o),
                JoinOption::Sysctl => assert(r@[11] == o),
                JoinOption::Unmask => assert(r@[12] == o),
                JoinOption::WantedBy => assert(r@[13] == o),
                JoinOption::Wants => assert(r@[14] == o),
            }
        }
        r
    }
}

/// Error returned when serializing a Quadlet section.
#[derive(Debug, Clone, PartialEq, Eq)]
pub enum Error {
    /// An error while serializing.
    Custom(String),
    /// A type that cannot be serialized was given.
    InvalidType,
}

/// The texts of the elements of a sequence value, leaving out `None`s; `None` when an element is
/// not a single value.
pub open spec fn element_texts(es: Seq<Value>) -> Option<Seq<Seq<char>>>
    decreases es.len(),
{
    if es.len() == 0 {
        Some(Seq::<Seq<char>>::empty())
    } else {
        match element_texts(es.drop_last()) {
            None => None,
            Some(ts) => match scalar(es.last()) {
                Scalar::Text(t) => Some(ts.push(t)),
                Scalar::Nothing => Some(ts),
                _ => None,
            },
        }
    }
}

/// One "key=text" line.
pub open spec fn option_line(key: Seq<char>, text: Seq<char>) -> Seq<char> {
    key + seq!['='] + text + seq!['\n']
}

/// One "key=text" line for each of `texts`.
pub open spec fn option_lines(key: Seq<char>, texts: Seq<Seq<char>>) -> Seq<char>
    decreases texts.len(),
{
    if texts.len() == 0 {
        Seq::<char>::empty()
    } else {
        option_lines(key, texts.drop_last()) + option_line(key, texts.last())
    }
}

/// The lines of a sequence value: one per text, or one line joining all texts with a space.
pub open spec fn sequence_lines(key: Seq<char>, joined: bool, texts: Seq<Seq<char>>) -> Seq<char> {
    if joined {
        if texts.len() > 0 {
            option_line(key, join(texts, seq![' ']))
        } else {
            Seq::<char>::empty()
        }
    } else {
        option_lines(key, texts)
    }
}

/// The lines that the struct field `key` with value `v` gives, or `None` for an invalid type.
pub open spec fn field_lines(key: Seq<char>, v: Value, options: Seq<JoinOption>) -> Option<
    Seq<char>,
> {
    match scalar(v) {
        Scalar::Text(t) => Some(option_line(key, t)),
        Scalar::Nothing => Some(Seq::<char>::empty()),
        Scalar::Elements(es) => match element_texts(es) {
            None => None,
            Some(ts) => Some(sequence_lines(key, is_joined(key, options), ts)),
        },
        _ => None,
    }
}

/// The lines of all fields of a struct, in order.
pub open spec fn fields_lines(fields: Seq<Field>, options: Seq<JoinOption>) -> Option<Seq<char>>
    decreases fields.len(),
{
    if fields.len() == 0 {
        Some(Seq::<char>::empty())
    } else {
        match fields_lines(fields.drop_last(), options) {
            None => None,
            Some(a) => match field_lines(fields.last().key@, fields.last().value, options) {
                None => None,
                Some(b) => Some(a + b),
            },
        }
    }
}

/// Elements that are all texts give those texts.
proof fn lemma_text_elements(es: Seq<Value>, texts: Seq<Seq<char>>)
    requires
        es.len() == texts.len(),
        forall|i: int|
            0 <= i < es.len() ==> (#[trigger] es[i] matches Value::Str(s) && s@ == texts[i]),
    ensures
        element_texts(es) == Some(texts),
    decreases es.len(),
{
    if es.len() > 0 {
        lemma_text_elements(es.drop_last(), texts.drop_last());
        assert(es.last() == es[es.len() - 1]);
        assert(texts.drop_last().push(texts.last()) =~= texts);
    }
}

/// A struct field holding a sequence of texts gives no line when the sequence is empty; one
/// line with the texts joined by single spaces when its key names a join option that is set;
/// otherwise one line for each text, in order.
pub proof fn sequence_field_law(
    key: Seq<char>,
    v: Value,
    texts: Seq<Seq<char>>,
    options: Seq<JoinOption>,
)
    requires
        seq_of_texts(v, texts),
    ensures
        field_lines(key, v, options) == Some(texts_field_lines(key, texts, options)),
{
    if let Value::SeqOf(es) = v {
        lemma_text_elements(es@, texts);
    }
}

/// `v` is a sequence of the strings `texts`, in order.
pub open spec fn seq_of_texts(v: Value, texts: Seq<Seq<char>>) -> bool {
    v matches Value::SeqOf(es) && es@.len() == texts.len() && forall|i: int|
        0 <= i < texts.len() ==> (#[trigger] es@[i] matches Value::Str(s) && s@ == texts[i])
}

/// The lines of a field that holds the texts `texts` under `key`: none without texts; one line
/// joining them by single spaces when `key` names a join option that is set; otherwise one line
/// for each, in order.
pub open spec fn texts_field_lines(key: Seq<char>, texts: Seq<Seq<char>>, options: Seq<JoinOption>) -> Seq<
    char,
> {
    if texts.len() == 0 {
        Seq::<char>::empty()
    } else if is_joined(key, options) {
        option_line(key, join(texts, seq![' ']))
    } else {
        option_lines(key, texts)
    }
}

/// The lines of fields that hold texts: the lines of each field, in the order of the fields.
pub open spec fn texts_fields_lines(
    fields: Seq<Field>,
    texts: Seq<Seq<Seq<char>>>,
    options: Seq<JoinOption>,
) -> Seq<char>
    decreases fields.len(),
{
    if fields.len() == 0 || texts.len() == 0 {
        Seq::<char>::empty()
    } else {
        texts_fields_lines(fields.drop_last(), texts.drop_last(), options) + texts_field_lines(
            fields.last().key@,
            texts.last(),
            options,
        )
    }
}

/// The lines of fields that each hold a sequence of texts.
proof fn lemma_texts_fields(fields: Seq<Field>, texts: Seq<Seq<Seq<char>>>, options: Seq<JoinOption>)
    requires
        fields.len() == texts.len(),
        forall|i: int| 0 <= i < fields.len() ==> seq_of_texts(#[trigger] fields[i].value, texts[i]),
    ensures
        fields_lines(fields, options) == Some(texts_fields_lines(fields, texts, options)),
    decreases fields.len(),
{
    if fields.len() > 0 {
        let n = fields.len() - 1;
        assert forall|i: int| 0 <= i < n implies seq_of_texts(
            #[trigger] fields.drop_last()[i].value,
            texts.drop_last()[i],
        ) by {
            assert(fields.drop_last()[i] == fields[i]);
            assert(seq_of_texts(fields[i].value, texts[i]));
        }
        lemma_texts_fields(fields.drop_last(), texts.drop_last(), options);
        assert(seq_of_texts(fields[n].value, texts[n]));
        sequence_field_law(fields.last().key@, fields.last().value, texts.last(), options);
    }
}

/// A struct whose fields all hold sequences of texts is written as its "\[name\]" header and
/// then, field by field in order, no line for an empty sequence, one line "KEY=x1 x2 .. xn" for
/// a key that names a join option that is set, and otherwise one line "KEY=xi" for each text.
pub proof fn struct_text_law(v: Value, texts: Seq<Seq<Seq<char>>>, options: Seq<JoinOption>)
    requires
        v matches Value::Struct { fields, .. } && fields@.len() == texts.len() && forall|i: int|
            0 <= i < texts.len() ==> seq_of_texts(#[trigger] fields@[i].value, texts[i]),
    ensures
        v matches Value::Struct { name, fields } && quadlet_text(v, options) == Some(
            header(false, name@) + texts_fields_lines(fields@, texts, options),
        ),
{
    if let Value::Struct { name, fields } = v {
        lemma_texts_fields(fields@, texts, options);
        assert(Seq::<char>::empty() + header(false, name@) + texts_fields_lines(fields@, texts, options)
            =~= header(false, name@) + texts_fields_lines(fields@, texts, options));
    }
}

/// The lines of two runs of fields are those of the first, then those of the second.
proof fn lemma_fields_lines_concat(a: Seq<Field>, b: Seq<Field>, options: Seq<JoinOption>)
    ensures
        fields_lines(a + b, options) == match (fields_lines(a, options), fields_lines(b, options)) {
            (Some(x), Some(y)) => Some(x + y),
            _ => None,
        },
    decreases b.len(),
{
    if b.len() == 0 {
        assert(a + b =~= a);
        if let Some(x) = fields_lines(a, options) {
            assert(x + Seq::<char>::empty() =~= x);
        }
    } else {
        lemma_fields_lines_concat(a, b.drop_last(), options);
        assert((a + b).drop_last() =~= a + b.drop_last());
        assert((a + b).last() == b.last());
        if let (Some(x), Some(y)) = (fields_lines(a, options), fields_lines(b.drop_last(), options)) {
            if let Some(z) = field_lines(b.last().key@, b.last().value, options) {
                assert(x + y + z =~= x + (y + z));
            }
        }
    }
}

/// In the text of any struct that can be written, a field that holds a sequence of texts under
/// `key` gives exactly its lines between those of the fields before it and those of the fields
/// after it: none for an empty sequence, one line "KEY=x1 x2 .. xn" when `key` names a join
/// option that is set, and otherwise one line "KEY=xi" for each text, in order.
pub proof fn struct_field_law(v: Value, i: int, texts: Seq<Seq<char>>, options: Seq<JoinOption>)
    requires
        quadlet_text(v, options) is Some,
        v matches Value::Struct { fields, .. } && 0 <= i < fields@.len() && seq_of_texts(
            fields@[i].value,
            texts,
        ),
    ensures
        v matches Value::Struct { name, fields } && {
            let before = fields_lines(fields@.take(i), options);
            let after = fields_lines(fields@.skip(i + 1), options);
            &&& before is Some && after is Some
            &&& quadlet_text(v, options) == Some(
                header(false, name@) + before->Some_0 + texts_field_lines(
                    fields@[i].key@,
                    texts,
                    options,
                ) + after->Some_0,
            )
        },
{
    if let Value::Struct { name, fields } = v {
        let fs = fields@;
        let one = seq![fs[i]];
        assert(fs =~= fs.take(i) + one + fs.skip(i + 1));
        lemma_fields_lines_concat(fs.take(i) + one, fs.skip(i + 1), options);
        lemma_fields_lines_concat(fs.take(i), one, options);
        sequence_field_law(fs[i].key@, fs[i].value, texts, options);
        assert(one.drop_last() =~= Seq::<Field>::empty());
        assert(one.last() == fs[i]);
        assert(fields_lines(one.drop_last(), options) == Some(Seq::<char>::empty()));
        let x = fields_lines(fs.take(i), options)->Some_0;
        let y = texts_field_lines(fs[i].key@, texts, options);
        assert(fields_lines(one, options) == Some(Seq::<char>::empty() + y));
        assert(Seq::<char>::empty() + y =~= y);
        let z = fields_lines(fs.skip(i + 1), options)->Some_0;
        assert(Seq::<char>::empty() + header(false, name@) + (x + y + z) =~= header(false, name@) + x
            + y + z);
    }
}

/// The "\[name\]" line of a section, left out inside a tuple after its first element.
pub open spec fn header(skip: bool, name: Seq<char>) -> Seq<char> {
    if skip {
        Seq::<char>::empty()
    } else {
        seq!['['] + name + seq![']', '\n']
    }
}

/// The output after serializing `v` at the top level onto `out`, and whether section names are
/// being skipped; `None` for an invalid type.
pub open spec fn sections(out: Seq<char>, skip: bool, v: Value, options: Seq<JoinOption>) -> Option<
    (Seq<char>, bool),
>
    decreases v, 0nat,
{
    match v {
        Value::Struct { name, fields } => match fields_lines(fields@, options) {
            None => None,
            Some(t) => Some((out + header(skip, name@) + t, skip)),
        },
        Value::StructVariant { variant, fields, .. } => match fields_lines(fields@, options) {
            None => None,
            Some(t) => Some((out + header(skip, variant@) + t, skip)),
        },
        Value::SeqOf(es) => sections_seq(out, skip, es@, options),
        Value::Tuple(es) => match sections_tuple(out, skip, es@, options) {
            None => None,
            Some((o, _)) => Some((o, false)),
        },
        _ => None,
    }
}

/// Serializing the elements of a top-level sequence, each after a blank line unless the output
/// is still empty.
pub open spec fn sections_seq(
    out: Seq<char>,
    skip: bool,
    es: Seq<Value>,
    options: Seq<JoinOption>,
) -> Option<(Seq<char>, bool)>
    decreases es, 1nat,
{
    if es.len() == 0 {
        Some((out, skip))
    } else {
        match sections_seq(out, skip, es.drop_last(), options) {
            None => None,
            Some((o, s)) => sections(
                if o.len() > 0 {
                    o.push('\n')
                } else {
                    o
                },
                s,
                es.last(),
                options,
            ),
        }
    }
}

/// Serializing the elements of a top-level tuple; section names are skipped after the first.
pub open spec fn sections_tuple(
    out: Seq<char>,
    skip: bool,
    es: Seq<Value>,
    options: Seq<JoinOption>,
) -> Option<(Seq<char>, bool)>
    decreases es, 1nat,
{
    if es.len() == 0 {
        Some((out, skip))
    } else {
        match sections_tuple(out, skip, es.drop_last(), options) {
            None => None,
            Some((o, s)) => match sections(o, s, es.last(), options) {
                None => None,
                Some((o2, _)) => Some((o2, true)),
            },
        }
    }
}

/// The Quadlet text of `v`, or `None` when `v` holds a type that cannot be serialized.
pub open spec fn quadlet_text(v: Value, options: Seq<JoinOption>) -> Option<Seq<char>> {
    match sections(Seq::<char>::empty(), false, v, options) {
        None => None,
        Some((o, _)) => Some(o),
    }
}

/// `options` holds `o`.
pub(crate) fn contains_option(options: &Vec<JoinOption>, o: JoinOption) -> (b: bool)
    ensures
        b == options@.contains(o),
{
    let mut i: usize = 0;
    while i < options.len()
        invariant
            i <= options@.len(),
            forall|j: int| 0 <= j < i ==> options@[j] != o,
        decreases options@.len() - i,
    {
        if options[i] == o {
            assert(options@[i as int] == o);
            return true;
        }
        i = i + 1;
    }
    false
}

/// The sequence values of the option `key` are joined onto one line under `options`.
pub fn key_is_joined(key: &str, options: &Vec<JoinOption>) -> (b: bool)
    ensures
        b == is_joined(key@, options@),
{
    match JoinOption::from_key(key) {
        Some(o) => contains_option(options, o),
        None => false,
    }
}

/// Write the lines of a sequence value of the option `key`.
fn write_elements(key: &str, joined: bool, es: &Vec<Value>, out: &mut String) -> (ok: bool)
    ensures
        ok == (element_texts(es@) is Some),
        ok ==> final(out)@ == old(out)@ + sequence_lines(key@, joined, element_texts(es@)->Some_0),
{
    let ghost o0 = out@;
    let mut first = true;
    let mut i: usize = 0;
    while i < es.len()
        invariant
            i <= es@.len(),
            element_texts(es@.subrange(0, i as int)) is Some,
            ({
                let ts = element_texts(es@.subrange(0, i as int))->Some_0;
                &&& first == (ts.len() == 0)
                &&& out@ == o0 + (if joined {
                    if ts.len() > 0 {
                        key@ + seq!['='] + join(ts, seq![' '])
                    } else {
                        Seq::<char>::empty()
                    }
                } else {
                    option_lines(key@, ts)
                })
            }),
        decreases es@.len() - i,
    {
        let ghost pre = es@.subrange(0, i + 1);
        assert(pre.drop_last() =~= es@.subrange(0, i as int));
        assert(pre.last() == es@[i as int]);
        let ghost ts = element_texts(es@.subrange(0, i as int))->Some_0;
        let c = classify(&es[i]);
        match c {
            ScalarRef::Text(t) => {
                let ghost o1 = out@;
                if joined {
                    if first {
                        push_str(out, key);
                        push_char(out, '=');
                        push_str(out, t.as_str());
                        assert(ts.push(t@) =~= seq![t@]);
                        assert(out@ =~= o0 + (key@ + seq!['='] + join(ts.push(t@), seq![' '])));
                    } else {
                        push_char(out, ' ');
                        push_str(out, t.as_str());
                        assert(ts.push(t@).drop_last() =~= ts);
                        assert(out@ =~= o0 + (key@ + seq!['='] + join(ts.push(t@), seq![' '])));
                    }
                } else {
                    push_str(out, key);
                    push_char(out, '=');
                    push_str(out, t.as_str());
                    push_char(out, '\n');
                    assert(ts.push(t@).drop_last() =~= ts);
                    assert(out@ =~= o0 + option_lines(key@, ts.push(t@)));
                }
                first = false;
            },
            ScalarRef::Nothing => {},
            _ => {
                proof {
                    lemma_element_texts_none(es@, i as int);
                }
                return false;
            },
        }
        i = i + 1;
    }
    assert(es@.subrange(0, es@.len() as int) =~= es@);
    if joined && !first {
        let ghost o1 = out@;
        push_char(out, '\n');
    }
    true
}

proof fn lemma_element_texts_none(es: Seq<Value>, i: int)
    requires
        0 <= i < es.len(),
        element_texts(es.subrange(0, i + 1)) is None,
    ensures
        element_texts(es) is None,
    decreases es.len() - i,
{
    if i + 1 < es.len() {
        assert(es.subrange(0, i + 2).drop_last() =~= es.subrange(0, i + 1));
        lemma_element_texts_none(es, i + 1);
    } else {
        assert(es.subrange(0, i + 1) =~= es);
    }
}

/// Write the lines of the struct field `key` with value `v`.
fn write_field(key: &str, v: &Value, options: &Vec<JoinOption>, out: &mut String) -> (ok: bool)
    ensures
        ok == (field_lines(key@, *v, options@) is Some),
        ok ==> final(out)@ == old(out)@ + field_lines(key@, *v, options@)->Some_0,
{
    match classify(v) {
        ScalarRef::Text(t) => {
            let ghost o0 = out@;
            push_str(out, key);
            push_char(out, '=');
            push_str(out, t.as_str());
            push_char(out, '\n');
            assert(out@ =~= o0 + option_line(key@, t@));
            true
        },
        ScalarRef::Nothing => {
            assert(out@ =~= out@ + Seq::<char>::empty());
            true
        },
        ScalarRef::Elements(es) => {
            let joined = key_is_joined(key, options);
            write_elements(key, joined, es, out)
        },
        _ => false,
    }
}

/// Write the lines of all fields of a struct.
fn write_fields(fields: &Vec<Field>, options: &Vec<JoinOption>, out: &mut String) -> (ok: bool)
    ensures
        ok == (fields_lines(fields@, options@) is Some),
        ok ==> final(out)@ == old(out)@ + fields_lines(fields@, options@)->Some_0,
{
    let ghost o0 = out@;
    let mut i: usize = 0;
    while i < fields.len()
        invariant
            i <= fields@.len(),
            fields_lines(fields@.subrange(0, i as int), options@) is Some,
            out@ == o0 + fields_lines(fields@.subrange(0, i as int), options@)->Some_0,
        decreases fields@.len() - i,
    {
        let ghost pre = fields@.subrange(0, i + 1);
        assert(pre.drop_last() =~= fields@.subrange(0, i as int));
        assert(pre.last() == fields@[i as int]);
        let ghost o1 = out@;
        let f = &fields[i];
        if !write_field(f.key.as_str(), &f.value, options, out) {
            proof {
                lemma_fields_lines_none(fields@, options@, i as int);
            }
            return false;
        }
        i = i + 1;
        assert(out@ =~= o0 + fields_lines(fields@.subrange(0, i as int), options@)->Some_0);
    }
    assert(fields@.subrange(0, fields@.len() as int) =~= fields@);
    true
}

proof fn lemma_fields_lines_none(fields: Seq<Field>, options: Seq<JoinOption>, i: int)
    requires
        0 <= i < fields.len(),
        fields_lines(fields.subrange(0, i + 1), options) is None,
    ensures
        fields_lines(fields, options) is None,
    decreases fields.len() - i,
{
    if i + 1 < fields.len() {
        assert(fields.subrange(0, i + 2).drop_last() =~= fields.subrange(0, i + 1));
        lemma_fields_lines_none(fields, options, i + 1);
    } else {
        assert(fields.subrange(0, i + 1) =~= fields);
    }
}

/// Write a struct section: its header unless skipped, then its fields.
fn write_struct(
    name: &str,
    fields: &Vec<Field>,
    skip: bool,
    options: &Vec<JoinOption>,
    out: &mut String,
) -> (ok: bool)
    ensures
        ok == (fields_lines(fields@, options@) is Some),
        ok ==> final(out)@ == old(out)@ + header(skip, name@) + fields_lines(fields@, options@)->Some_0,
{
    let ghost o0 = out@;
    if !skip {
        push_char(out, '[');
        push_str(out, name);
        push_char(out, ']');
        push_char(out, '\n');
    }
    assert(out@ =~= o0 + header(skip, name@));
    write_fields(fields, options, out)
}

/// Serialize `v` at the top level onto `out`, updating whether section names are skipped.
fn write_sections(v: &Value, out: &mut String, skip: &mut bool, options: &Vec<JoinOption>) -> (ok:
    bool)
    ensures
        ok == (sections(old(out)@, *old(skip), *v, options@) is Some),
        ok ==> sections(old(out)@, *old(skip), *v, options@) == Some((final(out)@, *final(skip))),
    decreases v, 0nat,
{
    match v {
        Value::Struct { name, fields } => {
            let ok = write_struct(name.as_str(), fields, *skip, options, out);
            ok
        },
        Value::StructVariant { variant, fields, .. } => {
            let ok = write_struct(variant.as_str(), fields, *skip, options, out);
            ok
        },
        Value::SeqOf(es) => write_seq(es, out, skip, options),
        Value::Tuple(es) => {
            let ok = write_tuple(es, out, skip, options);
            *skip = false;
            ok
        },
        _ => false,
    }
}

/// Serialize the elements of a top-level sequence.
fn write_seq(es: &Vec<Value>, out: &mut String, skip: &mut bool, options: &Vec<JoinOption>) -> (ok:
    bool)
    ensures
        ok == (sections_seq(old(out)@, *old(skip), es@, options@) is Some),
        ok ==> sections_seq(old(out)@, *old(skip), es@, options@) == Some(
            (final(out)@, *final(skip)),
        ),
    decreases es@, 1nat,
{
    let ghost o0 = out@;
    let ghost k0 = *skip;
    let mut i: usize = 0;
    while i < es.len()
        invariant
            i <= es@.len(),
            sections_seq(o0, k0, es@.subrange(0, i as int), options@) == Some((out@, *skip)),
            o0 == old(out)@,
            k0 == *old(skip),
        decreases es@.len() - i,
    {
        let ghost pre = es@.subrange(0, i + 1);
        assert(pre.drop_last() =~= es@.subrange(0, i as int));
        assert(pre.last() == es@[i as int]);
        let ghost ob = out@;
        let ghost sb = *skip;
        if !out.as_str().is_empty() {
            push_char(out, '\n');
        }
        assert(out@ == (if ob.len() > 0 {
            ob.push('\n')
        } else {
            ob
        }));
        if !write_sections(&es[i], out, skip, options) {
            proof {
                assert(sections_seq(o0, k0, pre, options@) is None);
                lemma_sections_seq_none(o0, k0, es@, options@, i as int);
            }
            return false;
        }
        i = i + 1;
    }
    assert(es@.subrange(0, es@.len() as int) =~= es@);
    true
}

proof fn lemma_sections_seq_none(
    out: Seq<char>,
    skip: bool,
    es: Seq<Value>,
    options: Seq<JoinOption>,
    i: int,
)
    requires
        0 <= i < es.len(),
        sections_seq(out, skip, es.subrange(0, i + 1), options) is None,
    ensures
        sections_seq(out, skip, es, options) is None,
    decreases es.len() - i,
{
    if i + 1 < es.len() {
        assert(es.subrange(0, i + 2).drop_last() =~= es.subrange(0, i + 1));
        lemma_sections_seq_none(out, skip, es, options, i + 1);
    } else {
        assert(es.subrange(0, i + 1) =~= es);
    }
}

/// Serialize the elements of a top-level tuple.
fn write_tuple(es: &Vec<Value>, out: &mut String, skip: &mut bool, options: &Vec<JoinOption>) -> (ok:
    bool)
    ensures
        ok == (sections_tuple(old(out)@, *old(skip), es@, options@) is Some),
        ok ==> sections_tuple(old(out)@, *old(skip), es@, options@) == Some(
            (final(out)@, *final(skip)),
        ),
    decreases es@, 1nat,
{
    let ghost o0 = out@;
    let ghost k0 = *skip;
    let mut i: usize = 0;
    while i < es.len()
        invariant
            i <= es@.len(),
            sections_tuple(o0, k0, es@.subrange(0, i as int), options@) == Some((out@, *skip)),
            o0 == old(out)@,
            k0 == *old(skip),
        decreases es@.len() - i,
    {
        let ghost pre = es@.subrange(0, i + 1);
        assert(pre.drop_last() =~= es@.subrange(0, i as int));
        assert(pre.last() == es@[i as int]);
        let ghost ob = out@;
        let ghost sb = *skip;
        if !write_sections(&es[i], out, skip, options) {
            proof {
                assert(sections(ob, sb, es@[i as int], options@) is None);
                assert(sections_tuple(o0, k0, pre, options@) is None);
                lemma_sections_tuple_none(o0, k0, es@, options@, i as int);
            }
            return false;
        }
        *skip = true;
        i = i + 1;
    }
    assert(es@.subrange(0, es@.len() as int) =~= es@);
    true
}

proof fn lemma_sections_tuple_none(
    out: Seq<char>,
    skip: bool,
    es: Seq<Value>,
    options: Seq<JoinOption>,
    i: int,
)
    requires
        0 <= i < es.len(),
        sections_tuple(out, skip, es.subrange(0, i + 1), options) is None,
    ensures
        sections_tuple(out, skip, es, options) is None,
    decreases es.len() - i,
{
    if i + 1 < es.len() {
        assert(es.subrange(0, i + 2).drop_last() =~= es.subrange(0, i + 1));
        lemma_sections_tuple_none(out, skip, es, options, i + 1);
    } else {
        assert(es.subrange(0, i + 1) =~= es);
    }
}

/// Serializes `value` to the text of one or more Quadlet sections.
///
/// `join_options` is the set of Quadlet options whose sequence values are joined by a space.
///
/// Returns [`Error::InvalidType`] when the value is not a struct, sequence, or tuple at the top
/// level, or holds a type that cannot be an option value, such as a nested map.
pub fn to_string(value: &Value, join_options: &Vec<JoinOption>) -> (r: Result<String, Error>)
    ensures
        match r {
            Ok(s) => quadlet_text(*value, join_options@) == Some(s@),
            Err(e) => quadlet_text(*value, join_options@) is None && e == Error::InvalidType,
        },
{
    let mut out = String::new();
    let mut skip = false;
    if write_sections(value, &mut out, &mut skip, join_options) {
        Ok(out)
    } else {
        Err(Error::InvalidType)
    }
}

/// Alias for [`to_string`] with every [`JoinOption`] joined.
pub fn to_string_join_all(value: &Value) -> (r: Result<String, Error>)
    ensures
        match r {
            Ok(s) => quadlet_text(*value, all_join_options()) == Some(s@),
            Err(e) => quadlet_text(*value, all_join_options()) is None && e == Error::InvalidType,
        },
{
    let all = JoinOption::all_set();
    to_string(value, &all)
}

/// `v` is the sequence of the strings `items`, each quoted when it holds whitespace.
pub open spec fn quoted_strings(v: Value, items: Seq<Seq<char>>) -> bool {
    v matches Value::SeqOf(es) && es@.len() == items.len() && forall|i: int|
        0 <= i < items.len() ==> (#[trigger] es@[i] matches Value::Str(s) && s@ == whitespace_quoted(
            items[i],
        ))
}

/// The sequence value of strings, each quoted when it holds whitespace.
pub fn seq_quote_whitespace(items: &Vec<String>) -> (v: Value)
    ensures
        quoted_strings(v, items.deep_view()),
{
    let mut es: Vec<Value> = Vec::new();
    let mut i: usize = 0;
    while i < items.len()
        invariant
            i <= items@.len(),
            es@.len() == i,
            forall|j: int|
                0 <= j < i ==> (#[trigger] es@[j] matches Value::Str(s) && s@ == whitespace_quoted(
                    items@[j]@,
                )),
        decreases items@.len() - i,
    {
        es.push(Value::Str(quote_whitespace(items[i].as_str())));
        i = i + 1;
    }
    Value::SeqOf(es)
}

/// The sequence value of the texts of items, as `serialize_display_seq` writes them.
pub fn serialize_display_seq(items: &Vec<String>) -> (v: Value)
    ensures
        v matches Value::SeqOf(es) && es@.len() == items@.len() && forall|i: int|
            0 <= i < items@.len() ==> (#[trigger] es@[i] matches Value::Str(s) && s@
                == items@[i]@),
{
    let mut es: Vec<Value> = Vec::new();
    let mut i: usize = 0;
    while i < items.len()
        invariant
            i <= items@.len(),
            es@.len() == i,
            forall|j: int|
                0 <= j < i ==> (#[trigger] es@[j] matches Value::Str(s) && s@ == items@[j]@),
        decreases items@.len() - i,
    {
        es.push(Value::Str(items[i].clone()));
        i = i + 1;
    }
    Value::SeqOf(es)
}

} // verus!
