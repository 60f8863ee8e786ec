//! [`Idmap`] for the `idmap` options of bind and volume mounts, and [`Mapping`], one UID/GID
//! mapping.
//!
//! The text format is "uids=\[@\]from-to-length\[#...\];gids=\[@\]from-to-length\[#...\]".

use vstd::prelude::*;

use crate::num::{decimal, lemma_digits_of, parse_u32, parse_unsigned, write_decimal};
use crate::text::{has_char, join, opt_seq, lemma_split_join, lemma_split_once_concat, lemma_split_props, lemma_strip_prefix_concat, push_char, push_str, split, split_once, str_split, str_split_once, str_strip_prefix, strip_prefix};

verus! {

/// Custom UID/GID mapping for [`Idmap`].
///
/// Text format is "\[@\]from-to-length".
#[derive(Debug, Clone, Copy, PartialEq, Eq)]
pub struct Mapping {
    /// Whether `from` and `to` are relative to the container user namespace.
    pub container_relative: bool,
    /// Start of the backing file system IDs.
    pub from: u32,
    /// Start of the mapped IDs.
    pub to: u32,
    /// Length of the mapping.
    pub length: u32,
}

/// Error returned when parsing [`Mapping`].
#[derive(Debug, Clone, PartialEq, Eq)]
pub enum ParseMappingError {
    /// [`Mapping`] requires 3 numbers.
    NotTriplet { count: usize },
    /// Number was not an integer.
    ParseInt { value: String },
}

/// [`ParseMappingError`] with its text as a character sequence.
pub ghost enum MappingErr {
    NotTriplet { count: nat },
    ParseInt { value: Seq<char> },
}

impl View for ParseMappingError {
    type V = MappingErr;

    open spec fn view(&self) -> MappingErr {
        match self {
            ParseMappingError::NotTriplet { count } => MappingErr::NotTriplet { count: *count as nat },
            ParseMappingError::ParseInt { value } => MappingErr::ParseInt { value: value@ },
        }
    }
}

/// What parsing "\[@\]from-to-length" gives.
pub open spec fn parse_mapping(s: Seq<char>) -> Result<Mapping, MappingErr> {
    let (relative, rest) = match strip_prefix(s, seq!['@']) {
        Some(rest) => (true, rest),
        None => (false, s),
    };
    let parts = split(rest, '-');
    if parts.len() != 3 {
        Err(MappingErr::NotTriplet { count: parts.len() })
    } else {
        match (
            parse_unsigned(parts[0], 10, u32::MAX as nat),
            parse_unsigned(parts[1], 10, u32::MAX as nat),
            parse_unsigned(parts[2], 10, u32::MAX as nat),
        ) {
            (None, _, _) => Err(MappingErr::ParseInt { value: parts[0] }),
            (Some(_), None, _) => Err(MappingErr::ParseInt { value: parts[1] }),
            (Some(_), Some(_), None) => Err(MappingErr::ParseInt { value: parts[2] }),
            (Some(from), Some(to), Some(length)) => Ok(
                Mapping {
                    container_relative: relative,
                    from: from as u32,
                    to: to as u32,
                    length: length as u32,
                },
            ),
        }
    }
}

/// The text of a [`Mapping`]: "\[@\]from-to-length".
pub open spec fn mapping_text(m: Mapping) -> Seq<char> {
    (if m.container_relative {
        seq!['@']
    } else {
        Seq::<char>::empty()
    }) + decimal(m.from as nat) + seq!['-'] + decimal(m.to as nat) + seq!['-'] + decimal(
        m.length as nat,
    )
}

impl Mapping {
    /// Parse a [`Mapping`] from "\[@\]from-to-length".
    pub fn parse(s: &str) -> (r: Result<Mapping, ParseMappingError>)
        ensures
            match r {
                Ok(m) => parse_mapping(s@) == Ok::<Mapping, MappingErr>(m),
                Err(e) => parse_mapping(s@) == Err::<Mapping, MappingErr>(e@),
            },
    {
        let (relative, rest) = match str_strip_prefix(s, "@") {
            Some(rest) => (true, rest),
            None => (false, s.to_owned()),
        };
        proof {
            reveal_strlit("@");
            assert("@"@ =~= seq!['@']);
        }
        let parts = str_split(rest.as_str(), '-');
        if parts.len() != 3 {
            return Err(ParseMappingError::NotTriplet { count: parts.len() });
        }
        let from = match parse_u32(parts[0].as_str()) {
            Some(n) => n,
            None => {
                return Err(ParseMappingError::ParseInt { value: parts[0].clone() });
            },
        };
        let to = match parse_u32(parts[1].as_str()) {
            Some(n) => n,
            None => {
                return Err(ParseMappingError::ParseInt { value: parts[1].clone() });
            },
        };
        let length = match parse_u32(parts[2].as_str()) {
            Some(n) => n,
            None => {
                return Err(ParseMappingError::ParseInt { value: parts[2].clone() });
            },
        };
        Ok(Mapping { container_relative: relative, from, to, length })
    }

    /// Append the text of this mapping to `out`.
    pub fn write_to(&self, out: &mut String)
        ensures
            final(out)@ == old(out)@ + mapping_text(*self),
    {
        let ghost s0 = out@;
        if self.container_relative {
            push_char(out, '@');
        }
        write_decimal(out, self.from as u128);
        push_char(out, '-');
        write_decimal(out, self.to as u128);
        push_char(out, '-');
        write_decimal(out, self.length as u128);
        assert(out@ =~= s0 + mapping_text(*self));
    }

    /// The text of this mapping: "\[@\]from-to-length".
    pub fn to_string(&self) -> (s: String)
        ensures
            s@ == mapping_text(*self),
    {
        let mut s = String::new();
        self.write_to(&mut s);
        assert(Seq::<char>::empty() + mapping_text(*self) =~= mapping_text(*self));
        s
    }
}

/// Idmap bind and volume mount options.
#[derive(Debug, Clone, PartialEq, Eq)]
pub struct Idmap {
    pub uids: Vec<Mapping>,
    pub gids: Vec<Mapping>,
}

impl View for Idmap {
    type V = (Seq<Mapping>, Seq<Mapping>);

    open spec fn view(&self) -> (Seq<Mapping>, Seq<Mapping>) {
        (self.uids@, self.gids@)
    }
}

/// Error returned when parsing [`Idmap`].
#[derive(Debug, Clone, PartialEq, Eq)]
pub enum ParseIdmapError {
    /// A mapping is missing a "uids=" or "gids=" prefix.
    MissingPrefix,
    /// "uids=" set twice.
    RepeatedUidsPrefix,
    /// "gids=" set twice.
    RepeatedGidsPrefix,
    /// Unknown prefix given.
    UnknownPrefix(String),
    /// Error parsing [`Mapping`].
    ParseMapping(ParseMappingError),
}

/// [`ParseIdmapError`] with its text as a character sequence.
pub ghost enum IdmapErr {
    MissingPrefix,
    RepeatedUidsPrefix,
    RepeatedGidsPrefix,
    UnknownPrefix(Seq<char>),
    ParseMapping(MappingErr),
}

impl View for ParseIdmapError {
    type V = IdmapErr;

    open spec fn view(&self) -> IdmapErr {
        match self {
            ParseIdmapError::MissingPrefix => IdmapErr::MissingPrefix,
            ParseIdmapError::RepeatedUidsPrefix => IdmapErr::RepeatedUidsPrefix,
            ParseIdmapError::RepeatedGidsPrefix => IdmapErr::RepeatedGidsPrefix,
            ParseIdmapError::UnknownPrefix(p) => IdmapErr::UnknownPrefix(p@),
            ParseIdmapError::ParseMapping(e) => IdmapErr::ParseMapping(e@),
        }
    }
}

/// Parse each piece as a [`Mapping`]; the first error wins.
pub open spec fn parse_mapping_list(pieces: Seq<Seq<char>>) -> Result<Seq<Mapping>, MappingErr>
    decreases pieces.len(),
{
    if pieces.len() == 0 {
        Ok(Seq::<Mapping>::empty())
    } else {
        match parse_mapping_list(pieces.drop_last()) {
            Err(e) => Err(e),
            Ok(ms) => match parse_mapping(pieces.last()) {
                Ok(m) => Ok(ms.push(m)),
                Err(e) => Err(e),
            },
        }
    }
}

/// The mappings in a "#"-separated list, or none when there is no list.
pub open spec fn parse_mappings_spec(ids: Option<Seq<char>>) -> Result<Seq<Mapping>, MappingErr> {
    match ids {
        None => Ok(Seq::<Mapping>::empty()),
        Some(s) => parse_mapping_list(split(s, '#')),
    }
}

/// Which lists an idmap string names, before the lists are parsed.
pub open spec fn idmap_parts(s: Seq<char>) -> Result<
    (Option<Seq<char>>, Option<Seq<char>>),
    IdmapErr,
> {
    let (first, second) = match split_once(s, ';') {
        Some((a, b)) => (a, Some(b)),
        None => (s, None),
    };
    match split_once(first, '=') {
        None => Err(IdmapErr::MissingPrefix),
        Some((fp, f)) => {
            let second = match second {
                None => Ok(None),
                Some(b) => match split_once(b, '=') {
                    None => Err(IdmapErr::MissingPrefix),
                    Some(pair) => Ok(Some(pair)),
                },
            };
            match second {
                Err(e) => Err(e),
                Ok(None) => if fp == "uids"@ {
                    Ok((Some(f), None))
                } else if fp == "gids"@ {
                    Ok((None, Some(f)))
                } else {
                    Err(IdmapErr::UnknownPrefix(fp))
                },
                Ok(Some((sp, sv))) => if fp == "uids"@ && sp == "gids"@ {
                    Ok((Some(f), Some(sv)))
                } else if fp == "gids"@ && sp == "uids"@ {
                    Ok((Some(sv), Some(f)))
                } else if fp == "uids"@ && sp == "uids"@ {
                    Err(IdmapErr::RepeatedUidsPrefix)
                } else if fp == "gids"@ && sp == "gids"@ {
                    Err(IdmapErr::RepeatedGidsPrefix)
                } else if fp != "uids"@ && fp != "gids"@ {
                    Err(IdmapErr::UnknownPrefix(fp))
                } else {
                    Err(IdmapErr::UnknownPrefix(sp))
                },
            }
        },
    }
}

/// What parsing an idmap string gives: the UID mappings and the GID mappings.
#[verifier::opaque]
pub open spec fn parse_idmap(s: Seq<char>) -> Result<(Seq<Mapping>, Seq<Mapping>), IdmapErr> {
    match idmap_parts(s) {
        Err(e) => Err(e),
        Ok((u, g)) => match parse_mappings_spec(u) {
            Err(e) => Err(IdmapErr::ParseMapping(e)),
            Ok(uids) => match parse_mappings_spec(g) {
                Err(e) => Err(IdmapErr::ParseMapping(e)),
                Ok(gids) => Ok((uids, gids)),
            },
        },
    }
}

/// The texts of `ms`, separated by "#".
pub open spec fn mappings_text(ms: Seq<Mapping>) -> Seq<char> {
    join(ms.map_values(|m: Mapping| mapping_text(m)), seq!['#'])
}

/// The text of an idmap with UID mappings `uids` and GID mappings `gids`.
#[verifier::opaque]
pub open spec fn idmap_text(uids: Seq<Mapping>, gids: Seq<Mapping>) -> Seq<char> {
    (if uids.len() > 0 {
        "uids="@ + mappings_text(uids)
    } else {
        Seq::<char>::empty()
    }) + (if gids.len() > 0 {
        (if uids.len() > 0 {
            seq![';']
        } else {
            Seq::<char>::empty()
        }) + "gids="@ + mappings_text(gids)
    } else {
        Seq::<char>::empty()
    })
}

/// Split `s` on '=', [`ParseIdmapError::MissingPrefix`] otherwise.
fn split_prefix(s: &str) -> (r: Result<(String, String), ParseIdmapError>)
    ensures
        match r {
            Ok((a, b)) => split_once(s@, '=') == Some((a@, b@)),
            Err(e) => split_once(s@, '=') is None && e@ == IdmapErr::MissingPrefix,
        },
{
    match str_split_once(s, '=') {
        Some(pair) => Ok(pair),
        None => Err(ParseIdmapError::MissingPrefix),
    }
}

/// Parse [`Mapping`]s from a "#"-separated list, or none when there is no list.
fn parse_mappings(ids: Option<&str>) -> (r: Result<Vec<Mapping>, ParseMappingError>)
    ensures
        match ids {
            None => r matches Ok(ms) && ms@ == Seq::<Mapping>::empty(),
            Some(s) => match r {
                Ok(ms) => parse_mapping_list(split(s@, '#')) == Ok::<Seq<Mapping>, MappingErr>(ms@),
                Err(e) => parse_mapping_list(split(s@, '#')) == Err::<Seq<Mapping>, MappingErr>(e@),
            },
        },
{
    match ids {
        None => {
            let v: Vec<Mapping> = Vec::new();
            assert(v@ =~= Seq::<Mapping>::empty());
            Ok(v)
        },
        Some(s) => parse_mapping_pieces(s),
    }
}

/// Parse [`Mapping`]s from a "#"-separated list.
fn parse_mapping_pieces(s: &str) -> (r: Result<Vec<Mapping>, ParseMappingError>)
    ensures
        match r {
            Ok(ms) => parse_mapping_list(split(s@, '#')) == Ok::<Seq<Mapping>, MappingErr>(ms@),
            Err(e) => parse_mapping_list(split(s@, '#')) == Err::<Seq<Mapping>, MappingErr>(e@),
        },
{
    let pieces = str_split(s, '#');
    let mut out: Vec<Mapping> = Vec::new();
    let mut i: usize = 0;
    while i < pieces.len()
        invariant
            i <= pieces@.len(),
            pieces.deep_view() == split(s@, '#'),
            parse_mapping_list(pieces.deep_view().subrange(0, i as int)) == Ok::<
                Seq<Mapping>,
                MappingErr,
            >(out@),
        decreases pieces@.len() - i,
    {
        let ghost pre = pieces.deep_view().subrange(0, i + 1);
        assert(pre.drop_last() =~= pieces.deep_view().subrange(0, i as int));
        assert(pre.last() == pieces[i as int]@);
        match Mapping::parse(pieces[i].as_str()) {
            Ok(m) => {
                out.push(m);
            },
            Err(e) => {
                proof {
                    lemma_parse_list_err(pieces.deep_view(), i as int, e@);
                }
                return Err(e);
            },
        }
        i = i + 1;
    }
    assert(pieces.deep_view().subrange(0, pieces@.len() as int) =~= pieces.deep_view());
    Ok(out)
}

/// An error at piece `i` is the error of the whole list.
proof fn lemma_parse_list_err(pieces: Seq<Seq<char>>, i: int, e: MappingErr)
    requires
        0 <= i < pieces.len(),
        parse_mapping_list(pieces.subrange(0, i + 1)) == Err::<Seq<Mapping>, MappingErr>(e),
    ensures
        parse_mapping_list(pieces) == Err::<Seq<Mapping>, MappingErr>(e),
    decreases pieces.len() - i,
{
    if i + 1 < pieces.len() {
        let pre = pieces.subrange(0, i + 2);
        assert(pre.drop_last() =~= pieces.subrange(0, i + 1));
        lemma_parse_list_err(pieces, i + 1, e);
    } else {
        assert(pieces.subrange(0, i + 1) =~= pieces);
    }
}

/// Append the texts of `ms`, separated by "#", to `out`.
fn fmt_mappings(ms: &Vec<Mapping>, out: &mut String)
    ensures
        final(out)@ == old(out)@ + mappings_text(ms@),
{
    let ghost s0 = out@;
    let mut i: usize = 0;
    while i < ms.len()
        invariant
            i <= ms@.len(),
            out@ == s0 + mappings_text(ms@.subrange(0, i as int)),
        decreases ms@.len() - i,
    {
        let ghost texts = ms@.subrange(0, i + 1).map_values(|m: Mapping| mapping_text(m));
        assert(texts.drop_last() =~= ms@.subrange(0, i as int).map_values(
            |m: Mapping| mapping_text(m),
        ));
        if i > 0 {
            push_char(out, '#');
        }
        ms[i].write_to(out);
        proof {
            if i == 0 {
                assert(texts =~= seq![mapping_text(ms@[0])]);
                assert(ms@.subrange(0, 0).map_values(|m: Mapping| mapping_text(m)) =~= Seq::<
                    Seq<char>,
                >::empty());
                assert(out@ =~= s0 + mappings_text(ms@.subrange(0, 1)));
            } else {
                assert(out@ =~= s0 + mappings_text(ms@.subrange(0, i + 1)));
            }
        }
        i = i + 1;
    }
    assert(ms@.subrange(0, ms@.len() as int) =~= ms@);
}

impl Idmap {
    /// An idmap without mappings.
    pub fn new() -> (r: Idmap)
        ensures
            r@ == (Seq::<Mapping>::empty(), Seq::<Mapping>::empty()),
    {
        let r = Idmap { uids: Vec::new(), gids: Vec::new() };
        assert(r.uids@ =~= Seq::<Mapping>::empty());
        assert(r.gids@ =~= Seq::<Mapping>::empty());
        r
    }

    /// Returns `true` if all fields are empty.
    pub fn is_empty(&self) -> (b: bool)
        ensures
            b == (self.uids@.len() == 0 && self.gids@.len() == 0),
    {
        self.uids.len() == 0 && self.gids.len() == 0
    }

    /// Parse an [`Idmap`] from "uids=...;gids=...", either part optional but not both.
    pub fn parse(s: &str) -> (r: Result<Idmap, ParseIdmapError>)
        ensures
            match r {
                Ok(m) => parse_idmap(s@) == Ok::<(Seq<Mapping>, Seq<Mapping>), IdmapErr>(
                    (m.uids@, m.gids@),
                ),
                Err(e) => parse_idmap(s@) == Err::<(Seq<Mapping>, Seq<Mapping>), IdmapErr>(e@),
            },
    {
        reveal(parse_idmap);
        let (first, second) = match str_split_once(s, ';') {
            Some((a, b)) => (a, Some(b)),
            None => (s.to_owned(), None),
        };
        let (fp, f) = split_prefix(first.as_str())?;
        let second = match second {
            None => None,
            Some(b) => Some(split_prefix(b.as_str())?),
        };
        let is_uids = crate::text::str_eq(fp.as_str(), "uids");
        let is_gids = crate::text::str_eq(fp.as_str(), "gids");
        let (uids, gids): (Option<String>, Option<String>) = match second {
            None => {
                if is_uids {
                    (Some(f), None)
                } else if is_gids {
                    (None, Some(f))
                } else {
                    return Err(ParseIdmapError::UnknownPrefix(fp));
                }
            },
            Some((sp, sv)) => {
                let s_uids = crate::text::str_eq(sp.as_str(), "uids");
                let s_gids = crate::text::str_eq(sp.as_str(), "gids");
                if is_uids && s_gids {
                    (Some(f), Some(sv))
                } else if is_gids && s_uids {
                    (Some(sv), Some(f))
                } else if is_uids && s_uids {
                    return Err(ParseIdmapError::RepeatedUidsPrefix);
                } else if is_gids && s_gids {
                    return Err(ParseIdmapError::RepeatedGidsPrefix);
                } else if !is_uids && !is_gids {
                    return Err(ParseIdmapError::UnknownPrefix(fp));
                } else {
                    return Err(ParseIdmapError::UnknownPrefix(sp));
                }
            },
        };
        assert(idmap_parts(s@) == Ok::<(Option<Seq<char>>, Option<Seq<char>>), IdmapErr>(
            (opt_seq(uids), opt_seq(gids)),
        ));
        let uids = match parse_mappings(
            match &uids {
                Some(u) => Some(u.as_str()),
                None => None,
            },
        ) {
            Ok(ms) => ms,
            Err(e) => {
                return Err(ParseIdmapError::ParseMapping(e));
            },
        };
        let gids = match parse_mappings(
            match &gids {
                Some(g) => Some(g.as_str()),
                None => None,
            },
        ) {
            Ok(ms) => ms,
            Err(e) => {
                return Err(ParseIdmapError::ParseMapping(e));
            },
        };
        Ok(Idmap { uids, gids })
    }

    /// The idmap that an option gives: empty without a value, else the parsed value.
    pub fn from_value(value: Option<&str>) -> (r: Result<Idmap, ParseIdmapError>)
        ensures
            match value {
                None => r matches Ok(m) && m@ == (Seq::<Mapping>::empty(), Seq::<Mapping>::empty()),
                Some(v) => match r {
                    Ok(m) => parse_idmap(v@) == Ok::<(Seq<Mapping>, Seq<Mapping>), IdmapErr>(m@),
                    Err(e) => parse_idmap(v@) == Err::<(Seq<Mapping>, Seq<Mapping>), IdmapErr>(e@),
                },
            },
    {
        match value {
            None => Ok(Idmap::new()),
            Some(v) => Idmap::parse(v),
        }
    }

    /// Append the text of this idmap to `out`.
    pub fn write_to(&self, out: &mut String)
        ensures
            final(out)@ == old(out)@ + idmap_text(self.uids@, self.gids@),
    {
        reveal(idmap_text);
        let ghost s0 = out@;
        if self.uids.len() > 0 {
            push_str(out, "uids=");
            fmt_mappings(&self.uids, out);
        }
        let ghost s1 = out@;
        if self.gids.len() > 0 {
            if self.uids.len() > 0 {
                push_char(out, ';');
            }
            push_str(out, "gids=");
            fmt_mappings(&self.gids, out);
        }
        assert(out@ =~= s0 + idmap_text(self.uids@, self.gids@));
    }

    /// The text of this idmap: "uids=...;gids=...", each part only when it has mappings.
    pub fn to_string(&self) -> (s: String)
        ensures
            s@ == idmap_text(self.uids@, self.gids@),
    {
        let mut s = String::new();
        self.write_to(&mut s);
        assert(Seq::<char>::empty() + idmap_text(self.uids@, self.gids@) =~= idmap_text(
            self.uids@,
            self.gids@,
        ));
        s
    }
}

/// Every character of a mapping's text is '@', '-' or a decimal digit.
proof fn lemma_mapping_text_chars(m: Mapping)
    ensures
        forall|i: int|
            0 <= i < mapping_text(m).len() ==> {
                let c = #[trigger] mapping_text(m)[i];
                c == '@' || c == '-' || ('0' <= c <= '9')
            },
        mapping_text(m).len() > 0,
{
    lemma_digits_of(m.from as nat, 10);
    lemma_digits_of(m.to as nat, 10);
    lemma_digits_of(m.length as nat, 10);
    let p = if m.container_relative {
        seq!['@']
    } else {
        Seq::<char>::empty()
    };
    let t = mapping_text(m);
    let a = decimal(m.from as nat);
    let b = decimal(m.to as nat);
    let c = decimal(m.length as nat);
    assert(t =~= p + a + seq!['-'] + b + seq!['-'] + c);
    assert forall|i: int| 0 <= i < t.len() implies {
        let x = #[trigger] t[i];
        x == '@' || x == '-' || ('0' <= x <= '9')
    } by {
        let i0 = p.len() as int;
        let i1 = i0 + a.len();
        let i2 = i1 + 1 + b.len();
        if i < i0 {
        } else if i < i1 {
            assert(t[i] == a[i - i0]);
        } else if i == i1 {
        } else if i < i2 {
            assert(t[i] == b[i - i1 - 1]);
        } else if i == i2 {
        } else {
            assert(t[i] == c[i - i2 - 1]);
        }
    }
}

/// A mapping's text holds none of '#', ';', '='.
proof fn lemma_mapping_text_free(m: Mapping)
    ensures
        !has_char(mapping_text(m), '#'),
        !has_char(mapping_text(m), ';'),
        !has_char(mapping_text(m), '='),
{
    lemma_mapping_text_chars(m);
}

/// Joining pieces that lack `c` with a separator that lacks `c` gives text that lacks `c`.
proof fn lemma_join_free(pieces: Seq<Seq<char>>, sep: Seq<char>, c: char)
    requires
        forall|k: int| 0 <= k < pieces.len() ==> !has_char(#[trigger] pieces[k], c),
        !has_char(sep, c),
    ensures
        !has_char(join(pieces, sep), c),
    decreases pieces.len(),
{
    if pieces.len() > 1 {
        let init = pieces.drop_last();
        assert forall|k: int| 0 <= k < init.len() implies !has_char(#[trigger] init[k], c) by {
            assert(init[k] == pieces[k]);
        }
        lemma_join_free(init, sep, c);
        let j = join(init, sep);
        let l = pieces.last();
        assert(!has_char(l, c)) by {
            assert(l == pieces[pieces.len() - 1]);
        }
        let t = j + sep + l;
        if has_char(t, c) {
            let i = choose|i: int| 0 <= i < t.len() && t[i] == c;
            if i < j.len() {
                assert(t[i] == j[i]);
            } else if i < j.len() + sep.len() {
                assert(t[i] == sep[i - j.len()]);
            } else {
                assert(t[i] == l[i - j.len() - sep.len()]);
            }
        }
    } else if pieces.len() == 1 {
        assert(!has_char(pieces[0], c));
    }
}

/// Joining pieces that lack `c` with a separator that lacks `c` gives text that lacks `c`.
pub proof fn lemma_join_free_pub(pieces: Seq<Seq<char>>, sep: Seq<char>, c: char)
    requires
        forall|k: int| 0 <= k < pieces.len() ==> !has_char(#[trigger] pieces[k], c),
        !has_char(sep, c),
    ensures
        !has_char(join(pieces, sep), c),
{
    lemma_join_free(pieces, sep, c);
}

/// The text of a list of mappings holds no ';' and no '='.
proof fn lemma_mappings_text_free(ms: Seq<Mapping>)
    ensures
        !has_char(mappings_text(ms), ';'),
        !has_char(mappings_text(ms), '='),
{
    let texts = ms.map_values(|m: Mapping| mapping_text(m));
    assert forall|k: int| 0 <= k < texts.len() implies !has_char(#[trigger] texts[k], ';')
        && !has_char(texts[k], '=') by {
        lemma_mapping_text_free(ms[k]);
    }
    lemma_join_free(texts, seq!['#'], ';');
    lemma_join_free(texts, seq!['#'], '=');
}

/// A character that the text of an idmap never holds.
pub open spec fn foreign_to_idmap(c: char) -> bool {
    !(c == '@' || c == '-' || c == '#' || c == ';' || c == '=' || c == 'u' || c == 'i' || c == 'd'
        || c == 's' || c == 'g' || ('0' <= c <= '9'))
}

/// The text of an idmap holds no character foreign to it.
pub proof fn lemma_idmap_text_free(uids: Seq<Mapping>, gids: Seq<Mapping>, c: char)
    requires
        foreign_to_idmap(c),
    ensures
        !has_char(idmap_text(uids, gids), c),
{
    reveal(idmap_text);
    reveal_strlit("uids=");
    reveal_strlit("gids=");
    lemma_mappings_free(uids, c);
    lemma_mappings_free(gids, c);
    let t = idmap_text(uids, gids);
    if has_char(t, c) {
        let u = mappings_text(uids);
        let g = mappings_text(gids);
        let a = if uids.len() > 0 {
            "uids="@ + u
        } else {
            Seq::<char>::empty()
        };
        let b = if gids.len() > 0 {
            (if uids.len() > 0 {
                seq![';']
            } else {
                Seq::<char>::empty()
            }) + "gids="@ + g
        } else {
            Seq::<char>::empty()
        };
        assert(t == a + b);
        let i = choose|i: int| 0 <= i < t.len() && t[i] == c;
        if i < a.len() {
            assert(t[i] == a[i]);
            if i >= 5 {
                assert(a[i] == u[i - 5]);
            }
        } else {
            let j = i - a.len();
            assert(t[i] == b[j]);
            let k = if uids.len() > 0 {
                1int
            } else {
                0int
            };
            if j >= k + 5 {
                assert(b[j] == g[j - k - 5]);
            }
        }
    }
}

/// The text of a list of mappings holds no character foreign to an idmap.
proof fn lemma_mappings_free(ms: Seq<Mapping>, c: char)
    requires
        foreign_to_idmap(c),
    ensures
        !has_char(mappings_text(ms), c),
{
    let texts = ms.map_values(|m: Mapping| mapping_text(m));
    assert forall|k: int| 0 <= k < texts.len() implies !has_char(#[trigger] texts[k], c) by {
        lemma_mapping_text_chars(ms[k]);
        if has_char(texts[k], c) {
            let i = choose|i: int| 0 <= i < texts[k].len() && texts[k][i] == c;
            assert(texts[k] == mapping_text(ms[k]));
        }
    }
    lemma_join_free(texts, seq!['#'], c);
}

/// Parsing the texts of mappings gives the mappings back.
proof fn lemma_parse_mapping_list_texts(ms: Seq<Mapping>)
    ensures
        parse_mapping_list(ms.map_values(|m: Mapping| mapping_text(m))) == Ok::<
            Seq<Mapping>,
            MappingErr,
        >(ms),
    decreases ms.len(),
{
    let texts = ms.map_values(|m: Mapping| mapping_text(m));
    if ms.len() > 0 {
        lemma_parse_mapping_list_texts(ms.drop_last());
        assert(texts.drop_last() =~= ms.drop_last().map_values(|m: Mapping| mapping_text(m)));
        mapping_round_trip(ms.last());
        assert(ms.drop_last().push(ms.last()) =~= ms);
    } else {
        assert(ms =~= Seq::<Mapping>::empty());
    }
}

/// Parsing the "#"-separated text of a non-empty list of mappings gives the list back.
proof fn lemma_parse_mappings_text(ms: Seq<Mapping>)
    requires
        ms.len() > 0,
    ensures
        parse_mappings_spec(Some(mappings_text(ms))) == Ok::<Seq<Mapping>, MappingErr>(ms),
{
    let texts = ms.map_values(|m: Mapping| mapping_text(m));
    assert forall|k: int| 0 <= k < texts.len() implies !has_char(#[trigger] texts[k], '#') by {
        lemma_mapping_text_free(ms[k]);
    }
    lemma_split_join(texts, '#');
    lemma_parse_mapping_list_texts(ms);
}

/// Parsing the text of a mapping gives the mapping back.
pub proof fn mapping_round_trip(m: Mapping)
    ensures
        parse_mapping(mapping_text(m)) == Ok::<Mapping, MappingErr>(m),
{
    lemma_digits_of(m.from as nat, 10);
    lemma_digits_of(m.to as nat, 10);
    lemma_digits_of(m.length as nat, 10);
    crate::num::lemma_parse_decimal(m.from as nat, u32::MAX as nat);
    crate::num::lemma_parse_decimal(m.to as nat, u32::MAX as nat);
    crate::num::lemma_parse_decimal(m.length as nat, u32::MAX as nat);
    let a = decimal(m.from as nat);
    let b = decimal(m.to as nat);
    let c = decimal(m.length as nat);
    let rest = a + seq!['-'] + b + seq!['-'] + c;
    let t = mapping_text(m);
    if m.container_relative {
        assert(t =~= seq!['@'] + rest);
        lemma_strip_prefix_concat(seq!['@'], rest);
    } else {
        assert(t =~= rest);
        assert(rest[0] == a[0]);
        assert('0' <= a[0] <= '9');
        assert(t.subrange(0, 1)[0] == t[0]);
        assert(!seq!['@'].is_prefix_of(t));
    }
    let pieces = seq![a, b, c];
    assert(seq![a, b].drop_last() =~= seq![a]);
    assert(pieces.drop_last() =~= seq![a, b]);
    assert(join(seq![a], seq!['-']) == a);
    assert(join(seq![a, b], seq!['-']) == a + seq!['-'] + b);
    assert(join(pieces, seq!['-']) == join(seq![a, b], seq!['-']) + seq!['-'] + c);
    assert(join(pieces, seq!['-']) =~= rest);
    assert forall|k: int| 0 <= k < pieces.len() implies !has_char(#[trigger] pieces[k], '-') by {
        let p = pieces[k];
        if has_char(p, '-') {
            let i = choose|i: int| 0 <= i < p.len() && p[i] == '-';
            assert('0' <= p[i] <= '9');
        }
    }
    lemma_split_join(pieces, '-');
}

/// Parsing the text of an idmap with at least one mapping gives the idmap back.
#[verifier::spinoff_prover]
#[verifier::rlimit(40)]
pub proof fn idmap_round_trip(uids: Seq<Mapping>, gids: Seq<Mapping>)
    requires
        uids.len() > 0 || gids.len() > 0,
    ensures
        parse_idmap(idmap_text(uids, gids)) == Ok::<(Seq<Mapping>, Seq<Mapping>), IdmapErr>(
            (uids, gids),
        ),
{
    reveal(parse_idmap);
    reveal(idmap_text);
    reveal_strlit("uids=");
    reveal_strlit("gids=");
    reveal_strlit("uids");
    reveal_strlit("gids");
    let uids_eq = "uids="@;
    let gids_eq = "gids="@;
    assert(uids_eq =~= "uids"@ + seq!['='] + Seq::<char>::empty());
    assert(gids_eq =~= "gids"@ + seq!['='] + Seq::<char>::empty());
    assert(!has_char("uids"@, '=')) by {
        assert(forall|i: int| 0 <= i < 4 ==> "uids"@[i] != '=');
    }
    assert(!has_char("gids"@, '=')) by {
        assert(forall|i: int| 0 <= i < 4 ==> "gids"@[i] != '=');
    }
    assert("uids"@ != "gids"@) by {
        assert("uids"@[0] != "gids"@[0]);
    }
    lemma_mappings_text_free(uids);
    lemma_mappings_text_free(gids);
    let u = mappings_text(uids);
    let g = mappings_text(gids);
    let first = "uids"@ + seq!['='] + u;
    let second = "gids"@ + seq!['='] + g;
    assert(!has_char(first, ';')) by {
        if has_char(first, ';') {
            let i = choose|i: int| 0 <= i < first.len() && first[i] == ';';
            if i >= 5 {
                assert(first[i] == u[i - 5]);
            }
        }
    }
    assert(!has_char(second, ';')) by {
        if has_char(second, ';') {
            let i = choose|i: int| 0 <= i < second.len() && second[i] == ';';
            if i >= 5 {
                assert(second[i] == g[i - 5]);
            }
        }
    }
    lemma_split_once_concat("uids"@, u, '=');
    lemma_split_once_concat("gids"@, g, '=');
    let t = idmap_text(uids, gids);
    if uids.len() > 0 && gids.len() > 0 {
        assert(t =~= first + seq![';'] + second);
        lemma_split_once_concat(first, second, ';');
        lemma_parse_mappings_text(uids);
        lemma_parse_mappings_text(gids);
    } else if uids.len() > 0 {
        assert(t =~= first);
        lemma_parse_mappings_text(uids);
        assert(gids =~= Seq::<Mapping>::empty());
    } else {
        assert(t =~= second);
        lemma_parse_mappings_text(gids);
        assert(uids =~= Seq::<Mapping>::empty());
    }
}

impl Default for Idmap {
    fn default() -> (r: Idmap)
        ensures
            r@ == (Seq::<Mapping>::empty(), Seq::<Mapping>::empty()),
    {
        let r = Idmap { uids: Vec::new(), gids: Vec::new() };
        assert(r.uids@ =~= Seq::<Mapping>::empty());
        assert(r.gids@ =~= Seq::<Mapping>::empty());
        r
    }
}

impl core::str::FromStr for Mapping {
    type Err = ParseMappingError;

    fn from_str(s: &str) -> (r: Result<Mapping, ParseMappingError>)
        ensures
            match r {
                Ok(m) => parse_mapping(s@) == Ok::<Mapping, MappingErr>(m),
                Err(e) => parse_mapping(s@) == Err::<Mapping, MappingErr>(e@),
            },
    {
        Mapping::parse(s)
    }
}

impl core::str::FromStr for Idmap {
    type Err = ParseIdmapError;

    fn from_str(s: &str) -> (r: Result<Idmap, ParseIdmapError>)
        ensures
            match r {
                Ok(m) => parse_idmap(s@) == Ok::<(Seq<Mapping>, Seq<Mapping>), IdmapErr>(
                    (m.uids@, m.gids@),
                ),
                Err(e) => parse_idmap(s@) == Err::<(Seq<Mapping>, Seq<Mapping>), IdmapErr>(e@),
            },
    {
        Idmap::parse(s)
    }
}

} // verus!
