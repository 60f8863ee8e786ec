//! Option values shared by mounts and volumes: bind propagation, SELinux relabeling, and the size
//! of a tmpfs or ramfs mount.

use vstd::prelude::*;

use crate::num::{decimal, lemma_digits_of, parse_u64, parse_u8, parse_unsigned, write_decimal};
use crate::text::{chars, push_char, push_str, str_eq, string_of, substring};

verus! {

/// Types of bind propagation.
#[derive(Debug, Clone, Copy, PartialEq, Eq, Structural)]
pub enum BindPropagation {
    Shared,
    Slave,
    Private,
    Unbindable,
    RShared,
    RSlave,
    RUnbindable,
    RPrivate,
}

/// The lowercase name of a [`BindPropagation`].
pub open spec fn propagation_name(p: BindPropagation) -> Seq<char> {
    match p {
        BindPropagation::Shared => "shared"@,
        BindPropagation::Slave => "slave"@,
        BindPropagation::Private => "private"@,
        BindPropagation::Unbindable => "unbindable"@,
        BindPropagation::RShared => "rshared"@,
        BindPropagation::RSlave => "rslave"@,
        BindPropagation::RUnbindable => "runbindable"@,
        BindPropagation::RPrivate => "rprivate"@,
    }
}

/// The [`BindPropagation`] with the lowercase name `s`.
pub open spec fn propagation_of(s: Seq<char>) -> Option<BindPropagation> {
    if s == "shared"@ {
        Some(BindPropagation::Shared)
    } else if s == "slave"@ {
        Some(BindPropagation::Slave)
    } else if s == "private"@ {
        Some(BindPropagation::Private)
    } else if s == "unbindable"@ {
        Some(BindPropagation::Unbindable)
    } else if s == "rshared"@ {
        Some(BindPropagation::RShared)
    } else if s == "rslave"@ {
        Some(BindPropagation::RSlave)
    } else if s == "runbindable"@ {
        Some(BindPropagation::RUnbindable)
    } else if s == "rprivate"@ {
        Some(BindPropagation::RPrivate)
    } else {
        None
    }
}

/// Error returned when parsing [`BindPropagation`]: the unknown name.
#[derive(Debug, Clone, PartialEq, Eq)]
pub struct ParseBindPropagationError(pub String);

impl BindPropagation {
    /// The default bind propagation, `rprivate`.
    pub fn default_value() -> (r: BindPropagation)
        ensures
            r == BindPropagation::RPrivate,
    {
        BindPropagation::RPrivate
    }

    /// Parse a [`BindPropagation`] from its lowercase name.
    pub fn parse(s: &str) -> (r: Result<BindPropagation, ParseBindPropagationError>)
        ensures
            match r {
                Ok(p) => propagation_of(s@) == Some(p),
                Err(e) => propagation_of(s@) is None && e.0@ == s@,
            },
    {
        if str_eq(s, "shared") {
            Ok(BindPropagation::Shared)
        } else if str_eq(s, "slave") {
            Ok(BindPropagation::Slave)
        } else if str_eq(s, "private") {
            Ok(BindPropagation::Private)
        } else if str_eq(s, "unbindable") {
            Ok(BindPropagation::Unbindable)
        } else if str_eq(s, "rshared") {
            Ok(BindPropagation::RShared)
        } else if str_eq(s, "rslave") {
            Ok(BindPropagation::RSlave)
        } else if str_eq(s, "runbindable") {
            Ok(BindPropagation::RUnbindable)
        } else if str_eq(s, "rprivate") {
            Ok(BindPropagation::RPrivate)
        } else {
            Err(ParseBindPropagationError(s.to_owned()))
        }
    }

    /// The lowercase name of this bind propagation.
    pub fn as_str(&self) -> (s: &'static str)
        ensures
            s@ == propagation_name(*self),
    {
        match self {
            BindPropagation::Shared => "shared",
            BindPropagation::Slave => "slave",
            BindPropagation::Private => "private",
            BindPropagation::Unbindable => "unbindable",
            BindPropagation::RShared => "rshared",
            BindPropagation::RSlave => "rslave",
            BindPropagation::RUnbindable => "runbindable",
            BindPropagation::RPrivate => "rprivate",
        }
    }

    /// The lowercase name of this bind propagation.
    pub fn to_string(&self) -> (s: String)
        ensures
            s@ == propagation_name(*self),
    {
        self.as_str().to_owned()
    }
}

impl Default for BindPropagation {
    fn default() -> (r: BindPropagation)
        ensures
            r == BindPropagation::RPrivate,
    {
        BindPropagation::RPrivate
    }
}

/// Parsing the name of a bind propagation gives it back.
pub proof fn propagation_round_trip(p: BindPropagation)
    ensures
        propagation_of(propagation_name(p)) == Some(p),
{
    reveal_strlit("shared");
    reveal_strlit("slave");
    reveal_strlit("private");
    reveal_strlit("unbindable");
    reveal_strlit("rshared");
    reveal_strlit("rslave");
    reveal_strlit("runbindable");
    reveal_strlit("rprivate");
    let names = seq![
        "shared"@,
        "slave"@,
        "private"@,
        "unbindable"@,
        "rshared"@,
        "rslave"@,
        "runbindable"@,
        "rprivate"@,
    ];
    assert forall|i: int, j: int| 0 <= i < j < 8 implies names[i] != names[j] by {
        if names[i] == names[j] {
            assert(names[i].len() == names[j].len());
            assert(names[i][0] == names[j][0]);
            assert(names[i][1] == names[j][1]);
            assert(names[i][2] == names[j][2]);
        }
    }
    assert(names[0] == "shared"@);
    assert(names[1] == "slave"@);
    assert(names[2] == "private"@);
    assert(names[3] == "unbindable"@);
    assert(names[4] == "rshared"@);
    assert(names[5] == "rslave"@);
    assert(names[6] == "runbindable"@);
    assert(names[7] == "rprivate"@);
}

/// SELinux relabeling.
#[derive(Debug, Clone, Copy, PartialEq, Eq, Structural)]
pub enum SELinuxRelabel {
    Shared,
    Private,
}

/// The lowercase name of a [`SELinuxRelabel`].
pub open spec fn relabel_name(r: SELinuxRelabel) -> Seq<char> {
    match r {
        SELinuxRelabel::Shared => "shared"@,
        SELinuxRelabel::Private => "private"@,
    }
}

/// The volume option letter of a [`SELinuxRelabel`]: 'z' for shared, 'Z' for private.
pub open spec fn relabel_char(r: SELinuxRelabel) -> char {
    match r {
        SELinuxRelabel::Shared => 'z',
        SELinuxRelabel::Private => 'Z',
    }
}

impl SELinuxRelabel {
    /// The [`SELinuxRelabel`] with the lowercase name `s`.
    pub fn from_name(s: &str) -> (r: Option<SELinuxRelabel>)
        ensures
            r == (if s@ == "shared"@ {
                Some(SELinuxRelabel::Shared)
            } else if s@ == "private"@ {
                Some(SELinuxRelabel::Private)
            } else {
                None
            }),
    {
        if str_eq(s, "shared") {
            Some(SELinuxRelabel::Shared)
        } else if str_eq(s, "private") {
            Some(SELinuxRelabel::Private)
        } else {
            None
        }
    }

    /// The lowercase name of this relabeling.
    pub fn as_str(&self) -> (s: &'static str)
        ensures
            s@ == relabel_name(*self),
    {
        match self {
            SELinuxRelabel::Shared => "shared",
            SELinuxRelabel::Private => "private",
        }
    }

    /// The volume option letter of this relabeling.
    pub fn to_char(&self) -> (c: char)
        ensures
            c == relabel_char(*self),
    {
        match self {
            SELinuxRelabel::Shared => 'z',
            SELinuxRelabel::Private => 'Z',
        }
    }
}

/// Size in bytes or percentage, of a tmpfs or ramfs mount.
#[derive(Debug, Clone, Copy, PartialEq, Eq, Structural)]
pub enum Size {
    Bytes(u64),
    Kibibytes(u64),
    Mebibytes(u64),
    Gibibytes(u64),
    Percent(u8),
    Unlimited,
}

/// Error returned when parsing [`Size`]: the text that is not an integer.
#[derive(Debug, Clone, PartialEq, Eq)]
pub struct ParseSizeError {
    pub value: String,
}

/// What parsing a size gives: a number with an optional suffix `%`, `g`/`G`, `m`/`M`, `k`/`K`,
/// or nothing for unlimited; on an error, the text that did not parse as a number.
pub open spec fn parse_size(s: Seq<char>) -> Result<Size, Seq<char>> {
    if s.len() == 0 {
        Ok(Size::Unlimited)
    } else {
        let last = s.last();
        let body = s.drop_last();
        if last == '%' {
            match parse_unsigned(body, 10, u8::MAX as nat) {
                Some(n) => Ok(Size::Percent(n as u8)),
                None => Err(body),
            }
        } else if last == 'g' || last == 'G' {
            match parse_unsigned(body, 10, u64::MAX as nat) {
                Some(n) => Ok(Size::Gibibytes(n as u64)),
                None => Err(body),
            }
        } else if last == 'm' || last == 'M' {
            match parse_unsigned(body, 10, u64::MAX as nat) {
                Some(n) => Ok(Size::Mebibytes(n as u64)),
                None => Err(body),
            }
        } else if last == 'k' || last == 'K' {
            match parse_unsigned(body, 10, u64::MAX as nat) {
                Some(n) => Ok(Size::Kibibytes(n as u64)),
                None => Err(body),
            }
        } else {
            match parse_unsigned(s, 10, u64::MAX as nat) {
                Some(n) => Ok(Size::Bytes(n as u64)),
                None => Err(s),
            }
        }
    }
}

/// The text of a size: the number and its suffix, or nothing for unlimited.
pub open spec fn size_text(z: Size) -> Seq<char> {
    match z {
        Size::Bytes(n) => decimal(n as nat),
        Size::Kibibytes(n) => decimal(n as nat).push('k'),
        Size::Mebibytes(n) => decimal(n as nat).push('m'),
        Size::Gibibytes(n) => decimal(n as nat).push('g'),
        Size::Percent(n) => decimal(n as nat).push('%'),
        Size::Unlimited => Seq::<char>::empty(),
    }
}

impl Size {
    /// Parse a [`Size`] such as "200m", "50%", or "" for unlimited.
    pub fn parse(s: &str) -> (r: Result<Size, ParseSizeError>)
        ensures
            match r {
                Ok(z) => parse_size(s@) == Ok::<Size, Seq<char>>(z),
                Err(e) => parse_size(s@) == Err::<Size, Seq<char>>(e.value@),
            },
    {
        let v = chars(s);
        if v.len() == 0 {
            return Ok(Size::Unlimited);
        }
        let n = v.len();
        let last = v[n - 1];
        let body = substring(&v, 0, n - 1);
        assert(body@ =~= s@.drop_last());
        if last == '%' {
            match parse_u8(body.as_str()) {
                Some(k) => Ok(Size::Percent(k)),
                None => Err(ParseSizeError { value: body }),
            }
        } else if last == 'g' || last == 'G' {
            match parse_u64(body.as_str()) {
                Some(k) => Ok(Size::Gibibytes(k)),
                None => Err(ParseSizeError { value: body }),
            }
        } else if last == 'm' || last == 'M' {
            match parse_u64(body.as_str()) {
                Some(k) => Ok(Size::Mebibytes(k)),
                None => Err(ParseSizeError { value: body }),
            }
        } else if last == 'k' || last == 'K' {
            match parse_u64(body.as_str()) {
                Some(k) => Ok(Size::Kibibytes(k)),
                None => Err(ParseSizeError { value: body }),
            }
        } else {
            match parse_u64(s) {
                Some(k) => Ok(Size::Bytes(k)),
                None => Err(ParseSizeError { value: string_of(&v) }),
            }
        }
    }

    /// Append the text of this size to `out`.
    pub fn write_to(&self, out: &mut String)
        ensures
            final(out)@ == old(out)@ + size_text(*self),
    {
        let ghost o = out@;
        match self {
            Size::Bytes(n) => {
                write_decimal(out, *n as u128);
            },
            Size::Kibibytes(n) => {
                write_decimal(out, *n as u128);
                push_char(out, 'k');
            },
            Size::Mebibytes(n) => {
                write_decimal(out, *n as u128);
                push_char(out, 'm');
            },
            Size::Gibibytes(n) => {
                write_decimal(out, *n as u128);
                push_char(out, 'g');
            },
            Size::Percent(n) => {
                write_decimal(out, *n as u128);
                push_char(out, '%');
            },
            Size::Unlimited => {},
        }
        assert(out@ =~= o + size_text(*self));
    }

    /// The text of this size.
    pub fn to_string(&self) -> (s: String)
        ensures
            s@ == size_text(*self),
    {
        let mut s = String::new();
        self.write_to(&mut s);
        assert(Seq::<char>::empty() + size_text(*self) =~= size_text(*self));
        s
    }
}

impl Default for Size {
    fn default() -> (r: Size)
        ensures
            r == Size::Unlimited,
    {
        Size::Unlimited
    }
}

/// Parsing the text of a size gives the size back.
pub proof fn size_round_trip(z: Size)
    ensures
        parse_size(size_text(z)) == Ok::<Size, Seq<char>>(z),
{
    match z {
        Size::Bytes(n) => {
            lemma_digits_of(n as nat, 10);
            crate::num::lemma_parse_decimal(n as nat, u64::MAX as nat);
            let t = decimal(n as nat);
            assert('0' <= t[t.len() - 1] <= '9');
        },
        Size::Kibibytes(n) => {
            crate::num::lemma_parse_decimal(n as nat, u64::MAX as nat);
            assert(decimal(n as nat).push('k').drop_last() =~= decimal(n as nat));
        },
        Size::Mebibytes(n) => {
            crate::num::lemma_parse_decimal(n as nat, u64::MAX as nat);
            assert(decimal(n as nat).push('m').drop_last() =~= decimal(n as nat));
        },
        Size::Gibibytes(n) => {
            crate::num::lemma_parse_decimal(n as nat, u64::MAX as nat);
            assert(decimal(n as nat).push('g').drop_last() =~= decimal(n as nat));
        },
        Size::Percent(n) => {
            crate::num::lemma_parse_decimal(n as nat, u8::MAX as nat);
            assert(decimal(n as nat).push('%').drop_last() =~= decimal(n as nat));
        },
        Size::Unlimited => {},
    }
}

} // verus!
