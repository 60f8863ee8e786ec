//! Making Quadlet files fit an older Podman: options that it does not know become arguments
//! passed to Podman where it has them, and are errors where it does not.

use vstd::prelude::*;

use crate::text::opt_seq;

use crate::text::{push_char, push_str};

verus! {

/// A version of Podman, by its major and minor numbers.
#[derive(Debug, Clone, Copy, PartialEq, Eq, Structural)]
pub struct PodmanVersion {
    pub major: u16,
    pub minor: u16,
}

/// `a` is an older version than `b`.
pub open spec fn older(a: PodmanVersion, b: PodmanVersion) -> bool {
    a.major < b.major || (a.major == b.major && a.minor < b.minor)
}

impl PodmanVersion {
    /// The version `major.minor`.
    pub fn new(major: u16, minor: u16) -> (v: PodmanVersion)
        ensures
            v == (PodmanVersion { major, minor }),
    {
        PodmanVersion { major, minor }
    }

    /// Whether this version is older than `other`.
    pub fn is_older_than(&self, other: PodmanVersion) -> (b: bool)
        ensures
            b == older(*self, other),
    {
        self.major < other.major || (self.major == other.major && self.minor < other.minor)
    }
}

/// Error returned when a Quadlet file cannot be made to fit an older Podman.
#[derive(Debug, Clone, PartialEq, Eq)]
pub enum DowngradeError {
    /// A Quadlet option with this value that the version does not support and that has no
    /// argument form; it is supported from `supported_version` on.
    Option { quadlet_option: String, value: String, supported_version: PodmanVersion },
    /// A kind of Quadlet file that the version does not support; it is supported from
    /// `supported_version` on.
    Kind { kind: String, supported_version: PodmanVersion },
}

/// [`DowngradeError`] with its texts as character sequences.
pub ghost enum DowngradeErr {
    Option { quadlet_option: Seq<char>, value: Seq<char>, supported_version: PodmanVersion },
    Kind { kind: Seq<char>, supported_version: PodmanVersion },
}

impl View for DowngradeError {
    type V = DowngradeErr;

    open spec fn view(&self) -> DowngradeErr {
        match self {
            DowngradeError::Option { quadlet_option, value, supported_version } => {
                DowngradeErr::Option {
                    quadlet_option: quadlet_option@,
                    value: value@,
                    supported_version: *supported_version,
                }
            },
            DowngradeError::Kind { kind, supported_version } => DowngradeErr::Kind {
                kind: kind@,
                supported_version: *supported_version,
            },
        }
    }
}

/// Podman's arguments after `--flag`, the separator `sep` and `arg` are added: after a space
/// unless there were none.
pub open spec fn with_arg(args: Option<Seq<char>>, flag: Seq<char>, sep: char, arg: Seq<char>) -> Seq<
    char,
> {
    let a = match args {
        Some(a) => a,
        None => Seq::<char>::empty(),
    };
    (if a.len() > 0 {
        a.push(' ')
    } else {
        a
    }) + seq!['-', '-'] + flag + seq![sep] + arg
}

/// Podman's arguments after `--flag arg` is added: after a space unless there were none.
pub open spec fn with_podman_arg(args: Option<Seq<char>>, flag: Seq<char>, arg: Seq<char>) -> Seq<
    char,
> {
    with_arg(args, flag, ' ', arg)
}

/// Add `--flag`, the separator `sep` and `arg` to Podman's arguments.
pub fn push_arg_with(args: &mut Option<String>, flag: &str, sep: char, arg: &str)
    ensures
        *final(args) matches Some(a) && a@ == with_arg(opt_seq(*old(args)), flag@, sep, arg@),
{
    let mut a = match args.take() {
        Some(a) => a,
        None => String::new(),
    };
    if a.as_str().unicode_len() > 0 {
        push_char(&mut a, ' ');
    }
    let ghost spaced = a@;
    push_str(&mut a, "--");
    push_str(&mut a, flag);
    push_char(&mut a, sep);
    push_str(&mut a, arg);
    proof {
        reveal_strlit("--");
        assert("--"@ =~= seq!['-', '-']);
    }
    assert(a@ =~= spaced + seq!['-', '-'] + flag@ + seq![sep] + arg@);
    *args = Some(a);
}

/// Add `--flag arg` to Podman's arguments.
pub fn push_podman_arg(args: &mut Option<String>, flag: &str, arg: &str)
    ensures
        *final(args) matches Some(a) && a@ == with_podman_arg(opt_seq(*old(args)), flag@, arg@),
{
    push_arg_with(args, flag, ' ', arg);
}

} // verus!
