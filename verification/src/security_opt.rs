//! The security options of `podman run --security-opt`, and how they are folded into Quadlet
//! options.

use vstd::prelude::*;

use crate::text::opt_seq;

use crate::container::{Unmask, UnmaskView, add_paths_spec};
use crate::text::{push_str, push_string, split, str_eq, str_split, str_strip_prefix, strip_prefix};

verus! {

/// A security option.
#[derive(Debug, Clone, PartialEq, Eq)]
pub enum SecurityOpt {
    Apparmor(String),
    Label(LabelOpt),
    Mask(String),
    NoNewPrivileges,
    Seccomp(String),
    ProcOpts(String),
    Unmask(String),
}

/// An SELinux label option.
#[derive(Debug, Clone, PartialEq, Eq)]
pub enum LabelOpt {
    User(String),
    Role(String),
    Type(String),
    Level(String),
    Filetype(String),
    Disable,
    Nested,
}

/// [`LabelOpt`] with its texts as character sequences.
pub ghost enum LabelOptView {
    User(Seq<char>),
    Role(Seq<char>),
    Type(Seq<char>),
    Level(Seq<char>),
    Filetype(Seq<char>),
    Disable,
    Nested,
}

/// [`SecurityOpt`] with its texts as character sequences.
pub ghost enum SecurityOptView {
    Apparmor(Seq<char>),
    Label(LabelOptView),
    Mask(Seq<char>),
    NoNewPrivileges,
    Seccomp(Seq<char>),
    ProcOpts(Seq<char>),
    Unmask(Seq<char>),
}

impl View for LabelOpt {
    type V = LabelOptView;

    open spec fn view(&self) -> LabelOptView {
        match self {
            LabelOpt::User(s) => LabelOptView::User(s@),
            LabelOpt::Role(s) => LabelOptView::Role(s@),
            LabelOpt::Type(s) => LabelOptView::Type(s@),
            LabelOpt::Level(s) => LabelOptView::Level(s@),
            LabelOpt::Filetype(s) => LabelOptView::Filetype(s@),
            LabelOpt::Disable => LabelOptView::Disable,
            LabelOpt::Nested => LabelOptView::Nested,
        }
    }
}

impl View for SecurityOpt {
    type V = SecurityOptView;

    open spec fn view(&self) -> SecurityOptView {
        match self {
            SecurityOpt::Apparmor(s) => SecurityOptView::Apparmor(s@),
            SecurityOpt::Label(l) => SecurityOptView::Label(l@),
            SecurityOpt::Mask(s) => SecurityOptView::Mask(s@),
            SecurityOpt::NoNewPrivileges => SecurityOptView::NoNewPrivileges,
            SecurityOpt::Seccomp(s) => SecurityOptView::Seccomp(s@),
            SecurityOpt::ProcOpts(s) => SecurityOptView::ProcOpts(s@),
            SecurityOpt::Unmask(s) => SecurityOptView::Unmask(s@),
        }
    }
}

/// Error returned when parsing a [`LabelOpt`]: the text that is not one.
#[derive(Debug, Clone, PartialEq, Eq)]
pub struct InvalidLabelOpt(pub String);

/// Error returned when parsing a [`SecurityOpt`].
#[derive(Debug, Clone, PartialEq, Eq)]
pub enum ParseSecurityOptError {
    /// The label option is not one.
    InvalidLabelOpt(InvalidLabelOpt),
    /// Not a security option.
    InvalidSecurityOpt(String),
}

/// [`ParseSecurityOptError`] with its text as a character sequence.
pub ghost enum SecurityOptErr {
    InvalidLabelOpt(Seq<char>),
    InvalidSecurityOpt(Seq<char>),
}

impl View for ParseSecurityOptError {
    type V = SecurityOptErr;

    open spec fn view(&self) -> SecurityOptErr {
        match self {
            ParseSecurityOptError::InvalidLabelOpt(e) => SecurityOptErr::InvalidLabelOpt(e.0@),
            ParseSecurityOptError::InvalidSecurityOpt(s) => SecurityOptErr::InvalidSecurityOpt(s@),
        }
    }
}

/// What parsing a label option gives; `None` when `s` is not one.
pub open spec fn parse_label_opt(s: Seq<char>) -> Option<LabelOptView> {
    match strip_prefix(s, "user:"@) {
        Some(v) => Some(LabelOptView::User(v)),
        None => match strip_prefix(s, "role:"@) {
            Some(v) => Some(LabelOptView::Role(v)),
            None => match strip_prefix(s, "type:"@) {
                Some(v) => Some(LabelOptView::Type(v)),
                None => match strip_prefix(s, "level:"@) {
                    Some(v) => Some(LabelOptView::Level(v)),
                    None => match strip_prefix(s, "filetype:"@) {
                        Some(v) => Some(LabelOptView::Filetype(v)),
                        None => if s == "disable"@ {
                            Some(LabelOptView::Disable)
                        } else if s == "nested"@ {
                            Some(LabelOptView::Nested)
                        } else {
                            None
                        },
                    },
                },
            },
        },
    }
}

/// What parsing a security option gives.
pub open spec fn parse_security_opt(s: Seq<char>) -> Result<SecurityOptView, SecurityOptErr> {
    match strip_prefix(s, "apparmor="@) {
        Some(v) => Ok(SecurityOptView::Apparmor(v)),
        None => match strip_prefix(s, "label="@) {
            Some(v) => match parse_label_opt(v) {
                Some(l) => Ok(SecurityOptView::Label(l)),
                None => Err(SecurityOptErr::InvalidLabelOpt(v)),
            },
            None => match strip_prefix(s, "mask="@) {
                Some(v) => Ok(SecurityOptView::Mask(v)),
                None => if s == "no-new-privileges"@ {
                    Ok(SecurityOptView::NoNewPrivileges)
                } else {
                    match strip_prefix(s, "seccomp="@) {
                        Some(v) => Ok(SecurityOptView::Seccomp(v)),
                        None => match strip_prefix(s, "proc-opts="@) {
                            Some(v) => Ok(SecurityOptView::ProcOpts(v)),
                            None => match strip_prefix(s, "unmask="@) {
                                Some(v) => Ok(SecurityOptView::Unmask(v)),
                                None => Err(SecurityOptErr::InvalidSecurityOpt(s)),
                            },
                        },
                    }
                },
            },
        },
    }
}

impl LabelOpt {
    /// Parse a label option.
    pub fn parse(s: &str) -> (r: Result<LabelOpt, InvalidLabelOpt>)
        ensures
            match r {
                Ok(l) => parse_label_opt(s@) == Some(l@),
                Err(e) => parse_label_opt(s@) is None && e.0@ == s@,
            },
    {
        if let Some(v) = str_strip_prefix(s, "user:") {
            Ok(LabelOpt::User(v))
        } else if let Some(v) = str_strip_prefix(s, "role:") {
            Ok(LabelOpt::Role(v))
        } else if let Some(v) = str_strip_prefix(s, "type:") {
            Ok(LabelOpt::Type(v))
        } else if let Some(v) = str_strip_prefix(s, "level:") {
            Ok(LabelOpt::Level(v))
        } else if let Some(v) = str_strip_prefix(s, "filetype:") {
            Ok(LabelOpt::Filetype(v))
        } else if str_eq(s, "disable") {
            Ok(LabelOpt::Disable)
        } else if str_eq(s, "nested") {
            Ok(LabelOpt::Nested)
        } else {
            Err(InvalidLabelOpt(s.to_owned()))
        }
    }
}

impl SecurityOpt {
    /// Parse a security option.
    pub fn parse(s: &str) -> (r: Result<SecurityOpt, ParseSecurityOptError>)
        ensures
            match r {
                Ok(o) => parse_security_opt(s@) == Ok::<SecurityOptView, SecurityOptErr>(o@),
                Err(e) => parse_security_opt(s@) == Err::<SecurityOptView, SecurityOptErr>(e@),
            },
    {
        if let Some(v) = str_strip_prefix(s, "apparmor=") {
            Ok(SecurityOpt::Apparmor(v))
        } else if let Some(v) = str_strip_prefix(s, "label=") {
            match LabelOpt::parse(v.as_str()) {
                Ok(l) => Ok(SecurityOpt::Label(l)),
                Err(e) => Err(ParseSecurityOptError::InvalidLabelOpt(e)),
            }
        } else if let Some(v) = str_strip_prefix(s, "mask=") {
            Ok(SecurityOpt::Mask(v))
        } else if str_eq(s, "no-new-privileges") {
            Ok(SecurityOpt::NoNewPrivileges)
        } else if let Some(v) = str_strip_prefix(s, "seccomp=") {
            Ok(SecurityOpt::Seccomp(v))
        } else if let Some(v) = str_strip_prefix(s, "proc-opts=") {
            Ok(SecurityOpt::ProcOpts(v))
        } else if let Some(v) = str_strip_prefix(s, "unmask=") {
            Ok(SecurityOpt::Unmask(v))
        } else {
            Err(ParseSecurityOptError::InvalidSecurityOpt(s.to_owned()))
        }
    }
}

/// Security options as Quadlet options of a container.
#[derive(Debug, Clone, PartialEq, Eq)]
pub struct QuadletOptions {
    pub mask: Vec<String>,
    pub no_new_privileges: bool,
    pub seccomp_profile: Option<String>,
    pub security_label_disable: bool,
    pub security_label_file_type: Option<String>,
    pub security_label_level: Option<String>,
    pub security_label_nested: bool,
    pub security_label_type: Option<String>,
    pub unmask: Option<Unmask>,
    pub podman_args: Vec<String>,
}

/// [`QuadletOptions`] with its texts as character sequences.
pub ghost struct QuadletOptionsView {
    pub mask: Seq<Seq<char>>,
    pub no_new_privileges: bool,
    pub seccomp_profile: Option<Seq<char>>,
    pub security_label_disable: bool,
    pub security_label_file_type: Option<Seq<char>>,
    pub security_label_level: Option<Seq<char>>,
    pub security_label_nested: bool,
    pub security_label_type: Option<Seq<char>>,
    pub unmask: Option<UnmaskView>,
    pub podman_args: Seq<Seq<char>>,
}

impl View for QuadletOptions {
    type V = QuadletOptionsView;

    open spec fn view(&self) -> QuadletOptionsView {
        QuadletOptionsView {
            mask: self.mask.deep_view(),
            no_new_privileges: self.no_new_privileges,
            seccomp_profile: opt_seq(self.seccomp_profile),
            security_label_disable: self.security_label_disable,
            security_label_file_type: opt_seq(self.security_label_file_type),
            security_label_level: opt_seq(self.security_label_level),
            security_label_nested: self.security_label_nested,
            security_label_type: opt_seq(self.security_label_type),
            unmask: match self.unmask {
                Some(u) => Some(u@),
                None => None,
            },
            podman_args: self.podman_args.deep_view(),
        }
    }
}

/// Options with nothing set.
pub open spec fn empty_options() -> QuadletOptionsView {
    QuadletOptionsView {
        mask: Seq::<Seq<char>>::empty(),
        no_new_privileges: false,
        seccomp_profile: None,
        security_label_disable: false,
        security_label_file_type: None,
        security_label_level: None,
        security_label_nested: false,
        security_label_type: None,
        unmask: None,
        podman_args: Seq::<Seq<char>>::empty(),
    }
}

/// Folding a label option into the options.
pub open spec fn add_label_spec(q: QuadletOptionsView, l: LabelOptView) -> QuadletOptionsView {
    match l {
        LabelOptView::User(u) => QuadletOptionsView {
            podman_args: q.podman_args.push("label=user:"@ + u),
            ..q
        },
        LabelOptView::Role(r) => QuadletOptionsView {
            podman_args: q.podman_args.push("label=role:"@ + r),
            ..q
        },
        LabelOptView::Type(t) => QuadletOptionsView { security_label_type: Some(t), ..q },
        LabelOptView::Level(l) => QuadletOptionsView { security_label_level: Some(l), ..q },
        LabelOptView::Filetype(f) => QuadletOptionsView { security_label_file_type: Some(f), ..q },
        LabelOptView::Disable => QuadletOptionsView { security_label_disable: true, ..q },
        LabelOptView::Nested => QuadletOptionsView { security_label_nested: true, ..q },
    }
}

/// Folding a security option into the options: the paths of `mask` and `unmask` are separated
/// by ':'.
pub open spec fn add_security_spec(q: QuadletOptionsView, o: SecurityOptView) -> QuadletOptionsView {
    match o {
        SecurityOptView::Apparmor(p) => QuadletOptionsView {
            podman_args: q.podman_args.push("apparmor="@ + p),
            ..q
        },
        SecurityOptView::Label(l) => add_label_spec(q, l),
        SecurityOptView::Mask(m) => QuadletOptionsView { mask: q.mask + split(m, ':'), ..q },
        SecurityOptView::NoNewPrivileges => QuadletOptionsView { no_new_privileges: true, ..q },
        SecurityOptView::Seccomp(p) => QuadletOptionsView { seccomp_profile: Some(p), ..q },
        SecurityOptView::ProcOpts(p) => QuadletOptionsView {
            podman_args: q.podman_args.push("proc-opts="@ + p),
            ..q
        },
        SecurityOptView::Unmask(paths) => QuadletOptionsView {
            unmask: Some(
                add_paths_spec(
                    match q.unmask {
                        Some(u) => u,
                        None => UnmaskView::Paths(Seq::<Seq<char>>::empty()),
                    },
                    split(paths, ':'),
                ),
            ),
            ..q
        },
    }
}

/// `prefix` followed by `rest`.
fn concat(prefix: &str, rest: &str) -> (s: String)
    ensures
        s@ == prefix@ + rest@,
{
    let mut s = String::new();
    push_str(&mut s, prefix);
    push_str(&mut s, rest);
    assert(s@ =~= prefix@ + rest@);
    s
}

/// Append all of `src` to `dst`.
fn append_all(dst: &mut Vec<String>, src: &Vec<String>)
    ensures
        final(dst).deep_view() == old(dst).deep_view() + src.deep_view(),
{
    let ghost before = dst.deep_view();
    let mut i: usize = 0;
    while i < src.len()
        invariant
            i <= src@.len(),
            dst.deep_view() == before + src.deep_view().subrange(0, i as int),
        decreases src@.len() - i,
    {
        push_string(dst, src[i].clone());
        i = i + 1;
        assert(dst.deep_view() =~= before + src.deep_view().subrange(0, i as int));
    }
    assert(src.deep_view().subrange(0, src@.len() as int) =~= src.deep_view());
}

impl QuadletOptions {
    /// Options with nothing set.
    pub fn new() -> (r: QuadletOptions)
        ensures
            r@ == empty_options(),
    {
        let r = QuadletOptions {
            mask: Vec::new(),
            no_new_privileges: false,
            seccomp_profile: None,
            security_label_disable: false,
            security_label_file_type: None,
            security_label_level: None,
            security_label_nested: false,
            security_label_type: None,
            unmask: None,
            podman_args: Vec::new(),
        };
        assert(r.mask.deep_view() =~= Seq::<Seq<char>>::empty());
        assert(r.podman_args.deep_view() =~= Seq::<Seq<char>>::empty());
        r
    }

    /// Fold a security option into these options.
    pub fn add_security_opt(&mut self, security_opt: SecurityOpt)
        ensures
            final(self)@ == add_security_spec(old(self)@, security_opt@),
    {
        match security_opt {
            SecurityOpt::Apparmor(policy) => {
                push_string(&mut self.podman_args, concat("apparmor=", policy.as_str()));
            },
            SecurityOpt::Label(label_opt) => self.add_label_opt(label_opt),
            SecurityOpt::Mask(mask) => {
                let paths = str_split(mask.as_str(), ':');
                append_all(&mut self.mask, &paths);
            },
            SecurityOpt::NoNewPrivileges => {
                self.no_new_privileges = true;
            },
            SecurityOpt::Seccomp(profile) => {
                self.seccomp_profile = Some(profile);
            },
            SecurityOpt::ProcOpts(proc_opts) => {
                push_string(&mut self.podman_args, concat("proc-opts=", proc_opts.as_str()));
            },
            SecurityOpt::Unmask(paths) => {
                let mut u = match self.unmask.take() {
                    Some(u) => u,
                    None => Unmask::new(),
                };
                u.extend(str_split(paths.as_str(), ':'));
                self.unmask = Some(u);
            },
        }
    }

    /// Fold a label option into these options.
    pub fn add_label_opt(&mut self, label_opt: LabelOpt)
        ensures
            final(self)@ == add_label_spec(old(self)@, label_opt@),
    {
        match label_opt {
            LabelOpt::User(user) => {
                push_string(&mut self.podman_args, concat("label=user:", user.as_str()));
            },
            LabelOpt::Role(role) => {
                push_string(&mut self.podman_args, concat("label=role:", role.as_str()));
            },
            LabelOpt::Type(t) => {
                self.security_label_type = Some(t);
            },
            LabelOpt::Level(level) => {
                self.security_label_level = Some(level);
            },
            LabelOpt::Filetype(file_type) => {
                self.security_label_file_type = Some(file_type);
            },
            LabelOpt::Disable => {
                self.security_label_disable = true;
            },
            LabelOpt::Nested => {
                self.security_label_nested = true;
            },
        }
    }
}

impl Default for QuadletOptions {
    fn default() -> (r: QuadletOptions)
        ensures
            r@ == empty_options(),
    {
        QuadletOptions::new()
    }
}

} // verus!
