//! What a compose service gives a container of a Kubernetes pod: SELinux options from its
//! security options, container ports from its short port syntax, and the check of the options
//! that a pod container cannot take.

use vstd::prelude::*;

use crate::text::opt_seq;

use crate::k8s::{duration_round_seconds, round_seconds};
use crate::num::{parse_i32, parse_i32_spec};
use crate::security_opt::{LabelOpt, LabelOptView, ParseSecurityOptError, SecurityOpt, SecurityOptErr, SecurityOptView, parse_security_opt};
use crate::text::{push_char, push_str, push_string, rsplit_once, split_once, str_eq, str_rsplit_once, str_split_once};

verus! {

/// The SELinux options of a pod container.
#[derive(Debug, Clone, PartialEq, Eq)]
pub struct SELinuxOptions {
    pub user: Option<String>,
    pub role: Option<String>,
    pub type_: Option<String>,
    pub level: Option<String>,
}

/// [`SELinuxOptions`] with its texts as character sequences.
pub ghost struct SELinuxView {
    pub user: Option<Seq<char>>,
    pub role: Option<Seq<char>>,
    pub type_: Option<Seq<char>>,
    pub level: Option<Seq<char>>,
}

impl View for SELinuxOptions {
    type V = SELinuxView;

    open spec fn view(&self) -> SELinuxView {
        SELinuxView {
            user: opt_seq(self.user),
            role: opt_seq(self.role),
            type_: opt_seq(self.type_),
            level: opt_seq(self.level),
        }
    }
}

/// Error returned when security options cannot become SELinux options of a pod container.
#[derive(Debug, Clone, PartialEq, Eq)]
pub enum PodSecurityOptError {
    /// A security option that pods do not support, by its name: "apparmor", "label:filetype",
    /// "label:disable", "label:nested", "mask", "no-new-privileges", "seccomp", "proc-opts" or
    /// "unmask".
    Unsupported(String),
    /// Not a security option.
    Parse(ParseSecurityOptError),
}

/// [`PodSecurityOptError`] with its texts as character sequences.
pub ghost enum PodSecurityOptErr {
    Unsupported(Seq<char>),
    Parse(SecurityOptErr),
}

impl View for PodSecurityOptError {
    type V = PodSecurityOptErr;

    open spec fn view(&self) -> PodSecurityOptErr {
        match self {
            PodSecurityOptError::Unsupported(n) => PodSecurityOptErr::Unsupported(n@),
            PodSecurityOptError::Parse(e) => PodSecurityOptErr::Parse(e@),
        }
    }
}

/// `s` with its first ':' replaced by '='.
pub open spec fn colon_to_equals(s: Seq<char>) -> Seq<char> {
    match split_once(s, ':') {
        Some((a, b)) => a + seq!['='] + b,
        None => s,
    }
}

/// Apply the security option `opt`, written "name:value" as in compose files, to `o`.
pub open spec fn selinux_step(o: SELinuxView, opt: Seq<char>) -> Result<SELinuxView, PodSecurityOptErr> {
    if opt == "no-new-privileges:true"@ {
        Err(PodSecurityOptErr::Unsupported("no-new-privileges"@))
    } else if opt == "no-new-privileges:false"@ {
        Ok(o)
    } else {
        match parse_security_opt(colon_to_equals(opt)) {
            Err(e) => Err(PodSecurityOptErr::Parse(e)),
            Ok(SecurityOptView::Label(LabelOptView::User(v))) => Ok(SELinuxView { user: Some(v), ..o }),
            Ok(SecurityOptView::Label(LabelOptView::Role(v))) => Ok(SELinuxView { role: Some(v), ..o }),
            Ok(SecurityOptView::Label(LabelOptView::Type(v))) => Ok(SELinuxView { type_: Some(v), ..o }),
            Ok(SecurityOptView::Label(LabelOptView::Level(v))) => Ok(SELinuxView { level: Some(v), ..o }),
            Ok(SecurityOptView::Label(LabelOptView::Filetype(_))) => Err(
                PodSecurityOptErr::Unsupported("label:filetype"@),
            ),
            Ok(SecurityOptView::Label(LabelOptView::Disable)) => Err(
                PodSecurityOptErr::Unsupported("label:disable"@),
            ),
            Ok(SecurityOptView::Label(LabelOptView::Nested)) => Err(
                PodSecurityOptErr::Unsupported("label:nested"@),
            ),
            Ok(SecurityOptView::Apparmor(_)) => Err(PodSecurityOptErr::Unsupported("apparmor"@)),
            Ok(SecurityOptView::Mask(_)) => Err(PodSecurityOptErr::Unsupported("mask"@)),
            Ok(SecurityOptView::NoNewPrivileges) => Err(
                PodSecurityOptErr::Unsupported("no-new-privileges"@),
            ),
            Ok(SecurityOptView::Seccomp(_)) => Err(PodSecurityOptErr::Unsupported("seccomp"@)),
            Ok(SecurityOptView::ProcOpts(_)) => Err(PodSecurityOptErr::Unsupported("proc-opts"@)),
            Ok(SecurityOptView::Unmask(_)) => Err(PodSecurityOptErr::Unsupported("unmask"@)),
        }
    }
}

/// No SELinux option set.
pub open spec fn no_selinux() -> SELinuxView {
    SELinuxView { user: None, role: None, type_: None, level: None }
}

/// Apply the security options `opts` in order, starting with none set.
pub open spec fn fold_selinux(opts: Seq<Seq<char>>) -> Result<SELinuxView, PodSecurityOptErr>
    decreases opts.len(),
{
    if opts.len() == 0 {
        Ok(no_selinux())
    } else {
        match fold_selinux(opts.drop_last()) {
            Ok(o) => selinux_step(o, opts.last()),
            Err(e) => Err(e),
        }
    }
}

/// `s` with its first ':' replaced by '=', as `str::replacen(':', "=", 1)` gives it.
fn colon_to_equals_exec(s: &str) -> (r: String)
    ensures
        r@ == colon_to_equals(s@),
{
    match str_split_once(s, ':') {
        Some((a, b)) => {
            let mut r = a;
            push_char(&mut r, '=');
            push_str(&mut r, b.as_str());
            r
        },
        None => s.to_owned(),
    }
}

/// Apply one security option to `o`.
fn selinux_apply(o: SELinuxOptions, opt: &str) -> (r: Result<SELinuxOptions, PodSecurityOptError>)
    ensures
        match r {
            Ok(n) => selinux_step(o@, opt@) == Ok::<SELinuxView, PodSecurityOptErr>(n@),
            Err(e) => selinux_step(o@, opt@) == Err::<SELinuxView, PodSecurityOptErr>(e@),
        },
{
    if str_eq(opt, "no-new-privileges:true") {
        return Err(PodSecurityOptError::Unsupported("no-new-privileges".to_owned()));
    }
    if str_eq(opt, "no-new-privileges:false") {
        return Ok(o);
    }
    let replaced = colon_to_equals_exec(opt);
    match SecurityOpt::parse(replaced.as_str()) {
        Err(e) => Err(PodSecurityOptError::Parse(e)),
        Ok(SecurityOpt::Label(label)) => match label {
            LabelOpt::User(v) => Ok(SELinuxOptions { user: Some(v), ..o }),
            LabelOpt::Role(v) => Ok(SELinuxOptions { role: Some(v), ..o }),
            LabelOpt::Type(v) => Ok(SELinuxOptions { type_: Some(v), ..o }),
            LabelOpt::Level(v) => Ok(SELinuxOptions { level: Some(v), ..o }),
            LabelOpt::Filetype(_) => Err(PodSecurityOptError::Unsupported("label:filetype".to_owned())),
            LabelOpt::Disable => Err(PodSecurityOptError::Unsupported("label:disable".to_owned())),
            LabelOpt::Nested => Err(PodSecurityOptError::Unsupported("label:nested".to_owned())),
        },
        Ok(SecurityOpt::Apparmor(_)) => Err(PodSecurityOptError::Unsupported("apparmor".to_owned())),
        Ok(SecurityOpt::Mask(_)) => Err(PodSecurityOptError::Unsupported("mask".to_owned())),
        Ok(SecurityOpt::NoNewPrivileges) => Err(
            PodSecurityOptError::Unsupported("no-new-privileges".to_owned()),
        ),
        Ok(SecurityOpt::Seccomp(_)) => Err(PodSecurityOptError::Unsupported("seccomp".to_owned())),
        Ok(SecurityOpt::ProcOpts(_)) => Err(PodSecurityOptError::Unsupported("proc-opts".to_owned())),
        Ok(SecurityOpt::Unmask(_)) => Err(PodSecurityOptError::Unsupported("unmask".to_owned())),
    }
}

/// The SELinux options of a pod container from the security options of a compose service,
/// written "name:value"; "no-new-privileges:false" is skipped.
pub fn security_opts_try_into_se_linux_options(security_opts: Vec<String>) -> (r: Result<
    SELinuxOptions,
    PodSecurityOptError,
>)
    ensures
        match r {
            Ok(o) => fold_selinux(security_opts.deep_view()) == Ok::<
                SELinuxView,
                PodSecurityOptErr,
            >(o@),
            Err(e) => fold_selinux(security_opts.deep_view()) == Err::<
                SELinuxView,
                PodSecurityOptErr,
            >(e@),
        },
{
    let ghost opts = security_opts.deep_view();
    let mut o = SELinuxOptions { user: None, role: None, type_: None, level: None };
    let mut i: usize = 0;
    while i < security_opts.len()
        invariant
            i <= security_opts.len(),
            opts == security_opts.deep_view(),
            fold_selinux(opts.subrange(0, i as int)) == Ok::<SELinuxView, PodSecurityOptErr>(o@),
        decreases security_opts.len() - i,
    {
        let ghost next = opts.subrange(0, i + 1);
        assert(next.drop_last() =~= opts.subrange(0, i as int));
        assert(next.last() == security_opts[i as int]@);
        match selinux_apply(o, security_opts[i].as_str()) {
            Ok(n) => {
                o = n;
            },
            Err(e) => {
                proof {
                    lemma_fold_selinux_err(opts, i + 1, e@);
                }
                return Err(e);
            },
        }
        i = i + 1;
    }
    assert(opts.subrange(0, i as int) =~= opts);
    Ok(o)
}

/// An error in the first `n` options is the error of all of them.
proof fn lemma_fold_selinux_err(opts: Seq<Seq<char>>, n: int, e: PodSecurityOptErr)
    requires
        0 <= n <= opts.len(),
        fold_selinux(opts.subrange(0, n)) == Err::<SELinuxView, PodSecurityOptErr>(e),
    ensures
        fold_selinux(opts) == Err::<SELinuxView, PodSecurityOptErr>(e),
    decreases opts.len() - n,
{
    if n < opts.len() {
        let next = opts.subrange(0, n + 1);
        assert(next.drop_last() =~= opts.subrange(0, n));
        lemma_fold_selinux_err(opts, n + 1, e);
    } else {
        assert(opts.subrange(0, n) =~= opts);
    }
}

/// A user or group, by ID or by name.
#[derive(Debug, Clone, PartialEq, Eq)]
pub enum IdOrName {
    Id(u32),
    Name(String),
}

/// The user of a compose service, with an optional group.
#[derive(Debug, Clone, PartialEq, Eq)]
pub struct User {
    pub user: IdOrName,
    pub group: Option<IdOrName>,
}

/// The ID of a user or group, if it is given by ID.
pub open spec fn id_of(i: IdOrName) -> Option<u32> {
    match i {
        IdOrName::Id(n) => Some(n),
        IdOrName::Name(_) => None,
    }
}

/// The capabilities added to and dropped from a pod container.
#[derive(Debug, Clone, PartialEq, Eq)]
pub struct Capabilities {
    pub add: Option<Vec<String>>,
    pub drop: Option<Vec<String>>,
}

/// The security context of a pod container.
#[derive(Debug, Clone, PartialEq, Eq)]
pub struct SecurityContext {
    pub capabilities: Option<Capabilities>,
    pub privileged: Option<bool>,
    pub read_only_root_filesystem: Option<bool>,
    pub se_linux_options: Option<SELinuxOptions>,
    pub run_as_user: Option<i64>,
    pub run_as_group: Option<i64>,
}

/// An optional list of strings as character sequences.
pub open spec fn opt_list(o: Option<Vec<String>>) -> Option<Seq<Seq<char>>> {
    match o {
        Some(v) => Some(v.deep_view()),
        None => None,
    }
}

/// [`SecurityContext`] with its texts as character sequences.
pub ghost struct SecurityContextView {
    pub capabilities: Option<(Option<Seq<Seq<char>>>, Option<Seq<Seq<char>>>)>,
    pub privileged: Option<bool>,
    pub read_only_root_filesystem: Option<bool>,
    pub se_linux_options: Option<SELinuxView>,
    pub run_as_user: Option<i64>,
    pub run_as_group: Option<i64>,
}

impl View for SecurityContext {
    type V = SecurityContextView;

    open spec fn view(&self) -> SecurityContextView {
        SecurityContextView {
            capabilities: match self.capabilities {
                Some(c) => Some((opt_list(c.add), opt_list(c.drop))),
                None => None,
            },
            privileged: self.privileged,
            read_only_root_filesystem: self.read_only_root_filesystem,
            se_linux_options: match self.se_linux_options {
                Some(o) => Some(o@),
                None => None,
            },
            run_as_user: self.run_as_user,
            run_as_group: self.run_as_group,
        }
    }
}

/// The options of a compose service that become the security context of a pod container.
#[derive(Debug, Clone, PartialEq, Eq)]
pub struct ContainerSecurityContext {
    pub cap_add: Vec<String>,
    pub cap_drop: Vec<String>,
    pub privileged: bool,
    pub read_only: bool,
    pub security_opt: Vec<String>,
    pub user: Option<User>,
}

/// Error returned when a service's options cannot become a pod container's security context.
#[derive(Debug, Clone, PartialEq, Eq)]
pub enum SecurityContextError {
    /// A security option that cannot become an SELinux option.
    SecurityOpt(PodSecurityOptError),
    /// A user given by name; only numeric UIDs are supported.
    UserName,
    /// A group given by name; only numeric GIDs are supported.
    GroupName,
}

/// [`SecurityContextError`] with its texts as character sequences.
pub ghost enum SecurityContextErr {
    SecurityOpt(PodSecurityOptErr),
    UserName,
    GroupName,
}

impl View for SecurityContextError {
    type V = SecurityContextErr;

    open spec fn view(&self) -> SecurityContextErr {
        match self {
            SecurityContextError::SecurityOpt(e) => SecurityContextErr::SecurityOpt(e@),
            SecurityContextError::UserName => SecurityContextErr::UserName,
            SecurityContextError::GroupName => SecurityContextErr::GroupName,
        }
    }
}

/// A list when it is not empty.
pub open spec fn non_empty(l: Seq<Seq<char>>) -> Option<Seq<Seq<char>>> {
    if l.len() > 0 {
        Some(l)
    } else {
        None
    }
}

/// `Some(true)` for `true`.
pub open spec fn set_flag(b: bool) -> Option<bool> {
    if b {
        Some(true)
    } else {
        None
    }
}

/// What the security context of a pod container is: none when no option is set; else the
/// capabilities added and dropped, the privileged and read-only flags, the SELinux options of
/// the security options, and the numeric user and group. An error of the security options
/// comes first, then one of the user, then one of the group.
pub open spec fn security_context_of(c: ContainerSecurityContext) -> Result<
    Option<SecurityContextView>,
    SecurityContextErr,
> {
    let add = c.cap_add.deep_view();
    let drop = c.cap_drop.deep_view();
    let opts = c.security_opt.deep_view();
    let selinux = if opts.len() > 0 {
        match fold_selinux(opts) {
            Ok(o) => Ok(Some(o)),
            Err(e) => Err(e),
        }
    } else {
        Ok(None)
    };
    match selinux {
        Err(e) => Err(SecurityContextErr::SecurityOpt(e)),
        Ok(se_linux_options) => match c.user {
            Some(u) if id_of(u.user) is None => Err(SecurityContextErr::UserName),
            Some(u) if u.group matches Some(g) && id_of(g) is None => Err(
                SecurityContextErr::GroupName,
            ),
            _ => Ok(
                if add.len() > 0 || drop.len() > 0 || c.privileged || c.read_only || opts.len() > 0
                    || c.user is Some {
                    Some(
                        SecurityContextView {
                            capabilities: if add.len() > 0 || drop.len() > 0 {
                                Some((non_empty(add), non_empty(drop)))
                            } else {
                                None
                            },
                            privileged: set_flag(c.privileged),
                            read_only_root_filesystem: set_flag(c.read_only),
                            se_linux_options,
                            run_as_user: match c.user {
                                Some(u) => Some(id_of(u.user)->Some_0 as i64),
                                None => None,
                            },
                            run_as_group: match c.user {
                                Some(u) => match u.group {
                                    Some(g) => Some(id_of(g)->Some_0 as i64),
                                    None => None,
                                },
                                None => None,
                            },
                        },
                    )
                } else {
                    None
                },
            ),
        },
    }
}

impl ContainerSecurityContext {
    /// The security context of a pod container; none when no option is set.
    pub fn try_into_security_context(self) -> (r: Result<Option<SecurityContext>, SecurityContextError>)
        ensures
            match r {
                Ok(Some(ctx)) => security_context_of(self) == Ok::<
                    Option<SecurityContextView>,
                    SecurityContextErr,
                >(Some(ctx@)),
                Ok(None) => security_context_of(self) == Ok::<
                    Option<SecurityContextView>,
                    SecurityContextErr,
                >(None),
                Err(e) => security_context_of(self) == Err::<
                    Option<SecurityContextView>,
                    SecurityContextErr,
                >(e@),
            },
    {
        let ghost c = self;
        let ContainerSecurityContext { cap_add, cap_drop, privileged, read_only, security_opt, user } =
            self;
        let any = cap_add.len() > 0 || cap_drop.len() > 0 || privileged || read_only
            || security_opt.len() > 0 || user.is_some();
        let se_linux_options = if security_opt.len() > 0 {
            match security_opts_try_into_se_linux_options(security_opt) {
                Ok(o) => Some(o),
                Err(e) => {
                    return Err(SecurityContextError::SecurityOpt(e));
                },
            }
        } else {
            None
        };
        let (run_as_user, run_as_group) = match user {
            Some(User { user, group }) => {
                let uid = match user {
                    IdOrName::Id(n) => n as i64,
                    IdOrName::Name(_) => {
                        return Err(SecurityContextError::UserName);
                    },
                };
                let gid = match group {
                    Some(IdOrName::Id(n)) => Some(n as i64),
                    Some(IdOrName::Name(_)) => {
                        return Err(SecurityContextError::GroupName);
                    },
                    None => None,
                };
                (Some(uid), gid)
            },
            None => (None, None),
        };
        if !any {
            return Ok(None);
        }
        let capabilities = if cap_add.len() > 0 || cap_drop.len() > 0 {
            Some(
                Capabilities {
                    add: if cap_add.len() > 0 {
                        Some(cap_add)
                    } else {
                        None
                    },
                    drop: if cap_drop.len() > 0 {
                        Some(cap_drop)
                    } else {
                        None
                    },
                },
            )
        } else {
            None
        };
        Ok(
            Some(
                SecurityContext {
                    capabilities,
                    privileged: if privileged {
                        Some(true)
                    } else {
                        None
                    },
                    read_only_root_filesystem: if read_only {
                        Some(true)
                    } else {
                        None
                    },
                    se_linux_options,
                    run_as_user,
                    run_as_group,
                },
            ),
        )
    }
}

/// A port of a pod container.
#[derive(Debug, Clone, PartialEq, Eq)]
pub struct ContainerPort {
    pub container_port: i32,
    pub host_ip: Option<String>,
    pub host_port: Option<i32>,
    pub protocol: Option<String>,
}

/// [`ContainerPort`] with its texts as character sequences.
pub ghost struct ContainerPortView {
    pub container_port: int,
    pub host_ip: Option<Seq<char>>,
    pub host_port: Option<int>,
    pub protocol: Option<Seq<char>>,
}

impl View for ContainerPort {
    type V = ContainerPortView;

    open spec fn view(&self) -> ContainerPortView {
        ContainerPortView {
            container_port: self.container_port as int,
            host_ip: opt_seq(self.host_ip),
            host_port: match self.host_port {
                Some(p) => Some(p as int),
                None => None,
            },
            protocol: opt_seq(self.protocol),
        }
    }
}

/// Error returned when a short port does not parse: the text that is no `i32`.
#[derive(Debug, Clone, PartialEq, Eq)]
pub enum PortError {
    /// The container port.
    ContainerPort(String),
    /// The host port.
    HostPort(String),
}

/// [`PortError`] with its text as a character sequence.
pub ghost enum PortErr {
    ContainerPort(Seq<char>),
    HostPort(Seq<char>),
}

impl View for PortError {
    type V = PortErr;

    open spec fn view(&self) -> PortErr {
        match self {
            PortError::ContainerPort(t) => PortErr::ContainerPort(t@),
            PortError::HostPort(t) => PortErr::HostPort(t@),
        }
    }
}

/// What a short port "\[\[host_ip:\]host_port:\]container_port\[/protocol\]" gives: the protocol
/// after the first '/', the container port after the last ':', and before it the host port,
/// after a host IP up to the first ':' when there is one.
pub open spec fn short_port(port: Seq<char>) -> Result<ContainerPortView, PortErr> {
    let (p, protocol) = match split_once(port, '/') {
        Some((a, b)) => (a, Some(b)),
        None => (port, None),
    };
    let (host, cp) = match rsplit_once(p, ':') {
        Some((h, c)) => (Some(h), c),
        None => (None, p),
    };
    match parse_i32_spec(cp) {
        None => Err(PortErr::ContainerPort(cp)),
        Some(container_port) => {
            let (host_ip, host_port) = match host {
                Some(h) => match split_once(h, ':') {
                    Some((ip, hp)) => (Some(ip), Some(hp)),
                    None => (None, Some(h)),
                },
                None => (None, None),
            };
            match host_port {
                None => Ok(ContainerPortView { container_port, host_ip, host_port: None, protocol }),
                Some(t) => match parse_i32_spec(t) {
                    None => Err(PortErr::HostPort(t)),
                    Some(n) => Ok(
                        ContainerPortView { container_port, host_ip, host_port: Some(n), protocol },
                    ),
                },
            }
        },
    }
}

/// Parse a container port from the short syntax of a compose service's ports.
pub fn parse_container_port_from_short(port: &str) -> (r: Result<ContainerPort, PortError>)
    ensures
        match r {
            Ok(c) => short_port(port@) == Ok::<ContainerPortView, PortErr>(c@),
            Err(e) => short_port(port@) == Err::<ContainerPortView, PortErr>(e@),
        },
{
    let (p, protocol) = match str_split_once(port, '/') {
        Some((a, b)) => (a, Some(b)),
        None => (port.to_owned(), None),
    };
    let (host, cp) = match str_rsplit_once(p.as_str(), ':') {
        Some((h, c)) => (Some(h), c),
        None => (None, p),
    };
    let container_port = match parse_i32(cp.as_str()) {
        Some(n) => n,
        None => {
            return Err(PortError::ContainerPort(cp));
        },
    };
    let (host_ip, host_port) = match host {
        Some(h) => match str_split_once(h.as_str(), ':') {
            Some((ip, hp)) => (Some(ip), Some(hp)),
            None => (None, Some(h)),
        },
        None => (None, None),
    };
    match host_port {
        None => Ok(ContainerPort { container_port, host_ip, host_port: None, protocol }),
        Some(t) => match parse_i32(t.as_str()) {
            None => Err(PortError::HostPort(t)),
            Some(n) => Ok(ContainerPort { container_port, host_ip, host_port: Some(n), protocol }),
        },
    }
}

/// The seconds and nanoseconds of the duration that `duration_str::parse` reads from a text, or
/// `None` where it reports an error.
pub uninterp spec fn parsed_duration(s: Seq<char>) -> Option<(u64, u32)>;

/// Calls `duration_str::parse` and gives the parsed duration as its whole seconds and its
/// nanoseconds, or `None` for an error. The contract claims that the result is
/// [`parsed_duration`] of the text, and that an empty text is an error, as the crate's source
/// shows; what a text parses to is not stated.
#[verifier::external_body]
fn parse_duration(s: &str) -> (r: Option<(u64, u32)>)
    ensures
        r == parsed_duration(s@),
        s@.len() == 0 ==> r is None,
{
    match duration_str::parse(s) {
        Ok(d) => Some((d.as_secs(), d.subsec_nanos())),
        Err(_) => None,
    }
}

/// Error returned when a duration cannot be a number of seconds of a pod.
#[derive(Debug, Clone, PartialEq, Eq)]
pub enum SecondsError {
    /// The text that is no valid duration.
    Invalid(String),
    /// The whole seconds, too many for `i32`.
    TooLarge(u64),
}

/// [`SecondsError`] with its text as a character sequence.
pub ghost enum SecondsErr {
    Invalid(Seq<char>),
    TooLarge(u64),
}

impl View for SecondsError {
    type V = SecondsErr;

    open spec fn view(&self) -> SecondsErr {
        match self {
            SecondsError::Invalid(t) => SecondsErr::Invalid(t@),
            SecondsError::TooLarge(n) => SecondsErr::TooLarge(*n),
        }
    }
}

/// The whole seconds of the duration `parsed` read from `text`, as an `i32`.
pub open spec fn seconds_spec(text: Seq<char>, parsed: Option<(u64, u32)>) -> Result<int, SecondsErr> {
    match parsed {
        None => Err(SecondsErr::Invalid(text)),
        Some((secs, _)) => if secs <= i32::MAX {
            Ok(secs as int)
        } else {
            Err(SecondsErr::TooLarge(secs))
        },
    }
}

/// The whole seconds of the duration `parsed` read from `text`, as an `i32`.
pub fn seconds_of(text: &str, parsed: Option<(u64, u32)>) -> (r: Result<i32, SecondsError>)
    ensures
        match r {
            Ok(n) => seconds_spec(text@, parsed) == Ok::<int, SecondsErr>(n as int),
            Err(e) => seconds_spec(text@, parsed) == Err::<int, SecondsErr>(e@),
        },
{
    match parsed {
        None => Err(SecondsError::Invalid(text.to_owned())),
        Some((secs, _)) => {
            if secs <= i32::MAX as u64 {
                Ok(secs as i32)
            } else {
                Err(SecondsError::TooLarge(secs))
            }
        },
    }
}

/// The whole seconds of a duration such as "1m30s", as an `i32`.
pub fn parse_seconds(duration: &str) -> (r: Result<i32, SecondsError>)
    ensures
        match r {
            Ok(n) => seconds_spec(duration@, parsed_duration(duration@)) == Ok::<int, SecondsErr>(
                n as int,
            ),
            Err(e) => seconds_spec(duration@, parsed_duration(duration@)) == Err::<int, SecondsErr>(
                e@,
            ),
        },
{
    seconds_of(duration, parse_duration(duration))
}

/// The test of a compose healthcheck.
#[derive(Debug, Clone, PartialEq, Eq)]
pub enum HealthcheckTest {
    /// A command run by a shell.
    Single(String),
    /// "CMD" and a command with its arguments, "CMD-SHELL" and a command, or "NONE".
    Multiple(Vec<String>),
}

/// [`HealthcheckTest`] with its texts as character sequences.
pub ghost enum HealthcheckTestView {
    Single(Seq<char>),
    Multiple(Seq<Seq<char>>),
}

impl View for HealthcheckTest {
    type V = HealthcheckTestView;

    open spec fn view(&self) -> HealthcheckTestView {
        match self {
            HealthcheckTest::Single(s) => HealthcheckTestView::Single(s@),
            HealthcheckTest::Multiple(v) => HealthcheckTestView::Multiple(v.deep_view()),
        }
    }
}

/// The healthcheck of a compose service.
#[derive(Debug, Clone, PartialEq, Eq)]
pub struct Healthcheck {
    pub test: Option<HealthcheckTest>,
    pub interval: Option<String>,
    pub timeout: Option<String>,
    pub retries: u64,
    pub start_period: Option<String>,
    pub disable: bool,
}

/// The test of a healthcheck, if it has one.
pub open spec fn test_view(t: Option<HealthcheckTest>) -> Option<HealthcheckTestView> {
    match t {
        Some(x) => Some(x@),
        None => None,
    }
}

/// A healthcheck is disabled by its flag or by the test `["NONE"]`.
pub open spec fn is_disabled(h: Healthcheck) -> bool {
    h.disable || test_view(h.test) == Some(HealthcheckTestView::Multiple(seq!["NONE"@]))
}

/// Whether a healthcheck is disabled.
pub fn healthcheck_is_disable(healthcheck: &Healthcheck) -> (b: bool)
    ensures
        b == is_disabled(*healthcheck),
{
    if healthcheck.disable {
        return true;
    }
    match &healthcheck.test {
        Some(HealthcheckTest::Multiple(test)) => {
            let b = test.len() == 1 && str_eq(test[0].as_str(), "NONE");
            assert(b ==> test.deep_view() =~= seq!["NONE"@]);
            assert(test.deep_view() == seq!["NONE"@] ==> test.deep_view()[0] == "NONE"@);
            b
        },
        _ => false,
    }
}

/// The probe of a pod container.
#[derive(Debug, Clone, PartialEq, Eq)]
pub struct Probe {
    /// The command to run, without a shell.
    pub exec_command: Option<Vec<String>>,
    pub failure_threshold: Option<i32>,
    pub initial_delay_seconds: Option<i32>,
    pub period_seconds: Option<i32>,
    pub timeout_seconds: Option<i32>,
}

/// [`Probe`] with its texts as character sequences.
pub ghost struct ProbeView {
    pub exec_command: Option<Seq<Seq<char>>>,
    pub failure_threshold: Option<int>,
    pub initial_delay_seconds: Option<int>,
    pub period_seconds: Option<int>,
    pub timeout_seconds: Option<int>,
}

/// An optional `i32` as an integer.
pub open spec fn opt_int(o: Option<i32>) -> Option<int> {
    match o {
        Some(n) => Some(n as int),
        None => None,
    }
}

impl View for Probe {
    type V = ProbeView;

    open spec fn view(&self) -> ProbeView {
        ProbeView {
            exec_command: match self.exec_command {
                Some(v) => Some(v.deep_view()),
                None => None,
            },
            failure_threshold: opt_int(self.failure_threshold),
            initial_delay_seconds: opt_int(self.initial_delay_seconds),
            period_seconds: opt_int(self.period_seconds),
            timeout_seconds: opt_int(self.timeout_seconds),
        }
    }
}

/// Error returned when a healthcheck cannot become a probe of a pod container.
#[derive(Debug, Clone, PartialEq, Eq)]
pub enum ProbeError {
    /// A test that runs a shell, which pods do not support.
    Shell,
    /// The interval.
    Interval(SecondsError),
    /// The timeout.
    Timeout(SecondsError),
    /// The retries, too many for `i32`.
    Retries(u64),
    /// The start period.
    StartPeriod(SecondsError),
}

/// [`ProbeError`] with its texts as character sequences.
pub ghost enum ProbeErr {
    Shell,
    Interval(SecondsErr),
    Timeout(SecondsErr),
    Retries(u64),
    StartPeriod(SecondsErr),
}

impl View for ProbeError {
    type V = ProbeErr;

    open spec fn view(&self) -> ProbeErr {
        match self {
            ProbeError::Shell => ProbeErr::Shell,
            ProbeError::Interval(e) => ProbeErr::Interval(e@),
            ProbeError::Timeout(e) => ProbeErr::Timeout(e@),
            ProbeError::Retries(n) => ProbeErr::Retries(*n),
            ProbeError::StartPeriod(e) => ProbeErr::StartPeriod(e@),
        }
    }
}

/// The command of a probe: a test "CMD" followed by the command; other tests run a shell.
pub open spec fn probe_command(t: Option<HealthcheckTestView>) -> Result<Option<Seq<Seq<char>>>, ()> {
    match t {
        None => Ok(None),
        Some(HealthcheckTestView::Multiple(v)) => if v.len() > 0 && v[0] == "CMD"@ {
            Ok(Some(v.drop_first()))
        } else {
            Err(())
        },
        Some(HealthcheckTestView::Single(_)) => Err(()),
    }
}

/// The seconds of an optional duration.
pub open spec fn opt_seconds(d: Option<String>) -> Result<Option<int>, SecondsErr> {
    match d {
        None => Ok(None),
        Some(t) => match seconds_spec(t@, parsed_duration(t@)) {
            Ok(n) => Ok(Some(n)),
            Err(e) => Err(e),
        },
    }
}

/// What a healthcheck gives a pod container: its command, then its interval, timeout, retries
/// (none for 0) and start period, each error in that order.
pub open spec fn probe_of(h: Healthcheck) -> Result<ProbeView, ProbeErr> {
    match probe_command(test_view(h.test)) {
        Err(()) => Err(ProbeErr::Shell),
        Ok(exec_command) => match opt_seconds(h.interval) {
            Err(e) => Err(ProbeErr::Interval(e)),
            Ok(period_seconds) => match opt_seconds(h.timeout) {
                Err(e) => Err(ProbeErr::Timeout(e)),
                Ok(timeout_seconds) => if h.retries > i32::MAX {
                    Err(ProbeErr::Retries(h.retries))
                } else {
                    match opt_seconds(h.start_period) {
                        Err(e) => Err(ProbeErr::StartPeriod(e)),
                        Ok(initial_delay_seconds) => Ok(
                            ProbeView {
                                exec_command,
                                failure_threshold: if h.retries == 0 {
                                    None
                                } else {
                                    Some(h.retries as int)
                                },
                                initial_delay_seconds,
                                period_seconds,
                                timeout_seconds,
                            },
                        ),
                    }
                },
            },
        },
    }
}

/// The seconds of an optional duration.
fn optional_seconds(d: Option<String>) -> (r: Result<Option<i32>, SecondsError>)
    ensures
        match r {
            Ok(n) => opt_seconds(d) == Ok::<Option<int>, SecondsErr>(opt_int(n)),
            Err(e) => opt_seconds(d) == Err::<Option<int>, SecondsErr>(e@),
        },
{
    match d {
        None => Ok(None),
        Some(t) => match parse_seconds(t.as_str()) {
            Ok(n) => Ok(Some(n)),
            Err(e) => Err(e),
        },
    }
}

/// The probe of a pod container from a compose healthcheck.
pub fn healthcheck_try_into_probe(healthcheck: Healthcheck) -> (r: Result<Probe, ProbeError>)
    ensures
        match r {
            Ok(p) => probe_of(healthcheck) == Ok::<ProbeView, ProbeErr>(p@),
            Err(e) => probe_of(healthcheck) == Err::<ProbeView, ProbeErr>(e@),
        },
{
    let ghost h = healthcheck;
    let Healthcheck { test, interval, timeout, retries, start_period, disable: _ } = healthcheck;
    let exec_command = match test {
        None => None,
        Some(HealthcheckTest::Single(_)) => {
            return Err(ProbeError::Shell);
        },
        Some(HealthcheckTest::Multiple(v)) => {
            if v.len() > 0 && str_eq(v[0].as_str(), "CMD") {
                let mut command = v;
                let ghost all = command.deep_view();
                command.remove(0);
                assert(command.deep_view() =~= all.drop_first());
                Some(command)
            } else {
                return Err(ProbeError::Shell);
            }
        },
    };
    let period_seconds = match optional_seconds(interval) {
        Ok(n) => n,
        Err(e) => {
            return Err(ProbeError::Interval(e));
        },
    };
    let timeout_seconds = match optional_seconds(timeout) {
        Ok(n) => n,
        Err(e) => {
            return Err(ProbeError::Timeout(e));
        },
    };
    if retries > i32::MAX as u64 {
        return Err(ProbeError::Retries(retries));
    }
    let failure_threshold = if retries == 0 {
        None
    } else {
        Some(retries as i32)
    };
    let initial_delay_seconds = match optional_seconds(start_period) {
        Ok(n) => n,
        Err(e) => {
            return Err(ProbeError::StartPeriod(e));
        },
    };
    Ok(Probe { exec_command, failure_threshold, initial_delay_seconds, period_seconds, timeout_seconds })
}

/// The test of a compose healthcheck command.
#[derive(Debug, Clone, PartialEq, Eq)]
pub enum Test {
    /// A command with its arguments.
    Command(Vec<String>),
    /// A command run by a shell.
    ShellCommand(String),
}

/// A duration as its whole seconds and its microseconds beyond them.
pub type Duration = (u64, u32);

/// A duration that can be rounded to whole seconds: rounding up from `u64::MAX` seconds
/// overflows.
pub open spec fn roundable(d: Option<Duration>) -> bool {
    d matches Some((secs, micros)) ==> !(secs == u64::MAX && micros >= 500_000)
}

/// The healthcheck command of a compose service.
#[derive(Debug, Clone, PartialEq, Eq)]
pub struct HealthcheckCommand {
    pub test: Option<Test>,
    pub interval: Option<Duration>,
    pub timeout: Option<Duration>,
    pub retries: Option<u64>,
    pub start_period: Option<Duration>,
    /// Whether the healthcheck has compose extensions.
    pub extensions: bool,
}

/// Error returned when a healthcheck command cannot become a probe of a pod container.
#[derive(Debug, Clone, PartialEq, Eq)]
pub enum CommandProbeError {
    /// Compose extensions.
    Extensions,
    /// The interval's seconds, too many for `i32`.
    Interval(u64),
    /// The timeout's seconds, too many for `i32`.
    Timeout(u64),
    /// The retries, too many for `i32`.
    Retries(u64),
    /// The start period's seconds, too many for `i32`.
    StartPeriod(u64),
}

/// The command of a probe: a command as it is, a shell command run by "/bin/sh -c".
pub open spec fn test_command(t: Test) -> Seq<Seq<char>> {
    match t {
        Test::Command(c) => c.deep_view(),
        Test::ShellCommand(c) => seq!["/bin/sh"@, "-c"@, c@],
    }
}

/// The whole seconds of an optional duration, rounded, if they fit in `i32`; else the seconds.
pub open spec fn rounded_seconds(d: Option<Duration>) -> Result<Option<int>, u64> {
    match d {
        None => Ok(None),
        Some((secs, micros)) => {
            let r = round_seconds(secs, micros);
            if r <= i32::MAX {
                Ok(Some(r))
            } else {
                Err(r as u64)
            }
        },
    }
}

/// What a compose healthcheck command gives a pod container: its command, then its interval,
/// timeout (30 seconds by default), retries and start period, each error in that order.
pub open spec fn command_probe(h: HealthcheckCommand) -> Result<ProbeView, CommandProbeError> {
    if h.extensions {
        Err(CommandProbeError::Extensions)
    } else {
        match rounded_seconds(h.interval) {
            Err(n) => Err(CommandProbeError::Interval(n)),
            Ok(period_seconds) => match rounded_seconds(h.timeout) {
                Err(n) => Err(CommandProbeError::Timeout(n)),
                Ok(timeout_seconds) => match h.retries {
                    Some(n) if n > i32::MAX => Err(CommandProbeError::Retries(n)),
                    _ => match rounded_seconds(h.start_period) {
                        Err(n) => Err(CommandProbeError::StartPeriod(n)),
                        Ok(initial_delay_seconds) => Ok(
                            ProbeView {
                                exec_command: match h.test {
                                    Some(t) => Some(test_command(t)),
                                    None => None,
                                },
                                failure_threshold: match h.retries {
                                    Some(n) => Some(n as int),
                                    None => None,
                                },
                                initial_delay_seconds,
                                period_seconds,
                                timeout_seconds: Some(
                                    match timeout_seconds {
                                        Some(t) => t,
                                        None => 30,
                                    },
                                ),
                            },
                        ),
                    },
                },
            },
        }
    }
}

/// The whole seconds of an optional duration, rounded, if they fit in `i32`.
fn rounded_seconds_exec(d: Option<Duration>) -> (r: Result<Option<i32>, u64>)
    requires
        roundable(d),
    ensures
        match r {
            Ok(n) => rounded_seconds(d) == Ok::<Option<int>, u64>(opt_int(n)),
            Err(n) => rounded_seconds(d) == Err::<Option<int>, u64>(n),
        },
{
    match d {
        None => Ok(None),
        Some((secs, micros)) => {
            let r = duration_round_seconds(secs, micros);
            if r <= i32::MAX as u64 {
                Ok(Some(r as i32))
            } else {
                Err(r)
            }
        },
    }
}

/// The probe of a pod container from the healthcheck command of a compose service.
pub fn healthcheck_command_try_into_probe(healthcheck: HealthcheckCommand) -> (r: Result<
    Probe,
    CommandProbeError,
>)
    requires
        roundable(healthcheck.interval),
        roundable(healthcheck.timeout),
        roundable(healthcheck.start_period),
    ensures
        match r {
            Ok(p) => command_probe(healthcheck) == Ok::<ProbeView, CommandProbeError>(p@),
            Err(e) => command_probe(healthcheck) == Err::<ProbeView, CommandProbeError>(e),
        },
{
    let ghost h = healthcheck;
    let HealthcheckCommand { test, interval, timeout, retries, start_period, extensions } =
        healthcheck;
    if extensions {
        return Err(CommandProbeError::Extensions);
    }
    let exec_command = match test {
        Some(Test::Command(c)) => Some(c),
        Some(Test::ShellCommand(c)) => {
            let mut v: Vec<String> = Vec::new();
            push_string(&mut v, "/bin/sh".to_owned());
            push_string(&mut v, "-c".to_owned());
            let ghost cv = c@;
            push_string(&mut v, c);
            assert(v.deep_view() =~= seq!["/bin/sh"@, "-c"@, cv]);
            Some(v)
        },
        None => None,
    };
    let period_seconds = match rounded_seconds_exec(interval) {
        Ok(n) => n,
        Err(n) => {
            return Err(CommandProbeError::Interval(n));
        },
    };
    let timeout_seconds = match rounded_seconds_exec(timeout) {
        Ok(n) => n,
        Err(n) => {
            return Err(CommandProbeError::Timeout(n));
        },
    };
    let failure_threshold = match retries {
        Some(n) => {
            if n > i32::MAX as u64 {
                return Err(CommandProbeError::Retries(n));
            }
            Some(n as i32)
        },
        None => None,
    };
    let initial_delay_seconds = match rounded_seconds_exec(start_period) {
        Ok(n) => n,
        Err(n) => {
            return Err(CommandProbeError::StartPeriod(n));
        },
    };
    Ok(
        Probe {
            exec_command,
            failure_threshold,
            initial_delay_seconds,
            period_seconds,
            timeout_seconds: Some(
                match timeout_seconds {
                    Some(t) => t,
                    None => 30,
                },
            ),
        },
    )
}

/// The protocol of a compose port.
#[derive(Debug, Clone, PartialEq, Eq)]
pub enum Protocol {
    Tcp,
    Udp,
    Other(String),
}

/// The published host ports of a compose port: the first and how many.
#[derive(Debug, Clone, Copy, PartialEq, Eq, Structural)]
pub struct PublishedRange {
    pub start: u16,
    pub size: u64,
}

/// A compose port in the long syntax.
#[derive(Debug, Clone, PartialEq, Eq)]
pub struct Port {
    pub name: Option<String>,
    pub target: u16,
    pub published: Option<PublishedRange>,
    pub host_ip: Option<String>,
    pub protocol: Option<Protocol>,
    /// Whether an application protocol is given.
    pub app_protocol: bool,
    /// Whether a mode is given.
    pub mode: bool,
    /// Whether the port has compose extensions.
    pub extensions: bool,
}

/// A port of a pod container, with its name.
#[derive(Debug, Clone, PartialEq, Eq)]
pub struct NamedContainerPort {
    pub name: Option<String>,
    pub port: ContainerPort,
}

/// Error returned when a compose port cannot become a port of a pod container.
#[derive(Debug, Clone, PartialEq, Eq)]
pub enum LongPortError {
    AppProtocol,
    Mode,
    Extensions,
    /// A range of more than one published port.
    PublishedRange,
    /// A protocol other than TCP, UDP and SCTP, in uppercase.
    Protocol(String),
}

/// [`LongPortError`] with its text as a character sequence.
pub ghost enum LongPortErr {
    AppProtocol,
    Mode,
    Extensions,
    PublishedRange,
    Protocol(Seq<char>),
}

impl View for LongPortError {
    type V = LongPortErr;

    open spec fn view(&self) -> LongPortErr {
        match self {
            LongPortError::AppProtocol => LongPortErr::AppProtocol,
            LongPortError::Mode => LongPortErr::Mode,
            LongPortError::Extensions => LongPortErr::Extensions,
            LongPortError::PublishedRange => LongPortErr::PublishedRange,
            LongPortError::Protocol(p) => LongPortErr::Protocol(p@),
        }
    }
}

/// A character in ASCII uppercase.
pub open spec fn ascii_upper(c: char) -> char {
    if 'a' <= c <= 'z' {
        ((c as u32) - 32) as char
    } else {
        c
    }
}

/// A text in ASCII uppercase, as `str::make_ascii_uppercase` leaves it.
pub open spec fn ascii_uppercase(s: Seq<char>) -> Seq<char> {
    s.map_values(|c: char| ascii_upper(c))
}

/// A text in ASCII uppercase.
fn to_ascii_uppercase(s: &str) -> (r: String)
    ensures
        r@ == ascii_uppercase(s@),
{
    let v = crate::text::chars(s);
    let mut r = String::new();
    let mut i: usize = 0;
    while i < v.len()
        invariant
            i <= v@.len(),
            v@ == s@,
            r@ == ascii_uppercase(s@.subrange(0, i as int)),
        decreases v.len() - i,
    {
        let c = v[i];
        let u = if 'a' <= c && c <= 'z' {
            upper_letter(c)
        } else {
            c
        };
        push_char(&mut r, u);
        assert(ascii_uppercase(s@.subrange(0, i + 1)) =~= ascii_uppercase(s@.subrange(0, i as int)).push(
            ascii_upper(c),
        ));
        i = i + 1;
    }
    assert(s@.subrange(0, i as int) =~= s@);
    r
}

/// The uppercase letter of a lowercase ASCII letter.
fn upper_letter(c: char) -> (u: char)
    requires
        'a' <= c <= 'z',
    ensures
        u == ascii_upper(c),
{
    match c {
        'a' => 'A',
        'b' => 'B',
        'c' => 'C',
        'd' => 'D',
        'e' => 'E',
        'f' => 'F',
        'g' => 'G',
        'h' => 'H',
        'i' => 'I',
        'j' => 'J',
        'k' => 'K',
        'l' => 'L',
        'm' => 'M',
        'n' => 'N',
        'o' => 'O',
        'p' => 'P',
        'q' => 'Q',
        'r' => 'R',
        's' => 'S',
        't' => 'T',
        'u' => 'U',
        'v' => 'V',
        'w' => 'W',
        'x' => 'X',
        'y' => 'Y',
        'z' => 'Z',
        _ => c,
    }
}

/// The protocol of a pod container port: "TCP", "UDP", or "SCTP" in any case.
pub open spec fn protocol_name(p: Protocol) -> Result<Seq<char>, LongPortErr> {
    match p {
        Protocol::Tcp => Ok("TCP"@),
        Protocol::Udp => Ok("UDP"@),
        Protocol::Other(o) => if ascii_uppercase(o@) == "SCTP"@ {
            Ok("SCTP"@)
        } else {
            Err(LongPortErr::Protocol(ascii_uppercase(o@)))
        },
    }
}

/// What a compose port in the long syntax gives a pod container.
pub open spec fn long_port(p: Port) -> Result<(Option<Seq<char>>, ContainerPortView), LongPortErr> {
    if p.app_protocol {
        Err(LongPortErr::AppProtocol)
    } else if p.mode {
        Err(LongPortErr::Mode)
    } else if p.extensions {
        Err(LongPortErr::Extensions)
    } else if p.published matches Some(r) && r.size != 1 {
        Err(LongPortErr::PublishedRange)
    } else {
        let protocol = match p.protocol {
            None => Ok(None),
            Some(x) => match protocol_name(x) {
                Ok(n) => Ok(Some(n)),
                Err(e) => Err(e),
            },
        };
        match protocol {
            Err(e) => Err(e),
            Ok(protocol) => Ok(
                (
                    opt_seq(p.name),
                    ContainerPortView {
                        container_port: p.target as int,
                        host_ip: opt_seq(p.host_ip),
                        host_port: match p.published {
                            Some(r) => Some(r.start as int),
                            None => None,
                        },
                        protocol,
                    },
                ),
            ),
        }
    }
}

/// The port of a pod container from a compose port in the long syntax.
pub fn port_try_into_container_port(port: Port) -> (r: Result<NamedContainerPort, LongPortError>)
    ensures
        match r {
            Ok(c) => long_port(port) == Ok::<(Option<Seq<char>>, ContainerPortView), LongPortErr>(
                (opt_seq(c.name), c.port@),
            ),
            Err(e) => long_port(port) == Err::<(Option<Seq<char>>, ContainerPortView), LongPortErr>(
                e@,
            ),
        },
{
    let ghost p = port;
    let Port { name, target, published, host_ip, protocol, app_protocol, mode, extensions } = port;
    if app_protocol {
        return Err(LongPortError::AppProtocol);
    }
    if mode {
        return Err(LongPortError::Mode);
    }
    if extensions {
        return Err(LongPortError::Extensions);
    }
    let host_port = match published {
        Some(range) => {
            if range.size != 1 {
                return Err(LongPortError::PublishedRange);
            }
            Some(range.start as i32)
        },
        None => None,
    };
    let protocol = match protocol {
        None => None,
        Some(Protocol::Tcp) => Some("TCP".to_owned()),
        Some(Protocol::Udp) => Some("UDP".to_owned()),
        Some(Protocol::Other(o)) => {
            let upper = to_ascii_uppercase(o.as_str());
            if str_eq(upper.as_str(), "SCTP") {
                Some(upper)
            } else {
                return Err(LongPortError::Protocol(upper));
            }
        },
    };
    Ok(
        NamedContainerPort {
            name,
            port: ContainerPort { container_port: target as i32, host_ip, host_port, protocol },
        },
    )
}

/// The published host port of a port in the long syntax of a compose file.
#[derive(Debug, Clone, PartialEq, Eq)]
pub enum PublishedPort {
    Single(u16),
    /// A range of ports, as written.
    Range(String),
}

/// A port in the long syntax of a compose file.
#[derive(Debug, Clone, PartialEq, Eq)]
pub struct LongPort {
    pub target: u16,
    pub host_ip: Option<String>,
    pub published: Option<PublishedPort>,
    pub protocol: Option<String>,
    /// Whether a mode is given.
    pub mode: bool,
}

/// The ports of a compose service, in the short or the long syntax.
#[derive(Debug, Clone, PartialEq, Eq)]
pub enum Ports {
    Short(Vec<String>),
    Long(Vec<LongPort>),
}

/// Error returned when the ports of a compose service cannot become ports of a pod container.
#[derive(Debug, Clone, PartialEq, Eq)]
pub enum PortsError {
    /// A port in the short syntax that does not parse.
    Short(PortError),
    /// A port with a mode.
    Mode,
    /// A range of published ports.
    PublishedRange,
}

/// [`PortsError`] with its texts as character sequences.
pub ghost enum PortsErr {
    Short(PortErr),
    Mode,
    PublishedRange,
}

impl View for PortsError {
    type V = PortsErr;

    open spec fn view(&self) -> PortsErr {
        match self {
            PortsError::Short(e) => PortsErr::Short(e@),
            PortsError::Mode => PortsErr::Mode,
            PortsError::PublishedRange => PortsErr::PublishedRange,
        }
    }
}

/// What a port in the long syntax gives a pod container.
pub open spec fn long_syntax_port(p: LongPort) -> Result<ContainerPortView, PortsErr> {
    if p.mode {
        Err(PortsErr::Mode)
    } else {
        match p.published {
            Some(PublishedPort::Range(_)) => Err(PortsErr::PublishedRange),
            _ => Ok(
                ContainerPortView {
                    container_port: p.target as int,
                    host_ip: opt_seq(p.host_ip),
                    host_port: match p.published {
                        Some(PublishedPort::Single(n)) => Some(n as int),
                        _ => None,
                    },
                    protocol: opt_seq(p.protocol),
                },
            ),
        }
    }
}

/// The ports of a pod container from the first ports in short syntax, or the first error.
pub open spec fn short_ports(ports: Seq<Seq<char>>) -> Result<Seq<ContainerPortView>, PortsErr>
    decreases ports.len(),
{
    if ports.len() == 0 {
        Ok(Seq::empty())
    } else {
        match short_ports(ports.drop_last()) {
            Err(e) => Err(e),
            Ok(cs) => match short_port(ports.last()) {
                Ok(c) => Ok(cs.push(c)),
                Err(e) => Err(PortsErr::Short(e)),
            },
        }
    }
}

/// The ports of a pod container from ports in long syntax, or the first error.
pub open spec fn long_ports(ports: Seq<LongPort>) -> Result<Seq<ContainerPortView>, PortsErr>
    decreases ports.len(),
{
    if ports.len() == 0 {
        Ok(Seq::empty())
    } else {
        match long_ports(ports.drop_last()) {
            Err(e) => Err(e),
            Ok(cs) => match long_syntax_port(ports.last()) {
                Ok(c) => Ok(cs.push(c)),
                Err(e) => Err(e),
            },
        }
    }
}

/// The views of ports.
pub open spec fn ports_view(v: Seq<ContainerPort>) -> Seq<ContainerPortView> {
    v.map_values(|c: ContainerPort| c@)
}

/// What the ports of a compose service give a pod container.
pub open spec fn ports_spec(p: Ports) -> Result<Seq<ContainerPortView>, PortsErr> {
    match p {
        Ports::Short(v) => short_ports(v.deep_view()),
        Ports::Long(v) => long_ports(v@),
    }
}

/// The ports of a pod container from the ports of a compose service.
pub fn ports_try_into_container_ports(ports: Ports) -> (r: Result<Vec<ContainerPort>, PortsError>)
    ensures
        match r {
            Ok(v) => ports_spec(ports) == Ok::<Seq<ContainerPortView>, PortsErr>(ports_view(v@)),
            Err(e) => ports_spec(ports) == Err::<Seq<ContainerPortView>, PortsErr>(e@),
        },
{
    let ghost spec = ports_spec(ports);
    let mut out: Vec<ContainerPort> = Vec::new();
    match ports {
        Ports::Short(v) => {
            let ghost all = v.deep_view();
            let mut i: usize = 0;
            assert(all.subrange(0, 0) =~= Seq::<Seq<char>>::empty());
            assert(ports_view(out@) =~= Seq::<ContainerPortView>::empty());
            while i < v.len()
                invariant
                    i <= v@.len(),
                    all == v.deep_view(),
                    spec == short_ports(all),
                    spec == ports_spec(ports),
                    short_ports(all.subrange(0, i as int)) == Ok::<
                        Seq<ContainerPortView>,
                        PortsErr,
                    >(ports_view(out@)),
                decreases v.len() - i,
            {
                assert(all.subrange(0, i + 1).drop_last() =~= all.subrange(0, i as int));
                assert(all.subrange(0, i + 1).last() == v@[i as int]@);
                match parse_container_port_from_short(v[i].as_str()) {
                    Ok(c) => {
                        let ghost before = out@;
                        out.push(c);
                        assert(ports_view(out@) =~= ports_view(before).push(c@));
                    },
                    Err(e) => {
                        proof {
                            lemma_short_ports_err(all, i as int + 1, PortsErr::Short(e@));
                        }
                        return Err(PortsError::Short(e));
                    },
                }
                i = i + 1;
            }
            assert(all.subrange(0, i as int) =~= all);
        },
        Ports::Long(v) => {
            let ghost all = v@;
            let mut rest = v;
            let ghost mut i: int = 0;
            assert(all.subrange(0, 0) =~= Seq::<LongPort>::empty());
            assert(ports_view(out@) =~= Seq::<ContainerPortView>::empty());
            assert(rest@ =~= all.subrange(0, all.len() as int));
            while rest.len() > 0
                invariant
                    0 <= i <= all.len(),
                    spec == long_ports(all),
                    spec == ports_spec(ports),
                    rest@ == all.subrange(i, all.len() as int),
                    long_ports(all.subrange(0, i)) == Ok::<Seq<ContainerPortView>, PortsErr>(
                        ports_view(out@),
                    ),
                decreases rest.len(),
            {
                assert(all.subrange(0, i + 1).drop_last() =~= all.subrange(0, i));
                let p = rest.remove(0);
                assert(all.subrange(0, i + 1).last() == p);
                if p.mode {
                    proof {
                        lemma_long_ports_err(all, i + 1, PortsErr::Mode);
                    }
                    return Err(PortsError::Mode);
                }
                let host_port = match p.published {
                    Some(PublishedPort::Single(n)) => Some(n as i32),
                    Some(PublishedPort::Range(_)) => {
                        proof {
                            lemma_long_ports_err(all, i + 1, PortsErr::PublishedRange);
                        }
                        return Err(PortsError::PublishedRange);
                    },
                    None => None,
                };
                let c = ContainerPort {
                    container_port: p.target as i32,
                    host_ip: p.host_ip,
                    host_port,
                    protocol: p.protocol,
                };
                let ghost before = out@;
                out.push(c);
                assert(ports_view(out@) =~= ports_view(before).push(c@));
                proof {
                    i = i + 1;
                }
                assert(rest@ =~= all.subrange(i, all.len() as int));
            }
            assert(all.subrange(0, i) =~= all);
        },
    }
    Ok(out)
}

/// An error in the first `n` short ports is the error of all of them.
proof fn lemma_short_ports_err(ports: Seq<Seq<char>>, n: int, e: PortsErr)
    requires
        0 <= n <= ports.len(),
        short_ports(ports.subrange(0, n)) == Err::<Seq<ContainerPortView>, PortsErr>(e),
    ensures
        short_ports(ports) == Err::<Seq<ContainerPortView>, PortsErr>(e),
    decreases ports.len() - n,
{
    if n < ports.len() {
        assert(ports.subrange(0, n + 1).drop_last() =~= ports.subrange(0, n));
        lemma_short_ports_err(ports, n + 1, e);
    } else {
        assert(ports.subrange(0, n) =~= ports);
    }
}

/// An error in the first `n` long ports is the error of all of them.
proof fn lemma_long_ports_err(ports: Seq<LongPort>, n: int, e: PortsErr)
    requires
        0 <= n <= ports.len(),
        long_ports(ports.subrange(0, n)) == Err::<Seq<ContainerPortView>, PortsErr>(e),
    ensures
        long_ports(ports) == Err::<Seq<ContainerPortView>, PortsErr>(e),
    decreases ports.len() - n,
{
    if n < ports.len() {
        assert(ports.subrange(0, n + 1).drop_last() =~= ports.subrange(0, n));
        lemma_long_ports_err(ports, n + 1, e);
    } else {
        assert(ports.subrange(0, n) =~= ports);
    }
}

/// The environment of a compose service: "NAME=VALUE" items, or names with optional values.
#[derive(Debug, Clone, PartialEq, Eq)]
pub enum Environment {
    List(Vec<String>),
    KvPair(Vec<(String, Option<String>)>),
}

/// An environment variable of a pod container.
#[derive(Debug, Clone, PartialEq, Eq)]
pub struct EnvVar {
    pub name: String,
    pub value: Option<String>,
}

/// The name and value of an environment item "NAME=VALUE", split at the first '='; an item
/// without '=' is a name without a value.
pub open spec fn env_item(item: Seq<char>) -> (Seq<char>, Option<Seq<char>>) {
    match split_once(item, '=') {
        Some((n, v)) => (n, Some(v)),
        None => (item, None),
    }
}

/// The names and values of environment variables.
pub open spec fn env_view(v: Seq<EnvVar>) -> Seq<(Seq<char>, Option<Seq<char>>)> {
    v.map_values(|e: EnvVar| (e.name@, opt_seq(e.value)))
}

/// The environment variables of a pod container for a compose service's environment.
pub open spec fn env_vars(e: Environment) -> Seq<(Seq<char>, Option<Seq<char>>)> {
    match e {
        Environment::List(items) => items.deep_view().map_values(|i: Seq<char>| env_item(i)),
        Environment::KvPair(pairs) => pairs@.map_values(
            |p: (String, Option<String>)| (p.0@, opt_seq(p.1)),
        ),
    }
}

/// The environment variables of a pod container, in order.
pub fn environment_into_env_vars(environment: Environment) -> (r: Vec<EnvVar>)
    ensures
        env_view(r@) == env_vars(environment),
{
    let ghost spec = env_vars(environment);
    let mut out: Vec<EnvVar> = Vec::new();
    match environment {
        Environment::List(items) => {
            let ghost all = items.deep_view();
            let mut i: usize = 0;
            while i < items.len()
                invariant
                    i <= items@.len(),
                    all == items.deep_view(),
                    spec == all.map_values(|i: Seq<char>| env_item(i)),
                    env_view(out@) == all.subrange(0, i as int).map_values(
                        |i: Seq<char>| env_item(i),
                    ),
                decreases items.len() - i,
            {
                let item = items[i].as_str();
                let var = match str_split_once(item, '=') {
                    Some((n, v)) => EnvVar { name: n, value: Some(v) },
                    None => EnvVar { name: item.to_owned(), value: None },
                };
                let ghost before = out@;
                out.push(var);
                assert(env_view(out@) =~= env_view(before).push(env_item(all[i as int])));
                assert(all.subrange(0, i + 1).map_values(|i: Seq<char>| env_item(i))
                    =~= all.subrange(0, i as int).map_values(|i: Seq<char>| env_item(i)).push(
                    env_item(all[i as int]),
                ));
                i = i + 1;
            }
            assert(all.subrange(0, i as int) =~= all);
        },
        Environment::KvPair(pairs) => {
            let ghost all = pairs@;
            let mut rest = pairs;
            let ghost mut i: int = 0;
            assert(rest@ =~= all.subrange(0, all.len() as int));
            while rest.len() > 0
                invariant
                    0 <= i <= all.len(),
                    spec == all.map_values(|p: (String, Option<String>)| (p.0@, opt_seq(p.1))),
                    rest@ == all.subrange(i, all.len() as int),
                    env_view(out@) == all.subrange(0, i).map_values(
                        |p: (String, Option<String>)| (p.0@, opt_seq(p.1)),
                    ),
                decreases rest.len(),
            {
                let (name, value) = rest.remove(0);
                assert((name, value) == all[i]);
                let ghost before = out@;
                out.push(EnvVar { name, value });
                assert(env_view(out@) =~= env_view(before).push((all[i].0@, opt_seq(all[i].1))));
                assert(all.subrange(0, i + 1).map_values(
                    |p: (String, Option<String>)| (p.0@, opt_seq(p.1)),
                ) =~= all.subrange(0, i).map_values(
                    |p: (String, Option<String>)| (p.0@, opt_seq(p.1)),
                ).push((all[i].0@, opt_seq(all[i].1))));
                proof {
                    i = i + 1;
                }
                assert(rest@ =~= all.subrange(i, all.len() as int));
            }
            assert(all.subrange(0, i) =~= all);
        },
    }
    out
}

/// Which options a compose service sets that a container of a Kubernetes pod cannot take:
/// each field is `true` where the service sets the option of that name (for `depends_on`, a
/// dependency; for `network_mode` and `networks`, that form of network configuration), except
/// `attach`, which is the service's own flag and `true` by default.
#[derive(Debug, Clone, Copy, PartialEq, Eq, Structural)]
pub struct Unsupported {
    pub attach: bool,
    pub blkio_config: bool,
    pub cpu_count: bool,
    pub cpu_percent: bool,
    pub cpu_shares: bool,
    pub cpu_period: bool,
    pub cpu_quota: bool,
    pub cpu_rt_runtime: bool,
    pub cpu_rt_period: bool,
    pub cpuset: bool,
    pub cgroup: bool,
    pub cgroup_parent: bool,
    pub configs: bool,
    pub credential_spec: bool,
    pub depends_on: bool,
    pub deploy: bool,
    pub develop: bool,
    pub device_cgroup_rules: bool,
    pub domain_name: bool,
    pub env_file: bool,
    pub expose: bool,
    pub extends: bool,
    pub external_links: bool,
    pub group_add: bool,
    pub uts: bool,
    pub isolation: bool,
    pub links: bool,
    pub logging: bool,
    pub network_mode: bool,
    pub networks: bool,
    pub mac_address: bool,
    pub mem_swappiness: bool,
    pub memswap_limit: bool,
    pub oom_kill_disable: bool,
    pub oom_score_adj: bool,
    pub pids_limit: bool,
    pub platform: bool,
    pub profiles: bool,
    pub runtime: bool,
    pub scale: bool,
    pub secrets: bool,
    pub shm_size: bool,
    pub stop_signal: bool,
    pub storage_opt: bool,
    pub ulimits: bool,
    pub userns_mode: bool,
    pub volumes_from: bool,
    pub dns: bool,
    pub dns_opt: bool,
    pub dns_search: bool,
    pub extra_hosts: bool,
    pub hostname: bool,
    pub init: bool,
    pub ipc: bool,
    pub pid: bool,
    pub restart: bool,
    pub stop_grace_period: bool,
    pub sysctls: bool,
    pub annotations: bool,
    pub labels: bool,
    pub devices: bool,
    pub extensions: bool,
}

/// Error returned when a compose service sets an option that a pod container cannot take.
#[derive(Debug, Clone, PartialEq, Eq)]
pub enum PodContainerError {
    /// An option that pod containers do not support, by name.
    Unsupported(String),
    /// An option that belongs in the pod spec, by name.
    PodSpec(String),
    /// An option that belongs in the pod metadata, by name.
    PodMetadata(String),
    /// Devices, which pod containers do not take directly.
    Devices,
    /// Compose extensions.
    Extensions,
}

/// [`PodContainerError`] with its text as a character sequence.
pub ghost enum PodContainerErr {
    Unsupported(Seq<char>),
    PodSpec(Seq<char>),
    PodMetadata(Seq<char>),
    Devices,
    Extensions,
}

impl View for PodContainerError {
    type V = PodContainerErr;

    open spec fn view(&self) -> PodContainerErr {
        match self {
            PodContainerError::Unsupported(n) => PodContainerErr::Unsupported(n@),
            PodContainerError::PodSpec(n) => PodContainerErr::PodSpec(n@),
            PodContainerError::PodMetadata(n) => PodContainerErr::PodMetadata(n@),
            PodContainerError::Devices => PodContainerErr::Devices,
            PodContainerError::Extensions => PodContainerErr::Extensions,
        }
    }
}

/// The first option set that a pod container cannot take, checked in this order: those that no
/// pod container has, those of the pod spec, those of the pod metadata, devices, extensions.
pub open spec fn pod_container_check(u: Unsupported) -> Result<(), PodContainerErr> {
    if !u.attach {
        Err(PodContainerErr::Unsupported("attach"@))
    } else if u.blkio_config {
        Err(PodContainerErr::Unsupported("blkio_config"@))
    } else if u.cpu_count {
        Err(PodContainerErr::Unsupported("cpu_count"@))
    } else if u.cpu_percent {
        Err(PodContainerErr::Unsupported("cpu_percent"@))
    } else if u.cpu_shares {
        Err(PodContainerErr::Unsupported("cpu_shares"@))
    } else if u.cpu_period {
        Err(PodContainerErr::Unsupported("cpu_period"@))
    } else if u.cpu_quota {
        Err(PodContainerErr::Unsupported("cpu_quota"@))
    } else if u.cpu_rt_runtime {
        Err(PodContainerErr::Unsupported("cpu_rt_runtime"@))
    } else if u.cpu_rt_period {
        Err(PodContainerErr::Unsupported("cpu_rt_period"@))
    } else if u.cpuset {
        Err(PodContainerErr::Unsupported("cpuset"@))
    } else if u.cgroup {
        Err(PodContainerErr::Unsupported("cgroup"@))
    } else if u.cgroup_parent {
        Err(PodContainerErr::Unsupported("cgroup_parent"@))
    } else if u.configs {
        Err(PodContainerErr::Unsupported("configs"@))
    } else if u.credential_spec {
        Err(PodContainerErr::Unsupported("credential_spec"@))
    } else if u.depends_on {
        Err(PodContainerErr::Unsupported("depends_on"@))
    } else if u.deploy {
        Err(PodContainerErr::Unsupported("deploy"@))
    } else if u.develop {
        Err(PodContainerErr::Unsupported("develop"@))
    } else if u.device_cgroup_rules {
        Err(PodContainerErr::Unsupported("device_cgroup_rules"@))
    } else if u.domain_name {
        Err(PodContainerErr::Unsupported("domainname"@))
    } else if u.env_file {
        Err(PodContainerErr::Unsupported("env_file"@))
    } else if u.expose {
        Err(PodContainerErr::Unsupported("expose"@))
    } else if u.extends {
        Err(PodContainerErr::Unsupported("extends"@))
    } else if u.external_links {
        Err(PodContainerErr::Unsupported("external_links"@))
    } else if u.group_add {
        Err(PodContainerErr::Unsupported("group_add"@))
    } else if u.uts {
        Err(PodContainerErr::Unsupported("uts"@))
    } else if u.isolation {
        Err(PodContainerErr::Unsupported("isolation"@))
    } else if u.links {
        Err(PodContainerErr::Unsupported("links"@))
    } else if u.logging {
        Err(PodContainerErr::Unsupported("logging"@))
    } else if u.network_mode {
        Err(PodContainerErr::Unsupported("network_mode"@))
    } else if u.networks {
        Err(PodContainerErr::Unsupported("networks"@))
    } else if u.mac_address {
        Err(PodContainerErr::Unsupported("mac_address"@))
    } else if u.mem_swappiness {
        Err(PodContainerErr::Unsupported("mem_swappiness"@))
    } else if u.memswap_limit {
        Err(PodContainerErr::Unsupported("memswap_limit"@))
    } else if u.oom_kill_disable {
        Err(PodContainerErr::Unsupported("oom_kill_disable"@))
    } else if u.oom_score_adj {
        Err(PodContainerErr::Unsupported("oom_score_adj"@))
    } else if u.pids_limit {
        Err(PodContainerErr::Unsupported("pids_limit"@))
    } else if u.platform {
        Err(PodContainerErr::Unsupported("platform"@))
    } else if u.profiles {
        Err(PodContainerErr::Unsupported("profiles"@))
    } else if u.runtime {
        Err(PodContainerErr::Unsupported("runtime"@))
    } else if u.scale {
        Err(PodContainerErr::Unsupported("scale"@))
    } else if u.secrets {
        Err(PodContainerErr::Unsupported("secrets"@))
    } else if u.shm_size {
        Err(PodContainerErr::Unsupported("shm_size"@))
    } else if u.stop_signal {
        Err(PodContainerErr::Unsupported("stop_signal"@))
    } else if u.storage_opt {
        Err(PodContainerErr::Unsupported("storage_opt"@))
    } else if u.ulimits {
        Err(PodContainerErr::Unsupported("ulimits"@))
    } else if u.userns_mode {
        Err(PodContainerErr::Unsupported("userns_mode"@))
    } else if u.volumes_from {
        Err(PodContainerErr::Unsupported("volumes_from"@))
    } else if u.dns {
        Err(PodContainerErr::PodSpec("dns"@))
    } else if u.dns_opt {
        Err(PodContainerErr::PodSpec("dns_opt"@))
    } else if u.dns_search {
        Err(PodContainerErr::PodSpec("dns_search"@))
    } else if u.extra_hosts {
        Err(PodContainerErr::PodSpec("extra_hosts"@))
    } else if u.hostname {
        Err(PodContainerErr::PodSpec("hostname"@))
    } else if u.init {
        Err(PodContainerErr::PodSpec("init"@))
    } else if u.ipc {
        Err(PodContainerErr::PodSpec("ipc"@))
    } else if u.pid {
        Err(PodContainerErr::PodSpec("pid"@))
    } else if u.restart {
        Err(PodContainerErr::PodSpec("restart"@))
    } else if u.stop_grace_period {
        Err(PodContainerErr::PodSpec("stop_grace_period"@))
    } else if u.sysctls {
        Err(PodContainerErr::PodSpec("sysctls"@))
    } else if u.annotations {
        Err(PodContainerErr::PodMetadata("annotations"@))
    } else if u.labels {
        Err(PodContainerErr::PodMetadata("labels"@))
    } else if u.devices {
        Err(PodContainerErr::Devices)
    } else if u.extensions {
        Err(PodContainerErr::Extensions)
    } else {
        Ok(())
    }
}

impl Unsupported {
    /// Ensure that the service sets none of the options that a pod container cannot take.
    pub fn ensure_empty(&self) -> (r: Result<(), PodContainerError>)
        ensures
            match r {
                Ok(()) => pod_container_check(*self) == Ok::<(), PodContainerErr>(()),
                Err(e) => pod_container_check(*self) == Err::<(), PodContainerErr>(e@),
            },
    {
        if !self.attach {
            return Err(PodContainerError::Unsupported("attach".to_owned()));
        }
        if self.blkio_config {
            return Err(PodContainerError::Unsupported("blkio_config".to_owned()));
        }
        if self.cpu_count {
            return Err(PodContainerError::Unsupported("cpu_count".to_owned()));
        }
        if self.cpu_percent {
            return Err(PodContainerError::Unsupported("cpu_percent".to_owned()));
        }
        if self.cpu_shares {
            return Err(PodContainerError::Unsupported("cpu_shares".to_owned()));
        }
        if self.cpu_period {
            return Err(PodContainerError::Unsupported("cpu_period".to_owned()));
        }
        if self.cpu_quota {
            return Err(PodContainerError::Unsupported("cpu_quota".to_owned()));
        }
        if self.cpu_rt_runtime {
            return Err(PodContainerError::Unsupported("cpu_rt_runtime".to_owned()));
        }
        if self.cpu_rt_period {
            return Err(PodContainerError::Unsupported("cpu_rt_period".to_owned()));
        }
        if self.cpuset {
            return Err(PodContainerError::Unsupported("cpuset".to_owned()));
        }
        if self.cgroup {
            return Err(PodContainerError::Unsupported("cgroup".to_owned()));
        }
        if self.cgroup_parent {
            return Err(PodContainerError::Unsupported("cgroup_parent".to_owned()));
        }
        if self.configs {
            return Err(PodContainerError::Unsupported("configs".to_owned()));
        }
        if self.credential_spec {
            return Err(PodContainerError::Unsupported("credential_spec".to_owned()));
        }
        if self.depends_on {
            return Err(PodContainerError::Unsupported("depends_on".to_owned()));
        }
        if self.deploy {
            return Err(PodContainerError::Unsupported("deploy".to_owned()));
        }
        if self.develop {
            return Err(PodContainerError::Unsupported("develop".to_owned()));
        }
        if self.device_cgroup_rules {
            return Err(PodContainerError::Unsupported("device_cgroup_rules".to_owned()));
        }
        if self.domain_name {
            return Err(PodContainerError::Unsupported("domainname".to_owned()));
        }
        if self.env_file {
            return Err(PodContainerError::Unsupported("env_file".to_owned()));
        }
        if self.expose {
            return Err(PodContainerError::Unsupported("expose".to_owned()));
        }
        if self.extends {
            return Err(PodContainerError::Unsupported("extends".to_owned()));
        }
        if self.external_links {
            return Err(PodContainerError::Unsupported("external_links".to_owned()));
        }
        if self.group_add {
            return Err(PodContainerError::Unsupported("group_add".to_owned()));
        }
        if self.uts {
            return Err(PodContainerError::Unsupported("uts".to_owned()));
        }
        if self.isolation {
            return Err(PodContainerError::Unsupported("isolation".to_owned()));
        }
        if self.links {
            return Err(PodContainerError::Unsupported("links".to_owned()));
        }
        if self.logging {
            return Err(PodContainerError::Unsupported("logging".to_owned()));
        }
        if self.network_mode {
            return Err(PodContainerError::Unsupported("network_mode".to_owned()));
        }
        if self.networks {
            return Err(PodContainerError::Unsupported("networks".to_owned()));
        }
        if self.mac_address {
            return Err(PodContainerError::Unsupported("mac_address".to_owned()));
        }
        if self.mem_swappiness {
            return Err(PodContainerError::Unsupported("mem_swappiness".to_owned()));
        }
        if self.memswap_limit {
            return Err(PodContainerError::Unsupported("memswap_limit".to_owned()));
        }
        if self.oom_kill_disable {
            return Err(PodContainerError::Unsupported("oom_kill_disable".to_owned()));
        }
        if self.oom_score_adj {
            return Err(PodContainerError::Unsupported("oom_score_adj".to_owned()));
        }
        if self.pids_limit {
            return Err(PodContainerError::Unsupported("pids_limit".to_owned()));
        }
        if self.platform {
            return Err(PodContainerError::Unsupported("platform".to_owned()));
        }
        if self.profiles {
            return Err(PodContainerError::Unsupported("profiles".to_owned()));
        }
        if self.runtime {
            return Err(PodContainerError::Unsupported("runtime".to_owned()));
        }
        if self.scale {
            return Err(PodContainerError::Unsupported("scale".to_owned()));
        }
        if self.secrets {
            return Err(PodContainerError::Unsupported("secrets".to_owned()));
        }
        if self.shm_size {
            return Err(PodContainerError::Unsupported("shm_size".to_owned()));
        }
        if self.stop_signal {
            return Err(PodContainerError::Unsupported("stop_signal".to_owned()));
        }
        if self.storage_opt {
            return Err(PodContainerError::Unsupported("storage_opt".to_owned()));
        }
        if self.ulimits {
            return Err(PodContainerError::Unsupported("ulimits".to_owned()));
        }
        if self.userns_mode {
            return Err(PodContainerError::Unsupported("userns_mode".to_owned()));
        }
        if self.volumes_from {
            return Err(PodContainerError::Unsupported("volumes_from".to_owned()));
        }
        if self.dns {
            return Err(PodContainerError::PodSpec("dns".to_owned()));
        }
        if self.dns_opt {
            return Err(PodContainerError::PodSpec("dns_opt".to_owned()));
        }
        if self.dns_search {
            return Err(PodContainerError::PodSpec("dns_search".to_owned()));
        }
        if self.extra_hosts {
            return Err(PodContainerError::PodSpec("extra_hosts".to_owned()));
        }
        if self.hostname {
            return Err(PodContainerError::PodSpec("hostname".to_owned()));
        }
        if self.init {
            return Err(PodContainerError::PodSpec("init".to_owned()));
        }
        if self.ipc {
            return Err(PodContainerError::PodSpec("ipc".to_owned()));
        }
        if self.pid {
            return Err(PodContainerError::PodSpec("pid".to_owned()));
        }
        if self.restart {
            return Err(PodContainerError::PodSpec("restart".to_owned()));
        }
        if self.stop_grace_period {
            return Err(PodContainerError::PodSpec("stop_grace_period".to_owned()));
        }
        if self.sysctls {
            return Err(PodContainerError::PodSpec("sysctls".to_owned()));
        }
        if self.annotations {
            return Err(PodContainerError::PodMetadata("annotations".to_owned()));
        }
        if self.labels {
            return Err(PodContainerError::PodMetadata("labels".to_owned()));
        }
        if self.devices {
            return Err(PodContainerError::Devices);
        }
        if self.extensions {
            return Err(PodContainerError::Extensions);
        }
        Ok(())
    }
}

} // verus!
