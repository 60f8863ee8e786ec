//! Checks of a compose service on its way to a Quadlet container: the options that Podlet does
//! not support, and the IPC and network namespace modes that `podman run` takes.

use vstd::prelude::*;

use crate::text::opt_seq;

use crate::num::{decimal, decimal_string, digits_of, write_digits};
use crate::text::{join, join_with, push_char, push_if, push_str, push_string, str_eq, str_starts_with};

verus! {

/// Which options a compose service sets that a Quadlet container cannot take: each field is
/// `true` where the service sets the option of that name (for `extensions`, compose extensions
/// of the service or of its logging), except `attach`, which is the service's own flag and
/// `true` by default.
#[derive(Debug, Clone, Copy, PartialEq, Eq, Structural)]
pub struct Unsupported {
    pub attach: bool,
    pub build: bool,
    pub cpu_count: bool,
    pub cpu_percent: bool,
    pub configs: bool,
    pub credential_spec: bool,
    pub deploy: bool,
    pub develop: bool,
    pub domain_name: bool,
    pub extends: bool,
    pub external_links: bool,
    pub isolation: bool,
    pub links: bool,
    pub profiles: bool,
    pub scale: bool,
    pub volumes_from: bool,
    pub extensions: bool,
}

/// Error returned when a compose service sets an option that a Quadlet container cannot take.
#[derive(Debug, Clone, PartialEq, Eq)]
pub enum UnsupportedError {
    /// An option that is not supported, by name.
    Option(String),
    /// Compose extensions.
    Extensions,
}

/// [`UnsupportedError`] with its text as a character sequence.
pub ghost enum UnsupportedErr {
    Option(Seq<char>),
    Extensions,
}

impl View for UnsupportedError {
    type V = UnsupportedErr;

    open spec fn view(&self) -> UnsupportedErr {
        match self {
            UnsupportedError::Option(n) => UnsupportedErr::Option(n@),
            UnsupportedError::Extensions => UnsupportedErr::Extensions,
        }
    }
}

/// The first option set that a Quadlet container cannot take, checked in this order, then
/// extensions.
pub open spec fn unsupported_check(u: Unsupported) -> Result<(), UnsupportedErr> {
    if !u.attach {
        Err(UnsupportedErr::Option("attach"@))
    } else if u.build {
        Err(UnsupportedErr::Option("build"@))
    } else if u.cpu_count {
        Err(UnsupportedErr::Option("cpu_count"@))
    } else if u.cpu_percent {
        Err(UnsupportedErr::Option("cpu_percent"@))
    } else if u.configs {
        Err(UnsupportedErr::Option("configs"@))
    } else if u.credential_spec {
        Err(UnsupportedErr::Option("credential_spec"@))
    } else if u.deploy {
        Err(UnsupportedErr::Option("deploy"@))
    } else if u.develop {
        Err(UnsupportedErr::Option("develop"@))
    } else if u.domain_name {
        Err(UnsupportedErr::Option("domain_name"@))
    } else if u.extends {
        Err(UnsupportedErr::Option("extends"@))
    } else if u.external_links {
        Err(UnsupportedErr::Option("external_links"@))
    } else if u.isolation {
        Err(UnsupportedErr::Option("isolation"@))
    } else if u.links {
        Err(UnsupportedErr::Option("links"@))
    } else if u.profiles {
        Err(UnsupportedErr::Option("profiles"@))
    } else if u.scale {
        Err(UnsupportedErr::Option("scale"@))
    } else if u.volumes_from {
        Err(UnsupportedErr::Option("volumes_from"@))
    } else if u.extensions {
        Err(UnsupportedErr::Extensions)
    } else {
        Ok(())
    }
}

/// The error for the option `name`.
fn option_error(name: &str) -> (e: UnsupportedError)
    ensures
        e@ == UnsupportedErr::Option(name@),
{
    UnsupportedError::Option(name.to_owned())
}

impl Unsupported {
    /// Ensure that the service sets none of the options that a Quadlet container cannot take.
    pub fn ensure_empty(&self) -> (r: Result<(), UnsupportedError>)
        ensures
            match r {
                Ok(()) => unsupported_check(*self) == Ok::<(), UnsupportedErr>(()),
                Err(e) => unsupported_check(*self) == Err::<(), UnsupportedErr>(e@),
            },
    {
        if !self.attach {
            return Err(option_error("attach"));
        }
        if self.build {
            return Err(option_error("build"));
        }
        if self.cpu_count {
            return Err(option_error("cpu_count"));
        }
        if self.cpu_percent {
            return Err(option_error("cpu_percent"));
        }
        if self.configs {
            return Err(option_error("configs"));
        }
        if self.credential_spec {
            return Err(option_error("credential_spec"));
        }
        if self.deploy {
            return Err(option_error("deploy"));
        }
        if self.develop {
            return Err(option_error("develop"));
        }
        if self.domain_name {
            return Err(option_error("domain_name"));
        }
        if self.extends {
            return Err(option_error("extends"));
        }
        if self.external_links {
            return Err(option_error("external_links"));
        }
        if self.isolation {
            return Err(option_error("isolation"));
        }
        if self.links {
            return Err(option_error("links"));
        }
        if self.profiles {
            return Err(option_error("profiles"));
        }
        if self.scale {
            return Err(option_error("scale"));
        }
        if self.volumes_from {
            return Err(option_error("volumes_from"));
        }
        if self.extensions {
            return Err(UnsupportedError::Extensions);
        }
        Ok(())
    }
}

/// The IPC namespace mode of a compose service.
#[derive(Debug, Clone, PartialEq, Eq)]
pub enum Ipc {
    /// "shareable".
    Shareable,
    /// "service:NAME", sharing the namespace of another service.
    Service(String),
    /// Any other mode.
    Other(String),
}

/// [`Ipc`] with its text as a character sequence.
pub ghost enum IpcView {
    Shareable,
    Service(Seq<char>),
    Other(Seq<char>),
}

impl View for Ipc {
    type V = IpcView;

    open spec fn view(&self) -> IpcView {
        match self {
            Ipc::Shareable => IpcView::Shareable,
            Ipc::Service(s) => IpcView::Service(s@),
            Ipc::Other(s) => IpcView::Other(s@),
        }
    }
}

/// Error returned for a namespace mode that `podman run` does not take.
#[derive(Debug, Clone, PartialEq, Eq)]
pub enum NamespaceModeError {
    /// "service:" modes, for which "container:" may be used instead.
    Service,
    /// Another mode that Podman does not support.
    Unsupported(String),
}

/// [`NamespaceModeError`] with its text as a character sequence.
pub ghost enum NamespaceModeErr {
    Service,
    Unsupported(Seq<char>),
}

impl View for NamespaceModeError {
    type V = NamespaceModeErr;

    open spec fn view(&self) -> NamespaceModeErr {
        match self {
            NamespaceModeError::Service => NamespaceModeErr::Service,
            NamespaceModeError::Unsupported(s) => NamespaceModeErr::Unsupported(s@),
        }
    }
}

/// The `podman run --ipc` value of an IPC mode: empty, "container:...", "host", "none",
/// "ns:...", "private" or "shareable".
pub open spec fn ipc_value(ipc: IpcView) -> Result<Seq<char>, NamespaceModeErr> {
    match ipc {
        IpcView::Shareable => Ok("shareable"@),
        IpcView::Service(_) => Err(NamespaceModeErr::Service),
        IpcView::Other(s) => if s.len() == 0 || "container:"@.is_prefix_of(s) || s == "host"@ || s
            == "none"@ || "ns:"@.is_prefix_of(s) || s == "private"@ || s == "shareable"@ {
            Ok(s)
        } else {
            Err(NamespaceModeErr::Unsupported(s))
        },
    }
}

/// Validate the IPC mode of a compose service for `podman run --ipc`.
pub fn validate_ipc(ipc: Ipc) -> (r: Result<String, NamespaceModeError>)
    ensures
        match r {
            Ok(s) => ipc_value(ipc@) == Ok::<Seq<char>, NamespaceModeErr>(s@),
            Err(e) => ipc_value(ipc@) == Err::<Seq<char>, NamespaceModeErr>(e@),
        },
{
    match ipc {
        Ipc::Shareable => Ok("shareable".to_owned()),
        Ipc::Service(_) => Err(NamespaceModeError::Service),
        Ipc::Other(s) => {
            if s.unicode_len() == 0 || str_starts_with(s.as_str(), "container:") || str_eq(
                s.as_str(),
                "host",
            ) || str_eq(s.as_str(), "none") || str_starts_with(s.as_str(), "ns:") || str_eq(
                s.as_str(),
                "private",
            ) || str_eq(s.as_str(), "shareable") {
                Ok(s)
            } else {
                Err(NamespaceModeError::Unsupported(s))
            }
        },
    }
}

/// The network mode of a compose service.
#[derive(Debug, Clone, PartialEq, Eq)]
pub enum NetworkMode {
    /// "none": no network.
    Disabled,
    /// "host".
    Host,
    /// "service:NAME", sharing the network of another service.
    Service(String),
    /// Any other mode.
    Other(String),
}

/// [`NetworkMode`] with its text as a character sequence.
pub ghost enum NetworkModeView {
    Disabled,
    Host,
    Service(Seq<char>),
    Other(Seq<char>),
}

impl View for NetworkMode {
    type V = NetworkModeView;

    open spec fn view(&self) -> NetworkModeView {
        match self {
            NetworkMode::Disabled => NetworkModeView::Disabled,
            NetworkMode::Host => NetworkModeView::Host,
            NetworkMode::Service(s) => NetworkModeView::Service(s@),
            NetworkMode::Other(s) => NetworkModeView::Other(s@),
        }
    }
}

/// The `podman run --network` value of a network mode: "none", "host", or a mode starting with
/// "bridge", "container", "ns:", "slirp4netns" or "pasta", or "private".
pub open spec fn network_mode_value(mode: NetworkModeView) -> Result<Seq<char>, NamespaceModeErr> {
    match mode {
        NetworkModeView::Disabled => Ok("none"@),
        NetworkModeView::Host => Ok("host"@),
        NetworkModeView::Service(_) => Err(NamespaceModeErr::Service),
        NetworkModeView::Other(s) => if "bridge"@.is_prefix_of(s) || "container"@.is_prefix_of(s)
            || "ns:"@.is_prefix_of(s) || s == "private"@ || "slirp4netns"@.is_prefix_of(s)
            || "pasta"@.is_prefix_of(s) {
            Ok(s)
        } else {
            Err(NamespaceModeErr::Unsupported(s))
        },
    }
}

/// Validate the network mode of a compose service for `podman run --network`.
pub fn validate_network_mode(network_mode: NetworkMode) -> (r: Result<String, NamespaceModeError>)
    ensures
        match r {
            Ok(s) => network_mode_value(network_mode@) == Ok::<Seq<char>, NamespaceModeErr>(s@),
            Err(e) => network_mode_value(network_mode@) == Err::<Seq<char>, NamespaceModeErr>(e@),
        },
{
    match network_mode {
        NetworkMode::Disabled => Ok("none".to_owned()),
        NetworkMode::Host => Ok("host".to_owned()),
        NetworkMode::Service(_) => Err(NamespaceModeError::Service),
        NetworkMode::Other(s) => {
            if str_starts_with(s.as_str(), "bridge") || str_starts_with(s.as_str(), "container")
                || str_starts_with(s.as_str(), "ns:") || str_eq(s.as_str(), "private")
                || str_starts_with(s.as_str(), "slirp4netns") || str_starts_with(
                s.as_str(),
                "pasta",
            ) {
                Ok(s)
            } else {
                Err(NamespaceModeError::Unsupported(s))
            }
        },
    }
}

/// Error returned when a compose option has no `podman run` form.
#[derive(Debug, Clone, PartialEq, Eq)]
pub enum ShortFormError {
    /// The `consistency` volume option.
    Consistency,
    /// Compose extensions.
    Extensions,
    /// The network `link_local_ips` option.
    LinkLocalIps,
    /// The network `priority` option.
    Priority,
}

/// An option and its text: "NAME=TEXT".
pub open spec fn named(name: Seq<char>, text: Seq<char>) -> Seq<char> {
    name + seq!['='] + text
}

/// Append "NAME=TEXT" to `items` when there is a text.
pub open spec fn push_named(items: Seq<Seq<char>>, name: Seq<char>, text: Option<Seq<char>>) -> Seq<
    Seq<char>,
> {
    match text {
        Some(t) => items.push(named(name, t)),
        None => items,
    }
}

/// The octal digits of an optional mode.
pub open spec fn opt_octal(mode: Option<u32>) -> Option<Seq<char>> {
    match mode {
        Some(m) => Some(digits_of(m as nat, 8)),
        None => None,
    }
}

/// "NAME=TEXT" as a string.
fn named_string(name: &str, text: &str) -> (r: String)
    ensures
        r@ == named(name@, text@),
{
    let mut r = name.to_owned();
    push_char(&mut r, '=');
    push_str(&mut r, text);
    assert(name@.push('=') + text@ =~= named(name@, text@));
    r
}

/// Append "NAME=TEXT" to `items` when there is a text.
fn push_named_exec(items: &mut Vec<String>, name: &str, text: Option<String>)
    ensures
        final(items).deep_view() == push_named(old(items).deep_view(), name@, opt_seq(text)),
{
    if let Some(t) = text {
        push_string(items, named_string(name, t.as_str()));
    }
}

/// The octal digits of an optional mode.
fn octal_opt(mode: Option<u32>) -> (r: Option<String>)
    ensures
        opt_seq(r) == opt_octal(mode),
{
    match mode {
        Some(m) => {
            let mut s = String::new();
            write_digits(&mut s, m as u128, 8);
            assert(Seq::<char>::empty() + digits_of(m as nat, 8) =~= digits_of(m as nat, 8));
            Some(s)
        },
        None => None,
    }
}

/// A tmpfs volume of a compose service.
#[derive(Debug, Clone, PartialEq, Eq)]
pub struct TmpfsVolume {
    /// The path in the container.
    pub target: String,
    pub read_only: bool,
    /// Whether the `consistency` option is set.
    pub consistency: bool,
    /// Whether the volume has compose extensions.
    pub extensions: bool,
    /// The size, as compose writes it.
    pub size: Option<String>,
    pub mode: Option<u32>,
    /// Whether the tmpfs options have compose extensions.
    pub options_extensions: bool,
}

/// The options of a tmpfs volume: "ro", "size=SIZE", "mode=OCTAL", those that are set.
pub open spec fn tmpfs_options(t: TmpfsVolume) -> Seq<Seq<char>> {
    let a = push_if(Seq::<Seq<char>>::empty(), t.read_only, "ro"@);
    let a = push_named(a, "size"@, opt_seq(t.size));
    push_named(a, "mode"@, opt_octal(t.mode))
}

/// The `podman run --tmpfs` form of a tmpfs volume: the target, then ':' and its options
/// joined by ',' when it has any.
pub open spec fn tmpfs_short(t: TmpfsVolume) -> Result<Seq<char>, ShortFormError> {
    if t.consistency {
        Err(ShortFormError::Consistency)
    } else if t.extensions || t.options_extensions {
        Err(ShortFormError::Extensions)
    } else {
        let options = tmpfs_options(t);
        Ok(
            if options.len() == 0 {
                t.target@
            } else {
                t.target@ + seq![':'] + join(options, seq![','])
            },
        )
    }
}

/// The `podman run --tmpfs` form of a tmpfs volume of a compose service.
pub fn tmpfs_try_into_short(tmpfs: TmpfsVolume) -> (r: Result<String, ShortFormError>)
    ensures
        match r {
            Ok(s) => tmpfs_short(tmpfs) == Ok::<Seq<char>, ShortFormError>(s@),
            Err(e) => tmpfs_short(tmpfs) == Err::<Seq<char>, ShortFormError>(e),
        },
{
    let ghost t = tmpfs;
    if tmpfs.consistency {
        return Err(ShortFormError::Consistency);
    }
    if tmpfs.extensions || tmpfs.options_extensions {
        return Err(ShortFormError::Extensions);
    }
    let mut options: Vec<String> = Vec::new();
    if tmpfs.read_only {
        push_string(&mut options, "ro".to_owned());
    }
    push_named_exec(&mut options, "size", tmpfs.size);
    push_named_exec(&mut options, "mode", octal_opt(tmpfs.mode));
    assert(options.deep_view() == tmpfs_options(t));
    let mut r = tmpfs.target;
    if options.len() > 0 {
        push_char(&mut r, ':');
        let joined = join_with(&options, ',');
        push_str(&mut r, joined.as_str());
        assert(t.target@.push(':') + joined@ =~= t.target@ + seq![':'] + joined@);
    }
    Ok(r)
}

/// A secret of a compose service, by name or with its options.
#[derive(Debug, Clone, PartialEq, Eq)]
pub enum ServiceSecret {
    /// A secret by name.
    Short(String),
    /// A secret with options.
    Long(LongSecret),
}

/// A secret of a compose service with its options.
#[derive(Debug, Clone, PartialEq, Eq)]
pub struct LongSecret {
    pub source: String,
    pub target: Option<String>,
    pub uid: Option<String>,
    pub gid: Option<String>,
    pub mode: Option<u32>,
    /// Whether the secret has compose extensions.
    pub extensions: bool,
}

/// The `podman run --secret` form of a secret: the name, or the source and the options
/// "target=", "uid=", "gid=", "mode=" (octal) that are set, joined by ','.
pub open spec fn secret_short(s: ServiceSecret) -> Result<Seq<char>, ShortFormError> {
    match s {
        ServiceSecret::Short(name) => Ok(name@),
        ServiceSecret::Long(l) => if l.extensions {
            Err(ShortFormError::Extensions)
        } else {
            let a = seq![l.source@];
            let a = push_named(a, "target"@, opt_seq(l.target));
            let a = push_named(a, "uid"@, opt_seq(l.uid));
            let a = push_named(a, "gid"@, opt_seq(l.gid));
            let a = push_named(a, "mode"@, opt_octal(l.mode));
            Ok(join(a, seq![',']))
        },
    }
}

/// The `podman run --secret` form of a secret of a compose service.
pub fn secret_try_into_short(secret: ServiceSecret) -> (r: Result<String, ShortFormError>)
    ensures
        match r {
            Ok(s) => secret_short(secret) == Ok::<Seq<char>, ShortFormError>(s@),
            Err(e) => secret_short(secret) == Err::<Seq<char>, ShortFormError>(e),
        },
{
    match secret {
        ServiceSecret::Short(name) => Ok(name),
        ServiceSecret::Long(l) => {
            let ghost g = l;
            if l.extensions {
                return Err(ShortFormError::Extensions);
            }
            let mut items: Vec<String> = Vec::new();
            push_string(&mut items, l.source);
            assert(items.deep_view() =~= seq![g.source@]);
            push_named_exec(&mut items, "target", l.target);
            push_named_exec(&mut items, "uid", l.uid);
            push_named_exec(&mut items, "gid", l.gid);
            push_named_exec(&mut items, "mode", octal_opt(l.mode));
            Ok(join_with(&items, ','))
        },
    }
}

/// A ulimit of a compose service: one limit, or soft and hard limits.
#[derive(Debug, Clone, PartialEq, Eq)]
pub enum Ulimit {
    Single(u64),
    Range { soft: u64, hard: u64, extensions: bool },
}

/// The `podman run --ulimit` form of a ulimit: "RESOURCE=LIMIT" or "RESOURCE=SOFT:HARD".
pub open spec fn ulimit_short(resource: Seq<char>, u: Ulimit) -> Result<Seq<char>, ShortFormError> {
    match u {
        Ulimit::Single(n) => Ok(named(resource, decimal(n as nat))),
        Ulimit::Range { soft, hard, extensions } => if extensions {
            Err(ShortFormError::Extensions)
        } else {
            Ok(named(resource, decimal(soft as nat) + seq![':'] + decimal(hard as nat)))
        },
    }
}

/// The `podman run --ulimit` form of a ulimit of a compose service for `resource`.
pub fn ulimit_try_into_short(resource: &str, ulimit: Ulimit) -> (r: Result<String, ShortFormError>)
    ensures
        match r {
            Ok(s) => ulimit_short(resource@, ulimit) == Ok::<Seq<char>, ShortFormError>(s@),
            Err(e) => ulimit_short(resource@, ulimit) == Err::<Seq<char>, ShortFormError>(e),
        },
{
    match ulimit {
        Ulimit::Single(n) => Ok(named_string(resource, decimal_string(n as u128).as_str())),
        Ulimit::Range { soft, hard, extensions } => {
            if extensions {
                return Err(ShortFormError::Extensions);
            }
            let mut limits = decimal_string(soft as u128);
            push_char(&mut limits, ':');
            let h = decimal_string(hard as u128);
            push_str(&mut limits, h.as_str());
            assert(decimal(soft as nat).push(':') + h@ =~= decimal(soft as nat) + seq![':']
                + decimal(hard as nat));
            Ok(named_string(resource, limits.as_str()))
        },
    }
}

/// The options of a compose service's network.
#[derive(Debug, Clone, PartialEq, Eq)]
pub struct NetworkOptions {
    pub aliases: Vec<String>,
    pub ipv4_address: Option<String>,
    pub ipv6_address: Option<String>,
    /// Whether `link_local_ips` are given.
    pub link_local_ips: bool,
    pub mac_address: Option<String>,
    /// Whether a priority is given.
    pub priority: bool,
    /// Whether the network has compose extensions.
    pub extensions: bool,
}

/// "alias=ALIAS" for each alias.
pub open spec fn alias_items(aliases: Seq<Seq<char>>) -> Seq<Seq<char>> {
    aliases.map_values(|a: Seq<char>| named("alias"@, a))
}

/// The `podman run --network` options of a network: "alias=", then "ip=" for the IPv4 and the
/// IPv6 address, then "mac=", joined by ','.
pub open spec fn network_options_text(n: NetworkOptions) -> Result<Seq<char>, ShortFormError> {
    if n.link_local_ips {
        Err(ShortFormError::LinkLocalIps)
    } else if n.priority {
        Err(ShortFormError::Priority)
    } else if n.extensions {
        Err(ShortFormError::Extensions)
    } else {
        let a = alias_items(n.aliases.deep_view());
        let a = push_named(a, "ip"@, opt_seq(n.ipv4_address));
        let a = push_named(a, "ip"@, opt_seq(n.ipv6_address));
        let a = push_named(a, "mac"@, opt_seq(n.mac_address));
        Ok(join(a, seq![',']))
    }
}

/// The `podman run --network` options of a network of a compose service.
pub fn network_options(network: NetworkOptions) -> (r: Result<String, ShortFormError>)
    ensures
        match r {
            Ok(s) => network_options_text(network) == Ok::<Seq<char>, ShortFormError>(s@),
            Err(e) => network_options_text(network) == Err::<Seq<char>, ShortFormError>(e),
        },
{
    let ghost n = network;
    if network.link_local_ips {
        return Err(ShortFormError::LinkLocalIps);
    }
    if network.priority {
        return Err(ShortFormError::Priority);
    }
    if network.extensions {
        return Err(ShortFormError::Extensions);
    }
    let aliases = network.aliases;
    let ghost all = aliases.deep_view();
    let mut items: Vec<String> = Vec::new();
    let mut i: usize = 0;
    while i < aliases.len()
        invariant
            i <= aliases@.len(),
            all == aliases.deep_view(),
            items.deep_view() == alias_items(all.subrange(0, i as int)),
        decreases aliases.len() - i,
    {
        push_string(&mut items, named_string("alias", aliases[i].as_str()));
        assert(alias_items(all.subrange(0, i + 1)) =~= alias_items(all.subrange(0, i as int)).push(
            named("alias"@, all[i as int]),
        ));
        i = i + 1;
    }
    assert(all.subrange(0, i as int) =~= all);
    push_named_exec(&mut items, "ip", network.ipv4_address);
    push_named_exec(&mut items, "ip", network.ipv6_address);
    push_named_exec(&mut items, "mac", network.mac_address);
    Ok(join_with(&items, ','))
}

/// The network configuration of a compose service: a network mode, or networks by name with
/// optional options.
#[derive(Debug, Clone, PartialEq, Eq)]
pub enum NetworkConfig {
    Mode(NetworkMode),
    Networks(Vec<(String, Option<NetworkOptions>)>),
}

/// Error returned when a network configuration has no `podman run --network` form.
#[derive(Debug, Clone, PartialEq, Eq)]
pub enum NetworkConfigError {
    /// The network mode.
    Mode(NamespaceModeError),
    /// The options of the network of that name.
    Network(String, ShortFormError),
}

/// [`NetworkConfigError`] with its texts as character sequences.
pub ghost enum NetworkConfigErr {
    Mode(NamespaceModeErr),
    Network(Seq<char>, ShortFormError),
}

impl View for NetworkConfigError {
    type V = NetworkConfigErr;

    open spec fn view(&self) -> NetworkConfigErr {
        match self {
            NetworkConfigError::Mode(e) => NetworkConfigErr::Mode(e@),
            NetworkConfigError::Network(n, e) => NetworkConfigErr::Network(n@, *e),
        }
    }
}

/// The `podman run --network` value of one network: "NAME.network", then ':' and its options
/// when it has them.
pub open spec fn network_value(name: Seq<char>, options: Option<NetworkOptions>) -> Result<
    Seq<char>,
    NetworkConfigErr,
> {
    match options {
        None => Ok(name + ".network"@),
        Some(o) => match network_options_text(o) {
            Ok(t) => Ok(name + ".network"@ + seq![':'] + t),
            Err(e) => Err(NetworkConfigErr::Network(name, e)),
        },
    }
}

/// The values of the first `n` networks, or the first error.
pub open spec fn network_values(networks: Seq<(String, Option<NetworkOptions>)>) -> Result<
    Seq<Seq<char>>,
    NetworkConfigErr,
>
    decreases networks.len(),
{
    if networks.len() == 0 {
        Ok(Seq::empty())
    } else {
        match network_values(networks.drop_last()) {
            Err(e) => Err(e),
            Ok(vs) => match network_value(networks.last().0@, networks.last().1) {
                Ok(v) => Ok(vs.push(v)),
                Err(e) => Err(e),
            },
        }
    }
}

/// The `podman run --network` values of a network configuration.
pub open spec fn network_config_values(c: NetworkConfig) -> Result<Seq<Seq<char>>, NetworkConfigErr> {
    match c {
        NetworkConfig::Mode(m) => match network_mode_value(m@) {
            Ok(v) => Ok(seq![v]),
            Err(e) => Err(NetworkConfigErr::Mode(e)),
        },
        NetworkConfig::Networks(ns) => network_values(ns@),
    }
}

/// An error in the first `n` networks is the error of all of them.
proof fn lemma_network_values_err(
    networks: Seq<(String, Option<NetworkOptions>)>,
    n: int,
    e: NetworkConfigErr,
)
    requires
        0 <= n <= networks.len(),
        network_values(networks.subrange(0, n)) == Err::<Seq<Seq<char>>, NetworkConfigErr>(e),
    ensures
        network_values(networks) == Err::<Seq<Seq<char>>, NetworkConfigErr>(e),
    decreases networks.len() - n,
{
    if n < networks.len() {
        assert(networks.subrange(0, n + 1).drop_last() =~= networks.subrange(0, n));
        lemma_network_values_err(networks, n + 1, e);
    } else {
        assert(networks.subrange(0, n) =~= networks);
    }
}

/// The `podman run --network` values of the network configuration of a compose service.
pub fn network_config_try_into_network_options(network_config: NetworkConfig) -> (r: Result<
    Vec<String>,
    NetworkConfigError,
>)
    ensures
        match r {
            Ok(v) => network_config_values(network_config) == Ok::<
                Seq<Seq<char>>,
                NetworkConfigErr,
            >(v.deep_view()),
            Err(e) => network_config_values(network_config) == Err::<
                Seq<Seq<char>>,
                NetworkConfigErr,
            >(e@),
        },
{
    match network_config {
        NetworkConfig::Mode(mode) => match validate_network_mode(mode) {
            Ok(v) => {
                let mut r: Vec<String> = Vec::new();
                let ghost s = v@;
                push_string(&mut r, v);
                assert(r.deep_view() =~= seq![s]);
                Ok(r)
            },
            Err(e) => Err(NetworkConfigError::Mode(e)),
        },
        NetworkConfig::Networks(networks) => {
            let ghost all = networks@;
            let mut rest = networks;
            let mut r: Vec<String> = Vec::new();
            let ghost mut i: int = 0;
            assert(all.subrange(0, 0) =~= Seq::<(String, Option<NetworkOptions>)>::empty());
            assert(r.deep_view() =~= Seq::<Seq<char>>::empty());
            assert(rest@ =~= all.subrange(0, all.len() as int));
            assert(network_config_values(network_config) == network_values(all));
            while rest.len() > 0
                invariant
                    0 <= i <= all.len(),
                    network_config_values(network_config) == network_values(all),
                    rest@ == all.subrange(i, all.len() as int),
                    network_values(all.subrange(0, i)) == Ok::<
                        Seq<Seq<char>>,
                        NetworkConfigErr,
                    >(r.deep_view()),
                decreases rest.len(),
            {
                assert(all.subrange(0, i + 1).drop_last() =~= all.subrange(0, i));
                let (name, options) = rest.remove(0);
                assert(all[i] == (name, options));
                assert(all.subrange(0, i + 1).last() == (name, options));
                let mut value = name.clone();
                push_str(&mut value, ".network");
                match options {
                    None => {},
                    Some(o) => match network_options(o) {
                        Ok(t) => {
                            push_char(&mut value, ':');
                            push_str(&mut value, t.as_str());
                            assert((name@ + ".network"@).push(':') + t@ =~= name@ + ".network"@
                                + seq![':'] + t@);
                        },
                        Err(e) => {
                            let err = NetworkConfigError::Network(name, e);
                            proof {
                                lemma_network_values_err(all, i + 1, err@);
                            }
                            return Err(err);
                        },
                    },
                }
                push_string(&mut r, value);
                proof {
                    i = i + 1;
                }
                assert(rest@ =~= all.subrange(i, all.len() as int));
            }
            assert(all.subrange(0, i) =~= all);
            Ok(r)
        },
    }
}

} // verus!
