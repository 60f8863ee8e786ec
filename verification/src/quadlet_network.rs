//! The `[Network]` section of a Quadlet `.network` file: its options, its text, and how it is
//! made from `podman network create` options or from a network of a compose file.
//!
//! IP addresses, subnets and IP ranges are held as the text that Podman reads and writes for
//! them.

use vstd::prelude::*;

use crate::text::opt_seq;

use crate::downgrade::{older, push_podman_arg, with_podman_arg, DowngradeErr, DowngradeError, PodmanVersion};
use crate::args_ser::{args_text, fields_args, to_string as args_to_string, valid_flag, ErrorKind};
use crate::global_args::{list_args, opt_arg, optional_text, push_field, strings};
use crate::quadlet_lines::{copy_text, fields_give, flag_line, joined_line, list_lines, opt_line, push_flag, push_joined, push_list, push_option, section_text};
use crate::quadlet_ser::header;
use crate::text::{push_str, push_string};
use crate::value::{Field, Value};

verus! {

/// Options of the `[Network]` section of a `.network` Quadlet file.
#[derive(Debug, Clone, PartialEq, Eq)]
pub struct Network {
    /// Disables the DNS plugin for this network.
    pub disable_dns: bool,
    /// Network-scoped DNS resolvers for containers in this network.
    pub dns: Vec<String>,
    /// Driver to manage the network.
    pub driver: Option<String>,
    /// Gateways of the subnets.
    pub gateway: Vec<String>,
    /// Restrict external access of this network.
    pub internal: bool,
    /// The IP address management driver.
    pub ipam_driver: Option<String>,
    /// Ranges to allocate container IP addresses from.
    pub ip_range: Vec<String>,
    /// Enable IPv6 (dual stack) networking.
    pub ipv6: bool,
    /// OCI labels of the network.
    pub label: Vec<String>,
    /// Driver specific options.
    pub options: Vec<String>,
    /// Arguments passed directly to the end of `podman network create`.
    pub podman_args: Option<String>,
    /// Subnets in CIDR notation.
    pub subnet: Vec<String>,
}

/// The lines of the options of a `[Network]` section: one for each option that is set, in the
/// order of the fields; the labels on one line.
pub open spec fn network_lines(n: Network) -> Seq<char> {
    flag_line("DisableDNS"@, n.disable_dns) + list_lines("DNS"@, n.dns@) + opt_line(
        "Driver"@,
        n.driver,
    ) + list_lines("Gateway"@, n.gateway@) + flag_line("Internal"@, n.internal) + opt_line(
        "IPAMDriver"@,
        n.ipam_driver,
    ) + list_lines("IPRange"@, n.ip_range@) + flag_line("IPv6"@, n.ipv6) + joined_line(
        "Label"@,
        n.label@,
    ) + list_lines("Options"@, n.options@) + opt_line("PodmanArgs"@, n.podman_args) + list_lines(
        "Subnet"@,
        n.subnet@,
    )
}

/// The text of a `[Network]` section: its header, then the lines of its options.
pub open spec fn network_text(n: Network) -> Seq<char> {
    header(false, "Network"@) + network_lines(n)
}

/// No option is set.
pub open spec fn network_empty(n: Network) -> bool {
    &&& !n.disable_dns && n.dns@.len() == 0 && n.driver is None && n.gateway@.len() == 0
    &&& !n.internal && n.ipam_driver is None && n.ip_range@.len() == 0 && !n.ipv6
    &&& n.label@.len() == 0 && n.options@.len() == 0 && n.podman_args is None
    &&& n.subnet@.len() == 0
}

impl Network {
    /// A network section with no option set.
    pub fn new() -> (n: Network)
        ensures
            network_empty(n),
    {
        Network {
            disable_dns: false,
            dns: Vec::new(),
            driver: None,
            gateway: Vec::new(),
            internal: false,
            ipam_driver: None,
            ip_range: Vec::new(),
            ipv6: false,
            label: Vec::new(),
            options: Vec::new(),
            podman_args: None,
            subnet: Vec::new(),
        }
    }

    /// The text of the `[Network]` section.
    pub fn to_string(&self) -> (r: String)
        ensures
            r@ == network_text(*self),
    {
        let mut fields: Vec<Field> = Vec::new();
        let ghost mut t = Seq::<char>::empty();
        push_flag(&mut fields, "DisableDNS", self.disable_dns, Ghost(t));
        proof {
            assert(t + flag_line("DisableDNS"@, self.disable_dns) =~= flag_line(
                "DisableDNS"@,
                self.disable_dns,
            ));
            t = flag_line("DisableDNS"@, self.disable_dns);
        }
        push_list(&mut fields, "DNS", &self.dns, Ghost(t));
        proof {
            t = t + list_lines("DNS"@, self.dns@);
        }
        push_option(&mut fields, "Driver", copy_text(&self.driver), Ghost(t));
        proof {
            t = t + opt_line("Driver"@, self.driver);
        }
        push_list(&mut fields, "Gateway", &self.gateway, Ghost(t));
        proof {
            t = t + list_lines("Gateway"@, self.gateway@);
        }
        push_flag(&mut fields, "Internal", self.internal, Ghost(t));
        proof {
            t = t + flag_line("Internal"@, self.internal);
        }
        push_option(&mut fields, "IPAMDriver", copy_text(&self.ipam_driver), Ghost(t));
        proof {
            t = t + opt_line("IPAMDriver"@, self.ipam_driver);
        }
        push_list(&mut fields, "IPRange", &self.ip_range, Ghost(t));
        proof {
            t = t + list_lines("IPRange"@, self.ip_range@);
        }
        push_flag(&mut fields, "IPv6", self.ipv6, Ghost(t));
        proof {
            t = t + flag_line("IPv6"@, self.ipv6);
        }
        push_joined(&mut fields, "Label", &self.label, Ghost(t));
        proof {
            t = t + joined_line("Label"@, self.label@);
        }
        push_list(&mut fields, "Options", &self.options, Ghost(t));
        proof {
            t = t + list_lines("Options"@, self.options@);
        }
        push_option(&mut fields, "PodmanArgs", copy_text(&self.podman_args), Ghost(t));
        proof {
            t = t + opt_line("PodmanArgs"@, self.podman_args);
        }
        push_list(&mut fields, "Subnet", &self.subnet, Ghost(t));
        proof {
            t = t + list_lines("Subnet"@, self.subnet@);
        }
        section_text("Network", fields, Ghost(t))
    }
}

impl Default for Network {
    fn default() -> (n: Network)
        ensures
            network_empty(n),
    {
        Network::new()
    }
}

/// One IP address management configuration of a compose network.
#[derive(Debug, Clone, PartialEq, Eq)]
pub struct IpamConfig {
    pub subnet: Option<String>,
    pub ip_range: Option<String>,
    pub gateway: Option<String>,
    /// Whether auxiliary addresses are given.
    pub aux_addresses: bool,
    /// Whether the configuration has compose extensions.
    pub extensions: bool,
}

/// The IP address management of a compose network.
#[derive(Debug, Clone, PartialEq, Eq)]
pub struct Ipam {
    pub driver: Option<String>,
    pub config: Vec<IpamConfig>,
    /// Whether driver options are given.
    pub options: bool,
    /// Whether it has compose extensions.
    pub extensions: bool,
}

/// A network of a compose file.
#[derive(Debug, Clone, PartialEq, Eq)]
pub struct ComposeNetwork {
    pub driver: Option<String>,
    /// The driver options, each a key and the text of its value.
    pub driver_opts: Vec<(String, String)>,
    pub attachable: bool,
    pub enable_ipv6: bool,
    pub ipam: Option<Ipam>,
    pub internal: bool,
    /// The labels, each "key=value".
    pub labels: Vec<String>,
    pub name: Option<String>,
    /// Whether the network has compose extensions.
    pub extensions: bool,
}

/// Error returned when a compose network cannot become a Quadlet network.
#[derive(Debug, Clone, Copy, PartialEq, Eq, Structural)]
pub enum ComposeNetworkError {
    /// `attachable` is not supported.
    Attachable,
    /// `name` is not supported.
    Name,
    /// `ipam.options` is not supported.
    IpamOptions,
    /// Compose extensions of the network or its `ipam`.
    Extensions,
    /// `aux_addresses` in the IPAM configuration of this index.
    AuxAddresses(usize),
    /// Compose extensions in the IPAM configuration of this index.
    ConfigExtensions(usize),
}

/// The item of an option, if any.
pub open spec fn opt_item(o: Option<String>) -> Seq<String> {
    match o {
        Some(s) => seq![s],
        None => Seq::<String>::empty(),
    }
}

/// The subnets, IP ranges and gateways of IPAM configurations, in order; the error of the first
/// configuration that has auxiliary addresses or compose extensions.
pub open spec fn ipam_configs(cs: Seq<IpamConfig>) -> Result<
    (Seq<String>, Seq<String>, Seq<String>),
    ComposeNetworkError,
>
    decreases cs.len(),
{
    if cs.len() == 0 {
        Ok((Seq::empty(), Seq::empty(), Seq::empty()))
    } else {
        match ipam_configs(cs.drop_last()) {
            Err(e) => Err(e),
            Ok((subnet, ip_range, gateway)) => {
                let c = cs.last();
                if c.aux_addresses {
                    Err(ComposeNetworkError::AuxAddresses((cs.len() - 1) as usize))
                } else if c.extensions {
                    Err(ComposeNetworkError::ConfigExtensions((cs.len() - 1) as usize))
                } else {
                    Ok(
                        (
                            subnet + opt_item(c.subnet),
                            ip_range + opt_item(c.ip_range),
                            gateway + opt_item(c.gateway),
                        ),
                    )
                }
            },
        }
    }
}

/// The IPAM of a compose network; none gives the default, which sets nothing.
pub open spec fn ipam_or_default(i: Option<Ipam>) -> (Option<String>, Seq<IpamConfig>, bool, bool) {
    match i {
        Some(i) => (i.driver, i.config@, i.options, i.extensions),
        None => (None, Seq::empty(), false, false),
    }
}

/// The subnets, IP ranges and gateways of a compose network, or the first error, checked in
/// this order: `attachable`, `name`, `ipam.options`, extensions, then each IPAM configuration.
pub open spec fn compose_network_check(n: ComposeNetwork) -> Result<
    (Seq<String>, Seq<String>, Seq<String>),
    ComposeNetworkError,
> {
    let (_, configs, options, ipam_extensions) = ipam_or_default(n.ipam);
    if n.attachable {
        Err(ComposeNetworkError::Attachable)
    } else if n.name is Some {
        Err(ComposeNetworkError::Name)
    } else if options {
        Err(ComposeNetworkError::IpamOptions)
    } else if n.extensions || ipam_extensions {
        Err(ComposeNetworkError::Extensions)
    } else {
        ipam_configs(configs)
    }
}

/// A driver option as "key=value".
pub open spec fn driver_option(o: (String, String)) -> Seq<char> {
    o.0@ + seq!['='] + o.1@
}

/// After the first configuration that fails, more configurations give that error.
proof fn lemma_configs_stop(cs: Seq<IpamConfig>, j: int, n: int)
    requires
        0 <= j <= n <= cs.len(),
        ipam_configs(cs.subrange(0, j)) is Err,
    ensures
        ipam_configs(cs.subrange(0, n)) == ipam_configs(cs.subrange(0, j)),
    decreases n - j,
{
    if n > j {
        lemma_configs_stop(cs, j, n - 1);
        assert(cs.subrange(0, n).drop_last() =~= cs.subrange(0, n - 1));
    }
}

/// Appends an optional item.
fn push_item(v: &mut Vec<String>, o: Option<String>)
    ensures
        final(v)@ == old(v)@ + opt_item(o),
{
    match o {
        Some(s) => {
            v.push(s);
            assert(final(v)@ =~= old(v)@ + opt_item(o));
        },
        None => {
            assert(final(v)@ =~= old(v)@ + opt_item(o));
        },
    }
}

/// What converting the compose network `network` gives: the Quadlet network with its driver,
/// driver options as "key=value", IPv6, IPAM driver, internal flag and labels, and the subnets,
/// IP ranges and gateways of its IPAM configurations, or the error of [`compose_network_check`].
pub open spec fn compose_network_converted(network: ComposeNetwork, r: Result<Network, ComposeNetworkError>) -> bool {
    match r {
        Ok(n) => {
            &&& compose_network_check(network) == Ok::<
                (Seq<String>, Seq<String>, Seq<String>),
                ComposeNetworkError,
            >((n.subnet@, n.ip_range@, n.gateway@))
            &&& n.driver == network.driver
            &&& n.options@.map_values(|o: String| o@) == network.driver_opts@.map_values(
                |o: (String, String)| driver_option(o),
            )
            &&& n.ipv6 == network.enable_ipv6
            &&& n.ipam_driver == ipam_or_default(network.ipam).0
            &&& n.internal == network.internal
            &&& n.label == network.labels
            &&& !n.disable_dns && n.dns@.len() == 0 && n.podman_args is None
        },
        Err(e) => compose_network_check(network) == Err::<
            (Seq<String>, Seq<String>, Seq<String>),
            ComposeNetworkError,
        >(e),
    }
}

impl Network {
    /// The Quadlet network of a compose network: its driver, driver options as "key=value",
    /// IPv6, IPAM driver, internal flag and labels, and the subnets, IP ranges and gateways of
    /// its IPAM configurations in order.
    ///
    /// Fails where the network is attachable, has a name, IPAM options or compose extensions,
    /// or an IPAM configuration has auxiliary addresses or compose extensions.
    #[verifier::loop_isolation(false)]
    pub fn try_from_compose(network: ComposeNetwork) -> (r: Result<Network, ComposeNetworkError>)
        ensures
            compose_network_converted(network, r),
    {
        let ghost whole = network;
        let ComposeNetwork {
            driver,
            driver_opts,
            attachable,
            enable_ipv6,
            ipam,
            internal,
            labels,
            name,
            extensions,
        } = network;
        let (ipam_driver, config, ipam_options, ipam_extensions) = match ipam {
            Some(Ipam { driver, config, options, extensions }) => (driver, config, options, extensions),
            None => (None, Vec::new(), false, false),
        };
        if attachable {
            return Err(ComposeNetworkError::Attachable);
        }
        if name.is_some() {
            return Err(ComposeNetworkError::Name);
        }
        if ipam_options {
            return Err(ComposeNetworkError::IpamOptions);
        }
        if extensions || ipam_extensions {
            return Err(ComposeNetworkError::Extensions);
        }
        let mut options: Vec<String> = Vec::new();
        let mut i: usize = 0;
        while i < driver_opts.len()
            invariant
                i <= driver_opts@.len(),
                options@.map_values(|o: String| o@) == driver_opts@.subrange(0, i as int).map_values(
                    |o: (String, String)| driver_option(o),
                ),
            decreases driver_opts@.len() - i,
        {
            let (key, value) = &driver_opts[i];
            let mut opt = key.clone();
            push_str(&mut opt, "=");
            push_str(&mut opt, value.as_str());
            proof {
                reveal_strlit("=");
            }
            assert(opt@ =~= driver_option(driver_opts@[i as int]));
            let ghost before = options@;
            let ghost text = opt@;
            options.push(opt);
            assert(options@.map_values(|o: String| o@) =~= before.map_values(|o: String| o@).push(
                text,
            ));
            assert(driver_opts@.subrange(0, i + 1).map_values(|o: (String, String)| driver_option(o))
                =~= driver_opts@.subrange(0, i as int).map_values(
                |o: (String, String)| driver_option(o),
            ).push(driver_option(driver_opts@[i as int])));
            i = i + 1;
        }
        assert(driver_opts@.subrange(0, driver_opts@.len() as int) =~= driver_opts@);
        let ghost configs = config@;
        let mut subnet: Vec<String> = Vec::new();
        let mut ip_range: Vec<String> = Vec::new();
        let mut gateway: Vec<String> = Vec::new();
        let mut rest = config;
        let total = rest.len();
        let mut index: usize = 0;
        assert(configs.subrange(0, 0) =~= Seq::<IpamConfig>::empty());
        assert(subnet@ =~= Seq::<String>::empty());
        assert(ip_range@ =~= Seq::<String>::empty());
        assert(gateway@ =~= Seq::<String>::empty());
        assert(rest@ =~= configs.subrange(0, configs.len() as int));
        while rest.len() > 0
            invariant
                index <= configs.len(),
                configs.len() == total,
                rest@ == configs.subrange(index as int, configs.len() as int),
                ipam_configs(configs.subrange(0, index as int)) == Ok::<
                    (Seq<String>, Seq<String>, Seq<String>),
                    ComposeNetworkError,
                >((subnet@, ip_range@, gateway@)),
            decreases rest.len(),
        {
            let c = rest.remove(0);
            assert(c == configs[index as int]);
            let ghost pre = configs.subrange(0, index + 1);
            assert(pre.drop_last() =~= configs.subrange(0, index as int));
            assert(pre.last() == c);
            if c.aux_addresses {
                proof {
                    lemma_configs_stop(configs, index + 1, configs.len() as int);
                    assert(configs.subrange(0, configs.len() as int) =~= configs);
                }
                return Err(ComposeNetworkError::AuxAddresses(index));
            }
            if c.extensions {
                proof {
                    lemma_configs_stop(configs, index + 1, configs.len() as int);
                    assert(configs.subrange(0, configs.len() as int) =~= configs);
                }
                return Err(ComposeNetworkError::ConfigExtensions(index));
            }
            let IpamConfig { subnet: s, ip_range: r, gateway: g, .. } = c;
            push_item(&mut subnet, s);
            push_item(&mut ip_range, r);
            push_item(&mut gateway, g);
            index = index + 1;
            assert(rest@ =~= configs.subrange(index as int, configs.len() as int));
        }
        assert(configs.subrange(0, index as int) =~= configs);
        Ok(
            Network {
                disable_dns: false,
                dns: Vec::new(),
                driver,
                gateway,
                internal,
                ipam_driver,
                ip_range,
                ipv6: enable_ipv6,
                label: labels,
                options,
                podman_args: None,
                subnet,
            },
        )
    }
}

/// Options of `podman network create` that Quadlet has no option for, passed as arguments.
#[derive(Debug, Clone, PartialEq, Eq)]
pub struct PodmanArgs {
    /// The interface name of the network.
    pub interface_name: Option<String>,
    /// Static routes of the network.
    pub route: Vec<String>,
}

/// The arguments of [`PodmanArgs`]: `--interface-name` where it is set, then `--route` for each
/// route.
pub open spec fn podman_args_text(a: PodmanArgs) -> Seq<char> {
    list_args(opt_arg(Seq::<char>::empty(), "interface-name"@, opt_seq(a.interface_name)), "route"@, a.route@)
}

/// The flags of [`PodmanArgs`] are non-empty and hold no whitespace.
proof fn lemma_podman_args_flags()
    ensures
        valid_flag("interface-name"@),
        valid_flag("route"@),
{
    reveal_strlit("interface-name");
    reveal_strlit("route");
}

impl PodmanArgs {
    /// No arguments.
    pub fn new() -> (a: PodmanArgs)
        ensures
            a.interface_name is None,
            a.route@.len() == 0,
    {
        PodmanArgs { interface_name: None, route: Vec::new() }
    }

    /// These options as the serde data model has them, for the arguments serializer.
    pub fn to_value(&self) -> (v: Value)
        ensures
            args_text(v) == Ok::<Seq<char>, ErrorKind>(podman_args_text(*self)),
    {
        proof {
            lemma_podman_args_flags();
        }
        let mut fields: Vec<Field> = Vec::new();
        let ghost mut o = Seq::<char>::empty();
        push_field(&mut fields, "interface-name", optional_text(&self.interface_name), Ghost(o));
        proof {
            o = opt_arg(o, "interface-name"@, opt_seq(self.interface_name));
        }
        push_field(&mut fields, "route", strings(&self.route), Ghost(o));
        Value::Struct { name: "PodmanArgs".to_owned(), fields }
    }

    /// The arguments, as a shell would take them.
    pub fn to_string(&self) -> (r: String)
        ensures
            r@ == podman_args_text(*self),
    {
        let v = self.to_value();
        match args_to_string(&v) {
            Ok(s) => s,
            Err(_) => String::new(),
        }
    }
}

impl Default for PodmanArgs {
    fn default() -> (a: PodmanArgs)
        ensures
            a.interface_name is None,
            a.route@.len() == 0,
    {
        PodmanArgs::new()
    }
}

/// The options of `podman network create`.
#[derive(Debug, Clone, PartialEq, Eq)]
pub struct Create {
    pub disable_dns: bool,
    pub dns: Vec<String>,
    pub driver: Option<String>,
    pub gateway: Vec<String>,
    pub internal: bool,
    pub ipam_driver: Option<String>,
    pub ip_range: Vec<String>,
    pub ipv6: bool,
    pub label: Vec<String>,
    pub opt: Vec<String>,
    pub subnet: Vec<String>,
    pub podman_args: PodmanArgs,
    /// The name of the network.
    pub name: String,
}

impl Network {
    /// The Quadlet network of `podman network create` options: each option as it is, the driver
    /// options as `Options=`, and the other options as `PodmanArgs=` where there are any.
    pub fn from_create(create: Create) -> (n: Network)
        ensures
            n.disable_dns == create.disable_dns && n.dns == create.dns && n.driver == create.driver,
            n.gateway == create.gateway && n.internal == create.internal,
            n.ipam_driver == create.ipam_driver && n.ip_range == create.ip_range,
            n.ipv6 == create.ipv6 && n.label == create.label && n.options == create.opt,
            n.subnet == create.subnet,
            match n.podman_args {
                Some(a) => a@ == podman_args_text(create.podman_args) && a@.len() > 0,
                None => podman_args_text(create.podman_args).len() == 0,
            },
    {
        let args = create.podman_args.to_string();
        Network {
            disable_dns: create.disable_dns,
            dns: create.dns,
            driver: create.driver,
            gateway: create.gateway,
            internal: create.internal,
            ipam_driver: create.ipam_driver,
            ip_range: create.ip_range,
            ipv6: create.ipv6,
            label: create.label,
            options: create.opt,
            podman_args: if args.as_str().is_empty() {
                None
            } else {
                Some(args)
            },
            subnet: create.subnet,
        }
    }
}

/// Podman's arguments after `--dns server` is added for each DNS server in turn.
pub open spec fn dns_args(args: Option<Seq<char>>, dns: Seq<String>) -> Option<Seq<char>>
    decreases dns.len(),
{
    if dns.len() == 0 {
        args
    } else {
        Some(with_podman_arg(dns_args(args, dns.drop_last()), "dns"@, dns.last()@))
    }
}

/// A network made to fit Podman `version`: its DNS servers, its Podman arguments, and the
/// error, if any. Before 4.7 the DNS servers become `--dns` arguments; before 4.6 Podman
/// arguments are an error, and are taken out.
pub open spec fn network_downgraded(n: Network, version: PodmanVersion) -> (
    Seq<String>,
    Option<Seq<char>>,
    Option<DowngradeErr>,
) {
    let args = opt_seq(n.podman_args);
    let (dns, args) = if older(version, PodmanVersion { major: 4, minor: 7 }) {
        (Seq::<String>::empty(), dns_args(args, n.dns@))
    } else {
        (n.dns@, args)
    };
    if older(version, PodmanVersion { major: 4, minor: 6 }) && args is Some {
        (
            dns,
            None,
            Some(
                DowngradeErr::Option {
                    quadlet_option: "PodmanArgs"@,
                    value: args->Some_0,
                    supported_version: PodmanVersion { major: 4, minor: 6 },
                },
            ),
        )
    } else {
        (dns, args, None)
    }
}

impl Network {
    /// Makes the network fit Podman `version`; see [`network_downgraded`]. The other options
    /// stay as they are.
    pub fn downgrade(&mut self, version: PodmanVersion) -> (r: Result<(), DowngradeError>)
        ensures
            !older(version, PodmanVersion { major: 4, minor: 7 }) ==> r is Ok && *final(self)
                == *old(self),
            ({
                let (dns, args, err) = network_downgraded(*old(self), version);
                &&& final(self).dns@ == dns
                &&& opt_seq(final(self).podman_args) == args
                &&& match r {
                    Ok(()) => err is None,
                    Err(e) => err == Some(e@),
                }
            }),
            final(self).disable_dns == old(self).disable_dns && final(self).driver == old(self).driver,
            final(self).gateway == old(self).gateway && final(self).internal == old(self).internal,
            final(self).ipam_driver == old(self).ipam_driver,
            final(self).ip_range == old(self).ip_range && final(self).ipv6 == old(self).ipv6,
            final(self).label == old(self).label && final(self).options == old(self).options,
            final(self).subnet == old(self).subnet,
    {
        let ghost start = opt_seq(self.podman_args);
        let mut args = self.podman_args.take();
        if version.is_older_than(PodmanVersion::new(4, 7)) {
            let mut dns: Vec<String> = Vec::new();
            std::mem::swap(&mut dns, &mut self.dns);
            let mut i: usize = 0;
            assert(dns@.subrange(0, 0) =~= Seq::<String>::empty());
            while i < dns.len()
                invariant
                    i <= dns@.len(),
                    opt_seq(args) == dns_args(start, dns@.subrange(0, i as int)),
                decreases dns@.len() - i,
            {
                let ghost pre = dns@.subrange(0, i + 1);
                assert(pre.drop_last() =~= dns@.subrange(0, i as int));
                push_podman_arg(&mut args, "dns", dns[i].as_str());
                i = i + 1;
            }
            assert(dns@.subrange(0, dns@.len() as int) =~= dns@);
            assert(self.dns@ =~= Seq::<String>::empty());
        }
        if version.is_older_than(PodmanVersion::new(4, 6)) {
            if let Some(a) = args {
                return Err(
                    DowngradeError::Option {
                        quadlet_option: "PodmanArgs".to_owned(),
                        value: a,
                        supported_version: PodmanVersion::new(4, 6),
                    },
                );
            }
        }
        self.podman_args = args;
        Ok(())
    }
}

/// Downgrading again to the same version changes nothing more: a network made to fit a version
/// without error already fits it.
pub proof fn network_downgrade_settles(n: Network, m: Network, version: PodmanVersion)
    requires
        ({
            let (dns, args, err) = network_downgraded(n, version);
            err is None && m.dns@ == dns && opt_seq(m.podman_args) == args
        }),
    ensures
        ({
            let (dns, args, err) = network_downgraded(m, version);
            err is None && dns == m.dns@ && args == opt_seq(m.podman_args)
        }),
{
}

} // verus!
