//! The `[Pod]` section of a Quadlet `.pod` file, and how it is made to fit an older Podman.

use vstd::prelude::*;

use crate::text::opt_seq;

use crate::downgrade::{older, push_arg_with, with_arg, DowngradeErr, DowngradeError, PodmanVersion};
use crate::escape::{has_whitespace, str_has_whitespace};
use crate::quadlet_container::Dns;
use crate::text::{push_char, push_str};
use crate::volume::Volume;

verus! {

/// Options for the `[Pod]` section of a `.pod` Quadlet file.
#[derive(Debug, Clone, PartialEq, Eq)]
pub struct Pod {
    /// Host-to-IP mappings added to `/etc/hosts`.
    pub add_host: Vec<String>,
    /// Network-scoped DNS resolvers for the containers in this pod.
    pub dns: Dns,
    /// Custom DNS options.
    pub dns_option: Vec<String>,
    /// Custom DNS search domains.
    pub dns_search: Vec<String>,
    /// Custom networks for the pod.
    pub network: Vec<String>,
    /// Network-scoped aliases for the pod.
    pub network_alias: Vec<String>,
    /// Arguments passed directly to the end of `podman pod create`.
    pub podman_args: Option<String>,
    /// The name of the Podman pod (`systemd-%N` where it is not set).
    pub pod_name: Option<String>,
    /// Ports, or ranges of ports, exposed from the pod to the host.
    pub publish_port: Vec<String>,
    /// Volumes mounted in the pod.
    pub volume: Vec<Volume>,
}

/// No option of the pod is set.
pub open spec fn pod_empty(p: Pod) -> bool {
    &&& p.add_host@.len() == 0 && (p.dns matches Dns::Custom(v) && v@.len() == 0)
    &&& p.dns_option@.len() == 0 && p.dns_search@.len() == 0 && p.network@.len() == 0
    &&& p.network_alias@.len() == 0 && p.podman_args is None && p.pod_name is None
    &&& p.publish_port@.len() == 0 && p.volume@.len() == 0
}

impl Pod {
    /// A `[Pod]` section with no option set.
    pub fn new() -> (p: Pod)
        ensures
            pod_empty(p),
    {
        Pod {
            add_host: Vec::new(),
            dns: Dns::Custom(Vec::new()),
            dns_option: Vec::new(),
            dns_search: Vec::new(),
            network: Vec::new(),
            network_alias: Vec::new(),
            podman_args: None,
            pod_name: None,
            publish_port: Vec::new(),
            volume: Vec::new(),
        }
    }
}

impl Default for Pod {
    /// A `[Pod]` section with no option set.
    fn default() -> (p: Pod)
        ensures
            pod_empty(p),
    {
        Pod::new()
    }
}

/// Podman's arguments after `--flag arg` is added, with `arg` in double quotes where it holds
/// whitespace.
pub open spec fn pod_arg(args: Option<Seq<char>>, flag: Seq<char>, arg: Seq<char>) -> Seq<char> {
    with_arg(
        args,
        flag,
        ' ',
        if has_whitespace(arg) {
            seq!['"'] + arg + seq!['"']
        } else {
            arg
        },
    )
}

/// Podman's arguments after `--flag item` is added for each item in turn.
pub open spec fn pod_args_of(args: Option<Seq<char>>, flag: Seq<char>, items: Seq<String>) -> Option<
    Seq<char>,
>
    decreases items.len(),
{
    if items.len() == 0 {
        args
    } else {
        Some(pod_arg(pod_args_of(args, flag, items.drop_last()), flag, items.last()@))
    }
}

/// Podman's arguments after the DNS setting is added: `--dns none` where DNS is disabled, else
/// `--dns server` for each server.
pub open spec fn dns_setting_args(args: Option<Seq<char>>, dns: Dns) -> Option<Seq<char>> {
    match dns {
        Dns::Disabled => Some(pod_arg(args, "dns"@, "none"@)),
        Dns::Custom(ips) => pod_args_of(args, "dns"@, ips@),
    }
}

/// Podman's arguments after the options added in Podman 5.3 are added as arguments: host
/// mappings, DNS setting, DNS options and DNS search domains, in that order.
pub open spec fn v5_3_args(p: Pod, args: Option<Seq<char>>) -> Option<Seq<char>> {
    let a = pod_args_of(args, "add-host"@, p.add_host@);
    let a = dns_setting_args(a, p.dns);
    let a = pod_args_of(a, "dns-option"@, p.dns_option@);
    pod_args_of(a, "dns-search"@, p.dns_search@)
}

/// The Podman arguments of a pod made to fit Podman `version`: before 5.3 the options added in
/// 5.3 become arguments; before 5.2 the network aliases become `--network-alias` arguments.
pub open spec fn pod_downgraded_args(p: Pod, version: PodmanVersion) -> Option<Seq<char>> {
    let a = opt_seq(p.podman_args);
    let a = if older(version, PodmanVersion { major: 5, minor: 3 }) {
        v5_3_args(p, a)
    } else {
        a
    };
    if older(version, PodmanVersion { major: 5, minor: 2 }) {
        pod_args_of(a, "network-alias"@, p.network_alias@)
    } else {
        a
    }
}

/// Add `--flag arg` to Podman's arguments, with `arg` in double quotes where it holds whitespace.
fn push_pod_arg(args: &mut Option<String>, flag: &str, arg: &str)
    ensures
        *final(args) matches Some(a) && a@ == pod_arg(opt_seq(*old(args)), flag@, arg@),
{
    if str_has_whitespace(arg) {
        let mut q = String::new();
        push_char(&mut q, '"');
        push_str(&mut q, arg);
        push_char(&mut q, '"');
        assert(q@ =~= seq!['"'] + arg@ + seq!['"']);
        push_arg_with(args, flag, ' ', q.as_str());
    } else {
        push_arg_with(args, flag, ' ', arg);
    }
}

/// Add `--flag item` to Podman's arguments for each item in turn.
fn push_pod_args(args: &mut Option<String>, flag: &str, items: &Vec<String>)
    ensures
        opt_seq(*final(args)) == pod_args_of(opt_seq(*old(args)), flag@, items@),
{
    let ghost start = opt_seq(*args);
    let mut i: usize = 0;
    assert(items@.subrange(0, 0) =~= Seq::<String>::empty());
    while i < items.len()
        invariant
            i <= items@.len(),
            opt_seq(*args) == pod_args_of(start, flag@, items@.subrange(0, i as int)),
        decreases items@.len() - i,
    {
        let ghost pre = items@.subrange(0, i + 1);
        assert(pre.drop_last() =~= items@.subrange(0, i as int));
        push_pod_arg(args, flag, items[i].as_str());
        i = i + 1;
    }
    assert(items@.subrange(0, items@.len() as int) =~= items@);
}

impl Pod {
    /// Makes the pod fit Podman `version`. Before 5.3 the host mappings, DNS setting, DNS
    /// options and DNS search domains become arguments and are cleared; before 5.2 the network
    /// aliases become arguments and are cleared (see [`pod_downgraded_args`]). Before 5.0 `.pod`
    /// files are not supported, and the error comes after those changes. The other options stay
    /// as they are.
    pub fn downgrade(&mut self, version: PodmanVersion) -> (r: Result<(), DowngradeError>)
        ensures
            !older(version, PodmanVersion { major: 5, minor: 3 }) ==> r is Ok && *final(self)
                == *old(self),
            opt_seq(final(self).podman_args) == pod_downgraded_args(*old(self), version),
            older(version, PodmanVersion { major: 5, minor: 3 }) ==> {
                &&& final(self).add_host@.len() == 0
                &&& final(self).dns matches Dns::Custom(v) && v@.len() == 0
                &&& final(self).dns_option@.len() == 0 && final(self).dns_search@.len() == 0
            },
            !older(version, PodmanVersion { major: 5, minor: 3 }) ==> {
                &&& final(self).add_host == old(self).add_host && final(self).dns == old(self).dns
                &&& final(self).dns_option == old(self).dns_option
                &&& final(self).dns_search == old(self).dns_search
            },
            older(version, PodmanVersion { major: 5, minor: 2 }) ==> final(self).network_alias@.len()
                == 0,
            !older(version, PodmanVersion { major: 5, minor: 2 }) ==> final(self).network_alias
                == old(self).network_alias,
            final(self).network == old(self).network && final(self).pod_name == old(self).pod_name,
            final(self).publish_port == old(self).publish_port,
            final(self).volume == old(self).volume,
            match r {
                Ok(()) => !older(version, PodmanVersion { major: 5, minor: 0 }),
                Err(e) => older(version, PodmanVersion { major: 5, minor: 0 }) && e@ == (
                DowngradeErr::Kind {
                    kind: "pod"@,
                    supported_version: PodmanVersion { major: 5, minor: 0 },
                }),
            },
    {
        let ghost p0 = *self;
        let ghost a0 = opt_seq(self.podman_args);
        if version.is_older_than(PodmanVersion::new(5, 3)) {
            let mut add_host: Vec<String> = Vec::new();
            std::mem::swap(&mut add_host, &mut self.add_host);
            push_pod_args(&mut self.podman_args, "add-host", &add_host);
            let mut dns = Dns::Custom(Vec::new());
            std::mem::swap(&mut dns, &mut self.dns);
            match &dns {
                Dns::Disabled => {
                    push_pod_arg(&mut self.podman_args, "dns", "none");
                },
                Dns::Custom(ips) => {
                    push_pod_args(&mut self.podman_args, "dns", ips);
                },
            }
            let mut dns_option: Vec<String> = Vec::new();
            std::mem::swap(&mut dns_option, &mut self.dns_option);
            push_pod_args(&mut self.podman_args, "dns-option", &dns_option);
            let mut dns_search: Vec<String> = Vec::new();
            std::mem::swap(&mut dns_search, &mut self.dns_search);
            push_pod_args(&mut self.podman_args, "dns-search", &dns_search);
            assert(opt_seq(self.podman_args) == v5_3_args(p0, a0));
        }
        if version.is_older_than(PodmanVersion::new(5, 2)) {
            let mut aliases: Vec<String> = Vec::new();
            std::mem::swap(&mut aliases, &mut self.network_alias);
            push_pod_args(&mut self.podman_args, "network-alias", &aliases);
        }
        if version.is_older_than(PodmanVersion::new(5, 0)) {
            return Err(
                DowngradeError::Kind {
                    kind: "pod".to_owned(),
                    supported_version: PodmanVersion::new(5, 0),
                },
            );
        }
        Ok(())
    }
}

/// A pod without the options that Podman `version` lacks fits it: downgrading to that version
/// adds no argument. So a pod made to fit a version is left as it is when it is made to fit
/// that version again.
pub proof fn pod_downgrade_settles(m: Pod, version: PodmanVersion)
    requires
        older(version, PodmanVersion { major: 5, minor: 3 }) ==> {
            &&& m.add_host@.len() == 0
            &&& m.dns matches Dns::Custom(v) && v@.len() == 0
            &&& m.dns_option@.len() == 0 && m.dns_search@.len() == 0
        },
        older(version, PodmanVersion { major: 5, minor: 2 }) ==> m.network_alias@.len() == 0,
    ensures
        pod_downgraded_args(m, version) == opt_seq(m.podman_args),
{
}

} // verus!
