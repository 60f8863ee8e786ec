//! A compose service as a container of a Kubernetes pod, and the pod volumes it mounts.

use vstd::prelude::*;

use crate::text::opt_seq;

use crate::num::{decimal, decimal_string, parse_i64, parse_i64_spec};
use crate::pod::{ContainerPort, ContainerPortView, EnvVar, Environment, Healthcheck, PodSecurityOptErr, PodSecurityOptError, Ports, PortsErr, PortsError, Probe, ProbeErr, ProbeError, ProbeView, SELinuxOptions, SELinuxView, env_vars, env_view, environment_into_env_vars, fold_selinux, healthcheck_is_disable, healthcheck_try_into_probe, is_disabled, no_selinux, ports_spec, ports_try_into_container_ports, ports_view, probe_of, security_opts_try_into_se_linux_options};
use crate::text::{push_char, push_str, push_string, split, split_once, str_eq, str_split, str_split_once, str_strip_prefix, strip_prefix};
use crate::k8s::{AdvancedVolume, AdvancedVolumeErr, AdvancedVolumeError, PodVolume, PodVolumeView, ShortVolumeError, VolumeMount, VolumeMountView, advanced_volume, push_annotation, advanced_volume_try_into_volume_mount, dashed, parse_short_volume, short_volume, tmpfs_volume, volume_mount, volume_name};

verus! {

/// Which options a compose service sets that a container of a Kubernetes pod cannot take: each
/// field is `true` where the service sets the option of that name (for `scale`, a scale other
/// than 0).
#[derive(Debug, Clone, Copy, PartialEq, Eq, Structural)]
pub struct ServiceOptions {
    pub hostname: bool,
    pub deploy: bool,
    pub build: bool,
    pub depends_on: bool,
    pub env_file: bool,
    pub profiles: bool,
    pub links: bool,
    pub net: bool,
    pub stop_signal: bool,
    pub expose: bool,
    pub volumes_from: bool,
    pub extends: bool,
    pub scale: bool,
    pub init: bool,
    pub shm_size: bool,
    pub sysctls: bool,
    pub pid: bool,
    pub network_mode: bool,
    pub restart: bool,
    pub labels: bool,
    pub networks: bool,
    pub stop_grace_period: bool,
    pub dns: bool,
    pub ipc: bool,
    pub logging: bool,
    pub extra_hosts: bool,
    pub devices: bool,
    pub extensions: bool,
}

/// Error returned when a compose service cannot become a container of a Kubernetes pod.
#[derive(Debug, Clone, PartialEq, Eq)]
pub enum ServiceError {
    /// An option that pods do not support, by name.
    Unsupported(String),
    /// An option that pods take for all containers rather than per container, by name.
    PodOption(String),
    /// Devices, which pods do not take directly.
    Devices,
    /// Docker extensions.
    Extensions,
}

/// [`ServiceError`] with its text as a character sequence.
pub ghost enum ServiceErr {
    Unsupported(Seq<char>),
    PodOption(Seq<char>),
    Devices,
    Extensions,
}

impl View for ServiceError {
    type V = ServiceErr;

    open spec fn view(&self) -> ServiceErr {
        match self {
            ServiceError::Unsupported(n) => ServiceErr::Unsupported(n@),
            ServiceError::PodOption(n) => ServiceErr::PodOption(n@),
            ServiceError::Devices => ServiceErr::Devices,
            ServiceError::Extensions => ServiceErr::Extensions,
        }
    }
}

/// The first option set that a pod container cannot take, checked in this order: those pods do
/// not support, those pods take for all containers, devices, extensions.
pub open spec fn service_check(o: ServiceOptions) -> Result<(), ServiceErr> {
    if o.hostname {
        Err(ServiceErr::Unsupported("hostname"@))
    } else if o.deploy {
        Err(ServiceErr::Unsupported("deploy"@))
    } else if o.build {
        Err(ServiceErr::Unsupported("build"@))
    } else if o.depends_on {
        Err(ServiceErr::Unsupported("depends_on"@))
    } else if o.env_file {
        Err(ServiceErr::Unsupported("env_file"@))
    } else if o.profiles {
        Err(ServiceErr::Unsupported("profiles"@))
    } else if o.links {
        Err(ServiceErr::Unsupported("links"@))
    } else if o.net {
        Err(ServiceErr::Unsupported("net"@))
    } else if o.stop_signal {
        Err(ServiceErr::Unsupported("stop_signal"@))
    } else if o.expose {
        Err(ServiceErr::Unsupported("expose"@))
    } else if o.volumes_from {
        Err(ServiceErr::Unsupported("volumes_from"@))
    } else if o.extends {
        Err(ServiceErr::Unsupported("extends"@))
    } else if o.scale {
        Err(ServiceErr::Unsupported("scale"@))
    } else if o.init {
        Err(ServiceErr::Unsupported("init"@))
    } else if o.shm_size {
        Err(ServiceErr::Unsupported("shm_size"@))
    } else if o.sysctls {
        Err(ServiceErr::Unsupported("sysctls"@))
    } else if o.pid {
        Err(ServiceErr::PodOption("pid"@))
    } else if o.network_mode {
        Err(ServiceErr::PodOption("network_mode"@))
    } else if o.restart {
        Err(ServiceErr::PodOption("restart"@))
    } else if o.labels {
        Err(ServiceErr::PodOption("labels"@))
    } else if o.networks {
        Err(ServiceErr::PodOption("networks"@))
    } else if o.stop_grace_period {
        Err(ServiceErr::PodOption("stop_grace_period"@))
    } else if o.dns {
        Err(ServiceErr::PodOption("dns"@))
    } else if o.ipc {
        Err(ServiceErr::PodOption("ipc"@))
    } else if o.logging {
        Err(ServiceErr::PodOption("logging"@))
    } else if o.extra_hosts {
        Err(ServiceErr::PodOption("extra_hosts"@))
    } else if o.devices {
        Err(ServiceErr::Devices)
    } else if o.extensions {
        Err(ServiceErr::Extensions)
    } else {
        Ok(())
    }
}

/// Check that a compose service sets no option that a container of a pod cannot take.
pub fn service_check_unsupported(options: &ServiceOptions) -> (r: Result<(), ServiceError>)
    ensures
        match r {
            Ok(()) => service_check(*options) == Ok::<(), ServiceErr>(()),
            Err(e) => service_check(*options) == Err::<(), ServiceErr>(e@),
        },
{
    if options.hostname {
        return Err(ServiceError::Unsupported("hostname".to_owned()));
    }
    if options.deploy {
        return Err(ServiceError::Unsupported("deploy".to_owned()));
    }
    if options.build {
        return Err(ServiceError::Unsupported("build".to_owned()));
    }
    if options.depends_on {
        return Err(ServiceError::Unsupported("depends_on".to_owned()));
    }
    if options.env_file {
        return Err(ServiceError::Unsupported("env_file".to_owned()));
    }
    if options.profiles {
        return Err(ServiceError::Unsupported("profiles".to_owned()));
    }
    if options.links {
        return Err(ServiceError::Unsupported("links".to_owned()));
    }
    if options.net {
        return Err(ServiceError::Unsupported("net".to_owned()));
    }
    if options.stop_signal {
        return Err(ServiceError::Unsupported("stop_signal".to_owned()));
    }
    if options.expose {
        return Err(ServiceError::Unsupported("expose".to_owned()));
    }
    if options.volumes_from {
        return Err(ServiceError::Unsupported("volumes_from".to_owned()));
    }
    if options.extends {
        return Err(ServiceError::Unsupported("extends".to_owned()));
    }
    if options.scale {
        return Err(ServiceError::Unsupported("scale".to_owned()));
    }
    if options.init {
        return Err(ServiceError::Unsupported("init".to_owned()));
    }
    if options.shm_size {
        return Err(ServiceError::Unsupported("shm_size".to_owned()));
    }
    if options.sysctls {
        return Err(ServiceError::Unsupported("sysctls".to_owned()));
    }
    if options.pid {
        return Err(ServiceError::PodOption("pid".to_owned()));
    }
    if options.network_mode {
        return Err(ServiceError::PodOption("network_mode".to_owned()));
    }
    if options.restart {
        return Err(ServiceError::PodOption("restart".to_owned()));
    }
    if options.labels {
        return Err(ServiceError::PodOption("labels".to_owned()));
    }
    if options.networks {
        return Err(ServiceError::PodOption("networks".to_owned()));
    }
    if options.stop_grace_period {
        return Err(ServiceError::PodOption("stop_grace_period".to_owned()));
    }
    if options.dns {
        return Err(ServiceError::PodOption("dns".to_owned()));
    }
    if options.ipc {
        return Err(ServiceError::PodOption("ipc".to_owned()));
    }
    if options.logging {
        return Err(ServiceError::PodOption("logging".to_owned()));
    }
    if options.extra_hosts {
        return Err(ServiceError::PodOption("extra_hosts".to_owned()));
    }
    if options.devices {
        return Err(ServiceError::Devices);
    }
    if options.extensions {
        return Err(ServiceError::Extensions);
    }
    Ok(())
}

/// The mount and volume in memory of a tmpfs at `tmpfs`, named after the container and the path.
pub open spec fn tmpfs_mount(tmpfs: Seq<char>, container: Seq<char>) -> (VolumeMountView, PodVolumeView) {
    let name = container + dashed(tmpfs);
    (
        VolumeMountView { mount_path: tmpfs, name, read_only: false },
        PodVolumeView::Memory(name, None),
    )
}

/// The mount and volume in memory of a tmpfs of the container `container_name`.
pub fn parse_tmpfs_volume_mount(tmpfs: &str, container_name: &str) -> (r: (VolumeMount, PodVolume))
    ensures
        (r.0@, r.1@) == tmpfs_mount(tmpfs@, container_name@),
{
    let name = volume_name(container_name, tmpfs);
    (volume_mount(tmpfs.to_owned(), name.clone(), false), tmpfs_volume(name, None))
}

/// The volumes of a compose service: short or long syntax.
#[derive(Debug, Clone, PartialEq, Eq)]
pub enum ComposeVolumes {
    Simple(Vec<String>),
    Advanced(Vec<AdvancedVolume>),
}

/// Error returned when a volume of a compose service cannot be mounted in a pod.
#[derive(Debug, Clone, PartialEq, Eq)]
pub enum MountError {
    Short(ShortVolumeError),
    Advanced(AdvancedVolumeError),
}

/// [`MountError`] with its texts as character sequences.
pub ghost enum MountErr {
    Short(ShortVolumeError),
    Advanced(AdvancedVolumeErr),
}

impl View for MountError {
    type V = MountErr;

    open spec fn view(&self) -> MountErr {
        match self {
            MountError::Short(e) => MountErr::Short(*e),
            MountError::Advanced(e) => MountErr::Advanced(e@),
        }
    }
}

/// The mounts of volumes in short syntax, or the first error.
pub open spec fn short_mounts(vs: Seq<Seq<char>>, container: Seq<char>) -> Result<
    Seq<(VolumeMountView, PodVolumeView)>,
    MountErr,
>
    decreases vs.len(),
{
    if vs.len() == 0 {
        Ok(Seq::empty())
    } else {
        match short_mounts(vs.drop_last(), container) {
            Err(e) => Err(e),
            Ok(ms) => match short_volume(vs.last(), container) {
                Ok(m) => Ok(ms.push(m)),
                Err(e) => Err(MountErr::Short(e)),
            },
        }
    }
}

/// The mounts of volumes in long syntax, or the first error.
pub open spec fn advanced_mounts(vs: Seq<AdvancedVolume>, container: Seq<char>) -> Result<
    Seq<(VolumeMountView, PodVolumeView)>,
    MountErr,
>
    decreases vs.len(),
{
    if vs.len() == 0 {
        Ok(Seq::empty())
    } else {
        match advanced_mounts(vs.drop_last(), container) {
            Err(e) => Err(e),
            Ok(ms) => match advanced_volume(vs.last(), container) {
                Ok(m) => Ok(ms.push(m)),
                Err(e) => Err(MountErr::Advanced(e)),
            },
        }
    }
}

/// The mounts of the volumes of a compose service.
pub open spec fn compose_mounts(v: ComposeVolumes, container: Seq<char>) -> Result<
    Seq<(VolumeMountView, PodVolumeView)>,
    MountErr,
> {
    match v {
        ComposeVolumes::Simple(vs) => short_mounts(vs.deep_view(), container),
        ComposeVolumes::Advanced(vs) => advanced_mounts(vs@, container),
    }
}

/// The views of mounts and volumes.
pub open spec fn mounts_view(v: Seq<(VolumeMount, PodVolume)>) -> Seq<(VolumeMountView, PodVolumeView)> {
    v.map_values(|p: (VolumeMount, PodVolume)| (p.0@, p.1@))
}

/// An error in the first `n` short volumes is the error of all of them.
proof fn lemma_short_mounts_err(vs: Seq<Seq<char>>, c: Seq<char>, n: int, e: MountErr)
    requires
        0 <= n <= vs.len(),
        short_mounts(vs.subrange(0, n), c) == Err::<Seq<(VolumeMountView, PodVolumeView)>, MountErr>(e),
    ensures
        short_mounts(vs, c) == Err::<Seq<(VolumeMountView, PodVolumeView)>, MountErr>(e),
    decreases vs.len() - n,
{
    if n < vs.len() {
        assert(vs.subrange(0, n + 1).drop_last() =~= vs.subrange(0, n));
        lemma_short_mounts_err(vs, c, n + 1, e);
    } else {
        assert(vs.subrange(0, n) =~= vs);
    }
}

/// An error in the first `n` long volumes is the error of all of them.
proof fn lemma_advanced_mounts_err(vs: Seq<AdvancedVolume>, c: Seq<char>, n: int, e: MountErr)
    requires
        0 <= n <= vs.len(),
        advanced_mounts(vs.subrange(0, n), c) == Err::<Seq<(VolumeMountView, PodVolumeView)>, MountErr>(e),
    ensures
        advanced_mounts(vs, c) == Err::<Seq<(VolumeMountView, PodVolumeView)>, MountErr>(e),
    decreases vs.len() - n,
{
    if n < vs.len() {
        assert(vs.subrange(0, n + 1).drop_last() =~= vs.subrange(0, n));
        lemma_advanced_mounts_err(vs, c, n + 1, e);
    } else {
        assert(vs.subrange(0, n) =~= vs);
    }
}

/// The mounts and volumes of the volumes of a compose service in a pod.
pub fn compose_volumes_try_into_volume_mounts(volumes: ComposeVolumes, container_name: &str) -> (r: Result<
    Vec<(VolumeMount, PodVolume)>,
    MountError,
>)
    ensures
        match r {
            Ok(v) => compose_mounts(volumes, container_name@) == Ok::<
                Seq<(VolumeMountView, PodVolumeView)>,
                MountErr,
            >(mounts_view(v@)),
            Err(e) => compose_mounts(volumes, container_name@) == Err::<
                Seq<(VolumeMountView, PodVolumeView)>,
                MountErr,
            >(e@),
        },
{
    let ghost spec = compose_mounts(volumes, container_name@);
    let mut out: Vec<(VolumeMount, PodVolume)> = Vec::new();
    assert(mounts_view(out@) =~= Seq::<(VolumeMountView, PodVolumeView)>::empty());
    match volumes {
        ComposeVolumes::Simple(vs) => {
            let ghost all = vs.deep_view();
            assert(all.subrange(0, 0) =~= Seq::<Seq<char>>::empty());
            let mut i: usize = 0;
            while i < vs.len()
                invariant
                    i <= vs@.len(),
                    all == vs.deep_view(),
                    spec == short_mounts(all, container_name@),
                    spec == compose_mounts(volumes, container_name@),
                    short_mounts(all.subrange(0, i as int), container_name@) == Ok::<
                        Seq<(VolumeMountView, PodVolumeView)>,
                        MountErr,
                    >(mounts_view(out@)),
                decreases vs.len() - i,
            {
                assert(all.subrange(0, i + 1).drop_last() =~= all.subrange(0, i as int));
                assert(all.subrange(0, i + 1).last() == vs@[i as int]@);
                match parse_short_volume(vs[i].as_str(), container_name) {
                    Ok(m) => {
                        let ghost before = out@;
                        let ghost mv = (m.0@, m.1@);
                        out.push(m);
                        assert(mounts_view(out@) =~= mounts_view(before).push(mv));
                    },
                    Err(e) => {
                        proof {
                            lemma_short_mounts_err(all, container_name@, i + 1, MountErr::Short(e));
                        }
                        return Err(MountError::Short(e));
                    },
                }
                i = i + 1;
            }
            assert(all.subrange(0, i as int) =~= all);
        },
        ComposeVolumes::Advanced(vs) => {
            let ghost all = vs@;
            let mut rest = vs;
            let ghost mut i: int = 0;
            assert(all.subrange(0, 0) =~= Seq::<AdvancedVolume>::empty());
            assert(rest@ =~= all.subrange(0, all.len() as int));
            while rest.len() > 0
                invariant
                    0 <= i <= all.len(),
                    spec == advanced_mounts(all, container_name@),
                    spec == compose_mounts(volumes, container_name@),
                    rest@ == all.subrange(i, all.len() as int),
                    advanced_mounts(all.subrange(0, i), container_name@) == Ok::<
                        Seq<(VolumeMountView, PodVolumeView)>,
                        MountErr,
                    >(mounts_view(out@)),
                decreases rest.len(),
            {
                assert(all.subrange(0, i + 1).drop_last() =~= all.subrange(0, i));
                let v = rest.remove(0);
                assert(all.subrange(0, i + 1).last() == v);
                match advanced_volume_try_into_volume_mount(v, container_name) {
                    Ok(m) => {
                        let ghost before = out@;
                        let ghost mv = (m.0@, m.1@);
                        out.push(m);
                        assert(mounts_view(out@) =~= mounts_view(before).push(mv));
                    },
                    Err(e) => {
                        proof {
                            lemma_advanced_mounts_err(all, container_name@, i + 1, MountErr::Advanced(e@));
                        }
                        return Err(MountError::Advanced(e));
                    },
                }
                proof {
                    i = i + 1;
                }
                assert(rest@ =~= all.subrange(i, all.len() as int));
            }
            assert(all.subrange(0, i) =~= all);
        },
    }
    Ok(out)
}

/// A command of a compose service: one word, or a list of arguments.
#[derive(Debug, Clone, PartialEq, Eq)]
pub enum ServiceCommand {
    Simple(String),
    Args(Vec<String>),
}

/// The arguments of a command.
pub open spec fn command_args(c: Option<ServiceCommand>) -> Option<Seq<Seq<char>>> {
    match c {
        Some(ServiceCommand::Simple(s)) => Some(seq![s@]),
        Some(ServiceCommand::Args(v)) => Some(v.deep_view()),
        None => None,
    }
}

/// The arguments of a command.
fn command_vec(c: Option<ServiceCommand>) -> (r: Option<Vec<String>>)
    ensures
        match r {
            Some(v) => command_args(c) == Some(v.deep_view()),
            None => command_args(c) is None,
        },
{
    match c {
        Some(ServiceCommand::Simple(s)) => {
            let ghost sv = s@;
            let mut v: Vec<String> = Vec::new();
            push_string(&mut v, s);
            assert(v.deep_view() =~= seq![sv]);
            Some(v)
        },
        Some(ServiceCommand::Args(v)) => Some(v),
        None => None,
    }
}

/// A ulimit of a compose service: one limit, or soft and hard limits.
#[derive(Debug, Clone, Copy, PartialEq, Eq, Structural)]
pub enum UlimitValue {
    Single(u64),
    SoftHard { soft: u64, hard: u64 },
}

/// The limit of a pod container for a ulimit: the single limit or the hard one.
pub open spec fn ulimit_limit(u: UlimitValue) -> u64 {
    match u {
        UlimitValue::Single(l) => l,
        UlimitValue::SoftHard { hard, .. } => hard,
    }
}

/// The resource limits of a pod container for the ulimits of a compose service, by resource
/// name, in the compose order; none without ulimits.
pub open spec fn ulimit_limits(ulimits: Seq<(String, UlimitValue)>) -> Option<Seq<(Seq<char>, Seq<char>)>> {
    if ulimits.len() == 0 {
        None
    } else {
        Some(
            ulimits.map_values(
                |u: (String, UlimitValue)| (u.0@, decimal(ulimit_limit(u.1) as nat)),
            ),
        )
    }
}

/// The resource limits of a pod container for the ulimits of a compose service.
pub fn ulimits_into_resources(ulimits: Vec<(String, UlimitValue)>) -> (r: Option<Vec<(String, String)>>)
    ensures
        match r {
            Some(v) => ulimit_limits(ulimits@) == Some(pairs_view(v@)),
            None => ulimit_limits(ulimits@) is None,
        },
{
    if ulimits.len() == 0 {
        return None;
    }
    let ghost all = ulimits@;
    let mut rest = ulimits;
    let mut out: Vec<(String, String)> = Vec::new();
    let ghost mut i: int = 0;
    assert(rest@ =~= all.subrange(0, all.len() as int));
    while rest.len() > 0
        invariant
            0 <= i <= all.len(),
            rest@ == all.subrange(i, all.len() as int),
            pairs_view(out@) == all.subrange(0, i).map_values(
                |u: (String, UlimitValue)| (u.0@, decimal(ulimit_limit(u.1) as nat)),
            ),
        decreases rest.len(),
    {
        let (name, u) = rest.remove(0);
        assert((name, u) == all[i]);
        let limit = match u {
            UlimitValue::Single(l) => l,
            UlimitValue::SoftHard { hard, .. } => hard,
        };
        let ghost before = out@;
        let text = decimal_string(limit as u128);
        let ghost pair = (name@, text@);
        out.push((name, text));
        assert(pairs_view(out@) =~= pairs_view(before).push(pair));
        assert(all.subrange(0, i + 1).map_values(
            |u: (String, UlimitValue)| (u.0@, decimal(ulimit_limit(u.1) as nat)),
        ) =~= all.subrange(0, i).map_values(
            |u: (String, UlimitValue)| (u.0@, decimal(ulimit_limit(u.1) as nat)),
        ).push(pair));
        proof {
            i = i + 1;
        }
        assert(rest@ =~= all.subrange(i, all.len() as int));
    }
    assert(all.subrange(0, i) =~= all);
    Some(out)
}

/// The views of pairs of strings.
pub open spec fn pairs_view(v: Seq<(String, String)>) -> Seq<(Seq<char>, Seq<char>)> {
    v.map_values(|p: (String, String)| (p.0@, p.1@))
}

/// A compose service, as far as a container of a Kubernetes pod takes it.
#[derive(Debug, Clone, PartialEq, Eq)]
pub struct PodService {
    pub options: ServiceOptions,
    pub container_name: Option<String>,
    pub healthcheck: Option<Healthcheck>,
    pub cap_add: Vec<String>,
    pub security_opt: Vec<String>,
    pub privileged: bool,
    pub user: Option<String>,
    pub ports: Ports,
    pub environment: Environment,
    /// The tmpfs mounts, each a path in the container.
    pub tmpfs: Vec<String>,
    pub volumes: ComposeVolumes,
    pub command: Option<ServiceCommand>,
    pub entrypoint: Option<ServiceCommand>,
    pub image: Option<String>,
    pub working_dir: Option<String>,
    pub stdin_open: bool,
    pub tty: bool,
    pub ulimits: Vec<(String, UlimitValue)>,
}

/// The security context of a pod container made from a compose service.
#[derive(Debug, Clone, PartialEq, Eq)]
pub struct PodSecurityContext {
    pub privileged: Option<bool>,
    /// The capabilities added.
    pub capabilities_add: Option<Vec<String>>,
    pub se_linux_options: Option<SELinuxOptions>,
    pub run_as_user: Option<i64>,
}

/// [`PodSecurityContext`] with its texts as character sequences.
pub ghost struct PodSecurityContextView {
    pub privileged: Option<bool>,
    pub capabilities_add: Option<Seq<Seq<char>>>,
    pub se_linux_options: Option<SELinuxView>,
    pub run_as_user: Option<i64>,
}

impl View for PodSecurityContext {
    type V = PodSecurityContextView;

    open spec fn view(&self) -> PodSecurityContextView {
        PodSecurityContextView {
            privileged: self.privileged,
            capabilities_add: match self.capabilities_add {
                Some(v) => Some(v.deep_view()),
                None => None,
            },
            se_linux_options: match self.se_linux_options {
                Some(o) => Some(o@),
                None => None,
            },
            run_as_user: self.run_as_user,
        }
    }
}

/// A container of a Kubernetes pod.
#[derive(Debug, Clone, PartialEq, Eq)]
pub struct PodContainer {
    pub name: String,
    pub image: Option<String>,
    pub command: Option<Vec<String>>,
    pub args: Option<Vec<String>>,
    pub liveness_probe: Option<Probe>,
    pub security_context: Option<PodSecurityContext>,
    pub ports: Option<Vec<ContainerPort>>,
    pub env: Option<Vec<EnvVar>>,
    /// The resource limits, by resource name.
    pub resource_limits: Option<Vec<(String, String)>>,
    pub working_dir: Option<String>,
    pub stdin: Option<bool>,
    pub tty: Option<bool>,
    pub volume_mounts: Option<Vec<VolumeMount>>,
}

/// [`PodContainer`] with its texts as character sequences.
pub ghost struct PodContainerView {
    pub name: Seq<char>,
    pub image: Option<Seq<char>>,
    pub command: Option<Seq<Seq<char>>>,
    pub args: Option<Seq<Seq<char>>>,
    pub liveness_probe: Option<ProbeView>,
    pub security_context: Option<PodSecurityContextView>,
    pub ports: Option<Seq<ContainerPortView>>,
    pub env: Option<Seq<(Seq<char>, Option<Seq<char>>)>>,
    pub resource_limits: Option<Seq<(Seq<char>, Seq<char>)>>,
    pub working_dir: Option<Seq<char>>,
    pub stdin: Option<bool>,
    pub tty: Option<bool>,
    pub volume_mounts: Option<Seq<VolumeMountView>>,
}

impl View for PodContainer {
    type V = PodContainerView;

    open spec fn view(&self) -> PodContainerView {
        PodContainerView {
            name: self.name@,
            image: opt_seq(self.image),
            command: match self.command {
                Some(v) => Some(v.deep_view()),
                None => None,
            },
            args: match self.args {
                Some(v) => Some(v.deep_view()),
                None => None,
            },
            liveness_probe: match self.liveness_probe {
                Some(p) => Some(p@),
                None => None,
            },
            security_context: match self.security_context {
                Some(c) => Some(c@),
                None => None,
            },
            ports: match self.ports {
                Some(v) => Some(ports_view(v@)),
                None => None,
            },
            env: match self.env {
                Some(v) => Some(env_view(v@)),
                None => None,
            },
            resource_limits: match self.resource_limits {
                Some(v) => Some(pairs_view(v@)),
                None => None,
            },
            working_dir: opt_seq(self.working_dir),
            stdin: self.stdin,
            tty: self.tty,
            volume_mounts: match self.volume_mounts {
                Some(v) => Some(v@.map_values(|m: VolumeMount| m@)),
                None => None,
            },
        }
    }
}

/// Error returned when a compose service cannot become a container of a Kubernetes pod.
#[derive(Debug, Clone, PartialEq, Eq)]
pub enum PodServiceError {
    Options(ServiceError),
    Healthcheck(ProbeError),
    SecurityOpt(PodSecurityOptError),
    /// A user that is no numeric UID.
    User(String),
    Ports(PortsError),
    Volumes(MountError),
}

/// [`PodServiceError`] with its texts as character sequences.
pub ghost enum PodServiceErr {
    Options(ServiceErr),
    Healthcheck(ProbeErr),
    SecurityOpt(PodSecurityOptErr),
    User(Seq<char>),
    Ports(PortsErr),
    Volumes(MountErr),
}

impl View for PodServiceError {
    type V = PodServiceErr;

    open spec fn view(&self) -> PodServiceErr {
        match self {
            PodServiceError::Options(e) => PodServiceErr::Options(e@),
            PodServiceError::Healthcheck(e) => PodServiceErr::Healthcheck(e@),
            PodServiceError::SecurityOpt(e) => PodServiceErr::SecurityOpt(e@),
            PodServiceError::User(u) => PodServiceErr::User(u@),
            PodServiceError::Ports(e) => PodServiceErr::Ports(e@),
            PodServiceError::Volumes(e) => PodServiceErr::Volumes(e@),
        }
    }
}

/// A list when it is not empty.
pub open spec fn non_empty<A>(s: Seq<A>) -> Option<Seq<A>> {
    if s.len() > 0 {
        Some(s)
    } else {
        None
    }
}

/// `Some(true)` for `true`.
pub open spec fn set_flag(b: bool) -> Option<bool> {
    if b {
        Some(true)
    } else {
        None
    }
}

/// The liveness probe of a healthcheck that is not disabled.
pub open spec fn liveness(h: Option<Healthcheck>) -> Result<Option<ProbeView>, ProbeErr> {
    match h {
        Some(h) => if is_disabled(h) {
            Ok(None)
        } else {
            match probe_of(h) {
                Ok(p) => Ok(Some(p)),
                Err(e) => Err(e),
            }
        },
        None => Ok(None),
    }
}

/// The UID of a numeric user.
pub open spec fn run_as(user: Option<String>) -> Result<Option<i64>, Seq<char>> {
    match user {
        None => Ok(None),
        Some(u) => match parse_i64_spec(u@) {
            Some(n) => Ok(Some(n as i64)),
            None => Err(u@),
        },
    }
}

/// The security context of a pod container: none when nothing is set.
pub open spec fn pod_security_context(
    privileged: bool,
    cap_add: Seq<Seq<char>>,
    se: SELinuxView,
    run_as_user: Option<i64>,
) -> Option<PodSecurityContextView> {
    let se_linux_options = if se == no_selinux() {
        None
    } else {
        Some(se)
    };
    if !privileged && cap_add.len() == 0 && se_linux_options is None && run_as_user is None {
        None
    } else {
        Some(
            PodSecurityContextView {
                privileged: set_flag(privileged),
                capabilities_add: non_empty(cap_add),
                se_linux_options,
                run_as_user,
            },
        )
    }
}

/// What a compose service named `name` becomes in a Kubernetes pod: a container, named by the
/// service's container name or else `name`, and the volumes it mounts (tmpfs mounts first);
/// lists that are empty are left out of the container. Errors come in this order: the options
/// that pods do not take, the healthcheck, the security options, the user, the ports, the
/// volumes.
pub open spec fn pod_container(name: Seq<char>, s: PodService) -> Result<
    (PodContainerView, Seq<PodVolumeView>),
    PodServiceErr,
> {
    let cname = match s.container_name {
        Some(n) => n@,
        None => name,
    };
    match service_check(s.options) {
        Err(e) => Err(PodServiceErr::Options(e)),
        Ok(()) => match liveness(s.healthcheck) {
            Err(e) => Err(PodServiceErr::Healthcheck(e)),
            Ok(liveness_probe) => match fold_selinux(s.security_opt.deep_view()) {
                Err(e) => Err(PodServiceErr::SecurityOpt(e)),
                Ok(se) => match run_as(s.user) {
                    Err(u) => Err(PodServiceErr::User(u)),
                    Ok(run_as_user) => match ports_spec(s.ports) {
                        Err(e) => Err(PodServiceErr::Ports(e)),
                        Ok(ports) => match compose_mounts(s.volumes, cname) {
                            Err(e) => Err(PodServiceErr::Volumes(e)),
                            Ok(volume_mounts) => {
                                let mounts = s.tmpfs.deep_view().map_values(
                                    |t: Seq<char>| tmpfs_mount(t, cname),
                                ) + volume_mounts;
                                Ok(
                                    (
                                        PodContainerView {
                                            name: cname,
                                            image: opt_seq(s.image),
                                            command: command_args(s.entrypoint),
                                            args: command_args(s.command),
                                            liveness_probe,
                                            security_context: pod_security_context(
                                                s.privileged,
                                                s.cap_add.deep_view(),
                                                se,
                                                run_as_user,
                                            ),
                                            ports: non_empty(ports),
                                            env: non_empty(env_vars(s.environment)),
                                            resource_limits: ulimit_limits(s.ulimits@),
                                            working_dir: opt_seq(s.working_dir),
                                            stdin: set_flag(s.stdin_open),
                                            tty: set_flag(s.tty),
                                            volume_mounts: non_empty(
                                                mounts.map_values(
                                                    |m: (VolumeMountView, PodVolumeView)| m.0,
                                                ),
                                            ),
                                        },
                                        mounts.map_values(|m: (VolumeMountView, PodVolumeView)| m.1),
                                    ),
                                )
                            },
                        },
                    },
                },
            },
        },
    }
}

/// The views of pod volumes.
pub open spec fn volumes_view(v: Seq<PodVolume>) -> Seq<PodVolumeView> {
    v.map_values(|p: PodVolume| p@)
}

/// The views of volume mounts.
pub open spec fn volume_mounts_view(v: Seq<VolumeMount>) -> Seq<VolumeMountView> {
    v.map_values(|m: VolumeMount| m@)
}

/// Append a mount and its volume.
fn push_mount(
    mounts: &mut Vec<VolumeMount>,
    volumes: &mut Vec<PodVolume>,
    m: (VolumeMount, PodVolume),
    Ghost(acc): Ghost<Seq<(VolumeMountView, PodVolumeView)>>,
)
    requires
        volume_mounts_view(old(mounts)@) == acc.map_values(|p: (VolumeMountView, PodVolumeView)| p.0),
        volumes_view(old(volumes)@) == acc.map_values(|p: (VolumeMountView, PodVolumeView)| p.1),
    ensures
        volume_mounts_view(final(mounts)@) == acc.push((m.0@, m.1@)).map_values(
            |p: (VolumeMountView, PodVolumeView)| p.0,
        ),
        volumes_view(final(volumes)@) == acc.push((m.0@, m.1@)).map_values(
            |p: (VolumeMountView, PodVolumeView)| p.1,
        ),
{
    let ghost pair = (m.0@, m.1@);
    let (mount, volume) = m;
    let ghost old_mounts = mounts@;
    let ghost old_volumes = volumes@;
    mounts.push(mount);
    volumes.push(volume);
    assert(volume_mounts_view(mounts@) =~= volume_mounts_view(old_mounts).push(pair.0));
    assert(volumes_view(volumes@) =~= volumes_view(old_volumes).push(pair.1));
    assert(acc.push(pair).map_values(|p: (VolumeMountView, PodVolumeView)| p.0) =~= acc.map_values(
        |p: (VolumeMountView, PodVolumeView)| p.0,
    ).push(pair.0));
    assert(acc.push(pair).map_values(|p: (VolumeMountView, PodVolumeView)| p.1) =~= acc.map_values(
        |p: (VolumeMountView, PodVolumeView)| p.1,
    ).push(pair.1));
}

/// The container of a Kubernetes pod for the compose service named `name`, and the volumes it
/// mounts.
pub fn service_try_into_container(name: String, service: PodService) -> (r: Result<
    (PodContainer, Vec<PodVolume>),
    PodServiceError,
>)
    ensures
        match r {
            Ok((c, vs)) => pod_container(name@, service) == Ok::<
                (PodContainerView, Seq<PodVolumeView>),
                PodServiceErr,
            >((c@, volumes_view(vs@))),
            Err(e) => pod_container(name@, service) == Err::<
                (PodContainerView, Seq<PodVolumeView>),
                PodServiceErr,
            >(e@),
        },
{
    let ghost s = service;
    let PodService {
        options,
        container_name,
        healthcheck,
        cap_add,
        security_opt,
        privileged,
        user,
        ports,
        environment,
        tmpfs,
        volumes,
        command,
        entrypoint,
        image,
        working_dir,
        stdin_open,
        tty,
        ulimits,
    } = service;
    if let Err(e) = service_check_unsupported(&options) {
        return Err(PodServiceError::Options(e));
    }
    let cname = match container_name {
        Some(n) => n,
        None => name,
    };
    let liveness_probe = match healthcheck {
        Some(h) => {
            if healthcheck_is_disable(&h) {
                None
            } else {
                match healthcheck_try_into_probe(h) {
                    Ok(p) => Some(p),
                    Err(e) => {
                        return Err(PodServiceError::Healthcheck(e));
                    },
                }
            }
        },
        None => None,
    };
    let se = match security_opts_try_into_se_linux_options(security_opt) {
        Ok(o) => o,
        Err(e) => {
            return Err(PodServiceError::SecurityOpt(e));
        },
    };
    let run_as_user = match user {
        None => None,
        Some(u) => match parse_i64(u.as_str()) {
            Some(n) => Some(n),
            None => {
                return Err(PodServiceError::User(u));
            },
        },
    };
    let ports = match ports_try_into_container_ports(ports) {
        Ok(p) => p,
        Err(e) => {
            return Err(PodServiceError::Ports(e));
        },
    };
    let env = environment_into_env_vars(environment);
    let mut mounts: Vec<VolumeMount> = Vec::new();
    let mut pod_volumes: Vec<PodVolume> = Vec::new();
    let ghost all_tmpfs = tmpfs.deep_view();
    let ghost tmpfs_mounts = all_tmpfs.map_values(|t: Seq<char>| tmpfs_mount(t, cname@));
    let ghost mut acc = Seq::<(VolumeMountView, PodVolumeView)>::empty();
    assert(volume_mounts_view(mounts@) =~= acc.map_values(|p: (VolumeMountView, PodVolumeView)| p.0));
    assert(volumes_view(pod_volumes@) =~= acc.map_values(|p: (VolumeMountView, PodVolumeView)| p.1));
    let mut i: usize = 0;
    while i < tmpfs.len()
        invariant
            i <= tmpfs@.len(),
            all_tmpfs == tmpfs.deep_view(),
            tmpfs_mounts == all_tmpfs.map_values(|t: Seq<char>| tmpfs_mount(t, cname@)),
            acc == tmpfs_mounts.subrange(0, i as int),
            volume_mounts_view(mounts@) == acc.map_values(|p: (VolumeMountView, PodVolumeView)| p.0),
            volumes_view(pod_volumes@) == acc.map_values(|p: (VolumeMountView, PodVolumeView)| p.1),
        decreases tmpfs.len() - i,
    {
        let m = parse_tmpfs_volume_mount(tmpfs[i].as_str(), cname.as_str());
        push_mount(&mut mounts, &mut pod_volumes, m, Ghost(acc));
        proof {
            acc = acc.push((m.0@, m.1@));
        }
        assert(acc =~= tmpfs_mounts.subrange(0, i + 1));
        i = i + 1;
    }
    assert(acc =~= tmpfs_mounts);
    let pairs = match compose_volumes_try_into_volume_mounts(volumes, cname.as_str()) {
        Ok(v) => v,
        Err(e) => {
            return Err(PodServiceError::Volumes(e));
        },
    };
    let ghost vm = mounts_view(pairs@);
    let ghost start = acc;
    let mut rest = pairs;
    let ghost mut j: int = 0;
    assert(rest@ =~= pairs@.subrange(0, pairs@.len() as int));
    assert(start =~= start + vm.subrange(0, 0));
    while rest.len() > 0
        invariant
            0 <= j <= pairs@.len(),
            vm == mounts_view(pairs@),
            rest@ == pairs@.subrange(j, pairs@.len() as int),
            acc == start + vm.subrange(0, j),
            volume_mounts_view(mounts@) == acc.map_values(|p: (VolumeMountView, PodVolumeView)| p.0),
            volumes_view(pod_volumes@) == acc.map_values(|p: (VolumeMountView, PodVolumeView)| p.1),
        decreases rest.len(),
    {
        let m = rest.remove(0);
        assert(m == pairs@[j]);
        push_mount(&mut mounts, &mut pod_volumes, m, Ghost(acc));
        proof {
            acc = acc.push((m.0@, m.1@));
            j = j + 1;
        }
        assert(acc =~= start + vm.subrange(0, j));
        assert(rest@ =~= pairs@.subrange(j, pairs@.len() as int));
    }
    assert(vm.subrange(0, j) =~= vm);
    let se_linux_options = if se.user.is_none() && se.role.is_none() && se.type_.is_none()
        && se.level.is_none() {
        None
    } else {
        Some(se)
    };
    let capabilities_add = if cap_add.len() > 0 {
        Some(cap_add)
    } else {
        None
    };
    let security_context = if !privileged && capabilities_add.is_none() && se_linux_options.is_none()
        && run_as_user.is_none() {
        None
    } else {
        Some(
            PodSecurityContext {
                privileged: if privileged {
                    Some(true)
                } else {
                    None
                },
                capabilities_add,
                se_linux_options,
                run_as_user,
            },
        )
    };
    let container = PodContainer {
        name: cname,
        image,
        command: command_vec(entrypoint),
        args: command_vec(command),
        liveness_probe,
        security_context,
        ports: if ports.len() > 0 {
            Some(ports)
        } else {
            None
        },
        env: if env.len() > 0 {
            Some(env)
        } else {
            None
        },
        resource_limits: ulimits_into_resources(ulimits),
        working_dir,
        stdin: if stdin_open {
            Some(true)
        } else {
            None
        },
        tty: if tty {
            Some(true)
        } else {
            None
        },
        volume_mounts: if mounts.len() > 0 {
            Some(mounts)
        } else {
            None
        },
    };
    Ok((container, pod_volumes))
}

/// The mount options of a volume driver: the "uid=" and "gid=" options apart, the others joined
/// by ','.
#[derive(Debug, Clone, PartialEq, Eq)]
pub struct MountOptions {
    pub uid: Option<String>,
    pub gid: Option<String>,
    pub options: Option<String>,
}

/// [`MountOptions`] with its texts as character sequences.
pub ghost struct MountOptionsView {
    pub uid: Option<Seq<char>>,
    pub gid: Option<Seq<char>>,
    pub options: Option<Seq<char>>,
}

impl View for MountOptions {
    type V = MountOptionsView;

    open spec fn view(&self) -> MountOptionsView {
        MountOptionsView {
            uid: opt_seq(self.uid),
            gid: opt_seq(self.gid),
            options: opt_seq(self.options),
        }
    }
}

/// Add one mount option: "uid=X" and "gid=X" set the IDs (the last one counts), others are
/// appended, separated by ','.
pub open spec fn mount_option_add(m: MountOptionsView, option: Seq<char>) -> MountOptionsView {
    match strip_prefix(option, "uid="@) {
        Some(v) => MountOptionsView { uid: Some(v), ..m },
        None => match strip_prefix(option, "gid="@) {
            Some(v) => MountOptionsView { gid: Some(v), ..m },
            None => MountOptionsView {
                options: Some(
                    match m.options {
                        Some(o) => o + seq![','] + option,
                        None => option,
                    },
                ),
                ..m
            },
        },
    }
}

/// Add the mount options `options` in order to no options.
pub open spec fn mount_options_of(options: Seq<Seq<char>>) -> MountOptionsView
    decreases options.len(),
{
    if options.len() == 0 {
        MountOptionsView { uid: None, gid: None, options: None }
    } else {
        mount_option_add(mount_options_of(options.drop_last()), options.last())
    }
}

impl MountOptions {
    /// The mount options of the text `value`, split at ','.
    pub fn from_text(value: &str) -> (r: MountOptions)
        ensures
            r@ == mount_options_of(split(value@, ',')),
    {
        let parts = str_split(value, ',');
        let ghost all = parts.deep_view();
        let mut m = MountOptions { uid: None, gid: None, options: None };
        let mut i: usize = 0;
        while i < parts.len()
            invariant
                i <= parts@.len(),
                all == parts.deep_view(),
                m@ == mount_options_of(all.subrange(0, i as int)),
            decreases parts.len() - i,
        {
            assert(all.subrange(0, i + 1).drop_last() =~= all.subrange(0, i as int));
            let option = parts[i].as_str();
            assert(all.subrange(0, i + 1).last() == option@);
            if let Some(v) = str_strip_prefix(option, "uid=") {
                m.uid = Some(v);
            } else if let Some(v) = str_strip_prefix(option, "gid=") {
                m.gid = Some(v);
            } else {
                let joined = match &m.options {
                    Some(o) => {
                        let mut joined = o.clone();
                        push_char(&mut joined, ',');
                        push_str(&mut joined, option);
                        assert(joined@ =~= o@ + seq![','] + option@);
                        joined
                    },
                    None => option.to_owned(),
                };
                m.options = Some(joined);
            }
            i = i + 1;
        }
        assert(all.subrange(0, i as int) =~= all);
        m
    }

    /// The annotations of these mount options: the UID, the GID, the other options, those set.
    pub fn into_annotations(self) -> (r: Vec<(String, String)>)
        ensures
            pairs_view(r@) == mount_annotations(self@),
    {
        let mut v: Vec<(String, String)> = Vec::new();
        assert(pairs_view(v@) =~= Seq::<(Seq<char>, Seq<char>)>::empty());
        push_pair(&mut v, "volume.podman.io/uid", self.uid);
        push_pair(&mut v, "volume.podman.io/gid", self.gid);
        push_pair(&mut v, "volume.podman.io/mount-options", self.options);
        v
    }
}

/// The annotations of mount options.
pub open spec fn mount_annotations(m: MountOptionsView) -> Seq<(Seq<char>, Seq<char>)> {
    let a = push_annotation(Seq::empty(), "volume.podman.io/uid"@, m.uid);
    let a = push_annotation(a, "volume.podman.io/gid"@, m.gid);
    push_annotation(a, "volume.podman.io/mount-options"@, m.options)
}

/// Append the annotation `key` with `value` when there is a value.
fn push_pair(items: &mut Vec<(String, String)>, key: &str, value: Option<String>)
    ensures
        pairs_view(final(items)@) == push_annotation(pairs_view(old(items)@), key@, opt_seq(value)),
{
    if let Some(v) = value {
        let ghost before = items@;
        items.push((key.to_owned(), v));
        assert(pairs_view(items@) =~= pairs_view(before).push((key@, v@)));
    }
}

/// The annotations of one volume driver option: "type" and "device" as they are (an empty
/// value without one), "o" as mount options; `None` for any other option.
pub open spec fn driver_opt_annotations(key: Seq<char>, value: Option<Seq<char>>) -> Option<
    Seq<(Seq<char>, Seq<char>)>,
> {
    let text = match value {
        Some(v) => v,
        None => Seq::<char>::empty(),
    };
    if key == "type"@ {
        Some(seq![("volume.podman.io/type"@, text)])
    } else if key == "device"@ {
        Some(seq![("volume.podman.io/device"@, text)])
    } else if key == "o"@ {
        Some(
            match value {
                Some(v) => mount_annotations(mount_options_of(split(v, ','))),
                None => Seq::empty(),
            },
        )
    } else {
        None
    }
}

/// The annotations of volume driver options, in order, or the first option that is not
/// supported.
pub open spec fn driver_opts_annotations(opts: Seq<(Seq<char>, Option<Seq<char>>)>) -> Result<
    Seq<(Seq<char>, Seq<char>)>,
    Seq<char>,
>
    decreases opts.len(),
{
    if opts.len() == 0 {
        Ok(Seq::empty())
    } else {
        match driver_opts_annotations(opts.drop_last()) {
            Err(e) => Err(e),
            Ok(a) => match driver_opt_annotations(opts.last().0, opts.last().1) {
                Some(b) => Ok(a + b),
                None => Err(opts.last().0),
            },
        }
    }
}

/// The views of driver options.
pub open spec fn driver_opts_view(v: Seq<(String, Option<String>)>) -> Seq<(Seq<char>, Option<Seq<char>>)> {
    v.map_values(|p: (String, Option<String>)| (p.0@, opt_seq(p.1)))
}

/// An error in the first `n` driver options is the error of all of them.
proof fn lemma_driver_opts_err(opts: Seq<(Seq<char>, Option<Seq<char>>)>, n: int, e: Seq<char>)
    requires
        0 <= n <= opts.len(),
        driver_opts_annotations(opts.subrange(0, n)) == Err::<Seq<(Seq<char>, Seq<char>)>, Seq<char>>(e),
    ensures
        driver_opts_annotations(opts) == Err::<Seq<(Seq<char>, Seq<char>)>, Seq<char>>(e),
    decreases opts.len() - n,
{
    if n < opts.len() {
        assert(opts.subrange(0, n + 1).drop_last() =~= opts.subrange(0, n));
        lemma_driver_opts_err(opts, n + 1, e);
    } else {
        assert(opts.subrange(0, n) =~= opts);
    }
}

/// Append the pairs `more` to `items`.
fn append_pairs(items: &mut Vec<(String, String)>, more: Vec<(String, String)>)
    ensures
        pairs_view(final(items)@) == pairs_view(old(items)@) + pairs_view(more@),
{
    let ghost before = items@;
    let mut more = more;
    let ghost all = more@;
    let ghost mut k: int = 0;
    assert(more@ =~= all.subrange(0, all.len() as int));
    assert(pairs_view(items@) =~= pairs_view(before) + pairs_view(all.subrange(0, 0)));
    while more.len() > 0
        invariant
            0 <= k <= all.len(),
            more@ == all.subrange(k, all.len() as int),
            pairs_view(items@) == pairs_view(before) + pairs_view(all.subrange(0, k)),
        decreases more.len(),
    {
        let p = more.remove(0);
        assert(p == all[k]);
        let ghost prev = items@;
        let ghost pv = (p.0@, p.1@);
        items.push(p);
        assert(pairs_view(items@) =~= pairs_view(prev).push(pv));
        assert(pairs_view(all.subrange(0, k + 1)) =~= pairs_view(all.subrange(0, k)).push(pv));
        proof {
            k = k + 1;
        }
        assert(pairs_view(items@) =~= pairs_view(before) + pairs_view(all.subrange(0, k)));
        assert(more@ =~= all.subrange(k, all.len() as int));
    }
    assert(all.subrange(0, k) =~= all);
}

/// The annotations of a compose volume's driver options, in order; an error names the first
/// option that is not supported.
pub fn driver_opts_try_into_annotations(driver_opts: Vec<(String, Option<String>)>) -> (r: Result<
    Vec<(String, String)>,
    String,
>)
    ensures
        match r {
            Ok(v) => driver_opts_annotations(driver_opts_view(driver_opts@)) == Ok::<
                Seq<(Seq<char>, Seq<char>)>,
                Seq<char>,
            >(pairs_view(v@)),
            Err(k) => driver_opts_annotations(driver_opts_view(driver_opts@)) == Err::<
                Seq<(Seq<char>, Seq<char>)>,
                Seq<char>,
            >(k@),
        },
{
    let ghost all = driver_opts_view(driver_opts@);
    let mut rest = driver_opts;
    let ghost original = rest@;
    let mut out: Vec<(String, String)> = Vec::new();
    let ghost mut i: int = 0;
    assert(all.subrange(0, 0) =~= Seq::<(Seq<char>, Option<Seq<char>>)>::empty());
    assert(pairs_view(out@) =~= Seq::<(Seq<char>, Seq<char>)>::empty());
    assert(rest@ =~= original.subrange(0, original.len() as int));
    while rest.len() > 0
        invariant
            0 <= i <= original.len(),
            all == driver_opts_view(original),
            all == driver_opts_view(driver_opts@),
            rest@ == original.subrange(i, original.len() as int),
            driver_opts_annotations(all.subrange(0, i)) == Ok::<
                Seq<(Seq<char>, Seq<char>)>,
                Seq<char>,
            >(pairs_view(out@)),
        decreases rest.len(),
    {
        assert(all.subrange(0, i + 1).drop_last() =~= all.subrange(0, i));
        let (key, value) = rest.remove(0);
        assert((key, value) == original[i]);
        assert(all.subrange(0, i + 1).last() == (key@, opt_seq(value)));
        let text = match &value {
            Some(v) => v.clone(),
            None => String::new(),
        };
        if str_eq(key.as_str(), "type") {
            let mut more: Vec<(String, String)> = Vec::new();
            more.push(("volume.podman.io/type".to_owned(), text));
            assert(pairs_view(more@) =~= seq![("volume.podman.io/type"@, text@)]);
            append_pairs(&mut out, more);
        } else if str_eq(key.as_str(), "device") {
            let mut more: Vec<(String, String)> = Vec::new();
            more.push(("volume.podman.io/device".to_owned(), text));
            assert(pairs_view(more@) =~= seq![("volume.podman.io/device"@, text@)]);
            append_pairs(&mut out, more);
        } else if str_eq(key.as_str(), "o") {
            match value {
                Some(v) => {
                    let more = MountOptions::from_text(v.as_str()).into_annotations();
                    append_pairs(&mut out, more);
                },
                None => {
                    assert(pairs_view(out@) + Seq::<(Seq<char>, Seq<char>)>::empty() =~= pairs_view(out@));
                },
            }
        } else {
            proof {
                lemma_driver_opts_err(all, i + 1, key@);
            }
            return Err(key);
        }
        proof {
            i = i + 1;
        }
        assert(rest@ =~= original.subrange(i, original.len() as int));
    }
    assert(all.subrange(0, i) =~= all);
    Ok(out)
}

/// The labels of a compose volume: "LABEL=VALUE" items, or labels with values.
#[derive(Debug, Clone, PartialEq, Eq)]
pub enum Labels {
    List(Vec<String>),
    Pairs(Vec<(String, String)>),
}

/// A label item "LABEL=VALUE" split at the first '='; without '=', a label with an empty value.
pub open spec fn label_item(item: Seq<char>) -> (Seq<char>, Seq<char>) {
    match split_once(item, '=') {
        Some((l, v)) => (l, v),
        None => (item, Seq::empty()),
    }
}

/// The labels and values of compose volume labels.
pub open spec fn labels_pairs(l: Labels) -> Seq<(Seq<char>, Seq<char>)> {
    match l {
        Labels::List(items) => items.deep_view().map_values(|i: Seq<char>| label_item(i)),
        Labels::Pairs(pairs) => pairs_view(pairs@),
    }
}

/// The labels and values of compose volume labels, in order.
pub fn labels_into_pairs(labels: Labels) -> (r: Vec<(String, String)>)
    ensures
        pairs_view(r@) == labels_pairs(labels),
{
    match labels {
        Labels::List(items) => {
            let ghost all = items.deep_view();
            let mut out: Vec<(String, String)> = Vec::new();
            let mut i: usize = 0;
            while i < items.len()
                invariant
                    i <= items@.len(),
                    all == items.deep_view(),
                    pairs_view(out@) == all.subrange(0, i as int).map_values(
                        |i: Seq<char>| label_item(i),
                    ),
                decreases items.len() - i,
            {
                let item = items[i].as_str();
                let pair = match str_split_once(item, '=') {
                    Some((l, v)) => (l, v),
                    None => (item.to_owned(), String::new()),
                };
                let ghost before = out@;
                let ghost pv = (pair.0@, pair.1@);
                out.push(pair);
                assert(pairs_view(out@) =~= pairs_view(before).push(pv));
                assert(all.subrange(0, i + 1).map_values(|i: Seq<char>| label_item(i))
                    =~= all.subrange(0, i as int).map_values(|i: Seq<char>| label_item(i)).push(
                    label_item(all[i as int]),
                ));
                i = i + 1;
            }
            assert(all.subrange(0, i as int) =~= all);
            out
        },
        Labels::Pairs(pairs) => pairs,
    }
}

/// A named volume of a compose file.
#[derive(Debug, Clone, PartialEq, Eq)]
pub struct ComposeVolume {
    /// Whether the volume is external or has a name of its own.
    pub external: bool,
    pub driver: Option<String>,
    pub driver_opts: Vec<(String, Option<String>)>,
    pub labels: Labels,
}

/// A persistent volume claim of a pod: its name, and its annotations and labels, each as pairs
/// in order; a Kubernetes map of them keeps the last value of each key.
#[derive(Debug, Clone, PartialEq, Eq)]
pub struct PersistentVolumeClaim {
    pub name: String,
    pub annotations: Option<Vec<(String, String)>>,
    pub labels: Option<Vec<(String, String)>>,
}

/// Error returned when a compose volume cannot become a persistent volume claim.
#[derive(Debug, Clone, PartialEq, Eq)]
pub enum ClaimError {
    /// External volumes.
    External,
    /// A driver option that is not supported, by name.
    DriverOpt(String),
}

/// [`ClaimError`] with its text as a character sequence.
pub ghost enum ClaimErr {
    External,
    DriverOpt(Seq<char>),
}

impl View for ClaimError {
    type V = ClaimErr;

    open spec fn view(&self) -> ClaimErr {
        match self {
            ClaimError::External => ClaimErr::External,
            ClaimError::DriverOpt(o) => ClaimErr::DriverOpt(o@),
        }
    }
}

/// What a compose volume named `name` becomes: a persistent volume claim with the driver and
/// the driver options as annotations, and the labels.
pub open spec fn volume_claim(v: ComposeVolume, name: Seq<char>) -> Result<
    (Seq<char>, Option<Seq<(Seq<char>, Seq<char>)>>, Option<Seq<(Seq<char>, Seq<char>)>>),
    ClaimErr,
> {
    if v.external {
        Err(ClaimErr::External)
    } else {
        let driver = match v.driver {
            Some(d) => seq![("volume.podman.io/driver"@, d@)],
            None => Seq::empty(),
        };
        match driver_opts_annotations(driver_opts_view(v.driver_opts@)) {
            Err(o) => Err(ClaimErr::DriverOpt(o)),
            Ok(a) => Ok((name, non_empty(driver + a), non_empty(labels_pairs(v.labels)))),
        }
    }
}

/// The persistent volume claim of the compose volume `name`.
pub fn compose_volume_try_into_persistent_volume_claim(volume: ComposeVolume, name: String) -> (r: Result<
    PersistentVolumeClaim,
    ClaimError,
>)
    ensures
        match r {
            Ok(c) => volume_claim(volume, name@) == Ok::<
                (Seq<char>, Option<Seq<(Seq<char>, Seq<char>)>>, Option<Seq<(Seq<char>, Seq<char>)>>),
                ClaimErr,
            >(
                (
                    c.name@,
                    match c.annotations {
                        Some(a) => Some(pairs_view(a@)),
                        None => None,
                    },
                    match c.labels {
                        Some(l) => Some(pairs_view(l@)),
                        None => None,
                    },
                ),
            ),
            Err(e) => volume_claim(volume, name@) == Err::<
                (Seq<char>, Option<Seq<(Seq<char>, Seq<char>)>>, Option<Seq<(Seq<char>, Seq<char>)>>),
                ClaimErr,
            >(e@),
        },
{
    let ghost v = volume;
    let ComposeVolume { external, driver, driver_opts, labels } = volume;
    if external {
        return Err(ClaimError::External);
    }
    let mut annotations: Vec<(String, String)> = Vec::new();
    if let Some(d) = driver {
        annotations.push(("volume.podman.io/driver".to_owned(), d));
    }
    assert(pairs_view(annotations@) =~= match v.driver {
        Some(d) => seq![("volume.podman.io/driver"@, d@)],
        None => Seq::<(Seq<char>, Seq<char>)>::empty(),
    });
    match driver_opts_try_into_annotations(driver_opts) {
        Ok(more) => append_pairs(&mut annotations, more),
        Err(o) => {
            return Err(ClaimError::DriverOpt(o));
        },
    }
    let labels = labels_into_pairs(labels);
    Ok(
        PersistentVolumeClaim {
            name,
            annotations: if annotations.len() > 0 {
                Some(annotations)
            } else {
                None
            },
            labels: if labels.len() > 0 {
                Some(labels)
            } else {
                None
            },
        },
    )
}

} // verus!
