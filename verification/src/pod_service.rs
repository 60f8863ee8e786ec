//! A compose service as a container of a Kubernetes pod: its volume mounts, resources, and the
//! container itself, added to a pod spec.
//!
//! Values here are those of a compose file after the compose parser has done its work: short
//! ports and volumes are already in the long syntax, tmpfs mounts are paths, and sizes and CPU
//! counts are the text that they are written as.

use vstd::prelude::*;

use crate::text::opt_seq;

use crate::compose_pod::ServiceCommand;
use crate::container::ComposePullPolicy;
use crate::k8s::{dashed, volume_name, PodVolume, PodVolumeView, VolumeMount, VolumeMountView};
use crate::mount_opts::{relabel_char, SELinuxRelabel};
use crate::pod::{command_probe, env_vars, env_view, environment_into_env_vars, healthcheck_command_try_into_probe, long_port, pod_container_check, port_try_into_container_port, roundable, security_context_of, set_flag, CommandProbeError, ContainerPortView, ContainerSecurityContext, EnvVar, Environment, HealthcheckCommand, LongPortErr, LongPortError, NamedContainerPort, PodContainerErr, PodContainerError, Port, Probe, ProbeView, SecurityContext, SecurityContextErr, SecurityContextError, SecurityContextView, Unsupported};
use crate::text::{push_char, push_string};

verus! {

/// The options that every compose volume mount has.
#[derive(Debug, Clone, PartialEq, Eq)]
pub struct MountCommon {
    /// The path in the container.
    pub target: String,
    pub read_only: bool,
    /// Whether a consistency is given.
    pub consistency: bool,
    /// Whether the mount has compose extensions.
    pub extensions: bool,
}

/// A compose volume mount in the long syntax.
#[derive(Debug, Clone, PartialEq, Eq)]
pub enum ComposeMount {
    /// A named volume, or an anonymous one without a source.
    Volume {
        source: Option<String>,
        /// Whether volume options (such as `nocopy`) are given.
        options: bool,
        common: MountCommon,
    },
    /// A path of the host.
    Bind {
        source: String,
        /// Whether a bind propagation is given.
        propagation: bool,
        create_host_path: bool,
        selinux: Option<SELinuxRelabel>,
        /// Whether the bind options have compose extensions.
        extensions: bool,
        common: MountCommon,
    },
    /// A tmpfs.
    Tmpfs {
        /// The size, as the compose file writes it.
        size: Option<String>,
        /// Whether a mode is given.
        mode: bool,
        /// Whether the tmpfs options have compose extensions.
        extensions: bool,
        common: MountCommon,
    },
    /// A named pipe.
    NamedPipe,
    /// A cluster volume.
    Cluster,
}

/// Error returned when a compose volume mount cannot become a mount of a pod container.
#[derive(Debug, Clone, Copy, PartialEq, Eq, Structural)]
pub enum PodMountError {
    /// Volume options are given.
    VolumeOptions,
    /// A bind propagation is given.
    BindPropagation,
    /// `create_host_path: false`.
    CreateHostPath,
    /// The bind options have compose extensions.
    BindExtensions,
    /// A tmpfs mode is given.
    TmpfsMode,
    /// The tmpfs options have compose extensions.
    TmpfsExtensions,
    /// A consistency is given.
    Consistency,
    /// The mount has compose extensions.
    Extensions,
    /// Named pipes are not supported.
    NamedPipe,
    /// Cluster volumes are not supported.
    Cluster,
}

/// The mount of a pod container at the target of `common`, with the volume named `name`; an
/// error for a consistency or extensions.
pub open spec fn common_mount(common: MountCommon, name: Seq<char>) -> Result<
    VolumeMountView,
    PodMountError,
> {
    if common.consistency {
        Err(PodMountError::Consistency)
    } else if common.extensions {
        Err(PodMountError::Extensions)
    } else {
        Ok(VolumeMountView { mount_path: common.target@, name, read_only: common.read_only })
    }
}

/// What a compose volume mount of the container `container` becomes in a pod: a claim for a
/// named volume, an empty directory for an anonymous one, a host path for a bind mount (its
/// mount path followed by ":z" or ":Z" where it is relabeled), memory for a tmpfs. A volume
/// that is not named is named after the container and the target.
pub open spec fn compose_mount(m: ComposeMount, container: Seq<char>) -> Result<
    (VolumeMountView, PodVolumeView),
    PodMountError,
> {
    match m {
        ComposeMount::Volume { source, options, common } => {
            if options {
                Err(PodMountError::VolumeOptions)
            } else {
                let name = match source {
                    Some(s) => s@,
                    None => container + dashed(common.target@),
                };
                match common_mount(common, name) {
                    Err(e) => Err(e),
                    Ok(mount) => Ok(
                        (
                            mount,
                            if source is None {
                                PodVolumeView::EmptyDir(name)
                            } else {
                                PodVolumeView::Claim(name)
                            },
                        ),
                    ),
                }
            }
        },
        ComposeMount::Bind { source, propagation, create_host_path, selinux, extensions, common } => {
            if propagation {
                Err(PodMountError::BindPropagation)
            } else if !create_host_path {
                Err(PodMountError::CreateHostPath)
            } else if extensions {
                Err(PodMountError::BindExtensions)
            } else {
                let name = container + dashed(common.target@);
                match common_mount(common, name) {
                    Err(e) => Err(e),
                    Ok(mount) => Ok(
                        (
                            VolumeMountView {
                                mount_path: match selinux {
                                    Some(r) => mount.mount_path + seq![':', relabel_char(r)],
                                    None => mount.mount_path,
                                },
                                ..mount
                            },
                            PodVolumeView::HostPath(name, source@),
                        ),
                    ),
                }
            }
        },
        ComposeMount::Tmpfs { size, mode, extensions, common } => {
            if mode {
                Err(PodMountError::TmpfsMode)
            } else if extensions {
                Err(PodMountError::TmpfsExtensions)
            } else {
                let name = container + dashed(common.target@);
                match common_mount(common, name) {
                    Err(e) => Err(e),
                    Ok(mount) => Ok((mount, PodVolumeView::Memory(name, opt_seq(size)))),
                }
            }
        },
        ComposeMount::NamedPipe => Err(PodMountError::NamedPipe),
        ComposeMount::Cluster => Err(PodMountError::Cluster),
    }
}

/// The mount of a pod container at the target of `common`, with the volume named `name`.
fn common_try_into_volume_mount(common: MountCommon, name: String) -> (r: Result<
    VolumeMount,
    PodMountError,
>)
    ensures
        match r {
            Ok(m) => common_mount(common, name@) == Ok::<VolumeMountView, PodMountError>(m@),
            Err(e) => common_mount(common, name@) == Err::<VolumeMountView, PodMountError>(e),
        },
{
    let MountCommon { target, read_only, consistency, extensions } = common;
    if consistency {
        return Err(PodMountError::Consistency);
    }
    if extensions {
        return Err(PodMountError::Extensions);
    }
    Ok(VolumeMount { mount_path: target, name, read_only })
}

/// The mount and volume of a pod container for a compose volume mount of the container
/// `container_name`.
pub fn try_into_volume_mount(mount: ComposeMount, container_name: &str) -> (r: Result<
    (VolumeMount, PodVolume),
    PodMountError,
>)
    ensures
        match r {
            Ok((m, v)) => compose_mount(mount, container_name@) == Ok::<
                (VolumeMountView, PodVolumeView),
                PodMountError,
            >((m@, v@)),
            Err(e) => compose_mount(mount, container_name@) == Err::<
                (VolumeMountView, PodVolumeView),
                PodMountError,
            >(e),
        },
{
    match mount {
        ComposeMount::Volume { source, options, common } => {
            if options {
                return Err(PodMountError::VolumeOptions);
            }
            let anonymous = source.is_none();
            let name = match source {
                Some(s) => s,
                None => volume_name(container_name, common.target.as_str()),
            };
            let mount = common_try_into_volume_mount(common, name)?;
            let name = mount.name.clone();
            let volume = if anonymous {
                PodVolume::EmptyDir { name }
            } else {
                PodVolume::Claim { name }
            };
            Ok((mount, volume))
        },
        ComposeMount::Bind { source, propagation, create_host_path, selinux, extensions, common } => {
            if propagation {
                return Err(PodMountError::BindPropagation);
            }
            if !create_host_path {
                return Err(PodMountError::CreateHostPath);
            }
            if extensions {
                return Err(PodMountError::BindExtensions);
            }
            let name = volume_name(container_name, common.target.as_str());
            let mut mount = common_try_into_volume_mount(common, name)?;
            match selinux {
                Some(r) => {
                    let c = match r {
                        SELinuxRelabel::Shared => 'z',
                        SELinuxRelabel::Private => 'Z',
                    };
                    let ghost before = mount.mount_path@;
                    push_char(&mut mount.mount_path, ':');
                    push_char(&mut mount.mount_path, c);
                    assert(mount.mount_path@ =~= before + seq![':', relabel_char(r)]);
                },
                None => {},
            }
            let volume = PodVolume::HostPath { name: mount.name.clone(), path: source };
            Ok((mount, volume))
        },
        ComposeMount::Tmpfs { size, mode, extensions, common } => {
            if mode {
                return Err(PodMountError::TmpfsMode);
            }
            if extensions {
                return Err(PodMountError::TmpfsExtensions);
            }
            let name = volume_name(container_name, common.target.as_str());
            let mount = common_try_into_volume_mount(common, name)?;
            let volume = PodVolume::Memory { name: mount.name.clone(), size_limit: size };
            Ok((mount, volume))
        },
        ComposeMount::NamedPipe => Err(PodMountError::NamedPipe),
        ComposeMount::Cluster => Err(PodMountError::Cluster),
    }
}

/// The compose volume mount of a tmpfs at `target`, without options.
pub open spec fn tmpfs_at(target: String) -> ComposeMount {
    ComposeMount::Tmpfs {
        size: None,
        mode: false,
        extensions: false,
        common: MountCommon { target, read_only: false, consistency: false, extensions: false },
    }
}

/// The volume mounts of a service: its tmpfs mounts, then its volumes.
pub open spec fn service_mounts(tmpfs: Seq<String>, volumes: Seq<ComposeMount>) -> Seq<ComposeMount> {
    tmpfs.map_values(|t: String| tmpfs_at(t)) + volumes
}

/// The mounts converted in order up to the first one that fails: the mounts and volumes of
/// those converted, and the error, if any.
pub open spec fn convert_mounts(ms: Seq<ComposeMount>, container: Seq<char>) -> (
    Seq<(VolumeMountView, PodVolumeView)>,
    Option<PodMountError>,
)
    decreases ms.len(),
{
    if ms.len() == 0 {
        (Seq::empty(), None)
    } else {
        let (done, err) = convert_mounts(ms.drop_last(), container);
        if err is Some {
            (done, err)
        } else {
            match compose_mount(ms.last(), container) {
                Ok(p) => (done.push(p), None),
                Err(e) => (done, Some(e)),
            }
        }
    }
}

/// The volumes of a pod spec as views.
pub open spec fn volumes_view(v: Option<Vec<PodVolume>>) -> Option<Seq<PodVolumeView>> {
    match v {
        Some(v) => Some(v@.map_values(|p: PodVolume| p@)),
        None => None,
    }
}

/// The volumes of a pod spec after `added` are added: unchanged when there are none.
pub open spec fn with_volumes(old: Option<Seq<PodVolumeView>>, added: Seq<PodVolumeView>) -> Option<
    Seq<PodVolumeView>,
> {
    if added.len() == 0 {
        old
    } else {
        Some(
            match old {
                Some(o) => o,
                None => Seq::empty(),
            } + added,
        )
    }
}

/// The mounts of pod volumes as views.
pub open spec fn mounts_view(v: Seq<VolumeMount>) -> Seq<VolumeMountView> {
    v.map_values(|m: VolumeMount| m@)
}

/// After the first error, converting more mounts changes nothing.
proof fn lemma_convert_stops(ms: Seq<ComposeMount>, container: Seq<char>, j: int, n: int)
    requires
        0 <= j <= n <= ms.len(),
        convert_mounts(ms.subrange(0, j), container).1 is Some,
    ensures
        convert_mounts(ms.subrange(0, n), container) == convert_mounts(ms.subrange(0, j), container),
    decreases n - j,
{
    if n > j {
        lemma_convert_stops(ms, container, j, n - 1);
        assert(ms.subrange(0, n).drop_last() =~= ms.subrange(0, n - 1));
    }
}

/// The container mounts of the tmpfs mounts and then the volumes of a compose service of the
/// container `container_name`. The volume of each mount is added to `pod_volumes` as the mount
/// is converted, so that after an error those of the mounts before it stay added.
#[verifier::loop_isolation(false)]
pub fn tmpfs_and_volumes_try_into_volume_mounts(
    tmpfs: Vec<String>,
    volumes: Vec<ComposeMount>,
    container_name: &str,
    pod_volumes: &mut Option<Vec<PodVolume>>,
) -> (r: Result<Vec<VolumeMount>, PodMountError>)
    ensures
        ({
            let (done, err) = convert_mounts(service_mounts(tmpfs@, volumes@), container_name@);
            &&& match r {
                Ok(v) => err is None && mounts_view(v@) == done.map_values(
                    |p: (VolumeMountView, PodVolumeView)| p.0,
                ),
                Err(e) => err == Some(e),
            }
            &&& volumes_view(*final(pod_volumes)) == with_volumes(
                volumes_view(*old(pod_volumes)),
                done.map_values(|p: (VolumeMountView, PodVolumeView)| p.1),
            )
        }),
{
    let ghost all = service_mounts(tmpfs@, volumes@);
    let ghost old_volumes = volumes_view(*pod_volumes);
    let mut rest: Vec<ComposeMount> = Vec::new();
    let mut i: usize = 0;
    while i < tmpfs.len()
        invariant
            i <= tmpfs@.len(),
            rest@ == tmpfs@.subrange(0, i as int).map_values(|t: String| tmpfs_at(t)),
        decreases tmpfs@.len() - i,
    {
        let target = tmpfs[i].clone();
        rest.push(
            ComposeMount::Tmpfs {
                size: None,
                mode: false,
                extensions: false,
                common: MountCommon { target, read_only: false, consistency: false, extensions: false },
            },
        );
        i = i + 1;
        assert(rest@ =~= tmpfs@.subrange(0, i as int).map_values(|t: String| tmpfs_at(t)));
    }
    let mut volumes = volumes;
    rest.append(&mut volumes);
    assert(tmpfs@.subrange(0, tmpfs@.len() as int) =~= tmpfs@);
    assert(rest@ =~= all);
    let mut mounts: Vec<VolumeMount> = Vec::new();
    let ghost mut k: int = 0;
    let ghost mut added: Seq<PodVolumeView> = Seq::empty();
    while rest.len() > 0
        invariant
            0 <= k <= all.len(),
            old_volumes == volumes_view(*old(pod_volumes)),
            rest@ == all.subrange(k, all.len() as int),
            convert_mounts(all.subrange(0, k), container_name@).1 is None,
            mounts_view(mounts@) == convert_mounts(all.subrange(0, k), container_name@).0.map_values(
                |p: (VolumeMountView, PodVolumeView)| p.0,
            ),
            added == convert_mounts(all.subrange(0, k), container_name@).0.map_values(
                |p: (VolumeMountView, PodVolumeView)| p.1,
            ),
            volumes_view(*pod_volumes) == with_volumes(old_volumes, added),
        decreases rest.len(),
    {
        let mount = rest.remove(0);
        assert(mount == all[k]);
        let ghost pre = all.subrange(0, k + 1);
        assert(pre.drop_last() =~= all.subrange(0, k));
        assert(pre.last() == all[k]);
        let ghost done = convert_mounts(all.subrange(0, k), container_name@).0;
        let (volume_mount, volume) = match try_into_volume_mount(mount, container_name) {
            Ok(p) => p,
            Err(e) => {
                proof {
                    assert(convert_mounts(pre, container_name@) == (done, Some(e)));
                    lemma_convert_stops(all, container_name@, k + 1, all.len() as int);
                    assert(all.subrange(0, all.len() as int) =~= all);
                }
                return Err(e);
            },
        };
        let ghost pair = (volume_mount@, volume@);
        assert(convert_mounts(pre, container_name@) == (done.push(pair), None::<PodMountError>));
        let mut list = match pod_volumes.take() {
            Some(v) => v,
            None => Vec::new(),
        };
        let ghost list_before = list@;
        list.push(volume);
        assert(list@.map_values(|p: PodVolume| p@) =~= list_before.map_values(
            |p: PodVolume| p@,
        ).push(volume@));
        *pod_volumes = Some(list);
        let ghost mounts_before = mounts@;
        mounts.push(volume_mount);
        assert(mounts_view(mounts@) =~= mounts_view(mounts_before).push(volume_mount@));
        assert(done.push(pair).map_values(|p: (VolumeMountView, PodVolumeView)| p.0)
            =~= done.map_values(|p: (VolumeMountView, PodVolumeView)| p.0).push(pair.0));
        assert(done.push(pair).map_values(|p: (VolumeMountView, PodVolumeView)| p.1)
            =~= added.push(pair.1));
        proof {
            added = added.push(volume@);
            k = k + 1;
        }
        assert(rest@ =~= all.subrange(k, all.len() as int));
    }
    assert(all.subrange(0, k) =~= all);
    Ok(mounts)
}

/// The resource options of a compose service, each as the text that the compose file gives.
#[derive(Debug, Clone, PartialEq, Eq)]
pub struct ContainerResources {
    /// The number of CPUs.
    pub cpus: Option<String>,
    pub mem_limit: Option<String>,
    pub mem_reservation: Option<String>,
}

/// The resources of a pod container: limits and requests, each by resource name, in the order
/// of the names.
#[derive(Debug, Clone, PartialEq, Eq)]
pub struct ResourceRequirements {
    pub limits: Option<Vec<(String, String)>>,
    pub requests: Option<Vec<(String, String)>>,
}

/// Pairs of strings as views.
pub open spec fn pairs_of(v: Option<Vec<(String, String)>>) -> Option<Seq<(Seq<char>, Seq<char>)>> {
    match v {
        Some(v) => Some(v@.map_values(|p: (String, String)| (p.0@, p.1@))),
        None => None,
    }
}

/// A resource named `name` of the quantity `q`, if there is one.
pub open spec fn resource(name: Seq<char>, q: Option<String>) -> Seq<(Seq<char>, Seq<char>)> {
    match q {
        Some(q) => seq![(name, q@)],
        None => Seq::empty(),
    }
}

/// A list when it is not empty.
pub open spec fn some_if_any<A>(s: Seq<A>) -> Option<Seq<A>> {
    if s.len() > 0 {
        Some(s)
    } else {
        None
    }
}

/// The resources of a pod container: the CPUs as the limit "cpu", the memory limit as the limit
/// "memory", the memory reservation as the request "memory"; none when no option is set.
pub open spec fn resource_requirements(r: ContainerResources) -> Option<
    (Option<Seq<(Seq<char>, Seq<char>)>>, Option<Seq<(Seq<char>, Seq<char>)>>),
> {
    if r.cpus is None && r.mem_limit is None && r.mem_reservation is None {
        None
    } else {
        Some(
            (
                some_if_any(resource("cpu"@, r.cpus) + resource("memory"@, r.mem_limit)),
                some_if_any(resource("memory"@, r.mem_reservation)),
            ),
        )
    }
}

/// The views of resource requirements.
pub open spec fn requirements_view(r: Option<ResourceRequirements>) -> Option<
    (Option<Seq<(Seq<char>, Seq<char>)>>, Option<Seq<(Seq<char>, Seq<char>)>>),
> {
    match r {
        Some(r) => Some((pairs_of(r.limits), pairs_of(r.requests))),
        None => None,
    }
}

impl ContainerResources {
    /// The resources of a pod container; none when no resource option is set.
    pub fn into_resource_requirements(self) -> (r: Option<ResourceRequirements>)
        ensures
            requirements_view(r) == resource_requirements(self),
    {
        let ghost me = self;
        let ContainerResources { cpus, mem_limit, mem_reservation } = self;
        if cpus.is_none() && mem_limit.is_none() && mem_reservation.is_none() {
            return None;
        }
        let mut limits: Vec<(String, String)> = Vec::new();
        match cpus {
            Some(c) => limits.push(("cpu".to_owned(), c)),
            None => {},
        }
        match mem_limit {
            Some(m) => limits.push(("memory".to_owned(), m)),
            None => {},
        }
        let limits = if limits.len() > 0 {
            Some(limits)
        } else {
            None
        };
        let requests = match mem_reservation {
            Some(m) => Some(vec![("memory".to_owned(), m)]),
            None => None,
        };
        let r = ResourceRequirements { limits, requests };
        assert(pairs_of(r.limits) =~= some_if_any(
            resource("cpu"@, me.cpus) + resource("memory"@, me.mem_limit),
        ));
        assert(pairs_of(r.requests) =~= some_if_any(resource("memory"@, me.mem_reservation)));
        Some(r)
    }
}

/// The words of a command line as a shell would split them, or none where a quote is left open
/// or the line ends in an escaping '\\'.
pub uninterp spec fn shlex_words(line: Seq<char>) -> Option<Seq<Seq<char>>>;

/// Splits a command line into words as a POSIX shell would, with `shlex::split`: what comes back
/// is named [`shlex_words`]; how the line is split (quotes, escapes, comments) is left to that
/// crate.
#[verifier::external_body]
fn shlex_split(line: &str) -> (r: Option<Vec<String>>)
    ensures
        match r {
            Some(v) => shlex_words(line@) == Some(v.deep_view()),
            None => shlex_words(line@) is None,
        },
{
    shlex::split(line)
}

/// The arguments of a command: a list as it is, a line split into words as a shell would.
pub open spec fn command_words(c: ServiceCommand) -> Result<Seq<Seq<char>>, Seq<char>> {
    match c {
        ServiceCommand::Simple(line) => match shlex_words(line@) {
            Some(w) => Ok(w),
            None => Err(line@),
        },
        ServiceCommand::Args(v) => Ok(v.deep_view()),
    }
}

/// The arguments of a command: a list as it is, a line split into words as a shell would; the
/// line itself as the error where it cannot be split.
pub fn command_try_into_vec(command: ServiceCommand) -> (r: Result<Vec<String>, String>)
    ensures
        match r {
            Ok(v) => command_words(command) == Ok::<Seq<Seq<char>>, Seq<char>>(v.deep_view()),
            Err(line) => command_words(command) == Err::<Seq<Seq<char>>, Seq<char>>(line@),
        },
{
    match command {
        ServiceCommand::Simple(line) => match shlex_split(line.as_str()) {
            Some(words) => Ok(words),
            None => Err(line),
        },
        ServiceCommand::Args(args) => Ok(args),
    }
}

/// How a compose service builds its image: from a context alone, or with options that may give
/// a context.
#[derive(Debug, Clone, PartialEq, Eq)]
pub enum ServiceBuild {
    Short(String),
    Long(Option<String>),
}

/// The healthcheck of a compose service.
#[derive(Debug, Clone, PartialEq, Eq)]
pub enum ServiceHealthcheck {
    Command(HealthcheckCommand),
    /// Disables the image's healthcheck.
    Disable,
}

/// The options of a compose service that a container of a Kubernetes pod takes, with the
/// others, which it cannot take, under `unsupported`.
#[derive(Debug, Clone, PartialEq, Eq)]
pub struct Service {
    pub unsupported: Unsupported,
    pub build: Option<ServiceBuild>,
    /// The container's name: the service's `container_name`, else the service's name.
    pub name: String,
    pub resources: ContainerResources,
    pub security_context: ContainerSecurityContext,
    pub command: Option<ServiceCommand>,
    pub entrypoint: Option<ServiceCommand>,
    pub environment: Environment,
    pub healthcheck: Option<ServiceHealthcheck>,
    pub image: Option<String>,
    /// The ports, in the long syntax.
    pub ports: Vec<Port>,
    pub pull_policy: Option<ComposePullPolicy>,
    pub stdin_open: bool,
    /// The tmpfs mounts, each a path in the container.
    pub tmpfs: Vec<String>,
    pub tty: bool,
    /// The volumes, in the long syntax.
    pub volumes: Vec<ComposeMount>,
    pub working_dir: Option<String>,
}

/// The name of the container of a compose service: its `container_name` where it has one, else
/// the service's name.
pub fn service_container_name(name: &str, container_name: Option<String>) -> (r: String)
    ensures
        r@ == match container_name {
            Some(c) => c@,
            None => name@,
        },
{
    match container_name {
        Some(c) => c,
        None => name.to_owned(),
    }
}

/// A container of a Kubernetes pod made from a compose service.
#[derive(Debug, Clone, PartialEq, Eq)]
pub struct ServiceContainer {
    pub name: String,
    pub resources: Option<ResourceRequirements>,
    pub security_context: Option<SecurityContext>,
    pub args: Option<Vec<String>>,
    pub command: Option<Vec<String>>,
    pub env: Option<Vec<EnvVar>>,
    pub liveness_probe: Option<Probe>,
    pub image: Option<String>,
    pub ports: Option<Vec<NamedContainerPort>>,
    pub image_pull_policy: Option<String>,
    pub stdin: Option<bool>,
    pub tty: Option<bool>,
    pub volume_mounts: Option<Vec<VolumeMount>>,
    pub working_dir: Option<String>,
}

/// The containers and volumes of a Kubernetes pod.
#[derive(Debug, Clone, PartialEq, Eq)]
pub struct PodSpec {
    pub containers: Vec<ServiceContainer>,
    pub volumes: Option<Vec<PodVolume>>,
}

/// [`ServiceContainer`] with its texts as character sequences.
pub ghost struct ServiceContainerView {
    pub name: Seq<char>,
    pub resources: Option<
        (Option<Seq<(Seq<char>, Seq<char>)>>, Option<Seq<(Seq<char>, Seq<char>)>>),
    >,
    pub security_context: Option<SecurityContextView>,
    pub args: Option<Seq<Seq<char>>>,
    pub command: Option<Seq<Seq<char>>>,
    pub env: Option<Seq<(Seq<char>, Option<Seq<char>>)>>,
    pub liveness_probe: Option<ProbeView>,
    pub image: Option<Seq<char>>,
    pub ports: Option<Seq<(Option<Seq<char>>, ContainerPortView)>>,
    pub image_pull_policy: Option<Seq<char>>,
    pub stdin: Option<bool>,
    pub tty: Option<bool>,
    pub volume_mounts: Option<Seq<VolumeMountView>>,
    pub working_dir: Option<Seq<char>>,
}

/// The named ports as views.
pub open spec fn named_ports_view(v: Seq<NamedContainerPort>) -> Seq<
    (Option<Seq<char>>, ContainerPortView),
> {
    v.map_values(|p: NamedContainerPort| (opt_seq(p.name), p.port@))
}

impl View for ServiceContainer {
    type V = ServiceContainerView;

    open spec fn view(&self) -> ServiceContainerView {
        ServiceContainerView {
            name: self.name@,
            resources: requirements_view(self.resources),
            security_context: match self.security_context {
                Some(c) => Some(c@),
                None => None,
            },
            args: match self.args {
                Some(v) => Some(v.deep_view()),
                None => None,
            },
            command: match self.command {
                Some(v) => Some(v.deep_view()),
                None => None,
            },
            env: match self.env {
                Some(v) => Some(env_view(v@)),
                None => None,
            },
            liveness_probe: match self.liveness_probe {
                Some(p) => Some(p@),
                None => None,
            },
            image: opt_seq(self.image),
            ports: match self.ports {
                Some(v) => Some(named_ports_view(v@)),
                None => None,
            },
            image_pull_policy: opt_seq(self.image_pull_policy),
            stdin: self.stdin,
            tty: self.tty,
            volume_mounts: match self.volume_mounts {
                Some(v) => Some(mounts_view(v@)),
                None => None,
            },
            working_dir: opt_seq(self.working_dir),
        }
    }
}

/// Error returned when a compose service cannot be added to a Kubernetes pod.
#[derive(Debug, Clone, PartialEq, Eq)]
pub enum AddServiceError {
    /// An option that a pod container cannot take.
    Unsupported(PodContainerError),
    /// A volume mount that cannot be converted.
    Volumes(PodMountError),
    /// Neither `build` nor `image` is given.
    ImageRequired,
    SecurityContext(SecurityContextError),
    /// A command line that cannot be split into words.
    Command(String),
    Healthcheck(CommandProbeError),
    Ports(LongPortError),
    /// The pull policy `build`.
    PullPolicyBuild,
}

/// [`AddServiceError`] with its texts as character sequences.
pub ghost enum AddServiceErr {
    Unsupported(PodContainerErr),
    Volumes(PodMountError),
    ImageRequired,
    SecurityContext(SecurityContextErr),
    Command(Seq<char>),
    Healthcheck(CommandProbeError),
    Ports(LongPortErr),
    PullPolicyBuild,
}

impl View for AddServiceError {
    type V = AddServiceErr;

    open spec fn view(&self) -> AddServiceErr {
        match self {
            AddServiceError::Unsupported(e) => AddServiceErr::Unsupported(e@),
            AddServiceError::Volumes(e) => AddServiceErr::Volumes(*e),
            AddServiceError::ImageRequired => AddServiceErr::ImageRequired,
            AddServiceError::SecurityContext(e) => AddServiceErr::SecurityContext(e@),
            AddServiceError::Command(c) => AddServiceErr::Command(c@),
            AddServiceError::Healthcheck(e) => AddServiceErr::Healthcheck(*e),
            AddServiceError::Ports(e) => AddServiceErr::Ports(e@),
            AddServiceError::PullPolicyBuild => AddServiceErr::PullPolicyBuild,
        }
    }
}

/// The image of the container: the build context where the service is built, else its image.
pub open spec fn container_image(build: Option<ServiceBuild>, image: Option<String>) -> Option<
    Seq<char>,
> {
    match build {
        Some(ServiceBuild::Short(c)) => Some(c@),
        Some(ServiceBuild::Long(c)) => Some(c->Some_0@),
        None => match image {
            Some(i) => Some(i@),
            None => None,
        },
    }
}

/// The command of the container for an entrypoint: a line is run by "/bin/sh -c".
pub open spec fn entrypoint_command(c: Option<ServiceCommand>) -> Option<Seq<Seq<char>>> {
    match c {
        Some(ServiceCommand::Simple(line)) => Some(seq!["/bin/sh"@, "-c"@, line@]),
        Some(ServiceCommand::Args(v)) => Some(v.deep_view()),
        None => None,
    }
}

/// The image pull policy of the container; none for `build`, which it cannot take.
pub open spec fn pull_policy_name(p: ComposePullPolicy) -> Option<Seq<char>> {
    match p {
        ComposePullPolicy::Always => Some("Always"@),
        ComposePullPolicy::Never => Some("Never"@),
        ComposePullPolicy::Missing => Some("IfNotPreset"@),
        ComposePullPolicy::Build => None,
    }
}

/// The ports of the container, converted in order up to the first error.
pub open spec fn service_ports(ps: Seq<Port>) -> Result<
    Seq<(Option<Seq<char>>, ContainerPortView)>,
    LongPortErr,
>
    decreases ps.len(),
{
    if ps.len() == 0 {
        Ok(Seq::empty())
    } else {
        match service_ports(ps.drop_last()) {
            Err(e) => Err(e),
            Ok(done) => match long_port(ps.last()) {
                Ok(p) => Ok(done.push(p)),
                Err(e) => Err(e),
            },
        }
    }
}

/// The liveness probe of the container: that of a healthcheck command; none where the
/// healthcheck is disabled, as Kubernetes does not run an image's healthcheck.
pub open spec fn liveness_probe(h: Option<ServiceHealthcheck>) -> Result<
    Option<ProbeView>,
    CommandProbeError,
> {
    match h {
        Some(ServiceHealthcheck::Command(c)) => match command_probe(c) {
            Ok(p) => Ok(Some(p)),
            Err(e) => Err(e),
        },
        _ => Ok(None),
    }
}

/// The durations of a healthcheck can be rounded to whole seconds.
pub open spec fn healthcheck_roundable(h: Option<ServiceHealthcheck>) -> bool {
    match h {
        Some(ServiceHealthcheck::Command(c)) => roundable(c.interval) && roundable(c.timeout)
            && roundable(c.start_period),
        _ => true,
    }
}

/// What adding a compose service to a pod gives, after its options were found supported and
/// its volume mounts converted to `mounts`: the container, or the first error, checked in this
/// order: the image, the security context, the command, the healthcheck, the ports, the pull
/// policy.
pub open spec fn service_container(s: Service, mounts: Seq<VolumeMountView>) -> Result<
    ServiceContainerView,
    AddServiceErr,
> {
    match container_image(s.build, s.image) {
        None => Err(AddServiceErr::ImageRequired),
        Some(image) => match security_context_of(s.security_context) {
            Err(e) => Err(AddServiceErr::SecurityContext(e)),
            Ok(security_context) => {
                let args = match s.command {
                    None => Ok(None),
                    Some(c) => match command_words(c) {
                        Ok(w) => Ok(Some(w)),
                        Err(line) => Err(line),
                    },
                };
                match args {
                    Err(line) => Err(AddServiceErr::Command(line)),
                    Ok(args) => match liveness_probe(s.healthcheck) {
                        Err(e) => Err(AddServiceErr::Healthcheck(e)),
                        Ok(probe) => {
                            let ports = if s.ports@.len() > 0 {
                                match service_ports(s.ports@) {
                                    Ok(p) => Ok(Some(p)),
                                    Err(e) => Err(e),
                                }
                            } else {
                                Ok(None)
                            };
                            match ports {
                                Err(e) => Err(AddServiceErr::Ports(e)),
                                Ok(ports) => if s.pull_policy matches Some(p) && pull_policy_name(
                                    p,
                                ) is None {
                                    Err(AddServiceErr::PullPolicyBuild)
                                } else {
                                    let env = env_vars(s.environment);
                                    Ok(
                                        ServiceContainerView {
                                            name: s.name@,
                                            resources: resource_requirements(s.resources),
                                            security_context,
                                            args,
                                            command: entrypoint_command(s.entrypoint),
                                            env: some_if_any(env),
                                            liveness_probe: probe,
                                            image: Some(image),
                                            ports,
                                            image_pull_policy: match s.pull_policy {
                                                Some(p) => pull_policy_name(p),
                                                None => None,
                                            },
                                            stdin: set_flag(s.stdin_open),
                                            tty: set_flag(s.tty),
                                            volume_mounts: some_if_any(mounts),
                                            working_dir: opt_seq(s.working_dir),
                                        },
                                    )
                                },
                            }
                        },
                    },
                }
            },
        },
    }
}

/// The mounts and volumes of a service, converted up to the first error.
pub open spec fn service_volumes(s: Service) -> (
    Seq<(VolumeMountView, PodVolumeView)>,
    Option<PodMountError>,
) {
    convert_mounts(service_mounts(s.tmpfs@, s.volumes@), s.name@)
}

/// The containers of a pod spec as views.
pub open spec fn containers_view(v: Seq<ServiceContainer>) -> Seq<ServiceContainerView> {
    v.map_values(|c: ServiceContainer| c@)
}

/// What adding a compose service to a pod gives: the container, or the first error: an
/// unsupported option, a volume mount, then those of [`service_container`].
pub open spec fn add_outcome(s: Service) -> Result<ServiceContainerView, AddServiceErr> {
    match pod_container_check(s.unsupported) {
        Err(e) => Err(AddServiceErr::Unsupported(e)),
        Ok(()) => {
            let (done, err) = service_volumes(s);
            match err {
                Some(e) => Err(AddServiceErr::Volumes(e)),
                None => service_container(
                    s,
                    done.map_values(|p: (VolumeMountView, PodVolumeView)| p.0),
                ),
            }
        },
    }
}

/// The volumes of a pod spec after a service is added: those of the service's mounts that were
/// converted, once its options were found supported.
pub open spec fn added_volumes(s: Service, old: Option<Seq<PodVolumeView>>) -> Option<
    Seq<PodVolumeView>,
> {
    if pod_container_check(s.unsupported) is Err {
        old
    } else {
        with_volumes(old, service_volumes(s).0.map_values(|p: (VolumeMountView, PodVolumeView)| p.1))
    }
}

/// Adding a service to a pod gets as far as taking the image: its options are supported and
/// its volume mounts converted.
pub open spec fn reaches_image(s: Service) -> bool {
    pod_container_check(s.unsupported) is Ok && service_volumes(s).1 is None
}

/// Adding a service to a pod gets as far as converting the healthcheck: the image is given, and
/// the security context and the command are converted.
pub open spec fn reaches_healthcheck(s: Service) -> bool {
    &&& reaches_image(s)
    &&& container_image(s.build, s.image) is Some
    &&& security_context_of(s.security_context) is Ok
    &&& match s.command {
        Some(c) => command_words(c) is Ok,
        None => true,
    }
}

/// The image of the container.
fn image_of(build: Option<ServiceBuild>, image: Option<String>) -> (r: Option<String>)
    requires
        !(build matches Some(ServiceBuild::Long(None))),
    ensures
        opt_seq(r) == container_image(build, image),
        build is None ==> r == image,
{
    match build {
        Some(ServiceBuild::Short(c)) => Some(c),
        Some(ServiceBuild::Long(c)) => c,
        None => image,
    }
}

/// The arguments of the container for the service's command.
fn command_args(command: Option<ServiceCommand>) -> (r: Result<Option<Vec<String>>, String>)
    ensures
        match command {
            None => r == Ok::<Option<Vec<String>>, String>(None),
            Some(c) => match r {
                Ok(Some(v)) => command_words(c) == Ok::<Seq<Seq<char>>, Seq<char>>(v.deep_view()),
                Ok(None) => false,
                Err(line) => command_words(c) == Err::<Seq<Seq<char>>, Seq<char>>(line@),
            },
        },
{
    match command {
        None => Ok(None),
        Some(c) => match command_try_into_vec(c) {
            Ok(v) => Ok(Some(v)),
            Err(line) => Err(line),
        },
    }
}

/// The command of the container for the service's entrypoint.
fn entrypoint_vec(entrypoint: Option<ServiceCommand>) -> (r: Option<Vec<String>>)
    ensures
        match r {
            Some(v) => entrypoint_command(entrypoint) == Some(v.deep_view()),
            None => entrypoint_command(entrypoint) is None,
        },
{
    match entrypoint {
        Some(ServiceCommand::Simple(line)) => {
            let ghost l = line@;
            let mut v: Vec<String> = Vec::new();
            push_string(&mut v, "/bin/sh".to_owned());
            push_string(&mut v, "-c".to_owned());
            push_string(&mut v, line);
            assert(v.deep_view() =~= seq!["/bin/sh"@, "-c"@, l]);
            Some(v)
        },
        Some(ServiceCommand::Args(v)) => Some(v),
        None => None,
    }
}

/// The liveness probe of the container.
fn probe_of(healthcheck: Option<ServiceHealthcheck>) -> (r: Result<Option<Probe>, CommandProbeError>)
    requires
        healthcheck_roundable(healthcheck),
    ensures
        match r {
            Ok(Some(p)) => liveness_probe(healthcheck) == Ok::<Option<ProbeView>, CommandProbeError>(
                Some(p@),
            ),
            Ok(None) => liveness_probe(healthcheck) == Ok::<Option<ProbeView>, CommandProbeError>(
                None,
            ),
            Err(e) => liveness_probe(healthcheck) == Err::<Option<ProbeView>, CommandProbeError>(e),
        },
{
    match healthcheck {
        Some(ServiceHealthcheck::Command(c)) => match healthcheck_command_try_into_probe(c) {
            Ok(p) => Ok(Some(p)),
            Err(e) => Err(e),
        },
        _ => Ok(None),
    }
}

/// The ports of the container; none without ports.
#[verifier::loop_isolation(false)]
fn ports_of(ports: Vec<Port>) -> (r: Result<Option<Vec<NamedContainerPort>>, LongPortError>)
    ensures
        ports@.len() == 0 ==> r == Ok::<Option<Vec<NamedContainerPort>>, LongPortError>(None),
        ports@.len() > 0 ==> match r {
            Ok(Some(v)) => service_ports(ports@) == Ok::<
                Seq<(Option<Seq<char>>, ContainerPortView)>,
                LongPortErr,
            >(named_ports_view(v@)),
            Ok(None) => false,
            Err(e) => service_ports(ports@) == Err::<
                Seq<(Option<Seq<char>>, ContainerPortView)>,
                LongPortErr,
            >(e@),
        },
{
    if ports.len() == 0 {
        return Ok(None);
    }
    let ghost all = ports@;
    let mut rest = ports;
    let mut out: Vec<NamedContainerPort> = Vec::new();
    let ghost mut k: int = 0;
    assert(all.subrange(0, 0) =~= Seq::<Port>::empty());
    assert(named_ports_view(out@) =~= Seq::<(Option<Seq<char>>, ContainerPortView)>::empty());
    assert(rest@ =~= all.subrange(0, all.len() as int));
    while rest.len() > 0
        invariant
            0 <= k <= all.len(),
            rest@ == all.subrange(k, all.len() as int),
            service_ports(all.subrange(0, k)) == Ok::<
                Seq<(Option<Seq<char>>, ContainerPortView)>,
                LongPortErr,
            >(named_ports_view(out@)),
        decreases rest.len(),
    {
        let port = rest.remove(0);
        assert(port == all[k]);
        let ghost pre = all.subrange(0, k + 1);
        assert(pre.drop_last() =~= all.subrange(0, k));
        assert(pre.last() == all[k]);
        match port_try_into_container_port(port) {
            Ok(c) => {
                let ghost before = out@;
                out.push(c);
                assert(named_ports_view(out@) =~= named_ports_view(before).push(
                    (opt_seq(c.name), c.port@),
                ));
            },
            Err(e) => {
                proof {
                    assert(service_ports(pre) == Err::<
                        Seq<(Option<Seq<char>>, ContainerPortView)>,
                        LongPortErr,
                    >(e@));
                    lemma_ports_stop(all, k + 1, all.len() as int);
                    assert(all.subrange(0, all.len() as int) =~= all);
                }
                return Err(e);
            },
        }
        proof {
            k = k + 1;
        }
        assert(rest@ =~= all.subrange(k, all.len() as int));
    }
    assert(all.subrange(0, k) =~= all);
    Ok(Some(out))
}

/// After the first port that fails, converting more ports gives that error.
proof fn lemma_ports_stop(ps: Seq<Port>, j: int, n: int)
    requires
        0 <= j <= n <= ps.len(),
        service_ports(ps.subrange(0, j)) is Err,
    ensures
        service_ports(ps.subrange(0, n)) == service_ports(ps.subrange(0, j)),
    decreases n - j,
{
    if n > j {
        lemma_ports_stop(ps, j, n - 1);
        assert(ps.subrange(0, n).drop_last() =~= ps.subrange(0, n - 1));
    }
}

impl Service {
    /// Adds the service to a pod spec: a container, and a volume for each of its volume mounts.
    ///
    /// Fails where the service sets an option that a pod container cannot take, or one of its
    /// options cannot be converted. The volumes of the mounts converted before a failure stay
    /// added, and the container is added only on success.
    ///
    /// Where the function gets as far as the image, a build given with options must name a
    /// context; where it gets as far as the healthcheck, its durations must round to whole
    /// seconds.
    pub fn add_to_pod_spec(self, spec: &mut PodSpec) -> (r: Result<(), AddServiceError>)
        requires
            reaches_image(self) ==> !(self.build matches Some(ServiceBuild::Long(None))),
            reaches_healthcheck(self) ==> healthcheck_roundable(self.healthcheck),
        ensures
            match r {
                Ok(()) => add_outcome(self) matches Ok(c) && containers_view(
                    final(spec).containers@,
                ) == containers_view(old(spec).containers@).push(c),
                Err(e) => add_outcome(self) == Err::<ServiceContainerView, AddServiceErr>(e@)
                    && final(spec).containers@ == old(spec).containers@,
            },
            volumes_view(final(spec).volumes) == added_volumes(self, volumes_view(old(spec).volumes)),
            r is Ok ==> {
                &&& final(spec).containers@.len() == old(spec).containers@.len() + 1
                &&& final(spec).containers@.subrange(0, old(spec).containers@.len() as int)
                    == old(spec).containers@
                &&& final(spec).containers@.last().name == self.name
                &&& self.build is None ==> final(spec).containers@.last().image == self.image
            },
    {
        let ghost me = self;
        let Service {
            unsupported,
            build,
            name,
            resources,
            security_context,
            command,
            entrypoint,
            environment,
            healthcheck,
            image,
            ports,
            pull_policy,
            stdin_open,
            tmpfs,
            tty,
            volumes,
            working_dir,
        } = self;
        match unsupported.ensure_empty() {
            Ok(()) => {},
            Err(e) => {
                return Err(AddServiceError::Unsupported(e));
            },
        }
        let volume_mounts = match tmpfs_and_volumes_try_into_volume_mounts(
            tmpfs,
            volumes,
            name.as_str(),
            &mut spec.volumes,
        ) {
            Ok(v) => v,
            Err(e) => {
                return Err(AddServiceError::Volumes(e));
            },
        };
        let ghost mounts = mounts_view(volume_mounts@);
        let image = match image_of(build, image) {
            Some(i) => i,
            None => {
                return Err(AddServiceError::ImageRequired);
            },
        };
        let resources = resources.into_resource_requirements();
        let security_context = match security_context.try_into_security_context() {
            Ok(c) => c,
            Err(e) => {
                return Err(AddServiceError::SecurityContext(e));
            },
        };
        let args = match command_args(command) {
            Ok(a) => a,
            Err(line) => {
                return Err(AddServiceError::Command(line));
            },
        };
        let command = entrypoint_vec(entrypoint);
        let vars = environment_into_env_vars(environment);
        let env = if vars.len() > 0 {
            Some(vars)
        } else {
            None
        };
        let liveness_probe = match probe_of(healthcheck) {
            Ok(p) => p,
            Err(e) => {
                return Err(AddServiceError::Healthcheck(e));
            },
        };
        let ports = match ports_of(ports) {
            Ok(p) => p,
            Err(e) => {
                return Err(AddServiceError::Ports(e));
            },
        };
        let image_pull_policy = match pull_policy {
            Some(ComposePullPolicy::Always) => Some("Always".to_owned()),
            Some(ComposePullPolicy::Never) => Some("Never".to_owned()),
            Some(ComposePullPolicy::Missing) => Some("IfNotPreset".to_owned()),
            Some(ComposePullPolicy::Build) => {
                return Err(AddServiceError::PullPolicyBuild);
            },
            None => None,
        };
        let volume_mounts = if volume_mounts.len() > 0 {
            Some(volume_mounts)
        } else {
            None
        };
        let container = ServiceContainer {
            name,
            resources,
            security_context,
            args,
            command,
            env,
            liveness_probe,
            image: Some(image),
            ports,
            image_pull_policy,
            stdin: if stdin_open {
                Some(true)
            } else {
                None
            },
            tty: if tty {
                Some(true)
            } else {
                None
            },
            volume_mounts,
            working_dir,
        };
        assert(container@ == service_container(me, mounts)->Ok_0);
        let ghost before = spec.containers@;
        spec.containers.push(container);
        assert(containers_view(spec.containers@) =~= containers_view(before).push(container@));
        assert(spec.containers@.subrange(0, before.len() as int) =~= before);
        Ok(())
    }
}

} // verus!
