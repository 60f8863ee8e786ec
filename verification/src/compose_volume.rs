//! Volumes of a compose service as volumes of a Quadlet container, or, for tmpfs mounts, as
//! `podman run --tmpfs` values.
//!
//! The volume and bind options are those that the compose parser gives, its defaults filled
//! in.

use vstd::prelude::*;

use crate::compose_service::{tmpfs_short, tmpfs_try_into_short, ShortFormError, TmpfsVolume};
use crate::mount_opts::{BindPropagation, SELinuxRelabel};
use crate::pod_service::MountCommon;
use crate::volume::{default_options, Options, OptionsView, Source, SourceView, Volume, VolumeView};

verus! {

/// The options of a compose volume in the short syntax, which has a source.
#[derive(Debug, Clone, PartialEq, Eq)]
pub struct ShortOptions {
    pub source: Source,
    pub read_only: bool,
    pub selinux: Option<SELinuxRelabel>,
}

/// A compose volume in the short syntax: "\[source:\]path\[:options\]".
#[derive(Debug, Clone, PartialEq, Eq)]
pub struct ShortVolume {
    pub container_path: String,
    pub options: Option<ShortOptions>,
}

/// The options of a named volume mount.
#[derive(Debug, Clone, PartialEq, Eq)]
pub struct VolumeOptions {
    pub nocopy: bool,
    /// Whether a subpath is given.
    pub subpath: bool,
    /// Whether the options have compose extensions.
    pub extensions: bool,
}

/// The options of a bind mount.
#[derive(Debug, Clone, PartialEq, Eq)]
pub struct BindOptions {
    pub propagation: Option<BindPropagation>,
    pub create_host_path: bool,
    pub selinux: Option<SELinuxRelabel>,
    /// Whether the options have compose extensions.
    pub extensions: bool,
}

/// A volume of a compose service.
#[derive(Debug, Clone, PartialEq, Eq)]
pub enum ServiceVolume {
    Short(ShortVolume),
    /// A named volume, or an anonymous one without a source.
    Volume { source: Option<String>, options: VolumeOptions, common: MountCommon },
    /// A path of the host.
    Bind { source: String, options: BindOptions, common: MountCommon },
    Tmpfs(TmpfsVolume),
    NamedPipe,
    Cluster,
}

/// Error returned when a compose volume cannot become a volume of a Quadlet container.
#[derive(Debug, Clone, PartialEq, Eq)]
pub enum VolumeConvertError {
    /// A consistency is given.
    Consistency,
    /// The mount has compose extensions.
    Extensions,
    /// A subpath is given.
    Subpath,
    /// `create_host_path` is set.
    CreateHostPath,
    /// The volume or bind options have compose extensions.
    OptionsExtensions,
    /// A tmpfs mount that has no `--tmpfs` form.
    Tmpfs(ShortFormError),
    /// Named pipes are not supported.
    NamedPipe,
    /// Cluster volumes are not supported.
    Cluster,
}

/// The container volume of a compose volume in the short syntax: its source, read-only flag and
/// relabeling where it has options.
pub open spec fn short_volume(v: ShortVolume) -> VolumeView {
    match v.options {
        None => VolumeView { source: None, container_path: v.container_path@, options: default_options() },
        Some(o) => VolumeView {
            source: Some(o.source@),
            container_path: v.container_path@,
            options: OptionsView {
                read_only: o.read_only,
                selinux_relabel: o.selinux,
                ..default_options()
            },
        },
    }
}

/// The mount options of named volume options: only `nocopy` is kept; a subpath or extensions
/// are errors.
pub open spec fn volume_options(o: VolumeOptions) -> Result<OptionsView, VolumeConvertError> {
    if o.subpath {
        Err(VolumeConvertError::Subpath)
    } else if o.extensions {
        Err(VolumeConvertError::OptionsExtensions)
    } else {
        Ok(OptionsView { no_copy: o.nocopy, ..default_options() })
    }
}

/// The mount options of bind options: the propagation (`rprivate` by default) and relabeling;
/// `create_host_path` or extensions are errors.
pub open spec fn bind_options(o: BindOptions) -> Result<OptionsView, VolumeConvertError> {
    if o.create_host_path {
        Err(VolumeConvertError::CreateHostPath)
    } else if o.extensions {
        Err(VolumeConvertError::OptionsExtensions)
    } else {
        Ok(
            OptionsView {
                bind_propagation: match o.propagation {
                    Some(p) => p,
                    None => BindPropagation::RPrivate,
                },
                selinux_relabel: o.selinux,
                ..default_options()
            },
        )
    }
}

/// The container volume of a compose mount with these options: at the target, with the
/// source, read-only as given; a consistency or extensions of the mount are errors, checked
/// before its options.
pub open spec fn mount_volume(
    source: Option<SourceView>,
    options: Result<OptionsView, VolumeConvertError>,
    common: MountCommon,
) -> Result<VolumeView, VolumeConvertError> {
    if common.consistency {
        Err(VolumeConvertError::Consistency)
    } else if common.extensions {
        Err(VolumeConvertError::Extensions)
    } else {
        match options {
            Err(e) => Err(e),
            Ok(o) => Ok(
                VolumeView {
                    source,
                    container_path: common.target@,
                    options: OptionsView { read_only: common.read_only, ..o },
                },
            ),
        }
    }
}

/// What a compose volume gives a Quadlet container: a volume, nothing for a tmpfs mount, which
/// becomes the `--tmpfs` value `tmpfs` instead, or an error.
pub open spec fn service_volume(v: ServiceVolume) -> Result<
    (Option<VolumeView>, Option<Seq<char>>),
    VolumeConvertError,
> {
    match v {
        ServiceVolume::Short(s) => Ok((Some(short_volume(s)), None)),
        ServiceVolume::Volume { source, options, common } => match mount_volume(
            match source {
                Some(s) => Some(SourceView::NamedVolume(s@)),
                None => None,
            },
            volume_options(options),
            common,
        ) {
            Ok(v) => Ok((Some(v), None)),
            Err(e) => Err(e),
        },
        ServiceVolume::Bind { source, options, common } => match mount_volume(
            Some(SourceView::HostPath(source@)),
            bind_options(options),
            common,
        ) {
            Ok(v) => Ok((Some(v), None)),
            Err(e) => Err(e),
        },
        ServiceVolume::Tmpfs(t) => match tmpfs_short(t) {
            Ok(s) => Ok((None, Some(s))),
            Err(e) => Err(VolumeConvertError::Tmpfs(e)),
        },
        ServiceVolume::NamedPipe => Err(VolumeConvertError::NamedPipe),
        ServiceVolume::Cluster => Err(VolumeConvertError::Cluster),
    }
}

impl Volume {
    /// The container volume of a compose volume in the short syntax.
    pub fn from_short(volume: ShortVolume) -> (r: Volume)
        ensures
            r@ == short_volume(volume),
    {
        let ShortVolume { container_path, options } = volume;
        match options {
            None => Volume::new(container_path),
            Some(ShortOptions { source, read_only, selinux }) => {
                let mut options = Options::new();
                options.read_only = read_only;
                options.selinux_relabel = selinux;
                Volume { source: Some(source), container_path, options }
            },
        }
    }
}

impl Options {
    /// The mount options of named volume options.
    pub fn try_from_volume_options(options: VolumeOptions) -> (r: Result<Options, VolumeConvertError>)
        ensures
            match r {
                Ok(o) => volume_options(options) == Ok::<OptionsView, VolumeConvertError>(o@),
                Err(e) => volume_options(options) == Err::<OptionsView, VolumeConvertError>(e),
            },
    {
        if options.subpath {
            return Err(VolumeConvertError::Subpath);
        }
        if options.extensions {
            return Err(VolumeConvertError::OptionsExtensions);
        }
        let mut o = Options::new();
        o.no_copy = options.nocopy;
        Ok(o)
    }

    /// The mount options of bind options.
    pub fn try_from_bind_options(options: BindOptions) -> (r: Result<Options, VolumeConvertError>)
        ensures
            match r {
                Ok(o) => bind_options(options) == Ok::<OptionsView, VolumeConvertError>(o@),
                Err(e) => bind_options(options) == Err::<OptionsView, VolumeConvertError>(e),
            },
    {
        if options.create_host_path {
            return Err(VolumeConvertError::CreateHostPath);
        }
        if options.extensions {
            return Err(VolumeConvertError::OptionsExtensions);
        }
        let mut o = Options::new();
        o.bind_propagation = match options.propagation {
            Some(p) => p,
            None => BindPropagation::default_value(),
        };
        o.selinux_relabel = options.selinux;
        Ok(o)
    }
}

/// The container volume of a compose mount with its options converted.
fn mount_try_into_volume(
    source: Option<Source>,
    options: Result<Options, VolumeConvertError>,
    common: MountCommon,
) -> (r: Result<Volume, VolumeConvertError>)
    ensures
        match r {
            Ok(v) => mount_volume(
                match source {
                    Some(s) => Some(s@),
                    None => None,
                },
                match options {
                    Ok(o) => Ok(o@),
                    Err(e) => Err(e),
                },
                common,
            ) == Ok::<VolumeView, VolumeConvertError>(v@),
            Err(e) => mount_volume(
                match source {
                    Some(s) => Some(s@),
                    None => None,
                },
                match options {
                    Ok(o) => Ok(o@),
                    Err(e) => Err(e),
                },
                common,
            ) == Err::<VolumeView, VolumeConvertError>(e),
        },
{
    let MountCommon { target, read_only, consistency, extensions } = common;
    if consistency {
        return Err(VolumeConvertError::Consistency);
    }
    if extensions {
        return Err(VolumeConvertError::Extensions);
    }
    let mut options = options?;
    options.read_only = read_only;
    Ok(Volume { source, container_path: target, options })
}

/// What a compose volume gives a Quadlet container: a volume, or, for a tmpfs mount, nothing,
/// with its `--tmpfs` value appended to `tmpfs`.
pub fn volume_try_into_short(volume: ServiceVolume, tmpfs: &mut Vec<String>) -> (r: Result<
    Option<Volume>,
    VolumeConvertError,
>)
    ensures
        match r {
            Ok(Some(v)) => service_volume(volume) == Ok::<
                (Option<VolumeView>, Option<Seq<char>>),
                VolumeConvertError,
            >((Some(v@), None)) && final(tmpfs)@ == old(tmpfs)@,
            Ok(None) => exists|t: String|
                service_volume(volume) == Ok::<
                    (Option<VolumeView>, Option<Seq<char>>),
                    VolumeConvertError,
                >((None, Some(t@))) && final(tmpfs)@ == old(tmpfs)@.push(t),
            Err(e) => service_volume(volume) == Err::<
                (Option<VolumeView>, Option<Seq<char>>),
                VolumeConvertError,
            >(e) && final(tmpfs)@ == old(tmpfs)@,
        },
{
    match volume {
        ServiceVolume::Short(s) => Ok(Some(Volume::from_short(s))),
        ServiceVolume::Volume { source, options, common } => {
            let source = match source {
                Some(s) => Some(Source::NamedVolume(s)),
                None => None,
            };
            let options = Options::try_from_volume_options(options);
            let v = mount_try_into_volume(source, options, common)?;
            Ok(Some(v))
        },
        ServiceVolume::Bind { source, options, common } => {
            let options = Options::try_from_bind_options(options);
            let v = mount_try_into_volume(Some(Source::HostPath(source)), options, common)?;
            Ok(Some(v))
        },
        ServiceVolume::Tmpfs(t) => match tmpfs_try_into_short(t) {
            Ok(s) => {
                tmpfs.push(s);
                Ok(None)
            },
            Err(e) => Err(VolumeConvertError::Tmpfs(e)),
        },
        ServiceVolume::NamedPipe => Err(VolumeConvertError::NamedPipe),
        ServiceVolume::Cluster => Err(VolumeConvertError::Cluster),
    }
}

/// A long-syntax volume or bind mount of a compose service gives a container volume at the
/// mount's target whose source is the mount's source: a named volume exactly when a volume
/// mount names one, nothing for an anonymous volume, and the host path of a bind mount; the
/// read-only flag is the mount's.
pub proof fn mount_source_kept(v: ServiceVolume)
    ensures
        service_volume(v) matches Ok((Some(vol), _)) ==> match v {
            ServiceVolume::Volume { source, common, .. } => {
                &&& vol.container_path == common.target@
                &&& vol.options.read_only == common.read_only
                &&& match source {
                    Some(s) => vol.source == Some(SourceView::NamedVolume(s@)),
                    None => vol.source is None,
                }
            },
            ServiceVolume::Bind { source, common, .. } => {
                &&& vol.container_path == common.target@
                &&& vol.options.read_only == common.read_only
                &&& vol.source == Some(SourceView::HostPath(source@))
            },
            _ => true,
        },
        match v {
            ServiceVolume::Volume { options, common, .. } => (service_volume(v) is Ok <==> (
            !common.consistency && !common.extensions && volume_options(options) is Ok))
                && (service_volume(v) is Ok ==> service_volume(v)->Ok_0.0 is Some),
            ServiceVolume::Bind { options, common, .. } => (service_volume(v) is Ok <==> (
            !common.consistency && !common.extensions && bind_options(options) is Ok))
                && (service_volume(v) is Ok ==> service_volume(v)->Ok_0.0 is Some),
            _ => true,
        },
{
}

} // verus!
