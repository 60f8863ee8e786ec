//! The Quadlet file of a compose service: its container, with the service's dependencies in the
//! `[Unit]` section and its named volumes that have options linked to their `.volume` files.

use vstd::prelude::*;

use crate::global_args::GlobalArgs;
use crate::quadlet_container::Container;
use crate::quadlet_network::{compose_network_converted, network_empty, ComposeNetwork, ComposeNetworkError, Network};
use crate::quadlet_volume::{compose_volume_converted, ComposeVolume, ComposeVolumeError, Volume as QuadletVolume};
use crate::sections::{added_to, dependency_list, Dependency, DependencyError, Install, Unit};
use crate::service_section::{RestartConfig, Service};
use crate::text::{push_str, str_eq};
use crate::volume::{Source, SourceView, Volume, VolumeView};

verus! {

/// [`Unit`] with its texts as character sequences.
pub ghost struct UnitView {
    pub description: Option<Seq<char>>,
    pub wants: Seq<Seq<char>>,
    pub requires: Seq<Seq<char>>,
    pub binds_to: Seq<Seq<char>>,
    pub before: Seq<Seq<char>>,
    pub after: Seq<Seq<char>>,
}

/// The view of a unit section.
pub open spec fn unit_view(u: Unit) -> UnitView {
    UnitView {
        description: match u.description {
            Some(d) => Some(d@),
            None => None,
        },
        wants: u.wants.deep_view(),
        requires: u.requires.deep_view(),
        binds_to: u.binds_to.deep_view(),
        before: u.before.deep_view(),
        after: u.after.deep_view(),
    }
}

/// A unit section with nothing set.
pub open spec fn empty_unit() -> UnitView {
    UnitView {
        description: None,
        wants: Seq::empty(),
        requires: Seq::empty(),
        binds_to: Seq::empty(),
        before: Seq::empty(),
        after: Seq::empty(),
    }
}

/// Adding a dependency on the service `name` to a unit section, as
/// [`Unit::add_dependency`] does it.
pub open spec fn dependency_step(u: UnitView, name: Seq<char>, d: Dependency) -> Result<
    UnitView,
    DependencyError,
> {
    match dependency_list(d) {
        Err(e) => Err(e),
        Ok(k) => {
            let unit = name + ".service"@;
            Ok(
                UnitView {
                    wants: added_to(u.wants, 0, k, unit),
                    requires: added_to(u.requires, 1, k, unit),
                    binds_to: added_to(u.binds_to, 2, k, unit),
                    after: u.after.push(unit),
                    ..u
                },
            )
        },
    }
}

/// Adding the dependencies in order, up to the first that fails.
pub open spec fn dependencies_fold(u: UnitView, deps: Seq<(Seq<char>, Dependency)>) -> Result<
    UnitView,
    DependencyError,
>
    decreases deps.len(),
{
    if deps.len() == 0 {
        Ok(u)
    } else {
        match dependencies_fold(u, deps.drop_last()) {
            Err(e) => Err(e),
            Ok(v) => dependency_step(v, deps.last().0, deps.last().1),
        }
    }
}

/// The dependencies with their service names as character sequences.
pub open spec fn dependencies_view(deps: Seq<(String, Dependency)>) -> Seq<(Seq<char>, Dependency)> {
    deps.map_values(|p: (String, Dependency)| (p.0@, p.1))
}

/// The unit section of a service's file: without dependencies the given one; with them, the
/// given one (or an empty one) with each dependency added in order, or the first error.
pub open spec fn unit_with_dependencies(
    unit: Option<Unit>,
    deps: Seq<(String, Dependency)>,
) -> Result<Option<UnitView>, DependencyError> {
    if deps.len() == 0 {
        Ok(
            match unit {
                Some(u) => Some(unit_view(u)),
                None => None,
            },
        )
    } else {
        let start = match unit {
            Some(u) => unit_view(u),
            None => empty_unit(),
        };
        match dependencies_fold(start, dependencies_view(deps)) {
            Err(e) => Err(e),
            Ok(v) => Ok(Some(v)),
        }
    }
}

/// A volume's source linked to its `.volume` file: a named volume that has options becomes
/// "NAME.volume"; other sources stay as they are.
pub open spec fn linked_source(s: Option<SourceView>, with_options: Seq<Seq<char>>) -> Option<
    SourceView,
> {
    match s {
        Some(SourceView::NamedVolume(n)) => if with_options.contains(n) {
            Some(SourceView::NamedVolume(n + ".volume"@))
        } else {
            s
        },
        _ => s,
    }
}

/// A volume linked to its `.volume` file where its named volume has options.
pub open spec fn linked_volume(v: VolumeView, with_options: Seq<Seq<char>>) -> VolumeView {
    VolumeView { source: linked_source(v.source, with_options), ..v }
}

/// The Quadlet file of a compose service.
#[derive(Debug, Clone, PartialEq, Eq)]
pub struct ServiceFile {
    /// The name of the file, without its extension.
    pub name: String,
    /// The `[Unit]` section.
    pub unit: Option<Unit>,
    /// The `[Container]` section.
    pub container: Container,
    /// Podman's global options, for the `[Globals]` section.
    pub global_args: GlobalArgs,
    /// The `[Service]` section.
    pub service: Option<Service>,
    /// The `[Install]` section.
    pub install: Option<Install>,
}

/// Whether `name` is one of `names`.
fn contains_name(names: &Vec<String>, name: &str) -> (b: bool)
    ensures
        b == names.deep_view().contains(name@),
{
    let mut i: usize = 0;
    while i < names.len()
        invariant
            i <= names@.len(),
            forall|j: int| 0 <= j < i ==> names.deep_view()[j] != name@,
        decreases names@.len() - i,
    {
        if str_eq(names[i].as_str(), name) {
            assert(names.deep_view()[i as int] == name@);
            return true;
        }
        i = i + 1;
    }
    false
}

/// Link each named volume that has options to its `.volume` file.
fn link_volumes(volumes: Vec<Volume>, with_options: &Vec<String>) -> (r: Vec<Volume>)
    ensures
        r@.len() == volumes@.len(),
        forall|i: int|
            0 <= i < r@.len() ==> #[trigger] r@[i]@ == linked_volume(
                volumes@[i]@,
                with_options.deep_view(),
            ),
{
    let ghost all = volumes@;
    let mut rest = volumes;
    let mut out: Vec<Volume> = Vec::new();
    while rest.len() > 0
        invariant
            out@.len() + rest@.len() == all.len(),
            rest@ == all.subrange(out@.len() as int, all.len() as int),
            forall|i: int|
                0 <= i < out@.len() ==> #[trigger] out@[i]@ == linked_volume(
                    all[i]@,
                    with_options.deep_view(),
                ),
        decreases rest@.len(),
    {
        let ghost k = out@.len() as int;
        let v = rest.remove(0);
        assert(v == all[k]);
        let Volume { source, container_path, options } = v;
        let source = match source {
            Some(Source::NamedVolume(n)) => {
                if contains_name(with_options, n.as_str()) {
                    let mut linked = n;
                    push_str(&mut linked, ".volume");
                    Some(Source::NamedVolume(linked))
                } else {
                    Some(Source::NamedVolume(n))
                }
            },
            other => other,
        };
        out.push(Volume { source, container_path, options });
        assert(rest@ =~= all.subrange(out@.len() as int, all.len() as int));
    }
    out
}

/// Add the dependencies in order to `unit`, up to the first that fails.
fn add_dependencies(unit: &mut Unit, deps: Vec<(String, Dependency)>) -> (r: Result<
    (),
    DependencyError,
>)
    ensures
        match dependencies_fold(unit_view(*old(unit)), dependencies_view(deps@)) {
            Ok(v) => r is Ok && unit_view(*final(unit)) == v,
            Err(e) => r == Err::<(), DependencyError>(e),
        },
{
    let ghost start = unit_view(*unit);
    let ghost all = dependencies_view(deps@);
    let mut i: usize = 0;
    assert(all.subrange(0, 0) =~= Seq::<(Seq<char>, Dependency)>::empty());
    while i < deps.len()
        invariant
            i <= deps@.len(),
            all == dependencies_view(deps@),
            start == unit_view(*old(unit)),
            dependencies_fold(start, all.subrange(0, i as int)) == Ok::<UnitView, DependencyError>(
                unit_view(*unit),
            ),
        decreases deps@.len() - i,
    {
        let ghost pre = all.subrange(0, i + 1);
        assert(pre.drop_last() =~= all.subrange(0, i as int));
        let (name, d) = (&deps[i].0, deps[i].1);
        assert(all[i as int] == (name@, d));
        let ghost before = unit_view(*unit);
        match unit.add_dependency(name.as_str(), d) {
            Ok(()) => {},
            Err(e) => {
                proof {
                    assert(dependency_step(before, name@, d) == Err::<UnitView, DependencyError>(e));
                    assert(dependencies_fold(start, pre) == Err::<UnitView, DependencyError>(e));
                    lemma_fold_stop(start, all, i as int + 1, all.len() as int);
                    assert(all.subrange(0, all.len() as int) =~= all);
                }
                return Err(e);
            },
        }
        i = i + 1;
    }
    assert(all.subrange(0, all.len() as int) =~= all);
    Ok(())
}

/// After the first dependency that fails, adding more gives that error.
proof fn lemma_fold_stop(u: UnitView, deps: Seq<(Seq<char>, Dependency)>, j: int, n: int)
    requires
        0 <= j <= n <= deps.len(),
        dependencies_fold(u, deps.subrange(0, j)) is Err,
    ensures
        dependencies_fold(u, deps.subrange(0, n)) == dependencies_fold(u, deps.subrange(0, j)),
    decreases n - j,
{
    if n > j {
        lemma_fold_stop(u, deps, j, n - 1);
        assert(deps.subrange(0, n).drop_last() =~= deps.subrange(0, n - 1));
    }
}

/// The Quadlet file of the compose service `name`, from its container section: the service's
/// dependencies are added to the `[Unit]` section (see [`unit_with_dependencies`]), each named
/// volume listed in `volumes_with_options` is linked to its `.volume` file, and the restart
/// policy, if any, makes the `[Service]` section. Fails with the first dependency that has no
/// counterpart in a unit.
pub fn service_quadlet_file(
    name: String,
    unit: Option<Unit>,
    dependencies: Vec<(String, Dependency)>,
    container: Container,
    global_args: GlobalArgs,
    restart: Option<RestartConfig>,
    install: Option<Install>,
    volumes_with_options: &Vec<String>,
) -> (r: Result<ServiceFile, DependencyError>)
    ensures
        match unit_with_dependencies(unit, dependencies@) {
            Err(e) => r == Err::<ServiceFile, DependencyError>(e),
            Ok(u) => r matches Ok(f) && {
                &&& f.name == name
                &&& match f.unit {
                    Some(fu) => u == Some(unit_view(fu)),
                    None => u is None,
                }
                &&& f.container == (Container { volume: f.container.volume, ..container })
                &&& f.container.volume@.len() == container.volume@.len()
                &&& forall|i: int|
                    0 <= i < container.volume@.len() ==> #[trigger] f.container.volume@[i]@
                        == linked_volume(container.volume@[i]@, volumes_with_options.deep_view())
                &&& f.global_args == global_args
                &&& f.service == match restart {
                    Some(c) => Some(Service { restart: Some(c) }),
                    None => None,
                }
                &&& f.install == install
            },
        },
{
    let unit = if dependencies.len() > 0 {
        let mut u = match unit {
            Some(u) => u,
            None => {
                let n = Unit::new();
                assert(n.wants.deep_view() =~= Seq::<Seq<char>>::empty());
                assert(n.requires.deep_view() =~= Seq::<Seq<char>>::empty());
                assert(n.binds_to.deep_view() =~= Seq::<Seq<char>>::empty());
                assert(n.before.deep_view() =~= Seq::<Seq<char>>::empty());
                assert(n.after.deep_view() =~= Seq::<Seq<char>>::empty());
                assert(unit_view(n) == empty_unit());
                n
            },
        };
        match add_dependencies(&mut u, dependencies) {
            Ok(()) => Some(u),
            Err(e) => {
                return Err(e);
            },
        }
    } else {
        unit
    };
    let mut container = container;
    let mut volumes: Vec<Volume> = Vec::new();
    std::mem::swap(&mut volumes, &mut container.volume);
    container.volume = link_volumes(volumes, volumes_with_options);
    let service = match restart {
        Some(c) => Some(Service::from_restart(c)),
        None => None,
    };
    Ok(ServiceFile { name, unit, container, global_args, service, install })
}

/// An entry of the top-level `volumes` of a compose file: no definition, a definition, or a
/// volume made outside the file.
#[derive(Debug, Clone, PartialEq, Eq)]
pub enum VolumeEntry {
    Default,
    Compose(ComposeVolume),
    External,
}

/// A compose volume sets no option.
pub open spec fn compose_volume_empty(v: ComposeVolume) -> bool {
    v.driver is None && v.driver_opts@.len() == 0 && v.labels@.len() == 0 && v.name is None
        && !v.extensions
}

/// A volume entry needs a `.volume` file of its own: a definition that sets some option.
pub open spec fn has_options(e: VolumeEntry) -> bool {
    e matches VolumeEntry::Compose(v) && !compose_volume_empty(v)
}

/// The names of the volumes whose entries have options, in order.
pub open spec fn names_with_options(entries: Seq<(String, VolumeEntry)>) -> Seq<Seq<char>>
    decreases entries.len(),
{
    if entries.len() == 0 {
        Seq::empty()
    } else {
        let rest = names_with_options(entries.drop_last());
        if has_options(entries.last().1) {
            rest.push(entries.last().0@)
        } else {
            rest
        }
    }
}

/// The names of the volumes whose entries have options, in order, for
/// [`service_quadlet_file`].
pub fn volumes_with_options(entries: &Vec<(String, VolumeEntry)>) -> (r: Vec<String>)
    ensures
        r.deep_view() == names_with_options(entries@),
{
    let mut r: Vec<String> = Vec::new();
    let mut i: usize = 0;
    assert(r.deep_view() =~= names_with_options(entries@.subrange(0, 0)));
    while i < entries.len()
        invariant
            i <= entries@.len(),
            r.deep_view() == names_with_options(entries@.subrange(0, i as int)),
        decreases entries@.len() - i,
    {
        let ghost pre = entries@.subrange(0, i + 1);
        assert(pre.drop_last() =~= entries@.subrange(0, i as int));
        let options = match &entries[i].1 {
            VolumeEntry::Compose(v) => !(v.driver.is_none() && v.driver_opts.len() == 0
                && v.labels.len() == 0 && v.name.is_none() && !v.extensions),
            _ => false,
        };
        if options {
            let ghost before = r.deep_view();
            r.push(entries[i].0.clone());
            assert(r.deep_view() =~= before.push(entries@[i as int].0@));
        }
        i = i + 1;
    }
    assert(entries@.subrange(0, entries@.len() as int) =~= entries@);
    r
}

/// An entry of the top-level `networks` of a compose file: no definition, a definition, or a
/// network made outside the file.
#[derive(Debug, Clone, PartialEq, Eq)]
pub enum NetworkEntry {
    Default,
    Compose(ComposeNetwork),
    External,
}

/// Error returned when a network of a compose file cannot become a `.network` file.
#[derive(Debug, Clone, Copy, PartialEq, Eq)]
pub enum NetworkFileError {
    /// External networks are not supported.
    External,
    /// The network cannot become a Quadlet network.
    Network(ComposeNetworkError),
}

/// Error returned when a volume of a compose file cannot become a `.volume` file.
#[derive(Debug, Clone, PartialEq, Eq)]
pub enum VolumeFileError {
    /// External volumes are not supported.
    External,
    /// The volume cannot become a Quadlet volume.
    Volume(ComposeVolumeError),
}

/// The `[Network]` section that a network entry gives: an empty one for no definition, the
/// converted definition, or an error for an external network.
pub open spec fn network_entry_file(e: NetworkEntry, r: Result<Network, NetworkFileError>) -> bool {
    match e {
        NetworkEntry::Default => r matches Ok(n) && network_empty(n),
        NetworkEntry::External => r == Err::<Network, NetworkFileError>(NetworkFileError::External),
        NetworkEntry::Compose(c) => match r {
            Ok(n) => compose_network_converted(c, Ok(n)),
            Err(NetworkFileError::Network(x)) => compose_network_converted(c, Err(x)),
            Err(NetworkFileError::External) => false,
        },
    }
}

/// The `[Volume]` section that a volume entry gives: none for no definition or one that sets
/// no option, the converted definition, or an error for an external volume.
pub open spec fn volume_entry_file(e: VolumeEntry, r: Option<Result<QuadletVolume, VolumeFileError>>) -> bool {
    match e {
        VolumeEntry::Default => r is None,
        VolumeEntry::External => r == Some(
            Err::<QuadletVolume, VolumeFileError>(VolumeFileError::External),
        ),
        VolumeEntry::Compose(v) => if compose_volume_empty(v) {
            r is None
        } else {
            match r {
                Some(Ok(q)) => compose_volume_converted(v, Ok(q)),
                Some(Err(VolumeFileError::Volume(x))) => compose_volume_converted(v, Err(x)),
                _ => false,
            }
        },
    }
}

/// The `[Network]` sections of the networks of a compose file, one for each entry in order.
pub fn network_files(entries: Vec<(String, NetworkEntry)>) -> (r: Vec<(String, Result<Network, NetworkFileError>)>)
    ensures
        r@.len() == entries@.len(),
        forall|i: int|
            0 <= i < r@.len() ==> #[trigger] r@[i].0 == entries@[i].0 && network_entry_file(
                entries@[i].1,
                r@[i].1,
            ),
{
    let ghost all = entries@;
    let mut rest = entries;
    let mut out: Vec<(String, Result<Network, NetworkFileError>)> = Vec::new();
    while rest.len() > 0
        invariant
            out@.len() + rest@.len() == all.len(),
            rest@ == all.subrange(out@.len() as int, all.len() as int),
            forall|i: int|
                0 <= i < out@.len() ==> #[trigger] out@[i].0 == all[i].0 && network_entry_file(
                    all[i].1,
                    out@[i].1,
                ),
        decreases rest@.len(),
    {
        let ghost k = out@.len() as int;
        let (name, entry) = rest.remove(0);
        assert((name, entry) == all[k]);
        let file = match entry {
            NetworkEntry::Default => Ok(Network::new()),
            NetworkEntry::External => Err(NetworkFileError::External),
            NetworkEntry::Compose(c) => match Network::try_from_compose(c) {
                Ok(n) => Ok(n),
                Err(x) => Err(NetworkFileError::Network(x)),
            },
        };
        out.push((name, file));
        assert(rest@ =~= all.subrange(out@.len() as int, all.len() as int));
    }
    out
}

/// The `[Volume]` sections of the volumes of a compose file, one for each entry in order:
/// `None` where the entry needs no `.volume` file.
pub fn volume_files(entries: Vec<(String, VolumeEntry)>) -> (r: Vec<(String, Option<Result<QuadletVolume, VolumeFileError>>)>)
    ensures
        r@.len() == entries@.len(),
        forall|i: int|
            0 <= i < r@.len() ==> #[trigger] r@[i].0 == entries@[i].0 && volume_entry_file(
                entries@[i].1,
                r@[i].1,
            ),
{
    let ghost all = entries@;
    let mut rest = entries;
    let mut out: Vec<(String, Option<Result<QuadletVolume, VolumeFileError>>)> = Vec::new();
    while rest.len() > 0
        invariant
            out@.len() + rest@.len() == all.len(),
            rest@ == all.subrange(out@.len() as int, all.len() as int),
            forall|i: int|
                0 <= i < out@.len() ==> #[trigger] out@[i].0 == all[i].0 && volume_entry_file(
                    all[i].1,
                    out@[i].1,
                ),
        decreases rest@.len(),
    {
        let ghost k = out@.len() as int;
        let (name, entry) = rest.remove(0);
        assert((name, entry) == all[k]);
        let file = match entry {
            VolumeEntry::Default => None,
            VolumeEntry::External => Some(Err(VolumeFileError::External)),
            VolumeEntry::Compose(v) => {
                if v.driver.is_none() && v.driver_opts.len() == 0 && v.labels.len() == 0
                    && v.name.is_none() && !v.extensions {
                    None
                } else {
                    match QuadletVolume::try_from_compose(v) {
                        Ok(q) => Some(Ok(q)),
                        Err(x) => Some(Err(VolumeFileError::Volume(x))),
                    }
                }
            },
        };
        assert(volume_entry_file(all[k].1, file));
        out.push((name, file));
        assert(rest@ =~= all.subrange(out@.len() as int, all.len() as int));
    }
    out
}

} // verus!
