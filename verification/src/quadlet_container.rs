//! The `[Container]` section of a Quadlet `.container` file, and how the options of
//! `podman run` give it.

use vstd::prelude::*;

use crate::auto_update::{label_policy, labels_without_policy, AutoUpdate};
use crate::container::{PullPolicy, Unmask};
use crate::device::Device;
use crate::mount::Mount;
use crate::quadlet_options::{DnsEntry, Notify, PidsLimit, QuadletOptions};
use crate::rootfs::Rootfs;
use crate::text::{opt_seq, split_once, str_split_once};
use crate::volume::Volume;

verus! {

/// The DNS servers of a container, or none at all.
#[derive(Debug, Clone, PartialEq, Eq)]
pub enum Dns {
    /// No `/etc/resolv.conf` is created in the container.
    Disabled,
    /// These DNS servers, by IP address.
    Custom(Vec<String>),
}

/// The DNS servers that `--dns` values give: none at all where one of them is `none`, else the
/// servers, in order.
pub open spec fn dns_of_entries(entries: Seq<DnsEntry>) -> Option<Seq<String>>
    decreases entries.len(),
{
    if entries.len() == 0 {
        Some(Seq::empty())
    } else {
        match dns_of_entries(entries.drop_last()) {
            None => None,
            Some(ips) => match entries.last() {
                DnsEntry::Disabled => None,
                DnsEntry::IpAddr(ip) => Some(ips.push(ip)),
            },
        }
    }
}

/// Once a `none` is found, more entries keep it.
proof fn lemma_dns_stop(entries: Seq<DnsEntry>, j: int, n: int)
    requires
        0 <= j <= n <= entries.len(),
        dns_of_entries(entries.subrange(0, j)) is None,
    ensures
        dns_of_entries(entries.subrange(0, n)) is None,
    decreases n - j,
{
    if n > j {
        lemma_dns_stop(entries, j, n - 1);
        assert(entries.subrange(0, n).drop_last() =~= entries.subrange(0, n - 1));
    }
}

impl Dns {
    /// The DNS configuration of `--dns` values.
    #[verifier::loop_isolation(false)]
    pub fn from_entries(entries: Vec<DnsEntry>) -> (r: Dns)
        ensures
            match dns_of_entries(entries@) {
                None => r == Dns::Disabled,
                Some(ips) => r matches Dns::Custom(v) && v@ == ips,
            },
    {
        let ghost all = entries@;
        let mut rest = entries;
        let mut ips: Vec<String> = Vec::new();
        let ghost mut k: int = 0;
        assert(all.subrange(0, 0) =~= Seq::<DnsEntry>::empty());
        assert(rest@ =~= all.subrange(0, all.len() as int));
        while rest.len() > 0
            invariant
                0 <= k <= all.len(),
                rest@ == all.subrange(k, all.len() as int),
                dns_of_entries(all.subrange(0, k)) == Some(ips@),
            decreases rest.len(),
        {
            let e = rest.remove(0);
            assert(e == all[k]);
            let ghost pre = all.subrange(0, k + 1);
            assert(pre.drop_last() =~= all.subrange(0, k));
            match e {
                DnsEntry::Disabled => {
                    proof {
                        lemma_dns_stop(all, k + 1, all.len() as int);
                        assert(all.subrange(0, all.len() as int) =~= all);
                    }
                    return Dns::Disabled;
                },
                DnsEntry::IpAddr(ip) => {
                    ips.push(ip);
                },
            }
            proof {
                k = k + 1;
            }
            assert(rest@ =~= all.subrange(k, all.len() as int));
        }
        assert(all.subrange(0, k) =~= all);
        Dns::Custom(ips)
    }
}

/// Options of the `[Container]` section of a `.container` Quadlet file.
#[derive(Debug, Clone, PartialEq, Eq)]
pub struct Container {
    /// Linux capabilities added.
    pub add_capability: Vec<String>,
    /// Devices of the host added.
    pub add_device: Vec<Device>,
    /// Annotations, each "KEY=VALUE".
    pub annotation: Vec<String>,
    /// The auto-update policy.
    pub auto_update: Option<AutoUpdate>,
    /// The name of the container.
    pub container_name: Option<String>,
    /// DNS servers, or none.
    pub dns: Dns,
    /// DNS options.
    pub dns_option: Vec<String>,
    /// DNS search domains.
    pub dns_search: Vec<String>,
    /// Linux capabilities dropped.
    pub drop_capability: Vec<String>,
    /// The entrypoint of the image, overridden.
    pub entrypoint: Option<String>,
    /// Environment variables, each "NAME=VALUE".
    pub environment: Vec<String>,
    /// Files of environment variables.
    pub environment_file: Vec<String>,
    /// Use the host's environment.
    pub environment_host: bool,
    /// The command and its arguments, for `Exec=`.
    pub exec_command: Option<String>,
    /// Ports exposed on the host.
    pub expose_host_port: Vec<String>,
    /// GID mappings of the user namespace.
    pub gid_map: Vec<String>,
    /// The group the command runs as.
    pub group: Option<String>,
    /// The healthcheck option `health_cmd`.
    pub health_cmd: Option<String>,
    /// The healthcheck option `health_interval`.
    pub health_interval: Option<String>,
    /// The healthcheck option `health_on_failure`.
    pub health_on_failure: Option<String>,
    /// The healthcheck option `health_retries`.
    pub health_retries: Option<u64>,
    /// The healthcheck option `health_start_period`.
    pub health_start_period: Option<String>,
    /// The healthcheck option `health_startup_cmd`.
    pub health_startup_cmd: Option<String>,
    /// The healthcheck option `health_startup_interval`.
    pub health_startup_interval: Option<String>,
    /// The healthcheck option `health_startup_retries`.
    pub health_startup_retries: Option<u16>,
    /// The healthcheck option `health_startup_success`.
    pub health_startup_success: Option<u16>,
    /// The healthcheck option `health_startup_timeout`.
    pub health_startup_timeout: Option<String>,
    /// The healthcheck option `health_timeout`.
    pub health_timeout: Option<String>,
    /// The container's host name.
    pub host_name: Option<String>,
    /// The image to run.
    pub image: String,
    /// A static IPv4 address.
    pub ip: Option<String>,
    /// A static IPv6 address.
    pub ip6: Option<String>,
    /// Labels, each "KEY=VALUE".
    pub label: Vec<String>,
    /// The log driver.
    pub log_driver: Option<String>,
    /// Paths masked.
    pub mask: Vec<String>,
    /// Mounts.
    pub mount: Vec<Mount>,
    /// Networks.
    pub network: Vec<String>,
    /// The container cannot gain new privileges.
    pub no_new_privileges: bool,
    /// How the notify socket is used.
    pub notify: Notify,
    /// The limit on processes.
    pub pids_limit: Option<PidsLimit>,
    /// Arguments passed directly to `podman run`.
    pub podman_args: Option<String>,
    /// Published ports.
    pub publish_port: Vec<String>,
    /// The image pull policy.
    pub pull: Option<PullPolicy>,
    /// The root file system is read-only.
    pub read_only: bool,
    /// With a read-only root file system, temporary file systems are read-write.
    pub read_only_tmpfs: bool,
    /// An exploded root file system instead of an image.
    pub rootfs: Option<Rootfs>,
    /// Run an init inside the container.
    pub run_init: bool,
    /// The seccomp profile.
    pub seccomp_profile: Option<String>,
    /// Secrets.
    pub secret: Vec<String>,
    /// SELinux labeling is off.
    pub security_label_disable: bool,
    /// The SELinux file type.
    pub security_label_file_type: Option<String>,
    /// The SELinux level.
    pub security_label_level: Option<String>,
    /// SELinux allows nested containers.
    pub security_label_nested: bool,
    /// The SELinux process type.
    pub security_label_type: Option<String>,
    /// The size of `/dev/shm`.
    pub shm_size: Option<String>,
    /// Seconds to wait before the container is killed.
    pub stop_timeout: Option<u64>,
    /// The subordinate GID map's name.
    pub sub_gid_map: Option<String>,
    /// The subordinate UID map's name.
    pub sub_uid_map: Option<String>,
    /// Kernel parameters.
    pub sysctl: Vec<String>,
    /// The time zone.
    pub timezone: Option<String>,
    /// Temporary file systems.
    pub tmpfs: Vec<String>,
    /// UID mappings of the user namespace.
    pub uid_map: Vec<String>,
    /// Ulimits.
    pub ulimit: Vec<String>,
    /// Paths unmasked.
    pub unmask: Option<Unmask>,
    /// The user the command runs as.
    pub user: Option<String>,
    /// The user namespace mode.
    pub user_ns: Option<String>,
    /// Volumes.
    pub volume: Vec<Volume>,
    /// The working directory.
    pub working_dir: Option<String>,
}

/// No option is set, the image is empty, DNS servers are not set, conmon uses the notify
/// socket, and temporary file systems are read-write.
pub open spec fn container_empty(c: Container) -> bool {
    &&& c.add_capability@.len() == 0 && c.add_device@.len() == 0 && c.annotation@.len() == 0
    &&& c.auto_update is None && c.container_name is None
    &&& (c.dns matches Dns::Custom(v) && v@.len() == 0) && c.dns_option@.len() == 0
    &&& c.dns_search@.len() == 0 && c.drop_capability@.len() == 0 && c.entrypoint is None
    &&& c.environment@.len() == 0 && c.environment_file@.len() == 0 && !c.environment_host
    &&& c.exec_command is None && c.expose_host_port@.len() == 0 && c.gid_map@.len() == 0
    &&& c.group is None && c.health_cmd is None && c.health_interval is None
    &&& c.health_on_failure is None && c.health_retries is None
    &&& c.health_start_period is None && c.health_startup_cmd is None
    &&& c.health_startup_interval is None && c.health_startup_retries is None
    &&& c.health_startup_success is None && c.health_startup_timeout is None
    &&& c.health_timeout is None && c.host_name is None && c.image@.len() == 0
    &&& c.ip is None && c.ip6 is None && c.label@.len() == 0 && c.log_driver is None
    &&& c.mask@.len() == 0 && c.mount@.len() == 0 && c.network@.len() == 0
    &&& !c.no_new_privileges && c.notify == Notify::Conmon && c.pids_limit is None
    &&& c.podman_args is None && c.publish_port@.len() == 0 && c.pull is None
    &&& !c.read_only && c.read_only_tmpfs && c.rootfs is None && !c.run_init
    &&& c.seccomp_profile is None && c.secret@.len() == 0 && !c.security_label_disable
    &&& c.security_label_file_type is None && c.security_label_level is None
    &&& !c.security_label_nested && c.security_label_type is None && c.shm_size is None
    &&& c.stop_timeout is None && c.sub_gid_map is None && c.sub_uid_map is None
    &&& c.sysctl@.len() == 0 && c.timezone is None && c.tmpfs@.len() == 0
    &&& c.uid_map@.len() == 0 && c.ulimit@.len() == 0 && c.unmask is None && c.user is None
    &&& c.user_ns is None && c.volume@.len() == 0 && c.working_dir is None
}

/// The options that `podman run` options leave unset are as [`Container::new`] leaves them.
pub open spec fn options_rest_default(c: Container) -> bool {
    &&& c.exec_command is None && c.image@.len() == 0 && c.mask@.len() == 0
    &&& !c.no_new_privileges && c.podman_args is None && c.seccomp_profile is None
    &&& !c.security_label_disable && c.security_label_file_type is None
    &&& c.security_label_level is None && !c.security_label_nested
    &&& c.security_label_type is None && c.unmask is None
}

/// The user and the group of "user\[:group\]", split at the first ':'.
pub open spec fn user_group(user: Option<String>) -> (Option<Seq<char>>, Option<Seq<char>>) {
    match user {
        None => (None, None),
        Some(u) => match split_once(u@, ':') {
            Some((uid, gid)) => (Some(uid), Some(gid)),
            None => (Some(u@), None),
        },
    }
}

impl Container {
    /// A container section with no option set and an empty image.
    pub fn new() -> (c: Container)
        ensures
            container_empty(c),
    {
        Container {
            add_capability: Vec::new(),
            add_device: Vec::new(),
            annotation: Vec::new(),
            auto_update: None,
            container_name: None,
            dns: Dns::Custom(Vec::new()),
            dns_option: Vec::new(),
            dns_search: Vec::new(),
            drop_capability: Vec::new(),
            entrypoint: None,
            environment: Vec::new(),
            environment_file: Vec::new(),
            environment_host: false,
            exec_command: None,
            expose_host_port: Vec::new(),
            gid_map: Vec::new(),
            group: None,
            health_cmd: None,
            health_interval: None,
            health_on_failure: None,
            health_retries: None,
            health_start_period: None,
            health_startup_cmd: None,
            health_startup_interval: None,
            health_startup_retries: None,
            health_startup_success: None,
            health_startup_timeout: None,
            health_timeout: None,
            host_name: None,
            image: String::new(),
            ip: None,
            ip6: None,
            label: Vec::new(),
            log_driver: None,
            mask: Vec::new(),
            mount: Vec::new(),
            network: Vec::new(),
            no_new_privileges: false,
            notify: Notify::Conmon,
            pids_limit: None,
            podman_args: None,
            publish_port: Vec::new(),
            pull: None,
            read_only: false,
            read_only_tmpfs: true,
            rootfs: None,
            run_init: false,
            seccomp_profile: None,
            secret: Vec::new(),
            security_label_disable: false,
            security_label_file_type: None,
            security_label_level: None,
            security_label_nested: false,
            security_label_type: None,
            shm_size: None,
            stop_timeout: None,
            sub_gid_map: None,
            sub_uid_map: None,
            sysctl: Vec::new(),
            timezone: None,
            tmpfs: Vec::new(),
            uid_map: Vec::new(),
            ulimit: Vec::new(),
            unmask: None,
            user: None,
            user_ns: None,
            volume: Vec::new(),
            working_dir: None,
        }
    }
}

impl Default for Container {
    fn default() -> (c: Container)
        ensures
            container_empty(c),
    {
        Container::new()
    }
}

/// The options of a container section that `podman run` options give, apart from those that
/// the options leave unset (see [`options_rest_default`]): each option under its Quadlet name;
/// the auto-update policy taken from the labels, which keep the others; `--user` split at the
/// first ':' into the user and the group; the DNS servers, or none where a `--dns` is `none`.
pub open spec fn from_options(options: QuadletOptions, c: Container) -> bool {
    &&& c.add_capability@ == options.cap_add@
    &&& c.add_device@ == options.device@
    &&& c.annotation@ == options.annotation@
    &&& c.container_name == options.name
    &&& c.dns_option@ == options.dns_option@
    &&& c.dns_search@ == options.dns_search@
    &&& c.drop_capability@ == options.cap_drop@
    &&& c.entrypoint == options.entrypoint
    &&& c.environment@ == options.env@
    &&& c.environment_file@ == options.env_file@
    &&& c.environment_host == options.env_host
    &&& c.expose_host_port@ == options.expose@
    &&& c.gid_map@ == options.gidmap@
    &&& c.health_cmd == options.health_cmd
    &&& c.health_interval == options.health_interval
    &&& c.health_on_failure == options.health_on_failure
    &&& c.health_retries == options.health_retries
    &&& c.health_start_period == options.health_start_period
    &&& c.health_startup_cmd == options.health_startup_cmd
    &&& c.health_startup_interval == options.health_startup_interval
    &&& c.health_startup_retries == options.health_startup_retries
    &&& c.health_startup_success == options.health_startup_success
    &&& c.health_startup_timeout == options.health_startup_timeout
    &&& c.health_timeout == options.health_timeout
    &&& c.host_name == options.hostname
    &&& c.ip == options.ip
    &&& c.ip6 == options.ip6
    &&& c.log_driver == options.log_driver
    &&& c.mount@ == options.mount@
    &&& c.network@ == options.network@
    &&& c.notify == options.sdnotify
    &&& c.pids_limit == options.pids_limit
    &&& c.publish_port@ == options.publish@
    &&& c.pull == options.pull
    &&& c.read_only == options.read_only
    &&& c.read_only_tmpfs == options.read_only_tmpfs
    &&& c.rootfs == options.rootfs
    &&& c.run_init == options.init
    &&& c.secret@ == options.secret@
    &&& c.shm_size == options.shm_size
    &&& c.stop_timeout == options.stop_timeout
    &&& c.sub_gid_map == options.subgidname
    &&& c.sub_uid_map == options.subuidname
    &&& c.sysctl@ == options.sysctl@
    &&& c.timezone == options.tz
    &&& c.tmpfs@ == options.tmpfs@
    &&& c.uid_map@ == options.uidmap@
    &&& c.ulimit@ == options.ulimit@
    &&& c.user_ns == options.userns
    &&& c.volume@ == options.volume@
    &&& c.working_dir == options.workdir
    &&& c.auto_update == label_policy(options.label.deep_view())
    &&& c.label.deep_view() == labels_without_policy(options.label.deep_view())
    &&& (opt_seq(c.user), opt_seq(c.group)) == user_group(options.user)
    &&& match dns_of_entries(options.dns@) {
        None => c.dns == Dns::Disabled,
        Some(ips) => c.dns matches Dns::Custom(v) && v@ == ips,
    }
}

/// The container section that `podman run` options give: each option under its Quadlet name;
/// the auto-update policy taken from the labels, which keep the others; `--user` split at the
/// first ':' into the user and the group; the DNS servers, or none where a `--dns` is `none`.
pub fn container_from_options(options: QuadletOptions) -> (c: Container)
    ensures
        from_options(options, c),
        options_rest_default(c),
{
    let ghost o = options;
    let mut label = options.label;
    let auto_update = AutoUpdate::extract_from_labels(&mut label);
    let (user, group) = match options.user {
        None => (None, None),
        Some(u) => match str_split_once(u.as_str(), ':') {
            Some((uid, gid)) => (Some(uid), Some(gid)),
            None => (Some(u), None),
        },
    };
    let dns = Dns::from_entries(options.dns);
    let mut c = Container::new();
    c.add_capability = options.cap_add;
    c.add_device = options.device;
    c.annotation = options.annotation;
    c.container_name = options.name;
    c.dns_option = options.dns_option;
    c.dns_search = options.dns_search;
    c.drop_capability = options.cap_drop;
    c.entrypoint = options.entrypoint;
    c.environment = options.env;
    c.environment_file = options.env_file;
    c.environment_host = options.env_host;
    c.expose_host_port = options.expose;
    c.gid_map = options.gidmap;
    c.health_cmd = options.health_cmd;
    c.health_interval = options.health_interval;
    c.health_on_failure = options.health_on_failure;
    c.health_retries = options.health_retries;
    c.health_start_period = options.health_start_period;
    c.health_startup_cmd = options.health_startup_cmd;
    c.health_startup_interval = options.health_startup_interval;
    c.health_startup_retries = options.health_startup_retries;
    c.health_startup_success = options.health_startup_success;
    c.health_startup_timeout = options.health_startup_timeout;
    c.health_timeout = options.health_timeout;
    c.host_name = options.hostname;
    c.ip = options.ip;
    c.ip6 = options.ip6;
    c.log_driver = options.log_driver;
    c.mount = options.mount;
    c.network = options.network;
    c.notify = options.sdnotify;
    c.pids_limit = options.pids_limit;
    c.publish_port = options.publish;
    c.pull = options.pull;
    c.read_only = options.read_only;
    c.read_only_tmpfs = options.read_only_tmpfs;
    c.rootfs = options.rootfs;
    c.run_init = options.init;
    c.secret = options.secret;
    c.shm_size = options.shm_size;
    c.stop_timeout = options.stop_timeout;
    c.sub_gid_map = options.subgidname;
    c.sub_uid_map = options.subuidname;
    c.sysctl = options.sysctl;
    c.timezone = options.tz;
    c.tmpfs = options.tmpfs;
    c.uid_map = options.uidmap;
    c.ulimit = options.ulimit;
    c.user_ns = options.userns;
    c.volume = options.volume;
    c.working_dir = options.workdir;
    c.auto_update = auto_update;
    c.dns = dns;
    c.label = label;
    c.user = user;
    c.group = group;
    c
}

} // verus!
