//! The options of `podman run` that Quadlet has no option for, passed to Podman as arguments,
//! and how they are made from a compose service.
//!
//! Paths are held as their text, and so are the number of CPUs and the byte values and other
//! compose values that are written as text.

use vstd::prelude::*;

use crate::text::opt_seq;

use crate::args_ser::{args_text, to_string as args_to_string, valid_flag, with_flag, ErrorKind};
use crate::global_args::{list_args, opt_arg, opt_bool_arg, optional_bool, optional_text, push_field, strings};
use crate::compose_service::{ipc_value, validate_ipc, Ipc, NamespaceModeErr, NamespaceModeError};
use crate::num::{decimal, decimal_string, signed_decimal};
use crate::pod::Duration;
use crate::text::{push_char, push_str};
use crate::value::{Field, Value};

verus! {

/// Options of `podman run` that Quadlet has no option for.
#[derive(Debug, Clone, PartialEq, Eq)]
pub struct PodmanArgs {
    pub add_host: Vec<String>,
    pub arch: Option<String>,
    pub attach: Vec<String>,
    pub authfile: Option<String>,
    pub blkio_weight: Option<u16>,
    pub blkio_weight_device: Vec<String>,
    pub cgroup_conf: Vec<String>,
    pub cgroup_parent: Option<String>,
    pub cgroupns: Option<String>,
    pub cgroups: Option<String>,
    pub chrootdirs: Option<String>,
    pub cidfile: Option<String>,
    pub conmon_pidfile: Option<String>,
    pub cpu_period: Option<u128>,
    pub cpu_quota: Option<u128>,
    pub cpu_rt_period: Option<u128>,
    pub cpu_rt_runtime: Option<u128>,
    pub cpu_shares: Option<u64>,
    pub cpus: Option<String>,
    pub cpuset_cpus: Option<String>,
    pub cpuset_mems: Option<String>,
    pub decryption_key: Option<String>,
    pub detach: bool,
    pub detach_keys: Option<String>,
    pub device_cgroup_rule: Vec<String>,
    pub device_read_bps: Vec<String>,
    pub device_read_iops: Vec<String>,
    pub device_write_bps: Vec<String>,
    pub device_write_iops: Vec<String>,
    pub disable_content_trust: bool,
    pub env_merge: Vec<String>,
    pub group_add: Vec<String>,
    pub group_entry: Option<String>,
    pub hostuser: Vec<String>,
    pub http_proxy: bool,
    pub image_volume: Option<String>,
    pub init_path: Option<String>,
    pub interactive: bool,
    pub ipc: Option<String>,
    pub label_file: Option<String>,
    pub link_local_ip: Option<String>,
    pub log_opt: Vec<String>,
    pub mac_address: Option<String>,
    pub memory: Option<String>,
    pub memory_reservation: Option<String>,
    pub memory_swap: Option<String>,
    pub memory_swappiness: Option<u8>,
    pub network_alias: Option<String>,
    pub no_healthcheck: bool,
    pub no_hosts: bool,
    pub oom_kill_disable: bool,
    pub oom_score_adj: Option<i16>,
    pub os: Option<String>,
    pub passwd: bool,
    pub passwd_entry: Option<String>,
    pub personality: Option<String>,
    pub pid: Option<String>,
    pub pidfile: Option<String>,
    pub platform: Option<String>,
    pub pod: Option<String>,
    pub pod_id_file: Option<String>,
    pub preserve_fd: Option<String>,
    pub preserve_fds: Option<u16>,
    pub privileged: bool,
    pub publish_all: bool,
    pub quiet: bool,
    pub replace: bool,
    pub requires: Option<String>,
    pub rm: bool,
    pub rmi: bool,
    pub seccomp_policy: Option<String>,
    pub shm_size_systemd: Option<String>,
    pub sig_proxy: bool,
    pub stop_signal: Option<String>,
    pub systemd: Option<String>,
    pub timeout: Option<u16>,
    pub tls_verify: Option<bool>,
    pub tty: bool,
    pub umask: Option<String>,
    pub uts: Option<String>,
    pub variant: Option<String>,
    pub volumes_from: Vec<String>,
}

/// The decimal text of an optional number.
pub open spec fn nat_text(o: Option<nat>) -> Option<Seq<char>> {
    match o {
        Some(n) => Some(decimal(n)),
        None => None,
    }
}

/// The decimal text of an optional `u128`.
pub open spec fn u128_text(o: Option<u128>) -> Option<Seq<char>> {
    nat_text(match o { Some(n) => Some(n as nat), None => None })
}

/// The decimal text of an optional `u64`.
pub open spec fn u64_text(o: Option<u64>) -> Option<Seq<char>> {
    nat_text(match o { Some(n) => Some(n as nat), None => None })
}

/// The decimal text of an optional `u16`.
pub open spec fn u16_text(o: Option<u16>) -> Option<Seq<char>> {
    nat_text(match o { Some(n) => Some(n as nat), None => None })
}

/// The decimal text of an optional `u8`.
pub open spec fn u8_text(o: Option<u8>) -> Option<Seq<char>> {
    nat_text(match o { Some(n) => Some(n as nat), None => None })
}

/// The decimal text, with its sign, of an optional `i16`.
pub open spec fn i16_text(o: Option<i16>) -> Option<Seq<char>> {
    match o {
        Some(n) => Some(signed_decimal(n as int)),
        None => None,
    }
}
/// The arguments of one part of the options of [`PodmanArgs`], after `out`.
pub open spec fn args_part_0(a: PodmanArgs, out: Seq<char>) -> Seq<char> {
    let o = out;
    let o = list_args(o, "add-host"@, a.add_host@);
    let o = opt_arg(o, "arch"@, opt_seq(a.arch));
    let o = list_args(o, "attach"@, a.attach@);
    let o = opt_arg(o, "authfile"@, opt_seq(a.authfile));
    let o = opt_arg(o, "blkio-weight"@, u16_text(a.blkio_weight));
    let o = list_args(o, "blkio-weight-device"@, a.blkio_weight_device@);
    let o = list_args(o, "cgroup-conf"@, a.cgroup_conf@);
    let o = opt_arg(o, "cgroup-parent"@, opt_seq(a.cgroup_parent));
    let o = opt_arg(o, "cgroupns"@, opt_seq(a.cgroupns));
    let o = opt_arg(o, "cgroups"@, opt_seq(a.cgroups));
    let o = opt_arg(o, "chrootdirs"@, opt_seq(a.chrootdirs));
    let o = opt_arg(o, "cidfile"@, opt_seq(a.cidfile));
    let o = opt_arg(o, "conmon-pidfile"@, opt_seq(a.conmon_pidfile));
    let o = opt_arg(o, "cpu-period"@, u128_text(a.cpu_period));
    o
}

/// The arguments of one part of the options of [`PodmanArgs`], after `out`.
pub open spec fn args_part_1(a: PodmanArgs, out: Seq<char>) -> Seq<char> {
    let o = out;
    let o = opt_arg(o, "cpu-quota"@, u128_text(a.cpu_quota));
    let o = opt_arg(o, "cpu-rt-period"@, u128_text(a.cpu_rt_period));
    let o = opt_arg(o, "cpu-rt-runtime"@, u128_text(a.cpu_rt_runtime));
    let o = opt_arg(o, "cpu-shares"@, u64_text(a.cpu_shares));
    let o = opt_arg(o, "cpus"@, opt_seq(a.cpus));
    let o = opt_arg(o, "cpuset-cpus"@, opt_seq(a.cpuset_cpus));
    let o = opt_arg(o, "cpuset-mems"@, opt_seq(a.cpuset_mems));
    let o = opt_arg(o, "decryption-key"@, opt_seq(a.decryption_key));
    let o = opt_arg(o, "detach-keys"@, opt_seq(a.detach_keys));
    let o = list_args(o, "device-cgroup-rule"@, a.device_cgroup_rule@);
    let o = list_args(o, "device-read-bps"@, a.device_read_bps@);
    let o = list_args(o, "device-read-iops"@, a.device_read_iops@);
    let o = list_args(o, "device-write-bps"@, a.device_write_bps@);
    let o = list_args(o, "device-write-iops"@, a.device_write_iops@);
    o
}

/// The arguments of one part of the options of [`PodmanArgs`], after `out`.
pub open spec fn args_part_2(a: PodmanArgs, out: Seq<char>) -> Seq<char> {
    let o = out;
    let o = (if a.disable_content_trust { with_flag(o, "disable-content-trust"@) } else { o });
    let o = list_args(o, "env-merge"@, a.env_merge@);
    let o = list_args(o, "group-add"@, a.group_add@);
    let o = opt_arg(o, "group-entry"@, opt_seq(a.group_entry));
    let o = list_args(o, "hostuser"@, a.hostuser@);
    let o = (if a.http_proxy { o } else { with_flag(o, "http-proxy"@) + "=false"@ });
    let o = opt_arg(o, "image-volume"@, opt_seq(a.image_volume));
    let o = opt_arg(o, "init-path"@, opt_seq(a.init_path));
    let o = (if a.interactive { with_flag(o, "interactive"@) } else { o });
    let o = opt_arg(o, "ipc"@, opt_seq(a.ipc));
    let o = opt_arg(o, "label-file"@, opt_seq(a.label_file));
    let o = opt_arg(o, "link-local-ip"@, opt_seq(a.link_local_ip));
    let o = list_args(o, "log-opt"@, a.log_opt@);
    let o = opt_arg(o, "mac-address"@, opt_seq(a.mac_address));
    o
}

/// The arguments of one part of the options of [`PodmanArgs`], after `out`.
pub open spec fn args_part_3(a: PodmanArgs, out: Seq<char>) -> Seq<char> {
    let o = out;
    let o = opt_arg(o, "memory"@, opt_seq(a.memory));
    let o = opt_arg(o, "memory-reservation"@, opt_seq(a.memory_reservation));
    let o = opt_arg(o, "memory-swap"@, opt_seq(a.memory_swap));
    let o = opt_arg(o, "memory-swappiness"@, u8_text(a.memory_swappiness));
    let o = opt_arg(o, "network-alias"@, opt_seq(a.network_alias));
    let o = (if a.no_healthcheck { with_flag(o, "no-healthcheck"@) } else { o });
    let o = (if a.no_hosts { with_flag(o, "no-hosts"@) } else { o });
    let o = (if a.oom_kill_disable { with_flag(o, "oom-kill-disable"@) } else { o });
    let o = opt_arg(o, "oom-score-adj"@, i16_text(a.oom_score_adj));
    let o = opt_arg(o, "os"@, opt_seq(a.os));
    let o = (if a.passwd { with_flag(o, "passwd"@) } else { o });
    let o = opt_arg(o, "passwd-entry"@, opt_seq(a.passwd_entry));
    let o = opt_arg(o, "personality"@, opt_seq(a.personality));
    let o = opt_arg(o, "pid"@, opt_seq(a.pid));
    o
}

/// The arguments of one part of the options of [`PodmanArgs`], after `out`.
pub open spec fn args_part_4(a: PodmanArgs, out: Seq<char>) -> Seq<char> {
    let o = out;
    let o = opt_arg(o, "pidfile"@, opt_seq(a.pidfile));
    let o = opt_arg(o, "platform"@, opt_seq(a.platform));
    let o = opt_arg(o, "pod"@, opt_seq(a.pod));
    let o = opt_arg(o, "pod-id-file"@, opt_seq(a.pod_id_file));
    let o = opt_arg(o, "preserve-fd"@, opt_seq(a.preserve_fd));
    let o = opt_arg(o, "preserve-fds"@, u16_text(a.preserve_fds));
    let o = (if a.privileged { with_flag(o, "privileged"@) } else { o });
    let o = (if a.publish_all { with_flag(o, "publish-all"@) } else { o });
    let o = (if a.quiet { with_flag(o, "quiet"@) } else { o });
    let o = opt_arg(o, "requires"@, opt_seq(a.requires));
    let o = (if a.rmi { with_flag(o, "rmi"@) } else { o });
    let o = opt_arg(o, "seccomp-policy"@, opt_seq(a.seccomp_policy));
    let o = opt_arg(o, "shm-size-systemd"@, opt_seq(a.shm_size_systemd));
    let o = (if a.sig_proxy { o } else { with_flag(o, "sig-proxy"@) + "=false"@ });
    o
}

/// The arguments of one part of the options of [`PodmanArgs`], after `out`.
pub open spec fn args_part_5(a: PodmanArgs, out: Seq<char>) -> Seq<char> {
    let o = out;
    let o = opt_arg(o, "stop-signal"@, opt_seq(a.stop_signal));
    let o = opt_arg(o, "systemd"@, opt_seq(a.systemd));
    let o = opt_arg(o, "timeout"@, u16_text(a.timeout));
    let o = opt_bool_arg(o, "tls-verify"@, a.tls_verify);
    let o = (if a.tty { with_flag(o, "tty"@) } else { o });
    let o = opt_arg(o, "umask"@, opt_seq(a.umask));
    let o = opt_arg(o, "uts"@, opt_seq(a.uts));
    let o = opt_arg(o, "variant"@, opt_seq(a.variant));
    let o = list_args(o, "volumes-from"@, a.volumes_from@);
    o
}

/// The arguments of [`PodmanArgs`]: each option that is set as `--flag value`, in the order of
/// the fields; flags that are on by default only as `--flag=false`.
pub open spec fn podman_args_text(a: PodmanArgs) -> Seq<char> {
    args_part_5(a, args_part_4(a, args_part_3(a, args_part_2(a, args_part_1(a, args_part_0(a, Seq::<char>::empty()))))))
}

/// The flags of one part of [`PodmanArgs`] are non-empty and hold no whitespace.
proof fn lemma_flags_0()
    ensures
        valid_flag("add-host"@),
        valid_flag("arch"@),
        valid_flag("attach"@),
        valid_flag("authfile"@),
        valid_flag("blkio-weight"@),
        valid_flag("blkio-weight-device"@),
        valid_flag("cgroup-conf"@),
        valid_flag("cgroup-parent"@),
        valid_flag("cgroupns"@),
        valid_flag("cgroups"@),
        valid_flag("chrootdirs"@),
        valid_flag("cidfile"@),
        valid_flag("conmon-pidfile"@),
        valid_flag("cpu-period"@),
{
    reveal_strlit("add-host");
    reveal_strlit("arch");
    reveal_strlit("attach");
    reveal_strlit("authfile");
    reveal_strlit("blkio-weight");
    reveal_strlit("blkio-weight-device");
    reveal_strlit("cgroup-conf");
    reveal_strlit("cgroup-parent");
    reveal_strlit("cgroupns");
    reveal_strlit("cgroups");
    reveal_strlit("chrootdirs");
    reveal_strlit("cidfile");
    reveal_strlit("conmon-pidfile");
    reveal_strlit("cpu-period");
}

/// The flags of one part of [`PodmanArgs`] are non-empty and hold no whitespace.
proof fn lemma_flags_1()
    ensures
        valid_flag("cpu-quota"@),
        valid_flag("cpu-rt-period"@),
        valid_flag("cpu-rt-runtime"@),
        valid_flag("cpu-shares"@),
        valid_flag("cpus"@),
        valid_flag("cpuset-cpus"@),
        valid_flag("cpuset-mems"@),
        valid_flag("decryption-key"@),
        valid_flag("detach-keys"@),
        valid_flag("device-cgroup-rule"@),
        valid_flag("device-read-bps"@),
        valid_flag("device-read-iops"@),
        valid_flag("device-write-bps"@),
        valid_flag("device-write-iops"@),
{
    reveal_strlit("cpu-quota");
    reveal_strlit("cpu-rt-period");
    reveal_strlit("cpu-rt-runtime");
    reveal_strlit("cpu-shares");
    reveal_strlit("cpus");
    reveal_strlit("cpuset-cpus");
    reveal_strlit("cpuset-mems");
    reveal_strlit("decryption-key");
    reveal_strlit("detach-keys");
    reveal_strlit("device-cgroup-rule");
    reveal_strlit("device-read-bps");
    reveal_strlit("device-read-iops");
    reveal_strlit("device-write-bps");
    reveal_strlit("device-write-iops");
}

/// The flags of one part of [`PodmanArgs`] are non-empty and hold no whitespace.
proof fn lemma_flags_2()
    ensures
        valid_flag("disable-content-trust"@),
        valid_flag("env-merge"@),
        valid_flag("group-add"@),
        valid_flag("group-entry"@),
        valid_flag("hostuser"@),
        valid_flag("http-proxy"@),
        valid_flag("image-volume"@),
        valid_flag("init-path"@),
        valid_flag("interactive"@),
        valid_flag("ipc"@),
        valid_flag("label-file"@),
        valid_flag("link-local-ip"@),
        valid_flag("log-opt"@),
        valid_flag("mac-address"@),
{
    reveal_strlit("disable-content-trust");
    reveal_strlit("env-merge");
    reveal_strlit("group-add");
    reveal_strlit("group-entry");
    reveal_strlit("hostuser");
    reveal_strlit("http-proxy");
    reveal_strlit("image-volume");
    reveal_strlit("init-path");
    reveal_strlit("interactive");
    reveal_strlit("ipc");
    reveal_strlit("label-file");
    reveal_strlit("link-local-ip");
    reveal_strlit("log-opt");
    reveal_strlit("mac-address");
}

/// The flags of one part of [`PodmanArgs`] are non-empty and hold no whitespace.
proof fn lemma_flags_3()
    ensures
        valid_flag("memory"@),
        valid_flag("memory-reservation"@),
        valid_flag("memory-swap"@),
        valid_flag("memory-swappiness"@),
        valid_flag("network-alias"@),
        valid_flag("no-healthcheck"@),
        valid_flag("no-hosts"@),
        valid_flag("oom-kill-disable"@),
        valid_flag("oom-score-adj"@),
        valid_flag("os"@),
        valid_flag("passwd"@),
        valid_flag("passwd-entry"@),
        valid_flag("personality"@),
        valid_flag("pid"@),
{
    reveal_strlit("memory");
    reveal_strlit("memory-reservation");
    reveal_strlit("memory-swap");
    reveal_strlit("memory-swappiness");
    reveal_strlit("network-alias");
    reveal_strlit("no-healthcheck");
    reveal_strlit("no-hosts");
    reveal_strlit("oom-kill-disable");
    reveal_strlit("oom-score-adj");
    reveal_strlit("os");
    reveal_strlit("passwd");
    reveal_strlit("passwd-entry");
    reveal_strlit("personality");
    reveal_strlit("pid");
}

/// The flags of one part of [`PodmanArgs`] are non-empty and hold no whitespace.
proof fn lemma_flags_4()
    ensures
        valid_flag("pidfile"@),
        valid_flag("platform"@),
        valid_flag("pod"@),
        valid_flag("pod-id-file"@),
        valid_flag("preserve-fd"@),
        valid_flag("preserve-fds"@),
        valid_flag("privileged"@),
        valid_flag("publish-all"@),
        valid_flag("quiet"@),
        valid_flag("requires"@),
        valid_flag("rmi"@),
        valid_flag("seccomp-policy"@),
        valid_flag("shm-size-systemd"@),
        valid_flag("sig-proxy"@),
{
    reveal_strlit("pidfile");
    reveal_strlit("platform");
    reveal_strlit("pod");
    reveal_strlit("pod-id-file");
    reveal_strlit("preserve-fd");
    reveal_strlit("preserve-fds");
    reveal_strlit("privileged");
    reveal_strlit("publish-all");
    reveal_strlit("quiet");
    reveal_strlit("requires");
    reveal_strlit("rmi");
    reveal_strlit("seccomp-policy");
    reveal_strlit("shm-size-systemd");
    reveal_strlit("sig-proxy");
}

/// The flags of one part of [`PodmanArgs`] are non-empty and hold no whitespace.
proof fn lemma_flags_5()
    ensures
        valid_flag("stop-signal"@),
        valid_flag("systemd"@),
        valid_flag("timeout"@),
        valid_flag("tls-verify"@),
        valid_flag("tty"@),
        valid_flag("umask"@),
        valid_flag("uts"@),
        valid_flag("variant"@),
        valid_flag("volumes-from"@),
{
    reveal_strlit("stop-signal");
    reveal_strlit("systemd");
    reveal_strlit("timeout");
    reveal_strlit("tls-verify");
    reveal_strlit("tty");
    reveal_strlit("umask");
    reveal_strlit("uts");
    reveal_strlit("variant");
    reveal_strlit("volumes-from");
}

/// An optional number as an option's value.
fn optional_number(o: Option<u128>) -> (r: Value)
    ensures
        forall|out: Seq<char>, flag: Seq<char>|
            #[trigger] crate::args_ser::flag_value(out, flag, r) == Ok::<Seq<char>, ErrorKind>(
                opt_arg(out, flag, u128_text(o)),
            ),
{
    match o {
        Some(n) => {
            let inner = Value::Unsigned(n);
            assert forall|out: Seq<char>, flag: Seq<char>|
                #[trigger] crate::args_ser::flag_value(out, flag, Value::OptionSome(Box::new(inner)))
                    == Ok::<Seq<char>, ErrorKind>(opt_arg(out, flag, u128_text(o))) by {
                assert(crate::args_ser::flag_value(out, flag, inner) == Ok::<Seq<char>, ErrorKind>(
                    opt_arg(out, flag, u128_text(o)),
                ));
            }
            Value::OptionSome(Box::new(inner))
        },
        None => Value::OptionNone,
    }
}

/// An optional signed number as an option's value.
fn optional_signed(o: Option<i16>) -> (r: Value)
    ensures
        forall|out: Seq<char>, flag: Seq<char>|
            #[trigger] crate::args_ser::flag_value(out, flag, r) == Ok::<Seq<char>, ErrorKind>(
                opt_arg(out, flag, i16_text(o)),
            ),
{
    match o {
        Some(n) => {
            let inner = Value::Signed(n as i128);
            assert forall|out: Seq<char>, flag: Seq<char>|
                #[trigger] crate::args_ser::flag_value(out, flag, Value::OptionSome(Box::new(inner)))
                    == Ok::<Seq<char>, ErrorKind>(opt_arg(out, flag, i16_text(o))) by {
                assert(crate::args_ser::flag_value(out, flag, inner) == Ok::<Seq<char>, ErrorKind>(
                    opt_arg(out, flag, i16_text(o)),
                ));
            }
            Value::OptionSome(Box::new(inner))
        },
        None => Value::OptionNone,
    }
}

/// Appends the fields of one part of [`PodmanArgs`].
fn push_part_0(a: &PodmanArgs, fields: &mut Vec<Field>, Ghost(out): Ghost<Seq<char>>)
    requires
        crate::args_ser::fields_args(Seq::<char>::empty(), old(fields)@) == Ok::<Seq<char>, ErrorKind>(out),
    ensures
        crate::args_ser::fields_args(Seq::<char>::empty(), final(fields)@) == Ok::<Seq<char>, ErrorKind>(
            args_part_0(*a, out),
        ),
{
    proof {
        lemma_flags_0();
    }
    let ghost mut o = out;
    push_field(fields, "add-host", strings(&a.add_host), Ghost(o));
    proof {
        o = list_args(o, "add-host"@, a.add_host@);
    }
    push_field(fields, "arch", optional_text(&a.arch), Ghost(o));
    proof {
        o = opt_arg(o, "arch"@, opt_seq(a.arch));
    }
    push_field(fields, "attach", strings(&a.attach), Ghost(o));
    proof {
        o = list_args(o, "attach"@, a.attach@);
    }
    push_field(fields, "authfile", optional_text(&a.authfile), Ghost(o));
    proof {
        o = opt_arg(o, "authfile"@, opt_seq(a.authfile));
    }
    push_field(fields, "blkio-weight", optional_number(match a.blkio_weight {
                Some(n) => Some(n as u128),
                None => None,
            }), Ghost(o));
    proof {
        o = opt_arg(o, "blkio-weight"@, u16_text(a.blkio_weight));
    }
    push_field(fields, "blkio-weight-device", strings(&a.blkio_weight_device), Ghost(o));
    proof {
        o = list_args(o, "blkio-weight-device"@, a.blkio_weight_device@);
    }
    push_field(fields, "cgroup-conf", strings(&a.cgroup_conf), Ghost(o));
    proof {
        o = list_args(o, "cgroup-conf"@, a.cgroup_conf@);
    }
    push_field(fields, "cgroup-parent", optional_text(&a.cgroup_parent), Ghost(o));
    proof {
        o = opt_arg(o, "cgroup-parent"@, opt_seq(a.cgroup_parent));
    }
    push_field(fields, "cgroupns", optional_text(&a.cgroupns), Ghost(o));
    proof {
        o = opt_arg(o, "cgroupns"@, opt_seq(a.cgroupns));
    }
    push_field(fields, "cgroups", optional_text(&a.cgroups), Ghost(o));
    proof {
        o = opt_arg(o, "cgroups"@, opt_seq(a.cgroups));
    }
    push_field(fields, "chrootdirs", optional_text(&a.chrootdirs), Ghost(o));
    proof {
        o = opt_arg(o, "chrootdirs"@, opt_seq(a.chrootdirs));
    }
    push_field(fields, "cidfile", optional_text(&a.cidfile), Ghost(o));
    proof {
        o = opt_arg(o, "cidfile"@, opt_seq(a.cidfile));
    }
    push_field(fields, "conmon-pidfile", optional_text(&a.conmon_pidfile), Ghost(o));
    proof {
        o = opt_arg(o, "conmon-pidfile"@, opt_seq(a.conmon_pidfile));
    }
    push_field(fields, "cpu-period", optional_number(a.cpu_period), Ghost(o));
    proof {
        o = opt_arg(o, "cpu-period"@, u128_text(a.cpu_period));
    }
}

/// Appends the fields of one part of [`PodmanArgs`].
fn push_part_1(a: &PodmanArgs, fields: &mut Vec<Field>, Ghost(out): Ghost<Seq<char>>)
    requires
        crate::args_ser::fields_args(Seq::<char>::empty(), old(fields)@) == Ok::<Seq<char>, ErrorKind>(out),
    ensures
        crate::args_ser::fields_args(Seq::<char>::empty(), final(fields)@) == Ok::<Seq<char>, ErrorKind>(
            args_part_1(*a, out),
        ),
{
    proof {
        lemma_flags_1();
    }
    let ghost mut o = out;
    push_field(fields, "cpu-quota", optional_number(a.cpu_quota), Ghost(o));
    proof {
        o = opt_arg(o, "cpu-quota"@, u128_text(a.cpu_quota));
    }
    push_field(fields, "cpu-rt-period", optional_number(a.cpu_rt_period), Ghost(o));
    proof {
        o = opt_arg(o, "cpu-rt-period"@, u128_text(a.cpu_rt_period));
    }
    push_field(fields, "cpu-rt-runtime", optional_number(a.cpu_rt_runtime), Ghost(o));
    proof {
        o = opt_arg(o, "cpu-rt-runtime"@, u128_text(a.cpu_rt_runtime));
    }
    push_field(fields, "cpu-shares", optional_number(match a.cpu_shares {
                Some(n) => Some(n as u128),
                None => None,
            }), Ghost(o));
    proof {
        o = opt_arg(o, "cpu-shares"@, u64_text(a.cpu_shares));
    }
    push_field(fields, "cpus", optional_text(&a.cpus), Ghost(o));
    proof {
        o = opt_arg(o, "cpus"@, opt_seq(a.cpus));
    }
    push_field(fields, "cpuset-cpus", optional_text(&a.cpuset_cpus), Ghost(o));
    proof {
        o = opt_arg(o, "cpuset-cpus"@, opt_seq(a.cpuset_cpus));
    }
    push_field(fields, "cpuset-mems", optional_text(&a.cpuset_mems), Ghost(o));
    proof {
        o = opt_arg(o, "cpuset-mems"@, opt_seq(a.cpuset_mems));
    }
    push_field(fields, "decryption-key", optional_text(&a.decryption_key), Ghost(o));
    proof {
        o = opt_arg(o, "decryption-key"@, opt_seq(a.decryption_key));
    }
    push_field(fields, "detach-keys", optional_text(&a.detach_keys), Ghost(o));
    proof {
        o = opt_arg(o, "detach-keys"@, opt_seq(a.detach_keys));
    }
    push_field(fields, "device-cgroup-rule", strings(&a.device_cgroup_rule), Ghost(o));
    proof {
        o = list_args(o, "device-cgroup-rule"@, a.device_cgroup_rule@);
    }
    push_field(fields, "device-read-bps", strings(&a.device_read_bps), Ghost(o));
    proof {
        o = list_args(o, "device-read-bps"@, a.device_read_bps@);
    }
    push_field(fields, "device-read-iops", strings(&a.device_read_iops), Ghost(o));
    proof {
        o = list_args(o, "device-read-iops"@, a.device_read_iops@);
    }
    push_field(fields, "device-write-bps", strings(&a.device_write_bps), Ghost(o));
    proof {
        o = list_args(o, "device-write-bps"@, a.device_write_bps@);
    }
    push_field(fields, "device-write-iops", strings(&a.device_write_iops), Ghost(o));
    proof {
        o = list_args(o, "device-write-iops"@, a.device_write_iops@);
    }
}

/// Appends the fields of one part of [`PodmanArgs`].
fn push_part_2(a: &PodmanArgs, fields: &mut Vec<Field>, Ghost(out): Ghost<Seq<char>>)
    requires
        crate::args_ser::fields_args(Seq::<char>::empty(), old(fields)@) == Ok::<Seq<char>, ErrorKind>(out),
    ensures
        crate::args_ser::fields_args(Seq::<char>::empty(), final(fields)@) == Ok::<Seq<char>, ErrorKind>(
            args_part_2(*a, out),
        ),
{
    proof {
        lemma_flags_2();
    }
    let ghost mut o = out;
    if a.disable_content_trust {
        push_field(fields, "disable-content-trust", Value::Bool(true), Ghost(o));
    }
    proof {
        o = (if a.disable_content_trust { with_flag(o, "disable-content-trust"@) } else { o });
    }
    push_field(fields, "env-merge", strings(&a.env_merge), Ghost(o));
    proof {
        o = list_args(o, "env-merge"@, a.env_merge@);
    }
    push_field(fields, "group-add", strings(&a.group_add), Ghost(o));
    proof {
        o = list_args(o, "group-add"@, a.group_add@);
    }
    push_field(fields, "group-entry", optional_text(&a.group_entry), Ghost(o));
    proof {
        o = opt_arg(o, "group-entry"@, opt_seq(a.group_entry));
    }
    push_field(fields, "hostuser", strings(&a.hostuser), Ghost(o));
    proof {
        o = list_args(o, "hostuser"@, a.hostuser@);
    }
    if !a.http_proxy {
        push_field(fields, "http-proxy", Value::Bool(false), Ghost(o));
    }
    proof {
        o = (if a.http_proxy { o } else { with_flag(o, "http-proxy"@) + "=false"@ });
    }
    push_field(fields, "image-volume", optional_text(&a.image_volume), Ghost(o));
    proof {
        o = opt_arg(o, "image-volume"@, opt_seq(a.image_volume));
    }
    push_field(fields, "init-path", optional_text(&a.init_path), Ghost(o));
    proof {
        o = opt_arg(o, "init-path"@, opt_seq(a.init_path));
    }
    if a.interactive {
        push_field(fields, "interactive", Value::Bool(true), Ghost(o));
    }
    proof {
        o = (if a.interactive { with_flag(o, "interactive"@) } else { o });
    }
    push_field(fields, "ipc", optional_text(&a.ipc), Ghost(o));
    proof {
        o = opt_arg(o, "ipc"@, opt_seq(a.ipc));
    }
    push_field(fields, "label-file", optional_text(&a.label_file), Ghost(o));
    proof {
        o = opt_arg(o, "label-file"@, opt_seq(a.label_file));
    }
    push_field(fields, "link-local-ip", optional_text(&a.link_local_ip), Ghost(o));
    proof {
        o = opt_arg(o, "link-local-ip"@, opt_seq(a.link_local_ip));
    }
    push_field(fields, "log-opt", strings(&a.log_opt), Ghost(o));
    proof {
        o = list_args(o, "log-opt"@, a.log_opt@);
    }
    push_field(fields, "mac-address", optional_text(&a.mac_address), Ghost(o));
    proof {
        o = opt_arg(o, "mac-address"@, opt_seq(a.mac_address));
    }
}

/// Appends the fields of one part of [`PodmanArgs`].
fn push_part_3(a: &PodmanArgs, fields: &mut Vec<Field>, Ghost(out): Ghost<Seq<char>>)
    requires
        crate::args_ser::fields_args(Seq::<char>::empty(), old(fields)@) == Ok::<Seq<char>, ErrorKind>(out),
    ensures
        crate::args_ser::fields_args(Seq::<char>::empty(), final(fields)@) == Ok::<Seq<char>, ErrorKind>(
            args_part_3(*a, out),
        ),
{
    proof {
        lemma_flags_3();
    }
    let ghost mut o = out;
    push_field(fields, "memory", optional_text(&a.memory), Ghost(o));
    proof {
        o = opt_arg(o, "memory"@, opt_seq(a.memory));
    }
    push_field(fields, "memory-reservation", optional_text(&a.memory_reservation), Ghost(o));
    proof {
        o = opt_arg(o, "memory-reservation"@, opt_seq(a.memory_reservation));
    }
    push_field(fields, "memory-swap", optional_text(&a.memory_swap), Ghost(o));
    proof {
        o = opt_arg(o, "memory-swap"@, opt_seq(a.memory_swap));
    }
    push_field(fields, "memory-swappiness", optional_number(match a.memory_swappiness {
                Some(n) => Some(n as u128),
                None => None,
            }), Ghost(o));
    proof {
        o = opt_arg(o, "memory-swappiness"@, u8_text(a.memory_swappiness));
    }
    push_field(fields, "network-alias", optional_text(&a.network_alias), Ghost(o));
    proof {
        o = opt_arg(o, "network-alias"@, opt_seq(a.network_alias));
    }
    if a.no_healthcheck {
        push_field(fields, "no-healthcheck", Value::Bool(true), Ghost(o));
    }
    proof {
        o = (if a.no_healthcheck { with_flag(o, "no-healthcheck"@) } else { o });
    }
    if a.no_hosts {
        push_field(fields, "no-hosts", Value::Bool(true), Ghost(o));
    }
    proof {
        o = (if a.no_hosts { with_flag(o, "no-hosts"@) } else { o });
    }
    if a.oom_kill_disable {
        push_field(fields, "oom-kill-disable", Value::Bool(true), Ghost(o));
    }
    proof {
        o = (if a.oom_kill_disable { with_flag(o, "oom-kill-disable"@) } else { o });
    }
    push_field(fields, "oom-score-adj", optional_signed(a.oom_score_adj), Ghost(o));
    proof {
        o = opt_arg(o, "oom-score-adj"@, i16_text(a.oom_score_adj));
    }
    push_field(fields, "os", optional_text(&a.os), Ghost(o));
    proof {
        o = opt_arg(o, "os"@, opt_seq(a.os));
    }
    if a.passwd {
        push_field(fields, "passwd", Value::Bool(true), Ghost(o));
    }
    proof {
        o = (if a.passwd { with_flag(o, "passwd"@) } else { o });
    }
    push_field(fields, "passwd-entry", optional_text(&a.passwd_entry), Ghost(o));
    proof {
        o = opt_arg(o, "passwd-entry"@, opt_seq(a.passwd_entry));
    }
    push_field(fields, "personality", optional_text(&a.personality), Ghost(o));
    proof {
        o = opt_arg(o, "personality"@, opt_seq(a.personality));
    }
    push_field(fields, "pid", optional_text(&a.pid), Ghost(o));
    proof {
        o = opt_arg(o, "pid"@, opt_seq(a.pid));
    }
}

/// Appends the fields of one part of [`PodmanArgs`].
fn push_part_4(a: &PodmanArgs, fields: &mut Vec<Field>, Ghost(out): Ghost<Seq<char>>)
    requires
        crate::args_ser::fields_args(Seq::<char>::empty(), old(fields)@) == Ok::<Seq<char>, ErrorKind>(out),
    ensures
        crate::args_ser::fields_args(Seq::<char>::empty(), final(fields)@) == Ok::<Seq<char>, ErrorKind>(
            args_part_4(*a, out),
        ),
{
    proof {
        lemma_flags_4();
    }
    let ghost mut o = out;
    push_field(fields, "pidfile", optional_text(&a.pidfile), Ghost(o));
    proof {
        o = opt_arg(o, "pidfile"@, opt_seq(a.pidfile));
    }
    push_field(fields, "platform", optional_text(&a.platform), Ghost(o));
    proof {
        o = opt_arg(o, "platform"@, opt_seq(a.platform));
    }
    push_field(fields, "pod", optional_text(&a.pod), Ghost(o));
    proof {
        o = opt_arg(o, "pod"@, opt_seq(a.pod));
    }
    push_field(fields, "pod-id-file", optional_text(&a.pod_id_file), Ghost(o));
    proof {
        o = opt_arg(o, "pod-id-file"@, opt_seq(a.pod_id_file));
    }
    push_field(fields, "preserve-fd", optional_text(&a.preserve_fd), Ghost(o));
    proof {
        o = opt_arg(o, "preserve-fd"@, opt_seq(a.preserve_fd));
    }
    push_field(fields, "preserve-fds", optional_number(match a.preserve_fds {
                Some(n) => Some(n as u128),
                None => None,
            }), Ghost(o));
    proof {
        o = opt_arg(o, "preserve-fds"@, u16_text(a.preserve_fds));
    }
    if a.privileged {
        push_field(fields, "privileged", Value::Bool(true), Ghost(o));
    }
    proof {
        o = (if a.privileged { with_flag(o, "privileged"@) } else { o });
    }
    if a.publish_all {
        push_field(fields, "publish-all", Value::Bool(true), Ghost(o));
    }
    proof {
        o = (if a.publish_all { with_flag(o, "publish-all"@) } else { o });
    }
    if a.quiet {
        push_field(fields, "quiet", Value::Bool(true), Ghost(o));
    }
    proof {
        o = (if a.quiet { with_flag(o, "quiet"@) } else { o });
    }
    push_field(fields, "requires", optional_text(&a.requires), Ghost(o));
    proof {
        o = opt_arg(o, "requires"@, opt_seq(a.requires));
    }
    if a.rmi {
        push_field(fields, "rmi", Value::Bool(true), Ghost(o));
    }
    proof {
        o = (if a.rmi { with_flag(o, "rmi"@) } else { o });
    }
    push_field(fields, "seccomp-policy", optional_text(&a.seccomp_policy), Ghost(o));
    proof {
        o = opt_arg(o, "seccomp-policy"@, opt_seq(a.seccomp_policy));
    }
    push_field(fields, "shm-size-systemd", optional_text(&a.shm_size_systemd), Ghost(o));
    proof {
        o = opt_arg(o, "shm-size-systemd"@, opt_seq(a.shm_size_systemd));
    }
    if !a.sig_proxy {
        push_field(fields, "sig-proxy", Value::Bool(false), Ghost(o));
    }
    proof {
        o = (if a.sig_proxy { o } else { with_flag(o, "sig-proxy"@) + "=false"@ });
    }
}

/// Appends the fields of one part of [`PodmanArgs`].
fn push_part_5(a: &PodmanArgs, fields: &mut Vec<Field>, Ghost(out): Ghost<Seq<char>>)
    requires
        crate::args_ser::fields_args(Seq::<char>::empty(), old(fields)@) == Ok::<Seq<char>, ErrorKind>(out),
    ensures
        crate::args_ser::fields_args(Seq::<char>::empty(), final(fields)@) == Ok::<Seq<char>, ErrorKind>(
            args_part_5(*a, out),
        ),
{
    proof {
        lemma_flags_5();
    }
    let ghost mut o = out;
    push_field(fields, "stop-signal", optional_text(&a.stop_signal), Ghost(o));
    proof {
        o = opt_arg(o, "stop-signal"@, opt_seq(a.stop_signal));
    }
    push_field(fields, "systemd", optional_text(&a.systemd), Ghost(o));
    proof {
        o = opt_arg(o, "systemd"@, opt_seq(a.systemd));
    }
    push_field(fields, "timeout", optional_number(match a.timeout {
                Some(n) => Some(n as u128),
                None => None,
            }), Ghost(o));
    proof {
        o = opt_arg(o, "timeout"@, u16_text(a.timeout));
    }
    push_field(fields, "tls-verify", optional_bool(a.tls_verify), Ghost(o));
    proof {
        o = opt_bool_arg(o, "tls-verify"@, a.tls_verify);
    }
    if a.tty {
        push_field(fields, "tty", Value::Bool(true), Ghost(o));
    }
    proof {
        o = (if a.tty { with_flag(o, "tty"@) } else { o });
    }
    push_field(fields, "umask", optional_text(&a.umask), Ghost(o));
    proof {
        o = opt_arg(o, "umask"@, opt_seq(a.umask));
    }
    push_field(fields, "uts", optional_text(&a.uts), Ghost(o));
    proof {
        o = opt_arg(o, "uts"@, opt_seq(a.uts));
    }
    push_field(fields, "variant", optional_text(&a.variant), Ghost(o));
    proof {
        o = opt_arg(o, "variant"@, opt_seq(a.variant));
    }
    push_field(fields, "volumes-from", strings(&a.volumes_from), Ghost(o));
    proof {
        o = list_args(o, "volumes-from"@, a.volumes_from@);
    }
}

/// No option is set: each is unset or off, but for the HTTP proxy and signal proxying, which are
/// on.
pub open spec fn podman_args_empty(a: PodmanArgs) -> bool {
    &&& a.add_host@.len() == 0 && a.arch is None && a.attach@.len() == 0
    &&& a.authfile is None && a.blkio_weight is None && a.blkio_weight_device@.len() == 0
    &&& a.cgroup_conf@.len() == 0 && a.cgroup_parent is None && a.cgroupns is None
    &&& a.cgroups is None && a.chrootdirs is None && a.cidfile is None
    &&& a.conmon_pidfile is None && a.cpu_period is None && a.cpu_quota is None
    &&& a.cpu_rt_period is None && a.cpu_rt_runtime is None && a.cpu_shares is None
    &&& a.cpus is None && a.cpuset_cpus is None && a.cpuset_mems is None
    &&& a.decryption_key is None && !a.detach && a.detach_keys is None
    &&& a.device_cgroup_rule@.len() == 0 && a.device_read_bps@.len() == 0
    &&& a.device_read_iops@.len() == 0 && a.device_write_bps@.len() == 0
    &&& a.device_write_iops@.len() == 0 && !a.disable_content_trust
    &&& a.env_merge@.len() == 0 && a.group_add@.len() == 0 && a.group_entry is None
    &&& a.hostuser@.len() == 0 && a.http_proxy && a.image_volume is None
    &&& a.init_path is None && !a.interactive && a.ipc is None && a.label_file is None
    &&& a.link_local_ip is None && a.log_opt@.len() == 0 && a.mac_address is None
    &&& a.memory is None && a.memory_reservation is None && a.memory_swap is None
    &&& a.memory_swappiness is None && a.network_alias is None && !a.no_healthcheck
    &&& !a.no_hosts && !a.oom_kill_disable && a.oom_score_adj is None && a.os is None
    &&& !a.passwd && a.passwd_entry is None && a.personality is None && a.pid is None
    &&& a.pidfile is None && a.platform is None && a.pod is None && a.pod_id_file is None
    &&& a.preserve_fd is None && a.preserve_fds is None && !a.privileged && !a.publish_all
    &&& !a.quiet && !a.replace && a.requires is None && !a.rm && !a.rmi
    &&& a.seccomp_policy is None && a.shm_size_systemd is None && a.sig_proxy
    &&& a.stop_signal is None && a.systemd is None && a.timeout is None
    &&& a.tls_verify is None && !a.tty && a.umask is None && a.uts is None
    &&& a.variant is None && a.volumes_from@.len() == 0
}

impl PodmanArgs {
    /// No option set.
    pub fn new() -> (a: PodmanArgs)
        ensures
            podman_args_empty(a),
            podman_args_text(a).len() == 0,
    {
        PodmanArgs {
            add_host: Vec::new(),
            arch: None,
            attach: Vec::new(),
            authfile: None,
            blkio_weight: None,
            blkio_weight_device: Vec::new(),
            cgroup_conf: Vec::new(),
            cgroup_parent: None,
            cgroupns: None,
            cgroups: None,
            chrootdirs: None,
            cidfile: None,
            conmon_pidfile: None,
            cpu_period: None,
            cpu_quota: None,
            cpu_rt_period: None,
            cpu_rt_runtime: None,
            cpu_shares: None,
            cpus: None,
            cpuset_cpus: None,
            cpuset_mems: None,
            decryption_key: None,
            detach: false,
            detach_keys: None,
            device_cgroup_rule: Vec::new(),
            device_read_bps: Vec::new(),
            device_read_iops: Vec::new(),
            device_write_bps: Vec::new(),
            device_write_iops: Vec::new(),
            disable_content_trust: false,
            env_merge: Vec::new(),
            group_add: Vec::new(),
            group_entry: None,
            hostuser: Vec::new(),
            http_proxy: true,
            image_volume: None,
            init_path: None,
            interactive: false,
            ipc: None,
            label_file: None,
            link_local_ip: None,
            log_opt: Vec::new(),
            mac_address: None,
            memory: None,
            memory_reservation: None,
            memory_swap: None,
            memory_swappiness: None,
            network_alias: None,
            no_healthcheck: false,
            no_hosts: false,
            oom_kill_disable: false,
            oom_score_adj: None,
            os: None,
            passwd: false,
            passwd_entry: None,
            personality: None,
            pid: None,
            pidfile: None,
            platform: None,
            pod: None,
            pod_id_file: None,
            preserve_fd: None,
            preserve_fds: None,
            privileged: false,
            publish_all: false,
            quiet: false,
            replace: false,
            requires: None,
            rm: false,
            rmi: false,
            seccomp_policy: None,
            shm_size_systemd: None,
            sig_proxy: true,
            stop_signal: None,
            systemd: None,
            timeout: None,
            tls_verify: None,
            tty: false,
            umask: None,
            uts: None,
            variant: None,
            volumes_from: Vec::new(),
        }
    }

    /// These options as the serde data model has them, for the arguments serializer: each under
    /// its flag name; `detach`, `replace` and `rm` left out.
    pub fn to_value(&self) -> (v: Value)
        ensures
            args_text(v) == Ok::<Seq<char>, ErrorKind>(podman_args_text(*self)),
    {
        let mut fields: Vec<Field> = Vec::new();
        let ghost mut o = Seq::<char>::empty();
        push_part_0(self, &mut fields, Ghost(o));
        proof {
            o = args_part_0(*self, o);
        }
        push_part_1(self, &mut fields, Ghost(o));
        proof {
            o = args_part_1(*self, o);
        }
        push_part_2(self, &mut fields, Ghost(o));
        proof {
            o = args_part_2(*self, o);
        }
        push_part_3(self, &mut fields, Ghost(o));
        proof {
            o = args_part_3(*self, o);
        }
        push_part_4(self, &mut fields, Ghost(o));
        proof {
            o = args_part_4(*self, o);
        }
        push_part_5(self, &mut fields, Ghost(o));
        proof {
            o = args_part_5(*self, o);
        }
        Value::Struct { name: "PodmanArgs".to_owned(), fields }
    }

    /// The arguments, as a shell would take them.
    pub fn to_string(&self) -> (r: String)
        ensures
            r@ == podman_args_text(*self),
    {
        let v = self.to_value();
        match args_to_string(&v) {
            Ok(s) => s,
            Err(_) => String::new(),
        }
    }
}

impl Default for PodmanArgs {
    fn default() -> (a: PodmanArgs)
        ensures
            podman_args_empty(a),
            podman_args_text(a).len() == 0,
    {
        PodmanArgs::new()
    }
}

/// A rate limit of reads or writes on a device, in bytes per second as the compose file writes
/// it.
#[derive(Debug, Clone, PartialEq, Eq)]
pub struct BpsLimit {
    pub path: String,
    pub rate: String,
}

/// A rate limit of reads or writes on a device, in operations per second.
#[derive(Debug, Clone, PartialEq, Eq)]
pub struct IopsLimit {
    pub path: String,
    pub rate: u64,
}

/// A relative block IO weight of a device.
#[derive(Debug, Clone, PartialEq, Eq)]
pub struct WeightDevice {
    pub path: String,
    pub weight: u16,
}

/// The block IO options of a compose service.
#[derive(Debug, Clone, PartialEq, Eq)]
pub struct BlkioConfig {
    pub device_read_bps: Vec<BpsLimit>,
    pub device_read_iops: Vec<IopsLimit>,
    pub device_write_bps: Vec<BpsLimit>,
    pub device_write_iops: Vec<IopsLimit>,
    pub weight: Option<u16>,
    pub weight_device: Vec<WeightDevice>,
}

/// The options of a compose service that become arguments of `podman run`.
#[derive(Debug, Clone, PartialEq, Eq)]
pub struct ComposePodmanArgs {
    pub blkio_config: Option<BlkioConfig>,
    pub cpu_shares: Option<u64>,
    pub cpu_period: Option<Duration>,
    pub cpu_quota: Option<Duration>,
    pub cpu_rt_runtime: Option<Duration>,
    pub cpu_rt_period: Option<Duration>,
    /// The number of CPUs, as written.
    pub cpus: Option<String>,
    /// The CPUs to run on, as written; empty for none.
    pub cpuset: String,
    /// The cgroup namespace.
    pub cgroup: Option<String>,
    pub cgroup_parent: Option<String>,
    pub device_cgroup_rules: Vec<String>,
    /// Extra hosts, each a host name and an IP address.
    pub extra_hosts: Vec<(String, String)>,
    pub group_add: Vec<String>,
    pub ipc: Option<Ipc>,
    pub uts: Option<String>,
    /// Logging driver options, each a key with an optional value.
    pub log_options: Vec<(String, Option<String>)>,
    pub mac_address: Option<String>,
    pub mem_limit: Option<String>,
    pub mem_reservation: Option<String>,
    pub mem_swappiness: Option<u8>,
    pub oom_kill_disable: bool,
    pub oom_score_adj: Option<i16>,
    pub pid: Option<String>,
    pub platform: Option<String>,
    pub privileged: bool,
    pub stdin_open: bool,
    pub stop_signal: Option<String>,
    pub tty: bool,
}

/// A duration in whole microseconds.
pub open spec fn micros(d: Duration) -> nat {
    (d.0 * 1_000_000 + d.1) as nat
}

/// An optional duration in whole microseconds.
pub open spec fn opt_micros(d: Option<Duration>) -> Option<u128> {
    match d {
        Some(d) => Some(micros(d) as u128),
        None => None,
    }
}

/// "path:rate" for a limit in bytes per second.
pub open spec fn bps_text(l: BpsLimit) -> Seq<char> {
    l.path@ + seq![':'] + l.rate@
}

/// "path:rate" for a limit in operations per second.
pub open spec fn iops_text(l: IopsLimit) -> Seq<char> {
    l.path@ + seq![':'] + decimal(l.rate as nat)
}

/// "path:weight" for a device weight.
pub open spec fn weight_device_text(w: WeightDevice) -> Seq<char> {
    w.path@ + seq![':'] + decimal(w.weight as nat)
}

/// "host:ip" for an extra host.
pub open spec fn host_text(h: (String, String)) -> Seq<char> {
    h.0@ + seq![':'] + h.1@
}

/// "key" or "key=value" for a logging option.
pub open spec fn log_option_text(o: (String, Option<String>)) -> Seq<char> {
    match o.1 {
        Some(v) => o.0@ + seq!['='] + v@,
        None => o.0@,
    }
}

/// The texts of strings.
pub open spec fn texts(v: Seq<String>) -> Seq<Seq<char>> {
    v.map_values(|s: String| s@)
}

/// The block IO options of a compose service; none gives the default, which sets nothing.
pub open spec fn blkio_or_default(b: Option<BlkioConfig>) -> (
    Seq<BpsLimit>,
    Seq<IopsLimit>,
    Seq<BpsLimit>,
    Seq<IopsLimit>,
    Option<u16>,
    Seq<WeightDevice>,
) {
    match b {
        Some(b) => (
            b.device_read_bps@,
            b.device_read_iops@,
            b.device_write_bps@,
            b.device_write_iops@,
            b.weight,
            b.weight_device@,
        ),
        None => (Seq::empty(), Seq::empty(), Seq::empty(), Seq::empty(), None, Seq::empty()),
    }
}

/// The options that a compose service does not set are as [`PodmanArgs::new`] leaves them.
pub open spec fn compose_rest_default(a: PodmanArgs) -> bool {
    &&& a.arch is None && a.authfile is None && a.cgroup_conf@.len() == 0
    &&& a.cgroups is None && a.chrootdirs is None && a.cidfile is None
    &&& a.conmon_pidfile is None && a.cpuset_mems is None && a.decryption_key is None
    &&& !a.detach && a.detach_keys is None && !a.disable_content_trust
    &&& a.env_merge@.len() == 0 && a.group_entry is None && a.hostuser@.len() == 0
    &&& a.http_proxy && a.image_volume is None && a.init_path is None && !a.interactive
    &&& a.label_file is None && a.link_local_ip is None && a.memory_swap is None
    &&& a.network_alias is None && !a.no_healthcheck && !a.no_hosts && a.os is None
    &&& !a.passwd && a.passwd_entry is None && a.personality is None && a.pidfile is None
    &&& a.pod is None && a.pod_id_file is None && a.preserve_fd is None
    &&& a.preserve_fds is None && !a.publish_all && !a.quiet && !a.replace
    &&& a.requires is None && !a.rm && !a.rmi && a.seccomp_policy is None
    &&& a.shm_size_systemd is None && a.sig_proxy && a.systemd is None && a.timeout is None
    &&& a.tls_verify is None && a.umask is None && a.variant is None
    &&& a.volumes_from@.len() == 0
}

/// The texts of bytes-per-second limits.
fn bps_texts(ls: &Vec<BpsLimit>) -> (r: Vec<String>)
    ensures
        texts(r@) == ls@.map_values(|l: BpsLimit| bps_text(l)),
{
    let mut r: Vec<String> = Vec::new();
    let mut i: usize = 0;
    while i < ls.len()
        invariant
            i <= ls@.len(),
            texts(r@) == ls@.subrange(0, i as int).map_values(|l: BpsLimit| bps_text(l)),
        decreases ls@.len() - i,
    {
        let mut t = ls[i].path.clone();
        push_char(&mut t, ':');
        push_str(&mut t, ls[i].rate.as_str());
        assert(t@ =~= bps_text(ls@[i as int]));
        let ghost before = r@;
        r.push(t);
        assert(texts(r@) =~= texts(before).push(bps_text(ls@[i as int])));
        assert(ls@.subrange(0, i + 1).map_values(|l: BpsLimit| bps_text(l)) =~= ls@.subrange(
            0,
            i as int,
        ).map_values(|l: BpsLimit| bps_text(l)).push(bps_text(ls@[i as int])));
        i = i + 1;
    }
    assert(ls@.subrange(0, ls@.len() as int) =~= ls@);
    r
}

/// The texts of operations-per-second limits.
fn iops_texts(ls: &Vec<IopsLimit>) -> (r: Vec<String>)
    ensures
        texts(r@) == ls@.map_values(|l: IopsLimit| iops_text(l)),
{
    let mut r: Vec<String> = Vec::new();
    let mut i: usize = 0;
    while i < ls.len()
        invariant
            i <= ls@.len(),
            texts(r@) == ls@.subrange(0, i as int).map_values(|l: IopsLimit| iops_text(l)),
        decreases ls@.len() - i,
    {
        let mut t = ls[i].path.clone();
        push_char(&mut t, ':');
        let rate = decimal_string(ls[i].rate as u128);
        push_str(&mut t, rate.as_str());
        assert(t@ =~= iops_text(ls@[i as int]));
        let ghost before = r@;
        r.push(t);
        assert(texts(r@) =~= texts(before).push(iops_text(ls@[i as int])));
        assert(ls@.subrange(0, i + 1).map_values(|l: IopsLimit| iops_text(l)) =~= ls@.subrange(
            0,
            i as int,
        ).map_values(|l: IopsLimit| iops_text(l)).push(iops_text(ls@[i as int])));
        i = i + 1;
    }
    assert(ls@.subrange(0, ls@.len() as int) =~= ls@);
    r
}

/// The texts of device weights.
fn weight_device_texts(ws: &Vec<WeightDevice>) -> (r: Vec<String>)
    ensures
        texts(r@) == ws@.map_values(|w: WeightDevice| weight_device_text(w)),
{
    let mut r: Vec<String> = Vec::new();
    let mut i: usize = 0;
    while i < ws.len()
        invariant
            i <= ws@.len(),
            texts(r@) == ws@.subrange(0, i as int).map_values(
                |w: WeightDevice| weight_device_text(w),
            ),
        decreases ws@.len() - i,
    {
        let mut t = ws[i].path.clone();
        push_char(&mut t, ':');
        let weight = decimal_string(ws[i].weight as u128);
        push_str(&mut t, weight.as_str());
        assert(t@ =~= weight_device_text(ws@[i as int]));
        let ghost before = r@;
        r.push(t);
        assert(texts(r@) =~= texts(before).push(weight_device_text(ws@[i as int])));
        assert(ws@.subrange(0, i + 1).map_values(|w: WeightDevice| weight_device_text(w))
            =~= ws@.subrange(0, i as int).map_values(|w: WeightDevice| weight_device_text(w)).push(
            weight_device_text(ws@[i as int]),
        ));
        i = i + 1;
    }
    assert(ws@.subrange(0, ws@.len() as int) =~= ws@);
    r
}

/// The texts of extra hosts.
fn host_texts(hs: &Vec<(String, String)>) -> (r: Vec<String>)
    ensures
        texts(r@) == hs@.map_values(|h: (String, String)| host_text(h)),
{
    let mut r: Vec<String> = Vec::new();
    let mut i: usize = 0;
    while i < hs.len()
        invariant
            i <= hs@.len(),
            texts(r@) == hs@.subrange(0, i as int).map_values(|h: (String, String)| host_text(h)),
        decreases hs@.len() - i,
    {
        let (host, ip) = &hs[i];
        let mut t = host.clone();
        push_char(&mut t, ':');
        push_str(&mut t, ip.as_str());
        assert(t@ =~= host_text(hs@[i as int]));
        let ghost before = r@;
        r.push(t);
        assert(texts(r@) =~= texts(before).push(host_text(hs@[i as int])));
        assert(hs@.subrange(0, i + 1).map_values(|h: (String, String)| host_text(h))
            =~= hs@.subrange(0, i as int).map_values(|h: (String, String)| host_text(h)).push(
            host_text(hs@[i as int]),
        ));
        i = i + 1;
    }
    assert(hs@.subrange(0, hs@.len() as int) =~= hs@);
    r
}

/// The texts of logging options.
fn log_option_texts(os: &Vec<(String, Option<String>)>) -> (r: Vec<String>)
    ensures
        texts(r@) == os@.map_values(|o: (String, Option<String>)| log_option_text(o)),
{
    let mut r: Vec<String> = Vec::new();
    let mut i: usize = 0;
    while i < os.len()
        invariant
            i <= os@.len(),
            texts(r@) == os@.subrange(0, i as int).map_values(
                |o: (String, Option<String>)| log_option_text(o),
            ),
        decreases os@.len() - i,
    {
        let (key, value) = &os[i];
        let mut t = key.clone();
        match value {
            Some(v) => {
                push_char(&mut t, '=');
                push_str(&mut t, v.as_str());
            },
            None => {},
        }
        assert(t@ =~= log_option_text(os@[i as int]));
        let ghost before = r@;
        r.push(t);
        assert(texts(r@) =~= texts(before).push(log_option_text(os@[i as int])));
        assert(os@.subrange(0, i + 1).map_values(|o: (String, Option<String>)| log_option_text(o))
            =~= os@.subrange(0, i as int).map_values(
            |o: (String, Option<String>)| log_option_text(o),
        ).push(log_option_text(os@[i as int])));
        i = i + 1;
    }
    assert(os@.subrange(0, os@.len() as int) =~= os@);
    r
}

/// An optional duration in whole microseconds.
fn duration_micros(d: Option<Duration>) -> (r: Option<u128>)
    ensures
        r == opt_micros(d),
{
    match d {
        Some((secs, us)) => Some(secs as u128 * 1_000_000 + us as u128),
        None => None,
    }
}

impl PodmanArgs {
    /// The `podman run` arguments of the options of a compose service: the block IO limits as
    /// "path:rate" and the device weights as "path:weight", durations in whole microseconds, the
    /// CPU set where it is not empty, extra hosts as "host:ip", logging options as "key" or
    /// "key=value", `--attach stdin` for `stdin_open`; each other option as it is.
    ///
    /// Fails where the IPC mode is one that `podman run` does not take.
    pub fn try_from_compose(args: ComposePodmanArgs) -> (r: Result<PodmanArgs, NamespaceModeError>)
        ensures
            match r {
                Ok(a) => {
                    let (read_bps, read_iops, write_bps, write_iops, weight, weight_device) =
                        blkio_or_default(args.blkio_config);
                    &&& texts(a.device_read_bps@) == read_bps.map_values(|l: BpsLimit| bps_text(l))
                    &&& texts(a.device_read_iops@) == read_iops.map_values(
                        |l: IopsLimit| iops_text(l),
                    )
                    &&& texts(a.device_write_bps@) == write_bps.map_values(
                        |l: BpsLimit| bps_text(l),
                    )
                    &&& texts(a.device_write_iops@) == write_iops.map_values(
                        |l: IopsLimit| iops_text(l),
                    )
                    &&& a.blkio_weight == weight
                    &&& texts(a.blkio_weight_device@) == weight_device.map_values(
                        |w: WeightDevice| weight_device_text(w),
                    )
                    &&& a.cpu_shares == args.cpu_shares
                    &&& a.cpu_period == opt_micros(args.cpu_period)
                    &&& a.cpu_quota == opt_micros(args.cpu_quota)
                    &&& a.cpu_rt_runtime == opt_micros(args.cpu_rt_runtime)
                    &&& a.cpu_rt_period == opt_micros(args.cpu_rt_period)
                    &&& a.cpus == args.cpus
                    &&& a.cpuset_cpus == (if args.cpuset@.len() > 0 {
                        Some(args.cpuset)
                    } else {
                        None
                    })
                    &&& a.cgroupns == args.cgroup && a.cgroup_parent == args.cgroup_parent
                    &&& a.device_cgroup_rule == args.device_cgroup_rules
                    &&& texts(a.add_host@) == args.extra_hosts@.map_values(
                        |h: (String, String)| host_text(h),
                    )
                    &&& a.group_add == args.group_add
                    &&& match args.ipc {
                        Some(i) => a.ipc matches Some(t) && ipc_value(i@) == Ok::<
                            Seq<char>,
                            NamespaceModeErr,
                        >(t@),
                        None => a.ipc is None,
                    }
                    &&& a.uts == args.uts
                    &&& texts(a.log_opt@) == args.log_options@.map_values(
                        |o: (String, Option<String>)| log_option_text(o),
                    )
                    &&& a.mac_address == args.mac_address && a.memory == args.mem_limit
                    &&& a.memory_reservation == args.mem_reservation
                    &&& a.memory_swappiness == args.mem_swappiness
                    &&& a.oom_kill_disable == args.oom_kill_disable
                    &&& a.oom_score_adj == args.oom_score_adj
                    &&& a.pid == args.pid && a.platform == args.platform
                    &&& a.privileged == args.privileged
                    &&& texts(a.attach@) == (if args.stdin_open {
                        seq!["stdin"@]
                    } else {
                        Seq::<Seq<char>>::empty()
                    })
                    &&& a.stop_signal == args.stop_signal && a.tty == args.tty
                    &&& compose_rest_default(a)
                },
                Err(e) => args.ipc matches Some(i) && ipc_value(i@) == Err::<
                    Seq<char>,
                    NamespaceModeErr,
                >(e@),
            },
    {
        let ComposePodmanArgs {
            blkio_config,
            cpu_shares,
            cpu_period,
            cpu_quota,
            cpu_rt_runtime,
            cpu_rt_period,
            cpus,
            cpuset,
            cgroup,
            cgroup_parent,
            device_cgroup_rules,
            extra_hosts,
            group_add,
            ipc,
            uts,
            log_options,
            mac_address,
            mem_limit,
            mem_reservation,
            mem_swappiness,
            oom_kill_disable,
            oom_score_adj,
            pid,
            platform,
            privileged,
            stdin_open,
            stop_signal,
            tty,
        } = args;
        let blkio = match blkio_config {
            Some(b) => b,
            None => BlkioConfig {
                device_read_bps: Vec::new(),
                device_read_iops: Vec::new(),
                device_write_bps: Vec::new(),
                device_write_iops: Vec::new(),
                weight: None,
                weight_device: Vec::new(),
            },
        };
        let ipc = match ipc {
            Some(i) => match validate_ipc(i) {
                Ok(t) => Some(t),
                Err(e) => {
                    return Err(e);
                },
            },
            None => None,
        };
        let mut attach: Vec<String> = Vec::new();
        if stdin_open {
            attach.push("stdin".to_owned());
            assert(texts(attach@) =~= seq!["stdin"@]);
        }
        assert(texts(attach@) =~= (if stdin_open {
            seq!["stdin"@]
        } else {
            Seq::<Seq<char>>::empty()
        }));
        let mut a = PodmanArgs::new();
        a.device_read_bps = bps_texts(&blkio.device_read_bps);
        a.device_read_iops = iops_texts(&blkio.device_read_iops);
        a.device_write_bps = bps_texts(&blkio.device_write_bps);
        a.device_write_iops = iops_texts(&blkio.device_write_iops);
        a.blkio_weight = blkio.weight;
        a.blkio_weight_device = weight_device_texts(&blkio.weight_device);
        a.cpu_shares = cpu_shares;
        a.cpu_period = duration_micros(cpu_period);
        a.cpu_quota = duration_micros(cpu_quota);
        a.cpu_rt_runtime = duration_micros(cpu_rt_runtime);
        a.cpu_rt_period = duration_micros(cpu_rt_period);
        a.cpus = cpus;
        a.cpuset_cpus = if cpuset.as_str().unicode_len() > 0 {
            Some(cpuset)
        } else {
            None
        };
        a.cgroupns = cgroup;
        a.cgroup_parent = cgroup_parent;
        a.device_cgroup_rule = device_cgroup_rules;
        a.add_host = host_texts(&extra_hosts);
        a.group_add = group_add;
        a.ipc = ipc;
        a.uts = uts;
        a.log_opt = log_option_texts(&log_options);
        a.mac_address = mac_address;
        a.memory = mem_limit;
        a.memory_reservation = mem_reservation;
        a.memory_swappiness = mem_swappiness;
        a.oom_kill_disable = oom_kill_disable;
        a.oom_score_adj = oom_score_adj;
        a.pid = pid;
        a.platform = platform;
        a.privileged = privileged;
        a.attach = attach;
        a.stop_signal = stop_signal;
        a.tty = tty;
        Ok(a)
    }
}

} // verus!
