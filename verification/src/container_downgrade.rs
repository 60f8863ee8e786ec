//! Making a `[Container]` section fit an older Podman: options that the version does not know
//! become arguments of `podman run` in `PodmanArgs=`.

use vstd::prelude::*;

use crate::text::opt_seq;

use crate::args_ser::{push_arg as push_quoted_arg, with_arg as quoted_arg};
use crate::auto_update::{label_key_spec, policy_name, AutoUpdate};
use crate::container::{pull_policy_name, unmask_items, PullPolicy, Unmask, UnmaskView};
use crate::downgrade::{older, push_arg_with, with_podman_arg, DowngradeErr, DowngradeError, PodmanVersion};
use crate::escape::{escape_spaces_join_by, space_quoted};
use crate::global_args::{list_args, opt_arg};
use crate::mount::{mount_text, Mount};
use crate::num::{decimal, write_decimal};
use crate::quadlet_container::{Container, Dns};
use crate::quadlet_options::{Notify, PidsLimit};
use crate::rootfs::{rootfs_text, Rootfs};
use crate::text::{join, push_char, push_str};

verus! {

/// A number's decimal text, where there is one.
pub open spec fn u64_text(o: Option<u64>) -> Option<Seq<char>> {
    match o {
        Some(n) => Some(decimal(n as nat)),
        None => None,
    }
}

/// A number's decimal text, where there is one.
pub open spec fn u16_text(o: Option<u16>) -> Option<Seq<char>> {
    match o {
        Some(n) => Some(decimal(n as nat)),
        None => None,
    }
}

/// The text of a process limit: the number, or `-1` for no limit.
pub open spec fn pids_text(o: Option<PidsLimit>) -> Option<Seq<char>> {
    match o {
        Some(PidsLimit::Value(n)) => Some(decimal(n as nat)),
        Some(PidsLimit::Unlimited) => Some("-1"@),
        None => None,
    }
}

/// The name of a pull policy, where there is one.
pub open spec fn pull_text(o: Option<PullPolicy>) -> Option<Seq<char>> {
    match o {
        Some(p) => Some(pull_policy_name(p)),
        None => None,
    }
}

/// The text of a root file system, where there is one.
pub open spec fn rootfs_opt_text(o: Option<Rootfs>) -> Option<Seq<char>> {
    match o {
        Some(r) => Some(rootfs_text(r@)),
        None => None,
    }
}

/// `out`, followed by `--flag item` for each item in turn.
pub open spec fn texts_args(out: Seq<char>, flag: Seq<char>, items: Seq<Seq<char>>) -> Seq<char>
    decreases items.len(),
{
    if items.len() == 0 {
        out
    } else {
        quoted_arg(texts_args(out, flag, items.drop_last()), flag, items.last())
    }
}

/// The texts of mounts.
pub open spec fn mount_texts(ms: Seq<Mount>) -> Seq<Seq<char>> {
    ms.map_values(|m: Mount| mount_text(m@))
}

/// `out`, followed by the DNS setting: `--dns none`, or `--dns server` for each server.
pub open spec fn dns_args_text(out: Seq<char>, dns: Dns) -> Seq<char> {
    match dns {
        Dns::Disabled => quoted_arg(out, "dns"@, "none"@),
        Dns::Custom(v) => list_args(out, "dns"@, v@),
    }
}

/// Paths joined by ':', each that holds a space in double quotes.
pub open spec fn unmask_joined(u: UnmaskView) -> Seq<char> {
    join(unmask_items(u).map_values(|w: Seq<char>| space_quoted(w)), seq![':'])
}

/// The arguments for the options added in Podman 5.0: the entrypoint and the stop timeout.
pub open spec fn v5_0_args(c: Container) -> Seq<char> {
    let o = opt_arg(Seq::<char>::empty(), "entrypoint"@, opt_seq(c.entrypoint));
    opt_arg(o, "stop-timeout"@, u64_text(c.stop_timeout))
}

/// The arguments for the options added in Podman 4.8: the ID mappings.
pub open spec fn v4_8_args(c: Container) -> Seq<char> {
    let o = list_args(Seq::<char>::empty(), "gidmap"@, c.gid_map@);
    let o = opt_arg(o, "subgidname"@, opt_seq(c.sub_gid_map));
    let o = opt_arg(o, "subuidname"@, opt_seq(c.sub_uid_map));
    list_args(o, "uidmap"@, c.uid_map@)
}

/// The arguments for the options added in Podman 4.7: DNS, the process limit, the size of
/// `/dev/shm` and the ulimits.
pub open spec fn v4_7_args(c: Container) -> Seq<char> {
    let o = dns_args_text(Seq::<char>::empty(), c.dns);
    let o = list_args(o, "dns-option"@, c.dns_option@);
    let o = list_args(o, "dns-search"@, c.dns_search@);
    let o = opt_arg(o, "pids-limit"@, pids_text(c.pids_limit));
    let o = opt_arg(o, "shm-size"@, opt_seq(c.shm_size));
    list_args(o, "ulimit"@, c.ulimit@)
}

/// The arguments for the options added in Podman 4.6 that have an argument of the same meaning.
pub open spec fn v4_6_args(c: Container) -> Seq<char> {
    let o = list_args(Seq::<char>::empty(), "sysctl"@, c.sysctl@);
    let o = opt_arg(o, "hostname"@, opt_seq(c.host_name));
    let o = opt_arg(o, "pull"@, pull_text(c.pull));
    opt_arg(o, "workdir"@, opt_seq(c.working_dir))
}

/// The arguments for the options added in Podman 4.5.
pub open spec fn v4_5_args(c: Container) -> Seq<char> {
    let o = opt_arg(Seq::<char>::empty(), "rootfs"@, rootfs_opt_text(c.rootfs));
    let o = list_args(o, "secret"@, c.secret@);
    let o = opt_arg(o, "log-driver"@, opt_seq(c.log_driver));
    let o = texts_args(o, "mount"@, mount_texts(c.mount@));
    let o = opt_arg(o, "ip"@, opt_seq(c.ip));
    let o = opt_arg(o, "ip6"@, opt_seq(c.ip6));
    let o = opt_arg(o, "health-interval"@, opt_seq(c.health_interval));
    let o = opt_arg(o, "health-on-failure"@, opt_seq(c.health_on_failure));
    let o = opt_arg(o, "health-retries"@, u64_text(c.health_retries));
    let o = opt_arg(o, "health-start-period"@, opt_seq(c.health_start_period));
    let o = opt_arg(o, "health-startup-cmd"@, opt_seq(c.health_startup_cmd));
    let o = opt_arg(o, "health-startup-interval"@, opt_seq(c.health_startup_interval));
    let o = opt_arg(o, "health-startup-retries"@, u16_text(c.health_startup_retries));
    let o = opt_arg(o, "health-startup-success"@, u16_text(c.health_startup_success));
    let o = opt_arg(o, "health-startup-timeout"@, opt_seq(c.health_startup_timeout));
    let o = opt_arg(o, "health-timeout"@, opt_seq(c.health_timeout));
    let o = list_args(o, "tmpfs"@, c.tmpfs@);
    opt_arg(o, "userns"@, opt_seq(c.user_ns))
}

/// Podman's arguments after `s` is appended, after a space unless there were none.
pub open spec fn appended(args: Option<Seq<char>>, s: Seq<char>) -> Seq<char> {
    let a = match args {
        Some(a) => a,
        None => Seq::<char>::empty(),
    };
    (if a.len() > 0 {
        a.push(' ')
    } else {
        a
    }) + s
}

/// Podman's arguments after the arguments `s` of a group of options are appended, unless
/// there are none.
pub open spec fn group_pushed(args: Option<Seq<char>>, s: Seq<char>) -> Option<Seq<char>> {
    if s.len() == 0 {
        args
    } else {
        Some(appended(args, s))
    }
}

/// Podman's arguments after the security options added in Podman 4.6 are added:
/// `--security-opt label=nested`, `mask=PATHS` and `unmask=PATHS`, each where it is set.
pub open spec fn security_opt_args(
    args: Option<Seq<char>>,
    nested: bool,
    mask: Vec<String>,
    unmask: Option<Unmask>,
) -> Option<Seq<char>> {
    let a = if nested {
        Some(with_podman_arg(args, "security-opt"@, "label=nested"@))
    } else {
        args
    };
    let a = if mask@.len() > 0 {
        Some(
            with_podman_arg(
                a,
                "security-opt"@,
                "mask="@ + unmask_joined(UnmaskView::Paths(mask.deep_view())),
            ),
        )
    } else {
        a
    };
    match unmask {
        Some(u) => Some(with_podman_arg(a, "security-opt"@, "unmask="@ + unmask_joined(u@))),
        None => a,
    }
}

/// Podman's arguments after the security options of `c` added in Podman 4.6 are added.
pub open spec fn v4_6_security_args(c: Container, args: Option<Seq<char>>) -> Option<Seq<char>> {
    security_opt_args(args, c.security_label_nested, c.mask, c.unmask)
}

/// The container can be made to fit Podman `version`: it fails only where it notifies when
/// healthy and the version is older than 4.7.
pub open spec fn proceeds(c: Container, version: PodmanVersion) -> bool {
    !(c.notify == Notify::Healthy && older(version, PodmanVersion { major: 4, minor: 7 }))
}

/// The Podman arguments of a container made to fit Podman `version`. Before 5.0 the options
/// added in 5.0 become arguments, and so does notifying when healthy (`--sdnotify healthy`);
/// where the version is older than 4.7 as well that is an error, and nothing more is done.
/// Otherwise, before 4.8 read-write temporary file systems being off
/// (`--read-only-tmpfs=false`) and the options added in 4.8 become arguments; before 4.7 those
/// added in 4.7; before 4.6 the security options and the others added in 4.6; before 4.5 those
/// added in 4.5.
pub open spec fn container_downgraded_args(c: Container, version: PodmanVersion) -> Option<
    Seq<char>,
> {
    let a = opt_seq(c.podman_args);
    let a = if older(version, PodmanVersion { major: 5, minor: 0 }) {
        group_pushed(a, v5_0_args(c))
    } else {
        a
    };
    if !proceeds(c, version) {
        a
    } else {
        let a = if older(version, PodmanVersion { major: 5, minor: 0 }) && c.notify
            == Notify::Healthy {
            Some(with_podman_arg(a, "sdnotify"@, "healthy"@))
        } else {
            a
        };
        let a = if older(version, PodmanVersion { major: 4, minor: 8 }) {
            group_pushed(
                if !c.read_only_tmpfs {
                    Some(appended(a, "--read-only-tmpfs=false"@))
                } else {
                    a
                },
                v4_8_args(c),
            )
        } else {
            a
        };
        let a = if older(version, PodmanVersion { major: 4, minor: 7 }) {
            group_pushed(a, v4_7_args(c))
        } else {
            a
        };
        let a = if older(version, PodmanVersion { major: 4, minor: 6 }) {
            group_pushed(v4_6_security_args(c, a), v4_6_args(c))
        } else {
            a
        };
        if older(version, PodmanVersion { major: 4, minor: 5 }) {
            group_pushed(a, v4_5_args(c))
        } else {
            a
        }
    }
}

/// The options added in Podman 5.0 are unset.
pub open spec fn v5_0_cleared(c: Container) -> bool {
    c.entrypoint is None && c.stop_timeout is None
}

/// The options added in Podman 4.8 are unset.
pub open spec fn v4_8_cleared(c: Container) -> bool {
    c.gid_map@.len() == 0 && c.sub_gid_map is None && c.sub_uid_map is None && c.uid_map@.len()
        == 0
}

/// The options added in Podman 4.7 are unset.
pub open spec fn v4_7_cleared(c: Container) -> bool {
    &&& c.dns matches Dns::Custom(v) && v@.len() == 0
    &&& c.dns_option@.len() == 0 && c.dns_search@.len() == 0 && c.pids_limit is None
    &&& c.shm_size is None && c.ulimit@.len() == 0
}

/// The options added in Podman 4.6 are unset (the security options, auto-update and those with
/// an argument of the same meaning).
pub open spec fn v4_6_cleared(c: Container) -> bool {
    &&& c.auto_update is None && !c.security_label_nested && c.mask@.len() == 0
    &&& c.unmask is None && c.sysctl@.len() == 0 && c.host_name is None && c.pull is None
    &&& c.working_dir is None
}

/// The options added in Podman 4.5 are unset.
pub open spec fn v4_5_cleared(c: Container) -> bool {
    &&& c.rootfs is None && c.secret@.len() == 0 && c.log_driver is None && c.mount@.len() == 0
    &&& c.ip is None && c.ip6 is None && c.health_interval is None && c.health_on_failure is None
    &&& c.health_retries is None && c.health_start_period is None && c.health_startup_cmd is None
    &&& c.health_startup_interval is None && c.health_startup_retries is None
    &&& c.health_startup_success is None && c.health_startup_timeout is None
    &&& c.health_timeout is None && c.tmpfs@.len() == 0 && c.user_ns is None
}

/// `d` has the options added in Podman 4.8 that `c` has.
pub open spec fn v4_8_same(c: Container, d: Container) -> bool {
    c.gid_map == d.gid_map && c.sub_gid_map == d.sub_gid_map && c.sub_uid_map == d.sub_uid_map
        && c.uid_map == d.uid_map
}

/// `d` has the options added in Podman 4.7 that `c` has.
pub open spec fn v4_7_same(c: Container, d: Container) -> bool {
    &&& c.dns == d.dns && c.dns_option == d.dns_option && c.dns_search == d.dns_search
    &&& c.pids_limit == d.pids_limit && c.shm_size == d.shm_size && c.ulimit == d.ulimit
}

/// `d` has the options added in Podman 4.6 that `c` has.
pub open spec fn v4_6_same(c: Container, d: Container) -> bool {
    &&& c.auto_update == d.auto_update && c.security_label_nested == d.security_label_nested
    &&& c.mask == d.mask && c.unmask == d.unmask && c.sysctl == d.sysctl
    &&& c.host_name == d.host_name && c.pull == d.pull && c.working_dir == d.working_dir
}

/// `d` has the options added in Podman 4.5 that `c` has.
pub open spec fn v4_5_same(c: Container, d: Container) -> bool {
    &&& c.rootfs == d.rootfs && c.secret == d.secret && c.log_driver == d.log_driver
    &&& c.mount == d.mount && c.ip == d.ip && c.ip6 == d.ip6
    &&& c.health_interval == d.health_interval && c.health_on_failure == d.health_on_failure
    &&& c.health_retries == d.health_retries && c.health_start_period == d.health_start_period
    &&& c.health_startup_cmd == d.health_startup_cmd
    &&& c.health_startup_interval == d.health_startup_interval
    &&& c.health_startup_retries == d.health_startup_retries
    &&& c.health_startup_success == d.health_startup_success
    &&& c.health_startup_timeout == d.health_startup_timeout
    &&& c.health_timeout == d.health_timeout && c.tmpfs == d.tmpfs && c.user_ns == d.user_ns
}

/// `d` is `c` but for the options that a downgrade changes.
pub open spec fn others_same(c: Container, d: Container) -> bool {
    d == (Container {
        entrypoint: d.entrypoint,
        stop_timeout: d.stop_timeout,
        notify: d.notify,
        podman_args: d.podman_args,
        read_only_tmpfs: d.read_only_tmpfs,
        gid_map: d.gid_map,
        sub_gid_map: d.sub_gid_map,
        sub_uid_map: d.sub_uid_map,
        uid_map: d.uid_map,
        dns: d.dns,
        dns_option: d.dns_option,
        dns_search: d.dns_search,
        pids_limit: d.pids_limit,
        shm_size: d.shm_size,
        ulimit: d.ulimit,
        auto_update: d.auto_update,
        label: d.label,
        security_label_nested: d.security_label_nested,
        mask: d.mask,
        unmask: d.unmask,
        sysctl: d.sysctl,
        host_name: d.host_name,
        pull: d.pull,
        working_dir: d.working_dir,
        rootfs: d.rootfs,
        secret: d.secret,
        log_driver: d.log_driver,
        mount: d.mount,
        ip: d.ip,
        ip6: d.ip6,
        health_interval: d.health_interval,
        health_on_failure: d.health_on_failure,
        health_retries: d.health_retries,
        health_start_period: d.health_start_period,
        health_startup_cmd: d.health_startup_cmd,
        health_startup_interval: d.health_startup_interval,
        health_startup_retries: d.health_startup_retries,
        health_startup_success: d.health_startup_success,
        health_startup_timeout: d.health_startup_timeout,
        health_timeout: d.health_timeout,
        tmpfs: d.tmpfs,
        user_ns: d.user_ns,
        ..c
    })
}

/// The label that sets an auto-update policy: "io.containers.autoupdate=POLICY".
pub open spec fn auto_update_label(p: AutoUpdate) -> Seq<char> {
    label_key_spec() + seq!['='] + policy_name(p)
}

/// Append `--flag value` where there is a value.
fn arg_opt(out: &mut String, flag: &str, o: &Option<String>)
    ensures
        final(out)@ == opt_arg(old(out)@, flag@, opt_seq(*o)),
{
    if let Some(s) = o {
        push_quoted_arg(out, flag, s.as_str());
    }
}

/// Append `--flag N` where there is a number.
fn arg_u64(out: &mut String, flag: &str, o: Option<u64>)
    ensures
        final(out)@ == opt_arg(old(out)@, flag@, u64_text(o)),
{
    if let Some(n) = o {
        let mut t = String::new();
        write_decimal(&mut t, n as u128);
        assert(t@ =~= decimal(n as nat));
        push_quoted_arg(out, flag, t.as_str());
    }
}

/// Append `--flag N` where there is a number.
fn arg_u16(out: &mut String, flag: &str, o: Option<u16>)
    ensures
        final(out)@ == opt_arg(old(out)@, flag@, u16_text(o)),
{
    if let Some(n) = o {
        let mut t = String::new();
        write_decimal(&mut t, n as u128);
        assert(t@ =~= decimal(n as nat));
        push_quoted_arg(out, flag, t.as_str());
    }
}

/// Append `--flag item` for each item.
fn arg_list(out: &mut String, flag: &str, items: &Vec<String>)
    ensures
        final(out)@ == list_args(old(out)@, flag@, items@),
{
    let ghost start = out@;
    let mut i: usize = 0;
    assert(items@.subrange(0, 0) =~= Seq::<String>::empty());
    while i < items.len()
        invariant
            i <= items@.len(),
            out@ == list_args(start, flag@, items@.subrange(0, i as int)),
        decreases items@.len() - i,
    {
        let ghost pre = items@.subrange(0, i + 1);
        assert(pre.drop_last() =~= items@.subrange(0, i as int));
        push_quoted_arg(out, flag, items[i].as_str());
        i = i + 1;
    }
    assert(items@.subrange(0, items@.len() as int) =~= items@);
}

/// Append `--mount MOUNT` for each mount.
fn arg_mounts(out: &mut String, mounts: &Vec<Mount>)
    ensures
        final(out)@ == texts_args(old(out)@, "mount"@, mount_texts(mounts@)),
{
    let ghost start = out@;
    let ghost all = mount_texts(mounts@);
    let mut i: usize = 0;
    assert(all.subrange(0, 0) =~= Seq::<Seq<char>>::empty());
    while i < mounts.len()
        invariant
            i <= mounts@.len(),
            all == mount_texts(mounts@),
            out@ == texts_args(start, "mount"@, all.subrange(0, i as int)),
        decreases mounts@.len() - i,
    {
        let ghost pre = all.subrange(0, i + 1);
        assert(pre.drop_last() =~= all.subrange(0, i as int));
        let text = mounts[i].to_string();
        push_quoted_arg(out, "mount", text.as_str());
        i = i + 1;
    }
    assert(all.subrange(0, all.len() as int) =~= all);
}

/// Append `s` to Podman's arguments, after a space unless there were none.
fn append_text(args: &mut Option<String>, s: &str)
    ensures
        *final(args) matches Some(a) && a@ == appended(opt_seq(*old(args)), s@),
{
    let mut a = match args.take() {
        Some(a) => a,
        None => String::new(),
    };
    if a.as_str().unicode_len() > 0 {
        push_char(&mut a, ' ');
    }
    push_str(&mut a, s);
    *args = Some(a);
}

/// Append the arguments of a group of options, unless there are none.
fn push_group(args: &mut Option<String>, s: &str)
    ensures
        opt_seq(*final(args)) == group_pushed(opt_seq(*old(args)), s@),
{
    if s.unicode_len() > 0 {
        append_text(args, s);
    }
}

/// Paths joined by ':', each that holds a space in double quotes.
fn unmask_text(u: &Unmask) -> (s: String)
    ensures
        s@ == unmask_joined(u@),
{
    let items = u.to_vec();
    escape_spaces_join_by(&items, ':')
}

/// Add the security options added in Podman 4.6 to Podman's arguments.
fn push_security_args(
    args: &mut Option<String>,
    nested: bool,
    mask: Vec<String>,
    unmask: Option<Unmask>,
)
    ensures
        opt_seq(*final(args)) == security_opt_args(opt_seq(*old(args)), nested, mask, unmask),
{
    if nested {
        push_arg_with(args, "security-opt", ' ', "label=nested");
    }
    if mask.len() > 0 {
        let ghost m = mask;
        let paths = Unmask::Paths(mask);
        let mut arg = String::new();
        push_str(&mut arg, "mask=");
        let joined = unmask_text(&paths);
        push_str(&mut arg, joined.as_str());
        assert(paths@ == UnmaskView::Paths(m.deep_view()));
        push_arg_with(args, "security-opt", ' ', arg.as_str());
    }
    if let Some(u) = unmask {
        let mut arg = String::new();
        push_str(&mut arg, "unmask=");
        let joined = unmask_text(&u);
        push_str(&mut arg, joined.as_str());
        push_arg_with(args, "security-opt", ' ', arg.as_str());
    }
}

impl Container {
    /// Turn the options added in Podman 5.0 into arguments.
    fn remove_v5_0_options(&mut self)
        ensures
            opt_seq(final(self).podman_args) == group_pushed(
                opt_seq(old(self).podman_args),
                v5_0_args(*old(self)),
            ),
            v5_0_cleared(*final(self)),
            others_same(*old(self), *final(self)),
            final(self).notify == old(self).notify && final(self).label == old(self).label,
            final(self).read_only_tmpfs == old(self).read_only_tmpfs,
            v4_8_same(*old(self), *final(self)) && v4_7_same(*old(self), *final(self)),
            v4_6_same(*old(self), *final(self)) && v4_5_same(*old(self), *final(self)),
    {
        let mut out = String::new();
        arg_opt(&mut out, "entrypoint", &self.entrypoint);
        arg_u64(&mut out, "stop-timeout", self.stop_timeout);
        self.entrypoint = None;
        self.stop_timeout = None;
        push_group(&mut self.podman_args, out.as_str());
    }

    /// Turn the options added in Podman 4.8 into arguments.
    fn remove_v4_8_options(&mut self)
        ensures
            opt_seq(final(self).podman_args) == group_pushed(
                if !old(self).read_only_tmpfs {
                    Some(appended(opt_seq(old(self).podman_args), "--read-only-tmpfs=false"@))
                } else {
                    opt_seq(old(self).podman_args)
                },
                v4_8_args(*old(self)),
            ),
            v4_8_cleared(*final(self)) && final(self).read_only_tmpfs,
            others_same(*old(self), *final(self)),
            final(self).entrypoint == old(self).entrypoint,
            final(self).stop_timeout == old(self).stop_timeout,
            final(self).notify == old(self).notify && final(self).label == old(self).label,
            v4_7_same(*old(self), *final(self)),
            v4_6_same(*old(self), *final(self)) && v4_5_same(*old(self), *final(self)),
    {
        if !self.read_only_tmpfs {
            self.read_only_tmpfs = true;
            append_text(&mut self.podman_args, "--read-only-tmpfs=false");
        }
        let mut out = String::new();
        arg_list(&mut out, "gidmap", &self.gid_map);
        arg_opt(&mut out, "subgidname", &self.sub_gid_map);
        arg_opt(&mut out, "subuidname", &self.sub_uid_map);
        arg_list(&mut out, "uidmap", &self.uid_map);
        self.gid_map = Vec::new();
        self.sub_gid_map = None;
        self.sub_uid_map = None;
        self.uid_map = Vec::new();
        push_group(&mut self.podman_args, out.as_str());
    }

    /// Turn the options added in Podman 4.7 into arguments.
    fn remove_v4_7_options(&mut self)
        ensures
            opt_seq(final(self).podman_args) == group_pushed(
                opt_seq(old(self).podman_args),
                v4_7_args(*old(self)),
            ),
            v4_7_cleared(*final(self)),
            others_same(*old(self), *final(self)),
            final(self).entrypoint == old(self).entrypoint,
            final(self).stop_timeout == old(self).stop_timeout,
            final(self).notify == old(self).notify && final(self).label == old(self).label,
            final(self).read_only_tmpfs == old(self).read_only_tmpfs,
            v4_8_same(*old(self), *final(self)),
            v4_6_same(*old(self), *final(self)) && v4_5_same(*old(self), *final(self)),
    {
        let mut out = String::new();
        match &self.dns {
            Dns::Disabled => push_quoted_arg(&mut out, "dns", "none"),
            Dns::Custom(ips) => arg_list(&mut out, "dns", ips),
        }
        arg_list(&mut out, "dns-option", &self.dns_option);
        arg_list(&mut out, "dns-search", &self.dns_search);
        match self.pids_limit {
            Some(PidsLimit::Value(n)) => {
                let mut t = String::new();
                write_decimal(&mut t, n as u128);
                assert(t@ =~= decimal(n as nat));
                push_quoted_arg(&mut out, "pids-limit", t.as_str());
            },
            Some(PidsLimit::Unlimited) => push_quoted_arg(&mut out, "pids-limit", "-1"),
            None => {},
        }
        arg_opt(&mut out, "shm-size", &self.shm_size);
        arg_list(&mut out, "ulimit", &self.ulimit);
        self.dns = Dns::Custom(Vec::new());
        self.dns_option = Vec::new();
        self.dns_search = Vec::new();
        self.pids_limit = None;
        self.shm_size = None;
        self.ulimit = Vec::new();
        push_group(&mut self.podman_args, out.as_str());
    }

    /// Turn the options added in Podman 4.6 into arguments, and the auto-update policy into a
    /// label.
    fn remove_v4_6_options(&mut self)
        ensures
            opt_seq(final(self).podman_args) == group_pushed(
                v4_6_security_args(*old(self), opt_seq(old(self).podman_args)),
                v4_6_args(*old(self)),
            ),
            match old(self).auto_update {
                Some(p) => final(self).label@.len() == old(self).label@.len() + 1
                    && final(self).label@.drop_last() == old(self).label@
                    && final(self).label@.last()@ == auto_update_label(p),
                None => final(self).label == old(self).label,
            },
            v4_6_cleared(*final(self)),
            others_same(*old(self), *final(self)),
            final(self).entrypoint == old(self).entrypoint,
            final(self).stop_timeout == old(self).stop_timeout,
            final(self).notify == old(self).notify,
            final(self).read_only_tmpfs == old(self).read_only_tmpfs,
            v4_8_same(*old(self), *final(self)) && v4_7_same(*old(self), *final(self)),
            v4_5_same(*old(self), *final(self)),
    {
        if let Some(p) = self.auto_update {
            let mut label = String::new();
            push_str(&mut label, AutoUpdate::label_key());
            push_char(&mut label, '=');
            push_str(&mut label, p.as_str());
            self.label.push(label);
            self.auto_update = None;
        }
        let mut mask: Vec<String> = Vec::new();
        std::mem::swap(&mut mask, &mut self.mask);
        let unmask = self.unmask.take();
        push_security_args(&mut self.podman_args, self.security_label_nested, mask, unmask);
        self.security_label_nested = false;
        let mut out = String::new();
        arg_list(&mut out, "sysctl", &self.sysctl);
        arg_opt(&mut out, "hostname", &self.host_name);
        match self.pull {
            Some(p) => push_quoted_arg(&mut out, "pull", p.as_str()),
            None => {},
        }
        arg_opt(&mut out, "workdir", &self.working_dir);
        self.sysctl = Vec::new();
        self.host_name = None;
        self.pull = None;
        self.working_dir = None;
        push_group(&mut self.podman_args, out.as_str());
    }

    /// Turn the options added in Podman 4.5 into arguments.
    fn remove_v4_5_options(&mut self)
        ensures
            opt_seq(final(self).podman_args) == group_pushed(
                opt_seq(old(self).podman_args),
                v4_5_args(*old(self)),
            ),
            v4_5_cleared(*final(self)),
            others_same(*old(self), *final(self)),
            final(self).entrypoint == old(self).entrypoint,
            final(self).stop_timeout == old(self).stop_timeout,
            final(self).notify == old(self).notify && final(self).label == old(self).label,
            final(self).read_only_tmpfs == old(self).read_only_tmpfs,
            v4_8_same(*old(self), *final(self)) && v4_7_same(*old(self), *final(self)),
            v4_6_same(*old(self), *final(self)),
    {
        let mut out = String::new();
        match &self.rootfs {
            Some(r) => {
                let t = r.to_string();
                push_quoted_arg(&mut out, "rootfs", t.as_str());
            },
            None => {},
        }
        arg_list(&mut out, "secret", &self.secret);
        arg_opt(&mut out, "log-driver", &self.log_driver);
        arg_mounts(&mut out, &self.mount);
        arg_opt(&mut out, "ip", &self.ip);
        arg_opt(&mut out, "ip6", &self.ip6);
        arg_opt(&mut out, "health-interval", &self.health_interval);
        arg_opt(&mut out, "health-on-failure", &self.health_on_failure);
        arg_u64(&mut out, "health-retries", self.health_retries);
        arg_opt(&mut out, "health-start-period", &self.health_start_period);
        arg_opt(&mut out, "health-startup-cmd", &self.health_startup_cmd);
        arg_opt(&mut out, "health-startup-interval", &self.health_startup_interval);
        arg_u16(&mut out, "health-startup-retries", self.health_startup_retries);
        arg_u16(&mut out, "health-startup-success", self.health_startup_success);
        arg_opt(&mut out, "health-startup-timeout", &self.health_startup_timeout);
        arg_opt(&mut out, "health-timeout", &self.health_timeout);
        arg_list(&mut out, "tmpfs", &self.tmpfs);
        arg_opt(&mut out, "userns", &self.user_ns);
        self.rootfs = None;
        self.secret = Vec::new();
        self.log_driver = None;
        self.mount = Vec::new();
        self.ip = None;
        self.ip6 = None;
        self.health_interval = None;
        self.health_on_failure = None;
        self.health_retries = None;
        self.health_start_period = None;
        self.health_startup_cmd = None;
        self.health_startup_interval = None;
        self.health_startup_retries = None;
        self.health_startup_success = None;
        self.health_startup_timeout = None;
        self.health_timeout = None;
        self.tmpfs = Vec::new();
        self.user_ns = None;
        push_group(&mut self.podman_args, out.as_str());
    }
}

impl Container {
    /// Makes the container fit Podman `version`: the options that it does not know become
    /// arguments in `PodmanArgs=` (see [`container_downgraded_args`]) and are unset, and an
    /// auto-update policy becomes a label. Notifying when healthy cannot be had before 4.7: that
    /// is an error, which comes after the options added in 5.0 are turned into arguments. The
    /// other options stay as they are.
    #[verifier::rlimit(50)]
    pub fn downgrade(&mut self, version: PodmanVersion) -> (r: Result<(), DowngradeError>)
        ensures
            !older(version, PodmanVersion { major: 5, minor: 0 }) ==> r is Ok && *final(self)
                == *old(self),
            opt_seq(final(self).podman_args) == container_downgraded_args(*old(self), version),
            others_same(*old(self), *final(self)),
            older(version, PodmanVersion { major: 5, minor: 0 }) ==> v5_0_cleared(*final(self)),
            !older(version, PodmanVersion { major: 5, minor: 0 }) ==> final(self).entrypoint
                == old(self).entrypoint && final(self).stop_timeout == old(self).stop_timeout,
            final(self).notify == if older(version, PodmanVersion { major: 5, minor: 0 })
                && proceeds(*old(self), version) && old(self).notify == Notify::Healthy {
                Notify::Conmon
            } else {
                old(self).notify
            },
            ({
                let go = proceeds(*old(self), version);
                &&& go && older(version, PodmanVersion { major: 4, minor: 8 }) ==> v4_8_cleared(
                    *final(self),
                ) && final(self).read_only_tmpfs
                &&& !(go && older(version, PodmanVersion { major: 4, minor: 8 })) ==> v4_8_same(
                    *old(self),
                    *final(self),
                ) && final(self).read_only_tmpfs == old(self).read_only_tmpfs
                &&& go && older(version, PodmanVersion { major: 4, minor: 7 }) ==> v4_7_cleared(
                    *final(self),
                )
                &&& !(go && older(version, PodmanVersion { major: 4, minor: 7 })) ==> v4_7_same(
                    *old(self),
                    *final(self),
                )
                &&& go && older(version, PodmanVersion { major: 4, minor: 6 }) ==> v4_6_cleared(
                    *final(self),
                )
                &&& !(go && older(version, PodmanVersion { major: 4, minor: 6 })) ==> v4_6_same(
                    *old(self),
                    *final(self),
                )
                &&& go && older(version, PodmanVersion { major: 4, minor: 5 }) ==> v4_5_cleared(
                    *final(self),
                )
                &&& !(go && older(version, PodmanVersion { major: 4, minor: 5 })) ==> v4_5_same(
                    *old(self),
                    *final(self),
                )
                &&& match old(self).auto_update {
                    Some(p) if go && older(version, PodmanVersion { major: 4, minor: 6 }) => {
                        &&& final(self).label@.len() == old(self).label@.len() + 1
                        &&& final(self).label@.drop_last() == old(self).label@
                        &&& final(self).label@.last()@ == auto_update_label(p)
                    },
                    _ => final(self).label == old(self).label,
                }
            }),
            match r {
                Ok(()) => proceeds(*old(self), version),
                Err(e) => !proceeds(*old(self), version) && e@ == (DowngradeErr::Option {
                    quadlet_option: "Notify"@,
                    value: "healthy"@,
                    supported_version: PodmanVersion { major: 4, minor: 7 },
                }),
            },
    {
        if version.is_older_than(PodmanVersion::new(5, 0)) {
            self.remove_v5_0_options();
            if self.notify == Notify::Healthy {
                if version.is_older_than(PodmanVersion::new(4, 7)) {
                    return Err(
                        DowngradeError::Option {
                            quadlet_option: "Notify".to_owned(),
                            value: "healthy".to_owned(),
                            supported_version: PodmanVersion::new(4, 7),
                        },
                    );
                }
                self.notify = Notify::Conmon;
                push_arg_with(&mut self.podman_args, "sdnotify", ' ', "healthy");
            }
        }
        if version.is_older_than(PodmanVersion::new(4, 8)) {
            self.remove_v4_8_options();
        }
        if version.is_older_than(PodmanVersion::new(4, 7)) {
            self.remove_v4_7_options();
        }
        if version.is_older_than(PodmanVersion::new(4, 6)) {
            self.remove_v4_6_options();
        }
        if version.is_older_than(PodmanVersion::new(4, 5)) {
            self.remove_v4_5_options();
        }
        Ok(())
    }
}

/// A container without the options that Podman `version` lacks fits it: downgrading to that
/// version adds no argument. So a container made to fit a version without error is left as it
/// is when it is made to fit that version again.
pub proof fn container_downgrade_settles(m: Container, version: PodmanVersion)
    requires
        older(version, PodmanVersion { major: 5, minor: 0 }) ==> v5_0_cleared(m) && m.notify
            != Notify::Healthy,
        older(version, PodmanVersion { major: 4, minor: 8 }) ==> v4_8_cleared(m)
            && m.read_only_tmpfs,
        older(version, PodmanVersion { major: 4, minor: 7 }) ==> v4_7_cleared(m),
        older(version, PodmanVersion { major: 4, minor: 6 }) ==> v4_6_cleared(m),
        older(version, PodmanVersion { major: 4, minor: 5 }) ==> v4_5_cleared(m),
    ensures
        proceeds(m, version),
        container_downgraded_args(m, version) == opt_seq(m.podman_args),
{
    if older(version, PodmanVersion { major: 4, minor: 5 }) {
        assert(mount_texts(m.mount@) =~= Seq::<Seq<char>>::empty());
    }
}

} // verus!
