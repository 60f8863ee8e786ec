//! The text of the `[Container]` section of a Quadlet `.container` file.

use vstd::prelude::*;

use crate::auto_update::{policy_name, AutoUpdate};
use crate::container::{pull_policy_name, PullPolicy, Unmask, UnmaskView};
use crate::container_downgrade::{mount_texts, pids_text, pull_text, rootfs_opt_text, u16_text,
    u64_text, unmask_joined};
use crate::device::{device_text, Device};
use crate::escape::{escape_spaces_join_by, space_quoted};
use crate::mount::{mount_text, Mount};
use crate::num::{decimal, write_decimal};
use crate::quadlet_container::{Container, Dns};
use crate::quadlet_lines::{
    copy_text, fields_give, flag_line, joined_line, list_lines, opt_line, push_flag, push_joined,
    push_list, push_option, section_text,
};
use crate::quadlet_options::{Notify, PidsLimit};
use crate::quadlet_ser::{header, option_line, option_lines};
use crate::rootfs::{rootfs_text, Rootfs};
use crate::text::{
    concat_upto, join, lemma_concat_item, lemma_occurs_append, lemma_occurs_end, lemma_occurs_shift,
    lemma_occurs_trans, occurs_in, opt_seq,
};
use crate::value::Field;
use crate::volume::{volume_text, Volume};

verus! {

/// The line "key=text" where there is a text; nothing otherwise.
pub open spec fn text_line(key: Seq<char>, o: Option<Seq<char>>) -> Seq<char> {
    match o {
        Some(t) => option_line(key, t),
        None => Seq::<char>::empty(),
    }
}

/// The name of an auto-update policy, where there is one.
pub open spec fn policy_text(o: Option<AutoUpdate>) -> Option<Seq<char>> {
    match o {
        Some(p) => Some(policy_name(p)),
        None => None,
    }
}

/// The texts of devices.
pub open spec fn device_texts(ds: Seq<Device>) -> Seq<Seq<char>> {
    ds.map_values(|d: Device| device_text(d@))
}

/// The texts of volumes.
pub open spec fn volume_texts(vs: Seq<Volume>) -> Seq<Seq<char>> {
    vs.map_values(|v: Volume| volume_text(v@))
}

/// The lines of the DNS setting: "DNS=none", or one line for each server.
pub open spec fn dns_lines(dns: Dns) -> Seq<char> {
    match dns {
        Dns::Disabled => option_line("DNS"@, "none"@),
        Dns::Custom(v) => list_lines("DNS"@, v@),
    }
}

/// The line of the masked paths, joined by ':'; nothing without paths.
pub open spec fn mask_line(mask: Vec<String>) -> Seq<char> {
    if mask@.len() > 0 {
        option_line("Mask"@, unmask_joined(UnmaskView::Paths(mask.deep_view())))
    } else {
        Seq::<char>::empty()
    }
}

/// The line of how the notify socket is used: nothing for conmon, "Notify=true" when the OCI
/// runtime passes it, "Notify=healthy" when healthy.
pub open spec fn notify_line(n: Notify) -> Seq<char> {
    match n {
        Notify::Conmon => Seq::<char>::empty(),
        Notify::Container => option_line("Notify"@, "true"@),
        Notify::Healthy => option_line("Notify"@, "healthy"@),
    }
}

/// The line of the unmasked paths, where they are set.
pub open spec fn unmask_line(u: Option<Unmask>) -> Seq<char> {
    match u {
        Some(u) => option_line("Unmask"@, unmask_joined(u@)),
        None => Seq::<char>::empty(),
    }
}

/// Lines of a `[Container]` section, part a.
pub open spec fn container_lines_a(start: Seq<char>, c: Container) -> Seq<char> {
    start
        + joined_line("AddCapability"@, c.add_capability@)
        + option_lines("AddDevice"@, device_texts(c.add_device@))
        + joined_line("Annotation"@, c.annotation@)
        + text_line("AutoUpdate"@, policy_text(c.auto_update))
        + opt_line("ContainerName"@, c.container_name)
        + dns_lines(c.dns)
        + list_lines("DNSOption"@, c.dns_option@)
        + list_lines("DNSSearch"@, c.dns_search@)
        + joined_line("DropCapability"@, c.drop_capability@)
        + opt_line("Entrypoint"@, c.entrypoint)
        + joined_line("Environment"@, c.environment@)
        + list_lines("EnvironmentFile"@, c.environment_file@)
        + flag_line("EnvironmentHost"@, c.environment_host)
        + opt_line("Exec"@, c.exec_command)
        + list_lines("ExposeHostPort"@, c.expose_host_port@)
        + list_lines("GIDMap"@, c.gid_map@)
        + opt_line("Group"@, c.group)
        + opt_line("HealthCmd"@, c.health_cmd)
        + opt_line("HealthInterval"@, c.health_interval)
        + opt_line("HealthOnFailure"@, c.health_on_failure)
        + text_line("HealthRetries"@, u64_text(c.health_retries))
        + opt_line("HealthStartPeriod"@, c.health_start_period)
        + opt_line("HealthStartupCmd"@, c.health_startup_cmd)
        + opt_line("HealthStartupInterval"@, c.health_startup_interval)
        + text_line("HealthStartupRetries"@, u16_text(c.health_startup_retries))
}

/// Lines of a `[Container]` section, part b.
pub open spec fn container_lines_b(start: Seq<char>, c: Container) -> Seq<char> {
    start
        + text_line("HealthStartupSuccess"@, u16_text(c.health_startup_success))
        + opt_line("HealthStartupTimeout"@, c.health_startup_timeout)
        + opt_line("HealthTimeout"@, c.health_timeout)
        + opt_line("HostName"@, c.host_name)
        + option_line("Image"@, c.image@)
        + opt_line("IP"@, c.ip)
        + opt_line("IP6"@, c.ip6)
        + joined_line("Label"@, c.label@)
        + opt_line("LogDriver"@, c.log_driver)
        + mask_line(c.mask)
        + option_lines("Mount"@, mount_texts(c.mount@))
        + list_lines("Network"@, c.network@)
        + flag_line("NoNewPrivileges"@, c.no_new_privileges)
        + notify_line(c.notify)
        + text_line("PidsLimit"@, pids_text(c.pids_limit))
        + opt_line("PodmanArgs"@, c.podman_args)
        + list_lines("PublishPort"@, c.publish_port@)
        + text_line("Pull"@, pull_text(c.pull))
        + flag_line("ReadOnly"@, c.read_only)
        + (if c.read_only_tmpfs { Seq::<char>::empty() } else { option_line("ReadOnlyTmpfs"@,
            "false"@) })
        + text_line("Rootfs"@, rootfs_opt_text(c.rootfs))
        + flag_line("RunInit"@, c.run_init)
        + opt_line("SeccompProfile"@, c.seccomp_profile)
        + list_lines("Secret"@, c.secret@)
        + flag_line("SecurityLabelDisable"@, c.security_label_disable)
}

/// Lines of a `[Container]` section, part c.
pub open spec fn container_lines_c(start: Seq<char>, c: Container) -> Seq<char> {
    start
        + opt_line("SecurityLabelFileType"@, c.security_label_file_type)
        + opt_line("SecurityLabelLevel"@, c.security_label_level)
        + flag_line("SecurityLabelNested"@, c.security_label_nested)
        + opt_line("SecurityLabelType"@, c.security_label_type)
        + opt_line("ShmSize"@, c.shm_size)
        + text_line("StopTimeout"@, u64_text(c.stop_timeout))
        + opt_line("SubGIDMap"@, c.sub_gid_map)
        + opt_line("SubUIDMap"@, c.sub_uid_map)
        + joined_line("Sysctl"@, c.sysctl@)
        + opt_line("Timezone"@, c.timezone)
        + list_lines("Tmpfs"@, c.tmpfs@)
        + list_lines("UIDMap"@, c.uid_map@)
        + list_lines("Ulimit"@, c.ulimit@)
        + unmask_line(c.unmask)
        + opt_line("User"@, c.user)
        + opt_line("UserNS"@, c.user_ns)
        + option_lines("Volume"@, volume_texts(c.volume@))
        + opt_line("WorkingDir"@, c.working_dir)
}

/// The lines of the options of a `[Container]` section: one for each option that is set (one
/// for each item of a list, or one for all items of the lists that are joined), in the order
/// of the fields; the image always.
pub open spec fn container_lines(c: Container) -> Seq<char> {
    container_lines_c(container_lines_b(container_lines_a(Seq::<char>::empty(), c), c), c)
}

/// The text of a `[Container]` section: its header, then its options.
pub open spec fn container_text(c: Container) -> Seq<char> {
    header(false, "Container"@) + container_lines(c)
}

/// Appends the field `key` with an optional text.
fn push_text(fields: &mut Vec<Field>, key: &str, value: Option<String>,
    Ghost(lines): Ghost<Seq<char>>)
    requires
        fields_give(old(fields)@, lines),
    ensures
        fields_give(final(fields)@, lines + text_line(key@, opt_seq(value))),
{
    push_option(fields, key, value, Ghost(lines));
}

/// A number's decimal text.
fn decimal_string(n: u128) -> (r: String)
    ensures
        r@ == decimal(n as nat),
{
    let mut t = String::new();
    write_decimal(&mut t, n);
    assert(t@ =~= decimal(n as nat));
    t
}

/// A number's decimal text, where there is one.
fn u64_string(o: Option<u64>) -> (r: Option<String>)
    ensures
        opt_seq(r) == u64_text(o),
{
    match o {
        Some(n) => Some(decimal_string(n as u128)),
        None => None,
    }
}

/// A number's decimal text, where there is one.
fn u16_string(o: Option<u16>) -> (r: Option<String>)
    ensures
        opt_seq(r) == u16_text(o),
{
    match o {
        Some(n) => Some(decimal_string(n as u128)),
        None => None,
    }
}

/// The text of a process limit, where there is one.
fn pids_string(o: Option<PidsLimit>) -> (r: Option<String>)
    ensures
        opt_seq(r) == pids_text(o),
{
    match o {
        Some(PidsLimit::Value(n)) => Some(decimal_string(n as u128)),
        Some(PidsLimit::Unlimited) => Some("-1".to_owned()),
        None => None,
    }
}

/// The name of a pull policy, where there is one.
fn pull_string(o: Option<PullPolicy>) -> (r: Option<String>)
    ensures
        opt_seq(r) == pull_text(o),
{
    match o {
        Some(p) => Some(p.as_str().to_owned()),
        None => None,
    }
}

/// The name of an auto-update policy, where there is one.
fn policy_string(o: Option<AutoUpdate>) -> (r: Option<String>)
    ensures
        opt_seq(r) == policy_text(o),
{
    match o {
        Some(p) => Some(p.as_str().to_owned()),
        None => None,
    }
}

/// The text of a root file system, where there is one.
fn rootfs_string(o: &Option<Rootfs>) -> (r: Option<String>)
    ensures
        opt_seq(r) == rootfs_opt_text(*o),
{
    match o {
        Some(r) => Some(r.to_string()),
        None => None,
    }
}

/// The texts of devices.
fn device_strings(ds: &Vec<Device>) -> (r: Vec<String>)
    ensures
        r@.map_values(|s: String| s@) == device_texts(ds@),
{
    let mut r: Vec<String> = Vec::new();
    let mut i: usize = 0;
    while i < ds.len()
        invariant
            i <= ds@.len(),
            r@.map_values(|s: String| s@) == device_texts(ds@).subrange(0, i as int),
        decreases ds@.len() - i,
    {
        let ghost prev = r@;
        let t = ds[i].to_string();
        let ghost tv = t@;
        r.push(t);
        assert(r@.map_values(|s: String| s@) =~= prev.map_values(|s: String| s@).push(tv));
        assert(device_texts(ds@).subrange(0, i + 1) =~= device_texts(ds@).subrange(0,
            i as int).push(
            device_text(ds@[i as int]@),
        ));
        i = i + 1;
    }
    assert(device_texts(ds@).subrange(0, ds@.len() as int) =~= device_texts(ds@));
    r
}

/// The texts of mounts.
fn mount_strings(ms: &Vec<Mount>) -> (r: Vec<String>)
    ensures
        r@.map_values(|s: String| s@) == mount_texts(ms@),
{
    let mut r: Vec<String> = Vec::new();
    let mut i: usize = 0;
    while i < ms.len()
        invariant
            i <= ms@.len(),
            r@.map_values(|s: String| s@) == mount_texts(ms@).subrange(0, i as int),
        decreases ms@.len() - i,
    {
        let ghost prev = r@;
        let t = ms[i].to_string();
        let ghost tv = t@;
        r.push(t);
        assert(r@.map_values(|s: String| s@) =~= prev.map_values(|s: String| s@).push(tv));
        assert(mount_texts(ms@).subrange(0, i + 1) =~= mount_texts(ms@).subrange(0, i as int).push(
            mount_text(ms@[i as int]@),
        ));
        i = i + 1;
    }
    assert(mount_texts(ms@).subrange(0, ms@.len() as int) =~= mount_texts(ms@));
    r
}

/// The texts of volumes.
fn volume_strings(vs: &Vec<Volume>) -> (r: Vec<String>)
    ensures
        r@.map_values(|s: String| s@) == volume_texts(vs@),
{
    let mut r: Vec<String> = Vec::new();
    let mut i: usize = 0;
    while i < vs.len()
        invariant
            i <= vs@.len(),
            r@.map_values(|s: String| s@) == volume_texts(vs@).subrange(0, i as int),
        decreases vs@.len() - i,
    {
        let ghost prev = r@;
        let t = vs[i].to_string();
        let ghost tv = t@;
        r.push(t);
        assert(r@.map_values(|s: String| s@) =~= prev.map_values(|s: String| s@).push(tv));
        assert(volume_texts(vs@).subrange(0, i + 1) =~= volume_texts(vs@).subrange(0,
            i as int).push(
            volume_text(vs@[i as int]@),
        ));
        i = i + 1;
    }
    assert(volume_texts(vs@).subrange(0, vs@.len() as int) =~= volume_texts(vs@));
    r
}

/// Appends the DNS setting.
fn push_dns(fields: &mut Vec<Field>, dns: &Dns, Ghost(lines): Ghost<Seq<char>>)
    requires
        fields_give(old(fields)@, lines),
    ensures
        fields_give(final(fields)@, lines + dns_lines(*dns)),
{
    match dns {
        Dns::Disabled => {
            push_option(fields, "DNS", Some("none".to_owned()), Ghost(lines));
        },
        Dns::Custom(v) => push_list(fields, "DNS", v, Ghost(lines)),
    }
}

/// Appends the masked paths, joined by ':'.
fn push_mask(fields: &mut Vec<Field>, mask: &Vec<String>, Ghost(lines): Ghost<Seq<char>>)
    requires
        fields_give(old(fields)@, lines),
    ensures
        fields_give(final(fields)@, lines + mask_line(*mask)),
{
    if mask.len() > 0 {
        let joined = escape_spaces_join_by(mask, ':');
        proof {
            assert(crate::container::unmask_items(UnmaskView::Paths(mask.deep_view()))
                == mask.deep_view());
        }
        push_option(fields, "Mask", Some(joined), Ghost(lines));
    } else {
        assert(lines + Seq::<char>::empty() =~= lines);
    }
}

/// Appends how the notify socket is used.
fn push_notify(fields: &mut Vec<Field>, n: Notify, Ghost(lines): Ghost<Seq<char>>)
    requires
        fields_give(old(fields)@, lines),
    ensures
        fields_give(final(fields)@, lines + notify_line(n)),
{
    match n {
        Notify::Conmon => {
            assert(lines + Seq::<char>::empty() =~= lines);
        },
        Notify::Container => {
            push_option(fields, "Notify", Some("true".to_owned()), Ghost(lines));
        },
        Notify::Healthy => {
            push_option(fields, "Notify", Some("healthy".to_owned()), Ghost(lines));
        },
    }
}

/// Appends the unmasked paths.
fn push_unmask(fields: &mut Vec<Field>, u: &Option<Unmask>, Ghost(lines): Ghost<Seq<char>>)
    requires
        fields_give(old(fields)@, lines),
    ensures
        fields_give(final(fields)@, lines + unmask_line(*u)),
{
    match u {
        Some(u) => {
            let items = u.to_vec();
            let joined = escape_spaces_join_by(&items, ':');
            push_option(fields, "Unmask", Some(joined), Ghost(lines));
        },
        None => {
            assert(lines + Seq::<char>::empty() =~= lines);
        },
    }
}

impl Container {
    /// Append the fields of part a of the section.
    #[verifier::rlimit(50)]
    fn push_fields_a(&self, fields: &mut Vec<Field>, Ghost(start): Ghost<Seq<char>>)
        requires
            fields_give(old(fields)@, start),
        ensures
            fields_give(final(fields)@, container_lines_a(start, *self)),
    {
        let ghost mut t = start;
        push_joined(fields, "AddCapability", &self.add_capability, Ghost(t));
        proof {
            t = t + joined_line("AddCapability"@, self.add_capability@);
        }
        let texts = device_strings(&self.add_device);
        push_list(fields, "AddDevice", &texts, Ghost(t));
        proof {
            t = t + option_lines("AddDevice"@, device_texts(self.add_device@));
        }
        push_joined(fields, "Annotation", &self.annotation, Ghost(t));
        proof {
            t = t + joined_line("Annotation"@, self.annotation@);
        }
        push_text(fields, "AutoUpdate", policy_string(self.auto_update), Ghost(t));
        proof {
            t = t + text_line("AutoUpdate"@, policy_text(self.auto_update));
        }
        push_option(fields, "ContainerName", copy_text(&self.container_name), Ghost(t));
        proof {
            t = t + opt_line("ContainerName"@, self.container_name);
        }
        push_dns(fields, &self.dns, Ghost(t));
        proof {
            t = t + dns_lines(self.dns);
        }
        push_list(fields, "DNSOption", &self.dns_option, Ghost(t));
        proof {
            t = t + list_lines("DNSOption"@, self.dns_option@);
        }
        push_list(fields, "DNSSearch", &self.dns_search, Ghost(t));
        proof {
            t = t + list_lines("DNSSearch"@, self.dns_search@);
        }
        push_joined(fields, "DropCapability", &self.drop_capability, Ghost(t));
        proof {
            t = t + joined_line("DropCapability"@, self.drop_capability@);
        }
        push_option(fields, "Entrypoint", copy_text(&self.entrypoint), Ghost(t));
        proof {
            t = t + opt_line("Entrypoint"@, self.entrypoint);
        }
        push_joined(fields, "Environment", &self.environment, Ghost(t));
        proof {
            t = t + joined_line("Environment"@, self.environment@);
        }
        push_list(fields, "EnvironmentFile", &self.environment_file, Ghost(t));
        proof {
            t = t + list_lines("EnvironmentFile"@, self.environment_file@);
        }
        push_flag(fields, "EnvironmentHost", self.environment_host, Ghost(t));
        proof {
            t = t + flag_line("EnvironmentHost"@, self.environment_host);
        }
        push_option(fields, "Exec", copy_text(&self.exec_command), Ghost(t));
        proof {
            t = t + opt_line("Exec"@, self.exec_command);
        }
        push_list(fields, "ExposeHostPort", &self.expose_host_port, Ghost(t));
        proof {
            t = t + list_lines("ExposeHostPort"@, self.expose_host_port@);
        }
        push_list(fields, "GIDMap", &self.gid_map, Ghost(t));
        proof {
            t = t + list_lines("GIDMap"@, self.gid_map@);
        }
        push_option(fields, "Group", copy_text(&self.group), Ghost(t));
        proof {
            t = t + opt_line("Group"@, self.group);
        }
        push_option(fields, "HealthCmd", copy_text(&self.health_cmd), Ghost(t));
        proof {
            t = t + opt_line("HealthCmd"@, self.health_cmd);
        }
        push_option(fields, "HealthInterval", copy_text(&self.health_interval), Ghost(t));
        proof {
            t = t + opt_line("HealthInterval"@, self.health_interval);
        }
        push_option(fields, "HealthOnFailure", copy_text(&self.health_on_failure), Ghost(t));
        proof {
            t = t + opt_line("HealthOnFailure"@, self.health_on_failure);
        }
        push_text(fields, "HealthRetries", u64_string(self.health_retries), Ghost(t));
        proof {
            t = t + text_line("HealthRetries"@, u64_text(self.health_retries));
        }
        push_option(fields, "HealthStartPeriod", copy_text(&self.health_start_period), Ghost(t));
        proof {
            t = t + opt_line("HealthStartPeriod"@, self.health_start_period);
        }
        push_option(fields, "HealthStartupCmd", copy_text(&self.health_startup_cmd), Ghost(t));
        proof {
            t = t + opt_line("HealthStartupCmd"@, self.health_startup_cmd);
        }
        push_option(fields, "HealthStartupInterval", copy_text(&self.health_startup_interval),
            Ghost(t));
        proof {
            t = t + opt_line("HealthStartupInterval"@, self.health_startup_interval);
        }
        push_text(fields, "HealthStartupRetries", u16_string(self.health_startup_retries),
            Ghost(t));
        proof {
            t = t + text_line("HealthStartupRetries"@, u16_text(self.health_startup_retries));
        }
    }

    /// Append the fields of part b of the section.
    #[verifier::rlimit(50)]
    fn push_fields_b(&self, fields: &mut Vec<Field>, Ghost(start): Ghost<Seq<char>>)
        requires
            fields_give(old(fields)@, start),
        ensures
            fields_give(final(fields)@, container_lines_b(start, *self)),
    {
        let ghost mut t = start;
        push_text(fields, "HealthStartupSuccess", u16_string(self.health_startup_success),
            Ghost(t));
        proof {
            t = t + text_line("HealthStartupSuccess"@, u16_text(self.health_startup_success));
        }
        push_option(fields, "HealthStartupTimeout", copy_text(&self.health_startup_timeout),
            Ghost(t));
        proof {
            t = t + opt_line("HealthStartupTimeout"@, self.health_startup_timeout);
        }
        push_option(fields, "HealthTimeout", copy_text(&self.health_timeout), Ghost(t));
        proof {
            t = t + opt_line("HealthTimeout"@, self.health_timeout);
        }
        push_option(fields, "HostName", copy_text(&self.host_name), Ghost(t));
        proof {
            t = t + opt_line("HostName"@, self.host_name);
        }
        push_option(fields, "Image", Some(self.image.clone()), Ghost(t));
        proof {
            t = t + option_line("Image"@, self.image@);
        }
        push_option(fields, "IP", copy_text(&self.ip), Ghost(t));
        proof {
            t = t + opt_line("IP"@, self.ip);
        }
        push_option(fields, "IP6", copy_text(&self.ip6), Ghost(t));
        proof {
            t = t + opt_line("IP6"@, self.ip6);
        }
        push_joined(fields, "Label", &self.label, Ghost(t));
        proof {
            t = t + joined_line("Label"@, self.label@);
        }
        push_option(fields, "LogDriver", copy_text(&self.log_driver), Ghost(t));
        proof {
            t = t + opt_line("LogDriver"@, self.log_driver);
        }
        push_mask(fields, &self.mask, Ghost(t));
        proof {
            t = t + mask_line(self.mask);
        }
        let texts = mount_strings(&self.mount);
        push_list(fields, "Mount", &texts, Ghost(t));
        proof {
            t = t + option_lines("Mount"@, mount_texts(self.mount@));
        }
        push_list(fields, "Network", &self.network, Ghost(t));
        proof {
            t = t + list_lines("Network"@, self.network@);
        }
        push_flag(fields, "NoNewPrivileges", self.no_new_privileges, Ghost(t));
        proof {
            t = t + flag_line("NoNewPrivileges"@, self.no_new_privileges);
        }
        push_notify(fields, self.notify, Ghost(t));
        proof {
            t = t + notify_line(self.notify);
        }
        push_text(fields, "PidsLimit", pids_string(self.pids_limit), Ghost(t));
        proof {
            t = t + text_line("PidsLimit"@, pids_text(self.pids_limit));
        }
        push_option(fields, "PodmanArgs", copy_text(&self.podman_args), Ghost(t));
        proof {
            t = t + opt_line("PodmanArgs"@, self.podman_args);
        }
        push_list(fields, "PublishPort", &self.publish_port, Ghost(t));
        proof {
            t = t + list_lines("PublishPort"@, self.publish_port@);
        }
        push_text(fields, "Pull", pull_string(self.pull), Ghost(t));
        proof {
            t = t + text_line("Pull"@, pull_text(self.pull));
        }
        push_flag(fields, "ReadOnly", self.read_only, Ghost(t));
        proof {
            t = t + flag_line("ReadOnly"@, self.read_only);
        }
        push_text(fields, "ReadOnlyTmpfs",
            if self.read_only_tmpfs { None } else { Some("false".to_owned()) }, Ghost(t));
        proof {
            t = t + (if self.read_only_tmpfs { Seq::<char>::empty() } else { option_line("ReadOnlyTmpfs"@,
                "false"@) });
        }
        push_text(fields, "Rootfs", rootfs_string(&self.rootfs), Ghost(t));
        proof {
            t = t + text_line("Rootfs"@, rootfs_opt_text(self.rootfs));
        }
        push_flag(fields, "RunInit", self.run_init, Ghost(t));
        proof {
            t = t + flag_line("RunInit"@, self.run_init);
        }
        push_option(fields, "SeccompProfile", copy_text(&self.seccomp_profile), Ghost(t));
        proof {
            t = t + opt_line("SeccompProfile"@, self.seccomp_profile);
        }
        push_list(fields, "Secret", &self.secret, Ghost(t));
        proof {
            t = t + list_lines("Secret"@, self.secret@);
        }
        push_flag(fields, "SecurityLabelDisable", self.security_label_disable, Ghost(t));
        proof {
            t = t + flag_line("SecurityLabelDisable"@, self.security_label_disable);
        }
    }

    /// Append the fields of part c of the section.
    #[verifier::rlimit(50)]
    fn push_fields_c(&self, fields: &mut Vec<Field>, Ghost(start): Ghost<Seq<char>>)
        requires
            fields_give(old(fields)@, start),
        ensures
            fields_give(final(fields)@, container_lines_c(start, *self)),
    {
        let ghost mut t = start;
        push_option(fields, "SecurityLabelFileType", copy_text(&self.security_label_file_type),
            Ghost(t));
        proof {
            t = t + opt_line("SecurityLabelFileType"@, self.security_label_file_type);
        }
        push_option(fields, "SecurityLabelLevel", copy_text(&self.security_label_level), Ghost(t));
        proof {
            t = t + opt_line("SecurityLabelLevel"@, self.security_label_level);
        }
        push_flag(fields, "SecurityLabelNested", self.security_label_nested, Ghost(t));
        proof {
            t = t + flag_line("SecurityLabelNested"@, self.security_label_nested);
        }
        push_option(fields, "SecurityLabelType", copy_text(&self.security_label_type), Ghost(t));
        proof {
            t = t + opt_line("SecurityLabelType"@, self.security_label_type);
        }
        push_option(fields, "ShmSize", copy_text(&self.shm_size), Ghost(t));
        proof {
            t = t + opt_line("ShmSize"@, self.shm_size);
        }
        push_text(fields, "StopTimeout", u64_string(self.stop_timeout), Ghost(t));
        proof {
            t = t + text_line("StopTimeout"@, u64_text(self.stop_timeout));
        }
        push_option(fields, "SubGIDMap", copy_text(&self.sub_gid_map), Ghost(t));
        proof {
            t = t + opt_line("SubGIDMap"@, self.sub_gid_map);
        }
        push_option(fields, "SubUIDMap", copy_text(&self.sub_uid_map), Ghost(t));
        proof {
            t = t + opt_line("SubUIDMap"@, self.sub_uid_map);
        }
        push_joined(fields, "Sysctl", &self.sysctl, Ghost(t));
        proof {
            t = t + joined_line("Sysctl"@, self.sysctl@);
        }
        push_option(fields, "Timezone", copy_text(&self.timezone), Ghost(t));
        proof {
            t = t + opt_line("Timezone"@, self.timezone);
        }
        push_list(fields, "Tmpfs", &self.tmpfs, Ghost(t));
        proof {
            t = t + list_lines("Tmpfs"@, self.tmpfs@);
        }
        push_list(fields, "UIDMap", &self.uid_map, Ghost(t));
        proof {
            t = t + list_lines("UIDMap"@, self.uid_map@);
        }
        push_list(fields, "Ulimit", &self.ulimit, Ghost(t));
        proof {
            t = t + list_lines("Ulimit"@, self.ulimit@);
        }
        push_unmask(fields, &self.unmask, Ghost(t));
        proof {
            t = t + unmask_line(self.unmask);
        }
        push_option(fields, "User", copy_text(&self.user), Ghost(t));
        proof {
            t = t + opt_line("User"@, self.user);
        }
        push_option(fields, "UserNS", copy_text(&self.user_ns), Ghost(t));
        proof {
            t = t + opt_line("UserNS"@, self.user_ns);
        }
        let texts = volume_strings(&self.volume);
        push_list(fields, "Volume", &texts, Ghost(t));
        proof {
            t = t + option_lines("Volume"@, volume_texts(self.volume@));
        }
        push_option(fields, "WorkingDir", copy_text(&self.working_dir), Ghost(t));
        proof {
            t = t + opt_line("WorkingDir"@, self.working_dir);
        }
    }

    /// The text of the `[Container]` section.
    pub fn to_string(&self) -> (r: String)
        ensures
            r@ == container_text(*self),
    {
        let mut fields: Vec<Field> = Vec::new();
        let ghost t0 = Seq::<char>::empty();
        assert(fields_give(fields@, t0));
        self.push_fields_a(&mut fields, Ghost(t0));
        self.push_fields_b(&mut fields, Ghost(container_lines_a(t0, *self)));
        self.push_fields_c(
            &mut fields,
            Ghost(container_lines_b(container_lines_a(t0, *self), *self)),
        );
        section_text("Container", fields, Ghost(container_lines(*self)))
    }
}


/// The lines of the options of a `[Container]` section, one run of lines after another, in the
/// order in which they are written.
spec fn container_piece(c: Container, i: int) -> Seq<char> {
    if i == 0 {
        joined_line("AddCapability"@, c.add_capability@)
    } else if i == 1 {
        option_lines("AddDevice"@, device_texts(c.add_device@))
    } else if i == 2 {
        joined_line("Annotation"@, c.annotation@)
    } else if i == 3 {
        text_line("AutoUpdate"@, policy_text(c.auto_update))
    } else if i == 4 {
        opt_line("ContainerName"@, c.container_name)
    } else if i == 5 {
        dns_lines(c.dns)
    } else if i == 6 {
        list_lines("DNSOption"@, c.dns_option@)
    } else if i == 7 {
        list_lines("DNSSearch"@, c.dns_search@)
    } else if i == 8 {
        joined_line("DropCapability"@, c.drop_capability@)
    } else if i == 9 {
        opt_line("Entrypoint"@, c.entrypoint)
    } else if i == 10 {
        joined_line("Environment"@, c.environment@)
    } else if i == 11 {
        list_lines("EnvironmentFile"@, c.environment_file@)
    } else if i == 12 {
        flag_line("EnvironmentHost"@, c.environment_host)
    } else if i == 13 {
        opt_line("Exec"@, c.exec_command)
    } else if i == 14 {
        list_lines("ExposeHostPort"@, c.expose_host_port@)
    } else if i == 15 {
        list_lines("GIDMap"@, c.gid_map@)
    } else if i == 16 {
        opt_line("Group"@, c.group)
    } else if i == 17 {
        opt_line("HealthCmd"@, c.health_cmd)
    } else if i == 18 {
        opt_line("HealthInterval"@, c.health_interval)
    } else if i == 19 {
        opt_line("HealthOnFailure"@, c.health_on_failure)
    } else if i == 20 {
        text_line("HealthRetries"@, u64_text(c.health_retries))
    } else if i == 21 {
        opt_line("HealthStartPeriod"@, c.health_start_period)
    } else if i == 22 {
        opt_line("HealthStartupCmd"@, c.health_startup_cmd)
    } else if i == 23 {
        opt_line("HealthStartupInterval"@, c.health_startup_interval)
    } else if i == 24 {
        text_line("HealthStartupRetries"@, u16_text(c.health_startup_retries))
    } else if i == 25 {
        text_line("HealthStartupSuccess"@, u16_text(c.health_startup_success))
    } else if i == 26 {
        opt_line("HealthStartupTimeout"@, c.health_startup_timeout)
    } else if i == 27 {
        opt_line("HealthTimeout"@, c.health_timeout)
    } else if i == 28 {
        opt_line("HostName"@, c.host_name)
    } else if i == 29 {
        option_line("Image"@, c.image@)
    } else if i == 30 {
        opt_line("IP"@, c.ip)
    } else if i == 31 {
        opt_line("IP6"@, c.ip6)
    } else if i == 32 {
        joined_line("Label"@, c.label@)
    } else if i == 33 {
        opt_line("LogDriver"@, c.log_driver)
    } else if i == 34 {
        mask_line(c.mask)
    } else if i == 35 {
        option_lines("Mount"@, mount_texts(c.mount@))
    } else if i == 36 {
        list_lines("Network"@, c.network@)
    } else if i == 37 {
        flag_line("NoNewPrivileges"@, c.no_new_privileges)
    } else if i == 38 {
        notify_line(c.notify)
    } else if i == 39 {
        text_line("PidsLimit"@, pids_text(c.pids_limit))
    } else if i == 40 {
        opt_line("PodmanArgs"@, c.podman_args)
    } else if i == 41 {
        list_lines("PublishPort"@, c.publish_port@)
    } else if i == 42 {
        text_line("Pull"@, pull_text(c.pull))
    } else if i == 43 {
        flag_line("ReadOnly"@, c.read_only)
    } else if i == 44 {
        if c.read_only_tmpfs { Seq::<char>::empty() } else { option_line("ReadOnlyTmpfs"@,
            "false"@) }
    } else if i == 45 {
        text_line("Rootfs"@, rootfs_opt_text(c.rootfs))
    } else if i == 46 {
        flag_line("RunInit"@, c.run_init)
    } else if i == 47 {
        opt_line("SeccompProfile"@, c.seccomp_profile)
    } else if i == 48 {
        list_lines("Secret"@, c.secret@)
    } else if i == 49 {
        flag_line("SecurityLabelDisable"@, c.security_label_disable)
    } else if i == 50 {
        opt_line("SecurityLabelFileType"@, c.security_label_file_type)
    } else if i == 51 {
        opt_line("SecurityLabelLevel"@, c.security_label_level)
    } else if i == 52 {
        flag_line("SecurityLabelNested"@, c.security_label_nested)
    } else if i == 53 {
        opt_line("SecurityLabelType"@, c.security_label_type)
    } else if i == 54 {
        opt_line("ShmSize"@, c.shm_size)
    } else if i == 55 {
        text_line("StopTimeout"@, u64_text(c.stop_timeout))
    } else if i == 56 {
        opt_line("SubGIDMap"@, c.sub_gid_map)
    } else if i == 57 {
        opt_line("SubUIDMap"@, c.sub_uid_map)
    } else if i == 58 {
        joined_line("Sysctl"@, c.sysctl@)
    } else if i == 59 {
        opt_line("Timezone"@, c.timezone)
    } else if i == 60 {
        list_lines("Tmpfs"@, c.tmpfs@)
    } else if i == 61 {
        list_lines("UIDMap"@, c.uid_map@)
    } else if i == 62 {
        list_lines("Ulimit"@, c.ulimit@)
    } else if i == 63 {
        unmask_line(c.unmask)
    } else if i == 64 {
        opt_line("User"@, c.user)
    } else if i == 65 {
        opt_line("UserNS"@, c.user_ns)
    } else if i == 66 {
        option_lines("Volume"@, volume_texts(c.volume@))
    } else if i == 67 {
        opt_line("WorkingDir"@, c.working_dir)
    } else {
        Seq::<char>::empty()
    }
}

/// The runs of lines of a container's options, by position.
spec fn container_pieces(c: Container) -> spec_fn(int) -> Seq<char> {
    |i: int| container_piece(c, i)
}

/// The lines of a container are its runs of lines put together.
#[verifier::rlimit(100)]
proof fn lemma_lines_as_pieces(c: Container)
    ensures
        container_lines(c) == concat_upto(Seq::<char>::empty(), container_pieces(c), 68),
{
    let f = container_pieces(c);
    let e = Seq::<char>::empty();
    assert(concat_upto(e, f, 25) == container_lines_a(e, c)) by {
        reveal_with_fuel(concat_upto, 26);
    }
    assert(concat_upto(e, f, 50) == container_lines_b(container_lines_a(e, c), c)) by {
        reveal_with_fuel(concat_upto, 26);
    }
    assert(concat_upto(e, f, 68) == container_lines(c)) by {
        reveal_with_fuel(concat_upto, 19);
    }
}

/// The section text of a container, held opaque while its lines are looked for.
#[verifier::opaque]
spec fn text_of(c: Container) -> Seq<char> {
    container_text(c)
}

/// Each run of lines of a container's options occurs in its section text.
proof fn lemma_piece_in_text(c: Container, j: int)
    requires
        0 <= j < 68,
    ensures
        occurs_in(container_piece(c, j), text_of(c)),
{
    reveal(text_of);
    lemma_lines_as_pieces(c);
    lemma_concat_item(Seq::<char>::empty(), container_pieces(c), 68, j);
    lemma_occurs_shift(container_piece(c, j), header(false, "Container"@), container_lines(c));
}

/// Each line of a run of "key=text" lines occurs in it.
proof fn lemma_option_lines_item(k: Seq<char>, ts: Seq<Seq<char>>, i: int)
    requires
        0 <= i < ts.len(),
    ensures
        occurs_in(option_line(k, ts[i]), option_lines(k, ts)),
    decreases ts.len(),
{
    if i == ts.len() - 1 {
        lemma_occurs_end(option_lines(k, ts.drop_last()), option_line(k, ts[i]));
    } else {
        lemma_option_lines_item(k, ts.drop_last(), i);
        lemma_occurs_append(option_line(k, ts[i]), option_lines(k, ts.drop_last()), option_line(k,
            ts.last()));
    }
}

/// The lines of the option `add_capability` stand in the section text.
proof fn text_has_add_capability(c: Container)
    ensures
        c.add_capability@.len() > 0 ==> occurs_in(option_line("AddCapability"@,
            join(c.add_capability@.map_values(|s: String| space_quoted(s@)), seq![' '])),
            text_of(c)),
{
    lemma_piece_in_text(c, 0);
}

/// The lines of the option `add_device` stand in the section text.
proof fn text_has_add_device(c: Container)
    ensures
        forall|i: int| 0 <= i < c.add_device@.len() ==> occurs_in(option_line("AddDevice"@,
            device_text((#[trigger] c.add_device@[i])@)), text_of(c)),
{
    lemma_piece_in_text(c, 1);
    assert forall|i: int| 0 <= i < c.add_device@.len() implies occurs_in(option_line("AddDevice"@,
        device_text((#[trigger] c.add_device@[i])@)), text_of(c)) by {
        let ts = device_texts(c.add_device@);
        lemma_option_lines_item("AddDevice"@, ts, i);
        lemma_occurs_trans(option_line("AddDevice"@, ts[i]), container_piece(c, 1), text_of(c));
    }
}

/// The lines of the option `annotation` stand in the section text.
proof fn text_has_annotation(c: Container)
    ensures
        c.annotation@.len() > 0 ==> occurs_in(option_line("Annotation"@,
            join(c.annotation@.map_values(|s: String| space_quoted(s@)), seq![' '])), text_of(c)),
{
    lemma_piece_in_text(c, 2);
}

/// The lines of the option `auto_update` stand in the section text.
proof fn text_has_auto_update(c: Container)
    ensures
        c.auto_update matches Some(p) ==> occurs_in(option_line("AutoUpdate"@, policy_name(p)),
            text_of(c)),
{
    lemma_piece_in_text(c, 3);
}

/// The lines of the option `container_name` stand in the section text.
proof fn text_has_container_name(c: Container)
    ensures
        c.container_name matches Some(v) ==> occurs_in(option_line("ContainerName"@, v@),
            text_of(c)),
{
    lemma_piece_in_text(c, 4);
}

/// The lines of the option `dns` stand in the section text.
proof fn text_has_dns(c: Container)
    ensures
        (c.dns == Dns::Disabled ==> occurs_in(option_line("DNS"@, "none"@), text_of(c)))
            && (c.dns matches Dns::Custom(v) ==> forall|i: int| 0 <= i < v@.len()
                ==> occurs_in(option_line("DNS"@, (#[trigger] v@[i])@), text_of(c))),
{
    lemma_piece_in_text(c, 5);
    if let Dns::Custom(v) = c.dns {
        assert forall|i: int| 0 <= i < v@.len() implies occurs_in(option_line("DNS"@,
            (#[trigger] v@[i])@), text_of(c)) by {
            let ts = v@.map_values(|s: String| s@);
            lemma_option_lines_item("DNS"@, ts, i);
            lemma_occurs_trans(option_line("DNS"@, ts[i]), container_piece(c, 5), text_of(c));
        }
    }
}

/// The lines of the option `dns_option` stand in the section text.
proof fn text_has_dns_option(c: Container)
    ensures
        forall|i: int| 0 <= i < c.dns_option@.len() ==> occurs_in(option_line("DNSOption"@,
            (#[trigger] c.dns_option@[i])@), text_of(c)),
{
    lemma_piece_in_text(c, 6);
    assert forall|i: int| 0 <= i < c.dns_option@.len() implies occurs_in(option_line("DNSOption"@,
        (#[trigger] c.dns_option@[i])@), text_of(c)) by {
        let ts = c.dns_option@.map_values(|s: String| s@);
        lemma_option_lines_item("DNSOption"@, ts, i);
        lemma_occurs_trans(option_line("DNSOption"@, ts[i]), container_piece(c, 6), text_of(c));
    }
}

/// The lines of the option `dns_search` stand in the section text.
proof fn text_has_dns_search(c: Container)
    ensures
        forall|i: int| 0 <= i < c.dns_search@.len() ==> occurs_in(option_line("DNSSearch"@,
            (#[trigger] c.dns_search@[i])@), text_of(c)),
{
    lemma_piece_in_text(c, 7);
    assert forall|i: int| 0 <= i < c.dns_search@.len() implies occurs_in(option_line("DNSSearch"@,
        (#[trigger] c.dns_search@[i])@), text_of(c)) by {
        let ts = c.dns_search@.map_values(|s: String| s@);
        lemma_option_lines_item("DNSSearch"@, ts, i);
        lemma_occurs_trans(option_line("DNSSearch"@, ts[i]), container_piece(c, 7), text_of(c));
    }
}

/// The lines of the option `drop_capability` stand in the section text.
proof fn text_has_drop_capability(c: Container)
    ensures
        c.drop_capability@.len() > 0 ==> occurs_in(option_line("DropCapability"@,
            join(c.drop_capability@.map_values(|s: String| space_quoted(s@)), seq![' '])),
            text_of(c)),
{
    lemma_piece_in_text(c, 8);
}

/// The lines of the option `entrypoint` stand in the section text.
proof fn text_has_entrypoint(c: Container)
    ensures
        c.entrypoint matches Some(v) ==> occurs_in(option_line("Entrypoint"@, v@), text_of(c)),
{
    lemma_piece_in_text(c, 9);
}

/// The lines of the option `environment` stand in the section text.
proof fn text_has_environment(c: Container)
    ensures
        c.environment@.len() > 0 ==> occurs_in(option_line("Environment"@,
            join(c.environment@.map_values(|s: String| space_quoted(s@)), seq![' '])), text_of(c)),
{
    lemma_piece_in_text(c, 10);
}

/// The lines of the option `environment_file` stand in the section text.
proof fn text_has_environment_file(c: Container)
    ensures
        forall|i: int| 0 <= i < c.environment_file@.len()
            ==> occurs_in(option_line("EnvironmentFile"@, (#[trigger] c.environment_file@[i])@),
            text_of(c)),
{
    lemma_piece_in_text(c, 11);
    assert forall|i: int| 0 <= i < c.environment_file@.len() implies occurs_in(option_line("EnvironmentFile"@,
        (#[trigger] c.environment_file@[i])@), text_of(c)) by {
        let ts = c.environment_file@.map_values(|s: String| s@);
        lemma_option_lines_item("EnvironmentFile"@, ts, i);
        lemma_occurs_trans(option_line("EnvironmentFile"@, ts[i]), container_piece(c, 11),
            text_of(c));
    }
}

/// The lines of the option `environment_host` stand in the section text.
proof fn text_has_environment_host(c: Container)
    ensures
        c.environment_host ==> occurs_in(option_line("EnvironmentHost"@, "true"@), text_of(c)),
{
    lemma_piece_in_text(c, 12);
}

/// The lines of the option `exec_command` stand in the section text.
proof fn text_has_exec_command(c: Container)
    ensures
        c.exec_command matches Some(v) ==> occurs_in(option_line("Exec"@, v@), text_of(c)),
{
    lemma_piece_in_text(c, 13);
}

/// The lines of the option `expose_host_port` stand in the section text.
proof fn text_has_expose_host_port(c: Container)
    ensures
        forall|i: int| 0 <= i < c.expose_host_port@.len()
            ==> occurs_in(option_line("ExposeHostPort"@, (#[trigger] c.expose_host_port@[i])@),
            text_of(c)),
{
    lemma_piece_in_text(c, 14);
    assert forall|i: int| 0 <= i < c.expose_host_port@.len() implies occurs_in(option_line("ExposeHostPort"@,
        (#[trigger] c.expose_host_port@[i])@), text_of(c)) by {
        let ts = c.expose_host_port@.map_values(|s: String| s@);
        lemma_option_lines_item("ExposeHostPort"@, ts, i);
        lemma_occurs_trans(option_line("ExposeHostPort"@, ts[i]), container_piece(c, 14),
            text_of(c));
    }
}

/// The lines of the option `gid_map` stand in the section text.
proof fn text_has_gid_map(c: Container)
    ensures
        forall|i: int| 0 <= i < c.gid_map@.len() ==> occurs_in(option_line("GIDMap"@,
            (#[trigger] c.gid_map@[i])@), text_of(c)),
{
    lemma_piece_in_text(c, 15);
    assert forall|i: int| 0 <= i < c.gid_map@.len() implies occurs_in(option_line("GIDMap"@,
        (#[trigger] c.gid_map@[i])@), text_of(c)) by {
        let ts = c.gid_map@.map_values(|s: String| s@);
        lemma_option_lines_item("GIDMap"@, ts, i);
        lemma_occurs_trans(option_line("GIDMap"@, ts[i]), container_piece(c, 15), text_of(c));
    }
}

/// The lines of the option `group` stand in the section text.
proof fn text_has_group(c: Container)
    ensures
        c.group matches Some(v) ==> occurs_in(option_line("Group"@, v@), text_of(c)),
{
    lemma_piece_in_text(c, 16);
}

/// The lines of the option `health_cmd` stand in the section text.
proof fn text_has_health_cmd(c: Container)
    ensures
        c.health_cmd matches Some(v) ==> occurs_in(option_line("HealthCmd"@, v@), text_of(c)),
{
    lemma_piece_in_text(c, 17);
}

/// The lines of the option `health_interval` stand in the section text.
proof fn text_has_health_interval(c: Container)
    ensures
        c.health_interval matches Some(v) ==> occurs_in(option_line("HealthInterval"@, v@),
            text_of(c)),
{
    lemma_piece_in_text(c, 18);
}

/// The lines of the option `health_on_failure` stand in the section text.
proof fn text_has_health_on_failure(c: Container)
    ensures
        c.health_on_failure matches Some(v) ==> occurs_in(option_line("HealthOnFailure"@, v@),
            text_of(c)),
{
    lemma_piece_in_text(c, 19);
}

/// The lines of the option `health_retries` stand in the section text.
proof fn text_has_health_retries(c: Container)
    ensures
        c.health_retries matches Some(n) ==> occurs_in(option_line("HealthRetries"@,
            decimal(n as nat)), text_of(c)),
{
    lemma_piece_in_text(c, 20);
}

/// The lines of the option `health_start_period` stand in the section text.
proof fn text_has_health_start_period(c: Container)
    ensures
        c.health_start_period matches Some(v) ==> occurs_in(option_line("HealthStartPeriod"@, v@),
            text_of(c)),
{
    lemma_piece_in_text(c, 21);
}

/// The lines of the option `health_startup_cmd` stand in the section text.
proof fn text_has_health_startup_cmd(c: Container)
    ensures
        c.health_startup_cmd matches Some(v) ==> occurs_in(option_line("HealthStartupCmd"@, v@),
            text_of(c)),
{
    lemma_piece_in_text(c, 22);
}

/// The lines of the option `health_startup_interval` stand in the section text.
proof fn text_has_health_startup_interval(c: Container)
    ensures
        c.health_startup_interval matches Some(v)
            ==> occurs_in(option_line("HealthStartupInterval"@, v@), text_of(c)),
{
    lemma_piece_in_text(c, 23);
}

/// The lines of the option `health_startup_retries` stand in the section text.
proof fn text_has_health_startup_retries(c: Container)
    ensures
        c.health_startup_retries matches Some(n) ==> occurs_in(option_line("HealthStartupRetries"@,
            decimal(n as nat)), text_of(c)),
{
    lemma_piece_in_text(c, 24);
}

/// The lines of the option `health_startup_success` stand in the section text.
proof fn text_has_health_startup_success(c: Container)
    ensures
        c.health_startup_success matches Some(n) ==> occurs_in(option_line("HealthStartupSuccess"@,
            decimal(n as nat)), text_of(c)),
{
    lemma_piece_in_text(c, 25);
}

/// The lines of the option `health_startup_timeout` stand in the section text.
proof fn text_has_health_startup_timeout(c: Container)
    ensures
        c.health_startup_timeout matches Some(v) ==> occurs_in(option_line("HealthStartupTimeout"@,
            v@), text_of(c)),
{
    lemma_piece_in_text(c, 26);
}

/// The lines of the option `health_timeout` stand in the section text.
proof fn text_has_health_timeout(c: Container)
    ensures
        c.health_timeout matches Some(v) ==> occurs_in(option_line("HealthTimeout"@, v@),
            text_of(c)),
{
    lemma_piece_in_text(c, 27);
}

/// The lines of the option `host_name` stand in the section text.
proof fn text_has_host_name(c: Container)
    ensures
        c.host_name matches Some(v) ==> occurs_in(option_line("HostName"@, v@), text_of(c)),
{
    lemma_piece_in_text(c, 28);
}

/// The lines of the option `image` stand in the section text.
proof fn text_has_image(c: Container)
    ensures
        occurs_in(option_line("Image"@, c.image@), text_of(c)),
{
    lemma_piece_in_text(c, 29);
}

/// The lines of the option `ip` stand in the section text.
proof fn text_has_ip(c: Container)
    ensures
        c.ip matches Some(v) ==> occurs_in(option_line("IP"@, v@), text_of(c)),
{
    lemma_piece_in_text(c, 30);
}

/// The lines of the option `ip6` stand in the section text.
proof fn text_has_ip6(c: Container)
    ensures
        c.ip6 matches Some(v) ==> occurs_in(option_line("IP6"@, v@), text_of(c)),
{
    lemma_piece_in_text(c, 31);
}

/// The lines of the option `label` stand in the section text.
proof fn text_has_label(c: Container)
    ensures
        c.label@.len() > 0 ==> occurs_in(option_line("Label"@,
            join(c.label@.map_values(|s: String| space_quoted(s@)), seq![' '])), text_of(c)),
{
    lemma_piece_in_text(c, 32);
}

/// The lines of the option `log_driver` stand in the section text.
proof fn text_has_log_driver(c: Container)
    ensures
        c.log_driver matches Some(v) ==> occurs_in(option_line("LogDriver"@, v@), text_of(c)),
{
    lemma_piece_in_text(c, 33);
}

/// The lines of the option `mask` stand in the section text.
proof fn text_has_mask(c: Container)
    ensures
        c.mask@.len() > 0 ==> occurs_in(option_line("Mask"@,
            unmask_joined(UnmaskView::Paths(c.mask.deep_view()))), text_of(c)),
{
    lemma_piece_in_text(c, 34);
}

/// The lines of the option `mount` stand in the section text.
proof fn text_has_mount(c: Container)
    ensures
        forall|i: int| 0 <= i < c.mount@.len() ==> occurs_in(option_line("Mount"@,
            mount_text((#[trigger] c.mount@[i])@)), text_of(c)),
{
    lemma_piece_in_text(c, 35);
    assert forall|i: int| 0 <= i < c.mount@.len() implies occurs_in(option_line("Mount"@,
        mount_text((#[trigger] c.mount@[i])@)), text_of(c)) by {
        let ts = mount_texts(c.mount@);
        lemma_option_lines_item("Mount"@, ts, i);
        lemma_occurs_trans(option_line("Mount"@, ts[i]), container_piece(c, 35), text_of(c));
    }
}

/// The lines of the option `network` stand in the section text.
proof fn text_has_network(c: Container)
    ensures
        forall|i: int| 0 <= i < c.network@.len() ==> occurs_in(option_line("Network"@,
            (#[trigger] c.network@[i])@), text_of(c)),
{
    lemma_piece_in_text(c, 36);
    assert forall|i: int| 0 <= i < c.network@.len() implies occurs_in(option_line("Network"@,
        (#[trigger] c.network@[i])@), text_of(c)) by {
        let ts = c.network@.map_values(|s: String| s@);
        lemma_option_lines_item("Network"@, ts, i);
        lemma_occurs_trans(option_line("Network"@, ts[i]), container_piece(c, 36), text_of(c));
    }
}

/// The lines of the option `no_new_privileges` stand in the section text.
proof fn text_has_no_new_privileges(c: Container)
    ensures
        c.no_new_privileges ==> occurs_in(option_line("NoNewPrivileges"@, "true"@), text_of(c)),
{
    lemma_piece_in_text(c, 37);
}

/// The lines of the option `notify` stand in the section text.
proof fn text_has_notify(c: Container)
    ensures
        (c.notify == Notify::Container ==> occurs_in(option_line("Notify"@, "true"@), text_of(c)))
            && (c.notify == Notify::Healthy ==> occurs_in(option_line("Notify"@, "healthy"@),
                text_of(c))),
{
    lemma_piece_in_text(c, 38);
}

/// The lines of the option `pids_limit` stand in the section text.
proof fn text_has_pids_limit(c: Container)
    ensures
        (c.pids_limit matches Some(PidsLimit::Value(n)) ==> occurs_in(option_line("PidsLimit"@,
            decimal(n as nat)), text_of(c)))
            && (c.pids_limit == Some(PidsLimit::Unlimited) ==> occurs_in(option_line("PidsLimit"@,
                "-1"@), text_of(c))),
{
    lemma_piece_in_text(c, 39);
}

/// The lines of the option `podman_args` stand in the section text.
proof fn text_has_podman_args(c: Container)
    ensures
        c.podman_args matches Some(v) ==> occurs_in(option_line("PodmanArgs"@, v@), text_of(c)),
{
    lemma_piece_in_text(c, 40);
}

/// The lines of the option `publish_port` stand in the section text.
proof fn text_has_publish_port(c: Container)
    ensures
        forall|i: int| 0 <= i < c.publish_port@.len() ==> occurs_in(option_line("PublishPort"@,
            (#[trigger] c.publish_port@[i])@), text_of(c)),
{
    lemma_piece_in_text(c, 41);
    assert forall|i: int| 0 <= i < c.publish_port@.len() implies occurs_in(option_line("PublishPort"@,
        (#[trigger] c.publish_port@[i])@), text_of(c)) by {
        let ts = c.publish_port@.map_values(|s: String| s@);
        lemma_option_lines_item("PublishPort"@, ts, i);
        lemma_occurs_trans(option_line("PublishPort"@, ts[i]), container_piece(c, 41), text_of(c));
    }
}

/// The lines of the option `pull` stand in the section text.
proof fn text_has_pull(c: Container)
    ensures
        c.pull matches Some(p) ==> occurs_in(option_line("Pull"@, pull_policy_name(p)), text_of(c)),
{
    lemma_piece_in_text(c, 42);
}

/// The lines of the option `read_only` stand in the section text.
proof fn text_has_read_only(c: Container)
    ensures
        c.read_only ==> occurs_in(option_line("ReadOnly"@, "true"@), text_of(c)),
{
    lemma_piece_in_text(c, 43);
}

/// The lines of the option `read_only_tmpfs` stand in the section text.
proof fn text_has_read_only_tmpfs(c: Container)
    ensures
        !c.read_only_tmpfs ==> occurs_in(option_line("ReadOnlyTmpfs"@, "false"@), text_of(c)),
{
    lemma_piece_in_text(c, 44);
}

/// The lines of the option `rootfs` stand in the section text.
proof fn text_has_rootfs(c: Container)
    ensures
        c.rootfs matches Some(r) ==> occurs_in(option_line("Rootfs"@, rootfs_text(r@)), text_of(c)),
{
    lemma_piece_in_text(c, 45);
}

/// The lines of the option `run_init` stand in the section text.
proof fn text_has_run_init(c: Container)
    ensures
        c.run_init ==> occurs_in(option_line("RunInit"@, "true"@), text_of(c)),
{
    lemma_piece_in_text(c, 46);
}

/// The lines of the option `seccomp_profile` stand in the section text.
proof fn text_has_seccomp_profile(c: Container)
    ensures
        c.seccomp_profile matches Some(v) ==> occurs_in(option_line("SeccompProfile"@, v@),
            text_of(c)),
{
    lemma_piece_in_text(c, 47);
}

/// The lines of the option `secret` stand in the section text.
proof fn text_has_secret(c: Container)
    ensures
        forall|i: int| 0 <= i < c.secret@.len() ==> occurs_in(option_line("Secret"@,
            (#[trigger] c.secret@[i])@), text_of(c)),
{
    lemma_piece_in_text(c, 48);
    assert forall|i: int| 0 <= i < c.secret@.len() implies occurs_in(option_line("Secret"@,
        (#[trigger] c.secret@[i])@), text_of(c)) by {
        let ts = c.secret@.map_values(|s: String| s@);
        lemma_option_lines_item("Secret"@, ts, i);
        lemma_occurs_trans(option_line("Secret"@, ts[i]), container_piece(c, 48), text_of(c));
    }
}

/// The lines of the option `security_label_disable` stand in the section text.
proof fn text_has_security_label_disable(c: Container)
    ensures
        c.security_label_disable ==> occurs_in(option_line("SecurityLabelDisable"@, "true"@),
            text_of(c)),
{
    lemma_piece_in_text(c, 49);
}

/// The lines of the option `security_label_file_type` stand in the section text.
proof fn text_has_security_label_file_type(c: Container)
    ensures
        c.security_label_file_type matches Some(v)
            ==> occurs_in(option_line("SecurityLabelFileType"@, v@), text_of(c)),
{
    lemma_piece_in_text(c, 50);
}

/// The lines of the option `security_label_level` stand in the section text.
proof fn text_has_security_label_level(c: Container)
    ensures
        c.security_label_level matches Some(v) ==> occurs_in(option_line("SecurityLabelLevel"@, v@),
            text_of(c)),
{
    lemma_piece_in_text(c, 51);
}

/// The lines of the option `security_label_nested` stand in the section text.
proof fn text_has_security_label_nested(c: Container)
    ensures
        c.security_label_nested ==> occurs_in(option_line("SecurityLabelNested"@, "true"@),
            text_of(c)),
{
    lemma_piece_in_text(c, 52);
}

/// The lines of the option `security_label_type` stand in the section text.
proof fn text_has_security_label_type(c: Container)
    ensures
        c.security_label_type matches Some(v) ==> occurs_in(option_line("SecurityLabelType"@, v@),
            text_of(c)),
{
    lemma_piece_in_text(c, 53);
}

/// The lines of the option `shm_size` stand in the section text.
proof fn text_has_shm_size(c: Container)
    ensures
        c.shm_size matches Some(v) ==> occurs_in(option_line("ShmSize"@, v@), text_of(c)),
{
    lemma_piece_in_text(c, 54);
}

/// The lines of the option `stop_timeout` stand in the section text.
proof fn text_has_stop_timeout(c: Container)
    ensures
        c.stop_timeout matches Some(n) ==> occurs_in(option_line("StopTimeout"@, decimal(n as nat)),
            text_of(c)),
{
    lemma_piece_in_text(c, 55);
}

/// The lines of the option `sub_gid_map` stand in the section text.
proof fn text_has_sub_gid_map(c: Container)
    ensures
        c.sub_gid_map matches Some(v) ==> occurs_in(option_line("SubGIDMap"@, v@), text_of(c)),
{
    lemma_piece_in_text(c, 56);
}

/// The lines of the option `sub_uid_map` stand in the section text.
proof fn text_has_sub_uid_map(c: Container)
    ensures
        c.sub_uid_map matches Some(v) ==> occurs_in(option_line("SubUIDMap"@, v@), text_of(c)),
{
    lemma_piece_in_text(c, 57);
}

/// The lines of the option `sysctl` stand in the section text.
proof fn text_has_sysctl(c: Container)
    ensures
        c.sysctl@.len() > 0 ==> occurs_in(option_line("Sysctl"@,
            join(c.sysctl@.map_values(|s: String| space_quoted(s@)), seq![' '])), text_of(c)),
{
    lemma_piece_in_text(c, 58);
}

/// The lines of the option `timezone` stand in the section text.
proof fn text_has_timezone(c: Container)
    ensures
        c.timezone matches Some(v) ==> occurs_in(option_line("Timezone"@, v@), text_of(c)),
{
    lemma_piece_in_text(c, 59);
}

/// The lines of the option `tmpfs` stand in the section text.
proof fn text_has_tmpfs(c: Container)
    ensures
        forall|i: int| 0 <= i < c.tmpfs@.len() ==> occurs_in(option_line("Tmpfs"@,
            (#[trigger] c.tmpfs@[i])@), text_of(c)),
{
    lemma_piece_in_text(c, 60);
    assert forall|i: int| 0 <= i < c.tmpfs@.len() implies occurs_in(option_line("Tmpfs"@,
        (#[trigger] c.tmpfs@[i])@), text_of(c)) by {
        let ts = c.tmpfs@.map_values(|s: String| s@);
        lemma_option_lines_item("Tmpfs"@, ts, i);
        lemma_occurs_trans(option_line("Tmpfs"@, ts[i]), container_piece(c, 60), text_of(c));
    }
}

/// The lines of the option `uid_map` stand in the section text.
proof fn text_has_uid_map(c: Container)
    ensures
        forall|i: int| 0 <= i < c.uid_map@.len() ==> occurs_in(option_line("UIDMap"@,
            (#[trigger] c.uid_map@[i])@), text_of(c)),
{
    lemma_piece_in_text(c, 61);
    assert forall|i: int| 0 <= i < c.uid_map@.len() implies occurs_in(option_line("UIDMap"@,
        (#[trigger] c.uid_map@[i])@), text_of(c)) by {
        let ts = c.uid_map@.map_values(|s: String| s@);
        lemma_option_lines_item("UIDMap"@, ts, i);
        lemma_occurs_trans(option_line("UIDMap"@, ts[i]), container_piece(c, 61), text_of(c));
    }
}

/// The lines of the option `ulimit` stand in the section text.
proof fn text_has_ulimit(c: Container)
    ensures
        forall|i: int| 0 <= i < c.ulimit@.len() ==> occurs_in(option_line("Ulimit"@,
            (#[trigger] c.ulimit@[i])@), text_of(c)),
{
    lemma_piece_in_text(c, 62);
    assert forall|i: int| 0 <= i < c.ulimit@.len() implies occurs_in(option_line("Ulimit"@,
        (#[trigger] c.ulimit@[i])@), text_of(c)) by {
        let ts = c.ulimit@.map_values(|s: String| s@);
        lemma_option_lines_item("Ulimit"@, ts, i);
        lemma_occurs_trans(option_line("Ulimit"@, ts[i]), container_piece(c, 62), text_of(c));
    }
}

/// The lines of the option `unmask` stand in the section text.
proof fn text_has_unmask(c: Container)
    ensures
        c.unmask matches Some(u) ==> occurs_in(option_line("Unmask"@, unmask_joined(u@)),
            text_of(c)),
{
    lemma_piece_in_text(c, 63);
}

/// The lines of the option `user` stand in the section text.
proof fn text_has_user(c: Container)
    ensures
        c.user matches Some(v) ==> occurs_in(option_line("User"@, v@), text_of(c)),
{
    lemma_piece_in_text(c, 64);
}

/// The lines of the option `user_ns` stand in the section text.
proof fn text_has_user_ns(c: Container)
    ensures
        c.user_ns matches Some(v) ==> occurs_in(option_line("UserNS"@, v@), text_of(c)),
{
    lemma_piece_in_text(c, 65);
}

/// The lines of the option `volume` stand in the section text.
proof fn text_has_volume(c: Container)
    ensures
        forall|i: int| 0 <= i < c.volume@.len() ==> occurs_in(option_line("Volume"@,
            volume_text((#[trigger] c.volume@[i])@)), text_of(c)),
{
    lemma_piece_in_text(c, 66);
    assert forall|i: int| 0 <= i < c.volume@.len() implies occurs_in(option_line("Volume"@,
        volume_text((#[trigger] c.volume@[i])@)), text_of(c)) by {
        let ts = volume_texts(c.volume@);
        lemma_option_lines_item("Volume"@, ts, i);
        lemma_occurs_trans(option_line("Volume"@, ts[i]), container_piece(c, 66), text_of(c));
    }
}

/// The lines of the option `working_dir` stand in the section text.
proof fn text_has_working_dir(c: Container)
    ensures
        c.working_dir matches Some(v) ==> occurs_in(option_line("WorkingDir"@, v@), text_of(c)),
{
    lemma_piece_in_text(c, 67);
}

/// Every option that is set on a container has its line in the section text: "KEY=VALUE" under
/// its Quadlet key, one line for each item of a list (one line for all items of a list that is
/// joined), and the image always.
pub proof fn container_text_has_every_option(c: Container)
    ensures
        c.add_capability@.len() > 0 ==> occurs_in(option_line("AddCapability"@,
            join(c.add_capability@.map_values(|s: String| space_quoted(s@)), seq![' '])),
            container_text(c)),
        forall|i: int| 0 <= i < c.add_device@.len() ==> occurs_in(option_line("AddDevice"@,
            device_text((#[trigger] c.add_device@[i])@)), container_text(c)),
        c.annotation@.len() > 0 ==> occurs_in(option_line("Annotation"@,
            join(c.annotation@.map_values(|s: String| space_quoted(s@)), seq![' '])),
            container_text(c)),
        c.auto_update matches Some(p) ==> occurs_in(option_line("AutoUpdate"@, policy_name(p)),
            container_text(c)),
        c.container_name matches Some(v) ==> occurs_in(option_line("ContainerName"@, v@),
            container_text(c)),
        (c.dns == Dns::Disabled ==> occurs_in(option_line("DNS"@, "none"@), container_text(c)))
            && (c.dns matches Dns::Custom(v) ==> forall|i: int| 0 <= i < v@.len()
                ==> occurs_in(option_line("DNS"@, (#[trigger] v@[i])@), container_text(c))),
        forall|i: int| 0 <= i < c.dns_option@.len() ==> occurs_in(option_line("DNSOption"@,
            (#[trigger] c.dns_option@[i])@), container_text(c)),
        forall|i: int| 0 <= i < c.dns_search@.len() ==> occurs_in(option_line("DNSSearch"@,
            (#[trigger] c.dns_search@[i])@), container_text(c)),
        c.drop_capability@.len() > 0 ==> occurs_in(option_line("DropCapability"@,
            join(c.drop_capability@.map_values(|s: String| space_quoted(s@)), seq![' '])),
            container_text(c)),
        c.entrypoint matches Some(v) ==> occurs_in(option_line("Entrypoint"@, v@),
            container_text(c)),
        c.environment@.len() > 0 ==> occurs_in(option_line("Environment"@,
            join(c.environment@.map_values(|s: String| space_quoted(s@)), seq![' '])),
            container_text(c)),
        forall|i: int| 0 <= i < c.environment_file@.len()
            ==> occurs_in(option_line("EnvironmentFile"@, (#[trigger] c.environment_file@[i])@),
            container_text(c)),
        c.environment_host ==> occurs_in(option_line("EnvironmentHost"@, "true"@),
            container_text(c)),
        c.exec_command matches Some(v) ==> occurs_in(option_line("Exec"@, v@), container_text(c)),
        forall|i: int| 0 <= i < c.expose_host_port@.len()
            ==> occurs_in(option_line("ExposeHostPort"@, (#[trigger] c.expose_host_port@[i])@),
            container_text(c)),
        forall|i: int| 0 <= i < c.gid_map@.len() ==> occurs_in(option_line("GIDMap"@,
            (#[trigger] c.gid_map@[i])@), container_text(c)),
        c.group matches Some(v) ==> occurs_in(option_line("Group"@, v@), container_text(c)),
        c.health_cmd matches Some(v) ==> occurs_in(option_line("HealthCmd"@, v@),
            container_text(c)),
        c.health_interval matches Some(v) ==> occurs_in(option_line("HealthInterval"@, v@),
            container_text(c)),
        c.health_on_failure matches Some(v) ==> occurs_in(option_line("HealthOnFailure"@, v@),
            container_text(c)),
        c.health_retries matches Some(n) ==> occurs_in(option_line("HealthRetries"@,
            decimal(n as nat)), container_text(c)),
        c.health_start_period matches Some(v) ==> occurs_in(option_line("HealthStartPeriod"@, v@),
            container_text(c)),
        c.health_startup_cmd matches Some(v) ==> occurs_in(option_line("HealthStartupCmd"@, v@),
            container_text(c)),
        c.health_startup_interval matches Some(v)
            ==> occurs_in(option_line("HealthStartupInterval"@, v@), container_text(c)),
        c.health_startup_retries matches Some(n) ==> occurs_in(option_line("HealthStartupRetries"@,
            decimal(n as nat)), container_text(c)),
        c.health_startup_success matches Some(n) ==> occurs_in(option_line("HealthStartupSuccess"@,
            decimal(n as nat)), container_text(c)),
        c.health_startup_timeout matches Some(v) ==> occurs_in(option_line("HealthStartupTimeout"@,
            v@), container_text(c)),
        c.health_timeout matches Some(v) ==> occurs_in(option_line("HealthTimeout"@, v@),
            container_text(c)),
        c.host_name matches Some(v) ==> occurs_in(option_line("HostName"@, v@), container_text(c)),
        occurs_in(option_line("Image"@, c.image@), container_text(c)),
        c.ip matches Some(v) ==> occurs_in(option_line("IP"@, v@), container_text(c)),
        c.ip6 matches Some(v) ==> occurs_in(option_line("IP6"@, v@), container_text(c)),
        c.label@.len() > 0 ==> occurs_in(option_line("Label"@,
            join(c.label@.map_values(|s: String| space_quoted(s@)), seq![' '])), container_text(c)),
        c.log_driver matches Some(v) ==> occurs_in(option_line("LogDriver"@, v@),
            container_text(c)),
        c.mask@.len() > 0 ==> occurs_in(option_line("Mask"@,
            unmask_joined(UnmaskView::Paths(c.mask.deep_view()))), container_text(c)),
        forall|i: int| 0 <= i < c.mount@.len() ==> occurs_in(option_line("Mount"@,
            mount_text((#[trigger] c.mount@[i])@)), container_text(c)),
        forall|i: int| 0 <= i < c.network@.len() ==> occurs_in(option_line("Network"@,
            (#[trigger] c.network@[i])@), container_text(c)),
        c.no_new_privileges ==> occurs_in(option_line("NoNewPrivileges"@, "true"@),
            container_text(c)),
        (c.notify == Notify::Container ==> occurs_in(option_line("Notify"@, "true"@),
            container_text(c)))
            && (c.notify == Notify::Healthy ==> occurs_in(option_line("Notify"@, "healthy"@),
                container_text(c))),
        (c.pids_limit matches Some(PidsLimit::Value(n)) ==> occurs_in(option_line("PidsLimit"@,
            decimal(n as nat)), container_text(c)))
            && (c.pids_limit == Some(PidsLimit::Unlimited) ==> occurs_in(option_line("PidsLimit"@,
                "-1"@), container_text(c))),
        c.podman_args matches Some(v) ==> occurs_in(option_line("PodmanArgs"@, v@),
            container_text(c)),
        forall|i: int| 0 <= i < c.publish_port@.len() ==> occurs_in(option_line("PublishPort"@,
            (#[trigger] c.publish_port@[i])@), container_text(c)),
        c.pull matches Some(p) ==> occurs_in(option_line("Pull"@, pull_policy_name(p)),
            container_text(c)),
        c.read_only ==> occurs_in(option_line("ReadOnly"@, "true"@), container_text(c)),
        !c.read_only_tmpfs ==> occurs_in(option_line("ReadOnlyTmpfs"@, "false"@),
            container_text(c)),
        c.rootfs matches Some(r) ==> occurs_in(option_line("Rootfs"@, rootfs_text(r@)),
            container_text(c)),
        c.run_init ==> occurs_in(option_line("RunInit"@, "true"@), container_text(c)),
        c.seccomp_profile matches Some(v) ==> occurs_in(option_line("SeccompProfile"@, v@),
            container_text(c)),
        forall|i: int| 0 <= i < c.secret@.len() ==> occurs_in(option_line("Secret"@,
            (#[trigger] c.secret@[i])@), container_text(c)),
        c.security_label_disable ==> occurs_in(option_line("SecurityLabelDisable"@, "true"@),
            container_text(c)),
        c.security_label_file_type matches Some(v)
            ==> occurs_in(option_line("SecurityLabelFileType"@, v@), container_text(c)),
        c.security_label_level matches Some(v) ==> occurs_in(option_line("SecurityLabelLevel"@, v@),
            container_text(c)),
        c.security_label_nested ==> occurs_in(option_line("SecurityLabelNested"@, "true"@),
            container_text(c)),
        c.security_label_type matches Some(v) ==> occurs_in(option_line("SecurityLabelType"@, v@),
            container_text(c)),
        c.shm_size matches Some(v) ==> occurs_in(option_line("ShmSize"@, v@), container_text(c)),
        c.stop_timeout matches Some(n) ==> occurs_in(option_line("StopTimeout"@, decimal(n as nat)),
            container_text(c)),
        c.sub_gid_map matches Some(v) ==> occurs_in(option_line("SubGIDMap"@, v@),
            container_text(c)),
        c.sub_uid_map matches Some(v) ==> occurs_in(option_line("SubUIDMap"@, v@),
            container_text(c)),
        c.sysctl@.len() > 0 ==> occurs_in(option_line("Sysctl"@,
            join(c.sysctl@.map_values(|s: String| space_quoted(s@)), seq![' '])),
            container_text(c)),
        c.timezone matches Some(v) ==> occurs_in(option_line("Timezone"@, v@), container_text(c)),
        forall|i: int| 0 <= i < c.tmpfs@.len() ==> occurs_in(option_line("Tmpfs"@,
            (#[trigger] c.tmpfs@[i])@), container_text(c)),
        forall|i: int| 0 <= i < c.uid_map@.len() ==> occurs_in(option_line("UIDMap"@,
            (#[trigger] c.uid_map@[i])@), container_text(c)),
        forall|i: int| 0 <= i < c.ulimit@.len() ==> occurs_in(option_line("Ulimit"@,
            (#[trigger] c.ulimit@[i])@), container_text(c)),
        c.unmask matches Some(u) ==> occurs_in(option_line("Unmask"@, unmask_joined(u@)),
            container_text(c)),
        c.user matches Some(v) ==> occurs_in(option_line("User"@, v@), container_text(c)),
        c.user_ns matches Some(v) ==> occurs_in(option_line("UserNS"@, v@), container_text(c)),
        forall|i: int| 0 <= i < c.volume@.len() ==> occurs_in(option_line("Volume"@,
            volume_text((#[trigger] c.volume@[i])@)), container_text(c)),
        c.working_dir matches Some(v) ==> occurs_in(option_line("WorkingDir"@, v@),
            container_text(c)),
{
    reveal(text_of);
    text_has_add_capability(c);
    text_has_add_device(c);
    text_has_annotation(c);
    text_has_auto_update(c);
    text_has_container_name(c);
    text_has_dns(c);
    text_has_dns_option(c);
    text_has_dns_search(c);
    text_has_drop_capability(c);
    text_has_entrypoint(c);
    text_has_environment(c);
    text_has_environment_file(c);
    text_has_environment_host(c);
    text_has_exec_command(c);
    text_has_expose_host_port(c);
    text_has_gid_map(c);
    text_has_group(c);
    text_has_health_cmd(c);
    text_has_health_interval(c);
    text_has_health_on_failure(c);
    text_has_health_retries(c);
    text_has_health_start_period(c);
    text_has_health_startup_cmd(c);
    text_has_health_startup_interval(c);
    text_has_health_startup_retries(c);
    text_has_health_startup_success(c);
    text_has_health_startup_timeout(c);
    text_has_health_timeout(c);
    text_has_host_name(c);
    text_has_image(c);
    text_has_ip(c);
    text_has_ip6(c);
    text_has_label(c);
    text_has_log_driver(c);
    text_has_mask(c);
    text_has_mount(c);
    text_has_network(c);
    text_has_no_new_privileges(c);
    text_has_notify(c);
    text_has_pids_limit(c);
    text_has_podman_args(c);
    text_has_publish_port(c);
    text_has_pull(c);
    text_has_read_only(c);
    text_has_read_only_tmpfs(c);
    text_has_rootfs(c);
    text_has_run_init(c);
    text_has_seccomp_profile(c);
    text_has_secret(c);
    text_has_security_label_disable(c);
    text_has_security_label_file_type(c);
    text_has_security_label_level(c);
    text_has_security_label_nested(c);
    text_has_security_label_type(c);
    text_has_shm_size(c);
    text_has_stop_timeout(c);
    text_has_sub_gid_map(c);
    text_has_sub_uid_map(c);
    text_has_sysctl(c);
    text_has_timezone(c);
    text_has_tmpfs(c);
    text_has_uid_map(c);
    text_has_ulimit(c);
    text_has_unmask(c);
    text_has_user(c);
    text_has_user_ns(c);
    text_has_volume(c);
    text_has_working_dir(c);
}

} // verus!
