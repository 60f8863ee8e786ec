//! The options of `podman run` that become Quadlet options of a container, and how a compose
//! service gives them.
//!
//! Values that the compose parser writes as text (durations, byte values, IP addresses, ports
//! in the short syntax) are held as that text; where it fills in defaults, they are filled in.

use vstd::prelude::*;

use crate::text::opt_seq;

use crate::compose_pod::ServiceCommand;
use crate::compose_service::{network_config_try_into_network_options, network_config_values, secret_short, secret_try_into_short, ulimit_short, ulimit_try_into_short, NetworkConfig, NetworkConfigErr, NetworkConfigError, ServiceSecret, ShortFormError, Ulimit};
use crate::compose_volume::{service_volume, volume_try_into_short, ServiceVolume, VolumeConvertError};
use crate::container::{BuildPullPolicyError, ComposePullPolicy, PullPolicy};
use crate::device::Device;
use crate::mount::Mount;
use crate::pod::{Duration, Test};
use crate::text::join;
use crate::rootfs::Rootfs;
use crate::volume::{Volume, VolumeView};

verus! {

/// A value of `--dns`: no DNS configuration, or a DNS server.
#[derive(Debug, Clone, PartialEq, Eq)]
pub enum DnsEntry {
    /// Disable the creation of `/etc/resolv.conf` in the container.
    Disabled,
    /// A DNS server, by its IP address.
    IpAddr(String),
}

/// How the container's notify socket is used.
#[derive(Debug, Clone, Copy, PartialEq, Eq, Structural)]
pub enum Notify {
    /// Conmon sends `READY` when the container has started.
    Conmon,
    /// The OCI runtime passes the socket into the container.
    Container,
    /// `READY` is sent when the container has turned healthy.
    Healthy,
}

/// A limit on the number of processes.
#[derive(Debug, Clone, Copy, PartialEq, Eq, Structural)]
pub enum PidsLimit {
    Value(u32),
    Unlimited,
}

/// A hexadecimal digit, in lowercase.
pub open spec fn hex_digit(n: int) -> char {
    if n < 10 {
        (('0' as int) + n) as char
    } else {
        (('a' as int) + n - 10) as char
    }
}

/// A character inside a JSON string: '"' and '\\' after a backslash; backspace, form feed,
/// line feed, carriage return and tab as "\\b", "\\f", "\\n", "\\r", "\\t"; other characters
/// below 0x20 as "\\u00" and two hexadecimal digits; all others as they are.
pub open spec fn json_char(c: char) -> Seq<char> {
    if c == '"' {
        seq!['\\', '"']
    } else if c == '\\' {
        seq!['\\', '\\']
    } else if c == '\x08' {
        seq!['\\', 'b']
    } else if c == '\x0c' {
        seq!['\\', 'f']
    } else if c == '\n' {
        seq!['\\', 'n']
    } else if c == '\r' {
        seq!['\\', 'r']
    } else if c == '\t' {
        seq!['\\', 't']
    } else if (c as int) < 0x20 {
        seq!['\\', 'u', '0', '0', hex_digit((c as int) / 16), hex_digit((c as int) % 16)]
    } else {
        seq![c]
    }
}

/// The characters of a string, each as it stands inside a JSON string.
pub open spec fn json_escaped(s: Seq<char>) -> Seq<char>
    decreases s.len(),
{
    if s.len() == 0 {
        Seq::empty()
    } else {
        json_escaped(s.drop_last()) + json_char(s.last())
    }
}

/// A string as JSON: in double quotes, its characters escaped.
pub open spec fn json_string(s: Seq<char>) -> Seq<char> {
    seq!['"'] + json_escaped(s) + seq!['"']
}

/// Strings as one compact JSON array: "\[", the strings as JSON joined by ',', "\]".
pub open spec fn json_strings(items: Seq<Seq<char>>) -> Seq<char> {
    seq!['['] + join(items.map_values(|s: Seq<char>| json_string(s)), seq![',']) + seq![']']
}

/// Writes strings as a compact JSON array with `serde_json::to_string`, which fails only where
/// a value's serialization fails or a map has keys that are not strings; a list of strings has
/// neither, so it succeeds, and the text is [`json_strings`] of the strings.
#[verifier::external_body]
fn to_json(items: &Vec<String>) -> (r: String)
    ensures
        r@ == json_strings(items.deep_view()),
{
    match serde_json::to_string(items) {
        Ok(s) => s,
        Err(_) => String::new(),
    }
}

/// The results of converting each item in order, up to the first error.
pub open spec fn convert_all<T, E>(items: Seq<T>, f: spec_fn(T) -> Result<Seq<char>, E>) -> Result<
    Seq<Seq<char>>,
    E,
>
    decreases items.len(),
{
    if items.len() == 0 {
        Ok(Seq::empty())
    } else {
        match convert_all(items.drop_last(), f) {
            Err(e) => Err(e),
            Ok(done) => match f(items.last()) {
                Ok(t) => Ok(done.push(t)),
                Err(e) => Err(e),
            },
        }
    }
}

/// After the first item that fails, converting more items gives that error.
pub proof fn lemma_convert_all_stop<T, E>(
    items: Seq<T>,
    f: spec_fn(T) -> Result<Seq<char>, E>,
    j: int,
    n: int,
)
    requires
        0 <= j <= n <= items.len(),
        convert_all(items.subrange(0, j), f) is Err,
    ensures
        convert_all(items.subrange(0, n), f) == convert_all(items.subrange(0, j), f),
    decreases n - j,
{
    if n > j {
        lemma_convert_all_stop(items, f, j, n - 1);
        assert(items.subrange(0, n).drop_last() =~= items.subrange(0, n - 1));
    }
}

/// The healthcheck of a compose service.
#[derive(Debug, Clone, PartialEq, Eq)]
pub enum ComposeHealthcheck {
    /// A healthcheck command; durations are held as written.
    Command {
        test: Option<Test>,
        interval: Option<String>,
        timeout: Option<String>,
        retries: Option<u64>,
        start_period: Option<String>,
        start_interval: Option<String>,
        /// Whether the healthcheck has compose extensions.
        extensions: bool,
    },
    /// Disables the image's healthcheck.
    Disable,
}

/// The healthcheck options of a container.
#[derive(Debug, Clone, PartialEq, Eq)]
pub struct HealthOptions {
    pub health_cmd: Option<String>,
    pub health_interval: Option<String>,
    pub health_timeout: Option<String>,
    pub health_retries: Option<u64>,
    pub health_start_period: Option<String>,
    pub health_startup_interval: Option<String>,
}

/// Error returned when a compose healthcheck cannot become healthcheck options.
#[derive(Debug, Clone, Copy, PartialEq, Eq, Structural)]
pub enum HealthcheckError {
    /// Compose extensions are not supported.
    Extensions,
}

/// The command of a healthcheck test: a list of words as a JSON array, a shell command as it
/// is.
pub open spec fn test_command(t: Test) -> Seq<char> {
    match t {
        Test::Command(words) => json_strings(words.deep_view()),
        Test::ShellCommand(line) => line@,
    }
}

/// The healthcheck options of a compose healthcheck: each option
/// as it is; for a disabled healthcheck, the command `none`.
pub open spec fn health_options(h: ComposeHealthcheck) -> Result<
    (
        Option<Seq<char>>,
        Option<Seq<char>>,
        Option<Seq<char>>,
        Option<u64>,
        Option<Seq<char>>,
        Option<Seq<char>>,
    ),
    HealthcheckError,
> {
    match h {
        ComposeHealthcheck::Command {
            test,
            interval,
            timeout,
            retries,
            start_period,
            start_interval,
            extensions,
        } => if extensions {
            Err(HealthcheckError::Extensions)
        } else {
            Ok(
                (
                    match test {
                        Some(t) => Some(test_command(t)),
                        None => None,
                    },
                    opt_seq(interval),
                    opt_seq(timeout),
                    retries,
                    opt_seq(start_period),
                    opt_seq(start_interval),
                ),
            )
        },
        ComposeHealthcheck::Disable => Ok((Some("none"@), None, None, None, None, None)),
    }
}

/// The healthcheck options as views.
pub open spec fn health_view(h: HealthOptions) -> (
    Option<Seq<char>>,
    Option<Seq<char>>,
    Option<Seq<char>>,
    Option<u64>,
    Option<Seq<char>>,
    Option<Seq<char>>,
) {
    (
        opt_seq(h.health_cmd),
        opt_seq(h.health_interval),
        opt_seq(h.health_timeout),
        h.health_retries,
        opt_seq(h.health_start_period),
        opt_seq(h.health_startup_interval),
    )
}

impl HealthOptions {
    /// The healthcheck options of a compose healthcheck. Fails where it has compose extensions.
    pub fn try_from_compose(h: ComposeHealthcheck) -> (r: Result<HealthOptions, HealthcheckError>)
        ensures
            match r {
                Ok(o) => health_options(h) == Ok::<_, HealthcheckError>(health_view(o)),
                Err(_) => health_options(h) == Err::<
                    (
                        Option<Seq<char>>,
                        Option<Seq<char>>,
                        Option<Seq<char>>,
                        Option<u64>,
                        Option<Seq<char>>,
                        Option<Seq<char>>,
                    ),
                    HealthcheckError,
                >(HealthcheckError::Extensions),
            },
    {
        match h {
            ComposeHealthcheck::Command {
                test,
                interval,
                timeout,
                retries,
                start_period,
                start_interval,
                extensions,
            } => {
                if extensions {
                    return Err(HealthcheckError::Extensions);
                }
                let health_cmd = match test {
                    Some(Test::Command(words)) => Some(to_json(&words)),
                    Some(Test::ShellCommand(line)) => Some(line),
                    None => None,
                };
                Ok(
                    HealthOptions {
                        health_cmd,
                        health_interval: interval,
                        health_timeout: timeout,
                        health_retries: retries,
                        health_start_period: start_period,
                        health_startup_interval: start_interval,
                    },
                )
            },
            ComposeHealthcheck::Disable => {
                let o = HealthOptions {
                    health_cmd: Some("none".to_owned()),
                    health_interval: None,
                    health_timeout: None,
                    health_retries: None,
                    health_start_period: None,
                    health_startup_interval: None,
                };
                proof {
                    reveal_strlit("none");
                }
                Ok(o)
            },
        }
    }
}

/// The `--secret` value of a secret.
pub open spec fn secret_fn() -> spec_fn(ServiceSecret) -> Result<Seq<char>, ShortFormError> {
    |s: ServiceSecret| secret_short(s)
}

/// The `--ulimit` value of a ulimit of a resource.
pub open spec fn ulimit_fn() -> spec_fn((String, Ulimit)) -> Result<Seq<char>, ShortFormError> {
    |u: (String, Ulimit)| ulimit_short(u.0@, u.1)
}

/// The `--publish` value of a port, which must have a short form.
pub open spec fn port_fn() -> spec_fn(Option<String>) -> Result<Seq<char>, ()> {
    |p: Option<String>| match p {
        Some(t) => Ok(t@),
        None => Err(()),
    }
}

/// An environment file of a compose service.
#[derive(Debug, Clone, PartialEq, Eq)]
pub struct EnvFile {
    pub path: String,
    pub required: bool,
}

/// The `--env-file` value of an environment file, which must be required.
pub open spec fn env_file_fn() -> spec_fn(EnvFile) -> Result<Seq<char>, ()> {
    |f: EnvFile| if f.required {
        Ok(f.path@)
    } else {
        Err(())
    }
}

/// The `--secret` value of a secret.
fn secret_value(s: ServiceSecret) -> (r: Result<String, ShortFormError>)
    ensures
        match r {
            Ok(t) => (secret_fn())(s) == Ok::<Seq<char>, ShortFormError>(t@),
            Err(e) => (secret_fn())(s) == Err::<Seq<char>, ShortFormError>(e),
        },
{
    secret_try_into_short(s)
}

/// The `--ulimit` value of a ulimit.
fn ulimit_value(u: (String, Ulimit)) -> (r: Result<String, ShortFormError>)
    ensures
        match r {
            Ok(t) => (ulimit_fn())(u) == Ok::<Seq<char>, ShortFormError>(t@),
            Err(e) => (ulimit_fn())(u) == Err::<Seq<char>, ShortFormError>(e),
        },
{
    let (resource, limit) = u;
    ulimit_try_into_short(resource.as_str(), limit)
}

/// The `--publish` value of a port.
fn port_value(p: Option<String>) -> (r: Result<String, ()>)
    ensures
        match r {
            Ok(t) => (port_fn())(p) == Ok::<Seq<char>, ()>(t@),
            Err(e) => (port_fn())(p) == Err::<Seq<char>, ()>(e),
        },
{
    match p {
        Some(t) => Ok(t),
        None => Err(()),
    }
}

/// The `--env-file` value of an environment file.
fn env_file_value(f: EnvFile) -> (r: Result<String, ()>)
    ensures
        match r {
            Ok(t) => (env_file_fn())(f) == Ok::<Seq<char>, ()>(t@),
            Err(e) => (env_file_fn())(f) == Err::<Seq<char>, ()>(e),
        },
{
    if f.required {
        Ok(f.path)
    } else {
        Err(())
    }
}

/// The `--secret` values of secrets, up to the first error.
#[verifier::loop_isolation(false)]
fn secrets_short(items: Vec<ServiceSecret>) -> (r: Result<Vec<String>, ShortFormError>)
    ensures
        match r {
            Ok(v) => convert_all(items@, secret_fn()) == Ok::<Seq<Seq<char>>, ShortFormError>(v.deep_view()),
            Err(e) => convert_all(items@, secret_fn()) == Err::<Seq<Seq<char>>, ShortFormError>(e),
        },
{
    let ghost all = items@;
    let ghost f = secret_fn();
    let mut rest = items;
    let mut out: Vec<String> = Vec::new();
    let ghost mut k: int = 0;
    assert(all.subrange(0, 0) =~= Seq::<ServiceSecret>::empty());
    assert(out.deep_view() =~= Seq::<Seq<char>>::empty());
    assert(rest@ =~= all.subrange(0, all.len() as int));
    while rest.len() > 0
        invariant
            0 <= k <= all.len(),
            f == secret_fn(),
            rest@ == all.subrange(k, all.len() as int),
            convert_all(all.subrange(0, k), f) == Ok::<Seq<Seq<char>>, ShortFormError>(out.deep_view()),
        decreases rest.len(),
    {
        let item = rest.remove(0);
        assert(item == all[k]);
        let ghost pre = all.subrange(0, k + 1);
        assert(pre.drop_last() =~= all.subrange(0, k));
        assert(pre.last() == all[k]);
        match secret_value(item) {
            Ok(t) => {
                let ghost before = out.deep_view();
                let ghost tv = t@;
                out.push(t);
                assert(out.deep_view() =~= before.push(tv));
            },
            Err(e) => {
                proof {
                    assert(convert_all(pre, f) is Err);
                    lemma_convert_all_stop(all, f, k + 1, all.len() as int);
                    assert(all.subrange(0, all.len() as int) =~= all);
                }
                return Err(e);
            },
        }
        proof {
            k = k + 1;
        }
        assert(rest@ =~= all.subrange(k, all.len() as int));
    }
    assert(all.subrange(0, k) =~= all);
    Ok(out)
}

/// The `--ulimit` values of ulimits, up to the first error.
#[verifier::loop_isolation(false)]
fn ulimits_short(items: Vec<(String, Ulimit)>) -> (r: Result<Vec<String>, ShortFormError>)
    ensures
        match r {
            Ok(v) => convert_all(items@, ulimit_fn()) == Ok::<Seq<Seq<char>>, ShortFormError>(v.deep_view()),
            Err(e) => convert_all(items@, ulimit_fn()) == Err::<Seq<Seq<char>>, ShortFormError>(e),
        },
{
    let ghost all = items@;
    let ghost f = ulimit_fn();
    let mut rest = items;
    let mut out: Vec<String> = Vec::new();
    let ghost mut k: int = 0;
    assert(all.subrange(0, 0) =~= Seq::<(String, Ulimit)>::empty());
    assert(out.deep_view() =~= Seq::<Seq<char>>::empty());
    assert(rest@ =~= all.subrange(0, all.len() as int));
    while rest.len() > 0
        invariant
            0 <= k <= all.len(),
            f == ulimit_fn(),
            rest@ == all.subrange(k, all.len() as int),
            convert_all(all.subrange(0, k), f) == Ok::<Seq<Seq<char>>, ShortFormError>(out.deep_view()),
        decreases rest.len(),
    {
        let item = rest.remove(0);
        assert(item == all[k]);
        let ghost pre = all.subrange(0, k + 1);
        assert(pre.drop_last() =~= all.subrange(0, k));
        assert(pre.last() == all[k]);
        match ulimit_value(item) {
            Ok(t) => {
                let ghost before = out.deep_view();
                let ghost tv = t@;
                out.push(t);
                assert(out.deep_view() =~= before.push(tv));
            },
            Err(e) => {
                proof {
                    assert(convert_all(pre, f) is Err);
                    lemma_convert_all_stop(all, f, k + 1, all.len() as int);
                    assert(all.subrange(0, all.len() as int) =~= all);
                }
                return Err(e);
            },
        }
        proof {
            k = k + 1;
        }
        assert(rest@ =~= all.subrange(k, all.len() as int));
    }
    assert(all.subrange(0, k) =~= all);
    Ok(out)
}

/// The `--publish` values of ports, up to the first without a short form.
#[verifier::loop_isolation(false)]
fn ports_short(items: Vec<Option<String>>) -> (r: Result<Vec<String>, ()>)
    ensures
        match r {
            Ok(v) => convert_all(items@, port_fn()) == Ok::<Seq<Seq<char>>, ()>(v.deep_view()),
            Err(e) => convert_all(items@, port_fn()) == Err::<Seq<Seq<char>>, ()>(e),
        },
{
    let ghost all = items@;
    let ghost f = port_fn();
    let mut rest = items;
    let mut out: Vec<String> = Vec::new();
    let ghost mut k: int = 0;
    assert(all.subrange(0, 0) =~= Seq::<Option<String>>::empty());
    assert(out.deep_view() =~= Seq::<Seq<char>>::empty());
    assert(rest@ =~= all.subrange(0, all.len() as int));
    while rest.len() > 0
        invariant
            0 <= k <= all.len(),
            f == port_fn(),
            rest@ == all.subrange(k, all.len() as int),
            convert_all(all.subrange(0, k), f) == Ok::<Seq<Seq<char>>, ()>(out.deep_view()),
        decreases rest.len(),
    {
        let item = rest.remove(0);
        assert(item == all[k]);
        let ghost pre = all.subrange(0, k + 1);
        assert(pre.drop_last() =~= all.subrange(0, k));
        assert(pre.last() == all[k]);
        match port_value(item) {
            Ok(t) => {
                let ghost before = out.deep_view();
                let ghost tv = t@;
                out.push(t);
                assert(out.deep_view() =~= before.push(tv));
            },
            Err(e) => {
                proof {
                    assert(convert_all(pre, f) is Err);
                    lemma_convert_all_stop(all, f, k + 1, all.len() as int);
                    assert(all.subrange(0, all.len() as int) =~= all);
                }
                return Err(e);
            },
        }
        proof {
            k = k + 1;
        }
        assert(rest@ =~= all.subrange(k, all.len() as int));
    }
    assert(all.subrange(0, k) =~= all);
    Ok(out)
}

/// The `--env-file` values of environment files, up to the first optional one.
#[verifier::loop_isolation(false)]
fn env_files(items: Vec<EnvFile>) -> (r: Result<Vec<String>, ()>)
    ensures
        match r {
            Ok(v) => convert_all(items@, env_file_fn()) == Ok::<Seq<Seq<char>>, ()>(v.deep_view()),
            Err(e) => convert_all(items@, env_file_fn()) == Err::<Seq<Seq<char>>, ()>(e),
        },
{
    let ghost all = items@;
    let ghost f = env_file_fn();
    let mut rest = items;
    let mut out: Vec<String> = Vec::new();
    let ghost mut k: int = 0;
    assert(all.subrange(0, 0) =~= Seq::<EnvFile>::empty());
    assert(out.deep_view() =~= Seq::<Seq<char>>::empty());
    assert(rest@ =~= all.subrange(0, all.len() as int));
    while rest.len() > 0
        invariant
            0 <= k <= all.len(),
            f == env_file_fn(),
            rest@ == all.subrange(k, all.len() as int),
            convert_all(all.subrange(0, k), f) == Ok::<Seq<Seq<char>>, ()>(out.deep_view()),
        decreases rest.len(),
    {
        let item = rest.remove(0);
        assert(item == all[k]);
        let ghost pre = all.subrange(0, k + 1);
        assert(pre.drop_last() =~= all.subrange(0, k));
        assert(pre.last() == all[k]);
        match env_file_value(item) {
            Ok(t) => {
                let ghost before = out.deep_view();
                let ghost tv = t@;
                out.push(t);
                assert(out.deep_view() =~= before.push(tv));
            },
            Err(e) => {
                proof {
                    assert(convert_all(pre, f) is Err);
                    lemma_convert_all_stop(all, f, k + 1, all.len() as int);
                    assert(all.subrange(0, all.len() as int) =~= all);
                }
                return Err(e);
            },
        }
        proof {
            k = k + 1;
        }
        assert(rest@ =~= all.subrange(k, all.len() as int));
    }
    assert(all.subrange(0, k) =~= all);
    Ok(out)
}


/// Options of `podman run` that become Quadlet options of a container.
#[derive(Debug, Clone, PartialEq, Eq)]
pub struct QuadletOptions {
    pub cap_add: Vec<String>,
    pub device: Vec<Device>,
    pub annotation: Vec<String>,
    pub name: Option<String>,
    pub dns: Vec<DnsEntry>,
    pub dns_option: Vec<String>,
    pub dns_search: Vec<String>,
    pub cap_drop: Vec<String>,
    pub entrypoint: Option<String>,
    pub env: Vec<String>,
    pub env_file: Vec<String>,
    pub env_host: bool,
    pub expose: Vec<String>,
    pub gidmap: Vec<String>,
    pub group_add: Vec<String>,
    pub health_cmd: Option<String>,
    pub health_interval: Option<String>,
    pub health_on_failure: Option<String>,
    pub health_retries: Option<u64>,
    pub health_start_period: Option<String>,
    pub health_startup_cmd: Option<String>,
    pub health_startup_interval: Option<String>,
    pub health_startup_retries: Option<u16>,
    pub health_startup_success: Option<u16>,
    pub health_startup_timeout: Option<String>,
    pub health_timeout: Option<String>,
    pub hostname: Option<String>,
    pub ip: Option<String>,
    pub ip6: Option<String>,
    pub label: Vec<String>,
    pub log_driver: Option<String>,
    pub mount: Vec<Mount>,
    pub network: Vec<String>,
    pub sdnotify: Notify,
    pub pids_limit: Option<PidsLimit>,
    pub publish: Vec<String>,
    pub pull: Option<PullPolicy>,
    pub read_only: bool,
    pub read_only_tmpfs: bool,
    pub rootfs: Option<Rootfs>,
    pub init: bool,
    pub secret: Vec<String>,
    pub shm_size: Option<String>,
    pub stop_timeout: Option<u64>,
    pub subgidname: Option<String>,
    pub subuidname: Option<String>,
    pub sysctl: Vec<String>,
    pub tz: Option<String>,
    pub tmpfs: Vec<String>,
    pub uidmap: Vec<String>,
    pub ulimit: Vec<String>,
    pub user: Option<String>,
    pub userns: Option<String>,
    pub volume: Vec<Volume>,
    pub workdir: Option<String>,
}

/// No option is set: each is unset or off, the notify socket is used by conmon, and the
/// container's temporary file systems are read-write.
pub open spec fn options_empty(o: QuadletOptions) -> bool {
    &&& o.cap_add@.len() == 0 && o.device@.len() == 0 && o.annotation@.len() == 0
    &&& o.name is None && o.dns@.len() == 0 && o.dns_option@.len() == 0
    &&& o.dns_search@.len() == 0 && o.cap_drop@.len() == 0 && o.entrypoint is None
    &&& o.env@.len() == 0 && o.env_file@.len() == 0 && !o.env_host && o.expose@.len() == 0
    &&& o.gidmap@.len() == 0 && o.group_add@.len() == 0 && o.health_cmd is None
    &&& o.health_interval is None && o.health_on_failure is None && o.health_retries is None
    &&& o.health_start_period is None && o.health_startup_cmd is None
    &&& o.health_startup_interval is None && o.health_startup_retries is None
    &&& o.health_startup_success is None && o.health_startup_timeout is None
    &&& o.health_timeout is None && o.hostname is None && o.ip is None && o.ip6 is None
    &&& o.label@.len() == 0 && o.log_driver is None && o.mount@.len() == 0
    &&& o.network@.len() == 0 && o.sdnotify == Notify::Conmon && o.pids_limit is None
    &&& o.publish@.len() == 0 && o.pull is None && !o.read_only && o.read_only_tmpfs
    &&& o.rootfs is None && !o.init && o.secret@.len() == 0 && o.shm_size is None
    &&& o.stop_timeout is None && o.subgidname is None && o.subuidname is None
    &&& o.sysctl@.len() == 0 && o.tz is None && o.tmpfs@.len() == 0 && o.uidmap@.len() == 0
    &&& o.ulimit@.len() == 0 && o.user is None && o.userns is None && o.volume@.len() == 0
    &&& o.workdir is None
}

/// The options that a compose service does not set are as [`QuadletOptions::new`] leaves them.
pub open spec fn compose_rest_default(o: QuadletOptions) -> bool {
    &&& !o.env_host && o.gidmap@.len() == 0 && o.health_on_failure is None
    &&& o.health_startup_cmd is None && o.health_startup_retries is None
    &&& o.health_startup_success is None && o.health_startup_timeout is None && o.ip is None
    &&& o.ip6 is None && o.mount@.len() == 0 && o.sdnotify == Notify::Conmon
    &&& o.read_only_tmpfs && o.rootfs is None && o.subgidname is None
    &&& o.subuidname is None && o.tz is None && o.uidmap@.len() == 0
}

impl QuadletOptions {
    /// No option set.
    pub fn new() -> (o: QuadletOptions)
        ensures
            options_empty(o),
    {
        QuadletOptions {
            cap_add: Vec::new(),
            device: Vec::new(),
            annotation: Vec::new(),
            name: None,
            dns: Vec::new(),
            dns_option: Vec::new(),
            dns_search: Vec::new(),
            cap_drop: Vec::new(),
            entrypoint: None,
            env: Vec::new(),
            env_file: Vec::new(),
            env_host: false,
            expose: Vec::new(),
            gidmap: Vec::new(),
            group_add: Vec::new(),
            health_cmd: None,
            health_interval: None,
            health_on_failure: None,
            health_retries: None,
            health_start_period: None,
            health_startup_cmd: None,
            health_startup_interval: None,
            health_startup_retries: None,
            health_startup_success: None,
            health_startup_timeout: None,
            health_timeout: None,
            hostname: None,
            ip: None,
            ip6: None,
            label: Vec::new(),
            log_driver: None,
            mount: Vec::new(),
            network: Vec::new(),
            sdnotify: Notify::Conmon,
            pids_limit: None,
            publish: Vec::new(),
            pull: None,
            read_only: false,
            read_only_tmpfs: true,
            rootfs: None,
            init: false,
            secret: Vec::new(),
            shm_size: None,
            stop_timeout: None,
            subgidname: None,
            subuidname: None,
            sysctl: Vec::new(),
            tz: None,
            tmpfs: Vec::new(),
            uidmap: Vec::new(),
            ulimit: Vec::new(),
            user: None,
            userns: None,
            volume: Vec::new(),
            workdir: None,
        }
    }
}

impl Default for QuadletOptions {
    fn default() -> (o: QuadletOptions)
        ensures
            options_empty(o),
    {
        QuadletOptions::new()
    }
}

/// A device of a compose service.
#[derive(Debug, Clone, PartialEq, Eq)]
pub struct ComposeDevice {
    pub host_path: String,
    pub container_path: String,
    pub read: bool,
    pub write: bool,
    pub mknod: bool,
}

/// The options of a compose service that become Quadlet options of a container.
#[derive(Debug, Clone, PartialEq, Eq)]
pub struct ComposeQuadlet {
    pub cap_add: Vec<String>,
    pub cap_drop: Vec<String>,
    pub container_name: Option<String>,
    pub devices: Vec<ComposeDevice>,
    /// DNS servers, by IP address.
    pub dns: Vec<String>,
    pub dns_opt: Vec<String>,
    pub dns_search: Vec<String>,
    pub entrypoint: Option<ServiceCommand>,
    pub env_file: Vec<EnvFile>,
    /// The environment, each "NAME=VALUE" or "NAME".
    pub environment: Vec<String>,
    /// Exposed ports, as written.
    pub expose: Vec<String>,
    /// Annotations, each "KEY=VALUE".
    pub annotations: Vec<String>,
    pub group_add: Vec<String>,
    pub healthcheck: ComposeHealthcheck,
    pub hostname: Option<String>,
    pub init: bool,
    /// Labels, each "KEY=VALUE".
    pub labels: Vec<String>,
    pub log_driver: Option<String>,
    pub network_config: Option<NetworkConfig>,
    pub pids_limit: Option<PidsLimit>,
    /// Published ports in the short syntax; none for a port that has no short form.
    pub ports: Vec<Option<String>>,
    pub pull_policy: Option<ComposePullPolicy>,
    pub read_only: bool,
    pub secrets: Vec<ServiceSecret>,
    /// The size of `/dev/shm`, as written.
    pub shm_size: Option<String>,
    pub stop_grace_period: Option<Duration>,
    /// Kernel parameters, each "NAME=VALUE".
    pub sysctls: Vec<String>,
    /// Paths of tmpfs mounts.
    pub tmpfs: Vec<String>,
    /// Ulimits, each of a resource.
    pub ulimits: Vec<(String, Ulimit)>,
    pub user: Option<String>,
    pub userns_mode: Option<String>,
    pub volumes: Vec<ServiceVolume>,
    pub working_dir: Option<String>,
}

/// Error returned when a compose service cannot give Quadlet options of a container.
#[derive(Debug, Clone, PartialEq, Eq)]
pub enum QuadletOptionsError {
    Healthcheck(HealthcheckError),
    Volumes(VolumeConvertError),
    /// Optional environment files are not supported.
    OptionalEnvFile,
    Network(NetworkConfigError),
    /// A port that has no short form.
    Port,
    PullPolicy(BuildPullPolicyError),
    Secret(ShortFormError),
    Ulimit(ShortFormError),
}

/// [`QuadletOptionsError`] with its texts as character sequences.
pub ghost enum QuadletOptionsErr {
    Healthcheck(HealthcheckError),
    Volumes(VolumeConvertError),
    OptionalEnvFile,
    Network(NetworkConfigErr),
    Port,
    PullPolicy(BuildPullPolicyError),
    Secret(ShortFormError),
    Ulimit(ShortFormError),
}

impl View for QuadletOptionsError {
    type V = QuadletOptionsErr;

    open spec fn view(&self) -> QuadletOptionsErr {
        match self {
            QuadletOptionsError::Healthcheck(e) => QuadletOptionsErr::Healthcheck(*e),
            QuadletOptionsError::Volumes(e) => QuadletOptionsErr::Volumes(*e),
            QuadletOptionsError::OptionalEnvFile => QuadletOptionsErr::OptionalEnvFile,
            QuadletOptionsError::Network(e) => QuadletOptionsErr::Network(e@),
            QuadletOptionsError::Port => QuadletOptionsErr::Port,
            QuadletOptionsError::PullPolicy(e) => QuadletOptionsErr::PullPolicy(*e),
            QuadletOptionsError::Secret(e) => QuadletOptionsErr::Secret(*e),
            QuadletOptionsError::Ulimit(e) => QuadletOptionsErr::Ulimit(*e),
        }
    }
}

/// The volumes and the `--tmpfs` values of compose volumes, in order, up to the first error.
pub open spec fn volumes_fold(vs: Seq<ServiceVolume>) -> Result<
    (Seq<VolumeView>, Seq<Seq<char>>),
    VolumeConvertError,
>
    decreases vs.len(),
{
    if vs.len() == 0 {
        Ok((Seq::empty(), Seq::empty()))
    } else {
        match volumes_fold(vs.drop_last()) {
            Err(e) => Err(e),
            Ok((volumes, tmpfs)) => match service_volume(vs.last()) {
                Err(e) => Err(e),
                Ok((Some(v), _)) => Ok((volumes.push(v), tmpfs)),
                Ok((None, Some(t))) => Ok((volumes, tmpfs.push(t))),
                Ok((None, None)) => Ok((volumes, tmpfs)),
            },
        }
    }
}

/// After the first volume that fails, more volumes give that error.
proof fn lemma_volumes_stop(vs: Seq<ServiceVolume>, j: int, n: int)
    requires
        0 <= j <= n <= vs.len(),
        volumes_fold(vs.subrange(0, j)) is Err,
    ensures
        volumes_fold(vs.subrange(0, n)) == volumes_fold(vs.subrange(0, j)),
    decreases n - j,
{
    if n > j {
        lemma_volumes_stop(vs, j, n - 1);
        assert(vs.subrange(0, n).drop_last() =~= vs.subrange(0, n - 1));
    }
}

/// The views of volumes.
pub open spec fn volumes_view(v: Seq<Volume>) -> Seq<VolumeView> {
    v.map_values(|x: Volume| x@)
}

/// The volumes of compose volumes, with the `--tmpfs` values of tmpfs mounts appended to
/// `tmpfs`, up to the first error.
#[verifier::loop_isolation(false)]
fn volumes_try_into_short(volumes: Vec<ServiceVolume>, tmpfs: &mut Vec<String>) -> (r: Result<
    Vec<Volume>,
    VolumeConvertError,
>)
    ensures
        match r {
            Ok(v) => volumes_fold(volumes@) matches Ok((vs, ts)) && volumes_view(v@) == vs
                && final(tmpfs).deep_view() == old(tmpfs).deep_view() + ts,
            Err(e) => volumes_fold(volumes@) == Err::<(Seq<VolumeView>, Seq<Seq<char>>), VolumeConvertError>(e),
        },
{
    let ghost all = volumes@;
    let ghost start = tmpfs.deep_view();
    let mut rest = volumes;
    let mut out: Vec<Volume> = Vec::new();
    let ghost mut k: int = 0;
    let ghost mut added: Seq<Seq<char>> = Seq::empty();
    assert(all.subrange(0, 0) =~= Seq::<ServiceVolume>::empty());
    assert(volumes_view(out@) =~= Seq::<VolumeView>::empty());
    assert(tmpfs.deep_view() =~= start + added);
    assert(rest@ =~= all.subrange(0, all.len() as int));
    while rest.len() > 0
        invariant
            0 <= k <= all.len(),
            rest@ == all.subrange(k, all.len() as int),
            volumes_fold(all.subrange(0, k)) == Ok::<
                (Seq<VolumeView>, Seq<Seq<char>>),
                VolumeConvertError,
            >((volumes_view(out@), added)),
            tmpfs.deep_view() == start + added,
        decreases rest.len(),
    {
        let v = rest.remove(0);
        assert(v == all[k]);
        let ghost pre = all.subrange(0, k + 1);
        assert(pre.drop_last() =~= all.subrange(0, k));
        assert(pre.last() == all[k]);
        let ghost before_tmpfs = tmpfs.deep_view();
        let ghost before_vec = tmpfs@;
        match volume_try_into_short(v, tmpfs) {
            Ok(Some(volume)) => {
                let ghost before = volumes_view(out@);
                out.push(volume);
                assert(volumes_view(out@) =~= before.push(volume@));
                assert(tmpfs.deep_view() =~= before_tmpfs);
            },
            Ok(None) => {
                let ghost t = choose|t: String|
                    service_volume(all[k]) == Ok::<
                        (Option<VolumeView>, Option<Seq<char>>),
                        VolumeConvertError,
                    >((None, Some(t@))) && tmpfs@ == before_vec.push(t);
                assert(tmpfs.deep_view() =~= before_tmpfs.push(t@));
                proof {
                    added = added.push(t@);
                }
                assert(tmpfs.deep_view() =~= start + added);
            },
            Err(e) => {
                proof {
                    assert(volumes_fold(pre) is Err);
                    lemma_volumes_stop(all, k + 1, all.len() as int);
                    assert(all.subrange(0, all.len() as int) =~= all);
                }
                return Err(e);
            },
        }
        proof {
            k = k + 1;
        }
        assert(rest@ =~= all.subrange(k, all.len() as int));
    }
    assert(all.subrange(0, k) =~= all);
    Ok(out)
}

/// The entrypoint of the container: a line as it is, a list of words as a JSON array.
pub open spec fn entrypoint_text(e: Option<ServiceCommand>) -> Option<Seq<char>> {
    match e {
        Some(ServiceCommand::Simple(line)) => Some(line@),
        Some(ServiceCommand::Args(words)) => Some(json_strings(words.deep_view())),
        None => None,
    }
}

/// The device of a compose device, with its container path.
pub open spec fn device_of(d: ComposeDevice) -> crate::device::DeviceView {
    crate::device::DeviceView {
        host: d.host_path@,
        container: Some(d.container_path@),
        read: d.read,
        write: d.write,
        mknod: d.mknod,
    }
}

/// The pull policy of a compose pull policy, where there is one.
pub open spec fn pull_of(p: Option<ComposePullPolicy>) -> Option<PullPolicy> {
    match p {
        Some(ComposePullPolicy::Always) => Some(PullPolicy::Always),
        Some(ComposePullPolicy::Never) => Some(PullPolicy::Never),
        Some(ComposePullPolicy::Missing) => Some(PullPolicy::Missing),
        _ => None,
    }
}

/// The first error of a compose service's options, checked in this order: the healthcheck,
/// the volumes, the environment files, the network configuration, the ports, the pull policy,
/// the secrets, the ulimits.
pub open spec fn compose_options_check(q: ComposeQuadlet) -> Result<(), QuadletOptionsErr> {
    if let Err(e) = health_options(q.healthcheck) {
        Err(QuadletOptionsErr::Healthcheck(e))
    } else if let Err(e) = volumes_fold(q.volumes@) {
        Err(QuadletOptionsErr::Volumes(e))
    } else if convert_all(q.env_file@, env_file_fn()) is Err {
        Err(QuadletOptionsErr::OptionalEnvFile)
    } else if q.network_config matches Some(c) && network_config_values(c) is Err {
        Err(QuadletOptionsErr::Network(network_config_values(q.network_config->Some_0)->Err_0))
    } else if convert_all(q.ports@, port_fn()) is Err {
        Err(QuadletOptionsErr::Port)
    } else if q.pull_policy == Some(ComposePullPolicy::Build) {
        Err(QuadletOptionsErr::PullPolicy(BuildPullPolicyError))
    } else if let Err(e) = convert_all(q.secrets@, secret_fn()) {
        Err(QuadletOptionsErr::Secret(e))
    } else if let Err(e) = convert_all(q.ulimits@, ulimit_fn()) {
        Err(QuadletOptionsErr::Ulimit(e))
    } else {
        Ok(())
    }
}

/// The devices of compose devices.
fn devices_of(devices: Vec<ComposeDevice>) -> (r: Vec<Device>)
    ensures
        r@.map_values(|d: Device| d@) == devices@.map_values(|d: ComposeDevice| device_of(d)),
{
    let mut out: Vec<Device> = Vec::new();
    let mut i: usize = 0;
    while i < devices.len()
        invariant
            i <= devices@.len(),
            out@.map_values(|d: Device| d@) == devices@.subrange(0, i as int).map_values(
                |d: ComposeDevice| device_of(d),
            ),
        decreases devices@.len() - i,
    {
        let d = &devices[i];
        let device = Device {
            host: d.host_path.clone(),
            container: Some(d.container_path.clone()),
            read: d.read,
            write: d.write,
            mknod: d.mknod,
        };
        let ghost before = out@;
        out.push(device);
        assert(out@.map_values(|d: Device| d@) =~= before.map_values(|d: Device| d@).push(
            device_of(devices@[i as int]),
        ));
        assert(devices@.subrange(0, i + 1).map_values(|d: ComposeDevice| device_of(d))
            =~= devices@.subrange(0, i as int).map_values(|d: ComposeDevice| device_of(d)).push(
            device_of(devices@[i as int]),
        ));
        i = i + 1;
    }
    assert(devices@.subrange(0, devices@.len() as int) =~= devices@);
    out
}

/// The DNS entries of DNS servers.
fn dns_of(ips: Vec<String>) -> (r: Vec<DnsEntry>)
    ensures
        r@ == ips@.map_values(|ip: String| DnsEntry::IpAddr(ip)),
{
    let ghost all = ips@;
    let mut rest = ips;
    let mut out: Vec<DnsEntry> = Vec::new();
    let ghost mut k: int = 0;
    assert(rest@ =~= all.subrange(0, all.len() as int));
    while rest.len() > 0
        invariant
            0 <= k <= all.len(),
            rest@ == all.subrange(k, all.len() as int),
            out@ == all.subrange(0, k).map_values(|ip: String| DnsEntry::IpAddr(ip)),
        decreases rest.len(),
    {
        let ip = rest.remove(0);
        assert(ip == all[k]);
        out.push(DnsEntry::IpAddr(ip));
        assert(all.subrange(0, k + 1).map_values(|ip: String| DnsEntry::IpAddr(ip))
            =~= all.subrange(0, k).map_values(|ip: String| DnsEntry::IpAddr(ip)).push(
            DnsEntry::IpAddr(all[k]),
        ));
        proof {
            k = k + 1;
        }
        assert(rest@ =~= all.subrange(k, all.len() as int));
    }
    assert(all.subrange(0, k) =~= all);
    out
}

impl QuadletOptions {
    /// The Quadlet options of a container that a compose service gives: each option as it is,
    /// or in the form that `podman run` takes (see [`compose_options_check`] for the errors);
    /// the `--tmpfs` values of tmpfs volumes follow the service's own tmpfs mounts.
    #[verifier::rlimit(40)]
    pub fn try_from_compose(q: ComposeQuadlet) -> (r: Result<QuadletOptions, QuadletOptionsError>)
        ensures
            match r {
                Ok(o) => {
                    &&& compose_options_check(q) is Ok
                    &&& o.cap_add@ == q.cap_add@ && o.cap_drop@ == q.cap_drop@
                    &&& o.name == q.container_name
                    &&& o.device@.map_values(|d: Device| d@) == q.devices@.map_values(
                        |d: ComposeDevice| device_of(d),
                    )
                    &&& o.dns@ == q.dns@.map_values(|ip: String| DnsEntry::IpAddr(ip))
                    &&& o.dns_option@ == q.dns_opt@ && o.dns_search@ == q.dns_search@
                    &&& opt_seq(o.entrypoint) == entrypoint_text(
                        q.entrypoint,
                    )
                    &&& convert_all(q.env_file@, env_file_fn()) == Ok::<Seq<Seq<char>>, ()>(
                        o.env_file.deep_view(),
                    )
                    &&& o.env@ == q.environment@ && o.expose@ == q.expose@
                    &&& o.annotation@ == q.annotations@ && o.group_add@ == q.group_add@
                    &&& health_options(q.healthcheck) == Ok::<_, HealthcheckError>(
                        (
                            opt_seq(o.health_cmd),
                            opt_seq(o.health_interval),
                            opt_seq(o.health_timeout),
                            o.health_retries,
                            opt_seq(o.health_start_period),
                            opt_seq(o.health_startup_interval),
                        ),
                    )
                    &&& o.hostname == q.hostname && o.init == q.init && o.label@ == q.labels@
                    &&& o.log_driver == q.log_driver
                    &&& o.network.deep_view() == match q.network_config {
                        Some(c) => network_config_values(c)->Ok_0,
                        None => Seq::<Seq<char>>::empty(),
                    }
                    &&& o.pids_limit == q.pids_limit
                    &&& convert_all(q.ports@, port_fn()) == Ok::<Seq<Seq<char>>, ()>(
                        o.publish.deep_view(),
                    )
                    &&& o.pull == pull_of(q.pull_policy) && o.read_only == q.read_only
                    &&& convert_all(q.secrets@, secret_fn()) == Ok::<
                        Seq<Seq<char>>,
                        ShortFormError,
                    >(o.secret.deep_view())
                    &&& o.shm_size == q.shm_size
                    &&& o.stop_timeout == match q.stop_grace_period {
                        Some(d) => Some(d.0),
                        None => None,
                    }
                    &&& o.sysctl@ == q.sysctls@
                    &&& volumes_fold(q.volumes@) matches Ok((vs, ts)) && volumes_view(o.volume@)
                        == vs && o.tmpfs.deep_view() == q.tmpfs.deep_view() + ts
                    &&& convert_all(q.ulimits@, ulimit_fn()) == Ok::<
                        Seq<Seq<char>>,
                        ShortFormError,
                    >(o.ulimit.deep_view())
                    &&& o.user == q.user && o.userns == q.userns_mode && o.workdir == q.working_dir
                    &&& compose_rest_default(o)
                },
                Err(e) => compose_options_check(q) == Err::<(), QuadletOptionsErr>(e@),
            },
    {
        let ghost g = q;
        let ComposeQuadlet {
            cap_add,
            cap_drop,
            container_name,
            devices,
            dns,
            dns_opt,
            dns_search,
            entrypoint,
            env_file,
            environment,
            expose,
            annotations,
            group_add,
            healthcheck,
            hostname,
            init,
            labels,
            log_driver,
            network_config,
            pids_limit,
            ports,
            pull_policy,
            read_only,
            secrets,
            shm_size,
            stop_grace_period,
            sysctls,
            tmpfs,
            ulimits,
            user,
            userns_mode,
            volumes,
            working_dir,
        } = q;
        let health = match HealthOptions::try_from_compose(healthcheck) {
            Ok(h) => h,
            Err(e) => {
                return Err(QuadletOptionsError::Healthcheck(e));
            },
        };
        let mut tmpfs = tmpfs;
        let volume = match volumes_try_into_short(volumes, &mut tmpfs) {
            Ok(v) => v,
            Err(e) => {
                return Err(QuadletOptionsError::Volumes(e));
            },
        };
        let device = devices_of(devices);
        let dns = dns_of(dns);
        let entrypoint = match entrypoint {
            Some(ServiceCommand::Simple(line)) => Some(line),
            Some(ServiceCommand::Args(words)) => Some(to_json(&words)),
            None => None,
        };
        let env_file = match env_files(env_file) {
            Ok(v) => v,
            Err(()) => {
                return Err(QuadletOptionsError::OptionalEnvFile);
            },
        };
        let network = match network_config {
            Some(c) => match network_config_try_into_network_options(c) {
                Ok(v) => v,
                Err(e) => {
                    return Err(QuadletOptionsError::Network(e));
                },
            },
            None => Vec::new(),
        };
        let publish = match ports_short(ports) {
            Ok(v) => v,
            Err(()) => {
                return Err(QuadletOptionsError::Port);
            },
        };
        let pull = match pull_policy {
            Some(p) => match PullPolicy::try_from_compose(p) {
                Ok(p) => Some(p),
                Err(e) => {
                    return Err(QuadletOptionsError::PullPolicy(e));
                },
            },
            None => None,
        };
        let secret = match secrets_short(secrets) {
            Ok(v) => v,
            Err(e) => {
                return Err(QuadletOptionsError::Secret(e));
            },
        };
        let ulimit = match ulimits_short(ulimits) {
            Ok(v) => v,
            Err(e) => {
                return Err(QuadletOptionsError::Ulimit(e));
            },
        };
        let stop_timeout = match stop_grace_period {
            Some(d) => Some(d.0),
            None => None,
        };
        let mut o = QuadletOptions::new();
        o.cap_add = cap_add;
        o.cap_drop = cap_drop;
        o.name = container_name;
        o.device = device;
        o.dns = dns;
        o.dns_option = dns_opt;
        o.dns_search = dns_search;
        o.entrypoint = entrypoint;
        o.env_file = env_file;
        o.env = environment;
        o.expose = expose;
        o.annotation = annotations;
        o.group_add = group_add;
        o.health_cmd = health.health_cmd;
        o.health_interval = health.health_interval;
        o.health_timeout = health.health_timeout;
        o.health_retries = health.health_retries;
        o.health_start_period = health.health_start_period;
        o.health_startup_interval = health.health_startup_interval;
        o.hostname = hostname;
        o.init = init;
        o.label = labels;
        o.log_driver = log_driver;
        o.network = network;
        o.pids_limit = pids_limit;
        o.publish = publish;
        o.pull = pull;
        o.read_only = read_only;
        o.secret = secret;
        o.shm_size = shm_size;
        o.stop_timeout = stop_timeout;
        o.sysctl = sysctls;
        o.tmpfs = tmpfs;
        o.ulimit = ulimit;
        o.user = user;
        o.userns = userns_mode;
        o.volume = volume;
        o.workdir = working_dir;
        Ok(o)
    }
}

} // verus!
