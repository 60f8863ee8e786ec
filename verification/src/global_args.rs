//! Podman's global options, which a Quadlet file holds in its `[Globals]` section: the
//! `containers.conf` modules apart, and all others as one line of arguments.

use vstd::prelude::*;

use crate::text::opt_seq;

use crate::args_ser::{args_text, fields_args, flag_value, flag_values, to_string as args_to_string, valid_flag, with_arg, with_flag, ErrorKind};
use crate::sections::Globals;
use crate::text::{push_char, push_str};
use crate::value::{Field, Value};

verus! {

/// Values of `podman --cgroup-manager`.
#[derive(Debug, Clone, Copy, PartialEq, Eq, Structural)]
pub enum CGroupManager {
    CGroupFs,
    Systemd,
}

/// Values of `podman --events-backend`.
#[derive(Debug, Clone, Copy, PartialEq, Eq, Structural)]
pub enum EventsBackend {
    File,
    Journald,
    /// `none`: no events are stored.
    Disabled,
}

/// Values of `podman --log-level`.
#[derive(Debug, Clone, Copy, PartialEq, Eq, Structural)]
pub enum LogLevel {
    Debug,
    Info,
    Warn,
    Error,
    Fatal,
    Panic,
}

/// Values of `podman --ssh`.
#[derive(Debug, Clone, Copy, PartialEq, Eq, Structural)]
pub enum SshMode {
    GoLang,
    Native,
}

/// Podman global options.
#[derive(Debug, Clone, PartialEq, Eq)]
pub struct GlobalArgs {
    pub cgroup_manager: Option<CGroupManager>,
    pub conmon: Option<String>,
    pub connection: Option<String>,
    pub events_backend: Option<EventsBackend>,
    pub hooks_dir: Vec<String>,
    pub identity: Option<String>,
    pub imagestore: Option<String>,
    pub log_level: LogLevel,
    pub module: Vec<String>,
    pub network_cmd_path: Option<String>,
    pub network_config_dir: Option<String>,
    pub out: Option<String>,
    pub remote: Option<bool>,
    pub root: Option<String>,
    pub runroot: Option<String>,
    pub runtime: Option<String>,
    pub runtime_flag: Vec<String>,
    pub ssh: Option<SshMode>,
    pub storage_driver: Option<String>,
    pub storage_opt: Vec<String>,
    pub syslog: bool,
    pub tmpdir: Option<String>,
    pub transient_store: Option<bool>,
    pub url: Option<String>,
    pub volumepath: Option<String>,
}

/// Every option but the runtime and the storage options is unset, and the log level is `warn`.
pub open spec fn others_unset(g: GlobalArgs) -> bool {
    &&& g.cgroup_manager is None
    &&& g.conmon is None
    &&& g.connection is None
    &&& g.events_backend is None
    &&& g.hooks_dir@.len() == 0
    &&& g.identity is None
    &&& g.imagestore is None
    &&& g.log_level == LogLevel::Warn
    &&& g.module@.len() == 0
    &&& g.network_cmd_path is None
    &&& g.network_config_dir is None
    &&& g.out is None
    &&& g.remote is None
    &&& g.root is None
    &&& g.runroot is None
    &&& g.runtime_flag@.len() == 0
    &&& g.ssh is None
    &&& g.storage_driver is None
    &&& !g.syslog
    &&& g.tmpdir is None
    &&& g.transient_store is None
    &&& g.url is None
    &&& g.volumepath is None
}

/// No option is set, and the log level is `warn`.
pub open spec fn no_options(g: GlobalArgs) -> bool {
    others_unset(g) && g.runtime is None && g.storage_opt@.len() == 0
}

/// A Compose storage option as Podman takes it: `key=value`, or `key=` without a value.
pub open spec fn storage_opt_text(key: Seq<char>, value: Option<Seq<char>>) -> Seq<char> {
    key + seq!['='] + match value {
        Some(v) => v,
        None => Seq::<char>::empty(),
    }
}

/// The name under which a cgroup manager is written.
pub open spec fn cgroup_manager_name(c: CGroupManager) -> Seq<char> {
    match c {
        CGroupManager::CGroupFs => "cgroupfs"@,
        CGroupManager::Systemd => "systemd"@,
    }
}

/// The name under which an events backend is written.
pub open spec fn events_backend_name(e: EventsBackend) -> Seq<char> {
    match e {
        EventsBackend::File => "file"@,
        EventsBackend::Journald => "journald"@,
        EventsBackend::Disabled => "none"@,
    }
}

/// The name under which a log level is written.
pub open spec fn log_level_name(l: LogLevel) -> Seq<char> {
    match l {
        LogLevel::Debug => "debug"@,
        LogLevel::Info => "info"@,
        LogLevel::Warn => "warn"@,
        LogLevel::Error => "error"@,
        LogLevel::Fatal => "fatal"@,
        LogLevel::Panic => "panic"@,
    }
}

/// The name under which an SSH mode is written.
pub open spec fn ssh_mode_name(m: SshMode) -> Seq<char> {
    match m {
        SshMode::GoLang => "golang"@,
        SshMode::Native => "native"@,
    }
}

/// `out`, followed by `--flag text` where the option holds `text`.
pub open spec fn opt_arg(out: Seq<char>, flag: Seq<char>, o: Option<Seq<char>>) -> Seq<char> {
    match o {
        Some(t) => with_arg(out, flag, t),
        None => out,
    }
}

/// `out`, followed by `--flag` or `--flag=false` where the option holds a value.
pub open spec fn opt_bool_arg(out: Seq<char>, flag: Seq<char>, o: Option<bool>) -> Seq<char> {
    match o {
        Some(true) => with_flag(out, flag),
        Some(false) => with_flag(out, flag) + "=false"@,
        None => out,
    }
}

/// `out`, followed by `--flag item` for each item in turn.
pub open spec fn list_args(out: Seq<char>, flag: Seq<char>, items: Seq<String>) -> Seq<char>
    decreases items.len(),
{
    if items.len() == 0 {
        out
    } else {
        with_arg(list_args(out, flag, items.drop_last()), flag, items.last()@)
    }
}

/// The arguments of the global options, in the order of their fields: each option that is set
/// as `--flag value`, the log level only when it is not `warn`, `--syslog` only when on, and the
/// modules never.
pub open spec fn global_args_text(g: GlobalArgs) -> Seq<char> {
    let o = opt_arg(
        Seq::<char>::empty(),
        "cgroup-manager"@,
        match g.cgroup_manager {
            Some(c) => Some(cgroup_manager_name(c)),
            None => None,
        },
    );
    let o = opt_arg(o, "conmon"@, opt_seq(g.conmon));
    let o = opt_arg(o, "connection"@, opt_seq(g.connection));
    let o = opt_arg(
        o,
        "events-backend"@,
        match g.events_backend {
            Some(e) => Some(events_backend_name(e)),
            None => None,
        },
    );
    let o = list_args(o, "hooks-dir"@, g.hooks_dir@);
    let o = opt_arg(o, "identity"@, opt_seq(g.identity));
    let o = opt_arg(o, "imagestore"@, opt_seq(g.imagestore));
    let o = if g.log_level == LogLevel::Warn {
        o
    } else {
        with_arg(o, "log-level"@, log_level_name(g.log_level))
    };
    let o = opt_arg(o, "network-cmd-path"@, opt_seq(g.network_cmd_path));
    let o = opt_arg(o, "network-config-dir"@, opt_seq(g.network_config_dir));
    let o = opt_arg(o, "out"@, opt_seq(g.out));
    let o = opt_bool_arg(o, "remote"@, g.remote);
    let o = opt_arg(o, "root"@, opt_seq(g.root));
    let o = opt_arg(o, "runroot"@, opt_seq(g.runroot));
    let o = opt_arg(o, "runtime"@, opt_seq(g.runtime));
    let o = list_args(o, "runtime-flag"@, g.runtime_flag@);
    let o = opt_arg(
        o,
        "ssh"@,
        match g.ssh {
            Some(m) => Some(ssh_mode_name(m)),
            None => None,
        },
    );
    let o = opt_arg(o, "storage-driver"@, opt_seq(g.storage_driver));
    let o = list_args(o, "storage-opt"@, g.storage_opt@);
    let o = if g.syslog {
        with_flag(o, "syslog"@)
    } else {
        o
    };
    let o = opt_arg(o, "tmpdir"@, opt_seq(g.tmpdir));
    let o = opt_bool_arg(o, "transient-store"@, g.transient_store);
    let o = opt_arg(o, "url"@, opt_seq(g.url));
    opt_arg(o, "volumepath"@, opt_seq(g.volumepath))
}

/// A unit variant named `variant`, as an option's value.
fn some_variant(name: &str, v: &str) -> (r: Value)
    ensures
        forall|out: Seq<char>, flag: Seq<char>|
            #[trigger] flag_value(out, flag, r) == Ok::<Seq<char>, ErrorKind>(
                with_arg(out, flag, v@),
            ),
{
    let inner = Value::UnitVariant { name: name.to_owned(), variant: v.to_owned() };
    assert forall|out: Seq<char>, flag: Seq<char>|
        #[trigger] flag_value(out, flag, Value::OptionSome(Box::new(inner))) == Ok::<
            Seq<char>,
            ErrorKind,
        >(with_arg(out, flag, v@)) by {
        assert(flag_value(out, flag, inner) == Ok::<Seq<char>, ErrorKind>(
            with_arg(out, flag, v@),
        ));
    }
    Value::OptionSome(Box::new(inner))
}

/// `Some(text)` or `None`.
pub(crate) fn optional_text(o: &Option<String>) -> (r: Value)
    ensures
        forall|out: Seq<char>, flag: Seq<char>|
            #[trigger] flag_value(out, flag, r) == Ok::<Seq<char>, ErrorKind>(
                opt_arg(out, flag, opt_seq(*o)),
            ),
{
    match o {
        Some(s) => {
            let inner = Value::Str(s.clone());
            assert forall|out: Seq<char>, flag: Seq<char>|
                #[trigger] flag_value(out, flag, Value::OptionSome(Box::new(inner))) == Ok::<
                    Seq<char>,
                    ErrorKind,
                >(opt_arg(out, flag, opt_seq(*o))) by {
                assert(flag_value(out, flag, inner) == Ok::<Seq<char>, ErrorKind>(
                    with_arg(out, flag, s@),
                ));
            }
            Value::OptionSome(Box::new(inner))
        },
        None => Value::OptionNone,
    }
}

/// `Some(b)` or `None`.
pub(crate) fn optional_bool(o: Option<bool>) -> (r: Value)
    ensures
        forall|out: Seq<char>, flag: Seq<char>|
            #[trigger] flag_value(out, flag, r) == Ok::<Seq<char>, ErrorKind>(
                opt_bool_arg(out, flag, o),
            ),
{
    match o {
        Some(b) => {
            let inner = Value::Bool(b);
            assert forall|out: Seq<char>, flag: Seq<char>|
                #[trigger] flag_value(out, flag, Value::OptionSome(Box::new(inner))) == Ok::<
                    Seq<char>,
                    ErrorKind,
                >(opt_bool_arg(out, flag, o)) by {
                assert(flag_value(out, flag, inner) == Ok::<Seq<char>, ErrorKind>(
                    opt_bool_arg(out, flag, o),
                ));
            }
            Value::OptionSome(Box::new(inner))
        },
        None => Value::OptionNone,
    }
}

/// The string elements `es` repeat the flag, one argument each.
proof fn lemma_string_values(out: Seq<char>, flag: Seq<char>, es: Seq<Value>, items: Seq<String>)
    requires
        es.len() == items.len(),
        forall|i: int|
            0 <= i < items.len() ==> (#[trigger] es[i] matches Value::Str(s) && s@ == items[i]@),
    ensures
        flag_values(out, flag, es) == Ok::<Seq<char>, ErrorKind>(list_args(out, flag, items)),
    decreases es.len(),
{
    if es.len() > 0 {
        lemma_string_values(out, flag, es.drop_last(), items.drop_last());
        let last = es.last();
        assert(es[es.len() - 1] == last);
        if let Value::Str(s) = last {
            assert(flag_value(list_args(out, flag, items.drop_last()), flag, last) == Ok::<
                Seq<char>,
                ErrorKind,
            >(with_arg(list_args(out, flag, items.drop_last()), flag, s@)));
        }
    }
}

/// A sequence of strings.
pub(crate) fn strings(items: &Vec<String>) -> (r: Value)
    ensures
        forall|out: Seq<char>, flag: Seq<char>|
            #[trigger] flag_value(out, flag, r) == Ok::<Seq<char>, ErrorKind>(
                list_args(out, flag, items@),
            ),
{
    let v = crate::quadlet_ser::serialize_display_seq(items);
    proof {
        if let Value::SeqOf(es) = &v {
            assert forall|out: Seq<char>, flag: Seq<char>|
                #[trigger] flag_value(out, flag, v) == Ok::<Seq<char>, ErrorKind>(
                    list_args(out, flag, items@),
                ) by {
                lemma_string_values(out, flag, es@, items@);
            }
        }
    }
    v
}

/// The flags of the global options are non-empty and hold no whitespace.
proof fn lemma_flags_valid_0()
    ensures
        valid_flag("cgroup-manager"@),
        valid_flag("conmon"@),
        valid_flag("connection"@),
        valid_flag("events-backend"@),
        valid_flag("hooks-dir"@),
        valid_flag("identity"@),
{
    reveal_strlit("cgroup-manager");
    reveal_strlit("conmon");
    reveal_strlit("connection");
    reveal_strlit("events-backend");
    reveal_strlit("hooks-dir");
    reveal_strlit("identity");
}

/// The flags of the global options are non-empty and hold no whitespace.
proof fn lemma_flags_valid_1()
    ensures
        valid_flag("imagestore"@),
        valid_flag("log-level"@),
        valid_flag("network-cmd-path"@),
        valid_flag("network-config-dir"@),
        valid_flag("out"@),
        valid_flag("remote"@),
{
    reveal_strlit("imagestore");
    reveal_strlit("log-level");
    reveal_strlit("network-cmd-path");
    reveal_strlit("network-config-dir");
    reveal_strlit("out");
    reveal_strlit("remote");
}

/// The flags of the global options are non-empty and hold no whitespace.
proof fn lemma_flags_valid_2()
    ensures
        valid_flag("root"@),
        valid_flag("runroot"@),
        valid_flag("runtime"@),
        valid_flag("runtime-flag"@),
        valid_flag("ssh"@),
        valid_flag("storage-driver"@),
{
    reveal_strlit("root");
    reveal_strlit("runroot");
    reveal_strlit("runtime");
    reveal_strlit("runtime-flag");
    reveal_strlit("ssh");
    reveal_strlit("storage-driver");
}

/// The flags of the global options are non-empty and hold no whitespace.
proof fn lemma_flags_valid_3()
    ensures
        valid_flag("storage-opt"@),
        valid_flag("syslog"@),
        valid_flag("tmpdir"@),
        valid_flag("transient-store"@),
        valid_flag("url"@),
        valid_flag("volumepath"@),
{
    reveal_strlit("storage-opt");
    reveal_strlit("syslog");
    reveal_strlit("tmpdir");
    reveal_strlit("transient-store");
    reveal_strlit("url");
    reveal_strlit("volumepath");
}

/// Append the field `key` with `value` to fields that serialize to `out`.
pub(crate) fn push_field(fields: &mut Vec<Field>, key: &str, value: Value, Ghost(out): Ghost<Seq<char>>)
    requires
        fields_args(Seq::<char>::empty(), old(fields)@) == Ok::<Seq<char>, ErrorKind>(out),
        valid_flag(key@),
    ensures
        fields_args(Seq::<char>::empty(), final(fields)@) == flag_value(out, key@, value),
{
    let ghost before = fields@;
    fields.push(Field { key: key.to_owned(), value });
    assert(fields@.drop_last() =~= before);
}

impl GlobalArgs {
    /// No global options: the log level `warn` and nothing else.
    pub fn new() -> (g: GlobalArgs)
        ensures
            no_options(g),
            global_args_text(g).len() == 0,
    {
        GlobalArgs {
            cgroup_manager: None,
            conmon: None,
            connection: None,
            events_backend: None,
            hooks_dir: Vec::new(),
            identity: None,
            imagestore: None,
            log_level: LogLevel::Warn,
            module: Vec::new(),
            network_cmd_path: None,
            network_config_dir: None,
            out: None,
            remote: None,
            root: None,
            runroot: None,
            runtime: None,
            runtime_flag: Vec::new(),
            ssh: None,
            storage_driver: None,
            storage_opt: Vec::new(),
            syslog: false,
            tmpdir: None,
            transient_store: None,
            url: None,
            volumepath: None,
        }
    }

    /// The global options that a Compose service gives: its runtime, and its storage options as
    /// `key=value` (`key=` where the value is missing). Both are taken out of the service, which
    /// is left without them.
    pub fn from_compose(
        runtime: &mut Option<String>,
        storage_opt: &mut Vec<(String, Option<String>)>,
    ) -> (g: GlobalArgs)
        ensures
            others_unset(g),
            g.runtime == *old(runtime),
            g.storage_opt@.len() == old(storage_opt)@.len(),
            forall|i: int|
                0 <= i < g.storage_opt@.len() ==> #[trigger] g.storage_opt@[i]@
                    == storage_opt_text(old(storage_opt)@[i].0@, opt_seq(old(storage_opt)@[i].1)),
            final(runtime).is_none(),
            final(storage_opt)@.len() == 0,
    {
        let taken_runtime = runtime.take();
        let mut opts: Vec<String> = Vec::new();
        let mut i: usize = 0;
        while i < storage_opt.len()
            invariant
                i <= storage_opt@.len(),
                opts@.len() == i,
                forall|j: int|
                    0 <= j < i ==> #[trigger] opts@[j]@ == storage_opt_text(
                        storage_opt@[j].0@,
                        opt_seq(storage_opt@[j].1),
                    ),
            decreases storage_opt@.len() - i,
        {
            let (key, value) = &storage_opt[i];
            let mut opt = key.clone();
            push_char(&mut opt, '=');
            match value {
                Some(v) => push_str(&mut opt, v.as_str()),
                None => {},
            }
            assert(opt@ =~= storage_opt_text(key@, opt_seq(*value)));
            opts.push(opt);
            i = i + 1;
        }
        storage_opt.clear();
        let mut g = GlobalArgs::new();
        g.runtime = taken_runtime;
        g.storage_opt = opts;
        g
    }

    /// These options as the serde data model has them, for the arguments serializer: each
    /// option under its flag name, the log level left out at `warn`, `syslog` left out when off,
    /// and the modules left out.
    pub fn to_value(&self) -> (v: Value)
        ensures
            args_text(v) == Ok::<Seq<char>, ErrorKind>(global_args_text(*self)),
    {
        proof {
            lemma_flags_valid_0();
            lemma_flags_valid_1();
            lemma_flags_valid_2();
            lemma_flags_valid_3();
        }
        let mut fields: Vec<Field> = Vec::new();
        let ghost mut o = Seq::<char>::empty();
        let cgroup = match self.cgroup_manager {
            Some(CGroupManager::CGroupFs) => some_variant("CGroupManager", "cgroupfs"),
            Some(CGroupManager::Systemd) => some_variant("CGroupManager", "systemd"),
            None => Value::OptionNone,
        };
        push_field(&mut fields, "cgroup-manager", cgroup, Ghost(o));
        proof {
            o = opt_arg(o, "cgroup-manager"@, match self.cgroup_manager { Some(c) => Some(cgroup_manager_name(c)), None => None });
        }
        push_field(&mut fields, "conmon", optional_text(&self.conmon), Ghost(o));
        proof {
            o = opt_arg(o, "conmon"@, opt_seq(self.conmon));
        }
        push_field(&mut fields, "connection", optional_text(&self.connection), Ghost(o));
        proof {
            o = opt_arg(o, "connection"@, opt_seq(self.connection));
        }
        let events = match self.events_backend {
            Some(EventsBackend::File) => some_variant("EventsBackend", "file"),
            Some(EventsBackend::Journald) => some_variant("EventsBackend", "journald"),
            Some(EventsBackend::Disabled) => some_variant("EventsBackend", "none"),
            None => Value::OptionNone,
        };
        push_field(&mut fields, "events-backend", events, Ghost(o));
        proof {
            o = opt_arg(o, "events-backend"@, match self.events_backend { Some(e) => Some(events_backend_name(e)), None => None });
        }
        push_field(&mut fields, "hooks-dir", strings(&self.hooks_dir), Ghost(o));
        proof {
            o = list_args(o, "hooks-dir"@, self.hooks_dir@);
        }
        push_field(&mut fields, "identity", optional_text(&self.identity), Ghost(o));
        proof {
            o = opt_arg(o, "identity"@, opt_seq(self.identity));
        }
        push_field(&mut fields, "imagestore", optional_text(&self.imagestore), Ghost(o));
        proof {
            o = opt_arg(o, "imagestore"@, opt_seq(self.imagestore));
        }
        if self.log_level != LogLevel::Warn {
            let name = match self.log_level {
                LogLevel::Debug => "debug",
                LogLevel::Info => "info",
                LogLevel::Warn => "warn",
                LogLevel::Error => "error",
                LogLevel::Fatal => "fatal",
                LogLevel::Panic => "panic",
            };
            let level = Value::UnitVariant { name: "LogLevel".to_owned(), variant: name.to_owned() };
            push_field(&mut fields, "log-level", level, Ghost(o));
            proof {
                o = with_arg(o, "log-level"@, log_level_name(self.log_level));
            }
        }
        push_field(&mut fields, "network-cmd-path", optional_text(&self.network_cmd_path), Ghost(o));
        proof {
            o = opt_arg(o, "network-cmd-path"@, opt_seq(self.network_cmd_path));
        }
        push_field(&mut fields, "network-config-dir", optional_text(&self.network_config_dir), Ghost(o));
        proof {
            o = opt_arg(o, "network-config-dir"@, opt_seq(self.network_config_dir));
        }
        push_field(&mut fields, "out", optional_text(&self.out), Ghost(o));
        proof {
            o = opt_arg(o, "out"@, opt_seq(self.out));
        }
        push_field(&mut fields, "remote", optional_bool(self.remote), Ghost(o));
        proof {
            o = opt_bool_arg(o, "remote"@, self.remote);
        }
        push_field(&mut fields, "root", optional_text(&self.root), Ghost(o));
        proof {
            o = opt_arg(o, "root"@, opt_seq(self.root));
        }
        push_field(&mut fields, "runroot", optional_text(&self.runroot), Ghost(o));
        proof {
            o = opt_arg(o, "runroot"@, opt_seq(self.runroot));
        }
        push_field(&mut fields, "runtime", optional_text(&self.runtime), Ghost(o));
        proof {
            o = opt_arg(o, "runtime"@, opt_seq(self.runtime));
        }
        push_field(&mut fields, "runtime-flag", strings(&self.runtime_flag), Ghost(o));
        proof {
            o = list_args(o, "runtime-flag"@, self.runtime_flag@);
        }
        let ssh = match self.ssh {
            Some(SshMode::GoLang) => some_variant("SshMode", "golang"),
            Some(SshMode::Native) => some_variant("SshMode", "native"),
            None => Value::OptionNone,
        };
        push_field(&mut fields, "ssh", ssh, Ghost(o));
        proof {
            o = opt_arg(o, "ssh"@, match self.ssh { Some(m) => Some(ssh_mode_name(m)), None => None });
        }
        push_field(&mut fields, "storage-driver", optional_text(&self.storage_driver), Ghost(o));
        proof {
            o = opt_arg(o, "storage-driver"@, opt_seq(self.storage_driver));
        }
        push_field(&mut fields, "storage-opt", strings(&self.storage_opt), Ghost(o));
        proof {
            o = list_args(o, "storage-opt"@, self.storage_opt@);
        }
        if self.syslog {
            push_field(&mut fields, "syslog", Value::Bool(true), Ghost(o));
            proof {
                o = with_flag(o, "syslog"@);
            }
        }
        push_field(&mut fields, "tmpdir", optional_text(&self.tmpdir), Ghost(o));
        proof {
            o = opt_arg(o, "tmpdir"@, opt_seq(self.tmpdir));
        }
        push_field(&mut fields, "transient-store", optional_bool(self.transient_store), Ghost(o));
        proof {
            o = opt_bool_arg(o, "transient-store"@, self.transient_store);
        }
        push_field(&mut fields, "url", optional_text(&self.url), Ghost(o));
        proof {
            o = opt_arg(o, "url"@, opt_seq(self.url));
        }
        push_field(&mut fields, "volumepath", optional_text(&self.volumepath), Ghost(o));
        proof {
            o = opt_arg(o, "volumepath"@, opt_seq(self.volumepath));
        }
        assert(o == global_args_text(*self));
        Value::Struct { name: "GlobalArgs".to_owned(), fields }
    }

    /// The `[Globals]` section: the modules as `ContainersConfModule=`, and the other options as
    /// the arguments of `GlobalArgs=`, left out when there are none.
    pub fn into_globals(self) -> (g: Globals)
        ensures
            g.containers_conf_module == self.module,
            match g.global_args {
                Some(t) => t@ == global_args_text(self) && t@.len() > 0,
                None => global_args_text(self).len() == 0,
            },
    {
        let v = self.to_value();
        let global_args = match args_to_string(&v) {
            Ok(s) => {
                if s.as_str().is_empty() {
                    None
                } else {
                    Some(s)
                }
            },
            Err(_) => None,
        };
        Globals { containers_conf_module: self.module, global_args }
    }
}

impl Default for GlobalArgs {
    fn default() -> (g: GlobalArgs)
        ensures
            no_options(g),
            global_args_text(g).len() == 0,
    {
        GlobalArgs::new()
    }
}

} // verus!
