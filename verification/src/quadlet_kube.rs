//! The `[Kube]` section of a Quadlet `.kube` file, and how it is made to fit an older Podman.

use vstd::prelude::*;

use crate::text::opt_seq;

use crate::downgrade::{older, push_arg_with, with_arg, DowngradeErr, DowngradeError, PodmanVersion};
use crate::kube::{annotation_text, option_text, AutoUpdate, AutoUpdateView, YamlFile, YamlFileView};
use crate::quadlet_lines::{fields_give, list_lines, opt_line, push_list, push_option, copy_text, section_text};
use crate::quadlet_ser::{header, option_line, option_lines};
use crate::value::Field;

verus! {

/// Options for the `[Kube]` section of a `.kube` Quadlet file.
#[derive(Debug, Clone, PartialEq, Eq)]
pub struct Kube {
    /// Whether containers will be auto-updated.
    pub auto_update: Vec<AutoUpdate>,
    /// Paths of Kubernetes ConfigMap YAML files passed to `podman kube play`.
    pub config_map: Vec<String>,
    /// The log driver Podman uses when running the containers.
    pub log_driver: Option<String>,
    /// Custom networks for the containers.
    pub network: Vec<String>,
    /// Arguments passed directly to the end of `podman kube play`, before the YAML file.
    pub podman_args: Option<String>,
    /// Ports, or ranges of ports, exposed from the containers to the host.
    pub publish_port: Vec<String>,
    /// The user namespace mode of the containers.
    pub user_ns: Option<String>,
    /// The Kubernetes YAML file to use.
    pub yaml: YamlFile,
}

impl Kube {
    /// A `[Kube]` section for `yaml` with no other option set.
    pub fn new(yaml: YamlFile) -> (k: Kube)
        ensures
            k.auto_update@.len() == 0 && k.config_map@.len() == 0 && k.log_driver is None,
            k.network@.len() == 0 && k.podman_args is None && k.publish_port@.len() == 0,
            k.user_ns is None && k.yaml == yaml,
    {
        Kube {
            auto_update: Vec::new(),
            config_map: Vec::new(),
            log_driver: None,
            network: Vec::new(),
            podman_args: None,
            publish_port: Vec::new(),
            user_ns: None,
            yaml,
        }
    }

    /// Add `--flag=arg` to `PodmanArgs=`.
    pub fn push_arg(&mut self, flag: &str, arg: &str)
        ensures
            opt_seq(final(self).podman_args) == Some(
                with_arg(opt_seq(old(self).podman_args), flag@, '=', arg@),
            ),
            final(self).auto_update == old(self).auto_update,
            final(self).config_map == old(self).config_map,
            final(self).log_driver == old(self).log_driver,
            final(self).network == old(self).network,
            final(self).publish_port == old(self).publish_port,
            final(self).user_ns == old(self).user_ns && final(self).yaml == old(self).yaml,
    {
        push_arg_with(&mut self.podman_args, flag, '=', arg);
    }
}

/// Podman's arguments after `--annotation=ANNOTATION` is added for each auto-update in turn.
pub open spec fn annotation_args(args: Option<Seq<char>>, us: Seq<AutoUpdateView>) -> Option<
    Seq<char>,
>
    decreases us.len(),
{
    if us.len() == 0 {
        args
    } else {
        Some(
            with_arg(
                annotation_args(args, us.drop_last()),
                "annotation"@,
                '=',
                annotation_text(us.last()),
            ),
        )
    }
}

/// The auto-updates as views.
pub open spec fn auto_update_views(us: Seq<AutoUpdate>) -> Seq<AutoUpdateView> {
    us.map_values(|u: AutoUpdate| u@)
}

/// A `[Kube]` section made to fit Podman `version`: its auto-updates, its Podman arguments, its
/// log driver, and the error, if any. Before 4.7 the auto-updates become `--annotation`
/// arguments; before 4.6 Podman arguments are an error, and are taken out; before 4.5 a log
/// driver is an error, and is taken out.
pub open spec fn kube_downgraded(k: Kube, version: PodmanVersion) -> (
    Seq<AutoUpdateView>,
    Option<Seq<char>>,
    Option<Seq<char>>,
    Option<DowngradeErr>,
) {
    let args = opt_seq(k.podman_args);
    let log_driver = opt_seq(k.log_driver);
    let (us, args) = if older(version, PodmanVersion { major: 4, minor: 7 }) {
        (Seq::<AutoUpdateView>::empty(), annotation_args(args, auto_update_views(k.auto_update@)))
    } else {
        (auto_update_views(k.auto_update@), args)
    };
    if older(version, PodmanVersion { major: 4, minor: 6 }) && args is Some {
        (
            us,
            None,
            log_driver,
            Some(
                DowngradeErr::Option {
                    quadlet_option: "PodmanArgs"@,
                    value: args->Some_0,
                    supported_version: PodmanVersion { major: 4, minor: 6 },
                },
            ),
        )
    } else if older(version, PodmanVersion { major: 4, minor: 5 }) && log_driver is Some {
        (
            us,
            args,
            None,
            Some(
                DowngradeErr::Option {
                    quadlet_option: "LogDriver"@,
                    value: log_driver->Some_0,
                    supported_version: PodmanVersion { major: 4, minor: 5 },
                },
            ),
        )
    } else {
        (us, args, log_driver, None)
    }
}

impl Kube {
    /// Makes the `[Kube]` section fit Podman `version`; see [`kube_downgraded`]. The other
    /// options stay as they are.
    pub fn downgrade(&mut self, version: PodmanVersion) -> (r: Result<(), DowngradeError>)
        ensures
            !older(version, PodmanVersion { major: 4, minor: 7 }) ==> r is Ok && *final(self)
                == *old(self),
            ({
                let (us, args, log_driver, err) = kube_downgraded(*old(self), version);
                &&& auto_update_views(final(self).auto_update@) == us
                &&& opt_seq(final(self).podman_args) == args
                &&& opt_seq(final(self).log_driver) == log_driver
                &&& match r {
                    Ok(()) => err is None,
                    Err(e) => err == Some(e@),
                }
            }),
            final(self).config_map == old(self).config_map,
            final(self).network == old(self).network,
            final(self).publish_port == old(self).publish_port,
            final(self).user_ns == old(self).user_ns && final(self).yaml == old(self).yaml,
    {
        let ghost start = opt_seq(self.podman_args);
        if version.is_older_than(PodmanVersion::new(4, 7)) {
            let mut us: Vec<AutoUpdate> = Vec::new();
            std::mem::swap(&mut us, &mut self.auto_update);
            let ghost all = auto_update_views(us@);
            let mut i: usize = 0;
            assert(all.subrange(0, 0) =~= Seq::<AutoUpdateView>::empty());
            while i < us.len()
                invariant
                    i <= us@.len(),
                    all == auto_update_views(us@),
                    opt_seq(self.podman_args) == annotation_args(start, all.subrange(0, i as int)),
                    self.auto_update@.len() == 0,
                    self.config_map == old(self).config_map,
                    self.log_driver == old(self).log_driver,
                    self.network == old(self).network,
                    self.publish_port == old(self).publish_port,
                    self.user_ns == old(self).user_ns && self.yaml == old(self).yaml,
                decreases us@.len() - i,
            {
                let ghost pre = all.subrange(0, i + 1);
                assert(pre.drop_last() =~= all.subrange(0, i as int));
                assert(pre.last() == us@[i as int]@);
                let annotation = us[i].to_annotation();
                self.push_arg("annotation", annotation.as_str());
                i = i + 1;
            }
            assert(all.subrange(0, all.len() as int) =~= all);
            assert(auto_update_views(self.auto_update@) =~= Seq::<AutoUpdateView>::empty());
        }
        if version.is_older_than(PodmanVersion::new(4, 6)) {
            if let Some(a) = self.podman_args.take() {
                return Err(
                    DowngradeError::Option {
                        quadlet_option: "PodmanArgs".to_owned(),
                        value: a,
                        supported_version: PodmanVersion::new(4, 6),
                    },
                );
            }
        }
        if version.is_older_than(PodmanVersion::new(4, 5)) {
            if let Some(d) = self.log_driver.take() {
                return Err(
                    DowngradeError::Option {
                        quadlet_option: "LogDriver".to_owned(),
                        value: d,
                        supported_version: PodmanVersion::new(4, 5),
                    },
                );
            }
        }
        Ok(())
    }
}

/// The text of a YAML file: its URL or its path.
pub open spec fn yaml_text(y: YamlFileView) -> Seq<char> {
    match y {
        YamlFileView::Url(u) => u,
        YamlFileView::Path(p) => p,
    }
}

/// The lines of the options of a `[Kube]` section: one for each option that is set (one for
/// each item of a list), in the order of the fields, and the YAML file last.
pub open spec fn kube_lines(k: Kube) -> Seq<char> {
    option_lines("AutoUpdate"@, auto_update_views(k.auto_update@).map_values(|u: AutoUpdateView| option_text(u)))
        + list_lines("ConfigMap"@, k.config_map@) + opt_line("LogDriver"@, k.log_driver)
        + list_lines("Network"@, k.network@) + opt_line("PodmanArgs"@, k.podman_args)
        + list_lines("PublishPort"@, k.publish_port@) + opt_line("UserNS"@, k.user_ns)
        + option_line("Yaml"@, yaml_text(k.yaml@))
}

/// The text of a `[Kube]` section: its header, then its options.
pub open spec fn kube_text(k: Kube) -> Seq<char> {
    header(false, "Kube"@) + kube_lines(k)
}

impl Kube {
    /// The text of the `[Kube]` section.
    pub fn to_string(&self) -> (r: String)
        ensures
            r@ == kube_text(*self),
    {
        let ghost want = auto_update_views(self.auto_update@).map_values(
            |u: AutoUpdateView| option_text(u),
        );
        let mut texts: Vec<String> = Vec::new();
        let mut i: usize = 0;
        while i < self.auto_update.len()
            invariant
                i <= self.auto_update@.len(),
                want == auto_update_views(self.auto_update@).map_values(
                    |u: AutoUpdateView| option_text(u),
                ),
                texts@.map_values(|s: String| s@) == want.subrange(0, i as int),
            decreases self.auto_update@.len() - i,
        {
            let ghost prev = texts@;
            let t = self.auto_update[i].to_string();
            let ghost tv = t@;
            assert(want[i as int] == option_text(self.auto_update@[i as int]@));
            texts.push(t);
            assert(texts@.map_values(|s: String| s@) =~= prev.map_values(|s: String| s@).push(tv));
            assert(want.subrange(0, i + 1) =~= want.subrange(0, i as int).push(want[i as int]));
            i = i + 1;
        }
        assert(want.subrange(0, want.len() as int) =~= want);
        let mut fields: Vec<Field> = Vec::new();
        let ghost mut t = Seq::<char>::empty();
        assert(fields_give(fields@, t));
        push_list(&mut fields, "AutoUpdate", &texts, Ghost(t));
        proof {
            t = t + list_lines("AutoUpdate"@, texts@);
        }
        push_list(&mut fields, "ConfigMap", &self.config_map, Ghost(t));
        proof {
            t = t + list_lines("ConfigMap"@, self.config_map@);
        }
        push_option(&mut fields, "LogDriver", copy_text(&self.log_driver), Ghost(t));
        proof {
            t = t + opt_line("LogDriver"@, self.log_driver);
        }
        push_list(&mut fields, "Network", &self.network, Ghost(t));
        proof {
            t = t + list_lines("Network"@, self.network@);
        }
        push_option(&mut fields, "PodmanArgs", copy_text(&self.podman_args), Ghost(t));
        proof {
            t = t + opt_line("PodmanArgs"@, self.podman_args);
        }
        push_list(&mut fields, "PublishPort", &self.publish_port, Ghost(t));
        proof {
            t = t + list_lines("PublishPort"@, self.publish_port@);
        }
        push_option(&mut fields, "UserNS", copy_text(&self.user_ns), Ghost(t));
        proof {
            t = t + opt_line("UserNS"@, self.user_ns);
        }
        let yaml = self.yaml.to_string();
        let ghost y = yaml;
        push_option(&mut fields, "Yaml", Some(yaml), Ghost(t));
        proof {
            t = t + opt_line("Yaml"@, Some(y));
            assert(t =~= kube_lines(*self));
        }
        section_text("Kube", fields, Ghost(t))
    }
}

/// Downgrading again to the same version changes nothing more: a `[Kube]` section made to fit
/// a version without error already fits it.
pub proof fn kube_downgrade_settles(k: Kube, m: Kube, version: PodmanVersion)
    requires
        ({
            let (us, args, log_driver, err) = kube_downgraded(k, version);
            &&& err is None && auto_update_views(m.auto_update@) == us
            &&& opt_seq(m.podman_args) == args && opt_seq(m.log_driver) == log_driver
        }),
    ensures
        ({
            let (us, args, log_driver, err) = kube_downgraded(m, version);
            &&& err is None && us == auto_update_views(m.auto_update@)
            &&& args == opt_seq(m.podman_args) && log_driver == opt_seq(m.log_driver)
        }),
{
}

} // verus!
