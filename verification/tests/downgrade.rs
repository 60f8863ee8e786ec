use podlet::artifact::Artifact;
use podlet::auto_update::AutoUpdate;
use podlet::container::PullPolicy;
use podlet::downgrade::{DowngradeError, PodmanVersion};
use podlet::kube::{YamlFile, parse_yaml_file};
use podlet::quadlet_container::{Container, Dns, container_from_options};
use podlet::quadlet_image::Image;
use podlet::quadlet_network::Network;
use podlet::quadlet_options::{DnsEntry, HealthOptions, ComposeHealthcheck, QuadletOptions};
use podlet::pod::Test;
use podlet::quadlet_volume::Volume;
use podlet::sections::Globals;
use podlet::kube::AutoUpdate as KubeAutoUpdate;
use podlet::quadlet_kube::Kube;
use podlet::quadlet_pod::Pod;
use podlet::quadlet_options::{Notify, PidsLimit};

fn v(major: u16, minor: u16) -> PodmanVersion {
    PodmanVersion::new(major, minor)
}

#[test]
fn network_downgrades() {
    let mut n = Network { dns: vec!["1.1.1.1".into(), "8.8.8.8".into()], ..Network::default() };
    assert_eq!(n.clone().downgrade(v(4, 7)), Ok(()));
    assert_eq!(n.downgrade(v(4, 6)), Ok(()));
    assert!(n.dns.is_empty());
    assert_eq!(n.podman_args.as_deref(), Some("--dns 1.1.1.1 --dns 8.8.8.8"));
    let mut old = Network { dns: vec!["1.1.1.1".into()], ..Network::default() };
    assert_eq!(
        old.downgrade(v(4, 5)),
        Err(DowngradeError::Option {
            quadlet_option: "PodmanArgs".into(),
            value: "--dns 1.1.1.1".into(),
            supported_version: v(4, 6),
        })
    );
    assert_eq!(old.podman_args, None);
}

#[test]
fn volume_downgrades() {
    let mut vol = Volume { driver: Some("image".into()), image: Some("quay.io/a".into()), ..Volume::default() };
    assert_eq!(vol.downgrade(v(4, 7)), Ok(()));
    assert_eq!(vol.driver, None);
    assert_eq!(vol.image, None);
    assert_eq!(vol.podman_args.as_deref(), Some("--driver image --opt image=quay.io/a"));
    let mut kept = Volume { driver: Some("local".into()), ..Volume::default() };
    assert_eq!(kept.downgrade(v(4, 8)), Ok(()));
    assert_eq!(kept.driver.as_deref(), Some("local"));
}

#[test]
fn globals_downgrade() {
    let mut g = Globals { containers_conf_module: vec!["/a.conf".into()], global_args: Some("--log-level debug".into()) };
    assert_eq!(g.clone().downgrade(v(4, 8)), Ok(()));
    assert_eq!(
        g.downgrade(v(4, 7)),
        Err(DowngradeError::Option {
            quadlet_option: "ContainersConfModule".into(),
            value: "/a.conf".into(),
            supported_version: v(4, 8),
        })
    );
    assert!(g.containers_conf_module.is_empty());
    assert_eq!(
        g.downgrade(v(4, 7)),
        Err(DowngradeError::Option {
            quadlet_option: "GlobalArgs".into(),
            value: "--log-level debug".into(),
            supported_version: v(4, 8),
        })
    );
    assert_eq!(g.downgrade(v(4, 7)), Ok(()));
}

#[test]
fn image_and_artifact_downgrade() {
    let mut img = Image { retry: Some(3), retry_delay: Some("2s".into()), ..Image::new("quay.io/a".into()) };
    assert_eq!(img.downgrade(v(5, 4)), Ok(()));
    assert_eq!(img.podman_args.as_deref(), Some("--retry 3 --retry-delay 2s"));
    let mut early = Image { retry: Some(3), ..Image::new("a".into()) };
    assert_eq!(
        early.downgrade(v(4, 9)),
        Err(DowngradeError::Option { quadlet_option: "Retry".into(), value: "3".into(), supported_version: v(5, 0) })
    );
    let mut policy = Image { policy: Some(PullPolicy::Always), ..Image::new("a".into()) };
    assert_eq!(
        policy.downgrade(v(5, 5)),
        Err(DowngradeError::Option { quadlet_option: "Policy".into(), value: "always".into(), supported_version: v(5, 6) })
    );
    assert_eq!(
        Image::new("a".into()).downgrade(v(4, 7)),
        Err(DowngradeError::Kind { kind: "image".into(), supported_version: v(4, 8) })
    );
    let art = Artifact {
        artifact: "quay.io/x".into(),
        auth_file: None,
        cert_dir: None,
        creds: None,
        decryption_key: None,
        podman_args: None,
        quiet: false,
        retry: None,
        retry_delay: None,
        tls_verify: None,
    };
    assert_eq!(art.clone().downgrade(v(5, 7)), Ok(()));
    assert_eq!(
        art.clone().downgrade(v(5, 6)),
        Err(DowngradeError::Kind { kind: "artifact".into(), supported_version: v(5, 7) })
    );
}

#[test]
fn auto_update_labels_extracted() {
    let mut labels = vec![
        "a=b".to_string(),
        "io.containers.autoupdate=registry".to_string(),
        "io.containers.autoupdate=bogus".to_string(),
        "io.containers.autoupdate=local".to_string(),
    ];
    assert_eq!(AutoUpdate::extract_from_labels(&mut labels), Some(AutoUpdate::Local));
    assert_eq!(labels, ["a=b", "io.containers.autoupdate=bogus"]);
}

#[test]
fn container_from_podman_options() {
    let options = QuadletOptions {
        user: Some("1000:100".into()),
        label: vec!["io.containers.autoupdate=registry".into(), "x=y".into()],
        dns: vec![DnsEntry::IpAddr("9.9.9.9".into())],
        cap_add: vec!["NET_ADMIN".into()],
        init: true,
        ..QuadletOptions::default()
    };
    let c = container_from_options(options);
    assert_eq!(c.user.as_deref(), Some("1000"));
    assert_eq!(c.group.as_deref(), Some("100"));
    assert_eq!(c.auto_update, Some(AutoUpdate::Registry));
    assert_eq!(c.label, ["x=y"]);
    assert_eq!(c.dns, Dns::Custom(vec!["9.9.9.9".into()]));
    assert_eq!(c.add_capability, ["NET_ADMIN"]);
    assert!(c.run_init);
    let none = container_from_options(QuadletOptions {
        dns: vec![DnsEntry::IpAddr("1.1.1.1".into()), DnsEntry::Disabled],
        user: Some("app".into()),
        ..QuadletOptions::default()
    });
    assert_eq!(none.dns, Dns::Disabled);
    assert_eq!(none.user.as_deref(), Some("app"));
    assert_eq!(none.group, None);
    assert_eq!(container_from_options(QuadletOptions::default()), Container::default());
}

#[test]
fn yaml_files_parsed() {
    assert_eq!(parse_yaml_file("https://example.com/test.yaml"), YamlFile::Url("https://example.com/test.yaml".into()));
    assert_eq!(parse_yaml_file("test.yaml"), YamlFile::Path("test.yaml".into()));
    assert_eq!(parse_yaml_file("test.yaml").to_string(), "test.yaml");
}

#[test]
fn json_strings_escaped() {
    let h = HealthOptions::try_from_compose(ComposeHealthcheck::Command {
        test: Some(Test::Command(vec!["a\tb".into(), "\u{1}\\".into()])),
        interval: None,
        timeout: None,
        retries: None,
        start_period: None,
        start_interval: None,
        extensions: false,
    })
    .unwrap();
    assert_eq!(h.health_cmd.as_deref(), Some(r#"["a\tb","\u0001\\"]"#));
}

#[test]
fn kube_downgrades() {
    let mut k = Kube::new(YamlFile::Path("k.yaml".into()));
    k.auto_update = vec![KubeAutoUpdate::All(AutoUpdate::Registry)];
    k.log_driver = Some("journald".into());
    assert_eq!(k.clone().downgrade(v(4, 7)), Ok(()));
    let mut annotated = k.clone();
    assert_eq!(annotated.downgrade(v(4, 6)), Ok(()));
    assert!(annotated.auto_update.is_empty());
    assert_eq!(annotated.podman_args.as_deref(), Some("--annotation=io.containers.autoupdate=registry"));
    assert_eq!(annotated.log_driver.as_deref(), Some("journald"));
    assert_eq!(
        k.clone().downgrade(v(4, 5)),
        Err(DowngradeError::Option {
            quadlet_option: "PodmanArgs".into(),
            value: "--annotation=io.containers.autoupdate=registry".into(),
            supported_version: v(4, 6),
        })
    );
    let mut logged = Kube::new(YamlFile::Path("k.yaml".into()));
    logged.log_driver = Some("journald".into());
    assert_eq!(
        logged.downgrade(v(4, 4)),
        Err(DowngradeError::Option {
            quadlet_option: "LogDriver".into(),
            value: "journald".into(),
            supported_version: v(4, 5),
        })
    );
    assert_eq!(logged.log_driver, None);
}

#[test]
fn pod_downgrades() {
    let mut p = Pod::new();
    p.add_host = vec!["db:10.0.0.2".into()];
    p.dns = Dns::Disabled;
    p.dns_search = vec!["my domain".into()];
    p.network_alias = vec!["web".into()];
    assert_eq!(p.downgrade(v(5, 1)), Ok(()));
    assert_eq!(
        p.podman_args.as_deref(),
        Some("--add-host db:10.0.0.2 --dns none --dns-search \"my domain\" --network-alias web")
    );
    assert!(p.add_host.is_empty() && p.dns_search.is_empty() && p.network_alias.is_empty());
    assert_eq!(p.dns, Dns::Custom(Vec::new()));

    let mut current = Pod { network_alias: vec!["web".into()], ..Pod::new() };
    assert_eq!(current.downgrade(v(5, 3)), Ok(()));
    assert_eq!(current.podman_args, None);
    assert_eq!(current.network_alias, vec!["web".to_owned()]);

    let mut old = Pod::new();
    assert_eq!(
        old.downgrade(v(4, 9)),
        Err(DowngradeError::Kind { kind: "pod".into(), supported_version: v(5, 0) })
    );
}

#[test]
fn container_downgrades() {
    let mut c = Container::new();
    c.entrypoint = Some("/bin/sh".into());
    c.stop_timeout = Some(20);
    c.read_only_tmpfs = false;
    c.dns = Dns::Disabled;
    c.pids_limit = Some(PidsLimit::Unlimited);
    c.auto_update = Some(AutoUpdate::Registry);
    c.security_label_nested = true;
    c.mask = vec!["/proc/a".into(), "/my path".into()];
    c.pull = Some(PullPolicy::Never);
    c.health_startup_retries = Some(3);
    c.user_ns = Some("keep-id".into());
    assert_eq!(c.downgrade(v(4, 4)), Ok(()));
    assert_eq!(
        c.podman_args.as_deref(),
        Some(
            "--entrypoint /bin/sh --stop-timeout 20 --read-only-tmpfs=false --dns none \
             --pids-limit -1 --security-opt label=nested --security-opt mask=/proc/a:\"/my path\" \
             --pull never --health-startup-retries 3 --userns keep-id"
        )
    );
    assert_eq!(c.label, vec!["io.containers.autoupdate=registry".to_owned()]);
    assert!(c.read_only_tmpfs && c.mask.is_empty() && !c.security_label_nested);
    assert_eq!(c.entrypoint, None);
    assert_eq!(c.user_ns, None);
    assert_eq!(c.dns, Dns::Custom(Vec::new()));

    let mut healthy = Container::new();
    healthy.entrypoint = Some("/bin/sh".into());
    healthy.notify = Notify::Healthy;
    assert_eq!(healthy.clone().downgrade(v(5, 0)), Ok(()));
    let mut notified = healthy.clone();
    assert_eq!(notified.downgrade(v(4, 8)), Ok(()));
    assert_eq!(notified.notify, Notify::Conmon);
    assert_eq!(notified.podman_args.as_deref(), Some("--entrypoint /bin/sh --sdnotify healthy"));
    assert_eq!(
        healthy.downgrade(v(4, 6)),
        Err(DowngradeError::Option {
            quadlet_option: "Notify".into(),
            value: "healthy".into(),
            supported_version: v(4, 7),
        })
    );
    assert_eq!(healthy.podman_args.as_deref(), Some("--entrypoint /bin/sh"));
    assert_eq!(healthy.notify, Notify::Healthy);
}

#[test]
fn downgrade_settles() {
    let mut c = Container::new();
    c.entrypoint = Some("/bin/sh".into());
    c.user_ns = Some("keep-id".into());
    c.dns = Dns::Disabled;
    c.mask = vec!["/a".into()];
    assert_eq!(c.downgrade(v(4, 4)), Ok(()));
    let once = c.clone();
    assert_eq!(c.downgrade(v(4, 4)), Ok(()));
    assert_eq!(c, once);

    let mut p = Pod { add_host: vec!["h:1.2.3.4".into()], network_alias: vec!["a".into()], ..Pod::new() };
    assert_eq!(p.downgrade(v(5, 1)), Ok(()));
    let once = p.clone();
    assert_eq!(p.downgrade(v(5, 1)), Ok(()));
    assert_eq!(p, once);

    let mut k = Kube::new(YamlFile::Path("k.yaml".into()));
    k.auto_update = vec![KubeAutoUpdate::All(AutoUpdate::Local)];
    assert_eq!(k.downgrade(v(4, 6)), Ok(()));
    let once = k.clone();
    assert_eq!(k.downgrade(v(4, 6)), Ok(()));
    assert_eq!(k, once);

    let mut n = Network { dns: vec!["9.9.9.9".into()], ..Network::default() };
    assert_eq!(n.downgrade(v(4, 6)), Ok(()));
    let once = n.clone();
    assert_eq!(n.downgrade(v(4, 6)), Ok(()));
    assert_eq!(n, once);
}

#[test]
fn newest_version_changes_nothing() {
    let mut c = Container::new();
    c.entrypoint = Some("/bin/sh".into());
    c.notify = Notify::Healthy;
    let before = c.clone();
    assert_eq!(c.downgrade(v(5, 0)), Ok(()));
    assert_eq!(c, before);

    let mut p = Pod { add_host: vec!["h:1.2.3.4".into()], ..Pod::new() };
    let before = p.clone();
    assert_eq!(p.downgrade(v(5, 3)), Ok(()));
    assert_eq!(p, before);
}
