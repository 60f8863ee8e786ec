use podlet::compose_pod::ServiceCommand;
use podlet::compose_service::{
    NamespaceModeError, NetworkConfig, NetworkConfigError, NetworkMode, ServiceSecret,
    ShortFormError, TmpfsVolume, Ulimit,
};
use podlet::compose_volume::{BindOptions, ServiceVolume, ShortVolume, VolumeConvertError};
use podlet::container::{BuildPullPolicyError, ComposePullPolicy, PullPolicy};
use podlet::device::Device;
use podlet::pod::Test;
use podlet::pod_service::MountCommon;
use podlet::quadlet_options::{
    ComposeDevice, ComposeHealthcheck, ComposeQuadlet, DnsEntry, EnvFile, HealthOptions,
    HealthcheckError, Notify, PidsLimit, QuadletOptions, QuadletOptionsError,
};
use podlet::volume::Volume;

fn compose() -> ComposeQuadlet {
    ComposeQuadlet {
        cap_add: Vec::new(),
        cap_drop: Vec::new(),
        container_name: None,
        devices: Vec::new(),
        dns: Vec::new(),
        dns_opt: Vec::new(),
        dns_search: Vec::new(),
        entrypoint: None,
        env_file: Vec::new(),
        environment: Vec::new(),
        expose: Vec::new(),
        annotations: Vec::new(),
        group_add: Vec::new(),
        healthcheck: ComposeHealthcheck::Command {
            test: None,
            interval: None,
            timeout: None,
            retries: None,
            start_period: None,
            start_interval: None,
            extensions: false,
        },
        hostname: None,
        init: false,
        labels: Vec::new(),
        log_driver: None,
        network_config: None,
        pids_limit: None,
        ports: Vec::new(),
        pull_policy: None,
        read_only: false,
        secrets: Vec::new(),
        shm_size: None,
        stop_grace_period: None,
        sysctls: Vec::new(),
        tmpfs: Vec::new(),
        ulimits: Vec::new(),
        user: None,
        userns_mode: None,
        volumes: Vec::new(),
        working_dir: None,
    }
}

fn common(target: &str) -> MountCommon {
    MountCommon { target: target.into(), read_only: false, consistency: false, extensions: false }
}

#[test]
fn empty_service_gives_default_options() {
    let options = QuadletOptions::try_from_compose(compose()).unwrap();
    assert_eq!(options, QuadletOptions::default());
    assert_eq!(options.sdnotify, Notify::Conmon);
    assert!(options.read_only_tmpfs);
}

#[test]
fn healthchecks_become_options() {
    let h = HealthOptions::try_from_compose(ComposeHealthcheck::Command {
        test: Some(Test::Command(vec!["CMD".into(), "curl \"x\"".into()])),
        interval: Some("30s".into()),
        timeout: None,
        retries: Some(3),
        start_period: Some("1m".into()),
        start_interval: None,
        extensions: false,
    })
    .unwrap();
    assert_eq!(h.health_cmd.as_deref(), Some(r#"["CMD","curl \"x\""]"#));
    assert_eq!(h.health_interval.as_deref(), Some("30s"));
    assert_eq!(h.health_retries, Some(3));
    assert_eq!(h.health_start_period.as_deref(), Some("1m"));
    let disabled = HealthOptions::try_from_compose(ComposeHealthcheck::Disable).unwrap();
    assert_eq!(disabled.health_cmd.as_deref(), Some("none"));
    assert_eq!(disabled.health_interval, None);
    let shell = HealthOptions::try_from_compose(ComposeHealthcheck::Command {
        test: Some(Test::ShellCommand("curl -f localhost".into())),
        interval: None,
        timeout: None,
        retries: None,
        start_period: None,
        start_interval: None,
        extensions: false,
    })
    .unwrap();
    assert_eq!(shell.health_cmd.as_deref(), Some("curl -f localhost"));
    assert_eq!(
        HealthOptions::try_from_compose(ComposeHealthcheck::Command {
            test: None,
            interval: None,
            timeout: None,
            retries: None,
            start_period: None,
            start_interval: None,
            extensions: true,
        }),
        Err(HealthcheckError::Extensions)
    );
}

#[test]
fn service_options_converted() {
    let q = ComposeQuadlet {
        cap_add: vec!["NET_ADMIN".into()],
        container_name: Some("web".into()),
        devices: vec![ComposeDevice {
            host_path: "/dev/fuse".into(),
            container_path: "/dev/fuse".into(),
            read: true,
            write: true,
            mknod: false,
        }],
        dns: vec!["1.1.1.1".into()],
        entrypoint: Some(ServiceCommand::Args(vec!["/init".into(), "--serve".into()])),
        env_file: vec![EnvFile { path: ".env".into(), required: true }],
        environment: vec!["A=1".into()],
        network_config: Some(NetworkConfig::Mode(NetworkMode::Host)),
        pids_limit: Some(PidsLimit::Unlimited),
        ports: vec![Some("8080:80".into())],
        pull_policy: Some(ComposePullPolicy::Always),
        secrets: vec![ServiceSecret::Short("token".into())],
        stop_grace_period: Some((20, 0)),
        tmpfs: vec!["/run".into()],
        ulimits: vec![("nofile".into(), Ulimit::Range { soft: 1024, hard: 2048, extensions: false })],
        volumes: vec![
            ServiceVolume::Short(ShortVolume { container_path: "/data".into(), options: None }),
            ServiceVolume::Tmpfs(TmpfsVolume {
                target: "/cache".into(),
                read_only: false,
                consistency: false,
                extensions: false,
                size: Some("64m".into()),
                mode: None,
                options_extensions: false,
            }),
            ServiceVolume::Bind {
                source: "./conf".into(),
                options: BindOptions { propagation: None, create_host_path: false, selinux: None, extensions: false },
                common: MountCommon { read_only: true, ..common("/etc/conf") },
            },
        ],
        working_dir: Some("/srv".into()),
        ..compose()
    };
    let o = QuadletOptions::try_from_compose(q).unwrap();
    assert_eq!(o.cap_add, ["NET_ADMIN"]);
    assert_eq!(o.name.as_deref(), Some("web"));
    assert_eq!(
        o.device,
        vec![Device { host: "/dev/fuse".into(), container: Some("/dev/fuse".into()), read: true, write: true, mknod: false }]
    );
    assert_eq!(o.dns, vec![DnsEntry::IpAddr("1.1.1.1".into())]);
    assert_eq!(o.entrypoint.as_deref(), Some(r#"["/init","--serve"]"#));
    assert_eq!(o.env_file, [".env"]);
    assert_eq!(o.env, ["A=1"]);
    assert_eq!(o.network, ["host"]);
    assert_eq!(o.pids_limit, Some(PidsLimit::Unlimited));
    assert_eq!(o.publish, ["8080:80"]);
    assert_eq!(o.pull, Some(PullPolicy::Always));
    assert_eq!(o.secret, ["token"]);
    assert_eq!(o.stop_timeout, Some(20));
    assert_eq!(o.tmpfs, ["/run", "/cache:size=64m"]);
    assert_eq!(o.ulimit, ["nofile=1024:2048"]);
    assert_eq!(o.volume.len(), 2);
    assert_eq!(o.volume[0], Volume::parse("/data").unwrap());
    assert_eq!(o.volume[1], Volume::parse("./conf:/etc/conf:ro").unwrap());
    assert_eq!(o.workdir.as_deref(), Some("/srv"));
}

#[test]
fn service_option_errors() {
    assert_eq!(
        QuadletOptions::try_from_compose(ComposeQuadlet {
            healthcheck: ComposeHealthcheck::Command {
                test: None,
                interval: None,
                timeout: None,
                retries: None,
                start_period: None,
                start_interval: None,
                extensions: true,
            },
            volumes: vec![ServiceVolume::Cluster],
            ..compose()
        }),
        Err(QuadletOptionsError::Healthcheck(HealthcheckError::Extensions))
    );
    assert_eq!(
        QuadletOptions::try_from_compose(ComposeQuadlet { volumes: vec![ServiceVolume::NamedPipe], ..compose() }),
        Err(QuadletOptionsError::Volumes(VolumeConvertError::NamedPipe))
    );
    assert_eq!(
        QuadletOptions::try_from_compose(ComposeQuadlet {
            env_file: vec![EnvFile { path: "a".into(), required: true }, EnvFile { path: "b".into(), required: false }],
            ..compose()
        }),
        Err(QuadletOptionsError::OptionalEnvFile)
    );
    assert_eq!(
        QuadletOptions::try_from_compose(ComposeQuadlet {
            network_config: Some(NetworkConfig::Mode(NetworkMode::Service("db".into()))),
            ..compose()
        }),
        Err(QuadletOptionsError::Network(NetworkConfigError::Mode(NamespaceModeError::Service)))
    );
    assert_eq!(
        QuadletOptions::try_from_compose(ComposeQuadlet { ports: vec![Some("80".into()), None], ..compose() }),
        Err(QuadletOptionsError::Port)
    );
    assert_eq!(
        QuadletOptions::try_from_compose(ComposeQuadlet { pull_policy: Some(ComposePullPolicy::Build), ..compose() }),
        Err(QuadletOptionsError::PullPolicy(BuildPullPolicyError))
    );
    assert_eq!(
        QuadletOptions::try_from_compose(ComposeQuadlet {
            ulimits: vec![("nproc".into(), Ulimit::Range { soft: 1, hard: 2, extensions: true })],
            ..compose()
        }),
        Err(QuadletOptionsError::Ulimit(ShortFormError::Extensions))
    );
}
