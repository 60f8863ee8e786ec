use podlet::compose_pod::ServiceCommand;
use podlet::container::ComposePullPolicy;
use podlet::k8s::{PodVolume, VolumeMount};
use podlet::mount_opts::SELinuxRelabel;
use podlet::pod::{
    CommandProbeError, ContainerPort, ContainerSecurityContext, EnvVar, Environment,
    HealthcheckCommand, LongPortError, NamedContainerPort, PodContainerError, Port, Probe,
    Protocol, SecurityContext, Test, Unsupported,
};
use podlet::pod_service::{
    AddServiceError, ComposeMount, ContainerResources, MountCommon, PodMountError, PodSpec,
    ResourceRequirements, Service, ServiceBuild, ServiceContainer, ServiceHealthcheck,
    command_try_into_vec, service_container_name, tmpfs_and_volumes_try_into_volume_mounts,
    try_into_volume_mount,
};

fn common(target: &str) -> MountCommon {
    MountCommon { target: target.into(), read_only: false, consistency: false, extensions: false }
}

fn mount(path: &str, name: &str, read_only: bool) -> VolumeMount {
    VolumeMount { mount_path: path.into(), name: name.into(), read_only }
}

fn pairs(items: &[(&str, &str)]) -> Vec<(String, String)> {
    items.iter().map(|(a, b)| (String::from(*a), String::from(*b))).collect()
}

fn supported() -> Unsupported {
    Unsupported {
        attach: true,
        blkio_config: false,
        cpu_count: false,
        cpu_percent: false,
        cpu_shares: false,
        cpu_period: false,
        cpu_quota: false,
        cpu_rt_runtime: false,
        cpu_rt_period: false,
        cpuset: false,
        cgroup: false,
        cgroup_parent: false,
        configs: false,
        credential_spec: false,
        depends_on: false,
        deploy: false,
        develop: false,
        device_cgroup_rules: false,
        domain_name: false,
        env_file: false,
        expose: false,
        extends: false,
        external_links: false,
        group_add: false,
        uts: false,
        isolation: false,
        links: false,
        logging: false,
        network_mode: false,
        networks: false,
        mac_address: false,
        mem_swappiness: false,
        memswap_limit: false,
        oom_kill_disable: false,
        oom_score_adj: false,
        pids_limit: false,
        platform: false,
        profiles: false,
        runtime: false,
        scale: false,
        secrets: false,
        shm_size: false,
        stop_signal: false,
        storage_opt: false,
        ulimits: false,
        userns_mode: false,
        volumes_from: false,
        dns: false,
        dns_opt: false,
        dns_search: false,
        extra_hosts: false,
        hostname: false,
        init: false,
        ipc: false,
        pid: false,
        restart: false,
        stop_grace_period: false,
        sysctls: false,
        annotations: false,
        labels: false,
        devices: false,
        extensions: false,
    }
}

fn no_security() -> ContainerSecurityContext {
    ContainerSecurityContext {
        cap_add: Vec::new(),
        cap_drop: Vec::new(),
        privileged: false,
        read_only: false,
        security_opt: Vec::new(),
        user: None,
    }
}

fn no_resources() -> ContainerResources {
    ContainerResources { cpus: None, mem_limit: None, mem_reservation: None }
}

fn service(name: &str) -> Service {
    Service {
        unsupported: supported(),
        build: None,
        name: name.into(),
        resources: no_resources(),
        security_context: no_security(),
        command: None,
        entrypoint: None,
        environment: Environment::KvPair(Vec::new()),
        healthcheck: None,
        image: Some("nginx".into()),
        ports: Vec::new(),
        pull_policy: None,
        stdin_open: false,
        tmpfs: Vec::new(),
        tty: false,
        volumes: Vec::new(),
        working_dir: None,
    }
}

fn bare_container(name: &str, image: &str) -> ServiceContainer {
    ServiceContainer {
        name: name.into(),
        resources: None,
        security_context: None,
        args: None,
        command: None,
        env: None,
        liveness_probe: None,
        image: Some(image.into()),
        ports: None,
        image_pull_policy: None,
        stdin: None,
        tty: None,
        volume_mounts: None,
        working_dir: None,
    }
}

#[test]
fn compose_mounts_into_pod_volumes() {
    assert_eq!(
        try_into_volume_mount(
            ComposeMount::Volume { source: Some("data".into()), options: false, common: common("/data") },
            "web",
        ),
        Ok((mount("/data", "data", false), PodVolume::Claim { name: "data".into() }))
    );
    assert_eq!(
        try_into_volume_mount(
            ComposeMount::Volume { source: None, options: false, common: common("/var/cache") },
            "web",
        ),
        Ok((mount("/var/cache", "web-var-cache", false), PodVolume::EmptyDir { name: "web-var-cache".into() }))
    );
    assert_eq!(
        try_into_volume_mount(
            ComposeMount::Bind {
                source: "./conf".into(),
                propagation: false,
                create_host_path: true,
                selinux: Some(SELinuxRelabel::Private),
                extensions: false,
                common: MountCommon { read_only: true, ..common("/etc/app") },
            },
            "web",
        ),
        Ok((
            mount("/etc/app:Z", "web-etc-app", true),
            PodVolume::HostPath { name: "web-etc-app".into(), path: "./conf".into() }
        ))
    );
    assert_eq!(
        try_into_volume_mount(
            ComposeMount::Tmpfs { size: Some("64m".into()), mode: false, extensions: false, common: common("/run") },
            "web",
        ),
        Ok((mount("/run", "web-run", false), PodVolume::Memory { name: "web-run".into(), size_limit: Some("64m".into()) }))
    );
}

#[test]
fn compose_mount_errors() {
    let bind = |propagation: bool, create_host_path: bool, extensions: bool, common: MountCommon| {
        ComposeMount::Bind { source: "/src".into(), propagation, create_host_path, selinux: None, extensions, common }
    };
    assert_eq!(
        try_into_volume_mount(ComposeMount::Volume { source: None, options: true, common: common("/a") }, "c"),
        Err(PodMountError::VolumeOptions)
    );
    assert_eq!(try_into_volume_mount(bind(true, false, true, common("/a")), "c"), Err(PodMountError::BindPropagation));
    assert_eq!(try_into_volume_mount(bind(false, false, true, common("/a")), "c"), Err(PodMountError::CreateHostPath));
    assert_eq!(try_into_volume_mount(bind(false, true, true, common("/a")), "c"), Err(PodMountError::BindExtensions));
    assert_eq!(
        try_into_volume_mount(bind(false, true, false, MountCommon { consistency: true, extensions: true, ..common("/a") }), "c"),
        Err(PodMountError::Consistency)
    );
    assert_eq!(
        try_into_volume_mount(bind(false, true, false, MountCommon { extensions: true, ..common("/a") }), "c"),
        Err(PodMountError::Extensions)
    );
    assert_eq!(
        try_into_volume_mount(ComposeMount::Tmpfs { size: None, mode: true, extensions: true, common: common("/a") }, "c"),
        Err(PodMountError::TmpfsMode)
    );
    assert_eq!(
        try_into_volume_mount(ComposeMount::Tmpfs { size: None, mode: false, extensions: true, common: common("/a") }, "c"),
        Err(PodMountError::TmpfsExtensions)
    );
    assert_eq!(try_into_volume_mount(ComposeMount::NamedPipe, "c"), Err(PodMountError::NamedPipe));
    assert_eq!(try_into_volume_mount(ComposeMount::Cluster, "c"), Err(PodMountError::Cluster));
}

#[test]
fn tmpfs_then_volumes_into_mounts() {
    let mut pod_volumes = Some(vec![PodVolume::Claim { name: "other".into() }]);
    let mounts = tmpfs_and_volumes_try_into_volume_mounts(
        vec!["/tmp".into()],
        vec![ComposeMount::Volume { source: Some("db".into()), options: false, common: common("/db") }],
        "app",
        &mut pod_volumes,
    );
    assert_eq!(mounts, Ok(vec![mount("/tmp", "app-tmp", false), mount("/db", "db", false)]));
    assert_eq!(
        pod_volumes,
        Some(vec![
            PodVolume::Claim { name: "other".into() },
            PodVolume::Memory { name: "app-tmp".into(), size_limit: None },
            PodVolume::Claim { name: "db".into() },
        ])
    );

    let mut none: Option<Vec<PodVolume>> = None;
    assert_eq!(tmpfs_and_volumes_try_into_volume_mounts(Vec::new(), Vec::new(), "app", &mut none), Ok(Vec::new()));
    assert_eq!(none, None);

    let mut partial: Option<Vec<PodVolume>> = None;
    let failed = tmpfs_and_volumes_try_into_volume_mounts(
        vec!["/tmp".into()],
        vec![ComposeMount::Cluster, ComposeMount::Volume { source: None, options: false, common: common("/x") }],
        "app",
        &mut partial,
    );
    assert_eq!(failed, Err(PodMountError::Cluster));
    assert_eq!(partial, Some(vec![PodVolume::Memory { name: "app-tmp".into(), size_limit: None }]));
}

#[test]
fn container_resources() {
    assert_eq!(no_resources().into_resource_requirements(), None);
    assert_eq!(
        ContainerResources { cpus: Some("0.5".into()), mem_limit: Some("1g".into()), mem_reservation: Some("512m".into()) }
            .into_resource_requirements(),
        Some(ResourceRequirements {
            limits: Some(pairs(&[("cpu", "0.5"), ("memory", "1g")])),
            requests: Some(pairs(&[("memory", "512m")])),
        })
    );
    assert_eq!(
        ContainerResources { cpus: None, mem_limit: None, mem_reservation: Some("256m".into()) }.into_resource_requirements(),
        Some(ResourceRequirements { limits: None, requests: Some(pairs(&[("memory", "256m")])) })
    );
}

#[test]
fn command_lines_split_into_words() {
    assert_eq!(
        command_try_into_vec(ServiceCommand::Simple("sh -c 'echo hi' \"x y\"".into())),
        Ok(vec!["sh".into(), "-c".into(), "echo hi".into(), "x y".into()])
    );
    assert_eq!(
        command_try_into_vec(ServiceCommand::Args(vec!["a b".into()])),
        Ok(vec!["a b".into()])
    );
    assert_eq!(
        command_try_into_vec(ServiceCommand::Simple("echo 'open".into())),
        Err("echo 'open".into())
    );
}

#[test]
fn container_names() {
    assert_eq!(service_container_name("web", None), "web");
    assert_eq!(service_container_name("web", Some("front".into())), "front");
}

#[test]
fn service_added_to_pod_spec() {
    let mut spec = PodSpec { containers: vec![bare_container("db", "postgres")], volumes: None };
    let web = Service {
        resources: ContainerResources { cpus: Some("2".into()), mem_limit: None, mem_reservation: None },
        security_context: ContainerSecurityContext { privileged: true, ..no_security() },
        command: Some(ServiceCommand::Simple("nginx -g 'daemon off;'".into())),
        entrypoint: Some(ServiceCommand::Simple("exec \"$@\"".into())),
        environment: Environment::List(vec!["A=1".into(), "B".into()]),
        healthcheck: Some(ServiceHealthcheck::Command(HealthcheckCommand {
            test: Some(Test::Command(vec!["curl".into(), "localhost".into()])),
            interval: Some((10, 0)),
            timeout: None,
            retries: Some(3),
            start_period: None,
            extensions: false,
        })),
        ports: vec![Port {
            name: Some("http".into()),
            target: 80,
            published: None,
            host_ip: None,
            protocol: Some(Protocol::Tcp),
            app_protocol: false,
            mode: false,
            extensions: false,
        }],
        pull_policy: Some(ComposePullPolicy::Missing),
        stdin_open: true,
        tmpfs: vec!["/cache".into()],
        working_dir: Some("/srv".into()),
        ..service("web")
    };
    assert_eq!(web.add_to_pod_spec(&mut spec), Ok(()));
    assert_eq!(spec.volumes, Some(vec![PodVolume::Memory { name: "web-cache".into(), size_limit: None }]));
    assert_eq!(spec.containers.len(), 2);
    assert_eq!(spec.containers[0], bare_container("db", "postgres"));
    assert_eq!(
        spec.containers[1],
        ServiceContainer {
            name: "web".into(),
            resources: Some(ResourceRequirements { limits: Some(pairs(&[("cpu", "2")])), requests: None }),
            security_context: Some(SecurityContext {
                capabilities: None,
                privileged: Some(true),
                read_only_root_filesystem: None,
                se_linux_options: None,
                run_as_user: None,
                run_as_group: None,
            }),
            args: Some(vec!["nginx".into(), "-g".into(), "daemon off;".into()]),
            command: Some(vec!["/bin/sh".into(), "-c".into(), "exec \"$@\"".into()]),
            env: Some(vec![
                EnvVar { name: "A".into(), value: Some("1".into()) },
                EnvVar { name: "B".into(), value: None },
            ]),
            liveness_probe: Some(Probe {
                exec_command: Some(vec!["curl".into(), "localhost".into()]),
                failure_threshold: Some(3),
                initial_delay_seconds: None,
                period_seconds: Some(10),
                timeout_seconds: Some(30),
            }),
            image: Some("nginx".into()),
            ports: Some(vec![NamedContainerPort {
                name: Some("http".into()),
                port: ContainerPort { container_port: 80, host_ip: None, host_port: None, protocol: Some("TCP".into()) },
            }]),
            image_pull_policy: Some("IfNotPreset".into()),
            stdin: Some(true),
            tty: None,
            volume_mounts: Some(vec![mount("/cache", "web-cache", false)]),
            working_dir: Some("/srv".into()),
        }
    );
}

#[test]
fn built_service_uses_its_context_as_image() {
    let mut spec = PodSpec { containers: Vec::new(), volumes: None };
    let built = Service { build: Some(ServiceBuild::Long(Some("./app".into()))), image: None, ..service("app") };
    assert_eq!(built.add_to_pod_spec(&mut spec), Ok(()));
    assert_eq!(spec.containers, vec![bare_container("app", "./app")]);
    let short = Service { build: Some(ServiceBuild::Short("./b".into())), ..service("b") };
    assert_eq!(short.add_to_pod_spec(&mut spec), Ok(()));
    assert_eq!(spec.containers[1], bare_container("b", "./b"));
}

#[test]
fn service_errors_leave_containers() {
    let mut spec = PodSpec { containers: Vec::new(), volumes: None };
    assert_eq!(
        Service { unsupported: Unsupported { labels: true, ..supported() }, tmpfs: vec!["/t".into()], ..service("a") }
            .add_to_pod_spec(&mut spec),
        Err(AddServiceError::Unsupported(PodContainerError::PodMetadata("labels".into())))
    );
    assert_eq!(spec, PodSpec { containers: Vec::new(), volumes: None });
    assert_eq!(
        Service { tmpfs: vec!["/t".into()], volumes: vec![ComposeMount::NamedPipe], ..service("a") }
            .add_to_pod_spec(&mut spec),
        Err(AddServiceError::Volumes(PodMountError::NamedPipe))
    );
    assert_eq!(spec.volumes, Some(vec![PodVolume::Memory { name: "a-t".into(), size_limit: None }]));
    assert!(spec.containers.is_empty());
    assert_eq!(
        Service { image: None, ..service("a") }.add_to_pod_spec(&mut spec),
        Err(AddServiceError::ImageRequired)
    );
    assert_eq!(
        Service { command: Some(ServiceCommand::Simple("a \"b".into())), ..service("a") }.add_to_pod_spec(&mut spec),
        Err(AddServiceError::Command("a \"b".into()))
    );
    assert_eq!(
        Service {
            healthcheck: Some(ServiceHealthcheck::Command(HealthcheckCommand {
                test: None,
                interval: None,
                timeout: None,
                retries: None,
                start_period: None,
                extensions: true,
            })),
            ..service("a")
        }
        .add_to_pod_spec(&mut spec),
        Err(AddServiceError::Healthcheck(CommandProbeError::Extensions))
    );
    assert_eq!(
        Service {
            ports: vec![Port {
                name: None,
                target: 53,
                published: None,
                host_ip: None,
                protocol: None,
                app_protocol: true,
                mode: false,
                extensions: false,
            }],
            ..service("a")
        }
        .add_to_pod_spec(&mut spec),
        Err(AddServiceError::Ports(LongPortError::AppProtocol))
    );
    assert_eq!(
        Service { pull_policy: Some(ComposePullPolicy::Build), ..service("a") }.add_to_pod_spec(&mut spec),
        Err(AddServiceError::PullPolicyBuild)
    );
    assert!(spec.containers.is_empty());
    assert_eq!(
        Service { healthcheck: Some(ServiceHealthcheck::Disable), pull_policy: Some(ComposePullPolicy::Never), ..service("a") }
            .add_to_pod_spec(&mut spec),
        Ok(())
    );
    assert_eq!(
        spec.containers,
        vec![ServiceContainer { image_pull_policy: Some("Never".into()), ..bare_container("a", "nginx") }]
    );
}

#[test]
fn unsupported_option_fails_before_build_context() {
    let mut spec = PodSpec { containers: Vec::new(), volumes: None };
    assert_eq!(
        Service {
            unsupported: Unsupported { labels: true, ..supported() },
            build: Some(ServiceBuild::Long(None)),
            ..service("a")
        }
        .add_to_pod_spec(&mut spec),
        Err(AddServiceError::Unsupported(PodContainerError::PodMetadata("labels".into())))
    );
    assert_eq!(spec, PodSpec { containers: Vec::new(), volumes: None });
}
