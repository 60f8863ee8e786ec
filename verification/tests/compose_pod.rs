use podlet::compose_pod::{
    ClaimError, ComposeVolume, ComposeVolumes, Labels, MountError, MountOptions,
    PersistentVolumeClaim, PodContainer, PodSecurityContext, PodService, PodServiceError,
    ServiceCommand, ServiceError, ServiceOptions, UlimitValue,
    compose_volume_try_into_persistent_volume_claim, compose_volumes_try_into_volume_mounts,
    driver_opts_try_into_annotations, labels_into_pairs, parse_tmpfs_volume_mount,
    service_check_unsupported, service_try_into_container, ulimits_into_resources,
};
use podlet::k8s::{AdvancedVolume, PodVolume, ShortVolumeError, VolumeMount};
use podlet::pod::{ContainerPort, EnvVar, Environment, Healthcheck, HealthcheckTest, Ports, Probe, SELinuxOptions};

fn strings(items: &[&str]) -> Vec<String> {
    items.iter().map(|i| String::from(*i)).collect()
}

fn pairs(items: &[(&str, &str)]) -> Vec<(String, String)> {
    items.iter().map(|(a, b)| (String::from(*a), String::from(*b))).collect()
}

fn options() -> ServiceOptions {
    ServiceOptions {
        hostname: false,
        deploy: false,
        build: false,
        depends_on: false,
        env_file: false,
        profiles: false,
        links: false,
        net: false,
        stop_signal: false,
        expose: false,
        volumes_from: false,
        extends: false,
        scale: false,
        init: false,
        shm_size: false,
        sysctls: false,
        pid: false,
        network_mode: false,
        restart: false,
        labels: false,
        networks: false,
        stop_grace_period: false,
        dns: false,
        ipc: false,
        logging: false,
        extra_hosts: false,
        devices: false,
        extensions: false,
    }
}

fn mount(path: &str, name: &str, read_only: bool) -> VolumeMount {
    VolumeMount { mount_path: path.into(), name: name.into(), read_only }
}

#[test]
fn service_options_checked() {
    assert_eq!(service_check_unsupported(&options()), Ok(()));
    assert_eq!(
        service_check_unsupported(&ServiceOptions { init: true, dns: true, ..options() }),
        Err(ServiceError::Unsupported("init".into()))
    );
    assert_eq!(
        service_check_unsupported(&ServiceOptions { dns: true, devices: true, ..options() }),
        Err(ServiceError::PodOption("dns".into()))
    );
    assert_eq!(
        service_check_unsupported(&ServiceOptions { devices: true, extensions: true, ..options() }),
        Err(ServiceError::Devices)
    );
    assert_eq!(
        service_check_unsupported(&ServiceOptions { extensions: true, ..options() }),
        Err(ServiceError::Extensions)
    );
}

#[test]
fn tmpfs_and_volume_mounts() {
    assert_eq!(
        parse_tmpfs_volume_mount("/run/x", "web"),
        (mount("/run/x", "web-run-x", false), PodVolume::Memory { name: "web-run-x".into(), size_limit: None })
    );
    assert_eq!(
        compose_volumes_try_into_volume_mounts(ComposeVolumes::Simple(strings(&["/a", "db:/b:ro"])), "web"),
        Ok(vec![
            (mount("/a", "web-a", false), PodVolume::EmptyDir { name: "web-a".into() }),
            (mount("/b", "db", true), PodVolume::Claim { name: "db".into() }),
        ])
    );
    assert_eq!(
        compose_volumes_try_into_volume_mounts(ComposeVolumes::Simple(strings(&["/a", "a:b:c:d"])), "web"),
        Err(MountError::Short(ShortVolumeError::TooManyColons))
    );
    let tmpfs = AdvancedVolume {
        source: None,
        target: "/t".into(),
        kind: "tmpfs".into(),
        read_only: false,
        bind: false,
        volume: false,
        tmpfs_size: Some(10),
    };
    assert_eq!(
        compose_volumes_try_into_volume_mounts(ComposeVolumes::Advanced(vec![tmpfs]), "web"),
        Ok(vec![(mount("/t", "web-t", false), PodVolume::Memory { name: "web-t".into(), size_limit: Some("10".into()) })])
    );
}

#[test]
fn ulimit_resources() {
    assert_eq!(ulimits_into_resources(vec![]), None);
    assert_eq!(
        ulimits_into_resources(vec![
            ("nofile".into(), UlimitValue::SoftHard { soft: 10, hard: 20 }),
            ("nproc".into(), UlimitValue::Single(5)),
        ]),
        Some(pairs(&[("nofile", "20"), ("nproc", "5")]))
    );
}

fn service() -> PodService {
    PodService {
        options: options(),
        container_name: None,
        healthcheck: None,
        cap_add: vec![],
        security_opt: vec![],
        privileged: false,
        user: None,
        ports: Ports::Short(vec![]),
        environment: Environment::List(vec![]),
        tmpfs: vec![],
        volumes: ComposeVolumes::Simple(vec![]),
        command: None,
        entrypoint: None,
        image: Some("nginx".into()),
        working_dir: None,
        stdin_open: false,
        tty: false,
        ulimits: vec![],
    }
}

fn container(name: &str) -> PodContainer {
    PodContainer {
        name: name.into(),
        image: Some("nginx".into()),
        command: None,
        args: None,
        liveness_probe: None,
        security_context: None,
        ports: None,
        env: None,
        resource_limits: None,
        working_dir: None,
        stdin: None,
        tty: None,
        volume_mounts: None,
    }
}

#[test]
fn services_into_containers() {
    assert_eq!(service_try_into_container("web".into(), service()), Ok((container("web"), vec![])));
    let full = PodService {
        container_name: Some("front".into()),
        healthcheck: Some(Healthcheck {
            test: Some(HealthcheckTest::Multiple(strings(&["CMD", "true"]))),
            interval: None,
            timeout: None,
            retries: 2,
            start_period: None,
            disable: false,
        }),
        cap_add: strings(&["NET_ADMIN"]),
        security_opt: strings(&["label:type:t"]),
        user: Some("1000".into()),
        ports: Ports::Short(strings(&["8080:80"])),
        environment: Environment::List(strings(&["A=1"])),
        tmpfs: strings(&["/tmp"]),
        volumes: ComposeVolumes::Simple(strings(&["db:/data"])),
        command: Some(ServiceCommand::Simple("serve".into())),
        entrypoint: Some(ServiceCommand::Args(strings(&["/bin/app", "-v"]))),
        tty: true,
        ulimits: vec![("nofile".into(), UlimitValue::Single(64))],
        ..service()
    };
    assert_eq!(
        service_try_into_container("web".into(), full),
        Ok((
            PodContainer {
                command: Some(strings(&["/bin/app", "-v"])),
                args: Some(strings(&["serve"])),
                liveness_probe: Some(Probe {
                    exec_command: Some(strings(&["true"])),
                    failure_threshold: Some(2),
                    initial_delay_seconds: None,
                    period_seconds: None,
                    timeout_seconds: None,
                }),
                security_context: Some(PodSecurityContext {
                    privileged: None,
                    capabilities_add: Some(strings(&["NET_ADMIN"])),
                    se_linux_options: Some(SELinuxOptions {
                        user: None,
                        role: None,
                        type_: Some("t".into()),
                        level: None,
                    }),
                    run_as_user: Some(1000),
                }),
                ports: Some(vec![ContainerPort { container_port: 80, host_ip: None, host_port: Some(8080), protocol: None }]),
                env: Some(vec![EnvVar { name: "A".into(), value: Some("1".into()) }]),
                resource_limits: Some(pairs(&[("nofile", "64")])),
                tty: Some(true),
                volume_mounts: Some(vec![mount("/tmp", "front-tmp", false), mount("/data", "db", false)]),
                ..container("front")
            },
            vec![
                PodVolume::Memory { name: "front-tmp".into(), size_limit: None },
                PodVolume::Claim { name: "db".into() },
            ],
        ))
    );
    assert_eq!(
        service_try_into_container("web".into(), PodService { user: Some("www".into()), ..service() }),
        Err(PodServiceError::User("www".into()))
    );
    assert_eq!(
        service_try_into_container(
            "web".into(),
            PodService { options: ServiceOptions { hostname: true, ..options() }, ..service() }
        ),
        Err(PodServiceError::Options(ServiceError::Unsupported("hostname".into())))
    );
    let disabled = Healthcheck {
        test: Some(HealthcheckTest::Single("x".into())),
        interval: None,
        timeout: None,
        retries: 0,
        start_period: None,
        disable: true,
    };
    assert_eq!(
        service_try_into_container("web".into(), PodService { healthcheck: Some(disabled), ..service() }),
        Ok((container("web"), vec![]))
    );
}

#[test]
fn mount_options_annotations() {
    let m = MountOptions::from_text("uid=1,addr=x,gid=2,ro,uid=3");
    assert_eq!(m, MountOptions { uid: Some("3".into()), gid: Some("2".into()), options: Some("addr=x,ro".into()) });
    assert_eq!(
        m.into_annotations(),
        pairs(&[
            ("volume.podman.io/uid", "3"),
            ("volume.podman.io/gid", "2"),
            ("volume.podman.io/mount-options", "addr=x,ro"),
        ])
    );
    assert_eq!(
        driver_opts_try_into_annotations(vec![
            ("type".into(), Some("nfs".into())),
            ("device".into(), None),
            ("o".into(), Some("uid=5".into())),
        ]),
        Ok(pairs(&[
            ("volume.podman.io/type", "nfs"),
            ("volume.podman.io/device", ""),
            ("volume.podman.io/uid", "5"),
        ]))
    );
    assert_eq!(
        driver_opts_try_into_annotations(vec![("size".into(), Some("1".into()))]),
        Err("size".into())
    );
    assert_eq!(
        labels_into_pairs(Labels::List(strings(&["a=1", "b"]))),
        pairs(&[("a", "1"), ("b", "")])
    );
}

#[test]
fn volume_claims() {
    let v = ComposeVolume {
        external: false,
        driver: Some("local".into()),
        driver_opts: vec![("type".into(), Some("tmpfs".into()))],
        labels: Labels::Pairs(pairs(&[("team", "web")])),
    };
    assert_eq!(
        compose_volume_try_into_persistent_volume_claim(v.clone(), "data".into()),
        Ok(PersistentVolumeClaim {
            name: "data".into(),
            annotations: Some(pairs(&[("volume.podman.io/driver", "local"), ("volume.podman.io/type", "tmpfs")])),
            labels: Some(pairs(&[("team", "web")])),
        })
    );
    assert_eq!(
        compose_volume_try_into_persistent_volume_claim(
            ComposeVolume { driver: None, driver_opts: vec![], labels: Labels::List(vec![]), ..v.clone() },
            "data".into()
        ),
        Ok(PersistentVolumeClaim { name: "data".into(), annotations: None, labels: None })
    );
    assert_eq!(
        compose_volume_try_into_persistent_volume_claim(ComposeVolume { external: true, ..v.clone() }, "data".into()),
        Err(ClaimError::External)
    );
    assert_eq!(
        compose_volume_try_into_persistent_volume_claim(
            ComposeVolume { driver_opts: vec![("bogus".into(), None)], ..v },
            "data".into()
        ),
        Err(ClaimError::DriverOpt("bogus".into()))
    );
}
