use podlet::pod::{CommandProbeError, HealthcheckCommand, Test, healthcheck_command_try_into_probe};
use podlet::pod::{
    LongPort, LongPortError, NamedContainerPort, Port, Ports, PortsError, Protocol,
    PublishedPort, PublishedRange, port_try_into_container_port, ports_try_into_container_ports,
};
use podlet::pod::{EnvVar, Environment, environment_into_env_vars};
use podlet::pod::{
    Capabilities, ContainerPort, ContainerSecurityContext, Healthcheck, HealthcheckTest, IdOrName,
    PodContainerError, PodSecurityOptError, PortError, Probe, ProbeError, SELinuxOptions,
    SecondsError, SecurityContext, SecurityContextError, Unsupported, User,
    healthcheck_is_disable, healthcheck_try_into_probe, parse_container_port_from_short,
    parse_seconds, seconds_of, security_opts_try_into_se_linux_options,
};
use podlet::security_opt::ParseSecurityOptError;

fn strings(items: &[&str]) -> Vec<String> {
    items.iter().map(|i| String::from(*i)).collect()
}

fn no_selinux() -> SELinuxOptions {
    SELinuxOptions { user: None, role: None, type_: None, level: None }
}

#[test]
fn selinux_from_security_opts() {
    let opts = strings(&["label:user:u", "no-new-privileges:false", "label:type:t", "label:level:s0"]);
    assert_eq!(
        security_opts_try_into_se_linux_options(opts),
        Ok(SELinuxOptions {
            user: Some("u".into()),
            role: None,
            type_: Some("t".into()),
            level: Some("s0".into()),
        })
    );
    assert_eq!(security_opts_try_into_se_linux_options(vec![]), Ok(no_selinux()));
    assert_eq!(
        security_opts_try_into_se_linux_options(strings(&["no-new-privileges:true"])),
        Err(PodSecurityOptError::Unsupported("no-new-privileges".into()))
    );
    assert_eq!(
        security_opts_try_into_se_linux_options(strings(&["label:role:r", "seccomp:unconfined"])),
        Err(PodSecurityOptError::Unsupported("seccomp".into()))
    );
    assert_eq!(
        security_opts_try_into_se_linux_options(strings(&["label:disable"])),
        Err(PodSecurityOptError::Unsupported("label:disable".into()))
    );
    assert_eq!(
        security_opts_try_into_se_linux_options(strings(&["bogus"])),
        Err(PodSecurityOptError::Parse(ParseSecurityOptError::InvalidSecurityOpt("bogus".into())))
    );
}

#[test]
fn container_ports_from_short() {
    let port = |container_port, host_ip: Option<&str>, host_port, protocol: Option<&str>| ContainerPort {
        container_port,
        host_ip: host_ip.map(String::from),
        host_port,
        protocol: protocol.map(String::from),
    };
    assert_eq!(parse_container_port_from_short("80"), Ok(port(80, None, None, None)));
    assert_eq!(parse_container_port_from_short("8080:80"), Ok(port(80, None, Some(8080), None)));
    assert_eq!(
        parse_container_port_from_short("127.0.0.1:8080:80/udp"),
        Ok(port(80, Some("127.0.0.1"), Some(8080), Some("udp")))
    );
    assert_eq!(
        parse_container_port_from_short("x:80"),
        Err(PortError::HostPort("x".into()))
    );
    assert_eq!(
        parse_container_port_from_short("8080:http"),
        Err(PortError::ContainerPort("http".into()))
    );
    assert_eq!(parse_container_port_from_short("-5"), Ok(port(-5, None, None, None)));
    assert_eq!(
        parse_container_port_from_short("3000000000"),
        Err(PortError::ContainerPort("3000000000".into()))
    );
}

#[test]
fn seconds_of_durations() {
    assert_eq!(seconds_of("1m30s", Some((90, 0))), Ok(90));
    assert_eq!(seconds_of("x", None), Err(SecondsError::Invalid("x".into())));
    assert_eq!(seconds_of("big", Some((3_000_000_000, 5))), Err(SecondsError::TooLarge(3_000_000_000)));
    assert_eq!(parse_seconds("90"), Ok(90));
    assert_eq!(parse_seconds("2m"), Ok(120));
    assert_eq!(parse_seconds(""), Err(SecondsError::Invalid("".into())));
    assert_eq!(parse_seconds("soon"), Err(SecondsError::Invalid("soon".into())));
}

fn healthcheck(test: Option<HealthcheckTest>) -> Healthcheck {
    Healthcheck { test, interval: None, timeout: None, retries: 0, start_period: None, disable: false }
}

#[test]
fn healthchecks() {
    assert!(!healthcheck_is_disable(&healthcheck(None)));
    assert!(healthcheck_is_disable(&Healthcheck { disable: true, ..healthcheck(None) }));
    assert!(healthcheck_is_disable(&healthcheck(Some(HealthcheckTest::Multiple(strings(&["NONE"]))))));
    assert!(!healthcheck_is_disable(&healthcheck(Some(HealthcheckTest::Single("NONE".into())))));

    let h = Healthcheck {
        interval: Some("30s".into()),
        timeout: Some("1m".into()),
        retries: 3,
        start_period: Some("5s".into()),
        ..healthcheck(Some(HealthcheckTest::Multiple(strings(&["CMD", "curl", "-f", "localhost"]))))
    };
    assert_eq!(
        healthcheck_try_into_probe(h),
        Ok(Probe {
            exec_command: Some(strings(&["curl", "-f", "localhost"])),
            failure_threshold: Some(3),
            initial_delay_seconds: Some(5),
            period_seconds: Some(30),
            timeout_seconds: Some(60),
        })
    );
    assert_eq!(
        healthcheck_try_into_probe(healthcheck(Some(HealthcheckTest::Single("curl".into())))),
        Err(ProbeError::Shell)
    );
    assert_eq!(
        healthcheck_try_into_probe(healthcheck(Some(HealthcheckTest::Multiple(strings(&["CMD-SHELL", "x"]))))),
        Err(ProbeError::Shell)
    );
    assert_eq!(
        healthcheck_try_into_probe(Healthcheck { timeout: Some("never".into()), ..healthcheck(None) }),
        Err(ProbeError::Timeout(SecondsError::Invalid("never".into())))
    );
    assert_eq!(
        healthcheck_try_into_probe(Healthcheck { retries: u64::MAX, ..healthcheck(None) }),
        Err(ProbeError::Retries(u64::MAX))
    );
    assert_eq!(
        healthcheck_try_into_probe(healthcheck(None)),
        Ok(Probe {
            exec_command: None,
            failure_threshold: None,
            initial_delay_seconds: None,
            period_seconds: None,
            timeout_seconds: None,
        })
    );
}

fn security_context() -> ContainerSecurityContext {
    ContainerSecurityContext {
        cap_add: vec![],
        cap_drop: vec![],
        privileged: false,
        read_only: false,
        security_opt: vec![],
        user: None,
    }
}

#[test]
fn security_contexts() {
    assert_eq!(security_context().try_into_security_context(), Ok(None));
    let c = ContainerSecurityContext {
        cap_add: strings(&["NET_ADMIN"]),
        read_only: true,
        security_opt: strings(&["label:level:s0"]),
        user: Some(User { user: IdOrName::Id(1000), group: Some(IdOrName::Id(100)) }),
        ..security_context()
    };
    assert_eq!(
        c.try_into_security_context(),
        Ok(Some(SecurityContext {
            capabilities: Some(Capabilities { add: Some(strings(&["NET_ADMIN"])), drop: None }),
            privileged: None,
            read_only_root_filesystem: Some(true),
            se_linux_options: Some(SELinuxOptions { level: Some("s0".into()), ..no_selinux() }),
            run_as_user: Some(1000),
            run_as_group: Some(100),
        }))
    );
    let named = ContainerSecurityContext {
        user: Some(User { user: IdOrName::Name("web".into()), group: None }),
        ..security_context()
    };
    assert_eq!(named.try_into_security_context(), Err(SecurityContextError::UserName));
    let group = ContainerSecurityContext {
        user: Some(User { user: IdOrName::Id(1), group: Some(IdOrName::Name("g".into())) }),
        ..security_context()
    };
    assert_eq!(group.try_into_security_context(), Err(SecurityContextError::GroupName));
    let opt = ContainerSecurityContext {
        privileged: true,
        security_opt: strings(&["apparmor:unconfined"]),
        ..security_context()
    };
    assert_eq!(
        opt.try_into_security_context(),
        Err(SecurityContextError::SecurityOpt(PodSecurityOptError::Unsupported("apparmor".into())))
    );
}

fn supported() -> Unsupported {
    Unsupported {
        attach: true,
        blkio_config: false,
        cpu_count: false,
        cpu_percent: false,
        cpu_shares: false,
        cpu_period: false,
        cpu_quota: false,
        cpu_rt_runtime: false,
        cpu_rt_period: false,
        cpuset: false,
        cgroup: false,
        cgroup_parent: false,
        configs: false,
        credential_spec: false,
        depends_on: false,
        deploy: false,
        develop: false,
        device_cgroup_rules: false,
        domain_name: false,
        env_file: false,
        expose: false,
        extends: false,
        external_links: false,
        group_add: false,
        uts: false,
        isolation: false,
        links: false,
        logging: false,
        network_mode: false,
        networks: false,
        mac_address: false,
        mem_swappiness: false,
        memswap_limit: false,
        oom_kill_disable: false,
        oom_score_adj: false,
        pids_limit: false,
        platform: false,
        profiles: false,
        runtime: false,
        scale: false,
        secrets: false,
        shm_size: false,
        stop_signal: false,
        storage_opt: false,
        ulimits: false,
        userns_mode: false,
        volumes_from: false,
        dns: false,
        dns_opt: false,
        dns_search: false,
        extra_hosts: false,
        hostname: false,
        init: false,
        ipc: false,
        pid: false,
        restart: false,
        stop_grace_period: false,
        sysctls: false,
        annotations: false,
        labels: false,
        devices: false,
        extensions: false,
    }
}

#[test]
fn pod_container_options() {
    assert_eq!(supported().ensure_empty(), Ok(()));
    assert_eq!(
        Unsupported { attach: false, ..supported() }.ensure_empty(),
        Err(PodContainerError::Unsupported("attach".into()))
    );
    assert_eq!(
        Unsupported { domain_name: true, secrets: true, ..supported() }.ensure_empty(),
        Err(PodContainerError::Unsupported("domainname".into()))
    );
    assert_eq!(
        Unsupported { hostname: true, labels: true, devices: true, ..supported() }.ensure_empty(),
        Err(PodContainerError::PodSpec("hostname".into()))
    );
    assert_eq!(
        Unsupported { labels: true, devices: true, ..supported() }.ensure_empty(),
        Err(PodContainerError::PodMetadata("labels".into()))
    );
    assert_eq!(
        Unsupported { devices: true, extensions: true, ..supported() }.ensure_empty(),
        Err(PodContainerError::Devices)
    );
    assert_eq!(
        Unsupported { extensions: true, ..supported() }.ensure_empty(),
        Err(PodContainerError::Extensions)
    );
}

#[test]
fn healthcheck_commands() {
    let command = HealthcheckCommand {
        test: Some(Test::ShellCommand("curl -f localhost".into())),
        interval: Some((10, 600_000)),
        timeout: None,
        retries: Some(3),
        start_period: Some((0, 0)),
        extensions: false,
    };
    assert_eq!(
        healthcheck_command_try_into_probe(command.clone()),
        Ok(Probe {
            exec_command: Some(strings(&["/bin/sh", "-c", "curl -f localhost"])),
            failure_threshold: Some(3),
            initial_delay_seconds: Some(1),
            period_seconds: Some(11),
            timeout_seconds: Some(30),
        })
    );
    assert_eq!(
        healthcheck_command_try_into_probe(HealthcheckCommand { extensions: true, ..command.clone() }),
        Err(CommandProbeError::Extensions)
    );
    assert_eq!(
        healthcheck_command_try_into_probe(HealthcheckCommand { timeout: Some((1 << 40, 0)), ..command.clone() }),
        Err(CommandProbeError::Timeout(1 << 40))
    );
    assert_eq!(
        healthcheck_command_try_into_probe(HealthcheckCommand {
            test: Some(Test::Command(strings(&["true"]))),
            timeout: Some((2, 0)),
            retries: None,
            ..command
        }),
        Ok(Probe {
            exec_command: Some(strings(&["true"])),
            failure_threshold: None,
            initial_delay_seconds: Some(1),
            period_seconds: Some(11),
            timeout_seconds: Some(2),
        })
    );
}

#[test]
fn long_ports() {
    let port = Port {
        name: Some("web".into()),
        target: 80,
        published: Some(PublishedRange { start: 8080, size: 1 }),
        host_ip: None,
        protocol: Some(Protocol::Other("sctp".into())),
        app_protocol: false,
        mode: false,
        extensions: false,
    };
    assert_eq!(
        port_try_into_container_port(port.clone()),
        Ok(NamedContainerPort {
            name: Some("web".into()),
            port: ContainerPort {
                container_port: 80,
                host_ip: None,
                host_port: Some(8080),
                protocol: Some("SCTP".into()),
            },
        })
    );
    assert_eq!(
        port_try_into_container_port(Port { protocol: Some(Protocol::Other("quic".into())), ..port.clone() }),
        Err(LongPortError::Protocol("QUIC".into()))
    );
    assert_eq!(
        port_try_into_container_port(Port { published: Some(PublishedRange { start: 1, size: 3 }), ..port.clone() }),
        Err(LongPortError::PublishedRange)
    );
    assert_eq!(
        port_try_into_container_port(Port { mode: true, ..port.clone() }),
        Err(LongPortError::Mode)
    );
    assert_eq!(
        port_try_into_container_port(Port { protocol: Some(Protocol::Udp), published: None, ..port }),
        Ok(NamedContainerPort {
            name: Some("web".into()),
            port: ContainerPort { container_port: 80, host_ip: None, host_port: None, protocol: Some("UDP".into()) },
        })
    );

    assert_eq!(
        ports_try_into_container_ports(Ports::Short(strings(&["80", "8443:443/tcp"]))),
        Ok(vec![
            ContainerPort { container_port: 80, host_ip: None, host_port: None, protocol: None },
            ContainerPort { container_port: 443, host_ip: None, host_port: Some(8443), protocol: Some("tcp".into()) },
        ])
    );
    assert_eq!(
        ports_try_into_container_ports(Ports::Short(strings(&["80", "x"]))),
        Err(PortsError::Short(PortError::ContainerPort("x".into())))
    );
    let long = LongPort {
        target: 53,
        host_ip: Some("127.0.0.1".into()),
        published: Some(PublishedPort::Single(5353)),
        protocol: Some("udp".into()),
        mode: false,
    };
    assert_eq!(
        ports_try_into_container_ports(Ports::Long(vec![long.clone()])),
        Ok(vec![ContainerPort {
            container_port: 53,
            host_ip: Some("127.0.0.1".into()),
            host_port: Some(5353),
            protocol: Some("udp".into()),
        }])
    );
    assert_eq!(
        ports_try_into_container_ports(Ports::Long(vec![
            long.clone(),
            LongPort { published: Some(PublishedPort::Range("1-2".into())), ..long.clone() },
        ])),
        Err(PortsError::PublishedRange)
    );
    assert_eq!(
        ports_try_into_container_ports(Ports::Long(vec![LongPort { mode: true, ..long }])),
        Err(PortsError::Mode)
    );
}

#[test]
fn environments() {
    let var = |name: &str, value: Option<&str>| EnvVar { name: name.into(), value: value.map(String::from) };
    assert_eq!(
        environment_into_env_vars(Environment::List(strings(&["A=1", "B", "C=x=y", "D="]))),
        vec![var("A", Some("1")), var("B", None), var("C", Some("x=y")), var("D", Some(""))]
    );
    assert_eq!(
        environment_into_env_vars(Environment::KvPair(vec![("A".into(), None), ("B".into(), Some("2".into()))])),
        vec![var("A", None), var("B", Some("2"))]
    );
}
