use podlet::container::{BuildPullPolicyError, ComposePullPolicy, PullPolicy};
use podlet::compose_service::{
    Ipc, LongSecret, NamespaceModeError, NetworkConfig, NetworkConfigError, NetworkMode,
    NetworkOptions, ServiceSecret, ShortFormError, TmpfsVolume, Ulimit, Unsupported,
    UnsupportedError, network_config_try_into_network_options, network_options,
    secret_try_into_short, tmpfs_try_into_short, ulimit_try_into_short, validate_ipc,
    validate_network_mode,
};

fn supported() -> Unsupported {
    Unsupported {
        attach: true,
        build: false,
        cpu_count: false,
        cpu_percent: false,
        configs: false,
        credential_spec: false,
        deploy: false,
        develop: false,
        domain_name: false,
        extends: false,
        external_links: false,
        isolation: false,
        links: false,
        profiles: false,
        scale: false,
        volumes_from: false,
        extensions: false,
    }
}

#[test]
fn unsupported_service_options() {
    assert_eq!(supported().ensure_empty(), Ok(()));
    assert_eq!(
        Unsupported { attach: false, build: true, ..supported() }.ensure_empty(),
        Err(UnsupportedError::Option("attach".into()))
    );
    assert_eq!(
        Unsupported { scale: true, extensions: true, ..supported() }.ensure_empty(),
        Err(UnsupportedError::Option("scale".into()))
    );
    assert_eq!(
        Unsupported { extensions: true, ..supported() }.ensure_empty(),
        Err(UnsupportedError::Extensions)
    );
}

#[test]
fn ipc_modes() {
    assert_eq!(validate_ipc(Ipc::Shareable), Ok("shareable".into()));
    assert_eq!(validate_ipc(Ipc::Other("".into())), Ok("".into()));
    assert_eq!(validate_ipc(Ipc::Other("container:db".into())), Ok("container:db".into()));
    assert_eq!(validate_ipc(Ipc::Other("host".into())), Ok("host".into()));
    assert_eq!(validate_ipc(Ipc::Service("db".into())), Err(NamespaceModeError::Service));
    assert_eq!(
        validate_ipc(Ipc::Other("hostile".into())),
        Err(NamespaceModeError::Unsupported("hostile".into()))
    );
}

#[test]
fn network_modes() {
    assert_eq!(validate_network_mode(NetworkMode::Disabled), Ok("none".into()));
    assert_eq!(validate_network_mode(NetworkMode::Host), Ok("host".into()));
    assert_eq!(validate_network_mode(NetworkMode::Other("pasta:-T,80".into())), Ok("pasta:-T,80".into()));
    assert_eq!(validate_network_mode(NetworkMode::Other("private".into())), Ok("private".into()));
    assert_eq!(
        validate_network_mode(NetworkMode::Service("db".into())),
        Err(NamespaceModeError::Service)
    );
    assert_eq!(
        validate_network_mode(NetworkMode::Other("macvlan".into())),
        Err(NamespaceModeError::Unsupported("macvlan".into()))
    );
}

fn tmpfs(target: &str) -> TmpfsVolume {
    TmpfsVolume {
        target: target.into(),
        read_only: false,
        consistency: false,
        extensions: false,
        size: None,
        mode: None,
        options_extensions: false,
    }
}

#[test]
fn tmpfs_short_forms() {
    assert_eq!(tmpfs_try_into_short(tmpfs("/tmp")), Ok("/tmp".into()));
    assert_eq!(
        tmpfs_try_into_short(TmpfsVolume {
            read_only: true,
            size: Some("64m".into()),
            mode: Some(0o1777),
            ..tmpfs("/run")
        }),
        Ok("/run:ro,size=64m,mode=1777".into())
    );
    assert_eq!(
        tmpfs_try_into_short(TmpfsVolume { mode: Some(0o755), ..tmpfs("/run") }),
        Ok("/run:mode=755".into())
    );
    assert_eq!(
        tmpfs_try_into_short(TmpfsVolume { consistency: true, ..tmpfs("/tmp") }),
        Err(ShortFormError::Consistency)
    );
    assert_eq!(
        tmpfs_try_into_short(TmpfsVolume { options_extensions: true, ..tmpfs("/tmp") }),
        Err(ShortFormError::Extensions)
    );
}

#[test]
fn secret_short_forms() {
    assert_eq!(secret_try_into_short(ServiceSecret::Short("token".into())), Ok("token".into()));
    let long = LongSecret {
        source: "token".into(),
        target: Some("/run/secrets/t".into()),
        uid: Some("1000".into()),
        gid: None,
        mode: Some(0o400),
        extensions: false,
    };
    assert_eq!(
        secret_try_into_short(ServiceSecret::Long(long.clone())),
        Ok("token,target=/run/secrets/t,uid=1000,mode=400".into())
    );
    assert_eq!(
        secret_try_into_short(ServiceSecret::Long(LongSecret { extensions: true, ..long })),
        Err(ShortFormError::Extensions)
    );
}

#[test]
fn ulimit_short_forms() {
    assert_eq!(ulimit_try_into_short("nofile", Ulimit::Single(1024)), Ok("nofile=1024".into()));
    assert_eq!(
        ulimit_try_into_short("nproc", Ulimit::Range { soft: 10, hard: 20, extensions: false }),
        Ok("nproc=10:20".into())
    );
    assert_eq!(
        ulimit_try_into_short("nproc", Ulimit::Range { soft: 10, hard: 20, extensions: true }),
        Err(ShortFormError::Extensions)
    );
}

fn options() -> NetworkOptions {
    NetworkOptions {
        aliases: vec![],
        ipv4_address: None,
        ipv6_address: None,
        link_local_ips: false,
        mac_address: None,
        priority: false,
        extensions: false,
    }
}

#[test]
fn network_option_texts() {
    let o = NetworkOptions {
        aliases: vec!["web".into(), "www".into()],
        ipv4_address: Some("10.0.0.2".into()),
        ipv6_address: Some("fd00::2".into()),
        mac_address: Some("aa:bb:cc:dd:ee:ff".into()),
        ..options()
    };
    assert_eq!(
        network_options(o),
        Ok("alias=web,alias=www,ip=10.0.0.2,ip=fd00::2,mac=aa:bb:cc:dd:ee:ff".into())
    );
    assert_eq!(network_options(options()), Ok("".into()));
    assert_eq!(
        network_options(NetworkOptions { priority: true, extensions: true, ..options() }),
        Err(ShortFormError::Priority)
    );
    assert_eq!(
        network_options(NetworkOptions { link_local_ips: true, priority: true, ..options() }),
        Err(ShortFormError::LinkLocalIps)
    );
}

#[test]
fn network_configs() {
    assert_eq!(
        network_config_try_into_network_options(NetworkConfig::Mode(NetworkMode::Host)),
        Ok(vec!["host".to_owned()])
    );
    assert_eq!(
        network_config_try_into_network_options(NetworkConfig::Mode(NetworkMode::Other("x".into()))),
        Err(NetworkConfigError::Mode(NamespaceModeError::Unsupported("x".into())))
    );
    let networks = vec![
        ("front".to_owned(), None),
        ("back".to_owned(), Some(NetworkOptions { aliases: vec!["db".into()], ..options() })),
    ];
    assert_eq!(
        network_config_try_into_network_options(NetworkConfig::Networks(networks)),
        Ok(vec!["front.network".to_owned(), "back.network:alias=db".to_owned()])
    );
    let bad = vec![
        ("front".to_owned(), None),
        ("back".to_owned(), Some(NetworkOptions { priority: true, ..options() })),
    ];
    assert_eq!(
        network_config_try_into_network_options(NetworkConfig::Networks(bad)),
        Err(NetworkConfigError::Network("back".into(), ShortFormError::Priority))
    );
}

#[test]
fn compose_pull_policies() {
    assert_eq!(PullPolicy::try_from_compose(ComposePullPolicy::Always), Ok(PullPolicy::Always));
    assert_eq!(PullPolicy::try_from_compose(ComposePullPolicy::Never), Ok(PullPolicy::Never));
    assert_eq!(PullPolicy::try_from_compose(ComposePullPolicy::Missing), Ok(PullPolicy::Missing));
    assert_eq!(PullPolicy::try_from_compose(ComposePullPolicy::Build), Err(BuildPullPolicyError));
}
