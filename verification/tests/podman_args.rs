use podlet::compose_service::{Ipc, NamespaceModeError};
use podlet::podman_args::{BlkioConfig, BpsLimit, ComposePodmanArgs, IopsLimit, PodmanArgs, WeightDevice};

#[test]
fn default_display_empty() {
    let args = PodmanArgs::default();
    assert!(args.to_string().is_empty());
}

#[test]
fn podman_args_written() {
    let args = PodmanArgs {
        add_host: vec!["db:10.0.0.2".into()],
        cpu_shares: Some(512),
        cpus: Some("1.5".into()),
        http_proxy: false,
        interactive: true,
        oom_score_adj: Some(-100),
        tls_verify: Some(false),
        detach: true,
        rm: true,
        log_opt: vec!["max-size=10m".into(), "tag=a b".into()],
        ..PodmanArgs::default()
    };
    assert_eq!(
        args.to_string(),
        "--add-host db:10.0.0.2 --cpu-shares 512 --cpus 1.5 --http-proxy=false --interactive \
         --log-opt \"max-size=10m\" --log-opt \"tag=a b\" --oom-score-adj -100 --tls-verify=false"
    );
}

fn compose_args() -> ComposePodmanArgs {
    ComposePodmanArgs {
        blkio_config: None,
        cpu_shares: None,
        cpu_period: None,
        cpu_quota: None,
        cpu_rt_runtime: None,
        cpu_rt_period: None,
        cpus: None,
        cpuset: String::new(),
        cgroup: None,
        cgroup_parent: None,
        device_cgroup_rules: Vec::new(),
        extra_hosts: Vec::new(),
        group_add: Vec::new(),
        ipc: None,
        uts: None,
        log_options: Vec::new(),
        mac_address: None,
        mem_limit: None,
        mem_reservation: None,
        mem_swappiness: None,
        oom_kill_disable: false,
        oom_score_adj: None,
        pid: None,
        platform: None,
        privileged: false,
        stdin_open: false,
        stop_signal: None,
        tty: false,
    }
}

#[test]
fn podman_args_from_compose() {
    assert_eq!(PodmanArgs::try_from_compose(compose_args()), Ok(PodmanArgs::default()));
    let args = PodmanArgs::try_from_compose(ComposePodmanArgs {
        blkio_config: Some(BlkioConfig {
            device_read_bps: vec![BpsLimit { path: "/dev/sda".into(), rate: "1mb".into() }],
            device_read_iops: Vec::new(),
            device_write_bps: Vec::new(),
            device_write_iops: vec![IopsLimit { path: "/dev/sdb".into(), rate: 300 }],
            weight: Some(500),
            weight_device: vec![WeightDevice { path: "/dev/sdc".into(), weight: 200 }],
        }),
        cpu_period: Some((1, 500_000)),
        cpuset: "0-3".into(),
        extra_hosts: vec![("db".into(), "10.0.0.2".into())],
        ipc: Some(Ipc::Shareable),
        log_options: vec![("max-size".into(), Some("1m".into())), ("debug".into(), None)],
        stdin_open: true,
        tty: true,
        ..compose_args()
    })
    .unwrap();
    assert_eq!(
        args,
        PodmanArgs {
            device_read_bps: vec!["/dev/sda:1mb".into()],
            device_write_iops: vec!["/dev/sdb:300".into()],
            blkio_weight: Some(500),
            blkio_weight_device: vec!["/dev/sdc:200".into()],
            cpu_period: Some(1_500_000),
            cpuset_cpus: Some("0-3".into()),
            add_host: vec!["db:10.0.0.2".into()],
            ipc: Some("shareable".into()),
            log_opt: vec!["max-size=1m".into(), "debug".into()],
            attach: vec!["stdin".into()],
            tty: true,
            ..PodmanArgs::default()
        }
    );
    assert_eq!(
        args.to_string(),
        "--add-host db:10.0.0.2 --attach stdin --blkio-weight 500 --blkio-weight-device /dev/sdc:200 \
         --cpu-period 1500000 --cpuset-cpus 0-3 --device-read-bps /dev/sda:1mb \
         --device-write-iops /dev/sdb:300 --ipc shareable --log-opt \"max-size=1m\" --log-opt debug --tty"
    );
}

#[test]
fn podman_args_compose_ipc_errors() {
    assert_eq!(
        PodmanArgs::try_from_compose(ComposePodmanArgs { ipc: Some(Ipc::Service("db".into())), ..compose_args() }),
        Err(NamespaceModeError::Service)
    );
    assert_eq!(
        PodmanArgs::try_from_compose(ComposePodmanArgs { ipc: Some(Ipc::Other("bogus".into())), ..compose_args() }),
        Err(NamespaceModeError::Unsupported("bogus".into()))
    );
}
