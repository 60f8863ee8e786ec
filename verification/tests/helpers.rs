use podlet::k8s::{AdvancedVolume, AdvancedVolumeError, MountSource, advanced_volume_try_into_volume_mount};
use podlet::compose::ComposeOptions;
use podlet::k8s::{
    DriverOptError, DriverOptValue, PodVolume, ShortVolumeError, VolumeAnnotations, VolumeMount,
    duration_round_seconds,
    filter_container_create_command, parse_short_volume, parse_target_and_read_only, volume_name,
};
use podlet::paths::{absolute_clean_path, resolve_path};
use podlet::quadlet_ser::JoinOption;
use podlet::skip::{skip_default, skip_true};
use podlet::unit_file::{UnitFile, find_conflict, str_contains};
use podlet::volume_opt::{DriverOptions, Mount, Opt, ParseOptError};

fn strings(items: &[&str]) -> Vec<String> {
    items.iter().map(|i| String::from(*i)).collect()
}

#[test]
fn target_and_read_only() {
    assert_eq!(parse_target_and_read_only("/t", "ro,z,rw,U"), (String::from("/t:z,U"), true));
    assert_eq!(parse_target_and_read_only("/t", "rw"), (String::from("/t"), false));
}

#[test]
fn volume_names() {
    assert_eq!(volume_name("web", "/var/lib\\x"), "web-var-lib-x");
}

#[test]
fn durations_round() {
    assert_eq!(duration_round_seconds(0, 0), 1);
    assert_eq!(duration_round_seconds(2, 499_999), 2);
    assert_eq!(duration_round_seconds(2, 500_000), 3);
}

#[test]
fn volume_annotations() {
    let a = VolumeAnnotations {
        driver: None,
        device: Some(String::from("/dev/sda")),
        fs_type: None,
        uid: Some(1000),
        gid: None,
        mount_options: None,
        import_source: None,
        image: Some(String::from("img")),
    };
    assert_eq!(
        a.into_annotations(),
        vec![
            (String::from("volume.podman.io/device"), String::from("/dev/sda")),
            (String::from("volume.podman.io/uid"), String::from("1000")),
            (String::from("volume.podman.io/image"), String::from("img")),
        ]
    );
}

#[test]
fn create_command_filter() {
    let cmd = strings(&["podman", "container", "create", "--name", "x", "run", "img"]);
    assert_eq!(filter_container_create_command(&cmd), strings(&["--name", "x", "run", "img"]));
    let cmd = strings(&["/usr/bin/podman", "run", "img"]);
    assert_eq!(filter_container_create_command(&cmd), strings(&["img"]));
    assert!(filter_container_create_command(&Vec::new()).is_empty());
}

#[test]
fn paths_resolve() {
    assert_eq!(resolve_path("/home/u", "data"), "/home/u/data");
    assert_eq!(resolve_path("/home/u/", "data"), "/home/u/data");
    assert_eq!(resolve_path("/home/u", "%h/x"), "%h/x");
    assert_eq!(absolute_clean_path("/home/u", "./a/../b"), "/home/u/b");
    assert_eq!(absolute_clean_path("/x", "/y//z/."), "/y/z");
}

#[test]
fn skips() {
    assert!(skip_true(true));
    assert!(!skip_true(false));
    assert!(skip_default(&0u32));
    assert!(!skip_default(&7u32));
    assert!(skip_default(&false));
    assert!(!skip_default(&true));
    assert!(skip_default(&String::new()));
    assert!(!skip_default(&String::from("a")));
    assert!(skip_default(&Option::<u8>::None));
}

#[test]
fn unit_file_conflicts() {
    let units = vec![
        UnitFile::from_pair((String::from("web.service"), String::from("generated"))),
        UnitFile::from_pair((String::from("db.service"), String::from("enabled"))),
    ];
    let files = vec![(String::from("web"), String::from("web.service"))];
    assert_eq!(find_conflict(&units, &files, false), Some((0, 0)));
    assert_eq!(find_conflict(&units, &files, true), None);
    assert!(str_contains("abc", "bc"));
    assert!(!str_contains("abc", "cb"));
    assert!(str_contains("abc", ""));
}

#[test]
fn volume_driver_options() {
    assert_eq!(Opt::parse_str("copy"), Ok(Opt::Copy));
    assert_eq!(
        Opt::parse_str("copy=yes"),
        Err(ParseOptError::InvalidVolumeDriverOption(String::from("copy=yes")))
    );
    assert_eq!(
        Opt::parse_str("bogus"),
        Err(ParseOptError::InvalidVolumeDriverOption(String::from("bogus")))
    );
    let o = Opt::parse_str("o=uid=1,size=2,gid=3,nodev").unwrap();
    assert_eq!(
        o,
        Opt::Mount(vec![
            Mount::Uid(String::from("1")),
            Mount::Other(String::from("size=2")),
            Mount::Gid(String::from("3")),
            Mount::Other(String::from("nodev")),
        ])
    );
    let d = DriverOptions::from_opts(&vec![Opt::Type(String::from("tmpfs")), o, Opt::Copy]);
    assert_eq!(d.fs_type.as_deref(), Some("tmpfs"));
    assert_eq!(d.user.as_deref(), Some("1"));
    assert_eq!(d.group.as_deref(), Some("3"));
    assert_eq!(d.options.as_deref(), Some("size=2,nodev"));
    assert!(d.copy);
}

#[test]
fn compose_join_options() {
    let mut options = ComposeOptions::default();
    assert_eq!(options.join_options().len(), JoinOption::all_set().len());
    options.split_options = vec![JoinOption::After, JoinOption::After];
    let joined = options.join_options();
    assert!(!joined.contains(&JoinOption::After));
    assert!(joined.contains(&JoinOption::Before));
    assert_eq!(joined.len(), JoinOption::all_set().len() - 1);
}

#[test]
fn short_volumes() {
    let mount = |path: &str, name: &str, read_only: bool| VolumeMount {
        mount_path: path.into(),
        name: name.into(),
        read_only,
    };
    assert_eq!(
        parse_short_volume("/data", "web"),
        Ok((mount("/data", "web-data", false), PodVolume::EmptyDir { name: "web-data".into() }))
    );
    assert_eq!(
        parse_short_volume("./host:/data", "web"),
        Ok((
            mount("/data", "web-data", false),
            PodVolume::HostPath { name: "web-data".into(), path: "./host".into() }
        ))
    );
    assert_eq!(
        parse_short_volume("db:/var/lib/db", "web"),
        Ok((mount("/var/lib/db", "db", false), PodVolume::Claim { name: "db".into() }))
    );
    assert_eq!(
        parse_short_volume("/data:ro", "web"),
        Ok((mount("/data", "web-data", true), PodVolume::EmptyDir { name: "web-data".into() }))
    );
    assert_eq!(
        parse_short_volume("~/host:/data:ro,z", "web"),
        Ok((
            mount("/data:z", "web-data", true),
            PodVolume::HostPath { name: "web-data".into(), path: "~/host".into() }
        ))
    );
    assert_eq!(
        parse_short_volume("db:/data:rw", "web"),
        Ok((mount("/data", "db", false), PodVolume::Claim { name: "db".into() }))
    );
    assert_eq!(parse_short_volume("a:b:c:d", "web"), Err(ShortVolumeError::TooManyColons));
}

fn annotations(driver: Option<&str>) -> VolumeAnnotations {
    VolumeAnnotations {
        driver: driver.map(String::from),
        device: None,
        fs_type: None,
        uid: None,
        gid: None,
        mount_options: None,
        import_source: None,
        image: None,
    }
}

#[test]
fn volume_driver_annotations() {
    let opts = vec![
        ("type".to_owned(), DriverOptValue::Text("nfs".into())),
        ("o".to_owned(), DriverOptValue::Text("addr=10.0.0.1,uid=7,rw".into())),
        ("gid".to_owned(), DriverOptValue::Unsigned(8)),
        ("device".to_owned(), DriverOptValue::OtherNumber("1.5".into())),
    ];
    assert_eq!(
        VolumeAnnotations::try_from_compose(Some("local".into()), opts),
        Ok(VolumeAnnotations {
            fs_type: Some("nfs".into()),
            uid: Some(7),
            gid: Some(8),
            mount_options: Some("addr=10.0.0.1,rw".into()),
            device: Some("1.5".into()),
            ..annotations(Some("local"))
        })
    );
    assert_eq!(
        VolumeAnnotations::try_from_compose(None, vec![("size".to_owned(), DriverOptValue::Unsigned(1))]),
        Err(DriverOptError::Unknown("size".into()))
    );
    assert_eq!(
        VolumeAnnotations::try_from_compose(None, vec![("uid".to_owned(), DriverOptValue::Text("a".into()))]),
        Err(DriverOptError::NotUnsigned("uid".into()))
    );
    assert_eq!(
        VolumeAnnotations::try_from_compose(None, vec![("gid".to_owned(), DriverOptValue::Unsigned(1 << 40))]),
        Err(DriverOptError::TooLarge("GID".into(), 1 << 40))
    );
    assert_eq!(
        VolumeAnnotations::try_from_compose(None, vec![("o".to_owned(), DriverOptValue::Unsigned(1))]),
        Err(DriverOptError::NotText)
    );
    let mut a = annotations(None);
    assert_eq!(a.add_mount_options("ro,uid=x,gid=1"), Err(DriverOptError::ParseId("UID".into(), "x".into())));
    assert_eq!(a, VolumeAnnotations { mount_options: Some("ro".into()), ..annotations(None) });
    assert_eq!(a.parse_add("image", DriverOptValue::Unsigned(42)), Ok(()));
    assert_eq!(a.image, Some("42".into()));
}

#[test]
fn advanced_volumes() {
    let mount = |path: &str, name: &str, read_only: bool| VolumeMount {
        mount_path: path.into(),
        name: name.into(),
        read_only,
    };
    let v = AdvancedVolume {
        source: Some("./data".into()),
        target: "/data".into(),
        kind: "bind".into(),
        read_only: true,
        bind: false,
        volume: false,
        tmpfs_size: None,
    };
    assert_eq!(
        advanced_volume_try_into_volume_mount(v.clone(), "web"),
        Ok((mount("/data", "web-data", true), PodVolume::HostPath { name: "web-data".into(), path: "./data".into() }))
    );
    assert_eq!(
        advanced_volume_try_into_volume_mount(AdvancedVolume { bind: true, ..v.clone() }, "web"),
        Err(AdvancedVolumeError::BindOptions)
    );
    assert_eq!(
        advanced_volume_try_into_volume_mount(AdvancedVolume { source: None, ..v.clone() }, "web"),
        Err(AdvancedVolumeError::BindWithoutSource)
    );
    assert_eq!(
        advanced_volume_try_into_volume_mount(AdvancedVolume { kind: "volume".into(), source: Some("db".into()), ..v.clone() }, "web"),
        Ok((mount("/data", "db", true), PodVolume::Claim { name: "db".into() }))
    );
    assert_eq!(
        advanced_volume_try_into_volume_mount(AdvancedVolume { kind: "volume".into(), source: None, read_only: false, ..v.clone() }, "web"),
        Ok((mount("/data", "web-data", false), PodVolume::EmptyDir { name: "web-data".into() }))
    );
    assert_eq!(
        advanced_volume_try_into_volume_mount(AdvancedVolume { kind: "volume".into(), volume: true, ..v.clone() }, "web"),
        Err(AdvancedVolumeError::VolumeOptions)
    );
    assert_eq!(
        advanced_volume_try_into_volume_mount(AdvancedVolume { kind: "tmpfs".into(), tmpfs_size: Some(1024), ..v.clone() }, "web"),
        Ok((mount("/data", "web-data", true), PodVolume::Memory { name: "web-data".into(), size_limit: Some("1024".into()) }))
    );
    assert_eq!(
        advanced_volume_try_into_volume_mount(AdvancedVolume { kind: "npipe".into(), ..v }, "web"),
        Err(AdvancedVolumeError::UnsupportedType("npipe".into()))
    );
    assert_eq!(MountSource::Volume("db".into()).into_volume_name("/x"), "db");
    assert_eq!(MountSource::Other("web".into()).into_volume_name("/var/x"), "web-var-x");
}
