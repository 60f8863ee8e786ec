use podlet::quadlet_volume::{ComposeVolume, ComposeVolumeError, Create, Volume};
use podlet::volume_opt::{Mount, Opt, ParseOptError};

#[test]
fn volume_default_empty() {
    let volume = Volume::default();
    assert_eq!(volume.to_string(), "[Volume]\n");
}

#[test]
fn volume_options_written() {
    let volume = Volume {
        copy: true,
        device: Some("/dev/sdb1".into()),
        label: vec!["a=b".into(), "c=d e".into()],
        options: Some("noatime".into()),
        fs_type: Some("ext4".into()),
        user: Some("1000".into()),
        ..Volume::default()
    };
    assert_eq!(
        volume.to_string(),
        "[Volume]\nCopy=true\nDevice=/dev/sdb1\nLabel=a=b \"c=d e\"\nOptions=noatime\nType=ext4\nUser=1000\n"
    );
}

#[test]
fn volume_from_create() {
    let create = Create {
        driver: Some("local".into()),
        opt: vec![
            Opt::Type("tmpfs".into()),
            Opt::Mount(vec![Mount::Uid("1000".into()), Mount::Other("size=1g".into()), Mount::Other("noexec".into())]),
            Opt::Copy,
        ],
        label: vec!["x=y".into()],
        name: "data".into(),
    };
    assert_eq!(
        Volume::from_create(create),
        Volume {
            copy: true,
            driver: Some("local".into()),
            label: vec!["x=y".into()],
            options: Some("size=1g,noexec".into()),
            fs_type: Some("tmpfs".into()),
            user: Some("1000".into()),
            ..Volume::default()
        }
    );
}

fn compose_volume(opts: &[(&str, &str)]) -> ComposeVolume {
    ComposeVolume {
        driver: Some("local".into()),
        driver_opts: opts.iter().map(|(k, v)| (String::from(*k), String::from(*v))).collect(),
        labels: vec!["l=1".into()],
        name: None,
        extensions: false,
    }
}

#[test]
fn volume_from_compose() {
    let volume = Volume::try_from_compose(compose_volume(&[("type", "nfs"), ("o", "addr=10.0.0.1,rw"), ("device", ":/export"), ("copy", "true")]))
        .unwrap();
    assert_eq!(
        volume,
        Volume {
            copy: true,
            device: Some(":/export".into()),
            driver: Some("local".into()),
            label: vec!["l=1".into()],
            options: Some("addr=10.0.0.1,rw".into()),
            fs_type: Some("nfs".into()),
            ..Volume::default()
        }
    );
    assert!(Volume::try_from_compose(compose_volume(&[("copy", "1")])).unwrap().copy);
    assert!(Volume::try_from_compose(compose_volume(&[("copy", "")])).unwrap().copy);
}

#[test]
fn compose_volume_errors() {
    assert_eq!(
        Volume::try_from_compose(ComposeVolume { name: Some("n".into()), extensions: true, ..compose_volume(&[]) }),
        Err(ComposeVolumeError::Name)
    );
    assert_eq!(
        Volume::try_from_compose(ComposeVolume { extensions: true, ..compose_volume(&[]) }),
        Err(ComposeVolumeError::Extensions)
    );
    assert_eq!(
        Volume::try_from_compose(compose_volume(&[("type", "nfs"), ("copy", "false")])),
        Err(ComposeVolumeError::DriverOpt(1, ParseOptError::InvalidVolumeDriverOption("copy=false".into())))
    );
    assert_eq!(
        Volume::try_from_compose(compose_volume(&[("size", "")])),
        Err(ComposeVolumeError::DriverOpt(0, ParseOptError::InvalidVolumeDriverOption("size".into())))
    );
}
