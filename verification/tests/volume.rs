use podlet::idmap::Idmap;
use podlet::mount_opts::{BindPropagation, SELinuxRelabel};
use podlet::volume::{Options, Overlay, ParseOptionsError, ParseVolumeError, Source, Volume};

#[test]
fn container_only() {
    let string = "/container/path";
    let volume = Volume::parse(string).unwrap();
    assert_eq!(volume, Volume::new("/container/path".into()));
    assert_eq!(volume.to_string(), string);
}

#[test]
fn source_and_container() {
    let string = "/host/path:/container/path";
    let volume = Volume::parse(string).unwrap();
    assert_eq!(
        volume,
        Volume {
            source: Some(Source::HostPath("/host/path".into())),
            container_path: "/container/path".into(),
            options: Options::new(),
        },
    );
    assert_eq!(volume.to_string(), string);
}

#[test]
fn all_options() {
    let string = "/host/path:/container/path:ro,Z,O,upperdir=/upper/dir,workdir=/work/dir,U,\
        nocopy,dev,noexec,suid,rbind,shared,idmap";
    let volume = Volume::parse(string).unwrap();
    let options = Options {
        read_only: true,
        selinux_relabel: Some(SELinuxRelabel::Private),
        overlay: Some(Overlay {
            upper_dir: Some("/upper/dir".into()),
            work_dir: Some("/work/dir".into()),
        }),
        chown: true,
        no_copy: true,
        devices: true,
        no_executables: true,
        suid: true,
        recursive_bind: true,
        bind_propagation: BindPropagation::Shared,
        idmap: Some(Idmap::default()),
    };
    assert_eq!(
        volume,
        Volume {
            source: Some(Source::HostPath("/host/path".into())),
            container_path: "/container/path".into(),
            options,
        }
    );
    assert_eq!(volume.to_string(), string);
}

#[test]
fn named_volume_source_and_errors() {
    let volume = Volume::parse("data:/d").unwrap();
    assert_eq!(volume.source, Some(Source::NamedVolume(String::from("data"))));
    assert_eq!(Source::parse("%h/x"), Source::HostPath(String::from("%h/x")));
    assert_eq!(
        Volume::parse("data:rel"),
        Err(ParseVolumeError::ContainerPathNotAbsolute(String::from("rel")))
    );
    assert_eq!(
        Volume::parse("a:/b:O,O"),
        Err(ParseVolumeError::Options(ParseOptionsError::Multiple("O")))
    );
    assert_eq!(Options::parse(":upperdir"), Err(ParseOptionsError::RequiresValue("upperdir")));
    assert_eq!(Options::parse("workdir=/w"), Err(ParseOptionsError::OverlayMissing));
    assert_eq!(Options::parse("idmap,idmap"), Err(ParseOptionsError::Multiple("idmap")));
    assert!(matches!(Options::parse("idmap=x"), Err(ParseOptionsError::Idmap(_))));
    assert_eq!(
        Options::parse("bogus"),
        Err(ParseOptionsError::Unknown(String::from("bogus")))
    );
    let options = Options::parse(":ro,rw,z,nodev,rprivate").unwrap();
    assert_eq!(options.to_string(), ":z");
}

#[test]
fn options_written_parse_back() {
    let options = Options {
        read_only: false,
        selinux_relabel: Some(SELinuxRelabel::Shared),
        overlay: Some(Overlay { upper_dir: None, work_dir: Some("/w".into()) }),
        chown: false,
        no_copy: false,
        devices: false,
        no_executables: true,
        suid: false,
        recursive_bind: false,
        bind_propagation: BindPropagation::RSlave,
        idmap: None,
    };
    let text = options.to_string();
    assert_eq!(text, ":z,O,workdir=/w,noexec,rslave");
    assert_eq!(Options::parse(&text).unwrap(), options);
    assert_eq!(Options::new().to_string(), "");
    assert_eq!(Options::parse("").unwrap(), Options::new());
}

#[test]
fn volume_written_parse_back() {
    let volume = Volume {
        source: Some(Source::NamedVolume("data".into())),
        container_path: "/var/data".into(),
        options: Options { read_only: true, ..Options::new() },
    };
    let text = volume.to_string();
    assert_eq!(text, "data:/var/data:ro");
    assert_eq!(Volume::parse(&text).unwrap(), volume);
    let bare = Volume::new("/var/data".into());
    assert_eq!(Volume::parse(&bare.to_string()).unwrap(), bare);
    // Without a source, options would be read as the container path.
    let no_source = Volume { source: None, ..volume };
    assert_eq!(no_source.to_string(), "/var/data:ro");
    assert!(matches!(
        Volume::parse(&no_source.to_string()),
        Err(ParseVolumeError::ContainerPathNotAbsolute(_))
    ));
}

#[test]
fn repeated_overlay_and_idmap_refused() {
    let o = Options::parse(":O,upperdir=/u,workdir=/w,idmap").expect("valid options");
    assert!(matches!(o.clone().try_fold("O"), Err(ParseOptionsError::Multiple("O"))));
    assert!(matches!(o.clone().try_fold("upperdir=/x"), Err(ParseOptionsError::Multiple("upperdir"))));
    assert!(matches!(o.clone().try_fold("workdir=/x"), Err(ParseOptionsError::Multiple("workdir"))));
    assert!(matches!(o.clone().try_fold("idmap"), Err(ParseOptionsError::Multiple("idmap"))));
    assert!(matches!(o.try_fold("idmap=uids=0-1-2"), Err(ParseOptionsError::Multiple("idmap"))));
}
