use podlet::idmap::{Idmap, Mapping};
use podlet::mount::{Bind, DevPts, Image, Mount, ParseMountError, Tmpfs, Volume, ptys};
use podlet::mount_opts::{BindPropagation, SELinuxRelabel, Size};

fn bind_new(source: &str) -> Bind {
    Bind {
        source: source.into(),
        destination: None,
        read_only: false,
        bind_propagation: BindPropagation::RPrivate,
        bind_nonrecursive: false,
        relabel: None,
        idmap: None,
        chown: false,
    }
}

fn devpts_new(destination: &str) -> DevPts {
    DevPts { destination: destination.into(), uid: 0, gid: 0, mode: 0o600, max: 1_048_576 }
}

fn tmpfs_new(destination: &str) -> Tmpfs {
    Tmpfs {
        destination: destination.into(),
        read_only: false,
        size: Size::Unlimited,
        mode: 0o1777,
        tmpcopyup: true,
        chown: false,
    }
}

#[test]
fn bind() {
    let string = "type=bind,source=/src,destination=/dst";
    let mount = Mount::parse(string).unwrap();
    assert_eq!(
        mount,
        Mount::Bind(Bind { destination: Some("/dst".into()), ..bind_new("/src") }),
    );
    assert_eq!(mount.to_string(), string);

    let string = "type=bind,source=/src,destination=/dst,readonly=true,bind-propagation=shared,\
        bind-nonrecursive=true,relabel=shared,idmap,chown=true";
    let mount = Mount::parse(string).unwrap();
    assert_eq!(
        mount,
        Mount::Bind(Bind {
            source: "/src".into(),
            destination: Some("/dst".into()),
            read_only: true,
            bind_propagation: BindPropagation::Shared,
            bind_nonrecursive: true,
            relabel: Some(SELinuxRelabel::Shared),
            idmap: Some(Idmap::default()),
            chown: true,
        }),
    );
    assert_eq!(mount.to_string(), string);
}

#[test]
fn devpts() {
    let string = "type=devpts,destination=/dst";
    let mount = Mount::parse(string).unwrap();
    assert_eq!(mount, Mount::DevPts(devpts_new("/dst")));
    assert_eq!(mount.to_string(), string);

    let string = "type=devpts,destination=/dst,uid=100,gid=100,mode=755,max=10";
    let mount = Mount::parse(string).unwrap();
    assert_eq!(
        mount,
        Mount::DevPts(DevPts { destination: "/dst".into(), uid: 100, gid: 100, mode: 0o755, max: 10 })
    );
    assert_eq!(mount.to_string(), string);
}

#[test]
fn glob() {
    let string = "type=glob,source=/usr/lib/libfoo*,destination=/usr/lib,readonly=true";
    let mount = Mount::parse(string).unwrap();
    assert_eq!(
        mount,
        Mount::Glob(Bind {
            destination: Some("/usr/lib".into()),
            read_only: true,
            ..bind_new("/usr/lib/libfoo*")
        })
    );
    assert_eq!(mount.to_string(), string);
}

#[test]
fn image() {
    let string = "type=image,source=fedora,destination=/fedora-image,readwrite=true";
    let mount = Mount::parse(string).unwrap();
    assert_eq!(
        mount,
        Mount::Image(Image {
            source: "fedora".into(),
            destination: "/fedora-image".into(),
            read_write: true
        }),
    );
    assert_eq!(mount.to_string(), string);
}

#[test]
fn ramfs() {
    let string = "type=ramfs,destination=/dst,readonly=true,\
                    tmpfs-size=256m,tmpfs-mode=755,notmpcopyup,chown=true";
    let mount = Mount::parse(string).unwrap();
    assert_eq!(
        mount,
        Mount::Ramfs(Tmpfs {
            destination: "/dst".into(),
            read_only: true,
            size: Size::Mebibytes(256),
            mode: 0o755,
            tmpcopyup: false,
            chown: true
        }),
    );
    assert_eq!(mount.to_string(), string);
}

#[test]
fn tmpfs() {
    let string = "type=tmpfs,destination=/dst,readonly=true,\
                    tmpfs-size=256m,tmpfs-mode=755,notmpcopyup,chown=true";
    let mount = Mount::parse(string).unwrap();
    assert_eq!(
        mount,
        Mount::Tmpfs(Tmpfs {
            destination: "/dst".into(),
            read_only: true,
            size: Size::Mebibytes(256),
            mode: 0o755,
            tmpcopyup: false,
            chown: true
        }),
    );
    assert_eq!(mount.to_string(), string);
}

#[test]
fn volume() {
    let string = "type=volume,destination=/dst";
    let mount = Mount::parse(string).unwrap();
    assert_eq!(
        mount,
        Mount::Volume(Volume {
            source: None,
            destination: "/dst".into(),
            read_only: false,
            chown: false,
            idmap: None
        }),
    );
    assert_eq!(mount.to_string(), string);

    let string =
        "type=volume,source=volume,destination=/dst,readonly=true,chown=true,idmap=uids=@0-1-2";
    let mount = Mount::parse(string).unwrap();
    assert_eq!(
        mount,
        Mount::Volume(Volume {
            source: Some("volume".into()),
            destination: "/dst".into(),
            read_only: true,
            chown: true,
            idmap: Some(Idmap {
                uids: vec![Mapping { container_relative: true, from: 0, to: 1, length: 2 }],
                gids: Vec::new(),
            }),
        }),
    );
    assert_eq!(mount.to_string(), string);
}

#[test]
fn defaults() {
    let string = "type=tmpfs,destination=/test";
    let mount = Mount::parse(string).unwrap();
    assert_eq!(mount, Mount::Tmpfs(tmpfs_new("/test")));
    assert_eq!(mount.to_string(), string);
}

#[test]
fn tmpcopyup() {
    let mount = Mount::parse("type=tmpfs,destination=/test,tmpcopyup").unwrap();
    assert_eq!(mount, Mount::Tmpfs(tmpfs_new("/test")));

    let string = "type=tmpfs,destination=/test,notmpcopyup";
    let mount = Mount::parse(string).unwrap();
    assert_eq!(mount, Mount::Tmpfs(Tmpfs { tmpcopyup: false, ..tmpfs_new("/test") }));
    assert_eq!(mount.to_string(), string);
}

#[test]
fn devpts_default() {
    let mount = Mount::parse("type=devpts,destination=/d").unwrap();
    match mount {
        Mount::DevPts(d) => {
            assert_eq!(d.mode, 0o600);
            assert_eq!(d.max, ptys::default());
        }
        other => panic!("not devpts: {other:?}"),
    }
    assert!(ptys::skip_default(1_048_576));
    assert!(!ptys::skip_default(10));
}

#[test]
fn mode_default() {
    let mount = Mount::parse("type=ramfs,destination=/d").unwrap();
    assert_eq!(mount, Mount::Ramfs(tmpfs_new("/d")));
}

#[test]
fn serialize_string() {
    let mount = Mount::DevPts(DevPts { mode: 0o755, ..devpts_new("/d") });
    assert_eq!(mount.to_string(), "type=devpts,destination=/d,mode=755");
}

#[test]
fn deserialize_string() {
    let mount = Mount::parse("type=devpts,destination=/d,mode=755").unwrap();
    assert_eq!(mount, Mount::DevPts(DevPts { mode: 0o755, ..devpts_new("/d") }));
}

#[test]
fn mount_errors() {
    let err = |s: &str| Mount::parse(s).unwrap_err();
    assert_eq!(err(""), ParseMountError::MissingOption(String::from("type")));
    assert_eq!(err("type"), ParseMountError::MissingValue(String::from("type")));
    assert_eq!(err("type=nfs"), ParseMountError::UnknownType(String::from("nfs")));
    assert_eq!(err("source=bind,type=bind"), ParseMountError::TypeNotFirst);
    assert_eq!(
        err("type=bind,source=/a,foo=1"),
        ParseMountError::UnknownOption(String::from("foo"))
    );
    assert_eq!(
        err("type=bind,src=/a,source=/b"),
        ParseMountError::DuplicateOption(String::from("source"))
    );
    assert_eq!(err("type=bind,ro"), ParseMountError::MissingOption(String::from("source")));
    assert_eq!(
        err("type=bind,source=/a,ro=yes"),
        ParseMountError::InvalidValue(String::from("readonly"), String::from("yes"))
    );
    assert_eq!(
        err("type=devpts,destination=/d,mode=8"),
        ParseMountError::InvalidValue(String::from("mode"), String::from("8"))
    );
    assert_eq!(
        err("type=image,source"),
        ParseMountError::MissingValue(String::from("source"))
    );
    assert_eq!(
        err("type=image,source=x"),
        ParseMountError::MissingOption(String::from("destination"))
    );
    assert!(matches!(err("type=volume,dst=/d,idmap=x"), ParseMountError::Idmap(_)));
    assert_eq!(
        err("type=tmpfs,dst=/d,tmpfs-size=5x"),
        ParseMountError::Size(String::from("5x"))
    );
}

#[test]
fn tmpfs_repeats_allowed() {
    let mount = Mount::parse("type=tmpfs,target=/d,ro,readonly=false,U,notmpcopyup,tmpcopyup=x")
        .unwrap();
    assert_eq!(mount, Mount::Tmpfs(Tmpfs { chown: true, ..tmpfs_new("/d") }));
    assert_eq!(mount.to_string(), "type=tmpfs,destination=/d,chown=true");
}

#[test]
fn written_mounts_parse_back() {
    let mounts = vec![
        Mount::Bind(Bind {
            destination: Some("/dst".into()),
            read_only: true,
            bind_propagation: BindPropagation::RSlave,
            relabel: Some(SELinuxRelabel::Private),
            idmap: Some(Idmap::parse("uids=0-1-10;gids=0-1-10").unwrap()),
            ..bind_new("/src")
        }),
        Mount::DevPts(DevPts { uid: 5, gid: 6, mode: 0o620, max: 10, ..devpts_new("/dev/pts") }),
        Mount::Tmpfs(Tmpfs {
            read_only: true,
            size: Size::Mebibytes(64),
            mode: 0o755,
            tmpcopyup: false,
            chown: true,
            ..tmpfs_new("/tmp")
        }),
        Mount::Ramfs(tmpfs_new("/run")),
    ];
    for mount in mounts {
        let text = mount.to_string();
        assert_eq!(Mount::parse(&text).unwrap(), mount, "{text}");
    }
    let devpts = Mount::DevPts(DevPts { uid: 5, gid: 6, mode: 0o620, max: 10, ..devpts_new("/dev/pts") });
    assert_eq!(devpts.to_string(), "type=devpts,destination=/dev/pts,uid=5,gid=6,mode=620,max=10");
}
