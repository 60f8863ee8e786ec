use podlet::idmap::{Idmap, Mapping};
use podlet::rootfs::Rootfs;

#[test]
fn path() {
    let string = "/test";
    let rootfs = Rootfs::parse(string).unwrap();

    assert_eq!(
        rootfs,
        Rootfs {
            path: "/test".into(),
            overlay: false,
            idmap: None,
        },
    );
    assert_eq!(rootfs.to_string(), string);
}

#[test]
fn overlay() {
    let string = "/test:O";
    let rootfs = Rootfs::parse(string).unwrap();

    assert_eq!(
        rootfs,
        Rootfs {
            path: "/test".into(),
            overlay: true,
            idmap: None,
        },
    );
    assert_eq!(rootfs.to_string(), string);
}

#[test]
fn idmap() {
    let string = "/test:idmap=uids=0-1-2";
    let rootfs = Rootfs::parse(string).unwrap();

    assert_eq!(
        rootfs,
        Rootfs {
            path: "/test".into(),
            overlay: false,
            idmap: Some(Idmap {
                uids: vec![Mapping {
                    container_relative: false,
                    from: 0,
                    to: 1,
                    length: 2,
                }],
                gids: Vec::new()
            }),
        },
    );
    assert_eq!(rootfs.to_string(), string);
}

#[test]
fn overlay_and_idmap() {
    let string = "/test:O,idmap";
    let rootfs = Rootfs::parse(string).unwrap();

    assert_eq!(
        rootfs,
        Rootfs {
            path: "/test".into(),
            overlay: true,
            idmap: Some(Idmap::default()),
        },
    );
    assert_eq!(rootfs.to_string(), string);
}
