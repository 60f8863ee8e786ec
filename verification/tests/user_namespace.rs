use podlet::user_namespace::{Mode, Output, ParseModeError};

fn s(v: &str) -> String {
    String::from(v)
}

#[test]
fn user_namespace_auto_no_options() {
    let sut = Mode::parse("auto");
    assert_eq!(
        sut,
        Ok(Mode::Auto {
            uidmapping: None,
            gidmapping: None,
            size: None
        })
    );

    let sut = Output::from_mode(&Mode::Auto {
        uidmapping: None,
        gidmapping: None,
        size: None,
    });
    assert_eq!(sut, Output::QuadletOptions(s("RemapUsers=auto")));
}

#[test]
fn user_namespace_auto_all_options() {
    let sut = Mode::parse("auto:uidmapping=100,gidmapping=200,size=300");
    assert_eq!(
        sut,
        Ok(Mode::Auto {
            uidmapping: Some(s("100")),
            gidmapping: Some(s("200")),
            size: Some(300)
        })
    );

    let uidmapping = "100";
    let gidmapping = "200";
    let size = 300;
    let sut = Output::from_mode(&Mode::Auto {
        uidmapping: Some(s(uidmapping)),
        gidmapping: Some(s(gidmapping)),
        size: Some(size),
    });
    assert_eq!(
        sut,
        Output::QuadletOptions(format!(
            "RemapUsers=auto\n\
            RemapUid={uidmapping}\n\
            RemapGid={gidmapping}\n\
            RemapUidSize={size}"
        ))
    );
}

#[test]
fn user_namespace_container() {
    let sut = Mode::parse("container:name");
    assert_eq!(sut, Ok(Mode::Container { id: s("name") }));

    let id = "name";
    let sut = Output::from_mode(&Mode::Container { id: s(id) });
    assert_eq!(sut, Output::PodmanArg(format!("container:{id}")));
}

#[test]
fn user_namespace_host() {
    assert_eq!(Mode::parse("host"), Ok(Mode::Host));
    assert_eq!(Output::from_mode(&Mode::Host), Output::PodmanArg(s("host")));
}

#[test]
fn user_namespace_keep_id_no_options() {
    assert_eq!(
        Mode::parse("keep-id"),
        Ok(Mode::KeepId {
            uid: None,
            gid: None
        })
    );
    let sut = Output::from_mode(&Mode::KeepId {
        uid: None,
        gid: None,
    });
    assert_eq!(sut, Output::QuadletOptions(s("RemapUsers=keep-id")));
}

#[test]
fn user_namespace_keep_id_all_options() {
    assert_eq!(
        Mode::parse("keep-id:uid=100,gid=200"),
        Ok(Mode::KeepId {
            uid: Some(100),
            gid: Some(200)
        })
    );
    let uid = 100;
    let gid = 200;
    let sut = Output::from_mode(&Mode::KeepId {
        uid: Some(uid),
        gid: Some(gid),
    });
    assert_eq!(sut, Output::PodmanArg(format!("keep-id:uid={uid},gid={gid}")));
}

#[test]
fn user_namespace_nomap() {
    assert_eq!(Mode::parse("nomap"), Ok(Mode::Nomap));
    assert_eq!(Output::from_mode(&Mode::Nomap), Output::PodmanArg(s("nomap")));
}

#[test]
fn user_namespace_ns() {
    assert_eq!(
        Mode::parse("ns:namespace"),
        Ok(Mode::Ns {
            namespace: s("namespace")
        })
    );
    let namespace = "namespace";
    let sut = Output::from_mode(&Mode::Ns {
        namespace: s(namespace),
    });
    assert_eq!(sut, Output::PodmanArg(format!("ns:{namespace}")));
}

#[test]
fn invalid_auto_option() {
    assert_eq!(
        Mode::parse("auto:"),
        Err(ParseModeError::InvalidAutoOption(String::new()))
    );
}

#[test]
fn auto_size_parse_error() {
    let sut = Mode::parse("auto:size=");
    assert!(matches!(sut, Err(ParseModeError::AutoSizeParseError { .. })));
}

#[test]
fn invalid_keep_id_option() {
    assert_eq!(
        Mode::parse("keep-id:"),
        Err(ParseModeError::InvalidKeepIdOption(String::new()))
    );
}

#[test]
fn keep_id_uid_parse_error() {
    let sut = Mode::parse("keep-id:uid=");
    assert!(matches!(sut, Err(ParseModeError::KeepIdUidParseError { .. })));
}

#[test]
fn keep_id_gid_parse_error() {
    let sut = Mode::parse("keep-id:gid=");
    assert!(matches!(sut, Err(ParseModeError::KeepIdGidParseError { .. })));
}

#[test]
fn invalid_mode() {
    assert_eq!(Mode::parse(""), Err(ParseModeError::InvalidMode(String::new())));
}

#[test]
fn podman_arg_modes_parse_back() {
    let modes = [
        Mode::Container { id: s("a:b") },
        Mode::Host,
        Mode::KeepId { uid: Some(0), gid: None },
        Mode::KeepId { uid: None, gid: Some(4294967295) },
        Mode::Nomap,
        Mode::Ns { namespace: s("/proc/1/ns/user") },
    ];
    for mode in modes {
        match Output::from_mode(&mode) {
            Output::PodmanArg(arg) => assert_eq!(Mode::parse(&arg), Ok(mode)),
            Output::QuadletOptions(o) => panic!("unexpected quadlet options {o}"),
        }
    }
}

#[test]
fn auto_options_last_wins_and_errors_carry_text() {
    assert_eq!(
        Mode::parse("auto:size=1,size=2"),
        Ok(Mode::Auto { uidmapping: None, gidmapping: None, size: Some(2) })
    );
    assert_eq!(
        Mode::parse("auto:size=x"),
        Err(ParseModeError::AutoSizeParseError { size: s("x") })
    );
    assert_eq!(
        Mode::parse("keep-id:uid=4294967296"),
        Err(ParseModeError::KeepIdUidParseError { uid: s("4294967296") })
    );
    assert_eq!(
        Mode::parse("autoinfo"),
        Ok(Mode::Auto { uidmapping: None, gidmapping: None, size: None })
    );
    assert_eq!(Mode::parse("keep-id:bogus"), Err(ParseModeError::InvalidKeepIdOption(s("bogus"))));
}
