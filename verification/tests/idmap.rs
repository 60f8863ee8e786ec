use podlet::idmap::{Idmap, Mapping, ParseIdmapError, ParseMappingError};

#[test]
fn uids() {
    let string = "uids=0-1-2#@3-4-5";
    let idmap = Idmap::parse(string).unwrap();

    assert_eq!(
        idmap,
        Idmap {
            uids: vec![
                Mapping {
                    container_relative: false,
                    from: 0,
                    to: 1,
                    length: 2
                },
                Mapping {
                    container_relative: true,
                    from: 3,
                    to: 4,
                    length: 5
                }
            ],
            gids: Vec::new(),
        },
    );
    assert_eq!(idmap.to_string(), string);
}

#[test]
fn gids() {
    let string = "gids=0-1-2#@3-4-5";
    let idmap = Idmap::parse(string).unwrap();

    assert_eq!(
        idmap,
        Idmap {
            uids: Vec::new(),
            gids: vec![
                Mapping {
                    container_relative: false,
                    from: 0,
                    to: 1,
                    length: 2
                },
                Mapping {
                    container_relative: true,
                    from: 3,
                    to: 4,
                    length: 5
                }
            ],
        },
    );
    assert_eq!(idmap.to_string(), string);
}

#[test]
fn uids_and_gids() {
    let string = "uids=0-1-2;gids=3-4-5";
    let idmap = Idmap::parse(string).unwrap();

    assert_eq!(
        idmap,
        Idmap {
            uids: vec![Mapping {
                container_relative: false,
                from: 0,
                to: 1,
                length: 2
            }],
            gids: vec![Mapping {
                container_relative: false,
                from: 3,
                to: 4,
                length: 5
            }],
        },
    );
    assert_eq!(idmap.to_string(), string);
}

#[test]
fn deserialize_unit() {
    let idmap = Idmap::from_value(None).unwrap();
    assert_eq!(idmap, Idmap::default());
}

#[test]
fn mapping_round_trip() {
    let string = "@0-1-2";
    let mapping = Mapping::parse(string).unwrap();

    assert_eq!(
        mapping,
        Mapping {
            container_relative: true,
            from: 0,
            to: 1,
            length: 2
        },
    );
    assert_eq!(mapping.to_string(), string);
}

#[test]
fn idmap_errors() {
    assert_eq!(Idmap::parse("0-1-2"), Err(ParseIdmapError::MissingPrefix));
    assert_eq!(
        Idmap::parse("uids=0-1-2;uids=3-4-5"),
        Err(ParseIdmapError::RepeatedUidsPrefix)
    );
    assert!(matches!(
        Idmap::parse("uids=0-1"),
        Err(ParseIdmapError::ParseMapping(ParseMappingError::NotTriplet { .. }))
    ));
    assert_eq!(Idmap::from_value(Some("gids=1-2-3")).unwrap().to_string(), "gids=1-2-3");
}

#[test]
fn idmap_unknown_first_prefix_named() {
    assert_eq!(
        "foo=0-1-2;uids=3-4-5".parse::<Idmap>(),
        Err(ParseIdmapError::UnknownPrefix("foo".into()))
    );
    assert_eq!(
        "uids=0-1-2;bar=3-4-5".parse::<Idmap>(),
        Err(ParseIdmapError::UnknownPrefix("bar".into()))
    );
}
