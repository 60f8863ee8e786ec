use podlet::compose_file::{
    network_files, service_quadlet_file, volume_files, volumes_with_options, NetworkEntry, NetworkFileError,
    VolumeEntry, VolumeFileError,
};
use podlet::global_args::GlobalArgs;
use podlet::quadlet_container::Container;
use podlet::quadlet_volume::ComposeVolume;
use podlet::sections::{Condition, Dependency, DependencyError, Unit};
use podlet::service_section::{RestartConfig, Service};
use podlet::volume::Volume;

fn entries() -> Vec<(String, VolumeEntry)> {
    vec![
        (
            "data".to_owned(),
            VolumeEntry::Compose(ComposeVolume {
                driver: Some("local".into()),
                driver_opts: vec![],
                labels: vec![],
                name: None,
                extensions: false,
            }),
        ),
        (
            "bare".to_owned(),
            VolumeEntry::Compose(ComposeVolume {
                driver: None,
                driver_opts: vec![],
                labels: vec![],
                name: None,
                extensions: false,
            }),
        ),
        ("plain".to_owned(), VolumeEntry::Default),
        ("ext".to_owned(), VolumeEntry::External),
    ]
}

#[test]
fn compose_service_file() {
    let with = volumes_with_options(&entries());
    assert_eq!(with, vec!["data".to_owned()]);
    let mut c = Container { image: "img".into(), ..Container::new() };
    c.volume = vec![
        Volume::parse("data:/d").expect("volume"),
        Volume::parse("plain:/p").expect("volume"),
        Volume::parse("/host:/h").expect("volume"),
    ];
    let started = Dependency { condition: Condition::ServiceStarted, restart: false, required: true };
    let file = service_quadlet_file(
        "web".into(),
        None,
        vec![("db".to_owned(), started)],
        c.clone(),
        GlobalArgs::new(),
        Some(RestartConfig::Always),
        None,
        &with,
    )
    .expect("file");
    assert_eq!(file.name, "web");
    let unit = file.unit.expect("unit");
    assert_eq!(unit.requires, vec!["db.service".to_owned()]);
    assert_eq!(unit.after, vec!["db.service".to_owned()]);
    assert_eq!(file.container.volume[0].to_string(), "data.volume:/d");
    assert_eq!(file.container.volume[1].to_string(), "plain:/p");
    assert_eq!(file.container.volume[2].to_string(), "/host:/h");
    assert_eq!(file.container.image, "img");
    assert_eq!(file.service, Some(Service { restart: Some(RestartConfig::Always) }));

    let plain = service_quadlet_file("web".into(), None, Vec::new(), c.clone(), GlobalArgs::new(), None, None, &with)
        .expect("file");
    assert_eq!(plain.unit, None);
    assert_eq!(plain.service, None);

    let healthy = Dependency { condition: Condition::ServiceHealthy, restart: false, required: true };
    assert_eq!(
        service_quadlet_file(
            "web".into(),
            Some(Unit::default()),
            vec![("db".to_owned(), healthy)],
            c,
            GlobalArgs::new(),
            None,
            None,
            &with,
        ),
        Err(DependencyError::ServiceHealthy)
    );
}

#[test]
fn compose_volume_and_network_files() {
    let files = volume_files(entries());
    assert_eq!(files.len(), 4);
    assert_eq!(files[0].0, "data");
    assert_eq!(files[0].1.clone().expect("a file").expect("converted").driver.as_deref(), Some("local"));
    assert_eq!(files[1].1, None);
    assert_eq!(files[2].1, None);
    assert_eq!(files[3].1, Some(Err(VolumeFileError::External)));

    let networks = network_files(vec![("net".to_owned(), NetworkEntry::Default), ("ext".to_owned(), NetworkEntry::External)]);
    assert_eq!(networks[0].1.clone().expect("network").to_string(), "[Network]\n");
    assert_eq!(networks[1].1, Err(NetworkFileError::External));
}

#[test]
fn defaults_are_empty() {
    assert_eq!(Unit::default(), Unit::new());
    assert_eq!(Service::default(), Service { restart: None });
    assert!(podlet::cli_artifact::Pull::default().source.is_empty());
    assert!(podlet::cli_image::Pull::default().source.is_empty());
    assert_eq!(podlet::quadlet_pod::Pod::default(), podlet::quadlet_pod::Pod::new());
    assert!(podlet::cli_container::Container::default().image.is_empty());
}
