use podlet::auto_update::AutoUpdate as Policy;
use podlet::kube::{AutoUpdate, YamlFile, parse_yaml_file};
use podlet::quadlet_kube::Kube;

#[test]
fn auto_update_extract() {
    let mut annotations = vec![
        String::from("annotation"),
        String::from("io.containers.autoupdate=invalid"),
        String::from("io.containers.autoupdate#invalid=registry"),
        String::from("io.containers.autoupdate=registry"),
        String::from("io.containers.autoupdate/container=local"),
    ];

    let auto_updates = AutoUpdate::extract_from_annotations(&mut annotations);

    assert_eq!(
        auto_updates,
        [
            AutoUpdate::All(Policy::Registry),
            AutoUpdate::Container { container: String::from("container"), auto_update: Policy::Local }
        ]
    );
    assert_eq!(
        annotations,
        [
            "annotation",
            "io.containers.autoupdate=invalid",
            "io.containers.autoupdate#invalid=registry"
        ]
    );
}

#[test]
fn auto_update_annotations_round_trip() {
    let updates = [
        AutoUpdate::All(Policy::Local),
        AutoUpdate::Container { container: String::from("web"), auto_update: Policy::Registry },
    ];
    let mut annotations: Vec<String> = updates.iter().map(|u| u.to_annotation()).collect();
    assert_eq!(annotations[1], "io.containers.autoupdate/web=registry");
    assert_eq!(AutoUpdate::extract_from_annotations(&mut annotations), updates);
    assert!(annotations.is_empty());
    assert_eq!(updates[1].to_string(), "web/registry");
    assert_eq!(Policy::parse("local"), Some(Policy::Local));
    assert_eq!(Policy::label_key(), "io.containers.autoupdate");
}

#[test]
fn kube_default_empty() {
    let kube = Kube::new(YamlFile::Path("yaml".into()));
    assert_eq!(kube.to_string(), "[Kube]\nYaml=yaml\n");
}

#[test]
fn url_file_name() {
    let sut = parse_yaml_file("https://example.com/test.yaml");
    assert_eq!(sut, YamlFile::Url("https://example.com/test.yaml".into()));
    assert_eq!(sut.name().as_deref(), Some("test"));
}

#[test]
fn path_file_name() {
    let sut = YamlFile::Path("test.yaml".into());
    assert_eq!(sut.name().as_deref(), Some("test"));
}

#[test]
fn yaml_names_without_file() {
    assert_eq!(parse_yaml_file("https://example.com/dir/").name(), None);
    assert_eq!(YamlFile::Path("dir/archive.tar.gz".into()).name().as_deref(), Some("archive.tar"));
    assert_eq!(parse_yaml_file("https://example.com/a/archive.tar.gz").name().as_deref(), Some("archive"));
}

#[test]
fn kube_text_lists_options() {
    let mut kube = Kube::new(YamlFile::Path("pod.yaml".into()));
    kube.auto_update = vec![AutoUpdate::All(Policy::Registry), AutoUpdate::Container { container: "web".into(), auto_update: Policy::Local }];
    kube.network = vec!["a".into(), "b".into()];
    kube.user_ns = Some("keep-id".into());
    assert_eq!(
        kube.to_string(),
        "[Kube]\nAutoUpdate=registry\nAutoUpdate=web/local\nNetwork=a\nNetwork=b\nUserNS=keep-id\nYaml=pod.yaml\n"
    );
}
