use podlet::container::PullPolicy;
use podlet::quadlet_container::{Container, Dns};
use podlet::quadlet_options::{Notify, PidsLimit};

#[test]
fn container_default_empty() {
    let container = Container { image: String::from("image"), ..Container::new() };
    assert_eq!(container.to_string(), "[Container]\nImage=image\n");
}

#[test]
fn container_text_in_field_order() {
    let mut c = Container::new();
    c.image = "quay.io/app".into();
    c.add_capability = vec!["NET_ADMIN".into(), "SYS TIME".into()];
    c.dns = Dns::Disabled;
    c.environment = vec!["A=1".into()];
    c.health_retries = Some(3);
    c.mask = vec!["/a".into(), "/b c".into()];
    c.notify = Notify::Container;
    c.pids_limit = Some(PidsLimit::Value(10));
    c.publish_port = vec!["80:80".into(), "443:443".into()];
    c.pull = Some(PullPolicy::Always);
    c.read_only_tmpfs = false;
    assert_eq!(
        c.to_string(),
        "[Container]\nAddCapability=NET_ADMIN \"SYS TIME\"\nDNS=none\nEnvironment=A=1\nHealthRetries=3\n\
         Image=quay.io/app\nMask=/a:\"/b c\"\nNotify=true\nPidsLimit=10\nPublishPort=80:80\n\
         PublishPort=443:443\nPull=always\nReadOnlyTmpfs=false\n"
    );
}

#[test]
fn container_text_after_downgrade() {
    let mut c = Container { image: "img".into(), ..Container::new() };
    c.notify = Notify::Healthy;
    c.dns = Dns::Custom(vec!["1.1.1.1".into()]);
    assert_eq!(c.downgrade(podlet::downgrade::PodmanVersion::new(4, 7)), Ok(()));
    assert_eq!(c.to_string(), "[Container]\nDNS=1.1.1.1\nImage=img\nPodmanArgs=--sdnotify healthy\n");
}
