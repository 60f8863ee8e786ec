use podlet::cli_container::Container as RunContainer;
use podlet::podman_args::PodmanArgs;
use podlet::quadlet_options::QuadletOptions;
use podlet::security_opt::SecurityOpt;

fn opt(s: &str) -> SecurityOpt {
    SecurityOpt::parse(s).expect("valid security option")
}

#[test]
fn podman_run_to_container() {
    let run = RunContainer {
        quadlet_options: QuadletOptions { name: Some("web".into()), ..QuadletOptions::default() },
        podman_args: PodmanArgs { add_host: vec!["db:10.0.0.2".into()], ..PodmanArgs::default() },
        security_opt: vec![opt("no-new-privileges"), opt("apparmor=unconfined"), opt("mask=/a:/b")],
        image: "quay.io/app:1".into(),
        command: vec!["echo".into(), "hi there".into()],
    };
    assert_eq!(run.name(), "web");
    let c = run.into_quadlet();
    assert_eq!(c.image, "quay.io/app:1");
    assert_eq!(c.container_name.as_deref(), Some("web"));
    assert!(c.no_new_privileges);
    assert_eq!(c.mask, vec!["/a".to_owned(), "/b".to_owned()]);
    assert_eq!(c.podman_args.as_deref(), Some("--add-host db:10.0.0.2 --security-opt apparmor=unconfined"));
    assert_eq!(c.exec_command.as_deref(), Some("echo 'hi there'"));
}

#[test]
fn podman_run_security_args_alone_are_trimmed() {
    let run = RunContainer {
        quadlet_options: QuadletOptions::default(),
        podman_args: PodmanArgs::default(),
        security_opt: vec![opt("apparmor=unconfined")],
        image: "docker.io/library/nginx:latest".into(),
        command: Vec::new(),
    };
    assert_eq!(run.name(), "nginx");
    let c = run.into_quadlet();
    assert_eq!(c.podman_args.as_deref(), Some("--security-opt apparmor=unconfined"));
    assert_eq!(c.exec_command, None);
}

#[test]
fn podman_run_without_extra_args() {
    let run = RunContainer {
        quadlet_options: QuadletOptions::default(),
        podman_args: PodmanArgs::default(),
        security_opt: Vec::new(),
        image: "img".into(),
        command: Vec::new(),
    };
    let c = run.into_quadlet();
    assert_eq!(c.podman_args, None);
    assert_eq!(c.to_string(), "[Container]\nImage=img\n");
}
