use podlet::args_ser::to_string;
use podlet::global_args::{GlobalArgs, LogLevel};

#[test]
fn default_args_serialize_empty() {
    let global_args = to_string(&GlobalArgs::default().to_value()).unwrap();
    assert!(global_args.is_empty());
}

#[test]
fn global_args_into_globals() {
    let mut args = GlobalArgs::default();
    args.module = vec![String::from("/m.conf")];
    args.log_level = LogLevel::Debug;
    args.storage_opt = vec![String::from("a=b")];
    args.syslog = true;
    let globals = args.into_globals();
    assert_eq!(globals.containers_conf_module, ["/m.conf"]);
    assert_eq!(
        globals.global_args.as_deref(),
        Some("--log-level debug --storage-opt \"a=b\" --syslog")
    );
    assert_eq!(GlobalArgs::default().into_globals().global_args, None);
}

#[test]
fn global_args_from_compose() {
    let mut runtime = Some(String::from("crun"));
    let mut storage_opt = vec![
        (String::from("size"), Some(String::from("10G"))),
        (String::from("overlay.mount_program"), None),
    ];
    let args = GlobalArgs::from_compose(&mut runtime, &mut storage_opt);
    assert_eq!(runtime, None);
    assert!(storage_opt.is_empty());
    assert_eq!(args.runtime.as_deref(), Some("crun"));
    assert_eq!(args.storage_opt, ["size=10G", "overlay.mount_program="]);
    assert_eq!(
        args.into_globals().global_args.as_deref(),
        Some("--runtime crun --storage-opt \"size=10G\" --storage-opt \"overlay.mount_program=\"")
    );
}
