use podlet::service_section::{ComposeRestart, RestartConfig, Service};

#[test]
fn service_restart_section() {
    let empty = Service { restart: None };
    assert!(empty.is_empty());
    assert_eq!(empty.to_string(), "[Service]\n");
    let s = Service::from_restart(RestartConfig::from_compose(ComposeRestart::UnlessStopped));
    assert!(!s.is_empty());
    assert_eq!(s.restart, Some(RestartConfig::Always));
    assert_eq!(s.to_string(), "[Service]\nRestart=always\n");
    assert_eq!(Service::from_restart(RestartConfig::OnAbnormal).to_string(), "[Service]\nRestart=on-abnormal\n");
    assert_eq!(RestartConfig::from_compose(ComposeRestart::OnFailure), RestartConfig::OnFailure);
    assert_eq!(RestartConfig::from_compose(ComposeRestart::No), RestartConfig::No);
}
