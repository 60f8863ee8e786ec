use podlet::container::Unmask;
use podlet::security_opt::{
    InvalidLabelOpt, LabelOpt, ParseSecurityOptError, QuadletOptions, SecurityOpt,
};

#[test]
fn security_opts_parse() {
    assert_eq!(SecurityOpt::parse("apparmor=p"), Ok(SecurityOpt::Apparmor(String::from("p"))));
    assert_eq!(
        SecurityOpt::parse("label=type:t"),
        Ok(SecurityOpt::Label(LabelOpt::Type(String::from("t"))))
    );
    assert_eq!(SecurityOpt::parse("no-new-privileges"), Ok(SecurityOpt::NoNewPrivileges));
    assert_eq!(
        SecurityOpt::parse("label=bogus"),
        Err(ParseSecurityOptError::InvalidLabelOpt(InvalidLabelOpt(String::from("bogus"))))
    );
    assert_eq!(
        SecurityOpt::parse("bogus"),
        Err(ParseSecurityOptError::InvalidSecurityOpt(String::from("bogus")))
    );
}

#[test]
fn security_opts_fold() {
    let mut q = QuadletOptions::default();
    q.add_security_opt(SecurityOpt::parse("mask=/a:/b").unwrap());
    q.add_security_opt(SecurityOpt::parse("unmask=/c:ALL").unwrap());
    q.add_security_opt(SecurityOpt::parse("label=user:u").unwrap());
    q.add_security_opt(SecurityOpt::parse("label=disable").unwrap());
    q.add_security_opt(SecurityOpt::parse("proc-opts=x").unwrap());
    q.add_security_opt(SecurityOpt::parse("seccomp=/s.json").unwrap());
    assert_eq!(q.mask, ["/a", "/b"]);
    assert_eq!(q.unmask, Some(Unmask::All));
    assert_eq!(q.podman_args, ["label=user:u", "proc-opts=x"]);
    assert!(q.security_label_disable);
    assert_eq!(q.seccomp_profile.as_deref(), Some("/s.json"));
}
