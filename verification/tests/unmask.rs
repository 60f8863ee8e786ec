use podlet::container::{Notify, PullPolicy, Unmask};

#[test]
fn add_path() {
    let mut unmask = Unmask::new();

    unmask.add_path(String::from("/1"));
    assert_eq!(unmask, Unmask::Paths(vec![String::from("/1")]));

    unmask.add_path(String::from("ALL"));
    assert_eq!(unmask, Unmask::All);

    unmask.add_path(String::from("/2"));
    assert_eq!(unmask, Unmask::All);
}

#[test]
fn iter() {
    let unmask = Unmask::Paths(vec![String::from("/1"), String::from("/2")]);
    assert_eq!(unmask.to_vec(), ["/1", "/2"]);

    let unmask = Unmask::All;
    assert_eq!(unmask.to_vec(), ["ALL"]);
}

#[test]
fn unmask_all_any_case_absorbs() {
    let mut unmask = Unmask::new();
    unmask.extend(vec![String::from("/a"), String::from("aLl"), String::from("/b")]);
    assert_eq!(unmask, Unmask::All);

    let mut it = Unmask::Paths(vec![String::from("/x")]).iter();
    assert_eq!(it.next(), Some(String::from("/x")));
    assert_eq!(it.next(), None);
    assert_eq!(it.next(), None);
}

#[test]
fn notify_and_pull_policy() {
    assert!(Notify::Conmon.is_conmon());
    assert!(!Notify::Container.is_conmon());
    assert!(Notify::Healthy.is_healthy());
    assert_eq!(Notify::default(), Notify::Conmon);
    assert_eq!(PullPolicy::Newer.as_str(), "newer");
    assert_eq!(PullPolicy::Always.as_str(), "always");
}
