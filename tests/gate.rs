use ghb::gate::{
    check_repo_and_org_allowed, get_org_from_fn, get_repo_from_fn, installation_for, is_allowed,
    AllowList,
};

#[test]
fn full_name_splits_at_slashes() {
    assert_eq!(get_org_from_fn("flashsoft-eu/access-to-private-repos".to_string()), "flashsoft-eu");
    assert_eq!(get_repo_from_fn("flashsoft-eu/access-to-private-repos".to_string()), "access-to-private-repos");
    assert_eq!(get_org_from_fn("lonely".to_string()), "lonely");
    assert_eq!(get_repo_from_fn("lonely".to_string()), "");
    assert_eq!(get_repo_from_fn("a/b/c".to_string()), "b");
    assert_eq!(get_org_from_fn("/b".to_string()), "");
    assert_eq!(get_repo_from_fn("a/".to_string()), "");
    assert_eq!(get_org_from_fn(String::new()), "");
}

#[test]
fn gate_admits_only_the_configured_pair() {
    let gate = AllowList::standard();
    assert!(is_allowed(&gate, "flashsoft-eu", "access-to-private-repos"));
    assert!(!is_allowed(&gate, "Flashsoft-eu", "access-to-private-repos"));
    assert!(!is_allowed(&gate, "flashsoft-eu", "Access-to-private-repos"));
    assert!(!is_allowed(&gate, "flashsoft-eu", "other"));
    assert!(!is_allowed(&gate, "other", "access-to-private-repos"));
    assert!(!is_allowed(&gate, "", "access-to-private-repos"));
    assert!(!is_allowed(&gate, "flashsoft-eu", ""));
}

#[test]
fn gate_rejects_empty_entries_even_when_listed() {
    let gate = AllowList { orgs: vec![String::new()], repos: vec![String::new()], installations: vec![] };
    assert!(!is_allowed(&gate, "", ""));
}

#[test]
fn full_name_gate() {
    let gate = AllowList::standard();
    assert!(check_repo_and_org_allowed(&gate, "flashsoft-eu/access-to-private-repos"));
    assert!(check_repo_and_org_allowed(&gate, "flashsoft-eu/access-to-private-repos/extra"));
    assert!(!check_repo_and_org_allowed(&gate, "flashsoft-eu"));
    assert!(!check_repo_and_org_allowed(&gate, "other/access-to-private-repos"));
    assert!(!check_repo_and_org_allowed(&gate, ""));
}

#[test]
fn installation_lookup() {
    let gate = AllowList::standard();
    assert_eq!(installation_for(&gate, "flashsoft-eu"), 40959841);
    assert_eq!(installation_for(&gate, "andrei0x309"), 0);
    assert_eq!(gate.home_org(), "flashsoft-eu");
}
