use lineage_server::user::{hash_password, UserAccount};

#[test]
fn password_hash_is_sha256_of_salt_password_and_md5_of_name() {
    let h = hash_password("testtest", "lineage", "password");
    assert_eq!(h, "d054b82cdd2af039279f3681057abf35f95908e685ad2cf90306726989e4deb6");
    let h2 = hash_password("bob", "salty", "hunter2");
    assert_eq!(h2, "615f0761ad89746900e99c365ae1445dcd60f33a77b5ea87386b612e35526745");
    assert_eq!(h.len(), 64);
}

#[test]
fn new_account_accepts_its_password_only() {
    let a = UserAccount::new(
        "bob".to_string(),
        "hunter2".to_string(),
        "10.0.0.1".to_string(),
        "salty".to_string(),
    );
    assert!(a.check_login("salty", "hunter2"));
    assert!(!a.check_login("salty", "hunter3"));
    assert!(!a.check_login("lineage", "hunter2"));
    assert_eq!(a.account_name(), "bob");
    assert_eq!(a.password(), "615f0761ad89746900e99c365ae1445dcd60f33a77b5ea87386b612e35526745");
    assert_eq!(a.ip(), "10.0.0.1");
    assert_eq!(a.host(), "10.0.0.1");
    assert_eq!(a.access(), 0);
    assert!(!a.banned());
    assert_eq!(a.slot(), 0);
    assert_eq!(a.active(), 1);
}

#[test]
fn stored_account_flags() {
    let a = UserAccount::from_stored(
        "x".to_string(),
        "y".to_string(),
        3,
        "ip".to_string(),
        "host".to_string(),
        7,
        2,
        1000,
    );
    assert!(a.banned());
    assert_eq!(a.access(), 3);
    assert_eq!(a.slot(), 2);
    assert_eq!(a.host(), "host");
    let b = UserAccount::from_stored(
        "x".to_string(),
        "y".to_string(),
        3,
        "ip".to_string(),
        "host".to_string(),
        0,
        2,
        1000,
    );
    assert!(!b.banned());
    assert!(!b.check_login("lineage", "y"));
}
