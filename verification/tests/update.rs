use lineage_server::config::{MainConfiguration, MysqlConfig, ServerConfiguration};
use lineage_server::player::Player;
use lineage_server::update::{
    gz_stem, is_new_cs_file, sprite_name, update_file_path, UpdateFileSet, UpdateFiles,
};

#[test]
fn update_file_names() {
    assert_eq!(gz_stem("a.gz"), Some("a".to_string()));
    assert_eq!(gz_stem("a.gz.gz"), Some("a".to_string()));
    assert_eq!(gz_stem(".gz"), Some("".to_string()));
    assert_eq!(gz_stem("a.txt"), None);
    assert_eq!(gz_stem("gz"), None);
    assert!(is_new_cs_file("newcs"));
    assert!(!is_new_cs_file("newcs.gz"));
    assert_eq!(sprite_name("x.spr"), "sprite/x.spr");
    assert_eq!(update_file_path(1234, "x.spr"), "./update-files/1234/x.spr.gz");
}

#[test]
fn update_versions() {
    let mut u = UpdateFiles::new();
    assert!(u.lookup(5).is_none());
    u.insert(5, UpdateFileSet { files: vec!["a".into()], new_cs: 6 });
    assert_eq!(u.lookup(5).unwrap().new_cs, 6);
    assert!(u.lookup(6).is_none());
}

#[test]
fn configuration() {
    let c = MainConfiguration {
        db: MysqlConfig {
            password: "pw".into(),
            username: "lin".into(),
            dbname: "l1jdb".into(),
            url: "localhost".into(),
        },
        config: ServerConfiguration {
            automatic_account_creation: true,
            account_creation_salt: "s".into(),
        },
    };
    assert_eq!(c.mysql_url(), "mysql://lin:pw@localhost/l1jdb");
    assert_eq!(ServerConfiguration::news_from(Some("hi".into())), "hi");
    assert_eq!(ServerConfiguration::news_from(None), "");
}

#[test]
fn players() {
    let p = Player::new().unwrap();
    assert_eq!(p.name, "bob");
    assert_eq!(p.id, None);
    assert!(Player::valid_name("x".into()));
    assert!(!Player::valid_name(String::new()));
}
