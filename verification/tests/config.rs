use bile::config::Config;
use bile::{config, set_config, ConfigCell};

#[test]
fn defaults_are_the_documented_ones() {
    let c = Config::default();
    assert_eq!(c.port, 80);
    assert_eq!(c.project_root, "./repos");
    assert_eq!(c.site_name, "bile");
    assert_eq!(c.export_ok, "git-daemon-export-ok");
    assert_eq!(c.clone_base, "");
    assert_eq!(c.log_per_page, 100);
}

#[test]
fn the_cell_hands_back_what_was_set() {
    let mut cell = ConfigCell::new();
    assert!(!cell.is_set());
    let mut c = Config::default();
    c.port = 8080;
    set_config(&mut cell, c);
    assert!(cell.is_set());
    assert_eq!(config(&cell).port, 8080);
}

#[test]
fn finalize_resolves_the_root_and_keeps_the_rest() {
    let mut c = Config::default();
    c.project_root = "/tmp/.".to_string();
    c.site_name = "forge".to_string();
    c.log_per_page = 7;
    let resolved = c.finalize().unwrap();
    assert!(!resolved.project_root.ends_with("/."));
    assert!(resolved.project_root.starts_with('/'));
    assert_eq!(resolved.site_name, "forge");
    assert_eq!(resolved.log_per_page, 7);
    assert_eq!(resolved.port, 80);
    assert_eq!(resolved.export_ok, "git-daemon-export-ok");
}

#[test]
fn finalize_fails_where_the_root_is_not_there() {
    let mut c = Config::default();
    c.project_root = "/tmp/bile-tests-no-such-root/anywhere".to_string();
    let error = c.finalize().unwrap_err();
    assert_eq!(error.kind(), bile::utils::error::ErrorKind::Path);
    assert_eq!(error.depth(), 0);
}

#[test]
fn rooted_at_changes_the_root_alone() {
    let c = Config::default().rooted_at("/srv/git".to_string());
    assert_eq!(c.project_root, "/srv/git");
    assert_eq!(c.port, 80);
    assert_eq!(c.site_name, "bile");
}
