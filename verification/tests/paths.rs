use bile::utils::paths::{extension, file_name, is_below, is_within, join};

#[test]
fn join_puts_one_separator_between_root_and_name() {
    assert_eq!(join("/srv/repos", "project"), "/srv/repos/project");
    assert_eq!(join("/srv/repos/", "project"), "/srv/repos/project");
    assert_eq!(join("/", "project"), "/project");
    assert_eq!(join("", "project"), "project");
    assert_eq!(join("/srv/repos", ""), "/srv/repos/");
    assert_eq!(join("/srv/repos", "../etc"), "/srv/repos/../etc");
    // An absolute name does not replace the root.
    assert_eq!(join("/srv/repos", "/etc"), "/srv/repos//etc");
}

#[test]
fn within_holds_for_the_root_and_for_what_lies_below() {
    assert!(is_within("/srv/repos", "/srv/repos"));
    assert!(is_within("/srv/repos", "/srv/repos/project"));
    assert!(is_within("/srv/repos", "/srv/repos/project/.git"));
    assert!(is_within("/srv/repos/", "/srv/repos/project"));
    assert!(is_within("/", "/srv"));
    assert!(!is_within("/srv/repos", "/srv/repos-private"));
    assert!(!is_within("/srv/repos", "/srv/repo"));
    assert!(!is_within("/srv/repos", "/srv"));
    assert!(!is_within("/srv/repos", "/etc/passwd"));
    assert!(!is_within("", "/srv/repos"));
    assert!(!is_within("./repos", "/srv/repos/project"));
}

#[test]
fn below_holds_for_what_lies_below_and_not_for_the_root() {
    assert!(is_below("/srv/repos", "/srv/repos/project"));
    assert!(is_below("/srv/repos/", "/srv/repos/project"));
    assert!(is_below("/", "/srv"));
    assert!(!is_below("/srv/repos", "/srv/repos"));
    assert!(!is_below("/srv/repos", "/srv/repos/"));
    assert!(!is_below("/srv/repos", "/srv/repos//"));
    assert!(!is_below("/", "/"));
    assert!(!is_below("/srv/repos", "/srv/repos-private/project"));
    assert!(!is_below("/srv/repos", "/srv"));
    assert!(!is_below("/srv/repos", "/"));
    assert!(!is_below("", "/srv"));
}

#[test]
fn file_name_is_the_last_component() {
    assert_eq!(file_name("/srv/repos/project").as_deref(), Some("project"));
    assert_eq!(file_name("/srv/repos/project/").as_deref(), Some("project"));
    assert_eq!(file_name("/srv/repos/project.git//").as_deref(), Some("project.git"));
    assert_eq!(file_name("project").as_deref(), Some("project"));
    assert_eq!(file_name("/").as_deref(), None);
    assert_eq!(file_name("").as_deref(), None);
    assert_eq!(file_name("///").as_deref(), None);
}

#[test]
fn extension_is_what_follows_the_last_dot_of_the_file_name() {
    assert_eq!(extension("src/main.rs").as_deref(), Some("rs"));
    assert_eq!(extension("archive.tar.gz").as_deref(), Some("gz"));
    assert_eq!(extension("dir.d/file").as_deref(), None);
    assert_eq!(extension("Makefile").as_deref(), None);
    assert_eq!(extension(".gitignore").as_deref(), None);
    assert_eq!(extension(".config.toml").as_deref(), Some("toml"));
    assert_eq!(extension("name.").as_deref(), Some(""));
    assert_eq!(extension("").as_deref(), None);
    for path in ["src/main.rs", "a.tar.gz", "dir.d/file", "Makefile", ".gitignore", "a/b/.c.d"] {
        let std_ext = std::path::Path::new(path).extension().and_then(|e| e.to_str());
        assert_eq!(extension(path).as_deref(), std_ext, "extension of {path:?}");
    }
}
