use bile::utils::extractor::{
    check_commit, check_name, check_text, commit_checks, get_param, repo_name_checks, Commit, Obj,
    ObjectName, Ref, RepoName, Tag,
};
use bile::utils::response::NOT_FOUND;
use bile::utils::Error;

fn message(error: &Error) -> &str {
    match error {
        Error::Custom { message, .. } => message,
        Error::Failure { .. } => panic!("a failure where a message was expected"),
    }
}

#[test]
fn names_must_not_be_empty_nor_begin_with_a_dot() {
    assert!(check_name("project"));
    assert!(check_name("a.b"));
    assert!(check_name("main~3"));
    assert!(!check_name(""));
    assert!(!check_name(".git"));
    assert!(!check_name(".."));
    assert!(!check_name("."));
}

#[test]
fn commits_are_lower_case_hexadecimal() {
    assert!(check_commit("0123456789abcdef"));
    assert!(check_commit("a"));
    assert!(!check_commit(""));
    assert!(!check_commit("ABCDEF"));
    assert!(!check_commit("abcg"));
    assert!(!check_commit("main"));
    assert!(!check_commit("12 34"));
    assert!(!check_commit("12~1"));
    assert!(!check_commit("é"));
}

#[test]
fn texts_must_not_be_empty() {
    assert!(check_text("x"));
    assert!(check_text(" "));
    assert!(!check_text(""));
}

#[test]
fn parsing_sets_white_space_aside_first() {
    assert_eq!(RepoName::parse("  project \n".to_string()).unwrap().0, "project");
    assert_eq!(RepoName::parse("\u{a0}\u{2003}x\u{3000}".to_string()).unwrap().0, "x");
    assert_eq!(RepoName::parse("a b".to_string()).unwrap().0, "a b");
    assert_eq!(RepoName::parse("   ".to_string()).unwrap_err(), "invalid repo name");
    assert_eq!(RepoName::parse("".to_string()).unwrap_err(), "invalid repo name");
    assert_eq!(RepoName::parse(" .hidden".to_string()).unwrap_err(), "invalid repo name");

    assert_eq!(Ref::parse(" main ".to_string()).unwrap().0, "main");
    assert_eq!(Ref::parse(".main".to_string()).unwrap_err(), "invalid ref");
    assert_eq!(Ref::parse("\t".to_string()).unwrap_err(), "invalid ref");

    assert_eq!(Commit::parse(" 1a2b3c ".to_string()).unwrap().0, "1a2b3c");
    assert_eq!(Commit::parse("1A2B3C".to_string()).unwrap_err(), "invalid commit ref");
    assert_eq!(Commit::parse("".to_string()).unwrap_err(), "invalid commit ref");
    assert_eq!(Commit::parse(".1a".to_string()).unwrap_err(), "invalid commit ref");
    assert_eq!(Commit::parse("1a 2b".to_string()).unwrap_err(), "invalid commit ref");

    assert_eq!(Obj::parse(" objects/ab/cd ".to_string()).unwrap().0, "objects/ab/cd");
    assert_eq!(Obj::parse(" ".to_string()).unwrap_err(), "invalid object ref");
    assert_eq!(ObjectName::parse(" src/.hidden ".to_string()).unwrap().0, "src/.hidden");
    assert_eq!(ObjectName::parse("".to_string()).unwrap_err(), "invalid object name");
    assert_eq!(Tag::parse(" v1.0 ".to_string()).unwrap().0, "v1.0");
    assert_eq!(Tag::parse("\n".to_string()).unwrap_err(), "invalid tag");
}

#[test]
fn a_parameter_that_is_missing_or_invalid_is_answered_with_not_found() {
    assert_eq!(Commit::from_param(Some("abc123")).unwrap().as_str(), "abc123");
    let error = Commit::from_param(None).unwrap_err();
    assert_eq!(error.status(), 404);
    assert_eq!(message(&error), "page not found");
    let error = Commit::from_param(Some("")).unwrap_err();
    assert_eq!(error.status(), NOT_FOUND);
    assert_eq!(message(&error), "commit does not exist in repo");
    assert_eq!(message(&Commit::from_param(Some("xyz")).unwrap_err()), "commit does not exist in repo");

    assert_eq!(Obj::from_param(Some("info/refs")).unwrap().as_str(), "info/refs");
    assert_eq!(message(&Obj::from_param(Some("")).unwrap_err()), "object does not exist in repo");
    assert_eq!(message(&Obj::from_param(None).unwrap_err()), "page not found");

    assert_eq!(ObjectName::from_param(Some("src/lib.rs")).unwrap().as_str(), "src/lib.rs");
    assert_eq!(
        message(&ObjectName::from_param(Some("")).unwrap_err()),
        "object does not exist in repo"
    );

    assert_eq!(Ref::from_param(Some("main")).unwrap().as_str(), "main");
    assert_eq!(message(&Ref::from_param(Some("")).unwrap_err()), "ref does not exist in repo");
    assert_eq!(message(&Ref::from_param(Some(".x")).unwrap_err()), "ref does not exist in repo");

    assert_eq!(RepoName::from_param(Some("project")).unwrap().as_str(), "project");
    assert_eq!(message(&RepoName::from_param(Some("")).unwrap_err()), "repo does not exist");
    assert_eq!(message(&RepoName::from_param(Some("..")).unwrap_err()), "repo does not exist");
    assert_eq!(message(&RepoName::from_param(None).unwrap_err()), "page not found");

    assert_eq!(Tag::from_param(Some("v1")).unwrap().as_str(), "v1");
    assert_eq!(message(&Tag::from_param(Some("")).unwrap_err()), "tag does not exist in repo");
}

#[test]
fn the_checks_pass_what_parsing_accepts() {
    assert!(repo_name_checks("project").is_ok());
    assert!(repo_name_checks("  project  ").is_ok());
    assert_eq!(repo_name_checks("").unwrap_err().status(), 404);
    assert_eq!(repo_name_checks("   ").unwrap_err().status(), 404);
    assert!(repo_name_checks(".git").is_err());
    assert!(commit_checks("deadbeef").is_ok());
    assert!(commit_checks(" deadbeef\n").is_ok());
    assert_eq!(commit_checks("").unwrap_err().status(), 404);
    assert!(commit_checks("dead beef").is_err());
    assert!(commit_checks("HEAD").is_err());
}

#[test]
fn get_param_finds_the_first_parameter_of_a_name() {
    let params = vec![
        ("repo_name".to_string(), "project".to_string()),
        ("ref".to_string(), "main".to_string()),
        ("ref".to_string(), "other".to_string()),
    ];
    assert_eq!(get_param(&params, "repo_name"), Some("project"));
    assert_eq!(get_param(&params, "ref"), Some("main"));
    assert_eq!(get_param(&params, "tag"), None);
    assert_eq!(get_param(&params, ""), None);
    assert_eq!(get_param(&Vec::new(), "ref"), None);
}
