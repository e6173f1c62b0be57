use bile::config::Config;
use bile::utils::error::ErrorKind;
use bile::utils::git::info::ReadmeFormat;
use bile::utils::git::tree::TreeItem;
use bile::utils::git::{Repository, TagEntry};
use bile::utils::blob_mime;

/// A directory of its own for one test, below a root of its own.
fn scratch(test: &str) -> String {
    let stamp = std::time::SystemTime::now()
        .duration_since(std::time::UNIX_EPOCH)
        .unwrap()
        .as_nanos();
    format!("/tmp/bile-tests-{stamp}-{test}")
}

fn signature(seconds: i64) -> git2::Signature<'static> {
    git2::Signature::new("Ada", "ada@example.org", &git2::Time::new(seconds, 60)).unwrap()
}

/// Creates the repository `name` below `root`, with `main` as its branch.
fn init(root: &str, name: &str) -> git2::Repository {
    let mut options = git2::RepositoryInitOptions::new();
    options.initial_head("main");
    git2::Repository::init_opts(format!("{root}/{name}"), &options).unwrap()
}

/// Marks the repository as exported.
fn export(repo: &git2::Repository) {
    let marker = repo.path().join("git-daemon-export-ok");
    let mut file = git2::Config::open(&marker).unwrap();
    file.set_str("exported.by", "test").unwrap();
    assert!(marker.exists());
}

/// Commits `files` as the whole tree, on top of `parents`, and moves `main`
/// there.
fn commit(
    repo: &git2::Repository,
    files: &[(&str, &str)],
    parents: &[git2::Oid],
    seconds: i64,
    message: &str,
) -> git2::Oid {
    let mut builder = repo.treebuilder(None).unwrap();
    for (name, content) in files {
        let blob = repo.blob(content.as_bytes()).unwrap();
        builder.insert(name, blob, 0o100644).unwrap();
    }
    let tree = repo.find_tree(builder.write().unwrap()).unwrap();
    let parents: Vec<git2::Commit<'_>> =
        parents.iter().map(|id| repo.find_commit(*id).unwrap()).collect();
    let parents: Vec<&git2::Commit<'_>> = parents.iter().collect();
    let who = signature(seconds);
    let id = repo.commit(None, &who, &who, message, &tree, &parents).unwrap();
    repo.reference("refs/heads/main", id, true, "test").unwrap();
    id
}

/// Puts a file with `content`, or with mode 0o120000 a symbolic link to
/// `content`, under `name` into `dir`.
fn put(repo: &git2::Repository, dir: &std::path::Path, name: &str, content: &str, mode: i32) {
    let blob = repo.blob(content.as_bytes()).unwrap();
    let mut builder = repo.treebuilder(None).unwrap();
    builder.insert(name, blob, mode).unwrap();
    let tree = repo.find_tree(builder.write().unwrap()).unwrap();
    let mut checkout = git2::build::CheckoutBuilder::new();
    checkout.target_dir(dir).force().update_index(false);
    repo.checkout_tree(tree.as_object(), Some(&mut checkout)).unwrap();
    assert!(dir.join(name).symlink_metadata().is_ok());
}

fn config(root: &str) -> Config {
    let mut config = Config::default();
    config.project_root = root.to_string();
    config.finalize().unwrap()
}

/// A repository with five commits in a line, one hour apart, exported.
/// Commits 1, 3 and 5 change `a.txt`; commits 2 and 4 change `b.txt`; `a.txt`
/// is there from the first commit on.
fn linear(root: &str, name: &str) -> Vec<git2::Oid> {
    let repo = init(root, name);
    export(&repo);
    let c1 = commit(&repo, &[("a.txt", "1")], &[], 1_000_000, "one");
    let c2 = commit(&repo, &[("a.txt", "1"), ("b.txt", "1")], &[c1], 1_003_600, "two");
    let c3 = commit(&repo, &[("a.txt", "2"), ("b.txt", "1")], &[c2], 1_007_200, "three");
    let c4 = commit(&repo, &[("a.txt", "2"), ("b.txt", "2")], &[c3], 1_010_800, "four");
    let c5 = commit(&repo, &[("a.txt", "3"), ("b.txt", "2")], &[c4], 1_014_400, "five");
    vec![c1, c2, c3, c4, c5]
}

fn ids(commits: &[git2::Commit<'_>]) -> Vec<git2::Oid> {
    commits.iter().map(|c| c.id()).collect()
}

#[test]
fn open_answers_none_for_a_name_that_is_not_there() {
    let root = scratch("open-missing");
    let _ = init(&root, "there");
    let config = config(&root);
    assert!(Repository::open(&config, "not-there").unwrap().is_none());
}

#[test]
fn open_answers_none_without_the_marker_and_some_with_it() {
    let root = scratch("open-marker");
    let hidden = init(&root, "hidden");
    let shown = init(&root, "shown");
    export(&shown);
    let config = config(&root);
    assert!(Repository::open(&config, "hidden").unwrap().is_none());
    assert!(Repository::open(&config, "missing").unwrap().is_none());
    let repo = Repository::open(&config, "shown").unwrap().unwrap();
    assert_eq!(repo.location(), format!("{}/shown", config.project_root));
    assert_eq!(repo.root(), config.project_root);
    assert_eq!(repo.name().as_deref(), Some("shown"));
    drop(hidden);
}

#[test]
fn open_answers_none_for_the_root_and_for_what_lies_outside() {
    let root = scratch("open-outside");
    let outside = init(&root, "outside");
    export(&outside);
    let inner_root = format!("{root}/inner");
    let inside = init(&inner_root, "repo");
    export(&inside);
    let config = config(&inner_root);
    assert!(Repository::open(&config, "repo").unwrap().is_some());
    assert!(Repository::open(&config, "").unwrap().is_none());
    assert!(Repository::open(&config, ".").unwrap().is_none());
    assert!(Repository::open(&config, "..").unwrap().is_none());
    assert!(Repository::open(&config, "../outside").unwrap().is_none());
    assert!(Repository::open(&config, "repo/../../outside").unwrap().is_none());
    assert!(Repository::open(&config, "repo/..").unwrap().is_none());
    // A name that goes up and comes back down resolves to a place below the
    // root, and is served.
    assert!(Repository::open(&config, "repo/../repo").unwrap().is_some());
}

#[test]
fn open_answers_none_for_a_directory_that_is_no_repository() {
    let root = scratch("open-plain");
    let repo = init(&root, "repo");
    let config = config(&root);
    // `repo/.git/refs` is a directory below the root that holds no repository.
    assert!(Repository::open(&config, "repo/.git/refs").unwrap().is_none());
    drop(repo);
}

#[test]
fn commits_of_a_linear_history_come_newest_first_and_stop_at_the_amount() {
    let root = scratch("commits-linear");
    let made = linear(&root, "repo");
    let config = config(&root);
    let repo = Repository::open(&config, "repo").unwrap().unwrap();
    for amount in 0..8usize {
        let commits = repo.commits("main", amount).unwrap().unwrap();
        assert_eq!(commits.len(), amount.min(5));
        let expected: Vec<git2::Oid> = made.iter().rev().take(amount).copied().collect();
        assert_eq!(ids(&commits), expected);
        for pair in commits.windows(2) {
            assert!(pair[0].time().seconds() >= pair[1].time().seconds());
        }
    }
    assert!(repo.commits("no-such-branch", 3).unwrap().is_none());
    let from_third = repo.commits("main~2", 10).unwrap().unwrap();
    assert_eq!(ids(&from_third), vec![made[2], made[1], made[0]]);
}

#[test]
fn commits_for_obj_keeps_the_commits_that_touched_the_path() {
    let root = scratch("commits-path");
    let made = linear(&root, "repo");
    let config = config(&root);
    let repo = Repository::open(&config, "repo").unwrap().unwrap();
    let a = repo.commits_for_obj("main", 10, Some("a.txt")).unwrap().unwrap();
    assert_eq!(ids(&a), vec![made[4], made[2], made[0]]);
    let b = repo.commits_for_obj("main", 10, Some("b.txt")).unwrap().unwrap();
    assert_eq!(ids(&b), vec![made[3], made[1]]);
    let first_of_a = repo.commits_for_obj("main", 2, Some("a.txt")).unwrap().unwrap();
    assert_eq!(ids(&first_of_a), vec![made[4], made[2]]);
    let none = repo.commits_for_obj("main", 10, Some("c.txt")).unwrap().unwrap();
    assert!(none.is_empty());
    let all = repo.commits_for_obj("main", 10, None).unwrap().unwrap();
    assert_eq!(all.len(), 5);
    // A path that cannot be handed to the store restricts nothing.
    let unrestricted = repo.commits_for_obj("main", 10, Some("a\0b")).unwrap().unwrap();
    assert_eq!(unrestricted.len(), 5);
    assert!(repo.commits_for_obj("nowhere", 10, Some("a.txt")).unwrap().is_none());
}

#[test]
fn file_last_commit_is_the_newest_commit_that_touched_the_path() {
    let root = scratch("last-commit");
    let made = linear(&root, "repo");
    let config = config(&root);
    let repo = Repository::open(&config, "repo").unwrap().unwrap();
    assert_eq!(repo.file_last_commit("main", "a.txt").unwrap().unwrap().id(), made[4]);
    assert_eq!(repo.file_last_commit("main", "b.txt").unwrap().unwrap().id(), made[3]);
    assert_eq!(repo.file_last_commit("main~1", "a.txt").unwrap().unwrap().id(), made[2]);
    assert_eq!(repo.file_last_commit("main~4", "a.txt").unwrap().unwrap().id(), made[0]);
    assert!(repo.file_last_commit("nowhere", "a.txt").unwrap().is_none());
    let missing = repo.file_last_commit("main", "c.txt").unwrap_err();
    assert_eq!(missing.kind(), ErrorKind::Missing);
    assert_eq!(missing.headline(), "file was not part of any commit");
    assert!(repo.file_last_commit("main", "a\0b").is_err());
}

#[test]
fn the_log_is_cut_into_pages_that_lead_to_one_another() {
    let root = scratch("log-pages");
    let made = linear(&root, "repo");
    let config = config(&root);
    let repo = Repository::open(&config, "repo").unwrap().unwrap();

    let first = repo.log_page(None, None, 2).unwrap().unwrap();
    assert_eq!(first.branch, "main");
    assert_eq!(ids(&first.commits), vec![made[4], made[3]]);
    assert_eq!(first.next_page.as_deref(), Some("main~2"));

    let second = repo.log_page(Some("main~2"), None, 2).unwrap().unwrap();
    assert_eq!(second.branch, "main~2");
    assert_eq!(ids(&second.commits), vec![made[2], made[1]]);
    assert_eq!(second.next_page.as_deref(), Some("main~4"));

    let third = repo.log_page(Some("main~4"), None, 2).unwrap().unwrap();
    assert_eq!(ids(&third.commits), vec![made[0]]);
    assert_eq!(third.next_page, None);

    // Exactly as many commits as fit on the page: no next page.
    let whole = repo.log_page(Some("main"), None, 5).unwrap().unwrap();
    assert_eq!(whole.commits.len(), 5);
    assert_eq!(whole.next_page, None);
    // One more than fits: a next page.
    let nearly = repo.log_page(Some("main"), None, 4).unwrap().unwrap();
    assert_eq!(nearly.commits.len(), 4);
    assert_eq!(nearly.next_page.as_deref(), Some("main~4"));

    let of_a = repo.log_page(Some("main"), Some("a.txt"), 2).unwrap().unwrap();
    assert_eq!(ids(&of_a.commits), vec![made[4], made[2]]);
    assert_eq!(of_a.next_page.as_deref(), Some("main~2"));

    assert!(repo.log_page(Some("nowhere"), None, 2).unwrap().is_none());

    // A spec that does not end in a count has the page appended to the whole
    // of it, so that the pages follow one another.
    let parent = repo.log_page(Some("main~1^"), None, 2).unwrap().unwrap();
    assert_eq!(parent.branch, "main~1^");
    assert_eq!(ids(&parent.commits), vec![made[2], made[1]]);
    assert_eq!(parent.next_page.as_deref(), Some("main~1^~2"));
    let behind = repo.log_page(Some("main~1^~2"), None, 2).unwrap().unwrap();
    assert_eq!(ids(&behind.commits), vec![made[0]]);
    assert_eq!(behind.next_page, None);
}

#[test]
fn commit_diff_of_a_merge_is_the_difference_to_the_first_parent() {
    let root = scratch("diff-merge");
    let repo = init(&root, "repo");
    export(&repo);
    let base = commit(&repo, &[("base.txt", "0")], &[], 1_000_000, "base");
    let left = commit(&repo, &[("base.txt", "0"), ("left.txt", "l")], &[base], 1_000_100, "left");
    let right =
        commit(&repo, &[("base.txt", "0"), ("right.txt", "r")], &[base], 1_000_200, "right");
    let merge = commit(
        &repo,
        &[("base.txt", "0"), ("left.txt", "l"), ("right.txt", "r")],
        &[left, right],
        1_000_300,
        "merge",
    );
    let config = config(&root);
    let opened = Repository::open(&config, "repo").unwrap().unwrap();

    let merged = opened.commit(&merge.to_string()).unwrap().unwrap();
    let diff = opened.commit_diff(&merged).unwrap();
    let paths: Vec<String> = diff
        .deltas()
        .map(|d| d.new_file().path().unwrap().to_str().unwrap().to_string())
        .collect();
    // Against the first parent only `right.txt` is new; against the second
    // it would be `left.txt`.
    assert_eq!(paths, vec!["right.txt".to_string()]);
    assert_eq!(opened.commit_stats(&merged).unwrap().files_changed(), 1);

    let root_commit = opened.commit(&base.to_string()).unwrap().unwrap();
    let initial = opened.commit_diff(&root_commit).unwrap();
    assert_eq!(initial.deltas().len(), 1);
    assert_eq!(initial.stats().unwrap().insertions(), 1);
}

#[test]
fn commit_diff_marks_a_moved_file_as_renamed() {
    let root = scratch("diff-rename");
    let repo = init(&root, "repo");
    export(&repo);
    let text = "one\ntwo\nthree\nfour\nfive\nsix\nseven\neight\n";
    let first = commit(&repo, &[("old.txt", text)], &[], 1_000_000, "first");
    let second = commit(&repo, &[("new.txt", text)], &[first], 1_000_100, "second");
    let config = config(&root);
    let opened = Repository::open(&config, "repo").unwrap().unwrap();
    let moved = opened.commit(&second.to_string()).unwrap().unwrap();
    let diff = opened.commit_diff(&moved).unwrap();
    let kinds: Vec<git2::Delta> = diff.deltas().map(|d| d.status()).collect();
    assert_eq!(kinds, vec![git2::Delta::Renamed]);
}

#[test]
fn the_patch_of_a_commit_shows_what_was_added_and_removed() {
    let root = scratch("patch");
    let repo = init(&root, "repo");
    export(&repo);
    let before = "one\ntwo\nthree\nfour\nfive\nsix\nseven\neight\nnine\nten\n";
    let after = "one\ntwo\nthree\nfour\nfive\n6\nseven\neight\nnine\nten\n";
    let first = commit(&repo, &[("a.txt", before)], &[], 1_000_000, "first");
    let second = commit(&repo, &[("a.txt", after)], &[first], 1_000_100, "second");
    let config = config(&root);
    let opened = Repository::open(&config, "repo").unwrap().unwrap();
    let changed = opened.commit(&second.to_string()).unwrap().unwrap();
    let patch = bile::utils::git::commit::patch_text(&opened.commit_diff(&changed).unwrap());
    assert!(patch.starts_with("diff --git a/a.txt b/a.txt\n"), "{patch}");
    assert!(patch.contains("--- a/a.txt\n+++ b/a.txt\n"), "{patch}");
    assert!(patch.contains(" five\n-six\n+6\n seven\n"), "{patch}");

    let initial = opened.commit(&first.to_string()).unwrap().unwrap();
    let patch = bile::utils::git::commit::patch_text(&opened.commit_diff(&initial).unwrap());
    assert!(patch.contains("--- /dev/null\n+++ b/a.txt\n@@ -0,0 +1,10 @@\n+one\n+two\n"), "{patch}");
}

#[test]
fn commit_resolves_specs_and_answers_none_for_what_is_no_commit() {
    let root = scratch("commit-spec");
    let made = linear(&root, "repo");
    let config = config(&root);
    let repo = Repository::open(&config, "repo").unwrap().unwrap();
    assert_eq!(repo.commit("main").unwrap().unwrap().id(), made[4]);
    assert_eq!(repo.commit("HEAD").unwrap().unwrap().id(), made[4]);
    assert_eq!(repo.commit("main~1").unwrap().unwrap().id(), made[3]);
    assert_eq!(repo.commit("main^").unwrap().unwrap().id(), made[3]);
    assert_eq!(repo.commit(&made[1].to_string()).unwrap().unwrap().id(), made[1]);
    assert_eq!(repo.commit(&made[1].to_string()[..8]).unwrap().unwrap().id(), made[1]);
    assert!(repo.commit("no-such-thing").unwrap().is_none());
    assert!(repo.commit("main~9").unwrap().is_none());
    assert!(repo.commit("").unwrap().is_none());
    assert!(repo.commit("a\0b").unwrap().is_none());
    // A blob is something, but no commit.
    assert!(repo.commit("main:a.txt").unwrap().is_none());
    // A tree peels to no commit either.
    assert!(repo.commit("main^{tree}").unwrap().is_none());

    let (commit, tree) = repo.commit_tree("main").unwrap().unwrap();
    assert_eq!(commit.id(), made[4]);
    assert_eq!(tree.len(), 2);
    assert!(repo.commit_tree("nowhere").unwrap().is_none());
}

#[test]
fn tags_are_listed_with_their_message_and_signature() {
    let root = scratch("tags");
    let repo = init(&root, "repo");
    export(&repo);
    let first = commit(&repo, &[("a.txt", "1")], &[], 1_000_000, "one");
    let second = commit(&repo, &[("a.txt", "2")], &[first], 1_003_600, "two");
    let first_object = repo.find_object(first, None).unwrap();
    let second_object = repo.find_object(second, None).unwrap();
    repo.tag_lightweight("light", &first_object, false).unwrap();
    repo.tag("heavy", &second_object, &signature(2_000_000), "a release\n", false).unwrap();
    // A tag object without a tagger, written by hand.
    let raw = format!("object {second}\ntype commit\ntag bare\n\nno tagger here\n");
    let bare = repo.odb().unwrap().write(git2::ObjectType::Tag, raw.as_bytes()).unwrap();
    repo.reference("refs/tags/bare", bare, false, "test").unwrap();
    // A tag that points at a file.
    let blob = repo.blob(b"just a file").unwrap();
    repo.reference("refs/tags/file", blob, false, "test").unwrap();

    let config = config(&root);
    let opened = Repository::open(&config, "repo").unwrap().unwrap();
    let mut tags = opened.tag_entries().unwrap();
    tags.sort_by(|a, b| a.tag.cmp(&b.tag));
    let names: Vec<&str> = tags.iter().map(|t| t.tag.as_str()).collect();
    assert_eq!(names, vec!["bare", "heavy", "light"]);

    let bare = &tags[0];
    assert_eq!(bare.link, "refs/bare");
    assert_eq!(bare.message, "no tagger here\n");
    assert_eq!(bare.signature.when().seconds(), 1_003_600);
    assert_eq!(bare.signature.name(), Ok("Ada"));

    let heavy = &tags[1];
    assert_eq!(heavy.link, "refs/heavy");
    assert_eq!(heavy.message, "a release\n");
    assert_eq!(heavy.signature.when().seconds(), 2_000_000);

    let light = &tags[2];
    assert_eq!(light.link, "refs/light");
    assert_eq!(light.message, "");
    assert_eq!(light.signature.when().seconds(), 1_000_000);
    assert_eq!(light.signature.email(), Ok("ada@example.org"));

    // What an object is decides, not what it is asked to be.
    let commit_object = repo.find_object(first, None).unwrap();
    let tag_object = repo.revparse_single("refs/tags/heavy").unwrap();
    let blob_object = repo.find_object(blob, None).unwrap();
    let as_light = TagEntry::try_from_commit("x".to_string(), &commit_object).ok().unwrap();
    assert_eq!((as_light.tag.as_str(), as_light.message.as_str()), ("x", ""));
    assert_eq!(as_light.signature.when().seconds(), 1_000_000);
    for wrong in [&tag_object, &blob_object] {
        let error = TagEntry::try_from_commit("x".to_string(), wrong).err().unwrap();
        assert_eq!((error.kind(), error.depth()), (ErrorKind::Missing, 0));
        assert_eq!(error.message(), "git object is not a commit");
    }
    let as_heavy = TagEntry::try_from_tag("y".to_string(), &tag_object).ok().unwrap();
    assert_eq!((as_heavy.tag.as_str(), as_heavy.message.as_str()), ("y", "a release\n"));
    assert_eq!(as_heavy.signature.when().seconds(), 2_000_000);
    for wrong in [&commit_object, &blob_object] {
        let error = TagEntry::try_from_tag("y".to_string(), wrong).err().unwrap();
        assert_eq!((error.kind(), error.depth()), (ErrorKind::Missing, 0));
        assert_eq!(error.message(), "git object is not a tag");
    }
    let untagged = repo.revparse_single("refs/tags/bare").unwrap();
    let as_bare = TagEntry::try_from_tag("z".to_string(), &untagged).ok().unwrap();
    assert_eq!(as_bare.message, "no tagger here\n");
    assert_eq!(as_bare.signature.when().seconds(), 1_003_600);
    // Neither a commit nor a tag object is a tree or a file.
    assert!(Repository::tree_item(repo.find_object(first, None).unwrap()).is_none());
    assert!(Repository::tree_item(repo.revparse_single("refs/tags/heavy").unwrap()).is_none());

    assert_eq!(opened.tag("heavy").unwrap().name(), Ok("heavy"));
    assert!(opened.tag("light").is_err());
    assert!(opened.tag("nothing").is_err());
}

#[test]
fn a_readme_without_extension_wins_over_one_in_markdown() {
    let root = scratch("readme-plain");
    let repo = init(&root, "repo");
    export(&repo);
    commit(
        &repo,
        &[("readme", "a <b> & \"c\" 'd'"), ("readme.md", "# title"), ("readme.html", "<p>x</p>")],
        &[],
        1_000_000,
        "one",
    );
    let config = config(&root);
    let opened = Repository::open(&config, "repo").unwrap().unwrap();
    let readme = opened.readme().unwrap();
    assert_eq!(readme.format, ReadmeFormat::Plaintext);
    assert_eq!(readme.body, "<pre>a &#60;b&#62; &#38; &#34;c&#34; &#39;d&#39;</pre>");
}

#[test]
fn a_readme_in_markdown_is_handed_on_and_one_in_html_is_taken_as_it_is() {
    let root = scratch("readme-formats");
    let markdown = init(&root, "markdown");
    export(&markdown);
    commit(&markdown, &[("readme.md", "# title"), ("readme.html", "<p>x</p>")], &[], 1, "one");
    let html = init(&root, "html");
    export(&html);
    commit(&html, &[("README.htm", "<p>x & y</p>")], &[], 1, "one");
    let none = init(&root, "none");
    export(&none);
    commit(&none, &[("README", "not a name that is tried")], &[], 1, "one");
    let text = init(&root, "text");
    export(&text);
    commit(&text, &[("README.txt", "x < y")], &[], 1, "one");

    let config = config(&root);
    let readme = Repository::open(&config, "markdown").unwrap().unwrap().readme().unwrap();
    assert_eq!((readme.format, readme.body.as_str()), (ReadmeFormat::Markdown, "# title"));
    let readme = Repository::open(&config, "html").unwrap().unwrap().readme().unwrap();
    assert_eq!((readme.format, readme.body.as_str()), (ReadmeFormat::Html, "<p>x & y</p>"));
    assert!(Repository::open(&config, "none").unwrap().unwrap().readme().is_none());
    let readme = Repository::open(&config, "text").unwrap().unwrap().readme().unwrap();
    assert_eq!(
        (readme.format, readme.body.as_str()),
        (ReadmeFormat::Plaintext, "<pre>x &#60; y</pre>")
    );
}

#[test]
fn paths_in_a_tree_lead_to_trees_and_blobs() {
    let root = scratch("tree");
    let repo = init(&root, "repo");
    export(&repo);
    // A tree with a file and a directory that holds a file.
    let inner_blob = repo.blob(b"inner").unwrap();
    let mut inner = repo.treebuilder(None).unwrap();
    inner.insert("deep.txt", inner_blob, 0o100644).unwrap();
    let inner = inner.write().unwrap();
    let top_blob = repo.blob(b"top\0binary").unwrap();
    let mut top = repo.treebuilder(None).unwrap();
    top.insert("top.bin", top_blob, 0o100644).unwrap();
    top.insert("dir", inner, 0o040000).unwrap();
    let top = repo.find_tree(top.write().unwrap()).unwrap();
    let who = signature(1);
    let id = repo.commit(Some("HEAD"), &who, &who, "one", &top, &[]).unwrap();

    let config = config(&root);
    let opened = Repository::open(&config, "repo").unwrap().unwrap();
    let (commit, tree) = opened.commit_tree("HEAD").unwrap().unwrap();
    assert_eq!(commit.id(), id);

    let dir = opened.tree_object(&tree, "dir").unwrap().unwrap();
    assert!(matches!(Repository::tree_item(dir), Some(TreeItem::Tree(t)) if t.len() == 1));
    let deep = opened.tree_object(&tree, "dir/deep.txt").unwrap().unwrap();
    match Repository::tree_item(deep) {
        Some(TreeItem::Blob(blob)) => {
            assert_eq!(blob.content(), b"inner");
            assert_eq!(blob_mime(&blob, "txt"), "text/plain; charset=utf-8");
            assert_eq!(blob_mime(&blob, "image/png"), "image/png");
        }
        _ => panic!("a file was taken for something else"),
    }
    assert!(opened.tree_object(&tree, "dir/missing.txt").unwrap().is_none());
    assert!(opened.tree_object(&tree, "missing/deep.txt").unwrap().is_none());
    assert!(opened.tree_object(&tree, "").unwrap().is_none());
    assert!(opened.tree_object(&tree, "/dir").unwrap().is_none());
    assert!(opened.tree_object(&tree, "../dir").unwrap().is_none());

    let binary = opened.tree_blob(&tree, "top.bin").unwrap().unwrap();
    assert!(binary.is_binary());
    assert_eq!(blob_mime(&binary, "bin"), "application/octet-stream");
    assert_eq!(blob_mime(&binary, ""), "application/octet-stream");
    assert!(opened.tree_blob(&tree, "nothing").unwrap().is_none());
    // A directory leads to no file.
    assert!(opened.tree_blob(&tree, "dir").is_err());
}

#[test]
fn branches_are_listed_by_kind() {
    let root = scratch("branches");
    let repo = init(&root, "repo");
    export(&repo);
    let first = commit(&repo, &[("a.txt", "1")], &[], 1_000_000, "one");
    repo.reference("refs/heads/side", first, false, "test").unwrap();
    repo.reference("refs/remotes/origin/main", first, false, "test").unwrap();
    repo.reference("refs/tags/v1", first, false, "test").unwrap();
    let config = config(&root);
    let opened = Repository::open(&config, "repo").unwrap().unwrap();

    let mut all: Vec<String> =
        opened.branches().unwrap().iter().map(|r| r.shorthand().unwrap().to_string()).collect();
    all.sort();
    assert_eq!(all, vec!["main".to_string(), "side".to_string()]);

    let mut local: Vec<String> = opened
        .branches_of_type(git2::BranchType::Local)
        .unwrap()
        .iter()
        .map(|b| b.name().unwrap().unwrap().to_string())
        .collect();
    local.sort();
    assert_eq!(local, vec!["main".to_string(), "side".to_string()]);

    let tip = opened.commit("main").unwrap().unwrap();
    let mut at_tip: Vec<String> = opened
        .branches_at(&tip)
        .unwrap()
        .iter()
        .map(|b| b.name().unwrap().unwrap().to_string())
        .collect();
    at_tip.sort();
    // Both local branches end in the one commit; the remote branch and the
    // tag do not count.
    assert_eq!(at_tip, vec!["main".to_string(), "side".to_string()]);

    let remote: Vec<String> = opened
        .branches_of_type(git2::BranchType::Remote)
        .unwrap()
        .iter()
        .map(|b| b.name().unwrap().unwrap().to_string())
        .collect();
    assert_eq!(remote, vec!["origin/main".to_string()]);

    // After one more commit on `main`, only `side` ends in the first commit.
    let second = commit(&repo, &[("a.txt", "2")], &[first], 1_000_100, "two");
    let reopened = Repository::open(&config, "repo").unwrap().unwrap();
    let old_tip = reopened.commit(&first.to_string()).unwrap().unwrap();
    let at_old: Vec<String> = reopened
        .branches_at(&old_tip)
        .unwrap()
        .iter()
        .map(|b| b.name().unwrap().unwrap().to_string())
        .collect();
    assert_eq!(at_old, vec!["side".to_string()]);
    let new_tip = reopened.commit(&second.to_string()).unwrap().unwrap();
    let at_new: Vec<String> = reopened
        .branches_at(&new_tip)
        .unwrap()
        .iter()
        .map(|b| b.name().unwrap().unwrap().to_string())
        .collect();
    assert_eq!(at_new, vec!["main".to_string()]);
}

#[test]
fn a_repository_tells_its_head_its_owner_and_its_age() {
    let root = scratch("info");
    let repo = init(&root, "repo");
    export(&repo);
    let fresh = git2::Repository::init(format!("{root}/fresh")).unwrap();
    export(&fresh);
    let config = config(&root);
    {
        let empty = Repository::open(&config, "fresh").unwrap().unwrap();
        assert!(empty.is_empty().unwrap());
        assert!(!empty.is_shallow());
        assert!(empty.head().is_err());
        assert!(empty.last_modified().is_err());
        assert_eq!(empty.owner(), "");
        // Without a head there is no spec to work from, asked for or not.
        assert_eq!(empty.ref_or_head_shorthand(Some("main")).unwrap_err().kind(), ErrorKind::Store);
        assert!(empty.readme().is_none());
    }
    commit(&repo, &[("a.txt", "1")], &[], 1_234_567, "one");
    repo.config().unwrap().set_str("gitweb.owner", "Grace").unwrap();

    let opened = Repository::open(&config, "repo").unwrap().unwrap();
    assert!(!opened.is_empty().unwrap());
    assert_eq!(opened.head().unwrap().shorthand(), Ok("main"));
    assert_eq!(opened.last_modified().unwrap().seconds(), 1_234_567);
    assert_eq!(opened.owner(), "Grace");
    assert_eq!(opened.name().as_deref(), Some("repo"));
    assert_eq!(opened.path(), Some(format!("{}/repo/.git/", config.project_root)));
    assert_eq!(opened.ref_or_head_shorthand(None).unwrap(), "main");
    assert_eq!(opened.ref_or_head_shorthand(Some("side~3")).unwrap(), "side~3");
    assert_eq!(opened.as_inner().path(), repo.path());
}

#[test]
fn a_bare_repository_is_named_after_its_directory() {
    let root = scratch("bare");
    let mut options = git2::RepositoryInitOptions::new();
    options.bare(true).initial_head("main");
    let repo = git2::Repository::init_opts(format!("{root}/project.git"), &options).unwrap();
    export(&repo);
    let config = config(&root);
    let opened = Repository::open(&config, "project.git").unwrap().unwrap();
    assert_eq!(opened.name().as_deref(), Some("project.git"));
}

#[test]
fn open_answers_none_for_a_link_that_leads_out_of_the_root() {
    let root = scratch("open-link");
    let outside = init(&root, "outside");
    export(&outside);
    let inner_root = format!("{root}/inner");
    let inside = init(&inner_root, "repo");
    export(&inside);
    put(&inside, std::path::Path::new(&inner_root), "escape", "../outside", 0o120000);
    put(&inside, std::path::Path::new(&inner_root), "alias", "repo", 0o120000);
    let config = config(&inner_root);
    // The link is there, and what it leads to is an exported repository.
    assert!(std::path::Path::new(&format!("{inner_root}/escape/.git")).exists());
    assert!(Repository::open(&config, "escape").unwrap().is_none());
    // A link that stays below the root is followed.
    let alias = Repository::open(&config, "alias").unwrap().unwrap();
    assert_eq!(alias.location(), format!("{}/repo", config.project_root));
}

#[test]
fn a_shallow_repository_tells_the_commit_at_its_head_and_no_more() {
    let root = scratch("shallow");
    let made = linear(&root, "repo");
    {
        let repo = git2::Repository::open(format!("{root}/repo")).unwrap();
        put(&repo, repo.path(), "shallow", &format!("{}\n", made[4]), 0o100644);
    }
    let config = config(&root);
    let opened = Repository::open(&config, "repo").unwrap().unwrap();
    assert!(opened.is_shallow());
    for amount in [1usize, 2, 3, 10] {
        let commits = opened.commits("main", amount).unwrap().unwrap();
        assert_eq!(ids(&commits), vec![made[4]]);
    }
    // Neither the spec nor the path is looked at.
    assert_eq!(ids(&opened.commits("nowhere", 3).unwrap().unwrap()), vec![made[4]]);
    assert_eq!(
        ids(&opened.commits_for_obj("main", 3, Some("b.txt")).unwrap().unwrap()),
        vec![made[4]]
    );
    assert_eq!(ids(&opened.commits_shallow().unwrap().unwrap()), vec![made[4]]);
    // No page of a shallow repository has a successor.
    let page = opened.log_page(None, None, 3).unwrap().unwrap();
    assert_eq!(ids(&page.commits), vec![made[4]]);
    assert_eq!(page.next_page, None);
    let page = opened.log_page(None, None, 1).unwrap().unwrap();
    assert_eq!(ids(&page.commits), vec![made[4]]);
    assert_eq!(page.next_page, None);
    let page = opened.log_page(None, None, 0).unwrap().unwrap();
    assert!(page.commits.is_empty());
    assert_eq!(page.next_page, None);
}
