//! Resolving a spec to a commit, walking the history behind it, and comparing
//! a commit with what came before.

use crate::utils::error::Context;
use crate::utils::error::Error;
use crate::utils::error::ErrorKind;
use crate::utils::error::ErrorView;
use crate::utils::git::store;
use crate::utils::git::store::nul_free;
use crate::utils::git::store_failure;
use crate::utils::git::walk::kept;
use crate::utils::git::walk::lemma_kept_len;
use crate::utils::git::walk::lemma_kept_next;
use crate::utils::git::walk::take;
use crate::utils::git::walk::unfinished;
use crate::utils::git::walk::visit_of;
use crate::utils::git::walk::Visit;
use crate::utils::git::Repository;
use crate::utils::text::chars_of;
use crate::utils::text::from_utf8;
use crate::utils::text::string_of;
use git2::Commit as GitCommit;
use git2::Diff as GitDiff;
use git2::DiffOptions as GitDiffOptions;
use git2::DiffStats as GitDiffStats;
use git2::Revwalk as GitRevwalk;
use git2::Tree as GitTree;
use vstd::prelude::*;
use vstd::string::StringExecFns;
use vstd::utf8::decode_utf8;
use vstd::utf8::valid_utf8;

verus! {

/// Which parent a commit with `parent_count` parents is compared with: the
/// first, however many there are; none where there is none.
pub open spec fn base_of(parent_count: usize) -> Option<usize> {
    if parent_count == 0 {
        None
    } else {
        Some(0usize)
    }
}

/// A commit that was merged from several parents is compared with the first
/// of them, as a commit with one parent is.
pub proof fn lemma_first_parent_only(parent_count: usize)
    ensures
        parent_count >= 1 ==> base_of(parent_count) == Some(0usize),
        parent_count == 0 ==> base_of(parent_count) is None,
{
}

/// Picks the parent that a commit is compared with.
pub fn diff_base(parent_count: usize) -> (res: Option<usize>)
    ensures
        res == base_of(parent_count),
{
    if parent_count == 0 {
        None
    } else {
        Some(0)
    }
}

/// Whether a comparison that reported `files_changed` changed files shows a
/// change; one that failed shows none.
pub open spec fn shown(files_changed: Option<usize>) -> bool {
    files_changed matches Some(n) && n > 0
}

/// Decides `shown`.
pub fn shows_change(files_changed: Option<usize>) -> (res: bool)
    ensures
        res == shown(files_changed),
{
    match files_changed {
        Some(n) => n > 0,
        None => false,
    }
}

/// Whether a commit touched a path. `parent_changes` says, for each parent,
/// whether the path differs between that parent and the commit;
/// `present_at_root` says whether the path is in the commit at all. A commit
/// with parents touched the path if it differs from any of them; a commit
/// without parents touched it if it is there.
pub open spec fn touched(parent_changes: Seq<bool>, present_at_root: bool) -> bool {
    if parent_changes.len() == 0 {
        present_at_root
    } else {
        exists|i: int| 0 <= i < parent_changes.len() && parent_changes[i]
    }
}

/// A commit with parents that differs from none of them did not touch the
/// path, whether the path is there or not; one that differs from a parent
/// touched it.
pub proof fn lemma_touched_by_difference(parent_changes: Seq<bool>, present_at_root: bool)
    requires
        parent_changes.len() > 0,
    ensures
        touched(parent_changes, present_at_root) <==> parent_changes.contains(true),
        touched(parent_changes, present_at_root) == touched(parent_changes, !present_at_root),
{
    if parent_changes.contains(true) {
        let i = choose|i: int| 0 <= i < parent_changes.len() && parent_changes[i] == true;
        assert(parent_changes[i]);
    }
    if touched(parent_changes, present_at_root) {
        let i = choose|i: int| 0 <= i < parent_changes.len() && parent_changes[i];
        assert(parent_changes[i] == true);
    }
}

/// Decides `touched`.
pub fn touches(parent_changes: &Vec<bool>, present_at_root: bool) -> (res: bool)
    ensures
        res == touched(parent_changes@, present_at_root),
{
    if parent_changes.len() == 0 {
        return present_at_root;
    }
    let mut i: usize = 0;
    while i < parent_changes.len()
        invariant
            i <= parent_changes.len(),
            forall|j: int| 0 <= j < i ==> !parent_changes@[j],
        decreases parent_changes.len() - i,
    {
        if parent_changes[i] {
            return true;
        }
        i = i + 1;
    }
    false
}

/// The history of a shallow repository, as far as it can be told: the commit
/// at the head and nothing behind it, or nothing where the head resolves to
/// no commit.
pub fn shallow_page<T>(head: Option<T>) -> (res: Vec<T>)
    ensures
        match head {
            Some(commit) => res@ == seq![commit],
            None => res@ == Seq::<T>::empty(),
        },
{
    let mut page: Vec<T> = Vec::new();
    match head {
        Some(commit) => {
            page.push(commit);
        },
        None => {},
    }
    page
}

/// Whether `text` holds a NUL character.
pub fn has_nul(text: &str) -> (res: bool)
    ensures
        res == !nul_free(text@),
{
    let chars = chars_of(text);
    let mut i: usize = 0;
    while i < chars.len()
        invariant
            i <= chars.len(),
            chars@ == text@,
            forall|j: int| 0 <= j < i ==> chars@[j] != '\0',
        decreases chars.len() - i,
    {
        if chars[i] == '\0' {
            return true;
        }
        i = i + 1;
    }
    false
}

/// The path that a walk is restricted to: the one asked for, unless none was
/// asked for or it cannot be handed to the object store.
pub fn scope<'a>(path: Option<&'a str>) -> (res: Option<&'a str>)
    ensures
        match path {
            Some(p) => if nul_free(p@) {
                res == Some(p)
            } else {
                res is None
            },
            None => res is None,
        },
{
    match path {
        Some(p) => if has_nul(p) {
            None
        } else {
            Some(p)
        },
        None => None,
    }
}

/// Whether a line of a patch with the origin `origin` begins with that
/// origin: lines of context, added lines and removed lines do, with or
/// without a line feed at the end of the file. Headers do not.
pub open spec fn marked(origin: char) -> bool {
    origin == ' ' || origin == '+' || origin == '-' || origin == '=' || origin == '<' || origin
        == '>'
}

/// What is said in place of a line that is no text.
pub open spec fn binary_notice() -> Seq<char> {
    "Cannot display diff for binary file."@
}

/// The text of a patch after one more line: the text before, then the line
/// with its mark where it has one. A line that is no text is replaced by a
/// notice.
pub open spec fn patch_after(before: Seq<char>, origin: char, content: Seq<u8>) -> Seq<char> {
    if !valid_utf8(content) {
        before + binary_notice()
    } else if marked(origin) {
        before + seq![origin] + decode_utf8(content)
    } else {
        before + decode_utf8(content)
    }
}

/// Appends one line of a patch to `text`, and says whether the patch goes
/// on: it ends with the first line that is no text.
pub fn patch_line(text: &mut String, origin: char, content: Vec<u8>) -> (res: bool)
    ensures
        final(text)@ == patch_after(old(text)@, origin, content@),
        res == valid_utf8(content@),
{
    let line = match from_utf8(content) {
        Some(line) => line,
        None => {
            text.append("Cannot display diff for binary file.");
            return false;
        },
    };
    if origin == ' ' || origin == '+' || origin == '-' || origin == '=' || origin == '<' || origin
        == '>' {
        let mut mark: Vec<char> = Vec::new();
        mark.push(origin);
        text.append(string_of(&mark, 0, 1).as_str());
        assert(mark@.subrange(0, 1) == seq![origin]);
    }
    text.append(line.as_str());
    true
}

/// The text of `diff` as a patch, as far as it is text.
pub fn patch_text(diff: &GitDiff<'_>) -> (res: String) {
    let mut text = String::new();
    // What was printed before printing stopped is what there is to show.
    let _ = store::print_patch(diff, &mut text);
    text
}

impl Repository {
    /// The commit that `spec` names. A spec that names nothing, or something
    /// that leads to no commit, is answered with `None`, never with an
    /// error.
    pub fn commit(&self, spec: &str) -> (res: Result<Option<GitCommit<'_>>, Error>)
        ensures
            res is Ok,
    {
        let object = match store::revparse_single(&self.inner, spec) {
            Ok(object) => object,
            Err(_) => {
                return Ok(None);
            },
        };
        match store::peel_to_commit(&object) {
            Ok(commit) => Ok(Some(commit)),
            Err(_) => Ok(None),
        }
    }

    /// What `commit` changed: the difference between the tree of its first
    /// parent, or the empty tree where it has no parent, and its own tree,
    /// with renames and copies marked where they can be found.
    pub fn commit_diff(&self, commit: &GitCommit<'_>) -> (res: Result<GitDiff<'_>, Error>)
        ensures
            res matches Err(error) ==> error@.kind == ErrorKind::Store && error@.contexts.len()
                == 0,
    {
        let base = match diff_base(store::parent_count(commit)) {
            Some(index) => match store::parent(commit, index) {
                Ok(parent) => store::commit_tree(&parent).ok(),
                Err(_) => None,
            },
            None => None,
        };
        let own = store::commit_tree(commit).ok();
        let mut options = store::diff_options();
        let mut diff = match store::diff_trees(
            &self.inner,
            base.as_ref(),
            own.as_ref(),
            &mut options,
        ) {
            Ok(diff) => diff,
            Err(error) => {
                return Err(store_failure(error));
            },
        };
        // Every kind of rename and copy is looked for. A diff without them
        // marked is still the diff.
        let mut search = store::find_options();
        store::find_all(&mut search, true);
        let _ = store::find_similar(&mut diff, &mut search);
        Ok(diff)
    }

    /// The figures of what `commit` changed.
    pub fn commit_stats(&self, commit: &GitCommit<'_>) -> (res: Result<GitDiffStats, Error>)
        ensures
            res matches Err(error) ==> error@.kind == ErrorKind::Store && error@.contexts.len()
                == 0,
    {
        let diff = self.commit_diff(commit)?;
        match store::diff_stats(&diff) {
            Ok(stats) => Ok(stats),
            Err(error) => Err(store_failure(error)),
        }
    }

    /// The commit that `spec` names, with its tree.
    pub fn commit_tree(&self, spec: &str) -> (res: Result<
        Option<(GitCommit<'_>, GitTree<'_>)>,
        Error,
    >)
        ensures
            res matches Err(error) ==> error@.kind == ErrorKind::Store && error@.contexts.len()
                == 0,
    {
        let commit = match self.commit(spec) {
            Ok(Some(commit)) => commit,
            Ok(None) => {
                return Ok(None);
            },
            Err(error) => {
                return Err(error);
            },
        };
        match store::commit_tree(&commit) {
            Ok(tree) => Ok(Some((commit, tree))),
            Err(error) => Err(store_failure(error)),
        }
    }

    /// The `amount` newest commits that can be reached from `spec`, newest
    /// first; `None` where `spec` names no commit. Of a shallow repository
    /// only the commit at the head is told, whatever `spec` and `amount`
    /// are.
    pub fn commits(&self, spec: &str, amount: usize) -> (res: Result<
        Option<Vec<GitCommit<'_>>>,
        Error,
    >)
        ensures
            res matches Ok(Some(commits)) ==> commits.len() <= amount || commits.len() <= 1,
            res matches Err(error) ==> error@.kind == ErrorKind::Store,
    {
        if self.is_shallow() {
            return self.commits_shallow();
        }
        self.commits_full(spec, amount)
    }

    /// As `commits`, of a repository that is known to hold its whole history:
    /// what is kept of a walk from `spec` that is restricted to nothing.
    pub fn commits_full<'r>(&'r self, spec: &str, amount: usize) -> (res: Result<
        Option<Vec<GitCommit<'r>>>,
        Error,
    >)
        ensures
            res matches Ok(Some(commits)) ==> commits.len() <= amount,
            res matches Err(error) ==> error@.kind == ErrorKind::Store && error@.contexts.len()
                == 1,
    {
        let mut walk = match self.start_walk(spec)? {
            Some(walk) => walk,
            None => {
                return Ok(None);
            },
        };
        Ok(Some(self.collect(&mut walk, amount, None)))
    }

    /// As `commits`, but only the commits that touched `obj` are told: those
    /// in which the path differs from a parent, or is there where the commit
    /// has no parent. A path that holds a NUL character restricts nothing.
    pub fn commits_for_obj(&self, spec: &str, amount: usize, obj: Option<&str>) -> (res: Result<
        Option<Vec<GitCommit<'_>>>,
        Error,
    >)
        ensures
            res matches Ok(Some(commits)) ==> commits.len() <= amount || commits.len() <= 1,
            res matches Err(error) ==> error@.kind == ErrorKind::Store && error@.contexts.len()
                == 1,
    {
        if self.is_shallow() {
            return self.commits_shallow().context("failed to get commits on shallow repo");
        }
        let mut walk = match self.start_walk(spec)? {
            Some(walk) => walk,
            None => {
                return Ok(None);
            },
        };
        Ok(Some(self.collect(&mut walk, amount, scope(obj))))
    }

    /// The history of a shallow repository: the commit at the head, alone.
    /// It is an error where the head cannot be read.
    pub fn commits_shallow(&self) -> (res: Result<Option<Vec<GitCommit<'_>>>, Error>)
        ensures
            res matches Ok(commits) ==> commits matches Some(page) && page.len() <= 1,
            res matches Err(error) ==> error@.kind == ErrorKind::Store && error@.contexts.len()
                == 0,
    {
        let head = match store::store_head(&self.inner) {
            Ok(head) => head,
            Err(error) => {
                return Err(store_failure(error));
            },
        };
        let commit = store::reference_commit(&head).ok();
        Ok(Some(shallow_page(commit)))
    }

    /// The newest commit reachable from `spec` that touched `path`; `None`
    /// where `spec` names no commit. It is an error where `path` holds a NUL
    /// character, and where no commit touched `path`.
    pub fn file_last_commit(&self, spec: &str, path: &str) -> (res: Result<
        Option<GitCommit<'_>>,
        Error,
    >)
        ensures
            res matches Ok(Some(_)) ==> nul_free(path@),
            res matches Err(error) ==> {
                ||| error@.kind == ErrorKind::Store
                ||| error@ == (ErrorView {
                    kind: ErrorKind::Missing,
                    message: "file was not part of any commit"@,
                    contexts: Seq::empty(),
                }) && nul_free(path@)
            },
    {
        let mut walk = match self.start_walk(spec)? {
            Some(walk) => walk,
            None => {
                return Ok(None);
            },
        };
        if has_nul(path) {
            return Err(Error::new(ErrorKind::Store, "data contained a nul byte"));
        }
        let mut found = self.collect(&mut walk, 1, Some(path));
        match found.pop() {
            Some(commit) => Ok(Some(commit)),
            None => Err(Error::new(ErrorKind::Missing, "file was not part of any commit")),
        }
    }

    /// A walk over the ancestors of the commit that `spec` names, newest
    /// first; `None` where `spec` names no commit.
    fn start_walk<'r>(&'r self, spec: &str) -> (res: Result<Option<GitRevwalk<'r>>, Error>)
        ensures
            res matches Err(error) ==> error@.kind == ErrorKind::Store && error@.contexts.len()
                == 1,
    {
        let mut walk = store::revwalk(&self.inner).context("failed to create revwalk")?;
        let start = match store::revparse_single(&self.inner, spec) {
            Ok(object) => match store::peel_to_commit(&object) {
                Ok(commit) => commit,
                Err(_) => {
                    return Ok(None);
                },
            },
            Err(_) => {
                return Ok(None);
            },
        };
        store::walk_push(&mut walk, store::commit_id(&start)).context(
            "failed to set root commit for revwalk",
        )?;
        store::walk_sort(&mut walk, store::by_time()).context(
            "failed to set revwalk sorting mode",
        )?;
        Ok(Some(walk))
    }

    /// Takes what `walk` hands out until `amount` commits are kept or the
    /// walk ends. With a `pathspec`, only commits that touched it are kept.
    /// Entries of the walk that cannot be read are passed over.
    fn collect<'r>(
        &'r self,
        walk: &mut GitRevwalk<'r>,
        amount: usize,
        pathspec: Option<&str>,
    ) -> (res: Vec<GitCommit<'r>>)
        requires
            pathspec matches Some(p) ==> nul_free(p@),
        ensures
            res.len() <= amount,
    {
        let mut commits: Vec<GitCommit<'r>> = Vec::new();
        let mut options = store::diff_options();
        let restricted = match pathspec {
            Some(path) => {
                store::restrict(&mut options, path);
                true
            },
            None => false,
        };
        let ghost mut seen: Seq<Visit<GitCommit<'r>>> = Seq::empty();
        // The store does not promise that a walk ends, so the entries taken
        // off it are counted, and the count is what ends the loop.
        let mut visited: usize = 0;
        while commits.len() < amount && visited < usize::MAX
            invariant
                commits@ == kept(seen, amount as nat),
                unfinished(seen),
                commits.len() <= amount,
            decreases usize::MAX - visited,
        {
            visited = visited + 1;
            let visit = self.visit(walk, restricted, &mut options);
            let ghost handed = visit;
            proof {
                lemma_kept_next(seen, amount as nat, handed);
                lemma_kept_len(seen.push(handed), amount as nat);
            }
            if !take(&mut commits, visit) {
                break ;
            }
            proof {
                seen = seen.push(handed);
            }
        }
        commits
    }

    /// What `walk` hands out next: a commit, with whether it touched what the
    /// walk is restricted to, or word that there is none.
    fn visit<'r>(
        &'r self,
        walk: &mut GitRevwalk<'r>,
        restricted: bool,
        options: &mut GitDiffOptions,
    ) -> (res: Visit<GitCommit<'r>>)
        ensures
            !restricted ==> !(res matches Visit::Commit(_, false)),
    {
        let met = match store::walk_next(walk) {
            Some(Ok(id)) => match store::find_commit(&self.inner, id) {
                Ok(commit) => {
                    let touched = if restricted {
                        self.touched_by(&commit, options)
                    } else {
                        true
                    };
                    Some(Ok((commit, touched)))
                },
                Err(error) => Some(Err(error)),
            },
            Some(Err(error)) => Some(Err(error)),
            None => None,
        };
        visit_of(met)
    }

    /// Whether `commit` touched what `options` restrict a comparison to:
    /// what `touches` makes of one answer for each parent that the commit
    /// names, and of whether the path is there. A tree that cannot be read
    /// counts as one without a change.
    fn touched_by(&self, commit: &GitCommit<'_>, options: &mut GitDiffOptions) -> (res: bool)
        ensures
            exists|parent_changes: Seq<bool>, present_at_root: bool|
                parent_changes.len() == store::parents_of(*commit) && res == #[trigger] touched(
                    parent_changes,
                    present_at_root,
                ),
    {
        let tree = match store::commit_tree(commit) {
            Ok(tree) => tree,
            Err(_) => {
                proof {
                    let unchanged = Seq::new(store::parents_of(*commit) as nat, |i: int| false);
                    assert(!touched(unchanged, false));
                }
                return false;
            },
        };
        let parent_changes = self.parent_changes(commit, &tree, options);
        let present_at_root = if parent_changes.len() == 0 {
            self.differ(None, &tree, options)
        } else {
            false
        };
        let res = touches(&parent_changes, present_at_root);
        assert(res == touched(parent_changes@, present_at_root));
        res
    }

    /// Whether what `options` restrict a comparison to differs between
    /// `tree`, the tree of `commit`, and the tree of each parent of `commit`:
    /// one answer for each parent that the commit names, in their order. A
    /// parent that cannot be read counts as one without a difference.
    fn parent_changes(
        &self,
        commit: &GitCommit<'_>,
        tree: &GitTree<'_>,
        options: &mut GitDiffOptions,
    ) -> (res: Vec<bool>)
        ensures
            res@.len() == store::parents_of(*commit),
    {
        let parents = store::parent_count(commit);
        let mut changes: Vec<bool> = Vec::new();
        let mut i: usize = 0;
        while i < parents
            invariant
                i <= parents,
                changes@.len() == i,
            decreases parents - i,
        {
            // libgit2 counts parents in 32 bits: beyond that there is none
            // to ask for.
            let changed = if i <= u32::MAX as usize {
                match store::parent(commit, i) {
                    Ok(parent) => match store::commit_tree(&parent) {
                        Ok(parent_tree) => self.differ(Some(&parent_tree), tree, options),
                        Err(_) => false,
                    },
                    Err(_) => false,
                }
            } else {
                false
            };
            changes.push(changed);
            i = i + 1;
        }
        changes
    }

    /// Whether `old` and `new` differ in what `options` restrict a
    /// comparison to.
    fn differ(
        &self,
        old: Option<&GitTree<'_>>,
        new: &GitTree<'_>,
        options: &mut GitDiffOptions,
    ) -> (res: bool) {
        let diff = match store::diff_trees(&self.inner, old, Some(new), options) {
            Ok(diff) => diff,
            Err(_) => {
                return false;
            },
        };
        let files_changed = match store::diff_stats(&diff) {
            Ok(stats) => Some(store::files_changed(&stats)),
            Err(_) => None,
        };
        shows_change(files_changed)
    }
}

} // verus!
