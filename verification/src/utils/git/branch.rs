//! The branches of a repository.

use crate::utils::collect::best_effort;
use crate::utils::error::Error;
use crate::utils::error::ErrorKind;
use crate::utils::git::store;
use crate::utils::git::store_failure;
use crate::utils::git::Repository;
use git2::Branch as GitBranch;
use git2::BranchType as GitBranchType;
use git2::Commit as GitCommit;
use git2::Error as GitError;
use git2::Oid as GitOid;
use git2::Reference as GitReference;
use vstd::prelude::*;

verus! {

/// The references among `references` that are local branches, in their
/// order.
pub open spec fn branches_among(references: Seq<GitReference<'_>>) -> Seq<GitReference<'_>>
    decreases references.len(),
{
    if references.len() == 0 {
        Seq::empty()
    } else if store::is_branch_of(references.last()) {
        branches_among(references.drop_last()).push(references.last())
    } else {
        branches_among(references.drop_last())
    }
}

/// The references among `references` that are local branches, in their
/// order: every branch among them is kept, and nothing else is.
fn local_branches<'r>(references: Vec<GitReference<'r>>) -> (res: Vec<GitReference<'r>>)
    ensures
        res@ == branches_among(references@),
        res@.len() <= references@.len(),
        forall|k: int| 0 <= k < res@.len() ==> references@.contains(#[trigger] res@[k]),
        forall|k: int| 0 <= k < res@.len() ==> store::is_branch_of(#[trigger] res@[k]),
        forall|j: int|
            0 <= j < references@.len() && store::is_branch_of(references@[j]) ==> res@.contains(
                #[trigger] references@[j],
            ),
{
    let mut branches: Vec<GitReference<'r>> = Vec::new();
    let ghost all = references@;
    assert(all.take(0) == Seq::<GitReference<'r>>::empty());
    for reference in it: references
        invariant
            it.seq() == all,
            branches@ == branches_among(all.take(it.index() as int)),
            branches@.len() <= it.index(),
            forall|k: int| 0 <= k < branches@.len() ==> all.contains(#[trigger] branches@[k]),
            forall|k: int| 0 <= k < branches@.len() ==> store::is_branch_of(#[trigger] branches@[k]),
            forall|j: int|
                0 <= j < it.index() && store::is_branch_of(all[j]) ==> branches@.contains(
                    #[trigger] all[j],
                ),
    {
        let ghost before = branches@;
        assert(all[it.index() as int] == reference);
        assert(all.take(it.index() + 1).drop_last() == all.take(it.index() as int));
        assert(all.take(it.index() + 1).last() == reference);
        if store::is_branch(&reference) {
            branches.push(reference);
            assert(branches@.last() == reference);
        }
        assert forall|j: int|
            0 <= j < it.index() + 1 && store::is_branch_of(all[j]) implies branches@.contains(
            #[trigger] all[j],
        ) by {
            if j < it.index() {
                let k = choose|k: int| 0 <= k < before.len() && before[k] == all[j];
                assert(branches@[k] == all[j]);
            } else {
                assert(branches@[branches@.len() - 1] == all[j]);
            }
        }
    }
    assert(all.take(all.len() as int) == all);
    branches
}

/// The branches of `entries`, without the kind that each is listed with.
fn without_kind<'r>(entries: Vec<(GitBranch<'r>, GitBranchType)>) -> (res: Vec<GitBranch<'r>>)
    ensures
        res@.len() == entries@.len(),
        forall|i: int| 0 <= i < res@.len() ==> res@[i] == (#[trigger] entries@[i]).0,
{
    let mut branches: Vec<GitBranch<'r>> = Vec::new();
    let ghost all = entries@;
    for entry in it: entries
        invariant
            it.seq() == all,
            branches@.len() == it.index(),
            forall|i: int| 0 <= i < branches@.len() ==> branches@[i] == (#[trigger] all[i]).0,
    {
        assert(all[it.index() as int] == entry);
        branches.push(entry.0);
    }
    branches
}

/// The branches among `branches` whose tip is the commit `id`, in their
/// order. Where a branch ends is for the object store to say; one whose tip
/// cannot be read is left out. What is kept is taken from `branches` and from
/// nowhere else.
fn ending_in<'r>(branches: Vec<GitBranch<'r>>, id: GitOid) -> (res: Vec<GitBranch<'r>>)
    ensures
        res@.len() <= branches@.len(),
        forall|k: int| 0 <= k < res@.len() ==> branches@.contains(#[trigger] res@[k]),
{
    let mut kept: Vec<GitBranch<'r>> = Vec::new();
    let ghost all = branches@;
    for branch in it: branches
        invariant
            it.seq() == all,
            kept@.len() <= it.index(),
            forall|k: int| 0 <= k < kept@.len() ==> all.contains(#[trigger] kept@[k]),
    {
        assert(all[it.index() as int] == branch);
        let at_tip = match store::reference_commit(store::branch_reference(&branch)) {
            Ok(tip) => store::same_id(store::commit_id(&tip), id),
            Err(_) => false,
        };
        if at_tip {
            kept.push(branch);
        }
    }
    kept
}

impl Repository {
    /// The local branches whose tip is `commit`.
    pub fn branches_at(&self, commit: &GitCommit<'_>) -> (res: Result<Vec<GitBranch<'_>>, Error>)
        ensures
            res matches Err(error) ==> error@.kind == ErrorKind::Store && error@.contexts.len()
                == 0,
    {
        let local = self.branches_of_type(GitBranchType::Local)?;
        Ok(ending_in(local, store::commit_id(commit)))
    }

    /// The references that are local branches. A reference that cannot be
    /// read is left out.
    pub fn branches(&self) -> (res: Result<Vec<GitReference<'_>>, Error>)
        ensures
            res matches Ok(branches) ==> forall|k: int|
                0 <= k < branches@.len() ==> store::is_branch_of(#[trigger] branches@[k]),
            res matches Err(error) ==> error@.kind == ErrorKind::Store && error@.contexts.len()
                == 0,
    {
        let mut references = match store::references(&self.inner) {
            Ok(references) => references,
            Err(error) => {
                return Err(store_failure(error));
            },
        };
        let mut outcomes: Vec<Result<GitReference<'_>, GitError>> = Vec::new();
        // The count of entries taken is what ends the loop: the store does
        // not promise that the listing does.
        let mut visited: usize = 0;
        while visited < usize::MAX
            decreases usize::MAX - visited,
        {
            visited = visited + 1;
            match store::references_next(&mut references) {
                Some(outcome) => {
                    outcomes.push(outcome);
                },
                None => {
                    break ;
                },
            }
        }
        Ok(local_branches(best_effort(outcomes)))
    }

    /// The branches of kind `typ`. A branch that cannot be read is left out.
    pub fn branches_of_type(&self, typ: GitBranchType) -> (res: Result<
        Vec<GitBranch<'_>>,
        Error,
    >)
        ensures
            res matches Err(error) ==> error@.kind == ErrorKind::Store && error@.contexts.len()
                == 0,
    {
        let mut listing = match store::branches(&self.inner, typ) {
            Ok(listing) => listing,
            Err(error) => {
                return Err(store_failure(error));
            },
        };
        let mut outcomes: Vec<Result<(GitBranch<'_>, GitBranchType), GitError>> = Vec::new();
        let mut visited: usize = 0;
        while visited < usize::MAX
            decreases usize::MAX - visited,
        {
            visited = visited + 1;
            match store::branches_next(&mut listing) {
                Some(outcome) => {
                    outcomes.push(outcome);
                },
                None => {
                    break ;
                },
            }
        }
        Ok(without_kind(best_effort(outcomes)))
    }
}

} // verus!
