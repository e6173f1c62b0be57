//! What a walk through history keeps of what it is handed. The object store
//! decides what a walk hands out; what is made of it is decided here.

use vstd::prelude::*;

verus! {

/// What a walk hands out at one step.
pub enum Visit<T> {
    /// Nothing more: the walk is over.
    End,
    /// An entry that cannot be read.
    Unreadable,
    /// A commit, and whether it touched what the walk is restricted to. A
    /// walk that is restricted to nothing counts every commit as touching.
    Commit(T, bool),
}

/// Makes a visit of what a walk met: nothing more is the end of the walk,
/// a failure is an entry that cannot be read and is passed over, and a commit
/// is handed on with whether it touched.
pub fn visit_of<T, E>(met: Option<Result<(T, bool), E>>) -> (res: Visit<T>)
    ensures
        res == match met {
            None => Visit::End,
            Some(Err(_)) => Visit::Unreadable,
            Some(Ok((commit, touched))) => Visit::Commit(commit, touched),
        },
{
    match met {
        None => Visit::End,
        Some(Err(_)) => Visit::Unreadable,
        Some(Ok((commit, touched))) => Visit::Commit(commit, touched),
    }
}

/// What one visit adds to the commits that are kept: the commit, where it is
/// one that touched.
pub open spec fn added<T>(visit: Visit<T>) -> Seq<T> {
    match visit {
        Visit::Commit(commit, touched) => if touched {
            seq![commit]
        } else {
            Seq::empty()
        },
        _ => Seq::empty(),
    }
}

/// The commits that are kept of `visits` where `amount` are asked for: the
/// commits that touched, in the order in which they are handed out, up to the
/// end of the walk, and `amount` of them at most.
pub open spec fn kept<T>(visits: Seq<Visit<T>>, amount: nat) -> Seq<T>
    decreases visits.len(),
{
    if amount == 0 || visits.len() == 0 || visits[0] is End {
        Seq::empty()
    } else if added(visits[0]).len() > 0 {
        added(visits[0]) + kept(visits.drop_first(), (amount - 1) as nat)
    } else {
        kept(visits.drop_first(), amount)
    }
}

/// Whether the walk is still going on after `visits`.
pub open spec fn unfinished<T>(visits: Seq<Visit<T>>) -> bool {
    forall|i: int| 0 <= i < visits.len() ==> !(#[trigger] visits[i] is End)
}

/// The commits among `visits` that touched, in the order in which they are
/// handed out.
pub open spec fn touching<T>(visits: Seq<Visit<T>>) -> Seq<T>
    decreases visits.len(),
{
    if visits.len() == 0 {
        Seq::empty()
    } else {
        added(visits[0]) + touching(visits.drop_first())
    }
}

/// No more commits are kept than are asked for.
pub proof fn lemma_kept_len<T>(visits: Seq<Visit<T>>, amount: nat)
    ensures
        kept(visits, amount).len() <= amount,
    decreases visits.len(),
{
    if !(amount == 0 || visits.len() == 0 || visits[0] is End) {
        if added(visits[0]).len() > 0 {
            lemma_kept_len(visits.drop_first(), (amount - 1) as nat);
        } else {
            lemma_kept_len(visits.drop_first(), amount);
        }
    }
}

/// A walk that is going on and has not kept as many commits as are asked for
/// keeps of one more visit what that visit adds.
pub proof fn lemma_kept_next<T>(visits: Seq<Visit<T>>, amount: nat, visit: Visit<T>)
    requires
        unfinished(visits),
        kept(visits, amount).len() < amount,
    ensures
        kept(visits.push(visit), amount) == kept(visits, amount) + kept(seq![visit], 1),
        kept(seq![visit], 1) == if visit is End {
            Seq::<T>::empty()
        } else {
            added(visit)
        },
    decreases visits.len(),
{
    let one = seq![visit];
    assert(kept(one.drop_first(), 0) == Seq::<T>::empty());
    assert(kept(one.drop_first(), 1) == Seq::<T>::empty());
    if visits.len() == 0 {
        assert(visits.push(visit) == one);
        assert(kept(one.drop_first(), (amount - 1) as nat) == Seq::<T>::empty());
        assert(kept(one.drop_first(), amount) == Seq::<T>::empty());
    } else {
        let rest = visits.drop_first();
        assert(!(visits[0] is End));
        assert(visits.push(visit).drop_first() == rest.push(visit));
        assert forall|i: int| 0 <= i < rest.len() implies !(#[trigger] rest[i] is End) by {
            assert(rest[i] == visits[i + 1]);
        }
        if added(visits[0]).len() > 0 {
            lemma_kept_next(rest, (amount - 1) as nat, visit);
            assert(added(visits[0]) + (kept(rest, (amount - 1) as nat) + kept(one, 1)) == (added(
                visits[0],
            ) + kept(rest, (amount - 1) as nat)) + kept(one, 1));
        } else {
            lemma_kept_next(rest, amount, visit);
        }
    }
}

/// Of a walk that ends before as many commits touched as are asked for, every
/// commit that touched is kept, and no other: a commit is kept if and only if
/// it touched.
pub proof fn lemma_kept_is_touching<T>(visits: Seq<Visit<T>>, amount: nat)
    requires
        unfinished(visits),
        touching(visits).len() <= amount,
    ensures
        kept(visits, amount) == touching(visits),
        kept(visits.push(Visit::End), amount) == touching(visits),
    decreases visits.len(),
{
    let ended = visits.push(Visit::End);
    if visits.len() == 0 {
        assert(ended[0] is End);
    } else {
        let rest = visits.drop_first();
        assert(!(visits[0] is End));
        assert(ended.drop_first() == rest.push(Visit::End));
        assert(ended[0] == visits[0]);
        assert forall|i: int| 0 <= i < rest.len() implies !(#[trigger] rest[i] is End) by {
            assert(rest[i] == visits[i + 1]);
        }
        if added(visits[0]).len() > 0 {
            lemma_kept_is_touching(rest, (amount - 1) as nat);
        } else {
            lemma_kept_is_touching(rest, amount);
            if amount == 0 {
                assert(touching(rest).len() == 0);
            }
        }
    }
}

/// Of a walk in which more commits touch than are asked for, the first
/// `amount` of those that touch are kept.
pub proof fn lemma_kept_is_prefix<T>(visits: Seq<Visit<T>>, amount: nat)
    requires
        unfinished(visits),
        touching(visits).len() >= amount,
    ensures
        kept(visits, amount) == touching(visits).take(amount as int),
    decreases visits.len(),
{
    if amount == 0 {
        assert(touching(visits).take(0) == Seq::<T>::empty());
    } else if visits.len() > 0 {
        let rest = visits.drop_first();
        assert(!(visits[0] is End));
        assert forall|i: int| 0 <= i < rest.len() implies !(#[trigger] rest[i] is End) by {
            assert(rest[i] == visits[i + 1]);
        }
        if added(visits[0]).len() > 0 {
            lemma_kept_is_prefix(rest, (amount - 1) as nat);
            assert((added(visits[0]) + touching(rest)).take(amount as int) == added(visits[0])
                + touching(rest).take(amount - 1));
        } else {
            lemma_kept_is_prefix(rest, amount);
            assert(added(visits[0]) + touching(rest) == touching(rest));
        }
    }
}

/// The visits of a walk that hands out `commits` and finds that each of them
/// touched.
pub open spec fn all_touching<T>(commits: Seq<T>) -> Seq<Visit<T>> {
    commits.map_values(|commit: T| Visit::Commit(commit, true))
}

/// Of a walk that hands out `commits`, one after the other, and is restricted
/// to nothing, the first `amount` are kept, or all of them where there are
/// fewer: as many as the smaller of the two numbers says, in the order in
/// which they are handed out.
pub proof fn lemma_kept_of_a_line<T>(commits: Seq<T>, amount: nat)
    ensures
        kept(all_touching(commits), amount) == commits.take(
            if amount <= commits.len() {
                amount as int
            } else {
                commits.len() as int
            },
        ),
        kept(all_touching(commits).push(Visit::End), amount) == kept(
            all_touching(commits),
            amount,
        ),
{
    let visits = all_touching(commits);
    lemma_touching_of_all(commits);
    if amount <= commits.len() {
        lemma_kept_is_prefix(visits, amount);
        lemma_kept_len(visits, amount);
        if kept(visits, amount).len() < amount {
            lemma_kept_next(visits, amount, Visit::End);
        } else {
            lemma_kept_full(visits, amount, Visit::End);
        }
    } else {
        lemma_kept_is_touching(visits, amount);
        assert(commits.take(commits.len() as int) == commits);
    }
}

/// Where every commit touches, the commits that touch are all the commits.
proof fn lemma_touching_of_all<T>(commits: Seq<T>)
    ensures
        touching(all_touching(commits)) == commits,
        unfinished(all_touching(commits)),
    decreases commits.len(),
{
    let visits = all_touching(commits);
    if commits.len() > 0 {
        lemma_touching_of_all(commits.drop_first());
        assert(visits.drop_first() == all_touching(commits.drop_first()));
        assert(added(visits[0]) == seq![commits[0]]);
        assert(seq![commits[0]] + commits.drop_first() == commits);
    }
}

/// Once as many commits are kept as are asked for, nothing that follows
/// changes what is kept.
pub proof fn lemma_kept_full<T>(visits: Seq<Visit<T>>, amount: nat, visit: Visit<T>)
    requires
        kept(visits, amount).len() == amount,
    ensures
        kept(visits.push(visit), amount) == kept(visits, amount),
    decreases visits.len(),
{
    if amount == 0 {
    } else if visits.len() == 0 {
    } else if visits[0] is End {
        assert(visits.push(visit)[0] is End);
    } else {
        let rest = visits.drop_first();
        assert(visits.push(visit).drop_first() == rest.push(visit));
        assert(visits.push(visit)[0] == visits[0]);
        if added(visits[0]).len() > 0 {
            lemma_kept_full(rest, (amount - 1) as nat, visit);
        } else {
            lemma_kept_full(rest, amount, visit);
        }
    }
}

/// Takes one visit into account: a commit that touched joins `commits`. The
/// answer is whether the walk goes on.
pub fn take<T>(commits: &mut Vec<T>, visit: Visit<T>) -> (res: bool)
    ensures
        final(commits)@ == old(commits)@ + kept(seq![visit], 1),
        res == !(visit is End),
{
    proof {
        let one = seq![visit];
        assert(kept(one.drop_first(), 0) == Seq::<T>::empty());
        assert(kept(one.drop_first(), 1) == Seq::<T>::empty());
    }
    match visit {
        Visit::End => false,
        Visit::Unreadable => true,
        Visit::Commit(commit, touched) => {
            if touched {
                commits.push(commit);
                assert(commits@ == old(commits)@ + seq![commit]);
            }
            true
        },
    }
}

} // verus!
