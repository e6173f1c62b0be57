//! Collecting on a best-effort basis: what can be had is kept, what failed is
//! dropped. This is lossy on purpose. A listing of tags or branches is worth
//! showing even where one of them cannot be read.

use vstd::prelude::*;

verus! {

/// The values of those `outcomes` that are no failures, in their order.
pub open spec fn successes<T, E>(outcomes: Seq<Result<T, E>>) -> Seq<T>
    decreases outcomes.len(),
{
    if outcomes.len() == 0 {
        Seq::empty()
    } else {
        match outcomes.last() {
            Ok(value) => successes(outcomes.drop_last()).push(value),
            Err(_) => successes(outcomes.drop_last()),
        }
    }
}

/// There are no more successes than outcomes, and as many where nothing
/// failed.
pub proof fn lemma_successes_len<T, E>(outcomes: Seq<Result<T, E>>)
    ensures
        successes(outcomes).len() <= outcomes.len(),
        (forall|i: int| 0 <= i < outcomes.len() ==> outcomes[i] is Ok) ==> successes(
            outcomes,
        ).len() == outcomes.len(),
    decreases outcomes.len(),
{
    if outcomes.len() > 0 {
        lemma_successes_len(outcomes.drop_last());
        if forall|i: int| 0 <= i < outcomes.len() ==> outcomes[i] is Ok {
            assert(forall|i: int|
                0 <= i < outcomes.drop_last().len() ==> outcomes.drop_last()[i] == outcomes[i]);
            assert(outcomes.last() == outcomes[outcomes.len() - 1]);
        }
    }
}

/// Every success is the value of one of the outcomes.
pub proof fn lemma_successes_are_outcomes<T, E>(outcomes: Seq<Result<T, E>>, k: int)
    requires
        0 <= k < successes(outcomes).len(),
    ensures
        exists|j: int| 0 <= j < outcomes.len() && outcomes[j] == Ok::<T, E>(successes(outcomes)[k]),
    decreases outcomes.len(),
{
    let front = outcomes.drop_last();
    if outcomes.last() is Ok && k == successes(front).len() {
        assert(outcomes[outcomes.len() - 1] == Ok::<T, E>(successes(outcomes)[k]));
    } else {
        lemma_successes_are_outcomes(front, k);
        let j = choose|j: int| 0 <= j < front.len() && front[j] == Ok::<T, E>(successes(front)[k]);
        assert(outcomes[j] == Ok::<T, E>(successes(outcomes)[k]));
    }
}

/// Keeps the values of the outcomes that are no failures, and drops the
/// failures.
pub fn best_effort<T, E>(outcomes: Vec<Result<T, E>>) -> (res: Vec<T>)
    ensures
        res@ == successes(outcomes@),
{
    let mut kept: Vec<T> = Vec::new();
    let ghost all = outcomes@;
    assert(all.take(0) == Seq::<Result<T, E>>::empty());
    for outcome in it: outcomes
        invariant
            it.seq() == all,
            kept@ == successes(all.take(it.index() as int)),
    {
        assert(all.take(it.index() + 1).drop_last() == all.take(it.index() as int));
        match outcome {
            Ok(value) => {
                kept.push(value);
            },
            Err(_) => {},
        }
    }
    assert(all.take(all.len() as int) == all);
    kept
}

} // verus!
