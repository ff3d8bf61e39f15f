//! All or nothing: many outcomes become one.

use vstd::prelude::*;

verus! {

/// `index` is where `outcomes` first holds a failure.
pub open spec fn first_failure_at<T, E>(outcomes: Seq<Result<T, E>>, index: int) -> bool {
    &&& 0 <= index < outcomes.len()
    &&& outcomes[index] is Err
    &&& forall|j: int| 0 <= j < index ==> (#[trigger] outcomes[j]) is Ok
}

/// `out` is what `outcomes` come to: every value in its place where all
/// succeeded, and else the failure that stands first.
pub open spec fn gathered<T, E>(outcomes: Seq<Result<T, E>>, out: Result<Vec<T>, E>) -> bool {
    match out {
        Ok(values) => {
            &&& values@.len() == outcomes.len()
            &&& forall|i: int|
                0 <= i < outcomes.len() ==> outcomes[i] == Ok::<T, E>(#[trigger] values@[i])
        },
        Err(e) => exists|index: int|
            #[trigger] first_failure_at(outcomes, index) && outcomes[index] == Err::<T, E>(e),
    }
}

/// Turns the outcomes into their values, in order, or into the first
/// failure among them.
pub fn gather<T, E>(outcomes: Vec<Result<T, E>>) -> (out: Result<Vec<T>, E>)
    ensures
        gathered(outcomes@, out),
{
    let ghost all = outcomes@;
    let mut values: Vec<T> = Vec::new();
    for outcome in iter: outcomes
        invariant
            iter.seq() == all,
            values@.len() == iter.index(),
            forall|i: int| 0 <= i < iter.index() ==> (#[trigger] all[i]) == Ok::<T, E>(values@[i]),
    {
        match outcome {
            Ok(value) => {
                values.push(value);
            },
            Err(e) => {
                assert(first_failure_at(all, iter.index() as int));
                return Err(e);
            },
        }
    }
    Ok(values)
}

} // verus!
