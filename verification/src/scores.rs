//! The score aggregator: the means over a run's measurements, and the mean
//! size of a dataset's records.
//!
//! A mean is a sum over a count. The sums are taken in parallel; each is
//! shown to fit before it is taken, and the means are stated over the
//! measurements as a sequence and proved not to depend on its order.

use crate::fixed::lemma_quotient_bound;
use crate::fixed::lemma_scaled_quotient_bound;
use crate::fixed::scaled_div;
use crate::fixed::scaled_quotient;
use crate::measure::TestRun;
use rayon::iter::IntoParallelRefIterator;
use rayon::iter::ParallelIterator;
use vstd::arithmetic::div_mod::lemma_div_multiples_vanish;
use vstd::prelude::*;
use vstd::seq_lib::to_multiset_contains;
use vstd::seq_lib::to_multiset_len;
use vstd::seq_lib::to_multiset_remove;

verus! {

/// Why there is no mean.
#[derive(Debug, Clone, Copy, PartialEq, Eq)]
pub enum ScoreError {
    /// There is nothing to take the mean of.
    EmptySet,
}

/// The sum of `key` over `items`.
pub open spec fn total<T>(items: Seq<T>, key: spec_fn(T) -> nat) -> nat
    decreases items.len(),
{
    if items.len() == 0 {
        0
    } else {
        total(items.drop_last(), key) + key(items.last())
    }
}

/// A measurement's ratio, in millionths.
pub open spec fn ratio_key() -> spec_fn(TestRun) -> nat {
    |run: TestRun| run.ratio as nat
}

/// A measurement's elapsed time, in milliseconds.
pub open spec fn millis_key() -> spec_fn(TestRun) -> nat {
    |run: TestRun| run.millis as nat
}

/// A record's length, in bytes.
pub open spec fn len_key() -> spec_fn(Vec<u8>) -> nat {
    |record: Vec<u8>| record@.len()
}

/// The sum of the ratios of `runs`, in millionths.
pub open spec fn total_ratio(runs: Seq<TestRun>) -> nat {
    total(runs, ratio_key())
}

/// The sum of the elapsed times of `runs`, in milliseconds.
pub open spec fn total_millis(runs: Seq<TestRun>) -> nat {
    total(runs, millis_key())
}

/// The sum of the lengths of the records of `data`, in bytes.
pub open spec fn total_len(data: Seq<Vec<u8>>) -> nat {
    total(data, len_key())
}

/// The mean ratio of `runs`, in millionths, rounded down.
pub open spec fn mean_ratio(runs: Seq<TestRun>) -> nat
    recommends
        runs.len() > 0,
{
    total_ratio(runs) / runs.len()
}

/// The mean elapsed time of `runs`, in millionths of a millisecond,
/// rounded down.
pub open spec fn mean_millis(runs: Seq<TestRun>) -> nat
    recommends
        runs.len() > 0,
{
    scaled_quotient(total_millis(runs), runs.len())
}

/// The mean length of the records of `data`, in millionths of a byte,
/// rounded down.
pub open spec fn mean_len(data: Seq<Vec<u8>>) -> nat
    recommends
        data.len() > 0,
{
    scaled_quotient(total_len(data), data.len())
}

/// The scores of `runs`: the mean ratio and the mean elapsed time, or the
/// refusal of an empty set.
pub open spec fn scores(runs: Seq<TestRun>) -> Result<(u64, u128), ScoreError> {
    if runs.len() == 0 {
        Err(ScoreError::EmptySet)
    } else {
        Ok((mean_ratio(runs) as u64, mean_millis(runs) as u128))
    }
}

/// The mean record size of `data`, or the refusal of an empty dataset.
pub open spec fn mean_size(data: Seq<Vec<u8>>) -> Result<u128, ScoreError> {
    if data.len() == 0 {
        Err(ScoreError::EmptySet)
    } else {
        Ok(mean_len(data) as u128)
    }
}

/// Taking one item out lowers the sum by that item's key.
pub proof fn lemma_total_remove<T>(items: Seq<T>, key: spec_fn(T) -> nat, index: int)
    requires
        0 <= index < items.len(),
    ensures
        total(items, key) == total(items.remove(index), key) + key(items[index]),
    decreases items.len(),
{
    if index == items.len() - 1 {
        assert(items.remove(index) =~= items.drop_last());
    } else {
        lemma_total_remove(items.drop_last(), key, index);
        assert(items.remove(index).drop_last() =~= items.drop_last().remove(index));
        assert(items.remove(index).last() == items.last());
    }
}

/// A sum does not depend on the order of its items: two sequences that
/// hold the same items the same number of times have the same sum.
pub proof fn lemma_total_ignores_order<T>(first: Seq<T>, second: Seq<T>, key: spec_fn(T) -> nat)
    requires
        first.to_multiset() == second.to_multiset(),
    ensures
        total(first, key) == total(second, key),
    decreases first.len(),
{
    to_multiset_len(first);
    to_multiset_len(second);
    if first.len() > 0 {
        let last = first.last();
        assert(first.contains(last));
        to_multiset_contains(first, last);
        to_multiset_contains(second, last);
        let index = choose|index: int| 0 <= index < second.len() && second[index] == last;
        to_multiset_remove(first, first.len() - 1);
        to_multiset_remove(second, index);
        assert(first.remove(first.len() - 1) =~= first.drop_last());
        lemma_total_ignores_order(first.drop_last(), second.remove(index), key);
        lemma_total_remove(second, key, index);
    }
}

/// A sum of keys that are each at most `bound` is at most `bound` times
/// the number of items.
pub proof fn lemma_total_bound<T>(items: Seq<T>, key: spec_fn(T) -> nat, bound: nat)
    requires
        forall|i: int| 0 <= i < items.len() ==> key(#[trigger] items[i]) <= bound,
    ensures
        total(items, key) <= items.len() * bound,
    decreases items.len(),
{
    if items.len() > 0 {
        lemma_total_bound(items.drop_last(), key, bound);
        assert(key(items.last()) <= bound);
        assert((items.len() - 1) * bound + bound == items.len() * bound) by (nonlinear_arith);
    }
}

/// A sum of keys that are all `value` is `value` times the number of
/// items.
pub proof fn lemma_total_of_equal_keys<T>(items: Seq<T>, key: spec_fn(T) -> nat, value: nat)
    requires
        forall|i: int| 0 <= i < items.len() ==> key(#[trigger] items[i]) == value,
    ensures
        total(items, key) == items.len() * value,
    decreases items.len(),
{
    if items.len() > 0 {
        lemma_total_of_equal_keys(items.drop_last(), key, value);
        assert(key(items.last()) == value);
        assert((items.len() - 1) * value + value == items.len() * value) by (nonlinear_arith);
    }
}

/// Measurements that all have one ratio have that ratio as their mean:
/// a codec that halves every record has a mean ratio of one half.
pub proof fn lemma_mean_of_equal_ratios(runs: Seq<TestRun>, ratio: u64)
    requires
        runs.len() > 0,
        forall|i: int| 0 <= i < runs.len() ==> (#[trigger] runs[i]).ratio == ratio,
    ensures
        mean_ratio(runs) == ratio,
{
    lemma_total_of_equal_keys(runs, ratio_key(), ratio as nat);
    lemma_div_multiples_vanish(ratio as int, runs.len() as int);
}

/// The sums over any set of measurements fit in 128 bits, and the means in
/// the widths that `scores` gives them.
pub proof fn lemma_scores_fit(runs: Seq<TestRun>)
    requires
        0 < runs.len() <= usize::MAX,
    ensures
        total_ratio(runs) <= runs.len() * u64::MAX <= u128::MAX,
        total_millis(runs) <= runs.len() * u64::MAX <= u128::MAX,
        mean_ratio(runs) <= u64::MAX,
        mean_millis(runs) <= u128::MAX,
{
    lemma_total_bound(runs, ratio_key(), u64::MAX as nat);
    lemma_total_bound(runs, millis_key(), u64::MAX as nat);
    assert(runs.len() * u64::MAX <= u128::MAX) by (nonlinear_arith)
        requires
            runs.len() <= u64::MAX,
    ;
    lemma_quotient_bound(total_ratio(runs), runs.len(), u64::MAX as nat);
    lemma_quotient_bound(total_millis(runs), runs.len(), u64::MAX as nat);
    lemma_scaled_quotient_bound(total_millis(runs), runs.len(), u64::MAX as nat);
}

/// The sum of the record lengths of any dataset fits in 128 bits, and so
/// does the mean.
pub proof fn lemma_mean_size_fits(data: Seq<Vec<u8>>)
    requires
        0 < data.len() <= usize::MAX,
    ensures
        total_len(data) <= data.len() * u64::MAX <= u128::MAX,
        mean_len(data) <= u128::MAX,
{
    assert forall|i: int| 0 <= i < data.len() implies (len_key())(#[trigger] data[i])
        <= u64::MAX by {
        assert(data[i]@.len() == data[i].len());
    }
    lemma_total_bound(data, len_key(), u64::MAX as nat);
    assert(data.len() * u64::MAX <= u128::MAX) by (nonlinear_arith)
        requires
            data.len() <= u64::MAX,
    ;
    lemma_scaled_quotient_bound(total_len(data), data.len(), u64::MAX as nat);
}

/// The scores do not depend on the order of the measurements.
pub proof fn lemma_scores_ignore_order(first: Seq<TestRun>, second: Seq<TestRun>)
    requires
        first.to_multiset() == second.to_multiset(),
    ensures
        mean_ratio(first) == mean_ratio(second),
        mean_millis(first) == mean_millis(second),
        scores(first) == scores(second),
{
    to_multiset_len(first);
    to_multiset_len(second);
    lemma_total_ignores_order(first, second, ratio_key());
    lemma_total_ignores_order(first, second, millis_key());
}

/// The mean record size does not depend on the order of the records.
pub proof fn lemma_mean_size_ignores_order(first: Seq<Vec<u8>>, second: Seq<Vec<u8>>)
    requires
        first.to_multiset() == second.to_multiset(),
    ensures
        mean_size(first) == mean_size(second),
{
    to_multiset_len(first);
    to_multiset_len(second);
    lemma_total_ignores_order(first, second, len_key());
}

/// rayon's `par_iter`, `map` and `sum` over the ratios. Trusted: the sum
/// of unsigned integers whose total fits is that total, in whatever order
/// the threads add them.
#[verifier::external_body]
fn par_sum_ratio(tests: &Vec<TestRun>) -> (sum: u128)
    requires
        total_ratio(tests@) <= u128::MAX,
    ensures
        sum == total_ratio(tests@),
{
    tests.par_iter().map(|test_run| test_run.ratio as u128).sum::<u128>()
}

/// rayon's `par_iter`, `map` and `sum` over the elapsed times. Trusted: the
/// sum of unsigned integers whose total fits is that total, in whatever
/// order the threads add them.
#[verifier::external_body]
fn par_sum_millis(tests: &Vec<TestRun>) -> (sum: u128)
    requires
        total_millis(tests@) <= u128::MAX,
    ensures
        sum == total_millis(tests@),
{
    tests.par_iter().map(|test_run| test_run.millis as u128).sum::<u128>()
}

/// The length of `record`, in bytes.
pub fn record_len(record: &Vec<u8>) -> (len: u128)
    ensures
        len == record@.len(),
{
    record.len() as u128
}

/// rayon's `par_iter`, `map` and `sum` over the record lengths. Trusted:
/// the sum of unsigned integers whose total fits is that total, in
/// whatever order the threads add them.
#[verifier::external_body]
fn par_sum_len(data: &Vec<Vec<u8>>) -> (sum: u128)
    requires
        total_len(data@) <= u128::MAX,
    ensures
        sum == total_len(data@),
{
    data.par_iter().map(|record| record_len(record)).sum::<u128>()
}

/// The mean ratio, in millionths, and the mean elapsed time, in millionths
/// of a millisecond, over `tests`. Both are rounded down. A set without a
/// measurement has no mean and is refused.
pub fn get_scores(tests: Vec<TestRun>) -> (out: Result<(u64, u128), ScoreError>)
    ensures
        out == scores(tests@),
{
    let count: usize = tests.len();
    if count == 0 {
        return Err(ScoreError::EmptySet);
    }
    proof {
        lemma_scores_fit(tests@);
    }
    let ratio_sum: u128 = par_sum_ratio(&tests);
    let millis_sum: u128 = par_sum_millis(&tests);
    let ratio: u128 = ratio_sum / (count as u128);
    let millis: u128 = scaled_div(millis_sum, count as u64);
    Ok((ratio as u64, millis))
}

/// The mean length of the records of `data`, in millionths of a byte,
/// rounded down. A dataset without a record has no mean and is refused.
pub fn mean_data_size(data: Vec<Vec<u8>>) -> (out: Result<u128, ScoreError>)
    ensures
        out == mean_size(data@),
{
    let count: usize = data.len();
    if count == 0 {
        return Err(ScoreError::EmptySet);
    }
    proof {
        lemma_mean_size_fits(data@);
    }
    let len_sum: u128 = par_sum_len(&data);
    Ok(scaled_div(len_sum, count as u64))
}

} // verus!
