//! The test runner: one algorithm over a whole dataset, the records spread
//! over the worker threads and the results gathered in the dataset's order.

use crate::gather::first_failure_at;
use crate::gather::gather;
use crate::gather::gathered;
use crate::measure::CodecError;
use crate::measure::TestRun;
use rayon::iter::IntoParallelRefIterator;
use rayon::iter::ParallelIterator;
use vstd::prelude::*;

verus! {

/// `out` is something that `test` may return for a record that holds the
/// bytes `record`.
pub open spec fn applied<F: Fn(Vec<u8>) -> Result<TestRun, CodecError>>(
    test: F,
    record: Seq<u8>,
    out: Result<TestRun, CodecError>,
) -> bool {
    exists|input: Vec<u8>| input@ == record && call_ensures(test, (input,), out)
}

/// `test` may measure a record that holds the bytes `record`.
pub open spec fn succeeds<F: Fn(Vec<u8>) -> Result<TestRun, CodecError>>(
    test: F,
    record: Seq<u8>,
) -> bool {
    exists|run: TestRun| applied(test, record, Ok(run))
}

/// `outcomes` holds, for each record of `data` and in its place, something
/// that `test` may return for it.
pub open spec fn applied_to_each<F: Fn(Vec<u8>) -> Result<TestRun, CodecError>>(
    test: F,
    data: Seq<Vec<u8>>,
    outcomes: Seq<Result<TestRun, CodecError>>,
) -> bool {
    &&& outcomes.len() == data.len()
    &&& forall|i: int| 0 <= i < data.len() ==> applied(test, data[i]@, #[trigger] outcomes[i])
}

/// The record at `index` is the first of `data` on which `test` failed,
/// and it failed with `error`.
pub open spec fn fails_first_at<F: Fn(Vec<u8>) -> Result<TestRun, CodecError>>(
    test: F,
    data: Seq<Vec<u8>>,
    index: int,
    error: CodecError,
) -> bool {
    &&& 0 <= index < data.len()
    &&& applied(test, data[index]@, Err(error))
    &&& forall|j: int| 0 <= j < index ==> succeeds(test, (#[trigger] data[j])@)
}

/// What a run of `test` over `data` may return.
///
/// Where every record was measured: one measurement for each record, the
/// one at each place being of the record at that place. Where one was not:
/// the error of the first record, in the dataset's order, that was not.
pub open spec fn run_outcome<F: Fn(Vec<u8>) -> Result<TestRun, CodecError>>(
    test: F,
    data: Seq<Vec<u8>>,
    out: Result<Vec<TestRun>, CodecError>,
) -> bool {
    match out {
        Ok(runs) => {
            &&& runs@.len() == data.len()
            &&& forall|i: int|
                0 <= i < data.len() ==> applied(test, data[i]@, Ok(#[trigger] runs@[i]))
        },
        Err(error) => exists|index: int| #[trigger] fails_first_at(test, data, index, error),
    }
}

/// `test` gives every record that holds the same bytes the same ratio.
pub open spec fn ratio_determined<F: Fn(Vec<u8>) -> Result<TestRun, CodecError>>(test: F) -> bool {
    forall|record: Seq<u8>, first: TestRun, second: TestRun|
        #![trigger applied(test, record, Ok(first)), applied(test, record, Ok(second))]
        applied(test, record, Ok(first)) && applied(test, record, Ok(second)) ==> first.ratio
            == second.ratio
}

/// Gathering what `test` returned for each record gives a run's outcome.
pub proof fn lemma_gathered_is_run_outcome<F: Fn(Vec<u8>) -> Result<TestRun, CodecError>>(
    test: F,
    data: Seq<Vec<u8>>,
    outcomes: Seq<Result<TestRun, CodecError>>,
    out: Result<Vec<TestRun>, CodecError>,
)
    requires
        applied_to_each(test, data, outcomes),
        gathered(outcomes, out),
    ensures
        run_outcome(test, data, out),
{
    match out {
        Ok(runs) => {
            assert forall|i: int| 0 <= i < data.len() implies applied(
                test,
                data[i]@,
                Ok(#[trigger] runs@[i]),
            ) by {
                assert(outcomes[i] == Ok::<TestRun, CodecError>(runs@[i]));
            }
        },
        Err(error) => {
            let index = choose|index: int|
                #[trigger] first_failure_at(outcomes, index) && outcomes[index] == Err::<
                    TestRun,
                    CodecError,
                >(error);
            assert forall|j: int| 0 <= j < index implies succeeds(test, (#[trigger] data[j])@) by {
                assert(outcomes[j] is Ok);
                let run = outcomes[j]->Ok_0;
                assert(applied(test, data[j]@, Ok(run)));
            }
            assert(fails_first_at(test, data, index, error));
        },
    }
}

/// Two runs of one algorithm over one dataset that both measured every
/// record agree on every ratio, so long as the algorithm gives equal bytes
/// an equal ratio. The elapsed times are free to differ.
pub proof fn lemma_run_ratios_repeatable<F: Fn(Vec<u8>) -> Result<TestRun, CodecError>>(
    test: F,
    data: Seq<Vec<u8>>,
    first: Vec<TestRun>,
    second: Vec<TestRun>,
)
    requires
        ratio_determined(test),
        run_outcome(test, data, Ok(first)),
        run_outcome(test, data, Ok(second)),
    ensures
        first@.len() == second@.len(),
        forall|i: int| 0 <= i < data.len() ==> first@[i].ratio == second@[i].ratio,
{
    assert forall|i: int| 0 <= i < data.len() implies first@[i].ratio == second@[i].ratio by {
        assert(applied(test, data[i]@, Ok(first@[i])));
        assert(applied(test, data[i]@, Ok(second@[i])));
    }
}

/// rayon's `par_iter`, `map` and `collect` over the records: `test` is
/// called once on a copy of each record, on whatever thread, and the
/// results stand in the order of the records. Trusted: that `collect` into
/// a `Vec` keeps the order and the number of the items.
#[verifier::external_body]
fn par_map<F: Fn(Vec<u8>) -> Result<TestRun, CodecError> + Sync>(
    test: &F,
    data: &Vec<Vec<u8>>,
) -> (outcomes: Vec<Result<TestRun, CodecError>>)
    requires
        forall|input: Vec<u8>| call_requires(*test, (input,)),
    ensures
        applied_to_each(*test, data@, outcomes@),
{
    data.par_iter().map(|record| test(record.clone())).collect()
}

/// Runs `test` on every record of `data`, in parallel, and returns the
/// measurements in the order of the records. A record that `test` fails
/// on ends the run: the error returned is that of the first such record.
pub fn run_test<F: Fn(Vec<u8>) -> Result<TestRun, CodecError> + Sync>(
    test: F,
    data: Vec<Vec<u8>>,
) -> (out: Result<Vec<TestRun>, CodecError>)
    requires
        forall|input: Vec<u8>| call_requires(test, (input,)),
    ensures
        run_outcome(test, data@, out),
{
    let outcomes = par_map(&test, &data);
    let ghost each = outcomes@;
    let out = gather(outcomes);
    proof {
        lemma_gathered_is_run_outcome(test, data@, each, out);
    }
    out
}

} // verus!
