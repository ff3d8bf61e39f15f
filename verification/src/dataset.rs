//! The record generator: a dataset of made-up users, one record each.

use crate::adapter::cycle_outcome;
use crate::codec::Codec;
use crate::codec::Quality;
use crate::gather::first_failure_at;
use crate::gather::gather;
use crate::gather::gathered;
use crate::measure::CodecError;
use crate::measure::TestRun;
use crate::user::json_string_text;
use crate::user::lemma_encoded_holds_a_byte;
use crate::user::lemma_framed_holds_a_character;
use crate::user::GenerationError;
use crate::user::User;
use rayon::iter::IntoParallelIterator;
use rayon::iter::ParallelIterator;
use vstd::prelude::*;

verus! {

/// `bytes` is the record of some user with a password of a made-up length.
pub open spec fn is_record(bytes: Seq<u8>) -> bool {
    exists|user: User| user.password_in_range() && #[trigger] user.record() == bytes
}

/// What making one record returns: the record of some made-up user.
pub open spec fn record_outcome(out: Result<Vec<u8>, GenerationError>) -> bool {
    out matches Ok(bytes) && is_record(bytes@)
}

/// What generating `n` records returns: `n` records, each of some made-up
/// user. Asking for none gives the empty dataset.
pub open spec fn dataset_outcome(n: u16, out: Result<Vec<Vec<u8>>, GenerationError>) -> bool {
    &&& out matches Ok(data)
    &&& data@.len() == n
    &&& forall|i: int| 0 <= i < n ==> is_record((#[trigger] data@[i])@)
}

/// A record holds a byte, so no algorithm refuses a generated record as
/// empty.
pub proof fn lemma_record_holds_a_byte(bytes: Seq<u8>)
    requires
        is_record(bytes),
    ensures
        bytes.len() > 0,
        forall|codec: Codec, quality: Quality, out: Result<TestRun, CodecError>|
            #[trigger] cycle_outcome(codec, quality, bytes, out) ==> out != Err::<
                TestRun,
                CodecError,
            >(CodecError::EmptyRecord),
{
    let user = choose|user: User| user.password_in_range() && #[trigger] user.record() == bytes;
    lemma_framed_holds_a_character(
        json_string_text(user.firstname@),
        json_string_text(user.lastname@),
        json_string_text(user.email@),
        json_string_text(user.phone_number@),
        json_string_text(user.username@),
        json_string_text(user.password@),
    );
    lemma_encoded_holds_a_byte(user.json());
}

/// Makes up one user and writes it as a record.
pub fn generate_record() -> (out: Result<Vec<u8>, GenerationError>)
    ensures
        record_outcome(out),
{
    let user = User::generate();
    let out = user.to_record();
    assert(user.record() == out->Ok_0@);
    out
}

/// Gathering what making each record returned gives a generation's
/// outcome.
pub proof fn lemma_gathered_is_dataset_outcome(
    n: u16,
    outcomes: Seq<Result<Vec<u8>, GenerationError>>,
    out: Result<Vec<Vec<u8>>, GenerationError>,
)
    requires
        outcomes.len() == n,
        forall|i: int| 0 <= i < n ==> record_outcome(#[trigger] outcomes[i]),
        gathered(outcomes, out),
    ensures
        dataset_outcome(n, out),
{
    match out {
        Ok(data) => {
            assert forall|i: int| 0 <= i < n implies is_record((#[trigger] data@[i])@) by {
                assert(outcomes[i] == Ok::<Vec<u8>, GenerationError>(data@[i]));
            }
        },
        Err(e) => {
            let index = choose|index: int|
                #[trigger] first_failure_at(outcomes, index) && outcomes[index] == Err::<
                    Vec<u8>,
                    GenerationError,
                >(e);
            assert(record_outcome(outcomes[index]));
        },
    }
}

/// rayon's `into_par_iter`, `map` and `collect` over the range from 0 to
/// `n`: `generate_record` is called `n` times, on whatever threads.
/// Trusted: that `collect` into a `Vec` gives one item for each number of
/// the range, each of them something that the mapped call returned.
#[verifier::external_body]
fn par_generate(n: u16) -> (outcomes: Vec<Result<Vec<u8>, GenerationError>>)
    ensures
        outcomes@.len() == n,
        forall|i: int| 0 <= i < n ==> call_ensures(generate_record, (), #[trigger] outcomes@[i]),
{
    (0..n).into_par_iter().map(|_| generate_record()).collect()
}

/// Generates a dataset of `n` records, each of a user made up on its own.
/// Asking for none gives the empty dataset, which has no mean size and
/// whose runs have no scores. Every made-up user can be written, so the
/// result is never an error.
pub fn generate_data(n: u16) -> (out: Result<Vec<Vec<u8>>, GenerationError>)
    ensures
        dataset_outcome(n, out),
{
    let outcomes = par_generate(n);
    let ghost each = outcomes@;
    let out = gather(outcomes);
    proof {
        lemma_gathered_is_dataset_outcome(n, each, out);
    }
    out
}

} // verus!
