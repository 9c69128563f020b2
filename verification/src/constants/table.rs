//! The codec as a table of rows, and the proof that the order of the rows
//! is of no account.
//!
//! A `match` with one arm for each algorithm, a chain of comparisons and a
//! lookup table all come to the same thing: a list of pairs of a code and an
//! algorithm that is searched from its first row to its last. This module
//! models such a list as a sequence and shows that a search of any list that
//! holds the registry, whatever the order of its rows, gives what
//! [`Algorithm::from_alg_id`] and [`Algorithm::alg_id`] give. So no result of
//! the codec can depend on the order in which the registry was written down.
use vstd::prelude::*;

use crate::constants::algorithm::{
    lemma_decodes_to_iff_code_of, lemma_encode_of_decode, Algorithm,
};
use crate::constants::tss::TPM2_ALG_ID;
use crate::error::Error;

verus! {

/// The algorithm in the first row of `rows` whose code is `code`.
pub open spec fn first_with_code(rows: Seq<(TPM2_ALG_ID, Algorithm)>, code: TPM2_ALG_ID) -> Option<
    Algorithm,
>
    decreases rows.len(),
{
    if rows.len() == 0 {
        None
    } else if rows[0].0 == code {
        Some(rows[0].1)
    } else {
        first_with_code(rows.drop_first(), code)
    }
}

/// The code in the first row of `rows` whose algorithm is `algorithm`.
pub open spec fn first_with_algorithm(
    rows: Seq<(TPM2_ALG_ID, Algorithm)>,
    algorithm: Algorithm,
) -> Option<TPM2_ALG_ID>
    decreases rows.len(),
{
    if rows.len() == 0 {
        None
    } else if rows[0].1 == algorithm {
        Some(rows[0].0)
    } else {
        first_with_algorithm(rows.drop_first(), algorithm)
    }
}

/// What a search of `rows` decodes `code` to: the algorithm of the first row
/// with that code, or the error that carries the code where no row has it.
pub open spec fn decode_with(rows: Seq<(TPM2_ALG_ID, Algorithm)>, code: TPM2_ALG_ID) -> Result<
    Algorithm,
    Error,
> {
    match first_with_code(rows, code) {
        Some(algorithm) => Ok(algorithm),
        None => Err(Error::UnrecognizedIdentifier { code }),
    }
}

/// Whether `rows` holds the registry and nothing else: each row pairs an
/// algorithm with its own code, and each algorithm has a row. Nothing is
/// asked of the order of the rows.
pub open spec fn holds_registry(rows: Seq<(TPM2_ALG_ID, Algorithm)>) -> bool {
    &&& forall|i: int| 0 <= i < rows.len() ==> (#[trigger] rows[i]).0 == rows[i].1.alg_id()
    &&& forall|algorithm: Algorithm| #[trigger] rows.contains((algorithm.alg_id(), algorithm))
}

/// A search by code ends on a row of the table, or no row has the code.
proof fn lemma_first_with_code(rows: Seq<(TPM2_ALG_ID, Algorithm)>, code: TPM2_ALG_ID)
    ensures
        first_with_code(rows, code) matches Some(algorithm) ==> rows.contains((code, algorithm)),
        first_with_code(rows, code) is None ==> forall|i: int|
            0 <= i < rows.len() ==> (#[trigger] rows[i]).0 != code,
    decreases rows.len(),
{
    if rows.len() > 0 && rows[0].0 != code {
        let rest = rows.drop_first();
        lemma_first_with_code(rest, code);
        match first_with_code(rest, code) {
            Some(algorithm) => {
                let i = choose|i: int| 0 <= i < rest.len() && rest[i] == (code, algorithm);
                assert(rows[i + 1] == (code, algorithm));
            },
            None => {
                assert forall|i: int| 0 <= i < rows.len() implies (#[trigger] rows[i]).0
                    != code by {
                    if i > 0 {
                        assert(rest[i - 1] == rows[i]);
                    }
                }
            },
        }
    } else if rows.len() > 0 {
        assert(rows[0] == (code, rows[0].1));
    }
}

/// A search by algorithm ends on a row of the table, or no row has the
/// algorithm.
proof fn lemma_first_with_algorithm(rows: Seq<(TPM2_ALG_ID, Algorithm)>, algorithm: Algorithm)
    ensures
        first_with_algorithm(rows, algorithm) matches Some(code) ==> rows.contains(
            (code, algorithm),
        ),
        first_with_algorithm(rows, algorithm) is None ==> forall|i: int|
            0 <= i < rows.len() ==> (#[trigger] rows[i]).1 != algorithm,
    decreases rows.len(),
{
    if rows.len() > 0 && rows[0].1 != algorithm {
        let rest = rows.drop_first();
        lemma_first_with_algorithm(rest, algorithm);
        match first_with_algorithm(rest, algorithm) {
            Some(code) => {
                let i = choose|i: int| 0 <= i < rest.len() && rest[i] == (code, algorithm);
                assert(rows[i + 1] == (code, algorithm));
            },
            None => {
                assert forall|i: int| 0 <= i < rows.len() implies (#[trigger] rows[i]).1
                    != algorithm by {
                    if i > 0 {
                        assert(rest[i - 1] == rows[i]);
                    }
                }
            },
        }
    } else if rows.len() > 0 {
        assert(rows[0] == (rows[0].0, algorithm));
    }
}

/// Decoding by a search of any table that holds the registry gives what
/// [`Algorithm::from_alg_id`] gives, for every code and whatever the order
/// of the rows.
pub proof fn lemma_decode_ignores_row_order(rows: Seq<(TPM2_ALG_ID, Algorithm)>, code: TPM2_ALG_ID)
    requires
        holds_registry(rows),
    ensures
        decode_with(rows, code) == Algorithm::from_alg_id(code),
{
    lemma_first_with_code(rows, code);
    match first_with_code(rows, code) {
        Some(algorithm) => {
            let i = choose|i: int| 0 <= i < rows.len() && rows[i] == (code, algorithm);
            assert(rows[i].0 == rows[i].1.alg_id());
            lemma_decodes_to_iff_code_of(code, algorithm);
        },
        None => {
            lemma_encode_of_decode(code);
            match Algorithm::from_alg_id(code) {
                Ok(algorithm) => {
                    assert(rows.contains((algorithm.alg_id(), algorithm)));
                    let i = choose|i: int| 0 <= i < rows.len() && rows[i] == (code, algorithm);
                    assert(rows[i].0 == code);
                },
                Err(_) => {},
            }
        },
    }
}

/// Encoding by a search of any table that holds the registry gives the
/// code that [`Algorithm::alg_id`] gives, for every algorithm and whatever
/// the order of the rows.
pub proof fn lemma_encode_ignores_row_order(
    rows: Seq<(TPM2_ALG_ID, Algorithm)>,
    algorithm: Algorithm,
)
    requires
        holds_registry(rows),
    ensures
        first_with_algorithm(rows, algorithm) == Some(algorithm.alg_id()),
{
    lemma_first_with_algorithm(rows, algorithm);
    match first_with_algorithm(rows, algorithm) {
        Some(code) => {
            let i = choose|i: int| 0 <= i < rows.len() && rows[i] == (code, algorithm);
            assert(rows[i].0 == rows[i].1.alg_id());
        },
        None => {
            assert(rows.contains((algorithm.alg_id(), algorithm)));
            let i = choose|i: int|
                0 <= i < rows.len() && rows[i] == (algorithm.alg_id(), algorithm);
            assert(rows[i].1 == algorithm);
        },
    }
}

/// A table that holds the registry still holds it after its rows have been
/// put in another order.
pub proof fn lemma_shuffle_holds_registry(
    rows: Seq<(TPM2_ALG_ID, Algorithm)>,
    shuffled: Seq<(TPM2_ALG_ID, Algorithm)>,
)
    requires
        holds_registry(rows),
        shuffled.to_multiset() == rows.to_multiset(),
    ensures
        holds_registry(shuffled),
{
    rows.to_multiset_ensures();
    shuffled.to_multiset_ensures();
    assert forall|i: int| 0 <= i < shuffled.len() implies (#[trigger] shuffled[i]).0
        == shuffled[i].1.alg_id() by {
        assert(shuffled.contains(shuffled[i]));
        assert(rows.to_multiset().count(shuffled[i]) > 0);
        assert(rows.contains(shuffled[i]));
        let j = choose|j: int| 0 <= j < rows.len() && rows[j] == shuffled[i];
        assert(rows[j].0 == rows[j].1.alg_id());
    }
    assert forall|algorithm: Algorithm| #[trigger]
        shuffled.contains((algorithm.alg_id(), algorithm)) by {
        assert(rows.contains((algorithm.alg_id(), algorithm)));
        assert(shuffled.to_multiset().count((algorithm.alg_id(), algorithm)) > 0);
    }
}

/// Putting the rows of a table that holds the registry in another order
/// changes no result, neither of decoding nor of encoding.
pub proof fn lemma_shuffle_changes_no_result(
    rows: Seq<(TPM2_ALG_ID, Algorithm)>,
    shuffled: Seq<(TPM2_ALG_ID, Algorithm)>,
    code: TPM2_ALG_ID,
    algorithm: Algorithm,
)
    requires
        holds_registry(rows),
        shuffled.to_multiset() == rows.to_multiset(),
    ensures
        decode_with(shuffled, code) == decode_with(rows, code),
        first_with_algorithm(shuffled, algorithm) == first_with_algorithm(rows, algorithm),
{
    lemma_shuffle_holds_registry(rows, shuffled);
    lemma_decode_ignores_row_order(rows, code);
    lemma_decode_ignores_row_order(shuffled, code);
    lemma_encode_ignores_row_order(rows, algorithm);
    lemma_encode_ignores_row_order(shuffled, algorithm);
}

} // verus!
