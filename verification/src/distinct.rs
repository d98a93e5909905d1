//! A test on a batch of proofs: that no two of them are the same.
//!
//! With one randomizer for a whole session, proving twice for the same
//! witness gives the same proof twice. The test finds that. It does not find
//! two witnesses that happen to give the same proof, and it says nothing on
//! whether the proofs verify.

use crate::data_structures::{Groth16Error, Proof, ProvingKey, Randomizer};
use crate::prover::{proving_result, Groth16};
use crate::r1cs::ConstraintSystem;
use crate::scalar::Scalar;
use vstd::prelude::*;

verus! {

/// No two proofs of the sequence have the same `A`, `B` and `C`.
pub open spec fn pairwise_distinct(proofs: Seq<Proof>) -> bool {
    forall|i: int, j: int| 0 <= i < j < proofs.len() ==> proofs[i] != proofs[j]
}

/// Whether proof `j` differs from each of the `j` proofs before it.
fn differs_from_earlier(proofs: &[Proof], j: usize) -> (res: bool)
    requires
        j < proofs@.len(),
    ensures
        res == forall|i: int| 0 <= i < j ==> proofs@[i] != proofs@[j as int],
{
    let mut i: usize = 0;
    while i < j
        invariant
            0 <= i <= j < proofs@.len(),
            forall|k: int| 0 <= k < i ==> proofs@[k] != proofs@[j as int],
        decreases j - i,
    {
        if proofs[i].equals(&proofs[j]) {
            return false;
        }
        i += 1;
    }
    true
}

/// Whether no two proofs of the batch are the same, by comparing each with
/// each.
pub fn all_distinct(proofs: &[Proof]) -> (res: bool)
    ensures
        res == pairwise_distinct(proofs@),
{
    let mut j: usize = 0;
    while j < proofs.len()
        invariant
            0 <= j <= proofs@.len(),
            forall|i: int, k: int| 0 <= i < k < j ==> proofs@[i] != proofs@[k],
        decreases proofs.len() - j,
    {
        if !differs_from_earlier(proofs, j) {
            return false;
        }
        j += 1;
    }
    true
}

impl Groth16 {
    /// Whether no two proofs of the batch are the same. It never fails.
    pub fn compare_all_proofs(proofs: &Vec<Proof>) -> (res: Result<bool, Groth16Error>)
        ensures
            res == Ok::<bool, Groth16Error>(pairwise_distinct(proofs@)),
    {
        Ok(all_distinct(proofs.as_slice()))
    }

    /// Whether no two proofs of the batch are the same, as
    /// `compare_all_proofs` tells it.
    pub fn verify_all_proofs(proofs: &Vec<Proof>) -> (res: Result<bool, Groth16Error>)
        ensures
            res == Ok::<bool, Groth16Error>(pairwise_distinct(proofs@)),
    {
        Groth16::compare_all_proofs(proofs)
    }
}

/// Two proofs are a distinct batch exactly when they differ.
pub proof fn lemma_pair_is_distinct_iff_different(first: Proof, second: Proof)
    ensures
        pairwise_distinct(seq![first, second]) == (first != second),
{
    let pair = seq![first, second];
    if first != second {
        assert forall|i: int, j: int| 0 <= i < j < pair.len() implies pair[i] != pair[j] by {
            assert(i == 0 && j == 1);
        }
    } else {
        assert(pair[0] == pair[1]);
    }
}

/// A batch that holds the same proof at two places is not distinct.
pub proof fn lemma_repeated_proof_is_found(proofs: Seq<Proof>, i: int, j: int)
    requires
        0 <= i < j < proofs.len(),
        proofs[i] == proofs[j],
    ensures
        !pairwise_distinct(proofs),
{
}

/// What the test is for: under one randomizer, proving twice for the same
/// circuit and assignment gives a batch that is not distinct.
pub proof fn lemma_repeated_witness_is_found(
    pk: ProvingKey,
    circuit: ConstraintSystem,
    h: Seq<Scalar>,
    rnd: Randomizer,
    first: Proof,
    second: Proof,
)
    requires
        proving_result(pk@, circuit, h, rnd.r, rnd.s) == Ok::<Proof, Groth16Error>(first),
        proving_result(pk@, circuit, h, rnd.r, rnd.s) == Ok::<Proof, Groth16Error>(second),
    ensures
        !pairwise_distinct(seq![first, second]),
{
    lemma_pair_is_distinct_iff_different(first, second);
}

} // verus!
