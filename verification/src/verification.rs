//! Preparing a verifying key and verifying proofs with it.
//!
//! Verification tests the pairing equation of Groth16,
//! `e(A, B) · e(acc, -gamma) · e(C, -delta) = e(alpha, beta)`, where `acc`
//! folds the public inputs into one element. The randomizer of the session
//! has no part in it. Before any pairing is computed the number of public
//! inputs is tested, and then that each element of the proof belongs to its
//! group; a failure of either is an error, while a proof that does not meet
//! the equation is the answer `false`.

use crate::curve::{CurvePoint, G1Point, G2Point};
use crate::data_structures::{
    Groth16Error, PreparedVerifyingKey, PreparedVerifyingKeyView, Proof, Randomizer, VerifyingKey,
    VerifyingKeyView,
};
use crate::pairing::{pairing_product, pairing_value};
use crate::prover::Groth16;
use crate::scalar::Scalar;
use vstd::prelude::*;
use vstd::slice::slice_subrange;

verus! {

/// Every element of the verifying key belongs to its group.
pub open spec fn key_valid(vk: VerifyingKeyView) -> bool {
    &&& G1Point::valid(vk.alpha_g1)
    &&& G2Point::valid(vk.beta_g2)
    &&& G2Point::valid(vk.gamma_g2)
    &&& G2Point::valid(vk.delta_g2)
    &&& forall|i: int| 0 <= i < vk.gamma_abc_g1.len() ==> G1Point::valid(#[trigger] vk.gamma_abc_g1[i])
}

/// Every element of the proof belongs to its group.
pub open spec fn proof_valid(proof: Proof) -> bool {
    &&& G1Point::valid(proof.a)
    &&& G2Point::valid(proof.b)
    &&& G1Point::valid(proof.c)
}

/// What preparing a verifying key answers: the key with the pairing of
/// `alpha` and `beta` and the inverses of `gamma` and `delta`, or
/// `MalformedEncoding` where an element of the key does not belong to its
/// group or the pairing has no value.
pub open spec fn preparation(vk: VerifyingKeyView) -> Result<
    PreparedVerifyingKeyView,
    Groth16Error,
> {
    if !key_valid(vk) {
        Err(Groth16Error::MalformedEncoding)
    } else {
        match pairing_value(seq![vk.alpha_g1], seq![vk.beta_g2]) {
            Some(alpha_g1_beta_g2) => Ok(
                PreparedVerifyingKeyView {
                    vk,
                    alpha_g1_beta_g2,
                    gamma_g2_neg_pc: G2Point::negated(vk.gamma_g2),
                    delta_g2_neg_pc: G2Point::negated(vk.delta_g2),
                },
            ),
            None => Err(Groth16Error::MalformedEncoding),
        }
    }
}

/// The public inputs folded into one element of the first group: the
/// element of the constant one plus the multi-scalar multiplication of the
/// inputs with the elements that follow it.
pub open spec fn prepared_inputs(vk: VerifyingKeyView, public_input: Seq<Scalar>) -> G1Point {
    G1Point::sum(vk.gamma_abc_g1[0], G1Point::msm(vk.gamma_abc_g1.skip(1), public_input))
}

/// The pairing equation holds: the product of the pairings of `A` with `B`,
/// of the folded inputs with the inverse of `gamma`, and of `C` with the
/// inverse of `delta` has a value, and it is the pairing of `alpha` and
/// `beta`.
pub open spec fn accepts(pvk: PreparedVerifyingKeyView, public_input: Seq<Scalar>, proof: Proof)
    -> bool {
    pairing_value(
        seq![proof.a, prepared_inputs(pvk.vk, public_input), proof.c],
        seq![proof.b, pvk.gamma_g2_neg_pc, pvk.delta_g2_neg_pc],
    ) == Some(pvk.alpha_g1_beta_g2)
}

/// What verifying answers: `InputLengthMismatch` where the number of public
/// inputs is not the one of the key, else `MalformedEncoding` where an
/// element of the proof does not belong to its group, else whether the
/// pairing equation holds.
pub open spec fn verification_result(
    pvk: PreparedVerifyingKeyView,
    public_input: Seq<Scalar>,
    proof: Proof,
) -> Result<bool, Groth16Error> {
    if public_input.len() + 1 != pvk.vk.gamma_abc_g1.len() {
        Err(Groth16Error::InputLengthMismatch)
    } else if !proof_valid(proof) {
        Err(Groth16Error::MalformedEncoding)
    } else {
        Ok(accepts(pvk, public_input, proof))
    }
}

/// Whether every element of the verifying key belongs to its group.
pub fn key_check(vk: &VerifyingKey) -> (res: bool)
    ensures
        res == key_valid(vk@),
{
    if !vk.alpha_g1.is_valid() || !vk.beta_g2.is_valid() || !vk.gamma_g2.is_valid()
        || !vk.delta_g2.is_valid() {
        return false;
    }
    let mut i: usize = 0;
    while i < vk.gamma_abc_g1.len()
        invariant
            0 <= i <= vk.gamma_abc_g1.len(),
            forall|j: int| 0 <= j < i ==> G1Point::valid(#[trigger] vk.gamma_abc_g1@[j]),
        decreases vk.gamma_abc_g1.len() - i,
    {
        if !vk.gamma_abc_g1[i].is_valid() {
            assert(!G1Point::valid(vk@.gamma_abc_g1[i as int]));
            return false;
        }
        i += 1;
    }
    true
}

/// The verifying key with what verification needs of it computed once.
pub fn prepare_verifying_key(vk: &VerifyingKey) -> (res: Result<
    PreparedVerifyingKey,
    Groth16Error,
>)
    ensures
        match preparation(vk@) {
            Ok(view) => res matches Ok(pvk) && pvk@ == view,
            Err(e) => res matches Err(f) && f == e,
        },
{
    if !key_check(vk) {
        return Err(Groth16Error::MalformedEncoding);
    }
    let g1s = [vk.alpha_g1];
    let g2s = [vk.beta_g2];
    proof {
        assert(g1s@ =~= seq![vk.alpha_g1]);
        assert(g2s@ =~= seq![vk.beta_g2]);
    }
    match pairing_product(g1s.as_slice(), g2s.as_slice()) {
        Some(alpha_g1_beta_g2) => Ok(
            PreparedVerifyingKey {
                vk: vk.clone(),
                alpha_g1_beta_g2,
                gamma_g2_neg_pc: vk.gamma_g2.negation(),
                delta_g2_neg_pc: vk.delta_g2.negation(),
            },
        ),
        None => Err(Groth16Error::MalformedEncoding),
    }
}

/// The public inputs folded into one element of the first group, where
/// there is one input for each element of the key but the first.
pub fn prepare_inputs(pvk: &PreparedVerifyingKey, public_input: &[Scalar]) -> (res: Result<
    G1Point,
    Groth16Error,
>)
    ensures
        public_input@.len() + 1 == pvk@.vk.gamma_abc_g1.len() ==> res == Ok::<
            G1Point,
            Groth16Error,
        >(prepared_inputs(pvk@.vk, public_input@)),
        public_input@.len() + 1 != pvk@.vk.gamma_abc_g1.len() ==> res == Err::<
            G1Point,
            Groth16Error,
        >(Groth16Error::InputLengthMismatch),
{
    let bases = pvk.vk.gamma_abc_g1.as_slice();
    if bases.len() == 0 || bases.len() - 1 != public_input.len() {
        return Err(Groth16Error::InputLengthMismatch);
    }
    let rest = slice_subrange(bases, 1, bases.len());
    proof {
        assert(bases@.subrange(1, bases@.len() as int) =~= bases@.skip(1));
    }
    let acc = G1Point::multi_scalar_mul(rest, public_input);
    Ok(bases[0].plus(&acc))
}

impl Groth16 {
    /// The verifying key with what verification needs of it computed once.
    pub fn process_vk(circuit_vk: &VerifyingKey) -> (res: Result<
        PreparedVerifyingKey,
        Groth16Error,
    >)
        ensures
            match preparation(circuit_vk@) {
                Ok(view) => res matches Ok(pvk) && pvk@ == view,
                Err(e) => res matches Err(f) && f == e,
            },
    {
        prepare_verifying_key(circuit_vk)
    }

    /// Whether `proof` shows that the circuit of the key is satisfied with
    /// the public inputs `public_input`. The randomizer of the session is
    /// taken for symmetry with proving; the answer does not depend on it.
    pub fn verify_with_processed_vk(
        circuit_pvk: &PreparedVerifyingKey,
        public_input: &[Scalar],
        proof: &Proof,
        rnd: &Randomizer,
    ) -> (res: Result<bool, Groth16Error>)
        ensures
            res == verification_result(circuit_pvk@, public_input@, *proof),
            public_input@.len() + 1 != circuit_pvk@.vk.gamma_abc_g1.len() ==> res == Err::<
                bool,
                Groth16Error,
            >(Groth16Error::InputLengthMismatch),
    {
        let _ = rnd;
        let acc = match prepare_inputs_checked(circuit_pvk, public_input, proof) {
            Ok(acc) => acc,
            Err(e) => {
                return Err(e);
            },
        };
        let g1s = [proof.a, acc, proof.c];
        let g2s = [proof.b, circuit_pvk.gamma_g2_neg_pc, circuit_pvk.delta_g2_neg_pc];
        proof {
            assert(g1s@ =~= seq![proof.a, acc, proof.c]);
            assert(g2s@ =~= seq![
                proof.b,
                circuit_pvk.gamma_g2_neg_pc,
                circuit_pvk.delta_g2_neg_pc,
            ]);
        }
        match pairing_product(g1s.as_slice(), g2s.as_slice()) {
            Some(product) => Ok(product.equals(&circuit_pvk.alpha_g1_beta_g2)),
            None => Ok(false),
        }
    }
}

/// The folded public inputs, after the two tests that come before any
/// pairing: the number of inputs, then the elements of the proof.
fn prepare_inputs_checked(pvk: &PreparedVerifyingKey, public_input: &[Scalar], proof: &Proof) -> (res:
    Result<G1Point, Groth16Error>)
    ensures
        match verification_result(pvk@, public_input@, *proof) {
            Ok(_) => res == Ok::<G1Point, Groth16Error>(prepared_inputs(pvk@.vk, public_input@)),
            Err(e) => res == Err::<G1Point, Groth16Error>(e),
        },
{
    let bases = pvk.vk.gamma_abc_g1.as_slice();
    if bases.len() == 0 || bases.len() - 1 != public_input.len() {
        return Err(Groth16Error::InputLengthMismatch);
    }
    if !proof.a.is_valid() || !proof.b.is_valid() || !proof.c.is_valid() {
        return Err(Groth16Error::MalformedEncoding);
    }
    prepare_inputs(pvk, public_input)
}

/// A wrong number of public inputs is answered with `InputLengthMismatch`,
/// whatever the proof is: no element is tested and no pairing computed.
pub proof fn lemma_length_is_tested_first(
    pvk: PreparedVerifyingKey,
    public_input: Seq<Scalar>,
    proof: Proof,
)
    requires
        public_input.len() + 1 != pvk@.vk.gamma_abc_g1.len(),
    ensures
        verification_result(pvk@, public_input, proof) == Err::<bool, Groth16Error>(
            Groth16Error::InputLengthMismatch,
        ),
{
}

/// An error of verification is never the refusal of a proof: where the
/// number of inputs is right and the elements of the proof belong to their
/// groups, the answer is `Ok`, of `true` or of `false`.
pub proof fn lemma_refusal_is_no_error(
    pvk: PreparedVerifyingKey,
    public_input: Seq<Scalar>,
    proof: Proof,
)
    requires
        public_input.len() + 1 == pvk@.vk.gamma_abc_g1.len(),
        proof_valid(proof),
    ensures
        verification_result(pvk@, public_input, proof) is Ok,
{
}

/// Preparing is determined by the key and can be repeated: the key inside a
/// prepared key prepares to the same prepared key.
pub proof fn lemma_preparation_is_idempotent(vk: VerifyingKey)
    requires
        preparation(vk@) is Ok,
    ensures
        preparation(preparation(vk@)->Ok_0.vk) == preparation(vk@),
{
}

} // verus!
