//! Drawing the randomizer of a session and producing proofs with it.
//!
//! A proof is `A`, `B` and `C` with
//!
//! - `A = r · delta + alpha + a` in the first group,
//! - `B = s · delta + beta + b` in the second group, and
//! - `C = s · A + r · B' + L + H` in the first group,
//!
//! where `a` and `b` are the sums of the bases of the key weighted by the
//! assignment, `B'` is `B` computed in the first group, `L` the sum of the
//! witness bases weighted by the witness, and `H` the sum of the quotient
//! bases weighted by the coefficients of the quotient polynomial. `r` and
//! `s` are the two scalars of the randomizer of the session.
//!
//! `C` has no term `- r · s · delta`. With keys from a Groth16 setup the
//! pairing equation that verification tests holds of
//! `s · A + r · B' - r · s · delta + L + H`, so it holds of a proof made here
//! where `r` or `s` is zero.

use crate::curve::{CurvePoint, G1Point, G2Point};
use crate::data_structures::{Groth16Error, Proof, ProvingKey, ProvingKeyView, Randomizer};
use crate::r1cs::ConstraintSystem;
use crate::scalar::Scalar;
use ark_std::rand::{CryptoRng, RngCore};
use vstd::prelude::*;
use vstd::slice::slice_subrange;

verus! {

/// The proof system. Its algorithms are associated functions.
pub struct Groth16;

/// The randomizer that the scalars `r` and `s` give for a proving key:
/// `p = s · delta` in the first group and `q = r · delta` in the second.
pub open spec fn randomizer_of(pk: ProvingKeyView, r: Scalar, s: Scalar) -> Randomizer {
    Randomizer {
        r,
        s,
        p: G1Point::multiple(pk.delta_g1, s),
        q: G2Point::multiple(pk.delta_g2, r),
    }
}

/// A blinding term, a constant offset, the base of the constant one and the
/// multi-scalar multiplication of the other bases with the assignment,
/// summed in this order.
pub open spec fn coeff_of<G: CurvePoint>(
    initial: G,
    query: Seq<G>,
    vk_param: G,
    assignment: Seq<Scalar>,
) -> G {
    G::sum(G::sum(G::sum(initial, vk_param), query[0]), G::msm(query.skip(1), assignment))
}

/// The query vectors of the proving key have the lengths that the circuit
/// asks for: one base per variable in the three queries over all variables,
/// the constant one included; one per witness variable; and one per
/// coefficient of the quotient polynomial.
pub open spec fn shape_matches(
    pk: ProvingKeyView,
    h: Seq<Scalar>,
    input_assignment: Seq<Scalar>,
    aux_assignment: Seq<Scalar>,
) -> bool {
    &&& pk.a_query.len() == 1 + input_assignment.len() + aux_assignment.len()
    &&& pk.b_g1_query.len() == 1 + input_assignment.len() + aux_assignment.len()
    &&& pk.b_g2_query.len() == 1 + input_assignment.len() + aux_assignment.len()
    &&& pk.l_query.len() == aux_assignment.len()
    &&& pk.h_query.len() == h.len()
}

/// The element `A` of the proof.
pub open spec fn proof_a(pk: ProvingKeyView, r: Scalar, assignment: Seq<Scalar>) -> G1Point {
    coeff_of(G1Point::multiple(pk.delta_g1, r), pk.a_query, pk.vk.alpha_g1, assignment)
}

/// The counterpart of `B` in the first group. It enters `C` multiplied by
/// `r`, so for `r = 0` it is not computed and stands as the point at
/// infinity.
pub open spec fn proof_b_g1(pk: ProvingKeyView, r: Scalar, s: Scalar, assignment: Seq<Scalar>)
    -> G1Point {
    if r.value() == 0 {
        G1Point::identity_point()
    } else {
        coeff_of(G1Point::multiple(pk.delta_g1, s), pk.b_g1_query, pk.beta_g1, assignment)
    }
}

/// The element `B` of the proof.
pub open spec fn proof_b(pk: ProvingKeyView, s: Scalar, assignment: Seq<Scalar>) -> G2Point {
    coeff_of(G2Point::multiple(pk.vk.delta_g2, s), pk.b_g2_query, pk.vk.beta_g2, assignment)
}

/// The element `C` of the proof: `s · A + r · B + L + H`, where `L` is the
/// multi-scalar multiplication of the witness with its bases and `H` that of
/// the quotient polynomial with its bases.
pub open spec fn proof_c(
    pk: ProvingKeyView,
    r: Scalar,
    s: Scalar,
    h: Seq<Scalar>,
    input_assignment: Seq<Scalar>,
    aux_assignment: Seq<Scalar>,
) -> G1Point {
    let assignment = input_assignment + aux_assignment;
    G1Point::sum(
        G1Point::sum(
            G1Point::sum(
                G1Point::multiple(proof_a(pk, r, assignment), s),
                G1Point::multiple(proof_b_g1(pk, r, s, assignment), r),
            ),
            G1Point::msm(pk.l_query, aux_assignment),
        ),
        G1Point::msm(pk.h_query, h),
    )
}

/// The element `C` without the term `r · B'`: `s · A + L + H`.
pub open spec fn proof_c_unblinded(
    pk: ProvingKeyView,
    r: Scalar,
    s: Scalar,
    h: Seq<Scalar>,
    input_assignment: Seq<Scalar>,
    aux_assignment: Seq<Scalar>,
) -> G1Point {
    G1Point::sum(
        G1Point::sum(
            G1Point::multiple(proof_a(pk, r, input_assignment + aux_assignment), s),
            G1Point::msm(pk.l_query, aux_assignment),
        ),
        G1Point::msm(pk.h_query, h),
    )
}

/// The proof that a proving key, the two blinding scalars, the coefficients
/// of the quotient polynomial and the assignment determine.
pub open spec fn proof_of(
    pk: ProvingKeyView,
    r: Scalar,
    s: Scalar,
    h: Seq<Scalar>,
    input_assignment: Seq<Scalar>,
    aux_assignment: Seq<Scalar>,
) -> Proof {
    Proof {
        a: proof_a(pk, r, input_assignment + aux_assignment),
        b: proof_b(pk, s, input_assignment + aux_assignment),
        c: proof_c(pk, r, s, h, input_assignment, aux_assignment),
    }
}

/// What proving answers: `ConstraintUnsatisfied` where the circuit is not
/// satisfied, else `ShapeMismatch` where the proving key is not of the shape
/// of the circuit, else the proof.
pub open spec fn proving_result(
    pk: ProvingKeyView,
    circuit: ConstraintSystem,
    h: Seq<Scalar>,
    r: Scalar,
    s: Scalar,
) -> Result<Proof, Groth16Error> {
    let input_assignment = circuit.instance_assignment@.skip(1);
    let aux_assignment = circuit.witness_assignment@;
    if !circuit.satisfied() {
        Err(Groth16Error::ConstraintUnsatisfied)
    } else if !shape_matches(pk, h, input_assignment, aux_assignment) {
        Err(Groth16Error::ShapeMismatch)
    } else {
        Ok(proof_of(pk, r, s, h, input_assignment, aux_assignment))
    }
}

/// The two slices, one after the other.
fn concat(first: &[Scalar], second: &[Scalar]) -> (res: Vec<Scalar>)
    ensures
        res@ == first@ + second@,
{
    let mut res: Vec<Scalar> = Vec::new();
    let mut i: usize = 0;
    while i < first.len()
        invariant
            0 <= i <= first.len(),
            res@ == first@.subrange(0, i as int),
        decreases first.len() - i,
    {
        res.push(first[i]);
        proof {
            assert(res@ =~= first@.subrange(0, i + 1));
        }
        i += 1;
    }
    let mut j: usize = 0;
    while j < second.len()
        invariant
            0 <= j <= second.len(),
            res@ == first@ + second@.subrange(0, j as int),
        decreases second.len() - j,
    {
        res.push(second[j]);
        proof {
            assert(res@ =~= first@ + second@.subrange(0, j + 1));
        }
        j += 1;
    }
    proof {
        assert(second@.subrange(0, second@.len() as int) =~= second@);
    }
    res
}

/// Whether `len` is `1 + first + second`.
fn is_one_more_than_sum(len: usize, first: usize, second: usize) -> (res: bool)
    ensures
        res == (len == 1 + first + second),
{
    len >= 1 && len - 1 >= first && len - 1 - first == second
}

impl Groth16 {
    /// Draws the randomizer of a proving session: `r`, then `s`, from
    /// `rng`, with `p` and `q` computed from them. The result is meant to
    /// be kept and handed to every proof of the session.
    ///
    /// `rng` has to be cryptographically secure: with a source that can be
    /// guessed the proofs give the witness away, and nothing here can tell.
    /// Where the source fails the error is `RandomSourceExhausted`, and the
    /// source is not asked again.
    pub fn create_randomizer<R: RngCore + CryptoRng>(pk: &ProvingKey, rng: &mut R) -> (res: Result<
        Randomizer,
        Groth16Error,
    >)
        ensures
            res matches Ok(rnd) ==> rnd == randomizer_of(pk@, rnd.r, rnd.s),
            res matches Err(e) ==> e == Groth16Error::RandomSourceExhausted,
    {
        let r = match Scalar::sample(rng) {
            Some(r) => r,
            None => {
                return Err(Groth16Error::RandomSourceExhausted);
            },
        };
        let s = match Scalar::sample(rng) {
            Some(s) => s,
            None => {
                return Err(Groth16Error::RandomSourceExhausted);
            },
        };
        Ok(Groth16::randomizer_from_scalars(pk, r, s))
    }

    /// Draws the randomizer of a proving session, as `create_randomizer`
    /// does.
    pub fn rndgen<R: RngCore + CryptoRng>(pk: &ProvingKey, rng: &mut R) -> (res: Result<
        Randomizer,
        Groth16Error,
    >)
        ensures
            res matches Ok(rnd) ==> rnd == randomizer_of(pk@, rnd.r, rnd.s),
            res matches Err(e) ==> e == Groth16Error::RandomSourceExhausted,
    {
        Groth16::create_randomizer(pk, rng)
    }

    /// The randomizer that the scalars `r` and `s` give for the proving
    /// key. For a scalar that is zero the element made from it is the point
    /// at infinity, so the default randomizer is the one of two zero scalars
    /// for every key.
    pub fn randomizer_from_scalars(pk: &ProvingKey, r: Scalar, s: Scalar) -> (res: Randomizer)
        ensures
            res == randomizer_of(pk@, r, s),
            s.value() == 0 ==> res.p == G1Point::identity_point(),
            r.value() == 0 ==> res.q == G2Point::identity_point(),
    {
        let p = pk.delta_g1.times(&s);
        let q = pk.delta_g2.times(&r);
        Randomizer { r, s, p, q }
    }

    /// The sum of a blinding term, a constant offset, the base of the
    /// constant one and the multi-scalar multiplication of the other bases
    /// with the assignment.
    pub fn calculate_coeff<G: CurvePoint>(
        initial: G,
        query: &[G],
        vk_param: G,
        assignment: &[Scalar],
    ) -> (res: G)
        requires
            query@.len() > 0,
        ensures
            res == coeff_of(initial, query@, vk_param, assignment@),
    {
        let el = query[0];
        let rest = slice_subrange(query, 1, query.len());
        proof {
            assert(query@.subrange(1, query@.len() as int) =~= query@.skip(1));
        }
        let acc = G::multi_scalar_mul(rest, assignment);
        let res = initial.plus(&vk_param);
        let res = res.plus(&el);
        res.plus(&acc)
    }

    /// The proof for an assignment that is known to meet the constraints:
    /// `input_assignment` holds the public inputs without the constant one,
    /// `aux_assignment` the witness, and `h` the coefficients of the
    /// quotient polynomial. `ShapeMismatch` where the proving key is not of
    /// that shape. For `r = 0` the term `r · B'` adds nothing to `C`.
    pub fn create_proof_with_assignment(
        pk: &ProvingKey,
        r: Scalar,
        s: Scalar,
        h: &[Scalar],
        input_assignment: &[Scalar],
        aux_assignment: &[Scalar],
    ) -> (res: Result<Proof, Groth16Error>)
        ensures
            shape_matches(pk@, h@, input_assignment@, aux_assignment@) ==> res == Ok::<
                Proof,
                Groth16Error,
            >(proof_of(pk@, r, s, h@, input_assignment@, aux_assignment@)),
            !shape_matches(pk@, h@, input_assignment@, aux_assignment@) ==> res == Err::<
                Proof,
                Groth16Error,
            >(Groth16Error::ShapeMismatch),
            shape_matches(pk@, h@, input_assignment@, aux_assignment@) && r.value() == 0 ==> (res
                matches Ok(p) && p.c == proof_c_unblinded(
                pk@,
                r,
                s,
                h@,
                input_assignment@,
                aux_assignment@,
            )),
    {
        let inputs = input_assignment.len();
        let auxes = aux_assignment.len();
        if !is_one_more_than_sum(pk.a_query.len(), inputs, auxes) || !is_one_more_than_sum(
            pk.b_g1_query.len(),
            inputs,
            auxes,
        ) || !is_one_more_than_sum(pk.b_g2_query.len(), inputs, auxes) || pk.l_query.len() != auxes
            || pk.h_query.len() != h.len() {
            return Err(Groth16Error::ShapeMismatch);
        }
        let h_acc = G1Point::multi_scalar_mul(pk.h_query.as_slice(), h);
        let l_aux_acc = G1Point::multi_scalar_mul(pk.l_query.as_slice(), aux_assignment);
        let assignment = concat(input_assignment, aux_assignment);

        let r_g1 = pk.delta_g1.times(&r);
        let g_a = Groth16::calculate_coeff(
            r_g1,
            pk.a_query.as_slice(),
            pk.vk.alpha_g1,
            assignment.as_slice(),
        );
        let s_g_a = g_a.times(&s);

        let g1_b = if !r.is_zero() {
            let s_g1 = pk.delta_g1.times(&s);
            Groth16::calculate_coeff(
                s_g1,
                pk.b_g1_query.as_slice(),
                pk.beta_g1,
                assignment.as_slice(),
            )
        } else {
            G1Point::identity()
        };

        let s_g2 = pk.vk.delta_g2.times(&s);
        let g2_b = Groth16::calculate_coeff(
            s_g2,
            pk.b_g2_query.as_slice(),
            pk.vk.beta_g2,
            assignment.as_slice(),
        );
        let r_g1_b = g1_b.times(&r);

        let g_c = s_g_a.plus(&r_g1_b);
        let g_c = g_c.plus(&l_aux_acc);
        let g_c = g_c.plus(&h_acc);

        Ok(Proof { a: g_a, b: g2_b, c: g_c })
    }

    /// The proof for a synthesized circuit, with blinding scalars `r` and
    /// `s`. `h` holds the coefficients of the quotient polynomial of the
    /// circuit's assignment, as the reduction to a quadratic arithmetic
    /// program gives them. `ConstraintUnsatisfied` where the assignment does
    /// not meet the constraints, whatever else is handed in; else
    /// `ShapeMismatch` where the proving key is not of the shape of the
    /// circuit.
    pub fn create_proof_with_reduction(
        circuit: &ConstraintSystem,
        h: &[Scalar],
        pk: &ProvingKey,
        r: Scalar,
        s: Scalar,
    ) -> (res: Result<Proof, Groth16Error>)
        ensures
            res == proving_result(pk@, *circuit, h@, r, s),
            !circuit.satisfied() ==> res == Err::<Proof, Groth16Error>(
                Groth16Error::ConstraintUnsatisfied,
            ),
    {
        if !circuit.is_satisfied() {
            return Err(Groth16Error::ConstraintUnsatisfied);
        }
        let instance = circuit.instance_assignment.as_slice();
        let input_assignment = slice_subrange(instance, 1, instance.len());
        proof {
            assert(instance@.subrange(1, instance@.len() as int) =~= instance@.skip(1));
        }
        Groth16::create_proof_with_assignment(
            pk,
            r,
            s,
            h,
            input_assignment,
            circuit.witness_assignment.as_slice(),
        )
    }

    /// The proof for a synthesized circuit under the randomizer of the
    /// session.
    pub fn prove(circuit_pk: &ProvingKey, circuit: &ConstraintSystem, h: &[Scalar], rnd: &Randomizer)
        -> (res: Result<Proof, Groth16Error>)
        ensures
            res == proving_result(circuit_pk@, *circuit, h@, rnd.r, rnd.s),
            !circuit.satisfied() ==> res == Err::<Proof, Groth16Error>(
                Groth16Error::ConstraintUnsatisfied,
            ),
    {
        Groth16::create_proof_with_reduction(circuit, h, circuit_pk, rnd.r, rnd.s)
    }
}

/// Proving is determined by the proving key, the circuit with its
/// assignment, the quotient polynomial and the two blinding scalars: whatever
/// two runs on the same of these answer, they answer the same, be it a proof
/// or an error. Two proving keys count as the same where they hold the same
/// elements.
pub proof fn lemma_proving_is_deterministic(
    pk1: ProvingKey,
    pk2: ProvingKey,
    circuit: ConstraintSystem,
    h: Seq<Scalar>,
    rnd: Randomizer,
    first: Result<Proof, Groth16Error>,
    second: Result<Proof, Groth16Error>,
)
    requires
        pk1@ == pk2@,
        first == proving_result(pk1@, circuit, h, rnd.r, rnd.s),
        second == proving_result(pk2@, circuit, h, rnd.r, rnd.s),
    ensures
        first == second,
{
}

/// An assignment that does not meet the constraints gets no proof: the
/// answer is `ConstraintUnsatisfied`, whatever the key, the quotient
/// polynomial and the blinding scalars are.
pub proof fn lemma_unsatisfied_is_rejected(
    pk: ProvingKey,
    circuit: ConstraintSystem,
    h: Seq<Scalar>,
    r: Scalar,
    s: Scalar,
)
    requires
        !circuit.satisfied(),
    ensures
        proving_result(pk@, circuit, h, r, s) == Err::<Proof, Groth16Error>(
            Groth16Error::ConstraintUnsatisfied,
        ),
{
}

/// A proof is only ever given for a satisfied circuit and a key of its
/// shape.
pub proof fn lemma_proof_needs_satisfaction(
    pk: ProvingKey,
    circuit: ConstraintSystem,
    h: Seq<Scalar>,
    r: Scalar,
    s: Scalar,
)
    requires
        proving_result(pk@, circuit, h, r, s) is Ok,
    ensures
        circuit.satisfied(),
        shape_matches(
            pk@,
            h,
            circuit.instance_assignment@.skip(1),
            circuit.witness_assignment@,
        ),
{
}

} // verus!
