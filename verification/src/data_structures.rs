//! The keys, the randomizer and the proof, and the errors of the algorithms
//! that work on them.

use crate::curve::{G1Point, G2Point};
use crate::pairing::TargetElement;
use crate::scalar::Scalar;
use vstd::prelude::*;
use vstd::std_specs::convert::FromSpecImpl;

verus! {

/// Why proving, verifying or drawing a randomizer failed. None of these is
/// the refusal of a proof: a proof that does not verify is the answer
/// `false`.
#[derive(Clone, Copy, Debug, PartialEq, Eq, Structural)]
pub enum Groth16Error {
    /// The lengths of the query vectors of the proving key disagree with the
    /// shape of the circuit.
    ShapeMismatch,
    /// The assignment of the circuit does not meet its constraints.
    ConstraintUnsatisfied,
    /// A group element is not on its curve or not in the subgroup of prime
    /// order.
    MalformedEncoding,
    /// The random source failed.
    RandomSourceExhausted,
    /// The number of public inputs is not the one the verifying key is for.
    InputLengthMismatch,
}

/// The blinding values of a proving session, drawn once for a proving key
/// and used by every proof of the session.
#[derive(Clone, Copy, Debug, PartialEq, Eq)]
pub struct Randomizer {
    /// The scalar `r`.
    pub r: Scalar,
    /// The scalar `s`.
    pub s: Scalar,
    /// The element `s · delta` of the first group.
    pub p: G1Point,
    /// The element `r · delta` of the second group.
    pub q: G2Point,
}

/// A proof.
#[derive(Clone, Copy, Debug, PartialEq, Eq)]
pub struct Proof {
    /// The element `A` of the first group.
    pub a: G1Point,
    /// The element `B` of the second group.
    pub b: G2Point,
    /// The element `C` of the first group.
    pub c: G1Point,
}

/// A verifying key.
#[derive(Debug, PartialEq, Eq)]
pub struct VerifyingKey {
    /// The element `alpha` of the first group.
    pub alpha_g1: G1Point,
    /// The element `beta` of the second group.
    pub beta_g2: G2Point,
    /// The element `gamma` of the second group.
    pub gamma_g2: G2Point,
    /// The element `delta` of the second group.
    pub delta_g2: G2Point,
    /// One element of the first group for the constant one and one for each
    /// public input, in this order.
    pub gamma_abc_g1: Vec<G1Point>,
}

/// A verifying key together with what verification would otherwise compute
/// from it each time.
#[derive(Debug, PartialEq, Eq)]
pub struct PreparedVerifyingKey {
    /// The verifying key.
    pub vk: VerifyingKey,
    /// The pairing of `alpha` and `beta`.
    pub alpha_g1_beta_g2: TargetElement,
    /// The inverse of `gamma`, as the pairing takes it.
    pub gamma_g2_neg_pc: G2Point,
    /// The inverse of `delta`, as the pairing takes it.
    pub delta_g2_neg_pc: G2Point,
}

/// A proving key.
#[derive(Debug, PartialEq, Eq)]
pub struct ProvingKey {
    /// The verifying key of the same circuit.
    pub vk: VerifyingKey,
    /// The element `beta` of the first group.
    pub beta_g1: G1Point,
    /// The element `delta` of the first group.
    pub delta_g1: G1Point,
    /// The element `delta` of the second group.
    pub delta_g2: G2Point,
    /// One element of the first group for each variable.
    pub a_query: Vec<G1Point>,
    /// One element of the first group for each variable.
    pub b_g1_query: Vec<G1Point>,
    /// One element of the second group for each variable.
    pub b_g2_query: Vec<G2Point>,
    /// One element of the first group for each coefficient of the quotient
    /// polynomial.
    pub h_query: Vec<G1Point>,
    /// One element of the first group for each witness variable.
    pub l_query: Vec<G1Point>,
}

/// What a verifying key holds.
pub struct VerifyingKeyView {
    pub alpha_g1: G1Point,
    pub beta_g2: G2Point,
    pub gamma_g2: G2Point,
    pub delta_g2: G2Point,
    pub gamma_abc_g1: Seq<G1Point>,
}

/// What a prepared verifying key holds.
pub struct PreparedVerifyingKeyView {
    pub vk: VerifyingKeyView,
    pub alpha_g1_beta_g2: TargetElement,
    pub gamma_g2_neg_pc: G2Point,
    pub delta_g2_neg_pc: G2Point,
}

/// What a proving key holds.
pub struct ProvingKeyView {
    pub vk: VerifyingKeyView,
    pub beta_g1: G1Point,
    pub delta_g1: G1Point,
    pub delta_g2: G2Point,
    pub a_query: Seq<G1Point>,
    pub b_g1_query: Seq<G1Point>,
    pub b_g2_query: Seq<G2Point>,
    pub h_query: Seq<G1Point>,
    pub l_query: Seq<G1Point>,
}

impl View for VerifyingKey {
    type V = VerifyingKeyView;

    open spec fn view(&self) -> VerifyingKeyView {
        VerifyingKeyView {
            alpha_g1: self.alpha_g1,
            beta_g2: self.beta_g2,
            gamma_g2: self.gamma_g2,
            delta_g2: self.delta_g2,
            gamma_abc_g1: self.gamma_abc_g1@,
        }
    }
}

impl View for PreparedVerifyingKey {
    type V = PreparedVerifyingKeyView;

    open spec fn view(&self) -> PreparedVerifyingKeyView {
        PreparedVerifyingKeyView {
            vk: self.vk@,
            alpha_g1_beta_g2: self.alpha_g1_beta_g2,
            gamma_g2_neg_pc: self.gamma_g2_neg_pc,
            delta_g2_neg_pc: self.delta_g2_neg_pc,
        }
    }
}

impl View for ProvingKey {
    type V = ProvingKeyView;

    open spec fn view(&self) -> ProvingKeyView {
        ProvingKeyView {
            vk: self.vk@,
            beta_g1: self.beta_g1,
            delta_g1: self.delta_g1,
            delta_g2: self.delta_g2,
            a_query: self.a_query@,
            b_g1_query: self.b_g1_query@,
            b_g2_query: self.b_g2_query@,
            h_query: self.h_query@,
            l_query: self.l_query@,
        }
    }
}

/// A vector with the same elements.
fn copy_of<T: Copy>(v: &Vec<T>) -> (res: Vec<T>)
    ensures
        res@ == v@,
{
    let mut res: Vec<T> = Vec::with_capacity(v.len());
    let mut i: usize = 0;
    while i < v.len()
        invariant
            0 <= i <= v.len(),
            res@ == v@.subrange(0, i as int),
        decreases v.len() - i,
    {
        res.push(v[i]);
        proof {
            assert(res@ =~= v@.subrange(0, i + 1));
        }
        i += 1;
    }
    proof {
        assert(v@.subrange(0, v@.len() as int) =~= v@);
    }
    res
}

impl Default for Randomizer {
    /// Both scalars zero and both elements the point at infinity.
    fn default() -> (res: Randomizer)
        ensures
            res.r.value() == 0,
            res.s.value() == 0,
            res.p == G1Point::identity_point(),
            res.q == G2Point::identity_point(),
    {
        Randomizer {
            r: Scalar::zero(),
            s: Scalar::zero(),
            p: G1Point::identity(),
            q: G2Point::identity(),
        }
    }
}

impl Proof {
    /// Whether two proofs are the same: the same `A`, `B` and `C`.
    pub fn equals(&self, other: &Proof) -> (res: bool)
        ensures
            res == (*self == *other),
    {
        self.a.equals(&other.a) && self.b.equals(&other.b) && self.c.equals(&other.c)
    }
}

impl Default for Proof {
    /// All three elements the point at infinity.
    fn default() -> (res: Proof)
        ensures
            res == (Proof {
                a: G1Point::identity_point(),
                b: G2Point::identity_point(),
                c: G1Point::identity_point(),
            }),
    {
        Proof { a: G1Point::identity(), b: G2Point::identity(), c: G1Point::identity() }
    }
}

impl VerifyingKey {
    /// The key of no circuit: every element the point at infinity, and no
    /// element for any input.
    pub open spec fn empty() -> VerifyingKeyView {
        VerifyingKeyView {
            alpha_g1: G1Point::identity_point(),
            beta_g2: G2Point::identity_point(),
            gamma_g2: G2Point::identity_point(),
            delta_g2: G2Point::identity_point(),
            gamma_abc_g1: Seq::empty(),
        }
    }
}

impl Default for VerifyingKey {
    /// The key of no circuit.
    fn default() -> (res: VerifyingKey)
        ensures
            res@ == VerifyingKey::empty(),
    {
        VerifyingKey {
            alpha_g1: G1Point::identity(),
            beta_g2: G2Point::identity(),
            gamma_g2: G2Point::identity(),
            delta_g2: G2Point::identity(),
            gamma_abc_g1: Vec::new(),
        }
    }
}

impl Default for PreparedVerifyingKey {
    /// The key of no circuit, with the zero of the target field, and twice
    /// the generator of the second group, which is what the pairing takes
    /// where no element was prepared.
    fn default() -> (res: PreparedVerifyingKey)
        ensures
            res@ == (PreparedVerifyingKeyView {
                vk: VerifyingKey::empty(),
                alpha_g1_beta_g2: TargetElement::zero_element(),
                gamma_g2_neg_pc: G2Point::generator_point(),
                delta_g2_neg_pc: G2Point::generator_point(),
            }),
    {
        PreparedVerifyingKey {
            vk: VerifyingKey::default(),
            alpha_g1_beta_g2: TargetElement::zero(),
            gamma_g2_neg_pc: G2Point::generator(),
            delta_g2_neg_pc: G2Point::generator(),
        }
    }
}

impl Clone for VerifyingKey {
    fn clone(&self) -> (res: VerifyingKey)
        ensures
            res@ == self@,
    {
        VerifyingKey {
            alpha_g1: self.alpha_g1,
            beta_g2: self.beta_g2,
            gamma_g2: self.gamma_g2,
            delta_g2: self.delta_g2,
            gamma_abc_g1: copy_of(&self.gamma_abc_g1),
        }
    }
}

impl Clone for PreparedVerifyingKey {
    fn clone(&self) -> (res: PreparedVerifyingKey)
        ensures
            res@ == self@,
    {
        PreparedVerifyingKey {
            vk: self.vk.clone(),
            alpha_g1_beta_g2: self.alpha_g1_beta_g2,
            gamma_g2_neg_pc: self.gamma_g2_neg_pc,
            delta_g2_neg_pc: self.delta_g2_neg_pc,
        }
    }
}

impl Clone for ProvingKey {
    fn clone(&self) -> (res: ProvingKey)
        ensures
            res@ == self@,
    {
        ProvingKey {
            vk: self.vk.clone(),
            beta_g1: self.beta_g1,
            delta_g1: self.delta_g1,
            delta_g2: self.delta_g2,
            a_query: copy_of(&self.a_query),
            b_g1_query: copy_of(&self.b_g1_query),
            b_g2_query: copy_of(&self.b_g2_query),
            h_query: copy_of(&self.h_query),
            l_query: copy_of(&self.l_query),
        }
    }
}

impl From<PreparedVerifyingKey> for VerifyingKey {
    /// The verifying key that the prepared key was made from.
    fn from(other: PreparedVerifyingKey) -> (res: VerifyingKey) {
        other.vk
    }
}

impl FromSpecImpl<PreparedVerifyingKey> for VerifyingKey {
    open spec fn obeys_from_spec() -> bool {
        true
    }

    open spec fn from_spec(other: PreparedVerifyingKey) -> VerifyingKey {
        other.vk
    }
}

} // verus!
