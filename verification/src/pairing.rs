//! The pairing of BLS12-377 and its target field.
//!
//! A pairing product is computed in two steps, both `ark-ec`'s: the product
//! of the Miller loops of the pairs, and the final exponentiation of that
//! product, which has no value where the product is zero.

use crate::curve::{G1Point, G2Point};
use crate::field::{base_element_check, base_elements_equal, is_base_element};
use ark_bls12_377::{Bls12_377, Fq, Fq12, Fq2, G1Affine, G2Affine};
use ark_ec::pairing::{MillerLoopOutput, Pairing};
use ark_ff::{BigInt, Field};
use vstd::prelude::*;

verus! {

/// An element of the target field, the extension of degree twelve of the
/// base field: its twelve coefficients over the base field, in the order in
/// which `ark-ff` lists them.
#[derive(Clone, Copy, Debug, PartialEq, Eq)]
pub struct TargetElement {
    pub(crate) c: [[u64; 6]; 12],
}

/// The product of the Miller loops of the pairs `(g1s[i], g2s[i])`, as
/// `ark-ec` computes it; pairs with a point at infinity are left out.
pub uninterp spec fn miller_product(g1s: Seq<G1Point>, g2s: Seq<G2Point>) -> TargetElement;

/// The final exponentiation of a Miller loop product, as `ark-ec` computes
/// it: `None` where the product has no inverse.
pub uninterp spec fn final_exponent(f: TargetElement) -> Option<TargetElement>;

/// The product of the pairings of the pairs `(g1s[i], g2s[i])`, where it has
/// a value.
pub open spec fn pairing_value(g1s: Seq<G1Point>, g2s: Seq<G2Point>) -> Option<TargetElement> {
    final_exponent(miller_product(g1s, g2s))
}

impl View for TargetElement {
    type V = Seq<Seq<u64>>;

    closed spec fn view(&self) -> Seq<Seq<u64>> {
        Seq::new(12, |i: int| self.c[i]@)
    }
}

impl TargetElement {
    #[verifier::type_invariant]
    spec fn well_formed(self) -> bool {
        TargetElement::admits(self.c)
    }

    /// The coefficients that `new` accepts: twelve elements of the base
    /// field.
    pub open spec fn admits(c: [[u64; 6]; 12]) -> bool {
        forall|i: int| 0 <= i < 12 ==> is_base_element(#[trigger] c[i])
    }

    /// Elements with the same coefficients are the same element.
    pub proof fn lemma_view_injective(a: TargetElement, b: TargetElement)
        requires
            a@ == b@,
        ensures
            a == b,
    {
        assert forall|i: int| 0 <= i < 12 implies a.c[i] == b.c[i] by {
            assert(a@[i] == b@[i]);
            assert(a.c[i] =~= b.c[i]);
        }
        assert(a.c =~= b.c);
    }

    /// The element with the given coefficients, where each is an element of
    /// the base field.
    pub fn new(c: [[u64; 6]; 12]) -> (res: Option<TargetElement>)
        ensures
            res is Some <==> TargetElement::admits(c),
            res matches Some(t) ==> t@ == Seq::new(12, |i: int| c[i]@),
    {
        let mut i: usize = 0;
        while i < 12
            invariant
                0 <= i <= 12,
                forall|j: int| 0 <= j < i ==> is_base_element(#[trigger] c[j]),
            decreases 12 - i,
        {
            if !base_element_check(&c[i]) {
                return None;
            }
            i += 1;
        }
        Some(TargetElement { c })
    }

    /// The zero of the target field.
    pub closed spec fn zero_element() -> TargetElement {
        TargetElement {
            c: [
                [0u64, 0u64, 0u64, 0u64, 0u64, 0u64],
                [0u64, 0u64, 0u64, 0u64, 0u64, 0u64],
                [0u64, 0u64, 0u64, 0u64, 0u64, 0u64],
                [0u64, 0u64, 0u64, 0u64, 0u64, 0u64],
                [0u64, 0u64, 0u64, 0u64, 0u64, 0u64],
                [0u64, 0u64, 0u64, 0u64, 0u64, 0u64],
                [0u64, 0u64, 0u64, 0u64, 0u64, 0u64],
                [0u64, 0u64, 0u64, 0u64, 0u64, 0u64],
                [0u64, 0u64, 0u64, 0u64, 0u64, 0u64],
                [0u64, 0u64, 0u64, 0u64, 0u64, 0u64],
                [0u64, 0u64, 0u64, 0u64, 0u64, 0u64],
                [0u64, 0u64, 0u64, 0u64, 0u64, 0u64],
            ],
        }
    }

    /// The zero of the target field.
    pub fn zero() -> (res: TargetElement)
        ensures
            res == TargetElement::zero_element(),
    {
        let z: [u64; 6] = [0, 0, 0, 0, 0, 0];
        let res = TargetElement { c: [z, z, z, z, z, z, z, z, z, z, z, z] };
        proof {
            let zero = TargetElement::zero_element();
            assert(res@ =~= zero@);
            TargetElement::lemma_view_injective(res, zero);
        }
        res
    }

    /// The coefficients of the element over the base field.
    pub fn coefficients(&self) -> (res: [[u64; 6]; 12])
        ensures
            Seq::new(12, |i: int| res[i]@) == self@,
    {
        self.c
    }

    /// Whether two elements are the same.
    pub fn equals(&self, other: &TargetElement) -> (res: bool)
        ensures
            res == (*self == *other),
    {
        let mut i: usize = 0;
        while i < 12
            invariant
                0 <= i <= 12,
                forall|j: int| 0 <= j < i ==> self.c[j] == other.c[j],
            decreases 12 - i,
        {
            if !base_elements_equal(&self.c[i], &other.c[i]) {
                return false;
            }
            i += 1;
        }
        proof {
            assert(self.c =~= other.c);
        }
        true
    }
}

/// The product of the pairings of the pairs `(g1s[i], g2s[i])`, or `None`
/// where the product of their Miller loops has no inverse. The two slices
/// have to be of one length.
pub fn pairing_product(g1s: &[G1Point], g2s: &[G2Point]) -> (res: Option<TargetElement>)
    requires
        g1s@.len() == g2s@.len(),
    ensures
        res == pairing_value(g1s@, g2s@),
{
    let f = multi_miller_loop(g1s, g2s);
    final_exponentiation(&f)
}

/// `ark_ec::pairing::Pairing::multi_miller_loop` of `Bls12_377` on the
/// points in affine form. `ark-ec` panics where the two slices differ in
/// length.
#[verifier::external_body]
fn multi_miller_loop(g1s: &[G1Point], g2s: &[G2Point]) -> (res: TargetElement)
    requires
        g1s@.len() == g2s@.len(),
    ensures
        res == miller_product(g1s@, g2s@),
{
    let f = |l| Fq::new_unchecked(BigInt(l));
    let g = |l: [[u64; 6]; 2]| Fq2::new(f(l[0]), f(l[1]));
    let a = g1s.iter().map(|p| G1Affine { x: f(p.x), y: f(p.y), infinity: p.infinity });
    let b = g2s.iter().map(|p| G2Affine { x: g(p.x), y: g(p.y), infinity: p.infinity });
    let r = Bls12_377::multi_miller_loop(a, b).0;
    let c: Vec<_> = r.to_base_prime_field_elements().map(|e| e.0.0).collect();
    TargetElement { c: c.try_into().unwrap() }
}

/// `ark_ec::pairing::Pairing::final_exponentiation` of `Bls12_377`: `None`
/// where the argument has no inverse in the target field.
#[verifier::external_body]
fn final_exponentiation(f: &TargetElement) -> (res: Option<TargetElement>)
    ensures
        res == final_exponent(*f),
{
    let e = f.c.map(|l| Fq::new_unchecked(BigInt(l)));
    let x = Fq12::from_base_prime_field_elems(&e).unwrap();
    match Bls12_377::final_exponentiation(MillerLoopOutput(x)) {
        Some(r) => {
            let c: Vec<[u64; 6]> = r.0.to_base_prime_field_elements().map(|e| e.0.0).collect();
            Some(TargetElement { c: c.try_into().unwrap() })
        },
        None => None,
    }
}

} // verus!
