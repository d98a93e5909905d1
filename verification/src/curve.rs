//! The two source groups of BLS12-377, in affine coordinates.
//!
//! A point is plain data: the limbs of its coordinates and a flag for the
//! point at infinity. The group law, scalar multiplication, the
//! multi-scalar multiplication and the membership test are `ark-ec`'s; their
//! results are named here and otherwise left uninterpreted. The inverse of
//! a point is computed here.
//!
//! Every point holds elements of the base field, that is limbs below the
//! modulus, and the functions that hand points to `ark-ec` rely on that. A
//! point need not lie on the curve: `ark-ec` computes with any coordinates,
//! and `is_valid` tells whether a point belongs to its group.

use crate::field::{
    base_element_check, base_elements_equal, base_negate, base_negation, base_zero_check,
    is_base_element, is_base_zero, lemma_base_zero_is_element,
};
use crate::scalar::Scalar;
use ark_bls12_377::{Fq, Fq2, G1Affine, G1Projective, G2Affine, G2Projective};
use ark_ec::{AffineRepr, CurveGroup, VariableBaseMSM};
use ark_ff::BigInt;
use ark_serialize::Valid;
use vstd::prelude::*;

verus! {

/// A point of the first source group, or any pair of base field elements
/// standing where one is expected: membership is tested by `is_valid`. The
/// point at infinity has both coordinates zero.
#[derive(Clone, Copy, Debug, PartialEq, Eq)]
pub struct G1Point {
    pub(crate) x: [u64; 6],
    pub(crate) y: [u64; 6],
    pub(crate) infinity: bool,
}

/// A point of the second source group, with coordinates in the quadratic
/// extension of the base field, or any two such pairs standing where one is
/// expected. The point at infinity has both coordinates zero.
#[derive(Clone, Copy, Debug, PartialEq, Eq)]
pub struct G2Point {
    pub(crate) x: [[u64; 6]; 2],
    pub(crate) y: [[u64; 6]; 2],
    pub(crate) infinity: bool,
}

/// The affine form of `a + b` in the first group, as `ark-ec` computes it.
pub uninterp spec fn g1_sum(a: G1Point, b: G1Point) -> G1Point;

/// The affine form of `k · p` in the first group, as `ark-ec` computes it.
pub uninterp spec fn g1_multiple(p: G1Point, k: Scalar) -> G1Point;

/// The affine form of the sum of the `scalars[i] · bases[i]` over the common
/// indices of the two sequences, in the first group, as `ark-ec` computes it.
pub uninterp spec fn g1_msm(bases: Seq<G1Point>, scalars: Seq<Scalar>) -> G1Point;

/// The point lies on the curve and in the subgroup of prime order that is
/// the first group.
pub uninterp spec fn g1_valid(p: G1Point) -> bool;

/// The affine form of `a + b` in the second group, as `ark-ec` computes it.
pub uninterp spec fn g2_sum(a: G2Point, b: G2Point) -> G2Point;

/// The affine form of `k · p` in the second group, as `ark-ec` computes it.
pub uninterp spec fn g2_multiple(p: G2Point, k: Scalar) -> G2Point;

/// The affine form of the sum of the `scalars[i] · bases[i]` over the common
/// indices of the two sequences, in the second group, as `ark-ec` computes
/// it.
pub uninterp spec fn g2_msm(bases: Seq<G2Point>, scalars: Seq<Scalar>) -> G2Point;

/// The point lies on the twisted curve and in the subgroup of prime order
/// that is the second group.
pub uninterp spec fn g2_valid(p: G2Point) -> bool;

/// What the proving and verifying algorithms ask of a group: a sum, a
/// multiple, a multi-scalar multiplication and a membership test.
pub trait CurvePoint: Sized + Copy {
    /// The sum of two points.
    spec fn sum(a: Self, b: Self) -> Self;

    /// The multiple of a point by a scalar.
    spec fn multiple(p: Self, k: Scalar) -> Self;

    /// The sum of the multiples `scalars[i] · bases[i]`.
    spec fn msm(bases: Seq<Self>, scalars: Seq<Scalar>) -> Self;

    /// The point belongs to the group.
    spec fn valid(p: Self) -> bool;

    /// The point at infinity.
    spec fn neutral() -> Self;

    /// The sum of `self` and `other`. The point at infinity adds nothing,
    /// whatever the other point is.
    fn plus(&self, other: &Self) -> (res: Self)
        ensures
            res == Self::sum(*self, *other),
            *other == Self::neutral() ==> res == *self,
            *self == Self::neutral() ==> res == *other,
    ;

    /// The multiple of `self` by `k`. The multiple by zero is the point at
    /// infinity, whatever the point is.
    fn times(&self, k: &Scalar) -> (res: Self)
        ensures
            res == Self::multiple(*self, *k),
            k.value() == 0 ==> res == Self::neutral(),
    ;

    /// The sum of the multiples `scalars[i] · bases[i]`. Where one slice is
    /// longer than the other, what exceeds the shorter is left out.
    fn multi_scalar_mul(bases: &[Self], scalars: &[Scalar]) -> (res: Self)
        ensures
            res == Self::msm(bases@, scalars@),
    ;

    /// Whether `self` belongs to the group.
    fn is_valid(&self) -> (res: bool)
        ensures
            res == Self::valid(*self),
    ;
}

impl View for G1Point {
    type V = (Seq<u64>, Seq<u64>, bool);

    closed spec fn view(&self) -> (Seq<u64>, Seq<u64>, bool) {
        (self.x@, self.y@, self.infinity)
    }
}

impl G1Point {
    #[verifier::type_invariant]
    spec fn well_formed(self) -> bool {
        &&& is_base_element(self.x)
        &&& is_base_element(self.y)
        &&& self.infinity ==> is_base_zero(self.x) && is_base_zero(self.y)
    }

    /// The coordinates that `new` accepts: two elements of the base field,
    /// both zero where the point is the one at infinity.
    pub open spec fn admits(x: [u64; 6], y: [u64; 6], infinity: bool) -> bool {
        &&& is_base_element(x)
        &&& is_base_element(y)
        &&& infinity ==> is_base_zero(x) && is_base_zero(y)
    }

    /// Points with the same coordinates and flag are the same point.
    pub proof fn lemma_view_injective(a: G1Point, b: G1Point)
        requires
            a@ == b@,
        ensures
            a == b,
    {
        assert(a.x =~= b.x);
        assert(a.y =~= b.y);
    }

    /// The point with the given coordinates, where `admits` holds of them.
    /// Whether it lies on the curve is not asked here.
    pub fn new(x: [u64; 6], y: [u64; 6], infinity: bool) -> (res: Option<G1Point>)
        ensures
            res is Some <==> G1Point::admits(x, y, infinity),
            res matches Some(p) ==> p@ == (x@, y@, infinity),
    {
        if !base_element_check(&x) || !base_element_check(&y) {
            return None;
        }
        if infinity && !(base_zero_check(&x) && base_zero_check(&y)) {
            return None;
        }
        Some(G1Point { x, y, infinity })
    }

    /// The point at infinity, the neutral element of the group.
    pub fn identity() -> (res: G1Point)
        ensures
            res == G1Point::identity_point(),
    {
        let zero: [u64; 6] = [0, 0, 0, 0, 0, 0];
        proof {
            lemma_base_zero_is_element(zero);
        }
        let res = G1Point { x: zero, y: zero, infinity: true };
        proof {
            G1Point::lemma_view_injective(res, G1Point::identity_point());
        }
        res
    }

    /// The point at infinity.
    pub closed spec fn identity_point() -> G1Point {
        G1Point { x: [0u64, 0u64, 0u64, 0u64, 0u64, 0u64], y: [0u64, 0u64, 0u64, 0u64, 0u64, 0u64], infinity: true }
    }

    /// The limbs of the first coordinate.
    pub fn x(&self) -> (res: [u64; 6])
        ensures
            res@ == self@.0,
    {
        self.x
    }

    /// The limbs of the second coordinate.
    pub fn y(&self) -> (res: [u64; 6])
        ensures
            res@ == self@.1,
    {
        self.y
    }

    /// Whether the point is the one at infinity.
    pub fn is_identity(&self) -> (res: bool)
        ensures
            res == self@.2,
            res == (*self == G1Point::identity_point()),
    {
        proof {
            use_type_invariant(self);
            if self.infinity {
                assert(self.x =~= [0u64, 0u64, 0u64, 0u64, 0u64, 0u64]);
                assert(self.y =~= [0u64, 0u64, 0u64, 0u64, 0u64, 0u64]);
            }
        }
        self.infinity
    }

    /// Whether two points are the same.
    pub fn equals(&self, other: &G1Point) -> (res: bool)
        ensures
            res == (*self == *other),
    {
        base_elements_equal(&self.x, &other.x) && base_elements_equal(&self.y, &other.y)
            && self.infinity == other.infinity
    }
}

impl CurvePoint for G1Point {
    open spec fn sum(a: G1Point, b: G1Point) -> G1Point {
        g1_sum(a, b)
    }

    open spec fn multiple(p: G1Point, k: Scalar) -> G1Point {
        g1_multiple(p, k)
    }

    open spec fn msm(bases: Seq<G1Point>, scalars: Seq<Scalar>) -> G1Point {
        g1_msm(bases, scalars)
    }

    open spec fn valid(p: G1Point) -> bool {
        g1_valid(p)
    }

    open spec fn neutral() -> G1Point {
        G1Point::identity_point()
    }

    fn plus(&self, other: &G1Point) -> (res: G1Point) {
        g1_add(self, other)
    }

    fn times(&self, k: &Scalar) -> (res: G1Point) {
        g1_mul_bigint(self, k)
    }

    fn multi_scalar_mul(bases: &[G1Point], scalars: &[Scalar]) -> (res: G1Point) {
        g1_msm_bigint(bases, scalars)
    }

    fn is_valid(&self) -> (res: bool) {
        g1_check(self)
    }
}

/// `+` on two `ark_ec::short_weierstrass::Affine` points of the first group,
/// then `CurveGroup::into_affine`: the affine form of their sum. The
/// addition leaves the first point as it is where the second is the point at
/// infinity, and takes the second where the first is; `into_affine` gives
/// back the coordinates of a point with `z = 1`.
#[verifier::external_body]
fn g1_add(a: &G1Point, b: &G1Point) -> (res: G1Point)
    ensures
        res == g1_sum(*a, *b),
        *b == G1Point::identity_point() ==> res == *a,
        *a == G1Point::identity_point() ==> res == *b,
{
    let f = |l| Fq::new_unchecked(BigInt(l));
    let p = G1Affine { x: f(a.x), y: f(a.y), infinity: a.infinity };
    let q = G1Affine { x: f(b.x), y: f(b.y), infinity: b.infinity };
    let r = (p + q).into_affine();
    G1Point { x: r.x.0.0, y: r.y.0.0, infinity: r.infinity }
}

/// `AffineRepr::mul_bigint` on a point of the first group and the integer of
/// the scalar, then `CurveGroup::into_affine`: the affine form of the
/// multiple. The multiplication starts from the point at infinity and adds
/// for each bit that is set, so for zero it ends there.
#[verifier::external_body]
fn g1_mul_bigint(p: &G1Point, k: &Scalar) -> (res: G1Point)
    ensures
        res == g1_multiple(*p, *k),
        k.value() == 0 ==> res == G1Point::identity_point(),
{
    let f = |l| Fq::new_unchecked(BigInt(l));
    let q = G1Affine { x: f(p.x), y: f(p.y), infinity: p.infinity };
    let r = q.mul_bigint(BigInt(k.limbs)).into_affine();
    G1Point { x: r.x.0.0, y: r.y.0.0, infinity: r.infinity }
}

/// `VariableBaseMSM::msm_bigint` of the first group on the points and the
/// integers of the scalars, then `CurveGroup::into_affine`. `ark-ec` cuts
/// both slices to the length of the shorter one.
#[verifier::external_body]
fn g1_msm_bigint(bases: &[G1Point], scalars: &[Scalar]) -> (res: G1Point)
    ensures
        res == g1_msm(bases@, scalars@),
{
    let f = |l| Fq::new_unchecked(BigInt(l));
    let b: Vec<_> =
        bases.iter().map(|p| G1Affine { x: f(p.x), y: f(p.y), infinity: p.infinity }).collect();
    let k: Vec<_> = scalars.iter().map(|s| BigInt(s.limbs)).collect();
    let r = G1Projective::msm_bigint(&b, &k).into_affine();
    G1Point { x: r.x.0.0, y: r.y.0.0, infinity: r.infinity }
}

/// `ark_serialize::Valid::check` on a point of the first group: it succeeds
/// where the point is on the curve and in the subgroup of prime order.
#[verifier::external_body]
fn g1_check(p: &G1Point) -> (res: bool)
    ensures
        res == g1_valid(*p),
{
    let f = |l| Fq::new_unchecked(BigInt(l));
    G1Affine { x: f(p.x), y: f(p.y), infinity: p.infinity }.check().is_ok()
}

impl View for G2Point {
    type V = (Seq<Seq<u64>>, Seq<Seq<u64>>, bool);

    closed spec fn view(&self) -> (Seq<Seq<u64>>, Seq<Seq<u64>>, bool) {
        (seq![self.x[0]@, self.x[1]@], seq![self.y[0]@, self.y[1]@], self.infinity)
    }
}

impl G2Point {
    #[verifier::type_invariant]
    spec fn well_formed(self) -> bool {
        G2Point::admits(self.x, self.y, self.infinity)
    }

    /// The coordinates that `new` accepts: two pairs of elements of the base
    /// field, all zero where the point is the one at infinity.
    pub open spec fn admits(x: [[u64; 6]; 2], y: [[u64; 6]; 2], infinity: bool) -> bool {
        &&& is_base_element(x[0])
        &&& is_base_element(x[1])
        &&& is_base_element(y[0])
        &&& is_base_element(y[1])
        &&& infinity ==> is_base_zero(x[0]) && is_base_zero(x[1]) && is_base_zero(y[0])
            && is_base_zero(y[1])
    }

    /// Points with the same coordinates and flag are the same point.
    pub proof fn lemma_view_injective(a: G2Point, b: G2Point)
        requires
            a@ == b@,
        ensures
            a == b,
    {
        assert(a@.0[0] == b@.0[0] && a@.0[1] == b@.0[1]);
        assert(a@.1[0] == b@.1[0] && a@.1[1] == b@.1[1]);
        assert(a.x[0] =~= b.x[0]);
        assert(a.x[1] =~= b.x[1]);
        assert(a.y[0] =~= b.y[0]);
        assert(a.y[1] =~= b.y[1]);
        assert(a.x =~= b.x);
        assert(a.y =~= b.y);
    }

    /// The point with the given coordinates, where `admits` holds of them.
    /// Whether it lies on the curve is not asked here.
    pub fn new(x: [[u64; 6]; 2], y: [[u64; 6]; 2], infinity: bool) -> (res: Option<G2Point>)
        ensures
            res is Some <==> G2Point::admits(x, y, infinity),
            res matches Some(p) ==> p@ == (seq![x[0]@, x[1]@], seq![y[0]@, y[1]@], infinity),
    {
        if !base_element_check(&x[0]) || !base_element_check(&x[1]) || !base_element_check(&y[0])
            || !base_element_check(&y[1]) {
            return None;
        }
        if infinity && !(base_zero_check(&x[0]) && base_zero_check(&x[1]) && base_zero_check(&y[0])
            && base_zero_check(&y[1])) {
            return None;
        }
        Some(G2Point { x, y, infinity })
    }

    /// The point at infinity.
    pub closed spec fn identity_point() -> G2Point {
        G2Point { x: [[0u64, 0u64, 0u64, 0u64, 0u64, 0u64], [0u64, 0u64, 0u64, 0u64, 0u64, 0u64]], y: [[0u64, 0u64, 0u64, 0u64, 0u64, 0u64], [0u64, 0u64, 0u64, 0u64, 0u64, 0u64]], infinity: true }
    }

    /// The point at infinity, the neutral element of the group.
    pub fn identity() -> (res: G2Point)
        ensures
            res == G2Point::identity_point(),
    {
        let zero: [u64; 6] = [0, 0, 0, 0, 0, 0];
        proof {
            lemma_base_zero_is_element(zero);
        }
        let res = G2Point { x: [zero, zero], y: [zero, zero], infinity: true };
        proof {
            let id = G2Point::identity_point();
            assert(res@.0 =~= id@.0);
            assert(res@.1 =~= id@.1);
            G2Point::lemma_view_injective(res, id);
        }
        res
    }

    /// The generator of the second group that `ark-bls12-377` fixes.
    pub closed spec fn generator_point() -> G2Point {
        G2Point {
            x: [
                [
                    0x68904082f268725bu64,
                    0x668f2ea74f45328bu64,
                    0xebca7a65802be84fu64,
                    0x1e1850f4c1ada3e6u64,
                    0x830dc22d588ef1e9u64,
                    0x01862a81767c0982u64,
                ],
                [
                    0x5f02a915c91c7f39u64,
                    0xf8c553ba388da2a7u64,
                    0xd51a416dbd198850u64,
                    0xe943c6f38ae3073au64,
                    0xffe24aa8259a4981u64,
                    0x011853391e73dfddu64,
                ],
            ],
            y: [
                [
                    0xd5b19b897881430fu64,
                    0x05be9118a5b371edu64,
                    0x6063f91f86c131eeu64,
                    0x3244a61be8f4ec19u64,
                    0xa02e425b9f9a3a12u64,
                    0x018af8c04f3360d2u64,
                ],
                [
                    0x57601ac71a5b96f5u64,
                    0xe99acc1714f2440eu64,
                    0x2339612f10118ea9u64,
                    0x8321e68a3b1cd722u64,
                    0x2b543b050cc74917u64,
                    0x00590182b396c112u64,
                ],
            ],
            infinity: false,
        }
    }

    /// The generator of the second group that `ark-bls12-377` fixes.
    pub fn generator() -> (res: G2Point)
        ensures
            res == G2Point::generator_point(),
    {
        let x0: [u64; 6] = [
            0x68904082f268725b,
            0x668f2ea74f45328b,
            0xebca7a65802be84f,
            0x1e1850f4c1ada3e6,
            0x830dc22d588ef1e9,
            0x01862a81767c0982,
        ];
        let x1: [u64; 6] = [
            0x5f02a915c91c7f39,
            0xf8c553ba388da2a7,
            0xd51a416dbd198850,
            0xe943c6f38ae3073a,
            0xffe24aa8259a4981,
            0x011853391e73dfdd,
        ];
        let y0: [u64; 6] = [
            0xd5b19b897881430f,
            0x05be9118a5b371ed,
            0x6063f91f86c131ee,
            0x3244a61be8f4ec19,
            0xa02e425b9f9a3a12,
            0x018af8c04f3360d2,
        ];
        let y1: [u64; 6] = [
            0x57601ac71a5b96f5,
            0xe99acc1714f2440e,
            0x2339612f10118ea9,
            0x8321e68a3b1cd722,
            0x2b543b050cc74917,
            0x00590182b396c112,
        ];
        let res = G2Point { x: [x0, x1], y: [y0, y1], infinity: false };
        proof {
            let g = G2Point::generator_point();
            assert(res@.0 =~= g@.0);
            assert(res@.1 =~= g@.1);
            G2Point::lemma_view_injective(res, g);
        }
        res
    }

    /// The limbs of the first coordinate.
    pub fn x(&self) -> (res: [[u64; 6]; 2])
        ensures
            seq![res[0]@, res[1]@] == self@.0,
    {
        self.x
    }

    /// The limbs of the second coordinate.
    pub fn y(&self) -> (res: [[u64; 6]; 2])
        ensures
            seq![res[0]@, res[1]@] == self@.1,
    {
        self.y
    }

    /// Whether the point is the one at infinity.
    pub fn is_identity(&self) -> (res: bool)
        ensures
            res == self@.2,
            res == (*self == G2Point::identity_point()),
    {
        proof {
            use_type_invariant(self);
            let id = G2Point::identity_point();
            if self.infinity {
                assert(self.x[0] =~= id.x[0]);
                assert(self.x[1] =~= id.x[1]);
                assert(self.y[0] =~= id.y[0]);
                assert(self.y[1] =~= id.y[1]);
                assert(self.x =~= id.x);
                assert(self.y =~= id.y);
            }
        }
        self.infinity
    }

    /// Whether two points are the same.
    pub fn equals(&self, other: &G2Point) -> (res: bool)
        ensures
            res == (*self == *other),
    {
        let res = base_elements_equal(&self.x[0], &other.x[0]) && base_elements_equal(
            &self.x[1],
            &other.x[1],
        ) && base_elements_equal(&self.y[0], &other.y[0]) && base_elements_equal(
            &self.y[1],
            &other.y[1],
        ) && self.infinity == other.infinity;
        proof {
            if res {
                assert(self.x =~= other.x);
                assert(self.y =~= other.y);
            }
        }
        res
    }

    /// The inverse of a point in the group: the point with the second
    /// coordinate negated, and the point at infinity for itself.
    pub closed spec fn negated(p: G2Point) -> G2Point {
        G2Point {
            x: p.x,
            y: [base_negation(p.y[0]), base_negation(p.y[1])],
            infinity: p.infinity,
        }
    }

    /// The inverse of the point in the group.
    pub fn negation(&self) -> (res: G2Point)
        ensures
            res == G2Point::negated(*self),
    {
        proof {
            use_type_invariant(self);
        }
        let y0 = base_negate(&self.y[0]);
        let y1 = base_negate(&self.y[1]);
        let res = G2Point { x: self.x, y: [y0, y1], infinity: self.infinity };
        proof {
            let n = G2Point::negated(*self);
            assert(res.y[0] == n.y[0] && res.y[1] == n.y[1]);
            assert(res.y =~= n.y);
        }
        res
    }
}

impl CurvePoint for G2Point {
    open spec fn sum(a: G2Point, b: G2Point) -> G2Point {
        g2_sum(a, b)
    }

    open spec fn multiple(p: G2Point, k: Scalar) -> G2Point {
        g2_multiple(p, k)
    }

    open spec fn msm(bases: Seq<G2Point>, scalars: Seq<Scalar>) -> G2Point {
        g2_msm(bases, scalars)
    }

    open spec fn valid(p: G2Point) -> bool {
        g2_valid(p)
    }

    open spec fn neutral() -> G2Point {
        G2Point::identity_point()
    }

    fn plus(&self, other: &G2Point) -> (res: G2Point) {
        g2_add(self, other)
    }

    fn times(&self, k: &Scalar) -> (res: G2Point) {
        g2_mul_bigint(self, k)
    }

    fn multi_scalar_mul(bases: &[G2Point], scalars: &[Scalar]) -> (res: G2Point) {
        g2_msm_bigint(bases, scalars)
    }

    fn is_valid(&self) -> (res: bool) {
        g2_check(self)
    }
}

/// `+` on two `ark_ec::short_weierstrass::Affine` points of the second
/// group, then `CurveGroup::into_affine`: the affine form of their sum. The
/// addition leaves the first point as it is where the second is the point at
/// infinity, and takes the second where the first is; `into_affine` gives
/// back the coordinates of a point with `z = 1`.
#[verifier::external_body]
fn g2_add(a: &G2Point, b: &G2Point) -> (res: G2Point)
    ensures
        res == g2_sum(*a, *b),
        *b == G2Point::identity_point() ==> res == *a,
        *a == G2Point::identity_point() ==> res == *b,
{
    let f = |[a, b]: [_; 2]| Fq2::new(Fq::new_unchecked(BigInt(a)), Fq::new_unchecked(BigInt(b)));
    let p = G2Affine { x: f(a.x), y: f(a.y), infinity: a.infinity };
    let q = G2Affine { x: f(b.x), y: f(b.y), infinity: b.infinity };
    let r = (p + q).into_affine();
    G2Point { x: [r.x.c0.0.0, r.x.c1.0.0], y: [r.y.c0.0.0, r.y.c1.0.0], infinity: r.infinity }
}

/// `AffineRepr::mul_bigint` on a point of the second group and the integer
/// of the scalar, then `CurveGroup::into_affine`: the affine form of the
/// multiple. The multiplication starts from the point at infinity and adds
/// for each bit that is set, so for zero it ends there.
#[verifier::external_body]
fn g2_mul_bigint(p: &G2Point, k: &Scalar) -> (res: G2Point)
    ensures
        res == g2_multiple(*p, *k),
        k.value() == 0 ==> res == G2Point::identity_point(),
{
    let f = |[a, b]: [_; 2]| Fq2::new(Fq::new_unchecked(BigInt(a)), Fq::new_unchecked(BigInt(b)));
    let q = G2Affine { x: f(p.x), y: f(p.y), infinity: p.infinity };
    let r = q.mul_bigint(BigInt(k.limbs)).into_affine();
    G2Point { x: [r.x.c0.0.0, r.x.c1.0.0], y: [r.y.c0.0.0, r.y.c1.0.0], infinity: r.infinity }
}

/// `VariableBaseMSM::msm_bigint` of the second group on the points and the
/// integers of the scalars, then `CurveGroup::into_affine`. `ark-ec` cuts
/// both slices to the length of the shorter one.
#[verifier::external_body]
fn g2_msm_bigint(bases: &[G2Point], scalars: &[Scalar]) -> (res: G2Point)
    ensures
        res == g2_msm(bases@, scalars@),
{
    let f = |[a, b]: [_; 2]| Fq2::new(Fq::new_unchecked(BigInt(a)), Fq::new_unchecked(BigInt(b)));
    let b: Vec<_> =
        bases.iter().map(|p| G2Affine { x: f(p.x), y: f(p.y), infinity: p.infinity }).collect();
    let k: Vec<_> = scalars.iter().map(|s| BigInt(s.limbs)).collect();
    let r = G2Projective::msm_bigint(&b, &k).into_affine();
    G2Point { x: [r.x.c0.0.0, r.x.c1.0.0], y: [r.y.c0.0.0, r.y.c1.0.0], infinity: r.infinity }
}

/// `ark_serialize::Valid::check` on a point of the second group: it
/// succeeds where the point is on the curve and in the subgroup of prime
/// order.
#[verifier::external_body]
fn g2_check(p: &G2Point) -> (res: bool)
    ensures
        res == g2_valid(*p),
{
    let f = |[a, b]: [_; 2]| Fq2::new(Fq::new_unchecked(BigInt(a)), Fq::new_unchecked(BigInt(b)));
    G2Affine { x: f(p.x), y: f(p.y), infinity: p.infinity }.check().is_ok()
}

} // verus!
