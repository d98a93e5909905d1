//! The scalar field of BLS12-377: the integers below its prime order, each
//! kept as four 64-bit limbs, least significant first.

use ark_bls12_377::Fr;
use ark_ff::{BigInt, PrimeField};
use ark_std::rand::{CryptoRng, RngCore};
use vstd::arithmetic::div_mod::lemma_fundamental_div_mod_converse;
use vstd::prelude::*;

verus! {

/// The limbs of the order of the scalar field, least significant first.
pub const SCALAR_MODULUS_0: u64 = 0x0a11800000000001;
pub const SCALAR_MODULUS_1: u64 = 0x59aa76fed0000001;
pub const SCALAR_MODULUS_2: u64 = 0x60b44d1e5c37b001;
pub const SCALAR_MODULUS_3: u64 = 0x12ab655e9a2ca556;

/// The order of the scalar field.
pub open spec fn scalar_modulus() -> nat {
    8444461749428370424248824938781546531375899335154063827935233455917409239041nat
}

/// The integer that four limbs stand for.
pub open spec fn limbs4_value(l: Seq<u64>) -> nat {
    (l[0] as nat) + 0x1_0000_0000_0000_0000nat * ((l[1] as nat) + 0x1_0000_0000_0000_0000nat * (
    (l[2] as nat) + 0x1_0000_0000_0000_0000nat * (l[3] as nat)))
}

/// The integer that a run of bytes stands for, least significant first.
pub open spec fn le_bytes_value(bytes: Seq<u8>) -> nat
    decreases bytes.len(),
{
    if bytes.len() == 0 {
        0
    } else {
        (bytes[0] as nat) + 256 * le_bytes_value(bytes.drop_first())
    }
}

/// Four limbs determine their integer, and the integer its limbs.
pub proof fn lemma_limbs4_value_injective(a: Seq<u64>, b: Seq<u64>)
    requires
        a.len() == 4,
        b.len() == 4,
        limbs4_value(a) == limbs4_value(b),
    ensures
        a == b,
{
    let base = 0x1_0000_0000_0000_0000int;
    let a2 = a[2] as int + base * (a[3] as int);
    let b2 = b[2] as int + base * (b[3] as int);
    let a1 = a[1] as int + base * a2;
    let b1 = b[1] as int + base * b2;
    let v = limbs4_value(a) as int;
    lemma_fundamental_div_mod_converse(v, base, a1, a[0] as int);
    lemma_fundamental_div_mod_converse(v, base, b1, b[0] as int);
    lemma_fundamental_div_mod_converse(a1, base, a2, a[1] as int);
    lemma_fundamental_div_mod_converse(a1, base, b2, b[1] as int);
    lemma_fundamental_div_mod_converse(a2, base, a[3] as int, a[2] as int);
    lemma_fundamental_div_mod_converse(a2, base, b[3] as int, b[2] as int);
    assert(a =~= b);
}

/// An element of the scalar field. Its value is below the modulus, and the
/// functions that hand scalars to `ark-ff` rely on that.
#[derive(Clone, Copy, Debug, PartialEq, Eq)]
pub struct Scalar {
    pub(crate) limbs: [u64; 4],
}

impl Scalar {
    /// The integer in `0..scalar_modulus()` that the scalar is.
    pub closed spec fn value(self) -> nat {
        limbs4_value(self.limbs@)
    }

    /// The value is below the modulus. This holds of every scalar.
    #[verifier::type_invariant]
    pub open spec fn canonical(self) -> bool {
        self.value() < scalar_modulus()
    }

    /// Scalars of the same value are the same scalar.
    pub proof fn lemma_value_injective(a: Scalar, b: Scalar)
        requires
            a.value() == b.value(),
        ensures
            a == b,
    {
        lemma_limbs4_value_injective(a.limbs@, b.limbs@);
        assert(a.limbs =~= b.limbs);
    }

    /// The scalar with the given limbs, where they are below the modulus.
    pub fn new(limbs: [u64; 4]) -> (res: Option<Scalar>)
        ensures
            res is Some <==> limbs4_value(limbs@) < scalar_modulus(),
            res matches Some(s) ==> s.value() == limbs4_value(limbs@),
    {
        let below = if limbs[3] != SCALAR_MODULUS_3 {
            limbs[3] < SCALAR_MODULUS_3
        } else if limbs[2] != SCALAR_MODULUS_2 {
            limbs[2] < SCALAR_MODULUS_2
        } else if limbs[1] != SCALAR_MODULUS_1 {
            limbs[1] < SCALAR_MODULUS_1
        } else {
            limbs[0] < SCALAR_MODULUS_0
        };
        if below {
            Some(Scalar { limbs })
        } else {
            None
        }
    }

    /// The scalar of a 64-bit integer.
    pub fn from_u64(n: u64) -> (res: Scalar)
        ensures
            res.value() == n,
    {
        Scalar { limbs: [n, 0, 0, 0] }
    }

    /// The zero of the field.
    pub fn zero() -> (res: Scalar)
        ensures
            res.value() == 0,
    {
        Scalar::from_u64(0)
    }

    /// The one of the field.
    pub fn one() -> (res: Scalar)
        ensures
            res.value() == 1,
    {
        Scalar::from_u64(1)
    }

    /// The limbs of the scalar.
    pub fn limbs(&self) -> (res: [u64; 4])
        ensures
            limbs4_value(res@) == self.value(),
    {
        self.limbs
    }

    /// Whether the scalar is the zero of the field.
    pub fn is_zero(&self) -> (res: bool)
        ensures
            res == (self.value() == 0),
    {
        self.limbs[0] == 0 && self.limbs[1] == 0 && self.limbs[2] == 0 && self.limbs[3] == 0
    }

    /// Whether two scalars are the same.
    pub fn equals(&self, other: &Scalar) -> (res: bool)
        ensures
            res == (*self == *other),
            res == (self.value() == other.value()),
    {
        let res = self.limbs[0] == other.limbs[0] && self.limbs[1] == other.limbs[1]
            && self.limbs[2] == other.limbs[2] && self.limbs[3] == other.limbs[3];
        proof {
            if res {
                assert(self.limbs =~= other.limbs);
            }
            if self.value() == other.value() {
                Scalar::lemma_value_injective(*self, *other);
            }
        }
        res
    }

    /// The sum of two scalars in the field.
    pub fn sum(&self, other: &Scalar) -> (res: Scalar)
        ensures
            res.value() == (self.value() + other.value()) % scalar_modulus(),
    {
        field_add(self, other)
    }

    /// The product of two scalars in the field.
    pub fn product(&self, other: &Scalar) -> (res: Scalar)
        ensures
            res.value() == (self.value() * other.value()) % scalar_modulus(),
    {
        field_mul(self, other)
    }

    /// The scalar that 64 bytes, read as an integer with the least
    /// significant byte first, reduce to.
    pub fn from_wide_bytes(bytes: &[u8; 64]) -> (res: Scalar)
        ensures
            res.value() == le_bytes_value(bytes@) % scalar_modulus(),
    {
        reduce_wide(bytes)
    }

    /// Draws a scalar from `rng`: 64 bytes of it, reduced, which keeps the
    /// result of a uniform source close to uniform. `None` where the source
    /// fails; it is not asked again.
    ///
    /// The source has to be cryptographically secure: a scalar drawn here
    /// blinds a proof, and a guessable one gives the witness away.
    pub fn sample<R: RngCore + CryptoRng>(rng: &mut R) -> (res: Option<Scalar>)
        ensures
            res matches Some(s) ==> s.value() < scalar_modulus(),
    {
        Scalar::from_draw(draw_bytes(rng))
    }

    /// The scalar of what a random source gave: the reduction of the 64
    /// bytes where it gave them, and `None` where it failed.
    pub fn from_draw(drawn: Option<[u8; 64]>) -> (res: Option<Scalar>)
        ensures
            res is Some <==> drawn is Some,
            res matches Some(s) ==> s.value() == le_bytes_value(drawn->Some_0@)
                % scalar_modulus() && s.value() < scalar_modulus(),
    {
        match drawn {
            Some(bytes) => {
                let s = Scalar::from_wide_bytes(&bytes);
                proof {
                    use_type_invariant(&s);
                }
                Some(s)
            },
            None => None,
        }
    }
}

/// `ark_ff`'s addition in `Fr`, `+` on two field elements: the sum of the
/// two integers, reduced by the modulus. A scalar is below the modulus, so
/// `PrimeField::from_bigint` has a value for it, and
/// `PrimeField::into_bigint` gives the integer of the sum.
#[verifier::external_body]
fn field_add(a: &Scalar, b: &Scalar) -> (res: Scalar)
    ensures
        res.value() == (a.value() + b.value()) % scalar_modulus(),
{
    let x = Fr::from_bigint(BigInt(a.limbs)).unwrap();
    let y = Fr::from_bigint(BigInt(b.limbs)).unwrap();
    Scalar { limbs: (x + y).into_bigint().0 }
}

/// `ark_ff`'s multiplication in `Fr`, `*` on two field elements: the
/// product of the two integers, reduced by the modulus. A scalar is below
/// the modulus, so `PrimeField::from_bigint` has a value for it, and
/// `PrimeField::into_bigint` gives the integer of the product.
#[verifier::external_body]
fn field_mul(a: &Scalar, b: &Scalar) -> (res: Scalar)
    ensures
        res.value() == (a.value() * b.value()) % scalar_modulus(),
{
    let x = Fr::from_bigint(BigInt(a.limbs)).unwrap();
    let y = Fr::from_bigint(BigInt(b.limbs)).unwrap();
    Scalar { limbs: (x * y).into_bigint().0 }
}

/// `ark_ff::PrimeField::from_le_bytes_mod_order` for `Fr`: the bytes are
/// read as an integer, least significant byte first, and reduced by the
/// modulus.
#[verifier::external_body]
fn reduce_wide(bytes: &[u8; 64]) -> (res: Scalar)
    ensures
        res.value() == le_bytes_value(bytes@) % scalar_modulus(),
{
    Scalar { limbs: Fr::from_le_bytes_mod_order(bytes).into_bigint().0 }
}

/// `rand_core::RngCore::try_fill_bytes` on a buffer of 64 bytes: the filled
/// buffer, or `None` where the source reports an error. Nothing is claimed
/// of the bytes.
#[verifier::external_body]
fn draw_bytes<R: RngCore + CryptoRng>(rng: &mut R) -> (res: Option<[u8; 64]>) {
    let mut buf = [0u8; 64];
    match rng.try_fill_bytes(&mut buf) {
        Ok(()) => Some(buf),
        Err(_) => None,
    }
}

} // verus!
