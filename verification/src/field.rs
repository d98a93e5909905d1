//! The base field of BLS12-377. An element is six 64-bit limbs, least
//! significant first, holding the Montgomery residue that `ark-ff` computes
//! with; the limbs stand for an integer below the modulus.

use vstd::arithmetic::div_mod::{lemma_fundamental_div_mod_converse, lemma_small_mod};
use vstd::prelude::*;

verus! {

/// The limbs of the characteristic of the base field, least significant
/// first.
pub const BASE_MODULUS_0: u64 = 0x8508c00000000001;
pub const BASE_MODULUS_1: u64 = 0x170b5d4430000000;
pub const BASE_MODULUS_2: u64 = 0x1ef3622fba094800;
pub const BASE_MODULUS_3: u64 = 0x1a22d9f300f5138f;
pub const BASE_MODULUS_4: u64 = 0xc63b05c06ca1493b;
pub const BASE_MODULUS_5: u64 = 0x01ae3a4617c510ea;

/// The characteristic of the base field.
pub open spec fn base_modulus() -> nat {
    258664426012969094010652733694893533536393512754914660539884262666720468348340822774968888139573360124440321458177nat
}

/// The integer that six limbs stand for.
pub open spec fn limbs6_value(l: Seq<u64>) -> nat {
    (l[0] as nat) + 0x1_0000_0000_0000_0000nat * ((l[1] as nat) + 0x1_0000_0000_0000_0000nat * (
    (l[2] as nat) + 0x1_0000_0000_0000_0000nat * ((l[3] as nat) + 0x1_0000_0000_0000_0000nat * (
    (l[4] as nat) + 0x1_0000_0000_0000_0000nat * (l[5] as nat)))))
}

/// The limbs are those of an element of the base field.
pub open spec fn is_base_element(l: [u64; 6]) -> bool {
    limbs6_value(l@) < base_modulus()
}

/// The limbs are those of the zero of the base field.
pub open spec fn is_base_zero(l: [u64; 6]) -> bool {
    forall|i: int| 0 <= i < 6 ==> l[i] == 0
}

/// Whether the limbs are those of an element of the base field.
pub fn base_element_check(l: &[u64; 6]) -> (res: bool)
    ensures
        res == is_base_element(*l),
{
    if l[5] != BASE_MODULUS_5 {
        l[5] < BASE_MODULUS_5
    } else if l[4] != BASE_MODULUS_4 {
        l[4] < BASE_MODULUS_4
    } else if l[3] != BASE_MODULUS_3 {
        l[3] < BASE_MODULUS_3
    } else if l[2] != BASE_MODULUS_2 {
        l[2] < BASE_MODULUS_2
    } else if l[1] != BASE_MODULUS_1 {
        l[1] < BASE_MODULUS_1
    } else {
        l[0] < BASE_MODULUS_0
    }
}

/// Whether the limbs are those of the zero of the base field.
pub fn base_zero_check(l: &[u64; 6]) -> (res: bool)
    ensures
        res == is_base_zero(*l),
{
    l[0] == 0 && l[1] == 0 && l[2] == 0 && l[3] == 0 && l[4] == 0 && l[5] == 0
}

/// Whether two elements of the base field are the same.
pub fn base_elements_equal(a: &[u64; 6], b: &[u64; 6]) -> (res: bool)
    ensures
        res == (*a == *b),
{
    let res = a[0] == b[0] && a[1] == b[1] && a[2] == b[2] && a[3] == b[3] && a[4] == b[4] && a[5]
        == b[5];
    proof {
        if res {
            assert(*a =~= *b);
        }
    }
    res
}

/// The zero of the base field is one of its elements.
pub proof fn lemma_base_zero_is_element(l: [u64; 6])
    requires
        is_base_zero(l),
    ensures
        is_base_element(l),
{
    assert(l[0] == 0 && l[1] == 0 && l[2] == 0 && l[3] == 0 && l[4] == 0 && l[5] == 0);
}

/// The six limbs of an integer below 2^384.
pub open spec fn limbs6_of(v: nat) -> [u64; 6] {
    let q1 = v / 0x1_0000_0000_0000_0000;
    let q2 = q1 / 0x1_0000_0000_0000_0000;
    let q3 = q2 / 0x1_0000_0000_0000_0000;
    let q4 = q3 / 0x1_0000_0000_0000_0000;
    let q5 = q4 / 0x1_0000_0000_0000_0000;
    [
        (v % 0x1_0000_0000_0000_0000) as u64,
        (q1 % 0x1_0000_0000_0000_0000) as u64,
        (q2 % 0x1_0000_0000_0000_0000) as u64,
        (q3 % 0x1_0000_0000_0000_0000) as u64,
        (q4 % 0x1_0000_0000_0000_0000) as u64,
        (q5 % 0x1_0000_0000_0000_0000) as u64,
    ]
}

/// The inverse of an element of the base field under addition: zero for
/// zero, and the modulus less the element else. This is the same on
/// Montgomery residues as on the integers they stand for.
pub open spec fn base_negation(l: [u64; 6]) -> [u64; 6] {
    limbs6_of(((base_modulus() - limbs6_value(l@)) % (base_modulus() as int)) as nat)
}

/// Six limbs are the limbs of their integer.
pub proof fn lemma_limbs6_round_trip(l: [u64; 6])
    ensures
        limbs6_of(limbs6_value(l@)) == l,
{
    let base = 0x1_0000_0000_0000_0000int;
    let t5 = l[5] as int;
    let t4 = l[4] as int + base * t5;
    let t3 = l[3] as int + base * t4;
    let t2 = l[2] as int + base * t3;
    let t1 = l[1] as int + base * t2;
    let v = limbs6_value(l@) as int;
    lemma_fundamental_div_mod_converse(v, base, t1, l[0] as int);
    lemma_fundamental_div_mod_converse(t1, base, t2, l[1] as int);
    lemma_fundamental_div_mod_converse(t2, base, t3, l[2] as int);
    lemma_fundamental_div_mod_converse(t3, base, t4, l[3] as int);
    lemma_fundamental_div_mod_converse(t4, base, t5, l[4] as int);
    lemma_small_mod(l[5] as nat, base as nat);
    let r = limbs6_of(limbs6_value(l@));
    assert(r[0] == l[0] && r[1] == l[1] && r[2] == l[2] && r[3] == l[3] && r[4] == l[4] && r[5]
        == l[5]);
    assert(r =~= l);
}

/// One limb of a difference: `a - b - borrow`, with the borrow that it
/// takes from the next limb.
fn limb_difference(a: u64, b: u64, borrow: u64) -> (res: (u64, u64))
    requires
        borrow <= 1,
    ensures
        res.1 <= 1,
        res.0 - 0x1_0000_0000_0000_0000 * res.1 == a - b - borrow,
{
    let t: u128 = 0x1_0000_0000_0000_0000u128 + (a as u128) - (b as u128) - (borrow as u128);
    if t >= 0x1_0000_0000_0000_0000u128 {
        ((t - 0x1_0000_0000_0000_0000u128) as u64, 0)
    } else {
        (t as u64, 1)
    }
}

/// The inverse of an element of the base field under addition.
pub fn base_negate(l: &[u64; 6]) -> (res: [u64; 6])
    requires
        is_base_element(*l),
    ensures
        res == base_negation(*l),
        is_base_element(res),
        is_base_zero(*l) ==> is_base_zero(res),
{
    if base_zero_check(l) {
        proof {
            assert(limbs6_value(l@) == 0);
            lemma_small_mod(0, base_modulus());
            assert((base_modulus() - limbs6_value(l@)) % (base_modulus() as int) == 0) by {
                vstd::arithmetic::div_mod::lemma_mod_self_0(base_modulus() as int);
            }
            lemma_limbs6_round_trip(*l);
        }
        return *l;
    }
    let (d0, b0) = limb_difference(BASE_MODULUS_0, l[0], 0);
    let (d1, b1) = limb_difference(BASE_MODULUS_1, l[1], b0);
    let (d2, b2) = limb_difference(BASE_MODULUS_2, l[2], b1);
    let (d3, b3) = limb_difference(BASE_MODULUS_3, l[3], b2);
    let (d4, b4) = limb_difference(BASE_MODULUS_4, l[4], b3);
    let (d5, b5) = limb_difference(BASE_MODULUS_5, l[5], b4);
    let res = [d0, d1, d2, d3, d4, d5];
    proof {
        let v = limbs6_value(l@);
        assert(0 < v < base_modulus());
        assert(b5 == 0);
        assert(limbs6_value(res@) == base_modulus() - v);
        lemma_small_mod((base_modulus() - v) as nat, base_modulus());
        lemma_limbs6_round_trip(res);
    }
    res
}

} // verus!
