use ark_bls12_377::Fr;
use ark_ff::{BigInt, PrimeField, UniformRand};
use ark_groth16::scalar::Scalar;
use ark_std::rand::rngs::StdRng;
use ark_std::rand::{RngCore, SeedableRng};

const MODULUS: [u64; 4] = [
    0x0a11800000000001,
    0x59aa76fed0000001,
    0x60b44d1e5c37b001,
    0x12ab655e9a2ca556,
];

fn scalar(f: Fr) -> Scalar {
    Scalar::new(f.into_bigint().0).unwrap()
}

fn field(s: &Scalar) -> Fr {
    Fr::from_bigint(BigInt(s.limbs())).unwrap()
}

#[test]
fn the_modulus_is_that_of_the_scalar_field() {
    assert_eq!(Fr::MODULUS.0, MODULUS);
}

#[test]
fn scalars_are_the_integers_below_the_modulus() {
    let mut below = MODULUS;
    below[0] -= 1;
    let mut above = MODULUS;
    above[0] += 1;
    assert!(Scalar::new([0, 0, 0, 0]).is_some());
    assert!(Scalar::new(below).is_some());
    assert!(Scalar::new(MODULUS).is_none());
    assert!(Scalar::new(above).is_none());
    assert!(Scalar::new([u64::MAX; 4]).is_none());
    assert!(Scalar::new([0, 0, 0, 0x12ab655e9a2ca557]).is_none());
    assert!(Scalar::new([u64::MAX, u64::MAX, u64::MAX, 0x12ab655e9a2ca555]).is_some());
    assert!(Scalar::new([0, 0, 0x60b44d1e5c37b002, 0x12ab655e9a2ca556]).is_none());
    assert!(Scalar::new([u64::MAX, u64::MAX, 0x60b44d1e5c37b000, 0x12ab655e9a2ca556]).is_some());
    assert!(Scalar::new([0, 0x59aa76fed0000002, 0x60b44d1e5c37b001, 0x12ab655e9a2ca556]).is_none());
    assert_eq!(Scalar::new(below).unwrap().limbs(), below);
    assert_eq!(Scalar::new([1, 2, 3, 4]).unwrap().limbs(), [1, 2, 3, 4]);
}

#[test]
fn small_scalars() {
    assert_eq!(Scalar::zero().limbs(), [0, 0, 0, 0]);
    assert_eq!(Scalar::one().limbs(), [1, 0, 0, 0]);
    assert_eq!(Scalar::from_u64(u64::MAX).limbs(), [u64::MAX, 0, 0, 0]);
    assert_eq!(Scalar::from_u64(0), Scalar::zero());
    assert_eq!(scalar(Fr::from(77u64)), Scalar::from_u64(77));
    assert!(Scalar::zero().is_zero());
    assert!(!Scalar::one().is_zero());
    assert!(!Scalar::new([0, 0, 0, 1]).unwrap().is_zero());
    assert!(!Scalar::new([0, 1, 0, 0]).unwrap().is_zero());
    assert!(Scalar::one().equals(&Scalar::from_u64(1)));
    assert!(!Scalar::one().equals(&Scalar::zero()));
    assert!(!Scalar::new([5, 0, 0, 0]).unwrap().equals(&Scalar::new([5, 0, 0, 1]).unwrap()));
    assert!(!Scalar::new([5, 0, 0, 0]).unwrap().equals(&Scalar::new([5, 0, 1, 0]).unwrap()));
    assert!(!Scalar::new([5, 0, 0, 0]).unwrap().equals(&Scalar::new([5, 1, 0, 0]).unwrap()));
}

#[test]
fn sums_and_products_are_reduced_by_the_modulus() {
    let mut below = MODULUS;
    below[0] -= 1;
    let largest = Scalar::new(below).unwrap();
    // (m - 1) + 1 = 0, (m - 1) + 2 = 1, (m - 1) * (m - 1) = 1, (m - 1) * 2 = m - 2.
    assert_eq!(largest.sum(&Scalar::one()), Scalar::zero());
    assert_eq!(largest.sum(&Scalar::from_u64(2)), Scalar::one());
    assert_eq!(largest.product(&largest), Scalar::one());
    let mut two_below = MODULUS;
    two_below[0] -= 2;
    assert_eq!(largest.product(&Scalar::from_u64(2)), Scalar::new(two_below).unwrap());
    assert_eq!(Scalar::from_u64(6).sum(&Scalar::from_u64(7)), Scalar::from_u64(13));
    assert_eq!(Scalar::from_u64(6).product(&Scalar::from_u64(7)), Scalar::from_u64(42));
    assert_eq!(
        Scalar::from_u64(u64::MAX).sum(&Scalar::one()),
        Scalar::new([0, 1, 0, 0]).unwrap()
    );
    assert_eq!(
        Scalar::from_u64(1 << 32).product(&Scalar::from_u64(1 << 32)),
        Scalar::new([0, 1, 0, 0]).unwrap()
    );
    assert_eq!(Scalar::from_u64(9).product(&Scalar::zero()), Scalar::zero());
    assert_eq!(Scalar::from_u64(9).sum(&Scalar::zero()), Scalar::from_u64(9));

    let mut rng = StdRng::seed_from_u64(1);
    for _ in 0..50 {
        let a = Fr::rand(&mut rng);
        let b = Fr::rand(&mut rng);
        assert_eq!(scalar(a).sum(&scalar(b)), scalar(a + b));
        assert_eq!(scalar(a).product(&scalar(b)), scalar(a * b));
        assert_eq!(field(&scalar(a)), a);
    }
}

#[test]
fn wide_bytes_are_reduced_by_the_modulus() {
    let mut bytes = [0u8; 64];
    assert_eq!(Scalar::from_wide_bytes(&bytes), Scalar::zero());
    bytes[0] = 1;
    assert_eq!(Scalar::from_wide_bytes(&bytes), Scalar::one());
    bytes[0] = 0x34;
    bytes[1] = 0x12;
    assert_eq!(Scalar::from_wide_bytes(&bytes), Scalar::from_u64(0x1234));

    // The modulus itself reduces to zero, the modulus plus five to five.
    let mut bytes = [0u8; 64];
    for (i, limb) in MODULUS.iter().enumerate() {
        bytes[8 * i..8 * i + 8].copy_from_slice(&limb.to_le_bytes());
    }
    assert_eq!(Scalar::from_wide_bytes(&bytes), Scalar::zero());
    bytes[0] += 5;
    assert_eq!(Scalar::from_wide_bytes(&bytes), Scalar::from_u64(5));

    // 2^256 is (2^64)^4.
    let mut bytes = [0u8; 64];
    bytes[32] = 1;
    let limb = Scalar::new([0, 1, 0, 0]).unwrap();
    let expected = limb.product(&limb).product(&limb).product(&limb);
    assert_eq!(Scalar::from_wide_bytes(&bytes), expected);

    // All bits set: 2^512 - 1.
    let bytes = [0xffu8; 64];
    let square = expected.product(&expected);
    let mut below = MODULUS;
    below[0] -= 1;
    assert_eq!(Scalar::from_wide_bytes(&bytes), square.sum(&Scalar::new(below).unwrap()));
}

#[test]
fn a_sample_is_the_reduction_of_the_next_64_bytes() {
    let mut rng = StdRng::seed_from_u64(42);
    let mut twin = StdRng::seed_from_u64(42);
    for _ in 0..5 {
        let mut bytes = [0u8; 64];
        twin.fill_bytes(&mut bytes);
        assert_eq!(Scalar::sample(&mut rng), Some(Scalar::from_wide_bytes(&bytes)));
    }
    let a = Scalar::sample(&mut rng).unwrap();
    let b = Scalar::sample(&mut rng).unwrap();
    assert_ne!(a, b);
    assert!(Scalar::new(a.limbs()).is_some());
}

#[test]
fn a_draw_that_failed_gives_no_scalar() {
    assert_eq!(Scalar::from_draw(None), None);
    let mut bytes = [0u8; 64];
    assert_eq!(Scalar::from_draw(Some(bytes)), Some(Scalar::zero()));
    bytes[0] = 9;
    bytes[8] = 1;
    assert_eq!(
        Scalar::from_draw(Some(bytes)),
        Some(Scalar::new([9, 1, 0, 0]).unwrap())
    );
    let bytes = [0xabu8; 64];
    assert_eq!(Scalar::from_draw(Some(bytes)), Some(Scalar::from_wide_bytes(&bytes)));
    assert_ne!(Scalar::from_draw(Some(bytes)), Some(Scalar::zero()));
}
