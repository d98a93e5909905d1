use ark_bls12_377::{Fr, G1Affine, G1Projective, G2Affine, G2Projective};
use ark_ec::{AffineRepr, CurveGroup};
use ark_ff::{PrimeField, UniformRand, Zero};
use ark_groth16::curve::{CurvePoint, G1Point, G2Point};
use ark_groth16::data_structures::{
    Groth16Error, Proof, ProvingKey, Randomizer, VerifyingKey,
};
use ark_groth16::prover::Groth16;
use ark_groth16::scalar::Scalar;
use ark_groth16::verification::prepare_inputs;
use ark_std::rand::rngs::StdRng;
use ark_std::rand::SeedableRng;

fn g1(p: G1Affine) -> G1Point {
    G1Point::new(p.x.0 .0, p.y.0 .0, p.infinity).unwrap()
}

fn g2(p: G2Affine) -> G2Point {
    G2Point::new(
        [p.x.c0.0 .0, p.x.c1.0 .0],
        [p.y.c0.0 .0, p.y.c1.0 .0],
        p.infinity,
    )
    .unwrap()
}

fn scalar(f: Fr) -> Scalar {
    Scalar::new(f.into_bigint().0).unwrap()
}

/// A key of random elements in the curve library's own types, for a circuit
/// with `inputs` public inputs, `auxes` witness variables and `quotient`
/// coefficients of the quotient polynomial.
struct RawKey {
    alpha_g1: G1Affine,
    beta_g1: G1Affine,
    beta_g2: G2Affine,
    gamma_g2: G2Affine,
    delta_g1: G1Affine,
    delta_g2: G2Affine,
    vk_delta_g2: G2Affine,
    gamma_abc_g1: Vec<G1Affine>,
    a_query: Vec<G1Affine>,
    b_g1_query: Vec<G1Affine>,
    b_g2_query: Vec<G2Affine>,
    h_query: Vec<G1Affine>,
    l_query: Vec<G1Affine>,
}

fn raw_key(rng: &mut StdRng, inputs: usize, auxes: usize, quotient: usize) -> RawKey {
    let n = 1 + inputs + auxes;
    let mut one = |_| G1Affine::rand(rng);
    let gamma_abc_g1 = (0..1 + inputs).map(&mut one).collect();
    let a_query = (0..n).map(&mut one).collect();
    let b_g1_query = (0..n).map(&mut one).collect();
    let h_query = (0..quotient).map(&mut one).collect();
    let l_query = (0..auxes).map(&mut one).collect();
    RawKey {
        alpha_g1: G1Affine::rand(rng),
        beta_g1: G1Affine::rand(rng),
        beta_g2: G2Affine::rand(rng),
        gamma_g2: G2Affine::rand(rng),
        delta_g1: G1Affine::rand(rng),
        delta_g2: G2Affine::rand(rng),
        vk_delta_g2: G2Affine::rand(rng),
        gamma_abc_g1,
        a_query,
        b_g1_query,
        b_g2_query: (0..n).map(|_| G2Affine::rand(rng)).collect(),
        h_query,
        l_query,
    }
}

fn proving_key(raw: &RawKey) -> ProvingKey {
    let points = |v: &[G1Affine]| v.iter().map(|p| g1(*p)).collect::<Vec<_>>();
    ProvingKey {
        vk: VerifyingKey {
            alpha_g1: g1(raw.alpha_g1),
            beta_g2: g2(raw.beta_g2),
            gamma_g2: g2(raw.gamma_g2),
            delta_g2: g2(raw.vk_delta_g2),
            gamma_abc_g1: points(&raw.gamma_abc_g1),
        },
        beta_g1: g1(raw.beta_g1),
        delta_g1: g1(raw.delta_g1),
        delta_g2: g2(raw.delta_g2),
        a_query: points(&raw.a_query),
        b_g1_query: points(&raw.b_g1_query),
        b_g2_query: raw.b_g2_query.iter().map(|p| g2(*p)).collect(),
        h_query: points(&raw.h_query),
        l_query: points(&raw.l_query),
    }
}

fn dot1(bases: &[G1Affine], ks: &[Fr]) -> G1Projective {
    let mut acc = G1Projective::zero();
    for (b, k) in bases.iter().zip(ks) {
        acc += *b * *k;
    }
    acc
}

fn dot2(bases: &[G2Affine], ks: &[Fr]) -> G2Projective {
    let mut acc = G2Projective::zero();
    for (b, k) in bases.iter().zip(ks) {
        acc += *b * *k;
    }
    acc
}

/// A, B and C by their formulas, in the curve library's own arithmetic.
fn expected_proof(raw: &RawKey, r: Fr, s: Fr, h: &[Fr], input: &[Fr], aux: &[Fr]) -> Proof {
    let z: Vec<Fr> = input.iter().chain(aux).copied().collect();
    let a = raw.delta_g1 * r + raw.alpha_g1 + raw.a_query[0] + dot1(&raw.a_query[1..], &z);
    let b1 = if r.is_zero() {
        G1Projective::zero()
    } else {
        raw.delta_g1 * s + raw.beta_g1 + raw.b_g1_query[0] + dot1(&raw.b_g1_query[1..], &z)
    };
    let b2 = raw.vk_delta_g2 * s + raw.beta_g2 + raw.b_g2_query[0] + dot2(&raw.b_g2_query[1..], &z);
    let c = a * s + b1 * r + dot1(&raw.l_query, aux) + dot1(&raw.h_query, h);
    Proof {
        a: g1(a.into_affine()),
        b: g2(b2.into_affine()),
        c: g1(c.into_affine()),
    }
}

fn scalars(v: &[Fr]) -> Vec<Scalar> {
    v.iter().map(|f| scalar(*f)).collect()
}

#[test]
fn the_proof_is_the_one_of_the_formulas() {
    let mut rng = StdRng::seed_from_u64(1);
    for (inputs, auxes, quotient) in [(1usize, 1usize, 3usize), (0, 0, 0), (3, 0, 7), (0, 4, 1), (5, 9, 15)] {
        let raw = raw_key(&mut rng, inputs, auxes, quotient);
        let pk = proving_key(&raw);
        let h: Vec<Fr> = (0..quotient).map(|_| Fr::rand(&mut rng)).collect();
        let input: Vec<Fr> = (0..inputs).map(|_| Fr::rand(&mut rng)).collect();
        let aux: Vec<Fr> = (0..auxes).map(|_| Fr::rand(&mut rng)).collect();
        for (r, s) in [
            (Fr::rand(&mut rng), Fr::rand(&mut rng)),
            (Fr::zero(), Fr::rand(&mut rng)),
            (Fr::rand(&mut rng), Fr::zero()),
            (Fr::zero(), Fr::zero()),
        ] {
            let got = Groth16::create_proof_with_assignment(
                &pk,
                scalar(r),
                scalar(s),
                &scalars(&h),
                &scalars(&input),
                &scalars(&aux),
            );
            assert_eq!(got, Ok(expected_proof(&raw, r, s, &h, &input, &aux)));
        }
    }
}

#[test]
fn the_second_delta_of_the_proof_is_that_of_the_verifying_key() {
    let mut rng = StdRng::seed_from_u64(2);
    let raw = raw_key(&mut rng, 1, 1, 1);
    let pk = proving_key(&raw);
    let s = Fr::from(3u64);
    let zero = Scalar::zero();
    let proof = Groth16::create_proof_with_assignment(&pk, zero, scalar(s), &[zero], &[zero], &[zero])
        .unwrap();
    let with_vk = raw.vk_delta_g2 * s + raw.beta_g2 + raw.b_g2_query[0];
    let with_pk = raw.delta_g2 * s + raw.beta_g2 + raw.b_g2_query[0];
    assert_eq!(proof.b, g2(with_vk.into_affine()));
    assert_ne!(proof.b, g2(with_pk.into_affine()));
    // The randomizer is made with the delta of the proving key.
    let rnd = Groth16::randomizer_from_scalars(&pk, scalar(Fr::from(5u64)), scalar(s));
    assert_eq!(rnd.q, g2((raw.delta_g2 * Fr::from(5u64)).into_affine()));
    assert_eq!(rnd.p, g1((raw.delta_g1 * s).into_affine()));
    assert_eq!(rnd.r, Scalar::from_u64(5));
    assert_eq!(rnd.s, Scalar::from_u64(3));
}

#[test]
fn the_fold_is_blind_plus_offset_plus_bases() {
    let mut rng = StdRng::seed_from_u64(3);
    let initial = G1Affine::rand(&mut rng);
    let offset = G1Affine::rand(&mut rng);
    let query: Vec<G1Affine> = (0..4).map(|_| G1Affine::rand(&mut rng)).collect();
    let z: Vec<Fr> = (0..3).map(|_| Fr::rand(&mut rng)).collect();
    let points: Vec<G1Point> = query.iter().map(|p| g1(*p)).collect();

    let expected = G1Projective::from(initial) + offset + query[0] + dot1(&query[1..], &z);
    let got = Groth16::calculate_coeff(g1(initial), &points, g1(offset), &scalars(&z));
    assert_eq!(got, g1(expected.into_affine()));

    // A query of the constant one alone, and an assignment shorter than the
    // bases.
    let expected = G1Projective::from(initial) + offset + query[0];
    assert_eq!(
        Groth16::calculate_coeff(g1(initial), &points[..1], g1(offset), &scalars(&z)),
        g1(expected.into_affine())
    );
    assert_eq!(
        Groth16::calculate_coeff(g1(initial), &points, g1(offset), &[]),
        g1(expected.into_affine())
    );

    let initial = G2Affine::rand(&mut rng);
    let offset = G2Affine::rand(&mut rng);
    let query: Vec<G2Affine> = (0..3).map(|_| G2Affine::rand(&mut rng)).collect();
    let points: Vec<G2Point> = query.iter().map(|p| g2(*p)).collect();
    let expected = G2Projective::from(initial) + offset + query[0] + dot2(&query[1..], &z);
    assert_eq!(
        Groth16::calculate_coeff(g2(initial), &points, g2(offset), &scalars(&z)),
        g2(expected.into_affine())
    );
}

#[test]
fn every_query_has_to_be_of_the_shape_of_the_circuit() {
    let mut rng = StdRng::seed_from_u64(4);
    let raw = raw_key(&mut rng, 2, 3, 4);
    let pk = proving_key(&raw);
    let zeros = vec![Scalar::zero(); 8];
    let prove = |pk: &ProvingKey, h: usize, inputs: usize, auxes: usize| {
        Groth16::create_proof_with_assignment(
            pk,
            Scalar::one(),
            Scalar::one(),
            &zeros[..h],
            &zeros[..inputs],
            &zeros[..auxes],
        )
    };
    assert!(prove(&pk, 4, 2, 3).is_ok());
    for (h, inputs, auxes) in [(3usize, 2usize, 3usize), (5, 2, 3), (4, 1, 3), (4, 3, 3), (4, 2, 2), (4, 2, 4), (4, 3, 2), (4, 1, 4), (0, 0, 0)] {
        assert_eq!(prove(&pk, h, inputs, auxes), Err(Groth16Error::ShapeMismatch));
    }
    let empty = proving_key(&raw_key(&mut rng, 0, 0, 0));
    assert!(prove(&empty, 0, 0, 0).is_ok());
    let mut no_constant = empty.clone();
    no_constant.a_query.clear();
    assert_eq!(prove(&no_constant, 0, 0, 0), Err(Groth16Error::ShapeMismatch));
    let mut no_constant = empty.clone();
    no_constant.b_g1_query.clear();
    assert_eq!(prove(&no_constant, 0, 0, 0), Err(Groth16Error::ShapeMismatch));
    let mut no_constant = empty.clone();
    no_constant.b_g2_query.clear();
    assert_eq!(prove(&no_constant, 0, 0, 0), Err(Groth16Error::ShapeMismatch));
}

#[test]
fn the_inputs_are_folded_with_the_elements_of_the_key() {
    let mut rng = StdRng::seed_from_u64(5);
    let raw = raw_key(&mut rng, 3, 0, 0);
    let pvk = ark_groth16::data_structures::PreparedVerifyingKey {
        vk: proving_key(&raw).vk,
        ..Default::default()
    };
    let input: Vec<Fr> = (0..3).map(|_| Fr::rand(&mut rng)).collect();
    let expected = G1Projective::from(raw.gamma_abc_g1[0]) + dot1(&raw.gamma_abc_g1[1..], &input);
    assert_eq!(prepare_inputs(&pvk, &scalars(&input)), Ok(g1(expected.into_affine())));
    assert_eq!(
        prepare_inputs(&pvk, &scalars(&input[..2])),
        Err(Groth16Error::InputLengthMismatch)
    );
    let zeros = vec![Scalar::zero(); 3];
    assert_eq!(prepare_inputs(&pvk, &zeros), Ok(g1(raw.gamma_abc_g1[0])));
}

#[test]
fn the_default_randomizer_is_that_of_two_zero_scalars_for_every_key() {
    let mut rng = StdRng::seed_from_u64(6);
    for _ in 0..3 {
        let pk = proving_key(&raw_key(&mut rng, 1, 1, 1));
        let rnd = Groth16::randomizer_from_scalars(&pk, Scalar::zero(), Scalar::zero());
        assert_eq!(rnd, Randomizer::default());
        let one_sided = Groth16::randomizer_from_scalars(&pk, Scalar::from_u64(7), Scalar::zero());
        assert_eq!(one_sided.p, G1Point::identity());
        assert_ne!(one_sided.q, G2Point::identity());
        let other_side = Groth16::randomizer_from_scalars(&pk, Scalar::zero(), Scalar::from_u64(7));
        assert_ne!(other_side.p, G1Point::identity());
        assert_eq!(other_side.q, G2Point::identity());
    }
}

#[test]
fn without_r_the_third_element_is_s_times_the_first_plus_the_two_sums() {
    let mut rng = StdRng::seed_from_u64(7);
    let raw = raw_key(&mut rng, 2, 3, 4);
    let pk = proving_key(&raw);
    let h: Vec<Fr> = (0..4).map(|_| Fr::rand(&mut rng)).collect();
    let input: Vec<Fr> = (0..2).map(|_| Fr::rand(&mut rng)).collect();
    let aux: Vec<Fr> = (0..3).map(|_| Fr::rand(&mut rng)).collect();
    let s = Fr::rand(&mut rng);
    let proof = Groth16::create_proof_with_assignment(
        &pk,
        Scalar::zero(),
        scalar(s),
        &scalars(&h),
        &scalars(&input),
        &scalars(&aux),
    )
    .unwrap();
    let z: Vec<Fr> = input.iter().chain(&aux).copied().collect();
    let a = G1Projective::from(raw.alpha_g1) + raw.a_query[0] + dot1(&raw.a_query[1..], &z);
    let c = a * s + dot1(&raw.l_query, &aux) + dot1(&raw.h_query, &h);
    assert_eq!(proof.a, g1(a.into_affine()));
    assert_eq!(proof.c, g1(c.into_affine()));
}
