use ark_ec::mnt4::MNT4Config;
use ark_ec::pairing::Pairing;
use ark_ec::{AffineRepr, CurveGroup};
use ark_ff::{AdditiveGroup, BigInteger, Field, PrimeField};
use ark_mnt4_298::{
    Config, Fq as AFq, Fq2 as AFq2, Fq4 as AFq4, Fr, G1Affine, G1Projective, G2Affine,
    G2Projective, MNT4_298,
};
use ark_std::UniformRand;

use mnt_pairing::ate::{
    AteAdditionCoefficients, AteDoubleCoefficients, AteDoubleCoefficientsVar, G2Prepared,
    ProjectiveVar,
};
use mnt_pairing::error::{AllocationMode, ConstraintSystem, SynthesisError};
use mnt_pairing::field::{FieldVar, UInt8};
use mnt_pairing::mnt4::{
    Fp4Var, G1Prepared, G1PreparedVar, G1Var, G2PreparedVar, G2Var, Mnt4Params,
};
use mnt_pairing::mnt4_fields::{Fq, Fq2, Fq4};
use mnt_pairing::pairing::PairingVar;

fn fq(x: AFq) -> Fq {
    Fq { limbs: x.into_bigint().0 }
}

fn fq2(x: AFq2) -> Fq2 {
    Fq2 { c: [fq(x.c0), fq(x.c1)] }
}

fn fq4(x: AFq4) -> Fq4 {
    Fq4 { c: [fq(x.c0.c0), fq(x.c0.c1), fq(x.c1.c0), fq(x.c1.c1)] }
}

fn known<F>(v: F) -> FieldVar<F> {
    FieldVar { value: Some(v) }
}

fn g1_var(p: G1Affine) -> G1Var {
    ProjectiveVar { x: known(fq(p.x)), y: known(fq(p.y)), z: known(fq(AFq::ONE)) }
}

fn g2_var(q: G2Affine) -> G2Var {
    ProjectiveVar { x: known(fq2(q.x)), y: known(fq2(q.y)), z: known(fq2(AFq2::ONE)) }
}

fn engine() -> PairingVar {
    PairingVar { params: Mnt4Params::mnt4_298() }
}

fn pair(p: G1Affine, q: G2Affine) -> Fq4 {
    let e = engine();
    let gp = e.prepare_g1(&g1_var(p)).unwrap();
    let gq = e.prepare_g2(&g2_var(q)).unwrap();
    let ml = e.miller_loop(&vec![gp], &vec![gq]).unwrap();
    e.final_exponentiation(&ml).unwrap().value.unwrap()
}

fn native_pair(p: G1Affine, q: G2Affine) -> Fq4 {
    fq4(MNT4_298::pairing(p, q).0)
}

fn native_g1_prepared(p: G1Affine) -> G1Prepared {
    let n = ark_mnt4_298::G1Prepared::from(p);
    G1Prepared { x: fq(n.x), y: fq(n.y), x_twist: fq2(n.x_twist), y_twist: fq2(n.y_twist) }
}

fn native_g2_prepared(q: G2Affine) -> G2Prepared<Fq2> {
    let n = ark_mnt4_298::G2Prepared::from(q);
    G2Prepared {
        x: fq2(n.x),
        y: fq2(n.y),
        x_over_twist: fq2(n.x_over_twist),
        y_over_twist: fq2(n.y_over_twist),
        double_coefficients: n
            .double_coefficients
            .iter()
            .map(|c| AteDoubleCoefficients {
                c_h: fq2(c.c_h),
                c_4c: fq2(c.c_4c),
                c_j: fq2(c.c_j),
                c_l: fq2(c.c_l),
            })
            .collect(),
        addition_coefficients: n
            .addition_coefficients
            .iter()
            .map(|c| AteAdditionCoefficients { c_l1: fq2(c.c_l1), c_rz: fq2(c.c_rz) })
            .collect(),
    }
}

fn sample(seed: u64) -> (G1Affine, G2Affine) {
    let mut rng = ark_std::rand::rngs::StdRng::seed_from_u64(seed);
    (G1Projective::rand(&mut rng).into_affine(), G2Projective::rand(&mut rng).into_affine())
}

fn assigned_bytes(bytes: &[UInt8]) -> Vec<u8> {
    bytes.iter().map(|b| b.value.unwrap()).collect()
}

fn canonical_bytes(x: AFq) -> Vec<u8> {
    x.into_bigint().to_bytes_le()[..38].to_vec()
}

use ark_std::rand::SeedableRng;

#[test]
fn pairing_matches_native_pairing() {
    for seed in 0..3u64 {
        let (p, q) = sample(seed);
        assert_eq!(pair(p, q), native_pair(p, q));
    }
}

#[test]
fn pairing_of_generators_has_native_encoding() {
    let p = G1Affine::generator();
    let q = G2Affine::generator();
    let e = engine();
    let gp = e.prepare_g1(&g1_var(p)).unwrap();
    let gq = e.prepare_g2(&g2_var(q)).unwrap();
    let ml = e.miller_loop(&vec![gp], &vec![gq]).unwrap();
    let gt: Fp4Var = e.final_exponentiation(&ml).unwrap();
    let native = MNT4_298::pairing(p, q).0;
    let mut expected = Vec::new();
    for c in native.to_base_prime_field_elements() {
        expected.extend(canonical_bytes(c));
    }
    assert_eq!(assigned_bytes(&gt.to_bytes_le()), expected);
}

#[test]
fn pairing_is_bilinear_for_small_scalars() {
    let (p, q) = sample(7);
    let base = pair(p, q);
    let native_base = MNT4_298::pairing(p, q).0;
    assert_eq!(base, fq4(native_base));
    for a in [1u64, 2, 5] {
        let s = Fr::from(a);
        let ap = (p * s).into_affine();
        let aq = (q * s).into_affine();
        let expected = fq4(native_base.pow([a]));
        assert_eq!(pair(ap, q), expected);
        assert_eq!(pair(p, aq), expected);
    }
}

#[test]
fn batch_miller_loop_is_product_of_pairs() {
    let (p1, q1) = sample(11);
    let (p2, q2) = sample(12);
    let e = engine();
    let gp1 = e.prepare_g1(&g1_var(p1)).unwrap();
    let gq1 = e.prepare_g2(&g2_var(q1)).unwrap();
    let gp2 = e.prepare_g1(&g1_var(p2)).unwrap();
    let gq2 = e.prepare_g2(&g2_var(q2)).unwrap();
    let m1 = e.ate_miller_loop(&gp1, &gq1).unwrap().value.unwrap();
    let m2 = e.ate_miller_loop(&gp2, &gq2).unwrap().value.unwrap();
    let batch = e.miller_loop(&vec![gp1, gp2], &vec![gq1, gq2]).unwrap().value.unwrap();
    let to_ark = |x: Fq4| {
        let c: Vec<AFq> = x.c.iter().map(|l| AFq::from_bigint(ark_ff::BigInt(l.limbs)).unwrap()).collect();
        AFq4::new(AFq2::new(c[0], c[1]), AFq2::new(c[2], c[3]))
    };
    assert_eq!(batch, fq4(to_ark(m1) * to_ark(m2)));
    let native = MNT4_298::multi_miller_loop([p1, p2], [q1, q2]).0;
    assert_eq!(batch, fq4(native));
}

#[test]
fn empty_miller_loop_is_one() {
    let e = engine();
    let r = e.miller_loop(&vec![], &vec![]).unwrap();
    assert_eq!(r.value.unwrap(), fq4(AFq4::ONE));
}

#[test]
fn coefficient_lists_follow_the_loop_count() {
    let (_, q) = sample(3);
    let gq = engine().prepare_g2(&g2_var(q)).unwrap();
    let digits = Config::ATE_LOOP_COUNT;
    let nonzero = digits.iter().skip(1).filter(|d| **d != 0).count();
    let neg = if Config::ATE_IS_LOOP_COUNT_NEG { 1 } else { 0 };
    assert_eq!(gq.double_coefficients.len(), digits.len() - 1);
    assert_eq!(gq.addition_coefficients.len(), nonzero + neg);
}

#[test]
fn prepared_g2_matches_native_preparation() {
    let (_, q) = sample(4);
    let gq = engine().prepare_g2(&g2_var(q)).unwrap();
    assert_eq!(gq.value().unwrap(), native_g2_prepared(q));
}

#[test]
fn prepared_g1_matches_native_preparation() {
    let (p, _) = sample(5);
    let gp = engine().prepare_g1(&g1_var(p)).unwrap();
    assert_eq!(gp.value().unwrap(), native_g1_prepared(p));
}

#[test]
fn projective_inputs_are_normalised() {
    let (p, q) = sample(6);
    let l = AFq::from(987654321u64);
    let l2 = AFq2::new(AFq::from(3u64), AFq::from(5u64));
    let pv = ProjectiveVar { x: known(fq(p.x * l)), y: known(fq(p.y * l)), z: known(fq(l)) };
    let qv = ProjectiveVar { x: known(fq2(q.x * l2)), y: known(fq2(q.y * l2)), z: known(fq2(l2)) };
    let e = engine();
    assert_eq!(e.prepare_g1(&pv).unwrap().value().unwrap(), native_g1_prepared(p));
    assert_eq!(e.prepare_g2(&qv).unwrap().value().unwrap(), native_g2_prepared(q));
}

#[test]
fn point_at_infinity_fails_preparation() {
    let (p, q) = sample(8);
    let e = engine();
    let pv = ProjectiveVar { x: known(fq(p.x)), y: known(fq(p.y)), z: known(fq(AFq::ZERO)) };
    let qv = ProjectiveVar { x: known(fq2(q.x)), y: known(fq2(q.y)), z: known(fq2(AFq2::ZERO)) };
    assert_eq!(e.prepare_g1(&pv).err(), Some(SynthesisError::DivisionByZero));
    assert_eq!(e.prepare_g2(&qv).err(), Some(SynthesisError::DivisionByZero));
}

#[test]
fn final_exponentiation_of_zero_fails() {
    let e = engine();
    let zero: Fp4Var = known(fq4(AFq4::ZERO));
    assert_eq!(e.final_exponentiation(&zero).err(), Some(SynthesisError::DivisionByZero));
}

#[test]
fn constant_prepared_points_round_trip() {
    let (p, q) = sample(9);
    let cs = ConstraintSystem { setup_mode: true };
    let v1 = native_g1_prepared(p);
    let g1 = G1PreparedVar::new_variable(&cs, Ok(v1), AllocationMode::Constant).unwrap();
    assert_eq!(g1.value().unwrap(), v1);
    let v2 = native_g2_prepared(q);
    let g2 = G2PreparedVar::new_variable(&cs, Ok(v2.clone()), AllocationMode::Constant).unwrap();
    assert_eq!(g2.value().unwrap(), v2);
}

#[test]
fn witness_prepared_points_round_trip() {
    let (p, q) = sample(10);
    let cs = ConstraintSystem { setup_mode: false };
    let v1 = native_g1_prepared(p);
    let g1 = G1PreparedVar::new_variable(&cs, Ok(v1), AllocationMode::Witness).unwrap();
    assert_eq!(g1.value().unwrap(), v1);
    let v2 = native_g2_prepared(q);
    let g2 = G2PreparedVar::new_variable(&cs, Ok(v2.clone()), AllocationMode::Input).unwrap();
    assert_eq!(g2.value().unwrap(), v2);
}

#[test]
fn double_coefficients_read_back_each_field() {
    let c = AteDoubleCoefficients {
        c_h: fq2(AFq2::new(AFq::from(1u64), AFq::from(2u64))),
        c_4c: fq2(AFq2::new(AFq::from(3u64), AFq::from(4u64))),
        c_j: fq2(AFq2::new(AFq::from(5u64), AFq::from(6u64))),
        c_l: fq2(AFq2::new(AFq::from(7u64), AFq::from(8u64))),
    };
    let cs = ConstraintSystem { setup_mode: false };
    let v = AteDoubleCoefficientsVar::new_variable(&cs, Ok(c), AllocationMode::Witness).unwrap();
    assert_eq!(v.value().unwrap(), c);
}

#[test]
fn failing_provider_fails_prepared_allocation() {
    let prove = ConstraintSystem { setup_mode: false };
    let setup = ConstraintSystem { setup_mode: true };
    let e = SynthesisError::Unsatisfiable;
    for mode in [AllocationMode::Constant, AllocationMode::Input, AllocationMode::Witness] {
        assert_eq!(G1PreparedVar::new_variable(&prove, Err(e), mode).err(), Some(e));
        for cs in [prove, setup] {
            let r = G2PreparedVar::new_variable(&cs, Err(SynthesisError::MissingCS), mode);
            assert_eq!(r.err(), Some(SynthesisError::MissingCS));
        }
    }
    assert_eq!(G1PreparedVar::new_variable(&setup, Err(e), AllocationMode::Constant).err(), Some(e));
    let g = G1PreparedVar::new_variable(&setup, Err(e), AllocationMode::Witness).unwrap();
    assert_eq!(g.value().err(), Some(SynthesisError::AssignmentMissing));
}

#[test]
fn setup_mode_leaves_witnesses_unassigned() {
    let (p, q) = sample(13);
    let setup = ConstraintSystem { setup_mode: true };
    let g1 = G1PreparedVar::new_variable(&setup, Ok(native_g1_prepared(p)), AllocationMode::Witness).unwrap();
    let g2 =
        G2PreparedVar::new_variable(&setup, Ok(native_g2_prepared(q)), AllocationMode::Witness).unwrap();
    assert_eq!(g1.value().err(), Some(SynthesisError::AssignmentMissing));
    assert_eq!(g2.value().err(), Some(SynthesisError::AssignmentMissing));
    let bytes = g1.to_bytes_le();
    assert_eq!(bytes.len(), 38 * 2 + 76 * 2);
    assert!(bytes.iter().all(|b| b.value.is_none()));
    let e = engine();
    let ml = e.miller_loop(&vec![g1], &vec![g2]).unwrap();
    assert!(ml.value.is_none());
    assert!(e.final_exponentiation(&ml).unwrap().value.is_none());
}

#[test]
fn encoding_is_deterministic_and_canonical() {
    let (p, q) = sample(14);
    let e = engine();
    let gp = e.prepare_g1(&g1_var(p)).unwrap();
    let gp_again = e.prepare_g1(&g1_var(p)).unwrap();
    let b1 = assigned_bytes(&gp.to_bytes_le());
    assert_eq!(b1, assigned_bytes(&gp_again.to_bytes_le()));
    assert_eq!(b1, assigned_bytes(&gp.to_non_unique_bytes_le()));
    let n = ark_mnt4_298::G1Prepared::from(p);
    let mut expected = canonical_bytes(n.x);
    expected.extend(canonical_bytes(n.y));
    expected.extend(canonical_bytes(n.x_twist.c0));
    expected.extend(canonical_bytes(n.x_twist.c1));
    expected.extend(canonical_bytes(n.y_twist.c0));
    expected.extend(canonical_bytes(n.y_twist.c1));
    assert_eq!(b1, expected);

    let gq = e.prepare_g2(&g2_var(q)).unwrap();
    let gq_again = e.prepare_g2(&g2_var(q)).unwrap();
    let c1 = assigned_bytes(&gq.to_bytes_le());
    assert_eq!(c1, assigned_bytes(&gq_again.to_bytes_le()));
    assert_eq!(c1, assigned_bytes(&gq.to_non_unique_bytes_le()));
    let per_coordinate = 76;
    let expected_len = per_coordinate * (4 + 4 * gq.double_coefficients.len() + 2 * gq.addition_coefficients.len());
    assert_eq!(c1.len(), expected_len);
    let dc = &gq.double_coefficients[0];
    assert_eq!(&c1[4 * per_coordinate..8 * per_coordinate], &assigned_bytes(&dc.to_bytes_le())[..]);
}

#[test]
fn composed_pairing_matches_native_pairing() {
    let (p, q) = sample(15);
    let e = engine();
    let gp = e.prepare_g1(&g1_var(p)).unwrap();
    let gq = e.prepare_g2(&g2_var(q)).unwrap();
    let gt = e.pairing(gp, gq).unwrap();
    assert_eq!(gt.value.unwrap(), native_pair(p, q));
}

#[test]
fn curve_constants_come_from_the_curve_config() {
    let params = Mnt4Params::mnt4_298();
    assert_eq!(params.ate_loop_count, Config::ATE_LOOP_COUNT.to_vec());
    assert_eq!(params.twist, fq2(Config::TWIST));
    assert_eq!(params.twist_coeff_a, fq2(Config::TWIST_COEFF_A));
    assert_eq!(params.ate_is_loop_count_neg, Config::ATE_IS_LOOP_COUNT_NEG);
    assert_eq!(params.final_exponent_last_chunk_abs_of_w0, Config::FINAL_EXPONENT_LAST_CHUNK_ABS_OF_W0.0.to_vec());
}
