use ark_ec::mnt6::MNT6Config;
use ark_ec::CurveGroup;
use ark_ff::{AdditiveGroup, Field, PrimeField};
use ark_mnt6_298::{Config, Fq as AFq, Fq3 as AFq3, G1Affine, G1Projective, G2Affine, G2Projective};
use ark_std::rand::SeedableRng;
use ark_std::UniformRand;

use mnt_pairing::ate::{AteAdditionCoefficients, AteDoubleCoefficients, G2Prepared, ProjectiveVar};
use mnt_pairing::error::{AllocationMode, ConstraintSystem, SynthesisError};
use mnt_pairing::field::FieldVar;
use mnt_pairing::mnt6::{G1Prepared, G1PreparedVar, G2PreparedVar, Mnt6Params};
use mnt_pairing::mnt6_fields::{Fq, Fq3};

fn fq(x: AFq) -> Fq {
    Fq { limbs: x.into_bigint().0 }
}

fn fq3(x: AFq3) -> Fq3 {
    Fq3 { c: [fq(x.c0), fq(x.c1), fq(x.c2)] }
}

fn known<F>(v: F) -> FieldVar<F> {
    FieldVar { value: Some(v) }
}

fn sample(seed: u64) -> (G1Affine, G2Affine) {
    let mut rng = ark_std::rand::rngs::StdRng::seed_from_u64(seed);
    (G1Projective::rand(&mut rng).into_affine(), G2Projective::rand(&mut rng).into_affine())
}

fn native_g1_prepared(p: G1Affine) -> G1Prepared {
    let n = ark_mnt6_298::G1Prepared::from(p);
    G1Prepared { x: fq(n.x), y: fq(n.y), x_twist: fq3(n.x_twist), y_twist: fq3(n.y_twist) }
}

fn native_g2_prepared(q: G2Affine) -> G2Prepared<Fq3> {
    let n = ark_mnt6_298::G2Prepared::from(q);
    G2Prepared {
        x: fq3(n.x),
        y: fq3(n.y),
        x_over_twist: fq3(n.x_over_twist),
        y_over_twist: fq3(n.y_over_twist),
        double_coefficients: n
            .double_coefficients
            .iter()
            .map(|c| AteDoubleCoefficients {
                c_h: fq3(c.c_h),
                c_4c: fq3(c.c_4c),
                c_j: fq3(c.c_j),
                c_l: fq3(c.c_l),
            })
            .collect(),
        addition_coefficients: n
            .addition_coefficients
            .iter()
            .map(|c| AteAdditionCoefficients { c_l1: fq3(c.c_l1), c_rz: fq3(c.c_rz) })
            .collect(),
    }
}

#[test]
fn mnt6_prepared_g1_matches_native_preparation() {
    let (p, _) = sample(21);
    let params = Mnt6Params::mnt6_298();
    let l = AFq::from(424242u64);
    let pv = ProjectiveVar { x: known(fq(p.x * l)), y: known(fq(p.y * l)), z: known(fq(l)) };
    let gp = G1PreparedVar::from_group_var(&pv, &params).unwrap();
    assert_eq!(gp.value().unwrap(), native_g1_prepared(p));
}

#[test]
fn mnt6_prepared_g2_matches_native_preparation() {
    let (_, q) = sample(22);
    let params = Mnt6Params::mnt6_298();
    let qv = ProjectiveVar { x: known(fq3(q.x)), y: known(fq3(q.y)), z: known(fq3(AFq3::ONE)) };
    let gq = G2PreparedVar::from_group_var(&qv, &params).unwrap();
    assert_eq!(gq.value().unwrap(), native_g2_prepared(q));
}

#[test]
fn mnt6_coefficient_lists_include_the_sign_step() {
    let (_, q) = sample(23);
    let params = Mnt6Params::mnt6_298();
    let qv = ProjectiveVar { x: known(fq3(q.x)), y: known(fq3(q.y)), z: known(fq3(AFq3::ONE)) };
    let gq = G2PreparedVar::from_group_var(&qv, &params).unwrap();
    let digits = Config::ATE_LOOP_COUNT;
    let nonzero = digits.iter().skip(1).filter(|d| **d != 0).count();
    assert!(Config::ATE_IS_LOOP_COUNT_NEG);
    assert_eq!(gq.double_coefficients.len(), digits.len() - 1);
    assert_eq!(gq.addition_coefficients.len(), nonzero + 1);
}

#[test]
fn mnt6_point_at_infinity_fails_preparation() {
    let (p, q) = sample(24);
    let params = Mnt6Params::mnt6_298();
    let pv = ProjectiveVar { x: known(fq(p.x)), y: known(fq(p.y)), z: known(fq(AFq::ZERO)) };
    let qv = ProjectiveVar { x: known(fq3(q.x)), y: known(fq3(q.y)), z: known(fq3(AFq3::ZERO)) };
    assert_eq!(G1PreparedVar::from_group_var(&pv, &params).err(), Some(SynthesisError::DivisionByZero));
    assert_eq!(G2PreparedVar::from_group_var(&qv, &params).err(), Some(SynthesisError::DivisionByZero));
}

#[test]
fn mnt6_constant_prepared_points_round_trip() {
    let (p, q) = sample(25);
    let cs = ConstraintSystem { setup_mode: true };
    let v1 = native_g1_prepared(p);
    let g1 = G1PreparedVar::new_variable(&cs, Ok(v1), AllocationMode::Constant).unwrap();
    assert_eq!(g1.value().unwrap(), v1);
    let v2 = native_g2_prepared(q);
    let g2 = G2PreparedVar::new_variable(&cs, Ok(v2.clone()), AllocationMode::Constant).unwrap();
    assert_eq!(g2.value().unwrap(), v2);
}

#[test]
fn mnt6_failing_provider_fails_prepared_allocation() {
    let prove = ConstraintSystem { setup_mode: false };
    let e = SynthesisError::AssignmentMissing;
    assert_eq!(G1PreparedVar::new_variable(&prove, Err(e), AllocationMode::Witness).err(), Some(e));
    let r = G2PreparedVar::new_variable(&ConstraintSystem { setup_mode: true }, Err(e), AllocationMode::Witness);
    assert_eq!(r.err(), Some(e));
}

#[test]
fn mnt6_unassigned_point_prepares_unassigned() {
    let params = Mnt6Params::mnt6_298();
    let qv: ProjectiveVar<Fq3> =
        ProjectiveVar { x: FieldVar { value: None }, y: FieldVar { value: None }, z: FieldVar { value: None } };
    let gq = G2PreparedVar::from_group_var(&qv, &params).unwrap();
    assert!(gq.double_coefficients.iter().all(|c| c.c_h.value.is_none()));
    assert_eq!(gq.value().err(), Some(SynthesisError::AssignmentMissing));
    let bytes = gq.to_bytes_le();
    assert_eq!(bytes.len(), 114 * (4 + 4 * gq.double_coefficients.len() + 2 * gq.addition_coefficients.len()));
}
