use vstd::prelude::*;

use ark_ec::mnt6::MNT6Config;
use ark_ff::PrimeField;
use ark_mnt6_298::{Config, Fq as ArkFq, Fq3 as ArkFq3};

use crate::ate;
use crate::ate::{assigned_as, CurveParams, ProjectiveVar};
use crate::error::{AllocationMode, ConstraintSystem, SynthesisError};
use crate::field::{v_mul, var_bytes, FieldElement, FieldVar, MulField, UInt8, Val};
use crate::mnt6_fields::{Fq, Fq3};

verus! {

/// A variable over the MNT6-298 base field.
pub type FpVar = FieldVar<Fq>;

/// A variable over `Fq3`, the field of G2's coordinates.
pub type Fp3Var = FieldVar<Fq3>;

/// A projective point of G1.
pub type G1Var = ProjectiveVar<Fq>;

/// A projective point of G2.
pub type G2Var = ProjectiveVar<Fq3>;

/// The MNT6 curve constants.
pub type Mnt6Params = CurveParams<Fq3>;

pub type G2PreparedVar = ate::G2PreparedVar<Fq3>;

pub type AteDoubleCoefficientsVar = ate::AteDoubleCoefficientsVar<Fq3>;

pub type AteAdditionCoefficientsVar = ate::AteAdditionCoefficientsVar<Fq3>;

pub type G2ProjectiveExtendedVar = ate::G2ProjectiveExtendedVar<Fq3>;

/// The assignment of `c0 + c1 w + c2 w^2` built from three base-field
/// assignments.
pub open spec fn fp3_new_val(c0: Val, c1: Val, c2: Val) -> Val {
    match (c0, c1, c2) {
        (Some(a), Some(b), Some(c)) => Some(seq![a[0], b[0], c[0]]),
        _ => None,
    }
}

impl FieldVar<Fq3> {
    /// The variable `c0 + c1 w + c2 w^2`.
    pub fn new(c0: &FieldVar<Fq>, c1: &FieldVar<Fq>, c2: &FieldVar<Fq>) -> (r: Self)
        requires
            c0.wf(),
            c1.wf(),
            c2.wf(),
        ensures
            r.wf(),
            r.val() == fp3_new_val(c0.val(), c1.val(), c2.val()),
    {
        match (&c0.value, &c1.value, &c2.value) {
            (Some(a), Some(b), Some(c)) => {
                let r = FieldVar { value: Some(Fq3 { c: [*a, *b, *c] }) };
                assert(r.val().unwrap() =~= seq![a.coeffs()[0], b.coeffs()[0], c.coeffs()[0]]);
                r
            },
            _ => FieldVar { value: None },
        }
    }
}

/// The assignments of a prepared G1 point.
pub struct G1PreparedModel {
    pub x: Val,
    pub y: Val,
    pub x_twist: Val,
    pub y_twist: Val,
}

/// `(c + 0 w + 0 w^2) * twist` for a base-field assignment `c`.
pub open spec fn scale_by_twist(c: Val, twist: Fq3) -> Val {
    v_mul::<Fq3>(fp3_new_val(c, Some(seq![0int]), Some(seq![0int])), Some(twist.coeffs()))
}

/// The prepared form of the affine G1 point `(x, y)`.
pub open spec fn g1_prepared_spec(x: Val, y: Val, p: Mnt6Params) -> G1PreparedModel {
    G1PreparedModel {
        x,
        y,
        x_twist: scale_by_twist(x, p.twist),
        y_twist: scale_by_twist(y, p.twist),
    }
}

/// A G1 point with its coordinates also multiplied by the twist, so that the
/// Miller loop needs no tower multiplication for them.
pub struct G1PreparedVar {
    pub x: FpVar,
    pub y: FpVar,
    pub x_twist: Fp3Var,
    pub y_twist: Fp3Var,
}

impl G1PreparedVar {
    pub open spec fn model(&self) -> G1PreparedModel {
        G1PreparedModel {
            x: self.x.val(),
            y: self.y.val(),
            x_twist: self.x_twist.val(),
            y_twist: self.y_twist.val(),
        }
    }

    pub open spec fn wf(&self) -> bool {
        self.x.wf() && self.y.wf() && self.x_twist.wf() && self.y_twist.wf()
    }

    /// Prepares the G1 point `q`: its affine coordinates and their products
    /// with the twist.
    pub fn from_group_var(q: &G1Var, params: &Mnt6Params) -> (r: Result<Self, SynthesisError>)
        requires
            q.wf(),
            params.wf(),
        ensures
            q.affine_fails() ==> r == Err::<Self, SynthesisError>(SynthesisError::DivisionByZero),
            !q.affine_fails() ==> (r matches Ok(g) && g.wf() && g.model() == g1_prepared_spec(
                q.affine_spec().0,
                q.affine_spec().1,
                *params,
            )),
    {
        let (x, y) = match q.to_affine() {
            Ok(p) => p,
            Err(e) => {
                return Err(e);
            },
        };
        let zero = FieldVar::constant(Fq::zero());
        let twist = FieldVar::constant(params.twist);
        let x_twist = Fp3Var::new(&x, &zero, &zero).mul(&twist);
        let y_twist = Fp3Var::new(&y, &zero, &zero).mul(&twist);
        Ok(G1PreparedVar { x, y, x_twist, y_twist })
    }
}

/// A native prepared G1 point.
#[derive(Clone, Copy, Debug, PartialEq, Eq)]
pub struct G1Prepared {
    pub x: Fq,
    pub y: Fq,
    pub x_twist: Fq3,
    pub y_twist: Fq3,
}

impl G1Prepared {
    pub open spec fn wf(&self) -> bool {
        self.x.wf() && self.y.wf() && self.x_twist.wf() && self.y_twist.wf()
    }
}

impl G1PreparedVar {
    /// The variables were allocated from `v`, taking its values or not.
    pub open spec fn allocated_from(&self, v: G1Prepared, taken: bool) -> bool {
        &&& assigned_as(self.x, v.x, taken)
        &&& assigned_as(self.y, v.y, taken)
        &&& assigned_as(self.x_twist, v.x_twist, taken)
        &&& assigned_as(self.y_twist, v.y_twist, taken)
    }

    /// No variable has an assignment.
    pub open spec fn unassigned(&self) -> bool {
        &&& self.x.value is None
        &&& self.y.value is None
        &&& self.x_twist.value is None
        &&& self.y_twist.value is None
    }

    pub open spec fn spec_value(&self) -> Option<G1Prepared> {
        match (self.x.value, self.y.value, self.x_twist.value, self.y_twist.value) {
            (Some(x), Some(y), Some(x_twist), Some(y_twist)) => Some(
                G1Prepared { x, y, x_twist, y_twist },
            ),
            _ => None,
        }
    }

    pub open spec fn spec_bytes(&self) -> Seq<UInt8> {
        var_bytes(self.x.value) + var_bytes(self.y.value) + var_bytes(self.x_twist.value)
            + var_bytes(self.y_twist.value)
    }

    /// Allocates a prepared G1 point from the provider's outcome `f`, field
    /// by field. While the constraint system is set up, witnesses and inputs
    /// take no value, so a failing provider goes unnoticed then.
    pub fn new_variable(
        cs: &ConstraintSystem,
        f: Result<G1Prepared, SynthesisError>,
        mode: AllocationMode,
    ) -> (r: Result<Self, SynthesisError>)
        requires
            f matches Ok(v) ==> v.wf(),
        ensures
            cs.spec_needs_value(mode) && f is Err ==> r == Err::<Self, SynthesisError>(
                f->Err_0,
            ),
            f matches Ok(v) ==> (r matches Ok(g) && g.wf() && g.allocated_from(
                v,
                cs.spec_needs_value(mode),
            )),
            !cs.spec_needs_value(mode) ==> (r matches Ok(g) && g.unassigned()),
    {
        let (fx, fy, fxt, fyt) = match f {
            Ok(v) => (Ok(v.x), Ok(v.y), Ok(v.x_twist), Ok(v.y_twist)),
            Err(e) => (Err(e), Err(e), Err(e), Err(e)),
        };
        let x = match FieldVar::new_variable(cs, fx, mode) {
            Ok(x) => x,
            Err(e) => {
                return Err(e);
            },
        };
        let y = match FieldVar::new_variable(cs, fy, mode) {
            Ok(x) => x,
            Err(e) => {
                return Err(e);
            },
        };
        let x_twist = match FieldVar::new_variable(cs, fxt, mode) {
            Ok(x) => x,
            Err(e) => {
                return Err(e);
            },
        };
        let y_twist = match FieldVar::new_variable(cs, fyt, mode) {
            Ok(x) => x,
            Err(e) => {
                return Err(e);
            },
        };
        Ok(G1PreparedVar { x, y, x_twist, y_twist })
    }

    /// The native prepared point assigned to the variables.
    pub fn value(&self) -> (r: Result<G1Prepared, SynthesisError>)
        ensures
            r == match self.spec_value() {
                Some(v) => Ok(v),
                None => Err::<G1Prepared, SynthesisError>(SynthesisError::AssignmentMissing),
            },
    {
        let x = match self.x.value() {
            Ok(v) => v,
            Err(e) => {
                return Err(e);
            },
        };
        let y = match self.y.value() {
            Ok(v) => v,
            Err(e) => {
                return Err(e);
            },
        };
        let x_twist = match self.x_twist.value() {
            Ok(v) => v,
            Err(e) => {
                return Err(e);
            },
        };
        let y_twist = match self.y_twist.value() {
            Ok(v) => v,
            Err(e) => {
                return Err(e);
            },
        };
        Ok(G1Prepared { x, y, x_twist, y_twist })
    }

    /// The byte variables of `x`, `y`, `x_twist` and `y_twist`, in order.
    pub fn to_bytes_le(&self) -> (r: Vec<UInt8>)
        ensures
            r@ == self.spec_bytes(),
    {
        let mut out = self.x.to_bytes_le();
        let mut b = self.y.to_bytes_le();
        out.append(&mut b);
        let mut b = self.x_twist.to_bytes_le();
        out.append(&mut b);
        let mut b = self.y_twist.to_bytes_le();
        out.append(&mut b);
        out
    }

    /// The same bytes as `to_bytes_le`: the assigned encoding is canonical.
    pub fn to_non_unique_bytes_le(&self) -> (r: Vec<UInt8>)
        ensures
            r@ == self.spec_bytes(),
    {
        self.to_bytes_le()
    }
}

/// Allocating a native prepared G1 point as a constant and reading its value
/// back gives that point.
pub proof fn lemma_g1_prepared_round_trip(cs: ConstraintSystem, v: G1Prepared, g: G1PreparedVar)
    requires
        g.allocated_from(v, cs.spec_needs_value(AllocationMode::Constant)),
    ensures
        g.spec_value() == Some(v),
{
}

/// Two prepared G1 points with the same assignments have the same encoding.
pub proof fn lemma_g1_encoding_deterministic(a: G1PreparedVar, b: G1PreparedVar)
    requires
        a.x.value == b.x.value,
        a.y.value == b.y.value,
        a.x_twist.value == b.x_twist.value,
        a.y_twist.value == b.y_twist.value,
    ensures
        a.spec_bytes() == b.spec_bytes(),
{
}

/// Relies on the constants of `ark_mnt6_298::Config`'s `MNT6Config` impl:
/// the twist `(0, 1, 0)`, a loop count of signed digits that is negative,
/// the final exponent's limbs, and a negative `w0`.
#[verifier::external_body]
fn mnt6_298_config() -> (r: Mnt6Params)
    ensures
        r.wf(),
        r.twist.coeffs() == seq![0int, 1, 0],
        r.ate_is_loop_count_neg,
        r.final_exponent_last_chunk_w0_is_neg,
{
    let f = |x: ArkFq| Fq { limbs: x.into_bigint().0 };
    let g = |x: ArkFq3| Fq3 { c: [f(x.c0), f(x.c1), f(x.c2)] };
    CurveParams {
        twist: g(Config::TWIST),
        twist_coeff_a: g(Config::TWIST_COEFF_A),
        ate_loop_count: Config::ATE_LOOP_COUNT.to_vec(),
        ate_is_loop_count_neg: Config::ATE_IS_LOOP_COUNT_NEG,
        final_exponent_last_chunk_1: Config::FINAL_EXPONENT_LAST_CHUNK_1.0.to_vec(),
        final_exponent_last_chunk_abs_of_w0: Config::FINAL_EXPONENT_LAST_CHUNK_ABS_OF_W0.0.to_vec(),
        final_exponent_last_chunk_w0_is_neg: Config::FINAL_EXPONENT_LAST_CHUNK_W0_IS_NEG,
    }
}

impl CurveParams<Fq3> {
    /// The constants of the MNT6-298 curve.
    pub fn mnt6_298() -> (r: Self)
        ensures
            r.wf(),
            r.twist.coeffs() == seq![0int, 1, 0],
            r.ate_is_loop_count_neg,
            r.final_exponent_last_chunk_w0_is_neg,
    {
        mnt6_298_config()
    }
}

} // verus!
