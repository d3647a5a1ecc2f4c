use vstd::prelude::*;

use ark_ec::mnt4::MNT4Config;
use ark_ff::PrimeField;
use ark_mnt4_298::{Config, Fq as ArkFq, Fq2 as ArkFq2};

use crate::ate;
use crate::ate::{assigned_as, CurveParams, ProjectiveVar};
use crate::error::{AllocationMode, ConstraintSystem, SynthesisError};
use crate::field::{v_mul, var_bytes, FieldElement, FieldVar, MulField, UInt8, Val};
use crate::mnt4_fields::{Fq, Fq2, Fq4};

verus! {

/// A variable over the MNT4-298 base field.
pub type FpVar = FieldVar<Fq>;

/// A variable over `Fq2`, the field of G2's coordinates.
pub type Fp2Var = FieldVar<Fq2>;

/// A variable over `Fq4`, the target field of the pairing.
pub type Fp4Var = FieldVar<Fq4>;

/// A projective point of G1.
pub type G1Var = ProjectiveVar<Fq>;

/// A projective point of G2.
pub type G2Var = ProjectiveVar<Fq2>;

/// The MNT4 curve constants.
pub type Mnt4Params = CurveParams<Fq2>;

pub type G2PreparedVar = ate::G2PreparedVar<Fq2>;

pub type AteDoubleCoefficientsVar = ate::AteDoubleCoefficientsVar<Fq2>;

pub type AteAdditionCoefficientsVar = ate::AteAdditionCoefficientsVar<Fq2>;

pub type G2ProjectiveExtendedVar = ate::G2ProjectiveExtendedVar<Fq2>;

/// The assignment of `c0 + c1 u` built from two base-field assignments.
pub open spec fn fp2_new_val(c0: Val, c1: Val) -> Val {
    match (c0, c1) {
        (Some(a), Some(b)) => Some(seq![a[0], b[0]]),
        _ => None,
    }
}

/// The assignment of `c0 + c1 v` built from two `Fq2` assignments.
pub open spec fn fp4_new_val(c0: Val, c1: Val) -> Val {
    match (c0, c1) {
        (Some(a), Some(b)) => Some(a + b),
        _ => None,
    }
}

impl FieldVar<Fq2> {
    /// The variable `c0 + c1 u`.
    pub fn new(c0: &FieldVar<Fq>, c1: &FieldVar<Fq>) -> (r: Self)
        requires
            c0.wf(),
            c1.wf(),
        ensures
            r.wf(),
            r.val() == fp2_new_val(c0.val(), c1.val()),
    {
        match (&c0.value, &c1.value) {
            (Some(a), Some(b)) => {
                let r = FieldVar { value: Some(Fq2 { c: [*a, *b] }) };
                assert(r.val().unwrap() =~= seq![a.coeffs()[0], b.coeffs()[0]]);
                r
            },
            _ => FieldVar { value: None },
        }
    }
}

impl FieldVar<Fq4> {
    /// The variable `c0 + c1 v`.
    pub fn new(c0: &FieldVar<Fq2>, c1: &FieldVar<Fq2>) -> (r: Self)
        requires
            c0.wf(),
            c1.wf(),
        ensures
            r.wf(),
            r.val() == fp4_new_val(c0.val(), c1.val()),
    {
        match (&c0.value, &c1.value) {
            (Some(a), Some(b)) => FieldVar { value: Some(Fq4::new(*a, *b)) },
            _ => FieldVar { value: None },
        }
    }
}

/// The assignments of a prepared G1 point.
pub struct G1PreparedModel {
    pub x: Val,
    pub y: Val,
    pub x_twist: Val,
    pub y_twist: Val,
}

/// `c * (t0 + t1 u)` for a base-field assignment `c` and the twist `t`.
pub open spec fn scale_by_twist(c: Val, twist: Fq2) -> Val {
    fp2_new_val(
        v_mul::<Fq>(c, Some(seq![twist.c[0].val()])),
        v_mul::<Fq>(c, Some(seq![twist.c[1].val()])),
    )
}

/// The prepared form of the affine G1 point `(x, y)`.
pub open spec fn g1_prepared_spec(x: Val, y: Val, p: Mnt4Params) -> G1PreparedModel {
    G1PreparedModel {
        x,
        y,
        x_twist: scale_by_twist(x, p.twist),
        y_twist: scale_by_twist(y, p.twist),
    }
}

/// A G1 point with its coordinates also multiplied by the twist, so that the
/// Miller loop needs no tower multiplication for them.
pub struct G1PreparedVar {
    pub x: FpVar,
    pub y: FpVar,
    pub x_twist: Fp2Var,
    pub y_twist: Fp2Var,
}

impl G1PreparedVar {
    pub open spec fn model(&self) -> G1PreparedModel {
        G1PreparedModel {
            x: self.x.val(),
            y: self.y.val(),
            x_twist: self.x_twist.val(),
            y_twist: self.y_twist.val(),
        }
    }

    pub open spec fn wf(&self) -> bool {
        self.x.wf() && self.y.wf() && self.x_twist.wf() && self.y_twist.wf()
    }

    /// Prepares the G1 point `q`: its affine coordinates and their products
    /// with the twist.
    pub fn from_group_var(q: &G1Var, params: &Mnt4Params) -> (r: Result<Self, SynthesisError>)
        requires
            q.wf(),
            params.wf(),
        ensures
            q.affine_fails() ==> r == Err::<Self, SynthesisError>(SynthesisError::DivisionByZero),
            !q.affine_fails() ==> (r matches Ok(g) && g.wf() && g.model() == g1_prepared_spec(
                q.affine_spec().0,
                q.affine_spec().1,
                *params,
            )),
    {
        let (x, y) = match q.to_affine() {
            Ok(p) => p,
            Err(e) => {
                return Err(e);
            },
        };
        let t0 = FieldVar::constant(params.twist.c[0]);
        let t1 = FieldVar::constant(params.twist.c[1]);
        let x_twist = Fp2Var::new(&x.mul(&t0), &x.mul(&t1));
        let y_twist = Fp2Var::new(&y.mul(&t0), &y.mul(&t1));
        Ok(G1PreparedVar { x, y, x_twist, y_twist })
    }
}

/// A native prepared G1 point.
#[derive(Clone, Copy, Debug, PartialEq, Eq)]
pub struct G1Prepared {
    pub x: Fq,
    pub y: Fq,
    pub x_twist: Fq2,
    pub y_twist: Fq2,
}

impl G1Prepared {
    pub open spec fn wf(&self) -> bool {
        self.x.wf() && self.y.wf() && self.x_twist.wf() && self.y_twist.wf()
    }
}

impl G1PreparedVar {
    /// The variables were allocated from `v`, taking its values or not.
    pub open spec fn allocated_from(&self, v: G1Prepared, taken: bool) -> bool {
        &&& assigned_as(self.x, v.x, taken)
        &&& assigned_as(self.y, v.y, taken)
        &&& assigned_as(self.x_twist, v.x_twist, taken)
        &&& assigned_as(self.y_twist, v.y_twist, taken)
    }

    /// No variable has an assignment.
    pub open spec fn unassigned(&self) -> bool {
        &&& self.x.value is None
        &&& self.y.value is None
        &&& self.x_twist.value is None
        &&& self.y_twist.value is None
    }

    pub open spec fn spec_value(&self) -> Option<G1Prepared> {
        match (self.x.value, self.y.value, self.x_twist.value, self.y_twist.value) {
            (Some(x), Some(y), Some(x_twist), Some(y_twist)) => Some(
                G1Prepared { x, y, x_twist, y_twist },
            ),
            _ => None,
        }
    }

    pub open spec fn spec_bytes(&self) -> Seq<UInt8> {
        var_bytes(self.x.value) + var_bytes(self.y.value) + var_bytes(self.x_twist.value)
            + var_bytes(self.y_twist.value)
    }

    /// Allocates a prepared G1 point from the provider's outcome `f`, field
    /// by field. While the constraint system is set up, witnesses and inputs
    /// take no value, so a failing provider goes unnoticed then.
    pub fn new_variable(
        cs: &ConstraintSystem,
        f: Result<G1Prepared, SynthesisError>,
        mode: AllocationMode,
    ) -> (r: Result<Self, SynthesisError>)
        requires
            f matches Ok(v) ==> v.wf(),
        ensures
            cs.spec_needs_value(mode) && f is Err ==> r == Err::<Self, SynthesisError>(
                f->Err_0,
            ),
            f matches Ok(v) ==> (r matches Ok(g) && g.wf() && g.allocated_from(
                v,
                cs.spec_needs_value(mode),
            )),
            !cs.spec_needs_value(mode) ==> (r matches Ok(g) && g.unassigned()),
    {
        let (fx, fy, fxt, fyt) = match f {
            Ok(v) => (Ok(v.x), Ok(v.y), Ok(v.x_twist), Ok(v.y_twist)),
            Err(e) => (Err(e), Err(e), Err(e), Err(e)),
        };
        let x = match FieldVar::new_variable(cs, fx, mode) {
            Ok(x) => x,
            Err(e) => {
                return Err(e);
            },
        };
        let y = match FieldVar::new_variable(cs, fy, mode) {
            Ok(x) => x,
            Err(e) => {
                return Err(e);
            },
        };
        let x_twist = match FieldVar::new_variable(cs, fxt, mode) {
            Ok(x) => x,
            Err(e) => {
                return Err(e);
            },
        };
        let y_twist = match FieldVar::new_variable(cs, fyt, mode) {
            Ok(x) => x,
            Err(e) => {
                return Err(e);
            },
        };
        Ok(G1PreparedVar { x, y, x_twist, y_twist })
    }

    /// The native prepared point assigned to the variables.
    pub fn value(&self) -> (r: Result<G1Prepared, SynthesisError>)
        ensures
            r == match self.spec_value() {
                Some(v) => Ok(v),
                None => Err::<G1Prepared, SynthesisError>(SynthesisError::AssignmentMissing),
            },
    {
        let x = match self.x.value() {
            Ok(v) => v,
            Err(e) => {
                return Err(e);
            },
        };
        let y = match self.y.value() {
            Ok(v) => v,
            Err(e) => {
                return Err(e);
            },
        };
        let x_twist = match self.x_twist.value() {
            Ok(v) => v,
            Err(e) => {
                return Err(e);
            },
        };
        let y_twist = match self.y_twist.value() {
            Ok(v) => v,
            Err(e) => {
                return Err(e);
            },
        };
        Ok(G1Prepared { x, y, x_twist, y_twist })
    }

    /// The byte variables of `x`, `y`, `x_twist` and `y_twist`, in order.
    pub fn to_bytes_le(&self) -> (r: Vec<UInt8>)
        ensures
            r@ == self.spec_bytes(),
    {
        let mut out = self.x.to_bytes_le();
        let mut b = self.y.to_bytes_le();
        out.append(&mut b);
        let mut b = self.x_twist.to_bytes_le();
        out.append(&mut b);
        let mut b = self.y_twist.to_bytes_le();
        out.append(&mut b);
        out
    }

    /// The same bytes as `to_bytes_le`: the assigned encoding is canonical.
    pub fn to_non_unique_bytes_le(&self) -> (r: Vec<UInt8>)
        ensures
            r@ == self.spec_bytes(),
    {
        self.to_bytes_le()
    }
}

/// Allocating a native prepared G1 point as a constant and reading its value
/// back gives that point.
pub proof fn lemma_g1_prepared_round_trip(cs: ConstraintSystem, v: G1Prepared, g: G1PreparedVar)
    requires
        g.allocated_from(v, cs.spec_needs_value(AllocationMode::Constant)),
    ensures
        g.spec_value() == Some(v),
{
}

/// Two prepared G1 points with the same assignments have the same encoding.
pub proof fn lemma_g1_encoding_deterministic(a: G1PreparedVar, b: G1PreparedVar)
    requires
        a.x.value == b.x.value,
        a.y.value == b.y.value,
        a.x_twist.value == b.x_twist.value,
        a.y_twist.value == b.y_twist.value,
    ensures
        a.spec_bytes() == b.spec_bytes(),
{
}

/// Relies on the constants of `ark_mnt4_298::Config`'s `MNT4Config` impl:
/// the twist `(0, 1)`, the twist's `a` coefficient `(34, 0)`, a loop count
/// of signed digits that is not negative, the final exponent's limbs, and a
/// `w0` that is not negative.
#[verifier::external_body]
fn mnt4_298_config() -> (r: Mnt4Params)
    ensures
        r.wf(),
        r.twist.coeffs() == seq![0int, 1],
        r.twist_coeff_a.coeffs() == seq![34int, 0],
        !r.ate_is_loop_count_neg,
        !r.final_exponent_last_chunk_w0_is_neg,
{
    let f = |x: ArkFq| Fq { limbs: x.into_bigint().0 };
    let g = |x: ArkFq2| Fq2 { c: [f(x.c0), f(x.c1)] };
    CurveParams {
        twist: g(Config::TWIST),
        twist_coeff_a: g(Config::TWIST_COEFF_A),
        ate_loop_count: Config::ATE_LOOP_COUNT.to_vec(),
        ate_is_loop_count_neg: Config::ATE_IS_LOOP_COUNT_NEG,
        final_exponent_last_chunk_1: Config::FINAL_EXPONENT_LAST_CHUNK_1.0.to_vec(),
        final_exponent_last_chunk_abs_of_w0: Config::FINAL_EXPONENT_LAST_CHUNK_ABS_OF_W0.0.to_vec(),
        final_exponent_last_chunk_w0_is_neg: Config::FINAL_EXPONENT_LAST_CHUNK_W0_IS_NEG,
    }
}

impl CurveParams<Fq2> {
    /// The constants of the MNT4-298 curve.
    pub fn mnt4_298() -> (r: Self)
        ensures
            r.wf(),
            r.twist.coeffs() == seq![0int, 1],
            r.twist_coeff_a.coeffs() == seq![34int, 0],
            !r.ate_is_loop_count_neg,
            !r.final_exponent_last_chunk_w0_is_neg,
    {
        mnt4_298_config()
    }
}

} // verus!
