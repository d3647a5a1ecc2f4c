use vstd::prelude::*;

use crate::error::{AllocationMode, ConstraintSystem, SynthesisError};
use crate::field::{
    v_add, v_double, v_inv, v_is_zero, v_mul, v_neg, v_square, v_sub, var_bytes, FieldElement,
    FieldVar, MulField, TowerField, UInt8, Val,
};

verus! {

/// The assignments of a point in extended coordinates `(x, y, z, t)`.
pub struct ExtModel {
    pub x: Val,
    pub y: Val,
    pub z: Val,
    pub t: Val,
}

/// The assignments of the line coefficients of one doubling step.
pub struct DoubleModel {
    pub c_h: Val,
    pub c_4c: Val,
    pub c_j: Val,
    pub c_l: Val,
}

/// The assignments of the line coefficients of one mixed-addition step.
pub struct AddModel {
    pub c_l1: Val,
    pub c_rz: Val,
}

/// A G2 point in extended coordinates `(x, y, z, t)`, with `t = z^2`, used
/// while the coefficients of a prepared point are computed.
pub struct G2ProjectiveExtendedVar<F> {
    pub x: FieldVar<F>,
    pub y: FieldVar<F>,
    pub z: FieldVar<F>,
    pub t: FieldVar<F>,
}

/// The line coefficients that one doubling step leaves for the Miller loop.
pub struct AteDoubleCoefficientsVar<F> {
    pub c_h: FieldVar<F>,
    pub c_4c: FieldVar<F>,
    pub c_j: FieldVar<F>,
    pub c_l: FieldVar<F>,
}

/// The line coefficients that one mixed-addition step leaves for the Miller
/// loop.
pub struct AteAdditionCoefficientsVar<F> {
    pub c_l1: FieldVar<F>,
    pub c_rz: FieldVar<F>,
}

impl<F: FieldElement> G2ProjectiveExtendedVar<F> {
    pub open spec fn model(&self) -> ExtModel {
        ExtModel { x: self.x.val(), y: self.y.val(), z: self.z.val(), t: self.t.val() }
    }

    pub open spec fn wf(&self) -> bool {
        self.x.wf() && self.y.wf() && self.z.wf() && self.t.wf()
    }
}

impl<F: FieldElement> AteDoubleCoefficientsVar<F> {
    pub open spec fn model(&self) -> DoubleModel {
        DoubleModel {
            c_h: self.c_h.val(),
            c_4c: self.c_4c.val(),
            c_j: self.c_j.val(),
            c_l: self.c_l.val(),
        }
    }

    pub open spec fn wf(&self) -> bool {
        self.c_h.wf() && self.c_4c.wf() && self.c_j.wf() && self.c_l.wf()
    }
}

impl<F: FieldElement> AteAdditionCoefficientsVar<F> {
    pub open spec fn model(&self) -> AddModel {
        AddModel { c_l1: self.c_l1.val(), c_rz: self.c_rz.val() }
    }

    pub open spec fn wf(&self) -> bool {
        self.c_l1.wf() && self.c_rz.wf()
    }
}

pub open spec fn double_models<F: FieldElement>(s: Seq<AteDoubleCoefficientsVar<F>>) -> Seq<
    DoubleModel,
> {
    s.map_values(|c: AteDoubleCoefficientsVar<F>| c.model())
}

pub open spec fn add_models<F: FieldElement>(s: Seq<AteAdditionCoefficientsVar<F>>) -> Seq<
    AddModel,
> {
    s.map_values(|c: AteAdditionCoefficientsVar<F>| c.model())
}

/// One doubling step of the flipped Miller loop on `r`, with `coeff_a` the
/// twist's `a` coefficient: the doubled point and the line coefficients.
pub open spec fn doubling_step_spec<F: TowerField>(r: ExtModel, coeff_a: Seq<int>) -> (
    ExtModel,
    DoubleModel,
) {
    let a = v_square::<F>(r.t);
    let b = v_square::<F>(r.x);
    let c = v_square::<F>(r.y);
    let d = v_square::<F>(c);
    let e = v_sub::<F>(v_sub::<F>(v_square::<F>(v_add::<F>(r.x, c)), b), d);
    let f = v_add::<F>(v_add::<F>(v_double::<F>(b), b), v_mul::<F>(a, Some(coeff_a)));
    let g = v_square::<F>(f);
    let d_eight = v_double::<F>(v_double::<F>(v_double::<F>(d)));
    let e2 = v_double::<F>(e);
    let x = v_sub::<F>(g, v_double::<F>(e2));
    let y = v_sub::<F>(v_mul::<F>(f, v_sub::<F>(e2, x)), d_eight);
    let z = v_sub::<F>(v_sub::<F>(v_square::<F>(v_add::<F>(r.y, r.z)), c), v_square::<F>(r.z));
    let t = v_square::<F>(z);
    let c_h = v_sub::<F>(v_sub::<F>(v_square::<F>(v_add::<F>(z, r.t)), t), a);
    let c_4c = v_double::<F>(v_double::<F>(c));
    let c_j = v_sub::<F>(v_sub::<F>(v_square::<F>(v_add::<F>(f, r.t)), g), a);
    let c_l = v_sub::<F>(v_sub::<F>(v_square::<F>(v_add::<F>(f, r.x)), g), b);
    (ExtModel { x, y, z, t }, DoubleModel { c_h, c_4c, c_j, c_l })
}

/// One mixed-addition step of the flipped Miller loop, adding the affine
/// point `(x, y)` to `r`: the sum and the line coefficients.
pub open spec fn mixed_addition_step_spec<F: TowerField>(x: Val, y: Val, r: ExtModel) -> (
    ExtModel,
    AddModel,
) {
    let a = v_square::<F>(y);
    let b = v_mul::<F>(r.t, x);
    let d = v_mul::<F>(v_sub::<F>(v_sub::<F>(v_square::<F>(v_add::<F>(r.z, y)), a), r.t), r.t);
    let h = v_sub::<F>(b, r.x);
    let i = v_square::<F>(h);
    let e = v_double::<F>(v_double::<F>(i));
    let j = v_mul::<F>(h, e);
    let v = v_mul::<F>(r.x, e);
    let ry2 = v_double::<F>(r.y);
    let l1 = v_sub::<F>(d, ry2);
    let x2 = v_sub::<F>(v_sub::<F>(v_square::<F>(l1), j), v_double::<F>(v));
    let y2 = v_sub::<F>(v_mul::<F>(l1, v_sub::<F>(v, x2)), v_mul::<F>(j, ry2));
    let z2 = v_sub::<F>(v_sub::<F>(v_square::<F>(v_add::<F>(r.z, h)), r.t), i);
    let t2 = v_square::<F>(z2);
    (ExtModel { x: x2, y: y2, z: z2, t: t2 }, AddModel { c_l1: l1, c_rz: z2 })
}

/// Doubles `r` and returns the line coefficients of the step.
pub fn doubling_step_for_flipped_miller_loop<F: TowerField>(
    r: &G2ProjectiveExtendedVar<F>,
    coeff_a: &F,
) -> (res: (G2ProjectiveExtendedVar<F>, AteDoubleCoefficientsVar<F>))
    requires
        r.wf(),
        coeff_a.wf(),
    ensures
        res.0.wf(),
        res.1.wf(),
        (res.0.model(), res.1.model()) == doubling_step_spec::<F>(r.model(), coeff_a.coeffs()),
{
    let a = r.t.square();
    let b = r.x.square();
    let c = r.y.square();
    let d = c.square();
    let e = r.x.add(&c).square().sub(&b).sub(&d);
    let ca = FieldVar::constant(*coeff_a);
    let f = b.double().add(&b).add(&a.mul(&ca));
    let g = f.square();
    let d_eight = d.double().double().double();
    let e2 = e.double();
    let x = g.sub(&e2.double());
    let y = f.mul(&e2.sub(&x)).sub(&d_eight);
    let z = r.y.add(&r.z).square().sub(&c).sub(&r.z.square());
    let t = z.square();
    let c_h = z.add(&r.t).square().sub(&t).sub(&a);
    let c_4c = c.double().double();
    let c_j = f.add(&r.t).square().sub(&g).sub(&a);
    let c_l = f.add(&r.x).square().sub(&g).sub(&b);
    (G2ProjectiveExtendedVar { x, y, z, t }, AteDoubleCoefficientsVar { c_h, c_4c, c_j, c_l })
}

/// Adds the affine point `(x, y)` to `r` and returns the line coefficients
/// of the step.
pub fn mixed_addition_step_for_flipped_miller_loop<F: TowerField>(
    x: &FieldVar<F>,
    y: &FieldVar<F>,
    r: &G2ProjectiveExtendedVar<F>,
) -> (res: (G2ProjectiveExtendedVar<F>, AteAdditionCoefficientsVar<F>))
    requires
        x.wf(),
        y.wf(),
        r.wf(),
    ensures
        res.0.wf(),
        res.1.wf(),
        (res.0.model(), res.1.model()) == mixed_addition_step_spec::<F>(
            x.val(),
            y.val(),
            r.model(),
        ),
{
    let a = y.square();
    let b = r.t.mul(x);
    let d = r.z.add(y).square().sub(&a).sub(&r.t).mul(&r.t);
    let h = b.sub(&r.x);
    let i = h.square();
    let e = i.double().double();
    let j = h.mul(&e);
    let v = r.x.mul(&e);
    let ry2 = r.y.double();
    let l1 = d.sub(&ry2);
    let x2 = l1.square().sub(&j).sub(&v.double());
    let y2 = l1.mul(&v.sub(&x2)).sub(&j.mul(&ry2));
    let z2 = r.z.add(&h).square().sub(&r.t).sub(&i);
    let t2 = z2.square();
    let c_rz = FieldVar { value: z2.value };
    (
        G2ProjectiveExtendedVar { x: x2, y: y2, z: z2, t: t2 },
        AteAdditionCoefficientsVar { c_l1: l1, c_rz },
    )
}

/// The curve constants that the preparation and the pairing read, with `F`
/// the field of G2's coordinates.
pub struct CurveParams<F> {
    /// The twist constant.
    pub twist: F,
    /// The `a` coefficient of the twisted curve.
    pub twist_coeff_a: F,
    /// The signed digits of the ate loop count, most significant first.
    pub ate_loop_count: Vec<i8>,
    /// Whether the ate loop count is negative.
    pub ate_is_loop_count_neg: bool,
    /// The exponent `w1` of the hard part of the final exponentiation, as
    /// little-endian limbs.
    pub final_exponent_last_chunk_1: Vec<u64>,
    /// The absolute value of the exponent `w0`, as little-endian limbs.
    pub final_exponent_last_chunk_abs_of_w0: Vec<u64>,
    /// Whether `w0` is negative.
    pub final_exponent_last_chunk_w0_is_neg: bool,
}

impl<F: MulField> CurveParams<F> {
    pub open spec fn wf(&self) -> bool {
        &&& self.twist.wf()
        &&& self.twist_coeff_a.wf()
        &&& self.twist.coeffs() != F::spec_zero()
        &&& self.ate_loop_count@.len() >= 1
        &&& forall|i: int|
            0 <= i < self.ate_loop_count@.len() ==> -1 <= #[trigger] self.ate_loop_count@[i] <= 1
    }
}

/// A curve point in projective coordinates `(x : y : z)`.
pub struct ProjectiveVar<F> {
    pub x: FieldVar<F>,
    pub y: FieldVar<F>,
    pub z: FieldVar<F>,
}

impl<F: MulField> ProjectiveVar<F> {
    pub open spec fn wf(&self) -> bool {
        self.x.wf() && self.y.wf() && self.z.wf()
    }

    /// The affine coordinates `(x / z, y / z)`.
    pub open spec fn affine_spec(&self) -> (Val, Val) {
        let z_inv = v_inv::<F>(self.z.val());
        (v_mul::<F>(self.x.val(), z_inv), v_mul::<F>(self.y.val(), z_inv))
    }

    /// The conversion to affine coordinates fails: `z` is zero.
    pub open spec fn affine_fails(&self) -> bool {
        v_is_zero::<F>(self.z.val())
    }

    /// The affine coordinates of the point; fails on the point at infinity.
    pub fn to_affine(&self) -> (r: Result<(FieldVar<F>, FieldVar<F>), SynthesisError>)
        requires
            self.wf(),
        ensures
            self.affine_fails() ==> r == Err::<(FieldVar<F>, FieldVar<F>), SynthesisError>(
                SynthesisError::DivisionByZero,
            ),
            !self.affine_fails() ==> (r matches Ok(p) && p.0.wf() && p.1.wf() && (p.0.val(), p.1.val())
                == self.affine_spec()),
    {
        match self.z.inverse() {
            Ok(z_inv) => Ok((self.x.mul(&z_inv), self.y.mul(&z_inv))),
            Err(e) => Err(e),
        }
    }
}

/// The state of the preparation loop: the running point and the
/// coefficients emitted so far.
pub struct PrecomputeState {
    pub r: ExtModel,
    pub dbl: Seq<DoubleModel>,
    pub add: Seq<AddModel>,
}

/// One digit of the preparation loop: always a doubling step, then an
/// addition of `(x, y)` for digit 1 or of `(x, -y)` for digit -1.
pub open spec fn precompute_step<F: TowerField>(
    s: PrecomputeState,
    bit: i8,
    x: Val,
    y: Val,
    coeff_a: Seq<int>,
) -> PrecomputeState {
    let (r2, dc) = doubling_step_spec::<F>(s.r, coeff_a);
    if bit == 1 {
        let (r3, ac) = mixed_addition_step_spec::<F>(x, y, r2);
        PrecomputeState { r: r3, dbl: s.dbl.push(dc), add: s.add.push(ac) }
    } else if bit == -1 {
        let (r3, ac) = mixed_addition_step_spec::<F>(x, v_neg::<F>(y), r2);
        PrecomputeState { r: r3, dbl: s.dbl.push(dc), add: s.add.push(ac) }
    } else {
        PrecomputeState { r: r2, dbl: s.dbl.push(dc), add: s.add }
    }
}

/// The state after the digits `1 .. k` of `digits` (the leading digit is
/// skipped), starting from `(x, y, 1, 1)`.
pub open spec fn precompute_spec<F: TowerField>(
    digits: Seq<i8>,
    k: int,
    x: Val,
    y: Val,
    coeff_a: Seq<int>,
) -> PrecomputeState
    decreases k,
{
    if k <= 1 {
        PrecomputeState {
            r: ExtModel { x, y, z: Some(F::spec_one()), t: Some(F::spec_one()) },
            dbl: Seq::empty(),
            add: Seq::empty(),
        }
    } else {
        precompute_step::<F>(
            precompute_spec::<F>(digits, k - 1, x, y, coeff_a),
            digits[k - 1],
            x,
            y,
            coeff_a,
        )
    }
}

/// The extra addition step for a negative loop count: `r` plus its own
/// negation, through the affine form of `-r`.
pub open spec fn neg_correction_spec<F: TowerField>(r: ExtModel) -> AddModel {
    let rz_inv = v_inv::<F>(r.z);
    let rz2_inv = v_square::<F>(rz_inv);
    let rz3_inv = v_mul::<F>(rz_inv, rz2_inv);
    let minus_x = v_mul::<F>(r.x, rz2_inv);
    let minus_y = v_mul::<F>(v_neg::<F>(r.y), rz3_inv);
    mixed_addition_step_spec::<F>(minus_x, minus_y, r).1
}

/// The assignments of a prepared G2 point.
pub struct G2PreparedModel {
    pub x: Val,
    pub y: Val,
    pub x_over_twist: Val,
    pub y_over_twist: Val,
    pub double_coefficients: Seq<DoubleModel>,
    pub addition_coefficients: Seq<AddModel>,
}

/// The final state of the preparation loop of the affine point `(x, y)`.
pub open spec fn g2_loop_spec<F: TowerField>(x: Val, y: Val, p: CurveParams<F>) -> PrecomputeState {
    precompute_spec::<F>(
        p.ate_loop_count@,
        p.ate_loop_count@.len() as int,
        x,
        y,
        p.twist_coeff_a.coeffs(),
    )
}

/// The preparation of the affine point `(x, y)` fails: the loop count is
/// negative and the final point has `z` zero.
pub open spec fn g2_prepare_fails<F: TowerField>(x: Val, y: Val, p: CurveParams<F>) -> bool {
    p.ate_is_loop_count_neg && v_is_zero::<F>(g2_loop_spec::<F>(x, y, p).r.z)
}

/// The prepared form of the affine point `(x, y)`.
pub open spec fn g2_prepared_spec<F: TowerField>(x: Val, y: Val, p: CurveParams<F>) -> G2PreparedModel {
    let twist_inv = Some(F::spec_inv(p.twist.coeffs()));
    let s = g2_loop_spec::<F>(x, y, p);
    G2PreparedModel {
        x,
        y,
        x_over_twist: v_mul::<F>(x, twist_inv),
        y_over_twist: v_mul::<F>(y, twist_inv),
        double_coefficients: s.dbl,
        addition_coefficients: if p.ate_is_loop_count_neg {
            s.add.push(neg_correction_spec::<F>(s.r))
        } else {
            s.add
        },
    }
}

/// A G2 point with the line coefficients of every step of the Miller loop
/// computed ahead, in the order the loop consumes them.
pub struct G2PreparedVar<F> {
    pub x: FieldVar<F>,
    pub y: FieldVar<F>,
    pub x_over_twist: FieldVar<F>,
    pub y_over_twist: FieldVar<F>,
    pub double_coefficients: Vec<AteDoubleCoefficientsVar<F>>,
    pub addition_coefficients: Vec<AteAdditionCoefficientsVar<F>>,
}

impl<F: FieldElement> G2PreparedVar<F> {
    pub open spec fn model(&self) -> G2PreparedModel {
        G2PreparedModel {
            x: self.x.val(),
            y: self.y.val(),
            x_over_twist: self.x_over_twist.val(),
            y_over_twist: self.y_over_twist.val(),
            double_coefficients: double_models(self.double_coefficients@),
            addition_coefficients: add_models(self.addition_coefficients@),
        }
    }

    pub open spec fn wf(&self) -> bool {
        &&& self.x.wf()
        &&& self.y.wf()
        &&& self.x_over_twist.wf()
        &&& self.y_over_twist.wf()
        &&& forall|i: int|
            0 <= i < self.double_coefficients@.len() ==> #[trigger] self.double_coefficients@[i].wf()
        &&& forall|i: int|
            0 <= i < self.addition_coefficients@.len()
                ==> #[trigger] self.addition_coefficients@[i].wf()
    }
}

impl<F: TowerField> G2PreparedVar<F> {
    /// Prepares the G2 point `q`: its affine coordinates, their quotients by
    /// the twist, and the coefficients of every doubling and addition step.
    pub fn from_group_var(q: &ProjectiveVar<F>, params: &CurveParams<F>) -> (r: Result<
        Self,
        SynthesisError,
    >)
        requires
            q.wf(),
            params.wf(),
        ensures
            q.affine_fails() ==> r == Err::<Self, SynthesisError>(SynthesisError::DivisionByZero),
            !q.affine_fails() ==> ({
                let (x, y) = q.affine_spec();
                if g2_prepare_fails::<F>(x, y, *params) {
                    r == Err::<Self, SynthesisError>(SynthesisError::DivisionByZero)
                } else {
                    r matches Ok(g) && g.wf() && g.model() == g2_prepared_spec::<F>(x, y, *params)
                }
            }),
    {
        let (x, y) = match q.to_affine() {
            Ok(p) => p,
            Err(e) => {
                return Err(e);
            },
        };
        let twist_inv = params.twist.inverse().unwrap();
        let t_inv = FieldVar::constant(twist_inv);
        let x_over_twist = x.mul(&t_inv);
        let y_over_twist = y.mul(&t_inv);
        let ghost digits = params.ate_loop_count@;
        let ghost coeff_a = params.twist_coeff_a.coeffs();
        let mut dbl: Vec<AteDoubleCoefficientsVar<F>> = Vec::new();
        let mut add: Vec<AteAdditionCoefficientsVar<F>> = Vec::new();
        let mut r = G2ProjectiveExtendedVar {
            x: FieldVar { value: x.value },
            y: FieldVar { value: y.value },
            z: FieldVar::one(),
            t: FieldVar::one(),
        };
        let n = params.ate_loop_count.len();
        let mut i: usize = 1;
        assert(double_models(dbl@) =~= Seq::<DoubleModel>::empty());
        assert(add_models(add@) =~= Seq::<AddModel>::empty());
        while i < n
            invariant
                1 <= i <= n,
                n == digits.len(),
                digits == params.ate_loop_count@,
                coeff_a == params.twist_coeff_a.coeffs(),
                params.wf(),
                x.wf(),
                y.wf(),
                r.wf(),
                forall|j: int| 0 <= j < dbl@.len() ==> #[trigger] dbl@[j].wf(),
                forall|j: int| 0 <= j < add@.len() ==> #[trigger] add@[j].wf(),
                r.model() == precompute_spec::<F>(digits, i as int, x.val(), y.val(), coeff_a).r,
                double_models(dbl@) == precompute_spec::<F>(
                    digits,
                    i as int,
                    x.val(),
                    y.val(),
                    coeff_a,
                ).dbl,
                add_models(add@) == precompute_spec::<F>(
                    digits,
                    i as int,
                    x.val(),
                    y.val(),
                    coeff_a,
                ).add,
            decreases n - i,
        {
            let ghost prev_dbl = dbl@;
            let ghost prev_add = add@;
            let (r2, dc) = doubling_step_for_flipped_miller_loop(&r, &params.twist_coeff_a);
            dbl.push(dc);
            assert(double_models(dbl@) =~= double_models(prev_dbl).push(dc.model()));
            r = r2;
            let bit = params.ate_loop_count[i];
            if bit == 1 {
                let (r3, ac) = mixed_addition_step_for_flipped_miller_loop(&x, &y, &r);
                add.push(ac);
                assert(add_models(add@) =~= add_models(prev_add).push(ac.model()));
                r = r3;
            } else if bit == -1 {
                let neg_y = y.negate();
                let (r3, ac) = mixed_addition_step_for_flipped_miller_loop(&x, &neg_y, &r);
                add.push(ac);
                assert(add_models(add@) =~= add_models(prev_add).push(ac.model()));
                r = r3;
            }
            i += 1;
        }
        if params.ate_is_loop_count_neg {
            let rz_inv = match r.z.inverse() {
                Ok(v) => v,
                Err(e) => {
                    return Err(e);
                },
            };
            let rz2_inv = rz_inv.square();
            let rz3_inv = rz_inv.mul(&rz2_inv);
            let minus_x = r.x.mul(&rz2_inv);
            let minus_y = r.y.negate().mul(&rz3_inv);
            let ghost prev_add = add@;
            let (_, ac) = mixed_addition_step_for_flipped_miller_loop(&minus_x, &minus_y, &r);
            add.push(ac);
            assert(add_models(add@) =~= add_models(prev_add).push(ac.model()));
        }
        Ok(G2PreparedVar {
            x,
            y,
            x_over_twist,
            y_over_twist,
            double_coefficients: dbl,
            addition_coefficients: add,
        })
    }
}

/// How many of the digits `1 .. k` are non-zero.
pub open spec fn nonzero_digits(digits: Seq<i8>, k: int) -> nat
    decreases k,
{
    if k <= 1 {
        0
    } else {
        nonzero_digits(digits, k - 1) + if digits[k - 1] != 0 {
            1nat
        } else {
            0nat
        }
    }
}

proof fn lemma_precompute_lengths<F: TowerField>(
    digits: Seq<i8>,
    k: int,
    x: Val,
    y: Val,
    coeff_a: Seq<int>,
)
    requires
        1 <= k <= digits.len(),
        forall|i: int| 0 <= i < digits.len() ==> -1 <= #[trigger] digits[i] <= 1,
    ensures
        precompute_spec::<F>(digits, k, x, y, coeff_a).dbl.len() == k - 1,
        precompute_spec::<F>(digits, k, x, y, coeff_a).add.len() == nonzero_digits(digits, k),
    decreases k,
{
    if k > 1 {
        lemma_precompute_lengths::<F>(digits, k - 1, x, y, coeff_a);
        assert(-1 <= digits[k - 1] <= 1);
    }
}

/// A prepared G2 point holds one doubling coefficient per digit of the loop
/// count after the leading one, and one addition coefficient per non-zero
/// digit among those, plus one when the loop count is negative.
pub proof fn lemma_coefficient_list_lengths<F: TowerField>(x: Val, y: Val, p: CurveParams<F>)
    requires
        p.wf(),
    ensures
        g2_prepared_spec::<F>(x, y, p).double_coefficients.len() == p.ate_loop_count@.len() - 1,
        g2_prepared_spec::<F>(x, y, p).addition_coefficients.len() == nonzero_digits(
            p.ate_loop_count@,
            p.ate_loop_count@.len() as int,
        ) + if p.ate_is_loop_count_neg {
            1nat
        } else {
            0nat
        },
{
    lemma_precompute_lengths::<F>(
        p.ate_loop_count@,
        p.ate_loop_count@.len() as int,
        x,
        y,
        p.twist_coeff_a.coeffs(),
    );
}

/// The native line coefficients of a doubling step.
#[derive(Clone, Copy, Debug, PartialEq, Eq)]
pub struct AteDoubleCoefficients<F> {
    pub c_h: F,
    pub c_4c: F,
    pub c_j: F,
    pub c_l: F,
}

/// The native line coefficients of a mixed-addition step.
#[derive(Clone, Copy, Debug, PartialEq, Eq)]
pub struct AteAdditionCoefficients<F> {
    pub c_l1: F,
    pub c_rz: F,
}

/// A native prepared G2 point.
#[derive(Clone, Debug, PartialEq, Eq)]
pub struct G2Prepared<F> {
    pub x: F,
    pub y: F,
    pub x_over_twist: F,
    pub y_over_twist: F,
    pub double_coefficients: Vec<AteDoubleCoefficients<F>>,
    pub addition_coefficients: Vec<AteAdditionCoefficients<F>>,
}

impl<F: FieldElement> AteDoubleCoefficients<F> {
    pub open spec fn wf(&self) -> bool {
        self.c_h.wf() && self.c_4c.wf() && self.c_j.wf() && self.c_l.wf()
    }
}

impl<F: FieldElement> AteAdditionCoefficients<F> {
    pub open spec fn wf(&self) -> bool {
        self.c_l1.wf() && self.c_rz.wf()
    }
}

impl<F: FieldElement> G2Prepared<F> {
    pub open spec fn wf(&self) -> bool {
        &&& self.x.wf()
        &&& self.y.wf()
        &&& self.x_over_twist.wf()
        &&& self.y_over_twist.wf()
        &&& forall|i: int|
            0 <= i < self.double_coefficients@.len() ==> #[trigger] self.double_coefficients@[i].wf()
        &&& forall|i: int|
            0 <= i < self.addition_coefficients@.len()
                ==> #[trigger] self.addition_coefficients@[i].wf()
    }
}

/// The assignment of a variable allocated from `v`: `v` itself when the
/// value was taken, none otherwise.
pub open spec fn assigned_as<F>(x: FieldVar<F>, v: F, taken: bool) -> bool {
    x.value == if taken {
        Some(v)
    } else {
        None
    }
}

impl<F: FieldElement> AteDoubleCoefficientsVar<F> {
    /// The variables were allocated from `c`, taking its values or not.
    pub open spec fn allocated_from(&self, c: AteDoubleCoefficients<F>, taken: bool) -> bool {
        &&& assigned_as(self.c_h, c.c_h, taken)
        &&& assigned_as(self.c_4c, c.c_4c, taken)
        &&& assigned_as(self.c_j, c.c_j, taken)
        &&& assigned_as(self.c_l, c.c_l, taken)
    }

    /// The native value, when every coefficient is assigned.
    pub open spec fn spec_value(&self) -> Option<AteDoubleCoefficients<F>> {
        match (self.c_h.value, self.c_4c.value, self.c_j.value, self.c_l.value) {
            (Some(c_h), Some(c_4c), Some(c_j), Some(c_l)) => Some(
                AteDoubleCoefficients { c_h, c_4c, c_j, c_l },
            ),
            _ => None,
        }
    }

    pub open spec fn spec_bytes(&self) -> Seq<UInt8> {
        var_bytes(self.c_h.value) + var_bytes(self.c_4c.value) + var_bytes(self.c_j.value)
            + var_bytes(self.c_l.value)
    }

    /// Allocates the four coefficients from the provider's outcome `f`.
    pub fn new_variable(
        cs: &ConstraintSystem,
        f: Result<AteDoubleCoefficients<F>, SynthesisError>,
        mode: AllocationMode,
    ) -> (r: Result<Self, SynthesisError>)
        requires
            f matches Ok(c) ==> c.wf(),
        ensures
            cs.spec_needs_value(mode) && f is Err ==> r == Err::<Self, SynthesisError>(
                f->Err_0,
            ),
            f matches Ok(c) ==> (r matches Ok(v) && v.wf() && v.allocated_from(
                c,
                cs.spec_needs_value(mode),
            )),
            !cs.spec_needs_value(mode) ==> r is Ok,
    {
        if cs.needs_value(mode) {
            match f {
                Ok(c) => Ok(AteDoubleCoefficientsVar {
                    c_h: FieldVar::constant(c.c_h),
                    c_4c: FieldVar::constant(c.c_4c),
                    c_j: FieldVar::constant(c.c_j),
                    c_l: FieldVar::constant(c.c_l),
                }),
                Err(e) => Err(e),
            }
        } else {
            Ok(AteDoubleCoefficientsVar {
                c_h: FieldVar { value: None },
                c_4c: FieldVar { value: None },
                c_j: FieldVar { value: None },
                c_l: FieldVar { value: None },
            })
        }
    }

    /// The native coefficients assigned to the variables.
    pub fn value(&self) -> (r: Result<AteDoubleCoefficients<F>, SynthesisError>)
        ensures
            r == match self.spec_value() {
                Some(c) => Ok(c),
                None => Err::<AteDoubleCoefficients<F>, SynthesisError>(
                    SynthesisError::AssignmentMissing,
                ),
            },
    {
        let c_h = match self.c_h.value() {
            Ok(v) => v,
            Err(e) => {
                return Err(e);
            },
        };
        let c_4c = match self.c_4c.value() {
            Ok(v) => v,
            Err(e) => {
                return Err(e);
            },
        };
        let c_j = match self.c_j.value() {
            Ok(v) => v,
            Err(e) => {
                return Err(e);
            },
        };
        let c_l = match self.c_l.value() {
            Ok(v) => v,
            Err(e) => {
                return Err(e);
            },
        };
        Ok(AteDoubleCoefficients { c_h, c_4c, c_j, c_l })
    }

    /// The byte variables of the four coefficients, in order.
    pub fn to_bytes_le(&self) -> (r: Vec<UInt8>)
        ensures
            r@ == self.spec_bytes(),
    {
        let mut out = self.c_h.to_bytes_le();
        let mut b = self.c_4c.to_bytes_le();
        out.append(&mut b);
        let mut b = self.c_j.to_bytes_le();
        out.append(&mut b);
        let mut b = self.c_l.to_bytes_le();
        out.append(&mut b);
        out
    }

    /// The same bytes as `to_bytes_le`: the assigned encoding is canonical.
    pub fn to_non_unique_bytes_le(&self) -> (r: Vec<UInt8>)
        ensures
            r@ == self.spec_bytes(),
    {
        self.to_bytes_le()
    }
}

impl<F: FieldElement> AteAdditionCoefficientsVar<F> {
    /// The variables were allocated from `c`, taking its values or not.
    pub open spec fn allocated_from(&self, c: AteAdditionCoefficients<F>, taken: bool) -> bool {
        assigned_as(self.c_l1, c.c_l1, taken) && assigned_as(self.c_rz, c.c_rz, taken)
    }

    /// The native value, when both coefficients are assigned.
    pub open spec fn spec_value(&self) -> Option<AteAdditionCoefficients<F>> {
        match (self.c_l1.value, self.c_rz.value) {
            (Some(c_l1), Some(c_rz)) => Some(AteAdditionCoefficients { c_l1, c_rz }),
            _ => None,
        }
    }

    pub open spec fn spec_bytes(&self) -> Seq<UInt8> {
        var_bytes(self.c_l1.value) + var_bytes(self.c_rz.value)
    }

    /// Allocates the two coefficients from the provider's outcome `f`.
    pub fn new_variable(
        cs: &ConstraintSystem,
        f: Result<AteAdditionCoefficients<F>, SynthesisError>,
        mode: AllocationMode,
    ) -> (r: Result<Self, SynthesisError>)
        requires
            f matches Ok(c) ==> c.wf(),
        ensures
            cs.spec_needs_value(mode) && f is Err ==> r == Err::<Self, SynthesisError>(
                f->Err_0,
            ),
            f matches Ok(c) ==> (r matches Ok(v) && v.wf() && v.allocated_from(
                c,
                cs.spec_needs_value(mode),
            )),
            !cs.spec_needs_value(mode) ==> r is Ok,
    {
        if cs.needs_value(mode) {
            match f {
                Ok(c) => Ok(
                    AteAdditionCoefficientsVar {
                        c_l1: FieldVar::constant(c.c_l1),
                        c_rz: FieldVar::constant(c.c_rz),
                    },
                ),
                Err(e) => Err(e),
            }
        } else {
            Ok(AteAdditionCoefficientsVar { c_l1: FieldVar { value: None }, c_rz: FieldVar { value: None } })
        }
    }

    /// The native coefficients assigned to the variables.
    pub fn value(&self) -> (r: Result<AteAdditionCoefficients<F>, SynthesisError>)
        ensures
            r == match self.spec_value() {
                Some(c) => Ok(c),
                None => Err::<AteAdditionCoefficients<F>, SynthesisError>(
                    SynthesisError::AssignmentMissing,
                ),
            },
    {
        let c_l1 = match self.c_l1.value() {
            Ok(v) => v,
            Err(e) => {
                return Err(e);
            },
        };
        let c_rz = match self.c_rz.value() {
            Ok(v) => v,
            Err(e) => {
                return Err(e);
            },
        };
        Ok(AteAdditionCoefficients { c_l1, c_rz })
    }

    /// The byte variables of the two coefficients, in order.
    pub fn to_bytes_le(&self) -> (r: Vec<UInt8>)
        ensures
            r@ == self.spec_bytes(),
    {
        let mut out = self.c_l1.to_bytes_le();
        let mut b = self.c_rz.to_bytes_le();
        out.append(&mut b);
        out
    }

    /// The same bytes as `to_bytes_le`: the assigned encoding is canonical.
    pub fn to_non_unique_bytes_le(&self) -> (r: Vec<UInt8>)
        ensures
            r@ == self.spec_bytes(),
    {
        self.to_bytes_le()
    }
}

/// The byte variables of a list of doubling coefficients, in order.
pub open spec fn double_list_bytes<F: FieldElement>(s: Seq<AteDoubleCoefficientsVar<F>>) -> Seq<UInt8>
    decreases s.len(),
{
    if s.len() == 0 {
        Seq::empty()
    } else {
        double_list_bytes(s.drop_last()) + s.last().spec_bytes()
    }
}

/// The byte variables of a list of addition coefficients, in order.
pub open spec fn add_list_bytes<F: FieldElement>(s: Seq<AteAdditionCoefficientsVar<F>>) -> Seq<UInt8>
    decreases s.len(),
{
    if s.len() == 0 {
        Seq::empty()
    } else {
        add_list_bytes(s.drop_last()) + s.last().spec_bytes()
    }
}

impl<F: FieldElement> G2PreparedVar<F> {
    /// The variables were allocated from `v`, taking its values or not.
    pub open spec fn allocated_from(&self, v: G2Prepared<F>, taken: bool) -> bool {
        &&& assigned_as(self.x, v.x, taken)
        &&& assigned_as(self.y, v.y, taken)
        &&& assigned_as(self.x_over_twist, v.x_over_twist, taken)
        &&& assigned_as(self.y_over_twist, v.y_over_twist, taken)
        &&& self.double_coefficients@.len() == v.double_coefficients@.len()
        &&& forall|i: int|
            0 <= i < self.double_coefficients@.len() ==> #[trigger] self.double_coefficients@[i].allocated_from(
                v.double_coefficients@[i],
                taken,
            )
        &&& self.addition_coefficients@.len() == v.addition_coefficients@.len()
        &&& forall|i: int|
            0 <= i < self.addition_coefficients@.len() ==> #[trigger] self.addition_coefficients@[i].allocated_from(
                v.addition_coefficients@[i],
                taken,
            )
    }

    /// Every variable has an assignment.
    pub open spec fn assigned(&self) -> bool {
        &&& self.x.value is Some
        &&& self.y.value is Some
        &&& self.x_over_twist.value is Some
        &&& self.y_over_twist.value is Some
        &&& forall|i: int|
            0 <= i < self.double_coefficients@.len()
                ==> #[trigger] self.double_coefficients@[i].spec_value() is Some
        &&& forall|i: int|
            0 <= i < self.addition_coefficients@.len()
                ==> #[trigger] self.addition_coefficients@[i].spec_value() is Some
    }

    pub open spec fn spec_bytes(&self) -> Seq<UInt8> {
        var_bytes(self.x.value) + var_bytes(self.y.value) + var_bytes(self.x_over_twist.value)
            + var_bytes(self.y_over_twist.value) + double_list_bytes(self.double_coefficients@)
            + add_list_bytes(self.addition_coefficients@)
    }

    /// Allocates a prepared G2 point from the provider's outcome `f`. The
    /// coefficient lists always need the provider's value for their lengths,
    /// so a failing provider fails the allocation in every mode.
    pub fn new_variable(
        cs: &ConstraintSystem,
        f: Result<G2Prepared<F>, SynthesisError>,
        mode: AllocationMode,
    ) -> (r: Result<Self, SynthesisError>)
        requires
            f matches Ok(v) ==> v.wf(),
        ensures
            f is Err ==> r == Err::<Self, SynthesisError>(f->Err_0),
            f matches Ok(v) ==> (r matches Ok(g) && g.wf() && g.allocated_from(
                v,
                cs.spec_needs_value(mode),
            )),
    {
        let v = match f {
            Ok(v) => v,
            Err(e) => {
                return Err(e);
            },
        };
        let ghost taken = cs.spec_needs_value(mode);
        let x = match FieldVar::new_variable(cs, Ok(v.x), mode) {
            Ok(x) => x,
            Err(e) => {
                return Err(e);
            },
        };
        let y = match FieldVar::new_variable(cs, Ok(v.y), mode) {
            Ok(x) => x,
            Err(e) => {
                return Err(e);
            },
        };
        let x_over_twist = match FieldVar::new_variable(cs, Ok(v.x_over_twist), mode) {
            Ok(x) => x,
            Err(e) => {
                return Err(e);
            },
        };
        let y_over_twist = match FieldVar::new_variable(cs, Ok(v.y_over_twist), mode) {
            Ok(x) => x,
            Err(e) => {
                return Err(e);
            },
        };
        let mut dbl: Vec<AteDoubleCoefficientsVar<F>> = Vec::new();
        let mut i: usize = 0;
        while i < v.double_coefficients.len()
            invariant
                i <= v.double_coefficients@.len(),
                v.wf(),
                taken == cs.spec_needs_value(mode),
                dbl@.len() == i,
                forall|j: int|
                    0 <= j < i ==> #[trigger] dbl@[j].allocated_from(v.double_coefficients@[j], taken)
                        && dbl@[j].wf(),
            decreases v.double_coefficients@.len() - i,
        {
            assert(v.double_coefficients@[i as int].wf());
            let c = match AteDoubleCoefficientsVar::new_variable(cs, Ok(v.double_coefficients[i]), mode) {
                Ok(c) => c,
                Err(e) => {
                    return Err(e);
                },
            };
            dbl.push(c);
            i += 1;
        }
        let mut add: Vec<AteAdditionCoefficientsVar<F>> = Vec::new();
        let mut i: usize = 0;
        while i < v.addition_coefficients.len()
            invariant
                i <= v.addition_coefficients@.len(),
                v.wf(),
                taken == cs.spec_needs_value(mode),
                add@.len() == i,
                forall|j: int|
                    0 <= j < i ==> #[trigger] add@[j].allocated_from(v.addition_coefficients@[j], taken)
                        && add@[j].wf(),
            decreases v.addition_coefficients@.len() - i,
        {
            assert(v.addition_coefficients@[i as int].wf());
            let c = match AteAdditionCoefficientsVar::new_variable(cs, Ok(v.addition_coefficients[i]), mode) {
                Ok(c) => c,
                Err(e) => {
                    return Err(e);
                },
            };
            add.push(c);
            i += 1;
        }
        let g = G2PreparedVar {
            x,
            y,
            x_over_twist,
            y_over_twist,
            double_coefficients: dbl,
            addition_coefficients: add,
        };
        assert(g.allocated_from(v, taken));
        assert forall|i: int| 0 <= i < g.double_coefficients@.len() implies #[trigger] g.double_coefficients@[i].wf() by {
            assert(g.double_coefficients@[i].allocated_from(v.double_coefficients@[i], taken));
        }
        assert forall|i: int| 0 <= i < g.addition_coefficients@.len() implies #[trigger] g.addition_coefficients@[i].wf() by {
            assert(g.addition_coefficients@[i].allocated_from(v.addition_coefficients@[i], taken));
        }
        Ok(g)
    }

    /// The native prepared point assigned to the variables; fails when one
    /// of them has no assignment.
    pub fn value(&self) -> (r: Result<G2Prepared<F>, SynthesisError>)
        ensures
            r is Ok <==> self.assigned(),
            r is Err ==> r == Err::<G2Prepared<F>, SynthesisError>(SynthesisError::AssignmentMissing),
            r matches Ok(v) ==> self.allocated_from(v, true),
    {
        let x = match self.x.value() {
            Ok(v) => v,
            Err(e) => {
                return Err(e);
            },
        };
        let y = match self.y.value() {
            Ok(v) => v,
            Err(e) => {
                return Err(e);
            },
        };
        let x_over_twist = match self.x_over_twist.value() {
            Ok(v) => v,
            Err(e) => {
                return Err(e);
            },
        };
        let y_over_twist = match self.y_over_twist.value() {
            Ok(v) => v,
            Err(e) => {
                return Err(e);
            },
        };
        let mut dbl: Vec<AteDoubleCoefficients<F>> = Vec::new();
        let mut i: usize = 0;
        while i < self.double_coefficients.len()
            invariant
                i <= self.double_coefficients@.len(),
                dbl@.len() == i,
                forall|j: int|
                    0 <= j < i ==> #[trigger] self.double_coefficients@[j].spec_value() == Some(
                        dbl@[j],
                    ),
            decreases self.double_coefficients@.len() - i,
        {
            let c = match self.double_coefficients[i].value() {
                Ok(c) => c,
                Err(e) => {
                    return Err(e);
                },
            };
            dbl.push(c);
            i += 1;
        }
        let mut add: Vec<AteAdditionCoefficients<F>> = Vec::new();
        let mut i: usize = 0;
        while i < self.addition_coefficients.len()
            invariant
                i <= self.addition_coefficients@.len(),
                add@.len() == i,
                forall|j: int|
                    0 <= j < i ==> #[trigger] self.addition_coefficients@[j].spec_value() == Some(
                        add@[j],
                    ),
            decreases self.addition_coefficients@.len() - i,
        {
            let c = match self.addition_coefficients[i].value() {
                Ok(c) => c,
                Err(e) => {
                    return Err(e);
                },
            };
            add.push(c);
            i += 1;
        }
        let r = G2Prepared {
            x,
            y,
            x_over_twist,
            y_over_twist,
            double_coefficients: dbl,
            addition_coefficients: add,
        };
        assert forall|j: int| 0 <= j < self.double_coefficients@.len() implies #[trigger] self.double_coefficients@[j].allocated_from(r.double_coefficients@[j], true) by {
            assert(self.double_coefficients@[j].spec_value() == Some(r.double_coefficients@[j]));
        }
        assert forall|j: int| 0 <= j < self.addition_coefficients@.len() implies #[trigger] self.addition_coefficients@[j].allocated_from(r.addition_coefficients@[j], true) by {
            assert(self.addition_coefficients@[j].spec_value() == Some(r.addition_coefficients@[j]));
        }
        Ok(r)
    }

    /// The byte variables of the coordinates, then of every doubling
    /// coefficient, then of every addition coefficient, in production order.
    pub fn to_bytes_le(&self) -> (r: Vec<UInt8>)
        ensures
            r@ == self.spec_bytes(),
    {
        let mut out = self.x.to_bytes_le();
        let mut b = self.y.to_bytes_le();
        out.append(&mut b);
        let mut b = self.x_over_twist.to_bytes_le();
        out.append(&mut b);
        let mut b = self.y_over_twist.to_bytes_le();
        out.append(&mut b);
        let ghost head = out@;
        let mut i: usize = 0;
        while i < self.double_coefficients.len()
            invariant
                i <= self.double_coefficients@.len(),
                out@ == head + double_list_bytes(self.double_coefficients@.subrange(0, i as int)),
            decreases self.double_coefficients@.len() - i,
        {
            let mut b = self.double_coefficients[i].to_bytes_le();
            out.append(&mut b);
            assert(self.double_coefficients@.subrange(0, i + 1).drop_last() =~= self.double_coefficients@.subrange(0, i as int));
            i += 1;
        }
        assert(self.double_coefficients@.subrange(0, i as int) =~= self.double_coefficients@);
        let ghost head = out@;
        let mut i: usize = 0;
        while i < self.addition_coefficients.len()
            invariant
                i <= self.addition_coefficients@.len(),
                out@ == head + add_list_bytes(self.addition_coefficients@.subrange(0, i as int)),
            decreases self.addition_coefficients@.len() - i,
        {
            let mut b = self.addition_coefficients[i].to_bytes_le();
            out.append(&mut b);
            assert(self.addition_coefficients@.subrange(0, i + 1).drop_last() =~= self.addition_coefficients@.subrange(0, i as int));
            i += 1;
        }
        assert(self.addition_coefficients@.subrange(0, i as int) =~= self.addition_coefficients@);
        assert(out@ =~= self.spec_bytes());
        out
    }

    /// The same bytes as `to_bytes_le`: the assigned encoding is canonical.
    pub fn to_non_unique_bytes_le(&self) -> (r: Vec<UInt8>)
        ensures
            r@ == self.spec_bytes(),
    {
        self.to_bytes_le()
    }
}

/// Two prepared G2 points with the same assignments have the same encoding.
pub proof fn lemma_g2_encoding_deterministic<F: FieldElement>(a: G2PreparedVar<F>, b: G2PreparedVar<F>)
    requires
        a.x.value == b.x.value,
        a.y.value == b.y.value,
        a.x_over_twist.value == b.x_over_twist.value,
        a.y_over_twist.value == b.y_over_twist.value,
        a.double_coefficients@ == b.double_coefficients@,
        a.addition_coefficients@ == b.addition_coefficients@,
    ensures
        a.spec_bytes() == b.spec_bytes(),
{
}

/// Allocating a native prepared G2 point as a constant and reading its value
/// back gives that point: every variable is assigned, and the value read has
/// the same coordinates and the same coefficient lists.
pub proof fn lemma_g2_prepared_round_trip<F: FieldElement>(
    cs: ConstraintSystem,
    v: G2Prepared<F>,
    g: G2PreparedVar<F>,
    w: G2Prepared<F>,
)
    requires
        g.allocated_from(v, cs.spec_needs_value(AllocationMode::Constant)),
        g.allocated_from(w, true),
    ensures
        g.assigned(),
        w.x == v.x,
        w.y == v.y,
        w.x_over_twist == v.x_over_twist,
        w.y_over_twist == v.y_over_twist,
        w.double_coefficients@ == v.double_coefficients@,
        w.addition_coefficients@ == v.addition_coefficients@,
{
    assert forall|i: int| 0 <= i < g.double_coefficients@.len() implies #[trigger] g.double_coefficients@[i].spec_value() is Some by {
        assert(g.double_coefficients@[i].allocated_from(v.double_coefficients@[i], true));
    }
    assert forall|i: int| 0 <= i < g.addition_coefficients@.len() implies #[trigger] g.addition_coefficients@[i].spec_value() is Some by {
        assert(g.addition_coefficients@[i].allocated_from(v.addition_coefficients@[i], true));
    }
    assert forall|i: int| 0 <= i < v.double_coefficients@.len() implies w.double_coefficients@[i] == v.double_coefficients@[i] by {
        assert(g.double_coefficients@[i].allocated_from(v.double_coefficients@[i], true));
        assert(g.double_coefficients@[i].allocated_from(w.double_coefficients@[i], true));
    }
    assert forall|i: int| 0 <= i < v.addition_coefficients@.len() implies w.addition_coefficients@[i] == v.addition_coefficients@[i] by {
        assert(g.addition_coefficients@[i].allocated_from(v.addition_coefficients@[i], true));
        assert(g.addition_coefficients@[i].allocated_from(w.addition_coefficients@[i], true));
    }
    assert(w.double_coefficients@ =~= v.double_coefficients@);
    assert(w.addition_coefficients@ =~= v.addition_coefficients@);
}

} // verus!
