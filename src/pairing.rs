use vstd::arithmetic::power::pow;
use vstd::prelude::*;

use crate::ate::{
    g2_prepare_fails, g2_prepared_spec, lemma_coefficient_list_lengths, nonzero_digits, AddModel,
    DoubleModel, G2PreparedModel,
};
use crate::error::SynthesisError;
use crate::field::{
    v_add, v_inv, v_is_zero, v_mul, v_neg, v_square, v_sub, FieldElement, FieldVar, MulField,
    Val,
};
use crate::mnt4::{
    fp2_new_val, fp4_new_val, g1_prepared_spec, Fp2Var, Fp4Var, G1PreparedModel, G1PreparedVar,
    G1Var, G2PreparedVar, G2Var, Mnt4Params,
};
use crate::mnt4_fields::{
    fq4_conjugate, fq4_cyclotomic_exp_ark, fq4_cyclotomic_exp_of, fq4_frobenius_ark, fq4_one,
    fq4_pow, lemma_fq4_inv_canonical, lemma_fq4_mul_canonical, lemma_fq4_one_canonical,
    lemma_fq4_one_mul, modulus, Fq, Fq2, Fq4, fq4_canonical,
};

verus! {

/// A variable of the pairing's target group.
pub type GTVar = Fp4Var;

pub open spec fn v_conjugate(a: Val) -> Val {
    match a {
        Some(x) => Some(fq4_conjugate(x)),
        None => None,
    }
}

pub open spec fn v_frobenius(a: Val, power: nat) -> Val {
    match a {
        Some(x) => Some(fq4_pow(x, pow(modulus(), power) as nat)),
        None => None,
    }
}

pub open spec fn v_cyclotomic_exp(a: Val, e: Seq<u64>) -> Val {
    match a {
        Some(x) => Some(fq4_cyclotomic_exp_of(x, e)),
        None => None,
    }
}

impl FieldVar<Fq4> {
    /// `c0 - c1 v`: the inverse of an element of the norm-one subgroup.
    pub fn unitary_inverse(&self) -> (r: Self)
        requires
            self.wf(),
        ensures
            r.wf(),
            r.val() == v_conjugate(self.val()),
    {
        match &self.value {
            Some(x) => FieldVar { value: Some(x.conjugate()) },
            None => FieldVar { value: None },
        }
    }

    /// The power by the base field's modulus raised to `power`.
    pub fn frobenius_map(&self, power: usize) -> (r: Self)
        requires
            self.wf(),
        ensures
            r.wf(),
            r.val() == v_frobenius(self.val(), power as nat),
    {
        match &self.value {
            Some(x) => FieldVar { value: Some(fq4_frobenius_ark(x, power)) },
            None => FieldVar { value: None },
        }
    }

    /// Exponentiation by the limbs `e`, for an element of the norm-one
    /// subgroup.
    pub fn cyclotomic_exp(&self, e: &Vec<u64>) -> (r: Self)
        requires
            self.wf(),
        ensures
            r.wf(),
            r.val() == v_cyclotomic_exp(self.val(), e@),
    {
        match &self.value {
            Some(x) => FieldVar { value: Some(fq4_cyclotomic_exp_ark(x, e)) },
            None => FieldVar { value: None },
        }
    }
}

/// `x_P - x_Q / twist` as an `Fq2` assignment: the factor of `c_l1` in the
/// addition lines.
pub open spec fn l1_coeff_spec(p: G1PreparedModel, q: G2PreparedModel) -> Val {
    v_sub::<Fq2>(fp2_new_val(p.x, Some(seq![0int])), q.x_over_twist)
}

/// The doubling line through the coefficients `dc`, evaluated at `p`.
pub open spec fn double_line_spec(dc: DoubleModel, p: G1PreparedModel) -> Val {
    fp4_new_val(
        v_sub::<Fq2>(v_sub::<Fq2>(dc.c_l, dc.c_4c), v_mul::<Fq2>(dc.c_j, p.x_twist)),
        v_mul::<Fq2>(dc.c_h, p.y_twist),
    )
}

/// The addition line through the coefficients `ac`, evaluated at `p`, with
/// `y_ot` the y coordinate over the twist (negated for digit -1).
pub open spec fn add_line_spec(ac: AddModel, p: G1PreparedModel, y_ot: Val, l1: Val) -> Val {
    fp4_new_val(
        v_mul::<Fq2>(ac.c_rz, p.y_twist),
        v_neg::<Fq2>(v_add::<Fq2>(v_mul::<Fq2>(y_ot, ac.c_rz), v_mul::<Fq2>(l1, ac.c_l1))),
    )
}

/// The accumulator of the Miller loop and the number of addition
/// coefficients consumed.
pub struct MillerState {
    pub f: Val,
    pub idx: int,
}

/// The Miller loop state after the digits `1 .. k`.
pub open spec fn miller_spec(p: G1PreparedModel, q: G2PreparedModel, digits: Seq<i8>, k: int) -> MillerState
    decreases k,
{
    if k <= 1 {
        MillerState { f: Some(fq4_one()), idx: 0 }
    } else {
        let s = miller_spec(p, q, digits, k - 1);
        let l1 = l1_coeff_spec(p, q);
        let g = double_line_spec(q.double_coefficients[k - 2], p);
        let f = v_mul::<Fq4>(v_square::<Fq4>(s.f), g);
        let bit = digits[k - 1];
        if bit == 1 {
            MillerState {
                f: v_mul::<Fq4>(
                    f,
                    add_line_spec(q.addition_coefficients[s.idx], p, q.y_over_twist, l1),
                ),
                idx: s.idx + 1,
            }
        } else if bit == -1 {
            MillerState {
                f: v_mul::<Fq4>(
                    f,
                    add_line_spec(
                        q.addition_coefficients[s.idx],
                        p,
                        v_neg::<Fq2>(q.y_over_twist),
                        l1,
                    ),
                ),
                idx: s.idx + 1,
            }
        } else {
            MillerState { f, idx: s.idx }
        }
    }
}

/// The product that the loop ends with, before the inversion that a
/// negative loop count asks for.
pub open spec fn miller_product_spec(p: G1PreparedModel, q: G2PreparedModel, params: Mnt4Params) -> Val {
    let digits = params.ate_loop_count@;
    let s = miller_spec(p, q, digits, digits.len() as int);
    if params.ate_is_loop_count_neg {
        v_mul::<Fq4>(
            s.f,
            add_line_spec(q.addition_coefficients[s.idx], p, q.y_over_twist, l1_coeff_spec(p, q)),
        )
    } else {
        s.f
    }
}

/// The Miller loop of one pair fails: the loop count is negative and the
/// product to invert is zero.
#[verifier::opaque]
pub open spec fn ate_fails(p: G1PreparedModel, q: G2PreparedModel, params: Mnt4Params) -> bool {
    params.ate_is_loop_count_neg && v_is_zero::<Fq4>(miller_product_spec(p, q, params))
}

/// The Miller loop of one pair.
#[verifier::opaque]
pub open spec fn ate_spec(p: G1PreparedModel, q: G2PreparedModel, params: Mnt4Params) -> Val {
    if params.ate_is_loop_count_neg {
        v_inv::<Fq4>(miller_product_spec(p, q, params))
    } else {
        miller_product_spec(p, q, params)
    }
}

/// The coefficient lists of `q` have the lengths that the loop count asks
/// for.
pub open spec fn fits(q: G2PreparedModel, params: Mnt4Params) -> bool {
    let digits = params.ate_loop_count@;
    &&& q.double_coefficients.len() == digits.len() - 1
    &&& q.addition_coefficients.len() == nonzero_digits(digits, digits.len() as int) + if params.ate_is_loop_count_neg {
        1nat
    } else {
        0nat
    }
}

/// The product of the Miller loops of the first `k` pairs, or `None` when
/// one of them fails.
pub open spec fn batch_spec(
    ps: Seq<G1PreparedModel>,
    qs: Seq<G2PreparedModel>,
    params: Mnt4Params,
    k: int,
) -> Option<Val>
    decreases k,
{
    if k <= 0 {
        Some(Some(fq4_one()))
    } else {
        match batch_spec(ps, qs, params, k - 1) {
            None => None,
            Some(acc) => if ate_fails(ps[k - 1], qs[k - 1], params) {
                None
            } else {
                Some(v_mul::<Fq4>(acc, ate_spec(ps[k - 1], qs[k - 1], params)))
            },
        }
    }
}

/// `elt^(q^2 - 1)`, given `elt` and its inverse.
pub open spec fn first_chunk_spec(elt: Val, elt_inv: Val) -> Val {
    v_mul::<Fq4>(v_conjugate(elt), elt_inv)
}

/// The hard part of the final exponentiation.
pub open spec fn last_chunk_spec(elt: Val, elt_inv: Val, params: Mnt4Params) -> Val {
    let elt_q = v_frobenius(elt, 1);
    let w1_part = v_cyclotomic_exp(elt_q, params.final_exponent_last_chunk_1@);
    let w0_part = if params.final_exponent_last_chunk_w0_is_neg {
        v_cyclotomic_exp(elt_inv, params.final_exponent_last_chunk_abs_of_w0@)
    } else {
        v_cyclotomic_exp(elt, params.final_exponent_last_chunk_abs_of_w0@)
    };
    v_mul::<Fq4>(w1_part, w0_part)
}

/// The final exponentiation of `value`.
pub open spec fn final_exponentiation_spec(value: Val, params: Mnt4Params) -> Val {
    let value_inv = v_inv::<Fq4>(value);
    last_chunk_spec(
        first_chunk_spec(value, value_inv),
        first_chunk_spec(value_inv, value),
        params,
    )
}

pub open spec fn g1_models(s: Seq<G1PreparedVar>) -> Seq<G1PreparedModel> {
    s.map_values(|p: G1PreparedVar| p.model())
}

pub open spec fn g2_models(s: Seq<G2PreparedVar>) -> Seq<G2PreparedModel> {
    s.map_values(|q: G2PreparedVar| q.model())
}

/// The pairing of MNT4 curves in constraints: Miller loop over prepared
/// points, then final exponentiation.
pub struct PairingVar {
    pub params: Mnt4Params,
}

impl PairingVar {
    pub open spec fn wf(&self) -> bool {
        self.params.wf()
    }

    /// The Miller loop of one pair of prepared points.
    #[verifier::rlimit(50)]
    pub fn ate_miller_loop(&self, p: &G1PreparedVar, q: &G2PreparedVar) -> (r: Result<Fp4Var, SynthesisError>)
        requires
            self.wf(),
            p.wf(),
            q.wf(),
            fits(q.model(), self.params),
        ensures
            ate_fails(p.model(), q.model(), self.params) ==> r == Err::<Fp4Var, SynthesisError>(
                SynthesisError::DivisionByZero,
            ),
            !ate_fails(p.model(), q.model(), self.params) ==> (r matches Ok(f) && f.wf() && f.val()
                == ate_spec(p.model(), q.model(), self.params)),
    {
        let ghost digits = self.params.ate_loop_count@;
        let l1_coeff = Fp2Var::new(&p.x, &FieldVar::constant(Fq::zero())).sub(&q.x_over_twist);
        let mut f = Fp4Var::one();
        let mut add_idx: usize = 0;
        let y_over_twist_neg = q.y_over_twist.negate();
        let n = self.params.ate_loop_count.len();
        let mut i: usize = 1;
        proof {
            lemma_miller_idx(p.model(), q.model(), digits, 1, self.params);
        }
        while i < n
            invariant
                1 <= i <= n,
                n == digits.len(),
                digits == self.params.ate_loop_count@,
                self.wf(),
                p.wf(),
                q.wf(),
                fits(q.model(), self.params),
                l1_coeff.wf(),
                l1_coeff.val() == l1_coeff_spec(p.model(), q.model()),
                y_over_twist_neg.wf(),
                y_over_twist_neg.val() == v_neg::<Fq2>(q.y_over_twist.val()),
                f.wf(),
                f.val() == miller_spec(p.model(), q.model(), digits, i as int).f,
                add_idx == miller_spec(p.model(), q.model(), digits, i as int).idx,
                add_idx == nonzero_digits(digits, i as int),
            decreases n - i,
        {
            proof {
                lemma_nonzero_digits_mono(digits, i as int + 1, n as int);
                lemma_nonzero_digits_bound(digits, i as int);
                lemma_miller_idx(p.model(), q.model(), digits, i as int + 1, self.params);
                assert(q.double_coefficients@[i - 1].wf());
                if add_idx < q.addition_coefficients@.len() {
                    assert(q.addition_coefficients@[add_idx as int].wf());
                }
            }
            let dc = &q.double_coefficients[i - 1];
            let g_rr_at_p = Fp4Var::new(
                &dc.c_l.sub(&dc.c_4c).sub(&dc.c_j.mul(&p.x_twist)),
                &dc.c_h.mul(&p.y_twist),
            );
            f = f.square().mul(&g_rr_at_p);
            let bit = self.params.ate_loop_count[i];
            if bit == 1 {
                let ac = &q.addition_coefficients[add_idx];
                add_idx += 1;
                let g_rq_at_p = Fp4Var::new(
                    &ac.c_rz.mul(&p.y_twist),
                    &q.y_over_twist.mul(&ac.c_rz).add(&l1_coeff.mul(&ac.c_l1)).negate(),
                );
                f = f.mul(&g_rq_at_p);
            } else if bit == -1 {
                let ac = &q.addition_coefficients[add_idx];
                add_idx += 1;
                let g_rq_at_p = Fp4Var::new(
                    &ac.c_rz.mul(&p.y_twist),
                    &y_over_twist_neg.mul(&ac.c_rz).add(&l1_coeff.mul(&ac.c_l1)).negate(),
                );
                f = f.mul(&g_rq_at_p);
            }
            i += 1;
        }
        proof {
            reveal(ate_fails);
            reveal(ate_spec);
        }
        if self.params.ate_is_loop_count_neg {
            assert(q.addition_coefficients@[add_idx as int].wf());
            let ac = &q.addition_coefficients[add_idx];
            let g_rnegr_at_p = Fp4Var::new(
                &ac.c_rz.mul(&p.y_twist),
                &q.y_over_twist.mul(&ac.c_rz).add(&l1_coeff.mul(&ac.c_l1)).negate(),
            );
            f = match f.mul(&g_rnegr_at_p).inverse() {
                Ok(v) => v,
                Err(e) => {
                    return Err(e);
                },
            };
        }
        Ok(f)
    }

    /// The product of the Miller loops of the pairs `(ps[i], qs[i])`, over
    /// as many pairs as the shorter list holds; one for no pairs.
    pub fn miller_loop(&self, ps: &Vec<G1PreparedVar>, qs: &Vec<G2PreparedVar>) -> (r: Result<
        GTVar,
        SynthesisError,
    >)
        requires
            self.wf(),
            forall|i: int| 0 <= i < ps@.len() ==> #[trigger] ps@[i].wf(),
            forall|i: int|
                0 <= i < qs@.len() ==> #[trigger] qs@[i].wf() && fits(qs@[i].model(), self.params),
        ensures
            ({
                let k = if ps@.len() < qs@.len() {
                    ps@.len()
                } else {
                    qs@.len()
                };
                match batch_spec(g1_models(ps@), g2_models(qs@), self.params, k as int) {
                    None => r == Err::<GTVar, SynthesisError>(SynthesisError::DivisionByZero),
                    Some(v) => r matches Ok(f) && f.wf() && f.val() == v,
                }
            }),
    {
        let ghost gp = g1_models(ps@);
        let ghost gq = g2_models(qs@);
        let k = if ps.len() < qs.len() {
            ps.len()
        } else {
            qs.len()
        };
        let mut result = Fp4Var::one();
        let mut i: usize = 0;
        while i < k
            invariant
                0 <= i <= k,
                k == if ps@.len() < qs@.len() {
                    ps@.len()
                } else {
                    qs@.len()
                },
                gp == g1_models(ps@),
                gq == g2_models(qs@),
                self.wf(),
                forall|j: int| 0 <= j < ps@.len() ==> #[trigger] ps@[j].wf(),
                forall|j: int|
                    0 <= j < qs@.len() ==> #[trigger] qs@[j].wf() && fits(
                        qs@[j].model(),
                        self.params,
                    ),
                result.wf(),
                batch_spec(gp, gq, self.params, i as int) == Some(result.val()),
            decreases k - i,
        {
            assert(ps@[i as int].wf());
            assert(qs@[i as int].wf());
            assert(gp[i as int] == ps@[i as int].model());
            assert(gq[i as int] == qs@[i as int].model());
            let f = match self.ate_miller_loop(&ps[i], &qs[i]) {
                Ok(f) => f,
                Err(e) => {
                    proof {
                        assert(batch_spec(gp, gq, self.params, i as int + 1) is None);
                        lemma_batch_stays_failed(gp, gq, self.params, i as int + 1, k as int);
                    }
                    return Err(e);
                },
            };
            result = result.mul(&f);
            i += 1;
        }
        Ok(result)
    }

    /// `elt^(q^2 - 1)`, from `elt` and its inverse.
    fn final_exponentiation_first_chunk(elt: &Fp4Var, elt_inv: &Fp4Var) -> (r: Fp4Var)
        requires
            elt.wf(),
            elt_inv.wf(),
        ensures
            r.wf(),
            r.val() == first_chunk_spec(elt.val(), elt_inv.val()),
    {
        let elt_q2 = elt.unitary_inverse();
        elt_q2.mul(elt_inv)
    }

    /// The hard part: `elt^q` raised to `w1`, times `elt` (or its inverse,
    /// when `w0` is negative) raised to `|w0|`.
    fn final_exponentiation_last_chunk(&self, elt: &Fp4Var, elt_inv: &Fp4Var) -> (r: Fp4Var)
        requires
            elt.wf(),
            elt_inv.wf(),
        ensures
            r.wf(),
            r.val() == last_chunk_spec(elt.val(), elt_inv.val(), self.params),
    {
        let elt_q = elt.frobenius_map(1);
        let w1_part = elt_q.cyclotomic_exp(&self.params.final_exponent_last_chunk_1);
        let w0_part = if self.params.final_exponent_last_chunk_w0_is_neg {
            elt_inv.cyclotomic_exp(&self.params.final_exponent_last_chunk_abs_of_w0)
        } else {
            elt.cyclotomic_exp(&self.params.final_exponent_last_chunk_abs_of_w0)
        };
        w1_part.mul(&w0_part)
    }

    /// Raises the Miller loop's output to `(q^4 - 1) / r`; fails when it is
    /// zero.
    pub fn final_exponentiation(&self, value: &Fp4Var) -> (r: Result<GTVar, SynthesisError>)
        requires
            value.wf(),
        ensures
            v_is_zero::<Fq4>(value.val()) ==> r == Err::<GTVar, SynthesisError>(
                SynthesisError::DivisionByZero,
            ),
            !v_is_zero::<Fq4>(value.val()) ==> (r matches Ok(f) && f.wf() && f.val()
                == final_exponentiation_spec(value.val(), self.params)),
    {
        let value_inv = match value.inverse() {
            Ok(v) => v,
            Err(e) => {
                return Err(e);
            },
        };
        let value_to_first_chunk = Self::final_exponentiation_first_chunk(value, &value_inv);
        let value_inv_to_first_chunk = Self::final_exponentiation_first_chunk(&value_inv, value);
        Ok(self.final_exponentiation_last_chunk(&value_to_first_chunk, &value_inv_to_first_chunk))
    }

    /// Prepares a G1 point for the Miller loop.
    pub fn prepare_g1(&self, p: &G1Var) -> (r: Result<G1PreparedVar, SynthesisError>)
        requires
            self.wf(),
            p.wf(),
        ensures
            p.affine_fails() ==> r == Err::<G1PreparedVar, SynthesisError>(
                SynthesisError::DivisionByZero,
            ),
            !p.affine_fails() ==> (r matches Ok(g) && g.wf() && g.model() == g1_prepared_spec(
                p.affine_spec().0,
                p.affine_spec().1,
                self.params,
            )),
    {
        G1PreparedVar::from_group_var(p, &self.params)
    }

    /// Prepares a G2 point for the Miller loop.
    pub fn prepare_g2(&self, q: &G2Var) -> (r: Result<G2PreparedVar, SynthesisError>)
        requires
            self.wf(),
            q.wf(),
        ensures
            q.affine_fails() ==> r == Err::<G2PreparedVar, SynthesisError>(
                SynthesisError::DivisionByZero,
            ),
            !q.affine_fails() ==> ({
                let (x, y) = q.affine_spec();
                if g2_prepare_fails::<Fq2>(x, y, self.params) {
                    r == Err::<G2PreparedVar, SynthesisError>(SynthesisError::DivisionByZero)
                } else {
                    r matches Ok(g) && g.wf() && g.model() == g2_prepared_spec::<Fq2>(
                        x,
                        y,
                        self.params,
                    ) && fits(g.model(), self.params)
                }
            }),
    {
        proof {
            lemma_coefficient_list_lengths::<Fq2>(q.affine_spec().0, q.affine_spec().1, self.params);
        }
        G2PreparedVar::from_group_var(q, &self.params)
    }

    /// The pairing of one pair of prepared points: its Miller loop, then the
    /// final exponentiation.
    pub fn pairing(&self, p: G1PreparedVar, q: G2PreparedVar) -> (r: Result<GTVar, SynthesisError>)
        requires
            self.wf(),
            p.wf(),
            q.wf(),
            fits(q.model(), self.params),
        ensures
            match batch_spec(seq![p.model()], seq![q.model()], self.params, 1) {
                None => r == Err::<GTVar, SynthesisError>(SynthesisError::DivisionByZero),
                Some(m) => if v_is_zero::<Fq4>(m) {
                    r == Err::<GTVar, SynthesisError>(SynthesisError::DivisionByZero)
                } else {
                    r matches Ok(f) && f.wf() && f.val() == final_exponentiation_spec(m, self.params)
                },
            },
    {
        let ghost pm = p.model();
        let ghost qm = q.model();
        let ps = vec![p];
        let qs = vec![q];
        assert(g1_models(ps@) =~= seq![pm]);
        assert(g2_models(qs@) =~= seq![qm]);
        let m = match self.miller_loop(&ps, &qs) {
            Ok(m) => m,
            Err(e) => {
                return Err(e);
            },
        };
        self.final_exponentiation(&m)
    }
}

proof fn lemma_batch_stays_failed(
    ps: Seq<G1PreparedModel>,
    qs: Seq<G2PreparedModel>,
    params: Mnt4Params,
    j: int,
    k: int,
)
    requires
        batch_spec(ps, qs, params, j) is None,
        j <= k,
    ensures
        batch_spec(ps, qs, params, k) is None,
    decreases k - j,
{
    if j < k {
        lemma_batch_stays_failed(ps, qs, params, j, k - 1);
    }
}

/// What the Miller loop of one pair yields is reduced.
proof fn lemma_ate_canonical(p: G1PreparedModel, q: G2PreparedModel, params: Mnt4Params)
    ensures
        ate_spec(p, q, params) matches Some(x) ==> fq4_canonical(x),
{
    reveal(ate_spec);
    let digits = params.ate_loop_count@;
    let k = digits.len() as int;
    if params.ate_is_loop_count_neg {
        if let Some(x) = miller_product_spec(p, q, params) {
            lemma_fq4_inv_canonical(x);
        }
    } else if k <= 1 {
        lemma_fq4_one_canonical();
    } else {
        let s = miller_spec(p, q, digits, k - 1);
        let l1 = l1_coeff_spec(p, q);
        let g = double_line_spec(q.double_coefficients[k - 2], p);
        let f = v_mul::<Fq4>(v_square::<Fq4>(s.f), g);
        if let (Some(a), Some(b)) = (v_square::<Fq4>(s.f), g) {
            lemma_fq4_mul_canonical(a, b);
        }
        if let (Some(a), Some(b)) = (f, add_line_spec(q.addition_coefficients[s.idx], p, q.y_over_twist, l1)) {
            lemma_fq4_mul_canonical(a, b);
        }
        if let (Some(a), Some(b)) = (f, add_line_spec(q.addition_coefficients[s.idx], p, v_neg::<Fq2>(q.y_over_twist), l1)) {
            lemma_fq4_mul_canonical(a, b);
        }
    }
}

/// The batched Miller loop of two pairs is the product of the two Miller
/// loops, when neither fails.
pub proof fn lemma_batch_is_product(
    p1: G1PreparedModel,
    q1: G2PreparedModel,
    p2: G1PreparedModel,
    q2: G2PreparedModel,
    params: Mnt4Params,
)
    requires
        !ate_fails(p1, q1, params),
        !ate_fails(p2, q2, params),
    ensures
        batch_spec(seq![p1, p2], seq![q1, q2], params, 2) == Some(
            v_mul::<Fq4>(ate_spec(p1, q1, params), ate_spec(p2, q2, params)),
        ),
{
    let ps = seq![p1, p2];
    let qs = seq![q1, q2];
    assert(ps[0] == p1 && ps[1] == p2 && qs[0] == q1 && qs[1] == q2);
    lemma_ate_canonical(p1, q1, params);
    if let Some(x) = ate_spec(p1, q1, params) {
        lemma_fq4_one_mul(x);
    }
    assert(batch_spec(ps, qs, params, 0) == Some(Some(fq4_one())));
    assert(batch_spec(ps, qs, params, 1) == Some(ate_spec(p1, q1, params)));
}

proof fn lemma_nonzero_digits_bound(digits: Seq<i8>, k: int)
    requires
        k >= 1,
    ensures
        nonzero_digits(digits, k) <= k - 1,
    decreases k,
{
    if k > 1 {
        lemma_nonzero_digits_bound(digits, k - 1);
    }
}

proof fn lemma_nonzero_digits_mono(digits: Seq<i8>, j: int, k: int)
    requires
        j <= k,
    ensures
        nonzero_digits(digits, j) <= nonzero_digits(digits, k),
    decreases k - j,
{
    if j < k {
        lemma_nonzero_digits_mono(digits, j, k - 1);
    }
}

/// The loop consumes one addition coefficient per non-zero digit.
proof fn lemma_miller_idx(
    p: G1PreparedModel,
    q: G2PreparedModel,
    digits: Seq<i8>,
    k: int,
    params: Mnt4Params,
)
    requires
        params.wf(),
        digits == params.ate_loop_count@,
        1 <= k <= digits.len(),
    ensures
        miller_spec(p, q, digits, k).idx == nonzero_digits(digits, k),
    decreases k,
{
    if k > 1 {
        lemma_miller_idx(p, q, digits, k - 1, params);
        assert(-1 <= digits[k - 1] <= 1);
    }
}

} // verus!
