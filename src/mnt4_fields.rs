use vstd::arithmetic::power::pow;
use vstd::prelude::*;

use ark_ff::{BigInt, CyclotomicMultSubgroup, Field, PrimeField};
use ark_mnt4_298::{Fq as ArkFq, Fq2 as ArkFq2, Fq4 as ArkFq4};

use crate::field::{FieldElement, MulField, TowerField};

verus! {

/// The characteristic of the MNT4-298 base field,
/// 475922286169261325753349249653048451545124879242694725395555128576210262817955800483758081,
/// from its little-endian limbs.
pub open spec fn modulus() -> int {
    limbs_val(seq![14487189785281953793u64,
        4731562877756902930u64,
        14622846468719063274u64,
        11702080941310629006u64,
        4110145082483u64])
}

/// The quadratic non-residue that builds `Fq2` over `Fq`.
pub open spec fn fq2_nonresidue() -> int {
    17
}

/// The integer that little-endian 64-bit limbs stand for.
pub open spec fn limbs_val(s: Seq<u64>) -> int
    decreases s.len(),
{
    if s.len() == 0 {
        0
    } else {
        s[0] as int + 18446744073709551616 * limbs_val(s.drop_first())
    }
}

/// Byte `i` of the little-endian encoding of the limbs.
pub open spec fn limb_byte(s: Seq<u64>, i: int) -> u8 {
    (s[i / 8] >> (((i % 8) * 8) as u64)) as u8
}

proof fn lemma_limbs_val_nonneg(s: Seq<u64>)
    ensures
        limbs_val(s) >= 0,
    decreases s.len(),
{
    if s.len() > 0 {
        lemma_limbs_val_nonneg(s.drop_first());
    }
}

/// The modulus exceeds one, so zero and one are reduced.
pub proof fn lemma_modulus_gt_one()
    ensures
        modulus() > 1,
{
    let s = seq![
        14487189785281953793u64,
        4731562877756902930u64,
        14622846468719063274u64,
        11702080941310629006u64,
        4110145082483u64,
    ];
    assert(s.drop_first().drop_first() =~= seq![
        14622846468719063274u64,
        11702080941310629006u64,
        4110145082483u64,
    ]);
    lemma_limbs_val_nonneg(s.drop_first().drop_first());
    assert(s.drop_first()[0] == 4731562877756902930u64);
    assert(limbs_val(s.drop_first()) >= 1);
    assert(limbs_val(s) >= 18446744073709551616);
}

pub open spec fn fq_add(a: int, b: int) -> int {
    (a + b) % modulus()
}

pub open spec fn fq_sub(a: int, b: int) -> int {
    (a - b) % modulus()
}

pub open spec fn fq_mul(a: int, b: int) -> int {
    (a * b) % modulus()
}

pub open spec fn fq_neg(a: int) -> int {
    (0 - a) % modulus()
}

pub open spec fn fq_canonical(a: int) -> bool {
    0 <= a < modulus()
}

/// The inverse of `a`: the reduced element whose product with `a` is one.
pub open spec fn fq_inv(a: int) -> int {
    if exists|r: int| fq_canonical(r) && fq_mul(a, r) == 1 {
        choose|r: int| fq_canonical(r) && fq_mul(a, r) == 1
    } else {
        0
    }
}

pub open spec fn fq2_add(a: Seq<int>, b: Seq<int>) -> Seq<int> {
    seq![fq_add(a[0], b[0]), fq_add(a[1], b[1])]
}

pub open spec fn fq2_sub(a: Seq<int>, b: Seq<int>) -> Seq<int> {
    seq![fq_sub(a[0], b[0]), fq_sub(a[1], b[1])]
}

pub open spec fn fq2_neg(a: Seq<int>) -> Seq<int> {
    seq![fq_neg(a[0]), fq_neg(a[1])]
}

/// `(a0 + a1 u)(b0 + b1 u)` with `u^2` the non-residue.
pub open spec fn fq2_mul(a: Seq<int>, b: Seq<int>) -> Seq<int> {
    seq![
        (a[0] * b[0] + fq2_nonresidue() * a[1] * b[1]) % modulus(),
        (a[0] * b[1] + a[1] * b[0]) % modulus(),
    ]
}

pub open spec fn fq2_canonical(a: Seq<int>) -> bool {
    a.len() == 2 && fq_canonical(a[0]) && fq_canonical(a[1])
}

pub open spec fn fq2_inv(a: Seq<int>) -> Seq<int> {
    if exists|r: Seq<int>| fq2_canonical(r) && fq2_mul(a, r) == seq![1int, 0] {
        choose|r: Seq<int>| fq2_canonical(r) && fq2_mul(a, r) == seq![1int, 0]
    } else {
        seq![0int, 0]
    }
}

/// Multiplication by `u`, the non-residue that builds `Fq4` over `Fq2`.
pub open spec fn fq2_mul_by_u(a: Seq<int>) -> Seq<int> {
    seq![fq_mul(fq2_nonresidue(), a[1]), a[0]]
}

/// `(a0 + a1 v)(b0 + b1 v)` over `Fq2` with `v^2 = u`; an element of `Fq4`
/// lists the coefficients of `a0`, then those of `a1`.
pub open spec fn fq4_mul(a: Seq<int>, b: Seq<int>) -> Seq<int> {
    let (a0, a1) = (a.subrange(0, 2), a.subrange(2, 4));
    let (b0, b1) = (b.subrange(0, 2), b.subrange(2, 4));
    fq2_add(fq2_mul(a0, b0), fq2_mul_by_u(fq2_mul(a1, b1))) + fq2_add(
        fq2_mul(a0, b1),
        fq2_mul(a1, b0),
    )
}

pub open spec fn fq4_one() -> Seq<int> {
    seq![1int, 0, 0, 0]
}

pub open spec fn fq4_zero() -> Seq<int> {
    seq![0int, 0, 0, 0]
}

pub open spec fn fq4_canonical(a: Seq<int>) -> bool {
    a.len() == 4 && forall|i: int| 0 <= i < 4 ==> fq_canonical(#[trigger] a[i])
}

pub open spec fn fq4_inv(a: Seq<int>) -> Seq<int> {
    if exists|r: Seq<int>| fq4_canonical(r) && fq4_mul(a, r) == fq4_one() {
        choose|r: Seq<int>| fq4_canonical(r) && fq4_mul(a, r) == fq4_one()
    } else {
        fq4_zero()
    }
}

pub open spec fn fq4_pow(a: Seq<int>, n: nat) -> Seq<int>
    decreases n,
{
    if n == 0 {
        fq4_one()
    } else {
        fq4_mul(a, fq4_pow(a, (n - 1) as nat))
    }
}

pub proof fn lemma_fq4_mul_canonical(a: Seq<int>, b: Seq<int>)
    ensures
        fq4_canonical(fq4_mul(a, b)),
{
    lemma_modulus_gt_one();
    let r = fq4_mul(a, b);
    assert(r.len() == 4);
    assert forall|i: int| 0 <= i < 4 implies fq_canonical(#[trigger] r[i]) by {
        let (a0, a1) = (a.subrange(0, 2), a.subrange(2, 4));
        let (b0, b1) = (b.subrange(0, 2), b.subrange(2, 4));
        let c0 = fq2_add(fq2_mul(a0, b0), fq2_mul_by_u(fq2_mul(a1, b1)));
        let c1 = fq2_add(fq2_mul(a0, b1), fq2_mul(a1, b0));
        assert(r == c0 + c1);
        if i < 2 {
            assert(r[i] == c0[i]);
        } else {
            assert(r[i] == c1[i - 2]);
        }
    }
}

pub proof fn lemma_fq4_inv_canonical(a: Seq<int>)
    ensures
        fq4_canonical(fq4_inv(a)),
{
    lemma_modulus_gt_one();
    if !(exists|r: Seq<int>| fq4_canonical(r) && fq4_mul(a, r) == fq4_one()) {
        assert(fq4_canonical(fq4_zero()));
    }
}

pub proof fn lemma_fq4_one_canonical()
    ensures
        fq4_canonical(fq4_one()),
{
    lemma_modulus_gt_one();
}

/// One is a left unit of `Fq4` multiplication on reduced elements.
pub proof fn lemma_fq4_one_mul(a: Seq<int>)
    requires
        fq4_canonical(a),
    ensures
        fq4_mul(fq4_one(), a) == a,
{
    lemma_modulus_gt_one();
    let m = modulus();
    let one = fq4_one();
    let (o0, o1) = (one.subrange(0, 2), one.subrange(2, 4));
    let (a0, a1) = (a.subrange(0, 2), a.subrange(2, 4));
    assert(o0 =~= seq![1int, 0]);
    assert(o1 =~= seq![0int, 0]);
    assert(fq_canonical(a[0]) && fq_canonical(a[1]) && fq_canonical(a[2]) && fq_canonical(a[3]));
    vstd::arithmetic::div_mod::lemma_small_mod(a[0] as nat, m as nat);
    vstd::arithmetic::div_mod::lemma_small_mod(a[1] as nat, m as nat);
    vstd::arithmetic::div_mod::lemma_small_mod(a[2] as nat, m as nat);
    vstd::arithmetic::div_mod::lemma_small_mod(a[3] as nat, m as nat);
    vstd::arithmetic::div_mod::lemma_small_mod(0, m as nat);
    assert(a0[0] == a[0] && a0[1] == a[1] && a1[0] == a[2] && a1[1] == a[3]);
    assert(1 * a[0] + fq2_nonresidue() * 0 * a[1] == a[0]);
    assert(1 * a[1] + 0 * a[0] == a[1]);
    assert(0 * a[0] + fq2_nonresidue() * 0 * a[1] == 0);
    assert(0 * a[1] + 0 * a[0] == 0);
    assert(1 * a[2] + fq2_nonresidue() * 0 * a[3] == a[2]);
    assert(1 * a[3] + 0 * a[2] == a[3]);
    assert(0 * a[2] + fq2_nonresidue() * 0 * a[3] == 0);
    assert(0 * a[3] + 0 * a[2] == 0);
    assert(fq2_mul(o0, a0) =~= a0);
    assert(fq2_mul(o0, a1) =~= a1);
    assert(fq2_mul(o1, a1) =~= seq![0int, 0]);
    assert(fq2_mul(o1, a0) =~= seq![0int, 0]);
    assert(fq2_mul_by_u(seq![0int, 0]) =~= seq![0int, 0]);
    assert(fq2_add(a0, seq![0int, 0]) =~= a0);
    assert(fq2_add(a1, seq![0int, 0]) =~= a1);
    assert(fq4_mul(one, a) =~= a);
}

/// `(c0 + c1 v) -> (c0 - c1 v)`: the inverse of a norm-one element.
pub open spec fn fq4_conjugate(a: Seq<int>) -> Seq<int> {
    a.subrange(0, 2) + fq2_neg(a.subrange(2, 4))
}

/// What `ark-ff`'s cyclotomic exponentiation of an `Fq4` element by the
/// limbs `e` returns. On the norm-one subgroup it is the power by `e`.
pub uninterp spec fn fq4_cyclotomic_exp_of(a: Seq<int>, e: Seq<u64>) -> Seq<int>;

/// An element of the MNT4-298 base field, as little-endian 64-bit limbs.
#[derive(Clone, Copy, Debug, PartialEq, Eq)]
pub struct Fq {
    pub limbs: [u64; 5],
}

/// An element of `Fq2 = Fq[u] / (u^2 - 17)`: `c[0] + c[1] u`.
#[derive(Clone, Copy, Debug, PartialEq, Eq)]
pub struct Fq2 {
    pub c: [Fq; 2],
}

/// An element of `Fq4 = Fq2[v] / (v^2 - u)`: `(c[0] + c[1] u) + (c[2] + c[3] u) v`.
#[derive(Clone, Copy, Debug, PartialEq, Eq)]
pub struct Fq4 {
    pub c: [Fq; 4],
}

impl Fq {
    pub open spec fn val(&self) -> int {
        limbs_val(self.limbs@)
    }

    pub fn zero() -> (r: Fq)
        ensures
            r.wf(),
            r.val() == 0,
    {
        let r = Fq { limbs: [0, 0, 0, 0, 0] };
        assert(r.val() == 0) by {
            reveal_with_fuel(limbs_val, 6);
        }
        proof {
            lemma_modulus_gt_one();
        }
        r
    }

    pub fn one_elem() -> (r: Fq)
        ensures
            r.wf(),
            r.val() == 1,
    {
        let r = Fq { limbs: [1, 0, 0, 0, 0] };
        assert(r.val() == 1) by {
            reveal_with_fuel(limbs_val, 6);
        }
        proof {
            lemma_modulus_gt_one();
        }
        r
    }
}

/// Relies on `ark-ff`'s prime-field multiplication for the MNT4-298 base
/// field: the reduced product.
#[verifier::external_body]
fn fq_mul_ark(a: &Fq, b: &Fq) -> (r: Fq)
    requires
        a.wf(),
        b.wf(),
    ensures
        r.wf(),
        r.val() == fq_mul(a.val(), b.val()),
{
    let f = |x: &Fq| ArkFq::from_bigint(BigInt(x.limbs)).unwrap();
    Fq { limbs: (f(a) * f(b)).into_bigint().0 }
}

/// Relies on `ark-ff`'s prime-field `inverse` for the MNT4-298 base field:
/// `None` for zero, else the reduced inverse.
#[verifier::external_body]
fn fq_inverse_ark(a: &Fq) -> (r: Option<Fq>)
    requires
        a.wf(),
    ensures
        r is None <==> a.val() == 0,
        r matches Some(i) ==> i.wf() && i.val() == fq_inv(a.val()),
{
    let x = ArkFq::from_bigint(BigInt(a.limbs)).unwrap();
    x.inverse().map(|i| Fq { limbs: i.into_bigint().0 })
}

impl FieldElement for Fq {
    open spec fn coeffs(&self) -> Seq<int> {
        seq![self.val()]
    }

    open spec fn wf(&self) -> bool {
        fq_canonical(self.val())
    }

    open spec fn spec_bytes(&self) -> Seq<u8> {
        Seq::new(38, |i: int| limb_byte(self.limbs@, i))
    }

    open spec fn spec_byte_len() -> nat {
        38
    }

    fn to_bytes_le(&self) -> (r: Vec<u8>) {
        let mut out: Vec<u8> = Vec::new();
        let mut i: usize = 0;
        while i < 38
            invariant
                i <= 38,
                out@ =~= Seq::new(i as nat, |j: int| limb_byte(self.limbs@, j)),
            decreases 38 - i,
        {
            out.push((self.limbs[i / 8] >> (((i % 8) * 8) as u64)) as u8);
            i += 1;
        }
        out
    }

    fn byte_len() -> (r: usize) {
        38
    }
}

impl MulField for Fq {
    open spec fn spec_mul(a: Seq<int>, b: Seq<int>) -> Seq<int> {
        seq![fq_mul(a[0], b[0])]
    }

    open spec fn spec_inv(a: Seq<int>) -> Seq<int> {
        seq![fq_inv(a[0])]
    }

    open spec fn spec_one() -> Seq<int> {
        seq![1int]
    }

    open spec fn spec_zero() -> Seq<int> {
        seq![0int]
    }

    fn one() -> (r: Self) {
        Fq::one_elem()
    }

    fn mul(&self, o: &Self) -> (r: Self) {
        fq_mul_ark(self, o)
    }

    fn square(&self) -> (r: Self) {
        fq_mul_ark(self, self)
    }

    fn inverse(&self) -> (r: Option<Self>) {
        let r = fq_inverse_ark(self);
        assert(self.coeffs() == seq![0int] <==> self.val() == 0) by {
            if self.val() == 0 {
                assert(self.coeffs() =~= seq![0int]);
            }
            if self.coeffs() == seq![0int] {
                assert(self.coeffs()[0] == 0);
            }
        }
        r
    }
}


/// Relies on `ark-ff`'s quadratic-extension addition on MNT4-298 `Fq2`.
#[verifier::external_body]
fn fq2_add_ark(a: &Fq2, b: &Fq2) -> (r: Fq2)
    requires
        a.wf(),
        b.wf(),
    ensures
        r.wf(),
        r.coeffs() == fq2_add(a.coeffs(), b.coeffs()),
{
    let f = |x: &Fq| ArkFq::from_bigint(BigInt(x.limbs)).unwrap();
    let g = |x: ArkFq| Fq { limbs: x.into_bigint().0 };
    let h = |x: &Fq2| ArkFq2::new(f(&x.c[0]), f(&x.c[1]));
    let r = h(a) + h(b);
    Fq2 { c: [g(r.c0), g(r.c1)] }
}

/// Relies on `ark-ff`'s quadratic-extension subtraction on MNT4-298 `Fq2`.
#[verifier::external_body]
fn fq2_sub_ark(a: &Fq2, b: &Fq2) -> (r: Fq2)
    requires
        a.wf(),
        b.wf(),
    ensures
        r.wf(),
        r.coeffs() == fq2_sub(a.coeffs(), b.coeffs()),
{
    let f = |x: &Fq| ArkFq::from_bigint(BigInt(x.limbs)).unwrap();
    let g = |x: ArkFq| Fq { limbs: x.into_bigint().0 };
    let h = |x: &Fq2| ArkFq2::new(f(&x.c[0]), f(&x.c[1]));
    let r = h(a) - h(b);
    Fq2 { c: [g(r.c0), g(r.c1)] }
}

/// Relies on `ark-ff`'s quadratic-extension multiplication on MNT4-298 `Fq2`.
#[verifier::external_body]
fn fq2_mul_ark(a: &Fq2, b: &Fq2) -> (r: Fq2)
    requires
        a.wf(),
        b.wf(),
    ensures
        r.wf(),
        r.coeffs() == fq2_mul(a.coeffs(), b.coeffs()),
{
    let f = |x: &Fq| ArkFq::from_bigint(BigInt(x.limbs)).unwrap();
    let g = |x: ArkFq| Fq { limbs: x.into_bigint().0 };
    let h = |x: &Fq2| ArkFq2::new(f(&x.c[0]), f(&x.c[1]));
    let r = h(a) * h(b);
    Fq2 { c: [g(r.c0), g(r.c1)] }
}

/// Relies on `ark-ff`'s quadratic-extension negation on MNT4-298 `Fq2`.
#[verifier::external_body]
fn fq2_neg_ark(a: &Fq2) -> (r: Fq2)
    requires
        a.wf(),
    ensures
        r.wf(),
        r.coeffs() == fq2_neg(a.coeffs()),
{
    let f = |x: &Fq| ArkFq::from_bigint(BigInt(x.limbs)).unwrap();
    let g = |x: ArkFq| Fq { limbs: x.into_bigint().0 };
    let h = |x: &Fq2| ArkFq2::new(f(&x.c[0]), f(&x.c[1]));
    let r = -h(a);
    Fq2 { c: [g(r.c0), g(r.c1)] }
}

/// Relies on `ark-ff`'s quadratic-extension `square` on MNT4-298 `Fq2`:
/// the element times itself.
#[verifier::external_body]
fn fq2_square_ark(a: &Fq2) -> (r: Fq2)
    requires
        a.wf(),
    ensures
        r.wf(),
        r.coeffs() == fq2_mul(a.coeffs(), a.coeffs()),
{
    let f = |x: &Fq| ArkFq::from_bigint(BigInt(x.limbs)).unwrap();
    let g = |x: ArkFq| Fq { limbs: x.into_bigint().0 };
    let h = |x: &Fq2| ArkFq2::new(f(&x.c[0]), f(&x.c[1]));
    let r = h(a).square();
    Fq2 { c: [g(r.c0), g(r.c1)] }
}

/// Relies on `ark-ff`'s quadratic-extension `inverse` on MNT4-298 `Fq2`:
/// `None` for zero, else the inverse.
#[verifier::external_body]
fn fq2_inverse_ark(a: &Fq2) -> (r: Option<Fq2>)
    requires
        a.wf(),
    ensures
        r is None <==> a.coeffs() == seq![0int, 0],
        r matches Some(i) ==> i.wf() && i.coeffs() == fq2_inv(a.coeffs()),
{
    let f = |x: &Fq| ArkFq::from_bigint(BigInt(x.limbs)).unwrap();
    let g = |x: ArkFq| Fq { limbs: x.into_bigint().0 };
    let h = |x: &Fq2| ArkFq2::new(f(&x.c[0]), f(&x.c[1]));
    h(a).inverse().map(|r| Fq2 { c: [g(r.c0), g(r.c1)] })
}

/// Relies on `ark-ff`'s quadratic-extension multiplication on MNT4-298 `Fq4`.
#[verifier::external_body]
fn fq4_mul_ark(a: &Fq4, b: &Fq4) -> (r: Fq4)
    requires
        a.wf(),
        b.wf(),
    ensures
        r.wf(),
        r.coeffs() == fq4_mul(a.coeffs(), b.coeffs()),
{
    let f = |x: &Fq| ArkFq::from_bigint(BigInt(x.limbs)).unwrap();
    let g = |x: ArkFq| Fq { limbs: x.into_bigint().0 };
    let h = |x: &Fq4| ArkFq4::new(ArkFq2::new(f(&x.c[0]), f(&x.c[1])), ArkFq2::new(f(&x.c[2]), f(&x.c[3])));
    let r = h(a) * h(b);
    Fq4 { c: [g(r.c0.c0), g(r.c0.c1), g(r.c1.c0), g(r.c1.c1)] }
}

/// Relies on `ark-ff`'s quadratic-extension `square` on MNT4-298 `Fq4`:
/// the element times itself.
#[verifier::external_body]
fn fq4_square_ark(a: &Fq4) -> (r: Fq4)
    requires
        a.wf(),
    ensures
        r.wf(),
        r.coeffs() == fq4_mul(a.coeffs(), a.coeffs()),
{
    let f = |x: &Fq| ArkFq::from_bigint(BigInt(x.limbs)).unwrap();
    let g = |x: ArkFq| Fq { limbs: x.into_bigint().0 };
    let h = |x: &Fq4| ArkFq4::new(ArkFq2::new(f(&x.c[0]), f(&x.c[1])), ArkFq2::new(f(&x.c[2]), f(&x.c[3])));
    let r = h(a).square();
    Fq4 { c: [g(r.c0.c0), g(r.c0.c1), g(r.c1.c0), g(r.c1.c1)] }
}

/// Relies on `ark-ff`'s quadratic-extension `inverse` on MNT4-298 `Fq4`:
/// `None` for zero, else the inverse.
#[verifier::external_body]
fn fq4_inverse_ark(a: &Fq4) -> (r: Option<Fq4>)
    requires
        a.wf(),
    ensures
        r is None <==> a.coeffs() == fq4_zero(),
        r matches Some(i) ==> i.wf() && i.coeffs() == fq4_inv(a.coeffs()),
{
    let f = |x: &Fq| ArkFq::from_bigint(BigInt(x.limbs)).unwrap();
    let g = |x: ArkFq| Fq { limbs: x.into_bigint().0 };
    let h = |x: &Fq4| ArkFq4::new(ArkFq2::new(f(&x.c[0]), f(&x.c[1])), ArkFq2::new(f(&x.c[2]), f(&x.c[3])));
    h(a).inverse().map(|r| Fq4 { c: [g(r.c0.c0), g(r.c0.c1), g(r.c1.c0), g(r.c1.c1)] })
}

/// Relies on `ark-ff`'s `frobenius_map` on MNT4-298 `Fq4`, documented as
/// the power by the base field's modulus raised to `power`.
#[verifier::external_body]
pub(crate) fn fq4_frobenius_ark(a: &Fq4, power: usize) -> (r: Fq4)
    requires
        a.wf(),
    ensures
        r.wf(),
        r.coeffs() == fq4_pow(a.coeffs(), pow(modulus(), power as nat) as nat),
{
    let f = |x: &Fq| ArkFq::from_bigint(BigInt(x.limbs)).unwrap();
    let g = |x: ArkFq| Fq { limbs: x.into_bigint().0 };
    let h = |x: &Fq4| ArkFq4::new(ArkFq2::new(f(&x.c[0]), f(&x.c[1])), ArkFq2::new(f(&x.c[2]), f(&x.c[3])));
    let r = h(a).frobenius_map(power);
    Fq4 { c: [g(r.c0.c0), g(r.c0.c1), g(r.c1.c0), g(r.c1.c1)] }
}

/// Relies on `ark-ff`'s `cyclotomic_exp` on MNT4-298 `Fq4`, with the
/// exponent given as little-endian limbs.
#[verifier::external_body]
pub(crate) fn fq4_cyclotomic_exp_ark(a: &Fq4, e: &Vec<u64>) -> (r: Fq4)
    requires
        a.wf(),
    ensures
        r.wf(),
        r.coeffs() == fq4_cyclotomic_exp_of(a.coeffs(), e@),
{
    let f = |x: &Fq| ArkFq::from_bigint(BigInt(x.limbs)).unwrap();
    let g = |x: ArkFq| Fq { limbs: x.into_bigint().0 };
    let h = |x: &Fq4| ArkFq4::new(ArkFq2::new(f(&x.c[0]), f(&x.c[1])), ArkFq2::new(f(&x.c[2]), f(&x.c[3])));
    let r = h(a).cyclotomic_exp(e);
    Fq4 { c: [g(r.c0.c0), g(r.c0.c1), g(r.c1.c0), g(r.c1.c1)] }
}

impl Fq2 {
    /// The element `a + 0 u` of the base field.
    pub fn from_base(a: Fq) -> (r: Fq2)
        requires
            a.wf(),
        ensures
            r.wf(),
            r.coeffs() == seq![a.val(), 0],
    {
        Fq2 { c: [a, Fq::zero()] }
    }
}

impl FieldElement for Fq2 {
    open spec fn coeffs(&self) -> Seq<int> {
        seq![self.c[0].val(), self.c[1].val()]
    }

    open spec fn wf(&self) -> bool {
        self.c[0].wf() && self.c[1].wf()
    }

    open spec fn spec_bytes(&self) -> Seq<u8> {
        self.c[0].spec_bytes() + self.c[1].spec_bytes()
    }

    open spec fn spec_byte_len() -> nat {
        76
    }

    fn to_bytes_le(&self) -> (r: Vec<u8>) {
        let mut out = self.c[0].to_bytes_le();
        let mut rest = self.c[1].to_bytes_le();
        out.append(&mut rest);
        out
    }

    fn byte_len() -> (r: usize) {
        76
    }
}

impl MulField for Fq2 {
    open spec fn spec_mul(a: Seq<int>, b: Seq<int>) -> Seq<int> {
        fq2_mul(a, b)
    }

    open spec fn spec_inv(a: Seq<int>) -> Seq<int> {
        fq2_inv(a)
    }

    open spec fn spec_one() -> Seq<int> {
        seq![1int, 0]
    }

    open spec fn spec_zero() -> Seq<int> {
        seq![0int, 0]
    }

    fn one() -> (r: Self) {
        Fq2 { c: [Fq::one_elem(), Fq::zero()] }
    }

    fn mul(&self, o: &Self) -> (r: Self) {
        fq2_mul_ark(self, o)
    }

    fn square(&self) -> (r: Self) {
        fq2_square_ark(self)
    }

    fn inverse(&self) -> (r: Option<Self>) {
        fq2_inverse_ark(self)
    }
}

impl TowerField for Fq2 {
    open spec fn spec_add(a: Seq<int>, b: Seq<int>) -> Seq<int> {
        fq2_add(a, b)
    }

    open spec fn spec_sub(a: Seq<int>, b: Seq<int>) -> Seq<int> {
        fq2_sub(a, b)
    }

    open spec fn spec_neg(a: Seq<int>) -> Seq<int> {
        fq2_neg(a)
    }

    fn add(&self, o: &Self) -> (r: Self) {
        fq2_add_ark(self, o)
    }

    fn sub(&self, o: &Self) -> (r: Self) {
        fq2_sub_ark(self, o)
    }

    fn neg(&self) -> (r: Self) {
        fq2_neg_ark(self)
    }
}

impl Fq4 {
    /// The element `c0 + c1 v`.
    pub fn new(c0: Fq2, c1: Fq2) -> (r: Fq4)
        requires
            c0.wf(),
            c1.wf(),
        ensures
            r.wf(),
            r.coeffs() == c0.coeffs() + c1.coeffs(),
    {
        let r = Fq4 { c: [c0.c[0], c0.c[1], c1.c[0], c1.c[1]] };
        assert(r.coeffs() =~= c0.coeffs() + c1.coeffs());
        r
    }

    /// The halves `c0` and `c1` of `c0 + c1 v`.
    pub fn halves(&self) -> (r: (Fq2, Fq2))
        requires
            self.wf(),
        ensures
            r.0.wf(),
            r.1.wf(),
            r.0.coeffs() == self.coeffs().subrange(0, 2),
            r.1.coeffs() == self.coeffs().subrange(2, 4),
    {
        let r = (Fq2 { c: [self.c[0], self.c[1]] }, Fq2 { c: [self.c[2], self.c[3]] });
        assert(r.0.coeffs() =~= self.coeffs().subrange(0, 2));
        assert(r.1.coeffs() =~= self.coeffs().subrange(2, 4));
        r
    }

    /// `c0 - c1 v` for `c0 + c1 v`.
    pub fn conjugate(&self) -> (r: Fq4)
        requires
            self.wf(),
        ensures
            r.wf(),
            r.coeffs() == fq4_conjugate(self.coeffs()),
    {
        let (c0, c1) = self.halves();
        let n = fq2_neg_ark(&c1);
        Fq4::new(c0, n)
    }
}

impl FieldElement for Fq4 {
    open spec fn coeffs(&self) -> Seq<int> {
        seq![self.c[0].val(), self.c[1].val(), self.c[2].val(), self.c[3].val()]
    }

    open spec fn wf(&self) -> bool {
        &&& self.c[0].wf()
        &&& self.c[1].wf()
        &&& self.c[2].wf()
        &&& self.c[3].wf()
    }

    open spec fn spec_bytes(&self) -> Seq<u8> {
        self.c[0].spec_bytes() + self.c[1].spec_bytes() + self.c[2].spec_bytes()
            + self.c[3].spec_bytes()
    }

    open spec fn spec_byte_len() -> nat {
        152
    }

    fn to_bytes_le(&self) -> (r: Vec<u8>) {
        let mut out = self.c[0].to_bytes_le();
        let mut b1 = self.c[1].to_bytes_le();
        let mut b2 = self.c[2].to_bytes_le();
        let mut b3 = self.c[3].to_bytes_le();
        out.append(&mut b1);
        out.append(&mut b2);
        out.append(&mut b3);
        out
    }

    fn byte_len() -> (r: usize) {
        152
    }
}

impl MulField for Fq4 {
    open spec fn spec_mul(a: Seq<int>, b: Seq<int>) -> Seq<int> {
        fq4_mul(a, b)
    }

    open spec fn spec_inv(a: Seq<int>) -> Seq<int> {
        fq4_inv(a)
    }

    open spec fn spec_one() -> Seq<int> {
        fq4_one()
    }

    open spec fn spec_zero() -> Seq<int> {
        fq4_zero()
    }

    fn one() -> (r: Self) {
        let z = Fq::zero();
        Fq4 { c: [Fq::one_elem(), z, z, z] }
    }

    fn mul(&self, o: &Self) -> (r: Self) {
        fq4_mul_ark(self, o)
    }

    fn square(&self) -> (r: Self) {
        fq4_square_ark(self)
    }

    fn inverse(&self) -> (r: Option<Self>) {
        fq4_inverse_ark(self)
    }
}

} // verus!
