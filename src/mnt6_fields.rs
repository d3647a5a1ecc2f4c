use vstd::prelude::*;

use ark_ff::{BigInt, Field, PrimeField};
use ark_mnt6_298::{Fq as ArkFq, Fq3 as ArkFq3};

use crate::field::{FieldElement, MulField, TowerField};
use crate::mnt4_fields::{limb_byte, limbs_val};

verus! {

/// The characteristic of the MNT6-298 base field,
/// 475922286169261325753349249653048451545124878552823515553267735739164647307408490559963137,
/// from its little-endian limbs.
pub open spec fn modulus() -> int {
    limbs_val(seq![
        13493686787511418881u64,
        18107087372223867603u64,
        14622846468717035924u64,
        11702080941310629006u64,
        4110145082483u64,
    ])
}

/// The cubic non-residue that builds `Fq3` over `Fq`.
pub open spec fn fq3_nonresidue() -> int {
    5
}

proof fn lemma_limbs_val_nonneg(s: Seq<u64>)
    ensures
        limbs_val(s) >= 0,
    decreases s.len(),
{
    if s.len() > 0 {
        lemma_limbs_val_nonneg(s.drop_first());
    }
}

/// The modulus exceeds one, so zero and one are reduced.
pub proof fn lemma_modulus_gt_one()
    ensures
        modulus() > 1,
{
    let s = seq![
        13493686787511418881u64,
        18107087372223867603u64,
        14622846468717035924u64,
        11702080941310629006u64,
        4110145082483u64,
    ];
    assert(s.drop_first().drop_first() =~= seq![14622846468717035924u64, 11702080941310629006u64, 4110145082483u64]);
    lemma_limbs_val_nonneg(s.drop_first().drop_first());
    assert(s.drop_first()[0] == 18107087372223867603u64);
    assert(limbs_val(s.drop_first()) >= 1);
    assert(limbs_val(s) >= 18446744073709551616);
}

pub open spec fn fq_add(a: int, b: int) -> int {
    (a + b) % modulus()
}

pub open spec fn fq_sub(a: int, b: int) -> int {
    (a - b) % modulus()
}

pub open spec fn fq_mul(a: int, b: int) -> int {
    (a * b) % modulus()
}

pub open spec fn fq_neg(a: int) -> int {
    (0 - a) % modulus()
}

pub open spec fn fq_canonical(a: int) -> bool {
    0 <= a < modulus()
}

/// The inverse of `a`: the reduced element whose product with `a` is one.
pub open spec fn fq_inv(a: int) -> int {
    if exists|r: int| fq_canonical(r) && fq_mul(a, r) == 1 {
        choose|r: int| fq_canonical(r) && fq_mul(a, r) == 1
    } else {
        0
    }
}

pub open spec fn fq3_add(a: Seq<int>, b: Seq<int>) -> Seq<int> {
    seq![fq_add(a[0], b[0]), fq_add(a[1], b[1]), fq_add(a[2], b[2])]
}

pub open spec fn fq3_sub(a: Seq<int>, b: Seq<int>) -> Seq<int> {
    seq![fq_sub(a[0], b[0]), fq_sub(a[1], b[1]), fq_sub(a[2], b[2])]
}

pub open spec fn fq3_neg(a: Seq<int>) -> Seq<int> {
    seq![fq_neg(a[0]), fq_neg(a[1]), fq_neg(a[2])]
}

/// `(a0 + a1 w + a2 w^2)(b0 + b1 w + b2 w^2)` with `w^3` the non-residue.
pub open spec fn fq3_mul(a: Seq<int>, b: Seq<int>) -> Seq<int> {
    let n = fq3_nonresidue();
    seq![
        (a[0] * b[0] + n * (a[1] * b[2] + a[2] * b[1])) % modulus(),
        (a[0] * b[1] + a[1] * b[0] + n * a[2] * b[2]) % modulus(),
        (a[0] * b[2] + a[1] * b[1] + a[2] * b[0]) % modulus(),
    ]
}

pub open spec fn fq3_one() -> Seq<int> {
    seq![1int, 0, 0]
}

pub open spec fn fq3_zero() -> Seq<int> {
    seq![0int, 0, 0]
}

pub open spec fn fq3_canonical(a: Seq<int>) -> bool {
    a.len() == 3 && fq_canonical(a[0]) && fq_canonical(a[1]) && fq_canonical(a[2])
}

pub open spec fn fq3_inv(a: Seq<int>) -> Seq<int> {
    if exists|r: Seq<int>| fq3_canonical(r) && fq3_mul(a, r) == fq3_one() {
        choose|r: Seq<int>| fq3_canonical(r) && fq3_mul(a, r) == fq3_one()
    } else {
        fq3_zero()
    }
}

/// An element of the MNT6-298 base field, as little-endian 64-bit limbs.
#[derive(Clone, Copy, Debug, PartialEq, Eq)]
pub struct Fq {
    pub limbs: [u64; 5],
}

/// An element of `Fq3 = Fq[w] / (w^3 - 5)`: `c[0] + c[1] w + c[2] w^2`.
#[derive(Clone, Copy, Debug, PartialEq, Eq)]
pub struct Fq3 {
    pub c: [Fq; 3],
}

impl Fq {
    pub open spec fn val(&self) -> int {
        limbs_val(self.limbs@)
    }

    pub fn zero() -> (r: Fq)
        ensures
            r.wf(),
            r.val() == 0,
    {
        let r = Fq { limbs: [0, 0, 0, 0, 0] };
        assert(r.val() == 0) by {
            reveal_with_fuel(limbs_val, 6);
        }
        proof {
            lemma_modulus_gt_one();
        }
        r
    }

    pub fn one_elem() -> (r: Fq)
        ensures
            r.wf(),
            r.val() == 1,
    {
        let r = Fq { limbs: [1, 0, 0, 0, 0] };
        assert(r.val() == 1) by {
            reveal_with_fuel(limbs_val, 6);
        }
        proof {
            lemma_modulus_gt_one();
        }
        r
    }
}

/// Relies on `ark-ff`'s prime-field multiplication for the MNT6-298 base
/// field: the reduced product.
#[verifier::external_body]
fn fq_mul_ark(a: &Fq, b: &Fq) -> (r: Fq)
    requires
        a.wf(),
        b.wf(),
    ensures
        r.wf(),
        r.val() == fq_mul(a.val(), b.val()),
{
    let f = |x: &Fq| ArkFq::from_bigint(BigInt(x.limbs)).unwrap();
    Fq { limbs: (f(a) * f(b)).into_bigint().0 }
}

/// Relies on `ark-ff`'s prime-field `inverse` for the MNT6-298 base field:
/// `None` for zero, else the reduced inverse.
#[verifier::external_body]
fn fq_inverse_ark(a: &Fq) -> (r: Option<Fq>)
    requires
        a.wf(),
    ensures
        r is None <==> a.val() == 0,
        r matches Some(i) ==> i.wf() && i.val() == fq_inv(a.val()),
{
    let x = ArkFq::from_bigint(BigInt(a.limbs)).unwrap();
    x.inverse().map(|i| Fq { limbs: i.into_bigint().0 })
}

/// Relies on `ark-ff`'s cubic-extension addition on MNT6-298 `Fq3`.
#[verifier::external_body]
fn fq3_add_ark(a: &Fq3, b: &Fq3) -> (r: Fq3)
    requires
        a.wf(),
        b.wf(),
    ensures
        r.wf(),
        r.coeffs() == fq3_add(a.coeffs(), b.coeffs()),
{
    let f = |x: &Fq| ArkFq::from_bigint(BigInt(x.limbs)).unwrap();
    let g = |x: ArkFq| Fq { limbs: x.into_bigint().0 };
    let h = |x: &Fq3| ArkFq3::new(f(&x.c[0]), f(&x.c[1]), f(&x.c[2]));
    let r = h(a) + h(b);
    Fq3 { c: [g(r.c0), g(r.c1), g(r.c2)] }
}

/// Relies on `ark-ff`'s cubic-extension subtraction on MNT6-298 `Fq3`.
#[verifier::external_body]
fn fq3_sub_ark(a: &Fq3, b: &Fq3) -> (r: Fq3)
    requires
        a.wf(),
        b.wf(),
    ensures
        r.wf(),
        r.coeffs() == fq3_sub(a.coeffs(), b.coeffs()),
{
    let f = |x: &Fq| ArkFq::from_bigint(BigInt(x.limbs)).unwrap();
    let g = |x: ArkFq| Fq { limbs: x.into_bigint().0 };
    let h = |x: &Fq3| ArkFq3::new(f(&x.c[0]), f(&x.c[1]), f(&x.c[2]));
    let r = h(a) - h(b);
    Fq3 { c: [g(r.c0), g(r.c1), g(r.c2)] }
}

/// Relies on `ark-ff`'s cubic-extension multiplication on MNT6-298 `Fq3`.
#[verifier::external_body]
fn fq3_mul_ark(a: &Fq3, b: &Fq3) -> (r: Fq3)
    requires
        a.wf(),
        b.wf(),
    ensures
        r.wf(),
        r.coeffs() == fq3_mul(a.coeffs(), b.coeffs()),
{
    let f = |x: &Fq| ArkFq::from_bigint(BigInt(x.limbs)).unwrap();
    let g = |x: ArkFq| Fq { limbs: x.into_bigint().0 };
    let h = |x: &Fq3| ArkFq3::new(f(&x.c[0]), f(&x.c[1]), f(&x.c[2]));
    let r = h(a) * h(b);
    Fq3 { c: [g(r.c0), g(r.c1), g(r.c2)] }
}

/// Relies on `ark-ff`'s cubic-extension negation on MNT6-298 `Fq3`.
#[verifier::external_body]
fn fq3_neg_ark(a: &Fq3) -> (r: Fq3)
    requires
        a.wf(),
    ensures
        r.wf(),
        r.coeffs() == fq3_neg(a.coeffs()),
{
    let f = |x: &Fq| ArkFq::from_bigint(BigInt(x.limbs)).unwrap();
    let g = |x: ArkFq| Fq { limbs: x.into_bigint().0 };
    let h = |x: &Fq3| ArkFq3::new(f(&x.c[0]), f(&x.c[1]), f(&x.c[2]));
    let r = -h(a);
    Fq3 { c: [g(r.c0), g(r.c1), g(r.c2)] }
}

/// Relies on `ark-ff`'s cubic-extension `square` on MNT6-298 `Fq3`: the
/// element times itself.
#[verifier::external_body]
fn fq3_square_ark(a: &Fq3) -> (r: Fq3)
    requires
        a.wf(),
    ensures
        r.wf(),
        r.coeffs() == fq3_mul(a.coeffs(), a.coeffs()),
{
    let f = |x: &Fq| ArkFq::from_bigint(BigInt(x.limbs)).unwrap();
    let g = |x: ArkFq| Fq { limbs: x.into_bigint().0 };
    let h = |x: &Fq3| ArkFq3::new(f(&x.c[0]), f(&x.c[1]), f(&x.c[2]));
    let r = h(a).square();
    Fq3 { c: [g(r.c0), g(r.c1), g(r.c2)] }
}

/// Relies on `ark-ff`'s cubic-extension `inverse` on MNT6-298 `Fq3`: `None`
/// for zero, else the inverse.
#[verifier::external_body]
fn fq3_inverse_ark(a: &Fq3) -> (r: Option<Fq3>)
    requires
        a.wf(),
    ensures
        r is None <==> a.coeffs() == fq3_zero(),
        r matches Some(i) ==> i.wf() && i.coeffs() == fq3_inv(a.coeffs()),
{
    let f = |x: &Fq| ArkFq::from_bigint(BigInt(x.limbs)).unwrap();
    let g = |x: ArkFq| Fq { limbs: x.into_bigint().0 };
    let h = |x: &Fq3| ArkFq3::new(f(&x.c[0]), f(&x.c[1]), f(&x.c[2]));
    h(a).inverse().map(|r| Fq3 { c: [g(r.c0), g(r.c1), g(r.c2)] })
}

impl FieldElement for Fq {
    open spec fn coeffs(&self) -> Seq<int> {
        seq![self.val()]
    }

    open spec fn wf(&self) -> bool {
        fq_canonical(self.val())
    }

    open spec fn spec_bytes(&self) -> Seq<u8> {
        Seq::new(38, |i: int| limb_byte(self.limbs@, i))
    }

    open spec fn spec_byte_len() -> nat {
        38
    }

    fn to_bytes_le(&self) -> (r: Vec<u8>) {
        let mut out: Vec<u8> = Vec::new();
        let mut i: usize = 0;
        while i < 38
            invariant
                i <= 38,
                out@ =~= Seq::new(i as nat, |j: int| limb_byte(self.limbs@, j)),
            decreases 38 - i,
        {
            out.push((self.limbs[i / 8] >> (((i % 8) * 8) as u64)) as u8);
            i += 1;
        }
        out
    }

    fn byte_len() -> (r: usize) {
        38
    }
}

impl MulField for Fq {
    open spec fn spec_mul(a: Seq<int>, b: Seq<int>) -> Seq<int> {
        seq![fq_mul(a[0], b[0])]
    }

    open spec fn spec_inv(a: Seq<int>) -> Seq<int> {
        seq![fq_inv(a[0])]
    }

    open spec fn spec_one() -> Seq<int> {
        seq![1int]
    }

    open spec fn spec_zero() -> Seq<int> {
        seq![0int]
    }

    fn one() -> (r: Self) {
        Fq::one_elem()
    }

    fn mul(&self, o: &Self) -> (r: Self) {
        fq_mul_ark(self, o)
    }

    fn square(&self) -> (r: Self) {
        fq_mul_ark(self, self)
    }

    fn inverse(&self) -> (r: Option<Self>) {
        let r = fq_inverse_ark(self);
        assert(self.coeffs() == seq![0int] <==> self.val() == 0) by {
            if self.val() == 0 {
                assert(self.coeffs() =~= seq![0int]);
            }
            if self.coeffs() == seq![0int] {
                assert(self.coeffs()[0] == 0);
            }
        }
        r
    }
}

impl FieldElement for Fq3 {
    open spec fn coeffs(&self) -> Seq<int> {
        seq![self.c[0].val(), self.c[1].val(), self.c[2].val()]
    }

    open spec fn wf(&self) -> bool {
        self.c[0].wf() && self.c[1].wf() && self.c[2].wf()
    }

    open spec fn spec_bytes(&self) -> Seq<u8> {
        self.c[0].spec_bytes() + self.c[1].spec_bytes() + self.c[2].spec_bytes()
    }

    open spec fn spec_byte_len() -> nat {
        114
    }

    fn to_bytes_le(&self) -> (r: Vec<u8>) {
        let mut out = self.c[0].to_bytes_le();
        let mut b1 = self.c[1].to_bytes_le();
        let mut b2 = self.c[2].to_bytes_le();
        out.append(&mut b1);
        out.append(&mut b2);
        out
    }

    fn byte_len() -> (r: usize) {
        114
    }
}

impl MulField for Fq3 {
    open spec fn spec_mul(a: Seq<int>, b: Seq<int>) -> Seq<int> {
        fq3_mul(a, b)
    }

    open spec fn spec_inv(a: Seq<int>) -> Seq<int> {
        fq3_inv(a)
    }

    open spec fn spec_one() -> Seq<int> {
        fq3_one()
    }

    open spec fn spec_zero() -> Seq<int> {
        fq3_zero()
    }

    fn one() -> (r: Self) {
        let z = Fq::zero();
        Fq3 { c: [Fq::one_elem(), z, z] }
    }

    fn mul(&self, o: &Self) -> (r: Self) {
        fq3_mul_ark(self, o)
    }

    fn square(&self) -> (r: Self) {
        fq3_square_ark(self)
    }

    fn inverse(&self) -> (r: Option<Self>) {
        fq3_inverse_ark(self)
    }
}

impl TowerField for Fq3 {
    open spec fn spec_add(a: Seq<int>, b: Seq<int>) -> Seq<int> {
        fq3_add(a, b)
    }

    open spec fn spec_sub(a: Seq<int>, b: Seq<int>) -> Seq<int> {
        fq3_sub(a, b)
    }

    open spec fn spec_neg(a: Seq<int>) -> Seq<int> {
        fq3_neg(a)
    }

    fn add(&self, o: &Self) -> (r: Self) {
        fq3_add_ark(self, o)
    }

    fn sub(&self, o: &Self) -> (r: Self) {
        fq3_sub_ark(self, o)
    }

    fn neg(&self) -> (r: Self) {
        fq3_neg_ark(self)
    }
}

} // verus!
