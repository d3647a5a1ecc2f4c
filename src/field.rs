use vstd::prelude::*;

use crate::error::{AllocationMode, ConstraintSystem, SynthesisError};

verus! {

/// The assignment of a field variable, as its coefficients over the base
/// prime field (lowest first), or `None` while it is unknown.
pub type Val = Option<Seq<int>>;

/// A native element of a prime field or of one of its towers.
pub trait FieldElement: Sized + Copy {
    /// The coefficients over the base prime field, lowest first.
    spec fn coeffs(&self) -> Seq<int>;

    /// The representation is canonical: every coefficient is reduced.
    spec fn wf(&self) -> bool;

    /// The canonical little-endian byte encoding.
    spec fn spec_bytes(&self) -> Seq<u8>;

    /// The length of the byte encoding.
    spec fn spec_byte_len() -> nat;

    fn to_bytes_le(&self) -> (r: Vec<u8>)
        ensures
            r@ == self.spec_bytes(),
            r@.len() == Self::spec_byte_len(),
    ;

    fn byte_len() -> (r: usize)
        ensures
            r == Self::spec_byte_len(),
    ;
}

/// The multiplicative side of a field.
pub trait MulField: FieldElement {
    spec fn spec_mul(a: Seq<int>, b: Seq<int>) -> Seq<int>;

    /// The multiplicative inverse of a non-zero element.
    spec fn spec_inv(a: Seq<int>) -> Seq<int>;

    spec fn spec_one() -> Seq<int>;

    spec fn spec_zero() -> Seq<int>;

    fn one() -> (r: Self)
        ensures
            r.wf(),
            r.coeffs() == Self::spec_one(),
    ;

    fn mul(&self, o: &Self) -> (r: Self)
        requires
            self.wf(),
            o.wf(),
        ensures
            r.wf(),
            r.coeffs() == Self::spec_mul(self.coeffs(), o.coeffs()),
    ;

    fn square(&self) -> (r: Self)
        requires
            self.wf(),
        ensures
            r.wf(),
            r.coeffs() == Self::spec_mul(self.coeffs(), self.coeffs()),
    ;

    fn inverse(&self) -> (r: Option<Self>)
        requires
            self.wf(),
        ensures
            r is None <==> self.coeffs() == Self::spec_zero(),
            r matches Some(i) ==> i.wf() && i.coeffs() == Self::spec_inv(self.coeffs()),
    ;
}

/// A field with the additive operations as well.
pub trait TowerField: MulField {
    spec fn spec_add(a: Seq<int>, b: Seq<int>) -> Seq<int>;

    spec fn spec_sub(a: Seq<int>, b: Seq<int>) -> Seq<int>;

    spec fn spec_neg(a: Seq<int>) -> Seq<int>;

    fn add(&self, o: &Self) -> (r: Self)
        requires
            self.wf(),
            o.wf(),
        ensures
            r.wf(),
            r.coeffs() == Self::spec_add(self.coeffs(), o.coeffs()),
    ;

    fn sub(&self, o: &Self) -> (r: Self)
        requires
            self.wf(),
            o.wf(),
        ensures
            r.wf(),
            r.coeffs() == Self::spec_sub(self.coeffs(), o.coeffs()),
    ;

    fn neg(&self) -> (r: Self)
        requires
            self.wf(),
        ensures
            r.wf(),
            r.coeffs() == Self::spec_neg(self.coeffs()),
    ;
}

// Operations on assignments: the result is known exactly when the operands are.

pub open spec fn v_mul<F: MulField>(a: Val, b: Val) -> Val {
    match (a, b) {
        (Some(x), Some(y)) => Some(F::spec_mul(x, y)),
        _ => None,
    }
}

pub open spec fn v_square<F: MulField>(a: Val) -> Val {
    v_mul::<F>(a, a)
}

pub open spec fn v_inv<F: MulField>(a: Val) -> Val {
    match a {
        Some(x) => Some(F::spec_inv(x)),
        None => None,
    }
}

/// The assignment is known and zero: inverting it fails.
pub open spec fn v_is_zero<F: MulField>(a: Val) -> bool {
    a == Some(F::spec_zero())
}

pub open spec fn v_add<F: TowerField>(a: Val, b: Val) -> Val {
    match (a, b) {
        (Some(x), Some(y)) => Some(F::spec_add(x, y)),
        _ => None,
    }
}

pub open spec fn v_sub<F: TowerField>(a: Val, b: Val) -> Val {
    match (a, b) {
        (Some(x), Some(y)) => Some(F::spec_sub(x, y)),
        _ => None,
    }
}

pub open spec fn v_double<F: TowerField>(a: Val) -> Val {
    v_add::<F>(a, a)
}

pub open spec fn v_neg<F: TowerField>(a: Val) -> Val {
    match a {
        Some(x) => Some(F::spec_neg(x)),
        None => None,
    }
}

/// A byte variable: the byte assigned to it, if known.
#[derive(Clone, Copy, Debug, PartialEq, Eq, Structural)]
pub struct UInt8 {
    pub value: Option<u8>,
}

/// The byte variables that encode a field variable with assignment `v`.
pub open spec fn var_bytes<F: FieldElement>(v: Option<F>) -> Seq<UInt8> {
    match v {
        Some(x) => x.spec_bytes().map_values(|b: u8| UInt8 { value: Some(b) }),
        None => Seq::new(F::spec_byte_len(), |i: int| UInt8 { value: None }),
    }
}

/// What allocating a variable in `mode` yields, given the provider's outcome.
pub open spec fn alloc_result<T>(
    cs: ConstraintSystem,
    f: Result<T, SynthesisError>,
    mode: AllocationMode,
) -> Result<Option<T>, SynthesisError> {
    if cs.spec_needs_value(mode) {
        match f {
            Ok(v) => Ok(Some(v)),
            Err(e) => Err(e),
        }
    } else {
        Ok(None)
    }
}

/// A variable over the field `F`, carrying the assignment that the
/// constraint system holds for it.
#[derive(Clone, Copy, Debug)]
pub struct FieldVar<F> {
    pub value: Option<F>,
}

impl<F: FieldElement> FieldVar<F> {
    pub open spec fn val(&self) -> Val {
        match self.value {
            Some(x) => Some(x.coeffs()),
            None => None,
        }
    }

    pub open spec fn wf(&self) -> bool {
        self.value matches Some(x) ==> x.wf()
    }

    /// A constant variable.
    pub fn constant(v: F) -> (r: Self)
        ensures
            r.value == Some(v),
    {
        FieldVar { value: Some(v) }
    }

    /// Allocates a variable whose value, when the constraint system asks for
    /// one, comes from the provider's outcome `f`.
    pub fn new_variable(cs: &ConstraintSystem, f: Result<F, SynthesisError>, mode: AllocationMode) -> (r:
        Result<Self, SynthesisError>)
        ensures
            match alloc_result(*cs, f, mode) {
                Ok(v) => r matches Ok(x) && x.value == v,
                Err(e) => r == Err::<Self, SynthesisError>(e),
            },
    {
        if cs.needs_value(mode) {
            match f {
                Ok(v) => Ok(FieldVar { value: Some(v) }),
                Err(e) => Err(e),
            }
        } else {
            Ok(FieldVar { value: None })
        }
    }

    /// The value assigned to the variable.
    pub fn value(&self) -> (r: Result<F, SynthesisError>)
        ensures
            r == match self.value {
                Some(x) => Ok(x),
                None => Err::<F, SynthesisError>(SynthesisError::AssignmentMissing),
            },
    {
        match self.value {
            Some(x) => Ok(x),
            None => Err(SynthesisError::AssignmentMissing),
        }
    }

    /// The byte variables of the canonical little-endian encoding.
    pub fn to_bytes_le(&self) -> (r: Vec<UInt8>)
        ensures
            r@ == var_bytes(self.value),
    {
        let mut out: Vec<UInt8> = Vec::new();
        match &self.value {
            Some(x) => {
                let b = x.to_bytes_le();
                let mut i: usize = 0;
                while i < b.len()
                    invariant
                        i <= b@.len(),
                        b@ == x.spec_bytes(),
                        out@ =~= b@.subrange(0, i as int).map_values(|c: u8| UInt8 { value: Some(c) }),
                    decreases b@.len() - i,
                {
                    out.push(UInt8 { value: Some(b[i]) });
                    i += 1;
                }
                assert(b@.subrange(0, b@.len() as int) =~= b@);
            },
            None => {
                let n = F::byte_len();
                let mut i: usize = 0;
                while i < n
                    invariant
                        i <= n,
                        n == F::spec_byte_len(),
                        out@ =~= Seq::new(i as nat, |j: int| UInt8 { value: None }),
                    decreases n - i,
                {
                    out.push(UInt8 { value: None });
                    i += 1;
                }
            },
        }
        assert(out@ =~= var_bytes(self.value));
        out
    }
}

impl<F: MulField> FieldVar<F> {
    pub fn one() -> (r: Self)
        ensures
            r.wf(),
            r.val() == Some(F::spec_one()),
    {
        FieldVar { value: Some(F::one()) }
    }

    pub fn mul(&self, o: &Self) -> (r: Self)
        requires
            self.wf(),
            o.wf(),
        ensures
            r.wf(),
            r.val() == v_mul::<F>(self.val(), o.val()),
    {
        match (&self.value, &o.value) {
            (Some(x), Some(y)) => FieldVar { value: Some(x.mul(y)) },
            _ => FieldVar { value: None },
        }
    }

    pub fn square(&self) -> (r: Self)
        requires
            self.wf(),
        ensures
            r.wf(),
            r.val() == v_square::<F>(self.val()),
    {
        match &self.value {
            Some(x) => FieldVar { value: Some(x.square()) },
            None => FieldVar { value: None },
        }
    }

    /// Inverts the variable; fails when its assignment is zero.
    pub fn inverse(&self) -> (r: Result<Self, SynthesisError>)
        requires
            self.wf(),
        ensures
            v_is_zero::<F>(self.val()) <==> r is Err,
            r is Err ==> r == Err::<Self, SynthesisError>(SynthesisError::DivisionByZero),
            r matches Ok(i) ==> i.wf() && i.val() == v_inv::<F>(self.val()),
    {
        match &self.value {
            Some(x) => match x.inverse() {
                Some(i) => Ok(FieldVar { value: Some(i) }),
                None => Err(SynthesisError::DivisionByZero),
            },
            None => Ok(FieldVar { value: None }),
        }
    }
}

impl<F: TowerField> FieldVar<F> {
    pub fn add(&self, o: &Self) -> (r: Self)
        requires
            self.wf(),
            o.wf(),
        ensures
            r.wf(),
            r.val() == v_add::<F>(self.val(), o.val()),
    {
        match (&self.value, &o.value) {
            (Some(x), Some(y)) => FieldVar { value: Some(x.add(y)) },
            _ => FieldVar { value: None },
        }
    }

    pub fn sub(&self, o: &Self) -> (r: Self)
        requires
            self.wf(),
            o.wf(),
        ensures
            r.wf(),
            r.val() == v_sub::<F>(self.val(), o.val()),
    {
        match (&self.value, &o.value) {
            (Some(x), Some(y)) => FieldVar { value: Some(x.sub(y)) },
            _ => FieldVar { value: None },
        }
    }

    pub fn double(&self) -> (r: Self)
        requires
            self.wf(),
        ensures
            r.wf(),
            r.val() == v_double::<F>(self.val()),
    {
        self.add(self)
    }

    pub fn negate(&self) -> (r: Self)
        requires
            self.wf(),
        ensures
            r.wf(),
            r.val() == v_neg::<F>(self.val()),
    {
        match &self.value {
            Some(x) => FieldVar { value: Some(x.neg()) },
            None => FieldVar { value: None },
        }
    }
}

} // verus!
