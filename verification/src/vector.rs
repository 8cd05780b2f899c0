//! The four-vector itself: an energy component and three momentum components,
//! each a double-precision value carried as its bit pattern, with
//! componentwise arithmetic, equality, and the laws that relate the
//! operations.

use vstd::prelude::*;

verus! {

use crate::scalar::{
    is_nan_bits,
    is_finite_bits,
    eq_bits,
    is_sum,
    is_diff,
    is_prod,
    is_quot,
    bits_equal,
    double_add,
    double_sub,
    double_mul,
    double_div,
};

/// A relativistic four-vector: energy `e` and momentum components `px`, `py`,
/// `pz`. Each field holds the IEEE-754 bit pattern of a double-precision
/// value; any bit pattern is a legal value, and no physical constraint is
/// enforced. The type has value semantics.
#[derive(Copy, Clone, Debug)]
pub struct LorentzVector {
    pub e: u64,
    pub px: u64,
    pub py: u64,
    pub pz: u64,
}

/// Some component of `a` encodes NaN.
pub open spec fn vec_has_nan(a: LorentzVector) -> bool {
    ||| is_nan_bits(a.e)
    ||| is_nan_bits(a.px)
    ||| is_nan_bits(a.py)
    ||| is_nan_bits(a.pz)
}

/// Every component of `a` encodes a finite value.
pub open spec fn vec_is_finite(a: LorentzVector) -> bool {
    &&& is_finite_bits(a.e)
    &&& is_finite_bits(a.px)
    &&& is_finite_bits(a.py)
    &&& is_finite_bits(a.pz)
}

/// The vectors are equal: all four components compare equal as doubles. A
/// NaN component makes a vector unequal to everything, itself included, and
/// the two zeros are equal to each other.
pub open spec fn vec_eq(a: LorentzVector, b: LorentzVector) -> bool {
    &&& eq_bits(a.e, b.e)
    &&& eq_bits(a.px, b.px)
    &&& eq_bits(a.py, b.py)
    &&& eq_bits(a.pz, b.pz)
}

/// `r` is a result of the componentwise sum of `a` and `b`.
pub open spec fn is_vec_sum(r: LorentzVector, a: LorentzVector, b: LorentzVector) -> bool {
    &&& is_sum(r.e, a.e, b.e)
    &&& is_sum(r.px, a.px, b.px)
    &&& is_sum(r.py, a.py, b.py)
    &&& is_sum(r.pz, a.pz, b.pz)
}

/// `r` is a result of the componentwise difference of `a` and `b`.
pub open spec fn is_vec_diff(r: LorentzVector, a: LorentzVector, b: LorentzVector) -> bool {
    &&& is_diff(r.e, a.e, b.e)
    &&& is_diff(r.px, a.px, b.px)
    &&& is_diff(r.py, a.py, b.py)
    &&& is_diff(r.pz, a.pz, b.pz)
}

/// `r` is a result of multiplying every component of `a` by the scalar `k`.
pub open spec fn is_vec_scaled(r: LorentzVector, a: LorentzVector, k: u64) -> bool {
    &&& is_prod(r.e, a.e, k)
    &&& is_prod(r.px, a.px, k)
    &&& is_prod(r.py, a.py, k)
    &&& is_prod(r.pz, a.pz, k)
}

/// `r` is a result of dividing every component of `a` by the scalar `k`.
pub open spec fn is_vec_quot(r: LorentzVector, a: LorentzVector, k: u64) -> bool {
    &&& is_quot(r.e, a.e, k)
    &&& is_quot(r.px, a.px, k)
    &&& is_quot(r.py, a.py, k)
    &&& is_quot(r.pz, a.pz, k)
}

impl LorentzVector {
    /// Builds the vector whose components have exactly the given bit
    /// patterns.
    pub fn new(e: u64, px: u64, py: u64, pz: u64) -> (r: LorentzVector)
        ensures
            r == (LorentzVector { e, px, py, pz }),
    {
        LorentzVector { e, px, py, pz }
    }

    /// The componentwise sum of the two vectors.
    pub fn add(&self, other: &LorentzVector) -> (r: LorentzVector)
        ensures
            is_vec_sum(r, *self, *other),
    {
        LorentzVector {
            e: double_add(self.e, other.e),
            px: double_add(self.px, other.px),
            py: double_add(self.py, other.py),
            pz: double_add(self.pz, other.pz),
        }
    }

    /// Replaces the vector by the componentwise sum of itself and `other`;
    /// it then holds exactly what `add` on the old value would return.
    pub fn add_assign(&mut self, other: &LorentzVector)
        ensures
            is_vec_sum(*final(self), *old(self), *other),
    {
        self.e = double_add(self.e, other.e);
        self.px = double_add(self.px, other.px);
        self.py = double_add(self.py, other.py);
        self.pz = double_add(self.pz, other.pz);
    }

    /// The componentwise difference of the two vectors.
    pub fn subtract(&self, other: &LorentzVector) -> (r: LorentzVector)
        ensures
            is_vec_diff(r, *self, *other),
    {
        LorentzVector {
            e: double_sub(self.e, other.e),
            px: double_sub(self.px, other.px),
            py: double_sub(self.py, other.py),
            pz: double_sub(self.pz, other.pz),
        }
    }

    /// Replaces the vector by the componentwise difference of itself and
    /// `other`.
    pub fn subtract_assign(&mut self, other: &LorentzVector)
        ensures
            is_vec_diff(*final(self), *old(self), *other),
    {
        self.e = double_sub(self.e, other.e);
        self.px = double_sub(self.px, other.px);
        self.py = double_sub(self.py, other.py);
        self.pz = double_sub(self.pz, other.pz);
    }

    /// Every component multiplied by the scalar whose bit pattern is `k`.
    pub fn scalar_multiply(&self, k: u64) -> (r: LorentzVector)
        ensures
            is_vec_scaled(r, *self, k),
    {
        LorentzVector {
            e: double_mul(self.e, k),
            px: double_mul(self.px, k),
            py: double_mul(self.py, k),
            pz: double_mul(self.pz, k),
        }
    }

    /// Replaces every component by its product with the scalar `k`.
    pub fn scalar_multiply_assign(&mut self, k: u64)
        ensures
            is_vec_scaled(*final(self), *old(self), k),
    {
        self.e = double_mul(self.e, k);
        self.px = double_mul(self.px, k);
        self.py = double_mul(self.py, k);
        self.pz = double_mul(self.pz, k);
    }

    /// Every component divided by the scalar whose bit pattern is `k`.
    /// Division by zero follows IEEE-754: a nonzero component becomes the
    /// correctly signed infinity and a zero component becomes NaN.
    pub fn scalar_divide(&self, k: u64) -> (r: LorentzVector)
        ensures
            is_vec_quot(r, *self, k),
    {
        LorentzVector {
            e: double_div(self.e, k),
            px: double_div(self.px, k),
            py: double_div(self.py, k),
            pz: double_div(self.pz, k),
        }
    }

    /// Replaces every component by its quotient with the scalar `k`.
    pub fn scalar_divide_assign(&mut self, k: u64)
        ensures
            is_vec_quot(*final(self), *old(self), k),
    {
        self.e = double_div(self.e, k);
        self.px = double_div(self.px, k);
        self.py = double_div(self.py, k);
        self.pz = double_div(self.pz, k);
    }
}

/// Every component of `v` multiplied by the scalar `k`, with the scalar on
/// the left. Multiplication of doubles is commutative, so this establishes
/// the same relation as `scalar_multiply`.
pub fn scalar_multiply_left(k: u64, v: &LorentzVector) -> (r: LorentzVector)
    ensures
        is_vec_scaled(r, *v, k),
{
    LorentzVector {
        e: double_mul(k, v.e),
        px: double_mul(k, v.px),
        py: double_mul(k, v.py),
        pz: double_mul(k, v.pz),
    }
}

impl PartialEq for LorentzVector {
    /// Componentwise equality as doubles: a NaN component makes the vectors
    /// unequal, and the two zeros are equal to each other.
    fn eq(&self, other: &LorentzVector) -> (r: bool) {
        bits_equal(self.e, other.e) && bits_equal(self.px, other.px) && bits_equal(
            self.py,
            other.py,
        ) && bits_equal(self.pz, other.pz)
    }
}

impl vstd::std_specs::cmp::PartialEqSpecImpl for LorentzVector {
    open spec fn obeys_eq_spec() -> bool {
        true
    }

    open spec fn eq_spec(&self, other: &LorentzVector) -> bool {
        vec_eq(*self, *other)
    }
}

impl Default for LorentzVector {
    /// The zero four-vector: every component is the bit pattern of positive
    /// zero.
    fn default() -> (r: LorentzVector)
        ensures
            r == (LorentzVector { e: 0u64, px: 0u64, py: 0u64, pz: 0u64 }),
    {
        LorentzVector { e: 0, px: 0, py: 0, pz: 0 }
    }
}

/// Addition is commutative: results of adding the same two vectors in either
/// order compare equal exactly when no component of the sum is NaN (a NaN
/// component compares unequal to everything, itself included).
pub proof fn lemma_add_commutative(
    r_ab: LorentzVector,
    r_ba: LorentzVector,
    a: LorentzVector,
    b: LorentzVector,
)
    requires
        is_vec_sum(r_ab, a, b),
        is_vec_sum(r_ba, b, a),
    ensures
        vec_eq(r_ab, r_ba) <==> !vec_has_nan(r_ab),
{
}

/// The in-place and the value-returning addition agree: both establish
/// `is_vec_sum`, and any two vectors standing in that relation to the same
/// operands compare equal exactly when no component of the sum is NaN.
pub proof fn lemma_sum_results_agree(
    r1: LorentzVector,
    r2: LorentzVector,
    a: LorentzVector,
    b: LorentzVector,
)
    requires
        is_vec_sum(r1, a, b),
        is_vec_sum(r2, a, b),
    ensures
        vec_eq(r1, r2) <==> !vec_has_nan(r1),
{
}

/// The in-place and the value-returning subtraction agree, in the same sense
/// as for addition.
pub proof fn lemma_diff_results_agree(
    r1: LorentzVector,
    r2: LorentzVector,
    a: LorentzVector,
    b: LorentzVector,
)
    requires
        is_vec_diff(r1, a, b),
        is_vec_diff(r2, a, b),
    ensures
        vec_eq(r1, r2) <==> !vec_has_nan(r1),
{
}

/// Multiplying by a scalar on the right and on the left agrees, and so do the
/// in-place and the value-returning forms: `scalar_multiply`,
/// `scalar_multiply_left` and `scalar_multiply_assign` all establish
/// `is_vec_scaled`, and any two vectors standing in that relation to the same
/// operands compare equal exactly when no component of the product is NaN.
pub proof fn lemma_scaled_results_agree(
    r1: LorentzVector,
    r2: LorentzVector,
    a: LorentzVector,
    k: u64,
)
    requires
        is_vec_scaled(r1, a, k),
        is_vec_scaled(r2, a, k),
    ensures
        vec_eq(r1, r2) <==> !vec_has_nan(r1),
{
}

/// The in-place and the value-returning division agree, in the same sense as
/// for addition.
pub proof fn lemma_quot_results_agree(
    r1: LorentzVector,
    r2: LorentzVector,
    a: LorentzVector,
    k: u64,
)
    requires
        is_vec_quot(r1, a, k),
        is_vec_quot(r2, a, k),
    ensures
        vec_eq(r1, r2) <==> !vec_has_nan(r1),
{
}

/// Equality is reflexive on vectors whose components are all finite.
pub proof fn lemma_eq_reflexive(a: LorentzVector)
    requires
        vec_is_finite(a),
    ensures
        vec_eq(a, a),
{
}

/// Two vectors built from the same four bit patterns compare equal, as long
/// as no component is NaN.
pub proof fn lemma_eq_of_same_bits(a: LorentzVector, b: LorentzVector)
    requires
        a == b,
        !vec_has_nan(a),
    ensures
        vec_eq(a, b),
{
}

} // verus!

