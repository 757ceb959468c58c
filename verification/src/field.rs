//! The Baby Bear prime field, `p = 2^31 - 2^27 + 1`.
//!
//! Field elements are held as canonical `u32` values (`0 <= x < p`). The
//! specification of the field operations is plain modular arithmetic over
//! `int`; the executable operations are carried out by `p3_baby_bear`.

use p3_baby_bear::BabyBear;
use p3_field::AbstractField;
use p3_field::PrimeField32;
use vstd::prelude::*;

verus! {

/// The order of the field.
pub const MODULUS: u32 = 2013265921;

/// The order of the field as a mathematical integer.
pub open spec fn modulus() -> int {
    2013265921
}

/// Whether `x` is the canonical representative of a field element.
pub open spec fn canonical(x: int) -> bool {
    0 <= x < modulus()
}

/// Field addition.
#[verifier::opaque]
pub open spec fn fadd(a: int, b: int) -> int {
    (a + b) % modulus()
}

/// Field subtraction.
#[verifier::opaque]
pub open spec fn fsub(a: int, b: int) -> int {
    (a - b) % modulus()
}

/// Field multiplication.
#[verifier::opaque]
pub open spec fn fmul(a: int, b: int) -> int {
    (a * b) % modulus()
}

/// The field element named by a boolean selector.
pub open spec fn fbool(b: bool) -> int {
    if b { 1 } else { 0 }
}

/// Whether `x` is the canonical representative of a field element.
pub fn is_canonical(x: u32) -> (r: bool)
    ensures
        r == canonical(x as int),
{
    x < MODULUS
}

/// Sum of two canonical field elements.
///
/// Trusted: the body adds the two values with `BabyBear`'s `Add`
/// implementation, which is addition modulo the field order, and reads the
/// canonical representative of the sum back with `as_canonical_u32`.
#[verifier::external_body]
pub(crate) fn felt_add(a: u32, b: u32) -> (r: u32)
    requires
        canonical(a as int),
        canonical(b as int),
    ensures
        r as int == fadd(a as int, b as int),
{
    (BabyBear::from_canonical_u32(a) + BabyBear::from_canonical_u32(b)).as_canonical_u32()
}

/// Difference of two canonical field elements.
///
/// Trusted: the body subtracts with `BabyBear`'s `Sub` implementation, which
/// is subtraction modulo the field order, and reads the canonical
/// representative of the difference back with `as_canonical_u32`.
#[verifier::external_body]
pub(crate) fn felt_sub(a: u32, b: u32) -> (r: u32)
    requires
        canonical(a as int),
        canonical(b as int),
    ensures
        r as int == fsub(a as int, b as int),
{
    (BabyBear::from_canonical_u32(a) - BabyBear::from_canonical_u32(b)).as_canonical_u32()
}

/// Product of two canonical field elements.
///
/// Trusted: the body multiplies with `BabyBear`'s `Mul` implementation, which
/// is multiplication modulo the field order, and reads the canonical
/// representative of the product back with `as_canonical_u32`.
#[verifier::external_body]
pub(crate) fn felt_mul(a: u32, b: u32) -> (r: u32)
    requires
        canonical(a as int),
        canonical(b as int),
    ensures
        r as int == fmul(a as int, b as int),
{
    (BabyBear::from_canonical_u32(a) * BabyBear::from_canonical_u32(b)).as_canonical_u32()
}

/// The field operations yield canonical field elements.
pub proof fn lemma_field_ops_canonical(a: int, b: int)
    ensures
        canonical(fadd(a, b)),
        canonical(fsub(a, b)),
        canonical(fmul(a, b)),
{
    reveal(fadd);
    reveal(fsub);
    reveal(fmul);
}

/// Multiplying by one changes nothing.
pub proof fn lemma_fmul_one(x: int)
    requires
        canonical(x),
    ensures
        fmul(1, x) == x,
        fmul(x, 1) == x,
{
    reveal(fmul);
}

/// Multiplying by zero gives zero.
pub proof fn lemma_fmul_zero(x: int)
    ensures
        fmul(0, x) == 0,
        fmul(x, 0) == 0,
{
    reveal(fmul);
}

/// Two canonical field elements whose difference is zero are equal.
pub proof fn lemma_fsub_zero(a: int, b: int)
    requires
        canonical(a),
        canonical(b),
    ensures
        (fsub(a, b) == 0) == (a == b),
{
    reveal(fsub);
}

/// The sum of two canonical field elements is their sum as integers, less
/// the order of the field if that is reached.
pub proof fn lemma_fadd_value(a: int, b: int)
    requires
        canonical(a),
        canonical(b),
    ensures
        fadd(a, b) == if a + b < modulus() {
            a + b
        } else {
            a + b - modulus()
        },
{
    reveal(fadd);
}

/// The difference of two canonical field elements is their difference as
/// integers, plus the order of the field if that is negative.
pub proof fn lemma_fsub_value(a: int, b: int)
    requires
        canonical(a),
        canonical(b),
    ensures
        fsub(a, b) == if a >= b {
            a - b
        } else {
            a - b + modulus()
        },
{
    reveal(fsub);
}

/// A product of two integers that is below the order of the field is the
/// product in the field.
pub proof fn lemma_fmul_small(a: int, b: int)
    requires
        0 <= a,
        0 <= b,
        a * b < modulus(),
    ensures
        fmul(a, b) == a * b,
{
    reveal(fmul);
    assert(0 <= a * b) by (nonlinear_arith)
        requires
            0 <= a,
            0 <= b,
    ;
}

} // verus!
