//! Small checks that several instruction classes use.

use crate::builder::{
    all_zero, boolean_when, eq_when, lemma_boolean_when, lemma_eq_when, lemma_zero_when,
    zero_when, ConstraintBuilder,
};
use crate::expr::{Expr, Var, Window};
use crate::field::{
    canonical, fadd, fmul, fsub, lemma_fadd_value, lemma_field_ops_canonical, lemma_fmul_one,
    lemma_fmul_small, lemma_fmul_zero, lemma_fsub_value, modulus,
};
use crate::word::Word;
use vstd::prelude::*;

verus! {

/// The witness that a field element is zero or not: an inverse, and the
/// result, one if the element is zero.
#[derive(Clone, Copy, Debug, PartialEq, Eq)]
pub struct IsZeroOperation<T> {
    /// The inverse of the element, if it has one.
    pub inverse: T,
    /// One if the element is zero, zero if it is not.
    pub result: T,
}

/// The constraints of a zero test of `a`, wherever `is_real` is not zero:
/// the result is `1 - inverse * a`, it is zero or one, and if it is one
/// then `a` is zero.
pub open spec fn is_zero_constraints(a: int, cols: IsZeroOperation<Var>, is_real: int, w: Window) -> bool {
    let inverse = w.var(cols.inverse);
    let result = w.var(cols.result);
    &&& eq_when(is_real, fsub(1, fmul(inverse, a)), result)
    &&& boolean_when(is_real, result)
    &&& zero_when(fmul(is_real, result), a)
}

impl IsZeroOperation<Var> {
    /// States the constraints of a zero test of `a`.
    pub fn eval(builder: &mut ConstraintBuilder, a: Expr, cols: &IsZeroOperation<Var>, is_real: Expr)
        ensures
            final(builder).constraints@.len() == old(builder).constraints@.len() + 3,
            final(builder).interactions@ == old(builder).interactions@,
            forall|w: Window| #[trigger]
                final(builder).holds(w) == (old(builder).holds(w) && is_zero_constraints(
                    a.value(w),
                    *cols,
                    is_real.value(w),
                    w,
                )),
    {
        let is_zero = Expr::one().minus(Expr::var(cols.inverse).times(a.clone()));
        builder.assert_eq_when(is_real.clone(), is_zero, Expr::var(cols.result));
        builder.assert_bool_when(is_real.clone(), Expr::var(cols.result));
        builder.assert_zero_when(is_real.times(Expr::var(cols.result)), a);
    }
}

/// The witness that a word of bytes is below the order of the field, so that
/// the field element that its limbs stand for is the word itself.
#[derive(Clone, Copy, Debug, PartialEq, Eq)]
pub struct BabyBearWordRangeChecker<T> {
    /// The bits of the most significant byte, least significant first.
    pub most_sig_byte_decomp: [T; 8],
    /// The product of bits 3 and 4.
    pub and_most_sig_byte_decomp_3_to_5: T,
    /// The product of bits 3, 4 and 5.
    pub and_most_sig_byte_decomp_3_to_6: T,
    /// The product of bits 3, 4, 5 and 6.
    pub and_most_sig_byte_decomp_3_to_7: T,
}

/// Whether each of the first `n` bits is zero or one wherever `cond` is not
/// zero.
pub open spec fn bits_boolean(bits: [Var; 8], cond: int, w: Window, n: nat) -> bool
    decreases n,
{
    if n == 0 {
        true
    } else {
        bits_boolean(bits, cond, w, (n - 1) as nat) && boolean_when(cond, w.var(bits[n - 1]))
    }
}

/// The byte that the first `n` bits stand for, least significant first.
pub open spec fn recompose_bits(bits: [Var; 8], w: Window, n: nat) -> int
    decreases n,
{
    if n == 0 {
        0
    } else {
        fadd(
            recompose_bits(bits, w, (n - 1) as nat),
            fmul(w.var(bits[n - 1]), vstd::arithmetic::power2::pow2((n - 1) as nat) as int),
        )
    }
}

/// The constraints that `value` is below the order of the field, wherever
/// `is_real` is not zero.
///
/// The order is `0x78000001`. The bits are those of the most significant
/// byte; the top bit is zero; and if bits 3 to 6 are all set, so that the
/// byte is at least `0x78`, then its three low bits and the three lower
/// bytes are zero.
pub open spec fn word_range_constraints(
    value: Word<Var>,
    cols: BabyBearWordRangeChecker<Var>,
    is_real: int,
    w: Window,
) -> bool {
    let bits = cols.most_sig_byte_decomp;
    let and_3_to_5 = w.var(cols.and_most_sig_byte_decomp_3_to_5);
    let and_3_to_6 = w.var(cols.and_most_sig_byte_decomp_3_to_6);
    let and_3_to_7 = w.var(cols.and_most_sig_byte_decomp_3_to_7);
    let top = fmul(is_real, and_3_to_7);
    &&& bits_boolean(bits, is_real, w, 8)
    &&& eq_when(is_real, recompose_bits(bits, w, 8), value.limb(w, 3))
    &&& zero_when(is_real, w.var(bits[7]))
    &&& eq_when(is_real, and_3_to_5, fmul(w.var(bits[3]), w.var(bits[4])))
    &&& eq_when(is_real, and_3_to_6, fmul(and_3_to_5, w.var(bits[5])))
    &&& eq_when(is_real, and_3_to_7, fmul(and_3_to_6, w.var(bits[6])))
    &&& zero_when(top, fadd(fadd(w.var(bits[0]), w.var(bits[1])), w.var(bits[2])))
    &&& zero_when(top, value.limb(w, 0))
    &&& zero_when(top, value.limb(w, 1))
    &&& zero_when(top, value.limb(w, 2))
}

impl BabyBearWordRangeChecker<Var> {
    /// States that the bits are bits and that they make up the most
    /// significant byte of `value`.
    fn eval_bits(builder: &mut ConstraintBuilder, value: &Word<Var>, cols: &Self, is_real: &Expr)
        ensures
            final(builder).interactions@ == old(builder).interactions@,
            forall|w: Window| #[trigger]
                final(builder).holds(w) == (old(builder).holds(w) && bits_boolean(
                    cols.most_sig_byte_decomp,
                    is_real.value(w),
                    w,
                    8,
                ) && eq_when(
                    is_real.value(w),
                    recompose_bits(cols.most_sig_byte_decomp, w, 8),
                    value.limb(w, 3),
                )),
    {
        let mut recomposed_byte = Expr::zero();
        let mut power: u32 = 1;
        let mut i: usize = 0;
        proof {
            vstd::arithmetic::power2::lemma2_to64();
        }
        while i < 8
            invariant
                i <= 8,
                power as int == vstd::arithmetic::power2::pow2(i as nat),
                power <= 256,
                builder.interactions@ == old(builder).interactions@,
                forall|w: Window| #[trigger]
                    all_zero(builder.constraints@, w) == (all_zero(old(builder).constraints@, w)
                        && bits_boolean(cols.most_sig_byte_decomp, is_real.value(w), w, i as nat)),
                forall|w: Window| #[trigger]
                    recomposed_byte.value(w) == recompose_bits(cols.most_sig_byte_decomp, w, i as nat),
            decreases 8 - i,
        {
            let bit = cols.most_sig_byte_decomp[i];
            builder.assert_bool_when(is_real.clone(), Expr::var(bit));
            recomposed_byte = recomposed_byte.plus(Expr::var(bit).times(Expr::constant(power)));
            proof {
                vstd::arithmetic::power2::lemma_pow2_unfold((i + 1) as nat);
                vstd::arithmetic::power2::lemma2_to64();
                if i < 7 {
                    vstd::arithmetic::power2::lemma_pow2_strictly_increases((i + 1) as nat, 8);
                }
            }
            power = power * 2;
            i += 1;
        }
        builder.assert_eq_when(is_real.clone(), recomposed_byte, Expr::var(value.0[3]));
    }

    /// States that the three products of the high bits are what their names
    /// say, and that the top bit is zero.
    fn eval_products(builder: &mut ConstraintBuilder, cols: &Self, is_real: &Expr)
        ensures
            final(builder).interactions@ == old(builder).interactions@,
            forall|w: Window| #[trigger]
                final(builder).holds(w) == (old(builder).holds(w) && {
                    let bits = cols.most_sig_byte_decomp;
                    let and_3_to_5 = w.var(cols.and_most_sig_byte_decomp_3_to_5);
                    let and_3_to_6 = w.var(cols.and_most_sig_byte_decomp_3_to_6);
                    let and_3_to_7 = w.var(cols.and_most_sig_byte_decomp_3_to_7);
                    &&& zero_when(is_real.value(w), w.var(bits[7]))
                    &&& eq_when(is_real.value(w), and_3_to_5, fmul(w.var(bits[3]), w.var(bits[4])))
                    &&& eq_when(is_real.value(w), and_3_to_6, fmul(and_3_to_5, w.var(bits[5])))
                    &&& eq_when(is_real.value(w), and_3_to_7, fmul(and_3_to_6, w.var(bits[6])))
                }),
    {
        let bits = &cols.most_sig_byte_decomp;
        builder.assert_zero_when(is_real.clone(), Expr::var(bits[7]));
        builder.assert_eq_when(
            is_real.clone(),
            Expr::var(cols.and_most_sig_byte_decomp_3_to_5),
            Expr::var(bits[3]).times(Expr::var(bits[4])),
        );
        builder.assert_eq_when(
            is_real.clone(),
            Expr::var(cols.and_most_sig_byte_decomp_3_to_6),
            Expr::var(cols.and_most_sig_byte_decomp_3_to_5).times(Expr::var(bits[5])),
        );
        builder.assert_eq_when(
            is_real.clone(),
            Expr::var(cols.and_most_sig_byte_decomp_3_to_7),
            Expr::var(cols.and_most_sig_byte_decomp_3_to_6).times(Expr::var(bits[6])),
        );
    }

    /// States that where the most significant byte is at least `0x78`, its
    /// low bits and the lower bytes of `value` are zero.
    fn eval_low(builder: &mut ConstraintBuilder, value: &Word<Var>, cols: &Self, is_real: &Expr)
        ensures
            final(builder).interactions@ == old(builder).interactions@,
            forall|w: Window| #[trigger]
                final(builder).holds(w) == (old(builder).holds(w) && {
                    let bits = cols.most_sig_byte_decomp;
                    let top = fmul(is_real.value(w), w.var(cols.and_most_sig_byte_decomp_3_to_7));
                    &&& zero_when(top, fadd(fadd(w.var(bits[0]), w.var(bits[1])), w.var(bits[2])))
                    &&& zero_when(top, value.limb(w, 0))
                    &&& zero_when(top, value.limb(w, 1))
                    &&& zero_when(top, value.limb(w, 2))
                }),
    {
        let bits = &cols.most_sig_byte_decomp;
        let top = is_real.clone().times(Expr::var(cols.and_most_sig_byte_decomp_3_to_7));
        builder.assert_zero_when(
            top.clone(),
            Expr::var(bits[0]).plus(Expr::var(bits[1])).plus(Expr::var(bits[2])),
        );
        builder.assert_zero_when(top.clone(), Expr::var(value.0[0]));
        builder.assert_zero_when(top.clone(), Expr::var(value.0[1]));
        builder.assert_zero_when(top, Expr::var(value.0[2]));
    }

    /// States that `value` is below the order of the field, wherever
    /// `is_real` is not zero.
    pub fn range_check(builder: &mut ConstraintBuilder, value: &Word<Var>, cols: &Self, is_real: Expr)
        ensures
            final(builder).interactions@ == old(builder).interactions@,
            forall|w: Window| #[trigger]
                final(builder).holds(w) == (old(builder).holds(w) && word_range_constraints(
                    *value,
                    *cols,
                    is_real.value(w),
                    w,
                )),
    {
        Self::eval_bits(builder, value, cols, &is_real);
        Self::eval_products(builder, cols, &is_real);
        Self::eval_low(builder, value, cols, &is_real);
    }
}

/// What a zero test enforces: where the test is switched on, the result is
/// one if the tested element is zero, and zero if it is not.
pub proof fn lemma_is_zero(a: int, cols: IsZeroOperation<Var>, is_real: int, w: Window)
    requires
        w.wf(),
        canonical(a),
        canonical(is_real),
        is_real != 0,
        is_zero_constraints(a, cols, is_real, w),
    ensures
        w.var(cols.result) == if a == 0 {
            1int
        } else {
            0int
        },
{
    let inverse = w.var(cols.inverse);
    let result = w.var(cols.result);
    lemma_field_ops_canonical(inverse, a);
    lemma_field_ops_canonical(1, fmul(inverse, a));
    lemma_field_ops_canonical(is_real, result);
    lemma_eq_when(is_real, fsub(1, fmul(inverse, a)), result);
    lemma_boolean_when(is_real, result);
    lemma_zero_when(fmul(is_real, result), a);
    crate::prime::lemma_no_zero_divisors(is_real, result);
    if a == 0 {
        lemma_fmul_zero(inverse);
        lemma_fsub_value(1, 0);
    }
}

/// The integer that the limbs of a word stand for.
pub open spec fn word_value(word: Word<Var>, w: Window) -> int {
    word.limb(w, 0) + 256 * word.limb(w, 1) + 65536 * word.limb(w, 2) + 16777216 * word.limb(w, 3)
}

/// Whether every limb of a word is a byte.
pub open spec fn limbs_are_bytes(word: Word<Var>, w: Window) -> bool {
    forall|i: int| 0 <= i < 4 ==> 0 <= #[trigger] word.limb(w, i) < 256
}

/// The field element that a word of bytes stands for is the integer that
/// the limbs stand for, reduced by the order of the field.
pub proof fn lemma_reduced_is_value(word: Word<Var>, w: Window)
    requires
        limbs_are_bytes(word, w),
    ensures
        word.reduced(w) == word_value(word, w) % modulus(),
{
    let b0 = word.limb(w, 0);
    let b1 = word.limb(w, 1);
    let b2 = word.limb(w, 2);
    let b3 = word.limb(w, 3);
    assert(0 <= b0 < 256 && 0 <= b1 < 256 && 0 <= b2 < 256 && 0 <= b3 < 256);
    assert(b1 * 256 < modulus() && b2 * 65536 < modulus()) by (nonlinear_arith)
        requires
            0 <= b1 < 256,
            0 <= b2 < 256,
            modulus() == 2013265921,
    ;
    lemma_fmul_small(b1, 256);
    lemma_fmul_small(b2, 65536);
    lemma_fadd_value(b0, fmul(b1, 256));
    lemma_fadd_value(fadd(b0, fmul(b1, 256)), fmul(b2, 65536));
    reveal(fmul);
    reveal(fadd);
    let low = b0 + 256 * b1 + 65536 * b2;
    assert(fadd(fadd(b0, fmul(b1, 256)), fmul(b2, 65536)) == low);
    vstd::arithmetic::div_mod::lemma_add_mod_noop_right(low, b3 * 16777216, modulus());
}

/// Every bit of a bit decomposition that the constraints hold for is zero
/// or one.
pub proof fn lemma_bit_is_boolean(bits: [Var; 8], cond: int, w: Window, n: nat, i: int)
    requires
        w.wf(),
        canonical(cond),
        cond != 0,
        bits_boolean(bits, cond, w, n),
        0 <= i < n <= 8,
    ensures
        w.var(bits[i]) == 0 || w.var(bits[i]) == 1,
    decreases n,
{
    if i == n - 1 {
        lemma_boolean_when(cond, w.var(bits[i]));
    } else {
        lemma_bit_is_boolean(bits, cond, w, (n - 1) as nat, i);
    }
}

/// The integer that the first `n` bits stand for, least significant first.
pub open spec fn bits_value(bits: [Var; 8], w: Window, n: nat) -> int
    decreases n,
{
    if n == 0 {
        0
    } else {
        bits_value(bits, w, (n - 1) as nat) + w.var(bits[n - 1]) * vstd::arithmetic::power2::pow2(
            (n - 1) as nat,
        )
    }
}

/// Where the first `n` bits are zero or one, the field element that they
/// stand for is the integer that they stand for, and is below `2^n`.
pub proof fn lemma_recompose_prefix(bits: [Var; 8], w: Window, n: nat)
    requires
        n <= 8,
        forall|i: int| 0 <= i < 8 ==> w.var(#[trigger] bits[i]) == 0 || w.var(bits[i]) == 1,
    ensures
        recompose_bits(bits, w, n) == bits_value(bits, w, n),
        0 <= bits_value(bits, w, n) < vstd::arithmetic::power2::pow2(n),
    decreases n,
{
    vstd::arithmetic::power2::lemma2_to64();
    if n > 0 {
        lemma_recompose_prefix(bits, w, (n - 1) as nat);
        let bit = w.var(bits[n - 1]);
        let weight = vstd::arithmetic::power2::pow2((n - 1) as nat) as int;
        vstd::arithmetic::power2::lemma_pow2_unfold(n);
        assert(bit == 0 || bit == 1);
        assert(1 <= weight <= 128) by {
            if n - 1 < 7 {
                vstd::arithmetic::power2::lemma_pow2_strictly_increases((n - 1) as nat, 7);
            }
            vstd::arithmetic::power2::lemma_pow2_pos((n - 1) as nat);
        }
        assert(bit * weight == if bit == 1 {
            weight
        } else {
            0
        }) by (nonlinear_arith)
            requires
                bit == 0 || bit == 1,
        ;
        lemma_fmul_small(bit, weight);
        lemma_fadd_value(bits_value(bits, w, (n - 1) as nat), fmul(bit, weight));
    }
}

/// The byte that a decomposition into bits stands for: where all bits are
/// zero or one, the field element is the integer
/// `b0 + 2 * b1 + ... + 128 * b7`.
pub proof fn lemma_recompose_bits(bits: [Var; 8], w: Window)
    requires
        forall|i: int| 0 <= i < 8 ==> w.var(#[trigger] bits[i]) == 0 || w.var(bits[i]) == 1,
    ensures
        recompose_bits(bits, w, 8) == w.var(bits[0]) + 2 * w.var(bits[1]) + 4 * w.var(bits[2]) + 8
            * w.var(bits[3]) + 16 * w.var(bits[4]) + 32 * w.var(bits[5]) + 64 * w.var(bits[6])
            + 128 * w.var(bits[7]),
{
    vstd::arithmetic::power2::lemma2_to64();
    lemma_recompose_prefix(bits, w, 8);
    assert(bits_value(bits, w, 0) == 0);
    assert(bits_value(bits, w, 1) == bits_value(bits, w, 0) + 1 * w.var(bits[0])) by {
        let bit = w.var(bits[0]);
        let weight = vstd::arithmetic::power2::pow2(0) as int;
        assert(bit * weight == 1 * bit) by (nonlinear_arith)
            requires
                weight == 1,
        ;
    }
    assert(bits_value(bits, w, 2) == bits_value(bits, w, 1) + 2 * w.var(bits[1])) by {
        let bit = w.var(bits[1]);
        let weight = vstd::arithmetic::power2::pow2(1) as int;
        assert(bit * weight == 2 * bit) by (nonlinear_arith)
            requires
                weight == 2,
        ;
    }
    assert(bits_value(bits, w, 3) == bits_value(bits, w, 2) + 4 * w.var(bits[2])) by {
        let bit = w.var(bits[2]);
        let weight = vstd::arithmetic::power2::pow2(2) as int;
        assert(bit * weight == 4 * bit) by (nonlinear_arith)
            requires
                weight == 4,
        ;
    }
    assert(bits_value(bits, w, 4) == bits_value(bits, w, 3) + 8 * w.var(bits[3])) by {
        let bit = w.var(bits[3]);
        let weight = vstd::arithmetic::power2::pow2(3) as int;
        assert(bit * weight == 8 * bit) by (nonlinear_arith)
            requires
                weight == 8,
        ;
    }
    assert(bits_value(bits, w, 5) == bits_value(bits, w, 4) + 16 * w.var(bits[4])) by {
        let bit = w.var(bits[4]);
        let weight = vstd::arithmetic::power2::pow2(4) as int;
        assert(bit * weight == 16 * bit) by (nonlinear_arith)
            requires
                weight == 16,
        ;
    }
    assert(bits_value(bits, w, 6) == bits_value(bits, w, 5) + 32 * w.var(bits[5])) by {
        let bit = w.var(bits[5]);
        let weight = vstd::arithmetic::power2::pow2(5) as int;
        assert(bit * weight == 32 * bit) by (nonlinear_arith)
            requires
                weight == 32,
        ;
    }
    assert(bits_value(bits, w, 7) == bits_value(bits, w, 6) + 64 * w.var(bits[6])) by {
        let bit = w.var(bits[6]);
        let weight = vstd::arithmetic::power2::pow2(6) as int;
        assert(bit * weight == 64 * bit) by (nonlinear_arith)
            requires
                weight == 64,
        ;
    }
    assert(bits_value(bits, w, 8) == bits_value(bits, w, 7) + 128 * w.var(bits[7])) by {
        let bit = w.var(bits[7]);
        let weight = vstd::arithmetic::power2::pow2(7) as int;
        assert(bit * weight == 128 * bit) by (nonlinear_arith)
            requires
                weight == 128,
        ;
    }
}

/// What the range check of a word enforces: a word of bytes that passes the
/// check is below the order of the field, so that the field element that it
/// stands for is the integer that its limbs stand for.
pub proof fn lemma_word_below_modulus(
    value: Word<Var>,
    cols: BabyBearWordRangeChecker<Var>,
    is_real: int,
    w: Window,
)
    requires
        w.wf(),
        canonical(is_real),
        is_real != 0,
        limbs_are_bytes(value, w),
        word_range_constraints(value, cols, is_real, w),
    ensures
        word_value(value, w) < modulus(),
        value.reduced(w) == word_value(value, w),
{
    let bits = cols.most_sig_byte_decomp;
    assert forall|i: int| 0 <= i < 8 implies w.var(#[trigger] bits[i]) == 0 || w.var(bits[i])
        == 1 by {
        lemma_bit_is_boolean(bits, is_real, w, 8, i);
    }
    lemma_recompose_bits(bits, w);
    let b0 = w.var(bits[0]);
    let b1 = w.var(bits[1]);
    let b2 = w.var(bits[2]);
    let b3 = w.var(bits[3]);
    let b4 = w.var(bits[4]);
    let b5 = w.var(bits[5]);
    let b6 = w.var(bits[6]);
    let b7 = w.var(bits[7]);
    assert(b0 == 0 || b0 == 1);
    assert(b1 == 0 || b1 == 1);
    assert(b2 == 0 || b2 == 1);
    assert(b3 == 0 || b3 == 1);
    assert(b4 == 0 || b4 == 1);
    assert(b5 == 0 || b5 == 1);
    assert(b6 == 0 || b6 == 1);
    assert(b7 == 0 || b7 == 1);
    let and_3_to_5 = w.var(cols.and_most_sig_byte_decomp_3_to_5);
    let and_3_to_6 = w.var(cols.and_most_sig_byte_decomp_3_to_6);
    let and_3_to_7 = w.var(cols.and_most_sig_byte_decomp_3_to_7);
    let top = value.limb(w, 3);
    assert(0 <= top < 256);
    // The bits are those of the most significant byte, and the top bit is
    // zero.
    lemma_field_ops_canonical(b0, b1);
    lemma_eq_when(
        is_real,
        recompose_bits(bits, w, 8),
        top,
    );
    lemma_zero_when(is_real, b7);
    // The products of the high bits.
    lemma_field_ops_canonical(b3, b4);
    lemma_eq_when(is_real, and_3_to_5, fmul(b3, b4));
    lemma_field_ops_canonical(and_3_to_5, b5);
    lemma_eq_when(is_real, and_3_to_6, fmul(and_3_to_5, b5));
    lemma_field_ops_canonical(and_3_to_6, b6);
    lemma_eq_when(is_real, and_3_to_7, fmul(and_3_to_6, b6));
    lemma_fmul_one(b4);
    lemma_fmul_zero(b4);
    lemma_fmul_one(b5);
    lemma_fmul_zero(b5);
    lemma_fmul_one(b6);
    lemma_fmul_zero(b6);
    assert(and_3_to_7 == if b3 == 1 && b4 == 1 && b5 == 1 && b6 == 1 {
        1int
    } else {
        0int
    });
    lemma_reduced_is_value(value, w);
    if and_3_to_7 == 1 {
        // The byte is at least 0x78: everything below bit 3 is zero.
        let across = fmul(is_real, and_3_to_7);
        lemma_fmul_one(is_real);
        lemma_fadd_value(b0, b1);
        lemma_fadd_value(fadd(b0, b1), b2);
        lemma_field_ops_canonical(fadd(b0, b1), b2);
        lemma_zero_when(across, fadd(fadd(b0, b1), b2));
        lemma_zero_when(across, value.limb(w, 0));
        lemma_zero_when(across, value.limb(w, 1));
        lemma_zero_when(across, value.limb(w, 2));
        assert(top == 120);
        assert(word_value(value, w) == 2013265920);
    } else {
        assert(top <= 119);
    }
    vstd::arithmetic::div_mod::lemma_small_mod(word_value(value, w) as nat, modulus() as nat);
}

} // verus!
