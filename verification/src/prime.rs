//! The order of the Baby Bear field is prime.
//!
//! What the constraints of a table enforce rests on the field having no
//! zero divisors: a product vanishes only where a factor does. This module
//! proves that for the order `p = 2013265921` from a generator of the
//! multiplicative group: the powers of 31 run through all `p - 1` residues
//! other than zero, so every such residue has an inverse.

use crate::field::{canonical, fmul, fsub, modulus};
use crate::prime_powers::{
    lemma_mm_associative, lemma_power_fifth, lemma_power_full, lemma_power_half,
    lemma_power_third, lemma_pw_add, lemma_pw_range, mm, pw,
};
use vstd::arithmetic::div_mod::{
    lemma_fundamental_div_mod, lemma_mul_mod_noop_general, lemma_small_mod,
};
use vstd::arithmetic::mul::lemma_mul_is_commutative;
use vstd::prelude::*;
use vstd::relations::injective_on;
use vstd::set_lib::{lemma_int_range, lemma_map_size, lemma_subset_equality, set_int_range};

verus! {

/// Two to the power `t`.
pub open spec fn two_to(t: nat) -> int
    decreases t,
{
    if t == 0 {
        1
    } else {
        2 * two_to((t - 1) as nat)
    }
}

/// The product of residues is commutative.
proof fn lemma_mm_commutative(x: int, y: int)
    ensures
        mm(x, y) == mm(y, x),
{
    lemma_mul_is_commutative(x, y);
}

/// Multiplying a residue by one changes nothing.
proof fn lemma_mm_one(x: int)
    requires
        0 <= x < modulus(),
    ensures
        mm(1, x) == x,
{
    assert(1 * x == x);
    lemma_small_mod(x as nat, modulus() as nat);
}

/// If a power of the generator is one, so is every power whose exponent is
/// a multiple of its exponent.
proof fn lemma_pw_multiple(e: nat, q: nat)
    requires
        pw(e) == 1,
    ensures
        pw(e * q) == 1,
    decreases q,
{
    if q == 0 {
        assert(e * 0 == 0);
    } else {
        lemma_pw_multiple(e, (q - 1) as nat);
        assert(e * q == e * (q - 1) + e) by (nonlinear_arith);
        assert(e * (q - 1) >= 0) by (nonlinear_arith)
            requires
                q >= 1,
        ;
        lemma_pw_add((e * (q - 1)) as nat, e);
        lemma_mm_one(1);
    }
}

/// An odd number times an odd number is odd.
proof fn lemma_odd_product(m: int, k: int)
    requires
        m % 2 == 1,
        k % 2 == 1,
    ensures
        (m * k) % 2 == 1,
{
    lemma_mul_mod_noop_general(m, k, 2);
}

/// An odd divisor of `2^t * x` divides `x`: if `m` is odd and
/// `m * k == 2^t * x`, then `k` is `2^t` times a number `j` with
/// `m * j == x`.
proof fn lemma_strip_twos(m: int, k: int, t: nat, x: int) -> (j: int)
    requires
        m % 2 == 1,
        m * k == two_to(t) * x,
    ensures
        m * j == x,
    decreases t,
{
    if t == 0 {
        k
    } else {
        let rest = two_to((t - 1) as nat) * x;
        assert(two_to(t) * x == 2 * rest) by (nonlinear_arith)
            requires
                two_to(t) == 2 * two_to((t - 1) as nat),
                rest == two_to((t - 1) as nat) * x,
        ;
        if k % 2 == 1 {
            lemma_odd_product(m, k);
        }
        let half = k / 2;
        assert(k == 2 * half);
        assert(m * half == rest) by (nonlinear_arith)
            requires
                m * k == 2 * rest,
                k == 2 * half,
        ;
        lemma_strip_twos(m, half, (t - 1) as nat, x)
    }
}

/// Every divisor of `p - 1` other than one is a multiple of two, three or
/// five: `p - 1` is `2^27 * 3 * 5`.
proof fn lemma_divisor_of_order(m: int, k: int)
    requires
        m >= 2,
        k >= 1,
        m * k == 2013265920,
    ensures
        m % 2 == 0 || m % 3 == 0 || m % 5 == 0,
{
    if m % 2 == 1 {
        assert(two_to(27) == 134217728) by {
            reveal_with_fuel(two_to, 28);
        }
        let j = lemma_strip_twos(m, k, 27, 15);
        assert(j >= 1 && m <= 15) by (nonlinear_arith)
            requires
                m * j == 15,
                m >= 2,
        ;
        if m == 7 {
            assert(7 * j == 15);
        } else if m == 9 {
            assert(9 * j == 15);
        } else if m == 11 {
            assert(11 * j == 15);
        } else if m == 13 {
            assert(13 * j == 15);
        }
    }
}

/// If `31^k` is one and `p - 1` is `k * q + r`, then `31^r` is one.
proof fn lemma_order_remainder(k: nat, q: nat, r: nat)
    requires
        pw(k) == 1,
        k * q + r == 2013265920,
    ensures
        pw(r) == 1,
{
    lemma_pw_multiple(k, q);
    lemma_pw_add(k * q, r);
    lemma_power_full();
    lemma_pw_range(r);
    lemma_mm_one(pw(r));
}

/// No proper divisor `k` of `p - 1` has `31^k` equal to one.
proof fn lemma_order_divisor(k: nat, q: int)
    requires
        q >= 2,
        k >= 1,
        q * k == 2013265920,
    ensures
        pw(k) != 1,
{
    if pw(k) == 1 {
        lemma_divisor_of_order(q, k as int);
        if q % 2 == 0 {
            let j = q / 2;
            assert(k * j == 1006632960) by (nonlinear_arith)
                requires
                    q * k == 2013265920,
                    q == 2 * j,
            ;
            lemma_pw_multiple(k, j as nat);
            lemma_power_half();
        } else if q % 3 == 0 {
            let j = q / 3;
            assert(k * j == 671088640) by (nonlinear_arith)
                requires
                    q * k == 2013265920,
                    q == 3 * j,
            ;
            lemma_pw_multiple(k, j as nat);
            lemma_power_third();
        } else {
            let j = q / 5;
            assert(k * j == 402653184) by (nonlinear_arith)
                requires
                    q * k == 2013265920,
                    q == 5 * j,
            ;
            lemma_pw_multiple(k, j as nat);
            lemma_power_fifth();
        }
    }
}

/// The generator has order `p - 1`: no smaller power of it is one.
proof fn lemma_order(k: nat)
    requires
        0 < k < 2013265920,
    ensures
        pw(k) != 1,
    decreases k,
{
    if pw(k) == 1 {
        let n = 2013265920int;
        let q = n / (k as int);
        let r = n % (k as int);
        lemma_fundamental_div_mod(n, k as int);
        assert(q >= 1 && (r == 0 ==> q >= 2)) by (nonlinear_arith)
            requires
                n == (k as int) * q + r,
                0 <= r < k,
                k < n,
                n == 2013265920,
        ;
        lemma_order_remainder(k, q as nat, r as nat);
        if r > 0 {
            lemma_order(r as nat);
        } else {
            assert(q * k == 2013265920) by (nonlinear_arith)
                requires
                    n == (k as int) * q + r,
                    r == 0,
                    n == 2013265920,
            ;
            lemma_order_divisor(k, q);
        }
    }
}

/// Every power of the generator has an inverse, and so is not zero.
proof fn lemma_pw_unit(k: nat)
    requires
        k <= 2013265920,
    ensures
        mm(pw(k), pw((2013265920 - k) as nat)) == 1,
        pw(k) != 0,
{
    lemma_pw_add(k, (2013265920 - k) as nat);
    lemma_power_full();
    if pw(k) == 0 {
        assert(0 * pw((2013265920 - k) as nat) == 0);
    }
}

/// Different exponents below `p - 1` give different powers.
proof fn lemma_pw_injective(i: nat, j: nat)
    requires
        i < j < 2013265920,
    ensures
        pw(i) != pw(j),
{
    if pw(i) == pw(j) {
        let n = 2013265920nat;
        let inverse = pw((n - i) as nat);
        let d = (j - i) as nat;
        lemma_pw_unit(i);
        lemma_pw_add(i, d);
        // pw(d) = 1 * pw(d) = inverse * pw(i) * pw(d) = inverse * pw(j) = 1
        lemma_mm_commutative(pw(i), inverse);
        lemma_mm_associative(inverse, pw(i), pw(d));
        lemma_pw_range(d);
        lemma_mm_one(pw(d));
        assert(pw(d) == 1);
        lemma_order(d);
    }
}

/// The power of the generator with the given exponent.
pub open spec fn pw_of(k: int) -> int {
    pw(k as nat)
}

/// Every residue other than zero is a power of the generator.
proof fn lemma_pw_surjective(a: int) -> (k: nat)
    requires
        0 < a < modulus(),
    ensures
        k < 2013265920,
        pw(k) == a,
{
    let exponents = set_int_range(0, 2013265920);
    let residues = set_int_range(1, 2013265921);
    let f = |k: int| pw_of(k);
    let powers = exponents.map(f);
    lemma_int_range(0, 2013265920);
    lemma_int_range(1, 2013265921);
    assert(injective_on(f, exponents)) by {
        assert forall|x1: int, x2: int|
            exponents.contains(x1) && exponents.contains(x2) && #[trigger] f(x1) == #[trigger] f(
                x2,
            ) implies x1 == x2 by {
            if x1 < x2 {
                lemma_pw_injective(x1 as nat, x2 as nat);
            } else if x2 < x1 {
                lemma_pw_injective(x2 as nat, x1 as nat);
            }
        }
    }
    lemma_map_size(exponents, powers, f);
    assert(powers.subset_of(residues)) by {
        assert forall|y: int| powers.contains(y) implies residues.contains(y) by {
            let x = choose|x: int| exponents.contains(x) && f(x) == y;
            lemma_pw_range(x as nat);
            lemma_pw_unit(x as nat);
        }
    }
    lemma_subset_equality(powers, residues);
    assert(residues.contains(a));
    assert(powers.contains(a));
    let k = choose|k: int| exponents.contains(k) && f(k) == a;
    k as nat
}

/// Every residue other than zero has an inverse.
pub proof fn lemma_inverse_exists(a: int) -> (b: int)
    requires
        0 < a < modulus(),
    ensures
        0 < b < modulus(),
        mm(a, b) == 1,
{
    let k = lemma_pw_surjective(a);
    let b = pw((2013265920 - k) as nat);
    lemma_pw_unit(k);
    lemma_pw_range((2013265920 - k) as nat);
    if b == 0 {
        assert(a * 0 == 0);
    }
    b
}

/// The field has no zero divisors: a product of two canonical field
/// elements is zero only if one of them is.
pub proof fn lemma_no_zero_divisors(a: int, c: int)
    requires
        canonical(a),
        canonical(c),
    ensures
        (fmul(a, c) == 0) == (a == 0 || c == 0),
{
    reveal(fmul);
    if a == 0 || c == 0 {
        assert(a * c == 0) by (nonlinear_arith)
            requires
                a == 0 || c == 0,
        ;
    } else if mm(a, c) == 0 {
        let b = lemma_inverse_exists(a);
        // c = 1 * c = (b * a) * c = b * (a * c) = b * 0 = 0
        lemma_mm_commutative(a, b);
        lemma_mm_associative(b, a, c);
        lemma_mm_one(c);
        assert(mm(b, 0) == 0) by {
            assert(b * 0 == 0);
        }
    }
}

/// The order of the field is prime: it is no product of two smaller
/// numbers.
pub proof fn lemma_modulus_is_prime(a: int, b: int)
    requires
        1 < a < modulus(),
        1 < b < modulus(),
    ensures
        a * b != modulus(),
{
    if a * b == modulus() {
        lemma_no_zero_divisors(a, b);
        reveal(fmul);
    }
}

/// A canonical field element satisfies `x * (x - 1) == 0` if and only if it
/// is zero or one.
pub proof fn lemma_boolean_values(x: int)
    requires
        canonical(x),
    ensures
        (fmul(x, fsub(x, 1)) == 0) == (x == 0 || x == 1),
{
    crate::field::lemma_field_ops_canonical(x, 1);
    crate::field::lemma_fsub_zero(x, 1);
    lemma_no_zero_divisors(x, fsub(x, 1));
}

} // verus!
