//! How often 2, 5 and 10 divide an integer, and the executable counters
//! used to strip trailing decimal zeros from a mantissa.

use vstd::prelude::*;
use vstd::arithmetic::power::*;
use vstd::arithmetic::div_mod::*;
use vstd::arithmetic::mul::*;

verus! {

/// The number of times 2 divides `n` (0 for `n == 0`).
pub open spec fn twos(n: nat) -> nat
    decreases n,
{
    if n > 0 && n % 2 == 0 {
        1 + twos(n / 2)
    } else {
        0
    }
}

/// The number of times 5 divides `n` (0 for `n == 0`).
pub open spec fn fives(n: nat) -> nat
    decreases n,
{
    if n > 0 && n % 5 == 0 {
        1 + fives(n / 5)
    } else {
        0
    }
}

/// The number of times 10 divides `n` (0 for `n == 0`): the number of
/// trailing zeros of its decimal representation.
pub open spec fn tens(n: nat) -> nat
    decreases n,
{
    if n > 0 && n % 10 == 0 {
        1 + tens(n / 10)
    } else {
        0
    }
}

/// The absolute value of `n`.
pub open spec fn abs(n: int) -> nat {
    if n < 0 {
        (-n) as nat
    } else {
        n as nat
    }
}

/// The number of trailing decimal zeros of the integer `n` (0 for `n == 0`).
pub open spec fn ten_valuation(n: int) -> nat {
    tens(abs(n))
}

/// `10^e`.
pub open spec fn pow10(e: nat) -> int {
    pow(10, e)
}

/// `pow(b, e + 1) == b * pow(b, e)`.
pub proof fn lemma_pow_succ(b: int, e: nat)
    ensures
        pow(b, e + 1) == b * pow(b, e),
{
    reveal(pow);
}

/// Multiplying by 5 does not change how often 2 divides a number.
proof fn lemma_twos_times_five(m: nat)
    requires
        m > 0,
    ensures
        twos(5 * m) == twos(m),
    decreases m,
{
    if m % 2 == 0 {
        let h = m / 2;
        assert(m == 2 * h);
        assert((5 * m) % 2 == 0);
        assert((5 * m) / 2 == 5 * h);
        lemma_twos_times_five(h);
    } else {
        assert((5 * m) % 2 != 0);
    }
}

/// Multiplying by 2 does not change how often 5 divides a number.
proof fn lemma_fives_times_two(m: nat)
    requires
        m > 0,
    ensures
        fives(2 * m) == fives(m),
    decreases m,
{
    if m % 5 == 0 {
        let h = m / 5;
        assert(m == 5 * h);
        assert((2 * m) % 5 == 0);
        assert((2 * m) / 5 == 2 * h);
        lemma_fives_times_two(h);
    } else {
        assert((2 * m) % 5 != 0);
    }
}

/// The decimal valuation is the smaller of the valuations at 2 and at 5.
pub proof fn lemma_tens_is_min(n: nat)
    requires
        n > 0,
    ensures
        tens(n) == if twos(n) < fives(n) { twos(n) } else { fives(n) },
    decreases n,
{
    if n % 10 == 0 {
        let m = n / 10;
        assert(n == 10 * m);
        assert(n % 2 == 0 && n / 2 == 5 * m);
        assert(n % 5 == 0 && n / 5 == 2 * m);
        lemma_twos_times_five(m);
        lemma_fives_times_two(m);
        lemma_tens_is_min(m);
    } else {
        assert(!(n % 2 == 0 && n % 5 == 0));
    }
}

/// `n` is `pow(5, fives(n))` times a factor that 5 does not divide.
pub proof fn lemma_fives_factor(n: nat)
    requires
        n > 0,
    ensures
        (n as int) % pow(5, fives(n)) == 0,
        ((n as int) / pow(5, fives(n))) % 5 != 0,
        pow(5, fives(n)) <= n,
    decreases n,
{
    let v = fives(n);
    if n % 5 == 0 {
        let m = n / 5;
        assert(n == 5 * m);
        lemma_fives_factor(m);
        let w = fives(m);
        let q: int = (m as int) / pow(5, w);
        lemma_pow_positive(5, w);
        lemma_fundamental_div_mod(m as int, pow(5, w));
        assert(m == pow(5, w) * q);
        lemma_pow_succ(5, w);
        assert(v == w + 1);
        assert(n == pow(5, v) * q) by {
            lemma_mul_is_associative(5, pow(5, w), q);
        }
        lemma_pow_positive(5, v);
        lemma_mod_multiples_basic(q, pow(5, v));
        lemma_mul_is_commutative(q, pow(5, v));
        lemma_div_multiples_vanish(q, pow(5, v));
        assert(q >= 1) by {
            if q <= 0 {
                lemma_mul_inequality(q, 0, pow(5, w));
                lemma_mul_is_commutative(q, pow(5, w));
            }
        }
        lemma_mul_inequality(1, q, pow(5, v));
    } else {
        reveal(pow);
        assert(pow(5, 0) == 1);
    }
}

/// The powers of ten up to `10^38`, the largest that an `i128` holds.
pub proof fn lemma_pow10_values()
    ensures
        pow10(0) == 1,
        pow10(28) == 10000000000000000000000000000,
        pow10(38) == 100000000000000000000000000000000000000,
        pow10(39) > i128::MAX,
{
    lemma_pow0(10);
    lemma_pow1(10);
    lemma_pow_adds(10, 1, 1);
    assert(pow10(2) == 100);
    lemma_pow_adds(10, 2, 2);
    assert(pow10(4) == 10000);
    lemma_pow_adds(10, 4, 4);
    assert(pow10(8) == 100000000);
    lemma_pow_adds(10, 8, 8);
    assert(pow10(16) == 10000000000000000);
    lemma_pow_adds(10, 16, 8);
    assert(pow10(24) == 1000000000000000000000000);
    lemma_pow_adds(10, 24, 4);
    lemma_pow_adds(10, 16, 16);
    assert(pow10(32) == 100000000000000000000000000000000);
    lemma_pow_adds(10, 32, 4);
    lemma_pow_adds(10, 36, 2);
    assert(pow10(38) == 100000000000000000000000000000000000000);
    lemma_pow_succ(10, 38);
}

/// `n` is `10^tens(n)` times a factor that 10 does not divide.
pub proof fn lemma_tens_factor(n: nat)
    requires
        n > 0,
    ensures
        (n as int) % pow10(tens(n)) == 0,
        ((n as int) / pow10(tens(n))) % 10 != 0,
        pow10(tens(n)) <= n,
    decreases n,
{
    let v = tens(n);
    if n % 10 == 0 {
        let m = n / 10;
        assert(n == 10 * m);
        lemma_tens_factor(m);
        let w = tens(m);
        let q: int = (m as int) / pow10(w);
        lemma_pow_positive(10, w);
        lemma_fundamental_div_mod(m as int, pow10(w));
        assert(m == pow10(w) * q);
        lemma_pow_succ(10, w);
        assert(v == w + 1);
        assert(n == pow10(v) * q) by {
            lemma_mul_is_associative(10, pow10(w), q);
        }
        lemma_pow_positive(10, v);
        lemma_mod_multiples_basic(q, pow10(v));
        lemma_mul_is_commutative(q, pow10(v));
        lemma_div_multiples_vanish(q, pow10(v));
        assert(q >= 1) by {
            if q <= 0 {
                lemma_mul_inequality(q, 0, pow10(w));
                lemma_mul_is_commutative(q, pow10(w));
            }
        }
        lemma_mul_inequality(1, q, pow10(v));
    } else {
        lemma_pow0(10);
    }
}

/// `10^k` divides `n` for every `k` up to `tens(n)`.
pub proof fn lemma_tens_divides(n: nat, k: nat)
    requires
        n > 0,
        k <= tens(n),
    ensures
        (n as int) == pow10(k) * ((n as int) / pow10(k)),
        (n as int) % pow10(k) == 0,
        0 < pow10(k) <= n,
    decreases n,
{
    lemma_pow_positive(10, k);
    if k == 0 {
        lemma_pow0(10);
        assert((n as int) / 1 == n);
        assert((n as int) % 1 == 0);
        assert(pow10(k) == 1);
        assert((n as int) == pow10(k) * ((n as int) / pow10(k)));
    } else {
        let m = n / 10;
        assert(n % 10 == 0);
        assert(n == 10 * m);
        lemma_tens_divides(m, (k - 1) as nat);
        let q: int = (m as int) / pow10((k - 1) as nat);
        lemma_pow_succ(10, (k - 1) as nat);
        assert(n == pow10(k) * q) by {
            lemma_mul_is_associative(10, pow10((k - 1) as nat), q);
        }
        lemma_mod_multiples_basic(q, pow10(k));
        lemma_mul_is_commutative(q, pow10(k));
        lemma_div_multiples_vanish(q, pow10(k));
        assert((n as int) / pow10(k) == q);
        assert((n as int) == pow10(k) * ((n as int) / pow10(k)));
    }
}

/// A non-zero multiple of `10^j` has at least `j` trailing decimal zeros.
pub proof fn lemma_tens_of_multiple(q: int, j: nat)
    requires
        q != 0,
    ensures
        ten_valuation(q * pow10(j)) >= j,
    decreases j,
{
    if j > 0 {
        let j1 = (j - 1) as nat;
        lemma_tens_of_multiple(q, j1);
        lemma_pow_succ(10, j1);
        lemma_pow_positive(10, j1);
        let r = q * pow10(j1);
        assert(q * pow10(j) == 10 * r) by {
            lemma_mul_is_associative(q, 10, pow10(j1));
            lemma_mul_is_associative(10, q, pow10(j1));
            lemma_mul_is_commutative(q, 10);
        }
        assert(r != 0) by {
            lemma_mul_nonzero(q, pow10(j1));
        }
        let n = abs(10 * r);
        assert(n == 10 * abs(r));
        assert(n % 10 == 0 && n / 10 == abs(r));
        assert(tens(n) == 1 + tens(abs(r)));
    }
}

/// Exact division commutes with the sign: when `p` divides `|n|`, it divides
/// `n`, and the quotient of `n` has the magnitude of the quotient of `|n|`.
pub proof fn lemma_signed_exact_division(n: int, p: int)
    requires
        p > 0,
        (abs(n) as int) == p * ((abs(n) as int) / p),
    ensures
        n == p * (n / p),
        n % p == 0,
        abs(n / p) == (abs(n) as int) / p,
        n >= 0 ==> n / p >= 0,
        n < 0 ==> n / p < 0,
{
    let q = (abs(n) as int) / p;
    if n >= 0 {
        lemma_mod_multiples_basic(q, p);
        lemma_mul_is_commutative(q, p);
    } else {
        assert(n == p * (-q)) by {
            lemma_mul_unary_negation(p, q);
            lemma_mul_is_commutative(p, -q);
            lemma_mul_is_commutative(p, q);
        }
        lemma_mul_is_commutative(-q, p);
        lemma_mod_multiples_basic(-q, p);
        lemma_div_multiples_vanish(-q, p);
        assert(q > 0) by {
            if q <= 0 {
                lemma_mul_inequality(q, 0, p);
                lemma_mul_is_commutative(q, p);
            }
        }
    }
    lemma_div_multiples_vanish(q, p);
    lemma_mul_is_commutative(q, p);
}

/// `pow(5, 64)` exceeds every `u128`.
proof fn lemma_pow5_64_exceeds_u128()
    ensures
        pow(5, 64) > u128::MAX,
{
    lemma_pow1(5);
    lemma_pow_adds(5, 1, 1);
    assert(pow(5, 2) == 25);
    lemma_pow_adds(5, 2, 2);
    assert(pow(5, 4) == 625);
    lemma_pow_adds(5, 4, 4);
    assert(pow(5, 8) == 390625);
    lemma_pow_adds(5, 8, 8);
    assert(pow(5, 16) == 152587890625);
    lemma_pow_adds(5, 16, 16);
    assert(pow(5, 32) == 23283064365386962890625);
    lemma_pow_adds(5, 32, 32);
    assert(pow(5, 64) == 542101086242752217003726400434970855712890625);
}

/// A `u128` is divisible by 5 fewer than 64 times.
pub proof fn lemma_fives_bound(n: u128)
    requires
        n > 0,
    ensures
        fives(n as nat) < 64,
{
    lemma_fives_factor(n as nat);
    if fives(n as nat) >= 64 {
        lemma_pow_increases(5, 64, fives(n as nat));
        lemma_pow5_64_exceeds_u128();
    }
}

/// Counts how often 5 divides the non-zero `n`.
pub fn trailing_fives(n: u128) -> (count: u32)
    requires
        n != 0,
    ensures
        count == fives(n as nat),
{
    let ghost n0 = n;
    let mut n = n;
    let mut count: u32 = 0;
    proof {
        lemma_fives_bound(n0);
    }
    while n % 5 == 0
        invariant
            n > 0,
            count + fives(n as nat) == fives(n0 as nat),
            fives(n0 as nat) < 64,
        decreases n,
    {
        assert(fives(n as nat) == 1 + fives((n / 5) as nat));
        n = n / 5;
        count = count + 1;
    }
    count
}

/// `2^twos(n)` divides into `n`, so it is at most `n`.
proof fn lemma_twos_bounded_power(n: nat)
    requires
        n > 0,
    ensures
        pow(2, twos(n)) <= n,
    decreases n,
{
    if n % 2 == 0 {
        let m = n / 2;
        lemma_twos_bounded_power(m);
        lemma_pow_succ(2, twos(m));
    } else {
        lemma_pow0(2);
    }
}

/// `pow(2, 128)` exceeds every `u128`.
proof fn lemma_pow2_128_exceeds_u128()
    ensures
        pow(2, 128) > u128::MAX,
{
    lemma_pow1(2);
    lemma_pow_adds(2, 1, 1);
    assert(pow(2, 2) == 4);
    lemma_pow_adds(2, 2, 2);
    assert(pow(2, 4) == 16);
    lemma_pow_adds(2, 4, 4);
    assert(pow(2, 8) == 256);
    lemma_pow_adds(2, 8, 8);
    assert(pow(2, 16) == 65536);
    lemma_pow_adds(2, 16, 16);
    assert(pow(2, 32) == 4294967296);
    lemma_pow_adds(2, 32, 32);
    assert(pow(2, 64) == 18446744073709551616);
    lemma_pow_adds(2, 64, 64);
    assert(pow(2, 128) == 340282366920938463463374607431768211456);
}

/// A `u128` is divisible by 2 fewer than 128 times.
proof fn lemma_twos_bound(n: u128)
    requires
        n > 0,
    ensures
        twos(n as nat) < 128,
{
    lemma_twos_bounded_power(n as nat);
    if twos(n as nat) >= 128 {
        lemma_pow_increases(2, 128, twos(n as nat));
        lemma_pow2_128_exceeds_u128();
    }
}

/// Counts the trailing zero bits of the non-zero `n`, as
/// `u128::trailing_zeros` does: how often 2 divides it.
fn trailing_zero_bits(n: u128) -> (bits: u32)
    requires
        n != 0,
    ensures
        bits == twos(n as nat),
{
    let ghost n0 = n;
    let mut n = n;
    let mut bits: u32 = 0;
    proof {
        lemma_twos_bound(n0);
    }
    while n % 2 == 0
        invariant
            n > 0,
            bits + twos(n as nat) == twos(n0 as nat),
            twos(n0 as nat) < 128,
        decreases n,
    {
        assert(twos(n as nat) == 1 + twos((n / 2) as nat));
        n = n / 2;
        bits = bits + 1;
    }
    bits
}

/// The magnitude of `n` as an unsigned integer, as `i128::unsigned_abs` gives it.
pub fn magnitude(n: i128) -> (m: u128)
    ensures
        m == abs(n as int),
{
    if n >= 0 {
        n as u128
    } else {
        let k: i128 = -(n + 1);
        (k as u128) + 1
    }
}

/// Counts the trailing decimal zeros of `n`: the largest `k` for which
/// `10^k` divides `n` (0 for `n == 0`).
pub fn trailing_pow10(n: i128) -> (k: u32)
    ensures
        k == ten_valuation(n as int),
{
    if n == 0 {
        return 0;
    }
    let n = magnitude(n);
    // A trailing decimal zero needs one factor of 2 and one factor of 5 (10 = 2 x 5).
    let bits = trailing_zero_bits(n);
    let fives = trailing_fives(n);
    proof {
        lemma_tens_is_min(n as nat);
    }
    if bits < fives {
        bits
    } else {
        fives
    }
}

/// `10^k` as an `i128`, as `10i128.pow(k)` computes it.
pub fn pow10_i128(k: u32) -> (p: i128)
    requires
        pow10(k as nat) <= i128::MAX,
    ensures
        p == pow10(k as nat),
{
    let mut p: i128 = 1;
    let mut i: u32 = 0;
    proof {
        lemma_pow0(10);
    }
    while i < k
        invariant
            i <= k,
            p == pow10(i as nat),
            pow10(k as nat) <= i128::MAX,
        decreases k - i,
    {
        proof {
            lemma_pow_succ(10, i as nat);
            lemma_pow_increases(10, (i + 1) as nat, k as nat);
            assert(pow10((i + 1) as nat) == 10 * pow10(i as nat));
            lemma_pow_positive(10, i as nat);
            assert(0 < p * 10 <= i128::MAX);
        }
        p = p * 10;
        i = i + 1;
    }
    p
}

} // verus!
