//! Prime numbers, and certificates that a number is one.
//!
//! Where an element has order `f` modulo every divisor of `n` other than 1, its powers are `f`
//! different residues, so every such divisor is at least `f`; and `n` is prime where the square
//! of `f` is above `n`.
use crate::algebra::number;
use vstd::arithmetic::div_mod;
use vstd::arithmetic::mul;
use vstd::arithmetic::power;
use vstd::prelude::*;

verus! {

/// The number has no divisors but 1 and itself.
pub open spec fn is_prime(n: int) -> bool {
    n > 1 && forall|d: int| 1 < d < n ==> #[trigger] (n % d) != 0
}

/// Modulo a prime, every number but the multiples of the prime has an inverse.
pub proof fn lemma_inverse(q: int, m: int) -> (x: int)
    requires
        is_prime(q),
        m % q != 0,
    ensures
        0 <= x < q,
        x * m % q == 1,
{
    let a = m % q;
    let y = lemma_inverse_below(q, a);
    let x = y % q;
    number::lemma_mul_mod(y, a, q);
    number::lemma_mul_mod(x, m, q);
    x
}

proof fn lemma_inverse_below(q: int, a: int) -> (x: int)
    requires
        is_prime(q),
        0 < a < q,
    ensures
        x * a % q == 1,
    decreases a,
{
    if a == 1 {
        div_mod::lemma_small_mod(1, q as nat);
        1
    } else {
        assert(q % a != 0);
        let r = q % a;
        let k = q / a;
        div_mod::lemma_fundamental_div_mod(q, a);
        let y = lemma_inverse_below(q, r);
        let x = -y * k;
        assert(x * a == y * r + q * (-y)) by (nonlinear_arith)
            requires
                q == a * k + r,
                x == -y * k,
        ;
        div_mod::lemma_mod_multiples_vanish(-y, y * r, q);
        x
    }
}

/// A product is a multiple of a prime only when a factor is.
pub proof fn lemma_euclid(q: int, a: int, b: int)
    requires
        is_prime(q),
        a * b % q == 0,
    ensures
        a % q == 0 || b % q == 0,
{
    if a % q != 0 {
        let x = lemma_inverse(q, a);
        number::lemma_mul_one_mod(x * a, b, q);
        let k = a * b / q;
        div_mod::lemma_fundamental_div_mod(a * b, q);
        assert((x * a) * b == (x * k) * q) by (nonlinear_arith)
            requires
                a * b == q * k,
        ;
        div_mod::lemma_mod_multiples_basic(x * k, q);
    }
}

/// Modulo `d`, a power that is 1 stays 1.
proof fn lemma_power_of_one(b: int, m: nat, x: nat, d: int)
    requires
        d > 1,
        power::pow(b, m) % d == 1,
    ensures
        power::pow(b, m * x) % d == 1,
    decreases x,
{
    if x == 0 {
        assert(m * x == 0) by (nonlinear_arith)
            requires
                x == 0,
        ;
        power::lemma_pow0(b);
        div_mod::lemma_small_mod(1, d as nat);
    } else {
        let y = (x - 1) as nat;
        lemma_power_of_one(b, m, y, d);
        assert(m * x == m + m * y) by (nonlinear_arith)
            requires
                x == y + 1,
        ;
        power::lemma_pow_adds(b, m, m * y);
        number::lemma_mul_one_mod(power::pow(b, m), power::pow(b, m * y), d);
    }
}

/// Where the powers with exponents `e m` and `e q` are 1 for a prime `q` that does not divide
/// `m`, the power with exponent `e` is 1.
proof fn lemma_common_power(b: int, e: nat, m: nat, q: nat, d: int)
    requires
        d > 1,
        is_prime(q as int),
        m as int % q as int != 0,
        power::pow(b, e * m) % d == 1,
        power::pow(b, e * q) % d == 1,
    ensures
        power::pow(b, e) % d == 1,
{
    let x = lemma_inverse(q as int, m as int) as nat;
    let y = x * m / q;
    div_mod::lemma_fundamental_div_mod((x * m) as int, q as int);
    assert(x * m == q * y + 1);
    lemma_power_of_one(b, e * m, x, d);
    lemma_power_of_one(b, e * q, y, d);
    assert((e * m) * x == (e * q) * y + e) by (nonlinear_arith)
        requires
            x * m == q * y + 1,
    ;
    power::lemma_pow_adds(b, (e * q) * y, e);
    number::lemma_mul_one_mod(power::pow(b, (e * q) * y), power::pow(b, e), d);
}

/// An element that differs from 1 by a unit modulo `n` differs from 1 modulo every divisor.
proof fn lemma_not_one(v: int, u: int, n: int, d: int)
    requires
        d > 1,
        n > 0,
        n % d == 0,
        (v - 1) * u % n == 1,
    ensures
        v % d != 1,
{
    if v % d == 1 {
        let k = n / d;
        div_mod::lemma_fundamental_div_mod(n, d);
        div_mod::lemma_fundamental_div_mod(v, d);
        div_mod::lemma_fundamental_div_mod((v - 1) * u, n);
        let c = v / d;
        let w = (v - 1) * u / n;
        assert(1 == d * (c * u - k * w)) by (nonlinear_arith)
            requires
                n == d * k,
                v == d * c + 1,
                (v - 1) * u == n * w + 1,
        ;
        assert(d <= 1) by (nonlinear_arith)
            requires
                1 == d * (c * u - k * w),
                d > 1,
        ;
    }
}

/// The residues modulo a divisor of congruent numbers.
proof fn lemma_divisor_one(v: int, n: int, d: int)
    requires
        d > 1,
        n > 1,
        n % d == 0,
        v % n == 1,
    ensures
        v % d == 1,
{
    div_mod::lemma_small_mod(1, n as nat);
    div_mod::lemma_small_mod(1, d as nat);
    number::lemma_mod_divisor(v, 1, n, d);
}

/// A divisor modulo which an element has order `f` is at least `f`.
proof fn lemma_divisor_large(b: int, f: nat, n: int, d: int)
    requires
        d > 1,
        n > 1,
        n % d == 0,
        power::pow(b, f) % n == 1,
        forall|m: nat| 0 < m < f ==> #[trigger] power::pow(b, m) % d != 1,
    ensures
        d >= f,
{
    let power = |m: int| power::pow(b, m as nat) % d;
    let exponents = vstd::set_lib::set_int_range(0, f as int);
    let residues = vstd::set_lib::set_int_range(0, d);
    vstd::set_lib::lemma_int_range(0, f as int);
    vstd::set_lib::lemma_int_range(0, d);
    assert forall|i: int, j: int| 0 <= i < j < f implies #[trigger] power(i) != #[trigger] power(
        j,
    ) by {
        if power(i) == power(j) {
            lemma_divisor_one(power::pow(b, f), n, d);
            let c = power::pow(b, (f - i) as nat);
            power::lemma_pow_adds(b, i as nat, (f - i) as nat);
            power::lemma_pow_adds(b, j as nat, (f - i) as nat);
            power::lemma_pow_adds(b, f, (j - i) as nat);
            number::lemma_mul_mod(power::pow(b, i as nat), c, d);
            number::lemma_mul_mod(power::pow(b, j as nat), c, d);
            number::lemma_mul_one_mod(power::pow(b, f), power::pow(b, (j - i) as nat), d);
            let m = (j - i) as nat;
            assert(power::pow(b, m) % d != 1);
        }
    }
    vstd::set_lib::lemma_map_size(exponents, exponents.map(power), power);
    assert(exponents.map(power).subset_of(residues));
    vstd::set_lib::lemma_len_subset(exponents.map(power), residues);
}

/// A number whose divisors other than 1 are all at least `f` is prime where `f^2` is above it.
proof fn lemma_large_divisors(n: int, f: int)
    requires
        n > 1,
        f > 0,
        f * f > n,
        forall|d: int| 1 < d && #[trigger] (n % d) == 0 ==> d >= f,
    ensures
        is_prime(n),
{
    assert forall|d: int| 1 < d < n implies #[trigger] (n % d) != 0 by {
        if n % d == 0 {
            let e = n / d;
            div_mod::lemma_fundamental_div_mod(n, d);
            assert(e > 1) by (nonlinear_arith)
                requires
                    n == d * e,
                    1 < d < n,
            ;
            div_mod::lemma_mod_multiples_basic(d, e);
            assert(n % e == 0);
            assert(d * e >= f * f) by (nonlinear_arith)
                requires
                    d >= f,
                    e >= f,
                    f > 0,
            ;
        }
    }
}

/// A certificate with one prime `q` whose square is above `n`: an element with `b^q = 1` that
/// differs from 1 by a unit.
pub proof fn lemma_prime_by_one(n: int, q: nat, b: int, u: int)
    requires
        n > 1,
        is_prime(q as int),
        q * q > n,
        power::pow(b, q) % n == 1,
        (b - 1) * u % n == 1,
    ensures
        is_prime(n),
{
    assert forall|d: int| 1 < d && #[trigger] (n % d) == 0 implies d >= q by {
        lemma_divisor_one(power::pow(b, q), n, d);
        lemma_not_one(b, u, n, d);
        power::lemma_pow1(b);
        assert forall|m: nat| 0 < m < q implies #[trigger] power::pow(b, m) % d != 1 by {
            if power::pow(b, m) % d == 1 {
                div_mod::lemma_small_mod(m, q);
                assert(1 * m == m && 1 * q == q);
                lemma_common_power(b, 1, m, q, d);
            }
        }
        lemma_divisor_large(b, q, n, d);
    }
    lemma_large_divisors(n, q as int);
}

/// A certificate with two primes `q` and `s`, the square of whose product is above `n`: an
/// element with `b^(q s) = 1` whose powers with the exponents `q` and `s` differ from 1 by units.
pub proof fn lemma_prime_by_two(n: int, q: nat, s: nat, b: int, u: int, w: int)
    requires
        n > 1,
        is_prime(q as int),
        is_prime(s as int),
        q != s,
        (q * s) * (q * s) > n,
        power::pow(b, q * s) % n == 1,
        (power::pow(b, s) % n - 1) * u % n == 1,
        (power::pow(b, q) % n - 1) * w % n == 1,
    ensures
        is_prime(n),
{
    let f = q * s;
    assert forall|d: int| 1 < d && #[trigger] (n % d) == 0 implies d >= f by {
        lemma_divisor_one(power::pow(b, f), n, d);
        lemma_not_one(power::pow(b, s) % n, u, n, d);
        lemma_not_one(power::pow(b, q) % n, w, n, d);
        div_mod::lemma_mod_twice(power::pow(b, s), n);
        div_mod::lemma_mod_twice(power::pow(b, q), n);
        number::lemma_mod_divisor(power::pow(b, s), power::pow(b, s) % n, n, d);
        number::lemma_mod_divisor(power::pow(b, q), power::pow(b, q) % n, n, d);
        assert forall|m: nat| 0 < m < f implies #[trigger] power::pow(b, m) % d != 1 by {
            if power::pow(b, m) % d == 1 {
                lemma_order_two(b, q, s, m, d);
            }
        }
        lemma_divisor_large(b, f, n, d);
    }
    assert(f > 0) by (nonlinear_arith)
        requires
            f == q * s,
            q > 1,
            s > 1,
    ;
    lemma_large_divisors(n, f as int);
}

proof fn lemma_order_two(b: int, q: nat, s: nat, m: nat, d: int)
    requires
        d > 1,
        is_prime(q as int),
        is_prime(s as int),
        q != s,
        0 < m < q * s,
        power::pow(b, q * s) % d == 1,
        power::pow(b, m) % d == 1,
    ensures
        power::pow(b, s) % d == 1 || power::pow(b, q) % d == 1,
{
    if m as int % q as int != 0 {
        lemma_power_of_one(b, m, s, d);
        mul::lemma_mul_is_commutative(m as int, s as int);
        mul::lemma_mul_is_commutative(q as int, s as int);
        lemma_common_power(b, s, m, q, d);
    } else if m as int % s as int != 0 {
        lemma_power_of_one(b, m, q, d);
        mul::lemma_mul_is_commutative(m as int, q as int);
        lemma_common_power(b, q, m, s, d);
    } else {
        let k = m as int / q as int;
        div_mod::lemma_fundamental_div_mod(m as int, q as int);
        lemma_euclid(s as int, q as int, k);
        if q as int % s as int == 0 {
            if s < q {
                assert(q as int % s as int != 0);
            } else {
                div_mod::lemma_small_mod(q, s);
            }
        } else {
            let j = k / s as int;
            div_mod::lemma_fundamental_div_mod(k, s as int);
            assert(false) by (nonlinear_arith)
                requires
                    m == q * k,
                    k == s * j,
                    0 < m < q * s,
                    q > 0,
                    s > 0,
            ;
        }
    }
}

/// The residue of a power whose exponent is the sum of two others.
pub proof fn lemma_power_step(
    b: int,
    e1: nat,
    v1: int,
    e2: nat,
    v2: int,
    e: nat,
    w: int,
    k: int,
    m: int,
)
    requires
        power::pow(b, e1) % m == v1,
        power::pow(b, e2) % m == v2,
        e == e1 + e2,
        v1 * v2 == k * m + w,
        0 <= w < m,
    ensures
        power::pow(b, e) % m == w,
{
    power::lemma_pow_adds(b, e1, e2);
    number::lemma_mul_mod(power::pow(b, e1), power::pow(b, e2), m);
    div_mod::lemma_mod_multiples_vanish(k, w, m);
    mul::lemma_mul_is_commutative(k, m);
    div_mod::lemma_small_mod(w as nat, m as nat);
}

/// The residue of a product, by its quotient.
pub proof fn lemma_residue_one(a: int, b: int, k: int, m: int)
    requires
        m > 1,
        a * b == k * m + 1,
    ensures
        a * b % m == 1,
{
    div_mod::lemma_mod_multiples_vanish(k, 1, m);
    mul::lemma_mul_is_commutative(k, m);
    div_mod::lemma_small_mod(1, m as nat);
}

} // verus!
