//! The KoalaBear prime is a prime.
use crate::algebra::element;
use vstd::arithmetic::div_mod;
use vstd::arithmetic::mul;
use vstd::arithmetic::power;
use vstd::prelude::*;

verus! {

/// `2^24`.
#[verifier::inline]
spec fn order() -> int {
    16777216
}

/// A residue of multiplicative order `2^24` modulo the prime.
#[verifier::inline]
spec fn root() -> int {
    1791270792
}

/// Congruent factors have congruent products.
pub proof fn lemma_mul_mod(a: int, b: int, m: int)
    requires
        m > 0,
    ensures
        (a % m) * (b % m) % m == a * b % m,
        (a % m) * b % m == a * b % m,
        a * (b % m) % m == a * b % m,
{
    div_mod::lemma_mul_mod_noop(a, b, m);
    div_mod::lemma_mul_mod_noop_left(a, b, m);
    div_mod::lemma_mul_mod_noop_right(a, b, m);
}

/// A factor that is 1 modulo `m` drops out.
pub proof fn lemma_mul_one_mod(a: int, b: int, m: int)
    requires
        m > 0,
        a % m == 1,
    ensures
        a * b % m == b % m,
{
    lemma_mul_mod(a, b, m);
    let c = a % m;
    assert(c * b == b) by (nonlinear_arith)
        requires
            c == 1,
    ;
}

/// The residue of a power with a doubled exponent.
pub proof fn lemma_square(b: int, n: nat, v: int, w: int, m: int)
    requires
        m > 0,
        power::pow(b, n) % m == v,
        v * v % m == w,
    ensures
        power::pow(b, 2 * n) % m == w,
{
    power::lemma_pow_adds(b, n, n);
    lemma_mul_mod(power::pow(b, n), power::pow(b, n), m);
}

/// The powers of the root by repeated squaring: the last is `-1`.
proof fn lemma_root_powers()
    ensures
        power::pow(root(), 8388608) % element::prime() == element::prime() - 1,
        power::pow(root(), 16777216) % element::prime() == 1,
{
    let p = element::prime();
    power::lemma_pow1(root());
    lemma_square(root(), 1, 1791270792, 1760025929, p);
    lemma_square(root(), 2, 1760025929, 542991299, p);
    lemma_square(root(), 4, 542991299, 1213133211, p);
    lemma_square(root(), 8, 1213133211, 1364057261, p);
    lemma_square(root(), 16, 1364057261, 339671193, p);
    lemma_square(root(), 32, 339671193, 1816824389, p);
    lemma_square(root(), 64, 1816824389, 373019801, p);
    lemma_square(root(), 128, 373019801, 1848593786, p);
    lemma_square(root(), 256, 1848593786, 1168510561, p);
    lemma_square(root(), 512, 1168510561, 1047035213, p);
    lemma_square(root(), 1024, 1047035213, 809067698, p);
    lemma_square(root(), 2048, 809067698, 1989134074, p);
    lemma_square(root(), 4096, 1989134074, 2000983452, p);
    lemma_square(root(), 8192, 2000983452, 860702919, p);
    lemma_square(root(), 16384, 860702919, 665670555, p);
    lemma_square(root(), 32768, 665670555, 392596362, p);
    lemma_square(root(), 65536, 392596362, 699882112, p);
    lemma_square(root(), 131072, 699882112, 1548376985, p);
    lemma_square(root(), 262144, 1548376985, 170455089, p);
    lemma_square(root(), 524288, 170455089, 148625052, p);
    lemma_square(root(), 1048576, 148625052, 1748172362, p);
    lemma_square(root(), 2097152, 1748172362, 2113994754, p);
    lemma_square(root(), 4194304, 2113994754, 2130706432, p);
    lemma_square(root(), 8388608, 2130706432, 1, p);
}

/// `x` and `y` leave the same remainder modulo every divisor of a common modulus.
pub proof fn lemma_mod_divisor(x: int, y: int, m: int, d: int)
    requires
        d > 0,
        m > 0,
        m % d == 0,
        x % m == y % m,
    ensures
        x % d == y % d,
{
    let k = m / d;
    div_mod::lemma_fundamental_div_mod(m, d);
    div_mod::lemma_fundamental_div_mod(x, m);
    div_mod::lemma_fundamental_div_mod(y, m);
    let q = x / m - y / m;
    assert(x - y == d * (k * q)) by (nonlinear_arith)
        requires
            x == m * (x / m) + x % m,
            y == m * (y / m) + x % m,
            m == d * k,
            q == x / m - y / m,
    ;
    div_mod::lemma_mod_multiples_vanish(k * q, y, d);
}

proof fn lemma_pow2_literals()
    ensures
        power::pow(2, 23) == 8388608,
        power::pow(2, 24) == 16777216,
{
    reveal_with_fuel(power::pow, 25);
}

proof fn lemma_half(m: nat, w: nat)
    requires
        0 < m < 16777216,
        w == 8388608,
        m % w == 0,
    ensures
        m == 8388608,
{
}

/// No power of the root with an exponent strictly between 0 and its order is 1.
proof fn lemma_root_order(d: int, m: nat, v: nat)
    requires
        d > 1,
        element::prime() % d == 0,
        0 < m < order(),
        v <= 23,
        m % power::pow(2, v) as nat == 0,
    ensures
        power::pow(root(), m) % d != 1,
    decreases 23 - v,
{
    broadcast use power::lemma_pow_positive;

    let b = root();
    let p = element::prime();
    lemma_root_powers();
    if power::pow(b, m) % d != 1 {
    } else if m == 8388608 {
        lemma_mod_divisor(power::pow(b, m), -1, p, d);
        assert((-1int) % d == 1);
        assert(2int % d == 0) by {
            div_mod::lemma_fundamental_div_mod(-1, d);
            let k = (-1int) / d;
            assert(2 == d * (-k)) by (nonlinear_arith)
                requires
                    -1 == d * k + 1,
            ;
            div_mod::lemma_mod_multiples_basic(-k, d);
            mul::lemma_mul_is_commutative(d, -k);
        }
        assert(d <= 2) by {
            if d > 2 {
                div_mod::lemma_small_mod(2, d as nat);
            }
        }
        assert(false);
    } else {
        let w = power::pow(2, v) as nat;
        power::lemma_pow_adds(b, m, m);
        div_mod::lemma_small_mod(1, d as nat);
        lemma_mul_one_mod(power::pow(b, m), power::pow(b, m), d);
        let n: nat = if 2 * m < order() {
            2 * m
        } else {
            (2 * m - order()) as nat
        };
        assert(power::pow(b, n) % d == 1) by {
            if 2 * m >= order() {
                power::lemma_pow_adds(b, order() as nat, n);
                lemma_mod_divisor(power::pow(b, order() as nat), 1, p, d);
                lemma_mul_one_mod(power::pow(b, order() as nat), power::pow(b, n), d);
            }
        }
        if v == 23 {
            lemma_pow2_literals();
            lemma_half(m, w);
        }
        assert(n % power::pow(2, v + 1) as nat == 0) by {
            power::lemma_pow_adds(2, v, 1);
            power::lemma_pow1(2);
            let w2 = 2 * w;
            assert(power::pow(2, v + 1) as nat == w2);
            div_mod::lemma_fundamental_div_mod(m as int, w as int);
            let k = m as int / w as int;
            assert(2 * m == w2 * k) by (nonlinear_arith)
                requires
                    m == w * k,
                    w2 == 2 * w,
            ;
            power::lemma_pow_adds(2, (v + 1) as nat, (23 - v) as nat);
            lemma_pow2_literals();
            let u = power::pow(2, (23 - v) as nat);
            assert(2 * m - order() == w2 * (k - u)) by (nonlinear_arith)
                requires
                    2 * m == w2 * k,
                    order() == w2 * u,
            ;
            div_mod::lemma_mod_multiples_basic(k, w2 as int);
            div_mod::lemma_mod_multiples_basic(k - u, w2 as int);
            mul::lemma_mul_is_commutative(w2 as int, k);
            mul::lemma_mul_is_commutative(w2 as int, k - u);
        }
        lemma_root_order(d, n, v + 1);
    }
}

/// Every divisor of the prime other than 1 is at least `2^24`.
proof fn lemma_divisor_large(d: int)
    requires
        d > 1,
        element::prime() % d == 0,
    ensures
        d >= order(),
{
    let b = root();
    let f = |m: int| power::pow(b, m as nat) % d;
    let exponents = vstd::set_lib::set_int_range(0, order());
    let residues = vstd::set_lib::set_int_range(0, d);
    vstd::set_lib::lemma_int_range(0, order());
    vstd::set_lib::lemma_int_range(0, d);
    assert forall|i: int, j: int| 0 <= i < j < order() implies #[trigger] f(i) != #[trigger] f(
        j,
    ) by {
        if f(i) == f(j) {
            let n = order() as nat;
            lemma_root_powers();
            div_mod::lemma_small_mod(1, d as nat);
            lemma_mod_divisor(power::pow(b, n), 1, element::prime(), d);
            let c = power::pow(b, (n - i) as nat);
            power::lemma_pow_adds(b, i as nat, (n - i) as nat);
            power::lemma_pow_adds(b, j as nat, (n - i) as nat);
            power::lemma_pow_adds(b, n, (j - i) as nat);
            lemma_mul_mod(power::pow(b, i as nat), c, d);
            lemma_mul_mod(power::pow(b, j as nat), c, d);
            lemma_mul_one_mod(power::pow(b, n), power::pow(b, (j - i) as nat), d);
            power::lemma_pow0(2);
            lemma_root_order(d, (j - i) as nat, 0);
        }
    }
    vstd::set_lib::lemma_map_size(exponents, exponents.map(f), f);
    assert(exponents.map(f).subset_of(residues));
    vstd::set_lib::lemma_len_subset(exponents.map(f), residues);
}

/// The modulus has no divisors but 1 and itself.
pub proof fn lemma_prime(d: int)
    requires
        1 < d < element::prime(),
    ensures
        element::prime() % d != 0,
{
    let p = element::prime();
    if p % d == 0 {
        lemma_divisor_large(d);
        let e = p / d;
        div_mod::lemma_fundamental_div_mod(p, d);
        assert(e > 1) by (nonlinear_arith)
            requires
                p == d * e,
                1 < d < p,
        ;
        div_mod::lemma_mod_multiples_basic(d, e);
        lemma_divisor_large(e);
        assert(d * e >= 16777216 * 16777216) by (nonlinear_arith)
            requires
                d >= 16777216,
                e >= 16777216,
        ;
    }
}

/// A product is a multiple of the prime only when a factor is.
pub proof fn lemma_euclid(a: int, b: int)
    requires
        a * b % element::prime() == 0,
    ensures
        a % element::prime() == 0 || b % element::prime() == 0,
{
    let p = element::prime();
    if a % p != 0 {
        lemma_mul_mod(a, b, p);
        lemma_euclid_below(a % p, b);
    }
}

proof fn lemma_euclid_below(a: int, b: int)
    requires
        0 < a < element::prime(),
        a * b % element::prime() == 0,
    ensures
        b % element::prime() == 0,
    decreases a,
{
    let p = element::prime();
    if a > 1 {
        lemma_prime(a);
        let r = p % a;
        let q = p / a;
        div_mod::lemma_fundamental_div_mod(p, a);
        let k = a * b / p;
        assert(r * b == p * (b - q * k)) by (nonlinear_arith)
            requires
                p == a * q + r,
                a * b == p * k,
        ;
        div_mod::lemma_mod_multiples_basic(b - q * k, p);
        lemma_euclid_below(r, b);
    }
}

} // verus!
