//! What a Schnorr signature on the septic curve has to satisfy.
use crate::algebra::curve::Point;
use crate::algebra::element::Fe;
use crate::algebra::group;
use crate::algebra::order;
use crate::bytes;
use crate::digest;
use crate::laws::texts;
use crate::septic::batch;
use crate::septic::point;
use crate::septic::point::SepticPoint;
use crate::septic::scalar;
use crate::septic::schnorr;
use crate::septic::schnorr::SepticBenchWitness;
use crate::session;
use vstd::arithmetic::power2;
use vstd::prelude::*;

verus! {

/// The point whose coordinates have the given coefficients, lowest power first.
pub open spec fn point_at(x: Seq<u32>, y: Seq<u32>) -> Point {
    Point::Affine {
        x: Fe {
            c0: x[0] as int,
            c1: x[1] as int,
            c2: x[2] as int,
            c3: x[3] as int,
            c4: x[4] as int,
            c5: x[5] as int,
            c6: x[6] as int,
        },
        y: Fe {
            c0: y[0] as int,
            c1: y[1] as int,
            c2: y[2] as int,
            c3: y[3] as int,
            c4: y[4] as int,
            c5: y[5] as int,
            c6: y[6] as int,
        },
    }
}

/// The integer with eight limbs, lowest first.
pub open spec fn number(w: Seq<u32>) -> int {
    w[0] + 0x1_0000_0000 * w[1] + 0x1_0000_0000_0000_0000 * w[2]
        + 0x1_0000_0000_0000_0000_0000_0000int * w[3]
        + 0x1_0000_0000_0000_0000_0000_0000_0000_0000int * w[4]
        + 0x1_0000_0000_0000_0000_0000_0000_0000_0000_0000_0000int * w[5]
        + 0x1_0000_0000_0000_0000_0000_0000_0000_0000_0000_0000_0000_0000int * w[6]
        + 0x1_0000_0000_0000_0000_0000_0000_0000_0000_0000_0000_0000_0000_0000_0000int * w[7]
}

/// `s G + e A = R`.
pub open spec fn signature_holds(a: Point, s: int, e: int, r: Point) -> bool {
    order::generator().times(s as nat).plus(a.times(e as nat)) == r
}

/// The value of eight limbs.
pub proof fn lemma_number(w: Seq<u32>)
    requires
        w.len() == 8,
    ensures
        scalar::value(w) == number(w),
        number(w) >= 0,
{
    scalar::lemma_value_8(w);
}

/// A signature verifies for a key of the curve exactly when its equation holds, and never for a
/// key whose coordinates are not canonical.
pub proof fn lemma_verifies(
    key: SepticPoint,
    r_x: Seq<u32>,
    r_y: Seq<u32>,
    s: Seq<u32>,
    e: Seq<u32>,
)
    requires
        s.len() == 8,
        e.len() == 8,
    ensures
        key@.valid() ==> (schnorr::verifies(key, r_x, r_y, s, e) <==> signature_holds(
            key@,
            number(s),
            number(e),
            point_at(r_x, r_y),
        )),
        !key@.canonical() ==> !schnorr::verifies(key, r_x, r_y, s, e),
{
    lemma_number(s);
    lemma_number(e);
    if key@.valid() {
        point::lemma_double_and_add(Point::Infinity, key@, number(e) as nat);
        assert(Point::Infinity.plus(key@.times(number(e) as nat)) == key@.times(number(e) as nat));
    }
}

/// A multiple of a point by doubling and adding: `bases[i]` is the point doubled `i` times, and
/// `sums[i]` is the sum of those among the first `i` whose bit in the factor is set.
pub open spec fn ladder(bases: Seq<Point>, sums: Seq<Point>, a: Point, n: int, bits: nat) -> bool {
    &&& bases.len() == bits + 1
    &&& sums.len() == bits + 1
    &&& bases[0] == a
    &&& sums[0] == Point::Infinity
    &&& forall|i: int|
        0 <= i < bits ==> (#[trigger] bases[i + 1]) == bases[i].doubled() && sums[i + 1] == if n
            / power2::pow2(i as nat) as int % 2 == 1 {
            sums[i].plus(bases[i])
        } else {
            sums[i]
        }
}

proof fn lemma_ladder_step(
    bases: Seq<Point>,
    sums: Seq<Point>,
    a: Point,
    n: int,
    bits: nat,
    i: int,
)
    requires
        ladder(bases, sums, a, n, bits),
        0 <= n < power2::pow2(bits),
        0 <= i <= bits,
    ensures
        point::double_and_add(
            sums[i],
            bases[i],
            (n / power2::pow2(i as nat) as int) as nat,
        ) == sums[bits as int],
    decreases bits - i,
{
    let p = power2::pow2(i as nat) as int;
    power2::lemma_pow2_pos(i as nat);
    let m = n / p;
    vstd::arithmetic::div_mod::lemma_div_pos_is_pos(n, p);
    if i == bits {
        vstd::arithmetic::div_mod::lemma_basic_div(n, p);
    } else {
        lemma_ladder_step(bases, sums, a, n, bits, i + 1);
        power2::lemma_pow2_unfold((i + 1) as nat);
        vstd::arithmetic::div_mod::lemma_div_denominator(n, p, 2);
        assert(p * 2 == 2 * p);
        assert(n / power2::pow2((i + 1) as nat) as int == m / 2);
        let _ = bases[i + 1];
        if m == 0 {
            lemma_ladder_rest(bases, sums, a, n, bits, i);
        }
    }
}

proof fn lemma_ladder_rest(
    bases: Seq<Point>,
    sums: Seq<Point>,
    a: Point,
    n: int,
    bits: nat,
    i: int,
)
    requires
        ladder(bases, sums, a, n, bits),
        0 <= i <= bits,
        n >= 0,
        n / power2::pow2(i as nat) as int == 0,
    ensures
        sums[i] == sums[bits as int],
    decreases bits - i,
{
    if i < bits {
        let p = power2::pow2(i as nat) as int;
        power2::lemma_pow2_pos(i as nat);
        power2::lemma_pow2_unfold((i + 1) as nat);
        vstd::arithmetic::div_mod::lemma_div_denominator(n, p, 2);
        assert(p * 2 == 2 * p);
        assert(n / power2::pow2((i + 1) as nat) as int == 0);
        let _ = bases[i + 1];
        lemma_ladder_rest(bases, sums, a, n, bits, i + 1);
    }
}

/// A signature verifies for any key with canonical coordinates, on the curve or not, exactly when
/// the commitment is `s G` plus the key multiplied by the challenge bit by bit.
pub proof fn lemma_verifies_any(
    key: SepticPoint,
    r_x: Seq<u32>,
    r_y: Seq<u32>,
    s: Seq<u32>,
    e: Seq<u32>,
    bases: Seq<Point>,
    sums: Seq<Point>,
)
    requires
        s.len() == 8,
        e.len() == 8,
        ladder(bases, sums, key@, number(e), 256),
    ensures
        schnorr::verifies(key, r_x, r_y, s, e) <==> key@.canonical() && order::generator().times(
            number(s) as nat,
        ).plus(sums[256]) == point_at(r_x, r_y),
{
    lemma_number(s);
    lemma_number(e);
    scalar::lemma_value_bound(e);
    scalar::lemma_radix_power(8);
    lemma_ladder_step(bases, sums, key@, number(e), 256, 0);
    power2::lemma2_to64();
}

/// The signature with commitment `r` and response `s` is accepted for the key `a` with the
/// challenge `e`: the key is canonical and `s G + e A = R`.  Of a key that is not on the curve the
/// multiple is the sum of the doubled keys whose bit is set.
pub open spec fn accepted(a: Point, s: int, e: int, r: Point) -> bool {
    a.canonical() && if a.on_curve() {
        signature_holds(a, s, e, r)
    } else {
        exists|bases: Seq<Point>, sums: Seq<Point>| #[trigger]
            ladder(bases, sums, a, e, 256) && order::generator().times(s as nat).plus(sums[256])
                == r
    }
}

spec fn doubled_up(a: Point, i: nat) -> Point
    decreases i,
{
    if i == 0 {
        a
    } else {
        doubled_up(a, (i - 1) as nat).doubled()
    }
}

spec fn summed_up(a: Point, n: int, i: nat) -> Point
    decreases i,
{
    if i == 0 {
        Point::Infinity
    } else {
        let k = (i - 1) as nat;
        if n / power2::pow2(k) as int % 2 == 1 {
            summed_up(a, n, k).plus(doubled_up(a, k))
        } else {
            summed_up(a, n, k)
        }
    }
}

/// A signature verifies exactly when it is accepted.
pub proof fn lemma_accepted(
    key: SepticPoint,
    r_x: Seq<u32>,
    r_y: Seq<u32>,
    s: Seq<u32>,
    e: Seq<u32>,
)
    requires
        s.len() == 8,
        e.len() == 8,
    ensures
        schnorr::verifies(key, r_x, r_y, s, e) <==> accepted(
            key@,
            number(s),
            number(e),
            point_at(r_x, r_y),
        ),
{
    let a = key@;
    let n = number(e);
    lemma_verifies(key, r_x, r_y, s, e);
    let bases = Seq::new(257, |i: int| doubled_up(a, i as nat));
    let sums = Seq::new(257, |i: int| summed_up(a, n, i as nat));
    assert forall|i: int| 0 <= i < 256 implies (#[trigger] bases[i + 1]) == bases[i].doubled()
        && sums[i + 1] == if n / power2::pow2(i as nat) as int % 2 == 1 {
        sums[i].plus(bases[i])
    } else {
        sums[i]
    } by {
        assert(((i + 1) - 1) as nat == i as nat);
    }
    assert(ladder(bases, sums, a, n, 256));
    lemma_verifies_any(key, r_x, r_y, s, e, bases, sums);
    if accepted(a, number(s), n, point_at(r_x, r_y)) && !a.on_curve() {
        let (b, t) = choose|b: Seq<Point>, t: Seq<Point>| #[trigger]
            ladder(b, t, a, n, 256) && order::generator().times(number(s) as nat).plus(t[256])
                == point_at(r_x, r_y);
        lemma_verifies_any(key, r_x, r_y, s, e, b, t);
    }
}

/// The public key of a Schnorr order.
pub open spec fn key_of(w: SepticBenchWitness) -> Point {
    point_at(w.order.pubkey_x.0@, w.order.pubkey_y.0@)
}

/// The commitment of a Schnorr order.
pub open spec fn commitment_of(w: SepticBenchWitness) -> Point {
    point_at(w.order.signature.r_x.0@, w.order.signature.r_y.0@)
}

/// `s G + e A = R` for the parts of a Schnorr order.
pub open spec fn bench_holds(w: SepticBenchWitness) -> bool {
    signature_holds(
        key_of(w),
        number(w.order.signature.s@),
        number(w.challenge_e@),
        commitment_of(w),
    )
}

/// The signature of a Schnorr order is accepted.
pub open spec fn bench_accepted(w: SepticBenchWitness) -> bool {
    accepted(
        key_of(w),
        number(w.order.signature.s@),
        number(w.challenge_e@),
        commitment_of(w),
    )
}

/// The check of a Schnorr order succeeds exactly when its signature is accepted.
pub proof fn lemma_bench_accepted(w: SepticBenchWitness)
    ensures
        batch::bench_verifies(w) <==> bench_accepted(w),
{
    lemma_accepted(
        batch::bench_pubkey(w),
        w.order.signature.r_x.0@,
        w.order.signature.r_y.0@,
        w.order.signature.s@,
        w.challenge_e@,
    );
    assert(batch::bench_pubkey(w)@ == key_of(w));
}

/// The check of a Schnorr order succeeds exactly when its equation holds.
pub proof fn lemma_bench(w: SepticBenchWitness)
    ensures
        key_of(w).valid() ==> (batch::bench_verifies(w) <==> bench_holds(w)),
        !key_of(w).canonical() ==> !batch::bench_verifies(w),
{
    lemma_verifies(
        batch::bench_pubkey(w),
        w.order.signature.r_x.0@,
        w.order.signature.r_y.0@,
        w.order.signature.s@,
        w.challenge_e@,
    );
    assert(batch::bench_pubkey(w)@ == key_of(w));
}

/// What the challenge of a signature hashes: 28 bytes of the first coordinate of the commitment,
/// 28 of that of the key, and the hash of the message.
pub open spec fn challenge_reads(
    b: Seq<u8>,
    r_x: Seq<u32>,
    pubkey_x: Seq<u32>,
    msg_hash: Seq<u8>,
) -> bool {
    &&& b.len() == 56 + msg_hash.len()
    &&& texts::holds_words(b.subrange(0, 28), r_x)
    &&& texts::holds_words(b.subrange(28, 56), pubkey_x)
    &&& b.subrange(56, b.len() as int) == msg_hash
}

/// The challenge is the digest of these bytes, read with the highest byte first, modulo the order
/// of the group.
pub proof fn lemma_challenge(b: Seq<u8>, r_x: Seq<u32>, pubkey_x: Seq<u32>, msg_hash: Seq<u8>)
    requires
        challenge_reads(b, r_x, pubkey_x, msg_hash),
    ensures
        schnorr::challenge(r_x, pubkey_x, msg_hash) == bytes::be_value(digest::sha_256(b))
            % 199372529839252601278447397890876471698671718266839763841250021879int,
{
    texts::lemma_words(b.subrange(0, 28), r_x);
    texts::lemma_words(b.subrange(28, 56), pubkey_x);
    assert(b =~= b.subrange(0, 28) + b.subrange(28, 56) + b.subrange(56, b.len() as int));
}

/// The hash of an order is the digest of its text.
pub proof fn lemma_order_hash(
    t: Seq<char>,
    market: Seq<char>,
    side: Seq<char>,
    price: u64,
    quantity: u64,
    account: Seq<u8>,
)
    requires
        texts::order_reads(t, market, side, price, quantity, account),
    ensures
        session::order_hash(market, side, price, quantity, account) == digest::sha_256(
            vstd::utf8::encode_utf8(t),
        ),
{
    texts::lemma_order_text(t, market, side, price, quantity, account);
}

/// A response of the signer: with the key `a G`, the commitment `k G` and `s = k - e a` modulo the
/// order of the group, the equation holds; with another response below the order it does not.
pub proof fn lemma_response(a: nat, k: nat, e: nat, s: nat)
    requires
        s < order::group_order(),
    ensures
        signature_holds(
            order::generator().times(a),
            s as int,
            e as int,
            order::generator().times(k),
        ) <==> s as int == (k - e * a) % (order::group_order() as int),
{
    let g = order::generator();
    let r = order::group_order() as int;
    let t = (k - e * a) % r;
    order::lemma_generator();
    group::lemma_times_closed(g, a);
    point::lemma_double_and_add(Point::Infinity, g.times(a), e);
    schnorr::lemma_schnorr(a, k, e, t as nat);
    assert(Point::Infinity.plus(g.times(a).times(e)) == g.times(a).times(e));
    assert(signature_holds(g.times(a), t, e as int, g.times(k)));
    if signature_holds(g.times(a), s as int, e as int, g.times(k)) && s != t {
        let q = g.times(a).times(e);
        group::lemma_times_closed(g.times(a), e);
        group::lemma_times_closed(g, s);
        group::lemma_times_closed(g, t as nat);
        crate::algebra::curve::lemma_plus_minus(g.times(s), q);
        crate::algebra::curve::lemma_plus_minus(g.times(t as nat), q);
        assert(g.times(s) == g.times(t as nat));
        if s > t {
            lemma_multiples_differ(t as nat, s);
        } else {
            lemma_multiples_differ(s, t as nat);
        }
    }
}

/// Below the order of the group, different multiples of the generator differ.
pub proof fn lemma_multiples_differ(m: nat, n: nat)
    requires
        m < n < order::group_order(),
    ensures
        order::generator().times(m) != order::generator().times(n),
{
    let g = order::generator();
    let d = (n - m) as nat;
    order::lemma_generator();
    group::lemma_times_add(g, d, m);
    assert(d + m == n);
    group::lemma_times_closed(g, d);
    group::lemma_times_closed(g, m);
    crate::algebra::curve::lemma_plus_minus(g.times(d), g.times(m));
    crate::algebra::curve::lemma_negation(g.times(m));
    crate::algebra::order_prime::lemma_multiple_infinity(d);
    if g.times(m) == g.times(n) {
        assert(g.times(m).plus(g.times(m).negated()) == Point::Infinity);
        assert(g.times(d) == Point::Infinity);
        assert(d % order::group_order() == d);
    }
}

} // verus!
