//! The order of the generator is prime, so no smaller multiple of the generator is infinity.
use crate::algebra::curve::Point;
use crate::algebra::group;
use crate::algebra::order;
use crate::algebra::primality;
use vstd::arithmetic::div_mod;
use vstd::arithmetic::power;
use vstd::prelude::*;

verus! {

/// The small primes of the certificate.
proof fn lemma_small_primes()
    ensures
        primality::is_prime(29),
        primality::is_prime(11),
        primality::is_prime(17),
        primality::is_prime(3),
        primality::is_prime(13),
        primality::is_prime(2),
        primality::is_prime(37),
{
    assert forall|d: int| 1 < d < 29 implies #[trigger] (29int % d) != 0 by {
        lemma_not_divisible_29(d);
    }
    assert forall|d: int| 1 < d < 11 implies #[trigger] (11int % d) != 0 by {
        lemma_not_divisible_11(d);
    }
    assert forall|d: int| 1 < d < 17 implies #[trigger] (17int % d) != 0 by {
        lemma_not_divisible_17(d);
    }
    assert forall|d: int| 1 < d < 3 implies #[trigger] (3int % d) != 0 by {
        lemma_not_divisible_3(d);
    }
    assert forall|d: int| 1 < d < 13 implies #[trigger] (13int % d) != 0 by {
        lemma_not_divisible_13(d);
    }
    assert forall|d: int| 1 < d < 37 implies #[trigger] (37int % d) != 0 by {
        lemma_not_divisible_37(d);
    }
}

proof fn lemma_not_divisible_29(d: int)
    requires
        1 < d < 29,
    ensures
        29int % d != 0,
{
    if d == 2 {
        assert(29int % 2 != 0);
    }
    if d == 3 {
        assert(29int % 3 != 0);
    }
    if d == 4 {
        assert(29int % 4 != 0);
    }
    if d == 5 {
        assert(29int % 5 != 0);
    }
    if d == 6 {
        assert(29int % 6 != 0);
    }
    if d == 7 {
        assert(29int % 7 != 0);
    }
    if d == 8 {
        assert(29int % 8 != 0);
    }
    if d == 9 {
        assert(29int % 9 != 0);
    }
    if d == 10 {
        assert(29int % 10 != 0);
    }
    if d == 11 {
        assert(29int % 11 != 0);
    }
    if d == 12 {
        assert(29int % 12 != 0);
    }
    if d == 13 {
        assert(29int % 13 != 0);
    }
    if d == 14 {
        assert(29int % 14 != 0);
    }
    if d == 15 {
        assert(29int % 15 != 0);
    }
    if d == 16 {
        assert(29int % 16 != 0);
    }
    if d == 17 {
        assert(29int % 17 != 0);
    }
    if d == 18 {
        assert(29int % 18 != 0);
    }
    if d == 19 {
        assert(29int % 19 != 0);
    }
    if d == 20 {
        assert(29int % 20 != 0);
    }
    if d == 21 {
        assert(29int % 21 != 0);
    }
    if d == 22 {
        assert(29int % 22 != 0);
    }
    if d == 23 {
        assert(29int % 23 != 0);
    }
    if d == 24 {
        assert(29int % 24 != 0);
    }
    if d == 25 {
        assert(29int % 25 != 0);
    }
    if d == 26 {
        assert(29int % 26 != 0);
    }
    if d == 27 {
        assert(29int % 27 != 0);
    }
    if d == 28 {
        assert(29int % 28 != 0);
    }
}

proof fn lemma_not_divisible_11(d: int)
    requires
        1 < d < 11,
    ensures
        11int % d != 0,
{
    if d == 2 {
        assert(11int % 2 != 0);
    }
    if d == 3 {
        assert(11int % 3 != 0);
    }
    if d == 4 {
        assert(11int % 4 != 0);
    }
    if d == 5 {
        assert(11int % 5 != 0);
    }
    if d == 6 {
        assert(11int % 6 != 0);
    }
    if d == 7 {
        assert(11int % 7 != 0);
    }
    if d == 8 {
        assert(11int % 8 != 0);
    }
    if d == 9 {
        assert(11int % 9 != 0);
    }
    if d == 10 {
        assert(11int % 10 != 0);
    }
}

proof fn lemma_not_divisible_17(d: int)
    requires
        1 < d < 17,
    ensures
        17int % d != 0,
{
    if d == 2 {
        assert(17int % 2 != 0);
    }
    if d == 3 {
        assert(17int % 3 != 0);
    }
    if d == 4 {
        assert(17int % 4 != 0);
    }
    if d == 5 {
        assert(17int % 5 != 0);
    }
    if d == 6 {
        assert(17int % 6 != 0);
    }
    if d == 7 {
        assert(17int % 7 != 0);
    }
    if d == 8 {
        assert(17int % 8 != 0);
    }
    if d == 9 {
        assert(17int % 9 != 0);
    }
    if d == 10 {
        assert(17int % 10 != 0);
    }
    if d == 11 {
        assert(17int % 11 != 0);
    }
    if d == 12 {
        assert(17int % 12 != 0);
    }
    if d == 13 {
        assert(17int % 13 != 0);
    }
    if d == 14 {
        assert(17int % 14 != 0);
    }
    if d == 15 {
        assert(17int % 15 != 0);
    }
    if d == 16 {
        assert(17int % 16 != 0);
    }
}

proof fn lemma_not_divisible_3(d: int)
    requires
        1 < d < 3,
    ensures
        3int % d != 0,
{
    if d == 2 {
        assert(3int % 2 != 0);
    }
}

proof fn lemma_not_divisible_13(d: int)
    requires
        1 < d < 13,
    ensures
        13int % d != 0,
{
    if d == 2 {
        assert(13int % 2 != 0);
    }
    if d == 3 {
        assert(13int % 3 != 0);
    }
    if d == 4 {
        assert(13int % 4 != 0);
    }
    if d == 5 {
        assert(13int % 5 != 0);
    }
    if d == 6 {
        assert(13int % 6 != 0);
    }
    if d == 7 {
        assert(13int % 7 != 0);
    }
    if d == 8 {
        assert(13int % 8 != 0);
    }
    if d == 9 {
        assert(13int % 9 != 0);
    }
    if d == 10 {
        assert(13int % 10 != 0);
    }
    if d == 11 {
        assert(13int % 11 != 0);
    }
    if d == 12 {
        assert(13int % 12 != 0);
    }
}

proof fn lemma_not_divisible_37(d: int)
    requires
        1 < d < 37,
    ensures
        37int % d != 0,
{
    if d == 2 {
        assert(37int % 2 != 0);
    }
    if d == 3 {
        assert(37int % 3 != 0);
    }
    if d == 4 {
        assert(37int % 4 != 0);
    }
    if d == 5 {
        assert(37int % 5 != 0);
    }
    if d == 6 {
        assert(37int % 6 != 0);
    }
    if d == 7 {
        assert(37int % 7 != 0);
    }
    if d == 8 {
        assert(37int % 8 != 0);
    }
    if d == 9 {
        assert(37int % 9 != 0);
    }
    if d == 10 {
        assert(37int % 10 != 0);
    }
    if d == 11 {
        assert(37int % 11 != 0);
    }
    if d == 12 {
        assert(37int % 12 != 0);
    }
    if d == 13 {
        assert(37int % 13 != 0);
    }
    if d == 14 {
        assert(37int % 14 != 0);
    }
    if d == 15 {
        assert(37int % 15 != 0);
    }
    if d == 16 {
        assert(37int % 16 != 0);
    }
    if d == 17 {
        assert(37int % 17 != 0);
    }
    if d == 18 {
        assert(37int % 18 != 0);
    }
    if d == 19 {
        assert(37int % 19 != 0);
    }
    if d == 20 {
        assert(37int % 20 != 0);
    }
    if d == 21 {
        assert(37int % 21 != 0);
    }
    if d == 22 {
        assert(37int % 22 != 0);
    }
    if d == 23 {
        assert(37int % 23 != 0);
    }
    if d == 24 {
        assert(37int % 24 != 0);
    }
    if d == 25 {
        assert(37int % 25 != 0);
    }
    if d == 26 {
        assert(37int % 26 != 0);
    }
    if d == 27 {
        assert(37int % 27 != 0);
    }
    if d == 28 {
        assert(37int % 28 != 0);
    }
    if d == 29 {
        assert(37int % 29 != 0);
    }
    if d == 30 {
        assert(37int % 30 != 0);
    }
    if d == 31 {
        assert(37int % 31 != 0);
    }
    if d == 32 {
        assert(37int % 32 != 0);
    }
    if d == 33 {
        assert(37int % 33 != 0);
    }
    if d == 34 {
        assert(37int % 34 != 0);
    }
    if d == 35 {
        assert(37int % 35 != 0);
    }
    if d == 36 {
        assert(37int % 36 != 0);
    }
}

/// 349 is prime.
proof fn lemma_prime_349()
    ensures
        primality::is_prime(349int),
{
    let n = 349int;
    let b = 257int;
    lemma_small_primes();
    power::lemma_pow1(b);
    primality::lemma_power_step(b, 1nat, 257int, 1nat, 257int, 2nat, 88int, 189int, n);
    primality::lemma_power_step(b, 2nat, 88int, 1nat, 257int, 3nat, 280int, 64int, n);
    primality::lemma_power_step(b, 3nat, 280int, 3nat, 280int, 6nat, 224int, 224int, n);
    primality::lemma_power_step(b, 6nat, 224int, 1nat, 257int, 7nat, 332int, 164int, n);
    primality::lemma_power_step(b, 7nat, 332int, 7nat, 332int, 14nat, 289int, 315int, n);
    primality::lemma_power_step(b, 14nat, 289int, 14nat, 289int, 28nat, 110int, 239int, n);
    primality::lemma_power_step(b, 28nat, 110int, 1nat, 257int, 29nat, 1int, 81int, n);
    primality::lemma_residue_one(b - 1, 15int, 11int, n);
    primality::lemma_prime_by_one(n, 29nat, b, 15int);
}

/// 122849 is prime.
proof fn lemma_prime_122849()
    ensures
        primality::is_prime(122849int),
{
    let n = 122849int;
    let b = 43407int;
    lemma_prime_349();
    lemma_small_primes();
    power::lemma_pow1(b);
    primality::lemma_power_step(b, 1nat, 43407int, 1nat, 43407int, 2nat, 32536int, 15337int, n);
    primality::lemma_power_step(b, 2nat, 32536int, 2nat, 32536int, 4nat, 1463int, 8617int, n);
    primality::lemma_power_step(b, 4nat, 1463int, 1nat, 43407int, 5nat, 114357int, 516int, n);
    primality::lemma_power_step(b, 5nat, 114357int, 5nat, 114357int, 10nat, 1701int, 106452int, n);
    primality::lemma_power_step(b, 10nat, 1701int, 1nat, 43407int, 11nat, 3058int, 601int, n);
    primality::lemma_power_step(b, 1nat, 43407int, 1nat, 43407int, 2nat, 32536int, 15337int, n);
    primality::lemma_power_step(b, 2nat, 32536int, 2nat, 32536int, 4nat, 1463int, 8617int, n);
    primality::lemma_power_step(b, 4nat, 1463int, 1nat, 43407int, 5nat, 114357int, 516int, n);
    primality::lemma_power_step(b, 5nat, 114357int, 5nat, 114357int, 10nat, 1701int, 106452int, n);
    primality::lemma_power_step(b, 10nat, 1701int, 10nat, 1701int, 20nat, 67874int, 23int, n);
    primality::lemma_power_step(b, 20nat, 67874int, 1nat, 43407int, 21nat, 42000int, 23982int, n);
    primality::lemma_power_step(b, 21nat, 42000int, 21nat, 42000int, 42nat, 11209int, 14359int, n);
    primality::lemma_power_step(b, 42nat, 11209int, 1nat, 43407int, 43nat, 67023int, 3960int, n);
    primality::lemma_power_step(b, 43nat, 67023int, 43nat, 67023int, 86nat, 108844int, 36565int, n);
    primality::lemma_power_step(b, 86nat, 108844int, 1nat, 43407int, 87nat, 64666int, 38458int, n);
    primality::lemma_power_step(b, 87nat, 64666int, 87nat, 64666int, 174nat, 34445int, 34039int, n);
    primality::lemma_power_step(b, 174nat, 34445int, 174nat, 34445int, 348nat, 105232int, 9657int, n);
    primality::lemma_power_step(b, 348nat, 105232int, 1nat, 43407int, 349nat, 33906int, 37182int, n);
    primality::lemma_power_step(b, 349nat, 33906int, 349nat, 33906int, 698nat, 118743int, 9357int, n);
    primality::lemma_power_step(b, 698nat, 118743int, 698nat, 118743int, 1396nat, 28923int, 114774int, n);
    primality::lemma_power_step(b, 1396nat, 28923int, 349nat, 33906int, 1745nat, 82520int, 7982int, n);
    primality::lemma_power_step(b, 1745nat, 82520int, 1745nat, 82520int, 3490nat, 30330int, 55430int, n);
    primality::lemma_power_step(b, 3490nat, 30330int, 349nat, 33906int, 3839nat, 1int, 8371int, n);
    primality::lemma_residue_one(3058int - 1, 11011int, 274int, n);
    primality::lemma_residue_one(33906int - 1, 7051int, 1946int, n);
    assert(349nat * 11nat == 3839nat);
    primality::lemma_prime_by_two(n, 349nat, 11nat, b, 11011int, 7051int);
}

/// 12530599 is prime.
proof fn lemma_prime_12530599()
    ensures
        primality::is_prime(12530599int),
{
    let n = 12530599int;
    let b = 9234317int;
    lemma_prime_122849();
    power::lemma_pow1(b);
    primality::lemma_power_step(b, 1nat, 9234317int, 1nat, 9234317int, 2nat, 4671639int, 6805150int, n);
    primality::lemma_power_step(b, 2nat, 4671639int, 1nat, 9234317int, 3nat, 1523887int, 3442724int, n);
    primality::lemma_power_step(b, 3nat, 1523887int, 3nat, 1523887int, 6nat, 10859693int, 185324int, n);
    primality::lemma_power_step(b, 6nat, 10859693int, 1nat, 9234317int, 7nat, 2703438int, 8002957int, n);
    primality::lemma_power_step(b, 7nat, 2703438int, 7nat, 2703438int, 14nat, 4908302int, 583258int, n);
    primality::lemma_power_step(b, 14nat, 4908302int, 14nat, 4908302int, 28nat, 11171611int, 1922607int, n);
    primality::lemma_power_step(b, 28nat, 11171611int, 1nat, 9234317int, 29nat, 6254309int, 8232822int, n);
    primality::lemma_power_step(b, 29nat, 6254309int, 29nat, 6254309int, 58nat, 11148349int, 3121668int, n);
    primality::lemma_power_step(b, 58nat, 11148349int, 1nat, 9234317int, 59nat, 9630912int, 8215679int, n);
    primality::lemma_power_step(b, 59nat, 9630912int, 59nat, 9630912int, 118nat, 2401781int, 7402237int, n);
    primality::lemma_power_step(b, 118nat, 2401781int, 1nat, 9234317int, 119nat, 10275948int, 1769971int, n);
    primality::lemma_power_step(b, 119nat, 10275948int, 119nat, 10275948int, 238nat, 137684int, 8426980int, n);
    primality::lemma_power_step(b, 238nat, 137684int, 1nat, 9234317int, 239nat, 474293int, 101465int, n);
    primality::lemma_power_step(b, 239nat, 474293int, 239nat, 474293int, 478nat, 4536601int, 17952int, n);
    primality::lemma_power_step(b, 478nat, 4536601int, 1nat, 9234317int, 479nat, 384326int, 3343209int, n);
    primality::lemma_power_step(b, 479nat, 384326int, 479nat, 384326int, 958nat, 8303863int, 11787int, n);
    primality::lemma_power_step(b, 958nat, 8303863int, 1nat, 9234317int, 959nat, 3910031int, 6119460int, n);
    primality::lemma_power_step(b, 959nat, 3910031int, 959nat, 3910031int, 1918nat, 9193041int, 1220080int, n);
    primality::lemma_power_step(b, 1918nat, 9193041int, 1nat, 9234317int, 1919nat, 4763529int, 6774732int, n);
    primality::lemma_power_step(b, 1919nat, 4763529int, 1919nat, 4763529int, 3838nat, 10436904int, 1810863int, n);
    primality::lemma_power_step(b, 3838nat, 10436904int, 1nat, 9234317int, 3839nat, 6314354int, 7691386int, n);
    primality::lemma_power_step(b, 3839nat, 6314354int, 3839nat, 6314354int, 7678nat, 3601612int, 3181896int, n);
    primality::lemma_power_step(b, 7678nat, 3601612int, 7678nat, 3601612int, 15356nat, 8097338int, 1035194int, n);
    primality::lemma_power_step(b, 15356nat, 8097338int, 15356nat, 8097338int, 30712nat, 9664185int, 5232541int, n);
    primality::lemma_power_step(b, 30712nat, 9664185int, 30712nat, 9664185int, 61424nat, 2924497int, 7453472int, n);
    primality::lemma_power_step(b, 61424nat, 2924497int, 61424nat, 2924497int, 122848nat, 10069752int, 682543int, n);
    primality::lemma_power_step(b, 122848nat, 10069752int, 1nat, 9234317int, 122849nat, 1int, 7420817int, n);
    primality::lemma_residue_one(b - 1, 9728749int, 7169517int, n);
    primality::lemma_prime_by_one(n, 122849nat, b, 9728749int);
}

/// 4110036473 is prime.
proof fn lemma_prime_4110036473()
    ensures
        primality::is_prime(4110036473int),
{
    let n = 4110036473int;
    let b = 3066871846int;
    lemma_prime_12530599();
    power::lemma_pow1(b);
    primality::lemma_power_step(b, 1nat, 3066871846int, 1nat, 3066871846int, 2nat, 892349638int, 2288471886int, n);
    primality::lemma_power_step(b, 2nat, 892349638int, 2nat, 892349638int, 4nat, 2286224347int, 193742289int, n);
    primality::lemma_power_step(b, 4nat, 2286224347int, 1nat, 3066871846int, 5nat, 1781519702int, 1705959820int, n);
    primality::lemma_power_step(b, 5nat, 1781519702int, 5nat, 1781519702int, 10nat, 108334580int, 772210288int, n);
    primality::lemma_power_step(b, 10nat, 108334580int, 1nat, 3066871846int, 11nat, 2355721186int, 80838278int, n);
    primality::lemma_power_step(b, 11nat, 2355721186int, 11nat, 2355721186int, 22nat, 1341542517int, 1350212423int, n);
    primality::lemma_power_step(b, 22nat, 1341542517int, 1nat, 3066871846int, 23nat, 1338318738int, 1001046828int, n);
    primality::lemma_power_step(b, 23nat, 1338318738int, 23nat, 1338318738int, 46nat, 3683043653int, 435786167int, n);
    primality::lemma_power_step(b, 46nat, 3683043653int, 1nat, 3066871846int, 47nat, 458003960int, 2748253686int, n);
    primality::lemma_power_step(b, 47nat, 458003960int, 47nat, 458003960int, 94nat, 980391373int, 51037899int, n);
    primality::lemma_power_step(b, 94nat, 980391373int, 1nat, 3066871846int, 95nat, 1678909014int, 731559128int, n);
    primality::lemma_power_step(b, 95nat, 1678909014int, 95nat, 1678909014int, 190nat, 53996733int, 685817631int, n);
    primality::lemma_power_step(b, 190nat, 53996733int, 1nat, 3066871846int, 191nat, 838268135int, 40291871int, n);
    primality::lemma_power_step(b, 191nat, 838268135int, 191nat, 838268135int, 382nat, 172863208int, 170970129int, n);
    primality::lemma_power_step(b, 382nat, 172863208int, 382nat, 172863208int, 764nat, 1416059077int, 7270419int, n);
    primality::lemma_power_step(b, 764nat, 1416059077int, 764nat, 1416059077int, 1528nat, 2110790360int, 487884553int, n);
    primality::lemma_power_step(b, 1528nat, 2110790360int, 1nat, 3066871846int, 1529nat, 1859673058int, 1575052574int, n);
    primality::lemma_power_step(b, 1529nat, 1859673058int, 1529nat, 1859673058int, 3058nat, 1351207419int, 841448465int, n);
    primality::lemma_power_step(b, 3058nat, 1351207419int, 1nat, 3066871846int, 3059nat, 1318225104int, 1008258690int, n);
    primality::lemma_power_step(b, 3059nat, 1318225104int, 3059nat, 1318225104int, 6118nat, 574624923int, 422798541int, n);
    primality::lemma_power_step(b, 6118nat, 574624923int, 6118nat, 574624923int, 12236nat, 2739891526int, 80338411int, n);
    primality::lemma_power_step(b, 12236nat, 2739891526int, 12236nat, 2739891526int, 24472nat, 3019544032int, 1826505828int, n);
    primality::lemma_power_step(b, 24472nat, 3019544032int, 1nat, 3066871846int, 24473nat, 3018356699int, 2253156301int, n);
    primality::lemma_power_step(b, 24473nat, 3018356699int, 24473nat, 3018356699int, 48946nat, 544971954int, 2216641439int, n);
    primality::lemma_power_step(b, 48946nat, 544971954int, 1nat, 3066871846int, 48947nat, 3963107216int, 406653116int, n);
    primality::lemma_power_step(b, 48947nat, 3963107216int, 48947nat, 3963107216int, 97894nat, 1606024115int, 3821430517int, n);
    primality::lemma_power_step(b, 97894nat, 1606024115int, 1nat, 3066871846int, 97895nat, 4015810747int, 1198400591int, n);
    primality::lemma_power_step(b, 97895nat, 4015810747int, 97895nat, 4015810747int, 195790nat, 3091398368int, 3923745217int, n);
    primality::lemma_power_step(b, 195790nat, 3091398368int, 195790nat, 3091398368int, 391580nat, 3860892338int, 2325221182int, n);
    primality::lemma_power_step(b, 391580nat, 3860892338int, 1nat, 3066871846int, 391581nat, 3224679887int, 2880962757int, n);
    primality::lemma_power_step(b, 391581nat, 3224679887int, 391581nat, 3224679887int, 783162nat, 550623542int, 2530040899int, n);
    primality::lemma_power_step(b, 783162nat, 550623542int, 783162nat, 550623542int, 1566324nat, 3820002283int, 73767297int, n);
    primality::lemma_power_step(b, 1566324nat, 3820002283int, 1566324nat, 3820002283int, 3132648nat, 2578618210int, 3550435023int, n);
    primality::lemma_power_step(b, 3132648nat, 2578618210int, 1nat, 3066871846int, 3132649nat, 1800372134int, 1924141462int, n);
    primality::lemma_power_step(b, 3132649nat, 1800372134int, 3132649nat, 1800372134int, 6265298nat, 3321194749int, 788640159int, n);
    primality::lemma_power_step(b, 6265298nat, 3321194749int, 1nat, 3066871846int, 6265299nat, 109434402int, 2478245324int, n);
    primality::lemma_power_step(b, 6265299nat, 109434402int, 6265299nat, 109434402int, 12530598nat, 2415523109int, 2913815int, n);
    primality::lemma_power_step(b, 12530598nat, 2415523109int, 1nat, 3066871846int, 12530599nat, 1int, 1802441381int, n);
    primality::lemma_residue_one(b - 1, 2185179385int, 1630560988int, n);
    primality::lemma_prime_by_one(n, 12530599nat, b, 2185179385int);
}

/// 1429 is prime.
proof fn lemma_prime_1429()
    ensures
        primality::is_prime(1429int),
{
    let n = 1429int;
    let b = 1233int;
    lemma_small_primes();
    power::lemma_pow1(b);
    primality::lemma_power_step(b, 1nat, 1233int, 1nat, 1233int, 2nat, 1262int, 1063int, n);
    primality::lemma_power_step(b, 2nat, 1262int, 1nat, 1233int, 3nat, 1294int, 1088int, n);
    primality::lemma_power_step(b, 1nat, 1233int, 1nat, 1233int, 2nat, 1262int, 1063int, n);
    primality::lemma_power_step(b, 2nat, 1262int, 2nat, 1262int, 4nat, 738int, 1114int, n);
    primality::lemma_power_step(b, 4nat, 738int, 4nat, 738int, 8nat, 195int, 381int, n);
    primality::lemma_power_step(b, 8nat, 195int, 8nat, 195int, 16nat, 871int, 26int, n);
    primality::lemma_power_step(b, 16nat, 871int, 1nat, 1233int, 17nat, 764int, 751int, n);
    primality::lemma_power_step(b, 17nat, 764int, 17nat, 764int, 34nat, 664int, 408int, n);
    primality::lemma_power_step(b, 34nat, 664int, 17nat, 764int, 51nat, 1int, 355int, n);
    primality::lemma_residue_one(1294int - 1, 725int, 656int, n);
    primality::lemma_residue_one(764int - 1, 221int, 118int, n);
    assert(17nat * 3nat == 51nat);
    primality::lemma_prime_by_two(n, 17nat, 3nat, b, 725int, 221int);
}

/// 197203 is prime.
proof fn lemma_prime_197203()
    ensures
        primality::is_prime(197203int),
{
    let n = 197203int;
    let b = 57311int;
    lemma_prime_1429();
    power::lemma_pow1(b);
    primality::lemma_power_step(b, 1nat, 57311int, 1nat, 57311int, 2nat, 134756int, 16655int, n);
    primality::lemma_power_step(b, 2nat, 134756int, 2nat, 134756int, 4nat, 135687int, 92083int, n);
    primality::lemma_power_step(b, 4nat, 135687int, 1nat, 57311int, 5nat, 51758int, 39433int, n);
    primality::lemma_power_step(b, 5nat, 51758int, 5nat, 51758int, 10nat, 85012int, 13584int, n);
    primality::lemma_power_step(b, 10nat, 85012int, 1nat, 57311int, 11nat, 25414int, 24706int, n);
    primality::lemma_power_step(b, 11nat, 25414int, 11nat, 25414int, 22nat, 31571int, 3275int, n);
    primality::lemma_power_step(b, 22nat, 31571int, 22nat, 31571int, 44nat, 64079int, 5054int, n);
    primality::lemma_power_step(b, 44nat, 64079int, 44nat, 64079int, 88nat, 154578int, 20821int, n);
    primality::lemma_power_step(b, 88nat, 154578int, 1nat, 57311int, 89nat, 69389int, 44923int, n);
    primality::lemma_power_step(b, 89nat, 69389int, 89nat, 69389int, 178nat, 122076int, 24415int, n);
    primality::lemma_power_step(b, 178nat, 122076int, 178nat, 122076int, 356nat, 116269int, 75569int, n);
    primality::lemma_power_step(b, 356nat, 116269int, 1nat, 57311int, 357nat, 3289int, 33790int, n);
    primality::lemma_power_step(b, 357nat, 3289int, 357nat, 3289int, 714nat, 168559int, 54int, n);
    primality::lemma_power_step(b, 714nat, 168559int, 714nat, 168559int, 1428nat, 114256int, 144075int, n);
    primality::lemma_power_step(b, 1428nat, 114256int, 1nat, 57311int, 1429nat, 1int, 33205int, n);
    primality::lemma_residue_one(b - 1, 159156int, 46253int, n);
    primality::lemma_prime_by_one(n, 1429nat, b, 159156int);
}

/// 788813 is prime.
proof fn lemma_prime_788813()
    ensures
        primality::is_prime(788813int),
{
    let n = 788813int;
    let b = 16int;
    lemma_prime_197203();
    power::lemma_pow1(b);
    primality::lemma_power_step(b, 1nat, 16int, 1nat, 16int, 2nat, 256int, 0int, n);
    primality::lemma_power_step(b, 2nat, 256int, 1nat, 16int, 3nat, 4096int, 0int, n);
    primality::lemma_power_step(b, 3nat, 4096int, 3nat, 4096int, 6nat, 212143int, 21int, n);
    primality::lemma_power_step(b, 6nat, 212143int, 6nat, 212143int, 12nat, 504360int, 57053int, n);
    primality::lemma_power_step(b, 12nat, 504360int, 12nat, 504360int, 24nat, 226921int, 322483int, n);
    primality::lemma_power_step(b, 24nat, 226921int, 24nat, 226921int, 48nat, 216414int, 65279int, n);
    primality::lemma_power_step(b, 48nat, 216414int, 48nat, 216414int, 96nat, 36334int, 59374int, n);
    primality::lemma_power_step(b, 96nat, 36334int, 96nat, 36334int, 192nat, 475407int, 1673int, n);
    primality::lemma_power_step(b, 192nat, 475407int, 192nat, 475407int, 384nat, 326076int, 286521int, n);
    primality::lemma_power_step(b, 384nat, 326076int, 1nat, 16int, 385nat, 484338int, 6int, n);
    primality::lemma_power_step(b, 385nat, 484338int, 385nat, 484338int, 770nat, 566613int, 297387int, n);
    primality::lemma_power_step(b, 770nat, 566613int, 770nat, 566613int, 1540nat, 245517int, 407004int, n);
    primality::lemma_power_step(b, 1540nat, 245517int, 1540nat, 245517int, 3080nat, 663081int, 76416int, n);
    primality::lemma_power_step(b, 3080nat, 663081int, 1nat, 16int, 3081nat, 354727int, 13int, n);
    primality::lemma_power_step(b, 3081nat, 354727int, 3081nat, 354727int, 6162nat, 583582int, 159519int, n);
    primality::lemma_power_step(b, 6162nat, 583582int, 6162nat, 583582int, 12324nat, 304413int, 431747int, n);
    primality::lemma_power_step(b, 12324nat, 304413int, 1nat, 16int, 12325nat, 137730int, 6int, n);
    primality::lemma_power_step(b, 12325nat, 137730int, 12325nat, 137730int, 24650nat, 177876int, 24048int, n);
    primality::lemma_power_step(b, 24650nat, 177876int, 24650nat, 177876int, 49300nat, 581946int, 40110int, n);
    primality::lemma_power_step(b, 49300nat, 581946int, 49300nat, 581946int, 98600nat, 61626int, 429330int, n);
    primality::lemma_power_step(b, 98600nat, 61626int, 1nat, 16int, 98601nat, 197203int, 1int, n);
    primality::lemma_power_step(b, 98601nat, 197203int, 98601nat, 197203int, 197202nat, 542309int, 49300int, n);
    primality::lemma_power_step(b, 197202nat, 542309int, 1nat, 16int, 197203nat, 1int, 11int, n);
    primality::lemma_residue_one(b - 1, 683638int, 13int, n);
    primality::lemma_prime_by_one(n, 197203nat, b, 683638int);
}

/// 27524606262830861217425312309 is prime.
proof fn lemma_prime_27524606262830861217425312309()
    ensures
        primality::is_prime(27524606262830861217425312309int),
{
    let n = 27524606262830861217425312309int;
    let b = 3781632294511892160213639409int;
    lemma_prime_4110036473();
    lemma_prime_788813();
    power::lemma_pow1(b);
    primality::lemma_power_step(b, 1nat, 3781632294511892160213639409int, 1nat, 3781632294511892160213639409int, 2nat, 7335940619315676343649038696int, 519562121046830554224464565int, n);
    primality::lemma_power_step(b, 2nat, 7335940619315676343649038696int, 1nat, 3781632294511892160213639409int, 3nat, 8735580959051547818822268710int, 1007891981876892796270150906int, n);
    primality::lemma_power_step(b, 3nat, 8735580959051547818822268710int, 3nat, 8735580959051547818822268710int, 6nat, 5979640006538971167694588634int, 2772442009286550332237749474int, n);
    primality::lemma_power_step(b, 6nat, 5979640006538971167694588634int, 6nat, 5979640006538971167694588634int, 12nat, 11625084686822097865866484626int, 1299059258699961896368783370int, n);
    primality::lemma_power_step(b, 12nat, 11625084686822097865866484626int, 12nat, 11625084686822097865866484626int, 24nat, 5137431043105792419835952961int, 4909882912958568007433422935int, n);
    primality::lemma_power_step(b, 24nat, 5137431043105792419835952961int, 24nat, 5137431043105792419835952961int, 48nat, 19674302398421523226352874582int, 958894651230973601320591071int, n);
    primality::lemma_power_step(b, 48nat, 19674302398421523226352874582int, 48nat, 19674302398421523226352874582int, 96nat, 945058903245820686969354212int, 14062986811449652224183181568int, n);
    primality::lemma_power_step(b, 96nat, 945058903245820686969354212int, 96nat, 945058903245820686969354212int, 192nat, 22343495486724590430736119686int, 32448650566539869556620962int, n);
    primality::lemma_power_step(b, 192nat, 22343495486724590430736119686int, 192nat, 22343495486724590430736119686int, 384nat, 22952759147584700269426828468int, 18137654206499699457098665392int, n);
    primality::lemma_power_step(b, 384nat, 22952759147584700269426828468int, 1nat, 3781632294511892160213639409int, 385nat, 2328635940267893229213893692int, 3153501794424303825561013080int, n);
    primality::lemma_power_step(b, 385nat, 2328635940267893229213893692int, 385nat, 2328635940267893229213893692int, 770nat, 15219704175783376872539392841int, 197007190240171493335185547int, n);
    primality::lemma_power_step(b, 770nat, 15219704175783376872539392841int, 770nat, 15219704175783376872539392841int, 1540nat, 21263647691343150878573787963int, 8415720573309818607124194302int, n);
    primality::lemma_power_step(b, 1540nat, 21263647691343150878573787963int, 1540nat, 21263647691343150878573787963int, 3080nat, 4787875222015162210308683889int, 16426854895727789560984227720int, n);
    primality::lemma_power_step(b, 3080nat, 4787875222015162210308683889int, 1nat, 3781632294511892160213639409int, 3081nat, 3592357601478055664870092295int, 657810810762299414988701234int, n);
    primality::lemma_power_step(b, 3081nat, 3592357601478055664870092295int, 3081nat, 3592357601478055664870092295int, 6162nat, 12786355296978518240311473794int, 468854413889439856682063059int, n);
    primality::lemma_power_step(b, 6162nat, 12786355296978518240311473794int, 6162nat, 12786355296978518240311473794int, 12324nat, 8904324695701316469254382095int, 5939808192691503327386758849int, n);
    primality::lemma_power_step(b, 12324nat, 8904324695701316469254382095int, 1nat, 3781632294511892160213639409int, 12325nat, 12816133395189567819669953589int, 1223373788113206380558348674int, n);
    primality::lemma_power_step(b, 12325nat, 12816133395189567819669953589int, 12325nat, 12816133395189567819669953589int, 24650nat, 8513049871303779546192952652int, 5967506805904808440738700441int, n);
    primality::lemma_power_step(b, 24650nat, 8513049871303779546192952652int, 24650nat, 8513049871303779546192952652int, 49300nat, 13988848944084656993473941683int, 2632990184101971153723496969int, n);
    primality::lemma_power_step(b, 49300nat, 13988848944084656993473941683int, 49300nat, 13988848944084656993473941683int, 98600nat, 24058349652370122611298098713int, 7109562001062108547736954064int, n);
    primality::lemma_power_step(b, 98600nat, 24058349652370122611298098713int, 1nat, 3781632294511892160213639409int, 98601nat, 25114497249508273054400837694int, 3305399943937460755995531647int, n);
    primality::lemma_power_step(b, 98601nat, 25114497249508273054400837694int, 98601nat, 25114497249508273054400837694int, 197202nat, 18713082158692163554298148274int, 22915422152552464254638534218int, n);
    primality::lemma_power_step(b, 197202nat, 18713082158692163554298148274int, 1nat, 3781632294511892160213639409int, 197203nat, 5346657408882349858835308469int, 2571008469491778676806970633int, n);
    primality::lemma_power_step(b, 197203nat, 5346657408882349858835308469int, 197203nat, 5346657408882349858835308469int, 394406nat, 7168952469984747222912221787int, 1038588714947758267011680486int, n);
    primality::lemma_power_step(b, 394406nat, 7168952469984747222912221787int, 394406nat, 7168952469984747222912221787int, 788812nat, 23103660241655370573647273030int, 1867197627684234516732549671int, n);
    primality::lemma_power_step(b, 788812nat, 23103660241655370573647273030int, 1nat, 3781632294511892160213639409int, 788813nat, 500179147027830079426118978int, 3174234241790333218727651988int, n);
    primality::lemma_power_step(b, 1nat, 3781632294511892160213639409int, 1nat, 3781632294511892160213639409int, 2nat, 7335940619315676343649038696int, 519562121046830554224464565int, n);
    primality::lemma_power_step(b, 2nat, 7335940619315676343649038696int, 1nat, 3781632294511892160213639409int, 3nat, 8735580959051547818822268710int, 1007891981876892796270150906int, n);
    primality::lemma_power_step(b, 3nat, 8735580959051547818822268710int, 3nat, 8735580959051547818822268710int, 6nat, 5979640006538971167694588634int, 2772442009286550332237749474int, n);
    primality::lemma_power_step(b, 6nat, 5979640006538971167694588634int, 1nat, 3781632294511892160213639409int, 7nat, 9273562383414921286874517721int, 821548527973652674204045565int, n);
    primality::lemma_power_step(b, 7nat, 9273562383414921286874517721int, 7nat, 9273562383414921286874517721int, 14nat, 8846657794900628958020787327int, 3124439218417483794926496746int, n);
    primality::lemma_power_step(b, 14nat, 8846657794900628958020787327int, 1nat, 3781632294511892160213639409int, 15nat, 4689721982968917646168626826int, 1215450876798511885744628113int, n);
    primality::lemma_power_step(b, 15nat, 4689721982968917646168626826int, 15nat, 4689721982968917646168626826int, 30nat, 13810240296400323383061046863int, 799048388468388648228636257int, n);
    primality::lemma_power_step(b, 30nat, 13810240296400323383061046863int, 30nat, 13810240296400323383061046863int, 60nat, 12170394529158833180754123696int, 6929172218600294954628905997int, n);
    primality::lemma_power_step(b, 60nat, 12170394529158833180754123696int, 1nat, 3781632294511892160213639409int, 61nat, 3332645525209176718034396318int, 1672102283641691892145974794int, n);
    primality::lemma_power_step(b, 61nat, 3332645525209176718034396318int, 61nat, 3332645525209176718034396318int, 122nat, 10946670253770625369454796331int, 403512627597327929348557077int, n);
    primality::lemma_power_step(b, 122nat, 10946670253770625369454796331int, 122nat, 10946670253770625369454796331int, 244nat, 14909878680359450910260714573int, 4353544188808402166882975932int, n);
    primality::lemma_power_step(b, 244nat, 14909878680359450910260714573int, 244nat, 14909878680359450910260714573int, 488nat, 6486688537909763641028623798int, 8076572654310282766970634759int, n);
    primality::lemma_power_step(b, 488nat, 6486688537909763641028623798int, 1nat, 3781632294511892160213639409int, 489nat, 6589507118958456057804276610int, 891212416452448529409096708int, n);
    primality::lemma_power_step(b, 489nat, 6589507118958456057804276610int, 489nat, 6589507118958456057804276610int, 978nat, 18604912569284127513097252812int, 1577555866055768611592940632int, n);
    primality::lemma_power_step(b, 978nat, 18604912569284127513097252812int, 1nat, 3781632294511892160213639409int, 979nat, 11079158049951332965574755181int, 2556146944909611967631264003int, n);
    primality::lemma_power_step(b, 979nat, 11079158049951332965574755181int, 979nat, 11079158049951332965574755181int, 1958nat, 14942305836707805532640855962int, 4459563996072836691123274611int, n);
    primality::lemma_power_step(b, 1958nat, 14942305836707805532640855962int, 1nat, 3781632294511892160213639409int, 1959nat, 13430612449059636548344977706int, 2052937861017605527952534928int, n);
    primality::lemma_power_step(b, 1959nat, 13430612449059636548344977706int, 1959nat, 13430612449059636548344977706int, 3918nat, 20114829690031940526747168708int, 6553457987169178066285445792int, n);
    primality::lemma_power_step(b, 3918nat, 20114829690031940526747168708int, 1nat, 3781632294511892160213639409int, 3919nat, 168787115535741290751932828int, 2763595919522812578121958216int, n);
    primality::lemma_power_step(b, 3919nat, 168787115535741290751932828int, 3919nat, 168787115535741290751932828int, 7838nat, 16071948706957571242333190860int, 1035040795818658230080436int, n);
    primality::lemma_power_step(b, 7838nat, 16071948706957571242333190860int, 1nat, 3781632294511892160213639409int, 7839nat, 13526653338814123734754241704int, 2208140588301315046176261204int, n);
    primality::lemma_power_step(b, 7839nat, 13526653338814123734754241704int, 7839nat, 13526653338814123734754241704int, 15678nat, 27489900159464498873949059155int, 6647519270622005141732717529int, n);
    primality::lemma_power_step(b, 15678nat, 27489900159464498873949059155int, 15678nat, 27489900159464498873949059155int, 31356nat, 17208380224798924056177641375int, 27455237817436604910267690850int, n);
    primality::lemma_power_step(b, 31356nat, 17208380224798924056177641375int, 1nat, 3781632294511892160213639409int, 31357nat, 3275632039478234169163730985int, 2364276014448116887167953710int, n);
    primality::lemma_power_step(b, 31357nat, 3275632039478234169163730985int, 31357nat, 3275632039478234169163730985int, 62714nat, 20699110493495794116728902161int, 389824477618260282399789696int, n);
    primality::lemma_power_step(b, 62714nat, 20699110493495794116728902161int, 62714nat, 20699110493495794116728902161int, 125428nat, 12450212740248492635029029187int, 15566187255529590331450892326int, n);
    primality::lemma_power_step(b, 125428nat, 12450212740248492635029029187int, 125428nat, 12450212740248492635029029187int, 250856nat, 19925413708673815787715390441int, 5631608161703947978808520992int, n);
    primality::lemma_power_step(b, 250856nat, 19925413708673815787715390441int, 250856nat, 19925413708673815787715390441int, 501712nat, 26450041866332053363281589901int, 14424261247215143421133317620int, n);
    primality::lemma_power_step(b, 501712nat, 26450041866332053363281589901int, 1nat, 3781632294511892160213639409int, 501713nat, 21466777297654012166867389993int, 3633996852045270733762505924int, n);
    primality::lemma_power_step(b, 501713nat, 21466777297654012166867389993int, 501713nat, 21466777297654012166867389993int, 1003426nat, 24902310589008907396675762564int, 16742202346028358480326188665int, n);
    primality::lemma_power_step(b, 1003426nat, 24902310589008907396675762564int, 1003426nat, 24902310589008907396675762564int, 2006852nat, 5749790846602652835916312244int, 22529843542535249189751550828int, n);
    primality::lemma_power_step(b, 2006852nat, 5749790846602652835916312244int, 1nat, 3781632294511892160213639409int, 2006853nat, 12424069185099704728478178352int, 789969329427391106665166516int, n);
    primality::lemma_power_step(b, 2006853nat, 12424069185099704728478178352int, 2006853nat, 12424069185099704728478178352int, 4013706nat, 13522142660363067958875058893int, 5607981950484352632579009479int, n);
    primality::lemma_power_step(b, 4013706nat, 13522142660363067958875058893int, 1nat, 3781632294511892160213639409int, 4013707nat, 10552686718310244254160875586int, 1857820267695509589845915439int, n);
    primality::lemma_power_step(b, 4013707nat, 10552686718310244254160875586int, 4013707nat, 10552686718310244254160875586int, 8027414nat, 2584712561566307525625574657int, 4045805266438289793087837271int, n);
    primality::lemma_power_step(b, 8027414nat, 2584712561566307525625574657int, 8027414nat, 2584712561566307525625574657int, 16054828nat, 8975471818072145637415699709int, 242718786315221930159116660int, n);
    primality::lemma_power_step(b, 16054828nat, 8975471818072145637415699709int, 1nat, 3781632294511892160213639409int, 16054829nat, 25182316391336647756275512821int, 1233148760116436972489585240int, n);
    primality::lemma_power_step(b, 16054829nat, 25182316391336647756275512821int, 16054829nat, 25182316391336647756275512821int, 32109658nat, 16699548361326892100742665432int, 23039350782275684436933776701int, n);
    primality::lemma_power_step(b, 32109658nat, 16699548361326892100742665432int, 1nat, 3781632294511892160213639409int, 32109659nat, 6847461842575623862056006268int, 2294367112245909702887814380int, n);
    primality::lemma_power_step(b, 32109659nat, 6847461842575623862056006268int, 32109659nat, 6847461842575623862056006268int, 64219318nat, 10263789635033943266372719345int, 1703484265598603708560384131int, n);
    primality::lemma_power_step(b, 64219318nat, 10263789635033943266372719345int, 1nat, 3781632294511892160213639409int, 64219319nat, 26437214611876068174275482627int, 1410151991904600727464757542int, n);
    primality::lemma_power_step(b, 64219319nat, 26437214611876068174275482627int, 64219319nat, 26437214611876068174275482627int, 128438638nat, 10055515330189747280125078810int, 25392781635471433089329775891int, n);
    primality::lemma_power_step(b, 128438638nat, 10055515330189747280125078810int, 1nat, 3781632294511892160213639409int, 128438639nat, 16031478707725085045305696467int, 1381536983580960458738048747int, n);
    primality::lemma_power_step(b, 128438639nat, 16031478707725085045305696467int, 128438639nat, 16031478707725085045305696467int, 256877278nat, 20052018331736362788258617765int, 9337401854256710954962086836int, n);
    primality::lemma_power_step(b, 256877278nat, 20052018331736362788258617765int, 1nat, 3781632294511892160213639409int, 256877279nat, 19713901329252848264489680665int, 2754966206213762514551109580int, n);
    primality::lemma_power_step(b, 256877279nat, 19713901329252848264489680665int, 256877279nat, 19713901329252848264489680665int, 513754558nat, 9111119838731728066142057579int, 14119653589534996602188856494int, n);
    primality::lemma_power_step(b, 513754558nat, 9111119838731728066142057579int, 1nat, 3781632294511892160213639409int, 513754559nat, 22486231019120097754331060952int, 1251785572963624092275296951int, n);
    primality::lemma_power_step(b, 513754559nat, 22486231019120097754331060952int, 513754559nat, 22486231019120097754331060952int, 1027509118nat, 596946066507179706077347760int, 18370129643890338523976142416int, n);
    primality::lemma_power_step(b, 1027509118nat, 596946066507179706077347760int, 1027509118nat, 596946066507179706077347760int, 2055018236nat, 9439300929288702422661352179int, 12946401591204623854382969int, n);
    primality::lemma_power_step(b, 2055018236nat, 9439300929288702422661352179int, 2055018236nat, 9439300929288702422661352179int, 4110036472nat, 9057953065724857749987596236int, 3237118132875581013138363145int, n);
    primality::lemma_power_step(b, 4110036472nat, 9057953065724857749987596236int, 1nat, 3781632294511892160213639409int, 4110036473nat, 23631416071647100519861408486int, 1244480938562031547223906382int, n);
    primality::lemma_power_step(b, 4110036473nat, 23631416071647100519861408486int, 4110036473nat, 23631416071647100519861408486int, 8220072946nat, 6977422960101255159638222982int, 20288894243163856122431347046int, n);
    primality::lemma_power_step(b, 8220072946nat, 6977422960101255159638222982int, 4110036473nat, 23631416071647100519861408486int, 12330109419nat, 5900863350723070381694701307int, 5990508401955901006366053605int, n);
    primality::lemma_power_step(b, 12330109419nat, 5900863350723070381694701307int, 12330109419nat, 5900863350723070381694701307int, 24660218838nat, 3212659545518903898761112757int, 1265056726022190934934344788int, n);
    primality::lemma_power_step(b, 24660218838nat, 3212659545518903898761112757int, 24660218838nat, 3212659545518903898761112757int, 49320437676nat, 4801011931851357549499918711int, 374980163452925387999057082int, n);
    primality::lemma_power_step(b, 49320437676nat, 4801011931851357549499918711int, 49320437676nat, 4801011931851357549499918711int, 98640875352nat, 17956386604550877895241671291int, 837422172352938076753105470int, n);
    primality::lemma_power_step(b, 98640875352nat, 17956386604550877895241671291int, 98640875352nat, 17956386604550877895241671291int, 197281750704nat, 4864292781245661614263019838int, 11714311798439968484199000527int, n);
    primality::lemma_power_step(b, 197281750704nat, 4864292781245661614263019838int, 197281750704nat, 4864292781245661614263019838int, 394563501408nat, 21309886679477037202171166300int, 859643332796039169320587016int, n);
    primality::lemma_power_step(b, 394563501408nat, 21309886679477037202171166300int, 394563501408nat, 21309886679477037202171166300int, 789127002816nat, 2814217753725635294977470785int, 16498374798021479749037867635int, n);
    primality::lemma_power_step(b, 789127002816nat, 2814217753725635294977470785int, 789127002816nat, 2814217753725635294977470785int, 1578254005632nat, 24304801498753479456699088874int, 287736052961435519368659739int, n);
    primality::lemma_power_step(b, 1578254005632nat, 24304801498753479456699088874int, 4110036473nat, 23631416071647100519861408486int, 1582364042105nat, 848674629248581557463120667int, 20867033347228845523902803133int, n);
    primality::lemma_power_step(b, 1582364042105nat, 848674629248581557463120667int, 1582364042105nat, 848674629248581557463120667int, 3164728084210nat, 10788976682088191838578166318int, 26167445210754522792148319int, n);
    primality::lemma_power_step(b, 3164728084210nat, 10788976682088191838578166318int, 3164728084210nat, 10788976682088191838578166318int, 6329456168420nat, 24563107252565284648456188179int, 4229016638244581716130238605int, n);
    primality::lemma_power_step(b, 6329456168420nat, 24563107252565284648456188179int, 6329456168420nat, 24563107252565284648456188179int, 12658912336840nat, 14159052998516239863277555449int, 21920249544705825052111168688int, n);
    primality::lemma_power_step(b, 12658912336840nat, 14159052998516239863277555449int, 4110036473nat, 23631416071647100519861408486int, 12663022373313nat, 23048483230129355237381407311int, 12156340017850879473880029867int, n);
    primality::lemma_power_step(b, 12663022373313nat, 23048483230129355237381407311int, 12663022373313nat, 23048483230129355237381407311int, 25326044746626nat, 15505201706577379907888729889int, 19300278962643286354432170048int, n);
    primality::lemma_power_step(b, 25326044746626nat, 15505201706577379907888729889int, 25326044746626nat, 15505201706577379907888729889int, 50652089493252nat, 9384720883942526781324694928int, 8734413043586411076235454477int, n);
    primality::lemma_power_step(b, 50652089493252nat, 9384720883942526781324694928int, 4110036473nat, 23631416071647100519861408486int, 50656199529725nat, 12181048965268271204424278883int, 8057308497241060582627443625int, n);
    primality::lemma_power_step(b, 50656199529725nat, 12181048965268271204424278883int, 50656199529725nat, 12181048965268271204424278883int, 101312399059450nat, 13901338906200685683982943329int, 5390738471512027656767988040int, n);
    primality::lemma_power_step(b, 101312399059450nat, 13901338906200685683982943329int, 101312399059450nat, 13901338906200685683982943329int, 202624798118900nat, 2540564595312263202245744913int, 7020889655595520660917566192int, n);
    primality::lemma_power_step(b, 202624798118900nat, 2540564595312263202245744913int, 202624798118900nat, 2540564595312263202245744913int, 405249596237800nat, 23466450411535862297219930045int, 234498121474320848626391636int, n);
    primality::lemma_power_step(b, 405249596237800nat, 23466450411535862297219930045int, 4110036473nat, 23631416071647100519861408486int, 405253706274273nat, 23067063835527592087613710372int, 20147261984580490407876832322int, n);
    primality::lemma_power_step(b, 405253706274273nat, 23067063835527592087613710372int, 405253706274273nat, 23067063835527592087613710372int, 810507412548546nat, 11174448112012709369967545712int, 19331409463641874113556843808int, n);
    primality::lemma_power_step(b, 810507412548546nat, 11174448112012709369967545712int, 4110036473nat, 23631416071647100519861408486int, 810511522585019nat, 6143731176535981912978171869int, 9593889561377680890414506007int, n);
    primality::lemma_power_step(b, 810511522585019nat, 6143731176535981912978171869int, 810511522585019nat, 6143731176535981912978171869int, 1621023045170038nat, 26117782798576350387743938535int, 1371334158574740820569314714int, n);
    primality::lemma_power_step(b, 1621023045170038nat, 26117782798576350387743938535int, 1621023045170038nat, 26117782798576350387743938535int, 3242046090340076nat, 14883258081191878046178445010int, 24782864168878899278292965635int, n);
    primality::lemma_power_step(b, 3242046090340076nat, 14883258081191878046178445010int, 4110036473nat, 23631416071647100519861408486int, 3242050200376549nat, 1int, 12778110642523548160169561951int, n);
    primality::lemma_residue_one(500179147027830079426118978int - 1, 14710826570012922945287348714int, 267326210431561670161594853int, n);
    primality::lemma_residue_one(23631416071647100519861408486int - 1, 6849127744787863802380646449int, 5880359774065574692826740996int, n);
    assert(4110036473nat * 788813nat == 3242050200376549nat);
    primality::lemma_prime_by_two(n, 4110036473nat, 788813nat, b, 14710826570012922945287348714int, 6849127744787863802380646449int);
}

/// 443 is prime.
proof fn lemma_prime_443()
    ensures
        primality::is_prime(443int),
{
    let n = 443int;
    let b = 387int;
    lemma_small_primes();
    power::lemma_pow1(b);
    primality::lemma_power_step(b, 1nat, 387int, 1nat, 387int, 2nat, 35int, 338int, n);
    primality::lemma_power_step(b, 1nat, 387int, 1nat, 387int, 2nat, 35int, 338int, n);
    primality::lemma_power_step(b, 2nat, 35int, 1nat, 387int, 3nat, 255int, 30int, n);
    primality::lemma_power_step(b, 3nat, 255int, 3nat, 255int, 6nat, 347int, 146int, n);
    primality::lemma_power_step(b, 6nat, 347int, 6nat, 347int, 12nat, 356int, 271int, n);
    primality::lemma_power_step(b, 12nat, 356int, 1nat, 387int, 13nat, 442int, 310int, n);
    primality::lemma_power_step(b, 13nat, 442int, 13nat, 442int, 26nat, 1int, 441int, n);
    primality::lemma_residue_one(35int - 1, 430int, 33int, n);
    primality::lemma_residue_one(442int - 1, 221int, 220int, n);
    assert(13nat * 2nat == 26nat);
    primality::lemma_prime_by_two(n, 13nat, 2nat, b, 430int, 221int);
}

/// 8861 is prime.
proof fn lemma_prime_8861()
    ensures
        primality::is_prime(8861int),
{
    let n = 8861int;
    let b = 2978int;
    lemma_prime_443();
    power::lemma_pow1(b);
    primality::lemma_power_step(b, 1nat, 2978int, 1nat, 2978int, 2nat, 7484int, 1000int, n);
    primality::lemma_power_step(b, 2nat, 7484int, 1nat, 2978int, 3nat, 1937int, 2515int, n);
    primality::lemma_power_step(b, 3nat, 1937int, 3nat, 1937int, 6nat, 3766int, 423int, n);
    primality::lemma_power_step(b, 6nat, 3766int, 6nat, 3766int, 12nat, 5156int, 1600int, n);
    primality::lemma_power_step(b, 12nat, 5156int, 1nat, 2978int, 13nat, 7316int, 1732int, n);
    primality::lemma_power_step(b, 13nat, 7316int, 13nat, 7316int, 26nat, 3416int, 6040int, n);
    primality::lemma_power_step(b, 26nat, 3416int, 1nat, 2978int, 27nat, 420int, 1148int, n);
    primality::lemma_power_step(b, 27nat, 420int, 27nat, 420int, 54nat, 8041int, 19int, n);
    primality::lemma_power_step(b, 54nat, 8041int, 1nat, 2978int, 55nat, 3676int, 2702int, n);
    primality::lemma_power_step(b, 55nat, 3676int, 55nat, 3676int, 110nat, 8812int, 1524int, n);
    primality::lemma_power_step(b, 110nat, 8812int, 110nat, 8812int, 220nat, 2401int, 8763int, n);
    primality::lemma_power_step(b, 220nat, 2401int, 1nat, 2978int, 221nat, 8212int, 806int, n);
    primality::lemma_power_step(b, 221nat, 8212int, 221nat, 8212int, 442nat, 4734int, 7610int, n);
    primality::lemma_power_step(b, 442nat, 4734int, 1nat, 2978int, 443nat, 1int, 1591int, n);
    primality::lemma_residue_one(b - 1, 2152int, 723int, n);
    primality::lemma_prime_by_one(n, 443nat, b, 2152int);
}

/// 3923 is prime.
proof fn lemma_prime_3923()
    ensures
        primality::is_prime(3923int),
{
    let n = 3923int;
    let b = 2436int;
    lemma_small_primes();
    power::lemma_pow1(b);
    primality::lemma_power_step(b, 1nat, 2436int, 1nat, 2436int, 2nat, 2520int, 1512int, n);
    primality::lemma_power_step(b, 1nat, 2436int, 1nat, 2436int, 2nat, 2520int, 1512int, n);
    primality::lemma_power_step(b, 2nat, 2520int, 2nat, 2520int, 4nat, 2986int, 1618int, n);
    primality::lemma_power_step(b, 4nat, 2986int, 4nat, 2986int, 8nat, 3140int, 2272int, n);
    primality::lemma_power_step(b, 8nat, 3140int, 1nat, 2436int, 9nat, 3113int, 1949int, n);
    primality::lemma_power_step(b, 9nat, 3113int, 9nat, 3113int, 18nat, 959int, 2470int, n);
    primality::lemma_power_step(b, 18nat, 959int, 18nat, 959int, 36nat, 1699int, 234int, n);
    primality::lemma_power_step(b, 36nat, 1699int, 1nat, 2436int, 37nat, 3922int, 1054int, n);
    primality::lemma_power_step(b, 37nat, 3922int, 37nat, 3922int, 74nat, 1int, 3921int, n);
    primality::lemma_residue_one(2520int - 1, 2009int, 1290int, n);
    primality::lemma_residue_one(3922int - 1, 1961int, 1960int, n);
    assert(37nat * 2nat == 74nat);
    primality::lemma_prime_by_two(n, 37nat, 2nat, b, 2009int, 1961int);
}

/// 139046813 is prime.
proof fn lemma_prime_139046813()
    ensures
        primality::is_prime(139046813int),
{
    let n = 139046813int;
    let b = 16int;
    lemma_prime_8861();
    lemma_prime_3923();
    power::lemma_pow1(b);
    primality::lemma_power_step(b, 1nat, 16int, 1nat, 16int, 2nat, 256int, 0int, n);
    primality::lemma_power_step(b, 2nat, 256int, 1nat, 16int, 3nat, 4096int, 0int, n);
    primality::lemma_power_step(b, 3nat, 4096int, 3nat, 4096int, 6nat, 16777216int, 0int, n);
    primality::lemma_power_step(b, 6nat, 16777216int, 1nat, 16int, 7nat, 129388643int, 1int, n);
    primality::lemma_power_step(b, 7nat, 129388643int, 7nat, 129388643int, 14nat, 137060598int, 120401327int, n);
    primality::lemma_power_step(b, 14nat, 137060598int, 1nat, 16int, 15nat, 107267373int, 15int, n);
    primality::lemma_power_step(b, 15nat, 107267373int, 15nat, 107267373int, 30nat, 68863659int, 82751190int, n);
    primality::lemma_power_step(b, 30nat, 68863659int, 30nat, 68863659int, 60nat, 15477363int, 34105086int, n);
    primality::lemma_power_step(b, 60nat, 15477363int, 1nat, 16int, 61nat, 108590995int, 1int, n);
    primality::lemma_power_step(b, 61nat, 108590995int, 61nat, 108590995int, 122nat, 32765212int, 84806001int, n);
    primality::lemma_power_step(b, 122nat, 32765212int, 122nat, 32765212int, 244nat, 87441146int, 7720846int, n);
    primality::lemma_power_step(b, 244nat, 87441146int, 1nat, 16int, 245nat, 8590206int, 10int, n);
    primality::lemma_power_step(b, 245nat, 8590206int, 245nat, 8590206int, 490nat, 51650588int, 530696int, n);
    primality::lemma_power_step(b, 490nat, 51650588int, 490nat, 51650588int, 980nat, 79088445int, 19186223int, n);
    primality::lemma_power_step(b, 980nat, 79088445int, 980nat, 79088445int, 1960nat, 43773852int, 44984721int, n);
    primality::lemma_power_step(b, 1960nat, 43773852int, 1nat, 16int, 1961nat, 5147567int, 5int, n);
    primality::lemma_power_step(b, 1961nat, 5147567int, 1961nat, 5147567int, 3922nat, 129146957int, 190564int, n);
    primality::lemma_power_step(b, 3922nat, 129146957int, 1nat, 16int, 3923nat, 119695930int, 14int, n);
    primality::lemma_power_step(b, 1nat, 16int, 1nat, 16int, 2nat, 256int, 0int, n);
    primality::lemma_power_step(b, 2nat, 256int, 2nat, 256int, 4nat, 65536int, 0int, n);
    primality::lemma_power_step(b, 4nat, 65536int, 4nat, 65536int, 8nat, 123562906int, 30int, n);
    primality::lemma_power_step(b, 8nat, 123562906int, 8nat, 123562906int, 16nat, 47716212int, 109803248int, n);
    primality::lemma_power_step(b, 16nat, 47716212int, 1nat, 16int, 17nat, 68225327int, 5int, n);
    primality::lemma_power_step(b, 17nat, 68225327int, 17nat, 68225327int, 34nat, 6346683int, 33475742int, n);
    primality::lemma_power_step(b, 34nat, 6346683int, 34nat, 6346683int, 68nat, 52891332int, 289689int, n);
    primality::lemma_power_step(b, 68nat, 52891332int, 1nat, 16int, 69nat, 11980434int, 6int, n);
    primality::lemma_power_step(b, 69nat, 11980434int, 69nat, 11980434int, 138nat, 4202732int, 1032248int, n);
    primality::lemma_power_step(b, 138nat, 4202732int, 138nat, 4202732int, 276nat, 117702060int, 127028int, n);
    primality::lemma_power_step(b, 276nat, 117702060int, 276nat, 117702060int, 552nat, 56951030int, 99633890int, n);
    primality::lemma_power_step(b, 552nat, 56951030int, 1nat, 16int, 553nat, 76935602int, 6int, n);
    primality::lemma_power_step(b, 553nat, 76935602int, 553nat, 76935602int, 1106nat, 13475518int, 42569022int, n);
    primality::lemma_power_step(b, 1106nat, 13475518int, 1nat, 16int, 1107nat, 76561475int, 1int, n);
    primality::lemma_power_step(b, 1107nat, 76561475int, 1107nat, 76561475int, 2214nat, 58692243int, 42156014int, n);
    primality::lemma_power_step(b, 2214nat, 58692243int, 1nat, 16int, 2215nat, 104795010int, 6int, n);
    primality::lemma_power_step(b, 2215nat, 104795010int, 2215nat, 104795010int, 4430nat, 76319324int, 78980552int, n);
    primality::lemma_power_step(b, 4430nat, 76319324int, 4430nat, 76319324int, 8860nat, 60967153int, 41889771int, n);
    primality::lemma_power_step(b, 8860nat, 60967153int, 1nat, 16int, 8861nat, 2146757int, 7int, n);
    primality::lemma_power_step(b, 8861nat, 2146757int, 8861nat, 2146757int, 17722nat, 137093790int, 33143int, n);
    primality::lemma_power_step(b, 17722nat, 137093790int, 8861nat, 2146757int, 26583nat, 12755978int, 2116604int, n);
    primality::lemma_power_step(b, 26583nat, 12755978int, 26583nat, 12755978int, 53166nat, 30368063int, 1170217int, n);
    primality::lemma_power_step(b, 53166nat, 30368063int, 8861nat, 2146757int, 62027nat, 58312576int, 468855int, n);
    primality::lemma_power_step(b, 62027nat, 58312576int, 62027nat, 58312576int, 124054nat, 79075896int, 24454760int, n);
    primality::lemma_power_step(b, 124054nat, 79075896int, 8861nat, 2146757int, 132915nat, 41150092int, 1220860int, n);
    primality::lemma_power_step(b, 132915nat, 41150092int, 132915nat, 41150092int, 265830nat, 45855587int, 12178129int, n);
    primality::lemma_power_step(b, 265830nat, 45855587int, 265830nat, 45855587int, 531660nat, 124756134int, 15122495int, n);
    primality::lemma_power_step(b, 531660nat, 124756134int, 8861nat, 2146757int, 540521nat, 117455065int, 1926121int, n);
    primality::lemma_power_step(b, 540521nat, 117455065int, 540521nat, 117455065int, 1081042nat, 57588015int, 99216170int, n);
    primality::lemma_power_step(b, 1081042nat, 57588015int, 1081042nat, 57588015int, 2162084nat, 75578069int, 23850812int, n);
    primality::lemma_power_step(b, 2162084nat, 75578069int, 8861nat, 2146757int, 2170945nat, 1595492int, 1166857int, n);
    primality::lemma_power_step(b, 2170945nat, 1595492int, 2170945nat, 1595492int, 4341890nat, 64716473int, 18307int, n);
    primality::lemma_power_step(b, 4341890nat, 64716473int, 4341890nat, 64716473int, 8683780nat, 53621005int, 30120948int, n);
    primality::lemma_power_step(b, 8683780nat, 53621005int, 8683780nat, 53621005int, 17367560nat, 92293830int, 20678015int, n);
    primality::lemma_power_step(b, 17367560nat, 92293830int, 8861nat, 2146757int, 17376421nat, 33220781int, 1424933int, n);
    primality::lemma_power_step(b, 17376421nat, 33220781int, 17376421nat, 33220781int, 34752842nat, 34549628int, 7937041int, n);
    primality::lemma_power_step(b, 34752842nat, 34549628int, 8861nat, 2146757int, 34761703nat, 1int, 533415int, n);
    primality::lemma_residue_one(119695930int - 1, 52815464int, 45465235int, n);
    primality::lemma_residue_one(2146757int - 1, 129022322int, 1991987int, n);
    assert(8861nat * 3923nat == 34761703nat);
    primality::lemma_prime_by_two(n, 8861nat, 3923nat, b, 52815464int, 129022322int);
}

/// 1668561757 is prime.
proof fn lemma_prime_1668561757()
    ensures
        primality::is_prime(1668561757int),
{
    let n = 1668561757int;
    let b = 4096int;
    lemma_prime_139046813();
    power::lemma_pow1(b);
    primality::lemma_power_step(b, 1nat, 4096int, 1nat, 4096int, 2nat, 16777216int, 0int, n);
    primality::lemma_power_step(b, 2nat, 16777216int, 2nat, 16777216int, 4nat, 288237055int, 168693int, n);
    primality::lemma_power_step(b, 4nat, 288237055int, 4nat, 288237055int, 8nat, 22338817int, 49791744int, n);
    primality::lemma_power_step(b, 8nat, 22338817int, 8nat, 22338817int, 16nat, 974608228int, 299073int, n);
    primality::lemma_power_step(b, 16nat, 974608228int, 16nat, 974608228int, 32nat, 1095234988int, 569269428int, n);
    primality::lemma_power_step(b, 32nat, 1095234988int, 1nat, 4096int, 33nat, 988508032int, 2688int, n);
    primality::lemma_power_step(b, 33nat, 988508032int, 33nat, 988508032int, 66nat, 857396080int, 585622992int, n);
    primality::lemma_power_step(b, 66nat, 857396080int, 66nat, 857396080int, 132nat, 271733352int, 440575864int, n);
    primality::lemma_power_step(b, 132nat, 271733352int, 132nat, 271733352int, 264nat, 986076774int, 44253090int, n);
    primality::lemma_power_step(b, 264nat, 986076774int, 1nat, 4096int, 265nat, 1051014364int, 2420int, n);
    primality::lemma_power_step(b, 265nat, 1051014364int, 265nat, 1051014364int, 530nat, 1011359804int, 662025956int, n);
    primality::lemma_power_step(b, 530nat, 1011359804int, 530nat, 1011359804int, 1060nat, 1389268025int, 613012163int, n);
    primality::lemma_power_step(b, 1060nat, 1389268025int, 1060nat, 1389268025int, 2120nat, 238865972int, 1156724129int, n);
    primality::lemma_power_step(b, 2120nat, 238865972int, 1nat, 4096int, 2121nat, 617831710int, 586int, n);
    primality::lemma_power_step(b, 2121nat, 617831710int, 2121nat, 617831710int, 4242nat, 1367691927int, 228769489int, n);
    primality::lemma_power_step(b, 4242nat, 1367691927int, 1nat, 4096int, 4243nat, 704314743int, 3357int, n);
    primality::lemma_power_step(b, 4243nat, 704314743int, 4243nat, 704314743int, 8486nat, 1569830979int, 297297510int, n);
    primality::lemma_power_step(b, 8486nat, 1569830979int, 8486nat, 1569830979int, 16972nat, 374541415int, 1476942218int, n);
    primality::lemma_power_step(b, 16972nat, 374541415int, 1nat, 4096int, 16973nat, 713381157int, 919int, n);
    primality::lemma_power_step(b, 16973nat, 713381157int, 16973nat, 713381157int, 33946nat, 1091129535int, 305000802int, n);
    primality::lemma_power_step(b, 33946nat, 1091129535int, 33946nat, 1091129535int, 67892nat, 926911579int, 713526878int, n);
    primality::lemma_power_step(b, 67892nat, 926911579int, 1nat, 4096int, 67893nat, 651830409int, 2275int, n);
    primality::lemma_power_step(b, 67893nat, 651830409int, 67893nat, 651830409int, 135786nat, 936455208int, 254640189int, n);
    primality::lemma_power_step(b, 135786nat, 936455208int, 1nat, 4096int, 135787nat, 1365614382int, 2298int, n);
    primality::lemma_power_step(b, 135787nat, 1365614382int, 135787nat, 1365614382int, 271574nat, 1660407557int, 1117670731int, n);
    primality::lemma_power_step(b, 271574nat, 1660407557int, 1nat, 4096int, 271575nat, 1640193697int, 4075int, n);
    primality::lemma_power_step(b, 271575nat, 1640193697int, 271575nat, 1640193697int, 543150nat, 1161324257int, 1612307936int, n);
    primality::lemma_power_step(b, 543150nat, 1161324257int, 1nat, 4096int, 543151nat, 1383149222int, 2850int, n);
    primality::lemma_power_step(b, 543151nat, 1383149222int, 543151nat, 1383149222int, 1086302nat, 542076736int, 1146557364int, n);
    primality::lemma_power_step(b, 1086302nat, 542076736int, 1nat, 4096int, 1086303nat, 1159173846int, 1330int, n);
    primality::lemma_power_step(b, 1086303nat, 1159173846int, 1086303nat, 1159173846int, 2172606nat, 641735293int, 805294739int, n);
    primality::lemma_power_step(b, 2172606nat, 641735293int, 2172606nat, 641735293int, 4345212nat, 34064502int, 246813871int, n);
    primality::lemma_power_step(b, 4345212nat, 34064502int, 4345212nat, 34064502int, 8690424nat, 702534653int, 695443int, n);
    primality::lemma_power_step(b, 8690424nat, 702534653int, 1nat, 4096int, 8690425nat, 981469620int, 1724int, n);
    primality::lemma_power_step(b, 8690425nat, 981469620int, 8690425nat, 981469620int, 17380850nat, 1113851476int, 577313132int, n);
    primality::lemma_power_step(b, 17380850nat, 1113851476int, 1nat, 4096int, 17380851nat, 487802058int, 2734int, n);
    primality::lemma_power_step(b, 17380851nat, 487802058int, 17380851nat, 487802058int, 34761702nat, 407355629int, 142608355int, n);
    primality::lemma_power_step(b, 34761702nat, 407355629int, 1nat, 4096int, 34761703nat, 1635461141int, 999int, n);
    primality::lemma_power_step(b, 34761703nat, 1635461141int, 34761703nat, 1635461141int, 69523406nat, 1381777705int, 1603017168int, n);
    primality::lemma_power_step(b, 69523406nat, 1381777705int, 69523406nat, 1381777705int, 139046812nat, 1568757648int, 1144284661int, n);
    primality::lemma_power_step(b, 139046812nat, 1568757648int, 1nat, 4096int, 139046813nat, 1int, 3851int, n);
    primality::lemma_residue_one(b - 1, 49710509int, 122int, n);
    primality::lemma_prime_by_one(n, 139046813nat, b, 49710509int);
}

/// The order of the generator is prime.
pub proof fn lemma_group_order_prime()
    ensures
        primality::is_prime(order::group_order() as int),
{
    let n = 199372529839252601278447397890876471698671718266839763841250021879int;
    let b = 8619393050760377026577792904315531356126235667378830468646948126int;
    lemma_prime_27524606262830861217425312309();
    lemma_prime_1668561757();
    power::lemma_pow1(b);
    primality::lemma_power_step(b, 1nat, 8619393050760377026577792904315531356126235667378830468646948126int, 1nat, 8619393050760377026577792904315531356126235667378830468646948126int, 2nat, 66827220851138184105035337733511083730687725514432556298418023909int, 372638781397803369348690800146506518269749353460099275862885273int, n);
    primality::lemma_power_step(b, 2nat, 66827220851138184105035337733511083730687725514432556298418023909int, 1nat, 8619393050760377026577792904315531356126235667378830468646948126int, 3nat, 102579288105281737105016722480233956313353866048705072673039117512int, 2889114580982380499716957436950102316465225114808035909521870818int, n);
    primality::lemma_power_step(b, 3nat, 102579288105281737105016722480233956313353866048705072673039117512int, 3nat, 102579288105281737105016722480233956313353866048705072673039117512int, 6nat, 3126247770544074102814003279591329783663296727694322330383875994int, 52778135266028590938501768677573621689184543793423051141194243850int, n);
    primality::lemma_power_step(b, 6nat, 3126247770544074102814003279591329783663296727694322330383875994int, 6nat, 3126247770544074102814003279591329783663296727694322330383875994int, 12nat, 135767718566474073107375768423527593956801661433948517811042874832int, 49020921441443208882465664658166009315374694296786943053737676int, n);
    primality::lemma_power_step(b, 12nat, 135767718566474073107375768423527593956801661433948517811042874832int, 12nat, 135767718566474073107375768423527593956801661433948517811042874832int, 24nat, 143886118235166684851120286305684928101611066951745573273846610852int, 92454429000861441177352666625900714438964983584162638703563982468int, n);
    primality::lemma_power_step(b, 24nat, 143886118235166684851120286305684928101611066951745573273846610852int, 24nat, 143886118235166684851120286305684928101611066951745573273846610852int, 48nat, 197301596769154128256702014295382694515098061624233802105782418952int, 103841863457702403720522043840233022312695065957439933509209330488int, n);
    primality::lemma_power_step(b, 48nat, 197301596769154128256702014295382694515098061624233802105782418952int, 1nat, 8619393050760377026577792904315531356126235667378830468646948126int, 49nat, 97095825314192653705983088890803035891028483533535034315673316651int, 8529861227457594848872330289120560376469763850919539441265200419int, n);
    primality::lemma_power_step(b, 49nat, 97095825314192653705983088890803035891028483533535034315673316651int, 49nat, 97095825314192653705983088890803035891028483533535034315673316651int, 98nat, 177300326249947748396363015326079083380038984270647853313464534769int, 47286350336454940665003548544355240802933120631750252823341974008int, n);
    primality::lemma_power_step(b, 98nat, 177300326249947748396363015326079083380038984270647853313464534769int, 1nat, 8619393050760377026577792904315531356126235667378830468646948126int, 99nat, 47363607858373743386734386473525190258510326299536129690476594194int, 7665154277816010516766139847031760924835183264429833480730965300int, n);
    primality::lemma_power_step(b, 99nat, 47363607858373743386734386473525190258510326299536129690476594194int, 99nat, 47363607858373743386734386473525190258510326299536129690476594194int, 198nat, 87355159948493807519277794179725151061431084445697316007582490091int, 11251857771833009724001584279747498948063628295864016636625047855int, n);
    primality::lemma_power_step(b, 198nat, 87355159948493807519277794179725151061431084445697316007582490091int, 198nat, 87355159948493807519277794179725151061431084445697316007582490091int, 396nat, 125132705601758800509373011873534777530811796578423647491308025095int, 38274701012117844203047618892867268073261602086246204730609776734int, n);
    primality::lemma_power_step(b, 396nat, 125132705601758800509373011873534777530811796578423647491308025095int, 1nat, 8619393050760377026577792904315531356126235667378830468646948126int, 397nat, 67401344833056940995413825566366986201396098093580312942745253845int, 5409812344540429764604700805485197021911309970548052728120456875int, n);
    primality::lemma_power_step(b, 397nat, 67401344833056940995413825566366986201396098093580312942745253845int, 397nat, 67401344833056940995413825566366986201396098093580312942745253845int, 794nat, 181570086164601736367745358788150196898145241802684045119898060832int, 22786194712819630287440286776588326281426843423066737896997798767int, n);
    primality::lemma_power_step(b, 794nat, 181570086164601736367745358788150196898145241802684045119898060832int, 1nat, 8619393050760377026577792904315531356126235667378830468646948126int, 795nat, 40736195633821014749845513649895928164355016021426387978376847265int, 7849747104954516614916142236736302191598243181242277385541051673int, n);
    primality::lemma_power_step(b, 795nat, 40736195633821014749845513649895928164355016021426387978376847265int, 795nat, 40736195633821014749845513649895928164355016021426387978376847265int, 1590nat, 29068671107288110800632354459725246162907432604722846971262277314int, 8323301289575285706106133439511216681417063275564469622704814009int, n);
    primality::lemma_power_step(b, 1590nat, 29068671107288110800632354459725246162907432604722846971262277314int, 1nat, 8619393050760377026577792904315531356126235667378830468646948126int, 1591nat, 191531755496070760985906501231331126160270024419645892349404369782int, 1256714262185525984288439964011480174130747485673033009025681258int, n);
    primality::lemma_power_step(b, 1591nat, 191531755496070760985906501231331126160270024419645892349404369782int, 1591nat, 191531755496070760985906501231331126160270024419645892349404369782int, 3182nat, 34637918857124121209299230985984866667977639347709145899989932410int, 183999337285753694317331952570987332479097907187873942395411540966int, n);
    primality::lemma_power_step(b, 3182nat, 34637918857124121209299230985984866667977639347709145899989932410int, 3182nat, 34637918857124121209299230985984866667977639347709145899989932410int, 6364nat, 48136106855872083799721537073146890003565638733076188225501332123int, 6017807085660505096812223965117198017722402679121908547700174463int, n);
    primality::lemma_power_step(b, 6364nat, 48136106855872083799721537073146890003565638733076188225501332123int, 1nat, 8619393050760377026577792904315531356126235667378830468646948126int, 6365nat, 106407915851374912865038582817481557909465086829259626597649266793int, 2081049105705214308853696583984833408096206645628719058687557895int, n);
    primality::lemma_power_step(b, 6365nat, 106407915851374912865038582817481557909465086829259626597649266793int, 6365nat, 106407915851374912865038582817481557909465086829259626597649266793int, 12730nat, 137291903665055562707902074732774521868865778354728297030120681276int, 56791397315178544584688892185267530588583130404310196321683651987int, n);
    primality::lemma_power_step(b, 12730nat, 137291903665055562707902074732774521868865778354728297030120681276int, 12730nat, 137291903665055562707902074732774521868865778354728297030120681276int, 25460nat, 112306556669918862243622063881253761003288946496243305084553447168int, 94541945307973314229589828676074163280154964390204988292464272752int, n);
    primality::lemma_power_step(b, 25460nat, 112306556669918862243622063881253761003288946496243305084553447168int, 25460nat, 112306556669918862243622063881253761003288946496243305084553447168int, 50920nat, 144811067690026923058510037544221406726731730186089975225203058156int, 63262289349605712155781119698823907778439831660465140698106474892int, n);
    primality::lemma_power_step(b, 50920nat, 144811067690026923058510037544221406726731730186089975225203058156int, 50920nat, 144811067690026923058510037544221406726731730186089975225203058156int, 101840nat, 170211240006241781787498995999027458951807830829041591386480927384int, 105181217003331233633085121806795622144222555262234131890941004488int, n);
    primality::lemma_power_step(b, 101840nat, 170211240006241781787498995999027458951807830829041591386480927384int, 101840nat, 170211240006241781787498995999027458951807830829041591386480927384int, 203680nat, 136901082416232998993981222236205344600663940445785072261263864657int, 145315235994755591537729348667741928381401823116283255110308705481int, n);
    primality::lemma_power_step(b, 203680nat, 136901082416232998993981222236205344600663940445785072261263864657int, 1nat, 8619393050760377026577792904315531356126235667378830468646948126int, 203681nat, 33973871012755702470513677110520119398832600161544578721460819779int, 5918589884832430449565053659527237618319215487947754538018632157int, n);
    primality::lemma_power_step(b, 203681nat, 33973871012755702470513677110520119398832600161544578721460819779int, 203681nat, 33973871012755702470513677110520119398832600161544578721460819779int, 407362nat, 131561438214573954008299978951437535658201244862880865014157239282int, 5789282568275450454344145578084781042023451277428792989676461921int, n);
    primality::lemma_power_step(b, 407362nat, 131561438214573954008299978951437535658201244862880865014157239282int, 1nat, 8619393050760377026577792904315531356126235667378830468646948126int, 407363nat, 53073470916824877928490266505653140302751662557471669917757879303int, 5687743177101827234711993863792123596013836421708072963872997651int, n);
    primality::lemma_power_step(b, 407363nat, 53073470916824877928490266505653140302751662557471669917757879303int, 407363nat, 53073470916824877928490266505653140302751662557471669917757879303int, 814726nat, 179843595579923470220926285386192244802906517322390545520803595238int, 14128291984006735197463178803195232597742399819061253176613321549int, n);
    primality::lemma_power_step(b, 814726nat, 179843595579923470220926285386192244802906517322390545520803595238int, 1nat, 8619393050760377026577792904315531356126235667378830468646948126int, 814727nat, 32537396949911377622945596384585303830548580274098584092902969886int, 7775106426222208997441636696358600989145261555378945073479221338int, n);
    primality::lemma_power_step(b, 814727nat, 32537396949911377622945596384585303830548580274098584092902969886int, 814727nat, 32537396949911377622945596384585303830548580274098584092902969886int, 1629454nat, 17618520419596199586669218950582372336072962953013007903770895664int, 5310070555505727135045735173897735919624617342780471893956773708int, n);
    primality::lemma_power_step(b, 1629454nat, 17618520419596199586669218950582372336072962953013007903770895664int, 1629454nat, 17618520419596199586669218950582372336072962953013007903770895664int, 3258908nat, 22990530726967121080466246852597759984450606017253041752993818712int, 1556945994646319948559381466911330230004645706669035992460614296int, n);
    primality::lemma_power_step(b, 3258908nat, 22990530726967121080466246852597759984450606017253041752993818712int, 1nat, 8619393050760377026577792904315531356126235667378830468646948126int, 3258909nat, 44552396848197535601622773342358833391925717185758658760402698370int, 993940443756653252236522107371917495892222402746856949125572898int, n);
    primality::lemma_power_step(b, 3258909nat, 44552396848197535601622773342358833391925717185758658760402698370int, 3258909nat, 44552396848197535601622773342358833391925717185758658760402698370int, 6517818nat, 53676941190113134946875525128666035795945950313305844995465689132int, 9955815209445619721057380597771899710530945895545322395658473192int, n);
    primality::lemma_power_step(b, 6517818nat, 53676941190113134946875525128666035795945950313305844995465689132int, 1nat, 8619393050760377026577792904315531356126235667378830468646948126int, 6517819nat, 110697065790986281211318283542673831649162578029109604982918177641int, 2320593786180894688103310750434335421158277418927339138973585529int, n);
    primality::lemma_power_step(b, 6517819nat, 110697065790986281211318283542673831649162578029109604982918177641int, 6517819nat, 110697065790986281211318283542673831649162578029109604982918177641int, 13035638nat, 73902894927594426181791382919793204181758808049693716530388319889int, 61462029822332126750163795476947610596638963102625512461707301248int, n);
    primality::lemma_power_step(b, 13035638nat, 73902894927594426181791382919793204181758808049693716530388319889int, 13035638nat, 73902894927594426181791382919793204181758808049693716530388319889int, 26071276nat, 121472807931855388929885129284062046919840807186246991265641371540int, 27394134402982185219533025753294337625974316407729315306959952539int, n);
    primality::lemma_power_step(b, 26071276nat, 121472807931855388929885129284062046919840807186246991265641371540int, 1nat, 8619393050760377026577792904315531356126235667378830468646948126int, 26071277nat, 134019812956215220752748156639890062350098604430567618928170184707int, 5251585448548819867364672423451066910036636529427777599242833427int, n);
    primality::lemma_power_step(b, 26071277nat, 134019812956215220752748156639890062350098604430567618928170184707int, 26071277nat, 134019812956215220752748156639890062350098604430567618928170184707int, 52142554nat, 143075552717312162905709688981477974673774468268510104542521394278int, 90089192725299300417703702801445816380898524575375775129811130549int, n);
    primality::lemma_power_step(b, 52142554nat, 143075552717312162905709688981477974673774468268510104542521394278int, 52142554nat, 143075552717312162905709688981477974673774468268510104542521394278int, 104285108nat, 21669848443578915508986435477608961982221202583083862385333602148int, 102675197038775315134133107845153865932626637780087875788743534784int, n);
    primality::lemma_power_step(b, 104285108nat, 21669848443578915508986435477608961982221202583083862385333602148int, 1nat, 8619393050760377026577792904315531356126235667378830468646948126int, 104285109nat, 111042559971834972180902901783257417468431165619835719683526989132int, 936843913432858069680242256299161165819936265694152860117462004int, n);
    primality::lemma_power_step(b, 104285109nat, 111042559971834972180902901783257417468431165619835719683526989132int, 104285109nat, 111042559971834972180902901783257417468431165619835719683526989132int, 208570218nat, 77989175671436474322524421331192285258591378666901718521025120499int, 61846284114668132614923102134583023157700683139609017535136088075int, n);
    primality::lemma_power_step(b, 208570218nat, 77989175671436474322524421331192285258591378666901718521025120499int, 1nat, 8619393050760377026577792904315531356126235667378830468646948126int, 208570219nat, 3845729268649758290254163113089675691745469870800737590537590767int, 3371674921108227801980614760911992759735215796130378135843089933int, n);
    primality::lemma_power_step(b, 208570219nat, 3845729268649758290254163113089675691745469870800737590537590767int, 208570219nat, 3845729268649758290254163113089675691745469870800737590537590767int, 417140438nat, 127161189642592092784705442120317113879218565569002443769015539337int, 74180899543551919659067947710798141824560850693478117765608488int, n);
    primality::lemma_power_step(b, 417140438nat, 127161189642592092784705442120317113879218565569002443769015539337int, 1nat, 8619393050760377026577792904315531356126235667378830468646948126int, 417140439nat, 36063747579435058221415217597527767046070307375203863155665475587int, 5497508985894350564447628345072139153532926259581170751128618125int, n);
    primality::lemma_power_step(b, 417140439nat, 36063747579435058221415217597527767046070307375203863155665475587int, 417140439nat, 36063747579435058221415217597527767046070307375203863155665475587int, 834280878nat, 155368273428298730649266628341825785121172668269264271927675450007int, 6523435753771261011462634358033341162423969548984156187105522078int, n);
    primality::lemma_power_step(b, 834280878nat, 155368273428298730649266628341825785121172668269264271927675450007int, 834280878nat, 155368273428298730649266628341825785121172668269264271927675450007int, 1668561756nat, 75206230450360623528331848460405042173364723785601064128030311455int, 121076360958820693464538104253872729494714570365859507264909933086int, n);
    primality::lemma_power_step(b, 1668561756nat, 75206230450360623528331848460405042173364723785601064128030311455int, 1nat, 8619393050760377026577792904315531356126235667378830468646948126int, 1668561757nat, 158667493584337363034435016686225889811705014140719429640557001534int, 3251360960511308328337615093627688233283370390608092939213467324int, n);
    primality::lemma_power_step(b, 1nat, 8619393050760377026577792904315531356126235667378830468646948126int, 1nat, 8619393050760377026577792904315531356126235667378830468646948126int, 2nat, 66827220851138184105035337733511083730687725514432556298418023909int, 372638781397803369348690800146506518269749353460099275862885273int, n);
    primality::lemma_power_step(b, 2nat, 66827220851138184105035337733511083730687725514432556298418023909int, 2nat, 66827220851138184105035337733511083730687725514432556298418023909int, 4nat, 50256854338915501434735288513216479865516315547413156544953571243int, 22399662833628512495463808242932428461356418958893481047046256322int, n);
    primality::lemma_power_step(b, 4nat, 50256854338915501434735288513216479865516315547413156544953571243int, 1nat, 8619393050760377026577792904315531356126235667378830468646948126int, 5nat, 24034693989049179991046095765890399813407631317247550249516668077int, 2172734535651356783151802754521636229266686504800711024946907979int, n);
    primality::lemma_power_step(b, 5nat, 24034693989049179991046095765890399813407631317247550249516668077int, 5nat, 24034693989049179991046095765890399813407631317247550249516668077int, 10nat, 94022264252817408395966652045566004972390477713920536504416643451int, 2897422807510091603367308486662729294825932049053742359489047682int, n);
    primality::lemma_power_step(b, 10nat, 94022264252817408395966652045566004972390477713920536504416643451int, 1nat, 8619393050760377026577792904315531356126235667378830468646948126int, 11nat, 120580381677444001730437101322907322882049998486722067711641604717int, 4064827043980936371449111033227183439821156351453997119004819371int, n);
    primality::lemma_power_step(b, 11nat, 120580381677444001730437101322907322882049998486722067711641604717int, 11nat, 120580381677444001730437101322907322882049998486722067711641604717int, 22nat, 161195630805694240629775762797036442653344508788416545344246571978int, 72926939620021318730389107094001543999373302439630263290907782809int, n);
    primality::lemma_power_step(b, 22nat, 161195630805694240629775762797036442653344508788416545344246571978int, 22nat, 161195630805694240629775762797036442653344508788416545344246571978int, 44nat, 142653441744545208524404099053038801870714204535867093991152019139int, 130329044887957919800303029109792130448229578337556812818037590055int, n);
    primality::lemma_power_step(b, 44nat, 142653441744545208524404099053038801870714204535867093991152019139int, 44nat, 142653441744545208524404099053038801870714204535867093991152019139int, 88nat, 96050464396884962822155639395465828534557682982869630990516590955int, 102070252396214669423259820794433957839629252936460402100234179154int, n);
    primality::lemma_power_step(b, 88nat, 96050464396884962822155639395465828534557682982869630990516590955int, 88nat, 96050464396884962822155639395465828534557682982869630990516590955int, 176nat, 129541808271307571135644534204888647914346064420347439715552802558int, 46273635180812684222871783743889768400655988821144684917928743773int, n);
    primality::lemma_power_step(b, 176nat, 129541808271307571135644534204888647914346064420347439715552802558int, 1nat, 8619393050760377026577792904315531356126235667378830468646948126int, 177nat, 78631494386791752949344342576160754440481198514434539137137514366int, 5600429321416024831461678858445006980704826603045297001781768298int, n);
    primality::lemma_power_step(b, 177nat, 78631494386791752949344342576160754440481198514434539137137514366int, 177nat, 78631494386791752949344342576160754440481198514434539137137514366int, 354nat, 153382755504442365090929599388119379895404829301704272734557934636int, 31011854614500492675653440143942069720091745056946786311792143080int, n);
    primality::lemma_power_step(b, 354nat, 153382755504442365090929599388119379895404829301704272734557934636int, 1nat, 8619393050760377026577792904315531356126235667378830468646948126int, 355nat, 175664805586842330439746630176778868188950645818441242467251989397int, 6631135482743817660187957398694401316441974051371119231274998341int, n);
    primality::lemma_power_step(b, 355nat, 175664805586842330439746630176778868188950645818441242467251989397int, 355nat, 175664805586842330439746630176778868188950645818441242467251989397int, 710nat, 43414053541193093849290675497010123531497775011589903543530018698int, 154776206866326996337069134660087604137582323689239892332617552009int, n);
    primality::lemma_power_step(b, 710nat, 43414053541193093849290675497010123531497775011589903543530018698int, 1nat, 8619393050760377026577792904315531356126235667378830468646948126int, 711nat, 97659807929775478121165515924769661874832413715382652057748203899int, 1876902458427978411179814259598957540345426795226654475926638231int, n);
    primality::lemma_power_step(b, 711nat, 97659807929775478121165515924769661874832413715382652057748203899int, 711nat, 97659807929775478121165515924769661874832413715382652057748203899int, 1422nat, 140806560628525749767309353765710377744219628770470400866475283076int, 47837272730452658202851026170618335286325693539240962146640625875int, n);
    primality::lemma_power_step(b, 1422nat, 140806560628525749767309353765710377744219628770470400866475283076int, 1422nat, 140806560628525749767309353765710377744219628770470400866475283076int, 2844nat, 188733805967820328480102974836388818977518540007163398213377369148int, 99444429641436215759338615400125858960378973878766039355369347532int, n);
    primality::lemma_power_step(b, 2844nat, 188733805967820328480102974836388818977518540007163398213377369148int, 1nat, 8619393050760377026577792904315531356126235667378830468646948126int, 2845nat, 129650451026057829697363888837070932267859154183307306278551850941int, 8159453345524575594388972425927438328496830619279245073949920333int, n);
    primality::lemma_power_step(b, 2845nat, 129650451026057829697363888837070932267859154183307306278551850941int, 2845nat, 129650451026057829697363888837070932267859154183307306278551850941int, 5690nat, 52632868993432923647574168164010227967591259776879903849078308381int, 84310709528604301638041177448920418765701637593757279558763334900int, n);
    primality::lemma_power_step(b, 5690nat, 52632868993432923647574168164010227967591259776879903849078308381int, 1nat, 8619393050760377026577792904315531356126235667378830468646948126int, 5691nat, 133299862015727767164676807470079104008241547911308097761028630102int, 2275455829393099779770564461010046334991664805919992678775140976int, n);
    primality::lemma_power_step(b, 5691nat, 133299862015727767164676807470079104008241547911308097761028630102int, 5691nat, 133299862015727767164676807470079104008241547911308097761028630102int, 11382nat, 71260780294558673491133578521689326638687456563717919597535574873int, 89123878940285776024971768741447102161901903965798881138024267789int, n);
    primality::lemma_power_step(b, 11382nat, 71260780294558673491133578521689326638687456563717919597535574873int, 1nat, 8619393050760377026577792904315531356126235667378830468646948126int, 11383nat, 103432678841106721874022171455688054067747649222393490748883454285int, 3080788887806709595669371490970410802155131235349758019283732647int, n);
    primality::lemma_power_step(b, 11383nat, 103432678841106721874022171455688054067747649222393490748883454285int, 11383nat, 103432678841106721874022171455688054067747649222393490748883454285int, 22766nat, 174298443801171564394523073924060941537046587756662161647414164483int, 53659945333859297416157069252080535266110428990716327939507919498int, n);
    primality::lemma_power_step(b, 22766nat, 174298443801171564394523073924060941537046587756662161647414164483int, 1nat, 8619393050760377026577792904315531356126235667378830468646948126int, 22767nat, 149796837037823202014498415980064883204601917594720390401974656666int, 7535375091390264450005312832658006328546404819216777475534538048int, n);
    primality::lemma_power_step(b, 22767nat, 149796837037823202014498415980064883204601917594720390401974656666int, 22767nat, 149796837037823202014498415980064883204601917594720390401974656666int, 45534nat, 61051460234036190942970740774511133680336682265843296007269408626int, 112548566267519654351291241206032157259519660404466165695054792670int, n);
    primality::lemma_power_step(b, 45534nat, 61051460234036190942970740774511133680336682265843296007269408626int, 1nat, 8619393050760377026577792904315531356126235667378830468646948126int, 45535nat, 79141604286701937351993209152712584275042313949615857895413838363int, 2639413426234315669672299191386407632310728994616988083005235847int, n);
    primality::lemma_power_step(b, 45535nat, 79141604286701937351993209152712584275042313949615857895413838363int, 45535nat, 79141604286701937351993209152712584275042313949615857895413838363int, 91070nat, 72961572037944360711342494973397878489569556612422580921556838130int, 31415529181090710246832251773571190545594263662683865582992727441int, n);
    primality::lemma_power_step(b, 91070nat, 72961572037944360711342494973397878489569556612422580921556838130int, 1nat, 8619393050760377026577792904315531356126235667378830468646948126int, 91071nat, 2852159573371300963748462281361108711766814246833789717404973281int, 3154318538784950775573454358925988743954125050230580845927009181int, n);
    primality::lemma_power_step(b, 91071nat, 2852159573371300963748462281361108711766814246833789717404973281int, 91071nat, 2852159573371300963748462281361108711766814246833789717404973281int, 182142nat, 129219335671462782547658705449034417630608216055114277782297056918int, 40802081603380315260805345452001659958222565752529069763415917int, n);
    primality::lemma_power_step(b, 182142nat, 129219335671462782547658705449034417630608216055114277782297056918int, 182142nat, 129219335671462782547658705449034417630608216055114277782297056918int, 364284nat, 100013039197648868010449486382835801218235706409175707040912236416int, 83750939634647358960302795072717373416732623558859440772317227452int, n);
    primality::lemma_power_step(b, 364284nat, 100013039197648868010449486382835801218235706409175707040912236416int, 1nat, 8619393050760377026577792904315531356126235667378830468646948126int, 364285nat, 28683884903355334765339429247851823394396943427001965841278295528int, 4323823827388272995365432141398149046734799480617327404266946472int, n);
    primality::lemma_power_step(b, 364285nat, 28683884903355334765339429247851823394396943427001965841278295528int, 364285nat, 28683884903355334765339429247851823394396943427001965841278295528int, 728570nat, 119077973161738867792303086646719199610878394857992723614314506100int, 4126773401593008685050828991782983571996048497606797703345563796int, n);
    primality::lemma_power_step(b, 728570nat, 119077973161738867792303086646719199610878394857992723614314506100int, 728570nat, 119077973161738867792303086646719199610878394857992723614314506100int, 1457140nat, 80576837130806119697046685496832918877508347055120949966891873372int, 71120949830652747247014474110824764148650775912208088104695143532int, n);
    primality::lemma_power_step(b, 1457140nat, 80576837130806119697046685496832918877508347055120949966891873372int, 1457140nat, 80576837130806119697046685496832918877508347055120949966891873372int, 2914280nat, 114018077123571925304925822463143043986143443910968257040591412674int, 32565302187012641125217457254671172773603113099633633053878723490int, n);
    primality::lemma_power_step(b, 2914280nat, 114018077123571925304925822463143043986143443910968257040591412674int, 1nat, 8619393050760377026577792904315531356126235667378830468646948126int, 2914281nat, 99866897719647531464272068553782476158512311758070280430854612568int, 4929298045284114160112184005538081428917748714826779512530155964int, n);
    primality::lemma_power_step(b, 2914281nat, 99866897719647531464272068553782476158512311758070280430854612568int, 2914281nat, 99866897719647531464272068553782476158512311758070280430854612568int, 5828562nat, 31829145101009109430242922006407881979263848784014482093782836370int, 50023928914318124802822659797899917161113595375247351979610818626int, n);
    primality::lemma_power_step(b, 5828562nat, 31829145101009109430242922006407881979263848784014482093782836370int, 5828562nat, 31829145101009109430242922006407881979263848784014482093782836370int, 11657124nat, 164259451784146990791807576008188236021498483503292112051851028610int, 5081414569388853944974443140268623350183296921055851741122210510int, n);
    primality::lemma_power_step(b, 11657124nat, 164259451784146990791807576008188236021498483503292112051851028610int, 11657124nat, 164259451784146990791807576008188236021498483503292112051851028610int, 23314248nat, 94505355308161036633144316318265728187344681072745087757351936874int, 135330416493097230875210931127973708801759257322063553820847853494int, n);
    primality::lemma_power_step(b, 23314248nat, 94505355308161036633144316318265728187344681072745087757351936874int, 23314248nat, 94505355308161036633144316318265728187344681072745087757351936874int, 46628496nat, 140522176797045939158976884519112306428853383442333182398440303749int, 44796854356629467620570793057877782546420812143652737847849060313int, n);
    primality::lemma_power_step(b, 46628496nat, 140522176797045939158976884519112306428853383442333182398440303749int, 46628496nat, 140522176797045939158976884519112306428853383442333182398440303749int, 93256992nat, 141819412729218361700063703528315438544936705238679143019492131400int, 99043143946165321125225618126061570170660395370793325446659680119int, n);
    primality::lemma_power_step(b, 93256992nat, 141819412729218361700063703528315438544936705238679143019492131400int, 1nat, 8619393050760377026577792904315531356126235667378830468646948126int, 93256993nat, 155280800116148563282496744111743539875311527672562010738832998530int, 6131222097280505520263551449144754627664157273076854938387478530int, n);
    primality::lemma_power_step(b, 93256993nat, 155280800116148563282496744111743539875311527672562010738832998530int, 93256993nat, 155280800116148563282496744111743539875311527672562010738832998530int, 186513986nat, 10015643248512304927824890081555862249782170006161328436474496349int, 120940065836311976622879756607021895289024225487975088966039273169int, n);
    primality::lemma_power_step(b, 186513986nat, 10015643248512304927824890081555862249782170006161328436474496349int, 186513986nat, 10015643248512304927824890081555862249782170006161328436474496349int, 373027972nat, 79336595425957367812057909280301810210044275308499744786433943806int, 503144087915969264178247923215124710923449455104301451751475405int, n);
    primality::lemma_power_step(b, 373027972nat, 79336595425957367812057909280301810210044275308499744786433943806int, 1nat, 8619393050760377026577792904315531356126235667378830468646948126int, 373027973nat, 185775093243196413769781075588423434966592748811494833763888602925int, 3429927381855646586224597067830842270794088301423278949380270689int, n);
    primality::lemma_power_step(b, 373027973nat, 185775093243196413769781075588423434966592748811494833763888602925int, 373027973nat, 185775093243196413769781075588423434966592748811494833763888602925int, 746055946nat, 65393101580439943302837480360969878914822709511676800344649924763int, 173105017513418238213511175226395376005107584239947233451305871778int, n);
    primality::lemma_power_step(b, 746055946nat, 65393101580439943302837480360969878914822709511676800344649924763int, 1nat, 8619393050760377026577792904315531356126235667378830468646948126int, 746055947nat, 151543465548109780095160577775731979673925746598690214799386134202int, 2827113874637407052129391482605532220396046441152324442785139984int, n);
    primality::lemma_power_step(b, 746055947nat, 151543465548109780095160577775731979673925746598690214799386134202int, 746055947nat, 151543465548109780095160577775731979673925746598690214799386134202int, 1492111894nat, 154142876887181847000987840117401977610971812290920397087568171855int, 115188496473648536351659857853409178555609280551413528191673597331int, n);
    primality::lemma_power_step(b, 1492111894nat, 154142876887181847000987840117401977610971812290920397087568171855int, 1nat, 8619393050760377026577792904315531356126235667378830468646948126int, 1492111895nat, 54461402137758918088629576040864814634749581490811931588839217798int, 6663997507263452055815366456889360389137917683316244004507747108int, n);
    primality::lemma_power_step(b, 1492111895nat, 54461402137758918088629576040864814634749581490811931588839217798int, 1492111895nat, 54461402137758918088629576040864814634749581490811931588839217798int, 2984223790nat, 144295608189132292786064314900208755590292502909976613057329745666int, 14876895654592505450600883807884725691080752277212211232444154222int, n);
    primality::lemma_power_step(b, 2984223790nat, 144295608189132292786064314900208755590292502909976613057329745666int, 2984223790nat, 144295608189132292786064314900208755590292502909976613057329745666int, 5968447580nat, 83246716060606011442472387230250508115894295920503767716668322602int, 104433758048107416506770659736242900482820463756034965814738519926int, n);
    primality::lemma_power_step(b, 5968447580nat, 83246716060606011442472387230250508115894295920503767716668322602int, 1nat, 8619393050760377026577792904315531356126235667378830468646948126int, 5968447581nat, 139356006665026268092878501979545626190062505891306678511497782526int, 3598972067465538618397478397193375073643420233928327484907579394int, n);
    primality::lemma_power_step(b, 5968447581nat, 139356006665026268092878501979545626190062505891306678511497782526int, 5968447581nat, 139356006665026268092878501979545626190062505891306678511497782526int, 11936895162nat, 60153979358524500052292207896776836185913925231254548561664798702int, 97406080011527263243306063667826896693669952564899369401699393306int, n);
    primality::lemma_power_step(b, 11936895162nat, 60153979358524500052292207896776836185913925231254548561664798702int, 11936895162nat, 60153979358524500052292207896776836185913925231254548561664798702int, 23873790324nat, 28722885939725501180111889100139407286752414758473788226722408323int, 18149447346549035977993200275557259035706440233902467813516280839int, n);
    primality::lemma_power_step(b, 23873790324nat, 28722885939725501180111889100139407286752414758473788226722408323int, 1nat, 8619393050760377026577792904315531356126235667378830468646948126int, 23873790325nat, 28055988107186738323492147654465299123881322551752042502442479790int, 1241765069973598826311465998532161146961710183034046844924508852int, n);
    primality::lemma_power_step(b, 23873790325nat, 28055988107186738323492147654465299123881322551752042502442479790int, 23873790325nat, 28055988107186738323492147654465299123881322551752042502442479790int, 47747580650nat, 186972022143693709115414700360013135936149146915736374771683727589int, 3948078851711653080669092906557277100562770836741243626385192409int, n);
    primality::lemma_power_step(b, 47747580650nat, 186972022143693709115414700360013135936149146915736374771683727589int, 1nat, 8619393050760377026577792904315531356126235667378830468646948126int, 47747580651nat, 7627279284413699523634350562564464273000052868737521256130726195int, 8083286848250038367398544678908000362258503030991212459516340661int, n);
    primality::lemma_power_step(b, 47747580651nat, 7627279284413699523634350562564464273000052868737521256130726195int, 47747580651nat, 7627279284413699523634350562564464273000052868737521256130726195int, 95495161302nat, 189947247219689645083367326307886359259594293289651931735642092723int, 291792401537720496313651551736034937105484502351173137339454138int, n);
    primality::lemma_power_step(b, 95495161302nat, 189947247219689645083367326307886359259594293289651931735642092723int, 95495161302nat, 189947247219689645083367326307886359259594293289651931735642092723int, 190990322604nat, 71404809570548101346697420578725197206725765166142134409757503270int, 180967542295962022859204327311797481258038437978641420014936648021int, n);
    primality::lemma_power_step(b, 190990322604nat, 71404809570548101346697420578725197206725765166142134409757503270int, 190990322604nat, 71404809570548101346697420578725197206725765166142134409757503270int, 381980645208nat, 34602216456441308385661974840664143647489934638335589689415901104int, 25573467086549516324672999903025421437964807342030098819441457324int, n);
    primality::lemma_power_step(b, 381980645208nat, 34602216456441308385661974840664143647489934638335589689415901104int, 1nat, 8619393050760377026577792904315531356126235667378830468646948126int, 381980645209nat, 174212377735631846497590103281777242224639469315515840780689115006int, 1495943820876555308466608027437347912288984662701410740686852462int, n);
    primality::lemma_power_step(b, 381980645209nat, 174212377735631846497590103281777242224639469315515840780689115006int, 381980645209nat, 174212377735631846497590103281777242224639469315515840780689115006int, 763961290418nat, 36919032887831389794373867297184240794819437903898519138747806658int, 152227353391024459405297752230354132193332155065758546291688616782int, n);
    primality::lemma_power_step(b, 763961290418nat, 36919032887831389794373867297184240794819437903898519138747806658int, 763961290418nat, 36919032887831389794373867297184240794819437903898519138747806658int, 1527922580836nat, 40816860464039533074659874364095214035621458635624950325077127895int, 6836523519422305275136702777387201435336182869500030479470127611int, n);
    primality::lemma_power_step(b, 1527922580836nat, 40816860464039533074659874364095214035621458635624950325077127895int, 1527922580836nat, 40816860464039533074659874364095214035621458635624950325077127895int, 3055845161672nat, 167644415521551137595860590122769608989999099458698570870217805272int, 8356297126209546286355405325536901620427520823328612749323699407int, n);
    primality::lemma_power_step(b, 3055845161672nat, 167644415521551137595860590122769608989999099458698570870217805272int, 1nat, 8619393050760377026577792904315531356126235667378830468646948126int, 3055845161673nat, 34075393026607607488227550967222864768614410772757111958129597547int, 7247704141138664138943656509793047762594833773784706889246614275int, n);
    primality::lemma_power_step(b, 3055845161673nat, 34075393026607607488227550967222864768614410772757111958129597547int, 3055845161673nat, 34075393026607607488227550967222864768614410772757111958129597547int, 6111690323346nat, 57910822461053835281515725127309300268925174741732674227260965976int, 5823933772892186144847409756882333391508351944278636660828199527int, n);
    primality::lemma_power_step(b, 6111690323346nat, 57910822461053835281515725127309300268925174741732674227260965976int, 1nat, 8619393050760377026577792904315531356126235667378830468646948126int, 6111690323347nat, 45603393237935791595196117463693347706347566559997810629217019615int, 2503635486228109129422644583292064133767679595732138135549209559int, n);
    primality::lemma_power_step(b, 6111690323347nat, 45603393237935791595196117463693347706347566559997810629217019615int, 6111690323347nat, 45603393237935791595196117463693347706347566559997810629217019615int, 12223380646694nat, 87446117209132020550357913725079674142986627751830175333150593445int, 10431073310302957899376142738635710137871560746014020511701866820int, n);
    primality::lemma_power_step(b, 12223380646694nat, 87446117209132020550357913725079674142986627751830175333150593445int, 12223380646694nat, 87446117209132020550357913725079674142986627751830175333150593445int, 24446761293388nat, 144684099549099451460801768059008654147327058392351501785411314748int, 38354448434388795356863514219825050336428994535719304935947553163int, n);
    primality::lemma_power_step(b, 24446761293388nat, 144684099549099451460801768059008654147327058392351501785411314748int, 1nat, 8619393050760377026577792904315531356126235667378830468646948126int, 24446761293389nat, 89314599583153493897162498769667607969288541937619529553912896520int, 6255069959810996208701474336585589925359159962642011203199666432int, n);
    primality::lemma_power_step(b, 24446761293389nat, 89314599583153493897162498769667607969288541937619529553912896520int, 24446761293389nat, 89314599583153493897162498769667607969288541937619529553912896520int, 48893522586778nat, 24187763458441146167979660797558320786910787461150928254155440292int, 40011017090121237781637234817237459366636227851612003249448195652int, n);
    primality::lemma_power_step(b, 48893522586778nat, 24187763458441146167979660797558320786910787461150928254155440292int, 48893522586778nat, 24187763458441146167979660797558320786910787461150928254155440292int, 97787045173556nat, 73792857267973717977519836620287354954333129958851461843471946175int, 2934445891784617168075806648760931756585500376874229158313823991int, n);
    primality::lemma_power_step(b, 97787045173556nat, 73792857267973717977519836620287354954333129958851461843471946175int, 1nat, 8619393050760377026577792904315531356126235667378830468646948126int, 97787045173557nat, 77793217154511262277248765735305758486805868591145544396223673678int, 3190257161526467992748949217346639625671514075771427152747395468int, n);
    primality::lemma_power_step(b, 97787045173557nat, 77793217154511262277248765735305758486805868591145544396223673678int, 97787045173557nat, 77793217154511262277248765735305758486805868591145544396223673678int, 195574090347114nat, 42939438111301351482640913784232776761524164060465186920685057995int, 30354154808229081309464840303195887900504746338683271680231765391int, n);
    primality::lemma_power_step(b, 195574090347114nat, 42939438111301351482640913784232776761524164060465186920685057995int, 195574090347114nat, 42939438111301351482640913784232776761524164060465186920685057995int, 391148180694228nat, 6644303163389399001574525112320117346350840064603905753462293678int, 9247990918311913173381049714710549785391707483520406471994460493int, n);
    primality::lemma_power_step(b, 391148180694228nat, 6644303163389399001574525112320117346350840064603905753462293678int, 391148180694228nat, 6644303163389399001574525112320117346350840064603905753462293678int, 782296361388456nat, 190500434690941145156886522696775320951478488027610169780306190657int, 221428521585297801319011864365919362477774363003500957746979413int, n);
    primality::lemma_power_step(b, 782296361388456nat, 190500434690941145156886522696775320951478488027610169780306190657int, 1nat, 8619393050760377026577792904315531356126235667378830468646948126int, 782296361388457nat, 23885982522015863932379015341508709241260616128225906942266337375int, 8235829300384648251030171396318170779121259007325657546541168633int, n);
    primality::lemma_power_step(b, 782296361388457nat, 23885982522015863932379015341508709241260616128225906942266337375int, 782296361388457nat, 23885982522015863932379015341508709241260616128225906942266337375int, 1564592722776914nat, 183743598949643943632330670380131056869392740188427413120314214136int, 2861678895793993135274555358775906571976497451313601036578374591int, n);
    primality::lemma_power_step(b, 1564592722776914nat, 183743598949643943632330670380131056869392740188427413120314214136int, 1564592722776914nat, 183743598949643943632330670380131056869392740188427413120314214136int, 3129185445553828nat, 46968284383321557172150143764670586821581673752307996584956095816int, 169339829224159075442270794342616603183356489767315125280457438920int, n);
    primality::lemma_power_step(b, 3129185445553828nat, 46968284383321557172150143764670586821581673752307996584956095816int, 3129185445553828nat, 46968284383321557172150143764670586821581673752307996584956095816int, 6258370891107656nat, 108482319912068085630714445734348644485264777362425606495307772266int, 11064812889173887482786094921293058842132887086757033965212741210int, n);
    primality::lemma_power_step(b, 6258370891107656nat, 108482319912068085630714445734348644485264777362425606495307772266int, 6258370891107656nat, 108482319912068085630714445734348644485264777362425606495307772266int, 12516741782215312nat, 171608478707451968864380325635312978656108477275491738925566702522int, 59027257882481413163409737018693885182015217141887960120560110246int, n);
    primality::lemma_power_step(b, 12516741782215312nat, 171608478707451968864380325635312978656108477275491738925566702522int, 1nat, 8619393050760377026577792904315531356126235667378830468646948126int, 12516741782215313nat, 32541388238296057087689483922877831645315998285174445151250909313int, 7419080903548596110827052790874497775531184981893145831272595021int, n);
    primality::lemma_power_step(b, 12516741782215313nat, 32541388238296057087689483922877831645315998285174445151250909313int, 12516741782215313nat, 32541388238296057087689483922877831645315998285174445151250909313int, 25033483564430626nat, 17311637655045141566873359460909659346262451500984086266682378468int, 5311373383932593005728384357971305667632404352445161211801678219int, n);
    primality::lemma_power_step(b, 25033483564430626nat, 17311637655045141566873359460909659346262451500984086266682378468int, 25033483564430626nat, 17311637655045141566873359460909659346262451500984086266682378468int, 50066967128861252nat, 61503475774417275869379414165329898444689503629573974473983313472int, 1503179994461669929366770971926153284179387773431344781392915888int, n);
    primality::lemma_power_step(b, 50066967128861252nat, 61503475774417275869379414165329898444689503629573974473983313472int, 1nat, 8619393050760377026577792904315531356126235667378830468646948126int, 50066967128861253nat, 12903181172727887527424425384148788488564935299339788090441712171int, 2658955233777901111095233323294246922115913180928109736287206419int, n);
    primality::lemma_power_step(b, 50066967128861253nat, 12903181172727887527424425384148788488564935299339788090441712171int, 50066967128861253nat, 12903181172727887527424425384148788488564935299339788090441712171int, 100133934257722506nat, 179963045534819913435839817776811848625544040075483138051944944329int, 835080361925870222773213010369230478951461453359011572658259728int, n);
    primality::lemma_power_step(b, 100133934257722506nat, 179963045534819913435839817776811848625544040075483138051944944329int, 1nat, 8619393050760377026577792904315531356126235667378830468646948126int, 100133934257722507nat, 40568645015790505992987833987619547507004972575762979188569017176int, 7780270558472415000965537704676888404401481335656492375105797882int, n);
    primality::lemma_power_step(b, 100133934257722507nat, 40568645015790505992987833987619547507004972575762979188569017176int, 100133934257722507nat, 40568645015790505992987833987619547507004972575762979188569017176int, 200267868515445014nat, 121689741889914440671730419990530124053100267204953673708805537226int, 8254973539956529554559952313105202666803548083610962993861752250int, n);
    primality::lemma_power_step(b, 200267868515445014nat, 121689741889914440671730419990530124053100267204953673708805537226int, 1nat, 8619393050760377026577792904315531356126235667378830468646948126int, 200267868515445015nat, 175307953607220102421298858913239861542218910970783962580239963572int, 5260964067820370077028691358544582067743626811170412276995499976int, n);
    primality::lemma_power_step(b, 200267868515445015nat, 175307953607220102421298858913239861542218910970783962580239963572int, 200267868515445015nat, 175307953607220102421298858913239861542218910970783962580239963572int, 400535737030890030nat, 38217441057008467136045248018586820312853626629646609110808518052int, 154148009370850273330244851966660967709810942948088300232909185908int, n);
    primality::lemma_power_step(b, 400535737030890030nat, 38217441057008467136045248018586820312853626629646609110808518052int, 1nat, 8619393050760377026577792904315531356126235667378830468646948126int, 400535737030890031nat, 76649989831438216718069241929034289542226531281155894898779762399int, 1652239383882103931982359599878354945910695688019771915187945007int, n);
    primality::lemma_power_step(b, 400535737030890031nat, 76649989831438216718069241929034289542226531281155894898779762399int, 400535737030890031nat, 76649989831438216718069241929034289542226531281155894898779762399int, 801071474061780062nat, 131863110045827744526727758754165515563128556503455358278321235067int, 29468557909640691476297813542121357663610016082900334866774170346int, n);
    primality::lemma_power_step(b, 801071474061780062nat, 131863110045827744526727758754165515563128556503455358278321235067int, 801071474061780062nat, 131863110045827744526727758754165515563128556503455358278321235067int, 1602142948123560124nat, 28478003050105831493716386994746736241354279996429290666312245147int, 87213016783091148112534834198390681673698936369089871185776838898int, n);
    primality::lemma_power_step(b, 1602142948123560124nat, 28478003050105831493716386994746736241354279996429290666312245147int, 1nat, 8619393050760377026577792904315531356126235667378830468646948126int, 1602142948123560125nat, 18676608520215200891887964608666105155894670188053927289740684421int, 1231178145693008506771212427818017262855212546265511935799223619int, n);
    primality::lemma_power_step(b, 1602142948123560125nat, 18676608520215200891887964608666105155894670188053927289740684421int, 1602142948123560125nat, 18676608520215200891887964608666105155894670188053927289740684421int, 3204285896247120250nat, 106728486748846107411250340264526618776090800826065988361039969845int, 1749567536202773101962495102273276872084831594756017512321105724int, n);
    primality::lemma_power_step(b, 3204285896247120250nat, 106728486748846107411250340264526618776090800826065988361039969845int, 3204285896247120250nat, 106728486748846107411250340264526618776090800826065988361039969845int, 6408571792494240500nat, 174973229788006689628872888770865997067005080259843241053140108109int, 57134099130320395474045864428989063922235054305622441260375719604int, n);
    primality::lemma_power_step(b, 6408571792494240500nat, 174973229788006689628872888770865997067005080259843241053140108109int, 6408571792494240500nat, 174973229788006689628872888770865997067005080259843241053140108109int, 12817143584988481000nat, 136791902726703130004987448410513225014855863466390194202329807294int, 153559927072856779024256719174726008862097895917011571593596491053int, n);
    primality::lemma_power_step(b, 12817143584988481000nat, 136791902726703130004987448410513225014855863466390194202329807294int, 12817143584988481000nat, 136791902726703130004987448410513225014855863466390194202329807294int, 25634287169976962000nat, 191951225200933712589562296574349537311179551109307391189398827770int, 93854577993661867480734005471951725895746325261428487270556710854int, n);
    primality::lemma_power_step(b, 25634287169976962000nat, 191951225200933712589562296574349537311179551109307391189398827770int, 1nat, 8619393050760377026577792904315531356126235667378830468646948126int, 25634287169976962001nat, 138729674861597280130073241578921754099905918657234385355170853518int, 8298550747767702218223716036193342938475445393378247547161877938int, n);
    primality::lemma_power_step(b, 25634287169976962001nat, 138729674861597280130073241578921754099905918657234385355170853518int, 25634287169976962001nat, 138729674861597280130073241578921754099905918657234385355170853518int, 51268574339953924002nat, 9645357887598360133453757243869798378191180741143017511172801958int, 96532469657288492629298938640205496210568453502937563250417795154int, n);
    primality::lemma_power_step(b, 51268574339953924002nat, 9645357887598360133453757243869798378191180741143017511172801958int, 51268574339953924002nat, 9645357887598360133453757243869798378191180741143017511172801958int, 102537148679907848004nat, 190937174632579449987699473687922194637568630667007762375107890753int, 466628621580240954570595320194153435972079553553522873909745909int, n);
    primality::lemma_power_step(b, 102537148679907848004nat, 190937174632579449987699473687922194637568630667007762375107890753int, 1nat, 8619393050760377026577792904315531356126235667378830468646948126int, 102537148679907848005nat, 185172641476213700215001263421147221700413992694865733121047201052int, 8254710704061382622690840386140212403432275736473580455307642894int, n);
    primality::lemma_power_step(b, 102537148679907848005nat, 185172641476213700215001263421147221700413992694865733121047201052int, 102537148679907848005nat, 185172641476213700215001263421147221700413992694865733121047201052int, 205074297359815696010nat, 81414977263142747590577557344182392926130817292706587715082536996int, 171984110242892421880553348462412331569872517573853019977012808052int, n);
    primality::lemma_power_step(b, 205074297359815696010nat, 81414977263142747590577557344182392926130817292706587715082536996int, 1nat, 8619393050760377026577792904315531356126235667378830468646948126int, 205074297359815696011nat, 145184773340303115888186290655475291541624345155183536258980804040int, 3519781234734506181081626137030027612837304465691808636170478864int, n);
    primality::lemma_power_step(b, 205074297359815696011nat, 145184773340303115888186290655475291541624345155183536258980804040int, 205074297359815696011nat, 145184773340303115888186290655475291541624345155183536258980804040int, 410148594719631392022nat, 67633203843413605695255997080135727915331262529868070324620331230int, 105724787797346881225091083848019324368383736686377158562235146030int, n);
    primality::lemma_power_step(b, 410148594719631392022nat, 67633203843413605695255997080135727915331262529868070324620331230int, 1nat, 8619393050760377026577792904315531356126235667378830468646948126int, 410148594719631392023nat, 137503997394200295421257391014772491842168299687069677959817649008int, 2923959322172408157976243406401434234127885690076425436591065868int, n);
    primality::lemma_power_step(b, 410148594719631392023nat, 137503997394200295421257391014772491842168299687069677959817649008int, 410148594719631392023nat, 137503997394200295421257391014772491842168299687069677959817649008int, 820297189439262784046nat, 162969373997599304859799828035880260606635575082525919801923906364int, 94834274885454905100932384340493174804829592821970673646399166300int, n);
    primality::lemma_power_step(b, 820297189439262784046nat, 162969373997599304859799828035880260606635575082525919801923906364int, 820297189439262784046nat, 162969373997599304859799828035880260606635575082525919801923906364int, 1640594378878525568092nat, 39920672611484851744373756196052509038421962386266099150677502341int, 133213020282097252404169197953541825166586813979952443159152178445int, n);
    primality::lemma_power_step(b, 1640594378878525568092nat, 39920672611484851744373756196052509038421962386266099150677502341int, 1nat, 8619393050760377026577792904315531356126235667378830468646948126int, 1640594378878525568093nat, 181714254634322473327212007955593233715955977260345963468144683483int, 1725874514239963160064925641473606609075798691400654292408861277int, n);
    primality::lemma_power_step(b, 1640594378878525568093nat, 181714254634322473327212007955593233715955977260345963468144683483int, 1640594378878525568093nat, 181714254634322473327212007955593233715955977260345963468144683483int, 3281188757757051136186nat, 52498719767889188915708031054378635881673320004234222705161889963int, 165619959599902575127057016503871017905333459744968026384729219394int, n);
    primality::lemma_power_step(b, 3281188757757051136186nat, 52498719767889188915708031054378635881673320004234222705161889963int, 3281188757757051136186nat, 52498719767889188915708031054378635881673320004234222705161889963int, 6562377515514102272372nat, 10509898283508935304893815175659123303400311186252607615559695792int, 13823948462155357355666945799064544459344781613396472198938516863int, n);
    primality::lemma_power_step(b, 6562377515514102272372nat, 10509898283508935304893815175659123303400311186252607615559695792int, 1nat, 8619393050760377026577792904315531356126235667378830468646948126int, 6562377515514102272373nat, 104680168912996247311122131952735097194003096973518217148771747276int, 454370239982981436410035095626235781375755584834028616277069004int, n);
    primality::lemma_power_step(b, 6562377515514102272373nat, 104680168912996247311122131952735097194003096973518217148771747276int, 6562377515514102272373nat, 104680168912996247311122131952735097194003096973518217148771747276int, 13124755031028204544746nat, 25730313083089048616589960032476993959210080487080332024035899224int, 54962124283061685800298661739570667860972980192886903661044836488int, n);
    primality::lemma_power_step(b, 13124755031028204544746nat, 25730313083089048616589960032476993959210080487080332024035899224int, 1nat, 8619393050760377026577792904315531356126235667378830468646948126int, 13124755031028204544747nat, 191954756183046881405423344789417145329031740611186947693583264310int, 1112388361431136438907446305130835425949472839063902024359002166int, n);
    primality::lemma_power_step(b, 13124755031028204544747nat, 191954756183046881405423344789417145329031740611186947693583264310int, 13124755031028204544747nat, 191954756183046881405423344789417145329031740611186947693583264310int, 26249510062056409089494nat, 100625509169081157717921260656451855697616905178473388533682923483int, 184812965211411914945029650921177643024176460327986056836088618623int, n);
    primality::lemma_power_step(b, 26249510062056409089494nat, 100625509169081157717921260656451855697616905178473388533682923483int, 26249510062056409089494nat, 100625509169081157717921260656451855697616905178473388533682923483int, 52499020124112818178988nat, 24223636168250976057561970676231931147681677797925499054317634554int, 50786801490158560825152334046612344705949687573755291170248917465int, n);
    primality::lemma_power_step(b, 52499020124112818178988nat, 24223636168250976057561970676231931147681677797925499054317634554int, 52499020124112818178988nat, 24223636168250976057561970676231931147681677797925499054317634554int, 104998040248225636357976nat, 168818799732365123529769291381795908739705152111547021156148567061int, 2943156460345372427513631872805971034925781428370437990888728745int, n);
    primality::lemma_power_step(b, 104998040248225636357976nat, 168818799732365123529769291381795908739705152111547021156148567061int, 104998040248225636357976nat, 168818799732365123529769291381795908739705152111547021156148567061int, 209996080496451272715952nat, 13208474860789273247799421063662665567338305851428561855820115522int, 142947411892976566629803884095479061560629358580522368805096510081int, n);
    primality::lemma_power_step(b, 209996080496451272715952nat, 13208474860789273247799421063662665567338305851428561855820115522int, 209996080496451272715952nat, 13208474860789273247799421063662665567338305851428561855820115522int, 419992160992902545431904nat, 149175704973387176340485969061682556206779678359092436781353630889int, 875064424817032423203893535358614084631040121124625499718991805int, n);
    primality::lemma_power_step(b, 419992160992902545431904nat, 149175704973387176340485969061682556206779678359092436781353630889int, 419992160992902545431904nat, 149175704973387176340485969061682556206779678359092436781353630889int, 839984321985805090863808nat, 164227356467776612952508157422918944865013277577297039867011410387int, 111617136885654287202591335391475930085637838443059355269515706546int, n);
    primality::lemma_power_step(b, 839984321985805090863808nat, 164227356467776612952508157422918944865013277577297039867011410387int, 1nat, 8619393050760377026577792904315531356126235667378830468646948126int, 839984321985805090863809nat, 2219103421665258580497261877711589712458198108700558255470283208int, 7099975790167299551670841680821441031750035448915352273551511326int, n);
    primality::lemma_power_step(b, 839984321985805090863809nat, 2219103421665258580497261877711589712458198108700558255470283208int, 839984321985805090863809nat, 2219103421665258580497261877711589712458198108700558255470283208int, 1679968643971610181727618nat, 48172927780047082231046810460330754495329215383157896247317846418int, 24699591262732400848173750717532832199731733015289268436670274int, n);
    primality::lemma_power_step(b, 1679968643971610181727618nat, 48172927780047082231046810460330754495329215383157896247317846418int, 1nat, 8619393050760377026577792904315531356126235667378830468646948126int, 1679968643971610181727619nat, 66348025786376107775393782810449076660465752487016760448087662590int, 2082640970031821611761402853046106772035781611480566138372864082int, n);
    primality::lemma_power_step(b, 1679968643971610181727619nat, 66348025786376107775393782810449076660465752487016760448087662590int, 1679968643971610181727619nat, 66348025786376107775393782810449076660465752487016760448087662590int, 3359937287943220363455238nat, 129984484144003981456571255966059124755489942380011197603260273859int, 22079573997976867824324834981697430933859577255520089216534470279int, n);
    primality::lemma_power_step(b, 3359937287943220363455238nat, 129984484144003981456571255966059124755489942380011197603260273859int, 3359937287943220363455238nat, 129984484144003981456571255966059124755489942380011197603260273859int, 6719874575886440726910476nat, 163165644847634495575633571759316623166393150705458297730894712874int, 84745707604781232992223122763427890416393839865302684959741923033int, n);
    primality::lemma_power_step(b, 6719874575886440726910476nat, 163165644847634495575633571759316623166393150705458297730894712874int, 6719874575886440726910476nat, 163165644847634495575633571759316623166393150705458297730894712874int, 13439749151772881453820952nat, 138523471893493345496863223962201501431423299314225954984561228913int, 133534081550801655889475235076639437337888638177793731788219575397int, n);
    primality::lemma_power_step(b, 13439749151772881453820952nat, 138523471893493345496863223962201501431423299314225954984561228913int, 1nat, 8619393050760377026577792904315531356126235667378830468646948126int, 13439749151772881453820953nat, 95713248091402501478515471122282213867519888056864172773836687922int, 5988730001914755846856306351528502796698332877773012205887960404int, n);
    primality::lemma_power_step(b, 13439749151772881453820953nat, 95713248091402501478515471122282213867519888056864172773836687922int, 13439749151772881453820953nat, 95713248091402501478515471122282213867519888056864172773836687922int, 26879498303545762907641906nat, 51454955952951992518048477825007572925775489809758650765065401948int, 45949288337729340974998002735855415095988927023998030068263437784int, n);
    primality::lemma_power_step(b, 26879498303545762907641906nat, 51454955952951992518048477825007572925775489809758650765065401948int, 26879498303545762907641906nat, 51454955952951992518048477825007572925775489809758650765065401948int, 53758996607091525815283812nat, 65274931059590330752580978433144354610626752120613934676506677091int, 13279725618443579169965436107919907512959989583581495838990106747int, n);
    primality::lemma_power_step(b, 53758996607091525815283812nat, 65274931059590330752580978433144354610626752120613934676506677091int, 1nat, 8619393050760377026577792904315531356126235667378830468646948126int, 53758996607091525815283813nat, 48299006915385250162970899928540386492610959078573414015194438446int, 2822005055648968103077196174237418504184332232402865761329051380int, n);
    primality::lemma_power_step(b, 53758996607091525815283813nat, 48299006915385250162970899928540386492610959078573414015194438446int, 53758996607091525815283813nat, 48299006915385250162970899928540386492610959078573414015194438446int, 107517993214183051630567626nat, 29046009901218945936771606957989433568370675374567062439296565534int, 11700679481236888590816882103034788359361255326282500770782827658int, n);
    primality::lemma_power_step(b, 107517993214183051630567626nat, 29046009901218945936771606957989433568370675374567062439296565534int, 107517993214183051630567626nat, 29046009901218945936771606957989433568370675374567062439296565534int, 215035986428366103261135252nat, 109588814117964808009922865182600102787396806294335632772984834138int, 4231629562316997662572828443118504197974011905324400173727659942int, n);
    primality::lemma_power_step(b, 215035986428366103261135252nat, 109588814117964808009922865182600102787396806294335632772984834138int, 215035986428366103261135252nat, 109588814117964808009922865182600102787396806294335632772984834138int, 430071972856732206522270504nat, 116001091737723017060364858574640248493556387960973291130006485385int, 60237527153138241342936533305982497125462878854019967959152845821int, n);
    primality::lemma_power_step(b, 430071972856732206522270504nat, 116001091737723017060364858574640248493556387960973291130006485385int, 430071972856732206522270504nat, 116001091737723017060364858574640248493556387960973291130006485385int, 860143945713464413044541008nat, 163729473179747073111267810141247487016586066212175200873431593297int, 67493015688735844991786726547762735476796036270451743481025951232int, n);
    primality::lemma_power_step(b, 860143945713464413044541008nat, 163729473179747073111267810141247487016586066212175200873431593297int, 1nat, 8619393050760377026577792904315531356126235667378830468646948126int, 860143945713464413044541009nat, 40479384767909793355103972909164194177701151222035043306416192733int, 7078451000586751033529843105388434244955074742795330843056516391int, n);
    primality::lemma_power_step(b, 860143945713464413044541009nat, 40479384767909793355103972909164194177701151222035043306416192733int, 860143945713464413044541009nat, 40479384767909793355103972909164194177701151222035043306416192733int, 1720287891426928826089082018nat, 171538741834456082459570206947617916978168662417478463034235100352int, 8218687862914816247339630540509377463598562847759918899106632703int, n);
    primality::lemma_power_step(b, 1720287891426928826089082018nat, 171538741834456082459570206947617916978168662417478463034235100352int, 1nat, 8619393050760377026577792904315531356126235667378830468646948126int, 1720287891426928826089082019nat, 86266897948090609529508804516584439753498288304403703125244014916int, 7416065997137130395688797217187913058014471820446052955092184484int, n);
    primality::lemma_power_step(b, 1720287891426928826089082019nat, 86266897948090609529508804516584439753498288304403703125244014916int, 1720287891426928826089082019nat, 86266897948090609529508804516584439753498288304403703125244014916int, 3440575782853857652178164038nat, 149457809170878380404269940948762141868954144657227712942425057914int, 37326996289742109268712205916453830335307775325947347084196915098int, n);
    primality::lemma_power_step(b, 3440575782853857652178164038nat, 149457809170878380404269940948762141868954144657227712942425057914int, 3440575782853857652178164038nat, 149457809170878380404269940948762141868954144657227712942425057914int, 6881151565707715304356328076nat, 95663812939753954717830790954779718984427937201542043079189841545int, 112039691426741621130027362498391935217973094851399493555479263869int, n);
    primality::lemma_power_step(b, 6881151565707715304356328076nat, 95663812939753954717830790954779718984427937201542043079189841545int, 1nat, 8619393050760377026577792904315531356126235667378830468646948126int, 6881151565707715304356328077nat, 16857894151691485041570341633701715146468135598416349384146377009int, 4135795463532384496732515794910484014445680509602200047997069259int, n);
    primality::lemma_power_step(b, 6881151565707715304356328077nat, 16857894151691485041570341633701715146468135598416349384146377009int, 6881151565707715304356328077nat, 16857894151691485041570341633701715146468135598416349384146377009int, 13762303131415430608712656154nat, 7642209603405967189270890078524277609734019759817833766729232518int, 1425415003053659036762050964613115805463090723506762547232404797int, n);
    primality::lemma_power_step(b, 13762303131415430608712656154nat, 7642209603405967189270890078524277609734019759817833766729232518int, 13762303131415430608712656154nat, 7642209603405967189270890078524277609734019759817833766729232518int, 27524606262830861217425312308nat, 143525297234367539787983653132924403218891647894439982674659538419int, 292935880732812444793017471002954688623607751686047699542844695int, n);
    primality::lemma_power_step(b, 27524606262830861217425312308nat, 143525297234367539787983653132924403218891647894439982674659538419int, 1nat, 8619393050760377026577792904315531356126235667378830468646948126int, 27524606262830861217425312309nat, 102028781314011339306647259175851535431295189255581611912717165974int, 6204971921596511956189852360451454948348543196800703477881643580int, n);
    primality::lemma_power_step(b, 27524606262830861217425312309nat, 102028781314011339306647259175851535431295189255581611912717165974int, 27524606262830861217425312309nat, 102028781314011339306647259175851535431295189255581611912717165974int, 55049212525661722434850624618nat, 1491894133522381742718056383549813104321104571728202895106749568int, 52213172119626916682569324416633028726237133026665444081846526652int, n);
    primality::lemma_power_step(b, 55049212525661722434850624618nat, 1491894133522381742718056383549813104321104571728202895106749568int, 27524606262830861217425312309nat, 102028781314011339306647259175851535431295189255581611912717165974int, 82573818788492583652275936927nat, 7281313808003968430941999273004997538833950784513308994647380408int, 763475993485854346817368319665324535130914475993967620448798456int, n);
    primality::lemma_power_step(b, 82573818788492583652275936927nat, 7281313808003968430941999273004997538833950784513308994647380408int, 82573818788492583652275936927nat, 7281313808003968430941999273004997538833950784513308994647380408int, 165147637576985167304551873854nat, 37869166127810005974500241624415076877150420735397519168676866015int, 265921944278760531612938734488107776519240560296750057955081831int, n);
    primality::lemma_power_step(b, 165147637576985167304551873854nat, 37869166127810005974500241624415076877150420735397519168676866015int, 165147637576985167304551873854nat, 37869166127810005974500241624415076877150420735397519168676866015int, 330295275153970334609103747708nat, 174972785852740409664011543953641255376980093763942065045721813385int, 7192935477981436805820561294023706641364359632715224547271197960int, n);
    primality::lemma_power_step(b, 330295275153970334609103747708nat, 174972785852740409664011543953641255376980093763942065045721813385int, 330295275153970334609103747708nat, 174972785852740409664011543953641255376980093763942065045721813385int, 660590550307940669218207495416nat, 191247815049397545546320280066218555627446700054411317908558008572int, 153559147861308616676910616684068497747304754411033384546141983507int, n);
    primality::lemma_power_step(b, 660590550307940669218207495416nat, 191247815049397545546320280066218555627446700054411317908558008572int, 660590550307940669218207495416nat, 191247815049397545546320280066218555627446700054411317908558008572int, 1321181100615881338436414990832nat, 198769430384871332314109873038524378387213686624488939986085496849int, 183454193968739599039384323019955444268788231278764749210516983865int, n);
    primality::lemma_power_step(b, 1321181100615881338436414990832nat, 198769430384871332314109873038524378387213686624488939986085496849int, 27524606262830861217425312309nat, 102028781314011339306647259175851535431295189255581611912717165974int, 1348705706878712199653840303141nat, 19818263747761730751980092343532271413686784460794036598534161809int, 101720145503494823050557673472528819016986078236630659134410197123int, n);
    primality::lemma_power_step(b, 1348705706878712199653840303141nat, 19818263747761730751980092343532271413686784460794036598534161809int, 1348705706878712199653840303141nat, 19818263747761730751980092343532271413686784460794036598534161809int, 2697411413757424399307680606282nat, 160280690898820993935371027920229849879800102350577686911146941825int, 1969998466150371722837571000550012903755999640779326909212077664int, n);
    primality::lemma_power_step(b, 2697411413757424399307680606282nat, 160280690898820993935371027920229849879800102350577686911146941825int, 27524606262830861217425312309nat, 102028781314011339306647259175851535431295189255581611912717165974int, 2724936020020255260525105918591nat, 104688143982688421425692325288613712511615721094727589946327189625int, 82023554467405954958282965967053928960224693232154562190198408075int, n);
    primality::lemma_power_step(b, 2724936020020255260525105918591nat, 104688143982688421425692325288613712511615721094727589946327189625int, 2724936020020255260525105918591nat, 104688143982688421425692325288613712511615721094727589946327189625int, 5449872040040510521050211837182nat, 174420688632467093530141703509374904250766348801087325453151540271int, 54970499192523998620142194183418896355064623915671281575373648526int, n);
    primality::lemma_power_step(b, 5449872040040510521050211837182nat, 174420688632467093530141703509374904250766348801087325453151540271int, 5449872040040510521050211837182nat, 174420688632467093530141703509374904250766348801087325453151540271int, 10899744080081021042100423674364nat, 189460726730186684102717599573453731528312675556119923483953125564int, 152591616545934091362864705436052253176496165467369255298293890563int, n);
    primality::lemma_power_step(b, 10899744080081021042100423674364nat, 189460726730186684102717599573453731528312675556119923483953125564int, 27524606262830861217425312309nat, 102028781314011339306647259175851535431295189255581611912717165974int, 10927268686343851903317848986673nat, 190987060189686699996163982834345883152124618656232881559974878932int, 96956421582920036109255250816352047196386436494885745666508454476int, n);
    primality::lemma_power_step(b, 10927268686343851903317848986673nat, 190987060189686699996163982834345883152124618656232881559974878932int, 10927268686343851903317848986673nat, 190987060189686699996163982834345883152124618656232881559974878932int, 21854537372687703806635697973346nat, 90608657578740011376680243749120298847459454531940702401025438407int, 182954277549211190447031171865802892298952613972321802470721161023int, n);
    primality::lemma_power_step(b, 21854537372687703806635697973346nat, 90608657578740011376680243749120298847459454531940702401025438407int, 27524606262830861217425312309nat, 102028781314011339306647259175851535431295189255581611912717165974int, 21882061978950534667853123285655nat, 52717427080014626607194802672644199713769879271245938381505415054int, 46368930146550709359638310828337459330330174621736428615400677716int, n);
    primality::lemma_power_step(b, 21882061978950534667853123285655nat, 52717427080014626607194802672644199713769879271245938381505415054int, 21882061978950534667853123285655nat, 52717427080014626607194802672644199713769879271245938381505415054int, 43764123957901069335706246571310nat, 5162003360306417732383230155941669922072322218790850716096622483int, 13939368277953721463529748972097091302785748114606879491303074327int, n);
    primality::lemma_power_step(b, 43764123957901069335706246571310nat, 5162003360306417732383230155941669922072322218790850716096622483int, 27524606262830861217425312309nat, 102028781314011339306647259175851535431295189255581611912717165974int, 43791648564163900196923671883619nat, 68199112696577635572492156443872931197826819297794118375046540417int, 2641652350078187401187224291884617854529209112214026992864999975int, n);
    primality::lemma_power_step(b, 43791648564163900196923671883619nat, 68199112696577635572492156443872931197826819297794118375046540417int, 43791648564163900196923671883619nat, 68199112696577635572492156443872931197826819297794118375046540417int, 87583297128327800393847343767238nat, 144858040319577294804407555416468219071308791773679127965625620861int, 23328785446774128970173124359083909915538012034304744102426975132int, n);
    primality::lemma_power_step(b, 87583297128327800393847343767238nat, 144858040319577294804407555416468219071308791773679127965625620861int, 87583297128327800393847343767238nat, 144858040319577294804407555416468219071308791773679127965625620861int, 175166594256655600787694687534476nat, 144420081002742497864521663207798965484495224072434254653584070974int, 105249463715722816573616485181057094836468900681624087517427756493int, n);
    primality::lemma_power_step(b, 175166594256655600787694687534476nat, 144420081002742497864521663207798965484495224072434254653584070974int, 27524606262830861217425312309nat, 102028781314011339306647259175851535431295189255581611912717165974int, 175194118862918431648912112846785nat, 36392105760507411870818622751053040034707847903413294284017158int, 73906896170003756682878467076410519729992723833256696263209569442int, n);
    primality::lemma_power_step(b, 175194118862918431648912112846785nat, 36392105760507411870818622751053040034707847903413294284017158int, 175194118862918431648912112846785nat, 36392105760507411870818622751053040034707847903413294284017158int, 350388237725836863297824225693570nat, 65306733204103432087756547075059456867968798757911362818641411513int, 6642767500376126773990436877205629622109430739558550900269int, n);
    primality::lemma_power_step(b, 350388237725836863297824225693570nat, 65306733204103432087756547075059456867968798757911362818641411513int, 350388237725836863297824225693570nat, 65306733204103432087756547075059456867968798757911362818641411513int, 700776475451673726595648451387140nat, 55443643241522099328140315710540315034432071128011859634828538458int, 21391961095295564683645871495092852696951002256102836769095522209int, n);
    primality::lemma_power_step(b, 700776475451673726595648451387140nat, 55443643241522099328140315710540315034432071128011859634828538458int, 700776475451673726595648451387140nat, 55443643241522099328140315710540315034432071128011859634828538458int, 1401552950903347453191296902774280nat, 165417536694933177459027906915388439458527673639718748516775883580int, 15418360685755658187407781255844305587750528381887797576749102296int, n);
    primality::lemma_power_step(b, 1401552950903347453191296902774280nat, 165417536694933177459027906915388439458527673639718748516775883580int, 1401552950903347453191296902774280nat, 165417536694933177459027906915388439458527673639718748516775883580int, 2803105901806694906382593805548560nat, 192226186693328268936992221298745345465457075548985119321559777222int, 137245394178833986725955060634764669042904307239743104384156526982int, n);
    primality::lemma_power_step(b, 2803105901806694906382593805548560nat, 192226186693328268936992221298745345465457075548985119321559777222int, 2803105901806694906382593805548560nat, 192226186693328268936992221298745345465457075548985119321559777222int, 5606211803613389812765187611097120nat, 111291020821759857688473609998415618925123968372940530378168513575int, 185335998296508419007425442245694024328452492350423184993821945771int, n);
    primality::lemma_power_step(b, 5606211803613389812765187611097120nat, 111291020821759857688473609998415618925123968372940530378168513575int, 27524606262830861217425312309nat, 102028781314011339306647259175851535431295189255581611912717165974int, 5606239328219652643626405036409429nat, 30782794591569499607018624622282387302798330666191441620281259538int, 56953118038836567051427453690887947517749717655007388341730603128int, n);
    primality::lemma_power_step(b, 5606239328219652643626405036409429nat, 30782794591569499607018624622282387302798330666191441620281259538int, 5606239328219652643626405036409429nat, 30782794591569499607018624622282387302798330666191441620281259538int, 11212478656439305287252810072818858nat, 48587221810824390486917156828010076606301019776217950187149621901int, 4752813457454559241541211499902731321447150093087017456604932417int, n);
    primality::lemma_power_step(b, 11212478656439305287252810072818858nat, 48587221810824390486917156828010076606301019776217950187149621901int, 27524606262830861217425312309nat, 102028781314011339306647259175851535431295189255581611912717165974int, 11212506181045568118114027498131167nat, 109881629992466569045961689169919543897629660711810311476181332378int, 24864483752043798833016838903995379939109532754099429133177712924int, n);
    primality::lemma_power_step(b, 11212506181045568118114027498131167nat, 109881629992466569045961689169919543897629660711810311476181332378int, 11212506181045568118114027498131167nat, 109881629992466569045961689169919543897629660711810311476181332378int, 22425012362091136236228054996262334nat, 10635960070999033269462913989032381296370761900321944146980162162int, 60559860576259772142060128118464921470861879207602274250314129118int, n);
    primality::lemma_power_step(b, 22425012362091136236228054996262334nat, 10635960070999033269462913989032381296370761900321944146980162162int, 27524606262830861217425312309nat, 102028781314011339306647259175851535431295189255581611912717165974int, 22425039886697399067089272421574643nat, 3735744808036477868153526143222892849515882362091592924663571887int, 5442946653801586403838880371408368817455491913884952875051015819int, n);
    primality::lemma_power_step(b, 22425039886697399067089272421574643nat, 3735744808036477868153526143222892849515882362091592924663571887int, 22425039886697399067089272421574643nat, 3735744808036477868153526143222892849515882362091592924663571887int, 44850079773394798134178544843149286nat, 167644846949115489342043469620333662676751510194298440586521405148int, 69998556380979800625646163237477898503430846131743307644542499int, n);
    primality::lemma_power_step(b, 44850079773394798134178544843149286nat, 167644846949115489342043469620333662676751510194298440586521405148int, 44850079773394798134178544843149286nat, 167644846949115489342043469620333662676751510194298440586521405148int, 89700159546789596268357089686298572nat, 187937448299692122429550452680881458358605029693717938556736794432int, 140966234070723346035612471512159659047575420117908843722960264368int, n);
    primality::lemma_power_step(b, 89700159546789596268357089686298572nat, 187937448299692122429550452680881458358605029693717938556736794432int, 27524606262830861217425312309nat, 102028781314011339306647259175851535431295189255581611912717165974int, 89700187071395859099218307111610881nat, 138415016843950337698145583831134996803972484546833093303202907939int, 96176884692905205169323543915640076314585554562276354535557727051int, n);
    primality::lemma_power_step(b, 89700187071395859099218307111610881nat, 138415016843950337698145583831134996803972484546833093303202907939int, 89700187071395859099218307111610881nat, 138415016843950337698145583831134996803972484546833093303202907939int, 179400374142791718198436614223221762nat, 85364688609598768875191782152207231238743732693129137422017220021int, 96095068379571087228648781658214158203398786924920193414318236300int, n);
    primality::lemma_power_step(b, 179400374142791718198436614223221762nat, 85364688609598768875191782152207231238743732693129137422017220021int, 27524606262830861217425312309nat, 102028781314011339306647259175851535431295189255581611912717165974int, 179400401667397981029297831648534071nat, 150976317843633025264649602234337480921841747616152022532957990167int, 43685331941715997480445091008742994494344063110339063725732388353int, n);
    primality::lemma_power_step(b, 179400401667397981029297831648534071nat, 150976317843633025264649602234337480921841747616152022532957990167int, 179400401667397981029297831648534071nat, 150976317843633025264649602234337480921841747616152022532957990167int, 358800803334795962058595663297068142nat, 82235394622488215888743337755766966169406063523210218215496745443int, 114327929569834024272741433172713298892251542571952093126679924674int, n);
    primality::lemma_power_step(b, 358800803334795962058595663297068142nat, 82235394622488215888743337755766966169406063523210218215496745443int, 358800803334795962058595663297068142nat, 82235394622488215888743337755766966169406063523210218215496745443int, 717601606669591924117191326594136284nat, 63191824549848088400102276431938968931279158250140922378417630768int, 33919718700308765314202278130592183086488812181973079051514601839int, n);
    primality::lemma_power_step(b, 717601606669591924117191326594136284nat, 63191824549848088400102276431938968931279158250140922378417630768int, 27524606262830861217425312309nat, 102028781314011339306647259175851535431295189255581611912717165974int, 717601634194198186948052544019448593nat, 33408662330931277569151067916564045073083494636572157889217179385int, 32338381085037814853717482115318410568741712690966336663166234193int, n);
    primality::lemma_power_step(b, 717601634194198186948052544019448593nat, 33408662330931277569151067916564045073083494636572157889217179385int, 717601634194198186948052544019448593nat, 33408662330931277569151067916564045073083494636572157889217179385int, 1435203268388396373896105088038897186nat, 64007228260461880365222943444589134099828518965755932476218101448int, 5598257290721504118169430003802766867590823307566881772381749663int, n);
    primality::lemma_power_step(b, 1435203268388396373896105088038897186nat, 64007228260461880365222943444589134099828518965755932476218101448int, 1435203268388396373896105088038897186nat, 64007228260461880365222943444589134099828518965755932476218101448int, 2870406536776792747792210176077794372nat, 85021150197987306660496624211411061399449643479490928297786118858int, 20549096071008798107870872778410768231350769526296505409145177274int, n);
    primality::lemma_power_step(b, 2870406536776792747792210176077794372nat, 85021150197987306660496624211411061399449643479490928297786118858int, 27524606262830861217425312309nat, 102028781314011339306647259175851535431295189255581611912717165974int, 2870406564301399010623071393503106681nat, 140681587101766220006743728844256077716211174523981826459422564687int, 43509526350546898188845399555109909639144519995549471384076845595int, n);
    primality::lemma_power_step(b, 2870406564301399010623071393503106681nat, 140681587101766220006743728844256077716211174523981826459422564687int, 2870406564301399010623071393503106681nat, 140681587101766220006743728844256077716211174523981826459422564687int, 5740813128602798021246142787006213362nat, 70303163505047719963191259808564976807398562574392869914537529026int, 99267983234344800453160237286537304875199965703179103986750533017int, n);
    primality::lemma_power_step(b, 5740813128602798021246142787006213362nat, 70303163505047719963191259808564976807398562574392869914537529026int, 27524606262830861217425312309nat, 102028781314011339306647259175851535431295189255581611912717165974int, 5740813156127404284077004004431525671nat, 96403707706027862817030229331005053440393625278228404167979559209int, 35977604842166587016768173879725060756779135195408420457735785685int, n);
    primality::lemma_power_step(b, 5740813156127404284077004004431525671nat, 96403707706027862817030229331005053440393625278228404167979559209int, 5740813156127404284077004004431525671nat, 96403707706027862817030229331005053440393625278228404167979559209int, 11481626312254808568154008008863051342nat, 65337220782554722845910221414060685903460214267987507642156400532int, 46614620715112733747823076985932236913327030394238760095157641131int, n);
    primality::lemma_power_step(b, 11481626312254808568154008008863051342nat, 65337220782554722845910221414060685903460214267987507642156400532int, 27524606262830861217425312309nat, 102028781314011339306647259175851535431295189255581611912717165974int, 11481626339779414830984869226288363651nat, 48188473081910381750548925263176377696157193874187094068041372935int, 33436286414499272825121564188662528254690822279689469721238405527int, n);
    primality::lemma_power_step(b, 11481626339779414830984869226288363651nat, 48188473081910381750548925263176377696157193874187094068041372935int, 11481626339779414830984869226288363651nat, 48188473081910381750548925263176377696157193874187094068041372935int, 22963252679558829661969738452576727302nat, 5268028519765699920264490850500044910498939025010756074666884154int, 11647185998182679916612914369235766401904086196022455840947202049int, n);
    primality::lemma_power_step(b, 22963252679558829661969738452576727302nat, 5268028519765699920264490850500044910498939025010756074666884154int, 22963252679558829661969738452576727302nat, 5268028519765699920264490850500044910498939025010756074666884154int, 45926505359117659323939476905153454604nat, 54976147256733061882915601765014379358413393965349860417187268173int, 139197333290801900497317282856461464142549771618432469264976417int, n);
    primality::lemma_power_step(b, 45926505359117659323939476905153454604nat, 54976147256733061882915601765014379358413393965349860417187268173int, 27524606262830861217425312309nat, 102028781314011339306647259175851535431295189255581611912717165974int, 45926505386642265586770338122578766913nat, 1int, 28134012797382725439135463867201654080734940158599238477606926219int, n);
    primality::lemma_residue_one(158667493584337363034435016686225889811705014140719429640557001534int - 1, 167867325129980254749883605570139784525563835233973897499058319784int, 133594571702310223736582427258471302863862128824985891572636539249int, n);
    primality::lemma_residue_one(102028781314011339306647259175851535431295189255581611912717165974int - 1, 157895316808471289731547454966204428215931660325913771410298972959int, 80802840602699391447152851436126352615838550777315131925738998214int, n);
    assert(27524606262830861217425312309nat * 1668561757nat == 45926505386642265586770338122578766913nat);
    primality::lemma_prime_by_two(n, 27524606262830861217425312309nat, 1668561757nat, b, 167867325129980254749883605570139784525563835233973897499058319784int, 157895316808471289731547454966204428215931660325913771410298972959int);
}

/// A multiple of the generator is infinity exactly when the order divides the factor.
pub proof fn lemma_multiple_infinity(k: nat)
    ensures
        order::generator().times(k) == Point::Infinity <==> k % order::group_order() == 0,
{
    let g = order::generator();
    let r = order::group_order();
    lemma_group_order_prime();
    order::lemma_generator();
    order::lemma_group_order();
    if k % r == 0 {
        let q = k / r;
        div_mod::lemma_fundamental_div_mod(k as int, r as int);
        group::lemma_times_mul(g, r, q);
        group::lemma_times_infinity(q);
    } else if g.times(k) == Point::Infinity {
        let x = primality::lemma_inverse(r as int, k as int) as nat;
        let y = x * k / r;
        div_mod::lemma_fundamental_div_mod((x * k) as int, r as int);
        group::lemma_times_mul(g, k, x);
        group::lemma_times_infinity(x);
        vstd::arithmetic::mul::lemma_mul_is_commutative(k as int, x as int);
        group::lemma_times_mul(g, r, y);
        group::lemma_times_infinity(y);
        group::lemma_times_add(g, r * y, 1);
        group::lemma_times_small(g);
    }
}

} // verus!
