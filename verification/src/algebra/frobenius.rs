//! The `p`-th power map, and that the septic extension is a field.
use crate::algebra::element;
use crate::algebra::element::Fe;
use crate::algebra::laws;
use crate::algebra::literal;
use crate::algebra::number;
use crate::algebra::powers;
use vstd::arithmetic::power;
use vstd::prelude::*;

verus! {

/// `a.c0 + a.c1 b1 + ... + a.c6 b6`.
pub open spec fn combine(a: Fe, b1: Fe, b2: Fe, b3: Fe, b4: Fe, b5: Fe, b6: Fe) -> Fe {
    Fe::of_int(a.c0).plus(Fe::of_int(a.c1).times(b1)).plus(Fe::of_int(a.c2).times(b2)).plus(
        Fe::of_int(a.c3).times(b3),
    ).plus(Fe::of_int(a.c4).times(b4)).plus(Fe::of_int(a.c5).times(b5)).plus(
        Fe::of_int(a.c6).times(b6),
    )
}

/// The value at `w` of the polynomial with the coefficients of `a`.
pub open spec fn substitute(a: Fe, w: Fe) -> Fe {
    combine(a, w, w.power(2), w.power(3), w.power(4), w.power(5), w.power(6))
}

/// `z^(i p)` for `i` from 1 to 6.
pub open spec fn zeta_p(i: int) -> Fe {
    if i == 1 {
        literal::fe(1272123317, 1950759909, 1879852731, 746569225, 180350946, 1600835585, 333893434)
    } else if i == 2 {
        literal::fe(129050189, 1749509219, 983995729, 711096547, 1505254548, 639452798, 68186395)
    } else if i == 3 {
        literal::fe(1911662442, 1095215454, 1794102427, 1173566779, 140526665, 110899104, 1387282150)
    } else if i == 4 {
        literal::fe(1366416596, 1212861, 2104391040, 1447859676, 308944373, 106444152, 1362577042)
    } else if i == 5 {
        literal::fe(1411781189, 1580508159, 1332301780, 1528790701, 380217034, 1752756730, 989817517)
    } else {
        literal::fe(37669840, 439102875, 410223214, 964813232, 1250258104, 877333757, 222095778)
    }
}

/// `z^(i p^2)` for `i` from 1 to 6.
pub open spec fn zeta_p2(i: int) -> Fe {
    if i == 1 {
        literal::fe(1330073564, 1724372201, 942213154, 258987814, 1836986639, 566030553, 2086945921)
    } else if i == 2 {
        literal::fe(473977877, 99096011, 1919717963, 733784355, 1167998744, 19619652, 1354518805)
    } else if i == 3 {
        literal::fe(1040563478, 1866766699, 1875293643, 846885082, 1921678452, 2127718474, 1489297699)
    } else if i == 4 {
        literal::fe(1350284585, 1583164394, 512913106, 1818487640, 2116891899, 318922921, 1013732863)
    } else if i == 5 {
        literal::fe(887772098, 1971095075, 843183752, 711838602, 1717807390, 521017530, 1548716569)
    } else {
        literal::fe(372606377, 357514301, 335089633, 330400379, 1545190367, 1813349020, 1393941056)
    }
}

/// The `p`-th power by its linear formula.
pub open spec fn frobenius(a: Fe) -> Fe {
    combine(a, zeta_p(1), zeta_p(2), zeta_p(3), zeta_p(4), zeta_p(5), zeta_p(6))
}

/// The `p^2`-th power by its linear formula.
pub open spec fn double_frobenius(a: Fe) -> Fe {
    combine(a, zeta_p2(1), zeta_p2(2), zeta_p2(3), zeta_p2(4), zeta_p2(5), zeta_p2(6))
}

/// A product with the class of an integer scales the coefficients.
pub proof fn lemma_scaled(c: int, a: Fe)
    ensures
        Fe::of_int(c).times(a) == a.scaled(c),
{
    reveal(Fe::of_int);
    reveal(Fe::times);
    reveal(Fe::scaled);
    element::lemma_reduced_mul(element::raw_const(c), a);
    element::lemma_reduced_mul(element::raw_const(c).reduced(), a);
    element::lemma_canonical_reduced(element::raw_const(c));
    assert(element::raw_mul(element::raw_const(c), a) == element::raw_scale(c, a)) by {
        reveal(element::raw_mul);
    }
}

/// Scaling an element given by its coefficients.
proof fn lemma_scale_fe(c: int, b0: int, b1: int, b2: int, b3: int, b4: int, b5: int, b6: int)
    ensures
        element::raw_scale(c, literal::fe(b0, b1, b2, b3, b4, b5, b6)) == literal::fe(
            c * b0,
            c * b1,
            c * b2,
            c * b3,
            c * b4,
            c * b5,
            c * b6,
        ),
{
}

/// A combination, coefficient by coefficient.
pub proof fn lemma_combine(a: Fe, b1: Fe, b2: Fe, b3: Fe, b4: Fe, b5: Fe, b6: Fe)
    ensures
        combine(a, b1, b2, b3, b4, b5, b6) == element::raw_add(
            element::raw_add(
                element::raw_add(
                    element::raw_add(
                        element::raw_add(
                            element::raw_add(
                                element::raw_const(a.c0),
                                element::raw_scale(a.c1, b1),
                            ),
                            element::raw_scale(a.c2, b2),
                        ),
                        element::raw_scale(a.c3, b3),
                    ),
                    element::raw_scale(a.c4, b4),
                ),
                element::raw_scale(a.c5, b5),
            ),
            element::raw_scale(a.c6, b6),
        ).reduced(),
{
    reveal(Fe::of_int);
    reveal(Fe::plus);
    reveal(Fe::scaled);
    lemma_scaled(a.c1, b1);
    lemma_scaled(a.c2, b2);
    lemma_scaled(a.c3, b3);
    lemma_scaled(a.c4, b4);
    lemma_scaled(a.c5, b5);
    lemma_scaled(a.c6, b6);
    let s0 = element::raw_const(a.c0);
    let t1 = element::raw_scale(a.c1, b1);
    element::lemma_reduced_linear(s0, t1);
    let s1 = element::raw_add(s0, t1);
    let t2 = element::raw_scale(a.c2, b2);
    element::lemma_reduced_linear(s1, t2);
    let s2 = element::raw_add(s1, t2);
    let t3 = element::raw_scale(a.c3, b3);
    element::lemma_reduced_linear(s2, t3);
    let s3 = element::raw_add(s2, t3);
    let t4 = element::raw_scale(a.c4, b4);
    element::lemma_reduced_linear(s3, t4);
    let s4 = element::raw_add(s3, t4);
    let t5 = element::raw_scale(a.c5, b5);
    element::lemma_reduced_linear(s4, t5);
    let s5 = element::raw_add(s4, t5);
    let t6 = element::raw_scale(a.c6, b6);
    element::lemma_reduced_linear(s5, t6);
    let s6 = element::raw_add(s5, t6);
}

/// Coefficients that have been reduced give the same combination.
pub proof fn lemma_combine_reduced(a: Fe, b1: Fe, b2: Fe, b3: Fe, b4: Fe, b5: Fe, b6: Fe)
    ensures
        combine(a.reduced(), b1, b2, b3, b4, b5, b6) == combine(a, b1, b2, b3, b4, b5, b6),
{
    powers::lemma_of_int(a.c0 % element::prime(), a.c0);
    powers::lemma_of_int(a.c1 % element::prime(), a.c1);
    powers::lemma_of_int(a.c2 % element::prime(), a.c2);
    powers::lemma_of_int(a.c3 % element::prime(), a.c3);
    powers::lemma_of_int(a.c4 % element::prime(), a.c4);
    powers::lemma_of_int(a.c5 % element::prime(), a.c5);
    powers::lemma_of_int(a.c6 % element::prime(), a.c6);
}

/// The powers of `z` below the seventh, and the seventh.
proof fn lemma_zeta_powers()
    ensures
        Fe::zeta().power(2) == literal::fe(0, 0, 1, 0, 0, 0, 0),
        Fe::zeta().power(3) == literal::fe(0, 0, 0, 1, 0, 0, 0),
        Fe::zeta().power(4) == literal::fe(0, 0, 0, 0, 1, 0, 0),
        Fe::zeta().power(5) == literal::fe(0, 0, 0, 0, 0, 1, 0),
        Fe::zeta().power(6) == literal::fe(0, 0, 0, 0, 0, 0, 1),
        Fe::zeta().power(7) == literal::fe(5, 3, 0, 0, 0, 0, 0),
{
    let z = Fe::zeta();
    element::lemma_constants(z);
    powers::lemma_power_small(z);
    literal::lemma_product(0, 1, 0, 0, 0, 0, 0, 0, 1, 0, 0, 0, 0, 0, 0, 0, 1, 0, 0, 0, 0, 0, 0, 0, 0, 0, 0, 0);
    powers::lemma_power_add(z, 1, 1);
    literal::lemma_product(0, 0, 1, 0, 0, 0, 0, 0, 1, 0, 0, 0, 0, 0, 0, 0, 0, 1, 0, 0, 0, 0, 0, 0, 0, 0, 0, 0);
    powers::lemma_power_add(z, 2, 1);
    literal::lemma_product(0, 0, 0, 1, 0, 0, 0, 0, 1, 0, 0, 0, 0, 0, 0, 0, 0, 0, 1, 0, 0, 0, 0, 0, 0, 0, 0, 0);
    powers::lemma_power_add(z, 3, 1);
    literal::lemma_product(0, 0, 0, 0, 1, 0, 0, 0, 1, 0, 0, 0, 0, 0, 0, 0, 0, 0, 0, 1, 0, 0, 0, 0, 0, 0, 0, 0);
    powers::lemma_power_add(z, 4, 1);
    literal::lemma_product(0, 0, 0, 0, 0, 1, 0, 0, 1, 0, 0, 0, 0, 0, 0, 0, 0, 0, 0, 0, 1, 0, 0, 0, 0, 0, 0, 0);
    powers::lemma_power_add(z, 5, 1);
    literal::lemma_product(0, 0, 0, 0, 0, 0, 1, 0, 1, 0, 0, 0, 0, 0, 5, 3, 0, 0, 0, 0, 0, 0, 0, 0, 0, 0, 0, 0);
    powers::lemma_power_add(z, 6, 1);
}

/// Every element is the polynomial with its coefficients at `z`.
proof fn lemma_substitute_zeta(a: Fe)
    requires
        a.canonical(),
    ensures
        substitute(a, Fe::zeta()) == a,
{
    reveal(Fe::canonical);
    lemma_zeta_powers();
    let z = Fe::zeta();
    lemma_combine(a, z, z.power(2), z.power(3), z.power(4), z.power(5), z.power(6));
    lemma_scale_fe(a.c1, 0, 1, 0, 0, 0, 0, 0);
    lemma_scale_fe(a.c2, 0, 0, 1, 0, 0, 0, 0);
    lemma_scale_fe(a.c3, 0, 0, 0, 1, 0, 0, 0);
    lemma_scale_fe(a.c4, 0, 0, 0, 0, 1, 0, 0);
    lemma_scale_fe(a.c5, 0, 0, 0, 0, 0, 1, 0);
    lemma_scale_fe(a.c6, 0, 0, 0, 0, 0, 0, 1);
}

/// A step in a chain of powers.
proof fn lemma_chain(x: Fe, m: nat, n: nat, a: Fe, b: Fe, r: Fe)
    requires
        x.canonical(),
        x.power(m) == a,
        x.power(n) == b,
        a.times(b) == r,
    ensures
        x.power(m + n) == r,
{
    powers::lemma_power_add(x, m, n);
}

/// `z^p`, by repeated squaring: `p = 127 * 2^24 + 1`.
#[verifier::rlimit(30)]
proof fn lemma_zeta_p()
    ensures
        Fe::zeta().power(element::prime() as nat) == zeta_p(1),
{
    let z = Fe::zeta();
    element::lemma_constants(z);
    powers::lemma_power_small(z);
    lemma_zeta_powers();
    literal::lemma_product(5, 3, 0, 0, 0, 0, 0, 5, 3, 0, 0, 0, 0, 0, 25, 30, 9, 0, 0, 0, 0, 0, 0, 0, 0, 0, 0, 0);
    lemma_chain(z, 7, 7, literal::fe(5, 3, 0, 0, 0, 0, 0), literal::fe(5, 3, 0, 0, 0, 0, 0), literal::fe(25, 30, 9, 0, 0, 0, 0));
    literal::lemma_product(25, 30, 9, 0, 0, 0, 0, 0, 1, 0, 0, 0, 0, 0, 0, 25, 30, 9, 0, 0, 0, 0, 0, 0, 0, 0, 0, 0);
    lemma_chain(z, 14, 1, literal::fe(25, 30, 9, 0, 0, 0, 0), literal::fe(0, 1, 0, 0, 0, 0, 0), literal::fe(0, 25, 30, 9, 0, 0, 0));
    literal::lemma_product(0, 25, 30, 9, 0, 0, 0, 0, 25, 30, 9, 0, 0, 0, 0, 0, 625, 1500, 1350, 540, 81, 0, 0, 0, 0, 0, 0, 0);
    lemma_chain(z, 15, 15, literal::fe(0, 25, 30, 9, 0, 0, 0), literal::fe(0, 25, 30, 9, 0, 0, 0), literal::fe(0, 0, 625, 1500, 1350, 540, 81));
    literal::lemma_product(0, 0, 625, 1500, 1350, 540, 81, 0, 1, 0, 0, 0, 0, 0, 405, 243, 0, 625, 1500, 1350, 540, 0, 0, 0, 0, 0, 0, 0);
    lemma_chain(z, 30, 1, literal::fe(0, 0, 625, 1500, 1350, 540, 81), literal::fe(0, 1, 0, 0, 0, 0, 0), literal::fe(405, 243, 0, 625, 1500, 1350, 540));
    literal::lemma_product(405, 243, 0, 625, 1500, 1350, 540, 405, 243, 0, 625, 1500, 1350, 540, 10851225, 26296650, 35496549, 31893750, 19136250, 7654500, 2358925, 0, 0, 0, 0, 0, 0, 0);
    lemma_chain(z, 31, 31, literal::fe(405, 243, 0, 625, 1500, 1350, 540), literal::fe(405, 243, 0, 625, 1500, 1350, 540), literal::fe(10851225, 26296650, 35496549, 31893750, 19136250, 7654500, 2358925));
    literal::lemma_product(10851225, 26296650, 35496549, 31893750, 19136250, 7654500, 2358925, 0, 1, 0, 0, 0, 0, 0, 11794625, 17928000, 26296650, 35496549, 31893750, 19136250, 7654500, 0, 0, 0, 0, 0, 0, 0);
    lemma_chain(z, 62, 1, literal::fe(10851225, 26296650, 35496549, 31893750, 19136250, 7654500, 2358925), literal::fe(0, 1, 0, 0, 0, 0, 0), literal::fe(11794625, 17928000, 26296650, 35496549, 31893750, 19136250, 7654500));
    literal::lemma_product(11794625, 17928000, 26296650, 35496549, 31893750, 19136250, 7654500, 11794625, 17928000, 26296650, 35496549, 31893750, 19136250, 7654500, 714687739, 882104503, 2040122186, 771762849, 1234783505, 1724034708, 940532392, 8384442, 11709709, 8493458, 5324397, 3165515, 2174724, 1867873);
    lemma_chain(z, 63, 63, literal::fe(11794625, 17928000, 26296650, 35496549, 31893750, 19136250, 7654500), literal::fe(11794625, 17928000, 26296650, 35496549, 31893750, 19136250, 7654500), literal::fe(714687739, 882104503, 2040122186, 771762849, 1234783505, 1724034708, 940532392));
    literal::lemma_product(714687739, 882104503, 2040122186, 771762849, 1234783505, 1724034708, 940532392, 0, 1, 0, 0, 0, 0, 0, 441249094, 1405578482, 882104503, 2040122186, 771762849, 1234783505, 1724034708, 2, 1, 0, 0, 0, 0, 0);
    lemma_chain(z, 126, 1, literal::fe(714687739, 882104503, 2040122186, 771762849, 1234783505, 1724034708, 940532392), literal::fe(0, 1, 0, 0, 0, 0, 0), literal::fe(441249094, 1405578482, 882104503, 2040122186, 771762849, 1234783505, 1724034708));
    literal::lemma_product(441249094, 1405578482, 882104503, 2040122186, 771762849, 1234783505, 1724034708, 441249094, 1405578482, 882104503, 2040122186, 771762849, 1234783505, 1724034708, 1640670195, 2054392544, 1199118895, 428309241, 1450691481, 946083786, 1431109907, 23965923627, 35264913519, 34487295850, 24419252414, 19261092687, 16188423802, 9120526403);
    lemma_chain(z, 127, 127, literal::fe(441249094, 1405578482, 882104503, 2040122186, 771762849, 1234783505, 1724034708), literal::fe(441249094, 1405578482, 882104503, 2040122186, 771762849, 1234783505, 1724034708), literal::fe(1640670195, 2054392544, 1199118895, 428309241, 1450691481, 946083786, 1431109907));
    literal::lemma_product(1640670195, 2054392544, 1199118895, 428309241, 1450691481, 946083786, 1431109907, 1640670195, 2054392544, 1199118895, 428309241, 1450691481, 946083786, 1431109907, 1719229344, 1700902092, 1763141289, 17477819, 734576436, 1000240530, 1247515579, 23302379087, 31281550969, 22082263232, 20406993403, 17195820509, 13355320345, 8630936689);
    lemma_chain(z, 254, 254, literal::fe(1640670195, 2054392544, 1199118895, 428309241, 1450691481, 946083786, 1431109907), literal::fe(1640670195, 2054392544, 1199118895, 428309241, 1450691481, 946083786, 1431109907), literal::fe(1719229344, 1700902092, 1763141289, 17477819, 734576436, 1000240530, 1247515579));
    literal::lemma_product(1719229344, 1700902092, 1763141289, 17477819, 734576436, 1000240530, 1247515579, 1719229344, 1700902092, 1763141289, 17477819, 734576436, 1000240530, 1247515579, 2127409164, 1335216633, 1117243020, 1298407920, 1819334471, 1735220405, 310260888, 19683054024, 25393743645, 14756656660, 11622277338, 12517870466, 9981746802, 7017235172);
    lemma_chain(z, 508, 508, literal::fe(1719229344, 1700902092, 1763141289, 17477819, 734576436, 1000240530, 1247515579), literal::fe(1719229344, 1700902092, 1763141289, 17477819, 734576436, 1000240530, 1247515579), literal::fe(2127409164, 1335216633, 1117243020, 1298407920, 1819334471, 1735220405, 310260888));
    literal::lemma_product(2127409164, 1335216633, 1117243020, 1298407920, 1819334471, 1735220405, 310260888, 2127409164, 1335216633, 1117243020, 1298407920, 1819334471, 1735220405, 310260888, 910682319, 1753299684, 1275573569, 792425808, 1745871581, 1841894935, 730831273, 24253710249, 35912315233, 31755797761, 23732220199, 14201849030, 8848834447, 5629034521);
    lemma_chain(z, 1016, 1016, literal::fe(2127409164, 1335216633, 1117243020, 1298407920, 1819334471, 1735220405, 310260888), literal::fe(2127409164, 1335216633, 1117243020, 1298407920, 1819334471, 1735220405, 310260888), literal::fe(910682319, 1753299684, 1275573569, 792425808, 1745871581, 1841894935, 730831273));
    literal::lemma_product(910682319, 1753299684, 1275573569, 792425808, 1745871581, 1841894935, 730831273, 910682319, 1753299684, 1275573569, 792425808, 1745871581, 1841894935, 730831273, 791280378, 1118264785, 1092101940, 49337067, 832067323, 1492111614, 1235614771, 23922801301, 33996964944, 31370219161, 27412284806, 18247552211, 10440522091, 6793124864);
    lemma_chain(z, 2032, 2032, literal::fe(910682319, 1753299684, 1275573569, 792425808, 1745871581, 1841894935, 730831273), literal::fe(910682319, 1753299684, 1275573569, 792425808, 1745871581, 1841894935, 730831273), literal::fe(791280378, 1118264785, 1092101940, 49337067, 832067323, 1492111614, 1235614771));
    literal::lemma_product(791280378, 1118264785, 1092101940, 49337067, 832067323, 1492111614, 1235614771, 791280378, 1118264785, 1092101940, 49337067, 832067323, 1492111614, 1235614771, 1953847839, 457775160, 412525783, 2086957494, 913695005, 1638370441, 1195639098, 14619314285, 17729211277, 12493055319, 14900561774, 15912308603, 10806666054, 5487690570);
    lemma_chain(z, 4064, 4064, literal::fe(791280378, 1118264785, 1092101940, 49337067, 832067323, 1492111614, 1235614771), literal::fe(791280378, 1118264785, 1092101940, 49337067, 832067323, 1492111614, 1235614771), literal::fe(1953847839, 457775160, 412525783, 2086957494, 913695005, 1638370441, 1195639098));
    literal::lemma_product(1953847839, 457775160, 412525783, 2086957494, 913695005, 1638370441, 1195639098, 1953847839, 457775160, 412525783, 2086957494, 913695005, 1638370441, 1195639098, 1076240621, 1364991765, 1306636379, 679963281, 120764395, 632648725, 1243800072, 16481851510, 29974909486, 31784264196, 26672834146, 18701685519, 13076319085, 7307482490);
    lemma_chain(z, 8128, 8128, literal::fe(1953847839, 457775160, 412525783, 2086957494, 913695005, 1638370441, 1195639098), literal::fe(1953847839, 457775160, 412525783, 2086957494, 913695005, 1638370441, 1195639098), literal::fe(1076240621, 1364991765, 1306636379, 679963281, 120764395, 632648725, 1243800072));
    literal::lemma_product(1076240621, 1364991765, 1306636379, 679963281, 120764395, 632648725, 1243800072, 1076240621, 1364991765, 1306636379, 679963281, 120764395, 632648725, 1243800072, 148001260, 688299321, 1850747323, 1403217192, 1221483862, 491639624, 2064515284, 12776811457, 18399515908, 12330697771, 6601957159, 6474091958, 7474001518, 4610411361);
    lemma_chain(z, 16256, 16256, literal::fe(1076240621, 1364991765, 1306636379, 679963281, 120764395, 632648725, 1243800072), literal::fe(1076240621, 1364991765, 1306636379, 679963281, 120764395, 632648725, 1243800072), literal::fe(148001260, 688299321, 1850747323, 1403217192, 1221483862, 491639624, 2064515284));
    literal::lemma_product(148001260, 688299321, 1850747323, 1403217192, 1221483862, 491639624, 2064515284, 148001260, 688299321, 1850747323, 1403217192, 1221483862, 491639624, 2064515284, 1784070347, 630798122, 661685147, 1523419483, 1008182957, 690896298, 816426611, 18994182941, 36157519586, 31697103442, 23642074363, 14889067164, 16155262818, 9651680017);
    lemma_chain(z, 32512, 32512, literal::fe(148001260, 688299321, 1850747323, 1403217192, 1221483862, 491639624, 2064515284), literal::fe(148001260, 688299321, 1850747323, 1403217192, 1221483862, 491639624, 2064515284), literal::fe(1784070347, 630798122, 661685147, 1523419483, 1008182957, 690896298, 816426611));
    literal::lemma_product(1784070347, 630798122, 661685147, 1523419483, 1008182957, 690896298, 816426611, 1784070347, 630798122, 661685147, 1523419483, 1008182957, 690896298, 816426611, 2014819219, 1692846158, 1079421501, 458519117, 1464465675, 1719573936, 436745793, 13264767060, 17979301683, 16317473068, 13390008589, 8433083306, 5852679523, 4430183611);
    lemma_chain(z, 65024, 65024, literal::fe(1784070347, 630798122, 661685147, 1523419483, 1008182957, 690896298, 816426611), literal::fe(1784070347, 630798122, 661685147, 1523419483, 1008182957, 690896298, 816426611), literal::fe(2014819219, 1692846158, 1079421501, 458519117, 1464465675, 1719573936, 436745793));
    literal::lemma_product(2014819219, 1692846158, 1079421501, 458519117, 1464465675, 1719573936, 436745793, 2014819219, 1692846158, 1079421501, 458519117, 1464465675, 1719573936, 436745793, 2054862032, 1902675533, 1462567984, 815625348, 2035158585, 2073805449, 1560239343, 17238055963, 23347000372, 22712589501, 20178284210, 13534191232, 8606158242, 5409430241);
    lemma_chain(z, 130048, 130048, literal::fe(2014819219, 1692846158, 1079421501, 458519117, 1464465675, 1719573936, 436745793), literal::fe(2014819219, 1692846158, 1079421501, 458519117, 1464465675, 1719573936, 436745793), literal::fe(2054862032, 1902675533, 1462567984, 815625348, 2035158585, 2073805449, 1560239343));
    literal::lemma_product(2054862032, 1902675533, 1462567984, 815625348, 2035158585, 2073805449, 1560239343, 2054862032, 1902675533, 1462567984, 815625348, 2035158585, 2073805449, 1560239343, 63584688, 277948338, 1794302658, 2105224961, 588259392, 540649532, 601351518, 37939921142, 53612591413, 47321347732, 44648493448, 36568683275, 23578380605, 13246832703);
    lemma_chain(z, 260096, 260096, literal::fe(2054862032, 1902675533, 1462567984, 815625348, 2035158585, 2073805449, 1560239343), literal::fe(2054862032, 1902675533, 1462567984, 815625348, 2035158585, 2073805449, 1560239343), literal::fe(63584688, 277948338, 1794302658, 2105224961, 588259392, 540649532, 601351518));
    literal::lemma_product(63584688, 277948338, 1794302658, 2105224961, 588259392, 540649532, 601351518, 63584688, 277948338, 1794302658, 2105224961, 588259392, 540649532, 601351518, 1001973916, 1893619856, 1102796819, 165274653, 1671904402, 569572763, 955947079, 11151494956, 17924317528, 14308390637, 7400511631, 5028957526, 5495561261, 3756919542);
    lemma_chain(z, 520192, 520192, literal::fe(63584688, 277948338, 1794302658, 2105224961, 588259392, 540649532, 601351518), literal::fe(63584688, 277948338, 1794302658, 2105224961, 588259392, 540649532, 601351518), literal::fe(1001973916, 1893619856, 1102796819, 165274653, 1671904402, 569572763, 955947079));
    literal::lemma_product(1001973916, 1893619856, 1102796819, 165274653, 1671904402, 569572763, 955947079, 1001973916, 1893619856, 1102796819, 165274653, 1671904402, 569572763, 955947079, 1118960091, 1546746638, 1574472617, 1688337173, 2004759119, 570024488, 1919761225, 13211777795, 21374334192, 15100294573, 13504410738, 9949785099, 7356193201, 4941618599);
    lemma_chain(z, 1040384, 1040384, literal::fe(1001973916, 1893619856, 1102796819, 165274653, 1671904402, 569572763, 955947079), literal::fe(1001973916, 1893619856, 1102796819, 165274653, 1671904402, 569572763, 955947079), literal::fe(1118960091, 1546746638, 1574472617, 1688337173, 2004759119, 570024488, 1919761225));
    literal::lemma_product(1118960091, 1546746638, 1574472617, 1688337173, 2004759119, 570024488, 1919761225, 1118960091, 1546746638, 1574472617, 1688337173, 2004759119, 570024488, 1919761225, 1662739124, 1383170046, 45827161, 978948671, 1263465455, 2030074110, 1357264016, 34621328239, 50178818011, 40232120028, 35229634223, 22151414034, 17734559829, 12333678384);
    lemma_chain(z, 2080768, 2080768, literal::fe(1118960091, 1546746638, 1574472617, 1688337173, 2004759119, 570024488, 1919761225), literal::fe(1118960091, 1546746638, 1574472617, 1688337173, 2004759119, 570024488, 1919761225), literal::fe(1662739124, 1383170046, 45827161, 978948671, 1263465455, 2030074110, 1357264016));
    literal::lemma_product(1662739124, 1383170046, 45827161, 978948671, 1263465455, 2030074110, 1357264016, 1662739124, 1383170046, 45827161, 978948671, 1263465455, 2030074110, 1357264016, 2126395418, 1915380694, 1363872985, 49247273, 272421278, 1833651084, 1848569470, 16349964396, 24555315885, 27262330070, 30270962411, 26807089115, 16932775926, 7851887289);
    lemma_chain(z, 4161536, 4161536, literal::fe(1662739124, 1383170046, 45827161, 978948671, 1263465455, 2030074110, 1357264016), literal::fe(1662739124, 1383170046, 45827161, 978948671, 1263465455, 2030074110, 1357264016), literal::fe(2126395418, 1915380694, 1363872985, 49247273, 272421278, 1833651084, 1848569470));
    literal::lemma_product(2126395418, 1915380694, 1363872985, 49247273, 272421278, 1833651084, 1848569470, 2126395418, 1915380694, 1363872985, 49247273, 272421278, 1833651084, 1848569470, 1007043872, 998563985, 93375154, 1213968105, 487927940, 1035054965, 1914119577, 30539886224, 33304413331, 14674153482, 14466922035, 23565909865, 21776760361, 12147617928);
    lemma_chain(z, 8323072, 8323072, literal::fe(2126395418, 1915380694, 1363872985, 49247273, 272421278, 1833651084, 1848569470), literal::fe(2126395418, 1915380694, 1363872985, 49247273, 272421278, 1833651084, 1848569470), literal::fe(1007043872, 998563985, 93375154, 1213968105, 487927940, 1035054965, 1914119577));
    literal::lemma_product(1007043872, 998563985, 93375154, 1213968105, 487927940, 1035054965, 1914119577, 1007043872, 998563985, 93375154, 1213968105, 487927940, 1035054965, 1914119577, 507548861, 1762404102, 387917517, 339442068, 287840908, 1303803567, 201606014, 12680123081, 15561131306, 18209017104, 16097953299, 15039997231, 15718935776, 8672589632);
    lemma_chain(z, 16646144, 16646144, literal::fe(1007043872, 998563985, 93375154, 1213968105, 487927940, 1035054965, 1914119577), literal::fe(1007043872, 998563985, 93375154, 1213968105, 487927940, 1035054965, 1914119577), literal::fe(507548861, 1762404102, 387917517, 339442068, 287840908, 1303803567, 201606014));
    literal::lemma_product(507548861, 1762404102, 387917517, 339442068, 287840908, 1303803567, 201606014, 507548861, 1762404102, 387917517, 339442068, 287840908, 1303803567, 201606014, 680867128, 581216299, 930965915, 806023473, 1328431963, 1176493560, 2104800695, 4620746391, 6178094687, 5308215503, 6314363248, 4559790621, 2056489702, 2469031005);
    lemma_chain(z, 33292288, 33292288, literal::fe(507548861, 1762404102, 387917517, 339442068, 287840908, 1303803567, 201606014), literal::fe(507548861, 1762404102, 387917517, 339442068, 287840908, 1303803567, 201606014), literal::fe(680867128, 581216299, 930965915, 806023473, 1328431963, 1176493560, 2104800695));
    literal::lemma_product(680867128, 581216299, 930965915, 806023473, 1328431963, 1176493560, 2104800695, 680867128, 581216299, 930965915, 806023473, 1328431963, 1176493560, 2104800695, 260174667, 832020149, 1395760455, 793925643, 1339509554, 7711458, 1396147430, 16124817429, 27704010858, 26723772481, 26572298835, 23139921611, 19550174027, 9690427008);
    lemma_chain(z, 66584576, 66584576, literal::fe(680867128, 581216299, 930965915, 806023473, 1328431963, 1176493560, 2104800695), literal::fe(680867128, 581216299, 930965915, 806023473, 1328431963, 1176493560, 2104800695), literal::fe(260174667, 832020149, 1395760455, 793925643, 1339509554, 7711458, 1396147430));
    literal::lemma_product(260174667, 832020149, 1395760455, 793925643, 1339509554, 7711458, 1396147430, 260174667, 832020149, 1395760455, 793925643, 1339509554, 7711458, 1396147430, 988537227, 1800623126, 2073552906, 1178662801, 1623136959, 632986868, 1940093323, 10525270754, 19884301944, 13947451409, 13211649591, 7178390616, 6692619202, 5142231790);
    lemma_chain(z, 133169152, 133169152, literal::fe(260174667, 832020149, 1395760455, 793925643, 1339509554, 7711458, 1396147430), literal::fe(260174667, 832020149, 1395760455, 793925643, 1339509554, 7711458, 1396147430), literal::fe(988537227, 1800623126, 2073552906, 1178662801, 1623136959, 632986868, 1940093323));
    literal::lemma_product(988537227, 1800623126, 2073552906, 1178662801, 1623136959, 632986868, 1940093323, 988537227, 1800623126, 2073552906, 1178662801, 1623136959, 632986868, 1940093323, 829244187, 735093767, 834115944, 1805761557, 1151822993, 1351180067, 1498640171, 31992959224, 49155863724, 36138587245, 29650379173, 20711494895, 17915630658, 11980863791);
    lemma_chain(z, 266338304, 266338304, literal::fe(988537227, 1800623126, 2073552906, 1178662801, 1623136959, 632986868, 1940093323), literal::fe(988537227, 1800623126, 2073552906, 1178662801, 1623136959, 632986868, 1940093323), literal::fe(829244187, 735093767, 834115944, 1805761557, 1151822993, 1351180067, 1498640171));
    literal::lemma_product(829244187, 735093767, 834115944, 1805761557, 1151822993, 1351180067, 1498640171, 829244187, 735093767, 834115944, 1805761557, 1151822993, 1351180067, 1498640171, 1036982423, 632740377, 606940309, 1312765963, 1393099330, 1026623517, 2068837795, 20544191782, 33136291624, 33166739837, 26369800618, 19404006657, 14232814502, 7693230221);
    lemma_chain(z, 532676608, 532676608, literal::fe(829244187, 735093767, 834115944, 1805761557, 1151822993, 1351180067, 1498640171), literal::fe(829244187, 735093767, 834115944, 1805761557, 1151822993, 1351180067, 1498640171), literal::fe(1036982423, 632740377, 606940309, 1312765963, 1393099330, 1026623517, 2068837795));
    literal::lemma_product(1036982423, 632740377, 606940309, 1312765963, 1393099330, 1026623517, 2068837795, 1036982423, 632740377, 606940309, 1312765963, 1393099330, 1026623517, 2068837795, 2039768492, 1879852731, 746569225, 180350946, 1600835585, 333893434, 680565950, 18155870649, 27979163343, 30300964028, 29313271741, 21876555615, 18599285349, 10252256734);
    lemma_chain(z, 1065353216, 1065353216, literal::fe(1036982423, 632740377, 606940309, 1312765963, 1393099330, 1026623517, 2068837795), literal::fe(1036982423, 632740377, 606940309, 1312765963, 1393099330, 1026623517, 2068837795), literal::fe(2039768492, 1879852731, 746569225, 180350946, 1600835585, 333893434, 680565950));
    literal::lemma_product(2039768492, 1879852731, 746569225, 180350946, 1600835585, 333893434, 680565950, 0, 1, 0, 0, 0, 0, 0, 1272123317, 1950759909, 1879852731, 746569225, 180350946, 1600835585, 333893434, 1, 1, 0, 0, 0, 0, 0);
    lemma_chain(z, 2130706432, 1, literal::fe(2039768492, 1879852731, 746569225, 180350946, 1600835585, 333893434, 680565950), literal::fe(0, 1, 0, 0, 0, 0, 0), literal::fe(1272123317, 1950759909, 1879852731, 746569225, 180350946, 1600835585, 333893434));
}

/// The powers of `z^(p)`.
proof fn lemma_zeta_p_powers()
    ensures
        zeta_p(1).power(1) == zeta_p(1),
        zeta_p(1).power(2) == zeta_p(2),
        zeta_p(1).power(3) == zeta_p(3),
        zeta_p(1).power(4) == zeta_p(4),
        zeta_p(1).power(5) == zeta_p(5),
        zeta_p(1).power(6) == zeta_p(6),
{
    reveal(Fe::canonical);
    let w = zeta_p(1);
    powers::lemma_power_small(w);
    literal::lemma_product(1272123317, 1950759909, 1879852731, 746569225, 180350946, 1600835585, 333893434, 1272123317, 1950759909, 1879852731, 746569225, 180350946, 1600835585, 333893434, 129050189, 1749509219, 983995729, 711096547, 1505254548, 639452798, 68186395, 18572034370, 21648149091, 11734394916, 12144898042, 9527297842, 5325895030, 4066766492);
    powers::lemma_power_add(w, 1, 1);
    literal::lemma_product(129050189, 1749509219, 983995729, 711096547, 1505254548, 639452798, 68186395, 1272123317, 1950759909, 1879852731, 746569225, 180350946, 1600835585, 333893434, 1911662442, 1095215454, 1794102427, 1173566779, 140526665, 110899104, 1387282150, 11215328697, 13346054236, 12205207441, 10485744286, 5965248481, 3484840642, 3653356975);
    powers::lemma_power_add(w, 2, 1);
    literal::lemma_product(1911662442, 1095215454, 1794102427, 1173566779, 140526665, 110899104, 1387282150, 1272123317, 1950759909, 1879852731, 746569225, 180350946, 1600835585, 333893434, 1366416596, 1212861, 2104391040, 1447859676, 308944373, 106444152, 1362577042, 16321857786, 23700274224, 14997966547, 7448043243, 9253424874, 7653839589, 3391449118);
    powers::lemma_power_add(w, 3, 1);
    literal::lemma_product(1366416596, 1212861, 2104391040, 1447859676, 308944373, 106444152, 1362577042, 1272123317, 1950759909, 1879852731, 746569225, 180350946, 1600835585, 333893434, 1411781189, 1580508159, 1332301780, 1528790701, 380217034, 1752756730, 989817517, 16583162796, 24128028309, 15239792640, 7325865685, 9415952108, 7576705939, 2724582297);
    powers::lemma_power_add(w, 4, 1);
    literal::lemma_product(1411781189, 1580508159, 1332301780, 1528790701, 380217034, 1752756730, 989817517, 1272123317, 1950759909, 1879852731, 746569225, 180350946, 1600835585, 333893434, 37669840, 439102875, 410223214, 964813232, 1250258104, 877333757, 222095778, 20662413306, 28512858058, 17221072743, 14384067742, 12947801237, 8235222938, 5053609555);
    powers::lemma_power_add(w, 5, 1);
}

/// The powers of `z^(p^2)`.
proof fn lemma_zeta_p2_powers()
    ensures
        zeta_p2(1).power(1) == zeta_p2(1),
        zeta_p2(1).power(2) == zeta_p2(2),
        zeta_p2(1).power(3) == zeta_p2(3),
        zeta_p2(1).power(4) == zeta_p2(4),
        zeta_p2(1).power(5) == zeta_p2(5),
        zeta_p2(1).power(6) == zeta_p2(6),
{
    reveal(Fe::canonical);
    let w = zeta_p2(1);
    powers::lemma_power_small(w);
    literal::lemma_product(1330073564, 1724372201, 942213154, 258987814, 1836986639, 566030553, 2086945921, 1330073564, 1724372201, 942213154, 258987814, 1836986639, 566030553, 2086945921, 473977877, 99096011, 1919717963, 733784355, 1167998744, 19619652, 1354518805, 22455743373, 32963533632, 20689825163, 25042855562, 19920002311, 17455916085, 11310074440);
    powers::lemma_power_add(w, 1, 1);
    literal::lemma_product(473977877, 99096011, 1919717963, 733784355, 1167998744, 19619652, 1354518805, 1330073564, 1724372201, 942213154, 258987814, 1836986639, 566030553, 2086945921, 1040563478, 1866766699, 1875293643, 846885082, 1921678452, 2127718474, 1489297699, 12728506390, 26322900678, 18591657183, 17329872291, 11438866836, 9497328532, 7592863227);
    powers::lemma_power_add(w, 2, 1);
    literal::lemma_product(1040563478, 1866766699, 1875293643, 846885082, 1921678452, 2127718474, 1489297699, 1330073564, 1724372201, 942213154, 258987814, 1836986639, 566030553, 2086945921, 1350284585, 1583164394, 512913106, 1818487640, 2116891899, 318922921, 1013732863, 27832073494, 41495606944, 33825885448, 31721812358, 27430884027, 20104240530, 11112373194);
    powers::lemma_power_add(w, 3, 1);
    literal::lemma_product(1350284585, 1583164394, 512913106, 1818487640, 2116891899, 318922921, 1013732863, 1330073564, 1724372201, 942213154, 258987814, 1836986639, 566030553, 2086945921, 887772098, 1971095075, 843183752, 711838602, 1717807390, 521017530, 1548716569, 23210216149, 31989386562, 25799694305, 25800157783, 16381295436, 11211990451, 7212130320);
    powers::lemma_power_add(w, 4, 1);
    literal::lemma_product(887772098, 1971095075, 843183752, 711838602, 1717807390, 521017530, 1548716569, 1330073564, 1724372201, 942213154, 258987814, 1836986639, 566030553, 2086945921, 372606377, 357514301, 335089633, 330400379, 1545190367, 1813349020, 1393941056, 22858614945, 31552358177, 21201616408, 23260102734, 17103437431, 14417705547, 8905424942);
    powers::lemma_power_add(w, 5, 1);
}

/// The linear formula, coefficient by coefficient.
proof fn lemma_frobenius_coefs(
    a0: int,
    a1: int,
    a2: int,
    a3: int,
    a4: int,
    a5: int,
    a6: int,
    r0: int,
    r1: int,
    r2: int,
    r3: int,
    r4: int,
    r5: int,
    r6: int,
)
    requires
        (a0 + a1 * 1272123317 + a2 * 129050189 + a3 * 1911662442 + a4 * 1366416596 + a5 * 1411781189 + a6 * 37669840) % 2130706433 == r0,
        (a1 * 1950759909 + a2 * 1749509219 + a3 * 1095215454 + a4 * 1212861 + a5 * 1580508159 + a6 * 439102875) % 2130706433 == r1,
        (a1 * 1879852731 + a2 * 983995729 + a3 * 1794102427 + a4 * 2104391040 + a5 * 1332301780 + a6 * 410223214) % 2130706433 == r2,
        (a1 * 746569225 + a2 * 711096547 + a3 * 1173566779 + a4 * 1447859676 + a5 * 1528790701 + a6 * 964813232) % 2130706433 == r3,
        (a1 * 180350946 + a2 * 1505254548 + a3 * 140526665 + a4 * 308944373 + a5 * 380217034 + a6 * 1250258104) % 2130706433 == r4,
        (a1 * 1600835585 + a2 * 639452798 + a3 * 110899104 + a4 * 106444152 + a5 * 1752756730 + a6 * 877333757) % 2130706433 == r5,
        (a1 * 333893434 + a2 * 68186395 + a3 * 1387282150 + a4 * 1362577042 + a5 * 989817517 + a6 * 222095778) % 2130706433 == r6,
    ensures
        frobenius(literal::fe(a0, a1, a2, a3, a4, a5, a6)) == literal::fe(r0, r1, r2, r3, r4, r5, r6),
{
    let a = literal::fe(a0, a1, a2, a3, a4, a5, a6);
    lemma_combine(a, zeta_p(1), zeta_p(2), zeta_p(3), zeta_p(4), zeta_p(5), zeta_p(6));
    lemma_scale_fe(a1, 1272123317, 1950759909, 1879852731, 746569225, 180350946, 1600835585, 333893434);
    lemma_scale_fe(a2, 129050189, 1749509219, 983995729, 711096547, 1505254548, 639452798, 68186395);
    lemma_scale_fe(a3, 1911662442, 1095215454, 1794102427, 1173566779, 140526665, 110899104, 1387282150);
    lemma_scale_fe(a4, 1366416596, 1212861, 2104391040, 1447859676, 308944373, 106444152, 1362577042);
    lemma_scale_fe(a5, 1411781189, 1580508159, 1332301780, 1528790701, 380217034, 1752756730, 989817517);
    lemma_scale_fe(a6, 37669840, 439102875, 410223214, 964813232, 1250258104, 877333757, 222095778);
}

/// The linear formula, coefficient by coefficient.
proof fn lemma_double_frobenius_coefs(
    a0: int,
    a1: int,
    a2: int,
    a3: int,
    a4: int,
    a5: int,
    a6: int,
    r0: int,
    r1: int,
    r2: int,
    r3: int,
    r4: int,
    r5: int,
    r6: int,
)
    requires
        (a0 + a1 * 1330073564 + a2 * 473977877 + a3 * 1040563478 + a4 * 1350284585 + a5 * 887772098 + a6 * 372606377) % 2130706433 == r0,
        (a1 * 1724372201 + a2 * 99096011 + a3 * 1866766699 + a4 * 1583164394 + a5 * 1971095075 + a6 * 357514301) % 2130706433 == r1,
        (a1 * 942213154 + a2 * 1919717963 + a3 * 1875293643 + a4 * 512913106 + a5 * 843183752 + a6 * 335089633) % 2130706433 == r2,
        (a1 * 258987814 + a2 * 733784355 + a3 * 846885082 + a4 * 1818487640 + a5 * 711838602 + a6 * 330400379) % 2130706433 == r3,
        (a1 * 1836986639 + a2 * 1167998744 + a3 * 1921678452 + a4 * 2116891899 + a5 * 1717807390 + a6 * 1545190367) % 2130706433 == r4,
        (a1 * 566030553 + a2 * 19619652 + a3 * 2127718474 + a4 * 318922921 + a5 * 521017530 + a6 * 1813349020) % 2130706433 == r5,
        (a1 * 2086945921 + a2 * 1354518805 + a3 * 1489297699 + a4 * 1013732863 + a5 * 1548716569 + a6 * 1393941056) % 2130706433 == r6,
    ensures
        double_frobenius(literal::fe(a0, a1, a2, a3, a4, a5, a6)) == literal::fe(r0, r1, r2, r3, r4, r5, r6),
{
    let a = literal::fe(a0, a1, a2, a3, a4, a5, a6);
    lemma_combine(a, zeta_p2(1), zeta_p2(2), zeta_p2(3), zeta_p2(4), zeta_p2(5), zeta_p2(6));
    lemma_scale_fe(a1, 1330073564, 1724372201, 942213154, 258987814, 1836986639, 566030553, 2086945921);
    lemma_scale_fe(a2, 473977877, 99096011, 1919717963, 733784355, 1167998744, 19619652, 1354518805);
    lemma_scale_fe(a3, 1040563478, 1866766699, 1875293643, 846885082, 1921678452, 2127718474, 1489297699);
    lemma_scale_fe(a4, 1350284585, 1583164394, 512913106, 1818487640, 2116891899, 318922921, 1013732863);
    lemma_scale_fe(a5, 887772098, 1971095075, 843183752, 711838602, 1717807390, 521017530, 1548716569);
    lemma_scale_fe(a6, 372606377, 357514301, 335089633, 330400379, 1545190367, 1813349020, 1393941056);
}

/// `z^(p^2)`, `z^(p^4)` and `z^(p^6)` as values of the linear formulas, and `z^(p^7) = z`.
proof fn lemma_orbit()
    ensures
        frobenius(zeta_p(1)) == zeta_p2(1),
        double_frobenius(zeta_p2(1)) == literal::fe(1407335172, 651021059, 1283028566, 1468739027, 372470499, 1726522429, 873173944),
        double_frobenius(literal::fe(1407335172, 651021059, 1283028566, 1468739027, 372470499, 1726522429, 873173944)) == literal::fe(531968304, 1266789219, 265706439, 1098038743, 818733009, 1863182270, 503358915),
        frobenius(literal::fe(531968304, 1266789219, 265706439, 1098038743, 818733009, 1863182270, 503358915)) == Fe::zeta(),
{
    lemma_frobenius_coefs(1272123317, 1950759909, 1879852731, 746569225, 180350946, 1600835585, 333893434, 1330073564, 1724372201, 942213154, 258987814, 1836986639, 566030553, 2086945921);
    lemma_double_frobenius_coefs(1330073564, 1724372201, 942213154, 258987814, 1836986639, 566030553, 2086945921, 1407335172, 651021059, 1283028566, 1468739027, 372470499, 1726522429, 873173944);
    lemma_double_frobenius_coefs(1407335172, 651021059, 1283028566, 1468739027, 372470499, 1726522429, 873173944, 531968304, 1266789219, 265706439, 1098038743, 818733009, 1863182270, 503358915);
    lemma_frobenius_coefs(531968304, 1266789219, 265706439, 1098038743, 818733009, 1863182270, 503358915, 0, 1, 0, 0, 0, 0, 0);
}

/// The `p`-th power of a combination: the coefficients stay, the other factors are raised.
proof fn lemma_combine_power(a: Fe, b1: Fe, b2: Fe, b3: Fe, b4: Fe, b5: Fe, b6: Fe)
    requires
        a.canonical(),
        b1.canonical(),
        b2.canonical(),
        b3.canonical(),
        b4.canonical(),
        b5.canonical(),
        b6.canonical(),
    ensures
        combine(a, b1, b2, b3, b4, b5, b6).power(element::prime() as nat) == combine(
            a,
            b1.power(element::prime() as nat),
            b2.power(element::prime() as nat),
            b3.power(element::prime() as nat),
            b4.power(element::prime() as nat),
            b5.power(element::prime() as nat),
            b6.power(element::prime() as nat),
        ),
{
    broadcast use {element::group_canonical, powers::lemma_power_canonical};

    let p = element::prime() as nat;
    assert(a.c0 >= 0 && a.c1 >= 0 && a.c2 >= 0 && a.c3 >= 0 && a.c4 >= 0 && a.c5 >= 0 && a.c6 >= 0)
        by {
        reveal(Fe::canonical);
    }
    let s0 = Fe::of_int(a.c0);
    powers::lemma_fermat_class(a.c0 as nat);
    let t1 = Fe::of_int(a.c1).times(b1);
    powers::lemma_fermat_class(a.c1 as nat);
    powers::lemma_power_product(Fe::of_int(a.c1), b1, p);
    powers::lemma_frobenius_sum(s0, t1);
    let s1 = s0.plus(t1);
    let t2 = Fe::of_int(a.c2).times(b2);
    powers::lemma_fermat_class(a.c2 as nat);
    powers::lemma_power_product(Fe::of_int(a.c2), b2, p);
    powers::lemma_frobenius_sum(s1, t2);
    let s2 = s1.plus(t2);
    let t3 = Fe::of_int(a.c3).times(b3);
    powers::lemma_fermat_class(a.c3 as nat);
    powers::lemma_power_product(Fe::of_int(a.c3), b3, p);
    powers::lemma_frobenius_sum(s2, t3);
    let s3 = s2.plus(t3);
    let t4 = Fe::of_int(a.c4).times(b4);
    powers::lemma_fermat_class(a.c4 as nat);
    powers::lemma_power_product(Fe::of_int(a.c4), b4, p);
    powers::lemma_frobenius_sum(s3, t4);
    let s4 = s3.plus(t4);
    let t5 = Fe::of_int(a.c5).times(b5);
    powers::lemma_fermat_class(a.c5 as nat);
    powers::lemma_power_product(Fe::of_int(a.c5), b5, p);
    powers::lemma_frobenius_sum(s4, t5);
    let s5 = s4.plus(t5);
    let t6 = Fe::of_int(a.c6).times(b6);
    powers::lemma_fermat_class(a.c6 as nat);
    powers::lemma_power_product(Fe::of_int(a.c6), b6, p);
    powers::lemma_frobenius_sum(s5, t6);
    let s6 = s5.plus(t6);
}

/// Exponents commute.
proof fn lemma_power_swap(x: Fe, m: nat, n: nat)
    requires
        x.canonical(),
    ensures
        x.power(m).power(n) == x.power(n).power(m),
{
    powers::lemma_power_mul(x, m, n);
    powers::lemma_power_mul(x, n, m);
    vstd::arithmetic::mul::lemma_mul_is_commutative(m as int, n as int);
}

/// `p^k`.
pub open spec fn prime_power(k: nat) -> nat
    decreases k,
{
    if k == 0 {
        1
    } else {
        prime_power((k - 1) as nat) * element::prime() as nat
    }
}

/// Raising to the power `p^k` substitutes `z^(p^k)` for `z`.
pub proof fn lemma_power_substitute(a: Fe, k: nat)
    requires
        a.canonical(),
    ensures
        a.power(prime_power(k)) == substitute(a, Fe::zeta().power(prime_power(k))),
    decreases k,
{
    broadcast use {element::group_canonical, powers::lemma_power_canonical};

    let z = Fe::zeta();
    element::lemma_constants(z);
    if k == 0 {
        powers::lemma_power_small(a);
        powers::lemma_power_small(z);
        lemma_substitute_zeta(a);
    } else {
        let q = prime_power((k - 1) as nat);
        let p = element::prime() as nat;
        lemma_power_substitute(a, (k - 1) as nat);
        powers::lemma_power_mul(a, q, p);
        powers::lemma_power_mul(z, q, p);
        let w = z.power(q);
        lemma_combine_power(a, w, w.power(2), w.power(3), w.power(4), w.power(5), w.power(6));
        lemma_power_swap(w, 2, p);
        lemma_power_swap(w, 3, p);
        lemma_power_swap(w, 4, p);
        lemma_power_swap(w, 5, p);
        lemma_power_swap(w, 6, p);
    }
}

/// The linear formula computes the `p`-th power.
pub proof fn lemma_frobenius(a: Fe)
    requires
        a.canonical(),
    ensures
        frobenius(a) == a.power(element::prime() as nat),
{
    lemma_prime_powers();
    lemma_power_substitute(a, 1);
    lemma_zeta_p();
    lemma_zeta_p_powers();
}

/// `z^(p^2)`.
proof fn lemma_zeta_p2()
    ensures
        Fe::zeta().power(prime_power(2)) == zeta_p2(1),
{
    let z = Fe::zeta();
    let p = element::prime() as nat;
    element::lemma_constants(z);
    lemma_prime_powers();
    lemma_zeta_p();
    powers::lemma_power_mul(z, p, p);
    lemma_orbit();
    powers::lemma_power_canonical(z, p);
    lemma_frobenius(zeta_p(1));
}

/// The other linear formula computes the `p^2`-th power.
pub proof fn lemma_double_frobenius(a: Fe)
    requires
        a.canonical(),
    ensures
        double_frobenius(a) == a.power(prime_power(2)),
{
    lemma_power_substitute(a, 2);
    lemma_zeta_p2();
    lemma_zeta_p2_powers();
}

/// The first powers of the prime.
pub proof fn lemma_prime_powers()
    ensures
        prime_power(1) == element::prime(),
        prime_power(2) == element::prime() * element::prime(),
        prime_power(4) == prime_power(2) * prime_power(2),
        prime_power(6) == prime_power(4) * prime_power(2),
        prime_power(7) == prime_power(6) * element::prime(),
        prime_power(7) >= 2,
{
    reveal_with_fuel(prime_power, 8);
    let p = element::prime() as nat;
    assert(((p * p) * p) * p == (p * p) * (p * p)) by (nonlinear_arith);
    let q = prime_power(4);
    assert((q * p) * p == q * (p * p)) by (nonlinear_arith);
}

/// The `p^7`-th power of every element is the element.
pub proof fn lemma_power_p7(a: Fe)
    requires
        a.canonical(),
    ensures
        a.power(prime_power(7)) == a,
{
    let z = Fe::zeta();
    let p = element::prime() as nat;
    let q = prime_power(2);
    element::lemma_constants(z);
    lemma_prime_powers();
    lemma_zeta_p2();
    lemma_orbit();
    powers::lemma_power_canonical(z, q);
    lemma_double_frobenius(zeta_p2(1));
    powers::lemma_power_mul(z, q, q);
    powers::lemma_power_canonical(z, q * q);
    lemma_double_frobenius(z.power(q * q));
    powers::lemma_power_mul(z, q * q, q);
    powers::lemma_power_canonical(z, q * q * q);
    lemma_frobenius(z.power(q * q * q));
    powers::lemma_power_mul(z, q * q * q, p);
    lemma_power_substitute(a, 7);
    lemma_substitute_zeta(a);
}

/// The elements that are their own `p`-th power are the classes of the integers.
pub proof fn lemma_fixed(a: Fe)
    requires
        a.canonical(),
        a.power(element::prime() as nat) == a,
    ensures
        a == Fe::of_int(a.c0),
{
    lemma_frobenius(a);
    let (a0, a1, a2, a3, a4, a5, a6) = (a.c0, a.c1, a.c2, a.c3, a.c4, a.c5, a.c6);
    assert(a == literal::fe(a0, a1, a2, a3, a4, a5, a6));
    lemma_frobenius_coefs(a0, a1, a2, a3, a4, a5, a6, (a0 + a1 * 1272123317 + a2 * 129050189 + a3 * 1911662442 + a4 * 1366416596 + a5 * 1411781189 + a6 * 37669840) % 2130706433, (a1 * 1950759909 + a2 * 1749509219 + a3 * 1095215454 + a4 * 1212861 + a5 * 1580508159 + a6 * 439102875) % 2130706433, (a1 * 1879852731 + a2 * 983995729 + a3 * 1794102427 + a4 * 2104391040 + a5 * 1332301780 + a6 * 410223214) % 2130706433, (a1 * 746569225 + a2 * 711096547 + a3 * 1173566779 + a4 * 1447859676 + a5 * 1528790701 + a6 * 964813232) % 2130706433, (a1 * 180350946 + a2 * 1505254548 + a3 * 140526665 + a4 * 308944373 + a5 * 380217034 + a6 * 1250258104) % 2130706433, (a1 * 1600835585 + a2 * 639452798 + a3 * 110899104 + a4 * 106444152 + a5 * 1752756730 + a6 * 877333757) % 2130706433, (a1 * 333893434 + a2 * 68186395 + a3 * 1387282150 + a4 * 1362577042 + a5 * 989817517 + a6 * 222095778) % 2130706433);
    lemma_fixed_coefs(a0, a1, a2, a3, a4, a5, a6);
    reveal(Fe::canonical);
    reveal(Fe::of_int);
}

/// Elimination for the coefficient of `z^1`.
proof fn lemma_eliminate_1(
    a0: int,
    a1: int,
    a2: int,
    a3: int,
    a4: int,
    a5: int,
    a6: int,
    q0: int,
    q1: int,
    q2: int,
    q3: int,
    q4: int,
    q5: int,
    q6: int,
)
    requires
        a0 + a1 * 1272123317 + a2 * 129050189 + a3 * 1911662442 + a4 * 1366416596 + a5 * 1411781189 + a6 * 37669840 - a0 == 2130706433 * q0,
        a1 * 1950759909 + a2 * 1749509219 + a3 * 1095215454 + a4 * 1212861 + a5 * 1580508159 + a6 * 439102875 - a1 == 2130706433 * q1,
        a1 * 1879852731 + a2 * 983995729 + a3 * 1794102427 + a4 * 2104391040 + a5 * 1332301780 + a6 * 410223214 - a2 == 2130706433 * q2,
        a1 * 746569225 + a2 * 711096547 + a3 * 1173566779 + a4 * 1447859676 + a5 * 1528790701 + a6 * 964813232 - a3 == 2130706433 * q3,
        a1 * 180350946 + a2 * 1505254548 + a3 * 140526665 + a4 * 308944373 + a5 * 380217034 + a6 * 1250258104 - a4 == 2130706433 * q4,
        a1 * 1600835585 + a2 * 639452798 + a3 * 110899104 + a4 * 106444152 + a5 * 1752756730 + a6 * 877333757 - a5 == 2130706433 * q5,
        a1 * 333893434 + a2 * 68186395 + a3 * 1387282150 + a4 * 1362577042 + a5 * 989817517 + a6 * 222095778 - a6 == 2130706433 * q6,
    ensures
        a1 == 2130706433 * ((1257212192 * q0 + 37676551 * q1 + 800250263 * q2 + 1011165932 * q3 + 2047974270 * q4 + 1037242399 * q5 + 0 * q6) - (2798083023 * a1 + 2572211939 * a2 + 2567155717 * a3 + 2632509851 * a4 + 3305570740 * a5 + 2270737298 * a6)),
{
}

/// Elimination for the coefficient of `z^2`.
proof fn lemma_eliminate_2(
    a0: int,
    a1: int,
    a2: int,
    a3: int,
    a4: int,
    a5: int,
    a6: int,
    q0: int,
    q1: int,
    q2: int,
    q3: int,
    q4: int,
    q5: int,
    q6: int,
)
    requires
        a0 + a1 * 1272123317 + a2 * 129050189 + a3 * 1911662442 + a4 * 1366416596 + a5 * 1411781189 + a6 * 37669840 - a0 == 2130706433 * q0,
        a1 * 1950759909 + a2 * 1749509219 + a3 * 1095215454 + a4 * 1212861 + a5 * 1580508159 + a6 * 439102875 - a1 == 2130706433 * q1,
        a1 * 1879852731 + a2 * 983995729 + a3 * 1794102427 + a4 * 2104391040 + a5 * 1332301780 + a6 * 410223214 - a2 == 2130706433 * q2,
        a1 * 746569225 + a2 * 711096547 + a3 * 1173566779 + a4 * 1447859676 + a5 * 1528790701 + a6 * 964813232 - a3 == 2130706433 * q3,
        a1 * 180350946 + a2 * 1505254548 + a3 * 140526665 + a4 * 308944373 + a5 * 380217034 + a6 * 1250258104 - a4 == 2130706433 * q4,
        a1 * 1600835585 + a2 * 639452798 + a3 * 110899104 + a4 * 106444152 + a5 * 1752756730 + a6 * 877333757 - a5 == 2130706433 * q5,
        a1 * 333893434 + a2 * 68186395 + a3 * 1387282150 + a4 * 1362577042 + a5 * 989817517 + a6 * 222095778 - a6 == 2130706433 * q6,
    ensures
        a2 == 2130706433 * ((1555168653 * q0 + 1152028301 * q1 + 1830625459 * q2 + 844168697 * q3 + 1040533498 * q4 + 1232003525 * q5 + 0 * q6) - (4907822912 * a1 + 3272092200 * a2 + 4126586973 * a3 + 3592048889 * a4 + 4834491350 * a5 + 2117460074 * a6)),
{
}

/// Elimination for the coefficient of `z^3`.
proof fn lemma_eliminate_3(
    a0: int,
    a1: int,
    a2: int,
    a3: int,
    a4: int,
    a5: int,
    a6: int,
    q0: int,
    q1: int,
    q2: int,
    q3: int,
    q4: int,
    q5: int,
    q6: int,
)
    requires
        a0 + a1 * 1272123317 + a2 * 129050189 + a3 * 1911662442 + a4 * 1366416596 + a5 * 1411781189 + a6 * 37669840 - a0 == 2130706433 * q0,
        a1 * 1950759909 + a2 * 1749509219 + a3 * 1095215454 + a4 * 1212861 + a5 * 1580508159 + a6 * 439102875 - a1 == 2130706433 * q1,
        a1 * 1879852731 + a2 * 983995729 + a3 * 1794102427 + a4 * 2104391040 + a5 * 1332301780 + a6 * 410223214 - a2 == 2130706433 * q2,
        a1 * 746569225 + a2 * 711096547 + a3 * 1173566779 + a4 * 1447859676 + a5 * 1528790701 + a6 * 964813232 - a3 == 2130706433 * q3,
        a1 * 180350946 + a2 * 1505254548 + a3 * 140526665 + a4 * 308944373 + a5 * 380217034 + a6 * 1250258104 - a4 == 2130706433 * q4,
        a1 * 1600835585 + a2 * 639452798 + a3 * 110899104 + a4 * 106444152 + a5 * 1752756730 + a6 * 877333757 - a5 == 2130706433 * q5,
        a1 * 333893434 + a2 * 68186395 + a3 * 1387282150 + a4 * 1362577042 + a5 * 989817517 + a6 * 222095778 - a6 == 2130706433 * q6,
    ensures
        a3 == 2130706433 * ((531992384 * q0 + 659860012 * q1 + 58712754 * q2 + 1848985566 * q3 + 2082593533 * q4 + 620873745 * q5 + 0 * q6) - (2264164527 * a1 + 2875815264 * a2 + 2053984382 * a3 + 1988938336 * a4 + 3087700909 * a5 + 2471617125 * a6)),
{
}

/// Elimination for the coefficient of `z^4`.
proof fn lemma_eliminate_4(
    a0: int,
    a1: int,
    a2: int,
    a3: int,
    a4: int,
    a5: int,
    a6: int,
    q0: int,
    q1: int,
    q2: int,
    q3: int,
    q4: int,
    q5: int,
    q6: int,
)
    requires
        a0 + a1 * 1272123317 + a2 * 129050189 + a3 * 1911662442 + a4 * 1366416596 + a5 * 1411781189 + a6 * 37669840 - a0 == 2130706433 * q0,
        a1 * 1950759909 + a2 * 1749509219 + a3 * 1095215454 + a4 * 1212861 + a5 * 1580508159 + a6 * 439102875 - a1 == 2130706433 * q1,
        a1 * 1879852731 + a2 * 983995729 + a3 * 1794102427 + a4 * 2104391040 + a5 * 1332301780 + a6 * 410223214 - a2 == 2130706433 * q2,
        a1 * 746569225 + a2 * 711096547 + a3 * 1173566779 + a4 * 1447859676 + a5 * 1528790701 + a6 * 964813232 - a3 == 2130706433 * q3,
        a1 * 180350946 + a2 * 1505254548 + a3 * 140526665 + a4 * 308944373 + a5 * 380217034 + a6 * 1250258104 - a4 == 2130706433 * q4,
        a1 * 1600835585 + a2 * 639452798 + a3 * 110899104 + a4 * 106444152 + a5 * 1752756730 + a6 * 877333757 - a5 == 2130706433 * q5,
        a1 * 333893434 + a2 * 68186395 + a3 * 1387282150 + a4 * 1362577042 + a5 * 989817517 + a6 * 222095778 - a6 == 2130706433 * q6,
    ensures
        a4 == 2130706433 * ((435834302 * q0 + 136151733 * q1 + 759217579 * q2 + 510148977 * q3 + 907235295 * q4 + 264571065 * q5 + 0 * q6) - (1509015299 * a1 + 1379390402 * a2 + 1454880380 * a3 + 1520837592 * a4 + 1610069089 * a5 + 1054225470 * a6)),
{
}

/// Elimination for the coefficient of `z^5`.
proof fn lemma_eliminate_5(
    a0: int,
    a1: int,
    a2: int,
    a3: int,
    a4: int,
    a5: int,
    a6: int,
    q0: int,
    q1: int,
    q2: int,
    q3: int,
    q4: int,
    q5: int,
    q6: int,
)
    requires
        a0 + a1 * 1272123317 + a2 * 129050189 + a3 * 1911662442 + a4 * 1366416596 + a5 * 1411781189 + a6 * 37669840 - a0 == 2130706433 * q0,
        a1 * 1950759909 + a2 * 1749509219 + a3 * 1095215454 + a4 * 1212861 + a5 * 1580508159 + a6 * 439102875 - a1 == 2130706433 * q1,
        a1 * 1879852731 + a2 * 983995729 + a3 * 1794102427 + a4 * 2104391040 + a5 * 1332301780 + a6 * 410223214 - a2 == 2130706433 * q2,
        a1 * 746569225 + a2 * 711096547 + a3 * 1173566779 + a4 * 1447859676 + a5 * 1528790701 + a6 * 964813232 - a3 == 2130706433 * q3,
        a1 * 180350946 + a2 * 1505254548 + a3 * 140526665 + a4 * 308944373 + a5 * 380217034 + a6 * 1250258104 - a4 == 2130706433 * q4,
        a1 * 1600835585 + a2 * 639452798 + a3 * 110899104 + a4 * 106444152 + a5 * 1752756730 + a6 * 877333757 - a5 == 2130706433 * q5,
        a1 * 333893434 + a2 * 68186395 + a3 * 1387282150 + a4 * 1362577042 + a5 * 989817517 + a6 * 222095778 - a6 == 2130706433 * q6,
    ensures
        a5 == 2130706433 * ((743629006 * q0 + 1542785395 * q1 + 157441185 * q2 + 1139808719 * q3 + 663951005 * q4 + 239477189 * q5 + 0 * q6) - (2630870099 * a1 + 2305839878 * a2 + 2276811980 * a3 + 1516020191 * a4 + 2868863176 * a5 + 1365722632 * a6)),
{
}

/// Elimination for the coefficient of `z^6`.
proof fn lemma_eliminate_6(
    a0: int,
    a1: int,
    a2: int,
    a3: int,
    a4: int,
    a5: int,
    a6: int,
    q0: int,
    q1: int,
    q2: int,
    q3: int,
    q4: int,
    q5: int,
    q6: int,
)
    requires
        a0 + a1 * 1272123317 + a2 * 129050189 + a3 * 1911662442 + a4 * 1366416596 + a5 * 1411781189 + a6 * 37669840 - a0 == 2130706433 * q0,
        a1 * 1950759909 + a2 * 1749509219 + a3 * 1095215454 + a4 * 1212861 + a5 * 1580508159 + a6 * 439102875 - a1 == 2130706433 * q1,
        a1 * 1879852731 + a2 * 983995729 + a3 * 1794102427 + a4 * 2104391040 + a5 * 1332301780 + a6 * 410223214 - a2 == 2130706433 * q2,
        a1 * 746569225 + a2 * 711096547 + a3 * 1173566779 + a4 * 1447859676 + a5 * 1528790701 + a6 * 964813232 - a3 == 2130706433 * q3,
        a1 * 180350946 + a2 * 1505254548 + a3 * 140526665 + a4 * 308944373 + a5 * 380217034 + a6 * 1250258104 - a4 == 2130706433 * q4,
        a1 * 1600835585 + a2 * 639452798 + a3 * 110899104 + a4 * 106444152 + a5 * 1752756730 + a6 * 877333757 - a5 == 2130706433 * q5,
        a1 * 333893434 + a2 * 68186395 + a3 * 1387282150 + a4 * 1362577042 + a5 * 989817517 + a6 * 222095778 - a6 == 2130706433 * q6,
    ensures
        a6 == 2130706433 * ((1299692682 * q0 + 119727411 * q1 + 1228335641 * q2 + 216728208 * q3 + 1510951433 * q4 + 897019249 * q5 + 0 * q6) - (2847085492 * a1 + 2153252749 * a2 + 2527618770 * a3 + 2457888955 * a4 + 2881064966 * a5 + 1638231523 * a6)),
{
}

/// The coefficients above the constant of a fixed point, by elimination.
proof fn lemma_fixed_coefs(a0: int, a1: int, a2: int, a3: int, a4: int, a5: int, a6: int)
    requires
        (a0 + a1 * 1272123317 + a2 * 129050189 + a3 * 1911662442 + a4 * 1366416596 + a5 * 1411781189 + a6 * 37669840) % 2130706433 == a0 % 2130706433,
        (a1 * 1950759909 + a2 * 1749509219 + a3 * 1095215454 + a4 * 1212861 + a5 * 1580508159 + a6 * 439102875) % 2130706433 == a1 % 2130706433,
        (a1 * 1879852731 + a2 * 983995729 + a3 * 1794102427 + a4 * 2104391040 + a5 * 1332301780 + a6 * 410223214) % 2130706433 == a2 % 2130706433,
        (a1 * 746569225 + a2 * 711096547 + a3 * 1173566779 + a4 * 1447859676 + a5 * 1528790701 + a6 * 964813232) % 2130706433 == a3 % 2130706433,
        (a1 * 180350946 + a2 * 1505254548 + a3 * 140526665 + a4 * 308944373 + a5 * 380217034 + a6 * 1250258104) % 2130706433 == a4 % 2130706433,
        (a1 * 1600835585 + a2 * 639452798 + a3 * 110899104 + a4 * 106444152 + a5 * 1752756730 + a6 * 877333757) % 2130706433 == a5 % 2130706433,
        (a1 * 333893434 + a2 * 68186395 + a3 * 1387282150 + a4 * 1362577042 + a5 * 989817517 + a6 * 222095778) % 2130706433 == a6 % 2130706433,
    ensures
        a1 % 2130706433 == 0,
        a2 % 2130706433 == 0,
        a3 % 2130706433 == 0,
        a4 % 2130706433 == 0,
        a5 % 2130706433 == 0,
        a6 % 2130706433 == 0,
{
    let q0 = lemma_quotient(a0 + a1 * 1272123317 + a2 * 129050189 + a3 * 1911662442 + a4 * 1366416596 + a5 * 1411781189 + a6 * 37669840, a0);
    let q1 = lemma_quotient(a1 * 1950759909 + a2 * 1749509219 + a3 * 1095215454 + a4 * 1212861 + a5 * 1580508159 + a6 * 439102875, a1);
    let q2 = lemma_quotient(a1 * 1879852731 + a2 * 983995729 + a3 * 1794102427 + a4 * 2104391040 + a5 * 1332301780 + a6 * 410223214, a2);
    let q3 = lemma_quotient(a1 * 746569225 + a2 * 711096547 + a3 * 1173566779 + a4 * 1447859676 + a5 * 1528790701 + a6 * 964813232, a3);
    let q4 = lemma_quotient(a1 * 180350946 + a2 * 1505254548 + a3 * 140526665 + a4 * 308944373 + a5 * 380217034 + a6 * 1250258104, a4);
    let q5 = lemma_quotient(a1 * 1600835585 + a2 * 639452798 + a3 * 110899104 + a4 * 106444152 + a5 * 1752756730 + a6 * 877333757, a5);
    let q6 = lemma_quotient(a1 * 333893434 + a2 * 68186395 + a3 * 1387282150 + a4 * 1362577042 + a5 * 989817517 + a6 * 222095778, a6);
    lemma_eliminate_1(a0, a1, a2, a3, a4, a5, a6, q0, q1, q2, q3, q4, q5, q6);
    lemma_eliminate_2(a0, a1, a2, a3, a4, a5, a6, q0, q1, q2, q3, q4, q5, q6);
    lemma_eliminate_3(a0, a1, a2, a3, a4, a5, a6, q0, q1, q2, q3, q4, q5, q6);
    lemma_eliminate_4(a0, a1, a2, a3, a4, a5, a6, q0, q1, q2, q3, q4, q5, q6);
    lemma_eliminate_5(a0, a1, a2, a3, a4, a5, a6, q0, q1, q2, q3, q4, q5, q6);
    lemma_eliminate_6(a0, a1, a2, a3, a4, a5, a6, q0, q1, q2, q3, q4, q5, q6);
}

/// The quotient of the difference of congruent integers.
proof fn lemma_quotient(x: int, y: int) -> (q: int)
    requires
        x % 2130706433 == y % 2130706433,
    ensures
        x - y == 2130706433 * q,
{
    x / 2130706433 - y / 2130706433
}

/// Powers of an idempotent.
proof fn lemma_idempotent(e: Fe, n: nat)
    requires
        e.canonical(),
        e.times(e) == e,
        n > 0,
    ensures
        e.power(n) == e,
    decreases n,
{
    powers::lemma_power_small(e);
    if n > 1 {
        lemma_idempotent(e, (n - 1) as nat);
    }
}

/// Every element but zero has an inverse: its power with exponent `p^7 - 2`.
pub proof fn lemma_invertible(a: Fe)
    requires
        a.canonical(),
        a != Fe::zero(),
    ensures
        a.times(a.power((prime_power(7) - 2) as nat)) == Fe::one(),
{
    broadcast use {element::group_canonical, powers::lemma_power_canonical};

    lemma_prime_powers();
    lemma_power_p7(a);
    let n = (prime_power(7) - 2) as nat;
    let b = a.power(n);
    let e = a.times(b);
    assert(e == a.power(n + 1));
    assert(a.times(e) == a) by {
        assert(a.power(n + 2) == a.times(a.power(n + 1)));
    }
    assert(e.times(e) == e) by {
        // a b a b = (a e) b = a b
        laws::lemma_mul_assoc(e, a, b);
        laws::lemma_mul_comm(e, a);
    }
    lemma_idempotent(e, element::prime() as nat);
    lemma_fixed(e);
    let c = e.c0;
    element::lemma_constants(a);
    powers::lemma_of_int(c, c);
    powers::lemma_of_int(c * c, c);
    assert(c * (c - 1) % element::prime() == 0) by {
        assert(c * (c - 1) == c * c - c) by (nonlinear_arith);
        vstd::arithmetic::div_mod::lemma_sub_mod_noop(c * c, c, element::prime());
    }
    number::lemma_euclid(c, c - 1);
    powers::lemma_of_int(c, 0);
    powers::lemma_of_int(c, 1);
    if c % element::prime() == 0 {
        laws::lemma_mul_zero(a);
    } else {
        vstd::arithmetic::div_mod::lemma_add_mod_noop(c - 1, 1, element::prime());
        assert(c % element::prime() == 1);
    }
}

/// A product is zero only when a factor is.
pub proof fn lemma_no_zero_divisors(a: Fe, b: Fe)
    requires
        a.canonical(),
        b.canonical(),
        a.times(b) == Fe::zero(),
    ensures
        a == Fe::zero() || b == Fe::zero(),
{
    broadcast use {element::group_canonical, powers::lemma_power_canonical};

    element::lemma_constants(a);
    if a != Fe::zero() {
        lemma_invertible(a);
        let c = a.power((prime_power(7) - 2) as nat);
        laws::lemma_mul_assoc(c, a, b);
        laws::lemma_mul_comm(c, a);
        laws::lemma_mul_one(b);
        laws::lemma_mul_comm(Fe::one(), b);
        laws::lemma_mul_zero(c);
    }
}

/// A power is zero only when the base is.
pub proof fn lemma_power_nonzero(a: Fe, n: nat)
    requires
        a.canonical(),
        a != Fe::zero(),
    ensures
        a.power(n) != Fe::zero(),
    decreases n,
{
    if n > 0 {
        lemma_power_nonzero(a, (n - 1) as nat);
        powers::lemma_power_canonical(a, (n - 1) as nat);
        if a.power(n) == Fe::zero() {
            lemma_no_zero_divisors(a, a.power((n - 1) as nat));
        }
    }
}

/// The exponent of the norm without the element itself.
pub open spec fn conorm_exponent() -> nat {
    let p = element::prime() as nat;
    (p + p * p) + (p + p * p) * prime_power(2) + (p + p * p) * prime_power(4)
}

/// The norm of an element lies in the base field and is zero only for zero.
pub proof fn lemma_norm(a: Fe)
    requires
        a.canonical(),
        a != Fe::zero(),
    ensures
        a.power(conorm_exponent()).times(a) == Fe::of_int(
            a.power(conorm_exponent()).times(a).c0,
        ),
        a.power(conorm_exponent()).times(a).c0 % element::prime() != 0,
{
    broadcast use {element::group_canonical, powers::lemma_power_canonical};

    let p = element::prime() as nat;
    let m = conorm_exponent();
    let norm = a.power(m).times(a);
    laws::lemma_mul_comm(a.power(m), a);
    assert(norm == a.power(m + 1));
    lemma_prime_powers();
    let q = prime_power(2);
    assert((m + 1) * p == m + q * q * q * p) by (nonlinear_arith)
        requires
            q == p * p,
            m == (p + p * p) + (p + p * p) * q + (p + p * p) * (q * q),
    ;
    powers::lemma_power_mul(a, m + 1, p);
    powers::lemma_power_add(a, m, prime_power(7));
    lemma_power_p7(a);
    lemma_fixed(norm);
    lemma_power_nonzero(a, m + 1);
    element::lemma_constants(a);
    powers::lemma_of_int(norm.c0, 0);
}

} // verus!
