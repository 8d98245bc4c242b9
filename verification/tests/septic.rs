use kalqix_signature::septic::{
    kb_add, kb_inv, kb_mul, kb_neg, kb_pow, kb_sub, reduce_512_mod_r, scalar_add, scalar_mul_mod_r,
    scalar_reduce, scalar_sub, u256_add, u256_full_mul, u256_gte, u256_sub, Fp7, SepticPoint,
    CURVE_B, GROUP_ORDER,
};

#[test]
fn test_fp7_basics() {
    let a = Fp7::from_u32(7);
    let b = Fp7::from_u32(11);
    assert_eq!(a.add(&b), Fp7::from_u32(18));
    assert_eq!(a.mul(&Fp7::one()), a);
    assert_eq!(a.mul(&Fp7::zero()), Fp7::zero());
}

#[test]
fn test_fp7_inv() {
    let a = Fp7([3, 6, 17, 91, 37, 35, 33]);
    let a_inv = a.inv();
    assert_eq!(a.mul(&a_inv), Fp7::one());
}

#[test]
fn test_fp7_inv_many() {
    for i in 0..16u32 {
        let a = Fp7([
            i + 3, 2 * i + 6, 5 * i + 17, 6 * i + 91,
            8 * i + 37, 11 * i + 35, 14 * i + 33,
        ]);
        let a_inv = a.inv();
        assert_eq!(a.mul(&a_inv), Fp7::one(), "inv failed for i={}", i);
    }
}

#[test]
fn test_fp7_mul_associative() {
    let a = Fp7([1, 2, 3, 4, 5, 6, 7]);
    let b = Fp7([7, 6, 5, 4, 3, 2, 1]);
    let c = Fp7([11, 13, 17, 19, 23, 29, 31]);
    let ab_c = a.mul(&b).mul(&c);
    let a_bc = a.mul(&b.mul(&c));
    assert_eq!(ab_c, a_bc);
}

#[test]
fn septic_test_generator_on_curve() {
    let g = SepticPoint::generator();
    assert!(g.on_curve(), "generator not on curve");
}

#[test]
fn test_point_add_double() {
    let g = SepticPoint::generator();
    let g2_add = g.add(&g);
    let g2_dbl = g.double();
    assert_eq!(g2_add.x, g2_dbl.x);
    assert_eq!(g2_add.y, g2_dbl.y);
    assert!(g2_add.on_curve());
}

#[test]
fn test_point_add_negation_is_infinity() {
    let g = SepticPoint::generator();
    let neg_g = g.neg();
    let result = g.add(&neg_g);
    assert!(result.is_infinity);
}

#[test]
fn test_scalar_mul_identity() {
    let g = SepticPoint::generator();
    let one = [1, 0, 0, 0, 0, 0, 0, 0];
    let result = g.scalar_mul(&one);
    assert_eq!(result.x, g.x);
    assert_eq!(result.y, g.y);
    assert!(!result.is_infinity);
}

#[test]
fn test_scalar_mul_two() {
    let g = SepticPoint::generator();
    let two = [2, 0, 0, 0, 0, 0, 0, 0];
    let result = g.scalar_mul(&two);
    let doubled = g.double();
    assert_eq!(result.x, doubled.x);
    assert_eq!(result.y, doubled.y);
}

/// Critical test: r * G must equal point-at-infinity.
/// This validates the group order constant, generator, and all EC arithmetic.
#[test]
fn test_scalar_mul_group_order() {
    let g = SepticPoint::generator();
    let result = g.scalar_mul(&GROUP_ORDER);
    assert!(result.is_infinity, "r*G should be point at infinity, got {:?}", result);
}

#[test]
fn test_scalar_add_sub_roundtrip() {
    let a: [u32; 8] = [100, 200, 300, 400, 500, 600, 700, 0];
    let b: [u32; 8] = [50, 60, 70, 80, 90, 100, 110, 0];
    let sum = scalar_add(&a, &b);
    let back = scalar_sub(&sum, &b);
    assert_eq!(back, a);
}

#[test]
fn test_u256_full_mul_small() {
    // 7 × 11 = 77.
    let a = [7u32, 0, 0, 0, 0, 0, 0, 0];
    let b = [11u32, 0, 0, 0, 0, 0, 0, 0];
    let prod = u256_full_mul(&a, &b);
    assert_eq!(prod[0], 77);
    for i in 1..16 {
        assert_eq!(prod[i], 0, "limb {} should be zero", i);
    }
}

#[test]
fn test_u256_full_mul_max() {
    // (2^256 - 1) × (2^256 - 1) = 2^512 - 2^257 + 1.
    // In limbs: low limb = 1, limbs 1..8 = 0, limb 8 = 0xFFFFFFFE,
    // limbs 9..16 = 0xFFFFFFFF.
    let max = [0xFFFFFFFFu32; 8];
    let prod = u256_full_mul(&max, &max);
    assert_eq!(prod[0], 1);
    for i in 1..8 {
        assert_eq!(prod[i], 0, "limb {} should be zero", i);
    }
    assert_eq!(prod[8], 0xFFFFFFFE);
    for i in 9..16 {
        assert_eq!(prod[i], 0xFFFFFFFF, "limb {} should be all ones", i);
    }
}

#[test]
fn test_scalar_mul_mod_r_basic() {
    // 2 × 3 = 6, well below r.
    let a = [2u32, 0, 0, 0, 0, 0, 0, 0];
    let b = [3u32, 0, 0, 0, 0, 0, 0, 0];
    let result = scalar_mul_mod_r(&a, &b);
    assert_eq!(result, [6, 0, 0, 0, 0, 0, 0, 0]);
}

#[test]
fn test_scalar_mul_mod_r_one_is_identity() {
    let one = [1u32, 0, 0, 0, 0, 0, 0, 0];
    let x: [u32; 8] = [
        0x12345678, 0x9abcdef0, 0xfedcba98, 0x76543210,
        0x11223344, 0x55667788, 0x000aabbc, 0,
    ];
    // x has top limb zero and is < r (limb 6 < GROUP_ORDER[6]).
    assert!(!u256_gte(&x, &GROUP_ORDER));
    let result = scalar_mul_mod_r(&x, &one);
    assert_eq!(result, x);
}

#[test]
fn test_scalar_mul_mod_r_zero() {
    let zero = [0u32; 8];
    let x: [u32; 8] = [
        0xdeadbeef, 0xcafebabe, 0xfeedface, 0xbaddcafe,
        0x12345678, 0x9abcdef0, 0x000abcde, 0,
    ];
    assert_eq!(scalar_mul_mod_r(&x, &zero), [0u32; 8]);
    assert_eq!(scalar_mul_mod_r(&zero, &x), [0u32; 8]);
}

#[test]
fn test_scalar_mul_mod_r_overflow_r_times_two() {
    // r × 2 mod r = 0.
    let two = [2u32, 0, 0, 0, 0, 0, 0, 0];
    let result = scalar_mul_mod_r(&GROUP_ORDER, &two);
    assert_eq!(result, [0u32; 8]);
}

#[test]
fn test_scalar_mul_mod_r_r_minus_one_squared_is_one() {
    // (r-1)^2 mod r = (r^2 - 2r + 1) mod r = 1.
    let (r_minus_one, _) = u256_sub(&GROUP_ORDER, &[1, 0, 0, 0, 0, 0, 0, 0]);
    let result = scalar_mul_mod_r(&r_minus_one, &r_minus_one);
    assert_eq!(result, [1, 0, 0, 0, 0, 0, 0, 0]);
}

#[test]
fn test_scalar_mul_mod_r_commutative() {
    let a: [u32; 8] = [
        0x4e94d1f6, 0x8aeeafa2, 0xc62a61f0, 0x89b4547d,
        0xcc910bb5, 0x7579fd99, 0x01e4a5d3, 0,
    ];
    let b: [u32; 8] = [
        0x12345678, 0x9abcdef0, 0xfedcba98, 0x76543210,
        0x11223344, 0x55667788, 0x000abcde, 0,
    ];
    assert_eq!(scalar_mul_mod_r(&a, &b), scalar_mul_mod_r(&b, &a));
}

#[test]
fn test_scalar_mul_mod_r_reduces_to_below_r() {
    let a: [u32; 8] = [
        0xffffffff, 0xffffffff, 0xffffffff, 0xffffffff,
        0xffffffff, 0xffffffff, 0x01e4a5d3, 0,
    ];
    // Square of an almost-r-sized scalar definitely needs reduction.
    let result = scalar_mul_mod_r(&a, &a);
    assert!(!u256_gte(&result, &GROUP_ORDER), "result must be < r");
}

#[test]
fn base_field_values() {
    assert_eq!(kb_add(2130706432, 5), 4);
    assert_eq!(kb_sub(3, 5), 2130706431);
    assert_eq!(kb_mul(2130706432, 2130706432), 1);
    assert_eq!(kb_neg(0), 0);
    assert_eq!(kb_neg(1), 2130706432);
    assert_eq!(kb_pow(3, 100), 1083866665);
    assert_eq!(kb_pow(3, 0), 1);
    assert_eq!(kb_inv(7), 913159900);
}

#[test]
fn fp7_exact_values() {
    let a = Fp7([1, 2, 3, 4, 5, 6, 7]);
    let b = Fp7([7, 6, 5, 4, 3, 2, 1]);
    assert_eq!(a.mul(&b), Fp7([567, 781, 593, 430, 299, 207, 161]));
    assert_eq!(a.square(), a.mul(&a));
    assert_eq!(a.cube(), a.mul(&a).mul(&a));
    assert_eq!(a.scale(3), a.add(&a).add(&a));
    assert_eq!(a.sub(&a), Fp7::zero());
    assert!(a.add(&a.neg()).is_zero());
    assert_eq!(
        a.frobenius(),
        Fp7([576028768, 525265479, 1184127807, 1656540355, 970751529, 1446659089, 1551577514])
    );
    assert_eq!(
        a.double_frobenius(),
        Fp7([1623570494, 1497495263, 1676279479, 476077156, 1827484629, 1547479687, 2091180813])
    );
    assert_eq!(
        Fp7([3, 6, 17, 91, 37, 35, 33]).inv(),
        Fp7([760625295, 1255994273, 1889455518, 1133964942, 1848747363, 1035980984, 2124008918])
    );
    assert_eq!(a.div(&b).mul(&b), a);
    assert_eq!(
        a.to_bytes(),
        [
            1, 0, 0, 0, 2, 0, 0, 0, 3, 0, 0, 0, 4, 0, 0, 0, 5, 0, 0, 0, 6, 0, 0, 0, 7, 0, 0, 0
        ]
    );
}

#[test]
fn curve_exact_values() {
    assert_eq!(CURVE_B, [0, 0, 0, 41, 0, 0, 0]);
    assert_eq!(SepticPoint::curve_rhs(&Fp7::zero()), Fp7(CURVE_B));
    let g = SepticPoint::generator();
    let g2 = g.double();
    assert_eq!(
        g2.x,
        Fp7([508577272, 835663343, 1849012363, 1888954974, 772297057, 1053495690, 2114107195])
    );
    assert_eq!(
        g2.y,
        Fp7([528284394, 995519934, 1161498209, 1080311872, 1090788570, 1072942429, 1821730308])
    );
    let g5 = g.scalar_mul(&[5, 0, 0, 0, 0, 0, 0, 0]);
    assert_eq!(
        g5.x,
        Fp7([1802183323, 578369319, 705392214, 905316741, 1750073676, 1742753354, 654289264])
    );
    assert_eq!(
        g5.y,
        Fp7([2084298943, 733094976, 245856367, 2114401684, 1776653011, 910007018, 1131772051])
    );
    assert!(!SepticPoint::new(Fp7::one(), Fp7::one()).on_curve());
}

#[test]
fn infinity_is_neutral() {
    let g = SepticPoint::generator();
    let o = SepticPoint::infinity();
    assert!(o.on_curve());
    assert_eq!(g.add(&o), g);
    assert_eq!(o.add(&g), g);
    assert!(o.double().is_infinity);
    assert!(o.neg().is_infinity);
    assert!(g.scalar_mul(&[0; 8]).is_infinity);
    assert_eq!(SepticPoint::default(), o);
}

#[test]
fn addition_is_associative() {
    let g = SepticPoint::generator();
    let a = g.scalar_mul(&[17, 0, 0, 0, 0, 0, 0, 0]);
    let b = g.scalar_mul(&[29, 3, 0, 0, 0, 0, 0, 0]);
    let c = g.scalar_mul(&[0, 0, 1, 0, 0, 0, 0, 0]);
    assert_eq!(a.add(&b).add(&c), a.add(&b.add(&c)));
    assert_eq!(a.add(&b), b.add(&a));
    assert_eq!(a.add(&b).add(&b.neg()), a);
}

#[test]
fn multiples_depend_on_the_remainder() {
    let g = SepticPoint::generator();
    let (k, carry) = u256_add(&GROUP_ORDER, &[9, 0, 0, 0, 0, 0, 0, 0]);
    assert!(!carry);
    assert_eq!(g.scalar_mul(&k), g.scalar_mul(&[9, 0, 0, 0, 0, 0, 0, 0]));
}

#[test]
fn integer_carries_and_borrows() {
    let max = [0xffffffffu32; 8];
    let one = [1, 0, 0, 0, 0, 0, 0, 0];
    assert_eq!(u256_add(&max, &one), ([0; 8], true));
    assert_eq!(u256_sub(&[0; 8], &one), (max, true));
    assert!(u256_gte(&max, &max));
    assert!(!u256_gte(&one, &max));
    assert_eq!(scalar_reduce(&GROUP_ORDER), [0; 8]);
    assert_eq!(scalar_reduce(&one), one);
    let (top, _) = u256_sub(&GROUP_ORDER, &one);
    assert_eq!(scalar_add(&top, &one), [0; 8]);
    assert_eq!(scalar_sub(&[0; 8], &one), top);
}

#[test]
fn wide_product_of_the_largest_integers() {
    let max = [0xffffffffu32; 8];
    let expected = [
        0x69b06c71, 0x20088ac7, 0x616c5833, 0x502fac1f, 0xbd585158, 0x4698e1b0, 0x00093542, 0,
    ];
    assert_eq!(scalar_mul_mod_r(&max, &max), expected);
    assert_eq!(reduce_512_mod_r(&u256_full_mul(&max, &max)), expected);
}

#[test]
fn infinity_is_one_value() {
    let g = SepticPoint::generator();
    let o = SepticPoint::infinity();
    assert_eq!(g.add(&g.neg()), o);
    assert_eq!(g.scalar_mul(&[0; 8]), o);
    assert_eq!(g.scalar_mul(&GROUP_ORDER), o);
    assert_eq!(o.double(), o);
}

#[test]
fn norms_lie_in_the_base_field() {
    let a = Fp7([3, 6, 17, 91, 37, 35, 33]);
    let norm = a.mul(&a.pow_r_1());
    assert_eq!(norm.0[1..], [0; 6]);
    assert_ne!(norm.0[0], 0);
    assert_eq!(Fp7::zero().mul(&Fp7::zero().pow_r_1()), Fp7::zero());
}
