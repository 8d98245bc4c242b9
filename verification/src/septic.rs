//! Septic extension field arithmetic, curve operations and Schnorr signatures.
//!
//! Field: KoalaBear, `p = 2^31 - 2^24 + 1`.
//! Extension: `Fp7 = Fp[z] / (z^7 - 3z - 5)`.
//! Curve: `y^2 = x^3 + 45x + 41 z^3` over `Fp7`, with a subgroup of order `r` (217 bits).
pub mod base;
pub mod batch;
pub mod fp7;
pub mod point;
pub mod scalar;
pub mod schnorr;
pub mod wide;

pub use base::{kb_add, kb_inv, kb_mul, kb_neg, kb_pow, kb_sub, P};
pub use fp7::Fp7;
pub use point::{SepticPoint, CURVE_B, GENERATOR_X, GENERATOR_Y};
pub use scalar::{
    scalar_add, scalar_reduce, scalar_sub, u256_add, u256_gte, u256_sub, GROUP_ORDER,
};
pub use wide::{reduce_512_mod_r, scalar_mul_mod_r, u256_full_mul};
pub use schnorr::{
    random_scalar, schnorr_compute, schnorr_sign, schnorr_verify, SepticBenchWitness,
    SepticSchnorrOrder, SepticSchnorrSignature,
};
