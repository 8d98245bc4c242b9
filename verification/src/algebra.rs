//! Mathematics behind the septic curve.
pub mod chords;
pub mod curve;
pub mod element;
pub mod field;
pub mod frobenius;
pub mod group;
pub mod laws;
pub mod literal;
pub mod number;
pub mod order;
pub mod order_prime;
pub mod powers;
pub mod primality;
pub mod ring;
