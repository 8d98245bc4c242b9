//! Session keys and orders of the KalqiX exchange: Schnorr signatures over the septic curve,
//! Ethereum signatures, the trees of session keys, and the program that checks them.
//!
//! [`septic`] holds the field, the curve, the scalars and the signatures, and [`algebra`] the
//! mathematics behind them.  [`guest`] is the program whose execution is proved.  [`state`] keeps
//! the session keys of the backend, and [`builders`] and [`dedup`] make inputs for profiling.
pub mod algebra;
pub mod builders;
pub mod bytes;
pub mod dedup;
pub mod digest;
pub mod eth;
pub mod guest;
pub mod laws;
pub mod merkle;
pub mod messages;
pub mod poseidon2_hasher;
pub mod profile;
pub mod report;
pub mod septic;
pub mod session;
pub mod signer;
pub mod state;
pub mod text;
pub mod tree_guest;
pub mod types;
pub mod wallet;
pub mod witness;
