# kalqix_signature

Session-key registration and order signing for the KalqiX exchange, verified with Verus.

- `src/septic/`: the KoalaBear field, its extension of degree seven, the septic curve, 256-bit
  scalars, Schnorr signatures, and batches checked one by one or by one combined equation.
- `src/algebra/`: the mathematics that the contracts speak of: the extension is a field, the curve
  is a group, the group order is prime and annihilates the generator.
- `src/guest.rs`: the program whose execution is proved. Each handler either commits to an output
  or says why its witness is refused.
- `src/merkle.rs`, `src/poseidon2_hasher.rs`, `src/messages.rs`, `src/eth.rs`, `src/wallet.rs`:
  the binary tree of session keys, its hash, the signed texts, and Ethereum signatures.
- `src/state.rs`, `src/witness.rs`, `src/tree_guest.rs`: the session keys of the backend in a
  Jellyfish Merkle tree, the witnesses that carry its proofs, and the checks of these witnesses.
- `src/session.rs`, `src/builders.rs`, `src/dedup.rs`, `src/profile.rs`, `src/report.rs`: inputs
  with real signatures for the profiler, and the figures of its report.
- `src/signer.rs`: the signer of the frontend.
- `app/`: the HTTP server, the profiler's command line, the entry point of the guest, and the
  exports for the browser.

Calls into other crates stand behind small trusted functions, each with a comment that says what
is taken from the crate: digests, the Poseidon2 permutation, secp256k1, hexadecimal text, leaf
encoding, the Jellyfish tree and random numbers.
