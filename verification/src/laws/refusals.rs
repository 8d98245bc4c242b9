//! The texts of refusals and errors.
use crate::guest::GuestError;
use crate::signer::SignError;
use vstd::prelude::*;

verus! {

/// The words of a refusal of the program.
pub proof fn lemma_refusal_text(e: &GuestError, r: &'static str)
    requires
        call_ensures(GuestError::message, (e,), r),
    ensures
        e is PathTooLong ==> r@ == "Merkle path too long"@,
        e is OldLeafMismatch ==> r@ == "old leaf does not match old root"@,
        e is InvalidHex ==> r@ == "invalid hex"@,
        e is WrongSignatureLength ==> r@ == "expected 65 bytes"@,
        e is InvalidSignature ==> r@ == "invalid secp256k1 signature"@,
        e is InvalidRecoveryId ==> r@ == "invalid recovery id"@,
        e is RecoveryFailed ==> r@ == "secp256k1 recovery failed"@,
        e is AddressMismatch ==> r@ == "EIP-191 signature does not match account address"@,
        e is OrderSignerMismatch ==> r@
            == "EIP-191 order signature does not match account address"@,
        e is BatchSignerMismatch ==> r@ == "EIP-191 order signature mismatch in batch"@,
        e is NewRootMismatch ==> r@ == "new root mismatch"@,
        e is KeyNotRegistered ==> r@ == "session key not registered — Merkle proof failed"@,
        e is SchnorrMismatch ==> r@ == "Schnorr signature verification failed"@,
        e is SepticMismatch ==> r@ == "Schnorr verify failed: s·G + e·A != R"@,
        e is BatchSepticMismatch ==> r@ == "Schnorr verify failed in batch"@,
        e is BatchSingleMismatch ==> r@ == "Schnorr verify failed in batch (single)"@,
        e is BatchVerifyMismatch ==> r@ == "Schnorr verify failed in batch (verify)"@,
        e is BatchMerkleMismatch ==> r@ == "Schnorr verify failed in batch (verify+merkle)"@,
        e is DedupMismatch ==> r@ == "Schnorr verify failed in dedup batch"@,
        e is EmptyBatch ==> r@ == "empty batch"@,
        e is BatchEquationMismatch ==> r@ == "Batch Schnorr verification failed"@,
        e is BatchEquationSingleMismatch ==> r@ == "Batch Schnorr verification failed (single)"@,
        e is KeyIndexOutOfRange ==> r@ == "key index out of range"@,
        e is EntryCountMismatch ==> r@ == "batch needs one entry for each key"@,
        e is LeafMismatch ==> r@ == "leaf does not match unique key"@,
{
}

/// The words of an error of the signer.
pub proof fn lemma_sign_error_text(e: &SignError, r: &'static str)
    requires
        call_ensures(SignError::message, (e,), r),
    ensures
        e is PrivateKeyLength ==> r@ == "priv_limbs must be length 8"@,
        e is PublicKeyLength ==> r@ == "pub_x/pub_y must be length 7"@,
        e is NoNonce ==> r@ == "no nonce"@,
{
}

} // verus!
