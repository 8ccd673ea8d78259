//! The hash primitives the vault rests on: SHA-256 for address derivation and
//! the Winternitz one-time-signature recovery and aggregation procedure.
//!
//! Recovery is unconditional: it does not verify a signature, it computes what
//! the public key must have been if the signature is valid for the message.
//! Aggregation collapses the recovered chain tips into one 32-byte commitment.
use vstd::prelude::*;

verus! {

/// The size in bytes of a one-time signature and of a recovered public key:
/// 32 hash chains of 28 bytes each.
pub const SIG_BYTES: usize = 896;

/// The SHA-256 digest (32 bytes) of a byte string.
pub uninterp spec fn sha256_of(data: Seq<u8>) -> Seq<u8>;

/// Relies on solana_nostd_sha256::hashv: the SHA-256 digest of the input
/// bytes, a function of those bytes alone.
#[verifier::external_body]
pub(crate) fn sha256(data: &[u8]) -> (r: [u8; 32])
    ensures
        r@ == sha256_of(data@),
{
    solana_nostd_sha256::hashv(&[data])
}

/// The 32 chain-tip values (28 bytes each, 896 bytes in all) that a one-time
/// signature reveals for a message: the public key the signature commits to.
pub uninterp spec fn recovered_pubkey_of(sig: Seq<u8>, msg: Seq<u8>) -> Seq<u8>;

/// Relies on solana_winternitz::signature::WinternitzSignature::recover_pubkey:
/// walks each of the 32 hash chains forward by the corresponding byte of the
/// Keccak digest of the message; the result is a function of the signature
/// bytes and the message alone, and recovery never fails.
#[verifier::external_body]
pub(crate) fn recover_pubkey(sig: &[u8], message: &[u8]) -> (r: Vec<u8>)
    requires
        sig@.len() == SIG_BYTES,
    ensures
        r@ == recovered_pubkey_of(sig@, message@),
        r@.len() == SIG_BYTES,
{
    let bytes: [u8; 896] = sig.try_into().unwrap();
    let signature = solana_winternitz::signature::WinternitzSignature::from(bytes);
    let pubkey: [u8; 896] = signature.recover_pubkey(message).into();
    pubkey.to_vec()
}

/// The Merkle-tree-style reduction (32 bytes) of a recovered public key.
pub uninterp spec fn merklize_of(pubkey: Seq<u8>) -> Seq<u8>;

/// Relies on solana_winternitz::pubkey::WinternitzPubkey::merklize: the Keccak
/// Merkle root of the 32 chain-tip values, a function of those bytes alone.
#[verifier::external_body]
pub(crate) fn merklize(pubkey: &[u8]) -> (r: [u8; 32])
    requires
        pubkey@.len() == SIG_BYTES,
    ensures
        r@ == merklize_of(pubkey@),
{
    let bytes: [u8; 896] = pubkey.try_into().unwrap();
    solana_winternitz::pubkey::WinternitzPubkey::from(bytes).merklize()
}

/// The commitment a one-time signature recovers to for a message: the Merkle
/// reduction of the recovered public key.
pub open spec fn commitment_of(sig: Seq<u8>, msg: Seq<u8>) -> Seq<u8> {
    merklize_of(recovered_pubkey_of(sig, msg))
}

/// Recover the public-key commitment of a one-time signature over a message.
pub fn recover_commitment(sig: &[u8], message: &[u8]) -> (r: [u8; 32])
    requires
        sig@.len() == SIG_BYTES,
    ensures
        r@ == commitment_of(sig@, message@),
{
    let pubkey = recover_pubkey(sig, message);
    merklize(pubkey.as_slice())
}

} // verus!
