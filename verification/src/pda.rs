//! The address binder: deterministic account addresses from seed values plus a
//! domain separator, compared by exact byte equality to a caller-supplied
//! address. Two derivation procedures coexist:
//!
//! - the canonical seeded derivation over `(domain seed, owner, bump)`, used
//!   by open (the host additionally rejects addresses that fall on the curve);
//! - the raw domain-tagged hash over `(commitment, bump)`, used by split and
//!   close on the signature-recovered commitment.
use vstd::prelude::*;

use crate::crypto::sha256;
use crate::crypto::sha256_of;
use crate::util::push_bytes;

verus! {

/// The fixed suffix mixed into every program-derived address, the ASCII bytes
/// of "ProgramDerivedAddress".
pub const PDA_MARKER: [u8; 21] = [
    80, 114, 111, 103, 114, 97, 109, 68, 101, 114, 105, 118, 101, 100, 65, 100, 100, 114, 101,
    115, 115,
];

/// The domain seed of every vault address, the ASCII bytes of "quantum_vault".
pub const VAULT_SEED: [u8; 13] = [113, 117, 97, 110, 116, 117, 109, 95, 118, 97, 117, 108, 116];

/// The preimage of the canonical seeded derivation: the concatenation of the
/// domain seed, the owner, the bump, the program id and the fixed suffix.
pub open spec fn vault_pda_preimage(owner: Seq<u8>, bump: u8, program_id: Seq<u8>) -> Seq<u8> {
    VAULT_SEED@ + owner + seq![bump] + program_id + PDA_MARKER@
}

/// The canonical seeded derivation of a vault address from its owner and bump.
pub open spec fn vault_pda_spec(owner: Seq<u8>, bump: u8, program_id: Seq<u8>) -> Seq<u8> {
    sha256_of(vault_pda_preimage(owner, bump, program_id))
}

/// The raw domain-tagged hash derivation of a vault address from a recovered
/// public-key commitment and a bump.
pub open spec fn bind_spec(commitment: Seq<u8>, bump: u8, program_id: Seq<u8>) -> Seq<u8> {
    sha256_of(commitment + seq![bump] + program_id + PDA_MARKER@)
}

/// Compute the canonical seeded derivation of a vault address.
pub fn derive_vault_address(owner: &[u8; 32], bump: u8, program_id: &[u8; 32]) -> (r: [u8; 32])
    ensures
        r@ == vault_pda_spec(owner@, bump, program_id@),
{
    let mut preimage: Vec<u8> = Vec::new();
    push_bytes(&mut preimage, VAULT_SEED.as_slice());
    push_bytes(&mut preimage, owner.as_slice());
    preimage.push(bump);
    push_bytes(&mut preimage, program_id.as_slice());
    push_bytes(&mut preimage, PDA_MARKER.as_slice());
    assert(preimage@ == vault_pda_preimage(owner@, bump, program_id@));
    sha256(preimage.as_slice())
}

/// Compute the raw domain-tagged hash derivation of a vault address.
pub fn bind_address(commitment: &[u8; 32], bump: u8, program_id: &[u8; 32]) -> (r: [u8; 32])
    ensures
        r@ == bind_spec(commitment@, bump, program_id@),
{
    let mut preimage: Vec<u8> = Vec::new();
    push_bytes(&mut preimage, commitment.as_slice());
    preimage.push(bump);
    push_bytes(&mut preimage, program_id.as_slice());
    push_bytes(&mut preimage, PDA_MARKER.as_slice());
    assert(preimage@ == commitment@ + seq![bump] + program_id@ + PDA_MARKER@);
    sha256(preimage.as_slice())
}

} // verus!
