//! The library's stated laws: what holds of the address binder and of the
//! vault lifecycle across operations, proved from the operations' own
//! contracts.
use vstd::prelude::*;

use crate::account::closed_vault;
use crate::account::AccountView;
use crate::crypto::commitment_of;
use crate::crypto::SIG_BYTES;
use crate::errors::VaultError;
use crate::instructions::close_vault::close_vault_outcome;
use crate::instructions::close_vault::CLOSE_VAULT_LEN;
use crate::instructions::open_vault::opened_vault;
use crate::instructions::open_vault::open_vault_outcome;
use crate::instructions::open_vault::OPEN_VAULT_LEN;
use crate::instructions::split_vault::split_message_spec;
use crate::instructions::split_vault::split_remainder;
use crate::instructions::split_vault::split_vault_outcome;
use crate::instructions::split_vault::SPLIT_VAULT_LEN;
use crate::pda::bind_spec;
use crate::pda::vault_pda_preimage;
use crate::pda::vault_pda_spec;
use crate::ID;

verus! {

/// The canonical seeded derivation is deterministic: it is a function of the
/// owner, the bump and the program id alone.
pub proof fn lemma_derive_deterministic(
    owner1: Seq<u8>,
    bump1: u8,
    id1: Seq<u8>,
    owner2: Seq<u8>,
    bump2: u8,
    id2: Seq<u8>,
)
    requires
        owner1 == owner2,
        bump1 == bump2,
        id1 == id2,
    ensures
        vault_pda_spec(owner1, bump1, id1) == vault_pda_spec(owner2, bump2, id2),
{
}

/// Distinct `(owner, bump)` pairs give distinct derivation preimages: a
/// collision of two canonical vault addresses under one program id would be a
/// collision of the underlying hash itself.
pub proof fn lemma_derive_preimage_injective(
    owner1: Seq<u8>,
    bump1: u8,
    owner2: Seq<u8>,
    bump2: u8,
    id: Seq<u8>,
)
    requires
        owner1.len() == 32,
        owner2.len() == 32,
        vault_pda_preimage(owner1, bump1, id) == vault_pda_preimage(owner2, bump2, id),
    ensures
        owner1 == owner2,
        bump1 == bump2,
{
    let p1 = vault_pda_preimage(owner1, bump1, id);
    let p2 = vault_pda_preimage(owner2, bump2, id);
    assert forall|i: int| 0 <= i < 32 implies owner1[i] == owner2[i] by {
        assert(p1[13 + i] == owner1[i]);
        assert(p2[13 + i] == owner2[i]);
    }
    assert(owner1 =~= owner2);
    assert(p1[45] == bump1);
    assert(p2[45] == bump2);
}

/// Open fails with `AccountAlreadyInitialized` whenever the vault account's
/// payload is non-empty, whatever the payload and the derivation say. (A payer
/// that does not sign is rejected first, with `MissingRequiredSignature`.)
pub proof fn lemma_open_fails_when_initialized(
    payer: AccountView,
    vault: AccountView,
    data: Seq<u8>,
)
    requires
        payer.is_signer,
        vault.data.len() != 0,
    ensures
        open_vault_outcome(payer, vault, data) == Err::<(), VaultError>(
            VaultError::AccountAlreadyInitialized,
        ),
{
}

/// Open fails with `PdaMismatch` whenever the supplied vault address does not
/// equal the canonical derivation from the payer's identity and the bump.
pub proof fn lemma_open_fails_on_pda_mismatch(
    payer: AccountView,
    vault: AccountView,
    data: Seq<u8>,
)
    requires
        payer.is_signer,
        vault.data.len() == 0,
        data.len() == OPEN_VAULT_LEN,
        vault_pda_spec(payer.key, data[1], ID@) != vault.key,
    ensures
        open_vault_outcome(payer, vault, data) == Err::<(), VaultError>(VaultError::PdaMismatch),
{
}

/// Split proceeds exactly when the address bound to the commitment recovered
/// from the signature over the canonical message equals the vault address;
/// otherwise it fails with `MissingRequiredSignature`.
pub proof fn lemma_split_gated_by_bound_address(
    vault: AccountView,
    split: AccountView,
    refund: AccountView,
    data: Seq<u8>,
)
    requires
        data.len() == SPLIT_VAULT_LEN,
    ensures
        ({
            let sig = data.subrange(0, SIG_BYTES as int);
            let msg = split_message_spec(data[SIG_BYTES as int], split.key, refund.key);
            let bound = bind_spec(commitment_of(sig, msg), data[SIG_BYTES as int + 1], ID@);
            &&& bound == vault.key <==> split_vault_outcome(vault, split, refund, data) is Ok
            &&& bound != vault.key <==> split_vault_outcome(vault, split, refund, data) == Err::<
                (),
                VaultError,
            >(VaultError::MissingRequiredSignature)
        }),
{
}

/// Close proceeds exactly when the address bound to the commitment recovered
/// from the signature over the refund destination address equals the vault
/// address; otherwise it fails with `MissingRequiredSignature`.
pub proof fn lemma_close_gated_by_bound_address(
    vault: AccountView,
    refund: AccountView,
    data: Seq<u8>,
)
    requires
        data.len() == CLOSE_VAULT_LEN,
    ensures
        ({
            let sig = data.subrange(0, SIG_BYTES as int);
            let bound = bind_spec(commitment_of(sig, refund.key), data[SIG_BYTES as int], ID@);
            &&& bound == vault.key <==> close_vault_outcome(vault, refund, data) is Ok
            &&& bound != vault.key <==> close_vault_outcome(vault, refund, data) == Err::<
                (),
                VaultError,
            >(VaultError::MissingRequiredSignature)
        }),
{
}

/// A split whose amount exceeds the vault's balance moves nothing — never a
/// negative remainder — to the refund destination; otherwise the refund
/// destination gains exactly the balance less the amount.
pub proof fn lemma_split_remainder_saturates(vault_lamports: u64, amount: u8)
    ensures
        amount as u64 > vault_lamports ==> split_remainder(vault_lamports, amount) == 0,
        amount as u64 <= vault_lamports ==> split_remainder(vault_lamports, amount)
            == vault_lamports - amount as u64,
{
}

/// Open followed immediately by close: when open succeeds and the close
/// signature recovers to a commitment whose bound address equals the vault
/// address created at open time, the close succeeds and leaves the vault with
/// a zero balance, an empty payload, and no owner. The two derivations agree
/// only by that hypothesis: nothing in the design forces the owner-derived
/// address of open to equal the commitment-derived address of close.
pub proof fn lemma_open_close_round_trip(
    payer: AccountView,
    vault: AccountView,
    open_data: Seq<u8>,
    rent_minimum: u64,
    refund: AccountView,
    close_data: Seq<u8>,
)
    requires
        open_vault_outcome(payer, vault, open_data) is Ok,
        close_data.len() == CLOSE_VAULT_LEN,
        bind_spec(
            commitment_of(close_data.subrange(0, SIG_BYTES as int), refund.key),
            close_data[SIG_BYTES as int],
            ID@,
        ) == vault.key,
    ensures
        ({
            let opened = opened_vault(payer, vault, rent_minimum);
            &&& close_vault_outcome(opened, refund, close_data) is Ok
            &&& closed_vault(opened).lamports == 0
            &&& closed_vault(opened).data.len() == 0
            &&& closed_vault(opened).owner == crate::account::UNOWNED@
        }),
{
    let opened = opened_vault(payer, vault, rent_minimum);
    assert(opened.key == vault.key);
}

} // verus!
