//! Split: spend a vault by one-time signature, moving `amount` to a split
//! destination and the remainder (saturating at zero) to a refund destination,
//! then destroy the vault account. A terminal transition.
use vstd::prelude::*;

use crate::account::Account;
use crate::account::closed_vault;
use crate::account::credited;
use crate::account::AccountView;
use crate::account::UNOWNED;
use crate::crypto::commitment_of;
use crate::crypto::recover_commitment;
use crate::crypto::SIG_BYTES;
use crate::errors::VaultError;
use crate::pda::bind_address;
use crate::pda::bind_spec;
use crate::util::bytes32_equal;
use crate::util::push_bytes;
use crate::ID;

verus! {

/// The size in bytes of a split payload: the one-time signature, one amount
/// byte and one bump byte.
pub const SPLIT_VAULT_LEN: usize = 898;

/// The split instruction payload.
pub struct SplitVault {
    /// The one-time signature over the canonical split message.
    pub signature: Vec<u8>,
    /// The quantity to move to the split destination, in the smallest unit.
    pub amount: u8,
    /// The raw-derivation discriminant byte.
    pub bump: u8,
}

impl SplitVault {
    /// A well-formed payload carries a full-size signature.
    pub open spec fn wf(&self) -> bool {
        self.signature@.len() == SIG_BYTES
    }
}

/// Decode a split payload. Exactly the payloads of the fixed size are valid.
pub fn parse_split_vault(data: &[u8]) -> (r: Result<SplitVault, VaultError>)
    ensures
        data@.len() == SPLIT_VAULT_LEN ==> {
            &&& r is Ok
            &&& r->Ok_0.wf()
            &&& r->Ok_0.signature@ == data@.subrange(0, SIG_BYTES as int)
            &&& r->Ok_0.amount == data@[SIG_BYTES as int]
            &&& r->Ok_0.bump == data@[SIG_BYTES as int + 1]
        },
        data@.len() != SPLIT_VAULT_LEN ==> r == Err::<SplitVault, VaultError>(
            VaultError::InvalidInstructionData,
        ),
{
    if data.len() != SPLIT_VAULT_LEN {
        return Err(VaultError::InvalidInstructionData);
    }
    let signature = vstd::slice::slice_to_vec(vstd::slice::slice_subrange(data, 0, SIG_BYTES));
    let amount = *vstd::slice::slice_index_get(data, SIG_BYTES);
    let bump = *vstd::slice::slice_index_get(data, SIG_BYTES + 1);
    Ok(SplitVault { signature, amount, bump })
}

/// The canonical signed message of a split: the 8-byte little-endian amount,
/// then the split destination address, then the refund destination address.
/// Binding both destinations and the amount prevents replaying a signature
/// against different destinations or amounts.
pub open spec fn split_message_spec(amount: u8, split_key: Seq<u8>, refund_key: Seq<u8>) -> Seq<
    u8,
> {
    seq![amount, 0u8, 0u8, 0u8, 0u8, 0u8, 0u8, 0u8] + split_key + refund_key
}

/// Build the canonical split message.
pub fn split_message(amount: u8, split_key: &[u8; 32], refund_key: &[u8; 32]) -> (v: Vec<u8>)
    ensures
        v@ == split_message_spec(amount, split_key@, refund_key@),
{
    let mut v: Vec<u8> = Vec::new();
    v.push(amount);
    let mut i: usize = 0;
    while i < 7
        invariant
            i <= 7,
            v@ == seq![amount].add(Seq::new(i as nat, |j: int| 0u8)),
        decreases 7 - i,
    {
        v.push(0);
        assert(Seq::new((i + 1) as nat, |j: int| 0u8) =~= Seq::new(i as nat, |j: int| 0u8).push(
            0u8,
        ));
        i = i + 1;
    }
    assert(v@ =~= seq![amount, 0u8, 0u8, 0u8, 0u8, 0u8, 0u8, 0u8]);
    push_bytes(&mut v, split_key.as_slice());
    push_bytes(&mut v, refund_key.as_slice());
    v
}

/// What split returns, as a function of the accounts and the payload: the
/// payload must decode, and the raw domain-tagged derivation of the commitment
/// recovered from the signature over the canonical message must equal the
/// vault address.
pub open spec fn split_vault_outcome(
    vault: AccountView,
    split: AccountView,
    refund: AccountView,
    data: Seq<u8>,
) -> Result<(), VaultError> {
    if data.len() != SPLIT_VAULT_LEN {
        Err(VaultError::InvalidInstructionData)
    } else {
        let sig = data.subrange(0, SIG_BYTES as int);
        let amount = data[SIG_BYTES as int];
        let bump = data[SIG_BYTES as int + 1];
        let msg = split_message_spec(amount, split.key, refund.key);
        if bind_spec(commitment_of(sig, msg), bump, ID@) != vault.key {
            Err(VaultError::MissingRequiredSignature)
        } else {
            Ok(())
        }
    }
}

/// The balance the refund destination gains: the vault balance less the split
/// amount, saturating at zero — never a negative remainder.
pub open spec fn split_remainder(vault_lamports: u64, amount: u8) -> u64 {
    if amount as u64 <= vault_lamports {
        (vault_lamports - amount as u64) as u64
    } else {
        0u64
    }
}

/// Split the vault. The host guarantees that total balances fit the balance
/// unit, which bounds both credits.
pub fn split_vault(vault: &mut Account, split: &mut Account, refund: &mut Account, data: &[u8]) -> (r:
    Result<(), VaultError>)
    requires
        data@.len() == SPLIT_VAULT_LEN ==> old(split).lamports + data@[SIG_BYTES as int]
            <= u64::MAX,
        old(refund).lamports + old(vault).lamports <= u64::MAX,
    ensures
        r == split_vault_outcome(old(vault)@, old(split)@, old(refund)@, data@),
        r is Err ==> final(vault)@ == old(vault)@ && final(split)@ == old(split)@
            && final(refund)@ == old(refund)@,
        r is Ok ==> final(vault)@ == closed_vault(old(vault)@) && final(split)@ == credited(
            old(split)@,
            data@[SIG_BYTES as int] as u64,
        ) && final(refund)@ == credited(
            old(refund)@,
            split_remainder(old(vault)@.lamports, data@[SIG_BYTES as int]),
        ),
{
    let ix_data = match parse_split_vault(data) {
        Ok(ix_data) => ix_data,
        Err(e) => { return Err(e) },
    };
    let message = split_message(ix_data.amount, &split.key, &refund.key);
    let commitment = recover_commitment(ix_data.signature.as_slice(), message.as_slice());
    let bound = bind_address(&commitment, ix_data.bump, &ID);
    if !bytes32_equal(&bound, &vault.key) {
        return Err(VaultError::MissingRequiredSignature);
    }
    let amount = ix_data.amount as u64;
    split.lamports = split.lamports + amount;
    let remainder = if amount <= vault.lamports {
        vault.lamports - amount
    } else {
        0
    };
    refund.lamports = refund.lamports + remainder;
    vault.lamports = 0;
    vault.data = Vec::new();
    vault.owner = UNOWNED;
    Ok(())
}

} // verus!
