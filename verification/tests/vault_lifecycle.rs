use quantum_vault::account::Account;
use quantum_vault::account::UNOWNED;
use quantum_vault::crypto::recover_commitment;
use quantum_vault::crypto::SIG_BYTES;
use quantum_vault::errors::VaultError;
use quantum_vault::instructions::close_vault::close_vault;
use quantum_vault::instructions::open_vault::open_vault;
use quantum_vault::instructions::split_vault::split_message;
use quantum_vault::instructions::split_vault::split_vault;
use quantum_vault::pda::bind_address;
use quantum_vault::pda::derive_vault_address;
use quantum_vault::ID;

fn account(key: [u8; 32], lamports: u64, data: Vec<u8>, is_signer: bool) -> Account {
    Account {
        key,
        lamports,
        data,
        owner: [0u8; 32],
        is_signer,
    }
}

fn split_payload(signature: &[u8], amount: u8, bump: u8) -> Vec<u8> {
    let mut data = signature.to_vec();
    data.push(amount);
    data.push(bump);
    data
}

fn close_payload(signature: &[u8], bump: u8) -> Vec<u8> {
    let mut data = signature.to_vec();
    data.push(bump);
    data
}

#[test]
fn open_creates_the_vault() {
    let owner = [7u8; 32];
    let bump = 42u8;
    let vault_key = derive_vault_address(&owner, bump, &ID);
    let mut payer = account(owner, 100, Vec::new(), true);
    let mut vault = account(vault_key, 0, Vec::new(), false);
    assert_eq!(open_vault(&mut payer, &mut vault, &[0x99, bump], 60), Ok(()));
    assert_eq!(payer.lamports, 40);
    assert_eq!(vault.lamports, 60);
    assert_eq!(vault.data, owner.to_vec());
    assert_eq!(vault.owner, ID);
}

#[test]
fn open_demands_the_payer_signature() {
    let owner = [7u8; 32];
    let vault_key = derive_vault_address(&owner, 1, &ID);
    let mut payer = account(owner, 100, Vec::new(), false);
    let mut vault = account(vault_key, 0, Vec::new(), false);
    assert_eq!(
        open_vault(&mut payer, &mut vault, &[0, 1], 60),
        Err(VaultError::MissingRequiredSignature)
    );
    assert_eq!(payer.lamports, 100);
    assert_eq!(vault.lamports, 0);
}

#[test]
fn open_rejects_an_initialized_vault() {
    // The derivation is correct; the non-empty payload alone rejects the open.
    let owner = [7u8; 32];
    let bump = 5u8;
    let vault_key = derive_vault_address(&owner, bump, &ID);
    let mut payer = account(owner, 100, Vec::new(), true);
    let mut vault = account(vault_key, 60, vec![1u8; 32], false);
    assert_eq!(
        open_vault(&mut payer, &mut vault, &[0, bump], 60),
        Err(VaultError::AccountAlreadyInitialized)
    );
    assert_eq!(payer.lamports, 100);
    assert_eq!(vault.data, vec![1u8; 32]);
}

#[test]
fn open_rejects_a_perturbed_vault_address() {
    let owner = [7u8; 32];
    let bump = 5u8;
    let mut vault_key = derive_vault_address(&owner, bump, &ID);
    vault_key[17] ^= 0x80;
    let mut payer = account(owner, 100, Vec::new(), true);
    let mut vault = account(vault_key, 0, Vec::new(), false);
    assert_eq!(
        open_vault(&mut payer, &mut vault, &[0, bump], 60),
        Err(VaultError::PdaMismatch)
    );
    assert_eq!(payer.lamports, 100);
    assert_eq!(vault.lamports, 0);
    assert_eq!(vault.data.len(), 0);
}

#[test]
fn open_rejects_a_wrong_bump() {
    let owner = [7u8; 32];
    let vault_key = derive_vault_address(&owner, 5, &ID);
    let mut payer = account(owner, 100, Vec::new(), true);
    let mut vault = account(vault_key, 0, Vec::new(), false);
    assert_eq!(
        open_vault(&mut payer, &mut vault, &[0, 6], 60),
        Err(VaultError::PdaMismatch)
    );
}

#[test]
fn open_rejects_a_malformed_payload() {
    let owner = [7u8; 32];
    let vault_key = derive_vault_address(&owner, 5, &ID);
    let mut payer = account(owner, 100, Vec::new(), true);
    let mut vault = account(vault_key, 0, Vec::new(), false);
    assert_eq!(
        open_vault(&mut payer, &mut vault, &[5], 60),
        Err(VaultError::InvalidInstructionData)
    );
    assert_eq!(
        open_vault(&mut payer, &mut vault, &[0, 5, 0], 60),
        Err(VaultError::InvalidInstructionData)
    );
}

#[test]
fn split_moves_amount_and_remainder() {
    // amount = 50 of a 120 balance: 50 to the split destination, 70 to the
    // refund destination, vault destroyed.
    let signature = vec![7u8; SIG_BYTES];
    let bump = 9u8;
    let split_key = [3u8; 32];
    let refund_key = [4u8; 32];
    let message = split_message(50, &split_key, &refund_key);
    let commitment = recover_commitment(&signature, &message);
    let vault_key = bind_address(&commitment, bump, &ID);
    let mut vault = account(vault_key, 120, vec![7u8; 32], false);
    let mut split = account(split_key, 10, Vec::new(), false);
    let mut refund = account(refund_key, 5, Vec::new(), false);
    let data = split_payload(&signature, 50, bump);
    assert_eq!(split_vault(&mut vault, &mut split, &mut refund, &data), Ok(()));
    assert_eq!(split.lamports, 60);
    assert_eq!(refund.lamports, 75);
    assert_eq!(vault.lamports, 0);
    assert_eq!(vault.data.len(), 0);
    assert_eq!(vault.owner, UNOWNED);
}

#[test]
fn split_overdraw_saturates_the_remainder() {
    // amount = 200 of a 120 balance: 200 to the split destination (the amount
    // transfer is not checked against the balance) and 0 to the refund
    // destination — the remainder saturates at zero, never negative.
    let signature = vec![8u8; SIG_BYTES];
    let bump = 11u8;
    let split_key = [3u8; 32];
    let refund_key = [4u8; 32];
    let message = split_message(200, &split_key, &refund_key);
    let commitment = recover_commitment(&signature, &message);
    let vault_key = bind_address(&commitment, bump, &ID);
    let mut vault = account(vault_key, 120, vec![7u8; 32], false);
    let mut split = account(split_key, 0, Vec::new(), false);
    let mut refund = account(refund_key, 5, Vec::new(), false);
    let data = split_payload(&signature, 200, bump);
    assert_eq!(split_vault(&mut vault, &mut split, &mut refund, &data), Ok(()));
    assert_eq!(split.lamports, 200);
    assert_eq!(refund.lamports, 5);
    assert_eq!(vault.lamports, 0);
    assert_eq!(vault.data.len(), 0);
    assert_eq!(vault.owner, UNOWNED);
}

#[test]
fn split_rejects_a_signature_over_another_message() {
    // The signature is valid for amount 50; presenting amount 51, another
    // split destination or another refund destination recovers a different
    // commitment, so the bound address mismatches and nothing moves.
    let signature = vec![7u8; SIG_BYTES];
    let bump = 9u8;
    let split_key = [3u8; 32];
    let refund_key = [4u8; 32];
    let message = split_message(50, &split_key, &refund_key);
    let commitment = recover_commitment(&signature, &message);
    let vault_key = bind_address(&commitment, bump, &ID);

    let mut vault = account(vault_key, 120, vec![7u8; 32], false);
    let mut split = account(split_key, 10, Vec::new(), false);
    let mut refund = account(refund_key, 5, Vec::new(), false);
    let data = split_payload(&signature, 51, bump);
    assert_eq!(
        split_vault(&mut vault, &mut split, &mut refund, &data),
        Err(VaultError::MissingRequiredSignature)
    );
    assert_eq!(vault.lamports, 120);
    assert_eq!(split.lamports, 10);
    assert_eq!(refund.lamports, 5);
    assert_eq!(vault.data, vec![7u8; 32]);

    let mut other_split = account([99u8; 32], 10, Vec::new(), false);
    let data = split_payload(&signature, 50, bump);
    assert_eq!(
        split_vault(&mut vault, &mut other_split, &mut refund, &data),
        Err(VaultError::MissingRequiredSignature)
    );

    let mut other_refund = account([98u8; 32], 5, Vec::new(), false);
    assert_eq!(
        split_vault(&mut vault, &mut split, &mut other_refund, &data),
        Err(VaultError::MissingRequiredSignature)
    );
}

#[test]
fn split_rejects_a_malformed_payload() {
    let mut vault = account([1u8; 32], 120, Vec::new(), false);
    let mut split = account([2u8; 32], 0, Vec::new(), false);
    let mut refund = account([3u8; 32], 0, Vec::new(), false);
    let data = vec![7u8; SIG_BYTES + 1];
    assert_eq!(
        split_vault(&mut vault, &mut split, &mut refund, &data),
        Err(VaultError::InvalidInstructionData)
    );
    assert_eq!(vault.lamports, 120);
}

#[test]
fn close_refunds_the_whole_balance() {
    let signature = vec![6u8; SIG_BYTES];
    let bump = 13u8;
    let refund_key = [4u8; 32];
    let commitment = recover_commitment(&signature, &refund_key);
    let vault_key = bind_address(&commitment, bump, &ID);
    let mut vault = account(vault_key, 120, vec![7u8; 32], false);
    let mut refund = account(refund_key, 5, Vec::new(), false);
    let data = close_payload(&signature, bump);
    assert_eq!(close_vault(&mut vault, &mut refund, &data), Ok(()));
    assert_eq!(refund.lamports, 125);
    assert_eq!(vault.lamports, 0);
    assert_eq!(vault.data.len(), 0);
    assert_eq!(vault.owner, UNOWNED);
}

#[test]
fn close_rejects_a_foreign_signature() {
    let signature = vec![6u8; SIG_BYTES];
    let bump = 13u8;
    let refund_key = [4u8; 32];
    let commitment = recover_commitment(&signature, &refund_key);
    let vault_key = bind_address(&commitment, bump, &ID);
    let mut vault = account(vault_key, 120, vec![7u8; 32], false);
    let mut refund = account(refund_key, 5, Vec::new(), false);
    let mut wrong = signature.clone();
    wrong[0] ^= 0x01;
    let data = close_payload(&wrong, bump);
    assert_eq!(
        close_vault(&mut vault, &mut refund, &data),
        Err(VaultError::MissingRequiredSignature)
    );
    assert_eq!(vault.lamports, 120);
    assert_eq!(refund.lamports, 5);
}

#[test]
fn close_rejects_a_malformed_payload() {
    let mut vault = account([1u8; 32], 120, Vec::new(), false);
    let mut refund = account([3u8; 32], 0, Vec::new(), false);
    let data = vec![6u8; SIG_BYTES];
    assert_eq!(
        close_vault(&mut vault, &mut refund, &data),
        Err(VaultError::InvalidInstructionData)
    );
}

#[test]
fn close_spends_a_vault_signed_by_a_real_keypair() {
    // A keypair whose commitment is bound into the vault address authorizes
    // the close: the signature over the refund address recovers to that
    // commitment, the vault is drained and destroyed.
    let privkey = solana_winternitz::privkey::WinternitzPrivkey::generate();
    let commitment: [u8; 32] = privkey.pubkey().merklize();
    let bump = 1u8;
    let vault_key = bind_address(&commitment, bump, &ID);
    let refund_key = [4u8; 32];
    let signature: [u8; 896] = privkey.sign(&refund_key).into();
    let mut vault = account(vault_key, 777, vec![7u8; 32], false);
    let mut refund = account(refund_key, 0, Vec::new(), false);
    let data = close_payload(&signature, bump);
    assert_eq!(close_vault(&mut vault, &mut refund, &data), Ok(()));
    assert_eq!(refund.lamports, 777);
    assert_eq!(vault.lamports, 0);
    assert_eq!(vault.data.len(), 0);
    assert_eq!(vault.owner, UNOWNED);
}
