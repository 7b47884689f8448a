use vstd::prelude::*;

verus! {

/// The identity of an account on the external ledger: the authority, the
/// token asset, a buyer, or a custodial holding. The core only ever compares
/// identities and hands them back to the ledger, so it carries them as plain
/// 64-bit values; the caller that talks to the ledger keeps the mapping to
/// full ledger addresses.
#[derive(Clone, Copy, Debug, PartialEq, Eq, Hash, Structural)]
pub struct AccountId(pub u64);

/// The identity of the custodial token holding that the ledger derives for
/// a given token asset. The derivation is deterministic: the same asset
/// always yields the same holding.
pub uninterp spec fn vault_account_of(token_mint: u64) -> u64;

/// Relies on anchor_lang's `Pubkey::find_program_address`: the derived
/// program address is a deterministic function of the seed bytes and the
/// program id, so with the seed tag and program id fixed it is a function
/// of the token asset alone.
#[verifier::external_body]
pub(crate) fn derive_vault_account(token_mint: &AccountId) -> (r: AccountId)
    ensures
        r.0 == vault_account_of(token_mint.0),
{
    let mut mint_bytes = [0u8; 32];
    mint_bytes[..8].copy_from_slice(&token_mint.0.to_le_bytes());
    let (pda, _bump) = anchor_lang::prelude::Pubkey::find_program_address(
        &[&b"token-vault"[..], &mint_bytes[..]],
        &anchor_lang::prelude::Pubkey::new_from_array([0u8; 32]),
    );
    let mut head = [0u8; 8];
    head.copy_from_slice(&pda.to_bytes()[..8]);
    AccountId(u64::from_le_bytes(head))
}

} // verus!
