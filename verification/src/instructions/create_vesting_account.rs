use vstd::prelude::*;

use crate::pubkey::Pubkey;
use crate::state::vesting_account::VestingAccount;

verus! {

/// What the host runtime hands to treasury ledger creation: the signing
/// issuer, the token mint, the address of the freshly allocated custody
/// balance, and the address-derivation salts it computed for the two new
/// records. The runtime derives both addresses from `company_name` and
/// refuses creation when the ledger's address is already taken, so a
/// duplicate company name never reaches this code.
pub struct CreateVestingAccount {
    /// Signer paying for the new records; becomes the ledger's owner.
    pub fee_payer: Pubkey,
    /// The token mint whose balance the treasury will hold.
    pub mint_token: Pubkey,
    /// Address of the new, empty custody balance, allocated under the
    /// ledger's authority for `mint_token`.
    pub treasury_token_account: Pubkey,
    /// Address-derivation salt of the ledger record.
    pub vesting_account_bump: u8,
    /// Address-derivation salt of the custody balance.
    pub treasury_bump: u8,
}

/// Creates a company's treasury ledger: records the issuer as owner, the
/// token kind, the scoping name, and the salts that later authorize
/// transfers out of the custody balance.
pub fn handler(ctx: &CreateVestingAccount, company_name: String) -> (va: VestingAccount)
    ensures
        va.owner == ctx.fee_payer,
        va.mint_token == ctx.mint_token,
        va.company_name@ == company_name@,
        va.treasury_token_account == ctx.treasury_token_account,
        va.treasury_bump == ctx.treasury_bump,
        va.bump == ctx.vesting_account_bump,
{
    VestingAccount {
        owner: ctx.fee_payer,
        mint_token: ctx.mint_token,
        company_name,
        treasury_token_account: ctx.treasury_token_account,
        treasury_bump: ctx.treasury_bump,
        bump: ctx.vesting_account_bump,
    }
}

} // verus!
