use vstd::prelude::*;

use crate::pubkey::Pubkey;

verus! {

/// A company treasury ledger.
///
/// One ledger exists per distinct company name (the host runtime derives the
/// ledger's address from the name and refuses a duplicate), holds custody of
/// one token mint's balance, and is the sole authority over outbound
/// transfers from that balance. Its fields are set once at creation and
/// never reassigned.
#[derive(Clone, Debug)]
pub struct VestingAccount {
    /// Identity authorized to create vesting schedules against this ledger.
    pub owner: Pubkey,
    /// The fungible asset kind held in custody; immutable once set.
    pub mint_token: Pubkey,
    /// Human-chosen scoping key; part of the ledger's address derivation,
    /// so effectively immutable and unique per issuer-chosen name.
    pub company_name: String,
    /// Address of the custody balance holding this ledger's funds.
    pub treasury_token_account: Pubkey,
    /// Address-derivation salt of the custody balance; with the company
    /// name it lets the ledger authorize transfers out of that balance.
    pub treasury_bump: u8,
    /// Address-derivation salt of the ledger record itself.
    pub bump: u8,
}

} // verus!
