use vstd::prelude::*;

use crate::pubkey::Pubkey;
use crate::state::{BaseAccount, CampAccount, DonationData, TopSto};

verus! {

/// The accounts that `initialize` writes.
#[derive(Clone, Debug, PartialEq, Eq)]
pub struct Initialize {
    pub base_account: BaseAccount,
}

/// The accounts that `new_campaign` writes.
#[derive(Clone, Debug, PartialEq, Eq)]
pub struct NewCampaign {
    pub camp_account: CampAccount,
}

/// The accounts that `do_donation` reads and writes: account data, the
/// addresses it names and the lamport balances it moves directly.
#[derive(Clone, Debug, PartialEq, Eq)]
pub struct DoDonation {
    /// Lamports of the account that collects the platform's commission.
    pub commission_bank_lamports: u64,
    /// The account that receives the donations.
    pub donation_bank: Pubkey,
    pub donation_data: DonationData,
    pub donator: Pubkey,
    /// Lamports of the donator.
    pub donator_lamports: u64,
    pub base_account: BaseAccount,
    pub camp_account: CampAccount,
    /// The address of the campaign account.
    pub camp_account_key: Pubkey,
    pub top_sto: TopSto,
    /// The token account that receives the period rewards.
    pub destination: Pubkey,
    /// The token account of the referrer, which receives the gift.
    pub receiver: Pubkey,
}

/// The accounts that `chrt_token_donation` reads and writes.
#[derive(Clone, Debug, PartialEq, Eq)]
pub struct ChrtTokenDonation {
    pub base_account: BaseAccount,
    pub camp_account: CampAccount,
    /// The token account that receives the donated tokens.
    pub destination: Pubkey,
}

/// The accounts that `close_campaign` reads and writes.
#[derive(Clone, Debug, PartialEq, Eq)]
pub struct CloseCampaign {
    pub base_account: BaseAccount,
    pub camp_account: CampAccount,
    pub donation_bank: Pubkey,
    pub donation_bank_lamports: u64,
    pub destination: Pubkey,
    pub destination_lamports: u64,
}

/// The accounts that `commission_withdrawal` reads and writes.
#[derive(Clone, Debug, PartialEq, Eq)]
pub struct CommissionWithdrawal {
    pub base_account: BaseAccount,
    pub commission_bank_lamports: u64,
    pub destination_lamports: u64,
}

/// Moves `amount_of_lamports` from one balance to another.
pub fn transfer_service_fee_lamports(
    from_account: &mut u64,
    to_account: &mut u64,
    amount_of_lamports: u64,
)
    requires
        amount_of_lamports <= *old(from_account),
        *old(to_account) + amount_of_lamports <= u64::MAX,
    ensures
        *final(from_account) == *old(from_account) - amount_of_lamports,
        *final(to_account) == *old(to_account) + amount_of_lamports,
        *final(from_account) + *final(to_account) == *old(from_account) + *old(to_account),
{
    *from_account = *from_account - amount_of_lamports;
    *to_account = *to_account + amount_of_lamports;
}

} // verus!
