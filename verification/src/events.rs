use vstd::prelude::*;

use crate::pubkey::Pubkey;

verus! {

/// Emitted for every accepted donation.
#[derive(Clone, Debug, PartialEq, Eq)]
pub struct DonationEvent {
    pub donation_bank: Pubkey,
    pub donator: Pubkey,
    pub referrer: Pubkey,
    pub amount: u64,
}

/// Emitted when a reward period ends: the platform leader board that is
/// rewarded, addresses and values in board order.
#[derive(Clone, Debug, PartialEq, Eq)]
pub struct TopTenRewardsEvent {
    pub top_addresses: Vec<Pubkey>,
    pub top_values: Vec<u64>,
}

/// Emitted when a campaign is closed and its share paid out.
#[derive(Clone, Debug, PartialEq, Eq)]
pub struct CloseCampaignEvent {
    pub donation_bank: Pubkey,
    pub destination: Pubkey,
    pub amount: u64,
}

} // verus!
