use vstd::prelude::*;

use crate::events::{DonationEvent, TopTenRewardsEvent};
use crate::pubkey::Pubkey;

verus! {

/// A transfer of lamports that the system program carries out.
#[derive(Clone, Copy, Debug, PartialEq, Eq)]
pub struct LamportTransfer {
    pub from: Pubkey,
    pub to: Pubkey,
    pub lamports: u64,
}

/// A mint of charity tokens to the token account `to`, signed by the mint
/// authority whose seeds are `"faucet-mint"` and `bump`.
#[derive(Clone, Copy, Debug, PartialEq, Eq)]
pub struct TokenMint {
    pub to: Pubkey,
    pub amount: u64,
    pub bump: u8,
}

/// What an accepted donation asks of the runtime, in this order: the
/// transfer of the donation, the first mint (the gift to the referrer), the
/// rewards event if a reward period ended, the remaining mints (the period
/// rewards) and the donation event.
#[derive(Clone, Debug, PartialEq, Eq)]
pub struct DonationOutcome {
    pub transfer: LamportTransfer,
    pub mints: Vec<TokenMint>,
    pub rewards_event: Option<TopTenRewardsEvent>,
    pub donation_event: DonationEvent,
}

} // verus!
