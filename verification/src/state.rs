use vstd::prelude::*;

use crate::pubkey::Pubkey;
use crate::top::board_wf;

verus! {

/// Capacity of the platform's and of each campaign's leader board.
pub const TOP_TEN: usize = 10;

/// Capacity of the platform-wide board of the largest donations.
pub const TOP_HUNDRED: usize = 100;

/// The platform: its settings, its reward period and its leader board.
#[derive(Clone, Debug, PartialEq, Eq)]
pub struct BaseAccount {
    pub platform_owner: Pubkey,
    pub period_n: i64,
    pub end_of_period: i64,
    pub commission: u64,
    pub encrg_chrt: u64,
    pub lim_chrt_comm_exempt: u64,
    pub lim_chrt_camp_close: u64,
    /// Account size which is set by the platform initializer.
    pub account_size: u32,
    pub topten_plat_adrs: Vec<Pubkey>,
    pub topten_plat_vlus: Vec<u64>,
    pub total_donations: u64,
    pub plat_portion: u64,
    pub finished_camp_numbers: u32,
}

/// A campaign: its owner, its state, its leader board and its counters.
#[derive(Clone, Debug, PartialEq, Eq)]
pub struct CampAccount {
    pub campaign_owner: Pubkey,
    /// Whether donations to this campaign are free of commission.
    pub commission_exempt: bool,
    pub is_active: bool,
    /// Addresses of the top ten donators of the campaign.
    pub topten_camp_adrs: Vec<Pubkey>,
    /// Values of the top ten donations of the campaign.
    pub topten_camp_vlus: Vec<u64>,
    pub don_number: i32,
    pub com_number: i32,
    pub chrt_token_recieved: u64,
    pub camp_portion: u64,
}

/// The donations of one donator: campaign, donator and referrer of each, and
/// their (saturating) total.
#[derive(Clone, Debug, PartialEq, Eq)]
pub struct DonationData {
    pub donation_camp: Vec<Pubkey>,
    pub referrer: Vec<Pubkey>,
    pub donator: Vec<Pubkey>,
    pub amount: u64,
}

/// The platform-wide board of the hundred largest donations.
#[derive(Clone, Debug, PartialEq, Eq)]
pub struct TopSto {
    pub top_100_addresses: Vec<Pubkey>,
    pub top_100_values: Vec<u64>,
}

impl BaseAccount {
    /// The platform leader board is a board of ten.
    pub open spec fn wf(&self) -> bool {
        board_wf(self.topten_plat_vlus@, self.topten_plat_adrs@, TOP_TEN as nat)
    }
}

impl CampAccount {
    /// The campaign leader board is a board of ten, and the commissioned
    /// donations are among the counted donations.
    pub open spec fn wf(&self) -> bool {
        &&& board_wf(self.topten_camp_vlus@, self.topten_camp_adrs@, TOP_TEN as nat)
        &&& 0 <= self.com_number <= self.don_number
    }
}

impl DonationData {
    /// Every recorded donation has a campaign, a donator and a referrer.
    pub open spec fn wf(&self) -> bool {
        &&& self.donation_camp@.len() == self.donator@.len()
        &&& self.referrer@.len() == self.donator@.len()
    }
}

impl TopSto {
    /// The platform-wide board is a board of a hundred.
    pub open spec fn wf(&self) -> bool {
        board_wf(self.top_100_values@, self.top_100_addresses@, TOP_HUNDRED as nat)
    }
}

/// All bytes of the address are zero.
pub open spec fn is_zero_key(key: Pubkey) -> bool {
    forall|i: int| 0 <= i < 32 ==> #[trigger] key.0@[i] == 0
}

impl Default for BaseAccount {
    /// A newly created platform account: all fields zero, boards empty.
    fn default() -> (acc: Self)
        ensures
            is_zero_key(acc.platform_owner),
            acc.period_n == 0,
            acc.end_of_period == 0,
            acc.commission == 0,
            acc.encrg_chrt == 0,
            acc.lim_chrt_comm_exempt == 0,
            acc.lim_chrt_camp_close == 0,
            acc.account_size == 0,
            acc.topten_plat_adrs@ == Seq::<Pubkey>::empty(),
            acc.topten_plat_vlus@ == Seq::<u64>::empty(),
            acc.total_donations == 0,
            acc.plat_portion == 0,
            acc.finished_camp_numbers == 0,
            acc.wf(),
    {
        BaseAccount {
            platform_owner: Pubkey([0u8; 32]),
            period_n: 0,
            end_of_period: 0,
            commission: 0,
            encrg_chrt: 0,
            lim_chrt_comm_exempt: 0,
            lim_chrt_camp_close: 0,
            account_size: 0,
            topten_plat_adrs: Vec::new(),
            topten_plat_vlus: Vec::new(),
            total_donations: 0,
            plat_portion: 0,
            finished_camp_numbers: 0,
        }
    }
}

impl Default for CampAccount {
    /// A newly created campaign account: all fields zero or false, board empty.
    fn default() -> (acc: Self)
        ensures
            is_zero_key(acc.campaign_owner),
            !acc.commission_exempt,
            !acc.is_active,
            acc.topten_camp_adrs@ == Seq::<Pubkey>::empty(),
            acc.topten_camp_vlus@ == Seq::<u64>::empty(),
            acc.don_number == 0,
            acc.com_number == 0,
            acc.chrt_token_recieved == 0,
            acc.camp_portion == 0,
            acc.wf(),
    {
        CampAccount {
            campaign_owner: Pubkey([0u8; 32]),
            commission_exempt: false,
            is_active: false,
            topten_camp_adrs: Vec::new(),
            topten_camp_vlus: Vec::new(),
            don_number: 0,
            com_number: 0,
            chrt_token_recieved: 0,
            camp_portion: 0,
        }
    }
}

impl Default for DonationData {
    /// A newly created donation record: no donations, total zero.
    fn default() -> (data: Self)
        ensures
            data.donation_camp@ == Seq::<Pubkey>::empty(),
            data.referrer@ == Seq::<Pubkey>::empty(),
            data.donator@ == Seq::<Pubkey>::empty(),
            data.amount == 0,
            data.wf(),
    {
        DonationData { donation_camp: Vec::new(), referrer: Vec::new(), donator: Vec::new(), amount: 0 }
    }
}

impl Default for TopSto {
    /// A newly created platform-wide board: empty.
    fn default() -> (sto: Self)
        ensures
            sto.top_100_addresses@ == Seq::<Pubkey>::empty(),
            sto.top_100_values@ == Seq::<u64>::empty(),
            sto.wf(),
    {
        TopSto { top_100_addresses: Vec::new(), top_100_values: Vec::new() }
    }
}

} // verus!
