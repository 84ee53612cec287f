use crypton_donation_charity::crypton_donation_charity::{
    chrt_token_donation, close_campaign, commission_withdrawal, initialize, new_campaign,
};
use crypton_donation_charity::effects::TokenMint;
use crypton_donation_charity::errors::DonationError;
use crypton_donation_charity::events::CloseCampaignEvent;
use crypton_donation_charity::pubkey::Pubkey;
use crypton_donation_charity::state::{BaseAccount, CampAccount};
use crypton_donation_charity::structures::{
    transfer_service_fee_lamports, ChrtTokenDonation, CloseCampaign, CommissionWithdrawal,
    Initialize, NewCampaign,
};

fn key(b: u8) -> Pubkey {
    Pubkey([b; 32])
}

#[test]
fn initialize_sets_up_platform() {
    let mut ctx = Initialize { base_account: BaseAccount::default() };
    ctx.base_account.plat_portion = 77;
    initialize(&mut ctx, key(1), 3600, 5, 100, 1000, 2000, 512, 1_700_000_000);
    let b = &ctx.base_account;
    assert_eq!(b.platform_owner, key(1));
    assert_eq!(b.period_n, 3600);
    assert_eq!(b.end_of_period, 1_700_003_600);
    assert_eq!(b.commission, 5);
    assert_eq!(b.encrg_chrt, 100);
    assert_eq!(b.lim_chrt_comm_exempt, 1000);
    assert_eq!(b.lim_chrt_camp_close, 2000);
    assert_eq!(b.account_size, 512);
    assert_eq!(b.total_donations, 0);
    assert_eq!(b.plat_portion, 0);
    assert_eq!(b.finished_camp_numbers, 0);
    assert!(b.topten_plat_vlus.is_empty());
}

#[test]
fn new_campaign_opens_active_campaign() {
    let mut ctx = NewCampaign { camp_account: CampAccount::default() };
    ctx.camp_account.commission_exempt = true;
    ctx.camp_account.don_number = 4;
    new_campaign(&mut ctx, key(2));
    let c = &ctx.camp_account;
    assert_eq!(c.campaign_owner, key(2));
    assert!(c.is_active);
    assert!(!c.commission_exempt);
    assert_eq!((c.don_number, c.com_number, c.chrt_token_recieved, c.camp_portion), (0, 0, 0, 0));
}

fn chrt_context(lim: u64) -> ChrtTokenDonation {
    let mut base = BaseAccount::default();
    base.lim_chrt_camp_close = lim;
    let mut camp = CampAccount::default();
    camp.is_active = true;
    ChrtTokenDonation { base_account: base, camp_account: camp, destination: key(4) }
}

#[test]
fn token_donation_counts_and_closes_at_limit() {
    let mut ctx = chrt_context(100);
    let mint = chrt_token_donation(&mut ctx, 9, 60).unwrap();
    assert_eq!(mint, TokenMint { to: key(4), amount: 60, bump: 9 });
    assert_eq!(ctx.camp_account.chrt_token_recieved, 60);
    assert!(ctx.camp_account.is_active);
    chrt_token_donation(&mut ctx, 9, 40).unwrap();
    assert_eq!(ctx.camp_account.chrt_token_recieved, 100);
    assert!(!ctx.camp_account.is_active);
    // a finished campaign stays finished and refuses tokens
    let before = ctx.clone();
    assert_eq!(chrt_token_donation(&mut ctx, 9, 1), Err(DonationError::CampaignFinished));
    assert_eq!(ctx, before);
}

fn close_context(camp_portion: u64, plat_portion: u64, bank: u64) -> CloseCampaign {
    let mut base = BaseAccount::default();
    base.plat_portion = plat_portion;
    base.finished_camp_numbers = 2;
    let mut camp = CampAccount::default();
    camp.camp_portion = camp_portion;
    CloseCampaign {
        base_account: base,
        camp_account: camp,
        donation_bank: key(2),
        donation_bank_lamports: bank,
        destination: key(3),
        destination_lamports: 10,
    }
}

#[test]
fn closing_sole_campaign_pays_bank_above_reserve() {
    let mut ctx = close_context(500, 500, 1000);
    let ev = close_campaign(&mut ctx, 100);
    assert_eq!(ev, CloseCampaignEvent { donation_bank: key(2), destination: key(3), amount: 900 });
    assert_eq!(ctx.destination_lamports, 910);
    assert_eq!(ctx.donation_bank_lamports, 900);
    assert_eq!(ctx.base_account.plat_portion, 0);
    assert_eq!(ctx.base_account.finished_camp_numbers, 3);
    assert_eq!(ctx.camp_account.camp_portion, 500);
}

#[test]
fn closing_partial_campaign_pays_whole_multiples_only() {
    // 300 / 500 is 0 in integer division
    let mut ctx = close_context(300, 500, 1000);
    let ev = close_campaign(&mut ctx, 100);
    assert_eq!(ev.amount, 0);
    assert_eq!(ctx.destination_lamports, 10);
    assert_eq!(ctx.donation_bank_lamports, 0);
    assert_eq!(ctx.base_account.plat_portion, 200);
    assert_eq!(ctx.base_account.finished_camp_numbers, 3);
}

#[test]
fn closing_with_bank_below_reserve_pays_nothing() {
    let mut ctx = close_context(500, 500, 50);
    let ev = close_campaign(&mut ctx, 100);
    assert_eq!(ev.amount, 0);
    assert_eq!(ctx.donation_bank_lamports, 0);
}

#[test]
fn commission_withdrawal_pays_above_reserve() {
    let mut ctx = CommissionWithdrawal {
        base_account: BaseAccount::default(),
        commission_bank_lamports: 1000,
        destination_lamports: 5,
    };
    commission_withdrawal(&mut ctx, 300).unwrap();
    assert_eq!(ctx.destination_lamports, 705);
    assert_eq!(ctx.commission_bank_lamports, 700);
}

#[test]
fn commission_withdrawal_refused_without_funds() {
    let mut ctx = CommissionWithdrawal {
        base_account: BaseAccount::default(),
        commission_bank_lamports: 300,
        destination_lamports: 5,
    };
    let before = ctx.clone();
    assert_eq!(commission_withdrawal(&mut ctx, 300), Err(DonationError::NoFundsForWithdrawal));
    assert_eq!(ctx, before);
}

#[test]
fn service_fee_moves_lamports() {
    let mut from: u64 = 100;
    let mut to: u64 = 7;
    transfer_service_fee_lamports(&mut from, &mut to, 30);
    assert_eq!((from, to), (70, 37));
}

#[test]
fn error_messages() {
    assert_eq!(DonationError::InvalidAmount.message(), "Amount should be more than zero!");
    assert_eq!(DonationError::NoFundsForWithdrawal.message(), "The donation bank is empty!");
    assert_eq!(DonationError::InsufficientFundsForTransaction.message(), "The donation bank is empty!");
    assert_eq!(DonationError::CampaignFinished.message(), "The speciffied campaign is finished!");
    assert_eq!(
        DonationError::CampaignMismatch.message(),
        "The entered data for speciffied campaign is not correct!"
    );
}
