use crypton_donation_charity::crypton_donation_charity::do_donation;
use crypton_donation_charity::effects::{LamportTransfer, TokenMint};
use crypton_donation_charity::errors::DonationError;
use crypton_donation_charity::events::DonationEvent;
use crypton_donation_charity::pubkey::Pubkey;
use crypton_donation_charity::state::{BaseAccount, CampAccount, DonationData, TopSto};
use crypton_donation_charity::structures::DoDonation;

fn key(b: u8) -> Pubkey {
    Pubkey([b; 32])
}

const DONATOR: u8 = 1;
const BANK: u8 = 2;
const CAMP: u8 = 3;
const DEST: u8 = 4;
const RECEIVER: u8 = 5;

fn context(commission: u64, lim_exempt: u64, donator_lamports: u64) -> DoDonation {
    let mut base = BaseAccount::default();
    base.commission = commission;
    base.lim_chrt_comm_exempt = lim_exempt;
    base.encrg_chrt = 1000;
    base.period_n = 100;
    base.end_of_period = 500;
    let mut camp = CampAccount::default();
    camp.is_active = true;
    DoDonation {
        commission_bank_lamports: 0,
        donation_bank: key(BANK),
        donation_data: DonationData::default(),
        donator: key(DONATOR),
        donator_lamports,
        base_account: base,
        camp_account: camp,
        camp_account_key: key(CAMP),
        top_sto: TopSto::default(),
        destination: key(DEST),
        receiver: key(RECEIVER),
    }
}

#[test]
fn donation_pays_commission_and_records_everything() {
    let mut ctx = context(10, 1000, 1000);
    let out = do_donation(&mut ctx, key(9), 7, 50, 10).unwrap();
    assert_eq!(ctx.donator_lamports, 990);
    assert_eq!(ctx.commission_bank_lamports, 10);
    assert_eq!(ctx.camp_account.com_number, 1);
    assert_eq!(ctx.camp_account.don_number, 1);
    assert!(!ctx.camp_account.commission_exempt);
    assert_eq!(ctx.camp_account.camp_portion, 50);
    assert_eq!(ctx.base_account.plat_portion, 50);
    assert_eq!(ctx.camp_account.topten_camp_vlus, vec![50]);
    assert_eq!(ctx.camp_account.topten_camp_adrs, vec![key(DONATOR)]);
    assert_eq!(ctx.base_account.topten_plat_vlus, vec![50]);
    assert_eq!(ctx.top_sto.top_100_values, vec![50]);
    assert_eq!(ctx.top_sto.top_100_addresses, vec![key(DONATOR)]);
    assert_eq!(ctx.donation_data.donation_camp, vec![key(CAMP)]);
    assert_eq!(ctx.donation_data.donator, vec![key(DONATOR)]);
    assert_eq!(ctx.donation_data.referrer, vec![key(9)]);
    assert_eq!(ctx.donation_data.amount, 50);
    assert_eq!(out.transfer, LamportTransfer { from: key(DONATOR), to: key(BANK), lamports: 50 });
    assert_eq!(out.mints, vec![TokenMint { to: key(RECEIVER), amount: 5050, bump: 7 }]);
    assert_eq!(out.rewards_event, None);
    assert_eq!(
        out.donation_event,
        DonationEvent { donation_bank: key(BANK), donator: key(DONATOR), referrer: key(9), amount: 50 }
    );
    assert_eq!(ctx.base_account.end_of_period, 500);
}

#[test]
fn donation_payment_law() {
    // the donator pays exactly amount + commission once the transfer is done
    let mut ctx = context(10, 1000, 1000);
    let before = ctx.donator_lamports + ctx.commission_bank_lamports;
    let out = do_donation(&mut ctx, key(9), 7, 50, 10).unwrap();
    assert_eq!(ctx.donator_lamports + ctx.commission_bank_lamports, before);
    assert_eq!(ctx.donator_lamports - out.transfer.lamports, 1000 - 50 - 10);
}

#[test]
fn campaign_becomes_exempt_at_limit_and_then_pays_no_commission() {
    let mut ctx = context(10, 30, 10_000);
    do_donation(&mut ctx, key(9), 0, 1, 10).unwrap();
    do_donation(&mut ctx, key(9), 0, 1, 10).unwrap();
    assert!(!ctx.camp_account.commission_exempt);
    do_donation(&mut ctx, key(9), 0, 1, 10).unwrap();
    // three commissions of 10 reach the limit of 30
    assert!(ctx.camp_account.commission_exempt);
    assert_eq!(ctx.commission_bank_lamports, 30);
    assert_eq!(ctx.camp_account.com_number, 3);
    let lamports = ctx.donator_lamports;
    do_donation(&mut ctx, key(9), 0, 5, 10).unwrap();
    assert_eq!(ctx.donator_lamports, lamports);
    assert_eq!(ctx.commission_bank_lamports, 30);
    assert_eq!(ctx.camp_account.com_number, 3);
    assert_eq!(ctx.camp_account.don_number, 4);
    assert!(ctx.camp_account.commission_exempt);
    assert!(ctx.camp_account.is_active);
}

#[test]
fn finished_campaign_refuses_donation_unchanged() {
    let mut ctx = context(10, 1000, 1000);
    ctx.camp_account.is_active = false;
    let before = ctx.clone();
    assert_eq!(do_donation(&mut ctx, key(9), 0, 50, 10), Err(DonationError::CampaignFinished));
    assert_eq!(ctx, before);
}

#[test]
fn zero_donation_is_refused() {
    let mut ctx = context(10, 1000, 1000);
    let before = ctx.clone();
    assert_eq!(do_donation(&mut ctx, key(9), 0, 0, 10), Err(DonationError::InvalidAmount));
    assert_eq!(ctx, before);
    ctx.camp_account.commission_exempt = true;
    let before = ctx.clone();
    assert_eq!(do_donation(&mut ctx, key(9), 0, 0, 10), Err(DonationError::InvalidAmount));
    assert_eq!(ctx, before);
}

#[test]
fn donator_must_afford_amount_and_commission() {
    let mut ctx = context(10, 1000, 59);
    let before = ctx.clone();
    assert_eq!(
        do_donation(&mut ctx, key(9), 0, 50, 10),
        Err(DonationError::InsufficientFundsForTransaction)
    );
    assert_eq!(ctx, before);
    let mut ctx = context(10, 1000, 60);
    assert!(do_donation(&mut ctx, key(9), 0, 50, 10).is_ok());
    assert_eq!(ctx.donator_lamports, 50);
}

#[test]
fn exempt_donator_must_afford_amount() {
    let mut ctx = context(10, 1000, 49);
    ctx.camp_account.commission_exempt = true;
    assert_eq!(
        do_donation(&mut ctx, key(9), 0, 50, 10),
        Err(DonationError::InsufficientFundsForTransaction)
    );
    let mut ctx = context(10, 1000, 50);
    ctx.camp_account.commission_exempt = true;
    assert!(do_donation(&mut ctx, key(9), 0, 50, 10).is_ok());
    assert_eq!(ctx.donator_lamports, 50);
    assert_eq!(ctx.commission_bank_lamports, 0);
}

#[test]
fn period_end_rewards_platform_leaders() {
    let mut ctx = context(0, 1000, 1_000_000);
    do_donation(&mut ctx, key(9), 3, 20, 10).unwrap();
    ctx.donator = key(6);
    do_donation(&mut ctx, key(9), 3, 30, 20).unwrap();
    // the period ends at 500: this donation closes it
    ctx.donator = key(7);
    let out = do_donation(&mut ctx, key(9), 3, 40, 500).unwrap();
    let ev = out.rewards_event.unwrap();
    assert_eq!(ev.top_values, vec![20, 30, 40]);
    assert_eq!(ev.top_addresses, vec![key(DONATOR), key(6), key(7)]);
    assert_eq!(out.mints.len(), 4);
    assert_eq!(out.mints[0], TokenMint { to: key(RECEIVER), amount: 4040, bump: 3 });
    for m in &out.mints[1..] {
        assert_eq!(*m, TokenMint { to: key(DEST), amount: 1000, bump: 3 });
    }
    assert!(ctx.base_account.topten_plat_vlus.is_empty());
    assert!(ctx.base_account.topten_plat_adrs.is_empty());
    assert_eq!(ctx.base_account.end_of_period, 600);
    // the campaign and platform-wide boards keep their entries
    assert_eq!(ctx.camp_account.topten_camp_vlus, vec![20, 30, 40]);
    assert_eq!(ctx.top_sto.top_100_values, vec![20, 30, 40]);
    // the next donation starts a new board
    let out = do_donation(&mut ctx, key(9), 3, 5, 501).unwrap();
    assert_eq!(out.rewards_event, None);
    assert_eq!(ctx.base_account.topten_plat_vlus, vec![5]);
}

#[test]
fn campaign_board_keeps_ten_largest() {
    let mut ctx = context(0, 1000, 1_000_000);
    for i in 1..=12u64 {
        ctx.donator = key(i as u8 + 10);
        do_donation(&mut ctx, key(9), 0, i * 10, 10).unwrap();
    }
    let mut vals = ctx.camp_account.topten_camp_vlus.clone();
    vals.sort_unstable();
    assert_eq!(vals, vec![30, 40, 50, 60, 70, 80, 90, 100, 110, 120]);
    assert_eq!(ctx.camp_account.topten_camp_adrs.len(), 10);
    assert_eq!(ctx.top_sto.top_100_values.len(), 12);
}

#[test]
fn donation_total_saturates() {
    let mut ctx = context(0, 1000, 1_000_000);
    ctx.donation_data.amount = u64::MAX - 5;
    ctx.donation_data.donator = vec![];
    do_donation(&mut ctx, key(9), 0, 10, 10).unwrap();
    assert_eq!(ctx.donation_data.amount, u64::MAX);
}

#[test]
fn board_entries_pair_donators_with_their_amounts() {
    let mut ctx = context(0, 1000, 1_000_000);
    let amounts: Vec<u64> = vec![7, 3, 11, 5, 13, 2, 17, 19, 23, 29, 31, 1, 37];
    for (i, a) in amounts.iter().enumerate() {
        ctx.donator = key(100 + i as u8);
        do_donation(&mut ctx, key(9), 0, *a, 10).unwrap();
    }
    for (k, v) in ctx.camp_account.topten_camp_vlus.iter().enumerate() {
        let who = ctx.camp_account.topten_camp_adrs[k].0[0] as usize - 100;
        assert_eq!(amounts[who], *v);
    }
    for (k, v) in ctx.top_sto.top_100_values.iter().enumerate() {
        let who = ctx.top_sto.top_100_addresses[k].0[0] as usize - 100;
        assert_eq!(amounts[who], *v);
    }
}
