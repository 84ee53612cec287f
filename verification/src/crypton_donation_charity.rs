use vstd::prelude::*;

use crate::effects::{DonationOutcome, LamportTransfer, TokenMint};
use crate::errors::DonationError;
use crate::events::{CloseCampaignEvent, DonationEvent, TopTenRewardsEvent};
use crate::pubkey::Pubkey;
use crate::state::{BaseAccount, CampAccount, TOP_HUNDRED, TOP_TEN};
use crate::structures::{
    transfer_service_fee_lamports, ChrtTokenDonation, CloseCampaign, CommissionWithdrawal,
    DoDonation, Initialize, NewCampaign,
};
use crate::top::{board_addresses, board_values, board_wf, track_top_donation};

verus! {

/// Copies a list of plain values.
fn copy_vec<T: Copy>(v: &Vec<T>) -> (out: Vec<T>)
    ensures
        out@ == v@,
{
    let mut out: Vec<T> = Vec::new();
    let mut i: usize = 0;
    while i < v.len()
        invariant
            i <= v.len(),
            out@ == v@.subrange(0, i as int),
        decreases v.len() - i,
    {
        out.push(v[i]);
        i = i + 1;
    }
    out
}

/// The commission that a donation to `camp` pays.
pub open spec fn commission_due(base: BaseAccount, camp: CampAccount) -> int {
    if camp.commission_exempt {
        0
    } else {
        base.commission as int
    }
}

/// Why a donation of `amount` is refused, if it is: the campaign must be
/// active, the amount positive, and the donator must be able to pay the
/// amount and the commission due.
pub open spec fn donation_refusal(ctx: DoDonation, amount: u64) -> Option<DonationError> {
    if !ctx.camp_account.is_active {
        Some(DonationError::CampaignFinished)
    } else if amount == 0 {
        Some(DonationError::InvalidAmount)
    } else if ctx.donator_lamports < amount + commission_due(ctx.base_account, ctx.camp_account) {
        Some(DonationError::InsufficientFundsForTransaction)
    } else {
        None
    }
}

/// The integer arithmetic of a donation of `amount` at `current_time` stays
/// within the ranges of its types.
pub open spec fn donation_in_range(ctx: DoDonation, amount: u64, current_time: i64) -> bool {
    let camp = ctx.camp_account;
    let base = ctx.base_account;
    &&& (camp.is_active && amount > 0 && !camp.commission_exempt) ==> amount + base.commission
        <= u64::MAX
    &&& donation_refusal(ctx, amount) is None ==> {
        &&& !camp.commission_exempt ==> {
            &&& ctx.commission_bank_lamports + base.commission <= u64::MAX
            &&& (camp.com_number + 1) * base.commission <= u64::MAX
        }
        &&& camp.don_number < i32::MAX
        &&& amount * 101 <= u64::MAX
        &&& current_time >= base.end_of_period ==> i64::MIN <= current_time + base.period_n
            <= i64::MAX
        &&& base.plat_portion + amount <= u64::MAX
        &&& camp.camp_portion + amount <= u64::MAX
    }
}

/// Whether a donation at `current_time` ends the reward period.
pub open spec fn period_ended(base: BaseAccount, current_time: i64) -> bool {
    current_time >= base.end_of_period
}

/// The settings and bookkeeping of the platform that a donation leaves alone.
pub open spec fn same_platform_settings(a: BaseAccount, b: BaseAccount) -> bool {
    &&& b.platform_owner == a.platform_owner
    &&& b.period_n == a.period_n
    &&& b.commission == a.commission
    &&& b.encrg_chrt == a.encrg_chrt
    &&& b.lim_chrt_comm_exempt == a.lim_chrt_comm_exempt
    &&& b.lim_chrt_camp_close == a.lim_chrt_camp_close
    &&& b.account_size == a.account_size
    &&& b.total_donations == a.total_donations
    &&& b.finished_camp_numbers == a.finished_camp_numbers
}

/// The campaign `f` is the campaign `o` after it accepted a donation of
/// `amount` by `donator`, on a platform whose commission is `commission` and
/// whose exemption limit is `lim`.
pub open spec fn camp_donated(
    o: CampAccount,
    f: CampAccount,
    commission: u64,
    lim: u64,
    amount: u64,
    donator: Pubkey,
) -> bool {
    &&& f.campaign_owner == o.campaign_owner
    &&& f.is_active == o.is_active
    &&& f.chrt_token_recieved == o.chrt_token_recieved
    &&& f.don_number == o.don_number + 1
    &&& f.com_number == if o.commission_exempt {
        o.com_number as int
    } else {
        o.com_number + 1
    }
    &&& f.commission_exempt == (o.commission_exempt || (o.com_number + 1) * commission >= lim)
    &&& f.camp_portion == o.camp_portion + amount
    &&& f.topten_camp_vlus@ == board_values(o.topten_camp_vlus@, TOP_TEN as nat, amount)
    &&& f.topten_camp_adrs@ == board_addresses(
        o.topten_camp_vlus@,
        o.topten_camp_adrs@,
        TOP_TEN as nat,
        amount,
        donator,
    )
}

/// The platform `f` is the platform `o` after a donation of `amount` by
/// `donator` at `current_time`: the donation is recorded on the leader board;
/// if the reward period has ended the board is emptied and a new period
/// starts at `current_time`.
pub open spec fn base_donated(
    o: BaseAccount,
    f: BaseAccount,
    amount: u64,
    donator: Pubkey,
    current_time: i64,
) -> bool {
    &&& same_platform_settings(o, f)
    &&& f.plat_portion == o.plat_portion + amount
    &&& if period_ended(o, current_time) {
        &&& f.topten_plat_vlus@ == Seq::<u64>::empty()
        &&& f.topten_plat_adrs@ == Seq::<Pubkey>::empty()
        &&& f.end_of_period == current_time + o.period_n
    } else {
        &&& f.topten_plat_vlus@ == board_values(o.topten_plat_vlus@, TOP_TEN as nat, amount)
        &&& f.topten_plat_adrs@ == board_addresses(
            o.topten_plat_vlus@,
            o.topten_plat_adrs@,
            TOP_TEN as nat,
            amount,
            donator,
        )
        &&& f.end_of_period == o.end_of_period
    }
}

/// What an accepted donation of `amount` asks of the runtime: the transfer of
/// the amount to the donation bank, a gift of 101 tokens per lamport to the
/// referrer's token account, and, when the reward period ends, the rewards
/// event for the platform board (with this donation recorded on it) and one
/// mint of `encrg_chrt` tokens to the destination per entry of that board.
pub open spec fn donation_effects(
    o: DoDonation,
    out: DonationOutcome,
    referrer: Pubkey,
    bump: u8,
    amount: u64,
    current_time: i64,
) -> bool {
    let pv = board_values(o.base_account.topten_plat_vlus@, TOP_TEN as nat, amount);
    let pa = board_addresses(
        o.base_account.topten_plat_vlus@,
        o.base_account.topten_plat_adrs@,
        TOP_TEN as nat,
        amount,
        o.donator,
    );
    &&& out.transfer == LamportTransfer { from: o.donator, to: o.donation_bank, lamports: amount }
    &&& out.donation_event == DonationEvent {
        donation_bank: o.donation_bank,
        donator: o.donator,
        referrer,
        amount,
    }
    &&& out.mints@.len() == if period_ended(o.base_account, current_time) {
        1 + pa.len()
    } else {
        1
    }
    &&& out.mints@[0] == TokenMint { to: o.receiver, amount: (amount * 101) as u64, bump }
    &&& forall|k: int|
        1 <= k < out.mints@.len() ==> #[trigger] out.mints@[k] == TokenMint {
            to: o.destination,
            amount: o.base_account.encrg_chrt,
            bump,
        }
    &&& if period_ended(o.base_account, current_time) {
        &&& out.rewards_event is Some
        &&& out.rewards_event->0.top_addresses@ == pa
        &&& out.rewards_event->0.top_values@ == pv
    } else {
        out.rewards_event is None
    }
}

/// The accounts `f` and the effects `out` are those of an accepted donation of
/// `amount` at `current_time` on the accounts `o` (see `do_donation`).
pub open spec fn donation_accepted(
    o: DoDonation,
    f: DoDonation,
    out: DonationOutcome,
    referrer: Pubkey,
    bump: u8,
    amount: u64,
    current_time: i64,
) -> bool {
    &&& donation_refusal(o, amount) is None
    &&& f.donator_lamports == o.donator_lamports - commission_due(
        o.base_account,
        o.camp_account,
    )
    &&& f.commission_bank_lamports == o.commission_bank_lamports + commission_due(
        o.base_account,
        o.camp_account,
    )
    &&& f.donation_bank == o.donation_bank
    &&& f.donator == o.donator
    &&& f.camp_account_key == o.camp_account_key
    &&& f.destination == o.destination
    &&& f.receiver == o.receiver
    &&& camp_donated(
        o.camp_account,
        f.camp_account,
        o.base_account.commission,
        o.base_account.lim_chrt_comm_exempt,
        amount,
        o.donator,
    )
    &&& base_donated(o.base_account, f.base_account, amount, o.donator, current_time)
    &&& f.top_sto.top_100_values@ == board_values(
        o.top_sto.top_100_values@,
        TOP_HUNDRED as nat,
        amount,
    )
    &&& f.top_sto.top_100_addresses@ == board_addresses(
        o.top_sto.top_100_values@,
        o.top_sto.top_100_addresses@,
        TOP_HUNDRED as nat,
        amount,
        o.donator,
    )
    &&& f.donation_data.donation_camp@ == o.donation_data.donation_camp@.push(
        o.camp_account_key,
    )
    &&& f.donation_data.donator@ == o.donation_data.donator@.push(o.donator)
    &&& f.donation_data.referrer@ == o.donation_data.referrer@.push(referrer)
    &&& f.donation_data.amount == if o.donation_data.amount + amount > u64::MAX {
        u64::MAX as int
    } else {
        o.donation_data.amount + amount
    }
    &&& donation_effects(o, out, referrer, bump, amount, current_time)
}

/// The accounts `f` and the result `res` are those of `do_donation` on the
/// accounts `o`: a refusal changes nothing, an acceptance is
/// `donation_accepted`.
pub open spec fn donation_result(
    o: DoDonation,
    f: DoDonation,
    res: Result<DonationOutcome, DonationError>,
    referrer: Pubkey,
    bump: u8,
    amount: u64,
    current_time: i64,
) -> bool {
    match res {
        Err(e) => {
            &&& donation_refusal(o, amount) == Some(e)
            &&& f == o
        },
        Ok(out) => donation_accepted(o, f, out, referrer, bump, amount, current_time),
    }
}

/// Accepts a donation of `amount` lamports from the donator to the campaign,
/// naming `referrer` as the one who brought the donator; `bump` is the bump of
/// the mint authority that signs the token mints and `current_time` is the
/// time of the cluster.
///
/// Unless the campaign is exempt, the commission is moved from the donator to
/// the commission bank, and the campaign becomes exempt once its commissioned
/// donations times the commission reach the exemption limit. The donation is
/// recorded in the donator's history and on the campaign's, the platform's and
/// the platform-wide boards.
pub fn do_donation(
    ctx: &mut DoDonation,
    referrer: Pubkey,
    bump: u8,
    amount: u64,
    current_time: i64,
) -> (res: Result<DonationOutcome, DonationError>)
    requires
        old(ctx).base_account.wf(),
        old(ctx).camp_account.wf(),
        old(ctx).top_sto.wf(),
        old(ctx).donation_data.wf(),
        donation_in_range(*old(ctx), amount, current_time),
    ensures
        final(ctx).base_account.wf(),
        final(ctx).camp_account.wf(),
        final(ctx).top_sto.wf(),
        final(ctx).donation_data.wf(),
        donation_result(*old(ctx), *final(ctx), res, referrer, bump, amount, current_time),
{
    if !ctx.camp_account.is_active {
        return Err(DonationError::CampaignFinished);
    }
    let commission = ctx.base_account.commission;
    if !ctx.camp_account.commission_exempt {
        if amount == 0 {
            return Err(DonationError::InvalidAmount);
        }
        let threshold = amount + commission;
        if ctx.donator_lamports < threshold {
            return Err(DonationError::InsufficientFundsForTransaction);
        }
        transfer_service_fee_lamports(
            &mut ctx.donator_lamports,
            &mut ctx.commission_bank_lamports,
            commission,
        );
        ctx.camp_account.com_number = ctx.camp_account.com_number + 1;
        ctx.camp_account.don_number = ctx.camp_account.don_number + 1;
        let commissioned: u64 = ctx.camp_account.com_number as u64;
        if commissioned * commission >= ctx.base_account.lim_chrt_comm_exempt {
            ctx.camp_account.commission_exempt = true;
        }
    } else {
        if amount == 0 {
            return Err(DonationError::InvalidAmount);
        }
        if ctx.donator_lamports < amount {
            return Err(DonationError::InsufficientFundsForTransaction);
        }
        ctx.camp_account.don_number = ctx.camp_account.don_number + 1;
    }
    let transfer = LamportTransfer { from: ctx.donator, to: ctx.donation_bank, lamports: amount };

    let camp_key = ctx.camp_account_key;
    let donator = ctx.donator;
    ctx.donation_data.donation_camp.push(camp_key);
    ctx.donation_data.donator.push(donator);
    ctx.donation_data.referrer.push(referrer);
    ctx.donation_data.amount = ctx.donation_data.amount.saturating_add(amount);

    track_top_donation(
        &mut ctx.camp_account.topten_camp_vlus,
        &mut ctx.camp_account.topten_camp_adrs,
        TOP_TEN,
        amount,
        donator,
    );
    track_top_donation(
        &mut ctx.base_account.topten_plat_vlus,
        &mut ctx.base_account.topten_plat_adrs,
        TOP_TEN,
        amount,
        donator,
    );
    track_top_donation(
        &mut ctx.top_sto.top_100_values,
        &mut ctx.top_sto.top_100_addresses,
        TOP_HUNDRED,
        amount,
        donator,
    );

    let tamount = amount * 101;
    let mut mints: Vec<TokenMint> = Vec::new();
    mints.push(TokenMint { to: ctx.receiver, amount: tamount, bump });

    let mut rewards_event: Option<TopTenRewardsEvent> = None;
    if current_time >= ctx.base_account.end_of_period {
        rewards_event = Some(
            TopTenRewardsEvent {
                top_addresses: copy_vec(&ctx.base_account.topten_plat_adrs),
                top_values: copy_vec(&ctx.base_account.topten_plat_vlus),
            },
        );
        let reward = TokenMint {
            to: ctx.destination,
            amount: ctx.base_account.encrg_chrt,
            bump,
        };
        let winners = ctx.base_account.topten_plat_adrs.len();
        let mut i: usize = 0;
        while i < winners
            invariant
                i <= winners,
                mints@.len() == 1 + i,
                mints@[0] == (TokenMint { to: ctx.receiver, amount: tamount, bump }),
                forall|k: int| 1 <= k < mints@.len() ==> #[trigger] mints@[k] == reward,
            decreases winners - i,
        {
            mints.push(reward);
            i = i + 1;
        }
        ctx.base_account.topten_plat_adrs.clear();
        ctx.base_account.topten_plat_vlus.clear();
        ctx.base_account.end_of_period = current_time + ctx.base_account.period_n;
    }

    let donation_event = DonationEvent {
        donation_bank: ctx.donation_bank,
        donator,
        referrer,
        amount,
    };

    ctx.base_account.plat_portion = ctx.base_account.plat_portion + amount;
    ctx.camp_account.camp_portion = ctx.camp_account.camp_portion + amount;

    Ok(DonationOutcome { transfer, mints, rewards_event, donation_event })
}

/// Sets up the platform: its owner, the length of a reward period (the first
/// one ends `period_n` after `current_time`), the commission per donation, the
/// tokens rewarded per leader at the end of a period, the commission total
/// after which a campaign is exempt, the token total after which a campaign
/// closes and the account size that its banks keep rent-exempt. The totals
/// start at zero; the leader board is left as it is.
pub fn initialize(
    ctx: &mut Initialize,
    platform_owner: Pubkey,
    period_n: i64,
    commission: u64,
    encrg_chrt: u64,
    lim_chrt_comm_exempt: u64,
    lim_chrt_camp_close: u64,
    account_size: u32,
    current_time: i64,
)
    requires
        i64::MIN <= current_time + period_n <= i64::MAX,
    ensures
        final(ctx).base_account.platform_owner == platform_owner,
        final(ctx).base_account.period_n == period_n,
        final(ctx).base_account.commission == commission,
        final(ctx).base_account.encrg_chrt == encrg_chrt,
        final(ctx).base_account.lim_chrt_comm_exempt == lim_chrt_comm_exempt,
        final(ctx).base_account.lim_chrt_camp_close == lim_chrt_camp_close,
        final(ctx).base_account.account_size == account_size,
        final(ctx).base_account.total_donations == 0,
        final(ctx).base_account.plat_portion == 0,
        final(ctx).base_account.finished_camp_numbers == 0,
        final(ctx).base_account.end_of_period == current_time + period_n,
        final(ctx).base_account.topten_plat_adrs == old(ctx).base_account.topten_plat_adrs,
        final(ctx).base_account.topten_plat_vlus == old(ctx).base_account.topten_plat_vlus,
        final(ctx).base_account.wf() == old(ctx).base_account.wf(),
{
    ctx.base_account.platform_owner = platform_owner;
    ctx.base_account.period_n = period_n;
    ctx.base_account.commission = commission;
    ctx.base_account.encrg_chrt = encrg_chrt;
    ctx.base_account.lim_chrt_comm_exempt = lim_chrt_comm_exempt;
    ctx.base_account.lim_chrt_camp_close = lim_chrt_camp_close;
    ctx.base_account.account_size = account_size;
    ctx.base_account.total_donations = 0;
    ctx.base_account.plat_portion = 0;
    ctx.base_account.finished_camp_numbers = 0;
    ctx.base_account.end_of_period = current_time + period_n;
}

/// Opens a campaign for `campaign_owner`: active, not exempt, with no
/// donations, commissions, tokens or portion yet; its leader board is left as
/// it is.
pub fn new_campaign(ctx: &mut NewCampaign, campaign_owner: Pubkey)
    ensures
        final(ctx).camp_account.campaign_owner == campaign_owner,
        !final(ctx).camp_account.commission_exempt,
        final(ctx).camp_account.is_active,
        final(ctx).camp_account.don_number == 0,
        final(ctx).camp_account.com_number == 0,
        final(ctx).camp_account.chrt_token_recieved == 0,
        final(ctx).camp_account.camp_portion == 0,
        final(ctx).camp_account.topten_camp_adrs == old(ctx).camp_account.topten_camp_adrs,
        final(ctx).camp_account.topten_camp_vlus == old(ctx).camp_account.topten_camp_vlus,
        final(ctx).camp_account.wf() == board_wf(
            old(ctx).camp_account.topten_camp_vlus@,
            old(ctx).camp_account.topten_camp_adrs@,
            TOP_TEN as nat,
        ),
{
    ctx.camp_account.campaign_owner = campaign_owner;
    ctx.camp_account.commission_exempt = false;
    ctx.camp_account.is_active = true;
    ctx.camp_account.don_number = 0;
    ctx.camp_account.com_number = 0;
    ctx.camp_account.chrt_token_recieved = 0;
    ctx.camp_account.camp_portion = 0;
}

/// The accounts `f` and the mint `mint` are those of an accepted donation of
/// `amount` tokens on the accounts `o` (see `chrt_token_donation`).
pub open spec fn chrt_accepted(
    o: ChrtTokenDonation,
    f: ChrtTokenDonation,
    mint: TokenMint,
    mint_bump: u8,
    amount: u64,
) -> bool {
    &&& o.camp_account.is_active
    &&& mint == (TokenMint { to: o.destination, amount, bump: mint_bump })
    &&& f.camp_account.chrt_token_recieved == o.camp_account.chrt_token_recieved + amount
    &&& f.camp_account.is_active == (f.camp_account.chrt_token_recieved
        < o.base_account.lim_chrt_camp_close)
    &&& f.camp_account == (CampAccount {
        chrt_token_recieved: f.camp_account.chrt_token_recieved,
        is_active: f.camp_account.is_active,
        ..o.camp_account
    })
    &&& f.base_account == o.base_account
    &&& f.destination == o.destination
}

/// The accounts `f` and the result `res` are those of `chrt_token_donation`
/// on the accounts `o`: a finished campaign is refused and nothing changes,
/// an acceptance is `chrt_accepted`.
pub open spec fn chrt_result(
    o: ChrtTokenDonation,
    f: ChrtTokenDonation,
    res: Result<TokenMint, DonationError>,
    mint_bump: u8,
    amount: u64,
) -> bool {
    match res {
        Err(e) => {
            &&& e == DonationError::CampaignFinished
            &&& !o.camp_account.is_active
            &&& f == o
        },
        Ok(mint) => chrt_accepted(o, f, mint, mint_bump, amount),
    }
}

/// Donates `amount` charity tokens to an active campaign: they are minted to
/// the destination (signed with `mint_bump`), counted for the campaign, and
/// the campaign finishes once its count reaches the platform's closing limit.
pub fn chrt_token_donation(ctx: &mut ChrtTokenDonation, mint_bump: u8, amount: u64) -> (res: Result<
    TokenMint,
    DonationError,
>)
    requires
        old(ctx).camp_account.is_active ==> old(ctx).camp_account.chrt_token_recieved + amount
            <= u64::MAX,
    ensures
        chrt_result(*old(ctx), *final(ctx), res, mint_bump, amount),
{
    if !ctx.camp_account.is_active {
        return Err(DonationError::CampaignFinished);
    }
    ctx.camp_account.chrt_token_recieved = ctx.camp_account.chrt_token_recieved + amount;
    let mint = TokenMint { to: ctx.destination, amount, bump: mint_bump };
    if ctx.camp_account.chrt_token_recieved >= ctx.base_account.lim_chrt_camp_close {
        ctx.camp_account.is_active = false;
    }
    Ok(mint)
}

/// The lamports that closing a campaign pays out: the campaign's portion of
/// the platform's donations, in whole multiples (integer division), times the
/// donation bank's balance, less the rent-exempt reserve (but not below zero).
pub open spec fn close_amount(ctx: CloseCampaign, rent_exempt_amount: u64) -> int {
    let gross = (ctx.camp_account.camp_portion / ctx.base_account.plat_portion)
        * ctx.donation_bank_lamports;
    if gross > rent_exempt_amount {
        gross - rent_exempt_amount
    } else {
        0
    }
}

/// Closing a campaign stays within the ranges of its integer types: the
/// platform has a portion to divide by, the campaign's portion is part of it,
/// and the payout and the count of finished campaigns fit.
pub open spec fn close_in_range(ctx: CloseCampaign, rent_exempt_amount: u64) -> bool {
    &&& ctx.base_account.plat_portion > 0
    &&& (ctx.camp_account.camp_portion / ctx.base_account.plat_portion) * ctx.donation_bank_lamports
        <= u64::MAX
    &&& ctx.camp_account.camp_portion <= ctx.base_account.plat_portion
    &&& ctx.base_account.finished_camp_numbers < u32::MAX
    &&& ctx.destination_lamports + close_amount(ctx, rent_exempt_amount) <= u64::MAX
}

/// The accounts `f` and the event `event` are those of `close_campaign` on
/// the accounts `o` with the rent-exempt reserve `rent_exempt_amount`.
pub open spec fn campaign_closed(
    o: CloseCampaign,
    f: CloseCampaign,
    event: CloseCampaignEvent,
    rent_exempt_amount: u64,
) -> bool {
    &&& f.destination_lamports == o.destination_lamports + close_amount(
        o,
        rent_exempt_amount,
    )
    &&& f.donation_bank_lamports == close_amount(o, rent_exempt_amount)
    &&& f.base_account.plat_portion == o.base_account.plat_portion
        - o.camp_account.camp_portion
    &&& f.base_account.finished_camp_numbers == o.base_account.finished_camp_numbers + 1
    &&& f.base_account == (BaseAccount {
        plat_portion: f.base_account.plat_portion,
        finished_camp_numbers: f.base_account.finished_camp_numbers,
        ..o.base_account
    })
    &&& f.camp_account == o.camp_account
    &&& f.donation_bank == o.donation_bank
    &&& f.destination == o.destination
    &&& event == (CloseCampaignEvent {
        donation_bank: o.donation_bank,
        destination: o.destination,
        amount: close_amount(o, rent_exempt_amount) as u64,
    })
}

/// Closes a campaign: its payout (see `close_amount`) is added to the
/// destination, the donation bank's balance is set to the payout, the
/// campaign's portion leaves the platform's and the platform counts one more
/// finished campaign. `rent_exempt_amount` is the rent-exempt reserve for the
/// platform's account size.
pub fn close_campaign(ctx: &mut CloseCampaign, rent_exempt_amount: u64) -> (event: CloseCampaignEvent)
    requires
        close_in_range(*old(ctx), rent_exempt_amount),
    ensures
        campaign_closed(*old(ctx), *final(ctx), event, rent_exempt_amount),
{
    let initial_amount = ctx.donation_bank_lamports;
    let portion = ctx.camp_account.camp_portion / ctx.base_account.plat_portion;
    let mut amount = portion * initial_amount;
    amount = amount.saturating_sub(rent_exempt_amount);
    ctx.base_account.plat_portion = ctx.base_account.plat_portion - ctx.camp_account.camp_portion;
    ctx.base_account.finished_camp_numbers = ctx.base_account.finished_camp_numbers + 1;

    ctx.destination_lamports = ctx.destination_lamports + amount;
    ctx.donation_bank_lamports = amount;
    CloseCampaignEvent { donation_bank: ctx.donation_bank, destination: ctx.destination, amount }
}

/// The commission that can be withdrawn: the commission bank's balance less
/// the rent-exempt reserve (but not below zero).
pub open spec fn withdrawable(ctx: CommissionWithdrawal, rent_exempt_amount: u64) -> int {
    if ctx.commission_bank_lamports > rent_exempt_amount {
        ctx.commission_bank_lamports - rent_exempt_amount
    } else {
        0
    }
}

/// The accounts `f` and the result `res` are those of a commission
/// withdrawal on the accounts `o` with the rent-exempt reserve
/// `rent_exempt_amount` (see `commission_withdrawal`).
pub open spec fn withdrawal_done(
    o: CommissionWithdrawal,
    f: CommissionWithdrawal,
    res: Result<(), DonationError>,
    rent_exempt_amount: u64,
) -> bool {
    match res {
        Err(e) => {
            &&& e == DonationError::NoFundsForWithdrawal
            &&& withdrawable(o, rent_exempt_amount) == 0
            &&& f == o
        },
        Ok(()) => {
            &&& withdrawable(o, rent_exempt_amount) > 0
            &&& f.destination_lamports == o.destination_lamports
                + withdrawable(o, rent_exempt_amount)
            &&& f.commission_bank_lamports == withdrawable(
                o,
                rent_exempt_amount,
            )
            &&& f.base_account == o.base_account
        },
    }
}

/// Withdraws the platform's commission: the withdrawable amount (see
/// `withdrawable`) is added to the destination and the commission bank's
/// balance is set to it. Refused when there is nothing to withdraw.
pub fn commission_withdrawal(ctx: &mut CommissionWithdrawal, rent_exempt_amount: u64) -> (res:
    Result<(), DonationError>)
    requires
        old(ctx).destination_lamports + withdrawable(*old(ctx), rent_exempt_amount) <= u64::MAX,
    ensures
        withdrawal_done(*old(ctx), *final(ctx), res, rent_exempt_amount),
{
    let amount = ctx.commission_bank_lamports.saturating_sub(rent_exempt_amount);
    if !(amount > 0) {
        return Err(DonationError::NoFundsForWithdrawal);
    }
    ctx.destination_lamports = ctx.destination_lamports + amount;
    ctx.commission_bank_lamports = amount;
    Ok(())
}

} // verus!
