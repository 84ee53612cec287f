use vstd::prelude::*;
use vstd::multiset::Multiset;

use crate::crypton_donation_charity::{
    campaign_closed, chrt_accepted, chrt_result, close_in_range, commission_due, donation_accepted,
    donation_in_range, donation_result, period_ended, withdrawal_done,
};
use crate::errors::DonationError;
use crate::effects::{DonationOutcome, TokenMint};
use crate::events::CloseCampaignEvent;
use crate::pubkey::Pubkey;
use crate::state::{TOP_HUNDRED, TOP_TEN};
use crate::structures::{ChrtTokenDonation, CloseCampaign, CommissionWithdrawal, DoDonation};
use crate::top::{
    entries_recorded, holds_largest, lemma_board_entries_recorded, lemma_board_holds_largest,
    lemma_board_takes_donation_last,
};

verus! {

/// Law of the leader boards under donations: if the campaign board, the
/// platform board and the platform-wide board hold the largest donations of
/// their histories, then after an accepted donation of `amount` the campaign
/// board and the platform-wide board hold the largest donations of their
/// histories with `amount` added; the platform board does too while the
/// reward period runs, and is empty (the largest of no donations) once the
/// period has ended and its leaders were rewarded.
pub proof fn lemma_donation_keeps_leader_boards(
    o: DoDonation,
    f: DoDonation,
    out: DonationOutcome,
    referrer: Pubkey,
    bump: u8,
    amount: u64,
    current_time: i64,
    camp_history: Multiset<u64>,
    plat_history: Multiset<u64>,
    top_history: Multiset<u64>,
)
    requires
        donation_accepted(o, f, out, referrer, bump, amount, current_time),
        holds_largest(o.camp_account.topten_camp_vlus@, camp_history, TOP_TEN as nat),
        holds_largest(o.base_account.topten_plat_vlus@, plat_history, TOP_TEN as nat),
        holds_largest(o.top_sto.top_100_values@, top_history, TOP_HUNDRED as nat),
    ensures
        holds_largest(f.camp_account.topten_camp_vlus@, camp_history.insert(amount), TOP_TEN as nat),
        holds_largest(f.top_sto.top_100_values@, top_history.insert(amount), TOP_HUNDRED as nat),
        if period_ended(o.base_account, current_time) {
            holds_largest(f.base_account.topten_plat_vlus@, Multiset::empty(), TOP_TEN as nat)
        } else {
            holds_largest(
                f.base_account.topten_plat_vlus@,
                plat_history.insert(amount),
                TOP_TEN as nat,
            )
        },
{
    lemma_board_holds_largest(o.camp_account.topten_camp_vlus@, camp_history, TOP_TEN as nat, amount);
    lemma_board_holds_largest(o.top_sto.top_100_values@, top_history, TOP_HUNDRED as nat, amount);
    if period_ended(o.base_account, current_time) {
        crate::top::lemma_empty_board_holds_largest(TOP_TEN as nat);
    } else {
        lemma_board_holds_largest(o.base_account.topten_plat_vlus@, plat_history, TOP_TEN as nat, amount);
    }
}

/// Law of the board entries under donations: if every entry of the campaign
/// board and of the platform-wide board pairs an address with an amount it
/// donated (one of `camp_donations`, `top_donations`), then after an accepted
/// donation this still holds, the new donation counted among them.
pub proof fn lemma_donation_keeps_board_entries(
    o: DoDonation,
    f: DoDonation,
    out: DonationOutcome,
    referrer: Pubkey,
    bump: u8,
    amount: u64,
    current_time: i64,
    camp_donations: Set<(Pubkey, u64)>,
    top_donations: Set<(Pubkey, u64)>,
)
    requires
        donation_accepted(o, f, out, referrer, bump, amount, current_time),
        o.camp_account.wf(),
        o.top_sto.wf(),
        entries_recorded(o.camp_account.topten_camp_vlus@, o.camp_account.topten_camp_adrs@, camp_donations),
        entries_recorded(o.top_sto.top_100_values@, o.top_sto.top_100_addresses@, top_donations),
    ensures
        entries_recorded(
            f.camp_account.topten_camp_vlus@,
            f.camp_account.topten_camp_adrs@,
            camp_donations.insert((o.donator, amount)),
        ),
        entries_recorded(
            f.top_sto.top_100_values@,
            f.top_sto.top_100_addresses@,
            top_donations.insert((o.donator, amount)),
        ),
{
    lemma_board_entries_recorded(
        o.camp_account.topten_camp_vlus@,
        o.camp_account.topten_camp_adrs@,
        camp_donations,
        TOP_TEN as nat,
        amount,
        o.donator,
    );
    lemma_board_entries_recorded(
        o.top_sto.top_100_values@,
        o.top_sto.top_100_addresses@,
        top_donations,
        TOP_HUNDRED as nat,
        amount,
        o.donator,
    );
}

/// Law of the lamports of a donation: the commission only moves between the
/// donator and the commission bank, and once the runtime has carried out the
/// requested transfer the donator has paid exactly the amount plus the
/// commission due.
pub proof fn lemma_donation_payment(
    o: DoDonation,
    f: DoDonation,
    out: DonationOutcome,
    referrer: Pubkey,
    bump: u8,
    amount: u64,
    current_time: i64,
)
    requires
        donation_accepted(o, f, out, referrer, bump, amount, current_time),
    ensures
        f.donator_lamports + f.commission_bank_lamports == o.donator_lamports
            + o.commission_bank_lamports,
        out.transfer.from == o.donator,
        out.transfer.lamports <= f.donator_lamports,
        f.donator_lamports - out.transfer.lamports == o.donator_lamports - amount - commission_due(
            o.base_account,
            o.camp_account,
        ),
{
}

/// Law of the campaign life cycle under donations: an accepted donation
/// leaves the campaign active, an exempt campaign stays exempt, and an exempt
/// campaign pays no commission from then on.
pub proof fn lemma_donation_life_cycle(
    o: DoDonation,
    f: DoDonation,
    out: DonationOutcome,
    referrer: Pubkey,
    bump: u8,
    amount: u64,
    current_time: i64,
)
    requires
        donation_accepted(o, f, out, referrer, bump, amount, current_time),
    ensures
        o.camp_account.is_active && f.camp_account.is_active,
        o.camp_account.commission_exempt ==> f.camp_account.commission_exempt,
        f.camp_account.commission_exempt ==> commission_due(f.base_account, f.camp_account) == 0,
{
}

/// Law of the campaign life cycle under token donations: a token donation
/// never reactivates a campaign, never changes its exemption, and finishes it
/// once its tokens reach the closing limit.
pub proof fn lemma_token_donation_life_cycle(
    o: ChrtTokenDonation,
    f: ChrtTokenDonation,
    mint: TokenMint,
    mint_bump: u8,
    amount: u64,
)
    requires
        chrt_accepted(o, f, mint, mint_bump, amount),
    ensures
        f.camp_account.is_active ==> o.camp_account.is_active,
        f.camp_account.commission_exempt == o.camp_account.commission_exempt,
        f.camp_account.chrt_token_recieved >= o.base_account.lim_chrt_camp_close
            ==> !f.camp_account.is_active,
{
}

/// Law of the reward period: a donation that arrives when the period has
/// ended (at or after `end_of_period`) starts the next period at its own
/// time, so the next period ends `period_n` after the rewarding donation;
/// any other donation leaves the end of the period as it was. The rewarded
/// leaders get one mint of `encrg_chrt` tokens each, after the gift to the
/// referrer.
pub proof fn lemma_donation_reward_period(
    o: DoDonation,
    f: DoDonation,
    out: DonationOutcome,
    referrer: Pubkey,
    bump: u8,
    amount: u64,
    current_time: i64,
)
    requires
        donation_in_range(o, amount, current_time),
        donation_accepted(o, f, out, referrer, bump, amount, current_time),
    ensures
        current_time >= o.base_account.end_of_period ==> {
            &&& f.base_account.end_of_period == current_time + o.base_account.period_n
            &&& f.base_account.topten_plat_vlus@.len() == 0
            &&& f.base_account.topten_plat_adrs@.len() == 0
            &&& out.rewards_event is Some
            &&& out.mints@.len() == 1 + out.rewards_event->0.top_addresses@.len()
        },
        current_time < o.base_account.end_of_period ==> {
            &&& f.base_account.end_of_period == o.base_account.end_of_period
            &&& out.rewards_event is None
            &&& out.mints@.len() == 1
        },
        out.mints@[0].to == o.receiver,
        out.mints@[0].amount == amount * 101,
        forall|k: int| 0 <= k < out.mints@.len() ==> #[trigger] out.mints@[k].bump == bump,
        forall|k: int|
            1 <= k < out.mints@.len() ==> #[trigger] out.mints@[k].amount
                == o.base_account.encrg_chrt && out.mints@[k].to == o.destination,
{
}

/// Law of the donation totals: every accepted donation adds its amount to
/// both the campaign's and the platform's portions, whether or not the
/// campaign pays commission; so the platform's portion outside this campaign
/// is unchanged.
pub proof fn lemma_donation_portions(
    o: DoDonation,
    f: DoDonation,
    out: DonationOutcome,
    referrer: Pubkey,
    bump: u8,
    amount: u64,
    current_time: i64,
)
    requires
        donation_accepted(o, f, out, referrer, bump, amount, current_time),
    ensures
        f.camp_account.camp_portion == o.camp_account.camp_portion + amount,
        f.base_account.plat_portion == o.base_account.plat_portion + amount,
        f.base_account.plat_portion - f.camp_account.camp_portion == o.base_account.plat_portion
            - o.camp_account.camp_portion,
        f.camp_account.don_number == o.camp_account.don_number + 1,
        out.transfer.lamports == amount,
        out.donation_event.amount == amount,
{
}

/// Law of the board pairing under donations: every board (the campaign's,
/// the platform's and the platform-wide one) either stays exactly as it was
/// or takes the donation in as its last entry, paired with the donator; and
/// if every entry of the platform board paired an address with an amount it
/// donated, this still holds after the donation, the new donation counted.
pub proof fn lemma_donation_boards_pair_donator(
    o: DoDonation,
    f: DoDonation,
    out: DonationOutcome,
    referrer: Pubkey,
    bump: u8,
    amount: u64,
    current_time: i64,
    plat_donations: Set<(Pubkey, u64)>,
)
    requires
        donation_accepted(o, f, out, referrer, bump, amount, current_time),
        o.camp_account.wf(),
        o.base_account.wf(),
        o.top_sto.wf(),
        entries_recorded(o.base_account.topten_plat_vlus@, o.base_account.topten_plat_adrs@, plat_donations),
    ensures
        ({
            let ov = o.camp_account.topten_camp_vlus@;
            let oa = o.camp_account.topten_camp_adrs@;
            let nv = f.camp_account.topten_camp_vlus@;
            let na = f.camp_account.topten_camp_adrs@;
            (nv == ov && na == oa) || (nv.len() > 0 && nv.len() == na.len() && nv.last() == amount
                && na.last() == o.donator)
        }),
        ({
            let ov = o.top_sto.top_100_values@;
            let oa = o.top_sto.top_100_addresses@;
            let nv = f.top_sto.top_100_values@;
            let na = f.top_sto.top_100_addresses@;
            (nv == ov && na == oa) || (nv.len() > 0 && nv.len() == na.len() && nv.last() == amount
                && na.last() == o.donator)
        }),
        current_time < o.base_account.end_of_period ==> ({
            let ov = o.base_account.topten_plat_vlus@;
            let oa = o.base_account.topten_plat_adrs@;
            let nv = f.base_account.topten_plat_vlus@;
            let na = f.base_account.topten_plat_adrs@;
            (nv == ov && na == oa) || (nv.len() > 0 && nv.len() == na.len() && nv.last() == amount
                && na.last() == o.donator)
        }),
        entries_recorded(
            f.base_account.topten_plat_vlus@,
            f.base_account.topten_plat_adrs@,
            plat_donations.insert((o.donator, amount)),
        ),
        current_time >= o.base_account.end_of_period ==> entries_recorded(
            out.rewards_event->0.top_values@,
            out.rewards_event->0.top_addresses@,
            plat_donations.insert((o.donator, amount)),
        ),
{
    lemma_board_takes_donation_last(
        o.camp_account.topten_camp_vlus@,
        o.camp_account.topten_camp_adrs@,
        TOP_TEN as nat,
        amount,
        o.donator,
    );
    lemma_board_takes_donation_last(
        o.top_sto.top_100_values@,
        o.top_sto.top_100_addresses@,
        TOP_HUNDRED as nat,
        amount,
        o.donator,
    );
    lemma_board_takes_donation_last(
        o.base_account.topten_plat_vlus@,
        o.base_account.topten_plat_adrs@,
        TOP_TEN as nat,
        amount,
        o.donator,
    );
    lemma_board_entries_recorded(
        o.base_account.topten_plat_vlus@,
        o.base_account.topten_plat_adrs@,
        plat_donations,
        TOP_TEN as nat,
        amount,
        o.donator,
    );
}

/// Law of token donations: an accepted token donation mints exactly the
/// donated amount, to the destination, signed with the given bump, and the
/// campaign's token count grows by exactly what was minted.
pub proof fn lemma_token_donation_mints_amount(
    o: ChrtTokenDonation,
    f: ChrtTokenDonation,
    mint: TokenMint,
    mint_bump: u8,
    amount: u64,
)
    requires
        chrt_accepted(o, f, mint, mint_bump, amount),
    ensures
        mint.amount == amount,
        mint.to == o.destination,
        mint.bump == mint_bump,
        f.camp_account.chrt_token_recieved == o.camp_account.chrt_token_recieved + mint.amount,
{
}

/// Law of commission withdrawals: a withdrawal succeeds exactly when the
/// commission bank holds more than the rent-exempt reserve; it then pays the
/// destination everything above the reserve and leaves that amount as the
/// bank's balance; otherwise nothing changes.
pub proof fn lemma_commission_withdrawal(
    o: CommissionWithdrawal,
    f: CommissionWithdrawal,
    res: Result<(), DonationError>,
    rent_exempt_amount: u64,
)
    requires
        withdrawal_done(o, f, res, rent_exempt_amount),
    ensures
        res is Ok <==> o.commission_bank_lamports > rent_exempt_amount,
        res is Ok ==> {
            &&& f.destination_lamports == o.destination_lamports + o.commission_bank_lamports
                - rent_exempt_amount
            &&& f.commission_bank_lamports == o.commission_bank_lamports - rent_exempt_amount
        },
        res is Err ==> f == o && res == Err::<(), DonationError>(DonationError::NoFundsForWithdrawal),
{
}

/// Law of donation refusals: a donation is refused with `CampaignFinished`
/// exactly when the campaign is finished, with `InvalidAmount` exactly when
/// the campaign is active and the amount is zero, with
/// `InsufficientFundsForTransaction` exactly when the donator cannot pay the
/// amount plus the commission (none for an exempt campaign); it is accepted
/// in every other case, and a refusal changes nothing.
pub proof fn lemma_donation_refusals(
    o: DoDonation,
    f: DoDonation,
    res: Result<DonationOutcome, DonationError>,
    referrer: Pubkey,
    bump: u8,
    amount: u64,
    current_time: i64,
)
    requires
        donation_result(o, f, res, referrer, bump, amount, current_time),
    ensures
        ({
            let fee: int = if o.camp_account.commission_exempt {
                0
            } else {
                o.base_account.commission as int
            };
            &&& (res == Err::<DonationOutcome, DonationError>(DonationError::CampaignFinished))
                <==> !o.camp_account.is_active
            &&& (res == Err::<DonationOutcome, DonationError>(DonationError::InvalidAmount)) <==> (
            o.camp_account.is_active && amount == 0)
            &&& (res == Err::<DonationOutcome, DonationError>(
                DonationError::InsufficientFundsForTransaction,
            )) <==> (o.camp_account.is_active && amount > 0 && o.donator_lamports < amount + fee)
            &&& res is Ok <==> (o.camp_account.is_active && amount > 0 && o.donator_lamports
                >= amount + fee)
            &&& res is Err ==> f == o
        }),
{
}

/// Law of the commission: an accepted donation to a campaign that is not
/// exempt moves exactly the platform's commission from the donator to the
/// commission bank and counts one more commissioned donation; the campaign
/// becomes exempt once its commissioned donations times the commission reach
/// the exemption limit; a donation to an exempt campaign moves nothing and
/// counts no commission. The platform's settings stay as they were.
pub proof fn lemma_donation_commission(
    o: DoDonation,
    f: DoDonation,
    out: DonationOutcome,
    referrer: Pubkey,
    bump: u8,
    amount: u64,
    current_time: i64,
)
    requires
        donation_accepted(o, f, out, referrer, bump, amount, current_time),
    ensures
        !o.camp_account.commission_exempt ==> {
            &&& f.donator_lamports == o.donator_lamports - o.base_account.commission
            &&& f.commission_bank_lamports == o.commission_bank_lamports + o.base_account.commission
            &&& f.camp_account.com_number == o.camp_account.com_number + 1
            &&& f.camp_account.commission_exempt == ((o.camp_account.com_number + 1)
                * o.base_account.commission >= o.base_account.lim_chrt_comm_exempt)
        },
        o.camp_account.commission_exempt ==> {
            &&& f.donator_lamports == o.donator_lamports
            &&& f.commission_bank_lamports == o.commission_bank_lamports
            &&& f.camp_account.com_number == o.camp_account.com_number
            &&& f.camp_account.commission_exempt
        },
        f.camp_account.campaign_owner == o.camp_account.campaign_owner,
        f.camp_account.chrt_token_recieved == o.camp_account.chrt_token_recieved,
        f.base_account.commission == o.base_account.commission,
        f.base_account.lim_chrt_comm_exempt == o.base_account.lim_chrt_comm_exempt,
        f.base_account.period_n == o.base_account.period_n,
        f.base_account.encrg_chrt == o.base_account.encrg_chrt,
        f.base_account.platform_owner == o.base_account.platform_owner,
{
}

/// Law of the donation history: an accepted donation appends its campaign,
/// its donator and its referrer to the donator's history, adds its amount to
/// the history's total (which stops at the largest `u64`), and the event
/// names the donation bank, the donator, the referrer and the amount.
pub proof fn lemma_donation_history(
    o: DoDonation,
    f: DoDonation,
    out: DonationOutcome,
    referrer: Pubkey,
    bump: u8,
    amount: u64,
    current_time: i64,
)
    requires
        donation_accepted(o, f, out, referrer, bump, amount, current_time),
    ensures
        f.donation_data.donation_camp@.len() == o.donation_data.donation_camp@.len() + 1,
        f.donation_data.donation_camp@.last() == o.camp_account_key,
        f.donation_data.donation_camp@.drop_last() == o.donation_data.donation_camp@,
        f.donation_data.donator@.last() == o.donator,
        f.donation_data.donator@.drop_last() == o.donation_data.donator@,
        f.donation_data.referrer@.last() == referrer,
        f.donation_data.referrer@.drop_last() == o.donation_data.referrer@,
        o.donation_data.amount + amount <= u64::MAX ==> f.donation_data.amount
            == o.donation_data.amount + amount,
        o.donation_data.amount + amount > u64::MAX ==> f.donation_data.amount == u64::MAX,
        out.donation_event.donation_bank == o.donation_bank,
        out.donation_event.donator == o.donator,
        out.donation_event.referrer == referrer,
        out.donation_event.amount == amount,
        out.transfer.to == o.donation_bank,
{
}

/// Law of token donations, refusal and closing: a token donation is refused
/// exactly when the campaign is finished, and then nothing changes; an
/// accepted one leaves the campaign active exactly when its token count,
/// with the donation added, stays below the platform's closing limit, and
/// leaves the platform as it was.
pub proof fn lemma_token_donation_result(
    o: ChrtTokenDonation,
    f: ChrtTokenDonation,
    res: Result<TokenMint, DonationError>,
    mint_bump: u8,
    amount: u64,
)
    requires
        chrt_result(o, f, res, mint_bump, amount),
    ensures
        res is Err <==> !o.camp_account.is_active,
        res is Err ==> f == o && res == Err::<TokenMint, DonationError>(
            DonationError::CampaignFinished,
        ),
        res is Ok ==> {
            &&& f.camp_account.is_active == (o.camp_account.chrt_token_recieved + amount
                < o.base_account.lim_chrt_camp_close)
            &&& f.camp_account.chrt_token_recieved == o.camp_account.chrt_token_recieved + amount
            &&& f.camp_account.commission_exempt == o.camp_account.commission_exempt
            &&& f.camp_account.camp_portion == o.camp_account.camp_portion
            &&& f.base_account == o.base_account
        },
{
}

/// Law of closing a campaign: a campaign that holds the whole platform
/// portion pays out the donation bank's balance above the rent-exempt
/// reserve (nothing if the bank holds no more than the reserve); a campaign
/// that holds only part of it pays out nothing. The payout is added to the
/// destination, becomes the bank's balance and is the event's amount; the
/// campaign's portion leaves the platform's and one more campaign counts as
/// finished.
pub proof fn lemma_close_campaign_payout(
    o: CloseCampaign,
    f: CloseCampaign,
    event: CloseCampaignEvent,
    rent_exempt_amount: u64,
)
    requires
        close_in_range(o, rent_exempt_amount),
        campaign_closed(o, f, event, rent_exempt_amount),
    ensures
        o.camp_account.camp_portion == o.base_account.plat_portion ==> f.donation_bank_lamports
            == if o.donation_bank_lamports > rent_exempt_amount {
            o.donation_bank_lamports - rent_exempt_amount
        } else {
            0
        },
        o.camp_account.camp_portion < o.base_account.plat_portion ==> f.donation_bank_lamports
            == 0,
        f.destination_lamports == o.destination_lamports + f.donation_bank_lamports,
        event.amount == f.donation_bank_lamports,
        event.donation_bank == o.donation_bank,
        event.destination == o.destination,
        f.base_account.plat_portion + o.camp_account.camp_portion == o.base_account.plat_portion,
        f.base_account.finished_camp_numbers == o.base_account.finished_camp_numbers + 1,
        f.camp_account == o.camp_account,
{
    let p = o.base_account.plat_portion;
    let c = o.camp_account.camp_portion;
    if c == p {
        assert(c / p == 1) by (nonlinear_arith)
            requires
                c == p,
                p > 0,
        ;
    } else {
        assert(c / p == 0) by (nonlinear_arith)
            requires
                c < p,
                p > 0,
        ;
    }
}

} // verus!
