use vstd::prelude::*;

use crate::errors::GigContractError;
use crate::instructions::accept_contract_on_buyer::{accept_contract_outcome, acceptance_transfers, payable_method};
use crate::instructions::activate_contract::activate_contract_outcome;
use crate::instructions::admin_withdraw_funds::admin_withdraw_funds_outcome;
use crate::instructions::job_listing_with_feature_employer::{featured_listing_fee, job_listing_outcome, listing_transfers};
use crate::instructions::pay_worked_hour::{pay_worked_hour_outcome, week_pay};
use crate::instructions::resume_hourly_contract::resume_hourly_contract_outcome;
use crate::instructions::seller_approve_hourly_contract::{
    seller_approve_hourly_outcome, release_transfers, released_balance, release_fits, seller_share, referral_share,
    admin_share, lemma_shares_fit,
};
use crate::instructions::update_worked_hour::update_worked_hour_outcome;
use crate::keys::Pubkey;
use crate::state::{Contract, ContractStatus, HourlyContract, HourlyContractStatus, JobContract};
use crate::transfer::{Endpoint, Transfer, all_from, total_moved, token_move};

verus! {

/// The total moved by two sequences of transfers one after the other is the
/// sum of their totals.
pub proof fn lemma_total_moved_concat(a: Seq<Transfer>, b: Seq<Transfer>)
    ensures
        total_moved(a + b) == total_moved(a) + total_moved(b),
    decreases b.len(),
{
    if b.len() == 0 {
        assert(a + b =~= a);
    } else {
        lemma_total_moved_concat(a, b.drop_last());
        assert((a + b).drop_last() =~= a + b.drop_last());
    }
}

/// A single transfer moves its amount.
pub proof fn lemma_total_moved_single(t: Transfer)
    ensures
        total_moved(seq![t]) == t.amount,
{
    assert(seq![t].drop_last() =~= Seq::<Transfer>::empty());
    assert(total_moved(Seq::<Transfer>::empty()) == 0);
    assert(seq![t].last() == t);
}

/// All transfers of a concatenation draw from `from` when those of both parts do.
pub proof fn lemma_all_from_concat(a: Seq<Transfer>, b: Seq<Transfer>, from: Endpoint)
    requires
        all_from(a, from),
        all_from(b, from),
    ensures
        all_from(a + b, from),
{
    assert forall|i: int| 0 <= i < (a + b).len() implies (#[trigger] (a + b)[i]).from == from by {
        if i < a.len() {
            assert((a + b)[i] == a[i]);
        } else {
            assert((a + b)[i] == b[i - a.len()]);
        }
    }
}

/// The contract once the seller has reported `hours` for the week.
pub open spec fn after_report(c: HourlyContract, hours: u32) -> HourlyContract {
    HourlyContract { status: HourlyContractStatus::ReadyToPay, week_worked_hour: hours, ..c }
}

/// The contract once the buyer has paid the `hours` reported for the week.
pub open spec fn after_payment(c: HourlyContract, hours: u32) -> HourlyContract {
    HourlyContract {
        status: HourlyContractStatus::Paid,
        total_worked_hour: (c.total_worked_hour + hours) as u32,
        week_worked_hour: 0,
        ..c
    }
}

/// The contract once a week of `hours` has been reported, paid and approved.
pub open spec fn after_week(c: HourlyContract, hours: u32) -> HourlyContract {
    HourlyContract {
        total_worked_hour: (c.total_worked_hour + hours) as u32,
        week_worked_hour: 0,
        seller_approved: true,
        ..c
    }
}

/// The payment of `hours` at the contract's rate into escrow.
pub open spec fn week_payment(c: HourlyContract, hours: u32) -> Seq<Transfer> {
    seq![token_move(Endpoint::BuyerAta, Endpoint::ContractAta, hours * c.hourly_rate * 1_000_000)]
}

/// Whether an approval outcome leaves the contract as `expected`.
pub open spec fn approves_to(
    r: Result<(HourlyContract, Seq<Transfer>), GigContractError>,
    expected: HourlyContract,
) -> bool {
    r matches Ok((after, _)) && after == expected
}

/// A week of an hourly contract goes round: the seller reports `hours` within
/// the weekly limit, the buyer pays exactly the hours times the rate, and the
/// seller approves; the contract is active again, the hours are added to the
/// total, the week starts from zero and the seller has approved.
pub proof fn law_weekly_payment_cycle(c: HourlyContract, hours: u32, mint: Seq<u8>, contract_ata_amount: u64)
    requires
        c.status == HourlyContractStatus::Active,
        !c.paused,
        hours <= c.weekly_hours_limit,
        c.total_worked_hour + hours <= u32::MAX,
        hours * c.hourly_rate * 1_000_000 <= u64::MAX,
    ensures
        update_worked_hour_outcome(c, c.seller@, hours) == Ok::<HourlyContract, GigContractError>(after_report(c, hours)),
        pay_worked_hour_outcome(after_report(c, hours), c.buyer@, (hours * c.hourly_rate * 1_000_000) as u64)
            == Ok::<(HourlyContract, Seq<Transfer>), GigContractError>((after_payment(c, hours), week_payment(c, hours))),
        approves_to(
            seller_approve_hourly_outcome(after_payment(c, hours), mint, mint, c.seller@, contract_ata_amount),
            after_week(c, hours),
        ),
{
    assert(after_week(c, hours) == HourlyContract {
        status: HourlyContractStatus::Active,
        seller_approved: true,
        ..after_payment(c, hours)
    });
}

/// Whether an approval either is refused or pays out, all from the contract's
/// token account, the seller's 90% and the platform's 10% of `total_balance`
/// (each rounded down), which together are at most `total_balance`.
pub open spec fn release_is_bounded(
    r: Result<(HourlyContract, Seq<Transfer>), GigContractError>,
    total_balance: int,
) -> bool {
    r matches Ok((_, ts)) ==> {
        &&& all_from(ts, Endpoint::ContractAta)
        &&& total_moved(ts) == seller_share(total_balance) + total_balance * 10 / 100
        &&& total_moved(ts) <= total_balance
    }
}

/// Releasing a week's payment never pays out more than the escrow holds beyond
/// the two dispute deposits: every payout comes from the contract's token
/// account, and together they are the seller's 90% plus the platform's 10%
/// (rounded down each), which is at most the released balance.
pub proof fn law_release_keeps_deposits(
    c: HourlyContract,
    pay_token_mint: Seq<u8>,
    expected_mint: Seq<u8>,
    seller: Seq<u8>,
    contract_ata_amount: u64,
)
    requires
        release_fits(c, contract_ata_amount),
    ensures
        release_is_bounded(
            seller_approve_hourly_outcome(c, pay_token_mint, expected_mint, seller, contract_ata_amount),
            released_balance(c, contract_ata_amount),
        ),
{
    if seller_approve_hourly_outcome(c, pay_token_mint, expected_mint, seller, contract_ata_amount) is Ok {
        let tb = released_balance(c, contract_ata_amount);
        let br = c.buyer_referral@ != crate::keys::spec_no_referral();
        let sr = c.seller_referral@ != crate::keys::spec_no_referral();
        lemma_shares_fit(tb);
        let s0 = seq![token_move(Endpoint::ContractAta, Endpoint::SellerAta, seller_share(tb))];
        let s1: Seq<Transfer> = if br {
            seq![token_move(Endpoint::ContractAta, Endpoint::BuyerReferralAta, referral_share(tb))]
        } else {
            Seq::empty()
        };
        let s2: Seq<Transfer> = if sr {
            seq![token_move(Endpoint::ContractAta, Endpoint::SellerReferralAta, referral_share(tb))]
        } else {
            Seq::empty()
        };
        let s3 = seq![token_move(Endpoint::ContractAta, Endpoint::AdminAta, admin_share(tb, br, sr))];
        assert(release_transfers(tb, br, sr) == s0 + s1 + s2 + s3);
        lemma_total_moved_single(s0[0]);
        lemma_total_moved_single(s3[0]);
        if br {
            lemma_total_moved_single(s1[0]);
        }
        if sr {
            lemma_total_moved_single(s2[0]);
        }
        lemma_total_moved_concat(s0, s1);
        lemma_total_moved_concat(s0 + s1, s2);
        lemma_total_moved_concat(s0 + s1 + s2, s3);
        lemma_all_from_concat(s0, s1, Endpoint::ContractAta);
        lemma_all_from_concat(s0 + s1, s2, Endpoint::ContractAta);
        lemma_all_from_concat(s0 + s1 + s2, s3, Endpoint::ContractAta);
    }
}

/// Listing a featured job costs exactly the fee for its length, all of it paid
/// from the employer's token account, however it is shared with a referral.
pub proof fn law_listing_pays_exact_fee(
    job: JobContract,
    contract_id: String,
    featured_day: u8,
    employer_referral: Option<Pubkey>,
    excluded_referral: Seq<u8>,
)
    ensures
        job_listing_outcome(job, contract_id, featured_day, employer_referral, excluded_referral) matches Ok((_, ts))
            ==> {
            &&& featured_listing_fee(featured_day) matches Some(fee)
            &&& total_moved(ts) == fee
            &&& all_from(ts, Endpoint::EmployerAta)
        },
{
    if let Some(fee) = featured_listing_fee(featured_day) {
        let a = token_move(Endpoint::EmployerAta, Endpoint::EmployerReferralAta, fee * 10 / 100);
        let b = token_move(Endpoint::EmployerAta, Endpoint::ContractAta, fee * 90 / 100);
        let whole = token_move(Endpoint::EmployerAta, Endpoint::ContractAta, fee as int);
        lemma_total_moved_single(a);
        lemma_total_moved_single(b);
        lemma_total_moved_single(whole);
        lemma_total_moved_concat(seq![a], seq![b]);
        assert(seq![a] + seq![b] =~= listing_transfers(fee, true));
        assert(seq![whole] =~= listing_transfers(fee, false));
    }
}

/// An ended hourly contract refuses every weekly operation: reporting hours,
/// paying, approving and resuming.
pub proof fn law_ended_refuses(
    c: HourlyContract,
    party: Seq<u8>,
    hours: u32,
    amount: u64,
    pay_token_mint: Seq<u8>,
    expected_mint: Seq<u8>,
    contract_ata_amount: u64,
)
    requires
        c.status == HourlyContractStatus::Ended,
    ensures
        update_worked_hour_outcome(c, party, hours) is Err,
        pay_worked_hour_outcome(c, party, amount) is Err,
        seller_approve_hourly_outcome(c, pay_token_mint, expected_mint, party, contract_ata_amount) is Err,
        resume_hourly_contract_outcome(c, party) is Err,
{
}

/// Only the contract's parties move an hourly contract on: reporting hours and
/// approving take the seller, paying and resuming take the buyer.
pub proof fn law_hourly_parties(
    c: HourlyContract,
    signer: Seq<u8>,
    hours: u32,
    amount: u64,
    pay_token_mint: Seq<u8>,
    expected_mint: Seq<u8>,
    contract_ata_amount: u64,
)
    ensures
        update_worked_hour_outcome(c, signer, hours) is Ok ==> signer == c.seller@,
        seller_approve_hourly_outcome(c, pay_token_mint, expected_mint, signer, contract_ata_amount) is Ok ==> signer
            == c.seller@,
        pay_worked_hour_outcome(c, signer, amount) is Ok ==> signer == c.buyer@,
        resume_hourly_contract_outcome(c, signer) is Ok ==> signer == c.buyer@,
{
}

/// Only the contract's parties move a fixed-price contract on: accepting takes
/// the buyer, activating takes the seller; and only the admin withdraws.
pub proof fn law_fixed_parties(
    c: Contract,
    signer: Seq<u8>,
    referral: Option<Pubkey>,
    with_dispute: bool,
    admin_address: Seq<u8>,
    amount: u64,
    contract_type: u8,
    contract_lamports: u64,
    job_contract_lamports: u64,
)
    ensures
        accept_contract_outcome(c, signer, referral) is Ok ==> signer == c.buyer@,
        activate_contract_outcome(c, signer, referral, with_dispute) is Ok ==> signer == c.seller@,
        admin_withdraw_funds_outcome(admin_address, amount, signer, contract_type, contract_lamports, job_contract_lamports)
            is Ok ==> signer == admin_address,
{
}

/// An admin withdrawal never takes more lamports than the account it draws
/// from holds.
pub proof fn law_withdrawal_within_balance(
    admin_address: Seq<u8>,
    amount: u64,
    withdrawer_address: Seq<u8>,
    contract_type: u8,
    contract_lamports: u64,
    job_contract_lamports: u64,
)
    ensures
        admin_withdraw_funds_outcome(admin_address, amount, withdrawer_address, contract_type, contract_lamports, job_contract_lamports)
            matches Ok(t) ==> {
            &&& t.amount == amount
            &&& t.from == Endpoint::ContractAccount ==> t.amount <= contract_lamports
            &&& t.from == Endpoint::JobContractAccount ==> t.amount <= job_contract_lamports
            &&& (t.from == Endpoint::ContractAccount || t.from == Endpoint::JobContractAccount)
        },
{
}

/// The reported hours of a week never exceed the weekly limit: reporting,
/// paying, approving and resuming all keep that true.
pub proof fn law_week_within_limit(
    c: HourlyContract,
    signer: Seq<u8>,
    hours: u32,
    amount: u64,
    pay_token_mint: Seq<u8>,
    expected_mint: Seq<u8>,
    contract_ata_amount: u64,
)
    requires
        c.week_worked_hour <= c.weekly_hours_limit,
    ensures
        update_worked_hour_outcome(c, signer, hours) matches Ok(n) ==> n.week_worked_hour <= n.weekly_hours_limit,
        pay_worked_hour_outcome(c, signer, amount) matches Ok((n, _)) ==> n.week_worked_hour <= n.weekly_hours_limit,
        seller_approve_hourly_outcome(c, pay_token_mint, expected_mint, signer, contract_ata_amount) matches Ok((n, _))
            ==> n.week_worked_hour <= n.weekly_hours_limit,
        resume_hourly_contract_outcome(c, signer) matches Ok(n) ==> n.week_worked_hour <= n.weekly_hours_limit,
{
}

/// Paying a week moves exactly the week's pay from the buyer into escrow and
/// adds the week's hours to the total.
pub proof fn law_payment_is_week_pay(c: HourlyContract, buyer: Seq<u8>, amount: u64)
    requires
        c.total_worked_hour + c.week_worked_hour <= u32::MAX,
    ensures
        pay_worked_hour_outcome(c, buyer, amount) matches Ok((n, ts)) ==> {
            &&& total_moved(ts) == week_pay(c)
            &&& all_from(ts, Endpoint::BuyerAta)
            &&& n.total_worked_hour == c.total_worked_hour + c.week_worked_hour
            &&& n.week_worked_hour == 0
        },
{
    lemma_total_moved_single(token_move(Endpoint::BuyerAta, Endpoint::ContractAta, amount as int));
}

/// A contract is accepted only with its deposit: accepting escrows exactly its
/// price plus the dispute fee, from the buyer, and a contract whose payment
/// method takes no deposit is refused and stays as it was.
pub proof fn law_acceptance_deposits_price_and_fee(c: Contract, buyer: Seq<u8>, referral: Option<Pubkey>)
    requires
        c.amount + c.dispute <= u64::MAX,
    ensures
        accept_contract_outcome(c, buyer, referral) matches Ok((_, ts)) ==> ts.len() == 1 && total_moved(ts)
            == c.amount + c.dispute,
        !payable_method(c) ==> accept_contract_outcome(c, buyer, referral) is Err,
{
    if payable_method(c) {
        let ts = acceptance_transfers(c);
        lemma_total_moved_single(ts[0]);
        assert(ts =~= seq![ts[0]]);
    }
}

/// Each operation moves a contract along one edge of its lifecycle: an hourly
/// contract goes from active to ready-to-pay when hours are reported, to paid
/// when they are paid, and back to active when the seller approves, while
/// resuming keeps its status; a fixed-price contract goes from created to
/// accepted, and from created or accepted to active.
pub proof fn law_status_moves(
    h: HourlyContract,
    c: Contract,
    signer: Seq<u8>,
    hours: u32,
    amount: u64,
    pay_token_mint: Seq<u8>,
    expected_mint: Seq<u8>,
    contract_ata_amount: u64,
    referral: Option<Pubkey>,
    with_dispute: bool,
)
    ensures
        update_worked_hour_outcome(h, signer, hours) matches Ok(n) ==> h.status == HourlyContractStatus::Active
            && n.status == HourlyContractStatus::ReadyToPay,
        pay_worked_hour_outcome(h, signer, amount) matches Ok((n, _)) ==> h.status == HourlyContractStatus::ReadyToPay
            && n.status == HourlyContractStatus::Paid,
        seller_approve_hourly_outcome(h, pay_token_mint, expected_mint, signer, contract_ata_amount) matches Ok((n, _))
            ==> h.status == HourlyContractStatus::Paid && n.status == HourlyContractStatus::Active,
        resume_hourly_contract_outcome(h, signer) matches Ok(n) ==> n.status == h.status && !n.paused,
        accept_contract_outcome(c, signer, referral) matches Ok((n, _)) ==> c.status == ContractStatus::Created
            && n.status == ContractStatus::Accepted,
        activate_contract_outcome(c, signer, referral, with_dispute) matches Ok((n, _)) ==> (c.status
            == ContractStatus::Created || c.status == ContractStatus::Accepted) && n.status == ContractStatus::Active,
{
}

} // verus!
