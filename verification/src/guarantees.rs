use vstd::prelude::*;

use crate::errors::GigContractError;
use crate::instructions::accept_contract_on_buyer::accept_contract_outcome;
use crate::instructions::activate_contract::activate_contract_outcome;
use crate::instructions::admin_withdraw_funds::admin_withdraw_funds_outcome;
use crate::instructions::job_listing_with_feature_employer::job_listing_outcome;
use crate::instructions::pay_worked_hour::pay_worked_hour_outcome;
use crate::instructions::resume_hourly_contract::resume_hourly_contract_outcome;
use crate::instructions::seller_approve_hourly_contract::{lemma_shares_fit, release_fits, seller_approve_hourly_outcome};
use crate::instructions::start_hourly_contract_on_buyer::{opened_hourly_contract, start_hourly_refusal};
use crate::instructions::update_worked_hour::update_worked_hour_outcome;
use crate::keys::{Pubkey, spec_no_referral};
use crate::state::{
    Contract, ContractStatus, HourlyContract, HourlyContractStatus, JobContract, JobContractStatus, spec_sol, spec_usdc,
};
use crate::laws::law_listing_pays_exact_fee;
use crate::transfer::{Asset, Endpoint, Transfer, total_moved};

verus! {

/// Whether some transfer of `ts` pays into `to`.
pub open spec fn pays_into(ts: Seq<Transfer>, to: Endpoint) -> bool {
    exists|i: int| 0 <= i < ts.len() && (#[trigger] ts[i]).to == to
}

/// Whether every transfer of `ts` into `to` moves `amount`.
pub open spec fn pays_into_only(ts: Seq<Transfer>, to: Endpoint, amount: int) -> bool {
    forall|i: int| 0 <= i < ts.len() && (#[trigger] ts[i]).to == to ==> ts[i].amount == amount
}

/// Whether `ts` is the single movement of `amount` of `asset` from `from` to `to`.
pub open spec fn is_single_move(ts: Seq<Transfer>, asset: Asset, from: Endpoint, to: Endpoint, amount: int) -> bool {
    &&& ts.len() == 1
    &&& ts[0].asset == asset
    &&& ts[0].from == from
    &&& ts[0].to == to
    &&& ts[0].amount == amount
}

/// A seller approval succeeds exactly when the mint is the payment mint, the
/// signer is the seller and the week is paid. Then, of the balance `b` left
/// after both dispute deposits, the seller's token account gets `b * 90 / 100`;
/// the buyer's referral gets `b / 100` when, and only when, the buyer's
/// referral is a real address (not the placeholder), and likewise the seller's
/// referral; the admin gets `b * 10 / 100` less what the referrals got. All of
/// it leaves the contract's token account (for escrows that hold both
/// deposits, on which the arithmetic does not overflow), and the contract becomes active
/// and seller-approved with its hours, rate, parties and referrals untouched.
pub proof fn law_release_pays_each_party_its_share(
    c: HourlyContract,
    pay_token_mint: Seq<u8>,
    expected_mint: Seq<u8>,
    seller: Seq<u8>,
    contract_ata_amount: u64,
)
    requires
        release_fits(c, contract_ata_amount),
    ensures
        seller_approve_hourly_outcome(c, pay_token_mint, expected_mint, seller, contract_ata_amount) is Ok <==> (
        pay_token_mint == expected_mint && seller == c.seller@ && c.status == HourlyContractStatus::Paid),
        pay_token_mint != expected_mint ==> seller_approve_hourly_outcome(c, pay_token_mint, expected_mint, seller, contract_ata_amount)
            == Err::<(HourlyContract, Seq<Transfer>), GigContractError>(GigContractError::PayTokenMintError),
        pay_token_mint == expected_mint && seller != c.seller@ ==> seller_approve_hourly_outcome(c, pay_token_mint, expected_mint, seller, contract_ata_amount)
            == Err::<(HourlyContract, Seq<Transfer>), GigContractError>(GigContractError::InvalidSeller),
        pay_token_mint == expected_mint && seller == c.seller@ && c.status != HourlyContractStatus::Paid
            ==> seller_approve_hourly_outcome(c, pay_token_mint, expected_mint, seller, contract_ata_amount)
            == Err::<(HourlyContract, Seq<Transfer>), GigContractError>(GigContractError::HourlyContractNotPaidYet),
        seller_approve_hourly_outcome(c, pay_token_mint, expected_mint, seller, contract_ata_amount) matches Ok((n, ts))
            ==> release_shares_hold(c, n, ts, contract_ata_amount - 2 * c.dispute),
{
    if seller_approve_hourly_outcome(c, pay_token_mint, expected_mint, seller, contract_ata_amount) is Ok {
        let b = contract_ata_amount - 2 * c.dispute;
        let ts = seller_approve_hourly_outcome(c, pay_token_mint, expected_mint, seller, contract_ata_amount)->Ok_0.1;
        let br = c.buyer_referral@ != spec_no_referral();
        let sr = c.seller_referral@ != spec_no_referral();
        lemma_shares_fit(b);
        assert(b * 1 / 100 == b / 100);
        let s = Transfer { asset: Asset::PayToken, from: Endpoint::ContractAta, to: Endpoint::SellerAta, amount: (b * 90 / 100) as u64 };
        let rb = Transfer { asset: Asset::PayToken, from: Endpoint::ContractAta, to: Endpoint::BuyerReferralAta, amount: (b * 1 / 100) as u64 };
        let rs = Transfer { asset: Asset::PayToken, from: Endpoint::ContractAta, to: Endpoint::SellerReferralAta, amount: (b * 1 / 100) as u64 };
        let a = Transfer {
            asset: Asset::PayToken,
            from: Endpoint::ContractAta,
            to: Endpoint::AdminAta,
            amount: (b * 10 / 100 - (if br { b * 1 / 100 } else { 0 }) - (if sr { b * 1 / 100 } else { 0 })) as u64,
        };
        if br && sr {
            assert(ts =~= seq![s, rb, rs, a]);
            assert(ts[1].to == Endpoint::BuyerReferralAta);
            assert(ts[2].to == Endpoint::SellerReferralAta);
        } else if br {
            assert(ts =~= seq![s, rb, a]);
            assert(ts[1].to == Endpoint::BuyerReferralAta);
        } else if sr {
            assert(ts =~= seq![s, rs, a]);
            assert(ts[1].to == Endpoint::SellerReferralAta);
        } else {
            assert(ts =~= seq![s, a]);
        }
        assert(ts[0].to == Endpoint::SellerAta);
        assert(ts[ts.len() - 1].to == Endpoint::AdminAta);
    }
}

/// What a successful release must satisfy, for the contract before (`c`),
/// after (`n`), the payouts `ts` and the released balance `b`.
pub open spec fn release_shares_hold(c: HourlyContract, n: HourlyContract, ts: Seq<Transfer>, b: int) -> bool {
    let br = c.buyer_referral@ != spec_no_referral();
    let sr = c.seller_referral@ != spec_no_referral();
    &&& forall|i: int| 0 <= i < ts.len() ==> (#[trigger] ts[i]).from == Endpoint::ContractAta && ts[i].asset
        == Asset::PayToken
    &&& pays_into(ts, Endpoint::SellerAta) && pays_into_only(ts, Endpoint::SellerAta, b * 90 / 100)
    &&& pays_into(ts, Endpoint::BuyerReferralAta) == br
    &&& pays_into_only(ts, Endpoint::BuyerReferralAta, b / 100)
    &&& pays_into(ts, Endpoint::SellerReferralAta) == sr
    &&& pays_into_only(ts, Endpoint::SellerReferralAta, b / 100)
    &&& pays_into(ts, Endpoint::AdminAta)
    &&& pays_into_only(ts, Endpoint::AdminAta, b * 10 / 100 - (if br { b / 100 } else { 0 }) - (if sr { b / 100 } else { 0 }))
    &&& forall|i: int| 0 <= i < ts.len() ==> (#[trigger] ts[i]).to == Endpoint::SellerAta || ts[i].to
        == Endpoint::BuyerReferralAta || ts[i].to == Endpoint::SellerReferralAta || ts[i].to == Endpoint::AdminAta
    &&& n.status == HourlyContractStatus::Active
    &&& n.seller_approved
    &&& n.buyer == c.buyer && n.seller == c.seller
    &&& n.buyer_referral == c.buyer_referral && n.seller_referral == c.seller_referral
    &&& n.dispute == c.dispute && n.hourly_rate == c.hourly_rate
    &&& n.week_worked_hour == c.week_worked_hour && n.total_worked_hour == c.total_worked_hour
    &&& n.weekly_hours_limit == c.weekly_hours_limit && n.paused == c.paused
}

/// Opening an hourly contract is refused unless the mint is the payment mint
/// and the dispute deposit is exactly 500_000 base units (half a token);
/// with the right mint, any other deposit is refused as an invalid dispute
/// amount.
pub proof fn law_opening_needs_exact_dispute(pay_token_mint: Seq<u8>, expected_mint: Seq<u8>, dispute: u64)
    ensures
        start_hourly_refusal(pay_token_mint, expected_mint, dispute) is None <==> (pay_token_mint == expected_mint
            && dispute == 500_000),
        pay_token_mint == expected_mint && dispute != 500_000 ==> start_hourly_refusal(
            pay_token_mint,
            expected_mint,
            dispute,
        ) == Some(GigContractError::InvalidDisputeAmount),
        pay_token_mint != expected_mint ==> start_hourly_refusal(pay_token_mint, expected_mint, dispute) == Some(
            GigContractError::PayTokenMintError,
        ),
{
}

/// Activation succeeds exactly when the signer is the seller and the contract
/// is created or accepted. Then, whatever the prior status, with a dispute
/// deposit the seller moves exactly the dispute fee into escrow and nothing
/// else, and without one nothing moves; the contract becomes active, takes
/// the given seller referral (keeping its own without one), and keeps its
/// parties and amounts.
pub proof fn law_activation_deposit(c: Contract, seller: Seq<u8>, seller_referral: Option<Pubkey>, with_dispute: bool)
    ensures
        activate_contract_outcome(c, seller, seller_referral, with_dispute) is Ok <==> (seller == c.seller@ && (c.status
            == ContractStatus::Created || c.status == ContractStatus::Accepted)),
        seller != c.seller@ ==> activate_contract_outcome(c, seller, seller_referral, with_dispute) == Err::<
            (Contract, Seq<Transfer>),
            GigContractError,
        >(GigContractError::InvalidActivator),
        seller == c.seller@ && c.status != ContractStatus::Created && c.status != ContractStatus::Accepted
            ==> activate_contract_outcome(c, seller, seller_referral, with_dispute) == Err::<
            (Contract, Seq<Transfer>),
            GigContractError,
        >(GigContractError::CantActivate),
        activate_contract_outcome(c, seller, seller_referral, with_dispute) matches Ok((n, ts)) ==> {
            &&& with_dispute ==> is_single_move(
                ts,
                Asset::PayToken,
                Endpoint::SellerAta,
                Endpoint::ContractAta,
                c.dispute as int,
            )
            &&& !with_dispute ==> ts.len() == 0
            &&& n.status == ContractStatus::Active
            &&& (seller_referral matches Some(r) ==> n.seller_referral == r)
            &&& (seller_referral is None ==> n.seller_referral == c.seller_referral)
            &&& n.buyer == c.buyer && n.seller == c.seller && n.buyer_referral == c.buyer_referral
            &&& n.amount == c.amount && n.dispute == c.dispute && n.payment_method == c.payment_method
        },
{
}

/// Acceptance succeeds exactly when the signer is the buyer, the contract is
/// created and paid in `USDC` or `SOL`. Then the buyer moves exactly the price
/// plus the dispute fee into escrow, in payment tokens for `USDC` and in
/// lamports for `SOL`; the contract becomes accepted and takes the given buyer
/// referral, whatever the payment method (keeping its own without one), and
/// keeps its parties and amounts.
pub proof fn law_acceptance_records_referral(c: Contract, buyer: Seq<u8>, buyer_referral: Option<Pubkey>)
    ensures
        accept_contract_outcome(c, buyer, buyer_referral) is Ok <==> (buyer == c.buyer@ && c.status
            == ContractStatus::Created && (c.payment_method@ == spec_usdc() || c.payment_method@ == spec_sol())),
        buyer != c.buyer@ ==> accept_contract_outcome(c, buyer, buyer_referral) == Err::<
            (Contract, Seq<Transfer>),
            GigContractError,
        >(GigContractError::InvalidAcceptor),
        buyer == c.buyer@ && c.status != ContractStatus::Created ==> accept_contract_outcome(c, buyer, buyer_referral)
            == Err::<(Contract, Seq<Transfer>), GigContractError>(GigContractError::CantAccept),
        buyer == c.buyer@ && c.status == ContractStatus::Created && c.payment_method@ != spec_usdc()
            && c.payment_method@ != spec_sol() ==> accept_contract_outcome(c, buyer, buyer_referral) == Err::<
            (Contract, Seq<Transfer>),
            GigContractError,
        >(GigContractError::PayTokenMintError),
        accept_contract_outcome(c, buyer, buyer_referral) matches Ok((n, ts)) ==> {
            &&& c.payment_method@ == spec_usdc() ==> is_single_move(
                ts,
                Asset::PayToken,
                Endpoint::BuyerAta,
                Endpoint::ContractAta,
                (c.amount + c.dispute) as u64 as int,
            )
            &&& c.payment_method@ == spec_sol() ==> is_single_move(
                ts,
                Asset::Lamports,
                Endpoint::BuyerWallet,
                Endpoint::ContractAccount,
                (c.amount + c.dispute) as u64 as int,
            )
            &&& n.status == ContractStatus::Accepted
            &&& (buyer_referral matches Some(r) ==> n.buyer_referral == r)
            &&& (buyer_referral is None ==> n.buyer_referral == c.buyer_referral)
            &&& n.buyer == c.buyer && n.seller == c.seller && n.seller_referral == c.seller_referral
            &&& n.amount == c.amount && n.dispute == c.dispute && n.payment_method == c.payment_method
        },
{
    assert(spec_usdc().len() != spec_sol().len());
}

/// The listing fee the program charges for a length in days: 21, 36, 71, 100
/// and 150 tokens (six decimals) for 1, 3, 7, 14 and 30 days.
pub open spec fn listed_fee(featured_day: u8) -> int {
    if featured_day == 1 {
        21_000_000
    } else if featured_day == 3 {
        36_000_000
    } else if featured_day == 7 {
        71_000_000
    } else if featured_day == 14 {
        100_000_000
    } else {
        150_000_000
    }
}

/// A featured listing succeeds exactly for the lengths 1, 3, 7, 14 and 30
/// days. Then, whether or not a referral is given, the job is created,
/// featured for the requested number of days and carries the given id; the
/// referral is recorded and paid a tenth of the fee exactly when one is given
/// that is not the excluded address, and otherwise the referral slot is kept
/// and the contract gets the whole fee.
pub proof fn law_listing_creates_featured_job(
    job: JobContract,
    contract_id: String,
    featured_day: u8,
    employer_referral: Option<Pubkey>,
    excluded_referral: Seq<u8>,
)
    ensures
        job_listing_outcome(job, contract_id, featured_day, employer_referral, excluded_referral) is Ok <==> (
        featured_day == 1 || featured_day == 3 || featured_day == 7 || featured_day == 14 || featured_day == 30),
        job_listing_outcome(job, contract_id, featured_day, employer_referral, excluded_referral) is Err ==> job_listing_outcome(
            job,
            contract_id,
            featured_day,
            employer_referral,
            excluded_referral,
        ) == Err::<(JobContract, Seq<Transfer>), GigContractError>(GigContractError::InvalidFeaturedDay),
        job_listing_outcome(job, contract_id, featured_day, employer_referral, excluded_referral) matches Ok((n, ts))
            ==> {
            &&& total_moved(ts) == listed_fee(featured_day)
            &&& forall|i: int| 0 <= i < ts.len() ==> (#[trigger] ts[i]).from == Endpoint::EmployerAta && ts[i].asset
                == Asset::PayToken
            &&& pays_into_only(ts, Endpoint::EmployerReferralAta, listed_fee(featured_day) / 10)
            &&& n.status == JobContractStatus::Created
            &&& n.featured
            &&& n.featured_day == featured_day
            &&& n.contract_id == contract_id
            &&& n.employer == job.employer && n.employee == job.employee
            &&& pays_into(ts, Endpoint::EmployerReferralAta) == (employer_referral matches Some(r) && r@
                != excluded_referral)
            &&& employer_referral matches Some(r) ==> (r@ != excluded_referral ==> n.employer_referral == r)
            &&& !(employer_referral matches Some(r) && r@ != excluded_referral) ==> n.employer_referral
                == job.employer_referral && ts.len() == 1 && ts[0].to == Endpoint::ContractAta
        },
{
    if job_listing_outcome(job, contract_id, featured_day, employer_referral, excluded_referral) is Ok {
        let ts = job_listing_outcome(job, contract_id, featured_day, employer_referral, excluded_referral)->Ok_0.1;
        if employer_referral matches Some(r) && r@ != excluded_referral {
            assert(ts[0].to == Endpoint::EmployerReferralAta);
        }
        law_listing_pays_exact_fee(job, contract_id, featured_day, employer_referral, excluded_referral);
    }
}

/// Paying the week succeeds exactly when the signer is the buyer, the week is
/// ready to pay and the amount is the hours times the rate times 10^6. Then
/// the buyer moves exactly that amount into escrow, the hours join the total,
/// the week starts from zero and the contract is paid.
pub proof fn law_payment_settles_week(c: HourlyContract, buyer: Seq<u8>, amount: u64)
    ensures
        pay_worked_hour_outcome(c, buyer, amount) is Ok <==> (buyer == c.buyer@ && c.status
            == HourlyContractStatus::ReadyToPay && amount == c.week_worked_hour * c.hourly_rate * 1_000_000),
        buyer != c.buyer@ ==> pay_worked_hour_outcome(c, buyer, amount) == Err::<
            (HourlyContract, Seq<Transfer>),
            GigContractError,
        >(GigContractError::InvalidActivator),
        buyer == c.buyer@ && c.status != HourlyContractStatus::ReadyToPay ==> pay_worked_hour_outcome(c, buyer, amount)
            == Err::<(HourlyContract, Seq<Transfer>), GigContractError>(GigContractError::HourlyGigPayError),
        buyer == c.buyer@ && c.status == HourlyContractStatus::ReadyToPay && amount != c.week_worked_hour
            * c.hourly_rate * 1_000_000 ==> pay_worked_hour_outcome(c, buyer, amount) == Err::<
            (HourlyContract, Seq<Transfer>),
            GigContractError,
        >(GigContractError::PayAmountError),
        pay_worked_hour_outcome(c, buyer, amount) matches Ok((n, ts)) ==> {
            &&& is_single_move(ts, Asset::PayToken, Endpoint::BuyerAta, Endpoint::ContractAta, amount as int)
            &&& n.status == HourlyContractStatus::Paid
            &&& n.week_worked_hour == 0
            &&& n.total_worked_hour == (c.total_worked_hour + c.week_worked_hour) as u32
            &&& n.hourly_rate == c.hourly_rate && n.weekly_hours_limit == c.weekly_hours_limit
            &&& n.buyer == c.buyer && n.seller == c.seller && n.paused == c.paused
        },
{
}

/// Reporting hours succeeds exactly when the signer is the seller, the
/// contract is active and not paused, and the hours are within the weekly
/// limit. Then the week holds those hours and is ready to pay, and the total
/// is untouched.
pub proof fn law_report_records_hours(c: HourlyContract, seller: Seq<u8>, hours: u32)
    ensures
        update_worked_hour_outcome(c, seller, hours) is Ok <==> (seller == c.seller@ && !c.paused && c.status
            == HourlyContractStatus::Active && hours <= c.weekly_hours_limit),
        seller != c.seller@ ==> update_worked_hour_outcome(c, seller, hours) == Err::<HourlyContract, GigContractError>(
            GigContractError::InvalidActivator,
        ),
        seller == c.seller@ && c.paused ==> update_worked_hour_outcome(c, seller, hours) == Err::<
            HourlyContract,
            GigContractError,
        >(GigContractError::HourlyContractPaused),
        seller == c.seller@ && !c.paused && c.status == HourlyContractStatus::Ended ==> update_worked_hour_outcome(
            c,
            seller,
            hours,
        ) == Err::<HourlyContract, GigContractError>(GigContractError::HourlyContractEnded),
        seller == c.seller@ && !c.paused && c.status != HourlyContractStatus::Ended && c.status
            != HourlyContractStatus::Active ==> update_worked_hour_outcome(c, seller, hours) == Err::<
            HourlyContract,
            GigContractError,
        >(GigContractError::CantRelease),
        seller == c.seller@ && !c.paused && c.status == HourlyContractStatus::Active && hours > c.weekly_hours_limit
            ==> update_worked_hour_outcome(c, seller, hours) == Err::<HourlyContract, GigContractError>(
            GigContractError::WeeklyHoursLimitError,
        ),
        update_worked_hour_outcome(c, seller, hours) matches Ok(n) ==> {
            &&& n.week_worked_hour == hours
            &&& n.status == HourlyContractStatus::ReadyToPay
            &&& n.total_worked_hour == c.total_worked_hour
            &&& n.hourly_rate == c.hourly_rate && n.weekly_hours_limit == c.weekly_hours_limit
            &&& n.buyer == c.buyer && n.seller == c.seller && n.paused == c.paused
        },
{
}

/// Resuming succeeds exactly when the signer is the buyer and the contract
/// has not ended; it only clears the pause.
pub proof fn law_resume_clears_pause(c: HourlyContract, buyer: Seq<u8>)
    ensures
        resume_hourly_contract_outcome(c, buyer) is Ok <==> (buyer == c.buyer@ && c.status
            != HourlyContractStatus::Ended),
        buyer != c.buyer@ ==> resume_hourly_contract_outcome(c, buyer) == Err::<HourlyContract, GigContractError>(
            GigContractError::InvalidActivator,
        ),
        buyer == c.buyer@ && c.status == HourlyContractStatus::Ended ==> resume_hourly_contract_outcome(c, buyer)
            == Err::<HourlyContract, GigContractError>(GigContractError::HourlyContractEnded),
        resume_hourly_contract_outcome(c, buyer) matches Ok(n) ==> {
            &&& !n.paused
            &&& n.status == c.status
            &&& n.week_worked_hour == c.week_worked_hour && n.total_worked_hour == c.total_worked_hour
            &&& n.buyer == c.buyer && n.seller == c.seller
        },
{
}

/// An admin withdrawal succeeds exactly when the withdrawer is the admin and
/// the chosen account (0: the gig contract, 1: the job contract) holds at
/// least the amount; it then moves exactly that many lamports from that
/// account to the withdrawer.
pub proof fn law_withdrawal_moves_requested_lamports(
    admin_address: Seq<u8>,
    amount: u64,
    withdrawer_address: Seq<u8>,
    contract_type: u8,
    contract_lamports: u64,
    job_contract_lamports: u64,
)
    ensures
        admin_withdraw_funds_outcome(admin_address, amount, withdrawer_address, contract_type, contract_lamports, job_contract_lamports)
            is Ok <==> (withdrawer_address == admin_address && ((contract_type == 0 && amount <= contract_lamports) || (
        contract_type == 1 && amount <= job_contract_lamports))),
        withdrawer_address != admin_address ==> admin_withdraw_funds_outcome(admin_address, amount, withdrawer_address, contract_type, contract_lamports, job_contract_lamports)
            == Err::<Transfer, GigContractError>(GigContractError::InvalidAdmin),
        withdrawer_address == admin_address && contract_type != 0 && contract_type != 1 ==> admin_withdraw_funds_outcome(
            admin_address,
            amount,
            withdrawer_address,
            contract_type,
            contract_lamports,
            job_contract_lamports,
        ) == Err::<Transfer, GigContractError>(GigContractError::InvalidContractType),
        withdrawer_address == admin_address && ((contract_type == 0 && amount > contract_lamports) || (contract_type == 1
            && amount > job_contract_lamports)) ==> admin_withdraw_funds_outcome(admin_address, amount, withdrawer_address, contract_type, contract_lamports, job_contract_lamports)
            == Err::<Transfer, GigContractError>(GigContractError::InsufficientFunds),
        admin_withdraw_funds_outcome(admin_address, amount, withdrawer_address, contract_type, contract_lamports, job_contract_lamports)
            matches Ok(t) ==> {
            &&& t.asset == Asset::Lamports
            &&& t.amount == amount
            &&& t.to == Endpoint::Withdrawer
            &&& t.from == (if contract_type == 0 {
                Endpoint::ContractAccount
            } else {
                Endpoint::JobContractAccount
            })
        },
{
}

/// An opened hourly contract is created between the given buyer and seller,
/// on the given rate, weekly limit, dispute deposit and deadline, started at
/// the timestamp taken modulo 2^32; the buyer's referral is the given one (the
/// placeholder without one), the seller's is the placeholder, and no hours
/// are reported or paid beyond what the account held.
pub proof fn law_opening_sets_terms(
    c: HourlyContract,
    n: HourlyContract,
    contract_id: String,
    buyer: Pubkey,
    seller: Pubkey,
    buyer_referral: Option<Pubkey>,
    hourly_rate: u32,
    weekly_hours_limit: u32,
    dispute: u64,
    deadline: u32,
    unix_timestamp: i64,
)
    requires
        opened_hourly_contract(c, n, contract_id, buyer, seller, buyer_referral, hourly_rate, weekly_hours_limit,
            dispute, deadline, unix_timestamp),
    ensures
        n.status == HourlyContractStatus::Created,
        n.buyer@ == buyer@ && n.seller@ == seller@,
        buyer_referral matches Some(r) ==> n.buyer_referral@ == r@,
        buyer_referral is None ==> n.buyer_referral@ == spec_no_referral(),
        n.seller_referral@ == spec_no_referral(),
        n.contract_id == contract_id,
        n.hourly_rate == hourly_rate && n.weekly_hours_limit == weekly_hours_limit,
        n.dispute == dispute && n.deadline == deadline,
        n.start_time as int == unix_timestamp % 0x1_0000_0000,
        n.week_worked_hour == c.week_worked_hour && n.total_worked_hour == c.total_worked_hour,
        n.paused == c.paused && n.seller_approved == c.seller_approved,
{
    let t = unix_timestamp;
    assert((t as u32) as int == t % 0x1_0000_0000) by (bit_vector);
}

} // verus!
