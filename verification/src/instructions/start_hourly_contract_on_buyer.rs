use vstd::prelude::*;

use crate::errors::GigContractError;
use crate::keys::{Pubkey, no_referral, spec_no_referral};
use crate::state::{HourlyContract, HourlyContractStatus};
use crate::transfer::{Asset, Endpoint, Transfer, token_move};

verus! {

/// The dispute deposit each party escrows: half a payment token, in base
/// units of six decimals.
pub const DISPUTE_AMOUNT: u64 = 500_000;

/// The referral recorded for the buyer: the given account, or the "no
/// referral" placeholder.
pub open spec fn referral_or_none(referral: Option<Pubkey>) -> Seq<u8> {
    match referral {
        Some(r) => r@,
        None => spec_no_referral(),
    }
}

/// Whether the contract a buyer opens has the given terms and parties; the
/// fields that opening does not set are those of `c`.
pub open spec fn opened_hourly_contract(
    c: HourlyContract,
    new: HourlyContract,
    contract_id: String,
    buyer: Pubkey,
    seller: Pubkey,
    buyer_referral: Option<Pubkey>,
    hourly_rate: u32,
    weekly_hours_limit: u32,
    dispute: u64,
    deadline: u32,
    unix_timestamp: i64,
) -> bool {
    &&& new.buyer@ == buyer@
    &&& new.seller@ == seller@
    &&& new.buyer_referral@ == referral_or_none(buyer_referral)
    &&& new.seller_referral@ == spec_no_referral()
    &&& new.contract_id == contract_id
    &&& new.start_time == unix_timestamp as u32
    &&& new.deadline == deadline
    &&& new.dispute == dispute
    &&& new.status == HourlyContractStatus::Created
    &&& new.hourly_rate == hourly_rate
    &&& new.weekly_hours_limit == weekly_hours_limit
    &&& new.split == c.split
    &&& new.seller_satisfied == c.seller_satisfied
    &&& new.buyer_approved == c.buyer_approved
    &&& new.seller_approved == c.seller_approved
    &&& new.admin_approved == c.admin_approved
    &&& new.paused == c.paused
    &&& new.week_worked_hour == c.week_worked_hour
    &&& new.total_worked_hour == c.total_worked_hour
}

/// Which refusal opening an hourly contract meets, if any: a wrong payment
/// mint, then a dispute deposit other than `DISPUTE_AMOUNT`.
pub open spec fn start_hourly_refusal(pay_token_mint: Seq<u8>, expected_mint: Seq<u8>, dispute: u64) -> Option<GigContractError> {
    if pay_token_mint != expected_mint {
        Some(GigContractError::PayTokenMintError)
    } else if dispute != DISPUTE_AMOUNT {
        Some(GigContractError::InvalidDisputeAmount)
    } else {
        None
    }
}

/// A buyer opens an hourly contract with a seller, for an hourly rate and a
/// weekly limit of hours, and escrows the dispute deposit.
pub fn start_hourly_contract_on_buyer(
    contract: &mut HourlyContract,
    contract_id: String,
    pay_token_mint: &Pubkey,
    expected_mint: &Pubkey,
    buyer: &Pubkey,
    seller: &Pubkey,
    buyer_referral: Option<Pubkey>,
    hourly_rate: u32,
    weekly_hours_limit: u32,
    dispute: u64,
    deadline: u32,
    unix_timestamp: i64,
) -> (res: Result<Vec<Transfer>, GigContractError>)
    ensures
        match res {
            Ok(ts) => {
                &&& start_hourly_refusal(pay_token_mint@, expected_mint@, dispute) is None
                &&& opened_hourly_contract(*old(contract), *final(contract), contract_id, *buyer, *seller,
                    buyer_referral, hourly_rate, weekly_hours_limit, dispute, deadline, unix_timestamp)
                &&& ts@ == seq![token_move(Endpoint::BuyerAta, Endpoint::ContractAta, dispute as int)]
            },
            Err(e) => {
                &&& start_hourly_refusal(pay_token_mint@, expected_mint@, dispute) == Some(e)
                &&& *final(contract) == *old(contract)
            },
        },
{
    if !pay_token_mint.same(expected_mint) {
        return Err(GigContractError::PayTokenMintError);
    }
    if dispute != DISPUTE_AMOUNT {
        return Err(GigContractError::InvalidDisputeAmount);
    }
    let current_timestamp: u32 = unix_timestamp as u32;
    contract.contract_id = contract_id;
    contract.buyer = *buyer;
    contract.seller = *seller;
    contract.start_time = current_timestamp;
    contract.hourly_rate = hourly_rate;
    contract.weekly_hours_limit = weekly_hours_limit;
    contract.dispute = dispute;
    contract.deadline = deadline;
    contract.status = HourlyContractStatus::Created;
    contract.buyer_referral = no_referral();
    contract.seller_referral = no_referral();
    if let Some(referral) = buyer_referral {
        contract.buyer_referral = referral;
    }
    let mut transfers: Vec<Transfer> = Vec::new();
    transfers.push(
        Transfer { asset: Asset::PayToken, from: Endpoint::BuyerAta, to: Endpoint::ContractAta, amount: dispute },
    );
    assert(transfers@ =~= seq![token_move(Endpoint::BuyerAta, Endpoint::ContractAta, dispute as int)]);
    Ok(transfers)
}

} // verus!
