use vstd::prelude::*;

use crate::errors::GigContractError;
use crate::keys::Pubkey;
use crate::state::{HourlyContract, HourlyContractStatus};
use crate::transfer::{Asset, Endpoint, Transfer, token_move};

verus! {

/// The pay for a week: hours worked times the hourly rate, in payment-token
/// base units of six decimals.
pub open spec fn week_pay(c: HourlyContract) -> int {
    c.week_worked_hour * c.hourly_rate * 1_000_000
}

/// What the buyer's payment of the week does: the refusal, or the new contract
/// and the payment into escrow.
pub open spec fn pay_worked_hour_outcome(c: HourlyContract, buyer: Seq<u8>, amount: u64) -> Result<
    (HourlyContract, Seq<Transfer>),
    GigContractError,
> {
    if buyer != c.buyer@ {
        Err(GigContractError::InvalidActivator)
    } else if c.status != HourlyContractStatus::ReadyToPay {
        Err(GigContractError::HourlyGigPayError)
    } else if amount != week_pay(c) {
        Err(GigContractError::PayAmountError)
    } else {
        Ok((
            HourlyContract {
                status: HourlyContractStatus::Paid,
                total_worked_hour: (c.total_worked_hour + c.week_worked_hour) as u32,
                week_worked_hour: 0,
                ..c
            },
            seq![token_move(Endpoint::BuyerAta, Endpoint::ContractAta, amount as int)],
        ))
    }
}

/// The hours paid so far plus this week's still fit in a `u32`.
pub open spec fn total_hours_fit(c: HourlyContract) -> bool {
    c.total_worked_hour + c.week_worked_hour <= u32::MAX
}

/// The pay for `week_worked_hour` hours at `hourly_rate`, in base units.
pub fn hourly_pay(week_worked_hour: u32, hourly_rate: u32) -> (pay: u128)
    ensures
        pay == week_worked_hour * hourly_rate * 1_000_000,
{
    let hours: u128 = week_worked_hour as u128;
    let rate: u128 = hourly_rate as u128;
    assert(hours * rate <= 0xffff_ffff_ffff_ffff) by (nonlinear_arith)
        requires
            hours <= 0xffff_ffff,
            rate <= 0xffff_ffff,
    ;
    assert(hours * rate * 1_000_000 <= 0xffff_ffff_ffff_ffff * 1_000_000) by (nonlinear_arith)
        requires
            hours * rate <= 0xffff_ffff_ffff_ffff,
    ;
    hours * rate * 1_000_000
}

/// The buyer pays the hours reported for the week: the amount must be the
/// week's hours times the hourly rate; the hours are added to the total and
/// the week starts again from zero.
pub fn pay_worked_hour(contract: &mut HourlyContract, buyer: &Pubkey, amount: u64) -> (res: Result<
    Vec<Transfer>,
    GigContractError,
>)
    requires
        pay_worked_hour_outcome(*old(contract), buyer@, amount) is Ok ==> total_hours_fit(*old(contract)),
    ensures
        match res {
            Ok(ts) => pay_worked_hour_outcome(*old(contract), buyer@, amount) == Ok::<
                (HourlyContract, Seq<Transfer>),
                GigContractError,
            >((*final(contract), ts@)),
            Err(e) => pay_worked_hour_outcome(*old(contract), buyer@, amount) == Err::<
                (HourlyContract, Seq<Transfer>),
                GigContractError,
            >(e) && *final(contract) == *old(contract),
        },
{
    if !buyer.same(&contract.buyer) {
        return Err(GigContractError::InvalidActivator);
    }
    if contract.status != HourlyContractStatus::ReadyToPay {
        return Err(GigContractError::HourlyGigPayError);
    }
    if amount as u128 != hourly_pay(contract.week_worked_hour, contract.hourly_rate) {
        return Err(GigContractError::PayAmountError);
    }
    contract.status = HourlyContractStatus::Paid;
    contract.total_worked_hour = contract.total_worked_hour + contract.week_worked_hour;
    contract.week_worked_hour = 0;
    let mut transfers: Vec<Transfer> = Vec::new();
    transfers.push(
        Transfer { asset: Asset::PayToken, from: Endpoint::BuyerAta, to: Endpoint::ContractAta, amount },
    );
    assert(transfers@ =~= seq![token_move(Endpoint::BuyerAta, Endpoint::ContractAta, amount as int)]);
    Ok(transfers)
}

} // verus!
