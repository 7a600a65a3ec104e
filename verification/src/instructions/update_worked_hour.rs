use vstd::prelude::*;

use crate::errors::GigContractError;
use crate::keys::Pubkey;
use crate::state::{HourlyContract, HourlyContractStatus};

verus! {

/// What the seller's report of the week's hours does: the refusal, or the new
/// contract.
pub open spec fn update_worked_hour_outcome(c: HourlyContract, seller: Seq<u8>, week_worked_hour: u32) -> Result<
    HourlyContract,
    GigContractError,
> {
    if seller != c.seller@ {
        Err(GigContractError::InvalidActivator)
    } else if c.paused {
        Err(GigContractError::HourlyContractPaused)
    } else if c.status == HourlyContractStatus::Ended {
        Err(GigContractError::HourlyContractEnded)
    } else if c.status != HourlyContractStatus::Active {
        Err(GigContractError::CantRelease)
    } else if c.weekly_hours_limit < week_worked_hour {
        Err(GigContractError::WeeklyHoursLimitError)
    } else {
        Ok(HourlyContract { status: HourlyContractStatus::ReadyToPay, week_worked_hour, ..c })
    }
}

/// The seller reports the hours worked this week, at most the weekly limit;
/// the contract becomes ready to pay.
pub fn update_worked_hour(contract: &mut HourlyContract, seller: &Pubkey, week_worked_hour: u32) -> (res: Result<
    (),
    GigContractError,
>)
    ensures
        match res {
            Ok(_) => update_worked_hour_outcome(*old(contract), seller@, week_worked_hour) == Ok::<
                HourlyContract,
                GigContractError,
            >(*final(contract)),
            Err(e) => update_worked_hour_outcome(*old(contract), seller@, week_worked_hour) == Err::<
                HourlyContract,
                GigContractError,
            >(e) && *final(contract) == *old(contract),
        },
{
    if !seller.same(&contract.seller) {
        return Err(GigContractError::InvalidActivator);
    }
    if contract.paused {
        return Err(GigContractError::HourlyContractPaused);
    }
    if contract.status == HourlyContractStatus::Ended {
        return Err(GigContractError::HourlyContractEnded);
    }
    if contract.status != HourlyContractStatus::Active {
        return Err(GigContractError::CantRelease);
    }
    if contract.weekly_hours_limit < week_worked_hour {
        return Err(GigContractError::WeeklyHoursLimitError);
    }
    contract.status = HourlyContractStatus::ReadyToPay;
    contract.week_worked_hour = week_worked_hour;
    Ok(())
}

} // verus!
