use vstd::prelude::*;

use crate::errors::GigContractError;
use crate::keys::Pubkey;
use crate::state::{HourlyContract, HourlyContractStatus};

verus! {

/// What the buyer's resumption of an hourly contract does: the refusal, or
/// the new contract.
pub open spec fn resume_hourly_contract_outcome(c: HourlyContract, buyer: Seq<u8>) -> Result<
    HourlyContract,
    GigContractError,
> {
    if buyer != c.buyer@ {
        Err(GigContractError::InvalidActivator)
    } else if c.status == HourlyContractStatus::Ended {
        Err(GigContractError::HourlyContractEnded)
    } else {
        Ok(HourlyContract { paused: false, ..c })
    }
}

/// The buyer resumes a paused hourly contract that has not ended.
pub fn resume_hourly_contract(contract: &mut HourlyContract, buyer: &Pubkey) -> (res: Result<(), GigContractError>)
    ensures
        match res {
            Ok(_) => resume_hourly_contract_outcome(*old(contract), buyer@) == Ok::<
                HourlyContract,
                GigContractError,
            >(*final(contract)),
            Err(e) => resume_hourly_contract_outcome(*old(contract), buyer@) == Err::<
                HourlyContract,
                GigContractError,
            >(e) && *final(contract) == *old(contract),
        },
{
    if !buyer.same(&contract.buyer) {
        return Err(GigContractError::InvalidActivator);
    }
    if contract.status == HourlyContractStatus::Ended {
        return Err(GigContractError::HourlyContractEnded);
    }
    contract.paused = false;
    Ok(())
}

} // verus!
