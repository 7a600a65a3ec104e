use vstd::prelude::*;

use crate::errors::GigContractError;
use crate::keys::Pubkey;
use crate::transfer::{Asset, Endpoint, Transfer};

verus! {

/// What an admin withdrawal of lamports does: the refusal, or the one
/// transfer out of the chosen account (type 0: the gig contract; type 1: the
/// job contract).
pub open spec fn admin_withdraw_funds_outcome(
    admin_address: Seq<u8>,
    amount: u64,
    withdrawer_address: Seq<u8>,
    contract_type: u8,
    contract_lamports: u64,
    job_contract_lamports: u64,
) -> Result<Transfer, GigContractError> {
    if withdrawer_address != admin_address {
        Err(GigContractError::InvalidAdmin)
    } else if contract_type == 0 {
        if contract_lamports < amount {
            Err(GigContractError::InsufficientFunds)
        } else {
            Ok(Transfer { asset: Asset::Lamports, from: Endpoint::ContractAccount, to: Endpoint::Withdrawer, amount })
        }
    } else if contract_type == 1 {
        if job_contract_lamports < amount {
            Err(GigContractError::InsufficientFunds)
        } else {
            Ok(
                Transfer {
                    asset: Asset::Lamports,
                    from: Endpoint::JobContractAccount,
                    to: Endpoint::Withdrawer,
                    amount,
                },
            )
        }
    } else {
        Err(GigContractError::InvalidContractType)
    }
}

/// The admin withdraws `amount` lamports from the gig contract account
/// (`contract_type` 0) or the job contract account (`contract_type` 1), as
/// far as the account holds them.
pub fn admin_withdraw_funds(
    admin_address: &Pubkey,
    amount: u64,
    withdrawer_address: &Pubkey,
    contract_type: u8,
    contract_lamports: u64,
    job_contract_lamports: u64,
) -> (res: Result<Transfer, GigContractError>)
    ensures
        res == admin_withdraw_funds_outcome(
            admin_address@,
            amount,
            withdrawer_address@,
            contract_type,
            contract_lamports,
            job_contract_lamports,
        ),
{
    if !withdrawer_address.same(admin_address) {
        return Err(GigContractError::InvalidAdmin);
    }
    match contract_type {
        0 => {
            if contract_lamports < amount {
                return Err(GigContractError::InsufficientFunds);
            }
            Ok(Transfer { asset: Asset::Lamports, from: Endpoint::ContractAccount, to: Endpoint::Withdrawer, amount })
        },
        1 => {
            if job_contract_lamports < amount {
                return Err(GigContractError::InsufficientFunds);
            }
            Ok(
                Transfer {
                    asset: Asset::Lamports,
                    from: Endpoint::JobContractAccount,
                    to: Endpoint::Withdrawer,
                    amount,
                },
            )
        },
        _ => Err(GigContractError::InvalidContractType),
    }
}

} // verus!
