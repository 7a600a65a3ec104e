use vstd::prelude::*;

use crate::errors::GigContractError;
use crate::keys::Pubkey;
use crate::state::{Contract, ContractStatus, spec_sol, spec_usdc, sol_name, usdc_name};
use crate::transfer::{Asset, Endpoint, Transfer};

verus! {

/// Whether the contract is paid in a method the program accepts deposits in:
/// `USDC` (payment tokens) or `SOL` (lamports).
pub open spec fn payable_method(c: Contract) -> bool {
    c.payment_method@ == spec_usdc() || c.payment_method@ == spec_sol()
}

/// The deposit a buyer makes on accepting: the price and the dispute fee, in
/// the contract's payment method (`USDC` in payment tokens, `SOL` in
/// lamports).
pub open spec fn acceptance_transfers(c: Contract) -> Seq<Transfer> {
    if c.payment_method@ == spec_usdc() {
        seq![
            Transfer {
                asset: Asset::PayToken,
                from: Endpoint::BuyerAta,
                to: Endpoint::ContractAta,
                amount: (c.amount + c.dispute) as u64,
            },
        ]
    } else if c.payment_method@ == spec_sol() {
        seq![
            Transfer {
                asset: Asset::Lamports,
                from: Endpoint::BuyerWallet,
                to: Endpoint::ContractAccount,
                amount: (c.amount + c.dispute) as u64,
            },
        ]
    } else {
        Seq::empty()
    }
}

/// What a buyer's acceptance does: the refusal, or the new contract and the
/// deposit.
pub open spec fn accept_contract_outcome(c: Contract, buyer: Seq<u8>, buyer_referral: Option<Pubkey>) -> Result<
    (Contract, Seq<Transfer>),
    GigContractError,
> {
    if buyer != c.buyer@ {
        Err(GigContractError::InvalidAcceptor)
    } else if c.status != ContractStatus::Created {
        Err(GigContractError::CantAccept)
    } else if !payable_method(c) {
        Err(GigContractError::PayTokenMintError)
    } else {
        Ok((
            Contract {
                status: ContractStatus::Accepted,
                buyer_referral: match buyer_referral {
                    Some(r) => r,
                    None => c.buyer_referral,
                },
                ..c
            },
            acceptance_transfers(c),
        ))
    }
}

/// The price and the dispute fee of a contract add up within `u64`.
pub open spec fn deposit_fits(c: Contract) -> bool {
    c.amount + c.dispute <= u64::MAX
}

/// The buyer accepts a contract that the seller created, and deposits the
/// price and the dispute fee; a contract whose payment method is neither
/// `USDC` nor `SOL` cannot be paid, so it is refused and stays created.
pub fn accept_contract_on_buyer(contract: &mut Contract, buyer: &Pubkey, buyer_referral: Option<Pubkey>) -> (res:
    Result<Vec<Transfer>, GigContractError>)
    requires
        accept_contract_outcome(*old(contract), buyer@, buyer_referral) is Ok ==> deposit_fits(*old(contract)),
    ensures
        match res {
            Ok(ts) => accept_contract_outcome(*old(contract), buyer@, buyer_referral) == Ok::<
                (Contract, Seq<Transfer>),
                GigContractError,
            >((*final(contract), ts@)),
            Err(e) => accept_contract_outcome(*old(contract), buyer@, buyer_referral) == Err::<
                (Contract, Seq<Transfer>),
                GigContractError,
            >(e) && *final(contract) == *old(contract),
        },
{
    if !buyer.same(&contract.buyer) {
        return Err(GigContractError::InvalidAcceptor);
    }
    if contract.status != ContractStatus::Created {
        return Err(GigContractError::CantAccept);
    }
    let in_usdc = contract.payment_method == usdc_name();
    let in_sol = contract.payment_method == sol_name();
    if !in_usdc && !in_sol {
        return Err(GigContractError::PayTokenMintError);
    }
    let ghost before = *contract;
    contract.status = ContractStatus::Accepted;
    if let Some(referral) = buyer_referral {
        contract.buyer_referral = referral;
    }
    let mut transfers: Vec<Transfer> = Vec::new();
    if in_usdc {
        transfers.push(
            Transfer {
                asset: Asset::PayToken,
                from: Endpoint::BuyerAta,
                to: Endpoint::ContractAta,
                amount: contract.amount + contract.dispute,
            },
        );
    } else {
        transfers.push(
            Transfer {
                asset: Asset::Lamports,
                from: Endpoint::BuyerWallet,
                to: Endpoint::ContractAccount,
                amount: contract.amount + contract.dispute,
            },
        );
    }
    assert(transfers@ =~= acceptance_transfers(before));
    Ok(transfers)
}

} // verus!
