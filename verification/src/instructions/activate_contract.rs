use vstd::prelude::*;

use crate::errors::GigContractError;
use crate::keys::Pubkey;
use crate::state::{Contract, ContractStatus};
use crate::transfer::{Asset, Endpoint, Transfer, token_move};

verus! {

/// What the seller's activation does: the refusal, or the new contract and,
/// with a dispute deposit, its payment into escrow.
pub open spec fn activate_contract_outcome(
    c: Contract,
    seller: Seq<u8>,
    seller_referral: Option<Pubkey>,
    with_dispute: bool,
) -> Result<(Contract, Seq<Transfer>), GigContractError> {
    if seller != c.seller@ {
        Err(GigContractError::InvalidActivator)
    } else if c.status != ContractStatus::Created && c.status != ContractStatus::Accepted {
        Err(GigContractError::CantActivate)
    } else {
        Ok((
            Contract {
                status: ContractStatus::Active,
                seller_referral: match seller_referral {
                    Some(r) => r,
                    None => c.seller_referral,
                },
                ..c
            },
            if with_dispute {
                seq![token_move(Endpoint::SellerAta, Endpoint::ContractAta, c.dispute as int)]
            } else {
                Seq::empty()
            },
        ))
    }
}

/// The seller activates a created or accepted contract, depositing the dispute
/// fee when `with_dispute` is set.
pub fn activate_contract(
    contract: &mut Contract,
    seller: &Pubkey,
    seller_referral: Option<Pubkey>,
    with_dispute: bool,
) -> (res: Result<Vec<Transfer>, GigContractError>)
    ensures
        match res {
            Ok(ts) => activate_contract_outcome(*old(contract), seller@, seller_referral, with_dispute) == Ok::<
                (Contract, Seq<Transfer>),
                GigContractError,
            >((*final(contract), ts@)),
            Err(e) => activate_contract_outcome(*old(contract), seller@, seller_referral, with_dispute) == Err::<
                (Contract, Seq<Transfer>),
                GigContractError,
            >(e) && *final(contract) == *old(contract),
        },
{
    if !seller.same(&contract.seller) {
        return Err(GigContractError::InvalidActivator);
    }
    if contract.status != ContractStatus::Created && contract.status != ContractStatus::Accepted {
        return Err(GigContractError::CantActivate);
    }
    contract.status = ContractStatus::Active;
    if let Some(referral) = seller_referral {
        contract.seller_referral = referral;
    }
    let mut transfers: Vec<Transfer> = Vec::new();
    if with_dispute {
        transfers.push(
            Transfer {
                asset: Asset::PayToken,
                from: Endpoint::SellerAta,
                to: Endpoint::ContractAta,
                amount: contract.dispute,
            },
        );
    }
    assert(transfers@ =~= (if with_dispute {
        seq![token_move(Endpoint::SellerAta, Endpoint::ContractAta, contract.dispute as int)]
    } else {
        Seq::<Transfer>::empty()
    }));
    Ok(transfers)
}

} // verus!
