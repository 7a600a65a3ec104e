use vstd::prelude::*;

use crate::errors::GigContractError;
use crate::keys::Pubkey;
use crate::state::{JobContract, JobContractStatus};
use crate::transfer::{Asset, Endpoint, Transfer, token_move};

verus! {

/// The fee for featuring a listing for `featured_day` days, in payment-token
/// base units (six decimals): 21 for a day, 36 for three, 71 for a week, 100
/// for two weeks, 150 for thirty days; no other length is offered.
pub open spec fn featured_listing_fee(featured_day: u8) -> Option<u64> {
    if featured_day == 1 {
        Some(21_000_000u64)
    } else if featured_day == 3 {
        Some(36_000_000u64)
    } else if featured_day == 7 {
        Some(71_000_000u64)
    } else if featured_day == 14 {
        Some(100_000_000u64)
    } else if featured_day == 30 {
        Some(150_000_000u64)
    } else {
        None
    }
}

/// The fee for featuring a listing for `featured_day` days, or `None` where
/// no such length is offered.
pub fn listing_fee(featured_day: u8) -> (fee: Option<u64>)
    ensures
        fee == featured_listing_fee(featured_day),
{
    match featured_day {
        1 => Some(21_000_000),
        3 => Some(36_000_000),
        7 => Some(71_000_000),
        14 => Some(100_000_000),
        30 => Some(150_000_000),
        _ => None,
    }
}

/// The payments of a listing fee: with a referral that is not the excluded
/// address, 10% to the referral and 90% to the contract; otherwise the whole
/// fee to the contract.
pub open spec fn listing_transfers(fee: u64, referred: bool) -> Seq<Transfer> {
    if referred {
        seq![
            token_move(Endpoint::EmployerAta, Endpoint::EmployerReferralAta, fee * 10 / 100),
            token_move(Endpoint::EmployerAta, Endpoint::ContractAta, fee * 90 / 100),
        ]
    } else {
        seq![token_move(Endpoint::EmployerAta, Endpoint::ContractAta, fee as int)]
    }
}

/// Whether a referral account is given and is not the excluded address.
pub open spec fn counts_as_referral(referral: Option<Seq<u8>>, excluded_referral: Seq<u8>) -> bool {
    referral matches Some(r) && r != excluded_referral
}

/// What listing a featured job does: the refusal, or the new listing and the
/// fee payments.
pub open spec fn job_listing_outcome(
    job: JobContract,
    contract_id: String,
    featured_day: u8,
    employer_referral: Option<Pubkey>,
    excluded_referral: Seq<u8>,
) -> Result<(JobContract, Seq<Transfer>), GigContractError> {
    match featured_listing_fee(featured_day) {
        None => Err(GigContractError::InvalidFeaturedDay),
        Some(fee) => {
            let referred = counts_as_referral(
                match employer_referral {
                    Some(r) => Some(r@),
                    None => None,
                },
                excluded_referral,
            );
            Ok((
                JobContract {
                    employer_referral: if referred {
                        employer_referral->0
                    } else {
                        job.employer_referral
                    },
                    contract_id,
                    status: JobContractStatus::Created,
                    featured: true,
                    featured_day,
                    ..job
                },
                listing_transfers(fee, referred),
            ))
        },
    }
}

/// An employer lists a job as featured for `featured_day` days and pays the
/// fee for it, sharing 10% with a referral where one is given that is not the
/// excluded address.
pub fn job_listing_with_feature_employer(
    job_contract: &mut JobContract,
    contract_id: String,
    featured_day: u8,
    employer_referral: Option<Pubkey>,
    excluded_referral: &Pubkey,
) -> (res: Result<Vec<Transfer>, GigContractError>)
    ensures
        match res {
            Ok(ts) => job_listing_outcome(*old(job_contract), contract_id, featured_day, employer_referral, excluded_referral@)
                == Ok::<(JobContract, Seq<Transfer>), GigContractError>((*final(job_contract), ts@)),
            Err(e) => job_listing_outcome(*old(job_contract), contract_id, featured_day, employer_referral, excluded_referral@)
                == Err::<(JobContract, Seq<Transfer>), GigContractError>(e) && *final(job_contract) == *old(job_contract),
        },
{
    let listing_fee: u64 = match listing_fee(featured_day) {
        Some(fee) => fee,
        None => return Err(GigContractError::InvalidFeaturedDay),
    };
    let mut transfers: Vec<Transfer> = Vec::new();
    let mut referred = false;
    if let Some(referral) = employer_referral {
        if !referral.same(excluded_referral) {
            referred = true;
            job_contract.employer_referral = referral;
            transfers.push(
                Transfer {
                    asset: Asset::PayToken,
                    from: Endpoint::EmployerAta,
                    to: Endpoint::EmployerReferralAta,
                    amount: listing_fee * 10 / 100,
                },
            );
            transfers.push(
                Transfer {
                    asset: Asset::PayToken,
                    from: Endpoint::EmployerAta,
                    to: Endpoint::ContractAta,
                    amount: listing_fee * 90 / 100,
                },
            );
        }
    }
    if !referred {
        transfers.push(
            Transfer {
                asset: Asset::PayToken,
                from: Endpoint::EmployerAta,
                to: Endpoint::ContractAta,
                amount: listing_fee,
            },
        );
    }
    job_contract.contract_id = contract_id;
    job_contract.status = JobContractStatus::Created;
    job_contract.featured = true;
    job_contract.featured_day = featured_day;
    assert(transfers@ =~= listing_transfers(listing_fee, referred));
    Ok(transfers)
}

} // verus!
