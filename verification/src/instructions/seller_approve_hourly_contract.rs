use vstd::prelude::*;

use crate::errors::GigContractError;
use crate::keys::{Pubkey, no_referral, spec_no_referral};
use crate::state::{HourlyContract, HourlyContractStatus};
use crate::transfer::{Endpoint, Transfer, Asset, token_move};

verus! {

/// The seller's share of a released balance: 90%, rounded down.
pub open spec fn seller_share(total_balance: int) -> int {
    total_balance * 90 / 100
}

/// A referral's share of a released balance: 1%, rounded down.
pub open spec fn referral_share(total_balance: int) -> int {
    total_balance * 1 / 100
}

/// The platform's share: 10%, rounded down, less the referral shares paid.
pub open spec fn admin_share(total_balance: int, buyer_referred: bool, seller_referred: bool) -> int {
    total_balance * 10 / 100 - (if buyer_referred {
        referral_share(total_balance)
    } else {
        0
    }) - (if seller_referred {
        referral_share(total_balance)
    } else {
        0
    })
}

/// The payouts of a released balance, in the order they are made: the seller,
/// the buyer's referral (if one is set), the seller's referral (if one is set),
/// and the admin.
pub open spec fn release_transfers(total_balance: int, buyer_referred: bool, seller_referred: bool) -> Seq<Transfer> {
    seq![token_move(Endpoint::ContractAta, Endpoint::SellerAta, seller_share(total_balance))]
        + (if buyer_referred {
        seq![token_move(Endpoint::ContractAta, Endpoint::BuyerReferralAta, referral_share(total_balance))]
    } else {
        Seq::empty()
    }) + (if seller_referred {
        seq![token_move(Endpoint::ContractAta, Endpoint::SellerReferralAta, referral_share(total_balance))]
    } else {
        Seq::empty()
    }) + seq![token_move(Endpoint::ContractAta, Endpoint::AdminAta, admin_share(total_balance, buyer_referred, seller_referred))]
}

/// The balance released by a seller approval: the escrow less both parties'
/// dispute deposits.
pub open spec fn released_balance(c: HourlyContract, contract_ata_amount: u64) -> int {
    contract_ata_amount - 2 * c.dispute
}

/// What a seller approval of the week's payment does: the refusal, or the new
/// contract and the payouts.
pub open spec fn seller_approve_hourly_outcome(
    c: HourlyContract,
    pay_token_mint: Seq<u8>,
    expected_mint: Seq<u8>,
    seller: Seq<u8>,
    contract_ata_amount: u64,
) -> Result<(HourlyContract, Seq<Transfer>), GigContractError> {
    if pay_token_mint != expected_mint {
        Err(GigContractError::PayTokenMintError)
    } else if seller != c.seller@ {
        Err(GigContractError::InvalidSeller)
    } else if c.status != HourlyContractStatus::Paid {
        Err(GigContractError::HourlyContractNotPaidYet)
    } else {
        Ok((
            HourlyContract { status: HourlyContractStatus::Active, seller_approved: true, ..c },
            release_transfers(
                released_balance(c, contract_ata_amount),
                c.buyer_referral@ != spec_no_referral(),
                c.seller_referral@ != spec_no_referral(),
            ),
        ))
    }
}

/// The arithmetic of a release neither underflows nor overflows `u64`: the
/// escrow holds both dispute deposits, and 90 times the rest fits.
pub open spec fn release_fits(c: HourlyContract, contract_ata_amount: u64) -> bool {
    &&& 2 * c.dispute <= contract_ata_amount
    &&& (contract_ata_amount - 2 * c.dispute) * 90 <= u64::MAX
}

/// The shares of a balance never add up to more than the balance, and the
/// referral shares fit inside the 10% that the admin share is taken from.
pub proof fn lemma_shares_fit(total_balance: int)
    requires
        total_balance >= 0,
    ensures
        seller_share(total_balance) + total_balance * 10 / 100 <= total_balance,
        2 * referral_share(total_balance) <= total_balance * 10 / 100,
        seller_share(total_balance) >= 0,
        referral_share(total_balance) >= 0,
{
    assert(total_balance * 90 / 100 + total_balance * 10 / 100 <= total_balance) by (nonlinear_arith)
        requires
            total_balance >= 0,
    ;
    assert(2 * (total_balance * 1 / 100) <= total_balance * 10 / 100) by (nonlinear_arith)
        requires
            total_balance >= 0,
    ;
    assert(total_balance * 90 / 100 >= 0) by (nonlinear_arith)
        requires
            total_balance >= 0,
    ;
}

/// The seller approves the week's payment: the escrowed balance, less both
/// dispute deposits, is released to the seller (90%), the referrals (1% each,
/// where set) and the admin (the rest of 10%), and the contract is active again.
pub fn seller_approve_hourly_contract(
    contract: &mut HourlyContract,
    pay_token_mint: &Pubkey,
    expected_mint: &Pubkey,
    seller: &Pubkey,
    contract_ata_amount: u64,
) -> (res: Result<Vec<Transfer>, GigContractError>)
    requires
        seller_approve_hourly_outcome(*old(contract), pay_token_mint@, expected_mint@, seller@, contract_ata_amount) is Ok
            ==> release_fits(*old(contract), contract_ata_amount),
    ensures
        match res {
            Ok(ts) => seller_approve_hourly_outcome(*old(contract), pay_token_mint@, expected_mint@, seller@, contract_ata_amount)
                == Ok::<(HourlyContract, Seq<Transfer>), GigContractError>((*final(contract), ts@)),
            Err(e) => seller_approve_hourly_outcome(*old(contract), pay_token_mint@, expected_mint@, seller@, contract_ata_amount)
                == Err::<(HourlyContract, Seq<Transfer>), GigContractError>(e) && *final(contract) == *old(contract),
        },
{
    if !pay_token_mint.same(expected_mint) {
        return Err(GigContractError::PayTokenMintError);
    }
    if !seller.same(&contract.seller) {
        return Err(GigContractError::InvalidSeller);
    }
    if contract.status != HourlyContractStatus::Paid {
        return Err(GigContractError::HourlyContractNotPaidYet);
    }
    contract.status = HourlyContractStatus::Active;
    contract.seller_approved = true;

    let total_balance: u64 = contract_ata_amount - 2 * contract.dispute;
    proof {
        lemma_shares_fit(total_balance as int);
    }
    let unset = no_referral();
    let buyer_referred = !contract.buyer_referral.same(&unset);
    let seller_referred = !contract.seller_referral.same(&unset);

    let mut transfers: Vec<Transfer> = Vec::new();
    transfers.push(
        Transfer {
            asset: Asset::PayToken,
            from: Endpoint::ContractAta,
            to: Endpoint::SellerAta,
            amount: total_balance * 90 / 100,
        },
    );
    let mut admin_amount: u64 = total_balance * 10 / 100;
    if buyer_referred {
        let buyer_referral_amount: u64 = total_balance * 1 / 100;
        admin_amount = admin_amount - buyer_referral_amount;
        transfers.push(
            Transfer {
                asset: Asset::PayToken,
                from: Endpoint::ContractAta,
                to: Endpoint::BuyerReferralAta,
                amount: buyer_referral_amount,
            },
        );
    }
    if seller_referred {
        let seller_referral_amount: u64 = total_balance * 1 / 100;
        admin_amount = admin_amount - seller_referral_amount;
        transfers.push(
            Transfer {
                asset: Asset::PayToken,
                from: Endpoint::ContractAta,
                to: Endpoint::SellerReferralAta,
                amount: seller_referral_amount,
            },
        );
    }
    transfers.push(
        Transfer {
            asset: Asset::PayToken,
            from: Endpoint::ContractAta,
            to: Endpoint::AdminAta,
            amount: admin_amount,
        },
    );
    assert(transfers@ =~= release_transfers(total_balance as int, buyer_referred, seller_referred));
    Ok(transfers)
}

} // verus!
