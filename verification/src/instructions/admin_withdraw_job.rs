use vstd::prelude::*;

use crate::transfer::{Asset, Endpoint, Transfer, token_move};

verus! {

/// Empties a job contract's token account into the withdrawal account: the
/// whole balance, signed for by the contract. No check is made of who asks
/// for the withdrawal.
pub fn admin_withdraw_job_contract(contract_ata_amount: u64) -> (t: Transfer)
    ensures
        t == token_move(Endpoint::ContractAta, Endpoint::WithdrawAta, contract_ata_amount as int),
{
    Transfer {
        asset: Asset::PayToken,
        from: Endpoint::ContractAta,
        to: Endpoint::WithdrawAta,
        amount: contract_ata_amount,
    }
}

} // verus!
