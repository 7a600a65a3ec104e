use vstd::prelude::*;

verus! {

/// What a transfer moves.
#[derive(Clone, Copy, Debug, PartialEq, Eq, Structural)]
pub enum Asset {
    /// Units of the payment token, moved by the token program.
    PayToken,
    /// Native lamports, moved by adjusting account balances.
    Lamports,
}

/// The accounts that the program moves value between, named by their role.
#[derive(Clone, Copy, Debug, PartialEq, Eq, Structural)]
pub enum Endpoint {
    /// The buyer's wallet (signer).
    BuyerWallet,
    /// The buyer's token account.
    BuyerAta,
    /// The seller's token account.
    SellerAta,
    /// The contract account itself.
    ContractAccount,
    /// The contract's token account (escrow).
    ContractAta,
    /// The admin's token account.
    AdminAta,
    /// The buyer referral's token account.
    BuyerReferralAta,
    /// The seller referral's token account.
    SellerReferralAta,
    /// The employer's token account.
    EmployerAta,
    /// The employer referral's token account.
    EmployerReferralAta,
    /// The job contract account itself.
    JobContractAccount,
    /// The token account that an admin withdrawal pays into.
    WithdrawAta,
    /// The address that an admin lamport withdrawal pays to.
    Withdrawer,
}

/// One movement of value that an instruction asks for.
#[derive(Clone, Copy, Debug, PartialEq, Eq, Structural)]
pub struct Transfer {
    pub asset: Asset,
    pub from: Endpoint,
    pub to: Endpoint,
    pub amount: u64,
}

/// A movement of `amount` payment tokens.
pub open spec fn token_move(from: Endpoint, to: Endpoint, amount: int) -> Transfer {
    Transfer { asset: Asset::PayToken, from, to, amount: amount as u64 }
}

/// The sum of the amounts of a sequence of transfers.
pub open spec fn total_moved(ts: Seq<Transfer>) -> int
    decreases ts.len(),
{
    if ts.len() == 0 {
        0
    } else {
        total_moved(ts.drop_last()) + ts.last().amount
    }
}

/// Whether every transfer of the sequence draws from `from`.
pub open spec fn all_from(ts: Seq<Transfer>, from: Endpoint) -> bool {
    forall|i: int| 0 <= i < ts.len() ==> (#[trigger] ts[i]).from == from
}

} // verus!
