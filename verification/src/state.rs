use vstd::prelude::*;

use crate::keys::{Pubkey, no_referral, spec_no_referral, spec_zero_key};

verus! {

/// Where a fixed-price contract stands.
#[derive(Clone, Copy, Debug, PartialEq, Eq, Structural)]
pub enum ContractStatus {
    NoExist,
    Created,
    Active,
    Accepted,
    Pending,
    Dispute,
    Completed,
}

/// A fixed-price gig between a buyer and a seller.
#[derive(Clone, Debug, PartialEq, Eq)]
pub struct Contract {
    pub buyer: Pubkey,
    pub seller: Pubkey,
    pub buyer_referral: Pubkey,
    pub seller_referral: Pubkey,
    pub contract_id: String,
    pub start_time: u32,
    pub deadline: u32,
    pub amount: u64,
    pub dispute: u64,
    pub split: bool,
    /// Whether the seller agrees with a split decision.
    pub seller_satisfied: bool,
    pub buyer_approved: bool,
    pub seller_approved: bool,
    pub admin_approved: bool,
    pub status: ContractStatus,
    pub payment_method: String,
}

/// Where an hourly contract stands.
#[derive(Clone, Copy, Debug, PartialEq, Eq, Structural)]
pub enum HourlyContractStatus {
    NoExist,
    Created,
    Active,
    Accepted,
    ReadyToPay,
    Paid,
    Pending,
    Dispute,
    Completed,
    Ended,
}

/// An hourly gig: the seller reports hours each week and the buyer pays them.
#[derive(Clone, Debug, PartialEq, Eq)]
pub struct HourlyContract {
    pub buyer: Pubkey,
    pub seller: Pubkey,
    pub buyer_referral: Pubkey,
    pub seller_referral: Pubkey,
    pub contract_id: String,
    pub start_time: u32,
    pub deadline: u32,
    pub dispute: u64,
    pub split: bool,
    /// Whether the seller agrees with a split decision.
    pub seller_satisfied: bool,
    pub buyer_approved: bool,
    pub seller_approved: bool,
    pub admin_approved: bool,
    pub paused: bool,
    pub status: HourlyContractStatus,
    pub hourly_rate: u32,
    /// Hours reported by the seller for the current week.
    pub week_worked_hour: u32,
    /// Hours paid so far.
    pub total_worked_hour: u32,
    /// The most hours the seller may report for a week.
    pub weekly_hours_limit: u32,
}

/// Where a job listing stands.
#[derive(Clone, Copy, Debug, PartialEq, Eq, Structural)]
pub enum JobContractStatus {
    Initialized,
    NotInitialized,
    NoExist,
    Created,
    Active,
    Accepted,
    Pending,
    Dispute,
    Completed,
    Listed,
}

/// A job listing posted by an employer.
#[derive(Clone, Debug, PartialEq, Eq)]
pub struct JobContract {
    pub employer: Pubkey,
    pub employee: Pubkey,
    pub employer_referral: Pubkey,
    pub employee_referral: Pubkey,
    pub contract_id: String,
    pub start_time: u32,
    pub deadline: u32,
    pub amount: u64,
    pub dispute: u64,
    pub split: bool,
    /// Whether the employer agrees with a split decision.
    pub employer_satisfied: bool,
    pub employer_approved: bool,
    pub employee_approved: bool,
    pub admin_approved: bool,
    pub status: JobContractStatus,
    pub featured: bool,
    pub featured_day: u8,
}

/// The payment method name `USDC`.
pub open spec fn spec_usdc() -> Seq<char> {
    seq!['U', 'S', 'D', 'C']
}

/// The payment method name `SOL`.
pub open spec fn spec_sol() -> Seq<char> {
    seq!['S', 'O', 'L']
}

/// A new `String` holding `USDC`.
pub fn usdc_name() -> (s: String)
    ensures
        s@ == spec_usdc(),
{
    let s = "USDC".to_string();
    proof {
        reveal_strlit("USDC");
    }
    assert(s@ =~= spec_usdc());
    s
}

/// A new `String` holding `SOL`.
pub fn sol_name() -> (s: String)
    ensures
        s@ == spec_sol(),
{
    let s = "SOL".to_string();
    proof {
        reveal_strlit("SOL");
    }
    assert(s@ =~= spec_sol());
    s
}

impl Default for Contract {
    fn default() -> (c: Contract)
        ensures
            c.contract_id@ == Seq::<char>::empty(),
            c.buyer@ == spec_zero_key(),
            c.seller@ == spec_zero_key(),
            c.buyer_referral@ == spec_no_referral(),
            c.seller_referral@ == spec_no_referral(),
            c.start_time == 0,
            c.deadline == 0,
            c.amount == 0,
            c.dispute == 0,
            !c.split,
            !c.seller_satisfied,
            !c.buyer_approved,
            !c.seller_approved,
            !c.admin_approved,
            c.status == ContractStatus::NoExist,
            c.payment_method@ == spec_usdc(),
    {
        Contract {
            contract_id: String::new(),
            buyer: Pubkey::default(),
            seller: Pubkey::default(),
            buyer_referral: no_referral(),
            seller_referral: no_referral(),
            start_time: 0,
            deadline: 0,
            amount: 0,
            dispute: 0,
            split: false,
            seller_satisfied: false,
            buyer_approved: false,
            seller_approved: false,
            admin_approved: false,
            status: ContractStatus::NoExist,
            payment_method: usdc_name(),
        }
    }
}

impl Default for HourlyContract {
    fn default() -> (c: HourlyContract)
        ensures
            c.contract_id@ == Seq::<char>::empty(),
            c.buyer@ == spec_zero_key(),
            c.seller@ == spec_zero_key(),
            c.buyer_referral@ == spec_no_referral(),
            c.seller_referral@ == spec_no_referral(),
            c.start_time == 0,
            c.deadline == 0,
            c.dispute == 0,
            !c.split,
            !c.seller_satisfied,
            !c.buyer_approved,
            !c.seller_approved,
            !c.admin_approved,
            !c.paused,
            c.status == HourlyContractStatus::NoExist,
            c.hourly_rate == 0,
            c.week_worked_hour == 0,
            c.total_worked_hour == 0,
            c.weekly_hours_limit == 0,
    {
        HourlyContract {
            contract_id: String::new(),
            buyer: Pubkey::default(),
            seller: Pubkey::default(),
            buyer_referral: no_referral(),
            seller_referral: no_referral(),
            start_time: 0,
            deadline: 0,
            dispute: 0,
            split: false,
            seller_satisfied: false,
            buyer_approved: false,
            seller_approved: false,
            admin_approved: false,
            paused: false,
            status: HourlyContractStatus::NoExist,
            hourly_rate: 0,
            week_worked_hour: 0,
            total_worked_hour: 0,
            weekly_hours_limit: 0,
        }
    }
}

impl Default for JobContract {
    fn default() -> (c: JobContract)
        ensures
            c.contract_id@ == Seq::<char>::empty(),
            c.employer@ == spec_zero_key(),
            c.employee@ == spec_zero_key(),
            c.employer_referral@ == spec_no_referral(),
            c.employee_referral@ == spec_no_referral(),
            c.start_time == 0,
            c.deadline == 0,
            c.amount == 0,
            c.dispute == 0,
            !c.split,
            !c.employer_satisfied,
            !c.employer_approved,
            !c.employee_approved,
            !c.admin_approved,
            c.status == JobContractStatus::NoExist,
            !c.featured,
            c.featured_day == 0,
    {
        JobContract {
            contract_id: String::new(),
            employer: Pubkey::default(),
            employee: Pubkey::default(),
            employer_referral: no_referral(),
            employee_referral: no_referral(),
            start_time: 0,
            deadline: 0,
            amount: 0,
            dispute: 0,
            split: false,
            employer_satisfied: false,
            employer_approved: false,
            employee_approved: false,
            admin_approved: false,
            status: JobContractStatus::NoExist,
            featured: false,
            featured_day: 0,
        }
    }
}

} // verus!
