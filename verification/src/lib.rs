//! The rules of a gig marketplace escrow: fixed-price contracts, hourly
//! contracts paid week by week, and featured job listings. Each instruction
//! takes the stored contract and the relevant addresses and amounts, checks
//! who may act and when, updates the contract, and returns the transfers of
//! tokens or lamports that the instruction makes.
pub mod errors;
pub mod instructions;
pub mod keys;
pub mod guarantees;
pub mod laws;
pub mod state;
pub mod transfer;

pub use errors::GigContractError;
pub use instructions::accept_contract_on_buyer::accept_contract_on_buyer;
pub use instructions::activate_contract::activate_contract;
pub use instructions::admin_withdraw_funds::admin_withdraw_funds;
pub use instructions::admin_withdraw_job::admin_withdraw_job_contract;
pub use instructions::job_listing_with_feature_employer::job_listing_with_feature_employer;
pub use instructions::pay_worked_hour::pay_worked_hour;
pub use instructions::resume_hourly_contract::resume_hourly_contract;
pub use instructions::seller_approve_hourly_contract::seller_approve_hourly_contract;
pub use instructions::start_hourly_contract_on_buyer::start_hourly_contract_on_buyer;
pub use instructions::update_worked_hour::update_worked_hour;
pub use keys::Pubkey;
pub use state::{Contract, ContractStatus, HourlyContract, HourlyContractStatus, JobContract, JobContractStatus};
pub use transfer::{Asset, Endpoint, Transfer};
