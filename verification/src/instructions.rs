pub mod seller_approve_hourly_contract;
pub mod job_listing_with_feature_employer;
pub mod start_hourly_contract_on_buyer;
pub mod pay_worked_hour;
pub mod resume_hourly_contract;
pub mod update_worked_hour;
pub mod accept_contract_on_buyer;
pub mod activate_contract;
pub mod admin_withdraw_funds;
pub mod admin_withdraw_job;
