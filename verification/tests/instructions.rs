use gig_basic_contract::instructions::job_listing_with_feature_employer::listing_fee;
use gig_basic_contract::instructions::pay_worked_hour::hourly_pay;
use gig_basic_contract::keys::no_referral;
use gig_basic_contract::state::{sol_name, usdc_name};
use gig_basic_contract::{
    accept_contract_on_buyer, activate_contract, admin_withdraw_funds, admin_withdraw_job_contract,
    job_listing_with_feature_employer, pay_worked_hour, resume_hourly_contract, seller_approve_hourly_contract,
    start_hourly_contract_on_buyer, update_worked_hour, Asset, Contract, ContractStatus, Endpoint, GigContractError,
    HourlyContract, HourlyContractStatus, JobContract, JobContractStatus, Pubkey, Transfer,
};

fn key(n: u8) -> Pubkey {
    Pubkey { bytes: [n; 32] }
}

fn tokens(from: Endpoint, to: Endpoint, amount: u64) -> Transfer {
    Transfer { asset: Asset::PayToken, from, to, amount }
}

fn lamports(from: Endpoint, to: Endpoint, amount: u64) -> Transfer {
    Transfer { asset: Asset::Lamports, from, to, amount }
}

fn created_contract(method: String) -> Contract {
    let mut c = Contract::default();
    c.buyer = key(1);
    c.seller = key(2);
    c.amount = 10_000_000;
    c.dispute = 500_000;
    c.status = ContractStatus::Created;
    c.payment_method = method;
    c
}

fn hourly(status: HourlyContractStatus) -> HourlyContract {
    let mut c = HourlyContract::default();
    c.buyer = key(1);
    c.seller = key(2);
    c.hourly_rate = 25;
    c.weekly_hours_limit = 40;
    c.dispute = 500_000;
    c.status = status;
    c
}

#[test]
fn pubkey_same_compares_all_bytes() {
    let a = key(4);
    let mut b = key(4);
    assert!(a.same(&b));
    b.bytes[31] = 5;
    assert!(!a.same(&b));
}

#[test]
fn no_referral_is_the_placeholder_address() {
    let k = no_referral();
    assert_eq!(k.bytes[0], 43);
    assert_eq!(k.bytes[31], 76);
    assert_eq!(
        k.bytes,
        [
            43, 215, 230, 25, 15, 11, 194, 229, 9, 95, 200, 131, 184, 36, 163, 159, 217, 115, 67, 116, 90, 159, 108,
            37, 47, 8, 251, 48, 183, 99, 177, 76
        ]
    );
}

#[test]
fn defaults_match_the_program() {
    let c = Contract::default();
    assert_eq!(c.payment_method, "USDC");
    assert_eq!(c.contract_id, "");
    assert_eq!(c.status, ContractStatus::NoExist);
    assert_eq!(c.buyer, Pubkey { bytes: [0; 32] });
    assert_eq!(c.buyer_referral, no_referral());
    assert_eq!(c.seller_referral, no_referral());
    let h = HourlyContract::default();
    assert_eq!(h.status, HourlyContractStatus::NoExist);
    assert!(!h.paused);
    assert_eq!(h.buyer_referral, no_referral());
    let j = JobContract::default();
    assert_eq!(j.status, JobContractStatus::NoExist);
    assert_eq!(j.employer_referral, no_referral());
    assert!(!j.featured);
    assert_eq!(sol_name(), "SOL");
    assert_eq!(usdc_name(), "USDC");
}

#[test]
fn accept_in_usdc_escrows_price_and_dispute_in_tokens() {
    let mut c = created_contract("USDC".to_string());
    let ts = accept_contract_on_buyer(&mut c, &key(1), None).unwrap();
    assert_eq!(ts, vec![tokens(Endpoint::BuyerAta, Endpoint::ContractAta, 10_500_000)]);
    assert_eq!(c.status, ContractStatus::Accepted);
    assert_eq!(c.buyer_referral, no_referral());
}

#[test]
fn accept_in_sol_escrows_price_and_dispute_in_lamports() {
    let mut c = created_contract("SOL".to_string());
    let ts = accept_contract_on_buyer(&mut c, &key(1), Some(key(9))).unwrap();
    assert_eq!(ts, vec![lamports(Endpoint::BuyerWallet, Endpoint::ContractAccount, 10_500_000)]);
    assert_eq!(c.buyer_referral, key(9));
}

#[test]
fn accept_refuses_method_without_deposit() {
    let mut c = created_contract("BTC".to_string());
    let before = c.clone();
    assert_eq!(accept_contract_on_buyer(&mut c, &key(1), Some(key(9))), Err(GigContractError::PayTokenMintError));
    assert_eq!(c, before);
    assert_eq!(c.status, ContractStatus::Created);
}

#[test]
fn accept_refuses_other_buyer_and_wrong_status() {
    let mut c = created_contract("USDC".to_string());
    let before = c.clone();
    assert_eq!(accept_contract_on_buyer(&mut c, &key(2), None), Err(GigContractError::InvalidAcceptor));
    assert_eq!(c, before);
    c.status = ContractStatus::Active;
    let before = c.clone();
    assert_eq!(accept_contract_on_buyer(&mut c, &key(1), Some(key(9))), Err(GigContractError::CantAccept));
    assert_eq!(c, before);
}

#[test]
fn activate_with_dispute_escrows_the_fee() {
    let mut c = created_contract("USDC".to_string());
    let ts = activate_contract(&mut c, &key(2), Some(key(8)), true).unwrap();
    assert_eq!(ts, vec![tokens(Endpoint::SellerAta, Endpoint::ContractAta, 500_000)]);
    assert_eq!(c.status, ContractStatus::Active);
    assert_eq!(c.seller_referral, key(8));
}

#[test]
fn activate_accepted_without_dispute_moves_nothing() {
    let mut c = created_contract("USDC".to_string());
    c.status = ContractStatus::Accepted;
    let ts = activate_contract(&mut c, &key(2), None, false).unwrap();
    assert!(ts.is_empty());
    assert_eq!(c.status, ContractStatus::Active);
    assert_eq!(c.seller_referral, no_referral());
}

#[test]
fn activate_refuses_other_seller_and_wrong_status() {
    let mut c = created_contract("USDC".to_string());
    let before = c.clone();
    assert_eq!(activate_contract(&mut c, &key(1), None, true), Err(GigContractError::InvalidActivator));
    assert_eq!(c, before);
    c.status = ContractStatus::Completed;
    let before = c.clone();
    assert_eq!(activate_contract(&mut c, &key(2), None, true), Err(GigContractError::CantActivate));
    assert_eq!(c, before);
}

#[test]
fn admin_withdraw_funds_cases() {
    let admin = key(3);
    assert_eq!(admin_withdraw_funds(&admin, 10, &key(4), 0, 100, 100), Err(GigContractError::InvalidAdmin));
    assert_eq!(
        admin_withdraw_funds(&admin, 100, &admin, 0, 100, 0),
        Ok(lamports(Endpoint::ContractAccount, Endpoint::Withdrawer, 100))
    );
    assert_eq!(admin_withdraw_funds(&admin, 101, &admin, 0, 100, 1000), Err(GigContractError::InsufficientFunds));
    assert_eq!(
        admin_withdraw_funds(&admin, 7, &admin, 1, 0, 7),
        Ok(lamports(Endpoint::JobContractAccount, Endpoint::Withdrawer, 7))
    );
    assert_eq!(admin_withdraw_funds(&admin, 8, &admin, 1, 100, 7), Err(GigContractError::InsufficientFunds));
    assert_eq!(admin_withdraw_funds(&admin, 1, &admin, 2, 100, 100), Err(GigContractError::InvalidContractType));
}

#[test]
fn admin_withdraw_job_contract_takes_whole_balance() {
    assert_eq!(admin_withdraw_job_contract(123_456), tokens(Endpoint::ContractAta, Endpoint::WithdrawAta, 123_456));
}

#[test]
fn listing_fees_by_featured_day() {
    assert_eq!(listing_fee(1), Some(21_000_000));
    assert_eq!(listing_fee(3), Some(36_000_000));
    assert_eq!(listing_fee(7), Some(71_000_000));
    assert_eq!(listing_fee(14), Some(100_000_000));
    assert_eq!(listing_fee(30), Some(150_000_000));
    assert_eq!(listing_fee(2), None);
    assert_eq!(listing_fee(0), None);
}

#[test]
fn listing_with_referral_shares_ten_percent() {
    let mut j = JobContract::default();
    let ts = job_listing_with_feature_employer(&mut j, "job-1".to_string(), 7, Some(key(6)), &key(5)).unwrap();
    assert_eq!(
        ts,
        vec![
            tokens(Endpoint::EmployerAta, Endpoint::EmployerReferralAta, 7_100_000),
            tokens(Endpoint::EmployerAta, Endpoint::ContractAta, 63_900_000),
        ]
    );
    assert_eq!(j.employer_referral, key(6));
    assert_eq!(j.contract_id, "job-1");
    assert_eq!(j.status, JobContractStatus::Created);
    assert!(j.featured);
    assert_eq!(j.featured_day, 7);
}

#[test]
fn listing_with_excluded_or_no_referral_pays_contract_only() {
    let mut j = JobContract::default();
    let ts = job_listing_with_feature_employer(&mut j, "job-2".to_string(), 30, Some(key(5)), &key(5)).unwrap();
    assert_eq!(ts, vec![tokens(Endpoint::EmployerAta, Endpoint::ContractAta, 150_000_000)]);
    assert_eq!(j.employer_referral, no_referral());
    let mut j = JobContract::default();
    let ts = job_listing_with_feature_employer(&mut j, "job-3".to_string(), 1, None, &key(5)).unwrap();
    assert_eq!(ts, vec![tokens(Endpoint::EmployerAta, Endpoint::ContractAta, 21_000_000)]);
    assert_eq!(j.featured_day, 1);
}

#[test]
fn listing_refuses_unknown_length() {
    let mut j = JobContract::default();
    let before = j.clone();
    assert_eq!(
        job_listing_with_feature_employer(&mut j, "job-4".to_string(), 5, Some(key(6)), &key(5)),
        Err(GigContractError::InvalidFeaturedDay)
    );
    assert_eq!(j, before);
}

#[test]
fn hourly_pay_is_hours_times_rate_in_base_units() {
    assert_eq!(hourly_pay(10, 25), 250_000_000);
    assert_eq!(hourly_pay(0, 25), 0);
    assert_eq!(hourly_pay(u32::MAX, u32::MAX), (u32::MAX as u128) * (u32::MAX as u128) * 1_000_000);
}

#[test]
fn pay_worked_hour_moves_week_into_total() {
    let mut c = hourly(HourlyContractStatus::ReadyToPay);
    c.week_worked_hour = 10;
    c.total_worked_hour = 5;
    let ts = pay_worked_hour(&mut c, &key(1), 250_000_000).unwrap();
    assert_eq!(ts, vec![tokens(Endpoint::BuyerAta, Endpoint::ContractAta, 250_000_000)]);
    assert_eq!(c.status, HourlyContractStatus::Paid);
    assert_eq!(c.total_worked_hour, 15);
    assert_eq!(c.week_worked_hour, 0);
}

#[test]
fn pay_worked_hour_refusals() {
    let mut c = hourly(HourlyContractStatus::ReadyToPay);
    c.week_worked_hour = 10;
    let before = c.clone();
    assert_eq!(pay_worked_hour(&mut c, &key(2), 250_000_000), Err(GigContractError::InvalidActivator));
    assert_eq!(pay_worked_hour(&mut c, &key(1), 250_000_001), Err(GigContractError::PayAmountError));
    assert_eq!(pay_worked_hour(&mut c, &key(1), 25_000_000), Err(GigContractError::PayAmountError));
    assert_eq!(c, before);
    c.status = HourlyContractStatus::Active;
    let before = c.clone();
    assert_eq!(pay_worked_hour(&mut c, &key(1), 250_000_000), Err(GigContractError::HourlyGigPayError));
    assert_eq!(c, before);
}

#[test]
fn resume_hourly_contract_cases() {
    let mut c = hourly(HourlyContractStatus::Active);
    c.paused = true;
    assert_eq!(resume_hourly_contract(&mut c, &key(2)), Err(GigContractError::InvalidActivator));
    assert!(c.paused);
    assert_eq!(resume_hourly_contract(&mut c, &key(1)), Ok(()));
    assert!(!c.paused);
    let mut e = hourly(HourlyContractStatus::Ended);
    e.paused = true;
    assert_eq!(resume_hourly_contract(&mut e, &key(1)), Err(GigContractError::HourlyContractEnded));
    assert!(e.paused);
}

#[test]
fn update_worked_hour_cases() {
    let mut c = hourly(HourlyContractStatus::Active);
    let before = c.clone();
    assert_eq!(update_worked_hour(&mut c, &key(1), 10), Err(GigContractError::InvalidActivator));
    assert_eq!(update_worked_hour(&mut c, &key(2), 41), Err(GigContractError::WeeklyHoursLimitError));
    assert_eq!(c, before);
    assert_eq!(update_worked_hour(&mut c, &key(2), 40), Ok(()));
    assert_eq!(c.status, HourlyContractStatus::ReadyToPay);
    assert_eq!(c.week_worked_hour, 40);

    let mut p = hourly(HourlyContractStatus::Active);
    p.paused = true;
    assert_eq!(update_worked_hour(&mut p, &key(2), 1), Err(GigContractError::HourlyContractPaused));
    let mut e = hourly(HourlyContractStatus::Ended);
    assert_eq!(update_worked_hour(&mut e, &key(2), 1), Err(GigContractError::HourlyContractEnded));
    let mut r = hourly(HourlyContractStatus::Paid);
    assert_eq!(update_worked_hour(&mut r, &key(2), 1), Err(GigContractError::CantRelease));
    assert_eq!(r.status, HourlyContractStatus::Paid);
}

#[test]
fn seller_approve_splits_the_release() {
    let mint = key(9);
    let mut c = hourly(HourlyContractStatus::Paid);
    c.buyer_referral = key(11);
    c.seller_referral = key(12);
    // 2 * dispute stays in escrow; 1_000_000 is released
    let ts = seller_approve_hourly_contract(&mut c, &mint, &mint, &key(2), 2_000_000).unwrap();
    assert_eq!(
        ts,
        vec![
            tokens(Endpoint::ContractAta, Endpoint::SellerAta, 900_000),
            tokens(Endpoint::ContractAta, Endpoint::BuyerReferralAta, 10_000),
            tokens(Endpoint::ContractAta, Endpoint::SellerReferralAta, 10_000),
            tokens(Endpoint::ContractAta, Endpoint::AdminAta, 80_000),
        ]
    );
    assert_eq!(c.status, HourlyContractStatus::Active);
    assert!(c.seller_approved);
}

#[test]
fn seller_approve_without_referrals_rounds_down() {
    let mint = key(9);
    let mut c = hourly(HourlyContractStatus::Paid);
    let ts = seller_approve_hourly_contract(&mut c, &mint, &mint, &key(2), 1_000_999).unwrap();
    assert_eq!(
        ts,
        vec![
            tokens(Endpoint::ContractAta, Endpoint::SellerAta, 899),
            tokens(Endpoint::ContractAta, Endpoint::AdminAta, 99),
        ]
    );
}

#[test]
fn seller_approve_refusals() {
    let mint = key(9);
    let mut c = hourly(HourlyContractStatus::Paid);
    let before = c.clone();
    assert_eq!(
        seller_approve_hourly_contract(&mut c, &key(8), &mint, &key(2), 2_000_000),
        Err(GigContractError::PayTokenMintError)
    );
    assert_eq!(
        seller_approve_hourly_contract(&mut c, &mint, &mint, &key(1), 2_000_000),
        Err(GigContractError::InvalidSeller)
    );
    assert_eq!(c, before);
    let mut a = hourly(HourlyContractStatus::Active);
    assert_eq!(
        seller_approve_hourly_contract(&mut a, &mint, &mint, &key(2), 0),
        Err(GigContractError::HourlyContractNotPaidYet)
    );
}

#[test]
fn start_hourly_contract_sets_terms_and_escrows_dispute() {
    let mint = key(9);
    let mut c = HourlyContract::default();
    let ts = start_hourly_contract_on_buyer(
        &mut c,
        "h-1".to_string(),
        &mint,
        &mint,
        &key(1),
        &key(2),
        Some(key(7)),
        30,
        20,
        500_000,
        1_800_000_000,
        1_700_000_000,
    )
    .unwrap();
    assert_eq!(ts, vec![tokens(Endpoint::BuyerAta, Endpoint::ContractAta, 500_000)]);
    assert_eq!(c.contract_id, "h-1");
    assert_eq!(c.buyer, key(1));
    assert_eq!(c.seller, key(2));
    assert_eq!(c.buyer_referral, key(7));
    assert_eq!(c.seller_referral, no_referral());
    assert_eq!(c.start_time, 1_700_000_000);
    assert_eq!(c.deadline, 1_800_000_000);
    assert_eq!(c.hourly_rate, 30);
    assert_eq!(c.weekly_hours_limit, 20);
    assert_eq!(c.dispute, 500_000);
    assert_eq!(c.status, HourlyContractStatus::Created);
}

#[test]
fn start_hourly_contract_truncates_timestamp_and_defaults_referral() {
    let mint = key(9);
    let mut c = HourlyContract::default();
    c.buyer_referral = key(4);
    start_hourly_contract_on_buyer(&mut c, String::new(), &mint, &mint, &key(1), &key(2), None, 1, 1, 500_000, 0, (1i64 << 32) + 5)
        .unwrap();
    assert_eq!(c.start_time, 5);
    assert_eq!(c.buyer_referral, no_referral());
    let mut d = HourlyContract::default();
    start_hourly_contract_on_buyer(&mut d, String::new(), &mint, &mint, &key(1), &key(2), None, 1, 1, 500_000, 0, -1)
        .unwrap();
    assert_eq!(d.start_time, u32::MAX);
}

#[test]
fn start_hourly_contract_refusals() {
    let mint = key(9);
    let mut c = HourlyContract::default();
    let before = c.clone();
    assert_eq!(
        start_hourly_contract_on_buyer(&mut c, String::new(), &key(8), &mint, &key(1), &key(2), None, 1, 1, 500_000, 0, 0),
        Err(GigContractError::PayTokenMintError)
    );
    assert_eq!(
        start_hourly_contract_on_buyer(&mut c, String::new(), &mint, &mint, &key(1), &key(2), None, 1, 1, 499_999, 0, 0),
        Err(GigContractError::InvalidDisputeAmount)
    );
    assert_eq!(c, before);
}
