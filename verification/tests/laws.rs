use gig_basic_contract::{
    job_listing_with_feature_employer, pay_worked_hour, resume_hourly_contract, seller_approve_hourly_contract,
    update_worked_hour, Endpoint, GigContractError, HourlyContract, HourlyContractStatus, JobContract, Pubkey,
};

fn key(n: u8) -> Pubkey {
    Pubkey { bytes: [n; 32] }
}

fn active_hourly() -> HourlyContract {
    let mut c = HourlyContract::default();
    c.buyer = key(1);
    c.seller = key(2);
    c.hourly_rate = 12;
    c.weekly_hours_limit = 40;
    c.dispute = 500_000;
    c.total_worked_hour = 100;
    c.status = HourlyContractStatus::Active;
    c
}

#[test]
fn weekly_cycle_returns_to_active_with_hours_added() {
    let mint = key(9);
    let start = active_hourly();
    let mut c = start.clone();
    update_worked_hour(&mut c, &key(2), 30).unwrap();
    let paid = pay_worked_hour(&mut c, &key(1), 30 * 12 * 1_000_000).unwrap();
    assert_eq!(paid[0].amount, 360_000_000);
    seller_approve_hourly_contract(&mut c, &mint, &mint, &key(2), 361_000_000).unwrap();
    let mut expected = start.clone();
    expected.total_worked_hour = 130;
    expected.week_worked_hour = 0;
    expected.seller_approved = true;
    assert_eq!(c, expected);
}

#[test]
fn release_keeps_both_dispute_deposits() {
    let mint = key(9);
    for escrow in [1_000_000u64, 1_000_001, 1_234_567, 99_999_999] {
        let mut c = active_hourly();
        c.status = HourlyContractStatus::Paid;
        c.buyer_referral = key(3);
        c.seller_referral = key(4);
        let ts = seller_approve_hourly_contract(&mut c, &mint, &mint, &key(2), escrow).unwrap();
        let total: u64 = ts.iter().map(|t| t.amount).sum();
        assert!(ts.iter().all(|t| t.from == Endpoint::ContractAta));
        assert!(escrow - total >= 1_000_000);
        let released = escrow - 1_000_000;
        assert_eq!(total, released * 90 / 100 + released * 10 / 100);
    }
}

#[test]
fn listing_pays_exactly_the_fee() {
    for (day, fee) in [(1u8, 21_000_000u64), (3, 36_000_000), (7, 71_000_000), (14, 100_000_000), (30, 150_000_000)] {
        for referral in [None, Some(key(6)), Some(key(5))] {
            let mut j = JobContract::default();
            let ts = job_listing_with_feature_employer(&mut j, String::new(), day, referral, &key(5)).unwrap();
            let total: u64 = ts.iter().map(|t| t.amount).sum();
            assert_eq!(total, fee);
            assert!(ts.iter().all(|t| t.from == Endpoint::EmployerAta));
        }
    }
}

#[test]
fn ended_contract_refuses_weekly_operations() {
    let mint = key(9);
    let mut c = active_hourly();
    c.status = HourlyContractStatus::Ended;
    let before = c.clone();
    assert_eq!(update_worked_hour(&mut c, &key(2), 1), Err(GigContractError::HourlyContractEnded));
    assert_eq!(pay_worked_hour(&mut c, &key(1), 0), Err(GigContractError::HourlyGigPayError));
    assert_eq!(
        seller_approve_hourly_contract(&mut c, &mint, &mint, &key(2), 2_000_000),
        Err(GigContractError::HourlyContractNotPaidYet)
    );
    assert_eq!(resume_hourly_contract(&mut c, &key(1)), Err(GigContractError::HourlyContractEnded));
    assert_eq!(c, before);
}

#[test]
fn week_stays_within_limit() {
    let mut c = active_hourly();
    assert!(update_worked_hour(&mut c, &key(2), 41).is_err());
    assert!(c.week_worked_hour <= c.weekly_hours_limit);
    update_worked_hour(&mut c, &key(2), 40).unwrap();
    assert!(c.week_worked_hour <= c.weekly_hours_limit);
    pay_worked_hour(&mut c, &key(1), 40 * 12 * 1_000_000).unwrap();
    assert_eq!(c.week_worked_hour, 0);
}
