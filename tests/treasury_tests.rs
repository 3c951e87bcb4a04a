use siglab_contract::admin::{
    initialize_master_contract, pause_contract, require_admin_authority, require_not_paused,
    resume_contract, transfer_authority, update_reserve_ratio, withdraw_treasury, InitializeParams,
    MasterInsuranceContract,
};
use siglab_contract::error::InsuranceError;
use siglab_contract::policy::{
    create_policy, pay_premium, validate_policy_claim_eligibility, ComparisonOperator,
    CreatePolicyParams, InsuranceType, OracleConfig, PolicyStatus, TriggerConditions,
};
use siglab_contract::pubkey::Pubkey;
use siglab_contract::treasury::{
    deposit_funds, initialize_treasury, process_payout_disbursement, process_premium_payment,
    update_treasury_balance, validate_treasury_balance, validate_treasury_solvency,
    withdraw_funds, FinancialReport, TokenType, Treasury, WithdrawalReason,
};

fn key(n: u128) -> Pubkey {
    Pubkey { high: 0, low: n }
}

fn master() -> MasterInsuranceContract {
    let params = InitializeParams { reserve_ratio: 20, max_oracles: 5, min_consensus_threshold: 3 };
    initialize_master_contract(key(1), params, 0).unwrap()
}

/// Treasury holding 800 (SOL) against an exposure of 1000, minimum 20%.
fn treasury_800_of_1000() -> Treasury {
    let mut t = initialize_treasury(key(1), 2000, 0).unwrap();
    deposit_funds(&mut t, 800, TokenType::SOL, 0).unwrap();
    t.total_coverage_exposure = 1000;
    t
}

fn policy_params() -> CreatePolicyParams {
    CreatePolicyParams {
        insurance_type: InsuranceType::Flight,
        coverage_amount: 5_000_000,
        premium_amount: 1_000_000,
        deductible: 0,
        policy_duration_days: 10,
        trigger_conditions: TriggerConditions {
            threshold_hundredths: 12_000,
            comparison_operator: ComparisonOperator::GreaterThan,
            data_source: "delay".to_string(),
            grace_period: 0,
        },
        oracle_config: OracleConfig {
            oracle_address: key(50),
            data_feed_id: "feed".to_string(),
            required_confirmations: 1,
            staleness_threshold: 600,
        },
        max_payout_per_incident: 5_000_000,
        waiting_period_hours: 0,
    }
}

#[test]
fn reserve_ratio_and_liquidity_example() {
    let t = treasury_800_of_1000();
    assert_eq!(t.calculate_reserve_ratio(), 8000);
    assert_eq!(t.available_liquidity(), 600);
    assert!(t.meets_reserve_requirement());
    let mut ok = t;
    let ev = withdraw_funds(&mut ok, key(1), 300, TokenType::SOL, WithdrawalReason::AdminWithdrawal, 5).unwrap();
    assert_eq!(ev.amount, 300);
    assert_eq!(ok.total_sol_balance, 500);
    assert_eq!(ok.withdrawal_count, 1);
    assert_eq!(ok.current_reserve_ratio, 5000);
    let mut refused = t;
    let r = withdraw_funds(&mut refused, key(1), 700, TokenType::SOL, WithdrawalReason::AdminWithdrawal, 5);
    assert_eq!(r.err(), Some(InsuranceError::ReserveRatioViolation));
    assert_eq!(refused, t);
}

#[test]
fn payout_withdrawal_bypasses_liquidity_guard() {
    let mut t = treasury_800_of_1000();
    let r = withdraw_funds(&mut t, key(1), 700, TokenType::SOL, WithdrawalReason::PolicyPayout, 5);
    assert!(r.is_ok());
    assert_eq!(t.total_sol_balance, 100);
    let r = withdraw_funds(&mut t, key(1), 101, TokenType::SOL, WithdrawalReason::PolicyPayout, 5);
    assert_eq!(r.err(), Some(InsuranceError::InsufficientTreasury));
    let r = withdraw_funds(&mut t, key(2), 1, TokenType::SOL, WithdrawalReason::PolicyPayout, 5);
    assert_eq!(r.err(), Some(InsuranceError::Unauthorized));
    let r = withdraw_funds(&mut t, key(1), 0, TokenType::SOL, WithdrawalReason::PolicyPayout, 5);
    assert_eq!(r.err(), Some(InsuranceError::InvalidInput));
}

#[test]
fn reserve_ratio_edges() {
    let mut t = initialize_treasury(key(1), 2000, 0).unwrap();
    assert_eq!(t.calculate_reserve_ratio(), 10000);
    t.total_coverage_exposure = 100;
    assert_eq!(t.calculate_reserve_ratio(), 0);
    deposit_funds(&mut t, 5_000, TokenType::USDC, 1).unwrap();
    assert_eq!(t.calculate_reserve_ratio(), 10000);
    assert_eq!(t.current_reserve_ratio, 10000);
    assert_eq!(initialize_treasury(key(1), 999, 0).err(), Some(InsuranceError::InvalidInput));
    assert_eq!(initialize_treasury(key(1), 5001, 0).err(), Some(InsuranceError::InvalidInput));
    assert_eq!(deposit_funds(&mut t, 0, TokenType::SOL, 1), Err(InsuranceError::InvalidInput));
    assert_eq!(deposit_funds(&mut t, u64::MAX, TokenType::SOL, 1), Err(InsuranceError::MathOverflow));
}

#[test]
fn ledger_records() {
    let mut t = initialize_treasury(key(1), 2000, 0).unwrap();
    assert_eq!(process_premium_payment(&mut t, 500, true, 3), Ok(()));
    assert_eq!(t.total_usdc_balance, 500);
    assert_eq!(t.total_premiums_collected_usdc, 500);
    assert_eq!(process_payout_disbursement(&mut t, 600, true, 4), Err(InsuranceError::InsufficientTreasury));
    assert_eq!(process_payout_disbursement(&mut t, 200, true, 4), Ok(()));
    assert_eq!(t.total_usdc_balance, 300);
    assert_eq!(t.total_payouts_disbursed_usdc, 200);
    assert_eq!(t.update_balances(-500, 70, 9), Ok(()));
    assert_eq!(t.total_usdc_balance, 0);
    assert_eq!(t.total_sol_balance, 70);
    assert_eq!(update_treasury_balance(&mut t, 11), Ok(()));
    assert_eq!(t.last_update_timestamp, 11);
    let report = FinancialReport::from_treasury(&t);
    assert_eq!(report.total_balance, 70);
    assert_eq!(report.total_premiums, 500);
    assert_eq!(report.total_payouts, 200);
    assert_eq!(report.net_result, 300);
    assert_eq!(report.available_liquidity, 70);
}

#[test]
fn solvency_checks() {
    let t = treasury_800_of_1000();
    assert_eq!(validate_treasury_solvency(&t, 3000), Ok(()));
    assert_eq!(validate_treasury_solvency(&t, 3001), Ok(()));
    assert_eq!(validate_treasury_solvency(&t, 3005), Err(InsuranceError::SolvencyCheckFailed));
    assert_eq!(validate_treasury_balance(1000, 700, 20), Ok(()));
    assert_eq!(validate_treasury_balance(1000, 900, 20), Err(InsuranceError::ReserveRatioBelowMinimum));
    assert_eq!(validate_treasury_balance(100, 900, 20), Err(InsuranceError::InsufficientTreasury));
    assert_eq!(validate_treasury_balance(u64::MAX, 1, 20), Err(InsuranceError::MathOverflow));
}

#[test]
fn reserve_ratio_updates() {
    let mut m = master();
    let mut t = treasury_800_of_1000();
    let ev = update_reserve_ratio(&mut m, &mut t, key(1), 50, 7).unwrap();
    assert_eq!(ev.old_ratio, 20);
    assert_eq!(ev.new_ratio, 50);
    assert_eq!(t.minimum_reserve_ratio, 5000);
    assert_eq!(m.reserve_ratio, 50);
    t.total_sol_balance = 400;
    assert_eq!(update_reserve_ratio(&mut m, &mut t, key(1), 41, 7).err(), Some(InsuranceError::ReserveRatioViolation));
    assert_eq!(update_reserve_ratio(&mut m, &mut t, key(1), 9, 7).err(), Some(InsuranceError::InvalidInput));
    assert_eq!(update_reserve_ratio(&mut m, &mut t, key(2), 30, 7).err(), Some(InsuranceError::Unauthorized));
    assert_eq!(m.reserve_ratio, 50);
}

#[test]
fn admin_withdrawal_always_guarded() {
    let mut m = master();
    let mut t = treasury_800_of_1000();
    assert_eq!(withdraw_treasury(&mut m, &mut t, key(1), 700, TokenType::SOL, 3).err(), Some(InsuranceError::ReserveRatioViolation));
    assert!(withdraw_treasury(&mut m, &mut t, key(1), 600, TokenType::SOL, 3).is_ok());
    assert_eq!(t.total_sol_balance, 200);
    assert_eq!(m.updated_at, 3);
    assert_eq!(withdraw_treasury(&mut m, &mut t, key(2), 1, TokenType::SOL, 3).err(), Some(InsuranceError::Unauthorized));
}

#[test]
fn pause_resume_and_authority() {
    let mut m = master();
    assert_eq!(require_not_paused(&m), Ok(()));
    assert_eq!(resume_contract(&mut m, key(1), 1).err(), Some(InsuranceError::ContractMustBePaused));
    assert!(pause_contract(&mut m, key(1), 2).is_ok());
    assert_eq!(require_not_paused(&m), Err(InsuranceError::ContractPaused));
    assert_eq!(pause_contract(&mut m, key(1), 3).err(), Some(InsuranceError::ContractPaused));
    assert_eq!(create_policy(&mut m, key(9), policy_params(), 4).err(), Some(InsuranceError::ContractPaused));
    assert!(resume_contract(&mut m, key(1), 5).is_ok());
    assert_eq!(require_admin_authority(&m, &key(1)), Ok(()));
    assert_eq!(transfer_authority(&mut m, key(2), key(3), 6), Err(InsuranceError::Unauthorized));
    assert_eq!(transfer_authority(&mut m, key(1), key(3), 6), Ok(()));
    assert_eq!(require_admin_authority(&m, &key(1)), Err(InsuranceError::Unauthorized));
    let bad = InitializeParams { reserve_ratio: 20, max_oracles: 2, min_consensus_threshold: 3 };
    assert_eq!(initialize_master_contract(key(1), bad, 0).err(), Some(InsuranceError::InvalidInput));
}

#[test]
fn policy_issue_and_premiums() {
    let mut m = master();
    let (mut p, ev) = create_policy(&mut m, key(9), policy_params(), 1_700_000_000).unwrap();
    assert_eq!(p.id, "POL-1700000000-0");
    assert_eq!(ev.policy_id, "POL-1700000000-0");
    assert_eq!(ev.insurance_type, 2);
    assert_eq!(p.end_date, 1_700_000_000 + 10 * 86_400);
    assert_eq!(p.status, PolicyStatus::Active);
    assert_eq!(m.active_policies_count, 1);
    let (q, _) = create_policy(&mut m, key(9), policy_params(), -5).unwrap();
    assert_eq!(q.id, "POL--5-1");
    let mut low = policy_params();
    low.premium_amount = 10;
    assert_eq!(create_policy(&mut m, key(9), low, 0).err(), Some(InsuranceError::InsufficientPremium));
    let mut big = policy_params();
    big.coverage_amount = 0;
    assert_eq!(create_policy(&mut m, key(9), big, 0).err(), Some(InsuranceError::CoverageExceedsMaximum));
    let mut ded = policy_params();
    ded.deductible = 6_000_000;
    assert_eq!(create_policy(&mut m, key(9), ded, 0).err(), Some(InsuranceError::InvalidParameters));
    let mut long = policy_params();
    long.policy_duration_days = 366;
    assert_eq!(create_policy(&mut m, key(9), long, 0).err(), Some(InsuranceError::InvalidParameters));
    let ev = pay_premium(&mut p, &mut m, key(9), 1_000_000, 1_700_000_100).unwrap();
    assert_eq!(ev.amount, 1_000_000);
    assert_eq!(m.total_premiums_collected, 1_000_000);
    assert_eq!(p.last_premium_paid, 1_700_000_100);
    assert_eq!(pay_premium(&mut p, &mut m, key(8), 1_000_000, 1_700_000_100).err(), Some(InsuranceError::Unauthorized));
    assert_eq!(pay_premium(&mut p, &mut m, key(9), 999_999, 1_700_000_100).err(), Some(InsuranceError::InsufficientPremium));
    assert_eq!(pay_premium(&mut p, &mut m, key(9), 1_000_000, 1_800_000_000).err(), Some(InsuranceError::PolicyExpired));
    assert_eq!(validate_policy_claim_eligibility(10, &PolicyStatus::Active, 10), Ok(()));
    assert_eq!(validate_policy_claim_eligibility(10, &PolicyStatus::Active, 11), Err(InsuranceError::PolicyExpired));
    assert_eq!(validate_policy_claim_eligibility(10, &PolicyStatus::PaidOut, 1), Err(InsuranceError::PolicyNotActive));
}
