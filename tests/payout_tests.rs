use siglab_contract::admin::{initialize_master_contract, InitializeParams, MasterInsuranceContract};
use siglab_contract::error::InsuranceError;
use siglab_contract::payout::{
    add_to_payout_queue, approve_payout, calculate_priority, calculate_severity_percentage,
    cleanup_expired_payouts, evaluate_trigger_conditions, execute_payout, get_next_payout_batch,
    get_queue_statistics, reject_payout, remove_from_queue, trigger_payout, validate_queue_health,
    PayoutCalculationData, PayoutStatus, PendingPayout,
};
use siglab_contract::policy::{
    create_policy, ComparisonOperator, CreatePolicyParams, InsuranceType, OracleConfig, Policy,
    PolicyStatus, TriggerConditions,
};
use siglab_contract::pubkey::Pubkey;
use siglab_contract::treasury::{deposit_funds, initialize_treasury, TokenType, Treasury};

fn key(n: u128) -> Pubkey {
    Pubkey { high: 0, low: n }
}

fn master() -> MasterInsuranceContract {
    let params = InitializeParams { reserve_ratio: 20, max_oracles: 5, min_consensus_threshold: 3 };
    initialize_master_contract(key(1), params, 0).unwrap()
}

fn conditions(op: ComparisonOperator, threshold_hundredths: u64) -> TriggerConditions {
    TriggerConditions {
        threshold_hundredths,
        comparison_operator: op,
        data_source: "rain".to_string(),
        grace_period: 0,
    }
}

fn params(coverage: u64, deductible: u64, max_payout: u64) -> CreatePolicyParams {
    CreatePolicyParams {
        insurance_type: InsuranceType::Earthquake,
        coverage_amount: coverage,
        premium_amount: 1_000_000,
        deductible,
        policy_duration_days: 30,
        trigger_conditions: conditions(ComparisonOperator::GreaterThan, 10_000),
        oracle_config: OracleConfig {
            oracle_address: key(50),
            data_feed_id: "feed".to_string(),
            required_confirmations: 3,
            staleness_threshold: 600,
        },
        max_payout_per_incident: max_payout,
        waiting_period_hours: 1,
    }
}

fn entry(name: &str, priority: u8, timestamp: i64, status: PayoutStatus) -> PendingPayout {
    PendingPayout {
        policy_id: name.to_string(),
        amount: 10,
        timestamp,
        priority,
        status,
        beneficiary: key(9),
        trigger_oracle_value: 0,
        severity_score: 0,
        approval_timestamp: None,
        approved_by: None,
        expires_at: timestamp + 86_400,
        rejection_reason: None,
    }
}

fn funded_treasury(sol: u64) -> Treasury {
    let mut t = initialize_treasury(key(1), 2000, 0).unwrap();
    if sol > 0 {
        deposit_funds(&mut t, sol, TokenType::SOL, 0).unwrap();
    }
    t
}

fn policy_for(m: &mut MasterInsuranceContract, coverage: u64, deductible: u64, max_payout: u64) -> Policy {
    create_policy(m, key(9), params(coverage, deductible, max_payout), 0).unwrap().0
}

#[test]
fn payout_amount_examples() {
    let d = PayoutCalculationData { coverage_amount: 1000, deductible: 100, severity_percentage: 50, max_payout: 600, insurance_type: InsuranceType::Weather };
    assert_eq!(d.calculate_payout(), 400);
    let d = PayoutCalculationData { coverage_amount: 1000, deductible: 600, severity_percentage: 50, max_payout: 600, insurance_type: InsuranceType::Weather };
    assert_eq!(d.calculate_payout(), 0);
    let d = PayoutCalculationData { coverage_amount: 1000, deductible: 100, severity_percentage: 100, max_payout: 600, insurance_type: InsuranceType::Weather };
    assert_eq!(d.calculate_payout(), 600);
}

#[test]
fn triggers_severity_and_priority() {
    let gt = conditions(ComparisonOperator::GreaterThan, 10_000);
    assert_eq!(evaluate_trigger_conditions(&gt, 101), Ok(true));
    assert_eq!(evaluate_trigger_conditions(&gt, 100), Ok(false));
    let lt = conditions(ComparisonOperator::LessThan, 10_000);
    assert_eq!(evaluate_trigger_conditions(&lt, 99), Ok(true));
    let eq = conditions(ComparisonOperator::Equals, 10_000);
    assert_eq!(evaluate_trigger_conditions(&eq, 100), Ok(true));
    let eq_frac = conditions(ComparisonOperator::Equals, 10_050);
    assert_eq!(evaluate_trigger_conditions(&eq_frac, 100), Ok(false));
    let ne = conditions(ComparisonOperator::NotEquals, 10_000);
    assert_eq!(evaluate_trigger_conditions(&ne, 100), Ok(false));
    assert_eq!(calculate_severity_percentage(&gt, 150), Ok(50));
    assert_eq!(calculate_severity_percentage(&gt, 400), Ok(100));
    assert_eq!(calculate_severity_percentage(&conditions(ComparisonOperator::GreaterThan, 0), 5), Ok(100));
    assert_eq!(calculate_severity_percentage(&conditions(ComparisonOperator::GreaterThan, 0), 0), Ok(0));
    assert_eq!(calculate_priority(&InsuranceType::Earthquake, 50), 100);
    assert_eq!(calculate_priority(&InsuranceType::Crop, 40), 90);
    assert_eq!(calculate_priority(&InsuranceType::Custom, 3), 50);
}

#[test]
fn trigger_admits_a_ready_payout() {
    let mut m = master();
    m.total_premiums_collected = 10_000_000;
    let mut p = policy_for(&mut m, 1_000_000, 100_000, 600_000);
    let (pending, ev) = trigger_payout(&mut p, &m, key(9), 150, 3_600).unwrap();
    assert_eq!(pending.amount, 400_000);
    assert_eq!(pending.severity_score, 50);
    assert_eq!(pending.priority, 100);
    assert_eq!(pending.status, PayoutStatus::Ready);
    assert_eq!(pending.expires_at, 3_600 + 86_400);
    assert_eq!(pending.policy_id, p.id);
    assert_eq!(ev.amount, 400_000);
    assert_eq!(p.status, PolicyStatus::PendingPayout);
}

#[test]
fn trigger_refusals() {
    let mut m = master();
    let mut p = policy_for(&mut m, 1_000_000, 100_000, 600_000);
    assert_eq!(trigger_payout(&mut p, &m, key(9), 150, 3_599).err(), Some(InsuranceError::ClaimPeriodExpired));
    assert_eq!(trigger_payout(&mut p, &m, key(9), 100, 3_600).err(), Some(InsuranceError::PayoutConditionsNotMet));
    assert_eq!(trigger_payout(&mut p, &m, key(9), 105, 3_600).err(), Some(InsuranceError::InvalidClaimAmount));
    assert_eq!(trigger_payout(&mut p, &m, key(9), 150, 30 * 86_400).err(), Some(InsuranceError::PolicyExpired));
    assert_eq!(p.status, PolicyStatus::Active);
    // large claim against no premiums needs approval
    let (pending, _) = trigger_payout(&mut p, &m, key(9), 150, 3_600).unwrap();
    assert_eq!(pending.status, PayoutStatus::PendingApproval);
    assert_eq!(trigger_payout(&mut p, &m, key(9), 150, 3_600).err(), Some(InsuranceError::PolicyNotActive));
}

#[test]
fn second_execution_fails() {
    let mut m = master();
    m.total_premiums_collected = 10_000_000;
    let mut p = policy_for(&mut m, 1_000_000, 100_000, 600_000);
    let (mut pending, _) = trigger_payout(&mut p, &m, key(9), 150, 3_600).unwrap();
    let mut t = funded_treasury(1_000_000);
    let ev = execute_payout(&mut pending, &mut p, &mut m, &mut t, key(9), 4_000).unwrap();
    assert_eq!(ev.amount, 400_000);
    assert_eq!(pending.status, PayoutStatus::Executed);
    assert_eq!(p.status, PolicyStatus::PaidOut);
    assert_eq!(m.total_payouts_disbursed, 400_000);
    assert_eq!(t.total_sol_balance, 600_000);
    assert_eq!(t.total_payouts_disbursed_sol, 400_000);
    let again = execute_payout(&mut pending, &mut p, &mut m, &mut t, key(9), 4_000);
    assert_eq!(again.err(), Some(InsuranceError::PayoutConditionsNotMet));
    assert_eq!(t.total_sol_balance, 600_000);
    assert_eq!(m.total_payouts_disbursed, 400_000);
}

#[test]
fn execution_refusals() {
    let mut m = master();
    m.total_premiums_collected = 10_000_000;
    let mut p = policy_for(&mut m, 1_000_000, 100_000, 600_000);
    let (mut pending, _) = trigger_payout(&mut p, &m, key(9), 150, 3_600).unwrap();
    let mut poor = funded_treasury(100);
    assert_eq!(execute_payout(&mut pending, &mut p, &mut m, &mut poor, key(8), 4_000).err(), Some(InsuranceError::Unauthorized));
    assert_eq!(execute_payout(&mut pending, &mut p, &mut m, &mut poor, key(9), 4_000).err(), Some(InsuranceError::InsufficientTreasury));
    assert_eq!(execute_payout(&mut pending, &mut p, &mut m, &mut poor, key(9), 3_600 + 86_401).err(), Some(InsuranceError::ClaimPeriodExpired));
    assert_eq!(pending.status, PayoutStatus::Ready);
}

#[test]
fn approval_and_rejection() {
    let m = master();
    let mut a = entry("a", 90, 100, PayoutStatus::PendingApproval);
    assert_eq!(approve_payout(&mut a, &m, key(2), 200).err(), Some(InsuranceError::Unauthorized));
    let ev = approve_payout(&mut a, &m, key(1), 200).unwrap();
    assert_eq!(ev.admin, key(1));
    assert_eq!(a.status, PayoutStatus::Ready);
    assert_eq!(a.approval_timestamp, Some(200));
    assert_eq!(a.approved_by, Some(key(1)));
    assert_eq!(approve_payout(&mut a, &m, key(1), 200).err(), Some(InsuranceError::PayoutConditionsNotMet));
    let mut b = entry("b", 90, 100, PayoutStatus::PendingApproval);
    assert_eq!(reject_payout(&mut b, &m, key(1), "no event".to_string(), 200), Ok(()));
    assert_eq!(b.status, PayoutStatus::Rejected);
    assert_eq!(b.rejection_reason, Some("no event".to_string()));
    let mut c = entry("c", 90, 100, PayoutStatus::PendingApproval);
    assert_eq!(approve_payout(&mut c, &m, key(1), 100 + 86_401).err(), Some(InsuranceError::ClaimPeriodExpired));
}

#[test]
fn batch_order_priority_then_age() {
    let a = entry("A", 90, 100, PayoutStatus::Ready);
    let b = entry("B", 90, 50, PayoutStatus::Ready);
    let c = entry("C", 95, 200, PayoutStatus::Ready);
    let batch = get_next_payout_batch(&[a, b, c], 10, 300);
    let names: Vec<String> = batch.iter().map(|p| p.policy_id.clone()).collect();
    assert_eq!(names, vec!["C", "B", "A"]);
    let a = entry("A", 90, 100, PayoutStatus::Ready);
    let b = entry("B", 90, 50, PayoutStatus::Ready);
    let c = entry("C", 95, 200, PayoutStatus::Ready);
    let batch = get_next_payout_batch(&[a, b, c], 2, 300);
    let names: Vec<String> = batch.iter().map(|p| p.policy_id.clone()).collect();
    assert_eq!(names, vec!["C", "B"]);
}

#[test]
fn stale_payout_expires_and_leaves_batch() {
    let old = entry("old", 100, 0, PayoutStatus::Ready);
    let fresh = entry("fresh", 50, 90_000, PayoutStatus::Ready);
    let waiting = entry("waiting", 60, 90_000, PayoutStatus::PendingApproval);
    let now = 86_401;
    assert_eq!(old.current_status(now), PayoutStatus::Expired);
    assert_eq!(fresh.current_status(now), PayoutStatus::Ready);
    let batch = get_next_payout_batch(&[old.clone(), fresh.clone(), waiting.clone()], 10, now);
    assert_eq!(batch.len(), 1);
    assert_eq!(batch[0].policy_id, "fresh");
    let mut queue = vec![old, fresh, waiting];
    assert_eq!(cleanup_expired_payouts(&mut queue, now), 1);
    assert_eq!(queue.len(), 2);
    assert_eq!(queue[0].policy_id, "fresh");
}

#[test]
fn queue_checks_and_statistics() {
    let a = entry("a", 90, 100, PayoutStatus::Ready);
    let b = entry("b", 90, 50, PayoutStatus::PendingApproval);
    let c = entry("c", 95, 200_000, PayoutStatus::Executed);
    let stats = get_queue_statistics(&[a.clone(), b.clone(), c.clone()], 100_000);
    assert_eq!(stats.total_count, 3);
    assert_eq!(stats.ready_count, 1);
    assert_eq!(stats.pending_approval_count, 1);
    assert_eq!(stats.expired_count, 2);
    assert_eq!(stats.total_amount, 30);
    assert_eq!(stats.oldest_timestamp, 50);
    assert_eq!(get_queue_statistics(&[], 7).oldest_timestamp, 7);
    assert_eq!(add_to_payout_queue(&a, 100), Ok(()));
    assert_eq!(add_to_payout_queue(&a, 100_000), Err(InsuranceError::ClaimPeriodExpired));
    assert_eq!(remove_from_queue(&a), Err(InsuranceError::PayoutConditionsNotMet));
    assert_eq!(remove_from_queue(&c), Ok(()));
    assert_eq!(validate_queue_health(9, 10, 0), Ok(()));
    assert_eq!(validate_queue_health(10, 10, 0), Err(InsuranceError::InvalidAdminOperation));
    assert!(a.is_ready_for_execution());
    assert!(b.requires_approval());
    assert!(!a.is_expired(86_500));
    assert!(a.is_expired(86_501));
}

#[test]
fn lazy_expiry_applies_once() {
    let mut p = entry("p", 80, 0, PayoutStatus::PendingApproval);
    assert!(!p.expire_if_due(86_400));
    assert_eq!(p.status, PayoutStatus::PendingApproval);
    assert!(p.expire_if_due(86_401));
    assert_eq!(p.status, PayoutStatus::Expired);
    assert!(!p.expire_if_due(90_000));
    let mut done = entry("d", 80, 0, PayoutStatus::Executed);
    assert!(!done.expire_if_due(90_000));
    assert_eq!(done.status, PayoutStatus::Executed);
}

#[test]
fn payout_state_is_checked_before_the_caller() {
    let m = master();
    let mut ready = entry("r", 90, 100, PayoutStatus::Ready);
    assert_eq!(approve_payout(&mut ready, &m, key(2), 200).err(), Some(InsuranceError::PayoutConditionsNotMet));
    assert_eq!(reject_payout(&mut ready, &m, key(2), "x".to_string(), 200), Err(InsuranceError::PayoutConditionsNotMet));
    let mut waiting = entry("w", 90, 100, PayoutStatus::PendingApproval);
    let mut p = policy_for(&mut master(), 1_000_000, 100_000, 600_000);
    let mut mm = master();
    let mut t = funded_treasury(1_000_000);
    assert_eq!(execute_payout(&mut waiting, &mut p, &mut mm, &mut t, key(8), 200).err(), Some(InsuranceError::PayoutConditionsNotMet));
    assert_eq!(ready.status, PayoutStatus::Ready);
}
