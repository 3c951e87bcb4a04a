use vstd::prelude::*;

use crate::admin::MasterInsuranceContract;
use crate::constants::{MAX_COVERAGE_AMOUNT, MIN_PREMIUM_AMOUNT};
use crate::error::InsuranceError;
use crate::events::{PolicyCreated, PremiumPaid};
use crate::pubkey::Pubkey;
use crate::text::{format_policy_id, policy_id_text};

verus! {

/// Category of insured risk.
#[derive(Debug, Clone, Copy, PartialEq, Eq, Structural)]
pub enum InsuranceType {
    Weather,
    Earthquake,
    Flight,
    Crop,
    Custom,
}

/// Lifecycle of a policy.
#[derive(Debug, Clone, Copy, PartialEq, Eq, Structural)]
pub enum PolicyStatus {
    Active,
    Expired,
    Cancelled,
    PendingPayout,
    PaidOut,
}

/// How often premiums fall due.
#[derive(Debug, Clone, Copy, PartialEq, Eq, Structural)]
pub enum PremiumFrequency {
    Monthly,
    Quarterly,
    Annual,
}

/// How an oracle value is compared with the trigger threshold.
#[derive(Debug, Clone, Copy, PartialEq, Eq, Structural)]
pub enum ComparisonOperator {
    GreaterThan,
    LessThan,
    Equals,
    NotEquals,
}

/// When a policy pays.
#[derive(Debug, Clone)]
pub struct TriggerConditions {
    /// The threshold, in hundredths of the measured unit.
    pub threshold_hundredths: u64,
    pub comparison_operator: ComparisonOperator,
    pub data_source: String,
    pub grace_period: i64,
}

/// Where a policy's data comes from.
#[derive(Debug, Clone)]
pub struct OracleConfig {
    pub oracle_address: Pubkey,
    pub data_feed_id: String,
    pub required_confirmations: u8,
    pub staleness_threshold: i64,
}

/// One settled payout of a policy.
#[derive(Debug, Clone)]
pub struct PayoutRecord {
    pub amount: u64,
    pub timestamp: i64,
    pub transaction_id: String,
    pub oracle_data: String,
}

/// An insurance policy.
#[derive(Debug, Clone)]
pub struct Policy {
    pub id: String,
    /// The policy holder.
    pub user: Pubkey,
    pub insurance_type: InsuranceType,
    pub coverage_amount: u64,
    pub premium_amount: u64,
    pub deductible: u64,
    pub start_date: i64,
    pub end_date: i64,
    pub status: PolicyStatus,
    pub trigger_conditions: TriggerConditions,
    pub oracle_config: OracleConfig,
    pub last_premium_paid: i64,
    pub payout_history: Vec<PayoutRecord>,
    /// Risk score, 0 to 100.
    pub risk_assessment_score: u8,
    pub max_payout_per_incident: u64,
    /// Hours after the start before a claim may be filed.
    pub waiting_period_hours: u32,
    pub premium_payment_frequency: PremiumFrequency,
    pub auto_renewal: bool,
    pub metadata: String,
    pub created_at: i64,
    pub updated_at: i64,
}

/// Parameters of `create_policy`.
#[derive(Debug, Clone)]
pub struct CreatePolicyParams {
    pub insurance_type: InsuranceType,
    pub coverage_amount: u64,
    pub premium_amount: u64,
    pub deductible: u64,
    pub policy_duration_days: u32,
    pub trigger_conditions: TriggerConditions,
    pub oracle_config: OracleConfig,
    pub max_payout_per_incident: u64,
    pub waiting_period_hours: u32,
}

/// Number the policy's category carries in events.
pub open spec fn insurance_type_code(t: InsuranceType) -> u8 {
    match t {
        InsuranceType::Weather => 0,
        InsuranceType::Earthquake => 1,
        InsuranceType::Flight => 2,
        InsuranceType::Crop => 3,
        InsuranceType::Custom => 4,
    }
}

fn type_code(t: InsuranceType) -> (r: u8)
    ensures
        r == insurance_type_code(t),
{
    match t {
        InsuranceType::Weather => 0,
        InsuranceType::Earthquake => 1,
        InsuranceType::Flight => 2,
        InsuranceType::Crop => 3,
        InsuranceType::Custom => 4,
    }
}

/// The first reason, in order, why `create_policy` refuses; `None` when it succeeds.
pub open spec fn policy_creation_failure(
    m: MasterInsuranceContract,
    params: CreatePolicyParams,
) -> Option<InsuranceError> {
    if m.is_paused {
        Some(InsuranceError::ContractPaused)
    } else if !(params.coverage_amount > 0 && params.coverage_amount <= MAX_COVERAGE_AMOUNT) {
        Some(InsuranceError::CoverageExceedsMaximum)
    } else if params.premium_amount < MIN_PREMIUM_AMOUNT {
        Some(InsuranceError::InsufficientPremium)
    } else if params.deductible > params.coverage_amount {
        Some(InsuranceError::InvalidParameters)
    } else if !(params.policy_duration_days > 0 && params.policy_duration_days <= 365) {
        Some(InsuranceError::InvalidParameters)
    } else if m.active_policies_count == u64::MAX {
        Some(InsuranceError::MathOverflow)
    } else {
        None
    }
}

/// Whether `now + days * 86400` leaves the `i64` range.
pub open spec fn now_overflows_end(now: i64, days: u32) -> bool {
    now + days * 86400 > i64::MAX
}

/// Issues a policy to `policy_holder` at time `now`. Refusals, in order: contract paused,
/// coverage outside `1..=MAX_COVERAGE_AMOUNT`, premium below `MIN_PREMIUM_AMOUNT`, deductible
/// above coverage, duration outside 1..=365 days, and counters or end date out of range. The
/// policy runs from `now` for the given number of days and is identified as
/// `POL-<now>-<count>`, where count is the number of policies issued before.
pub fn create_policy(
    master_contract: &mut MasterInsuranceContract,
    policy_holder: Pubkey,
    params: CreatePolicyParams,
    now: i64,
) -> (r: Result<(Policy, PolicyCreated), InsuranceError>)
    ensures
        match policy_creation_failure(*old(master_contract), params) {
            Some(e) => r == Err::<(Policy, PolicyCreated), InsuranceError>(e)
                && *final(master_contract) == *old(master_contract),
            None => if now_overflows_end(now, params.policy_duration_days) {
                r == Err::<(Policy, PolicyCreated), InsuranceError>(InsuranceError::MathOverflow)
                    && *final(master_contract) == *old(master_contract)
            } else {
                &&& r is Ok
                &&& ({
                    let (p, ev) = r->Ok_0;
                    let end = now + params.policy_duration_days * 86400;
                    &&& p.id@ == policy_id_text(now, old(master_contract).active_policies_count)
                    &&& p.user == policy_holder
                    &&& p.insurance_type == params.insurance_type
                    &&& p.coverage_amount == params.coverage_amount
                    &&& p.premium_amount == params.premium_amount
                    &&& p.deductible == params.deductible
                    &&& p.start_date == now
                    &&& p.end_date == end
                    &&& p.status == PolicyStatus::Active
                    &&& p.trigger_conditions == params.trigger_conditions
                    &&& p.oracle_config == params.oracle_config
                    &&& p.last_premium_paid == now
                    &&& p.payout_history@.len() == 0
                    &&& p.max_payout_per_incident == params.max_payout_per_incident
                    &&& p.waiting_period_hours == params.waiting_period_hours
                    &&& p.created_at == now
                    &&& p.updated_at == now
                    &&& ev.policy_id == p.id
                    &&& ev.owner == policy_holder
                    &&& ev.insurance_type == insurance_type_code(params.insurance_type)
                    &&& ev.coverage_amount == params.coverage_amount
                    &&& ev.premium_amount == params.premium_amount
                    &&& ev.expiry_timestamp == end
                })
                &&& *final(master_contract) == (MasterInsuranceContract {
                    active_policies_count: (old(master_contract).active_policies_count + 1) as u64,
                    updated_at: now,
                    ..*old(master_contract)
                })
            },
        },
{
    if master_contract.is_paused {
        return Err(InsuranceError::ContractPaused);
    }
    if !(params.coverage_amount > 0 && params.coverage_amount <= MAX_COVERAGE_AMOUNT) {
        return Err(InsuranceError::CoverageExceedsMaximum);
    }
    if params.premium_amount < MIN_PREMIUM_AMOUNT {
        return Err(InsuranceError::InsufficientPremium);
    }
    if params.deductible > params.coverage_amount {
        return Err(InsuranceError::InvalidParameters);
    }
    if !(params.policy_duration_days > 0 && params.policy_duration_days <= 365) {
        return Err(InsuranceError::InvalidParameters);
    }
    if master_contract.active_policies_count == u64::MAX {
        return Err(InsuranceError::MathOverflow);
    }
    let duration = params.policy_duration_days as i64 * 86400;
    let end_date = match now.checked_add(duration) {
        Some(e) => e,
        None => {
            return Err(InsuranceError::MathOverflow);
        },
    };
    let policy_id = format_policy_id(now, master_contract.active_policies_count);
    let event = PolicyCreated {
        policy_id: policy_id.clone(),
        owner: policy_holder,
        insurance_type: type_code(params.insurance_type),
        coverage_amount: params.coverage_amount,
        premium_amount: params.premium_amount,
        expiry_timestamp: end_date,
    };
    let policy = Policy {
        id: policy_id,
        user: policy_holder,
        insurance_type: params.insurance_type,
        coverage_amount: params.coverage_amount,
        premium_amount: params.premium_amount,
        deductible: params.deductible,
        start_date: now,
        end_date,
        status: PolicyStatus::Active,
        trigger_conditions: params.trigger_conditions,
        oracle_config: params.oracle_config,
        last_premium_paid: now,
        payout_history: Vec::new(),
        risk_assessment_score: 0,
        max_payout_per_incident: params.max_payout_per_incident,
        waiting_period_hours: params.waiting_period_hours,
        premium_payment_frequency: PremiumFrequency::Monthly,
        auto_renewal: false,
        metadata: String::new(),
        created_at: now,
        updated_at: now,
    };
    master_contract.active_policies_count = master_contract.active_policies_count + 1;
    master_contract.updated_at = now;
    Ok((policy, event))
}

/// The first reason, in order, why `pay_premium` refuses; `None` when it succeeds.
pub open spec fn premium_failure(
    policy: Policy,
    m: MasterInsuranceContract,
    payer: Pubkey,
    amount: u64,
    now: i64,
) -> Option<InsuranceError> {
    if m.is_paused {
        Some(InsuranceError::ContractPaused)
    } else if policy.status != PolicyStatus::Active {
        Some(InsuranceError::PolicyNotActive)
    } else if now > policy.end_date {
        Some(InsuranceError::PolicyExpired)
    } else if amount < policy.premium_amount {
        Some(InsuranceError::InsufficientPremium)
    } else if payer != policy.user {
        Some(InsuranceError::Unauthorized)
    } else if m.total_premiums_collected + amount > u64::MAX {
        Some(InsuranceError::MathOverflow)
    } else {
        None
    }
}

/// Records a premium of `amount` paid by `payer` at `now` (see `premium_failure` for the
/// refusals). The policy notes the payment; the contract adds it to its premium total.
pub fn pay_premium(
    policy_account: &mut Policy,
    master_contract: &mut MasterInsuranceContract,
    payer: Pubkey,
    amount: u64,
    now: i64,
) -> (r: Result<PremiumPaid, InsuranceError>)
    ensures
        match premium_failure(*old(policy_account), *old(master_contract), payer, amount, now) {
            Some(e) => r == Err::<PremiumPaid, InsuranceError>(e) && *final(policy_account) == *old(policy_account) && *final(master_contract) == *old(master_contract),
            None => r == Ok::<PremiumPaid, InsuranceError>(
                PremiumPaid { policy_id: old(policy_account).id, payer, amount, timestamp: now },
            ) && *final(policy_account) == (Policy {
                last_premium_paid: now,
                updated_at: now,
                ..*old(policy_account)
            }) && *final(master_contract) == (MasterInsuranceContract {
                total_premiums_collected: (old(master_contract).total_premiums_collected
                    + amount) as u64,
                updated_at: now,
                ..*old(master_contract)
            }),
        },
{
    if master_contract.is_paused {
        return Err(InsuranceError::ContractPaused);
    }
    if policy_account.status != PolicyStatus::Active {
        return Err(InsuranceError::PolicyNotActive);
    }
    if now > policy_account.end_date {
        return Err(InsuranceError::PolicyExpired);
    }
    if amount < policy_account.premium_amount {
        return Err(InsuranceError::InsufficientPremium);
    }
    if payer != policy_account.user {
        return Err(InsuranceError::Unauthorized);
    }
    let total = match master_contract.total_premiums_collected.checked_add(amount) {
        Some(t) => t,
        None => {
            return Err(InsuranceError::MathOverflow);
        },
    };
    policy_account.last_premium_paid = now;
    policy_account.updated_at = now;
    master_contract.total_premiums_collected = total;
    master_contract.updated_at = now;
    Ok(PremiumPaid { policy_id: policy_account.id.clone(), payer, amount, timestamp: now })
}

/// A claim may be filed against an active policy up to its end date.
pub fn validate_policy_claim_eligibility(
    policy_end_date: i64,
    policy_status: &PolicyStatus,
    current_timestamp: i64,
) -> (r: Result<(), InsuranceError>)
    ensures
        r == if *policy_status != PolicyStatus::Active {
            Err(InsuranceError::PolicyNotActive)
        } else if current_timestamp > policy_end_date {
            Err(InsuranceError::PolicyExpired)
        } else {
            Ok::<(), InsuranceError>(())
        },
{
    if *policy_status != PolicyStatus::Active {
        return Err(InsuranceError::PolicyNotActive);
    }
    if current_timestamp > policy_end_date {
        return Err(InsuranceError::PolicyExpired);
    }
    Ok(())
}

} // verus!
