use vstd::prelude::*;
use vstd::relations::sorted_by;

use crate::admin::MasterInsuranceContract;
use crate::constants::PAYOUT_EXPIRY_SECONDS;
use crate::error::InsuranceError;
use crate::events::{PayoutApproved, PayoutExecuted, PayoutTriggered};
use crate::policy::{ComparisonOperator, InsuranceType, Policy, PolicyStatus, TriggerConditions};
use crate::pubkey::Pubkey;
use crate::treasury::Treasury;

verus! {

/// Lifecycle of a queued payout: `Pending` on creation, then `PendingApproval` or `Ready`, then
/// one of the terminal states `Executed`, `Rejected` or `Expired`.
#[derive(Debug, Clone, Copy, PartialEq, Eq, Structural)]
pub enum PayoutStatus {
    Pending,
    PendingApproval,
    Ready,
    Executed,
    Rejected,
    Expired,
}

/// A claim waiting in the settlement queue.
#[derive(Debug, Clone)]
pub struct PendingPayout {
    pub policy_id: String,
    pub amount: u64,
    /// When the claim was admitted.
    pub timestamp: i64,
    /// Processing priority, 0 to 100; higher goes first.
    pub priority: u8,
    pub status: PayoutStatus,
    pub beneficiary: Pubkey,
    /// The oracle value that fired the trigger.
    pub trigger_oracle_value: u64,
    /// Severity, 0 to 100.
    pub severity_score: u8,
    pub approval_timestamp: Option<i64>,
    pub approved_by: Option<Pubkey>,
    /// 24 hours after admission.
    pub expires_at: i64,
    pub rejection_reason: Option<String>,
}

/// The figures a payout amount is computed from.
#[derive(Debug, Clone, Copy, PartialEq, Eq, Structural)]
pub struct PayoutCalculationData {
    pub coverage_amount: u64,
    pub deductible: u64,
    /// Severity, in percent.
    pub severity_percentage: u8,
    pub max_payout: u64,
    pub insurance_type: InsuranceType,
}

/// A terminal state admits no further transition.
pub open spec fn is_terminal(s: PayoutStatus) -> bool {
    s == PayoutStatus::Executed || s == PayoutStatus::Rejected || s == PayoutStatus::Expired
}

/// The status an inspection at `now` reports: a non-terminal entry past its expiry is
/// `Expired`.
pub open spec fn status_at(p: PendingPayout, now: i64) -> PayoutStatus {
    if !is_terminal(p.status) && now > p.expires_at {
        PayoutStatus::Expired
    } else {
        p.status
    }
}

impl PendingPayout {
    /// The entry is past its expiry at `current_timestamp`.
    pub fn is_expired(&self, current_timestamp: i64) -> (r: bool)
        ensures
            r == (current_timestamp > self.expires_at),
    {
        current_timestamp > self.expires_at
    }

    /// The entry waits for an admin's approval.
    pub fn requires_approval(&self) -> (r: bool)
        ensures
            r == (self.status == PayoutStatus::PendingApproval),
    {
        self.status == PayoutStatus::PendingApproval
    }

    /// The entry may be executed (expiry aside).
    pub fn is_ready_for_execution(&self) -> (r: bool)
        ensures
            r == (self.status == PayoutStatus::Ready),
    {
        self.status == PayoutStatus::Ready
    }

    /// The status as inspected at `now` (see `status_at`): expiry is applied lazily.
    pub fn current_status(&self, now: i64) -> (r: PayoutStatus)
        ensures
            r == status_at(*self, now),
    {
        let terminal = match self.status {
            PayoutStatus::Executed | PayoutStatus::Rejected | PayoutStatus::Expired => true,
            _ => false,
        };
        if !terminal && now > self.expires_at {
            PayoutStatus::Expired
        } else {
            self.status
        }
    }

    /// Applies the lazy expiry at `now`: a non-terminal entry past its expiry becomes `Expired`.
    /// Returns whether the status changed.
    pub fn expire_if_due(&mut self, now: i64) -> (r: bool)
        ensures
            *final(self) == (PendingPayout { status: status_at(*old(self), now), ..*old(self) }),
            r == (status_at(*old(self), now) != old(self).status),
    {
        let status = self.current_status(now);
        let changed = status != self.status;
        self.status = status;
        changed
    }

    /// A copy of this entry.
    pub fn duplicate(&self) -> (r: Self)
        ensures
            r == *self,
    {
        let rejection_reason = match &self.rejection_reason {
            Some(s) => Some(s.clone()),
            None => None,
        };
        PendingPayout {
            policy_id: self.policy_id.clone(),
            amount: self.amount,
            timestamp: self.timestamp,
            priority: self.priority,
            status: self.status,
            beneficiary: self.beneficiary,
            trigger_oracle_value: self.trigger_oracle_value,
            severity_score: self.severity_score,
            approval_timestamp: self.approval_timestamp,
            approved_by: self.approved_by,
            expires_at: self.expires_at,
            rejection_reason,
        }
    }
}

/// `coverage * severity / 100`, less the deductible, capped at `max_payout`; 0 when the
/// deductible is not exceeded.
pub open spec fn payout_amount(coverage: int, deductible: int, severity: int, max_payout: int) -> int {
    let p = coverage * severity / 100;
    if p <= deductible {
        0
    } else if p - deductible > max_payout {
        max_payout
    } else {
        p - deductible
    }
}

proof fn lemma_payout_bounds(coverage: int, deductible: int, severity: int, max_payout: int)
    requires
        0 <= coverage,
        0 <= deductible,
        0 <= severity <= 100,
        0 <= max_payout,
    ensures
        0 <= payout_amount(coverage, deductible, severity, max_payout) <= max_payout,
        payout_amount(coverage, deductible, severity, max_payout) == 0 || payout_amount(
            coverage,
            deductible,
            severity,
            max_payout,
        ) <= coverage - deductible,
{
    assert(coverage * severity / 100 <= coverage) by (nonlinear_arith)
        requires
            0 <= coverage,
            0 <= severity <= 100,
    ;
}

impl PayoutCalculationData {
    /// The amount owed (see `payout_amount`).
    pub fn calculate_payout(&self) -> (r: u64)
        ensures
            r == payout_amount(
                self.coverage_amount as int,
                self.deductible as int,
                self.severity_percentage as int,
                self.max_payout as int,
            ),
    {
        assert((self.coverage_amount as int) * (self.severity_percentage as int) <= u128::MAX)
            by (nonlinear_arith)
            requires
                self.coverage_amount <= u64::MAX,
                self.severity_percentage <= u8::MAX,
        ;
        let payout = (self.coverage_amount as u128 * self.severity_percentage as u128) / 100;
        if payout <= self.deductible as u128 {
            return 0;
        }
        let net = payout - self.deductible as u128;
        if net > self.max_payout as u128 {
            self.max_payout
        } else {
            net as u64
        }
    }
}

/// The oracle value `v` meets the condition against a threshold of `t` hundredths. Equality
/// holds within a hundredth, which for whole values means exact equality.
pub open spec fn trigger_met(op: ComparisonOperator, t: u64, v: u64) -> bool {
    let scaled = v * 100;
    match op {
        ComparisonOperator::GreaterThan => scaled > t,
        ComparisonOperator::LessThan => scaled < t,
        ComparisonOperator::Equals => scaled == t,
        ComparisonOperator::NotEquals => scaled != t,
    }
}

/// `min(100, |v - threshold| / threshold * 100)`, truncated, with the threshold `t` given in
/// hundredths; against a zero threshold any positive value is 100 and zero is 0.
pub open spec fn severity_of(t: u64, v: u64) -> int {
    let scaled = v * 100;
    let diff = if scaled > t {
        scaled - t
    } else {
        t - scaled
    };
    if t == 0 {
        if v == 0 {
            0
        } else {
            100
        }
    } else if diff * 100 / (t as int) > 100 {
        100
    } else {
        diff * 100 / (t as int)
    }
}

/// Base priority of each category.
pub open spec fn base_priority(t: InsuranceType) -> int {
    match t {
        InsuranceType::Weather => 70,
        InsuranceType::Earthquake => 90,
        InsuranceType::Flight => 60,
        InsuranceType::Crop => 80,
        InsuranceType::Custom => 50,
    }
}

/// `base + severity / 4`, capped at 100.
pub open spec fn priority_of(t: InsuranceType, severity: int) -> int {
    let p = base_priority(t) + severity / 4;
    if p > 100 {
        100
    } else {
        p
    }
}

/// Whether `oracle_value` meets the policy's trigger condition (see `trigger_met`).
pub fn evaluate_trigger_conditions(conditions: &TriggerConditions, oracle_value: u64) -> (r: Result<
    bool,
    InsuranceError,
>)
    ensures
        r == Ok::<bool, InsuranceError>(
            trigger_met(conditions.comparison_operator, conditions.threshold_hundredths, oracle_value),
        ),
{
    let scaled = oracle_value as u128 * 100;
    let threshold = conditions.threshold_hundredths as u128;
    let met = match conditions.comparison_operator {
        ComparisonOperator::GreaterThan => scaled > threshold,
        ComparisonOperator::LessThan => scaled < threshold,
        ComparisonOperator::Equals => scaled == threshold,
        ComparisonOperator::NotEquals => scaled != threshold,
    };
    Ok(met)
}

/// How far `oracle_value` lies from the threshold, in percent (see `severity_of`).
pub fn calculate_severity_percentage(conditions: &TriggerConditions, oracle_value: u64) -> (r:
    Result<u8, InsuranceError>)
    ensures
        r is Ok && r->Ok_0 == severity_of(conditions.threshold_hundredths, oracle_value),
{
    let scaled = oracle_value as u128 * 100;
    let threshold = conditions.threshold_hundredths as u128;
    if threshold == 0 {
        return if oracle_value == 0 {
            Ok(0)
        } else {
            Ok(100)
        };
    }
    let diff = if scaled > threshold {
        scaled - threshold
    } else {
        threshold - scaled
    };
    assert((diff as int) * 100 <= u128::MAX) by (nonlinear_arith)
        requires
            diff <= (u64::MAX as int) * 100,
    ;
    let deviation = diff * 100 / threshold;
    if deviation > 100 {
        Ok(100)
    } else {
        Ok(deviation as u8)
    }
}

/// Queue priority of a claim (see `priority_of`).
pub fn calculate_priority(insurance_type: &InsuranceType, severity: u8) -> (r: u8)
    ensures
        r == priority_of(*insurance_type, severity as int),
{
    let base_priority: u8 = match insurance_type {
        InsuranceType::Weather => 70,
        InsuranceType::Earthquake => 90,
        InsuranceType::Flight => 60,
        InsuranceType::Crop => 80,
        InsuranceType::Custom => 50,
    };
    let adjusted_priority = base_priority + severity / 4;
    if adjusted_priority > 100 {
        100
    } else {
        adjusted_priority
    }
}

/// The first reason, in order, why `trigger_payout` refuses a claim for `oracle_value` at
/// `now`; `None` when a payout is admitted. Refusals: policy not active, policy ended, waiting
/// period not over, trigger condition not met, nothing owed, expiry out of range.
pub open spec fn trigger_failure(policy: Policy, oracle_value: u64, now: i64) -> Option<InsuranceError> {
    let c = policy.trigger_conditions;
    let severity = severity_of(c.threshold_hundredths, oracle_value);
    let amount = payout_amount(
        policy.coverage_amount as int,
        policy.deductible as int,
        severity,
        policy.max_payout_per_incident as int,
    );
    if policy.status != PolicyStatus::Active {
        Some(InsuranceError::PolicyNotActive)
    } else if policy.end_date <= now {
        Some(InsuranceError::PolicyExpired)
    } else if now - policy.start_date < policy.waiting_period_hours * 3600 {
        Some(InsuranceError::ClaimPeriodExpired)
    } else if !trigger_met(c.comparison_operator, c.threshold_hundredths, oracle_value) {
        Some(InsuranceError::PayoutConditionsNotMet)
    } else if amount == 0 {
        Some(InsuranceError::InvalidClaimAmount)
    } else if now + PAYOUT_EXPIRY_SECONDS > i64::MAX {
        Some(InsuranceError::MathOverflow)
    } else {
        None
    }
}

/// The queue entry `trigger_payout` admits. It needs an admin's approval when its amount
/// exceeds a tenth of the premiums collected so far.
pub open spec fn admitted_payout(
    policy: Policy,
    m: MasterInsuranceContract,
    beneficiary: Pubkey,
    oracle_value: u64,
    now: i64,
) -> PendingPayout {
    let c = policy.trigger_conditions;
    let severity = severity_of(c.threshold_hundredths, oracle_value);
    let amount = payout_amount(
        policy.coverage_amount as int,
        policy.deductible as int,
        severity,
        policy.max_payout_per_incident as int,
    );
    PendingPayout {
        policy_id: policy.id,
        amount: amount as u64,
        timestamp: now,
        priority: priority_of(policy.insurance_type, severity) as u8,
        status: if amount > m.total_premiums_collected / 10 {
            PayoutStatus::PendingApproval
        } else {
            PayoutStatus::Ready
        },
        beneficiary,
        trigger_oracle_value: oracle_value,
        severity_score: severity as u8,
        approval_timestamp: None,
        approved_by: None,
        expires_at: (now + PAYOUT_EXPIRY_SECONDS) as i64,
        rejection_reason: None,
    }
}

/// Files a claim on `policy` for `oracle_value` at `now`, on behalf of `beneficiary`. When
/// admitted, the policy moves to `PendingPayout` and the new queue entry is returned with the
/// event to log; refusals (see `trigger_failure`) change nothing.
pub fn trigger_payout(
    policy: &mut Policy,
    master_contract: &MasterInsuranceContract,
    beneficiary: Pubkey,
    oracle_value: u64,
    now: i64,
) -> (r: Result<(PendingPayout, PayoutTriggered), InsuranceError>)
    ensures
        match trigger_failure(*old(policy), oracle_value, now) {
            Some(e) => r == Err::<(PendingPayout, PayoutTriggered), InsuranceError>(e) && *final(
                policy) == *old(policy),
            None => {
                let entry = admitted_payout(*old(policy), *master_contract, beneficiary, oracle_value, now);
                &&& r == Ok::<(PendingPayout, PayoutTriggered), InsuranceError>(
                    (
                        entry,
                        PayoutTriggered {
                            policy_id: old(policy).id,
                            beneficiary,
                            amount: entry.amount,
                            oracle_value,
                            timestamp: now,
                        },
                    ),
                )
                &&& *final(policy) == (Policy {
                    status: PolicyStatus::PendingPayout,
                    updated_at: now,
                    ..*old(policy)
                })
            },
        },
        r matches Ok((entry, _)) ==> {
            &&& 0 < entry.amount <= old(policy).max_payout_per_incident
            &&& entry.amount <= old(policy).coverage_amount - old(policy).deductible
        },
{
    proof {
        let c = old(policy).trigger_conditions;
        lemma_payout_bounds(
            old(policy).coverage_amount as int,
            old(policy).deductible as int,
            severity_of(c.threshold_hundredths, oracle_value),
            old(policy).max_payout_per_incident as int,
        );
    }
    if policy.status != PolicyStatus::Active {
        return Err(InsuranceError::PolicyNotActive);
    }
    if policy.end_date <= now {
        return Err(InsuranceError::PolicyExpired);
    }
    let time_since_start = now as i128 - policy.start_date as i128;
    let waiting_period_seconds = policy.waiting_period_hours as i128 * 3600;
    if time_since_start < waiting_period_seconds {
        return Err(InsuranceError::ClaimPeriodExpired);
    }
    let trigger_met = match evaluate_trigger_conditions(&policy.trigger_conditions, oracle_value) {
        Ok(b) => b,
        Err(e) => {
            return Err(e);
        },
    };
    if !trigger_met {
        return Err(InsuranceError::PayoutConditionsNotMet);
    }
    let severity = match calculate_severity_percentage(&policy.trigger_conditions, oracle_value) {
        Ok(s) => s,
        Err(e) => {
            return Err(e);
        },
    };
    let calculation_data = PayoutCalculationData {
        coverage_amount: policy.coverage_amount,
        deductible: policy.deductible,
        severity_percentage: severity,
        max_payout: policy.max_payout_per_incident,
        insurance_type: policy.insurance_type,
    };
    let payout_amount = calculation_data.calculate_payout();
    if payout_amount == 0 {
        return Err(InsuranceError::InvalidClaimAmount);
    }
    let expires_at = match now.checked_add(PAYOUT_EXPIRY_SECONDS) {
        Some(t) => t,
        None => {
            return Err(InsuranceError::MathOverflow);
        },
    };
    let approval_threshold = master_contract.total_premiums_collected / 10;
    let status = if payout_amount > approval_threshold {
        PayoutStatus::PendingApproval
    } else {
        PayoutStatus::Ready
    };
    let pending = PendingPayout {
        policy_id: policy.id.clone(),
        amount: payout_amount,
        timestamp: now,
        priority: calculate_priority(&policy.insurance_type, severity),
        status,
        beneficiary,
        trigger_oracle_value: oracle_value,
        severity_score: severity,
        approval_timestamp: None,
        approved_by: None,
        expires_at,
        rejection_reason: None,
    };
    let event = PayoutTriggered {
        policy_id: policy.id.clone(),
        beneficiary,
        amount: payout_amount,
        oracle_value,
        timestamp: now,
    };
    policy.status = PolicyStatus::PendingPayout;
    policy.updated_at = now;
    Ok((pending, event))
}

/// The first reason, in order, why `approve_payout` refuses: entry not awaiting approval,
/// caller is not the authority, entry expired; `None` when it succeeds.
pub open spec fn approval_failure(
    p: PendingPayout,
    m: MasterInsuranceContract,
    admin: Pubkey,
    now: i64,
) -> Option<InsuranceError> {
    if p.status != PayoutStatus::PendingApproval {
        Some(InsuranceError::PayoutConditionsNotMet)
    } else if m.authority != admin {
        Some(InsuranceError::Unauthorized)
    } else if now > p.expires_at {
        Some(InsuranceError::ClaimPeriodExpired)
    } else {
        None
    }
}

/// An admin approves a payout waiting for approval at `now`, which makes it `Ready`.
pub fn approve_payout(
    pending_payout: &mut PendingPayout,
    master_contract: &MasterInsuranceContract,
    admin: Pubkey,
    now: i64,
) -> (r: Result<PayoutApproved, InsuranceError>)
    ensures
        match approval_failure(*old(pending_payout), *master_contract, admin, now) {
            Some(e) => r == Err::<PayoutApproved, InsuranceError>(e) && *final(pending_payout)
                == *old(pending_payout),
            None => r == Ok::<PayoutApproved, InsuranceError>(
                PayoutApproved {
                    policy_id: old(pending_payout).policy_id,
                    admin,
                    amount: old(pending_payout).amount,
                    timestamp: now,
                },
            ) && *final(pending_payout) == (PendingPayout {
                status: PayoutStatus::Ready,
                approval_timestamp: Some(now),
                approved_by: Some(admin),
                ..*old(pending_payout)
            }),
        },
{
    if pending_payout.status != PayoutStatus::PendingApproval {
        return Err(InsuranceError::PayoutConditionsNotMet);
    }
    if master_contract.authority != admin {
        return Err(InsuranceError::Unauthorized);
    }
    if pending_payout.is_expired(now) {
        return Err(InsuranceError::ClaimPeriodExpired);
    }
    pending_payout.status = PayoutStatus::Ready;
    pending_payout.approval_timestamp = Some(now);
    pending_payout.approved_by = Some(admin);
    Ok(
        PayoutApproved {
            policy_id: pending_payout.policy_id.clone(),
            admin,
            amount: pending_payout.amount,
            timestamp: now,
        },
    )
}

/// An admin denies a payout waiting for approval at `now`, which makes it `Rejected` with the
/// given reason. Refusals as for `approve_payout`.
pub fn reject_payout(
    pending_payout: &mut PendingPayout,
    master_contract: &MasterInsuranceContract,
    admin: Pubkey,
    reason: String,
    now: i64,
) -> (r: Result<(), InsuranceError>)
    ensures
        match approval_failure(*old(pending_payout), *master_contract, admin, now) {
            Some(e) => r == Err::<(), InsuranceError>(e) && *final(pending_payout) == *old(
                pending_payout),
            None => r == Ok::<(), InsuranceError>(()) && *final(pending_payout) == (PendingPayout {
                status: PayoutStatus::Rejected,
                rejection_reason: Some(reason),
                ..*old(pending_payout)
            }),
        },
{
    if pending_payout.status != PayoutStatus::PendingApproval {
        return Err(InsuranceError::PayoutConditionsNotMet);
    }
    if master_contract.authority != admin {
        return Err(InsuranceError::Unauthorized);
    }
    if pending_payout.is_expired(now) {
        return Err(InsuranceError::ClaimPeriodExpired);
    }
    pending_payout.status = PayoutStatus::Rejected;
    pending_payout.rejection_reason = Some(reason);
    Ok(())
}

/// The first reason, in order, why `execute_payout` refuses; `None` when it succeeds. Refusals:
/// entry not `Ready`, caller is not the beneficiary, entry for another policy, entry expired,
/// treasury balance short, totals out of range. Only the raw balance is consulted, not the
/// reserve ratio.
pub open spec fn execution_failure(
    p: PendingPayout,
    policy: Policy,
    m: MasterInsuranceContract,
    t: Treasury,
    caller: Pubkey,
    now: i64,
) -> Option<InsuranceError> {
    if p.status != PayoutStatus::Ready {
        Some(InsuranceError::PayoutConditionsNotMet)
    } else if p.beneficiary != caller {
        Some(InsuranceError::Unauthorized)
    } else if p.policy_id@ != policy.id@ {
        Some(InsuranceError::PolicyNotFound)
    } else if now > p.expires_at {
        Some(InsuranceError::ClaimPeriodExpired)
    } else if t.total_sol_balance < p.amount {
        Some(InsuranceError::InsufficientTreasury)
    } else if m.total_payouts_disbursed + p.amount > u64::MAX || t.total_payouts_disbursed_usdc
        + t.total_payouts_disbursed_sol + p.amount > u64::MAX {
        Some(InsuranceError::MathOverflow)
    } else {
        None
    }
}

/// Settles a `Ready` payout at `now` for its beneficiary `caller`: the amount is booked out of
/// the treasury's SOL balance, the policy becomes `PaidOut`, the contract's payout total grows,
/// and the entry becomes `Executed`, after which it can never be executed again. The returned
/// event tells the caller what to transfer. Refusals (see `execution_failure`) change nothing.
pub fn execute_payout(
    pending_payout: &mut PendingPayout,
    policy: &mut Policy,
    master_contract: &mut MasterInsuranceContract,
    treasury: &mut Treasury,
    caller: Pubkey,
    now: i64,
) -> (r: Result<PayoutExecuted, InsuranceError>)
    requires
        old(treasury).wf(),
    ensures
        final(treasury).wf(),
        match execution_failure(
            *old(pending_payout),
            *old(policy),
            *old(master_contract),
            *old(treasury),
            caller,
            now,
        ) {
            Some(e) => {
                &&& r == Err::<PayoutExecuted, InsuranceError>(e)
                &&& *final(pending_payout) == *old(pending_payout)
                &&& *final(policy) == *old(policy)
                &&& *final(master_contract) == *old(master_contract)
                &&& *final(treasury) == *old(treasury)
            },
            None => {
                let amount = old(pending_payout).amount;
                &&& r == Ok::<PayoutExecuted, InsuranceError>(
                    PayoutExecuted {
                        policy_id: old(pending_payout).policy_id,
                        beneficiary: caller,
                        amount,
                        timestamp: now,
                    },
                )
                &&& *final(pending_payout) == (PendingPayout {
                    status: PayoutStatus::Executed,
                    ..*old(pending_payout)
                })
                &&& *final(policy) == (Policy {
                    status: PolicyStatus::PaidOut,
                    updated_at: now,
                    ..*old(policy)
                })
                &&& *final(master_contract) == (MasterInsuranceContract {
                    total_payouts_disbursed: (old(master_contract).total_payouts_disbursed
                        + amount) as u64,
                    updated_at: now,
                    ..*old(master_contract)
                })
                &&& final(treasury).total_sol_balance == old(treasury).total_sol_balance - amount
                &&& final(treasury).total_usdc_balance == old(treasury).total_usdc_balance
                &&& final(treasury).total_payouts_disbursed_sol
                    == old(treasury).total_payouts_disbursed_sol + amount
            },
        },
{
    if pending_payout.status != PayoutStatus::Ready {
        return Err(InsuranceError::PayoutConditionsNotMet);
    }
    if pending_payout.beneficiary != caller {
        return Err(InsuranceError::Unauthorized);
    }
    if pending_payout.policy_id != policy.id {
        return Err(InsuranceError::PolicyNotFound);
    }
    if pending_payout.is_expired(now) {
        return Err(InsuranceError::ClaimPeriodExpired);
    }
    let amount = pending_payout.amount;
    if treasury.total_sol_balance < amount {
        return Err(InsuranceError::InsufficientTreasury);
    }
    let total = match master_contract.total_payouts_disbursed.checked_add(amount) {
        Some(t) => t,
        None => {
            return Err(InsuranceError::MathOverflow);
        },
    };
    match treasury.record_payout(amount, false, now) {
        Ok(()) => {},
        Err(e) => {
            return Err(e);
        },
    }
    policy.status = PolicyStatus::PaidOut;
    policy.updated_at = now;
    master_contract.total_payouts_disbursed = total;
    master_contract.updated_at = now;
    pending_payout.status = PayoutStatus::Executed;
    Ok(
        PayoutExecuted {
            policy_id: pending_payout.policy_id.clone(),
            beneficiary: caller,
            amount,
            timestamp: now,
        },
    )
}

/// Admission check of a queue entry at `current_timestamp`: a positive amount, not expired.
pub fn add_to_payout_queue(pending_payout: &PendingPayout, current_timestamp: i64) -> (r: Result<
    (),
    InsuranceError,
>)
    ensures
        r == if pending_payout.amount == 0 {
            Err(InsuranceError::InvalidClaimAmount)
        } else if current_timestamp > pending_payout.expires_at {
            Err(InsuranceError::ClaimPeriodExpired)
        } else {
            Ok::<(), InsuranceError>(())
        },
{
    if pending_payout.amount == 0 {
        return Err(InsuranceError::InvalidClaimAmount);
    }
    if pending_payout.is_expired(current_timestamp) {
        return Err(InsuranceError::ClaimPeriodExpired);
    }
    Ok(())
}

/// An entry may leave the queue only in a terminal state.
pub fn remove_from_queue(pending_payout: &PendingPayout) -> (r: Result<(), InsuranceError>)
    ensures
        r == if is_terminal(pending_payout.status) {
            Ok::<(), InsuranceError>(())
        } else {
            Err(InsuranceError::PayoutConditionsNotMet)
        },
{
    match pending_payout.status {
        PayoutStatus::Executed | PayoutStatus::Rejected | PayoutStatus::Expired => Ok(()),
        _ => Err(InsuranceError::PayoutConditionsNotMet),
    }
}

/// Backpressure: the queue must stay below `max_queue_size` entries.
pub fn validate_queue_health(queue_size: usize, max_queue_size: usize, _current_timestamp: i64) -> (r:
    Result<(), InsuranceError>)
    ensures
        r == if queue_size < max_queue_size {
            Ok::<(), InsuranceError>(())
        } else {
            Err(InsuranceError::InvalidAdminOperation)
        },
{
    if queue_size < max_queue_size {
        Ok(())
    } else {
        Err(InsuranceError::InvalidAdminOperation)
    }
}

/// An entry the next batch may hold at `now`: `Ready` and not expired.
pub open spec fn batch_eligible(p: PendingPayout, now: i64) -> bool {
    p.status == PayoutStatus::Ready && !(now > p.expires_at)
}

/// The eligible entries, in queue order.
pub open spec fn eligible_entries(s: Seq<PendingPayout>, now: i64) -> Seq<PendingPayout>
    decreases s.len(),
{
    if s.len() == 0 {
        Seq::empty()
    } else {
        let r = eligible_entries(s.drop_last(), now);
        if batch_eligible(s.last(), now) {
            r.push(s.last())
        } else {
            r
        }
    }
}

/// Batch order: higher priority first; among equal priorities, older first.
pub open spec fn payout_order() -> spec_fn(PendingPayout, PendingPayout) -> bool {
    |a: PendingPayout, b: PendingPayout|
        a.priority > b.priority || (a.priority == b.priority && a.timestamp <= b.timestamp)
}

/// `a` goes strictly before `b` in batch order.
pub open spec fn strictly_before(a: PendingPayout, b: PendingPayout) -> bool {
    a.priority > b.priority || (a.priority == b.priority && a.timestamp < b.timestamp)
}

proof fn lemma_eligible_entries_members(s: Seq<PendingPayout>, now: i64)
    ensures
        forall|i: int|
            0 <= i < eligible_entries(s, now).len() ==> #[trigger] batch_eligible(
                eligible_entries(s, now)[i],
                now,
            ),
        eligible_entries(s, now).len() <= s.len(),
    decreases s.len(),
{
    if s.len() > 0 {
        lemma_eligible_entries_members(s.drop_last(), now);
    }
}

/// The next batch at `current_timestamp`: the `Ready`, unexpired entries in batch order
/// (priority descending, then admission time ascending), at most `batch_size` of them.
pub fn get_next_payout_batch(
    pending_payouts: &[PendingPayout],
    batch_size: usize,
    current_timestamp: i64,
) -> (r: Vec<PendingPayout>)
    ensures
        exists|t: Seq<PendingPayout>|
            {
                &&& #[trigger] t.to_multiset() == eligible_entries(
                    pending_payouts@,
                    current_timestamp,
                ).to_multiset()
                &&& sorted_by(t, payout_order())
                &&& r@ == t.take(
                    if batch_size < t.len() {
                        batch_size as int
                    } else {
                        t.len() as int
                    },
                )
            },
        forall|i: int| 0 <= i < r@.len() ==> #[trigger] batch_eligible(r@[i], current_timestamp),
{
    let mut out: Vec<PendingPayout> = Vec::new();
    let mut i: usize = 0;
    assert(eligible_entries(pending_payouts@.take(0), current_timestamp) =~= out@);
    while i < pending_payouts.len()
        invariant
            0 <= i <= pending_payouts@.len(),
            sorted_by(out@, payout_order()),
            out@.to_multiset() == eligible_entries(
                pending_payouts@.take(i as int),
                current_timestamp,
            ).to_multiset(),
        decreases pending_payouts@.len() - i,
    {
        let ghost prefix = pending_payouts@.take(i as int);
        assert(pending_payouts@.take(i as int + 1).drop_last() =~= prefix);
        let x = &pending_payouts[i];
        if x.is_ready_for_execution() && !x.is_expired(current_timestamp) {
            let mut j: usize = 0;
            while j < out.len() && !(x.priority > out[j].priority || (x.priority == out[j].priority
                && x.timestamp < out[j].timestamp))
                invariant
                    0 <= j <= out@.len(),
                    forall|k: int| 0 <= k < j ==> !strictly_before(*x, #[trigger] out@[k]),
                decreases out@.len() - j,
            {
                j = j + 1;
            }
            let ghost before = out@;
            let item = x.duplicate();
            out.insert(j, item);
            proof {
                assert forall|k: int| j <= k < before.len() implies payout_order()(
                    *x,
                    #[trigger] before[k],
                ) by {
                    assert(strictly_before(*x, before[j as int]));
                    if k > j {
                        assert(payout_order()(before[j as int], before[k]));
                    }
                }
                assert forall|a: int, b: int| 0 <= a < b < out@.len() implies #[trigger] payout_order()(
                    out@[a],
                    out@[b],
                ) by {
                    if b < j {
                        assert(payout_order()(before[a], before[b]));
                    } else if a < j && b == j {
                        assert(!strictly_before(*x, before[a]));
                    } else if a < j {
                        assert(payout_order()(before[a], before[b - 1]));
                    } else if a == j {
                    } else {
                        assert(payout_order()(before[a - 1], before[b - 1]));
                    }
                }
                vstd::seq_lib::to_multiset_insert(before, j as int, *x);
                vstd::seq_lib::to_multiset_build(
                    eligible_entries(prefix, current_timestamp),
                    *x,
                );
            }
        }
        i = i + 1;
    }
    assert(pending_payouts@.take(i as int) =~= pending_payouts@);
    proof {
        lemma_eligible_entries_members(pending_payouts@, current_timestamp);
        vstd::seq_lib::to_multiset_len(out@);
        vstd::seq_lib::to_multiset_len(eligible_entries(pending_payouts@, current_timestamp));
        assert forall|k: int| 0 <= k < out@.len() implies #[trigger] batch_eligible(
            out@[k],
            current_timestamp,
        ) by {
            vstd::seq_lib::to_multiset_contains(out@, out@[k]);
            vstd::seq_lib::to_multiset_contains(
                eligible_entries(pending_payouts@, current_timestamp),
                out@[k],
            );
            assert(out@.contains(out@[k]));
            let e = eligible_entries(pending_payouts@, current_timestamp);
            let m = choose|m: int| 0 <= m < e.len() && e[m] == out@[k];
            assert(batch_eligible(e[m], current_timestamp));
        }
    }
    let ghost sorted = out@;
    out.truncate(batch_size);
    assert(out@ =~= sorted.take(
        if batch_size < sorted.len() {
            batch_size as int
        } else {
            sorted.len() as int
        },
    ));
    out
}

/// The entries not yet expired at `now`, in queue order.
pub open spec fn unexpired_entries(s: Seq<PendingPayout>, now: i64) -> Seq<PendingPayout>
    decreases s.len(),
{
    if s.len() == 0 {
        Seq::empty()
    } else {
        let r = unexpired_entries(s.drop_last(), now);
        if !(now > s.last().expires_at) {
            r.push(s.last())
        } else {
            r
        }
    }
}

proof fn lemma_unexpired_len(s: Seq<PendingPayout>, now: i64)
    ensures
        unexpired_entries(s, now).len() <= s.len(),
    decreases s.len(),
{
    if s.len() > 0 {
        lemma_unexpired_len(s.drop_last(), now);
    }
}

/// Housekeeping sweep at `current_timestamp`: drops the expired entries, keeps the others in
/// order, and returns how many were dropped.
pub fn cleanup_expired_payouts(pending_payouts: &mut Vec<PendingPayout>, current_timestamp: i64) -> (r:
    usize)
    ensures
        final(pending_payouts)@ == unexpired_entries(old(pending_payouts)@, current_timestamp),
        r == old(pending_payouts)@.len() - final(pending_payouts)@.len(),
{
    let mut kept: Vec<PendingPayout> = Vec::new();
    let mut i: usize = 0;
    while i < pending_payouts.len()
        invariant
            0 <= i <= pending_payouts@.len(),
            pending_payouts@ == old(pending_payouts)@,
            kept@ == unexpired_entries(pending_payouts@.take(i as int), current_timestamp),
        decreases pending_payouts@.len() - i,
    {
        assert(pending_payouts@.take(i as int + 1).drop_last() =~= pending_payouts@.take(i as int));
        if !pending_payouts[i].is_expired(current_timestamp) {
            let item = pending_payouts[i].duplicate();
            kept.push(item);
        }
        i = i + 1;
    }
    assert(pending_payouts@.take(i as int) =~= pending_payouts@);
    proof {
        lemma_unexpired_len(pending_payouts@, current_timestamp);
    }
    let initial_count = pending_payouts.len();
    *pending_payouts = kept;
    initial_count - pending_payouts.len()
}

/// Aggregate figures of the queue, for monitoring and backpressure.
#[derive(Debug, Clone, Copy, PartialEq, Eq, Structural)]
pub struct QueueStatistics {
    pub total_count: usize,
    pub ready_count: usize,
    pub pending_approval_count: usize,
    /// Entries past their expiry, whatever their status.
    pub expired_count: usize,
    /// Sum of the amounts, saturating at `u64::MAX`.
    pub total_amount: u64,
    /// Earliest admission time; the current time for an empty queue.
    pub oldest_timestamp: i64,
}

/// Number of entries with status `st`.
pub open spec fn count_status(s: Seq<PendingPayout>, st: PayoutStatus) -> int
    decreases s.len(),
{
    if s.len() == 0 {
        0
    } else {
        count_status(s.drop_last(), st) + if s.last().status == st {
            1int
        } else {
            0int
        }
    }
}

/// Number of entries past their expiry at `now`.
pub open spec fn count_expired(s: Seq<PendingPayout>, now: i64) -> int
    decreases s.len(),
{
    if s.len() == 0 {
        0
    } else {
        count_expired(s.drop_last(), now) + if now > s.last().expires_at {
            1int
        } else {
            0int
        }
    }
}

/// Sum of the amounts.
pub open spec fn amount_sum(s: Seq<PendingPayout>) -> int
    decreases s.len(),
{
    if s.len() == 0 {
        0
    } else {
        amount_sum(s.drop_last()) + s.last().amount
    }
}

/// Earliest admission time, or `dflt` for no entry.
pub open spec fn oldest_timestamp(s: Seq<PendingPayout>, dflt: i64) -> i64
    decreases s.len(),
{
    if s.len() == 0 {
        dflt
    } else if s.len() == 1 {
        s[0].timestamp
    } else {
        let r = oldest_timestamp(s.drop_last(), dflt);
        if s.last().timestamp < r {
            s.last().timestamp
        } else {
            r
        }
    }
}

proof fn lemma_counts_bounded(s: Seq<PendingPayout>, st: PayoutStatus, now: i64)
    ensures
        0 <= count_status(s, st) <= s.len(),
        0 <= count_expired(s, now) <= s.len(),
        amount_sum(s) >= 0,
    decreases s.len(),
{
    if s.len() > 0 {
        lemma_counts_bounded(s.drop_last(), st, now);
    }
}

/// Queue figures at `current_timestamp`.
pub fn get_queue_statistics(pending_payouts: &[PendingPayout], current_timestamp: i64) -> (r:
    QueueStatistics)
    ensures
        r.total_count == pending_payouts@.len(),
        r.ready_count == count_status(pending_payouts@, PayoutStatus::Ready),
        r.pending_approval_count == count_status(pending_payouts@, PayoutStatus::PendingApproval),
        r.expired_count == count_expired(pending_payouts@, current_timestamp),
        r.total_amount == if amount_sum(pending_payouts@) > u64::MAX {
            u64::MAX as int
        } else {
            amount_sum(pending_payouts@)
        },
        r.oldest_timestamp == oldest_timestamp(pending_payouts@, current_timestamp),
{
    let mut ready_count: usize = 0;
    let mut pending_approval_count: usize = 0;
    let mut expired_count: usize = 0;
    let mut total_amount: u128 = 0;
    let mut oldest: i64 = current_timestamp;
    let mut i: usize = 0;
    while i < pending_payouts.len()
        invariant
            0 <= i <= pending_payouts@.len(),
            ready_count == count_status(pending_payouts@.take(i as int), PayoutStatus::Ready),
            pending_approval_count == count_status(
                pending_payouts@.take(i as int),
                PayoutStatus::PendingApproval,
            ),
            expired_count == count_expired(pending_payouts@.take(i as int), current_timestamp),
            total_amount == if amount_sum(pending_payouts@.take(i as int)) > u64::MAX {
                u64::MAX as int + 1
            } else {
                amount_sum(pending_payouts@.take(i as int))
            },
            oldest == oldest_timestamp(pending_payouts@.take(i as int), current_timestamp),
        decreases pending_payouts@.len() - i,
    {
        let ghost prefix = pending_payouts@.take(i as int);
        assert(pending_payouts@.take(i as int + 1).drop_last() =~= prefix);
        proof {
            lemma_counts_bounded(prefix, PayoutStatus::Ready, current_timestamp);
            lemma_counts_bounded(prefix, PayoutStatus::PendingApproval, current_timestamp);
        }
        let p = &pending_payouts[i];
        if p.status == PayoutStatus::Ready {
            ready_count = ready_count + 1;
        }
        if p.status == PayoutStatus::PendingApproval {
            pending_approval_count = pending_approval_count + 1;
        }
        if p.is_expired(current_timestamp) {
            expired_count = expired_count + 1;
        }
        if total_amount <= u64::MAX as u128 {
            total_amount = total_amount + p.amount as u128;
            if total_amount > u64::MAX as u128 {
                total_amount = u64::MAX as u128 + 1;
            }
        }
        if i == 0 || p.timestamp < oldest {
            oldest = p.timestamp;
        }
        proof {
            if i == 0 {
                assert(pending_payouts@.take(1)[0] == *p);
            }
        }
        i = i + 1;
    }
    assert(pending_payouts@.take(i as int) =~= pending_payouts@);
    QueueStatistics {
        total_count: pending_payouts.len(),
        ready_count,
        pending_approval_count,
        expired_count,
        total_amount: if total_amount > u64::MAX as u128 {
            u64::MAX
        } else {
            total_amount as u64
        },
        oldest_timestamp: oldest,
    }
}

/// A payout that has been executed once cannot be executed again, whatever the state of the
/// policy, contract and treasury and whoever calls.
pub proof fn lemma_no_double_execution(
    p: PendingPayout,
    policy: Policy,
    m: MasterInsuranceContract,
    t: Treasury,
    caller: Pubkey,
    now: i64,
    policy2: Policy,
    m2: MasterInsuranceContract,
    t2: Treasury,
    caller2: Pubkey,
    now2: i64,
)
    requires
        execution_failure(p, policy, m, t, caller, now) is None,
    ensures
        execution_failure(
            PendingPayout { status: PayoutStatus::Executed, ..p },
            policy2,
            m2,
            t2,
            caller2,
            now2,
        ) is Some,
{
}

/// A payout admitted more than 24 hours before `now` and still open reports `Expired`, is
/// left out of every batch taken at `now`, and can be neither approved nor executed at `now`.
pub proof fn lemma_stale_payout_expires(
    p: PendingPayout,
    queue: Seq<PendingPayout>,
    now: i64,
    m: MasterInsuranceContract,
    admin: Pubkey,
    policy: Policy,
    t: Treasury,
    caller: Pubkey,
)
    requires
        p.expires_at == p.timestamp + PAYOUT_EXPIRY_SECONDS,
        now > p.timestamp + PAYOUT_EXPIRY_SECONDS,
        !is_terminal(p.status),
    ensures
        status_at(p, now) == PayoutStatus::Expired,
        !eligible_entries(queue, now).contains(p),
        approval_failure(p, m, admin, now) is Some,
        execution_failure(p, policy, m, t, caller, now) is Some,
{
    lemma_eligible_entries_members(queue, now);
    let e = eligible_entries(queue, now);
    if e.contains(p) {
        let i = choose|i: int| 0 <= i < e.len() && e[i] == p;
        assert(batch_eligible(e[i], now));
    }
}

} // verus!
