use vstd::prelude::*;

use crate::constants::MAX_ORACLES;
use crate::error::InsuranceError;
use crate::events::{ContractPaused, ContractResumed, ReserveRatioUpdated, TreasuryWithdrawn};
use crate::pubkey::Pubkey;
use crate::treasury::{
    after_withdrawal, debit_treasury, reserve_ratio_of, total_balance, withdrawal_failure, TokenType,
    Treasury,
};

verus! {

/// Parameters of `initialize_master_contract`.
#[derive(Debug, Clone, Copy, PartialEq, Eq)]
pub struct InitializeParams {
    /// Reserve ratio in percent, 10 to 50.
    pub reserve_ratio: u64,
    /// Registry capacity, 1 to 10.
    pub max_oracles: u8,
    /// Readings needed for a consensus, 1 to `max_oracles`.
    pub min_consensus_threshold: u8,
}

/// The contract's aggregate record: authority, pause flag, counters and the oracle registry.
#[derive(Debug, Clone)]
pub struct MasterInsuranceContract {
    pub authority: Pubkey,
    pub treasury_account: Pubkey,
    pub total_premiums_collected: u64,
    pub total_payouts_disbursed: u64,
    pub active_policies_count: u64,
    /// Reserve ratio in percent.
    pub reserve_ratio: u64,
    pub is_paused: bool,
    pub created_at: i64,
    pub updated_at: i64,
    /// Addresses of the registered oracles, each at most once.
    pub oracle_registry: Vec<Pubkey>,
    pub max_oracles: u8,
    pub min_consensus_threshold: u8,
}

impl MasterInsuranceContract {
    /// The registry holds each oracle once and stays within its capacity.
    pub open spec fn wf(&self) -> bool {
        &&& self.oracle_registry@.len() <= self.max_oracles
        &&& self.oracle_registry@.no_duplicates()
    }
}

/// Sets up the master contract for `admin`. The reserve ratio must lie in 10..=50 percent, the
/// registry capacity in 1..=10, and the consensus threshold in 1..=capacity.
pub fn initialize_master_contract(admin: Pubkey, params: InitializeParams, now: i64) -> (r: Result<
    MasterInsuranceContract,
    InsuranceError,
>)
    ensures
        r is Ok <==> (10 <= params.reserve_ratio <= 50 && 1 <= params.max_oracles <= MAX_ORACLES && 1
            <= params.min_consensus_threshold <= params.max_oracles),
        r is Err ==> r == Err::<MasterInsuranceContract, InsuranceError>(
            InsuranceError::InvalidInput,
        ),
        r matches Ok(m) ==> {
            &&& m.wf()
            &&& m.authority == admin
            &&& m.treasury_account == Pubkey::spec_default()
            &&& m.total_premiums_collected == 0
            &&& m.total_payouts_disbursed == 0
            &&& m.active_policies_count == 0
            &&& m.reserve_ratio == params.reserve_ratio
            &&& !m.is_paused
            &&& m.created_at == now
            &&& m.updated_at == now
            &&& m.oracle_registry@.len() == 0
            &&& m.max_oracles == params.max_oracles
            &&& m.min_consensus_threshold == params.min_consensus_threshold
        },
{
    if !(params.reserve_ratio >= 10 && params.reserve_ratio <= 50) {
        return Err(InsuranceError::InvalidInput);
    }
    if !(params.max_oracles >= 1 && params.max_oracles <= MAX_ORACLES) {
        return Err(InsuranceError::InvalidInput);
    }
    if !(params.min_consensus_threshold >= 1 && params.min_consensus_threshold
        <= params.max_oracles) {
        return Err(InsuranceError::InvalidInput);
    }
    Ok(
        MasterInsuranceContract {
            authority: admin,
            treasury_account: Pubkey::default_key(),
            total_premiums_collected: 0,
            total_payouts_disbursed: 0,
            active_policies_count: 0,
            reserve_ratio: params.reserve_ratio,
            is_paused: false,
            created_at: now,
            updated_at: now,
            oracle_registry: Vec::new(),
            max_oracles: params.max_oracles,
            min_consensus_threshold: params.min_consensus_threshold,
        },
    )
}

/// Fails with `ContractPaused` while the contract is paused.
pub fn require_not_paused(master_contract: &MasterInsuranceContract) -> (r: Result<
    (),
    InsuranceError,
>)
    ensures
        r == if master_contract.is_paused {
            Err(InsuranceError::ContractPaused)
        } else {
            Ok(())
        },
{
    if master_contract.is_paused {
        Err(InsuranceError::ContractPaused)
    } else {
        Ok(())
    }
}

/// Fails with `Unauthorized` unless `admin` is the contract's authority.
pub fn require_admin_authority(master_contract: &MasterInsuranceContract, admin: &Pubkey) -> (r:
    Result<(), InsuranceError>)
    ensures
        r == if master_contract.authority == *admin {
            Ok(())
        } else {
            Err(InsuranceError::Unauthorized)
        },
{
    if master_contract.authority == *admin {
        Ok(())
    } else {
        Err(InsuranceError::Unauthorized)
    }
}

/// Pauses the contract. Only the authority may, and only while it runs.
pub fn pause_contract(master_contract: &mut MasterInsuranceContract, admin: Pubkey, now: i64) -> (r:
    Result<ContractPaused, InsuranceError>)
    ensures
        old(master_contract).authority != admin ==> r == Err::<ContractPaused, InsuranceError>(
            InsuranceError::Unauthorized,
        ),
        old(master_contract).authority == admin && old(master_contract).is_paused ==> r == Err::<
            ContractPaused,
            InsuranceError,
        >(InsuranceError::ContractPaused),
        r is Err ==> *final(master_contract) == *old(master_contract),
        r is Ok <==> old(master_contract).authority == admin && !old(master_contract).is_paused,
        r is Ok ==> r == Ok::<ContractPaused, InsuranceError>(
            (ContractPaused { admin, timestamp: now }),
        ) && *final(master_contract) == (MasterInsuranceContract {
            is_paused: true,
            updated_at: now,
            ..*old(master_contract)
        }),
{
    if master_contract.authority != admin {
        return Err(InsuranceError::Unauthorized);
    }
    if master_contract.is_paused {
        return Err(InsuranceError::ContractPaused);
    }
    master_contract.is_paused = true;
    master_contract.updated_at = now;
    Ok(ContractPaused { admin, timestamp: now })
}

/// Resumes the contract. Only the authority may, and only while it is paused.
pub fn resume_contract(master_contract: &mut MasterInsuranceContract, admin: Pubkey, now: i64) -> (r:
    Result<ContractResumed, InsuranceError>)
    ensures
        old(master_contract).authority != admin ==> r == Err::<ContractResumed, InsuranceError>(
            InsuranceError::Unauthorized,
        ),
        old(master_contract).authority == admin && !old(master_contract).is_paused ==> r == Err::<
            ContractResumed,
            InsuranceError,
        >(InsuranceError::ContractMustBePaused),
        r is Err ==> *final(master_contract) == *old(master_contract),
        r is Ok <==> old(master_contract).authority == admin && old(master_contract).is_paused,
        r is Ok ==> r == Ok::<ContractResumed, InsuranceError>(
            (ContractResumed { admin, timestamp: now }),
        ) && *final(master_contract) == (MasterInsuranceContract {
            is_paused: false,
            updated_at: now,
            ..*old(master_contract)
        }),
{
    if master_contract.authority != admin {
        return Err(InsuranceError::Unauthorized);
    }
    if !master_contract.is_paused {
        return Err(InsuranceError::ContractMustBePaused);
    }
    master_contract.is_paused = false;
    master_contract.updated_at = now;
    Ok(ContractResumed { admin, timestamp: now })
}

/// Hands the contract's authority from `current_admin` to `new_admin`.
pub fn transfer_authority(
    master_contract: &mut MasterInsuranceContract,
    current_admin: Pubkey,
    new_admin: Pubkey,
    now: i64,
) -> (r: Result<(), InsuranceError>)
    ensures
        old(master_contract).authority != current_admin ==> r == Err::<(), InsuranceError>(
            InsuranceError::Unauthorized,
        ) && *final(master_contract) == *old(master_contract),
        old(master_contract).authority == current_admin ==> r == Ok::<(), InsuranceError>(())
            && *final(master_contract) == (MasterInsuranceContract {
            authority: new_admin,
            updated_at: now,
            ..*old(master_contract)
        }),
{
    if master_contract.authority != current_admin {
        return Err(InsuranceError::Unauthorized);
    }
    master_contract.authority = new_admin;
    master_contract.updated_at = now;
    Ok(())
}

/// The first reason, in order, why `update_reserve_ratio` refuses; `None` when it succeeds.
pub open spec fn reserve_update_failure(
    m: MasterInsuranceContract,
    t: Treasury,
    admin: Pubkey,
    new_reserve_ratio: u64,
) -> Option<InsuranceError> {
    if m.authority != admin {
        Some(InsuranceError::Unauthorized)
    } else if !(10 <= new_reserve_ratio <= 50) {
        Some(InsuranceError::InvalidInput)
    } else if t.total_coverage_exposure > 0 && total_balance(t) < t.total_coverage_exposure
        * new_reserve_ratio / 100 {
        Some(InsuranceError::ReserveRatioViolation)
    } else {
        None
    }
}

/// Sets the reserve ratio to `new_reserve_ratio` percent (10 to 50) at `now` (admin only). The
/// change is accepted only if the balance already covers the new required reserve for the
/// current exposure. The treasury's minimum ratio follows in basis points.
pub fn update_reserve_ratio(
    master_contract: &mut MasterInsuranceContract,
    treasury: &mut Treasury,
    admin: Pubkey,
    new_reserve_ratio: u64,
    now: i64,
) -> (r: Result<ReserveRatioUpdated, InsuranceError>)
    requires
        old(treasury).wf(),
    ensures
        final(treasury).wf(),
        match reserve_update_failure(*old(master_contract), *old(treasury), admin, new_reserve_ratio) {
            Some(e) => r == Err::<ReserveRatioUpdated, InsuranceError>(e) && *final(master_contract)
                == *old(master_contract) && *final(treasury) == *old(treasury),
            None => r == Ok::<ReserveRatioUpdated, InsuranceError>(
                ReserveRatioUpdated {
                    admin,
                    old_ratio: old(master_contract).reserve_ratio,
                    new_ratio: new_reserve_ratio,
                    timestamp: now,
                },
            ) && *final(master_contract) == (MasterInsuranceContract {
                reserve_ratio: new_reserve_ratio,
                updated_at: now,
                ..*old(master_contract)
            }) && *final(treasury) == (Treasury {
                minimum_reserve_ratio: (new_reserve_ratio * 100) as u16,
                current_reserve_ratio: reserve_ratio_of(
                    total_balance(*old(treasury)),
                    old(treasury).total_coverage_exposure as int,
                ) as u16,
                last_update_timestamp: now,
                ..*old(treasury)
            }),
        },
{
    if master_contract.authority != admin {
        return Err(InsuranceError::Unauthorized);
    }
    if !(new_reserve_ratio >= 10 && new_reserve_ratio <= 50) {
        return Err(InsuranceError::InvalidInput);
    }
    let total_balance = treasury.total_usdc_balance as u128 + treasury.total_sol_balance as u128;
    if treasury.total_coverage_exposure > 0 {
        assert((treasury.total_coverage_exposure as int) * (new_reserve_ratio as int) <= u128::MAX)
            by (nonlinear_arith)
            requires
                treasury.total_coverage_exposure <= u64::MAX,
                new_reserve_ratio <= 50,
        ;
        let required_reserves = (treasury.total_coverage_exposure as u128
            * new_reserve_ratio as u128) / 100;
        if total_balance < required_reserves {
            return Err(InsuranceError::ReserveRatioViolation);
        }
    }
    let old_ratio = master_contract.reserve_ratio;
    master_contract.reserve_ratio = new_reserve_ratio;
    master_contract.updated_at = now;
    treasury.minimum_reserve_ratio = (new_reserve_ratio * 100) as u16;
    treasury.current_reserve_ratio = treasury.calculate_reserve_ratio();
    treasury.last_update_timestamp = now;
    Ok(ReserveRatioUpdated { admin, old_ratio, new_ratio: new_reserve_ratio, timestamp: now })
}

/// Admin withdrawal of `amount` of `token_type` at `now`, always held to the available
/// liquidity. Refusals, in order: caller is not the contract's authority, then those of
/// `withdrawal_failure`.
pub fn withdraw_treasury(
    master_contract: &mut MasterInsuranceContract,
    treasury: &mut Treasury,
    admin: Pubkey,
    amount: u64,
    token_type: TokenType,
    now: i64,
) -> (r: Result<TreasuryWithdrawn, InsuranceError>)
    requires
        old(treasury).wf(),
    ensures
        final(treasury).wf(),
        old(master_contract).authority != admin ==> r == Err::<TreasuryWithdrawn, InsuranceError>(
            InsuranceError::Unauthorized,
        ) && *final(treasury) == *old(treasury) && *final(master_contract) == *old(master_contract),
        old(master_contract).authority == admin ==> match withdrawal_failure(
            *old(treasury),
            amount,
            token_type,
            true,
        ) {
            Some(e) => r == Err::<TreasuryWithdrawn, InsuranceError>(e) && *final(treasury)
                == *old(treasury) && *final(master_contract) == *old(master_contract),
            None => r == Ok::<TreasuryWithdrawn, InsuranceError>(
                TreasuryWithdrawn { admin, amount, timestamp: now },
            ) && *final(treasury) == after_withdrawal(*old(treasury), amount, token_type, now)
                && *final(master_contract) == (MasterInsuranceContract {
                updated_at: now,
                ..*old(master_contract)
            }),
        },
{
    if master_contract.authority != admin {
        return Err(InsuranceError::Unauthorized);
    }
    match debit_treasury(treasury, amount, token_type, true, now) {
        Err(e) => Err(e),
        Ok(()) => {
            master_contract.updated_at = now;
            Ok(TreasuryWithdrawn { admin, amount, timestamp: now })
        },
    }
}

} // verus!
