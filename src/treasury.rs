use vstd::prelude::*;

use crate::error::InsuranceError;
use crate::events::TreasuryWithdrawn;
use crate::pubkey::Pubkey;

verus! {

/// The two asset classes the treasury books separately.
#[derive(Debug, Clone, Copy, PartialEq, Eq, Structural)]
pub enum TokenType {
    USDC,
    SOL,
}

/// Why funds leave the treasury.
#[derive(Debug, Clone, Copy, PartialEq, Eq, Structural)]
pub enum WithdrawalReason {
    AdminWithdrawal,
    PolicyPayout,
    PremiumRefund,
    EmergencyWithdrawal,
}

/// The treasury ledger: per-asset balances and totals, coverage exposure and reserve ratios in
/// basis points (10000 = 100%).
#[derive(Debug, Clone, Copy, PartialEq, Eq, Structural)]
pub struct Treasury {
    pub authority: Pubkey,
    pub usdc_token_account: Pubkey,
    pub sol_token_account: Pubkey,
    pub usdc_mint: Pubkey,
    pub total_usdc_balance: u64,
    pub total_sol_balance: u64,
    pub total_premiums_collected_usdc: u64,
    pub total_premiums_collected_sol: u64,
    pub total_payouts_disbursed_usdc: u64,
    pub total_payouts_disbursed_sol: u64,
    /// Reserve ratio at the last update, in basis points.
    pub current_reserve_ratio: u16,
    /// Required reserve ratio, in basis points.
    pub minimum_reserve_ratio: u16,
    pub total_coverage_exposure: u64,
    pub deposit_count: u64,
    pub withdrawal_count: u64,
    pub last_update_timestamp: i64,
    pub created_at: i64,
}

/// A deposit into the treasury.
#[derive(Debug, Clone, Copy, PartialEq, Eq, Structural)]
pub struct DepositInfo {
    pub amount: u64,
    pub token_type: TokenType,
    pub depositor: Pubkey,
    pub timestamp: i64,
}

/// A withdrawal from the treasury.
#[derive(Debug, Clone, Copy, PartialEq, Eq, Structural)]
pub struct WithdrawalInfo {
    pub amount: u64,
    pub token_type: TokenType,
    pub recipient: Pubkey,
    pub timestamp: i64,
    pub reason: WithdrawalReason,
}

/// Snapshot of the treasury's figures.
#[derive(Debug, Clone, Copy, PartialEq, Eq, Structural)]
pub struct FinancialReport {
    pub total_balance: u64,
    pub reserve_ratio: u16,
    pub total_premiums: u64,
    pub total_payouts: u64,
    /// Premiums minus payouts, clamped to the `i64` range.
    pub net_result: i64,
    pub coverage_exposure: u64,
    pub available_liquidity: u64,
    pub transaction_count: u64,
    pub timestamp: i64,
}

/// Combined balance of both asset classes.
pub open spec fn total_balance(t: Treasury) -> int {
    t.total_usdc_balance + t.total_sol_balance
}

/// Balance of one asset class.
pub open spec fn balance_of(t: Treasury, token: TokenType) -> u64 {
    match token {
        TokenType::USDC => t.total_usdc_balance,
        TokenType::SOL => t.total_sol_balance,
    }
}

/// `min(10000, balance * 10000 / exposure)`, or 10000 without exposure.
pub open spec fn reserve_ratio_of(balance: int, exposure: int) -> int {
    if exposure == 0 {
        10000
    } else {
        let r = balance * 10000 / exposure;
        if r > 10000 {
            10000
        } else {
            r
        }
    }
}

/// Reserve required against `exposure` at `min_ratio` basis points.
pub open spec fn required_reserves(exposure: int, min_ratio: int) -> int {
    exposure * min_ratio / 10000
}

/// `max(0, balance - exposure * min_ratio / 10000)`.
pub open spec fn liquidity_of(balance: int, exposure: int, min_ratio: int) -> int {
    let req = required_reserves(exposure, min_ratio);
    if balance > req {
        balance - req
    } else {
        0
    }
}

/// `v` clamped to the `i64` range.
pub open spec fn clamp_i64(v: int) -> i64 {
    (if v > i64::MAX {
        i64::MAX as int
    } else if v < i64::MIN {
        i64::MIN as int
    } else {
        v
    }) as i64
}

/// The treasury with both balances replaced and the reserve ratio recomputed at `ts`.
pub open spec fn with_balances(t: Treasury, usdc: u64, sol: u64, ts: i64) -> Treasury {
    Treasury {
        total_usdc_balance: usdc,
        total_sol_balance: sol,
        current_reserve_ratio: reserve_ratio_of(usdc + sol, t.total_coverage_exposure as int) as u16,
        last_update_timestamp: ts,
        ..t
    }
}

/// The treasury after booking a premium of `amount` in one asset class at `ts`.
pub open spec fn after_premium(t: Treasury, amount: u64, is_usdc: bool, ts: i64) -> Treasury {
    if is_usdc {
        Treasury {
            total_premiums_collected_usdc: (t.total_premiums_collected_usdc + amount) as u64,
            ..with_balances(t, (t.total_usdc_balance + amount) as u64, t.total_sol_balance, ts)
        }
    } else {
        Treasury {
            total_premiums_collected_sol: (t.total_premiums_collected_sol + amount) as u64,
            ..with_balances(t, t.total_usdc_balance, (t.total_sol_balance + amount) as u64, ts)
        }
    }
}

/// The treasury after booking a payout of `amount` from one asset class at `ts`.
pub open spec fn after_payout(t: Treasury, amount: u64, is_usdc: bool, ts: i64) -> Treasury {
    if is_usdc {
        Treasury {
            total_payouts_disbursed_usdc: (t.total_payouts_disbursed_usdc + amount) as u64,
            ..with_balances(t, (t.total_usdc_balance - amount) as u64, t.total_sol_balance, ts)
        }
    } else {
        Treasury {
            total_payouts_disbursed_sol: (t.total_payouts_disbursed_sol + amount) as u64,
            ..with_balances(t, t.total_usdc_balance, (t.total_sol_balance - amount) as u64, ts)
        }
    }
}

impl Treasury {
    /// Combined figures stay representable: balances, premium totals, payout totals and
    /// transaction counts each sum within a `u64`, and the ratios within 10000.
    pub open spec fn wf(&self) -> bool {
        &&& self.total_usdc_balance + self.total_sol_balance <= u64::MAX
        &&& self.total_premiums_collected_usdc + self.total_premiums_collected_sol <= u64::MAX
        &&& self.total_payouts_disbursed_usdc + self.total_payouts_disbursed_sol <= u64::MAX
        &&& self.deposit_count + self.withdrawal_count <= u64::MAX
        &&& self.minimum_reserve_ratio <= 10000
    }

    /// Current reserve ratio in basis points (see `reserve_ratio_of`).
    pub fn calculate_reserve_ratio(&self) -> (r: u16)
        ensures
            r == reserve_ratio_of(total_balance(*self), self.total_coverage_exposure as int),
    {
        if self.total_coverage_exposure == 0 {
            return 10000;
        }
        let total_balance = self.total_usdc_balance as u128 + self.total_sol_balance as u128;
        let ratio = (total_balance * 10000) / self.total_coverage_exposure as u128;
        if ratio > 10000 {
            10000
        } else {
            ratio as u16
        }
    }

    /// The current ratio reaches the required minimum.
    pub fn meets_reserve_requirement(&self) -> (r: bool)
        ensures
            r == (reserve_ratio_of(total_balance(*self), self.total_coverage_exposure as int)
                >= self.minimum_reserve_ratio),
    {
        self.calculate_reserve_ratio() >= self.minimum_reserve_ratio
    }

    /// Balance in excess of the required reserve (see `liquidity_of`).
    pub fn available_liquidity(&self) -> (r: u64)
        requires
            self.wf(),
        ensures
            r == liquidity_of(
                total_balance(*self),
                self.total_coverage_exposure as int,
                self.minimum_reserve_ratio as int,
            ),
    {
        let total_balance = self.total_usdc_balance + self.total_sol_balance;
        assert((self.total_coverage_exposure as int) * (self.minimum_reserve_ratio as int)
            <= u128::MAX) by (nonlinear_arith)
            requires
                self.total_coverage_exposure <= u64::MAX,
                self.minimum_reserve_ratio <= u16::MAX,
        ;
        let required_reserves = (self.total_coverage_exposure as u128
            * self.minimum_reserve_ratio as u128) / 10000;
        if total_balance as u128 > required_reserves {
            (total_balance as u128 - required_reserves) as u64
        } else {
            0
        }
    }

    /// Applies signed balance changes at `timestamp`; a decrease stops at zero. Fails with
    /// `MathOverflow`, changing nothing, when an increase would leave the combined balance
    /// unrepresentable.
    pub fn update_balances(&mut self, usdc_change: i64, sol_change: i64, timestamp: i64) -> (r:
        Result<(), InsuranceError>)
        requires
            old(self).wf(),
        ensures
            ({
                let usdc = if usdc_change >= 0 {
                    old(self).total_usdc_balance + usdc_change
                } else if old(self).total_usdc_balance + usdc_change < 0 {
                    0
                } else {
                    old(self).total_usdc_balance + usdc_change
                };
                let sol = if sol_change >= 0 {
                    old(self).total_sol_balance + sol_change
                } else if old(self).total_sol_balance + sol_change < 0 {
                    0
                } else {
                    old(self).total_sol_balance + sol_change
                };
                if usdc + sol > u64::MAX {
                    r == Err::<(), InsuranceError>(InsuranceError::MathOverflow) && *final(self)
                        == *old(self)
                } else {
                    r == Ok::<(), InsuranceError>(()) && *final(self) == with_balances(
                        *old(self),
                        usdc as u64,
                        sol as u64,
                        timestamp,
                    )
                }
            }),
            final(self).wf(),
    {
        let usdc: u128 = if usdc_change >= 0 {
            self.total_usdc_balance as u128 + usdc_change as u128
        } else if (self.total_usdc_balance as i128) + (usdc_change as i128) < 0 {
            0
        } else {
            ((self.total_usdc_balance as i128) + (usdc_change as i128)) as u128
        };
        let sol: u128 = if sol_change >= 0 {
            self.total_sol_balance as u128 + sol_change as u128
        } else if (self.total_sol_balance as i128) + (sol_change as i128) < 0 {
            0
        } else {
            ((self.total_sol_balance as i128) + (sol_change as i128)) as u128
        };
        if usdc + sol > u64::MAX as u128 {
            return Err(InsuranceError::MathOverflow);
        }
        self.total_usdc_balance = usdc as u64;
        self.total_sol_balance = sol as u64;
        self.current_reserve_ratio = self.calculate_reserve_ratio();
        self.last_update_timestamp = timestamp;
        Ok(())
    }

    /// Books a premium of `amount` in one asset class at `timestamp`. Fails with `MathOverflow`,
    /// changing nothing, when a combined figure would become unrepresentable.
    pub fn record_premium(&mut self, amount: u64, is_usdc: bool, timestamp: i64) -> (r: Result<
        (),
        InsuranceError,
    >)
        requires
            old(self).wf(),
        ensures
            final(self).wf(),
            total_balance(*old(self)) + amount > u64::MAX || old(self).total_premiums_collected_usdc
                + old(self).total_premiums_collected_sol + amount > u64::MAX ==> r == Err::<
                (),
                InsuranceError,
            >(InsuranceError::MathOverflow) && *final(self) == *old(self),
            !(total_balance(*old(self)) + amount > u64::MAX
                || old(self).total_premiums_collected_usdc
                + old(self).total_premiums_collected_sol + amount > u64::MAX) ==> r == Ok::<
                (),
                InsuranceError,
            >(()) && *final(self) == after_premium(*old(self), amount, is_usdc, timestamp),
    {
        if self.total_usdc_balance as u128 + self.total_sol_balance as u128 + amount as u128
            > u64::MAX as u128 || self.total_premiums_collected_usdc as u128
            + self.total_premiums_collected_sol as u128 + amount as u128 > u64::MAX as u128 {
            return Err(InsuranceError::MathOverflow);
        }
        if is_usdc {
            self.total_premiums_collected_usdc = self.total_premiums_collected_usdc + amount;
            self.total_usdc_balance = self.total_usdc_balance + amount;
        } else {
            self.total_premiums_collected_sol = self.total_premiums_collected_sol + amount;
            self.total_sol_balance = self.total_sol_balance + amount;
        }
        self.current_reserve_ratio = self.calculate_reserve_ratio();
        self.last_update_timestamp = timestamp;
        Ok(())
    }

    /// Books a payout of `amount` from one asset class at `timestamp`. Fails with
    /// `InsufficientTreasury` when that balance is short and with `MathOverflow` when the
    /// payout totals would become unrepresentable; a failure changes nothing. The reserve ratio
    /// is deliberately not consulted: claims are honoured from the raw balance.
    pub fn record_payout(&mut self, amount: u64, is_usdc: bool, timestamp: i64) -> (r: Result<
        (),
        InsuranceError,
    >)
        requires
            old(self).wf(),
        ensures
            final(self).wf(),
            (if is_usdc {
                old(self).total_usdc_balance
            } else {
                old(self).total_sol_balance
            }) < amount ==> r == Err::<(), InsuranceError>(InsuranceError::InsufficientTreasury)
                && *final(self) == *old(self),
            (if is_usdc {
                old(self).total_usdc_balance
            } else {
                old(self).total_sol_balance
            }) >= amount && old(self).total_payouts_disbursed_usdc
                + old(self).total_payouts_disbursed_sol + amount > u64::MAX ==> r == Err::<
                (),
                InsuranceError,
            >(InsuranceError::MathOverflow) && *final(self) == *old(self),
            (if is_usdc {
                old(self).total_usdc_balance
            } else {
                old(self).total_sol_balance
            }) >= amount && old(self).total_payouts_disbursed_usdc
                + old(self).total_payouts_disbursed_sol + amount <= u64::MAX ==> r == Ok::<
                (),
                InsuranceError,
            >(()) && *final(self) == after_payout(*old(self), amount, is_usdc, timestamp),
    {
        let balance = if is_usdc {
            self.total_usdc_balance
        } else {
            self.total_sol_balance
        };
        if balance < amount {
            return Err(InsuranceError::InsufficientTreasury);
        }
        if self.total_payouts_disbursed_usdc as u128 + self.total_payouts_disbursed_sol as u128
            + amount as u128 > u64::MAX as u128 {
            return Err(InsuranceError::MathOverflow);
        }
        if is_usdc {
            self.total_payouts_disbursed_usdc = self.total_payouts_disbursed_usdc + amount;
            self.total_usdc_balance = self.total_usdc_balance - amount;
        } else {
            self.total_payouts_disbursed_sol = self.total_payouts_disbursed_sol + amount;
            self.total_sol_balance = self.total_sol_balance - amount;
        }
        self.current_reserve_ratio = self.calculate_reserve_ratio();
        self.last_update_timestamp = timestamp;
        Ok(())
    }
}

impl FinancialReport {
    /// Summary figures of the treasury.
    pub fn from_treasury(treasury: &Treasury) -> (r: Self)
        requires
            treasury.wf(),
        ensures
            r == (FinancialReport {
                total_balance: total_balance(*treasury) as u64,
                reserve_ratio: treasury.current_reserve_ratio,
                total_premiums: (treasury.total_premiums_collected_usdc
                    + treasury.total_premiums_collected_sol) as u64,
                total_payouts: (treasury.total_payouts_disbursed_usdc
                    + treasury.total_payouts_disbursed_sol) as u64,
                net_result: clamp_i64(
                    treasury.total_premiums_collected_usdc + treasury.total_premiums_collected_sol
                        - treasury.total_payouts_disbursed_usdc
                        - treasury.total_payouts_disbursed_sol,
                ),
                coverage_exposure: treasury.total_coverage_exposure,
                available_liquidity: liquidity_of(
                    total_balance(*treasury),
                    treasury.total_coverage_exposure as int,
                    treasury.minimum_reserve_ratio as int,
                ) as u64,
                transaction_count: (treasury.deposit_count + treasury.withdrawal_count) as u64,
                timestamp: treasury.last_update_timestamp,
            }),
    {
        let total_balance = treasury.total_usdc_balance + treasury.total_sol_balance;
        let total_premiums = treasury.total_premiums_collected_usdc
            + treasury.total_premiums_collected_sol;
        let total_payouts = treasury.total_payouts_disbursed_usdc
            + treasury.total_payouts_disbursed_sol;
        let net = total_premiums as i128 - total_payouts as i128;
        let net_result: i64 = if net > i64::MAX as i128 {
            i64::MAX
        } else if net < i64::MIN as i128 {
            i64::MIN
        } else {
            net as i64
        };
        FinancialReport {
            total_balance,
            reserve_ratio: treasury.current_reserve_ratio,
            total_premiums,
            total_payouts,
            net_result,
            coverage_exposure: treasury.total_coverage_exposure,
            available_liquidity: treasury.available_liquidity(),
            transaction_count: treasury.deposit_count + treasury.withdrawal_count,
            timestamp: treasury.last_update_timestamp,
        }
    }
}

/// A treasury for `admin` at `now`, with no funds and no exposure. The minimum reserve ratio
/// must lie in 1000..=5000 basis points.
pub fn initialize_treasury(admin: Pubkey, minimum_reserve_ratio: u16, now: i64) -> (r: Result<
    Treasury,
    InsuranceError,
>)
    ensures
        !(1000 <= minimum_reserve_ratio <= 5000) ==> r == Err::<Treasury, InsuranceError>(
            InsuranceError::InvalidInput,
        ),
        1000 <= minimum_reserve_ratio <= 5000 ==> r == Ok::<Treasury, InsuranceError>(
            Treasury {
                authority: admin,
                usdc_token_account: Pubkey::spec_default(),
                sol_token_account: Pubkey::spec_default(),
                usdc_mint: Pubkey::spec_default(),
                total_usdc_balance: 0,
                total_sol_balance: 0,
                total_premiums_collected_usdc: 0,
                total_premiums_collected_sol: 0,
                total_payouts_disbursed_usdc: 0,
                total_payouts_disbursed_sol: 0,
                current_reserve_ratio: 10000,
                minimum_reserve_ratio,
                total_coverage_exposure: 0,
                deposit_count: 0,
                withdrawal_count: 0,
                last_update_timestamp: now,
                created_at: now,
            },
        ),
        r matches Ok(t) ==> t.wf(),
{
    if !(minimum_reserve_ratio >= 1000 && minimum_reserve_ratio <= 5000) {
        return Err(InsuranceError::InvalidInput);
    }
    Ok(
        Treasury {
            authority: admin,
            usdc_token_account: Pubkey::default_key(),
            sol_token_account: Pubkey::default_key(),
            usdc_mint: Pubkey::default_key(),
            total_usdc_balance: 0,
            total_sol_balance: 0,
            total_premiums_collected_usdc: 0,
            total_premiums_collected_sol: 0,
            total_payouts_disbursed_usdc: 0,
            total_payouts_disbursed_sol: 0,
            current_reserve_ratio: 10000,
            minimum_reserve_ratio,
            total_coverage_exposure: 0,
            deposit_count: 0,
            withdrawal_count: 0,
            last_update_timestamp: now,
            created_at: now,
        },
    )
}

/// The treasury after `amount` of `token` left it at `now`.
pub open spec fn after_withdrawal(t: Treasury, amount: u64, token: TokenType, now: i64) -> Treasury {
    let w = Treasury { withdrawal_count: (t.withdrawal_count + 1) as u64, ..t };
    match token {
        TokenType::USDC => with_balances(
            w,
            (t.total_usdc_balance - amount) as u64,
            t.total_sol_balance,
            now,
        ),
        TokenType::SOL => with_balances(
            w,
            t.total_usdc_balance,
            (t.total_sol_balance - amount) as u64,
            now,
        ),
    }
}

/// The first reason, in order, why a withdrawal of `amount` of `token` is refused: zero amount,
/// short balance, the liquidity guard (when `guarded`), a full transaction counter.
pub open spec fn withdrawal_failure(t: Treasury, amount: u64, token: TokenType, guarded: bool) -> Option<
    InsuranceError,
> {
    if amount == 0 {
        Some(InsuranceError::InvalidInput)
    } else if balance_of(t, token) < amount {
        Some(InsuranceError::InsufficientTreasury)
    } else if guarded && amount > liquidity_of(
        total_balance(t),
        t.total_coverage_exposure as int,
        t.minimum_reserve_ratio as int,
    ) {
        Some(InsuranceError::ReserveRatioViolation)
    } else if t.deposit_count + t.withdrawal_count >= u64::MAX {
        Some(InsuranceError::MathOverflow)
    } else {
        None
    }
}

/// Takes `amount` of `token` out of the treasury at `now`, after the checks of
/// `withdrawal_failure`; the liquidity guard applies when `guarded`.
pub(crate) fn debit_treasury(
    treasury: &mut Treasury,
    amount: u64,
    token_type: TokenType,
    guarded: bool,
    now: i64,
) -> (r: Result<(), InsuranceError>)
    requires
        old(treasury).wf(),
    ensures
        final(treasury).wf(),
        match withdrawal_failure(*old(treasury), amount, token_type, guarded) {
            Some(e) => r == Err::<(), InsuranceError>(e) && *final(treasury) == *old(treasury),
            None => r == Ok::<(), InsuranceError>(()) && *final(treasury) == after_withdrawal(
                *old(treasury),
                amount,
                token_type,
                now,
            ),
        },
{
    if amount == 0 {
        return Err(InsuranceError::InvalidInput);
    }
    let balance = match token_type {
        TokenType::USDC => treasury.total_usdc_balance,
        TokenType::SOL => treasury.total_sol_balance,
    };
    if balance < amount {
        return Err(InsuranceError::InsufficientTreasury);
    }
    if guarded && amount > treasury.available_liquidity() {
        return Err(InsuranceError::ReserveRatioViolation);
    }
    if treasury.deposit_count as u128 + treasury.withdrawal_count as u128 >= u64::MAX as u128 {
        return Err(InsuranceError::MathOverflow);
    }
    match token_type {
        TokenType::USDC => {
            treasury.total_usdc_balance = treasury.total_usdc_balance - amount;
        },
        TokenType::SOL => {
            treasury.total_sol_balance = treasury.total_sol_balance - amount;
        },
    }
    treasury.withdrawal_count = treasury.withdrawal_count + 1;
    treasury.current_reserve_ratio = treasury.calculate_reserve_ratio();
    treasury.last_update_timestamp = now;
    Ok(())
}

/// Adds `amount` of `token_type` to the treasury at `now`. Fails with `InvalidInput` for a zero
/// amount and with `MathOverflow` when a combined figure would become unrepresentable; a
/// failure changes nothing.
pub fn deposit_funds(treasury: &mut Treasury, amount: u64, token_type: TokenType, now: i64) -> (r:
    Result<(), InsuranceError>)
    requires
        old(treasury).wf(),
    ensures
        final(treasury).wf(),
        amount == 0 ==> r == Err::<(), InsuranceError>(InsuranceError::InvalidInput) && *final(treasury) == *old(treasury),
        amount > 0 && (total_balance(*old(treasury)) + amount > u64::MAX
            || old(treasury).deposit_count + old(treasury).withdrawal_count >= u64::MAX) ==> r
            == Err::<(), InsuranceError>(InsuranceError::MathOverflow) && *final(treasury) == *old(treasury),
        amount > 0 && total_balance(*old(treasury)) + amount <= u64::MAX
            && old(treasury).deposit_count + old(treasury).withdrawal_count < u64::MAX ==> r
            == Ok::<(), InsuranceError>(()) && *final(treasury) == ({
            let t = Treasury { deposit_count: (old(treasury).deposit_count + 1) as u64, ..*old(treasury) };
            match token_type {
                TokenType::USDC => with_balances(
                    t,
                    (t.total_usdc_balance + amount) as u64,
                    t.total_sol_balance,
                    now,
                ),
                TokenType::SOL => with_balances(
                    t,
                    t.total_usdc_balance,
                    (t.total_sol_balance + amount) as u64,
                    now,
                ),
            }
        }),
{
    if amount == 0 {
        return Err(InsuranceError::InvalidInput);
    }
    if treasury.total_usdc_balance as u128 + treasury.total_sol_balance as u128 + amount as u128
        > u64::MAX as u128 || treasury.deposit_count as u128 + treasury.withdrawal_count as u128
        >= u64::MAX as u128 {
        return Err(InsuranceError::MathOverflow);
    }
    match token_type {
        TokenType::USDC => {
            treasury.total_usdc_balance = treasury.total_usdc_balance + amount;
        },
        TokenType::SOL => {
            treasury.total_sol_balance = treasury.total_sol_balance + amount;
        },
    }
    treasury.deposit_count = treasury.deposit_count + 1;
    treasury.current_reserve_ratio = treasury.calculate_reserve_ratio();
    treasury.last_update_timestamp = now;
    Ok(())
}

/// Withdraws `amount` of `token_type` at `now` on the treasury authority's request. Only
/// admin-initiated withdrawals are held to the available liquidity; others (claim payouts,
/// refunds, emergencies) need only the balance. Refusals, in order: caller is not the
/// authority, then those of `withdrawal_failure`.
pub fn withdraw_funds(
    treasury: &mut Treasury,
    admin: Pubkey,
    amount: u64,
    token_type: TokenType,
    reason: WithdrawalReason,
    now: i64,
) -> (r: Result<TreasuryWithdrawn, InsuranceError>)
    requires
        old(treasury).wf(),
    ensures
        final(treasury).wf(),
        old(treasury).authority != admin ==> r == Err::<TreasuryWithdrawn, InsuranceError>(
            InsuranceError::Unauthorized,
        ) && *final(treasury) == *old(treasury),
        old(treasury).authority == admin ==> match withdrawal_failure(
            *old(treasury),
            amount,
            token_type,
            reason == WithdrawalReason::AdminWithdrawal,
        ) {
            Some(e) => r == Err::<TreasuryWithdrawn, InsuranceError>(e) && *final(treasury)
                == *old(treasury),
            None => r == Ok::<TreasuryWithdrawn, InsuranceError>(
                TreasuryWithdrawn { admin, amount, timestamp: now },
            ) && *final(treasury) == after_withdrawal(*old(treasury), amount, token_type, now),
        },
{
    if treasury.authority != admin {
        return Err(InsuranceError::Unauthorized);
    }
    let guarded = reason == WithdrawalReason::AdminWithdrawal;
    match debit_treasury(treasury, amount, token_type, guarded, now) {
        Err(e) => Err(e),
        Ok(()) => Ok(TreasuryWithdrawn { admin, amount, timestamp: now }),
    }
}

/// Recomputes the current reserve ratio at `now`.
pub fn update_treasury_balance(treasury: &mut Treasury, now: i64) -> (r: Result<(), InsuranceError>)
    ensures
        r is Ok,
        *final(treasury) == with_balances(
            *old(treasury),
            old(treasury).total_usdc_balance,
            old(treasury).total_sol_balance,
            now,
        ),
{
    treasury.current_reserve_ratio = treasury.calculate_reserve_ratio();
    treasury.last_update_timestamp = now;
    Ok(())
}

/// The balance covers the reserve required for the current exposure plus
/// `additional_exposure`; fails with `SolvencyCheckFailed` otherwise.
pub fn validate_treasury_solvency(treasury: &Treasury, additional_exposure: u64) -> (r: Result<
    (),
    InsuranceError,
>)
    ensures
        r == if total_balance(*treasury) >= required_reserves(
            treasury.total_coverage_exposure + additional_exposure,
            treasury.minimum_reserve_ratio as int,
        ) {
            Ok::<(), InsuranceError>(())
        } else {
            Err(InsuranceError::SolvencyCheckFailed)
        },
{
    let new_exposure = treasury.total_coverage_exposure as u128 + additional_exposure as u128;
    let total_balance = treasury.total_usdc_balance as u128 + treasury.total_sol_balance as u128;
    assert((new_exposure as int) * (treasury.minimum_reserve_ratio as int) <= u128::MAX)
        by (nonlinear_arith)
        requires
            new_exposure <= 2 * (u64::MAX as int),
            treasury.minimum_reserve_ratio <= u16::MAX,
    ;
    let required_reserves = (new_exposure * treasury.minimum_reserve_ratio as u128) / 10000;
    if total_balance >= required_reserves {
        Ok(())
    } else {
        Err(InsuranceError::SolvencyCheckFailed)
    }
}

/// Books a premium (see `Treasury::record_premium`).
pub fn process_premium_payment(treasury: &mut Treasury, amount: u64, is_usdc: bool, timestamp: i64) -> (r:
    Result<(), InsuranceError>)
    requires
        old(treasury).wf(),
    ensures
        final(treasury).wf(),
        r is Ok <==> total_balance(*old(treasury)) + amount <= u64::MAX
            && old(treasury).total_premiums_collected_usdc
            + old(treasury).total_premiums_collected_sol + amount <= u64::MAX,
        r is Err ==> r == Err::<(), InsuranceError>(InsuranceError::MathOverflow) && *final(treasury)
            == *old(treasury),
        r is Ok ==> *final(treasury) == after_premium(*old(treasury), amount, is_usdc, timestamp),
{
    treasury.record_premium(amount, is_usdc, timestamp)
}

/// Books a payout (see `Treasury::record_payout`).
pub fn process_payout_disbursement(
    treasury: &mut Treasury,
    amount: u64,
    is_usdc: bool,
    timestamp: i64,
) -> (r: Result<(), InsuranceError>)
    requires
        old(treasury).wf(),
    ensures
        final(treasury).wf(),
        r is Ok <==> (if is_usdc {
            old(treasury).total_usdc_balance
        } else {
            old(treasury).total_sol_balance
        }) >= amount && old(treasury).total_payouts_disbursed_usdc
            + old(treasury).total_payouts_disbursed_sol + amount <= u64::MAX,
        (if is_usdc {
            old(treasury).total_usdc_balance
        } else {
            old(treasury).total_sol_balance
        }) < amount ==> r == Err::<(), InsuranceError>(InsuranceError::InsufficientTreasury),
        (if is_usdc {
            old(treasury).total_usdc_balance
        } else {
            old(treasury).total_sol_balance
        }) >= amount && r is Err ==> r == Err::<(), InsuranceError>(InsuranceError::MathOverflow),
        r is Err ==> *final(treasury) == *old(treasury),
        r is Ok ==> *final(treasury) == after_payout(*old(treasury), amount, is_usdc, timestamp),
{
    treasury.record_payout(amount, is_usdc, timestamp)
}

/// Checks that `required_amount` can leave a balance of `treasury_balance` while keeping
/// `reserve_ratio` percent of that balance in reserve.
pub fn validate_treasury_balance(treasury_balance: u64, required_amount: u64, reserve_ratio: u64) -> (r:
    Result<(), InsuranceError>)
    ensures
        r == if treasury_balance < required_amount {
            Err(InsuranceError::InsufficientTreasury)
        } else if treasury_balance * reserve_ratio > u64::MAX {
            Err(InsuranceError::MathOverflow)
        } else if treasury_balance - required_amount < treasury_balance * reserve_ratio / 100 {
            Err(InsuranceError::ReserveRatioBelowMinimum)
        } else {
            Ok::<(), InsuranceError>(())
        },
{
    if treasury_balance < required_amount {
        return Err(InsuranceError::InsufficientTreasury);
    }
    let required_reserves = match treasury_balance.checked_mul(reserve_ratio) {
        Some(x) => x / 100,
        None => {
            return Err(InsuranceError::MathOverflow);
        },
    };
    if treasury_balance - required_amount < required_reserves {
        return Err(InsuranceError::ReserveRatioBelowMinimum);
    }
    Ok(())
}

} // verus!
