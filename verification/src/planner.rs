use vstd::prelude::*;
use crate::errors::AppError;

verus! {

/// Pure sizing rules for automatic deposits: how much to deposit or keep in
/// reserve so that pending operations stay funded.
pub struct AutoDepositCalculator {
    base_fee: u64,
}

/// A fee estimate plus a 150% safety buffer, the buffer rounded to the
/// nearest whole unit.
pub open spec fn spec_deposit_for_fee(fee: int) -> int {
    fee + (3 * fee + 1) / 2
}

/// Fee for a trade of the given size: a flat base plus a size-dependent part
/// of at least one rate unit.
pub open spec fn spec_trade_fee(trade_size: int) -> int {
    5000 + (if trade_size / 1_000_000 > 1 {
        trade_size / 1_000_000
    } else {
        1
    }) * 100
}

impl AutoDepositCalculator {
    pub fn new(base_fee: u64) -> (calc: Self)
        ensures
            calc.spec_base_fee() == base_fee,
    {
        AutoDepositCalculator { base_fee }
    }

    /// The flat per-operation fee this planner was configured with.
    pub closed spec fn spec_base_fee(&self) -> u64 {
        self.base_fee
    }

    /// The deposit needed to cover a fee estimate with a 150% buffer.
    /// Fails only when the buffered amount cannot be represented.
    pub fn calculate_deposit_amount(&self, trade_fee_estimate: u64) -> (r: Result<
        u64,
        AppError,
    >)
        ensures
            spec_deposit_for_fee(trade_fee_estimate as int) <= u64::MAX ==> r == Ok::<u64, AppError>(
                (spec_deposit_for_fee(trade_fee_estimate as int) as u64),
            ),
            spec_deposit_for_fee(trade_fee_estimate as int) > u64::MAX ==> r == Err::<u64, AppError>(
                AppError::InsufficientFunds,
            ),
    {
        let fee = trade_fee_estimate as u128;
        let total: u128 = fee + (3 * fee + 1) / 2;
        if total > u64::MAX as u128 {
            Err(AppError::InsufficientFunds)
        } else {
            Ok(total as u64)
        }
    }

    /// True when the balance is below twice the expected cost of the pending
    /// operations.
    pub fn should_topup(&self, current_balance: u64, pending_operations: usize) -> (r: bool)
        ensures
            r == (current_balance < self.spec_base_fee() * pending_operations * 2),
    {
        let a = self.base_fee as u128;
        let b = pending_operations as u128;
        proof {
            assert(a * b <= 0xFFFFFFFFFFFFFFFFu128 * 0xFFFFFFFFFFFFFFFFu128) by (nonlinear_arith)
                requires
                    a <= 0xFFFFFFFFFFFFFFFFu128,
                    b <= 0xFFFFFFFFFFFFFFFFu128,
            ;
        }
        let cost: u128 = a * b;
        assert(cost == self.spec_base_fee() * pending_operations);
        if cost >= 0x8000000000000000u128 {
            true
        } else {
            (current_balance as u128) < 2 * cost
        }
    }

    /// The deposit that brings the balance up to three times the expected
    /// cost of the pending operations; zero when the balance already suffices.
    pub fn calculate_optimal_topup(&self, current_balance: u64, pending_operations: usize) -> (r:
        u64)
        requires
            self.spec_base_fee() * pending_operations * 3 <= u64::MAX,
        ensures
            r == (if current_balance < self.spec_base_fee() * pending_operations * 3 {
                self.spec_base_fee() * pending_operations * 3 - current_balance
            } else {
                0
            }),
    {
        let a = self.base_fee as u128;
        let b = pending_operations as u128;
        proof {
            assert(a * b <= 0xFFFFFFFFFFFFFFFFu128 * 0xFFFFFFFFFFFFFFFFu128) by (nonlinear_arith)
                requires
                    a <= 0xFFFFFFFFFFFFFFFFu128,
                    b <= 0xFFFFFFFFFFFFFFFFu128,
            ;
        }
        let target: u128 = a * b * 3;
        assert(target == self.spec_base_fee() * pending_operations * 3);
        let target64 = target as u64;
        if current_balance < target64 {
            target64 - current_balance
        } else {
            0
        }
    }

    /// Estimated transaction fee for a trade of the given size; never wraps.
    pub fn estimate_trade_fee(&self, trade_size: u64) -> (r: u64)
        ensures
            r == spec_trade_fee(trade_size as int),
    {
        let base: u64 = 5000;
        let scaled = trade_size / 1_000_000;
        assert(scaled <= 0xFFFFFFFFFFFFFFFFu64 / 1_000_000) by {
            assert(trade_size as int / 1_000_000 <= 0xFFFFFFFFFFFFFFFFint / 1_000_000);
        };
        let size_fee = (if scaled > 1 {
            scaled
        } else {
            1
        }) * 100;
        base.saturating_add(size_fee)
    }
}

} // verus!
