use vstd::prelude::*;

verus! {

/// Prices the signing of transactions by priority level.
pub struct TransactionSigner;

/// The fee for a priority level: the base fee at level one, one and a half
/// times it at level two, three times at level three and five times
/// otherwise, capped at the largest representable fee.
pub open spec fn spec_priority_fee(base_fee: u64, priority_level: u8) -> int {
    let raw: int = if priority_level == 1 {
        base_fee as int
    } else if priority_level == 2 {
        base_fee + base_fee / 2
    } else if priority_level == 3 {
        3 * base_fee
    } else {
        5 * base_fee
    };
    if raw > u64::MAX {
        u64::MAX as int
    } else {
        raw
    }
}

impl TransactionSigner {
    /// Compute the priority fee for a transaction; never wraps.
    pub fn calculate_priority_fee(base_fee: u64, priority_level: u8) -> (r: u64)
        ensures
            r == spec_priority_fee(base_fee, priority_level),
    {
        match priority_level {
            1 => base_fee,
            2 => base_fee.saturating_add(base_fee / 2),
            3 => match base_fee.checked_mul(3) {
                Some(f) => f,
                None => u64::MAX,
            },
            _ => match base_fee.checked_mul(5) {
                Some(f) => f,
                None => u64::MAX,
            },
        }
    }
}

} // verus!
