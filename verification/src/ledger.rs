use vstd::prelude::*;
use crate::errors::VaultError;

verus! {

/// Smallest deposit the ledger will make for a trade, so that a vault always
/// holds enough to pay transaction fees.
pub const MIN_FEE_DEPOSIT: u64 = 5000;

/// The authoritative balance-and-rights record of one delegated session.
///
/// Accounting invariant: `available_amount + used_amount == total_deposited`
/// after every operation, and `used_amount` never exceeds `approved_amount`.
#[derive(Debug, Clone)]
pub struct EphemeralVault {
    pub user_wallet: String,
    pub vault_pda: String,
    pub created_at: i64,
    pub last_activity: i64,
    pub session_expiry: i64,
    pub approved_amount: u64,
    pub used_amount: u64,
    pub available_amount: u64,
    pub total_deposited: u64,
    pub is_active: bool,
}

/// The grant of spending rights over a vault to one ephemeral identity.
#[derive(Debug, Clone)]
pub struct VaultDelegation {
    pub vault: String,
    pub delegate: String,
    pub approved_at: i64,
    pub revoked_at: Option<i64>,
    pub is_active: bool,
}

impl EphemeralVault {
    /// Balance accounting: free and spent funds always add up to what was
    /// deposited, and spending stays within the approved limit. The free
    /// balance can never go negative because it is unsigned.
    pub open spec fn inv(&self) -> bool {
        &&& self.available_amount + self.used_amount == self.total_deposited
        &&& self.used_amount <= self.approved_amount
    }
}

impl VaultDelegation {
    /// A delegation is active exactly as long as it has not been revoked.
    pub open spec fn inv(&self) -> bool {
        self.is_active <==> self.revoked_at is None
    }
}

/// Result of creating a vault: all balances zero, active, expiring after the
/// requested duration.
pub open spec fn spec_create_vault(
    user_wallet: String,
    vault_pda: String,
    approved_amount: u64,
    session_duration: i64,
    now: i64,
) -> Result<EphemeralVault, VaultError> {
    if approved_amount <= 0 {
        Err(VaultError::InvalidAmount)
    } else if session_duration <= 0 {
        Err(VaultError::InvalidDuration)
    } else {
        Ok(
            (EphemeralVault {
                user_wallet: user_wallet,
                vault_pda: vault_pda,
                created_at: now,
                last_activity: now,
                session_expiry: (now + session_duration) as i64,
                approved_amount: approved_amount,
                used_amount: 0,
                available_amount: 0,
                total_deposited: 0,
                is_active: true,
            }),
        )
    }
}

/// Open a new vault for one delegated session.
pub fn create_ephemeral_vault(
    user_wallet: String,
    vault_pda: String,
    approved_amount: u64,
    session_duration: i64,
    now: i64,
) -> (r: Result<EphemeralVault, VaultError>)
    requires
        (approved_amount > 0 && session_duration > 0) ==> now + session_duration <= i64::MAX,
    ensures
        r == spec_create_vault(user_wallet, vault_pda, approved_amount, session_duration, now),
        r matches Ok(v) ==> v.inv(),
{
    if approved_amount == 0 {
        return Err(VaultError::InvalidAmount);
    }
    if session_duration <= 0 {
        return Err(VaultError::InvalidDuration);
    }
    Ok(
        EphemeralVault {
            user_wallet,
            vault_pda,
            created_at: now,
            last_activity: now,
            session_expiry: now + session_duration,
            approved_amount,
            used_amount: 0,
            available_amount: 0,
            total_deposited: 0,
            is_active: true,
        },
    )
}

/// Result of approving a delegate on a vault.
pub open spec fn spec_approve_delegate(
    vault: EphemeralVault,
    delegate: String,
    now: i64,
) -> Result<VaultDelegation, VaultError> {
    if !vault.is_active {
        Err(VaultError::VaultInactive)
    } else if now >= vault.session_expiry {
        Err(VaultError::SessionExpired)
    } else {
        Ok(
            (VaultDelegation {
                vault: vault.vault_pda,
                delegate: delegate,
                approved_at: now,
                revoked_at: None,
                is_active: true,
            }),
        )
    }
}

/// Grant an ephemeral identity the right to spend from an active, unexpired
/// vault. Any previously active delegation for the vault must have been
/// revoked first; the new record starts active and unrevoked.
pub fn approve_delegate(vault: &EphemeralVault, delegate: String, now: i64) -> (r: Result<
    VaultDelegation,
    VaultError,
>)
    ensures
        r == spec_approve_delegate(*vault, delegate, now),
        r matches Ok(d) ==> d.inv(),
{
    if !vault.is_active {
        return Err(VaultError::VaultInactive);
    }
    if now >= vault.session_expiry {
        return Err(VaultError::SessionExpired);
    }
    Ok(
        VaultDelegation {
            vault: vault.vault_pda.clone(),
            delegate,
            approved_at: now,
            revoked_at: None,
            is_active: true,
        },
    )
}

/// State and result of an automatic fee deposit: on success the deposit is
/// credited to both the free balance and the deposit total.
pub open spec fn spec_auto_deposit(
    vault: EphemeralVault,
    trade_fee_estimate: u64,
    user_lamports: u64,
    now: i64,
) -> (EphemeralVault, Result<u64, VaultError>) {
    let amount: u64 = if trade_fee_estimate > MIN_FEE_DEPOSIT {
        trade_fee_estimate
    } else {
        MIN_FEE_DEPOSIT
    };
    if !vault.is_active {
        (vault, Err(VaultError::VaultInactive))
    } else if now >= vault.session_expiry {
        (vault, Err(VaultError::SessionExpired))
    } else if user_lamports < amount {
        (vault, Err(VaultError::InsufficientFunds))
    } else if vault.total_deposited + amount > u64::MAX {
        (vault, Err(VaultError::Overflow))
    } else if vault.available_amount + amount > u64::MAX {
        (vault, Err(VaultError::Overflow))
    } else {
        (
            (EphemeralVault {
                total_deposited: (vault.total_deposited + amount) as u64,
                available_amount: (vault.available_amount + amount) as u64,
                last_activity: now,
                ..vault
            }),
            Ok(amount),
        )
    }
}

/// Deposit funds to cover upcoming trade fees: at least the fee estimate,
/// never less than [`MIN_FEE_DEPOSIT`]. `user_lamports` is the depositor's
/// balance; the deposit fails with `InsufficientFunds` when it cannot cover
/// the amount. Returns the amount actually deposited.
pub fn auto_deposit_for_trade(
    vault: &mut EphemeralVault,
    trade_fee_estimate: u64,
    user_lamports: u64,
    now: i64,
) -> (r: Result<u64, VaultError>)
    ensures
        (*final(vault), r) == spec_auto_deposit(*old(vault), trade_fee_estimate, user_lamports, now),
        r is Err ==> *final(vault) == *old(vault),
        old(vault).inv() ==> final(vault).inv(),
{
    let deposit_amount: u64 = if trade_fee_estimate > MIN_FEE_DEPOSIT {
        trade_fee_estimate
    } else {
        MIN_FEE_DEPOSIT
    };
    if !vault.is_active {
        return Err(VaultError::VaultInactive);
    }
    if now >= vault.session_expiry {
        return Err(VaultError::SessionExpired);
    }
    if user_lamports < deposit_amount {
        return Err(VaultError::InsufficientFunds);
    }
    let new_total = match vault.total_deposited.checked_add(deposit_amount) {
        Some(t) => t,
        None => { return Err(VaultError::Overflow) },
    };
    let new_available = match vault.available_amount.checked_add(deposit_amount) {
        Some(a) => a,
        None => { return Err(VaultError::Overflow) },
    };
    vault.total_deposited = new_total;
    vault.available_amount = new_available;
    vault.last_activity = now;
    Ok(deposit_amount)
}

/// State and result of a delegated trade debit: the total cost moves from the
/// free balance to the spent balance.
pub open spec fn spec_execute_trade(
    vault: EphemeralVault,
    delegation: VaultDelegation,
    caller: Seq<char>,
    trade_amount: u64,
    fee_amount: u64,
    now: i64,
) -> (EphemeralVault, Result<(), VaultError>) {
    if !vault.is_active {
        (vault, Err(VaultError::VaultInactive))
    } else if now >= vault.session_expiry {
        (vault, Err(VaultError::SessionExpired))
    } else if !delegation.is_active {
        (vault, Err(VaultError::InvalidDelegate))
    } else if delegation.delegate@ != caller {
        (vault, Err(VaultError::InvalidDelegate))
    } else if trade_amount + fee_amount > u64::MAX {
        (vault, Err(VaultError::Overflow))
    } else if vault.available_amount < trade_amount + fee_amount {
        (vault, Err(VaultError::InsufficientBalance))
    } else if vault.used_amount + trade_amount + fee_amount > vault.approved_amount {
        (vault, Err(VaultError::InsufficientBalance))
    } else {
        (
            (EphemeralVault {
                available_amount: (vault.available_amount - trade_amount - fee_amount) as u64,
                used_amount: (vault.used_amount + trade_amount + fee_amount) as u64,
                last_activity: now,
                ..vault
            }),
            Ok(()),
        )
    }
}

/// Debit a vault for a trade made by its delegate. The caller must be the
/// delegated identity of an active delegation; the vault must be active and
/// unexpired; the total cost (trade plus fee) must fit in the free balance
/// and must not push the spent balance above the approved limit.
pub fn execute_trade(
    vault: &mut EphemeralVault,
    delegation: &VaultDelegation,
    caller: &str,
    trade_amount: u64,
    fee_amount: u64,
    now: i64,
) -> (r: Result<(), VaultError>)
    ensures
        (*final(vault), r) == spec_execute_trade(
            *old(vault),
            *delegation,
            caller@,
            trade_amount,
            fee_amount,
            now,
        ),
        r is Err ==> *final(vault) == *old(vault),
        old(vault).inv() ==> final(vault).inv(),
{
    if !vault.is_active {
        return Err(VaultError::VaultInactive);
    }
    if now >= vault.session_expiry {
        return Err(VaultError::SessionExpired);
    }
    if !delegation.is_active {
        return Err(VaultError::InvalidDelegate);
    }
    let caller_owned: String = caller.to_owned();
    if !(delegation.delegate == caller_owned) {
        return Err(VaultError::InvalidDelegate);
    }
    let total_cost = match trade_amount.checked_add(fee_amount) {
        Some(c) => c,
        None => { return Err(VaultError::Overflow) },
    };
    if vault.available_amount < total_cost {
        return Err(VaultError::InsufficientBalance);
    }
    let new_used = match vault.used_amount.checked_add(total_cost) {
        Some(u) => u,
        None => { return Err(VaultError::InsufficientBalance) },
    };
    if new_used > vault.approved_amount {
        return Err(VaultError::InsufficientBalance);
    }
    vault.available_amount = vault.available_amount - total_cost;
    vault.used_amount = new_used;
    vault.last_activity = now;
    Ok(())
}

/// State and result of revoking a delegation: the free balance returns to the
/// owner, so the deposit total shrinks to exactly the spent balance. The
/// vault itself stays active.
pub open spec fn spec_revoke_access(
    vault: EphemeralVault,
    delegation: VaultDelegation,
    now: i64,
) -> (EphemeralVault, VaultDelegation, Result<u64, VaultError>) {
    if !vault.is_active {
        (vault, delegation, Err(VaultError::VaultInactive))
    } else {
        (
            (EphemeralVault {
                available_amount: 0,
                total_deposited: vault.used_amount,
                last_activity: now,
                ..vault
            }),
            (VaultDelegation { is_active: false, revoked_at: Some(now), ..delegation }),
            Ok(vault.available_amount),
        )
    }
}

/// Revoke a delegation and return the remaining free balance to the owner.
/// The vault remains open for a future delegation until expiry or cleanup.
/// Returns the amount handed back.
pub fn revoke_access(vault: &mut EphemeralVault, delegation: &mut VaultDelegation, now: i64) -> (r:
    Result<u64, VaultError>)
    ensures
        (*final(vault), *final(delegation), r) == spec_revoke_access(
            *old(vault),
            *old(delegation),
            now,
        ),
        r is Err ==> *final(vault) == *old(vault) && *final(delegation) == *old(delegation),
        old(vault).inv() ==> final(vault).inv(),
        r is Ok ==> final(delegation).inv(),
{
    if !vault.is_active {
        return Err(VaultError::VaultInactive);
    }
    delegation.is_active = false;
    delegation.revoked_at = Some(now);
    let returned = vault.available_amount;
    vault.available_amount = 0;
    vault.total_deposited = vault.used_amount;
    vault.last_activity = now;
    Ok(returned)
}

/// State and result of expiry cleanup: every remaining balance is returned
/// and zeroed, and the vault becomes terminal.
pub open spec fn spec_cleanup_vault(vault: EphemeralVault, now: i64) -> (
    EphemeralVault,
    Result<u64, VaultError>,
) {
    if now < vault.session_expiry {
        (vault, Err(VaultError::SessionNotExpired))
    } else {
        (
            (EphemeralVault {
                available_amount: 0,
                used_amount: 0,
                total_deposited: 0,
                is_active: false,
                ..vault
            }),
            Ok(vault.available_amount),
        )
    }
}

/// Reclaim an expired vault: return the remaining free balance to the owner,
/// zero every ledger balance and mark the vault terminal. Calling it again on
/// an already cleaned vault succeeds and returns zero.
pub fn cleanup_vault(vault: &mut EphemeralVault, now: i64) -> (r: Result<u64, VaultError>)
    ensures
        (*final(vault), r) == spec_cleanup_vault(*old(vault), now),
        r is Err ==> *final(vault) == *old(vault),
        r is Ok ==> final(vault).inv(),
        old(vault).inv() ==> final(vault).inv(),
{
    if now < vault.session_expiry {
        return Err(VaultError::SessionNotExpired);
    }
    let returned = vault.available_amount;
    vault.available_amount = 0;
    vault.used_amount = 0;
    vault.total_deposited = 0;
    vault.is_active = false;
    Ok(returned)
}

/// One mutating ledger operation on a single vault, with everything the
/// operation reads besides the vault itself.
pub enum LedgerOp {
    Deposit { trade_fee_estimate: u64, user_lamports: u64, now: i64 },
    Trade {
        delegation: VaultDelegation,
        caller: String,
        trade_amount: u64,
        fee_amount: u64,
        now: i64,
    },
    Revoke { delegation: VaultDelegation, now: i64 },
    Cleanup { now: i64 },
}

/// The vault state after one ledger operation; a rejected operation leaves
/// the vault as it was.
pub open spec fn apply_ledger_op(vault: EphemeralVault, op: LedgerOp) -> EphemeralVault {
    match op {
        LedgerOp::Deposit { trade_fee_estimate, user_lamports, now } => spec_auto_deposit(
            vault,
            trade_fee_estimate,
            user_lamports,
            now,
        ).0,
        LedgerOp::Trade { delegation, caller, trade_amount, fee_amount, now } => spec_execute_trade(
            vault,
            delegation,
            caller@,
            trade_amount,
            fee_amount,
            now,
        ).0,
        LedgerOp::Revoke { delegation, now } => spec_revoke_access(vault, delegation, now).0,
        LedgerOp::Cleanup { now } => spec_cleanup_vault(vault, now).0,
    }
}

/// The vault state after a whole sequence of ledger operations.
pub open spec fn apply_ledger_ops(vault: EphemeralVault, ops: Seq<LedgerOp>) -> EphemeralVault
    decreases ops.len(),
{
    if ops.len() == 0 {
        vault
    } else {
        apply_ledger_ops(apply_ledger_op(vault, ops[0]), ops.drop_first())
    }
}

/// Every single ledger operation preserves the accounting invariant:
/// free plus spent funds equal the deposit total, and spending stays within
/// the approved limit.
pub proof fn lemma_ledger_op_preserves_accounting(vault: EphemeralVault, op: LedgerOp)
    requires
        vault.inv(),
    ensures
        apply_ledger_op(vault, op).inv(),
{
}

/// After any sequence of deposits, trades, revocations and cleanups, the
/// accounting invariant still holds.
pub proof fn lemma_ledger_sequence_preserves_accounting(vault: EphemeralVault, ops: Seq<LedgerOp>)
    requires
        vault.inv(),
    ensures
        apply_ledger_ops(vault, ops).inv(),
    decreases ops.len(),
{
    if ops.len() > 0 {
        lemma_ledger_op_preserves_accounting(vault, ops[0]);
        lemma_ledger_sequence_preserves_accounting(apply_ledger_op(vault, ops[0]), ops.drop_first());
    }
}

/// The accounting invariant holds not only at the end but after every
/// operation of the sequence: each prefix leaves the vault balanced.
pub proof fn lemma_ledger_prefixes_preserve_accounting(vault: EphemeralVault, ops: Seq<LedgerOp>)
    requires
        vault.inv(),
    ensures
        forall|i: int|
            0 <= i <= ops.len() ==> apply_ledger_ops(vault, #[trigger] ops.subrange(0, i)).inv(),
{
    assert forall|i: int|
        0 <= i <= ops.len() implies apply_ledger_ops(vault, #[trigger] ops.subrange(0, i)).inv() by {
        lemma_ledger_sequence_preserves_accounting(vault, ops.subrange(0, i));
    }
}

/// A trade whose total cost exceeds the free balance is always rejected and
/// leaves every balance unchanged; when no other guard fails first, the
/// rejection is `InsufficientBalance`.
pub proof fn lemma_trade_exceeding_balance_rejected(
    vault: EphemeralVault,
    delegation: VaultDelegation,
    caller: Seq<char>,
    trade_amount: u64,
    fee_amount: u64,
    now: i64,
)
    requires
        vault.available_amount < trade_amount + fee_amount,
    ensures
        spec_execute_trade(vault, delegation, caller, trade_amount, fee_amount, now).0 == vault,
        spec_execute_trade(vault, delegation, caller, trade_amount, fee_amount, now).1 is Err,
        (vault.is_active && now < vault.session_expiry && delegation.is_active
            && delegation.delegate@ == caller && trade_amount + fee_amount <= u64::MAX)
            ==> spec_execute_trade(vault, delegation, caller, trade_amount, fee_amount, now).1
            == Err::<(), VaultError>(VaultError::InsufficientBalance),
{
}

/// Revoking a delegation a second time still succeeds and is a no-op for
/// every balance: the free balance is already zero, so zero is returned.
pub proof fn lemma_revoke_twice_noop(
    vault: EphemeralVault,
    delegation: VaultDelegation,
    now1: i64,
    now2: i64,
)
    requires
        vault.is_active,
    ensures
        ({
            let (v1, d1, r1) = spec_revoke_access(vault, delegation, now1);
            let (v2, d2, r2) = spec_revoke_access(v1, d1, now2);
            &&& r1 == Ok::<u64, VaultError>(vault.available_amount)
            &&& r2 == Ok::<u64, VaultError>(0u64)
            &&& v2.available_amount == v1.available_amount
            &&& v2.used_amount == v1.used_amount
            &&& v2.total_deposited == v1.total_deposited
            &&& !d1.is_active
            &&& !d2.is_active
        }),
{
}

/// Cleanup before expiry always fails `SessionNotExpired` and changes
/// nothing; at or after expiry it always succeeds and returns the free
/// balance; repeating it succeeds again and returns zero.
pub proof fn lemma_cleanup_expiry(vault: EphemeralVault, now: i64, now2: i64)
    ensures
        now < vault.session_expiry ==> spec_cleanup_vault(vault, now) == (
            vault,
            Err::<u64, VaultError>(VaultError::SessionNotExpired),
        ),
        now >= vault.session_expiry ==> spec_cleanup_vault(vault, now).1 == Ok::<u64, VaultError>(
            vault.available_amount,
        ),
        (now >= vault.session_expiry && now2 >= vault.session_expiry) ==> ({
            let (v1, r1) = spec_cleanup_vault(vault, now);
            spec_cleanup_vault(v1, now2).1 == Ok::<u64, VaultError>(0u64)
                && spec_cleanup_vault(v1, now2).0 == v1
        }),
{
}

} // verus!
