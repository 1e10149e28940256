use vstd::prelude::*;
use crate::errors::AppError;
use crate::primitives::fresh_uuid;

verus! {

/// Custody-side record of one delegation grant: which ephemeral identity may
/// spend from which vault, and whether the grant still stands. Records are
/// append-only: revocation marks them, nothing deletes them.
#[derive(Debug, Clone)]
pub struct DelegationRecord {
    pub id: String,
    pub session_id: String,
    pub vault_address: String,
    pub delegated_to: String,
    pub approved_at: i64,
    pub revoked_at: Option<i64>,
    pub is_active: bool,
}

impl DelegationRecord {
    /// A record is active exactly as long as it has not been revoked.
    pub open spec fn inv(&self) -> bool {
        self.is_active <==> self.revoked_at is None
    }
}

/// What verifying a delegation for a claimed identity yields: the record
/// must be active and unrevoked, and the identity must be the delegate.
pub open spec fn spec_verify_delegation(delegation: DelegationRecord, delegate: Seq<char>) -> Result<
    (),
    AppError,
> {
    if !delegation.is_active {
        Err(AppError::InvalidSession)
    } else if delegation.revoked_at is Some {
        Err(AppError::InvalidSession)
    } else if delegation.delegated_to@ != delegate {
        Err(AppError::Unauthorized)
    } else {
        Ok(())
    }
}

/// Grants, revokes and verifies the right of an ephemeral identity to spend
/// from a vault.
pub struct DelegationManager;

impl DelegationManager {
    /// Check that `delegate` currently holds the delegation.
    pub fn verify_delegation(delegation: &DelegationRecord, delegate: &str) -> (r: Result<
        (),
        AppError,
    >)
        ensures
            r == spec_verify_delegation(*delegation, delegate@),
    {
        if !delegation.is_active {
            return Err(AppError::InvalidSession);
        }
        if delegation.revoked_at.is_some() {
            return Err(AppError::InvalidSession);
        }
        let claimed: String = delegate.to_owned();
        if !(delegation.delegated_to == claimed) {
            return Err(AppError::Unauthorized);
        }
        Ok(())
    }

    /// Create a fresh, active delegation record with a new identifier.
    pub fn create_delegation(session_id: String, vault_address: String, delegated_to: String, now: i64) -> (d:
        DelegationRecord)
        ensures
            d.session_id == session_id,
            d.vault_address == vault_address,
            d.delegated_to == delegated_to,
            d.approved_at == now,
            d.revoked_at is None,
            d.is_active,
            d.inv(),
    {
        DelegationRecord {
            id: fresh_uuid(),
            session_id,
            vault_address,
            delegated_to,
            approved_at: now,
            revoked_at: None,
            is_active: true,
        }
    }

    /// Revoke a delegation: mark it inactive and stamp the revocation time.
    pub fn revoke_delegation(delegation: &mut DelegationRecord, now: i64)
        ensures
            *final(delegation) == (DelegationRecord {
                is_active: false,
                revoked_at: Some(now),
                ..*old(delegation)
            }),
            final(delegation).inv(),
    {
        delegation.is_active = false;
        delegation.revoked_at = Some(now);
    }

    /// True when the delegation is older than `max_age_secs`.
    pub fn needs_renewal(delegation: &DelegationRecord, max_age_secs: i64, now: i64) -> (r: bool)
        ensures
            r == (now - delegation.approved_at > max_age_secs),
    {
        let age: i128 = (now as i128) - (delegation.approved_at as i128);
        age > (max_age_secs as i128)
    }
}

/// Verifying a delegation as a wrong identity always fails `Unauthorized`;
/// verifying an active, unrevoked delegation as its delegate always
/// succeeds.
pub proof fn lemma_verify_delegation_authorization(delegation: DelegationRecord, who: Seq<char>)
    requires
        delegation.is_active,
        delegation.revoked_at is None,
    ensures
        who != delegation.delegated_to@ ==> spec_verify_delegation(delegation, who) == Err::<
            (),
            AppError,
        >(AppError::Unauthorized),
        who == delegation.delegated_to@ ==> spec_verify_delegation(delegation, who) == Ok::<
            (),
            AppError,
        >(()),
{
}

} // verus!
