use vstd::prelude::*;
use vstd::string::StringSliceAdditionalSpecFns;
use crate::custodian::{spec_verify_session, SessionManager};
use crate::errors::AppError;
use crate::models::Session;
use crate::primitives::sha256_of;
use crate::security::{
    spec_anomaly_step, spec_hex_lower, spec_rate_limit_step, SecurityManager,
};

verus! {

/// The decision core of the session-creation entry point: gate the origin by
/// rate limit, reject an unreadable wallet, fingerprint the device and open
/// the session. The embedding application supplies the request fields and
/// the clock and persists the result.
pub fn handle_create_session(
    security: &mut SecurityManager,
    custodian: &SessionManager,
    user_wallet: &str,
    vault_address: &str,
    user_agent: &str,
    ip: &str,
    duration_secs: i64,
    rate_limit_per_minute: usize,
    now: i64,
) -> (r: Result<Session, AppError>)
    requires
        old(security).wf(),
        custodian.key_wf(),
        i64::MIN <= now + duration_secs <= i64::MAX,
    ensures
        final(security).wf(),
        final(security).ad_view() == old(security).ad_view(),
        final(security).rl_view() == spec_rate_limit_step(
            old(security).rl_view(),
            ip@,
            rate_limit_per_minute,
            now,
        ).0,
        spec_rate_limit_step(old(security).rl_view(), ip@, rate_limit_per_minute, now).1 is Err
            ==> r == Err::<Session, AppError>(AppError::RateLimitExceeded),
        (spec_rate_limit_step(old(security).rl_view(), ip@, rate_limit_per_minute, now).1 is Ok
            && user_wallet@.len() == 0) ==> (r matches Err(e) && e matches AppError::InvalidRequest(
            _,
        )),
        (spec_rate_limit_step(old(security).rl_view(), ip@, rate_limit_per_minute, now).1 is Ok
            && user_wallet@.len() != 0) ==> {
            &&& r is Ok
            &&& r matches Ok(s) ==> {
                &&& s.user_wallet@ == user_wallet@
                &&& s.vault_address@ == vault_address@
                &&& s.ip_address@ == ip@
                &&& s.created_at == now
                &&& s.expires_at == now + duration_secs
                &&& s.is_active
                &&& s.total_deposits == 0
                &&& s.total_spent == 0
                &&& s.device_fingerprint matches Some(fp) && fp@ == spec_hex_lower(
                    sha256_of(user_agent.spec_bytes() + seq![58u8] + ip.spec_bytes()),
                )
            }
        },
{
    if let Err(e) = security.check_rate_limit_at(ip, rate_limit_per_minute, now) {
        return Err(e);
    }
    if user_wallet.is_empty() {
        return Err(AppError::InvalidRequest(String::from_str("Invalid wallet")));
    }
    let fingerprint = SecurityManager::generate_device_fingerprint(user_agent, ip);
    custodian.create_session(user_wallet, vault_address, ip, Some(fingerprint), duration_secs, now)
}

/// The decision core of the deposit entry point: verify the session, gate
/// the amount by the anomaly detector keyed by the owning wallet, and credit
/// the session's deposit total without wrapping. Returns the new total.
pub fn handle_auto_deposit(
    security: &mut SecurityManager,
    custodian: &SessionManager,
    session: &mut Session,
    current_ip: &str,
    amount: u64,
    threshold_tenths: u64,
    now: i64,
) -> (r: Result<u64, AppError>)
    requires
        old(security).wf(),
    ensures
        final(security).wf(),
        final(security).rl_view() == old(security).rl_view(),
        spec_verify_session(*old(session), current_ip@, now) matches Err(e) ==> {
            &&& r == Err::<u64, AppError>(e)
            &&& *final(session) == *old(session)
            &&& final(security).ad_view() == old(security).ad_view()
        },
        spec_verify_session(*old(session), current_ip@, now) is Ok ==> ({
            let (m1, flagged) = spec_anomaly_step(
                old(security).ad_view(),
                old(session).user_wallet@,
                amount,
                threshold_tenths,
                now,
            );
            &&& final(security).ad_view() == m1
            &&& flagged ==> (r == Err::<u64, AppError>(AppError::SuspiciousActivity)
                && *final(session) == *old(session))
            &&& !flagged ==> ({
                let total = if old(session).total_deposits + amount > u64::MAX {
                    u64::MAX
                } else {
                    (old(session).total_deposits + amount) as u64
                };
                &&& *final(session) == (Session { total_deposits: total, ..*old(session) })
                &&& r == Ok::<u64, AppError>(total)
            })
        }),
{
    if let Err(e) = custodian.verify_session(session, current_ip, now) {
        return Err(e);
    }
    let wallet = session.user_wallet.clone();
    let flagged = match security.detect_anomaly_at(wallet.as_str(), amount, threshold_tenths, now) {
        Ok(b) => b,
        Err(e) => { return Err(e) },
    };
    if flagged {
        return Err(AppError::SuspiciousActivity);
    }
    let total = session.total_deposits.saturating_add(amount);
    session.total_deposits = total;
    Ok(total)
}

/// The decision core of the revocation entry point: verify the session as
/// presented, then mark it inactive. The embedding application persists the
/// updated record and triggers ledger-side revocation or cleanup.
pub fn handle_revoke_session(
    custodian: &SessionManager,
    session: &mut Session,
    current_ip: &str,
    now: i64,
) -> (r: Result<(), AppError>)
    ensures
        spec_verify_session(*old(session), current_ip@, now) matches Err(e) ==> (r == Err::<
            (),
            AppError,
        >(e) && *final(session) == *old(session)),
        spec_verify_session(*old(session), current_ip@, now) is Ok ==> (r == Ok::<(), AppError>(())
            && *final(session) == (Session { is_active: false, ..*old(session) })),
{
    if let Err(e) = custodian.verify_session(session, current_ip, now) {
        return Err(e);
    }
    custodian.revoke_session(session);
    Ok(())
}

} // verus!
