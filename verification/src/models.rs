use vstd::prelude::*;
use vstd::string::StringExecFns;

verus! {

/// Custody-side view of one delegated session: the ephemeral identity, its
/// sealed key material, the vault it may spend from, and the session's
/// lifetime and origin binding.
#[derive(Debug, Clone)]
pub struct Session {
    pub id: String,
    pub user_wallet: String,
    pub ephemeral_wallet: String,
    /// The sealed secret of the ephemeral identity, as base64 text of
    /// `nonce (12 bytes) || ciphertext`.
    pub ephemeral_keypair: String,
    pub vault_address: String,
    pub created_at: i64,
    pub expires_at: i64,
    pub is_active: bool,
    pub total_deposits: u64,
    pub total_spent: u64,
    pub ip_address: String,
    pub device_fingerprint: Option<String>,
}

/// What kind of movement a transaction record describes.
#[derive(Debug, Clone, Copy, PartialEq, Eq, Structural)]
pub enum TransactionType {
    Deposit,
    Trade,
    Withdrawal,
    Fee,
}

impl TransactionType {
    pub open spec fn spec_label(&self) -> Seq<char> {
        match self {
            TransactionType::Deposit => "deposit"@,
            TransactionType::Trade => "trade"@,
            TransactionType::Withdrawal => "withdrawal"@,
            TransactionType::Fee => "fee"@,
        }
    }

    /// The stable machine-readable name of this kind.
    pub fn label(&self) -> (r: String)
        ensures
            r@ == self.spec_label(),
    {
        match self {
            TransactionType::Deposit => String::from_str("deposit"),
            TransactionType::Trade => String::from_str("trade"),
            TransactionType::Withdrawal => String::from_str("withdrawal"),
            TransactionType::Fee => String::from_str("fee"),
        }
    }
}

/// Lifecycle state of a transaction record; immutable once confirmed or
/// failed.
#[derive(Debug, Clone, Copy, PartialEq, Eq, Structural)]
pub enum TransactionStatus {
    Pending,
    Confirmed,
    Failed,
}

impl TransactionStatus {
    pub open spec fn spec_label(&self) -> Seq<char> {
        match self {
            TransactionStatus::Pending => "pending"@,
            TransactionStatus::Confirmed => "confirmed"@,
            TransactionStatus::Failed => "failed"@,
        }
    }

    /// The stable machine-readable name of this status.
    pub fn label(&self) -> (r: String)
        ensures
            r@ == self.spec_label(),
    {
        match self {
            TransactionStatus::Pending => String::from_str("pending"),
            TransactionStatus::Confirmed => String::from_str("confirmed"),
            TransactionStatus::Failed => String::from_str("failed"),
        }
    }
}

/// Append-only record of one movement against a vault's balances.
#[derive(Debug, Clone)]
pub struct VaultTransaction {
    pub id: String,
    pub session_id: String,
    pub transaction_type: TransactionType,
    pub amount: u64,
    pub fee: u64,
    pub timestamp: i64,
    pub status: TransactionStatus,
    pub signature: Option<String>,
}

/// Why a vault was reclaimed.
#[derive(Debug, Clone, Copy, PartialEq, Eq, Structural)]
pub enum CleanupReason {
    Expired,
    Revoked,
    Manual,
    AbandonedFunds,
}

/// Immutable record of a vault's terminal reclamation.
#[derive(Debug, Clone)]
pub struct CleanupEvent {
    pub id: String,
    pub session_id: String,
    pub vault_address: String,
    pub returned_amount: u64,
    pub cleaned_at: i64,
    pub reason: CleanupReason,
}

/// What kind of abuse a security event records.
#[derive(Debug, Clone, Copy, PartialEq, Eq, Structural)]
pub enum SecurityEventType {
    AnomalousSpending,
    UnauthorizedAccess,
    RateLimitExceeded,
    InvalidSignature,
    SessionHijacking,
}

/// How serious a security event is.
#[derive(Debug, Clone, Copy, PartialEq, Eq, Structural)]
pub enum Severity {
    Low,
    Medium,
    High,
    Critical,
}

/// Record of one rejected or suspicious request.
#[derive(Debug, Clone)]
pub struct SecurityEvent {
    pub id: String,
    pub session_id: Option<String>,
    pub event_type: SecurityEventType,
    pub severity: Severity,
    pub description: String,
    pub ip_address: String,
    pub timestamp: i64,
}

/// Tunable limits of the custody service. The anomaly threshold is a
/// multiplier in tenths: 25 means flag amounts above 2.5 times the running
/// average.
#[derive(Debug, Clone)]
pub struct VaultConfig {
    pub max_concurrent_sessions: usize,
    pub session_duration_secs: i64,
    pub inactivity_timeout_secs: i64,
    pub min_deposit_amount: u64,
    pub max_deposit_amount: u64,
    pub rate_limit_per_minute: usize,
    pub anomaly_detection_threshold_tenths: u64,
}

impl Default for VaultConfig {
    /// One-hour sessions, half-hour inactivity timeout, and a 2.5x anomaly
    /// threshold.
    fn default() -> (c: Self)
        ensures
            c.max_concurrent_sessions == 1000,
            c.session_duration_secs == 3600,
            c.inactivity_timeout_secs == 1800,
            c.min_deposit_amount == 5000,
            c.max_deposit_amount == 10_000_000_000,
            c.rate_limit_per_minute == 100,
            c.anomaly_detection_threshold_tenths == 25,
    {
        VaultConfig {
            max_concurrent_sessions: 1000,
            session_duration_secs: 3600,
            inactivity_timeout_secs: 1800,
            min_deposit_amount: 5000,
            max_deposit_amount: 10_000_000_000,
            rate_limit_per_minute: 100,
            anomaly_detection_threshold_tenths: 25,
        }
    }
}

/// Process configuration resolved by the embedding application.
#[derive(Debug, Clone)]
pub struct Config {
    pub database_url: String,
    pub solana_rpc_url: String,
    pub solana_ws_url: String,
    pub vault_program_id: String,
    pub jwt_secret: String,
    pub max_concurrent_sessions: usize,
    pub session_duration_secs: i64,
    pub port: u16,
}

/// Payload of a request to open a new delegated session.
#[derive(Debug, Clone)]
pub struct CreateSessionRequest {
    pub user_wallet: String,
    pub duration_secs: i64,
    pub device_info: Option<String>,
}

} // verus!
