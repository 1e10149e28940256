use vstd::prelude::*;
use vstd::string::StringExecFns;

verus! {

/// Failure taxonomy of the custody service. Every failed operation surfaces
/// one of these kinds to its immediate caller; none is retried internally.
#[derive(Debug, Clone, PartialEq)]
pub enum AppError {
    DatabaseError(String),
    InvalidSession,
    SessionExpired,
    VaultNotFound,
    InsufficientFunds,
    CryptoError(String),
    SigningError(String),
    RateLimitExceeded,
    SuspiciousActivity,
    InvalidRequest(String),
    SolanaError(String),
    InternalError,
    Unauthorized,
    NotFound,
}

pub type AppResult<T> = Result<T, AppError>;

impl AppError {
    /// The HTTP status code an adapter should answer with for this kind.
    pub fn status_code(&self) -> (code: u16)
        ensures
            code == self.spec_status_code(),
    {
        match self {
            AppError::DatabaseError(_) => 500,
            AppError::InvalidSession => 400,
            AppError::SessionExpired => 401,
            AppError::VaultNotFound => 404,
            AppError::InsufficientFunds => 400,
            AppError::CryptoError(_) => 500,
            AppError::SigningError(_) => 500,
            AppError::RateLimitExceeded => 429,
            AppError::SuspiciousActivity => 403,
            AppError::InvalidRequest(_) => 400,
            AppError::SolanaError(_) => 502,
            AppError::InternalError => 500,
            AppError::Unauthorized => 401,
            AppError::NotFound => 404,
        }
    }

    pub open spec fn spec_status_code(&self) -> u16 {
        match self {
            AppError::DatabaseError(_) => 500,
            AppError::InvalidSession => 400,
            AppError::SessionExpired => 401,
            AppError::VaultNotFound => 404,
            AppError::InsufficientFunds => 400,
            AppError::CryptoError(_) => 500,
            AppError::SigningError(_) => 500,
            AppError::RateLimitExceeded => 429,
            AppError::SuspiciousActivity => 403,
            AppError::InvalidRequest(_) => 400,
            AppError::SolanaError(_) => 502,
            AppError::InternalError => 500,
            AppError::Unauthorized => 401,
            AppError::NotFound => 404,
        }
    }

    pub open spec fn spec_describe(&self) -> Seq<char> {
        match self {
            AppError::DatabaseError(m) => "Database error: "@ + m@,
            AppError::InvalidSession => "Invalid session"@,
            AppError::SessionExpired => "Session expired"@,
            AppError::VaultNotFound => "Vault not found"@,
            AppError::InsufficientFunds => "Insufficient funds"@,
            AppError::CryptoError(m) => "Cryptographic error: "@ + m@,
            AppError::SigningError(m) => "Transaction signing failed: "@ + m@,
            AppError::RateLimitExceeded => "Rate limit exceeded"@,
            AppError::SuspiciousActivity => "Suspicious activity detected"@,
            AppError::InvalidRequest(m) => "Invalid request: "@ + m@,
            AppError::SolanaError(m) => "Solana error: "@ + m@,
            AppError::InternalError => "Internal server error"@,
            AppError::Unauthorized => "Unauthorized"@,
            AppError::NotFound => "Not found"@,
        }
    }

    /// The human description of this kind, with its detail where one is
    /// carried.
    pub fn describe(&self) -> (r: String)
        ensures
            r@ == self.spec_describe(),
    {
        match self {
            AppError::DatabaseError(m) => {
                let mut s: String = "Database error: ".to_owned();
                s.append(m.as_str());
                s
            },
            AppError::InvalidSession => String::from_str("Invalid session"),
            AppError::SessionExpired => String::from_str("Session expired"),
            AppError::VaultNotFound => String::from_str("Vault not found"),
            AppError::InsufficientFunds => String::from_str("Insufficient funds"),
            AppError::CryptoError(m) => {
                let mut s: String = "Cryptographic error: ".to_owned();
                s.append(m.as_str());
                s
            },
            AppError::SigningError(m) => {
                let mut s: String = "Transaction signing failed: ".to_owned();
                s.append(m.as_str());
                s
            },
            AppError::RateLimitExceeded => String::from_str("Rate limit exceeded"),
            AppError::SuspiciousActivity => String::from_str("Suspicious activity detected"),
            AppError::InvalidRequest(m) => {
                let mut s: String = "Invalid request: ".to_owned();
                s.append(m.as_str());
                s
            },
            AppError::SolanaError(m) => {
                let mut s: String = "Solana error: ".to_owned();
                s.append(m.as_str());
                s
            },
            AppError::InternalError => String::from_str("Internal server error"),
            AppError::Unauthorized => String::from_str("Unauthorized"),
            AppError::NotFound => String::from_str("Not found"),
        }
    }
}

/// Failure taxonomy of the authoritative ledger program.
#[derive(Debug, Clone, Copy, PartialEq, Eq, Structural)]
pub enum VaultError {
    InvalidAmount,
    InvalidDuration,
    VaultInactive,
    SessionExpired,
    InsufficientFunds,
    InsufficientBalance,
    Overflow,
    SessionNotExpired,
    InvalidDelegate,
}

impl VaultError {
    pub open spec fn spec_describe(&self) -> Seq<char> {
        match self {
            VaultError::InvalidAmount => "Invalid vault amount"@,
            VaultError::InvalidDuration => "Invalid session duration"@,
            VaultError::VaultInactive => "Vault is not active"@,
            VaultError::SessionExpired => "Session has expired"@,
            VaultError::InsufficientFunds => "Insufficient funds"@,
            VaultError::InsufficientBalance => "Insufficient balance"@,
            VaultError::Overflow => "Overflow in arithmetic"@,
            VaultError::SessionNotExpired => "Session not yet expired"@,
            VaultError::InvalidDelegate => "Invalid delegate"@,
        }
    }

    /// The human description of this kind.
    pub fn describe(&self) -> (r: String)
        ensures
            r@ == self.spec_describe(),
    {
        match self {
            VaultError::InvalidAmount => String::from_str("Invalid vault amount"),
            VaultError::InvalidDuration => String::from_str("Invalid session duration"),
            VaultError::VaultInactive => String::from_str("Vault is not active"),
            VaultError::SessionExpired => String::from_str("Session has expired"),
            VaultError::InsufficientFunds => String::from_str("Insufficient funds"),
            VaultError::InsufficientBalance => String::from_str("Insufficient balance"),
            VaultError::Overflow => String::from_str("Overflow in arithmetic"),
            VaultError::SessionNotExpired => String::from_str("Session not yet expired"),
            VaultError::InvalidDelegate => String::from_str("Invalid delegate"),
        }
    }
}

} // verus!
