use vstd::prelude::*;
use vstd::string::StringExecFns;
use vstd::string::StringSliceAdditionalSpecFns;
use vstd::slice::slice_subrange;
use crate::errors::AppError;
use crate::models::Session;
use crate::primitives::{
    aes256_gcm_open, aes256_gcm_seal, aes_open_of, base64_decode, base64_decode_of, base64_encode,
    fresh_uuid, random_bytes, sha256, sha256_of,
};

verus! {

/// Width of the random nonce that leads every sealed secret.
pub const NONCE_LEN: usize = 12;

/// Width of the random secret generated for an ephemeral identity.
pub const SECRET_LEN: usize = 64;

/// What opening a sealed secret yields for a given key and encoded text:
/// decode the base64 text, split off the leading 12-byte nonce, then
/// authenticate and decrypt the rest. Yields nothing when the text is
/// malformed, too short, or fails authentication.
pub open spec fn spec_open_sealed(key: Seq<u8>, encoded: Seq<char>) -> Option<Seq<u8>> {
    match base64_decode_of(encoded) {
        Option::None => Option::None,
        Option::Some(raw) => if raw.len() < 12 {
            Option::None
        } else {
            aes_open_of(key, raw.subrange(0, 12), raw.subrange(12, raw.len() as int))
        },
    }
}

/// Generates and seals ephemeral key material, and checks session lifetime
/// and origin binding. The sealing key is derived once from a master secret.
pub struct SessionManager {
    encryption_key: Vec<u8>,
}

impl SessionManager {
    /// The derived sealing key.
    pub closed spec fn spec_key(&self) -> Seq<u8> {
        self.encryption_key@
    }

    /// Well-formedness: the sealing key has the width AES-256 expects.
    /// `new` establishes it; every method preserves it.
    pub open spec fn key_wf(&self) -> bool {
        self.spec_key().len() == 32
    }

    /// Derive the sealing key from the master secret by hashing it to a
    /// fixed-width key. Never fails.
    pub fn new(master_secret: &str) -> (r: Result<SessionManager, AppError>)
        ensures
            r matches Ok(m) ==> m.spec_key() == sha256_of(master_secret.spec_bytes()) && m.key_wf(),
            r is Ok,
    {
        let key = sha256(master_secret.as_bytes());
        Ok(SessionManager { encryption_key: key })
    }

    /// Seal secret bytes under this manager's key: a fresh random nonce,
    /// then AES-256-GCM, then base64 of `nonce || ciphertext`. Succeeds on
    /// every input the cipher accepts (up to 2^36 bytes), and the result
    /// opens back to exactly the input.
    pub fn encrypt_keypair(&self, data: &[u8]) -> (r: Result<String, AppError>)
        requires
            self.key_wf(),
        ensures
            data@.len() <= 0x10_0000_0000 ==> r is Ok,
            r matches Ok(enc) ==> spec_open_sealed(self.spec_key(), enc@) == Some(data@),
            r matches Err(e) ==> e matches AppError::CryptoError(_),
    {
        let nonce = random_bytes(NONCE_LEN);
        match aes256_gcm_seal(self.encryption_key.as_slice(), nonce.as_slice(), data) {
            Some(ct) => {
                let ghost nonce_view = nonce@;
                let ghost ct_view = ct@;
                let mut combined = nonce;
                let mut ciphertext = ct;
                combined.append(&mut ciphertext);
                let encoded = base64_encode(combined.as_slice());
                assert(spec_open_sealed(self.spec_key(), encoded@) == Some(data@)) by {
                    let raw = combined@;
                    assert(base64_decode_of(encoded@) == Some(raw));
                    assert(raw.subrange(0, 12) =~= nonce_view);
                    assert(raw.subrange(12, raw.len() as int) =~= ct_view);
                };
                Ok(encoded)
            },
            None => Err(AppError::CryptoError(String::from_str("encryption failed"))),
        }
    }

    /// Open a sealed secret: the exact inverse of sealing under the same
    /// key. Fails with `CryptoError` exactly when the text is malformed, too
    /// short for a nonce, or does not authenticate.
    pub fn decrypt_keypair(&self, encrypted: &str) -> (r: Result<Vec<u8>, AppError>)
        requires
            self.key_wf(),
        ensures
            r matches Ok(v) ==> spec_open_sealed(self.spec_key(), encrypted@) == Some(v@),
            r is Err ==> spec_open_sealed(self.spec_key(), encrypted@) is None,
            r matches Err(e) ==> e matches AppError::CryptoError(_),
    {
        let raw = match base64_decode(encrypted) {
            Some(v) => v,
            None => {
                return Err(AppError::CryptoError(String::from_str("invalid base64 payload")));
            },
        };
        if raw.len() < NONCE_LEN {
            return Err(AppError::CryptoError(String::from_str("encrypted payload too short")));
        }
        let nonce = slice_subrange(raw.as_slice(), 0, NONCE_LEN);
        let ciphertext = slice_subrange(raw.as_slice(), NONCE_LEN, raw.len());
        match aes256_gcm_open(self.encryption_key.as_slice(), nonce, ciphertext) {
            Some(pt) => Ok(pt),
            None => Err(AppError::CryptoError(String::from_str("authentication failed"))),
        }
    }

    /// Generate a fresh ephemeral identity: a random 64-byte secret sealed
    /// under this manager's key, and a new public identity string. Never
    /// fails, and the unsealed secret is never returned.
    pub fn generate_ephemeral_keypair(&self) -> (r: Result<(String, String), AppError>)
        requires
            self.key_wf(),
        ensures
            r is Ok,
            r matches Ok(pair) ==> {
                &&& pair.0@.len() == 46
                &&& spec_open_sealed(self.spec_key(), pair.1@) matches Some(secret)
                    && secret.len() == 64
            },
    {
        let secret_bytes = random_bytes(SECRET_LEN);
        let encrypted = match self.encrypt_keypair(secret_bytes.as_slice()) {
            Ok(enc) => enc,
            Err(e) => { return Err(e) },
        };
        let mut public_key: String = "ephemeral_".to_owned();
        proof {
            reveal_strlit("ephemeral_");
        }
        let id = fresh_uuid();
        public_key.append(id.as_str());
        Ok((public_key, encrypted))
    }

    /// Open a delegated session: generate and seal an ephemeral identity and
    /// stamp the lifetime and origin binding. Never fails.
    pub fn create_session(
        &self,
        user_wallet: &str,
        vault_address: &str,
        ip_address: &str,
        device_fingerprint: Option<String>,
        duration_secs: i64,
        now: i64,
    ) -> (r: Result<Session, AppError>)
        requires
            self.key_wf(),
            i64::MIN <= now + duration_secs <= i64::MAX,
        ensures
            r is Ok,
            r matches Ok(s) ==> {
                &&& s.user_wallet@ == user_wallet@
                &&& s.vault_address@ == vault_address@
                &&& s.ip_address@ == ip_address@
                &&& s.device_fingerprint == device_fingerprint
                &&& s.created_at == now
                &&& s.expires_at == now + duration_secs
                &&& s.is_active
                &&& s.total_deposits == 0
                &&& s.total_spent == 0
                &&& s.id@.len() == 36
                &&& s.ephemeral_wallet@.len() == 46
                &&& spec_open_sealed(self.spec_key(), s.ephemeral_keypair@) matches Some(secret)
                    && secret.len() == 64
            },
    {
        let (ephemeral_wallet, encrypted_keypair) = match self.generate_ephemeral_keypair() {
            Ok(pair) => pair,
            Err(e) => { return Err(e) },
        };
        Ok(
            Session {
                id: fresh_uuid(),
                user_wallet: user_wallet.to_owned(),
                ephemeral_wallet,
                ephemeral_keypair: encrypted_keypair,
                vault_address: vault_address.to_owned(),
                created_at: now,
                expires_at: now + duration_secs,
                is_active: true,
                total_deposits: 0,
                total_spent: 0,
                ip_address: ip_address.to_owned(),
                device_fingerprint,
            },
        )
    }

    /// Verify a session: active, unexpired, and presented from the origin
    /// that created it.
    pub fn verify_session(&self, session: &Session, current_ip: &str, now: i64) -> (r: Result<
        (),
        AppError,
    >)
        ensures
            r == spec_verify_session(*session, current_ip@, now),
    {
        if !session.is_active {
            return Err(AppError::InvalidSession);
        }
        if now > session.expires_at {
            return Err(AppError::SessionExpired);
        }
        let claimed: String = current_ip.to_owned();
        if !(session.ip_address == claimed) {
            return Err(AppError::Unauthorized);
        }
        Ok(())
    }

    /// Mark a session inactive. This is a local flag only: reclaiming ledger
    /// funds takes a separate ledger revocation or cleanup.
    pub fn revoke_session(&self, session: &mut Session)
        ensures
            *final(session) == (Session { is_active: false, ..*old(session) }),
    {
        session.is_active = false;
    }

    /// True when the session expires within the next five minutes (or has
    /// already expired).
    pub fn is_near_expiry(&self, session: &Session, now: i64) -> (r: bool)
        ensures
            r == (session.expires_at - now < 300),
    {
        let remaining: i128 = (session.expires_at as i128) - (now as i128);
        remaining < 300
    }
}

/// What verifying a session yields: `InvalidSession` when revoked,
/// `SessionExpired` when past its lifetime, `Unauthorized` when presented
/// from a different origin than the one that created it.
pub open spec fn spec_verify_session(session: Session, current_ip: Seq<char>, now: i64) -> Result<
    (),
    AppError,
> {
    if !session.is_active {
        Err(AppError::InvalidSession)
    } else if now > session.expires_at {
        Err(AppError::SessionExpired)
    } else if session.ip_address@ != current_ip {
        Err(AppError::Unauthorized)
    } else {
        Ok(())
    }
}

} // verus!
