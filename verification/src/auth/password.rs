//! Argon2id password hashing.
//!
//! The cost parameters are low enough for a Workers request (CPU is the
//! binding constraint); deployments tune them to their budget. Passwords
//! follow NIST 800-63B: at least eight characters, no composition rules.

use vstd::prelude::*;
use vstd::string::StringSliceAdditionalSpecFns;

use argon2::{Algorithm, Argon2, Params, Version};
use password_hash::{PasswordHash, PasswordHasher, PasswordVerifier, SaltString};
use rand_core::OsRng;

use crate::text::{chars_of, format_i64, i64_decimal};

verus! {

/// The shortest password accepted, in characters.
pub const MIN_PASSWORD_LEN: usize = 8;

/// Argon2 memory cost, in KiB.
pub const ARGON2_M_COST: u32 = 4096;

/// Argon2 iterations.
pub const ARGON2_T_COST: u32 = 2;

/// Argon2 lanes.
pub const ARGON2_P_COST: u32 = 1;

#[derive(Debug)]
pub enum PasswordError {
    TooShort(usize),
    Pwned,
    HashFailed(String),
    InvalidHash(String),
    Mismatch,
    PolicyError(String),
}

pub enum PasswordErrorView {
    TooShort(nat),
    Pwned,
    HashFailed(Seq<char>),
    InvalidHash(Seq<char>),
    Mismatch,
    PolicyError(Seq<char>),
}

impl View for PasswordError {
    type V = PasswordErrorView;

    open spec fn view(&self) -> PasswordErrorView {
        match self {
            PasswordError::TooShort(n) => PasswordErrorView::TooShort(*n as nat),
            PasswordError::Pwned => PasswordErrorView::Pwned,
            PasswordError::HashFailed(s) => PasswordErrorView::HashFailed(s@),
            PasswordError::InvalidHash(s) => PasswordErrorView::InvalidHash(s@),
            PasswordError::Mismatch => PasswordErrorView::Mismatch,
            PasswordError::PolicyError(s) => PasswordErrorView::PolicyError(s@),
        }
    }
}

/// The message of a password error.
pub open spec fn password_error_message(e: PasswordErrorView) -> Seq<char> {
    match e {
        PasswordErrorView::TooShort(n) => "password too short ("@ + i64_decimal((n as i64) as int)
            + " chars, need 8)"@,
        PasswordErrorView::Pwned => "password appears in known-breached corpus"@,
        PasswordErrorView::HashFailed(m) => "hash failed: "@ + m,
        PasswordErrorView::InvalidHash(m) => "invalid stored hash: "@ + m,
        PasswordErrorView::Mismatch => "password mismatch"@,
        PasswordErrorView::PolicyError(m) => "policy: "@ + m,
    }
}

impl PasswordError {
    /// The error's message.
    pub fn to_string(&self) -> (s: String)
        ensures
            s@ == password_error_message(self@),
    {
        proof {
            reveal_strlit("password too short (");
            reveal_strlit(" chars, need 8)");
            reveal_strlit("password appears in known-breached corpus");
            reveal_strlit("hash failed: ");
            reveal_strlit("invalid stored hash: ");
            reveal_strlit("password mismatch");
            reveal_strlit("policy: ");
        }
        match self {
            PasswordError::TooShort(n) => {
                let mut s = String::from_str("password too short (");
                let count = format_i64(*n as i64);
                s.append(count.as_str());
                s.append(" chars, need 8)");
                s
            },
            PasswordError::Pwned => String::from_str("password appears in known-breached corpus"),
            PasswordError::HashFailed(m) => {
                let mut s = String::from_str("hash failed: ");
                s.append(m.as_str());
                s
            },
            PasswordError::InvalidHash(m) => {
                let mut s = String::from_str("invalid stored hash: ");
                s.append(m.as_str());
                s
            },
            PasswordError::Mismatch => String::from_str("password mismatch"),
            PasswordError::PolicyError(m) => {
                let mut s = String::from_str("policy: ");
                s.append(m.as_str());
                s
            },
        }
    }
}

// ----- Argon2 and the PHC string format -----

/// The PHC string that Argon2id (version 0x13) with these costs makes of
/// `password` and the base64 `salt`, or the message of the error it
/// reports.
pub uninterp spec fn argon2_phc(m_cost: u32, t_cost: u32, p_cost: u32, password: Seq<u8>, salt: Seq<char>) -> Result<
    Seq<char>,
    Seq<char>,
>;

/// The message of the error `PasswordHash::new` reports for `stored`, or
/// `None` when it parses as a PHC string.
pub uninterp spec fn phc_parse_error(stored: Seq<char>) -> Option<Seq<char>>;

/// Whether Argon2id with these costs accepts `password` against the PHC
/// string `stored`.
pub uninterp spec fn argon2_verifies(m_cost: u32, t_cost: u32, p_cost: u32, stored: Seq<char>, password: Seq<u8>) -> bool;

/// `SaltString::generate(&mut OsRng)`: a fresh random salt, as its base64
/// text. Nothing is stated of it: it is random.
#[verifier::external_body]
fn random_salt() -> (s: String) {
    SaltString::generate(&mut OsRng).as_str().to_string()
}

/// `PasswordHasher::hash_password` of Argon2id (version 0x13) with these
/// costs, on `password` and the salt parsed by `SaltString::from_b64`; the
/// PHC string, or the message of the first error. A PHC string it makes
/// parses back, and verifying the same password against it succeeds:
/// verification recomputes the hash from the salt and parameters the
/// string carries.
#[verifier::external_body]
fn argon2_hash(m_cost: u32, t_cost: u32, p_cost: u32, password: &str, salt: &str) -> (r: Result<
    String,
    String,
>)
    ensures
        match r {
            Ok(h) => argon2_phc(m_cost, t_cost, p_cost, password.spec_bytes(), salt@) == Ok::<
                Seq<char>,
                Seq<char>,
            >(h@),
            Err(e) => argon2_phc(m_cost, t_cost, p_cost, password.spec_bytes(), salt@) == Err::<
                Seq<char>,
                Seq<char>,
            >(e@),
        },
        r matches Ok(h) ==> phc_parse_error(h@) is None && argon2_verifies(
            m_cost,
            t_cost,
            p_cost,
            h@,
            password.spec_bytes(),
        ),
{
    let params = Params::new(m_cost, t_cost, p_cost, None).map_err(|e| e.to_string())?;
    let salt = SaltString::from_b64(salt).map_err(|e| e.to_string())?;
    let hasher = Argon2::new(Algorithm::Argon2id, Version::V0x13, params);
    hasher.hash_password(password.as_bytes(), &salt).map(|h| h.to_string()).map_err(|e| e.to_string())
}

/// `PasswordHash::new(stored)`: the message of its error, if any.
#[verifier::external_body]
fn phc_check(stored: &str) -> (r: Option<String>)
    ensures
        match r {
            Some(m) => phc_parse_error(stored@) == Some(m@),
            None => phc_parse_error(stored@) is None,
        },
{
    PasswordHash::new(stored).err().map(|e| e.to_string())
}

/// `PasswordVerifier::verify_password` of Argon2id with these costs, on
/// `password` and the parsed PHC string `stored`: whether it succeeds.
#[verifier::external_body]
fn argon2_verify(m_cost: u32, t_cost: u32, p_cost: u32, stored: &str, password: &str) -> (b: bool)
    ensures
        b == argon2_verifies(m_cost, t_cost, p_cost, stored@, password.spec_bytes()),
{
    let (Ok(parsed), Ok(params)) = (PasswordHash::new(stored), Params::new(m_cost, t_cost, p_cost, None)) else {
        return false;
    };
    Argon2::new(Algorithm::Argon2id, Version::V0x13, params).verify_password(password.as_bytes(), &parsed).is_ok()
}

// ----- the service's hashing and checking -----

/// What checking `password` against the stored PHC string gives.
pub open spec fn password_check(stored: Seq<char>, password: Seq<u8>) -> Result<(), PasswordErrorView> {
    match phc_parse_error(stored) {
        Some(m) => Err(PasswordErrorView::InvalidHash(m)),
        None => if argon2_verifies(ARGON2_M_COST, ARGON2_T_COST, ARGON2_P_COST, stored, password) {
            Ok(())
        } else {
            Err(PasswordErrorView::Mismatch)
        },
    }
}

pub open spec fn password_too_short(password: Seq<char>) -> bool {
    password.len() < MIN_PASSWORD_LEN
}

/// Validate and hash a new password with the given salt: a password of
/// fewer than eight characters is refused with its length; otherwise the
/// PHC string of the service's Argon2id parameters, or the hashing error.
pub fn hash_with_salt(password: &str, salt: &str) -> (r: Result<String, PasswordError>)
    ensures
        password_too_short(password@) ==> (r matches Err(e) && e@ == PasswordErrorView::TooShort(
            password@.len(),
        )),
        !password_too_short(password@) ==> match argon2_phc(
            ARGON2_M_COST,
            ARGON2_T_COST,
            ARGON2_P_COST,
            password.spec_bytes(),
            salt@,
        ) {
            Ok(h) => (r matches Ok(s) && s@ == h),
            Err(m) => (r matches Err(e) && e@ == PasswordErrorView::HashFailed(m)),
        },
        r matches Ok(h) ==> password_check(h@, password.spec_bytes()) == Ok::<(), PasswordErrorView>(()),
{
    let len = chars_of(password).len();
    if len < MIN_PASSWORD_LEN {
        return Err(PasswordError::TooShort(len));
    }
    match argon2_hash(ARGON2_M_COST, ARGON2_T_COST, ARGON2_P_COST, password, salt) {
        Ok(h) => Ok(h),
        Err(m) => Err(PasswordError::HashFailed(m)),
    }
}

/// Validate and hash a new password under a fresh random salt. Returns
/// the PHC string for `identities.secret`; checking the same password
/// against it succeeds.
pub fn hash_new_password(password: &str) -> (r: Result<String, PasswordError>)
    ensures
        password_too_short(password@) ==> (r matches Err(e) && e@ == PasswordErrorView::TooShort(
            password@.len(),
        )),
        !password_too_short(password@) ==> match r {
            Ok(h) => exists|salt: Seq<char>|
                argon2_phc(ARGON2_M_COST, ARGON2_T_COST, ARGON2_P_COST, password.spec_bytes(), salt)
                    == Ok::<Seq<char>, Seq<char>>(h@),
            Err(e) => e@ is HashFailed,
        },
        r matches Ok(h) ==> password_check(h@, password.spec_bytes()) == Ok::<(), PasswordErrorView>(()),
{
    let len = chars_of(password).len();
    if len < MIN_PASSWORD_LEN {
        return Err(PasswordError::TooShort(len));
    }
    let salt = random_salt();
    hash_with_salt(password, salt.as_str())
}

/// Check `password` against the stored PHC string: an unparsable string is
/// an invalid hash, a wrong password a mismatch.
pub fn verify_password(stored: &str, password: &str) -> (r: Result<(), PasswordError>)
    ensures
        match r {
            Ok(()) => password_check(stored@, password.spec_bytes()) == Ok::<(), PasswordErrorView>(()),
            Err(e) => password_check(stored@, password.spec_bytes()) == Err::<(), PasswordErrorView>(
                e@,
            ),
        },
{
    match phc_check(stored) {
        Some(m) => Err(PasswordError::InvalidHash(m)),
        None => if argon2_verify(ARGON2_M_COST, ARGON2_T_COST, ARGON2_P_COST, stored, password) {
            Ok(())
        } else {
            Err(PasswordError::Mismatch)
        },
    }
}

} // verus!
