//! Shared application state: the repository, the billing provider, the
//! keyring, the clock and the configuration that services read through.

use vstd::prelude::*;

use crate::auth::keyring::{
    dev_key_seed, first_decoding, key_from_decoded, KeyringError, KeyringErrorView,
};
use crate::auth::macaroon::derived_key;
use crate::auth::Keyring;
use crate::text::{parse_i64, parse_i64_spec, str_eq, trim, trim_spec};
use crate::time::seconds_of_ms;

verus! {

/// Tunables sourced from environment variables, or the defaults.
#[derive(Clone, Debug)]
pub struct Config {
    pub session_ttl_seconds: i64,
    pub invitation_ttl_seconds: i64,
    pub password_reset_ttl_seconds: i64,
    pub email_verify_ttl_seconds: i64,
    pub sso_state_ttl_seconds: i64,
    pub enforce_email_verification: bool,
}

impl Default for Config {
    /// A day for sessions and email verification, a week for invitations,
    /// a quarter of an hour for password resets, ten minutes for SSO
    /// round trips; email verification not enforced.
    fn default() -> (c: Config)
        ensures
            c.session_ttl_seconds == 86_400,
            c.invitation_ttl_seconds == 7 * 86_400,
            c.password_reset_ttl_seconds == 15 * 60,
            c.email_verify_ttl_seconds == 86_400,
            c.sso_state_ttl_seconds == 10 * 60,
            !c.enforce_email_verification,
    {
        Config {
            session_ttl_seconds: 86_400,
            invitation_ttl_seconds: 7 * 86_400,
            password_reset_ttl_seconds: 15 * 60,
            email_verify_ttl_seconds: 86_400,
            sso_state_ttl_seconds: 10 * 60,
            enforce_email_verification: false,
        }
    }
}

/// Seconds since the epoch at `now_ms` milliseconds.
pub open spec fn unix_of(now_ms: i64) -> i64 {
    seconds_of_ms(now_ms as int) as i64
}

/// The time limits can be added to the clock reading `now_ms` without
/// overflow: each time-to-live to the seconds, and the invitation and SSO
/// round-trip limits, in milliseconds, to the milliseconds.
pub open spec fn clock_fits(c: Config, now_ms: i64) -> bool {
    let u = seconds_of_ms(now_ms as int);
    &&& i64::MIN <= u + c.session_ttl_seconds <= i64::MAX
    &&& i64::MIN <= u + c.invitation_ttl_seconds <= i64::MAX
    &&& i64::MIN <= u + c.password_reset_ttl_seconds <= i64::MAX
    &&& i64::MIN <= u + c.email_verify_ttl_seconds <= i64::MAX
    &&& i64::MIN <= c.invitation_ttl_seconds * 1000 <= i64::MAX
    &&& i64::MIN <= now_ms + c.invitation_ttl_seconds * 1000 <= i64::MAX
    &&& i64::MIN <= c.sso_state_ttl_seconds * 1000 <= i64::MAX
    &&& i64::MIN <= now_ms + c.sso_state_ttl_seconds * 1000 <= i64::MAX
}

/// Everything a service call reads or changes.
pub struct AppState<R, B, C> {
    pub repo: R,
    pub billing: B,
    pub keyring: Keyring,
    pub clock: C,
    pub config: Config,
}

pub open spec fn opt_text(value: Option<&str>) -> Option<Seq<char>> {
    match value {
        Some(v) => Some(v@),
        None => None,
    }
}

/// A number of seconds set as `value`: its decimal reading, or `default`
/// where it is unset or not a decimal `i64`.
pub open spec fn secs_setting(value: Option<Seq<char>>, default: i64) -> i64 {
    match value {
        Some(v) => match parse_i64_spec(v) {
            Some(n) => n,
            None => default,
        },
        None => default,
    }
}

/// A flag set as `value`: on for `true`, `1` or `yes`, off for anything
/// else, and `default` where it is unset.
pub open spec fn flag_setting(value: Option<Seq<char>>, default: bool) -> bool {
    match value {
        Some(v) => v == "true"@ || v == "1"@ || v == "yes"@,
        None => default,
    }
}

pub fn read_secs(value: Option<&str>, default: i64) -> (r: i64)
    ensures
        r == secs_setting(opt_text(value), default),
{
    match value {
        Some(v) => match parse_i64(v) {
            Some(n) => n,
            None => default,
        },
        None => default,
    }
}

pub fn read_bool(value: Option<&str>, default: bool) -> (r: bool)
    ensures
        r == flag_setting(opt_text(value), default),
{
    match value {
        Some(v) => str_eq(v, "true") || str_eq(v, "1") || str_eq(v, "yes"),
        None => default,
    }
}

/// The configuration as set in the environment, each variable by name
/// where it is set.
pub struct ConfigSettings {
    pub session_ttl_seconds: Option<String>,
    pub invitation_ttl_seconds: Option<String>,
    pub password_reset_ttl_seconds: Option<String>,
    pub email_verify_ttl_seconds: Option<String>,
    pub sso_state_ttl_seconds: Option<String>,
    pub enforce_email_verification: Option<String>,
}

pub open spec fn opt_string(value: Option<String>) -> Option<Seq<char>> {
    match value {
        Some(v) => Some(v@),
        None => None,
    }
}

fn as_opt_str(value: &Option<String>) -> (r: Option<&str>)
    ensures
        opt_text(r) == opt_string(*value),
{
    match value {
        Some(v) => Some(v.as_str()),
        None => None,
    }
}

impl Config {
    /// Each setting read over its default.
    pub fn from_settings(s: &ConfigSettings) -> (c: Config)
        ensures
            c.session_ttl_seconds == secs_setting(opt_string(s.session_ttl_seconds), 86_400),
            c.invitation_ttl_seconds == secs_setting(opt_string(s.invitation_ttl_seconds), 604_800),
            c.password_reset_ttl_seconds == secs_setting(opt_string(s.password_reset_ttl_seconds), 900),
            c.email_verify_ttl_seconds == secs_setting(opt_string(s.email_verify_ttl_seconds), 86_400),
            c.sso_state_ttl_seconds == secs_setting(opt_string(s.sso_state_ttl_seconds), 600),
            c.enforce_email_verification == flag_setting(opt_string(s.enforce_email_verification), false),
    {
        Config {
            session_ttl_seconds: read_secs(as_opt_str(&s.session_ttl_seconds), 86_400),
            invitation_ttl_seconds: read_secs(as_opt_str(&s.invitation_ttl_seconds), 604_800),
            password_reset_ttl_seconds: read_secs(as_opt_str(&s.password_reset_ttl_seconds), 900),
            email_verify_ttl_seconds: read_secs(as_opt_str(&s.email_verify_ttl_seconds), 86_400),
            sso_state_ttl_seconds: read_secs(as_opt_str(&s.sso_state_ttl_seconds), 600),
            enforce_email_verification: read_bool(as_opt_str(&s.enforce_email_verification), false),
        }
    }
}

/// The keyring for a configured session key: the development key where
/// none is set or it is blank, else the key it decodes to.
pub open spec fn keyring_setting(raw: Option<Seq<char>>) -> Result<Seq<u8>, KeyringErrorView> {
    match raw {
        Some(v) if trim_spec(v).len() > 0 => key_from_decoded(first_decoding(trim_spec(v))),
        _ => Ok(derived_key(vstd::utf8::encode_utf8(dev_key_seed()))),
    }
}

pub fn keyring_from_setting(raw: Option<&str>) -> (r: Result<Keyring, KeyringError>)
    ensures
        match r {
            Ok(k) => keyring_setting(opt_text(raw)) == Ok::<Seq<u8>, KeyringErrorView>(k@),
            Err(e) => keyring_setting(opt_text(raw)) == Err::<Seq<u8>, KeyringErrorView>(e@),
        },
{
    match raw {
        Some(v) => {
            let t = trim(v);
            if t.unicode_len() == 0 {
                Ok(Keyring::dev_default())
            } else {
                Keyring::from_base64(v)
            }
        },
        None => Ok(Keyring::dev_default()),
    }
}

} // verus!
