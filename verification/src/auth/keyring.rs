//! The root key that signs every token.
//!
//! A single 32-byte root key signs every token. The `purpose=` caveat (and
//! the verifier's exact match on it) keeps token kinds from being
//! interchangeable: a session token cannot redeem an invitation.

use vstd::prelude::*;

use base64::engine::general_purpose::{STANDARD, STANDARD_NO_PAD, URL_SAFE, URL_SAFE_NO_PAD};
use base64::Engine;

use crate::auth::macaroon::{derive_key, derived_key, key_bytes, macaroon_key_bytes};
use crate::text::{trim, trim_spec};

verus! {

#[derive(Clone, Debug)]
pub enum KeyringError {
    InvalidLength(usize),
    InvalidBase64(String),
}

pub enum KeyringErrorView {
    InvalidLength(nat),
    InvalidBase64(Seq<char>),
}

impl View for KeyringError {
    type V = KeyringErrorView;

    open spec fn view(&self) -> KeyringErrorView {
        match self {
            KeyringError::InvalidLength(n) => KeyringErrorView::InvalidLength(*n as nat),
            KeyringError::InvalidBase64(s) => KeyringErrorView::InvalidBase64(s@),
        }
    }
}

/// The four base64 shapes a configured key may come in.
#[derive(Copy, Clone, Debug, PartialEq, Eq, Structural)]
pub enum Base64Alphabet {
    Standard,
    StandardNoPad,
    UrlSafe,
    UrlSafeNoPad,
}

/// What the `base64` crate's general-purpose engine for `alphabet` decodes
/// `text` to: the bytes, or the text of the decode error.
pub uninterp spec fn base64_decoded(alphabet: Base64Alphabet, text: Seq<char>) -> Result<
    Seq<u8>,
    Seq<char>,
>;

/// `Engine::decode` on the general-purpose engine for `alphabet`
/// (`STANDARD`, `STANDARD_NO_PAD`, `URL_SAFE`, `URL_SAFE_NO_PAD`), the
/// error turned into its message.
#[verifier::external_body]
fn base64_decode(alphabet: Base64Alphabet, text: &str) -> (r: Result<Vec<u8>, String>)
    ensures
        match r {
            Ok(b) => base64_decoded(alphabet, text@) == Ok::<Seq<u8>, Seq<char>>(b@),
            Err(e) => base64_decoded(alphabet, text@) == Err::<Seq<u8>, Seq<char>>(e@),
        },
{
    let engine = match alphabet {
        Base64Alphabet::Standard => STANDARD,
        Base64Alphabet::StandardNoPad => STANDARD_NO_PAD,
        Base64Alphabet::UrlSafe => URL_SAFE,
        Base64Alphabet::UrlSafeNoPad => URL_SAFE_NO_PAD,
    };
    engine.decode(text).map_err(|e| e.to_string())
}

/// The 32 bytes of `v` as an array, when it holds exactly 32.
fn array32_from_vec(v: Vec<u8>) -> (r: Option<[u8; 32]>)
    ensures
        r is Some <==> v@.len() == 32,
        r matches Some(a) ==> a@ == v@,
{
    if v.len() != 32 {
        return None;
    }
    let mut a: [u8; 32] = [0u8; 32];
    let mut i: usize = 0;
    while i < 32
        invariant
            v@.len() == 32,
            i <= 32,
            forall|j: int| 0 <= j < i ==> a@[j] == v@[j],
        decreases 32 - i,
    {
        a[i] = v[i];
        i = i + 1;
    }
    assert(a@ =~= v@);
    Some(a)
}

/// The first of the four alphabets that decodes `text`, in the order
/// standard, standard unpadded, URL-safe, URL-safe unpadded; when none
/// does, the error of the last.
pub open spec fn first_decoding(text: Seq<char>) -> Result<Seq<u8>, Seq<char>> {
    match base64_decoded(Base64Alphabet::Standard, text) {
        Ok(b) => Ok(b),
        Err(_) => match base64_decoded(Base64Alphabet::StandardNoPad, text) {
            Ok(b) => Ok(b),
            Err(_) => match base64_decoded(Base64Alphabet::UrlSafe, text) {
                Ok(b) => Ok(b),
                Err(_) => base64_decoded(Base64Alphabet::UrlSafeNoPad, text),
            },
        },
    }
}

/// The key that decoded bytes (or a decode error) give.
pub open spec fn key_from_decoded(d: Result<Seq<u8>, Seq<char>>) -> Result<Seq<u8>, KeyringErrorView> {
    match d {
        Err(m) => Err(KeyringErrorView::InvalidBase64(m)),
        Ok(b) => if b.len() != 32 {
            Err(KeyringErrorView::InvalidLength(b.len()))
        } else {
            Ok(b)
        },
    }
}

pub open spec fn decoded_view(d: Result<Vec<u8>, String>) -> Result<Seq<u8>, Seq<char>> {
    match d {
        Ok(b) => Ok(b@),
        Err(e) => Err(e@),
    }
}

#[derive(Clone)]
pub struct Keyring {
    root: [u8; 32],
}

impl View for Keyring {
    type V = Seq<u8>;

    closed spec fn view(&self) -> Seq<u8> {
        self.root@
    }
}

/// The seed of the development key.
pub open spec fn dev_key_seed() -> Seq<char> {
    "workers-multitenant.dev-key.do-not-deploy"@
}

impl Keyring {
    /// A keyring with the given 32 key bytes.
    pub fn from_bytes(root: [u8; 32]) -> (k: Keyring)
        ensures
            k@ == root@,
    {
        Keyring { root }
    }

    /// A keyring with the bytes of a libmacaroon key.
    pub fn from_key(root: libmacaroon::MacaroonKey) -> (k: Keyring)
        ensures
            k@ == macaroon_key_bytes(root),
            k@.len() == 32,
    {
        Keyring { root: key_bytes(&root) }
    }

    /// A keyring from the outcome of decoding a configured key: the decode
    /// error is reported as invalid base64, and anything but 32 bytes as an
    /// invalid length.
    pub fn from_decoded(decoded: Result<Vec<u8>, String>) -> (r: Result<Keyring, KeyringError>)
        ensures
            match r {
                Ok(k) => key_from_decoded(decoded_view(decoded)) == Ok::<
                    Seq<u8>,
                    KeyringErrorView,
                >(k@),
                Err(e) => key_from_decoded(decoded_view(decoded)) == Err::<
                    Seq<u8>,
                    KeyringErrorView,
                >(e@),
            },
    {
        match decoded {
            Err(m) => Err(KeyringError::InvalidBase64(m)),
            Ok(bytes) => {
                let n = bytes.len();
                match array32_from_vec(bytes) {
                    Some(root) => Ok(Keyring { root }),
                    None => Err(KeyringError::InvalidLength(n)),
                }
            },
        }
    }

    /// Decode a base64-encoded 32-byte key, after trimming surrounding
    /// whitespace. Standard and URL-safe alphabets, padded or not, are all
    /// accepted.
    pub fn from_base64(s: &str) -> (r: Result<Keyring, KeyringError>)
        ensures
            match r {
                Ok(k) => key_from_decoded(first_decoding(trim_spec(s@))) == Ok::<
                    Seq<u8>,
                    KeyringErrorView,
                >(k@),
                Err(e) => key_from_decoded(first_decoding(trim_spec(s@))) == Err::<
                    Seq<u8>,
                    KeyringErrorView,
                >(e@),
            },
    {
        let t = trim(s);
        let t = t.as_str();
        let decoded = match base64_decode(Base64Alphabet::Standard, t) {
            Ok(b) => Ok(b),
            Err(_) => match base64_decode(Base64Alphabet::StandardNoPad, t) {
                Ok(b) => Ok(b),
                Err(_) => match base64_decode(Base64Alphabet::UrlSafe, t) {
                    Ok(b) => Ok(b),
                    Err(_) => base64_decode(Base64Alphabet::UrlSafeNoPad, t),
                },
            },
        };
        Keyring::from_decoded(decoded)
    }

    /// Deterministic development key, used when no key is configured. Not
    /// for production: anyone with the binary recovers it.
    pub fn dev_default() -> (k: Keyring)
        ensures
            k@ == derived_key(vstd::utf8::encode_utf8(dev_key_seed())),
    {
        let seed = "workers-multitenant.dev-key.do-not-deploy";
        proof {
            reveal_strlit("workers-multitenant.dev-key.do-not-deploy");
        }
        Keyring { root: derive_key(seed.as_bytes()) }
    }

    pub fn root(&self) -> (r: &[u8; 32])
        ensures
            r@ == self@,
    {
        &self.root
    }
}

} // verus!
