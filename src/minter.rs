//! The assertion minter: a short-lived RS256-signed JWT that identifies the
//! app itself, exchanged for installation tokens.

use vstd::prelude::*;
use base64::Engine;
use vstd::utf8::encode_utf8;
use crate::config::Config;
use crate::text::{decimal, json_escaped, push_decimal, push_json_escaped};

verus! {

/// Clock-skew allowance: the assertion is dated this many seconds back.
pub const CLOCK_SKEW_SECS: i64 = 60;

/// Lifetime of an assertion, counted from the moment it is minted.
pub const ASSERTION_LIFETIME_SECS: i64 = 500;

/// What standard, padded base64 decoding gives for `s`: `None` when `s` is not
/// valid base64.
pub uninterp spec fn base64_decoded(s: Seq<u8>) -> Option<Seq<u8>>;

/// The compact RS256 JWT, with the header `{"typ":"JWT","alg":"RS256"}`, whose
/// claims are the JSON text `claims`, signed with the PEM-encoded RSA key `pem`;
/// `None` when `pem` holds no RSA private key or `claims` is not JSON.
pub uninterp spec fn rs256_jwt(claims: Seq<char>, pem: Seq<u8>) -> Option<Seq<char>>;

/// Relies on base64's `STANDARD` engine (`Engine::decode`): padded base64 with
/// the standard alphabet.
#[verifier::external_body]
pub(crate) fn decode_base64(s: &[u8]) -> (r: Option<Vec<u8>>)
    ensures
        match r {
            Some(v) => base64_decoded(s@) == Some(v@),
            None => base64_decoded(s@) is None,
        },
{
    base64::engine::general_purpose::STANDARD.decode(s).ok()
}

/// Relies on jsonwebtoken's `encode` with `Header::new(Algorithm::RS256)` and a
/// key from `EncodingKey::from_rsa_pem`, the claims passed verbatim as a
/// serde_json `RawValue`. RSA PKCS#1 v1.5 signing does not use the random
/// source, so whether a token comes back, and which, depends on the claims and
/// the key alone.
#[verifier::external_body]
fn sign_rs256(claims: &str, pem: &[u8]) -> (r: Option<String>)
    ensures
        match r {
            Some(t) => rs256_jwt(claims@, pem@) == Some(t@),
            None => rs256_jwt(claims@, pem@) is None,
        },
{
    let key = jsonwebtoken::EncodingKey::from_rsa_pem(pem).ok()?;
    let raw = serde_json::value::RawValue::from_string(claims.to_string()).ok()?;
    let header = jsonwebtoken::Header::new(jsonwebtoken::Algorithm::RS256);
    jsonwebtoken::encode(&header, &raw, &key).ok()
}

/// Relies on `SystemTime::now` and chrono's conversion of it to a UTC date,
/// which also takes times before 1970: the current Unix time in seconds.
#[verifier::external_body]
pub(crate) fn unix_now() -> (r: i64) {
    chrono::DateTime::<chrono::Utc>::from(std::time::SystemTime::now()).timestamp()
}

/// Why no assertion could be made.
#[derive(Clone, Copy, Debug, PartialEq, Eq, Structural)]
pub enum SigningError {
    /// The time lies outside the range in which the claims can be dated.
    InvalidTime,
    /// The private key is not valid base64.
    MalformedKey,
    /// The key is not an RSA key, or signing failed.
    SignatureFailed,
}

/// The times at which an assertion can be minted: every date in its claims is
/// a non-negative Unix time that fits in 64 bits.
pub open spec fn mintable_at(now: int) -> bool {
    CLOCK_SKEW_SECS <= now <= i64::MAX - ASSERTION_LIFETIME_SECS
}

/// The claims of an assertion issued by `app_id` at `now`.
pub struct Claims {
    pub iss: String,
    pub iat: i64,
    pub nbf: i64,
    pub exp: i64,
}

/// The claims as JSON, keys in order, the unused audience and subject as null.
pub open spec fn claims_text(iss: Seq<char>, iat: int, nbf: int, exp: int) -> Seq<char> {
    "{\"aud\":null,\"exp\":"@ + decimal(exp) + ",\"iat\":"@ + decimal(iat) + ",\"iss\":\""@
        + json_escaped(iss) + "\",\"nbf\":"@ + decimal(nbf) + ",\"sub\":null}"@
}

/// The claims text of the assertion that `app_id` mints at `now`.
pub open spec fn assertion_claims(app_id: Seq<char>, now: int) -> Seq<char> {
    claims_text(app_id, now - CLOCK_SKEW_SECS, now - CLOCK_SKEW_SECS, now + ASSERTION_LIFETIME_SECS)
}

impl Claims {
    /// The claims of an assertion by `app_id` at `now`: issued and valid from
    /// one clock-skew allowance before `now`, expiring a lifetime after it.
    pub fn at(app_id: &str, now: i64) -> (r: Claims)
        requires
            mintable_at(now as int),
        ensures
            r.iss@ == app_id@,
            r.iat == now - CLOCK_SKEW_SECS,
            r.nbf == now - CLOCK_SKEW_SECS,
            r.exp == now + ASSERTION_LIFETIME_SECS,
    {
        Claims {
            iss: String::from_str(app_id),
            iat: now - CLOCK_SKEW_SECS,
            nbf: now - CLOCK_SKEW_SECS,
            exp: now + ASSERTION_LIFETIME_SECS,
        }
    }

    /// The claims written as JSON.
    pub fn to_json(&self) -> (r: String)
        ensures
            r@ == claims_text(self.iss@, self.iat as int, self.nbf as int, self.exp as int),
    {
        let mut s = String::new();
        s.append("{\"aud\":null,\"exp\":");
        push_decimal(&mut s, self.exp);
        s.append(",\"iat\":");
        push_decimal(&mut s, self.iat);
        s.append(",\"iss\":\"");
        push_json_escaped(&mut s, self.iss.as_str());
        s.append("\",\"nbf\":");
        push_decimal(&mut s, self.nbf);
        s.append(",\"sub\":null}");
        assert(s@ =~= claims_text(self.iss@, self.iat as int, self.nbf as int, self.exp as int));
        s
    }
}

/// The private key that `config` holds: its base64 text decoded.
pub open spec fn pem_of(config: Config) -> Option<Seq<u8>> {
    base64_decoded(encode_utf8(config.github_app_pk_base64@))
}

/// `token` is the assertion that `config`'s app mints at `now`.
pub open spec fn minted_by(config: Config, now: int, token: Seq<char>) -> bool {
    &&& mintable_at(now)
    &&& pem_of(config) is Some
    &&& rs256_jwt(assertion_claims(config.github_app_id@, now), pem_of(config)->0) == Some(token)
}

/// `e` is the error that minting at `now` with `config` reports.
pub open spec fn refused(config: Config, now: int, e: SigningError) -> bool {
    if !mintable_at(now) {
        e == SigningError::InvalidTime
    } else if pem_of(config) is None {
        e == SigningError::MalformedKey
    } else {
        e == SigningError::SignatureFailed
    }
}

/// Mints the app's assertion at time `now`: the claims of `Claims::at`, signed
/// with the configured key (base64 of a PEM-encoded RSA key). Out of range
/// times and keys that are not base64 are refused before any signing.
pub fn create_token(config: &Config, now: i64) -> (r: Result<String, SigningError>)
    ensures
        match r {
            Ok(t) => minted_by(*config, now as int, t@),
            Err(e) => refused(*config, now as int, e),
        },
        !mintable_at(now as int) ==> r == Err::<String, SigningError>(SigningError::InvalidTime),
        mintable_at(now as int) && pem_of(*config) is None ==> r == Err::<String, SigningError>(
            SigningError::MalformedKey,
        ),
        mintable_at(now as int) && pem_of(*config) is Some && rs256_jwt(
            assertion_claims(config.github_app_id@, now as int),
            pem_of(*config)->0,
        ) is None ==> r == Err::<String, SigningError>(SigningError::SignatureFailed),
        mintable_at(now as int) && pem_of(*config) is Some && rs256_jwt(
            assertion_claims(config.github_app_id@, now as int),
            pem_of(*config)->0,
        ) is Some ==> r is Ok,
{
    if now < CLOCK_SKEW_SECS || now > i64::MAX - ASSERTION_LIFETIME_SECS {
        return Err(SigningError::InvalidTime);
    }
    let claims = Claims::at(config.github_app_id.as_str(), now);
    let text = claims.to_json();
    let pem = match decode_base64(config.github_app_pk_base64.as_str().as_bytes()) {
        Some(p) => p,
        None => return Err(SigningError::MalformedKey),
    };
    match sign_rs256(text.as_str(), pem.as_slice()) {
        Some(t) => Ok(t),
        None => Err(SigningError::SignatureFailed),
    }
}

/// Mints the app's assertion now, by the system clock.
pub fn mint(config: &Config) -> (r: Result<String, SigningError>)
    ensures
        r matches Ok(t) ==> exists|now: int| #[trigger] minted_by(*config, now, t@),
        r matches Err(e) ==> exists|now: int| #[trigger] refused(*config, now, e),
{
    let now = unix_now();
    create_token(config, now)
}

} // verus!
