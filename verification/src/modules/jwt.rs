//! The token codec: signed, expiring claim sets.
//!
//! Signing and signature checking are done by `jsonwebtoken`; the expiry rule
//! is decided here, against a clock value that the caller supplies.

use vstd::prelude::*;
use crate::errors::TokenError;
use crate::views::text_view;

verus! {

/// The claim set carried by an access or a refresh token.
#[derive(Debug, Clone, Copy, PartialEq, Eq, Structural)]
pub struct Claims {
    /// Expiry, in seconds since the Unix epoch.
    pub exp: u64,
}

/// What `jsonwebtoken::encode` returns for the default header (HS256), the
/// claim set `{"exp": exp}` and the HMAC key made of the secret's bytes:
/// the token, or `None` where it reports an error.
pub uninterp spec fn jwt_encoding(exp: u64, secret: Seq<char>) -> Option<Seq<char>>;

/// What `jsonwebtoken::decode` yields for a token and the HMAC key made of the
/// secret's bytes, when it checks structure, algorithm (HS256) and signature
/// but not the expiry: the unsigned integer under `exp` in the claims, or
/// `None` where it reports an error or the claims hold no such integer.
pub uninterp spec fn jwt_decoding(token: Seq<char>, secret: Seq<char>) -> Option<u64>;

/// Calls `jsonwebtoken::encode` with `Header::default()`, a `serde_json` map
/// that holds the one claim `exp`, and `EncodingKey::from_secret`.
///
/// Trusted: the result is the named encoding, and a token that comes back
/// decodes, under the same secret, to the expiry that went in (`decode`
/// splits the token at its dots into the parts that `encode` joined,
/// recomputes the same HMAC over the same two parts and parses the same JSON).
#[verifier::external_body]
fn encode_expiry(exp: u64, secret: &str) -> (token: Option<String>)
    ensures
        match token {
            Some(t) => jwt_encoding(exp, secret@) == Some(t@) && jwt_decoding(t@, secret@)
                == Some(exp),
            None => jwt_encoding(exp, secret@) is None,
        },
{
    let mut claims = serde_json::Map::new();
    claims.insert(String::from("exp"), serde_json::Value::from(exp));
    let key = jsonwebtoken::EncodingKey::from_secret(secret.as_bytes());
    jsonwebtoken::encode(&jsonwebtoken::Header::default(), &claims, &key).ok()
}

/// Calls `jsonwebtoken::decode` with `Validation::default()` but for
/// `validate_exp`, which is switched off, and `DecodingKey::from_secret`;
/// then reads `exp` from the claims with `serde_json::Value::as_u64`.
///
/// Trusted: the result is the named decoding. With the validation of the
/// expiry off, the result depends on the token and the secret alone. (Like
/// `chrono::Utc::now`, `decode` reads the system clock and gives up where it
/// shows a time before 1970.)
#[verifier::external_body]
fn decode_expiry(token: &str, secret: &str) -> (exp: Option<u64>)
    ensures
        exp == jwt_decoding(token@, secret@),
{
    let mut validation = jsonwebtoken::Validation::default();
    validation.validate_exp = false;
    let key = jsonwebtoken::DecodingKey::from_secret(secret.as_bytes());
    match jsonwebtoken::decode::<serde_json::Value>(token, &key, &validation) {
        Ok(data) => data.claims.get("exp").and_then(serde_json::Value::as_u64),
        Err(_) => None,
    }
}

/// Calls `chrono::Utc::now` and reads the result's `timestamp`, in seconds.
///
/// Trusted: nothing is claimed of the value.
#[verifier::external_body]
fn utc_timestamp() -> (seconds: i64) {
    chrono::Utc::now().timestamp()
}

/// The verdict on a decoded expiry at time `now`: no expiry means the token
/// was malformed; a token is expired from its expiry second onwards.
pub open spec fn expiry_verdict(decoded: Option<u64>, now: u64) -> Result<Claims, TokenError> {
    match decoded {
        None => Err(TokenError::Malformed),
        Some(exp) => if now >= exp {
            Err(TokenError::Expired)
        } else {
            Ok(Claims { exp })
        },
    }
}

/// The verdict on a token under a secret at time `now`.
pub open spec fn token_verdict(token: Seq<char>, secret: Seq<char>, now: u64) -> Result<
    Claims,
    TokenError,
> {
    expiry_verdict(jwt_decoding(token, secret), now)
}

impl Claims {
    /// The expiry of a token issued at `now` that lives for `ttl` seconds, if
    /// it can be represented.
    pub open spec fn expiring_after_spec(now: u64, ttl: u64) -> Option<Claims> {
        if now + ttl <= u64::MAX {
            Some(Claims { exp: (now + ttl) as u64 })
        } else {
            None
        }
    }

    /// Claims for a token issued at `now` that lives for `ttl` seconds.
    /// `None` when the expiry does not fit in 64 bits.
    pub fn expiring_after(now: u64, ttl: u64) -> (claims: Option<Claims>)
        ensures
            claims == Self::expiring_after_spec(now, ttl),
    {
        match now.checked_add(ttl) {
            Some(exp) => Some(Claims { exp }),
            None => None,
        }
    }
}

/// A reading of the clock as a time since the Unix epoch: a reading before
/// the epoch is no such time.
pub open spec fn since_epoch(reading: i64) -> Option<u64> {
    if reading >= 0 {
        Some(reading as u64)
    } else {
        None
    }
}

/// Turns a reading of the clock into seconds since the Unix epoch.
pub fn seconds_since_epoch(reading: i64) -> (now: Option<u64>)
    ensures
        now == since_epoch(reading),
{
    if reading >= 0 {
        Some(reading as u64)
    } else {
        None
    }
}

/// The current time in whole seconds since the Unix epoch, or `None` when the
/// clock reads a time before the epoch.
pub fn current_timestamp() -> (now: Option<u64>)
    ensures
        exists|reading: i64| now == #[trigger] since_epoch(reading),
{
    let reading: i64 = utc_timestamp();
    let now = seconds_since_epoch(reading);
    assert(now == since_epoch(reading));
    now
}

/// Issues a token: signs the claims with the secret.
///
/// `None` exactly when the signing backend reports an error. A token that is
/// issued verifies under the same secret to the same claims at every time
/// before its expiry, and is `Expired` from the expiry on.
pub fn jwt_factory(claims: Claims, secret: &str) -> (token: Option<String>)
    ensures
        match token {
            Some(t) => {
                &&& jwt_encoding(claims.exp, secret@) == Some(t@)
                &&& jwt_decoding(t@, secret@) == Some(claims.exp)
                &&& forall|now: u64|
                    now < claims.exp ==> #[trigger] token_verdict(t@, secret@, now) == Ok::<
                        Claims,
                        TokenError,
                    >(claims)
                &&& forall|now: u64|
                    now >= claims.exp ==> #[trigger] token_verdict(t@, secret@, now) == Err::<
                        Claims,
                        TokenError,
                    >(TokenError::Expired)
            },
            None => jwt_encoding(claims.exp, secret@) is None,
        },
{
    encode_expiry(claims.exp, secret)
}

/// The token that is issued at `now` with a lifetime of `ttl` seconds: `None`
/// where the expiry cannot be represented or signing fails.
pub open spec fn minted(now: u64, ttl: u64, secret: Seq<char>) -> Option<Seq<char>> {
    match Claims::expiring_after_spec(now, ttl) {
        Some(claims) => jwt_encoding(claims.exp, secret),
        None => None,
    }
}

/// Issues a token at `now` that expires `ttl` seconds later. The token
/// carries its expiry: under the same secret it decodes to `now + ttl`.
pub fn issue_token(now: u64, ttl: u64, secret: &str) -> (token: Option<String>)
    ensures
        text_view(token) == minted(now, ttl, secret@),
        token matches Some(t) ==> jwt_decoding(t@, secret@) == Some((now + ttl) as u64),
{
    match Claims::expiring_after(now, ttl) {
        Some(claims) => jwt_factory(claims, secret),
        None => None,
    }
}

/// Decides on a decoded expiry at time `now`.
pub fn check_expiry(decoded: Option<u64>, now: u64) -> (verdict: Result<Claims, TokenError>)
    ensures
        verdict == expiry_verdict(decoded, now),
{
    match decoded {
        None => Err(TokenError::Malformed),
        Some(exp) => {
            if now >= exp {
                Err(TokenError::Expired)
            } else {
                Ok(Claims { exp })
            }
        },
    }
}

/// Verifies a token at time `now`: checks its signature and structure, then
/// its expiry. Any failure is a rejection; nothing is decoded on a best-effort
/// basis.
pub fn verify_token(token: &str, secret: &str, now: u64) -> (verdict: Result<Claims, TokenError>)
    ensures
        verdict == token_verdict(token@, secret@, now),
{
    check_expiry(decode_expiry(token, secret), now)
}

/// Whether a token is valid when the clock reads `clock`: it must verify at
/// that time, and without a time nothing is valid.
pub open spec fn valid_at(token: Seq<char>, secret: Seq<char>, clock: Option<u64>) -> bool {
    match clock {
        Some(now) => token_verdict(token, secret, now) is Ok,
        None => false,
    }
}

/// Whether a token is valid at what the clock reads. Fails closed: a clock
/// that gives no time since the epoch validates nothing.
pub fn validate_token_at(token: &str, secret: &str, clock: Option<u64>) -> (valid: bool)
    ensures
        valid == valid_at(token@, secret@, clock),
{
    match clock {
        Some(now) => verify_token(token, secret, now).is_ok(),
        None => false,
    }
}

/// Whether a token is valid right now, by the system clock.
pub fn validate_token(token: &str, secret: &str) -> (valid: bool)
    ensures
        exists|clock: Option<u64>| valid == #[trigger] valid_at(token@, secret@, clock),
        valid ==> jwt_decoding(token@, secret@) is Some,
{
    let clock = current_timestamp();
    let valid = validate_token_at(token, secret, clock);
    assert(valid == valid_at(token@, secret@, clock));
    valid
}

} // verus!
