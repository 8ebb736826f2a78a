//! The credential codec: signed, expiring session tokens.
//!
//! A token is an HS256 JSON Web Token whose claims are `{sub, exp}`. The
//! `jsonwebtoken` crate signs and verifies; what it computes is not proved
//! here but named ([`jwt_signing`], [`jwt_reading`]), and everything this
//! module decides is stated over those two names.

use crate::clock::now_seconds;
use crate::text::same_text;
use vstd::prelude::*;

verus! {

/// Seconds in one hour: the lifetime of a token minted by rotation.
pub const HOUR: u64 = 3600;

/// Seconds in one day: the lifetime of a token minted at login.
pub const DAY: u64 = 86400;

/// The claims of a session token.
#[derive(Debug)]
pub struct Claims {
    /// The subject identity the token speaks for.
    pub sub: String,
    /// Expiry, in seconds since the Unix epoch.
    pub exp: usize,
}

/// The mathematical value of [`Claims`].
pub struct ClaimsView {
    pub sub: Seq<char>,
    pub exp: nat,
}

impl View for Claims {
    type V = ClaimsView;

    open spec fn view(&self) -> ClaimsView {
        ClaimsView { sub: self.sub@, exp: self.exp as nat }
    }
}

impl Clone for Claims {
    fn clone(&self) -> (r: Self)
        ensures
            r@ == self@,
    {
        Claims { sub: self.sub.clone(), exp: self.exp }
    }
}

/// Why a token could not be decoded.
#[derive(Clone, Copy, Debug, PartialEq, Eq, Structural)]
pub enum DecodeError {
    /// The signature does not verify under the secret.
    BadSignature,
    /// The token has no readable structure, or its claims lack a textual
    /// `sub` or an `exp` that is a whole number of seconds.
    Malformed,
    /// Only when the caller asked for expiry to be enforced: the token is
    /// otherwise sound, and the time is past its `exp`.
    Expired,
}

/// Why a token could not be issued.
#[derive(Clone, Copy, Debug, PartialEq, Eq, Structural)]
pub enum IssueError {
    /// The lifetime is zero: the token would not expire in the future.
    EmptyLifetime,
    /// `now + ttl` does not fit the expiry field.
    ExpiryOutOfRange,
    /// The signing library refused.
    Signing,
}

/// What the signing library makes of a token, as a mathematical value.
pub enum Reading {
    /// The signature verifies and the claims passed the library's checks.
    /// `sub` is the `sub` claim if it is a string, `exp` the `exp` claim if
    /// it is a non-negative whole number below 2^64.
    Verified { sub: Option<Seq<char>>, exp: Option<u64> },
    /// The signature does not verify.
    BadSignature,
    /// Anything else the library refuses.
    Rejected,
}

/// What the signing library makes of a token: the executable value.
pub enum TokenReading {
    Verified { sub: Option<String>, exp: Option<u64> },
    BadSignature,
    Rejected,
}

impl View for TokenReading {
    type V = Reading;

    open spec fn view(&self) -> Reading {
        match self {
            TokenReading::Verified { sub, exp } => Reading::Verified {
                sub: match sub {
                    Some(s) => Some(s@),
                    None => None,
                },
                exp: *exp,
            },
            TokenReading::BadSignature => Reading::BadSignature,
            TokenReading::Rejected => Reading::Rejected,
        }
    }
}

/// The token that `jsonwebtoken::encode` produces for the claims
/// `{"sub": sub, "exp": exp}` under the default header (HS256) and the HMAC
/// key `secret`; `None` where it reports an error.
pub uninterp spec fn jwt_signing(sub: Seq<char>, exp: u64, secret: Seq<u8>) -> Option<Seq<char>>;

/// What `jsonwebtoken::decode` makes of `token` under the HMAC key `secret`,
/// with the default validation for HS256 except that expiry is not checked
/// against the clock.
pub uninterp spec fn jwt_reading(token: Seq<char>, secret: Seq<u8>) -> Reading;

#[verifier::external_type_specification]
#[verifier::external_body]
pub struct ExJwtError(jsonwebtoken::errors::Error);

/// Calls `jsonwebtoken::encode` with the default header on a JSON object that
/// holds `sub` and `exp`, in this order.
///
/// Trusted: the result is a function of the three arguments.
#[verifier::external_body]
fn sign_claims(sub: &str, exp: u64, secret: &[u8]) -> (r: Result<String, jsonwebtoken::errors::Error>)
    ensures
        r matches Ok(t) ==> jwt_signing(sub@, exp, secret@) == Some(t@),
        r is Err ==> jwt_signing(sub@, exp, secret@) is None,
{
    let mut claims = serde_json::Map::new();
    claims.insert("sub".to_owned(), serde_json::Value::from(sub));
    claims.insert("exp".to_owned(), serde_json::Value::from(exp));
    let key = jsonwebtoken::EncodingKey::from_secret(secret);
    jsonwebtoken::encode(&jsonwebtoken::Header::default(), &claims, &key)
}

/// Calls `jsonwebtoken::decode` with the default validation, expiry checking
/// switched off, and hands out the two claims this library reads.
///
/// Trusted: the result is a function of the two arguments. `BadSignature` is
/// the library's `InvalidSignature`; every other error is `Rejected`.
#[verifier::external_body]
fn read_token(token: &str, secret: &[u8]) -> (r: TokenReading)
    ensures
        r@ == jwt_reading(token@, secret@),
{
    let mut validation = jsonwebtoken::Validation::default();
    validation.validate_exp = false;
    let key = jsonwebtoken::DecodingKey::from_secret(secret);
    match jsonwebtoken::decode::<serde_json::Value>(token, &key, &validation) {
        Ok(data) => TokenReading::Verified {
            sub: data.claims.get("sub").and_then(|v| v.as_str()).map(|s| s.to_owned()),
            exp: data.claims.get("exp").and_then(|v| v.as_u64()),
        },
        Err(e) => match e.kind() {
            jsonwebtoken::errors::ErrorKind::InvalidSignature => TokenReading::BadSignature,
            _ => TokenReading::Rejected,
        },
    }
}

/// A token is expired once the time is past its `exp`.
pub open spec fn expired(exp: nat, now: u64) -> bool {
    now > exp
}

/// Whether the time is past `exp`.
pub fn is_expired(exp: usize, now: u64) -> (r: bool)
    ensures
        r == expired(exp as nat, now),
{
    now > exp as u64
}

/// The claims that a reading amounts to: both fields must be there, and the
/// expiry must fit the field that holds it.
pub open spec fn claims_of(reading: Reading) -> Result<ClaimsView, DecodeError> {
    match reading {
        Reading::Verified { sub: Some(s), exp: Some(e) } => if e <= usize::MAX {
            Ok(ClaimsView { sub: s, exp: e as nat })
        } else {
            Err(DecodeError::Malformed)
        },
        Reading::Verified { .. } => Err(DecodeError::Malformed),
        Reading::BadSignature => Err(DecodeError::BadSignature),
        Reading::Rejected => Err(DecodeError::Malformed),
    }
}

/// What decoding `token` under `secret` yields. Expiry plays no part.
pub open spec fn decoding(token: Seq<char>, secret: Seq<u8>) -> Result<ClaimsView, DecodeError> {
    claims_of(jwt_reading(token, secret))
}

/// What decoding yields when the caller wants expiry enforced at `now`.
pub open spec fn decoding_at(token: Seq<char>, secret: Seq<u8>, now: u64) -> Result<
    ClaimsView,
    DecodeError,
> {
    match decoding(token, secret) {
        Ok(c) => if expired(c.exp, now) {
            Err(DecodeError::Expired)
        } else {
            Ok(c)
        },
        Err(e) => Err(e),
    }
}

/// The mathematical value of a decoding result.
pub open spec fn decoded_view(r: Result<Claims, DecodeError>) -> Result<ClaimsView, DecodeError> {
    match r {
        Ok(c) => Ok(c@),
        Err(e) => Err(e),
    }
}

/// Turns a reading into claims, or says why it holds none.
pub fn claims_from_reading(reading: TokenReading) -> (r: Result<Claims, DecodeError>)
    ensures
        decoded_view(r) == claims_of(reading@),
{
    match reading {
        TokenReading::Verified { sub: Some(s), exp: Some(e) } => {
            if e <= usize::MAX as u64 {
                Ok(Claims { sub: s, exp: e as usize })
            } else {
                Err(DecodeError::Malformed)
            }
        },
        TokenReading::Verified { .. } => Err(DecodeError::Malformed),
        TokenReading::BadSignature => Err(DecodeError::BadSignature),
        TokenReading::Rejected => Err(DecodeError::Malformed),
    }
}

/// Decodes a token: verifies its signature under `secret` and reads its
/// claims. An expired token decodes like any other, so that the caller can
/// still recognise and renew it.
pub fn decode(token: &str, secret: &[u8]) -> (r: Result<Claims, DecodeError>)
    ensures
        decoded_view(r) == decoding(token@, secret@),
{
    claims_from_reading(read_token(token, secret))
}

/// Rejects claims whose expiry is past at `now`.
pub fn enforce_expiry(decoded: Result<Claims, DecodeError>, now: u64) -> (r: Result<
    Claims,
    DecodeError,
>)
    ensures
        decoded_view(r) == match decoded_view(decoded) {
            Ok(c) => if expired(c.exp, now) {
                Err(DecodeError::Expired)
            } else {
                Ok(c)
            },
            Err(e) => Err(e),
        },
{
    match decoded {
        Ok(c) => if is_expired(c.exp, now) {
            Err(DecodeError::Expired)
        } else {
            Ok(c)
        },
        Err(e) => Err(e),
    }
}

/// Decodes a token and enforces its expiry at `now`.
pub fn decode_unexpired(token: &str, secret: &[u8], now: u64) -> (r: Result<Claims, DecodeError>)
    ensures
        decoded_view(r) == decoding_at(token@, secret@, now),
{
    enforce_expiry(decode(token, secret), now)
}

/// The expiry of a token issued at `now` for `ttl` seconds, where there is one.
pub open spec fn expiry_for(now: u64, ttl: u64) -> Result<nat, IssueError> {
    if ttl == 0 {
        Err(IssueError::EmptyLifetime)
    } else if now + ttl > usize::MAX || now + ttl > u64::MAX {
        Err(IssueError::ExpiryOutOfRange)
    } else {
        Ok((now + ttl) as nat)
    }
}

/// Computes `now + ttl` as an expiry.
pub fn expiry_after(now: u64, ttl: u64) -> (r: Result<u64, IssueError>)
    ensures
        match r {
            Ok(e) => expiry_for(now, ttl) == Ok::<nat, IssueError>(e as nat),
            Err(e) => expiry_for(now, ttl) == Err::<nat, IssueError>(e),
        },
{
    if ttl == 0 {
        return Err(IssueError::EmptyLifetime);
    }
    match now.checked_add(ttl) {
        Some(e) => if e <= usize::MAX as u64 {
            Ok(e)
        } else {
            Err(IssueError::ExpiryOutOfRange)
        },
        None => Err(IssueError::ExpiryOutOfRange),
    }
}

/// Whether `reading` is exactly the claims `sub` and `exp`.
pub open spec fn reads_as(reading: Reading, sub: Seq<char>, exp: u64) -> bool {
    reading == (Reading::Verified { sub: Some(sub), exp: Some(exp) })
}

/// Whether a reading is exactly the claims `sub` and `exp`.
pub fn reading_matches(reading: &TokenReading, sub: &str, exp: u64) -> (r: bool)
    ensures
        r == reads_as(reading@, sub@, exp),
{
    match reading {
        TokenReading::Verified { sub: Some(s), exp: Some(e) } => same_text(s.as_str(), sub) && *e
            == exp,
        _ => false,
    }
}

/// The token issued to `sub` at `now` for `ttl` seconds under `secret`.
///
/// A signed token counts as issued only if it reads back, under the same
/// secret, as the claims that were signed.
pub open spec fn issuing(sub: Seq<char>, ttl: u64, now: u64, secret: Seq<u8>) -> Result<
    Seq<char>,
    IssueError,
> {
    match expiry_for(now, ttl) {
        Ok(e) => match jwt_signing(sub, e as u64, secret) {
            Some(t) => if reads_as(jwt_reading(t, secret), sub, e as u64) {
                Ok(t)
            } else {
                Err(IssueError::Signing)
            },
            None => Err(IssueError::Signing),
        },
        Err(e) => Err(e),
    }
}

/// The mathematical value of an issuing result.
pub open spec fn issued_view(r: Result<String, IssueError>) -> Result<Seq<char>, IssueError> {
    match r {
        Ok(t) => Ok(t@),
        Err(e) => Err(e),
    }
}

/// Hands a signed token out if it reads back as the claims that were signed.
pub fn checked_token(
    signed: Option<String>,
    reading: Option<TokenReading>,
    sub: &str,
    exp: u64,
) -> (r: Result<String, IssueError>)
    ensures
        issued_view(r) == match (signed, reading) {
            (Some(t), Some(read)) => if reads_as(read@, sub@, exp) {
                Ok::<Seq<char>, IssueError>(t@)
            } else {
                Err::<Seq<char>, IssueError>(IssueError::Signing)
            },
            _ => Err::<Seq<char>, IssueError>(IssueError::Signing),
        },
{
    match (signed, reading) {
        (Some(t), Some(read)) => if reading_matches(&read, sub, exp) {
            Ok(t)
        } else {
            Err(IssueError::Signing)
        },
        _ => Err(IssueError::Signing),
    }
}

/// Issues a token for `subject` that expires `ttl` seconds after `now`.
///
/// The lifetime must not be zero, and the expiry must fit its field. The
/// token is read back before it leaves: what comes out decodes, under the same
/// secret, to the subject and `now + ttl`.
pub fn issue(subject: &str, ttl: u64, now: u64, secret: &[u8]) -> (r: Result<String, IssueError>)
    ensures
        issued_view(r) == issuing(subject@, ttl, now, secret@),
{
    match expiry_after(now, ttl) {
        Ok(e) => {
            let signed: Option<String> = match sign_claims(subject, e, secret) {
                Ok(t) => Some(t),
                Err(_) => None,
            };
            let reading: Option<TokenReading> = match &signed {
                Some(t) => Some(read_token(t.as_str(), secret)),
                None => None,
            };
            checked_token(signed, reading, subject, e)
        },
        Err(e) => Err(e),
    }
}

/// A token that was issued decodes to the subject it was issued for and to
/// the expiry `now + ttl`, which lies after `now`.
pub proof fn issued_token_decodes(sub: Seq<char>, ttl: u64, now: u64, secret: Seq<u8>)
    requires
        issuing(sub, ttl, now, secret) is Ok,
    ensures
        decoding(issuing(sub, ttl, now, secret)->Ok_0, secret) == Ok::<ClaimsView, DecodeError>(
            ClaimsView { sub, exp: (now + ttl) as nat },
        ),
        now + ttl > now,
        !expired((now + ttl) as nat, now),
{
}

/// Issues the token handed out at login: for `email`, expiring one day from
/// the time the clock shows. That time is one a signed timestamp can hold,
/// so a day can always be added to it.
pub fn generate_jwt(email: &str, secret: &[u8]) -> (r: Result<String, IssueError>)
    ensures
        exists|now: u64|
            now <= i64::MAX && issued_view(r) == #[trigger] issuing(email@, DAY, now, secret@),
{
    let now: u64 = now_seconds();
    issue(email, DAY, now, secret)
}

} // verus!
