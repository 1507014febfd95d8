//! Issuance and verification of signed, time-bounded bearer tokens.

use vstd::prelude::*;
use jsonwebtoken::Algorithm;
use jsonwebtoken::DecodingKey;
use jsonwebtoken::EncodingKey;
use jsonwebtoken::Header;
use jsonwebtoken::Validation;
use serde_json::Value;
use std::collections::HashSet;

verus! {

/// How long an issued token stays valid: exactly 24 hours, counted in seconds
/// from the issuance instant.
pub const TOKEN_VALIDITY_SECONDS: u64 = 86400;

/// The claims a signed token recovers under a given signing secret: the
/// subject's email, the issued-at timestamp and the expiry timestamp, or
/// nothing when the token's signature or shape does not validate under that
/// secret. Names the result of `jsonwebtoken::decode` with expiry validation
/// turned off (expiry is judged separately, against an explicit clock).
pub uninterp spec fn jwt_claims_of(token: Seq<char>, secret: Seq<char>) -> Option<(Seq<char>, int, int)>;

/// The claims asserted by a bearer token: subject identity, issued-at and
/// expiry timestamps (seconds since the Unix epoch).
#[derive(Clone, PartialEq, Eq, Debug)]
pub struct Claims {
    /// Expiry timestamp: the token is valid up to and including this second.
    pub exp: u64,
    /// Issued-at timestamp.
    pub iat: u64,
    /// The identity the token asserts.
    pub email: String,
}

/// The signing primitive rejected the key material or the claim encoding.
/// Indicates server-side misconfiguration, never a client mistake. With the
/// symmetric scheme used here issuance is proved to succeed, so the variant
/// stands only as the operation's failure taxonomy.
#[derive(Clone, Copy, PartialEq, Eq, Debug)]
pub enum IssuanceError {
    SigningFailed,
}

/// Why a presented token was rejected.
#[derive(Clone, Copy, PartialEq, Eq, Debug)]
pub enum VerificationError {
    /// The signature validates but the expiry timestamp has passed.
    Expired,
    /// No claims could be recovered: the signature does not match the
    /// secret, or the token is malformed.
    BadSignature,
}

/// The outcome of checking `token` under `secret` at time `now`: the embedded
/// claims when the signature validates and the expiry has not passed,
/// `Expired` when it validates but `now` is past the expiry, and
/// `BadSignature` when no claims can be recovered.
pub open spec fn token_verify_outcome(token: Seq<char>, secret: Seq<char>, now: int) -> Result<
    (Seq<char>, int, int),
    VerificationError,
> {
    match jwt_claims_of(token, secret) {
        Option::Some(c) => if now > c.2 {
            Err(VerificationError::Expired)
        } else {
            Ok(c)
        },
        Option::None => Err(VerificationError::BadSignature),
    }
}

/// Whether the token's recovered claims, under `secret`, assert `email` as
/// subject with a validity window opening at `now` and closing exactly one
/// validity window later.
pub open spec fn issued_claims(token: Seq<char>, secret: Seq<char>, email: Seq<char>, now: int) -> bool {
    jwt_claims_of(token, secret) == Some((email, now, now + TOKEN_VALIDITY_SECONDS as int))
}

/// The encoded token that signing produces for the given claims and secret.
/// Deterministic in its arguments: the HMAC, the fixed header and the claim
/// serialization draw on nothing else. Names the result of
/// `jsonwebtoken::encode`.
pub uninterp spec fn jwt_of(email: Seq<char>, iat: int, exp: int, secret: Seq<char>) -> Seq<char>;

/// Whether `i` and `j` mark the only two dots of `t`, splitting it into
/// three non-empty segments.
pub open spec fn token_dots_at(t: Seq<char>, i: int, j: int) -> bool {
    &&& 1 <= i
    &&& i + 2 <= j
    &&& j + 2 <= t.len()
    &&& t[i] == '.'
    &&& t[j] == '.'
    &&& forall|k: int| 0 <= k < t.len() && (#[trigger] t[k]) == '.' ==> k == i || k == j
}

/// Whether the string has the shape of an encoded token: exactly three
/// non-empty dot-separated segments (header, claims, signature).
pub open spec fn token_shaped(t: Seq<char>) -> bool {
    exists|i: int, j: int| token_dots_at(t, i, j)
}

/// Relies on `jsonwebtoken::encode` with the default header (HS256) and an
/// HMAC key built by `EncodingKey::from_secret`. On that path the call
/// cannot fail: HMAC signing is unconditional and the fixed header and the
/// string-keyed claim map always serialize, so success is promised. The
/// result is deterministic in the arguments; it joins three non-empty
/// base64url segments (which contain no dot) with two dots, and it recovers,
/// under the same secret, exactly the claims handed in.
#[verifier::external_body]
fn jwt_sign(email: &str, iat: u64, exp: u64, secret: &str) -> (r: Result<String, IssuanceError>)
    ensures
        r is Ok,
        r matches Ok(t) ==> t@ == jwt_of(email@, iat as int, exp as int, secret@),
        r matches Ok(t) ==> jwt_claims_of(t@, secret@) == Some((email@, iat as int, exp as int)),
        r matches Ok(t) ==> token_shaped(t@),
{
    let mut m = serde_json::Map::new();
    m.insert("email".to_string(), Value::String(email.to_string()));
    m.insert("iat".to_string(), Value::from(iat));
    m.insert("exp".to_string(), Value::from(exp));
    let key = EncodingKey::from_secret(secret.as_bytes());
    match jsonwebtoken::encode(&Header::default(), &Value::Object(m), &key) {
        Ok(t) => Ok(t),
        Err(_) => Err(IssuanceError::SigningFailed),
    }
}

/// Relies on `jsonwebtoken::decode` with HS256, a key built by
/// `DecodingKey::from_secret`, and expiry validation turned off: it succeeds
/// exactly when the token's signature and shape validate under the secret,
/// and then returns the embedded claims.
#[verifier::external_body]
fn jwt_decode(token: &str, secret: &str) -> (r: Option<(String, u64, u64)>)
    ensures
        r matches Some(c) ==> jwt_claims_of(token@, secret@) == Some((c.0@, c.1 as int, c.2 as int)),
        r is None ==> jwt_claims_of(token@, secret@) is None,
{
    let mut v = Validation::new(Algorithm::HS256);
    v.validate_exp = false;
    v.required_spec_claims = HashSet::new();
    let key = DecodingKey::from_secret(secret.as_bytes());
    let data = match jsonwebtoken::decode::<Value>(token, &key, &v) {
        Ok(d) => d,
        Err(_) => return None,
    };
    let email = data.claims.get("email").and_then(Value::as_str)?;
    let iat = data.claims.get("iat").and_then(Value::as_u64)?;
    let exp = data.claims.get("exp").and_then(Value::as_u64)?;
    Some((email.to_string(), iat, exp))
}

/// Relies on `chrono::Utc::now` (which does not return at all on a system
/// clock set before the Unix epoch) and `DateTime::timestamp`: the current
/// wall-clock time as non-leap seconds since the epoch, never negative.
/// Beyond that, nothing can be promised of its value.
#[verifier::external_body]
fn current_timestamp() -> (r: i64)
    ensures
        0 <= r,
{
    chrono::Utc::now().timestamp()
}

/// Construct the claims for a token issued at `now`: the expiry lies exactly
/// one validity window after the issued-at timestamp, both computed from the
/// same snapshot.
pub fn make_claims(email: String, now: u64) -> (c: Claims)
    requires
        now + TOKEN_VALIDITY_SECONDS <= u64::MAX,
    ensures
        c.email@ == email@,
        c.iat == now,
        c.exp == now + TOKEN_VALIDITY_SECONDS,
{
    Claims { exp: now + TOKEN_VALIDITY_SECONDS, iat: now, email }
}

/// Mint a signed token for `email`, issued at `now` and valid for exactly
/// one validity window. Issuance always succeeds, and the token recovers,
/// under the same secret, the subject and the two timestamps it was minted
/// with.
pub fn issue_at(email: String, now: u64, secret: &str) -> (r: Result<String, IssuanceError>)
    requires
        now + TOKEN_VALIDITY_SECONDS <= u64::MAX,
    ensures
        r is Ok,
        r matches Ok(t) ==> t@ == jwt_of(
            email@,
            now as int,
            now as int + TOKEN_VALIDITY_SECONDS as int,
            secret@,
        ),
        r matches Ok(t) ==> jwt_claims_of(t@, secret@) == Some(
            (email@, now as int, now as int + TOKEN_VALIDITY_SECONDS as int),
        ),
        r matches Ok(t) ==> token_shaped(t@),
{
    let c = make_claims(email, now);
    jwt_sign(c.email.as_str(), c.iat, c.exp, secret)
}

/// Mint a signed token for `email` at the current wall-clock time, valid for
/// exactly 24 hours. Issuance always succeeds.
pub fn encode_jwt(email: String, secret: &str) -> (r: Result<String, IssuanceError>)
    ensures
        r is Ok,
        r matches Ok(t) ==> exists|now: int| 0 <= now && #[trigger] issued_claims(t@, secret@, email@, now),
        r matches Ok(t) ==> token_shaped(t@),
{
    let now_signed = current_timestamp();
    let now = now_signed as u64;
    let r = issue_at(email, now, secret);
    proof {
        if r is Ok {
            assert(issued_claims(r->Ok_0@, secret@, email@, now as int));
        }
    }
    r
}

/// Check a presented token against the signing secret at time `now`. Returns
/// the embedded claims exactly when the signature validates and `now` is not
/// past the expiry; fails with `Expired` exactly when it validates but the
/// expiry has passed, and with `BadSignature` exactly when no claims can be
/// recovered.
pub fn check_token_at(token: &str, secret: &str, now: u64) -> (r: Result<Claims, VerificationError>)
    ensures
        r matches Ok(c) ==> token_verify_outcome(token@, secret@, now as int) == Ok::<
            _,
            VerificationError,
        >((c.email@, c.iat as int, c.exp as int)),
        r matches Err(e) ==> token_verify_outcome(token@, secret@, now as int) == Err::<
            (Seq<char>, int, int),
            _,
        >(e),
{
    match jwt_decode(token, secret) {
        Option::Some((email, iat, exp)) => {
            if now > exp {
                Err(VerificationError::Expired)
            } else {
                Ok(Claims { exp, iat, email })
            }
        },
        Option::None => Err(VerificationError::BadSignature),
    }
}

/// Check a presented token against the signing secret at the current
/// wall-clock time.
pub fn decode_jwt(token: &str, secret: &str) -> (r: Result<Claims, VerificationError>)
    ensures
        r matches Ok(c) ==> exists|now: int|
            0 <= now && #[trigger] token_verify_outcome(token@, secret@, now) == Ok::<
                _,
                VerificationError,
            >((c.email@, c.iat as int, c.exp as int)),
        r matches Err(e) ==> exists|now: int|
            0 <= now && #[trigger] token_verify_outcome(token@, secret@, now) == Err::<
                (Seq<char>, int, int),
                _,
            >(e),
{
    let now_signed = current_timestamp();
    check_token_at(token, secret, now_signed as u64)
}

/// Law: a token whose recovered claims assert a subject and a validity
/// window is accepted at any time not past its expiry, under the same
/// secret, and returns exactly those claims — the subject comes back
/// unchanged.
pub proof fn lemma_valid_token_accepted(
    token: Seq<char>,
    secret: Seq<char>,
    email: Seq<char>,
    iat: int,
    exp: int,
    now: int,
)
    requires
        jwt_claims_of(token, secret) == Some((email, iat, exp)),
        now <= exp,
    ensures
        token_verify_outcome(token, secret, now) == Ok::<_, VerificationError>((email, iat, exp)),
{
}

/// Law: a token verified after its expiry timestamp is rejected with
/// `Expired` — never accepted, and never confused with a signature failure.
pub proof fn lemma_expired_token_rejected(
    token: Seq<char>,
    secret: Seq<char>,
    email: Seq<char>,
    iat: int,
    exp: int,
    now: int,
)
    requires
        jwt_claims_of(token, secret) == Some((email, iat, exp)),
        now > exp,
    ensures
        token_verify_outcome(token, secret, now) == Err::<(Seq<char>, int, int), _>(
            VerificationError::Expired,
        ),
{
}

/// Law: a token from which no claims can be recovered under the secret — in
/// particular one whose signature does not match its payload — is rejected
/// with `BadSignature` at every time, never accepted and never reported as
/// expired.
pub proof fn lemma_unverifiable_token_rejected(token: Seq<char>, secret: Seq<char>, now: int)
    requires
        jwt_claims_of(token, secret) is None,
    ensures
        token_verify_outcome(token, secret, now) == Err::<(Seq<char>, int, int), _>(
            VerificationError::BadSignature,
        ),
{
}

} // verus!
