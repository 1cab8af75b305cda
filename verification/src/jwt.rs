//! Session token module: issuing and validating signed, time-bounded
//! bearer tokens, and the per-request extractor that locates a token in
//! the session cookie or the `Authorization` header.
//!
//! A token carries identity claims signed with a server-held symmetric
//! secret; no state is kept server-side. The expiry check is verified
//! logic here; signature and structure checks are the signing library's.

use vstd::prelude::*;
use vstd::string::StrSliceExecFns;

use jsonwebtoken::{Algorithm, DecodingKey, EncodingKey, Header, Validation};
use serde_json::Value;

use crate::error::ServiceError;

verus! {

/// Claims carried by a session token: subject (user id as a string),
/// email, username, and the validity window in seconds since the epoch.
pub struct Claims {
    pub sub: String,
    pub email: String,
    pub username: String,
    /// Expiration time.
    pub exp: usize,
    /// Issued at.
    pub iat: usize,
}

/// Mathematical value of a claim set.
pub ghost struct ClaimsView {
    pub sub: Seq<char>,
    pub email: Seq<char>,
    pub username: Seq<char>,
    pub exp: int,
    pub iat: int,
}

impl View for Claims {
    type V = ClaimsView;

    open spec fn view(&self) -> ClaimsView {
        ClaimsView {
            sub: self.sub@,
            email: self.email@,
            username: self.username@,
            exp: self.exp as int,
            iat: self.iat as int,
        }
    }
}

/// How long an issued token stays valid, in seconds: 24 hours.
pub const TOKEN_LIFETIME_SECONDS: usize = 86400;

/// Why a request carrying a token was rejected.
#[derive(Clone, Copy, Debug, PartialEq, Eq, Structural)]
pub enum JwtError {
    /// No usable token was presented.
    MissingToken,
    /// The token's structure or signature check failed.
    InvalidToken,
    /// The token was genuine but its expiration time has passed.
    ExpiredToken,
}

/// What the signing library recovers from a token under a given symmetric
/// secret: `None` when the token is rejected (bad structure, bad
/// signature, or a claim set without the expected fields), otherwise the
/// claims. It is a function of secret and token alone.
pub uninterp spec fn decoded_claims(secret: Seq<u8>, token: Seq<char>) -> Option<ClaimsView>;

/// Relies on jsonwebtoken's `encode` with the default header (HS256) and
/// a symmetric secret, and on its `decode` accepting what `encode`
/// signed: decoding the returned token under the same secret yields
/// exactly the claims that went in.
#[verifier::external_body]
fn encode_claims(secret: &[u8], claims: &Claims) -> (r: Result<String, ()>)
    ensures
        r matches Ok(t) ==> decoded_claims(secret@, t@) == Some(claims@),
{
    let mut payload = serde_json::Map::new();
    payload.insert("sub".to_owned(), Value::from(claims.sub.as_str()));
    payload.insert("email".to_owned(), Value::from(claims.email.as_str()));
    payload.insert("username".to_owned(), Value::from(claims.username.as_str()));
    payload.insert("exp".to_owned(), Value::from(claims.exp as u64));
    payload.insert("iat".to_owned(), Value::from(claims.iat as u64));
    let key = EncodingKey::from_secret(secret);
    jsonwebtoken::encode(&Header::default(), &Value::Object(payload), &key).map_err(|_| ())
}

/// Relies on jsonwebtoken's `decode` with HS256 and a symmetric secret:
/// it checks structure and signature and hands back the claim set. The
/// expiry check is verified logic in `validate_token`, so the library's
/// own `exp` validation is turned off here. Deterministic in its inputs.
#[verifier::external_body]
fn decode_token(secret: &[u8], token: &str) -> (r: Result<Claims, ()>)
    ensures
        r matches Ok(c) ==> decoded_claims(secret@, token@) == Some(c@),
        r is Err ==> decoded_claims(secret@, token@) is None,
{
    let mut checks = Validation::new(Algorithm::HS256);
    checks.validate_exp = false;
    let key = DecodingKey::from_secret(secret);
    let c = jsonwebtoken::decode::<Value>(token, &key, &checks).map_err(|_| ())?.claims;
    Ok(Claims {
        sub: c.get("sub").and_then(Value::as_str).ok_or(())?.to_owned(),
        email: c.get("email").and_then(Value::as_str).ok_or(())?.to_owned(),
        username: c.get("username").and_then(Value::as_str).ok_or(())?.to_owned(),
        exp: c.get("exp").and_then(Value::as_u64).ok_or(())? as usize,
        iat: c.get("iat").and_then(Value::as_u64).ok_or(())? as usize,
    })
}

/// The claim set issued for an identity at time `now`: issued at `now`,
/// expiring 24 hours later.
pub open spec fn issued_claims(sub: Seq<char>, email: Seq<char>, username: Seq<char>, now: int) -> ClaimsView {
    ClaimsView { sub, email, username, exp: now + TOKEN_LIFETIME_SECONDS, iat: now }
}

/// Issue a signed token for an identity: claims carry `iat = now` and
/// `exp = now + 24h`. Failure to sign is an internal error.
pub fn create_token(secret: &[u8], user_id: &str, email: &str, username: &str, now: usize) -> (r: Result<
    String,
    ServiceError,
>)
    requires
        now + TOKEN_LIFETIME_SECONDS <= usize::MAX,
    ensures
        r matches Ok(t) ==> decoded_claims(secret@, t@) == Some(
            issued_claims(user_id@, email@, username@, now as int),
        ),
        r matches Err(e) ==> e is Internal,
{
    let claims = Claims {
        sub: user_id.to_owned(),
        email: email.to_owned(),
        username: username.to_owned(),
        exp: now + TOKEN_LIFETIME_SECONDS,
        iat: now,
    };
    match encode_claims(secret, &claims) {
        Ok(token) => Ok(token),
        Err(()) => Err(ServiceError::internal("Token creation failed")),
    }
}

/// The decision `validate_token` is specified to make at time `now`.
pub open spec fn validate_outcome(secret: Seq<u8>, token: Seq<char>, now: int) -> Result<
    ClaimsView,
    JwtError,
> {
    match decoded_claims(secret, token) {
        Option::None => Err(JwtError::InvalidToken),
        Option::Some(c) => if c.exp > now {
            Ok(c)
        } else {
            Err(JwtError::ExpiredToken)
        },
    }
}

/// Validate a presented token at time `now`: verify structure and
/// signature, then check `exp > now`. An expired token and a structurally
/// invalid one are told apart.
pub fn validate_token(secret: &[u8], token: &str, now: usize) -> (r: Result<Claims, JwtError>)
    ensures
        match r {
            Ok(c) => validate_outcome(secret@, token@, now as int) == Ok::<ClaimsView, JwtError>(c@),
            Err(e) => validate_outcome(secret@, token@, now as int) == Err::<ClaimsView, JwtError>(e),
        },
{
    match decode_token(secret, token) {
        Err(()) => Err(JwtError::InvalidToken),
        Ok(claims) => {
            if claims.exp > now {
                Ok(claims)
            } else {
                Err(JwtError::ExpiredToken)
            }
        },
    }
}

/// Law: issuing then validating round-trips. A token whose decoded claims
/// are exactly the issued ones (as `create_token` ensures of its result)
/// validates to those claims at any time before the expiry, and is
/// reported expired from the expiry on. Validation under a different
/// secret is not covered: nothing links the two secrets' decodings.
pub proof fn lemma_issue_then_validate(
    secret: Seq<u8>,
    token: Seq<char>,
    sub: Seq<char>,
    email: Seq<char>,
    username: Seq<char>,
    issued_at: int,
    now: int,
)
    requires
        decoded_claims(secret, token) == Some(issued_claims(sub, email, username, issued_at)),
    ensures
        now < issued_at + TOKEN_LIFETIME_SECONDS ==> validate_outcome(secret, token, now) == Ok::<
            ClaimsView,
            JwtError,
        >(issued_claims(sub, email, username, issued_at)),
        now >= issued_at + TOKEN_LIFETIME_SECONDS ==> validate_outcome(secret, token, now) == Err::<
            ClaimsView,
            JwtError,
        >(JwtError::ExpiredToken),
{
}

/// The identity context attached to a request once its token validates.
pub struct JwtAuth {
    pub user_id: String,
    pub email: String,
    pub username: String,
}

/// What the per-request extractor decides.
pub enum AuthOutcome {
    /// A token was found and validated; the identity travels with the
    /// request.
    Success(JwtAuth),
    /// No token anywhere: the request goes on without an identity, and a
    /// route that requires one rejects it downstream.
    Forward,
    /// An `Authorization` header that is not a bearer header: a
    /// bad-request failure, distinct from a missing token.
    BadRequest(JwtError),
    /// A token was found but rejected.
    Unauthorized(JwtError),
}

/// Whether a header value is a bearer header, `"Bearer "` followed by the
/// token.
pub open spec fn is_bearer(header: Seq<char>) -> bool {
    header.len() >= 7 && header.subrange(0, 7) == "Bearer "@
}

/// The token part of a bearer header.
pub open spec fn bearer_token(header: Seq<char>) -> Seq<char> {
    header.skip(7)
}

/// Strip the `"Bearer "` prefix from an `Authorization` header value, if
/// it has one.
pub fn extract_bearer(header: &str) -> (r: Option<&str>)
    ensures
        match r {
            Some(t) => is_bearer(header@) && t@ == bearer_token(header@),
            None => !is_bearer(header@),
        },
{
    proof {
        reveal_strlit("Bearer ");
    }
    let len = header.unicode_len();
    if len < 7 {
        proof {
            assert(!is_bearer(header@));
        }
        return None;
    }
    let prefix = header.substring_char(0, 7);
    if prefix.unicode_len() == 7
        && prefix.get_char(0) == 'B'
        && prefix.get_char(1) == 'e'
        && prefix.get_char(2) == 'a'
        && prefix.get_char(3) == 'r'
        && prefix.get_char(4) == 'e'
        && prefix.get_char(5) == 'r'
        && prefix.get_char(6) == ' ' {
        proof {
            assert(prefix@ =~= "Bearer "@);
            assert(header@.subrange(7, header@.len() as int) =~= bearer_token(header@));
        }
        Some(header.substring_char(7, len))
    } else {
        proof {
            assert(header@.subrange(0, 7) == prefix@);
            if is_bearer(header@) {
                assert(prefix@ == "Bearer "@);
                assert(prefix@[0] == 'B' && prefix@[1] == 'e' && prefix@[2] == 'a' && prefix@[3]
                    == 'r' && prefix@[4] == 'e' && prefix@[5] == 'r' && prefix@[6] == ' ');
            }
        }
        None
    }
}

/// How the extractor's outcome must reflect validating a located token.
pub open spec fn reflects_validation(r: AuthOutcome, secret: Seq<u8>, token: Seq<char>, now: int) -> bool {
    match validate_outcome(secret, token, now) {
        Ok(c) => r matches AuthOutcome::Success(a) && a.user_id@ == c.sub && a.email@ == c.email
            && a.username@ == c.username,
        Err(e) => r matches AuthOutcome::Unauthorized(e2) && e2 == e,
    }
}

/// Per-request authentication. The token is looked for first in the
/// session cookie's value, else in the `Authorization` header, which must
/// be a bearer header; with no token anywhere the request is forwarded
/// without an identity.
pub fn from_request(
    secret: &[u8],
    cookie_token: Option<&String>,
    auth_header: Option<&String>,
    now: usize,
) -> (r: AuthOutcome)
    ensures
        cookie_token matches Some(t) ==> reflects_validation(r, secret@, t@, now as int),
        cookie_token is None ==> (auth_header matches Some(h) ==> if is_bearer(h@) {
            reflects_validation(r, secret@, bearer_token(h@), now as int)
        } else {
            r matches AuthOutcome::BadRequest(e) && e == JwtError::MissingToken
        }),
        cookie_token is None && auth_header is None ==> r is Forward,
{
    let token: &str = match cookie_token {
        Some(t) => t.as_str(),
        None => match auth_header {
            Some(h) => match extract_bearer(h.as_str()) {
                Some(t) => t,
                None => {
                    return AuthOutcome::BadRequest(JwtError::MissingToken);
                },
            },
            None => {
                return AuthOutcome::Forward;
            },
        },
    };
    match validate_token(secret, token, now) {
        Ok(claims) => AuthOutcome::Success(
            JwtAuth { user_id: claims.sub, email: claims.email, username: claims.username },
        ),
        Err(e) => AuthOutcome::Unauthorized(e),
    }
}

} // verus!
