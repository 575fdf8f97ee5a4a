//! The token service: issuing and checking signed, time-bounded claims, and
//! refresh-token rotation.
//!
//! Tokens are stateless and self-contained; there is no server-side session
//! table, and so no way to revoke a token before its expiry.

use crate::errors::CoreError;
use vstd::prelude::*;

verus! {

/// Seconds an access token lives past its issue time.
pub const ACCESS_TOKEN_TTL_SECS: u64 = 3600;

/// Seconds a refresh token lives past its issue time.
pub const REFRESH_TOKEN_TTL_SECS: u64 = 604800;

/// The payload a signed token carries: the subject (a user id rendered as a
/// UUID string), the subject's email, and the expiry in epoch seconds.
#[derive(Clone, PartialEq, Eq, Debug)]
pub struct Claims {
    pub sub: String,
    pub email: String,
    pub exp: u64,
}

#[derive(Clone, Copy, PartialEq, Eq, Structural, Debug)]
pub enum TokenError {
    /// The token is malformed or not signed with the service's secret.
    Invalid,
    /// The token is well-signed but its expiry lies in the past.
    Expired,
}

/// The claims that checking a token string against a secret recovers:
/// `None` when the check rejects the string (malformed, signed under another
/// secret, or carrying claims the check refuses), `Some((sub, email, exp))`
/// when it is well-signed and carries those claims. The check is
/// deterministic in the token and the secret alone, so its outcome carries a
/// name.
pub uninterp spec fn claims_of(token: Seq<char>, secret: Seq<char>) -> Option<
    (Seq<char>, Seq<char>, u64),
>;

/// The verdict of `TokenService::verify` over the recovered claims: a
/// signature failure is `Invalid`, an expiry strictly before `now` is
/// `Expired`, anything else is the claims themselves.
pub open spec fn spec_verify(cl: Option<(Seq<char>, Seq<char>, u64)>, now: u64) -> Result<
    (Seq<char>, Seq<char>, u64),
    TokenError,
> {
    match cl {
        None => Err(TokenError::Invalid),
        Some(c) => if c.2 < now {
            Err(TokenError::Expired)
        } else {
            Ok(c)
        },
    }
}

/// Relies on jsonwebtoken::encode with the default HS256 header: the token
/// embeds exactly these claims, and jsonwebtoken::decode under the same
/// secret recovers them. Encoding cannot fail for these inputs — the key and
/// the header are both HMAC-family, the claims object always serializes, and
/// HMAC signing has no failure path — so a token is always returned.
#[verifier::external_body]
fn jwt_encode(sub: &str, email: &str, exp: u64, secret: &str) -> (r: Option<String>)
    ensures
        r is Some,
        r matches Some(t) ==> claims_of(t@, secret@) == Some((sub@, email@, exp)),
{
    let mut m = serde_json::Map::new();
    m.insert("sub".to_string(), serde_json::Value::String(sub.to_string()));
    m.insert("email".to_string(), serde_json::Value::String(email.to_string()));
    m.insert("exp".to_string(), serde_json::Value::from(exp));
    let key = jsonwebtoken::EncodingKey::from_secret(secret.as_bytes());
    jsonwebtoken::encode(&jsonwebtoken::Header::default(), &serde_json::Value::Object(m), &key).ok()
}

/// Relies on jsonwebtoken::decode (HS256, expiry validation switched off):
/// a deterministic signature check and claim extraction from the token and
/// the secret alone; the expiry comparison is done by the caller.
#[verifier::external_body]
fn jwt_decode(token: &str, secret: &str) -> (r: Option<(String, String, u64)>)
    ensures
        r matches Some(c) ==> claims_of(token@, secret@) == Some((c.0@, c.1@, c.2)),
        r is None ==> claims_of(token@, secret@) is None,
{
    let mut v = jsonwebtoken::Validation::default();
    v.validate_exp = false;
    v.required_spec_claims.clear();
    let key = jsonwebtoken::DecodingKey::from_secret(secret.as_bytes());
    let data = jsonwebtoken::decode::<serde_json::Value>(token, &key, &v).ok()?;
    let sub = data.claims.get("sub")?.as_str()?.to_string();
    let email = data.claims.get("email")?.as_str()?.to_string();
    let exp = data.claims.get("exp")?.as_u64()?;
    Some((sub, email, exp))
}

/// Issues and checks signed claims under one process-wide secret, shared and
/// immutable after construction.
pub struct TokenService {
    secret: String,
}

impl TokenService {
    /// The signing secret, visible to specifications only.
    pub closed spec fn secret_view(&self) -> Seq<char> {
        self.secret@
    }

    pub fn new(secret: String) -> (s: Self)
        ensures
            s.secret_view() == secret@,
    {
        TokenService { secret }
    }

    /// An access token for `sub`/`email` issued at `now`, expiring exactly
    /// the access lifetime later. Issuance always succeeds.
    pub fn issue_access(&self, sub: &str, email: &str, now: u64) -> (r: String)
        requires
            now + ACCESS_TOKEN_TTL_SECS <= u64::MAX,
        ensures
            claims_of(r@, self.secret_view()) == Some(
                (sub@, email@, (now + ACCESS_TOKEN_TTL_SECS) as u64),
            ),
    {
        match jwt_encode(sub, email, now + ACCESS_TOKEN_TTL_SECS, &self.secret) {
            Some(t) => t,
            None => String::new(),
        }
    }

    /// A refresh token for `sub`/`email` issued at `now`, expiring exactly
    /// the refresh lifetime later. Issuance always succeeds.
    pub fn issue_refresh(&self, sub: &str, email: &str, now: u64) -> (r: String)
        requires
            now + REFRESH_TOKEN_TTL_SECS <= u64::MAX,
        ensures
            claims_of(r@, self.secret_view()) == Some(
                (sub@, email@, (now + REFRESH_TOKEN_TTL_SECS) as u64),
            ),
    {
        match jwt_encode(sub, email, now + REFRESH_TOKEN_TTL_SECS, &self.secret) {
            Some(t) => t,
            None => String::new(),
        }
    }

    /// Check a token: the signature first (`Invalid` on failure), then the
    /// expiry against `now` (`Expired` when it lies strictly before `now`).
    /// The explicit expiry comparison decides refresh eligibility, not
    /// merely a side effect of signature checking.
    pub fn verify(&self, token: &str, now: u64) -> (r: Result<Claims, TokenError>)
        ensures
            match spec_verify(claims_of(token@, self.secret_view()), now) {
                Ok(c) => r matches Ok(cl) && cl.sub@ == c.0 && cl.email@ == c.1 && cl.exp == c.2,
                Err(e) => r matches Err(e2) && e2 == e,
            },
    {
        match jwt_decode(token, &self.secret) {
            None => Err(TokenError::Invalid),
            Some((sub, email, exp)) => {
                if exp < now {
                    Err(TokenError::Expired)
                } else {
                    Ok(Claims { sub, email, exp })
                }
            },
        }
    }

    /// Rotate a refresh token: check it as `verify` does, and when the check
    /// passes, issue a brand-new access/refresh pair bound to the same
    /// subject and email — rotation of a token that verifies always
    /// succeeds. The old refresh token stays cryptographically valid until
    /// its own expiry — there is no server-side revocation list.
    pub fn refresh(&self, refresh_token: &str, now: u64) -> (r: Result<
        (String, String),
        CoreError,
    >)
        requires
            now + REFRESH_TOKEN_TTL_SECS <= u64::MAX,
        ensures
            ({
                let verdict = spec_verify(claims_of(refresh_token@, self.secret_view()), now);
                &&& verdict is Err ==> (r matches Err(e) && e == CoreError::Unauthorized)
                &&& verdict matches Ok(c) ==> (r matches Ok(pair) && claims_of(
                    pair.0@,
                    self.secret_view(),
                ) == Some((c.0, c.1, (now + ACCESS_TOKEN_TTL_SECS) as u64)) && claims_of(
                    pair.1@,
                    self.secret_view(),
                ) == Some((c.0, c.1, (now + REFRESH_TOKEN_TTL_SECS) as u64)))
            }),
    {
        let cl = match self.verify(refresh_token, now) {
            Ok(cl) => cl,
            Err(_) => {
                return Err(CoreError::Unauthorized);
            },
        };
        let access = self.issue_access(&cl.sub, &cl.email, now);
        let renewed = self.issue_refresh(&cl.sub, &cl.email, now);
        Ok((access, renewed))
    }
}

/// The bearer-token guard of the protected routes. A value witnesses that a
/// presented token passed the check; header parsing stays at the HTTP
/// boundary.
pub struct AuthBearer;

impl AuthBearer {
    /// The guard's decision: accept exactly the tokens `verify` accepts,
    /// whatever their claims.
    pub fn check(service: &TokenService, token: &str, now: u64) -> (r: Option<AuthBearer>)
        ensures
            r is Some <==> spec_verify(claims_of(token@, service.secret_view()), now) is Ok,
    {
        match service.verify(token, now) {
            Ok(_) => Some(AuthBearer),
            Err(_) => None,
        }
    }
}

/// Law: a well-signed token carrying (sub, email, exp) verifies to exactly
/// those claims at any time not past its expiry.
pub proof fn lemma_token_round_trip(sub: Seq<char>, email: Seq<char>, exp: u64, now: u64)
    requires
        now <= exp,
    ensures
        spec_verify(Some((sub, email, exp)), now) == Ok::<(Seq<char>, Seq<char>, u64), TokenError>(
            (sub, email, exp),
        ),
{
}

/// Law: a well-signed token whose expiry lies strictly in the past is
/// rejected as expired — never accepted, and never reported invalid.
pub proof fn lemma_expired_token_rejected(sub: Seq<char>, email: Seq<char>, exp: u64, now: u64)
    requires
        exp < now,
    ensures
        spec_verify(Some((sub, email, exp)), now) == Err::<(Seq<char>, Seq<char>, u64), TokenError>(
            TokenError::Expired,
        ),
{
}

/// Law: refreshing at a strictly later time yields an access token that
/// expires strictly later than the original access token — each expires
/// exactly the access lifetime past its own issue time.
pub proof fn lemma_refresh_advances_expiry(issued_at: u64, refreshed_at: u64)
    requires
        issued_at < refreshed_at,
        refreshed_at + ACCESS_TOKEN_TTL_SECS <= u64::MAX,
    ensures
        refreshed_at + ACCESS_TOKEN_TTL_SECS > issued_at + ACCESS_TOKEN_TTL_SECS,
{
}

} // verus!
