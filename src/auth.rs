//! Identity claims and the signed tokens that carry them.

use vstd::prelude::*;

verus! {

/// Minutes for which a freshly issued token stays valid.
pub const TOKEN_TTL_MINUTES: u64 = 60;

/// The decoded payload of an identity token: whose it is and until when it holds.
#[derive(Debug, Clone)]
pub struct Claims {
    /// The user identifier the token speaks for.
    pub sub: String,
    /// Expiry instant, in seconds since the Unix epoch.
    pub exp: usize,
}

/// The expiry instant of claims issued at `now` for `ttl_minutes`, clamped to the
/// largest representable instant.
pub open spec fn expiry_of(now: int, ttl_minutes: int) -> int {
    if now + ttl_minutes * 60 <= usize::MAX {
        now + ttl_minutes * 60
    } else {
        usize::MAX as int
    }
}

/// Claims with expiry `exp` are still valid at instant `now`.
pub open spec fn live_at(exp: int, now: int) -> bool {
    now < exp
}

/// Relies on std::time::SystemTime::now: the current wall-clock time in whole
/// seconds since the Unix epoch (0 for a clock set before the epoch).
#[verifier::external_body]
fn unix_now() -> (r: usize) {
    match std::time::SystemTime::now().duration_since(std::time::UNIX_EPOCH) {
        Ok(d) => d.as_secs() as usize,
        Err(_) => 0,
    }
}

impl Claims {
    /// Claims for `user_id`, issued at instant `now` and expiring `ttl_minutes` later.
    pub fn issued_at(user_id: &str, now: usize, ttl_minutes: u64) -> (r: Claims)
        ensures
            r.sub@ == user_id@,
            r.exp == expiry_of(now as int, ttl_minutes as int),
    {
        let span: u128 = (ttl_minutes as u128) * 60;
        let end: u128 = (now as u128) + span;
        let exp: usize = if end <= usize::MAX as u128 {
            end as usize
        } else {
            usize::MAX
        };
        Claims { sub: user_id.to_owned(), exp }
    }

    /// Claims for `user_id` that expire `ttl_minutes` from the current time.
    pub fn new(user_id: &str, ttl_minutes: u64) -> (r: Claims)
        ensures
            r.sub@ == user_id@,
            exists|now: usize| r.exp == expiry_of(now as int, ttl_minutes as int),
    {
        let now = unix_now();
        Claims::issued_at(user_id, now, ttl_minutes)
    }

    /// Whether these claims are still valid at instant `now`.
    pub fn is_live_at(&self, now: usize) -> (r: bool)
        ensures
            r == live_at(self.exp as int, now as int),
    {
        now < self.exp
    }
}


#[verifier::external_type_specification]
#[verifier::external_body]
pub struct ExJwtError(jsonwebtoken::errors::Error);

/// Why a token could not be issued or accepted. Verification failures are
/// deliberately collapsed into one variant so that callers cannot tell a bad
/// signature from a malformed or expired token.
#[derive(Debug, Clone, Copy, PartialEq, Eq, Structural)]
pub enum TokenError {
    /// The token could not be signed.
    Signing,
    /// The token is malformed, carries a bad signature, or has expired.
    InvalidOrExpired,
}

/// The token that signing claims `(sub, exp)` with `secret` produces.
pub uninterp spec fn signed_token(sub: Seq<char>, exp: int, secret: Seq<u8>) -> Seq<char>;

/// The claims `(sub, exp)` that `token` carries when its structure and its
/// signature under `secret` check out, expiry aside.
pub uninterp spec fn token_claims(token: Seq<char>, secret: Seq<u8>) -> Option<(Seq<char>, int)>;

/// Relies on jsonwebtoken::encode with the default HS256 header: it serialises the
/// claims object `{"exp", "sub"}` and signs it with `secret`, deterministically.
/// With an HMAC key for an HMAC header and a JSON object as payload it does not
/// fail: HMAC signing has no error case and serialising such a value has none.
#[verifier::external_body]
fn sign_claims(claims: &Claims, secret: &[u8]) -> (r: Result<String, jsonwebtoken::errors::Error>)
    ensures
        r is Ok,
        r is Ok ==> r->Ok_0@ == signed_token(claims.sub@, claims.exp as int, secret@),
{
    let mut payload = serde_json::Map::new();
    payload.insert("sub".to_owned(), serde_json::Value::from(claims.sub.as_str()));
    payload.insert("exp".to_owned(), serde_json::Value::from(claims.exp as u64));
    jsonwebtoken::encode(
        &jsonwebtoken::Header::default(),
        &serde_json::Value::Object(payload),
        &jsonwebtoken::EncodingKey::from_secret(secret),
    )
}

/// The mathematical view of a decoded `(sub, exp)` payload.
pub open spec fn decoded_view(d: Option<(String, u64)>) -> Option<(Seq<char>, int)> {
    match d {
        Some((sub, exp)) => Some((sub@, exp as int)),
        None => None,
    }
}

/// Relies on jsonwebtoken::decode with HS256 and expiry checking switched off: it
/// checks the structure and the signature under `secret` and hands back the
/// payload, whose `sub` and `exp` fields are read out. A token that
/// jsonwebtoken::encode made from such claims under the same secret decodes to them.
#[verifier::external_body]
fn read_claims(token: &str, secret: &[u8]) -> (r: Option<(String, u64)>)
    ensures
        decoded_view(r) == token_claims(token@, secret@),
        forall|sub: Seq<char>, exp: int|
            0 <= exp <= u64::MAX && token@ == signed_token(sub, exp, secret@) ==> decoded_view(r)
                == Some((sub, exp)),
{
    let mut validation = jsonwebtoken::Validation::default();
    validation.validate_exp = false;
    let key = jsonwebtoken::DecodingKey::from_secret(secret);
    let data = jsonwebtoken::decode::<serde_json::Value>(token, &key, &validation).ok()?;
    let sub = data.claims.get("sub")?.as_str()?.to_owned();
    let exp = data.claims.get("exp")?.as_u64()?;
    Some((sub, exp))
}

/// The claims that a token with decoded payload `decoded` yields at instant `now`:
/// present only when it decoded, its expiry is representable and it is still live.
pub open spec fn accepted_claims(decoded: Option<(Seq<char>, int)>, now: int) -> Option<(Seq<char>, int)> {
    match decoded {
        Some((sub, exp)) => if exp <= usize::MAX && live_at(exp, now) {
            Some((sub, exp))
        } else {
            None
        },
        None => None,
    }
}

/// Signs `claims` with `secret`; signing always succeeds.
pub fn encode_claims(claims: &Claims, secret: &[u8]) -> (r: Result<String, TokenError>)
    ensures
        r is Ok ==> r->Ok_0@ == signed_token(claims.sub@, claims.exp as int, secret@),
        r is Ok,
{
    match sign_claims(claims, secret) {
        Ok(t) => Ok(t),
        Err(_) => Err(TokenError::Signing),
    }
}

/// Issues a token for `user_id` at instant `now`, valid for the standard lifetime.
pub fn issue_token_at(secret: &[u8], user_id: &str, now: usize) -> (r: Result<String, TokenError>)
    ensures
        r is Ok ==> r->Ok_0@ == signed_token(
            user_id@,
            expiry_of(now as int, TOKEN_TTL_MINUTES as int),
            secret@,
        ),
        r is Ok,
{
    let claims = Claims::issued_at(user_id, now, TOKEN_TTL_MINUTES);
    encode_claims(&claims, secret)
}

/// Issues a token for `user_id`, valid for the standard lifetime from now.
pub fn generate_jwt(secret: &[u8], user_id: &str) -> (r: Result<String, TokenError>)
    ensures
        r is Ok ==> exists|now: usize|
            r->Ok_0@ == signed_token(
                user_id@,
                expiry_of(now as int, TOKEN_TTL_MINUTES as int),
                secret@,
            ),
        r is Ok,
{
    let now = unix_now();
    issue_token_at(secret, user_id, now)
}

/// Accepts a decoded payload at instant `now` when its expiry is representable and
/// still ahead; any other case is the one generic `InvalidOrExpired`.
pub fn check_claims(decoded: Option<(String, u64)>, now: usize) -> (r: Result<Claims, TokenError>)
    ensures
        accepted_claims(decoded_view(decoded), now as int) is Some <==> r is Ok,
        r is Ok ==> decoded_view(decoded) == Some((r->Ok_0.sub@, r->Ok_0.exp as int)),
        r is Err ==> r == Err::<Claims, TokenError>(TokenError::InvalidOrExpired),
{
    match decoded {
        Some((sub, exp)) => {
            if exp <= usize::MAX as u64 && now < exp as usize {
                Ok(Claims { sub, exp: exp as usize })
            } else {
                Err(TokenError::InvalidOrExpired)
            }
        },
        None => Err(TokenError::InvalidOrExpired),
    }
}

/// Verifies `token` under `secret` at instant `now`.
pub fn verify_jwt_at(secret: &[u8], token: &str, now: usize) -> (r: Result<Claims, TokenError>)
    ensures
        match r {
            Ok(c) => accepted_claims(token_claims(token@, secret@), now as int) == Some((
                c.sub@,
                c.exp as int,
            )),
            Err(e) => e == TokenError::InvalidOrExpired && accepted_claims(
                token_claims(token@, secret@),
                now as int,
            ) is None,
        },
        forall|sub: Seq<char>, exp: int|
            0 <= exp <= usize::MAX && token@ == signed_token(sub, exp, secret@) ==> (r is Ok
                <==> live_at(exp, now as int)) && (r is Ok ==> r->Ok_0.sub@ == sub
                && r->Ok_0.exp == exp),
{
    let decoded = read_claims(token, secret);
    check_claims(decoded, now)
}

/// Verifies `token` under `secret` at the current time.
pub fn verify_jwt(secret: &[u8], token: &str) -> (r: Result<Claims, TokenError>)
    ensures
        match r {
            Ok(c) => exists|now: usize|
                accepted_claims(token_claims(token@, secret@), now as int) == Some((
                    c.sub@,
                    c.exp as int,
                )),
            Err(e) => e == TokenError::InvalidOrExpired,
        },
        token_claims(token@, secret@) is None ==> r is Err,
{
    let now = unix_now();
    verify_jwt_at(secret, token, now)
}

/// A token issued at instant `issued` is accepted exactly while less than the
/// standard lifetime has passed: at every instant before its expiry, and at none
/// from then on.
pub proof fn lemma_token_lifetime(sub: Seq<char>, issued: int, now: int)
    requires
        0 <= issued,
        issued + TOKEN_TTL_MINUTES * 60 <= usize::MAX,
    ensures
        expiry_of(issued, TOKEN_TTL_MINUTES as int) == issued + 3600,
        accepted_claims(Some((sub, expiry_of(issued, TOKEN_TTL_MINUTES as int))), now) is Some
            <==> now < issued + 3600,
{
}

} // verus!
