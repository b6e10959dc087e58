use vstd::prelude::*;

use crate::error::TokenError;

verus! {

/// Seconds of clock skew tolerated past an access token's expiry.
pub const LEEWAY: u64 = 60;

/// Default lifetime of an access token: fifteen minutes.
pub const ACCESS_TTL: u64 = 900;

/// The text of the token that HS256-signs, under `secret`, the claims object
/// `{exp, serial, user_id, username}` (`exp` and `serial` left out when `None`).
pub uninterp spec fn jwt_text(
    secret: Seq<char>,
    exp: Option<u64>,
    serial: Option<u64>,
    user_id: i32,
    username: Seq<char>,
) -> Seq<char>;

/// What decoding `token` under `secret` gives: the `exp`, `serial`, `user_id`
/// and `username` claims as found, or, when the token is refused, whether it
/// was refused for its signature (`true`) or for its format (`false`).
pub uninterp spec fn jwt_fields(secret: Seq<char>, token: Seq<char>) -> Result<
    (Option<u64>, Option<u64>, Option<i64>, Option<Seq<char>>),
    bool,
>;

/// The signing configuration, injected once at start-up.
pub struct TokenConfig {
    /// The symmetric secret that signs and checks every token.
    pub secret: String,
    /// How many seconds an access token stays valid after it is issued.
    pub access_ttl: u64,
}

impl TokenConfig {
    /// A configuration with the default access-token lifetime.
    pub fn new(secret: String) -> (r: TokenConfig)
        ensures
            r.secret@ == secret@,
            r.access_ttl == ACCESS_TTL,
    {
        TokenConfig { secret, access_ttl: ACCESS_TTL }
    }
}

/// The claims fields of a token whose signature was accepted, as they were found.
#[derive(Debug)]
pub struct RawClaims {
    pub exp: Option<u64>,
    pub serial: Option<u64>,
    pub user_id: Option<i64>,
    pub username: Option<String>,
}

impl View for RawClaims {
    type V = (Option<u64>, Option<u64>, Option<i64>, Option<Seq<char>>);

    open spec fn view(&self) -> Self::V {
        (
            self.exp,
            self.serial,
            self.user_id,
            match self.username {
                Some(s) => Some(s@),
                None => None,
            },
        )
    }
}

/// The identity claims of an access token.
#[derive(Debug)]
pub struct JwtClaims {
    pub exp: u64,
    pub user_id: i32,
    pub username: String,
}

impl View for JwtClaims {
    type V = (u64, i32, Seq<char>);

    open spec fn view(&self) -> Self::V {
        (self.exp, self.user_id, self.username@)
    }
}

/// The claims of a refresh token: the identity, and the serial number that
/// makes each issued refresh token distinct. Its expiry lives in the refresh
/// table.
#[derive(Debug)]
pub struct RefreshClaims {
    pub user_id: i32,
    pub username: String,
    pub serial: u64,
}

impl View for RefreshClaims {
    type V = (i32, Seq<char>, u64);

    open spec fn view(&self) -> Self::V {
        (self.user_id, self.username@, self.serial)
    }
}

pub open spec fn bearer_prefix() -> Seq<char> {
    seq!['B', 'e', 'a', 'r', 'e', 'r', ' ']
}

/// The token text once an optional `"Bearer "` prefix is taken off.
pub open spec fn bearer_stripped(t: Seq<char>) -> Seq<char> {
    if bearer_prefix().is_prefix_of(t) {
        t.subrange(bearer_prefix().len() as int, t.len() as int)
    } else {
        t
    }
}

/// An access token is expired once `now` is past its expiry plus the leeway.
pub open spec fn is_expired(exp: u64, now: u64) -> bool {
    exp + LEEWAY < now
}

pub open spec fn access_from_raw(raw: (Option<u64>, Option<u64>, Option<i64>, Option<Seq<char>>)) -> Option<
    (u64, i32, Seq<char>),
> {
    match raw {
        (Some(e), _, Some(u), Some(n)) => if i32::MIN <= u <= i32::MAX {
            Some((e, u as i32, n))
        } else {
            None
        },
        _ => None,
    }
}

pub open spec fn refresh_from_raw(raw: (Option<u64>, Option<u64>, Option<i64>, Option<Seq<char>>)) -> Option<
    (i32, Seq<char>, u64),
> {
    match raw {
        (_, Some(s), Some(u), Some(n)) => if i32::MIN <= u <= i32::MAX {
            Some((u as i32, n, s))
        } else {
            None
        },
        _ => None,
    }
}

/// The outcome of checking the fields of an access token at time `now`.
pub open spec fn access_outcome(
    raw: (Option<u64>, Option<u64>, Option<i64>, Option<Seq<char>>),
    now: u64,
    check_exp: bool,
) -> Result<(u64, i32, Seq<char>), TokenError> {
    match access_from_raw(raw) {
        None => Err(TokenError::Malformed),
        Some(c) => if check_exp && is_expired(c.0, now) {
            Err(TokenError::Expired)
        } else {
            Ok(c)
        },
    }
}

pub open spec fn refresh_outcome(raw: (Option<u64>, Option<u64>, Option<i64>, Option<Seq<char>>)) -> Result<
    (i32, Seq<char>, u64),
    TokenError,
> {
    match refresh_from_raw(raw) {
        None => Err(TokenError::Malformed),
        Some(c) => Ok(c),
    }
}

pub open spec fn jwt_result_view(r: Result<JwtClaims, TokenError>) -> Result<
    (u64, i32, Seq<char>),
    TokenError,
> {
    match r {
        Ok(c) => Ok(c@),
        Err(e) => Err(e),
    }
}

pub open spec fn refresh_result_view(r: Result<RefreshClaims, TokenError>) -> Result<
    (i32, Seq<char>, u64),
    TokenError,
> {
    match r {
        Ok(c) => Ok(c@),
        Err(e) => Err(e),
    }
}

/// The error of a token that the signing library refused: for its signature,
/// or for its format.
pub open spec fn decode_error(bad_signature: bool) -> TokenError {
    if bad_signature {
        TokenError::InvalidSignature
    } else {
        TokenError::Malformed
    }
}

/// How many dots the text holds: a token is three segments joined by two.
pub open spec fn dot_count(s: Seq<char>) -> nat
    decreases s.len(),
{
    if s.len() == 0 {
        0
    } else {
        (if s.last() == '.' {
            1nat
        } else {
            0nat
        }) + dot_count(s.drop_last())
    }
}

/// The text cannot be a token: it holds fewer than two dots.
pub open spec fn lacks_segments(s: Seq<char>) -> bool {
    dot_count(s) < 2
}

/// The outcome of validating an access token, from what decoding gave.
pub open spec fn access_verdict(
    decoded: Result<(Option<u64>, Option<u64>, Option<i64>, Option<Seq<char>>), bool>,
    now: u64,
    check_exp: bool,
) -> Result<(u64, i32, Seq<char>), TokenError> {
    match decoded {
        Ok(raw) => access_outcome(raw, now, check_exp),
        Err(sig) => Err(decode_error(sig)),
    }
}

/// The outcome of validating a refresh token, from what decoding gave.
pub open spec fn refresh_verdict(
    decoded: Result<(Option<u64>, Option<u64>, Option<i64>, Option<Seq<char>>), bool>,
) -> Result<(i32, Seq<char>, u64), TokenError> {
    match decoded {
        Ok(raw) => refresh_outcome(raw),
        Err(sig) => Err(decode_error(sig)),
    }
}

/// Every reading of `token` as a signed text, under any secret, carries a
/// serial below `bound`.
pub open spec fn issued_before(token: Seq<char>, bound: u64) -> bool {
    forall|s: Seq<char>, e: Option<u64>, n: Option<u64>, u: i32, m: Seq<char>|
        #[trigger] jwt_text(s, e, n, u, m) == token ==> n is Some && n->Some_0 < bound
}

/// `token` is a signed refresh text with serial `serial`, and every reading of
/// it carries that serial.
pub open spec fn issued_with_serial(token: Seq<char>, serial: u64) -> bool {
    &&& exists|s: Seq<char>, u: i32, m: Seq<char>| #[trigger] jwt_text(s, None, Some(serial), u, m) == token
    &&& forall|s: Seq<char>, e: Option<u64>, n: Option<u64>, u: i32, m: Seq<char>|
        #[trigger] jwt_text(s, e, n, u, m) == token ==> n == Some(serial)
}

/// Relies on jsonwebtoken::encode with the default (HS256) header and
/// EncodingKey::from_secret. With an HMAC key of any length and a JSON map as
/// claims it does not fail. HMAC signing is a function of the secret and the
/// claims; the token is base64url segments joined by dots, so it holds no
/// space, and its middle segment is the claims object, so the claims can be
/// read back from the text whatever the secret.
#[verifier::external_body]
fn sign_claims(secret: &str, exp: Option<u64>, serial: Option<u64>, user_id: i32, username: &str) -> (r: String)
    ensures
        r@ == jwt_text(secret@, exp, serial, user_id, username@),
        !bearer_prefix().is_prefix_of(r@),
        forall|s: Seq<char>, e: Option<u64>, n: Option<u64>, u: i32, m: Seq<char>|
            #[trigger] jwt_text(s, e, n, u, m) == r@ ==> e == exp && n == serial && u == user_id && m
                == username@,
{
    let claims: serde_json::Map<String, serde_json::Value> = exp.map(|e| ("exp".to_string(), e.into()))
        .into_iter().chain(serial.map(|n| ("serial".to_string(), n.into()))).chain([
        ("user_id".to_string(), user_id.into()),
        ("username".to_string(), username.into()),
    ]).collect();
    let key = jsonwebtoken::EncodingKey::from_secret(secret.as_bytes());
    jsonwebtoken::encode(&jsonwebtoken::Header::default(), &claims, &key).expect("HMAC signing")
}

/// What was read agrees with what decoding gives.
pub open spec fn read_agrees(
    r: Result<RawClaims, TokenError>,
    decoded: Result<(Option<u64>, Option<u64>, Option<i64>, Option<Seq<char>>), bool>,
) -> bool {
    match (r, decoded) {
        (Ok(raw), Ok(fields)) => raw@ == fields,
        (Err(e), Err(sig)) => e == decode_error(sig),
        _ => false,
    }
}

/// The text was refused for its format.
pub open spec fn is_malformed(r: Result<RawClaims, TokenError>) -> bool {
    r == Err::<RawClaims, TokenError>(TokenError::Malformed)
}

/// The text was read as the claims `(exp, serial, user_id, username)`.
pub open spec fn reads_as(r: Result<RawClaims, TokenError>, e: Option<u64>, n: Option<u64>, u: i32, m: Seq<char>) -> bool {
    match r {
        Ok(raw) => raw@ == (e, n, Some(u as i64), Some(m)),
        Err(_) => false,
    }
}

/// Relies on jsonwebtoken::decode with HS256 and DecodingKey::from_secret,
/// with no claim required and no clock read: the outcome depends on the secret
/// and the token alone. A text without two dots is refused as an invalid token
/// before any key is used; a token made by jsonwebtoken::encode under the same
/// secret gives back the claims it was made from; a refused signature is
/// reported as ErrorKind::InvalidSignature.
#[verifier::external_body]
fn read_claims(secret: &str, token: &str) -> (r: Result<RawClaims, TokenError>)
    ensures
        read_agrees(r, jwt_fields(secret@, token@)),
        lacks_segments(token@) ==> is_malformed(r),
        forall|e: Option<u64>, n: Option<u64>, u: i32, m: Seq<char>|
            #[trigger] jwt_text(secret@, e, n, u, m) == token@ ==> reads_as(r, e, n, u, m),
{
    let mut v = jsonwebtoken::Validation::new(jsonwebtoken::Algorithm::HS256);
    v.validate_exp = false;
    v.required_spec_claims.clear();
    match jsonwebtoken::decode::<serde_json::Value>(token, &jsonwebtoken::DecodingKey::from_secret(secret.as_bytes()), &v) {
        Ok(d) => Ok(RawClaims {
            exp: d.claims["exp"].as_u64(),
            serial: d.claims["serial"].as_u64(),
            user_id: d.claims["user_id"].as_i64(),
            username: d.claims["username"].as_str().map(String::from),
        }),
        Err(e) => Err(match e.kind() {
            jsonwebtoken::errors::ErrorKind::InvalidSignature => TokenError::InvalidSignature,
            _ => TokenError::Malformed,
        }),
    }
}

/// Relies on str::strip_prefix: what follows `p` in `s`, when `s` starts with `p`.
#[verifier::external_body]
fn after_prefix(s: &str, p: &str) -> (r: Option<String>)
    ensures
        r is Some <==> p@.is_prefix_of(s@),
        r is Some ==> r->Some_0@ == s@.subrange(p@.len() as int, s@.len() as int),
{
    s.strip_prefix(p).map(String::from)
}

/// The token text of an `Authorization` value, without its `"Bearer "` prefix.
pub fn strip_bearer(token: &str) -> (r: String)
    ensures
        r@ == bearer_stripped(token@),
{
    proof {
        reveal_strlit("Bearer ");
    }
    assert("Bearer "@ == bearer_prefix());
    match after_prefix(token, "Bearer ") {
        Some(rest) => rest,
        None => token.to_owned(),
    }
}

/// Checks the fields of an access token at time `now`: `exp`, `user_id` and
/// `username` must be present with a `user_id` in range, and, when `check_exp`
/// holds, the token must not be past its expiry plus the leeway.
pub fn access_claims_from(raw: RawClaims, now: u64, check_exp: bool) -> (r: Result<JwtClaims, TokenError>)
    ensures
        jwt_result_view(r) == access_outcome(raw@, now, check_exp),
{
    match raw {
        RawClaims { exp: Some(exp), serial: _, user_id: Some(uid), username: Some(username) } => {
            if uid < i32::MIN as i64 || uid > i32::MAX as i64 {
                return Err(TokenError::Malformed);
            }
            if check_exp && (exp as u128) + (LEEWAY as u128) < now as u128 {
                Err(TokenError::Expired)
            } else {
                Ok(JwtClaims { exp, user_id: uid as i32, username })
            }
        },
        _ => Err(TokenError::Malformed),
    }
}

/// Checks the fields of a refresh token: `serial`, `user_id` and `username`
/// must be present, with a `user_id` in range.
pub fn refresh_claims_from(raw: RawClaims) -> (r: Result<RefreshClaims, TokenError>)
    ensures
        refresh_result_view(r) == refresh_outcome(raw@),
{
    match raw {
        RawClaims { exp: _, serial: Some(serial), user_id: Some(uid), username: Some(username) } => {
            if uid < i32::MIN as i64 || uid > i32::MAX as i64 {
                Err(TokenError::Malformed)
            } else {
                Ok(RefreshClaims { user_id: uid as i32, username, serial })
            }
        },
        _ => Err(TokenError::Malformed),
    }
}

/// Decodes an access token, with an optional `"Bearer "` prefix, and checks
/// its expiry when `check_exp` holds.
fn decode_access(cfg: &TokenConfig, token: &str, now: u64, check_exp: bool) -> (r: Result<JwtClaims, TokenError>)
    ensures
        jwt_result_view(r) == access_verdict(jwt_fields(cfg.secret@, bearer_stripped(token@)), now, check_exp),
        lacks_segments(bearer_stripped(token@)) ==> r == Err::<JwtClaims, TokenError>(TokenError::Malformed),
        forall|e: u64, n: Option<u64>, u: i32, m: Seq<char>|
            #[trigger] jwt_text(cfg.secret@, Some(e), n, u, m) == bearer_stripped(token@) ==> if check_exp
                && is_expired(e, now) {
                r == Err::<JwtClaims, TokenError>(TokenError::Expired)
            } else {
                jwt_result_view(r) == Ok::<(u64, i32, Seq<char>), TokenError>((e, u, m))
            },
{
    let bare = strip_bearer(token);
    match read_claims(cfg.secret.as_str(), bare.as_str()) {
        Ok(raw) => access_claims_from(raw, now, check_exp),
        Err(e) => Err(e),
    }
}

/// Validates an access token at time `now`: signature, claims, and expiry
/// with the leeway. A token made by `issue_access_token` under the same
/// secret decodes to the claims it was made from while it is not expired.
pub fn validate_jwt_token(cfg: &TokenConfig, token: &str, now: u64) -> (r: Result<JwtClaims, TokenError>)
    ensures
        jwt_result_view(r) == access_verdict(jwt_fields(cfg.secret@, bearer_stripped(token@)), now, true),
        lacks_segments(bearer_stripped(token@)) ==> r == Err::<JwtClaims, TokenError>(TokenError::Malformed),
        forall|e: u64, n: Option<u64>, u: i32, m: Seq<char>|
            #[trigger] jwt_text(cfg.secret@, Some(e), n, u, m) == bearer_stripped(token@) ==> if is_expired(e, now) {
                r == Err::<JwtClaims, TokenError>(TokenError::Expired)
            } else {
                jwt_result_view(r) == Ok::<(u64, i32, Seq<char>), TokenError>((e, u, m))
            },
{
    decode_access(cfg, token, now, true)
}

/// Reads the claims of an access token without looking at its expiry: the
/// refresh flow reads the identity out of an expired token this way. The
/// signature is still checked.
pub fn validate_jwt_token_without_exp(cfg: &TokenConfig, token: &str) -> (r: Result<JwtClaims, TokenError>)
    ensures
        jwt_result_view(r) == access_verdict(jwt_fields(cfg.secret@, bearer_stripped(token@)), 0, false),
        lacks_segments(bearer_stripped(token@)) ==> r == Err::<JwtClaims, TokenError>(TokenError::Malformed),
        forall|e: u64, n: Option<u64>, u: i32, m: Seq<char>|
            #[trigger] jwt_text(cfg.secret@, Some(e), n, u, m) == bearer_stripped(token@) ==> jwt_result_view(r)
                == Ok::<(u64, i32, Seq<char>), TokenError>((e, u, m)),
{
    decode_access(cfg, token, 0, false)
}

/// Reads the claims of a refresh token; it carries no expiry of its own.
pub fn validate_refresh_token(cfg: &TokenConfig, token: &str) -> (r: Result<RefreshClaims, TokenError>)
    ensures
        refresh_result_view(r) == refresh_verdict(jwt_fields(cfg.secret@, bearer_stripped(token@))),
        lacks_segments(bearer_stripped(token@)) ==> r == Err::<RefreshClaims, TokenError>(TokenError::Malformed),
        forall|n: u64, u: i32, m: Seq<char>|
            #[trigger] jwt_text(cfg.secret@, None, Some(n), u, m) == bearer_stripped(token@) ==> refresh_result_view(r)
                == Ok::<(i32, Seq<char>, u64), TokenError>((u, m, n)),
{
    let bare = strip_bearer(token);
    match read_claims(cfg.secret.as_str(), bare.as_str()) {
        Ok(raw) => refresh_claims_from(raw),
        Err(e) => Err(e),
    }
}

/// Issues an access token for `(user_id, username)` that expires
/// `cfg.access_ttl` seconds after `now`. It carries no `"Bearer "` prefix.
pub fn issue_access_token(cfg: &TokenConfig, user_id: i32, username: &str, now: u64) -> (r: String)
    requires
        now + cfg.access_ttl <= u64::MAX,
    ensures
        r@ == jwt_text(cfg.secret@, Some((now + cfg.access_ttl) as u64), None, user_id, username@),
        bearer_stripped(r@) == r@,
{
    sign_claims(cfg.secret.as_str(), Some(now + cfg.access_ttl), None, user_id, username)
}

/// Issues the refresh token of `(user_id, username)` with serial `serial`.
/// Every reading of the text carries that serial, so tokens issued with
/// different serials are different texts. It carries no `"Bearer "` prefix.
pub fn issue_refresh_token(cfg: &TokenConfig, user_id: i32, username: &str, serial: u64) -> (r: String)
    ensures
        r@ == jwt_text(cfg.secret@, None, Some(serial), user_id, username@),
        bearer_stripped(r@) == r@,
        issued_with_serial(r@, serial),
{
    sign_claims(cfg.secret.as_str(), None, Some(serial), user_id, username)
}

/// The expiry boundary of an access token: it is refused once its expiry lies
/// more than the leeway before `now`, and still accepted a second before the
/// leeway runs out.
pub proof fn lemma_expiry_boundary(exp: u64, now: u64)
    ensures
        exp < now - LEEWAY ==> is_expired(exp, now),
        now == exp + LEEWAY - 1 ==> !is_expired(exp, now),
        now <= exp ==> !is_expired(exp, now),
{
}

} // verus!
