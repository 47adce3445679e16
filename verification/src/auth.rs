//! Who may call what: bearer tokens, human and agent checks, and the decisions of
//! the OAuth authorization-code (PKCE S256) and refresh-token grants.

use vstd::prelude::*;
use crate::crypto::{
    password_matches, pkce_challenge, pkce_s256, random_hex, sha256_digest,
    sha256_hex, verify_password,
};
use crate::encoding::{decimal, hex_lower, parse_u64, parse_u64_spec, u64_to_string};
use crate::env::opt_view;
use crate::error::ApiError;
use crate::jwt::Claim;
use crate::text::{
    chars_of, eq_ignore_ascii_case, eq_ignore_case, starts_with, str_eq, string_of,
    strip_prefix, trim, trim_str,
};
use vstd::utf8::encode_utf8;

verus! {

/// How long an authorization code may be exchanged, in seconds.
pub const CODE_TTL_SECS: u64 = 600;

/// How long a refresh token may be used, in seconds (thirty days).
pub const REFRESH_TTL_SECS: u64 = 2592000;

/// The body of `POST /oauth/authorize`.
pub struct AuthorizeRequest {
    pub username: String,
    pub password: String,
    pub client_id: String,
    pub code_challenge: String,
    pub code_challenge_method: String,
}

/// The answer to a granted authorization: a single-use code.
pub struct AuthorizeResponse {
    pub code: String,
}

/// The body of `POST /oauth/token`.
pub struct TokenRequest {
    pub grant_type: String,
    pub client_id: Option<String>,
    pub code: Option<String>,
    pub code_verifier: Option<String>,
    pub refresh_token: Option<String>,
}

/// The tokens handed out by a successful grant.
pub struct TokenResponse {
    pub access_token: String,
    pub refresh_token: String,
    pub token_type: String,
    pub expires_in: u64,
}

/// The body of `GET /current_user`.
pub struct CurrentUserResponse {
    pub id: i64,
    pub username: String,
    pub user_type: String,
    pub role: String,
    pub name: String,
    pub email: String,
}

/// A stored user; absent text columns read as empty.
#[derive(Clone)]
pub struct UserRow {
    pub id: i64,
    pub username: String,
    pub password: String,
    pub user_type: String,
    pub role: String,
    pub name: String,
    pub email: String,
    pub token_hash: String,
    pub default_model: String,
}

// ---------------------------------------------------------------------------
// Bearer tokens and the routes they open
// ---------------------------------------------------------------------------

/// The view of an optional string slice.
pub open spec fn str_opt(v: Option<&str>) -> Option<Seq<char>> {
    match v {
        Some(s) => Some(s@),
        None => None,
    }
}

/// The token of an `Authorization` value: what follows `Bearer ` or `bearer `.
pub open spec fn bearer_of(v: Seq<char>) -> Option<Seq<char>> {
    if starts_with(v, "Bearer "@) {
        Some(v.skip("Bearer "@.len() as int))
    } else if starts_with(v, "bearer "@) {
        Some(v.skip("bearer "@.len() as int))
    } else {
        None
    }
}

/// The bearer token of an optional `Authorization` header.
pub open spec fn header_token(h: Option<Seq<char>>) -> Option<Seq<char>> {
    match h {
        Some(v) => bearer_of(v),
        None => None,
    }
}

/// The bearer token carried by an `Authorization` header value, if any.
pub fn bearer_token(authorization: Option<&str>) -> (r: Option<String>)
    ensures
        opt_view(r) == header_token(str_opt(authorization)),
{
    match authorization {
        None => None,
        Some(v) => {
            let cs: Vec<char> = chars_of(v);
            let upper: Vec<char> = chars_of("Bearer ");
            match strip_prefix(&cs, &upper) {
                Some(rest) => Some(string_of(&rest)),
                None => {
                    let lower: Vec<char> = chars_of("bearer ");
                    match strip_prefix(&cs, &lower) {
                        Some(rest) => Some(string_of(&rest)),
                        None => None,
                    }
                },
            }
        },
    }
}

/// The `Authorization` header value that carries `token`.
pub fn authorization_value(token: &str) -> (r: String)
    ensures
        r@ == "Bearer "@ + token@,
{
    let mut r: String = String::from_str("Bearer ");
    r.append(token);
    r
}

/// The outcome of a route that needs any valid access token: the server must
/// hold a signing secret, the request must carry a bearer token, and that token
/// must decode (`decoded` is what decoding the bearer token gave).
pub open spec fn claim_outcome(
    secret_configured: bool,
    authorization: Option<Seq<char>>,
    decoded: Option<Claim>,
) -> Result<Claim, ApiError> {
    if !secret_configured {
        Err(ApiError::ServerError)
    } else if header_token(authorization) is None {
        Err(ApiError::InvalidToken)
    } else {
        match decoded {
            Some(c) => Ok(c),
            None => Err(ApiError::InvalidToken),
        }
    }
}

/// The outcome of a human-only route: a valid token whose type is `Human`.
pub open spec fn human_outcome(
    secret_configured: bool,
    authorization: Option<Seq<char>>,
    decoded: Option<Claim>,
) -> Result<Claim, ApiError> {
    match claim_outcome(secret_configured, authorization, decoded) {
        Ok(c) => if eq_ignore_case(c.user_type@, "Human"@) {
            Ok(c)
        } else {
            Err(ApiError::NotHuman)
        },
        Err(e) => Err(e),
    }
}

/// Admits a request to a route that needs any valid access token.
pub fn require_claim(
    secret_configured: bool,
    authorization: Option<&str>,
    decoded: Option<Claim>,
) -> (r: Result<Claim, ApiError>)
    ensures
        r == claim_outcome(secret_configured, str_opt(authorization), decoded),
{
    if !secret_configured {
        return Err(ApiError::ServerError);
    }
    match bearer_token(authorization) {
        None => Err(ApiError::InvalidToken),
        Some(_) => match decoded {
            Some(c) => Ok(c),
            None => Err(ApiError::InvalidToken),
        },
    }
}

/// Admits a request to a human-only route.
pub fn require_human(
    secret_configured: bool,
    authorization: Option<&str>,
    decoded: Option<Claim>,
) -> (r: Result<Claim, ApiError>)
    ensures
        r == human_outcome(secret_configured, str_opt(authorization), decoded),
{
    match require_claim(secret_configured, authorization, decoded) {
        Ok(c) => if eq_ignore_ascii_case(c.user_type.as_str(), "Human") {
            Ok(c)
        } else {
            Err(ApiError::NotHuman)
        },
        Err(e) => Err(e),
    }
}

/// A request admitted to a human-only route would be admitted to any route that
/// only needs a valid token, with the same claims.
pub proof fn human_routes_admit_only_valid_tokens(
    secret_configured: bool,
    authorization: Option<Seq<char>>,
    decoded: Option<Claim>,
)
    requires
        human_outcome(secret_configured, authorization, decoded) is Ok,
    ensures
        claim_outcome(secret_configured, authorization, decoded) == human_outcome(
            secret_configured,
            authorization,
            decoded,
        ),
{
}

/// Without a bearer token, every locked route answers `invalid_token` (once the
/// server holds its signing secret), whatever else the request carries.
pub proof fn locked_routes_refuse_missing_tokens(
    authorization: Option<Seq<char>>,
    decoded: Option<Claim>,
)
    requires
        header_token(authorization) is None,
    ensures
        claim_outcome(true, authorization, decoded) == Err::<Claim, ApiError>(
            ApiError::InvalidToken,
        ),
        human_outcome(true, authorization, decoded) == Err::<Claim, ApiError>(
            ApiError::InvalidToken,
        ),
{
}

/// A valid token whose type is not `Human` opens the routes that need any token,
/// and is refused with `not_human` on the human-only ones.
pub proof fn non_humans_are_refused_human_routes(
    secret_configured: bool,
    authorization: Option<Seq<char>>,
    decoded: Option<Claim>,
)
    requires
        claim_outcome(secret_configured, authorization, decoded) matches Ok(c)
            && !eq_ignore_case(c.user_type@, "Human"@),
    ensures
        human_outcome(secret_configured, authorization, decoded) == Err::<Claim, ApiError>(
            ApiError::NotHuman,
        ),
{
}

/// A header made by `authorization_value` gives back its token.
pub proof fn authorization_value_roundtrip(token: Seq<char>)
    ensures
        bearer_of("Bearer "@ + token) == Some(token),
{
    let v = "Bearer "@ + token;
    assert(v.subrange(0, "Bearer "@.len() as int) =~= "Bearer "@);
    assert(v.skip("Bearer "@.len() as int) =~= token);
}

// ---------------------------------------------------------------------------
// Agents
// ---------------------------------------------------------------------------

/// The agent named by an `X-Lyra-User` header: its trimmed value, if not blank.
pub open spec fn agent_name_of(h: Option<Seq<char>>) -> Option<Seq<char>> {
    match h {
        Some(v) => if trim(v).len() > 0 {
            Some(trim(v))
        } else {
            None
        },
        None => None,
    }
}

/// The hash an agent's bearer token is checked against: its token hash, or its
/// password hash when it has none.
pub open spec fn agent_secret(u: UserRow) -> Seq<char> {
    if u.token_hash@.len() == 0 {
        u.password@
    } else {
        u.token_hash@
    }
}

/// The outcome of an agent request: a named user, a bearer token, a stored user
/// of that name (`user`) whose type is `Agent`, and a token that matches its hash.
pub open spec fn agent_outcome(
    username_header: Option<Seq<char>>,
    authorization: Option<Seq<char>>,
    user: Option<UserRow>,
) -> Result<UserRow, ApiError> {
    if agent_name_of(username_header) is None || header_token(authorization) is None {
        Err(ApiError::InvalidToken)
    } else {
        match user {
            None => Err(ApiError::InvalidToken),
            Some(u) => if !eq_ignore_case(u.user_type@, "Agent"@) {
                Err(ApiError::NotAgent)
            } else if !password_matches(header_token(authorization).unwrap(), agent_secret(u)) {
                Err(ApiError::InvalidToken)
            } else {
                Ok(u)
            },
        }
    }
}

/// The agent named by an `X-Lyra-User` header value.
pub fn agent_username(header: Option<&str>) -> (r: Option<String>)
    ensures
        opt_view(r) == agent_name_of(str_opt(header)),
{
    match header {
        Some(v) => {
            let t: String = trim_str(v);
            if t.as_str().unicode_len() > 0 {
                Some(t)
            } else {
                None
            }
        },
        None => None,
    }
}

/// Admits an agent request; `user` is the stored user named by the header.
pub fn require_agent(
    username_header: Option<&str>,
    authorization: Option<&str>,
    user: Option<UserRow>,
) -> (r: Result<UserRow, ApiError>)
    ensures
        r == agent_outcome(str_opt(username_header), str_opt(authorization), user),
{
    if agent_username(username_header).is_none() {
        return Err(ApiError::InvalidToken);
    }
    let token: String = match bearer_token(authorization) {
        Some(t) => t,
        None => {
            return Err(ApiError::InvalidToken);
        },
    };
    match user {
        None => Err(ApiError::InvalidToken),
        Some(u) => {
            if !eq_ignore_ascii_case(u.user_type.as_str(), "Agent") {
                return Err(ApiError::NotAgent);
            }
            let ok: bool = if u.token_hash.as_str().unicode_len() == 0 {
                verify_password(token.as_str(), u.password.as_str())
            } else {
                verify_password(token.as_str(), u.token_hash.as_str())
            };
            if ok {
                Ok(u)
            } else {
                Err(ApiError::InvalidToken)
            }
        },
    }
}

// ---------------------------------------------------------------------------
// Authorization codes
// ---------------------------------------------------------------------------

/// A code to be stored for a granted authorization.
pub struct IssuedCode {
    pub client_id: String,
    pub code: String,
    pub code_challenge: String,
    pub username: String,
    pub expires_at: String,
}

/// The checks of `POST /oauth/authorize`: the S256 method, a known client
/// (`client_known`), an existing user (`user`, looked up by the request's
/// username) and a matching password.
pub open spec fn authorize_check(
    req: AuthorizeRequest,
    client_known: bool,
    user: Option<UserRow>,
) -> Result<(), ApiError> {
    if req.code_challenge_method@ != "S256"@ {
        Err(ApiError::InvalidRequest)
    } else if !client_known {
        Err(ApiError::InvalidClient)
    } else {
        match user {
            None => Err(ApiError::InvalidGrant),
            Some(u) => if password_matches(req.password@, u.password@) {
                Ok(())
            } else {
                Err(ApiError::InvalidGrant)
            },
        }
    }
}

/// Whether the request asks for the S256 challenge method.
pub fn check_challenge_method(req: &AuthorizeRequest) -> (r: Result<(), ApiError>)
    ensures
        r is Ok <==> req.code_challenge_method@ == "S256"@,
        r is Err ==> r == Err::<(), ApiError>(ApiError::InvalidRequest),
{
    if str_eq(req.code_challenge_method.as_str(), "S256") {
        Ok(())
    } else {
        Err(ApiError::InvalidRequest)
    }
}

/// Grants or refuses an authorization at time `now`. A grant is a fresh random
/// code bound to the client, the challenge and the user, expiring
/// `CODE_TTL_SECS` after `now`.
pub fn oauth_authorize(
    req: &AuthorizeRequest,
    client_known: bool,
    user: Option<UserRow>,
    now: u64,
) -> (r: Result<IssuedCode, ApiError>)
    requires
        now + CODE_TTL_SECS <= u64::MAX,
    ensures
        match authorize_check(*req, client_known, user) {
            Err(e) => r == Err::<IssuedCode, ApiError>(e),
            Ok(_) => r matches Ok(c) && {
                &&& c.client_id@ == req.client_id@
                &&& c.code_challenge@ == req.code_challenge@
                &&& c.username@ == req.username@
                &&& c.expires_at@ == decimal((now + CODE_TTL_SECS) as nat)
                &&& c.code@.len() == 64
                &&& exists|b: Seq<u8>| b.len() == 32 && c.code@ == hex_lower(b)
            },
        },
{
    check_challenge_method(req)?;
    if !client_known {
        return Err(ApiError::InvalidClient);
    }
    match user {
        None => Err(ApiError::InvalidGrant),
        Some(u) => {
            if !verify_password(req.password.as_str(), u.password.as_str()) {
                return Err(ApiError::InvalidGrant);
            }
            let code: String = random_hex();
            Ok(
                IssuedCode {
                    client_id: req.client_id.clone(),
                    code,
                    code_challenge: req.code_challenge.clone(),
                    username: req.username.clone(),
                    expires_at: u64_to_string(now + CODE_TTL_SECS),
                },
            )
        },
    }
}

// ---------------------------------------------------------------------------
// Token grants
// ---------------------------------------------------------------------------

/// The grants `POST /oauth/token` supports.
pub enum GrantKind {
    AuthorizationCode,
    RefreshToken,
}

/// The grant named by `grant_type`.
pub fn grant_kind(grant_type: &str) -> (r: Result<GrantKind, ApiError>)
    ensures
        grant_type@ == "authorization_code"@ ==> r matches Ok(GrantKind::AuthorizationCode),
        grant_type@ == "refresh_token"@ ==> r matches Ok(GrantKind::RefreshToken),
        grant_type@ != "authorization_code"@ && grant_type@ != "refresh_token"@ ==> r matches Err(
            ApiError::UnsupportedGrantType,
        ),
{
    proof {
        reveal_strlit("authorization_code");
        reveal_strlit("refresh_token");
        assert("authorization_code"@.len() != "refresh_token"@.len());
    }
    if str_eq(grant_type, "authorization_code") {
        Ok(GrantKind::AuthorizationCode)
    } else if str_eq(grant_type, "refresh_token") {
        Ok(GrantKind::RefreshToken)
    } else {
        Err(ApiError::UnsupportedGrantType)
    }
}

/// What a grant lookup leads to.
pub enum GrantStep<T> {
    /// Refuse with this error; nothing is deleted.
    Refuse(ApiError),
    /// The grant has expired: delete it, then refuse.
    DiscardExpired,
    /// Delete the grant (it is single-use), then issue tokens for this subject.
    Redeem(T),
}

/// A stored expiry, read as `str::parse::<u64>`; an unreadable or zero expiry
/// makes the grant invalid.
pub open spec fn expiry_of(raw: Seq<char>) -> Result<u64, ApiError> {
    match parse_u64_spec(raw) {
        Some(v) => if v == 0 {
            Err(ApiError::InvalidGrant)
        } else {
            Ok(v)
        },
        None => Err(ApiError::InvalidGrant),
    }
}

/// Reads a stored expiry.
pub fn parse_expiry(raw: &str) -> (r: Result<u64, ApiError>)
    ensures
        r == expiry_of(raw@),
{
    match parse_u64(raw) {
        Some(v) => if v == 0 {
            Err(ApiError::InvalidGrant)
        } else {
            Ok(v)
        },
        None => Err(ApiError::InvalidGrant),
    }
}

/// The fields an authorization-code grant needs.
pub struct CodeExchange {
    pub code: String,
    pub verifier: String,
    pub client_id: String,
}

/// A stored authorization code.
#[derive(Clone)]
pub struct CodeRow {
    pub code_challenge: String,
    pub username: String,
    pub expires_at: String,
    pub client_id: String,
}

/// The fields of an authorization-code grant, all of which must be present.
pub fn code_exchange_fields(req: &TokenRequest) -> (r: Result<CodeExchange, ApiError>)
    ensures
        (req.code is Some && req.code_verifier is Some && req.client_id is Some) <==> r is Ok,
        r matches Ok(x) ==> {
            &&& x.code@ == req.code.unwrap()@
            &&& x.verifier@ == req.code_verifier.unwrap()@
            &&& x.client_id@ == req.client_id.unwrap()@
        },
        r is Err ==> r matches Err(ApiError::InvalidRequest),
{
    match (&req.code, &req.code_verifier, &req.client_id) {
        (Some(code), Some(verifier), Some(client_id)) => Ok(
            CodeExchange {
                code: code.clone(),
                verifier: verifier.clone(),
                client_id: client_id.clone(),
            },
        ),
        _ => Err(ApiError::InvalidRequest),
    }
}

/// The step an authorization-code grant takes at time `now`, given the stored
/// code `row` (if any): the code must exist, belong to the same client, carry a
/// readable expiry that has not passed, and its challenge must be the S256
/// challenge of the presented verifier.
pub open spec fn code_step(ex: CodeExchange, row: Option<CodeRow>, now: u64) -> GrantStep<
    String,
> {
    match row {
        None => GrantStep::Refuse(ApiError::InvalidGrant),
        Some(r) => if r.client_id@ != ex.client_id@ {
            GrantStep::Refuse(ApiError::InvalidClient)
        } else {
            match expiry_of(r.expires_at@) {
                Err(e) => GrantStep::Refuse(e),
                Ok(exp) => if now > exp {
                    GrantStep::DiscardExpired
                } else if pkce_challenge(ex.verifier@) != r.code_challenge@ {
                    GrantStep::Refuse(ApiError::InvalidGrant)
                } else {
                    GrantStep::Redeem(r.username)
                },
            }
        },
    }
}

/// Decides an authorization-code grant.
pub fn redeem_code(ex: &CodeExchange, row: Option<CodeRow>, now: u64) -> (r: GrantStep<String>)
    ensures
        r == code_step(*ex, row, now),
{
    match row {
        None => GrantStep::Refuse(ApiError::InvalidGrant),
        Some(r) => {
            if !str_eq(r.client_id.as_str(), ex.client_id.as_str()) {
                return GrantStep::Refuse(ApiError::InvalidClient);
            }
            let exp: u64 = match parse_expiry(r.expires_at.as_str()) {
                Ok(v) => v,
                Err(e) => {
                    return GrantStep::Refuse(e);
                },
            };
            if now > exp {
                return GrantStep::DiscardExpired;
            }
            let challenge: String = pkce_s256(ex.verifier.as_str());
            if !str_eq(challenge.as_str(), r.code_challenge.as_str()) {
                return GrantStep::Refuse(ApiError::InvalidGrant);
            }
            GrantStep::Redeem(r.username)
        },
    }
}

/// The row stored under `key`, if any.
pub open spec fn row_in<R>(table: Map<Seq<char>, R>, key: Seq<char>) -> Option<R> {
    if table.dom().contains(key) {
        Some(table[key])
    } else {
        None
    }
}

/// An authorization code is single-use: once a grant has redeemed it (or
/// discarded it as expired) and it is deleted, presenting it again is refused
/// with `invalid_grant`, whatever the time.
pub proof fn code_is_single_use(
    table: Map<Seq<char>, CodeRow>,
    ex: CodeExchange,
    now: u64,
    later: u64,
)
    requires
        code_step(ex, row_in(table, ex.code@), now) !is Refuse,
    ensures
        code_step(ex, row_in(table.remove(ex.code@), ex.code@), later) == GrantStep::<String>::Refuse(
            ApiError::InvalidGrant,
        ),
{
}

/// A redeemed code was issued to the same client, had not expired, and was
/// bound to the S256 challenge of the presented verifier.
pub proof fn redeemed_code_matches_its_challenge(ex: CodeExchange, row: Option<CodeRow>, now: u64)
    requires
        code_step(ex, row, now) is Redeem,
    ensures
        row matches Some(r) && {
            &&& r.client_id@ == ex.client_id@
            &&& pkce_challenge(ex.verifier@) == r.code_challenge@
            &&& expiry_of(r.expires_at@) matches Ok(exp) && now <= exp
        },
{
}

/// A code granted at time `granted` (stored with the expiry `oauth_authorize`
/// gives it) is redeemed by the same client presenting a verifier whose S256
/// challenge it carries, until `CODE_TTL_SECS` have passed; after that it is
/// discarded as expired.
pub proof fn granted_code_is_redeemable(row: CodeRow, ex: CodeExchange, granted: u64, now: u64)
    requires
        granted + CODE_TTL_SECS <= u64::MAX,
        row.expires_at@ == decimal((granted + CODE_TTL_SECS) as nat),
        row.client_id@ == ex.client_id@,
        pkce_challenge(ex.verifier@) == row.code_challenge@,
    ensures
        now <= granted + CODE_TTL_SECS ==> code_step(ex, Some(row), now) == GrantStep::Redeem(
            row.username,
        ),
        now > granted + CODE_TTL_SECS ==> code_step(ex, Some(row), now)
            == GrantStep::<String>::DiscardExpired,
{
    crate::encoding::decimal_parse_roundtrip((granted + CODE_TTL_SECS) as u64);
}

/// A refresh token issued at time `issued` (stored with the expiry
/// `new_refresh_token` gives it) is redeemed for its user until
/// `REFRESH_TTL_SECS` have passed; after that it is discarded as expired.
pub proof fn issued_refresh_is_redeemable(row: RefreshRow, username: String, issued: u64, now: u64)
    requires
        issued + REFRESH_TTL_SECS <= u64::MAX,
        row.expires_at@ == decimal((issued + REFRESH_TTL_SECS) as nat),
    ensures
        now <= issued + REFRESH_TTL_SECS ==> refresh_step(Some(row), Some(username), now)
            == GrantStep::Redeem(username),
        now > issued + REFRESH_TTL_SECS ==> refresh_step(Some(row), Some(username), now)
            == GrantStep::<String>::DiscardExpired,
{
    crate::encoding::decimal_parse_roundtrip((issued + REFRESH_TTL_SECS) as u64);
}

/// A code stored with the expiry `0` is never redeemed.
pub proof fn zero_expiry_is_invalid_grant(ex: CodeExchange, row: CodeRow, now: u64)
    requires
        row.client_id@ == ex.client_id@,
        row.expires_at@ == seq!['0'],
    ensures
        code_step(ex, Some(row), now) == GrantStep::<String>::Refuse(ApiError::InvalidGrant),
{
    let raw = row.expires_at@;
    assert(raw.drop_last() =~= Seq::<char>::empty());
    assert(crate::encoding::digits_value(raw.drop_last()) == 0);
    assert(crate::encoding::digits_value(raw) == 0);
    assert(crate::encoding::all_digits(raw));
}

// ---------------------------------------------------------------------------
// Refresh tokens
// ---------------------------------------------------------------------------

/// A stored refresh token, keyed by the SHA-256 of the token.
#[derive(Clone)]
pub struct RefreshRow {
    pub user_id: i64,
    pub expires_at: String,
}

/// The key a refresh token is stored under: its lower-case hex SHA-256.
pub open spec fn refresh_key(token: Seq<char>) -> Seq<char> {
    hex_lower(sha256_digest(encode_utf8(token)))
}

/// The storage key of the refresh token of a refresh grant.
pub fn refresh_lookup_key(req: &TokenRequest) -> (r: Result<String, ApiError>)
    ensures
        match req.refresh_token {
            Some(t) => r matches Ok(k) && k@ == refresh_key(t@),
            None => r matches Err(ApiError::InvalidRequest),
        },
{
    match &req.refresh_token {
        Some(t) => Ok(sha256_hex(t.as_str())),
        None => Err(ApiError::InvalidRequest),
    }
}

/// The step a refresh grant takes at time `now`, given the stored token `row`
/// and the username of its user (`username`): the token must exist with a
/// readable expiry that has not passed, and its user must still exist.
pub open spec fn refresh_step(row: Option<RefreshRow>, username: Option<String>, now: u64) -> GrantStep<
    String,
> {
    match row {
        None => GrantStep::Refuse(ApiError::InvalidGrant),
        Some(r) => match expiry_of(r.expires_at@) {
            Err(e) => GrantStep::Refuse(e),
            Ok(exp) => if now > exp {
                GrantStep::DiscardExpired
            } else {
                match username {
                    Some(u) => GrantStep::Redeem(u),
                    None => GrantStep::Refuse(ApiError::InvalidGrant),
                }
            },
        },
    }
}

/// Decides a refresh grant.
pub fn redeem_refresh(row: Option<RefreshRow>, username: Option<String>, now: u64) -> (r: GrantStep<
    String,
>)
    ensures
        r == refresh_step(row, username, now),
{
    match row {
        None => GrantStep::Refuse(ApiError::InvalidGrant),
        Some(r) => {
            let exp: u64 = match parse_expiry(r.expires_at.as_str()) {
                Ok(v) => v,
                Err(e) => {
                    return GrantStep::Refuse(e);
                },
            };
            if now > exp {
                return GrantStep::DiscardExpired;
            }
            match username {
                Some(u) => GrantStep::Redeem(u),
                None => GrantStep::Refuse(ApiError::InvalidGrant),
            }
        },
    }
}

/// A refresh token is consumed by use: once redeemed (or discarded as expired)
/// and deleted, presenting it again is refused with `invalid_grant`.
pub proof fn refresh_is_single_use(
    table: Map<Seq<char>, RefreshRow>,
    token: Seq<char>,
    username: Option<String>,
    later_username: Option<String>,
    now: u64,
    later: u64,
)
    requires
        refresh_step(row_in(table, refresh_key(token)), username, now) !is Refuse,
    ensures
        refresh_step(
            row_in(table.remove(refresh_key(token)), refresh_key(token)),
            later_username,
            later,
        ) == GrantStep::<String>::Refuse(ApiError::InvalidGrant),
{
}

/// What deleting a redeemed grant means: a storage failure is a server error, and
/// a grant that another request deleted first is invalid.
pub fn consume_outcome(deleted: Option<u64>) -> (r: Result<(), ApiError>)
    ensures
        deleted is None ==> r == Err::<(), ApiError>(ApiError::ServerError),
        deleted == Some(0u64) ==> r == Err::<(), ApiError>(ApiError::InvalidGrant),
        (deleted matches Some(n) && n > 0) ==> r is Ok,
{
    match deleted {
        None => Err(ApiError::ServerError),
        Some(n) => if n == 0 {
            Err(ApiError::InvalidGrant)
        } else {
            Ok(())
        },
    }
}

/// The answer to an expired grant after trying to delete it: a storage failure is
/// a server error; otherwise the grant is invalid.
pub fn discard_outcome(deleted: Option<u64>) -> (r: ApiError)
    ensures
        deleted is None ==> r == ApiError::ServerError,
        deleted is Some ==> r == ApiError::InvalidGrant,
{
    match deleted {
        None => ApiError::ServerError,
        Some(_) => ApiError::InvalidGrant,
    }
}

/// A refresh token to hand out, the key it is stored under, and its expiry.
pub struct IssuedRefresh {
    pub token: String,
    pub token_hash: String,
    pub expires_at: String,
}

/// A fresh random refresh token issued at `now`, valid for `REFRESH_TTL_SECS`.
pub fn new_refresh_token(now: u64) -> (r: IssuedRefresh)
    requires
        now + REFRESH_TTL_SECS <= u64::MAX,
    ensures
        r.token@.len() == 64,
        exists|b: Seq<u8>| b.len() == 32 && r.token@ == hex_lower(b),
        r.token_hash@ == refresh_key(r.token@),
        r.expires_at@ == decimal((now + REFRESH_TTL_SECS) as nat),
{
    let token: String = random_hex();
    let token_hash: String = sha256_hex(token.as_str());
    IssuedRefresh { token, token_hash, expires_at: u64_to_string(now + REFRESH_TTL_SECS) }
}

/// The checks before tokens are issued to `user` (looked up by the redeemed
/// username) at time `now`: the server must hold a signing secret and the user
/// must still exist; a fresh refresh token is then drawn.
pub fn issue_tokens(secret_configured: bool, user: Option<UserRow>, now: u64) -> (r: Result<
    (UserRow, IssuedRefresh),
    ApiError,
>)
    requires
        now + REFRESH_TTL_SECS <= u64::MAX,
    ensures
        !secret_configured ==> r == Err::<(UserRow, IssuedRefresh), ApiError>(ApiError::ServerError),
        secret_configured && user is None ==> r == Err::<(UserRow, IssuedRefresh), ApiError>(
            ApiError::InvalidGrant,
        ),
        secret_configured && user is Some ==> (r matches Ok(p) && {
            &&& p.0 == user.unwrap()
            &&& p.1.token@.len() == 64
            &&& exists|b: Seq<u8>| b.len() == 32 && p.1.token@ == hex_lower(b)
            &&& p.1.token_hash@ == refresh_key(p.1.token@)
            &&& p.1.expires_at@ == decimal((now + REFRESH_TTL_SECS) as nat)
        }),
{
    if !secret_configured {
        return Err(ApiError::ServerError);
    }
    match user {
        None => Err(ApiError::InvalidGrant),
        Some(u) => Ok((u, new_refresh_token(now))),
    }
}

/// The `GET /current_user` outcome: the caller's token must pass
/// `require_claim` (`auth`), and the user it names must still exist (`user`).
pub fn current_user(auth: Result<Claim, ApiError>, user: Option<UserRow>) -> (r: Result<
    CurrentUserResponse,
    ApiError,
>)
    ensures
        match auth {
            Err(e) => r == Err::<CurrentUserResponse, ApiError>(e),
            Ok(_) => match user {
                None => r == Err::<CurrentUserResponse, ApiError>(ApiError::InvalidToken),
                Some(u) => r matches Ok(c) && c.id == u.id && c.username == u.username
                    && c.user_type == u.user_type && c.role == u.role && c.name == u.name
                    && c.email == u.email,
            },
        },
{
    match auth {
        Err(e) => Err(e),
        Ok(_) => match user {
            None => Err(ApiError::InvalidToken),
            Some(u) => Ok(current_user_response(u)),
        },
    }
}

/// The token answer: the access token, the refresh token, type `Bearer`, and the
/// access token's lifetime.
pub fn token_response(access_token: String, refresh_token: String) -> (r: TokenResponse)
    ensures
        r.access_token@ == access_token@,
        r.refresh_token@ == refresh_token@,
        r.token_type@ == "Bearer"@,
        r.expires_in == crate::jwt::ACCESS_TTL_SECS,
{
    TokenResponse {
        access_token,
        refresh_token,
        token_type: String::from_str("Bearer"),
        expires_in: crate::jwt::ACCESS_TTL_SECS,
    }
}

/// The `GET /current_user` answer for a stored user.
pub fn current_user_response(user: UserRow) -> (r: CurrentUserResponse)
    ensures
        r.id == user.id,
        r.username == user.username,
        r.user_type == user.user_type,
        r.role == user.role,
        r.name == user.name,
        r.email == user.email,
{
    CurrentUserResponse {
        id: user.id,
        username: user.username,
        user_type: user.user_type,
        role: user.role,
        name: user.name,
        email: user.email,
    }
}

} // verus!
