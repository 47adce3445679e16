use lyra::auth::{
    agent_username, authorization_value, bearer_token, check_challenge_method,
    code_exchange_fields, consume_outcome, current_user_response, discard_outcome, grant_kind,
    new_refresh_token, oauth_authorize, parse_expiry, redeem_code, redeem_refresh,
    refresh_lookup_key, require_agent, require_claim, require_human, token_response,
    AuthorizeRequest, CodeRow, GrantKind, GrantStep, RefreshRow, TokenRequest, UserRow,
    CODE_TTL_SECS, REFRESH_TTL_SECS,
};
use lyra::crypto::{hash_password, pkce_s256, sha256_hex};
use lyra::error::ApiError;
use lyra::jwt::{access_claim, now_secs, Claim};

fn human_row(hash: String) -> UserRow {
    UserRow {
        id: 1,
        username: "eyan".into(),
        password: hash,
        user_type: "Human".into(),
        role: "Owner".into(),
        name: "Eyan".into(),
        email: "eyan@local".into(),
        token_hash: String::new(),
        default_model: String::new(),
    }
}

fn authorize_request(password: &str, challenge: &str, method: &str) -> AuthorizeRequest {
    AuthorizeRequest {
        username: "eyan".into(),
        password: password.into(),
        client_id: "lyra-ios".into(),
        code_challenge: challenge.into(),
        code_challenge_method: method.into(),
    }
}

fn code_request(code: &str, verifier: &str, client: &str) -> TokenRequest {
    TokenRequest {
        grant_type: "authorization_code".into(),
        client_id: Some(client.into()),
        code: Some(code.into()),
        code_verifier: Some(verifier.into()),
        refresh_token: None,
    }
}

fn claim(user_type: &str) -> Claim {
    access_claim(1000, "eyan", user_type, "Owner", "Eyan")
}

#[test]
fn bearer_token_reads_both_spellings() {
    assert_eq!(bearer_token(Some("Bearer abc")), Some("abc".to_string()));
    assert_eq!(bearer_token(Some("bearer abc")), Some("abc".to_string()));
    assert_eq!(bearer_token(Some("Bearer ")), Some(String::new()));
    assert_eq!(bearer_token(Some("Basic abc")), None);
    assert_eq!(bearer_token(Some("BEARER abc")), None);
    assert_eq!(bearer_token(None), None);
    assert_eq!(bearer_token(Some(authorization_value("tok").as_str())), Some("tok".to_string()));
}

#[test]
fn locked_route_without_token_is_invalid_token() {
    let err = require_claim(true, None, None).unwrap_err();
    assert_eq!(err, ApiError::InvalidToken);
    assert_eq!(err.status_code(), 401);
    assert_eq!(err.body().error, "invalid_token");
    assert_eq!(require_claim(true, Some("Bearer x"), None).unwrap_err(), ApiError::InvalidToken);
    assert_eq!(require_claim(false, Some("Bearer x"), Some(claim("Human"))).unwrap_err(), ApiError::ServerError);
    let c = require_claim(true, Some("Bearer x"), Some(claim("Agent"))).unwrap();
    assert_eq!(c.user_type, "Agent");
}

#[test]
fn human_only_route_refuses_agents() {
    let err = require_human(true, Some("Bearer x"), Some(claim("Agent"))).unwrap_err();
    assert_eq!(err, ApiError::NotHuman);
    assert_eq!(err.status_code(), 403);
    assert_eq!(err.code_string(), "not_human");
    assert!(require_human(true, Some("Bearer x"), Some(claim("Human"))).is_ok());
    assert!(require_human(true, Some("Bearer x"), Some(claim("human"))).is_ok());
    assert_eq!(require_human(true, None, Some(claim("Human"))).unwrap_err(), ApiError::InvalidToken);
}

#[test]
fn access_claim_expires_in_an_hour() {
    let c = access_claim(1000, "eyan", "Human", "Owner", "Eyan");
    assert_eq!(c.sub, "eyan");
    assert_eq!(c.username, "eyan");
    assert_eq!(c.iat, 1000);
    assert_eq!(c.exp, 4600);
    assert!(now_secs() > 1_600_000_000);
}

#[test]
fn pkce_login_flow_redeems_once() {
    let user = human_row(hash_password("secret-pass").unwrap());
    let verifier = "pkce-verifier-value-that-is-long-enough";
    let challenge = pkce_s256(verifier);
    let req = authorize_request("secret-pass", &challenge, "S256");
    let issued = oauth_authorize(&req, true, Some(user), 1000).unwrap();
    assert_eq!(issued.code.len(), 64);
    assert_eq!(issued.expires_at, (1000 + CODE_TTL_SECS).to_string());
    assert_eq!(issued.username, "eyan");
    assert_eq!(issued.client_id, "lyra-ios");

    let row = CodeRow {
        code_challenge: issued.code_challenge.clone(),
        username: issued.username.clone(),
        expires_at: issued.expires_at.clone(),
        client_id: issued.client_id.clone(),
    };
    let ex = code_exchange_fields(&code_request(&issued.code, verifier, "lyra-ios")).unwrap();
    match redeem_code(&ex, Some(row.clone()), 1500) {
        GrantStep::Redeem(u) => assert_eq!(u, "eyan"),
        _ => panic!("expected the code to be redeemed"),
    }
    // once redeemed the code is deleted, and presenting it again is refused
    assert!(matches!(redeem_code(&ex, None, 1500), GrantStep::Refuse(ApiError::InvalidGrant)));
    // expired codes are discarded
    assert!(matches!(redeem_code(&ex, Some(row.clone()), 1601), GrantStep::DiscardExpired));
    // a wrong verifier is refused
    let bad = code_exchange_fields(&code_request(&issued.code, "other", "lyra-ios")).unwrap();
    assert!(matches!(redeem_code(&bad, Some(row.clone()), 1500), GrantStep::Refuse(ApiError::InvalidGrant)));
    // another client is refused
    let other = code_exchange_fields(&code_request(&issued.code, verifier, "web")).unwrap();
    assert!(matches!(redeem_code(&other, Some(row), 1500), GrantStep::Refuse(ApiError::InvalidClient)));
}

#[test]
fn authorize_refusals() {
    let user = human_row(hash_password("secret-pass").unwrap());
    let err = oauth_authorize(&authorize_request("nope", "abc", "S256"), true, Some(user.clone()), 10)
        .err()
        .unwrap();
    assert_eq!(err, ApiError::InvalidGrant);
    assert_eq!(err.status_code(), 401);
    let err = oauth_authorize(&authorize_request("secret-pass", "abc", "plain"), true, Some(user.clone()), 10)
        .err()
        .unwrap();
    assert_eq!(err, ApiError::InvalidRequest);
    assert_eq!(err.status_code(), 400);
    let err = oauth_authorize(&authorize_request("secret-pass", "abc", "S256"), false, Some(user), 10)
        .err()
        .unwrap();
    assert_eq!(err, ApiError::InvalidClient);
    let err = oauth_authorize(&authorize_request("secret-pass", "abc", "S256"), true, None, 10)
        .err()
        .unwrap();
    assert_eq!(err, ApiError::InvalidGrant);
    assert!(check_challenge_method(&authorize_request("p", "c", "S256")).is_ok());
}

#[test]
fn zero_or_unreadable_expiry_is_invalid_grant() {
    let ex = code_exchange_fields(&code_request("dead-code", "unused", "lyra-ios")).unwrap();
    let row = CodeRow {
        code_challenge: "challenge".into(),
        username: "eyan".into(),
        expires_at: "0".into(),
        client_id: "lyra-ios".into(),
    };
    assert!(matches!(redeem_code(&ex, Some(row), 5), GrantStep::Refuse(ApiError::InvalidGrant)));
    assert_eq!(parse_expiry("0"), Err(ApiError::InvalidGrant));
    assert_eq!(parse_expiry("soon"), Err(ApiError::InvalidGrant));
    assert_eq!(parse_expiry("1600"), Ok(1600));
}

#[test]
fn token_requests_need_their_fields() {
    let mut req = code_request("c", "v", "lyra-ios");
    req.code_verifier = None;
    assert_eq!(code_exchange_fields(&req).err().unwrap(), ApiError::InvalidRequest);
    assert!(matches!(grant_kind("authorization_code"), Ok(GrantKind::AuthorizationCode)));
    assert!(matches!(grant_kind("refresh_token"), Ok(GrantKind::RefreshToken)));
    assert!(matches!(grant_kind("password"), Err(ApiError::UnsupportedGrantType)));
    assert_eq!(refresh_lookup_key(&req).err().unwrap(), ApiError::InvalidRequest);
}

#[test]
fn refresh_tokens_are_consumed() {
    let issued = new_refresh_token(2000);
    assert_eq!(issued.token.len(), 64);
    assert_eq!(issued.token_hash, sha256_hex(&issued.token));
    assert_eq!(issued.expires_at, (2000 + REFRESH_TTL_SECS).to_string());
    let req = TokenRequest {
        grant_type: "refresh_token".into(),
        client_id: None,
        code: None,
        code_verifier: None,
        refresh_token: Some(issued.token.clone()),
    };
    assert_eq!(refresh_lookup_key(&req).unwrap(), issued.token_hash);
    let row = RefreshRow { user_id: 1, expires_at: issued.expires_at.clone() };
    match redeem_refresh(Some(row.clone()), Some("eyan".into()), 3000) {
        GrantStep::Redeem(u) => assert_eq!(u, "eyan"),
        _ => panic!("expected the refresh token to be redeemed"),
    }
    assert!(matches!(redeem_refresh(None, Some("eyan".into()), 3000), GrantStep::Refuse(ApiError::InvalidGrant)));
    assert!(matches!(redeem_refresh(Some(row.clone()), None, 3000), GrantStep::Refuse(ApiError::InvalidGrant)));
    assert!(matches!(
        redeem_refresh(Some(row), Some("eyan".into()), 2000 + REFRESH_TTL_SECS + 1),
        GrantStep::DiscardExpired
    ));
}

#[test]
fn deleting_a_grant() {
    assert_eq!(consume_outcome(None), Err(ApiError::ServerError));
    assert_eq!(consume_outcome(Some(0)), Err(ApiError::InvalidGrant));
    assert_eq!(consume_outcome(Some(1)), Ok(()));
    assert_eq!(discard_outcome(None), ApiError::ServerError);
    assert_eq!(discard_outcome(Some(1)), ApiError::InvalidGrant);
    assert_eq!(ApiError::ServerError.status_code(), 500);
}

#[test]
fn token_response_is_bearer() {
    let t = token_response("a".into(), "r".into());
    assert_eq!(t.token_type, "Bearer");
    assert_eq!(t.expires_in, 3600);
    assert_eq!(t.access_token, "a");
    assert_eq!(t.refresh_token, "r");
}

#[test]
fn agents_authenticate_with_their_token() {
    let hash = hash_password("agent-token").unwrap();
    let agent = UserRow {
        id: 2,
        username: "mark-eng".into(),
        password: hash.clone(),
        user_type: "Agent".into(),
        role: "Engineer".into(),
        name: "Mark".into(),
        email: "mark@agent.lyra".into(),
        token_hash: hash,
        default_model: "Grok4.6".into(),
    };
    assert_eq!(agent_username(Some("  mark-eng ")), Some("mark-eng".to_string()));
    assert_eq!(agent_username(Some("   ")), None);
    let ok = require_agent(Some("mark-eng"), Some("Bearer agent-token"), Some(agent.clone())).unwrap();
    assert_eq!(ok.name, "Mark");
    assert_eq!(
        require_agent(None, Some("Bearer agent-token"), Some(agent.clone())).err().unwrap(),
        ApiError::InvalidToken
    );
    assert_eq!(
        require_agent(Some("mark-eng"), Some("Bearer wrong"), Some(agent.clone())).err().unwrap(),
        ApiError::InvalidToken
    );
    assert_eq!(
        require_agent(Some("mark-eng"), Some("Bearer agent-token"), None).err().unwrap(),
        ApiError::InvalidToken
    );
    let mut human = agent.clone();
    human.user_type = "Human".into();
    let err = require_agent(Some("mark-eng"), Some("Bearer agent-token"), Some(human)).err().unwrap();
    assert_eq!(err, ApiError::NotAgent);
    assert_eq!(err.status_code(), 403);
    // without a token hash the password hash is used
    let mut legacy = agent;
    legacy.token_hash = String::new();
    assert!(require_agent(Some("mark-eng"), Some("bearer agent-token"), Some(legacy)).is_ok());
}

#[test]
fn current_user_copies_the_row() {
    let r = current_user_response(human_row("h".into()));
    assert_eq!(r.id, 1);
    assert_eq!(r.username, "eyan");
    assert_eq!(r.user_type, "Human");
    assert_eq!(r.role, "Owner");
    assert_eq!(r.name, "Eyan");
    assert_eq!(r.email, "eyan@local");
}
