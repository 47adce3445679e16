//! The accounts the server creates at start-up from its settings.

use vstd::prelude::*;
use vstd::utf8::encode_utf8;
use crate::crypto::{hash_password, password_matches};
use crate::env::{lookup, nonempty_value, Env};
use crate::opencode::{nonempty_or, setting_or};
use crate::text::{eq_ignore_case, trim};
use crate::auth::{agent_outcome, authorize_check, AuthorizeRequest, UserRow};
use crate::error::ApiError;

verus! {

/// The human account to create.
pub struct HumanSeed {
    pub username: String,
    pub password: String,
    pub name: String,
    pub role: String,
    pub email: String,
}

/// The agent account to create.
pub struct AgentSeed {
    pub username: String,
    pub token: String,
    pub name: String,
    pub role: String,
    pub default_model: String,
}

/// A user row to be stored.
pub struct NewUser {
    pub email: String,
    pub password: String,
    pub username: String,
    pub user_type: String,
    pub role: String,
    pub name: String,
    pub default_model: Option<String>,
    pub token_hash: Option<String>,
}

/// The human account, when both `LYRA_HUMAN_USERNAME` and `LYRA_HUMAN_PASSWORD`
/// are set; name, role and email fall back to `Eyan`, `Owner` and `local@lyra`.
pub fn human_from_env(env: &Env) -> (r: Option<HumanSeed>)
    ensures
        match (
            nonempty_value(lookup(env.vars@, "LYRA_HUMAN_USERNAME"@)),
            nonempty_value(lookup(env.vars@, "LYRA_HUMAN_PASSWORD"@)),
        ) {
            (Some(u), Some(p)) => r matches Some(h) && {
                &&& h.username@ == u
                &&& h.password@ == p
                &&& h.name@ == setting_or(*env, "LYRA_HUMAN_NAME"@, "Eyan"@)
                &&& h.role@ == setting_or(*env, "LYRA_HUMAN_ROLE"@, "Owner"@)
                &&& h.email@ == setting_or(*env, "LYRA_HUMAN_EMAIL"@, "local@lyra"@)
            },
            _ => r is None,
        },
{
    let username: String = env.nonempty("LYRA_HUMAN_USERNAME")?;
    let password: String = env.nonempty("LYRA_HUMAN_PASSWORD")?;
    Some(
        HumanSeed {
            username,
            password,
            name: nonempty_or(env, "LYRA_HUMAN_NAME", "Eyan"),
            role: nonempty_or(env, "LYRA_HUMAN_ROLE", "Owner"),
            email: nonempty_or(env, "LYRA_HUMAN_EMAIL", "local@lyra"),
        },
    )
}

/// The agent account, when both `LYRA_AGENT_USER` and `LYRA_AGENT_TOKEN` are
/// set; name, role and model fall back to `Mark`, `Engineer` and `Grok4.6`.
pub fn agent_from_env(env: &Env) -> (r: Option<AgentSeed>)
    ensures
        match (
            nonempty_value(lookup(env.vars@, "LYRA_AGENT_USER"@)),
            nonempty_value(lookup(env.vars@, "LYRA_AGENT_TOKEN"@)),
        ) {
            (Some(u), Some(t)) => r matches Some(a) && {
                &&& a.username@ == u
                &&& a.token@ == t
                &&& a.name@ == setting_or(*env, "LYRA_AGENT_NAME"@, "Mark"@)
                &&& a.role@ == setting_or(*env, "LYRA_AGENT_ROLE"@, "Engineer"@)
                &&& a.default_model@ == setting_or(
                    *env,
                    "LYRA_AGENT_DEFAULT_MODEL"@,
                    "Grok4.6"@,
                )
            },
            _ => r is None,
        },
{
    let username: String = env.nonempty("LYRA_AGENT_USER")?;
    let token: String = env.nonempty("LYRA_AGENT_TOKEN")?;
    Some(
        AgentSeed {
            username,
            token,
            name: nonempty_or(env, "LYRA_AGENT_NAME", "Mark"),
            role: nonempty_or(env, "LYRA_AGENT_ROLE", "Engineer"),
            default_model: nonempty_or(env, "LYRA_AGENT_DEFAULT_MODEL", "Grok4.6"),
        },
    )
}

/// The OAuth client to register: the trimmed `OAUTH_CLIENT_ID` unless it is unset
/// or blank, named by `OAUTH_CLIENT_NAME` or else `Lyra iOS`.
pub fn oauth_client_from_env(env: &Env) -> (r: Option<(String, String)>)
    ensures
        match lookup(env.vars@, "OAUTH_CLIENT_ID"@) {
            Some(id) => if trim(id).len() > 0 {
                r matches Some(c) && c.0@ == trim(id) && c.1@ == (match lookup(
                    env.vars@,
                    "OAUTH_CLIENT_NAME"@,
                ) {
                    Some(n) => n,
                    None => "Lyra iOS"@,
                })
            } else {
                r is None
            },
            None => r is None,
        },
{
    let id: String = env.var("OAUTH_CLIENT_ID")?;
    let id: String = crate::text::trim_str(id.as_str());
    if id.as_str().unicode_len() == 0 {
        return None;
    }
    let name: String = match env.var("OAUTH_CLIENT_NAME") {
        Some(n) => n,
        None => String::from_str("Lyra iOS"),
    };
    Some((id, name))
}

/// The stored row of the human account, unless a user of that name is already
/// `present`: a `Human` whose password hash verifies against the seeded password.
/// It is created whenever the password fits the hasher's length bound.
pub fn human_user(h: &HumanSeed, present: bool) -> (r: Result<Option<NewUser>, String>)
    ensures
        present ==> r matches Ok(None),
        !present && encode_utf8(h.password@).len() <= 0xFFFF_FFFF ==> r matches Ok(Some(_)),
        !present ==> (r matches Ok(o) ==> o matches Some(u) && {
            &&& u.email@ == h.email@
            &&& password_matches(h.password@, u.password@)
            &&& u.username@ == h.username@
            &&& u.user_type@ == "Human"@
            &&& u.role@ == h.role@
            &&& u.name@ == h.name@
            &&& u.default_model is None
            &&& u.token_hash is None
        }),
{
    if present {
        return Ok(None);
    }
    let hash: String = hash_password(h.password.as_str())?;
    Ok(
        Some(NewUser {
            email: h.email.clone(),
            password: hash,
            username: h.username.clone(),
            user_type: String::from_str("Human"),
            role: h.role.clone(),
            name: h.name.clone(),
            default_model: None,
            token_hash: None,
        }),
    )
}

/// The stored row of the agent account, unless a user of that name is already
/// `present`: an `Agent` at `{username}@agent.lyra` whose password and token hash
/// are one hash that verifies against the token. It is created whenever the
/// token fits the hasher's length bound.
pub fn agent_user(a: &AgentSeed, present: bool) -> (r: Result<Option<NewUser>, String>)
    ensures
        present ==> r matches Ok(None),
        !present && encode_utf8(a.token@).len() <= 0xFFFF_FFFF ==> r matches Ok(Some(_)),
        !present ==> (r matches Ok(o) ==> o matches Some(u) && {
            &&& u.email@ == a.username@ + "@agent.lyra"@
            &&& password_matches(a.token@, u.password@)
            &&& u.token_hash matches Some(t) && t@ == u.password@
            &&& u.username@ == a.username@
            &&& u.user_type@ == "Agent"@
            &&& u.role@ == a.role@
            &&& u.name@ == a.name@
            &&& u.default_model matches Some(m) && m@ == a.default_model@
        }),
{
    if present {
        return Ok(None);
    }
    let hash: String = hash_password(a.token.as_str())?;
    let mut email: String = a.username.clone();
    email.append("@agent.lyra");
    Ok(
        Some(NewUser {
            email,
            password: hash.clone(),
            username: a.username.clone(),
            user_type: String::from_str("Agent"),
            role: a.role.clone(),
            name: a.name.clone(),
            default_model: Some(a.default_model.clone()),
            token_hash: Some(hash),
        }),
    )
}

/// The OAuth client to store, unless one with that id is already `present`.
pub fn client_to_register(client: Option<(String, String)>, present: bool) -> (r: Option<(String, String)>)
    ensures
        present ==> r is None,
        !present ==> r == client,
{
    if present {
        None
    } else {
        client
    }
}

/// A seeded agent is admitted: naming itself by its (trimmed) username and
/// presenting its token as a bearer token, against the row `agent_user` stored
/// (type `Agent`, token hash equal to the password hash, which matches the
/// token), its requests pass `require_agent`.
pub proof fn seeded_agent_is_admitted(raw_username: Seq<char>, token: Seq<char>, row: UserRow)
    requires
        trim(raw_username).len() > 0,
        row.user_type@ == "Agent"@,
        row.token_hash@ == row.password@,
        password_matches(token, row.password@),
    ensures
        agent_outcome(Some(trim(raw_username)), Some("Bearer "@ + token), Some(row)) == Ok::<
            UserRow,
            ApiError,
        >(row),
{
    crate::text::trim_idempotent(raw_username);
    crate::auth::authorization_value_roundtrip(token);
    assert(eq_ignore_case(row.user_type@, "Agent"@));
}

/// A seeded human can sign in: with the S256 method, a known client, and the
/// seeded password against the row `human_user` stored, authorization is granted.
pub proof fn seeded_human_can_sign_in(req: AuthorizeRequest, row: UserRow)
    requires
        req.code_challenge_method@ == "S256"@,
        password_matches(req.password@, row.password@),
    ensures
        authorize_check(req, true, Some(row)) is Ok,
{
}

} // verus!
