//! Handing a new ticket to an OpenCode agent: its settings, the prompt it gets,
//! the URLs it is reached at, and what a failed hand-off leaves behind.

use vstd::prelude::*;
use crate::encoding::{decimal_signed, i64_to_string};
use crate::env::{lookup, nonempty_value, Env};
use crate::text::{chars_of, replace, replace_all, string_of_range};
use crate::tickets::{status_after, status_after_event, system_comment, NewComment, TicketEvent};

verus! {

/// The prompt a new ticket is dispatched with; the braced names are filled in.
pub const OPENCODE_DISPATCH_PROMPT: &'static str = "\
You are {agent_name}, role {agent_role} (type Agent).
Project: {project_name}
Project description: {project_description}
Ticket #{ticket_id}: {ticket_name}
Task: {ticket_description}

Do the work in this repo. Comment a short markdown summary via Lyra MCP, \
set ticket status awaiting_you. Do not open a PR until asked.";

/// How to reach OpenCode and whom the agent is.
pub struct OpenCodeConfig {
    pub base_url: String,
    pub username: String,
    pub password: String,
    pub model: String,
    pub agent_name: String,
    pub agent_role: String,
}

/// What the prompt says of a ticket and its project.
pub struct TicketContext {
    pub ticket_name: String,
    pub ticket_description: String,
    pub project_name: String,
    pub project_description: String,
}

/// `s` without any trailing `c` (`str::trim_end_matches` with a character).
pub open spec fn trim_end_char(s: Seq<char>, c: char) -> Seq<char>
    decreases s.len(),
{
    if s.len() > 0 && s.last() == c {
        trim_end_char(s.drop_last(), c)
    } else {
        s
    }
}

/// `s` without any trailing `c`.
pub fn trim_end_matches(s: &str, c: char) -> (r: String)
    ensures
        r@ == trim_end_char(s@, c),
{
    let cs: Vec<char> = chars_of(s);
    let mut b: usize = cs.len();
    assert(cs@.subrange(0, b as int) =~= cs@);
    while b > 0 && cs[b - 1] == c
        invariant
            b <= cs@.len(),
            trim_end_char(s@, c) == trim_end_char(cs@.subrange(0, b as int), c),
            cs@ == s@,
        decreases b,
    {
        assert(cs@.subrange(0, b as int).drop_last() =~= cs@.subrange(0, b - 1));
        b = b - 1;
    }
    string_of_range(&cs, 0, b)
}

/// A setting's value, or `default` when it is unset or blank.
pub open spec fn setting_or(env: Env, key: Seq<char>, default: Seq<char>) -> Seq<char> {
    match nonempty_value(lookup(env.vars@, key)) {
        Some(v) => v,
        None => default,
    }
}

pub(crate) fn nonempty_or(env: &Env, key: &str, default: &str) -> (r: String)
    ensures
        r@ == setting_or(*env, key@, default@),
{
    match env.nonempty(key) {
        Some(v) => v,
        None => String::from_str(default),
    }
}

impl OpenCodeConfig {
    /// The OpenCode settings, present when `OPENCODE_BASE_URL` is set: the base
    /// URL without trailing `/`, and the other settings or their defaults.
    pub fn from_env(env: &Env) -> (r: Option<OpenCodeConfig>)
        ensures
            match nonempty_value(lookup(env.vars@, "OPENCODE_BASE_URL"@)) {
                None => r is None,
                Some(base) => r matches Some(c) && {
                    &&& c.base_url@ == trim_end_char(base, '/')
                    &&& c.username@ == setting_or(*env, "OPENCODE_SERVER_USERNAME"@, "opencode"@)
                    &&& c.password@ == setting_or(*env, "OPENCODE_SERVER_PASSWORD"@, Seq::empty())
                    &&& c.model@ == setting_or(*env, "LYRA_AGENT_DEFAULT_MODEL"@, "Grok4.6"@)
                    &&& c.agent_name@ == setting_or(*env, "LYRA_AGENT_NAME"@, "Mark"@)
                    &&& c.agent_role@ == setting_or(*env, "LYRA_AGENT_ROLE"@, "Engineer"@)
                },
            },
    {
        let base: String = match env.nonempty("OPENCODE_BASE_URL") {
            Some(b) => b,
            None => {
                return None;
            },
        };
        let password: String = match env.nonempty("OPENCODE_SERVER_PASSWORD") {
            Some(p) => p,
            None => String::new(),
        };
        Some(
            OpenCodeConfig {
                base_url: trim_end_matches(base.as_str(), '/'),
                username: nonempty_or(env, "OPENCODE_SERVER_USERNAME", "opencode"),
                password,
                model: nonempty_or(env, "LYRA_AGENT_DEFAULT_MODEL", "Grok4.6"),
                agent_name: nonempty_or(env, "LYRA_AGENT_NAME", "Mark"),
                agent_role: nonempty_or(env, "LYRA_AGENT_ROLE", "Engineer"),
            },
        )
    }
}

/// The dispatch prompt for a ticket: the template with each placeholder
/// replaced, in order, by the agent's name and role, the project's name and
/// description, the ticket id, and the ticket's name and description.
pub open spec fn prompt_text(ctx: TicketContext, cfg: OpenCodeConfig, ticket_id: i64) -> Seq<char> {
    let t0 = OPENCODE_DISPATCH_PROMPT@;
    let t1 = replace_all(t0, "{agent_name}"@, cfg.agent_name@);
    let t2 = replace_all(t1, "{agent_role}"@, cfg.agent_role@);
    let t3 = replace_all(t2, "{project_name}"@, ctx.project_name@);
    let t4 = replace_all(t3, "{project_description}"@, ctx.project_description@);
    let t5 = replace_all(t4, "{ticket_id}"@, decimal_signed(ticket_id as int));
    let t6 = replace_all(t5, "{ticket_name}"@, ctx.ticket_name@);
    replace_all(t6, "{ticket_description}"@, ctx.ticket_description@)
}

/// Builds the dispatch prompt for a ticket.
pub fn build_prompt_with_id(ctx: &TicketContext, cfg: &OpenCodeConfig, ticket_id: i64) -> (r:
    String)
    ensures
        r@ == prompt_text(*ctx, *cfg, ticket_id),
{
    proof {
        reveal_strlit("{agent_name}");
        reveal_strlit("{agent_role}");
        reveal_strlit("{project_name}");
        reveal_strlit("{project_description}");
        reveal_strlit("{ticket_id}");
        reveal_strlit("{ticket_name}");
        reveal_strlit("{ticket_description}");
    }
    let t1: String = replace(OPENCODE_DISPATCH_PROMPT, "{agent_name}", cfg.agent_name.as_str());
    let t2: String = replace(t1.as_str(), "{agent_role}", cfg.agent_role.as_str());
    let t3: String = replace(t2.as_str(), "{project_name}", ctx.project_name.as_str());
    let t4: String = replace(
        t3.as_str(),
        "{project_description}",
        ctx.project_description.as_str(),
    );
    let id: String = i64_to_string(ticket_id);
    let t5: String = replace(t4.as_str(), "{ticket_id}", id.as_str());
    let t6: String = replace(t5.as_str(), "{ticket_name}", ctx.ticket_name.as_str());
    replace(t6.as_str(), "{ticket_description}", ctx.ticket_description.as_str())
}

/// Where sessions are created: `{base}/session`.
pub fn session_url(cfg: &OpenCodeConfig) -> (r: String)
    ensures
        r@ == cfg.base_url@ + "/session"@,
{
    let mut r: String = cfg.base_url.clone();
    r.append("/session");
    r
}

/// Where a session is prompted: `{base}/session/{id}/prompt_async`.
pub fn prompt_url(cfg: &OpenCodeConfig, session_id: &str) -> (r: String)
    ensures
        r@ == cfg.base_url@ + "/session/"@ + session_id@ + "/prompt_async"@,
{
    let mut r: String = cfg.base_url.clone();
    r.append("/session/");
    r.append(session_id);
    r.append("/prompt_async");
    r
}

/// Where a permission request of a session is answered:
/// `{base}/session/{id}/permissions/{permission_id}`.
pub fn permission_url(cfg: &OpenCodeConfig, session_id: &str, permission_id: &str) -> (r: String)
    ensures
        r@ == cfg.base_url@ + "/session/"@ + session_id@ + "/permissions/"@ + permission_id@,
{
    let mut r: String = cfg.base_url.clone();
    r.append("/session/");
    r.append(session_id);
    r.append("/permissions/");
    r.append(permission_id);
    r
}

/// Whether requests carry basic credentials: only when a password is set.
pub fn uses_basic_auth(cfg: &OpenCodeConfig) -> (r: bool)
    ensures
        r == (cfg.password@.len() > 0),
{
    cfg.password.as_str().unicode_len() > 0
}

/// Whether an HTTP status is a success (2xx).
pub fn http_success(status: u16) -> (r: bool)
    ensures
        r == (200 <= status <= 299),
{
    200 <= status && status <= 299
}

/// What a failed hand-off leaves: the ticket `failed`, and a system comment
/// saying why.
pub fn dispatch_failure(ticket_id: i64, err: &str) -> (r: (String, NewComment))
    ensures
        r.0@ == status_after_event(TicketEvent::DispatchFailed),
        r.1.ticket_id == ticket_id,
        r.1.text@ == "OpenCode dispatch failed: "@ + err@,
        r.1.author_name@ == "system"@,
        r.1.author_type@ == "system"@,
        r.1.format@ == "markdown"@,
{
    let mut text: String = String::from_str("OpenCode dispatch failed: ");
    text.append(err);
    (status_after(TicketEvent::DispatchFailed), system_comment(ticket_id, text.as_str()))
}

} // verus!
