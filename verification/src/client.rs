//! The web client's logic: where the API is, how it signs in with PKCE, how
//! answers and errors read, and how lists are narrowed for a page.

use vstd::prelude::*;
use crate::auth::str_opt;
use crate::crypto::{base64_url_nopad, pkce_challenge, pkce_s256, random_bytes_for_client};
use crate::text::{contains, is_blank, trim, trim_str};
use crate::opencode::{trim_end_char, trim_end_matches};

verus! {

/// Where the client keeps its access token.
pub const JWT_KEY: &'static str = "JWT";

/// A comment as the client reads it.
pub struct Comment {
    pub id: i64,
    pub text: String,
    pub author_name: String,
    pub author_type: String,
    pub author_role: String,
    pub model: String,
    pub format: String,
    pub display: String,
}

/// A ticket as the client reads it.
pub struct Ticket {
    pub id: i64,
    pub name: String,
    pub description: String,
    pub project_id: i64,
    pub status: String,
    pub github_pr_url: String,
    pub last_model: String,
    pub comments: Vec<Comment>,
}

/// A project as the client reads it, with the tickets the client attached.
pub struct Project {
    pub id: i32,
    pub name: String,
    pub description: String,
    pub tickets: Vec<Ticket>,
}

/// A permission request as the client reads it.
pub struct PermissionRequest {
    pub id: i64,
    pub ticket_id: i64,
    pub author_name: String,
    pub author_type: String,
    pub author_role: String,
    pub model: String,
    pub display: String,
    pub tool: String,
    pub payload: String,
    pub status: String,
    pub opencode_session_id: String,
    pub permission_id: String,
    pub is_used: bool,
}

/// The body the client sends to create a ticket.
#[derive(Debug)]
pub struct CreateTicket {
    pub name: String,
    pub description: String,
    pub project_id: i64,
}

/// The body the client sends to comment.
#[derive(Debug)]
pub struct CreateComment {
    pub text: String,
}

/// The API base the client was built with (`configured`): trimmed, without
/// trailing `/`; a missing or blank one is an error that says how to set it.
pub fn api_base(configured: Option<&str>) -> (r: Result<String, String>)
    ensures
        match configured {
            Some(b) => if trim(b@).len() > 0 {
                r matches Ok(v) && v@ == trim_end_char(trim(b@), '/')
            } else {
                r is Err
            },
            None => r is Err,
        },
        r matches Err(m) ==> m@
            == "LYRA_API_BASE is not set. Rebuild with LYRA_API_BASE=https://YOUR_PI_HOST dx serve"@,
{
    match configured {
        Some(b) => {
            let t: String = trim_str(b);
            if t.as_str().unicode_len() > 0 {
                return Ok(trim_end_matches(t.as_str(), '/'));
            }
        },
        None => {},
    }
    Err(
        String::from_str(
            "LYRA_API_BASE is not set. Rebuild with LYRA_API_BASE=https://YOUR_PI_HOST dx serve",
        ),
    )
}

/// The API base that the configured value names, if it names one.
pub open spec fn configured_base(configured: Option<Seq<char>>) -> Option<Seq<char>> {
    match configured {
        Some(b) => if trim(b).len() > 0 {
            Some(trim_end_char(trim(b), '/'))
        } else {
            None
        },
        None => None,
    }
}

/// The URL of an API call to `path`: the configured base followed by `path`.
pub fn request_url(configured: Option<&str>, path: &str) -> (r: Result<String, String>)
    ensures
        match configured_base(str_opt(configured)) {
            Some(b) => r matches Ok(u) && u@ == b + path@,
            None => r matches Err(m) && m@
                == "LYRA_API_BASE is not set. Rebuild with LYRA_API_BASE=https://YOUR_PI_HOST dx serve"@,
        },
{
    match api_base(configured) {
        Ok(b) => Ok(b.concat(path)),
        Err(e) => Err(e),
    }
}

/// The OAuth client id the client was built with, or `lyra-ios`.
pub fn oauth_client_id(configured: Option<&str>) -> (r: String)
    ensures
        match configured {
            Some(c) => r@ == c@,
            None => r@ == "lyra-ios"@,
        },
{
    match configured {
        Some(c) => String::from_str(c),
        None => String::from_str("lyra-ios"),
    }
}

/// The stored access token, trimmed, unless it is missing or blank.
pub fn stored_token(raw: Option<String>) -> (r: Option<String>)
    ensures
        match raw {
            Some(s) => if trim(s@).len() > 0 {
                r matches Some(t) && t@ == trim(s@)
            } else {
                r is None
            },
            None => r is None,
        },
{
    match raw {
        Some(s) => {
            let t: String = trim_str(s.as_str());
            if t.as_str().unicode_len() > 0 {
                Some(t)
            } else {
                None
            }
        },
        None => None,
    }
}

/// A fresh PKCE pair: a verifier made of 32 random bytes in URL-safe base64, and
/// its S256 challenge.
pub fn pkce_s256_pair() -> (r: (String, String))
    ensures
        exists|b: Seq<u8>| b.len() == 32 && r.0@ == base64_url_nopad(b),
        r.1@ == pkce_challenge(r.0@),
{
    let (verifier, bytes) = random_bytes_for_client();
    let challenge: String = pkce_s256(verifier.as_str());
    (verifier, challenge)
}

/// The message of a refused call: the server's error code when it sent one,
/// otherwise `HTTP {status}`.
pub fn error_message(body_error: Option<&str>, status: &str) -> (r: String)
    ensures
        match body_error {
            Some(e) => if e@.len() > 0 {
                r@ == e@
            } else {
                r@ == "HTTP "@ + status@
            },
            None => r@ == "HTTP "@ + status@,
        },
{
    match body_error {
        Some(e) => if e.unicode_len() > 0 {
            return String::from_str(e);
        },
        None => {},
    }
    let mut r: String = String::from_str("HTTP ");
    r.append(status);
    r
}

/// The sign-in form needs both fields.
pub fn check_login_fields(username: &str, password: &str) -> (r: Result<(), String>)
    ensures
        r is Ok <==> (trim(username@).len() > 0 && trim(password@).len() > 0),
        r matches Err(m) ==> m@ == "Enter both username and password."@,
{
    if is_blank(username) || is_blank(password) {
        Err(String::from_str("Enter both username and password."))
    } else {
        Ok(())
    }
}

/// A token answer must carry an access token.
pub fn check_access_token(access_token: &str) -> (r: Result<(), String>)
    ensures
        r is Ok <==> trim(access_token@).len() > 0,
        r matches Err(m) ==> m@ == "missing access_token"@,
{
    if is_blank(access_token) {
        Err(String::from_str("missing access_token"))
    } else {
        Ok(())
    }
}

/// How a ticket status reads on a page: `queued` when it is empty.
pub open spec fn status_text(status: Seq<char>) -> Seq<char> {
    if status.len() == 0 {
        "queued"@
    } else {
        status
    }
}

/// How a ticket's status is shown: `queued` when it has none.
pub fn status_label(status: &str) -> (r: String)
    ensures
        r@ == status_text(status@),
{
    if status.unicode_len() == 0 {
        String::from_str("queued")
    } else {
        String::from_str(status)
    }
}

/// The positions of the tickets of project `project_id`, in order.
pub open spec fn project_positions(ts: Seq<Ticket>, project_id: i32) -> Seq<int>
    decreases ts.len(),
{
    if ts.len() == 0 {
        Seq::empty()
    } else if ts.last().project_id == project_id as i64 {
        project_positions(ts.drop_last(), project_id).push(ts.len() - 1)
    } else {
        project_positions(ts.drop_last(), project_id)
    }
}

/// The positions of the tickets of project `project_id` among `tickets`.
pub fn tickets_of_project(tickets: &Vec<Ticket>, project_id: i32) -> (r: Vec<usize>)
    ensures
        r@.len() == project_positions(tickets@, project_id).len(),
        forall|k: int|
            0 <= k < r@.len() ==> #[trigger] r@[k] as int == project_positions(
                tickets@,
                project_id,
            )[k],
{
    let mut r: Vec<usize> = Vec::new();
    let mut i: usize = 0;
    assert(tickets@.take(0) =~= Seq::<Ticket>::empty());
    while i < tickets.len()
        invariant
            i <= tickets@.len(),
            r@.len() == project_positions(tickets@.take(i as int), project_id).len(),
            forall|k: int|
                0 <= k < r@.len() ==> #[trigger] r@[k] as int == project_positions(
                    tickets@.take(i as int),
                    project_id,
                )[k],
        decreases tickets.len() - i,
    {
        assert(tickets@.take(i + 1).drop_last() =~= tickets@.take(i as int));
        if tickets[i].project_id == project_id as i64 {
            r.push(i);
        }
        i = i + 1;
    }
    assert(tickets@.take(tickets@.len() as int) =~= tickets@);
    r
}

/// The positions of the pending requests shown on a page: all of them, or those
/// of one ticket.
pub open spec fn permission_positions(ps: Seq<PermissionRequest>, ticket: Option<i64>) -> Seq<int>
    decreases ps.len(),
{
    if ps.len() == 0 {
        Seq::empty()
    } else if (match ticket {
        Some(t) => ps.last().ticket_id == t,
        None => true,
    }) {
        permission_positions(ps.drop_last(), ticket).push(ps.len() - 1)
    } else {
        permission_positions(ps.drop_last(), ticket)
    }
}

/// The positions of the requests shown for `ticket` (all when `None`).
pub fn permissions_for_ticket(rows: &Vec<PermissionRequest>, ticket: Option<i64>) -> (r: Vec<
    usize,
>)
    ensures
        r@.len() == permission_positions(rows@, ticket).len(),
        forall|k: int|
            0 <= k < r@.len() ==> #[trigger] r@[k] as int == permission_positions(rows@, ticket)[k],
{
    let mut r: Vec<usize> = Vec::new();
    let mut i: usize = 0;
    assert(rows@.take(0) =~= Seq::<PermissionRequest>::empty());
    while i < rows.len()
        invariant
            i <= rows@.len(),
            r@.len() == permission_positions(rows@.take(i as int), ticket).len(),
            forall|k: int|
                0 <= k < r@.len() ==> #[trigger] r@[k] as int == permission_positions(
                    rows@.take(i as int),
                    ticket,
                )[k],
        decreases rows.len() - i,
    {
        assert(rows@.take(i + 1).drop_last() =~= rows@.take(i as int));
        let keep: bool = match ticket {
            Some(t) => rows[i].ticket_id == t,
            None => true,
        };
        if keep {
            r.push(i);
        }
        i = i + 1;
    }
    assert(rows@.take(rows@.len() as int) =~= rows@);
    r
}

/// The lower-case form of `s` (`str::to_lowercase`, full Unicode mapping).
pub uninterp spec fn lowercase(s: Seq<char>) -> Seq<char>;

/// `str::to_lowercase`.
#[verifier::external_body]
fn to_lowercase(s: &str) -> (r: String)
    ensures
        r@ == lowercase(s@),
{
    s.to_lowercase()
}

/// The help chat's answer: chosen by the first topic the lower-cased message
/// mentions, in the order ticket, project, a greeting, login.
pub open spec fn reply_text(input: Seq<char>) -> Seq<char> {
    let m = lowercase(input);
    if contains(m, "ticket"@) {
        "Open Projects, choose a project, then a ticket to read comments or add a note."@
    } else if contains(m, "project"@) {
        "Your active projects live under Projects. Each card shows how many tickets are open."@
    } else if contains(m, "hello"@) || contains(m, "hi"@) {
        "Hi \u{2014} I\u{2019}m the Lyra assistant. Ask about projects, tickets, or how the dashboard works."@
    } else if contains(m, "login"@) {
        "Use your email and password on the login screen. After that, Home is your overview."@
    } else {
        "I can help with projects, tickets, and getting around Lyra. Try asking about one of those."@
    }
}

/// The help chat's answer to `input`.
pub fn reply_for(input: &str) -> (r: String)
    ensures
        r@ == reply_text(input@),
{
    let low: String = to_lowercase(input);
    let m: Vec<char> = crate::text::chars_of(low.as_str());
    if crate::text::contains_exec(&m, &crate::text::chars_of("ticket")) {
        String::from_str("Open Projects, choose a project, then a ticket to read comments or add a note.")
    } else if crate::text::contains_exec(&m, &crate::text::chars_of("project")) {
        String::from_str(
            "Your active projects live under Projects. Each card shows how many tickets are open.",
        )
    } else if crate::text::contains_exec(&m, &crate::text::chars_of("hello"))
        || crate::text::contains_exec(&m, &crate::text::chars_of("hi")) {
        String::from_str(
            "Hi \u{2014} I\u{2019}m the Lyra assistant. Ask about projects, tickets, or how the dashboard works.",
        )
    } else if crate::text::contains_exec(&m, &crate::text::chars_of("login")) {
        String::from_str(
            "Use your email and password on the login screen. After that, Home is your overview.",
        )
    } else {
        String::from_str(
            "I can help with projects, tickets, and getting around Lyra. Try asking about one of those.",
        )
    }
}

} // verus!
