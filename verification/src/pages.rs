//! What the web client's pages decide around their calls: the paths their
//! buttons post to, the bodies their forms send, the labels their rows show,
//! and the help chat's exchange.

use vstd::prelude::*;
use crate::auth::{AuthorizeRequest, TokenRequest};
use crate::client::{
    project_positions, reply_for, reply_text, status_label, status_text, tickets_of_project,
    Comment, CreateComment, CreateTicket, PermissionRequest, Project, Ticket,
};
use crate::encoding::{decimal, decimal_signed, i64_to_string, u64_to_string};
use crate::text::{is_blank, trim, trim_str};

verus! {

// ---------------------------------------------------------------------------
// Paths
// ---------------------------------------------------------------------------

/// The path of ticket `id`.
pub open spec fn ticket_path_of(id: int) -> Seq<char> {
    "/tickets/"@ + decimal_signed(id)
}

/// The path a ticket page loads its ticket from.
pub fn ticket_path(ticket_id: i64) -> (r: String)
    ensures
        r@ == ticket_path_of(ticket_id as int),
{
    let mut r: String = String::from_str("/tickets/");
    let id: String = i64_to_string(ticket_id);
    r.append(id.as_str());
    r
}

/// The path a comment on ticket `ticket_id` is posted to.
pub fn comments_path(ticket_id: i64) -> (r: String)
    ensures
        r@ == ticket_path_of(ticket_id as int) + "/comments"@,
{
    let mut r: String = ticket_path(ticket_id);
    r.append("/comments");
    r
}

/// The actions a ticket page offers.
pub enum TicketAction {
    RequestPr,
    Close,
    Deploy,
}

/// The path suffix of an action.
pub open spec fn action_suffix(a: TicketAction) -> Seq<char> {
    match a {
        TicketAction::RequestPr => "/actions/request_pr"@,
        TicketAction::Close => "/actions/close"@,
        TicketAction::Deploy => "/actions/deploy"@,
    }
}

/// The path an action button posts to, unless an action is still running
/// (`busy`), in which case the press does nothing.
pub fn action_request(busy: bool, ticket_id: i64, action: TicketAction) -> (r: Option<String>)
    ensures
        busy ==> r is None,
        !busy ==> (r matches Some(p) && p@ == ticket_path_of(ticket_id as int) + action_suffix(
            action,
        )),
{
    if busy {
        return None;
    }
    let mut p: String = ticket_path(ticket_id);
    match action {
        TicketAction::RequestPr => p.append("/actions/request_pr"),
        TicketAction::Close => p.append("/actions/close"),
        TicketAction::Deploy => p.append("/actions/deploy"),
    }
    Some(p)
}

/// The path a decision on permission request `id` is posted to.
pub open spec fn decision_path_of(id: int, approve: bool) -> Seq<char> {
    "/permissions/"@ + decimal_signed(id) + if approve {
        "/approve"@
    } else {
        "/deny"@
    }
}

/// The path to post a decision on request `id` to, unless a decision is still
/// running (`busy` holds the request it is for), in which case nothing is sent.
pub fn decision_request(busy: Option<i64>, id: i64, approve: bool) -> (r: Option<String>)
    ensures
        busy is Some ==> r is None,
        busy is None ==> (r matches Some(p) && p@ == decision_path_of(id as int, approve)),
{
    if busy.is_some() {
        return None;
    }
    let mut p: String = String::from_str("/permissions/");
    let n: String = i64_to_string(id);
    p.append(n.as_str());
    if approve {
        p.append("/approve");
    } else {
        p.append("/deny");
    }
    Some(p)
}

// ---------------------------------------------------------------------------
// Forms
// ---------------------------------------------------------------------------

/// The comment a ticket page posts: the text as typed, when it is not blank and
/// no other comment is being sent.
pub fn comment_to_post(text: &str, sending: bool) -> (r: Option<CreateComment>)
    ensures
        r is Some <==> (trim(text@).len() > 0 && !sending),
        r matches Some(c) ==> c.text@ == text@,
{
    if is_blank(text) || sending {
        None
    } else {
        Some(CreateComment { text: String::from_str(text) })
    }
}

/// The ticket a project page creates: a blank name is refused with a message;
/// while another ticket is being created the press sends nothing.
pub fn ticket_to_create(name: &str, description: &str, project_id: i32, creating: bool) -> (r:
    Result<Option<CreateTicket>, String>)
    ensures
        trim(name@).len() == 0 ==> (r matches Err(m) && m@ == "Enter a ticket name."@),
        trim(name@).len() > 0 && creating ==> r matches Ok(None),
        trim(name@).len() > 0 && !creating ==> (r matches Ok(Some(t)) && t.name@ == name@
            && t.description@ == description@ && t.project_id == project_id as i64),
{
    if is_blank(name) {
        return Err(String::from_str("Enter a ticket name."));
    }
    if creating {
        return Ok(None);
    }
    Ok(
        Some(
            CreateTicket {
                name: String::from_str(name),
                description: String::from_str(description),
                project_id: project_id as i64,
            },
        ),
    )
}

/// The contact form needs a name, an email address and a message.
pub fn check_contact_fields(name: &str, email: &str, message: &str) -> (r: Result<(), String>)
    ensures
        r is Ok <==> (trim(name@).len() > 0 && trim(email@).len() > 0 && trim(message@).len()
            > 0),
        r matches Err(m) ==> m@ == "Please fill in name, email, and a message."@,
{
    if is_blank(name) || is_blank(email) || is_blank(message) {
        Err(String::from_str("Please fill in name, email, and a message."))
    } else {
        Ok(())
    }
}

/// What the contact page shows once a message is ready to send.
pub fn contact_thanks(name: &str, email: &str) -> (r: String)
    ensures
        r@ == "Thanks "@ + name@
            + ". Your message is ready to send \u{2014} we\u{2019}ll follow up at "@ + email@
            + "."@,
{
    let mut r: String = String::from_str("Thanks ");
    r.append(name);
    r.append(". Your message is ready to send \u{2014} we\u{2019}ll follow up at ");
    r.append(email);
    r.append(".");
    r
}

/// The body the sign-in page sends to `/oauth/authorize`: the typed
/// credentials, the client id and an S256 challenge.
pub fn authorize_body(
    username: String,
    password: String,
    client_id: String,
    code_challenge: String,
) -> (r: AuthorizeRequest)
    ensures
        r.username == username,
        r.password == password,
        r.client_id == client_id,
        r.code_challenge == code_challenge,
        r.code_challenge_method@ == "S256"@,
{
    AuthorizeRequest {
        username,
        password,
        client_id,
        code_challenge,
        code_challenge_method: String::from_str("S256"),
    }
}

/// The body the sign-in page sends to `/oauth/token` to redeem `code` with its
/// verifier.
pub fn code_token_body(client_id: String, code: String, code_verifier: String) -> (r:
    TokenRequest)
    ensures
        r.grant_type@ == "authorization_code"@,
        r.client_id == Some(client_id),
        r.code == Some(code),
        r.code_verifier == Some(code_verifier),
        r.refresh_token is None,
{
    TokenRequest {
        grant_type: String::from_str("authorization_code"),
        client_id: Some(client_id),
        code: Some(code),
        code_verifier: Some(code_verifier),
        refresh_token: None,
    }
}

// ---------------------------------------------------------------------------
// Labels
// ---------------------------------------------------------------------------

/// The heading of a comment: its display line, or `Comment #{id}` when it has
/// none.
pub fn comment_heading(c: &Comment) -> (r: String)
    ensures
        c.display@.len() > 0 ==> r@ == c.display@,
        c.display@.len() == 0 ==> r@ == "Comment #"@ + decimal_signed(c.id as int),
{
    if c.display.unicode_len() > 0 {
        return c.display.clone();
    }
    let mut r: String = String::from_str("Comment #");
    let n: String = i64_to_string(c.id);
    r.append(n.as_str());
    r
}

/// The status line of a ticket page: the status (`queued` when empty), then the
/// model that last worked on the ticket when there is one.
pub fn status_line(status: &str, last_model: &str) -> (r: String)
    ensures
        r@ == "status: "@ + status_text(status@) + if last_model@.len() > 0 {
            " \u{b7} last_model: "@ + last_model@
        } else {
            Seq::empty()
        },
{
    let mut r: String = String::from_str("status: ");
    let label: String = status_label(status);
    r.append(label.as_str());
    if last_model.unicode_len() > 0 {
        r.append(" \u{b7} last_model: ");
        r.append(last_model);
    }
    r
}

/// The pull-request line of a ticket page: `(none)` when there is none.
pub fn pr_url_line(url: &str) -> (r: String)
    ensures
        r@ == "github_pr_url: "@ + if url@.len() > 0 {
            url@
        } else {
            "(none)"@
        },
{
    let mut r: String = String::from_str("github_pr_url: ");
    if url.unicode_len() > 0 {
        r.append(url);
    } else {
        r.append("(none)");
    }
    r
}

/// The heading of a pending request: who asks, for which ticket, for which tool.
pub fn permission_heading(p: &PermissionRequest) -> (r: String)
    ensures
        r@ == p.display@ + " \u{b7} ticket #"@ + decimal_signed(p.ticket_id as int) + " \u{b7} "@
            + p.tool@,
{
    let mut r: String = p.display.clone();
    r.append(" \u{b7} ticket #");
    let n: String = i64_to_string(p.ticket_id);
    r.append(n.as_str());
    r.append(" \u{b7} ");
    r.append(p.tool.as_str());
    r
}

/// A count with its noun, as the cards show it (`3 Comments`, `2 Tickets`).
pub fn count_label(n: usize, noun: &str) -> (r: String)
    ensures
        r@ == decimal(n as nat) + " "@ + noun@,
{
    let mut r: String = u64_to_string(n as u64);
    r.append(" ");
    r.append(noun);
    r
}

/// How many projects a list shows: the first three in the preview, all
/// otherwise.
pub fn projects_shown(count: usize, preview: bool) -> (r: usize)
    ensures
        r == if preview && count > 3 {
            3
        } else {
            count
        },
{
    if preview && count > 3 {
        3
    } else {
        count
    }
}

/// How many ticket names a project card lists: at most four.
pub fn card_tickets_shown(count: usize) -> (r: usize)
    ensures
        r == if count > 4 {
            4
        } else {
            count
        },
{
    if count > 4 {
        4
    } else {
        count
    }
}

// ---------------------------------------------------------------------------
// Projects with their tickets
// ---------------------------------------------------------------------------

/// `v` lists, as machine integers, exactly the positions `p`.
pub open spec fn lists_positions(v: Seq<usize>, p: Seq<int>) -> bool {
    &&& v.len() == p.len()
    &&& forall|k: int| 0 <= k < v.len() ==> #[trigger] v[k] as int == p[k]
}

/// For each project, in order, the positions of its tickets among `tickets`:
/// how the projects page attaches the ticket list to each project.
pub fn tickets_by_project(projects: &Vec<Project>, tickets: &Vec<Ticket>) -> (r: Vec<Vec<usize>>)
    ensures
        r@.len() == projects@.len(),
        forall|i: int|
            0 <= i < r@.len() ==> #[trigger] lists_positions(
                r@[i]@,
                project_positions(tickets@, projects@[i].id),
            ),
{
    let mut r: Vec<Vec<usize>> = Vec::new();
    let mut i: usize = 0;
    while i < projects.len()
        invariant
            i <= projects@.len(),
            r@.len() == i,
            forall|j: int|
                0 <= j < i ==> #[trigger] lists_positions(
                    r@[j]@,
                    project_positions(tickets@, projects@[j].id),
                ),
        decreases projects.len() - i,
    {
        let ps: Vec<usize> = tickets_of_project(tickets, projects[i].id);
        assert(lists_positions(ps@, project_positions(tickets@, projects@[i as int].id)));
        r.push(ps);
        i = i + 1;
    }
    r
}

// ---------------------------------------------------------------------------
// The help chat
// ---------------------------------------------------------------------------

/// A line of the help chat.
pub struct ChatMessage {
    pub from_user: bool,
    pub text: String,
}

/// The line the help chat opens with.
pub fn chat_greeting() -> (r: ChatMessage)
    ensures
        !r.from_user,
        r.text@
            == "Hi, I\u{2019}m Lyra\u{2019}s assistant. Ask me about projects, tickets, or the dashboard."@,
{
    ChatMessage {
        from_user: false,
        text: String::from_str(
            "Hi, I\u{2019}m Lyra\u{2019}s assistant. Ask me about projects, tickets, or the dashboard.",
        ),
    }
}

/// Sends the draft: unless it is blank, its trimmed text joins the chat as the
/// user's line, followed by the assistant's reply to it. Returns whether
/// anything was sent (the page then clears the draft).
pub fn chat_send(messages: &mut Vec<ChatMessage>, draft: &str) -> (sent: bool)
    ensures
        sent <==> trim(draft@).len() > 0,
        !sent ==> final(messages)@ == old(messages)@,
        sent ==> final(messages)@.len() == old(messages)@.len() + 2,
        sent ==> final(messages)@.take(old(messages)@.len() as int) == old(messages)@,
        sent ==> final(messages)@[old(messages)@.len() as int].from_user,
        sent ==> final(messages)@[old(messages)@.len() as int].text@ == trim(draft@),
        sent ==> !final(messages)@[old(messages)@.len() + 1int].from_user,
        sent ==> final(messages)@[old(messages)@.len() + 1int].text@ == reply_text(trim(draft@)),
{
    let text: String = trim_str(draft);
    if text.as_str().unicode_len() == 0 {
        return false;
    }
    let reply: String = reply_for(text.as_str());
    let ghost before = messages@;
    let user_text: String = text.clone();
    messages.push(ChatMessage { from_user: true, text: user_text });
    messages.push(ChatMessage { from_user: false, text: reply });
    assert(messages@.take(before.len() as int) =~= before);
    true
}

} // verus!
