//! Tickets and their comments: how stored rows read, who may write what, and
//! which statuses each action leads to.

use vstd::prelude::*;
use crate::error::ApiError;
use crate::jwt::Claim;
use crate::text::{eq_ignore_ascii_case, eq_ignore_case, is_blank, trim};

verus! {

/// A ticket with its comments, oldest first.
pub struct Ticket {
    pub id: i64,
    pub name: String,
    pub description: String,
    pub project_id: i64,
    pub status: String,
    pub github_pr_url: String,
    pub last_model: String,
    pub comments: Vec<Comment>,
}

/// The body of `POST /tickets`.
pub struct TicketCreate {
    pub name: String,
    pub description: String,
    pub project_id: i64,
}

/// The body of the legacy `POST /login`.
pub struct LoginRequest {
    pub email: String,
    pub password: String,
}

/// A comment on a ticket, with its author and how to show it.
pub struct Comment {
    pub id: i64,
    pub text: String,
    pub author_name: String,
    pub author_type: String,
    pub author_role: String,
    pub model: String,
    pub format: String,
    pub display: String,
}

/// The body of `POST /tickets/:id/comments`.
pub struct CommentCreate {
    pub text: String,
}

/// The body of a human status change.
pub struct SetStatusRequest {
    pub status: String,
}

/// A user row as the legacy login reads it.
pub struct User {
    pub id: i32,
    pub email: String,
    pub password: String,
}

/// A stored comment; the author and format columns may be empty (NULL).
pub struct CommentRow {
    pub id: i64,
    pub ticket_id: i64,
    pub text: String,
    pub author_name: Option<String>,
    pub author_type: Option<String>,
    pub author_role: Option<String>,
    pub model: Option<String>,
    pub format: Option<String>,
}

/// A stored ticket; all but the id, name and description may be empty (NULL).
pub struct TicketRow {
    pub id: i64,
    pub name: String,
    pub description: String,
    pub project_id: Option<i64>,
    pub status: Option<String>,
    pub github_pr_url: Option<String>,
    pub last_model: Option<String>,
}

/// A comment to be stored.
pub struct NewComment {
    pub ticket_id: i64,
    pub text: String,
    pub author_name: String,
    pub author_type: String,
    pub author_role: String,
    pub model: String,
    pub format: String,
}

/// A ticket to be stored.
pub struct NewTicket {
    pub name: String,
    pub description: String,
    pub project_id: i64,
    pub status: String,
}

/// Every status a ticket may carry.
pub open spec fn ticket_statuses() -> Seq<Seq<char>> {
    seq![
        "queued"@,
        "running"@,
        "awaiting_you"@,
        "pr_opening"@,
        "pending_review"@,
        "closed"@,
        "failed"@,
        "open"@,
        "cancelled"@,
    ]
}

/// The text of an optional column, empty when absent.
pub open spec fn text_or_empty(v: Option<String>) -> Seq<char> {
    match v {
        Some(s) => s@,
        None => Seq::empty(),
    }
}

fn text_or_empty_exec(v: &Option<String>) -> (r: String)
    ensures
        r@ == text_or_empty(*v),
{
    match v {
        Some(s) => s.clone(),
        None => String::new(),
    }
}

/// How an author is shown: `Name:Model` for an agent with a model, otherwise the
/// name.
pub open spec fn display_of(name: Seq<char>, user_type: Seq<char>, model: Seq<char>) -> Seq<char> {
    if eq_ignore_case(user_type, "Agent"@) && model.len() > 0 {
        name + ":"@ + model
    } else {
        name
    }
}

/// How an author is shown.
pub fn display_for(name: &str, user_type: &str, model: &str) -> (r: String)
    ensures
        r@ == display_of(name@, user_type@, model@),
{
    let mut r: String = String::from_str(name);
    if eq_ignore_ascii_case(user_type, "Agent") && model.unicode_len() > 0 {
        r.append(":");
        r.append(model);
    }
    r
}

/// Whether `c` is how the stored comment `row` reads: absent author columns are
/// empty, an absent or empty format is `markdown`, and the display follows
/// `display_of`.
pub open spec fn comment_reads(row: CommentRow, c: Comment) -> bool {
    &&& c.id == row.id
    &&& c.text@ == row.text@
    &&& c.author_name@ == text_or_empty(row.author_name)
    &&& c.author_type@ == text_or_empty(row.author_type)
    &&& c.author_role@ == text_or_empty(row.author_role)
    &&& c.model@ == text_or_empty(row.model)
    &&& c.format@ == (if text_or_empty(row.format).len() == 0 {
        "markdown"@
    } else {
        text_or_empty(row.format)
    })
    &&& c.display@ == display_of(
        text_or_empty(row.author_name),
        text_or_empty(row.author_type),
        text_or_empty(row.model),
    )
}

/// Reads a stored comment.
pub fn comment_from_row(row: &CommentRow) -> (c: Comment)
    ensures
        comment_reads(*row, c),
{
    let author_name: String = text_or_empty_exec(&row.author_name);
    let author_type: String = text_or_empty_exec(&row.author_type);
    let author_role: String = text_or_empty_exec(&row.author_role);
    let model: String = text_or_empty_exec(&row.model);
    let f: String = text_or_empty_exec(&row.format);
    let format: String = if f.as_str().unicode_len() == 0 {
        String::from_str("markdown")
    } else {
        f
    };
    let display: String = display_for(author_name.as_str(), author_type.as_str(), model.as_str());
    Comment {
        id: row.id,
        text: row.text.clone(),
        author_name,
        author_type,
        author_role,
        model,
        format,
        display,
    }
}

/// The stored comments of ticket `id`, in stored order.
pub open spec fn rows_of_ticket(rows: Seq<CommentRow>, id: i64) -> Seq<CommentRow>
    decreases rows.len(),
{
    if rows.len() == 0 {
        Seq::empty()
    } else if rows.last().ticket_id == id {
        rows_of_ticket(rows.drop_last(), id).push(rows.last())
    } else {
        rows_of_ticket(rows.drop_last(), id)
    }
}

/// Whether `cs` is how the stored comments `rows` read, one for one.
pub open spec fn comments_read(rows: Seq<CommentRow>, cs: Seq<Comment>) -> bool {
    &&& cs.len() == rows.len()
    &&& forall|i: int| 0 <= i < cs.len() ==> #[trigger] comment_reads(rows[i], cs[i])
}

/// The comments of ticket `ticket_id` among `all`, in stored order.
pub fn comments_of_ticket(all: &Vec<CommentRow>, ticket_id: i64) -> (r: Vec<Comment>)
    ensures
        comments_read(rows_of_ticket(all@, ticket_id), r@),
{
    let mut r: Vec<Comment> = Vec::new();
    let mut i: usize = 0;
    assert(all@.take(0) =~= Seq::<CommentRow>::empty());
    while i < all.len()
        invariant
            i <= all@.len(),
            comments_read(rows_of_ticket(all@.take(i as int), ticket_id), r@),
        decreases all.len() - i,
    {
        assert(all@.take(i + 1).drop_last() =~= all@.take(i as int));
        if all[i].ticket_id == ticket_id {
            let c: Comment = comment_from_row(&all[i]);
            r.push(c);
        }
        i = i + 1;
    }
    assert(all@.take(all@.len() as int) =~= all@);
    r
}

/// Whether `t` is how the stored ticket `row` reads with the comments `cs`: an
/// absent project is 0, an absent or empty status is `queued`, and absent text
/// columns are empty.
pub open spec fn ticket_reads(row: TicketRow, t: Ticket) -> bool {
    &&& t.id == row.id
    &&& t.name@ == row.name@
    &&& t.description@ == row.description@
    &&& t.project_id == (match row.project_id {
        Some(p) => p,
        None => 0,
    })
    &&& t.status@ == (if text_or_empty(row.status).len() == 0 {
        "queued"@
    } else {
        text_or_empty(row.status)
    })
    &&& t.github_pr_url@ == text_or_empty(row.github_pr_url)
    &&& t.last_model@ == text_or_empty(row.last_model)
}

/// Reads a stored ticket with its comments.
pub fn ticket_from_row(row: &TicketRow, comments: Vec<Comment>) -> (t: Ticket)
    ensures
        ticket_reads(*row, t),
        t.id == row.id,
        t.github_pr_url@ == text_or_empty(row.github_pr_url),
        t.last_model@ == text_or_empty(row.last_model),
        t.comments@ == comments@,
{
    let s: String = text_or_empty_exec(&row.status);
    let status: String = if s.as_str().unicode_len() == 0 {
        String::from_str("queued")
    } else {
        s
    };
    Ticket {
        id: row.id,
        name: row.name.clone(),
        description: row.description.clone(),
        project_id: match row.project_id {
            Some(p) => p,
            None => 0,
        },
        status,
        github_pr_url: text_or_empty_exec(&row.github_pr_url),
        last_model: text_or_empty_exec(&row.last_model),
        comments,
    }
}

/// The ticket list: every stored ticket, in the given order, each with its own
/// comments in stored order.
pub fn assemble_tickets(rows: &Vec<TicketRow>, comments: &Vec<CommentRow>) -> (r: Vec<Ticket>)
    ensures
        r@.len() == rows@.len(),
        forall|i: int|
            0 <= i < r@.len() ==> {
                &&& #[trigger] ticket_reads(rows@[i], r@[i])
                &&& comments_read(rows_of_ticket(comments@, rows@[i].id), r@[i].comments@)
            },
{
    let mut r: Vec<Ticket> = Vec::new();
    let mut i: usize = 0;
    while i < rows.len()
        invariant
            i <= rows@.len(),
            r@.len() == i,
            forall|k: int|
                0 <= k < i ==> {
                    &&& #[trigger] ticket_reads(rows@[k], r@[k])
                    &&& comments_read(rows_of_ticket(comments@, rows@[k].id), r@[k].comments@)
                },
        decreases rows.len() - i,
    {
        let cs: Vec<Comment> = comments_of_ticket(comments, rows[i].id);
        let t: Ticket = ticket_from_row(&rows[i], cs);
        r.push(t);
        i = i + 1;
    }
    r
}

// ---------------------------------------------------------------------------
// Writing
// ---------------------------------------------------------------------------

/// A new ticket: it starts `queued`, for any caller with a valid token (`auth`
/// is the outcome of `require_claim`).
pub fn create_ticket(payload: &TicketCreate, auth: Result<Claim, ApiError>) -> (r: Result<
    NewTicket,
    ApiError,
>)
    ensures
        match auth {
            Err(e) => r == Err::<NewTicket, ApiError>(e),
            Ok(_) => r matches Ok(t) && {
                &&& t.name@ == payload.name@
                &&& t.description@ == payload.description@
                &&& t.project_id == payload.project_id
                &&& t.status@ == "queued"@
            },
        },
{
    match auth {
        Err(e) => Err(e),
        Ok(_) => Ok(
            NewTicket {
                name: payload.name.clone(),
                description: payload.description.clone(),
                project_id: payload.project_id,
                status: String::from_str("queued"),
            },
        ),
    }
}

/// The ticket answered for a ticket just stored under `id`: queued, without a PR,
/// model or comments.
pub fn stored_ticket(id: i64, t: &NewTicket) -> (r: Ticket)
    ensures
        r.id == id,
        r.name@ == t.name@,
        r.description@ == t.description@,
        r.project_id == t.project_id,
        r.status@ == t.status@,
        r.github_pr_url@.len() == 0,
        r.last_model@.len() == 0,
        r.comments@.len() == 0,
{
    Ticket {
        id,
        name: t.name.clone(),
        description: t.description.clone(),
        project_id: t.project_id,
        status: t.status.clone(),
        github_pr_url: String::new(),
        last_model: String::new(),
        comments: Vec::new(),
    }
}

/// A comment by the caller (`auth` is the outcome of `require_claim`): the text
/// must hold more than white space; the author is stamped from the token, and the
/// format is `markdown`.
pub fn add_comment(ticket_id: i64, payload: &CommentCreate, auth: Result<Claim, ApiError>) -> (r:
    Result<NewComment, ApiError>)
    ensures
        match auth {
            Err(e) => r == Err::<NewComment, ApiError>(e),
            Ok(c) => if trim(payload.text@).len() == 0 {
                r == Err::<NewComment, ApiError>(ApiError::EmptyText)
            } else {
                r matches Ok(n) && {
                    &&& n.ticket_id == ticket_id
                    &&& n.text@ == payload.text@
                    &&& n.author_name@ == c.name@
                    &&& n.author_type@ == c.user_type@
                    &&& n.author_role@ == c.role@
                    &&& n.model@.len() == 0
                    &&& n.format@ == "markdown"@
                }
            },
        },
{
    match auth {
        Err(e) => Err(e),
        Ok(c) => {
            if is_blank(payload.text.as_str()) {
                return Err(ApiError::EmptyText);
            }
            Ok(
                NewComment {
                    ticket_id,
                    text: payload.text.clone(),
                    author_name: c.name,
                    author_type: c.user_type,
                    author_role: c.role,
                    model: String::new(),
                    format: String::from_str("markdown"),
                },
            )
        },
    }
}

/// A comment by the system (deploy and dispatch reports).
pub fn system_comment(ticket_id: i64, text: &str) -> (r: NewComment)
    ensures
        r.ticket_id == ticket_id,
        r.text@ == text@,
        r.author_name@ == "system"@,
        r.author_type@ == "system"@,
        r.author_role@.len() == 0,
        r.model@.len() == 0,
        r.format@ == "markdown"@,
{
    NewComment {
        ticket_id,
        text: String::from_str(text),
        author_name: String::from_str("system"),
        author_type: String::from_str("system"),
        author_role: String::new(),
        model: String::new(),
        format: String::from_str("markdown"),
    }
}

/// The statuses a human may set directly, in the order they are matched.
pub open spec fn human_statuses() -> Seq<Seq<char>> {
    seq!["open"@, "awaiting_you"@, "pending_review"@, "closed"@, "failed"@, "cancelled"@]
}

/// The status a human's request names: the first of `human_statuses` equal to it
/// up to ASCII case.
pub open spec fn human_status_of(requested: Seq<char>) -> Option<Seq<char>> {
    if eq_ignore_case(requested, "open"@) {
        Some("open"@)
    } else if eq_ignore_case(requested, "awaiting_you"@) {
        Some("awaiting_you"@)
    } else if eq_ignore_case(requested, "pending_review"@) {
        Some("pending_review"@)
    } else if eq_ignore_case(requested, "closed"@) {
        Some("closed"@)
    } else if eq_ignore_case(requested, "failed"@) {
        Some("failed"@)
    } else if eq_ignore_case(requested, "cancelled"@) {
        Some("cancelled"@)
    } else {
        None
    }
}

/// The status stored for a human's request is the one requested, up to ASCII
/// case, and it is one of the listed statuses.
pub proof fn requested_status_is_kept(requested: Seq<char>)
    ensures
        human_status_of(requested) matches Some(s) ==> eq_ignore_case(requested, s)
            && human_statuses().contains(s),
{
    if human_status_of(requested) is Some {
        human_status_is_listed(requested);
    }
}

/// Every listed status, requested as it is written, is the status stored.
pub proof fn listed_statuses_name_themselves(i: int)
    requires
        0 <= i < human_statuses().len(),
    ensures
        human_status_of(human_statuses()[i]) == Some(human_statuses()[i]),
{
    reveal_strlit("open");
    reveal_strlit("awaiting_you");
    reveal_strlit("pending_review");
    reveal_strlit("closed");
    reveal_strlit("failed");
    reveal_strlit("cancelled");
    let s = human_statuses()[i];
    assert(eq_ignore_case(s, s));
    assert(crate::text::fold("failed"@[0]) != crate::text::fold("closed"@[0]));
}

/// A ticket reads each field from its own column: its id, its PR URL and its
/// last model are the row's, a missing one empty, and an empty status reads as
/// `queued`.
pub proof fn tickets_read_their_own_columns(row: TicketRow, t: Ticket)
    requires
        ticket_reads(row, t),
    ensures
        t.id == row.id,
        t.name@ == row.name@,
        t.description@ == row.description@,
        row.github_pr_url matches Some(u) ==> t.github_pr_url@ == u@,
        row.github_pr_url is None ==> t.github_pr_url@.len() == 0,
        row.last_model matches Some(m) ==> t.last_model@ == m@,
        row.last_model is None ==> t.last_model@.len() == 0,
        row.project_id matches Some(p) ==> t.project_id == p,
        (row.status matches Some(st) && st@.len() > 0) ==> t.status@ == row.status.unwrap()@,
{
}

/// A comment reads each field from its own column; it is shown as `name:model`
/// when written by an agent with a model, and by its author's name otherwise.
pub proof fn comments_read_their_own_columns(row: CommentRow, c: Comment)
    requires
        comment_reads(row, c),
    ensures
        c.id == row.id,
        c.text@ == row.text@,
        row.author_name matches Some(x) ==> c.author_name@ == x@,
        row.author_type matches Some(x) ==> c.author_type@ == x@,
        row.author_role matches Some(x) ==> c.author_role@ == x@,
        row.model matches Some(x) ==> c.model@ == x@,
        (row.format matches Some(x) && x@.len() > 0) ==> c.format@ == row.format.unwrap()@,
        row.format is None ==> c.format@ == "markdown"@,
        eq_ignore_case(c.author_type@, "Agent"@) && c.model@.len() > 0 ==> c.display@
            == c.author_name@ + ":"@ + c.model@,
        !eq_ignore_case(c.author_type@, "Agent"@) ==> c.display@ == c.author_name@,
        c.model@.len() == 0 ==> c.display@ == c.author_name@,
{
}

/// The status to set for a human's request, or `invalid_status`.
pub fn human_status(requested: &str) -> (r: Result<String, ApiError>)
    ensures
        match human_status_of(requested@) {
            Some(s) => r matches Ok(v) && v@ == s,
            None => r == Err::<String, ApiError>(ApiError::InvalidStatus),
        },
        r matches Ok(v) ==> eq_ignore_case(requested@, v@),
{
    proof {
        requested_status_is_kept(requested@);
    }
    if eq_ignore_ascii_case(requested, "open") {
        Ok(String::from_str("open"))
    } else if eq_ignore_ascii_case(requested, "awaiting_you") {
        Ok(String::from_str("awaiting_you"))
    } else if eq_ignore_ascii_case(requested, "pending_review") {
        Ok(String::from_str("pending_review"))
    } else if eq_ignore_ascii_case(requested, "closed") {
        Ok(String::from_str("closed"))
    } else if eq_ignore_ascii_case(requested, "failed") {
        Ok(String::from_str("failed"))
    } else if eq_ignore_ascii_case(requested, "cancelled") {
        Ok(String::from_str("cancelled"))
    } else {
        Err(ApiError::InvalidStatus)
    }
}

/// A status a human sets is always one of `human_statuses`.
pub proof fn human_status_is_listed(requested: Seq<char>)
    requires
        human_status_of(requested) is Some,
    ensures
        human_statuses().contains(human_status_of(requested).unwrap()),
{
    let s = human_status_of(requested).unwrap();
    let l = human_statuses();
    if s == "open"@ {
        assert(l[0] == s);
    } else if s == "awaiting_you"@ {
        assert(l[1] == s);
    } else if s == "pending_review"@ {
        assert(l[2] == s);
    } else if s == "closed"@ {
        assert(l[3] == s);
    } else if s == "failed"@ {
        assert(l[4] == s);
    } else {
        assert(l[5] == s);
    }
}

/// Deploy needs a ticket in `pending_review` (up to ASCII case).
pub fn check_deployable(ticket: &Ticket) -> (r: Result<(), ApiError>)
    ensures
        r is Ok <==> eq_ignore_case(ticket.status@, "pending_review"@),
        r is Err ==> r == Err::<(), ApiError>(ApiError::NotReady),
{
    if eq_ignore_ascii_case(ticket.status.as_str(), "pending_review") {
        Ok(())
    } else {
        Err(ApiError::NotReady)
    }
}

/// What a ticket update means: a storage failure is a server error, and an update
/// that touched no row names a missing ticket.
pub fn update_outcome(rows_affected: Option<u64>) -> (r: Result<(), ApiError>)
    ensures
        rows_affected is None ==> r == Err::<(), ApiError>(ApiError::ServerError),
        rows_affected == Some(0u64) ==> r == Err::<(), ApiError>(ApiError::NotFound),
        (rows_affected matches Some(n) && n > 0) ==> r is Ok,
{
    match rows_affected {
        None => Err(ApiError::ServerError),
        Some(n) => if n == 0 {
            Err(ApiError::NotFound)
        } else {
            Ok(())
        },
    }
}

/// The events that move a ticket along its status chain.
pub enum TicketEvent {
    /// OpenCode took the ticket.
    DispatchStarted,
    /// OpenCode dispatch failed.
    DispatchFailed,
    /// A PR was asked for.
    PrRequested,
    /// An agent stored the PR URL.
    PrUrlSet,
    /// The ticket was closed after merge.
    Closed,
    /// A deploy went through.
    DeploySucceeded,
    /// A deploy failed.
    DeployFailed,
}

/// The status a ticket takes on each event.
pub open spec fn status_after_event(e: TicketEvent) -> Seq<char> {
    match e {
        TicketEvent::DispatchStarted => "running"@,
        TicketEvent::DispatchFailed => "failed"@,
        TicketEvent::PrRequested => "pr_opening"@,
        TicketEvent::PrUrlSet => "pending_review"@,
        TicketEvent::Closed => "closed"@,
        TicketEvent::DeploySucceeded => "awaiting_you"@,
        TicketEvent::DeployFailed => "failed"@,
    }
}

/// Each event moves a ticket along the documented chain: dispatch to `running`,
/// a PR request to `pr_opening`, a stored PR URL to `pending_review`, closing to
/// `closed`, a deploy to `awaiting_you`, and a failed dispatch or deploy to
/// `failed`.
pub proof fn events_follow_the_status_chain()
    ensures
        status_after_event(TicketEvent::DispatchStarted) == "running"@,
        status_after_event(TicketEvent::DispatchFailed) == "failed"@,
        status_after_event(TicketEvent::PrRequested) == "pr_opening"@,
        status_after_event(TicketEvent::PrUrlSet) == "pending_review"@,
        status_after_event(TicketEvent::Closed) == "closed"@,
        status_after_event(TicketEvent::DeploySucceeded) == "awaiting_you"@,
        status_after_event(TicketEvent::DeployFailed) == "failed"@,
{
}

/// The status a ticket takes on `e`.
pub fn status_after(e: TicketEvent) -> (r: String)
    ensures
        r@ == status_after_event(e),
{
    match e {
        TicketEvent::DispatchStarted => String::from_str("running"),
        TicketEvent::DispatchFailed => String::from_str("failed"),
        TicketEvent::PrRequested => String::from_str("pr_opening"),
        TicketEvent::PrUrlSet => String::from_str("pending_review"),
        TicketEvent::Closed => String::from_str("closed"),
        TicketEvent::DeploySucceeded => String::from_str("awaiting_you"),
        TicketEvent::DeployFailed => String::from_str("failed"),
    }
}

/// Every status the server sets, on an event or at a human's request, is one of
/// `ticket_statuses`; new tickets start with one too.
pub proof fn statuses_are_known(e: TicketEvent, requested: Seq<char>)
    ensures
        ticket_statuses().contains(status_after_event(e)),
        ticket_statuses().contains("queued"@),
        human_status_of(requested) matches Some(s) ==> ticket_statuses().contains(s),
{
    let l = ticket_statuses();
    assert(l[0] == "queued"@);
    match e {
        TicketEvent::DispatchStarted => assert(l[1] == status_after_event(e)),
        TicketEvent::DispatchFailed => assert(l[6] == status_after_event(e)),
        TicketEvent::PrRequested => assert(l[3] == status_after_event(e)),
        TicketEvent::PrUrlSet => assert(l[4] == status_after_event(e)),
        TicketEvent::Closed => assert(l[5] == status_after_event(e)),
        TicketEvent::DeploySucceeded => assert(l[2] == status_after_event(e)),
        TicketEvent::DeployFailed => assert(l[6] == status_after_event(e)),
    }
    if human_status_of(requested) is Some {
        let s = human_status_of(requested).unwrap();
        if s == "open"@ {
            assert(l[7] == s);
        } else if s == "awaiting_you"@ {
            assert(l[2] == s);
        } else if s == "pending_review"@ {
            assert(l[4] == s);
        } else if s == "closed"@ {
            assert(l[5] == s);
        } else if s == "failed"@ {
            assert(l[6] == s);
        } else {
            assert(l[8] == s);
        }
    }
}

} // verus!
