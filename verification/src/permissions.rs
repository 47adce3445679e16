//! Tool-permission requests raised by agents and decided, once, by a human.

use vstd::prelude::*;
use crate::error::ApiError;
use crate::tickets::{display_for, display_of, text_or_empty};
use crate::text::{eq_ignore_case, str_eq};

verus! {

/// The query of `GET /permissions`.
pub struct PermissionQuery {
    pub status: Option<String>,
}

/// A permission request as the API shows it.
pub struct PermissionRequest {
    pub id: i64,
    pub ticket_id: i64,
    pub author_name: String,
    pub author_type: String,
    pub author_role: String,
    pub model: String,
    pub display: String,
    pub tool: String,
    pub payload: String,
    pub status: String,
    pub opencode_session_id: String,
    pub permission_id: String,
    pub is_used: bool,
}

/// A stored permission request; text columns may be empty (NULL).
pub struct PermissionRow {
    pub id: i64,
    pub ticket_id: Option<i64>,
    pub author_name: Option<String>,
    pub author_type: Option<String>,
    pub author_role: Option<String>,
    pub model: Option<String>,
    pub tool: Option<String>,
    pub payload: Option<String>,
    pub status: Option<String>,
    pub opencode_session_id: Option<String>,
    pub permission_id: Option<String>,
    pub is_used: bool,
}

/// A permission request to be stored.
pub struct NewPermissionRequest {
    pub ticket_id: i64,
    pub author_id: i64,
    pub author_name: String,
    pub author_type: String,
    pub author_role: String,
    pub model: String,
    pub opencode_session_id: String,
    pub permission_id: String,
    pub tool: String,
    pub payload: String,
    pub status: String,
}

fn text_of(v: &Option<String>) -> (r: String)
    ensures
        r@ == text_or_empty(*v),
{
    match v {
        Some(s) => s.clone(),
        None => String::new(),
    }
}

/// The status listed when the query names none: `pending`.
pub fn query_status(q: &PermissionQuery) -> (r: String)
    ensures
        match q.status {
            Some(s) => r@ == s@,
            None => r@ == "pending"@,
        },
{
    match &q.status {
        Some(s) => s.clone(),
        None => String::from_str("pending"),
    }
}

/// Whether `p` is how the stored request `row` reads.
pub open spec fn permission_reads(row: PermissionRow, p: PermissionRequest) -> bool {
    &&& p.id == row.id
    &&& p.ticket_id == (match row.ticket_id {
        Some(t) => t,
        None => 0,
    })
    &&& p.author_name@ == text_or_empty(row.author_name)
    &&& p.author_type@ == text_or_empty(row.author_type)
    &&& p.author_role@ == text_or_empty(row.author_role)
    &&& p.model@ == text_or_empty(row.model)
    &&& p.display@ == display_of(
        text_or_empty(row.author_name),
        text_or_empty(row.author_type),
        text_or_empty(row.model),
    )
    &&& p.tool@ == text_or_empty(row.tool)
    &&& p.payload@ == text_or_empty(row.payload)
    &&& p.status@ == text_or_empty(row.status)
    &&& p.opencode_session_id@ == text_or_empty(row.opencode_session_id)
    &&& p.permission_id@ == text_or_empty(row.permission_id)
    &&& p.is_used == row.is_used
}

/// Reads a stored permission request.
pub fn permission_from_row(row: &PermissionRow) -> (p: PermissionRequest)
    ensures
        permission_reads(*row, p),
        p.id == row.id,
        p.ticket_id == (match row.ticket_id {
            Some(t) => t,
            None => 0,
        }),
{
    let author_name: String = text_of(&row.author_name);
    let author_type: String = text_of(&row.author_type);
    let model: String = text_of(&row.model);
    let display: String = display_for(author_name.as_str(), author_type.as_str(), model.as_str());
    PermissionRequest {
        id: row.id,
        ticket_id: match row.ticket_id {
            Some(t) => t,
            None => 0,
        },
        author_name,
        author_type,
        author_role: text_of(&row.author_role),
        model,
        display,
        tool: text_of(&row.tool),
        payload: text_of(&row.payload),
        status: text_of(&row.status),
        opencode_session_id: text_of(&row.opencode_session_id),
        permission_id: text_of(&row.permission_id),
        is_used: row.is_used,
    }
}

/// A request reads as its own row: its id is the row's id and its ticket the
/// row's ticket (0 when none), whatever the id; its tool, payload, status and
/// OpenCode ids are the row's, and whether it is used.
pub proof fn requests_read_their_own_row(row: PermissionRow, p: PermissionRequest)
    requires
        permission_reads(row, p),
    ensures
        p.id == row.id,
        row.ticket_id matches Some(t) ==> p.ticket_id == t,
        row.ticket_id is None ==> p.ticket_id == 0,
        row.author_name matches Some(x) ==> p.author_name@ == x@,
        row.author_type matches Some(x) ==> p.author_type@ == x@,
        row.author_role matches Some(x) ==> p.author_role@ == x@,
        row.model matches Some(x) ==> p.model@ == x@,
        eq_ignore_case(p.author_type@, "Agent"@) && p.model@.len() > 0 ==> p.display@
            == p.author_name@ + ":"@ + p.model@,
        !eq_ignore_case(p.author_type@, "Agent"@) ==> p.display@ == p.author_name@,
        row.tool matches Some(x) ==> p.tool@ == x@,
        row.payload matches Some(x) ==> p.payload@ == x@,
        row.status matches Some(x) ==> p.status@ == x@,
        row.opencode_session_id matches Some(x) ==> p.opencode_session_id@ == x@,
        row.permission_id matches Some(x) ==> p.permission_id@ == x@,
        p.is_used == row.is_used,
{
}

/// The outcome of approving (`allow`) or denying the stored request `row`: it must
/// exist and still be pending and unused; it then becomes `approved` or `denied`.
pub open spec fn decision_of(row: Option<PermissionRow>, allow: bool) -> Result<Seq<char>, ApiError> {
    match row {
        None => Err(ApiError::NotFound),
        Some(r) => if r.is_used || text_or_empty(r.status) != "pending"@ {
            Err(ApiError::AlreadyDecided)
        } else if allow {
            Ok("approved"@)
        } else {
            Ok("denied"@)
        },
    }
}

/// `after` is the request `before` once decided: the same request, with status
/// `status`, marked used.
pub open spec fn decided_as(before: PermissionRow, after: PermissionRow, status: Seq<char>) -> bool {
    &&& after.id == before.id
    &&& after.ticket_id == before.ticket_id
    &&& after.author_name == before.author_name
    &&& after.author_type == before.author_type
    &&& after.author_role == before.author_role
    &&& after.model == before.model
    &&& after.tool == before.tool
    &&& after.payload == before.payload
    &&& after.opencode_session_id == before.opencode_session_id
    &&& after.permission_id == before.permission_id
    &&& after.status matches Some(st) && st@ == status
    &&& after.is_used
}

/// `reply` is what OpenCode is owed once `row` is decided (`allow` for an
/// approval): the request's session and permission prompt with `once` or
/// `reject`, or nothing when the request names no session or no prompt.
pub open spec fn reply_owed(row: PermissionRow, allow: bool, reply: Option<OpenCodeReply>) -> bool {
    &&& reply is Some <==> (text_or_empty(row.opencode_session_id).len() > 0 && text_or_empty(
        row.permission_id,
    ).len() > 0)
    &&& reply matches Some(x) ==> x.session_id@ == text_or_empty(row.opencode_session_id)
        && x.permission_id@ == text_or_empty(row.permission_id) && x.response@ == (if allow {
        "once"@
    } else {
        "reject"@
    })
}

/// A decision: the request as it is to be stored, and the reply OpenCode is owed.
pub struct Decision {
    pub row: PermissionRow,
    pub reply: Option<OpenCodeReply>,
}

fn clone_opt(v: &Option<String>) -> (r: Option<String>)
    ensures
        r == *v,
{
    match v {
        Some(s) => Some(s.clone()),
        None => None,
    }
}

/// Decides a permission request: a missing request is `not_found`, one already
/// decided or used is `already_decided`; otherwise the request is stored with its
/// new status and marked used, and OpenCode is owed its reply.
pub fn decide(row: Option<&PermissionRow>, allow: bool) -> (r: Result<Decision, ApiError>)
    ensures
        match row {
            None => r == Err::<Decision, ApiError>(ApiError::NotFound),
            Some(x) => match decision_of(Some(*x), allow) {
                Ok(s) => r matches Ok(d) && decided_as(*x, d.row, s) && reply_owed(
                    *x,
                    allow,
                    d.reply,
                ),
                Err(e) => r == Err::<Decision, ApiError>(e),
            },
        },
{
    match row {
        None => Err(ApiError::NotFound),
        Some(r) => {
            let current: String = text_of(&r.status);
            if r.is_used || !str_eq(current.as_str(), "pending") {
                return Err(ApiError::AlreadyDecided);
            }
            let status: String = if allow {
                String::from_str("approved")
            } else {
                String::from_str("denied")
            };
            let reply: Option<OpenCodeReply> = reply_to_send(r, allow);
            let decided: PermissionRow = PermissionRow {
                id: r.id,
                ticket_id: r.ticket_id,
                author_name: clone_opt(&r.author_name),
                author_type: clone_opt(&r.author_type),
                author_role: clone_opt(&r.author_role),
                model: clone_opt(&r.model),
                tool: clone_opt(&r.tool),
                payload: clone_opt(&r.payload),
                status: Some(status),
                opencode_session_id: clone_opt(&r.opencode_session_id),
                permission_id: clone_opt(&r.permission_id),
                is_used: true,
            };
            Ok(Decision { row: decided, reply })
        },
    }
}

/// A decided request reads back with its new status, marked used, as the same
/// request.
pub proof fn decided_request_reads_back(
    before: PermissionRow,
    after: PermissionRow,
    status: Seq<char>,
    p: PermissionRequest,
)
    requires
        decided_as(before, after, status),
        permission_reads(after, p),
    ensures
        p.id == before.id,
        p.status@ == status,
        p.is_used,
        p.tool@ == text_or_empty(before.tool),
        p.payload@ == text_or_empty(before.payload),
        p.permission_id@ == text_or_empty(before.permission_id),
{
}

/// An approval of a pending request stores `approved`, a denial `denied`; a
/// request that is used, or no longer pending, is never decided.
pub proof fn approvals_approve_and_denials_deny(row: PermissionRow)
    ensures
        !row.is_used && text_or_empty(row.status) == "pending"@ ==> decision_of(Some(row), true)
            == Ok::<Seq<char>, ApiError>("approved"@) && decision_of(Some(row), false) == Ok::<
            Seq<char>,
            ApiError,
        >("denied"@),
        row.is_used ==> decision_of(Some(row), true) is Err && decision_of(Some(row), false) is Err,
        text_or_empty(row.status) != "pending"@ ==> decision_of(Some(row), true) is Err
            && decision_of(Some(row), false) is Err,
{
}

/// A permission request is decided at most once: after a decision is stored
/// (its status set and the request marked used), any further approve or deny is
/// refused with `already_decided`.
pub proof fn decided_only_once(row: PermissionRow, allow: bool, again: bool, after: PermissionRow)
    requires
        decision_of(Some(row), allow) is Ok,
        after.id == row.id,
        after.is_used,
    ensures
        decision_of(Some(after), again) == Err::<Seq<char>, ApiError>(ApiError::AlreadyDecided),
{
}

/// What OpenCode is told of a decision: `once` for an approval, `reject` for a
/// denial.
pub fn opencode_reply(allow: bool) -> (r: String)
    ensures
        allow ==> r@ == "once"@,
        !allow ==> r@ == "reject"@,
{
    if allow {
        String::from_str("once")
    } else {
        String::from_str("reject")
    }
}

/// The reply OpenCode is sent after a decision: for which session and which of its
/// permission prompts, and the answer.
pub struct OpenCodeReply {
    pub session_id: String,
    pub permission_id: String,
    pub response: String,
}

/// The reply owed to OpenCode once `row` is decided: none when the request names
/// no OpenCode session or no permission prompt.
pub fn reply_to_send(row: &PermissionRow, allow: bool) -> (r: Option<OpenCodeReply>)
    ensures
        reply_owed(*row, allow, r),
{
    let session_id: String = text_of(&row.opencode_session_id);
    let permission_id: String = text_of(&row.permission_id);
    if session_id.as_str().unicode_len() == 0 || permission_id.as_str().unicode_len() == 0 {
        return None;
    }
    Some(OpenCodeReply { session_id, permission_id, response: opencode_reply(allow) })
}

/// A pending request raised by an agent on a ticket; `session` is the ticket's
/// OpenCode session, if it has one.
pub fn new_permission_request(
    ticket_id: i64,
    agent_id: i64,
    author_name: &str,
    author_role: &str,
    model: &str,
    tool: &str,
    payload: &str,
    permission_id: &str,
    session: Option<String>,
) -> (r: NewPermissionRequest)
    ensures
        r.ticket_id == ticket_id,
        r.author_id == agent_id,
        r.author_name@ == author_name@,
        r.author_type@ == "Agent"@,
        r.author_role@ == author_role@,
        r.model@ == model@,
        r.opencode_session_id@ == text_or_empty(session),
        r.permission_id@ == permission_id@,
        r.tool@ == tool@,
        r.payload@ == payload@,
        r.status@ == "pending"@,
{
    NewPermissionRequest {
        ticket_id,
        author_id: agent_id,
        author_name: String::from_str(author_name),
        author_type: String::from_str("Agent"),
        author_role: String::from_str(author_role),
        model: String::from_str(model),
        opencode_session_id: text_of(&session),
        permission_id: String::from_str(permission_id),
        tool: String::from_str(tool),
        payload: String::from_str(payload),
        status: String::from_str("pending"),
    }
}

} // verus!
