use lyra::error::ApiError;
use lyra::permissions::{
    decide, new_permission_request, opencode_reply, permission_from_row, query_status, reply_to_send,
    PermissionQuery, PermissionRow,
};

fn row(status: &str, used: bool) -> PermissionRow {
    PermissionRow {
        id: 1,
        ticket_id: Some(1),
        author_name: Some("Mark".into()),
        author_type: Some("Agent".into()),
        author_role: Some("Engineer".into()),
        model: Some("Grok4.6".into()),
        tool: Some("bash".into()),
        payload: Some("rm -rf /tmp/x".into()),
        status: Some(status.into()),
        opencode_session_id: Some("s".into()),
        permission_id: Some("perm-1".into()),
        is_used: used,
    }
}

#[test]
fn pending_requests_read_with_display() {
    let p = permission_from_row(&row("pending", false));
    assert_eq!(p.display, "Mark:Grok4.6");
    assert_eq!(p.tool, "bash");
    assert_eq!(p.status, "pending");
    assert!(!p.is_used);
}

#[test]
fn decisions_happen_once() {
    let denied = decide(Some(&row("pending", false)), false).ok().unwrap();
    assert_eq!(denied.row.status.as_deref(), Some("denied"));
    assert!(denied.row.is_used);
    assert_eq!(denied.row.tool.as_deref(), Some("bash"));
    assert_eq!(denied.reply.as_ref().unwrap().response, "reject");
    let approved = decide(Some(&row("pending", false)), true).ok().unwrap();
    assert_eq!(approved.row.status.as_deref(), Some("approved"));
    let r = approved.reply.unwrap();
    assert_eq!((r.session_id.as_str(), r.permission_id.as_str(), r.response.as_str()), ("s", "perm-1", "once"));
    // the stored decision reads back decided, and cannot be decided again
    let p = permission_from_row(&approved.row);
    assert_eq!(p.status, "approved");
    assert!(p.is_used);
    assert_eq!(decide(Some(&approved.row), false).err().unwrap(), ApiError::AlreadyDecided);
    let mut no_session = row("pending", false);
    no_session.opencode_session_id = None;
    assert!(decide(Some(&no_session), true).ok().unwrap().reply.is_none());
    let err = decide(Some(&row("denied", true)), true).err().unwrap();
    assert_eq!(err, ApiError::AlreadyDecided);
    assert_eq!(err.status_code(), 409);
    assert_eq!(err.code_string(), "already_decided");
    assert_eq!(decide(Some(&row("pending", true)), true).err().unwrap(), ApiError::AlreadyDecided);
    assert_eq!(decide(None, true).err().unwrap(), ApiError::NotFound);
}

#[test]
fn listing_defaults_to_pending() {
    assert_eq!(query_status(&PermissionQuery { status: None }), "pending");
    assert_eq!(query_status(&PermissionQuery { status: Some("approved".into()) }), "approved");
}

#[test]
fn opencode_is_told_once_or_reject() {
    assert_eq!(opencode_reply(true), "once");
    assert_eq!(opencode_reply(false), "reject");
}

#[test]
fn agent_requests_start_pending() {
    let r = new_permission_request(1, 2, "Mark", "Engineer", "Grok4.6", "bash", "ls", "perm-1", None);
    assert_eq!(r.status, "pending");
    assert_eq!(r.author_type, "Agent");
    assert_eq!(r.opencode_session_id, "");
}

#[test]
fn replies_go_to_the_named_session_and_prompt() {
    let r = reply_to_send(&row("pending", false), true).unwrap();
    assert_eq!((r.session_id.as_str(), r.permission_id.as_str(), r.response.as_str()), ("s", "perm-1", "once"));
    assert_eq!(reply_to_send(&row("pending", false), false).unwrap().response, "reject");
    let mut no_session = row("pending", false);
    no_session.opencode_session_id = None;
    assert!(reply_to_send(&no_session, true).is_none());
    let mut no_prompt = row("pending", false);
    no_prompt.permission_id = Some(String::new());
    assert!(reply_to_send(&no_prompt, true).is_none());
}
