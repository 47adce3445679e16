use lyra::error::ApiError;
use lyra::jwt::access_claim;
use lyra::tickets::{
    add_comment, assemble_tickets, check_deployable, comment_from_row, comments_of_ticket,
    create_ticket, display_for, human_status, status_after, stored_ticket, system_comment,
    ticket_from_row, update_outcome, CommentCreate, CommentRow, TicketCreate, TicketEvent,
    TicketRow,
};

fn comment_row(id: i64, ticket_id: i64) -> CommentRow {
    CommentRow {
        id,
        ticket_id,
        text: "## done".into(),
        author_name: Some("Mark".into()),
        author_type: Some("Agent".into()),
        author_role: Some("Engineer".into()),
        model: Some("Grok4.6".into()),
        format: Some("markdown".into()),
    }
}

fn ticket_row(id: i64, status: Option<&str>) -> TicketRow {
    TicketRow {
        id,
        name: "Task".into(),
        description: "Do the thing".into(),
        project_id: Some(1),
        status: status.map(|s| s.to_string()),
        github_pr_url: None,
        last_model: None,
    }
}

#[test]
fn display_names_agents_with_their_model() {
    assert_eq!(display_for("Mark", "Agent", "Grok4.6"), "Mark:Grok4.6");
    assert_eq!(display_for("Mark", "agent", "Grok4.6"), "Mark:Grok4.6");
    assert_eq!(display_for("Mark", "Agent", ""), "Mark");
    assert_eq!(display_for("Eyan", "Human", "Grok4.6"), "Eyan");
}

#[test]
fn comments_read_with_defaults() {
    let c = comment_from_row(&comment_row(1, 7));
    assert_eq!(c.display, "Mark:Grok4.6");
    assert_eq!(c.format, "markdown");
    let bare = CommentRow {
        id: 2,
        ticket_id: 7,
        text: "hi".into(),
        author_name: None,
        author_type: None,
        author_role: None,
        model: None,
        format: None,
    };
    let c = comment_from_row(&bare);
    assert_eq!(c.author_name, "");
    assert_eq!(c.format, "markdown");
    assert_eq!(c.display, "");
}

#[test]
fn tickets_read_with_defaults() {
    let t = ticket_from_row(&ticket_row(3, None), vec![]);
    assert_eq!(t.status, "queued");
    assert_eq!(t.github_pr_url, "");
    let mut row = ticket_row(4, Some("running"));
    row.project_id = None;
    let t = ticket_from_row(&row, vec![]);
    assert_eq!(t.status, "running");
    assert_eq!(t.project_id, 0);
}

#[test]
fn ticket_list_attaches_each_tickets_comments() {
    let tickets = vec![ticket_row(2, Some("queued")), ticket_row(1, Some("closed"))];
    let comments = vec![comment_row(10, 1), comment_row(11, 2), comment_row(12, 1)];
    let list = assemble_tickets(&tickets, &comments);
    assert_eq!(list.len(), 2);
    assert_eq!(list[0].id, 2);
    assert_eq!(list[0].comments.len(), 1);
    assert_eq!(list[0].comments[0].id, 11);
    assert_eq!(list[1].comments.iter().map(|c| c.id).collect::<Vec<_>>(), vec![10, 12]);
    assert_eq!(comments_of_ticket(&comments, 3).len(), 0);
}

#[test]
fn new_tickets_start_queued() {
    let payload = TicketCreate { name: "Task".into(), description: "Do the thing".into(), project_id: 1 };
    let t = create_ticket(&payload, Ok(access_claim(0, "eyan", "Human", "Owner", "Eyan"))).unwrap();
    assert_eq!(t.status, "queued");
    let shown = stored_ticket(9, &t);
    assert_eq!(shown.id, 9);
    assert_eq!(shown.status, "queued");
    assert!(shown.comments.is_empty());
    assert_eq!(create_ticket(&payload, Err(ApiError::InvalidToken)).err().unwrap(), ApiError::InvalidToken);
}

#[test]
fn comments_need_text_and_a_token() {
    let claim = access_claim(0, "eyan", "Human", "Owner", "Eyan");
    let err = add_comment(1, &CommentCreate { text: "   ".into() }, Ok(claim.clone())).err().unwrap();
    assert_eq!(err, ApiError::EmptyText);
    assert_eq!(err.status_code(), 400);
    assert_eq!(err.code_string(), "empty_text");
    let err = add_comment(1, &CommentCreate { text: "hello".into() }, Err(ApiError::InvalidToken)).err().unwrap();
    assert_eq!(err, ApiError::InvalidToken);
    let c = add_comment(1, &CommentCreate { text: "hello".into() }, Ok(claim)).unwrap();
    assert_eq!(c.author_name, "Eyan");
    assert_eq!(c.author_type, "Human");
    assert_eq!(c.author_role, "Owner");
    assert_eq!(c.format, "markdown");
}

#[test]
fn humans_set_only_listed_statuses() {
    assert_eq!(human_status("open").unwrap(), "open");
    assert_eq!(human_status("OPEN").unwrap(), "open");
    assert_eq!(human_status("Pending_Review").unwrap(), "pending_review");
    let err = human_status("queued").err().unwrap();
    assert_eq!(err, ApiError::InvalidStatus);
    assert_eq!(err.code_string(), "invalid_status");
    assert!(human_status("running").is_err());
}

#[test]
fn deploy_needs_pending_review() {
    let ready = ticket_from_row(&ticket_row(1, Some("pending_review")), vec![]);
    assert!(check_deployable(&ready).is_ok());
    let queued = ticket_from_row(&ticket_row(1, Some("queued")), vec![]);
    let err = check_deployable(&queued).err().unwrap();
    assert_eq!(err, ApiError::NotReady);
    assert_eq!(err.status_code(), 409);
}

#[test]
fn updates_of_missing_tickets_are_not_found() {
    assert_eq!(update_outcome(Some(0)), Err(ApiError::NotFound));
    assert_eq!(update_outcome(None), Err(ApiError::ServerError));
    assert_eq!(update_outcome(Some(1)), Ok(()));
    assert_eq!(ApiError::NotFound.status_code(), 404);
}

#[test]
fn events_set_statuses() {
    assert_eq!(status_after(TicketEvent::PrRequested), "pr_opening");
    assert_eq!(status_after(TicketEvent::Closed), "closed");
    assert_eq!(status_after(TicketEvent::DispatchStarted), "running");
    assert_eq!(status_after(TicketEvent::PrUrlSet), "pending_review");
    assert_eq!(status_after(TicketEvent::DeploySucceeded), "awaiting_you");
    assert_eq!(status_after(TicketEvent::DeployFailed), "failed");
    let c = system_comment(5, "note");
    assert_eq!(c.author_type, "system");
    assert_eq!(c.format, "markdown");
}
