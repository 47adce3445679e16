//! The server's route tests, run against the decisions each handler makes: the
//! same inputs and expected answers, without the database around them.

use lyra::auth::{
    code_exchange_fields, consume_outcome, current_user, issue_tokens, oauth_authorize,
    redeem_code, require_agent, require_claim, require_human, token_response, AuthorizeRequest,
    CodeRow, GrantStep, TokenRequest, UserRow,
};
use lyra::crypto::{hash_password, pkce_s256};
use lyra::deploy::{deploy_config, skipped_message};
use lyra::env::Env;
use lyra::error::{found, ApiError};
use lyra::jwt::{access_claim, Claim};
use lyra::mcp::{agent_comment, plan_tool_call, ToolArgs, ToolCall};
use lyra::migrate::{already_applied, migration_step, split_sql, MigrationAction};
use lyra::permissions::{decide, new_permission_request, permission_from_row, PermissionRow};
use lyra::projects::{create_project, CreateProject, CREATED};
use lyra::request_log::path_only;
use lyra::tickets::{
    add_comment, check_deployable, comment_from_row, create_ticket, human_status, stored_ticket,
    system_comment, ticket_from_row, CommentCreate, CommentRow, Ticket, TicketCreate, TicketRow,
};

fn user() -> UserRow {
    UserRow {
        id: 1,
        username: "eyan".into(),
        password: hash_password("secret-pass").unwrap(),
        user_type: "Human".into(),
        role: "Owner".into(),
        name: "Eyan".into(),
        email: "eyan@local".into(),
        token_hash: String::new(),
        default_model: String::new(),
    }
}

fn agent() -> UserRow {
    let hash = hash_password("agent-token").unwrap();
    UserRow {
        id: 2,
        username: "mark-eng".into(),
        password: hash.clone(),
        user_type: "Agent".into(),
        role: "Engineer".into(),
        name: "Mark".into(),
        email: "mark@agent.lyra".into(),
        token_hash: hash,
        default_model: "Grok4.6".into(),
    }
}

fn authorize(password: &str, challenge: &str) -> AuthorizeRequest {
    AuthorizeRequest {
        username: "eyan".into(),
        password: password.into(),
        client_id: "lyra-ios".into(),
        code_challenge: challenge.into(),
        code_challenge_method: "S256".into(),
    }
}

fn code_request(code: &str, verifier: &str) -> TokenRequest {
    TokenRequest {
        grant_type: "authorization_code".into(),
        client_id: Some("lyra-ios".into()),
        code: Some(code.into()),
        code_verifier: Some(verifier.into()),
        refresh_token: None,
    }
}

fn jwt(user_type: &str, role: &str) -> Result<Claim, ApiError> {
    require_claim(true, Some("Bearer t"), Some(access_claim(1000, "eyan", user_type, role, "Eyan")))
}

fn human(user_type: &str, role: &str) -> Result<Claim, ApiError> {
    require_human(true, Some("Bearer t"), Some(access_claim(1000, "eyan", user_type, role, "Eyan")))
}

fn no_jwt() -> Result<Claim, ApiError> {
    require_claim(true, None, None)
}

fn task() -> TicketCreate {
    TicketCreate { name: "Task".into(), description: "Do the thing".into(), project_id: 1 }
}

fn ticket_with_status(status: &str) -> Ticket {
    let row = TicketRow {
        id: 1,
        name: "Task".into(),
        description: "Do the thing".into(),
        project_id: Some(1),
        status: Some(status.into()),
        github_pr_url: None,
        last_model: None,
    };
    ticket_from_row(&row, vec![])
}

// --- auth ---

#[test]
fn pkce_login_issues_jwt_and_current_user() {
    let verifier = "pkce-verifier-value-that-is-long-enough";
    let challenge = pkce_s256(verifier);
    let code = oauth_authorize(&authorize("secret-pass", &challenge), true, Some(user()), 1000).unwrap();
    let row = CodeRow {
        code_challenge: code.code_challenge.clone(),
        username: code.username.clone(),
        expires_at: code.expires_at.clone(),
        client_id: code.client_id.clone(),
    };
    let ex = code_exchange_fields(&code_request(&code.code, verifier)).unwrap();
    let username = match redeem_code(&ex, Some(row), 1010) {
        GrantStep::Redeem(u) => u,
        _ => panic!("the code should be redeemed"),
    };
    assert_eq!(consume_outcome(Some(1)), Ok(()));
    assert_eq!(username, "eyan");
    let (u, refresh) = issue_tokens(true, Some(user()), 1010).unwrap();
    let claim = access_claim(1010, &u.username, &u.user_type, &u.role, &u.name);
    let token = token_response("signed-access-token".into(), refresh.token);
    assert_eq!(token.token_type, "Bearer");
    assert!(!token.access_token.is_empty());
    let me = current_user(require_claim(true, Some("Bearer signed-access-token"), Some(claim)), Some(user()))
        .unwrap();
    assert_eq!(me.username, "eyan");
    assert_eq!(me.user_type, "Human");
    assert_eq!(me.name, "Eyan");
}

#[test]
fn wrong_password_is_rejected() {
    assert!(oauth_authorize(&authorize("nope", "abc"), true, Some(user()), 1000).is_err());
}

#[test]
fn zero_expires_at_is_invalid_grant() {
    let row = CodeRow {
        code_challenge: "challenge".into(),
        username: "eyan".into(),
        expires_at: "0".into(),
        client_id: "lyra-ios".into(),
    };
    let ex = code_exchange_fields(&code_request("dead-code", "unused")).unwrap();
    match redeem_code(&ex, Some(row), 1000) {
        GrantStep::Refuse(e) => {
            assert_eq!(e.status_code(), 401);
            assert_eq!(e.body().error, "invalid_grant");
        }
        _ => panic!("a zero expiry must be refused"),
    }
}

#[test]
fn reused_code_is_invalid_grant() {
    let verifier = "pkce-verifier-value-that-is-long-enough";
    let code = oauth_authorize(&authorize("secret-pass", &pkce_s256(verifier)), true, Some(user()), 1000)
        .unwrap();
    let row = CodeRow {
        code_challenge: code.code_challenge.clone(),
        username: code.username.clone(),
        expires_at: code.expires_at.clone(),
        client_id: code.client_id.clone(),
    };
    let ex = code_exchange_fields(&code_request(&code.code, verifier)).unwrap();
    assert!(matches!(redeem_code(&ex, Some(row), 1010), GrantStep::Redeem(_)));
    // the first exchange deleted the code, so the second finds no row
    match redeem_code(&ex, None, 1020) {
        GrantStep::Refuse(e) => {
            assert_eq!(e.status_code(), 401);
            assert_eq!(e.body().error, "invalid_grant");
        }
        _ => panic!("a reused code must be refused"),
    }
}

// --- deploy ---

#[test]
fn deploy_without_jwt_is_unauthorized() {
    let err = require_human(true, None, None).err().unwrap();
    assert_eq!(err.status_code(), 401);
    assert_eq!(err.body().error, "invalid_token");
}

#[test]
fn deploy_agent_jwt_is_forbidden() {
    let err = human("Agent", "Engineer").err().unwrap();
    assert_eq!(err.status_code(), 403);
    assert_eq!(err.body().error, "not_human");
}

#[test]
fn deploy_missing_ticket_is_not_found() {
    assert!(human("Human", "Owner").is_ok());
    let err = found::<Ticket>(None).err().unwrap();
    assert_eq!(err.status_code(), 404);
    assert_eq!(err.body().error, "not_found");
}

#[test]
fn deploy_queued_ticket_is_not_ready() {
    let err = check_deployable(&ticket_with_status("queued")).err().unwrap();
    assert_eq!(err.status_code(), 409);
    assert_eq!(err.body().error, "not_ready");
}

#[test]
fn deploy_skips_when_repo_dir_unset() {
    let ticket = ticket_with_status("pending_review");
    assert!(check_deployable(&ticket).is_ok());
    assert_eq!(ticket.status, "pending_review");
    assert!(deploy_config(&Env { vars: vec![] }).is_none());
    let comment = system_comment(ticket.id, &skipped_message());
    assert!(comment.text.contains("LYRA_REPO_DIR"), "skip comment: {}", comment.text);
    assert_eq!(comment.author_type, "system");
    assert_eq!(comment.format, "markdown");
}

#[test]
fn deploy_human_with_empty_role_is_allowed() {
    assert!(human("Human", "").is_ok());
    assert!(check_deployable(&ticket_with_status("pending_review")).is_ok());
    assert!(skipped_message().contains("LYRA_REPO_DIR"));
}

// --- mcp ---

#[test]
fn mcp_rejects_missing_auth() {
    let err = require_agent(None, None, None).err().unwrap();
    assert_eq!(err.status_code(), 401);
}

#[test]
fn mcp_agent_can_comment_and_set_status() {
    let a = require_agent(Some("mark-eng"), Some("Bearer agent-token"), Some(agent())).unwrap();
    let args = ToolArgs { ticket_id: Some(1), text: Some("## done".into()), model: None, status: None, url: None, tool: None, payload: None, permission_id: None };
    let comment = match plan_tool_call(&a, "lyra_add_comment", &args).unwrap() {
        ToolCall::AddComment { ticket_id, text, model } => agent_comment(&a, ticket_id, &text, &model),
        _ => panic!("expected a comment"),
    };
    let args = ToolArgs { ticket_id: Some(1), text: None, model: None, status: Some("awaiting_you".into()), url: None, tool: None, payload: None, permission_id: None };
    match plan_tool_call(&a, "lyra_set_status", &args).unwrap() {
        ToolCall::SetStatus { status, .. } => assert_eq!(status, "awaiting_you"),
        _ => panic!("expected a status change"),
    }
    let read = comment_from_row(&CommentRow {
        id: 1,
        ticket_id: comment.ticket_id,
        text: comment.text.clone(),
        author_name: Some(comment.author_name.clone()),
        author_type: Some(comment.author_type.clone()),
        author_role: Some(comment.author_role.clone()),
        model: Some(comment.model.clone()),
        format: Some(comment.format.clone()),
    });
    assert_eq!(read.display, "Mark:Grok4.6");
    assert_eq!(comment.model, "Grok4.6");
}

// --- migrations ---

#[test]
fn applies_001_and_is_idempotent() {
    // first run: nothing recorded, so 001's up script runs and the run goes on
    let recorded = already_applied(None, "001");
    assert!(!recorded);
    assert!(matches!(migration_step(recorded, None), MigrationAction::RunUp));
    assert!(matches!(migration_step(recorded, Some(true)), MigrationAction::Next));
    // second run: 001 is recorded, so it is skipped
    let recorded = already_applied(Some("001"), "001");
    assert!(recorded);
    assert!(matches!(migration_step(recorded, None), MigrationAction::Skip));
}

#[test]
fn failed_up_runs_down() {
    let up = "ALTER TABLE tickets ADD COLUMN status TEXT DEFAULT 'queued'; SELECT * FROM missing_table;";
    let down = "ALTER TABLE tickets DROP COLUMN status;";
    assert_eq!(
        split_sql(up),
        vec![
            "ALTER TABLE tickets ADD COLUMN status TEXT DEFAULT 'queued'".to_string(),
            "SELECT * FROM missing_table".to_string(),
        ]
    );
    assert_eq!(split_sql(down), vec!["ALTER TABLE tickets DROP COLUMN status".to_string()]);
    // the up script fails on its second statement: the down script runs and the run stops
    let recorded = already_applied(None, "001");
    assert!(matches!(migration_step(recorded, None), MigrationAction::RunUp));
    assert!(matches!(migration_step(recorded, Some(false)), MigrationAction::RollBackAndStop));
}

// --- permissions ---

#[test]
fn list_and_deny_pending_permission() {
    let new = new_permission_request(1, 2, "Mark", "Engineer", "Grok4.6", "bash", "rm -rf /tmp/x", "perm-1", None);
    let row = PermissionRow {
        id: 1,
        ticket_id: Some(new.ticket_id),
        author_name: Some(new.author_name.clone()),
        author_type: Some(new.author_type.clone()),
        author_role: Some(new.author_role.clone()),
        model: Some(new.model.clone()),
        tool: Some(new.tool.clone()),
        payload: Some(new.payload.clone()),
        status: Some(new.status.clone()),
        opencode_session_id: Some(new.opencode_session_id.clone()),
        permission_id: Some(new.permission_id.clone()),
        is_used: false,
    };
    assert!(human("Human", "Owner").is_ok());
    let listed = permission_from_row(&row);
    assert_eq!(listed.status, "pending");
    assert_eq!(listed.display, "Mark:Grok4.6");
    assert_eq!(listed.tool, "bash");
    let decided = decide(Some(&row), false).ok().unwrap().row;
    assert_eq!(permission_from_row(&decided).status, "denied");
    // the decided request is no longer pending, and a second decision is refused
    assert_ne!(permission_from_row(&decided).status, "pending");
    assert_eq!(decide(Some(&decided), true).err().unwrap(), ApiError::AlreadyDecided);
}

#[test]
fn list_without_jwt_is_unauthorized() {
    assert_eq!(require_human(true, None, None).err().unwrap().status_code(), 401);
}

// --- projects ---

fn project() -> CreateProject {
    CreateProject { name: "Lyra".into(), description: "App".into() }
}

#[test]
fn create_project_without_jwt_is_unauthorized() {
    let err = create_project(&project(), require_human(true, None, None)).err().unwrap();
    assert_eq!(err.status_code(), 401);
    assert_eq!(err.body().error, "invalid_token");
}

#[test]
fn create_project_with_agent_jwt_is_forbidden() {
    let err = create_project(&project(), human("Agent", "Engineer")).err().unwrap();
    assert_eq!(err.status_code(), 403);
    assert_eq!(err.body().error, "not_human");
}

#[test]
fn human_can_create_project() {
    let (name, description) = create_project(&project(), human("Human", "Owner")).unwrap();
    assert_eq!((name.as_str(), description.as_str()), ("Lyra", "App"));
    assert_eq!(CREATED, 201);
}

// --- request log ---

#[test]
fn insert_log_stores_status_and_path_not_query() {
    assert_eq!(path_only("/tickets/1", Some("token=secret")), "/tickets/1");
    assert_eq!(path_only("/tickets/1", None), "/tickets/1");
}

// --- tickets ---

#[test]
fn get_ticket_includes_markdown_comment_display() {
    let new = create_ticket(&task(), human("Human", "Owner")).unwrap();
    let ticket = stored_ticket(1, &new);
    assert_eq!(ticket.status, "queued");
    let c = comment_from_row(&CommentRow {
        id: 1,
        ticket_id: ticket.id,
        text: "## done".into(),
        author_name: Some("Mark".into()),
        author_type: Some("Agent".into()),
        author_role: Some("Engineer".into()),
        model: Some("Grok4.6".into()),
        format: Some("markdown".into()),
    });
    assert_eq!(c.display, "Mark:Grok4.6");
    assert_eq!(c.format, "markdown");
}

#[test]
fn request_pr_without_token_is_unauthorized() {
    let err = no_jwt().err().unwrap();
    assert_eq!(err.status_code(), 401);
    assert_eq!(err.body().error, "invalid_token");
}

#[test]
fn get_ticket_missing_is_not_found() {
    let err = found::<Ticket>(None).err().unwrap();
    assert_eq!(err.status_code(), 404);
    assert_eq!(err.body().error, "not_found");
}

#[test]
fn add_comment_empty_text_is_bad_request() {
    let err = add_comment(1, &CommentCreate { text: "   ".into() }, human("Human", "Owner")).err().unwrap();
    assert_eq!(err.status_code(), 400);
    assert_eq!(err.body().error, "empty_text");
}

#[test]
fn add_comment_without_token_is_unauthorized() {
    let err = add_comment(1, &CommentCreate { text: "hello".into() }, no_jwt()).err().unwrap();
    assert_eq!(err.status_code(), 401);
    assert_eq!(err.body().error, "invalid_token");
}

#[test]
fn human_can_set_open_status() {
    assert!(human("Human", "Owner").is_ok());
    assert_eq!(human_status("open").unwrap(), "open");
}

#[test]
fn set_status_agent_jwt_is_forbidden() {
    assert!(jwt("Agent", "Engineer").is_ok());
    let err = human("Agent", "Engineer").err().unwrap();
    assert_eq!(err.status_code(), 403);
    assert_eq!(err.body().error, "not_human");
}

#[test]
fn set_status_queued_is_invalid() {
    let err = human_status("queued").err().unwrap();
    assert_eq!(err.status_code(), 400);
    assert_eq!(err.body().error, "invalid_status");
}

#[test]
fn create_ticket_without_token_is_unauthorized() {
    let err = create_ticket(&task(), no_jwt()).err().unwrap();
    assert_eq!(err.status_code(), 401);
    assert_eq!(err.body().error, "invalid_token");
}
