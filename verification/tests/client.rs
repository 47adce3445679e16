use lyra::client::{
    api_base, check_access_token, check_login_fields, error_message, oauth_client_id,
    permissions_for_ticket, pkce_s256_pair, reply_for, status_label, stored_token,
    tickets_of_project, PermissionRequest, Ticket,
};
use lyra::crypto::pkce_s256;

fn ticket(id: i64, project_id: i64) -> Ticket {
    Ticket {
        id,
        name: "t".into(),
        description: "d".into(),
        project_id,
        status: String::new(),
        github_pr_url: String::new(),
        last_model: String::new(),
        comments: vec![],
    }
}

fn permission(id: i64, ticket_id: i64) -> PermissionRequest {
    PermissionRequest {
        id,
        ticket_id,
        author_name: String::new(),
        author_type: String::new(),
        author_role: String::new(),
        model: String::new(),
        display: String::new(),
        tool: String::new(),
        payload: String::new(),
        status: "pending".into(),
        opencode_session_id: String::new(),
        permission_id: String::new(),
        is_used: false,
    }
}

#[test]
fn api_base_is_trimmed() {
    assert_eq!(api_base(Some(" https://pi:3000/ ")).unwrap(), "https://pi:3000");
    assert!(api_base(Some("  ")).unwrap_err().contains("LYRA_API_BASE"));
    assert!(api_base(None).is_err());
    assert_eq!(oauth_client_id(None), "lyra-ios");
    assert_eq!(oauth_client_id(Some("web")), "web");
}

#[test]
fn pkce_pair_matches_server_check() {
    let (verifier, challenge) = pkce_s256_pair();
    assert_eq!(verifier.len(), 43);
    assert_eq!(pkce_s256(&verifier), challenge);
    assert_ne!(pkce_s256_pair().0, verifier);
}

#[test]
fn stored_tokens_and_errors() {
    assert_eq!(stored_token(Some(" t ".into())), Some("t".to_string()));
    assert_eq!(stored_token(Some("  ".into())), None);
    assert_eq!(error_message(Some("not_human"), "403 Forbidden"), "not_human");
    assert_eq!(error_message(Some(""), "500 Internal Server Error"), "HTTP 500 Internal Server Error");
    assert_eq!(error_message(None, "404 Not Found"), "HTTP 404 Not Found");
    assert!(check_login_fields("eyan", " ").is_err());
    assert!(check_login_fields("eyan", "pw").is_ok());
    assert_eq!(check_access_token("  ").unwrap_err(), "missing access_token");
    assert_eq!(status_label(""), "queued");
    assert_eq!(status_label("running"), "running");
}

#[test]
fn lists_are_narrowed() {
    let ts = vec![ticket(1, 1), ticket(2, 2), ticket(3, 1)];
    assert_eq!(tickets_of_project(&ts, 1), vec![0, 2]);
    assert!(tickets_of_project(&ts, 9).is_empty());
    let ps = vec![permission(1, 5), permission(2, 6)];
    assert_eq!(permissions_for_ticket(&ps, Some(6)), vec![1]);
    assert_eq!(permissions_for_ticket(&ps, None), vec![0, 1]);
}

#[test]
fn chat_replies_by_topic() {
    assert!(reply_for("How do TICKETS work?").starts_with("Open Projects"));
    assert!(reply_for("my project").starts_with("Your active projects"));
    assert!(reply_for("Hello").starts_with("Hi"));
    assert!(reply_for("login help").starts_with("Use your email"));
    assert!(reply_for("???").starts_with("I can help"));
}
