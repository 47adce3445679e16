use lyra::auth::UserRow;
use lyra::error::ApiError;
use lyra::mcp::{
    agent_comment, plan_tool_call, rpc_method, tool_defs, tool_result_text, RpcMethod, ToolArgs,
    ToolCall,
};

fn agent(role: &str) -> UserRow {
    UserRow {
        id: 2,
        username: "mark-eng".into(),
        password: "h".into(),
        user_type: "Agent".into(),
        role: role.into(),
        name: "Mark".into(),
        email: "mark@agent.lyra".into(),
        token_hash: "h".into(),
        default_model: "Grok4.6".into(),
    }
}

fn args() -> ToolArgs {
    ToolArgs {
        ticket_id: None,
        text: None,
        model: None,
        status: None,
        url: None,
        tool: None,
        payload: None,
        permission_id: None,
    }
}

#[test]
fn methods_are_recognised() {
    assert!(matches!(rpc_method("initialize"), RpcMethod::Initialize));
    assert!(matches!(rpc_method("ping"), RpcMethod::Ping));
    assert!(matches!(rpc_method("tools/list"), RpcMethod::ToolsList));
    assert!(matches!(rpc_method("tools/call"), RpcMethod::ToolsCall));
    assert!(matches!(rpc_method("notifications/initialized"), RpcMethod::NotificationsInitialized));
    assert!(matches!(rpc_method("resources/list"), RpcMethod::Unknown));
}

#[test]
fn comment_tool_uses_default_model() {
    let a = ToolArgs { ticket_id: Some(3), text: Some("## done".into()), ..args() };
    match plan_tool_call(&agent("Engineer"), "lyra_add_comment", &a).unwrap() {
        ToolCall::AddComment { ticket_id, text, model } => {
            assert_eq!(ticket_id, 3);
            assert_eq!(text, "## done");
            assert_eq!(model, "Grok4.6");
        }
        _ => panic!("expected a comment"),
    }
    let a = ToolArgs { ticket_id: Some(3), text: Some("x".into()), model: Some("Other".into()), ..args() };
    match plan_tool_call(&agent("Engineer"), "lyra_add_comment", &a).unwrap() {
        ToolCall::AddComment { model, .. } => assert_eq!(model, "Other"),
        _ => panic!("expected a comment"),
    }
}

#[test]
fn missing_arguments_are_named() {
    let err = plan_tool_call(&agent("Engineer"), "lyra_add_comment", &ToolArgs { ticket_id: Some(3), text: Some(String::new()), ..args() })
        .err()
        .unwrap();
    assert_eq!(err, ApiError::MissingArgument("text".into()));
    assert_eq!(err.code_string(), "missing text");
    assert_eq!(err.status_code(), 400);
    let err = plan_tool_call(&agent("Engineer"), "lyra_get_ticket", &args()).err().unwrap();
    assert_eq!(err, ApiError::MissingArgument("ticket_id".into()));
}

#[test]
fn status_and_pr_tools_are_for_engineers() {
    let a = ToolArgs { ticket_id: Some(3), status: Some("awaiting_you".into()), url: Some("https://x/pr/1".into()), ..args() };
    match plan_tool_call(&agent("Engineer"), "lyra_set_status", &a).unwrap() {
        ToolCall::SetStatus { ticket_id, status } => {
            assert_eq!(ticket_id, 3);
            assert_eq!(status, "awaiting_you");
        }
        _ => panic!("expected a status change"),
    }
    assert!(matches!(plan_tool_call(&agent("Engineer"), "lyra_set_pr_url", &a).unwrap(), ToolCall::SetPrUrl { .. }));
    assert!(matches!(plan_tool_call(&agent("Engineer"), "lyra_update_pr_url", &a).unwrap(), ToolCall::SetPrUrl { .. }));
    assert_eq!(plan_tool_call(&agent("Designer"), "lyra_set_status", &a).err().unwrap(), ApiError::NotEngineer);
    assert_eq!(plan_tool_call(&agent("Designer"), "lyra_set_pr_url", &a).err().unwrap(), ApiError::NotEngineer);
    assert!(matches!(plan_tool_call(&agent("Designer"), "lyra_get_ticket", &a).unwrap(), ToolCall::GetTicket { ticket_id: 3 }));
    assert!(matches!(plan_tool_call(&agent("Engineer"), "lyra_dance", &a).unwrap(), ToolCall::Unknown));
}

#[test]
fn tool_results_say_what_happened() {
    let c = ToolCall::AddComment { ticket_id: 12, text: "t".into(), model: "m".into() };
    assert_eq!(tool_result_text(&c).unwrap(), "comment added on ticket 12");
    let s = ToolCall::SetStatus { ticket_id: 12, status: "awaiting_you".into() };
    assert_eq!(tool_result_text(&s).unwrap(), "ticket 12 status awaiting_you");
    let p = ToolCall::SetPrUrl { ticket_id: 12, url: "u".into() };
    assert_eq!(tool_result_text(&p).unwrap(), "ticket 12 pr u");
    assert!(tool_result_text(&ToolCall::GetTicket { ticket_id: 1 }).is_none());
    let n = agent_comment(&agent("Engineer"), 12, "## done", "Grok4.6");
    assert_eq!(n.author_name, "Mark");
    assert_eq!(n.author_type, "Agent");
    assert_eq!(n.format, "markdown");
}

#[test]
fn catalogue_lists_the_documented_tools() {
    let defs = tool_defs();
    let names: Vec<&str> = defs.iter().map(|d| d.name.as_str()).collect();
    assert_eq!(
        names,
        vec![
            "lyra_get_ticket",
            "lyra_add_comment",
            "lyra_request_permission",
            "lyra_set_status",
            "lyra_update_pr_url",
        ]
    );
    assert_eq!(defs[0].description, "Get a Lyra ticket and its comments");
    assert_eq!(defs[1].required, vec!["ticket_id".to_string(), "text".to_string()]);
    let params: Vec<(&str, &str)> =
        defs[1].params.iter().map(|p| (p.name.as_str(), p.json_type.as_str())).collect();
    assert_eq!(params, vec![("ticket_id", "integer"), ("text", "string"), ("model", "string")]);
    assert_eq!(defs[2].required, vec!["ticket_id".to_string(), "tool".to_string()]);
    assert_eq!(defs[4].required, vec!["ticket_id".to_string(), "url".to_string()]);
}

#[test]
fn every_listed_tool_is_carried_out_when_complete() {
    let full = ToolArgs {
        ticket_id: Some(9),
        text: Some("t".into()),
        model: None,
        status: Some("failed".into()),
        url: Some("https://gh/pr/2".into()),
        tool: Some("bash".into()),
        payload: Some("ls".into()),
        permission_id: None,
    };
    for d in tool_defs() {
        let r = plan_tool_call(&agent("Engineer"), &d.name, &full);
        assert!(matches!(r, Ok(ref c) if !matches!(c, ToolCall::Unknown)), "{}", d.name);
        let r = plan_tool_call(&agent("Engineer"), &d.name, &args());
        assert!(matches!(r, Err(ApiError::MissingArgument(_))), "{}", d.name);
    }
}

#[test]
fn any_agent_may_request_permission() {
    let a = ToolArgs {
        ticket_id: Some(4),
        tool: Some("bash".into()),
        payload: Some("rm -rf /tmp/x".into()),
        permission_id: Some("perm-1".into()),
        ..args()
    };
    match plan_tool_call(&agent("Designer"), "lyra_request_permission", &a).unwrap() {
        ToolCall::RequestPermission { ticket_id, tool, payload, permission_id, model } => {
            assert_eq!(ticket_id, 4);
            assert_eq!((tool.as_str(), payload.as_str(), permission_id.as_str()), ("bash", "rm -rf /tmp/x", "perm-1"));
            assert_eq!(model, "Grok4.6");
        }
        _ => panic!("expected a permission request"),
    }
    let no_tool = ToolArgs { ticket_id: Some(4), ..args() };
    assert_eq!(
        plan_tool_call(&agent("Designer"), "lyra_request_permission", &no_tool).err().unwrap(),
        ApiError::MissingArgument("tool".into())
    );
    let c = ToolCall::RequestPermission {
        ticket_id: 4,
        tool: "bash".into(),
        payload: String::new(),
        permission_id: String::new(),
        model: "m".into(),
    };
    assert_eq!(tool_result_text(&c).unwrap(), "permission requested on ticket 4");
    let u = ToolArgs { ticket_id: Some(4), url: Some("https://gh/pr/3".into()), ..args() };
    assert!(matches!(
        plan_tool_call(&agent("Engineer"), "lyra_update_pr_url", &u),
        Ok(ToolCall::SetPrUrl { .. })
    ));
}
