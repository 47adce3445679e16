//! The agent-facing JSON-RPC endpoint: which method a call names, and what a tool
//! call asks the server to do.

use vstd::prelude::*;
use crate::auth::UserRow;
use crate::encoding::{decimal_signed, i64_to_string};
use crate::error::ApiError;
use crate::text::str_eq;
use crate::tickets::{text_or_empty, NewComment};

verus! {

/// The JSON-RPC methods the endpoint answers.
pub enum RpcMethod {
    Initialize,
    Ping,
    ToolsList,
    ToolsCall,
    NotificationsInitialized,
    Unknown,
}

/// The method named by `method`.
pub open spec fn method_of(method: Seq<char>) -> RpcMethod {
    if method == "initialize"@ {
        RpcMethod::Initialize
    } else if method == "ping"@ {
        RpcMethod::Ping
    } else if method == "tools/list"@ {
        RpcMethod::ToolsList
    } else if method == "tools/call"@ {
        RpcMethod::ToolsCall
    } else if method == "notifications/initialized"@ {
        RpcMethod::NotificationsInitialized
    } else {
        RpcMethod::Unknown
    }
}

/// The method named by `method`.
pub fn rpc_method(method: &str) -> (r: RpcMethod)
    ensures
        r == method_of(method@),
{
    if str_eq(method, "initialize") {
        RpcMethod::Initialize
    } else if str_eq(method, "ping") {
        RpcMethod::Ping
    } else if str_eq(method, "tools/list") {
        RpcMethod::ToolsList
    } else if str_eq(method, "tools/call") {
        RpcMethod::ToolsCall
    } else if str_eq(method, "notifications/initialized") {
        RpcMethod::NotificationsInitialized
    } else {
        RpcMethod::Unknown
    }
}

/// The arguments of a tool call, as read from its JSON: an integer `ticket_id`
/// and string `text`, `model`, `status`, `url`, `tool`, `payload` and
/// `permission_id`, each absent when missing or of another JSON type.
pub struct ToolArgs {
    pub ticket_id: Option<i64>,
    pub text: Option<String>,
    pub model: Option<String>,
    pub status: Option<String>,
    pub url: Option<String>,
    pub tool: Option<String>,
    pub payload: Option<String>,
    pub permission_id: Option<String>,
}

/// What a tool call asks for.
pub enum ToolCall {
    /// Show a ticket with its comments.
    GetTicket { ticket_id: i64 },
    /// Comment on a ticket as the calling agent, naming the model that wrote it.
    AddComment { ticket_id: i64, text: String, model: String },
    /// Ask a human to allow running `tool` with `payload` on a ticket; the request
    /// is stored pending, as the calling agent's.
    RequestPermission {
        ticket_id: i64,
        tool: String,
        payload: String,
        permission_id: String,
        model: String,
    },
    /// Set a ticket's status.
    SetStatus { ticket_id: i64, status: String },
    /// Store a ticket's PR URL and set it `pending_review`.
    SetPrUrl { ticket_id: i64, url: String },
    /// A tool the endpoint does not offer.
    Unknown,
}

/// A required string argument: present and not empty.
pub open spec fn required_text(v: Option<String>) -> Option<Seq<char>> {
    match v {
        Some(s) => if s@.len() > 0 {
            Some(s@)
        } else {
            None
        },
        None => None,
    }
}

fn required(v: &Option<String>, key: &str) -> (r: Result<String, ApiError>)
    ensures
        match required_text(*v) {
            Some(s) => r matches Ok(x) && x@ == s,
            None => r matches Err(ApiError::MissingArgument(k)) && k@ == key@,
        },
{
    match v {
        Some(s) => if s.as_str().unicode_len() > 0 {
            Ok(s.clone())
        } else {
            Err(ApiError::MissingArgument(String::from_str(key)))
        },
        None => Err(ApiError::MissingArgument(String::from_str(key))),
    }
}

fn text_of(v: &Option<String>) -> (r: String)
    ensures
        r@ == text_or_empty(*v),
{
    match v {
        Some(s) => s.clone(),
        None => String::new(),
    }
}

fn required_id(v: Option<i64>) -> (r: Result<i64, ApiError>)
    ensures
        match v {
            Some(id) => r == Ok::<i64, ApiError>(id),
            None => r matches Err(ApiError::MissingArgument(k)) && k@ == "ticket_id"@,
        },
{
    match v {
        Some(id) => Ok(id),
        None => Err(ApiError::MissingArgument(String::from_str("ticket_id"))),
    }
}

/// Whether an agent may change ticket status and PR URLs: engineers only.
pub open spec fn is_engineer(agent: UserRow) -> bool {
    agent.role@ == "Engineer"@
}

/// Whether `name` is the PR-URL tool (under either of its names).
pub open spec fn is_pr_url_tool(name: Seq<char>) -> bool {
    name == "lyra_set_pr_url"@ || name == "lyra_update_pr_url"@
}

/// What planning a call of tool `name` by `agent` with `args` answers: a missing
/// `ticket_id`, `text`, `tool`, `status` or `url` is refused as missing, and status
/// and PR-URL changes are for engineers only. The model of a comment or a
/// permission request is the one given, or else the agent's default model; a
/// request's missing payload or permission id is empty.
pub open spec fn planned(agent: UserRow, name: Seq<char>, args: ToolArgs, r: Result<
    ToolCall,
    ApiError,
>) -> bool {
    if name == "lyra_get_ticket"@ {
        match args.ticket_id {
            Some(id) => r matches Ok(ToolCall::GetTicket { ticket_id }) && ticket_id == id,
            None => r matches Err(ApiError::MissingArgument(k)) && k@ == "ticket_id"@,
        }
    } else if name == "lyra_add_comment"@ {
        match (args.ticket_id, required_text(args.text)) {
            (None, _) => r matches Err(ApiError::MissingArgument(k)) && k@ == "ticket_id"@,
            (Some(_), None) => r matches Err(ApiError::MissingArgument(k)) && k@ == "text"@,
            (Some(id), Some(t)) => r matches Ok(
                ToolCall::AddComment { ticket_id, text, model },
            ) && ticket_id == id && text@ == t && model@ == (match required_text(args.model) {
                Some(m) => m,
                None => agent.default_model@,
            }),
        }
    } else if name == "lyra_request_permission"@ {
        match (args.ticket_id, required_text(args.tool)) {
            (None, _) => r matches Err(ApiError::MissingArgument(k)) && k@ == "ticket_id"@,
            (Some(_), None) => r matches Err(ApiError::MissingArgument(k)) && k@ == "tool"@,
            (Some(id), Some(t)) => r matches Ok(
                ToolCall::RequestPermission { ticket_id, tool, payload, permission_id, model },
            ) && ticket_id == id && tool@ == t && payload@ == text_or_empty(args.payload)
                && permission_id@ == text_or_empty(args.permission_id) && model@ == (
            match required_text(args.model) {
                Some(m) => m,
                None => agent.default_model@,
            }),
        }
    } else if name == "lyra_set_status"@ {
        if !is_engineer(agent) {
            r == Err::<ToolCall, ApiError>(ApiError::NotEngineer)
        } else {
            match (args.ticket_id, required_text(args.status)) {
                (None, _) => r matches Err(ApiError::MissingArgument(k)) && k@
                    == "ticket_id"@,
                (Some(_), None) => r matches Err(ApiError::MissingArgument(k)) && k@
                    == "status"@,
                (Some(id), Some(s)) => r matches Ok(ToolCall::SetStatus { ticket_id, status })
                    && ticket_id == id && status@ == s,
            }
        }
    } else if is_pr_url_tool(name) {
        if !is_engineer(agent) {
            r == Err::<ToolCall, ApiError>(ApiError::NotEngineer)
        } else {
            match (args.ticket_id, required_text(args.url)) {
                (None, _) => r matches Err(ApiError::MissingArgument(k)) && k@
                    == "ticket_id"@,
                (Some(_), None) => r matches Err(ApiError::MissingArgument(k)) && k@
                    == "url"@,
                (Some(id), Some(u)) => r matches Ok(ToolCall::SetPrUrl { ticket_id, url })
                    && ticket_id == id && url@ == u,
            }
        }
    } else {
        r matches Ok(ToolCall::Unknown)
    }
}

/// Plans a tool call by `agent`, as `planned` says.
pub fn plan_tool_call(agent: &UserRow, name: &str, args: &ToolArgs) -> (r: Result<
    ToolCall,
    ApiError,
>)
    ensures
        planned(*agent, name@, *args, r),
        r matches Ok(ToolCall::AddComment { model, .. }) ==> model@ == (match required_text(
            args.model,
        ) {
            Some(m) => m,
            None => agent.default_model@,
        }),
        r matches Ok(ToolCall::RequestPermission { model, .. }) ==> model@ == (
        match required_text(args.model) {
            Some(m) => m,
            None => agent.default_model@,
        }),
{
    proof {
        names_differ();
    }
    if str_eq(name, "lyra_get_ticket") {
        let id: i64 = required_id(args.ticket_id)?;
        Ok(ToolCall::GetTicket { ticket_id: id })
    } else if str_eq(name, "lyra_add_comment") {
        let id: i64 = required_id(args.ticket_id)?;
        let text: String = required(&args.text, "text")?;
        let model: String = match &args.model {
            Some(m) => if m.as_str().unicode_len() > 0 {
                m.clone()
            } else {
                agent.default_model.clone()
            },
            None => agent.default_model.clone(),
        };
        Ok(ToolCall::AddComment { ticket_id: id, text, model })
    } else if str_eq(name, "lyra_request_permission") {
        let id: i64 = required_id(args.ticket_id)?;
        let tool: String = required(&args.tool, "tool")?;
        let model: String = match &args.model {
            Some(m) => if m.as_str().unicode_len() > 0 {
                m.clone()
            } else {
                agent.default_model.clone()
            },
            None => agent.default_model.clone(),
        };
        Ok(
            ToolCall::RequestPermission {
                ticket_id: id,
                tool,
                payload: text_of(&args.payload),
                permission_id: text_of(&args.permission_id),
                model,
            },
        )
    } else if str_eq(name, "lyra_set_status") {
        if !str_eq(agent.role.as_str(), "Engineer") {
            return Err(ApiError::NotEngineer);
        }
        let id: i64 = required_id(args.ticket_id)?;
        let status: String = required(&args.status, "status")?;
        Ok(ToolCall::SetStatus { ticket_id: id, status })
    } else if str_eq(name, "lyra_set_pr_url") || str_eq(name, "lyra_update_pr_url") {
        if !str_eq(agent.role.as_str(), "Engineer") {
            return Err(ApiError::NotEngineer);
        }
        let id: i64 = required_id(args.ticket_id)?;
        let url: String = required(&args.url, "url")?;
        Ok(ToolCall::SetPrUrl { ticket_id: id, url })
    } else {
        Ok(ToolCall::Unknown)
    }
}

/// The comment an agent's `lyra_add_comment` stores: authored by the agent's name
/// and role, typed `Agent`, in markdown, with the given model.
pub fn agent_comment(agent: &UserRow, ticket_id: i64, text: &str, model: &str) -> (r: NewComment)
    ensures
        r.ticket_id == ticket_id,
        r.text@ == text@,
        r.author_name@ == agent.name@,
        r.author_type@ == "Agent"@,
        r.author_role@ == agent.role@,
        r.model@ == model@,
        r.format@ == "markdown"@,
{
    NewComment {
        ticket_id,
        text: String::from_str(text),
        author_name: agent.name.clone(),
        author_type: String::from_str("Agent"),
        author_role: agent.role.clone(),
        model: String::from_str(model),
        format: String::from_str("markdown"),
    }
}

/// The text a completed tool call answers with (all but `lyra_get_ticket`, which
/// answers with the ticket itself, and unknown tools).
pub fn tool_result_text(call: &ToolCall) -> (r: Option<String>)
    ensures
        match call {
            ToolCall::AddComment { ticket_id, .. } => r matches Some(t) && t@
                == "comment added on ticket "@ + decimal_signed(*ticket_id as int),
            ToolCall::RequestPermission { ticket_id, .. } => r matches Some(t) && t@
                == "permission requested on ticket "@ + decimal_signed(*ticket_id as int),
            ToolCall::SetStatus { ticket_id, status } => r matches Some(t) && t@ == "ticket "@
                + decimal_signed(*ticket_id as int) + " status "@ + status@,
            ToolCall::SetPrUrl { ticket_id, url } => r matches Some(t) && t@ == "ticket "@
                + decimal_signed(*ticket_id as int) + " pr "@ + url@,
            _ => r is None,
        },
{
    match call {
        ToolCall::AddComment { ticket_id, .. } => {
            let mut t: String = String::from_str("comment added on ticket ");
            let n: String = i64_to_string(*ticket_id);
            t.append(n.as_str());
            Some(t)
        },
        ToolCall::RequestPermission { ticket_id, .. } => {
            let mut t: String = String::from_str("permission requested on ticket ");
            let n: String = i64_to_string(*ticket_id);
            t.append(n.as_str());
            Some(t)
        },
        ToolCall::SetStatus { ticket_id, status } => {
            let mut t: String = String::from_str("ticket ");
            let n: String = i64_to_string(*ticket_id);
            t.append(n.as_str());
            t.append(" status ");
            t.append(status.as_str());
            Some(t)
        },
        ToolCall::SetPrUrl { ticket_id, url } => {
            let mut t: String = String::from_str("ticket ");
            let n: String = i64_to_string(*ticket_id);
            t.append(n.as_str());
            t.append(" pr ");
            t.append(url.as_str());
            Some(t)
        },
        _ => None,
    }
}

/// Only engineers change a ticket's status or PR URL: whatever the tool name and
/// arguments, a planned status or PR-URL change was asked by an engineer.
pub proof fn only_engineers_change_tickets(
    agent: UserRow,
    name: Seq<char>,
    args: ToolArgs,
    r: Result<ToolCall, ApiError>,
)
    requires
        planned(agent, name, args, r),
        r matches Ok(c) && (c is SetStatus || c is SetPrUrl),
    ensures
        is_engineer(agent),
{
}

// ---------------------------------------------------------------------------
// The tool catalogue (`tools/list`)
// ---------------------------------------------------------------------------

/// An argument a tool takes, with its JSON type.
pub struct ToolParam {
    pub name: String,
    pub json_type: String,
}

/// A tool as `tools/list` describes it: its name, what it does, the arguments it
/// takes and those it requires.
pub struct ToolDef {
    pub name: String,
    pub description: String,
    pub params: Vec<ToolParam>,
    pub required: Vec<String>,
}

/// The tools `tools/list` offers, in order: those for any agent, then those for
/// engineers.
pub open spec fn listed_tools() -> Seq<Seq<char>> {
    seq![
        "lyra_get_ticket"@,
        "lyra_add_comment"@,
        "lyra_request_permission"@,
        "lyra_set_status"@,
        "lyra_update_pr_url"@,
    ]
}

/// What a listed tool is described as doing.
pub open spec fn tool_description(name: Seq<char>) -> Seq<char> {
    if name == "lyra_get_ticket"@ {
        "Get a Lyra ticket and its comments"@
    } else if name == "lyra_add_comment"@ {
        "Add a markdown comment on a ticket as this agent"@
    } else if name == "lyra_request_permission"@ {
        "Ask a human to allow a tool call on a ticket before running it"@
    } else if name == "lyra_set_status"@ {
        "Set ticket status (e.g. awaiting_you, pending_review, failed)"@
    } else {
        "Store the GitHub PR URL and set status pending_review"@
    }
}

/// The arguments a listed tool takes, each with its JSON type.
pub open spec fn tool_params(name: Seq<char>) -> Seq<(Seq<char>, Seq<char>)> {
    if name == "lyra_get_ticket"@ {
        seq![("ticket_id"@, "integer"@)]
    } else if name == "lyra_add_comment"@ {
        seq![("ticket_id"@, "integer"@), ("text"@, "string"@), ("model"@, "string"@)]
    } else if name == "lyra_request_permission"@ {
        seq![
            ("ticket_id"@, "integer"@),
            ("tool"@, "string"@),
            ("payload"@, "string"@),
            ("permission_id"@, "string"@),
            ("model"@, "string"@),
        ]
    } else if name == "lyra_set_status"@ {
        seq![("ticket_id"@, "integer"@), ("status"@, "string"@)]
    } else {
        seq![("ticket_id"@, "integer"@), ("url"@, "string"@)]
    }
}

/// The arguments a listed tool requires.
pub open spec fn required_args(name: Seq<char>) -> Seq<Seq<char>> {
    if name == "lyra_get_ticket"@ {
        seq!["ticket_id"@]
    } else if name == "lyra_add_comment"@ {
        seq!["ticket_id"@, "text"@]
    } else if name == "lyra_request_permission"@ {
        seq!["ticket_id"@, "tool"@]
    } else if name == "lyra_set_status"@ {
        seq!["ticket_id"@, "status"@]
    } else {
        seq!["ticket_id"@, "url"@]
    }
}

/// The view of a tool's arguments: name and JSON type of each.
pub open spec fn params_view(ps: Seq<ToolParam>) -> Seq<(Seq<char>, Seq<char>)> {
    ps.map_values(|p: ToolParam| (p.name@, p.json_type@))
}

/// The view of a list of strings.
pub open spec fn strings_view(v: Seq<String>) -> Seq<Seq<char>> {
    v.map_values(|s: String| s@)
}

/// `d` describes the listed tool `name` as the catalogue does.
pub open spec fn describes(d: ToolDef, name: Seq<char>) -> bool {
    &&& d.name@ == name
    &&& d.description@ == tool_description(name)
    &&& params_view(d.params@) == tool_params(name)
    &&& strings_view(d.required@) == required_args(name)
}

fn param(name: &str, json_type: &str) -> (r: ToolParam)
    ensures
        r.name@ == name@,
        r.json_type@ == json_type@,
{
    ToolParam { name: String::from_str(name), json_type: String::from_str(json_type) }
}

fn tool(name: &str, description: &str, params: Vec<ToolParam>, required: Vec<String>) -> (r:
    ToolDef)
    ensures
        r.name@ == name@,
        r.description@ == description@,
        r.params == params,
        r.required == required,
{
    ToolDef {
        name: String::from_str(name),
        description: String::from_str(description),
        params,
        required,
    }
}

/// The tool names, and the argument names, differ from one another.
proof fn names_differ()
    ensures
        "lyra_add_comment"@ != "lyra_get_ticket"@,
        "lyra_request_permission"@ != "lyra_get_ticket"@,
        "lyra_request_permission"@ != "lyra_add_comment"@,
        "lyra_set_status"@ != "lyra_get_ticket"@,
        "lyra_set_status"@ != "lyra_add_comment"@,
        "lyra_set_status"@ != "lyra_request_permission"@,
        "lyra_update_pr_url"@ != "lyra_get_ticket"@,
        "lyra_update_pr_url"@ != "lyra_add_comment"@,
        "lyra_update_pr_url"@ != "lyra_request_permission"@,
        "lyra_update_pr_url"@ != "lyra_set_status"@,
        is_pr_url_tool("lyra_update_pr_url"@),
        "text"@ != "ticket_id"@,
        "tool"@ != "ticket_id"@,
        "tool"@ != "text"@,
        "status"@ != "ticket_id"@,
        "status"@ != "text"@,
        "status"@ != "tool"@,
        "url"@ != "ticket_id"@,
        "url"@ != "text"@,
        "url"@ != "tool"@,
        "url"@ != "status"@,
{
    reveal_strlit("lyra_get_ticket");
    reveal_strlit("lyra_add_comment");
    reveal_strlit("lyra_request_permission");
    reveal_strlit("lyra_set_status");
    reveal_strlit("lyra_update_pr_url");
    reveal_strlit("ticket_id");
    reveal_strlit("text");
    reveal_strlit("tool");
    reveal_strlit("status");
    reveal_strlit("url");
    assert("lyra_set_status"@[5] != "lyra_get_ticket"@[5]);
    assert("lyra_request_permission"@[5] != "lyra_add_comment"@[5]);
    assert("lyra_update_pr_url"@[5] != "lyra_add_comment"@[5]);
    assert("text"@[1] != "ticket_id"@[1]);
    assert("tool"@[1] != "ticket_id"@[1]);
    assert("tool"@[1] != "text"@[1]);
    assert("status"@[0] != "ticket_id"@[0]);
}

/// The tools `tools/list` offers: each listed tool with its description, its
/// arguments and those it requires.
pub fn tool_defs() -> (r: Vec<ToolDef>)
    ensures
        r@.len() == listed_tools().len(),
        forall|i: int| 0 <= i < r@.len() ==> #[trigger] describes(r@[i], listed_tools()[i]),
{
    proof {
        names_differ();
    }
    let get: ToolDef = tool(
        "lyra_get_ticket",
        "Get a Lyra ticket and its comments",
        vec![param("ticket_id", "integer")],
        vec![String::from_str("ticket_id")],
    );
    let comment: ToolDef = tool(
        "lyra_add_comment",
        "Add a markdown comment on a ticket as this agent",
        vec![param("ticket_id", "integer"), param("text", "string"), param("model", "string")],
        vec![String::from_str("ticket_id"), String::from_str("text")],
    );
    let ask: ToolDef = tool(
        "lyra_request_permission",
        "Ask a human to allow a tool call on a ticket before running it",
        vec![
            param("ticket_id", "integer"),
            param("tool", "string"),
            param("payload", "string"),
            param("permission_id", "string"),
            param("model", "string"),
        ],
        vec![String::from_str("ticket_id"), String::from_str("tool")],
    );
    let status: ToolDef = tool(
        "lyra_set_status",
        "Set ticket status (e.g. awaiting_you, pending_review, failed)",
        vec![param("ticket_id", "integer"), param("status", "string")],
        vec![String::from_str("ticket_id"), String::from_str("status")],
    );
    let pr: ToolDef = tool(
        "lyra_update_pr_url",
        "Store the GitHub PR URL and set status pending_review",
        vec![param("ticket_id", "integer"), param("url", "string")],
        vec![String::from_str("ticket_id"), String::from_str("url")],
    );
    assert(params_view(get.params@) =~= tool_params(listed_tools()[0]));
    assert(strings_view(get.required@) =~= required_args(listed_tools()[0]));
    assert(params_view(comment.params@) =~= tool_params(listed_tools()[1]));
    assert(strings_view(comment.required@) =~= required_args(listed_tools()[1]));
    assert(params_view(ask.params@) =~= tool_params(listed_tools()[2]));
    assert(strings_view(ask.required@) =~= required_args(listed_tools()[2]));
    assert(params_view(status.params@) =~= tool_params(listed_tools()[3]));
    assert(strings_view(status.required@) =~= required_args(listed_tools()[3]));
    assert(params_view(pr.params@) =~= tool_params(listed_tools()[4]));
    assert(strings_view(pr.required@) =~= required_args(listed_tools()[4]));
    let r: Vec<ToolDef> = vec![get, comment, ask, status, pr];
    r
}

/// Whether a call's arguments carry `key` as a tool requires it: an integer
/// `ticket_id`, or a non-empty string.
pub open spec fn arg_present(args: ToolArgs, key: Seq<char>) -> bool {
    if key == "ticket_id"@ {
        args.ticket_id is Some
    } else if key == "text"@ {
        required_text(args.text) is Some
    } else if key == "tool"@ {
        required_text(args.tool) is Some
    } else if key == "status"@ {
        required_text(args.status) is Some
    } else {
        required_text(args.url) is Some
    }
}

/// Every tool that `tools/list` offers is one that `tools/call` carries out: a
/// call of a listed tool is never answered as an unknown tool.
pub proof fn listed_tools_are_known(
    agent: UserRow,
    i: int,
    args: ToolArgs,
    r: Result<ToolCall, ApiError>,
)
    requires
        0 <= i < listed_tools().len(),
        planned(agent, listed_tools()[i], args, r),
    ensures
        !(r matches Ok(ToolCall::Unknown)),
{
    names_differ();
}

/// A call of a listed tool that carries every argument the catalogue says it
/// requires is carried out, unless the tool is for engineers and the caller is
/// not one.
pub proof fn complete_calls_are_carried_out(
    agent: UserRow,
    i: int,
    args: ToolArgs,
    r: Result<ToolCall, ApiError>,
)
    requires
        0 <= i < listed_tools().len(),
        planned(agent, listed_tools()[i], args, r),
        forall|k: int|
            0 <= k < required_args(listed_tools()[i]).len() ==> #[trigger] arg_present(
                args,
                required_args(listed_tools()[i])[k],
            ),
    ensures
        r is Ok || r == Err::<ToolCall, ApiError>(ApiError::NotEngineer),
{
    names_differ();
    let req = required_args(listed_tools()[i]);
    assert(arg_present(args, req[0]));
    if req.len() > 1 {
        assert(arg_present(args, req[1]));
    }
}

/// A call of a listed tool that lacks an argument the catalogue says it requires
/// is refused.
pub proof fn incomplete_calls_are_refused(
    agent: UserRow,
    i: int,
    k: int,
    args: ToolArgs,
    r: Result<ToolCall, ApiError>,
)
    requires
        0 <= i < listed_tools().len(),
        0 <= k < required_args(listed_tools()[i]).len(),
        !arg_present(args, required_args(listed_tools()[i])[k]),
        planned(agent, listed_tools()[i], args, r),
    ensures
        r is Err,
{
    names_differ();
}

/// A permission request an agent plans keeps what the call gave: its ticket, its
/// tool, and the model named in the call when one is named (the agent's default
/// model only when none is); a missing payload or permission id is empty.
pub proof fn permission_requests_keep_their_arguments(
    agent: UserRow,
    args: ToolArgs,
    r: Result<ToolCall, ApiError>,
)
    requires
        planned(agent, "lyra_request_permission"@, args, r),
    ensures
        r matches Ok(ToolCall::RequestPermission { ticket_id, .. }) ==> args.ticket_id == Some(
            ticket_id,
        ),
        r matches Ok(ToolCall::RequestPermission { tool, .. }) ==> args.tool matches Some(t)
            && t@ == tool@,
        r matches Ok(ToolCall::RequestPermission { model, .. }) ==> (args.model matches Some(m)
            ==> (m@.len() > 0 ==> model@ == m@)),
        r matches Ok(ToolCall::RequestPermission { model, .. }) ==> (args.model is None
            ==> model@ == agent.default_model@),
        r matches Ok(ToolCall::RequestPermission { payload, .. }) ==> (args.payload is None
            ==> payload@.len() == 0),
        r matches Ok(ToolCall::RequestPermission { payload, .. }) ==> (args.payload matches Some(
            x,
        ) ==> payload@ == x@),
        args.ticket_id is Some && (args.tool matches Some(t) && t@.len() > 0) ==> r matches Ok(
            ToolCall::RequestPermission { .. },
        ),
{
    names_differ();
}

/// A comment an agent plans keeps the model named in the call when one is named,
/// and the agent's default model only when none is.
pub proof fn comments_keep_the_given_model(agent: UserRow, args: ToolArgs, r: Result<ToolCall, ApiError>)
    requires
        planned(agent, "lyra_add_comment"@, args, r),
    ensures
        r matches Ok(ToolCall::AddComment { model, .. }) ==> (args.model matches Some(m)
            ==> (m@.len() > 0 ==> model@ == m@)),
        r matches Ok(ToolCall::AddComment { model, .. }) ==> (args.model is None ==> model@
            == agent.default_model@),
{
    names_differ();
}

/// Every argument the catalogue lists has the JSON type `tools/call` reads it
/// with: `ticket_id` is read as an integer, every other argument as a string.
pub proof fn catalogue_types_match_how_calls_are_read(i: int, k: int)
    requires
        0 <= i < listed_tools().len(),
        0 <= k < tool_params(listed_tools()[i]).len(),
    ensures
        tool_params(listed_tools()[i])[k].1 == (if tool_params(listed_tools()[i])[k].0
            == "ticket_id"@ {
            "integer"@
        } else {
            "string"@
        }),
{
    names_differ();
    reveal_strlit("ticket_id");
    reveal_strlit("text");
    reveal_strlit("model");
    reveal_strlit("tool");
    reveal_strlit("payload");
    reveal_strlit("permission_id");
    reveal_strlit("status");
    reveal_strlit("url");
    reveal_strlit("integer");
    reveal_strlit("string");
    assert("ticket_id"@.len() != "text"@.len() || "ticket_id"@[1] != "text"@[1]);
    assert("permission_id"@.len() != "ticket_id"@.len());
}

/// Every argument a listed tool requires is one the catalogue lists for it.
pub proof fn required_arguments_are_listed(i: int, k: int)
    requires
        0 <= i < listed_tools().len(),
        0 <= k < required_args(listed_tools()[i]).len(),
    ensures
        exists|j: int|
            0 <= j < tool_params(listed_tools()[i]).len() && #[trigger] tool_params(
                listed_tools()[i],
            )[j].0 == required_args(listed_tools()[i])[k],
{
    names_differ();
    let ps = tool_params(listed_tools()[i]);
    let req = required_args(listed_tools()[i]);
    if k == 0 {
        assert(ps[0].0 == req[0]);
    } else {
        assert(ps[1].0 == req[1]);
    }
}

} // verus!
