//! What the agent says, and how it is understood.

use crate::config::{McpServerDecl, McpServerModel};
use crate::event::{
    AcpCommand, AcpEvent, AcpEventModel, PermissionOptionModel, PermissionOptionView,
    PlanEntryModel, PlanEntryView, ToolCallModel, ToolCallUpdateModel, ToolCallUpdateView,
    ToolCallView,
};
use crate::text;
use crate::text::has_part;
use vstd::prelude::*;

verus! {

/// `serde_json::Value`: what a tool was given or gave back.
#[verifier::external_type_specification]
#[verifier::external_body]
pub struct ExValue(serde_json::Value);

#[derive(Debug, Clone, Copy, PartialEq, Eq, Structural)]
pub enum ToolKind {
    Read,
    Edit,
    Delete,
    Move,
    Search,
    Execute,
    Think,
    Fetch,
    Other,
}

#[derive(Debug, Clone, Copy, PartialEq, Eq, Structural)]
pub enum ToolStatus {
    Pending,
    InProgress,
    Completed,
    Failed,
    Other,
}

#[derive(Debug, Clone, Copy, PartialEq, Eq, Structural)]
pub enum PlanStatus {
    Pending,
    InProgress,
    Completed,
    Other,
}

#[derive(Debug, Clone, Copy, PartialEq, Eq, Structural)]
pub enum StopReason {
    EndTurn,
    MaxTokens,
    MaxTurnRequests,
    Refusal,
    Cancelled,
    Other,
}

#[derive(Debug, Clone, Copy, PartialEq, Eq, Structural)]
pub enum PermissionKind {
    AllowOnce,
    AllowAlways,
    RejectOnce,
    RejectAlways,
    Other,
}

/// A block of content: text, or something that is not shown.
pub enum Content {
    Text(String),
    Other,
}

/// A tool call that has begun.
pub struct ToolCall {
    pub id: String,
    pub title: String,
    pub kind: ToolKind,
    pub status: ToolStatus,
    pub raw_input: Option<serde_json::Value>,
    pub raw_output: Option<serde_json::Value>,
}

/// What has changed about a tool call.
pub struct ToolCallChange {
    pub id: String,
    pub title: Option<String>,
    pub status: Option<ToolStatus>,
    pub raw_input: Option<serde_json::Value>,
    pub raw_output: Option<serde_json::Value>,
}

pub struct PlanEntry {
    pub content: String,
    pub status: PlanStatus,
}

/// An update of the session.
pub enum SessionUpdate {
    AgentMessageChunk(Content),
    AgentThoughtChunk(Content),
    ToolCall(ToolCall),
    ToolCallUpdate(ToolCallChange),
    Plan(Vec<PlanEntry>),
    Other,
}

/// An option that the agent offers with a question.
pub struct PermissionOption {
    pub id: String,
    pub name: String,
    pub kind: PermissionKind,
}

/// The indented form of a value.
pub uninterp spec fn pretty_text(v: serde_json::Value) -> Seq<char>;

/// `serde_json::to_string_pretty`, or the compact form should it fail: the text
/// is named by [`pretty_text`].
#[verifier::external_body]
fn pretty_json(v: &serde_json::Value) -> (r: String)
    ensures
        r@ == pretty_text(*v),
{
    serde_json::to_string_pretty(v).unwrap_or_else(|_| v.to_string())
}

pub open spec fn tool_kind_name(kind: ToolKind) -> Seq<char> {
    match kind {
        ToolKind::Read => "read"@,
        ToolKind::Edit => "edit"@,
        ToolKind::Delete => "delete"@,
        ToolKind::Move => "move"@,
        ToolKind::Search => "search"@,
        ToolKind::Execute => "execute"@,
        ToolKind::Think => "think"@,
        ToolKind::Fetch => "fetch"@,
        ToolKind::Other => "other"@,
    }
}

pub fn tool_kind_str(kind: ToolKind) -> (r: &'static str)
    ensures
        r@ == tool_kind_name(kind),
{
    match kind {
        ToolKind::Read => "read",
        ToolKind::Edit => "edit",
        ToolKind::Delete => "delete",
        ToolKind::Move => "move",
        ToolKind::Search => "search",
        ToolKind::Execute => "execute",
        ToolKind::Think => "think",
        ToolKind::Fetch => "fetch",
        ToolKind::Other => "other",
    }
}

pub open spec fn tool_status_name(status: ToolStatus) -> Seq<char> {
    match status {
        ToolStatus::Pending => "pending"@,
        ToolStatus::InProgress => "in_progress"@,
        ToolStatus::Completed => "completed"@,
        ToolStatus::Failed => "failed"@,
        ToolStatus::Other => "unknown"@,
    }
}

pub fn tool_status_str(status: ToolStatus) -> (r: &'static str)
    ensures
        r@ == tool_status_name(status),
{
    match status {
        ToolStatus::Pending => "pending",
        ToolStatus::InProgress => "in_progress",
        ToolStatus::Completed => "completed",
        ToolStatus::Failed => "failed",
        ToolStatus::Other => "unknown",
    }
}

pub open spec fn plan_status_name(status: PlanStatus) -> Seq<char> {
    match status {
        PlanStatus::Pending => "pending"@,
        PlanStatus::InProgress => "in_progress"@,
        PlanStatus::Completed => "completed"@,
        PlanStatus::Other => "unknown"@,
    }
}

pub fn plan_status_str(status: PlanStatus) -> (r: &'static str)
    ensures
        r@ == plan_status_name(status),
{
    match status {
        PlanStatus::Pending => "pending",
        PlanStatus::InProgress => "in_progress",
        PlanStatus::Completed => "completed",
        PlanStatus::Other => "unknown",
    }
}

pub open spec fn stop_reason_name(reason: StopReason) -> Seq<char> {
    match reason {
        StopReason::EndTurn => "end_turn"@,
        StopReason::MaxTokens => "max_tokens"@,
        StopReason::MaxTurnRequests => "max_turn_requests"@,
        StopReason::Refusal => "refusal"@,
        StopReason::Cancelled => "cancelled"@,
        StopReason::Other => "unknown"@,
    }
}

pub fn stop_reason_str(reason: StopReason) -> (r: &'static str)
    ensures
        r@ == stop_reason_name(reason),
{
    match reason {
        StopReason::EndTurn => "end_turn",
        StopReason::MaxTokens => "max_tokens",
        StopReason::MaxTurnRequests => "max_turn_requests",
        StopReason::Refusal => "refusal",
        StopReason::Cancelled => "cancelled",
        StopReason::Other => "unknown",
    }
}

pub open spec fn permission_kind_name(kind: PermissionKind) -> Seq<char> {
    match kind {
        PermissionKind::AllowOnce => "allow_once"@,
        PermissionKind::AllowAlways => "allow_always"@,
        PermissionKind::RejectOnce => "reject_once"@,
        PermissionKind::RejectAlways => "reject_always"@,
        PermissionKind::Other => "other"@,
    }
}

pub fn permission_kind_str(kind: PermissionKind) -> (r: &'static str)
    ensures
        r@ == permission_kind_name(kind),
{
    match kind {
        PermissionKind::AllowOnce => "allow_once",
        PermissionKind::AllowAlways => "allow_always",
        PermissionKind::RejectOnce => "reject_once",
        PermissionKind::RejectAlways => "reject_always",
        PermissionKind::Other => "other",
    }
}

/// The text of a value, if there is one.
pub open spec fn shown_value(v: Option<serde_json::Value>) -> Option<Seq<char>> {
    match v {
        Some(v) => Some(pretty_text(v)),
        None => None,
    }
}

fn show_value(v: &Option<serde_json::Value>) -> (r: Option<String>)
    ensures
        r.deep_view() == shown_value(*v),
{
    match v {
        Some(v) => Some(pretty_json(v)),
        None => None,
    }
}

/// A tool call as it is shown.
pub open spec fn shown_call(tc: ToolCall) -> ToolCallModel {
    ToolCallModel {
        id: tc.id@,
        title: tc.title@,
        kind: tool_kind_name(tc.kind),
        status: tool_status_name(tc.status),
        raw_input: shown_value(tc.raw_input),
        raw_output: shown_value(tc.raw_output),
    }
}

/// A change to a tool call as it is shown.
pub open spec fn shown_change(up: ToolCallChange) -> ToolCallUpdateModel {
    ToolCallUpdateModel {
        id: up.id@,
        title: up.title.deep_view(),
        status: match up.status {
            Some(s) => Some(tool_status_name(s)),
            None => None,
        },
        raw_input: shown_value(up.raw_input),
        raw_output: shown_value(up.raw_output),
    }
}

/// A plan as it is shown.
pub open spec fn shown_plan(entries: Seq<PlanEntry>) -> Seq<PlanEntryModel> {
    entries.map_values(
        |e: PlanEntry| PlanEntryModel { content: e.content@, status: plan_status_name(e.status) },
    )
}

/// What an update means, if it means anything here.
pub open spec fn understood(update: SessionUpdate) -> Option<AcpEventModel> {
    match update {
        SessionUpdate::AgentMessageChunk(Content::Text(t)) => Some(
            AcpEventModel::MessageChunk(t@),
        ),
        SessionUpdate::AgentThoughtChunk(Content::Text(t)) => Some(
            AcpEventModel::ThoughtChunk(t@),
        ),
        SessionUpdate::ToolCall(tc) => Some(AcpEventModel::ToolCall(shown_call(tc))),
        SessionUpdate::ToolCallUpdate(up) => Some(AcpEventModel::ToolCallUpdate(shown_change(up))),
        SessionUpdate::Plan(entries) => Some(AcpEventModel::Plan(shown_plan(entries@))),
        _ => None,
    }
}

fn map_plan(entries: &Vec<PlanEntry>) -> (r: Vec<PlanEntryView>)
    ensures
        r.deep_view() == shown_plan(entries@),
{
    let mut r: Vec<PlanEntryView> = Vec::new();
    let mut i: usize = 0;
    let ghost all = shown_plan(entries@);
    while i < entries.len()
        invariant
            i <= entries.len(),
            all == shown_plan(entries@),
            r.deep_view() =~= all.take(i as int),
        decreases entries.len() - i,
    {
        let ghost before = r.deep_view();
        r.push(
            PlanEntryView {
                content: entries[i].content.clone(),
                status: plan_status_str(entries[i].status).to_string(),
            },
        );
        proof {
            assert(r.deep_view() =~= before.push(all[i as int]));
        }
        i += 1;
    }
    proof {
        assert(all.take(i as int) =~= all);
    }
    r
}

/// What an update means, if it means anything here.
pub fn map_update(update: SessionUpdate) -> (r: Option<AcpEvent>)
    ensures
        r.deep_view() == understood(update),
{
    match update {
        SessionUpdate::AgentMessageChunk(Content::Text(t)) => Some(AcpEvent::MessageChunk(t)),
        SessionUpdate::AgentThoughtChunk(Content::Text(t)) => Some(AcpEvent::ThoughtChunk(t)),
        SessionUpdate::ToolCall(tc) => Some(
            AcpEvent::ToolCall(
                ToolCallView {
                    kind: tool_kind_str(tc.kind).to_string(),
                    status: tool_status_str(tc.status).to_string(),
                    raw_input: show_value(&tc.raw_input),
                    raw_output: show_value(&tc.raw_output),
                    id: tc.id,
                    title: tc.title,
                },
            ),
        ),
        SessionUpdate::ToolCallUpdate(up) => Some(
            AcpEvent::ToolCallUpdate(
                ToolCallUpdateView {
                    status: match up.status {
                        Some(s) => Some(tool_status_str(s).to_string()),
                        None => None,
                    },
                    raw_input: show_value(&up.raw_input),
                    raw_output: show_value(&up.raw_output),
                    id: up.id,
                    title: up.title,
                },
            ),
        ),
        SessionUpdate::Plan(entries) => Some(AcpEvent::Plan(map_plan(&entries))),
        _ => None,
    }
}

/// The options of a question.
pub open spec fn shown_options(options: Seq<PermissionOption>) -> Seq<PermissionOptionModel> {
    options.map_values(
        |o: PermissionOption|
            PermissionOptionModel {
                id: o.id@,
                name: o.name@,
                kind: permission_kind_name(o.kind),
            },
    )
}

/// A question of the agent, under this number.
pub fn permission_request(
    title: Option<String>,
    options: &Vec<PermissionOption>,
    request: u64,
) -> (e: AcpEvent)
    ensures
        e.deep_view() == (AcpEventModel::PermissionRequest {
            title: match title {
                Some(t) => t@,
                None => "The agent wants to run a tool"@,
            },
            options: shown_options(options@),
            request,
        }),
{
    let title = match title {
        Some(t) => t,
        None => "The agent wants to run a tool".to_string(),
    };
    let mut shown: Vec<PermissionOptionView> = Vec::new();
    let mut i: usize = 0;
    let ghost all = shown_options(options@);
    while i < options.len()
        invariant
            i <= options.len(),
            all == shown_options(options@),
            shown.deep_view() =~= all.take(i as int),
        decreases options.len() - i,
    {
        let ghost before = shown.deep_view();
        shown.push(
            PermissionOptionView {
                id: options[i].id.clone(),
                name: options[i].name.clone(),
                kind: permission_kind_str(options[i].kind).to_string(),
            },
        );
        proof {
            assert(shown.deep_view() =~= before.push(all[i as int]));
        }
        i += 1;
    }
    proof {
        assert(all.take(i as int) =~= all);
    }
    AcpEvent::PermissionRequest { title, options: shown, request }
}

/// The lower case of a text.
pub uninterp spec fn lower_case(s: Seq<char>) -> Seq<char>;

/// `str::to_lowercase`: the text, named by [`lower_case`].
#[verifier::external_body]
fn to_lower(s: &str) -> (r: String)
    ensures
        r@ == lower_case(s@),
{
    s.to_lowercase()
}

/// How an error of a turn is reported, given its text and that in lower case.
pub open spec fn reported(text: Seq<char>, lowered: Seq<char>) -> AcpEventModel {
    if has_part(lowered, "auth"@) {
        AcpEventModel::AuthRequired(text)
    } else {
        AcpEventModel::Error("agent turn failed: "@ + text)
    }
}

/// How an error of a turn is reported, given its text and that in lower case.
pub fn report(text: String, lowered: &str) -> (e: AcpEvent)
    ensures
        e.deep_view() == reported(text@, lowered@),
{
    if text::contains(lowered, "auth") {
        AcpEvent::AuthRequired(text)
    } else {
        AcpEvent::Error(text::cat2("agent turn failed: ", text.as_str()))
    }
}

/// How an error of a turn is reported: trouble with authentication can be acted
/// upon.
pub fn classify_error(text: String) -> (e: AcpEvent)
    ensures
        e.deep_view() == reported(text@, lower_case(text@)),
{
    let lowered = to_lower(text.as_str());
    report(text, lowered.as_str())
}

/// The end of a turn.
pub fn turn_event(result: Result<StopReason, String>) -> (e: AcpEvent)
    ensures
        e.deep_view() == match result {
            Ok(reason) => AcpEventModel::TurnEnded { stop_reason: stop_reason_name(reason) },
            Err(text) => reported(text@, lower_case(text@)),
        },
{
    match result {
        Ok(reason) => AcpEvent::TurnEnded { stop_reason: stop_reason_str(reason).to_string() },
        Err(text) => classify_error(text),
    }
}

/// The end of the agent.
pub fn exit_event(result: Result<(), String>) -> (e: AcpEvent)
    ensures
        e.deep_view() == AcpEventModel::Exited(
            match result {
                Ok(_) => "shut down"@,
                Err(text) => text@,
            },
        ),
{
    match result {
        Ok(_) => AcpEvent::Exited("shut down".to_string()),
        Err(text) => AcpEvent::Exited(text),
    }
}

/// What is done about a command, or about the end of the commands.
pub enum AgentAction {
    SendPrompt(String),
    SendCancel,
    Stop,
}

/// What is done about a command, or about the end of the commands.
pub fn agent_action(command: Option<AcpCommand>) -> (a: AgentAction)
    ensures
        match command {
            Some(AcpCommand::Prompt { text }) => a == AgentAction::SendPrompt(text),
            Some(AcpCommand::Cancel) => a is SendCancel,
            Some(AcpCommand::Shutdown) => a is Stop,
            None => a is Stop,
        },
{
    match command {
        Some(AcpCommand::Prompt { text }) => AgentAction::SendPrompt(text),
        Some(AcpCommand::Cancel) => AgentAction::SendCancel,
        Some(AcpCommand::Shutdown) | None => AgentAction::Stop,
    }
}

/// A server of tools that the agent is told about.
pub enum McpServer {
    Stdio { name: String, command: String, args: Vec<String>, env: Vec<(String, String)> },
    Http { name: String, url: String, headers: Vec<(String, String)> },
}

pub enum McpServerKind {
    Stdio {
        name: Seq<char>,
        command: Seq<char>,
        args: Seq<Seq<char>>,
        env: Seq<(Seq<char>, Seq<char>)>,
    },
    Http { name: Seq<char>, url: Seq<char>, headers: Seq<(Seq<char>, Seq<char>)> },
}

impl DeepView for McpServer {
    type V = McpServerKind;

    open spec fn deep_view(&self) -> McpServerKind {
        match self {
            McpServer::Stdio { name, command, args, env } => McpServerKind::Stdio {
                name: name@,
                command: command@,
                args: args.deep_view(),
                env: env.deep_view(),
            },
            McpServer::Http { name, url, headers } => McpServerKind::Http {
                name: name@,
                url: url@,
                headers: headers.deep_view(),
            },
        }
    }
}

/// The server that a declaration describes, if it is complete and of a known
/// kind.
pub open spec fn declared(d: McpServerModel) -> Option<McpServerKind> {
    if d.transport == "stdio"@ {
        match d.command {
            Some(command) => Some(
                McpServerKind::Stdio { name: d.name, command, args: d.args, env: d.env },
            ),
            None => None,
        }
    } else if d.transport == "http"@ {
        match d.url {
            Some(url) => Some(McpServerKind::Http { name: d.name, url, headers: d.env }),
            None => None,
        }
    } else {
        None
    }
}

/// The servers that the declarations describe, in order.
pub open spec fn all_declared(decls: Seq<McpServerModel>) -> Seq<McpServerKind>
    decreases decls.len(),
{
    if decls.len() == 0 {
        Seq::empty()
    } else {
        let earlier = all_declared(decls.drop_last());
        match declared(decls.last()) {
            Some(server) => earlier.push(server),
            None => earlier,
        }
    }
}

fn map_server(d: &McpServerDecl) -> (r: Option<McpServer>)
    ensures
        r.deep_view() == declared(d.deep_view()),
{
    if text::same(d.transport.as_str(), "stdio") {
        match &d.command {
            Some(command) => Some(
                McpServer::Stdio {
                    name: d.name.clone(),
                    command: command.clone(),
                    args: text::copy_all(&d.args),
                    env: crate::agent::goose::copy_pairs(&d.env),
                },
            ),
            None => None,
        }
    } else if text::same(d.transport.as_str(), "http") {
        match &d.url {
            Some(url) => Some(
                McpServer::Http {
                    name: d.name.clone(),
                    url: url.clone(),
                    headers: crate::agent::goose::copy_pairs(&d.env),
                },
            ),
            None => None,
        }
    } else {
        None
    }
}

/// The servers that the declarations describe, in order.
pub fn map_mcp_servers(decls: &Vec<McpServerDecl>) -> (r: Vec<McpServer>)
    ensures
        r.deep_view() == all_declared(decls.deep_view()),
{
    let mut r: Vec<McpServer> = Vec::new();
    let mut i: usize = 0;
    let ghost all = decls.deep_view();
    proof {
        assert(all.take(0) =~= Seq::empty());
        assert(r.deep_view() =~= Seq::empty());
    }
    while i < decls.len()
        invariant
            i <= decls.len(),
            all == decls.deep_view(),
            r.deep_view() == all_declared(all.take(i as int)),
        decreases decls.len() - i,
    {
        let ghost before = r.deep_view();
        proof {
            assert(all.take(i + 1).drop_last() =~= all.take(i as int));
            assert(all.take(i + 1).last() == decls[i as int].deep_view());
        }
        if let Some(server) = map_server(&decls[i]) {
            r.push(server);
            assert(r.deep_view() =~= before.push(server.deep_view()));
        }
        i += 1;
    }
    proof {
        assert(all.take(i as int) =~= all);
    }
    r
}

} // verus!
