//! Everything the main loop reacts to, and what it sends to the agent.

use crate::session::{Session, SessionMeta, SessionMetaModel, SessionModel};
use crate::text;
use crate::theme::Theme;
use vstd::prelude::*;

verus! {

/// A key of the keyboard.
#[derive(Debug, Clone, Copy, PartialEq, Eq, Structural)]
pub enum KeyCode {
    Char(char),
    F(u8),
    Backspace,
    Enter,
    Left,
    Right,
    Up,
    Down,
    Home,
    End,
    PageUp,
    PageDown,
    Tab,
    BackTab,
    Delete,
    Esc,
    Other,
}

/// A key with its modifiers. `press` is false for a repeat or a release; a
/// backward tab counts as shifted.
#[derive(Debug, Clone, Copy, PartialEq, Eq, Structural)]
pub struct KeyEvent {
    pub code: KeyCode,
    pub ctrl: bool,
    pub alt: bool,
    pub shift: bool,
    pub press: bool,
}

impl KeyEvent {
    /// The key pressed on its own.
    pub fn plain(code: KeyCode) -> (k: Self)
        ensures
            k == (KeyEvent { code, ctrl: false, alt: false, shift: false, press: true }),
    {
        KeyEvent { code, ctrl: false, alt: false, shift: false, press: true }
    }
}

/// What the terminal reports.
#[derive(Debug, Clone, Copy, PartialEq, Eq, Structural)]
pub enum TermEvent {
    Key(KeyEvent),
    Resize,
    Other,
}

/// Everything the main loop reacts to, from every source.
pub enum AppEvent {
    Term(TermEvent),
    Chat(ChatEvent),
    Acp(AcpEvent),
    ThemeChanged(Theme),
    ProxyHealth(bool),
    Models(Vec<String>),
    /// The saved sessions, newest first: the reply to a request to list them.
    Sessions(Vec<SessionMeta>),
    /// A saved session, or why it could not be read.
    SessionLoaded(Result<Session, String>),
}

/// Chat-mode streaming events. `turn` guards against stale deltas after cancel.
pub enum ChatEvent {
    Delta { turn: u64, text: String },
    Done { turn: u64 },
    Error { turn: u64, message: String },
}

/// Agent-mode events, mapped from the agent's session updates.
pub enum AcpEvent {
    SessionReady { session_id: String },
    MessageChunk(String),
    ThoughtChunk(String),
    ToolCall(ToolCallView),
    ToolCallUpdate(ToolCallUpdateView),
    Plan(Vec<PlanEntryView>),
    /// The agent asks before it uses a tool; `request` names the question.
    PermissionRequest { title: String, options: Vec<PermissionOptionView>, request: u64 },
    TurnEnded { stop_reason: String },
    Error(String),
    /// goose has no configured provider / auth problem: actionable, not fatal.
    AuthRequired(String),
    /// The goose subprocess or its connection died.
    Exited(String),
}

#[derive(Debug, Clone)]
pub struct ToolCallView {
    pub id: String,
    pub title: String,
    pub kind: String,
    pub status: String,
    pub raw_input: Option<String>,
    pub raw_output: Option<String>,
}

#[derive(Debug, Clone, Default)]
pub struct ToolCallUpdateView {
    pub id: String,
    pub title: Option<String>,
    pub status: Option<String>,
    pub raw_input: Option<String>,
    pub raw_output: Option<String>,
}

#[derive(Debug, Clone)]
pub struct PlanEntryView {
    pub content: String,
    /// pending | in_progress | completed
    pub status: String,
}

#[derive(Debug, Clone)]
pub struct PermissionOptionView {
    pub id: String,
    pub name: String,
    /// allow_once | allow_always | reject_once | reject_always
    pub kind: String,
}

#[derive(Debug, Clone)]
pub enum PermissionOutcome {
    Selected { option_id: String },
    Cancelled,
}

/// Commands the interface sends to the agent.
pub enum AcpCommand {
    Prompt { text: String },
    Cancel,
    Shutdown,
}

pub enum ChatEventModel {
    Delta { turn: u64, text: Seq<char> },
    Done { turn: u64 },
    Error { turn: u64, message: Seq<char> },
}

pub enum AcpEventModel {
    SessionReady { session_id: Seq<char> },
    MessageChunk(Seq<char>),
    ThoughtChunk(Seq<char>),
    ToolCall(ToolCallModel),
    ToolCallUpdate(ToolCallUpdateModel),
    Plan(Seq<PlanEntryModel>),
    PermissionRequest { title: Seq<char>, options: Seq<PermissionOptionModel>, request: u64 },
    TurnEnded { stop_reason: Seq<char> },
    Error(Seq<char>),
    AuthRequired(Seq<char>),
    Exited(Seq<char>),
}

pub enum AppEventModel {
    Term(TermEvent),
    Chat(ChatEventModel),
    Acp(AcpEventModel),
    ThemeChanged(Theme),
    ProxyHealth(bool),
    Models(Seq<Seq<char>>),
    Sessions(Seq<SessionMetaModel>),
    SessionLoaded(Result<SessionModel, Seq<char>>),
}

pub struct ToolCallModel {
    pub id: Seq<char>,
    pub title: Seq<char>,
    pub kind: Seq<char>,
    pub status: Seq<char>,
    pub raw_input: Option<Seq<char>>,
    pub raw_output: Option<Seq<char>>,
}

pub struct ToolCallUpdateModel {
    pub id: Seq<char>,
    pub title: Option<Seq<char>>,
    pub status: Option<Seq<char>>,
    pub raw_input: Option<Seq<char>>,
    pub raw_output: Option<Seq<char>>,
}

pub struct PlanEntryModel {
    pub content: Seq<char>,
    pub status: Seq<char>,
}

pub struct PermissionOptionModel {
    pub id: Seq<char>,
    pub name: Seq<char>,
    pub kind: Seq<char>,
}

pub enum PermissionOutcomeModel {
    Selected { option_id: Seq<char> },
    Cancelled,
}

pub enum AcpCommandModel {
    Prompt { text: Seq<char> },
    Cancel,
    Shutdown,
}

impl DeepView for ToolCallView {
    type V = ToolCallModel;

    open spec fn deep_view(&self) -> ToolCallModel {
        ToolCallModel {
            id: self.id@,
            title: self.title@,
            kind: self.kind@,
            status: self.status@,
            raw_input: self.raw_input.deep_view(),
            raw_output: self.raw_output.deep_view(),
        }
    }
}

impl DeepView for ToolCallUpdateView {
    type V = ToolCallUpdateModel;

    open spec fn deep_view(&self) -> ToolCallUpdateModel {
        ToolCallUpdateModel {
            id: self.id@,
            title: self.title.deep_view(),
            status: self.status.deep_view(),
            raw_input: self.raw_input.deep_view(),
            raw_output: self.raw_output.deep_view(),
        }
    }
}

impl DeepView for PlanEntryView {
    type V = PlanEntryModel;

    open spec fn deep_view(&self) -> PlanEntryModel {
        PlanEntryModel { content: self.content@, status: self.status@ }
    }
}

impl DeepView for PermissionOptionView {
    type V = PermissionOptionModel;

    open spec fn deep_view(&self) -> PermissionOptionModel {
        PermissionOptionModel { id: self.id@, name: self.name@, kind: self.kind@ }
    }
}

impl DeepView for PermissionOutcome {
    type V = PermissionOutcomeModel;

    open spec fn deep_view(&self) -> PermissionOutcomeModel {
        match self {
            PermissionOutcome::Selected { option_id } => PermissionOutcomeModel::Selected {
                option_id: option_id@,
            },
            PermissionOutcome::Cancelled => PermissionOutcomeModel::Cancelled,
        }
    }
}

impl DeepView for AcpCommand {
    type V = AcpCommandModel;

    open spec fn deep_view(&self) -> AcpCommandModel {
        match self {
            AcpCommand::Prompt { text } => AcpCommandModel::Prompt { text: text@ },
            AcpCommand::Cancel => AcpCommandModel::Cancel,
            AcpCommand::Shutdown => AcpCommandModel::Shutdown,
        }
    }
}

impl DeepView for ChatEvent {
    type V = ChatEventModel;

    open spec fn deep_view(&self) -> ChatEventModel {
        match self {
            ChatEvent::Delta { turn, text } => ChatEventModel::Delta { turn: *turn, text: text@ },
            ChatEvent::Done { turn } => ChatEventModel::Done { turn: *turn },
            ChatEvent::Error { turn, message } => ChatEventModel::Error {
                turn: *turn,
                message: message@,
            },
        }
    }
}

impl DeepView for AcpEvent {
    type V = AcpEventModel;

    open spec fn deep_view(&self) -> AcpEventModel {
        match self {
            AcpEvent::SessionReady { session_id } => AcpEventModel::SessionReady {
                session_id: session_id@,
            },
            AcpEvent::MessageChunk(text) => AcpEventModel::MessageChunk(text@),
            AcpEvent::ThoughtChunk(text) => AcpEventModel::ThoughtChunk(text@),
            AcpEvent::ToolCall(view) => AcpEventModel::ToolCall(view.deep_view()),
            AcpEvent::ToolCallUpdate(update) => AcpEventModel::ToolCallUpdate(update.deep_view()),
            AcpEvent::Plan(entries) => AcpEventModel::Plan(entries.deep_view()),
            AcpEvent::PermissionRequest {
                title,
                options,
                request,
            } => AcpEventModel::PermissionRequest {
                title: title@,
                options: options.deep_view(),
                request: *request,
            },
            AcpEvent::TurnEnded { stop_reason } => AcpEventModel::TurnEnded {
                stop_reason: stop_reason@,
            },
            AcpEvent::Error(message) => AcpEventModel::Error(message@),
            AcpEvent::AuthRequired(hint) => AcpEventModel::AuthRequired(hint@),
            AcpEvent::Exited(reason) => AcpEventModel::Exited(reason@),
        }
    }
}

impl DeepView for AppEvent {
    type V = AppEventModel;

    open spec fn deep_view(&self) -> AppEventModel {
        match self {
            AppEvent::Term(e) => AppEventModel::Term(*e),
            AppEvent::Chat(e) => AppEventModel::Chat(e.deep_view()),
            AppEvent::Acp(e) => AppEventModel::Acp(e.deep_view()),
            AppEvent::ThemeChanged(theme) => AppEventModel::ThemeChanged(*theme),
            AppEvent::ProxyHealth(ok) => AppEventModel::ProxyHealth(*ok),
            AppEvent::Models(models) => AppEventModel::Models(models.deep_view()),
            AppEvent::Sessions(items) => AppEventModel::Sessions(items.deep_view()),
            AppEvent::SessionLoaded(Ok(session)) => AppEventModel::SessionLoaded(
                Ok(session.deep_view()),
            ),
            AppEvent::SessionLoaded(Err(reason)) => AppEventModel::SessionLoaded(Err(reason@)),
        }
    }
}

/// The glyph of a plan entry's status.
pub open spec fn plan_glyph(status: Seq<char>) -> Seq<char> {
    if status == "completed"@ {
        "●"@
    } else if status == "in_progress"@ {
        "◌"@
    } else {
        "○"@
    }
}

impl PlanEntryView {
    /// The glyph of the entry's status.
    pub fn glyph(&self) -> (r: &'static str)
        ensures
            r@ == plan_glyph(self.status@),
    {
        if text::same(self.status.as_str(), "completed") {
            "●"
        } else if text::same(self.status.as_str(), "in_progress") {
            "◌"
        } else {
            "○"
        }
    }
}

} // verus!
