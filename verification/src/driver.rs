//! What the main loops decide between one outside event and the next.

use crate::app::model::picked;
use crate::chat::types::{
    assistant_message, copy_messages, user_message, ChatMessage, ChatMessageModel,
};
use crate::cli::ui::{Out, OutModel};
use crate::cli::{or_first, permit, refusal, refuse};
use crate::event::{
    AcpCommand, AcpCommandModel, AcpEvent, AcpEventModel, AppEvent, AppEventModel, ChatEvent,
    ChatEventModel, PermissionOptionModel, PermissionOptionView, PermissionOutcome,
    PlanEntryModel, PlanEntryView,
};
use crate::text;
use crate::text::{decimal, trimmed};
use vstd::prelude::*;

verus! {

/// The end of a chat turn.
pub fn chat_result(turn: u64, result: Result<(), String>) -> (e: ChatEvent)
    ensures
        e.deep_view() == match result {
            Ok(_) => ChatEventModel::Done { turn },
            Err(message) => ChatEventModel::Error { turn, message: message@ },
        },
{
    match result {
        Ok(_) => ChatEvent::Done { turn },
        Err(message) => ChatEvent::Error { turn, message },
    }
}

/// The list of models, or why there is none.
pub fn models_result(result: Result<Vec<String>, String>) -> (e: AppEvent)
    ensures
        e.deep_view() == match result {
            Ok(models) => AppEventModel::Models(models.deep_view()),
            Err(reason) => AppEventModel::Chat(
                ChatEventModel::Error {
                    turn: 0,
                    message: "could not list models: "@ + reason@,
                },
            ),
        },
{
    match result {
        Ok(models) => AppEvent::Models(models),
        Err(reason) => AppEvent::Chat(
            ChatEvent::Error {
                turn: 0,
                message: text::cat2("could not list models: ", reason.as_str()),
            },
        ),
    }
}

/// The way to the agent. It is started when it is first needed, and again when it
/// was lost; a command waits until it runs.
pub struct AgentLink {
    pub running: bool,
    pub waiting: Option<AcpCommand>,
}

pub struct AgentLinkModel {
    pub running: bool,
    pub waiting: Option<AcpCommandModel>,
}

impl View for AgentLink {
    type V = AgentLinkModel;

    open spec fn view(&self) -> AgentLinkModel {
        AgentLinkModel { running: self.running, waiting: self.waiting.deep_view() }
    }
}

/// What the link reacts to.
pub enum LinkEvent {
    /// A command for the agent.
    Command(AcpCommand),
    /// The agent was started, or why it could not be.
    Started(Result<(), String>),
    /// Whether the command reached the agent.
    Sent(bool),
}

pub enum LinkEventModel {
    Command(AcpCommandModel),
    Started(Result<(), Seq<char>>),
    Sent(bool),
}

impl DeepView for LinkEvent {
    type V = LinkEventModel;

    open spec fn deep_view(&self) -> LinkEventModel {
        match self {
            LinkEvent::Command(c) => LinkEventModel::Command(c.deep_view()),
            LinkEvent::Started(Ok(_)) => LinkEventModel::Started(Ok(())),
            LinkEvent::Started(Err(reason)) => LinkEventModel::Started(Err(reason@)),
            LinkEvent::Sent(ok) => LinkEventModel::Sent(*ok),
        }
    }
}

/// What is to be done next.
pub enum LinkAction {
    /// Start the agent, and tell how it went.
    Start,
    /// Send the agent this command, and tell how it went.
    Send(AcpCommand),
    /// Report this.
    Report(AcpEvent),
    Nothing,
}

pub enum LinkActionModel {
    Start,
    Send(AcpCommandModel),
    Report(AcpEventModel),
    Nothing,
}

impl DeepView for LinkAction {
    type V = LinkActionModel;

    open spec fn deep_view(&self) -> LinkActionModel {
        match self {
            LinkAction::Start => LinkActionModel::Start,
            LinkAction::Send(c) => LinkActionModel::Send(c.deep_view()),
            LinkAction::Report(e) => LinkActionModel::Report(e.deep_view()),
            LinkAction::Nothing => LinkActionModel::Nothing,
        }
    }
}

impl AgentLinkModel {
    /// The link after an event, and what is to be done: a command goes to the agent
    /// that runs, and otherwise the agent is started first. A command is dropped if
    /// the agent cannot be started, and an agent that it does not reach is gone.
    pub open spec fn after(self, event: LinkEventModel) -> (AgentLinkModel, LinkActionModel) {
        match event {
            LinkEventModel::Command(c) => if self.running {
                (self, LinkActionModel::Send(c))
            } else {
                (AgentLinkModel { waiting: Some(c), ..self }, LinkActionModel::Start)
            },
            LinkEventModel::Started(Ok(_)) => (
                AgentLinkModel { running: true, waiting: None },
                match self.waiting {
                    Some(c) => LinkActionModel::Send(c),
                    None => LinkActionModel::Nothing,
                },
            ),
            LinkEventModel::Started(Err(reason)) => (
                AgentLinkModel { running: false, waiting: None },
                LinkActionModel::Report(AcpEventModel::Error(reason)),
            ),
            LinkEventModel::Sent(ok) => if ok {
                (self, LinkActionModel::Nothing)
            } else {
                (
                    AgentLinkModel { running: false, ..self },
                    LinkActionModel::Report(
                        AcpEventModel::Error("agent connection lost; try again to respawn"@),
                    ),
                )
            },
        }
    }
}

impl AgentLink {
    /// No agent yet.
    pub fn new() -> (l: Self)
        ensures
            l@ == (AgentLinkModel { running: false, waiting: None }),
    {
        AgentLink { running: false, waiting: None }
    }

    /// Moves the link by one event.
    pub fn handle(&mut self, event: LinkEvent) -> (action: LinkAction)
        ensures
            final(self)@ == old(self)@.after(event.deep_view()).0,
            action.deep_view() == old(self)@.after(event.deep_view()).1,
    {
        match event {
            LinkEvent::Command(c) => {
                if self.running {
                    LinkAction::Send(c)
                } else {
                    self.waiting = Some(c);
                    LinkAction::Start
                }
            },
            LinkEvent::Started(Ok(_)) => {
                self.running = true;
                match self.waiting.take() {
                    Some(c) => LinkAction::Send(c),
                    None => LinkAction::Nothing,
                }
            },
            LinkEvent::Started(Err(reason)) => {
                self.running = false;
                self.waiting = None;
                LinkAction::Report(AcpEvent::Error(reason))
            },
            LinkEvent::Sent(ok) => {
                if ok {
                    LinkAction::Nothing
                } else {
                    self.running = false;
                    LinkAction::Report(
                        AcpEvent::Error("agent connection lost; try again to respawn".to_string()),
                    )
                }
            },
        }
    }
}

/// A command that comes while no agent runs is sent as soon as one has been
/// started, and to nobody before.
pub proof fn commands_wait_for_the_agent(link: AgentLinkModel, command: AcpCommandModel)
    requires
        !link.running,
    ensures
        ({
            let (waits, first) = link.after(LinkEventModel::Command(command));
            let (runs, second) = waits.after(LinkEventModel::Started(Ok(())));
            &&& first == LinkActionModel::Start
            &&& second == LinkActionModel::Send(command)
            &&& runs == (AgentLinkModel { running: true, waiting: None })
        }),
{
}

/// A plain conversation on the command line.
pub struct Repl {
    pub history: Vec<ChatMessage>,
}

/// What follows a line that was read.
pub enum ReplStep {
    /// The input has ended.
    Exit,
    /// There was nothing in it.
    Again,
    /// Ask the model to go on with these messages.
    Ask(Vec<ChatMessage>),
}

pub enum ReplStepModel {
    Exit,
    Again,
    Ask(Seq<ChatMessageModel>),
}

impl DeepView for ReplStep {
    type V = ReplStepModel;

    open spec fn deep_view(&self) -> ReplStepModel {
        match self {
            ReplStep::Exit => ReplStepModel::Exit,
            ReplStep::Again => ReplStepModel::Again,
            ReplStep::Ask(messages) => ReplStepModel::Ask(messages.deep_view()),
        }
    }
}

/// The conversation after a line was read.
pub open spec fn history_after_line(
    history: Seq<ChatMessageModel>,
    line: Option<Seq<char>>,
) -> Seq<ChatMessageModel> {
    match line {
        Some(l) => if trimmed(l).len() > 0 {
            history.push(user_message(trimmed(l)))
        } else {
            history
        },
        None => history,
    }
}

/// The conversation after the model's reply, or its failure.
pub open spec fn history_after_reply(
    history: Seq<ChatMessageModel>,
    reply: Result<Seq<char>, Seq<char>>,
) -> Seq<ChatMessageModel> {
    match reply {
        Ok(text) => history.push(assistant_message(text)),
        Err(_) => if history.len() > 0 {
            history.drop_last()
        } else {
            history
        },
    }
}

impl Repl {
    /// A conversation that has not begun.
    pub fn new() -> (r: Self)
        ensures
            r.history.deep_view() == Seq::<ChatMessageModel>::empty(),
    {
        let r = Repl { history: Vec::new() };
        assert(r.history.deep_view() =~= Seq::<ChatMessageModel>::empty());
        r
    }

    /// A line was read, or the input has ended.
    pub fn read(&mut self, line: Option<String>) -> (step: ReplStep)
        ensures
            final(self).history.deep_view() == history_after_line(
                old(self).history.deep_view(),
                line.deep_view(),
            ),
            step.deep_view() == match line {
                None => ReplStepModel::Exit,
                Some(l) => if trimmed(l@).len() == 0 {
                    ReplStepModel::Again
                } else {
                    ReplStepModel::Ask(final(self).history.deep_view())
                },
            },
    {
        let prompt = match line {
            None => {
                return ReplStep::Exit;
            },
            Some(l) => text::trim(l.as_str()),
        };
        if prompt.as_str().is_empty() {
            return ReplStep::Again;
        }
        self.history.push(ChatMessage::user(prompt));
        proof {
            assert(self.history.deep_view() =~= old(self).history.deep_view().push(
                user_message(prompt@),
            ));
        }
        ReplStep::Ask(copy_messages(self.history.as_slice()))
    }

    /// The model has replied, or failed: the message that failed is taken back.
    pub fn replied(&mut self, reply: Result<String, String>) -> (out: Option<Out>)
        ensures
            final(self).history.deep_view() == history_after_reply(
                old(self).history.deep_view(),
                match reply {
                    Ok(text) => Ok(text@),
                    Err(reason) => Err(reason@),
                },
            ),
            out.deep_view() == match reply {
                Ok(_) => None,
                Err(reason) => Some(OutModel::Stderr("error: "@ + reason@ + "\n"@)),
            },
    {
        match reply {
            Ok(text) => {
                self.history.push(ChatMessage::assistant(text));
                proof {
                    assert(self.history.deep_view() =~= old(self).history.deep_view().push(
                        assistant_message(text@),
                    ));
                }
                None
            },
            Err(reason) => {
                let _ = self.history.pop();
                proof {
                    assert(old(self).history.len() > 0 ==> self.history.deep_view()
                        =~= old(self).history.deep_view().drop_last());
                }
                Some(Out::Stderr(text::cat3("error: ", reason.as_str(), "\n")))
            },
        }
    }
}

/// A message that fails leaves the conversation as it was; one that is answered
/// adds itself and the reply.
pub proof fn a_failed_message_is_taken_back(
    history: Seq<ChatMessageModel>,
    line: Seq<char>,
    reply: Seq<char>,
    reason: Seq<char>,
)
    requires
        trimmed(line).len() > 0,
    ensures
        history_after_reply(history_after_line(history, Some(line)), Err(reason)) == history,
        history_after_reply(history_after_line(history, Some(line)), Ok(reply)) == history.push(
            user_message(trimmed(line)),
        ).push(assistant_message(reply)),
{
    assert(history.push(user_message(trimmed(line))).drop_last() =~= history);
}

/// One turn of the agent, with everything it says written down.
pub struct Oneshot {
    pub prompt: String,
    pub prompted: bool,
}

/// What is done about an event.
pub struct OneshotStep {
    pub out: Vec<Out>,
    pub command: Option<AcpCommand>,
    /// A question that the user has to answer.
    pub ask: Option<(u64, Vec<PermissionOptionView>)>,
    pub done: bool,
}

pub struct OneshotStepModel {
    pub out: Seq<OutModel>,
    pub command: Option<AcpCommandModel>,
    pub ask: Option<(u64, Seq<PermissionOptionModel>)>,
    pub done: bool,
}

impl DeepView for OneshotStep {
    type V = OneshotStepModel;

    open spec fn deep_view(&self) -> OneshotStepModel {
        OneshotStepModel {
            out: self.out.deep_view(),
            command: self.command.deep_view(),
            ask: self.ask.deep_view(),
            done: self.done,
        }
    }
}

/// Only something to write.
pub open spec fn written(text: Seq<char>) -> OneshotStepModel {
    OneshotStepModel { out: seq![OutModel::Stdout(text)], command: None, ask: None, done: false }
}

/// The lines of a plan.
pub open spec fn plan_text(entries: Seq<PlanEntryModel>) -> Seq<char>
    decreases entries.len(),
{
    if entries.len() == 0 {
        "plan:\n"@
    } else {
        plan_text(entries.drop_last()) + ("  ["@ + entries.last().status + "] "@
            + entries.last().content + "\n"@)
    }
}

/// The options of a question, numbered.
pub open spec fn options_text(
    title: Seq<char>,
    options: Seq<PermissionOptionModel>,
) -> Seq<char>
    decreases options.len(),
{
    if options.len() == 0 {
        "\npermission: "@ + title + "\n"@
    } else {
        let o = options.last();
        options_text(title, options.drop_last()) + ("  "@ + decimal((options.len() - 1) as nat)
            + ": "@ + o.name + " ("@ + o.kind + ")\n"@)
    }
}

/// What is done about an event; the prompt is sent when the agent is ready.
pub open spec fn oneshot_after(
    prompt: Seq<char>,
    prompted: bool,
    event: AcpEventModel,
) -> OneshotStepModel {
    match event {
        AcpEventModel::SessionReady { session_id } => OneshotStepModel {
            command: if prompted {
                None
            } else {
                Some(AcpCommandModel::Prompt { text: prompt })
            },
            ..written("session-ready "@ + session_id + "\n"@)
        },
        AcpEventModel::MessageChunk(text) => written(text),
        AcpEventModel::ThoughtChunk(text) => written("[thought] "@ + text),
        AcpEventModel::ToolCall(tc) => written(
            "\ntool-call "@ + tc.id + " "@ + tc.kind + " · "@ + tc.title + " · "@ + tc.status
                + "\n"@,
        ),
        AcpEventModel::ToolCallUpdate(up) => written(
            "tool-update "@ + up.id + " · "@ + match up.status {
                Some(s) => s,
                None => "?"@,
            } + "\n"@,
        ),
        AcpEventModel::Plan(entries) => written(plan_text(entries)),
        AcpEventModel::PermissionRequest { title, options, request } => OneshotStepModel {
            out: seq![
                OutModel::Stdout(options_text(title, options)),
                OutModel::Stderr("allow? [y/n] "@),
            ],
            ask: Some((request, options)),
            ..written(Seq::empty())
        },
        AcpEventModel::TurnEnded { stop_reason } => OneshotStepModel {
            command: Some(AcpCommandModel::Shutdown),
            ..written("\nturn-ended "@ + stop_reason + "\n"@)
        },
        AcpEventModel::Error(e) => written("\nerror: "@ + e + "\n"@),
        AcpEventModel::AuthRequired(e) => OneshotStepModel {
            command: Some(AcpCommandModel::Shutdown),
            ..written("\nauth-required: "@ + e + "\n"@)
        },
        AcpEventModel::Exited(reason) => OneshotStepModel {
            done: true,
            ..written("agent-exited: "@ + reason + "\n"@)
        },
    }
}

/// Only something to write.
fn write_out(text: String) -> (s: OneshotStep)
    ensures
        s.deep_view() == written(text@),
{
    let s = OneshotStep { out: vec![Out::Stdout(text)], command: None, ask: None, done: false };
    assert(s.out.deep_view() =~= seq![OutModel::Stdout(text@)]);
    s
}

fn list_plan(entries: &Vec<PlanEntryView>) -> (r: String)
    ensures
        r@ == plan_text(entries.deep_view()),
{
    let mut r = "plan:\n".to_string();
    let mut i: usize = 0;
    let ghost all = entries.deep_view();
    proof {
        assert(all.take(0) =~= Seq::empty());
    }
    while i < entries.len()
        invariant
            i <= entries.len(),
            all == entries.deep_view(),
            r@ == plan_text(all.take(i as int)),
        decreases entries.len() - i,
    {
        proof {
            assert(all.take(i + 1).drop_last() =~= all.take(i as int));
            assert(all.take(i + 1).last() == entries[i as int].deep_view());
        }
        let head = text::cat3("  [", entries[i].status.as_str(), "] ");
        let l = text::cat3(head.as_str(), entries[i].content.as_str(), "\n");
        r.append(l.as_str());
        i += 1;
    }
    proof {
        assert(all.take(i as int) =~= all);
    }
    r
}

fn list_options(title: &str, options: &Vec<PermissionOptionView>) -> (r: String)
    ensures
        r@ == options_text(title@, options.deep_view()),
{
    let mut r = text::cat3("\npermission: ", title, "\n");
    let mut i: usize = 0;
    let ghost all = options.deep_view();
    proof {
        assert(all.take(0) =~= Seq::empty());
    }
    while i < options.len()
        invariant
            i <= options.len(),
            all == options.deep_view(),
            r@ == options_text(title@, all.take(i as int)),
        decreases options.len() - i,
    {
        let o = &options[i];
        proof {
            assert(all.take(i + 1).drop_last() =~= all.take(i as int));
            assert(all.take(i + 1).last() == o.deep_view());
        }
        let number = text::cat3("  ", text::to_decimal(i as u64).as_str(), ": ");
        let named = text::cat3(number.as_str(), o.name.as_str(), " (");
        let l = text::cat3(named.as_str(), o.kind.as_str(), ")\n");
        r.append(l.as_str());
        i += 1;
    }
    proof {
        assert(all.take(i as int) =~= all);
    }
    r
}

impl Oneshot {
    /// A turn with this prompt.
    pub fn new(prompt: String) -> (o: Self)
        ensures
            o.prompt == prompt,
            !o.prompted,
    {
        Oneshot { prompt, prompted: false }
    }

    /// What is done about an event.
    pub fn handle(&mut self, event: AcpEvent) -> (s: OneshotStep)
        ensures
            s.deep_view() == oneshot_after(
                old(self).prompt@,
                old(self).prompted,
                event.deep_view(),
            ),
            final(self).prompt == old(self).prompt,
            final(self).prompted == (old(self).prompted || event is SessionReady),
    {
        match event {
            AcpEvent::SessionReady { session_id } => {
                let mut s = write_out(
                    text::cat3("session-ready ", session_id.as_str(), "\n"),
                );
                if !self.prompted {
                    self.prompted = true;
                    s.command = Some(AcpCommand::Prompt { text: self.prompt.clone() });
                }
                s
            },
            AcpEvent::MessageChunk(text) => write_out(text),
            AcpEvent::ThoughtChunk(text) => write_out(text::cat2("[thought] ", text.as_str())),
            AcpEvent::ToolCall(tc) => {
                let a = text::cat3("\ntool-call ", tc.id.as_str(), " ");
                let b = text::cat3(a.as_str(), tc.kind.as_str(), " · ");
                let c = text::cat3(b.as_str(), tc.title.as_str(), " · ");
                write_out(text::cat3(c.as_str(), tc.status.as_str(), "\n"))
            },
            AcpEvent::ToolCallUpdate(up) => {
                let a = text::cat3("tool-update ", up.id.as_str(), " · ");
                let status = match &up.status {
                    Some(s) => s.as_str(),
                    None => "?",
                };
                write_out(text::cat3(a.as_str(), status, "\n"))
            },
            AcpEvent::Plan(entries) => write_out(list_plan(&entries)),
            AcpEvent::PermissionRequest { title, options, request } => {
                let shown = list_options(title.as_str(), &options);
                let s = OneshotStep {
                    out: vec![Out::Stdout(shown), Out::Stderr("allow? [y/n] ".to_string())],
                    command: None,
                    ask: Some((request, options)),
                    done: false,
                };
                assert(s.out.deep_view() =~= seq![
                    OutModel::Stdout(options_text(title@, options.deep_view())),
                    OutModel::Stderr("allow? [y/n] "@),
                ]);
                s
            },
            AcpEvent::TurnEnded { stop_reason } => {
                let mut s = write_out(text::cat3("\nturn-ended ", stop_reason.as_str(), "\n"));
                s.command = Some(AcpCommand::Shutdown);
                s
            },
            AcpEvent::Error(e) => write_out(text::cat3("\nerror: ", e.as_str(), "\n")),
            AcpEvent::AuthRequired(e) => {
                let mut s = write_out(text::cat3("\nauth-required: ", e.as_str(), "\n"));
                s.command = Some(AcpCommand::Shutdown);
                s
            },
            AcpEvent::Exited(reason) => {
                let mut s = write_out(text::cat3("agent-exited: ", reason.as_str(), "\n"));
                s.done = true;
                s
            },
        }
    }

    /// The user's answer to a question: `y` allows once.
    pub fn answer(line: &str, options: &[PermissionOptionView]) -> (r: PermissionOutcome)
        ensures
            r.deep_view() == if trimmed(line@) == "y"@ || trimmed(line@) == "Y"@ {
                or_first(picked(options.deep_view(), "allow_once"@), options.deep_view())
            } else {
                refusal(options.deep_view())
            },
    {
        let typed = text::trim(line);
        let word = typed.as_str();
        if text::same(word, "y") || text::same(word, "Y") {
            permit(options)
        } else {
            refuse(options)
        }
    }
}

} // verus!
