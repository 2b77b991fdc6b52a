//! The state behind the full-screen interface and the reducer that moves it.

pub mod agent_laws;
pub mod box_laws;
pub mod chat_laws;
pub mod input_laws;
pub mod key_laws;
pub mod laws;
pub mod model;

use crate::app::model::{
    card_positions, last_card, picked, replayed, replies, row_down, row_up, AppModel, EffectModel,
    InputEdit, ItemModel, ModalModel, Outside, Step, ToolCardModel,
};
use crate::chat::types::{copy_messages, ChatMessage};
use crate::commands::{parse, Completion, Parsed};
use crate::config::Config;
use crate::editor::{broken, editor_after_key, editor_after_newline, typed, Editor, EditorModel};
use crate::event::{
    AcpCommand, AcpEvent, AppEvent, AppEventModel, ChatEvent, KeyCode, KeyEvent, PermissionOptionView,
    PermissionOutcome, PlanEntryView, TermEvent, ToolCallUpdateView, ToolCallView,
};
use crate::session::{fresh_id, is_session_id, Session, SessionMeta};
use crate::text;
use crate::theme::Theme;
use crate::ui::markdown::MarkdownCache;
use vstd::prelude::*;

verus! {

#[derive(Debug, Clone, Copy, PartialEq, Eq, Structural)]
pub enum Mode {
    Chat,
    Agent,
}

pub struct ToolCard {
    pub view: ToolCallView,
    pub expanded: bool,
}

/// One entry of the transcript.
pub enum Item {
    User { text: String },
    Assistant { id: u64, md: String, revision: u64, streaming: bool },
    Thought { text: String, collapsed: bool },
    Tool(ToolCard),
    Info(String),
    Error(String),
}

/// A box over the transcript that takes all keys.
#[allow(inconsistent_fields)]
pub enum Modal {
    ModelPicker { items: Vec<String>, selected: usize },
    SessionPicker { items: Vec<SessionMeta>, selected: usize },
    Permission {
        title: String,
        options: Vec<PermissionOptionView>,
        selected: usize,
        request: u64,
    },
    Help,
}

/// Side effects the reducer asks the main loop to perform.
pub enum Effect {
    SendChat { turn: u64, model: String, messages: Vec<ChatMessage> },
    CancelChat,
    Acp(AcpCommand),
    SaveSession,
    Quit,
    /// List the saved sessions and report them.
    ListSessions,
    /// Read the saved session and report it.
    LoadSession { id: String },
    /// Answer the agent's question.
    AnswerPermission { request: u64, outcome: PermissionOutcome },
}

pub struct App {
    pub mode: Mode,
    pub items: Vec<Item>,
    pub chat_history: Vec<ChatMessage>,
    pub input: Editor,
    pub theme: Theme,
    pub busy: bool,
    pub turn: u64,
    pub chat_model: String,
    pub agent_model: String,
    pub available_models: Vec<String>,
    pub scroll: u16,
    pub follow: bool,
    pub modal: Option<Modal>,
    pub plan: Vec<PlanEntryView>,
    pub proxy_healthy: bool,
    pub agent_session: Option<String>,
    pub focused_tool: Option<usize>,
    pub markdown: MarkdownCache,
    pub completion: Option<Completion>,
    pub session_id: String,
    /// The highest id given to an assistant item.
    pub next_id: u64,
}

impl DeepView for ToolCard {
    type V = ToolCardModel;

    open spec fn deep_view(&self) -> ToolCardModel {
        ToolCardModel { view: self.view.deep_view(), expanded: self.expanded }
    }
}

impl DeepView for Item {
    type V = ItemModel;

    open spec fn deep_view(&self) -> ItemModel {
        match self {
            Item::User { text } => ItemModel::User { text: text@ },
            Item::Assistant { id, md, revision, streaming } => ItemModel::Assistant {
                id: *id,
                md: md@,
                revision: *revision,
                streaming: *streaming,
            },
            Item::Thought { text, collapsed } => ItemModel::Thought {
                text: text@,
                collapsed: *collapsed,
            },
            Item::Tool(card) => ItemModel::Tool(card.deep_view()),
            Item::Info(text) => ItemModel::Info(text@),
            Item::Error(text) => ItemModel::Error(text@),
        }
    }
}

impl DeepView for Modal {
    type V = ModalModel;

    open spec fn deep_view(&self) -> ModalModel {
        match self {
            Modal::ModelPicker { items, selected } => ModalModel::ModelPicker {
                items: items.deep_view(),
                selected: *selected as nat,
            },
            Modal::SessionPicker { items, selected } => ModalModel::SessionPicker {
                items: items.deep_view(),
                selected: *selected as nat,
            },
            Modal::Permission { title, options, selected, request } => ModalModel::Permission {
                title: title@,
                options: options.deep_view(),
                selected: *selected as nat,
                request: *request,
            },
            Modal::Help => ModalModel::Help,
        }
    }
}

impl DeepView for Effect {
    type V = EffectModel;

    open spec fn deep_view(&self) -> EffectModel {
        match self {
            Effect::SendChat { turn, model, messages } => EffectModel::SendChat {
                turn: *turn,
                model: model@,
                messages: messages.deep_view(),
            },
            Effect::CancelChat => EffectModel::CancelChat,
            Effect::Acp(command) => EffectModel::Acp(command.deep_view()),
            Effect::SaveSession => EffectModel::SaveSession,
            Effect::Quit => EffectModel::Quit,
            Effect::ListSessions => EffectModel::ListSessions,
            Effect::LoadSession { id } => EffectModel::LoadSession { id: id@ },
            Effect::AnswerPermission { request, outcome } => EffectModel::AnswerPermission {
                request: *request,
                outcome: outcome.deep_view(),
            },
        }
    }
}

impl View for App {
    type V = AppModel;

    open spec fn view(&self) -> AppModel {
        AppModel {
            mode: self.mode,
            items: self.items.deep_view(),
            chat_history: self.chat_history.deep_view(),
            input: self.input@,
            theme: self.theme,
            busy: self.busy,
            turn: self.turn,
            chat_model: self.chat_model@,
            agent_model: self.agent_model@,
            available_models: self.available_models.deep_view(),
            scroll: self.scroll,
            follow: self.follow,
            modal: self.modal.deep_view(),
            plan: self.plan.deep_view(),
            proxy_healthy: self.proxy_healthy,
            agent_session: self.agent_session.deep_view(),
            focused_tool: match self.focused_tool {
                Some(i) => Some(i as int),
                None => None,
            },
            markdown: self.markdown@,
            completion: self.completion.deep_view(),
            session_id: self.session_id@,
            next_id: self.next_id,
        }
    }
}

/// The one effect.
fn only(effect: Effect) -> (r: Vec<Effect>)
    ensures
        r.deep_view() == seq![effect.deep_view()],
{
    let r = vec![effect];
    assert(r.deep_view() =~= seq![effect.deep_view()]);
    r
}

/// No effect.
fn none() -> (r: Vec<Effect>)
    ensures
        r.deep_view() == Seq::<EffectModel>::empty(),
{
    let r: Vec<Effect> = Vec::new();
    assert(r.deep_view() =~= Seq::<EffectModel>::empty());
    r
}

/// A part of the conversation has no more replies than all of it.
proof fn lemma_fewer_replies(messages: Seq<crate::chat::types::ChatMessageModel>, n: int)
    requires
        0 <= n <= messages.len(),
    ensures
        replies(messages.take(n)) <= replies(messages),
    decreases messages.len() - n,
{
    if n < messages.len() {
        lemma_fewer_replies(messages, n + 1);
        assert(messages.take(n + 1).drop_last() =~= messages.take(n));
    } else {
        assert(messages.take(n) =~= messages);
    }
}

impl App {
    /// The model of the current mode.
    pub fn model(&self) -> (r: String)
        ensures
            r@ == self@.model_name(),
    {
        match self.mode {
            Mode::Chat => self.chat_model.clone(),
            Mode::Agent => self.agent_model.clone(),
        }
    }

    fn push_item(&mut self, item: Item)
        ensures
            final(self).input == old(self).input,
            final(self)@ == old(self)@.with_item(item.deep_view()),
    {
        self.items.push(item);
        assert(self.items.deep_view() =~= old(self).items.deep_view().push(item.deep_view()));
    }

    fn push_info(&mut self, text: String)
        ensures
            final(self).input == old(self).input,
            final(self)@ == old(self)@.info(text@),
    {
        self.push_item(Item::Info(text));
    }

    fn push_error(&mut self, text: String)
        ensures
            final(self).input == old(self).input,
            final(self)@ == old(self)@.error(text@),
    {
        self.push_item(Item::Error(text));
    }

    /// Whether the last item is a reply that is still coming in.
    fn is_streaming(&self) -> (r: bool)
        ensures
            r == self@.is_streaming(),
    {
        let n = self.items.len();
        if n == 0 {
            return false;
        }
        assert(self@.items.last() == self.items[n - 1].deep_view());
        match &self.items[n - 1] {
            Item::Assistant { streaming, .. } => *streaming,
            _ => false,
        }
    }

    /// More text of the reply.
    fn append_delta(&mut self, text: &str)
        requires
            old(self).next_id < u64::MAX,
            old(self)@.is_streaming() ==> old(self)@.items.last()->revision < u64::MAX,
        ensures
            final(self).input == old(self).input,
            final(self)@ == old(self)@.with_delta(text@),
    {
        if self.is_streaming() {
            let n = self.items.len();
            assert(self@.items.last() == self.items[n - 1].deep_view());
            if let Item::Assistant { md, revision, .. } = &mut self.items[n - 1] {
                md.append(text);
                *revision += 1;
            }
            assert(self@.items =~= old(self)@.with_delta(text@).items);
        } else {
            self.next_id += 1;
            let id = self.next_id;
            let md = text::owned(text);
            self.push_item(Item::Assistant { id, md, revision: 1, streaming: true });
        }
    }

    /// A reply at the end of the transcript is complete.
    fn finish_streaming_item(&mut self)
        ensures
            final(self).input == old(self).input,
            final(self)@ == old(self)@.settled(),
    {
        let n = self.items.len();
        if n > 0 {
            assert(self@.items.last() == self.items[n - 1].deep_view());
            if let Item::Assistant { streaming, .. } = &mut self.items[n - 1] {
                *streaming = false;
            }
            assert(self@.items =~= old(self)@.settled().items);
        }
    }

    pub fn handle_chat(&mut self, event: ChatEvent) -> (effects: Vec<Effect>)
        requires
            old(self)@.has_room_for(AppEventModel::Chat(event.deep_view())),
        ensures
            final(self).input == old(self).input,
            final(self)@ == old(self)@.after_chat(event.deep_view()).app,
            effects.deep_view() == old(self)@.after_chat(event.deep_view()).effects,
    {
        match event {
            ChatEvent::Delta { turn, text } => {
                if turn == self.turn {
                    self.append_delta(text.as_str());
                }
                none()
            },
            ChatEvent::Done { turn } => {
                if turn == self.turn {
                    self.busy = false;
                    if self.is_streaming() {
                        let n = self.items.len();
                        assert(self@.items.last() == self.items[n - 1].deep_view());
                        if let Item::Assistant { md, .. } = &self.items[n - 1] {
                            self.chat_history.push(ChatMessage::assistant(md.clone()));
                        }
                        assert(self@.chat_history =~= old(self)@.chat_history.push(
                            crate::chat::types::assistant_message(old(self)@.streamed_text()),
                        ));
                    }
                    self.finish_streaming_item();
                    only(Effect::SaveSession)
                } else {
                    none()
                }
            },
            ChatEvent::Error { turn, message } => {
                if turn == self.turn {
                    self.busy = false;
                    self.finish_streaming_item();
                    let _ = self.chat_history.pop();
                    assert(old(self).chat_history.len() > 0 ==> self@.chat_history
                        =~= old(self)@.chat_history.drop_last());
                    self.push_error(message);
                }
                none()
            },
        }
    }

    /// A thought at the end of the transcript is folded away.
    fn fold_thought(&mut self)
        ensures
            final(self).input == old(self).input,
            final(self)@ == old(self)@.thought_folded(),
    {
        let n = self.items.len();
        if n > 0 {
            assert(self@.items.last() == self.items[n - 1].deep_view());
            if let Item::Thought { collapsed, .. } = &mut self.items[n - 1] {
                *collapsed = true;
            }
            assert(self@.items =~= old(self)@.thought_folded().items);
        }
    }

    /// More of the agent's thinking.
    fn append_thought(&mut self, text: String)
        ensures
            final(self).input == old(self).input,
            final(self)@ == old(self)@.with_thought(text@),
    {
        let n = self.items.len();
        let mut open = false;
        if n > 0 {
            assert(self@.items.last() == self.items[n - 1].deep_view());
            if let Item::Thought { text: t, collapsed } = &mut self.items[n - 1] {
                if !*collapsed {
                    open = true;
                    t.append(text.as_str());
                }
            }
        }
        if open {
            assert(self@.items =~= old(self)@.with_thought(text@).items);
        } else {
            assert(self@.items =~= old(self)@.items);
            self.finish_streaming_item();
            self.push_item(Item::Thought { text, collapsed: false });
        }
    }

    /// The newest card of the tool call takes the update.
    pub fn merge_tool_update(&mut self, update: ToolCallUpdateView)
        ensures
            final(self).input == old(self).input,
            final(self)@ == old(self)@.with_update(update.deep_view()),
    {
        let mut i: usize = self.items.len();
        proof {
            assert(self@.items.take(i as int) =~= self@.items);
        }
        while i > 0
            invariant
                i <= self.items.len(),
                *self == *old(self),
                last_card(self@.items, update.id@) == last_card(
                    self@.items.take(i as int),
                    update.id@,
                ),
            decreases i,
        {
            i -= 1;
            let ghost upto = self@.items.take(i + 1);
            proof {
                assert(upto.drop_last() =~= self@.items.take(i as int));
                assert(upto.last() == self.items[i as int].deep_view());
            }
            let hit = match &self.items[i] {
                Item::Tool(card) => text::same(card.view.id.as_str(), update.id.as_str()),
                _ => false,
            };
            if hit {
                let ghost given = update.deep_view();
                if let Item::Tool(card) = &mut self.items[i] {
                    if let Some(t) = update.title {
                        card.view.title = t;
                    }
                    if let Some(s) = update.status {
                        card.view.status = s;
                    }
                    if update.raw_input.is_some() {
                        card.view.raw_input = update.raw_input;
                    }
                    if update.raw_output.is_some() {
                        card.view.raw_output = update.raw_output;
                    }
                }
                assert(self@.items =~= old(self)@.with_update(given).items);
                return;
            }
        }
    }

    /// A permission prompt that is replaced on screen is answered as cancelled.
    fn displace(&self) -> (effects: Vec<Effect>)
        ensures
            effects.deep_view() == self@.displaced(),
    {
        match &self.modal {
            Some(Modal::Permission { request, .. }) => only(
                Effect::AnswerPermission {
                    request: *request,
                    outcome: PermissionOutcome::Cancelled,
                },
            ),
            _ => none(),
        }
    }

    pub fn handle_acp(&mut self, event: AcpEvent) -> (effects: Vec<Effect>)
        requires
            old(self)@.has_room_for(AppEventModel::Acp(event.deep_view())),
        ensures
            final(self).input == old(self).input,
            final(self)@ == old(self)@.after_acp(event.deep_view()).app,
            effects.deep_view() == old(self)@.after_acp(event.deep_view()).effects,
    {
        match event {
            AcpEvent::SessionReady { session_id } => {
                self.agent_session = Some(session_id);
                self.push_info("agent session ready".to_string());
            },
            AcpEvent::MessageChunk(text) => {
                // The preceding thought is folded once real output starts.
                self.fold_thought();
                self.append_delta(text.as_str());
            },
            AcpEvent::ThoughtChunk(text) => {
                self.append_thought(text);
            },
            AcpEvent::ToolCall(view) => {
                self.finish_streaming_item();
                self.push_item(Item::Tool(ToolCard { view, expanded: false }));
            },
            AcpEvent::ToolCallUpdate(update) => {
                self.merge_tool_update(update);
            },
            AcpEvent::Plan(entries) => {
                self.plan = entries;
            },
            AcpEvent::PermissionRequest { title, options, request } => {
                let effects = self.displace();
                self.modal = Some(Modal::Permission { title, options, selected: 0, request });
                return effects;
            },
            AcpEvent::TurnEnded { stop_reason } => {
                self.busy = false;
                self.finish_streaming_item();
                self.plan = Vec::new();
                assert(self@.plan =~= Seq::empty());
                if !text::same(stop_reason.as_str(), "end_turn") {
                    self.push_info(text::cat2("turn ended: ", stop_reason.as_str()));
                }
            },
            AcpEvent::Error(message) => {
                self.busy = false;
                self.finish_streaming_item();
                self.push_error(message);
            },
            AcpEvent::AuthRequired(hint) => {
                self.busy = false;
                self.push_error(text::cat2("goose provider auth problem: ", hint.as_str()));
            },
            AcpEvent::Exited(reason) => {
                self.busy = false;
                self.agent_session = None;
                self.push_error(
                    text::cat3("agent exited: ", reason.as_str(), " (Ctrl+T twice respawns)"),
                );
            },
        }
        none()
    }

    fn toggle_mode(&mut self)
        ensures
            final(self).input == old(self).input,
            final(self)@ == old(self)@.toggled(),
    {
        match self.mode {
            Mode::Chat => {
                self.mode = Mode::Agent;
                self.push_info("agent mode".to_string());
            },
            Mode::Agent => {
                self.mode = Mode::Chat;
                self.push_info("chat mode".to_string());
            },
        }
    }

    fn set_model(&mut self, model: String)
        ensures
            final(self).input == old(self).input,
            final(self)@ == old(self)@.with_model(model@),
    {
        let known = self.available_models.len() == 0 || text::position(
            &self.available_models,
            model.as_str(),
        ).is_some();
        match self.mode {
            Mode::Chat => {
                self.chat_model = model.clone();
            },
            Mode::Agent => {
                self.agent_model = model.clone();
            },
        }
        if known {
            self.push_info(text::cat2("model: ", model.as_str()));
        } else {
            self.push_info(
                text::cat3("model: ", model.as_str(), " (not in this account's list)"),
            );
        }
        if self.mode == Mode::Agent {
            self.push_info("agent model applies to the next session".to_string());
        }
    }

    /// Everything of the conversation is gone.
    fn empty_out(&mut self, id: String)
        ensures
            final(self).input == old(self).input,
            final(self)@ == old(self)@.emptied(id@),
    {
        self.items = Vec::new();
        self.chat_history = Vec::new();
        self.plan = Vec::new();
        self.markdown.clear();
        self.session_id = id;
        self.focused_tool = None;
        self.follow = true;
        proof {
            assert(self@.items =~= Seq::empty());
            assert(self@.chat_history =~= Seq::empty());
            assert(self@.plan =~= Seq::empty());
        }
    }

    /// A new session with this id.
    pub fn start_session(&mut self, id: String)
        ensures
            final(self).input == old(self).input,
            final(self)@ == old(self)@.new_session(id@),
    {
        self.empty_out(id);
        self.push_info("new session".to_string());
    }

    fn new_session(&mut self)
        ensures
            final(self).input == old(self).input,
            final(self)@ == old(self)@.new_session(final(self)@.session_id),
            is_session_id(final(self)@.session_id),
    {
        let id = fresh_id();
        self.start_session(id);
    }

    /// The saved session becomes the current one.
    pub fn load_session(&mut self, session: Session)
        requires
            old(self).next_id + replies(session.messages.deep_view()) <= u64::MAX,
        ensures
            final(self).input == old(self).input,
            final(self)@ == old(self)@.with_session(session.deep_view()),
    {
        self.empty_out(session.id);
        self.chat_model = session.model;
        self.mode = Mode::Chat;
        let messages = session.messages;
        let ghost all = messages.deep_view();
        let ghost first = self.next_id;
        let mut i: usize = 0;
        let mut items: Vec<Item> = Vec::new();
        let mut next_id: u64 = self.next_id;
        proof {
            assert(items.deep_view() =~= replayed(all.take(0), first));
        }
        while i < messages.len()
            invariant
                i <= messages.len(),
                all == messages.deep_view(),
                first + replies(all) <= u64::MAX,
                items.deep_view() == replayed(all.take(i as int), first),
                next_id == first + replies(all.take(i as int)),
            decreases messages.len() - i,
        {
            let ghost before = items.deep_view();
            proof {
                assert(all.take(i + 1).drop_last() =~= all.take(i as int));
                assert(all.take(i + 1).last() == messages[i as int].deep_view());
                lemma_fewer_replies(all, i + 1);
            }
            if text::same(messages[i].role.as_str(), "user") {
                items.push(Item::User { text: messages[i].content.clone() });
            } else {
                next_id += 1;
                items.push(
                    Item::Assistant {
                        id: next_id,
                        md: messages[i].content.clone(),
                        revision: 0,
                        streaming: false,
                    },
                );
            }
            proof {
                assert(items.deep_view() =~= before.push(items[items.len() - 1].deep_view()));
            }
            i += 1;
        }
        proof {
            assert(all.take(i as int) =~= all);
        }
        self.items = items;
        self.next_id = next_id;
        self.chat_history = messages;
    }

    fn open_model_picker(&mut self)
        ensures
            final(self).input == old(self).input,
            final(self)@ == old(self)@.with_model_picker(),
    {
        if self.available_models.len() == 0 {
            self.push_info("model list not loaded yet".to_string());
            return;
        }
        let current = self.model();
        let selected = match text::position(&self.available_models, current.as_str()) {
            Some(i) => {
                proof {
                    self@.available_models.index_of_first_ensures(current@);
                }
                i
            },
            None => 0,
        };
        self.modal = Some(
            Modal::ModelPicker { items: text::copy_all(&self.available_models), selected },
        );
    }

    /// The input holds `text`, with the cursor behind it.
    fn set_input(&mut self, text: String)
        ensures
            final(self)@ == (AppModel {
                input: EditorModel::one_line(text@, text@.len()),
                ..old(self)@
            }),
    {
        self.input = Editor::with_text(text);
    }

    fn clear_input(&mut self)
        ensures
            final(self)@ == old(self)@.input_cleared(),
    {
        self.input = Editor::empty();
        self.completion = None;
    }

    /// Recompute the command completion popup from the current input.
    fn refresh_completion(&mut self)
        ensures
            final(self)@ == old(self)@.completion_refreshed(),
            final(self).input == old(self).input,
            final(self)@.completion matches Some(c) ==> c.valid(),
    {
        let lines = self.input.lines();
        if lines.len() == 1 {
            proof {
                assert(self@.input.lines[0] == lines[0]@);
            }
            let popup = Completion::for_input(lines[0].as_str(), self.completion.as_ref());
            self.completion = popup;
        } else {
            self.completion = None;
        }
    }

    fn run_command(&mut self, name: &str, args: &str) -> (effects: Vec<Effect>)
        ensures
            final(self).input == old(self).input,
            final(self)@ == old(self)@.after_command(name@, args@, final(self)@.session_id).app,
            effects.deep_view() == old(self)@.after_command(
                name@,
                args@,
                final(self)@.session_id,
            ).effects,
            name@ == "new"@ ==> is_session_id(final(self)@.session_id),
    {
        proof {
            reveal_strlit("help");
            reveal_strlit("new");
        }
        if text::same(name, "help") {
            self.modal = Some(Modal::Help);
            none()
        } else if text::same(name, "new") {
            self.new_session();
            none()
        } else if text::same(name, "sessions") {
            only(Effect::ListSessions)
        } else if text::same(name, "chat") || text::same(name, "agent") {
            let want = if text::same(name, "chat") {
                Mode::Chat
            } else {
                Mode::Agent
            };
            if self.mode == want {
                self.push_info(text::cat3("already in ", name, " mode"));
            } else {
                self.mode = want;
                self.push_info(text::cat2(name, " mode"));
            }
            none()
        } else if text::same(name, "model") {
            if args.is_empty() {
                self.open_model_picker();
            } else {
                self.set_model(text::owned(args));
            }
            none()
        } else if text::same(name, "quit") {
            only(Effect::Quit)
        } else {
            self.push_error(text::cat2("unknown command /", name));
            none()
        }
    }

    pub fn submit(&mut self) -> (effects: Vec<Effect>)
        requires
            old(self).turn < u64::MAX,
        ensures
            final(self)@ == old(self)@.submitted(final(self)@.session_id).app,
            effects.deep_view() == old(self)@.submitted(final(self)@.session_id).effects,
            old(self)@.submit_begins_session() ==> is_session_id(final(self)@.session_id),
            old(self)@.busy || old(self)@.message().len() == 0 ==> *final(self) == *old(self),
    {
        if self.busy {
            return none();
        }
        let lines = self.input.lines();
        let whole = text::join(&lines, "\n");
        let message = text::trim(whole.as_str());
        if message.as_str().is_empty() {
            return none();
        }
        match parse(message.as_str()) {
            Some(Parsed::Known(cmd, args)) => {
                self.clear_input();
                self.run_command(cmd.name, args.as_str())
            },
            Some(Parsed::Unknown(name)) => {
                self.clear_input();
                self.push_error(
                    text::cat3("unknown command /", name.as_str(), " — try /help"),
                );
                none()
            },
            None => {
                self.clear_input();
                self.push_item(Item::User { text: message.clone() });
                self.busy = true;
                self.follow = true;
                self.turn += 1;
                match self.mode {
                    Mode::Chat => {
                        self.chat_history.push(ChatMessage::user(message));
                        proof {
                            assert(self@.chat_history =~= old(self)@.chat_history.push(
                                crate::chat::types::user_message(message@),
                            ));
                        }
                        only(
                            Effect::SendChat {
                                turn: self.turn,
                                model: self.chat_model.clone(),
                                messages: copy_messages(self.chat_history.as_slice()),
                            },
                        )
                    },
                    Mode::Agent => only(Effect::Acp(AcpCommand::Prompt { text: message })),
                }
            },
        }
    }

    fn cancel_turn(&self) -> (effects: Vec<Effect>)
        ensures
            effects.deep_view() == self@.cancelling().effects,
    {
        match self.mode {
            Mode::Chat => only(Effect::CancelChat),
            Mode::Agent => only(Effect::Acp(AcpCommand::Cancel)),
        }
    }

    /// A tool card shows its details, or hides them again.
    fn flip_card(&mut self, i: usize)
        requires
            i < old(self).items.len(),
        ensures
            final(self).input == old(self).input,
            final(self)@ == old(self)@.card_flipped(i as int),
    {
        assert(self@.items[i as int] == self.items[i as int].deep_view());
        if let Item::Tool(card) = &mut self.items[i] {
            card.expanded = !card.expanded;
        }
        assert(self@.items =~= old(self)@.card_flipped(i as int).items);
    }

    /// The focus moves to another tool card.
    pub fn cycle_tool_focus(&mut self, forward: bool)
        ensures
            final(self).input == old(self).input,
            final(self)@ == old(self)@.focus_moved(forward),
    {
        let mut tools: Vec<usize> = Vec::new();
        let mut pos: Option<usize> = None;
        let mut i: usize = 0;
        let ghost items = self@.items;
        proof {
            assert(card_positions(items.take(0)).len() == 0);
        }
        while i < self.items.len()
            invariant
                i <= self.items.len(),
                *self == *old(self),
                items == self@.items,
                tools.len() == card_positions(items.take(i as int)).len(),
                tools.len() <= i,
                forall|k: int|
                    0 <= k < tools.len() ==> #[trigger] tools[k] == card_positions(
                        items.take(i as int),
                    )[k],
                self@.card_focused() && self.focused_tool->0 < i ==> pos is Some && pos->0
                    < tools.len() && pos->0 == card_positions(
                    items.take(self.focused_tool->0 as int),
                ).len(),
                !(self@.card_focused() && self.focused_tool->0 < i) ==> pos is None,
            decreases self.items.len() - i,
        {
            proof {
                assert(items.take(i + 1).drop_last() =~= items.take(i as int));
                assert(items[i as int] == self.items[i as int].deep_view());
            }
            if let Item::Tool(_) = &self.items[i] {
                if let Some(cur) = self.focused_tool {
                    if cur == i {
                        pos = Some(tools.len());
                    }
                }
                tools.push(i);
            }
            i += 1;
        }
        proof {
            assert(items.take(i as int) =~= items);
        }
        if tools.len() == 0 {
            return;
        }
        let last = tools[tools.len() - 1];
        if let Some(pos) = pos {
            let cur = self.focused_tool.unwrap();
            if forward && pos == tools.len() - 1 {
                self.flip_card(cur);
                return;
            }
            let next = if forward {
                tools[pos + 1]
            } else if pos == 0 {
                last
            } else {
                tools[pos - 1]
            };
            if next == cur {
                self.flip_card(cur);
            }
            self.focused_tool = Some(next);
        } else {
            self.focused_tool = Some(last);
        }
        self.follow = false;
    }

    pub fn handle_input_key(&mut self, key: KeyEvent) -> (effects: Vec<Effect>)
        requires
            old(self).turn < u64::MAX,
        ensures
            final(self)@ == old(self)@.after_input_key(
                key,
                old(self).outside(key, final(self)@.session_id),
            ).app,
            effects.deep_view() == old(self)@.after_input_key(
                key,
                old(self).outside(key, final(self)@.session_id),
            ).effects,
            old(self)@.input_key_begins_session(key) ==> is_session_id(final(self)@.session_id),
            old(self).edited(old(self)@.input_key_edit(key), key, final(self).input),
    {
        let KeyEvent { code, ctrl, alt, .. } = key;
        if code == KeyCode::Char('c') && ctrl {
            if self.busy {
                self.cancel_turn()
            } else {
                only(Effect::Quit)
            }
        } else if code == KeyCode::Char('d') && ctrl && self.input.is_blank() {
            only(Effect::Quit)
        } else if code == KeyCode::Esc {
            if self.busy {
                self.cancel_turn()
            } else {
                self.focused_tool = None;
                none()
            }
        } else if (code == KeyCode::Enter && !ctrl && alt) || (code == KeyCode::Char('j') && ctrl
            && !alt) {
            self.input.insert_newline();
            none()
        } else if code == KeyCode::Enter && !ctrl && !alt {
            self.submit()
        } else if code == KeyCode::Char('t') && ctrl && !alt && !self.busy {
            self.toggle_mode();
            none()
        } else if code == KeyCode::Char('o') && ctrl && !alt && !self.busy {
            self.open_model_picker();
            none()
        } else if code == KeyCode::Char('p') && ctrl && !alt && !self.busy {
            only(Effect::ListSessions)
        } else if code == KeyCode::Char('n') && ctrl && !alt && !self.busy {
            self.new_session();
            none()
        } else if code == KeyCode::Char('?') && self.input.is_blank() {
            self.modal = Some(Modal::Help);
            none()
        } else if code == KeyCode::PageUp {
            self.follow = false;
            self.scroll = if self.scroll >= 10 {
                self.scroll - 10
            } else {
                0
            };
            none()
        } else if code == KeyCode::PageDown {
            self.scroll = if self.scroll <= u16::MAX - 10 {
                self.scroll + 10
            } else {
                u16::MAX
            };
            none()
        } else if code == KeyCode::End && self.input.is_blank() {
            self.follow = true;
            none()
        } else if code == KeyCode::Tab && !ctrl && !alt {
            self.cycle_tool_focus(true);
            none()
        } else if code == KeyCode::BackTab {
            self.cycle_tool_focus(false);
            none()
        } else {
            self.input.type_key(key);
            none()
        }
    }

    /// Keys owned by the slash-command popup while it is open.
    pub fn handle_completion_key(&mut self, key: KeyEvent) -> (effects: Option<Vec<Effect>>)
        requires
            old(self)@.valid(),
        ensures
            match old(self)@.after_completion_key(key, final(self)@.session_id) {
                Some(step) => effects is Some && final(self)@ == step.app
                    && effects->0.deep_view() == step.effects,
                None => effects is None && *final(self) == *old(self),
            },
            old(self)@.popup_takes(key) && old(self)@.popup_begins_session(key) ==> is_session_id(
                final(self)@.session_id,
            ),
            effects is Some == old(self)@.popup_takes(key),
            key.code != KeyCode::Tab && key.code != KeyCode::Enter ==> final(self).input == old(
                self,
            ).input,
    {
        let (len, sel, chosen) = match &self.completion {
            None => {
                return None;
            },
            Some(popup) => (popup.items.len(), popup.selected, popup.selected()),
        };
        let ghost popup = self@.completion->0;
        proof {
            assert(popup.items[sel as int] == chosen.deep_view());
        }
        match key.code {
            KeyCode::Up => {
                self.highlight(up(sel));
                Some(none())
            },
            KeyCode::Down => {
                self.highlight(down(sel, len));
                Some(none())
            },
            KeyCode::Tab => {
                let filled = if chosen.args.is_empty() {
                    text::cat2("/", chosen.name)
                } else {
                    text::cat3("/", chosen.name, " ")
                };
                self.set_input(filled);
                self.refresh_completion();
                Some(none())
            },
            KeyCode::Enter => {
                self.clear_input();
                proof {
                    reveal_strlit("");
                    assert(""@ =~= Seq::<char>::empty());
                }
                Some(self.run_command(chosen.name, ""))
            },
            KeyCode::Esc => {
                self.completion = None;
                Some(none())
            },
            _ => None,
        }
    }

    /// The popup's highlight goes to this row.
    fn highlight(&mut self, row: usize)
        requires
            old(self)@.completion is Some,
        ensures
            final(self).input == old(self).input,
            final(self)@ == (AppModel {
                completion: Some(
                    crate::commands::CompletionModel {
                        selected: row as nat,
                        ..old(self)@.completion->0
                    },
                ),
                ..old(self)@
            }),
    {
        if let Some(popup) = &mut self.completion {
            popup.selected = row;
        }
    }

    pub fn handle_modal_key(&mut self, key: KeyEvent) -> (effects: Vec<Effect>)
        requires
            old(self)@.valid(),
        ensures
            final(self).input == old(self).input,
            final(self)@ == old(self)@.after_modal_key(key).app,
            effects.deep_view() == old(self)@.after_modal_key(key).effects,
    {
        let code = key.code;
        let to_up = code == KeyCode::Up || code == KeyCode::Char('k');
        let to_down = code == KeyCode::Down || code == KeyCode::Char('j');
        match self.modal.take() {
            None => none(),
            Some(Modal::Help) => none(),
            Some(Modal::ModelPicker { items, selected }) => {
                if to_up {
                    self.modal = Some(Modal::ModelPicker { items, selected: up(selected) });
                } else if to_down {
                    let len = items.len();
                    self.modal = Some(Modal::ModelPicker { items, selected: down(selected, len) });
                } else if code == KeyCode::Enter {
                    let model = items[selected].clone();
                    self.set_model(model);
                } else if code != KeyCode::Esc {
                    self.modal = Some(Modal::ModelPicker { items, selected });
                }
                none()
            },
            Some(Modal::SessionPicker { items, selected }) => {
                if to_up {
                    self.modal = Some(Modal::SessionPicker { items, selected: up(selected) });
                } else if to_down {
                    let len = items.len();
                    self.modal = Some(
                        Modal::SessionPicker { items, selected: down(selected, len) },
                    );
                } else if code == KeyCode::Enter {
                    let id = items[selected].id.clone();
                    return only(Effect::LoadSession { id });
                } else if code != KeyCode::Esc {
                    self.modal = Some(Modal::SessionPicker { items, selected });
                }
                none()
            },
            Some(Modal::Permission { title, options, selected, request }) => {
                let len = options.len();
                let mut row = selected;
                if to_up {
                    row = up(selected);
                } else if to_down {
                    row = down(selected, len);
                } else if code == KeyCode::Esc {
                    return only(
                        Effect::AnswerPermission { request, outcome: PermissionOutcome::Cancelled },
                    );
                } else if let Some(option_id) = choose_option(&options, selected, code) {
                    return only(
                        Effect::AnswerPermission {
                            request,
                            outcome: PermissionOutcome::Selected { option_id },
                        },
                    );
                }
                self.modal = Some(Modal::Permission { title, options, selected: row, request });
                none()
            },
        }
    }

    pub fn handle_key(&mut self, key: KeyEvent) -> (effects: Vec<Effect>)
        requires
            old(self)@.valid(),
            old(self).turn < u64::MAX,
        ensures
            final(self)@ == old(self)@.after_key(
                key,
                old(self).outside(key, final(self)@.session_id),
            ).app,
            effects.deep_view() == old(self)@.after_key(
                key,
                old(self).outside(key, final(self)@.session_id),
            ).effects,
            old(self)@.key_begins_session(key) ==> is_session_id(final(self)@.session_id),
            old(self).edited(old(self)@.key_edit(key), key, final(self).input),
    {
        if self.modal.is_some() {
            return self.handle_modal_key(key);
        }
        if let Some(effects) = self.handle_completion_key(key) {
            return effects;
        }
        let effects = self.handle_input_key(key);
        self.refresh_completion();
        effects
    }

    /// What lies outside the model when a key arrives: what the editor would make of it, and the id that a session begun by it gets.
    pub open spec fn outside(self, key: KeyEvent, fresh_id: Seq<char>) -> Outside {
        Outside {
            typed: typed(self.input, key),
            broken: broken(self.input),
            fresh_id,
        }
    }

    /// Whether this is the editor after the edit, with its undo history and all. Of an
    /// editor that replaces it the state says what it holds.
    pub open spec fn edited(self, edit: InputEdit, key: KeyEvent, after: Editor) -> bool {
        match edit {
            InputEdit::Kept => after == self.input,
            InputEdit::Typed => after == editor_after_key(self.input, key),
            InputEdit::Broken => after == editor_after_newline(self.input),
            InputEdit::Replaced => true,
        }
    }

    /// What an event does.
    pub open spec fn step(self, event: AppEventModel, fresh_id: Seq<char>) -> Step {
        match event {
            AppEventModel::Term(TermEvent::Key(key)) => self@.after(
                event,
                self.outside(key, fresh_id),
            ),
            _ => self@.after(
                event,
                Outside { typed: self.input@, broken: self.input@, fresh_id },
            ),
        }
    }

    /// Whether the counters have room for what the event does to them.
    pub fn has_room_for(&self, event: &AppEvent) -> (r: bool)
        ensures
            r == self@.has_room_for(event.deep_view()),
    {
        match event {
            AppEvent::Term(_) => self.turn < u64::MAX,
            AppEvent::Chat(ChatEvent::Delta { .. }) | AppEvent::Acp(AcpEvent::MessageChunk(_)) => {
                self.next_id < u64::MAX && self.has_room_for_revision()
            },
            AppEvent::SessionLoaded(Ok(session)) => {
                let mut i: usize = 0;
                let mut left: u64 = u64::MAX - self.next_id;
                let ghost all = session.messages.deep_view();
                proof {
                    assert(replies(all.take(0)) == 0);
                }
                while i < session.messages.len()
                    invariant
                        i <= session.messages.len(),
                        all == session.messages.deep_view(),
                        event.deep_view() == AppEventModel::SessionLoaded(
                            Ok(session.deep_view()),
                        ),
                        left == u64::MAX - self.next_id - replies(all.take(i as int)),
                    decreases session.messages.len() - i,
                {
                    proof {
                        assert(all.take(i + 1).drop_last() =~= all.take(i as int));
                        assert(all.take(i + 1).last() == session.messages[i as int].deep_view());
                        lemma_fewer_replies(all, i + 1);
                    }
                    if !text::same(session.messages[i].role.as_str(), "user") {
                        if left == 0 {
                            return false;
                        }
                        left -= 1;
                    }
                    i += 1;
                }
                proof {
                    assert(all.take(i as int) =~= all);
                }
                true
            },
            _ => true,
        }
    }

    /// Whether another revision of the reply that is coming in can be counted.
    fn has_room_for_revision(&self) -> (r: bool)
        ensures
            r == (self@.is_streaming() ==> self@.items.last()->revision < u64::MAX),
    {
        let n = self.items.len();
        if n == 0 {
            return true;
        }
        assert(self@.items.last() == self.items[n - 1].deep_view());
        match &self.items[n - 1] {
            Item::Assistant { revision, streaming, .. } => !*streaming || *revision < u64::MAX,
            _ => true,
        }
    }

    /// Moves the state by one event and tells the main loop what to do.
    ///
    /// A session begun by the event gets a fresh id, of which only the shape is
    /// known beforehand.
    pub fn handle(&mut self, event: AppEvent) -> (effects: Vec<Effect>)
        requires
            old(self)@.valid(),
            old(self)@.has_room_for(event.deep_view()),
        ensures
            final(self)@ == old(self).step(event.deep_view(), final(self)@.session_id).app,
            effects.deep_view() == old(self).step(
                event.deep_view(),
                final(self)@.session_id,
            ).effects,
            old(self)@.begins_session(event.deep_view()) ==> is_session_id(
                final(self)@.session_id,
            ),
            match event {
                AppEvent::Term(TermEvent::Key(key)) if key.press => old(self).edited(
                    old(self)@.key_edit(key),
                    key,
                    final(self).input,
                ),
                _ => final(self).input == old(self).input,
            },
            final(self)@.valid(),
    {
        let ghost given = event.deep_view();
        let effects = match event {
            AppEvent::Term(TermEvent::Key(key)) => {
                if key.press {
                    self.handle_key(key)
                } else {
                    none()
                }
            },
            AppEvent::Term(_) => none(),
            AppEvent::Chat(e) => self.handle_chat(e),
            AppEvent::Acp(e) => self.handle_acp(e),
            AppEvent::ThemeChanged(theme) => {
                self.theme = theme;
                none()
            },
            AppEvent::ProxyHealth(ok) => {
                self.proxy_healthy = ok;
                none()
            },
            AppEvent::Models(models) => {
                self.available_models = models;
                none()
            },
            AppEvent::Sessions(items) => {
                if items.len() == 0 {
                    self.push_info("no saved sessions yet".to_string());
                    none()
                } else {
                    let effects = self.displace();
                    self.modal = Some(Modal::SessionPicker { items, selected: 0 });
                    effects
                }
            },
            AppEvent::SessionLoaded(Ok(session)) => {
                self.load_session(session);
                none()
            },
            AppEvent::SessionLoaded(Err(reason)) => {
                self.push_error(text::cat2("could not load session: ", reason.as_str()));
                none()
            },
        };
        proof {
            let fresh = self@.session_id;
            match given {
                AppEventModel::Term(TermEvent::Key(key)) => {
                    laws::highlights_stay_in_list(old(self)@, given, old(self).outside(key, fresh));
                },
                _ => {
                    laws::highlights_stay_in_list(
                        old(self)@,
                        given,
                        Outside {
                            typed: old(self).input@,
                            broken: old(self).input@,
                            fresh_id: fresh,
                        },
                    );
                },
            }
        }
        effects
    }

    /// The state at startup, with its first session under a fresh id.
    pub fn new(config: &Config, theme: Theme) -> (app: App)
        ensures
            app@ == AppModel::initial(
                config.chat.model@,
                config.agent.model@,
                theme,
                app@.session_id,
            ),
            is_session_id(app@.session_id),
            app@.valid(),
    {
        App::start(config.chat.model.clone(), config.agent.model.clone(), theme, fresh_id())
    }

    /// The state at startup, with its first session under this id.
    pub fn start(chat_model: String, agent_model: String, theme: Theme, session_id: String) -> (app:
        App)
        ensures
            app@ == AppModel::initial(chat_model@, agent_model@, theme, session_id@),
            app@.valid(),
    {
        let app = App {
            mode: Mode::Chat,
            items: Vec::new(),
            chat_history: Vec::new(),
            input: Editor::empty(),
            theme,
            busy: false,
            turn: 0,
            chat_model,
            agent_model,
            available_models: Vec::new(),
            scroll: 0,
            follow: true,
            modal: None,
            plan: Vec::new(),
            proxy_healthy: true,
            agent_session: None,
            focused_tool: None,
            markdown: MarkdownCache::new(),
            completion: None,
            session_id,
            next_id: 0,
        };
        proof {
            let shown = AppModel::initial(chat_model@, agent_model@, theme, session_id@);
            assert(app@.items =~= shown.items);
            assert(app@.chat_history =~= shown.chat_history);
            assert(app@.available_models =~= shown.available_models);
            assert(app@.plan =~= shown.plan);
        }
        app
    }
}

/// One step up a list.
fn up(selected: usize) -> (r: usize)
    ensures
        r == row_up(selected as nat),
{
    if selected > 0 {
        selected - 1
    } else {
        0
    }
}

/// One step down a list of `len` rows.
fn down(selected: usize, len: usize) -> (r: usize)
    ensures
        r == row_down(selected as nat, len as nat),
{
    if len > 0 && selected < len - 1 {
        selected + 1
    } else if len > 0 {
        len - 1
    } else {
        0
    }
}

/// The option that a key chooses in a permission prompt.
fn choose_option(options: &Vec<PermissionOptionView>, selected: usize, code: KeyCode) -> (r: Option<
    String,
>)
    ensures
        r.deep_view() == AppModel::chosen_option(options.deep_view(), selected as nat, code),
{
    match code {
        KeyCode::Enter => {
            if selected < options.len() {
                assert(options.deep_view()[selected as int] == options[selected as int].deep_view());
                Some(options[selected].id.clone())
            } else {
                None
            }
        },
        KeyCode::Char('y') => pick_kind(options.as_slice(), "allow_once"),
        KeyCode::Char('a') => pick_kind(options.as_slice(), "allow_always"),
        KeyCode::Char('n') => pick_kind(options.as_slice(), "reject_once"),
        KeyCode::Char('N') => pick_kind(options.as_slice(), "reject_always"),
        _ => None,
    }
}

/// The id of the first option of this kind.
pub fn pick_kind(options: &[PermissionOptionView], kind: &str) -> (r: Option<String>)
    ensures
        r.deep_view() == picked(options.deep_view(), kind@),
{
    let mut i: usize = 0;
    let ghost all = options.deep_view();
    proof {
        assert(all.skip(0) =~= all);
    }
    while i < options.len()
        invariant
            i <= options.len(),
            all == options.deep_view(),
            picked(all, kind@) == picked(all.skip(i as int), kind@),
        decreases options.len() - i,
    {
        proof {
            assert(all[i as int] == options[i as int].deep_view());
            assert(all.skip(i as int).drop_first() =~= all.skip(i + 1));
        }
        if text::same(options[i].kind.as_str(), kind) {
            return Some(options[i].id.clone());
        }
        i += 1;
    }
    None
}

} // verus!
