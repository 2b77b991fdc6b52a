//! The state as plain mathematics, and what each event does to it.

use crate::app::Mode;
use crate::chat::types::{assistant_message, user_message, ChatMessageModel};
use crate::commands::{completion_for, parsed, CompletionModel, ParsedModel};
use crate::editor::{is_blank, EditorModel};
use crate::event::{
    AcpCommandModel, AcpEventModel, AppEventModel, ChatEventModel, KeyCode, KeyEvent,
    PermissionOptionModel, PermissionOutcomeModel, PlanEntryModel, TermEvent, ToolCallModel,
    ToolCallUpdateModel,
};
use crate::session::{SessionMetaModel, SessionModel};
use crate::text::{joined, trimmed};
use crate::theme::Theme;
use crate::ui::markdown::{rendered, CacheModel};
use vstd::multiset::Multiset;
use vstd::prelude::*;

verus! {

pub struct ToolCardModel {
    pub view: ToolCallModel,
    pub expanded: bool,
}

pub enum ItemModel {
    User { text: Seq<char> },
    Assistant { id: u64, md: Seq<char>, revision: u64, streaming: bool },
    Thought { text: Seq<char>, collapsed: bool },
    Tool(ToolCardModel),
    Info(Seq<char>),
    Error(Seq<char>),
}

#[allow(inconsistent_fields)]
pub enum ModalModel {
    ModelPicker { items: Seq<Seq<char>>, selected: nat },
    SessionPicker { items: Seq<SessionMetaModel>, selected: nat },
    Permission {
        title: Seq<char>,
        options: Seq<PermissionOptionModel>,
        selected: nat,
        request: u64,
    },
    Help,
}

pub enum EffectModel {
    SendChat { turn: u64, model: Seq<char>, messages: Seq<ChatMessageModel> },
    CancelChat,
    Acp(AcpCommandModel),
    SaveSession,
    Quit,
    ListSessions,
    LoadSession { id: Seq<char> },
    AnswerPermission { request: u64, outcome: PermissionOutcomeModel },
}

pub struct AppModel {
    pub mode: Mode,
    pub items: Seq<ItemModel>,
    pub chat_history: Seq<ChatMessageModel>,
    pub input: EditorModel,
    pub theme: Theme,
    pub busy: bool,
    pub turn: u64,
    pub chat_model: Seq<char>,
    pub agent_model: Seq<char>,
    pub available_models: Seq<Seq<char>>,
    pub scroll: u16,
    pub follow: bool,
    pub modal: Option<ModalModel>,
    pub plan: Seq<PlanEntryModel>,
    pub proxy_healthy: bool,
    pub agent_session: Option<Seq<char>>,
    pub focused_tool: Option<int>,
    pub markdown: CacheModel,
    pub completion: Option<CompletionModel>,
    pub session_id: Seq<char>,
    pub next_id: u64,
}

/// The state after an event, and what the main loop is asked to do.
pub struct Step {
    pub app: AppModel,
    pub effects: Seq<EffectModel>,
}

/// What becomes of the input line: it stays as it is, it takes a key, it is broken at
/// the cursor, or it gives way to another.
pub enum InputEdit {
    Kept,
    Typed,
    Broken,
    Replaced,
}

/// What an edit would make of the input, and the id that a session begun
/// now would get.
pub struct Outside {
    pub typed: EditorModel,
    pub broken: EditorModel,
    pub fresh_id: Seq<char>,
}

/// The id of the first option of this kind.
pub open spec fn picked(options: Seq<PermissionOptionModel>, kind: Seq<char>) -> Option<Seq<char>>
    decreases options.len(),
{
    if options.len() == 0 {
        None
    } else if options[0].kind == kind {
        Some(options[0].id)
    } else {
        picked(options.drop_first(), kind)
    }
}

/// The position of the last card of this tool call.
pub open spec fn last_card(items: Seq<ItemModel>, id: Seq<char>) -> Option<int>
    decreases items.len(),
{
    if items.len() == 0 {
        None
    } else if items.last() matches ItemModel::Tool(card) && card.view.id == id {
        Some(items.len() - 1)
    } else {
        last_card(items.drop_last(), id)
    }
}

/// The positions of the tool cards, in order.
pub open spec fn card_positions(items: Seq<ItemModel>) -> Seq<int>
    decreases items.len(),
{
    if items.len() == 0 {
        Seq::empty()
    } else if items.last() is Tool {
        card_positions(items.drop_last()).push(items.len() - 1)
    } else {
        card_positions(items.drop_last())
    }
}

/// A tool call with the fields that the update brings.
pub open spec fn updated_call(view: ToolCallModel, update: ToolCallUpdateModel) -> ToolCallModel {
    ToolCallModel {
        id: view.id,
        title: if update.title is Some {
            update.title->0
        } else {
            view.title
        },
        kind: view.kind,
        status: if update.status is Some {
            update.status->0
        } else {
            view.status
        },
        raw_input: if update.raw_input is Some {
            update.raw_input
        } else {
            view.raw_input
        },
        raw_output: if update.raw_output is Some {
            update.raw_output
        } else {
            view.raw_output
        },
    }
}

/// The transcript of a saved conversation; assistant items are numbered from
/// `next_id` on.
pub open spec fn replayed(messages: Seq<ChatMessageModel>, next_id: u64) -> Seq<ItemModel>
    decreases messages.len(),
{
    if messages.len() == 0 {
        Seq::empty()
    } else {
        let earlier = replayed(messages.drop_last(), next_id);
        if messages.last().role == "user"@ {
            earlier.push(ItemModel::User { text: messages.last().content })
        } else {
            earlier.push(
                ItemModel::Assistant {
                    id: (next_id + replies(messages)) as u64,
                    md: messages.last().content,
                    revision: 0,
                    streaming: false,
                },
            )
        }
    }
}

/// How many messages the user did not write.
pub open spec fn replies(messages: Seq<ChatMessageModel>) -> nat
    decreases messages.len(),
{
    if messages.len() == 0 {
        0
    } else if messages.last().role == "user"@ {
        replies(messages.drop_last())
    } else {
        replies(messages.drop_last()) + 1
    }
}

/// One step up a list.
pub open spec fn row_up(selected: nat) -> nat {
    if selected > 0 {
        (selected - 1) as nat
    } else {
        0
    }
}

/// One step down a list of `len` rows.
pub open spec fn row_down(selected: nat, len: nat) -> nat {
    if selected + 1 < len {
        selected + 1
    } else if len > 0 {
        (len - 1) as nat
    } else {
        0
    }
}

/// What the cache holds for a reply is an earlier revision, or this one.
pub open spec fn entry_sound(cache: CacheModel, reply: ItemModel) -> bool {
    let id = reply->Assistant_id;
    cache.contains_key(id) ==> {
        &&& cache[id].0 <= reply->revision
        &&& cache[id].0 == reply->revision ==> cache[id].1 == rendered(
            reply->Assistant_md,
        )
    }
}

/// The texts one after the other.
pub open spec fn concatenated(texts: Seq<Seq<char>>) -> Seq<char>
    decreases texts.len(),
{
    if texts.len() == 0 {
        Seq::empty()
    } else {
        concatenated(texts.drop_last()) + texts.last()
    }
}

/// The questions that an event brings.
pub open spec fn questions(event: AppEventModel) -> Multiset<u64> {
    match event {
        AppEventModel::Acp(AcpEventModel::PermissionRequest { request, .. }) => Multiset::singleton(
            request,
        ),
        _ => Multiset::empty(),
    }
}

/// The questions that the effects answer.
pub open spec fn answers(effects: Seq<EffectModel>) -> Multiset<u64>
    decreases effects.len(),
{
    if effects.len() == 0 {
        Multiset::empty()
    } else {
        match effects.last() {
            EffectModel::AnswerPermission { request, .. } => answers(effects.drop_last()).insert(
                request,
            ),
            _ => answers(effects.drop_last()),
        }
    }
}

impl AppModel {
    /// The state after the deltas of the current turn.
    pub open spec fn streamed(self, texts: Seq<Seq<char>>) -> AppModel
        decreases texts.len(),
    {
        if texts.len() == 0 {
            self
        } else {
            let earlier = self.streamed(texts.drop_last());
            earlier.after_chat(
                ChatEventModel::Delta { turn: earlier.turn, text: texts.last() },
            ).app
        }
    }

    /// The state after parts of the agent's message, and what the main loop was asked
    /// to do on the way.
    pub open spec fn spoken(self, texts: Seq<Seq<char>>) -> Step
        decreases texts.len(),
    {
        if texts.len() == 0 {
            self.quiet()
        } else {
            let earlier = self.spoken(texts.drop_last());
            let step = earlier.app.after_acp(AcpEventModel::MessageChunk(texts.last()));
            Step { app: step.app, effects: earlier.effects + step.effects }
        }
    }

    /// The question that is on screen.
    pub open spec fn pending(self) -> Multiset<u64> {
        match self.modal {
            Some(ModalModel::Permission { request, .. }) => Multiset::singleton(request),
            _ => Multiset::empty(),
        }
    }

    /// The state at startup.
    pub open spec fn initial(
        chat_model: Seq<char>,
        agent_model: Seq<char>,
        theme: Theme,
        session_id: Seq<char>,
    ) -> AppModel {
        AppModel {
            mode: Mode::Chat,
            items: Seq::empty(),
            chat_history: Seq::empty(),
            input: EditorModel::empty(),
            theme,
            busy: false,
            turn: 0,
            chat_model,
            agent_model,
            available_models: Seq::empty(),
            scroll: 0,
            follow: true,
            modal: None,
            plan: Seq::empty(),
            proxy_healthy: true,
            agent_session: None,
            focused_tool: None,
            markdown: CacheModel::empty(),
            completion: None,
            session_id,
            next_id: 0,
        }
    }

    /// The model of the current mode.
    pub open spec fn model_name(self) -> Seq<char> {
        match self.mode {
            Mode::Chat => self.chat_model,
            Mode::Agent => self.agent_model,
        }
    }

    pub open spec fn with_item(self, item: ItemModel) -> AppModel {
        AppModel { items: self.items.push(item), ..self }
    }

    pub open spec fn info(self, text: Seq<char>) -> AppModel {
        self.with_item(ItemModel::Info(text))
    }

    pub open spec fn error(self, text: Seq<char>) -> AppModel {
        self.with_item(ItemModel::Error(text))
    }

    /// The state, with nothing for the main loop to do.
    pub open spec fn quiet(self) -> Step {
        Step { app: self, effects: Seq::empty() }
    }

    pub open spec fn with_effect(self, effect: EffectModel) -> Step {
        Step { app: self, effects: seq![effect] }
    }

    /// Whether the last item is a reply that is still coming in.
    pub open spec fn is_streaming(self) -> bool {
        self.items.len() > 0 && (self.items.last() matches ItemModel::Assistant { streaming, .. }
            && streaming)
    }

    /// The text of the reply that is coming in.
    pub open spec fn streamed_text(self) -> Seq<char> {
        self.items.last()->Assistant_md
    }

    /// More text of the reply: it goes to the reply that is coming in, or begins
    /// a new one.
    pub open spec fn with_delta(self, text: Seq<char>) -> AppModel {
        if self.is_streaming() {
            AppModel {
                items: self.items.update(
                    self.items.len() - 1,
                    ItemModel::Assistant {
                        id: self.items.last()->Assistant_id,
                        md: self.items.last()->Assistant_md + text,
                        revision: (self.items.last()->revision + 1) as u64,
                        streaming: true,
                    },
                ),
                ..self
            }
        } else {
            AppModel {
                items: self.items.push(
                    ItemModel::Assistant {
                        id: (self.next_id + 1) as u64,
                        md: text,
                        revision: 1,
                        streaming: true,
                    },
                ),
                next_id: (self.next_id + 1) as u64,
                ..self
            }
        }
    }

    /// A reply at the end of the transcript is complete.
    pub open spec fn settled(self) -> AppModel {
        if self.items.len() > 0 && self.items.last() is Assistant {
            AppModel {
                items: self.items.update(
                    self.items.len() - 1,
                    ItemModel::Assistant {
                        id: self.items.last()->Assistant_id,
                        md: self.items.last()->Assistant_md,
                        revision: self.items.last()->revision,
                        streaming: false,
                    },
                ),
                ..self
            }
        } else {
            self
        }
    }

    pub open spec fn after_chat(self, event: ChatEventModel) -> Step {
        match event {
            ChatEventModel::Delta { turn, text } => if turn == self.turn {
                self.with_delta(text).quiet()
            } else {
                self.quiet()
            },
            ChatEventModel::Done { turn } => if turn == self.turn {
                let history = if self.is_streaming() {
                    self.chat_history.push(assistant_message(self.streamed_text()))
                } else {
                    self.chat_history
                };
                AppModel { busy: false, chat_history: history, ..self.settled() }.with_effect(
                    EffectModel::SaveSession,
                )
            } else {
                self.quiet()
            },
            ChatEventModel::Error { turn, message } => if turn == self.turn {
                let history = if self.chat_history.len() > 0 {
                    self.chat_history.drop_last()
                } else {
                    self.chat_history
                };
                AppModel { busy: false, chat_history: history, ..self.settled() }.error(
                    message,
                ).quiet()
            } else {
                self.quiet()
            },
        }
    }

    /// A thought at the end of the transcript is folded away.
    pub open spec fn thought_folded(self) -> AppModel {
        if self.items.len() > 0 && self.items.last() is Thought {
            AppModel {
                items: self.items.update(
                    self.items.len() - 1,
                    ItemModel::Thought { text: self.items.last()->Thought_text, collapsed: true },
                ),
                ..self
            }
        } else {
            self
        }
    }

    /// More of the agent's thinking.
    pub open spec fn with_thought(self, text: Seq<char>) -> AppModel {
        if self.items.len() > 0 && (self.items.last() matches ItemModel::Thought { collapsed, .. }
            && !collapsed) {
            AppModel {
                items: self.items.update(
                    self.items.len() - 1,
                    ItemModel::Thought {
                        text: self.items.last()->Thought_text + text,
                        collapsed: false,
                    },
                ),
                ..self
            }
        } else {
            self.settled().with_item(ItemModel::Thought { text, collapsed: false })
        }
    }

    /// The newest card of the tool call takes the update.
    pub open spec fn with_update(self, update: ToolCallUpdateModel) -> AppModel {
        match last_card(self.items, update.id) {
            Some(i) => {
                let card = self.items[i]->Tool_0;
                AppModel {
                    items: self.items.update(
                        i,
                        ItemModel::Tool(
                            ToolCardModel {
                                view: updated_call(card.view, update),
                                expanded: card.expanded,
                            },
                        ),
                    ),
                    ..self
                }
            },
            None => self,
        }
    }

    /// A permission prompt that is replaced on screen is answered as cancelled.
    pub open spec fn displaced(self) -> Seq<EffectModel> {
        match self.modal {
            Some(ModalModel::Permission { request, .. }) => seq![
                EffectModel::AnswerPermission {
                    request,
                    outcome: PermissionOutcomeModel::Cancelled,
                },
            ],
            _ => Seq::empty(),
        }
    }

    pub open spec fn after_acp(self, event: AcpEventModel) -> Step {
        match event {
            AcpEventModel::SessionReady { session_id } => AppModel {
                agent_session: Some(session_id),
                ..self
            }.info("agent session ready"@).quiet(),
            AcpEventModel::MessageChunk(text) => self.thought_folded().with_delta(text).quiet(),
            AcpEventModel::ThoughtChunk(text) => self.with_thought(text).quiet(),
            AcpEventModel::ToolCall(view) => self.settled().with_item(
                ItemModel::Tool(ToolCardModel { view, expanded: false }),
            ).quiet(),
            AcpEventModel::ToolCallUpdate(update) => self.with_update(update).quiet(),
            AcpEventModel::Plan(entries) => AppModel { plan: entries, ..self }.quiet(),
            AcpEventModel::PermissionRequest { title, options, request } => Step {
                app: AppModel {
                    modal: Some(ModalModel::Permission { title, options, selected: 0, request }),
                    ..self
                },
                effects: self.displaced(),
            },
            AcpEventModel::TurnEnded { stop_reason } => {
                let done = AppModel { busy: false, plan: Seq::empty(), ..self.settled() };
                if stop_reason == "end_turn"@ {
                    done.quiet()
                } else {
                    done.info("turn ended: "@ + stop_reason).quiet()
                }
            },
            AcpEventModel::Error(message) => AppModel { busy: false, ..self.settled() }.error(
                message,
            ).quiet(),
            AcpEventModel::AuthRequired(hint) => AppModel { busy: false, ..self }.error(
                "goose provider auth problem: "@ + hint,
            ).quiet(),
            AcpEventModel::Exited(reason) => AppModel {
                busy: false,
                agent_session: None,
                ..self
            }.error("agent exited: "@ + reason + " (Ctrl+T twice respawns)"@).quiet(),
        }
    }

    /// The mode is the other one.
    pub open spec fn toggled(self) -> AppModel {
        match self.mode {
            Mode::Chat => AppModel { mode: Mode::Agent, ..self }.info("agent mode"@),
            Mode::Agent => AppModel { mode: Mode::Chat, ..self }.info("chat mode"@),
        }
    }

    /// The model of the current mode is this one.
    pub open spec fn with_model(self, model: Seq<char>) -> AppModel {
        let set = match self.mode {
            Mode::Chat => AppModel { chat_model: model, ..self },
            Mode::Agent => AppModel { agent_model: model, ..self },
        };
        let told = if self.available_models.len() == 0 || self.available_models.contains(model) {
            set.info("model: "@ + model)
        } else {
            set.info("model: "@ + model + " (not in this account's list)"@)
        };
        if self.mode == Mode::Agent {
            told.info("agent model applies to the next session"@)
        } else {
            told
        }
    }

    /// Everything of the conversation is gone.
    pub open spec fn emptied(self, id: Seq<char>) -> AppModel {
        AppModel {
            items: Seq::empty(),
            chat_history: Seq::empty(),
            plan: Seq::empty(),
            markdown: CacheModel::empty(),
            session_id: id,
            focused_tool: None,
            follow: true,
            ..self
        }
    }

    /// A new session with this id.
    pub open spec fn new_session(self, id: Seq<char>) -> AppModel {
        self.emptied(id).info("new session"@)
    }

    /// The saved session is the current one.
    pub open spec fn with_session(self, session: SessionModel) -> AppModel {
        AppModel {
            chat_model: session.model,
            mode: Mode::Chat,
            items: replayed(session.messages, self.next_id),
            chat_history: session.messages,
            next_id: (self.next_id + replies(session.messages)) as u64,
            ..self.emptied(session.id)
        }
    }

    /// The number of models before the current one, none if it is not listed.
    pub open spec fn current_row(self) -> nat {
        if self.available_models.contains(self.model_name()) {
            self.available_models.index_of_first(self.model_name())->0 as nat
        } else {
            0
        }
    }

    pub open spec fn with_model_picker(self) -> AppModel {
        if self.available_models.len() == 0 {
            self.info("model list not loaded yet"@)
        } else {
            AppModel {
                modal: Some(
                    ModalModel::ModelPicker {
                        items: self.available_models,
                        selected: self.current_row(),
                    },
                ),
                ..self
            }
        }
    }

    /// The input is empty and the popup closed.
    pub open spec fn input_cleared(self) -> AppModel {
        AppModel { input: EditorModel::empty(), completion: None, ..self }
    }

    /// The popup follows the input.
    pub open spec fn completion_refreshed(self) -> AppModel {
        AppModel {
            completion: if self.input.lines.len() == 1 {
                completion_for(self.input.lines[0], self.completion)
            } else {
                None
            },
            ..self
        }
    }

    pub open spec fn after_command(self, name: Seq<char>, args: Seq<char>, fresh: Seq<char>) -> Step {
        if name == "help"@ {
            AppModel { modal: Some(ModalModel::Help), ..self }.quiet()
        } else if name == "new"@ {
            self.new_session(fresh).quiet()
        } else if name == "sessions"@ {
            self.with_effect(EffectModel::ListSessions)
        } else if name == "chat"@ || name == "agent"@ {
            let want = if name == "chat"@ {
                Mode::Chat
            } else {
                Mode::Agent
            };
            if self.mode == want {
                self.info("already in "@ + name + " mode"@).quiet()
            } else {
                AppModel { mode: want, ..self }.info(name + " mode"@).quiet()
            }
        } else if name == "model"@ {
            if args.len() == 0 {
                self.with_model_picker().quiet()
            } else {
                self.with_model(args).quiet()
            }
        } else if name == "quit"@ {
            self.with_effect(EffectModel::Quit)
        } else {
            self.error("unknown command /"@ + name).quiet()
        }
    }

    /// The message in the input.
    pub open spec fn message(self) -> Seq<char> {
        trimmed(joined(self.input.lines, "\n"@))
    }

    /// The message in the input goes to the model or the agent, or runs as a
    /// command.
    pub open spec fn submitted(self, fresh: Seq<char>) -> Step {
        if self.busy || self.message().len() == 0 {
            self.quiet()
        } else {
            match parsed(self.message()) {
                Some(ParsedModel::Known(c, args)) => self.input_cleared().after_command(
                    c.name,
                    args,
                    fresh,
                ),
                Some(ParsedModel::Unknown(name)) => self.input_cleared().error(
                    "unknown command /"@ + name + " — try /help"@,
                ).quiet(),
                None => {
                    let sent = AppModel {
                        busy: true,
                        follow: true,
                        turn: (self.turn + 1) as u64,
                        ..self.input_cleared().with_item(ItemModel::User { text: self.message() })
                    };
                    match self.mode {
                        Mode::Chat => {
                            let history = self.chat_history.push(user_message(self.message()));
                            AppModel { chat_history: history, ..sent }.with_effect(
                                EffectModel::SendChat {
                                    turn: sent.turn,
                                    model: self.chat_model,
                                    messages: history,
                                },
                            )
                        },
                        Mode::Agent => sent.with_effect(
                            EffectModel::Acp(AcpCommandModel::Prompt { text: self.message() }),
                        ),
                    }
                },
            }
        }
    }

    /// The turn in progress is to stop.
    pub open spec fn cancelling(self) -> Step {
        match self.mode {
            Mode::Chat => self.with_effect(EffectModel::CancelChat),
            Mode::Agent => self.with_effect(EffectModel::Acp(AcpCommandModel::Cancel)),
        }
    }

    /// A tool card shows its details, or hides them again.
    pub open spec fn card_flipped(self, i: int) -> AppModel {
        match self.items[i] {
            ItemModel::Tool(card) => AppModel {
                items: self.items.update(
                    i,
                    ItemModel::Tool(ToolCardModel { view: card.view, expanded: !card.expanded }),
                ),
                ..self
            },
            _ => self,
        }
    }

    /// Whether the focus is on a tool card.
    pub open spec fn card_focused(self) -> bool {
        self.focused_tool is Some && 0 <= self.focused_tool->0 < self.items.len()
            && self.items[self.focused_tool->0] is Tool
    }

    /// The focus moves to the next card, or to the one before: around the first,
    /// but not around the last, where a step forward shows the card's details or
    /// hides them. Without a card in focus, it goes to the last.
    pub open spec fn focus_moved(self, forward: bool) -> AppModel {
        let cards = card_positions(self.items);
        if cards.len() == 0 {
            self
        } else if self.card_focused() {
            let at = self.focused_tool->0;
            let before = card_positions(self.items.take(at)).len() as int;
            if forward && before + 1 == cards.len() {
                self.card_flipped(at)
            } else {
                let next = if forward {
                    cards[before + 1]
                } else if before == 0 {
                    cards.last()
                } else {
                    cards[before - 1]
                };
                let shown = if next == at {
                    self.card_flipped(at)
                } else {
                    self
                };
                AppModel { focused_tool: Some(next), follow: false, ..shown }
            }
        } else {
            AppModel { focused_tool: Some(cards.last()), follow: false, ..self }
        }
    }

    /// A key that goes to the input line or to the window.
    pub open spec fn after_input_key(self, key: KeyEvent, outside: Outside) -> Step {
        let KeyEvent { code, ctrl, alt, .. } = key;
        if code == KeyCode::Char('c') && ctrl {
            if self.busy {
                self.cancelling()
            } else {
                self.with_effect(EffectModel::Quit)
            }
        } else if code == KeyCode::Char('d') && ctrl && is_blank(self.input.lines) {
            self.with_effect(EffectModel::Quit)
        } else if code == KeyCode::Esc {
            if self.busy {
                self.cancelling()
            } else {
                AppModel { focused_tool: None, ..self }.quiet()
            }
        } else if (code == KeyCode::Enter && !ctrl && alt) || (code == KeyCode::Char('j') && ctrl
            && !alt) {
            AppModel { input: outside.broken, ..self }.quiet()
        } else if code == KeyCode::Enter && !ctrl && !alt {
            self.submitted(outside.fresh_id)
        } else if code == KeyCode::Char('t') && ctrl && !alt && !self.busy {
            self.toggled().quiet()
        } else if code == KeyCode::Char('o') && ctrl && !alt && !self.busy {
            self.with_model_picker().quiet()
        } else if code == KeyCode::Char('p') && ctrl && !alt && !self.busy {
            self.with_effect(EffectModel::ListSessions)
        } else if code == KeyCode::Char('n') && ctrl && !alt && !self.busy {
            self.new_session(outside.fresh_id).quiet()
        } else if code == KeyCode::Char('?') && is_blank(self.input.lines) {
            AppModel { modal: Some(ModalModel::Help), ..self }.quiet()
        } else if code == KeyCode::PageUp {
            AppModel {
                follow: false,
                scroll: if self.scroll >= 10 {
                    (self.scroll - 10) as u16
                } else {
                    0
                },
                ..self
            }.quiet()
        } else if code == KeyCode::PageDown {
            AppModel {
                scroll: if self.scroll + 10 <= u16::MAX {
                    (self.scroll + 10) as u16
                } else {
                    u16::MAX
                },
                ..self
            }.quiet()
        } else if code == KeyCode::End && is_blank(self.input.lines) {
            AppModel { follow: true, ..self }.quiet()
        } else if code == KeyCode::Tab && !ctrl && !alt {
            self.focus_moved(true).quiet()
        } else if code == KeyCode::BackTab {
            self.focus_moved(false).quiet()
        } else {
            AppModel { input: outside.typed, ..self }.quiet()
        }
    }

    /// A key that the open popup takes; None for one that it leaves.
    pub open spec fn after_completion_key(self, key: KeyEvent, fresh: Seq<char>) -> Option<Step> {
        match self.completion {
            None => None,
            Some(popup) => {
                let chosen = popup.items[popup.selected as int];
                if key.code == KeyCode::Up {
                    Some(
                        AppModel {
                            completion: Some(
                                CompletionModel { selected: row_up(popup.selected), ..popup },
                            ),
                            ..self
                        }.quiet(),
                    )
                } else if key.code == KeyCode::Down {
                    Some(
                        AppModel {
                            completion: Some(
                                CompletionModel {
                                    selected: row_down(popup.selected, popup.items.len()),
                                    ..popup
                                },
                            ),
                            ..self
                        }.quiet(),
                    )
                } else if key.code == KeyCode::Tab {
                    let filled = if chosen.args.len() == 0 {
                        "/"@ + chosen.name
                    } else {
                        "/"@ + chosen.name + " "@
                    };
                    Some(
                        AppModel {
                            input: EditorModel::one_line(filled, filled.len()),
                            ..self
                        }.completion_refreshed().quiet(),
                    )
                } else if key.code == KeyCode::Enter {
                    Some(self.input_cleared().after_command(chosen.name, Seq::empty(), fresh))
                } else if key.code == KeyCode::Esc {
                    Some(AppModel { completion: None, ..self }.quiet())
                } else {
                    None
                }
            },
        }
    }

    pub open spec fn modal_closed(self) -> AppModel {
        AppModel { modal: None, ..self }
    }

    /// The permission prompt is answered and closed.
    pub open spec fn answered(self, request: u64, outcome: PermissionOutcomeModel) -> Step {
        self.modal_closed().with_effect(EffectModel::AnswerPermission { request, outcome })
    }

    /// The option that a key chooses in a permission prompt.
    pub open spec fn chosen_option(
        options: Seq<PermissionOptionModel>,
        selected: nat,
        code: KeyCode,
    ) -> Option<Seq<char>> {
        if code == KeyCode::Enter {
            if selected < options.len() {
                Some(options[selected as int].id)
            } else {
                None
            }
        } else if code == KeyCode::Char('y') {
            picked(options, "allow_once"@)
        } else if code == KeyCode::Char('a') {
            picked(options, "allow_always"@)
        } else if code == KeyCode::Char('n') {
            picked(options, "reject_once"@)
        } else if code == KeyCode::Char('N') {
            picked(options, "reject_always"@)
        } else {
            None
        }
    }

    /// A key while a modal is open.
    pub open spec fn after_modal_key(self, key: KeyEvent) -> Step {
        let up = key.code == KeyCode::Up || key.code == KeyCode::Char('k');
        let down = key.code == KeyCode::Down || key.code == KeyCode::Char('j');
        match self.modal {
            None => self.quiet(),
            Some(ModalModel::Help) => self.modal_closed().quiet(),
            Some(ModalModel::ModelPicker { items, selected }) => if up {
                AppModel {
                    modal: Some(ModalModel::ModelPicker { items, selected: row_up(selected) }),
                    ..self
                }.quiet()
            } else if down {
                AppModel {
                    modal: Some(
                        ModalModel::ModelPicker { items, selected: row_down(selected, items.len()) },
                    ),
                    ..self
                }.quiet()
            } else if key.code == KeyCode::Enter {
                self.modal_closed().with_model(items[selected as int]).quiet()
            } else if key.code == KeyCode::Esc {
                self.modal_closed().quiet()
            } else {
                self.quiet()
            },
            Some(ModalModel::SessionPicker { items, selected }) => if up {
                AppModel {
                    modal: Some(ModalModel::SessionPicker { items, selected: row_up(selected) }),
                    ..self
                }.quiet()
            } else if down {
                AppModel {
                    modal: Some(
                        ModalModel::SessionPicker {
                            items,
                            selected: row_down(selected, items.len()),
                        },
                    ),
                    ..self
                }.quiet()
            } else if key.code == KeyCode::Enter {
                self.modal_closed().with_effect(
                    EffectModel::LoadSession { id: items[selected as int].id },
                )
            } else if key.code == KeyCode::Esc {
                self.modal_closed().quiet()
            } else {
                self.quiet()
            },
            Some(ModalModel::Permission { title, options, selected, request }) => if up {
                AppModel {
                    modal: Some(
                        ModalModel::Permission {
                            title,
                            options,
                            selected: row_up(selected),
                            request,
                        },
                    ),
                    ..self
                }.quiet()
            } else if down {
                AppModel {
                    modal: Some(
                        ModalModel::Permission {
                            title,
                            options,
                            selected: row_down(selected, options.len()),
                            request,
                        },
                    ),
                    ..self
                }.quiet()
            } else if key.code == KeyCode::Esc {
                self.answered(request, PermissionOutcomeModel::Cancelled)
            } else {
                match AppModel::chosen_option(options, selected, key.code) {
                    Some(option_id) => self.answered(
                        request,
                        PermissionOutcomeModel::Selected { option_id },
                    ),
                    None => self.quiet(),
                }
            },
        }
    }

    /// A key: an open modal takes it first, then the popup, then the input.
    pub open spec fn after_key(self, key: KeyEvent, outside: Outside) -> Step {
        if self.modal is Some {
            self.after_modal_key(key)
        } else {
            match self.after_completion_key(key, outside.fresh_id) {
                Some(step) => step,
                None => {
                    let step = self.after_input_key(key, outside);
                    Step { app: step.app.completion_refreshed(), effects: step.effects }
                },
            }
        }
    }

    /// Whether submitting the input begins a session.
    pub open spec fn submit_begins_session(self) -> bool {
        !self.busy && self.message().len() > 0 && (parsed(self.message()) matches Some(
            ParsedModel::Known(c, _),
        ) && c.name == "new"@)
    }

    /// Whether a key that goes to the input line or to the window begins a session.
    pub open spec fn input_key_begins_session(self, key: KeyEvent) -> bool {
        ||| key.code == KeyCode::Char('n') && key.ctrl && !key.alt && !self.busy
        ||| key.code == KeyCode::Enter && !key.ctrl && !key.alt && self.submit_begins_session()
    }

    /// Whether the popup is open and takes the key.
    pub open spec fn popup_takes(self, key: KeyEvent) -> bool {
        self.completion is Some && (key.code == KeyCode::Up || key.code == KeyCode::Down
            || key.code == KeyCode::Tab || key.code == KeyCode::Enter || key.code == KeyCode::Esc)
    }

    /// Whether a key that the popup takes begins a session.
    pub open spec fn popup_begins_session(self, key: KeyEvent) -> bool {
        key.code == KeyCode::Enter && (self.completion matches Some(popup)
            && popup.items[popup.selected as int].name == "new"@)
    }

    /// Whether the key begins a session.
    pub open spec fn key_begins_session(self, key: KeyEvent) -> bool {
        self.modal is None && if self.popup_takes(key) {
            self.popup_begins_session(key)
        } else {
            self.input_key_begins_session(key)
        }
    }

    /// Whether the event begins a session, as Ctrl+N and `/new` do.
    pub open spec fn begins_session(self, event: AppEventModel) -> bool {
        event matches AppEventModel::Term(TermEvent::Key(key)) && key.press
            && self.key_begins_session(key)
    }

    /// What becomes of the input line when a key goes to it or to the window.
    pub open spec fn input_key_edit(self, key: KeyEvent) -> InputEdit {
        let KeyEvent { code, ctrl, alt, .. } = key;
        if code == KeyCode::Char('c') && ctrl {
            InputEdit::Kept
        } else if code == KeyCode::Char('d') && ctrl && is_blank(self.input.lines) {
            InputEdit::Kept
        } else if code == KeyCode::Esc {
            InputEdit::Kept
        } else if (code == KeyCode::Enter && !ctrl && alt) || (code == KeyCode::Char('j') && ctrl
            && !alt) {
            InputEdit::Broken
        } else if code == KeyCode::Enter && !ctrl && !alt {
            if self.busy || self.message().len() == 0 {
                InputEdit::Kept
            } else {
                InputEdit::Replaced
            }
        } else if (code == KeyCode::Char('t') || code == KeyCode::Char('o') || code
            == KeyCode::Char('p') || code == KeyCode::Char('n')) && ctrl && !alt && !self.busy {
            InputEdit::Kept
        } else if code == KeyCode::Char('?') && is_blank(self.input.lines) {
            InputEdit::Kept
        } else if code == KeyCode::PageUp || code == KeyCode::PageDown {
            InputEdit::Kept
        } else if code == KeyCode::End && is_blank(self.input.lines) {
            InputEdit::Kept
        } else if (code == KeyCode::Tab && !ctrl && !alt) || code == KeyCode::BackTab {
            InputEdit::Kept
        } else {
            InputEdit::Typed
        }
    }

    /// What becomes of the input line on a key.
    pub open spec fn key_edit(self, key: KeyEvent) -> InputEdit {
        if self.modal is Some {
            InputEdit::Kept
        } else if self.popup_takes(key) {
            if key.code == KeyCode::Tab || key.code == KeyCode::Enter {
                InputEdit::Replaced
            } else {
                InputEdit::Kept
            }
        } else {
            self.input_key_edit(key)
        }
    }

    /// The state after an event.
    pub open spec fn after(self, event: AppEventModel, outside: Outside) -> Step {
        match event {
            AppEventModel::Term(TermEvent::Key(key)) => if key.press {
                self.after_key(key, outside)
            } else {
                self.quiet()
            },
            AppEventModel::Term(_) => self.quiet(),
            AppEventModel::Chat(e) => self.after_chat(e),
            AppEventModel::Acp(e) => self.after_acp(e),
            AppEventModel::ThemeChanged(theme) => AppModel { theme, ..self }.quiet(),
            AppEventModel::ProxyHealth(ok) => AppModel { proxy_healthy: ok, ..self }.quiet(),
            AppEventModel::Models(models) => AppModel { available_models: models, ..self }.quiet(),
            AppEventModel::Sessions(items) => if items.len() == 0 {
                self.info("no saved sessions yet"@).quiet()
            } else {
                Step {
                    app: AppModel {
                        modal: Some(ModalModel::SessionPicker { items, selected: 0 }),
                        ..self
                    },
                    effects: self.displaced(),
                }
            },
            AppEventModel::SessionLoaded(Ok(session)) => self.with_session(session).quiet(),
            AppEventModel::SessionLoaded(Err(reason)) => self.error(
                "could not load session: "@ + reason,
            ).quiet(),
        }
    }

    /// Whether the counters have room for what the event does to them.
    pub open spec fn has_room_for(self, event: AppEventModel) -> bool {
        match event {
            AppEventModel::Term(_) => self.turn < u64::MAX,
            AppEventModel::Chat(ChatEventModel::Delta { .. })
            | AppEventModel::Acp(AcpEventModel::MessageChunk(_)) => {
                &&& self.next_id < u64::MAX
                &&& self.is_streaming() ==> self.items.last()->revision < u64::MAX
            },
            AppEventModel::SessionLoaded(Ok(session)) => self.next_id + replies(session.messages)
                <= u64::MAX,
            _ => true,
        }
    }

    /// The highlighted row of an open list is one of its rows.
    pub open spec fn valid(self) -> bool {
        &&& self.completion matches Some(popup) ==> popup.valid()
        &&& match self.modal {
            Some(ModalModel::ModelPicker { items, selected }) => selected < items.len(),
            Some(ModalModel::SessionPicker { items, selected }) => selected < items.len(),
            Some(ModalModel::Permission { options, selected, .. }) => selected == 0 || selected
                < options.len(),
            _ => true,
        }
    }

    /// The focus, where there is one, is on a tool card.
    pub open spec fn focus_sound(self) -> bool {
        self.focused_tool is Some ==> self.card_focused()
    }

    /// No two replies share an id, and what is kept of a rendered reply belongs to
    /// the text that had that revision.
    pub open spec fn cache_sound(self) -> bool {
        &&& forall|i: int|
            0 <= i < self.items.len() && #[trigger] self.items[i] is Assistant
                ==> self.items[i]->Assistant_id <= self.next_id
        &&& forall|i: int, j: int|
            0 <= i < j < self.items.len() && #[trigger] self.items[i] is Assistant
                && #[trigger] self.items[j] is Assistant ==> self.items[i]->Assistant_id
                != self.items[j]->Assistant_id
        &&& forall|i: int|
            0 <= i < self.items.len() && #[trigger] self.items[i] is Assistant
                ==> entry_sound(self.markdown, self.items[i])
        &&& forall|id: u64| #[trigger] self.markdown.contains_key(id) ==> id <= self.next_id
    }

    /// What every event keeps.
    pub open spec fn sound(self) -> bool {
        self.focus_sound() && self.cache_sound()
    }
}

} // verus!
