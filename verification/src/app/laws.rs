//! What holds of the reducer as a whole.

use crate::app::model::{
    answers, card_positions, concatenated, entry_sound, last_card, picked, questions, replayed,
    replies, AppModel, EffectModel, ItemModel, ModalModel, Outside, ToolCardModel,
};
use crate::app::Mode;
use crate::chat::types::{assistant_message, user_message, ChatMessageModel};
use crate::commands::{completion_is_valid, is_command, parsed, ParsedModel};
use crate::editor::{is_blank, is_text, EditorModel};
use crate::event::{
    AcpCommandModel, AcpEventModel, AppEventModel, ChatEventModel, KeyCode, KeyEvent,
    PermissionOptionModel, PermissionOutcomeModel, TermEvent,
};
use crate::session::{recorded, SessionModel};
use crate::text::trimmed;
use crate::theme::Theme;
use vstd::multiset::Multiset;
use vstd::prelude::*;

verus! {

/// The model picker opens on a row of its list.
proof fn lemma_current_row(app: AppModel)
    ensures
        app.available_models.len() > 0 ==> app.current_row() < app.available_models.len(),
{
    if app.available_models.contains(app.model_name()) {
        app.available_models.index_of_first_ensures(app.model_name());
    }
}

proof fn lemma_command_valid(app: AppModel, name: Seq<char>, args: Seq<char>, fresh: Seq<char>)
    requires
        app.valid(),
    ensures
        app.after_command(name, args, fresh).app.valid(),
{
    lemma_current_row(app);
}

proof fn lemma_submitted_valid(app: AppModel, fresh: Seq<char>)
    requires
        app.valid(),
    ensures
        app.submitted(fresh).app.valid(),
{
    if let Some(ParsedModel::Known(c, args)) = parsed(app.message()) {
        lemma_command_valid(app.input_cleared(), c.name, args, fresh);
    }
}

proof fn lemma_input_key_valid(app: AppModel, key: KeyEvent, outside: Outside)
    requires
        app.valid(),
    ensures
        app.after_input_key(key, outside).app.valid(),
{
    lemma_current_row(app);
    lemma_submitted_valid(app, outside.fresh_id);
}

proof fn lemma_completion_key_valid(app: AppModel, key: KeyEvent, fresh: Seq<char>)
    requires
        app.valid(),
    ensures
        app.after_completion_key(key, fresh) matches Some(step) ==> step.app.valid(),
{
    if app.completion is Some {
        let popup = app.completion->0;
        let chosen = popup.items[popup.selected as int];
        completion_is_valid("/"@ + chosen.name, app.completion);
        completion_is_valid("/"@ + chosen.name + " "@, app.completion);
        lemma_command_valid(app.input_cleared(), chosen.name, Seq::empty(), fresh);
    }
}

proof fn lemma_modal_key_valid(app: AppModel, key: KeyEvent)
    requires
        app.valid(),
    ensures
        app.after_modal_key(key).app.valid(),
{
}

proof fn lemma_key_valid(app: AppModel, key: KeyEvent, outside: Outside)
    requires
        app.valid(),
    ensures
        app.after_key(key, outside).app.valid(),
{
    lemma_modal_key_valid(app, key);
    lemma_completion_key_valid(app, key, outside.fresh_id);
    lemma_input_key_valid(app, key, outside);
    let typed = app.after_input_key(key, outside).app;
    completion_is_valid(typed.input.lines[0], typed.completion);
}

proof fn lemma_chat_valid(app: AppModel, event: ChatEventModel)
    requires
        app.valid(),
    ensures
        app.after_chat(event).app.valid(),
{
}

proof fn lemma_acp_valid(app: AppModel, event: AcpEventModel)
    requires
        app.valid(),
    ensures
        app.after_acp(event).app.valid(),
{
}

/// The highlight of the popup, of a picker and of a permission prompt is always
/// one of the rows that are shown.
pub proof fn highlights_stay_in_list(app: AppModel, event: AppEventModel, outside: Outside)
    requires
        app.valid(),
    ensures
        app.after(event, outside).app.valid(),
{
    match event {
        AppEventModel::Term(TermEvent::Key(key)) => {
            assert(app.after_key(key, outside).app.valid()) by {
                lemma_key_valid(app, key, outside);
            }
        },
        AppEventModel::Chat(e) => {
            lemma_chat_valid(app, e);
        },
        AppEventModel::Acp(e) => {
            lemma_acp_valid(app, e);
        },
        _ => {},
    }
}

/// Text that arrives for a turn other than the current one changes nothing.
pub proof fn stale_turns_are_ignored(app: AppModel, event: ChatEventModel, outside: Outside)
    requires
        match event {
            ChatEventModel::Delta { turn, .. } => turn != app.turn,
            ChatEventModel::Done { turn } => turn != app.turn,
            ChatEventModel::Error { turn, .. } => turn != app.turn,
        },
    ensures
        app.after(AppEventModel::Chat(event), outside) == app.quiet(),
{
}

/// While a turn is running, submitting does nothing.
pub proof fn one_turn_at_a_time(app: AppModel, fresh: Seq<char>)
    requires
        app.busy,
    ensures
        app.submitted(fresh) == app.quiet(),
{
}

/// Whether the effect sends text to the model or to the agent.
pub open spec fn sends_text(effect: EffectModel) -> bool {
    effect is SendChat || effect matches EffectModel::Acp(AcpCommandModel::Prompt { .. })
}

/// Input that reads as a slash command is never sent as a message, and never
/// joins the conversation.
pub proof fn commands_are_not_sent(app: AppModel, fresh: Seq<char>)
    requires
        is_command(app.message()),
    ensures
        forall|i: int|
            0 <= i < app.submitted(fresh).effects.len() ==> !sends_text(
                #[trigger] app.submitted(fresh).effects[i],
            ),
        app.submitted(fresh).app.chat_history == app.chat_history || app.submitted(
            fresh,
        ).app.chat_history == Seq::<ChatMessageModel>::empty(),
        app.submitted(fresh).app.turn == app.turn,
{
}

/// The command that is highlighted in the popup runs, and nothing is sent.
pub proof fn popup_commands_are_not_sent(app: AppModel, key: KeyEvent, outside: Outside)
    requires
        app.modal is None,
        app.completion is Some,
        key.code == KeyCode::Enter,
    ensures
        app.after_key(key, outside).app.completion is None,
        app.after_key(key, outside).app.chat_history == app.chat_history || app.after_key(
            key,
            outside,
        ).app.chat_history == Seq::<ChatMessageModel>::empty(),
        forall|i: int|
            0 <= i < app.after_key(key, outside).effects.len() ==> !sends_text(
                #[trigger] app.after_key(key, outside).effects[i],
            ),
{
}

/// The mode is the same after two toggles, and only the transcript tells.
pub proof fn toggling_twice_restores_the_mode(app: AppModel)
    ensures
        app.toggled().mode != app.mode,
        app.toggled().toggled() == (AppModel { items: app.toggled().toggled().items, ..app }),
        app.toggled().toggled().items.take(app.items.len() as int) == app.items,
{
    assert(app.toggled().toggled().items.take(app.items.len() as int) =~= app.items);
}

/// A model is chosen for the current mode alone.
pub proof fn a_model_belongs_to_its_mode(app: AppModel, model: Seq<char>)
    ensures
        app.with_model(model).model_name() == model,
        app.mode == Mode::Chat ==> app.with_model(model).agent_model == app.agent_model,
        app.mode == Mode::Agent ==> app.with_model(model).chat_model == app.chat_model,
{
}

/// The deltas of a turn make one reply.
proof fn lemma_streamed(app: AppModel, texts: Seq<Seq<char>>)
    requires
        !app.is_streaming(),
    ensures
        app.streamed(texts).chat_history == app.chat_history,
        app.streamed(texts).turn == app.turn,
        texts.len() == 0 ==> app.streamed(texts) == app,
        texts.len() > 0 ==> app.streamed(texts).is_streaming() && app.streamed(
            texts,
        ).streamed_text() == concatenated(texts),
    decreases texts.len(),
{
    if texts.len() > 0 {
        lemma_streamed(app, texts.drop_last());
        if texts.len() == 1 {
            assert(concatenated(texts.drop_last()) + texts.last() =~= texts.last());
        }
    }
}

/// Whether submitting sends the input to the chat model.
pub open spec fn sends_chat(app: AppModel) -> bool {
    !app.busy && app.mode == Mode::Chat && app.message().len() > 0 && !is_command(app.message())
}

/// A turn that completes adds the message and the whole reply, in the order in
/// which its parts came, and asks for the session to be saved. The reply no longer
/// streams.
pub proof fn a_turn_adds_message_and_reply(app: AppModel, fresh: Seq<char>, texts: Seq<Seq<char>>)
    requires
        sends_chat(app),
        app.turn < u64::MAX,
        texts.len() > 0,
    ensures
        ({
            let done = app.submitted(fresh).app.streamed(texts).after_chat(
                ChatEventModel::Done { turn: (app.turn + 1) as u64 },
            );
            &&& done.app.chat_history == app.chat_history.push(user_message(app.message())).push(
                assistant_message(concatenated(texts)),
            )
            &&& done.app.items.len() > 0
            &&& done.app.items.last() matches ItemModel::Assistant { md, streaming, .. } && md
                == concatenated(texts) && !streaming
            &&& !done.app.busy
            &&& done.effects == seq![EffectModel::SaveSession]
        }),
{
    lemma_streamed(app.submitted(fresh).app, texts);
}

/// A turn that fails leaves the conversation as it was before the message, and the
/// transcript ends with the error.
pub proof fn a_failed_turn_leaves_the_history(
    app: AppModel,
    fresh: Seq<char>,
    texts: Seq<Seq<char>>,
    message: Seq<char>,
)
    requires
        sends_chat(app),
        app.turn < u64::MAX,
    ensures
        ({
            let failed = app.submitted(fresh).app.streamed(texts).after_chat(
                ChatEventModel::Error { turn: (app.turn + 1) as u64, message },
            );
            &&& failed.app.chat_history == app.chat_history
            &&& !failed.app.busy
            &&& failed.app.items.len() > 0
            &&& failed.app.items.last() == ItemModel::Error(message)
            &&& failed.effects == Seq::<EffectModel>::empty()
        }),
{
    lemma_streamed(app.submitted(fresh).app, texts);
    assert(app.chat_history.push(user_message(app.message())).drop_last() =~= app.chat_history);
}

/// What is sent to the model is the conversation so far and the new message.
pub proof fn a_message_is_sent_with_its_history(app: AppModel, fresh: Seq<char>)
    requires
        sends_chat(app),
        app.turn < u64::MAX,
    ensures
        app.submitted(fresh).effects == seq![
            EffectModel::SendChat {
                turn: (app.turn + 1) as u64,
                model: app.chat_model,
                messages: app.chat_history.push(user_message(app.message())),
            },
        ],
        app.submitted(fresh).app.busy,
{
}

/// Every question of the agent is answered once: it is on screen until an answer
/// to it is asked for, and an answer answers a question that was on screen.
pub proof fn every_question_gets_one_answer(app: AppModel, event: AppEventModel, outside: Outside)
    ensures
        app.pending().add(questions(event)) =~= answers(app.after(event, outside).effects).add(
            app.after(event, outside).app.pending(),
        ),
{
    lemma_no_answers();
    match event {
        AppEventModel::Term(TermEvent::Key(key)) => {
            if key.press {
                if app.modal is Some {
                    lemma_modal_key_answers(app, key);
                } else {
                    lemma_typed_key_answers(app, key, outside);
                }
            }
        },
        AppEventModel::Acp(e) => {
            lemma_acp_answers(app, e);
        },
        AppEventModel::Sessions(_) => {
            lemma_displaced_answers(app);
        },
        _ => {},
    }
}

/// Effects that hold no answer answer nothing.
proof fn lemma_no_answers()
    ensures
        answers(Seq::empty()) == Multiset::<u64>::empty(),
        forall|e: EffectModel|
            e !is AnswerPermission ==> #[trigger] answers(seq![e]) == Multiset::<u64>::empty(),
        forall|request: u64, outcome: PermissionOutcomeModel|
            #[trigger] answers(seq![EffectModel::AnswerPermission { request, outcome }])
                == Multiset::singleton(request),
{
    reveal_with_fuel(answers, 2);
    assert forall|e: EffectModel| e !is AnswerPermission implies #[trigger] answers(seq![e])
        == Multiset::<u64>::empty() by {
        assert(seq![e].drop_last() =~= Seq::empty());
        assert(seq![e].last() == e);
    }
    assert forall|request: u64, outcome: PermissionOutcomeModel|
        #[trigger] answers(seq![EffectModel::AnswerPermission { request, outcome }])
            == Multiset::singleton(request) by {
        let e = EffectModel::AnswerPermission { request, outcome };
        assert(seq![e].drop_last() =~= Seq::empty());
        assert(seq![e].last() == e);
        assert(Multiset::<u64>::empty().insert(request) =~= Multiset::singleton(request));
    }
}

proof fn lemma_displaced_answers(app: AppModel)
    ensures
        answers(app.displaced()) == app.pending(),
{
    lemma_no_answers();
}

proof fn lemma_acp_answers(app: AppModel, event: AcpEventModel)
    ensures
        app.pending().add(questions(AppEventModel::Acp(event))) =~= answers(
            app.after_acp(event).effects,
        ).add(app.after_acp(event).app.pending()),
{
    lemma_no_answers();
    lemma_displaced_answers(app);
}

proof fn lemma_modal_key_answers(app: AppModel, key: KeyEvent)
    requires
        app.modal is Some,
    ensures
        app.pending() =~= answers(app.after_modal_key(key).effects).add(
            app.after_modal_key(key).app.pending(),
        ),
{
    lemma_no_answers();
}

proof fn lemma_command_answers(app: AppModel, name: Seq<char>, args: Seq<char>, fresh: Seq<char>)
    requires
        app.modal is None,
    ensures
        answers(app.after_command(name, args, fresh).effects) =~= Multiset::empty(),
        app.after_command(name, args, fresh).app.pending() =~= Multiset::empty(),
{
    lemma_no_answers();
}

proof fn lemma_typed_key_answers(app: AppModel, key: KeyEvent, outside: Outside)
    requires
        app.modal is None,
    ensures
        answers(app.after_key(key, outside).effects) =~= Multiset::empty(),
        app.after_key(key, outside).app.pending() =~= Multiset::empty(),
{
    lemma_no_answers();
    if let Some(popup) = app.completion {
        let chosen = popup.items[popup.selected as int];
        lemma_command_answers(
            app.input_cleared(),
            chosen.name,
            Seq::empty(),
            outside.fresh_id,
        );
    }
    if let Some(ParsedModel::Known(c, args)) = parsed(app.message()) {
        lemma_command_answers(app.input_cleared(), c.name, args, outside.fresh_id);
    }
}

/// An item that takes the place of another without disturbing the focus or the
/// rendered replies.
spec fn interchangeable(a: ItemModel, b: ItemModel) -> bool {
    &&& a is Tool <==> b is Tool
    &&& a is Assistant <==> b is Assistant
    &&& a is Assistant ==> a->Assistant_id == b->Assistant_id && a->Assistant_md
        == b->Assistant_md && a->revision == b->revision
}

proof fn lemma_update_sound(app: AppModel, i: int, item: ItemModel)
    requires
        app.sound(),
        0 <= i < app.items.len(),
        interchangeable(app.items[i], item),
    ensures
        (AppModel { items: app.items.update(i, item), ..app }).sound(),
{
    let after = AppModel { items: app.items.update(i, item), ..app };
    assert forall|j: int|
        0 <= j < after.items.len() && #[trigger] after.items[j] is Assistant implies entry_sound(
        after.markdown,
        after.items[j],
    ) by {
        assert(app.items[j] is Assistant);
        assert(entry_sound(app.markdown, app.items[j]));
    }
    assert forall|j: int, k: int|
        0 <= j < k < after.items.len() && #[trigger] after.items[j] is Assistant
            && #[trigger] after.items[k] is Assistant implies after.items[j]->Assistant_id
        != after.items[k]->Assistant_id by {
        assert(app.items[j] is Assistant && app.items[k] is Assistant);
    }
    assert forall|j: int|
        0 <= j < after.items.len() && #[trigger] after.items[j] is Assistant implies after.items[j]->Assistant_id
        <= after.next_id by {
        assert(app.items[j] is Assistant);
    }
}

proof fn lemma_push_sound(app: AppModel, item: ItemModel)
    requires
        app.sound(),
        item !is Assistant,
    ensures
        app.with_item(item).sound(),
{
    let after = app.with_item(item);
    assert forall|j: int|
        0 <= j < after.items.len() && #[trigger] after.items[j] is Assistant implies entry_sound(
        after.markdown,
        after.items[j],
    ) by {
        assert(entry_sound(app.markdown, app.items[j]));
    }
}

proof fn lemma_settled_sound(app: AppModel)
    requires
        app.sound(),
    ensures
        app.settled().sound(),
{
    if app.items.len() > 0 && app.items.last() is Assistant {
        lemma_update_sound(
            app,
            app.items.len() - 1,
            app.settled().items.last(),
        );
    }
}

proof fn lemma_delta_sound(app: AppModel, text: Seq<char>)
    requires
        app.sound(),
        app.next_id < u64::MAX,
        app.is_streaming() ==> app.items.last()->revision < u64::MAX,
    ensures
        app.with_delta(text).sound(),
{
    let after = app.with_delta(text);
    let n = app.items.len() as int;
    assert forall|j: int|
        0 <= j < after.items.len() && #[trigger] after.items[j] is Assistant implies entry_sound(
        after.markdown,
        after.items[j],
    ) && after.items[j]->Assistant_id <= after.next_id by {
        if j < n {
            assert(app.items[j] is Assistant);
            assert(entry_sound(app.markdown, app.items[j]));
        }
    }
    assert forall|j: int, k: int|
        0 <= j < k < after.items.len() && #[trigger] after.items[j] is Assistant
            && #[trigger] after.items[k] is Assistant implies after.items[j]->Assistant_id
        != after.items[k]->Assistant_id by {
        assert(app.items[j] is Assistant);
        if k < n {
            assert(app.items[k] is Assistant);
        }
    }
}

proof fn lemma_last_card(items: Seq<ItemModel>, id: Seq<char>)
    ensures
        last_card(items, id) matches Some(i) ==> 0 <= i < items.len() && items[i] is Tool,
    decreases items.len(),
{
    if items.len() > 0 {
        lemma_last_card(items.drop_last(), id);
    }
}

proof fn lemma_acp_sound(app: AppModel, event: AcpEventModel)
    requires
        app.sound(),
        app.has_room_for(AppEventModel::Acp(event)),
    ensures
        app.after_acp(event).app.sound(),
{
    let n = app.items.len();
    lemma_settled_sound(app);
    match event {
        AcpEventModel::SessionReady { session_id } => {
            lemma_push_sound(
                AppModel { agent_session: Some(session_id), ..app },
                ItemModel::Info("agent session ready"@),
            );
        },
        AcpEventModel::MessageChunk(text) => {
            if n > 0 && app.items.last() is Thought {
                lemma_update_sound(app, n - 1, app.thought_folded().items.last());
            }
            lemma_delta_sound(app.thought_folded(), text);
        },
        AcpEventModel::ThoughtChunk(text) => {
            if n > 0 && (app.items.last() matches ItemModel::Thought { collapsed, .. }
                && !collapsed) {
                lemma_update_sound(app, n - 1, app.with_thought(text).items.last());
            } else {
                lemma_push_sound(
                    app.settled(),
                    ItemModel::Thought { text, collapsed: false },
                );
            }
        },
        AcpEventModel::ToolCall(view) => {
            lemma_push_sound(
                app.settled(),
                ItemModel::Tool(ToolCardModel { view, expanded: false }),
            );
        },
        AcpEventModel::ToolCallUpdate(update) => {
            lemma_last_card(app.items, update.id);
            if let Some(i) = last_card(app.items, update.id) {
                lemma_update_sound(app, i, app.with_update(update).items[i]);
            }
        },
        AcpEventModel::TurnEnded { stop_reason } => {
            let done = AppModel { busy: false, plan: Seq::empty(), ..app.settled() };
            assert(done.sound());
            lemma_push_sound(done, ItemModel::Info("turn ended: "@ + stop_reason));
        },
        AcpEventModel::Error(message) => {
            let done = AppModel { busy: false, ..app.settled() };
            assert(done.sound());
            lemma_push_sound(done, ItemModel::Error(message));
        },
        AcpEventModel::AuthRequired(hint) => {
            let done = AppModel { busy: false, ..app };
            assert(done.sound());
            lemma_push_sound(done, ItemModel::Error("goose provider auth problem: "@ + hint));
        },
        AcpEventModel::Exited(reason) => {
            let done = AppModel { busy: false, agent_session: None, ..app };
            assert(done.sound());
            lemma_push_sound(
                done,
                ItemModel::Error("agent exited: "@ + reason + " (Ctrl+T twice respawns)"@),
            );
        },
        _ => {},
    }
}

proof fn lemma_chat_sound(app: AppModel, event: ChatEventModel)
    requires
        app.sound(),
        app.has_room_for(AppEventModel::Chat(event)),
    ensures
        app.after_chat(event).app.sound(),
{
    lemma_settled_sound(app);
    match event {
        ChatEventModel::Delta { text, .. } => {
            lemma_delta_sound(app, text);
        },
        ChatEventModel::Done { .. } => {},
        ChatEventModel::Error { message, .. } => {
            let done = app.settled();
            lemma_push_sound(done, ItemModel::Error(message));
        },
    }
}

/// The positions of the cards are those of the items that are cards, in order.
pub proof fn lemma_card_positions(items: Seq<ItemModel>)
    ensures
        forall|k: int|
            #![trigger card_positions(items)[k]]
            0 <= k < card_positions(items).len() ==> 0 <= card_positions(items)[k] < items.len()
                && items[card_positions(items)[k]] is Tool,
    decreases items.len(),
{
    if items.len() > 0 {
        lemma_card_positions(items.drop_last());
        let earlier = card_positions(items.drop_last());
        assert forall|k: int| #![trigger card_positions(items)[k]]
            0 <= k < card_positions(items).len() implies 0 <= card_positions(items)[k]
            < items.len() && items[card_positions(items)[k]] is Tool by {
            if k < earlier.len() {
                assert(card_positions(items)[k] == earlier[k]);
            }
        }
    }
}

/// A card that follows another is counted after it.
proof fn lemma_cards_before(items: Seq<ItemModel>, at: int)
    requires
        0 <= at < items.len(),
        items[at] is Tool,
    ensures
        card_positions(items.take(at)).len() < card_positions(items).len(),
    decreases items.len(),
{
    if at < items.len() - 1 {
        lemma_cards_before(items.drop_last(), at);
        assert(items.drop_last().take(at) =~= items.take(at));
    } else {
        assert(items.take(at) =~= items.drop_last());
    }
}

proof fn lemma_focus_sound(app: AppModel, forward: bool)
    requires
        app.sound(),
    ensures
        app.focus_moved(forward).sound(),
{
    lemma_card_positions(app.items);
    if app.card_focused() {
        let at = app.focused_tool->0;
        lemma_cards_before(app.items, at);
        lemma_update_sound(app, at, app.card_flipped(at).items[at]);
    }
}

proof fn lemma_empty_sound(app: AppModel, id: Seq<char>)
    ensures
        app.emptied(id).sound(),
        app.new_session(id).sound(),
{
    lemma_push_sound(app.emptied(id), ItemModel::Info("new session"@));
}

/// The replies of a saved conversation are numbered upwards.
proof fn lemma_replayed(messages: Seq<ChatMessageModel>, next_id: u64)
    requires
        next_id + replies(messages) <= u64::MAX,
    ensures
        replayed(messages, next_id).len() == messages.len(),
        forall|i: int|
            0 <= i < messages.len() && #[trigger] replayed(messages, next_id)[i] is Assistant
                ==> next_id < replayed(messages, next_id)[i]->Assistant_id <= next_id + replies(
                messages,
            ),
        forall|i: int, j: int|
            0 <= i < j < messages.len() && #[trigger] replayed(messages, next_id)[i] is Assistant
                && #[trigger] replayed(messages, next_id)[j] is Assistant ==> replayed(
                messages,
                next_id,
            )[i]->Assistant_id != replayed(messages, next_id)[j]->Assistant_id,
    decreases messages.len(),
{
    if messages.len() > 0 {
        lemma_replayed(messages.drop_last(), next_id);
    }
}

proof fn lemma_session_sound(app: AppModel, session: SessionModel)
    requires
        app.next_id + replies(session.messages) <= u64::MAX,
    ensures
        app.with_session(session).sound(),
{
    lemma_replayed(session.messages, app.next_id);
}

proof fn lemma_model_sound(app: AppModel, model: Seq<char>)
    requires
        app.sound(),
    ensures
        app.with_model(model).sound(),
{
    let set = match app.mode {
        Mode::Chat => AppModel { chat_model: model, ..app },
        Mode::Agent => AppModel { agent_model: model, ..app },
    };
    assert(set.sound());
    let plain = ItemModel::Info("model: "@ + model);
    let odd = ItemModel::Info("model: "@ + model + " (not in this account's list)"@);
    let later = ItemModel::Info("agent model applies to the next session"@);
    lemma_push_sound(set, plain);
    lemma_push_sound(set, odd);
    lemma_push_sound(set.with_item(plain), later);
    lemma_push_sound(set.with_item(odd), later);
}

proof fn lemma_command_sound(app: AppModel, name: Seq<char>, args: Seq<char>, fresh: Seq<char>)
    requires
        app.sound(),
    ensures
        app.after_command(name, args, fresh).app.sound(),
{
    lemma_empty_sound(app, fresh);
    lemma_model_sound(app, args);
    lemma_push_sound(app, ItemModel::Info("model list not loaded yet"@));
    lemma_push_sound(app, ItemModel::Info("already in "@ + name + " mode"@));
    let other = AppModel {
        mode: if name == "chat"@ {
            Mode::Chat
        } else {
            Mode::Agent
        },
        ..app
    };
    assert(other.sound());
    lemma_push_sound(other, ItemModel::Info(name + " mode"@));
    lemma_push_sound(app, ItemModel::Error("unknown command /"@ + name));
}

proof fn lemma_submitted_sound(app: AppModel, fresh: Seq<char>)
    requires
        app.sound(),
    ensures
        app.submitted(fresh).app.sound(),
{
    let clear = app.input_cleared();
    assert(clear.sound());
    match parsed(app.message()) {
        Some(ParsedModel::Known(c, args)) => {
            lemma_command_sound(clear, c.name, args, fresh);
        },
        Some(ParsedModel::Unknown(name)) => {
            lemma_push_sound(
                clear,
                ItemModel::Error("unknown command /"@ + name + " — try /help"@),
            );
        },
        None => {
            lemma_push_sound(clear, ItemModel::User { text: app.message() });
        },
    }
}

proof fn lemma_input_key_sound(app: AppModel, key: KeyEvent, outside: Outside)
    requires
        app.sound(),
    ensures
        app.after_input_key(key, outside).app.sound(),
{
    lemma_submitted_sound(app, outside.fresh_id);
    lemma_empty_sound(app, outside.fresh_id);
    lemma_focus_sound(app, true);
    lemma_focus_sound(app, false);
    lemma_push_sound(app, ItemModel::Info("model list not loaded yet"@));
    let agent = AppModel { mode: Mode::Agent, ..app };
    let chat = AppModel { mode: Mode::Chat, ..app };
    assert(agent.sound() && chat.sound());
    lemma_push_sound(agent, ItemModel::Info("agent mode"@));
    lemma_push_sound(chat, ItemModel::Info("chat mode"@));
}

proof fn lemma_modal_key_sound(app: AppModel, key: KeyEvent)
    requires
        app.sound(),
    ensures
        app.after_modal_key(key).app.sound(),
{
    if let Some(ModalModel::ModelPicker { items, selected }) = app.modal {
        assert(app.modal_closed().sound());
        lemma_model_sound(app.modal_closed(), items[selected as int]);
    }
}

proof fn lemma_completion_key_sound(app: AppModel, key: KeyEvent, fresh: Seq<char>)
    requires
        app.sound(),
    ensures
        app.after_completion_key(key, fresh) matches Some(step) ==> step.app.sound(),
{
    if let Some(popup) = app.completion {
        let chosen = popup.items[popup.selected as int];
        assert(app.input_cleared().sound());
        lemma_command_sound(app.input_cleared(), chosen.name, Seq::empty(), fresh);
    }
}

proof fn lemma_key_sound(app: AppModel, key: KeyEvent, outside: Outside)
    requires
        app.sound(),
    ensures
        app.after_key(key, outside).app.sound(),
{
    lemma_modal_key_sound(app, key);
    lemma_completion_key_sound(app, key, outside.fresh_id);
    lemma_input_key_sound(app, key, outside);
}

/// Whatever happens, the focus is on a tool card or nowhere, no two replies share
/// an id, and a rendered reply that is kept belongs to the text of its revision.
pub proof fn focus_and_renders_stay_sound(app: AppModel, event: AppEventModel, outside: Outside)
    requires
        app.sound(),
        app.has_room_for(event),
    ensures
        app.after(event, outside).app.sound(),
{
    match event {
        AppEventModel::Term(TermEvent::Key(key)) => {
            lemma_key_sound(app, key, outside);
        },
        AppEventModel::Chat(e) => {
            lemma_chat_sound(app, e);
        },
        AppEventModel::Acp(e) => {
            lemma_acp_sound(app, e);
        },
        AppEventModel::Sessions(_) => {
            lemma_push_sound(app, ItemModel::Info("no saved sessions yet"@));
        },
        AppEventModel::SessionLoaded(Ok(session)) => {
            lemma_session_sound(app, session);
        },
        AppEventModel::SessionLoaded(Err(reason)) => {
            lemma_push_sound(app, ItemModel::Error("could not load session: "@ + reason));
        },
        _ => {},
    }
}

/// The state at startup is sound.
pub proof fn startup_is_sound(
    chat_model: Seq<char>,
    agent_model: Seq<char>,
    theme: Theme,
    session_id: Seq<char>,
)
    ensures
        AppModel::initial(chat_model, agent_model, theme, session_id).sound(),
        AppModel::initial(chat_model, agent_model, theme, session_id).valid(),
{
}

/// A conversation that was saved is taken up again as it was: the same messages,
/// the same model and the same session, in chat mode.
pub proof fn a_saved_conversation_is_resumed(
    saved: AppModel,
    app: AppModel,
    seconds: u64,
    outside: Outside,
)
    requires
        saved.chat_history.len() > 0,
    ensures
        recorded(
            saved.session_id,
            saved.chat_model,
            saved.chat_history,
            seconds,
        ) matches Some(record) && {
            let resumed = app.after(AppEventModel::SessionLoaded(Ok(record)), outside).app;
            &&& resumed.chat_history == saved.chat_history
            &&& resumed.chat_model == saved.chat_model
            &&& resumed.session_id == saved.session_id
            &&& resumed.mode == Mode::Chat
            &&& resumed.items == replayed(saved.chat_history, app.next_id)
        },
{
}

/// The last card has every other card before it.
proof fn lemma_last_position(items: Seq<ItemModel>)
    requires
        card_positions(items).len() > 0,
    ensures
        card_positions(items.take(card_positions(items).last())).len() + 1 == card_positions(
            items,
        ).len(),
    decreases items.len(),
{
    let shorter = items.drop_last();
    if items.last() is Tool {
        assert(items.take(items.len() - 1) =~= shorter);
    } else {
        lemma_last_position(shorter);
        lemma_card_positions(shorter);
        let at = card_positions(shorter)[card_positions(shorter).len() - 1];
        assert(shorter.take(at) =~= items.take(at));
    }
}

/// Tab puts the focus on the newest tool card, and once more shows its details
/// or hides them again; nothing else of the transcript changes.
pub proof fn tab_finds_the_card_and_unfolds_it(app: AppModel, key: KeyEvent, outside: Outside)
    requires
        app.modal is None,
        app.completion is None,
        app.completion_refreshed() == app,
        !app.card_focused(),
        card_positions(app.items).len() > 0,
        key.code == KeyCode::Tab && !key.ctrl && !key.alt,
    ensures
        ({
            let card = card_positions(app.items).last();
            let once = app.after_key(key, outside).app;
            let twice = once.after_key(key, outside).app;
            &&& app.items[card] is Tool
            &&& once == (AppModel { focused_tool: Some(card), follow: false, ..app })
            &&& twice == once.card_flipped(card)
        }),
{
    lemma_card_positions(app.items);
    lemma_last_position(app.items);
    let cards = card_positions(app.items);
    assert(app.items[cards[cards.len() - 1]] is Tool);
}

/// Escape closes whatever box is open, and a question that was in it is cancelled.
pub proof fn escape_closes_the_box(app: AppModel, key: KeyEvent, outside: Outside)
    requires
        app.modal is Some,
        key.code == KeyCode::Esc,
    ensures
        app.after_key(key, outside).app == app.modal_closed(),
        app.after_key(key, outside).effects == app.displaced(),
{
}

/// Without a box or a popup, escape stops the turn that is in progress, in the
/// way of its mode; the conversation stays as it is.
pub proof fn escape_stops_the_turn(app: AppModel, key: KeyEvent, outside: Outside)
    requires
        app.modal is None,
        app.completion is None,
        app.busy,
        key.code == KeyCode::Esc,
    ensures
        app.after_key(key, outside).effects == seq![
            match app.mode {
                Mode::Chat => EffectModel::CancelChat,
                Mode::Agent => EffectModel::Acp(AcpCommandModel::Cancel),
            },
        ],
        app.after_key(key, outside).app == app.completion_refreshed(),
{
}

/// The kind of option that a letter stands for in a permission prompt.
pub open spec fn kind_of_letter(c: char) -> Option<Seq<char>> {
    if c == 'y' {
        Some("allow_once"@)
    } else if c == 'a' {
        Some("allow_always"@)
    } else if c == 'n' {
        Some("reject_once"@)
    } else if c == 'N' {
        Some("reject_always"@)
    } else {
        None
    }
}

/// In a permission prompt a letter answers with the first option of its kind and
/// closes the prompt; where no option is of that kind, nothing happens.
pub proof fn letters_answer_a_question(
    app: AppModel,
    title: Seq<char>,
    options: Seq<PermissionOptionModel>,
    selected: nat,
    request: u64,
    key: KeyEvent,
    letter: char,
    outside: Outside,
)
    requires
        app.modal == Some(ModalModel::Permission { title, options, selected, request }),
        key.code == KeyCode::Char(letter),
        kind_of_letter(letter) is Some,
    ensures
        app.after_key(key, outside) == match picked(options, kind_of_letter(letter)->0) {
            Some(option_id) => app.answered(
                request,
                PermissionOutcomeModel::Selected { option_id },
            ),
            None => app.quiet(),
        },
{
}

/// Parts of the agent's message that come in a row make one reply: they go to the
/// reply that was coming in, or begin a new one behind a thought that is folded
/// away; the revision counts them. Nothing else changes, and nothing is asked of the
/// main loop.
pub proof fn parts_in_a_row_make_one_reply(app: AppModel, texts: Seq<Seq<char>>)
    requires
        texts.len() > 0,
        app.next_id < u64::MAX,
        app.is_streaming() ==> app.items.last()->revision + texts.len() <= u64::MAX,
        texts.len() <= u64::MAX,
    ensures
        app.spoken(texts).effects == Seq::<EffectModel>::empty(),
        app.spoken(texts).app == if app.is_streaming() {
            AppModel {
                items: app.items.update(
                    app.items.len() - 1,
                    ItemModel::Assistant {
                        id: app.items.last()->Assistant_id,
                        md: app.items.last()->Assistant_md + concatenated(texts),
                        revision: (app.items.last()->revision + texts.len()) as u64,
                        streaming: true,
                    },
                ),
                ..app
            }
        } else {
            AppModel {
                items: app.thought_folded().items.push(
                    ItemModel::Assistant {
                        id: (app.next_id + 1) as u64,
                        md: concatenated(texts),
                        revision: texts.len() as u64,
                        streaming: true,
                    },
                ),
                next_id: (app.next_id + 1) as u64,
                ..app
            }
        },
    decreases texts.len(),
{
    let before = texts.drop_last();
    if texts.len() == 1 {
        assert(before =~= Seq::empty());
        assert(app.spoken(before) == app.quiet());
        assert(concatenated(before) =~= Seq::empty());
        assert(concatenated(texts) =~= texts[0]);
        assert(app.spoken(texts).effects =~= Seq::empty());
    } else {
        parts_in_a_row_make_one_reply(app, before);
        let earlier = app.spoken(before).app;
        assert(app.spoken(texts).effects =~= Seq::empty());
        if app.is_streaming() {
            assert(app.items.last()->Assistant_md + concatenated(before) + texts.last()
                =~= app.items.last()->Assistant_md + concatenated(texts));
        }
        assert(earlier.is_streaming());
        assert(earlier.thought_folded() == earlier);
        assert(app.spoken(texts).app.items =~= if app.is_streaming() {
            app.items.update(
                app.items.len() - 1,
                ItemModel::Assistant {
                    id: app.items.last()->Assistant_id,
                    md: app.items.last()->Assistant_md + concatenated(texts),
                    revision: (app.items.last()->revision + texts.len()) as u64,
                    streaming: true,
                },
            )
        } else {
            app.thought_folded().items.push(
                ItemModel::Assistant {
                    id: (app.next_id + 1) as u64,
                    md: concatenated(texts),
                    revision: texts.len() as u64,
                    streaming: true,
                },
            )
        });
    }
}

/// The rows of the list in a box.
pub open spec fn list_len(modal: ModalModel) -> nat {
    match modal {
        ModalModel::ModelPicker { items, .. } => items.len(),
        ModalModel::SessionPicker { items, .. } => items.len(),
        ModalModel::Permission { options, .. } => options.len(),
        ModalModel::Help => 0,
    }
}

/// The highlighted row of the list in a box.
pub open spec fn list_row(modal: ModalModel) -> nat {
    match modal {
        ModalModel::ModelPicker { selected, .. } => selected,
        ModalModel::SessionPicker { selected, .. } => selected,
        ModalModel::Permission { selected, .. } => selected,
        ModalModel::Help => 0,
    }
}

/// Whether two boxes hold the same list, whichever rows are highlighted.
pub open spec fn same_list(a: ModalModel, b: ModalModel) -> bool {
    match (a, b) {
        (
            ModalModel::ModelPicker { items: x, .. },
            ModalModel::ModelPicker { items: y, .. },
        ) => x == y,
        (
            ModalModel::SessionPicker { items: x, .. },
            ModalModel::SessionPicker { items: y, .. },
        ) => x == y,
        (
            ModalModel::Permission { title: t, options: x, request: p, .. },
            ModalModel::Permission { title: u, options: y, request: q, .. },
        ) => t == u && x == y && p == q,
        (ModalModel::Help, ModalModel::Help) => true,
        _ => false,
    }
}

/// While a list stays open its entries stay, and the highlight moves by single steps
/// that stop at the first row and at the last: no key leads round or out of the list.
pub proof fn lists_are_walked_row_by_row(app: AppModel, key: KeyEvent, outside: Outside)
    requires
        app.modal is Some,
        app.modal->0 !is Help,
        list_row(app.modal->0) < list_len(app.modal->0),
    ensures
        app.after_key(key, outside).app.modal matches Some(box_after) ==> {
            let row = list_row(app.modal->0) as int;
            let last = list_len(app.modal->0) - 1;
            &&& same_list(app.modal->0, box_after)
            &&& list_row(box_after) < list_len(box_after)
            &&& list_row(box_after) == if key.code == KeyCode::Up || key.code == KeyCode::Char('k') {
                if row > 0 {
                    row - 1
                } else {
                    0
                }
            } else if key.code == KeyCode::Down || key.code == KeyCode::Char('j') {
                if row < last {
                    row + 1
                } else {
                    last
                }
            } else {
                row
            }
        },
{
}

/// Enter in the list of models closes it and makes the highlighted model that of the
/// current mode; the other mode keeps its model.
pub proof fn enter_picks_the_model(
    app: AppModel,
    items: Seq<Seq<char>>,
    selected: nat,
    key: KeyEvent,
    outside: Outside,
)
    requires
        app.modal == Some(ModalModel::ModelPicker { items, selected }),
        selected < items.len(),
        key.code == KeyCode::Enter,
    ensures
        ({
            let after = app.after_key(key, outside).app;
            &&& after.modal is None
            &&& after.mode == app.mode
            &&& after.model_name() == items[selected as int]
            &&& app.mode == Mode::Chat ==> after.agent_model == app.agent_model
            &&& app.mode == Mode::Agent ==> after.chat_model == app.chat_model
        }),
{
}

/// Without a focus, the first step forward puts it on the newest tool card and
/// changes no card, and the second shows that card's details or hides them; without
/// a card, a step changes nothing.
pub proof fn focus_goes_to_the_newest_card(app: AppModel)
    requires
        app.focused_tool is None,
    ensures
        ({
            let cards = card_positions(app.items);
            let once = app.focus_moved(true);
            let twice = once.focus_moved(true);
            &&& cards.len() == 0 ==> once == app && app.focus_moved(false) == app
            &&& cards.len() > 0 ==> {
                let card = cards.last();
                &&& app.items[card] is Tool
                &&& once == (AppModel { focused_tool: Some(card), follow: false, ..app })
                &&& twice.focused_tool == Some(card)
                &&& twice.items == app.items.update(
                    card,
                    ItemModel::Tool(
                        ToolCardModel {
                            view: app.items[card]->Tool_0.view,
                            expanded: !app.items[card]->Tool_0.expanded,
                        },
                    ),
                )
            }
        }),
{
    lemma_card_positions(app.items);
    let cards = card_positions(app.items);
    if cards.len() > 0 {
        lemma_last_position(app.items);
        assert(app.items[cards[cards.len() - 1]] is Tool);
    }
}

/// The key for a character.
pub open spec fn text_key(c: char) -> KeyEvent {
    KeyEvent { code: KeyCode::Char(c), ctrl: false, alt: false, shift: false, press: true }
}

/// The state after the keys for these characters.
pub open spec fn after_typing(app: AppModel, text: Seq<char>) -> AppModel
    decreases text.len(),
{
    if text.len() == 0 {
        app
    } else {
        let earlier = after_typing(app, text.drop_last());
        earlier.after_key(
            text_key(text.last()),
            Outside {
                typed: earlier.input.inserted(text.last()),
                broken: earlier.input.broken(),
                fresh_id: Seq::empty(),
            },
        ).app
    }
}

/// Keys typed in a row make the text: behind what was there before, in their order, with
/// the cursor behind them. Nothing but the input and its popup changes. A question mark
/// that comes before anything else opens the help instead.
pub proof fn keys_in_a_row_make_the_text(app: AppModel, start: Seq<char>, text: Seq<char>)
    requires
        app.modal is None,
        app.input == EditorModel::one_line(start, start.len()),
        forall|i: int| 0 <= i < text.len() ==> is_text(text_key(#[trigger] text[i])),
        forall|i: int|
            0 <= i < text.len() && #[trigger] text[i] == '?' ==> trimmed(start + text.take(i)).len()
                > 0,
    ensures
        after_typing(app, text).input == EditorModel::one_line(
            start + text,
            (start + text).len(),
        ),
        after_typing(app, text) == (AppModel {
            input: after_typing(app, text).input,
            completion: after_typing(app, text).completion,
            ..app
        }),
    decreases text.len(),
{
    if text.len() == 0 {
        assert(start + text =~= start);
    } else {
        let before = text.drop_last();
        let c = text.last();
        assert forall|i: int| 0 <= i < before.len() implies is_text(text_key(#[trigger] before[i])) by {
            assert(before[i] == text[i]);
        }
        assert forall|i: int| 0 <= i < before.len() && #[trigger] before[i] == '?' implies trimmed(
            start + before.take(i),
        ).len() > 0 by {
            assert(text[i] == '?');
            assert(before.take(i) =~= text.take(i));
        }
        keys_in_a_row_make_the_text(app, start, before);
        let earlier = after_typing(app, before);
        let line = start + before;
        assert(earlier.input.lines =~= seq![line]);
        assert(text.take(text.len() - 1) =~= before);
        if c == '?' {
            assert(text[text.len() - 1] == '?');
            assert(trimmed(earlier.input.lines[0]).len() > 0);
            assert(!is_blank(earlier.input.lines));
        }
        assert(line.take(line.len() as int).push(c) + line.skip(line.len() as int) =~= start + text);
        assert(earlier.input.inserted(c).lines =~= seq![start + text]);
    }
}

} // verus!
