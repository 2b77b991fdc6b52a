//! What is sent, what comes back, and what is kept of it.

use crate::app::box_laws::is_model_set;
use crate::app::key_laws::{is_new_session, is_open_at, pressed, reaches_input};
use crate::app::model::{
    replayed, replies, AppModel, EffectModel, ItemModel, ModalModel, Outside, Step,
};
use crate::app::Mode;
use crate::chat::types::ChatMessageModel;
use crate::commands::{parsed, ParsedModel};
use crate::commands_laws::{
    a_name_alone_is_a_command, command_called, messages_are_not_commands,
    what_follows_the_name_is_the_argument,
};
use crate::editor::EditorModel;
use crate::event::{AcpCommandModel, AppEventModel, ChatEventModel, KeyCode, KeyEvent};
use crate::session::SessionModel;
use crate::text::{blank, joined, white_space};
use crate::text_laws::{tight, trimming_takes_white_space_off};
use vstd::prelude::*;

verus! {

/// The lines of the input with line feeds between them.
pub open spec fn typed_text(app: AppModel) -> Seq<char> {
    joined(app.input.lines, seq!['\n'])
}

/// An input line with nothing in it.
pub open spec fn empty_input() -> EditorModel {
    EditorModel { lines: seq![Seq::empty()], cursor: (0, 0), selecting: false }
}

/// Whether Enter reaches the input, with this in it: the text, and white space around.
pub open spec fn enters(
    app: AppModel,
    key: KeyEvent,
    before: Seq<char>,
    text: Seq<char>,
    after: Seq<char>,
) -> bool {
    &&& reaches_input(app, key)
    &&& app.completion is None
    &&& key.code == KeyCode::Enter && !key.ctrl && !key.alt
    &&& typed_text(app) == before + text + after
    &&& blank(before) && blank(after) && tight(text)
}

proof fn lemma_message(
    app: AppModel,
    before: Seq<char>,
    text: Seq<char>,
    after: Seq<char>,
)
    requires
        typed_text(app) == before + text + after,
        blank(before) && blank(after) && tight(text),
    ensures
        app.message() == text,
{
    reveal_strlit("\n");
    assert("\n"@ =~= seq!['\n']);
    trimming_takes_white_space_off(before, text, after);
}

proof fn lemma_cleared(app: AppModel)
    ensures
        app.input_cleared().input == empty_input(),
        app.input_cleared() == (AppModel { input: empty_input(), completion: None, ..app }),
{
    assert(EditorModel::empty().lines =~= empty_input().lines);
}

/// In chat mode Enter sends what was typed, without the white space around it, behind
/// the conversation so far, to the model that was chosen; the message joins the
/// conversation and the transcript, a turn begins, and the input is empty again.
pub proof fn enter_sends_what_was_typed(
    app: AppModel,
    key: KeyEvent,
    before: Seq<char>,
    text: Seq<char>,
    after: Seq<char>,
    outside: Outside,
)
    requires
        enters(app, key, before, text, after),
        text.len() > 0,
        text[0] != '/' || text.len() == 1,
        !app.busy,
        app.mode == Mode::Chat,
        app.turn < u64::MAX,
    ensures
        ({
            let step = pressed(app, key, outside);
            let history = app.chat_history.push(ChatMessageModel { role: "user"@, content: text });
            let turn = (app.turn + 1) as u64;
            &&& step.effects == seq![
                EffectModel::SendChat { turn, model: app.chat_model, messages: history },
            ]
            &&& step.app == (AppModel {
                chat_history: history,
                items: app.items.push(ItemModel::User { text }),
                busy: true,
                follow: true,
                turn,
                input: empty_input(),
                completion: None,
                ..app
            })
        }),
{
    lemma_message(app, before, text, after);
    lemma_cleared(app);
    let nothing = Seq::<char>::empty();
    messages_are_not_commands(nothing, text, nothing);
    assert(nothing + text + nothing =~= text);
}

/// In agent mode Enter sends what was typed to the agent; the message joins the
/// transcript, and the conversation with the model stays as it is.
pub proof fn enter_prompts_the_agent(
    app: AppModel,
    key: KeyEvent,
    before: Seq<char>,
    text: Seq<char>,
    after: Seq<char>,
    outside: Outside,
)
    requires
        enters(app, key, before, text, after),
        text.len() > 0,
        text[0] != '/' || text.len() == 1,
        !app.busy,
        app.mode == Mode::Agent,
        app.turn < u64::MAX,
    ensures
        ({
            let step = pressed(app, key, outside);
            &&& step.effects == seq![EffectModel::Acp(AcpCommandModel::Prompt { text })]
            &&& step.app == (AppModel {
                items: app.items.push(ItemModel::User { text }),
                busy: true,
                follow: true,
                turn: (app.turn + 1) as u64,
                input: empty_input(),
                completion: None,
                ..app
            })
        }),
{
    lemma_message(app, before, text, after);
    lemma_cleared(app);
    let nothing = Seq::<char>::empty();
    messages_are_not_commands(nothing, text, nothing);
    assert(nothing + text + nothing =~= text);
}

/// Enter does nothing while a turn is running, nor where nothing was typed.
pub proof fn enter_waits_for_its_turn(
    app: AppModel,
    key: KeyEvent,
    before: Seq<char>,
    text: Seq<char>,
    after: Seq<char>,
    outside: Outside,
)
    requires
        enters(app, key, before, text, after),
        app.busy || text.len() == 0,
    ensures
        pressed(app, key, outside).effects.len() == 0,
        pressed(app, key, outside).app == (AppModel {
            completion: pressed(app, key, outside).app.completion,
            ..app
        }),
{
    lemma_message(app, before, text, after);
}

/// Whether the name can be that of a command.
pub open spec fn is_word(name: Seq<char>) -> bool {
    &&& name.len() > 0
    &&& name[0] != '/'
    &&& forall|i: int| 0 <= i < name.len() ==> !white_space(#[trigger] name[i])
}

/// Whether the text is a slash, this name, and this for its arguments.
pub open spec fn is_slash(text: Seq<char>, name: Seq<char>, args: Seq<char>) -> bool {
    if args.len() == 0 {
        text == seq!['/'] + name
    } else {
        exists|gap: char, space: Seq<char>|
            white_space(gap) && blank(space) && text == #[trigger] (seq!['/'] + name + seq![gap]
                + space + args)
    }
}

proof fn lemma_slash(text: Seq<char>, name: Seq<char>, args: Seq<char>)
    requires
        is_word(name),
        tight(args),
        is_slash(text, name, args),
    ensures
        match parsed(text) {
            Some(ParsedModel::Known(c, found)) => command_called(name) == Some(c.name) && found
                == args,
            Some(ParsedModel::Unknown(word)) => command_called(name) is None && word == name,
            None => false,
        },
{
    if args.len() == 0 {
        a_name_alone_is_a_command(name);
        assert(args =~= Seq::<char>::empty());
    } else {
        let (gap, space) = choose|gap: char, space: Seq<char>|
            white_space(gap) && blank(space) && text == #[trigger] (seq!['/'] + name + seq![gap]
                + space + args);
        let nothing = Seq::<char>::empty();
        what_follows_the_name_is_the_argument(name, gap, space, args, nothing);
        assert(seq!['/'] + name + seq![gap] + (space + args + nothing) =~= text);
    }
}

/// A slash and the name of a command run the command, by whichever of its names; nothing
/// is sent, the input is empty again, and the turn does not count.
/// `/help` opens the help, `/new` begins a session, `/sessions` asks for the saved ones,
/// `/chat` and `/agent` go to that mode, `/quit` leaves. `/model` opens the list of
/// models, or sets the one that is named. A name that no command goes by is reported.
pub proof fn commands_do_what_they_say(
    app: AppModel,
    key: KeyEvent,
    before: Seq<char>,
    text: Seq<char>,
    after: Seq<char>,
    name: Seq<char>,
    args: Seq<char>,
    outside: Outside,
)
    requires
        enters(app, key, before, text, after),
        !app.busy,
        is_word(name),
        tight(args),
        is_slash(text, name, args),
    ensures
        ({
            let step = pressed(app, key, outside);
            let cleared = AppModel { input: empty_input(), completion: None, ..app };
            &&& step.app.input == empty_input()
            &&& step.app.completion is None
            &&& step.app.turn == app.turn
            &&& step.app.busy == app.busy
            &&& match command_called(name) {
                Some(c) => does(cleared, step, c, args, outside.fresh_id),
                None => {
                    &&& step.effects.len() == 0
                    &&& step.app == (AppModel {
                        items: app.items.push(
                            ItemModel::Error("unknown command /"@ + name + " — try /help"@),
                        ),
                        ..cleared
                    })
                },
            }
        }),
{
    lemma_message(app, before, text, after);
    lemma_cleared(app);
    lemma_slash(text, name, args);
    if let Some(c) = command_called(name) {
        lemma_does(app.input_cleared(), c, args, outside.fresh_id);
    }
    assert(text.len() > 0);
}

/// What the command does, by its first name.
pub open spec fn does(
    app: AppModel,
    step: Step,
    command: Seq<char>,
    args: Seq<char>,
    fresh: Seq<char>,
) -> bool {
    &&& command == "help"@ ==> step.effects.len() == 0 && step.app == (AppModel {
        modal: Some(ModalModel::Help),
        ..app
    })
    &&& command == "new"@ ==> step.effects.len() == 0 && is_new_session(app, step.app, fresh)
    &&& command == "sessions"@ ==> step.effects == seq![EffectModel::ListSessions] && step.app
        == app
    &&& command == "quit"@ ==> step.effects == seq![EffectModel::Quit] && step.app == app
    &&& command == "chat"@ ==> step.effects.len() == 0 && is_in_mode(
        app,
        step.app,
        Mode::Chat,
        if app.mode == Mode::Chat {
            "already in chat mode"@
        } else {
            "chat mode"@
        },
    )
    &&& command == "agent"@ ==> step.effects.len() == 0 && is_in_mode(
        app,
        step.app,
        Mode::Agent,
        if app.mode == Mode::Agent {
            "already in agent mode"@
        } else {
            "agent mode"@
        },
    )
    &&& command == "model"@ && args.len() > 0 ==> step.effects.len() == 0 && is_model_set(
        app,
        step.app,
        args,
    )
    &&& command == "model"@ && args.len() == 0 ==> {
        &&& step.effects.len() == 0
        &&& if app.available_models.len() == 0 {
            step.app == (AppModel {
                items: app.items.push(ItemModel::Info("model list not loaded yet"@)),
                ..app
            })
        } else {
            &&& step.app == (AppModel { modal: step.app.modal, ..app })
            &&& exists|row: nat| #[trigger] is_open_at(step.app, row)
        }
    }
}

/// Whether only the mode is this one, and the transcript says so.
pub open spec fn is_in_mode(
    before: AppModel,
    after: AppModel,
    mode: Mode,
    note: Seq<char>,
) -> bool {
    after == (AppModel { mode, items: before.items.push(ItemModel::Info(note)), ..before })
}

proof fn lemma_does(app: AppModel, command: Seq<char>, args: Seq<char>, fresh: Seq<char>)
    requires
        app.completion is None,
        command == "help"@ || command == "model"@ || command == "new"@ || command == "sessions"@
            || command == "chat"@ || command == "agent"@ || command == "quit"@,
    ensures
        does(app, app.after_command(command, args, fresh), command, args, fresh),
        app.after_command(command, args, fresh).app.input == app.input,
        app.after_command(command, args, fresh).app.completion is None,
{
    reveal_strlit("help");
    reveal_strlit("model");
    reveal_strlit("new");
    reveal_strlit("sessions");
    reveal_strlit("chat");
    reveal_strlit("agent");
    reveal_strlit("quit");
    reveal_strlit(" mode");
    reveal_strlit("already in ");
    reveal_strlit("chat mode");
    reveal_strlit("agent mode");
    reveal_strlit("already in chat mode");
    reveal_strlit("already in agent mode");
    assert("help"@[0] == 'h' && "quit"@[0] == 'q' && "chat"@[0] == 'c' && "agent"@[0] == 'a'
        && "model"@[0] == 'm' && "new"@[0] == 'n' && "sessions"@[0] == 's');
    assert("chat"@ + " mode"@ =~= "chat mode"@);
    assert("agent"@ + " mode"@ =~= "agent mode"@);
    assert("already in "@ + "chat"@ + " mode"@ =~= "already in chat mode"@);
    assert("already in "@ + "agent"@ + " mode"@ =~= "already in agent mode"@);
    let step = app.after_command(command, args, fresh);
    if command == "new"@ {
        assert(step.app.items =~= seq![ItemModel::Info("new session"@)]);
        assert(step.app.markdown.dom() =~= Set::<u64>::empty());
    }
    if command == "model"@ && args.len() == 0 && app.available_models.len() > 0 {
        assert(is_open_at(step.app, app.current_row()));
    }
}

/// Enter in the popup runs the highlighted command without arguments, just as typing it
/// would.
pub proof fn enter_runs_the_highlighted_command(app: AppModel, key: KeyEvent, outside: Outside)
    requires
        app.modal is None,
        app.completion is Some,
        app.completion->0.selected < app.completion->0.items.len(),
        app.completion->0.valid(),
        key.code == KeyCode::Enter,
    ensures
        ({
            let popup = app.completion->0;
            let cleared = AppModel { input: empty_input(), completion: None, ..app };
            does(
                cleared,
                pressed(app, key, outside),
                popup.items[popup.selected as int].name,
                Seq::empty(),
                outside.fresh_id,
            )
        }),
{
    let popup = app.completion->0;
    let c = popup.items[popup.selected as int];
    lemma_cleared(app);
    crate::commands_laws::there_are_seven_commands();
    let t = crate::commands::command_table();
    assert(t.contains(c));
    let i = choose|i: int| 0 <= i < t.len() && t[i] == c;
    assert(i == 0 || i == 1 || i == 2 || i == 3 || i == 4 || i == 5 || i == 6);
    lemma_does(app.input_cleared(), c.name, Seq::empty(), outside.fresh_id);
}

/// Whether the transcript ends with a reply that is still coming in.
pub open spec fn streams(app: AppModel) -> bool {
    app.items.len() > 0 && (app.items.last() matches ItemModel::Assistant { streaming, .. }
        && streaming)
}

/// A part of the reply goes behind what has come of it, or begins it at the end of the
/// transcript; the conversation is not touched until the reply is complete.
pub proof fn parts_of_a_reply_run_on(app: AppModel, text: Seq<char>, outside: Outside)
    requires
        app.next_id < u64::MAX,
    ensures
        ({
            let step = app.after(
                AppEventModel::Chat(ChatEventModel::Delta { turn: app.turn, text }),
                outside,
            );
            &&& step.effects.len() == 0
            &&& streams(step.app)
            &&& step.app == (AppModel {
                items: step.app.items,
                next_id: step.app.next_id,
                ..app
            })
            &&& if streams(app) {
                &&& step.app.items.len() == app.items.len()
                &&& step.app.items.drop_last() == app.items.drop_last()
                &&& step.app.items.last()->Assistant_md == app.items.last()->Assistant_md + text
                &&& step.app.items.last()->Assistant_id == app.items.last()->Assistant_id
                &&& step.app.next_id == app.next_id
            } else {
                &&& step.app.items.len() == app.items.len() + 1
                &&& step.app.items.drop_last() == app.items
                &&& step.app.items.last()->Assistant_md == text
                &&& step.app.items.last()->Assistant_id == step.app.next_id
                &&& step.app.next_id == app.next_id + 1
            }
        }),
{
    let step = app.after(
        AppEventModel::Chat(ChatEventModel::Delta { turn: app.turn, text }),
        outside,
    );
    if streams(app) {
        assert(step.app.items.drop_last() =~= app.items.drop_last());
    } else {
        assert(step.app.items.drop_last() =~= app.items);
    }
}

/// The end of a turn: the reply joins the conversation as it came, if there is one, the
/// session is to be saved, and the next turn can begin.
pub proof fn complete_replies_join_the_conversation(app: AppModel, outside: Outside)
    ensures
        ({
            let step = app.after(
                AppEventModel::Chat(ChatEventModel::Done { turn: app.turn }),
                outside,
            );
            &&& step.effects == seq![EffectModel::SaveSession]
            &&& step.app == (AppModel {
                items: step.app.items,
                chat_history: step.app.chat_history,
                busy: false,
                ..app
            })
            &&& !streams(step.app)
            &&& step.app.items.len() == app.items.len()
            &&& forall|j: int|
                0 <= j < app.items.len() - 1 ==> #[trigger] step.app.items[j] == app.items[j]
            &&& if streams(app) {
                &&& step.app.chat_history == app.chat_history.push(
                    ChatMessageModel {
                        role: "assistant"@,
                        content: app.items.last()->Assistant_md,
                    },
                )
                &&& step.app.items.last() is Assistant
                &&& step.app.items.last()->Assistant_md == app.items.last()->Assistant_md
            } else {
                step.app.chat_history == app.chat_history
            }
        }),
{
}

/// A turn that fails: the last message is taken back, and the transcript says why.
/// Nothing is saved.
pub proof fn failed_messages_are_taken_back(app: AppModel, message: Seq<char>, outside: Outside)
    ensures
        ({
            let step = app.after(
                AppEventModel::Chat(ChatEventModel::Error { turn: app.turn, message }),
                outside,
            );
            &&& step.effects.len() == 0
            &&& step.app == (AppModel {
                items: step.app.items,
                chat_history: step.app.chat_history,
                busy: false,
                ..app
            })
            &&& app.chat_history.len() > 0 ==> step.app.chat_history
                == app.chat_history.drop_last()
            &&& app.chat_history.len() == 0 ==> step.app.chat_history.len() == 0
            &&& step.app.items.len() == app.items.len() + 1
            &&& step.app.items.last() == ItemModel::Error(message)
            &&& forall|j: int|
                0 <= j < app.items.len() - 1 ==> #[trigger] step.app.items[j] == app.items[j]
        }),
{
}

/// What comes for another turn than the current one changes nothing.
pub proof fn other_turns_change_nothing(
    app: AppModel,
    turn: u64,
    text: Seq<char>,
    outside: Outside,
)
    requires
        turn != app.turn,
    ensures
        ({
            let part = app.after(AppEventModel::Chat(ChatEventModel::Delta { turn, text }), outside);
            let done = app.after(AppEventModel::Chat(ChatEventModel::Done { turn }), outside);
            let failed = app.after(
                AppEventModel::Chat(ChatEventModel::Error { turn, message: text }),
                outside,
            );
            &&& part.app == app && part.effects.len() == 0
            &&& done.app == app && done.effects.len() == 0
            &&& failed.app == app && failed.effects.len() == 0
        }),
{
}

/// A saved conversation is shown message by message, in order: the user's as theirs, and
/// every other as a complete reply, under an id that no reply had before.
pub proof fn saved_conversations_are_shown(messages: Seq<ChatMessageModel>, next_id: u64)
    requires
        next_id + messages.len() <= u64::MAX,
    ensures
        replayed(messages, next_id).len() == messages.len(),
        replies(messages) <= messages.len(),
        forall|i: int|
            0 <= i < messages.len() ==> match #[trigger] replayed(messages, next_id)[i] {
                ItemModel::User { text } => messages[i].role == "user"@ && text
                    == messages[i].content,
                ItemModel::Assistant { id, md, streaming, .. } => {
                    &&& messages[i].role != "user"@
                    &&& md == messages[i].content
                    &&& !streaming
                    &&& next_id < id <= next_id + replies(messages)
                },
                _ => false,
            },
        forall|i: int, j: int|
            0 <= i < j < messages.len() && #[trigger] replayed(messages, next_id)[i] is Assistant
                && #[trigger] replayed(messages, next_id)[j] is Assistant ==> replayed(
                messages,
                next_id,
            )[i]->Assistant_id < replayed(messages, next_id)[j]->Assistant_id,
    decreases messages.len(),
{
    if messages.len() > 0 {
        let fewer = messages.drop_last();
        saved_conversations_are_shown(fewer, next_id);
        let all = replayed(messages, next_id);
        let earlier = replayed(fewer, next_id);
        assert forall|i: int| 0 <= i < fewer.len() implies #[trigger] all[i] == earlier[i] by {}
        assert forall|i: int| 0 <= i < fewer.len() implies fewer[i] == messages[i] by {}
        assert(messages.last() == messages[messages.len() - 1]);
        assert forall|i: int| 0 <= i < messages.len() implies match #[trigger] all[i] {
            ItemModel::User { text } => messages[i].role == "user"@ && text == messages[i].content,
            ItemModel::Assistant { id, md, streaming, .. } => {
                &&& messages[i].role != "user"@
                &&& md == messages[i].content
                &&& !streaming
                &&& next_id < id <= next_id + replies(messages)
            },
            _ => false,
        } by {
            if i < fewer.len() {
                assert(all[i] == earlier[i]);
            }
        }
        assert forall|i: int, j: int|
            0 <= i < j < messages.len() && #[trigger] all[i] is Assistant
                && #[trigger] all[j] is Assistant implies all[i]->Assistant_id
            < all[j]->Assistant_id by {
            assert(all[i] == earlier[i]);
            if j < fewer.len() {
                assert(all[j] == earlier[j]);
            } else {
                assert(earlier[i]->Assistant_id <= next_id + replies(fewer));
            }
        }
    }
}

/// A session that was loaded is taken up in chat mode with its model, its id and its
/// messages; what was on screen of another conversation is gone. A session that could
/// not be loaded changes nothing, but the transcript says why.
pub proof fn loaded_sessions_are_taken_up(
    app: AppModel,
    session: SessionModel,
    reason: Seq<char>,
    outside: Outside,
)
    requires
        app.next_id + session.messages.len() <= u64::MAX,
    ensures
        ({
            let loaded = app.after(AppEventModel::SessionLoaded(Ok(session)), outside);
            let failed = app.after(AppEventModel::SessionLoaded(Err(reason)), outside);
            &&& loaded.effects.len() == 0
            &&& loaded.app.chat_history == session.messages
            &&& loaded.app.chat_model == session.model
            &&& loaded.app.session_id == session.id
            &&& loaded.app.mode == Mode::Chat
            &&& loaded.app.items.len() == session.messages.len()
            &&& loaded.app.next_id == app.next_id + replies(session.messages)
            &&& loaded.app.plan.len() == 0
            &&& loaded.app.focused_tool is None
            &&& loaded.app.follow
            &&& loaded.app.markdown.dom() == Set::<u64>::empty()
            &&& loaded.app == (AppModel {
                chat_history: loaded.app.chat_history,
                chat_model: session.model,
                session_id: session.id,
                mode: Mode::Chat,
                items: loaded.app.items,
                next_id: loaded.app.next_id,
                plan: loaded.app.plan,
                focused_tool: None,
                follow: true,
                markdown: loaded.app.markdown,
                ..app
            })
            &&& forall|i: int|
                0 <= i < session.messages.len() ==> match #[trigger] loaded.app.items[i] {
                    ItemModel::User { text } => session.messages[i].role == "user"@ && text
                        == session.messages[i].content,
                    ItemModel::Assistant { md, streaming, .. } => session.messages[i].role
                        != "user"@ && md == session.messages[i].content && !streaming,
                    _ => false,
                }
            &&& failed.effects.len() == 0
            &&& failed.app == (AppModel {
                items: app.items.push(ItemModel::Error("could not load session: "@ + reason)),
                ..app
            })
        }),
{
    saved_conversations_are_shown(session.messages, app.next_id);
    let loaded = app.after(AppEventModel::SessionLoaded(Ok(session)), outside);
    assert(loaded.app.markdown.dom() =~= Set::<u64>::empty());
    assert(loaded.app.items == replayed(session.messages, app.next_id));
}

} // verus!
