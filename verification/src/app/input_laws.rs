//! What becomes of the input line, and of the session's id.

use crate::app::key_laws::{nothing_typed, reaches_input};
use crate::app::model::{AppModel, Outside};
use crate::app::{App, Mode};
use crate::commands::completion_for;
use crate::event::{AppEventModel, KeyCode, KeyEvent, TermEvent};
use crate::theme::Theme;
use vstd::prelude::*;

verus! {

/// What a key does to the program as it is.
pub open spec fn keyed(app: App, key: KeyEvent, fresh: Seq<char>) -> AppModel {
    app.step(AppEventModel::Term(TermEvent::Key(KeyEvent { press: true, ..key })), fresh).app
}

/// Whether the key is a character without a meaning of its own.
pub open spec fn is_plain_character(key: KeyEvent, c: char) -> bool {
    &&& key.code == KeyCode::Char(c)
    &&& c != '?' && c != '\n' && c != '\r'
    &&& !key.ctrl && !key.alt
}

/// A character goes into the input at the cursor, and a line break breaks the line there,
/// as long as nothing is selected; Home and End go to the ends of the line.
pub proof fn keys_edit_the_input(app: App, key: KeyEvent, c: char, fresh: Seq<char>)
    requires
        reaches_input(app@, key),
    ensures
        ({
            let after = keyed(app, key, fresh).input;
            let (row, column) = app.input@.cursor;
            &&& is_plain_character(key, c) && !app.input@.selecting ==> after
                == app.input@.inserted(c)
            &&& key.code == KeyCode::Enter && key.alt && !key.ctrl && !app.input@.selecting ==> after
                == app.input@.broken()
            &&& key.code == KeyCode::Home ==> {
                &&& after.lines == app.input@.lines
                &&& after.cursor == (row, 0nat)
                &&& after.selecting == key.shift
            }
            &&& key.code == KeyCode::End && !nothing_typed(app@) ==> {
                &&& after.lines == app.input@.lines
                &&& after.cursor == (row, app.input@.lines[row as int].len())
                &&& after.selecting == key.shift
            }
        }),
{
    crate::app::key_laws::blank_input_is_white_space(app@);
}

/// Whether Enter sends the input, or runs it.
pub open spec fn sends(app: AppModel, key: KeyEvent) -> bool {
    key.code == KeyCode::Enter && !key.ctrl && !key.alt && !app.busy && app.message().len() > 0
}

/// What a key does to the input is known beforehand: it stays as it is, it takes the key,
/// it is broken at the cursor, or it gives way to another. It gives way only where the
/// popup fills it in or runs a command, or where it is sent.
pub proof fn edits_are_known_beforehand(app: AppModel, key: KeyEvent, outside: Outside)
    ensures
        ({
            let after = app.after(
                AppEventModel::Term(TermEvent::Key(KeyEvent { press: true, ..key })),
                outside,
            ).app;
            let edit = app.key_edit(KeyEvent { press: true, ..key });
            &&& edit is Kept ==> after.input == app.input
            &&& edit is Typed ==> after.input == outside.typed
            &&& edit is Broken ==> after.input == outside.broken
            &&& edit is Replaced ==> after.input.lines.len() == 1
            &&& edit is Replaced <==> app.modal is None && if app.completion is Some {
                key.code == KeyCode::Tab || key.code == KeyCode::Enter
            } else {
                sends(app, key)
            }
        }),
{
}

/// The popup follows the input: while there is one line in it, the popup is the one for
/// that line, with the highlight where it was; more lines close it.
pub proof fn the_popup_follows_the_input(app: AppModel, key: KeyEvent, outside: Outside)
    requires
        reaches_input(app, key),
        !sends(app, key),
    ensures
        ({
            let after = app.after(
                AppEventModel::Term(TermEvent::Key(KeyEvent { press: true, ..key })),
                outside,
            ).app;
            after.completion == if after.input.lines.len() == 1 {
                completion_for(after.input.lines[0], app.completion)
            } else {
                None
            }
        }),
{
}

/// The id of the session changes when a session is begun, and then it is the new one; it
/// stays the same otherwise, until another session is loaded.
pub proof fn ids_belong_to_their_sessions(app: AppModel, event: AppEventModel, outside: Outside)
    requires
        !(event is SessionLoaded),
    ensures
        app.after(event, outside).app.session_id == if app.begins_session(event) {
            outside.fresh_id
        } else {
            app.session_id
        },
{
    reveal_strlit("help");
    reveal_strlit("new");
    assert("help"@.len() != "new"@.len());
}

/// At startup the program is in chat mode, with the models of the settings and an empty
/// conversation; nothing is running, nothing is open, and what comes is followed.
pub proof fn the_program_starts_empty(
    chat_model: Seq<char>,
    agent_model: Seq<char>,
    theme: Theme,
    session_id: Seq<char>,
)
    ensures
        ({
            let app = AppModel::initial(chat_model, agent_model, theme, session_id);
            &&& app.mode == Mode::Chat
            &&& app.chat_model == chat_model && app.agent_model == agent_model
            &&& app.theme == theme && app.session_id == session_id
            &&& app.items.len() == 0 && app.chat_history.len() == 0 && app.plan.len() == 0
            &&& app.available_models.len() == 0
            &&& app.input.lines == seq![Seq::<char>::empty()] && app.input.cursor == (0nat, 0nat)
            &&& !app.busy && app.turn == 0 && app.next_id == 0
            &&& app.scroll == 0 && app.follow
            &&& app.modal is None && app.completion is None && app.focused_tool is None
            &&& app.proxy_healthy
            &&& app.agent_session is None
            &&& app.markdown.dom() == Set::<u64>::empty()
        }),
{
    let app = AppModel::initial(chat_model, agent_model, theme, session_id);
    assert(app.markdown.dom() =~= Set::<u64>::empty());
}

} // verus!
