//! What the keys do in the boxes and in the popup.

use crate::app::key_laws::{current_model, pressed};
use crate::app::laws::{list_len, list_row};
use crate::app::model::{AppModel, EffectModel, ItemModel, ModalModel, Outside};
use crate::app::Mode;
use crate::commands::{completion_for, CompletionModel};
use crate::commands_laws::the_popup_closes_behind_the_name;
use crate::editor::EditorModel;
use crate::event::{AppEventModel, KeyCode, KeyEvent, PermissionOptionModel, PermissionOutcomeModel};
use crate::session::SessionMetaModel;
use crate::theme::Theme;
use vstd::prelude::*;

verus! {

/// Any key closes the help, and does nothing else.
pub proof fn any_key_closes_the_help(app: AppModel, key: KeyEvent, outside: Outside)
    requires
        app.modal == Some(ModalModel::Help),
    ensures
        pressed(app, key, outside).app == (AppModel { modal: None, ..app }),
        pressed(app, key, outside).effects.len() == 0,
{
}

/// Whether the key moves the highlight of a list up, or down.
pub open spec fn moves(key: KeyEvent) -> bool {
    key.code == KeyCode::Up || key.code == KeyCode::Char('k') || key.code == KeyCode::Down
        || key.code == KeyCode::Char('j')
}

/// The same box with the highlight on this row.
pub open spec fn at_row(modal: ModalModel, row: nat) -> ModalModel {
    match modal {
        ModalModel::Help => ModalModel::Help,
        ModalModel::ModelPicker { items, .. } => ModalModel::ModelPicker { items, selected: row },
        ModalModel::SessionPicker { items, .. } => ModalModel::SessionPicker {
            items,
            selected: row,
        },
        ModalModel::Permission { title, options, request, .. } => ModalModel::Permission {
            title,
            options,
            selected: row,
            request,
        },
    }
}

/// Moving down leaves the box open and changes nothing but the highlight, which goes to
/// the next row, and stays on the last.
pub proof fn moving_down_changes_the_highlight_alone(
    app: AppModel,
    key: KeyEvent,
    outside: Outside,
)
    requires
        app.modal is Some,
        app.modal->0 !is Help,
        list_row(app.modal->0) < list_len(app.modal->0),
        key.code == KeyCode::Down || key.code == KeyCode::Char('j'),
    ensures
        pressed(app, key, outside).effects.len() == 0,
        pressed(app, key, outside).app == (AppModel {
            modal: Some(
                at_row(
                    app.modal->0,
                    if list_row(app.modal->0) + 1 < list_len(app.modal->0) {
                        list_row(app.modal->0) + 1
                    } else {
                        list_row(app.modal->0)
                    },
                ),
            ),
            ..app
        }),
{
}

/// Moving up leaves the box open and changes nothing but the highlight, which goes to the
/// row before, and stays on the first.
pub proof fn moving_up_changes_the_highlight_alone(app: AppModel, key: KeyEvent, outside: Outside)
    requires
        app.modal is Some,
        app.modal->0 !is Help,
        list_row(app.modal->0) < list_len(app.modal->0),
        key.code == KeyCode::Up || key.code == KeyCode::Char('k'),
    ensures
        pressed(app, key, outside).effects.len() == 0,
        pressed(app, key, outside).app == (AppModel {
            modal: Some(
                at_row(
                    app.modal->0,
                    if list_row(app.modal->0) > 0 {
                        (list_row(app.modal->0) - 1) as nat
                    } else {
                        0
                    },
                ),
            ),
            ..app
        }),
{
}

/// Escape closes a list and changes nothing else.
pub proof fn escape_closes_a_list(app: AppModel, key: KeyEvent, outside: Outside)
    requires
        app.modal matches Some(m) && (m is ModelPicker || m is SessionPicker),
        key.code == KeyCode::Esc,
    ensures
        pressed(app, key, outside).app == (AppModel { modal: None, ..app }),
        pressed(app, key, outside).effects.len() == 0,
{
}

/// Escape closes a question, which is cancelled.
pub proof fn escape_cancels_a_question(
    app: AppModel,
    title: Seq<char>,
    options: Seq<PermissionOptionModel>,
    selected: nat,
    request: u64,
    key: KeyEvent,
    outside: Outside,
)
    requires
        app.modal == Some(ModalModel::Permission { title, options, selected, request }),
        key.code == KeyCode::Esc,
    ensures
        pressed(app, key, outside).app == (AppModel { modal: None, ..app }),
        pressed(app, key, outside).effects == seq![
            EffectModel::AnswerPermission { request, outcome: PermissionOutcomeModel::Cancelled },
        ],
{
}

/// Keys that mean nothing in a list leave everything as it is.
pub proof fn other_keys_leave_a_list_alone(app: AppModel, key: KeyEvent, outside: Outside)
    requires
        app.modal is Some,
        app.modal->0 !is Help,
        !moves(key),
        key.code != KeyCode::Enter && key.code != KeyCode::Esc,
        app.modal->0 is Permission ==> key.code != KeyCode::Char('y') && key.code
            != KeyCode::Char('a') && key.code != KeyCode::Char('n') && key.code != KeyCode::Char(
            'N',
        ),
    ensures
        pressed(app, key, outside).app == app,
        pressed(app, key, outside).effects.len() == 0,
{
}

/// Enter answers a question with the option that is highlighted; without options it does
/// nothing.
pub proof fn enter_answers_with_the_highlight(
    app: AppModel,
    title: Seq<char>,
    options: Seq<PermissionOptionModel>,
    selected: nat,
    request: u64,
    key: KeyEvent,
    outside: Outside,
)
    requires
        app.modal == Some(ModalModel::Permission { title, options, selected, request }),
        key.code == KeyCode::Enter,
    ensures
        selected < options.len() ==> {
            &&& pressed(app, key, outside).app == (AppModel { modal: None, ..app })
            &&& pressed(app, key, outside).effects == seq![
                EffectModel::AnswerPermission {
                    request,
                    outcome: PermissionOutcomeModel::Selected {
                        option_id: options[selected as int].id,
                    },
                },
            ]
        },
        options.len() == 0 ==> pressed(app, key, outside).app == app && pressed(
            app,
            key,
            outside,
        ).effects.len() == 0,
{
}

/// Enter in the list of sessions closes it and asks for one thing, to load the session
/// of the highlighted row; nothing else changes until it is there.
pub proof fn enter_reopens_the_session(
    app: AppModel,
    items: Seq<SessionMetaModel>,
    selected: nat,
    key: KeyEvent,
    outside: Outside,
)
    requires
        app.modal == Some(ModalModel::SessionPicker { items, selected }),
        selected < items.len(),
        key.code == KeyCode::Enter,
    ensures
        pressed(app, key, outside).app == (AppModel { modal: None, ..app }),
        pressed(app, key, outside).effects == seq![
            EffectModel::LoadSession { id: items[selected as int].id },
        ],
{
}

/// From the list to the session: as many steps down as there are rows above a session,
/// and Enter, ask for that session.
pub proof fn every_session_can_be_reopened(
    app: AppModel,
    items: Seq<SessionMetaModel>,
    row: nat,
    down: KeyEvent,
    enter: KeyEvent,
    outside: Outside,
)
    requires
        row < items.len(),
        down.code == KeyCode::Down,
        enter.code == KeyCode::Enter,
    ensures
        ({
            let listed = app.after(AppEventModel::Sessions(items), outside).app;
            pressed(walked(listed, down, row, outside), enter, outside).effects == seq![
                EffectModel::LoadSession { id: items[row as int].id },
            ]
        }),
{
    let listed = app.after(AppEventModel::Sessions(items), outside).app;
    lemma_walked(listed, items, row, down, outside);
}

/// The state after the key was pressed so many times.
pub open spec fn walked(app: AppModel, key: KeyEvent, times: nat, outside: Outside) -> AppModel
    decreases times,
{
    if times == 0 {
        app
    } else {
        pressed(walked(app, key, (times - 1) as nat, outside), key, outside).app
    }
}

proof fn lemma_walked(
    app: AppModel,
    items: Seq<SessionMetaModel>,
    row: nat,
    down: KeyEvent,
    outside: Outside,
)
    requires
        app.modal == Some(ModalModel::SessionPicker { items, selected: 0 }),
        row < items.len(),
        down.code == KeyCode::Down,
    ensures
        walked(app, down, row, outside).modal == Some(
            ModalModel::SessionPicker { items, selected: row },
        ),
    decreases row,
{
    if row > 0 {
        lemma_walked(app, items, (row - 1) as nat, down, outside);
    }
}

/// The saved sessions are listed as they come, with the first highlighted; a question
/// that was on screen is cancelled. Where there are none, it is noted.
pub proof fn sessions_are_listed_as_they_come(
    app: AppModel,
    items: Seq<SessionMetaModel>,
    outside: Outside,
)
    ensures
        ({
            let step = app.after(AppEventModel::Sessions(items), outside);
            if items.len() == 0 {
                &&& step.effects.len() == 0
                &&& step.app == (AppModel {
                    items: app.items.push(ItemModel::Info("no saved sessions yet"@)),
                    ..app
                })
            } else {
                &&& step.app == (AppModel {
                    modal: Some(ModalModel::SessionPicker { items, selected: 0 }),
                    ..app
                })
                &&& step.effects == match app.modal {
                    Some(ModalModel::Permission { request, .. }) => seq![
                        EffectModel::AnswerPermission {
                            request,
                            outcome: PermissionOutcomeModel::Cancelled,
                        },
                    ],
                    _ => Seq::empty(),
                }
            }
        }),
{
}

/// Whether the model of the current mode, and nothing else, becomes this one, and the
/// transcript says so: a model that the account does not list is remarked upon, and one
/// for the agent is for its next session.
pub open spec fn is_model_set(before: AppModel, after: AppModel, model: Seq<char>) -> bool {
    let known = before.available_models.len() == 0 || before.available_models.contains(model);
    let note = ItemModel::Info(
        if known {
            "model: "@ + model
        } else {
            "model: "@ + model + " (not in this account's list)"@
        },
    );
    match before.mode {
        Mode::Chat => after == (AppModel {
            chat_model: model,
            items: before.items.push(note),
            completion: after.completion,
            ..before
        }),
        Mode::Agent => after == (AppModel {
            agent_model: model,
            items: before.items.push(note).push(
                ItemModel::Info("agent model applies to the next session"@),
            ),
            completion: after.completion,
            ..before
        }),
    }
}

/// Enter in the list of models closes it, and the highlighted model is that of the
/// current mode.
pub proof fn enter_sets_the_model(
    app: AppModel,
    items: Seq<Seq<char>>,
    selected: nat,
    key: KeyEvent,
    outside: Outside,
)
    requires
        app.modal == Some(ModalModel::ModelPicker { items, selected }),
        selected < items.len(),
        key.code == KeyCode::Enter,
    ensures
        pressed(app, key, outside).effects.len() == 0,
        is_model_set(
            AppModel { modal: None, ..app },
            pressed(app, key, outside).app,
            items[selected as int],
        ),
        current_model(pressed(app, key, outside).app) == items[selected as int],
{
}

/// Up and down move the highlight of the popup, and stop at its ends; escape closes the
/// popup. Nothing else changes.
pub proof fn the_popup_is_walked_and_closed(
    app: AppModel,
    popup: CompletionModel,
    key: KeyEvent,
    outside: Outside,
)
    requires
        app.modal is None,
        app.completion == Some(popup),
        popup.selected < popup.items.len(),
    ensures
        ({
            let step = pressed(app, key, outside);
            let at = |row: int|
                AppModel {
                    completion: Some(CompletionModel { items: popup.items, selected: row as nat }),
                    ..app
                };
            &&& key.code == KeyCode::Up || key.code == KeyCode::Down || key.code == KeyCode::Esc
                ==> step.effects.len() == 0
            &&& key.code == KeyCode::Up && popup.selected > 0 ==> step.app == at(popup.selected - 1)
            &&& key.code == KeyCode::Up && popup.selected == 0 ==> step.app == app
            &&& key.code == KeyCode::Down && popup.selected + 1 < popup.items.len() ==> step.app
                == at(popup.selected as int + 1)
            &&& key.code == KeyCode::Down && popup.selected + 1 == popup.items.len() ==> step.app
                == app
            &&& key.code == KeyCode::Esc ==> step.app == (AppModel { completion: None, ..app })
        }),
{
}

/// Tab puts the highlighted command into the input, behind its slash and, where it takes
/// an argument, with a space behind it; the cursor goes to the end. Nothing is run, and
/// for a command that takes an argument the popup closes.
pub proof fn tab_fills_in_the_command(
    app: AppModel,
    popup: CompletionModel,
    key: KeyEvent,
    outside: Outside,
)
    requires
        app.modal is None,
        app.completion == Some(popup),
        popup.selected < popup.items.len(),
        key.code == KeyCode::Tab,
    ensures
        ({
            let step = pressed(app, key, outside);
            let c = popup.items[popup.selected as int];
            let filled = if c.args.len() == 0 {
                seq!['/'] + c.name
            } else {
                seq!['/'] + c.name + seq![' ']
            };
            &&& step.effects.len() == 0
            &&& step.app == (AppModel {
                input: EditorModel {
                    lines: seq![filled],
                    cursor: (0, filled.len()),
                    selecting: false,
                },
                completion: step.app.completion,
                ..app
            })
            &&& step.app.completion == completion_for(filled, Some(popup))
            &&& c.args.len() > 0 ==> step.app.completion is None
        }),
{
    reveal_strlit("/");
    reveal_strlit(" ");
    assert("/"@ =~= seq!['/']);
    assert(" "@ =~= seq![' ']);
    let c = popup.items[popup.selected as int];
    if c.args.len() > 0 {
        let filled = seq!['/'] + c.name + seq![' '];
        assert(filled[filled.len() - 1] == ' ');
        the_popup_closes_behind_the_name(filled, Some(popup), filled.len() - 1);
    }
}

/// What else comes to the program changes what it is about, and nothing more: the theme,
/// the health of the connection, the list of models.
pub proof fn news_is_taken_note_of(
    app: AppModel,
    theme: Theme,
    healthy: bool,
    models: Seq<Seq<char>>,
    outside: Outside,
)
    ensures
        ({
            let themed = app.after(AppEventModel::ThemeChanged(theme), outside);
            let checked = app.after(AppEventModel::ProxyHealth(healthy), outside);
            let listed = app.after(AppEventModel::Models(models), outside);
            &&& themed.app == (AppModel { theme, ..app }) && themed.effects.len() == 0
            &&& checked.app == (AppModel { proxy_healthy: healthy, ..app })
            &&& checked.effects.len() == 0
            &&& listed.app == (AppModel { available_models: models, ..app })
            &&& listed.effects.len() == 0
        }),
{
}

} // verus!
