//! What the keys do.

use crate::app::laws::lemma_card_positions;
use crate::app::model::{
    card_positions, AppModel, EffectModel, ItemModel, ModalModel, Outside, Step,
};
use crate::app::Mode;
use crate::editor::is_blank;
use crate::event::{AcpCommandModel, AppEventModel, KeyCode, KeyEvent, TermEvent};
use crate::text::{blank, trimmed};
use vstd::prelude::*;

verus! {

/// What a key does that is pressed.
pub open spec fn pressed(app: AppModel, key: KeyEvent, outside: Outside) -> Step {
    app.after(AppEventModel::Term(TermEvent::Key(KeyEvent { press: true, ..key })), outside)
}

/// Whether the key reaches the input line and the window: no box is open, and no popup
/// that takes it.
pub open spec fn reaches_input(app: AppModel, key: KeyEvent) -> bool {
    app.modal is None && (app.completion is None || !(key.code == KeyCode::Up || key.code
        == KeyCode::Down || key.code == KeyCode::Tab || key.code == KeyCode::Enter || key.code
        == KeyCode::Esc))
}

/// Whether this is the letter with the control key.
pub open spec fn is_ctrl(key: KeyEvent, c: char) -> bool {
    key.code == KeyCode::Char(c) && key.ctrl && !key.alt
}

/// Whether the two states are the same, but for the popup.
pub open spec fn same_but_popup(a: AppModel, b: AppModel) -> bool {
    a == (AppModel { completion: a.completion, ..b })
}

/// Whether there is nothing but white space in the input.
pub open spec fn nothing_typed(app: AppModel) -> bool {
    forall|i: int| 0 <= i < app.input.lines.len() ==> blank(#[trigger] app.input.lines[i])
}

/// Input is blank if there is nothing but white space in it.
pub proof fn blank_input_is_white_space(app: AppModel)
    ensures
        is_blank(app.input.lines) <==> nothing_typed(app),
{
    let lines = app.input.lines;
    assert forall|i: int| 0 <= i < lines.len() implies (trimmed(#[trigger] lines[i]).len() == 0
        <==> blank(lines[i])) by {
        crate::cli::run_laws::lemma_blank_line(lines[i]);
    }
    if is_blank(lines) {
        assert forall|i: int| 0 <= i < lines.len() implies blank(#[trigger] lines[i]) by {
            assert(trimmed(lines[i]).len() == 0);
        }
    }
}

/// What stops the turn that is running, in the way of its mode.
pub open spec fn stop(mode: Mode) -> EffectModel {
    match mode {
        Mode::Chat => EffectModel::CancelChat,
        Mode::Agent => EffectModel::Acp(AcpCommandModel::Cancel),
    }
}

/// A key that is not pressed, but held or let go, does nothing; nor does anything else
/// that the terminal reports.
pub proof fn only_pressed_keys_count(app: AppModel, event: TermEvent, outside: Outside)
    requires
        event matches TermEvent::Key(key) ==> !key.press,
    ensures
        app.after(AppEventModel::Term(event), outside).app == app,
        app.after(AppEventModel::Term(event), outside).effects.len() == 0,
{
}

/// Ctrl+C stops the turn that is running, and otherwise leaves the program; so does
/// Ctrl+D where nothing is typed. Neither changes anything.
pub proof fn ctrl_c_stops_or_leaves(app: AppModel, key: KeyEvent, outside: Outside)
    requires
        reaches_input(app, key),
    ensures
        is_ctrl(key, 'c') ==> {
            &&& pressed(app, key, outside).effects == seq![
                if app.busy {
                    stop(app.mode)
                } else {
                    EffectModel::Quit
                },
            ]
            &&& same_but_popup(pressed(app, key, outside).app, app)
        },
        is_ctrl(key, 'd') && nothing_typed(app) ==> {
            &&& pressed(app, key, outside).effects == seq![EffectModel::Quit]
            &&& same_but_popup(pressed(app, key, outside).app, app)
        },
        is_ctrl(key, 'd') && !nothing_typed(app) ==> {
            &&& pressed(app, key, outside).effects.len() == 0
            &&& same_but_popup(
                pressed(app, key, outside).app,
                AppModel { input: outside.typed, ..app },
            )
        },
{
    blank_input_is_white_space(app);
}

/// Escape stops the turn that is running; otherwise it takes the focus off the tool
/// cards, and changes nothing else.
pub proof fn escape_stops_or_lets_go(app: AppModel, key: KeyEvent, outside: Outside)
    requires
        reaches_input(app, key),
        key.code == KeyCode::Esc,
    ensures
        app.busy ==> {
            &&& pressed(app, key, outside).effects == seq![stop(app.mode)]
            &&& same_but_popup(pressed(app, key, outside).app, app)
        },
        !app.busy ==> {
            &&& pressed(app, key, outside).effects.len() == 0
            &&& same_but_popup(
                pressed(app, key, outside).app,
                AppModel { focused_tool: None, ..app },
            )
        },
{
}

/// Alt+Enter and Ctrl+J break the line, and send nothing.
pub proof fn line_breaks_are_not_sent(app: AppModel, key: KeyEvent, outside: Outside)
    requires
        reaches_input(app, key),
        is_ctrl(key, 'j') || (key.code == KeyCode::Enter && key.alt && !key.ctrl),
    ensures
        pressed(app, key, outside).effects.len() == 0,
        same_but_popup(
            pressed(app, key, outside).app,
            AppModel { input: outside.broken, ..app },
        ),
{
}

/// Ctrl+T goes to the other mode and notes it; the conversation, the models and the
/// input stay.
pub proof fn ctrl_t_goes_to_the_other_mode(app: AppModel, key: KeyEvent, outside: Outside)
    requires
        reaches_input(app, key),
        is_ctrl(key, 't'),
        !app.busy,
    ensures
        pressed(app, key, outside).effects.len() == 0,
        same_but_popup(
            pressed(app, key, outside).app,
            match app.mode {
                Mode::Chat => AppModel {
                    mode: Mode::Agent,
                    items: app.items.push(ItemModel::Info("agent mode"@)),
                    ..app
                },
                Mode::Agent => AppModel {
                    mode: Mode::Chat,
                    items: app.items.push(ItemModel::Info("chat mode"@)),
                    ..app
                },
            },
        ),
{
}

/// The model of the current mode.
pub open spec fn current_model(app: AppModel) -> Seq<char> {
    if app.mode == Mode::Chat {
        app.chat_model
    } else {
        app.agent_model
    }
}

/// Whether the list of models is open on this row.
pub open spec fn is_open_at(app: AppModel, row: nat) -> bool {
    app.modal == Some(ModalModel::ModelPicker { items: app.available_models, selected: row })
}

/// Ctrl+O opens the list of the account's models, with the current one highlighted if it
/// is in the list, and the first otherwise; without a list it says so.
pub proof fn ctrl_o_opens_the_models(app: AppModel, key: KeyEvent, row: int, outside: Outside)
    requires
        reaches_input(app, key),
        is_ctrl(key, 'o'),
        !app.busy,
    ensures
        pressed(app, key, outside).effects.len() == 0,
        app.available_models.len() == 0 ==> same_but_popup(
            pressed(app, key, outside).app,
            AppModel {
                items: app.items.push(ItemModel::Info("model list not loaded yet"@)),
                ..app
            },
        ),
        app.available_models.len() > 0 ==> {
            let after = pressed(app, key, outside).app;
            &&& same_but_popup(after, AppModel { modal: after.modal, ..app })
            &&& (0 <= row < app.available_models.len() && app.available_models[row]
                == current_model(app) && forall|k: int|
                0 <= k < row ==> #[trigger] app.available_models[k] != current_model(app))
                ==> is_open_at(after, row as nat)
            &&& !app.available_models.contains(current_model(app)) ==> is_open_at(after, 0)
        },
{
    let models = app.available_models;
    if models.contains(current_model(app)) {
        models.index_of_first_ensures(current_model(app));
        let found = models.index_of_first(current_model(app))->0;
        if 0 <= row < models.len() && models[row] == current_model(app) {
            if found < row {
                assert(models[found] == current_model(app));
            }
        }
    }
}

/// Ctrl+P asks for the saved sessions, and changes nothing until they are there.
pub proof fn ctrl_p_asks_for_the_sessions(app: AppModel, key: KeyEvent, outside: Outside)
    requires
        reaches_input(app, key),
        is_ctrl(key, 'p'),
        !app.busy,
    ensures
        pressed(app, key, outside).effects == seq![EffectModel::ListSessions],
        same_but_popup(pressed(app, key, outside).app, app),
{
}

/// Whether this is the state at the start of a new session with this id: the transcript
/// says so, the conversation, the plan and the focus are gone, and what comes is
/// followed. The rest stays as it was.
pub open spec fn is_new_session(before: AppModel, after: AppModel, id: Seq<char>) -> bool {
    &&& after.items == seq![ItemModel::Info("new session"@)]
    &&& after.chat_history.len() == 0
    &&& after.plan.len() == 0
    &&& after.focused_tool is None
    &&& after.follow
    &&& after.session_id == id
    &&& after.markdown.dom() == Set::<u64>::empty()
    &&& after == (AppModel {
        items: after.items,
        chat_history: after.chat_history,
        plan: after.plan,
        focused_tool: None,
        follow: true,
        session_id: id,
        markdown: after.markdown,
        completion: after.completion,
        input: after.input,
        ..before
    })
}

/// Ctrl+N begins a new session, under a new id; the input stays.
pub proof fn ctrl_n_begins_a_session(app: AppModel, key: KeyEvent, outside: Outside)
    requires
        reaches_input(app, key),
        is_ctrl(key, 'n'),
        !app.busy,
    ensures
        pressed(app, key, outside).effects.len() == 0,
        is_new_session(app, pressed(app, key, outside).app, outside.fresh_id),
        pressed(app, key, outside).app.input == app.input,
{
    let after = pressed(app, key, outside).app;
    assert(after.items =~= seq![ItemModel::Info("new session"@)]);
    assert(after.markdown.dom() =~= Set::<u64>::empty());
}

/// While a turn is running, the keys that change modes, models and sessions go to the
/// input line like any other.
pub proof fn nothing_is_switched_during_a_turn(app: AppModel, key: KeyEvent, outside: Outside)
    requires
        reaches_input(app, key),
        is_ctrl(key, 't') || is_ctrl(key, 'o') || is_ctrl(key, 'p') || is_ctrl(key, 'n'),
        app.busy,
    ensures
        pressed(app, key, outside).effects.len() == 0,
        same_but_popup(
            pressed(app, key, outside).app,
            AppModel { input: outside.typed, ..app },
        ),
{
}

/// A question mark opens the help where nothing is typed, and is typed otherwise.
pub proof fn question_marks_ask_for_help(app: AppModel, key: KeyEvent, outside: Outside)
    requires
        reaches_input(app, key),
        key.code == KeyCode::Char('?'),
    ensures
        pressed(app, key, outside).effects.len() == 0,
        same_but_popup(
            pressed(app, key, outside).app,
            if nothing_typed(app) {
                AppModel { modal: Some(ModalModel::Help), ..app }
            } else {
                AppModel { input: outside.typed, ..app }
            },
        ),
{
    blank_input_is_white_space(app);
}

/// Page up and page down scroll by ten rows, and stop at the ends; page up stops
/// following what comes. End follows again, where nothing is typed.
pub proof fn pages_are_turned(app: AppModel, key: KeyEvent, outside: Outside)
    requires
        reaches_input(app, key),
    ensures
        ({
            let step = pressed(app, key, outside);
            &&& key.code == KeyCode::PageUp ==> {
                &&& step.effects.len() == 0
                &&& step.app.scroll == if app.scroll < 10 {
                    0
                } else {
                    app.scroll - 10
                }
                &&& same_but_popup(
                    step.app,
                    AppModel { follow: false, scroll: step.app.scroll, ..app },
                )
            }
            &&& key.code == KeyCode::PageDown ==> {
                &&& step.effects.len() == 0
                &&& step.app.scroll == if app.scroll > 65525 {
                    65535
                } else {
                    app.scroll + 10
                }
                &&& same_but_popup(step.app, AppModel { scroll: step.app.scroll, ..app })
            }
            &&& key.code == KeyCode::End ==> {
                &&& step.effects.len() == 0
                &&& same_but_popup(
                    step.app,
                    if nothing_typed(app) {
                        AppModel { follow: true, ..app }
                    } else {
                        AppModel { input: outside.typed, ..app }
                    },
                )
            }
        }),
{
    blank_input_is_white_space(app);
}

/// Whether the key has a meaning of its own.
pub open spec fn has_a_meaning(key: KeyEvent) -> bool {
    match key.code {
        KeyCode::Char('?') => true,
        KeyCode::Char(_) => key.ctrl,
        KeyCode::Enter | KeyCode::Esc | KeyCode::End | KeyCode::PageUp | KeyCode::PageDown
        | KeyCode::Tab | KeyCode::BackTab => true,
        _ => false,
    }
}

/// Every other key goes to the input line, and does nothing else.
pub proof fn other_keys_are_typed(app: AppModel, key: KeyEvent, outside: Outside)
    requires
        reaches_input(app, key),
        !has_a_meaning(key),
    ensures
        pressed(app, key, outside).effects.len() == 0,
        same_but_popup(
            pressed(app, key, outside).app,
            AppModel { input: outside.typed, ..app },
        ),
{
}

/// Whether this is a tool card.
pub open spec fn is_card(app: AppModel, i: int) -> bool {
    0 <= i < app.items.len() && app.items[i] is Tool
}

/// Whether this is the last tool card.
pub open spec fn is_last_card(app: AppModel, i: int) -> bool {
    is_card(app, i) && forall|j: int| i < j < app.items.len() ==> !(#[trigger] app.items[j] is Tool)
}

/// Whether this card comes next behind that one.
pub open spec fn is_next_card(app: AppModel, at: int, i: int) -> bool {
    is_card(app, i) && at < i && forall|j: int|
        at < j < i ==> !(#[trigger] app.items[j] is Tool)
}

/// Whether the card's details are shown where they were hidden, or the other way round,
/// and nothing else of the transcript changes.
pub open spec fn is_flipped(before: AppModel, after: AppModel, at: int) -> bool {
    &&& after.items.len() == before.items.len()
    &&& forall|j: int|
        0 <= j < before.items.len() && j != at ==> #[trigger] after.items[j] == before.items[j]
    &&& after.items[at] matches ItemModel::Tool(card) && card.view
        == before.items[at]->Tool_0.view && card.expanded != before.items[at]->Tool_0.expanded
}

/// How many cards are before this item.
spec fn rank(app: AppModel, i: int) -> int {
    card_positions(app.items.take(i)).len() as int
}

proof fn lemma_rank(items: Seq<ItemModel>, at: int)
    requires
        0 <= at < items.len(),
        items[at] is Tool,
    ensures
        card_positions(items.take(at)).len() < card_positions(items).len(),
        card_positions(items)[card_positions(items.take(at)).len() as int] == at,
    decreases items.len(),
{
    let fewer = items.drop_last();
    if at < fewer.len() {
        lemma_rank(fewer, at);
        assert(fewer.take(at) =~= items.take(at));
    } else {
        assert(items.take(at) =~= fewer);
    }
}

/// Where there is no card between two items, the second has no more cards before it
/// than the first, but for the first itself.
proof fn lemma_rank_between(items: Seq<ItemModel>, a: int, b: int)
    requires
        0 <= a < b <= items.len(),
        forall|j: int| a < j < b ==> !(#[trigger] items[j] is Tool),
    ensures
        card_positions(items.take(b)).len() == card_positions(items.take(a)).len() + if items[a]
            is Tool {
            1int
        } else {
            0
        },
    decreases b - a,
{
    assert(items.take(b).drop_last() =~= items.take(b - 1));
    assert(items.take(b).last() == items[b - 1]);
    if a + 1 < b {
        lemma_rank_between(items, a, b - 1);
        assert(!(items[b - 1] is Tool));
    }
}

proof fn lemma_card_order(app: AppModel, at: int, i: int)
    ensures
        is_card(app, i) ==> 0 <= rank(app, i) < card_positions(app.items).len() && card_positions(
            app.items,
        )[rank(app, i)] == i,
        is_card(app, at) ==> 0 <= rank(app, at) < card_positions(app.items).len()
            && card_positions(app.items)[rank(app, at)] == at,
        is_card(app, at) && is_next_card(app, at, i) ==> rank(app, i) == rank(app, at) + 1,
        is_last_card(app, i) ==> rank(app, i) + 1 == card_positions(app.items).len(),
        is_last_card(app, at) ==> rank(app, at) + 1 == card_positions(app.items).len(),
        is_card(app, at) && (forall|j: int| 0 <= j < at ==> !(#[trigger] app.items[j] is Tool))
            ==> rank(app, at) == 0,
        (forall|j: int| !is_card(app, j)) ==> card_positions(app.items).len() == 0,
{
    let items = app.items;
    let n = items.len() as int;
    assert(items.take(n) =~= items);
    assert(items.take(0) =~= Seq::empty());
    if is_card(app, i) {
        lemma_rank(items, i);
        if is_last_card(app, i) {
            lemma_rank_between(items, i, n);
        }
    }
    if is_card(app, at) {
        lemma_rank(items, at);
        if is_last_card(app, at) {
            lemma_rank_between(items, at, n);
        }
        if is_next_card(app, at, i) {
            lemma_rank_between(items, at, i);
        }
        if at > 0 && forall|j: int| 0 <= j < at ==> !(#[trigger] items[j] is Tool) {
            lemma_rank_between(items, 0, at);
            assert(!(items[0] is Tool));
        }
    }
    if forall|j: int| !is_card(app, j) {
        if card_positions(items).len() > 0 {
            lemma_card_positions(items);
            assert(is_card(app, card_positions(items)[0]));
        }
    }
}

/// Tab goes to the next tool card; from the last one it goes nowhere, but shows that
/// card's details or hides them again. From anywhere else it goes to the last card.
pub proof fn tab_walks_forward(
    app: AppModel,
    key: KeyEvent,
    at: int,
    i: int,
    outside: Outside,
)
    requires
        reaches_input(app, key),
        key.code == KeyCode::Tab && !key.ctrl && !key.alt,
    ensures
        ({
            let step = pressed(app, key, outside);
            &&& step.effects.len() == 0
            &&& app.focused_tool == Some(at) && is_card(app, at) && is_next_card(app, at, i)
                ==> same_but_popup(
                step.app,
                AppModel { focused_tool: Some(i), follow: false, ..app },
            )
            &&& app.focused_tool == Some(at) && is_last_card(app, at) ==> {
                &&& is_flipped(app, step.app, at)
                &&& same_but_popup(step.app, AppModel { items: step.app.items, ..app })
            }
            &&& app.focused_tool is None && is_last_card(app, i) ==> same_but_popup(
                step.app,
                AppModel { focused_tool: Some(i), follow: false, ..app },
            )
            &&& (forall|j: int| !is_card(app, j)) ==> same_but_popup(step.app, app)
        }),
{
    lemma_card_order(app, at, i);
}

/// Shift+Tab goes to the tool card before; from the first it goes round to the last, and
/// where there is only one it shows or hides its details. Without a focus it goes to the
/// last.
pub proof fn back_tab_walks_backward(
    app: AppModel,
    key: KeyEvent,
    at: int,
    i: int,
    outside: Outside,
)
    requires
        reaches_input(app, key),
        key.code == KeyCode::BackTab,
    ensures
        ({
            let step = pressed(app, key, outside);
            &&& step.effects.len() == 0
            &&& app.focused_tool == Some(at) && is_card(app, at) && is_next_card(app, i, at)
                && is_card(app, i) ==> same_but_popup(
                step.app,
                AppModel { focused_tool: Some(i), follow: false, ..app },
            )
            &&& app.focused_tool == Some(at) && is_card(app, at) && (forall|j: int|
                0 <= j < at ==> !(#[trigger] app.items[j] is Tool)) && is_last_card(app, i) && i
                != at ==> same_but_popup(
                step.app,
                AppModel { focused_tool: Some(i), follow: false, ..app },
            )
            &&& app.focused_tool == Some(at) && is_last_card(app, at) && (forall|j: int|
                0 <= j < at ==> !(#[trigger] app.items[j] is Tool)) ==> {
                &&& is_flipped(app, step.app, at)
                &&& same_but_popup(
                    step.app,
                    AppModel { items: step.app.items, follow: false, ..app },
                )
            }
            &&& app.focused_tool is None && is_last_card(app, i) ==> same_but_popup(
                step.app,
                AppModel { focused_tool: Some(i), follow: false, ..app },
            )
            &&& (forall|j: int| !is_card(app, j)) ==> same_but_popup(step.app, app)
        }),
{
    lemma_card_order(app, at, i);
    lemma_card_order(app, i, at);
}

} // verus!
