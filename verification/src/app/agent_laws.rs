//! What the agent's events make of the transcript.

use crate::app::model::{last_card, AppModel, EffectModel, ItemModel, ModalModel, Outside, Step};
use crate::event::{
    AcpEventModel, AppEventModel, PermissionOptionModel, PermissionOutcomeModel, PlanEntryModel,
    ToolCallModel, ToolCallUpdateModel,
};
use vstd::prelude::*;

verus! {

/// What an event of the agent does.
pub open spec fn told(app: AppModel, event: AcpEventModel, outside: Outside) -> Step {
    app.after(AppEventModel::Acp(event), outside)
}

/// Whether only the transcript changes, and nothing is asked of the main loop.
pub open spec fn only_the_transcript(before: AppModel, step: Step) -> bool {
    step.effects.len() == 0 && step.app == (AppModel { items: step.app.items, ..before })
}

/// Whether this is the newest card of the tool call.
pub open spec fn is_newest_card(items: Seq<ItemModel>, id: Seq<char>, at: int) -> bool {
    &&& 0 <= at < items.len()
    &&& items[at] is Tool
    &&& items[at]->Tool_0.view.id == id
    &&& forall|j: int|
        at < j < items.len() && #[trigger] items[j] is Tool ==> items[j]->Tool_0.view.id != id
}

/// Whether no card is of this tool call.
pub open spec fn has_no_card(items: Seq<ItemModel>, id: Seq<char>) -> bool {
    forall|j: int|
        0 <= j < items.len() && #[trigger] items[j] is Tool ==> items[j]->Tool_0.view.id != id
}

/// The newest card of a tool call is found, if there is one.
pub proof fn the_newest_card_is_found(items: Seq<ItemModel>, id: Seq<char>)
    ensures
        match last_card(items, id) {
            Some(at) => is_newest_card(items, id, at),
            None => has_no_card(items, id),
        },
    decreases items.len(),
{
    if items.len() > 0 && !(items.last() is Tool && items.last()->Tool_0.view.id == id) {
        let fewer = items.drop_last();
        the_newest_card_is_found(fewer, id);
        match last_card(fewer, id) {
            Some(at) => {
                assert(items[at] == fewer[at]);
                assert forall|j: int|
                    at < j < items.len() && #[trigger] items[j] is Tool implies items[j]->Tool_0.view.id
                    != id by {
                    if j < fewer.len() {
                        assert(items[j] == fewer[j]);
                    }
                }
            },
            None => {
                assert forall|j: int|
                    0 <= j < items.len() && #[trigger] items[j] is Tool implies items[j]->Tool_0.view.id
                    != id by {
                    if j < fewer.len() {
                        assert(items[j] == fewer[j]);
                    }
                }
            },
        }
    }
}

/// An update changes the newest card of its tool call: the title, the status, the input
/// and the output are the update's where it brings one, and otherwise what they were.
/// The id, the kind and whether the card is unfolded stay, and so does every other item.
/// An update of an unknown tool call changes nothing.
pub proof fn updates_change_what_they_bring(
    app: AppModel,
    update: ToolCallUpdateModel,
    at: int,
    outside: Outside,
)
    ensures
        ({
            let step = told(app, AcpEventModel::ToolCallUpdate(update), outside);
            &&& only_the_transcript(app, step)
            &&& has_no_card(app.items, update.id) ==> step.app == app
            &&& is_newest_card(app.items, update.id, at) ==> {
                let before = app.items[at]->Tool_0;
                &&& step.app.items.len() == app.items.len()
                &&& forall|j: int|
                    0 <= j < app.items.len() && j != at ==> #[trigger] step.app.items[j]
                        == app.items[j]
                &&& step.app.items[at] matches ItemModel::Tool(after) && {
                    &&& after.expanded == before.expanded
                    &&& after.view.id == before.view.id
                    &&& after.view.kind == before.view.kind
                    &&& update.title matches Some(title) ==> after.view.title == title
                    &&& update.title is None ==> after.view.title == before.view.title
                    &&& update.status matches Some(status) ==> after.view.status == status
                    &&& update.status is None ==> after.view.status == before.view.status
                    &&& update.raw_input is Some ==> after.view.raw_input == update.raw_input
                    &&& update.raw_input is None ==> after.view.raw_input == before.view.raw_input
                    &&& update.raw_output is Some ==> after.view.raw_output == update.raw_output
                    &&& update.raw_output is None ==> after.view.raw_output
                        == before.view.raw_output
                }
            }
        }),
{
    the_newest_card_is_found(app.items, update.id);
    if let Some(found) = last_card(app.items, update.id) {
        assert(app.items[found] is Tool);
        if is_newest_card(app.items, update.id, at) {
            assert(app.items[at] is Tool);
            assert(found == at);
        }
    } else {
        if is_newest_card(app.items, update.id, at) {
            assert(app.items[at] is Tool);
        }
    }
}

/// Two updates that bring different things both last: what the first brought is still
/// there after the second, where the second does not bring the same.
pub proof fn updates_add_up(
    app: AppModel,
    first: ToolCallUpdateModel,
    second: ToolCallUpdateModel,
    at: int,
    outside: Outside,
)
    requires
        first.id == second.id,
        is_newest_card(app.items, first.id, at),
    ensures
        ({
            let once = told(app, AcpEventModel::ToolCallUpdate(first), outside).app;
            let twice = told(once, AcpEventModel::ToolCallUpdate(second), outside).app;
            let view = twice.items[at]->Tool_0.view;
            &&& first.raw_input is Some && second.raw_input is None ==> view.raw_input
                == first.raw_input
            &&& first.raw_output is Some && second.raw_output is None ==> view.raw_output
                == first.raw_output
            &&& first.status is Some && second.status is None ==> Some(view.status)
                == first.status
            &&& first.title is Some && second.title is None ==> Some(view.title) == first.title
        }),
{
    let once = told(app, AcpEventModel::ToolCallUpdate(first), outside).app;
    updates_change_what_they_bring(app, first, at, outside);
    assert(is_newest_card(once.items, first.id, at)) by {
        assert forall|j: int|
            at < j < once.items.len() && #[trigger] once.items[j] is Tool implies once.items[j]->Tool_0.view.id
            != first.id by {
            assert(once.items[j] == app.items[j]);
        }
    }
    updates_change_what_they_bring(once, second, at, outside);
}

/// Whether two items are the same but for a reply that no longer streams.
pub open spec fn same_but_settled(before: ItemModel, after: ItemModel) -> bool {
    match before {
        ItemModel::Assistant { id, md, revision, .. } => after == (ItemModel::Assistant {
            id,
            md,
            revision,
            streaming: false,
        }),
        _ => after == before,
    }
}

/// Whether two items are the same but for a thought that is folded away.
pub open spec fn same_but_folded(before: ItemModel, after: ItemModel) -> bool {
    match before {
        ItemModel::Thought { text, .. } => after == (ItemModel::Thought { text, collapsed: true }),
        _ => after == before,
    }
}

/// Whether the last item is settled and every other stays as it was.
pub open spec fn settles_the_last(before: Seq<ItemModel>, after: Seq<ItemModel>) -> bool {
    &&& after.len() == before.len()
    &&& forall|j: int| 0 <= j < before.len() - 1 ==> #[trigger] after[j] == before[j]
    &&& before.len() > 0 ==> same_but_settled(before.last(), after.last())
}

/// A tool call becomes a card of its own at the end of the transcript, as it came and
/// folded; a reply before it is complete.
pub proof fn tool_calls_become_cards(app: AppModel, view: ToolCallModel, outside: Outside)
    ensures
        ({
            let step = told(app, AcpEventModel::ToolCall(view), outside);
            &&& only_the_transcript(app, step)
            &&& step.app.items.len() == app.items.len() + 1
            &&& step.app.items.last() matches ItemModel::Tool(card) && card.view == view
                && !card.expanded
            &&& settles_the_last(app.items, step.app.items.drop_last())
        }),
{
}

/// Whether the transcript ends with a thought that is not folded away.
pub open spec fn is_thinking(app: AppModel) -> bool {
    app.items.len() > 0 && (app.items.last() matches ItemModel::Thought { collapsed, .. }
        && !collapsed)
}

/// Thoughts in a row are one thought, which is shown; the first of them begins it at the
/// end of the transcript, and a reply before it is complete.
pub proof fn thoughts_run_on(app: AppModel, text: Seq<char>, outside: Outside)
    ensures
        ({
            let step = told(app, AcpEventModel::ThoughtChunk(text), outside);
            &&& only_the_transcript(app, step)
            &&& is_thinking(step.app)
            &&& if is_thinking(app) {
                &&& step.app.items.len() == app.items.len()
                &&& step.app.items.drop_last() == app.items.drop_last()
                &&& step.app.items.last()->Thought_text == app.items.last()->Thought_text + text
            } else {
                &&& step.app.items.len() == app.items.len() + 1
                &&& step.app.items.last()->Thought_text == text
                &&& settles_the_last(app.items, step.app.items.drop_last())
            }
        }),
{
    let after = told(app, AcpEventModel::ThoughtChunk(text), outside).app.items;
    if is_thinking(app) {
        assert(after.drop_last() =~= app.items.drop_last());
    }
}

/// Whether the transcript ends with a reply that is still coming in.
pub open spec fn is_replying(app: AppModel) -> bool {
    app.items.len() > 0 && (app.items.last() matches ItemModel::Assistant { streaming, .. }
        && streaming)
}

/// What the agent says goes to the reply that is coming in, or begins one at the end of
/// the transcript, under an id of its own; a thought before it is folded away.
pub proof fn replies_run_on(app: AppModel, text: Seq<char>, outside: Outside)
    requires
        app.next_id < u64::MAX,
    ensures
        ({
            let step = told(app, AcpEventModel::MessageChunk(text), outside);
            &&& step.effects.len() == 0
            &&& is_replying(step.app)
            &&& if is_replying(app) {
                &&& step.app == (AppModel { items: step.app.items, ..app })
                &&& step.app.items.drop_last() == app.items.drop_last()
                &&& step.app.items.len() == app.items.len()
                &&& step.app.items.last()->Assistant_md == app.items.last()->Assistant_md + text
                &&& step.app.items.last()->Assistant_id == app.items.last()->Assistant_id
            } else {
                &&& step.app == (AppModel {
                    items: step.app.items,
                    next_id: (app.next_id + 1) as u64,
                    ..app
                })
                &&& step.app.items.len() == app.items.len() + 1
                &&& step.app.items.last()->Assistant_md == text
                &&& step.app.items.last()->Assistant_id == app.next_id + 1
                &&& forall|j: int|
                    0 <= j < app.items.len() - 1 ==> #[trigger] step.app.items[j] == app.items[j]
                &&& app.items.len() > 0 ==> same_but_folded(
                    app.items.last(),
                    step.app.items[app.items.len() - 1],
                )
            }
        }),
{
    let after = told(app, AcpEventModel::MessageChunk(text), outside).app.items;
    if is_replying(app) {
        assert(after.drop_last() =~= app.items.drop_last());
    }
}

/// A plan takes the place of the one before it, and the end of the turn takes it away.
pub proof fn plans_last_for_the_turn(
    app: AppModel,
    entries: Seq<PlanEntryModel>,
    stop_reason: Seq<char>,
    outside: Outside,
)
    ensures
        ({
            let planned = told(app, AcpEventModel::Plan(entries), outside);
            let ended = told(planned.app, AcpEventModel::TurnEnded { stop_reason }, outside);
            &&& planned.app == (AppModel { plan: entries, ..app })
            &&& planned.effects.len() == 0
            &&& ended.app.plan.len() == 0
        }),
{
}

/// The end of a turn: the agent is no longer busy, its reply is complete and its plan
/// gone. Why the turn ended is noted, unless it just ended.
pub proof fn ends_of_turns_are_noted(app: AppModel, stop_reason: Seq<char>, outside: Outside)
    ensures
        ({
            let step = told(app, AcpEventModel::TurnEnded { stop_reason }, outside);
            &&& step.effects.len() == 0
            &&& step.app == (AppModel {
                items: step.app.items,
                busy: false,
                plan: Seq::empty(),
                ..app
            })
            &&& if stop_reason == "end_turn"@ {
                settles_the_last(app.items, step.app.items)
            } else {
                &&& step.app.items.len() > 0
                &&& step.app.items.last() == ItemModel::Info("turn ended: "@ + stop_reason)
                &&& settles_the_last(app.items, step.app.items.drop_last())
            }
        }),
{
}

/// A failure ends the turn and is noted with its reason; trouble with the key is named
/// as such, and an agent that is gone is forgotten.
pub proof fn failures_are_noted(app: AppModel, text: Seq<char>, outside: Outside)
    ensures
        ({
            let failed = told(app, AcpEventModel::Error(text), outside);
            let refused = told(app, AcpEventModel::AuthRequired(text), outside);
            let gone = told(app, AcpEventModel::Exited(text), outside);
            &&& failed.effects.len() == 0 && refused.effects.len() == 0 && gone.effects.len() == 0
            &&& failed.app == (AppModel { items: failed.app.items, busy: false, ..app })
            &&& failed.app.items.len() > 0
            &&& failed.app.items.last() == ItemModel::Error(text)
            &&& settles_the_last(app.items, failed.app.items.drop_last())
            &&& refused.app == (AppModel {
                items: app.items.push(ItemModel::Error("goose provider auth problem: "@ + text)),
                busy: false,
                ..app
            })
            &&& gone.app == (AppModel {
                items: app.items.push(
                    ItemModel::Error(
                        "agent exited: "@ + text + " (Ctrl+T twice respawns)"@,
                    ),
                ),
                busy: false,
                agent_session: None,
                ..app
            })
        }),
{
}

/// A session of the agent that is ready is known by its id, and noted.
pub proof fn ready_sessions_are_noted(app: AppModel, session_id: Seq<char>, outside: Outside)
    ensures
        told(app, AcpEventModel::SessionReady { session_id }, outside).effects.len() == 0,
        told(app, AcpEventModel::SessionReady { session_id }, outside).app == (AppModel {
            agent_session: Some(session_id),
            items: app.items.push(ItemModel::Info("agent session ready"@)),
            ..app
        }),
{
}

/// A question is put on screen as it came, with its first option highlighted; one that
/// was on screen before is answered as cancelled. Nothing else changes.
pub proof fn questions_are_put_on_screen(
    app: AppModel,
    title: Seq<char>,
    options: Seq<PermissionOptionModel>,
    request: u64,
    outside: Outside,
)
    ensures
        ({
            let step = told(
                app,
                AcpEventModel::PermissionRequest { title, options, request },
                outside,
            );
            &&& step.app == (AppModel {
                modal: Some(ModalModel::Permission { title, options, selected: 0, request }),
                ..app
            })
            &&& step.effects == match app.modal {
                Some(ModalModel::Permission { request: earlier, .. }) => seq![
                    EffectModel::AnswerPermission {
                        request: earlier,
                        outcome: PermissionOutcomeModel::Cancelled,
                    },
                ],
                _ => Seq::empty(),
            }
        }),
{
}

} // verus!
