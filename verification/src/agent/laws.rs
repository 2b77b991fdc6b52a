//! What becomes of what the agent says.

use crate::agent::acp::{
    agent_action, all_declared, declared, exit_event, permission_kind_name, permission_request,
    plan_status_name, pretty_text, reported, shown_call, shown_change, shown_options, shown_plan,
    stop_reason_name, tool_kind_name, tool_status_name, turn_event, understood, AgentAction,
    Content, McpServerKind, PermissionKind, PermissionOption, PlanEntry, PlanStatus, SessionUpdate,
    StopReason, ToolCall, ToolCallChange, ToolKind, ToolStatus,
};
use crate::agent::goose::GooseSpawn;
use crate::app::model::{AppModel, EffectModel, Outside};
use crate::cli::output_laws::{failed_tools_are_named, in_color, is_noted, is_silent, talks};
use crate::cli::run::{NextModel, RunEventModel, RunnerModel};
use crate::cli::run_laws::{
    answers_mean_what_the_prompt_says, asks_for_leave, first_of, is_offered, outcome_in,
    questions_are_decided, says, takes, the_first_of_a_kind_is_picked,
};
use crate::cli::ui::UiModel;
use crate::config::{Config, McpServerModel};
use crate::event::{
    AcpCommand, AcpEvent, AcpEventModel, AppEventModel, KeyCode, KeyEvent, PermissionOptionModel,
    PermissionOutcomeModel, TermEvent,
};
use crate::text::{blank, has_part};
use crate::text_laws::parts_stand_between_the_rest;
use vstd::prelude::*;

verus! {

/// Whether the option is the first of its kind that the agent offers.
pub open spec fn is_first(options: Seq<PermissionOption>, kind: PermissionKind, i: int) -> bool {
    &&& 0 <= i < options.len()
    &&& options[i].kind == kind
    &&& forall|j: int| 0 <= j < i ==> #[trigger] options[j].kind != kind
}

/// Whether the agent offers an option of this kind.
pub open spec fn offers_kind(options: Seq<PermissionOption>, kind: PermissionKind) -> bool {
    exists|i: int| 0 <= i < options.len() && #[trigger] options[i].kind == kind
}

/// The names of the kinds of options are told apart.
proof fn lemma_kind_names(a: PermissionKind, b: PermissionKind)
    ensures
        permission_kind_name(a) == permission_kind_name(b) ==> a == b,
{
    reveal_strlit("allow_once");
    reveal_strlit("allow_always");
    reveal_strlit("reject_once");
    reveal_strlit("reject_always");
    reveal_strlit("other");
    assert("allow_once"@[0] == 'a' && "reject_once"@[0] == 'r' && "other"@[0] == 'o');
    assert("allow_always"@[0] == 'a' && "reject_always"@[0] == 'r');
    assert("allow_once"@.len() != "allow_always"@.len());
    assert("reject_once"@.len() != "reject_always"@.len());
}

/// The first option of a kind stays the first of its kind when it is shown.
proof fn lemma_shown_first(options: Seq<PermissionOption>, kind: PermissionKind)
    ensures
        forall|i: int|
            is_first(options, kind, i) <==> #[trigger] first_of(
                shown_options(options),
                permission_kind_name(kind),
                i,
            ),
        offers_kind(options, kind) <==> is_offered(
            shown_options(options),
            permission_kind_name(kind),
        ),
{
    let shown = shown_options(options);
    let name = permission_kind_name(kind);
    assert forall|i: int| 0 <= i < options.len() implies (#[trigger] shown[i].kind == name <==> (
    #[trigger] options[i]).kind == kind) by {
        lemma_kind_names(options[i].kind, kind);
    }
    assert forall|i: int| is_first(options, kind, i) <==> #[trigger] first_of(shown, name, i) by {
        if is_first(options, kind, i) {
            assert(shown[i].kind == name);
            assert forall|j: int| 0 <= j < i implies #[trigger] shown[j].kind != name by {
                assert(options[j].kind != kind);
            }
        }
        if first_of(shown, name, i) {
            assert(options[i].kind == kind);
            assert forall|j: int| 0 <= j < i implies #[trigger] options[j].kind != kind by {
                assert(shown[j].kind != name);
            }
        }
    }
    if offers_kind(options, kind) {
        let i = choose|i: int| 0 <= i < options.len() && #[trigger] options[i].kind == kind;
        assert(shown[i].kind == name);
    }
    if is_offered(shown, name) {
        let i = choose|i: int| 0 <= i < shown.len() && #[trigger] shown[i].kind == name;
        assert(options[i].kind == kind);
    }
}

/// A question shows every option that the agent offers, in order, under the agent's id
/// and name for it.
pub proof fn questions_show_every_option(options: Seq<PermissionOption>)
    ensures
        shown_options(options).len() == options.len(),
        forall|i: int|
            0 <= i < options.len() ==> {
                &&& (#[trigger] shown_options(options)[i]).id == options[i].id@
                &&& shown_options(options)[i].name == options[i].name@
            },
{
}

/// The letter that answers with an option of this kind.
pub open spec fn letter_for(kind: PermissionKind) -> char {
    match kind {
        PermissionKind::AllowOnce => 'y',
        PermissionKind::AllowAlways => 'a',
        PermissionKind::RejectOnce => 'n',
        PermissionKind::RejectAlways => 'N',
        PermissionKind::Other => ' ',
    }
}

/// From the agent's question to the answer: `y` answers with the first option that the
/// agent means to allow once, `a` with the first that allows always, `n` and `N` with
/// those that reject once and always. The box is closed, and nothing else changes. A
/// letter for which nothing is offered does nothing.
pub proof fn letters_answer_with_their_kind(
    app: AppModel,
    title: Seq<char>,
    options: Seq<PermissionOption>,
    request: u64,
    kind: PermissionKind,
    key: KeyEvent,
    outside: Outside,
)
    requires
        kind != PermissionKind::Other,
        key.code == KeyCode::Char(letter_for(kind)),
        key.press,
    ensures
        ({
            let asked = app.after(
                AppEventModel::Acp(
                    AcpEventModel::PermissionRequest {
                        title,
                        options: shown_options(options),
                        request,
                    },
                ),
                outside,
            ).app;
            let step = asked.after(AppEventModel::Term(TermEvent::Key(key)), outside);
            &&& forall|i: int| #[trigger]
                is_first(options, kind, i) ==> step.effects == seq![
                    EffectModel::AnswerPermission {
                        request,
                        outcome: PermissionOutcomeModel::Selected { option_id: options[i].id@ },
                    },
                ] && step.app == (AppModel { modal: None, ..app })
            &&& !offers_kind(options, kind) ==> step.effects.len() == 0 && step.app == asked
        }),
{
    let shown = shown_options(options);
    let name = permission_kind_name(kind);
    lemma_shown_first(options, kind);
    the_first_of_a_kind_is_picked(shown, name);
    if offers_kind(options, kind) {
        let at = choose|i: int|
            #[trigger] first_of(shown, name, i) && crate::app::model::picked(shown, name)->0
                == shown[i].id;
        assert forall|i: int| #[trigger] is_first(options, kind, i) implies i == at by {
            assert(first_of(shown, name, i));
            assert(shown[i].kind == name && shown[at].kind == name);
            if i < at {
                assert(shown[i].kind != name);
            } else if at < i {
                assert(shown[at].kind != name);
            }
        }
        assert(shown[at].id == options[at].id@);
    }
}

/// On the command line, too, the answers mean the agent's kinds: `y` and Enter allow
/// once, `a` always, `n` rejects once; leave that was given beforehand allows once, and
/// a run that cannot ask rejects once.
pub proof fn answers_take_the_kind_they_name(
    runner: RunnerModel,
    title: Seq<char>,
    options: Seq<PermissionOption>,
    request: u64,
    line: Seq<char>,
    i: int,
)
    requires
        runner.phase is Turn,
    ensures
        ({
            let asked = runner.after(
                RunEventModel::Agent(
                    AcpEventModel::PermissionRequest {
                        title,
                        options: shown_options(options),
                        request,
                    },
                ),
            );
            let told = asked.runner.after(RunEventModel::Line(Some(line)));
            let chosen = PermissionOutcomeModel::Selected { option_id: options[i].id@ };
            &&& runner.yes && is_first(options, PermissionKind::AllowOnce, i)
                ==> asked.deed.answer == Some((request, chosen))
            &&& !runner.yes && !runner.can_ask && is_first(options, PermissionKind::RejectOnce, i)
                ==> asked.deed.answer == Some((request, chosen))
            &&& !runner.yes && !runner.can_ask && !offers_kind(options, PermissionKind::RejectOnce)
                ==> asked.deed.answer == Some((request, PermissionOutcomeModel::Cancelled))
            &&& !runner.yes && runner.can_ask ==> {
                &&& asks_for_leave(asked.runner)
                &&& (says(line, "y"@) || blank(line)) && is_first(
                    options,
                    PermissionKind::AllowOnce,
                    i,
                ) ==> told.deed.answer == Some((request, chosen))
                &&& says(line, "a"@) && is_first(options, PermissionKind::AllowAlways, i)
                    ==> told.deed.answer == Some((request, chosen))
                &&& says(line, "n"@) && is_first(options, PermissionKind::RejectOnce, i)
                    ==> told.deed.answer == Some((request, chosen))
            }
        }),
{
    let shown = shown_options(options);
    lemma_shown_first(options, PermissionKind::AllowOnce);
    lemma_shown_first(options, PermissionKind::AllowAlways);
    lemma_shown_first(options, PermissionKind::RejectOnce);
    questions_are_decided(runner, title, shown, request, line);
    answers_mean_what_the_prompt_says(line, shown);
    lemma_one_first(shown, "allow_once"@, i);
    lemma_one_first(shown, "allow_always"@, i);
    lemma_one_first(shown, "reject_once"@, i);
    lemma_words_differ(line);
    if 0 <= i < options.len() {
        assert(shown[i].id == options[i].id@);
    }
    let asked = runner.after(
        RunEventModel::Agent(AcpEventModel::PermissionRequest { title, options: shown, request }),
    );
    let told = asked.runner.after(RunEventModel::Line(Some(line)));
    assert(is_first(options, PermissionKind::AllowOnce, i) ==> is_offered(shown, "allow_once"@));
    assert(is_first(options, PermissionKind::AllowAlways, i) ==> is_offered(
        shown,
        "allow_always"@,
    ));
    assert(is_first(options, PermissionKind::RejectOnce, i) ==> is_offered(shown, "reject_once"@));
    if !runner.yes && runner.can_ask {
        assert(told.deed.answer == Some((request, outcome_in(told))));
    } else {
        assert(asked.deed.answer == Some((request, outcome_in(asked))));
    }
}

/// An outcome that takes the first option of a kind takes the one that is first.
proof fn lemma_one_first(options: Seq<PermissionOptionModel>, kind: Seq<char>, i: int)
    ensures
        first_of(options, kind, i) ==> forall|outcome: PermissionOutcomeModel| #[trigger]
            takes(outcome, options, kind) ==> outcome == (PermissionOutcomeModel::Selected {
                option_id: options[i].id,
            }),
        first_of(options, kind, i) ==> is_offered(options, kind),
{
    if first_of(options, kind, i) {
        assert(options[i].kind == kind);
        assert forall|outcome: PermissionOutcomeModel| #[trigger]
            takes(outcome, options, kind) implies outcome == (PermissionOutcomeModel::Selected {
            option_id: options[i].id,
        }) by {
            let j = choose|j: int|
                #[trigger] first_of(options, kind, j) && outcome
                    == (PermissionOutcomeModel::Selected { option_id: options[j].id });
            assert(options[j].kind == kind);
            if i < j {
                assert(options[i].kind != kind);
            } else if j < i {
                assert(options[j].kind != kind);
            }
        }
    }
}

/// A line says one word at most.
proof fn lemma_words_differ(line: Seq<char>)
    ensures
        says(line, "n"@) ==> !says(line, "y"@) && !says(line, "Y"@) && !says(line, "a"@) && !says(
            line,
            "A"@,
        ) && !blank(line),
        says(line, "a"@) ==> !says(line, "y"@) && !says(line, "Y"@) && !blank(line),
{
    reveal_strlit("n");
    reveal_strlit("y");
    reveal_strlit("Y");
    reveal_strlit("a");
    reveal_strlit("A");
    assert("n"@[0] == 'n' && "y"@[0] == 'y' && "Y"@[0] == 'Y' && "a"@[0] == 'a' && "A"@[0] == 'A');
    crate::cli::run_laws::lemma_says(line, "n"@);
    crate::cli::run_laws::lemma_says(line, "y"@);
    crate::cli::run_laws::lemma_says(line, "Y"@);
    crate::cli::run_laws::lemma_says(line, "a"@);
    crate::cli::run_laws::lemma_says(line, "A"@);
    crate::cli::run_laws::lemma_blank_line(line);
}

/// Each kind of option goes by its own name.
pub proof fn kinds_of_options_have_names(kind: PermissionKind)
    ensures
        permission_kind_name(kind) == "allow_once"@ <==> kind == PermissionKind::AllowOnce,
        permission_kind_name(kind) == "allow_always"@ <==> kind == PermissionKind::AllowAlways,
        permission_kind_name(kind) == "reject_once"@ <==> kind == PermissionKind::RejectOnce,
        permission_kind_name(kind) == "reject_always"@ <==> kind == PermissionKind::RejectAlways,
        permission_kind_name(kind) == "other"@ <==> kind == PermissionKind::Other,
{
    lemma_kind_names(kind, PermissionKind::AllowOnce);
    lemma_kind_names(kind, PermissionKind::AllowAlways);
    lemma_kind_names(kind, PermissionKind::RejectOnce);
    lemma_kind_names(kind, PermissionKind::RejectAlways);
    lemma_kind_names(kind, PermissionKind::Other);
}

/// Text that the agent says or thinks is passed on as it is; a block without text means
/// nothing here.
pub proof fn texts_are_passed_on(update: SessionUpdate)
    ensures
        match update {
            SessionUpdate::AgentMessageChunk(Content::Text(t)) => understood(update) == Some(
                AcpEventModel::MessageChunk(t@),
            ),
            SessionUpdate::AgentThoughtChunk(Content::Text(t)) => understood(update) == Some(
                AcpEventModel::ThoughtChunk(t@),
            ),
            SessionUpdate::AgentMessageChunk(Content::Other) => understood(update) is None,
            SessionUpdate::AgentThoughtChunk(Content::Other) => understood(update) is None,
            SessionUpdate::ToolCall(_) => understood(update) matches Some(
                AcpEventModel::ToolCall(_),
            ),
            SessionUpdate::ToolCallUpdate(_) => understood(update) matches Some(
                AcpEventModel::ToolCallUpdate(_),
            ),
            SessionUpdate::Plan(_) => understood(update) matches Some(AcpEventModel::Plan(_)),
            SessionUpdate::Other => understood(update) is None,
        },
{
}

/// A tool call is shown under its id and title, with its input and output indented
/// where it has them.
pub proof fn tool_calls_are_shown_as_they_are(tc: ToolCall)
    ensures
        understood(SessionUpdate::ToolCall(tc)) matches Some(AcpEventModel::ToolCall(view)) && {
            &&& view.id == tc.id@
            &&& view.title == tc.title@
            &&& view.kind == tool_kind_name(tc.kind)
            &&& view.status == tool_status_name(tc.status)
            &&& tc.raw_input matches Some(v) ==> view.raw_input == Some(pretty_text(v))
            &&& tc.raw_input is None ==> view.raw_input is None
            &&& tc.raw_output matches Some(v) ==> view.raw_output == Some(pretty_text(v))
            &&& tc.raw_output is None ==> view.raw_output is None
        },
        shown_call(tc).id == tc.id@,
{
}

/// A change to a tool call carries what the agent changed, and nothing that it did not.
pub proof fn changes_carry_what_changed(up: ToolCallChange)
    ensures
        understood(SessionUpdate::ToolCallUpdate(up)) matches Some(
            AcpEventModel::ToolCallUpdate(update),
        ) && {
            &&& update == shown_change(up)
            &&& update.id == up.id@
            &&& up.title matches Some(title) ==> update.title == Some(title@)
            &&& up.title is None ==> update.title is None
            &&& up.status matches Some(status) ==> update.status == Some(tool_status_name(status))
            &&& up.status is None ==> update.status is None
            &&& up.raw_input matches Some(v) ==> update.raw_input == Some(pretty_text(v))
            &&& up.raw_input is None ==> update.raw_input is None
            &&& up.raw_output matches Some(v) ==> update.raw_output == Some(pretty_text(v))
            &&& up.raw_output is None ==> update.raw_output is None
        },
{
}

/// A plan is shown entry by entry, in order, with the text and the progress of each.
pub proof fn plans_are_shown_entry_by_entry(entries: Vec<PlanEntry>)
    ensures
        understood(SessionUpdate::Plan(entries)) == Some(AcpEventModel::Plan(shown_plan(entries@))),
        shown_plan(entries@).len() == entries@.len(),
        forall|i: int|
            0 <= i < entries@.len() ==> {
                &&& (#[trigger] shown_plan(entries@)[i]).content == entries@[i].content@
                &&& shown_plan(entries@)[i].status == plan_status_name(entries@[i].status)
            },
{
}

/// Each kind of tool goes by its own name.
pub proof fn kinds_of_tools_have_names(kind: ToolKind)
    ensures
        tool_kind_name(kind) == match kind {
            ToolKind::Read => "read"@,
            ToolKind::Edit => "edit"@,
            ToolKind::Delete => "delete"@,
            ToolKind::Move => "move"@,
            ToolKind::Search => "search"@,
            ToolKind::Execute => "execute"@,
            ToolKind::Think => "think"@,
            ToolKind::Fetch => "fetch"@,
            ToolKind::Other => "other"@,
        },
{
}

/// Each status of a tool call, and of a plan entry, goes by its own name.
pub proof fn statuses_have_names(status: ToolStatus, progress: PlanStatus)
    ensures
        tool_status_name(status) == match status {
            ToolStatus::Pending => "pending"@,
            ToolStatus::InProgress => "in_progress"@,
            ToolStatus::Completed => "completed"@,
            ToolStatus::Failed => "failed"@,
            ToolStatus::Other => "unknown"@,
        },
        plan_status_name(progress) == match progress {
            PlanStatus::Pending => "pending"@,
            PlanStatus::InProgress => "in_progress"@,
            PlanStatus::Completed => "completed"@,
            PlanStatus::Other => "unknown"@,
        },
{
}

/// A tool that the agent reports as failed is named in red on the command line, and no
/// other change of its status is mentioned.
pub proof fn failures_of_tools_are_told(ui: UiModel, up: ToolCallChange)
    requires
        talks(ui),
    ensures
        up.status == Some(ToolStatus::Failed) ==> is_noted(
            ui,
            ui.tool_updated(shown_change(up)),
            in_color(
                ui,
                "31"@,
                "× "@ + ui.shortened(
                    if up.title is Some {
                        up.title->0@
                    } else {
                        up.id@
                    },
                ) + " failed"@,
            ),
        ),
        up.status != Some(ToolStatus::Failed) ==> is_silent(ui, ui.tool_updated(shown_change(up))),
{
    failed_tools_are_named(ui, shown_change(up));
    reveal_strlit("pending");
    reveal_strlit("in_progress");
    reveal_strlit("completed");
    reveal_strlit("failed");
    reveal_strlit("unknown");
    assert("failed"@.len() == 6 && "pending"@.len() == 7 && "in_progress"@.len() == 11
        && "completed"@.len() == 9 && "unknown"@.len() == 7);
}

/// A turn that the agent reports as cancelled makes a run with a prompt of its own exit
/// with status two; any other end of the turn leaves the status as it was. Why a turn
/// ended is mentioned unless it just ended.
pub proof fn cancelled_turns_have_their_own_status(runner: RunnerModel, reason: StopReason)
    requires
        runner.phase is Turn,
        !runner.interactive,
    ensures
        ({
            let step = runner.after(
                RunEventModel::Agent(
                    AcpEventModel::TurnEnded { stop_reason: stop_reason_name(reason) },
                ),
            );
            step.runner.next() == NextModel::Exit(
                if reason == StopReason::Cancelled {
                    2
                } else {
                    runner.code
                },
            )
        }),
        stop_reason_name(reason) == "end_turn"@ <==> reason == StopReason::EndTurn,
        reason == StopReason::MaxTokens ==> stop_reason_name(reason) == "max_tokens"@,
        reason == StopReason::MaxTurnRequests ==> stop_reason_name(reason) == "max_turn_requests"@,
        reason == StopReason::Refusal ==> stop_reason_name(reason) == "refusal"@,
        reason == StopReason::Other ==> stop_reason_name(reason) == "unknown"@,
{
    reveal_strlit("end_turn");
    reveal_strlit("max_tokens");
    reveal_strlit("max_turn_requests");
    reveal_strlit("refusal");
    reveal_strlit("cancelled");
    reveal_strlit("unknown");
    assert("cancelled"@.len() == 9 && "end_turn"@.len() == 8 && "max_tokens"@.len() == 10
        && "max_turn_requests"@.len() == 17 && "refusal"@.len() == 7 && "unknown"@.len() == 7);
}

/// An error that speaks of authentication, anywhere in its text, is reported as such
/// with its text; any other is a turn that failed, with its text behind that.
pub proof fn trouble_with_the_key_is_told_apart(
    text: Seq<char>,
    before: Seq<char>,
    after: Seq<char>,
    other: Seq<char>,
)
    requires
        forall|x: Seq<char>, y: Seq<char>| other != #[trigger] (x + "auth"@ + y),
    ensures
        reported(text, before + "auth"@ + after) == AcpEventModel::AuthRequired(text),
        reported(text, other) == AcpEventModel::Error("agent turn failed: "@ + text),
{
    parts_stand_between_the_rest(before, "auth"@, after);
    if has_part(other, "auth"@) {
        let (x, y) = choose|x: Seq<char>, y: Seq<char>| other == #[trigger] (x + "auth"@ + y);
        assert(other == x + "auth"@ + y);
    }
}

/// The servers of tools that are declared are told to the agent one by one, in order.
pub proof fn servers_are_told_in_order(a: Seq<McpServerModel>, b: Seq<McpServerModel>)
    ensures
        all_declared(a + b) == all_declared(a) + all_declared(b),
    decreases b.len(),
{
    if b.len() > 0 {
        servers_are_told_in_order(a, b.drop_last());
        assert((a + b).drop_last() =~= a + b.drop_last());
        assert(all_declared(a + b) =~= all_declared(a) + all_declared(b));
    } else {
        assert(a + b =~= a);
        assert(all_declared(a) + all_declared(b) =~= all_declared(a));
    }
}

/// A declared server is a program, if it has a command and speaks over its streams, or a
/// place on the net, if it has an address and speaks HTTP; otherwise the agent is not
/// told about it.
pub proof fn complete_servers_are_told(d: McpServerModel)
    ensures
        d.transport == "stdio"@ && d.command is Some ==> all_declared(seq![d]) == seq![
            McpServerKind::Stdio {
                name: d.name,
                command: d.command->0,
                args: d.args,
                env: d.env,
            },
        ],
        d.transport == "http"@ && d.url is Some ==> all_declared(seq![d]) == seq![
            McpServerKind::Http { name: d.name, url: d.url->0, headers: d.env },
        ],
        !(d.transport == "stdio"@ && d.command is Some) && !(d.transport == "http"@ && d.url
            is Some) ==> all_declared(seq![d]) == Seq::<McpServerKind>::empty(),
{
    reveal_strlit("stdio");
    reveal_strlit("http");
    assert("stdio"@.len() == 5 && "http"@.len() == 4);
    assert(seq![d].drop_last() =~= Seq::empty());
    assert(all_declared(seq![d].drop_last()) =~= Seq::empty());
    if let Some(server) = declared(d) {
        assert(Seq::<McpServerKind>::empty().push(server) =~= seq![server]);
    }
}

/// A question of the agent keeps its number and its title, and one without a title gets
/// one; its options are shown as they are.
pub proof fn questions_keep_their_number(
    title: Option<String>,
    options: &Vec<PermissionOption>,
    request: u64,
    event: AcpEvent,
)
    requires
        call_ensures(permission_request, (title, options, request), event),
    ensures
        event.deep_view() matches AcpEventModel::PermissionRequest {
            title: shown,
            options: offered,
            request: number,
        } && {
            &&& number == request
            &&& title is Some ==> shown == title->0@
            &&& title is None ==> shown == "The agent wants to run a tool"@
            &&& offered.len() == options@.len()
            &&& forall|i: int|
                0 <= i < offered.len() ==> {
                    &&& (#[trigger] offered[i]).id == options@[i].id@
                    &&& offered[i].name == options@[i].name@
                    &&& options@[i].kind == PermissionKind::AllowOnce ==> offered[i].kind
                        == "allow_once"@
                    &&& options@[i].kind == PermissionKind::AllowAlways ==> offered[i].kind
                        == "allow_always"@
                    &&& options@[i].kind == PermissionKind::RejectOnce ==> offered[i].kind
                        == "reject_once"@
                    &&& options@[i].kind == PermissionKind::RejectAlways ==> offered[i].kind
                        == "reject_always"@
                }
        },
{
}

/// A turn that the agent ends is reported with its reason, and one that fails with its
/// error; an agent that stops is reported as gone, with its error if it had one.
pub proof fn ends_are_reported(
    reason: StopReason,
    error: String,
    ended: AcpEvent,
    stopped: AcpEvent,
    broken: AcpEvent,
)
    requires
        call_ensures(turn_event, (Ok(reason),), ended),
        call_ensures(exit_event, (Ok(()),), stopped),
        call_ensures(exit_event, (Err(error),), broken),
    ensures
        ended.deep_view() == (AcpEventModel::TurnEnded { stop_reason: stop_reason_name(reason) }),
        reason == StopReason::EndTurn ==> ended.deep_view() == (AcpEventModel::TurnEnded {
            stop_reason: "end_turn"@,
        }),
        stopped.deep_view() == AcpEventModel::Exited("shut down"@),
        broken.deep_view() == AcpEventModel::Exited(error@),
{
}

/// A prompt is sent on as it is, a cancellation is sent on, and a shutdown, or the end of
/// the commands, stops the agent.
pub proof fn commands_are_passed_on(
    text: String,
    sent: AgentAction,
    cancelled: AgentAction,
    shut: AgentAction,
    over: AgentAction,
)
    requires
        call_ensures(agent_action, (Some(AcpCommand::Prompt { text }),), sent),
        call_ensures(agent_action, (Some(AcpCommand::Cancel),), cancelled),
        call_ensures(agent_action, (Some(AcpCommand::Shutdown),), shut),
        call_ensures(agent_action, (None,), over),
    ensures
        sent == AgentAction::SendPrompt(text),
        cancelled is SendCancel,
        shut is Stop,
        over is Stop,
{
}

/// Goose is set up from the settings, and asks before it uses a tool unless it is told
/// otherwise.
pub proof fn goose_asks_by_default(
    config: &Config,
    binary: String,
    proxy: String,
    key: String,
    spawn: GooseSpawn,
)
    requires
        call_ensures(GooseSpawn::from_config, (config, binary, proxy, key), spawn),
    ensures
        spawn.approve,
        spawn.binary == binary,
        spawn.proxy_base_url == proxy,
        spawn.api_key == key,
        spawn.model@ == config.agent.model@,
        spawn.builtins.deep_view() == config.agent.builtins.deep_view(),
        spawn.mcp_servers.deep_view() == config.agent.mcp_servers.deep_view(),
{
}

} // verus!
