//! What the plain front ends do.

use crate::chat::types::ChatMessageModel;
use crate::cli::ui::OutModel;
use crate::driver::{
    chat_result, history_after_line, history_after_reply, models_result, oneshot_after,
    options_text, plan_text, AgentLinkModel, LinkActionModel, LinkEventModel,
};
use crate::event::{
    AcpCommandModel, AcpEventModel, AppEvent, AppEventModel, ChatEvent, ChatEventModel,
    PermissionOptionModel, PlanEntryModel, ToolCallModel, ToolCallUpdateModel,
};
use crate::text::{blank, decimal};
use crate::text_laws::{tight, trimming_takes_white_space_off};
use vstd::prelude::*;

verus! {

/// While the agent runs, a command goes to it at once, and nothing waits; one that does
/// not reach it means that the agent is gone, which is reported.
pub proof fn commands_go_to_a_running_agent(command: AcpCommandModel, waiting: Option<
    AcpCommandModel,
>)
    ensures
        ({
            let link = AgentLinkModel { running: true, waiting };
            let gone = AgentLinkModel { running: false, waiting };
            &&& link.after(LinkEventModel::Command(command)) == (link, LinkActionModel::Send(
                command,
            ))
            &&& link.after(LinkEventModel::Sent(true)) == (link, LinkActionModel::Nothing)
            &&& link.after(LinkEventModel::Sent(false)) == (
                gone,
                LinkActionModel::Report(
                    AcpEventModel::Error("agent connection lost; try again to respawn"@),
                ),
            )
        }),
{
}

/// An agent that cannot be started is reported with the reason, and the command that
/// waited for it is dropped; the next command tries again.
pub proof fn failed_starts_are_reported(
    link: AgentLinkModel,
    reason: Seq<char>,
    command: AcpCommandModel,
)
    ensures
        ({
            let (failed, action) = link.after(LinkEventModel::Started(Err(reason)));
            let (_, next) = failed.after(LinkEventModel::Command(command));
            let (_, idle) = failed.after(LinkEventModel::Started(Ok(())));
            &&& action == LinkActionModel::Report(AcpEventModel::Error(reason))
            &&& failed == (AgentLinkModel { running: false, waiting: None })
            &&& next == LinkActionModel::Start
            &&& idle == LinkActionModel::Nothing
        }),
{
}

/// A line of the plain conversation joins it as the user's message, without the white
/// space around it, and the reply joins it as the model's, as it is; white space alone
/// adds nothing.
pub proof fn the_conversation_alternates(
    history: Seq<ChatMessageModel>,
    before: Seq<char>,
    text: Seq<char>,
    after: Seq<char>,
    reply: Seq<char>,
    reason: Seq<char>,
)
    requires
        blank(before) && blank(after) && tight(text),
    ensures
        ({
            let asked = history_after_line(history, Some(before + text + after));
            let user = ChatMessageModel { role: "user"@, content: text };
            let model = ChatMessageModel { role: "assistant"@, content: reply };
            &&& text.len() == 0 ==> asked == history
            &&& text.len() > 0 ==> {
                &&& asked == history.push(user)
                &&& history_after_reply(asked, Ok(reply)) == history.push(user).push(model)
                &&& history_after_reply(asked, Err(reason)) == history
            }
            &&& history_after_line(history, None) == history
        }),
{
    trimming_takes_white_space_off(before, text, after);
    let user = ChatMessageModel { role: "user"@, content: text };
    assert(history.push(user).drop_last() =~= history);
}

/// Whether this text goes to stdout, and nothing else happens.
pub open spec fn only_writes(
    prompt: Seq<char>,
    prompted: bool,
    event: AcpEventModel,
    text: Seq<char>,
) -> bool {
    let step = oneshot_after(prompt, prompted, event);
    &&& step.out == seq![OutModel::Stdout(text)]
    &&& step.command is None
    &&& step.ask is None
    &&& !step.done
}

/// One turn is written down event by event: what the agent says as it is, and everything
/// else in a line that names it.
pub proof fn one_turn_is_written_down(
    prompt: Seq<char>,
    prompted: bool,
    text: Seq<char>,
    tc: ToolCallModel,
    up: ToolCallUpdateModel,
    entries: Seq<PlanEntryModel>,
)
    ensures
        only_writes(prompt, prompted, AcpEventModel::MessageChunk(text), text),
        only_writes(prompt, prompted, AcpEventModel::ThoughtChunk(text), "[thought] "@ + text),
        only_writes(
            prompt,
            prompted,
            AcpEventModel::ToolCall(tc),
            "\ntool-call "@ + tc.id + " "@ + tc.kind + " · "@ + tc.title + " · "@ + tc.status
                + "\n"@,
        ),
        up.status matches Some(status) ==> only_writes(
            prompt,
            prompted,
            AcpEventModel::ToolCallUpdate(up),
            "tool-update "@ + up.id + " · "@ + status + "\n"@,
        ),
        up.status is None ==> only_writes(
            prompt,
            prompted,
            AcpEventModel::ToolCallUpdate(up),
            "tool-update "@ + up.id + " · "@ + "?"@ + "\n"@,
        ),
        only_writes(prompt, prompted, AcpEventModel::Plan(entries), plan_text(entries)),
        only_writes(prompt, prompted, AcpEventModel::Error(text), "\nerror: "@ + text + "\n"@),
{
}

/// The prompt is sent when the agent is ready, and only once; the agent is told to go
/// when its turn has ended or it lacks its key, and it is over when the agent has gone.
pub proof fn one_turn_has_a_beginning_and_an_end(
    prompt: Seq<char>,
    prompted: bool,
    text: Seq<char>,
)
    ensures
        ({
            let ready = oneshot_after(
                prompt,
                prompted,
                AcpEventModel::SessionReady { session_id: text },
            );
            let ended = oneshot_after(
                prompt,
                prompted,
                AcpEventModel::TurnEnded { stop_reason: text },
            );
            let refused = oneshot_after(prompt, prompted, AcpEventModel::AuthRequired(text));
            let gone = oneshot_after(prompt, prompted, AcpEventModel::Exited(text));
            &&& ready.out == seq![OutModel::Stdout("session-ready "@ + text + "\n"@)]
            &&& !prompted ==> ready.command == Some(AcpCommandModel::Prompt { text: prompt })
            &&& prompted ==> ready.command is None
            &&& ended.out == seq![OutModel::Stdout("\nturn-ended "@ + text + "\n"@)]
            &&& ended.command == Some(AcpCommandModel::Shutdown)
            &&& refused.out == seq![OutModel::Stdout("\nauth-required: "@ + text + "\n"@)]
            &&& refused.command == Some(AcpCommandModel::Shutdown)
            &&& gone.out == seq![OutModel::Stdout("agent-exited: "@ + text + "\n"@)]
            &&& gone.command is None
            &&& gone.done && !ready.done && !ended.done && !refused.done
            &&& ready.ask is None && ended.ask is None && refused.ask is None && gone.ask is None
        }),
{
}

/// A question is written down with its options, and the user is asked.
pub proof fn questions_are_put_to_the_user(
    prompt: Seq<char>,
    prompted: bool,
    title: Seq<char>,
    options: Seq<PermissionOptionModel>,
    request: u64,
)
    ensures
        ({
            let step = oneshot_after(
                prompt,
                prompted,
                AcpEventModel::PermissionRequest { title, options, request },
            );
            &&& step.out == seq![
                OutModel::Stdout(options_text(title, options)),
                OutModel::Stderr("allow? [y/n] "@),
            ]
            &&& step.ask == Some((request, options))
            &&& step.command is None
            &&& !step.done
        }),
{
}

/// The options of a question stand below its title, each in a line with its number, its
/// name and its kind; the entries of a plan below its heading, each with its status.
pub proof fn lists_are_written_line_by_line(
    title: Seq<char>,
    options: Seq<PermissionOptionModel>,
    option: PermissionOptionModel,
    entries: Seq<PlanEntryModel>,
    entry: PlanEntryModel,
)
    ensures
        options_text(title, Seq::empty()) == "\npermission: "@ + title + "\n"@,
        options_text(title, options.push(option)) == options_text(title, options) + ("  "@
            + decimal(options.len()) + ": "@ + option.name + " ("@ + option.kind + ")\n"@),
        plan_text(Seq::empty()) == "plan:\n"@,
        plan_text(entries.push(entry)) == plan_text(entries) + ("  ["@ + entry.status + "] "@
            + entry.content + "\n"@),
{
    assert(options.push(option).drop_last() =~= options);
    assert(entries.push(entry).drop_last() =~= entries);
}

/// The end of a turn belongs to its turn, and so does its failure; a list of models that
/// cannot be had is told as an error.
pub proof fn results_belong_to_their_turn(
    turn: u64,
    message: String,
    models: Vec<String>,
    done: ChatEvent,
    failed: ChatEvent,
    listed: AppEvent,
    missing: AppEvent,
)
    requires
        call_ensures(chat_result, (turn, Ok(())), done),
        call_ensures(chat_result, (turn, Err(message)), failed),
        call_ensures(models_result, (Ok(models),), listed),
        call_ensures(models_result, (Err(message),), missing),
    ensures
        done.deep_view() == (ChatEventModel::Done { turn }),
        failed.deep_view() == (ChatEventModel::Error { turn, message: message@ }),
        listed.deep_view() == AppEventModel::Models(models.deep_view()),
        missing.deep_view() == AppEventModel::Chat(
            ChatEventModel::Error { turn: 0, message: "could not list models: "@ + message@ },
        ),
{
}

} // verus!
