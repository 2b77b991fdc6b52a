//! What the runner writes about what.

use crate::cli::run::{model_told, opened, PhaseModel, RunEventModel, RunnerModel};
use crate::cli::ui::{json_text, offers, JsonModel, OutModel, Said, UiModel};
use crate::event::{
    plan_glyph, AcpEventModel, PermissionOptionModel, PlanEntryModel, ToolCallModel,
    ToolCallUpdateModel,
};
use crate::text::{has_part, joined};
use crate::text_laws::{nothing_else_is_taken_out, taking_out_a_part_keeps_the_rest};
use vstd::prelude::*;

verus! {

/// Whether the output is for people, and not quiet.
pub open spec fn talks(ui: UiModel) -> bool {
    !ui.json && !ui.quiet
}

/// How many lines are open.
pub open spec fn open_lines(ui: UiModel) -> int {
    (if ui.mid_answer {
        1int
    } else {
        0
    }) + (if ui.mid_thought {
        1int
    } else {
        0
    })
}

/// Whether the output ends a line that was left open.
pub open spec fn ends_line(out: OutModel) -> bool {
    out == OutModel::Stdout("\n"@) || out == OutModel::Stderr("\n"@) || out == OutModel::Stderr(
        "\x1b[0m\n"@,
    )
}

/// Whether this text is written to stderr in a line of its own: the lines that were
/// open are ended first, none is left open, and nothing else is written.
pub open spec fn is_noted(before: UiModel, said: Said, text: Seq<char>) -> bool {
    &&& said.out.len() == open_lines(before) + 1
    &&& forall|i: int| 0 <= i < said.out.len() - 1 ==> ends_line(#[trigger] said.out[i])
    &&& said.out.last() == OutModel::Stderr(text + "\n"@)
    &&& said.ui == (UiModel { mid_answer: false, mid_thought: false, ..before })
}

/// Whether nothing is written and nothing changes.
pub open spec fn is_silent(before: UiModel, said: Said) -> bool {
    said.out.len() == 0 && said.ui == before
}

/// Whether one line of JSON with these fields is written to stdout, and nothing else.
pub open spec fn is_event(before: UiModel, said: Said, fields: Seq<(Seq<char>, JsonModel)>) -> bool {
    said.out == seq![OutModel::Stdout(json_text(fields) + "\n"@)] && said.ui == before
}

/// The text in a colour of the terminal, where there are colours.
pub open spec fn in_color(ui: UiModel, code: Seq<char>, text: Seq<char>) -> Seq<char> {
    if ui.color {
        seq!['\x1b', '['] + code + seq!['m'] + text + seq!['\x1b', '[', '0', 'm']
    } else {
        text
    }
}

proof fn lemma_painted(ui: UiModel, code: Seq<char>, text: Seq<char>)
    ensures
        ui.painted(code, text) == in_color(ui, code, text),
{
    reveal_strlit("\x1b[");
    reveal_strlit("m");
    reveal_strlit("\x1b[0m");
    assert("\x1b["@ =~= seq!['\x1b', '[']);
    assert("m"@ =~= seq!['m']);
    assert("\x1b[0m"@ =~= seq!['\x1b', '[', '0', 'm']);
}

/// Paths inside the working directory are written without it, and everything else as
/// it is.
pub proof fn paths_are_given_from_the_working_directory(
    ui: UiModel,
    before: Seq<char>,
    after: Seq<char>,
    other: Seq<char>,
)
    requires
        forall|i: int|
            0 <= i < before.len() ==> !(ui.cwd + seq!['/']).is_prefix_of(
                #[trigger] (before + (ui.cwd + seq!['/']) + after).skip(i),
            ),
        !has_part(other, ui.cwd + seq!['/']),
    ensures
        ui.shortened(before + (ui.cwd + seq!['/']) + after) == before + ui.shortened(after),
        ui.shortened(other) == other,
{
    reveal_strlit("/");
    assert("/"@ =~= seq!['/']);
    taking_out_a_part_keeps_the_rest(before, ui.cwd + seq!['/'], after);
    nothing_else_is_taken_out(other, ui.cwd + seq!['/']);
}

/// A note on the state of the run is a dim line behind a dot; a quiet run does not
/// write it.
pub proof fn notes_stand_behind_a_dot(ui: UiModel, msg: Seq<char>)
    ensures
        talks(ui) ==> is_noted(ui, ui.status(msg), in_color(ui, "2"@, "· "@ + msg)),
        !ui.json && ui.quiet ==> is_silent(ui, ui.status(msg)),
        ui.json ==> is_event(
            ui,
            ui.status(msg),
            seq![("type"@, JsonModel::Text("status"@)), ("message"@, JsonModel::Text(msg))],
        ),
{
    lemma_painted(ui, "2"@, "· "@ + msg);
}

/// An error is a red line behind an exclamation mark, in a quiet run too.
pub proof fn errors_are_always_written(ui: UiModel, msg: Seq<char>)
    ensures
        !ui.json ==> is_noted(ui, ui.error(msg), in_color(ui, "31"@, "! "@ + msg)),
        ui.json ==> is_event(
            ui,
            ui.error(msg),
            seq![("type"@, JsonModel::Text("error"@)), ("message"@, JsonModel::Text(msg))],
        ),
{
    lemma_painted(ui, "31"@, "! "@ + msg);
}

/// The answer goes to stdout as it is; only a line of thinking that is still open is
/// ended before it.
pub proof fn answers_go_to_stdout_as_they_are(ui: UiModel, text: Seq<char>)
    ensures
        !ui.json && !ui.mid_thought ==> ui.answer(text).out == seq![OutModel::Stdout(text)],
        !ui.json && ui.mid_thought && !ui.mid_answer ==> {
            &&& ui.answer(text).out.len() == 2
            &&& ends_line(ui.answer(text).out[0]) && ui.answer(text).out[0] is Stderr
            &&& ui.answer(text).out[1] == OutModel::Stdout(text)
        },
        !ui.json ==> ui.answer(text).ui == (UiModel {
            mid_answer: true,
            mid_thought: false,
            ..ui
        }),
        ui.json ==> is_event(
            ui,
            ui.answer(text),
            seq![("type"@, JsonModel::Text("message"@)), ("text"@, JsonModel::Text(text))],
        ),
{
    if !ui.json && !ui.mid_thought {
        assert(ui.answer(text).out =~= seq![OutModel::Stdout(text)]);
    }
}

/// Thinking that nobody asked to see is mentioned once in a turn, and again in the
/// next; whatever is thought is not written.
pub proof fn thinking_is_mentioned_once(ui: UiModel, first: Seq<char>, second: Seq<char>)
    requires
        talks(ui),
        !ui.think,
        !ui.said_thinking,
    ensures
        ({
            let once = ui.thought(first);
            let twice = once.ui.thought(second);
            let later = twice.ui.turn_started().thought(second);
            &&& is_noted(
                UiModel { said_thinking: true, ..ui },
                once,
                in_color(ui, "2"@, "~ thinking…"@),
            )
            &&& is_silent(once.ui, twice)
            &&& is_noted(once.ui, later, in_color(ui, "2"@, "~ thinking…"@))
        }),
{
    lemma_painted(ui, "2"@, "~ thinking…"@);
}

/// Thinking that is asked for goes to stderr as it comes, in one line: a mark opens the
/// line once, the texts run on behind it, and line feeds become spaces. It does not go
/// to stdout, but for the end of an answer that it interrupts.
pub proof fn thinking_runs_on_in_one_line(ui: UiModel, text: Seq<char>)
    requires
        talks(ui),
        ui.think,
        !(ui.mid_answer && ui.mid_thought),
    ensures
        ({
            let said = ui.thought(text);
            &&& said.ui == (UiModel { mid_answer: false, mid_thought: true, ..ui })
            &&& said.out.len() == if ui.mid_thought {
                1int
            } else {
                open_lines(ui) + 2
            }
            &&& said.out.last() matches OutModel::Stderr(prose) && {
                &&& prose.len() == text.len()
                &&& forall|i: int|
                    0 <= i < text.len() ==> #[trigger] prose[i] == if text[i] == '\n' {
                        ' '
                    } else {
                        text[i]
                    }
            }
            &&& !ui.mid_thought ==> said.out[said.out.len() - 2] == OutModel::Stderr(
                if ui.color {
                    "\x1b[2;3m~ "@
                } else {
                    "~ "@
                },
            )
            &&& ui.mid_answer ==> said.out[0] == OutModel::Stdout("\n"@)
        }),
{
}

/// A quiet run writes no thinking, and a JSON run writes every part of it.
pub proof fn thinking_is_told_or_kept(ui: UiModel, text: Seq<char>)
    ensures
        !ui.json && ui.quiet ==> is_silent(ui, ui.thought(text)),
        ui.json ==> is_event(
            ui,
            ui.thought(text),
            seq![("type"@, JsonModel::Text("thought"@)), ("text"@, JsonModel::Text(text))],
        ),
{
}

/// A tool that is used is named in a dim line, by its kind, unless that says nothing,
/// and its title; a quiet run does not write it.
pub proof fn tools_are_named(ui: UiModel, tc: ToolCallModel)
    ensures
        talks(ui) ==> is_noted(
            ui,
            ui.tool_started(tc),
            in_color(
                ui,
                "2"@,
                if tc.kind == "other"@ {
                    "› "@ + ui.shortened(tc.title)
                } else {
                    "› "@ + tc.kind + " "@ + ui.shortened(tc.title)
                },
            ),
        ),
        !ui.json && ui.quiet ==> is_silent(ui, ui.tool_started(tc)),
        ui.json ==> is_event(
            ui,
            ui.tool_started(tc),
            seq![
                ("type"@, JsonModel::Text("tool"@)),
                ("id"@, JsonModel::Text(tc.id)),
                ("kind"@, JsonModel::Text(tc.kind)),
                ("title"@, JsonModel::Text(tc.title)),
                ("status"@, JsonModel::Text(tc.status)),
            ],
        ),
{
    let kind = if tc.kind == "other"@ {
        Seq::empty()
    } else {
        tc.kind + " "@
    };
    lemma_painted(ui, "2"@, "› "@ + kind + ui.shortened(tc.title));
    assert("› "@ + Seq::<char>::empty() =~= "› "@);
    assert("› "@ + (tc.kind + " "@) =~= "› "@ + tc.kind + " "@);
}

/// A tool that failed is named in a red line, by its title or else by its id; no other
/// change is written, and none in a quiet run. A JSON run writes every change.
pub proof fn failed_tools_are_named(ui: UiModel, update: ToolCallUpdateModel)
    ensures
        talks(ui) && update.status == Some("failed"@) ==> is_noted(
            ui,
            ui.tool_updated(update),
            in_color(
                ui,
                "31"@,
                "× "@ + ui.shortened(
                    if update.title is Some {
                        update.title->0
                    } else {
                        update.id
                    },
                ) + " failed"@,
            ),
        ),
        talks(ui) && update.status != Some("failed"@) ==> is_silent(ui, ui.tool_updated(update)),
        !ui.json && ui.quiet ==> is_silent(ui, ui.tool_updated(update)),
        ui.json ==> is_event(
            ui,
            ui.tool_updated(update),
            seq![
                ("type"@, JsonModel::Text("tool_update"@)),
                ("id"@, JsonModel::Text(update.id)),
                ("status"@, JsonModel::MaybeText(update.status)),
                ("title"@, JsonModel::MaybeText(update.title)),
            ],
        ),
{
    let what = match update.title {
        Some(title) => title,
        None => update.id,
    };
    lemma_painted(ui, "31"@, "× "@ + ui.shortened(what) + " failed"@);
}

/// The mark of a plan entry tells how far it is.
pub proof fn plan_marks_tell_the_progress(status: Seq<char>)
    ensures
        plan_glyph(status) == if status == "completed"@ {
            "●"@
        } else if status == "in_progress"@ {
            "◌"@
        } else {
            "○"@
        },
{
}

/// A plan is written entry by entry: each is a dim line of its own, behind those before
/// it, with its mark and its text. A quiet run does not write it.
pub proof fn plans_are_written_entry_by_entry(
    ui: UiModel,
    entries: Seq<PlanEntryModel>,
    entry: PlanEntryModel,
)
    requires
        !ui.mid_answer,
        !ui.mid_thought,
    ensures
        talks(ui) ==> ui.plan(entries.push(entry)).out == ui.plan(entries).out.push(
            OutModel::Stderr(
                in_color(ui, "2"@, "  "@ + plan_glyph(entry.status) + " "@ + entry.content) + "\n"@,
            ),
        ),
        talks(ui) ==> ui.plan(Seq::empty()).out == Seq::<OutModel>::empty(),
        talks(ui) ==> ui.plan(entries).ui == ui,
        !ui.json && ui.quiet ==> is_silent(ui, ui.plan(entries)),
{
    lemma_plan_lines(ui, entries);
    assert(entries.push(entry).drop_last() =~= entries);
    let text = "  "@ + plan_glyph(entry.status) + " "@ + entry.content;
    lemma_painted(ui, "2"@, text);
    if talks(ui) {
        assert(ui.plan(entries.push(entry)).out =~= ui.plan(entries).out.push(
            OutModel::Stderr(in_color(ui, "2"@, text) + "\n"@),
        ));
    }
}

/// The first entry of a plan ends the lines that were left open, like any other note.
pub proof fn plans_begin_on_a_line_of_their_own(ui: UiModel, entry: PlanEntryModel)
    requires
        talks(ui),
    ensures
        is_noted(
            ui,
            ui.plan(seq![entry]),
            in_color(ui, "2"@, "  "@ + plan_glyph(entry.status) + " "@ + entry.content),
        ),
{
    let text = "  "@ + plan_glyph(entry.status) + " "@ + entry.content;
    lemma_painted(ui, "2"@, text);
    assert(seq![entry].drop_last() =~= Seq::empty());
    let said = ui.noted(ui.painted("2"@, text));
    assert(ui.plan_lines(Seq::empty()) == ui.silent());
    assert(ui.plan(seq![entry]).out =~= said.out);
}

proof fn lemma_plan_lines(ui: UiModel, entries: Seq<PlanEntryModel>)
    requires
        !ui.mid_answer,
        !ui.mid_thought,
    ensures
        ui.plan_lines(entries).ui == ui,
    decreases entries.len(),
{
    if entries.len() > 0 {
        lemma_plan_lines(ui, entries.drop_last());
    }
}

/// The fields of a plan.
pub open spec fn plan_fields(rows: Seq<Seq<(Seq<char>, Seq<char>)>>) -> Seq<
    (Seq<char>, JsonModel),
> {
    seq![("type"@, JsonModel::Text("plan"@)), ("entries"@, JsonModel::List(rows))]
}

/// A JSON run writes a plan as one event with the text and the status of every entry.
pub proof fn plans_are_events(ui: UiModel, entries: Seq<PlanEntryModel>)
    requires
        ui.json,
    ensures
        exists|rows: Seq<Seq<(Seq<char>, Seq<char>)>>|
            {
                &&& rows.len() == entries.len()
                &&& forall|i: int|
                    0 <= i < rows.len() ==> #[trigger] rows[i] == seq![
                        ("content"@, entries[i].content),
                        ("status"@, entries[i].status),
                    ]
                &&& is_event(ui, ui.plan(entries), #[trigger] plan_fields(rows))
            },
{
    let rows = entries.map_values(|e: PlanEntryModel| crate::cli::ui::entry_fields(e));
    assert(is_event(ui, ui.plan(entries), plan_fields(rows)));
}

/// The answers that a question offers come in the order of its options, each with its
/// letter; what has no letter is not offered.
pub proof fn answers_are_offered_in_order(
    options: Seq<PermissionOptionModel>,
    option: PermissionOptionModel,
)
    ensures
        offers(Seq::empty()) == Seq::<Seq<char>>::empty(),
        offers(options.push(option)) == if option.kind == "allow_once"@ {
            offers(options).push("y allow once"@)
        } else if option.kind == "allow_always"@ {
            offers(options).push("a allow always"@)
        } else if option.kind == "reject_once"@ {
            offers(options).push("n reject"@)
        } else {
            offers(options)
        },
{
    assert(options.push(option).drop_last() =~= options);
}

/// A question is a line behind a question mark, and below it the answers that it
/// offers, if there are any; it is written in a quiet run too.
pub proof fn questions_are_always_written(
    ui: UiModel,
    title: Seq<char>,
    options: Seq<PermissionOptionModel>,
)
    ensures
        !ui.json ==> ({
            let said = ui.permission_prompt(title, options);
            let asked = in_color(ui, "1;33"@, "? "@ + ui.shortened(title));
            if offers(options).len() == 0 {
                is_noted(ui, said, asked)
            } else {
                let answers = "  "@ + joined(offers(options), "  ·  "@);
                &&& said.out.len() > 0
                &&& said.out.last() == OutModel::Stderr(in_color(ui, "2"@, answers) + "\n"@)
                &&& is_noted(ui, Said { ui: said.ui, out: said.out.drop_last() }, asked)
            }
        }),
        ui.json ==> is_event(
            ui,
            ui.permission_prompt(title, options),
            seq![
                ("type"@, JsonModel::Text("permission_request"@)),
                ("title"@, JsonModel::Text(title)),
            ],
        ),
{
    lemma_painted(ui, "1;33"@, "? "@ + ui.shortened(title));
    lemma_painted(ui, "2"@, "  "@ + joined(offers(options), "  ·  "@));
    if !ui.json && offers(options).len() > 0 {
        let asked = ui.noted(ui.painted("1;33"@, "? "@ + ui.shortened(title)));
        assert(ui.permission_prompt(title, options).out.drop_last() =~= asked.out);
    }
}

/// The end of a turn is an event of a JSON run, and not written otherwise.
pub proof fn turns_end_as_events(ui: UiModel, reason: Seq<char>)
    ensures
        !ui.json ==> is_silent(ui, ui.turn_ended(reason)),
        ui.json ==> is_event(
            ui,
            ui.turn_ended(reason),
            seq![
                ("type"@, JsonModel::Text("turn_ended"@)),
                ("stop_reason"@, JsonModel::Text(reason)),
            ],
        ),
{
}

/// What the runner says when a turn ends: the line of the answer is ended, then comes
/// the end of the turn as an event, and then, unless the turn just ended, the reason.
pub proof fn ends_of_turns_are_told(runner: RunnerModel, stop_reason: Seq<char>)
    requires
        runner.phase is Turn,
    ensures
        ({
            let said = runner.after(
                RunEventModel::Agent(AcpEventModel::TurnEnded { stop_reason }),
            ).deed.out;
            let closed = runner.ui.line_broken();
            let ended = closed.ui.turn_ended(stop_reason);
            said == closed.out + ended.out + if stop_reason == "end_turn"@ {
                Seq::empty()
            } else {
                ended.ui.status("turn ended: "@ + stop_reason).out
            }
        }),
{
    let closed = runner.ui.line_broken();
    let ended = closed.ui.turn_ended(stop_reason);
    assert(closed.out + ended.out + Seq::<OutModel>::empty() =~= closed.out + ended.out);
    assert(runner.phase matches PhaseModel::Turn { .. });
}

/// Whatever was left open is ended, each line on its own stream, and with it the colour
/// of the thinking.
pub proof fn open_lines_are_ended(ui: UiModel)
    ensures
        ui.line_broken().out.len() == open_lines(ui),
        ui.mid_answer ==> ui.line_broken().out[0] == OutModel::Stdout("\n"@),
        ui.mid_thought ==> ui.line_broken().out.last() == OutModel::Stderr(
            if ui.color {
                "\x1b[0m\n"@
            } else {
                "\n"@
            },
        ),
        ui.line_broken().ui == (UiModel { mid_answer: false, mid_thought: false, ..ui }),
{
}

/// Failures are told with their reason: a failed turn by its message, and an agent that
/// is gone, that did not start or that lacks its key by what it is.
pub proof fn failures_are_told(runner: RunnerModel, text: Seq<char>)
    ensures
        runner.phase is Turn ==> {
            let broken = runner.ui.line_broken();
            &&& runner.after(RunEventModel::Agent(AcpEventModel::Error(text))).deed.out
                == broken.out + broken.ui.error(text).out
            &&& runner.after(RunEventModel::Agent(AcpEventModel::AuthRequired(text))).deed.out
                == broken.out + broken.ui.error(text).out
            &&& runner.after(RunEventModel::Agent(AcpEventModel::Exited(text))).deed.out
                == broken.out + broken.ui.error("agent exited: "@ + text).out
            &&& runner.after(RunEventModel::Closed).deed.out == runner.ui.error(
                "agent exited: event channel closed"@,
            ).out
        },
        runner.phase is Starting ==> {
            &&& runner.after(RunEventModel::Agent(AcpEventModel::AuthRequired(text))).deed.out
                == runner.ui.error("agent auth problem: "@ + text).out
            &&& runner.after(RunEventModel::Agent(AcpEventModel::Exited(text))).deed.out
                == runner.ui.error("agent exited before starting: "@ + text).out
            &&& runner.after(RunEventModel::Closed).deed.out.len() == 0
        },
        runner.phase is Asking ==> runner.after(RunEventModel::Line(None)).deed.out
            == runner.ui.error("input closed before answering — refusing"@).out,
{
}

/// What the agent says and does during a turn is written as such.
pub proof fn the_agent_is_followed(
    runner: RunnerModel,
    text: Seq<char>,
    tc: ToolCallModel,
    update: ToolCallUpdateModel,
    entries: Seq<PlanEntryModel>,
)
    requires
        runner.phase is Turn,
    ensures
        ({
            let after = |e: AcpEventModel| runner.after(RunEventModel::Agent(e));
            let says = |e: AcpEventModel, said: Said|
                after(e).deed.out == said.out && after(e).runner == (RunnerModel {
                    ui: said.ui,
                    ..runner
                });
            &&& says(AcpEventModel::MessageChunk(text), runner.ui.answer(text))
            &&& says(AcpEventModel::ThoughtChunk(text), runner.ui.thought(text))
            &&& says(AcpEventModel::ToolCall(tc), runner.ui.tool_started(tc))
            &&& says(AcpEventModel::ToolCallUpdate(update), runner.ui.tool_updated(update))
            &&& says(AcpEventModel::Plan(entries), runner.ui.plan(entries))
            &&& says(
                AcpEventModel::SessionReady { session_id: text },
                Said { ui: runner.ui, out: Seq::empty() },
            )
        }),
{
}

/// What is said about questions, interruptions and the start.
pub proof fn steps_of_the_run_are_told(
    runner: RunnerModel,
    title: Seq<char>,
    options: Seq<PermissionOptionModel>,
    request: u64,
)
    ensures
        runner.phase is Turn ==> runner.after(
            RunEventModel::Agent(AcpEventModel::PermissionRequest { title, options, request }),
        ).deed.out == if runner.yes {
            runner.ui.status("allowing: "@ + title).out
        } else if runner.can_ask {
            runner.ui.permission_prompt(title, options).out
        } else {
            runner.ui.error("refused (no tty to ask on; pass --yes to allow): "@ + title).out
        },
        runner.phase == (PhaseModel::Turn { cancelled: false }) ==> runner.after(
            RunEventModel::Interrupt,
        ).deed.out == runner.ui.status("cancelling…"@).out,
        runner.phase is Starting ==> runner.after(
            RunEventModel::Agent(AcpEventModel::SessionReady { session_id: title }),
        ).deed.out == if runner.interactive {
            runner.ui.status("ready — type a request, Ctrl+D to leave"@).out
        } else {
            Seq::empty()
        },
{
}

/// Before the agent starts, the run tells where it works, that the connection is being
/// made, and with which model, after a doubt about it if there is one.
pub proof fn the_start_is_told(ui: UiModel, model: Seq<char>, doubt: Option<Seq<char>>)
    ensures
        ({
            let place = ui.status("working in "@ + ui.cwd);
            let connecting = place.ui.status("attesting enclave…"@);
            opened(ui).out == place.out + connecting.out && opened(ui).ui == connecting.ui
        }),
        match doubt {
            None => {
                &&& model_told(ui, model, doubt).out == ui.status("model "@ + model).out
                &&& model_told(ui, model, doubt).ui == ui.status("model "@ + model).ui
            },
            Some(msg) => {
                let first = ui.status(msg);
                let second = first.ui.status("model "@ + model);
                model_told(ui, model, doubt).out == first.out + second.out && model_told(
                    ui,
                    model,
                    doubt,
                ).ui == second.ui
            },
        },
{
    let told = ui.status("model "@ + model);
    assert(Seq::<OutModel>::empty() + told.out =~= told.out);
}

/// Whether what the run was asked for stays as it is.
pub open spec fn same_settings(a: UiModel, b: UiModel) -> bool {
    a.json == b.json && a.quiet == b.quiet && a.color == b.color && a.think == b.think && a.cwd
        == b.cwd
}

/// A turn that is over leaves no line open, whatever ended it.
pub proof fn ended_turns_leave_no_line_open(runner: RunnerModel, event: AcpEventModel)
    requires
        runner.phase is Turn,
        runner.ui.valid(),
        event is TurnEnded || event is Error || event is AuthRequired || event is Exited,
    ensures
        open_lines(runner.after(RunEventModel::Agent(event)).runner.ui) == 0,
{
}

/// What the run was asked for holds from its start to its end.
pub proof fn settings_hold_for_the_run(runner: RunnerModel, event: RunEventModel)
    ensures
        same_run(runner.after(event).runner, runner),
{
    match runner.phase {
        PhaseModel::Starting => {
            lemma_starting_settings(runner, event);
        },
        PhaseModel::Prompting => {
            assert(same_run(runner.after_prompting(event).runner, runner));
        },
        PhaseModel::Turn { cancelled } => {
            lemma_interrupted_settings(runner, cancelled, event);
        },
        PhaseModel::Asking { cancelled, options, request } => {
            assert(same_run(
                runner.after_asking(cancelled, options, request, event).runner,
                runner,
            ));
        },
        PhaseModel::Over => {},
    }
}

proof fn lemma_starting_settings(runner: RunnerModel, event: RunEventModel)
    ensures
        same_run(runner.after_starting(event).runner, runner),
{
}

proof fn lemma_interrupted_settings(runner: RunnerModel, cancelled: bool, event: RunEventModel)
    ensures
        same_run(runner.after_turn(cancelled, event).runner, runner),
{
    if let RunEventModel::Agent(e) = event {
        lemma_turn_settings(runner, cancelled, e);
    }
}

/// Whether the run goes on as it was asked to.
pub open spec fn same_run(a: RunnerModel, b: RunnerModel) -> bool {
    same_settings(a.ui, b.ui) && a.interactive == b.interactive && a.yes == b.yes && a.can_ask
        == b.can_ask
}

proof fn lemma_turn_settings(runner: RunnerModel, cancelled: bool, event: AcpEventModel)
    ensures
        same_run(runner.after_turn_event(cancelled, event).runner, runner),
{
    match event {
        AcpEventModel::Plan(entries) => {
            lemma_plan_settings(runner.ui, entries);
        },
        AcpEventModel::TurnEnded { stop_reason } => {
            let closed = runner.ui.line_broken();
            let ended = closed.ui.turn_ended(stop_reason);
            assert(same_settings(ended.ui, runner.ui));
            assert(same_settings(ended.ui.status("turn ended: "@ + stop_reason).ui, runner.ui));
        },
        AcpEventModel::PermissionRequest { title, options, request } => {
            assert(same_settings(runner.ui.permission_prompt(title, options).ui, runner.ui));
        },
        _ => {},
    }
}

proof fn lemma_plan_settings(ui: UiModel, entries: Seq<PlanEntryModel>)
    ensures
        same_settings(ui.plan_lines(entries).ui, ui),
    decreases entries.len(),
{
    if entries.len() > 0 {
        lemma_plan_settings(ui, entries.drop_last());
    }
}

} // verus!
