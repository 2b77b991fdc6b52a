//! What holds of the runner as a whole.

use crate::app::model::picked;
use crate::cli::run::{both, DeedModel, NextModel, PhaseModel, RunEventModel, RunnerModel};
use crate::cli::ui::{OutModel, Said, UiModel};
use crate::cli::{
    allows_always, allows_once, chosen, outcome_of, refusal, EXIT_ERROR, EXIT_INTERRUPTED, EXIT_OK,
};
use crate::event::{
    plan_glyph, AcpEventModel, PermissionOptionModel, PermissionOutcomeModel, PlanEntryModel,
    ToolCallModel, ToolCallUpdateModel,
};
use vstd::multiset::Multiset;
use vstd::prelude::*;

verus! {

/// What goes to stdout is the answer, and the line feed that ends it.
pub open spec fn prose_only(out: Seq<OutModel>, answer: Option<Seq<char>>) -> bool {
    forall|i: int|
        0 <= i < out.len() && #[trigger] out[i] is Stdout ==> out[i] == OutModel::Stdout("\n"@)
            || Some(out[i]->Stdout_0) == answer
}

/// The prose that an event brings.
pub open spec fn answer_text(event: RunEventModel) -> Option<Seq<char>> {
    match event {
        RunEventModel::Agent(AcpEventModel::MessageChunk(text)) => Some(text),
        _ => None,
    }
}

/// Whether saying this keeps the streams apart and the settings as they are.
spec fn apart(ui: UiModel, said: Said) -> bool {
    prose_only(said.out, None) && said.ui.json == ui.json
}

proof fn lemma_both_apart(ui: UiModel, first: Said, second: Said)
    requires
        apart(ui, first),
        apart(first.ui, second),
    ensures
        apart(ui, both(first, second)),
{
}

proof fn lemma_lines_apart(ui: UiModel, text: Seq<char>)
    requires
        !ui.json,
    ensures
        apart(ui, ui.line_broken()),
        apart(ui, ui.noted(text)),
        apart(ui, ui.silent()),
        apart(ui, ui.status(text)),
        apart(ui, ui.turn_ended(text)),
        apart(ui, ui.error(text)),
{
}

proof fn lemma_thought_apart(ui: UiModel, text: Seq<char>)
    requires
        !ui.json,
    ensures
        apart(ui, ui.thought(text)),
{
}

proof fn lemma_tools_apart(ui: UiModel, call: ToolCallModel, update: ToolCallUpdateModel)
    requires
        !ui.json,
    ensures
        apart(ui, ui.tool_started(call)),
        apart(ui, ui.tool_updated(update)),
{
}

proof fn lemma_prompt_apart(
    ui: UiModel,
    title: Seq<char>,
    options: Seq<PermissionOptionModel>,
)
    requires
        !ui.json,
    ensures
        apart(ui, ui.permission_prompt(title, options)),
{
}

proof fn lemma_plan_apart(ui: UiModel, entries: Seq<PlanEntryModel>)
    requires
        !ui.json,
    ensures
        apart(ui, ui.plan_lines(entries)),
    decreases entries.len(),
{
    if entries.len() > 0 {
        lemma_plan_apart(ui, entries.drop_last());
        let earlier = ui.plan_lines(entries.drop_last());
        let entry = entries.last();
        let line = ui.painted("2"@, "  "@ + plan_glyph(entry.status) + " "@ + entry.content);
        lemma_lines_apart(earlier.ui, line);
        lemma_both_apart(ui, earlier, earlier.ui.noted(line));
    }
}

proof fn lemma_turn_end_apart(runner: RunnerModel, text: Seq<char>)
    requires
        !runner.ui.json,
    ensures
        prose_only(runner.turn_ended(text).deed.out, None),
        !runner.turn_ended(text).runner.ui.json,
        prose_only(runner.turn_failed(text).deed.out, None),
        !runner.turn_failed(text).runner.ui.json,
        prose_only(runner.agent_gone(text).deed.out, None),
        !runner.agent_gone(text).runner.ui.json,
{
    let ui = runner.ui;
    let closed = ui.line_broken();
    lemma_lines_apart(ui, text);
    lemma_lines_apart(closed.ui, text);
    lemma_lines_apart(closed.ui, "agent exited: "@ + text);
    let told = both(closed, closed.ui.turn_ended(text));
    lemma_both_apart(ui, closed, closed.ui.turn_ended(text));
    lemma_both_apart(ui, closed, closed.ui.error(text));
    lemma_both_apart(ui, closed, closed.ui.error("agent exited: "@ + text));
    lemma_lines_apart(told.ui, "turn ended: "@ + text);
    lemma_both_apart(ui, told, told.ui.status("turn ended: "@ + text));
}

proof fn lemma_question_apart(
    runner: RunnerModel,
    cancelled: bool,
    title: Seq<char>,
    options: Seq<PermissionOptionModel>,
    request: u64,
)
    requires
        !runner.ui.json,
    ensures
        prose_only(runner.questioned(cancelled, title, options, request).deed.out, None),
        !runner.questioned(cancelled, title, options, request).runner.ui.json,
{
    lemma_lines_apart(runner.ui, "allowing: "@ + title);
    lemma_lines_apart(
        runner.ui,
        "refused (no tty to ask on; pass --yes to allow): "@ + title,
    );
    lemma_prompt_apart(runner.ui, title, options);
}

proof fn lemma_turn_prose(runner: RunnerModel, cancelled: bool, event: AcpEventModel)
    requires
        !runner.ui.json,
    ensures
        prose_only(
            runner.after_turn_event(cancelled, event).deed.out,
            answer_text(RunEventModel::Agent(event)),
        ),
        !runner.after_turn_event(cancelled, event).runner.ui.json,
{
    let ui = runner.ui;
    match event {
        AcpEventModel::MessageChunk(text) => {
            lemma_lines_apart(ui, text);
        },
        AcpEventModel::ThoughtChunk(text) => {
            lemma_thought_apart(ui, text);
        },
        AcpEventModel::ToolCall(call) => {
            lemma_tools_apart(ui, call, arbitrary());
        },
        AcpEventModel::ToolCallUpdate(update) => {
            lemma_tools_apart(ui, arbitrary(), update);
        },
        AcpEventModel::Plan(entries) => {
            lemma_plan_apart(ui, entries);
        },
        AcpEventModel::PermissionRequest { title, options, request } => {
            lemma_question_apart(runner, cancelled, title, options, request);
        },
        AcpEventModel::TurnEnded { stop_reason } => {
            lemma_turn_end_apart(runner, stop_reason);
        },
        AcpEventModel::Error(text) => {
            lemma_turn_end_apart(runner, text);
        },
        AcpEventModel::AuthRequired(text) => {
            lemma_turn_end_apart(runner, text);
        },
        AcpEventModel::Exited(text) => {
            lemma_turn_end_apart(runner, text);
        },
        AcpEventModel::SessionReady { .. } => {},
    }
}

/// Without JSON output only the answer goes to stdout; everything else that is
/// written goes to stderr.
pub proof fn only_answers_go_to_stdout(runner: RunnerModel, event: RunEventModel)
    requires
        !runner.ui.json,
    ensures
        prose_only(runner.after(event).deed.out, answer_text(event)),
{
    if let PhaseModel::Turn { cancelled } = runner.phase {
        if let RunEventModel::Agent(e) = event {
            lemma_turn_prose(runner, cancelled, e);
        }
    }
}

/// Every part of the answer is written to stdout as it is.
pub proof fn answers_are_written_unchanged(runner: RunnerModel, text: Seq<char>)
    requires
        !runner.ui.json,
        runner.phase is Turn,
    ensures
        ({
            let out = runner.after(
                RunEventModel::Agent(AcpEventModel::MessageChunk(text)),
            ).deed.out;
            out.len() > 0 && out.last() == OutModel::Stdout(text)
        }),
{
}

/// Something that the output is asked to say.
pub enum Saying {
    Answer(Seq<char>),
    Thought(Seq<char>),
    ToolStarted(ToolCallModel),
    ToolUpdated(ToolCallUpdateModel),
    Plan(Seq<PlanEntryModel>),
    Status(Seq<char>),
    Error(Seq<char>),
    PermissionPrompt { title: Seq<char>, options: Seq<PermissionOptionModel> },
    TurnStarted,
    TurnEnded(Seq<char>),
}

/// What is written when this is said.
pub open spec fn said(ui: UiModel, saying: Saying) -> Said {
    match saying {
        Saying::Answer(text) => ui.answer(text),
        Saying::Thought(text) => ui.thought(text),
        Saying::ToolStarted(call) => ui.tool_started(call),
        Saying::ToolUpdated(update) => ui.tool_updated(update),
        Saying::Plan(entries) => ui.plan(entries),
        Saying::Status(msg) => ui.status(msg),
        Saying::Error(msg) => ui.error(msg),
        Saying::PermissionPrompt { title, options } => ui.permission_prompt(title, options),
        Saying::TurnStarted => ui.turn_started().silent(),
        Saying::TurnEnded(reason) => ui.turn_ended(reason),
    }
}

/// What is written when all this is said in turn.
pub open spec fn all_said(ui: UiModel, sayings: Seq<Saying>) -> Said
    decreases sayings.len(),
{
    if sayings.len() == 0 {
        ui.silent()
    } else {
        let earlier = all_said(ui, sayings.drop_last());
        both(earlier, said(earlier.ui, sayings.last()))
    }
}

/// The texts of the answer among what is said.
pub open spec fn answer_texts(sayings: Seq<Saying>) -> Seq<Seq<char>>
    decreases sayings.len(),
{
    if sayings.len() == 0 {
        Seq::empty()
    } else {
        let earlier = answer_texts(sayings.drop_last());
        match sayings.last() {
            Saying::Answer(text) => earlier.push(text),
            _ => earlier,
        }
    }
}

/// What goes to stdout, piece by piece.
pub open spec fn on_stdout(out: Seq<OutModel>) -> Seq<Seq<char>>
    decreases out.len(),
{
    if out.len() == 0 {
        Seq::empty()
    } else {
        let earlier = on_stdout(out.drop_last());
        match out.last() {
            OutModel::Stdout(text) => earlier.push(text),
            OutModel::Stderr(_) => earlier,
        }
    }
}

/// The texts in order, with a line feed behind those that are marked.
pub open spec fn with_breaks(texts: Seq<Seq<char>>, breaks: Seq<bool>) -> Seq<Seq<char>>
    decreases texts.len(),
{
    if texts.len() == 0 {
        Seq::empty()
    } else {
        let text = with_breaks(texts.drop_last(), breaks.drop_last()).push(texts.last());
        if breaks.last() {
            text.push("\n"@)
        } else {
            text
        }
    }
}

/// Whether at most one of the streams is in the middle of a line.
pub open spec fn one_line_open(ui: UiModel) -> bool {
    !(ui.mid_answer && ui.mid_thought)
}

proof fn lemma_on_stdout_add(a: Seq<OutModel>, b: Seq<OutModel>)
    ensures
        on_stdout(a + b) == on_stdout(a) + on_stdout(b),
    decreases b.len(),
{
    if b.len() == 0 {
        assert(a + b =~= a);
        assert(on_stdout(a) + on_stdout(b) =~= on_stdout(a));
    } else {
        lemma_on_stdout_add(a, b.drop_last());
        assert((a + b).drop_last() =~= a + b.drop_last());
        assert(on_stdout(a + b) =~= on_stdout(a) + on_stdout(b));
    }
}

proof fn lemma_on_stdout_push(a: Seq<OutModel>, piece: OutModel)
    ensures
        on_stdout(a.push(piece)) == match piece {
            OutModel::Stdout(text) => on_stdout(a).push(text),
            OutModel::Stderr(_) => on_stdout(a),
        },
{
    assert(a.push(piece).drop_last() =~= a);
}

/// Whether this writes to stdout the line feed of an answer that it interrupts, and
/// nothing else.
spec fn interrupts(ui: UiModel, s: Said) -> bool {
    &&& s.ui.json == ui.json
    &&& one_line_open(s.ui)
    &&& s.ui.mid_answer ==> ui.mid_answer
    &&& on_stdout(s.out) == if ui.mid_answer && !s.ui.mid_answer {
        seq!["\n"@]
    } else {
        Seq::empty()
    }
}

proof fn lemma_break_interrupts(ui: UiModel)
    requires
        one_line_open(ui),
    ensures
        interrupts(ui, ui.line_broken()),
        interrupts(ui, ui.silent()),
{
    let none = Seq::<OutModel>::empty();
    let feed = OutModel::Stdout("\n"@);
    lemma_on_stdout_push(none, feed);
    lemma_on_stdout_push(none, OutModel::Stderr("\x1b[0m\n"@));
    lemma_on_stdout_push(none, OutModel::Stderr("\n"@));
    assert(seq![feed] =~= none.push(feed));
    assert(seq![OutModel::Stderr("\x1b[0m\n"@)] =~= none.push(OutModel::Stderr("\x1b[0m\n"@)));
    assert(seq![OutModel::Stderr("\n"@)] =~= none.push(OutModel::Stderr("\n"@)));
    assert(seq![feed] + none =~= seq![feed]);
    assert(none + none =~= none);
    assert(none + seq![OutModel::Stderr("\n"@)] =~= seq![OutModel::Stderr("\n"@)]);
    assert(none + seq![OutModel::Stderr("\x1b[0m\n"@)] =~= seq![OutModel::Stderr("\x1b[0m\n"@)]);
    assert(on_stdout(seq![feed]) =~= seq!["\n"@]);
}

proof fn lemma_note_interrupts(ui: UiModel, text: Seq<char>)
    requires
        one_line_open(ui),
    ensures
        interrupts(ui, ui.noted(text)),
        !ui.noted(text).ui.mid_answer,
        !ui.noted(text).ui.mid_thought,
{
    lemma_break_interrupts(ui);
    lemma_on_stdout_push(ui.line_broken().out, OutModel::Stderr(text + "\n"@));
}

proof fn lemma_thought_interrupts(ui: UiModel, text: Seq<char>)
    requires
        one_line_open(ui),
        !ui.json,
    ensures
        interrupts(ui, ui.thought(text)),
{
    lemma_break_interrupts(ui);
    lemma_note_interrupts(
        UiModel { said_thinking: true, ..ui },
        ui.painted("2"@, "~ thinking…"@),
    );
    if !ui.quiet && ui.think {
        let before = if ui.mid_answer {
            ui.line_broken()
        } else {
            ui.silent()
        };
        let none = Seq::<OutModel>::empty();
        let coloured = OutModel::Stderr("\x1b[2;3m~ "@);
        let plain = OutModel::Stderr("~ "@);
        lemma_on_stdout_push(before.out, coloured);
        lemma_on_stdout_push(before.out, plain);
        assert(before.out + none =~= before.out);
        assert(before.out + seq![coloured] =~= before.out.push(coloured));
        assert(before.out + seq![plain] =~= before.out.push(plain));
        let opened = if before.ui.mid_thought {
            before.out + none
        } else if ui.color {
            before.out + seq![coloured]
        } else {
            before.out + seq![plain]
        };
        lemma_on_stdout_push(opened, ui.thought(text).out.last());
        assert(ui.thought(text).out.drop_last() =~= opened);
    }
}

proof fn lemma_plan_interrupts(ui: UiModel, entries: Seq<PlanEntryModel>)
    requires
        one_line_open(ui),
    ensures
        interrupts(ui, ui.plan_lines(entries)),
    decreases entries.len(),
{
    lemma_break_interrupts(ui);
    if entries.len() > 0 {
        lemma_plan_interrupts(ui, entries.drop_last());
        let earlier = ui.plan_lines(entries.drop_last());
        let entry = entries.last();
        let line = ui.painted("2"@, "  "@ + plan_glyph(entry.status) + " "@ + entry.content);
        let more = earlier.ui.noted(line);
        lemma_note_interrupts(earlier.ui, line);
        lemma_on_stdout_add(earlier.out, more.out);
        assert(on_stdout(earlier.out + more.out) =~= if ui.mid_answer {
            seq!["\n"@]
        } else {
            Seq::empty()
        });
    }
}

proof fn lemma_prompt_interrupts(
    ui: UiModel,
    title: Seq<char>,
    options: Seq<PermissionOptionModel>,
)
    requires
        one_line_open(ui),
        !ui.json,
    ensures
        interrupts(ui, ui.permission_prompt(title, options)),
{
    let question = ui.painted("1;33"@, "? "@ + ui.shortened(title));
    lemma_note_interrupts(ui, question);
    let prompt = ui.permission_prompt(title, options);
    if prompt.out.len() > ui.noted(question).out.len() {
        lemma_on_stdout_push(ui.noted(question).out, prompt.out.last());
        assert(prompt.out.drop_last() =~= ui.noted(question).out);
    }
}

/// What is said besides the answer puts no text on stdout; where it interrupts the
/// answer, a line feed ends its line.
proof fn lemma_saying_interrupts(ui: UiModel, saying: Saying)
    requires
        one_line_open(ui),
        !ui.json,
        saying !is Answer,
    ensures
        interrupts(ui, said(ui, saying)),
{
    lemma_break_interrupts(ui);
    match saying {
        Saying::Thought(text) => {
            lemma_thought_interrupts(ui, text);
        },
        Saying::Plan(entries) => {
            lemma_plan_interrupts(ui, entries);
        },
        Saying::PermissionPrompt { title, options } => {
            lemma_prompt_interrupts(ui, title, options);
        },
        Saying::ToolStarted(tc) => {
            let kind = if tc.kind == "other"@ {
                Seq::empty()
            } else {
                tc.kind + " "@
            };
            lemma_note_interrupts(
                ui,
                ui.painted("2"@, "› "@ + kind + ui.shortened(tc.title)),
            );
        },
        Saying::ToolUpdated(update) => {
            let what = match update.title {
                Some(title) => title,
                None => update.id,
            };
            lemma_note_interrupts(
                ui,
                ui.painted("31"@, "× "@ + ui.shortened(what) + " failed"@),
            );
        },
        Saying::Status(msg) => {
            lemma_note_interrupts(ui, ui.painted("2"@, "· "@ + msg));
        },
        Saying::Error(msg) => {
            lemma_note_interrupts(ui, ui.painted("31"@, "! "@ + msg));
        },
        _ => {},
    }
}

/// A part of the answer goes to stdout as it is and with nothing before it, so that
/// parts in a row run on.
pub proof fn answers_run_on(ui: UiModel, text: Seq<char>)
    requires
        !ui.json,
        one_line_open(ui),
    ensures
        on_stdout(ui.answer(text).out) == seq![text],
        ui.answer(text).ui.mid_answer,
        one_line_open(ui.answer(text).ui),
{
    lemma_break_interrupts(ui);
    let before = if ui.mid_thought {
        ui.line_broken()
    } else {
        ui.silent()
    };
    lemma_on_stdout_push(before.out, OutModel::Stdout(text));
    assert(on_stdout(ui.answer(text).out) =~= seq![text]);
}

proof fn lemma_breaks(ui: UiModel, sayings: Seq<Saying>) -> (breaks: Seq<bool>)
    requires
        !ui.json,
        !ui.mid_answer,
        !ui.mid_thought,
    ensures
        ({
            let done = all_said(ui, sayings);
            let texts = answer_texts(sayings);
            &&& !done.ui.json
            &&& one_line_open(done.ui)
            &&& breaks.len() == texts.len()
            &&& on_stdout(done.out) == with_breaks(texts, breaks)
            &&& done.ui.mid_answer == (texts.len() > 0 && !breaks.last())
        }),
    decreases sayings.len(),
{
    if sayings.len() == 0 {
        Seq::empty()
    } else {
        let before = lemma_breaks(ui, sayings.drop_last());
        let earlier = all_said(ui, sayings.drop_last());
        let texts = answer_texts(sayings.drop_last());
        let more = said(earlier.ui, sayings.last());
        lemma_on_stdout_add(earlier.out, more.out);
        match sayings.last() {
            Saying::Answer(text) => {
                answers_run_on(earlier.ui, text);
                let breaks = before.push(false);
                assert(breaks.drop_last() =~= before);
                assert(texts.push(text).drop_last() =~= texts);
                assert(on_stdout(earlier.out) + seq![text] =~= on_stdout(earlier.out).push(text));
                breaks
            },
            other => {
                lemma_saying_interrupts(earlier.ui, other);
                if earlier.ui.mid_answer && !more.ui.mid_answer {
                    let breaks = before.drop_last().push(true);
                    assert(breaks.drop_last() =~= before.drop_last());
                    assert(on_stdout(earlier.out) + seq!["\n"@] =~= on_stdout(earlier.out).push(
                        "\n"@,
                    ));
                    breaks
                } else {
                    assert(on_stdout(earlier.out) + Seq::<Seq<char>>::empty() =~= on_stdout(
                        earlier.out,
                    ));
                    before
                }
            },
        }
    }
}

/// Whatever is said in between, stdout gets the texts of the answer, unchanged and in
/// order, each with at most one line feed behind it, and nothing else. Once the answer
/// is finished its last line is ended, and finishing again writes nothing.
pub proof fn stdout_is_the_answer(ui: UiModel, sayings: Seq<Saying>)
    requires
        !ui.json,
        !ui.mid_answer,
        !ui.mid_thought,
    ensures
        ({
            let done = all_said(ui, sayings);
            let end = done.ui.line_broken();
            let texts = answer_texts(sayings);
            &&& exists|breaks: Seq<bool>|
                #![trigger with_breaks(texts, breaks)]
                {
                    &&& breaks.len() == texts.len()
                    &&& texts.len() > 0 ==> breaks.last()
                    &&& on_stdout(done.out + end.out) == with_breaks(texts, breaks)
                }
            &&& !end.ui.mid_answer && !end.ui.mid_thought
            &&& end.ui.line_broken().out == Seq::<OutModel>::empty()
        }),
{
    let before = lemma_breaks(ui, sayings);
    let done = all_said(ui, sayings);
    let end = done.ui.line_broken();
    let texts = answer_texts(sayings);
    lemma_break_interrupts(done.ui);
    lemma_on_stdout_add(done.out, end.out);
    assert(end.ui.line_broken().out =~= Seq::empty());
    if done.ui.mid_answer {
        let breaks = before.drop_last().push(true);
        assert(breaks.drop_last() =~= before.drop_last());
        assert(on_stdout(done.out) + seq!["\n"@] =~= on_stdout(done.out).push("\n"@));
        assert(on_stdout(done.out + end.out) == with_breaks(texts, breaks));
    } else {
        assert(on_stdout(done.out) + Seq::<Seq<char>>::empty() =~= on_stdout(done.out));
        assert(on_stdout(done.out + end.out) == with_breaks(texts, before));
    }
}

/// Whether a quiet run has something to say about the event besides the answer.
pub open spec fn needs_saying(event: RunEventModel) -> bool {
    match event {
        RunEventModel::Agent(AcpEventModel::Error(_)) => true,
        RunEventModel::Agent(AcpEventModel::AuthRequired(_)) => true,
        RunEventModel::Agent(AcpEventModel::Exited(_)) => true,
        RunEventModel::Agent(AcpEventModel::PermissionRequest { .. }) => true,
        RunEventModel::Closed => true,
        RunEventModel::Line(None) => true,
        _ => false,
    }
}

/// A quiet run writes nothing but the answer, except for a failure or a question.
pub proof fn quiet_runs_write_only_the_answer(runner: RunnerModel, event: RunEventModel)
    requires
        runner.ui.quiet,
        !runner.ui.json,
        !runner.ui.mid_thought,
        !needs_saying(event),
    ensures
        forall|i: int|
            0 <= i < runner.after(event).deed.out.len()
                ==> #[trigger] runner.after(event).deed.out[i] is Stdout,
        !runner.after(event).runner.ui.mid_thought,
{
}

proof fn lemma_json_turn(runner: RunnerModel, cancelled: bool, event: AcpEventModel)
    requires
        runner.ui.valid(),
        runner.ui.json,
    ensures
        runner.after_turn_event(cancelled, event).runner.ui.valid(),
        runner.after_turn_event(cancelled, event).runner.ui.json,
{
    match event {
        AcpEventModel::TurnEnded { stop_reason } => {
            assert(runner.turn_ended(stop_reason).runner.ui.valid());
        },
        AcpEventModel::PermissionRequest { title, options, request } => {
            assert(runner.questioned(cancelled, title, options, request).runner.ui.valid());
        },
        _ => {},
    }
}

/// With JSON output no line is ever left open, and JSON output stays on.
pub proof fn json_runs_leave_no_line_open(runner: RunnerModel, event: RunEventModel)
    requires
        runner.ui.valid(),
    ensures
        runner.after(event).runner.ui.valid(),
        runner.after(event).runner.ui.json == runner.ui.json,
{
    if let PhaseModel::Turn { cancelled } = runner.phase {
        if let RunEventModel::Agent(e) = event {
            if runner.ui.json {
                lemma_json_turn(runner, cancelled, e);
            } else {
                lemma_turn_prose(runner, cancelled, e);
            }
        }
    }
}

/// Without a terminal to ask on, and without leave given beforehand, tool use is
/// refused.
pub proof fn no_terminal_means_no(
    runner: RunnerModel,
    title: Seq<char>,
    options: Seq<PermissionOptionModel>,
    request: u64,
)
    requires
        runner.phase is Turn,
        !runner.yes,
        !runner.can_ask,
    ensures
        runner.after(
            RunEventModel::Agent(AcpEventModel::PermissionRequest { title, options, request }),
        ).deed.answer == Some((request, refusal(options))),
{
}

/// A question is put to the user before it is answered: nothing is answered until
/// a line has been read.
pub proof fn users_are_asked_first(
    runner: RunnerModel,
    title: Seq<char>,
    options: Seq<PermissionOptionModel>,
    request: u64,
)
    requires
        runner.phase is Turn,
        !runner.yes,
        runner.can_ask,
    ensures
        ({
            let step = runner.after(
                RunEventModel::Agent(AcpEventModel::PermissionRequest { title, options, request }),
            );
            &&& step.deed.answer is None
            &&& step.runner.next() is Read
            &&& forall|line: Seq<char>|
                #![trigger step.runner.after(RunEventModel::Line(Some(line)))]
                step.runner.after(RunEventModel::Line(Some(line))).deed.answer == Some(
                    (request, outcome_of(line, options)),
                )
        }),
{
}

/// With leave given beforehand a question is answered at once: with the option
/// that allows once, or else with the first.
pub proof fn leave_given_means_yes(
    runner: RunnerModel,
    title: Seq<char>,
    options: Seq<PermissionOptionModel>,
    request: u64,
)
    requires
        runner.phase is Turn,
        runner.yes,
        options.len() > 0,
    ensures
        ({
            let step = runner.after(
                RunEventModel::Agent(AcpEventModel::PermissionRequest { title, options, request }),
            );
            &&& step.runner.phase == runner.phase
            &&& step.deed.answer == Some(
                (
                    request,
                    PermissionOutcomeModel::Selected {
                        option_id: match picked(options, "allow_once"@) {
                            Some(id) => id,
                            None => options[0].id,
                        },
                    },
                ),
            )
        }),
{
}

/// Losing the input while a question is open refuses.
pub proof fn lost_input_means_no(
    runner: RunnerModel,
    cancelled: bool,
    options: Seq<PermissionOptionModel>,
    request: u64,
)
    requires
        runner.phase == (PhaseModel::Asking { cancelled, options, request }),
    ensures
        runner.after(RunEventModel::Line(None)).deed.answer == Some((request, refusal(options))),
{
}

/// An answer that is not one of those that allow refuses.
pub proof fn unrecognised_means_no(answer: Seq<char>, options: Seq<PermissionOptionModel>)
    requires
        !allows_once(answer),
        !allows_always(answer),
    ensures
        chosen(answer, options) == picked(options, "reject_once"@),
        outcome_of(answer, options) == refusal(options),
{
}

/// A refusal takes an option that rejects, or cancels.
pub proof fn a_refusal_never_allows(options: Seq<PermissionOptionModel>)
    ensures
        refusal(options) matches PermissionOutcomeModel::Selected { option_id } ==> exists|i: int|
            0 <= i < options.len() && #[trigger] options[i].kind == "reject_once"@ && options[i].id
                == option_id,
{
    lemma_picked(options, "reject_once"@);
}

proof fn lemma_picked(options: Seq<PermissionOptionModel>, kind: Seq<char>)
    ensures
        picked(options, kind) matches Some(id) ==> exists|i: int|
            0 <= i < options.len() && #[trigger] options[i].kind == kind && options[i].id == id,
    decreases options.len(),
{
    if options.len() > 0 {
        if options[0].kind == kind {
            assert(options[0].kind == kind && options[0].id == options[0].id);
        } else {
            let rest = options.drop_first();
            lemma_picked(rest, kind);
            if let Some(id) = picked(rest, kind) {
                let i = choose|i: int|
                    0 <= i < rest.len() && #[trigger] rest[i].kind == kind && rest[i].id == id;
                assert(options[i + 1].kind == kind && options[i + 1].id == id);
            }
        }
    }
}

/// The questions that an event brings.
pub open spec fn asked(event: RunEventModel) -> Multiset<u64> {
    match event {
        RunEventModel::Agent(AcpEventModel::PermissionRequest { request, .. }) => Multiset::singleton(
            request,
        ),
        _ => Multiset::empty(),
    }
}

/// The questions that are answered.
pub open spec fn answered(deed: DeedModel) -> Multiset<u64> {
    match deed.answer {
        Some(a) => Multiset::singleton(a.0),
        None => Multiset::empty(),
    }
}

/// Every question of the agent is answered once: at once, or when the user has
/// been asked.
pub proof fn every_question_gets_one_answer(runner: RunnerModel, event: RunEventModel)
    requires
        runner.awaits(event),
    ensures
        runner.pending().add(asked(event)) =~= answered(runner.after(event).deed).add(
            runner.after(event).runner.pending(),
        ),
{
}

/// Whether the exit status is success, error or interruption.
pub open spec fn known_status(code: i32) -> bool {
    code == EXIT_OK || code == EXIT_ERROR || code == EXIT_INTERRUPTED
}

proof fn lemma_turn_status(runner: RunnerModel, cancelled: bool, event: AcpEventModel)
    requires
        known_status(runner.code),
    ensures
        known_status(runner.after_turn_event(cancelled, event).runner.code),
{
}

/// The exit status is success, error or interruption.
pub proof fn exit_status_is_known(runner: RunnerModel, event: RunEventModel)
    requires
        known_status(runner.code),
    ensures
        known_status(runner.after(event).runner.code),
{
    match runner.phase {
        PhaseModel::Turn { cancelled } => {
            if let RunEventModel::Agent(e) = event {
                lemma_turn_status(runner, cancelled, e);
            }
        },
        _ => {},
    }
}

/// A run with a prompt of its own ends with its turn: with the status of
/// interruption if the turn was cancelled, of an error if it failed, and of
/// success otherwise.
pub proof fn one_turn_decides_the_exit_status(runner: RunnerModel, event: AcpEventModel)
    requires
        runner.phase is Turn,
        !runner.interactive,
        runner.code == EXIT_OK,
    ensures
        ({
            let next = runner.after(RunEventModel::Agent(event)).runner.next();
            match event {
                AcpEventModel::TurnEnded { stop_reason } => next == NextModel::Exit(
                    if stop_reason == "cancelled"@ {
                        EXIT_INTERRUPTED
                    } else {
                        EXIT_OK
                    },
                ),
                AcpEventModel::Error(_) | AcpEventModel::AuthRequired(_)
                | AcpEventModel::Exited(_) => next == NextModel::Exit(EXIT_ERROR),
                _ => !(next is Exit),
            }
        }),
{
}

} // verus!
