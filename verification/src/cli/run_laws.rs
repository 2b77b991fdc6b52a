//! What a run does from its start to its end, event by event.

use crate::app::model::picked;
use crate::cli::run::{is_goodbye, NextModel, PhaseModel, RunEventModel, RunStep, RunnerModel};
use crate::cli::ui::UiModel;
use crate::cli::{composed, outcome_of};
use crate::event::{AcpCommandModel, AcpEventModel, PermissionOptionModel, PermissionOutcomeModel};
use crate::text::{blank, trimmed, white_space};
use crate::text_laws::{tight, trimming_takes_white_space_off, what_is_trimmed_is_white_space};
use vstd::prelude::*;

verus! {

/// Whether the user is asked for a request.
pub open spec fn asks_for_request(runner: RunnerModel) -> bool {
    runner.next() == NextModel::Read { prompt: "\nyou › "@ }
}

/// Whether the user is asked to allow the use of a tool.
pub open spec fn asks_for_leave(runner: RunnerModel) -> bool {
    runner.next() == NextModel::Read { prompt: "allow? [Y/a/n] "@ }
}

/// Whether the line is this word, with or without white space around it.
pub open spec fn says(line: Seq<char>, word: Seq<char>) -> bool {
    exists|before: Seq<char>, after: Seq<char>|
        blank(before) && blank(after) && line == #[trigger] (before + word + after)
}

/// Whether the line asks for the session to end.
pub open spec fn says_goodbye(line: Seq<char>) -> bool {
    says(line, "exit"@) || says(line, "quit"@) || says(line, "/exit"@) || says(line, "/quit"@)
}

/// A line is a word with white space around it if the word is left when it is trimmed.
pub proof fn lemma_says(line: Seq<char>, word: Seq<char>)
    requires
        tight(word),
    ensures
        says(line, word) <==> trimmed(line) == word,
{
    if trimmed(line) == word {
        let ends = what_is_trimmed_is_white_space(line);
        assert(line == ends.0 + word + ends.1);
    }
    if says(line, word) {
        let (before, after) = choose|before: Seq<char>, after: Seq<char>|
            blank(before) && blank(after) && line == #[trigger] (before + word + after);
        trimming_takes_white_space_off(before, word, after);
    }
}

proof fn lemma_goodbye(line: Seq<char>)
    ensures
        is_goodbye(line) <==> says_goodbye(line),
{
    reveal_strlit("exit");
    reveal_strlit("quit");
    reveal_strlit("/exit");
    reveal_strlit("/quit");
    lemma_says(line, "exit"@);
    lemma_says(line, "quit"@);
    lemma_says(line, "/exit"@);
    lemma_says(line, "/quit"@);
}

pub proof fn lemma_blank_line(line: Seq<char>)
    ensures
        trimmed(line).len() == 0 <==> blank(line),
{
    let ends = what_is_trimmed_is_white_space(line);
    if trimmed(line).len() == 0 {
        assert forall|i: int| 0 <= i < line.len() implies white_space(#[trigger] line[i]) by {
            if i < ends.0.len() {
                assert(line[i] == ends.0[i]);
            } else {
                assert(line[i] == ends.1[i - ends.0.len()]);
            }
        }
    }
    if blank(line) && trimmed(line).len() > 0 {
        assert(line[ends.0.len() as int] == trimmed(line)[0]);
    }
}

/// Whether the event ends a turn.
pub open spec fn ends_turn(event: AcpEventModel) -> bool {
    event is TurnEnded || event is Error || event is AuthRequired
}

/// An interactive session outlives its turns: however a turn ends, the user is asked
/// for the next request, and the agent is told nothing.
pub proof fn interactive_sessions_go_on(runner: RunnerModel, event: AcpEventModel)
    requires
        runner.interactive,
        runner.phase is Turn,
        ends_turn(event),
    ensures
        ({
            let step = runner.after(RunEventModel::Agent(event));
            &&& asks_for_request(step.runner)
            &&& step.deed.command is None
            &&& step.deed.answer is None
            &&& step.runner.interactive
            &&& step.runner.first == runner.first
        }),
{
}

/// What ends an interactive session: the agent is lost, it cannot start, or the user
/// has been asked for a request and ends the input or says goodbye.
pub open spec fn ends_session(runner: RunnerModel, event: RunEventModel) -> bool {
    match event {
        RunEventModel::Closed => runner.next() is Receive,
        RunEventModel::Agent(AcpEventModel::Exited(_)) => runner.next() is Receive,
        RunEventModel::Agent(AcpEventModel::AuthRequired(_)) => runner.phase is Starting,
        RunEventModel::Line(None) => asks_for_request(runner),
        RunEventModel::Line(Some(line)) => asks_for_request(runner) && says_goodbye(line),
        _ => false,
    }
}

/// An interactive session ends for these reasons and for no other; where the agent is
/// still there, it is told to go.
pub proof fn interactive_sessions_end_for_a_reason(runner: RunnerModel, event: RunEventModel)
    requires
        runner.interactive,
        runner.first is None,
        !(runner.next() is Exit),
    ensures
        runner.after(event).runner.next() is Exit <==> ends_session(runner, event),
        ends_session(runner, event) && event is Line ==> {
            &&& runner.after(event).deed.command == Some(AcpCommandModel::Shutdown)
            &&& runner.after(event).runner.next() == NextModel::Exit(runner.code)
        },
        ends_session(runner, event) && !(event is Line) ==> {
            &&& runner.after(event).deed.command is None
            &&& runner.after(event).runner.next() == NextModel::Exit(1)
        },
{
    reveal_strlit("\nyou › ");
    reveal_strlit("allow? [Y/a/n] ");
    assert("\nyou › "@.len() != "allow? [Y/a/n] "@.len());
    if let RunEventModel::Line(Some(line)) = event {
        lemma_goodbye(line);
        lemma_blank_line(line);
        if is_goodbye(line) {
            reveal_strlit("exit");
            reveal_strlit("quit");
            reveal_strlit("/exit");
            reveal_strlit("/quit");
        }
    }
}

/// When the agent is ready, a run with a prompt sends it as it is and waits for the
/// turn, which can be interrupted; an interactive one asks for a request.
pub proof fn runs_begin_with_their_prompt(runner: RunnerModel, session_id: Seq<char>)
    requires
        runner.phase is Starting,
    ensures
        ({
            let step = runner.after(RunEventModel::Agent(AcpEventModel::SessionReady { session_id }));
            &&& step.deed.answer is None
            &&& match runner.first {
                Some(prompt) => if says_goodbye(prompt) {
                    &&& step.deed.command == Some(AcpCommandModel::Shutdown)
                    &&& step.runner.next() == NextModel::Exit(runner.code)
                } else {
                    &&& step.deed.command == Some(AcpCommandModel::Prompt { text: prompt })
                    &&& step.runner.next() == NextModel::Receive { interruptible: true }
                    &&& step.runner.first is None
                    &&& !step.runner.ui.said_thinking
                },
                None => runner.interactive ==> asks_for_request(step.runner) && step.deed.command
                    is None,
            }
        }),
{
    if let Some(prompt) = runner.first {
        lemma_goodbye(prompt);
    }
}

/// Until the agent is ready nothing is sent to it, and a question of its is cancelled;
/// an agent that cannot start ends the run with status one.
pub proof fn nothing_is_sent_before_the_start(runner: RunnerModel, event: RunEventModel)
    requires
        runner.phase is Starting,
        !(event matches RunEventModel::Agent(AcpEventModel::SessionReady { .. })),
    ensures
        ({
            let step = runner.after(event);
            &&& step.deed.command is None
            &&& step.deed.answer == match event {
                RunEventModel::Agent(AcpEventModel::PermissionRequest { request, .. }) => Some(
                    (request, PermissionOutcomeModel::Cancelled),
                ),
                _ => None,
            }
            &&& step.runner.next() == match event {
                RunEventModel::Closed => NextModel::Exit(1),
                RunEventModel::Agent(AcpEventModel::Exited(_)) => NextModel::Exit(1),
                RunEventModel::Agent(AcpEventModel::AuthRequired(_)) => NextModel::Exit(1),
                _ => NextModel::Receive { interruptible: false },
            }
            &&& step.runner.first == runner.first
        }),
{
}

/// A line that the user types is sent as it is; an empty one is asked for again.
pub proof fn lines_are_sent_as_they_are(runner: RunnerModel, line: Seq<char>)
    requires
        runner.phase is Prompting,
        !says_goodbye(line),
    ensures
        asks_for_request(runner),
        ({
            let step = runner.after(RunEventModel::Line(Some(line)));
            if blank(line) {
                &&& step.runner == runner
                &&& step.deed.command is None
                &&& step.deed.answer is None
                &&& step.deed.out.len() == 0
            } else {
                &&& step.deed.command == Some(AcpCommandModel::Prompt { text: line })
                &&& step.deed.answer is None
                &&& step.deed.out.len() == 0
                &&& step.runner.next() == NextModel::Receive { interruptible: true }
                &&& step.runner.code == runner.code
                &&& step.runner.interactive == runner.interactive
                &&& step.runner.ui == (UiModel { said_thinking: false, ..runner.ui })
            }
        }),
{
    lemma_goodbye(line);
    lemma_blank_line(line);
}

/// The first interruption of a turn cancels it, and the turn goes on until the agent
/// has ended it; a second one does nothing.
pub proof fn interruptions_cancel_once(runner: RunnerModel)
    requires
        runner.next() == (NextModel::Receive { interruptible: true }),
    ensures
        ({
            let once = runner.after(RunEventModel::Interrupt);
            let twice = once.runner.after(RunEventModel::Interrupt);
            &&& once.deed.command == Some(AcpCommandModel::Cancel)
            &&& once.deed.answer is None
            &&& once.runner.next() == NextModel::Receive { interruptible: false }
            &&& once.runner.phase is Turn
            &&& once.runner.code == runner.code
            &&& twice.deed.command is None
            &&& twice.deed.out.len() == 0
            &&& twice.runner == once.runner
        }),
{
}

/// What the agent says and does during a turn does not end it: nothing is sent, and the
/// runner goes on waiting as before.
pub proof fn turns_go_on_until_they_end(runner: RunnerModel, event: AcpEventModel)
    requires
        runner.phase is Turn,
        !ends_turn(event),
        !(event is Exited),
        !(event is PermissionRequest),
    ensures
        ({
            let step = runner.after(RunEventModel::Agent(event));
            &&& step.deed.command is None
            &&& step.deed.answer is None
            &&& step.runner.next() == runner.next()
            &&& step.runner.phase == runner.phase
            &&& step.runner.code == runner.code
        }),
{
}

/// A run with a prompt of its own ends with its turn, and the agent is told to go,
/// unless it has gone by itself: the status is two if the turn was cancelled, one if it
/// failed or the agent was lost, and what it was before otherwise.
pub proof fn runs_with_a_prompt_end_with_their_turn(runner: RunnerModel, event: AcpEventModel)
    requires
        runner.phase is Turn,
        !runner.interactive,
        ends_turn(event) || event is Exited,
    ensures
        ({
            let step = runner.after(RunEventModel::Agent(event));
            &&& step.deed.answer is None
            &&& step.deed.command == if event is Exited {
                None
            } else {
                Some(AcpCommandModel::Shutdown)
            }
            &&& step.runner.next() == NextModel::Exit(
                match event {
                    AcpEventModel::TurnEnded { stop_reason } => if stop_reason == "cancelled"@ {
                        2
                    } else {
                        runner.code
                    },
                    _ => 1,
                },
            )
        }),
{
}

/// The status that a run will exit with is changed by its turns alone: a cancelled turn
/// makes it two, a failed one, or the loss of the agent, makes it one.
pub proof fn turns_decide_the_exit_status(runner: RunnerModel, event: RunEventModel)
    ensures
        runner.after(event).runner.code == if !(runner.next() is Receive) {
            runner.code
        } else {
            match event {
                RunEventModel::Closed => 1,
                RunEventModel::Agent(AcpEventModel::Exited(_)) => 1,
                RunEventModel::Agent(AcpEventModel::AuthRequired(_)) => 1,
                RunEventModel::Agent(AcpEventModel::Error(_)) => if runner.phase is Turn {
                    1
                } else {
                    runner.code
                },
                RunEventModel::Agent(AcpEventModel::TurnEnded { stop_reason }) => if runner.phase
                    is Turn && stop_reason == "cancelled"@ {
                    2
                } else {
                    runner.code
                },
                _ => runner.code,
            }
        },
{
    if let PhaseModel::Turn { cancelled } = runner.phase {
        if let RunEventModel::Agent(e) = event {
            lemma_turn_code(runner, cancelled, e);
        }
    }
}

proof fn lemma_turn_code(runner: RunnerModel, cancelled: bool, event: AcpEventModel)
    requires
        runner.phase == (PhaseModel::Turn { cancelled }),
    ensures
        runner.after_turn_event(cancelled, event).runner.code == match event {
            AcpEventModel::Exited(_) | AcpEventModel::AuthRequired(_) | AcpEventModel::Error(_) => 1,
            AcpEventModel::TurnEnded { stop_reason } => if stop_reason == "cancelled"@ {
                2
            } else {
                runner.code
            },
            _ => runner.code,
        },
{
}

/// Whether the option is the first of its kind.
pub open spec fn first_of(
    options: Seq<PermissionOptionModel>,
    kind: Seq<char>,
    i: int,
) -> bool {
    &&& 0 <= i < options.len()
    &&& options[i].kind == kind
    &&& forall|j: int| 0 <= j < i ==> #[trigger] options[j].kind != kind
}

/// Whether an option of this kind is offered.
pub open spec fn is_offered(options: Seq<PermissionOptionModel>, kind: Seq<char>) -> bool {
    exists|i: int| 0 <= i < options.len() && #[trigger] options[i].kind == kind
}

/// Whether the outcome is the first option of this kind.
pub open spec fn takes(
    outcome: PermissionOutcomeModel,
    options: Seq<PermissionOptionModel>,
    kind: Seq<char>,
) -> bool {
    exists|i: int|
        #[trigger] first_of(options, kind, i) && outcome == (PermissionOutcomeModel::Selected {
            option_id: options[i].id,
        })
}

/// What is picked is the first option of the kind, if one is offered.
pub proof fn the_first_of_a_kind_is_picked(options: Seq<PermissionOptionModel>, kind: Seq<char>)
    ensures
        match picked(options, kind) {
            Some(id) => exists|i: int|
                #[trigger] first_of(options, kind, i) && id == options[i].id,
            None => !is_offered(options, kind),
        },
    decreases options.len(),
{
    if options.len() > 0 {
        if options[0].kind == kind {
            assert(first_of(options, kind, 0));
        } else {
            let rest = options.drop_first();
            the_first_of_a_kind_is_picked(rest, kind);
            match picked(rest, kind) {
                Some(id) => {
                    let i = choose|i: int|
                        #[trigger] first_of(rest, kind, i) && id == rest[i].id;
                    assert(options[i + 1] == rest[i]);
                    assert forall|j: int| 0 <= j < i + 1 implies #[trigger] options[j].kind
                        != kind by {
                        if j > 0 {
                            assert(options[j] == rest[j - 1]);
                        }
                    }
                    assert(first_of(options, kind, i + 1));
                },
                None => {
                    assert forall|i: int| 0 <= i < options.len() implies #[trigger] options[i].kind
                        != kind by {
                        if i > 0 {
                            assert(options[i] == rest[i - 1]);
                        }
                    }
                },
            }
        }
    }
}

/// A question is refused with the first option that rejects once; without one it is
/// cancelled.
pub open spec fn is_refused(
    outcome: PermissionOutcomeModel,
    options: Seq<PermissionOptionModel>,
) -> bool {
    if is_offered(options, "reject_once"@) {
        takes(outcome, options, "reject_once"@)
    } else {
        outcome == PermissionOutcomeModel::Cancelled
    }
}

/// A question is allowed with the first option that allows once; without one, with the
/// first of all.
pub open spec fn is_allowed(
    outcome: PermissionOutcomeModel,
    options: Seq<PermissionOptionModel>,
) -> bool {
    if is_offered(options, "allow_once"@) {
        takes(outcome, options, "allow_once"@)
    } else if options.len() > 0 {
        outcome == (PermissionOutcomeModel::Selected { option_id: options[0].id })
    } else {
        outcome == PermissionOutcomeModel::Cancelled
    }
}

/// A typed answer allows once if it is a `y` or nothing at all, for good if it is an `a`
/// and that is offered, and refuses in every other case.
pub proof fn answers_mean_what_the_prompt_says(
    answer: Seq<char>,
    options: Seq<PermissionOptionModel>,
)
    ensures
        ({
            let outcome = outcome_of(answer, options);
            if says(answer, "y"@) || says(answer, "Y"@) || blank(answer) {
                is_allowed(outcome, options)
            } else if says(answer, "a"@) || says(answer, "A"@) {
                if is_offered(options, "allow_always"@) {
                    takes(outcome, options, "allow_always"@)
                } else {
                    is_allowed(outcome, options)
                }
            } else {
                is_refused(outcome, options)
            }
        }),
{
    reveal_strlit("y");
    reveal_strlit("Y");
    reveal_strlit("a");
    reveal_strlit("A");
    lemma_says(answer, "y"@);
    lemma_says(answer, "Y"@);
    lemma_says(answer, "a"@);
    lemma_says(answer, "A"@);
    lemma_blank_line(answer);
    the_first_of_a_kind_is_picked(options, "allow_once"@);
    the_first_of_a_kind_is_picked(options, "allow_always"@);
    the_first_of_a_kind_is_picked(options, "reject_once"@);
}

/// Whether the question is answered, and the agent is told nothing else.
pub open spec fn only_answers(step: RunStep, request: u64) -> bool {
    &&& step.deed.command is None
    &&& step.deed.answer matches Some(answer) && answer.0 == request
}

/// What the question is answered.
pub open spec fn outcome_in(step: RunStep) -> PermissionOutcomeModel {
    let (_, outcome) = step.deed.answer->0;
    outcome
}

/// What becomes of a question of the agent: with leave given beforehand it is allowed,
/// without a terminal it is refused, and otherwise the user is asked and the line that
/// they type decides, or its absence, which refuses. The turn goes on as it was.
pub proof fn questions_are_decided(
    runner: RunnerModel,
    title: Seq<char>,
    options: Seq<PermissionOptionModel>,
    request: u64,
    line: Seq<char>,
)
    requires
        runner.phase is Turn,
    ensures
        ({
            let step = runner.after(
                RunEventModel::Agent(AcpEventModel::PermissionRequest { title, options, request }),
            );
            if runner.yes {
                &&& only_answers(step, request)
                &&& is_allowed(outcome_in(step), options)
                &&& step.runner.phase == runner.phase
            } else if !runner.can_ask {
                &&& only_answers(step, request)
                &&& is_refused(outcome_in(step), options)
                &&& step.runner.phase == runner.phase
            } else {
                let told = step.runner.after(RunEventModel::Line(Some(line)));
                let lost = step.runner.after(RunEventModel::Line(None));
                &&& step.deed.command is None && step.deed.answer is None
                &&& asks_for_leave(step.runner)
                &&& only_answers(told, request)
                &&& outcome_in(told) == outcome_of(line, options)
                &&& told.deed.out.len() == 0
                &&& told.runner.phase == runner.phase
                &&& only_answers(lost, request)
                &&& is_refused(outcome_in(lost), options)
                &&& lost.runner.phase == runner.phase
            }
        }),
{
    the_first_of_a_kind_is_picked(options, "allow_once"@);
    the_first_of_a_kind_is_picked(options, "reject_once"@);
}

/// A line that cannot be read refuses an open question like the end of the input, and
/// ends the run with its error anywhere else.
pub proof fn unreadable_answers_refuse(runner: RunnerModel)
    ensures
        runner.read_failed() == if asks_for_leave(runner) {
            Some(RunEventModel::Line(None))
        } else {
            None
        },
{
    reveal_strlit("\nyou › ");
    reveal_strlit("allow? [Y/a/n] ");
    assert("\nyou › "@.len() != "allow? [Y/a/n] "@.len());
}

/// The prompt that is made of the arguments and of piped text: the arguments without
/// white space around them, and the piped text behind an empty line; where one is
/// missing, the other alone.
pub proof fn arguments_come_before_piped_text(
    before: Seq<char>,
    words: Seq<char>,
    after: Seq<char>,
    piped: Seq<char>,
)
    requires
        blank(before),
        blank(after),
        tight(words),
        words.len() > 0,
    ensures
        composed(before + words + after, Some(piped)) == Some(words + seq!['\n', '\n'] + piped),
        composed(before + words + after, None) == Some(words),
        composed(before + after, Some(piped)) == Some(piped),
        composed(before + after, None) is None,
{
    reveal_strlit("\n\n");
    assert("\n\n"@ =~= seq!['\n', '\n']);
    trimming_takes_white_space_off(before, words, after);
    let nothing = Seq::<char>::empty();
    trimming_takes_white_space_off(before, nothing, after);
    assert(before + nothing + after =~= before + after);
}

} // verus!
