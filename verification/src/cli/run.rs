//! The runner as a state machine: what it does on each event, and what it waits
//! for next.

use crate::cli::ui::{extend, json_lines, Out, OutModel, Said, Ui, UiModel};
use crate::cli::{
    answer_permission, or_first, outcome_of, permit, refusal, refuse, EXIT_ERROR, EXIT_INTERRUPTED,
    EXIT_OK,
};
use crate::app::model::picked;
use crate::event::{
    AcpCommand, AcpCommandModel, AcpEvent, AcpEventModel, PermissionOptionModel,
    PermissionOptionView, PermissionOutcome, PermissionOutcomeModel,
};
use crate::text;
use crate::text::trimmed;
use vstd::multiset::Multiset;
use vstd::prelude::*;

verus! {

/// What the runner reacts to.
pub enum RunEvent {
    Agent(AcpEvent),
    /// The agent's side of the connection is gone.
    Closed,
    /// Ctrl+C.
    Interrupt,
    /// A line that was read, or the end of the input.
    Line(Option<String>),
}

pub enum RunEventModel {
    Agent(AcpEventModel),
    Closed,
    Interrupt,
    Line(Option<Seq<char>>),
}

impl DeepView for RunEvent {
    type V = RunEventModel;

    open spec fn deep_view(&self) -> RunEventModel {
        match self {
            RunEvent::Agent(e) => RunEventModel::Agent(e.deep_view()),
            RunEvent::Closed => RunEventModel::Closed,
            RunEvent::Interrupt => RunEventModel::Interrupt,
            RunEvent::Line(line) => RunEventModel::Line(line.deep_view()),
        }
    }
}

/// What the runner waits for.
pub enum Next {
    /// An event of the agent, or Ctrl+C where the turn can still be cancelled.
    Receive { interruptible: bool },
    /// A line, after this prompt.
    Read { prompt: String },
    /// Nothing: the run is over.
    Exit(i32),
}

pub enum NextModel {
    Receive { interruptible: bool },
    Read { prompt: Seq<char> },
    Exit(i32),
}

impl DeepView for Next {
    type V = NextModel;

    open spec fn deep_view(&self) -> NextModel {
        match self {
            Next::Receive { interruptible } => NextModel::Receive { interruptible: *interruptible },
            Next::Read { prompt } => NextModel::Read { prompt: prompt@ },
            Next::Exit(code) => NextModel::Exit(*code),
        }
    }
}

/// Where the run stands.
pub enum Phase {
    Starting,
    Prompting,
    Turn { cancelled: bool },
    Asking { cancelled: bool, options: Vec<PermissionOptionView>, request: u64 },
    Over,
}

pub enum PhaseModel {
    Starting,
    Prompting,
    Turn { cancelled: bool },
    Asking { cancelled: bool, options: Seq<PermissionOptionModel>, request: u64 },
    Over,
}

impl DeepView for Phase {
    type V = PhaseModel;

    open spec fn deep_view(&self) -> PhaseModel {
        match self {
            Phase::Starting => PhaseModel::Starting,
            Phase::Prompting => PhaseModel::Prompting,
            Phase::Turn { cancelled } => PhaseModel::Turn { cancelled: *cancelled },
            Phase::Asking { cancelled, options, request } => PhaseModel::Asking {
                cancelled: *cancelled,
                options: options.deep_view(),
                request: *request,
            },
            Phase::Over => PhaseModel::Over,
        }
    }
}

pub struct Runner {
    pub ui: Ui,
    /// The prompt that was given, until it is sent.
    pub first: Option<String>,
    pub interactive: bool,
    /// Tool use is allowed without asking.
    pub yes: bool,
    /// There is a terminal to ask on.
    pub can_ask: bool,
    pub code: i32,
    pub phase: Phase,
}

pub struct RunnerModel {
    pub ui: UiModel,
    pub first: Option<Seq<char>>,
    pub interactive: bool,
    pub yes: bool,
    pub can_ask: bool,
    pub code: i32,
    pub phase: PhaseModel,
}

impl View for Runner {
    type V = RunnerModel;

    open spec fn view(&self) -> RunnerModel {
        RunnerModel {
            ui: self.ui@,
            first: self.first.deep_view(),
            interactive: self.interactive,
            yes: self.yes,
            can_ask: self.can_ask,
            code: self.code,
            phase: self.phase.deep_view(),
        }
    }
}

/// What is done about an event: written, sent to the agent, answered.
pub struct Deed {
    pub out: Vec<Out>,
    pub command: Option<AcpCommand>,
    pub answer: Option<(u64, PermissionOutcome)>,
}

pub struct DeedModel {
    pub out: Seq<OutModel>,
    pub command: Option<AcpCommandModel>,
    pub answer: Option<(u64, PermissionOutcomeModel)>,
}

impl DeepView for Deed {
    type V = DeedModel;

    open spec fn deep_view(&self) -> DeedModel {
        DeedModel {
            out: self.out.deep_view(),
            command: self.command.deep_view(),
            answer: self.answer.deep_view(),
        }
    }
}

/// The runner after an event, and what it does.
pub struct RunStep {
    pub runner: RunnerModel,
    pub deed: DeedModel,
}

/// A prompt that ends the session.
pub open spec fn is_goodbye(prompt: Seq<char>) -> bool {
    let word = trimmed(prompt);
    word == "exit"@ || word == "quit"@ || word == "/exit"@ || word == "/quit"@
}

/// One thing said after another.
pub open spec fn both(first: Said, second: Said) -> Said {
    Said { ui: second.ui, out: first.out + second.out }
}

impl RunnerModel {
    /// Whether the event is one that the runner waits for.
    pub open spec fn awaits(self, event: RunEventModel) -> bool {
        match self.next() {
            NextModel::Receive { interruptible } => match event {
                RunEventModel::Agent(_) | RunEventModel::Closed => true,
                RunEventModel::Interrupt => interruptible,
                RunEventModel::Line(_) => false,
            },
            NextModel::Read { .. } => event is Line,
            NextModel::Exit(_) => false,
        }
    }

    /// The question that waits for the user's answer.
    pub open spec fn pending(self) -> Multiset<u64> {
        match self.phase {
            PhaseModel::Asking { request, .. } => Multiset::singleton(request),
            _ => Multiset::empty(),
        }
    }

    /// What the runner waits for.
    pub open spec fn next(self) -> NextModel {
        match self.phase {
            PhaseModel::Starting => NextModel::Receive { interruptible: false },
            PhaseModel::Prompting => NextModel::Read { prompt: "\nyou › "@ },
            PhaseModel::Turn { cancelled } => NextModel::Receive { interruptible: !cancelled },
            PhaseModel::Asking { .. } => NextModel::Read { prompt: "allow? [Y/a/n] "@ },
            PhaseModel::Over => NextModel::Exit(self.code),
        }
    }

    /// What it comes to when the line cannot be read: an answer that cannot be read
    /// counts as the end of the input, and anything else ends the run.
    pub open spec fn read_failed(self) -> Option<RunEventModel> {
        if self.phase is Asking {
            Some(RunEventModel::Line(None))
        } else {
            None
        }
    }

    pub open spec fn saying(self, said: Said) -> RunStep {
        RunStep {
            runner: RunnerModel { ui: said.ui, ..self },
            deed: DeedModel { out: said.out, command: None, answer: None },
        }
    }

    /// Nothing happens.
    pub open spec fn idle(self) -> RunStep {
        self.saying(self.ui.silent())
    }

    /// The run ends here, with this exit status.
    pub open spec fn ended(self, said: Said, code: i32) -> RunStep {
        RunnerModel { code, phase: PhaseModel::Over, ..self }.saying(said)
    }

    /// The agent is told to go, and the run ends.
    pub open spec fn finished(self, said: Said) -> RunStep {
        let step = self.ended(said, self.code);
        RunStep {
            runner: step.runner,
            deed: DeedModel { command: Some(AcpCommandModel::Shutdown), ..step.deed },
        }
    }

    /// The prompt goes to the agent, unless it ends the session.
    pub open spec fn prompted(self, said: Said, prompt: Seq<char>) -> RunStep {
        if is_goodbye(prompt) {
            self.finished(said)
        } else {
            RunStep {
                runner: RunnerModel {
                    ui: said.ui.turn_started(),
                    phase: PhaseModel::Turn { cancelled: false },
                    ..self
                },
                deed: DeedModel {
                    out: said.out,
                    command: Some(AcpCommandModel::Prompt { text: prompt }),
                    answer: None,
                },
            }
        }
    }

    /// After a turn: an interactive session asks for the next prompt, a run with
    /// a prompt of its own is done.
    pub open spec fn turn_over(self, said: Said) -> RunStep {
        if self.interactive {
            RunnerModel { phase: PhaseModel::Prompting, ..self }.saying(said)
        } else {
            self.finished(said)
        }
    }

    /// The agent takes prompts from now on.
    pub open spec fn ready(self) -> RunStep {
        let said = if self.interactive {
            self.ui.status("ready — type a request, Ctrl+D to leave"@)
        } else {
            self.ui.silent()
        };
        match self.first {
            Some(prompt) => RunnerModel { first: None, ..self }.prompted(said, prompt),
            None => self.turn_over(said),
        }
    }

    pub open spec fn after_starting(self, event: RunEventModel) -> RunStep {
        match event {
            RunEventModel::Agent(AcpEventModel::SessionReady { .. }) => self.ready(),
            RunEventModel::Agent(AcpEventModel::Exited(reason)) => self.ended(
                self.ui.error("agent exited before starting: "@ + reason),
                EXIT_ERROR,
            ),
            RunEventModel::Agent(AcpEventModel::AuthRequired(hint)) => self.ended(
                self.ui.error("agent auth problem: "@ + hint),
                EXIT_ERROR,
            ),
            RunEventModel::Closed => self.ended(self.ui.silent(), EXIT_ERROR),
            RunEventModel::Agent(AcpEventModel::PermissionRequest { request, .. }) => {
                let step = self.idle();
                RunStep {
                    runner: step.runner,
                    deed: DeedModel {
                        answer: Some((request, PermissionOutcomeModel::Cancelled)),
                        ..step.deed
                    },
                }
            },
            _ => self.idle(),
        }
    }

    pub open spec fn after_prompting(self, event: RunEventModel) -> RunStep {
        match event {
            RunEventModel::Line(Some(line)) => if trimmed(line).len() == 0 {
                self.idle()
            } else {
                self.prompted(self.ui.silent(), line)
            },
            RunEventModel::Line(None) => self.finished(self.ui.silent()),
            _ => self.idle(),
        }
    }

    /// A question of the agent: allowed, refused, or put to the user.
    pub open spec fn questioned(
        self,
        cancelled: bool,
        title: Seq<char>,
        options: Seq<PermissionOptionModel>,
        request: u64,
    ) -> RunStep {
        if self.yes {
            let step = self.saying(self.ui.status("allowing: "@ + title));
            RunStep {
                runner: step.runner,
                deed: DeedModel {
                    answer: Some(
                        (request, or_first(picked(options, "allow_once"@), options)),
                    ),
                    ..step.deed
                },
            }
        } else if !self.can_ask {
            let step = self.saying(
                self.ui.error("refused (no tty to ask on; pass --yes to allow): "@ + title),
            );
            RunStep {
                runner: step.runner,
                deed: DeedModel { answer: Some((request, refusal(options))), ..step.deed },
            }
        } else {
            RunnerModel { phase: PhaseModel::Asking { cancelled, options, request }, ..self }.saying(
                self.ui.permission_prompt(title, options),
            )
        }
    }

    pub open spec fn turn_ended(self, stop_reason: Seq<char>) -> RunStep {
        let closed = self.ui.line_broken();
        let told = both(closed, closed.ui.turn_ended(stop_reason));
        let said = if stop_reason == "end_turn"@ {
            told
        } else {
            both(told, told.ui.status("turn ended: "@ + stop_reason))
        };
        RunnerModel {
            code: if stop_reason == "cancelled"@ {
                EXIT_INTERRUPTED
            } else {
                self.code
            },
            ..self
        }.turn_over(said)
    }

    pub open spec fn turn_failed(self, message: Seq<char>) -> RunStep {
        let closed = self.ui.line_broken();
        RunnerModel { code: EXIT_ERROR, ..self }.turn_over(both(closed, closed.ui.error(message)))
    }

    pub open spec fn agent_gone(self, reason: Seq<char>) -> RunStep {
        let closed = self.ui.line_broken();
        self.ended(both(closed, closed.ui.error("agent exited: "@ + reason)), EXIT_ERROR)
    }

    pub open spec fn after_turn_event(self, cancelled: bool, event: AcpEventModel) -> RunStep {
        match event {
            AcpEventModel::MessageChunk(text) => self.saying(self.ui.answer(text)),
            AcpEventModel::ThoughtChunk(text) => self.saying(self.ui.thought(text)),
            AcpEventModel::ToolCall(tc) => self.saying(self.ui.tool_started(tc)),
            AcpEventModel::ToolCallUpdate(update) => self.saying(self.ui.tool_updated(update)),
            AcpEventModel::Plan(entries) => self.saying(self.ui.plan(entries)),
            AcpEventModel::PermissionRequest { title, options, request } => self.questioned(
                cancelled,
                title,
                options,
                request,
            ),
            AcpEventModel::TurnEnded { stop_reason } => self.turn_ended(stop_reason),
            AcpEventModel::Error(message) | AcpEventModel::AuthRequired(message) => {
                self.turn_failed(message)
            },
            AcpEventModel::Exited(reason) => self.agent_gone(reason),
            AcpEventModel::SessionReady { .. } => self.idle(),
        }
    }

    pub open spec fn after_turn(self, cancelled: bool, event: RunEventModel) -> RunStep {
        match event {
            RunEventModel::Interrupt => if cancelled {
                self.idle()
            } else {
                let step = RunnerModel {
                    phase: PhaseModel::Turn { cancelled: true },
                    ..self
                }.saying(self.ui.status("cancelling…"@));
                RunStep {
                    runner: step.runner,
                    deed: DeedModel { command: Some(AcpCommandModel::Cancel), ..step.deed },
                }
            },
            RunEventModel::Closed => self.ended(
                self.ui.error("agent exited: event channel closed"@),
                EXIT_ERROR,
            ),
            RunEventModel::Agent(e) => self.after_turn_event(cancelled, e),
            RunEventModel::Line(_) => self.idle(),
        }
    }

    /// The user's answer to a question. Losing the input refuses.
    pub open spec fn after_asking(
        self,
        cancelled: bool,
        options: Seq<PermissionOptionModel>,
        request: u64,
        event: RunEventModel,
    ) -> RunStep {
        let back = RunnerModel { phase: PhaseModel::Turn { cancelled }, ..self };
        match event {
            RunEventModel::Line(Some(line)) => RunStep {
                runner: back,
                deed: DeedModel {
                    out: Seq::empty(),
                    command: None,
                    answer: Some((request, outcome_of(line, options))),
                },
            },
            RunEventModel::Line(None) => {
                let step = back.saying(
                    self.ui.error("input closed before answering — refusing"@),
                );
                RunStep {
                    runner: step.runner,
                    deed: DeedModel { answer: Some((request, refusal(options))), ..step.deed },
                }
            },
            _ => self.idle(),
        }
    }

    /// What an event does.
    pub open spec fn after(self, event: RunEventModel) -> RunStep {
        match self.phase {
            PhaseModel::Starting => self.after_starting(event),
            PhaseModel::Prompting => self.after_prompting(event),
            PhaseModel::Turn { cancelled } => self.after_turn(cancelled, event),
            PhaseModel::Asking { cancelled, options, request } => self.after_asking(
                cancelled,
                options,
                request,
                event,
            ),
            PhaseModel::Over => self.idle(),
        }
    }
}

/// Only what is written.
fn say(out: Vec<Out>) -> (d: Deed)
    ensures
        d.deep_view() == (DeedModel { out: out.deep_view(), command: None, answer: None }),
{
    Deed { out, command: None, answer: None }
}

fn nothing() -> (out: Vec<Out>)
    ensures
        out.deep_view() == Seq::<OutModel>::empty(),
{
    let out: Vec<Out> = Vec::new();
    assert(out.deep_view() =~= Seq::<OutModel>::empty());
    out
}

/// What is said while the connection is made.
pub open spec fn opened(ui: UiModel) -> Said {
    let place = ui.status("working in "@ + ui.cwd);
    both(place, place.ui.status("attesting enclave…"@))
}

/// What is said while the connection is made.
pub fn announce(ui: &mut Ui) -> (out: Vec<Out>)
    ensures
        final(ui)@ == opened(old(ui)@).ui,
        out.deep_view() == opened(old(ui)@).out,
        old(ui)@.json ==> json_lines(out.deep_view()),
{
    let place = text::cat2("working in ", ui.cwd.as_str());
    let mut out = ui.status(place.as_str());
    let more = ui.status("attesting enclave…");
    extend(&mut out, more);
    out
}

/// What is said of the model, after a doubt about it where there is one.
pub open spec fn model_told(ui: UiModel, model: Seq<char>, doubt: Option<Seq<char>>) -> Said {
    let first = match doubt {
        Some(msg) => ui.status(msg),
        None => ui.silent(),
    };
    both(first, first.ui.status("model "@ + model))
}

/// What is said of the model, after a doubt about it where there is one.
pub fn announce_model(ui: &mut Ui, model: &str, doubt: &Option<String>) -> (out: Vec<Out>)
    ensures
        final(ui)@ == model_told(old(ui)@, model@, doubt.deep_view()).ui,
        out.deep_view() == model_told(old(ui)@, model@, doubt.deep_view()).out,
        old(ui)@.json ==> json_lines(out.deep_view()),
{
    let mut out = nothing();
    if let Some(msg) = doubt {
        out = ui.status(msg.as_str());
    }
    let line = text::cat2("model ", model);
    let more = ui.status(line.as_str());
    extend(&mut out, more);
    out
}

impl Runner {
    /// The run at its start, while the agent comes up.
    pub fn new(ui: Ui, first: Option<String>, yes: bool, can_ask: bool) -> (r: Self)
        ensures
            r@ == (RunnerModel {
                ui: ui@,
                first: first.deep_view(),
                interactive: first is None,
                yes,
                can_ask,
                code: EXIT_OK,
                phase: PhaseModel::Starting,
            }),
    {
        let interactive = first.is_none();
        Runner { ui, first, interactive, yes, can_ask, code: EXIT_OK, phase: Phase::Starting }
    }

    /// What the runner waits for.
    pub fn next(&self) -> (n: Next)
        ensures
            n.deep_view() == self@.next(),
    {
        match &self.phase {
            Phase::Starting => Next::Receive { interruptible: false },
            Phase::Prompting => Next::Read { prompt: "\nyou › ".to_string() },
            Phase::Turn { cancelled } => Next::Receive { interruptible: !*cancelled },
            Phase::Asking { .. } => Next::Read { prompt: "allow? [Y/a/n] ".to_string() },
            Phase::Over => Next::Exit(self.code),
        }
    }

    /// What it comes to when the line cannot be read; none if the run ends with the
    /// error.
    pub fn read_failed(&self) -> (e: Option<RunEvent>)
        ensures
            e.deep_view() == self@.read_failed(),
    {
        match &self.phase {
            Phase::Asking { .. } => Some(RunEvent::Line(None)),
            _ => None,
        }
    }

    fn finish(&mut self, out: Vec<Out>) -> (d: Deed)
        ensures
            ({
                let step = old(self)@.finished(Said { ui: old(self)@.ui, out: out.deep_view() });
                final(self)@ == step.runner && d.deep_view() == step.deed
            }),
            json_lines(out.deep_view()) ==> json_lines(d.out.deep_view()),
    {
        self.phase = Phase::Over;
        Deed { out, command: Some(AcpCommand::Shutdown), answer: None }
    }

    fn prompt(&mut self, out: Vec<Out>, prompt: String) -> (d: Deed)
        ensures
            ({
                let step = old(self)@.prompted(
                    Said { ui: old(self)@.ui, out: out.deep_view() },
                    prompt@,
                );
                final(self)@ == step.runner && d.deep_view() == step.deed
            }),
            json_lines(out.deep_view()) ==> json_lines(d.out.deep_view()),
    {
        let trimmed_prompt = text::trim(prompt.as_str());
        let word = trimmed_prompt.as_str();
        if text::same(word, "exit") || text::same(word, "quit") || text::same(word, "/exit")
            || text::same(word, "/quit") {
            return self.finish(out);
        }
        self.ui.start_turn();
        self.phase = Phase::Turn { cancelled: false };
        Deed { out, command: Some(AcpCommand::Prompt { text: prompt }), answer: None }
    }

    fn end_turn(&mut self, out: Vec<Out>) -> (d: Deed)
        ensures
            ({
                let step = old(self)@.turn_over(Said { ui: old(self)@.ui, out: out.deep_view() });
                final(self)@ == step.runner && d.deep_view() == step.deed
            }),
            json_lines(out.deep_view()) ==> json_lines(d.out.deep_view()),
    {
        if self.interactive {
            self.phase = Phase::Prompting;
            say(out)
        } else {
            self.finish(out)
        }
    }

    fn get_ready(&mut self) -> (d: Deed)
        ensures
            final(self)@ == old(self)@.ready().runner,
            d.deep_view() == old(self)@.ready().deed,
            old(self)@.ui.json && old(self)@.ui.valid() ==> json_lines(d.out.deep_view()),
    {
        let mut out = nothing();
        if self.interactive {
            out = self.ui.status("ready — type a request, Ctrl+D to leave");
        }
        match self.first.take() {
            Some(prompt) => self.prompt(out, prompt),
            None => self.end_turn(out),
        }
    }

    fn starting(&mut self, event: RunEvent) -> (d: Deed)
        ensures
            final(self)@ == old(self)@.after_starting(event.deep_view()).runner,
            d.deep_view() == old(self)@.after_starting(event.deep_view()).deed,
            old(self)@.ui.json && old(self)@.ui.valid() ==> json_lines(d.out.deep_view()),
    {
        match event {
            RunEvent::Agent(AcpEvent::SessionReady { .. }) => self.get_ready(),
            RunEvent::Agent(AcpEvent::Exited(reason)) => {
                let msg = text::cat2("agent exited before starting: ", reason.as_str());
                let out = self.ui.error(msg.as_str());
                self.code = EXIT_ERROR;
                self.phase = Phase::Over;
                say(out)
            },
            RunEvent::Agent(AcpEvent::AuthRequired(hint)) => {
                let msg = text::cat2("agent auth problem: ", hint.as_str());
                let out = self.ui.error(msg.as_str());
                self.code = EXIT_ERROR;
                self.phase = Phase::Over;
                say(out)
            },
            RunEvent::Closed => {
                self.code = EXIT_ERROR;
                self.phase = Phase::Over;
                say(nothing())
            },
            RunEvent::Agent(AcpEvent::PermissionRequest { request, .. }) => Deed {
                out: nothing(),
                command: None,
                answer: Some((request, PermissionOutcome::Cancelled)),
            },
            _ => say(nothing()),
        }
    }

    fn prompting(&mut self, event: RunEvent) -> (d: Deed)
        ensures
            final(self)@ == old(self)@.after_prompting(event.deep_view()).runner,
            d.deep_view() == old(self)@.after_prompting(event.deep_view()).deed,
            old(self)@.ui.json && old(self)@.ui.valid() ==> json_lines(d.out.deep_view()),
    {
        match event {
            RunEvent::Line(Some(line)) => {
                if text::trim(line.as_str()).as_str().is_empty() {
                    say(nothing())
                } else {
                    self.prompt(nothing(), line)
                }
            },
            RunEvent::Line(None) => self.finish(nothing()),
            _ => say(nothing()),
        }
    }

    fn question(
        &mut self,
        cancelled: bool,
        title: String,
        options: Vec<PermissionOptionView>,
        request: u64,
    ) -> (d: Deed)
        ensures
            ({
                let step = old(self)@.questioned(
                    cancelled,
                    title@,
                    options.deep_view(),
                    request,
                );
                final(self)@ == step.runner && d.deep_view() == step.deed
            }),
            old(self)@.ui.json && old(self)@.ui.valid() ==> json_lines(d.out.deep_view()),
    {
        if self.yes {
            let out = self.ui.status(text::cat2("allowing: ", title.as_str()).as_str());
            return Deed {
                out,
                command: None,
                answer: Some((request, permit(options.as_slice()))),
            };
        }
        // Nothing to prompt on: refuse rather than hang waiting for a terminal.
        if !self.can_ask {
            let msg = text::cat2(
                "refused (no tty to ask on; pass --yes to allow): ",
                title.as_str(),
            );
            let out = self.ui.error(msg.as_str());
            return Deed {
                out,
                command: None,
                answer: Some((request, refuse(options.as_slice()))),
            };
        }
        let out = self.ui.permission_prompt(title.as_str(), &options);
        self.phase = Phase::Asking { cancelled, options, request };
        say(out)
    }

    fn stop_turn(&mut self, stop_reason: String) -> (d: Deed)
        ensures
            final(self)@ == old(self)@.turn_ended(stop_reason@).runner,
            d.deep_view() == old(self)@.turn_ended(stop_reason@).deed,
            old(self)@.ui.json && old(self)@.ui.valid() ==> json_lines(d.out.deep_view()),
    {
        let mut out = self.ui.finish_answer();
        let told = self.ui.turn_ended(stop_reason.as_str());
        extend(&mut out, told);
        if !text::same(stop_reason.as_str(), "end_turn") {
            let msg = text::cat2("turn ended: ", stop_reason.as_str());
            let more = self.ui.status(msg.as_str());
            extend(&mut out, more);
        }
        if text::same(stop_reason.as_str(), "cancelled") {
            self.code = EXIT_INTERRUPTED;
        }
        self.end_turn(out)
    }

    fn fail_turn(&mut self, message: String) -> (d: Deed)
        ensures
            final(self)@ == old(self)@.turn_failed(message@).runner,
            d.deep_view() == old(self)@.turn_failed(message@).deed,
            old(self)@.ui.json && old(self)@.ui.valid() ==> json_lines(d.out.deep_view()),
    {
        let mut out = self.ui.finish_answer();
        let more = self.ui.error(message.as_str());
        extend(&mut out, more);
        self.code = EXIT_ERROR;
        self.end_turn(out)
    }

    fn lose_agent(&mut self, reason: String) -> (d: Deed)
        ensures
            final(self)@ == old(self)@.agent_gone(reason@).runner,
            d.deep_view() == old(self)@.agent_gone(reason@).deed,
            old(self)@.ui.json && old(self)@.ui.valid() ==> json_lines(d.out.deep_view()),
    {
        let mut out = self.ui.finish_answer();
        let msg = text::cat2("agent exited: ", reason.as_str());
        let more = self.ui.error(msg.as_str());
        extend(&mut out, more);
        self.code = EXIT_ERROR;
        self.phase = Phase::Over;
        say(out)
    }

    fn turn_event(&mut self, cancelled: bool, event: AcpEvent) -> (d: Deed)
        ensures
            final(self)@ == old(self)@.after_turn_event(cancelled, event.deep_view()).runner,
            d.deep_view() == old(self)@.after_turn_event(cancelled, event.deep_view()).deed,
            old(self)@.ui.json && old(self)@.ui.valid() ==> json_lines(d.out.deep_view()),
    {
        match event {
            AcpEvent::MessageChunk(text) => say(self.ui.answer(text.as_str())),
            AcpEvent::ThoughtChunk(text) => say(self.ui.thought(text.as_str())),
            AcpEvent::ToolCall(tc) => say(self.ui.tool_started(&tc)),
            AcpEvent::ToolCallUpdate(update) => say(self.ui.tool_updated(&update)),
            AcpEvent::Plan(entries) => say(self.ui.plan(&entries)),
            AcpEvent::PermissionRequest { title, options, request } => self.question(
                cancelled,
                title,
                options,
                request,
            ),
            AcpEvent::TurnEnded { stop_reason } => self.stop_turn(stop_reason),
            AcpEvent::Error(message) | AcpEvent::AuthRequired(message) => self.fail_turn(message),
            AcpEvent::Exited(reason) => self.lose_agent(reason),
            AcpEvent::SessionReady { .. } => say(nothing()),
        }
    }

    fn turn(&mut self, cancelled: bool, event: RunEvent) -> (d: Deed)
        ensures
            final(self)@ == old(self)@.after_turn(cancelled, event.deep_view()).runner,
            d.deep_view() == old(self)@.after_turn(cancelled, event.deep_view()).deed,
            old(self)@.ui.json && old(self)@.ui.valid() ==> json_lines(d.out.deep_view()),
    {
        match event {
            RunEvent::Interrupt => {
                if cancelled {
                    return say(nothing());
                }
                let out = self.ui.status("cancelling…");
                self.phase = Phase::Turn { cancelled: true };
                Deed { out, command: Some(AcpCommand::Cancel), answer: None }
            },
            RunEvent::Closed => {
                let out = self.ui.error("agent exited: event channel closed");
                self.code = EXIT_ERROR;
                self.phase = Phase::Over;
                say(out)
            },
            RunEvent::Agent(e) => self.turn_event(cancelled, e),
            RunEvent::Line(_) => say(nothing()),
        }
    }

    /// Moves the run by one event.
    pub fn handle(&mut self, event: RunEvent) -> (d: Deed)
        ensures
            final(self)@ == old(self)@.after(event.deep_view()).runner,
            d.deep_view() == old(self)@.after(event.deep_view()).deed,
            old(self)@.ui.json && old(self)@.ui.valid() ==> json_lines(d.out.deep_view()),
    {
        match &self.phase {
            Phase::Starting => self.starting(event),
            Phase::Prompting => self.prompting(event),
            Phase::Turn { cancelled } => {
                let cancelled = *cancelled;
                self.turn(cancelled, event)
            },
            Phase::Asking { cancelled, options, request } => {
                let cancelled = *cancelled;
                let request = *request;
                match event {
                    RunEvent::Line(Some(line)) => {
                        let outcome = answer_permission(line.as_str(), options.as_slice());
                        self.phase = Phase::Turn { cancelled };
                        Deed { out: nothing(), command: None, answer: Some((request, outcome)) }
                    },
                    RunEvent::Line(None) => {
                        let outcome = refuse(options.as_slice());
                        let out = self.ui.error("input closed before answering — refusing");
                        self.phase = Phase::Turn { cancelled };
                        Deed { out, command: None, answer: Some((request, outcome)) }
                    },
                    _ => say(nothing()),
                }
            },
            Phase::Over => say(nothing()),
        }
    }
}

} // verus!
