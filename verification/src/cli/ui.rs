//! What the line-oriented runner writes, and on which stream.
//!
//! Assistant prose goes to stdout and everything else (tool calls, thinking,
//! status, prompts) to stderr. With JSON output every event is one line on
//! stdout.

use crate::cli::RunArgs;
use crate::event::{
    plan_glyph, PermissionOptionModel, PermissionOptionView, PlanEntryModel, PlanEntryView, ToolCallModel,
    ToolCallUpdateModel, ToolCallUpdateView, ToolCallView,
};
use crate::text;
use crate::text::{joined, without_part};
use vstd::prelude::*;

verus! {

/// A piece of output.
pub enum Out {
    Stdout(String),
    Stderr(String),
}

pub enum OutModel {
    Stdout(Seq<char>),
    Stderr(Seq<char>),
}

impl DeepView for Out {
    type V = OutModel;

    open spec fn deep_view(&self) -> OutModel {
        match self {
            Out::Stdout(text) => OutModel::Stdout(text@),
            Out::Stderr(text) => OutModel::Stderr(text@),
        }
    }
}

/// The value of a field of a JSON event.
pub enum Json {
    Text(String),
    MaybeText(Option<String>),
    /// Objects whose fields are texts.
    List(Vec<Vec<(String, String)>>),
}

pub enum JsonModel {
    Text(Seq<char>),
    MaybeText(Option<Seq<char>>),
    List(Seq<Seq<(Seq<char>, Seq<char>)>>),
}

impl DeepView for Json {
    type V = JsonModel;

    open spec fn deep_view(&self) -> JsonModel {
        match self {
            Json::Text(s) => JsonModel::Text(s@),
            Json::MaybeText(s) => JsonModel::MaybeText(s.deep_view()),
            Json::List(rows) => JsonModel::List(rows.deep_view()),
        }
    }
}

/// The compact form of the JSON object with these fields.
pub uninterp spec fn json_text(fields: Seq<(Seq<char>, JsonModel)>) -> Seq<char>;

/// `serde_json::Value`'s `Display` on the object with these fields: the text is
/// named by [`json_text`]. The compact form has no line breaks between tokens,
/// and strings have theirs escaped, so it is one line.
#[verifier::external_body]
fn compact_json(fields: &Vec<(String, Json)>) -> (r: String)
    ensures
        r@ == json_text(fields.deep_view()),
        !r@.contains('\n'),
{
    let value = |v: &Json| match v {
        Json::Text(s) => serde_json::Value::from(s.as_str()),
        Json::MaybeText(s) => serde_json::Value::from(s.clone()),
        Json::List(rows) => rows.iter().map(
            |row| row.iter().cloned().collect::<serde_json::Value>(),
        ).collect::<serde_json::Value>(),
    };
    fields.iter().map(|f| (f.0.clone(), value(&f.1))).collect::<serde_json::Value>().to_string()
}

/// The runner's output state.
pub struct Ui {
    pub json: bool,
    pub quiet: bool,
    pub color: bool,
    pub think: bool,
    pub cwd: String,
    /// Prose has been written to stdout and its line is still open.
    pub mid_answer: bool,
    /// Thinking has been written to stderr and its line is still open.
    pub mid_thought: bool,
    pub said_thinking: bool,
}

pub struct UiModel {
    pub json: bool,
    pub quiet: bool,
    pub color: bool,
    pub think: bool,
    pub cwd: Seq<char>,
    pub mid_answer: bool,
    pub mid_thought: bool,
    pub said_thinking: bool,
}

impl View for Ui {
    type V = UiModel;

    open spec fn view(&self) -> UiModel {
        UiModel {
            json: self.json,
            quiet: self.quiet,
            color: self.color,
            think: self.think,
            cwd: self.cwd@,
            mid_answer: self.mid_answer,
            mid_thought: self.mid_thought,
            said_thinking: self.said_thinking,
        }
    }
}

/// The output state after something was said, and what is written.
pub struct Said {
    pub ui: UiModel,
    pub out: Seq<OutModel>,
}

/// What the prompt offers for this kind of option.
pub open spec fn offer(kind: Seq<char>) -> Option<Seq<char>> {
    if kind == "allow_once"@ {
        Some("y allow once"@)
    } else if kind == "allow_always"@ {
        Some("a allow always"@)
    } else if kind == "reject_once"@ {
        Some("n reject"@)
    } else {
        None
    }
}

/// What the prompt offers, in the order of the options.
pub open spec fn offers(options: Seq<PermissionOptionModel>) -> Seq<Seq<char>>
    decreases options.len(),
{
    if options.len() == 0 {
        Seq::empty()
    } else {
        let earlier = offers(options.drop_last());
        match offer(options.last().kind) {
            Some(o) => earlier.push(o),
            None => earlier,
        }
    }
}

/// The fields of a plan entry.
pub open spec fn entry_fields(entry: PlanEntryModel) -> Seq<(Seq<char>, Seq<char>)> {
    seq![("content"@, entry.content), ("status"@, entry.status)]
}

/// One line, with its line feed.
pub open spec fn is_line(text: Seq<char>) -> bool {
    text.len() > 0 && text.last() == '\n' && !text.drop_last().contains('\n')
}

/// Whether all that is written is whole lines on stdout.
pub open spec fn json_lines(out: Seq<OutModel>) -> bool {
    forall|i: int|
        0 <= i < out.len() ==> #[trigger] out[i] is Stdout && is_line(out[i]->Stdout_0)
}

impl UiModel {
    /// Nothing is written.
    pub open spec fn silent(self) -> Said {
        Said { ui: self, out: Seq::empty() }
    }

    pub open spec fn turn_started(self) -> UiModel {
        UiModel { said_thinking: false, ..self }
    }

    /// Whichever stream is mid-line is closed.
    pub open spec fn line_broken(self) -> Said {
        let answer = if self.mid_answer {
            seq![OutModel::Stdout("\n"@)]
        } else {
            Seq::empty()
        };
        let thought = if self.mid_thought {
            if self.color {
                seq![OutModel::Stderr("\x1b[0m\n"@)]
            } else {
                seq![OutModel::Stderr("\n"@)]
            }
        } else {
            Seq::empty()
        };
        Said {
            ui: UiModel { mid_answer: false, mid_thought: false, ..self },
            out: answer + thought,
        }
    }

    /// Paths inside the working directory are given relative to it.
    pub open spec fn shortened(self, text: Seq<char>) -> Seq<char> {
        without_part(text, self.cwd + "/"@)
    }

    /// Text in a terminal colour, where there are colours.
    pub open spec fn painted(self, code: Seq<char>, text: Seq<char>) -> Seq<char> {
        if self.color {
            "\x1b["@ + code + "m"@ + text + "\x1b[0m"@
        } else {
            text
        }
    }

    /// One event as a line of JSON.
    pub open spec fn event(self, fields: Seq<(Seq<char>, JsonModel)>) -> Said {
        Said { ui: self, out: seq![OutModel::Stdout(json_text(fields) + "\n"@)] }
    }

    /// A line on stderr, of its own.
    pub open spec fn noted(self, text: Seq<char>) -> Said {
        let broken = self.line_broken();
        Said { ui: broken.ui, out: broken.out.push(OutModel::Stderr(text + "\n"@)) }
    }

    pub open spec fn status(self, msg: Seq<char>) -> Said {
        if self.json {
            self.event(
                seq![
                    ("type"@, JsonModel::Text("status"@)),
                    ("message"@, JsonModel::Text(msg)),
                ],
            )
        } else if self.quiet {
            self.silent()
        } else {
            self.noted(self.painted("2"@, "· "@ + msg))
        }
    }

    pub open spec fn turn_ended(self, reason: Seq<char>) -> Said {
        if self.json {
            self.event(
                seq![
                    ("type"@, JsonModel::Text("turn_ended"@)),
                    ("stop_reason"@, JsonModel::Text(reason)),
                ],
            )
        } else {
            self.silent()
        }
    }

    pub open spec fn error(self, msg: Seq<char>) -> Said {
        if self.json {
            self.event(
                seq![("type"@, JsonModel::Text("error"@)), ("message"@, JsonModel::Text(msg))],
            )
        } else {
            self.noted(self.painted("31"@, "! "@ + msg))
        }
    }

    pub open spec fn answer(self, text: Seq<char>) -> Said {
        if self.json {
            self.event(
                seq![("type"@, JsonModel::Text("message"@)), ("text"@, JsonModel::Text(text))],
            )
        } else {
            let before = if self.mid_thought {
                self.line_broken()
            } else {
                self.silent()
            };
            Said {
                ui: UiModel { mid_answer: true, ..before.ui },
                out: before.out.push(OutModel::Stdout(text)),
            }
        }
    }

    /// Reasoning: without the wish to see it, it is mentioned once per turn; with
    /// it, it runs on as prose.
    pub open spec fn thought(self, text: Seq<char>) -> Said {
        if self.json {
            self.event(
                seq![("type"@, JsonModel::Text("thought"@)), ("text"@, JsonModel::Text(text))],
            )
        } else if self.quiet {
            self.silent()
        } else if !self.think {
            if self.said_thinking {
                self.silent()
            } else {
                UiModel { said_thinking: true, ..self }.noted(
                    self.painted("2"@, "~ thinking…"@),
                )
            }
        } else {
            let before = if self.mid_answer {
                self.line_broken()
            } else {
                self.silent()
            };
            let opening = if before.ui.mid_thought {
                Seq::empty()
            } else if self.color {
                seq![OutModel::Stderr("\x1b[2;3m~ "@)]
            } else {
                seq![OutModel::Stderr("~ "@)]
            };
            let prose = text.map_values(
                |c: char|
                    if c == '\n' {
                        ' '
                    } else {
                        c
                    },
            );
            Said {
                ui: UiModel { mid_thought: true, ..before.ui },
                out: (before.out + opening).push(OutModel::Stderr(prose)),
            }
        }
    }

    pub open spec fn tool_started(self, tc: ToolCallModel) -> Said {
        if self.json {
            self.event(
                seq![
                    ("type"@, JsonModel::Text("tool"@)),
                    ("id"@, JsonModel::Text(tc.id)),
                    ("kind"@, JsonModel::Text(tc.kind)),
                    ("title"@, JsonModel::Text(tc.title)),
                    ("status"@, JsonModel::Text(tc.status)),
                ],
            )
        } else if self.quiet {
            self.silent()
        } else {
            let kind = if tc.kind == "other"@ {
                Seq::empty()
            } else {
                tc.kind + " "@
            };
            self.noted(self.painted("2"@, "› "@ + kind + self.shortened(tc.title)))
        }
    }

    /// Success is implied by the run going on; only failures need saying, and a
    /// quiet run leaves them to the answer.
    pub open spec fn tool_updated(self, update: ToolCallUpdateModel) -> Said {
        if self.json {
            self.event(
                seq![
                    ("type"@, JsonModel::Text("tool_update"@)),
                    ("id"@, JsonModel::Text(update.id)),
                    ("status"@, JsonModel::MaybeText(update.status)),
                    ("title"@, JsonModel::MaybeText(update.title)),
                ],
            )
        } else if self.quiet {
            self.silent()
        } else if update.status == Some("failed"@) {
            let what = match update.title {
                Some(title) => title,
                None => update.id,
            };
            self.noted(self.painted("31"@, "× "@ + self.shortened(what) + " failed"@))
        } else {
            self.silent()
        }
    }

    /// The entries of a plan, one line each.
    pub open spec fn plan_lines(self, entries: Seq<PlanEntryModel>) -> Said
        decreases entries.len(),
    {
        if entries.len() == 0 {
            self.silent()
        } else {
            let earlier = self.plan_lines(entries.drop_last());
            let entry = entries.last();
            let said = earlier.ui.noted(
                self.painted("2"@, "  "@ + plan_glyph(entry.status) + " "@ + entry.content),
            );
            Said { ui: said.ui, out: earlier.out + said.out }
        }
    }

    pub open spec fn plan(self, entries: Seq<PlanEntryModel>) -> Said {
        if self.json {
            self.event(
                seq![
                    ("type"@, JsonModel::Text("plan"@)),
                    (
                        "entries"@,
                        JsonModel::List(entries.map_values(|e: PlanEntryModel| entry_fields(e))),
                    ),
                ],
            )
        } else if self.quiet {
            self.silent()
        } else {
            self.plan_lines(entries)
        }
    }

    pub open spec fn permission_prompt(
        self,
        title: Seq<char>,
        options: Seq<PermissionOptionModel>,
    ) -> Said {
        if self.json {
            self.event(
                seq![
                    ("type"@, JsonModel::Text("permission_request"@)),
                    ("title"@, JsonModel::Text(title)),
                ],
            )
        } else {
            let asked = self.noted(self.painted("1;33"@, "? "@ + self.shortened(title)));
            if offers(options).len() == 0 {
                asked
            } else {
                let offered = self.painted("2"@, "  "@ + joined(offers(options), "  ·  "@));
                Said { ui: asked.ui, out: asked.out.push(OutModel::Stderr(offered + "\n"@)) }
            }
        }
    }

    /// With JSON output no line is ever left open.
    pub open spec fn valid(self) -> bool {
        self.json ==> !self.mid_answer && !self.mid_thought
    }
}

/// Text in a field.
fn field(name: &str, value: &str) -> (f: (String, Json))
    ensures
        f.deep_view() == (name@, JsonModel::Text(value@)),
{
    (text::owned(name), Json::Text(text::owned(value)))
}

/// Text in a field, or null.
fn maybe_field(name: &str, value: &Option<String>) -> (f: (String, Json))
    ensures
        f.deep_view() == (name@, JsonModel::MaybeText(value.deep_view())),
{
    let value = match value {
        Some(s) => Some(s.clone()),
        None => None,
    };
    (text::owned(name), Json::MaybeText(value))
}

/// What is written ends with this piece.
fn put(out: &mut Vec<Out>, piece: Out)
    ensures
        final(out).deep_view() == old(out).deep_view().push(piece.deep_view()),
{
    out.push(piece);
    assert(out.deep_view() =~= old(out).deep_view().push(piece.deep_view()));
}

/// Nothing.
fn nothing() -> (out: Vec<Out>)
    ensures
        out.deep_view() == Seq::<OutModel>::empty(),
{
    let out: Vec<Out> = Vec::new();
    assert(out.deep_view() =~= Seq::<OutModel>::empty());
    out
}

impl Ui {
    /// The output state at the start. Colours are for a terminal that was not
    /// asked to go without.
    pub fn new(args: &RunArgs, cwd: String, stderr_is_terminal: bool, no_color: bool) -> (ui: Self)
        ensures
            ui@ == (UiModel {
                json: args.json,
                quiet: args.quiet,
                color: stderr_is_terminal && !no_color,
                think: args.think,
                cwd: cwd@,
                mid_answer: false,
                mid_thought: false,
                said_thinking: false,
            }),
            ui@.valid(),
    {
        Ui {
            json: args.json,
            quiet: args.quiet,
            color: stderr_is_terminal && !no_color,
            think: args.think,
            cwd,
            mid_answer: false,
            mid_thought: false,
            said_thinking: false,
        }
    }

    pub fn start_turn(&mut self)
        ensures
            final(self)@ == old(self)@.turn_started(),
    {
        self.said_thinking = false;
    }

    /// Close whichever stream is mid-line so the next output starts clean.
    pub fn break_line(&mut self) -> (out: Vec<Out>)
        ensures
            final(self)@ == old(self)@.line_broken().ui,
            out.deep_view() == old(self)@.line_broken().out,
    {
        let mut out = nothing();
        if self.mid_answer {
            put(&mut out, Out::Stdout("\n".to_string()));
            self.mid_answer = false;
        }
        if self.mid_thought {
            if self.color {
                put(&mut out, Out::Stderr("\x1b[0m\n".to_string()));
            } else {
                put(&mut out, Out::Stderr("\n".to_string()));
            }
            self.mid_thought = false;
        }
        assert(out.deep_view() =~= old(self)@.line_broken().out);
        out
    }

    /// Paths inside the working directory read better relative to it.
    pub fn shorten(&self, text: &str) -> (r: String)
        ensures
            r@ == self@.shortened(text@),
    {
        let dir = text::cat2(self.cwd.as_str(), "/");
        proof {
            reveal_strlit("/");
        }
        text::remove_part(text, dir.as_str())
    }

    pub fn paint(&self, code: &str, text: &str) -> (r: String)
        ensures
            r@ == self@.painted(code@, text@),
    {
        if self.color {
            let head = text::cat3("\x1b[", code, "m");
            text::cat3(head.as_str(), text, "\x1b[0m")
        } else {
            text::owned(text)
        }
    }

    fn emit(&self, fields: Vec<(String, Json)>) -> (out: Vec<Out>)
        ensures
            out.deep_view() == self@.event(fields.deep_view()).out,
            json_lines(out.deep_view()),
    {
        let line = compact_json(&fields);
        let mut out = nothing();
        put(&mut out, Out::Stdout(text::cat2(line.as_str(), "\n")));
        proof {
            reveal_strlit("\n");
            assert(out.deep_view() =~= self@.event(fields.deep_view()).out);
            assert((line@ + "\n"@).drop_last() =~= line@);
        }
        out
    }

    fn note(&mut self, text: &str) -> (out: Vec<Out>)
        ensures
            final(self)@ == old(self)@.noted(text@).ui,
            out.deep_view() == old(self)@.noted(text@).out,
    {
        // Keep side-channel output off the same line as streaming prose.
        let mut out = self.break_line();
        put(&mut out, Out::Stderr(text::cat2(text, "\n")));
        out
    }

    pub fn status(&mut self, msg: &str) -> (out: Vec<Out>)
        ensures
            final(self)@ == old(self)@.status(msg@).ui,
            out.deep_view() == old(self)@.status(msg@).out,
            old(self)@.json ==> json_lines(out.deep_view()),
    {
        if self.json {
            let fields = vec![field("type", "status"), field("message", msg)];
            assert(fields.deep_view() =~= seq![
                ("type"@, JsonModel::Text("status"@)),
                ("message"@, JsonModel::Text(msg@)),
            ]);
            return self.emit(fields);
        }
        if self.quiet {
            return nothing();
        }
        let line = self.paint("2", text::cat2("· ", msg).as_str());
        self.note(line.as_str())
    }

    pub fn turn_ended(&self, reason: &str) -> (out: Vec<Out>)
        ensures
            out.deep_view() == self@.turn_ended(reason@).out,
            self@.json ==> json_lines(out.deep_view()),
            self@.turn_ended(reason@).ui == self@,
    {
        if self.json {
            let fields = vec![field("type", "turn_ended"), field("stop_reason", reason)];
            assert(fields.deep_view() =~= seq![
                ("type"@, JsonModel::Text("turn_ended"@)),
                ("stop_reason"@, JsonModel::Text(reason@)),
            ]);
            self.emit(fields)
        } else {
            nothing()
        }
    }

    pub fn error(&mut self, msg: &str) -> (out: Vec<Out>)
        ensures
            final(self)@ == old(self)@.error(msg@).ui,
            out.deep_view() == old(self)@.error(msg@).out,
            old(self)@.json ==> json_lines(out.deep_view()),
    {
        if self.json {
            let fields = vec![field("type", "error"), field("message", msg)];
            assert(fields.deep_view() =~= seq![
                ("type"@, JsonModel::Text("error"@)),
                ("message"@, JsonModel::Text(msg@)),
            ]);
            return self.emit(fields);
        }
        let line = self.paint("31", text::cat2("! ", msg).as_str());
        self.note(line.as_str())
    }

    pub fn answer(&mut self, text: &str) -> (out: Vec<Out>)
        ensures
            final(self)@ == old(self)@.answer(text@).ui,
            out.deep_view() == old(self)@.answer(text@).out,
            old(self)@.json ==> json_lines(out.deep_view()),
    {
        if self.json {
            let fields = vec![field("type", "message"), field("text", text)];
            assert(fields.deep_view() =~= seq![
                ("type"@, JsonModel::Text("message"@)),
                ("text"@, JsonModel::Text(text@)),
            ]);
            return self.emit(fields);
        }
        let mut out = nothing();
        if self.mid_thought {
            out = self.break_line();
        }
        put(&mut out, Out::Stdout(text::owned(text)));
        self.mid_answer = true;
        out
    }

    pub fn finish_answer(&mut self) -> (out: Vec<Out>)
        ensures
            final(self)@ == old(self)@.line_broken().ui,
            out.deep_view() == old(self)@.line_broken().out,
    {
        self.break_line()
    }

    pub fn thought(&mut self, text: &str) -> (out: Vec<Out>)
        ensures
            final(self)@ == old(self)@.thought(text@).ui,
            out.deep_view() == old(self)@.thought(text@).out,
            old(self)@.json ==> json_lines(out.deep_view()),
    {
        if self.json {
            let fields = vec![field("type", "thought"), field("text", text)];
            assert(fields.deep_view() =~= seq![
                ("type"@, JsonModel::Text("thought"@)),
                ("text"@, JsonModel::Text(text@)),
            ]);
            return self.emit(fields);
        }
        if self.quiet {
            return nothing();
        }
        // Reasoning arrives a few tokens at a time. Without the wish to see it,
        // just say once that it is happening; with it, stream it as continuous
        // prose rather than one line per fragment.
        if !self.think {
            if self.said_thinking {
                return nothing();
            }
            self.said_thinking = true;
            let line = self.paint("2", "~ thinking…");
            return self.note(line.as_str());
        }
        let mut out = nothing();
        if self.mid_answer {
            out = self.break_line();
        }
        let ghost before = out.deep_view();
        if !self.mid_thought {
            self.mid_thought = true;
            if self.color {
                put(&mut out, Out::Stderr("\x1b[2;3m~ ".to_string()));
            } else {
                put(&mut out, Out::Stderr("~ ".to_string()));
            }
        }
        let prose = text::replace_char(text, '\n', ' ');
        put(&mut out, Out::Stderr(prose));
        assert(out.deep_view() =~= old(self)@.thought(text@).out);
        out
    }

    pub fn tool_started(&mut self, tc: &ToolCallView) -> (out: Vec<Out>)
        ensures
            final(self)@ == old(self)@.tool_started(tc.deep_view()).ui,
            out.deep_view() == old(self)@.tool_started(tc.deep_view()).out,
            old(self)@.json ==> json_lines(out.deep_view()),
    {
        if self.json {
            let fields = vec![
                field("type", "tool"),
                field("id", tc.id.as_str()),
                field("kind", tc.kind.as_str()),
                field("title", tc.title.as_str()),
                field("status", tc.status.as_str()),
            ];
            assert(fields.deep_view() =~= seq![
                ("type"@, JsonModel::Text("tool"@)),
                ("id"@, JsonModel::Text(tc.id@)),
                ("kind"@, JsonModel::Text(tc.kind@)),
                ("title"@, JsonModel::Text(tc.title@)),
                ("status"@, JsonModel::Text(tc.status@)),
            ]);
            return self.emit(fields);
        }
        if self.quiet {
            return nothing();
        }
        let kind = if text::same(tc.kind.as_str(), "other") {
            String::new()
        } else {
            text::cat2(tc.kind.as_str(), " ")
        };
        let title = self.shorten(tc.title.as_str());
        let what = text::cat3("› ", kind.as_str(), title.as_str());
        let line = self.paint("2", what.as_str());
        self.note(line.as_str())
    }

    pub fn tool_updated(&mut self, update: &ToolCallUpdateView) -> (out: Vec<Out>)
        ensures
            final(self)@ == old(self)@.tool_updated(update.deep_view()).ui,
            out.deep_view() == old(self)@.tool_updated(update.deep_view()).out,
            old(self)@.json ==> json_lines(out.deep_view()),
    {
        if self.json {
            let fields = vec![
                field("type", "tool_update"),
                field("id", update.id.as_str()),
                maybe_field("status", &update.status),
                maybe_field("title", &update.title),
            ];
            assert(fields.deep_view() =~= seq![
                ("type"@, JsonModel::Text("tool_update"@)),
                ("id"@, JsonModel::Text(update.id@)),
                ("status"@, JsonModel::MaybeText(update.status.deep_view())),
                ("title"@, JsonModel::MaybeText(update.title.deep_view())),
            ]);
            return self.emit(fields);
        }
        if self.quiet {
            return nothing();
        }
        let failed = match &update.status {
            Some(status) => text::same(status.as_str(), "failed"),
            None => false,
        };
        if !failed {
            return nothing();
        }
        let what = match &update.title {
            Some(title) => self.shorten(title.as_str()),
            None => self.shorten(update.id.as_str()),
        };
        let what = text::cat3("× ", what.as_str(), " failed");
        let line = self.paint("31", what.as_str());
        self.note(line.as_str())
    }

    pub fn plan(&mut self, entries: &Vec<PlanEntryView>) -> (out: Vec<Out>)
        ensures
            final(self)@ == old(self)@.plan(entries.deep_view()).ui,
            out.deep_view() == old(self)@.plan(entries.deep_view()).out,
            old(self)@.json ==> json_lines(out.deep_view()),
    {
        let ghost all = entries.deep_view();
        let ghost fields_of = |e: PlanEntryModel| entry_fields(e);
        if self.json {
            let mut rows: Vec<Vec<(String, String)>> = Vec::new();
            let mut i: usize = 0;
            while i < entries.len()
                invariant
                    i <= entries.len(),
                    all == entries.deep_view(),
                    fields_of == (|e: PlanEntryModel| entry_fields(e)),
                    rows.deep_view() =~= all.take(i as int).map_values(fields_of),
                decreases entries.len() - i,
            {
                let ghost before = rows.deep_view();
                let row = vec![
                    (text::owned("content"), entries[i].content.clone()),
                    (text::owned("status"), entries[i].status.clone()),
                ];
                assert(row.deep_view() =~= entry_fields(all[i as int]));
                rows.push(row);
                i += 1;
                proof {
                    assert(rows.deep_view() =~= before.push(row.deep_view()));
                    assert(all.take(i as int) =~= all.take(i - 1).push(all[i - 1]));
                }
            }
            proof {
                assert(all.take(i as int) =~= all);
            }
            let fields = vec![field("type", "plan"), (text::owned("entries"), Json::List(rows))];
            assert(fields.deep_view() =~= seq![
                ("type"@, JsonModel::Text("plan"@)),
                ("entries"@, JsonModel::List(all.map_values(fields_of))),
            ]);
            return self.emit(fields);
        }
        if self.quiet {
            return nothing();
        }
        let mut out = nothing();
        let mut i: usize = 0;
        let ghost start = self@;
        proof {
            assert(all.take(0) =~= Seq::empty());
        }
        while i < entries.len()
            invariant
                i <= entries.len(),
                all == entries.deep_view(),
                start == old(self)@,
                self@ == start.plan_lines(all.take(i as int)).ui,
                self.color == start.color,
                out.deep_view() == start.plan_lines(all.take(i as int)).out,
            decreases entries.len() - i,
        {
            let entry = &entries[i];
            proof {
                assert(all.take(i + 1).drop_last() =~= all.take(i as int));
                assert(all.take(i + 1).last() == entry.deep_view());
            }
            let head = text::cat3("  ", entry.glyph(), " ");
            let what = text::cat2(head.as_str(), entry.content.as_str());
            let line = self.paint("2", what.as_str());
            let more = self.note(line.as_str());
            extend(&mut out, more);
            i += 1;
        }
        proof {
            assert(all.take(i as int) =~= all);
        }
        out
    }

    pub fn permission_prompt(&mut self, title: &str, options: &Vec<PermissionOptionView>) -> (out:
        Vec<Out>)
        ensures
            final(self)@ == old(self)@.permission_prompt(title@, options.deep_view()).ui,
            out.deep_view() == old(self)@.permission_prompt(title@, options.deep_view()).out,
            old(self)@.json ==> json_lines(out.deep_view()),
    {
        if self.json {
            let fields = vec![field("type", "permission_request"), field("title", title)];
            assert(fields.deep_view() =~= seq![
                ("type"@, JsonModel::Text("permission_request"@)),
                ("title"@, JsonModel::Text(title@)),
            ]);
            return self.emit(fields);
        }
        let what = self.shorten(title);
        let question = self.paint("1;33", text::cat2("? ", what.as_str()).as_str());
        let mut out = self.note(question.as_str());
        let offered = offered(options);
        if offered.len() > 0 {
            let row = text::cat2("  ", text::join(&offered, "  ·  ").as_str());
            let line = self.paint("2", row.as_str());
            put(&mut out, Out::Stderr(text::cat2(line.as_str(), "\n")));
        }
        out
    }
}

/// What the prompt offers, in the order of the options.
fn offered(options: &Vec<PermissionOptionView>) -> (r: Vec<String>)
    ensures
        r.deep_view() == offers(options.deep_view()),
{
    let mut r: Vec<String> = Vec::new();
    let mut i: usize = 0;
    let ghost all = options.deep_view();
    proof {
        assert(all.take(0) =~= Seq::empty());
        assert(r.deep_view() =~= Seq::empty());
    }
    while i < options.len()
        invariant
            i <= options.len(),
            all == options.deep_view(),
            r.deep_view() == offers(all.take(i as int)),
        decreases options.len() - i,
    {
        let ghost before = r.deep_view();
        let kind = options[i].kind.as_str();
        proof {
            assert(all.take(i + 1).drop_last() =~= all.take(i as int));
            assert(all.take(i + 1).last() == options[i as int].deep_view());
        }
        if text::same(kind, "allow_once") {
            r.push("y allow once".to_string());
        } else if text::same(kind, "allow_always") {
            r.push("a allow always".to_string());
        } else if text::same(kind, "reject_once") {
            r.push("n reject".to_string());
        }
        proof {
            match offer(kind@) {
                Some(o) => {
                    assert(r.deep_view() =~= before.push(o));
                },
                None => {},
            }
        }
        i += 1;
    }
    proof {
        assert(all.take(i as int) =~= all);
    }
    r
}

/// What is written goes on with these pieces.
pub(crate) fn extend(out: &mut Vec<Out>, more: Vec<Out>)
    ensures
        final(out).deep_view() == old(out).deep_view() + more.deep_view(),
{
    let mut rest = more;
    out.append(&mut rest);
    assert(out.deep_view() =~= old(out).deep_view() + more.deep_view());
}

} // verus!
