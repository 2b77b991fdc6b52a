use maplet::cli::run::{announce, announce_model, Deed, Next, RunEvent, Runner};
use maplet::cli::ui::{Out, Ui};
use maplet::cli::{
    answer_permission, check_directory, check_model, choose_permission, compose_prompt,
    first_prompt, permit, piped_text, refuse, typed_line, RunArgs, EXIT_ERROR, EXIT_INTERRUPTED,
    EXIT_OK,
};
use maplet::event::{
    AcpCommand, AcpEvent, PermissionOptionView, PermissionOutcome, PlanEntryView,
    ToolCallUpdateView, ToolCallView,
};

fn opts() -> Vec<PermissionOptionView> {
    ["allow_once", "allow_always", "reject_once"]
        .iter()
        .map(|k| PermissionOptionView {
            id: format!("id-{k}"),
            name: k.to_string(),
            kind: k.to_string(),
        })
        .collect()
}

#[test]
fn prompt_sources_combine() {
    assert_eq!(compose_prompt("", None), None);
    assert_eq!(compose_prompt("  ", None), None);
    assert_eq!(compose_prompt("tidy up", None).as_deref(), Some("tidy up"));
    assert_eq!(compose_prompt("", Some("piped".into())).as_deref(), Some("piped"));
    // an argument prompt keeps piped text as its context, in that order
    assert_eq!(
        compose_prompt("explain", Some("a log line".into())).as_deref(),
        Some("explain\n\na log line")
    );
}

#[test]
fn permission_answers_map_to_options() {
    let o = opts();
    assert_eq!(choose_permission("y", &o).as_deref(), Some("id-allow_once"));
    assert_eq!(choose_permission("", &o).as_deref(), Some("id-allow_once"));
    assert_eq!(choose_permission("a", &o).as_deref(), Some("id-allow_always"));
    assert_eq!(choose_permission("n", &o).as_deref(), Some("id-reject_once"));
    // anything unrecognised must refuse rather than fall through to allow
    assert_eq!(choose_permission("maybe", &o).as_deref(), Some("id-reject_once"));
}

#[test]
fn allow_always_falls_back_when_not_offered() {
    let limited: Vec<_> = opts().into_iter().filter(|o| o.kind != "allow_always").collect();
    assert_eq!(choose_permission("a", &limited).as_deref(), Some("id-allow_once"));
}

fn selected(o: &PermissionOutcome) -> Option<&str> {
    match o {
        PermissionOutcome::Selected { option_id } => Some(option_id.as_str()),
        PermissionOutcome::Cancelled => None,
    }
}

#[test]
fn answers_that_allow_take_the_first_option_at_a_pinch() {
    let odd = vec![PermissionOptionView { id: "1".into(), name: "go".into(), kind: "go".into() }];
    assert_eq!(selected(&answer_permission("y", &odd)), Some("1"));
    assert_eq!(selected(&answer_permission(" A ", &odd)), Some("1"));
    assert_eq!(selected(&permit(&odd)), Some("1"));
    assert_eq!(selected(&permit(&[])), None);
}

#[test]
fn refusals_never_take_an_option_that_allows() {
    let only_allow: Vec<_> = opts().into_iter().filter(|o| o.kind != "reject_once").collect();
    assert_eq!(selected(&answer_permission("n", &only_allow)), None);
    assert_eq!(selected(&answer_permission("what?", &only_allow)), None);
    assert_eq!(selected(&refuse(&only_allow)), None);
    assert_eq!(selected(&refuse(&opts())), Some("id-reject_once"));
}

#[test]
fn piped_input_and_lines_are_trimmed() {
    assert_eq!(piped_text("  \n"), None);
    assert_eq!(piped_text(" log\n").as_deref(), Some("log"));
    assert_eq!(typed_line(0, ""), None);
    assert_eq!(typed_line(5, " hi \n").as_deref(), Some(" hi"));
}

#[test]
fn a_prompt_is_needed_without_a_terminal() {
    let words = vec!["explain".to_string(), "this".to_string()];
    assert_eq!(first_prompt(&words, None, false), Ok(Some("explain this".to_string())));
    assert_eq!(first_prompt(&vec![], None, true), Ok(None));
    assert_eq!(
        first_prompt(&vec![], None, false),
        Err("no prompt given (pass one as an argument, or pipe it in)".to_string())
    );
}

#[test]
fn the_working_directory_is_checked() {
    assert_eq!(check_directory("/tmp", true), Ok(()));
    assert_eq!(check_directory("/etc/hosts", false), Err("/etc/hosts is not a directory".into()));
}

#[test]
fn the_model_is_checked_against_the_list() {
    let listed = Ok(vec!["a".to_string(), "b".to_string()]);
    assert_eq!(check_model("b", &listed), Ok(None));
    assert_eq!(
        check_model("c", &listed),
        Err("model c is not available on this account.\navailable: a, b".to_string())
    );
    assert_eq!(
        check_model("c", &Err("timeout".to_string())),
        Ok(Some("could not verify the model list (timeout)".to_string()))
    );
}

fn ui(args: &RunArgs, color: bool) -> Ui {
    Ui::new(args, "/work".to_string(), color, false)
}

fn texts(out: &[Out]) -> Vec<String> {
    out.iter()
        .map(|o| match o {
            Out::Stdout(t) => format!("1{t}"),
            Out::Stderr(t) => format!("2{t}"),
        })
        .collect()
}

fn call(kind: &str, title: &str) -> ToolCallView {
    ToolCallView {
        id: "t1".into(),
        title: title.into(),
        kind: kind.into(),
        status: "pending".into(),
        raw_input: None,
        raw_output: None,
    }
}

#[test]
fn answers_go_to_stdout_and_the_rest_to_stderr() {
    let mut u = ui(&RunArgs::default(), false);
    assert_eq!(texts(&u.status("model x")), ["2· model x\n"]);
    assert_eq!(texts(&u.answer("Hel")), ["1Hel"]);
    assert_eq!(texts(&u.answer("lo")), ["1lo"]);
    // side-channel output starts on a line of its own
    assert_eq!(texts(&u.tool_started(&call("read", "/work/src/a.rs"))), ["1\n", "2› read src/a.rs\n"]);
    assert_eq!(texts(&u.tool_started(&call("other", "x"))), ["2› x\n"]);
    assert_eq!(texts(&u.error("bad")), ["2! bad\n"]);
    assert!(u.turn_ended("end_turn").is_empty());
    assert!(u.finish_answer().is_empty());
}

#[test]
fn thinking_is_mentioned_once_or_streamed() {
    let mut u = ui(&RunArgs::default(), false);
    assert_eq!(texts(&u.thought("a")), ["2~ thinking…\n"]);
    assert!(u.thought("b").is_empty());
    u.start_turn();
    assert_eq!(texts(&u.thought("c")), ["2~ thinking…\n"]);

    let mut args = RunArgs::default();
    args.think = true;
    let mut u = ui(&args, true);
    assert_eq!(texts(&u.thought("one\ntwo")), ["2\u{1b}[2;3m~ ", "2one two"]);
    assert_eq!(texts(&u.thought(" three")), ["2 three"]);
    assert_eq!(texts(&u.answer("so")), ["2\u{1b}[0m\n", "1so"]);
    assert_eq!(texts(&u.thought("more")), ["1\n", "2\u{1b}[2;3m~ ", "2more"]);
}

#[test]
fn colours_are_for_terminals_that_want_them() {
    let args = RunArgs::default();
    let u = Ui::new(&args, "/work".to_string(), true, false);
    assert_eq!(u.paint("31", "x"), "\u{1b}[31mx\u{1b}[0m");
    let u = Ui::new(&args, "/work".to_string(), true, true);
    assert_eq!(u.paint("31", "x"), "x");
    assert_eq!(u.shorten("cp /work/a /work/b /workshop"), "cp a b /workshop");
}

#[test]
fn quiet_runs_write_only_the_answer() {
    let mut args = RunArgs::default();
    args.quiet = true;
    let mut u = ui(&args, false);
    assert!(u.status("x").is_empty());
    assert!(u.thought("x").is_empty());
    assert!(u.tool_started(&call("read", "x")).is_empty());
    let plan = vec![PlanEntryView { content: "c".into(), status: "completed".into() }];
    assert!(u.plan(&plan).is_empty());
    let mut up = ToolCallUpdateView::default();
    up.id = "t1".into();
    up.status = Some("completed".into());
    assert!(u.tool_updated(&up).is_empty());
    up.status = Some("failed".into());
    assert!(u.tool_updated(&up).is_empty());
    assert_eq!(texts(&u.answer("yes")), ["1yes"]);
    // not even the line of the answer is broken
    assert!(u.tool_updated(&up).is_empty());
    assert_eq!(texts(&u.answer(", sir")), ["1, sir"]);
    assert_eq!(texts(&u.finish_answer()), ["1\n"]);
}

#[test]
fn failed_tools_are_mentioned() {
    let mut u = ui(&RunArgs::default(), false);
    let mut up = ToolCallUpdateView::default();
    up.id = "t1".into();
    up.status = Some("completed".into());
    assert!(u.tool_updated(&up).is_empty());
    up.status = Some("failed".into());
    assert_eq!(texts(&u.tool_updated(&up)), ["2× t1 failed\n"]);
    up.title = Some("/work/x".into());
    assert_eq!(texts(&u.tool_updated(&up)), ["2× x failed\n"]);
}

#[test]
fn plans_and_prompts_are_listed() {
    let mut u = ui(&RunArgs::default(), false);
    let plan = vec![
        PlanEntryView { content: "a".into(), status: "completed".into() },
        PlanEntryView { content: "b".into(), status: "in_progress".into() },
        PlanEntryView { content: "c".into(), status: "pending".into() },
    ];
    assert_eq!(texts(&u.plan(&plan)), ["2  ● a\n", "2  ◌ b\n", "2  ○ c\n"]);
    assert_eq!(
        texts(&u.permission_prompt("edit /work/a", &opts())),
        ["2? edit a\n", "2  y allow once  ·  a allow always  ·  n reject\n"]
    );
    assert_eq!(texts(&u.permission_prompt("edit", &vec![])), ["2? edit\n"]);
}

fn is_event(out: &[Out], expected: &str) -> bool {
    assert_eq!(out.len(), 1);
    let Out::Stdout(line) = &out[0] else { return false };
    assert!(line.ends_with('\n') && line.matches('\n').count() == 1, "one line: {line:?}");
    let told: serde_json::Value = serde_json::from_str(line).unwrap();
    told == serde_json::from_str::<serde_json::Value>(expected).unwrap()
}

#[test]
fn json_events_are_lines_of_their_own() {
    let mut args = RunArgs::default();
    args.json = true;
    let mut u = ui(&args, false);
    assert!(is_event(&u.status("a\nb"), r#"{"type":"status","message":"a\nb"}"#));
    assert!(is_event(&u.answer("q\""), r#"{"type":"message","text":"q\""}"#));
    let mut up = ToolCallUpdateView::default();
    up.id = "t".into();
    assert!(is_event(
        &u.tool_updated(&up),
        r#"{"type":"tool_update","id":"t","status":null,"title":null}"#
    ));
    up.status = Some("failed".into());
    assert!(is_event(
        &u.tool_updated(&up),
        r#"{"type":"tool_update","id":"t","status":"failed","title":null}"#
    ));
    let plan = vec![PlanEntryView { content: "c".into(), status: "pending".into() }];
    assert!(is_event(
        &u.plan(&plan),
        r#"{"type":"plan","entries":[{"content":"c","status":"pending"}]}"#
    ));
    assert!(is_event(
        &u.tool_started(&call("read", "x")),
        r#"{"type":"tool","id":"t1","kind":"read","title":"x","status":"pending"}"#
    ));
    assert!(is_event(
        &u.turn_ended("refusal"),
        r#"{"type":"turn_ended","stop_reason":"refusal"}"#
    ));
    assert!(is_event(&u.error("e"), r#"{"type":"error","message":"e"}"#));
    assert!(is_event(&u.thought("t"), r#"{"type":"thought","text":"t"}"#));
    assert!(is_event(
        &u.permission_prompt("p", &opts()),
        r#"{"type":"permission_request","title":"p"}"#
    ));
    assert!(u.finish_answer().is_empty());
}

fn runner(first: Option<&str>, yes: bool, can_ask: bool) -> Runner {
    Runner::new(
        ui(&RunArgs::default(), false),
        first.map(|s| s.to_string()),
        yes,
        can_ask,
    )
}

fn ready() -> RunEvent {
    RunEvent::Agent(AcpEvent::SessionReady { session_id: "s".into() })
}

fn ended(reason: &str) -> RunEvent {
    RunEvent::Agent(AcpEvent::TurnEnded { stop_reason: reason.into() })
}

fn question() -> RunEvent {
    RunEvent::Agent(AcpEvent::PermissionRequest {
        title: "rm".into(),
        options: opts(),
        request: 7,
    })
}

fn exit_code(r: &Runner) -> Option<i32> {
    match r.next() {
        Next::Exit(code) => Some(code),
        _ => None,
    }
}

fn prompt_sent(d: &Deed) -> Option<&str> {
    match &d.command {
        Some(AcpCommand::Prompt { text }) => Some(text.as_str()),
        _ => None,
    }
}

#[test]
fn a_run_with_a_prompt_ends_with_its_turn() {
    let mut r = runner(Some("go"), true, false);
    assert!(matches!(r.next(), Next::Receive { interruptible: false }));
    let d = r.handle(ready());
    assert_eq!(prompt_sent(&d), Some("go"));
    assert!(matches!(r.next(), Next::Receive { interruptible: true }));
    let d = r.handle(RunEvent::Agent(AcpEvent::MessageChunk("done".into())));
    assert_eq!(texts(&d.out), ["1done"]);
    let d = r.handle(ended("end_turn"));
    assert_eq!(texts(&d.out), ["1\n"]);
    assert!(matches!(d.command, Some(AcpCommand::Shutdown)));
    assert_eq!(exit_code(&r), Some(EXIT_OK));
}

#[test]
fn exit_status_tells_how_the_turn_went() {
    let mut r = runner(Some("go"), true, false);
    r.handle(ready());
    let d = r.handle(RunEvent::Interrupt);
    assert_eq!(texts(&d.out), ["2· cancelling…\n"]);
    assert!(matches!(d.command, Some(AcpCommand::Cancel)));
    assert!(matches!(r.next(), Next::Receive { interruptible: false }));
    assert!(r.handle(RunEvent::Interrupt).command.is_none());
    let d = r.handle(ended("cancelled"));
    assert_eq!(texts(&d.out), ["2· turn ended: cancelled\n"]);
    assert_eq!(exit_code(&r), Some(EXIT_INTERRUPTED));

    let mut r = runner(Some("go"), true, false);
    r.handle(ready());
    let d = r.handle(RunEvent::Agent(AcpEvent::Error("boom".into())));
    assert_eq!(texts(&d.out), ["2! boom\n"]);
    assert_eq!(exit_code(&r), Some(EXIT_ERROR));

    let mut r = runner(Some("go"), true, false);
    r.handle(ready());
    let d = r.handle(RunEvent::Agent(AcpEvent::Exited("gone".into())));
    assert_eq!(texts(&d.out), ["2! agent exited: gone\n"]);
    assert!(d.command.is_none());
    assert_eq!(exit_code(&r), Some(EXIT_ERROR));

    let mut r = runner(Some("go"), true, false);
    let d = r.handle(RunEvent::Agent(AcpEvent::Exited("early".into())));
    assert_eq!(texts(&d.out), ["2! agent exited before starting: early\n"]);
    assert_eq!(exit_code(&r), Some(EXIT_ERROR));

    let mut r = runner(Some("go"), true, false);
    let d = r.handle(RunEvent::Agent(AcpEvent::AuthRequired("key".into())));
    assert_eq!(texts(&d.out), ["2! agent auth problem: key\n"]);
    assert_eq!(exit_code(&r), Some(EXIT_ERROR));

    let mut r = runner(Some("go"), true, false);
    assert!(r.handle(RunEvent::Closed).out.is_empty());
    assert_eq!(exit_code(&r), Some(EXIT_ERROR));
}

#[test]
fn interactive_sessions_ask_for_prompts() {
    let mut r = runner(None, false, true);
    let d = r.handle(ready());
    assert_eq!(texts(&d.out), ["2· ready — type a request, Ctrl+D to leave\n"]);
    match r.next() {
        Next::Read { prompt } => assert_eq!(prompt, "\nyou › "),
        _ => panic!("a prompt is read next"),
    }
    assert!(r.read_failed().is_none());
    assert!(r.handle(RunEvent::Line(Some("  ".into()))).command.is_none());
    let d = r.handle(RunEvent::Line(Some("hello".into())));
    assert_eq!(prompt_sent(&d), Some("hello"));
    r.handle(RunEvent::Agent(AcpEvent::Error("boom".into())));
    assert!(matches!(r.next(), Next::Read { .. }));
    let d = r.handle(RunEvent::Line(Some(" /quit ".into())));
    assert!(matches!(d.command, Some(AcpCommand::Shutdown)));
    assert_eq!(exit_code(&r), Some(EXIT_ERROR));

    let mut r = runner(None, false, true);
    r.handle(ready());
    r.handle(RunEvent::Line(None));
    assert_eq!(exit_code(&r), Some(EXIT_OK));
}

#[test]
fn questions_are_asked_allowed_or_refused() {
    // leave was given beforehand
    let mut r = runner(Some("go"), true, false);
    r.handle(ready());
    let d = r.handle(question());
    assert_eq!(texts(&d.out), ["2· allowing: rm\n"]);
    let (request, outcome) = d.answer.expect("answered at once");
    assert_eq!(request, 7);
    assert_eq!(selected(&outcome), Some("id-allow_once"));

    // nobody to ask
    let mut r = runner(Some("go"), false, false);
    r.handle(ready());
    let d = r.handle(question());
    assert_eq!(
        texts(&d.out),
        ["2! refused (no tty to ask on; pass --yes to allow): rm\n"]
    );
    assert_eq!(selected(&d.answer.expect("refused").1), Some("id-reject_once"));

    // the user is asked
    let mut r = runner(Some("go"), false, true);
    r.handle(ready());
    let d = r.handle(question());
    assert!(d.answer.is_none());
    match r.next() {
        Next::Read { prompt } => assert_eq!(prompt, "allow? [Y/a/n] "),
        _ => panic!("an answer is read next"),
    }
    let d = r.handle(RunEvent::Line(Some("a".into())));
    assert_eq!(selected(&d.answer.expect("answered").1), Some("id-allow_always"));
    assert!(matches!(r.next(), Next::Receive { interruptible: true }));

    // the input is lost while the question is open
    assert!(r.read_failed().is_none(), "the run ends with the error");
    r.handle(question());
    assert!(matches!(r.read_failed(), Some(RunEvent::Line(None))));
    let d = r.handle(RunEvent::Line(None));
    assert_eq!(texts(&d.out), ["2! input closed before answering — refusing\n"]);
    assert_eq!(selected(&d.answer.expect("refused").1), Some("id-reject_once"));

    // a question before the agent is ready is cancelled
    let mut r = runner(Some("go"), true, true);
    let d = r.handle(question());
    assert_eq!(selected(&d.answer.expect("cancelled").1), None);
}

#[test]
fn runs_announce_place_and_model() {
    let mut u = ui(&RunArgs::default(), false);
    let place = u.cwd.clone();
    assert_eq!(
        texts(&announce(&mut u)),
        [format!("2· working in {place}\n"), "2· attesting enclave…\n".to_string()]
    );
    assert_eq!(texts(&announce_model(&mut u, "m", &None)), ["2· model m\n"]);
    assert_eq!(
        texts(&announce_model(&mut u, "m", &Some("not sure".into()))),
        ["2· not sure\n", "2· model m\n"]
    );
    let quiet = RunArgs { quiet: true, ..RunArgs::default() };
    assert!(announce(&mut ui(&quiet, false)).is_empty());
}

#[test]
fn stdout_is_the_answer() {
    let mut args = RunArgs::default();
    args.think = true;
    let mut u = ui(&args, true);
    let mut out = u.status("s");
    out.extend(u.thought("t"));
    out.extend(u.answer("a"));
    out.extend(u.answer("b"));
    out.extend(u.tool_started(&call("read", "x")));
    out.extend(u.error("e"));
    out.extend(u.answer("c\n"));
    out.extend(u.thought("t"));
    out.extend(u.answer("d"));
    out.extend(u.finish_answer());
    let written: Vec<String> = out
        .iter()
        .filter_map(|o| match o {
            Out::Stdout(t) => Some(t.clone()),
            Out::Stderr(_) => None,
        })
        .collect();
    assert_eq!(written, ["a", "b", "\n", "c\n", "\n", "d", "\n"]);
    assert!(u.finish_answer().is_empty());
}
