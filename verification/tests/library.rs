use maplet::agent::acp::{
    agent_action, classify_error, exit_event, map_mcp_servers, map_update, permission_request,
    report, turn_event, AgentAction, Content, McpServer, PermissionKind, PermissionOption,
    PlanEntry, PlanStatus, SessionUpdate, StopReason, ToolCall, ToolCallChange, ToolKind,
    ToolStatus,
};
use maplet::agent::goose::{candidates, locate_goose, GooseSpawn};
use maplet::breadcrumb::{mark, trim};
use maplet::chat::client::{
    chat_request, failure, for_chat, selectable_models, ChatClient, SseReader, SseStep,
};
use maplet::chat::types::{ChatMessage, Delta, StreamChoice, StreamChunk};
use maplet::commands::{commands, lookup, matching, parse, Completion, Parsed};
use maplet::config::{
    config_dir, config_file, default_transport, is_exposed, key_in, Config, McpServerDecl, DEFAULT_MODEL,
};
use maplet::driver::{
    chat_result, models_result, AgentLink, LinkAction, LinkEvent, Oneshot, Repl, ReplStep,
};
use maplet::event::{
    AcpCommand, AcpEvent, AppEvent, ChatEvent, PermissionOptionView, PermissionOutcome,
    PlanEntryView, ToolCallUpdateView, ToolCallView,
};
use maplet::cli::ui::Out;
use maplet::paths::{expand_tilde, path_join};
use maplet::proxy::{settings, wait_healthy, Health, Pcr0Environment, ProxyHandle, HEALTH_TRIES};
use maplet::session::{is_session_file, list, now, path_for, save, SessionMeta};
use maplet::text;
use maplet::theme::{current_theme_dir, hex, Color, Colors, Theme};

fn s(t: &str) -> String {
    t.to_string()
}

fn some(t: &str) -> Option<String> {
    Some(t.to_string())
}

#[test]
fn commands_are_looked_up_by_name_and_alias() {
    assert_eq!(commands().len(), 7);
    assert_eq!(lookup("help").unwrap().name, "help");
    assert_eq!(lookup("/resume").unwrap().name, "sessions");
    assert_eq!(lookup("q").unwrap().name, "quit");
    assert!(lookup("nope").is_none());
    let names: Vec<&str> = matching("m").iter().map(|c| c.name).collect();
    assert_eq!(names, ["model"]);
    // an alias that matches offers the command
    let names: Vec<&str> = matching("c").iter().map(|c| c.name).collect();
    assert_eq!(names, ["new", "chat"]);
}

#[test]
fn input_is_parsed_as_command_or_message() {
    assert!(parse("hello /help").is_none());
    assert!(parse("  /  ").is_none());
    match parse(" /model  glm 5 ") {
        Some(Parsed::Known(c, args)) => assert_eq!((c.name, args.as_str()), ("model", "glm 5")),
        _ => panic!("a known command"),
    }
    match parse("/what now") {
        Some(Parsed::Unknown(name)) => assert_eq!(name, "what"),
        _ => panic!("an unknown command"),
    }
    match parse("//help") {
        Some(Parsed::Known(c, _)) => assert_eq!(c.name, "help"),
        _ => panic!("slashes in front of a name are skipped"),
    }
}

#[test]
fn completion_keeps_its_highlight() {
    let first = Completion::for_input("/", None).unwrap();
    assert_eq!(first.items.len(), 7);
    let moved = Completion { items: first.items, selected: 4 };
    let next = Completion::for_input("/c", Some(&moved)).unwrap();
    assert_eq!(next.selected().name, "chat");
    assert_eq!(next.selected, 1);
    assert!(Completion::for_input("/model x", Some(&moved)).is_none());
    assert!(Completion::for_input("/zzz", None).is_none());
    assert!(Completion::for_input("model", None).is_none());
}

#[test]
fn text_helpers() {
    assert_eq!(text::trim("\u{2003} a b \n"), "a b");
    assert_eq!(text::trim_end(" a \t"), " a");
    assert_eq!(text::lines("a\r\nb\n\nc"), ["a", "b", "", "c"]);
    assert_eq!(text::lines("a\n"), ["a"]);
    assert!(text::lines("").is_empty());
    assert_eq!(text::take_chars("äöü", 2), "äö");
    assert_eq!(text::to_decimal(0), "0");
    assert_eq!(text::to_decimal(18446744073709551615), "18446744073709551615");
    assert_eq!(text::join(&vec![s("a"), s("b")], ", "), "a, b");
    assert_eq!(text::remove_part("aXbXXc", "X"), "abc");
    assert_eq!(text::replace_char("a\nb", '\n', ' '), "a b");
    assert!(text::contains("haystack", "sta") && !text::contains("hay", "hays"));
    assert_eq!(text::strip_prefix("data: x", "data:").as_deref(), Some(" x"));
    assert_eq!(text::split_word("a b c"), (s("a"), some("b c")));
}

#[test]
fn paths_are_joined_and_expanded() {
    assert_eq!(path_join("/a", "b"), "/a/b");
    assert_eq!(path_join("/a/", "b"), "/a/b");
    assert_eq!(path_join("/a", "/b"), "/b");
    assert_eq!(path_join("", "b"), "b");
    let home = some("/home/u");
    assert_eq!(expand_tilde(s("~/x/y"), &home), "/home/u/x/y");
    assert_eq!(expand_tilde(s("~//./x/."), &home), "/home/u/x");
    assert_eq!(expand_tilde(s("~"), &home), "/home/u/");
    assert_eq!(expand_tilde(s("~user/x"), &home), "~user/x");
    assert_eq!(expand_tilde(s("/x"), &home), "/x");
    assert_eq!(expand_tilde(s("~/x"), &None), "~/x");
    assert_eq!(config_dir(&some("/c")), "/c/maple-tui");
    assert_eq!(config_dir(&None), "./maple-tui");
    assert_eq!(config_file("/c/maple-tui"), "/c/maple-tui/config.toml");
    assert_eq!(current_theme_dir(&some("/s")), "/s/omarchy/current");
    // the same as the standard library has it
    for p in ["~/x/y", "~//./x/.", "~", "~/a/../b/"] {
        let stripped = std::path::Path::new(p).strip_prefix("~").unwrap();
        let joined = std::path::Path::new("/home/u").join(stripped);
        assert_eq!(expand_tilde(s(p), &home), joined.to_str().unwrap());
    }
}

#[test]
fn settings_have_defaults() {
    let c = Config::default();
    assert_eq!(c.chat.model, DEFAULT_MODEL);
    assert_eq!(c.agent.model, "glm-5-3");
    assert_eq!(c.agent.cwd, ".");
    assert_eq!(c.agent.builtins, ["developer"]);
    assert_eq!(c.proxy.port, 0);
    assert_eq!(c.proxy.pcr0_environment, "production");
    assert_eq!(default_transport(), "stdio");
}

#[test]
fn the_environment_wins_over_the_file_and_the_file_over_the_settings() {
    let mut c = Config::default();
    c.auth.api_key = some(" inline ");
    assert_eq!(c.resolve_api_key(&some(" env\n"), &some("file"), "/k"), Ok(s("env")));
    assert_eq!(c.resolve_api_key(&some(" "), &some("file\n"), "/k"), Ok(s("file")));
    assert_eq!(c.resolve_api_key(&None, &some(""), "/k"), Ok(s("inline")));
    c.auth.api_key = None;
    assert_eq!(
        c.resolve_api_key(&None, &None, "/k"),
        Err(s("no Maple API key found. Set $MAPLE_API_KEY, or write your key to /k (chmod 600). \
               Keys are created at https://trymaple.ai (Pro/Team/Max plans)."))
    );
    assert_eq!(c.key_file("/c", &None), "/c/api_key");
    c.auth.key_file = some("~/key");
    assert_eq!(c.key_file("/c", &some("/h")), "/h/key");
    assert_eq!(key_in(&some("  ")), None);
    for (mode, exposed) in [(0o600, false), (0o700, false), (0o640, true), (0o604, true), (0o610, true)] {
        assert_eq!(is_exposed(mode), exposed, "{mode:o}");
    }
}

#[test]
fn the_proxy_is_on_the_loopback_interface() {
    let h = ProxyHandle { port: 40123 };
    assert_eq!(h.base_url(), "http://127.0.0.1:40123");
    assert_eq!(h.health_url(), "http://127.0.0.1:40123/health");
    let mut c = Config::default();
    let p = settings(&c).unwrap_or_else(|e| panic!("{e}"));
    assert_eq!(p.backend_url, "https://enclave.trymaple.ai");
    assert_eq!(p.pcr0, Pcr0Environment::Production);
    c.proxy.pcr0_environment = s("development");
    c.proxy.backend_url = some("http://b");
    c.proxy.port = 9;
    let p = settings(&c).unwrap_or_else(|e| panic!("{e}"));
    assert_eq!((p.pcr0, p.backend_url.as_str(), p.port), (Pcr0Environment::Development, "http://b", 9));
    c.proxy.pcr0_environment = s("st\"aging");
    match settings(&c) {
        Err(e) => assert_eq!(
            e,
            "invalid proxy.pcr0_environment \"st\\\"aging\" (production|development)"
        ),
        Ok(_) => panic!("the setting is refused"),
    }
}

#[test]
fn the_proxy_is_asked_until_it_answers() {
    let h = ProxyHandle { port: 1 };
    assert!(matches!(wait_healthy(&h, HEALTH_TRIES, true), Health::Ready));
    let mut left = HEALTH_TRIES;
    let mut asked = 0;
    loop {
        asked += 1;
        match wait_healthy(&h, left, false) {
            Health::Again(n) => left = n,
            Health::Failed(e) => {
                assert_eq!(e, "embedded maple-proxy did not become healthy on http://127.0.0.1:1/health");
                break;
            }
            Health::Ready => panic!("it never was"),
        }
    }
    assert_eq!(asked, 50);
}

#[test]
fn the_trail_is_marked_and_kept_short() {
    assert_eq!(mark(12, 34, "cli: start"), "12 pid=34 cli: start\n");
    let long: String = (0..501).map(|i| format!("{i}\n")).collect();
    let kept = trim(&long).expect("shortened");
    assert_eq!(kept.lines().count(), 200);
    assert!(kept.starts_with("301\n") && kept.ends_with("500\n"));
    let short: String = (0..500).map(|i| format!("{i}\n")).collect();
    assert_eq!(trim(&short), None);
}

#[test]
fn colours_are_read_from_six_digits() {
    let f = Color::Blue;
    assert_eq!(hex(&some(" #1a2B3c "), f), Color::Rgb(0x1a, 0x2b, 0x3c));
    assert_eq!(hex(&some("##ffffff"), f), Color::Rgb(255, 255, 255));
    assert_eq!(hex(&some("+12345"), f), Color::Rgb(0x01, 0x23, 0x45));
    assert_eq!(hex(&some("#fff"), f), f);
    assert_eq!(hex(&some("#gggggg"), f), f);
    assert_eq!(hex(&some("#1234é"), f), f);
    assert_eq!(hex(&None, f), f);
}

#[test]
fn themes_fall_back_to_the_terminal() {
    let t = Theme::load(some("night\n"), None);
    assert_eq!(t.name, "terminal");
    assert_eq!(t.accent, Color::Blue);
    let c = Colors {
        accent: some("#010203"),
        selection: None,
        muted: some("bad"),
        background: None,
        darker_background: None,
        lighter_background: None,
        foreground: None,
        dark_foreground: None,
        bright_foreground: None,
        red: None,
        yellow: None,
        green: None,
        magenta: None,
        cyan: None,
    };
    let t = Theme::load(some(" night\n"), Some(c));
    assert_eq!(t.name, "night");
    assert_eq!(t.accent, Color::Rgb(1, 2, 3));
    assert_eq!(t.muted, Color::DarkGray);
    assert_eq!(t.accent_style().fg, Some(Color::Rgb(1, 2, 3)));
    assert!(t.user().bold && t.thought().italic && t.thought().dim);
    assert_eq!(t.selected().bg, Some(Color::DarkGray));
    assert_eq!(t.card_bg().bg, Some(Color::Reset));
}

#[test]
fn conversations_are_recorded_under_a_title() {
    let long = "x".repeat(80);
    let m = vec![ChatMessage::assistant(s("a")), ChatMessage::user(long.clone())];
    let r = save("id", "model", &m, 1700000000).expect("recorded");
    assert_eq!(r.title, "x".repeat(60));
    assert_eq!((r.id.as_str(), r.model.as_str(), r.updated_at.as_str()), ("id", "model", "1700000000"));
    assert_eq!(r.messages.len(), 2);
    assert_eq!(r.messages[1].content, long);
    assert!(save("id", "model", &[], 1).is_none());
    let r = save("id", "model", &[ChatMessage::assistant(s("a"))], 1).expect("recorded");
    assert_eq!(r.title, "untitled");
    assert_eq!(path_for("/d", "abc"), "/d/sessions/abc.json");
    assert_eq!(now(5), "5");
}

#[test]
fn sessions_are_kept_in_json_files() {
    assert!(is_session_file("a.json") && is_session_file("..json"));
    for other in ["", ".json", "a.json.tmp", "a.jso", "json", "ajson"] {
        assert!(!is_session_file(other), "{other}");
    }
}

#[test]
fn sessions_are_listed_newest_first() {
    let e = |t: i128, id: &str| (t, SessionMeta { id: s(id), title: s(id) });
    let ids: Vec<String> = list(vec![e(1, "a"), e(3, "b"), e(2, "c"), e(3, "d"), e(-1, "e")])
        .into_iter()
        .map(|m| m.id)
        .collect();
    assert_eq!(ids, ["b", "d", "c", "a", "e"]);
}

#[test]
fn models_for_chat_are_offered_default_first() {
    let ids = vec![s("a"), s("whisper-1"), s("glm-5-3"), s("text-embed"), s("b"), s("my-tts")];
    assert_eq!(selectable_models(&ids), ["glm-5-3", "a", "b"]);
    assert!(!for_chat("x-rerank-2") && for_chat("llama"));
}

fn chunk(content: Option<&str>, reason: Option<&str>) -> StreamChunk {
    StreamChunk {
        choices: vec![StreamChoice {
            delta: Delta { content: content.map(|c| c.to_string()) },
            finish_reason: reason.map(|c| c.to_string()),
        }],
    }
}

fn read_all(r: &mut SseReader) -> Vec<String> {
    let mut out = Vec::new();
    loop {
        match r.next() {
            SseStep::NeedMore => return out,
            SseStep::Data(d) => out.push(d),
            SseStep::Done => out.push(s("<done>")),
        }
    }
}

#[test]
fn streams_are_read_line_by_line() {
    let stream = ": hello\r\ndata: {\"a\":1}\r\n\r\nevent: x\ndata:{\"b\":2}\n\ndata: [DONE]\n";
    let mut whole = SseReader::new();
    whole.feed(stream.as_bytes());
    let expected = ["{\"a\":1}", "{\"b\":2}", "<done>"];
    assert_eq!(read_all(&mut whole), expected);
    // however it is cut
    for cut in 0..stream.len() {
        let mut r = SseReader::new();
        r.feed(&stream.as_bytes()[..cut]);
        let mut got = read_all(&mut r);
        r.feed_text(&stream[cut..]);
        got.extend(read_all(&mut r));
        assert_eq!(got, expected, "cut at {cut}");
    }
    let mut r = SseReader::new();
    r.feed(b"data: \xff\n");
    assert_eq!(read_all(&mut r), ["\u{fffd}"]);
}

#[test]
fn pieces_of_a_reply_are_collected() {
    let mut r = SseReader::new();
    assert_eq!(r.accept(chunk(Some("Hel"), None)), ["Hel"]);
    assert!(r.accept(chunk(Some(""), None)).is_empty());
    assert!(r.accept(chunk(None, Some("stop"))).is_empty());
    assert_eq!(r.accept(chunk(Some("lo"), None)), ["lo"]);
    assert_eq!(r.finish_reason.as_deref(), Some("stop"));
}

#[test]
fn requests_and_failures() {
    let c = ChatClient::new(s("http://127.0.0.1:1"), s("k"));
    assert_eq!(c.completions_url(), "http://127.0.0.1:1/v1/chat/completions");
    assert_eq!(c.models_url(), "http://127.0.0.1:1/v1/models");
    let r = chat_request("m", &[ChatMessage::user(s("hi"))]);
    assert!(r.stream && r.model == "m" && r.messages[0].role == "user");
    let f = failure("400 Bad Request", &"y".repeat(500));
    assert_eq!(f, format!("chat completion failed (400 Bad Request): {}", "y".repeat(400)));
}

#[test]
fn goose_is_looked_for_and_found() {
    let mut c = Config::default();
    let home = some("/h");
    let search = vec![s("/bin"), s("/usr/bin")];
    let places = candidates(&c, &home, &search);
    let paths: Vec<(&str, bool)> = places.iter().map(|p| (p.path.as_str(), p.file)).collect();
    assert_eq!(
        paths,
        [("/h/.local/bin/goose", false), ("/bin/goose", true), ("/usr/bin/goose", true)]
    );
    assert_eq!(locate_goose(&c, &home, &places, &vec![false, true, true]), Ok(s("/bin/goose")));
    let e = locate_goose(&c, &home, &places, &vec![false, false, false]).unwrap_err();
    assert!(e.starts_with("goose not found. Install it: curl -fsSL https://github.com/"));
    c.agent.goose_path = some("~/g");
    let places = candidates(&c, &home, &search);
    assert_eq!(places.len(), 1);
    assert_eq!(locate_goose(&c, &home, &places, &vec![true]), Ok(s("/h/g")));
    assert_eq!(
        locate_goose(&c, &home, &places, &vec![false]),
        Err(s("agent.goose_path /h/g does not exist"))
    );
}

#[test]
fn goose_asks_unless_it_is_told_not_to() {
    let c = Config::default();
    let mut g = GooseSpawn::from_config(&c, s("/g"), s("http://127.0.0.1:1"), s("key"));
    assert_eq!(g.args(), ["acp", "--with-builtin", "developer"]);
    let env = g.env();
    assert_eq!(env[0], (s("GOOSE_MODE"), s("approve")));
    assert_eq!(env[1], (s("GOOSE_PROVIDER"), s("openai")));
    assert_eq!(env[2], (s("GOOSE_MODEL"), s("glm-5-3")));
    assert_eq!(env[3], (s("OPENAI_HOST"), s("http://127.0.0.1:1")));
    assert_eq!(env[4], (s("OPENAI_API_KEY"), s("key")));
    g.for_run(&some("other"), true);
    assert_eq!(g.env()[0].1, "auto");
    assert_eq!(g.env()[2].1, "other");
    g.for_run(&None, false);
    assert_eq!(g.env()[0].1, "approve");
    g.builtins = vec![];
    assert_eq!(g.args(), ["acp"]);
}

#[test]
fn updates_of_the_agent_are_understood() {
    let v: serde_json::Value = serde_json::from_str("{\"a\":1}").unwrap();
    match map_update(SessionUpdate::ToolCall(ToolCall {
        id: s("1"),
        title: s("t"),
        kind: ToolKind::Execute,
        status: ToolStatus::InProgress,
        raw_input: Some(v),
        raw_output: None,
    })) {
        Some(AcpEvent::ToolCall(tc)) => {
            assert_eq!((tc.kind.as_str(), tc.status.as_str()), ("execute", "in_progress"));
            assert_eq!(tc.raw_input.as_deref(), Some("{\n  \"a\": 1\n}"));
            assert_eq!(tc.raw_output, None);
        }
        _ => panic!("a tool call"),
    }
    match map_update(SessionUpdate::ToolCallUpdate(ToolCallChange {
        id: s("1"),
        title: None,
        status: Some(ToolStatus::Failed),
        raw_input: None,
        raw_output: None,
    })) {
        Some(AcpEvent::ToolCallUpdate(up)) => assert_eq!(up.status.as_deref(), Some("failed")),
        _ => panic!("an update"),
    }
    match map_update(SessionUpdate::Plan(vec![PlanEntry { content: s("c"), status: PlanStatus::Other }])) {
        Some(AcpEvent::Plan(p)) => assert_eq!(p[0].status, "unknown"),
        _ => panic!("a plan"),
    }
    assert!(matches!(
        map_update(SessionUpdate::AgentMessageChunk(Content::Text(s("x")))),
        Some(AcpEvent::MessageChunk(t)) if t == "x"
    ));
    assert!(matches!(
        map_update(SessionUpdate::AgentThoughtChunk(Content::Text(s("x")))),
        Some(AcpEvent::ThoughtChunk(_))
    ));
    assert!(map_update(SessionUpdate::AgentMessageChunk(Content::Other)).is_none());
    assert!(map_update(SessionUpdate::Other).is_none());
}

#[test]
fn questions_and_ends_are_reported() {
    let o = vec![PermissionOption { id: s("1"), name: s("n"), kind: PermissionKind::RejectAlways }];
    match permission_request(None, &o, 3) {
        AcpEvent::PermissionRequest { title, options, request: 3 } => {
            assert_eq!(title, "The agent wants to run a tool");
            assert_eq!(options[0].kind, "reject_always");
        }
        _ => panic!("a question"),
    }
    assert!(matches!(
        turn_event(Ok(StopReason::MaxTokens)),
        AcpEvent::TurnEnded { stop_reason } if stop_reason == "max_tokens"
    ));
    assert!(matches!(classify_error(s("Unauthorized: AUTH")), AcpEvent::AuthRequired(_)));
    assert!(matches!(
        turn_event(Err(s("timeout"))),
        AcpEvent::Error(e) if e == "agent turn failed: timeout"
    ));
    assert!(matches!(report(s("X"), "no auth here"), AcpEvent::AuthRequired(t) if t == "X"));
    assert!(matches!(exit_event(Ok(())), AcpEvent::Exited(r) if r == "shut down"));
    assert!(matches!(exit_event(Err(s("e"))), AcpEvent::Exited(r) if r == "e"));
    assert!(matches!(
        agent_action(Some(AcpCommand::Prompt { text: s("p") })),
        AgentAction::SendPrompt(p) if p == "p"
    ));
    assert!(matches!(agent_action(Some(AcpCommand::Cancel)), AgentAction::SendCancel));
    assert!(matches!(agent_action(Some(AcpCommand::Shutdown)), AgentAction::Stop));
    assert!(matches!(agent_action(None), AgentAction::Stop));
}

#[test]
fn servers_are_declared() {
    let d = |transport: &str, command: Option<&str>, url: Option<&str>| McpServerDecl {
        name: s("n"),
        transport: s(transport),
        command: command.map(|c| c.to_string()),
        args: vec![s("a")],
        url: url.map(|c| c.to_string()),
        env: vec![(s("K"), s("V"))],
    };
    let servers = map_mcp_servers(&vec![
        d("stdio", Some("uvx"), None),
        d("stdio", None, Some("u")),
        d("sse", Some("c"), Some("u")),
        d("http", None, Some("http://u")),
    ]);
    assert_eq!(servers.len(), 2);
    match (&servers[0], &servers[1]) {
        (
            McpServer::Stdio { command, args, env, .. },
            McpServer::Http { url, headers, .. },
        ) => {
            assert_eq!((command.as_str(), args[0].as_str(), env[0].0.as_str()), ("uvx", "a", "K"));
            assert_eq!((url.as_str(), headers[0].1.as_str()), ("http://u", "V"));
        }
        _ => panic!("one of each"),
    }
}

#[test]
fn the_agent_is_started_when_it_is_needed() {
    let mut l = AgentLink::new();
    let go = || LinkEvent::Command(AcpCommand::Prompt { text: s("go") });
    assert!(matches!(l.handle(go()), LinkAction::Start));
    assert!(matches!(
        l.handle(LinkEvent::Started(Err(s("no goose")))),
        LinkAction::Report(AcpEvent::Error(e)) if e == "no goose"
    ));
    // the command is dropped
    assert!(!l.running && l.waiting.is_none());
    assert!(matches!(l.handle(go()), LinkAction::Start));
    assert!(matches!(
        l.handle(LinkEvent::Started(Ok(()))),
        LinkAction::Send(AcpCommand::Prompt { text }) if text == "go"
    ));
    assert!(matches!(l.handle(LinkEvent::Sent(true)), LinkAction::Nothing));
    assert!(matches!(
        l.handle(LinkEvent::Command(AcpCommand::Cancel)),
        LinkAction::Send(AcpCommand::Cancel)
    ));
    assert!(matches!(
        l.handle(LinkEvent::Sent(false)),
        LinkAction::Report(AcpEvent::Error(e)) if e == "agent connection lost; try again to respawn"
    ));
    assert!(!l.running);
    assert!(matches!(l.handle(LinkEvent::Command(AcpCommand::Cancel)), LinkAction::Start));
    assert!(matches!(chat_result(3, Ok(())), ChatEvent::Done { turn: 3 }));
    assert!(matches!(chat_result(3, Err(s("e"))), ChatEvent::Error { turn: 3, message } if message == "e"));
    assert!(matches!(models_result(Ok(vec![])), AppEvent::Models(_)));
    assert!(matches!(
        models_result(Err(s("e"))),
        AppEvent::Chat(ChatEvent::Error { turn: 0, message }) if message == "could not list models: e"
    ));
}

#[test]
fn a_failed_message_is_taken_back() {
    let mut r = Repl::new();
    assert!(matches!(r.read(some("  ")), ReplStep::Again));
    assert!(matches!(r.read(some(" hi\n")), ReplStep::Ask(m) if m.len() == 1 && m[0].content == "hi"));
    assert!(matches!(
        r.replied(Err(s("e"))),
        Some(Out::Stderr(t)) if t == "error: e\n"
    ));
    assert!(r.history.is_empty());
    r.read(some("hi"));
    assert!(r.replied(Ok(s("yo"))).is_none());
    assert_eq!(r.history.len(), 2);
    assert_eq!(r.history[1].role, "assistant");
    assert!(matches!(r.read(None), ReplStep::Exit));
}

fn shown(out: &[Out]) -> String {
    out.iter()
        .map(|o| match o {
            Out::Stdout(t) => t.clone(),
            Out::Stderr(t) => format!("<{t}>"),
        })
        .collect()
}

#[test]
fn one_turn_is_written_down() {
    let mut o = Oneshot::new(s("go"));
    let step = o.handle(AcpEvent::SessionReady { session_id: s("s") });
    assert_eq!(shown(&step.out), "session-ready s\n");
    assert!(matches!(step.command, Some(AcpCommand::Prompt { text }) if text == "go"));
    assert!(o.handle(AcpEvent::SessionReady { session_id: s("s") }).command.is_none());
    let tc = ToolCallView {
        id: s("1"),
        title: s("t"),
        kind: s("read"),
        status: s("pending"),
        raw_input: None,
        raw_output: None,
    };
    assert_eq!(shown(&o.handle(AcpEvent::ToolCall(tc)).out), "\ntool-call 1 read · t · pending\n");
    let mut up = ToolCallUpdateView::default();
    up.id = s("1");
    assert_eq!(shown(&o.handle(AcpEvent::ToolCallUpdate(up)).out), "tool-update 1 · ?\n");
    let plan = vec![PlanEntryView { content: s("c"), status: s("pending") }];
    assert_eq!(shown(&o.handle(AcpEvent::Plan(plan)).out), "plan:\n  [pending] c\n");
    assert_eq!(shown(&o.handle(AcpEvent::ThoughtChunk(s("x"))).out), "[thought] x");
    assert_eq!(shown(&o.handle(AcpEvent::MessageChunk(s("x"))).out), "x");
    let options = vec![
        PermissionOptionView { id: s("a"), name: s("Yes"), kind: s("allow_once") },
        PermissionOptionView { id: s("b"), name: s("No"), kind: s("reject_once") },
    ];
    let step = o.handle(AcpEvent::PermissionRequest {
        title: s("rm"),
        options: options.clone(),
        request: 4,
    });
    assert_eq!(
        shown(&step.out),
        "\npermission: rm\n  0: Yes (allow_once)\n  1: No (reject_once)\n<allow? [y/n] >"
    );
    assert_eq!(step.ask.expect("asked").0, 4);
    assert!(matches!(
        Oneshot::answer("Y\n", &options),
        PermissionOutcome::Selected { option_id } if option_id == "a"
    ));
    assert!(matches!(
        Oneshot::answer("", &options),
        PermissionOutcome::Selected { option_id } if option_id == "b"
    ));
    let step = o.handle(AcpEvent::TurnEnded { stop_reason: s("end_turn") });
    assert_eq!(shown(&step.out), "\nturn-ended end_turn\n");
    assert!(matches!(step.command, Some(AcpCommand::Shutdown)));
    assert_eq!(shown(&o.handle(AcpEvent::Error(s("e"))).out), "\nerror: e\n");
    assert_eq!(shown(&o.handle(AcpEvent::AuthRequired(s("e"))).out), "\nauth-required: e\n");
    let step = o.handle(AcpEvent::Exited(s("r")));
    assert_eq!(shown(&step.out), "agent-exited: r\n");
    assert!(step.done);
}

#[test]
fn names_and_arguments_come_apart() {
    for input in ["/model\tglm  5 ", "  /model   glm  5\n", "//model glm  5"] {
        assert!(matches!(parse(input), Some(Parsed::Known(c, a)) if c.name == "model" && a == "glm  5"));
    }
    assert!(matches!(parse(" /nope a b"), Some(Parsed::Unknown(n)) if n == "nope"));
    assert!(matches!(parse("/new   "), Some(Parsed::Known(c, a)) if c.name == "new" && a.is_empty()));
}

#[test]
fn a_short_trail_is_left_alone() {
    let lines = |from: usize, to: usize| (from..to).map(|i| format!("{i}\n")).collect::<String>();
    assert_eq!(trim(&lines(0, 500)), None);
    let kept = trim(&lines(0, 501)).unwrap();
    assert_eq!(kept, lines(301, 501));
    assert_eq!(trim(&kept), None);
}
