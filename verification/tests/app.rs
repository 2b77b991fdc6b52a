use maplet::app::{pick_kind, App, Effect, Item, Modal, Mode};
use maplet::chat::types::ChatMessage;
use maplet::config::Config;
use maplet::event::{
    AcpCommand, AcpEvent, AppEvent, ChatEvent, KeyCode, KeyEvent, PermissionOptionView,
    PermissionOutcome, PlanEntryView, TermEvent, ToolCallUpdateView, ToolCallView,
};
use maplet::session::{save, Session, SessionMeta};
use maplet::theme::Theme;

fn app() -> App {
    App::new(&Config::default(), Theme::ansi())
}

fn key(app: &mut App, code: KeyCode) -> Vec<Effect> {
    app.handle(AppEvent::Term(TermEvent::Key(KeyEvent::plain(code))))
}

fn ctrl(app: &mut App, c: char) -> Vec<Effect> {
    let mut k = KeyEvent::plain(KeyCode::Char(c));
    k.ctrl = true;
    app.handle(AppEvent::Term(TermEvent::Key(k)))
}

fn type_text(app: &mut App, text: &str) {
    for c in text.chars() {
        key(app, KeyCode::Char(c));
    }
}

fn send(app: &mut App, text: &str) -> Vec<Effect> {
    type_text(app, text);
    key(app, KeyCode::Enter)
}

fn agent(app: &mut App, e: AcpEvent) -> Vec<Effect> {
    app.handle(AppEvent::Acp(e))
}

fn delta(app: &mut App, turn: u64, text: &str) {
    app.handle(AppEvent::Chat(ChatEvent::Delta { turn, text: text.into() }));
}

fn last_info(app: &App) -> &str {
    match app.items.last() {
        Some(Item::Info(t)) => t,
        _ => panic!("the last item is no note"),
    }
}

fn last_error(app: &App) -> &str {
    match app.items.last() {
        Some(Item::Error(t)) => t,
        _ => panic!("the last item is no error"),
    }
}

fn history(app: &App) -> Vec<(&str, &str)> {
    app.chat_history.iter().map(|m| (m.role.as_str(), m.content.as_str())).collect()
}

#[test]
fn startup_state() {
    let a = app();
    assert_eq!(a.mode, Mode::Chat);
    assert_eq!(a.model(), "glm-5-3");
    assert!(a.follow && a.proxy_healthy && !a.busy);
    let id = &a.session_id;
    assert_eq!(id.len(), 36);
    assert_eq!(id.as_bytes()[14], b'4');
    assert_ne!(app().session_id, *id, "every session has an id of its own");
}

#[test]
fn a_turn_adds_the_message_and_the_whole_reply() {
    let mut a = app();
    let effects = send(&mut a, "  hi  ");
    match &effects[..] {
        [Effect::SendChat { turn: 1, model, messages }] => {
            assert_eq!(model, "glm-5-3");
            assert_eq!(messages.len(), 1);
            assert_eq!(messages[0].content, "hi");
        }
        _ => panic!("the message is sent"),
    }
    assert!(a.busy);
    delta(&mut a, 1, "Hel");
    delta(&mut a, 7, "stale");
    delta(&mut a, 1, "lo");
    let effects = a.handle(AppEvent::Chat(ChatEvent::Done { turn: 1 }));
    assert!(matches!(&effects[..], [Effect::SaveSession]));
    assert!(!a.busy);
    assert_eq!(history(&a), [("user", "hi"), ("assistant", "Hello")]);
    match a.items.last() {
        Some(Item::Assistant { id: 1, md, revision: 2, streaming: false }) => {
            assert_eq!(md, "Hello")
        }
        _ => panic!("the reply is settled"),
    }
}

#[test]
fn a_failed_turn_leaves_the_history() {
    let mut a = app();
    send(&mut a, "one");
    delta(&mut a, 1, "1");
    a.handle(AppEvent::Chat(ChatEvent::Done { turn: 1 }));
    send(&mut a, "two");
    delta(&mut a, 2, "par");
    a.handle(AppEvent::Chat(ChatEvent::Error { turn: 2, message: "boom".into() }));
    assert_eq!(history(&a), [("user", "one"), ("assistant", "1")]);
    assert_eq!(last_error(&a), "boom");
    assert!(!a.busy);
}

#[test]
fn one_turn_at_a_time() {
    let mut a = app();
    send(&mut a, "one");
    assert!(send(&mut a, "two").is_empty());
    assert_eq!(a.turn, 1);
    assert_eq!(a.input.lines(), ["two"]);
    assert!(matches!(&ctrl(&mut a, 'c')[..], [Effect::CancelChat]));
    assert!(matches!(&key(&mut a, KeyCode::Esc)[..], [Effect::CancelChat]));
    a.handle(AppEvent::Chat(ChatEvent::Done { turn: 1 }));
    assert!(matches!(&ctrl(&mut a, 'c')[..], [Effect::Quit]));
}

#[test]
fn keys_that_are_not_pressed_do_nothing() {
    let mut a = app();
    let mut k = KeyEvent::plain(KeyCode::Char('x'));
    k.press = false;
    assert!(a.handle(AppEvent::Term(TermEvent::Key(k))).is_empty());
    a.handle(AppEvent::Term(TermEvent::Resize));
    assert_eq!(a.input.lines(), [""]);
}

#[test]
fn the_input_takes_more_than_one_line() {
    let mut a = app();
    type_text(&mut a, "ab");
    let mut k = KeyEvent::plain(KeyCode::Enter);
    k.alt = true;
    a.handle(AppEvent::Term(TermEvent::Key(k)));
    type_text(&mut a, "c");
    ctrl(&mut a, 'j');
    key(&mut a, KeyCode::Backspace);
    assert_eq!(a.input.lines(), ["ab", "c"]);
    send(&mut a, "!");
    assert_eq!(history(&a), [("user", "ab\nc!")]);
    assert_eq!(a.input.lines(), [""]);
}

fn cursor(a: &App) -> (usize, usize) {
    let c = a.input.area.cursor();
    (c.0, c.1)
}

#[test]
fn text_goes_in_at_the_cursor() {
    let mut a = app();
    assert_eq!(cursor(&a), (0, 0));
    type_text(&mut a, "héo");
    assert_eq!(cursor(&a), (0, 3));
    key(&mut a, KeyCode::Left);
    type_text(&mut a, "ll");
    assert_eq!(a.input.lines(), ["héllo"]);
    assert_eq!(cursor(&a), (0, 4));
    key(&mut a, KeyCode::Home);
    assert_eq!(cursor(&a), (0, 0));
    type_text(&mut a, "?");
    assert!(a.modal.is_none());
    assert_eq!((a.input.lines(), cursor(&a)), (vec!["?héllo".to_string()], (0, 1)));
    key(&mut a, KeyCode::End);
    assert_eq!(cursor(&a), (0, 6));
    key(&mut a, KeyCode::Left);
    let mut k = KeyEvent::plain(KeyCode::Enter);
    k.alt = true;
    a.handle(AppEvent::Term(TermEvent::Key(k)));
    assert_eq!(a.input.lines(), ["?héll", "o"]);
    assert_eq!(cursor(&a), (1, 0));
    type_text(&mut a, "n");
    assert_eq!((a.input.lines(), cursor(&a)), (vec!["?héll".to_string(), "no".into()], (1, 1)));

    let mut k = KeyEvent::plain(KeyCode::Home);
    k.shift = true;
    a.handle(AppEvent::Term(TermEvent::Key(k)));
    assert!(a.input.area.is_selecting());
    key(&mut a, KeyCode::End);
    assert!(!a.input.area.is_selecting());
    assert_eq!((a.input.lines().len(), cursor(&a)), (2, (1, 2)));
}

#[test]
fn keys_in_a_row_make_the_text() {
    let mut a = app();
    let text = "what — is 2 + 2?\tÜ";
    type_text(&mut a, text);
    assert_eq!(a.input.lines(), [text]);
    assert_eq!(cursor(&a), (0, text.chars().count()));
    assert!(a.modal.is_none());
}

#[test]
fn the_input_outlives_other_events() {
    let mut a = app();
    send(&mut a, "go");
    type_text(&mut a, "draft");
    key(&mut a, KeyCode::Left);
    delta(&mut a, 1, "hello");
    agent(&mut a, AcpEvent::Error("boom".into()));
    a.handle(AppEvent::Term(TermEvent::Resize));
    a.handle(AppEvent::ProxyHealth(false));
    a.handle(AppEvent::Models(vec!["m".into()]));
    key(&mut a, KeyCode::PageUp);
    key(&mut a, KeyCode::Tab);
    key(&mut a, KeyCode::Esc);
    ctrl(&mut a, 'c');
    assert_eq!((a.input.lines(), cursor(&a)), (vec!["draft".to_string()], (0, 4)));
}

#[test]
fn commands_run_and_are_not_sent() {
    let mut a = app();
    type_text(&mut a, "/model other");
    assert!(a.completion.is_none(), "no popup once arguments are typed");
    assert!(key(&mut a, KeyCode::Enter).is_empty());
    assert_eq!(a.chat_model, "other");
    assert_eq!(a.agent_model, "glm-5-3");
    assert_eq!(last_info(&a), "model: other");
    a.handle(AppEvent::Models(vec!["glm-5-3".into()]));
    send(&mut a, "/model third");
    assert_eq!(last_info(&a), "model: third (not in this account's list)");
    send(&mut a, "/nope now");
    assert_eq!(last_error(&a), "unknown command /nope — try /help");
    send(&mut a, "/agent");
    assert_eq!(a.mode, Mode::Agent);
    assert_eq!(last_info(&a), "agent mode");
    send(&mut a, "/agent ");
    assert_eq!(last_info(&a), "already in agent mode");
    send(&mut a, "/model fourth");
    assert_eq!(a.agent_model, "fourth");
    assert_eq!(last_info(&a), "agent model applies to the next session");
    assert!(matches!(&send(&mut a, "/q ")[..], [Effect::Quit]));
    assert!(matches!(&send(&mut a, "/resume ")[..], [Effect::ListSessions]));
    assert!(a.chat_history.is_empty());
    assert_eq!(a.turn, 0);
}

#[test]
fn the_popup_moves_completes_and_closes() {
    let mut a = app();
    type_text(&mut a, "/");
    let popup = a.completion.as_ref().unwrap();
    assert_eq!((popup.items.len(), popup.selected), (7, 0));
    key(&mut a, KeyCode::Up);
    assert_eq!(a.completion.as_ref().unwrap().selected, 0);
    for _ in 0..9 {
        key(&mut a, KeyCode::Down);
    }
    assert_eq!(a.completion.as_ref().unwrap().selected, 6);
    key(&mut a, KeyCode::Esc);
    assert!(a.completion.is_none());
    type_text(&mut a, "mo");
    key(&mut a, KeyCode::Tab);
    assert_eq!(a.input.lines(), ["/model "]);
    assert!(a.completion.is_none());
}

#[test]
fn modes_toggle() {
    let mut a = app();
    ctrl(&mut a, 't');
    assert_eq!(a.mode, Mode::Agent);
    ctrl(&mut a, 't');
    assert_eq!(a.mode, Mode::Chat);
    assert_eq!(last_info(&a), "chat mode");
}

#[test]
fn the_model_picker_opens_on_the_current_model() {
    let mut a = app();
    ctrl(&mut a, 'o');
    assert_eq!(last_info(&a), "model list not loaded yet");
    a.handle(AppEvent::Models(vec!["a".into(), "glm-5-3".into(), "c".into()]));
    ctrl(&mut a, 'o');
    assert!(matches!(&a.modal, Some(Modal::ModelPicker { selected: 1, .. })));
    key(&mut a, KeyCode::Down);
    key(&mut a, KeyCode::Char('j'));
    assert!(matches!(&a.modal, Some(Modal::ModelPicker { selected: 2, .. })));
    key(&mut a, KeyCode::Char('k'));
    key(&mut a, KeyCode::Up);
    key(&mut a, KeyCode::Up);
    key(&mut a, KeyCode::Enter);
    assert_eq!(a.chat_model, "a");
    assert!(a.modal.is_none());
}

#[test]
fn saved_sessions_are_listed_and_resumed() {
    let mut a = app();
    assert!(matches!(&ctrl(&mut a, 'p')[..], [Effect::ListSessions]));
    a.handle(AppEvent::Sessions(vec![]));
    assert_eq!(last_info(&a), "no saved sessions yet");
    a.handle(AppEvent::Sessions(vec![
        SessionMeta { id: "s1".into(), title: "one".into() },
        SessionMeta { id: "s2".into(), title: "two".into() },
    ]));
    key(&mut a, KeyCode::Down);
    match &key(&mut a, KeyCode::Enter)[..] {
        [Effect::LoadSession { id }] => assert_eq!(id, "s2"),
        _ => panic!("the session is loaded"),
    }
    assert!(a.modal.is_none());
    a.handle(AppEvent::SessionLoaded(Err("reading session s2".into())));
    assert_eq!(last_error(&a), "could not load session: reading session s2");
    a.handle(AppEvent::SessionLoaded(Ok(Session {
        id: "s2".into(),
        title: "two".into(),
        model: "old".into(),
        updated_at: "1".into(),
        messages: vec![ChatMessage::user("q".into()), ChatMessage::assistant("r".into())],
    })));
    assert_eq!(a.session_id, "s2");
    assert_eq!(a.chat_model, "old");
    assert_eq!(history(&a), [("user", "q"), ("assistant", "r")]);
    assert!(matches!(&a.items[..], [Item::User { .. }, Item::Assistant { id: 1, revision: 0, .. }]));
}

#[test]
fn a_new_session_starts_over() {
    let mut a = app();
    let before = a.session_id.clone();
    send(&mut a, "hi");
    a.handle(AppEvent::Chat(ChatEvent::Done { turn: 1 }));
    ctrl(&mut a, 'n');
    assert_ne!(a.session_id, before);
    assert!(a.chat_history.is_empty());
    assert_eq!(a.items.len(), 1);
    assert_eq!(last_info(&a), "new session");
    a.start_session("fixed".into());
    assert_eq!(a.session_id, "fixed");
}

fn call(id: &str) -> ToolCallView {
    ToolCallView {
        id: id.into(),
        title: "t".into(),
        kind: "read".into(),
        status: "pending".into(),
        raw_input: None,
        raw_output: None,
    }
}

#[test]
fn the_agent_thinks_speaks_and_uses_tools() {
    let mut a = app();
    ctrl(&mut a, 't');
    match &send(&mut a, "go")[..] {
        [Effect::Acp(AcpCommand::Prompt { text })] => assert_eq!(text, "go"),
        _ => panic!("the prompt goes to the agent"),
    }
    assert!(matches!(&ctrl(&mut a, 'c')[..], [Effect::Acp(AcpCommand::Cancel)]));
    agent(&mut a, AcpEvent::SessionReady { session_id: "s".into() });
    assert_eq!(a.agent_session.as_deref(), Some("s"));
    agent(&mut a, AcpEvent::ThoughtChunk("hm".into()));
    agent(&mut a, AcpEvent::ThoughtChunk("m".into()));
    assert!(matches!(a.items.last(), Some(Item::Thought { text, collapsed: false }) if text == "hmm"));
    agent(&mut a, AcpEvent::MessageChunk("ok".into()));
    let n = a.items.len();
    assert!(matches!(&a.items[n - 2], Item::Thought { collapsed: true, .. }));
    agent(&mut a, AcpEvent::ToolCall(call("x")));
    assert!(matches!(&a.items[n - 1], Item::Assistant { streaming: false, .. }));
    agent(&mut a, AcpEvent::ToolCall(call("x")));
    let mut up = ToolCallUpdateView::default();
    up.id = "x".into();
    up.status = Some("completed".into());
    up.raw_output = Some("out".into());
    agent(&mut a, AcpEvent::ToolCallUpdate(up));
    match (&a.items[n], &a.items[n + 1]) {
        (Item::Tool(first), Item::Tool(last)) => {
            assert_eq!(first.view.status, "pending");
            assert_eq!(last.view.status, "completed");
            assert_eq!(last.view.raw_output.as_deref(), Some("out"));
        }
        _ => panic!("two cards"),
    }
    agent(&mut a, AcpEvent::Plan(vec![PlanEntryView { content: "c".into(), status: "p".into() }]));
    assert_eq!(a.plan.len(), 1);
    agent(&mut a, AcpEvent::TurnEnded { stop_reason: "refusal".into() });
    assert_eq!(last_info(&a), "turn ended: refusal");
    assert!(a.plan.is_empty() && !a.busy);
    agent(&mut a, AcpEvent::AuthRequired("no key".into()));
    assert_eq!(last_error(&a), "goose provider auth problem: no key");
    agent(&mut a, AcpEvent::Error("e".into()));
    assert_eq!(last_error(&a), "e");
    agent(&mut a, AcpEvent::Exited("gone".into()));
    assert_eq!(last_error(&a), "agent exited: gone (Ctrl+T twice respawns)");
    assert!(a.agent_session.is_none());
}

#[test]
fn the_focus_walks_the_cards() {
    let mut a = app();
    key(&mut a, KeyCode::Tab);
    assert_eq!(a.focused_tool, None);
    for id in ["a", "b"] {
        agent(&mut a, AcpEvent::ToolCall(call(id)));
        agent(&mut a, AcpEvent::Error("e".into()));
    }
    // cards at 0 and 2
    key(&mut a, KeyCode::Tab);
    assert_eq!(a.focused_tool, Some(2));
    key(&mut a, KeyCode::Tab);
    assert!(matches!(&a.items[2], Item::Tool(c) if c.expanded));
    key(&mut a, KeyCode::BackTab);
    assert_eq!(a.focused_tool, Some(0));
    key(&mut a, KeyCode::BackTab);
    assert_eq!(a.focused_tool, Some(2));
    key(&mut a, KeyCode::BackTab);
    key(&mut a, KeyCode::Tab);
    assert_eq!(a.focused_tool, Some(2));
    key(&mut a, KeyCode::Esc);
    assert_eq!(a.focused_tool, None);
    assert!(!a.follow);
}

fn options() -> Vec<PermissionOptionView> {
    ["allow_once", "allow_always", "reject_once"]
        .iter()
        .map(|k| PermissionOptionView { id: format!("id-{k}"), name: "n".into(), kind: k.to_string() })
        .collect()
}

fn ask(a: &mut App, request: u64) -> Vec<Effect> {
    agent(a, AcpEvent::PermissionRequest { title: "t".into(), options: options(), request })
}

fn answer(effects: &[Effect]) -> (u64, Option<String>) {
    match effects {
        [Effect::AnswerPermission { request, outcome }] => (
            *request,
            match outcome {
                PermissionOutcome::Selected { option_id } => Some(option_id.clone()),
                PermissionOutcome::Cancelled => None,
            },
        ),
        _ => panic!("one answer"),
    }
}

#[test]
fn every_question_gets_one_answer() {
    let mut a = app();
    for (code, expected) in [
        (KeyCode::Char('y'), Some("id-allow_once")),
        (KeyCode::Char('a'), Some("id-allow_always")),
        (KeyCode::Char('n'), Some("id-reject_once")),
        (KeyCode::Enter, Some("id-allow_once")),
        (KeyCode::Esc, None),
    ] {
        assert!(ask(&mut a, 5).is_empty());
        assert_eq!(answer(&key(&mut a, code)), (5, expected.map(|s| s.to_string())));
        assert!(a.modal.is_none());
    }
    // a kind that is not offered leaves the question open
    ask(&mut a, 6);
    assert!(key(&mut a, KeyCode::Char('N')).is_empty());
    key(&mut a, KeyCode::Down);
    key(&mut a, KeyCode::Down);
    key(&mut a, KeyCode::Down);
    // a second question cancels the first
    assert_eq!(answer(&ask(&mut a, 7)), (6, None));
    key(&mut a, KeyCode::Down);
    assert_eq!(
        answer(&key(&mut a, KeyCode::Enter)),
        (7, Some("id-allow_always".to_string()))
    );
    // so does the list of sessions
    ask(&mut a, 8);
    let effects = a.handle(AppEvent::Sessions(vec![SessionMeta { id: "s".into(), title: "t".into() }]));
    assert_eq!(answer(&effects), (8, None));
}

#[test]
fn options_are_picked_by_kind() {
    assert_eq!(pick_kind(&options(), "reject_once").as_deref(), Some("id-reject_once"));
    assert_eq!(pick_kind(&options(), "reject_always"), None);
}

#[test]
fn help_opens_on_an_empty_input_only() {
    let mut a = app();
    key(&mut a, KeyCode::Char('?'));
    assert!(matches!(a.modal, Some(Modal::Help)));
    key(&mut a, KeyCode::Char('x'));
    assert!(a.modal.is_none());
    assert_eq!(a.input.lines(), [""]);
    type_text(&mut a, "what?");
    assert!(a.modal.is_none());
    assert!(ctrl(&mut a, 'd').is_empty());
}

#[test]
fn other_events_are_noted() {
    let mut a = app();
    a.handle(AppEvent::ProxyHealth(false));
    assert!(!a.proxy_healthy);
    let mut t = Theme::ansi();
    t.name = "night".into();
    a.handle(AppEvent::ThemeChanged(t));
    assert_eq!(a.theme.name, "night");
    assert!(a.has_room_for(&AppEvent::ProxyHealth(true)));
    a.next_id = u64::MAX;
    assert!(!a.has_room_for(&AppEvent::Chat(ChatEvent::Delta { turn: 0, text: "x".into() })));
    assert!(!a.has_room_for(&AppEvent::SessionLoaded(Ok(Session {
        id: "s".into(),
        title: "t".into(),
        model: "m".into(),
        updated_at: "1".into(),
        messages: vec![ChatMessage::assistant("r".into())],
    }))));
}

#[test]
fn escape_stops_the_turn_and_closes_boxes() {
    let mut a = app();
    send(&mut a, "hi");
    assert!(matches!(&key(&mut a, KeyCode::Esc)[..], [Effect::CancelChat]));
    assert!(a.busy, "the turn ends when its last event comes");
    a.handle(AppEvent::Chat(ChatEvent::Done { turn: 1 }));
    ctrl(&mut a, 't');
    send(&mut a, "go");
    assert!(matches!(&key(&mut a, KeyCode::Esc)[..], [Effect::Acp(AcpCommand::Cancel)]));
    key(&mut a, KeyCode::Char('?'));
    assert!(matches!(a.modal, Some(Modal::Help)));
    assert!(key(&mut a, KeyCode::Esc).is_empty(), "the box is closed first");
    assert!(a.modal.is_none());
}

#[test]
fn a_saved_conversation_is_resumed() {
    let mut a = app();
    send(&mut a, "what is it?");
    delta(&mut a, 1, "a ");
    delta(&mut a, 1, "tree");
    a.handle(AppEvent::Chat(ChatEvent::Done { turn: 1 }));
    let record = save(&a.session_id, &a.chat_model, &a.chat_history, 7).unwrap();
    let mut b = app();
    ctrl(&mut b, 't');
    b.handle(AppEvent::SessionLoaded(Ok(record)));
    assert_eq!(b.session_id, a.session_id);
    assert_eq!(b.mode, Mode::Chat);
    assert_eq!(history(&b), [("user", "what is it?"), ("assistant", "a tree")]);
    assert!(matches!(&b.items[0], Item::User { text } if text == "what is it?"));
    assert!(matches!(&b.items[1], Item::Assistant { md, streaming: false, .. } if md == "a tree"));
}

#[test]
fn typing_goes_on_behind_a_completed_command() {
    let mut a = app();
    type_text(&mut a, "/mo");
    key(&mut a, KeyCode::Tab);
    assert_eq!(a.input.lines(), ["/model "]);
    type_text(&mut a, "x");
    assert_eq!(a.input.lines(), ["/model x"]);
}

#[test]
fn both_ways_to_a_new_session_give_it_an_id() {
    let mut a = app();
    let mut ids = vec![a.session_id.clone()];
    ctrl(&mut a, 'n');
    ids.push(a.session_id.clone());
    send(&mut a, "/new");
    ids.push(a.session_id.clone());
    send(&mut a, "/new x");
    ids.push(a.session_id.clone());
    for (i, id) in ids.iter().enumerate() {
        assert_eq!(id.len(), 36);
        assert!(!ids[..i].contains(id));
    }
}

#[test]
fn parts_in_a_row_make_one_reply() {
    let mut a = app();
    agent(&mut a, AcpEvent::ThoughtChunk("hm".into()));
    for t in ["a", "b", "c"] {
        assert!(agent(&mut a, AcpEvent::MessageChunk(t.into())).is_empty());
    }
    assert_eq!(a.items.len(), 2);
    assert!(matches!(&a.items[0], Item::Thought { collapsed: true, .. }));
    assert!(matches!(
        &a.items[1],
        Item::Assistant { md, revision: 3, streaming: true, .. } if md == "abc"
    ));
}

#[test]
fn lists_do_not_lead_round() {
    let mut a = app();
    a.handle(AppEvent::Models(vec!["glm-5-3".into(), "m2".into()]));
    ctrl(&mut a, 'o');
    let row = |a: &App| match &a.modal {
        Some(Modal::ModelPicker { items, selected }) => (items.len(), *selected),
        _ => panic!("the list is open"),
    };
    for (code, expected) in [
        (KeyCode::Up, 0),
        (KeyCode::Down, 1),
        (KeyCode::Char('j'), 1),
        (KeyCode::Char('x'), 1),
        (KeyCode::Char('k'), 0),
        (KeyCode::Down, 1),
    ] {
        key(&mut a, code);
        assert_eq!(row(&a), (2, expected));
    }
    key(&mut a, KeyCode::Enter);
    assert!(a.modal.is_none());
    assert_eq!((a.chat_model.as_str(), a.agent_model.as_str()), ("m2", "glm-5-3"));
}
