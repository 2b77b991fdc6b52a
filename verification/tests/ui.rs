use maplet::app::{App, Item, Modal, ToolCard};
use maplet::config::Config;
use maplet::event::{
    AppEvent, KeyCode, KeyEvent, PermissionOptionView, PlanEntryView, TermEvent, ToolCallView,
};
use maplet::theme::{Color, TextStyle, Theme};
use maplet::ui::draw;
use maplet::ui::layout::{count_rows, Rect, MAX_WIDTH};
use maplet::ui::markdown::{MarkdownCache, MAX_ITEM_MARKS};
use maplet::ui::screen::{Card, Pane, Screen};
use maplet::ui::style::{Align, Line, Paint};
use ratatui::backend::TestBackend;
use ratatui::layout::Alignment;
use ratatui::style::{Modifier, Style};
use ratatui::widgets::{Block, Borders, Clear, ListState, Paragraph, Wrap};
use ratatui::{Frame, Terminal};

fn rect(r: Rect) -> ratatui::layout::Rect {
    ratatui::layout::Rect { x: r.x, y: r.y, width: r.width, height: r.height }
}

fn color(c: Color) -> ratatui::style::Color {
    match c {
        Color::Reset => ratatui::style::Color::Reset,
        Color::Red => ratatui::style::Color::Red,
        Color::Green => ratatui::style::Color::Green,
        Color::Yellow => ratatui::style::Color::Yellow,
        Color::Blue => ratatui::style::Color::Blue,
        Color::Magenta => ratatui::style::Color::Magenta,
        Color::Cyan => ratatui::style::Color::Cyan,
        Color::DarkGray => ratatui::style::Color::DarkGray,
        Color::White => ratatui::style::Color::White,
        Color::Rgb(r, g, b) => ratatui::style::Color::Rgb(r, g, b),
    }
}

fn style(s: TextStyle) -> Style {
    let mut out = Style::default();
    if let Some(c) = s.fg {
        out = out.fg(color(c));
    }
    if let Some(c) = s.bg {
        out = out.bg(color(c));
    }
    if s.bold {
        out = out.add_modifier(Modifier::BOLD);
    }
    if s.italic {
        out = out.add_modifier(Modifier::ITALIC);
    }
    if s.dim {
        out = out.add_modifier(Modifier::DIM);
    }
    out
}

fn paint(p: &Paint) -> Style {
    match p {
        Paint::Role(s) => style(*s),
        Paint::Rendered(s) => *s,
    }
}

fn lines(lines: &[Line]) -> Vec<ratatui::text::Line<'static>> {
    lines
        .iter()
        .map(|l| {
            let spans: Vec<_> = l
                .spans
                .iter()
                .map(|s| ratatui::text::Span::styled(s.content.clone(), paint(&s.style)))
                .collect();
            let mut out = ratatui::text::Line::from(spans).style(paint(&l.style));
            if let Some(a) = l.align {
                out = out.alignment(match a {
                    Align::Left => Alignment::Left,
                    Align::Center => Alignment::Center,
                    Align::Right => Alignment::Right,
                });
            }
            out
        })
        .collect()
}

fn pane(frame: &mut Frame, p: &Pane) {
    let mut text = Paragraph::new(lines(&p.lines)).style(style(p.style)).scroll((p.scroll, 0));
    if p.wrap {
        text = text.wrap(Wrap { trim: false });
    }
    frame.render_widget(text, rect(p.area));
}

fn card(frame: &mut Frame, c: &Card) {
    let block = Block::default()
        .borders(Borders::ALL)
        .border_style(style(c.border))
        .title(ratatui::text::Span::styled(c.title.content.clone(), paint(&c.title.style)));
    frame.render_widget(Clear, rect(c.area));
    frame.render_widget(
        Paragraph::new(lines(&c.lines)).style(style(c.style)).block(block),
        rect(c.area),
    );
}

fn show(frame: &mut Frame, screen: &Screen, app: &mut App) {
    pane(frame, &screen.transcript);
    if let Some(p) = &screen.plan {
        pane(frame, p);
    }
    if let Some(c) = &screen.popup {
        card(frame, c);
    }
    let block = Block::default().borders(Borders::ALL).border_style(style(screen.input.border));
    app.input.area.set_block(block);
    app.input.area.set_style(style(screen.input.style));
    frame.render_widget(&app.input.area, rect(screen.input.area));
    pane(frame, &screen.status);
    if let Some(o) = &screen.modal {
        card(frame, &o.card);
        if let Some(q) = &o.question {
            let text = Paragraph::new(q.text.clone()).style(style(q.style)).wrap(Wrap { trim: true });
            frame.render_widget(text, rect(q.area));
        }
        if let Some(l) = &o.list {
            let list = ratatui::widgets::List::new(l.rows.clone())
                .highlight_style(style(l.highlight))
                .highlight_symbol(l.marker.as_str());
            let mut state = ListState::default().with_selected(Some(l.selected));
            frame.render_stateful_widget(list, rect(l.area), &mut state);
        }
    }
}

fn render(app: &mut App, w: u16, h: u16) -> String {
    let mut terminal = Terminal::new(TestBackend::new(w, h)).unwrap();
    terminal
        .draw(|f| {
            let area = f.area();
            let screen = draw(
                app,
                Rect { x: area.x, y: area.y, width: area.width, height: area.height },
            );
            show(f, &screen, app);
        })
        .unwrap();
    let buf = terminal.backend().buffer().clone();
    (0..h)
        .map(|y| (0..w).map(|x| buf[(x, y)].symbol()).collect::<String>())
        .collect::<Vec<_>>()
        .join("\n")
}

fn press(app: &mut App, code: KeyCode) {
    app.handle(AppEvent::Term(TermEvent::Key(KeyEvent::plain(code))));
}

/// The user's own message must stay visible after the reply arrives.
#[test]
fn user_message_visible_after_reply() {
    let mut app = App::new(&Config::default(), Theme::ansi());
    app.items.push(Item::User { text: "Reply with a fenced python block.".into() });
    app.items.push(Item::Assistant {
        id: 1,
        md: "```python\nprint(\"hello\")\n```".into(),
        revision: 1,
        streaming: false,
    });
    let screen = render(&mut app, 100, 30);
    assert!(screen.contains("you"), "user message scrolled out of view");
    assert!(screen.contains("print(\"hello\")"), "the reply is rendered");
}

/// Slash commands offer completion, and Enter runs the highlighted one.
#[test]
fn slash_command_completion_and_dispatch() {
    let mut app = App::new(&Config::default(), Theme::ansi());
    for ch in "/mod".chars() {
        press(&mut app, KeyCode::Char(ch));
    }
    let comp = app.completion.as_ref().expect("popup open while typing a command");
    assert_eq!(comp.selected().name, "model");
    let screen = render(&mut app, 80, 24);
    assert!(screen.contains("/model"), "completion popup not drawn");

    // Enter runs the highlighted command rather than sending it as a message
    press(&mut app, KeyCode::Enter);
    assert!(app.completion.is_none(), "popup should close after running");
    assert!(app.chat_history.is_empty(), "a command must not be sent to the model");
}

/// Every glyph the UI draws must exist in ordinary monospace fonts, so it
/// does not fall back (misaligning the grid) or render as tofu elsewhere.
#[test]
fn only_portable_glyphs_are_drawn() {
    const ALLOWED: &str = "±·»×…›→↓≡▌○◌●┌┐└┘─│";
    let mut app = App::new(&Config::default(), Theme::ansi());
    app.items.push(Item::User { text: "hi".into() });
    app.items.push(Item::Thought { text: "pondering".into(), collapsed: false });
    for (i, kind) in
        ["read", "edit", "delete", "move", "search", "execute", "think", "fetch", "other"]
            .iter()
            .enumerate()
    {
        app.items.push(Item::Tool(ToolCard {
            view: ToolCallView {
                id: format!("t{i}"),
                title: "thing".into(),
                kind: (*kind).into(),
                status: ["pending", "in_progress", "completed", "failed"][i % 4].into(),
                raw_input: None,
                raw_output: None,
            },
            expanded: false,
        }));
    }
    for status in ["pending", "in_progress", "completed"] {
        app.plan.push(PlanEntryView { content: "step".into(), status: status.into() });
    }
    let screen = render(&mut app, 100, 40);
    let bad: Vec<char> =
        screen.chars().filter(|c| !c.is_ascii() && !ALLOWED.contains(*c)).collect();
    assert!(bad.is_empty(), "non-portable glyphs drawn: {bad:?}");
}

/// A short conversation rests just above the input, not at the top of an
/// empty pane, so the transcript fills like a terminal.
#[test]
fn short_conversation_is_bottom_anchored() {
    let mut app = App::new(&Config::default(), Theme::ansi());
    app.items.push(Item::User { text: "hello".into() });
    let screen = render(&mut app, 80, 24);
    let rows: Vec<&str> = screen.lines().collect();
    let msg = rows.iter().position(|r| r.contains("hello")).expect("message rendered");
    // input box occupies the last few rows; the message should sit just above it
    assert!(msg > rows.len() / 2, "message at row {msg} of {}, expected near the bottom", rows.len());
    assert_eq!(msg, 24 - 1 - 3 - 1);
}

#[test]
fn long_conversations_scroll_and_are_followed() {
    let mut app = App::new(&Config::default(), Theme::ansi());
    for i in 0..40 {
        app.items.push(Item::Info(format!("note {i}")));
    }
    let screen = render(&mut app, 40, 20);
    assert!(screen.contains("note 39"));
    // 40 notes and 39 blank lines, in a pane of 16 rows
    assert_eq!(app.scroll, 79 - 16);
    press(&mut app, KeyCode::PageUp);
    assert!(!app.follow);
    let screen = render(&mut app, 40, 20);
    assert!(!screen.contains("note 39"));
    assert_eq!(app.scroll, 79 - 16 - 10);
    press(&mut app, KeyCode::PageDown);
    press(&mut app, KeyCode::PageDown);
    render(&mut app, 40, 20);
    assert!(app.follow, "the end is followed once it is reached");
    assert_eq!(app.scroll, 79 - 16);
}

#[test]
fn long_lines_are_wrapped_before_they_are_counted() {
    let mut app = App::new(&Config::default(), Theme::ansi());
    app.items.push(Item::Info("x".repeat(200)));
    // two characters and two hundred, twenty to a row, in a pane of four rows
    render(&mut app, 20, 8);
    assert_eq!(app.scroll, 11 - 4);
}

#[test]
fn the_status_line_tells_mode_model_and_health() {
    let mut app = App::new(&Config::default(), Theme::ansi());
    let screen = render(&mut app, 80, 10);
    let last = screen.lines().last().unwrap().to_string();
    assert!(last.starts_with(" CHAT  glm-5-3 · ● enclave · terminal"), "{last}");
    assert!(last.trim_end().ends_with("/ commands · ? help"), "{last}");
    app.busy = true;
    app.proxy_healthy = false;
    let screen = render(&mut app, 80, 10);
    let last = screen.lines().last().unwrap().to_string();
    assert!(last.contains("● enclave?") && last.contains("working… (Esc cancels)"), "{last}");
}

#[test]
fn plans_stand_above_the_input() {
    let mut app = App::new(&Config::default(), Theme::ansi());
    for i in 0..7 {
        app.plan.push(PlanEntryView { content: format!("step {i}"), status: "pending".into() });
    }
    let screen = render(&mut app, 40, 24);
    let rows: Vec<&str> = screen.lines().collect();
    let at = rows.iter().position(|r| r.starts_with("plan")).expect("heading");
    assert_eq!(at, 24 - 1 - 3 - 6);
    assert!(rows[at + 1].starts_with("○ step 0"));
    assert!(rows[at + 5].starts_with("○ step 4"));
    assert!(!screen.contains("step 5"));
}

#[test]
fn tool_cards_show_their_details_when_expanded() {
    let mut app = App::new(&Config::default(), Theme::ansi());
    app.items.push(Item::Tool(ToolCard {
        view: ToolCallView {
            id: "t".into(),
            title: "list".into(),
            kind: "execute".into(),
            status: "completed".into(),
            raw_input: Some("{\"cmd\": \"ls\"}".into()),
            raw_output: Some("y".repeat(1300)),
        },
        expanded: false,
    }));
    let screen = render(&mut app, 60, 20);
    assert!(screen.contains(" › execute · list · ● completed [Tab: details]"), "{screen}");
    press(&mut app, KeyCode::Tab);
    press(&mut app, KeyCode::Tab);
    let screen = render(&mut app, 60, 60);
    assert!(screen.contains("▌› execute · list · ● completed"), "{screen}");
    assert!(screen.contains("  input:") && screen.contains("{\"cmd\": \"ls\"}"));
    assert_eq!(screen.matches('y').count(), 1200);
    assert!(screen.contains('…'));
}

#[test]
fn boxes_stand_in_the_middle() {
    let mut app = App::new(&Config::default(), Theme::ansi());
    app.modal = Some(Modal::Help);
    let screen = render(&mut app, 100, 40);
    assert!(screen.contains("┌ help "));
    assert!(screen.contains("   Alt+Enter  newline (also Ctrl+J)"));
    assert!(screen.contains(" /model [id]  pick a model, or set one by id"));
    let row = screen.lines().find(|l| l.contains("┌ help ")).unwrap();
    let left = row.chars().take_while(|c| *c == ' ').count();
    assert_eq!(left, (100 - 62) / 2);

    app.modal = Some(Modal::ModelPicker {
        items: vec!["glm-5-3".into(), "other".into()],
        selected: 1,
    });
    let screen = render(&mut app, 100, 40);
    assert!(screen.contains("┌ model ") && screen.contains("› other"));

    app.modal = Some(Modal::Permission {
        title: "run ls".into(),
        options: vec![
            PermissionOptionView { id: "1".into(), name: "Allow".into(), kind: "allow_once".into() },
            PermissionOptionView { id: "2".into(), name: "No".into(), kind: "reject_once".into() },
        ],
        selected: 0,
        request: 1,
    });
    let screen = render(&mut app, 100, 40);
    assert!(screen.contains("┌ permission "));
    assert!(screen.contains("run ls"));
    assert!(screen.contains("› [y] Allow") && screen.contains("  [n] No"), "{screen}");
}

#[test]
fn replies_are_rendered_again_when_they_change() {
    let mut app = App::new(&Config::default(), Theme::ansi());
    app.items.push(Item::Assistant { id: 1, md: "# one".into(), revision: 1, streaming: true });
    app.next_id = 1;
    assert!(render(&mut app, 60, 12).contains("one"));
    if let Item::Assistant { md, revision, .. } = &mut app.items[0] {
        *md = "two".into();
        *revision += 1;
    }
    let screen = render(&mut app, 60, 12);
    assert!(screen.contains("two") && !screen.contains("one"));
}

#[test]
fn small_screens_are_drawn_too() {
    for (w, h) in [(1, 1), (2, 3), (10, 4), (5, 40)] {
        let mut app = App::new(&Config::default(), Theme::ansi());
        app.items.push(Item::User { text: "hello".into() });
        app.modal = Some(Modal::Help);
        let screen = render(&mut app, w, h);
        assert_eq!(screen.lines().count(), h as usize);
    }
}

#[test]
fn panes_stand_on_each_other() {
    for planned in [0u16, 1, 3, 7] {
        for command in [false, true] {
            let mut app = App::new(&Config::default(), Theme::ansi());
            for _ in 0..planned {
                app.plan.push(PlanEntryView { content: "step".into(), status: "pending".into() });
            }
            if command {
                press(&mut app, KeyCode::Char('/'));
            }
            let plan = if planned == 0 { 0 } else { planned.min(5) + 1 };
            for x in [0u16, 7] {
                for height in 1..70u16 {
                    let area = Rect { x, y: x + 2, width: 40, height };
                    let s = draw(&mut app, area);
                    let popup = s.popup.as_ref().map_or(0, |_| {
                        (app.completion.as_ref().unwrap().items.len() as u16).min(8) + 2
                    });
                    let (top, input, status) = (s.transcript.area, s.input.area, s.status.area);
                    assert_eq!((top.x, top.y, top.width), (x, x + 2, 40));
                    if 3 + plan + popup + 3 + 1 > height {
                        assert_eq!(top.height, height.min(3));
                        assert!(top.y + top.height <= input.y && input.height <= 3);
                        assert_eq!(input.y + input.height, status.y);
                        assert!(status.height <= 1);
                        assert_eq!(status.y + status.height, area.y + area.height);
                        if let Some(p) = &s.plan {
                            assert_eq!(p.area.y, top.y + top.height);
                            assert!(p.area.height <= plan);
                        }
                        if let Some(p) = &s.popup {
                            assert_eq!(p.area.y + p.area.height, input.y);
                            assert!(p.area.height <= popup);
                        }
                        continue;
                    }
                    assert_eq!(top.y + top.height + plan + popup, input.y);
                    assert_eq!(input.height, 3);
                    assert_eq!(input.y + 3, status.y);
                    assert_eq!(status.y + 1, area.y + area.height);
                    if let Some(p) = &s.plan {
                        assert_eq!((p.area.y, p.area.height), (top.y + top.height, plan));
                    }
                    if let Some(p) = &s.popup {
                        assert_eq!((p.area.y + p.area.height, p.area.height), (input.y, popup));
                    }
                }
            }
        }
    }
}

#[test]
fn answers_stand_below_the_question() {
    for count in [0u16, 1, 4, 40] {
        let mut app = App::new(&Config::default(), Theme::ansi());
        let one =
            || PermissionOptionView { id: "1".into(), name: "Allow".into(), kind: "allow_once".into() };
        app.modal = Some(Modal::Permission {
            title: "run ls".into(),
            options: (0..count).map(|_| one()).collect(),
            selected: 0,
            request: 1,
        });
        for height in 0..60u16 {
            let s = draw(&mut app, Rect { x: 1, y: 2, width: 80, height });
            let o = s.modal.unwrap();
            let (question, list) = (o.question.unwrap().area, o.list.unwrap().area);
            let room = o.card.area.height.saturating_sub(2);
            let rows = if count + 3 <= room { count + 1 } else { room.saturating_sub(2) };
            assert_eq!(list.height, rows);
            assert_eq!(question.height, room - rows);
            assert_eq!(question.y + question.height, list.y);
        }
    }
}

#[test]
fn boxes_have_the_same_room_on_either_side() {
    let mut app = App::new(&Config::default(), Theme::ansi());
    app.modal = Some(Modal::Help);
    for width in 0..140u16 {
        for height in [0u16, 1, 10, 23, 24, 25, 26, 51, 60] {
            let area = Rect { x: 3, y: 5, width, height };
            let r = draw(&mut app, area).modal.unwrap().card.area;
            assert_eq!((r.width, r.height), (width.min(62), height.min(24)));
            let (left, right) = (r.x - 3, 3 + width - r.x - r.width);
            let (above, below) = (r.y - 5, 5 + height - r.y - r.height);
            assert!(left.abs_diff(right) <= 1 && above.abs_diff(below) <= 1);
        }
    }
}

#[test]
fn the_highlighted_row_is_one_bar() {
    let mut app = App::new(&Config::default(), Theme::ansi());
    press(&mut app, KeyCode::Char('/'));
    let screen = draw(&mut app, Rect { x: 0, y: 0, width: 80, height: 30 });
    for l in &screen.popup.unwrap().lines {
        let columns: usize = l.spans.iter().map(|s| s.content.chars().count()).sum();
        assert_eq!(columns, 78);
    }
}

#[test]
fn deeply_nested_lists_are_shown_as_they_were_written() {
    let mut cache = MarkdownCache::new();
    let shown = |lines: &Vec<Line>| -> Vec<String> {
        lines.iter().map(|l| l.spans.iter().map(|s| s.content.as_str()).collect()).collect()
    };
    let lines = cache.render(1, 1, "1. one\n   - *two*\n");
    assert!(!lines.is_empty() && !shown(&lines).concat().contains("*two*"));
    assert!(lines[0].spans.iter().all(|s| matches!(s.style, Paint::Rendered(_))));

    let deepest = "1. ".repeat(MAX_ITEM_MARKS);
    assert!(matches!(cache.render(2, 1, &"a. ".repeat(MAX_ITEM_MARKS))[0].style, Paint::Rendered(_)));
    let nested = cache.render(4, 1, &format!("{}x", "1. ".repeat(200)));
    assert!(nested.iter().all(|l| matches!(l.style, Paint::Rendered(_))));

    let deeper = format!("{deepest}1. x\ny");
    let lines = cache.render(3, 1, &deeper);
    assert_eq!(shown(&lines), [format!("{deepest}1. x"), "y".to_string()]);
    assert!(lines.iter().all(|l| matches!(l.spans[0].style, Paint::Role(_))));
}

#[test]
fn text_is_wrapped_in_wide_areas() {
    let w = MAX_WIDTH as usize;
    let word = |n: usize| "a".repeat(n);
    let space = |n: usize| " ".repeat(n);
    let text = format!("{} {}{}{} {}", word(w), word(w - 1), space(w), word(w), word(3));
    let line = || Line::single(text.clone(), TextStyle::plain());
    let rows = count_rows(&vec![line()], MAX_WIDTH);
    assert!((4..=6).contains(&rows), "{rows}");
    assert_eq!(count_rows(&vec![line(), line()], MAX_WIDTH), 2 * rows);
    assert_eq!(count_rows(&vec![line()], 0), 0);
}
