//! What a frame shows, computed from the state.

pub mod completion;
pub mod glyphs;
pub mod laws;
pub mod layout;
pub mod markdown;
pub mod modal;
pub mod screen;
pub mod shown_laws;
pub mod statusline;
pub mod style;
pub mod transcript;

use crate::app::model::AppModel;
use crate::app::App;
use crate::event::{plan_glyph, PlanEntryModel};
use crate::text;
use crate::theme::{colored, TextStyle, Theme};
use crate::ui::completion::{height, popup_card, popup_height};
use crate::ui::layout::{
    count_rows, low, low_bits, rows_of, shared_out, split, Flow, Gather, Limit, Rect, MAX_WIDTH,
};
use crate::ui::modal::drawn_at;
use crate::ui::screen::{
    InputBox, Overlay, OverlayModel, Pane, PaneModel, Screen, ScreenModel,
};
use crate::ui::statusline::status_pane;
use crate::ui::style::{line, push_line, push_lines, span, Line, LineModel, Span, SpanModel};
use crate::ui::transcript::{build, kept_renders, transcript_lines};
use vstd::prelude::*;

verus! {

/// The rows that the plan takes: a heading and at most five entries.
pub open spec fn plan_height(entries: nat) -> nat {
    if entries == 0 {
        0
    } else if low(entries) <= 5 {
        (low(entries) + 1) as nat
    } else {
        6
    }
}

/// The rows that the input takes: one to six lines, and its frame.
pub open spec fn input_height(lines: nat) -> nat {
    if low(lines) < 1 {
        3
    } else if low(lines) > 6 {
        8
    } else {
        (low(lines) + 2) as nat
    }
}

/// How the screen is shared out: transcript, plan, popup, input, status line.
pub open spec fn frame_limits(app: AppModel) -> Seq<Limit> {
    seq![
        Limit::Min(3),
        Limit::Length(plan_height(app.plan.len()) as u16),
        Limit::Length(popup_height(app.completion) as u16),
        Limit::Length(input_height(app.input.lines.len()) as u16),
        Limit::Length(1),
    ]
}

/// Blank lines.
pub open spec fn blank_lines(n: nat) -> Seq<LineModel> {
    Seq::new(n, |i: int| line(Seq::empty()))
}

/// The transcript as it stands in its area: a short one is padded from the top so
/// that it rests just above the input.
pub open spec fn rested(text: Seq<LineModel>, area: Rect) -> Seq<LineModel> {
    let measured = low(rows_of(text, area.width));
    if measured < area.height {
        blank_lines((area.height - measured) as nat) + text
    } else {
        text
    }
}

/// How far the transcript can be scrolled.
pub open spec fn max_scroll(text: Seq<LineModel>, area: Rect) -> u16 {
    let total = low(rows_of(rested(text, area), area.width));
    if total > area.height {
        (total - area.height) as u16
    } else {
        0
    }
}

/// Where the transcript is scrolled to.
pub open spec fn scrolled(app: AppModel, most: u16) -> u16 {
    if app.follow || app.scroll > most {
        most
    } else {
        app.scroll
    }
}

/// The transcript of the state.
pub open spec fn transcript_of(app: AppModel) -> Seq<LineModel> {
    transcript_lines(app.items, app.focused_tool, app.theme, app.markdown)
}

/// The state once the frame was drawn: the transcript's end is followed again
/// when it is in sight.
pub open spec fn after_frame(app: AppModel, area: Rect) -> AppModel {
    let most = max_scroll(transcript_of(app), area);
    AppModel {
        markdown: kept_renders(app.items, app.markdown),
        scroll: scrolled(app, most),
        follow: app.follow || scrolled(app, most) == most,
        ..app
    }
}

/// A plan entry.
pub open spec fn plan_line(entry: PlanEntryModel, theme: Theme) -> LineModel {
    let style = if entry.status == "completed"@ {
        colored(theme.green)
    } else if entry.status == "in_progress"@ {
        colored(theme.yellow)
    } else {
        theme.hint_role()
    };
    line(
        seq![
            span(plan_glyph(entry.status) + " "@, style),
            span(entry.content, theme.body_role()),
        ],
    )
}

/// The plan in its area, if there is one.
pub open spec fn plan_pane(app: AppModel, area: Rect) -> Option<PaneModel> {
    if app.plan.len() == 0 {
        None
    } else {
        let shown = app.plan.take(plan_height(app.plan.len()) - 1);
        Some(
            PaneModel {
                area,
                lines: seq![line(seq![span("plan"@, app.theme.hint_role())])] + shown.map_values(
                    |e: PlanEntryModel| plan_line(e, app.theme),
                ),
                style: TextStyle::plain_style(),
                scroll: 0,
                wrap: false,
            },
        )
    }
}

/// The frame with its parts at these places.
pub open spec fn screen_at(app: AppModel, areas: Seq<Rect>, modal: Option<OverlayModel>) -> ScreenModel {
    let text = transcript_of(app);
    ScreenModel {
        transcript: PaneModel {
            area: areas[0],
            lines: rested(text, areas[0]),
            style: app.theme.body_role(),
            scroll: scrolled(app, max_scroll(text, areas[0])),
            wrap: true,
        },
        plan: plan_pane(app, areas[1]),
        popup: popup_card(app, areas[2]),
        input: InputBox {
            area: areas[3],
            border: colored(
                if app.busy {
                    app.theme.muted
                } else {
                    app.theme.accent
                },
            ),
            style: app.theme.body_role(),
        },
        status: status_pane(app, areas[4]),
        modal,
    }
}

/// The plan in its area, if there is one.
fn plan(app: &App, area: Rect) -> (r: Option<Pane>)
    ensures
        r.deep_view() == plan_pane(app@, area),
{
    if app.plan.len() == 0 {
        return None;
    }
    let n = low_bits(app.plan.len());
    let shown: usize = if n <= 5 {
        n as usize
    } else {
        5
    };
    let mut lines = vec![Line::single("plan".to_string(), app.theme.hint())];
    let ghost head = lines.deep_view();
    let ghost all = app.plan.deep_view();
    let ghost f = |e: PlanEntryModel| plan_line(e, app.theme);
    let mut i: usize = 0;
    proof {
        assert(all.take(0).map_values(f) =~= Seq::empty());
        assert(shown <= all.len());
    }
    while i < shown
        invariant
            i <= shown <= app.plan.len(),
            all == app.plan.deep_view(),
            f == (|e: PlanEntryModel| plan_line(e, app.theme)),
            lines.deep_view() =~= head + all.take(i as int).map_values(f),
        decreases shown - i,
    {
        let entry = &app.plan[i];
        let mut style = TextStyle::plain();
        if text::same(entry.status.as_str(), "completed") {
            style.fg = Some(app.theme.green);
        } else if text::same(entry.status.as_str(), "in_progress") {
            style.fg = Some(app.theme.yellow);
        } else {
            style = app.theme.hint();
        }
        let l = Line::new(
            vec![
                Span::new(text::cat2(entry.glyph(), " "), style),
                Span::new(entry.content.clone(), app.theme.body()),
            ],
        );
        proof {
            assert(all[i as int] == entry.deep_view());
            assert(l.deep_view().spans =~= plan_line(all[i as int], app.theme).spans);
            assert(all.take(i + 1) =~= all.take(i as int).push(all[i as int]));
        }
        push_line(&mut lines, l);
        i += 1;
    }
    proof {
        assert(head =~= seq![line(seq![span("plan"@, app.theme.hint_role())])]);
    }
    Some(Pane { area, lines, style: TextStyle::plain(), scroll: 0, wrap: false })
}

/// Blank lines, and the text below them.
fn padded(n: usize, text: Vec<Line>) -> (r: Vec<Line>)
    ensures
        r.deep_view() == blank_lines(n as nat) + text.deep_view(),
{
    let mut r: Vec<Line> = Vec::new();
    let mut i: usize = 0;
    while i < n
        invariant
            i <= n,
            r.deep_view() =~= blank_lines(i as nat),
        decreases n - i,
    {
        let blank = Line::new(Vec::new());
        proof {
            let nothing: Seq<SpanModel> = Seq::empty();
            assert(blank.deep_view().spans =~= nothing);
        }
        push_line(&mut r, blank);
        i += 1;
    }
    push_lines(&mut r, text);
    r
}

/// The frame with its parts at these places.
pub fn compose(app: &mut App, areas: &Vec<Rect>, modal: Option<Overlay>) -> (s: Screen)
    requires
        old(app)@.valid(),
        areas.len() == 5,
        areas[0].width <= MAX_WIDTH,
    ensures
        s.deep_view() == screen_at(old(app)@, areas@, modal.deep_view()),
        final(app)@ == after_frame(old(app)@, areas@[0]),
        final(app).input == old(app).input,
{
    let ghost before = app@;
    let area = areas[0];
    let mut text = build(app);
    let measured = count_rows(&text, area.width);
    if measured < area.height {
        text = padded((area.height - measured) as usize, text);
    }
    let total = count_rows(&text, area.width);
    let most: u16 = if total > area.height {
        total - area.height
    } else {
        0
    };
    if app.follow {
        app.scroll = most;
    } else {
        if app.scroll > most {
            app.scroll = most;
        }
        if app.scroll == most {
            app.follow = true;
        }
    }
    let border = if app.busy {
        app.theme.border_idle()
    } else {
        app.theme.border_active()
    };
    let transcript = Pane {
        area,
        lines: text,
        style: app.theme.body(),
        scroll: app.scroll,
        wrap: true,
    };
    let plan = plan(app, areas[1]);
    let popup = completion::draw(app, areas[2]);
    let input = InputBox { area: areas[3], border, style: app.theme.body() };
    let status = statusline::draw(app, areas[4]);
    Screen { transcript, plan, popup, input, status, modal }
}

/// How the screen is shared out.
fn limits(app: &App) -> (r: Vec<Limit>)
    requires
        app@.valid(),
    ensures
        r@ == frame_limits(app@),
{
    let plan_rows: u16 = if app.plan.len() == 0 {
        0
    } else {
        let n = low_bits(app.plan.len());
        if n <= 5 {
            n + 1
        } else {
            6
        }
    };
    let n = low_bits(app.input.lines().len());
    let input_rows: u16 = if n < 1 {
        3
    } else if n > 6 {
        8
    } else {
        n + 2
    };
    let r = vec![
        Limit::Min(3),
        Limit::Length(plan_rows),
        Limit::Length(height(app)),
        Limit::Length(input_rows),
        Limit::Length(1),
    ];
    assert(r@ =~= frame_limits(app@));
    r
}

/// Whether this is a frame of the state in the area, shared out in these parts.
pub open spec fn is_frame(
    before: AppModel,
    after: AppModel,
    screen: ScreenModel,
    area: Rect,
    areas: Seq<Rect>,
) -> bool {
    &&& shared_out(areas, frame_limits(before), area, Flow::Down, Gather::Start)
    &&& screen == screen_at(before, areas, screen.modal)
    &&& after == after_frame(before, areas[0])
    &&& match before.modal {
        None => screen.modal is None,
        Some(modal) => screen.modal is Some && drawn_at(
            modal,
            before.theme,
            area,
            screen.modal->0,
        ),
    }
}

/// The frame for an area.
pub fn draw(app: &mut App, area: Rect) -> (s: Screen)
    requires
        old(app)@.valid(),
        area.sane(),
        area.width <= MAX_WIDTH,
    ensures
        exists|areas: Seq<Rect>|
            #[trigger] is_frame(old(app)@, final(app)@, s.deep_view(), area, areas),
        final(app)@.valid(),
        final(app).input == old(app).input,
{
    let areas = split(area, Flow::Down, Gather::Start, &limits(app));
    assert(layout::part_of(areas@[0], area, Flow::Down));
    let modal = modal::draw(app, area);
    let s = compose(app, &areas, modal);
    assert(is_frame(old(app)@, app@, s.deep_view(), area, areas@));
    s
}

} // verus!
