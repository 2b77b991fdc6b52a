//! The line at the bottom of the screen.

use crate::app::model::AppModel;
use crate::app::{App, Mode};
use crate::text;
use crate::theme::{colored, TextStyle};
use crate::ui::completion::{less, spaces};
use crate::ui::layout::Rect;
use crate::ui::screen::{Pane, PaneModel};
use crate::ui::style::{line, span, Line, LineModel, Span, SpanModel};
use vstd::prelude::*;

verus! {

/// The encoded length of the hints at the right end.
pub const HINTS_LENGTH: usize = 21;

/// The number of characters of the runs.
pub open spec fn width_of(spans: Seq<SpanModel>) -> nat
    decreases spans.len(),
{
    if spans.len() == 0 {
        0
    } else {
        width_of(spans.drop_last()) + spans.last().content.len()
    }
}

/// What stands at the left: mode, model, health of the connection, theme, and
/// whether a turn is running.
pub open spec fn status_left(app: AppModel) -> Seq<SpanModel> {
    let theme = app.theme;
    seq![
        span(
            match app.mode {
                Mode::Chat => " CHAT "@,
                Mode::Agent => " AGENT "@,
            },
            theme.selected_role(),
        ),
        span(" "@, TextStyle::plain_style()),
        span(app.model_name(), theme.accent_role()),
        span(" · "@, TextStyle::plain_style()),
        if app.proxy_healthy {
            span("● enclave"@, colored(theme.green))
        } else {
            span("● enclave?"@, theme.error_role())
        },
        span(" · "@, TextStyle::plain_style()),
        span(theme.name@, theme.hint_role()),
        if app.busy {
            span(" · working… (Esc cancels)"@, theme.hint_role())
        } else {
            span(Seq::empty(), TextStyle::plain_style())
        },
    ]
}

/// The status line at this width, with the hints at its right end.
pub open spec fn status_line(app: AppModel, width: u16) -> LineModel {
    let left = status_left(app);
    let pad = less(less(width as int, width_of(left) as int) as int, HINTS_LENGTH as int);
    line(
        left + seq![
            span(spaces(pad), TextStyle::plain_style()),
            span("/ commands · ? help "@, app.theme.hint_role()),
        ],
    )
}

/// The status line in its area.
pub open spec fn status_pane(app: AppModel, area: Rect) -> PaneModel {
    PaneModel {
        area,
        lines: seq![status_line(app, area.width)],
        style: TextStyle::plain_style(),
        scroll: 0,
        wrap: false,
    }
}

/// The number of characters of the runs, at most `limit`.
fn line_width(spans: &Vec<Span>, limit: usize) -> (n: usize)
    ensures
        n == if width_of(spans.deep_view()) < limit {
            width_of(spans.deep_view())
        } else {
            limit as nat
        },
{
    let mut n: usize = 0;
    let mut i: usize = 0;
    let ghost all = spans.deep_view();
    while i < spans.len()
        invariant
            i <= spans.len(),
            all == spans.deep_view(),
            n == if width_of(all.take(i as int)) < limit {
                width_of(all.take(i as int))
            } else {
                limit as nat
            },
        decreases spans.len() - i,
    {
        let more = text::chars_of(spans[i].content.as_str()).len();
        proof {
            assert(all.take(i + 1).drop_last() =~= all.take(i as int));
            assert(all.take(i + 1).last() == spans[i as int].deep_view());
        }
        if more >= limit - n {
            n = limit;
        } else {
            n += more;
        }
        i += 1;
    }
    proof {
        assert(all.take(i as int) =~= all);
    }
    n
}

/// The status line at this width.
pub fn status(app: &App, width: u16) -> (l: Line)
    ensures
        l.deep_view() == status_line(app@, width),
{
    let theme = &app.theme;
    let mode = match app.mode {
        Mode::Chat => " CHAT ",
        Mode::Agent => " AGENT ",
    };
    let mut green = TextStyle::plain();
    green.fg = Some(theme.green);
    let health = if app.proxy_healthy {
        Span::new("● enclave".to_string(), green)
    } else {
        Span::new("● enclave?".to_string(), theme.error())
    };
    let busy = if app.busy {
        Span::new(" · working… (Esc cancels)".to_string(), theme.hint())
    } else {
        Span::new(String::new(), TextStyle::plain())
    };
    let mut spans = vec![
        Span::new(mode.to_string(), theme.selected()),
        Span::new(" ".to_string(), TextStyle::plain()),
        Span::new(app.model(), theme.accent_style()),
        Span::new(" · ".to_string(), TextStyle::plain()),
        health,
        Span::new(" · ".to_string(), TextStyle::plain()),
        Span::new(theme.name.clone(), theme.hint()),
        busy,
    ];
    let ghost left = status_left(app@);
    proof {
        assert(spans.deep_view() =~= left);
    }
    let room = width as usize;
    let used = line_width(&spans, room);
    let pad: usize = if room - used > HINTS_LENGTH {
        room - used - HINTS_LENGTH
    } else {
        0
    };
    spans.push(Span::new(text::blanks(pad), TextStyle::plain()));
    spans.push(Span::new("/ commands · ? help ".to_string(), theme.hint()));
    let l = Line::new(spans);
    proof {
        assert(l.deep_view().spans =~= status_line(app@, width).spans);
    }
    l
}

/// The status line in its area.
pub fn draw(app: &App, area: Rect) -> (p: Pane)
    ensures
        p.deep_view() == status_pane(app@, area),
{
    let p = Pane {
        area,
        lines: vec![status(app, area.width)],
        style: TextStyle::plain(),
        scroll: 0,
        wrap: false,
    };
    assert(p.deep_view().lines =~= seq![status_line(app@, area.width)]);
    p
}

} // verus!
