//! The popup of slash commands.

use crate::app::model::AppModel;
use crate::app::App;
use crate::commands::{Command, CommandModel, Completion, CompletionModel};
use crate::text;
use crate::theme::{colored, TextStyle, Theme};
use crate::ui::layout::Rect;
use crate::ui::screen::{Card, CardModel};
use crate::ui::style::{line, push_line, span, Line, LineModel, Paint, Span};
use vstd::prelude::*;

verus! {

/// The most rows that the popup shows.
pub const MAX_ROWS: usize = 8;

/// Rows the popup wants, its frame included.
pub open spec fn popup_height(popup: Option<CompletionModel>) -> nat {
    match popup {
        None => 0,
        Some(c) => if c.items.len() <= MAX_ROWS {
            c.items.len() + 2
        } else {
            (MAX_ROWS + 2) as nat
        },
    }
}

/// A command as it is offered.
pub open spec fn offered_name(c: CommandModel) -> Seq<char> {
    if c.args.len() == 0 {
        "/"@ + c.name
    } else {
        "/"@ + c.name + " "@ + c.args
    }
}

/// The length of the longest name with its arguments, none for an empty list.
pub open spec fn longest(items: Seq<CommandModel>) -> nat
    decreases items.len(),
{
    if items.len() == 0 {
        0
    } else {
        let rest = longest(items.drop_last());
        let len = items.last().name.len() + items.last().args.len();
        if len > rest {
            len
        } else {
            rest
        }
    }
}

/// The columns that names take.
pub open spec fn name_columns(items: Seq<CommandModel>) -> nat {
    longest(items) + 3
}

/// Spaces.
pub open spec fn spaces(n: nat) -> Seq<char> {
    Seq::new(n, |i: int| ' ')
}

/// The text with spaces after it, up to this length.
pub open spec fn left_aligned(s: Seq<char>, n: nat) -> Seq<char> {
    if s.len() < n {
        s + spaces((n - s.len()) as nat)
    } else {
        s
    }
}

/// What is left of `n`, none if it does not go round.
pub open spec fn less(n: int, used: int) -> nat {
    if n > used {
        (n - used) as nat
    } else {
        0
    }
}

/// One row of the popup, padded to the full inner width, so that the highlighted
/// one reads as one bar.
pub open spec fn popup_line(
    c: CommandModel,
    selected: bool,
    columns: nat,
    width: u16,
    theme: Theme,
) -> LineModel {
    let name = offered_name(c);
    let taken = if name.len() > columns {
        name.len()
    } else {
        columns
    };
    let used = 2int + taken + c.help.len();
    let row = line(
        seq![
            span(
                if selected {
                    "› "@
                } else {
                    "  "@
                },
                theme.accent_role(),
            ),
            span(
                left_aligned(name, columns),
                TextStyle { bold: selected, ..theme.accent_role() },
            ),
            span(c.help, theme.hint_role()),
            span(spaces(less(less(width as int, 2) as int, used)), TextStyle::plain_style()),
        ],
    );
    if selected {
        LineModel {
            style: Paint::Role(
                TextStyle { bg: Some(theme.selection), ..TextStyle::plain_style() },
            ),
            ..row
        }
    } else {
        row
    }
}

/// The first entry that is shown, so that the highlighted one is on screen.
pub open spec fn first_row(popup: CompletionModel, visible: nat) -> nat {
    less(popup.selected as int, less(visible as int, 1) as int)
}

/// The rows of the popup.
pub open spec fn popup_lines(popup: CompletionModel, area: Rect, theme: Theme) -> Seq<LineModel> {
    let visible = less(area.height as int, 2);
    let start = first_row(popup, visible);
    let left = less(popup.items.len() as int, start as int);
    Seq::new(
        if left < visible {
            left
        } else {
            visible
        },
        |k: int|
            popup_line(
                popup.items[start + k],
                start + k == popup.selected,
                name_columns(popup.items),
                area.width,
                theme,
            ),
    )
}

/// The popup in its area, if it is open.
pub open spec fn popup_card(app: AppModel, area: Rect) -> Option<CardModel> {
    match app.completion {
        None => None,
        Some(popup) => Some(
            CardModel {
                area,
                title: span(" commands "@, app.theme.accent_role()),
                border: colored(app.theme.accent),
                style: app.theme.card_role(),
                lines: popup_lines(popup, area, app.theme),
            },
        ),
    }
}

/// Rows the popup wants, so the layout can reserve space above the input.
pub fn height(app: &App) -> (h: u16)
    requires
        app@.valid(),
    ensures
        h == popup_height(app@.completion),
{
    match &app.completion {
        None => 0,
        Some(c) => {
            if c.items.len() <= MAX_ROWS {
                c.items.len() as u16 + 2
            } else {
                MAX_ROWS as u16 + 2
            }
        },
    }
}

/// How long the text is.
fn count(s: &str) -> (n: usize)
    ensures
        n == s@.len(),
{
    text::chars_of(s).len()
}

/// The length of the longest name with its arguments. The commands are few and
/// short.
fn longest_name(items: &Vec<Command>) -> (n: usize)
    requires
        forall|i: int|
            0 <= i < items.len() ==> (#[trigger] items.deep_view()[i]).name.len()
                + items.deep_view()[i].args.len() <= u16::MAX,
    ensures
        n == longest(items.deep_view()),
        n <= u16::MAX,
{
    let mut n: usize = 0;
    let mut i: usize = 0;
    let ghost all = items.deep_view();
    proof {
        assert(all.take(0) =~= Seq::empty());
    }
    while i < items.len()
        invariant
            i <= items.len(),
            all == items.deep_view(),
            forall|i: int|
                0 <= i < items.len() ==> (#[trigger] all[i]).name.len() + all[i].args.len()
                    <= u16::MAX,
            n == longest(all.take(i as int)),
            n <= u16::MAX,
        decreases items.len() - i,
    {
        proof {
            assert(all.take(i + 1).drop_last() =~= all.take(i as int));
            assert(all.take(i + 1).last() == all[i as int]);
            assert(all[i as int] == items[i as int].deep_view());
        }
        let len = count(items[i].name) + count(items[i].args);
        if len > n {
            n = len;
        }
        i += 1;
    }
    proof {
        assert(all.take(i as int) =~= all);
    }
    n
}

/// The text with spaces after it, up to this length.
pub fn pad_right(s: &str, n: usize) -> (r: String)
    ensures
        r@ == left_aligned(s@, n as nat),
{
    let len = count(s);
    let pad = text::blanks(if len < n {
        n - len
    } else {
        0
    });
    let r = text::cat2(s, pad.as_str());
    assert(r@ =~= left_aligned(s@, n as nat));
    r
}

/// The commands' texts are short.
proof fn lemma_short(c: CommandModel)
    requires
        crate::commands::command_table().contains(c),
    ensures
        c.name.len() <= 8,
        c.args.len() <= 4,
        c.help.len() <= 30,
{
    reveal_strlit("help");
    reveal_strlit("model");
    reveal_strlit("new");
    reveal_strlit("sessions");
    reveal_strlit("chat");
    reveal_strlit("agent");
    reveal_strlit("quit");
    reveal_strlit("");
    reveal_strlit("[id]");
    reveal_strlit("show keys and commands");
    reveal_strlit("pick a model, or set one by id");
    reveal_strlit("start a new session");
    reveal_strlit("reopen a saved session");
    reveal_strlit("switch to chat mode");
    reveal_strlit("switch to agent mode");
    reveal_strlit("leave maplet");
}

/// A command as it is offered.
pub fn shown_name(c: &Command) -> (r: String)
    ensures
        r@ == offered_name(c.deep_view()),
{
    if c.args.is_empty() {
        text::cat2("/", c.name)
    } else {
        text::cat2(text::cat3("/", c.name, " ").as_str(), c.args)
    }
}

/// One row of the popup.
fn row(c: &Command, selected: bool, columns: usize, width: u16, theme: &Theme) -> (l: Line)
    requires
        crate::commands::command_table().contains(c.deep_view()),
        columns <= u16::MAX + 3,
    ensures
        l.deep_view() == popup_line(c.deep_view(), selected, columns as nat, width, *theme),
{
    proof {
        lemma_short(c.deep_view());
        reveal_strlit("/");
        reveal_strlit(" ");
    }
    let name = shown_name(c);
    let mut style = theme.accent_style();
    style.bold = selected;
    // Pad to the full inner width so the selected row reads as one bar.
    let taken = count(name.as_str());
    let taken = if taken > columns {
        taken
    } else {
        columns
    };
    let marker = if selected {
        "› "
    } else {
        "  "
    };
    let used = 2 + taken + count(c.help);
    let room: usize = if width >= 2 {
        width as usize - 2
    } else {
        0
    };
    let pad: usize = if room > used {
        room - used
    } else {
        0
    };
    let mut l = Line::new(
        vec![
            Span::new(marker.to_string(), theme.accent_style()),
            Span::new(pad_right(name.as_str(), columns), style),
            Span::new(c.help.to_string(), theme.hint()),
            Span::new(text::blanks(pad), TextStyle::plain()),
        ],
    );
    if selected {
        let mut bar = TextStyle::plain();
        bar.bg = Some(theme.selection);
        l.style = Paint::Role(bar);
    }
    proof {
        assert(l.deep_view().spans =~= popup_line(
            c.deep_view(),
            selected,
            columns as nat,
            width,
            *theme,
        ).spans);
    }
    l
}

/// The rows of the popup.
pub fn rows(popup: &Completion, area: Rect, theme: &Theme) -> (lines: Vec<Line>)
    requires
        popup.deep_view().valid(),
    ensures
        lines.deep_view() == popup_lines(popup.deep_view(), area, *theme),
{
    let ghost all = popup.items.deep_view();
    proof {
        assert forall|i: int| 0 <= i < all.len() implies (#[trigger] all[i]).name.len()
            + all[i].args.len() <= u16::MAX by {
            lemma_short(all[i]);
        }
    }
    let visible: usize = if area.height >= 2 {
        area.height as usize - 2
    } else {
        0
    };
    let back: usize = if visible >= 1 {
        visible - 1
    } else {
        0
    };
    let start: usize = if popup.selected > back {
        popup.selected - back
    } else {
        0
    };
    let columns = longest_name(&popup.items) + 3;
    let mut out: Vec<Line> = Vec::new();
    let mut i: usize = start;
    let ghost shown = popup_lines(popup.deep_view(), area, *theme);
    while i < popup.items.len() && i - start < visible
        invariant
            start <= i,
            start <= popup.items.len(),
            i <= popup.items.len(),
            i - start <= visible,
            popup.deep_view().valid(),
            all == popup.items.deep_view(),
            visible == crate::ui::completion::less(area.height as int, 2),
            start == first_row(popup.deep_view(), visible as nat),
            columns == name_columns(all),
            columns <= u16::MAX + 3,
            shown == popup_lines(popup.deep_view(), area, *theme),
            out.deep_view() =~= shown.take(i - start),
            i - start <= shown.len(),
        decreases popup.items.len() - i,
    {
        proof {
            assert(all[i as int] == popup.items[i as int].deep_view());
        }
        let l = row(&popup.items[i], i == popup.selected, columns, area.width, theme);
        proof {
            assert(l.deep_view() == shown[i - start]);
        }
        push_line(&mut out, l);
        i += 1;
    }
    proof {
        assert(shown.take(i - start) =~= shown);
    }
    out
}

/// The popup in its area, if it is open.
pub fn draw(app: &App, area: Rect) -> (r: Option<Card>)
    requires
        app@.valid(),
    ensures
        r.deep_view() == popup_card(app@, area),
{
    match &app.completion {
        None => None,
        Some(popup) => Some(
            Card {
                area,
                title: Span::new(" commands ".to_string(), app.theme.accent_style()),
                border: app.theme.border_active(),
                style: app.theme.card_bg(),
                lines: rows(popup, area, &app.theme),
            },
        ),
    }
}

} // verus!
