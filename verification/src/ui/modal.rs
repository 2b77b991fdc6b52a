//! The boxes over the transcript.

use crate::app::model::ModalModel;
use crate::app::{App, Modal};
use crate::commands::{command_table, commands, CommandModel};
use crate::event::{PermissionOptionModel, PermissionOptionView};
use crate::session::{SessionMeta, SessionMetaModel};
use crate::text;
use crate::theme::{colored, Theme};
use crate::ui::completion::{offered_name, shown_name, spaces};
use crate::ui::layout::{
    framed, inner, inside, low, low_bits, part_of, shared_out, split, wanted, Flow, Gather, Limit, Rect,
};
use crate::ui::screen::{
    Card, CardModel, List, ListModel, Overlay, OverlayModel, Question, QuestionModel,
};
use crate::ui::style::{line, push_line, span, Line, LineModel, Span, SpanModel};
use vstd::prelude::*;

verus! {

/// The text with spaces before it, up to this length.
pub open spec fn right_aligned(s: Seq<char>, n: nat) -> Seq<char> {
    if s.len() < n {
        spaces((n - s.len()) as nat) + s
    } else {
        s
    }
}

/// The text with spaces before it, up to this length.
fn pad_left(s: &str, n: usize) -> (r: String)
    ensures
        r@ == right_aligned(s@, n as nat),
{
    let len = text::chars_of(s).len();
    let pad = text::blanks(if len < n {
        n - len
    } else {
        0
    });
    let r = text::cat2(pad.as_str(), s);
    assert(r@ =~= right_aligned(s@, n as nat));
    r
}

/// The keys that the help explains.
pub open spec fn help_table() -> Seq<(Seq<char>, Seq<char>)> {
    seq![
        ("Enter"@, "send"@),
        ("Alt+Enter"@, "newline (also Ctrl+J)"@),
        ("Esc"@, "cancel turn / close modal"@),
        ("Ctrl+C"@, "cancel if busy, else quit"@),
        ("Ctrl+D"@, "quit (empty input)"@),
        ("Ctrl+T"@, "toggle chat/agent mode"@),
        ("Ctrl+O"@, "model picker"@),
        ("Ctrl+P"@, "session picker"@),
        ("Ctrl+N"@, "new session"@),
        ("Tab"@, "focus tool cards / expand"@),
        ("PgUp/PgDn"@, "scroll transcript"@),
        ("End"@, "follow live output"@),
        ("y/a/n/N"@, "answer permission prompts"@),
    ]
}

/// The keys that the help explains.
fn help_entries() -> (r: Vec<(&'static str, &'static str)>)
    ensures
        r.deep_view() == help_table(),
{
    let r: Vec<(&'static str, &'static str)> = vec![
        ("Enter", "send"),
        ("Alt+Enter", "newline (also Ctrl+J)"),
        ("Esc", "cancel turn / close modal"),
        ("Ctrl+C", "cancel if busy, else quit"),
        ("Ctrl+D", "quit (empty input)"),
        ("Ctrl+T", "toggle chat/agent mode"),
        ("Ctrl+O", "model picker"),
        ("Ctrl+P", "session picker"),
        ("Ctrl+N", "new session"),
        ("Tab", "focus tool cards / expand"),
        ("PgUp/PgDn", "scroll transcript"),
        ("End", "follow live output"),
        ("y/a/n/N", "answer permission prompts"),
    ];
    assert(r.deep_view() =~= help_table());
    r
}

/// A key or a command, and what it does.
pub open spec fn help_line(key: Seq<char>, what: Seq<char>, theme: Theme) -> LineModel {
    line(
        seq![
            span(right_aligned(key, 12) + "  "@, theme.accent_role()),
            span(what, theme.body_role()),
        ],
    )
}

/// The help: the keys, then the commands.
pub open spec fn help_lines(theme: Theme) -> Seq<LineModel> {
    help_table().map_values(|e: (Seq<char>, Seq<char>)| help_line(e.0, e.1, theme)) + seq![
        line(Seq::empty()),
        line(seq![span("  commands (type / for completion)"@, theme.hint_role())]),
    ] + command_table().map_values(|c: CommandModel| help_line(offered_name(c), c.help, theme))
}

fn help_row(key: &str, what: &str, theme: &Theme) -> (l: Line)
    ensures
        l.deep_view() == help_line(key@, what@, *theme),
{
    let l = Line::new(
        vec![
            Span::new(text::cat2(pad_left(key, 12).as_str(), "  "), theme.accent_style()),
            Span::new(what.to_string(), theme.body()),
        ],
    );
    assert(l.deep_view().spans =~= help_line(key@, what@, *theme).spans);
    l
}

/// The help: the keys, then the commands.
pub fn help(theme: &Theme) -> (lines: Vec<Line>)
    ensures
        lines.deep_view() == help_lines(*theme),
{
    let mut lines: Vec<Line> = Vec::new();
    let keys = help_entries();
    let ghost f = |e: (Seq<char>, Seq<char>)| help_line(e.0, e.1, *theme);
    let mut i: usize = 0;
    while i < keys.len()
        invariant
            i <= keys.len(),
            keys.deep_view() == help_table(),
            f == (|e: (Seq<char>, Seq<char>)| help_line(e.0, e.1, *theme)),
            lines.deep_view() =~= help_table().map_values(f).take(i as int),
        decreases keys.len() - i,
    {
        proof {
            assert(help_table()[i as int] == keys[i as int].deep_view());
        }
        let l = help_row(keys[i].0, keys[i].1, theme);
        push_line(&mut lines, l);
        i += 1;
    }
    proof {
        assert(help_table().map_values(f).take(i as int) =~= help_table().map_values(f));
    }
    push_line(&mut lines, Line::new(Vec::new()));
    push_line(
        &mut lines,
        Line::single("  commands (type / for completion)".to_string(), theme.hint()),
    );
    let ghost head = lines.deep_view();
    proof {
        let blank: Seq<SpanModel> = Seq::empty();
        assert(head[help_table().len() as int].spans =~= blank);
        assert(head =~= help_table().map_values(f) + seq![
            line(Seq::empty()),
            line(seq![span("  commands (type / for completion)"@, theme.hint_role())]),
        ]);
    }
    let table = commands();
    let ghost g = |c: CommandModel| help_line(offered_name(c), c.help, *theme);
    let mut k: usize = 0;
    while k < table.len()
        invariant
            k <= table.len(),
            table.deep_view() == command_table(),
            g == (|c: CommandModel| help_line(offered_name(c), c.help, *theme)),
            lines.deep_view() =~= head + command_table().map_values(g).take(k as int),
        decreases table.len() - k,
    {
        proof {
            assert(command_table()[k as int] == table[k as int].deep_view());
        }
        let l = help_row(shown_name(&table[k]).as_str(), table[k].help, theme);
        push_line(&mut lines, l);
        k += 1;
    }
    proof {
        assert(command_table().map_values(g).take(k as int) =~= command_table().map_values(g));
        assert(lines.deep_view() =~= help_lines(*theme));
    }
    lines
}

/// The smaller.
pub open spec fn lesser(a: int, b: int) -> u16 {
    if a <= b {
        a as u16
    } else {
        b as u16
    }
}

/// The width and height that a box wants.
pub open spec fn modal_size(modal: ModalModel) -> (u16, u16) {
    match modal {
        ModalModel::Help => (62, 24),
        ModalModel::ModelPicker { items, .. } => (44, lesser(low(items.len()) + 2, 14)),
        ModalModel::SessionPicker { items, .. } => (64, lesser(low(items.len()) + 2, 16)),
        ModalModel::Permission { options, .. } => (64, lesser(low(options.len()) + 5, 14)),
    }
}

/// The rows for a list of `len` entries with `extra` rows around them, at most
/// `most`.
fn rows_for(len: usize, extra: u16, most: u16) -> (h: u16)
    requires
        extra <= 5,
    ensures
        h == lesser(low(len as nat) + extra, most as int),
{
    let n = low_bits(len);
    if n as u32 + extra as u32 <= most as u32 {
        n + extra
    } else {
        most
    }
}

/// The width and height that a box wants.
pub fn size(modal: &Modal) -> (r: (u16, u16))
    ensures
        r == modal_size(modal.deep_view()),
{
    match modal {
        Modal::Help => (62, 24),
        Modal::ModelPicker { items, .. } => (44, rows_for(items.len(), 2, 14)),
        Modal::SessionPicker { items, .. } => (64, rows_for(items.len(), 2, 16)),
        Modal::Permission { options, .. } => (64, rows_for(options.len(), 5, 14)),
    }
}

/// The title of a box.
pub open spec fn modal_title(modal: ModalModel) -> Seq<char> {
    match modal {
        ModalModel::Help => " help "@,
        ModalModel::ModelPicker { .. } => " model "@,
        ModalModel::SessionPicker { .. } => " sessions "@,
        ModalModel::Permission { .. } => " permission "@,
    }
}

/// The title of a box.
pub fn title(modal: &Modal) -> (r: String)
    ensures
        r@ == modal_title(modal.deep_view()),
{
    match modal {
        Modal::Help => " help ".to_string(),
        Modal::ModelPicker { .. } => " model ".to_string(),
        Modal::SessionPicker { .. } => " sessions ".to_string(),
        Modal::Permission { .. } => " permission ".to_string(),
    }
}

/// The key that takes this kind of option.
pub open spec fn option_key(kind: Seq<char>) -> Seq<char> {
    if kind == "allow_once"@ {
        "y"@
    } else if kind == "allow_always"@ {
        "a"@
    } else if kind == "reject_once"@ {
        "n"@
    } else if kind == "reject_always"@ {
        "N"@
    } else {
        " "@
    }
}

/// The rows of a box's list, and the one that is highlighted.
pub open spec fn modal_rows(modal: ModalModel) -> Seq<Seq<char>> {
    match modal {
        ModalModel::Help => Seq::empty(),
        ModalModel::ModelPicker { items, .. } => items,
        ModalModel::SessionPicker { items, .. } => items.map_values(
            |s: SessionMetaModel| s.title,
        ),
        ModalModel::Permission { options, .. } => options.map_values(
            |o: PermissionOptionModel| "["@ + option_key(o.kind) + "] "@ + o.name,
        ),
    }
}

/// The titles of the sessions.
fn session_rows(items: &Vec<SessionMeta>) -> (r: Vec<String>)
    ensures
        r.deep_view() == items.deep_view().map_values(|s: SessionMetaModel| s.title),
{
    let mut out: Vec<String> = Vec::new();
    let mut i: usize = 0;
    let ghost all = items.deep_view().map_values(|s: SessionMetaModel| s.title);
    while i < items.len()
        invariant
            i <= items.len(),
            all == items.deep_view().map_values(|s: SessionMetaModel| s.title),
            out.deep_view() =~= all.take(i as int),
        decreases items.len() - i,
    {
        let ghost before = out.deep_view();
        out.push(items[i].title.clone());
        proof {
            assert(all[i as int] == items[i as int].title@);
            assert(out.deep_view() =~= before.push(all[i as int]));
        }
        i += 1;
    }
    proof {
        assert(all.take(i as int) =~= all);
    }
    out
}

/// The options of a permission prompt, each with its key.
fn option_rows(options: &Vec<PermissionOptionView>) -> (r: Vec<String>)
    ensures
        r.deep_view() == options.deep_view().map_values(
            |o: PermissionOptionModel| "["@ + option_key(o.kind) + "] "@ + o.name,
        ),
{
    let mut out: Vec<String> = Vec::new();
    let mut i: usize = 0;
    let ghost f = |o: PermissionOptionModel| "["@ + option_key(o.kind) + "] "@ + o.name;
    let ghost all = options.deep_view().map_values(f);
    while i < options.len()
        invariant
            i <= options.len(),
            f == (|o: PermissionOptionModel| "["@ + option_key(o.kind) + "] "@ + o.name),
            all == options.deep_view().map_values(f),
            out.deep_view() =~= all.take(i as int),
        decreases options.len() - i,
    {
        let ghost before = out.deep_view();
        let kind = options[i].kind.as_str();
        let key = if text::same(kind, "allow_once") {
            "y"
        } else if text::same(kind, "allow_always") {
            "a"
        } else if text::same(kind, "reject_once") {
            "n"
        } else if text::same(kind, "reject_always") {
            "N"
        } else {
            " "
        };
        let head = text::cat3("[", key, "] ");
        out.push(text::cat2(head.as_str(), options[i].name.as_str()));
        proof {
            assert(all[i as int] == "["@ + option_key(kind@) + "] "@ + options[i as int].name@);
            assert(out.deep_view() =~= before.push(all[i as int]));
        }
        i += 1;
    }
    proof {
        assert(all.take(i as int) =~= all);
    }
    out
}

/// The rows of a box's list.
pub fn rows(modal: &Modal) -> (r: Vec<String>)
    ensures
        r.deep_view() == modal_rows(modal.deep_view()),
{
    match modal {
        Modal::Help => {
            let r: Vec<String> = Vec::new();
            assert(r.deep_view() =~= Seq::empty());
            r
        },
        Modal::ModelPicker { items, .. } => text::copy_all(items),
        Modal::SessionPicker { items, .. } => session_rows(items),
        Modal::Permission { options, .. } => option_rows(options),
    }
}

/// How a permission prompt shares its box between the question and the options.
pub open spec fn prompt_limits(options: Seq<PermissionOptionModel>) -> Seq<Limit> {
    seq![Limit::Min(2), Limit::Length(lesser(low(options.len()) + 1, u16::MAX as int))]
}

/// How a permission prompt shares its box.
pub fn limits(options: &Vec<PermissionOptionView>) -> (r: Vec<Limit>)
    ensures
        r@ == prompt_limits(options.deep_view()),
{
    let r = vec![Limit::Min(2), Limit::Length(rows_for(options.len(), 1, u16::MAX))];
    assert(r@ =~= prompt_limits(options.deep_view()));
    r
}

/// The box at this place; `parts` are the places of a permission prompt's
/// question and options.
pub open spec fn overlay_at(
    modal: ModalModel,
    theme: Theme,
    area: Rect,
    parts: Seq<Rect>,
) -> OverlayModel {
    let list = ListModel {
        area: if modal is Permission {
            parts[1]
        } else {
            framed(area)
        },
        rows: modal_rows(modal),
        selected: match modal {
            ModalModel::Help => 0,
            ModalModel::ModelPicker { selected, .. } => selected,
            ModalModel::SessionPicker { selected, .. } => selected,
            ModalModel::Permission { selected, .. } => selected,
        },
        highlight: theme.selected_role(),
        marker: "› "@,
    };
    OverlayModel {
        card: CardModel {
            area,
            title: span(modal_title(modal), theme.accent_role()),
            border: colored(theme.accent),
            style: theme.card_role(),
            lines: if modal is Help {
                help_lines(theme)
            } else {
                Seq::empty()
            },
        },
        question: match modal {
            ModalModel::Permission { title, .. } => Some(
                QuestionModel { area: parts[0], text: title, style: theme.body_role() },
            ),
            _ => None,
        },
        list: if modal is Help {
            None
        } else {
            Some(list)
        },
    }
}

/// The box at this place.
pub fn overlay(modal: &Modal, theme: &Theme, area: Rect, parts: &Vec<Rect>) -> (r: Overlay)
    requires
        area.sane(),
        modal is Permission ==> parts.len() == 2,
    ensures
        r.deep_view() == overlay_at(modal.deep_view(), *theme, area, parts@),
{
    let lines = match modal {
        Modal::Help => help(theme),
        _ => Vec::new(),
    };
    let list_area = match modal {
        Modal::Permission { .. } => parts[1],
        _ => inner(area),
    };
    let selected = match modal {
        Modal::Help => None,
        Modal::ModelPicker { selected, .. } => Some(*selected),
        Modal::SessionPicker { selected, .. } => Some(*selected),
        Modal::Permission { selected, .. } => Some(*selected),
    };
    let list = match selected {
        None => None,
        Some(selected) => Some(
            List {
                area: list_area,
                rows: rows(modal),
                selected,
                highlight: theme.selected(),
                marker: "› ".to_string(),
            },
        ),
    };
    let question = match modal {
        Modal::Permission { title, .. } => Some(
            Question { area: parts[0], text: title.clone(), style: theme.body() },
        ),
        _ => None,
    };
    let r = Overlay {
        card: Card {
            area,
            title: Span::new(title(modal), theme.accent_style()),
            border: theme.border_active(),
            style: theme.card_bg(),
            lines,
        },
        question,
        list,
    };
    proof {
        if modal !is Help {
            assert(lines.deep_view() =~= Seq::empty());
        }
    }
    r
}

/// Whether a rectangle has the same room on either side, give or take a cell, both
/// across and down.
pub open spec fn in_the_middle(r: Rect, area: Rect) -> bool {
    &&& -1 <= (r.x - area.x) - (area.x + area.width - r.x - r.width) <= 1
    &&& -1 <= (r.y - area.y) - (area.y + area.height - r.y - r.height) <= 1
}

/// The middle of an area: as wide and as high as asked for where there is room.
fn centered(area: Rect, width: u16, height: u16) -> (r: Rect)
    requires
        area.sane(),
    ensures
        inside(r, area),
        in_the_middle(r, area),
        r.width == lesser(width as int, area.width as int),
        r.height == lesser(height as int, area.height as int),
{
    let width = if width < area.width {
        width
    } else {
        area.width
    };
    let height = if height < area.height {
        height
    } else {
        area.height
    };
    proof {
        reveal_with_fuel(wanted, 2);
    }
    let wide = split(area, Flow::Across, Gather::Center, &vec![Limit::Length(width)]);
    let column = wide[0];
    assert(part_of(wide@[0], area, Flow::Across));
    let high = split(column, Flow::Down, Gather::Center, &vec![Limit::Length(height)]);
    assert(part_of(high@[0], column, Flow::Down));
    high[0]
}

/// Whether this is the box in the area: in its size, and in the middle.
pub open spec fn drawn_at(modal: ModalModel, theme: Theme, area: Rect, o: OverlayModel) -> bool {
    &&& inside(o.card.area, area)
    &&& in_the_middle(o.card.area, area)
    &&& o.card.area.width == lesser(modal_size(modal).0 as int, area.width as int)
    &&& o.card.area.height == lesser(modal_size(modal).1 as int, area.height as int)
    &&& exists|parts: Seq<Rect>|
        #![trigger overlay_at(modal, theme, o.card.area, parts)]
        {
            &&& o == overlay_at(modal, theme, o.card.area, parts)
            &&& modal matches ModalModel::Permission { options, .. } ==> shared_out(
                parts,
                prompt_limits(options),
                framed(o.card.area),
                Flow::Down,
                Gather::Start,
            )
        }
}

/// The open box, in the middle of the area.
pub fn draw(app: &App, area: Rect) -> (r: Option<Overlay>)
    requires
        area.sane(),
    ensures
        match app@.modal {
            None => r is None,
            Some(modal) => r is Some && drawn_at(modal, app.theme, area, r->0.deep_view()),
        },
{
    match &app.modal {
        None => None,
        Some(modal) => {
            let (width, height) = size(modal);
            let place = centered(area, width, height);
            let parts = match modal {
                Modal::Permission { options, .. } => split(
                    inner(place),
                    Flow::Down,
                    Gather::Start,
                    &limits(options),
                ),
                _ => Vec::new(),
            };
            let o = overlay(modal, &app.theme, place, &parts);
            proof {
                assert(o.deep_view() == overlay_at(
                    modal.deep_view(),
                    app.theme,
                    o.deep_view().card.area,
                    parts@,
                ));
            }
            Some(o)
        },
    }
}

} // verus!
