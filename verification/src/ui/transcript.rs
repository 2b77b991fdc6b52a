//! The transcript as styled lines.

use crate::app::model::{AppModel, ItemModel, ToolCardModel};
use crate::app::{App, Item, ToolCard};
use crate::text;
use crate::text::{at_most, lines_of};
use crate::theme::{colored, TextStyle, Theme};
use crate::ui::markdown::{cache_after, shown_markdown, CacheModel};
use crate::ui::style::{line, push_line, push_lines, span, Line, LineModel, Paint, Span, SpanModel};
use vstd::prelude::*;

verus! {

/// How much of a tool's raw input or output is shown.
pub const RAW_PREVIEW_LIMIT: usize = 1200;

/// The glyph of a kind of tool. All of them are found in ordinary monospace fonts.
pub open spec fn glyph_of(kind: Seq<char>) -> Seq<char> {
    if kind == "read"@ {
        "≡"@
    } else if kind == "edit"@ {
        "±"@
    } else if kind == "delete"@ {
        "×"@
    } else if kind == "move"@ {
        "→"@
    } else if kind == "search"@ {
        "»"@
    } else if kind == "execute"@ {
        "›"@
    } else if kind == "think"@ {
        "~"@
    } else if kind == "fetch"@ {
        "↓"@
    } else {
        "·"@
    }
}

/// How a tool call's status is shown.
pub open spec fn status_of(status: Seq<char>, theme: Theme) -> SpanModel {
    if status == "completed"@ {
        span("● completed"@, colored(theme.green))
    } else if status == "failed"@ {
        span("× failed"@, theme.error_role())
    } else if status == "in_progress"@ {
        span("… running"@, colored(theme.yellow))
    } else {
        span("· pending"@, theme.hint_role())
    }
}

/// The part of a tool's raw text that is shown.
pub open spec fn preview(raw: Seq<char>) -> Seq<char> {
    if raw.len() > RAW_PREVIEW_LIMIT {
        at_most(raw, RAW_PREVIEW_LIMIT as nat) + "…"@
    } else {
        raw
    }
}

/// A line of raw text on the card's background.
pub open spec fn raw_line(text: Seq<char>, theme: Theme) -> LineModel {
    LineModel {
        style: Paint::Role(theme.card_role()),
        ..line(seq![span("  "@ + text, theme.body_role())])
    }
}

/// A tool's raw text under its label, if there is any.
pub open spec fn raw_lines(label: Seq<char>, raw: Option<Seq<char>>, theme: Theme) -> Seq<
    LineModel,
> {
    match raw {
        None => Seq::empty(),
        Some(raw) => seq![line(seq![span("  "@ + label + ":"@, theme.hint_role())])] + lines_of(
            preview(raw),
        ).map_values(|l: Seq<char>| raw_line(l, theme)),
    }
}

/// The first line of a tool card.
pub open spec fn card_header(card: ToolCardModel, focused: bool, theme: Theme) -> LineModel {
    let view = card.view;
    let spans = seq![
        span(
            if focused {
                "▌"@
            } else {
                " "@
            },
            theme.accent_role(),
        ),
        span(glyph_of(view.kind) + " "@ + view.kind + " · "@, theme.accent_role()),
        span(view.title, theme.body_role()),
        span(" · "@, TextStyle::plain_style()),
        status_of(view.status, theme),
    ];
    if !card.expanded && (view.raw_input is Some || view.raw_output is Some) {
        line(spans.push(span(" [Tab: details]"@, theme.hint_role())))
    } else {
        line(spans)
    }
}

/// A tool card.
pub open spec fn card_lines(card: ToolCardModel, focused: bool, theme: Theme) -> Seq<LineModel> {
    let header = seq![card_header(card, focused, theme)];
    if card.expanded {
        header + raw_lines("input"@, card.view.raw_input, theme) + raw_lines(
            "output"@,
            card.view.raw_output,
            theme,
        )
    } else {
        header
    }
}

/// A line of the user's message.
pub open spec fn user_line(i: int, text: Seq<char>, theme: Theme) -> LineModel {
    let prefix = if i == 0 {
        "you › "@
    } else {
        "      "@
    };
    line(seq![span(prefix, theme.accent_role()), span(text, theme.user_role())])
}

/// A line of an error message.
pub open spec fn error_line(i: int, text: Seq<char>, theme: Theme) -> LineModel {
    let prefix = if i == 0 {
        "! "@
    } else {
        "  "@
    };
    line(seq![span(prefix + text, theme.error_role())])
}

/// A line of the agent's thinking.
pub open spec fn thought_line(text: Seq<char>, theme: Theme) -> LineModel {
    line(seq![span("~ "@ + text, theme.thought_role())])
}

/// The lines of one item.
pub open spec fn item_lines(
    item: ItemModel,
    focused: bool,
    theme: Theme,
    cache: CacheModel,
) -> Seq<LineModel> {
    match item {
        ItemModel::User { text } => lines_of(text).map(
            |i: int, l: Seq<char>| user_line(i, l, theme),
        ),
        ItemModel::Assistant { id, md, revision, .. } => shown_markdown(cache, id, revision, md),
        ItemModel::Thought { text, collapsed } => if collapsed {
            seq![line(seq![span("~ thought…"@, theme.thought_role())])]
        } else {
            lines_of(text).map_values(|l: Seq<char>| thought_line(l, theme))
        },
        ItemModel::Tool(card) => card_lines(card, focused, theme),
        ItemModel::Info(text) => seq![line(seq![span("· "@ + text, theme.hint_role())])],
        ItemModel::Error(text) => lines_of(text).map(
            |i: int, l: Seq<char>| error_line(i, l, theme),
        ),
    }
}

/// The rendered replies that are kept once the item was shown.
pub open spec fn item_cache(item: ItemModel, cache: CacheModel) -> CacheModel {
    match item {
        ItemModel::Assistant { id, md, revision, .. } => cache_after(cache, id, revision, md),
        _ => cache,
    }
}

/// The rendered replies that are kept once the items were shown.
pub open spec fn kept_renders(items: Seq<ItemModel>, cache: CacheModel) -> CacheModel
    decreases items.len(),
{
    if items.len() == 0 {
        cache
    } else {
        item_cache(items.last(), kept_renders(items.drop_last(), cache))
    }
}

/// The whole transcript: the items in order, with a blank line between them.
pub open spec fn transcript_lines(
    items: Seq<ItemModel>,
    focus: Option<int>,
    theme: Theme,
    cache: CacheModel,
) -> Seq<LineModel>
    decreases items.len(),
{
    if items.len() == 0 {
        Seq::empty()
    } else {
        let earlier = transcript_lines(items.drop_last(), focus, theme, cache);
        let above = if earlier.len() == 0 {
            earlier
        } else {
            earlier.push(line(Seq::empty()))
        };
        above + item_lines(
            items.last(),
            focus == Some(items.len() - 1),
            theme,
            kept_renders(items.drop_last(), cache),
        )
    }
}

/// The glyph of a kind of tool.
pub fn kind_glyph(kind: &str) -> (r: &'static str)
    ensures
        r@ == glyph_of(kind@),
{
    if text::same(kind, "read") {
        "≡"
    } else if text::same(kind, "edit") {
        "±"
    } else if text::same(kind, "delete") {
        "×"
    } else if text::same(kind, "move") {
        "→"
    } else if text::same(kind, "search") {
        "»"
    } else if text::same(kind, "execute") {
        "›"
    } else if text::same(kind, "think") {
        "~"
    } else if text::same(kind, "fetch") {
        "↓"
    } else {
        "·"
    }
}

/// How a tool call's status is shown.
pub fn status_span(status: &str, theme: &Theme) -> (r: Span)
    ensures
        r.deep_view() == status_of(status@, *theme),
{
    let mut style = TextStyle::plain();
    if text::same(status, "completed") {
        style.fg = Some(theme.green);
        Span::new("● completed".to_string(), style)
    } else if text::same(status, "failed") {
        Span::new("× failed".to_string(), theme.error())
    } else if text::same(status, "in_progress") {
        style.fg = Some(theme.yellow);
        Span::new("… running".to_string(), style)
    } else {
        Span::new("· pending".to_string(), theme.hint())
    }
}

/// A tool's raw text under its label, if there is any.
fn raw_part(label: &str, raw: &Option<String>, theme: &Theme) -> (lines: Vec<Line>)
    ensures
        lines.deep_view() == raw_lines(label@, raw.deep_view(), *theme),
{
    let mut out: Vec<Line> = Vec::new();
    let raw = match raw {
        Some(raw) => raw,
        None => {
            assert(out.deep_view() =~= Seq::empty());
            return out;
        },
    };
    out.push(Line::single(text::cat3("  ", label, ":"), theme.hint()));
    let ghost head = out.deep_view();
    let mut shown = text::take_chars(raw.as_str(), RAW_PREVIEW_LIMIT);
    if text::chars_of(raw.as_str()).len() > RAW_PREVIEW_LIMIT {
        shown.append("…");
    }
    let parts = text::lines(shown.as_str());
    let ghost all = parts.deep_view();
    let ghost f = |l: Seq<char>| raw_line(l, *theme);
    let mut i: usize = 0;
    while i < parts.len()
        invariant
            i <= parts.len(),
            all == parts.deep_view(),
            f == (|l: Seq<char>| raw_line(l, *theme)),
            out.deep_view() =~= head + all.take(i as int).map_values(f),
        decreases parts.len() - i,
    {
        let mut l = Line::single(text::cat2("  ", parts[i].as_str()), theme.body());
        l.style = Paint::Role(theme.card_bg());
        proof {
            assert(all[i as int] == parts[i as int]@);
            assert(l.deep_view() == raw_line(all[i as int], *theme));
            assert(all.take(i + 1) =~= all.take(i as int).push(all[i as int]));
        }
        push_line(&mut out, l);
        i += 1;
    }
    proof {
        assert(all.take(i as int) =~= all);
        assert(head =~= seq![line(seq![span("  "@ + label@ + ":"@, theme.hint_role())])]);
    }
    out
}

/// The first line of a tool card.
fn header(card: &ToolCard, focused: bool, theme: &Theme) -> (l: Line)
    ensures
        l.deep_view() == card_header(card.deep_view(), focused, *theme),
{
    let marker = if focused {
        "▌"
    } else {
        " "
    };
    let glyph = text::cat3(kind_glyph(card.view.kind.as_str()), " ", card.view.kind.as_str());
    let mut spans = vec![
        Span::new(marker.to_string(), theme.accent_style()),
        Span::new(text::cat2(glyph.as_str(), " · "), theme.accent_style()),
        Span::new(card.view.title.clone(), theme.body()),
        Span::new(" · ".to_string(), TextStyle::plain()),
        status_span(card.view.status.as_str(), theme),
    ];
    let ghost first = spans.deep_view();
    if !card.expanded && (card.view.raw_input.is_some() || card.view.raw_output.is_some()) {
        spans.push(Span::new(" [Tab: details]".to_string(), theme.hint()));
        assert(spans.deep_view() =~= first.push(span(" [Tab: details]"@, theme.hint_role())));
    }
    let l = Line::new(spans);
    proof {
        let view = card.deep_view().view;
        assert(first =~= seq![
            span(marker@, theme.accent_role()),
            span(glyph_of(view.kind) + " "@ + view.kind + " · "@, theme.accent_role()),
            span(view.title, theme.body_role()),
            span(" · "@, TextStyle::plain_style()),
            status_of(view.status, *theme),
        ]);
    }
    l
}

/// A tool card.
pub fn tool_lines(card: &ToolCard, focused: bool, theme: &Theme) -> (lines: Vec<Line>)
    ensures
        lines.deep_view() == card_lines(card.deep_view(), focused, *theme),
{
    let mut lines = vec![header(card, focused, theme)];
    assert(lines.deep_view() =~= seq![card_header(card.deep_view(), focused, *theme)]);
    if card.expanded {
        push_lines(&mut lines, raw_part("input", &card.view.raw_input, theme));
        push_lines(&mut lines, raw_part("output", &card.view.raw_output, theme));
    }
    lines
}

/// The lines of the user's message.
fn user_part(message: &str, theme: &Theme) -> (lines: Vec<Line>)
    ensures
        lines.deep_view() == lines_of(message@).map(
            |i: int, l: Seq<char>| user_line(i, l, *theme),
        ),
{
    let parts = text::lines(message);
    let ghost all = parts.deep_view();
    let ghost f = |i: int, l: Seq<char>| user_line(i, l, *theme);
    let mut out: Vec<Line> = Vec::new();
    let mut i: usize = 0;
    while i < parts.len()
        invariant
            i <= parts.len(),
            all == parts.deep_view(),
            f == (|i: int, l: Seq<char>| user_line(i, l, *theme)),
            out.deep_view() =~= all.map(f).take(i as int),
        decreases parts.len() - i,
    {
        let prefix = if i == 0 {
            "you › "
        } else {
            "      "
        };
        let l = Line::new(
            vec![
                Span::new(prefix.to_string(), theme.accent_style()),
                Span::new(parts[i].clone(), theme.user()),
            ],
        );
        proof {
            assert(all[i as int] == parts[i as int]@);
            assert(l.deep_view().spans =~= user_line(i as int, all[i as int], *theme).spans);
        }
        push_line(&mut out, l);
        i += 1;
    }
    proof {
        assert(all.map(f).take(i as int) =~= all.map(f));
    }
    out
}

/// The lines of an error message.
fn error_part(message: &str, theme: &Theme) -> (lines: Vec<Line>)
    ensures
        lines.deep_view() == lines_of(message@).map(
            |i: int, l: Seq<char>| error_line(i, l, *theme),
        ),
{
    let parts = text::lines(message);
    let ghost all = parts.deep_view();
    let ghost f = |i: int, l: Seq<char>| error_line(i, l, *theme);
    let mut out: Vec<Line> = Vec::new();
    let mut i: usize = 0;
    while i < parts.len()
        invariant
            i <= parts.len(),
            all == parts.deep_view(),
            f == (|i: int, l: Seq<char>| error_line(i, l, *theme)),
            out.deep_view() =~= all.map(f).take(i as int),
        decreases parts.len() - i,
    {
        let prefix = if i == 0 {
            "! "
        } else {
            "  "
        };
        let l = Line::single(text::cat2(prefix, parts[i].as_str()), theme.error());
        proof {
            assert(all[i as int] == parts[i as int]@);
        }
        push_line(&mut out, l);
        i += 1;
    }
    proof {
        assert(all.map(f).take(i as int) =~= all.map(f));
    }
    out
}

/// The lines of the agent's thinking.
fn thought_part(thought: &str, theme: &Theme) -> (lines: Vec<Line>)
    ensures
        lines.deep_view() == lines_of(thought@).map_values(
            |l: Seq<char>| thought_line(l, *theme),
        ),
{
    let parts = text::lines(thought);
    let ghost all = parts.deep_view();
    let ghost f = |l: Seq<char>| thought_line(l, *theme);
    let mut out: Vec<Line> = Vec::new();
    let mut i: usize = 0;
    while i < parts.len()
        invariant
            i <= parts.len(),
            all == parts.deep_view(),
            f == (|l: Seq<char>| thought_line(l, *theme)),
            out.deep_view() =~= all.map_values(f).take(i as int),
        decreases parts.len() - i,
    {
        let l = Line::single(text::cat2("~ ", parts[i].as_str()), theme.thought());
        proof {
            assert(all[i as int] == parts[i as int]@);
        }
        push_line(&mut out, l);
        i += 1;
    }
    proof {
        assert(all.map_values(f).take(i as int) =~= all.map_values(f));
    }
    out
}

/// Build the whole transcript. Item ids key the rendered replies, so only the
/// reply that is coming in is rendered again for a frame.
pub fn build(app: &mut App) -> (lines: Vec<Line>)
    ensures
        lines.deep_view() == transcript_lines(
            old(app)@.items,
            old(app)@.focused_tool,
            old(app).theme,
            old(app)@.markdown,
        ),
        final(app)@ == (AppModel {
            markdown: kept_renders(old(app)@.items, old(app)@.markdown),
            ..old(app)@
        }),
        final(app).input == old(app).input,
{
    let mut lines: Vec<Line> = Vec::new();
    let mut i: usize = 0;
    let ghost items = app@.items;
    let ghost focus = app@.focused_tool;
    let ghost cache = app@.markdown;
    proof {
        assert(items.take(0) =~= Seq::empty());
        assert(lines.deep_view() =~= Seq::empty());
    }
    while i < app.items.len()
        invariant
            i <= app.items.len(),
            items == old(app)@.items,
            focus == old(app)@.focused_tool,
            cache == old(app)@.markdown,
            app@ == (AppModel { markdown: kept_renders(items.take(i as int), cache), ..old(app)@ }),
            app.input == old(app).input,
            lines.deep_view() == transcript_lines(
                items.take(i as int),
                focus,
                old(app).theme,
                cache,
            ),
        decreases app.items.len() - i,
    {
        let ghost before = app@.markdown;
        let ghost item = items[i as int];
        proof {
            assert(items.take(i + 1).drop_last() =~= items.take(i as int));
            assert(items.take(i + 1).last() == item);
            assert(item == app.items[i as int].deep_view());
            assert(app.theme == old(app).theme);
        }
        if lines.len() > 0 {
            push_line(&mut lines, Line::new(Vec::new()));
            proof {
                let blank: Seq<SpanModel> = Seq::empty();
                assert(lines.deep_view().last().spans =~= blank);
            }
        }
        let ghost above = lines.deep_view();
        let focused = match app.focused_tool {
            Some(at) => at == i,
            None => false,
        };
        match &app.items[i] {
            Item::User { text } => {
                push_lines(&mut lines, user_part(text.as_str(), &app.theme));
            },
            Item::Assistant { id, md, revision, .. } => {
                let rendered = app.markdown.render(*id, *revision, md.as_str());
                push_lines(&mut lines, rendered);
            },
            Item::Thought { text, collapsed } => {
                if *collapsed {
                    push_line(
                        &mut lines,
                        Line::single("~ thought…".to_string(), app.theme.thought()),
                    );
                } else {
                    push_lines(&mut lines, thought_part(text.as_str(), &app.theme));
                }
            },
            Item::Tool(card) => {
                push_lines(&mut lines, tool_lines(card, focused, &app.theme));
            },
            Item::Info(text) => {
                push_line(
                    &mut lines,
                    Line::single(text::cat2("· ", text.as_str()), app.theme.hint()),
                );
            },
            Item::Error(text) => {
                push_lines(&mut lines, error_part(text.as_str(), &app.theme));
            },
        }
        proof {
            assert(lines.deep_view() =~= above + item_lines(
                item,
                focus == Some(i as int),
                old(app).theme,
                before,
            ));
        }
        i += 1;
    }
    proof {
        assert(items.take(i as int) =~= items);
    }
    lines
}

} // verus!
