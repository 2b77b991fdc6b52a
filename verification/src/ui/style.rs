//! Styled text, and the areas it is drawn in.

use crate::theme::TextStyle;
use vstd::prelude::*;

verus! {

/// `ratatui::style::Style`, carried along with text that was styled while it
/// was rendered from markdown.
#[verifier::external_type_specification]
#[verifier::external_body]
pub struct ExRenderedStyle(ratatui::style::Style);

/// How text is painted: by a role of the theme, or as the markdown renderer
/// asked for.
#[derive(Debug, Clone, Copy)]
pub enum Paint {
    Role(TextStyle),
    Rendered(ratatui::style::Style),
}

/// Where a line stands in its area.
#[derive(Debug, Clone, Copy, PartialEq, Eq, Structural)]
pub enum Align {
    Left,
    Center,
    Right,
}

/// A run of text in one style.
#[derive(Debug, Clone)]
pub struct Span {
    pub content: String,
    pub style: Paint,
}

/// A line of styled runs, over a style of its own.
#[derive(Debug, Clone)]
pub struct Line {
    pub spans: Vec<Span>,
    pub style: Paint,
    pub align: Option<Align>,
}

pub struct SpanModel {
    pub content: Seq<char>,
    pub style: Paint,
}

pub struct LineModel {
    pub spans: Seq<SpanModel>,
    pub style: Paint,
    pub align: Option<Align>,
}

impl DeepView for Span {
    type V = SpanModel;

    open spec fn deep_view(&self) -> SpanModel {
        SpanModel { content: self.content@, style: self.style }
    }
}

impl DeepView for Line {
    type V = LineModel;

    open spec fn deep_view(&self) -> LineModel {
        LineModel { spans: self.spans.deep_view(), style: self.style, align: self.align }
    }
}

/// Text painted by a role of the theme.
pub open spec fn span(content: Seq<char>, style: TextStyle) -> SpanModel {
    SpanModel { content, style: Paint::Role(style) }
}

/// A line without a style of its own.
pub open spec fn line(spans: Seq<SpanModel>) -> LineModel {
    LineModel { spans, style: Paint::Role(TextStyle::plain_style()), align: None }
}

impl Span {
    /// Text painted by a role of the theme.
    pub fn new(content: String, style: TextStyle) -> (s: Span)
        ensures
            s.deep_view() == span(content@, style),
    {
        Span { content, style: Paint::Role(style) }
    }
}

impl Line {
    /// A line without a style of its own.
    pub fn new(spans: Vec<Span>) -> (l: Line)
        ensures
            l.deep_view() == line(spans.deep_view()),
    {
        Line { spans, style: Paint::Role(TextStyle::plain()), align: None }
    }

    /// A line of one run.
    pub fn single(content: String, style: TextStyle) -> (l: Line)
        ensures
            l.deep_view() == line(seq![span(content@, style)]),
    {
        let l = Line::new(vec![Span::new(content, style)]);
        assert(l.deep_view().spans =~= seq![span(content@, style)]);
        l
    }
}

/// A copy of the runs.
pub fn copy_spans(v: &Vec<Span>) -> (r: Vec<Span>)
    ensures
        r.deep_view() == v.deep_view(),
{
    let mut out: Vec<Span> = Vec::new();
    let mut i: usize = 0;
    while i < v.len()
        invariant
            i <= v.len(),
            out.deep_view() =~= v.deep_view().take(i as int),
        decreases v.len() - i,
    {
        let ghost before = out.deep_view();
        out.push(Span { content: v[i].content.clone(), style: v[i].style });
        i += 1;
        proof {
            assert(out.deep_view() =~= before.push(v[i - 1].deep_view()));
        }
    }
    proof {
        assert(v.deep_view().take(i as int) =~= v.deep_view());
    }
    out
}

/// A copy of the lines.
pub fn copy_lines(v: &Vec<Line>) -> (r: Vec<Line>)
    ensures
        r.deep_view() == v.deep_view(),
{
    let mut out: Vec<Line> = Vec::new();
    let mut i: usize = 0;
    while i < v.len()
        invariant
            i <= v.len(),
            out.deep_view() =~= v.deep_view().take(i as int),
        decreases v.len() - i,
    {
        let ghost before = out.deep_view();
        out.push(Line { spans: copy_spans(&v[i].spans), style: v[i].style, align: v[i].align });
        i += 1;
        proof {
            assert(out.deep_view() =~= before.push(v[i - 1].deep_view()));
        }
    }
    proof {
        assert(v.deep_view().take(i as int) =~= v.deep_view());
    }
    out
}

/// One more line.
pub fn push_line(lines: &mut Vec<Line>, l: Line)
    ensures
        final(lines).deep_view() == old(lines).deep_view().push(l.deep_view()),
{
    lines.push(l);
    assert(lines.deep_view() =~= old(lines).deep_view().push(l.deep_view()));
}

/// More lines.
pub fn push_lines(lines: &mut Vec<Line>, more: Vec<Line>)
    ensures
        final(lines).deep_view() == old(lines).deep_view() + more.deep_view(),
{
    let mut rest = more;
    lines.append(&mut rest);
    assert(lines.deep_view() =~= old(lines).deep_view() + more.deep_view());
}

} // verus!
