//! Rendered markdown, kept until its source changes.

use crate::text::{self, chars_of, lines_of};
use crate::theme::TextStyle;
use crate::ui::style::{
    copy_lines, line, push_line, span, Align, Line, LineModel, Paint, Span,
};
use std::collections::HashMap;
use vstd::prelude::*;

verus! {

/// The lines that `tui_markdown::from_str` makes of a source.
pub uninterp spec fn markdown_lines(source: Seq<char>) -> Seq<LineModel>;

/// Whether the character can mark an item of a list.
pub open spec fn marks_item(c: char) -> bool {
    c == '-' || c == '+' || c == '*' || c == '.' || c == ')'
}

/// How many characters of the text can mark an item of a list. Lists are nested no
/// deeper.
pub open spec fn item_marks(source: Seq<char>) -> nat
    decreases source.len(),
{
    if source.len() == 0 {
        0
    } else {
        item_marks(source.drop_last()) + if marks_item(source.last()) {
            1nat
        } else {
            0
        }
    }
}

/// The deepest nesting of lists that is rendered: each level indents its markers by
/// four columns, which are counted in sixteen bits.
pub const MAX_ITEM_MARKS: usize = 16384;

/// `tui_markdown::from_str`: the lines of the rendered text, each run owned.
/// They are named by [`markdown_lines`]; the style of the text as a whole is
/// dropped.
#[verifier::external_body]
fn render_markdown(source: &str) -> (lines: Vec<Line>)
    requires
        item_marks(source@) <= MAX_ITEM_MARKS,
    ensures
        lines.deep_view() == markdown_lines(source@),
{
    let span = |s: ratatui::text::Span| Span {
        content: s.content.into_owned(),
        style: Paint::Rendered(s.style),
    };
    let align = |a: ratatui::layout::Alignment| match a {
        ratatui::layout::Alignment::Left => Align::Left,
        ratatui::layout::Alignment::Center => Align::Center,
        ratatui::layout::Alignment::Right => Align::Right,
    };
    tui_markdown::from_str(source).lines.into_iter().map(|l| Line {
        spans: l.spans.into_iter().map(span).collect(),
        style: Paint::Rendered(l.style), align: l.alignment.map(align),
    }).collect()
}

/// A line of the source as it was written.
pub open spec fn source_line(l: Seq<char>) -> LineModel {
    line(seq![span(l, TextStyle::plain_style())])
}

/// What the source renders to. Where its lists could be nested too deep, it is shown
/// as it was written, line by line.
pub open spec fn rendered(source: Seq<char>) -> Seq<LineModel> {
    if item_marks(source) <= MAX_ITEM_MARKS {
        markdown_lines(source)
    } else {
        lines_of(source).map_values(|l: Seq<char>| source_line(l))
    }
}

/// Whether lists cannot be nested too deep in the source.
fn is_renderable(source: &str) -> (r: bool)
    ensures
        r == (item_marks(source@) <= MAX_ITEM_MARKS),
{
    let all = chars_of(source);
    let mut marks: usize = 0;
    let mut i: usize = 0;
    proof {
        assert(source@.take(0) =~= Seq::empty());
    }
    while i < all.len()
        invariant
            all@ == source@,
            i <= all.len(),
            marks == item_marks(source@.take(i as int)),
            marks <= i,
        decreases all.len() - i,
    {
        let c = all[i];
        proof {
            assert(source@.take(i + 1).drop_last() =~= source@.take(i as int));
        }
        if c == '-' || c == '+' || c == '*' || c == '.' || c == ')' {
            marks += 1;
        }
        i += 1;
    }
    proof {
        assert(source@.take(i as int) =~= source@);
    }
    marks <= MAX_ITEM_MARKS
}

/// The source as it was written.
fn source_lines(source: &str) -> (r: Vec<Line>)
    ensures
        r.deep_view() == lines_of(source@).map_values(|l: Seq<char>| source_line(l)),
{
    let texts = text::lines(source);
    let ghost all = lines_of(source@);
    let mut r: Vec<Line> = Vec::new();
    let mut i: usize = 0;
    while i < texts.len()
        invariant
            texts.deep_view() == all,
            i <= texts.len(),
            r.deep_view() =~= all.take(i as int).map_values(|l: Seq<char>| source_line(l)),
        decreases texts.len() - i,
    {
        let l = Line::single(texts[i].clone(), TextStyle::plain());
        proof {
            assert(all[i as int] == texts[i as int]@);
            assert(all.take(i + 1) =~= all.take(i as int).push(all[i as int]));
        }
        push_line(&mut r, l);
        i += 1;
    }
    proof {
        assert(all.take(i as int) =~= all);
    }
    r
}

/// Renders are cached per item and revision.
pub struct MarkdownCache {
    entries: HashMap<u64, (u64, Vec<Line>)>,
}

/// For each item the revision that was rendered, and the lines.
pub type CacheModel = Map<u64, (u64, Seq<LineModel>)>;

impl View for MarkdownCache {
    type V = CacheModel;

    closed spec fn view(&self) -> CacheModel {
        self.entries@.map_values(|e: (u64, Vec<Line>)| (e.0, e.1.deep_view()))
    }
}

/// Whether this revision of the item is in the cache.
pub open spec fn is_cached(cache: CacheModel, item_id: u64, revision: u64) -> bool {
    cache.contains_key(item_id) && cache[item_id].0 == revision
}

/// What is shown for the item.
pub open spec fn shown_markdown(
    cache: CacheModel,
    item_id: u64,
    revision: u64,
    source: Seq<char>,
) -> Seq<LineModel> {
    if is_cached(cache, item_id, revision) {
        cache[item_id].1
    } else {
        rendered(source)
    }
}

/// The cache after the item was shown.
pub open spec fn cache_after(
    cache: CacheModel,
    item_id: u64,
    revision: u64,
    source: Seq<char>,
) -> CacheModel {
    if is_cached(cache, item_id, revision) {
        cache
    } else {
        cache.insert(item_id, (revision, rendered(source)))
    }
}

impl MarkdownCache {
    /// An empty cache.
    pub fn new() -> (c: Self)
        ensures
            c@ == CacheModel::empty(),
    {
        let c = MarkdownCache { entries: HashMap::new() };
        assert(c@ =~= CacheModel::empty());
        c
    }

    /// The lines for this revision of the item.
    pub fn render(&mut self, item_id: u64, revision: u64, source: &str) -> (lines: Vec<Line>)
        ensures
            lines.deep_view() == shown_markdown(old(self)@, item_id, revision, source@),
            final(self)@ == cache_after(old(self)@, item_id, revision, source@),
    {
        broadcast use vstd::std_specs::hash::group_hash_axioms;

        if let Some(e) = self.entries.get(&item_id) {
            if e.0 == revision {
                return copy_lines(&e.1);
            }
        }
        let lines = if is_renderable(source) {
            render_markdown(source)
        } else {
            source_lines(source)
        };
        let copy = copy_lines(&lines);
        self.entries.insert(item_id, (revision, copy));
        proof {
            assert(self@ =~= old(self)@.insert(item_id, (revision, rendered(source@))));
        }
        lines
    }

    /// Forgets everything.
    pub fn clear(&mut self)
        ensures
            final(self)@ == CacheModel::empty(),
    {
        self.entries.clear();
        assert(self@ =~= CacheModel::empty());
    }
}

} // verus!
