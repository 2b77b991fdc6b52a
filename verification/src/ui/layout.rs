//! Areas of the screen and how they are shared out.

use crate::ui::style::{Line, LineModel};
use ratatui::layout::{Constraint, Flex, Layout};
use vstd::prelude::*;

verus! {

/// A rectangle of cells.
#[derive(Debug, Clone, Copy, PartialEq, Eq, Structural)]
pub struct Rect {
    pub x: u16,
    pub y: u16,
    pub width: u16,
    pub height: u16,
}

/// How much of an area a part of it wants.
#[derive(Debug, Clone, Copy, PartialEq, Eq, Structural)]
pub enum Limit {
    Min(u16),
    Length(u16),
}

/// Whether the parts stand below or beside each other.
#[derive(Debug, Clone, Copy, PartialEq, Eq, Structural)]
pub enum Flow {
    Down,
    Across,
}

/// Where the parts go when there is more room than they want.
#[derive(Debug, Clone, Copy, PartialEq, Eq, Structural)]
pub enum Gather {
    Start,
    Center,
}

impl Rect {
    /// Whether the far edges can be reckoned in sixteen bits.
    pub open spec fn sane(self) -> bool {
        self.x + self.width <= u16::MAX && self.y + self.height <= u16::MAX
    }
}

/// Whether a rectangle lies inside an area.
pub open spec fn inside(r: Rect, area: Rect) -> bool {
    &&& area.x <= r.x && r.x + r.width <= area.x + area.width
    &&& area.y <= r.y && r.y + r.height <= area.y + area.height
}

/// Whether a rectangle is a part of an area that is shared out along this flow.
pub open spec fn part_of(r: Rect, area: Rect, flow: Flow) -> bool {
    &&& inside(r, area)
    &&& match flow {
        Flow::Down => r.x == area.x && r.width == area.width,
        Flow::Across => r.y == area.y && r.height == area.height,
    }
}

/// Whether each rectangle is a part of the area.
pub open spec fn parts_of(rects: Seq<Rect>, area: Rect, flow: Flow) -> bool {
    forall|i: int| 0 <= i < rects.len() ==> part_of(#[trigger] rects[i], area, flow)
}

/// What a limit asks for.
pub open spec fn asked(limit: Limit) -> nat {
    match limit {
        Limit::Min(n) => n as nat,
        Limit::Length(n) => n as nat,
    }
}

/// What the limits ask for together.
pub open spec fn wanted(limits: Seq<Limit>) -> nat
    decreases limits.len(),
{
    if limits.len() == 0 {
        0
    } else {
        wanted(limits.drop_last()) + asked(limits.last())
    }
}

/// The extent that is shared out.
pub open spec fn extent(r: Rect, flow: Flow) -> u16 {
    match flow {
        Flow::Down => r.height,
        Flow::Across => r.width,
    }
}

/// Whether a part has the size that was asked for. Minimums beyond fifteen bits
/// are not kept to.
pub open spec fn honoured(limit: Limit, size: u16) -> bool {
    match limit {
        Limit::Min(n) => n <= i16::MAX ==> size >= n,
        Limit::Length(n) => size == n,
    }
}

/// Where a rectangle begins along this flow.
pub open spec fn near(r: Rect, flow: Flow) -> int {
    match flow {
        Flow::Down => r.y as int,
        Flow::Across => r.x as int,
    }
}

/// Where a rectangle ends along this flow.
pub open spec fn far(r: Rect, flow: Flow) -> int {
    near(r, flow) + extent(r, flow)
}

/// Whether each part begins where the one before it ends.
pub open spec fn adjacent(rects: Seq<Rect>, flow: Flow) -> bool {
    forall|i: int, j: int|
        0 <= i && j == i + 1 && j < rects.len() ==> far(#[trigger] rects[i], flow) == near(
            #[trigger] rects[j],
            flow,
        )
}

/// Whether one of the parts can grow.
pub open spec fn can_grow(limits: Seq<Limit>) -> bool {
    exists|i: int| 0 <= i < limits.len() && #[trigger] limits[i] is Min
}

/// Whether at most one of the parts can grow.
pub open spec fn one_grows(limits: Seq<Limit>) -> bool {
    forall|i: int, j: int|
        0 <= i < limits.len() && 0 <= j < limits.len() && #[trigger] limits[i] is Min
            && #[trigger] limits[j] is Min ==> i == j
}

/// Whether the parts stand where they are gathered: from the start of the area, or
/// with the same room on either side, give or take a cell. They take the whole
/// area if one of them can grow, or if they want as much.
pub open spec fn gathered(
    rects: Seq<Rect>,
    limits: Seq<Limit>,
    area: Rect,
    flow: Flow,
    gather: Gather,
) -> bool {
    let before = near(rects[0], flow) - near(area, flow);
    let behind = far(area, flow) - far(rects.last(), flow);
    match gather {
        Gather::Start => before == 0 && (can_grow(limits) || wanted(limits) >= extent(area, flow)
            ==> behind == 0),
        Gather::Center => -1 <= before - behind <= 1 && (can_grow(limits) || wanted(limits)
            >= extent(area, flow) ==> before == 0 && behind == 0),
    }
}

/// Whether a part keeps to its limit in an area of this extent, whatever the other
/// parts want: a length is never exceeded, and a minimum is kept before any length,
/// as far as the area reaches. Minimums beyond fifteen bits are not kept to.
pub open spec fn kept(limit: Limit, size: u16, extent: u16) -> bool {
    match limit {
        Limit::Min(n) => n <= i16::MAX ==> size >= n || size == extent,
        Limit::Length(n) => size <= n,
    }
}

/// Whether the area is shared out: every part is inside it and keeps to its limit,
/// the parts follow each other without gaps and stand in their place. Where they all
/// fit, each has the size that was asked for, and where there is no room to spare,
/// none has more.
pub open spec fn shared_out(
    rects: Seq<Rect>,
    limits: Seq<Limit>,
    area: Rect,
    flow: Flow,
    gather: Gather,
) -> bool {
    &&& rects.len() == limits.len()
    &&& parts_of(rects, area, flow)
    &&& adjacent(rects, flow)
    &&& rects.len() > 0 ==> gathered(rects, limits, area, flow, gather)
    &&& forall|i: int|
        0 <= i < limits.len() ==> kept(
            limits[i],
            extent(#[trigger] rects[i], flow),
            extent(area, flow),
        )
    &&& wanted(limits) <= extent(area, flow) ==> forall|i: int|
        0 <= i < limits.len() ==> honoured(limits[i], extent(#[trigger] rects[i], flow))
    &&& wanted(limits) >= extent(area, flow) ==> forall|i: int|
        0 <= i < limits.len() ==> extent(#[trigger] rects[i], flow) <= asked(limits[i])
}

/// `ratatui::layout::Layout::split`: one rectangle for each limit, as wide (or as
/// high) as the area and inside its extent. The parts follow each other without
/// gaps, and they are gathered at the start of the area or in its middle; a minimum
/// grows to fill what is left. Where all the limits can be kept they are kept.
/// Where they cannot, the area is filled and lengths give way, before the minimum
/// does and no further than they have to; which of several lengths give way, and by
/// how much each, is up to a constraint solver and not stated. Only one minimum is admitted: the solver weighs the growth of several
/// against the gaps between them.
#[verifier::external_body]
pub(crate) fn split(area: Rect, flow: Flow, gather: Gather, limits: &Vec<Limit>) -> (r: Vec<Rect>)
    requires
        area.sane(),
        one_grows(limits@),
    ensures
        shared_out(r@, limits@, area, flow, gather),
{
    let limits = limits.iter().map(|l| match l {
        Limit::Min(n) => Constraint::Min(*n),
        Limit::Length(n) => Constraint::Length(*n),
    });
    let layout = match flow {
        Flow::Down => Layout::vertical(limits),
        Flow::Across => Layout::horizontal(limits),
    };
    let flex = match gather {
        Gather::Start => Flex::Start,
        Gather::Center => Flex::Center,
    };
    let area = ratatui::layout::Rect { x: area.x, y: area.y, width: area.width, height: area.height };
    layout.flex(flex).split(area).iter().map(|r| Rect { x: r.x, y: r.y, width: r.width, height: r.height }).collect()
}

/// The texts of a line's runs.
pub open spec fn line_texts(l: LineModel) -> Seq<Seq<char>> {
    l.spans.map_values(|s: crate::ui::style::SpanModel| s.content)
}

/// The rows that a line takes when it is wrapped to this width.
pub uninterp spec fn wrapped_rows(texts: Seq<Seq<char>>, width: u16) -> nat;

/// The rows that the lines take when they are wrapped to this width: a line
/// without text takes one, and without width there are none.
pub open spec fn rows_of(lines: Seq<LineModel>, width: u16) -> nat
    decreases lines.len(),
{
    if lines.len() == 0 || width == 0 {
        0
    } else {
        rows_of(lines.drop_last(), width) + if lines.last().spans.len() == 0 {
            1
        } else {
            wrapped_rows(line_texts(lines.last()), width)
        }
    }
}

/// The widest area that text is wrapped in: the wrapping adds up almost four widths
/// in sixteen bits.
pub const MAX_WIDTH: u16 = 16384;

/// `ratatui::widgets::Paragraph::line_count` on one line, with wrapping that
/// keeps leading white space: the count is named by [`wrapped_rows`]. It is one
/// for a line without text, and none without width.
#[verifier::external_body]
fn count_wrapped(l: &Line, width: u16) -> (n: usize)
    requires
        width <= MAX_WIDTH,
    ensures
        n == wrapped_rows(line_texts(l.deep_view()), width),
        width == 0 ==> n == 0,
        width > 0 && l.spans.len() == 0 ==> n == 1,
{
    let spans: Vec<ratatui::text::Span> = l.spans.iter().map(
        |s| ratatui::text::Span::raw(s.content.as_str()),
    ).collect();
    let text = ratatui::widgets::Paragraph::new(ratatui::text::Line::from(spans));
    text.wrap(ratatui::widgets::Wrap { trim: false }).line_count(width)
}

/// The low sixteen bits of a count.
pub open spec fn low(n: nat) -> u16 {
    (n % 65536) as u16
}

/// The low sixteen bits of a count.
pub fn low_bits(n: usize) -> (r: u16)
    ensures
        r == low(n as nat),
{
    (n % 65536) as u16
}

/// The rows that the lines take when they are wrapped to this width, in sixteen
/// bits.
pub fn count_rows(lines: &Vec<Line>, width: u16) -> (n: u16)
    requires
        width <= MAX_WIDTH,
    ensures
        n == low(rows_of(lines.deep_view(), width)),
{
    let mut n: u32 = 0;
    let mut i: usize = 0;
    let ghost all = lines.deep_view();
    while i < lines.len()
        invariant
            i <= lines.len(),
            width <= MAX_WIDTH,
            all == lines.deep_view(),
            n < 65536,
            n == rows_of(all.take(i as int), width) % 65536,
        decreases lines.len() - i,
    {
        let more = count_wrapped(&lines[i], width);
        proof {
            let before = rows_of(all.take(i as int), width);
            assert(all.take(i + 1).drop_last() =~= all.take(i as int));
            assert(all.take(i + 1).last() == lines[i as int].deep_view());
            if width > 0 {
                assert(rows_of(all.take(i + 1), width) == before + more);
            } else {
                assert(rows_of(all.take(i + 1), width) == 0);
            }
            assert((before + more) % 65536 == (before % 65536 + more % 65536) % 65536)
                by (nonlinear_arith);
        }
        n = (n + (more % 65536) as u32) % 65536;
        i += 1;
    }
    proof {
        assert(all.take(i as int) =~= all);
    }
    n as u16
}

/// What a frame of one cell on every side leaves of an area.
pub open spec fn framed(area: Rect) -> Rect {
    Rect {
        x: if area.width > 0 {
            (area.x + 1) as u16
        } else {
            area.x
        },
        y: if area.height > 0 {
            (area.y + 1) as u16
        } else {
            area.y
        },
        width: if area.width >= 2 {
            (area.width - 2) as u16
        } else {
            0
        },
        height: if area.height >= 2 {
            (area.height - 2) as u16
        } else {
            0
        },
    }
}

/// What a frame of one cell on every side leaves of an area.
pub fn inner(area: Rect) -> (r: Rect)
    requires
        area.sane(),
    ensures
        r == framed(area),
        inside(r, area),
{
    Rect {
        x: if area.width > 0 {
            area.x + 1
        } else {
            area.x
        },
        y: if area.height > 0 {
            area.y + 1
        } else {
            area.y
        },
        width: if area.width >= 2 {
            area.width - 2
        } else {
            0
        },
        height: if area.height >= 2 {
            area.height - 2
        } else {
            0
        },
    }
}

} // verus!
