//! What holds of every frame.

use crate::app::model::{entry_sound, AppModel};
use crate::commands::{CommandModel, CompletionModel};
use crate::event::PermissionOptionModel;
use crate::theme::Theme;
use crate::ui::completion::{
    first_row, left_aligned, less, offered_name, popup_height, popup_line, popup_lines,
};
use crate::ui::layout::{
    asked, extent, far, honoured, kept, low, near, rows_of, shared_out, wanted, Flow, Gather, Rect,
};
use crate::ui::markdown::CacheModel;
use crate::ui::modal::prompt_limits;
use crate::ui::statusline::width_of;
use crate::ui::style::{line, LineModel};
use crate::ui::transcript::{item_cache, kept_renders, transcript_lines};
use crate::ui::screen::ScreenModel;
use crate::ui::{
    after_frame, blank_lines, frame_limits, input_height, is_frame, max_scroll, plan_height, rested,
    transcript_of,
};
use vstd::prelude::*;

verus! {

/// Showing an item keeps the rendered replies sound.
proof fn lemma_item_cache_sound(app: AppModel, i: int)
    requires
        app.cache_sound(),
        0 <= i < app.items.len(),
    ensures
        (AppModel { markdown: item_cache(app.items[i], app.markdown), ..app }).cache_sound(),
{
    let item = app.items[i];
    let after = AppModel { markdown: item_cache(item, app.markdown), ..app };
    if item is Assistant {
        assert forall|j: int|
            0 <= j < after.items.len() && #[trigger] after.items[j] is Assistant implies entry_sound(
            after.markdown,
            after.items[j],
        ) by {
            assert(entry_sound(app.markdown, app.items[j]));
            if j < i {
                assert(app.items[j]->Assistant_id != app.items[i]->Assistant_id);
            } else if i < j {
                assert(app.items[i]->Assistant_id != app.items[j]->Assistant_id);
            }
        }
        assert forall|id: u64| #[trigger] after.markdown.contains_key(id) implies id
            <= after.next_id by {
            if id != item->Assistant_id {
                assert(app.markdown.contains_key(id));
            }
        }
    }
}

pub proof fn lemma_kept_renders_sound(app: AppModel, n: int)
    requires
        app.cache_sound(),
        0 <= n <= app.items.len(),
    ensures
        (AppModel { markdown: kept_renders(app.items.take(n), app.markdown), ..app }).cache_sound(),
    decreases n,
{
    if n > 0 {
        lemma_kept_renders_sound(app, n - 1);
        assert(app.items.take(n).drop_last() =~= app.items.take(n - 1));
        let before = AppModel {
            markdown: kept_renders(app.items.take(n - 1), app.markdown),
            ..app
        };
        lemma_item_cache_sound(before, n - 1);
    }
}

/// Whatever was kept of earlier frames, every reply is shown as its text renders
/// now: the transcript is the one that nothing kept would give.
pub proof fn replies_are_shown_as_they_are(app: AppModel)
    requires
        app.cache_sound(),
    ensures
        transcript_of(app) == transcript_of(AppModel { markdown: CacheModel::empty(), ..app }),
{
    let fresh = AppModel { markdown: CacheModel::empty(), ..app };
    lemma_same_transcript(app, fresh, app.items.len() as int);
    assert(app.items.take(app.items.len() as int) =~= app.items);
}

proof fn lemma_same_transcript(a: AppModel, b: AppModel, n: int)
    requires
        a.cache_sound(),
        b.cache_sound(),
        a.items == b.items,
        0 <= n <= a.items.len(),
    ensures
        transcript_lines(a.items.take(n), a.focused_tool, a.theme, a.markdown)
            == transcript_lines(a.items.take(n), a.focused_tool, a.theme, b.markdown),
    decreases n,
{
    if n > 0 {
        lemma_same_transcript(a, b, n - 1);
        let upto = a.items.take(n);
        assert(upto.drop_last() =~= a.items.take(n - 1));
        assert(upto.last() == a.items[n - 1]);
        lemma_kept_renders_sound(a, n - 1);
        lemma_kept_renders_sound(b, n - 1);
        let x = AppModel { markdown: kept_renders(a.items.take(n - 1), a.markdown), ..a };
        let y = AppModel { markdown: kept_renders(b.items.take(n - 1), b.markdown), ..b };
        let item = a.items[n - 1];
        if item is Assistant {
            assert(x.items[n - 1] is Assistant);
            assert(y.items[n - 1] is Assistant);
            assert(entry_sound(x.markdown, item));
            assert(entry_sound(y.markdown, item));
        }
    }
}

/// Drawing keeps the focus and the rendered replies sound.
pub proof fn drawing_keeps_renders_sound(app: AppModel, area: Rect)
    requires
        app.sound(),
    ensures
        after_frame(app, area).sound(),
{
    lemma_kept_renders_sound(app, app.items.len() as int);
    assert(app.items.take(app.items.len() as int) =~= app.items);
    let rendered = AppModel { markdown: kept_renders(app.items, app.markdown), ..app };
    let after = after_frame(app, area);
    assert(rendered.cache_sound());
    assert(after.items == rendered.items && after.markdown == rendered.markdown);
    assert(after.next_id == rendered.next_id);
    assert(after.focused_tool == app.focused_tool);
    assert(after.cache_sound());
    assert(after.focus_sound());
}

proof fn lemma_blank_rows(n: nat, text: Seq<LineModel>, width: u16)
    requires
        width > 0,
    ensures
        rows_of(blank_lines(n) + text, width) == n + rows_of(text, width),
    decreases n + text.len(),
{
    let whole = blank_lines(n) + text;
    if text.len() > 0 {
        lemma_blank_rows(n, text.drop_last(), width);
        assert(whole.drop_last() =~= blank_lines(n) + text.drop_last());
    } else if n > 0 {
        lemma_blank_rows((n - 1) as nat, text, width);
        assert(whole.drop_last() =~= blank_lines((n - 1) as nat) + text);
        assert(whole.last() == line(Seq::empty()));
    } else {
        assert(whole =~= Seq::empty());
    }
}

/// A short conversation rests at the bottom of its pane: with the blank lines
/// above, it takes the pane's height exactly, and is not scrolled.
pub proof fn short_conversations_rest_at_the_bottom(app: AppModel, area: Rect)
    requires
        area.width > 0,
        rows_of(transcript_of(app), area.width) < area.height,
    ensures
        rows_of(rested(transcript_of(app), area), area.width) == area.height,
        rested(transcript_of(app), area).skip(
            rested(transcript_of(app), area).len() - transcript_of(app).len(),
        ) == transcript_of(app),
        after_frame(app, area).scroll == 0,
{
    let text = transcript_of(app);
    let rows = rows_of(text, area.width);
    assert(low(rows) == rows);
    lemma_blank_rows((area.height - rows) as nat, text, area.width);
    assert(rested(text, area).skip(rested(text, area).len() - text.len()) =~= text);
}

/// Where there is room for every pane, they stand on each other from the top of the
/// screen to its bottom: the transcript, the plan and the popup where there are
/// any, the input, and the status in the last row.
pub proof fn panes_stand_on_each_other(
    before: AppModel,
    after: AppModel,
    screen: ScreenModel,
    area: Rect,
    areas: Seq<Rect>,
)
    requires
        is_frame(before, after, screen, area, areas),
        wanted(frame_limits(before)) <= area.height,
    ensures
        ({
            let top = screen.transcript.area;
            let input = screen.input.area;
            let plan = plan_height(before.plan.len());
            let popup = popup_height(before.completion);
            &&& top.y == area.y
            &&& top.y + top.height + plan + popup == input.y
            &&& input.height == input_height(before.input.lines.len())
            &&& input.y + input.height == screen.status.area.y
            &&& screen.status.area.height == 1
            &&& screen.status.area.y + 1 == area.y + area.height
            &&& screen.plan matches Some(pane) ==> pane.area.y == top.y + top.height
                && pane.area.height == plan
            &&& screen.popup matches Some(card) ==> card.area.y + card.area.height == input.y
        }),
{
    let limits = frame_limits(before);
    assert(limits[0] is Min);
    assert(far(areas[0], Flow::Down) == near(areas[1], Flow::Down));
    assert(far(areas[1], Flow::Down) == near(areas[2], Flow::Down));
    assert(far(areas[2], Flow::Down) == near(areas[3], Flow::Down));
    assert(far(areas[3], Flow::Down) == near(areas[4], Flow::Down));
    assert(honoured(limits[1], areas[1].height));
    assert(honoured(limits[2], areas[2].height));
    assert(honoured(limits[3], areas[3].height));
    assert(honoured(limits[4], areas[4].height));
}

/// On a screen of any height the panes stand on each other from its top to its
/// bottom. The transcript gets its three rows before the others get any, and no more
/// until the others have what they want.
pub proof fn panes_fill_the_screen(
    before: AppModel,
    after: AppModel,
    screen: ScreenModel,
    area: Rect,
    areas: Seq<Rect>,
)
    requires
        is_frame(before, after, screen, area, areas),
    ensures
        ({
            let top = screen.transcript.area;
            let input = screen.input.area;
            let status = screen.status.area;
            &&& top.y == area.y
            &&& top.height >= 3 || top.height == area.height
            &&& wanted(frame_limits(before)) >= area.height ==> top.height <= 3
            &&& top.y + top.height <= input.y
            &&& input.height <= input_height(before.input.lines.len())
            &&& input.y + input.height == status.y
            &&& status.height <= 1
            &&& status.y + status.height == area.y + area.height
            &&& screen.plan matches Some(pane) ==> pane.area.y == top.y + top.height
                && pane.area.height <= plan_height(before.plan.len())
            &&& screen.popup matches Some(card) ==> card.area.y + card.area.height == input.y
                && card.area.height <= popup_height(before.completion)
        }),
{
    let limits = frame_limits(before);
    assert(limits[0] is Min);
    assert(far(areas[0], Flow::Down) == near(areas[1], Flow::Down));
    assert(far(areas[1], Flow::Down) == near(areas[2], Flow::Down));
    assert(far(areas[2], Flow::Down) == near(areas[3], Flow::Down));
    assert(far(areas[3], Flow::Down) == near(areas[4], Flow::Down));
    assert(kept(limits[0], areas[0].height, area.height));
    assert(kept(limits[1], areas[1].height, area.height));
    assert(kept(limits[2], areas[2].height, area.height));
    assert(kept(limits[3], areas[3].height, area.height));
    assert(kept(limits[4], areas[4].height, area.height));
    if wanted(limits) >= area.height {
        assert(extent(areas[0], Flow::Down) <= asked(limits[0]));
    }
}

/// A question and its answers share their box: every answer has its row, as far as
/// there is room below two rows for the question.
pub proof fn answers_stand_below_the_question(
    options: Seq<PermissionOptionModel>,
    area: Rect,
    parts: Seq<Rect>,
)
    requires
        options.len() < u16::MAX,
        shared_out(parts, prompt_limits(options), area, Flow::Down, Gather::Start),
    ensures
        parts.len() == 2,
        parts[1].height == if options.len() + 3 <= area.height {
            options.len() + 1int
        } else if area.height >= 2 {
            area.height - 2
        } else {
            0
        },
        parts[0].y == area.y,
        parts[0].y + parts[0].height == parts[1].y,
        parts[1].y + parts[1].height == area.y + area.height,
{
    reveal_with_fuel(wanted, 3);
    let limits = prompt_limits(options);
    assert(limits[0] is Min);
    assert(limits.drop_last().drop_last() =~= Seq::empty());
    assert(far(parts[0], Flow::Down) == near(parts[1], Flow::Down));
    assert(kept(limits[0], parts[0].height, area.height));
    assert(kept(limits[1], parts[1].height, area.height));
    if wanted(limits) <= area.height {
        assert(honoured(limits[1], parts[1].height));
    } else {
        assert(extent(parts[0], Flow::Down) <= asked(limits[0]));
    }
}

/// A long conversation that is followed shows its end.
pub proof fn following_shows_the_end(app: AppModel, area: Rect)
    requires
        area.height <= rows_of(transcript_of(app), area.width) <= u16::MAX,
        app.follow,
    ensures
        rested(transcript_of(app), area) == transcript_of(app),
        after_frame(app, area).scroll + area.height == rows_of(transcript_of(app), area.width),
{
}

/// The transcript is never scrolled beyond its end, and scrolling back to the end
/// follows it again.
pub proof fn scrolling_stays_in_the_text(app: AppModel, area: Rect)
    ensures
        ({
            let most = max_scroll(transcript_of(app), area);
            let after = after_frame(app, area);
            &&& after.scroll <= most
            &&& after.follow <==> after.scroll == most
            &&& !app.follow && app.scroll <= most ==> after.scroll == app.scroll
        }),
{
}

/// The highlighted command is on screen whenever the popup has a row.
pub proof fn the_highlight_is_on_screen(popup: CompletionModel, area: Rect, theme: Theme)
    requires
        popup.valid(),
        area.height > 2,
    ensures
        ({
            let start = first_row(popup, less(area.height as int, 2));
            start <= popup.selected < start + popup_lines(popup, area, theme).len()
        }),
{
}

/// A row of the popup reaches from one side of the frame to the other, so that the
/// highlighted one reads as one bar; a row that is longer is not padded.
pub proof fn popup_rows_reach_across(
    c: CommandModel,
    selected: bool,
    columns: nat,
    width: u16,
    theme: Theme,
)
    ensures
        ({
            let row = width_of(popup_line(c, selected, columns, width, theme).spans) as int;
            let text = 2int + left_aligned(offered_name(c), columns).len() + c.help.len();
            row == if text < width - 2 {
                width - 2
            } else {
                text
            }
        }),
{
    reveal_strlit("› ");
    reveal_strlit("  ");
    reveal_with_fuel(width_of, 5);
    let spans = popup_line(c, selected, columns, width, theme).spans;
    assert(spans.drop_last().drop_last().drop_last().drop_last() =~= Seq::empty());
}

} // verus!
