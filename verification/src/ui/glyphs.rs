//! What a frame is made of: its own signs are found in ordinary monospace fonts.

use crate::app::model::{entry_sound, AppModel, ItemModel, ModalModel, ToolCardModel};
use crate::commands::{command_table, CommandModel};
use crate::event::plan_glyph;
use crate::text::{at_most, lemma_line_len, line_len, lines_of, without_return};
use crate::theme::Theme;
use crate::ui::completion::{
    first_row, left_aligned, less, name_columns, offered_name, popup_card, popup_line, popup_lines,
    spaces,
};
use crate::ui::laws::lemma_kept_renders_sound;
use crate::ui::layout::Rect;
use crate::ui::markdown::{rendered, CacheModel};
use crate::ui::modal::{
    help_line, help_lines, help_table, modal_rows, modal_title, option_key, overlay_at, right_aligned,
};
use crate::ui::screen::{OverlayModel, ScreenModel};
use crate::ui::statusline::{status_left, status_line};
use crate::ui::style::LineModel;
use crate::ui::transcript::{
    card_header, card_lines, error_line, glyph_of, item_lines, kept_renders, preview, raw_line,
    raw_lines, status_of, thought_line, transcript_lines, user_line, RAW_PREVIEW_LIMIT,
};
use crate::ui::{blank_lines, is_frame, plan_line, plan_pane, rested, transcript_of};
use vstd::prelude::*;

verus! {

/// A character that ordinary monospace fonts have.
pub open spec fn portable(c: char) -> bool {
    c as int <= 127 || "±·»×…›→↓≡▌○◌●┌┐└┘─│"@.contains(c)
}

/// Whether every character is found in ordinary monospace fonts.
pub open spec fn all_portable(text: Seq<char>) -> bool {
    forall|i: int| 0 <= i < text.len() ==> portable(#[trigger] text[i])
}

/// Whether every run of a line is.
pub open spec fn line_portable(l: LineModel) -> bool {
    forall|i: int| 0 <= i < l.spans.len() ==> all_portable((#[trigger] l.spans[i]).content)
}

/// Whether every line is.
pub open spec fn lines_portable(lines: Seq<LineModel>) -> bool {
    forall|i: int| 0 <= i < lines.len() ==> line_portable(#[trigger] lines[i])
}

/// Whether every text is.
pub open spec fn texts_portable(texts: Seq<Seq<char>>) -> bool {
    forall|i: int| 0 <= i < texts.len() ==> all_portable(#[trigger] texts[i])
}

/// Whether a text that may be there is.
pub open spec fn maybe_portable(text: Option<Seq<char>>) -> bool {
    text matches Some(t) ==> all_portable(t)
}

/// Whether what others wrote in an item is: the user, the model, the agent, or the
/// program in its notes. Of a reply it is what its text renders to.
pub open spec fn item_portable(item: ItemModel) -> bool {
    match item {
        ItemModel::User { text } => all_portable(text),
        ItemModel::Assistant { md, .. } => lines_portable(rendered(md)),
        ItemModel::Thought { text, .. } => all_portable(text),
        ItemModel::Tool(card) => {
            &&& all_portable(card.view.kind)
            &&& all_portable(card.view.title)
            &&& maybe_portable(card.view.raw_input)
            &&& maybe_portable(card.view.raw_output)
        },
        ItemModel::Info(text) => all_portable(text),
        ItemModel::Error(text) => all_portable(text),
    }
}

/// Whether what others wrote in an open box is.
pub open spec fn box_portable(modal: ModalModel) -> bool {
    match modal {
        ModalModel::Help => true,
        ModalModel::ModelPicker { items, .. } => texts_portable(items),
        ModalModel::SessionPicker { items, .. } => forall|i: int|
            0 <= i < items.len() ==> all_portable((#[trigger] items[i]).title),
        ModalModel::Permission { title, options, .. } => all_portable(title) && forall|i: int|
            0 <= i < options.len() ==> all_portable((#[trigger] options[i]).name),
    }
}

/// Whether everything in the state that others wrote is.
pub open spec fn contents_portable(app: AppModel) -> bool {
    &&& forall|i: int| 0 <= i < app.items.len() ==> item_portable(#[trigger] app.items[i])
    &&& forall|i: int| 0 <= i < app.plan.len() ==> all_portable((#[trigger] app.plan[i]).content)
    &&& all_portable(app.model_name())
    &&& all_portable(app.theme.name@)
    &&& app.modal matches Some(modal) ==> box_portable(modal)
}

/// Whether everything that the frame shows is.
pub open spec fn screen_portable(screen: ScreenModel) -> bool {
    &&& lines_portable(screen.transcript.lines)
    &&& screen.plan matches Some(pane) ==> lines_portable(pane.lines)
    &&& screen.popup matches Some(card) ==> lines_portable(card.lines) && all_portable(
        card.title.content,
    )
    &&& lines_portable(screen.status.lines)
    &&& screen.modal matches Some(o) ==> overlay_portable(o)
}

/// Whether everything that a box shows is.
pub open spec fn overlay_portable(o: OverlayModel) -> bool {
    &&& lines_portable(o.card.lines)
    &&& all_portable(o.card.title.content)
    &&& o.question matches Some(q) ==> all_portable(q.text)
    &&& o.list matches Some(l) ==> texts_portable(l.rows) && all_portable(l.marker)
}

/// The texts of a frame that hold signs beyond ASCII.
proof fn lemma_signs()
    ensures
        all_portable("≡"@),
        all_portable("±"@),
        all_portable("×"@),
        all_portable("→"@),
        all_portable("»"@),
        all_portable("›"@),
        all_portable("↓"@),
        all_portable("·"@),
        all_portable("●"@),
        all_portable("◌"@),
        all_portable("○"@),
        all_portable("● completed"@),
        all_portable("× failed"@),
        all_portable("… running"@),
        all_portable("· pending"@),
        all_portable("…"@),
        all_portable("▌"@),
        all_portable(" · "@),
        all_portable("you › "@),
        all_portable("~ thought…"@),
        all_portable("· "@),
        all_portable("› "@),
        all_portable("● enclave"@),
        all_portable("● enclave?"@),
        all_portable(" · working… (Esc cancels)"@),
        all_portable("/ commands · ? help "@),
{
    reveal_strlit("±·»×…›→↓≡▌○◌●┌┐└┘─│");
    let known = "±·»×…›→↓≡▌○◌●┌┐└┘─│"@;
    assert(known[0] == '±' && known[1] == '·' && known[2] == '»' && known[3] == '×');
    assert(known[4] == '…' && known[5] == '›' && known[6] == '→' && known[7] == '↓');
    assert(known[8] == '≡' && known[9] == '▌' && known[10] == '○');
    assert(known[11] == '◌' && known[12] == '●');
    reveal_strlit("≡");
    reveal_strlit("±");
    reveal_strlit("×");
    reveal_strlit("→");
    reveal_strlit("»");
    reveal_strlit("›");
    reveal_strlit("↓");
    reveal_strlit("·");
    reveal_strlit("●");
    reveal_strlit("◌");
    reveal_strlit("○");
    reveal_strlit("● completed");
    reveal_strlit("× failed");
    reveal_strlit("… running");
    reveal_strlit("· pending");
    reveal_strlit("…");
    reveal_strlit("▌");
    reveal_strlit(" · ");
    reveal_strlit("you › ");
    reveal_strlit("~ thought…");
    reveal_strlit("· ");
    reveal_strlit("› ");
    reveal_strlit("● enclave");
    reveal_strlit("● enclave?");
    reveal_strlit(" · working… (Esc cancels)");
    reveal_strlit("/ commands · ? help ");
}

/// The other texts of a frame.
proof fn lemma_words()
    ensures
        all_portable("~"@),
        all_portable("  "@),
        all_portable(":"@),
        all_portable("input"@),
        all_portable("output"@),
        all_portable(" "@),
        all_portable(" [Tab: details]"@),
        all_portable("      "@),
        all_portable("! "@),
        all_portable("~ "@),
        all_portable("plan"@),
        all_portable(" commands "@),
        all_portable(" CHAT "@),
        all_portable(" AGENT "@),
        all_portable(" help "@),
        all_portable(" model "@),
        all_portable(" sessions "@),
        all_portable(" permission "@),
        all_portable("y"@),
        all_portable("a"@),
        all_portable("n"@),
        all_portable("N"@),
        all_portable("["@),
        all_portable("] "@),
        all_portable("/"@),
        all_portable("  commands (type / for completion)"@),
{
    reveal_strlit("~");
    reveal_strlit("  ");
    reveal_strlit(":");
    reveal_strlit("input");
    reveal_strlit("output");
    reveal_strlit(" ");
    reveal_strlit(" [Tab: details]");
    reveal_strlit("      ");
    reveal_strlit("! ");
    reveal_strlit("~ ");
    reveal_strlit("plan");
    reveal_strlit(" commands ");
    reveal_strlit(" CHAT ");
    reveal_strlit(" AGENT ");
    reveal_strlit(" help ");
    reveal_strlit(" model ");
    reveal_strlit(" sessions ");
    reveal_strlit(" permission ");
    reveal_strlit("y");
    reveal_strlit("a");
    reveal_strlit("n");
    reveal_strlit("N");
    reveal_strlit("[");
    reveal_strlit("] ");
    reveal_strlit("/");
    reveal_strlit("  commands (type / for completion)");
}

/// The texts of the help.
proof fn lemma_help_words()
    ensures
        all_portable("Enter"@),
        all_portable("send"@),
        all_portable("Alt+Enter"@),
        all_portable("newline (also Ctrl+J)"@),
        all_portable("Esc"@),
        all_portable("cancel turn / close modal"@),
        all_portable("Ctrl+C"@),
        all_portable("cancel if busy, else quit"@),
        all_portable("Ctrl+D"@),
        all_portable("quit (empty input)"@),
        all_portable("Ctrl+T"@),
        all_portable("toggle chat/agent mode"@),
        all_portable("Ctrl+O"@),
        all_portable("model picker"@),
        all_portable("Ctrl+P"@),
        all_portable("session picker"@),
        all_portable("Ctrl+N"@),
        all_portable("new session"@),
        all_portable("Tab"@),
        all_portable("focus tool cards / expand"@),
        all_portable("PgUp/PgDn"@),
        all_portable("scroll transcript"@),
        all_portable("End"@),
        all_portable("follow live output"@),
        all_portable("y/a/n/N"@),
        all_portable("answer permission prompts"@),
{
    reveal_strlit("Enter");
    reveal_strlit("send");
    reveal_strlit("Alt+Enter");
    reveal_strlit("newline (also Ctrl+J)");
    reveal_strlit("Esc");
    reveal_strlit("cancel turn / close modal");
    reveal_strlit("Ctrl+C");
    reveal_strlit("cancel if busy, else quit");
    reveal_strlit("Ctrl+D");
    reveal_strlit("quit (empty input)");
    reveal_strlit("Ctrl+T");
    reveal_strlit("toggle chat/agent mode");
    reveal_strlit("Ctrl+O");
    reveal_strlit("model picker");
    reveal_strlit("Ctrl+P");
    reveal_strlit("session picker");
    reveal_strlit("Ctrl+N");
    reveal_strlit("new session");
    reveal_strlit("Tab");
    reveal_strlit("focus tool cards / expand");
    reveal_strlit("PgUp/PgDn");
    reveal_strlit("scroll transcript");
    reveal_strlit("End");
    reveal_strlit("follow live output");
    reveal_strlit("y/a/n/N");
    reveal_strlit("answer permission prompts");
}

/// The texts of the commands.
proof fn lemma_command_words()
    ensures
        all_portable("help"@),
        all_portable("model"@),
        all_portable("new"@),
        all_portable("sessions"@),
        all_portable("chat"@),
        all_portable("agent"@),
        all_portable("quit"@),
        all_portable(""@),
        all_portable("[id]"@),
        all_portable("show keys and commands"@),
        all_portable("pick a model, or set one by id"@),
        all_portable("start a new session"@),
        all_portable("reopen a saved session"@),
        all_portable("switch to chat mode"@),
        all_portable("switch to agent mode"@),
        all_portable("leave maplet"@),
{
    reveal_strlit("help");
    reveal_strlit("model");
    reveal_strlit("new");
    reveal_strlit("sessions");
    reveal_strlit("chat");
    reveal_strlit("agent");
    reveal_strlit("quit");
    reveal_strlit("");
    reveal_strlit("[id]");
    reveal_strlit("show keys and commands");
    reveal_strlit("pick a model, or set one by id");
    reveal_strlit("start a new session");
    reveal_strlit("reopen a saved session");
    reveal_strlit("switch to chat mode");
    reveal_strlit("switch to agent mode");
    reveal_strlit("leave maplet");
}

proof fn lemma_cat(a: Seq<char>, b: Seq<char>)
    requires
        all_portable(a),
        all_portable(b),
    ensures
        all_portable(a + b),
{
    assert forall|i: int| 0 <= i < (a + b).len() implies portable(#[trigger] (a + b)[i]) by {
        if i < a.len() {
            assert((a + b)[i] == a[i]);
        } else {
            assert((a + b)[i] == b[i - a.len()]);
        }
    }
}

proof fn lemma_spaces(n: nat)
    ensures
        all_portable(spaces(n)),
{
}

proof fn lemma_lines(text: Seq<char>)
    requires
        all_portable(text),
    ensures
        texts_portable(lines_of(text)),
    decreases text.len(),
{
    lemma_line_len(text);
    if text.len() > 0 && line_len(text) < text.len() {
        let n = line_len(text) as int;
        let rest = text.skip(n + 1);
        assert forall|i: int| 0 <= i < rest.len() implies portable(#[trigger] rest[i]) by {
            assert(rest[i] == text[n + 1 + i]);
        }
        lemma_lines(rest);
        let first = without_return(text.take(n));
        assert forall|i: int| 0 <= i < first.len() implies portable(#[trigger] first[i]) by {
            assert(first[i] == text[i]);
        }
        let all = lines_of(text);
        assert forall|i: int| 0 <= i < all.len() implies all_portable(#[trigger] all[i]) by {
            if i > 0 {
                assert(all[i] == lines_of(rest)[i - 1]);
            } else {
                assert(all[0] == first);
            }
        }
    }
}

proof fn lemma_raw_lines(label: Seq<char>, raw: Option<Seq<char>>, theme: Theme)
    requires
        all_portable(label),
        maybe_portable(raw),
    ensures
        lines_portable(raw_lines(label, raw, theme)),
{
    lemma_signs();
    lemma_words();
    if let Some(text) = raw {
        let shown = preview(text);
        assert(all_portable(shown)) by {
            let cut = at_most(text, RAW_PREVIEW_LIMIT as nat);
            assert forall|i: int| 0 <= i < cut.len() implies portable(#[trigger] cut[i]) by {
                assert(cut[i] == text[i]);
            }
            lemma_cat(cut, "…"@);
        }
        lemma_lines(shown);
        lemma_cat("  "@, label);
        lemma_cat("  "@ + label, ":"@);
        let all = raw_lines(label, raw, theme);
        assert forall|i: int| 0 <= i < all.len() implies line_portable(#[trigger] all[i]) by {
            if i > 0 {
                let l = lines_of(shown)[i - 1];
                assert(all[i] == raw_line(l, theme));
                lemma_cat("  "@, l);
            }
        }
    }
}

proof fn lemma_card(card: ToolCardModel, focused: bool, theme: Theme)
    requires
        item_portable(ItemModel::Tool(card)),
    ensures
        lines_portable(card_lines(card, focused, theme)),
{
    lemma_signs();
    lemma_words();
    glyphs_are_portable(card.view.kind, card.view.status, theme);
    let glyph = glyph_of(card.view.kind);
    lemma_cat(glyph, " "@);
    lemma_cat(glyph + " "@, card.view.kind);
    lemma_cat(glyph + " "@ + card.view.kind, " · "@);
    assert(line_portable(card_header(card, focused, theme)));
    lemma_raw_lines("input"@, card.view.raw_input, theme);
    lemma_raw_lines("output"@, card.view.raw_output, theme);
    let inputs = raw_lines("input"@, card.view.raw_input, theme);
    let outputs = raw_lines("output"@, card.view.raw_output, theme);
    let all = card_lines(card, focused, theme);
    assert forall|i: int| 0 <= i < all.len() implies line_portable(#[trigger] all[i]) by {
        if i > 0 {
            if i <= inputs.len() {
                assert(all[i] == inputs[i - 1]);
            } else {
                assert(all[i] == outputs[i - 1 - inputs.len()]);
            }
        }
    }
}

proof fn lemma_item(item: ItemModel, focused: bool, theme: Theme, cache: CacheModel)
    requires
        item_portable(item),
        item is Assistant ==> entry_sound(cache, item),
    ensures
        lines_portable(item_lines(item, focused, theme, cache)),
{
    lemma_signs();
    lemma_words();
    let all = item_lines(item, focused, theme, cache);
    match item {
        ItemModel::User { text } => {
            lemma_lines(text);
            assert forall|i: int| 0 <= i < all.len() implies line_portable(#[trigger] all[i]) by {
                assert(all[i] == user_line(i, lines_of(text)[i], theme));
            }
        },
        ItemModel::Thought { text, collapsed } => {
            lemma_lines(text);
            if !collapsed {
                assert forall|i: int| 0 <= i < all.len() implies line_portable(
                    #[trigger] all[i],
                ) by {
                    assert(all[i] == thought_line(lines_of(text)[i], theme));
                    lemma_cat("~ "@, lines_of(text)[i]);
                }
            }
        },
        ItemModel::Tool(card) => {
            lemma_card(card, focused, theme);
        },
        ItemModel::Info(text) => {
            lemma_cat("· "@, text);
        },
        ItemModel::Error(text) => {
            lemma_lines(text);
            assert forall|i: int| 0 <= i < all.len() implies line_portable(#[trigger] all[i]) by {
                let l = lines_of(text)[i];
                assert(all[i] == error_line(i, l, theme));
                lemma_cat("! "@, l);
                lemma_cat("  "@, l);
            }
        },
        ItemModel::Assistant { .. } => {},
    }
}

proof fn lemma_transcript(app: AppModel, n: int)
    requires
        app.cache_sound(),
        contents_portable(app),
        0 <= n <= app.items.len(),
    ensures
        lines_portable(transcript_lines(app.items.take(n), app.focused_tool, app.theme, app.markdown)),
    decreases n,
{
    if n > 0 {
        lemma_transcript(app, n - 1);
        let upto = app.items.take(n);
        assert(upto.drop_last() =~= app.items.take(n - 1));
        let item = app.items[n - 1];
        assert(upto.last() == item);
        let cache = kept_renders(app.items.take(n - 1), app.markdown);
        lemma_kept_renders_sound(app, n - 1);
        let x = AppModel { markdown: cache, ..app };
        assert(x.items[n - 1] == item);
        let focused = app.focused_tool == Some(upto.len() - 1);
        lemma_item(item, focused, app.theme, cache);
    }
}

proof fn lemma_command(c: CommandModel)
    requires
        command_table().contains(c),
    ensures
        all_portable(offered_name(c)),
        all_portable(c.help),
{
    lemma_command_words();
    lemma_words();
    lemma_cat("/"@, c.name);
    lemma_cat("/"@ + c.name, " "@);
    lemma_cat("/"@ + c.name + " "@, c.args);
}

proof fn lemma_popup(app: AppModel, area: Rect)
    requires
        app.valid(),
    ensures
        popup_card(app, area) matches Some(card) ==> lines_portable(card.lines) && all_portable(
            card.title.content,
        ),
{
    lemma_words();
    lemma_signs();
    if let Some(popup) = app.completion {
        let all = popup_lines(popup, area, app.theme);
        let start = first_row(popup, less(area.height as int, 2));
        assert forall|k: int| 0 <= k < all.len() implies line_portable(#[trigger] all[k]) by {
            let c = popup.items[start + k];
            let columns = name_columns(popup.items);
            lemma_command(c);
            assert(all[k] == popup_line(
                c,
                start + k == popup.selected,
                columns,
                area.width,
                app.theme,
            ));
            let name = offered_name(c);
            if name.len() < columns {
                lemma_spaces((columns - name.len()) as nat);
                lemma_cat(name, spaces((columns - name.len()) as nat));
            }
            assert(all_portable(left_aligned(name, columns)));
        }
    }
}

proof fn lemma_status(app: AppModel, width: u16)
    requires
        contents_portable(app),
    ensures
        line_portable(status_line(app, width)),
{
    lemma_words();
    lemma_signs();
    let left = status_left(app);
    assert forall|i: int| 0 <= i < left.len() implies all_portable(
        (#[trigger] left[i]).content,
    ) by {}
    let l = status_line(app, width);
    assert forall|i: int| 0 <= i < l.spans.len() implies all_portable(
        (#[trigger] l.spans[i]).content,
    ) by {
        if i < left.len() {
            assert(l.spans[i] == left[i]);
        }
    }
}

proof fn lemma_plan(app: AppModel, area: Rect)
    requires
        contents_portable(app),
    ensures
        plan_pane(app, area) matches Some(pane) ==> lines_portable(pane.lines),
{
    lemma_words();
    if let Some(pane) = plan_pane(app, area) {
        assert forall|i: int| 0 <= i < pane.lines.len() implies line_portable(
            #[trigger] pane.lines[i],
        ) by {
            if i > 0 {
                let entry = app.plan[i - 1];
                assert(pane.lines[i] == plan_line(entry, app.theme));
                glyphs_are_portable(Seq::empty(), entry.status, app.theme);
                lemma_cat(plan_glyph(entry.status), " "@);
            }
        }
    }
}

proof fn lemma_help_line(key: Seq<char>, what: Seq<char>, theme: Theme)
    requires
        all_portable(key),
        all_portable(what),
    ensures
        line_portable(help_line(key, what, theme)),
{
    lemma_words();
    if key.len() < 12 {
        lemma_spaces((12 - key.len()) as nat);
        lemma_cat(spaces((12 - key.len()) as nat), key);
    }
    lemma_cat(right_aligned(key, 12), "  "@);
}

proof fn lemma_help(theme: Theme)
    ensures
        lines_portable(help_lines(theme)),
{
    lemma_words();
    lemma_help_words();
    let all = help_lines(theme);
    let keys = help_table();
    let table = command_table();
    assert forall|i: int| 0 <= i < all.len() implies line_portable(#[trigger] all[i]) by {
        if i < keys.len() {
            assert(all[i] == help_line(keys[i].0, keys[i].1, theme));
            lemma_help_line(keys[i].0, keys[i].1, theme);
        } else if i >= keys.len() + 2 {
            let c = table[i - keys.len() - 2];
            assert(table.contains(c));
            assert(all[i] == help_line(offered_name(c), c.help, theme));
            lemma_command(c);
            lemma_help_line(offered_name(c), c.help, theme);
        }
    }
}

proof fn lemma_overlay(modal: ModalModel, theme: Theme, area: Rect, parts: Seq<Rect>)
    requires
        box_portable(modal),
    ensures
        overlay_portable(overlay_at(modal, theme, area, parts)),
{
    lemma_words();
    lemma_signs();
    lemma_help(theme);
    let rows = modal_rows(modal);
    assert(texts_portable(rows)) by {
        match modal {
            ModalModel::SessionPicker { items, .. } => {
                assert forall|i: int| 0 <= i < rows.len() implies all_portable(
                    #[trigger] rows[i],
                ) by {
                    assert(rows[i] == items[i].title);
                }
            },
            ModalModel::Permission { options, .. } => {
                assert forall|i: int| 0 <= i < rows.len() implies all_portable(
                    #[trigger] rows[i],
                ) by {
                    let o = options[i];
                    let key = option_key(o.kind);
                    assert(rows[i] == "["@ + key + "] "@ + o.name);
                    lemma_cat("["@, key);
                    lemma_cat("["@ + key, "] "@);
                    lemma_cat("["@ + key + "] "@, o.name);
                }
            },
            _ => {},
        }
    }
    assert(all_portable(modal_title(modal)));
}

/// The glyphs and labels of tool cards and of the plan are found in ordinary
/// monospace fonts, so that no terminal has to draw them from another font.
pub proof fn glyphs_are_portable(kind: Seq<char>, status: Seq<char>, theme: Theme)
    ensures
        all_portable(glyph_of(kind)),
        all_portable(status_of(status, theme).content),
        all_portable(plan_glyph(status)),
{
    lemma_signs();
    lemma_words();
}

/// Every sign that a frame draws of its own is found in ordinary monospace fonts: where
/// what others wrote is, so is everything on the screen.
pub proof fn frames_are_portable(
    before: AppModel,
    after: AppModel,
    screen: ScreenModel,
    area: Rect,
    areas: Seq<Rect>,
)
    requires
        is_frame(before, after, screen, area, areas),
        before.valid(),
        before.cache_sound(),
        contents_portable(before),
    ensures
        screen_portable(screen),
{
    lemma_transcript(before, before.items.len() as int);
    assert(before.items.take(before.items.len() as int) =~= before.items);
    let text = transcript_of(before);
    let shown = rested(text, areas[0]);
    assert forall|i: int| 0 <= i < shown.len() implies line_portable(#[trigger] shown[i]) by {
        let pad = shown.len() - text.len();
        if i < pad {
            assert(shown[i] == blank_lines(pad as nat)[i]);
        } else {
            assert(shown[i] == text[i - pad]);
        }
    }
    lemma_plan(before, areas[1]);
    lemma_popup(before, areas[2]);
    lemma_status(before, areas[4].width);
    if let Some(modal) = before.modal {
        let o = screen.modal->0;
        let parts = choose|parts: Seq<Rect>|
            o == #[trigger] overlay_at(modal, before.theme, o.card.area, parts);
        lemma_overlay(modal, before.theme, o.card.area, parts);
    }
}

} // verus!
