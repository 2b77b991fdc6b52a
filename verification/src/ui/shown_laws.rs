//! What is shown of the state.

use crate::app::model::{AppModel, ItemModel, ModalModel, ToolCardModel};
use crate::app::Mode;
use crate::commands::{CommandModel, CompletionModel};
use crate::event::{PermissionOptionModel, PlanEntryModel};
use crate::session::SessionMetaModel;
use crate::text::{at_most, lines_of};
use crate::text_laws::cutting_short_keeps_the_start;
use crate::theme::{colored, TextStyle, Theme};
use crate::ui::completion::{
    first_row, longest, name_columns, offered_name, popup_card, popup_height, popup_line,
    popup_lines,
};
use crate::ui::layout::{rows_of, Rect};
use crate::ui::markdown::{
    cache_after, is_cached, item_marks, markdown_lines, rendered, shown_markdown, CacheModel,
};
use crate::ui::modal::{
    drawn_at, help_lines, help_table, modal_rows, modal_size, modal_title, option_key, overlay_at,
};
use crate::ui::screen::OverlayModel;
use crate::ui::statusline::{status_left, status_line, width_of};
use crate::ui::style::{LineModel, Paint};
use crate::ui::transcript::{
    card_lines, glyph_of, item_lines, kept_renders, preview, raw_lines, status_of, transcript_lines,
};
use crate::ui::{input_height, max_scroll, plan_height, plan_line, plan_pane, rested, screen_at};
use vstd::prelude::*;

verus! {

/// Whether the line is one run of this text, in this style.
pub open spec fn is_run(l: LineModel, text: Seq<char>, style: TextStyle) -> bool {
    l.spans.len() == 1 && l.spans[0].content == text && l.spans[0].style == Paint::Role(style)
}

/// The transcript shows the items in their order: what one more item adds stands below
/// the others, behind a blank line.
pub proof fn items_are_shown_in_order(
    items: Seq<ItemModel>,
    item: ItemModel,
    focus: Option<int>,
    theme: Theme,
    cache: CacheModel,
)
    ensures
        ({
            let above = transcript_lines(items, focus, theme, cache);
            let all = transcript_lines(items.push(item), focus, theme, cache);
            let added = item_lines(
                item,
                focus == Some(items.len() as int),
                theme,
                kept_renders(items, cache),
            );
            let gap = if above.len() == 0 {
                0int
            } else {
                1
            };
            &&& all.len() == above.len() + gap + added.len()
            &&& all.take(above.len() as int) == above
            &&& all.skip(above.len() + gap) == added
            &&& gap == 1 ==> all[above.len() as int].spans.len() == 0
        }),
        transcript_lines(Seq::empty(), focus, theme, cache).len() == 0,
{
    assert(items.push(item).drop_last() =~= items);
    let above = transcript_lines(items, focus, theme, cache);
    let all = transcript_lines(items.push(item), focus, theme, cache);
    let added = item_lines(
        item,
        focus == Some(items.len() as int),
        theme,
        kept_renders(items, cache),
    );
    let gap = if above.len() == 0 {
        0int
    } else {
        1
    };
    assert(all.take(above.len() as int) =~= above);
    assert(all.skip(above.len() + gap) =~= added);
}

/// What the user said is shown line by line, the first behind a mark and the others
/// below its text.
pub proof fn messages_are_shown_line_by_line(
    text: Seq<char>,
    focused: bool,
    theme: Theme,
    cache: CacheModel,
)
    ensures
        ({
            let shown = item_lines(ItemModel::User { text }, focused, theme, cache);
            &&& shown.len() == lines_of(text).len()
            &&& forall|i: int|
                0 <= i < shown.len() ==> {
                    &&& (#[trigger] shown[i]).spans.len() == 2
                    &&& shown[i].spans[0].content == if i == 0 {
                        "you › "@
                    } else {
                        "      "@
                    }
                    &&& shown[i].spans[0].style == Paint::Role(theme.accent_role())
                    &&& shown[i].spans[1].content == lines_of(text)[i]
                    &&& shown[i].spans[1].style == Paint::Role(theme.user_role())
                }
        }),
{
}

/// Notes stand behind a dot, errors behind an exclamation mark, line by line; thoughts
/// behind a wave, line by line, or in one line without their text when they are folded.
pub proof fn notes_and_thoughts_are_shown(
    text: Seq<char>,
    focused: bool,
    theme: Theme,
    cache: CacheModel,
)
    ensures
        ({
            let note = item_lines(ItemModel::Info(text), focused, theme, cache);
            let error = item_lines(ItemModel::Error(text), focused, theme, cache);
            let thought = item_lines(
                ItemModel::Thought { text, collapsed: false },
                focused,
                theme,
                cache,
            );
            let folded = item_lines(
                ItemModel::Thought { text, collapsed: true },
                focused,
                theme,
                cache,
            );
            &&& note.len() == 1 && is_run(note[0], "· "@ + text, theme.hint_role())
            &&& error.len() == lines_of(text).len()
            &&& forall|i: int|
                0 <= i < error.len() ==> is_run(
                    #[trigger] error[i],
                    (if i == 0 {
                        "! "@
                    } else {
                        "  "@
                    }) + lines_of(text)[i],
                    theme.error_role(),
                )
            &&& thought.len() == lines_of(text).len()
            &&& forall|i: int|
                0 <= i < thought.len() ==> is_run(
                    #[trigger] thought[i],
                    "~ "@ + lines_of(text)[i],
                    theme.thought_role(),
                )
            &&& folded.len() == 1 && is_run(folded[0], "~ thought…"@, theme.thought_role())
        }),
{
}

/// A reply is shown as its markdown renders; a source in which lists could be nested too
/// deep is shown as it was written.
pub proof fn replies_are_rendered(
    id: u64,
    md: Seq<char>,
    revision: u64,
    streaming: bool,
    focused: bool,
    theme: Theme,
    cache: CacheModel,
)
    requires
        !(cache.contains_key(id) && cache[id].0 == revision),
    ensures
        ({
            let shown = item_lines(
                ItemModel::Assistant { id, md, revision, streaming },
                focused,
                theme,
                cache,
            );
            &&& item_marks(md) <= 16384 ==> shown == markdown_lines(md)
            &&& item_marks(md) > 16384 ==> {
                &&& shown.len() == lines_of(md).len()
                &&& forall|i: int|
                    0 <= i < shown.len() ==> is_run(
                        #[trigger] shown[i],
                        lines_of(md)[i],
                        TextStyle { fg: None, bg: None, bold: false, italic: false, dim: false },
                    )
            }
        }),
{
    assert(!is_cached(cache, id, revision));
    assert(shown_markdown(cache, id, revision, md) == rendered(md));
}

/// A tool card shows whether it is in focus, the kind of the tool, its title and its
/// status; a folded one that has more to show says how.
pub proof fn cards_tell_their_tool(card: ToolCardModel, focused: bool, theme: Theme)
    ensures
        ({
            let head = card_lines(card, focused, theme)[0];
            let more = !card.expanded && (card.view.raw_input is Some || card.view.raw_output
                is Some);
            &&& card_lines(card, focused, theme).len() > 0
            &&& !card.expanded ==> card_lines(card, focused, theme).len() == 1
            &&& head.spans[0].content == if focused {
                "▌"@
            } else {
                " "@
            }
            &&& head.spans[1].content == glyph_of(card.view.kind) + " "@ + card.view.kind + " · "@
            &&& head.spans[2].content == card.view.title
            &&& head.spans[2].style == Paint::Role(theme.body_role())
            &&& head.spans[3].content == " · "@
            &&& head.spans[4] == status_of(card.view.status, theme)
            &&& head.spans.len() == if more {
                6int
            } else {
                5
            }
            &&& more ==> head.spans[5].content == " [Tab: details]"@
        }),
{
}

/// The status of a tool call is shown by a word and a colour.
pub proof fn statuses_have_words_and_colours(status: Seq<char>, theme: Theme)
    ensures
        ({
            let shown = status_of(status, theme);
            &&& status == "completed"@ ==> shown.content == "● completed"@ && shown.style
                == Paint::Role(colored(theme.green))
            &&& status == "failed"@ ==> shown.content == "× failed"@ && shown.style == Paint::Role(
                theme.error_role(),
            )
            &&& status == "in_progress"@ ==> shown.content == "… running"@ && shown.style
                == Paint::Role(colored(theme.yellow))
            &&& status != "completed"@ && status != "failed"@ && status != "in_progress"@
                ==> shown.content == "· pending"@ && shown.style == Paint::Role(theme.hint_role())
        }),
{
    reveal_strlit("completed");
    reveal_strlit("failed");
    reveal_strlit("in_progress");
    assert("completed"@.len() == 9 && "failed"@.len() == 6 && "in_progress"@.len() == 11);
}

/// Every kind of tool has its own glyph.
pub proof fn kinds_of_tools_have_glyphs(kind: Seq<char>)
    ensures
        kind == "read"@ ==> glyph_of(kind) == "≡"@,
        kind == "edit"@ ==> glyph_of(kind) == "±"@,
        kind == "delete"@ ==> glyph_of(kind) == "×"@,
        kind == "move"@ ==> glyph_of(kind) == "→"@,
        kind == "search"@ ==> glyph_of(kind) == "»"@,
        kind == "execute"@ ==> glyph_of(kind) == "›"@,
        kind == "think"@ ==> glyph_of(kind) == "~"@,
        kind == "fetch"@ ==> glyph_of(kind) == "↓"@,
        kind == "other"@ ==> glyph_of(kind) == "·"@,
{
    reveal_strlit("read");
    reveal_strlit("edit");
    reveal_strlit("delete");
    reveal_strlit("move");
    reveal_strlit("search");
    reveal_strlit("execute");
    reveal_strlit("think");
    reveal_strlit("fetch");
    reveal_strlit("other");
    assert("read"@[0] == 'r' && "edit"@[0] == 'e' && "delete"@[0] == 'd' && "move"@[0] == 'm'
        && "search"@[0] == 's' && "execute"@[0] == 'e' && "think"@[0] == 't' && "fetch"@[0] == 'f'
        && "other"@[0] == 'o');
    assert("edit"@[1] == 'd' && "execute"@[1] == 'x');
}

/// An unfolded card shows what the tool was called with, and below it what came of it,
/// each under its heading, where there is any; a long text is cut short behind twelve
/// hundred characters, which shows.
pub proof fn unfolded_cards_show_input_and_output(
    card: ToolCardModel,
    focused: bool,
    theme: Theme,
)
    requires
        card.expanded,
    ensures
        ({
            let shown = card_lines(card, focused, theme);
            let input = raw_lines("input"@, card.view.raw_input, theme);
            let output = raw_lines("output"@, card.view.raw_output, theme);
            &&& shown.len() == 1 + input.len() + output.len()
            &&& shown.subrange(1, 1 + input.len() as int) == input
            &&& shown.skip(1 + input.len() as int) == output
        }),
{
    let shown = card_lines(card, focused, theme);
    let input = raw_lines("input"@, card.view.raw_input, theme);
    let output = raw_lines("output"@, card.view.raw_output, theme);
    assert(shown.subrange(1, 1 + input.len() as int) =~= input);
    assert(shown.skip(1 + input.len() as int) =~= output);
}

/// A raw text is shown under its heading, line by line.
pub proof fn raw_texts_are_shown_line_by_line(label: Seq<char>, raw: Seq<char>, theme: Theme)
    ensures
        raw_lines(label, None, theme).len() == 0,
        ({
            let shown = raw_lines(label, Some(raw), theme);
            &&& shown.len() == lines_of(preview(raw)).len() + 1
            &&& is_run(shown[0], "  "@ + label + ":"@, theme.hint_role())
            &&& forall|i: int|
                0 <= i < lines_of(preview(raw)).len() ==> is_run(
                    #[trigger] shown[i + 1],
                    "  "@ + lines_of(preview(raw))[i],
                    theme.body_role(),
                )
        }),
        raw.len() <= 1200 ==> preview(raw) == raw,
        raw.len() > 1200 ==> preview(raw) == raw.take(1200) + "…"@,
{
    cutting_short_keeps_the_start(raw, 1200);
    assert(at_most(raw, 1200) == raw || at_most(raw, 1200) == raw.take(1200));
}

/// The status line tells the mode, the model of that mode, whether the connection is
/// sound, the theme, and whether a turn is running.
pub proof fn the_status_line_tells_the_state(app: AppModel, width: u16)
    ensures
        ({
            let spans = status_line(app, width).spans;
            &&& spans.len() == 10
            &&& spans[0].content == if app.mode == Mode::Chat {
                " CHAT "@
            } else {
                " AGENT "@
            }
            &&& spans[2].content == if app.mode == Mode::Chat {
                app.chat_model
            } else {
                app.agent_model
            }
            &&& spans[4].content == if app.proxy_healthy {
                "● enclave"@
            } else {
                "● enclave?"@
            }
            &&& spans[4].style == Paint::Role(
                colored(
                    if app.proxy_healthy {
                        app.theme.green
                    } else {
                        app.theme.red
                    },
                ),
            )
            &&& spans[6].content == app.theme.name@
            &&& spans[7].content == if app.busy {
                " · working… (Esc cancels)"@
            } else {
                Seq::empty()
            }
            &&& spans[9].content == "/ commands · ? help "@
            &&& forall|i: int|
                0 <= i < spans[8].content.len() ==> #[trigger] spans[8].content[i] == ' '
            &&& width_of(status_left(app)) + 21 <= width ==> spans[8].content.len() + width_of(
                status_left(app),
            ) + 21 == width
        }),
{
}

/// The plan is shown under its heading, entry by entry, five of them at most; without
/// entries there is none.
pub proof fn plans_are_shown_under_their_heading(app: AppModel, area: Rect)
    requires
        app.plan.len() < 65536,
    ensures
        app.plan.len() == 0 <==> plan_pane(app, area) is None,
        plan_pane(app, area) matches Some(pane) ==> {
            let n = if app.plan.len() <= 5 {
                app.plan.len() as int
            } else {
                5
            };
            &&& pane.area == area
            &&& pane.lines.len() == n + 1
            &&& is_run(pane.lines[0], "plan"@, app.theme.hint_role())
            &&& forall|i: int|
                0 <= i < n ==> {
                    &&& (#[trigger] pane.lines[i + 1]).spans.len() == 2
                    &&& pane.lines[i + 1].spans[1].content == app.plan[i].content
                    &&& pane.lines[i + 1] == plan_line(app.plan[i], app.theme)
                }
        },
{
    if app.plan.len() > 0 {
        let shown = app.plan.take(plan_height(app.plan.len()) - 1);
        let pane = plan_pane(app, area)->0;
        assert forall|i: int| 0 <= i < shown.len() implies #[trigger] pane.lines[i + 1]
            == plan_line(app.plan[i], app.theme) by {
            assert(shown[i] == app.plan[i]);
        }
    }
}

/// A plan entry is shown with its mark, in the colour of its progress.
pub proof fn plan_entries_show_their_progress(entry: PlanEntryModel, theme: Theme)
    ensures
        ({
            let shown = plan_line(entry, theme);
            &&& shown.spans.len() == 2
            &&& shown.spans[1].content == entry.content
            &&& entry.status == "completed"@ ==> shown.spans[0].content == "●"@ + " "@
                && shown.spans[0].style == Paint::Role(colored(theme.green))
            &&& entry.status == "in_progress"@ ==> shown.spans[0].content == "◌"@ + " "@
                && shown.spans[0].style == Paint::Role(colored(theme.yellow))
            &&& entry.status != "completed"@ && entry.status != "in_progress"@
                ==> shown.spans[0].content == "○"@ + " "@ && shown.spans[0].style == Paint::Role(
                theme.hint_role(),
            )
        }),
{
    reveal_strlit("completed");
    reveal_strlit("in_progress");
    assert("completed"@.len() != "in_progress"@.len());
}

/// The parts of a frame want their heights: the plan a row for its heading and one for
/// each of up to five entries, the popup a row for each of up to eight commands and its
/// frame, the input a row for each of up to six lines and its frame.
pub proof fn parts_want_their_heights(
    entries: nat,
    lines: nat,
    popup: CompletionModel,
)
    requires
        entries < 65536,
        lines < 65536,
    ensures
        plan_height(entries) == if entries == 0 {
            0
        } else if entries <= 5 {
            entries + 1
        } else {
            6
        },
        input_height(lines) == if lines == 0 {
            3
        } else if lines <= 6 {
            lines + 2
        } else {
            8
        },
        popup_height(None) == 0,
        popup_height(Some(popup)) == if popup.items.len() <= 8 {
            popup.items.len() + 2
        } else {
            10
        },
{
}

/// Each box says what it is, and is as large as its list wants it to be.
pub proof fn boxes_say_what_they_are(
    models: Seq<Seq<char>>,
    sessions: Seq<SessionMetaModel>,
    options: Seq<PermissionOptionModel>,
    title: Seq<char>,
    selected: nat,
    request: u64,
)
    requires
        models.len() < 65530,
        sessions.len() < 65530,
        options.len() < 65530,
    ensures
        ({
            let help = ModalModel::Help;
            let model = ModalModel::ModelPicker { items: models, selected };
            let session = ModalModel::SessionPicker { items: sessions, selected };
            let question = ModalModel::Permission { title, options, selected, request };
            &&& modal_title(help) == " help "@
            &&& modal_title(model) == " model "@
            &&& modal_title(session) == " sessions "@
            &&& modal_title(question) == " permission "@
            &&& modal_size(help) == (62u16, 24u16)
            &&& modal_size(model).0 == 44 && modal_size(model).1 == if models.len() <= 12 {
                models.len() + 2
            } else {
                14
            }
            &&& modal_size(session).0 == 64 && modal_size(session).1 == if sessions.len() <= 14 {
                sessions.len() + 2
            } else {
                16
            }
            &&& modal_size(question).0 == 64 && modal_size(question).1 == if options.len() <= 9 {
                options.len() + 5
            } else {
                14
            }
        }),
{
}

/// A box lists what there is to choose from, in order: models by their ids, sessions by
/// their titles, options by their names behind the letter that takes them.
pub proof fn boxes_list_what_there_is(
    models: Seq<Seq<char>>,
    sessions: Seq<SessionMetaModel>,
    options: Seq<PermissionOptionModel>,
    title: Seq<char>,
    selected: nat,
    request: u64,
)
    ensures
        modal_rows(ModalModel::ModelPicker { items: models, selected }) == models,
        ({
            let rows = modal_rows(ModalModel::SessionPicker { items: sessions, selected });
            &&& rows.len() == sessions.len()
            &&& forall|i: int| 0 <= i < rows.len() ==> #[trigger] rows[i] == sessions[i].title
        }),
        ({
            let rows = modal_rows(ModalModel::Permission { title, options, selected, request });
            &&& rows.len() == options.len()
            &&& forall|i: int|
                0 <= i < rows.len() ==> #[trigger] rows[i] == "["@ + option_key(options[i].kind)
                    + "] "@ + options[i].name
        }),
{
}

/// An option shows the letter that takes it.
pub proof fn options_show_their_letters(kind: Seq<char>)
    ensures
        kind == "allow_once"@ ==> option_key(kind) == "y"@,
        kind == "allow_always"@ ==> option_key(kind) == "a"@,
        kind == "reject_once"@ ==> option_key(kind) == "n"@,
        kind == "reject_always"@ ==> option_key(kind) == "N"@,
        kind == "other"@ ==> option_key(kind) == " "@,
{
    reveal_strlit("allow_once");
    reveal_strlit("allow_always");
    reveal_strlit("reject_once");
    reveal_strlit("reject_always");
    reveal_strlit("other");
    assert("allow_once"@.len() == 10 && "allow_always"@.len() == 12 && "reject_once"@.len() == 11
        && "reject_always"@.len() == 13 && "other"@.len() == 5);
}

/// A box shows its list with the highlight on the selected row, and a question above
/// its options; the help has no list.
pub proof fn boxes_show_their_lists(
    modal: ModalModel,
    theme: Theme,
    area: Rect,
    parts: Seq<Rect>,
)
    ensures
        ({
            let o = overlay_at(modal, theme, area, parts);
            &&& o.card.area == area
            &&& o.card.title.content == modal_title(modal)
            &&& modal is Help <==> o.list is None
            &&& modal is Help ==> o.card.lines == help_lines(theme)
            &&& !(modal is Help) ==> o.card.lines.len() == 0
            &&& o.list matches Some(list) ==> {
                &&& list.rows == modal_rows(modal)
                &&& list.marker == "› "@
                &&& list.highlight == theme.selected_role()
                &&& modal matches ModalModel::ModelPicker { selected, .. } ==> list.selected
                    == selected
                &&& modal matches ModalModel::SessionPicker { selected, .. } ==> list.selected
                    == selected
                &&& modal matches ModalModel::Permission { selected, .. } ==> list.selected
                    == selected
            }
            &&& modal is Permission <==> o.question is Some
            &&& modal matches ModalModel::Permission { title, .. } ==> o.question->0.text == title
                && o.question->0.area == parts[0] && o.list->0.area == parts[1]
        }),
{
}

/// Whether a line of the help explains this key, or this command.
pub open spec fn explains(l: LineModel, key: Seq<char>, what: Seq<char>) -> bool {
    &&& l.spans.len() == 2
    &&& key.len() <= 12 ==> l.spans[0].content.len() == 14
    &&& l.spans[0].content.len() >= key.len() + 2
    &&& l.spans[0].content.subrange(
        l.spans[0].content.len() - key.len() - 2,
        l.spans[0].content.len() - 2,
    ) == key
    &&& l.spans[1].content == what
}

/// The help explains thirteen keys, and below them every command.
pub proof fn the_help_explains_keys_and_commands(theme: Theme, i: int)
    ensures
        help_table().len() == 13,
        help_table()[0] == ("Enter"@, "send"@),
        help_table()[1] == ("Alt+Enter"@, "newline (also Ctrl+J)"@),
        help_table()[2] == ("Esc"@, "cancel turn / close modal"@),
        help_table()[3] == ("Ctrl+C"@, "cancel if busy, else quit"@),
        help_table()[4] == ("Ctrl+D"@, "quit (empty input)"@),
        help_table()[5] == ("Ctrl+T"@, "toggle chat/agent mode"@),
        help_table()[6] == ("Ctrl+O"@, "model picker"@),
        help_table()[7] == ("Ctrl+P"@, "session picker"@),
        help_table()[8] == ("Ctrl+N"@, "new session"@),
        help_table()[9] == ("Tab"@, "focus tool cards / expand"@),
        help_table()[10] == ("PgUp/PgDn"@, "scroll transcript"@),
        help_table()[11] == ("End"@, "follow live output"@),
        help_table()[12] == ("y/a/n/N"@, "answer permission prompts"@),
        help_lines(theme).len() == 15 + crate::commands::command_table().len(),
        0 <= i < 13 ==> explains(help_lines(theme)[i], help_table()[i].0, help_table()[i].1),
        0 <= i < crate::commands::command_table().len() ==> explains(
            help_lines(theme)[15 + i],
            offered_name(crate::commands::command_table()[i]),
            crate::commands::command_table()[i].help,
        ),
{
    reveal_strlit("  ");
    let t = crate::commands::command_table();
    if 0 <= i < 13 {
        let (key, what) = help_table()[i];
        assert(help_lines(theme)[i] == crate::ui::modal::help_line(key, what, theme));
        lemma_explains(key, what, theme);
    }
    if 0 <= i < t.len() {
        assert(help_lines(theme)[15 + i] == crate::ui::modal::help_line(
            offered_name(t[i]),
            t[i].help,
            theme,
        ));
        lemma_explains(offered_name(t[i]), t[i].help, theme);
    }
}

proof fn lemma_explains(key: Seq<char>, what: Seq<char>, theme: Theme)
    ensures
        explains(crate::ui::modal::help_line(key, what, theme), key, what),
{
    reveal_strlit("  ");
    let l = crate::ui::modal::help_line(key, what, theme);
    let text = l.spans[0].content;
    assert(text.subrange(text.len() - key.len() - 2, text.len() - 2) =~= key);
}

/// A row of the popup shows the command behind its slash, with the argument it takes, and
/// what it does; the selected one is marked.
pub proof fn popup_rows_show_their_commands(
    popup: CompletionModel,
    area: Rect,
    theme: Theme,
    k: int,
)
    requires
        popup.selected < popup.items.len(),
        0 <= k < popup_lines(popup, area, theme).len(),
    ensures
        ({
            let at = first_row(popup, (area.height - 2) as nat) + k;
            let c = popup.items[at];
            let row = popup_lines(popup, area, theme)[k];
            let name = if c.args.len() == 0 {
                seq!['/'] + c.name
            } else {
                seq!['/'] + c.name + seq![' '] + c.args
            };
            &&& area.height > 2
            &&& 0 <= at < popup.items.len()
            &&& row.spans[0].content == if at == popup.selected {
                "› "@
            } else {
                "  "@
            }
            &&& name.is_prefix_of(row.spans[1].content)
            &&& row.spans[2].content == c.help
        }),
{
    reveal_strlit("/");
    reveal_strlit(" ");
    assert("/"@ =~= seq!['/']);
    assert(" "@ =~= seq![' ']);
    let at = first_row(popup, (area.height - 2) as nat) + k;
    let c = popup.items[at];
    let row = popup_lines(popup, area, theme)[k];
    assert(row == popup_line(c, at == popup.selected, name_columns(popup.items), area.width, theme));
    let name = offered_name(c);
    assert(row.spans[1].content.take(name.len() as int) =~= name);
}

/// The popup is shown while it is open, and names itself.
pub proof fn the_popup_is_shown_while_open(app: AppModel, area: Rect)
    ensures
        app.completion is None <==> popup_card(app, area) is None,
        popup_card(app, area) matches Some(card) ==> card.area == area && card.title.content
            == " commands "@ && card.lines == popup_lines(app.completion->0, area, app.theme),
{
}

/// The input is framed in the accent colour while it takes messages, and in a muted one
/// while a turn is running.
pub proof fn the_input_shows_whether_it_is_taken(
    app: AppModel,
    areas: Seq<Rect>,
)
    ensures
        ({
            let screen = screen_at(app, areas, None);
            &&& app.busy ==> screen.input.border.fg == Some(app.theme.muted)
            &&& !app.busy ==> screen.input.border.fg == Some(app.theme.accent)
            &&& screen.transcript.area == areas[0]
            &&& screen.input.area == areas[3]
            &&& screen.status.area == areas[4]
            &&& screen.transcript.wrap
            &&& screen.status.lines == seq![status_line(app, areas[4].width)]
        }),
{
}

/// A box is drawn inside the screen and in its middle, give or take a cell, in the size
/// that it wants, or in that of the screen where that is smaller.
pub proof fn boxes_stand_in_the_middle(
    modal: ModalModel,
    theme: Theme,
    screen: Rect,
    o: OverlayModel,
)
    requires
        drawn_at(modal, theme, screen, o),
    ensures
        ({
            let place = o.card.area;
            let left = place.x - screen.x;
            let right = screen.x + screen.width - place.x - place.width;
            let above = place.y - screen.y;
            let below = screen.y + screen.height - place.y - place.height;
            &&& left >= 0 && right >= 0 && above >= 0 && below >= 0
            &&& left - right <= 1 && right - left <= 1
            &&& above - below <= 1 && below - above <= 1
            &&& place.width == modal_size(modal).0 || place.width == screen.width
            &&& place.width <= modal_size(modal).0
            &&& place.height == modal_size(modal).1 || place.height == screen.height
            &&& place.height <= modal_size(modal).1
        }),
{
}

proof fn lemma_longest(items: Seq<CommandModel>, i: int)
    requires
        0 <= i < items.len(),
    ensures
        items[i].name.len() + items[i].args.len() <= longest(items),
    decreases items.len(),
{
    if i < items.len() - 1 {
        lemma_longest(items.drop_last(), i);
        assert(items.drop_last()[i] == items[i]);
    }
}

/// In the popup what the commands do stands in one column, behind the longest of their
/// names.
pub proof fn popup_columns_are_aligned(
    items: Seq<CommandModel>,
    i: int,
    selected: bool,
    width: u16,
    theme: Theme,
)
    requires
        0 <= i < items.len(),
    ensures
        ({
            let row = popup_line(items[i], selected, name_columns(items), width, theme);
            &&& row.spans[1].content.len() == name_columns(items)
            &&& offered_name(items[i]).len() < name_columns(items)
        }),
{
    reveal_strlit("/");
    reveal_strlit(" ");
    lemma_longest(items, i);
}

/// The marks that can begin an item of a list are counted one by one.
pub proof fn list_marks_are_counted(source: Seq<char>, c: char)
    ensures
        item_marks(Seq::empty()) == 0,
        item_marks(source.push(c)) == item_marks(source) + if c == '-' || c == '+' || c == '*' || c
            == '.' || c == ')' {
            1int
        } else {
            0
        },
{
    assert(source.push(c).drop_last() =~= source);
}

/// What was rendered is kept: shown again it is the same, whatever else was shown in
/// between, and a later revision is rendered anew.
pub proof fn renders_are_kept_until_they_change(
    cache: CacheModel,
    id: u64,
    revision: u64,
    source: Seq<char>,
    other: u64,
    later: u64,
    changed: Seq<char>,
)
    requires
        other != id,
        later != revision,
    ensures
        ({
            let once = cache_after(cache, id, revision, source);
            let meanwhile = cache_after(once, other, later, changed);
            &&& shown_markdown(once, id, revision, source) == shown_markdown(
                cache,
                id,
                revision,
                source,
            )
            &&& shown_markdown(meanwhile, id, revision, source) == shown_markdown(
                cache,
                id,
                revision,
                source,
            )
            &&& shown_markdown(once, id, later, changed) == rendered(changed)
        }),
{
}

/// The transcript can be scrolled until its last row is at the bottom of its pane, and
/// not at all where it fits.
pub proof fn scrolling_ends_at_the_last_row(text: Seq<LineModel>, area: Rect)
    requires
        rows_of(rested(text, area), area.width) <= 65535,
    ensures
        rows_of(rested(text, area), area.width) > area.height ==> max_scroll(text, area)
            + area.height == rows_of(rested(text, area), area.width),
        rows_of(rested(text, area), area.width) <= area.height ==> max_scroll(text, area) == 0,
{
}

} // verus!
