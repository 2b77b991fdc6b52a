//! The input line: a text area that edits itself on key strokes.

use crate::event::{KeyCode, KeyEvent};
use ratatui_textarea::{CursorMove, Input, Key, TextArea};
use vstd::prelude::*;

verus! {

/// The input's text area. Its lines are named by [`editor_lines`], its cursor by
/// [`editor_cursor`] and whether text is being selected by [`editor_selecting`]; the
/// undo history and the text that was cut stay inside.
#[verifier::external_body]
pub struct Editor {
    pub area: TextArea<'static>,
}

/// The lines that `TextArea::lines` reports.
pub uninterp spec fn editor_lines(editor: Editor) -> Seq<Seq<char>>;

/// The row and the column that `TextArea::cursor` reports, in characters.
pub uninterp spec fn editor_cursor(editor: Editor) -> (nat, nat);

/// What `TextArea::is_selecting` reports.
pub uninterp spec fn editor_selecting(editor: Editor) -> bool;

/// The text area after `TextArea::input` has taken the key.
pub uninterp spec fn editor_after_key(editor: Editor, key: KeyEvent) -> Editor;

/// The text area after `TextArea::insert_newline`.
pub uninterp spec fn editor_after_newline(editor: Editor) -> Editor;

pub struct EditorModel {
    pub lines: Seq<Seq<char>>,
    /// Row and column, in characters.
    pub cursor: (nat, nat),
    pub selecting: bool,
}

impl View for Editor {
    type V = EditorModel;

    open spec fn view(&self) -> EditorModel {
        EditorModel {
            lines: editor_lines(*self),
            cursor: editor_cursor(*self),
            selecting: editor_selecting(*self),
        }
    }
}

/// Whether every line is empty or white space.
pub open spec fn is_blank(lines: Seq<Seq<char>>) -> bool {
    forall|i: int| 0 <= i < lines.len() ==> crate::text::trimmed(#[trigger] lines[i]).len() == 0
}

impl EditorModel {
    /// One line, with the cursor in this column.
    pub open spec fn one_line(text: Seq<char>, column: nat) -> EditorModel {
        EditorModel { lines: seq![text], cursor: (0, column), selecting: false }
    }

    /// Nothing: one empty line.
    pub open spec fn empty() -> EditorModel {
        EditorModel::one_line(Seq::empty(), 0)
    }

    /// The line that the cursor is on.
    pub open spec fn current_line(self) -> Seq<char> {
        self.lines[self.cursor.0 as int]
    }

    /// The character is put in at the cursor, which goes behind it.
    pub open spec fn inserted(self, c: char) -> EditorModel {
        let (row, column) = self.cursor;
        let line = self.current_line();
        EditorModel {
            lines: self.lines.update(
                row as int,
                line.take(column as int).push(c) + line.skip(column as int),
            ),
            cursor: (row, column + 1),
            selecting: false,
        }
    }

    /// The line is broken in two at the cursor, which goes to the start of the second.
    pub open spec fn broken(self) -> EditorModel {
        let (row, column) = self.cursor;
        let line = self.current_line();
        EditorModel {
            lines: self.lines.update(row as int, line.take(column as int)).insert(
                row as int + 1,
                line.skip(column as int),
            ),
            cursor: (row + 1, 0),
            selecting: false,
        }
    }
}

/// Whether the key stands for a character that is put into the text.
pub open spec fn is_text(key: KeyEvent) -> bool {
    key.code matches KeyCode::Char(c) && c != '\n' && c != '\r' && !key.ctrl && !key.alt
}

/// The input after a key: a character is put in at the cursor, Home and End go to the
/// ends of the line. What other keys do, and what becomes of a selection that is typed
/// over, is left to the text area.
pub open spec fn typed(editor: Editor, key: KeyEvent) -> EditorModel {
    if is_text(key) && !editor@.selecting {
        editor@.inserted(key.code->Char_0)
    } else if key.code == KeyCode::Home {
        EditorModel { cursor: (editor@.cursor.0, 0), selecting: key.shift, ..editor@ }
    } else if key.code == KeyCode::End {
        EditorModel {
            cursor: (editor@.cursor.0, editor@.current_line().len()),
            selecting: key.shift,
            ..editor@
        }
    } else {
        editor_after_key(editor, key)@
    }
}

/// The input after a line break: the line is broken at the cursor. What becomes of a
/// selection is left to the text area.
pub open spec fn broken(editor: Editor) -> EditorModel {
    if !editor@.selecting {
        editor@.broken()
    } else {
        editor_after_newline(editor)@
    }
}

impl Editor {
    /// `TextArea::default`: one empty line, with the cursor on it, and no selection.
    #[verifier::external_body]
    fn empty_area() -> (e: Editor)
        ensures
            editor_lines(e) == seq![Seq::<char>::empty()],
            editor_cursor(e) == (0nat, 0nat),
            !editor_selecting(e),
    {
        Editor { area: TextArea::default() }
    }

    /// `TextArea::new` with one line: the area holds that line, with the cursor before
    /// it, and no selection.
    #[verifier::external_body]
    fn area_with(line: String) -> (e: Editor)
        ensures
            editor_lines(e) == seq![line@],
            editor_cursor(e) == (0nat, 0nat),
            !editor_selecting(e),
    {
        Editor { area: TextArea::new(vec![line]) }
    }

    /// `TextArea::set_cursor_line_style` with the default style: the line that
    /// holds the cursor is drawn like the others. Lines, cursor and selection stay as
    /// they are.
    #[verifier::external_body]
    fn plain_cursor_line(&mut self)
        ensures
            editor_lines(*final(self)) == editor_lines(*old(self)),
            editor_cursor(*final(self)) == editor_cursor(*old(self)),
            editor_selecting(*final(self)) == editor_selecting(*old(self)),
    {
        self.area.set_cursor_line_style(ratatui::style::Style::default());
    }

    /// `TextArea::move_cursor` to the end of the line: the cursor stays in its row
    /// and goes behind the last character there. The lines stay as they are, and text
    /// is being selected if it was before.
    #[verifier::external_body]
    fn cursor_to_end(&mut self)
        ensures
            editor_lines(*final(self)) == editor_lines(*old(self)),
            editor_cursor(*final(self)) == (
                editor_cursor(*old(self)).0,
                editor_lines(*old(self))[editor_cursor(*old(self)).0 as int].len(),
            ),
            editor_selecting(*final(self)) == editor_selecting(*old(self)),
    {
        self.area.move_cursor(CursorMove::End);
    }

    /// `TextArea::insert_newline`: the resulting text area is named by
    /// [`editor_after_newline`]. Without a selection, the line is broken at the cursor.
    #[verifier::external_body]
    fn area_newline(&mut self)
        ensures
            *final(self) == editor_after_newline(*old(self)),
            !old(self)@.selecting ==> final(self)@ == old(self)@.broken(),
    {
        self.area.insert_newline();
    }

    /// `TextArea::input`: the resulting text area is named by [`editor_after_key`].
    /// Without a selection, a character is put in at the cursor. Home and End move the
    /// cursor in its line, and select with shift.
    #[verifier::external_body]
    fn area_input(&mut self, key: KeyEvent)
        ensures
            *final(self) == editor_after_key(*old(self), key),
            is_text(key) && !old(self)@.selecting ==> final(self)@ == old(self)@.inserted(
                key.code->Char_0,
            ),
            key.code == KeyCode::Home ==> final(self)@ == (EditorModel {
                cursor: (old(self)@.cursor.0, 0),
                selecting: key.shift,
                ..old(self)@
            }),
            key.code == KeyCode::End ==> final(self)@ == (EditorModel {
                cursor: (old(self)@.cursor.0, old(self)@.current_line().len()),
                selecting: key.shift,
                ..old(self)@
            }),
    {
        let code = match key.code {
            KeyCode::Char(c) => Key::Char(c), KeyCode::F(n) => Key::F(n),
            KeyCode::Backspace => Key::Backspace, KeyCode::Enter => Key::Enter,
            KeyCode::Left => Key::Left, KeyCode::Right => Key::Right,
            KeyCode::Up => Key::Up, KeyCode::Down => Key::Down,
            KeyCode::Home => Key::Home, KeyCode::End => Key::End,
            KeyCode::PageUp => Key::PageUp, KeyCode::PageDown => Key::PageDown,
            KeyCode::Tab | KeyCode::BackTab => Key::Tab, KeyCode::Delete => Key::Delete,
            KeyCode::Esc => Key::Esc, KeyCode::Other => Key::Null,
        };
        self.area.input(Input { key: code, ctrl: key.ctrl, alt: key.alt, shift: key.shift });
    }

    /// A line break at the cursor.
    pub fn insert_newline(&mut self)
        ensures
            final(self)@ == broken(*old(self)),
            *final(self) == editor_after_newline(*old(self)),
    {
        self.area_newline();
    }

    /// A key for the text.
    pub fn type_key(&mut self, key: KeyEvent)
        ensures
            final(self)@ == typed(*old(self), key),
            *final(self) == editor_after_key(*old(self), key),
    {
        self.area_input(key);
    }

    /// `TextArea::lines`: the lines, of which there is always at least one.
    #[verifier::external_body]
    pub fn lines(&self) -> (lines: Vec<String>)
        ensures
            lines.deep_view() == editor_lines(*self),
            lines.len() > 0,
    {
        self.area.lines().to_vec()
    }

    /// An input without text.
    pub fn empty() -> (e: Editor)
        ensures
            e@ == EditorModel::empty(),
    {
        let mut e = Editor::empty_area();
        e.plain_cursor_line();
        e
    }

    /// An input that holds `text`, with the cursor behind it.
    pub fn with_text(text: String) -> (e: Editor)
        ensures
            e@ == EditorModel::one_line(text@, text@.len()),
    {
        let mut e = Editor::area_with(text);
        e.plain_cursor_line();
        e.cursor_to_end();
        e
    }

    /// Whether every line is empty or white space.
    pub fn is_blank(&self) -> (r: bool)
        ensures
            r == is_blank(self@.lines),
    {
        let lines = self.lines();
        let mut i: usize = 0;
        while i < lines.len()
            invariant
                i <= lines.len(),
                lines.deep_view() == self@.lines,
                forall|k: int| 0 <= k < i ==> crate::text::trimmed(#[trigger] self@.lines[k]).len() == 0,
            decreases lines.len() - i,
        {
            let line = crate::text::trim(lines[i].as_str());
            assert(self@.lines[i as int] == lines[i as int]@);
            if !line.as_str().is_empty() {
                return false;
            }
            i += 1;
        }
        true
    }
}

} // verus!
