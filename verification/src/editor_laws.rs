//! What editing does to the input.

use crate::editor::EditorModel;
use vstd::prelude::*;

verus! {

/// Whether the cursor is in the text.
pub open spec fn has_cursor(editor: EditorModel) -> bool {
    let (row, column) = editor.cursor;
    row < editor.lines.len() && column <= editor.lines[row as int].len()
}

/// A character goes in where the cursor is, which goes behind it: what was before the
/// cursor and what was behind it stay, and so does every other line.
pub proof fn characters_go_in_at_the_cursor(editor: EditorModel, c: char)
    requires
        has_cursor(editor),
    ensures
        ({
            let after = editor.inserted(c);
            let (row, column) = editor.cursor;
            let old_line = editor.lines[row as int];
            let new_line = after.lines[row as int];
            &&& after.lines.len() == editor.lines.len()
            &&& new_line.len() == old_line.len() + 1
            &&& new_line[column as int] == c
            &&& new_line.take(column as int) == old_line.take(column as int)
            &&& new_line.skip(column as int + 1) == old_line.skip(column as int)
            &&& forall|i: int|
                0 <= i < editor.lines.len() && i != row ==> #[trigger] after.lines[i]
                    == editor.lines[i]
            &&& after.cursor == (row, column + 1)
            &&& !after.selecting
            &&& has_cursor(after)
        }),
{
    let after = editor.inserted(c);
    let (row, column) = editor.cursor;
    let old_line = editor.lines[row as int];
    let new_line = after.lines[row as int];
    assert(new_line.take(column as int) =~= old_line.take(column as int));
    assert(new_line.skip(column as int + 1) =~= old_line.skip(column as int));
}

/// A line break makes two lines of one, at the cursor, which goes to the start of the
/// second; nothing is lost, and the other lines stay in their order.
pub proof fn lines_are_broken_at_the_cursor(editor: EditorModel)
    requires
        has_cursor(editor),
    ensures
        ({
            let after = editor.broken();
            let (row, column) = editor.cursor;
            &&& after.lines.len() == editor.lines.len() + 1
            &&& after.lines[row as int].len() == column
            &&& after.lines[row as int] + after.lines[row as int + 1] == editor.lines[row as int]
            &&& after.lines.take(row as int) == editor.lines.take(row as int)
            &&& after.lines.skip(row as int + 2) == editor.lines.skip(row as int + 1)
            &&& after.cursor == (row + 1, 0nat)
            &&& !after.selecting
            &&& has_cursor(after)
        }),
{
    let after = editor.broken();
    let (row, column) = editor.cursor;
    assert(after.lines[row as int] + after.lines[row as int + 1] =~= editor.lines[row as int]);
    assert(after.lines.take(row as int) =~= editor.lines.take(row as int));
    assert(after.lines.skip(row as int + 2) =~= editor.lines.skip(row as int + 1));
}

/// An input line that is empty, or that holds one text, has the cursor where it says.
pub proof fn one_line_is_one_line(text: Seq<char>, column: nat)
    ensures
        EditorModel::one_line(text, column).lines == seq![text],
        EditorModel::one_line(text, column).cursor == (0nat, column),
        !EditorModel::one_line(text, column).selecting,
        EditorModel::empty().lines == seq![Seq::<char>::empty()],
        EditorModel::empty().cursor == (0nat, 0nat),
{
}

} // verus!
