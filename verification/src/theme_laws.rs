//! What holds of colours.

use crate::text::{blank, white_space};
use crate::text_laws::{leading_runs_go, tight, trimming_takes_white_space_off};
use crate::theme::{color_or, hex_value, place_value, Color, Colors, TextStyle, Theme};
use vstd::prelude::*;

verus! {

/// The lower-case digit for a value below sixteen.
pub open spec fn lower_digit(v: int) -> char {
    if v < 10 {
        ('0' as u8 + v) as u8 as char
    } else {
        ('a' as u8 + (v - 10)) as u8 as char
    }
}

/// The upper-case digit for a value below sixteen.
pub open spec fn upper_digit(v: int) -> char {
    if v < 10 {
        ('0' as u8 + v) as u8 as char
    } else {
        ('A' as u8 + (v - 10)) as u8 as char
    }
}

/// Whether the character is a hexadecimal digit of this value, in either case.
pub open spec fn is_digit_of(c: char, v: int) -> bool {
    0 <= v < 16 && (c == lower_digit(v) || c == upper_digit(v))
}

proof fn lemma_digit(c: char, v: int)
    requires
        is_digit_of(c, v),
    ensures
        hex_value(c) == Some(v),
        !white_space(c),
        c != '#' && c != '+',
{
}

/// Six hexadecimal digits name a colour: two each for red, green and blue, in either
/// case, with or without a hash in front and white space around.
pub proof fn six_digits_name_a_colour(
    before: Seq<char>,
    hashes: nat,
    digits: Seq<char>,
    after: Seq<char>,
    red: u8,
    green: u8,
    blue: u8,
    fallback: Color,
)
    requires
        blank(before) && blank(after),
        digits.len() == 6,
        is_digit_of(digits[0], red as int / 16) && is_digit_of(digits[1], red as int % 16),
        is_digit_of(digits[2], green as int / 16) && is_digit_of(digits[3], green as int % 16),
        is_digit_of(digits[4], blue as int / 16) && is_digit_of(digits[5], blue as int % 16),
    ensures
        color_or(
            Some(before + (Seq::new(hashes, |i: int| '#') + digits) + after),
            fallback,
        ) == Color::Rgb(red, green, blue),
{
    lemma_digit(digits[0], red as int / 16);
    lemma_digit(digits[1], red as int % 16);
    lemma_digit(digits[2], green as int / 16);
    lemma_digit(digits[3], green as int % 16);
    lemma_digit(digits[4], blue as int / 16);
    lemma_digit(digits[5], blue as int % 16);
    let core = Seq::new(hashes, |i: int| '#') + digits;
    assert(core.last() == digits[5]);
    assert(hashes > 0 ==> core[0] == '#');
    assert(hashes == 0 ==> core[0] == digits[0]);
    assert(!white_space('#'));
    trimming_takes_white_space_off(before, core, after);
    leading_runs_go(hashes, '#', digits);
    assert forall|i: int| 0 <= i < 6 implies #[trigger] place_value(digits, i) is Some by {
        assert(i == 0 || i == 1 || i == 2 || i == 3 || i == 4 || i == 5);
    }
}

/// Where no colour is named, or what is named is not one, the terminal's own is used.
pub proof fn other_names_fall_back(
    before: Seq<char>,
    text: Seq<char>,
    after: Seq<char>,
    fallback: Color,
)
    requires
        blank(before) && blank(after) && tight(text),
        text.len() > 0 ==> text[0] != '#',
        text.len() != 6 || exists|i: int|
            0 < i < 6 && !('0' <= #[trigger] text[i] <= '9' || 'a' <= text[i] <= 'f' || 'A'
                <= text[i] <= 'F'),
    ensures
        color_or(Some(before + text + after), fallback) == fallback,
        color_or(None, fallback) == fallback,
{
    trimming_takes_white_space_off(before, text, after);
    let nothing = Seq::<char>::empty();
    leading_runs_go(0, '#', text);
    assert(Seq::new(0, |i: int| '#') + text =~= text);
    if text.len() == 6 {
        let i = choose|i: int|
            0 < i < 6 && !('0' <= #[trigger] text[i] <= '9' || 'a' <= text[i] <= 'f' || 'A'
                <= text[i] <= 'F');
        assert(hex_value(text[i]) is None);
        assert(place_value(text, i) is None);
    }
}

/// What each kind of text looks like.
pub proof fn texts_have_their_colours(theme: Theme)
    ensures
        ({
            let plain = TextStyle { fg: None, bg: None, bold: false, italic: false, dim: false };
            &&& theme.body_role() == (TextStyle { fg: Some(theme.foreground), ..plain })
            &&& theme.user_role() == (TextStyle {
                fg: Some(theme.bright_foreground),
                bold: true,
                ..plain
            })
            &&& theme.hint_role() == (TextStyle { fg: Some(theme.muted), ..plain })
            &&& theme.accent_role() == (TextStyle { fg: Some(theme.accent), ..plain })
            &&& theme.error_role() == (TextStyle { fg: Some(theme.red), ..plain })
            &&& theme.thought_role() == (TextStyle {
                fg: Some(theme.magenta),
                italic: true,
                dim: true,
                ..plain
            })
            &&& theme.selected_role() == (TextStyle {
                fg: Some(theme.bright_foreground),
                bg: Some(theme.selection),
                ..plain
            })
            &&& theme.card_role() == (TextStyle { bg: Some(theme.lighter_background), ..plain })
        }),
{
}

/// The colours that a theme file names are used each in its own place, and the terminal's
/// own in the place of those that it does not name.
pub proof fn colours_stay_in_their_place(theme: Theme, file: Colors, ansi: Theme)
    requires
        theme.is_themed(file),
        ansi.is_ansi(),
    ensures
        theme.accent == color_or(file.accent.deep_view(), ansi.accent),
        theme.selection == color_or(file.selection.deep_view(), ansi.selection),
        theme.muted == color_or(file.muted.deep_view(), ansi.muted),
        theme.background == color_or(file.background.deep_view(), ansi.background),
        theme.darker_background == color_or(
            file.darker_background.deep_view(),
            ansi.darker_background,
        ),
        theme.lighter_background == color_or(
            file.lighter_background.deep_view(),
            ansi.lighter_background,
        ),
        theme.foreground == color_or(file.foreground.deep_view(), ansi.foreground),
        theme.dark_foreground == color_or(file.dark_foreground.deep_view(), ansi.dark_foreground),
        theme.bright_foreground == color_or(
            file.bright_foreground.deep_view(),
            ansi.bright_foreground,
        ),
        theme.red == color_or(file.red.deep_view(), ansi.red),
        theme.yellow == color_or(file.yellow.deep_view(), ansi.yellow),
        theme.green == color_or(file.green.deep_view(), ansi.green),
        theme.magenta == color_or(file.magenta.deep_view(), ansi.magenta),
        theme.cyan == color_or(file.cyan.deep_view(), ansi.cyan),
        ansi.name@ == "terminal"@,
        ansi.red == Color::Red && ansi.yellow == Color::Yellow && ansi.green == Color::Green,
        ansi.magenta == Color::Magenta && ansi.cyan == Color::Cyan && ansi.accent == Color::Blue,
        ansi.background == Color::Reset && ansi.foreground == Color::Reset,
        ansi.muted == Color::DarkGray && ansi.bright_foreground == Color::White,
{
}

} // verus!
