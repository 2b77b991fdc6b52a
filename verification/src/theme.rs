//! Colours and the roles they play.

use crate::paths::{in_base, under_base};
use crate::text;
use crate::text::{trimmed, without_leading};
use vstd::prelude::*;

verus! {

/// A terminal colour.
#[derive(Debug, Clone, Copy, PartialEq, Eq, Structural)]
pub enum Color {
    Reset,
    Red,
    Green,
    Yellow,
    Blue,
    Magenta,
    Cyan,
    DarkGray,
    White,
    Rgb(u8, u8, u8),
}

/// Colours and emphasis of a run of text.
#[derive(Debug, Clone, Copy, PartialEq, Eq, Structural)]
pub struct TextStyle {
    pub fg: Option<Color>,
    pub bg: Option<Color>,
    pub bold: bool,
    pub italic: bool,
    pub dim: bool,
}

impl TextStyle {
    /// Nothing set.
    pub open spec fn plain_style() -> TextStyle {
        TextStyle { fg: None, bg: None, bold: false, italic: false, dim: false }
    }

    /// Nothing set.
    pub fn plain() -> (s: TextStyle)
        ensures
            s == TextStyle::plain_style(),
    {
        TextStyle { fg: None, bg: None, bold: false, italic: false, dim: false }
    }
}

/// Semantic palette of an omarchy theme, with the terminal's own sixteen
/// colours as the fallback.
#[derive(Debug, Clone)]
pub struct Theme {
    pub name: String,
    pub accent: Color,
    pub selection: Color,
    pub muted: Color,
    pub background: Color,
    pub darker_background: Color,
    pub lighter_background: Color,
    pub foreground: Color,
    pub dark_foreground: Color,
    pub bright_foreground: Color,
    pub red: Color,
    pub yellow: Color,
    pub green: Color,
    pub magenta: Color,
    pub cyan: Color,
}

/// The colours that a theme file names, each optional.
#[derive(Debug, Clone)]
pub struct Colors {
    pub accent: Option<String>,
    pub selection: Option<String>,
    pub muted: Option<String>,
    pub background: Option<String>,
    pub darker_background: Option<String>,
    pub lighter_background: Option<String>,
    pub foreground: Option<String>,
    pub dark_foreground: Option<String>,
    pub bright_foreground: Option<String>,
    pub red: Option<String>,
    pub yellow: Option<String>,
    pub green: Option<String>,
    pub magenta: Option<String>,
    pub cyan: Option<String>,
}

/// The value of a hexadecimal digit.
pub open spec fn hex_value(c: char) -> Option<int> {
    if '0' <= c <= '9' {
        Some(c as int - '0' as int)
    } else if 'a' <= c <= 'f' {
        Some(c as int - 'a' as int + 10)
    } else if 'A' <= c <= 'F' {
        Some(c as int - 'A' as int + 10)
    } else {
        None
    }
}

/// The value of a digit of a colour, where a plus sign in front counts nothing.
pub open spec fn place_value(h: Seq<char>, i: int) -> Option<int> {
    if i == 0 && h[0] == '+' {
        Some(0)
    } else {
        hex_value(h[i])
    }
}

/// The colour that six hexadecimal digits name, after any number of `#`.
pub open spec fn named_color(s: Seq<char>) -> Option<Color> {
    let h = without_leading(trimmed(s), '#');
    if h.len() == 6 && (forall|i: int| 0 <= i < 6 ==> #[trigger] place_value(h, i) is Some) {
        Some(
            Color::Rgb(
                (place_value(h, 0)->0 * 16 + place_value(h, 1)->0) as u8,
                (place_value(h, 2)->0 * 16 + place_value(h, 3)->0) as u8,
                (place_value(h, 4)->0 * 16 + place_value(h, 5)->0) as u8,
            ),
        )
    } else {
        None
    }
}

/// The colour that the text names, or else the fallback.
pub open spec fn color_or(s: Option<Seq<char>>, fallback: Color) -> Color {
    match s {
        None => fallback,
        Some(s) => match named_color(s) {
            Some(c) => c,
            None => fallback,
        },
    }
}

/// The value of a hexadecimal digit.
fn hex_digit(c: char) -> (r: Option<u8>)
    ensures
        match hex_value(c) {
            Some(v) => r is Some && r->0 == v && v < 16,
            None => r is None,
        },
{
    if '0' <= c && c <= '9' {
        Some((c as u32 - '0' as u32) as u8)
    } else if 'a' <= c && c <= 'f' {
        Some((c as u32 - 'a' as u32) as u8 + 10)
    } else if 'A' <= c && c <= 'F' {
        Some((c as u32 - 'A' as u32) as u8 + 10)
    } else {
        None
    }
}

/// The value of one digit of a colour.
fn place(h: &Vec<char>, i: usize) -> (r: Option<u8>)
    requires
        i < h.len(),
    ensures
        match place_value(h@, i as int) {
            Some(v) => r is Some && r->0 == v && v < 16,
            None => r is None,
        },
{
    if i == 0 && h[0] == '+' {
        Some(0)
    } else {
        hex_digit(h[i])
    }
}

/// The colour that the text names, or else the fallback.
pub fn hex(s: &Option<String>, fallback: Color) -> (c: Color)
    ensures
        c == color_or(s.deep_view(), fallback),
{
    let s = match s {
        Some(s) => s,
        None => {
            return fallback;
        },
    };
    let bare = text::trim(s.as_str());
    let digits = text::strip_leading(bare.as_str(), '#');
    let h = text::chars_of(digits.as_str());
    if h.len() != 6 {
        return fallback;
    }
    let (a, b) = (place(&h, 0), place(&h, 1));
    let (c, d) = (place(&h, 2), place(&h, 3));
    let (e, f) = (place(&h, 4), place(&h, 5));
    match (a, b, c, d, e, f) {
        (Some(a), Some(b), Some(c), Some(d), Some(e), Some(f)) => {
            proof {
                assert forall|i: int| 0 <= i < 6 implies #[trigger] place_value(h@, i) is Some by {
                    assert(i == 0 || i == 1 || i == 2 || i == 3 || i == 4 || i == 5);
                }
            }
            Color::Rgb(a * 16 + b, c * 16 + d, e * 16 + f)
        },
        _ => {
            proof {
                assert(!(place_value(h@, 0) is Some && place_value(h@, 1) is Some && place_value(
                    h@,
                    2,
                ) is Some && place_value(h@, 3) is Some && place_value(h@, 4) is Some
                    && place_value(h@, 5) is Some));
            }
            fallback
        },
    }
}

/// Text in this colour.
pub open spec fn colored(c: Color) -> TextStyle {
    TextStyle { fg: Some(c), ..TextStyle::plain_style() }
}

fn color(c: Color) -> (s: TextStyle)
    ensures
        s == colored(c),
{
    TextStyle { fg: Some(c), bg: None, bold: false, italic: false, dim: false }
}

impl Theme {
    /// Whether every colour is the terminal's own.
    pub open spec fn is_ansi(self) -> bool {
        &&& self.name@ == "terminal"@
        &&& self.accent == Color::Blue
        &&& self.selection == Color::DarkGray
        &&& self.muted == Color::DarkGray
        &&& self.background == Color::Reset
        &&& self.darker_background == Color::Reset
        &&& self.lighter_background == Color::Reset
        &&& self.foreground == Color::Reset
        &&& self.dark_foreground == Color::DarkGray
        &&& self.bright_foreground == Color::White
        &&& self.red == Color::Red
        &&& self.yellow == Color::Yellow
        &&& self.green == Color::Green
        &&& self.magenta == Color::Magenta
        &&& self.cyan == Color::Cyan
    }

    /// Whether each colour is the one the file names, or else the terminal's own.
    pub open spec fn is_themed(self, colors: Colors) -> bool {
        &&& self.accent == color_or(colors.accent.deep_view(), Color::Blue)
        &&& self.selection == color_or(colors.selection.deep_view(), Color::DarkGray)
        &&& self.muted == color_or(colors.muted.deep_view(), Color::DarkGray)
        &&& self.background == color_or(colors.background.deep_view(), Color::Reset)
        &&& self.darker_background == color_or(colors.darker_background.deep_view(), Color::Reset)
        &&& self.lighter_background == color_or(
            colors.lighter_background.deep_view(),
            Color::Reset,
        )
        &&& self.foreground == color_or(colors.foreground.deep_view(), Color::Reset)
        &&& self.dark_foreground == color_or(colors.dark_foreground.deep_view(), Color::DarkGray)
        &&& self.bright_foreground == color_or(colors.bright_foreground.deep_view(), Color::White)
        &&& self.red == color_or(colors.red.deep_view(), Color::Red)
        &&& self.yellow == color_or(colors.yellow.deep_view(), Color::Yellow)
        &&& self.green == color_or(colors.green.deep_view(), Color::Green)
        &&& self.magenta == color_or(colors.magenta.deep_view(), Color::Magenta)
        &&& self.cyan == color_or(colors.cyan.deep_view(), Color::Cyan)
    }

    /// The fallback theme: the terminal's own palette.
    pub fn ansi() -> (t: Self)
        ensures
            t.is_ansi(),
    {
        Theme {
            name: "terminal".to_string(),
            accent: Color::Blue,
            selection: Color::DarkGray,
            muted: Color::DarkGray,
            background: Color::Reset,
            darker_background: Color::Reset,
            lighter_background: Color::Reset,
            foreground: Color::Reset,
            dark_foreground: Color::DarkGray,
            bright_foreground: Color::White,
            red: Color::Red,
            yellow: Color::Yellow,
            green: Color::Green,
            magenta: Color::Magenta,
            cyan: Color::Cyan,
        }
    }

    /// The active theme, from the text of its name file and from its colours, or
    /// the fallback where there are no colours to be had.
    pub fn load(name: Option<String>, colors: Option<Colors>) -> (t: Self)
        ensures
            match colors {
                None => t.is_ansi(),
                Some(c) => t.is_themed(c) && t.name@ == match name {
                    Some(n) => trimmed(n@),
                    None => "terminal"@,
                },
            },
    {
        let f = Theme::ansi();
        let c = match colors {
            Some(c) => c,
            None => {
                return f;
            },
        };
        let name = match name {
            Some(n) => text::trim(n.as_str()),
            None => "terminal".to_string(),
        };
        Theme {
            name,
            accent: hex(&c.accent, f.accent),
            selection: hex(&c.selection, f.selection),
            muted: hex(&c.muted, f.muted),
            background: hex(&c.background, f.background),
            darker_background: hex(&c.darker_background, f.darker_background),
            lighter_background: hex(&c.lighter_background, f.lighter_background),
            foreground: hex(&c.foreground, f.foreground),
            dark_foreground: hex(&c.dark_foreground, f.dark_foreground),
            bright_foreground: hex(&c.bright_foreground, f.bright_foreground),
            red: hex(&c.red, f.red),
            yellow: hex(&c.yellow, f.yellow),
            green: hex(&c.green, f.green),
            magenta: hex(&c.magenta, f.magenta),
            cyan: hex(&c.cyan, f.cyan),
        }
    }

    pub open spec fn body_role(self) -> TextStyle {
        colored(self.foreground)
    }

    pub open spec fn user_role(self) -> TextStyle {
        TextStyle { bold: true, ..colored(self.bright_foreground) }
    }

    pub open spec fn hint_role(self) -> TextStyle {
        colored(self.muted)
    }

    pub open spec fn accent_role(self) -> TextStyle {
        colored(self.accent)
    }

    pub open spec fn error_role(self) -> TextStyle {
        colored(self.red)
    }

    pub open spec fn thought_role(self) -> TextStyle {
        TextStyle { italic: true, dim: true, ..colored(self.magenta) }
    }

    pub open spec fn selected_role(self) -> TextStyle {
        TextStyle { bg: Some(self.selection), ..colored(self.bright_foreground) }
    }

    pub open spec fn card_role(self) -> TextStyle {
        TextStyle { bg: Some(self.lighter_background), ..TextStyle::plain_style() }
    }

    pub fn body(&self) -> (s: TextStyle)
        ensures
            s == self.body_role(),
    {
        color(self.foreground)
    }

    pub fn user(&self) -> (s: TextStyle)
        ensures
            s == self.user_role(),
    {
        TextStyle {
            fg: Some(self.bright_foreground),
            bg: None,
            bold: true,
            italic: false,
            dim: false,
        }
    }

    pub fn hint(&self) -> (s: TextStyle)
        ensures
            s == self.hint_role(),
    {
        color(self.muted)
    }

    pub fn accent_style(&self) -> (s: TextStyle)
        ensures
            s == self.accent_role(),
    {
        color(self.accent)
    }

    pub fn border_active(&self) -> (s: TextStyle)
        ensures
            s == colored(self.accent),
    {
        color(self.accent)
    }

    pub fn border_idle(&self) -> (s: TextStyle)
        ensures
            s == colored(self.muted),
    {
        color(self.muted)
    }

    pub fn error(&self) -> (s: TextStyle)
        ensures
            s == self.error_role(),
    {
        color(self.red)
    }

    pub fn thought(&self) -> (s: TextStyle)
        ensures
            s == self.thought_role(),
    {
        TextStyle { fg: Some(self.magenta), bg: None, bold: false, italic: true, dim: true }
    }

    pub fn selected(&self) -> (s: TextStyle)
        ensures
            s == self.selected_role(),
    {
        TextStyle {
            fg: Some(self.bright_foreground),
            bg: Some(self.selection),
            bold: false,
            italic: false,
            dim: false,
        }
    }

    pub fn card_bg(&self) -> (s: TextStyle)
        ensures
            s == self.card_role(),
    {
        TextStyle {
            fg: None,
            bg: Some(self.lighter_background),
            bold: false,
            italic: false,
            dim: false,
        }
    }
}

/// Where the active theme is described.
pub fn current_theme_dir(state_dir: &Option<String>) -> (r: String)
    ensures
        r@ == under_base(state_dir.deep_view(), "omarchy/current"@),
{
    in_base(state_dir, "omarchy/current")
}

} // verus!
