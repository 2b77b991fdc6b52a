//! A frame, ready to be painted.

use crate::theme::TextStyle;
use crate::ui::layout::Rect;
use crate::ui::style::{Line, LineModel, Span, SpanModel};
use vstd::prelude::*;

verus! {

/// Lines in an area, from the row `scroll` on. With `wrap`, long lines go on in
/// the next row.
pub struct Pane {
    pub area: Rect,
    pub lines: Vec<Line>,
    pub style: TextStyle,
    pub scroll: u16,
    pub wrap: bool,
}

pub struct PaneModel {
    pub area: Rect,
    pub lines: Seq<LineModel>,
    pub style: TextStyle,
    pub scroll: u16,
    pub wrap: bool,
}

/// A framed box with a title, over what was there before.
pub struct Card {
    pub area: Rect,
    pub title: Span,
    pub border: TextStyle,
    pub style: TextStyle,
    pub lines: Vec<Line>,
}

pub struct CardModel {
    pub area: Rect,
    pub title: SpanModel,
    pub border: TextStyle,
    pub style: TextStyle,
    pub lines: Seq<LineModel>,
}

/// A list with one row highlighted and marked.
pub struct List {
    pub area: Rect,
    pub rows: Vec<String>,
    pub selected: usize,
    pub highlight: TextStyle,
    pub marker: String,
}

pub struct ListModel {
    pub area: Rect,
    pub rows: Seq<Seq<char>>,
    pub selected: nat,
    pub highlight: TextStyle,
    pub marker: Seq<char>,
}

/// The text of a question.
pub struct Question {
    pub area: Rect,
    pub text: String,
    pub style: TextStyle,
}

pub struct QuestionModel {
    pub area: Rect,
    pub text: Seq<char>,
    pub style: TextStyle,
}

/// A box over the transcript, with a question and a list in it where it has them.
pub struct Overlay {
    pub card: Card,
    pub question: Option<Question>,
    pub list: Option<List>,
}

pub struct OverlayModel {
    pub card: CardModel,
    pub question: Option<QuestionModel>,
    pub list: Option<ListModel>,
}

/// Where the input is drawn, and how.
#[derive(Clone, Copy, PartialEq, Eq, Structural)]
pub struct InputBox {
    pub area: Rect,
    pub border: TextStyle,
    pub style: TextStyle,
}

/// A frame, in the order in which it is painted.
pub struct Screen {
    pub transcript: Pane,
    pub plan: Option<Pane>,
    pub popup: Option<Card>,
    pub input: InputBox,
    pub status: Pane,
    pub modal: Option<Overlay>,
}

pub struct ScreenModel {
    pub transcript: PaneModel,
    pub plan: Option<PaneModel>,
    pub popup: Option<CardModel>,
    pub input: InputBox,
    pub status: PaneModel,
    pub modal: Option<OverlayModel>,
}

impl DeepView for Pane {
    type V = PaneModel;

    open spec fn deep_view(&self) -> PaneModel {
        PaneModel {
            area: self.area,
            lines: self.lines.deep_view(),
            style: self.style,
            scroll: self.scroll,
            wrap: self.wrap,
        }
    }
}

impl DeepView for Card {
    type V = CardModel;

    open spec fn deep_view(&self) -> CardModel {
        CardModel {
            area: self.area,
            title: self.title.deep_view(),
            border: self.border,
            style: self.style,
            lines: self.lines.deep_view(),
        }
    }
}

impl DeepView for List {
    type V = ListModel;

    open spec fn deep_view(&self) -> ListModel {
        ListModel {
            area: self.area,
            rows: self.rows.deep_view(),
            selected: self.selected as nat,
            highlight: self.highlight,
            marker: self.marker@,
        }
    }
}

impl DeepView for Question {
    type V = QuestionModel;

    open spec fn deep_view(&self) -> QuestionModel {
        QuestionModel { area: self.area, text: self.text@, style: self.style }
    }
}

impl DeepView for Overlay {
    type V = OverlayModel;

    open spec fn deep_view(&self) -> OverlayModel {
        OverlayModel {
            card: self.card.deep_view(),
            question: self.question.deep_view(),
            list: self.list.deep_view(),
        }
    }
}

impl DeepView for Screen {
    type V = ScreenModel;

    open spec fn deep_view(&self) -> ScreenModel {
        ScreenModel {
            transcript: self.transcript.deep_view(),
            plan: self.plan.deep_view(),
            popup: self.popup.deep_view(),
            input: self.input,
            status: self.status.deep_view(),
            modal: self.modal.deep_view(),
        }
    }
}

} // verus!
