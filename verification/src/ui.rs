//! What a pane hands to the terminal: styled text, lists, paragraphs and the
//! region of an overlay, as plain values.
//!
//! Each type has a view in which text is a `Seq<char>`; the contracts of the
//! panes are stated over those views.

use crate::config::{BorderType, Color};
use vstd::prelude::*;

verus! {

// ---------------------------------------------------------------------------
// Regions
// ---------------------------------------------------------------------------

/// A rectangle of terminal cells.
#[derive(Clone, Copy, Debug, PartialEq, Eq, Structural)]
pub struct Rect {
    pub x: u16,
    pub y: u16,
    pub width: u16,
    pub height: u16,
}

impl Rect {
    /// The rectangle at `(x, y)` whose width and height are those given,
    /// shortened where the right or bottom edge would pass the largest
    /// coordinate.
    pub open spec fn clamped(x: u16, y: u16, width: u16, height: u16) -> Rect {
        Rect {
            x,
            y,
            width: if width > u16::MAX - x {
                (u16::MAX - x) as u16
            } else {
                width
            },
            height: if height > u16::MAX - y {
                (u16::MAX - y) as u16
            } else {
                height
            },
        }
    }

    /// The empty rectangle at the origin.
    pub open spec fn zero() -> Rect {
        Rect { x: 0, y: 0, width: 0, height: 0 }
    }

    /// The empty rectangle at the origin.
    pub fn empty() -> (r: Rect)
        ensures
            r == Rect::zero(),
    {
        Rect { x: 0, y: 0, width: 0, height: 0 }
    }
}

// ---------------------------------------------------------------------------
// Styles
// ---------------------------------------------------------------------------

/// How a piece of text is drawn.  A colour that is `None` is left as it is.
#[derive(Clone, Copy, Debug, PartialEq, Eq, Structural)]
pub struct Style {
    pub fg: Option<Color>,
    pub bg: Option<Color>,
    pub bold: bool,
}

impl Style {
    /// The style that changes nothing.
    pub open spec fn plain() -> Style {
        Style { fg: None, bg: None, bold: false }
    }

    /// A foreground colour and nothing else.
    pub open spec fn fg_only(color: Color) -> Style {
        Style { fg: Some(color), bg: None, bold: false }
    }

    /// A background colour and nothing else.
    pub open spec fn bg_only(color: Color) -> Style {
        Style { fg: None, bg: Some(color), bold: false }
    }

    /// A foreground and a background colour.
    pub open spec fn colors(fg: Color, bg: Color) -> Style {
        Style { fg: Some(fg), bg: Some(bg), bold: false }
    }

    /// The style that changes nothing.
    pub fn default() -> (s: Style)
        ensures
            s == Style::plain(),
    {
        Style { fg: None, bg: None, bold: false }
    }

    /// This style with the foreground colour `color`.
    pub fn fg(self, color: Color) -> (s: Style)
        ensures
            s == (Style { fg: Some(color), ..self }),
    {
        Style { fg: Some(color), bg: self.bg, bold: self.bold }
    }

    /// This style with the background colour `color`.
    pub fn bg(self, color: Color) -> (s: Style)
        ensures
            s == (Style { bg: Some(color), ..self }),
    {
        Style { fg: self.fg, bg: Some(color), bold: self.bold }
    }

    /// This style in bold.
    pub fn bold(self) -> (s: Style)
        ensures
            s == (Style { bold: true, ..self }),
    {
        Style { fg: self.fg, bg: self.bg, bold: true }
    }
}

/// Which sides of a block are drawn.
#[derive(Clone, Copy, Debug, PartialEq, Eq, Structural)]
pub struct Borders {
    pub top: bool,
    pub right: bool,
    pub bottom: bool,
    pub left: bool,
}

impl Borders {
    /// All four sides.
    pub open spec fn all_sides() -> Borders {
        Borders { top: true, right: true, bottom: true, left: true }
    }

    /// No side.
    pub open spec fn no_sides() -> Borders {
        Borders { top: false, right: false, bottom: false, left: false }
    }

    /// Every side where `on`, none otherwise.
    pub open spec fn all_or_none(on: bool) -> Borders {
        if on {
            Borders::all_sides()
        } else {
            Borders::no_sides()
        }
    }

    /// All four sides.
    pub fn all() -> (b: Borders)
        ensures
            b == Borders::all_sides(),
    {
        Borders { top: true, right: true, bottom: true, left: true }
    }

    /// No side.
    pub fn none() -> (b: Borders)
        ensures
            b == Borders::no_sides(),
    {
        Borders { top: false, right: false, bottom: false, left: false }
    }

    /// Every side where `on`, none otherwise.
    pub fn when(on: bool) -> (b: Borders)
        ensures
            b == Borders::all_or_none(on),
    {
        if on {
            Borders::all()
        } else {
            Borders::none()
        }
    }
}

/// Empty cells between a block's border and its content.
#[derive(Clone, Copy, Debug, PartialEq, Eq, Structural)]
pub struct Padding {
    pub left: u16,
    pub right: u16,
    pub top: u16,
    pub bottom: u16,
}

impl Padding {
    /// No padding.
    pub open spec fn zero() -> Padding {
        Padding { left: 0, right: 0, top: 0, bottom: 0 }
    }

    /// One cell on the left and one on the right.
    pub open spec fn sides() -> Padding {
        Padding { left: 1, right: 1, top: 0, bottom: 0 }
    }
}

// ---------------------------------------------------------------------------
// Text
// ---------------------------------------------------------------------------

/// A run of text in one style.
#[derive(Clone, Debug, PartialEq, Eq)]
pub struct Span {
    pub content: String,
    pub style: Style,
}

/// A span with its text as a sequence of characters.
pub struct SpanView {
    pub content: Seq<char>,
    pub style: Style,
}

impl View for Span {
    type V = SpanView;

    open spec fn view(&self) -> SpanView {
        SpanView { content: self.content@, style: self.style }
    }
}

impl Span {
    /// A span of `content` in the style `style`.
    pub fn styled(content: String, style: Style) -> (s: Span)
        ensures
            s@ == (SpanView { content: content@, style }),
    {
        Span { content, style }
    }

    /// A span of `content` in the plain style.
    pub fn raw(content: String) -> (s: Span)
        ensures
            s@ == (SpanView { content: content@, style: Style::plain() }),
    {
        Span { content, style: Style::default() }
    }
}

/// The views of the spans in `v`.
pub open spec fn spans_view(v: Seq<Span>) -> Seq<SpanView> {
    v.map_values(|s: Span| s@)
}

/// One line of text: spans from left to right, and a style for the line.
#[derive(Clone, Debug, PartialEq, Eq)]
pub struct Line {
    pub spans: Vec<Span>,
    pub style: Style,
}

/// A line with the views of its spans.
pub struct LineView {
    pub spans: Seq<SpanView>,
    pub style: Style,
}

impl LineView {
    /// A line of one span, the line itself in the plain style.
    pub open spec fn single(content: Seq<char>, style: Style) -> LineView {
        LineView { spans: seq![SpanView { content, style }], style: Style::plain() }
    }

    /// This line in the style `style`.
    pub open spec fn with_style(self, style: Style) -> LineView {
        LineView { style, ..self }
    }
}

impl View for Line {
    type V = LineView;

    open spec fn view(&self) -> LineView {
        LineView { spans: spans_view(self.spans@), style: self.style }
    }
}

impl Line {
    /// A line that holds `span` alone.
    pub fn from_span(span: Span) -> (l: Line)
        ensures
            l@ == (LineView { spans: seq![span@], style: Style::plain() }),
    {
        let mut spans: Vec<Span> = Vec::new();
        spans.push(span);
        proof {
            assert(spans_view(spans@) =~= seq![span@]);
        }
        Line { spans, style: Style::default() }
    }

    /// A line that holds `spans`.
    pub fn from_spans(spans: Vec<Span>) -> (l: Line)
        ensures
            l@ == (LineView { spans: spans_view(spans@), style: Style::plain() }),
    {
        Line { spans, style: Style::default() }
    }

    /// A line of one span in the style `style`.
    pub fn of(content: String, style: Style) -> (l: Line)
        ensures
            l@ == LineView::single(content@, style),
    {
        Line::from_span(Span::styled(content, style))
    }

    /// A line of one plain span, the line as a whole in the style `style`.
    pub fn styled(content: String, style: Style) -> (l: Line)
        ensures
            l@ == LineView::single(content@, Style::plain()).with_style(style),
    {
        Line::from_span(Span::raw(content)).style(style)
    }

    /// The same line in another style.
    pub fn style(self, style: Style) -> (l: Line)
        ensures
            l@ == self@.with_style(style),
    {
        Line { spans: self.spans, style }
    }
}

/// The views of the lines in `v`.
pub open spec fn lines_view(v: Seq<Line>) -> Seq<LineView> {
    v.map_values(|l: Line| l@)
}

/// Pushing a line pushes its view.
pub proof fn lemma_lines_view_push(v: Seq<Line>, l: Line)
    ensures
        lines_view(v.push(l)) == lines_view(v).push(l@),
{
    assert(lines_view(v.push(l)) =~= lines_view(v).push(l@));
}

// ---------------------------------------------------------------------------
// Widgets
// ---------------------------------------------------------------------------

/// The frame round a widget.
#[derive(Clone, Debug, PartialEq, Eq)]
pub struct Block {
    pub title: Option<String>,
    pub borders: Borders,
    pub border_type: BorderType,
    pub border_style: Style,
    pub style: Style,
    pub padding: Padding,
}

/// A block with its title as a sequence of characters.
pub struct BlockView {
    pub title: Option<Seq<char>>,
    pub borders: Borders,
    pub border_type: BorderType,
    pub border_style: Style,
    pub style: Style,
    pub padding: Padding,
}

impl View for Block {
    type V = BlockView;

    open spec fn view(&self) -> BlockView {
        BlockView {
            title: match self.title {
                Some(t) => Some(t@),
                None => None,
            },
            borders: self.borders,
            border_type: self.border_type,
            border_style: self.border_style,
            style: self.style,
            padding: self.padding,
        }
    }
}

/// The view of a block that may be absent.
pub open spec fn block_view(b: Option<Block>) -> Option<BlockView> {
    match b {
        Some(block) => Some(block@),
        None => None,
    }
}

/// A list of lines, one item to a line.
#[derive(Clone, Debug, PartialEq, Eq)]
pub struct List {
    pub items: Vec<Line>,
    pub block: Option<Block>,
}

/// A list with the views of its lines and of its block.
pub struct ListView {
    pub items: Seq<LineView>,
    pub block: Option<BlockView>,
}

impl View for List {
    type V = ListView;

    open spec fn view(&self) -> ListView {
        ListView { items: lines_view(self.items@), block: block_view(self.block) }
    }
}

/// Lines of text drawn as they are.
#[derive(Clone, Debug, PartialEq, Eq)]
pub struct Paragraph {
    pub lines: Vec<Line>,
    pub style: Style,
    pub block: Option<Block>,
    pub centered: bool,
}

/// A paragraph with the views of its lines and of its block.
pub struct ParagraphView {
    pub lines: Seq<LineView>,
    pub style: Style,
    pub block: Option<BlockView>,
    pub centered: bool,
}

impl View for Paragraph {
    type V = ParagraphView;

    open spec fn view(&self) -> ParagraphView {
        ParagraphView {
            lines: lines_view(self.lines@),
            style: self.style,
            block: block_view(self.block),
            centered: self.centered,
        }
    }
}

impl ParagraphView {
    /// A paragraph without text, on the background `bg`.
    pub open spec fn blank(bg: Color) -> ParagraphView {
        ParagraphView {
            lines: Seq::empty(),
            style: Style::bg_only(bg),
            block: None,
            centered: false,
        }
    }
}

} // verus!
