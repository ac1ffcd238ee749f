//! The clock above the menu: the time of day in large digits.
//!
//! The caller reads the time and draws; the functions here lay the digits
//! out.

use crate::config::BorderType;
use crate::external::{display_width, str_width};
use crate::ui::{
    lemma_lines_view_push, lines_view, spans_view, Block, BlockView, Borders, Line, LineView,
    Padding, Paragraph, ParagraphView, Rect, Span, SpanView, Style,
};
use crate::widgets::content_menu::{ContentView, Draw, DrawView, EnContentMenuItem};
use vstd::prelude::*;

verus! {

/// The clock.
pub struct ClockWidget;

/// The rows of a large digit.
pub const GLYPH_ROWS: usize = 5;

/// The number of the glyph that shows the colon.
pub const COLON: u32 = 10;

/// The height of the clock: its rows and the border below them.
pub const CLOCK_HEIGHT: u16 = 6;

/// Row `row` of the glyph `digit`: the ten digits, and the colon as the
/// eleventh glyph.
pub open spec fn glyph_row(digit: u32, row: int) -> Seq<char> {
    if digit == 0 && row == 0 {
        "██████"@
    } else if digit == 0 && row == 1 {
        "██  ██"@
    } else if digit == 0 && row == 2 {
        "██  ██"@
    } else if digit == 0 && row == 3 {
        "██  ██"@
    } else if digit == 0 && row == 4 {
        "██████"@
    } else if digit == 1 && row == 0 {
        "  ██  "@
    } else if digit == 1 && row == 1 {
        "████  "@
    } else if digit == 1 && row == 2 {
        "  ██  "@
    } else if digit == 1 && row == 3 {
        "  ██  "@
    } else if digit == 1 && row == 4 {
        "██████"@
    } else if digit == 2 && row == 0 {
        "██████"@
    } else if digit == 2 && row == 1 {
        "    ██"@
    } else if digit == 2 && row == 2 {
        "██████"@
    } else if digit == 2 && row == 3 {
        "██    "@
    } else if digit == 2 && row == 4 {
        "██████"@
    } else if digit == 3 && row == 0 {
        "██████"@
    } else if digit == 3 && row == 1 {
        "    ██"@
    } else if digit == 3 && row == 2 {
        "██████"@
    } else if digit == 3 && row == 3 {
        "    ██"@
    } else if digit == 3 && row == 4 {
        "██████"@
    } else if digit == 4 && row == 0 {
        "██  ██"@
    } else if digit == 4 && row == 1 {
        "██  ██"@
    } else if digit == 4 && row == 2 {
        "██████"@
    } else if digit == 4 && row == 3 {
        "    ██"@
    } else if digit == 4 && row == 4 {
        "    ██"@
    } else if digit == 5 && row == 0 {
        "██████"@
    } else if digit == 5 && row == 1 {
        "██    "@
    } else if digit == 5 && row == 2 {
        "██████"@
    } else if digit == 5 && row == 3 {
        "    ██"@
    } else if digit == 5 && row == 4 {
        "██████"@
    } else if digit == 6 && row == 0 {
        "██████"@
    } else if digit == 6 && row == 1 {
        "██    "@
    } else if digit == 6 && row == 2 {
        "██████"@
    } else if digit == 6 && row == 3 {
        "██  ██"@
    } else if digit == 6 && row == 4 {
        "██████"@
    } else if digit == 7 && row == 0 {
        "██████"@
    } else if digit == 7 && row == 1 {
        "    ██"@
    } else if digit == 7 && row == 2 {
        "   ██ "@
    } else if digit == 7 && row == 3 {
        "  ██  "@
    } else if digit == 7 && row == 4 {
        " ██   "@
    } else if digit == 8 && row == 0 {
        "██████"@
    } else if digit == 8 && row == 1 {
        "██  ██"@
    } else if digit == 8 && row == 2 {
        "██████"@
    } else if digit == 8 && row == 3 {
        "██  ██"@
    } else if digit == 8 && row == 4 {
        "██████"@
    } else if digit == 9 && row == 0 {
        "██████"@
    } else if digit == 9 && row == 1 {
        "██  ██"@
    } else if digit == 9 && row == 2 {
        "██████"@
    } else if digit == 9 && row == 3 {
        "    ██"@
    } else if digit == 9 && row == 4 {
        "██████"@
    } else if digit == 10 && row == 0 {
        "    "@
    } else if digit == 10 && row == 1 {
        " ██ "@
    } else if digit == 10 && row == 2 {
        "    "@
    } else if digit == 10 && row == 3 {
        " ██ "@
    } else {
        "    "@
    }
}

/// Row `row` of the glyph `digit`.
pub fn glyph_text(digit: u32, row: usize) -> (text: &'static str)
    requires
        digit <= 10,
        row < 5,
    ensures
        text@ == glyph_row(digit, row as int),
{
    if digit == 0 && row == 0 {
        "██████"
    } else if digit == 0 && row == 1 {
        "██  ██"
    } else if digit == 0 && row == 2 {
        "██  ██"
    } else if digit == 0 && row == 3 {
        "██  ██"
    } else if digit == 0 && row == 4 {
        "██████"
    } else if digit == 1 && row == 0 {
        "  ██  "
    } else if digit == 1 && row == 1 {
        "████  "
    } else if digit == 1 && row == 2 {
        "  ██  "
    } else if digit == 1 && row == 3 {
        "  ██  "
    } else if digit == 1 && row == 4 {
        "██████"
    } else if digit == 2 && row == 0 {
        "██████"
    } else if digit == 2 && row == 1 {
        "    ██"
    } else if digit == 2 && row == 2 {
        "██████"
    } else if digit == 2 && row == 3 {
        "██    "
    } else if digit == 2 && row == 4 {
        "██████"
    } else if digit == 3 && row == 0 {
        "██████"
    } else if digit == 3 && row == 1 {
        "    ██"
    } else if digit == 3 && row == 2 {
        "██████"
    } else if digit == 3 && row == 3 {
        "    ██"
    } else if digit == 3 && row == 4 {
        "██████"
    } else if digit == 4 && row == 0 {
        "██  ██"
    } else if digit == 4 && row == 1 {
        "██  ██"
    } else if digit == 4 && row == 2 {
        "██████"
    } else if digit == 4 && row == 3 {
        "    ██"
    } else if digit == 4 && row == 4 {
        "    ██"
    } else if digit == 5 && row == 0 {
        "██████"
    } else if digit == 5 && row == 1 {
        "██    "
    } else if digit == 5 && row == 2 {
        "██████"
    } else if digit == 5 && row == 3 {
        "    ██"
    } else if digit == 5 && row == 4 {
        "██████"
    } else if digit == 6 && row == 0 {
        "██████"
    } else if digit == 6 && row == 1 {
        "██    "
    } else if digit == 6 && row == 2 {
        "██████"
    } else if digit == 6 && row == 3 {
        "██  ██"
    } else if digit == 6 && row == 4 {
        "██████"
    } else if digit == 7 && row == 0 {
        "██████"
    } else if digit == 7 && row == 1 {
        "    ██"
    } else if digit == 7 && row == 2 {
        "   ██ "
    } else if digit == 7 && row == 3 {
        "  ██  "
    } else if digit == 7 && row == 4 {
        " ██   "
    } else if digit == 8 && row == 0 {
        "██████"
    } else if digit == 8 && row == 1 {
        "██  ██"
    } else if digit == 8 && row == 2 {
        "██████"
    } else if digit == 8 && row == 3 {
        "██  ██"
    } else if digit == 8 && row == 4 {
        "██████"
    } else if digit == 9 && row == 0 {
        "██████"
    } else if digit == 9 && row == 1 {
        "██  ██"
    } else if digit == 9 && row == 2 {
        "██████"
    } else if digit == 9 && row == 3 {
        "    ██"
    } else if digit == 9 && row == 4 {
        "██████"
    } else if digit == 10 && row == 0 {
        "    "
    } else if digit == 10 && row == 1 {
        " ██ "
    } else if digit == 10 && row == 2 {
        "    "
    } else if digit == 10 && row == 3 {
        " ██ "
    } else {
        "    "
    }
}

/// Whether `digit` is drawn: the glyphs up to the colon are, and so is the
/// number behind it; larger numbers are passed over.
pub open spec fn is_drawn(digit: u32) -> bool {
    digit <= 11
}

/// The spans of row `row` for the glyphs `digits`: for each that is drawn
/// its row and a space.
pub open spec fn number_spans(digits: Seq<u32>, row: int) -> Seq<SpanView>
    decreases digits.len(),
{
    if digits.len() == 0 {
        Seq::empty()
    } else if is_drawn(digits.last()) {
        number_spans(digits.drop_last(), row).push(
            SpanView { content: glyph_row(digits.last(), row), style: Style::plain() },
        ).push(SpanView { content: " "@, style: Style::plain() })
    } else {
        number_spans(digits.drop_last(), row)
    }
}

/// The five lines that show the glyphs `digits` side by side.
pub open spec fn number_text(digits: Seq<u32>) -> Seq<LineView> {
    Seq::new(
        GLYPH_ROWS as nat,
        |row: int| LineView { spans: number_spans(digits, row), style: Style::plain() },
    )
}

/// The glyphs of a time of day: two for the hour, the colon, two for the
/// minute.
pub open spec fn time_digits(hour: u32, minute: u32) -> Seq<u32> {
    seq![hour / 10, hour % 10, COLON, minute / 10, minute % 10]
}

/// The displayed width of a line: the widths of its spans added up.
pub open spec fn line_width(spans: Seq<SpanView>) -> nat
    decreases spans.len(),
{
    if spans.len() == 0 {
        0
    } else {
        line_width(spans.drop_last()) + display_width(spans.last().content)
    }
}

/// The displayed width of the widest of the lines; 0 where there is none.
pub open spec fn text_width(lines: Seq<LineView>) -> nat
    decreases lines.len(),
{
    if lines.len() == 0 {
        0
    } else {
        let rest = text_width(lines.drop_last());
        let last = line_width(lines.last().spans);
        if last > rest {
            last
        } else {
            rest
        }
    }
}

/// The frame of the clock: a border below it.
pub open spec fn clock_block() -> BlockView {
    BlockView {
        title: None,
        borders: Borders { top: false, right: false, bottom: true, left: false },
        border_type: BorderType::Plain,
        border_style: Style::plain(),
        style: Style::plain(),
        padding: Padding::zero(),
    }
}

/// How wide the clock is drawn for a text of displayed width `width`: one
/// column less, for the space behind the last glyph, and of that what fits
/// in sixteen bits.
pub open spec fn clock_width(width: nat) -> u16 {
    ((width - 1) % 0x10000) as u16
}

/// Where the clock starts in `area`: so far from the left edge that it
/// stands in the middle, and at the left edge where it is wider than the
/// area.
pub open spec fn clock_x(area: Rect, width: u16) -> int {
    area.x + (if area.width > width {
        area.width - width
    } else {
        0
    }) / 2
}

/// The clock for the lines `lines` of displayed width `width`, in `area`:
/// the lines centred in a region at the top row that is as wide as they
/// are.
pub open spec fn clock_draw(lines: Seq<LineView>, width: nat, area: Rect) -> DrawView {
    DrawView {
        widget: ContentView::Paragraph(
            ParagraphView {
                lines,
                style: Style::plain(),
                block: Some(clock_block()),
                centered: true,
            },
        ),
        area: Rect {
            x: clock_x(area, clock_width(width)) as u16,
            y: 0,
            width: clock_width(width),
            height: CLOCK_HEIGHT,
        },
    }
}

/// Adds up the displayed widths of the spans of `line`; `None` where the
/// sum does not fit.
pub fn width_of_line(line: &Line) -> (w: Option<usize>)
    ensures
        match w {
            Some(width) => width == line_width(line@.spans),
            None => line_width(line@.spans) > usize::MAX,
        },
{
    let ghost views = line@.spans;
    let mut sum: usize = 0;
    let mut i: usize = 0;
    while i < line.spans.len()
        invariant
            i <= line.spans.len(),
            views == spans_view(line.spans@),
            sum == line_width(views.take(i as int)),
        decreases line.spans.len() - i,
    {
        proof {
            assert(views.take(i + 1).drop_last() =~= views.take(i as int));
            assert(views.take(i + 1).last().content == line.spans@[i as int].content@);
        }
        let w = str_width(line.spans[i].content.as_str());
        match sum.checked_add(w) {
            Some(next) => {
                sum = next;
            },
            None => {
                proof {
                    lemma_line_width_prefix(views, i + 1);
                }
                return None;
            },
        }
        i += 1;
    }
    proof {
        assert(views.take(line.spans.len() as int) =~= views);
    }
    Some(sum)
}

/// A line is at least as wide as what stands at its start.
pub proof fn lemma_line_width_prefix(spans: Seq<SpanView>, k: int)
    requires
        0 <= k <= spans.len(),
    ensures
        line_width(spans.take(k)) <= line_width(spans),
    decreases spans.len(),
{
    if k == spans.len() {
        assert(spans.take(k) =~= spans);
    } else {
        lemma_line_width_prefix(spans.drop_last(), k);
        assert(spans.drop_last().take(k) =~= spans.take(k));
    }
}

/// A text is at least as wide as the lines at its start.
pub proof fn lemma_text_width_prefix(lines: Seq<LineView>, k: int)
    requires
        0 <= k <= lines.len(),
    ensures
        text_width(lines.take(k)) <= text_width(lines),
    decreases lines.len(),
{
    if k == lines.len() {
        assert(lines.take(k) =~= lines);
    } else {
        lemma_text_width_prefix(lines.drop_last(), k);
        assert(lines.drop_last().take(k) =~= lines.take(k));
    }
}

/// The displayed width of the widest of `lines`; `None` where the width of
/// a line does not fit.
pub fn width_of_text(lines: &Vec<Line>) -> (w: Option<usize>)
    ensures
        match w {
            Some(width) => width == text_width(lines_view(lines@)),
            None => text_width(lines_view(lines@)) > usize::MAX,
        },
{
    let ghost views = lines_view(lines@);
    let mut widest: usize = 0;
    let mut i: usize = 0;
    while i < lines.len()
        invariant
            i <= lines.len(),
            views == lines_view(lines@),
            widest == text_width(views.take(i as int)),
        decreases lines.len() - i,
    {
        proof {
            assert(views.take(i + 1).drop_last() =~= views.take(i as int));
            assert(views.take(i + 1).last() == lines@[i as int]@);
        }
        match width_of_line(&lines[i]) {
            Some(w) => {
                if w > widest {
                    widest = w;
                }
            },
            None => {
                proof {
                    lemma_text_width_prefix(views, i + 1);
                }
                return None;
            },
        }
        i += 1;
    }
    proof {
        assert(views.take(lines.len() as int) =~= views);
    }
    Some(widest)
}

/// Whether the clock for `hour` and `minute` can be laid out in `area`:
/// both tens digits have a picture, the text has a width of at least one
/// column that fits, and the clock starts within the largest coordinate.
pub open spec fn clock_fits(hour: u32, minute: u32, area: Rect) -> bool {
    let width = text_width(number_text(time_digits(hour, minute)));
    &&& hour / 10 != 11
    &&& minute / 10 != 11
    &&& 1 <= width <= usize::MAX
    &&& clock_x(area, clock_width(width)) <= u16::MAX
}

impl ClockWidget {
    /// The five lines that show the glyphs `digits` side by side.  No glyph
    /// may be the number behind the colon, which has no picture.
    pub fn get_number_text(digits: &[u32]) -> (text: Vec<Line>)
        requires
            forall|i: int| 0 <= i < digits@.len() ==> digits@[i] != 11,
        ensures
            lines_view(text@) == number_text(digits@),
    {
        let ghost expected = number_text(digits@);
        let mut text: Vec<Line> = Vec::new();
        let mut line_number: usize = 0;
        proof {
            assert(lines_view(text@) =~= expected.take(0));
        }
        while line_number < GLYPH_ROWS
            invariant
                line_number <= GLYPH_ROWS,
                expected == number_text(digits@),
                forall|i: int| 0 <= i < digits@.len() ==> digits@[i] != 11,
                lines_view(text@) == expected.take(line_number as int),
            decreases GLYPH_ROWS - line_number,
        {
            let mut spans: Vec<Span> = Vec::new();
            let mut i: usize = 0;
            proof {
                assert(spans_view(spans@) =~= number_spans(digits@.take(0), line_number as int));
            }
            while i < digits.len()
                invariant
                    i <= digits.len(),
                    line_number < GLYPH_ROWS,
                    forall|j: int| 0 <= j < digits@.len() ==> digits@[j] != 11,
                    spans_view(spans@) == number_spans(
                        digits@.take(i as int),
                        line_number as int,
                    ),
                decreases digits.len() - i,
            {
                let digit = digits[i];
                proof {
                    assert(digits@.take(i + 1).drop_last() =~= digits@.take(i as int));
                    assert(digits@.take(i + 1).last() == digit);
                }
                if digit <= 10 {
                    let glyph = Span::raw(String::from_str(glyph_text(digit, line_number)));
                    let space = Span::raw(String::from_str(" "));
                    let ghost before = spans@;
                    spans.push(glyph);
                    spans.push(space);
                    proof {
                        assert(spans_view(spans@) =~= spans_view(before).push(glyph@).push(
                            space@,
                        ));
                    }
                }
                i += 1;
            }
            proof {
                assert(digits@.take(digits.len() as int) =~= digits@);
            }
            let line = Line::from_spans(spans);
            let ghost before = text@;
            text.push(line);
            proof {
                lemma_lines_view_push(before, line);
                assert(line@ == expected[line_number as int]);
                assert(expected.take(line_number + 1) =~= expected.take(line_number as int).push(
                    expected[line_number as int],
                ));
            }
            line_number += 1;
        }
        proof {
            assert(expected.take(GLYPH_ROWS as int) =~= expected);
        }
        text
    }

    /// Lays out the lines `text`, whose displayed width is `width`, in
    /// `area`.
    pub fn layout(text: Vec<Line>, width: usize, area: Rect) -> (draw: Draw)
        requires
            width >= 1,
            clock_x(area, clock_width(width as nat)) <= u16::MAX,
        ensures
            draw@ == clock_draw(lines_view(text@), width as nat, area),
    {
        let width: u16 = ((width - 1) % 0x10000) as u16;
        let block = Block {
            title: None,
            borders: Borders { top: false, right: false, bottom: true, left: false },
            border_type: BorderType::Plain,
            border_style: Style::default(),
            style: Style::default(),
            padding: Padding { left: 0, right: 0, top: 0, bottom: 0 },
        };
        let room: u16 = if area.width > width {
            area.width - width
        } else {
            0
        };
        let content_area = Rect { x: area.x + room / 2, y: 0, width, height: CLOCK_HEIGHT };
        let paragraph = Paragraph {
            lines: text,
            style: Style::default(),
            block: Some(block),
            centered: true,
        };
        Draw { widget: EnContentMenuItem::Paragraph(paragraph), area: content_area }
    }

    /// The clock for `hour` and `minute` in `area`; `None` where it cannot
    /// be laid out.
    pub fn render(hour: u32, minute: u32, area: Rect) -> (draw: Option<Draw>)
        ensures
            match draw {
                Some(d) => clock_fits(hour, minute, area) && d@ == clock_draw(
                    number_text(time_digits(hour, minute)),
                    text_width(number_text(time_digits(hour, minute))),
                    area,
                ),
                None => !clock_fits(hour, minute, area),
            },
    {
        if hour / 10 == 11 || minute / 10 == 11 {
            return None;
        }
        let mut digits: Vec<u32> = Vec::new();
        digits.push(hour / 10);
        digits.push(hour % 10);
        digits.push(COLON);
        digits.push(minute / 10);
        digits.push(minute % 10);
        proof {
            assert(digits@ =~= time_digits(hour, minute));
        }
        let hour_text = ClockWidget::get_number_text(digits.as_slice());
        match width_of_text(&hour_text) {
            None => None,
            Some(width) => {
                if width < 1 {
                    return None;
                }
                let shown: u16 = ((width - 1) % 0x10000) as u16;
                let room: u16 = if area.width > shown {
                    area.width - shown
                } else {
                    0
                };
                if area.x > u16::MAX - room / 2 {
                    return None;
                }
                Some(ClockWidget::layout(hour_text, width, area))
            },
        }
    }
}

} // verus!
