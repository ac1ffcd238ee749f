//! How the audio pane is drawn: for each stream a line with its name and a
//! line with a bar for its volume.

use crate::config::{Config, Theme};
use crate::text::{push_repeat, push_text, repeat, str_eq};
use crate::ui::{
    lemma_lines_view_push, lines_view, spans_view, Line, LineView, List, ListView, Paragraph,
    ParagraphView, Rect, Span, SpanView, Style,
};
use crate::widgets::audio_mixer::{channels_view, AudioMixer, AudioMixerView};
use crate::widgets::content_menu::{ContentView, EnContentMenuItem, WiMenuItem, WiMenuItemView};
use crate::widgets::net_widget::{list_block, make_list_block};
use vstd::prelude::*;

verus! {

/// The width of the bar in a line of `max_width` characters: two less, for
/// the brackets, and no bar at all in a line of fewer than two.
pub open spec fn bar_width(max_width: nat) -> nat {
    if max_width >= 2 {
        (max_width - 2) as nat
    } else {
        0
    }
}

/// How much of a bar of `width` cells is filled at `volume` percent: the
/// share of the volume in the width, rounded to the nearest cell, and no
/// more than the width.
pub open spec fn bar_fill(volume: u8, width: nat) -> nat {
    if (volume * width + 50) / 100 > width {
        width
    } else {
        ((volume * width + 50) / 100) as nat
    }
}

/// The filled part of a bar is within the bar; it is empty at volume 0 and
/// the whole bar at 100 percent and above.
pub proof fn lemma_bar_fill(volume: u8, width: nat)
    ensures
        0 <= bar_fill(volume, width) <= width,
        volume == 0 ==> bar_fill(volume, width) == 0,
        volume >= 100 ==> bar_fill(volume, width) == width,
{
    if volume >= 100 {
        assert(volume * width >= 100 * width) by (nonlinear_arith)
            requires
                volume >= 100,
                width >= 0,
        ;
    }
    if volume == 0 {
        assert(volume * width == 0) by (nonlinear_arith)
            requires
                volume == 0,
        ;
    }
}

/// The text of the name line of a stream.
pub open spec fn name_text(name: Seq<char>) -> Seq<char> {
    "\u{e2}\u{2122}\u{aa} "@ + name
}

/// The colours of a bar: of its brackets, of its filled part and of its
/// empty part.
pub struct BarColors {
    pub side: Style,
    pub filled: Style,
    pub empty: Style,
}

/// The colours of the bar of a stream.  The stream whose identifier is the
/// selected one is drawn in the theme's plain bar colours, every other in
/// the second set.
pub open spec fn bar_colors(is_selected: bool, theme: Theme) -> BarColors {
    if !is_selected {
        BarColors {
            side: Style::fg_only(theme.bar_selected_side_color),
            filled: Style::fg_only(theme.bar_selected_filled_color),
            empty: Style::fg_only(theme.bar_selected_empty_color),
        }
    } else {
        BarColors {
            side: Style::fg_only(theme.bar_side_color),
            filled: Style::fg_only(theme.bar_filled_color),
            empty: Style::fg_only(theme.bar_empty_color),
        }
    }
}

/// The spans of a bar of `width` cells at `volume` percent: a bracket, the
/// filled part, the empty part, a bracket.
pub open spec fn bar_spans(volume: u8, width: nat, colors: BarColors) -> Seq<SpanView> {
    seq![
        SpanView { content: "["@, style: colors.side },
        SpanView { content: repeat('=', bar_fill(volume, width)), style: colors.filled },
        SpanView {
            content: repeat('-', (width - bar_fill(volume, width)) as nat),
            style: colors.empty,
        },
        SpanView { content: "]"@, style: colors.side },
    ]
}

impl AudioMixerView {
    /// The bar line of the stream `id` at `volume` percent.
    pub open spec fn volume_line(
        self,
        id: Seq<char>,
        volume: u8,
        max_width: nat,
        theme: Theme,
    ) -> LineView {
        LineView {
            spans: bar_spans(
                volume,
                bar_width(max_width),
                bar_colors(id == self.selected_id, theme),
            ),
            style: Style::plain(),
        }
    }

    /// The colour of the lines of the stream `i`: highlighted where it is
    /// the selected one.
    pub open spec fn item_style(self, i: int, theme: Theme) -> Style {
        Style::fg_only(
            if i == self.selected_audio {
                theme.content_selected_color
            } else {
                theme.fg_color
            },
        )
    }

    /// Line `k` of the list: the name line of the stream `k / 2` where `k`
    /// is even, its bar line where `k` is odd.
    pub open spec fn audio_item(self, k: int, max_width: nat, theme: Theme) -> LineView {
        let i = k / 2;
        let entry = self.audio_list[i];
        if k % 2 == 0 {
            LineView::single(name_text(entry.0), Style::plain()).with_style(
                self.item_style(i, theme),
            )
        } else {
            self.volume_line(entry.2, entry.1, max_width, theme).with_style(
                self.item_style(i, theme),
            )
        }
    }

    /// The lines of the list: two for each stream.
    pub open spec fn audio_items(self, max_width: nat, theme: Theme) -> Seq<LineView> {
        Seq::new(2 * self.audio_list.len(), |k: int| self.audio_item(k, max_width, theme))
    }

    /// The list of streams in its frame.
    pub open spec fn audio_widget_list(self, max_width: nat, theme: Theme) -> ListView {
        ListView { items: self.audio_items(max_width, theme), block: Some(list_block(theme)) }
    }

    /// What the pane hands to the menu for the region `area`: the list of
    /// streams, and no overlay.
    pub open spec fn widget(self, area: Rect, theme: Theme) -> WiMenuItemView {
        WiMenuItemView {
            content: ContentView::List(self.audio_widget_list((area.width - 4) as nat, theme)),
            overlay: ContentView::Paragraph(ParagraphView::blank(theme.bg_color)),
            overlay_area: Rect::zero(),
            show_overlay: false,
        }
    }
}

/// How many cells of a bar of `width` cells are filled at `volume` percent.
pub fn filled_cells(volume: u8, width: usize) -> (filled: usize)
    ensures
        filled == bar_fill(volume, width as nat),
{
    assert(volume * width <= 255 * u64::MAX) by (nonlinear_arith)
        requires
            0 <= volume <= 255,
            0 <= width <= u64::MAX,
    ;
    let scaled: u128 = (volume as u128 * width as u128 + 50) / 100;
    if scaled > width as u128 {
        width
    } else {
        scaled as usize
    }
}

impl AudioMixer {
    /// The name line of a stream.
    pub fn make_audio_name_line(&self, name: &str) -> (line: Line)
        ensures
            line@ == LineView::single(name_text(name@), Style::plain()),
    {
        let mut audio_name = String::new();
        push_text(&mut audio_name, "\u{e2}\u{2122}\u{aa} ");
        push_text(&mut audio_name, name);
        proof {
            assert(audio_name@ =~= name_text(name@));
        }
        Line::from_span(Span::raw(audio_name))
    }

    /// The bar line of the stream `id` at `volume` percent, in a line of
    /// `max_width` characters.
    pub fn make_audio_volume_line(
        &self,
        id: &String,
        volume: u8,
        max_width: usize,
        theme: &Theme,
    ) -> (line: Line)
        ensures
            line@ == self@.volume_line(id@, volume, max_width as nat, *theme),
    {
        let bar_length: usize = if max_width >= 2 {
            max_width - 2
        } else {
            0
        };
        let filled_len = filled_cells(volume, bar_length);
        let empty_len = bar_length - filled_len;
        let is_selected = str_eq(id.as_str(), self.selected_id().as_str());
        let (bar_side_color, filled_color, empty_color) = if !is_selected {
            (
                theme.bar_selected_side_color,
                theme.bar_selected_filled_color,
                theme.bar_selected_empty_color,
            )
        } else {
            (theme.bar_side_color, theme.bar_filled_color, theme.bar_empty_color)
        };
        let mut filled_text = String::new();
        push_repeat(&mut filled_text, '=', filled_len);
        let mut empty_text = String::new();
        push_repeat(&mut empty_text, '-', empty_len);
        let open_bracket = Span::styled(String::from_str("["), Style::default().fg(bar_side_color));
        let filled = Span::styled(filled_text, Style::default().fg(filled_color));
        let empty = Span::styled(empty_text, Style::default().fg(empty_color));
        let close_bracket = Span::styled(
            String::from_str("]"),
            Style::default().fg(bar_side_color),
        );
        let mut spans: Vec<Span> = Vec::new();
        spans.push(open_bracket);
        spans.push(filled);
        spans.push(empty);
        spans.push(close_bracket);
        proof {
            assert(filled_text@ =~= repeat('=', filled_len as nat));
            assert(empty_text@ =~= repeat('-', empty_len as nat));
            assert(spans_view(spans@) =~= bar_spans(
                volume,
                bar_width(max_width as nat),
                bar_colors(id@ == self@.selected_id, *theme),
            ));
        }
        Line::from_spans(spans)
    }

    /// The list of streams in its frame, for lines of `max_width`
    /// characters.
    pub fn make_audio_widget_list(&self, max_width: usize, theme: &Theme) -> (list: List)
        ensures
            list@ == self@.audio_widget_list(max_width as nat, *theme),
    {
        let mut items: Vec<Line> = Vec::new();
        let channels = self.audio_list();
        let selected = self.selected_audio();
        let ghost expected = self@.audio_items(max_width as nat, *theme);
        proof {
            assert(lines_view(items@) =~= expected.take(0));
        }
        let mut i: usize = 0;
        while i < channels.len()
            invariant
                i <= channels.len(),
                channels_view(channels@) == self@.audio_list,
                selected == self@.selected_audio,
                expected == self@.audio_items(max_width as nat, *theme),
                lines_view(items@) == expected.take(2 * i),
            decreases channels.len() - i,
        {
            let color = if i == selected {
                theme.content_selected_color
            } else {
                theme.fg_color
            };
            let entry = &channels[i];
            let name_line = self.make_audio_name_line(entry.0.as_str()).style(
                Style::default().fg(color),
            );
            let volume_line = self.make_audio_volume_line(
                &entry.2,
                entry.1,
                max_width,
                theme,
            ).style(Style::default().fg(color));
            let ghost before = items@;
            items.push(name_line);
            items.push(volume_line);
            proof {
                lemma_lines_view_push(before, name_line);
                lemma_lines_view_push(before.push(name_line), volume_line);
                assert(channels_view(channels@)[i as int] == (entry.0@, entry.1, entry.2@));
                assert((2 * i) / 2 == i && (2 * i) % 2 == 0);
                assert((2 * i + 1) / 2 == i && (2 * i + 1) % 2 == 1);
                assert(name_line@ == expected[2 * i]);
                assert(volume_line@ == expected[2 * i + 1]);
                assert(expected.take(2 * (i + 1)) =~= expected.take(2 * i).push(
                    expected[2 * i],
                ).push(expected[2 * i + 1]));
            }
            i += 1;
        }
        proof {
            assert(expected.take(2 * channels.len()) =~= expected);
        }
        List { items, block: Some(make_list_block(theme)) }
    }

    /// The overlay of a pane that shows none: an empty paragraph and an
    /// empty region.
    pub fn make_empty_prompt(&self, theme: &Theme) -> (r: (EnContentMenuItem, Rect))
        ensures
            r.0@ == ContentView::Paragraph(ParagraphView::blank(theme.bg_color)),
            r.1 == Rect::zero(),
    {
        let paragraph = Paragraph {
            lines: Vec::new(),
            style: Style::default().bg(theme.bg_color),
            block: None,
            centered: false,
        };
        proof {
            assert(paragraph@.lines =~= Seq::empty());
        }
        (EnContentMenuItem::Paragraph(paragraph), Rect::empty())
    }

    /// What the pane hands to the menu for the region `area`, which is at
    /// least four cells wide.
    pub fn get_widget(&self, area: Rect, config: &Config) -> (widget: WiMenuItem)
        requires
            area.width >= 4,
        ensures
            widget@ == self@.widget(area, config.themes),
    {
        let max_width = (area.width - 4) as usize;
        let list = self.make_audio_widget_list(max_width, &config.themes);
        let (overlay, overlay_area) = self.make_empty_prompt(&config.themes);
        WiMenuItem {
            content: EnContentMenuItem::List(list),
            overlay,
            overlay_area,
            show_overlay: false,
        }
    }
}

} // verus!
