//! How the network pane is drawn: the list of networks, and over it the
//! password prompt or the details panel.

use crate::config::{Color, Config, Theme};
use crate::external::{display_width, rect_new, str_width};
use crate::text::{
    char_count, chars_eq, contains_str, decimal, has_infix, pad_right, pad_right_str, push_chars,
    push_decimal, push_repeat, push_text, repeat, repeat_char, strings_view, to_chars, trim,
    trim_chars,
};
use crate::ui::{
    lemma_lines_view_push, lines_view, Block, BlockView, Borders, Line, LineView, List, ListView,
    Padding, Paragraph, ParagraphView, Rect, Span, Style,
};
use crate::widgets::content_menu::{ContentView, EnContentMenuItem, WiMenuItem, WiMenuItemView};
use crate::widgets::net_connect::{
    networks_view, Mode, NetConnect, NetConnectView, INFO_VISIBLE_HEIGHT,
};
use vstd::prelude::*;

verus! {

/// The height of the details panel, its frame and its scroll line included.
pub const INFO_HEIGHT: u16 = 15;

/// The height of the password prompt.
pub const PROMPT_HEIGHT: u16 = 3;

// ---------------------------------------------------------------------------
// Signal strength
// ---------------------------------------------------------------------------

/// The three tiers of signal strength.
#[derive(Clone, Copy, Debug, PartialEq, Eq, Structural)]
pub enum SignalTier {
    Low,
    Medium,
    High,
}

/// The tier of a signal strength in percent: low up to 33, medium up to 67,
/// high above.
pub open spec fn signal_tier(signal: u8) -> SignalTier {
    if signal <= 33 {
        SignalTier::Low
    } else if signal <= 67 {
        SignalTier::Medium
    } else {
        SignalTier::High
    }
}

/// The three bars that show a tier.
pub open spec fn tier_glyph(tier: SignalTier) -> Seq<char> {
    match tier {
        SignalTier::Low => "▁▁▁"@,
        SignalTier::Medium => "▁▂▃"@,
        SignalTier::High => "▃▅▇"@,
    }
}

/// The three bars that show a signal strength.
pub open spec fn signal_glyph(signal: u8) -> Seq<char> {
    tier_glyph(signal_tier(signal))
}

/// The tier of a signal strength.
pub fn tier_of(signal: u8) -> (tier: SignalTier)
    ensures
        tier == signal_tier(signal),
{
    if signal <= 33 {
        SignalTier::Low
    } else if signal <= 67 {
        SignalTier::Medium
    } else {
        SignalTier::High
    }
}

// ---------------------------------------------------------------------------
// One network
// ---------------------------------------------------------------------------

/// The name of a network as the list shows it in `max_len` characters: the
/// name itself where it fits; otherwise its first `max_len` characters and
/// an ellipsis, with a star before them where it is the connected network.
pub open spec fn shown_ssid(connected: Seq<char>, ssid: Seq<char>, max_len: nat) -> Seq<char> {
    if ssid.len() <= max_len {
        ssid
    } else if trim(connected) == trim(ssid) {
        "* "@ + ssid.take(max_len as int) + "..."@
    } else {
        ssid.take(max_len as int) + "..."@
    }
}

/// The room that the name of a network gets in a line of `max_width`
/// characters.
pub open spec fn ssid_room(max_width: nat) -> nat {
    if max_width >= 7 {
        (max_width - 7) as nat
    } else {
        0
    }
}

/// The spaces between the name and the bars: what is left of `max_width`,
/// and one where nothing is left.
pub open spec fn gap_width(max_width: nat, name_len: nat, glyph_len: nat) -> nat {
    if max_width > name_len + glyph_len {
        (max_width - name_len - glyph_len) as nat
    } else {
        1
    }
}

/// The text of the line of one network: its shown name on the left, the
/// bars of its signal on the right.
pub open spec fn wifi_line_text(
    connected: Seq<char>,
    ssid: Seq<char>,
    signal: u8,
    max_width: nat,
) -> Seq<char> {
    let name = shown_ssid(connected, ssid, ssid_room(max_width));
    let glyph = signal_glyph(signal);
    name + repeat(' ', gap_width(max_width, name.len(), glyph.len())) + glyph
}

// ---------------------------------------------------------------------------
// Frames
// ---------------------------------------------------------------------------

/// The frame of a pane's list: the theme's border, one cell of padding on
/// the left and on the right.
pub open spec fn list_block(theme: Theme) -> BlockView {
    BlockView {
        title: None,
        borders: Borders::all_or_none(theme.borders_on),
        border_type: theme.border_type,
        border_style: Style::fg_only(theme.border_color),
        style: Style::plain(),
        padding: Padding::sides(),
    }
}

/// The frame of the password prompt: the theme's border and colours, and a
/// title.
pub open spec fn prompt_block(theme: Theme) -> BlockView {
    BlockView {
        title: Some("Password"@),
        borders: Borders::all_or_none(theme.borders_on),
        border_type: theme.border_type,
        border_style: Style::fg_only(theme.border_color),
        style: Style::colors(theme.fg_color, theme.bg_color),
        padding: Padding::zero(),
    }
}

/// The frame of a pane's list.
pub fn make_list_block(theme: &Theme) -> (block: Block)
    ensures
        block@ == list_block(*theme),
{
    Block {
        title: None,
        borders: Borders::when(theme.borders_on),
        border_type: theme.border_type,
        border_style: Style::default().fg(theme.border_color),
        style: Style::default(),
        padding: Padding { left: 1, right: 1, top: 0, bottom: 0 },
    }
}

// ---------------------------------------------------------------------------
// The details panel
// ---------------------------------------------------------------------------

/// The style of a heading in the details panel.
pub open spec fn heading_style(theme: Theme) -> Style {
    Style { fg: Some(Color::DarkGray), bg: Some(theme.bg_color), bold: true }
}

/// The style of the scroll line of the details panel.
pub open spec fn scroll_style(theme: Theme) -> Style {
    Style { fg: Some(theme.scroll_color), bg: Some(theme.bg_color), bold: true }
}

/// One line of the details panel.  `width` is the displayed width of
/// `text`.  A line narrower than `max_width` is filled up with spaces, and
/// eight more; a line that holds ` :  ` is a heading.
pub open spec fn info_line(text: Seq<char>, width: nat, max_width: nat, theme: Theme) -> LineView {
    let padded = if width < max_width {
        text + repeat(' ', (max_width - width + 8) as nat)
    } else {
        text
    };
    LineView::single(
        padded,
        if has_infix(padded, " :  "@) {
            heading_style(theme)
        } else {
            Style::colors(theme.fg_color, theme.bg_color)
        },
    )
}

/// The text of the scroll line: how far down the panel shows, of how many
/// lines.
pub open spec fn scroll_text(scroll_offset: nat, total: nat) -> Seq<char> {
    if total > INFO_VISIBLE_HEIGHT {
        "Scroll: "@ + decimal(
            if scroll_offset + INFO_VISIBLE_HEIGHT < total {
                (scroll_offset + INFO_VISIBLE_HEIGHT) as nat
            } else {
                total
            },
        ) + "/"@ + decimal((total - 3) as nat)
    } else {
        "Scroll: 1/1"@
    }
}

/// `text`, of displayed width `width`, centred in `max_width` columns: the
/// spaces that are left over go half to the left and the rest to the right.
pub open spec fn centered(text: Seq<char>, width: nat, max_width: nat) -> Seq<char> {
    if width < max_width {
        repeat(' ', ((max_width - width) / 2) as nat) + text + repeat(
            ' ',
            ((max_width - width) - (max_width - width) / 2) as nat,
        )
    } else {
        text
    }
}

/// The frame of the details panel.
pub open spec fn info_block(theme: Theme) -> BlockView {
    list_block(theme)
}

/// One line of the details panel, for a text whose displayed width is
/// `width`.
pub fn make_info_line(text: &str, width: usize, max_width: u16, theme: &Theme) -> (line: Line)
    ensures
        line@ == info_line(text@, width as nat, max_width as nat, *theme),
{
    let mut padded = String::new();
    push_text(&mut padded, text);
    if width < max_width as usize {
        push_repeat(&mut padded, ' ', max_width as usize - width + 8);
    }
    let style = if contains_str(padded.as_str(), " :  ") {
        Style::default().bg(theme.bg_color).fg(Color::DarkGray).bold()
    } else {
        Style::default().bg(theme.bg_color).fg(theme.fg_color)
    };
    proof {
        assert(Seq::<char>::empty() + text@ =~= text@);
    }
    Line::of(padded, style)
}

/// The text of the scroll line.
pub fn make_scroll_text(scroll_offset: usize, total: usize) -> (text: String)
    ensures
        text@ == scroll_text(scroll_offset as nat, total as nat),
{
    let mut text = String::new();
    if total > INFO_VISIBLE_HEIGHT {
        push_text(&mut text, "Scroll: ");
        let shown = if scroll_offset < total - INFO_VISIBLE_HEIGHT {
            scroll_offset + INFO_VISIBLE_HEIGHT
        } else {
            total
        };
        push_decimal(&mut text, shown);
        push_text(&mut text, "/");
        push_decimal(&mut text, total - 3);
        proof {
            assert(text@ =~= scroll_text(scroll_offset as nat, total as nat));
        }
    } else {
        push_text(&mut text, "Scroll: 1/1");
        proof {
            assert(text@ =~= "Scroll: 1/1"@);
        }
    }
    text
}

/// Centres `text`, whose displayed width is `width`, in `max_width`
/// columns.
pub fn center(text: &str, width: usize, max_width: u16) -> (out: String)
    ensures
        out@ == centered(text@, width as nat, max_width as nat),
{
    let mut out = String::new();
    if width < max_width as usize {
        let total_padding = max_width as usize - width;
        let left_padding = total_padding / 2;
        let right_padding = total_padding - left_padding;
        push_repeat(&mut out, ' ', left_padding);
        push_text(&mut out, text);
        push_repeat(&mut out, ' ', right_padding);
        proof {
            assert(out@ =~= centered(text@, width as nat, max_width as nat));
        }
    } else {
        push_text(&mut out, text);
        proof {
            assert(out@ =~= text@);
        }
    }
    out
}

// ---------------------------------------------------------------------------
// The pane as a whole
// ---------------------------------------------------------------------------

impl NetConnectView {
    /// The line of the network `i` of the list: highlighted where it is
    /// selected, unless the prompt is open.
    pub open spec fn wifi_item(self, i: int, max_width: nat, theme: Theme) -> LineView {
        LineView::single(
            wifi_line_text(
                self.connected_ssid,
                self.wifi_list[i].0,
                self.wifi_list[i].1,
                max_width,
            ),
            Style::plain(),
        ).with_style(
            Style::fg_only(
                if i == self.selected_ssid && self.mode != Mode::PasswordPrompt {
                    theme.content_selected_color
                } else {
                    theme.fg_color
                },
            ),
        )
    }

    /// The lines of the list: the connected network, an empty line, then
    /// one line for each network.
    pub open spec fn wifi_items(self, max_width: nat, theme: Theme) -> Seq<LineView> {
        seq![
            LineView::single(
                pad_right("Connected to: "@ + self.connected_ssid, max_width),
                Style::fg_only(theme.fg_color),
            ),
            LineView::single(repeat(' ', max_width), Style::plain()),
        ] + Seq::new(self.wifi_list.len(), |i: int| self.wifi_item(i, max_width, theme))
    }

    /// The list of networks in its frame.
    pub open spec fn wifi_widget_list(self, max_width: nat, theme: Theme) -> ListView {
        ListView { items: self.wifi_items(max_width, theme), block: Some(list_block(theme)) }
    }

    /// The lines of the prompt: the password, one star for each of its
    /// characters, and two empty lines.
    pub open spec fn prompt_lines(self, max_width: nat, theme: Theme) -> Seq<LineView> {
        seq![
            LineView::single(
                pad_right(repeat('*', self.prompt_pass.len()), max_width),
                Style::bg_only(theme.bg_color),
            ),
            LineView::single(repeat(' ', 38), Style::bg_only(theme.bg_color)),
            LineView::single(repeat(' ', 38), Style::bg_only(theme.bg_color)),
        ]
    }

    /// The prompt in its frame.
    pub open spec fn prompt(self, max_width: nat, theme: Theme) -> ParagraphView {
        ParagraphView {
            lines: self.prompt_lines(max_width + 1, theme),
            style: Style::bg_only(Color::Black),
            block: Some(prompt_block(theme)),
            centered: false,
        }
    }

    /// How many lines of the details panel show: a screenful from the
    /// scroll offset on, or what is left of the lines.
    pub open spec fn info_count(self) -> nat {
        if self.scroll_offset >= self.connection_info.len() {
            0
        } else if self.connection_info.len() - self.scroll_offset > INFO_VISIBLE_HEIGHT {
            INFO_VISIBLE_HEIGHT as nat
        } else {
            (self.connection_info.len() - self.scroll_offset) as nat
        }
    }

    /// The line of the details panel that shows in row `k`.
    pub open spec fn info_item(self, k: int, max_width: nat, theme: Theme) -> LineView {
        let text = self.connection_info[self.scroll_offset + k];
        info_line(text, display_width(text), max_width, theme)
    }

    /// The scroll line of the details panel.
    pub open spec fn scroll_line(self, max_width: nat, theme: Theme) -> LineView {
        let text = scroll_text(self.scroll_offset, self.connection_info.len());
        LineView::single(centered(text, display_width(text), max_width), scroll_style(theme))
    }

    /// The lines of the details panel: those that show, then the scroll
    /// line.
    pub open spec fn info_lines(self, max_width: nat, theme: Theme) -> Seq<LineView> {
        Seq::new(self.info_count(), |k: int| self.info_item(k, max_width, theme)).push(
            self.scroll_line(max_width, theme),
        )
    }

    /// The details panel in its frame.
    pub open spec fn info_overlay(self, max_width: nat, theme: Theme) -> ParagraphView {
        ParagraphView {
            lines: self.info_lines(max_width, theme),
            style: Style::colors(theme.fg_color, theme.bg_color),
            block: Some(info_block(theme)),
            centered: false,
        }
    }

    /// Whether the pane can be drawn in `area`: the area is at least four
    /// cells wide; where the prompt is open it is at least six cells wide,
    /// and three cells to the right of its corner and below are still
    /// within the largest coordinate.
    pub open spec fn fits(self, area: Rect) -> bool {
        &&& area.width >= 4
        &&& self.mode == Mode::PasswordPrompt ==> {
            &&& area.width >= 6
            &&& area.x + 3 <= u16::MAX
            &&& area.y + 3 <= u16::MAX
        }
    }

    /// The width of the prompt for a pane whose lines are `max_width`
    /// characters wide: two less, and no more than the area's width.
    pub open spec fn prompt_width(max_width: u16, area: Rect) -> int {
        if max_width - 2 < area.width {
            max_width - 2
        } else {
            area.width as int
        }
    }

    /// Where the prompt starts in `area`: so far from the left edge that it
    /// stands in the middle.
    pub open spec fn prompt_x(max_width: u16, area: Rect) -> int {
        area.x + (area.width - NetConnectView::prompt_width(max_width, area)) / 2
    }

    /// Whether the prompt can be laid out in `area` for lines of
    /// `max_width` characters: the lines are at least two characters wide,
    /// and the corner of the prompt is within the largest coordinate.
    pub open spec fn prompt_fits(max_width: u16, area: Rect) -> bool {
        &&& max_width >= 2
        &&& area.y + 3 <= u16::MAX
        &&& NetConnectView::prompt_x(max_width, area) <= u16::MAX
    }

    /// The region of the prompt in `area`: three rows below the top,
    /// centred, and three rows high, cut to the area's height.
    pub open spec fn prompt_area(max_width: u16, area: Rect) -> Rect {
        Rect::clamped(
            NetConnectView::prompt_x(max_width, area) as u16,
            (area.y + 3) as u16,
            NetConnectView::prompt_width(max_width, area) as u16,
            if area.height < PROMPT_HEIGHT {
                area.height
            } else {
                PROMPT_HEIGHT
            },
        )
    }

    /// Where the details panel starts in `area`: so far from the left edge
    /// that the panel, four cells wider than its lines, stands in the
    /// middle.
    pub open spec fn info_x(max_width: u16, area: Rect) -> int {
        area.x + (area.width - (max_width + 4)) / 2
    }

    /// Whether the details panel can be laid out in `area` for lines of
    /// `max_width` characters: the panel is no wider than the area, and its
    /// corner is within the largest coordinate.
    pub open spec fn info_fits(max_width: u16, area: Rect) -> bool {
        &&& max_width + 4 <= area.width
        &&& NetConnectView::info_x(max_width, area) <= u16::MAX
    }

    /// The region of the details panel in `area`: at the top, centred, four
    /// cells wider than its lines.
    pub open spec fn info_area(max_width: u16, area: Rect) -> Rect {
        Rect::clamped(
            NetConnectView::info_x(max_width, area) as u16,
            area.y,
            (max_width + 4) as u16,
            INFO_HEIGHT,
        )
    }

    /// What the pane hands to the menu for the region `area`: the list of
    /// networks, and over it the prompt or the details panel where one is
    /// open.
    pub open spec fn widget(self, area: Rect, theme: Theme) -> WiMenuItemView {
        let max_width = (area.width - 4) as nat;
        WiMenuItemView {
            content: ContentView::List(self.wifi_widget_list(max_width, theme)),
            overlay: ContentView::Paragraph(
                match self.mode {
                    Mode::PasswordPrompt => self.prompt(max_width, theme),
                    Mode::InfoOverlay => self.info_overlay(max_width, theme),
                    Mode::Browsing => ParagraphView::blank(theme.bg_color),
                },
            ),
            overlay_area: match self.mode {
                Mode::PasswordPrompt => NetConnectView::prompt_area(
                    (area.width - 4) as u16,
                    area,
                ),
                Mode::InfoOverlay => NetConnectView::info_area((area.width - 4) as u16, area),
                Mode::Browsing => Rect::zero(),
            },
            show_overlay: self.mode != Mode::Browsing,
        }
    }
}

impl NetConnect {
    /// The three bars that show the signal strength `signal`.
    pub fn format_signal(&self, signal: u8) -> (glyph: String)
        ensures
            glyph@ == signal_glyph(signal),
    {
        match tier_of(signal) {
            SignalTier::Low => String::from_str("▁▁▁"),
            SignalTier::Medium => String::from_str("▁▂▃"),
            SignalTier::High => String::from_str("▃▅▇"),
        }
    }

    /// The name `ssid` as the list shows it in `max_ssid_len` characters.
    pub fn format_ssid_string(&self, ssid: &String, max_ssid_len: usize) -> (shown: String)
        ensures
            shown@ == shown_ssid(self@.connected_ssid, ssid@, max_ssid_len as nat),
    {
        let chars = to_chars(ssid.as_str());
        if chars.len() <= max_ssid_len {
            return ssid.clone();
        }
        let connected = to_chars(self.connected_ssid().as_str());
        let is_connected = chars_eq(trim_chars(connected.as_slice()), trim_chars(chars.as_slice()));
        let short = &chars.as_slice()[0..max_ssid_len];
        let mut shown = String::new();
        if is_connected {
            push_text(&mut shown, "* ");
        }
        push_chars(&mut shown, short);
        push_text(&mut shown, "...");
        proof {
            assert(shown@ =~= shown_ssid(self@.connected_ssid, ssid@, max_ssid_len as nat));
        }
        shown
    }

    /// The line of one network in `max_width` characters.
    pub fn make_wifi_line(&self, ssid: &String, signal: u8, max_width: usize) -> (line: Line)
        ensures
            line@ == LineView::single(
                wifi_line_text(self@.connected_ssid, ssid@, signal, max_width as nat),
                Style::plain(),
            ),
    {
        let room = if max_width >= 7 {
            max_width - 7
        } else {
            0
        };
        let formatted_ssid = self.format_ssid_string(ssid, room);
        let formatted_signal = self.format_signal(signal);
        let ssid_width = char_count(formatted_ssid.as_str());
        let signal_width = char_count(formatted_signal.as_str());
        let space_width = if max_width > ssid_width && max_width - ssid_width > signal_width {
            max_width - ssid_width - signal_width
        } else {
            1
        };
        let mut display = String::new();
        push_text(&mut display, formatted_ssid.as_str());
        push_repeat(&mut display, ' ', space_width);
        push_text(&mut display, formatted_signal.as_str());
        proof {
            assert(display@ =~= wifi_line_text(
                self@.connected_ssid,
                ssid@,
                signal,
                max_width as nat,
            ));
        }
        Line::from_span(Span::raw(display))
    }

    /// The list of networks in its frame, for lines of `max_width`
    /// characters.
    pub fn make_wifi_widget_list(&self, max_width: usize, theme: &Theme) -> (list: List)
        ensures
            list@ == self@.wifi_widget_list(max_width as nat, *theme),
    {
        let mut items: Vec<Line> = Vec::new();
        let mut connected_line = String::new();
        push_text(&mut connected_line, "Connected to: ");
        push_text(&mut connected_line, self.connected_ssid().as_str());
        proof {
            assert(connected_line@ =~= "Connected to: "@ + self@.connected_ssid);
        }
        let first = Line::of(
            pad_right_str(connected_line.as_str(), max_width),
            Style::default().fg(theme.fg_color),
        );
        let second = Line::from_span(Span::raw(repeat_char(' ', max_width)));
        items.push(first);
        items.push(second);
        let networks = self.wifi_list();
        let selected = self.selected_ssid();
        let prompting = self.mode() == Mode::PasswordPrompt;
        let ghost expected = self@.wifi_items(max_width as nat, *theme);
        proof {
            assert(lines_view(items@) =~= expected.take(2));
        }
        let mut i: usize = 0;
        while i < networks.len()
            invariant
                i <= networks.len(),
                networks_view(networks@) == self@.wifi_list,
                selected == self@.selected_ssid,
                prompting == (self@.mode == Mode::PasswordPrompt),
                expected == self@.wifi_items(max_width as nat, *theme),
                lines_view(items@) == expected.take(2 + i),
            decreases networks.len() - i,
        {
            let line = self.make_wifi_line(&networks[i].0, networks[i].1, max_width);
            let color = if i == selected && !prompting {
                theme.content_selected_color
            } else {
                theme.fg_color
            };
            let styled = line.style(Style::default().fg(color));
            let ghost before = items@;
            items.push(styled);
            proof {
                lemma_lines_view_push(before, styled);
                assert(networks_view(networks@)[i as int] == (
                    networks@[i as int].0@,
                    networks@[i as int].1,
                ));
                assert(styled@ == self@.wifi_item(i as int, max_width as nat, *theme));
                assert(expected.take(2 + i + 1) =~= expected.take(2 + i).push(expected[2 + i]));
            }
            i += 1;
        }
        proof {
            assert(expected.take(2 + networks.len()) =~= expected);
        }
        List { items, block: Some(make_list_block(theme)) }
    }

    /// The lines of the prompt, the first of them `max_width` characters
    /// wide.
    pub fn make_prompt_lines(&self, max_width: usize, theme: &Theme) -> (lines: Vec<Line>)
        ensures
            lines_view(lines@) == self@.prompt_lines(max_width as nat, *theme),
    {
        let mut lines: Vec<Line> = Vec::new();
        let masked_pass = repeat_char('*', char_count(self.prompt_pass().as_str()));
        let pass_line = pad_right_str(masked_pass.as_str(), max_width);
        let style = Style::default().bg(theme.bg_color);
        let first = Line::of(pass_line, style);
        let second = Line::of(repeat_char(' ', 38), style);
        let third = Line::of(repeat_char(' ', 38), style);
        lines.push(first);
        lines.push(second);
        lines.push(third);
        proof {
            assert(lines_view(lines@) =~= self@.prompt_lines(max_width as nat, *theme));
        }
        lines
    }

    /// The overlay of a pane that shows none: an empty paragraph and an
    /// empty region.
    pub fn make_empty_prompt(&self, theme: &Theme) -> (r: (EnContentMenuItem, Rect))
        ensures
            r.0@ == ContentView::Paragraph(ParagraphView::blank(theme.bg_color)),
            r.1 == Rect::zero(),
    {
        let paragraph = Paragraph {
            lines: Vec::new(),
            style: Style::default().bg(theme.bg_color),
            block: None,
            centered: false,
        };
        proof {
            assert(paragraph@.lines =~= Seq::empty());
        }
        (EnContentMenuItem::Paragraph(paragraph), Rect::empty())
    }

    /// Whether the prompt can be laid out in `area` for lines of
    /// `max_width` characters.
    pub fn prompt_fits_in(max_width: u16, area: Rect) -> (r: bool)
        ensures
            r == NetConnectView::prompt_fits(max_width, area),
    {
        if max_width < 2 || area.y > u16::MAX - 3 {
            return false;
        }
        let w = if max_width - 2 < area.width {
            max_width - 2
        } else {
            area.width
        };
        area.x <= u16::MAX - (area.width - w) / 2
    }

    /// Whether the details panel can be laid out in `area` for lines of
    /// `max_width` characters.
    pub fn info_fits_in(max_width: u16, area: Rect) -> (r: bool)
        ensures
            r == NetConnectView::info_fits(max_width, area),
    {
        if area.width < 4 || max_width > area.width - 4 {
            return false;
        }
        area.x <= u16::MAX - (area.width - (max_width + 4)) / 2
    }

    /// The password prompt and its region in `area`, for a pane whose lines
    /// are `max_width` characters wide.
    pub fn make_prompt(&self, max_width: u16, area: Rect, theme: &Theme) -> (r: (
        EnContentMenuItem,
        Rect,
    ))
        requires
            NetConnectView::prompt_fits(max_width, area),
        ensures
            r.0@ == ContentView::Paragraph(self@.prompt(max_width as nat, *theme)),
            r.1 == NetConnectView::prompt_area(max_width, area),
    {
        let prompt_lines = self.make_prompt_lines(max_width as usize + 1, theme);
        let block = Block {
            title: Some(String::from_str("Password")),
            borders: Borders::when(theme.borders_on),
            border_type: theme.border_type,
            border_style: Style::default().fg(theme.border_color),
            style: Style::default().bg(theme.bg_color).fg(theme.fg_color),
            padding: Padding { left: 0, right: 0, top: 0, bottom: 0 },
        };
        let paragraph = Paragraph {
            lines: prompt_lines,
            style: Style::default().bg(Color::Black),
            block: Some(block),
            centered: false,
        };
        let prompt_width: u16 = max_width - 2;
        let w = if prompt_width < area.width {
            prompt_width
        } else {
            area.width
        };
        let h = if PROMPT_HEIGHT < area.height {
            PROMPT_HEIGHT
        } else {
            area.height
        };
        let x = area.x + (area.width - w) / 2;
        let y = area.y + 3;
        let rect = rect_new(x, y, w, h);
        (EnContentMenuItem::Paragraph(paragraph), rect)
    }

    /// The details panel and its region in `area`, for a pane whose lines
    /// are `max_width` characters wide.
    pub fn make_info_overlay(&self, max_width: u16, area: Rect, theme: &Theme) -> (r: (
        EnContentMenuItem,
        Rect,
    ))
        requires
            NetConnectView::info_fits(max_width, area),
        ensures
            r.0@ == ContentView::Paragraph(self@.info_overlay(max_width as nat, *theme)),
            r.1 == NetConnectView::info_area(max_width, area),
    {
        let info = self.connection_info();
        let offset = self.scroll_offset();
        let total_lines = info.len();
        let count = if offset >= total_lines {
            0
        } else if total_lines - offset > INFO_VISIBLE_HEIGHT {
            INFO_VISIBLE_HEIGHT
        } else {
            total_lines - offset
        };
        let ghost expected = self@.info_lines(max_width as nat, *theme);
        let mut lines: Vec<Line> = Vec::new();
        let mut k: usize = 0;
        proof {
            assert(lines_view(lines@) =~= expected.take(0));
        }
        while k < count
            invariant
                k <= count,
                count == self@.info_count(),
                offset + count <= total_lines,
                total_lines == info@.len(),
                strings_view(info@) == self@.connection_info,
                offset == self@.scroll_offset,
                expected == self@.info_lines(max_width as nat, *theme),
                lines_view(lines@) == expected.take(k as int),
            decreases count - k,
        {
            let text = &info[offset + k];
            let line = make_info_line(text.as_str(), str_width(text.as_str()), max_width, theme);
            let ghost before = lines@;
            lines.push(line);
            proof {
                lemma_lines_view_push(before, line);
                assert(strings_view(info@)[offset + k] == text@);
                assert(line@ == self@.info_item(k as int, max_width as nat, *theme));
                assert(expected.take(k + 1) =~= expected.take(k as int).push(expected[k as int]));
            }
            k += 1;
        }
        let scroll_line_text = make_scroll_text(offset, total_lines);
        let padded_scroll_line = center(
            scroll_line_text.as_str(),
            str_width(scroll_line_text.as_str()),
            max_width,
        );
        let scroll_line = Line::of(
            padded_scroll_line,
            Style::default().bg(theme.bg_color).fg(theme.scroll_color).bold(),
        );
        let ghost before = lines@;
        lines.push(scroll_line);
        proof {
            lemma_lines_view_push(before, scroll_line);
            assert(lines_view(lines@) =~= expected);
        }
        let paragraph = Paragraph {
            lines,
            style: Style::default().bg(theme.bg_color).fg(theme.fg_color),
            block: Some(make_list_block(theme)),
            centered: false,
        };
        let w: u16 = max_width + 4;
        let x = area.x + (area.width - w) / 2;
        let y = area.y;
        (EnContentMenuItem::Paragraph(paragraph), rect_new(x, y, w, INFO_HEIGHT))
    }

    /// Whether the pane can be drawn in `area`.
    pub fn fits_in(&self, area: Rect) -> (r: bool)
        ensures
            r == self@.fits(area),
    {
        if area.width < 4 {
            return false;
        }
        if self.mode() == Mode::PasswordPrompt {
            area.width >= 6 && area.x <= u16::MAX - 3 && area.y <= u16::MAX - 3
        } else {
            true
        }
    }

    /// What the pane hands to the menu for the region `area`.
    pub fn get_widget(&self, area: Rect, config: &Config) -> (widget: WiMenuItem)
        requires
            self@.fits(area),
        ensures
            widget@ == self@.widget(area, config.themes),
    {
        let max_width: u16 = area.width - 4;
        let theme = &config.themes;
        let list = self.make_wifi_widget_list(max_width as usize, theme);
        let mode = self.mode();
        let (overlay, overlay_area) = match mode {
            Mode::PasswordPrompt => self.make_prompt(max_width, area, theme),
            Mode::InfoOverlay => self.make_info_overlay(max_width, area, theme),
            Mode::Browsing => self.make_empty_prompt(theme),
        };
        WiMenuItem {
            content: EnContentMenuItem::List(list),
            overlay,
            overlay_area,
            show_overlay: mode != Mode::Browsing,
        }
    }
}

} // verus!
