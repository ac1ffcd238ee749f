//! Theme and key bindings.
//!
//! A binding is text in the grammar `modifier+modifier+key`.  The panes and
//! the menu ask one question of it: does this key event match that binding?

use crate::external::lowercase_of;
use crate::keys::{KeyCode, KeyEvent, KeyModifiers};
use crate::text::{
    chars_eq_str, from_chars, push_text, slice_views, split, split_chars, to_chars, trim,
    trim_chars,
};
use vstd::prelude::*;

verus! {

// ---------------------------------------------------------------------------
// Data
// ---------------------------------------------------------------------------

/// A colour of the theme.
#[derive(Clone, Copy, Debug, PartialEq, Eq, Structural)]
pub enum Color {
    Black,
    Red,
    Green,
    Yellow,
    Blue,
    Magenta,
    Cyan,
    Gray,
    DarkGray,
    White,
    Rgb(u8, u8, u8),
}

/// The line style of a border.
#[derive(Clone, Copy, Debug, PartialEq, Eq, Structural)]
pub enum BorderType {
    Plain,
    Rounded,
    Double,
    Thick,
}

/// The theme, every colour resolved.
#[derive(Clone, Copy, Debug, PartialEq, Eq, Structural)]
pub struct Theme {
    pub borders_on: bool,
    pub border_color: Color,
    pub border_type: BorderType,
    pub nav_selected_fg_color: Color,
    pub nav_selected_bg_color: Color,
    pub content_selected_color: Color,
    pub bg_color: Color,
    pub fg_color: Color,
    pub scroll_color: Color,
    pub bar_side_color: Color,
    pub bar_filled_color: Color,
    pub bar_empty_color: Color,
    pub bar_selected_side_color: Color,
    pub bar_selected_filled_color: Color,
    pub bar_selected_empty_color: Color,
}

/// The theme as the configuration file spells it.
#[derive(Clone, Debug, PartialEq, Eq)]
pub struct RawThemes {
    pub borders_on: bool,
    pub border_color: String,
    pub border_style: String,
    pub nav_selected_fg_color: String,
    pub nav_selected_bg_color: String,
    pub content_selected_color: String,
    pub bg_color: String,
    pub fg_color: String,
    pub scroll_color: String,
    pub bar_side_color: String,
    pub bar_filled_color: String,
    pub bar_empty_color: String,
    pub bar_selected_side_color: String,
    pub bar_selected_filled_color: String,
    pub bar_selected_empty_color: String,
}

/// One binding for each logical action.
#[derive(Clone, Debug, PartialEq, Eq)]
pub struct Keybinds {
    pub nav_up: String,
    pub nav_down: String,
    pub content_up: String,
    pub content_down: String,
    pub content_right: String,
    pub content_left: String,
    pub accept: String,
    pub info: String,
    pub cancel: String,
    pub quit: String,
}

/// The configuration file as a whole.
#[derive(Clone, Debug, PartialEq, Eq)]
pub struct RawConfig {
    pub themes: RawThemes,
    pub keybinds: Keybinds,
}

/// The configuration that the menu and the panes are handed.
#[derive(Clone, Debug, PartialEq, Eq)]
pub struct Config {
    pub themes: Theme,
    pub keybinds: Keybinds,
}

// ---------------------------------------------------------------------------
// Chords
// ---------------------------------------------------------------------------

/// What a binding asks for: a set of modifiers, and a key where the binding
/// names one.
#[derive(Clone, Copy, Debug, PartialEq, Eq, Structural)]
pub struct Chord {
    pub modifiers: KeyModifiers,
    pub code: Option<KeyCode>,
}

/// `c` is one of the 128 ASCII characters.
pub open spec fn is_ascii_char(c: char) -> bool {
    c <= '\u{7f}'
}

/// `c` with a small ASCII letter made capital.
pub open spec fn ascii_upper(c: char) -> char {
    if 'a' <= c && c <= 'z' {
        ((c as u8) - 32) as char
    } else {
        c
    }
}

/// `c` with a capital ASCII letter made small.
pub open spec fn ascii_lower(c: char) -> char {
    if 'A' <= c && c <= 'Z' {
        ((c as u8) + 32) as char
    } else {
        c
    }
}

/// Makes a small ASCII letter capital.
pub fn to_ascii_upper(c: char) -> (r: char)
    ensures
        r == ascii_upper(c),
{
    if 'a' <= c && c <= 'z' {
        ((c as u8) - 32) as char
    } else {
        c
    }
}

/// Makes a capital ASCII letter small.
pub fn to_ascii_lower(c: char) -> (r: char)
    ensures
        r == ascii_lower(c),
{
    if 'A' <= c && c <= 'Z' {
        ((c as u8) + 32) as char
    } else {
        c
    }
}

impl Chord {
    /// The chord of an empty binding: no modifier, no key.
    pub open spec fn start() -> Chord {
        Chord { modifiers: KeyModifiers::none(), code: None }
    }

    /// This chord with its key replaced by `code`.
    pub open spec fn with_code(self, code: KeyCode) -> Chord {
        Chord { code: Some(code), ..self }
    }

    /// The chord after one more part of a binding.  `part` is trimmed and in
    /// lowercase.  A modifier's name adds the modifier; a key's name, or a
    /// single ASCII character, sets the key, the character capital where
    /// shift has been named before it and small otherwise; anything else
    /// changes nothing.
    pub open spec fn step(self, part: Seq<char>) -> Chord {
        if part == "shift"@ {
            Chord { modifiers: KeyModifiers { shift: true, ..self.modifiers }, ..self }
        } else if part == "ctrl"@ || part == "control"@ {
            Chord { modifiers: KeyModifiers { control: true, ..self.modifiers }, ..self }
        } else if part == "alt"@ {
            Chord { modifiers: KeyModifiers { alt: true, ..self.modifiers }, ..self }
        } else if part == "up"@ {
            self.with_code(KeyCode::Up)
        } else if part == "down"@ {
            self.with_code(KeyCode::Down)
        } else if part == "left"@ {
            self.with_code(KeyCode::Left)
        } else if part == "right"@ {
            self.with_code(KeyCode::Right)
        } else if part == "enter"@ {
            self.with_code(KeyCode::Enter)
        } else if part == "esc"@ || part == "escape"@ {
            self.with_code(KeyCode::Esc)
        } else if part == "tab"@ {
            self.with_code(KeyCode::Tab)
        } else if part == "backspace"@ {
            self.with_code(KeyCode::Backspace)
        } else if part == "space"@ {
            self.with_code(KeyCode::Char(' '))
        } else if part.len() == 1 && is_ascii_char(part[0]) {
            if self.modifiers.shift {
                self.with_code(KeyCode::Char(ascii_upper(part[0])))
            } else {
                self.with_code(KeyCode::Char(ascii_lower(part[0])))
            }
        } else {
            self
        }
    }

    /// The chord that the parts of a binding give, read from left to right.
    pub open spec fn of_parts(parts: Seq<Seq<char>>) -> Chord
        decreases parts.len(),
    {
        if parts.len() == 0 {
            Chord::start()
        } else {
            Chord::of_parts(parts.drop_last()).step(parts.last())
        }
    }

    /// Whether `key` is this chord: the key it names with exactly its
    /// modifiers.  A chord that names no key matches nothing.
    pub open spec fn matches(self, key: KeyEvent) -> bool {
        match self.code {
            Some(code) => key.code == code && key.modifiers == self.modifiers,
            None => false,
        }
    }

    /// The chord of an empty binding.
    pub fn empty() -> (c: Chord)
        ensures
            c == Chord::start(),
    {
        Chord { modifiers: KeyModifiers::empty(), code: None }
    }

    /// Takes one more part of a binding, trimmed and in lowercase.
    pub fn advance(self, part: &[char]) -> (c: Chord)
        ensures
            c == self.step(part@),
    {
        let m = self.modifiers;
        if chars_eq_str(part, "shift") {
            Chord {
                modifiers: KeyModifiers {
                    shift: true,
                    control: m.control,
                    alt: m.alt,
                    other: m.other,
                },
                code: self.code,
            }
        } else if chars_eq_str(part, "ctrl") || chars_eq_str(part, "control") {
            Chord {
                modifiers: KeyModifiers {
                    shift: m.shift,
                    control: true,
                    alt: m.alt,
                    other: m.other,
                },
                code: self.code,
            }
        } else if chars_eq_str(part, "alt") {
            Chord {
                modifiers: KeyModifiers {
                    shift: m.shift,
                    control: m.control,
                    alt: true,
                    other: m.other,
                },
                code: self.code,
            }
        } else if chars_eq_str(part, "up") {
            Chord { modifiers: m, code: Some(KeyCode::Up) }
        } else if chars_eq_str(part, "down") {
            Chord { modifiers: m, code: Some(KeyCode::Down) }
        } else if chars_eq_str(part, "left") {
            Chord { modifiers: m, code: Some(KeyCode::Left) }
        } else if chars_eq_str(part, "right") {
            Chord { modifiers: m, code: Some(KeyCode::Right) }
        } else if chars_eq_str(part, "enter") {
            Chord { modifiers: m, code: Some(KeyCode::Enter) }
        } else if chars_eq_str(part, "esc") || chars_eq_str(part, "escape") {
            Chord { modifiers: m, code: Some(KeyCode::Esc) }
        } else if chars_eq_str(part, "tab") {
            Chord { modifiers: m, code: Some(KeyCode::Tab) }
        } else if chars_eq_str(part, "backspace") {
            Chord { modifiers: m, code: Some(KeyCode::Backspace) }
        } else if chars_eq_str(part, "space") {
            Chord { modifiers: m, code: Some(KeyCode::Char(' ')) }
        } else if part.len() == 1 && part[0] <= '\u{7f}' {
            let ch = if m.shift {
                to_ascii_upper(part[0])
            } else {
                to_ascii_lower(part[0])
            };
            Chord { modifiers: m, code: Some(KeyCode::Char(ch)) }
        } else {
            self
        }
    }

    /// Reads the parts of a binding, each trimmed and in lowercase, from
    /// left to right.
    pub fn from_parts(parts: &Vec<Vec<char>>) -> (c: Chord)
        ensures
            c == Chord::of_parts(parts@.map_values(|p: Vec<char>| p@)),
    {
        let ghost views = parts@.map_values(|p: Vec<char>| p@);
        let mut chord = Chord::empty();
        let mut i: usize = 0;
        while i < parts.len()
            invariant
                i <= parts.len(),
                views == parts@.map_values(|p: Vec<char>| p@),
                chord == Chord::of_parts(views.take(i as int)),
            decreases parts.len() - i,
        {
            proof {
                assert(views.take(i + 1).drop_last() =~= views.take(i as int));
            }
            chord = chord.advance(parts[i].as_slice());
            i += 1;
        }
        proof {
            assert(views.take(parts.len() as int) =~= views);
        }
        chord
    }

    /// Whether `key_event` is this chord.
    pub fn is_matched_by(&self, key_event: &KeyEvent) -> (r: bool)
        ensures
            r == self.matches(*key_event),
    {
        match self.code {
            Some(code) => key_event.code == code && key_event.modifiers == self.modifiers,
            None => false,
        }
    }
}

/// The parts of a binding: what stands between its plus signs, each part
/// trimmed and put in lowercase.
pub open spec fn binding_parts(binding: Seq<char>) -> Seq<Seq<char>> {
    split(binding, '+').map_values(|p: Seq<char>| lowercase_of(trim(p)))
}

/// Whether `key` matches the binding `binding`.
pub open spec fn binding_matches(binding: Seq<char>, key: KeyEvent) -> bool {
    Chord::of_parts(binding_parts(binding)).matches(key)
}

/// Reads a binding such as `shift+w` or `enter`.
pub fn parse_binding(binding: &str) -> (c: Chord)
    ensures
        c == Chord::of_parts(binding_parts(binding@)),
{
    let chars = to_chars(binding);
    let pieces = split_chars(chars.as_slice(), '+');
    let ghost parts = binding_parts(binding@);
    let mut chord = Chord::empty();
    let mut i: usize = 0;
    while i < pieces.len()
        invariant
            i <= pieces.len(),
            slice_views(pieces@) == split(binding@, '+'),
            parts == binding_parts(binding@),
            chord == Chord::of_parts(parts.take(i as int)),
        decreases pieces.len() - i,
    {
        let trimmed = from_chars(trim_chars(pieces[i]));
        let lowered = to_chars(trimmed.as_str().to_lowercase().as_str());
        proof {
            assert(slice_views(pieces@)[i as int] == pieces@[i as int]@);
            assert(parts.take(i + 1).drop_last() =~= parts.take(i as int));
            assert(parts.take(i + 1).last() == lowered@);
        }
        chord = chord.advance(lowered.as_slice());
        i += 1;
    }
    proof {
        assert(slice_views(pieces@).len() == pieces@.len());
        assert(parts.take(pieces.len() as int) =~= parts);
    }
    chord
}

// ---------------------------------------------------------------------------
// The resolved lookup
// ---------------------------------------------------------------------------

/// For one key event, which logical actions its key is bound to.
#[derive(Clone, Copy, Debug, PartialEq, Eq, Structural)]
pub struct KeyActions {
    pub nav_up: bool,
    pub nav_down: bool,
    pub content_up: bool,
    pub content_down: bool,
    pub content_left: bool,
    pub content_right: bool,
    pub accept: bool,
    pub info: bool,
    pub cancel: bool,
    pub quit: bool,
}

impl Keybinds {
    /// The actions that `key` is bound to under these bindings.
    pub open spec fn actions(&self, key: KeyEvent) -> KeyActions {
        KeyActions {
            nav_up: binding_matches(self.nav_up@, key),
            nav_down: binding_matches(self.nav_down@, key),
            content_up: binding_matches(self.content_up@, key),
            content_down: binding_matches(self.content_down@, key),
            content_left: binding_matches(self.content_left@, key),
            content_right: binding_matches(self.content_right@, key),
            accept: binding_matches(self.accept@, key),
            info: binding_matches(self.info@, key),
            cancel: binding_matches(self.cancel@, key),
            quit: binding_matches(self.quit@, key),
        }
    }
}

impl Config {
    /// Whether `key_event` matches the binding `keybind_str`, for example
    /// `"shift+w"` or `"enter"`.
    pub fn key_matches(&self, key_event: &KeyEvent, keybind_str: &str) -> (r: bool)
        ensures
            r == binding_matches(keybind_str@, *key_event),
    {
        parse_binding(keybind_str).is_matched_by(key_event)
    }

    /// Looks `key_event` up under every binding.
    pub fn resolve(&self, key_event: &KeyEvent) -> (m: KeyActions)
        ensures
            m == self.keybinds.actions(*key_event),
    {
        KeyActions {
            nav_up: self.key_matches(key_event, self.keybinds.nav_up.as_str()),
            nav_down: self.key_matches(key_event, self.keybinds.nav_down.as_str()),
            content_up: self.key_matches(key_event, self.keybinds.content_up.as_str()),
            content_down: self.key_matches(key_event, self.keybinds.content_down.as_str()),
            content_left: self.key_matches(key_event, self.keybinds.content_left.as_str()),
            content_right: self.key_matches(key_event, self.keybinds.content_right.as_str()),
            accept: self.key_matches(key_event, self.keybinds.accept.as_str()),
            info: self.key_matches(key_event, self.keybinds.info.as_str()),
            cancel: self.key_matches(key_event, self.keybinds.cancel.as_str()),
            quit: self.key_matches(key_event, self.keybinds.quit.as_str()),
        }
    }
}

// ---------------------------------------------------------------------------
// Colours and borders
// ---------------------------------------------------------------------------

/// Why a theme could not be resolved.  Each variant holds the text that was
/// refused, in lowercase.
#[derive(Clone, Debug, PartialEq, Eq)]
pub enum ConfigError {
    /// The text is neither the name of a colour nor `#rrggbb`.
    InvalidColor(String),
    /// The text is not the name of a border style.
    InvalidBorderType(String),
}

/// An error with the refused text as a sequence of characters.
pub enum ConfigErrorView {
    InvalidColor(Seq<char>),
    InvalidBorderType(Seq<char>),
}

impl View for ConfigError {
    type V = ConfigErrorView;

    open spec fn view(&self) -> ConfigErrorView {
        match self {
            ConfigError::InvalidColor(text) => ConfigErrorView::InvalidColor(text@),
            ConfigError::InvalidBorderType(text) => ConfigErrorView::InvalidBorderType(text@),
        }
    }
}

impl ConfigErrorView {
    /// The error in words.
    pub open spec fn message(self) -> Seq<char> {
        match self {
            ConfigErrorView::InvalidColor(text) => "Invalid color: "@ + text,
            ConfigErrorView::InvalidBorderType(text) => "Invalid border type: "@ + text,
        }
    }
}

impl ConfigError {
    /// The error in words.
    pub fn message(&self) -> (m: String)
        ensures
            m@ == self@.message(),
    {
        let mut m = String::new();
        match self {
            ConfigError::InvalidColor(text) => {
                push_text(&mut m, "Invalid color: ");
                push_text(&mut m, text.as_str());
                proof {
                    assert(m@ =~= "Invalid color: "@ + text@);
                }
            },
            ConfigError::InvalidBorderType(text) => {
                push_text(&mut m, "Invalid border type: ");
                push_text(&mut m, text.as_str());
                proof {
                    assert(m@ =~= "Invalid border type: "@ + text@);
                }
            },
        }
        m
    }
}

/// The value of a hexadecimal digit, small or capital.
pub open spec fn hex_digit(c: char) -> Option<u8> {
    if '0' <= c && c <= '9' {
        Some(((c as u8) - 48) as u8)
    } else if 'a' <= c && c <= 'f' {
        Some(((c as u8) - 87) as u8)
    } else if 'A' <= c && c <= 'F' {
        Some(((c as u8) - 55) as u8)
    } else {
        None
    }
}

/// The byte that two characters write in base sixteen: two digits, or a
/// plus sign and one digit.
pub open spec fn hex_pair(a: char, b: char) -> Option<u8> {
    match (hex_digit(a), hex_digit(b)) {
        (Some(high), Some(low)) => Some((16 * high + low) as u8),
        (None, Some(low)) => if a == '+' {
            Some(low)
        } else {
            None
        },
        _ => None,
    }
}

/// The colour that `#rrggbb` writes.
pub open spec fn hex_color(s: Seq<char>) -> Option<Color> {
    if s.len() == 7 && s[0] == '#' {
        match (hex_pair(s[1], s[2]), hex_pair(s[3], s[4]), hex_pair(s[5], s[6])) {
            (Some(r), Some(g), Some(b)) => Some(Color::Rgb(r, g, b)),
            _ => None,
        }
    } else {
        None
    }
}

/// The colour that the lowercase text `lower` names: one of ten names, or
/// `#rrggbb`.
pub open spec fn color_of(lower: Seq<char>) -> Option<Color> {
    if lower == "black"@ {
        Some(Color::Black)
    } else if lower == "red"@ {
        Some(Color::Red)
    } else if lower == "green"@ {
        Some(Color::Green)
    } else if lower == "yellow"@ {
        Some(Color::Yellow)
    } else if lower == "blue"@ {
        Some(Color::Blue)
    } else if lower == "magenta"@ {
        Some(Color::Magenta)
    } else if lower == "cyan"@ {
        Some(Color::Cyan)
    } else if lower == "gray"@ {
        Some(Color::Gray)
    } else if lower == "darkgray"@ {
        Some(Color::DarkGray)
    } else if lower == "white"@ {
        Some(Color::White)
    } else {
        hex_color(lower)
    }
}

/// The border style that the lowercase text `lower` names.
pub open spec fn border_of(lower: Seq<char>) -> Option<BorderType> {
    if lower == "plain"@ {
        Some(BorderType::Plain)
    } else if lower == "rounded"@ {
        Some(BorderType::Rounded)
    } else if lower == "double"@ {
        Some(BorderType::Double)
    } else if lower == "thick"@ {
        Some(BorderType::Thick)
    } else {
        None
    }
}

/// What reading the colour `s` gives: the colour that its lowercase form
/// names, or that form as the error.
pub open spec fn parsed_color(s: Seq<char>) -> Result<Color, ConfigErrorView> {
    match color_of(lowercase_of(s)) {
        Some(color) => Ok(color),
        None => Err(ConfigErrorView::InvalidColor(lowercase_of(s))),
    }
}

/// What reading the border style `s` gives.
pub open spec fn parsed_border(s: Seq<char>) -> Result<BorderType, ConfigErrorView> {
    match border_of(lowercase_of(s)) {
        Some(border) => Ok(border),
        None => Err(ConfigErrorView::InvalidBorderType(lowercase_of(s))),
    }
}

/// The value of a hexadecimal digit.
pub fn hex_digit_of(c: char) -> (d: Option<u8>)
    ensures
        d == hex_digit(c),
{
    if '0' <= c && c <= '9' {
        Some((c as u8) - 48)
    } else if 'a' <= c && c <= 'f' {
        Some((c as u8) - 87)
    } else if 'A' <= c && c <= 'F' {
        Some((c as u8) - 55)
    } else {
        None
    }
}

/// The byte that two characters write in base sixteen.
pub fn hex_pair_of(a: char, b: char) -> (r: Option<u8>)
    ensures
        r == hex_pair(a, b),
{
    match hex_digit_of(b) {
        None => None,
        Some(low) => match hex_digit_of(a) {
            Some(high) => Some(16 * high + low),
            None => if a == '+' {
                Some(low)
            } else {
                None
            },
        },
    }
}

/// The colour that the lowercase text `lower` names.
pub fn color_from_lowercase(lower: &[char]) -> (r: Option<Color>)
    ensures
        r == color_of(lower@),
{
    if chars_eq_str(lower, "black") {
        Some(Color::Black)
    } else if chars_eq_str(lower, "red") {
        Some(Color::Red)
    } else if chars_eq_str(lower, "green") {
        Some(Color::Green)
    } else if chars_eq_str(lower, "yellow") {
        Some(Color::Yellow)
    } else if chars_eq_str(lower, "blue") {
        Some(Color::Blue)
    } else if chars_eq_str(lower, "magenta") {
        Some(Color::Magenta)
    } else if chars_eq_str(lower, "cyan") {
        Some(Color::Cyan)
    } else if chars_eq_str(lower, "gray") {
        Some(Color::Gray)
    } else if chars_eq_str(lower, "darkgray") {
        Some(Color::DarkGray)
    } else if chars_eq_str(lower, "white") {
        Some(Color::White)
    } else if lower.len() == 7 && lower[0] == '#' {
        match hex_pair_of(lower[1], lower[2]) {
            None => None,
            Some(r) => match hex_pair_of(lower[3], lower[4]) {
                None => None,
                Some(g) => match hex_pair_of(lower[5], lower[6]) {
                    None => None,
                    Some(b) => Some(Color::Rgb(r, g, b)),
                },
            },
        }
    } else {
        None
    }
}

/// The border style that the lowercase text `lower` names.
pub fn border_from_lowercase(lower: &[char]) -> (r: Option<BorderType>)
    ensures
        r == border_of(lower@),
{
    if chars_eq_str(lower, "plain") {
        Some(BorderType::Plain)
    } else if chars_eq_str(lower, "rounded") {
        Some(BorderType::Rounded)
    } else if chars_eq_str(lower, "double") {
        Some(BorderType::Double)
    } else if chars_eq_str(lower, "thick") {
        Some(BorderType::Thick)
    } else {
        None
    }
}

/// Reads a colour: a name such as `red` or `DarkGray`, or `#rrggbb`.
pub fn parse_color(s: &str) -> (r: Result<Color, ConfigError>)
    ensures
        match r {
            Ok(color) => parsed_color(s@) == Ok::<Color, ConfigErrorView>(color),
            Err(e) => parsed_color(s@) == Err::<Color, ConfigErrorView>(e@),
        },
{
    let lowered = s.to_lowercase();
    let chars = to_chars(lowered.as_str());
    match color_from_lowercase(chars.as_slice()) {
        Some(color) => Ok(color),
        None => Err(ConfigError::InvalidColor(lowered)),
    }
}

/// Reads a border style: `plain`, `rounded`, `double` or `thick`.
pub fn parse_border(s: &str) -> (r: Result<BorderType, ConfigError>)
    ensures
        match r {
            Ok(border) => parsed_border(s@) == Ok::<BorderType, ConfigErrorView>(border),
            Err(e) => parsed_border(s@) == Err::<BorderType, ConfigErrorView>(e@),
        },
{
    let lowered = s.to_lowercase();
    let chars = to_chars(lowered.as_str());
    match border_from_lowercase(chars.as_slice()) {
        Some(border) => Ok(border),
        None => Err(ConfigError::InvalidBorderType(lowered)),
    }
}

// ---------------------------------------------------------------------------
// Resolving the theme
// ---------------------------------------------------------------------------

/// The error of a reading, where it failed.
pub open spec fn failure_of<T>(r: Result<T, ConfigErrorView>) -> Option<ConfigErrorView> {
    match r {
        Ok(_) => None,
        Err(e) => Some(e),
    }
}

/// The first error in `checks`.
pub open spec fn first_failure(checks: Seq<Option<ConfigErrorView>>) -> Option<ConfigErrorView>
    decreases checks.len(),
{
    if checks.len() == 0 {
        None
    } else if checks[0] is Some {
        checks[0]
    } else {
        first_failure(checks.drop_first())
    }
}

impl RawThemes {
    /// What reading each entry of the theme gives, in the order in which
    /// they are read.
    pub open spec fn checks(&self) -> Seq<Option<ConfigErrorView>> {
        seq![
            failure_of(parsed_color(self.border_color@)),
            failure_of(parsed_border(self.border_style@)),
            failure_of(parsed_color(self.nav_selected_fg_color@)),
            failure_of(parsed_color(self.nav_selected_bg_color@)),
            failure_of(parsed_color(self.content_selected_color@)),
            failure_of(parsed_color(self.bg_color@)),
            failure_of(parsed_color(self.fg_color@)),
            failure_of(parsed_color(self.scroll_color@)),
            failure_of(parsed_color(self.bar_side_color@)),
            failure_of(parsed_color(self.bar_filled_color@)),
            failure_of(parsed_color(self.bar_empty_color@)),
            failure_of(parsed_color(self.bar_selected_side_color@)),
            failure_of(parsed_color(self.bar_selected_filled_color@)),
            failure_of(parsed_color(self.bar_selected_empty_color@)),
        ]
    }

    /// The theme with every entry read; it is the theme of these entries
    /// where no reading fails.
    pub open spec fn resolved(&self) -> Theme {
        Theme {
            borders_on: self.borders_on,
            border_color: parsed_color(self.border_color@)->Ok_0,
            border_type: parsed_border(self.border_style@)->Ok_0,
            nav_selected_fg_color: parsed_color(self.nav_selected_fg_color@)->Ok_0,
            nav_selected_bg_color: parsed_color(self.nav_selected_bg_color@)->Ok_0,
            content_selected_color: parsed_color(self.content_selected_color@)->Ok_0,
            bg_color: parsed_color(self.bg_color@)->Ok_0,
            fg_color: parsed_color(self.fg_color@)->Ok_0,
            scroll_color: parsed_color(self.scroll_color@)->Ok_0,
            bar_side_color: parsed_color(self.bar_side_color@)->Ok_0,
            bar_filled_color: parsed_color(self.bar_filled_color@)->Ok_0,
            bar_empty_color: parsed_color(self.bar_empty_color@)->Ok_0,
            bar_selected_side_color: parsed_color(self.bar_selected_side_color@)->Ok_0,
            bar_selected_filled_color: parsed_color(self.bar_selected_filled_color@)->Ok_0,
            bar_selected_empty_color: parsed_color(self.bar_selected_empty_color@)->Ok_0,
        }
    }
}

impl Theme {
    /// Resolves a theme: reads every colour and the border style.  Where a
    /// reading fails, the error is that of the first entry that fails.
    pub fn try_from(raw: RawThemes) -> (r: Result<Theme, ConfigError>)
        ensures
            match r {
                Ok(theme) => first_failure(raw.checks()) is None && theme == raw.resolved(),
                Err(e) => first_failure(raw.checks()) == Some(e@),
            },
    {
        proof {
            reveal_with_fuel(first_failure, 15);
        }
        let border_color = match parse_color(raw.border_color.as_str()) {
            Ok(c) => c,
            Err(e) => {
                return Err(e);
            },
        };
        let border_type = match parse_border(raw.border_style.as_str()) {
            Ok(b) => b,
            Err(e) => {
                return Err(e);
            },
        };
        let nav_selected_fg_color = match parse_color(raw.nav_selected_fg_color.as_str()) {
            Ok(c) => c,
            Err(e) => {
                return Err(e);
            },
        };
        let nav_selected_bg_color = match parse_color(raw.nav_selected_bg_color.as_str()) {
            Ok(c) => c,
            Err(e) => {
                return Err(e);
            },
        };
        let content_selected_color = match parse_color(raw.content_selected_color.as_str()) {
            Ok(c) => c,
            Err(e) => {
                return Err(e);
            },
        };
        let bg_color = match parse_color(raw.bg_color.as_str()) {
            Ok(c) => c,
            Err(e) => {
                return Err(e);
            },
        };
        let fg_color = match parse_color(raw.fg_color.as_str()) {
            Ok(c) => c,
            Err(e) => {
                return Err(e);
            },
        };
        let scroll_color = match parse_color(raw.scroll_color.as_str()) {
            Ok(c) => c,
            Err(e) => {
                return Err(e);
            },
        };
        let bar_side_color = match parse_color(raw.bar_side_color.as_str()) {
            Ok(c) => c,
            Err(e) => {
                return Err(e);
            },
        };
        let bar_filled_color = match parse_color(raw.bar_filled_color.as_str()) {
            Ok(c) => c,
            Err(e) => {
                return Err(e);
            },
        };
        let bar_empty_color = match parse_color(raw.bar_empty_color.as_str()) {
            Ok(c) => c,
            Err(e) => {
                return Err(e);
            },
        };
        let bar_selected_side_color = match parse_color(raw.bar_selected_side_color.as_str()) {
            Ok(c) => c,
            Err(e) => {
                return Err(e);
            },
        };
        let bar_selected_filled_color = match parse_color(raw.bar_selected_filled_color.as_str()) {
            Ok(c) => c,
            Err(e) => {
                return Err(e);
            },
        };
        let bar_selected_empty_color = match parse_color(raw.bar_selected_empty_color.as_str()) {
            Ok(c) => c,
            Err(e) => {
                return Err(e);
            },
        };
        Ok(
            Theme {
                borders_on: raw.borders_on,
                border_color,
                border_type,
                nav_selected_fg_color,
                nav_selected_bg_color,
                content_selected_color,
                bg_color,
                fg_color,
                scroll_color,
                bar_side_color,
                bar_filled_color,
                bar_empty_color,
                bar_selected_side_color,
                bar_selected_filled_color,
                bar_selected_empty_color,
            },
        )
    }
}

impl Config {
    /// Makes the configuration out of what the configuration file holds:
    /// the theme as `Theme::try_from` resolves it, the bindings as they
    /// are.  Finding and reading the file is left to the caller.
    pub fn load(raw: RawConfig) -> (r: Result<Config, ConfigError>)
        ensures
            match r {
                Ok(config) => {
                    &&& first_failure(raw.themes.checks()) is None
                    &&& config.themes == raw.themes.resolved()
                    &&& config.keybinds == raw.keybinds
                },
                Err(e) => first_failure(raw.themes.checks()) == Some(e@),
            },
    {
        let RawConfig { themes, keybinds } = raw;
        match Theme::try_from(themes) {
            Ok(themes) => Ok(Config { themes, keybinds }),
            Err(e) => Err(e),
        }
    }
}

} // verus!
