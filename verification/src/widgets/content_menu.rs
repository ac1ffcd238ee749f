//! The menu that hosts the panes, and what a pane hands it to draw.

use crate::config::{Config, KeyActions, Theme};
use crate::keys::{Event, KeyEvent, KeyEventKind};
use crate::selection::{in_range, index_down, index_up, step_down, step_up};
use crate::ui::{
    lemma_lines_view_push, lines_view, Block, BlockView, Borders, Line, LineView, List, ListView,
    Padding, Paragraph, ParagraphView, Rect, Style,
};
use vstd::prelude::*;

verus! {

/// What a pane shows in one region: a paragraph or a list.
#[derive(Clone, Debug, PartialEq, Eq)]
pub enum EnContentMenuItem {
    Paragraph(Paragraph),
    List(List),
}

/// The content of a region with its text as sequences of characters.
pub enum ContentView {
    Paragraph(ParagraphView),
    List(ListView),
}

impl View for EnContentMenuItem {
    type V = ContentView;

    open spec fn view(&self) -> ContentView {
        match self {
            EnContentMenuItem::Paragraph(p) => ContentView::Paragraph(p@),
            EnContentMenuItem::List(l) => ContentView::List(l@),
        }
    }
}

/// What a pane hands to the menu for one frame: its content, and an overlay
/// with the region it is drawn in.  The overlay is drawn only where
/// `show_overlay` is set.
#[derive(Clone, Debug, PartialEq, Eq)]
pub struct WiMenuItem {
    pub content: EnContentMenuItem,
    pub overlay: EnContentMenuItem,
    pub overlay_area: Rect,
    pub show_overlay: bool,
}

/// What a pane hands over, with the views of its content and overlay.
pub struct WiMenuItemView {
    pub content: ContentView,
    pub overlay: ContentView,
    pub overlay_area: Rect,
    pub show_overlay: bool,
}

impl View for WiMenuItem {
    type V = WiMenuItemView;

    open spec fn view(&self) -> WiMenuItemView {
        WiMenuItemView {
            content: self.content@,
            overlay: self.overlay@,
            overlay_area: self.overlay_area,
            show_overlay: self.show_overlay,
        }
    }
}

/// What an item of the menu reports when its handler or its starter fails.
#[derive(Clone, Debug, PartialEq, Eq)]
pub struct MenuError {
    pub message: String,
}

/// One item of the menu: a title, and the three things the menu asks of a
/// pane.  `event` is handed every input event while the item is selected,
/// `starter` is run once when the menu is made, and `render` says what to
/// draw in a region.
pub struct StMenuItem<E, S, R> where
    E: Fn(&Event) -> Result<(), MenuError>,
    S: Fn() -> Result<(), MenuError>,
    R: Fn(Rect) -> WiMenuItem,
 {
    pub title: String,
    pub event: E,
    pub starter: S,
    pub render: R,
}

/// One thing to draw: a widget and the region it goes to.
#[derive(Clone, Debug, PartialEq, Eq)]
pub struct Draw {
    pub widget: EnContentMenuItem,
    pub area: Rect,
}

/// One thing to draw, with the view of its widget.
pub struct DrawView {
    pub widget: ContentView,
    pub area: Rect,
}

impl View for Draw {
    type V = DrawView;

    open spec fn view(&self) -> DrawView {
        DrawView { widget: self.widget@, area: self.area }
    }
}

/// The views of the drawings in `v`.
pub open spec fn draws_view(v: Seq<Draw>) -> Seq<DrawView> {
    v.map_values(|d: Draw| d@)
}

/// The index that the menu selects after a key event that is bound to the
/// actions `a`: a press of the key for up or down moves it, round and
/// round; anything else leaves it.
pub open spec fn navigate(selected: nat, len: nat, key: KeyEvent, a: KeyActions) -> nat {
    if key.kind != KeyEventKind::Press {
        selected
    } else if a.nav_up {
        index_up(selected, len)
    } else if a.nav_down {
        index_down(selected, len)
    } else {
        selected
    }
}

/// The index that the menu selects after an input event.
pub open spec fn navigate_event(selected: nat, len: nat, event: Event, config: Config) -> nat {
    match event {
        Event::Key(key) => navigate(selected, len, key, config.keybinds.actions(key)),
        Event::Other => selected,
    }
}

/// The frame of the navigation bar: the theme's border on the left, at the
/// top and at the bottom.
pub open spec fn navigation_block(theme: Theme) -> BlockView {
    BlockView {
        title: None,
        borders: Borders {
            top: theme.borders_on,
            right: false,
            bottom: theme.borders_on,
            left: theme.borders_on,
        },
        border_type: theme.border_type,
        border_style: Style::fg_only(theme.border_color),
        style: Style::plain(),
        padding: Padding::zero(),
    }
}

/// The line of one title in the navigation bar: in the theme's colours for
/// the selected entry where it is selected, plain otherwise.
pub open spec fn navigation_line(title: Seq<char>, is_selected: bool, theme: Theme) -> LineView {
    LineView::single(title, Style::plain()).with_style(
        if is_selected {
            Style::colors(theme.nav_selected_fg_color, theme.nav_selected_bg_color)
        } else {
            Style::plain()
        },
    )
}

/// The navigation bar: the titles from top to bottom, the selected one
/// highlighted.
pub open spec fn navigation_bar(
    titles: Seq<Seq<char>>,
    selected: nat,
    theme: Theme,
) -> ParagraphView {
    ParagraphView {
        lines: Seq::new(titles.len(), |i: int| navigation_line(titles[i], i == selected, theme)),
        style: Style::plain(),
        block: Some(navigation_block(theme)),
        centered: false,
    }
}

/// What is drawn for one frame, in this order: the content of the selected
/// pane in the primary region; over it the pane's overlay in its own
/// region, only where the pane shows one; the navigation bar in its
/// region.
pub open spec fn composed(
    pane: WiMenuItemView,
    primary: Rect,
    bar: ParagraphView,
    navigation: Rect,
) -> Seq<DrawView> {
    seq![DrawView { widget: pane.content, area: primary }] + (if pane.show_overlay {
        seq![DrawView { widget: pane.overlay, area: pane.overlay_area }]
    } else {
        Seq::empty()
    }) + seq![DrawView { widget: ContentView::Paragraph(bar), area: navigation }]
}

/// Puts together what is drawn for one frame from what the selected pane
/// handed over and the navigation bar.
pub fn compose(
    pane: WiMenuItem,
    primary: Rect,
    bar: Paragraph,
    navigation: Rect,
) -> (out: Vec<Draw>)
    ensures
        draws_view(out@) == composed(pane@, primary, bar@, navigation),
{
    let mut out: Vec<Draw> = Vec::new();
    let WiMenuItem { content, overlay, overlay_area, show_overlay } = pane;
    out.push(Draw { widget: content, area: primary });
    if show_overlay {
        out.push(Draw { widget: overlay, area: overlay_area });
    }
    out.push(Draw { widget: EnContentMenuItem::Paragraph(bar), area: navigation });
    proof {
        assert(draws_view(out@) =~= composed(pane@, primary, bar@, navigation));
    }
    out
}

/// The starter `starter` has run, and it failed exactly where `failed`
/// says so.
pub open spec fn starter_ran<S: Fn() -> Result<(), MenuError>>(starter: S, failed: bool) -> bool {
    exists|r: Result<(), MenuError>|
        #[trigger] call_ensures(starter, (), r) && (r is Err <==> failed)
}

/// The starter of the item `i` has run, and `failures` holds `i` exactly
/// where it failed.
pub open spec fn item_started<E, S, R>(
    items: Seq<StMenuItem<E, S, R>>,
    failures: Seq<usize>,
    i: int,
) -> bool where
    E: Fn(&Event) -> Result<(), MenuError>,
    S: Fn() -> Result<(), MenuError>,
    R: Fn(Rect) -> WiMenuItem,
 {
    starter_ran(items[i].starter, failures.contains(i as usize))
}

/// The menu: an ordered list of items, fixed when the menu is made, and
/// the index of the selected one.
pub struct ContentMenu<E, S, R> where
    E: Fn(&Event) -> Result<(), MenuError>,
    S: Fn() -> Result<(), MenuError>,
    R: Fn(Rect) -> WiMenuItem,
 {
    selected_button: usize,
    items: Vec<StMenuItem<E, S, R>>,
    failed_starters: Vec<usize>,
}

impl<E, S, R> ContentMenu<E, S, R> where
    E: Fn(&Event) -> Result<(), MenuError>,
    S: Fn() -> Result<(), MenuError>,
    R: Fn(Rect) -> WiMenuItem,
 {
    #[verifier::type_invariant]
    spec fn inv(&self) -> bool {
        in_range(self.selected_button as nat, self.items@.len())
    }

    /// The index of the selected item.
    pub closed spec fn selected(&self) -> nat {
        self.selected_button as nat
    }

    /// The items, in their order.
    pub closed spec fn entries(&self) -> Seq<StMenuItem<E, S, R>> {
        self.items@
    }

    /// The indices of the items whose starter failed when the menu was
    /// made, in the order in which the starters ran.
    pub closed spec fn failures(&self) -> Seq<usize> {
        self.failed_starters@
    }

    /// The titles of the items, in their order.
    pub open spec fn titles(&self) -> Seq<Seq<char>> {
        Seq::new(self.entries().len(), |i: int| self.entries()[i].title@)
    }

    /// Makes the menu and runs the starter of every item once, in the order
    /// of the items.  A starter that fails stops nothing: its index is
    /// noted and the next starter runs.
    pub fn new(items: Vec<StMenuItem<E, S, R>>) -> (menu: Self)
        requires
            forall|i: int|
                0 <= i < items@.len() ==> call_requires(#[trigger] items@[i].starter, ()),
        ensures
            menu.entries() == items@,
            menu.selected() == 0,
            forall|i: int|
                0 <= i < items@.len() ==> #[trigger] item_started(items@, menu.failures(), i),
            forall|k: int| 0 <= k < menu.failures().len() ==> menu.failures()[k] < items@.len(),
            forall|a: int, b: int|
                0 <= a < b < menu.failures().len() ==> menu.failures()[a] < menu.failures()[b],
    {
        let mut failed: Vec<usize> = Vec::new();
        let mut i: usize = 0;
        while i < items.len()
            invariant
                i <= items.len(),
                forall|j: int|
                    0 <= j < items@.len() ==> call_requires(#[trigger] items@[j].starter, ()),
                forall|j: int| 0 <= j < i ==> #[trigger] item_started(items@, failed@, j),
                forall|k: int| 0 <= k < failed@.len() ==> failed@[k] < i,
                forall|a: int, b: int| 0 <= a < b < failed@.len() ==> failed@[a] < failed@[b],
            decreases items.len() - i,
        {
            let outcome = (items[i].starter)();
            let ghost before = failed@;
            if outcome.is_err() {
                failed.push(i);
            }
            proof {
                assert forall|j: int| 0 <= j < i + 1 implies #[trigger] item_started(
                    items@,
                    failed@,
                    j,
                ) by {
                    if j < i {
                        assert(item_started(items@, before, j));
                        if before.contains(j as usize) {
                            let k = choose|k: int| 0 <= k < before.len() && before[k] == j as usize;
                            assert(failed@[k] == j as usize);
                        }
                        if failed@.contains(j as usize) {
                            let k = choose|k: int|
                                0 <= k < failed@.len() && failed@[k] == j as usize;
                            assert(k < before.len());
                            assert(before[k] == j as usize);
                        }
                        assert(before.contains(j as usize) == failed@.contains(j as usize));
                    } else {
                        if outcome is Err {
                            assert(failed@[failed@.len() - 1] == i);
                        } else {
                            if failed@.contains(i) {
                                let k = choose|k: int| 0 <= k < failed@.len() && failed@[k] == i;
                                assert(before[k] < i);
                            }
                        }
                        assert(call_ensures(items@[j].starter, (), outcome));
                    }
                }
            }
            i += 1;
        }
        ContentMenu { selected_button: 0, items, failed_starters: failed }
    }

    /// How many items the menu has.
    pub fn len(&self) -> (n: usize)
        ensures
            n == self.entries().len(),
    {
        self.items.len()
    }

    /// The index of the selected item: below the number of items, and 0
    /// where the menu is empty.
    pub fn selected_button(&self) -> (r: usize)
        ensures
            r == self.selected(),
            in_range(r as nat, self.entries().len()),
    {
        proof {
            use_type_invariant(self);
        }
        self.selected_button
    }

    /// The indices of the items whose starter failed.
    pub fn failed_starters(&self) -> (r: &Vec<usize>)
        ensures
            r@ == self.failures(),
    {
        &self.failed_starters
    }

    /// The title of the item `index`.
    pub fn title(&self, index: usize) -> (r: &String)
        requires
            index < self.entries().len(),
        ensures
            r@ == self.titles()[index as int],
    {
        &self.items[index].title
    }

    /// Moves the selection one item down, from the last to the first.
    pub fn move_selected_down(&mut self)
        ensures
            final(self).selected() == index_down(old(self).selected(), old(self).entries().len()),
            final(self).entries() == old(self).entries(),
            final(self).failures() == old(self).failures(),
    {
        proof {
            use_type_invariant(&*self);
        }
        self.selected_button = step_down(self.selected_button, self.items.len());
    }

    /// Moves the selection one item up, from the first to the last.
    pub fn move_selected_up(&mut self)
        ensures
            final(self).selected() == index_up(old(self).selected(), old(self).entries().len()),
            final(self).entries() == old(self).entries(),
            final(self).failures() == old(self).failures(),
    {
        proof {
            use_type_invariant(&*self);
        }
        self.selected_button = step_up(self.selected_button, self.items.len());
    }

    /// Moves the selection as a key event that is bound to `actions` asks.
    pub fn apply_key(&mut self, key_event: &KeyEvent, actions: &KeyActions)
        ensures
            final(self).selected() == navigate(
                old(self).selected(),
                old(self).entries().len(),
                *key_event,
                *actions,
            ),
            final(self).entries() == old(self).entries(),
            final(self).failures() == old(self).failures(),
    {
        if key_event.kind != KeyEventKind::Press {
            return ;
        }
        if actions.nav_up {
            self.move_selected_up();
        } else if actions.nav_down {
            self.move_selected_down();
        }
    }

    /// Moves the selection as a key event asks under the bindings of
    /// `config`.
    fn handle_key_event(&mut self, key_event: &KeyEvent, config: &Config)
        ensures
            final(self).selected() == navigate(
                old(self).selected(),
                old(self).entries().len(),
                *key_event,
                config.keybinds.actions(*key_event),
            ),
            final(self).entries() == old(self).entries(),
            final(self).failures() == old(self).failures(),
    {
        let actions = config.resolve(key_event);
        self.apply_key(key_event, &actions);
    }

    /// Hands `event` to the handler of the selected item, then moves the
    /// selection where the event is a press of a navigation key.  What the
    /// handler reported comes back and stops nothing; `None` comes back
    /// where the menu has no item.
    pub fn handle_events(&mut self, event: &Event, config: &Config) -> (forwarded: Option<
        Result<(), MenuError>,
    >)
        requires
            old(self).entries().len() > 0 ==> call_requires(
                old(self).entries()[old(self).selected() as int].event,
                (event,),
            ),
        ensures
            final(self).entries() == old(self).entries(),
            final(self).failures() == old(self).failures(),
            final(self).selected() == navigate_event(
                old(self).selected(),
                old(self).entries().len(),
                *event,
                *config,
            ),
            old(self).entries().len() == 0 ==> forwarded is None,
            old(self).entries().len() > 0 ==> forwarded is Some && call_ensures(
                old(self).entries()[old(self).selected() as int].event,
                (event,),
                forwarded->0,
            ),
    {
        proof {
            use_type_invariant(&*self);
        }
        let forwarded = if self.selected_button < self.items.len() {
            Some((self.items[self.selected_button].event)(event))
        } else {
            None
        };
        match event {
            Event::Key(key_event) => {
                self.handle_key_event(key_event, config);
            },
            Event::Other => {},
        }
        forwarded
    }

    /// The navigation bar.
    pub fn navigation(&self, theme: &Theme) -> (bar: Paragraph)
        ensures
            bar@ == navigation_bar(self.titles(), self.selected(), *theme),
    {
        let ghost expected = navigation_bar(self.titles(), self.selected(), *theme).lines;
        let mut button_lines: Vec<Line> = Vec::new();
        let mut i: usize = 0;
        proof {
            assert(lines_view(button_lines@) =~= expected.take(0));
        }
        while i < self.items.len()
            invariant
                i <= self.items.len(),
                expected == navigation_bar(self.titles(), self.selected(), *theme).lines,
                lines_view(button_lines@) == expected.take(i as int),
            decreases self.items.len() - i,
        {
            let style = if i == self.selected_button {
                Style::default().fg(theme.nav_selected_fg_color).bg(theme.nav_selected_bg_color)
            } else {
                Style::default()
            };
            let line = Line::styled(self.items[i].title.clone(), style);
            let ghost before = button_lines@;
            button_lines.push(line);
            proof {
                lemma_lines_view_push(before, line);
                assert(line@ == expected[i as int]);
                assert(expected.take(i + 1) =~= expected.take(i as int).push(expected[i as int]));
            }
            i += 1;
        }
        proof {
            assert(expected.take(self.items.len() as int) =~= expected);
        }
        let block = Block {
            title: None,
            borders: Borders {
                top: theme.borders_on,
                right: false,
                bottom: theme.borders_on,
                left: theme.borders_on,
            },
            border_type: theme.border_type,
            border_style: Style::default().fg(theme.border_color),
            style: Style::default(),
            padding: Padding { left: 0, right: 0, top: 0, bottom: 0 },
        };
        Paragraph {
            lines: button_lines,
            style: Style::default(),
            block: Some(block),
            centered: false,
        }
    }

    /// What to draw for one frame: what the selected item renders for the
    /// region `primary`, and the navigation bar in the region `navigation`.
    /// A menu without items draws the navigation bar alone.
    pub fn render(&self, primary: Rect, navigation: Rect, config: &Config) -> (out: Vec<Draw>)
        requires
            self.entries().len() > 0 ==> call_requires(
                self.entries()[self.selected() as int].render,
                (primary,),
            ),
        ensures
            self.entries().len() == 0 ==> draws_view(out@) == seq![
                DrawView {
                    widget: ContentView::Paragraph(
                        navigation_bar(self.titles(), self.selected(), config.themes),
                    ),
                    area: navigation,
                },
            ],
            self.entries().len() > 0 ==> exists|pane: WiMenuItem|
                call_ensures(self.entries()[self.selected() as int].render, (primary,), pane)
                    && draws_view(out@) == composed(
                    pane@,
                    primary,
                    navigation_bar(self.titles(), self.selected(), config.themes),
                    navigation,
                ),
    {
        proof {
            use_type_invariant(self);
        }
        let bar = self.navigation(&config.themes);
        if self.selected_button < self.items.len() {
            let pane = (self.items[self.selected_button].render)(primary);
            let ghost pane_view = pane@;
            let ghost witness = pane;
            let out = compose(pane, primary, bar, navigation);
            proof {
                assert(call_ensures(
                    self.entries()[self.selected() as int].render,
                    (primary,),
                    witness,
                ) && draws_view(out@) == composed(
                    witness@,
                    primary,
                    navigation_bar(self.titles(), self.selected(), config.themes),
                    navigation,
                ));
            }
            out
        } else {
            let mut out: Vec<Draw> = Vec::new();
            out.push(Draw { widget: EnContentMenuItem::Paragraph(bar), area: navigation });
            proof {
                assert(draws_view(out@) =~= seq![
                    DrawView {
                        widget: ContentView::Paragraph(
                            navigation_bar(self.titles(), self.selected(), config.themes),
                        ),
                        area: navigation,
                    },
                ]);
            }
            out
        }
    }
}

/// What one input event led to: what the handler of the selected item
/// reported, where there is one, and whether the event asks to quit.
#[derive(Clone, Debug, PartialEq, Eq)]
pub struct Dispatch {
    pub forwarded: Option<Result<(), MenuError>>,
    pub quit: bool,
}

/// Whether `event` asks to quit: it is a press of the key that is bound to
/// quitting.
pub open spec fn wants_quit(event: Event, config: Config) -> bool {
    match event {
        Event::Key(key) => key.kind == KeyEventKind::Press && config.keybinds.actions(key).quit,
        Event::Other => false,
    }
}

/// Whether `event` asks to quit under the bindings of `config`.
pub fn is_quit(event: &Event, config: &Config) -> (quit: bool)
    ensures
        quit == wants_quit(*event, *config),
{
    match event {
        Event::Key(key_event) => {
            if key_event.kind != KeyEventKind::Press {
                return false;
            }
            config.key_matches(key_event, config.keybinds.quit.as_str())
        },
        Event::Other => false,
    }
}

/// Hands one input event to the menu, and says whether it asks to quit.
pub fn dispatch_events<E, S, R>(
    menu: &mut ContentMenu<E, S, R>,
    event: &Event,
    config: &Config,
) -> (dispatch: Dispatch) where
    E: Fn(&Event) -> Result<(), MenuError>,
    S: Fn() -> Result<(), MenuError>,
    R: Fn(Rect) -> WiMenuItem,

    requires
        old(menu).entries().len() > 0 ==> call_requires(
            old(menu).entries()[old(menu).selected() as int].event,
            (event,),
        ),
    ensures
        final(menu).entries() == old(menu).entries(),
        final(menu).failures() == old(menu).failures(),
        final(menu).selected() == navigate_event(
            old(menu).selected(),
            old(menu).entries().len(),
            *event,
            *config,
        ),
        old(menu).entries().len() == 0 ==> dispatch.forwarded is None,
        old(menu).entries().len() > 0 ==> dispatch.forwarded is Some && call_ensures(
            old(menu).entries()[old(menu).selected() as int].event,
            (event,),
            dispatch.forwarded->0,
        ),
        dispatch.quit == wants_quit(*event, *config),
{
    let forwarded = menu.handle_events(event, config);
    let quit = is_quit(event, config);
    Dispatch { forwarded, quit }
}

/// Every navigation key leaves the selection inside the menu, and as many
/// presses of the key for down as the menu has items lead back to where
/// they began.
pub proof fn lemma_navigation(selected: nat, len: nat, key: KeyEvent, a: KeyActions)
    requires
        in_range(selected, len),
    ensures
        in_range(navigate(selected, len, key, a), len),
        len > 0 ==> crate::selection::index_down_times(selected, len, len) == selected,
{
    if len > 0 {
        crate::selection::lemma_down_round_trip(selected, len);
    }
}

} // verus!
