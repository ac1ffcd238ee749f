//! The network pane: a list of wireless networks, a password prompt and a
//! scrollable panel of connection details.
//!
//! The pane decides; it runs no command.  A key event may come back as a
//! [`NetAction`] for the caller to carry out, and fresh data comes in through
//! [`NetConnect::refresh`].

use crate::config::{Config, KeyActions};
use crate::keys::{Event, KeyCode, KeyEvent, KeyEventKind};
use crate::selection::{clamp, clamp_index, in_range, index_down, index_up, step_down, step_up};
use crate::text::strings_view;
use vstd::prelude::*;

verus! {

/// The lines of the details panel that show at once.
pub const INFO_VISIBLE_HEIGHT: usize = 12;

/// Which part of the pane takes the keys.  Exactly one is active.
#[derive(Clone, Copy, Debug, PartialEq, Eq, Structural)]
pub enum Mode {
    /// The list of networks.
    Browsing,
    /// The password prompt, drawn over the list.
    PasswordPrompt,
    /// The details panel, drawn over the list.
    InfoOverlay,
}

/// What the caller has to do after a key event.
#[derive(Clone, Debug, PartialEq, Eq)]
pub enum NetAction {
    /// Nothing.
    Nothing,
    /// Ask the network manager to join `ssid` with `password`.
    Connect { ssid: String, password: String },
}

/// An action with its texts as sequences of characters.
pub enum NetActionView {
    Nothing,
    Connect { ssid: Seq<char>, password: Seq<char> },
}

impl View for NetAction {
    type V = NetActionView;

    open spec fn view(&self) -> NetActionView {
        match self {
            NetAction::Nothing => NetActionView::Nothing,
            NetAction::Connect { ssid, password } => NetActionView::Connect {
                ssid: ssid@,
                password: password@,
            },
        }
    }
}

/// The views of the networks in `v`: name and signal strength.
pub open spec fn networks_view(v: Seq<(String, u8)>) -> Seq<(Seq<char>, u8)> {
    v.map_values(|e: (String, u8)| (e.0@, e.1))
}

/// The largest scroll offset for a panel of `total` lines: what is left
/// when one screenful is taken off, and 0 where all lines fit.
pub open spec fn max_scroll(total: nat) -> nat {
    if total > INFO_VISIBLE_HEIGHT {
        (total - INFO_VISIBLE_HEIGHT) as nat
    } else {
        0
    }
}

/// The state of the network pane.
pub struct NetConnectView {
    pub selected_ssid: nat,
    pub wifi_list: Seq<(Seq<char>, u8)>,
    pub started_refresh: bool,
    pub connected_ssid: Seq<char>,
    pub mode: Mode,
    pub prompt_ssid: Seq<char>,
    pub prompt_pass: Seq<char>,
    pub connection_info: Seq<Seq<char>>,
    pub scroll_offset: nat,
}

impl NetConnectView {
    /// The selection points into the list, or is 0 where the list is empty,
    /// and the scroll offset is within its bounds.
    pub open spec fn wf(self) -> bool {
        &&& in_range(self.selected_ssid, self.wifi_list.len())
        &&& self.scroll_offset <= max_scroll(self.connection_info.len())
    }

    /// The pane at start: nothing listed, nothing selected, no overlay.
    pub open spec fn initial() -> NetConnectView {
        NetConnectView {
            selected_ssid: 0,
            wifi_list: Seq::empty(),
            started_refresh: false,
            connected_ssid: Seq::empty(),
            mode: Mode::Browsing,
            prompt_ssid: Seq::empty(),
            prompt_pass: Seq::empty(),
            connection_info: Seq::empty(),
            scroll_offset: 0,
        }
    }

    /// The pane with the selection one entry down, the first entry following
    /// the last.
    pub open spec fn move_selected_down(self) -> NetConnectView {
        NetConnectView {
            selected_ssid: index_down(self.selected_ssid, self.wifi_list.len()),
            ..self
        }
    }

    /// The pane with the selection one entry up, the last entry following the
    /// first.
    pub open spec fn move_selected_up(self) -> NetConnectView {
        NetConnectView {
            selected_ssid: index_up(self.selected_ssid, self.wifi_list.len()),
            ..self
        }
    }

    /// The pane with the details panel scrolled one line up, not above its
    /// first line.
    pub open spec fn move_scrollbar_up(self) -> NetConnectView {
        NetConnectView {
            scroll_offset: if self.scroll_offset > 0 {
                (self.scroll_offset - 1) as nat
            } else {
                0
            },
            ..self
        }
    }

    /// The pane with the details panel scrolled one line down, not past the
    /// largest offset.
    pub open spec fn move_scrollbar_down(self) -> NetConnectView {
        NetConnectView {
            scroll_offset: if self.scroll_offset < max_scroll(self.connection_info.len()) {
                self.scroll_offset + 1
            } else {
                self.scroll_offset
            },
            ..self
        }
    }

    /// The pane with the details panel open.
    pub open spec fn open_info(self) -> NetConnectView {
        NetConnectView { mode: Mode::InfoOverlay, ..self }
    }

    /// The pane back in its list, the details panel scrolled to its first
    /// line.
    pub open spec fn close_info(self) -> NetConnectView {
        NetConnectView { mode: Mode::Browsing, scroll_offset: 0, ..self }
    }

    /// The name of the selected network; empty where nothing is listed.
    pub open spec fn selected_name(self) -> Seq<char> {
        if self.selected_ssid < self.wifi_list.len() {
            self.wifi_list[self.selected_ssid as int].0
        } else {
            Seq::empty()
        }
    }

    /// The pane with the prompt open for the selected network, the password
    /// empty.
    pub open spec fn open_prompt(self) -> NetConnectView {
        NetConnectView {
            mode: Mode::PasswordPrompt,
            prompt_ssid: self.selected_name(),
            prompt_pass: Seq::empty(),
            ..self
        }
    }

    /// The pane back in its list, the prompt cleared.
    pub open spec fn cancel_connect(self) -> NetConnectView {
        NetConnectView {
            mode: Mode::Browsing,
            prompt_ssid: Seq::empty(),
            prompt_pass: Seq::empty(),
            ..self
        }
    }

    /// What accepting the prompt asks of the caller: to connect with what
    /// was typed, or nothing where no password was typed.
    pub open spec fn connect_request(self) -> NetActionView {
        if self.prompt_pass.len() == 0 {
            NetActionView::Nothing
        } else {
            NetActionView::Connect { ssid: self.prompt_ssid, password: self.prompt_pass }
        }
    }

    /// The pane with `c` typed at the end of the password.
    pub open spec fn push_pass(self, c: char) -> NetConnectView {
        NetConnectView { prompt_pass: self.prompt_pass.push(c), ..self }
    }

    /// The pane with the last character of the password taken off.
    pub open spec fn pop_pass(self) -> NetConnectView {
        NetConnectView {
            prompt_pass: if self.prompt_pass.len() > 0 {
                self.prompt_pass.drop_last()
            } else {
                self.prompt_pass
            },
            ..self
        }
    }

    /// The pane after a key press that is bound to the actions `a`.
    ///
    /// In the prompt: accept closes it, cancel or info close it too,
    /// backspace takes the last character off the password, a character is
    /// added to it.  In the details panel: up and down scroll, accept,
    /// cancel or info close it.  In the list: up and down move the
    /// selection, accept opens the prompt, info opens the panel.  Where a
    /// key is bound to several actions, the first in these orders counts.
    pub open spec fn press(self, code: KeyCode, a: KeyActions) -> NetConnectView {
        match self.mode {
            Mode::PasswordPrompt => {
                if a.accept {
                    self.cancel_connect()
                } else if a.cancel || a.info {
                    self.cancel_connect()
                } else if code == KeyCode::Backspace {
                    self.pop_pass()
                } else if let KeyCode::Char(c) = code {
                    self.push_pass(c)
                } else {
                    self
                }
            },
            Mode::InfoOverlay => {
                if a.content_up {
                    self.move_scrollbar_up()
                } else if a.content_down {
                    self.move_scrollbar_down()
                } else if a.accept || a.cancel || a.info {
                    self.close_info()
                } else {
                    self
                }
            },
            Mode::Browsing => {
                if a.content_up {
                    self.move_selected_up()
                } else if a.content_down {
                    self.move_selected_down()
                } else if a.accept {
                    self.open_prompt()
                } else if a.info {
                    self.open_info()
                } else {
                    self
                }
            },
        }
    }

    /// What a key press that is bound to the actions `a` asks of the caller:
    /// a connection where it accepts the prompt, nothing otherwise.
    pub open spec fn press_action(self, a: KeyActions) -> NetActionView {
        if self.mode == Mode::PasswordPrompt && a.accept {
            self.connect_request()
        } else {
            NetActionView::Nothing
        }
    }

    /// The pane after a key event: a press as `press` says, anything else
    /// leaves it as it is.
    pub open spec fn on_key(self, key: KeyEvent, a: KeyActions) -> NetConnectView {
        if key.kind == KeyEventKind::Press {
            self.press(key.code, a)
        } else {
            self
        }
    }

    /// What a key event asks of the caller.
    pub open spec fn on_key_action(self, key: KeyEvent, a: KeyActions) -> NetActionView {
        if key.kind == KeyEventKind::Press {
            self.press_action(a)
        } else {
            NetActionView::Nothing
        }
    }

    /// The pane after fresh data has come in: the data replaced, the mode and
    /// the prompt untouched, the selection and the scroll offset brought
    /// back within the new bounds.
    pub open spec fn refresh(
        self,
        wifi_list: Seq<(Seq<char>, u8)>,
        connected_ssid: Seq<char>,
        connection_info: Seq<Seq<char>>,
    ) -> NetConnectView {
        NetConnectView {
            wifi_list,
            connected_ssid,
            connection_info,
            selected_ssid: clamp_index(self.selected_ssid, wifi_list.len()),
            scroll_offset: if self.scroll_offset > max_scroll(connection_info.len()) {
                max_scroll(connection_info.len())
            } else {
                self.scroll_offset
            },
            ..self
        }
    }

    /// The pane after a refresh in which the list of networks may be
    /// missing: where it is, the pane keeps the list it has and takes in
    /// the rest.
    pub open spec fn refresh_with(
        self,
        wifi_list: Option<Seq<(Seq<char>, u8)>>,
        connected_ssid: Seq<char>,
        connection_info: Seq<Seq<char>>,
    ) -> NetConnectView {
        self.refresh(
            match wifi_list {
                Some(list) => list,
                None => self.wifi_list,
            },
            connected_ssid,
            connection_info,
        )
    }

    /// The pane with its refresh marked as started.
    pub open spec fn start_auto_refresh(self) -> NetConnectView {
        NetConnectView { started_refresh: true, ..self }
    }
}

/// The network pane.
#[derive(Debug)]
pub struct NetConnect {
    selected_ssid: usize,
    wifi_list: Vec<(String, u8)>,
    started_refresh: bool,
    connected_ssid: String,
    mode: Mode,
    prompt_ssid: String,
    prompt_pass: String,
    connection_info: Vec<String>,
    scroll_offset: usize,
}

impl View for NetConnect {
    type V = NetConnectView;

    closed spec fn view(&self) -> NetConnectView {
        NetConnectView {
            selected_ssid: self.selected_ssid as nat,
            wifi_list: networks_view(self.wifi_list@),
            started_refresh: self.started_refresh,
            connected_ssid: self.connected_ssid@,
            mode: self.mode,
            prompt_ssid: self.prompt_ssid@,
            prompt_pass: self.prompt_pass@,
            connection_info: strings_view(self.connection_info@),
            scroll_offset: self.scroll_offset as nat,
        }
    }
}

impl NetConnect {
    #[verifier::type_invariant]
    spec fn inv(&self) -> bool {
        self@.wf()
    }

    /// A pane with nothing listed, in the list mode.
    pub fn new() -> (pane: NetConnect)
        ensures
            pane@ == NetConnectView::initial(),
            pane@.wf(),
    {
        let pane = NetConnect {
            selected_ssid: 0,
            wifi_list: Vec::new(),
            started_refresh: false,
            connected_ssid: String::new(),
            mode: Mode::Browsing,
            prompt_ssid: String::new(),
            prompt_pass: String::new(),
            connection_info: Vec::new(),
            scroll_offset: 0,
        };
        proof {
            assert(pane@.wifi_list =~= Seq::empty());
            assert(pane@.connection_info =~= Seq::empty());
        }
        pane
    }

    /// The index of the selected network.
    pub fn selected_ssid(&self) -> (r: usize)
        ensures
            r == self@.selected_ssid,
            self@.wf(),
    {
        proof {
            use_type_invariant(self);
        }
        self.selected_ssid
    }

    /// The networks in range, strongest first.
    pub fn wifi_list(&self) -> (r: &Vec<(String, u8)>)
        ensures
            networks_view(r@) == self@.wifi_list,
            self@.wf(),
    {
        proof {
            use_type_invariant(self);
        }
        &self.wifi_list
    }

    /// Whether the periodic refresh has been started.
    pub fn started_refresh(&self) -> (r: bool)
        ensures
            r == self@.started_refresh,
    {
        self.started_refresh
    }

    /// The name of the connected network; empty where there is none.
    pub fn connected_ssid(&self) -> (r: &String)
        ensures
            r@ == self@.connected_ssid,
    {
        &self.connected_ssid
    }

    /// Which part of the pane takes the keys.
    pub fn mode(&self) -> (r: Mode)
        ensures
            r == self@.mode,
    {
        self.mode
    }

    /// The network that the prompt asks the password of.
    pub fn prompt_ssid(&self) -> (r: &String)
        ensures
            r@ == self@.prompt_ssid,
    {
        &self.prompt_ssid
    }

    /// The password as typed so far.
    pub fn prompt_pass(&self) -> (r: &String)
        ensures
            r@ == self@.prompt_pass,
    {
        &self.prompt_pass
    }

    /// The lines of the details panel.
    pub fn connection_info(&self) -> (r: &Vec<String>)
        ensures
            strings_view(r@) == self@.connection_info,
            self@.wf(),
    {
        proof {
            use_type_invariant(self);
        }
        &self.connection_info
    }

    /// The first line of the details panel that shows.
    pub fn scroll_offset(&self) -> (r: usize)
        ensures
            r == self@.scroll_offset,
            self@.wf(),
    {
        proof {
            use_type_invariant(self);
        }
        self.scroll_offset
    }

    /// Moves the selection one entry down, from the last entry to the first.
    pub fn move_selected_down(&mut self)
        ensures
            final(self)@ == old(self)@.move_selected_down(),
            final(self)@.wf(),
    {
        proof {
            use_type_invariant(&*self);
        }
        self.selected_ssid = step_down(self.selected_ssid, self.wifi_list.len());
    }

    /// Moves the selection one entry up, from the first entry to the last.
    pub fn move_selected_up(&mut self)
        ensures
            final(self)@ == old(self)@.move_selected_up(),
            final(self)@.wf(),
    {
        proof {
            use_type_invariant(&*self);
        }
        self.selected_ssid = step_up(self.selected_ssid, self.wifi_list.len());
    }

    /// Scrolls the details panel one line up, not above its first line.
    pub fn move_scrollbar_up(&mut self)
        ensures
            final(self)@ == old(self)@.move_scrollbar_up(),
            final(self)@.wf(),
    {
        proof {
            use_type_invariant(&*self);
        }
        if self.scroll_offset > 0 {
            self.scroll_offset -= 1;
        }
    }

    /// Scrolls the details panel one line down, not past the offset at
    /// which its last line shows.
    pub fn move_scrollbar_down(&mut self)
        ensures
            final(self)@ == old(self)@.move_scrollbar_down(),
            final(self)@.wf(),
    {
        proof {
            use_type_invariant(&*self);
        }
        let total = self.connection_info.len();
        let max_offset = if total > INFO_VISIBLE_HEIGHT {
            total - INFO_VISIBLE_HEIGHT
        } else {
            0
        };
        if self.scroll_offset < max_offset {
            self.scroll_offset += 1;
        }
    }

    /// Closes the details panel and scrolls it back to its first line.
    pub fn close_info(&mut self)
        ensures
            final(self)@ == old(self)@.close_info(),
            final(self)@.wf(),
    {
        proof {
            use_type_invariant(&*self);
        }
        self.scroll_offset = 0;
        self.mode = Mode::Browsing;
    }

    /// Opens the details panel.
    pub fn open_info(&mut self)
        ensures
            final(self)@ == old(self)@.open_info(),
            final(self)@.wf(),
    {
        proof {
            use_type_invariant(&*self);
        }
        self.mode = Mode::InfoOverlay;
    }

    /// Opens the password prompt for the selected network, with an empty
    /// password.
    pub fn open_prompt(&mut self)
        ensures
            final(self)@ == old(self)@.open_prompt(),
            final(self)@.wf(),
    {
        proof {
            use_type_invariant(&*self);
        }
        let name = if self.selected_ssid < self.wifi_list.len() {
            self.wifi_list[self.selected_ssid].0.clone()
        } else {
            String::new()
        };
        self.mode = Mode::PasswordPrompt;
        self.prompt_ssid = name;
        self.prompt_pass = String::new();
    }

    /// Closes the prompt and hands back the connection to make: none where
    /// no password was typed.  What was typed is cleared either way.
    pub fn accept_connect(&mut self) -> (action: NetAction)
        ensures
            final(self)@ == old(self)@.cancel_connect(),
            action@ == old(self)@.connect_request(),
            final(self)@.wf(),
    {
        proof {
            use_type_invariant(&*self);
        }
        let mut ssid = String::new();
        let mut password = String::new();
        std::mem::swap(&mut ssid, &mut self.prompt_ssid);
        std::mem::swap(&mut password, &mut self.prompt_pass);
        self.mode = Mode::Browsing;
        if password.as_str().unicode_len() == 0 {
            NetAction::Nothing
        } else {
            NetAction::Connect { ssid, password }
        }
    }

    /// Closes the prompt and clears what was typed.
    pub fn cancel_connect(&mut self)
        ensures
            final(self)@ == old(self)@.cancel_connect(),
            final(self)@.wf(),
    {
        proof {
            use_type_invariant(&*self);
        }
        self.mode = Mode::Browsing;
        self.prompt_ssid = String::new();
        self.prompt_pass = String::new();
    }

    /// Handles a key event of which `actions` says what its key is bound
    /// to, and hands back what the caller has to do.
    pub fn apply_key(&mut self, key_event: &KeyEvent, actions: &KeyActions) -> (action: NetAction)
        ensures
            final(self)@ == old(self)@.on_key(*key_event, *actions),
            action@ == old(self)@.on_key_action(*key_event, *actions),
            final(self)@.wf(),
    {
        proof {
            use_type_invariant(&*self);
        }
        if key_event.kind != KeyEventKind::Press {
            return NetAction::Nothing;
        }
        match self.mode {
            Mode::PasswordPrompt => {
                if actions.accept {
                    return self.accept_connect();
                } else if actions.cancel || actions.info {
                    self.cancel_connect();
                } else if key_event.code == KeyCode::Backspace {
                    let mut pass = String::new();
                    std::mem::swap(&mut pass, &mut self.prompt_pass);
                    pass.pop();
                    self.prompt_pass = pass;
                } else if let KeyCode::Char(c) = key_event.code {
                    let mut pass = String::new();
                    std::mem::swap(&mut pass, &mut self.prompt_pass);
                    pass.push(c);
                    self.prompt_pass = pass;
                }
            },
            Mode::InfoOverlay => {
                if actions.content_up {
                    self.move_scrollbar_up();
                } else if actions.content_down {
                    self.move_scrollbar_down();
                } else if actions.accept || actions.cancel || actions.info {
                    self.close_info();
                }
            },
            Mode::Browsing => {
                if actions.content_up {
                    self.move_selected_up();
                } else if actions.content_down {
                    self.move_selected_down();
                } else if actions.accept {
                    self.open_prompt();
                } else if actions.info {
                    self.open_info();
                }
            },
        }
        NetAction::Nothing
    }

    /// Handles a key event under the bindings of `config`.
    fn handle_key_event(&mut self, key_event: &KeyEvent, config: &Config) -> (action: NetAction)
        ensures
            final(self)@ == old(self)@.on_key(*key_event, config.keybinds.actions(*key_event)),
            action@ == old(self)@.on_key_action(*key_event, config.keybinds.actions(*key_event)),
            final(self)@.wf(),
    {
        let actions = config.resolve(key_event);
        self.apply_key(key_event, &actions)
    }

    /// Handles an input event: a key event as the bindings of `config` say,
    /// anything else not at all.
    pub fn handle_events(&mut self, event: &Event, config: &Config) -> (action: NetAction)
        ensures
            match *event {
                Event::Key(key) => {
                    &&& final(self)@ == old(self)@.on_key(key, config.keybinds.actions(key))
                    &&& action@ == old(self)@.on_key_action(key, config.keybinds.actions(key))
                },
                Event::Other => final(self)@ == old(self)@ && action@ == NetActionView::Nothing,
            },
            final(self)@.wf(),
    {
        proof {
            use_type_invariant(&*self);
        }
        match event {
            Event::Key(key_event) => self.handle_key_event(key_event, config),
            Event::Other => NetAction::Nothing,
        }
    }

    /// Marks the periodic refresh as started.  The answer is `true` the
    /// first time, when the caller has to start the worker, and `false`
    /// every time after: a pane gets one worker.
    pub fn start_auto_refresh(&mut self) -> (spawn: bool)
        ensures
            spawn == !old(self)@.started_refresh,
            final(self)@ == old(self)@.start_auto_refresh(),
            final(self)@.wf(),
    {
        proof {
            use_type_invariant(&*self);
        }
        if self.started_refresh {
            return false;
        }
        self.started_refresh = true;
        true
    }

    /// Takes in what one refresh has fetched.
    pub fn refresh(
        &mut self,
        wifi_list: Vec<(String, u8)>,
        connected_ssid: String,
        connection_info: Vec<String>,
    )
        ensures
            final(self)@ == old(self)@.refresh(
                networks_view(wifi_list@),
                connected_ssid@,
                strings_view(connection_info@),
            ),
            final(self)@.wf(),
    {
        proof {
            use_type_invariant(&*self);
        }
        self.selected_ssid = clamp(self.selected_ssid, wifi_list.len());
        let total = connection_info.len();
        let max_offset = if total > INFO_VISIBLE_HEIGHT {
            total - INFO_VISIBLE_HEIGHT
        } else {
            0
        };
        if self.scroll_offset > max_offset {
            self.scroll_offset = max_offset;
        }
        self.wifi_list = wifi_list;
        self.connected_ssid = connected_ssid;
        self.connection_info = connection_info;
    }

    /// Takes in what one refresh has fetched, where the list of networks
    /// may be missing because its command failed.
    pub fn refresh_with(
        &mut self,
        wifi_list: Option<Vec<(String, u8)>>,
        connected_ssid: String,
        connection_info: Vec<String>,
    )
        ensures
            final(self)@ == old(self)@.refresh_with(
                match wifi_list {
                    Some(list) => Some(networks_view(list@)),
                    None => None,
                },
                connected_ssid@,
                strings_view(connection_info@),
            ),
            final(self)@.wf(),
    {
        proof {
            use_type_invariant(&*self);
        }
        match wifi_list {
            Some(list) => {
                self.refresh(list, connected_ssid, connection_info);
            },
            None => {
                let total = connection_info.len();
                let max_offset = if total > INFO_VISIBLE_HEIGHT {
                    total - INFO_VISIBLE_HEIGHT
                } else {
                    0
                };
                if self.scroll_offset > max_offset {
                    self.scroll_offset = max_offset;
                }
                self.connected_ssid = connected_ssid;
                self.connection_info = connection_info;
            },
        }
    }
}

/// A copy of the list of networks.
pub fn clone_networks(list: &Vec<(String, u8)>) -> (copy: Vec<(String, u8)>)
    ensures
        networks_view(copy@) == networks_view(list@),
{
    let mut copy: Vec<(String, u8)> = Vec::new();
    let mut i: usize = 0;
    while i < list.len()
        invariant
            i <= list.len(),
            networks_view(copy@) == networks_view(list@).take(i as int),
        decreases list.len() - i,
    {
        let entry = (list[i].0.clone(), list[i].1);
        let ghost before = copy@;
        copy.push(entry);
        proof {
            assert(networks_view(list@)[i as int] == (entry.0@, entry.1));
            assert(networks_view(copy@) =~= networks_view(before).push((entry.0@, entry.1)));
            assert(networks_view(list@).take(i + 1) =~= networks_view(list@).take(i as int).push(
                networks_view(list@)[i as int],
            ));
        }
        i += 1;
    }
    proof {
        assert(networks_view(list@).take(list.len() as int) =~= networks_view(list@));
    }
    copy
}

/// A copy of a list of strings.
pub fn clone_strings(list: &Vec<String>) -> (copy: Vec<String>)
    ensures
        strings_view(copy@) == strings_view(list@),
{
    let mut copy: Vec<String> = Vec::new();
    let mut i: usize = 0;
    while i < list.len()
        invariant
            i <= list.len(),
            strings_view(copy@) == strings_view(list@).take(i as int),
        decreases list.len() - i,
    {
        let entry = list[i].clone();
        let ghost before = copy@;
        copy.push(entry);
        proof {
            assert(strings_view(list@)[i as int] == entry@);
            assert(strings_view(copy@) =~= strings_view(before).push(entry@));
            assert(strings_view(list@).take(i + 1) =~= strings_view(list@).take(i as int).push(
                strings_view(list@)[i as int],
            ));
        }
        i += 1;
    }
    proof {
        assert(strings_view(list@).take(list.len() as int) =~= strings_view(list@));
    }
    copy
}

impl Clone for NetConnect {
    /// A pane in the same state.
    fn clone(&self) -> (copy: NetConnect)
        ensures
            copy@ == self@,
    {
        proof {
            use_type_invariant(self);
        }
        NetConnect {
            selected_ssid: self.selected_ssid,
            wifi_list: clone_networks(&self.wifi_list),
            started_refresh: self.started_refresh,
            connected_ssid: self.connected_ssid.clone(),
            mode: self.mode,
            prompt_ssid: self.prompt_ssid.clone(),
            prompt_pass: self.prompt_pass.clone(),
            connection_info: clone_strings(&self.connection_info),
            scroll_offset: self.scroll_offset,
        }
    }
}

// ---------------------------------------------------------------------------
// Laws of the pane
// ---------------------------------------------------------------------------

impl NetConnectView {
    /// The pane after `times` moves of the selection down.
    pub open spec fn move_selected_down_times(self, times: nat) -> NetConnectView
        decreases times,
    {
        if times == 0 {
            self
        } else {
            self.move_selected_down_times((times - 1) as nat).move_selected_down()
        }
    }

    /// The pane after `times` moves of the selection up.
    pub open spec fn move_selected_up_times(self, times: nat) -> NetConnectView
        decreases times,
    {
        if times == 0 {
            self
        } else {
            self.move_selected_up_times((times - 1) as nat).move_selected_up()
        }
    }

    /// The pane after `times` presses of a key that is bound to `a`.
    pub open spec fn press_times(self, code: KeyCode, a: KeyActions, times: nat) -> NetConnectView
        decreases times,
    {
        if times == 0 {
            self
        } else {
            self.press_times(code, a, (times - 1) as nat).press(code, a)
        }
    }
}

/// Moving the selection changes the selected index and nothing else.
pub proof fn lemma_move_selected_times(v: NetConnectView, times: nat)
    ensures
        v.move_selected_down_times(times) == (NetConnectView {
            selected_ssid: crate::selection::index_down_times(
                v.selected_ssid,
                v.wifi_list.len(),
                times,
            ),
            ..v
        }),
        v.move_selected_up_times(times) == (NetConnectView {
            selected_ssid: crate::selection::index_up_times(
                v.selected_ssid,
                v.wifi_list.len(),
                times,
            ),
            ..v
        }),
    decreases times,
{
    if times > 0 {
        lemma_move_selected_times(v, (times - 1) as nat);
    }
}

/// Where networks are listed, moving the selection down once for each of
/// them leaves the pane as it was; so does moving it up that often.
pub proof fn lemma_selection_round_trip(v: NetConnectView)
    requires
        v.wf(),
        v.wifi_list.len() > 0,
    ensures
        v.move_selected_down_times(v.wifi_list.len()) == v,
        v.move_selected_up_times(v.wifi_list.len()) == v,
{
    lemma_move_selected_times(v, v.wifi_list.len());
    crate::selection::lemma_down_round_trip(v.selected_ssid, v.wifi_list.len());
    crate::selection::lemma_up_round_trip(v.selected_ssid, v.wifi_list.len());
}

/// Starting the refresh a second time changes nothing and asks for no
/// second worker: the flag goes from unset to set once.
pub proof fn lemma_start_auto_refresh_once(v: NetConnectView)
    ensures
        v.start_auto_refresh().started_refresh,
        v.start_auto_refresh().start_auto_refresh() == v.start_auto_refresh(),
        v.started_refresh ==> v.start_auto_refresh() == v,
{
}

/// From the list, the accept key opens the prompt for the selected network
/// with an empty password.  From the prompt, whatever has been typed, the
/// cancel key and the info key lead back to the list with the prompt
/// cleared, ask for no connection, and leave the data and the selection
/// alone.
pub proof fn lemma_prompt_cancel(
    v: NetConnectView,
    open_code: KeyCode,
    open: KeyActions,
    typed: Seq<char>,
    cancel_code: KeyCode,
    cancel: KeyActions,
)
    requires
        v.mode == Mode::Browsing,
        open.accept && !open.content_up && !open.content_down,
        (cancel.cancel || cancel.info) && !cancel.accept,
    ensures
        v.press(open_code, open) == v.open_prompt(),
        v.press_action(open) == NetActionView::Nothing,
        v.open_prompt().mode == Mode::PasswordPrompt,
        v.open_prompt().prompt_pass == Seq::<char>::empty(),
        ({
            let prompt = NetConnectView { prompt_pass: typed, ..v.open_prompt() };
            &&& prompt.press_action(cancel) == NetActionView::Nothing
            &&& prompt.press(cancel_code, cancel) == (NetConnectView {
                prompt_ssid: Seq::empty(),
                prompt_pass: Seq::empty(),
                ..v
            })
        }),
{
}

/// The prompt and the details panel keep the list still: while either is
/// open no key moves the selection, and none opens the other.
pub proof fn lemma_overlays_keep_selection(v: NetConnectView, code: KeyCode, a: KeyActions)
    requires
        v.mode != Mode::Browsing,
    ensures
        v.press(code, a).selected_ssid == v.selected_ssid,
        v.press(code, a).wifi_list == v.wifi_list,
        v.press(code, a).mode == v.mode || v.press(code, a).mode == Mode::Browsing,
{
}

/// Every key event and every refresh keeps the selection inside the list
/// and the scroll offset between 0 and the largest offset.  A refresh that
/// brings no list of networks keeps the list and the selection as they
/// are.
pub proof fn lemma_wf_is_kept(
    v: NetConnectView,
    key: KeyEvent,
    a: KeyActions,
    wifi_list: Seq<(Seq<char>, u8)>,
    connected_ssid: Seq<char>,
    connection_info: Seq<Seq<char>>,
)
    requires
        v.wf(),
    ensures
        NetConnectView::initial().wf(),
        v.on_key(key, a).wf(),
        v.refresh(wifi_list, connected_ssid, connection_info).wf(),
        v.refresh_with(None, connected_ssid, connection_info).wf(),
        v.refresh_with(None, connected_ssid, connection_info).wifi_list == v.wifi_list,
        v.refresh_with(None, connected_ssid, connection_info).selected_ssid == v.selected_ssid,
        v.start_auto_refresh().wf(),
{
}

/// However often a key is pressed, the scroll offset of the details panel
/// stays at or below the number of lines less one screenful, and at 0
/// where all lines fit.
pub proof fn lemma_scroll_stays_clamped(v: NetConnectView, code: KeyCode, a: KeyActions, times: nat)
    requires
        v.wf(),
    ensures
        v.press_times(code, a, times).wf(),
        v.press_times(code, a, times).connection_info == v.connection_info,
        v.press_times(code, a, times).scroll_offset <= max_scroll(v.connection_info.len()),
        v.connection_info.len() >= INFO_VISIBLE_HEIGHT ==> v.press_times(
            code,
            a,
            times,
        ).scroll_offset + INFO_VISIBLE_HEIGHT <= v.connection_info.len(),
    decreases times,
{
    if times > 0 {
        lemma_scroll_stays_clamped(v, code, a, (times - 1) as nat);
    }
}

} // verus!
