//! The core of a terminal dashboard: a clock above a side menu whose panes
//! show the wireless networks in range and the volumes of the playing audio
//! streams.
//!
//! The library decides and lays out; it neither reads the terminal nor runs
//! a command.  A program round it reads the keys, runs the tools of the
//! network manager and of the sound server, and draws what it is handed:
//!
//! - [`widgets::content_menu`] is the menu that hosts the panes: it hands
//!   every input event to the selected pane, moves its own selection, and
//!   puts together what is drawn for a frame.
//! - [`widgets::net_connect`] and [`widgets::audio_mixer`] are the panes:
//!   state machines from key events to the next state and to what the
//!   program has to do.  [`widgets::net_widget`] and
//!   [`widgets::audio_widget`] say how they are drawn, and
//!   [`widgets::nmcli`] and [`widgets::pactl`] read what the tools write.
//! - [`worker`] and [`tick`] set the pace: the cycle of a pane's background
//!   worker, and the wait between two frames.
//! - [`config`] resolves the theme and the key bindings, [`keys`] and [`ui`]
//!   hold input events and drawings as plain values, [`selection`] and
//!   [`text`] are shared helpers.
//! - [`external`] lists what is taken on trust.

pub mod command;
pub mod config;
pub mod external;
pub mod keys;
pub mod selection;
pub mod text;
pub mod tick;
pub mod ui;
pub mod widgets;
pub mod worker;
