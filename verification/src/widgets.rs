//! The panes of the side menu, the menu that hosts them, and the clock.

pub mod audio_mixer;
pub mod audio_widget;
pub mod clock;
pub mod content_menu;
pub mod net_connect;
pub mod net_widget;
pub mod nmcli;
pub mod pactl;
