//! The logic of a small window-manager setup: the text shown by its status bar,
//! the bar and layout it is built from, the key bindings it installs and the
//! media-player commands it runs.

pub mod bar;
pub mod bindings;
pub mod clock;
pub mod media;
pub mod command;
pub mod status;
pub mod text;
pub mod widgets;
