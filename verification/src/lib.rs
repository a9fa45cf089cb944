//! The window bookkeeping of a widget gallery: which panels are registered,
//! which of them are open, and what a frame does to that state.
//!
//! - [`open_set`]: the set of the names of the open panels.
//! - [`panel`]: what a panel has to offer.
//! - [`registry`]: an ordered list of panels with its open set, and the two
//!   passes over it that a frame makes.
//! - [`windows`]: the state of the whole gallery, the choice of a frame's
//!   screen, and the steps of a frame that change the state.
//! - [`menu`]: the commands of the file menu and their shortcuts.
//! - [`surface`]: the calls into `egui`.
//!
//! What a pass does to the open set depends on the user and on the panels.
//! The contracts say what holds whatever these do; the laws in [`registry`]
//! and [`open_set`] say what follows when they do a given thing.

pub mod menu;
pub mod open_set;
pub mod panel;
pub mod registry;
pub mod surface;
pub mod windows;

pub use menu::{
    close_menu_on_click, file_menu_entries, file_menu_shortcuts, on_click, on_entry, on_shortcut,
    organize_shortcut, reset_shortcut, MenuAction, MenuCommand,
};
pub use open_set::{set_open, OpenSet};
pub use panel::Demo;
pub use registry::{Demos, PanelRegistry, Tests, GALLERY_NAME};
pub use windows::{DemoWindows, DemoWindowsData, Screen};
