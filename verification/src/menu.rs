//! The two commands of the file menu, the shortcuts that they are bound to,
//! and when a menu closes.

use crate::surface::{
    any_click, clicked, close_menu, consume_shortcut, contains_pointer, format_shortcut,
    on_hover_text, reset_areas, reset_memory, shortcut_button,
};
use vstd::prelude::*;

verus! {

/// Control and shift held together, and no other modifier.
pub open spec fn ctrl_shift() -> egui::Modifiers {
    egui::Modifiers { alt: false, ctrl: true, shift: true, mac_cmd: false, command: false }
}

/// The shortcut that lays the windows out afresh: control, shift and O.
pub fn organize_shortcut() -> (shortcut: egui::KeyboardShortcut)
    ensures
        shortcut.modifiers == ctrl_shift(),
        shortcut.key == egui::Key::O,
{
    egui::KeyboardShortcut {
        modifiers: egui::Modifiers {
            alt: false,
            ctrl: true,
            shift: true,
            mac_cmd: false,
            command: false,
        },
        key: egui::Key::O,
    }
}

/// The shortcut that makes the surface forget all it remembers: control,
/// shift and R.
pub fn reset_shortcut() -> (shortcut: egui::KeyboardShortcut)
    ensures
        shortcut.modifiers == ctrl_shift(),
        shortcut.key == egui::Key::R,
{
    egui::KeyboardShortcut {
        modifiers: egui::Modifiers {
            alt: false,
            ctrl: true,
            shift: true,
            mac_cmd: false,
            command: false,
        },
        key: egui::Key::R,
    }
}

/// Serves the two shortcuts. This is to run in every frame before the file
/// menu is drawn, so that a shortcut works while the menu is closed.
pub fn file_menu_shortcuts(ui: &mut egui::Ui) {
    let organize = organize_shortcut();
    let reset = reset_shortcut();

    let pressed = consume_shortcut(ui, &organize);
    perform(ui, on_shortcut(MenuCommand::OrganizeWindows, pressed));

    let pressed = consume_shortcut(ui, &reset);
    perform(ui, on_shortcut(MenuCommand::ResetMemory, pressed));
}

/// The two entries of the file menu, each with its shortcut written beside
/// it. An entry that is clicked does what its shortcut does, and closes the
/// menu.
pub fn file_menu_entries(ui: &mut egui::Ui) {
    let organize = organize_shortcut();
    let reset = reset_shortcut();

    // What a click on an entry asks for is decided by `on_entry`; here the
    // entries are drawn and the answer is carried out.
    let keys = format_shortcut(ui, &organize);
    let entry = shortcut_button(ui, "Organize Windows", keys.as_str());
    let used = clicked(&entry);
    perform(ui, on_entry(MenuCommand::OrganizeWindows, used));

    let keys = format_shortcut(ui, &reset);
    let entry = shortcut_button(ui, "Reset egui memory", keys.as_str());
    let entry = on_hover_text(entry, "Forget scroll, positions, sizes etc");
    let used = clicked(&entry);
    perform(ui, on_entry(MenuCommand::ResetMemory, used));
}

/// Closes the menu that `ui` belongs to once the user has clicked into it,
/// so that a menu which holds the list of panels folds away after a choice.
/// Whether there was a click is asked only where the pointer is above the
/// menu.
pub fn close_menu_on_click(ui: &mut egui::Ui) {
    let inside = contains_pointer(ui);
    let click = inside && any_click(ui);
    perform(ui, on_click(inside, click));
}

/// A command of the file menu. A command changes nothing that the library
/// keeps: it is passed on to `egui`, which keeps what the command changes.
#[derive(Clone, Copy, Debug, PartialEq, Eq, Structural)]
pub enum MenuCommand {
    /// Lay the windows out afresh.
    OrganizeWindows,
    /// Forget scroll offsets, positions, sizes and the like.
    ResetMemory,
}

/// What is owed to the user for one thing that the user did to a menu: at
/// most one command, and whether the menu at hand closes.
#[derive(Clone, Copy, Debug, PartialEq, Eq)]
pub struct MenuAction {
    pub command: Option<MenuCommand>,
    pub close_menu: bool,
}

/// The key that a command's shortcut ends in.
pub open spec fn key_of(command: MenuCommand) -> egui::Key {
    match command {
        MenuCommand::OrganizeWindows => egui::Key::O,
        MenuCommand::ResetMemory => egui::Key::R,
    }
}

/// What is owed for a command's shortcut: the command if the shortcut was
/// pressed, and nothing else; a shortcut closes no menu.
pub open spec fn shortcut_answer(command: MenuCommand, pressed: bool) -> MenuAction {
    MenuAction { command: if pressed { Some(command) } else { None }, close_menu: false }
}

/// What is owed for a command's entry in the menu: if the entry was clicked,
/// the command, and the menu closes; else nothing.
pub open spec fn entry_answer(command: MenuCommand, used: bool) -> MenuAction {
    MenuAction { command: if used { Some(command) } else { None }, close_menu: used }
}

/// What is owed for a click while a menu that holds a list is drawn: the
/// menu closes if the click went into it; no command is run.
pub open spec fn click_answer(inside: bool, click: bool) -> MenuAction {
    MenuAction { command: None, close_menu: inside && click }
}

/// An entry runs the command that its shortcut runs, and runs it exactly
/// when it is used, as the shortcut does. What sets the two apart is that a
/// used entry closes its menu and a shortcut leaves the menus as they are.
pub proof fn lemma_entry_does_what_shortcut_does(command: MenuCommand, used: bool)
    ensures
        entry_answer(command, used).command == shortcut_answer(command, used).command,
        entry_answer(command, used).close_menu == used,
        !shortcut_answer(command, used).close_menu,
        !used ==> entry_answer(command, used) == shortcut_answer(command, used),
{
}

impl MenuCommand {
    /// The shortcut that the command is bound to: control and shift with
    /// the command's key.
    pub fn shortcut(self) -> (shortcut: egui::KeyboardShortcut)
        ensures
            shortcut.modifiers == ctrl_shift(),
            shortcut.key == key_of(self),
    {
        match self {
            MenuCommand::OrganizeWindows => organize_shortcut(),
            MenuCommand::ResetMemory => reset_shortcut(),
        }
    }
}

/// What is owed for a command's shortcut, given whether it was pressed.
pub fn on_shortcut(command: MenuCommand, pressed: bool) -> (action: MenuAction)
    ensures
        action == shortcut_answer(command, pressed),
{
    MenuAction { command: if pressed { Some(command) } else { None }, close_menu: false }
}

/// What is owed for a command's entry, given whether it was clicked.
pub fn on_entry(command: MenuCommand, used: bool) -> (action: MenuAction)
    ensures
        action == entry_answer(command, used),
{
    MenuAction { command: if used { Some(command) } else { None }, close_menu: used }
}

/// What is owed for a click, given whether the pointer is above the menu
/// and whether there was a click.
pub fn on_click(inside: bool, click: bool) -> (action: MenuAction)
    ensures
        action == click_answer(inside, click),
{
    MenuAction { command: None, close_menu: inside && click }
}

/// Carries out what is owed: the command first, then the closing of the
/// menu that `ui` belongs to. Both happen inside `egui`.
fn perform(ui: &mut egui::Ui, action: MenuAction) {
    match action.command {
        Some(MenuCommand::OrganizeWindows) => reset_areas(ui),
        Some(MenuCommand::ResetMemory) => reset_memory(ui),
        None => {},
    }
    if action.close_menu {
        close_menu(ui);
    }
}

} // verus!
