use demo_windows::{
    on_click, on_entry, on_shortcut, organize_shortcut, reset_shortcut, MenuAction, MenuCommand,
};

const BOTH: [MenuCommand; 2] = [MenuCommand::OrganizeWindows, MenuCommand::ResetMemory];

#[test]
fn a_pressed_shortcut_runs_its_command_and_closes_nothing() {
    for command in BOTH {
        assert_eq!(
            on_shortcut(command, true),
            MenuAction { command: Some(command), close_menu: false }
        );
        assert_eq!(on_shortcut(command, false), MenuAction { command: None, close_menu: false });
    }
}

#[test]
fn a_clicked_entry_runs_its_command_and_closes_the_menu() {
    for command in BOTH {
        assert_eq!(on_entry(command, true), MenuAction { command: Some(command), close_menu: true });
        assert_eq!(on_entry(command, false), MenuAction { command: None, close_menu: false });
    }
}

#[test]
fn an_entry_runs_the_command_of_its_shortcut() {
    for command in BOTH {
        for used in [false, true] {
            assert_eq!(on_entry(command, used).command, on_shortcut(command, used).command);
        }
    }
}

#[test]
fn only_a_click_into_the_menu_closes_it() {
    assert_eq!(on_click(true, true), MenuAction { command: None, close_menu: true });
    assert_eq!(on_click(true, false), MenuAction { command: None, close_menu: false });
    assert_eq!(on_click(false, true), MenuAction { command: None, close_menu: false });
    assert_eq!(on_click(false, false), MenuAction { command: None, close_menu: false });
}

#[test]
fn each_command_has_the_shortcut_of_its_name() {
    assert_eq!(MenuCommand::OrganizeWindows.shortcut(), organize_shortcut());
    assert_eq!(MenuCommand::ResetMemory.shortcut(), reset_shortcut());
    let ctrl_shift = egui::Modifiers::CTRL | egui::Modifiers::SHIFT;
    assert_eq!(
        MenuCommand::OrganizeWindows.shortcut(),
        egui::KeyboardShortcut::new(ctrl_shift, egui::Key::O)
    );
    assert_eq!(
        MenuCommand::ResetMemory.shortcut(),
        egui::KeyboardShortcut::new(ctrl_shift, egui::Key::R)
    );
}
