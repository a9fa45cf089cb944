//! The calls into `egui` that the library makes. Verus does not look into
//! `egui`; what is written here about it is taken on trust.
//!
//! None of the calls in this file promises anything about what the user did,
//! so none of them has a postcondition: the code that calls them is proved
//! for whatever they hand back.
//!
//! `egui` keeps its state behind a lock that a thread must not take twice.
//! Every call here takes it for the length of the call, so none of them, and
//! no function of the library that draws, may run inside a closure that is
//! handed to one of `egui`'s accessors of input, memory or output.

use vstd::prelude::*;

verus! {

/// `egui::Context`, carried through to the panels and never looked into.
#[verifier::external_type_specification]
#[verifier::external_body]
pub struct ExContext(egui::Context);

/// `egui::Ui`, the region that widgets are added to; never looked into.
#[verifier::external_type_specification]
#[verifier::external_body]
pub struct ExUi(egui::Ui);

/// `egui::Response`, what adding a widget gives back; never looked into.
#[verifier::external_type_specification]
#[verifier::external_body]
pub struct ExResponse(egui::Response);

/// `egui::Modifiers`: which modifier keys are held, one flag for each.
#[verifier::external_type_specification]
pub struct ExModifiers(egui::Modifiers);

/// `egui::Key`: the keys that a shortcut can name.
#[verifier::external_type_specification]
pub struct ExKey(egui::Key);

/// `egui::KeyboardShortcut`: a key together with the modifiers held with it.
#[verifier::external_type_specification]
pub struct ExKeyboardShortcut(egui::KeyboardShortcut);

/// `egui::Ui::toggle_value`: adds a label that shows `selected` and flips it
/// when the user clicks the label. Whether a click came is not known here, so
/// nothing is claimed about `selected` afterwards.
#[verifier::external_body]
pub(crate) fn toggle_value(ui: &mut egui::Ui, selected: &mut bool, text: &str) {
    ui.toggle_value(selected, text);
}

/// `egui::Ui::separator`: adds a dividing line.
#[verifier::external_body]
pub(crate) fn separator(ui: &mut egui::Ui) {
    ui.separator();
}

/// `egui::Ui::button`: adds a button with the text on it.
#[verifier::external_body]
pub(crate) fn button(ui: &mut egui::Ui, text: &str) -> (response: egui::Response) {
    ui.button(text)
}

/// `egui::Ui::add` on an `egui::Button` made with `egui::Button::new` and
/// `egui::Button::shortcut_text`: adds a button with `text` on it and `keys`
/// beside the text.
#[verifier::external_body]
pub(crate) fn shortcut_button(ui: &mut egui::Ui, text: &str, keys: &str) -> (response:
    egui::Response) {
    ui.add(egui::Button::new(text).shortcut_text(keys))
}

/// `egui::Response::on_hover_text`: has `text` shown while the pointer rests
/// on the widget.
#[verifier::external_body]
pub(crate) fn on_hover_text(response: egui::Response, text: &str) -> (same: egui::Response) {
    response.on_hover_text(text)
}

/// `egui::Response::clicked`: whether the user clicked the widget in this
/// frame. Nothing is claimed about the answer.
#[verifier::external_body]
pub(crate) fn clicked(response: &egui::Response) -> (clicked: bool) {
    response.clicked()
}

/// `egui::Context::format_shortcut`: the shortcut in words or signs, as the
/// machine at hand writes its keys. Nothing is claimed about the text.
#[verifier::external_body]
pub(crate) fn format_shortcut(ui: &egui::Ui, shortcut: &egui::KeyboardShortcut) -> (keys:
    String) {
    ui.ctx().format_shortcut(shortcut)
}

/// `egui::Ui::close_menu`: closes the menu that the region belongs to, if it
/// belongs to one.
#[verifier::external_body]
pub(crate) fn close_menu(ui: &mut egui::Ui) {
    ui.close_menu();
}

/// `egui::Ui::ui_contains_pointer`: whether the pointer is above the region.
/// Nothing is claimed about the answer.
#[verifier::external_body]
pub(crate) fn contains_pointer(ui: &egui::Ui) -> (inside: bool) {
    ui.ui_contains_pointer()
}

/// `egui::PointerState::any_click`, reached through `egui::Ui::input`:
/// whether there was a click of any kind in this frame. Nothing is claimed
/// about the answer.
#[verifier::external_body]
pub(crate) fn any_click(ui: &egui::Ui) -> (click: bool) {
    ui.input(|input| input.pointer.any_click())
}

/// `egui::InputState::consume_shortcut`, reached through `egui::Ui::input_mut`:
/// says whether the shortcut was pressed in this frame, and takes the key
/// press out of the frame's input. Nothing is claimed about the answer.
#[verifier::external_body]
pub(crate) fn consume_shortcut(ui: &egui::Ui, shortcut: &egui::KeyboardShortcut) -> (pressed:
    bool) {
    ui.input_mut(|input| input.consume_shortcut(shortcut))
}

/// `egui::Memory::reset_areas`, reached through `egui::Context::memory_mut`:
/// makes `egui` forget where its windows are and how large.
#[verifier::external_body]
pub(crate) fn reset_areas(ui: &egui::Ui) {
    ui.ctx().memory_mut(|memory| memory.reset_areas());
}

/// `egui::Context::memory_mut`, used to put a fresh `egui::Memory` in place of
/// the one at hand: `egui` forgets scroll offsets, positions, sizes and the
/// like.
#[verifier::external_body]
pub(crate) fn reset_memory(ui: &egui::Ui) {
    ui.ctx().memory_mut(|memory| *memory = Default::default());
}

} // verus!
