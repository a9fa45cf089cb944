//! What a panel has to offer to be registered.

use vstd::prelude::*;

verus! {

/// A window of the gallery: a unit of content with a name and a way to show
/// itself.
///
/// The two methods promise nothing to the verifier, so nothing that is proved
/// about a registry rests on how a panel behaves.
pub trait Demo: Send + Sync {
    /// The name under which the panel is registered and listed.
    fn name(&self) -> &'static str;

    /// Shows the panel as a window if `open` is set. The panel clears `open`
    /// to ask to be closed.
    fn show(&mut self, ctx: &egui::Context, open: &mut bool);
}

} // verus!
