//! The state of the whole gallery and what a frame does to it.

use crate::panel::Demo;
use crate::registry::{Demos, PanelRegistry, Tests};
use crate::surface::{button, clicked, reset_areas, separator, toggle_value};
use vstd::prelude::*;

verus! {

/// What a frame is made of.
#[derive(Clone, Copy, Debug, PartialEq, Eq, Structural)]
pub enum Screen {
    /// Nothing but the about panel, with a button to go on.
    About,
    /// A menu that folds away, which holds the list of panels, and the open
    /// panels.
    Menu,
    /// A side panel with the list of panels, a menu bar, and the open panels.
    Desktop,
}

/// The screen of a frame: a wide display always gets the desktop; a compact
/// one gets the about panel alone for as long as that is open.
pub open spec fn screen_of(compact: bool, about_is_open: bool) -> Screen {
    if !compact {
        Screen::Desktop
    } else if about_is_open {
        Screen::About
    } else {
        Screen::Menu
    }
}

/// Whether the about panel is open once the about screen's button has had
/// its say: the button can close the panel and cannot open it.
pub open spec fn dismissed(about_is_open: bool, close: bool) -> bool {
    about_is_open && !close
}

/// A compact display shows the about screen while the about panel is open.
/// Once the user has chosen to go on, the next frame shows the menu and the
/// open panels, whatever the state was before.
pub proof fn lemma_going_on_leads_to_menu(about_is_open: bool)
    ensures
        about_is_open ==> screen_of(true, about_is_open) == Screen::About,
        screen_of(true, dismissed(about_is_open, true)) == Screen::Menu,
{
}

/// All that the gallery keeps from frame to frame.
pub struct DemoWindowsData<A: Demo> {
    pub about_is_open: bool,
    pub about: A,
    pub demos: Demos,
    pub tests: Tests,
}

impl<A: Demo> DemoWindowsData<A> {
    /// The state at startup: the about panel is open.
    pub fn new(about: A, demos: Demos, tests: Tests) -> (data: Self)
        ensures
            data.about_is_open,
            data.about == about,
            data.demos == demos,
            data.tests == tests,
    {
        DemoWindowsData { about_is_open: true, about, demos, tests }
    }
}

/// The gallery: its state, and the steps of a frame that bear on it.
pub struct DemoWindows<A: Demo> {
    pub data: DemoWindowsData<A>,
}

impl<A: Demo> DemoWindows<A> {
    /// `after` is `before` once the panels of both registries have reported.
    /// Whether the about panel is open may have changed either way.
    pub open spec fn reports_taken(before: &Self, after: &Self) -> bool {
        &&& PanelRegistry::reports_taken(&before.data.demos.registry, &after.data.demos.registry)
        &&& PanelRegistry::reports_taken(&before.data.tests.registry, &after.data.tests.registry)
    }

    /// Which screen this frame shows.
    pub fn screen(&self, compact: bool) -> (screen: Screen)
        ensures
            screen == screen_of(compact, self.data.about_is_open),
    {
        if !compact {
            Screen::Desktop
        } else if self.data.about_is_open {
            Screen::About
        } else {
            Screen::Menu
        }
    }

    /// Takes over what the about screen's button said: the about panel
    /// closes if the user chose to go on, and is never opened here.
    pub fn dismiss_about(&mut self, close: bool)
        ensures
            final(self).data.about_is_open == dismissed(old(self).data.about_is_open, close),
            final(self).data.about == old(self).data.about,
            final(self).data.demos == old(self).data.demos,
            final(self).data.tests == old(self).data.tests,
    {
        self.data.about_is_open = self.data.about_is_open && !close;
    }

    /// Lets every panel show itself as open or closed, and takes over what
    /// each says about staying open: the about panel first, then the
    /// demonstrations, then the test panels.
    pub fn show_windows(&mut self, ctx: &egui::Context)
        ensures
            Self::reports_taken(old(self), final(self)),
    {
        self.data.about.show(ctx, &mut self.data.about_is_open);
        self.data.demos.windows(ctx);
        self.data.tests.windows(ctx);
    }

    /// `after` is `before` once the list of panels has been drawn: the
    /// toggles of both registries have reported, and no panel was touched.
    /// Whether the about panel is open may have changed either way.
    pub open spec fn list_drawn(before: &Self, after: &Self) -> bool {
        &&& Self::reports_taken(before, after)
        &&& after.data.about == before.data.about
        &&& after.data.demos.registry.panels() == before.data.demos.registry.panels()
        &&& after.data.tests.registry.panels() == before.data.tests.registry.panels()
    }

    /// A gallery that is left alone counts as one whose list has been drawn
    /// without the user touching it.
    pub proof fn lemma_left_alone(windows: &Self)
        ensures
            Self::list_drawn(windows, windows),
    {
        PanelRegistry::lemma_left_alone(&windows.data.demos.registry);
        PanelRegistry::lemma_left_alone(&windows.data.tests.registry);
    }

    /// What the list of panels holds: a toggle for the about panel, one for
    /// each demonstration, one for each test panel, and a button that lays
    /// the windows out afresh.
    fn list_contents(&mut self, ui: &mut egui::Ui)
        ensures
            Self::list_drawn(old(self), final(self)),
    {
        let about_name: &'static str = self.data.about.name();
        toggle_value(ui, &mut self.data.about_is_open, about_name);
        separator(ui);
        self.data.demos.checkboxes(ui);
        separator(ui);
        self.data.tests.checkboxes(ui);
        separator(ui);
        let organize = button(ui, "Organize windows");
        if clicked(&organize) {
            reset_areas(ui);
        }
    }

    /// The list of panels, in a column that scrolls.
    pub fn demo_list_ui(&mut self, ui: &mut egui::Ui)
        ensures
            Self::list_drawn(old(self), final(self)),
    {
        scrolling_column(self, ui);
    }
}

/// `egui::ScrollArea::show` on a vertical scroll area and, inside it,
/// `egui::Ui::with_layout` with a layout that runs from the top down and
/// stretches each widget to the full width. Each of the two runs the closure
/// that it is given once, on a region of its own, so the list is drawn once.
/// What is taken on trust is that `windows` is touched by that one drawing
/// and by nothing else; the claim would hold of no drawing at all as well,
/// by `lemma_left_alone`.
#[verifier::external_body]
fn scrolling_column<A: Demo>(windows: &mut DemoWindows<A>, ui: &mut egui::Ui)
    ensures
        DemoWindows::list_drawn(old(windows), final(windows)),
{
    egui::ScrollArea::vertical().show(ui, |ui| {
        ui.with_layout(egui::Layout::top_down_justified(egui::Align::LEFT), |ui| {
            windows.list_contents(ui)
        });
    });
}

} // verus!
