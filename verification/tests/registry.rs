use demo_windows::{Demo, Demos, PanelRegistry, Tests, GALLERY_NAME};
use std::sync::{Arc, Mutex};

type Log = Arc<Mutex<Vec<(&'static str, bool)>>>;

/// A panel that writes into a log whenever it is shown: its name and whether
/// it was shown open.
struct Recorder {
    name: &'static str,
    log: Log,
}

impl Demo for Recorder {
    fn name(&self) -> &'static str {
        self.name
    }

    fn show(&mut self, _ctx: &egui::Context, open: &mut bool) {
        self.log.lock().unwrap().push((self.name, *open));
    }
}

/// A panel that asks to be closed as soon as it is shown.
struct Closer {
    name: &'static str,
}

impl Demo for Closer {
    fn name(&self) -> &'static str {
        self.name
    }

    fn show(&mut self, _ctx: &egui::Context, open: &mut bool) {
        *open = false;
    }
}

/// A panel that asks to be opened whenever it is shown.
struct Opener {
    name: &'static str,
}

impl Demo for Opener {
    fn name(&self) -> &'static str {
        self.name
    }

    fn show(&mut self, _ctx: &egui::Context, open: &mut bool) {
        *open = true;
    }
}

fn recorders(names: &[&'static str], log: &Log) -> Vec<Box<dyn Demo>> {
    let mut panels: Vec<Box<dyn Demo>> = Vec::new();
    for name in names {
        panels.push(Box::new(Recorder { name, log: log.clone() }));
    }
    panels
}

fn frame(ctx: &egui::Context, events: Vec<egui::Event>, run: impl FnOnce(&mut egui::Ui)) {
    let input = egui::RawInput { events, ..Default::default() };
    let _ = ctx.run(input, |ctx| {
        egui::CentralPanel::default().show(ctx, |ui| run(ui));
    });
}

/// Clicks at `pos`: the pointer moves there, is pressed and is let go, one
/// frame for each. `run` draws every one of the frames.
fn click(ctx: &egui::Context, pos: egui::Pos2, mut run: impl FnMut(&mut egui::Ui)) {
    let button = |pressed: bool| egui::Event::PointerButton {
        pos,
        button: egui::PointerButton::Primary,
        pressed,
        modifiers: egui::Modifiers::NONE,
    };
    frame(ctx, vec![egui::Event::PointerMoved(pos)], |ui| run(ui));
    frame(ctx, vec![button(true)], |ui| run(ui));
    frame(ctx, vec![button(false)], |ui| run(ui));
}

/// Where the toggles for `names` come to lie in a frame that holds nothing
/// else.
fn toggle_places(names: &[&'static str]) -> Vec<egui::Pos2> {
    let ctx = egui::Context::default();
    let mut places = Vec::new();
    frame(&ctx, Vec::new(), |ui| {
        for name in names {
            let mut flag = false;
            places.push(ui.toggle_value(&mut flag, *name).rect.center());
        }
    });
    places
}

fn sorted(mut names: Vec<String>) -> Vec<String> {
    names.sort();
    names
}

fn owned(names: &[&str]) -> Vec<String> {
    names.iter().map(|n| n.to_string()).collect()
}

#[test]
fn new_registry_opens_only_the_gallery() {
    let log = Log::default();
    let demos = Demos::from_demos(recorders(&["a", GALLERY_NAME, "b"], &log));
    assert_eq!(demos.registry.open_list(), owned(&[GALLERY_NAME]));
    assert!(demos.registry.is_open(GALLERY_NAME));
    assert!(!demos.registry.is_open("a"));
    assert!(!demos.registry.is_open("b"));
    assert_eq!(demos.registry.len(), 3);
    assert_eq!(demos.registry.panel_names(), vec!["a", GALLERY_NAME, "b"]);
    assert!(log.lock().unwrap().is_empty());
}

#[test]
fn new_registry_opens_the_gallery_even_if_it_is_not_registered() {
    let log = Log::default();
    let tests = Tests::from_demos(recorders(&["a", "b"], &log));
    assert_eq!(tests.registry.open_list(), owned(&[GALLERY_NAME]));
    assert_eq!(tests.registry.panel_names(), vec!["a", "b"]);

    let empty = PanelRegistry::from_demos(Vec::new());
    assert_eq!(empty.open_list(), owned(&[GALLERY_NAME]));
    assert_eq!(empty.len(), 0);
    assert!(empty.panel_names().is_empty());
}

#[test]
fn nothing_is_shown_for_an_open_name_without_a_panel() {
    let log = Log::default();
    let mut tests = Tests::from_demos(recorders(&["a", "b"], &log));
    let ctx = egui::Context::default();
    frame(&ctx, Vec::new(), |ui| tests.windows(ui.ctx()));
    assert_eq!(*log.lock().unwrap(), vec![("a", false), ("b", false)]);
    assert_eq!(tests.registry.open_list(), owned(&[GALLERY_NAME]));
}

#[test]
fn gallery_name_is_the_one_the_gallery_panel_goes_by() {
    assert_eq!(GALLERY_NAME, "\u{1F5C4} Widget Gallery");
}

#[test]
fn windows_are_shown_in_registration_order() {
    let log = Log::default();
    let mut demos = Demos::from_demos(recorders(&["first", "second", "third"], &log));
    demos.registry.set_open("second", true);
    let ctx = egui::Context::default();
    frame(&ctx, Vec::new(), |ui| demos.windows(ui.ctx()));
    assert_eq!(
        *log.lock().unwrap(),
        vec![("first", false), ("second", true), ("third", false)]
    );
    log.lock().unwrap().clear();
    frame(&ctx, Vec::new(), |ui| demos.windows(ui.ctx()));
    assert_eq!(
        *log.lock().unwrap(),
        vec![("first", false), ("second", true), ("third", false)]
    );
}

#[test]
fn a_panel_that_changes_its_flag_is_taken_at_its_word() {
    let mut registry = PanelRegistry::from_demos(vec![
        Box::new(Closer { name: "shy" }),
        Box::new(Opener { name: "bold" }),
    ]);
    registry.set_open("shy", true);
    assert!(registry.is_open("shy"));
    assert!(!registry.is_open("bold"));
    let ctx = egui::Context::default();
    frame(&ctx, Vec::new(), |ui| registry.windows(ui.ctx()));
    assert!(!registry.is_open("shy"));
    assert!(registry.is_open("bold"));
    assert!(registry.is_open(GALLERY_NAME));
    assert_eq!(sorted(registry.open_list()), sorted(owned(&["bold", GALLERY_NAME])));
    assert_eq!(registry.panel_names(), vec!["shy", "bold"]);
}

#[test]
fn among_panels_of_one_name_the_last_one_decides() {
    let mut registry = PanelRegistry::from_demos(vec![
        Box::new(Opener { name: "twin" }),
        Box::new(Closer { name: "twin" }),
    ]);
    let ctx = egui::Context::default();
    frame(&ctx, Vec::new(), |ui| registry.windows(ui.ctx()));
    assert!(!registry.is_open("twin"));

    let mut registry = PanelRegistry::from_demos(vec![
        Box::new(Closer { name: "twin" }),
        Box::new(Opener { name: "twin" }),
    ]);
    frame(&ctx, Vec::new(), |ui| registry.windows(ui.ctx()));
    assert!(registry.is_open("twin"));
}

#[test]
fn set_open_round_trip_on_a_registry() {
    let log = Log::default();
    let mut demos = Demos::from_demos(recorders(&["a", "b"], &log));
    let before = sorted(demos.registry.open_list());
    demos.registry.set_open("a", true);
    assert!(demos.registry.is_open("a"));
    demos.registry.set_open("a", false);
    assert_eq!(sorted(demos.registry.open_list()), before);
    demos.registry.set_open("not a panel", true);
    assert!(demos.registry.is_open("not a panel"));
    assert_eq!(demos.registry.panel_names(), vec!["a", "b"]);
}

#[test]
fn toggles_change_nothing_while_the_user_does_nothing() {
    let log = Log::default();
    let mut demos = Demos::from_demos(recorders(&["a", GALLERY_NAME, "b"], &log));
    demos.registry.set_open("b", true);
    let before = sorted(demos.registry.open_list());
    let ctx = egui::Context::default();
    frame(&ctx, Vec::new(), |ui| demos.checkboxes(ui));
    assert_eq!(sorted(demos.registry.open_list()), before);
    frame(&ctx, Vec::new(), |ui| demos.checkboxes(ui));
    frame(&ctx, Vec::new(), |ui| demos.checkboxes(ui));
    assert_eq!(sorted(demos.registry.open_list()), before);
    assert_eq!(demos.registry.panel_names(), vec!["a", GALLERY_NAME, "b"]);
    assert!(log.lock().unwrap().is_empty());
}

#[test]
fn a_click_on_a_toggle_opens_the_panel_and_another_click_closes_it() {
    let names = ["alpha", "beta", "gamma"];
    let places = toggle_places(&names);
    let log = Log::default();
    let mut tests = Tests::from_demos(recorders(&names, &log));
    let ctx = egui::Context::default();
    frame(&ctx, Vec::new(), |ui| tests.checkboxes(ui));
    assert_eq!(tests.registry.open_list(), owned(&[GALLERY_NAME]));

    click(&ctx, places[1], |ui| tests.checkboxes(ui));
    assert!(tests.registry.is_open("beta"));
    assert!(!tests.registry.is_open("alpha"));
    assert!(!tests.registry.is_open("gamma"));
    assert!(tests.registry.is_open(GALLERY_NAME));

    click(&ctx, places[2], |ui| tests.checkboxes(ui));
    assert_eq!(
        sorted(tests.registry.open_list()),
        sorted(owned(&["beta", "gamma", GALLERY_NAME]))
    );

    click(&ctx, places[1], |ui| tests.checkboxes(ui));
    assert_eq!(sorted(tests.registry.open_list()), sorted(owned(&["gamma", GALLERY_NAME])));
}

#[test]
fn restored_names_replace_the_open_set_and_stale_ones_are_kept() {
    let log = Log::default();
    let mut demos = Demos::from_demos(recorders(&["a", "b"], &log));
    demos.registry.restore_open(&owned(&["b", "gone", "b"]));
    assert_eq!(sorted(demos.registry.open_list()), owned(&["b", "gone"]));
    assert!(!demos.registry.is_open(GALLERY_NAME));
    let ctx = egui::Context::default();
    frame(&ctx, Vec::new(), |ui| {
        demos.checkboxes(ui);
        demos.windows(ui.ctx());
    });
    assert_eq!(sorted(demos.registry.open_list()), owned(&["b", "gone"]));
    assert_eq!(*log.lock().unwrap(), vec![("a", false), ("b", true)]);
}

#[test]
fn with_names_wants_one_name_for_each_panel() {
    let log = Log::default();
    assert!(PanelRegistry::with_names(vec!["only"], recorders(&["a", "b"], &log)).is_none());
    assert!(PanelRegistry::with_names(vec!["x", "y", "z"], recorders(&["a", "b"], &log)).is_none());
    assert!(PanelRegistry::with_names(vec!["x"], Vec::new()).is_none());
    assert!(PanelRegistry::with_names(Vec::new(), Vec::new()).is_some());
    assert!(PanelRegistry::with_names(vec!["x", "y"], recorders(&["a", "b"], &log)).is_some());
}

#[test]
fn with_names_registers_each_panel_under_the_name_given() {
    let log = Log::default();
    let mut registry =
        PanelRegistry::with_names(vec!["key one", "key two"], recorders(&["a", "b"], &log))
            .unwrap();
    assert_eq!(registry.panel_names(), vec!["key one", "key two"]);
    assert_eq!(registry.len(), 2);
    assert_eq!(registry.open_list(), owned(&[GALLERY_NAME]));
    registry.set_open("key two", true);
    registry.set_open("a", true);
    let ctx = egui::Context::default();
    frame(&ctx, Vec::new(), |ui| registry.windows(ui.ctx()));
    assert_eq!(*log.lock().unwrap(), vec![("a", false), ("b", true)]);
    assert_eq!(
        sorted(registry.open_list()),
        sorted(owned(&["a", "key two", GALLERY_NAME]))
    );
}

/// A panel that gives another name each time it is asked.
struct Fickle {
    asked: std::sync::atomic::AtomicUsize,
}

impl Demo for Fickle {
    fn name(&self) -> &'static str {
        let names = ["first", "second", "third", "fourth"];
        let asked = self.asked.fetch_add(1, std::sync::atomic::Ordering::SeqCst);
        names[asked % names.len()]
    }

    fn show(&mut self, _ctx: &egui::Context, open: &mut bool) {
        *open = true;
    }
}

#[test]
fn a_panel_is_known_by_the_name_it_gave_when_it_was_registered() {
    let fickle = Fickle { asked: std::sync::atomic::AtomicUsize::new(0) };
    let mut registry = PanelRegistry::from_demos(vec![Box::new(fickle)]);
    assert_eq!(registry.panel_names(), vec!["first"]);
    let ctx = egui::Context::default();
    frame(&ctx, Vec::new(), |ui| {
        registry.checkboxes(ui);
        registry.windows(ui.ctx());
    });
    frame(&ctx, Vec::new(), |ui| registry.windows(ui.ctx()));
    assert_eq!(registry.panel_names(), vec!["first"]);
    assert_eq!(sorted(registry.open_list()), sorted(owned(&["first", GALLERY_NAME])));
}

#[test]
fn panels_stay_registered_over_many_frames() {
    let log = Log::default();
    let mut demos = Demos::from_demos(recorders(&["a", "b", "c"], &log));
    let ctx = egui::Context::default();
    for _ in 0..5 {
        frame(&ctx, Vec::new(), |ui| {
            demos.checkboxes(ui);
            demos.windows(ui.ctx());
        });
    }
    assert_eq!(demos.registry.len(), 3);
    assert_eq!(demos.registry.panel_names(), vec!["a", "b", "c"]);
    assert_eq!(log.lock().unwrap().len(), 15);
    assert_eq!(demos.registry.open_list(), owned(&[GALLERY_NAME]));
}
