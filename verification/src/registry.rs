//! Registries of panels: an ordered list of panels and the set of names of
//! those that are open.

use crate::open_set::{set_open, with_open, OpenSet};
use crate::panel::Demo;
use crate::surface::toggle_value;
use vstd::prelude::*;

verus! {

/// The name of the panel that a new registry shows first.
pub const GALLERY_NAME: &'static str = "🗄 Widget Gallery";

/// The open set after the panels called `names` reported `flags`, one panel
/// after the other, first to last.
pub open spec fn reconciled(open: Set<Seq<char>>, names: Seq<Seq<char>>, flags: Seq<bool>) -> Set<
    Seq<char>,
>
    recommends
        flags.len() == names.len(),
    decreases names.len(),
{
    if names.len() == 0 {
        open
    } else {
        with_open(
            reconciled(open, names.drop_last(), flags.drop_last()),
            names.last(),
            flags.last(),
        )
    }
}

/// Every panel reported what it had been shown: no toggle was clicked, no
/// panel changed its mind.
pub open spec fn nothing_changed(open: Set<Seq<char>>, names: Seq<Seq<char>>, flags: Seq<bool>)
    -> bool {
    forall|i: int|
        0 <= i < names.len() ==> flags[i] == #[trigger] reconciled(
            open,
            names.take(i),
            flags.take(i),
        ).contains(names[i])
}

/// A pass over the panels in which every panel reports what it was shown
/// leaves the open set as it was, and so does any number of such passes.
pub proof fn lemma_quiet_pass_keeps_open(
    open: Set<Seq<char>>,
    names: Seq<Seq<char>>,
    flags: Seq<bool>,
)
    requires
        flags.len() == names.len(),
        nothing_changed(open, names, flags),
    ensures
        reconciled(open, names, flags) == open,
    decreases names.len(),
{
    if names.len() > 0 {
        let n = names.len() - 1;
        assert forall|i: int| 0 <= i < n implies flags.drop_last()[i] == #[trigger] reconciled(
            open,
            names.drop_last().take(i),
            flags.drop_last().take(i),
        ).contains(names.drop_last()[i]) by {
            assert(names.drop_last().take(i) =~= names.take(i));
            assert(flags.drop_last().take(i) =~= flags.take(i));
            assert(flags[i] == reconciled(open, names.take(i), flags.take(i)).contains(names[i]));
        }
        lemma_quiet_pass_keeps_open(open, names.drop_last(), flags.drop_last());
        assert(names.take(n) =~= names.drop_last());
        assert(flags.take(n) =~= flags.drop_last());
        assert(flags[n] == reconciled(open, names.take(n), flags.take(n)).contains(names[n]));
        assert(with_open(open, names[n], open.contains(names[n])) =~= open);
    }
}

/// The reports of a pass in which nothing happens: each panel reports what
/// the open set says of it.
pub open spec fn quiet_flags(open: Set<Seq<char>>, names: Seq<Seq<char>>) -> Seq<bool> {
    Seq::new(names.len(), |i: int| open.contains(names[i]))
}

/// Reconciling the open set with what it says itself changes nothing.
pub proof fn lemma_quiet_flags_keep_open(open: Set<Seq<char>>, names: Seq<Seq<char>>)
    ensures
        reconciled(open, names, quiet_flags(open, names)) == open,
    decreases names.len(),
{
    if names.len() > 0 {
        lemma_quiet_flags_keep_open(open, names.drop_last());
        assert(quiet_flags(open, names).drop_last() =~= quiet_flags(open, names.drop_last()));
        assert(with_open(open, names.last(), open.contains(names.last())) =~= open);
    }
}

/// A pass over the panels leaves a name that no panel has as it was: a name
/// that is open without a panel stays open, and nothing is shown for it.
pub proof fn lemma_pass_keeps_other_names(
    open: Set<Seq<char>>,
    names: Seq<Seq<char>>,
    flags: Seq<bool>,
    name: Seq<char>,
)
    requires
        flags.len() == names.len(),
        !names.contains(name),
    ensures
        reconciled(open, names, flags).contains(name) == open.contains(name),
    decreases names.len(),
{
    if names.len() > 0 {
        let n = names.len() - 1;
        assert(names[n] != name);
        assert forall|i: int| 0 <= i < n implies names.drop_last()[i] != name by {
            assert(names[i] != name);
        }
        lemma_pass_keeps_other_names(open, names.drop_last(), flags.drop_last(), name);
    }
}

/// The panels report in the order of registration, so where several panels
/// share a name, the last of them decides: a name is open after a pass
/// exactly if the last panel of that name reported so.
pub proof fn lemma_last_report_decides(
    open: Set<Seq<char>>,
    names: Seq<Seq<char>>,
    flags: Seq<bool>,
    i: int,
)
    requires
        flags.len() == names.len(),
        0 <= i < names.len(),
        forall|j: int| i < j < names.len() ==> names[j] != names[i],
    ensures
        reconciled(open, names, flags).contains(names[i]) == flags[i],
    decreases names.len(),
{
    let n = names.len() - 1;
    if i < n {
        assert(names[n] != names[i]);
        assert forall|j: int| i < j < names.drop_last().len() implies names.drop_last()[j]
            != names.drop_last()[i] by {
            assert(names[j] != names[i]);
        }
        lemma_last_report_decides(open, names.drop_last(), flags.drop_last(), i);
    }
}

/// Where no two panels share a name, a panel is open after a pass exactly if
/// it reported so.
pub proof fn lemma_pass_follows_reports(
    open: Set<Seq<char>>,
    names: Seq<Seq<char>>,
    flags: Seq<bool>,
    i: int,
)
    requires
        flags.len() == names.len(),
        names.no_duplicates(),
        0 <= i < names.len(),
    ensures
        reconciled(open, names, flags).contains(names[i]) == flags[i],
{
    lemma_last_report_decides(open, names, flags, i);
}

/// Panels in the order of registration, each with the name it is known by.
struct Roster {
    names: Vec<&'static str>,
    demos: Vec<Box<dyn Demo>>,
}

impl Roster {
    /// Every panel has its name on record.
    #[verifier::type_invariant]
    spec fn one_name_each(&self) -> bool {
        self.names@.len() == self.demos@.len()
    }

    /// No panels.
    fn empty() -> (roster: Self)
        ensures
            roster.names@.len() == 0,
            roster.demos@.len() == 0,
    {
        Roster { names: Vec::new(), demos: Vec::new() }
    }
}

/// An ordered list of panels and the names of those that are open.
///
/// A panel is known by the name it gave when it was registered.
pub struct PanelRegistry {
    roster: Roster,
    open: OpenSet,
}

impl PanelRegistry {
    /// The names of the panels, in the order of registration.
    pub closed spec fn names(&self) -> Seq<Seq<char>> {
        self.roster.names@.map_values(|n: &'static str| n@)
    }

    /// The panels, in the order of registration.
    pub closed spec fn panels(&self) -> Seq<Box<dyn Demo>> {
        self.roster.demos@
    }

    /// The names that count as open.
    pub closed spec fn open_names(&self) -> Set<Seq<char>> {
        self.open@
    }

    /// `after` is `before` once every panel has reported, in order, whether it
    /// is open: the names are the same, and the open set is `before`'s,
    /// reconciled with some report for each panel.
    pub open spec fn reports_taken(before: &Self, after: &Self) -> bool {
        &&& after.names() == before.names()
        &&& exists|flags: Seq<bool>|
            flags.len() == before.names().len() && #[trigger] reconciled(
                before.open_names(),
                before.names(),
                flags,
            ) == after.open_names()
    }

    /// A registry that is left alone is one whose panels have all reported
    /// what they were shown.
    pub proof fn lemma_left_alone(registry: &Self)
        ensures
            Self::reports_taken(registry, registry),
    {
        let flags = quiet_flags(registry.open_names(), registry.names());
        lemma_quiet_flags_keep_open(registry.open_names(), registry.names());
        assert(reconciled(registry.open_names(), registry.names(), flags)
            == registry.open_names());
    }

    /// Registers `demos` in the order given, each under the name at its place
    /// in `names`; this fails if there is not one name for each panel. Only
    /// the gallery counts as open, whether or not it is among the names.
    pub fn with_names(names: Vec<&'static str>, demos: Vec<Box<dyn Demo>>) -> (r: Option<Self>)
        ensures
            r.is_some() == (names@.len() == demos@.len()),
            match r {
                Some(registry) => {
                    &&& registry.names() == names@.map_values(|n: &'static str| n@)
                    &&& registry.panels() == demos@
                    &&& registry.open_names() == set![GALLERY_NAME@]
                },
                None => true,
            },
    {
        if names.len() != demos.len() {
            return None;
        }
        let mut open = OpenSet::new();
        open.insert(GALLERY_NAME);
        assert(open@ =~= set![GALLERY_NAME@]);
        Some(PanelRegistry { roster: Roster { names, demos }, open })
    }

    /// Registers `demos` in the order given, each under the name that it
    /// gives for itself. Only the gallery counts as open, whether or not it
    /// is among `demos`.
    pub fn from_demos(demos: Vec<Box<dyn Demo>>) -> (r: Self)
        ensures
            r.panels() == demos@,
            r.names().len() == demos@.len(),
            r.open_names() == set![GALLERY_NAME@],
    {
        let n: usize = demos.len();
        let mut names: Vec<&'static str> = Vec::new();
        let mut i: usize = 0;
        while i < n
            invariant
                i <= n,
                n == demos@.len(),
                names@.len() == i,
            decreases n - i,
        {
            names.push(demos[i].name());
            i = i + 1;
        }
        Self::with_names(names, demos).unwrap()
    }

    /// The number of panels, which is also the number of names.
    pub fn len(&self) -> (n: usize)
        ensures
            n == self.names().len(),
            n == self.panels().len(),
    {
        proof {
            use_type_invariant(&self.roster);
        }
        self.roster.names.len()
    }

    /// The names of the panels, in the order of registration.
    pub fn panel_names(&self) -> (names: Vec<&'static str>)
        ensures
            names@.map_values(|n: &'static str| n@) == self.names(),
    {
        self.roster.names.clone()
    }

    /// Whether the name counts as open.
    pub fn is_open(&self, name: &str) -> (open: bool)
        ensures
            open == self.open_names().contains(name@),
    {
        self.open.contains(name)
    }

    /// The names that count as open, each once, in no particular order.
    pub fn open_list(&self) -> (names: Vec<String>)
        ensures
            names@.map_values(|n: String| n@).to_set() == self.open_names(),
            names@.map_values(|n: String| n@).no_duplicates(),
    {
        self.open.to_names()
    }

    /// Makes `name` count as open or as closed. The name need not be that of
    /// a panel.
    pub fn set_open(&mut self, name: &'static str, is_open: bool)
        ensures
            final(self).open_names() == with_open(old(self).open_names(), name@, is_open),
            final(self).names() == old(self).names(),
            final(self).panels() == old(self).panels(),
    {
        set_open(&mut self.open, name, is_open);
    }

    /// Puts the names in `names` in place of the open set, as when a stored
    /// state is taken up again. A name that no panel has is kept all the same.
    pub fn restore_open(&mut self, names: &Vec<String>)
        ensures
            final(self).open_names() == names@.map_values(|n: String| n@).to_set(),
            final(self).names() == old(self).names(),
            final(self).panels() == old(self).panels(),
    {
        self.open = OpenSet::from_names(names);
    }

    /// Adds a toggle for each panel, in the order of registration, and takes
    /// over what each toggle says once the user has had a go at it.
    pub fn checkboxes(&mut self, ui: &mut egui::Ui)
        ensures
            Self::reports_taken(old(self), final(self)),
            final(self).panels() == old(self).panels(),
    {
        let n: usize = self.roster.names.len();
        let ghost mut flags: Seq<bool> = Seq::empty();
        let mut i: usize = 0;
        while i < n
            invariant
                i <= n,
                n == self.roster.names@.len(),
                self.roster == old(self).roster,
                flags.len() == i,
                self.open@ == reconciled(old(self).open@, self.names().take(i as int), flags),
            decreases n - i,
        {
            let name: &'static str = self.roster.names[i];
            let mut is_open: bool = self.open.contains(name);
            toggle_value(ui, &mut is_open, name);
            set_open(&mut self.open, name, is_open);
            proof {
                assert(self.names().take(i + 1).drop_last() =~= self.names().take(i as int));
                assert(flags.push(is_open).drop_last() =~= flags);
                flags = flags.push(is_open);
            }
            i = i + 1;
        }
        proof {
            assert(self.names().take(n as int) =~= self.names());
            assert(reconciled(old(self).open_names(), old(self).names(), flags)
                == self.open_names());
        }
    }

    /// Lets each panel show itself, in the order of registration, and takes
    /// over what each panel says about staying open.
    pub fn windows(&mut self, ctx: &egui::Context)
        ensures
            Self::reports_taken(old(self), final(self)),
            final(self).panels().len() == old(self).panels().len(),
    {
        // The panels are taken out for the pass and put back after it, so
        // that the roster is whole whenever it can be seen.
        let mut roster = Roster::empty();
        core::mem::swap(&mut self.roster, &mut roster);
        proof {
            use_type_invariant(&roster);
        }
        let Roster { names, mut demos } = roster;
        let ghost all = names@.map_values(|n: &'static str| n@);
        let n: usize = names.len();
        let ghost mut flags: Seq<bool> = Seq::empty();
        let mut i: usize = 0;
        while i < n
            invariant
                i <= n,
                n == names@.len(),
                n == demos@.len(),
                all == names@.map_values(|n: &'static str| n@),
                flags.len() == i,
                self.open@ == reconciled(old(self).open@, all.take(i as int), flags),
            decreases n - i,
        {
            let name: &'static str = names[i];
            let mut is_open: bool = self.open.contains(name);
            demos[i].show(ctx, &mut is_open);
            set_open(&mut self.open, name, is_open);
            proof {
                assert(all.take(i + 1).drop_last() =~= all.take(i as int));
                assert(flags.push(is_open).drop_last() =~= flags);
                flags = flags.push(is_open);
            }
            i = i + 1;
        }
        self.roster = Roster { names, demos };
        proof {
            assert(all.take(n as int) =~= all);
            assert(reconciled(old(self).open_names(), old(self).names(), flags)
                == self.open_names());
        }
    }
}

/// The registry of the demonstrations.
pub struct Demos {
    pub registry: PanelRegistry,
}

impl Demos {
    /// Registers `demos` in the order given. Only the gallery counts as open,
    /// whether or not it is among `demos`.
    pub fn from_demos(demos: Vec<Box<dyn Demo>>) -> (r: Self)
        ensures
            r.registry.panels() == demos@,
            r.registry.names().len() == demos@.len(),
            r.registry.open_names() == set![GALLERY_NAME@],
    {
        Demos { registry: PanelRegistry::from_demos(demos) }
    }

    /// Adds a toggle for each demonstration, in the order of registration,
    /// and takes over what each toggle says.
    pub fn checkboxes(&mut self, ui: &mut egui::Ui)
        ensures
            PanelRegistry::reports_taken(&old(self).registry, &final(self).registry),
            final(self).registry.panels() == old(self).registry.panels(),
    {
        self.registry.checkboxes(ui);
    }

    /// Lets each demonstration show itself, in the order of registration, and
    /// takes over what each says about staying open.
    pub fn windows(&mut self, ctx: &egui::Context)
        ensures
            PanelRegistry::reports_taken(&old(self).registry, &final(self).registry),
            final(self).registry.panels().len() == old(self).registry.panels().len(),
    {
        self.registry.windows(ctx);
    }
}

/// The registry of the test panels.
pub struct Tests {
    pub registry: PanelRegistry,
}

impl Tests {
    /// Registers `demos` in the order given. Only the gallery counts as open,
    /// whether or not it is among `demos`.
    pub fn from_demos(demos: Vec<Box<dyn Demo>>) -> (r: Self)
        ensures
            r.registry.panels() == demos@,
            r.registry.names().len() == demos@.len(),
            r.registry.open_names() == set![GALLERY_NAME@],
    {
        Tests { registry: PanelRegistry::from_demos(demos) }
    }

    /// Adds a toggle for each test panel, in the order of registration, and
    /// takes over what each toggle says.
    pub fn checkboxes(&mut self, ui: &mut egui::Ui)
        ensures
            PanelRegistry::reports_taken(&old(self).registry, &final(self).registry),
            final(self).registry.panels() == old(self).registry.panels(),
    {
        self.registry.checkboxes(ui);
    }

    /// Lets each test panel show itself, in the order of registration, and
    /// takes over what each says about staying open.
    pub fn windows(&mut self, ctx: &egui::Context)
        ensures
            PanelRegistry::reports_taken(&old(self).registry, &final(self).registry),
            final(self).registry.panels().len() == old(self).registry.panels().len(),
    {
        self.registry.windows(ctx);
    }
}

} // verus!
