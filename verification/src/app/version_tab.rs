//! The version tab: choosing a game version, then a way to play it, then,
//! for a mod loader, one of its builds.
use crate::app::{Action, Key, Tab, TabBinding, bindings_model, clone_versions};
use crate::manifest::main::{MinVersion, Version, VersionType};
use crate::manifest::version::StringPair;
use crate::modding::liteloader::lite_entry_model;
use crate::modding::{
    ModLoader, ModLoaderHandler, compatible_loaders, compatible_model, knows_its_versions,
    lemma_offered_loaders_support,
};
use crate::rendering::utils::{
    StatefulList, StatefulTable, can_move_down, can_move_up, next_row, previous_row,
};
use crate::text::to_owned_string;
use vstd::prelude::*;

verus! {

pub struct VersionTab {
    pub selected: Option<MinVersion>,
    pub selected_mod_loader: Option<ModLoader>,
    pub selected_mod_loader_version: Option<String>,
    pub snapshot: bool,
    pub old: bool,
    pub all_versions: Vec<MinVersion>,
    pub mc_version_table: StatefulTable<MinVersion>,
    pub loader_list: StatefulList<ModLoader>,
    pub loader_version_list: StatefulList<String>,
    pub versions: Vec<Version>,
    pub modding_handler: ModLoaderHandler,
    /// A mod loader was chosen and its builds are to be listed: the caller
    /// hands them to `receive_loader_versions`.
    pub pending_loader_versions: bool,
}

/// Releases are always shown, snapshots and old betas and alphas when asked.
pub open spec fn shown(t: VersionType, snapshot: bool, old: bool) -> bool {
    t is Release || (snapshot && t is Snapshot) || (old && (t is OldBeta || t is OldAlpha))
}

/// The versions of the table: those of `all` that are shown, in order.
pub open spec fn shown_versions(all: Seq<MinVersion>, snapshot: bool, old: bool) -> Seq<MinVersion>
    decreases all.len(),
{
    if all.len() == 0 {
        seq![]
    } else {
        let rest = shown_versions(all.drop_last(), snapshot, old);
        if shown(all.last()._type, snapshot, old) {
            rest.push(all.last())
        } else {
            rest
        }
    }
}

/// The row picked in a list: the selected one, or the first when nothing
/// is selected, if the list has it.
pub open spec fn pick<T>(items: Seq<T>, selected: Option<usize>) -> Option<T> {
    let i = match selected {
        Some(i) => i as int,
        None => 0,
    };
    if i < items.len() {
        Some(items[i])
    } else {
        None
    }
}

/// The keys of a list of builds, in order.
pub open spec fn build_names(builds: Seq<StringPair>) -> Seq<Seq<char>> {
    Seq::new(builds.len(), |i: int| builds[i].key@)
}

/// The choices are made in order: a loader only for a chosen version, a
/// build only for a chosen loader; and the offered loaders know their
/// versions.
pub open spec fn version_tab_wf(t: VersionTab) -> bool {
    &&& t.selected_mod_loader is Some ==> t.selected is Some
    &&& t.selected_mod_loader_version is Some ==> t.selected_mod_loader is Some
    &&& forall|i: int|
        0 <= i < t.modding_handler.mod_loaders@.len() ==> knows_its_versions(
            #[trigger] t.modding_handler.mod_loaders@[i],
        )
}

/// Which list the arrow keys move: the builds once a loader is chosen, the
/// loaders once a version is chosen, else the version table.
pub open spec fn moves_defined(t: VersionTab, key: Key) -> bool {
    &&& key == Key::Up ==> if t.selected_mod_loader is Some {
        can_move_up(
            t.loader_version_list.selected,
            t.loader_version_list.items@.len(),
            t.loader_version_list.allow_oob,
        )
    } else if t.selected is Some {
        can_move_up(t.loader_list.selected, t.loader_list.items@.len(), t.loader_list.allow_oob)
    } else {
        can_move_up(t.mc_version_table.selected, t.mc_version_table.items@.len(), true)
    }
    &&& key == Key::Down ==> if t.selected_mod_loader is Some {
        can_move_down(t.loader_version_list.selected, t.loader_version_list.items@.len())
    } else if t.selected is Some {
        can_move_down(t.loader_list.selected, t.loader_list.items@.len())
    } else {
        can_move_down(t.mc_version_table.selected, t.mc_version_table.items@.len())
    }
}

/// What pressing Enter chooses: a build once a loader is chosen, else a
/// loader once a version is chosen, else a version.
pub open spec fn select_effect(old: VersionTab, new: VersionTab) -> bool {
    if old.selected_mod_loader is Some {
        &&& new.selected == old.selected
        &&& new.selected_mod_loader == old.selected_mod_loader
        &&& new.selected_mod_loader_version.deep_view() == match pick(
            old.loader_version_list.items@,
            old.loader_version_list.selected,
        ) {
            Some(s) => Some(s@),
            None => None,
        }
    } else if old.selected is Some {
        &&& new.selected == old.selected
        &&& new.selected_mod_loader == pick(old.loader_list.items@, old.loader_list.selected)
        &&& new.selected_mod_loader_version == old.selected_mod_loader_version
    } else {
        &&& new.selected == pick(old.mc_version_table.items@, old.mc_version_table.selected)
        &&& new.selected_mod_loader == old.selected_mod_loader
        &&& new.selected_mod_loader_version == old.selected_mod_loader_version
    }
}

/// The lists, the options and what they were made from are unchanged.
pub open spec fn lists_unchanged(a: VersionTab, b: VersionTab) -> bool {
    &&& b.snapshot == a.snapshot
    &&& b.old == a.old
    &&& b.all_versions@ == a.all_versions@
    &&& b.mc_version_table.selected == a.mc_version_table.selected
    &&& b.mc_version_table.items@ == a.mc_version_table.items@
    &&& b.loader_list.selected == a.loader_list.selected
    &&& b.loader_list.items@ == a.loader_list.items@
    &&& b.loader_list.allow_oob == a.loader_list.allow_oob
    &&& b.loader_version_list.selected == a.loader_version_list.selected
    &&& b.loader_version_list.items@ == a.loader_version_list.items@
    &&& b.loader_version_list.allow_oob == a.loader_version_list.allow_oob
    &&& b.versions@ == a.versions@
    &&& b.modding_handler.mod_loaders@ == a.modding_handler.mod_loaders@
    &&& b.modding_handler.vanilla == a.modding_handler.vanilla
}

/// The choices are unchanged.
pub open spec fn choices_unchanged(a: VersionTab, b: VersionTab) -> bool {
    &&& b.selected == a.selected
    &&& b.selected_mod_loader == a.selected_mod_loader
    &&& b.selected_mod_loader_version == a.selected_mod_loader_version
}

impl VersionTab {
    /// Whether the choices are made in order and the loaders know their
    /// versions (see `version_tab_wf`).
    pub fn is_consistent(&self) -> (r: bool)
        ensures
            r == version_tab_wf(*self),
    {
        if self.selected_mod_loader.is_some() && self.selected.is_none() {
            return false;
        }
        if self.selected_mod_loader_version.is_some() && self.selected_mod_loader.is_none() {
            return false;
        }
        let loaders = &self.modding_handler.mod_loaders;
        let mut i: usize = 0;
        while i < loaders.len()
            invariant
                i <= loaders@.len(),
                loaders@ == self.modding_handler.mod_loaders@,
                self.selected_mod_loader is Some ==> self.selected is Some,
                self.selected_mod_loader_version is Some ==> self.selected_mod_loader is Some,
                forall|k: int| 0 <= k < i ==> knows_its_versions(#[trigger] loaders@[k]),
            decreases loaders.len() - i,
        {
            match loaders[i] {
                ModLoader::LiteLoader(_) => {},
                ModLoader::Rift(_) => {},
                ModLoader::CursedLegacy(_) => {},
                _ => {
                    assert(!knows_its_versions(loaders@[i as int]));
                    return false;
                },
            }
            i = i + 1;
        }
        true
    }

    /// Whether an arrow key can move the list on screen (see
    /// `moves_defined`).
    pub fn can_move(&self, key: Key) -> (r: bool)
        ensures
            r == moves_defined(*self, key),
    {
        if key == Key::Up {
            if self.selected_mod_loader.is_some() {
                let l = &self.loader_version_list;
                match l.selected {
                    Some(i) => !(i == 0 && l.allow_oob) || l.items.len() > 0,
                    None => true,
                }
            } else if self.selected.is_some() {
                let l = &self.loader_list;
                match l.selected {
                    Some(i) => !(i == 0 && l.allow_oob) || l.items.len() > 0,
                    None => true,
                }
            } else {
                match self.mc_version_table.selected {
                    Some(i) => i != 0 || self.mc_version_table.items.len() > 0,
                    None => true,
                }
            }
        } else if key == Key::Down {
            if self.selected_mod_loader.is_some() {
                self.loader_version_list.selected.is_none() || self.loader_version_list.items.len() > 0
            } else if self.selected.is_some() {
                self.loader_list.selected.is_none() || self.loader_list.items.len() > 0
            } else {
                self.mc_version_table.selected.is_none() || self.mc_version_table.items.len() > 0
            }
        } else {
            true
        }
    }

    /// A tab listing `min_versions`, with the launcher's loaders, nothing
    /// chosen and only releases shown.
    pub fn new(min_versions: Vec<MinVersion>, versions: Vec<Version>) -> (r: VersionTab)
        ensures
            version_tab_wf(r),
            offers_consistent(r),
            r.selected is None && r.selected_mod_loader is None && r.selected_mod_loader_version is None,
            !r.snapshot && !r.old && !r.pending_loader_versions,
            r.all_versions@ == min_versions@,
            r.mc_version_table.items@ == shown_versions(min_versions@, false, false),
            r.mc_version_table.selected == Some(0usize),
            r.loader_list.items@.len() == 0 && r.loader_version_list.items@.len() == 0,
            r.versions@ == versions@,
    {
        let mut table: Vec<MinVersion> = Vec::new();
        let mut i: usize = 0;
        while i < min_versions.len()
            invariant
                i <= min_versions@.len(),
                table@ == shown_versions(min_versions@.subrange(0, i as int), false, false),
            decreases min_versions.len() - i,
        {
            proof {
                let s = min_versions@.subrange(0, i + 1);
                assert(s.drop_last() =~= min_versions@.subrange(0, i as int));
            }
            if min_versions[i]._type.is_release() {
                table.push(min_versions[i].clone());
            }
            i = i + 1;
        }
        assert(min_versions@.subrange(0, min_versions@.len() as int) =~= min_versions@);
        let t = VersionTab {
            selected: None,
            selected_mod_loader: None,
            selected_mod_loader_version: None,
            snapshot: false,
            old: false,
            all_versions: min_versions,
            mc_version_table: StatefulTable::with_items(table),
            loader_list: StatefulList::new(),
            loader_version_list: StatefulList::new(),
            versions,
            modding_handler: ModLoaderHandler::new(),
            pending_loader_versions: false,
        };
        t
    }

    /// Fills the version table with the versions shown, the first one
    /// selected.
    pub fn build_table_state(&mut self)
        ensures
            final(self).mc_version_table.items@ == shown_versions(
                old(self).all_versions@,
                old(self).snapshot,
                old(self).old,
            ),
            final(self).mc_version_table.selected == Some(0usize),
            choices_unchanged(*old(self), *final(self)),
            final(self).snapshot == old(self).snapshot,
            final(self).old == old(self).old,
            final(self).all_versions@ == old(self).all_versions@,
            final(self).loader_list == old(self).loader_list,
            final(self).loader_version_list == old(self).loader_version_list,
            final(self).versions@ == old(self).versions@,
            final(self).modding_handler == old(self).modding_handler,
            final(self).pending_loader_versions == old(self).pending_loader_versions,
    {
        let mut items: Vec<MinVersion> = Vec::new();
        let mut i: usize = 0;
        while i < self.all_versions.len()
            invariant
                i <= self.all_versions@.len(),
                items@ == shown_versions(
                    self.all_versions@.subrange(0, i as int),
                    self.snapshot,
                    self.old,
                ),
            decreases self.all_versions.len() - i,
        {
            proof {
                let s = self.all_versions@.subrange(0, i + 1);
                assert(s.drop_last() =~= self.all_versions@.subrange(0, i as int));
            }
            let t = &self.all_versions[i]._type;
            if t.is_release() || (self.snapshot && t.is_snapshot()) || (self.old && t.is_old()) {
                items.push(self.all_versions[i].clone());
            }
            i = i + 1;
        }
        assert(self.all_versions@.subrange(0, self.all_versions@.len() as int)
            =~= self.all_versions@);
        self.mc_version_table = StatefulTable::with_items(items);
    }

    /// Lists the ways to play the chosen version (none when no version is
    /// chosen), the first selected, wrapping around.
    pub fn build_mod_loader_list(&mut self)
        requires
            version_tab_wf(*old(self)),
        ensures
            final(self).loader_list.items@ == match old(self).selected {
                None => seq![],
                Some(v) => seq![ModLoader::Vanilla(old(self).modding_handler.vanilla)]
                    + compatible_loaders(old(self).modding_handler.mod_loaders@, v.id@),
            },
            final(self).loader_list.selected == Some(0usize),
            final(self).loader_list.allow_oob,
            choices_unchanged(*old(self), *final(self)),
            final(self).snapshot == old(self).snapshot,
            final(self).old == old(self).old,
            final(self).all_versions@ == old(self).all_versions@,
            final(self).mc_version_table == old(self).mc_version_table,
            final(self).loader_version_list == old(self).loader_version_list,
            final(self).versions@ == old(self).versions@,
            final(self).modding_handler == old(self).modding_handler,
            final(self).pending_loader_versions == old(self).pending_loader_versions,
    {
        let items: Vec<ModLoader> = match &self.selected {
            None => Vec::new(),
            Some(min_version) => match self.modding_handler.get_loaders_for_version(
                min_version.id.clone(),
            ) {
                Ok(loaders) => loaders,
                Err(_) => Vec::new(),
            },
        };
        self.loader_list = StatefulList::with_items_oob(items);
    }

    /// Lists the builds of the chosen loader (none when no loader is
    /// chosen), the first selected, wrapping around; the builds are no
    /// longer pending.
    pub fn receive_loader_versions(&mut self, builds: Vec<StringPair>)
        ensures
            final(self).loader_version_list.items.deep_view() == match old(
                self,
            ).selected_mod_loader {
                None => seq![],
                Some(_) => build_names(builds@),
            },
            final(self).loader_version_list.selected == Some(0usize),
            final(self).loader_version_list.allow_oob,
            !final(self).pending_loader_versions,
            choices_unchanged(*old(self), *final(self)),
            final(self).snapshot == old(self).snapshot,
            final(self).old == old(self).old,
            final(self).all_versions@ == old(self).all_versions@,
            final(self).mc_version_table == old(self).mc_version_table,
            final(self).loader_list == old(self).loader_list,
            final(self).versions@ == old(self).versions@,
            final(self).modding_handler == old(self).modding_handler,
    {
        let mut list: Vec<String> = Vec::new();
        if self.selected_mod_loader.is_some() {
            let mut i: usize = 0;
            while i < builds.len()
                invariant
                    i <= builds@.len(),
                    list.deep_view() == build_names(builds@.subrange(0, i as int)),
                decreases builds.len() - i,
            {
                let ghost before = list.deep_view();
                let key = builds[i].key.clone();
                list.push(key);
                proof {
                    assert(list.deep_view() =~= before.push(builds@[i as int].key@));
                    assert(build_names(builds@.subrange(0, i + 1)) =~= build_names(
                        builds@.subrange(0, i as int),
                    ).push(builds@[i as int].key@));
                }
                i = i + 1;
            }
            assert(builds@.subrange(0, builds@.len() as int) =~= builds@);
        } else {
            assert(list.deep_view() =~= seq![]);
        }
        self.loader_version_list = StatefulList::with_items_oob(list);
        self.pending_loader_versions = false;
    }

    /// Chooses what is picked in the list on screen (see `select_effect`).
    pub fn select(&mut self)
        requires
            version_tab_wf(*old(self)),
        ensures
            select_effect(*old(self), *final(self)),
            version_tab_wf(*final(self)),
            lists_unchanged(*old(self), *final(self)),
            final(self).mc_version_table == old(self).mc_version_table,
            final(self).loader_list == old(self).loader_list,
            final(self).loader_version_list == old(self).loader_version_list,
            final(self).modding_handler == old(self).modding_handler,
            final(self).pending_loader_versions == old(self).pending_loader_versions,
    {
        if self.selected_mod_loader.is_some() {
            match self.loader_version_list.selected() {
                None => self.selected_mod_loader_version = None,
                Some(version) => self.selected_mod_loader_version = Some(version.clone()),
            }
        } else if self.selected.is_some() {
            match self.loader_list.selected() {
                None => self.selected_mod_loader = None,
                Some(mod_loader) => self.selected_mod_loader = Some(*mod_loader),
            }
        } else {
            let i: usize = match self.mc_version_table.selected {
                Some(i) => i,
                None => 0,
            };
            if i < self.mc_version_table.items.len() {
                self.selected = Some(self.mc_version_table.items[i].clone());
            } else {
                self.selected = None;
            }
        }
    }

    /// Handles a key (see `key_effect`): Enter chooses and moves on, the
    /// arrows move in the list on screen, Left takes back the last choice,
    /// S and O show or hide snapshots and old versions.
    pub fn on_key_press(&mut self, key: Key) -> (r: Action)
        requires
            version_tab_wf(*old(self)),
            moves_defined(*old(self), key),
        ensures
            key_effect(*old(self), key, *final(self), r),
            r is Nothing ==> version_tab_wf(*final(self)),
    {
        match key {
            Key::Enter => {
                self.select();
                if self.selected_mod_loader_version.is_some() {
                    let v = self.selected.clone().unwrap();
                    let vs = clone_versions(&self.versions);
                    let l = self.selected_mod_loader.unwrap();
                    self.selected_mod_loader = None;
                    let b = self.selected_mod_loader_version.clone();
                    Action::NextTab(Tab::Download(v, vs, l, b))
                } else if self.selected_mod_loader.is_some() {
                    let l = self.selected_mod_loader.unwrap();
                    if l.is_vanilla() {
                        let v = self.selected.clone().unwrap();
                        let vs = clone_versions(&self.versions);
                        Action::NextTab(Tab::Download(v, vs, l, None))
                    } else {
                        self.pending_loader_versions = true;
                        Action::Nothing
                    }
                } else if self.selected.is_some() {
                    self.build_mod_loader_list();
                    Action::Nothing
                } else {
                    Action::Nothing
                }
            },
            Key::Up => {
                if self.selected_mod_loader.is_some() {
                    self.loader_version_list.previous();
                } else if self.selected.is_some() {
                    self.loader_list.previous();
                } else {
                    self.mc_version_table.previous();
                }
                Action::Nothing
            },
            Key::Down => {
                if self.selected_mod_loader.is_some() {
                    self.loader_version_list.next();
                } else if self.selected.is_some() {
                    self.loader_list.next();
                } else {
                    self.mc_version_table.next();
                }
                Action::Nothing
            },
            Key::Left => {
                if self.selected_mod_loader_version.is_some() {
                    self.selected_mod_loader_version = None;
                } else if self.selected_mod_loader.is_some() {
                    self.selected_mod_loader = None;
                } else if self.selected.is_some() {
                    self.selected = None;
                }
                Action::Nothing
            },
            Key::Char(c) => {
                if c == 's' {
                    self.snapshot = !self.snapshot;
                    self.build_table_state();
                } else if c == 'o' {
                    self.old = !self.old;
                    self.build_table_state();
                }
                Action::Nothing
            },
            _ => Action::Nothing,
        }
    }

    /// The version tab never moves on by itself.
    pub fn tick(&self) -> (r: Action)
        ensures
            r is Nothing,
    {
        Action::Nothing
    }

    /// The keys of the version tab, with the state of its two options.
    pub fn get_bindings(&self) -> (r: Vec<TabBinding>)
        ensures
            bindings_model(r@) == version_bindings_model(self.snapshot, self.old),
    {
        let mut vec: Vec<TabBinding> = Vec::new();
        vec.push(TabBinding::Default(to_owned_string("ENTER"), to_owned_string("Install and Launch selected version")));
        vec.push(TabBinding::Default(to_owned_string("UP"), to_owned_string("Move selector up")));
        vec.push(TabBinding::Default(to_owned_string("DOWN"), to_owned_string("Move selector down")));
        vec.push(TabBinding::Enablable(to_owned_string("S"), to_owned_string("Show/Hide snapshots"), self.snapshot));
        vec.push(TabBinding::Enablable(to_owned_string("O"), to_owned_string("Show/Hide old betas and alphas"), self.old));
        assert(bindings_model(vec@) =~= seq![
            ("ENTER"@, "Install and Launch selected version"@, None::<bool>),
            ("UP"@, "Move selector up"@, None::<bool>),
            ("DOWN"@, "Move selector down"@, None::<bool>),
            ("S"@, "Show/Hide snapshots"@, Some(self.snapshot)),
            ("O"@, "Show/Hide old betas and alphas"@, Some(self.old)),
        ]);
        vec
    }
}

/// The cells of a row of the version table: identifier, channel, and
/// whether the version is installed; the release date is shown as it is.
pub fn version_row(v: &MinVersion) -> (r: (String, String, String))
    ensures
        r.0@ == v.id@,
        r.1@ == crate::manifest::main::channel_name(v._type),
        r.2@ == (if v.installed {
            "Yes"@
        } else {
            "No"@
        }),
{
    let installed = if v.installed {
        to_owned_string("Yes")
    } else {
        to_owned_string("No")
    };
    (v.id.clone(), v._type.to_string(), installed)
}

/// Left takes back what Enter chose: from a tab with nothing chosen, Enter
/// then Left leaves nothing chosen again.
pub proof fn lemma_enter_then_left(a: VersionTab, b: VersionTab, r1: Action, c: VersionTab, r2: Action)
    requires
        a.selected is None,
        a.selected_mod_loader is None,
        a.selected_mod_loader_version is None,
        key_effect(a, Key::Enter, b, r1),
        key_effect(b, Key::Left, c, r2),
    ensures
        r1 is Nothing,
        c.selected is None,
        c.selected_mod_loader is None,
        c.selected_mod_loader_version is None,
{
}

/// The keys of the version tab, with the state of its two options.
pub open spec fn version_bindings_model(snapshot: bool, old: bool) -> Seq<(Seq<char>, Seq<char>, Option<bool>)> {
    seq![
        ("ENTER"@, "Install and Launch selected version"@, None::<bool>),
        ("UP"@, "Move selector up"@, None::<bool>),
        ("DOWN"@, "Move selector down"@, None::<bool>),
        ("S"@, "Show/Hide snapshots"@, Some(snapshot)),
        ("O"@, "Show/Hide old betas and alphas"@, Some(old)),
    ]
}

/// The loaders offered are those of the chosen version, and a chosen
/// loader is vanilla or one that supports the chosen version.
pub open spec fn offers_consistent(t: VersionTab) -> bool {
    &&& t.selected matches Some(v) ==> t.loader_list.items@ == seq![
        ModLoader::Vanilla(t.modding_handler.vanilla),
    ] + compatible_loaders(t.modding_handler.mod_loaders@, v.id@)
    &&& t.selected_mod_loader matches Some(l) ==> (l is Vanilla || (t.selected matches Some(v)
        && compatible_model(l).contains(v.id@)))
}

proof fn lemma_loader_supports(l: ModLoader, v: Seq<char>)
    requires
        compatible_model(l).contains(v),
    ensures
        knows_its_versions(l),
        l is LiteLoader ==> lite_entry_model(v) is Some,
{
    if l is LiteLoader {
        crate::modding::liteloader::lemma_lite_entry_iff_supported(v);
    }
}

/// The installation the version tab opens can always be started: its
/// loader is vanilla or knows its versions, and LiteLoader is only handed
/// a game version it has a profile for. While the tab stays, the loaders
/// it offers stay those of the chosen version.
pub proof fn lemma_offered_download_can_start(a: VersionTab, key: Key, b: VersionTab, r: Action)
    requires
        version_tab_wf(a),
        offers_consistent(a),
        key_effect(a, key, b, r),
    ensures
        r matches Action::NextTab(Tab::Download(v, _, l, _)) ==> {
            &&& !(l is Vanilla) ==> knows_its_versions(l)
            &&& l is LiteLoader ==> lite_entry_model(v.id@) is Some
        },
        r is Nothing ==> offers_consistent(b),
{
    if key == Key::Enter && a.selected_mod_loader is None && a.selected is Some {
        let v = a.selected->0;
        let offer = a.loader_list.items@;
        let rest = compatible_loaders(a.modding_handler.mod_loaders@, v.id@);
        let i = match a.loader_list.selected {
            Some(i) => i as int,
            None => 0,
        };
        if i < offer.len() && i > 0 {
            assert(offer[i] == rest[i - 1]);
            lemma_offered_loaders_support(a.modding_handler.mod_loaders@, v.id@, i - 1);
            lemma_loader_supports(offer[i], v.id@);
        }
    }
    if let Some(l) = a.selected_mod_loader {
        if !(l is Vanilla) {
            lemma_loader_supports(l, a.selected->0.id@);
        }
    }
}

/// The version Enter leaves chosen.
pub open spec fn chosen_version(t: VersionTab) -> Option<MinVersion> {
    if t.selected_mod_loader is Some || t.selected is Some {
        t.selected
    } else {
        pick(t.mc_version_table.items@, t.mc_version_table.selected)
    }
}

/// The loader Enter leaves chosen.
pub open spec fn chosen_loader(t: VersionTab) -> Option<ModLoader> {
    if t.selected_mod_loader is Some {
        t.selected_mod_loader
    } else if t.selected is Some {
        pick(t.loader_list.items@, t.loader_list.selected)
    } else {
        t.selected_mod_loader
    }
}

/// The build Enter leaves chosen.
pub open spec fn chosen_build(t: VersionTab) -> Option<Seq<char>> {
    if t.selected_mod_loader is Some {
        match pick(t.loader_version_list.items@, t.loader_version_list.selected) {
            Some(s) => Some(s@),
            None => None,
        }
    } else {
        t.selected_mod_loader_version.deep_view()
    }
}

/// The list the arrows move, after a move up (`up`) or down.
pub open spec fn moved(a: VersionTab, b: VersionTab, up: bool) -> bool {
    &&& choices_unchanged(a, b)
    &&& b.snapshot == a.snapshot && b.old == a.old && b.all_versions@ == a.all_versions@
    &&& b.versions@ == a.versions@ && b.modding_handler == a.modding_handler
    &&& b.pending_loader_versions == a.pending_loader_versions
    &&& b.mc_version_table.items@ == a.mc_version_table.items@
    &&& b.loader_list.items@ == a.loader_list.items@
    &&& b.loader_list.allow_oob == a.loader_list.allow_oob
    &&& b.loader_version_list.items@ == a.loader_version_list.items@
    &&& b.loader_version_list.allow_oob == a.loader_version_list.allow_oob
    &&& if a.selected_mod_loader is Some {
        &&& b.loader_version_list.selected == Some(
            (if up {
                previous_row(
                    a.loader_version_list.selected,
                    a.loader_version_list.items@.len(),
                    a.loader_version_list.allow_oob,
                )
            } else {
                next_row(
                    a.loader_version_list.selected,
                    a.loader_version_list.items@.len(),
                    a.loader_version_list.allow_oob,
                )
            }) as usize,
        )
        &&& b.loader_list.selected == a.loader_list.selected
        &&& b.mc_version_table.selected == a.mc_version_table.selected
    } else if a.selected is Some {
        &&& b.loader_list.selected == Some(
            (if up {
                previous_row(a.loader_list.selected, a.loader_list.items@.len(), a.loader_list.allow_oob)
            } else {
                next_row(a.loader_list.selected, a.loader_list.items@.len(), a.loader_list.allow_oob)
            }) as usize,
        )
        &&& b.loader_version_list.selected == a.loader_version_list.selected
        &&& b.mc_version_table.selected == a.mc_version_table.selected
    } else {
        &&& b.mc_version_table.selected == Some(
            (if up {
                previous_row(a.mc_version_table.selected, a.mc_version_table.items@.len(), true)
            } else {
                next_row(a.mc_version_table.selected, a.mc_version_table.items@.len(), true)
            }) as usize,
        )
        &&& b.loader_list.selected == a.loader_list.selected
        &&& b.loader_version_list.selected == a.loader_version_list.selected
    }
}

/// What a key does to the version tab (`a` before, `b` after) and asks of
/// the application (`r`).
pub open spec fn key_effect(a: VersionTab, key: Key, b: VersionTab, r: Action) -> bool {
    match key {
        Key::Enter => {
            let v = chosen_version(a);
            let l = chosen_loader(a);
            let build = chosen_build(a);
            &&& b.selected == v
            &&& b.selected_mod_loader_version.deep_view() == build
            &&& b.snapshot == a.snapshot && b.old == a.old && b.all_versions@ == a.all_versions@
            &&& b.versions@ == a.versions@ && b.modding_handler == a.modding_handler
            &&& b.mc_version_table == a.mc_version_table
            &&& b.loader_version_list == a.loader_version_list
            &&& match build {
                Some(bv) => {
                    &&& r matches Action::NextTab(Tab::Download(mv, vs, ml, Some(s)))
                    &&& v == Some(mv) && vs@ == a.versions@ && l == Some(ml) && s@ == bv
                    &&& b.selected_mod_loader is None
                    &&& b.loader_list == a.loader_list
                    &&& b.pending_loader_versions == a.pending_loader_versions
                },
                None => {
                    &&& b.selected_mod_loader == l
                    &&& match l {
                        Some(lo) => if lo is Vanilla {
                            &&& r matches Action::NextTab(Tab::Download(mv, vs, ml, None))
                            &&& v == Some(mv) && vs@ == a.versions@ && ml == lo
                            &&& b.loader_list == a.loader_list
                            &&& b.pending_loader_versions == a.pending_loader_versions
                        } else {
                            &&& r is Nothing
                            &&& b.pending_loader_versions
                            &&& b.loader_list == a.loader_list
                        },
                        None => {
                            &&& r is Nothing
                            &&& b.pending_loader_versions == a.pending_loader_versions
                            &&& match v {
                                Some(mv) => b.loader_list.items@ == seq![
                                    ModLoader::Vanilla(a.modding_handler.vanilla),
                                ] + compatible_loaders(a.modding_handler.mod_loaders@, mv.id@)
                                    && b.loader_list.selected == Some(0usize)
                                    && b.loader_list.allow_oob,
                                None => b.loader_list == a.loader_list,
                            }
                        },
                    }
                },
            }
        },
        Key::Up => r is Nothing && moved(a, b, true),
        Key::Down => r is Nothing && moved(a, b, false),
        Key::Left => {
            &&& r is Nothing
            &&& lists_unchanged(a, b)
            &&& b.pending_loader_versions == a.pending_loader_versions
            &&& if a.selected_mod_loader_version is Some {
                b.selected_mod_loader_version is None && b.selected_mod_loader
                    == a.selected_mod_loader && b.selected == a.selected
            } else if a.selected_mod_loader is Some {
                b.selected_mod_loader is None && b.selected == a.selected
                    && b.selected_mod_loader_version is None
            } else {
                b.selected is None && b.selected_mod_loader is None
                    && b.selected_mod_loader_version is None
            }
        },
        Key::Char(c) => {
            &&& r is Nothing
            &&& choices_unchanged(a, b)
            &&& b.pending_loader_versions == a.pending_loader_versions
            &&& b.loader_list == a.loader_list && b.loader_version_list == a.loader_version_list
            &&& b.all_versions@ == a.all_versions@ && b.versions@ == a.versions@
            &&& b.modding_handler == a.modding_handler
            &&& if c == 's' || c == 'o' {
                &&& b.snapshot == (if c == 's' { !a.snapshot } else { a.snapshot })
                &&& b.old == (if c == 'o' { !a.old } else { a.old })
                &&& b.mc_version_table.items@ == shown_versions(a.all_versions@, b.snapshot, b.old)
                &&& b.mc_version_table.selected == Some(0usize)
            } else {
                b.snapshot == a.snapshot && b.old == a.old && b.mc_version_table
                    == a.mc_version_table
            }
        },
        _ => r is Nothing && lists_unchanged(a, b) && choices_unchanged(a, b)
            && b.pending_loader_versions == a.pending_loader_versions,
    }
}

} // verus!
