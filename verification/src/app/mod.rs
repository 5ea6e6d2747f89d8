//! The state of the launcher's tabs and how keys and ticks move between
//! them. Drawing, the terminal and the threads stay with the binary.
use crate::manifest::main::{MinVersion, Version};
use crate::manifest::version;
use crate::modding::ModLoader;
use crate::text::to_owned_string;
use crate::app::download_tab::DownloadTab;
use crate::app::launch_tab::{GameLogTab, launch_key_effect};
use crate::app::login_tab::{LoginTab, backspace_defined, login_bindings_model, login_key_effect};
use crate::app::version_tab::{
    VersionTab, key_effect, moves_defined, shown_versions, version_bindings_model, version_tab_wf,
};
use crate::rendering::utils::{can_move_down, can_move_up};
use vstd::prelude::*;

pub mod download_tab;
pub mod launch_tab;
pub mod login_tab;
pub mod version_tab;

verus! {

/// The keys the tabs react to; every other key is `Other`.
#[derive(Clone, Copy, PartialEq, Eq, Structural)]
pub enum Key {
    Enter,
    Tab,
    Backspace,
    Up,
    Down,
    Left,
    Esc,
    Char(char),
    Other,
}

/// What a key press or a tick asks of the application.
pub enum Action {
    Nothing,
    NextTab(Tab),
}

/// The tab on screen, with what it was opened with.
pub enum Tab {
    Login,
    Version,
    Download(MinVersion, Vec<Version>, ModLoader, Option<String>),
    Launch(version::Main),
    Mod,
    ModVersion,
}

/// `b` is a copy of the tab `a`.
pub open spec fn same_tab(a: Tab, b: Tab) -> bool {
    match (a, b) {
        (Tab::Login, Tab::Login) => true,
        (Tab::Version, Tab::Version) => true,
        (Tab::Download(v, vs, l, lv), Tab::Download(w, ws, m, mv)) => v == w && vs@ == ws@ && l
            == m && lv == mv,
        (Tab::Launch(v), Tab::Launch(w)) => v.deep_view() == w.deep_view(),
        (Tab::Mod, Tab::Mod) => true,
        (Tab::ModVersion, Tab::ModVersion) => true,
        _ => false,
    }
}

/// A copy of a list of published versions.
pub fn clone_versions(versions: &Vec<Version>) -> (r: Vec<Version>)
    ensures
        r@ == versions@,
{
    let mut out: Vec<Version> = Vec::new();
    let mut i: usize = 0;
    while i < versions.len()
        invariant
            i <= versions@.len(),
            out@ == versions@.subrange(0, i as int),
        decreases versions.len() - i,
    {
        out.push(versions[i].clone());
        i = i + 1;
    }
    assert(versions@.subrange(0, versions@.len() as int) =~= versions@);
    out
}

impl Tab {
    pub fn clone(&self) -> (r: Tab)
        ensures
            same_tab(*self, r),
    {
        match self {
            Tab::Login => Tab::Login,
            Tab::Version => Tab::Version,
            Tab::Download(v, vs, l, lv) => Tab::Download(v.clone(), clone_versions(vs), *l, lv.clone()),
            Tab::Launch(v) => Tab::Launch(v.clone()),
            Tab::Mod => Tab::Mod,
            Tab::ModVersion => Tab::ModVersion,
        }
    }

    /// The position of the tab in the tab bar.
    pub fn index(&self) -> (r: usize)
        ensures
            r == match *self {
                Tab::Login => 0usize,
                Tab::Version => 1,
                Tab::Download(..) => 2,
                Tab::Launch(_) => 3,
                Tab::Mod => 4,
                Tab::ModVersion => 5,
            },
    {
        match self {
            Tab::Login => 0,
            Tab::Version => 1,
            Tab::Download(..) => 2,
            Tab::Launch(_) => 3,
            Tab::Mod => 4,
            Tab::ModVersion => 5,
        }
    }
}

/// A key shown in the help panel with what it does; an `Enablable` one also
/// shows whether its option is on.
pub enum TabBinding {
    Default(String, String),
    Enablable(String, String, bool),
}

/// The help entries as plain values: key, description, and the state of an
/// option where there is one.
pub open spec fn binding_model(b: TabBinding) -> (Seq<char>, Seq<char>, Option<bool>) {
    match b {
        TabBinding::Default(k, d) => (k@, d@, None),
        TabBinding::Enablable(k, d, on) => (k@, d@, Some(on)),
    }
}

pub open spec fn bindings_model(bs: Seq<TabBinding>) -> Seq<(Seq<char>, Seq<char>, Option<bool>)> {
    Seq::new(bs.len(), |i: int| binding_model(bs[i]))
}

/// A help entry for a key without an option.
pub fn binding(key: &str, description: &str) -> (r: TabBinding)
    ensures
        binding_model(r) == (key@, description@, None::<bool>),
{
    TabBinding::Default(to_owned_string(key), to_owned_string(description))
}

/// The launcher's tabs and the one on screen.
pub struct App {
    pub login_tab: LoginTab,
    pub version_tab: VersionTab,
    pub download_tab: DownloadTab,
    pub launch_tab: GameLogTab,
    pub current_tab: Tab,
}

/// A key can be handled by the tab on screen.
pub open spec fn app_key_defined(a: App, key: Key) -> bool {
    match a.current_tab {
        Tab::Login => key == Key::Backspace ==> backspace_defined(a.login_tab),
        Tab::Version => version_tab_wf(a.version_tab) && moves_defined(a.version_tab, key),
        Tab::Launch(_) => {
            &&& key == Key::Up ==> can_move_up(
                a.launch_tab.game_logs.selected,
                a.launch_tab.game_logs.items@.len(),
                a.launch_tab.game_logs.allow_oob,
            )
            &&& key == Key::Down ==> can_move_down(
                a.launch_tab.game_logs.selected,
                a.launch_tab.game_logs.items@.len(),
            )
        },
        _ => true,
    }
}

impl App {
    /// The launcher on its login tab, the version table listing the
    /// releases of `min_versions`.
    pub fn new(min_versions: Vec<MinVersion>, versions: Vec<Version>) -> (r: App)
        ensures
            r.current_tab is Login,
            version_tab_wf(r.version_tab),
            r.version_tab.all_versions@ == min_versions@,
            r.version_tab.mc_version_table.items@ == shown_versions(min_versions@, false, false),
            r.version_tab.versions@ == versions@,
            !r.download_tab.started,
            r.launch_tab.launch_options is None,
            r.login_tab.account@.len() == 0,
    {
        App {
            login_tab: LoginTab::new(),
            version_tab: VersionTab::new(min_versions, versions),
            download_tab: DownloadTab::new(),
            launch_tab: GameLogTab::new(),
            current_tab: Tab::Login,
        }
    }

    /// The keys shown: Escape quits, then those of the tab on screen.
    pub fn get_bindings(&self) -> (r: Vec<TabBinding>)
        ensures
            bindings_model(r@) == seq![("ESC"@, "Quit App"@, None::<bool>)] + match self.current_tab {
                Tab::Login => login_bindings_model(),
                Tab::Version => version_bindings_model(self.version_tab.snapshot, self.version_tab.old),
                _ => Seq::empty(),
            },
    {
        let mut vec: Vec<TabBinding> = Vec::new();
        vec.push(binding("ESC", "Quit App"));
        let mut tab_vec = match &self.current_tab {
            Tab::Login => self.login_tab.get_bindings(),
            Tab::Version => self.version_tab.get_bindings(),
            Tab::Download(..) => self.download_tab.get_bindings(),
            Tab::Launch(_) => self.launch_tab.get_bindings(),
            Tab::Mod => Vec::new(),
            Tab::ModVersion => Vec::new(),
        };
        let ghost first = vec@;
        let ghost rest = tab_vec@;
        vec.append(&mut tab_vec);
        assert(bindings_model(vec@) =~= bindings_model(first) + bindings_model(rest));
        vec
    }

    /// What the tab on screen asks for as time passes: the installation
    /// tab moves on once the version is installed, the others wait.
    pub fn tick(&self) -> (r: Action)
        ensures
            match self.current_tab {
                Tab::Download(..) => match self.download_tab.installed {
                    Some(v) => r matches Action::NextTab(Tab::Launch(w)) && w.deep_view()
                        == v.deep_view(),
                    None => r is Nothing,
                },
                _ => r is Nothing,
            },
    {
        match &self.current_tab {
            Tab::Login => self.login_tab.tick(),
            Tab::Version => self.version_tab.tick(),
            Tab::Download(..) => self.download_tab.tick(),
            Tab::Launch(_) => Action::Nothing,
            Tab::Mod => Action::Nothing,
            Tab::ModVersion => Action::Nothing,
        }
    }

    /// Whether the tab on screen can take the key (see `app_key_defined`):
    /// the keys on which the tabs would fail are refused.
    pub fn can_handle(&self, key: Key) -> (r: bool)
        ensures
            r == app_key_defined(*self, key),
    {
        match &self.current_tab {
            Tab::Login => {
                if key == Key::Backspace {
                    self.login_tab.can_erase()
                } else {
                    true
                }
            },
            Tab::Version => self.version_tab.is_consistent() && self.version_tab.can_move(key),
            Tab::Launch(_) => {
                let logs = &self.launch_tab.game_logs;
                if key == Key::Up {
                    match logs.selected {
                        Some(i) => !(i == 0 && logs.allow_oob) || logs.items.len() > 0,
                        None => true,
                    }
                } else if key == Key::Down {
                    logs.selected.is_none() || logs.items.len() > 0
                } else {
                    true
                }
            },
            _ => true,
        }
    }

    /// Hands a key to the tab on screen.
    pub fn on_key_press(&mut self, key: Key) -> (r: Action)
        requires
            app_key_defined(*old(self), key),
        ensures
            old(self).current_tab is Login ==> login_key_effect(
                old(self).login_tab,
                key,
                final(self).login_tab,
                r,
            ),
            old(self).current_tab is Version ==> key_effect(
                old(self).version_tab,
                key,
                final(self).version_tab,
                r,
            ),
            !(old(self).current_tab is Login) && !(old(self).current_tab is Version) ==> r is Nothing,
            old(self).current_tab is Launch ==> launch_key_effect(
                old(self).launch_tab,
                key,
                final(self).launch_tab,
            ),
            final(self).current_tab == old(self).current_tab,
            final(self).download_tab == old(self).download_tab,
            !(old(self).current_tab is Login) ==> final(self).login_tab == old(self).login_tab,
            !(old(self).current_tab is Version) ==> final(self).version_tab == old(self).version_tab,
            !(old(self).current_tab is Launch) ==> final(self).launch_tab == old(self).launch_tab,
    {
        match &self.current_tab {
            Tab::Login => self.login_tab.on_key_press(key),
            Tab::Version => self.version_tab.on_key_press(key),
            Tab::Download(..) => self.download_tab.on_key_press(key),
            Tab::Launch(_) => self.launch_tab.on_key_press(key),
            Tab::Mod => Action::Nothing,
            Tab::ModVersion => Action::Nothing,
        }
    }

    /// Follows what a key or a tick asked: to stay, or to open a tab, which
    /// for the installation and launch tabs starts their work with what they
    /// were opened with.
    pub fn follow(&mut self, action: Action) -> (r: Step)
        ensures
            match action {
                Action::Nothing => r is Continue && same_tab(old(self).current_tab, final(self).current_tab),
                Action::NextTab(tab) => {
                    &&& same_tab(tab, final(self).current_tab)
                    &&& match tab {
                        Tab::Download(v, vs, l, lv) => r matches Step::StartDownload(w, ws, m, mv)
                            && w == v && ws@ == vs@ && m == l && mv == lv,
                        Tab::Launch(v) => r matches Step::StartLaunch(w) && w.deep_view() == v.deep_view(),
                        _ => r is Continue,
                    }
                },
            },
            final(self).login_tab == old(self).login_tab,
            final(self).version_tab == old(self).version_tab,
            final(self).download_tab == old(self).download_tab,
            final(self).launch_tab == old(self).launch_tab,
    {
        match action {
            Action::Nothing => Step::Continue,
            Action::NextTab(tab) => {
                let step = match &tab {
                    Tab::Download(v, vs, l, lv) => Step::StartDownload(v.clone(), clone_versions(vs), *l, lv.clone()),
                    Tab::Launch(v) => Step::StartLaunch(v.clone()),
                    _ => Step::Continue,
                };
                self.current_tab = tab;
                step
            },
        }
    }
}

/// What the interface loop does next.
pub enum Step {
    /// Keep going.
    Continue,
    /// Start installing this version with this loader and build.
    StartDownload(MinVersion, Vec<Version>, ModLoader, Option<String>),
    /// Prepare the launch of this version.
    StartLaunch(version::Main),
}

} // verus!
