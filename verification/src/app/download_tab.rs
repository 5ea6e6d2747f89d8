//! The installation tab: the progress the installer reports, step by step.
use crate::app::{Action, Tab, TabBinding, bindings_model};
use crate::manifest::main::MinVersion;
use crate::manifest::version::{self, MainModel};
use crate::modding::{ModLoader, knows_its_versions, profile_model};
use crate::modding::liteloader::lite_entry_model;
use crate::text::to_owned_string;
use crate::time::UtcTime;
use vstd::prelude::*;

verus! {

/// A progress report of the installer.
pub enum Message {
    /// The installer has started.
    Init,
    /// A new step of the eight begins.
    NewStep(u8),
    /// A part of the current step, with its position and the number of parts.
    NewSubStep(String, u64, u64),
    /// A part of the current part (a file), with its position and count.
    NewSubSubStep(String, u64, u64),
    Error(String),
    /// The version is installed and can be launched.
    Done(version::Main),
}

/// A report as plain values.
pub enum MessageModel {
    Init,
    NewStep(u8),
    NewSubStep(Seq<char>, u64, u64),
    NewSubSubStep(Seq<char>, u64, u64),
    Error(Seq<char>),
    Done(MainModel),
}

impl DeepView for Message {
    type V = MessageModel;

    open spec fn deep_view(&self) -> MessageModel {
        match self {
            Message::Init => MessageModel::Init,
            Message::NewStep(s) => MessageModel::NewStep(*s),
            Message::NewSubStep(n, i, m) => MessageModel::NewSubStep(n@, *i, *m),
            Message::NewSubSubStep(n, i, m) => MessageModel::NewSubSubStep(n@, *i, *m),
            Message::Error(e) => MessageModel::Error(e@),
            Message::Done(v) => MessageModel::Done(v.deep_view()),
        }
    }
}

/// The progress shown by the installation tab.
pub struct DownloadTab {
    /// The installer has been started and reports to this tab.
    pub started: bool,
    pub current_step: u8,
    pub current_sub_step: Option<(String, u64, u64)>,
    pub current_sub_sub_step: Option<(String, u64, u64)>,
    pub error: Option<String>,
    pub installed: Option<version::Main>,
}

/// The progress shown, as plain values.
pub struct DownloadTabModel {
    pub started: bool,
    pub current_step: u8,
    pub current_sub_step: Option<(Seq<char>, u64, u64)>,
    pub current_sub_sub_step: Option<(Seq<char>, u64, u64)>,
    pub error: Option<Seq<char>>,
    pub installed: Option<MainModel>,
}

pub open spec fn part_model(p: Option<(String, u64, u64)>) -> Option<(Seq<char>, u64, u64)> {
    match p {
        Some((n, i, m)) => Some((n@, i, m)),
        None => None,
    }
}

impl DeepView for DownloadTab {
    type V = DownloadTabModel;

    open spec fn deep_view(&self) -> DownloadTabModel {
        DownloadTabModel {
            started: self.started,
            current_step: self.current_step,
            current_sub_step: part_model(self.current_sub_step),
            current_sub_sub_step: part_model(self.current_sub_sub_step),
            error: match self.error {
                Some(e) => Some(e@),
                None => None,
            },
            installed: match self.installed {
                Some(v) => Some(v.deep_view()),
                None => None,
            },
        }
    }
}

/// What a report does to the progress shown: a new step clears the parts
/// below it, a new part clears the files below it, an error and a finished
/// installation are kept. `Init` changes nothing.
pub open spec fn apply_model(t: DownloadTabModel, m: Message) -> DownloadTabModel {
    match m {
        Message::Init => t,
        Message::NewStep(step) => DownloadTabModel {
            current_step: step,
            current_sub_step: None,
            current_sub_sub_step: None,
            ..t
        },
        Message::NewSubStep(name, index, max) => DownloadTabModel {
            current_sub_step: Some((name@, index, max)),
            current_sub_sub_step: None,
            ..t
        },
        Message::NewSubSubStep(name, index, max) => DownloadTabModel {
            current_sub_sub_step: Some((name@, index, max)),
            ..t
        },
        Message::Error(e) => DownloadTabModel { error: Some(e@), ..t },
        Message::Done(v) => DownloadTabModel { installed: Some(v.deep_view()), ..t },
    }
}

/// Reports of parts and files may be passed over to reach the next one;
/// the others are shown.
pub open spec fn skipable(m: Message) -> bool {
    m is NewSubStep || m is NewSubSubStep
}

/// The name of each of the eight installation steps.
pub open spec fn step_name(index: u8) -> Seq<char> {
    if index == 1 {
        "Checking version manifest"@
    } else if index == 2 {
        "Checking Java version"@
    } else if index == 3 {
        "Checking client jar"@
    } else if index == 4 {
        "Checking libraries"@
    } else if index == 5 {
        "Checking assets"@
    } else if index == 6 {
        "Checking log file"@
    } else if index == 7 {
        "Extracting natives"@
    } else {
        "Done"@
    }
}

pub fn get_step_name(index: u8) -> (r: &'static str)
    ensures
        r@ == step_name(index),
{
    match index {
        1 => "Checking version manifest",
        2 => "Checking Java version",
        3 => "Checking client jar",
        4 => "Checking libraries",
        5 => "Checking assets",
        6 => "Checking log file",
        7 => "Extracting natives",
        _ => "Done",
    }
}

/// The profile installed for a game version: none for vanilla, else the
/// loader's profile for the chosen build (the empty build when none was
/// chosen), dated `now`.
pub open spec fn modded_version_model(
    loader: ModLoader,
    mc: Seq<char>,
    loader_version: Option<Seq<char>>,
    now: UtcTime,
) -> Option<MainModel> {
    if loader is Vanilla {
        None
    } else {
        Some(
            profile_model(
                loader,
                mc,
                match loader_version {
                    Some(v) => v,
                    None => ""@,
                },
                now,
            ),
        )
    }
}

impl DownloadTab {
    /// A tab at the first step, not started, with nothing reported.
    pub fn new() -> (r: DownloadTab)
        ensures
            r.deep_view() == (DownloadTabModel {
                started: false,
                current_step: 1,
                current_sub_step: None,
                current_sub_sub_step: None,
                error: None,
                installed: None,
            }),
    {
        DownloadTab {
            started: false,
            current_step: 1,
            current_sub_step: None,
            current_sub_sub_step: None,
            error: None,
            installed: None,
        }
    }

    /// Starts reporting the installation of `version` with `loader`, and
    /// gives the profile to install on top of the game version (none for
    /// vanilla).
    pub fn start(
        &mut self,
        version: &MinVersion,
        loader: ModLoader,
        loader_version: Option<String>,
        now: UtcTime,
    ) -> (r: Option<version::Main>)
        requires
            !(loader is Vanilla) ==> knows_its_versions(loader),
            loader is LiteLoader ==> lite_entry_model(version.id@) is Some,
        ensures
            final(self).deep_view() == (DownloadTabModel { started: true, ..old(self).deep_view() }),
            r.deep_view() == modded_version_model(
                loader,
                version.id@,
                loader_version.deep_view(),
                now,
            ),
    {
        let modded = if !loader.is_vanilla() {
            let lv = match loader_version {
                None => to_owned_string(""),
                Some(v) => v,
            };
            match loader.create_profile(version.id.clone(), lv, now) {
                Ok(v) => Some(v),
                Err(_) => None,
            }
        } else {
            None
        };
        self.started = true;
        modded
    }

    /// Shows a report (see `apply_model`), and tells whether it may be
    /// passed over (see `skipable`).
    pub fn apply(&mut self, msg: Message) -> (r: bool)
        ensures
            final(self).deep_view() == apply_model(old(self).deep_view(), msg),
            r == skipable(msg),
    {
        match msg {
            Message::Init => false,
            Message::NewStep(step) => {
                self.current_step = step;
                self.current_sub_step = None;
                self.current_sub_sub_step = None;
                false
            },
            Message::NewSubStep(name, index, max) => {
                self.current_sub_step = Some((name, index, max));
                self.current_sub_sub_step = None;
                true
            },
            Message::NewSubSubStep(name, index, max) => {
                self.current_sub_sub_step = Some((name, index, max));
                true
            },
            Message::Error(err) => {
                self.error = Some(err);
                false
            },
            Message::Done(version) => {
                self.installed = Some(version);
                false
            },
        }
    }

    /// Shows the first report of a frame, if one came, and tells whether
    /// the reports waiting after it are read in this frame: not after an
    /// `Init` report, which ends the frame's reading; otherwise they are.
    pub fn first_report(&mut self, msg: Option<Message>) -> (r: bool)
        ensures
            match msg {
                Some(m) => final(self).deep_view() == apply_model(old(self).deep_view(), m) && r == !(
                m is Init),
                None => final(self).deep_view() == old(self).deep_view() && r,
            },
    {
        match msg {
            None => true,
            Some(m) => {
                let init = match &m {
                    Message::Init => true,
                    _ => false,
                };
                self.apply(m);
                !init
            },
        }
    }

    /// Shows one more of the reports waiting after the first of a frame,
    /// the `iterations`-th; tells whether to take another: only after a
    /// report that may be passed over, and at most a hundred times.
    pub fn drain_step(&mut self, iterations: u64, msg: Message) -> (r: bool)
        ensures
            final(self).deep_view() == apply_model(old(self).deep_view(), msg),
            r == (skipable(msg) && iterations <= 100),
    {
        let skip = self.apply(msg);
        skip && iterations <= 100
    }

    /// Once the version is installed, the launch tab opens with it.
    pub fn tick(&self) -> (r: Action)
        ensures
            match self.installed {
                Some(v) => r matches Action::NextTab(Tab::Launch(w)) && w.deep_view()
                    == v.deep_view(),
                None => r is Nothing,
            },
    {
        match &self.installed {
            None => Action::Nothing,
            Some(version) => Action::NextTab(Tab::Launch(version.clone())),
        }
    }

    /// The installation tab has no keys of its own.
    pub fn on_key_press(&self, _key: crate::app::Key) -> (r: Action)
        ensures
            r is Nothing,
    {
        Action::Nothing
    }

    pub fn get_bindings(&self) -> (r: Vec<TabBinding>)
        ensures
            r@.len() == 0,
    {
        Vec::new()
    }
}

/// Reports of parts and files never move the step shown, and a new step
/// clears the parts below it, whatever was shown before.
pub proof fn lemma_step_moves_only_on_new_step(t: DownloadTabModel, m: Message)
    ensures
        !(m is NewStep) ==> apply_model(t, m).current_step == t.current_step,
        m is NewStep ==> apply_model(t, m).current_sub_step is None && apply_model(
            t,
            m,
        ).current_sub_sub_step is None,
        apply_model(t, m).started == t.started,
{
}

} // verus!
