//! Installing the assets: the asset index, every object it lists, and, for
//! the oldest versions, a copy of each object under its own name in the
//! `resources` folder.
//!
//! The caller reads and writes the disk and downloads; the functions here
//! say what comes next and what is reported.
use crate::app::download_tab::{Message, MessageModel};
use crate::install::{
    AssetAction, FileAction, FileState, asset_object_action, resource_target, size_check,
    size_check_model,
};
use crate::manifest::assets::{self, AssetObject, download_url, hash_folder};
use crate::manifest::version::Main;
use crate::path::{PathPlan, is_placeable_path, placeable_path};
use crate::text::{concat_str, to_owned_string};
use vstd::prelude::*;

verus! {

/// The asset index to fetch: its identifier, the file it is stored in
/// below the `indexes` folder, where it is downloaded from and its size.
pub struct IndexFetch {
    pub id: String,
    pub file_name: String,
    pub url: String,
    pub size: u64,
}

pub open spec fn messages_model(ms: Seq<Message>) -> Seq<MessageModel> {
    Seq::new(ms.len(), |i: int| ms[i].deep_view())
}

/// The start of the asset step: the step and its first part are reported;
/// a manifest without an asset index stops here with an error, else the
/// index `<id>.json` is fetched from the manifest's URL.
pub fn install_assets_index(version_manifest: &Main) -> (r: (Vec<Message>, Option<IndexFetch>))
    ensures
        match version_manifest.deep_view().asset_index {
            None => r.1 is None && messages_model(r.0@) == seq![
                MessageModel::NewStep(5),
                MessageModel::NewSubStep("Checking asset index"@, 1, 3),
                MessageModel::Error("Version manifest doesn't contain any asset index!"@),
            ],
            Some(a) => r.1 matches Some(f) && f.id@ == a.id && f.file_name@ == a.id + ".json"@
                && f.url@ == a.url && f.size == a.size && messages_model(r.0@) == seq![
                MessageModel::NewStep(5),
                MessageModel::NewSubStep("Checking asset index"@, 1, 3),
            ],
        },
{
    let mut messages: Vec<Message> = Vec::new();
    messages.push(Message::NewStep(5));
    messages.push(Message::NewSubStep(to_owned_string("Checking asset index"), 1, 3));
    match &version_manifest.asset_index {
        None => {
            messages.push(
                Message::Error(to_owned_string("Version manifest doesn't contain any asset index!")),
            );
            assert(messages_model(messages@) =~= seq![
                MessageModel::NewStep(5),
                MessageModel::NewSubStep("Checking asset index"@, 1, 3),
                MessageModel::Error("Version manifest doesn't contain any asset index!"@),
            ]);
            (messages, None)
        },
        Some(a_index) => {
            assert(messages_model(messages@) =~= seq![
                MessageModel::NewStep(5),
                MessageModel::NewSubStep("Checking asset index"@, 1, 3),
            ]);
            let fetch = IndexFetch {
                id: a_index.id.clone(),
                file_name: concat_str(a_index.id.as_str(), ".json"),
                url: a_index.url.clone(),
                size: a_index.size,
            };
            (messages, Some(fetch))
        },
    }
}

/// The error reported when the asset index cannot be downloaded.
pub fn index_download_error(err: &str) -> (r: Message)
    ensures
        r.deep_view() == MessageModel::Error("Unable to download asset index file: "@ + err@),
{
    Message::Error(concat_str("Unable to download asset index file: ", err))
}

/// When the asset index is fetched: when its file is missing, of another
/// size, or of a size that cannot be read; a file of the right size is kept.
pub fn index_action(state: &FileState, fetch: &IndexFetch) -> (r: FileAction)
    ensures
        r == size_check_model(*state, fetch.size, FileAction::Download),
{
    size_check(state, fetch.size, FileAction::Download)
}

/// What follows the fetch of the asset index: the objects step is reported,
/// then, when the index file is not there, the error that ends the
/// installation. The flag tells whether the installation goes on.
pub fn after_index_fetch(exists: bool) -> (r: (Vec<Message>, bool))
    ensures
        r.1 == exists,
        exists ==> messages_model(r.0@) == seq![
            MessageModel::NewSubStep("Installing missing assets"@, 2, 3),
        ],
        !exists ==> messages_model(r.0@) == seq![
            MessageModel::NewSubStep("Installing missing assets"@, 2, 3),
            MessageModel::Error("Asset index file doesn't exist"@),
        ],
{
    let mut messages: Vec<Message> = Vec::new();
    messages.push(update_assets_start());
    if !exists {
        messages.push(Message::Error(to_owned_string("Asset index file doesn't exist")));
        assert(messages_model(messages@) =~= seq![
            MessageModel::NewSubStep("Installing missing assets"@, 2, 3),
            MessageModel::Error("Asset index file doesn't exist"@),
        ]);
    } else {
        assert(messages_model(messages@) =~= seq![
            MessageModel::NewSubStep("Installing missing assets"@, 2, 3),
        ]);
    }
    (messages, exists)
}

/// The report that opens the installation of the objects.
pub fn update_assets_start() -> (r: Message)
    ensures
        r.deep_view() == MessageModel::NewSubStep("Installing missing assets"@, 2, 3),
{
    Message::NewSubStep(to_owned_string("Installing missing assets"), 2, 3)
}

/// Where the installation of the objects is.
#[derive(Clone, Copy, PartialEq, Eq, Structural)]
pub enum AssetPass {
    /// Checking and downloading each object.
    Objects,
    /// Copying each object to the `resources` folder.
    Resources,
    /// Every object is in place.
    Done,
    /// An object could not be put in place; nothing more is done.
    Failed,
}

/// The installation of the objects of an asset index, one object at a time:
/// first every object is checked and downloaded where needed, then, when
/// the index asks for it, every object is copied to the `resources` folder.
pub struct AssetInstall {
    pub objects: Vec<AssetObject>,
    pub map_to_resources: bool,
    pub pass: AssetPass,
    /// The object the current pass is at.
    pub position: usize,
}

/// The pass reached once a pass has gone past its last object: the copies
/// follow the checks when the index asks for them (and are done at once
/// when there is nothing to copy), and end the installation.
pub open spec fn settled(pass: AssetPass, position: nat, len: nat, map: bool) -> (AssetPass, nat) {
    if pass == AssetPass::Objects && position >= len {
        if map {
            if len == 0 {
                (AssetPass::Done, 0)
            } else {
                (AssetPass::Resources, 0)
            }
        } else {
            (AssetPass::Done, position)
        }
    } else if pass == AssetPass::Resources && position >= len {
        (AssetPass::Done, position)
    } else {
        (pass, position)
    }
}

/// Going past the last check starts the copies, which is reported.
pub open spec fn settle_reports(pass: AssetPass, position: nat, len: nat, map: bool) -> bool {
    pass == AssetPass::Objects && position >= len && map
}

/// The state is consistent: an unfinished pass is at one of the objects.
pub open spec fn asset_install_wf(a: AssetInstall) -> bool {
    (a.pass == AssetPass::Objects || a.pass == AssetPass::Resources) ==> a.position
        < a.objects@.len()
}

/// What the caller does next.
pub enum AssetWork {
    /// Report `progress`, look at the object's file (`file` in `folder`
    /// below the objects folder) and do what `asset_object_action` says,
    /// fetching from `url`.
    Check { progress: Message, object: AssetObject, folder: String, file: String, url: String },
    /// Report `progress`, read the object's file (`file` in `folder` below
    /// the objects folder) and write it at `target`; there is no target
    /// when the object's name is a path with no parent folder, which the
    /// copy cannot place.
    Copy { progress: Message, folder: String, file: String, target: Option<PathPlan> },
    /// Nothing is left to do.
    Finished,
    /// The installation stopped.
    Stopped,
}

/// The report of an object: its name, its position counted from one, and
/// the number of objects.
pub open spec fn progress_model(a: AssetInstall) -> MessageModel {
    MessageModel::NewSubSubStep(
        a.objects@[a.position as int].name@,
        (a.position + 1) as u64,
        a.objects@.len() as u64,
    )
}

impl AssetInstall {
    /// Starts with the checks of the objects of `index`; what starting
    /// reports is returned with it.
    pub fn new(index: assets::Main) -> (r: (AssetInstall, Option<Message>))
        ensures
            r.0.objects@ == index.objects@,
            r.0.map_to_resources == index.map_to_resources,
            (r.0.pass, r.0.position as nat) == settled(
                AssetPass::Objects,
                0,
                index.objects@.len(),
                index.map_to_resources,
            ),
            asset_install_wf(r.0),
            settle_reports(AssetPass::Objects, 0, index.objects@.len(), index.map_to_resources)
                ==> (r.1 matches Some(m) && m.deep_view() == MessageModel::NewSubStep(
                "Relocating to resources folder"@,
                3,
                3,
            )),
            !settle_reports(AssetPass::Objects, 0, index.objects@.len(), index.map_to_resources)
                ==> r.1 is None,
    {
        let mut a = AssetInstall {
            objects: index.objects,
            map_to_resources: index.map_to_resources,
            pass: AssetPass::Objects,
            position: 0,
        };
        let m = a.settle();
        (a, m)
    }

    fn settle(&mut self) -> (r: Option<Message>)
        requires
            old(self).position <= old(self).objects@.len(),
        ensures
            final(self).objects@ == old(self).objects@,
            final(self).map_to_resources == old(self).map_to_resources,
            (final(self).pass, final(self).position as nat) == settled(
                old(self).pass,
                old(self).position as nat,
                old(self).objects@.len(),
                old(self).map_to_resources,
            ),
            asset_install_wf(*final(self)),
            settle_reports(
                old(self).pass,
                old(self).position as nat,
                old(self).objects@.len(),
                old(self).map_to_resources,
            ) ==> (r matches Some(m) && m.deep_view() == MessageModel::NewSubStep(
                "Relocating to resources folder"@,
                3,
                3,
            )),
            !settle_reports(
                old(self).pass,
                old(self).position as nat,
                old(self).objects@.len(),
                old(self).map_to_resources,
            ) ==> r is None,
    {
        let len = self.objects.len();
        if self.pass == AssetPass::Objects && self.position >= len {
            if self.map_to_resources {
                if len == 0 {
                    self.pass = AssetPass::Done;
                } else {
                    self.pass = AssetPass::Resources;
                }
                self.position = 0;
                Some(Message::NewSubStep(to_owned_string("Relocating to resources folder"), 3, 3))
            } else {
                self.pass = AssetPass::Done;
                None
            }
        } else if self.pass == AssetPass::Resources && self.position >= len {
            self.pass = AssetPass::Done;
            None
        } else {
            None
        }
    }

    /// What the caller does next: check or copy the object the pass is at,
    /// or nothing once finished or stopped.
    pub fn next_work(&self) -> (r: AssetWork)
        requires
            asset_install_wf(*self),
        ensures
            self.pass == AssetPass::Objects ==> {
                let o = self.objects@[self.position as int];
                r matches AssetWork::Check { progress, object, folder, file, url } && progress.deep_view()
                    == progress_model(*self) && object.name@ == o.name@ && object.asset.hash@
                    == o.asset.hash@ && object.asset.size == o.asset.size && folder@ == hash_folder(o.asset.hash@)
                    && file@ == o.asset.hash@ && url@ == download_url(o.asset.hash@)
            },
            self.pass == AssetPass::Resources ==> {
                let o = self.objects@[self.position as int];
                r matches AssetWork::Copy { progress, folder, file, target } && progress.deep_view()
                    == progress_model(*self) && folder@ == hash_folder(o.asset.hash@) && file@
                    == o.asset.hash@ && (target is Some <==> placeable_path(o.name@)) && (target matches Some(
                    t) ==> t.deep_view() == crate::install::resource_plan_model(o.name@))
            },
            self.pass == AssetPass::Done ==> r is Finished,
            self.pass == AssetPass::Failed ==> r is Stopped,
    {
        match self.pass {
            AssetPass::Objects => {
                let o = &self.objects[self.position];
                let count: usize = self.objects.len();
                let shown: usize = self.position + 1;
                let progress = Message::NewSubSubStep(o.name.clone(), shown as u64, count as u64);
                let (folder, _) = o.asset.get_download_path();
                AssetWork::Check {
                    progress,
                    object: AssetObject {
                        name: o.name.clone(),
                        asset: assets::AssetIndex { hash: o.asset.hash.clone(), size: o.asset.size },
                    },
                    folder,
                    file: o.asset.hash.clone(),
                    url: o.asset.get_download_url(),
                }
            },
            AssetPass::Resources => {
                let o = &self.objects[self.position];
                let count: usize = self.objects.len();
                let shown: usize = self.position + 1;
                let progress = Message::NewSubSubStep(o.name.clone(), shown as u64, count as u64);
                let (folder, _) = o.asset.get_download_path();
                AssetWork::Copy {
                    progress,
                    folder,
                    file: o.asset.hash.clone(),
                    target: if is_placeable_path(o.name.as_str()) {
                        Some(resource_target(o.name.as_str()))
                    } else {
                        None
                    },
                }
            },
            AssetPass::Done => AssetWork::Finished,
            AssetPass::Failed => AssetWork::Stopped,
        }
    }

    /// Records how the work on the current object went: on success the pass
    /// moves to the next object (see `settled`); on failure the
    /// installation stops, with the caller's report when it gave one. What
    /// is to be reported is returned.
    pub fn record(&mut self, result: Result<(), Option<String>>) -> (r: Option<Message>)
        requires
            asset_install_wf(*old(self)),
            old(self).pass == AssetPass::Objects || old(self).pass == AssetPass::Resources,
        ensures
            final(self).objects@ == old(self).objects@,
            final(self).map_to_resources == old(self).map_to_resources,
            asset_install_wf(*final(self)),
            match result {
                Ok(_) => (final(self).pass, final(self).position as nat) == settled(
                    old(self).pass,
                    (old(self).position + 1) as nat,
                    old(self).objects@.len(),
                    old(self).map_to_resources,
                ) && (settle_reports(
                    old(self).pass,
                    (old(self).position + 1) as nat,
                    old(self).objects@.len(),
                    old(self).map_to_resources,
                ) ==> (r matches Some(m) && m.deep_view() == MessageModel::NewSubStep(
                    "Relocating to resources folder"@,
                    3,
                    3,
                ))) && (!settle_reports(
                    old(self).pass,
                    (old(self).position + 1) as nat,
                    old(self).objects@.len(),
                    old(self).map_to_resources,
                ) ==> r is None),
                Err(report) => final(self).pass == AssetPass::Failed && final(self).position
                    == old(self).position && match report {
                    Some(e) => r matches Some(m) && m.deep_view() == MessageModel::Error(e@),
                    None => r is None,
                },
            },
    {
        match result {
            Ok(()) => {
                let len: usize = self.objects.len();
                assert(self.position < len);
                self.position = self.position + 1;
                self.settle()
            },
            Err(report) => {
                self.pass = AssetPass::Failed;
                match report {
                    Some(e) => Some(Message::Error(e)),
                    None => None,
                }
            },
        }
    }
}

/// The error reported when an object cannot be downloaded.
pub fn object_download_error(name: &str, err: &str) -> (r: String)
    ensures
        r@ == "Unable to download file "@ + name@ + ": "@ + err@,
{
    let mut s = concat_str("Unable to download file ", name);
    s.append(": ");
    s.append(err);
    s
}

/// How far the installation of the objects still has to go: the objects
/// left in this pass, and those of the copies still to come.
pub open spec fn remaining(a: AssetInstall) -> int {
    let len = a.objects@.len() as int;
    match a.pass {
        AssetPass::Objects => (len - a.position) + if a.map_to_resources {
            len
        } else {
            0
        },
        AssetPass::Resources => len - a.position,
        _ => 0,
    }
}

/// Every successful step brings the installation closer to its end, and a
/// failure ends it: the installation of the objects always finishes.
pub proof fn lemma_record_progresses(
    before: AssetInstall,
    after: AssetInstall,
    result: Result<(), Option<String>>,
)
    requires
        asset_install_wf(before),
        before.pass == AssetPass::Objects || before.pass == AssetPass::Resources,
        after.objects@ == before.objects@,
        after.map_to_resources == before.map_to_resources,
        result is Ok ==> (after.pass, after.position as nat) == settled(
            before.pass,
            (before.position + 1) as nat,
            before.objects@.len(),
            before.map_to_resources,
        ),
        result is Err ==> after.pass == AssetPass::Failed,
    ensures
        0 <= remaining(after) < remaining(before),
{
}

/// Once finished or stopped, the installation stays so: no work is asked.
pub proof fn lemma_end_passes_are_final(a: AssetInstall)
    requires
        a.pass == AssetPass::Done || a.pass == AssetPass::Failed,
    ensures
        settled(a.pass, a.position as nat, a.objects@.len(), a.map_to_resources) == (
            a.pass,
            a.position as nat,
        ),
        remaining(a) == 0,
{
}

} // verus!
