//! What installing a version downloads, and when a file on disk is kept.
//!
//! The functions here decide; the caller reads the disk, downloads and
//! reports progress.
use crate::arguments::{Environment, get_os, library_allowed, match_rules, os_of};
use crate::manifest::assets::AssetIndex as AssetObjectIndex;
use crate::manifest::main;
use crate::manifest::version::{
    AssetIndex, Classifier, DownloadEntry, Library, LibraryDownloadArtifact, LibraryModel, Main,
    RuleAction, lookup_string, os_name,
};
use crate::path::{PathPlan, last_part, parent_part, placeable_path};
use crate::text::{
    assoc, concat_str, contains_spec, contains_str, lemma_assoc_found, lemma_assoc_missing,
    piece_or_empty, replace_spec, replace_str, split_spec, split_str, str_eq, to_owned_string,
};
use crate::app::download_tab::{Message, MessageModel};
use crate::install::assets::messages_model;
use crate::arguments::log_config_file;
use vstd::prelude::*;

pub mod assets;

verus! {

/// What is on disk where a file should be: nothing, or a file whose size
/// could (`Some`) or could not (`None`) be read.
pub enum FileState {
    Missing,
    Present(Option<u64>),
}

/// What to do with a file that has a known size.
#[derive(Clone, Copy, PartialEq, Eq, Structural)]
pub enum FileAction {
    Keep,
    Download,
    Fail,
}

/// A missing file is downloaded, a file of another size downloaded again, a
/// file of the right size kept; a file whose size cannot be read gets
/// `unreadable`.
pub open spec fn size_check_model(state: FileState, expected: u64, unreadable: FileAction) -> FileAction {
    match state {
        FileState::Missing => FileAction::Download,
        FileState::Present(Some(len)) => if len != expected {
            FileAction::Download
        } else {
            FileAction::Keep
        },
        FileState::Present(None) => unreadable,
    }
}

pub fn size_check(state: &FileState, expected: u64, unreadable: FileAction) -> (r: FileAction)
    ensures
        r == size_check_model(*state, expected, unreadable),
{
    match state {
        FileState::Missing => FileAction::Download,
        FileState::Present(Some(len)) => if *len != expected {
            FileAction::Download
        } else {
            FileAction::Keep
        },
        FileState::Present(None) => unreadable,
    }
}

/// When a file is downloaded for a library.
#[derive(Clone, Copy, PartialEq, Eq, Structural)]
pub enum FileCheck {
    /// Download unless a file of this size is there; give up when its size
    /// cannot be read.
    Size(u64),
    /// Download only when no file is there.
    Absent,
}

/// A file to fetch for a library: from `url` to `path` below the libraries
/// folder.
pub struct DownloadTask {
    pub url: String,
    pub path: String,
    pub check: FileCheck,
}

pub open spec fn task_model(t: DownloadTask) -> (Seq<char>, Seq<char>, FileCheck) {
    (t.url@, t.path@, t.check)
}

pub open spec fn tasks_model(ts: Seq<DownloadTask>) -> Seq<(Seq<char>, Seq<char>, FileCheck)> {
    Seq::new(ts.len(), |i: int| task_model(ts[i]))
}

/// The downloads of one library, in order; `complete` is false when the
/// library names a native classifier that it does not provide, which stops
/// the installation after these downloads.
pub struct LibraryPlan {
    pub tasks: Vec<DownloadTask>,
    pub complete: bool,
}

/// A library name has the `group:name:version` form.
pub open spec fn has_coordinates(name: Seq<char>) -> bool {
    split_spec(name, ':').len() >= 3
}

/// Where a library lies in a Maven repository:
/// `group/with/slashes/name/version/name-version.jar`.
pub open spec fn maven_path(lib_name: Seq<char>) -> Seq<char> {
    let group = piece_or_empty(lib_name, ':', 0);
    let name = piece_or_empty(lib_name, ':', 1);
    let version = piece_or_empty(lib_name, ':', 2);
    replace_spec(group, "."@, "/"@) + "/"@ + name + "/"@ + version + "/"@ + name + "-"@ + version
        + ".jar"@
}

pub open spec fn artifact_task(a: crate::manifest::version::ArtifactModel) -> (
    Seq<char>,
    Seq<char>,
    FileCheck,
) {
    (a.url, a.path, FileCheck::Size(a.size))
}

/// The classifiers a library provides (none when it has no download table).
pub open spec fn classifiers_of(lib: LibraryModel) -> Seq<
    (Seq<char>, crate::manifest::version::ArtifactModel),
> {
    match lib.downloads {
        Some(d) => match d.classifiers {
            Some(c) => c,
            None => seq![],
        },
        None => seq![],
    }
}

/// The downloads of an allowed library, and whether the library is complete:
/// its main artifact; the native classifier of this operating system; the
/// jar from the library's own repository; and, when the manifest gives no
/// source at all, the jar from the Minecraft library server. A library the
/// rules forbid needs nothing.
pub open spec fn library_plan_model(
    lib: LibraryModel,
    os: Seq<char>,
    arch: Seq<char>,
    os_version: Option<(u64, u64, u64)>,
) -> (Seq<(Seq<char>, Seq<char>, FileCheck)>, bool) {
    if !library_allowed(lib, os, arch, os_version) {
        (seq![], true)
    } else {
        let artifact = match lib.downloads {
            Some(d) => match d.artifact {
                Some(a) => seq![artifact_task(a)],
                None => seq![],
            },
            None => seq![],
        };
        let listed = lib.downloads matches Some(d) && (d.artifact is Some || d.classifiers is Some);
        let native: Option<Seq<(Seq<char>, Seq<char>, FileCheck)>> = match lib.natives {
            None => Some(seq![]),
            Some(n) => match assoc(n, os_name(os_of(os))) {
                None => Some(seq![]),
                Some(native_name) => match assoc(classifiers_of(lib), native_name) {
                    None => None,
                    Some(a) => Some(seq![artifact_task(a)]),
                },
            },
        };
        match native {
            None => (artifact, false),
            Some(native_tasks) => {
                let path = maven_path(lib.name);
                let from_url = match lib.url {
                    Some(u) => seq![(u + "/"@ + path, path, FileCheck::Absent)],
                    None => seq![],
                };
                let fallback = if !listed && lib.url is None {
                    seq![("https://libraries.minecraft.net/"@ + path, path, FileCheck::Absent)]
                } else {
                    seq![]
                };
                (artifact + native_tasks + from_url + fallback, true)
            },
        }
    }
}

/// An allowed library whose manifest lists a main artifact downloads that
/// artifact first, checked by its size, whatever else it needs after it.
pub proof fn lemma_plan_downloads_main_artifact_first(
    lib: LibraryModel,
    os: Seq<char>,
    arch: Seq<char>,
    os_version: Option<(u64, u64, u64)>,
)
    requires
        library_allowed(lib, os, arch, os_version),
        lib.downloads matches Some(d) && d.artifact is Some,
    ensures
        ({
            let a = lib.downloads->0.artifact->0;
            let tasks = library_plan_model(lib, os, arch, os_version).0;
            tasks.len() >= 1 && tasks[0] == (a.url, a.path, FileCheck::Size(a.size))
        }),
{
}

/// When an allowed library names a native for this system and provides its
/// classifier, the plan is complete and downloads the classifier, checked
/// by its size, right after the main artifact when there is one.
pub proof fn lemma_plan_downloads_native_classifier(
    lib: LibraryModel,
    os: Seq<char>,
    arch: Seq<char>,
    os_version: Option<(u64, u64, u64)>,
    native: Seq<char>,
    c: crate::manifest::version::ArtifactModel,
)
    requires
        library_allowed(lib, os, arch, os_version),
        lib.natives matches Some(n) && assoc(n, os_name(os_of(os))) == Some(native),
        assoc(classifiers_of(lib), native) == Some(c),
    ensures
        ({
            let (tasks, complete) = library_plan_model(lib, os, arch, os_version);
            let t = (c.url, c.path, FileCheck::Size(c.size));
            &&& complete
            &&& tasks.contains(t)
            &&& (lib.downloads matches Some(d) && d.artifact matches Some(a) ==> tasks.len() >= 2
                && tasks[0] == (a.url, a.path, FileCheck::Size(a.size)) && tasks[1] == t)
            &&& (!(lib.downloads matches Some(d) && d.artifact is Some) ==> tasks[0] == t)
        }),
{
    let tasks = library_plan_model(lib, os, arch, os_version).0;
    let t = (c.url, c.path, FileCheck::Size(c.size));
    if lib.downloads matches Some(d) && d.artifact is Some {
        assert(tasks[1] == t);
    } else {
        assert(tasks[0] == t);
    }
}

/// The repository path of a library named `group:name:version` (no part
/// holding a `:`): the group with its dots as folders, then the name and
/// version folders, then the jar `name-version.jar`.
pub proof fn lemma_maven_path_layout(group: Seq<char>, name: Seq<char>, version: Seq<char>)
    requires
        forall|k: int| 0 <= k < group.len() ==> group[k] != ':',
        forall|k: int| 0 <= k < name.len() ==> name[k] != ':',
        forall|k: int| 0 <= k < version.len() ==> version[k] != ':',
    ensures
        maven_path(group + ":"@ + name + ":"@ + version) == replace_spec(group, "."@, "/"@) + "/"@
            + name + "/"@ + version + "/"@ + name + "-"@ + version + ".jar"@,
{
    reveal_strlit(":");
    assert(":"@ =~= seq![':']);
    crate::text::lemma_split_whole(group, ':');
    crate::text::lemma_split_then(group, name, ':');
    crate::text::lemma_split_then(group + seq![':'] + name, version, ':');
    assert(split_spec(group + ":"@ + name + ":"@ + version, ':') =~= seq![group, name, version]);
}

/// An allowed library that the manifest gives no download for, no
/// repository and no native needs exactly one file: its jar from the
/// Minecraft library server, fetched when missing.
pub proof fn lemma_plan_falls_back_to_library_server(
    lib: LibraryModel,
    os: Seq<char>,
    arch: Seq<char>,
    os_version: Option<(u64, u64, u64)>,
)
    requires
        library_allowed(lib, os, arch, os_version),
        lib.downloads is None,
        lib.url is None,
        lib.natives is None,
    ensures
        library_plan_model(lib, os, arch, os_version) == (
            seq![
                (
                    "https://libraries.minecraft.net/"@ + maven_path(lib.name),
                    maven_path(lib.name),
                    FileCheck::Absent,
                ),
            ],
            true,
        ),
{
    let p = library_plan_model(lib, os, arch, os_version);
    assert(p.0 =~= seq![
        ("https://libraries.minecraft.net/"@ + maven_path(lib.name), maven_path(lib.name), FileCheck::Absent),
    ]);
}

/// An allowed, complete library with its own repository downloads its jar
/// from there last, fetched when missing; every download before it is a
/// listed artifact checked by its size, so nothing comes from the Minecraft
/// library server.
pub proof fn lemma_plan_uses_own_repository(
    lib: LibraryModel,
    os: Seq<char>,
    arch: Seq<char>,
    os_version: Option<(u64, u64, u64)>,
)
    requires
        library_allowed(lib, os, arch, os_version),
        lib.url is Some,
        library_plan_model(lib, os, arch, os_version).1,
    ensures
        ({
            let path = maven_path(lib.name);
            let tasks = library_plan_model(lib, os, arch, os_version).0;
            &&& tasks.len() >= 1
            &&& tasks.last() == (lib.url->0 + "/"@ + path, path, FileCheck::Absent)
            &&& forall|i: int| 0 <= i < tasks.len() - 1 ==> (#[trigger] tasks[i]).2 is Size
        }),
{
}

fn piece(pieces: &Vec<String>, i: usize) -> (r: String)
    ensures
        r@ == (if i < pieces@.len() {
            pieces@[i as int]@
        } else {
            Seq::<char>::empty()
        }),
{
    if i < pieces.len() {
        pieces[i].clone()
    } else {
        String::new()
    }
}

/// The Maven path of a library (see `maven_path`).
pub fn library_maven_path(lib_name: &str) -> (r: String)
    ensures
        r@ == maven_path(lib_name@),
{
    let pieces = split_str(lib_name, ':');
    proof {
        assert(pieces.deep_view() == split_spec(lib_name@, ':'));
        assert forall|i: int| 0 <= i < pieces@.len() implies #[trigger] pieces@[i]@ == split_spec(
            lib_name@,
            ':',
        )[i] by {
            assert(pieces.deep_view()[i] == pieces@[i]@);
        }
        reveal_strlit(".");
    }
    let group = piece(&pieces, 0);
    let name = piece(&pieces, 1);
    let version = piece(&pieces, 2);
    let mut path = replace_str(group.as_str(), ".", "/");
    path.append("/");
    path.append(name.as_str());
    path.append("/");
    path.append(version.as_str());
    path.append("/");
    path.append(name.as_str());
    path.append("-");
    path.append(version.as_str());
    path.append(".jar");
    path
}

/// The progress label of a library: `name-version`.
pub fn library_label(lib_name: &str) -> (r: String)
    ensures
        r@ == piece_or_empty(lib_name@, ':', 1) + "-"@ + piece_or_empty(lib_name@, ':', 2),
{
    let pieces = split_str(lib_name, ':');
    proof {
        assert forall|i: int| 0 <= i < pieces@.len() implies #[trigger] pieces@[i]@ == split_spec(
            lib_name@,
            ':',
        )[i] by {
            assert(pieces.deep_view()[i] == pieces@[i]@);
        }
    }
    let mut label = piece(&pieces, 1);
    label.append("-");
    let version = piece(&pieces, 2);
    label.append(version.as_str());
    label
}

fn artifact_download(a: &LibraryDownloadArtifact) -> (r: DownloadTask)
    ensures
        task_model(r) == artifact_task(a.deep_view()),
{
    DownloadTask { url: a.url.clone(), path: a.path.clone(), check: FileCheck::Size(a.size) }
}

fn push_task(tasks: &mut Vec<DownloadTask>, t: DownloadTask)
    ensures
        tasks_model(final(tasks)@) == tasks_model(old(tasks)@).push(task_model(t)),
{
    tasks.push(t);
    assert(tasks_model(final(tasks)@) =~= tasks_model(old(tasks)@).push(task_model(t)));
}

/// The classifier of the given name, if the table has it.
fn lookup_classifier(entries: &Vec<Classifier>, key: &str) -> (r: Option<
    LibraryDownloadArtifact,
>)
    ensures
        r matches Some(v) ==> assoc(entries.deep_view(), key@) == Some(v.deep_view()),
        r is None ==> assoc(entries.deep_view(), key@) is None,
{
    let mut i: usize = 0;
    while i < entries.len()
        invariant
            i <= entries@.len(),
            forall|k: int| 0 <= k < i ==> #[trigger] entries.deep_view()[k].0 != key@,
        decreases entries.len() - i,
    {
        if str_eq(entries[i].name.as_str(), key) {
            proof {
                lemma_assoc_found(entries.deep_view(), key@, i as int);
            }
            return Some(entries[i].artifact.clone());
        }
        assert(entries.deep_view()[i as int].0 == entries@[i as int].name@);
        i = i + 1;
    }
    proof {
        lemma_assoc_missing(entries.deep_view(), key@);
    }
    None
}

/// The downloads of a library (see `library_plan_model`). The library name
/// must have the `group:name:version` form.
pub fn plan_library(library: &Library, env: &Environment) -> (r: LibraryPlan)
    requires
        has_coordinates(library.name@),
    ensures
        (tasks_model(r.tasks@), r.complete) == library_plan_model(
            library.deep_view(),
            env.os@,
            env.arch@,
            env.os_version,
        ),
{
    let mut tasks: Vec<DownloadTask> = Vec::new();
    let allowed = match &library.rules {
        None => true,
        Some(rules) => match match_rules(rules, None, env) {
            RuleAction::Allow => true,
            RuleAction::Disallow => false,
        },
    };
    if !allowed {
        assert(tasks_model(tasks@) =~= seq![]);
        return LibraryPlan { tasks, complete: true };
    }
    let ghost lib = library.deep_view();
    let mut listed = false;
    match &library.downloads {
        None => {},
        Some(downloads) => {
            match &downloads.artifact {
                None => {},
                Some(artifact) => {
                    listed = true;
                    push_task(&mut tasks, artifact_download(artifact));
                },
            }
            if downloads.classifiers.is_some() {
                listed = true;
            }
        },
    }
    let ghost artifact_part = tasks_model(tasks@);
    assert(artifact_part =~= match lib.downloads {
        Some(d) => match d.artifact {
            Some(a) => seq![artifact_task(a)],
            None => seq![],
        },
        None => seq![],
    });
    match &library.natives {
        None => {},
        Some(natives) => {
            let os = get_os(env).to_str();
            match lookup_string(natives, os.as_str()) {
                None => {},
                Some(native_name) => {
                    let found = match &library.downloads {
                        None => None,
                        Some(d) => match &d.classifiers {
                            None => None,
                            Some(c) => lookup_classifier(c, native_name.as_str()),
                        },
                    };
                    match found {
                        None => {
                            return LibraryPlan { tasks, complete: false };
                        },
                        Some(class) => {
                            push_task(&mut tasks, artifact_download(&class));
                        },
                    }
                },
            }
        },
    }
    let ghost native_part = tasks_model(tasks@);
    let path = library_maven_path(library.name.as_str());
    match &library.url {
        None => {},
        Some(url) => {
            let mut full = url.clone();
            full.append("/");
            full.append(path.as_str());
            push_task(&mut tasks, DownloadTask { url: full, path: path.clone(), check: FileCheck::Absent });
        },
    }
    if !listed && library.url.is_none() {
        let full = concat_str("https://libraries.minecraft.net/", path.as_str());
        push_task(&mut tasks, DownloadTask { url: full, path: path.clone(), check: FileCheck::Absent });
    }
    LibraryPlan { tasks, complete: true }
}

/// The client jar of a version, or the error reported when the manifest has
/// none.
pub fn client_jar(version: &Main) -> (r: Result<DownloadEntry, String>)
    ensures
        r matches Ok(e) ==> (version.deep_view().downloads matches Some(d) && d.client
            == e.deep_view()),
        r matches Err(msg) ==> (version.deep_view().downloads is None && msg@
            == "No client jar to download in version manifest!"@),
        version.deep_view().downloads is None ==> r is Err,
{
    match &version.downloads {
        None => Err(to_owned_string("No client jar to download in version manifest!")),
        Some(d) => Ok(d.client.clone()),
    }
}

/// The asset index of a version, or the error reported when the manifest
/// has none.
pub fn asset_index(version: &Main) -> (r: Result<AssetIndex, String>)
    ensures
        r matches Ok(i) ==> version.deep_view().asset_index == Some(i.deep_view()),
        r matches Err(msg) ==> (version.deep_view().asset_index is None && msg@
            == "Version manifest doesn't contain any asset index!"@),
        version.deep_view().asset_index is None ==> r is Err,
{
    match &version.asset_index {
        None => Err(to_owned_string("Version manifest doesn't contain any asset index!")),
        Some(i) => Ok(i.clone()),
    }
}

/// What to do with a stored asset object.
#[derive(Clone, Copy, PartialEq, Eq, Structural)]
pub enum AssetAction {
    Keep,
    Download,
    CreateFolderAndDownload,
}

/// An object of the right size is kept, one of another size downloaded
/// again; a missing or unreadable one gets its folder made and is
/// downloaded.
pub fn asset_object_action(state: &FileState, object: &AssetObjectIndex) -> (r: AssetAction)
    ensures
        r == match *state {
            FileState::Present(Some(len)) => if len != object.size {
                AssetAction::Download
            } else {
                AssetAction::Keep
            },
            _ => AssetAction::CreateFolderAndDownload,
        },
{
    match state {
        FileState::Present(Some(len)) => if *len != object.size {
            AssetAction::Download
        } else {
            AssetAction::Keep
        },
        _ => AssetAction::CreateFolderAndDownload,
    }
}

/// Where an asset is copied in the legacy `resources` folder: the folders of
/// its `/`-separated name below `resources`, and its file name.
pub open spec fn resource_plan_model(entry: Seq<char>) -> (Seq<Seq<char>>, Option<Seq<char>>) {
    if contains_spec(entry, "/"@) {
        (seq!["resources"@, parent_part(entry)], Some(last_part(entry)))
    } else {
        (seq!["resources"@], Some(entry))
    }
}

pub fn resource_target(entry: &str) -> (r: PathPlan)
    requires
        placeable_path(entry@),
    ensures
        r.deep_view() == resource_plan_model(entry@),
{
    if contains_str(entry, "/") {
        let (parent, last) = crate::path::split_path(entry);
        let mut plan = crate::path::plan2("resources", parent.as_str());
        plan.file = Some(last);
        plan
    } else {
        let mut plan = crate::path::get_minecraft_sub_folder("resources");
        plan.file = Some(to_owned_string(entry));
        plan
    }
}

/// The position of the published version with the given identifier.
pub fn find_version(versions: &Vec<main::Version>, id: &str) -> (r: Option<usize>)
    ensures
        r matches Some(i) ==> (i < versions@.len() && versions@[i as int].id@ == id@ && forall|
            k: int,
        | 0 <= k < i ==> #[trigger] versions@[k].id@ != id@),
        r is None ==> forall|k: int| 0 <= k < versions@.len() ==> #[trigger] versions@[k].id@ != id@,
{
    let mut i: usize = 0;
    while i < versions.len()
        invariant
            i <= versions@.len(),
            forall|k: int| 0 <= k < i ==> #[trigger] versions@[k].id@ != id@,
        decreases versions.len() - i,
    {
        if str_eq(versions[i].id.as_str(), id) {
            return Some(i);
        }
        i = i + 1;
    }
    None
}

/// What to do with the file of a library download: with a size to check, a
/// missing file or one of another size is downloaded, one of the right size
/// kept, and one whose size cannot be read stops the installation; without
/// one, only a missing file is downloaded.
pub open spec fn task_action_model(check: FileCheck, state: FileState) -> FileAction {
    match check {
        FileCheck::Size(size) => size_check_model(state, size, FileAction::Fail),
        FileCheck::Absent => match state {
            FileState::Missing => FileAction::Download,
            FileState::Present(_) => FileAction::Keep,
        },
    }
}

pub fn task_action(task: &DownloadTask, state: &FileState) -> (r: FileAction)
    ensures
        r == task_action_model(task.check, *state),
{
    match task.check {
        FileCheck::Size(size) => size_check(state, size, FileAction::Fail),
        FileCheck::Absent => match state {
            FileState::Missing => FileAction::Download,
            FileState::Present(_) => FileAction::Keep,
        },
    }
}

/// The work on one library: its report (its label, its position counted
/// from one, the number of libraries) and its downloads.
pub struct LibraryStep {
    pub progress: Message,
    pub plan: LibraryPlan,
}

/// Every library has the `group:name:version` form.
pub open spec fn all_have_coordinates(libs: Seq<Library>) -> bool {
    forall|i: int| 0 <= i < libs.len() ==> has_coordinates(#[trigger] libs[i].name@)
}

/// The libraries step: reported as step four, then one step per library,
/// in order (see `library_plan_model`), up to the first library whose name
/// is not of the `group:name:version` form, where the installation cannot
/// go on.
pub fn install_libraries(version_manifest: &Main, env: &Environment) -> (r: (Message, Vec<LibraryStep>))
    ensures
        r.0.deep_view() == MessageModel::NewStep(4),
        r.1@.len() <= version_manifest.libraries@.len(),
        forall|i: int|
            0 <= i < r.1@.len() ==> has_coordinates(#[trigger] version_manifest.libraries@[i].name@),
        r.1@.len() < version_manifest.libraries@.len() ==> !has_coordinates(
            version_manifest.libraries@[r.1@.len() as int].name@,
        ),
        all_have_coordinates(version_manifest.libraries@) ==> r.1@.len()
            == version_manifest.libraries@.len(),
        forall|i: int|
            0 <= i < r.1@.len() ==> {
                let lib = version_manifest.libraries@[i];
                &&& (#[trigger] r.1@[i]).progress.deep_view() == MessageModel::NewSubStep(
                    piece_or_empty(lib.name@, ':', 1) + "-"@ + piece_or_empty(lib.name@, ':', 2),
                    (i + 1) as u64,
                    version_manifest.libraries@.len() as u64,
                )
                &&& (tasks_model(r.1@[i].plan.tasks@), r.1@[i].plan.complete) == library_plan_model(
                    lib.deep_view(),
                    env.os@,
                    env.arch@,
                    env.os_version,
                )
            },
{
    let libs = &version_manifest.libraries;
    let count: usize = libs.len();
    let mut steps: Vec<LibraryStep> = Vec::new();
    let mut i: usize = 0;
    while i < count
        invariant
            i <= count,
            count == libs@.len(),
            libs == &version_manifest.libraries,
            steps@.len() == i,
            forall|k: int| 0 <= k < i ==> has_coordinates(#[trigger] libs@[k].name@),
            forall|k: int|
                0 <= k < i ==> {
                    let lib = libs@[k];
                    &&& (#[trigger] steps@[k]).progress.deep_view() == MessageModel::NewSubStep(
                        piece_or_empty(lib.name@, ':', 1) + "-"@ + piece_or_empty(lib.name@, ':', 2),
                        (k + 1) as u64,
                        count as u64,
                    )
                    &&& (tasks_model(steps@[k].plan.tasks@), steps@[k].plan.complete)
                        == library_plan_model(lib.deep_view(), env.os@, env.arch@, env.os_version)
                },
        decreases count - i,
    {
        let lib = &libs[i];
        let pieces = split_str(lib.name.as_str(), ':');
        if pieces.len() < 3 {
            return (Message::NewStep(4), steps);
        }
        let label = library_label(lib.name.as_str());
        let shown: usize = i + 1;
        let plan = plan_library(lib, env);
        steps.push(LibraryStep { progress: Message::NewSubStep(label, shown as u64, count as u64), plan });
        i = i + 1;
    }
    (Message::NewStep(4), steps)
}

/// A file of the installation to fetch: its name, where it is downloaded
/// from and its expected size.
pub struct FileFetch {
    pub file_name: String,
    pub url: String,
    pub size: u64,
}

/// The client jar step: reported as step three; a manifest without
/// downloads stops with an error, else the jar `<id>.jar` of the version
/// folder is fetched from the client download.
pub fn install_client_jar(version_manifest: &Main) -> (r: (Vec<Message>, Option<FileFetch>))
    ensures
        match version_manifest.deep_view().downloads {
            None => r.1 is None && messages_model(r.0@) == seq![
                MessageModel::NewStep(3),
                MessageModel::Error("No client jar to download in version manifest!"@),
            ],
            Some(d) => r.1 matches Some(f) && f.file_name@ == version_manifest.id@ + ".jar"@
                && f.url@ == d.client.url && f.size == d.client.size && messages_model(r.0@)
                == seq![MessageModel::NewStep(3)],
        },
{
    let mut messages: Vec<Message> = Vec::new();
    messages.push(Message::NewStep(3));
    match client_jar(version_manifest) {
        Err(e) => {
            messages.push(Message::Error(e));
            assert(messages_model(messages@) =~= seq![
                MessageModel::NewStep(3),
                MessageModel::Error("No client jar to download in version manifest!"@),
            ]);
            (messages, None)
        },
        Ok(entry) => {
            assert(messages_model(messages@) =~= seq![MessageModel::NewStep(3)]);
            let fetch = FileFetch {
                file_name: concat_str(version_manifest.id.as_str(), ".jar"),
                url: entry.url,
                size: entry.size,
            };
            (messages, Some(fetch))
        },
    }
}

/// The error reported when the size of the client jar cannot be read.
pub fn jar_metadata_error(err: &str) -> (r: Message)
    ensures
        r.deep_view() == MessageModel::Error("Error while trying to get client jar metadata: "@ + err@),
{
    Message::Error(concat_str("Error while trying to get client jar metadata: ", err))
}

/// The log configuration step: reported as step six; a version without a
/// client logging configuration needs nothing, else its file (named by its
/// identifier, in the `log_configs` folder of the assets) is fetched.
pub fn check_log_file(version_manifest: &Main) -> (r: (Message, Option<FileFetch>))
    ensures
        r.0.deep_view() == MessageModel::NewStep(6),
        match version_manifest.deep_view().logging {
            Some(l) => match l.client {
                Some(c) => r.1 matches Some(f) && f.file_name@ == c.file.id && f.url@ == c.file.url
                    && f.size == c.file.size,
                None => r.1 is None,
            },
            None => r.1 is None,
        },
{
    let fetch = match log_config_file(version_manifest) {
        None => None,
        Some(file) => Some(FileFetch { file_name: file.id, url: file.url, size: file.size }),
    };
    (Message::NewStep(6), fetch)
}

/// The error reported when the log configuration cannot be downloaded.
pub fn log_download_error(err: &str) -> (r: Message)
    ensures
        r.deep_view() == MessageModel::Error("Unable to download logger file: "@ + err@),
{
    Message::Error(concat_str("Unable to download logger file: ", err))
}

/// Where the manifest of a version to install comes from.
pub enum VersionSource {
    /// The manifest `<id>.json` in the version's folder, already there.
    Installed(String),
    /// The published version's manifest, downloaded from `url` into the
    /// version's folder first.
    Published { id: String, url: String },
    /// The manifest of the game version a modded profile inherits from,
    /// already there; the profile is completed with it.
    Parent(String),
    /// There is nothing to install from.
    Unavailable,
}

/// The first report of the installation of a version.
pub fn install_version_start() -> (r: Message)
    ensures
        r.deep_view() == MessageModel::NewSubStep("Checking Version folder"@, 1, 3),
{
    Message::NewSubStep(to_owned_string("Checking Version folder"), 1, 3)
}

/// The report before downloading a published manifest.
pub fn downloading_manifest() -> (r: Message)
    ensures
        r.deep_view() == MessageModel::NewSubStep("Downloading Version manifest"@, 2, 3),
{
    Message::NewSubStep(to_owned_string("Downloading Version manifest"), 2, 3)
}

/// The report before reading a manifest.
pub fn reading_manifest() -> (r: Message)
    ensures
        r.deep_view() == MessageModel::NewSubStep("Reading Version manifest"@, 3, 3),
{
    Message::NewSubStep(to_owned_string("Reading Version manifest"), 3, 3)
}

/// The version whose manifest file is looked for: the version itself, or,
/// for a modded profile, the game version it inherits from (none when it
/// names none).
pub fn manifest_id(id: &str, modded_version: &Option<Main>) -> (r: Option<String>)
    ensures
        match modded_version {
            None => r matches Some(s) && s@ == id@,
            Some(m) => r.deep_view() == m.inherits_from.deep_view(),
        },
{
    match modded_version {
        None => Some(to_owned_string(id)),
        Some(m) => m.inherits_from.clone(),
    }
}

/// Where the manifest of version `id` comes from, `manifest_present`
/// telling whether the file of `manifest_id` is there: that file when it
/// is; for a game version without it, the first published version of that
/// identifier; else nothing.
pub fn version_source(
    id: &str,
    versions: &Vec<main::Version>,
    modded_version: &Option<Main>,
    manifest_present: bool,
) -> (r: VersionSource)
    ensures
        match modded_version {
            None => if manifest_present {
                r matches VersionSource::Installed(s) && s@ == id@
            } else {
                match find_version_model(versions@, id@) {
                    Some(k) => r matches VersionSource::Published { id: s, url } && s@ == id@
                        && url@ == versions@[k].url@,
                    None => r is Unavailable,
                }
            },
            Some(m) => match m.inherits_from {
                Some(p) => if manifest_present {
                    r matches VersionSource::Parent(s) && s@ == p@
                } else {
                    r is Unavailable
                },
                None => r is Unavailable,
            },
        },
{
    match modded_version {
        None => {
            if manifest_present {
                VersionSource::Installed(to_owned_string(id))
            } else {
                match find_version(versions, id) {
                    Some(k) => VersionSource::Published {
                        id: to_owned_string(id),
                        url: versions[k].url.clone(),
                    },
                    None => VersionSource::Unavailable,
                }
            }
        },
        Some(m) => match &m.inherits_from {
            Some(p) => if manifest_present {
                VersionSource::Parent(p.clone())
            } else {
                VersionSource::Unavailable
            },
            None => VersionSource::Unavailable,
        },
    }
}

/// The position of the first published version with identifier `id`.
pub open spec fn find_version_model(versions: Seq<main::Version>, id: Seq<char>) -> Option<int> {
    if exists|k: int| 0 <= k < versions.len() && versions[k].id@ == id {
        Some(choose|k: int| 0 <= k < versions.len() && versions[k].id@ == id && forall|j: int| 0 <= j < k ==> #[trigger] versions[j].id@ != id)
    } else {
        None
    }
}

} // verus!
