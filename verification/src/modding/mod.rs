//! Mod loaders: the profiles that put a mod loader on top of a game version.
use crate::manifest::version::{
    Either, Library, LibraryModel, Main, MainModel, StringPair, VersionType,
    args_tables_unique, library_tables_unique, libraries_tables_unique, manifest_tables_unique,
};
use crate::modding::cursed_legacy::{
    CursedLegacyInstaller, cursed_libraries, cursed_loader_profile_name, cursed_profile_name,
};
use crate::modding::cursed_legacy::cursed_builds_listed;
use crate::modding::fabric::{FabricInstaller, LoaderVersionInfo, PROFILE_NAMING, fabric_builds_listed};
use crate::utils::MavenMetadata;
use crate::modding::liteloader::{
    LiteLoaderInstaller, LiteVersionModel, MAVEN, lite_entry_model, lite_libraries,
    lite_profile_model, lite_profile_name, lite_versions_model, optional_library,
};
use crate::modding::rift::{RiftInstaller, rift_profile_model};
use crate::text::{contains_spec, contains_string, replace_spec, str_eq, to_owned_string};
use crate::time::UtcTime;
use vstd::prelude::*;

pub mod cursed_legacy;
pub mod fabric;
pub mod liteloader;
pub mod rift;

verus! {

/// A library known only by its coordinates and, possibly, its repository.
pub open spec fn plain_library_model(name: Seq<char>, url: Option<Seq<char>>) -> LibraryModel {
    LibraryModel {
        downloads: None,
        name,
        extract: None,
        natives: None,
        rules: None,
        url,
    }
}

pub fn plain_library(name: String, url: Option<String>) -> (r: Library)
    ensures
        r.deep_view() == plain_library_model(name@, url.deep_view()),
        library_tables_unique(r.deep_view()),
{
    Library { downloads: None, name, extract: None, natives: None, rules: None, url }
}

/// A mod loader profile: its identifier, libraries, launch class and release
/// channel, dated `now`, inheriting the game version `mc`, with nothing
/// else of its own.
pub open spec fn empty_profile_model(
    id: Seq<char>,
    libraries: Seq<LibraryModel>,
    main_class: Seq<char>,
    now: UtcTime,
    t: VersionType,
    mc: Seq<char>,
) -> MainModel {
    MainModel {
        arguments: None,
        asset_index: None,
        assets: None,
        compliance_level: None,
        downloads: None,
        id,
        java_version: None,
        libraries,
        logging: None,
        main_class,
        minimum_launcher_version: None,
        release_time: now,
        time: now,
        _type: t,
        minecraft_arguments: None,
        inherits_from: Some(mc),
    }
}

pub fn profile(
    id: String,
    libraries: Vec<Library>,
    main_class: String,
    now: UtcTime,
    t: VersionType,
    mc: String,
) -> (r: Main)
    ensures
        r.deep_view() == empty_profile_model(
            id@,
            libraries.deep_view(),
            main_class@,
            now,
            t,
            mc@,
        ),
{
    Main {
        arguments: None,
        asset_index: None,
        assets: None,
        compliance_level: None,
        downloads: None,
        id,
        java_version: None,
        libraries,
        logging: None,
        main_class,
        minimum_launcher_version: None,
        release_time: now,
        time: now,
        _type: t,
        minecraft_arguments: None,
        inherits_from: Some(mc),
    }
}

/// The unmodified game: its profile is the game version itself.
#[derive(Clone, Copy, PartialEq, Eq, Structural)]
pub struct VanillaLoader {}

impl VanillaLoader {
    pub fn get_name(&self) -> (r: String)
        ensures
            r@ == "Vanilla"@,
    {
        to_owned_string("Vanilla")
    }

    pub fn get_profile_name_for_mc_version(&self, mc_version: String) -> (r: String)
        ensures
            r@ == mc_version@,
    {
        mc_version
    }

    pub fn get_profile_name_for_loader_version(&self, mc_version: String, _loader_version: String) -> (r: String)
        ensures
            r@ == mc_version@,
    {
        self.get_profile_name_for_mc_version(mc_version)
    }

    pub fn is_vanilla(&self) -> (r: bool)
        ensures
            r,
    {
        true
    }
}

/// A way to play a game version: unmodified, or with one of the mod loaders.
#[derive(Clone, Copy, PartialEq, Eq, Structural)]
pub enum ModLoader {
    Vanilla(VanillaLoader),
    LiteLoader(LiteLoaderInstaller),
    Rift(RiftInstaller),
    CursedLegacy(CursedLegacyInstaller),
    Fabric(FabricInstaller),
}

/// The name shown for a loader.
pub open spec fn loader_name(l: ModLoader) -> Seq<char> {
    match l {
        ModLoader::Vanilla(_) => "Vanilla"@,
        ModLoader::LiteLoader(_) => "LiteLoader"@,
        ModLoader::Rift(_) => "Rift"@,
        ModLoader::CursedLegacy(_) => "Cursed Legacy"@,
        ModLoader::Fabric(_) => "Fabric"@,
    }
}

/// The loaders whose supported game versions are known without asking a
/// server.
pub open spec fn knows_its_versions(l: ModLoader) -> bool {
    l is LiteLoader || l is Rift || l is CursedLegacy
}

/// The game versions a loader of known versions supports.
pub open spec fn compatible_model(l: ModLoader) -> Seq<Seq<char>> {
    match l {
        ModLoader::LiteLoader(_) => lite_versions_model(),
        ModLoader::Rift(_) => seq!["1.13.2"@],
        ModLoader::CursedLegacy(_) => seq!["b1.7.3"@],
        _ => seq![],
    }
}

/// The profile name a loader gives a game version.
pub open spec fn profile_name_model(l: ModLoader, mc: Seq<char>) -> Seq<char> {
    match l {
        ModLoader::Vanilla(_) => mc,
        ModLoader::LiteLoader(_) => lite_profile_name(mc),
        ModLoader::Rift(_) => "1.13.2-rift-FINAL"@,
        ModLoader::CursedLegacy(_) => cursed_profile_name(mc),
        ModLoader::Fabric(_) => replace_spec(PROFILE_NAMING@, "{mc_version}"@, mc),
    }
}

/// The profile name a loader gives a game version and loader build.
pub open spec fn loader_profile_name_model(l: ModLoader, mc: Seq<char>, lv: Seq<char>) -> Seq<char> {
    match l {
        ModLoader::CursedLegacy(_) => cursed_loader_profile_name(mc, lv),
        ModLoader::Fabric(_) => replace_spec(
            replace_spec(PROFILE_NAMING@, "{mc_version}"@, mc),
            "{loader_version}"@,
            lv,
        ),
        _ => profile_name_model(l, mc),
    }
}

/// The profile a loader of known versions builds for a game version and
/// loader build, dated `now`.
pub open spec fn profile_model(l: ModLoader, mc: Seq<char>, lv: Seq<char>, now: UtcTime) -> MainModel {
    match l {
        ModLoader::LiteLoader(_) => lite_profile_model(mc, lite_entry_model(mc)->0, now),
        ModLoader::Rift(_) => rift_profile_model(mc, now),
        _ => empty_profile_model(
            cursed_loader_profile_name(mc, lv),
            cursed_libraries(lv),
            crate::modding::cursed_legacy::MAIN_CLASS@,
            now,
            VersionType::OldBeta,
            mc,
        ),
    }
}

/// Each library is known by coordinates alone, with no table of its own.
pub open spec fn all_plain(ls: Seq<LibraryModel>) -> bool {
    forall|i: int|
        0 <= i < ls.len() ==> (#[trigger] ls[i]).downloads is None && ls[i].natives is None
            && ls[i].rules is None
}

proof fn lemma_plain_tables_unique(ls: Seq<LibraryModel>)
    requires
        all_plain(ls),
    ensures
        libraries_tables_unique(ls),
{
    assert forall|i: int| 0 <= i < ls.len() implies #[trigger] library_tables_unique(ls[i]) by {
        assert(ls[i].natives is None);
    }
}

proof fn lemma_plain_append(a: Seq<LibraryModel>, b: Seq<LibraryModel>)
    requires
        all_plain(a),
        all_plain(b),
    ensures
        all_plain(a + b),
{
    let c = a + b;
    assert forall|i: int| 0 <= i < c.len() implies (#[trigger] c[i]).downloads is None
        && c[i].natives is None && c[i].rules is None by {
        if i < a.len() {
            assert(c[i] == a[i]);
        } else {
            assert(c[i] == b[i - a.len()]);
        }
    }
}

proof fn lemma_optional_plain(name: Seq<char>, url: Option<Seq<char>>)
    ensures
        all_plain(optional_library(name, url)),
{
}

proof fn lemma_lite_libraries_plain(mc: Seq<char>, e: LiteVersionModel)
    ensures
        all_plain(lite_libraries(mc, e)),
{
    let first = seq![
        plain_library_model(
            if e.release {
                "com.mumfrey:liteloader:"@ + mc
            } else {
                "com.mumfrey:liteloader:"@ + mc + "-SNAPSHOT"@
            },
            Some(MAVEN@),
        ),
    ];
    assert(all_plain(first));
    let asm_url = if mc == "1.12.2"@ {
        Some("http://repo.liteloader.com/"@)
    } else {
        None
    };
    lemma_optional_plain(e.launchwrapper, None);
    lemma_optional_plain(e.lzma, None);
    lemma_optional_plain(e.asm_lib, asm_url);
    lemma_optional_plain(e.guava, None);
    lemma_plain_append(first, optional_library(e.launchwrapper, None));
    let l1 = first + optional_library(e.launchwrapper, None);
    lemma_plain_append(l1, optional_library(e.lzma, None));
    let l2 = l1 + optional_library(e.lzma, None);
    lemma_plain_append(l2, optional_library(e.asm_lib, asm_url));
    let l3 = l2 + optional_library(e.asm_lib, asm_url);
    lemma_plain_append(l3, optional_library(e.guava, None));
}

proof fn lemma_cursed_libraries_plain(lv: Seq<char>)
    ensures
        all_plain(cursed_libraries(lv)),
{
    let b = crate::modding::cursed_legacy::cursed_base_libraries();
    assert(all_plain(b));
    let ls = cursed_libraries(lv);
    assert forall|i: int| 0 <= i < ls.len() implies (#[trigger] ls[i]).downloads is None
        && ls[i].natives is None && ls[i].rules is None by {
        if i < b.len() {
            assert(ls[i] == b[i]);
        }
    }
}

/// Every profile a loader builds names each entry of its tables once.
pub proof fn lemma_profile_tables_unique(l: ModLoader, mc: Seq<char>, lv: Seq<char>, now: UtcTime)
    ensures
        manifest_tables_unique(profile_model(l, mc, lv, now)),
{
    let m = profile_model(l, mc, lv, now);
    match l {
        ModLoader::LiteLoader(_) => {
            let e = lite_entry_model(mc)->0;
            let ls = lite_libraries(mc, e);
            lemma_lite_libraries_plain(mc, e);
            lemma_plain_tables_unique(ls);
        },
        ModLoader::Rift(_) => {
            let ls = crate::modding::rift::rift_libraries();
            assert(all_plain(ls));
            lemma_plain_tables_unique(ls);
            let g = m.arguments->0.game;
            assert forall|i: int| 0 <= i < g.len() implies (#[trigger] g[i] matches Either::Right(
                c,
            ) ==> crate::manifest::version::rules_tables_unique(c.rules)) by {
                assert(g[i] is Left);
            }
            assert(args_tables_unique(g));
        },
        _ => {
            let ls = cursed_libraries(lv);
            lemma_cursed_libraries_plain(lv);
            lemma_plain_tables_unique(ls);
        },
    }
}

impl ModLoader {
    pub fn get_name(&self) -> (r: String)
        ensures
            r@ == loader_name(*self),
    {
        match self {
            ModLoader::Vanilla(l) => l.get_name(),
            ModLoader::LiteLoader(l) => l.get_name(),
            ModLoader::Rift(l) => l.get_name(),
            ModLoader::CursedLegacy(l) => l.get_name(),
            ModLoader::Fabric(l) => l.get_name(),
        }
    }

    pub fn is_vanilla(&self) -> (r: bool)
        ensures
            r == (*self is Vanilla),
    {
        match self {
            ModLoader::Vanilla(l) => l.is_vanilla(),
            _ => false,
        }
    }

    /// Whether the list of supported game versions comes from a server.
    pub fn save_compatible_versions(&self) -> (r: bool)
        ensures
            r == (*self is Fabric),
    {
        match self {
            ModLoader::Fabric(l) => l.save_compatible_versions(),
            _ => false,
        }
    }

    /// Whether the list of loader builds comes from a server.
    pub fn save_compatible_loader_versions(&self) -> (r: bool)
        ensures
            r == (*self is Fabric || *self is CursedLegacy),
    {
        match self {
            ModLoader::Fabric(l) => l.save_compatible_loader_versions(),
            ModLoader::CursedLegacy(l) => l.save_compatible_loader_versions(),
            _ => false,
        }
    }

    /// The game versions a loader of known versions supports.
    pub fn get_compatible_versions(&self) -> (r: Vec<String>)
        requires
            knows_its_versions(*self),
        ensures
            r.deep_view() == compatible_model(*self),
    {
        match self {
            ModLoader::LiteLoader(l) => l.get_compatible_versions(),
            ModLoader::Rift(l) => l.get_compatible_versions(),
            ModLoader::CursedLegacy(l) => l.get_compatible_versions(),
            _ => Vec::new(),
        }
    }

    pub fn get_profile_name_for_mc_version(&self, mc_version: String) -> (r: String)
        ensures
            r@ == profile_name_model(*self, mc_version@),
    {
        match self {
            ModLoader::Vanilla(l) => l.get_profile_name_for_mc_version(mc_version),
            ModLoader::LiteLoader(l) => l.get_profile_name_for_mc_version(mc_version),
            ModLoader::Rift(l) => l.get_profile_name_for_mc_version(mc_version),
            ModLoader::CursedLegacy(l) => l.get_profile_name_for_mc_version(mc_version),
            ModLoader::Fabric(l) => l.get_profile_name_for_mc_version(mc_version),
        }
    }

    pub fn get_profile_name_for_loader_version(&self, mc_version: String, loader_version: String) -> (r: String)
        ensures
            r@ == loader_profile_name_model(*self, mc_version@, loader_version@),
    {
        match self {
            ModLoader::Vanilla(l) => l.get_profile_name_for_loader_version(mc_version, loader_version),
            ModLoader::LiteLoader(l) => l.get_profile_name_for_loader_version(mc_version, loader_version),
            ModLoader::Rift(l) => l.get_profile_name_for_loader_version(mc_version, loader_version),
            ModLoader::CursedLegacy(l) => l.get_profile_name_for_loader_version(mc_version, loader_version),
            ModLoader::Fabric(l) => l.get_profile_name_for_loader_version(mc_version, loader_version),
        }
    }

    /// The profile of a loader of known versions for a game version it
    /// supports (any game version for Cursed Legacy and Rift, which do not
    /// check), dated `now`.
    pub fn create_profile(&self, mc_version: String, loader_version: String, now: UtcTime) -> (r: Result<Main, String>)
        requires
            knows_its_versions(*self),
            *self is LiteLoader ==> lite_entry_model(mc_version@) is Some,
        ensures
            r matches Ok(m) && m.deep_view() == profile_model(*self, mc_version@, loader_version@, now),
            r matches Ok(m) && manifest_tables_unique(m.deep_view()),
    {
        proof {
            lemma_profile_tables_unique(*self, mc_version@, loader_version@, now);
        }
        match self {
            ModLoader::LiteLoader(l) => l.create_profile(mc_version, loader_version, now),
            ModLoader::Rift(l) => Ok(l.create_profile(mc_version, loader_version, now)),
            _ => {
                let l = CursedLegacyInstaller {};
                l.create_profile(mc_version, loader_version, now)
            },
        }
    }
}

/// The list of builds a loader was given: nothing for those that know their
/// builds, else what was downloaded from `ModLoader::loader_versions_url`.
pub enum LoaderBuilds {
    Known,
    Maven(MavenMetadata),
    Fabric(Vec<LoaderVersionInfo>),
}

/// `fetched` is the kind of list the loader `l` reads its builds from.
pub open spec fn builds_fit(l: ModLoader, fetched: LoaderBuilds) -> bool {
    match l {
        ModLoader::CursedLegacy(_) => fetched is Maven,
        ModLoader::Fabric(_) => fetched is Fabric,
        _ => true,
    }
}

/// The builds of a loader, each with its date.
pub open spec fn builds_listed(l: ModLoader, fetched: LoaderBuilds, r: Seq<(Seq<char>, Seq<char>)>) -> bool {
    match l {
        ModLoader::LiteLoader(_) => r == seq![("LiteLoader"@, "Unknown"@)],
        ModLoader::Rift(_) => r == seq![("FINAL"@, "Unknown"@)],
        ModLoader::CursedLegacy(_) => match fetched {
            LoaderBuilds::Maven(m) => cursed_builds_listed(r, m),
            _ => false,
        },
        ModLoader::Fabric(_) => match fetched {
            LoaderBuilds::Fabric(v) => fabric_builds_listed(r, v@),
            _ => false,
        },
        ModLoader::Vanilla(_) => false,
    }
}

impl ModLoader {
    /// Where the builds of a loader are listed, for those that fetch them.
    pub fn loader_versions_url(&self, mc_version: &str) -> (r: Option<String>)
        ensures
            match *self {
                ModLoader::CursedLegacy(_) => r matches Some(u) && u@
                    == crate::modding::cursed_legacy::LOADER_VERSIONS@,
                ModLoader::Fabric(_) => r matches Some(u) && u@ == replace_spec(
                    crate::modding::fabric::LOADER_VERSIONS@,
                    ":game_version"@,
                    mc_version@,
                ),
                _ => r is None,
            },
    {
        match self {
            ModLoader::CursedLegacy(_) => Some(to_owned_string(crate::modding::cursed_legacy::LOADER_VERSIONS)),
            ModLoader::Fabric(l) => Some(l.loader_versions_url(mc_version)),
            _ => None,
        }
    }

    /// The builds of a loader for a game version (see `builds_listed`).
    pub fn get_loader_versions(&self, mc_version: String, fetched: &LoaderBuilds) -> (r: Vec<StringPair>)
        requires
            !(*self is Vanilla),
            builds_fit(*self, *fetched),
        ensures
            builds_listed(*self, *fetched, r.deep_view()),
    {
        match self {
            ModLoader::LiteLoader(l) => l.get_loader_versions(mc_version),
            ModLoader::Rift(l) => l.get_loader_versions(mc_version),
            ModLoader::CursedLegacy(l) => match fetched {
                LoaderBuilds::Maven(m) => l.get_loader_versions(m),
                _ => Vec::new(),
            },
            ModLoader::Fabric(l) => match fetched {
                LoaderBuilds::Fabric(v) => l.get_loader_versions(v),
                _ => Vec::new(),
            },
            ModLoader::Vanilla(_) => Vec::new(),
        }
    }
}

/// The loaders among `ls` that support game version `v`, in order.
pub open spec fn compatible_loaders(ls: Seq<ModLoader>, v: Seq<char>) -> Seq<ModLoader>
    decreases ls.len(),
{
    if ls.len() == 0 {
        seq![]
    } else {
        let rest = compatible_loaders(ls.drop_last(), v);
        if compatible_model(ls.last()).contains(v) {
            rest.push(ls.last())
        } else {
            rest
        }
    }
}

/// The loaders the launcher offers.
pub struct ModLoaderHandler {
    pub mod_loaders: Vec<ModLoader>,
    pub vanilla: VanillaLoader,
}

impl ModLoaderHandler {
    /// LiteLoader, Rift and Cursed Legacy, in that order.
    pub fn new() -> (r: ModLoaderHandler)
        ensures
            r.mod_loaders@ == seq![
                ModLoader::LiteLoader(LiteLoaderInstaller {}),
                ModLoader::Rift(RiftInstaller {}),
                ModLoader::CursedLegacy(CursedLegacyInstaller {}),
            ],
    {
        let mut mod_loaders: Vec<ModLoader> = Vec::new();
        mod_loaders.push(ModLoader::LiteLoader(LiteLoaderInstaller {}));
        mod_loaders.push(ModLoader::Rift(RiftInstaller {}));
        mod_loaders.push(ModLoader::CursedLegacy(CursedLegacyInstaller {}));
        ModLoaderHandler { mod_loaders, vanilla: VanillaLoader {} }
    }

    /// The ways to play a game version: vanilla first, then each loader
    /// that supports it, in order.
    pub fn get_loaders_for_version(&self, version: String) -> (r: Result<Vec<ModLoader>, String>)
        requires
            forall|i: int| 0 <= i < self.mod_loaders@.len() ==> knows_its_versions(
                #[trigger] self.mod_loaders@[i],
            ),
        ensures
            r matches Ok(v) && v@ == seq![ModLoader::Vanilla(self.vanilla)]
                + compatible_loaders(self.mod_loaders@, version@),
    {
        let mut loaders: Vec<ModLoader> = Vec::new();
        loaders.push(ModLoader::Vanilla(self.vanilla));
        let mut i: usize = 0;
        while i < self.mod_loaders.len()
            invariant
                i <= self.mod_loaders@.len(),
                forall|k: int| 0 <= k < self.mod_loaders@.len() ==> knows_its_versions(
                    #[trigger] self.mod_loaders@[k],
                ),
                loaders@ == seq![ModLoader::Vanilla(self.vanilla)] + compatible_loaders(
                    self.mod_loaders@.subrange(0, i as int),
                    version@,
                ),
            decreases self.mod_loaders.len() - i,
        {
            let l = self.mod_loaders[i];
            let versions = l.get_compatible_versions();
            let ghost before = self.mod_loaders@.subrange(0, i as int);
            let ghost after = self.mod_loaders@.subrange(0, i + 1);
            assert(after.drop_last() =~= before);
            assert(after.last() == l);
            if contains_string(&versions, version.as_str()) {
                loaders.push(l);
            }
            i = i + 1;
        }
        assert(self.mod_loaders@.subrange(0, self.mod_loaders@.len() as int) =~= self.mod_loaders@);
        Ok(loaders)
    }
}

/// A loader offered for a game version supports it: every loader after
/// vanilla in the offer lists that version, so LiteLoader, when offered, can
/// build its profile.
pub proof fn lemma_offered_loaders_support(ls: Seq<ModLoader>, v: Seq<char>, i: int)
    requires
        0 <= i < compatible_loaders(ls, v).len(),
    ensures
        compatible_model(compatible_loaders(ls, v)[i]).contains(v),
        compatible_loaders(ls, v)[i] is LiteLoader ==> lite_entry_model(v) is Some,
    decreases ls.len(),
{
    let rest = compatible_loaders(ls.drop_last(), v);
    if i < rest.len() {
        lemma_offered_loaders_support(ls.drop_last(), v, i);
    }
    if compatible_loaders(ls, v)[i] is LiteLoader {
        crate::modding::liteloader::lemma_lite_entry_iff_supported(v);
    }
}

} // verus!
