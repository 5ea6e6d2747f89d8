//! A game version manifest (`<id>.json`): what to download and how to launch.
use crate::manifest::main;
use crate::text::{
    assoc, assoc_index, contains_spec, contains_str, keys_unique, lemma_assoc_found, lemma_assoc_missing, str_eq,
    to_owned_string,
};
use crate::time::UtcTime;
use vstd::prelude::*;

verus! {

/// One argument slot: a plain value, or a value guarded by rules.
pub enum Either<A, B> {
    Left(A),
    Right(B),
}

pub struct Main {
    pub arguments: Option<Arguments>,
    pub asset_index: Option<AssetIndex>,
    pub assets: Option<String>,
    pub compliance_level: Option<u8>,
    pub downloads: Option<Downloads>,
    pub id: String,
    pub java_version: Option<JavaVersion>,
    pub libraries: Vec<Library>,
    pub logging: Option<Logging>,
    pub main_class: String,
    pub minimum_launcher_version: Option<u8>,
    pub release_time: UtcTime,
    pub time: UtcTime,
    pub _type: VersionType,
    pub minecraft_arguments: Option<String>,
    pub inherits_from: Option<String>,
}

pub struct Arguments {
    pub game: Vec<Either<String, CustomArguments>>,
    pub jvm: Option<Vec<Either<String, CustomArguments>>>,
}

pub struct CustomArguments {
    pub rules: Vec<Rule>,
    pub value: Either<String, Vec<String>>,
}

/// A named feature switch of a rule (`"is_demo_user": true`).
pub struct FeatureFlag {
    pub name: String,
    pub enabled: bool,
}

/// One entry of a string-to-string table of a manifest.
pub struct StringPair {
    pub key: String,
    pub value: String,
}

pub struct Rule {
    pub action: RuleAction,
    pub features: Option<Vec<FeatureFlag>>,
    pub os: Option<Vec<StringPair>>,
}

pub struct AssetIndex {
    pub id: String,
    pub sha1: String,
    pub size: u64,
    pub total_size: u64,
    pub url: String,
}

pub struct Downloads {
    pub client: DownloadEntry,
    pub client_mappings: Option<DownloadEntry>,
    pub server: Option<DownloadEntry>,
    pub server_mappings: Option<DownloadEntry>,
}

pub struct DownloadEntry {
    pub sha1: String,
    pub size: u64,
    pub url: String,
}

pub struct JavaVersion {
    pub component: String,
    pub major_version: u8,
}

pub struct Library {
    pub downloads: Option<LibraryDownload>,
    pub name: String,
    pub extract: Option<LibraryExtract>,
    pub natives: Option<Vec<StringPair>>,
    pub rules: Option<Vec<Rule>>,
    pub url: Option<String>,
}

/// A native classifier of a library and the file that carries it.
pub struct Classifier {
    pub name: String,
    pub artifact: LibraryDownloadArtifact,
}

pub struct LibraryDownload {
    pub artifact: Option<LibraryDownloadArtifact>,
    pub classifiers: Option<Vec<Classifier>>,
}

pub struct LibraryExtract {
    pub exclude: Vec<String>,
}

pub struct LibraryDownloadArtifact {
    pub path: String,
    pub sha1: String,
    pub size: u64,
    pub url: String,
}

pub struct Logging {
    pub client: Option<ClientLogging>,
}

pub struct ClientLogging {
    pub argument: String,
    pub file: ClientLoggingFile,
    pub _type: String,
}

pub struct ClientLoggingFile {
    pub id: String,
    pub sha1: String,
    pub size: u64,
    pub url: String,
}

#[derive(Clone, Copy, PartialEq, Eq, Structural)]
pub enum VersionType {
    Release,
    Snapshot,
    OldBeta,
    OldAlpha,
}

#[derive(Clone, Copy, PartialEq, Eq, Structural)]
pub enum RuleAction {
    Allow,
    Disallow,
}

#[derive(Clone, Copy, PartialEq, Eq, Structural)]
pub enum Os {
    Windows,
    MacOS,
    Linux,
}


/// The content of a manifest, as a mathematical value.
pub struct MainModel {
    pub arguments: Option<ArgumentsModel>,
    pub asset_index: Option<AssetIndexModel>,
    pub assets: Option<Seq<char>>,
    pub compliance_level: Option<u8>,
    pub downloads: Option<DownloadsModel>,
    pub id: Seq<char>,
    pub java_version: Option<JavaVersionModel>,
    pub libraries: Seq<LibraryModel>,
    pub logging: Option<LoggingModel>,
    pub main_class: Seq<char>,
    pub minimum_launcher_version: Option<u8>,
    pub release_time: UtcTime,
    pub time: UtcTime,
    pub _type: VersionType,
    pub minecraft_arguments: Option<Seq<char>>,
    pub inherits_from: Option<Seq<char>>,
}

pub type ArgModel = Either<Seq<char>, CustomArgumentsModel>;

pub struct ArgumentsModel {
    pub game: Seq<ArgModel>,
    pub jvm: Option<Seq<ArgModel>>,
}

pub struct CustomArgumentsModel {
    pub rules: Seq<RuleModel>,
    pub value: Either<Seq<char>, Seq<Seq<char>>>,
}

pub struct RuleModel {
    pub action: RuleAction,
    pub features: Option<Seq<(Seq<char>, bool)>>,
    pub os: Option<Seq<(Seq<char>, Seq<char>)>>,
}

pub struct AssetIndexModel {
    pub id: Seq<char>,
    pub sha1: Seq<char>,
    pub size: u64,
    pub total_size: u64,
    pub url: Seq<char>,
}

pub struct DownloadsModel {
    pub client: DownloadEntryModel,
    pub client_mappings: Option<DownloadEntryModel>,
    pub server: Option<DownloadEntryModel>,
    pub server_mappings: Option<DownloadEntryModel>,
}

pub struct DownloadEntryModel {
    pub sha1: Seq<char>,
    pub size: u64,
    pub url: Seq<char>,
}

pub struct JavaVersionModel {
    pub component: Seq<char>,
    pub major_version: u8,
}

pub struct LibraryModel {
    pub downloads: Option<LibraryDownloadModel>,
    pub name: Seq<char>,
    pub extract: Option<Seq<Seq<char>>>,
    pub natives: Option<Seq<(Seq<char>, Seq<char>)>>,
    pub rules: Option<Seq<RuleModel>>,
    pub url: Option<Seq<char>>,
}

pub struct LibraryDownloadModel {
    pub artifact: Option<ArtifactModel>,
    pub classifiers: Option<Seq<(Seq<char>, ArtifactModel)>>,
}

pub struct ArtifactModel {
    pub path: Seq<char>,
    pub sha1: Seq<char>,
    pub size: u64,
    pub url: Seq<char>,
}

pub struct LoggingModel {
    pub client: Option<ClientLoggingModel>,
}

pub struct ClientLoggingModel {
    pub argument: Seq<char>,
    pub file: ClientLoggingFileModel,
    pub _type: Seq<char>,
}

pub struct ClientLoggingFileModel {
    pub id: Seq<char>,
    pub sha1: Seq<char>,
    pub size: u64,
    pub url: Seq<char>,
}

impl DeepView for VersionType {
    type V = VersionType;

    open spec fn deep_view(&self) -> VersionType {
        *self
    }
}

impl DeepView for RuleAction {
    type V = RuleAction;

    open spec fn deep_view(&self) -> RuleAction {
        *self
    }
}

impl<A: DeepView, B: DeepView> DeepView for Either<A, B> {
    type V = Either<A::V, B::V>;

    open spec fn deep_view(&self) -> Either<A::V, B::V> {
        match self {
            Either::Left(a) => Either::Left(a.deep_view()),
            Either::Right(b) => Either::Right(b.deep_view()),
        }
    }
}

impl DeepView for StringPair {
    type V = (Seq<char>, Seq<char>);

    open spec fn deep_view(&self) -> (Seq<char>, Seq<char>) {
        (self.key@, self.value@)
    }
}

impl DeepView for FeatureFlag {
    type V = (Seq<char>, bool);

    open spec fn deep_view(&self) -> (Seq<char>, bool) {
        (self.name@, self.enabled)
    }
}

impl DeepView for Rule {
    type V = RuleModel;

    open spec fn deep_view(&self) -> RuleModel {
        RuleModel {
            action: self.action,
            features: self.features.deep_view(),
            os: self.os.deep_view(),
        }
    }
}

impl DeepView for CustomArguments {
    type V = CustomArgumentsModel;

    open spec fn deep_view(&self) -> CustomArgumentsModel {
        CustomArgumentsModel { rules: self.rules.deep_view(), value: self.value.deep_view() }
    }
}

impl DeepView for Arguments {
    type V = ArgumentsModel;

    open spec fn deep_view(&self) -> ArgumentsModel {
        ArgumentsModel { game: self.game.deep_view(), jvm: self.jvm.deep_view() }
    }
}

impl DeepView for AssetIndex {
    type V = AssetIndexModel;

    open spec fn deep_view(&self) -> AssetIndexModel {
        AssetIndexModel {
            id: self.id@,
            sha1: self.sha1@,
            size: self.size,
            total_size: self.total_size,
            url: self.url@,
        }
    }
}

impl DeepView for DownloadEntry {
    type V = DownloadEntryModel;

    open spec fn deep_view(&self) -> DownloadEntryModel {
        DownloadEntryModel { sha1: self.sha1@, size: self.size, url: self.url@ }
    }
}

impl DeepView for Downloads {
    type V = DownloadsModel;

    open spec fn deep_view(&self) -> DownloadsModel {
        DownloadsModel {
            client: self.client.deep_view(),
            client_mappings: self.client_mappings.deep_view(),
            server: self.server.deep_view(),
            server_mappings: self.server_mappings.deep_view(),
        }
    }
}

impl DeepView for JavaVersion {
    type V = JavaVersionModel;

    open spec fn deep_view(&self) -> JavaVersionModel {
        JavaVersionModel { component: self.component@, major_version: self.major_version }
    }
}

impl DeepView for LibraryDownloadArtifact {
    type V = ArtifactModel;

    open spec fn deep_view(&self) -> ArtifactModel {
        ArtifactModel { path: self.path@, sha1: self.sha1@, size: self.size, url: self.url@ }
    }
}

impl DeepView for Classifier {
    type V = (Seq<char>, ArtifactModel);

    open spec fn deep_view(&self) -> (Seq<char>, ArtifactModel) {
        (self.name@, self.artifact.deep_view())
    }
}

impl DeepView for LibraryDownload {
    type V = LibraryDownloadModel;

    open spec fn deep_view(&self) -> LibraryDownloadModel {
        LibraryDownloadModel {
            artifact: self.artifact.deep_view(),
            classifiers: self.classifiers.deep_view(),
        }
    }
}

impl DeepView for LibraryExtract {
    type V = Seq<Seq<char>>;

    open spec fn deep_view(&self) -> Seq<Seq<char>> {
        self.exclude.deep_view()
    }
}

impl DeepView for Library {
    type V = LibraryModel;

    open spec fn deep_view(&self) -> LibraryModel {
        LibraryModel {
            downloads: self.downloads.deep_view(),
            name: self.name@,
            extract: self.extract.deep_view(),
            natives: self.natives.deep_view(),
            rules: self.rules.deep_view(),
            url: self.url.deep_view(),
        }
    }
}

impl DeepView for ClientLoggingFile {
    type V = ClientLoggingFileModel;

    open spec fn deep_view(&self) -> ClientLoggingFileModel {
        ClientLoggingFileModel { id: self.id@, sha1: self.sha1@, size: self.size, url: self.url@ }
    }
}

impl DeepView for ClientLogging {
    type V = ClientLoggingModel;

    open spec fn deep_view(&self) -> ClientLoggingModel {
        ClientLoggingModel {
            argument: self.argument@,
            file: self.file.deep_view(),
            _type: self._type@,
        }
    }
}

impl DeepView for Logging {
    type V = LoggingModel;

    open spec fn deep_view(&self) -> LoggingModel {
        LoggingModel { client: self.client.deep_view() }
    }
}

impl DeepView for Main {
    type V = MainModel;

    open spec fn deep_view(&self) -> MainModel {
        MainModel {
            arguments: self.arguments.deep_view(),
            asset_index: self.asset_index.deep_view(),
            assets: self.assets.deep_view(),
            compliance_level: self.compliance_level,
            downloads: self.downloads.deep_view(),
            id: self.id@,
            java_version: self.java_version.deep_view(),
            libraries: self.libraries.deep_view(),
            logging: self.logging.deep_view(),
            main_class: self.main_class@,
            minimum_launcher_version: self.minimum_launcher_version,
            release_time: self.release_time,
            time: self.time,
            _type: self._type,
            minecraft_arguments: self.minecraft_arguments.deep_view(),
            inherits_from: self.inherits_from.deep_view(),
        }
    }
}

impl Clone for StringPair {
    fn clone(&self) -> (res: Self)
        ensures
            res.deep_view() == self.deep_view(),
    {
        StringPair { key: self.key.clone(), value: self.value.clone() }
    }
}

impl Clone for FeatureFlag {
    fn clone(&self) -> (res: Self)
        ensures
            res.deep_view() == self.deep_view(),
    {
        FeatureFlag { name: self.name.clone(), enabled: self.enabled }
    }
}

impl Clone for Rule {
    fn clone(&self) -> (res: Self)
        ensures
            res.deep_view() == self.deep_view(),
    {
        let features = match &self.features {
            None => None,
            Some(f) => {
                let c = f.clone();
                assert(c.deep_view() =~= f.deep_view());
                Some(c)
            },
        };
        let os = match &self.os {
            None => None,
            Some(o) => {
                let c = o.clone();
                assert(c.deep_view() =~= o.deep_view());
                Some(c)
            },
        };
        Rule { action: self.action, features, os }
    }
}

impl Clone for Either<String, Vec<String>> {
    fn clone(&self) -> (res: Self)
        ensures
            res.deep_view() == self.deep_view(),
    {
        match self {
            Either::Left(s) => Either::Left(s.clone()),
            Either::Right(v) => {
                let c = v.clone();
                assert(c.deep_view() =~= v.deep_view());
                Either::Right(c)
            },
        }
    }
}

impl Clone for CustomArguments {
    fn clone(&self) -> (res: Self)
        ensures
            res.deep_view() == self.deep_view(),
    {
        let rules = self.rules.clone();
        assert(rules.deep_view() =~= self.rules.deep_view());
        CustomArguments { rules, value: self.value.clone() }
    }
}

impl Clone for Either<String, CustomArguments> {
    fn clone(&self) -> (res: Self)
        ensures
            res.deep_view() == self.deep_view(),
    {
        match self {
            Either::Left(s) => Either::Left(s.clone()),
            Either::Right(c) => Either::Right(c.clone()),
        }
    }
}

impl Clone for Arguments {
    fn clone(&self) -> (res: Self)
        ensures
            res.deep_view() == self.deep_view(),
    {
        let game = self.game.clone();
        assert(game.deep_view() =~= self.game.deep_view());
        let jvm = match &self.jvm {
            None => None,
            Some(j) => {
                let c = j.clone();
                assert(c.deep_view() =~= j.deep_view());
                Some(c)
            },
        };
        Arguments { game, jvm }
    }
}

impl Clone for AssetIndex {
    fn clone(&self) -> (res: Self)
        ensures
            res.deep_view() == self.deep_view(),
    {
        AssetIndex {
            id: self.id.clone(),
            sha1: self.sha1.clone(),
            size: self.size,
            total_size: self.total_size,
            url: self.url.clone(),
        }
    }
}

impl Clone for DownloadEntry {
    fn clone(&self) -> (res: Self)
        ensures
            res.deep_view() == self.deep_view(),
    {
        DownloadEntry { sha1: self.sha1.clone(), size: self.size, url: self.url.clone() }
    }
}

impl Clone for Downloads {
    fn clone(&self) -> (res: Self)
        ensures
            res.deep_view() == self.deep_view(),
    {
        Downloads {
            client: self.client.clone(),
            client_mappings: self.client_mappings.clone(),
            server: self.server.clone(),
            server_mappings: self.server_mappings.clone(),
        }
    }
}

impl Clone for JavaVersion {
    fn clone(&self) -> (res: Self)
        ensures
            res.deep_view() == self.deep_view(),
    {
        JavaVersion { component: self.component.clone(), major_version: self.major_version }
    }
}

impl Clone for LibraryDownloadArtifact {
    fn clone(&self) -> (res: Self)
        ensures
            res.deep_view() == self.deep_view(),
    {
        LibraryDownloadArtifact {
            path: self.path.clone(),
            sha1: self.sha1.clone(),
            size: self.size,
            url: self.url.clone(),
        }
    }
}

impl Clone for Classifier {
    fn clone(&self) -> (res: Self)
        ensures
            res.deep_view() == self.deep_view(),
    {
        Classifier { name: self.name.clone(), artifact: self.artifact.clone() }
    }
}

impl Clone for LibraryDownload {
    fn clone(&self) -> (res: Self)
        ensures
            res.deep_view() == self.deep_view(),
    {
        let classifiers = match &self.classifiers {
            None => None,
            Some(c) => {
                let d = c.clone();
                assert(d.deep_view() =~= c.deep_view());
                Some(d)
            },
        };
        LibraryDownload { artifact: self.artifact.clone(), classifiers }
    }
}

impl Clone for LibraryExtract {
    fn clone(&self) -> (res: Self)
        ensures
            res.deep_view() == self.deep_view(),
    {
        let exclude = self.exclude.clone();
        assert(exclude.deep_view() =~= self.exclude.deep_view());
        LibraryExtract { exclude }
    }
}

impl Clone for Library {
    fn clone(&self) -> (res: Self)
        ensures
            res.deep_view() == self.deep_view(),
    {
        let natives = match &self.natives {
            None => None,
            Some(n) => {
                let c = n.clone();
                assert(c.deep_view() =~= n.deep_view());
                Some(c)
            },
        };
        let rules = match &self.rules {
            None => None,
            Some(r) => {
                let c = r.clone();
                assert(c.deep_view() =~= r.deep_view());
                Some(c)
            },
        };
        Library {
            downloads: self.downloads.clone(),
            name: self.name.clone(),
            extract: self.extract.clone(),
            natives,
            rules,
            url: self.url.clone(),
        }
    }
}

impl Clone for ClientLoggingFile {
    fn clone(&self) -> (res: Self)
        ensures
            res.deep_view() == self.deep_view(),
    {
        ClientLoggingFile {
            id: self.id.clone(),
            sha1: self.sha1.clone(),
            size: self.size,
            url: self.url.clone(),
        }
    }
}

impl Clone for ClientLogging {
    fn clone(&self) -> (res: Self)
        ensures
            res.deep_view() == self.deep_view(),
    {
        ClientLogging {
            argument: self.argument.clone(),
            file: self.file.clone(),
            _type: self._type.clone(),
        }
    }
}

impl Clone for Logging {
    fn clone(&self) -> (res: Self)
        ensures
            res.deep_view() == self.deep_view(),
    {
        Logging { client: self.client.clone() }
    }
}

impl Clone for Main {
    fn clone(&self) -> (res: Self)
        ensures
            res.deep_view() == self.deep_view(),
    {
        let libraries = self.libraries.clone();
        assert(libraries.deep_view() =~= self.libraries.deep_view());
        Main {
            arguments: self.arguments.clone(),
            asset_index: self.asset_index.clone(),
            assets: self.assets.clone(),
            compliance_level: self.compliance_level,
            downloads: self.downloads.clone(),
            id: self.id.clone(),
            java_version: self.java_version.clone(),
            libraries,
            logging: self.logging.clone(),
            main_class: self.main_class.clone(),
            minimum_launcher_version: self.minimum_launcher_version,
            release_time: self.release_time,
            time: self.time,
            _type: self._type,
            minecraft_arguments: self.minecraft_arguments.clone(),
            inherits_from: self.inherits_from.clone(),
        }
    }
}


/// The first present value: `own` when it is there, else `from`.
pub open spec fn or_else<T>(own: Option<T>, from: Option<T>) -> Option<T> {
    if own is Some {
        own
    } else {
        from
    }
}

/// The arguments of a version that inherits `b`: game arguments appended,
/// JVM arguments appended when both have some.
pub open spec fn arguments_inherit_model(a: ArgumentsModel, b: ArgumentsModel) -> ArgumentsModel {
    ArgumentsModel {
        game: a.game + b.game,
        jvm: match (a.jvm, b.jvm) {
            (Some(x), Some(y)) => Some(x + y),
            (Some(x), None) => Some(x),
            (None, y) => y,
        },
    }
}

/// The download entries of a version that inherits `b`: the own client jar,
/// the other entries taken from `b` where missing.
pub open spec fn downloads_inherit_model(a: DownloadsModel, b: DownloadsModel) -> DownloadsModel {
    DownloadsModel {
        client: a.client,
        client_mappings: or_else(a.client_mappings, b.client_mappings),
        server: or_else(a.server, b.server),
        server_mappings: or_else(a.server_mappings, b.server_mappings),
    }
}

/// A version manifest `a` completed by the manifest `b` it inherits from:
/// own values win, missing values come from `b`, arguments and libraries are
/// appended, identity and launch class stay those of `a`.
pub open spec fn main_inherit_model(a: MainModel, b: MainModel) -> MainModel {
    MainModel {
        arguments: match (a.arguments, b.arguments) {
            (Some(x), Some(y)) => Some(arguments_inherit_model(x, y)),
            (Some(x), None) => Some(x),
            (None, y) => y,
        },
        asset_index: or_else(a.asset_index, b.asset_index),
        assets: or_else(a.assets, b.assets),
        compliance_level: or_else(a.compliance_level, b.compliance_level),
        downloads: match (a.downloads, b.downloads) {
            (Some(x), Some(y)) => Some(downloads_inherit_model(x, y)),
            (Some(x), None) => Some(x),
            (None, y) => y,
        },
        id: a.id,
        java_version: or_else(a.java_version, b.java_version),
        libraries: a.libraries + b.libraries,
        logging: or_else(a.logging, b.logging),
        main_class: a.main_class,
        minimum_launcher_version: or_else(a.minimum_launcher_version, b.minimum_launcher_version),
        release_time: a.release_time,
        time: a.time,
        _type: a._type,
        minecraft_arguments: or_else(a.minecraft_arguments, b.minecraft_arguments),
        inherits_from: a.inherits_from,
    }
}

/// A profile completed with its parent keeps its own identity: its
/// identifier, channel, dates, launch class and parent, so it is modded
/// exactly when it was; its libraries come first, then the parent's; what
/// it sets itself is kept.
pub proof fn lemma_inherit_keeps_identity(a: MainModel, b: MainModel)
    ensures
        main_inherit_model(a, b).id == a.id,
        main_inherit_model(a, b)._type == a._type,
        main_inherit_model(a, b).release_time == a.release_time,
        main_inherit_model(a, b).time == a.time,
        main_inherit_model(a, b).main_class == a.main_class,
        main_inherit_model(a, b).inherits_from == a.inherits_from,
        main_inherit_model(a, b).libraries == a.libraries + b.libraries,
        a.asset_index is Some ==> main_inherit_model(a, b).asset_index == a.asset_index,
        a.minecraft_arguments is Some ==> main_inherit_model(a, b).minecraft_arguments
            == a.minecraft_arguments,
        a.asset_index is None ==> main_inherit_model(a, b).asset_index == b.asset_index,
{
}

/// Each feature and each operating-system key of a rule is named once.
pub open spec fn rule_tables_unique(r: RuleModel) -> bool {
    &&& (r.features matches Some(f) ==> keys_unique(f))
    &&& (r.os matches Some(o) ==> keys_unique(o))
}

pub open spec fn rules_tables_unique(rs: Seq<RuleModel>) -> bool {
    forall|i: int| 0 <= i < rs.len() ==> #[trigger] rule_tables_unique(rs[i])
}

/// Each table of a library names its entries once: its natives by system,
/// its classifiers by name, and the tables of its rules.
pub open spec fn library_tables_unique(l: LibraryModel) -> bool {
    &&& (l.natives matches Some(n) ==> keys_unique(n))
    &&& (l.downloads matches Some(d) ==> (d.classifiers matches Some(c) ==> keys_unique(c)))
    &&& (l.rules matches Some(rs) ==> rules_tables_unique(rs))
}

pub open spec fn libraries_tables_unique(ls: Seq<LibraryModel>) -> bool {
    forall|i: int| 0 <= i < ls.len() ==> #[trigger] library_tables_unique(ls[i])
}

pub open spec fn args_tables_unique(args: Seq<ArgModel>) -> bool {
    forall|i: int|
        0 <= i < args.len() ==> (#[trigger] args[i] matches Either::Right(c) ==> rules_tables_unique(
            c.rules,
        ))
}

/// Every table of a manifest (those of its libraries and of the rules of
/// its arguments) names each of its entries once, as the maps of the
/// manifest's format do.
pub open spec fn manifest_tables_unique(m: MainModel) -> bool {
    &&& libraries_tables_unique(m.libraries)
    &&& (m.arguments matches Some(a) ==> {
        &&& args_tables_unique(a.game)
        &&& (a.jvm matches Some(j) ==> args_tables_unique(j))
    })
}

/// Completing a manifest with its parent keeps every table a map: the
/// appended libraries and arguments bring their own tables unchanged.
pub proof fn lemma_inherit_keeps_tables_unique(a: MainModel, b: MainModel)
    requires
        manifest_tables_unique(a),
        manifest_tables_unique(b),
    ensures
        manifest_tables_unique(main_inherit_model(a, b)),
{
    let ls = a.libraries + b.libraries;
    assert forall|i: int| 0 <= i < ls.len() implies #[trigger] library_tables_unique(ls[i]) by {
        if i < a.libraries.len() {
            assert(library_tables_unique(a.libraries[i]));
        } else {
            assert(library_tables_unique(b.libraries[i - a.libraries.len()]));
        }
    }
    if a.arguments is Some && b.arguments is Some {
        let x = a.arguments->0;
        let y = b.arguments->0;
        lemma_args_append_unique(x.game, y.game);
        if x.jvm is Some && y.jvm is Some {
            lemma_args_append_unique(x.jvm->0, y.jvm->0);
        }
    }
}

proof fn lemma_args_append_unique(x: Seq<ArgModel>, y: Seq<ArgModel>)
    requires
        args_tables_unique(x),
        args_tables_unique(y),
    ensures
        args_tables_unique(x + y),
{
    let z = x + y;
    assert forall|i: int| 0 <= i < z.len() implies (#[trigger] z[i] matches Either::Right(c)
        ==> rules_tables_unique(c.rules)) by {
        if i < x.len() {
            assert(z[i] == x[i]);
        } else {
            assert(z[i] == y[i - x.len()]);
        }
    }
}

/// `a` may inherit `b`: it names no parent, or names `b`.
pub open spec fn may_inherit(a: MainModel, b: MainModel) -> bool {
    a.inherits_from matches Some(parent) ==> parent == b.id
}

fn first_present<T>(own: Option<T>, from: Option<T>) -> (r: Option<T>)
    ensures
        r == or_else(own, from),
{
    if own.is_none() && from.is_some() {
        from
    } else {
        own
    }
}

fn append_all<T>(a: Vec<T>, b: Vec<T>) -> (r: Vec<T>)
    ensures
        r@ == a@ + b@,
{
    let mut a = a;
    let mut b = b;
    a.append(&mut b);
    a
}

proof fn lemma_deep_view_append<T: DeepView>(a: Vec<T>, b: Vec<T>, r: Vec<T>)
    requires
        r@ == a@ + b@,
    ensures
        r.deep_view() == a.deep_view() + b.deep_view(),
{
    assert(r.deep_view() =~= a.deep_view() + b.deep_view());
}

impl Main {
    /// Completes this manifest with the one it inherits from.
    pub fn inherit(self, from: &Main) -> (res: Main)
        requires
            may_inherit(self.deep_view(), from.deep_view()),
        ensures
            res.deep_view() == main_inherit_model(self.deep_view(), from.deep_view()),
    {
        let from = from.clone();
        let me = self;
        let ghost a = me.deep_view();
        let ghost b = from.deep_view();
        let arguments = match (me.arguments, from.arguments) {
            (Some(x), Some(y)) => Some(Arguments::inherit(x, y)),
            (Some(x), None) => Some(x),
            (None, y) => y,
        };
        let downloads = match (me.downloads, from.downloads) {
            (Some(x), Some(y)) => Some(Downloads::inherit(x, y)),
            (Some(x), None) => Some(x),
            (None, y) => y,
        };
        let libraries = append_all(me.libraries, from.libraries);
        proof {
            lemma_deep_view_append(me.libraries, from.libraries, libraries);
        }
        let res = Main {
            arguments,
            asset_index: first_present(me.asset_index, from.asset_index),
            assets: first_present(me.assets, from.assets),
            compliance_level: first_present(me.compliance_level, from.compliance_level),
            downloads,
            id: me.id,
            java_version: first_present(me.java_version, from.java_version),
            libraries,
            logging: first_present(me.logging, from.logging),
            main_class: me.main_class,
            minimum_launcher_version: first_present(
                me.minimum_launcher_version,
                from.minimum_launcher_version,
            ),
            release_time: me.release_time,
            time: me.time,
            _type: me._type,
            minecraft_arguments: first_present(me.minecraft_arguments, from.minecraft_arguments),
            inherits_from: me.inherits_from,
        };
        assert(res.deep_view() =~= main_inherit_model(a, b));
        res
    }

    /// The summary of this installed version shown in the version list.
    pub fn to_min_version(&self) -> (res: main::MinVersion)
        ensures
            res.id@ == self.id@,
            main::named(res._type, version_type_name(self._type)),
            res.release_time == self.release_time,
            res.installed,
    {
        main::MinVersion {
            id: self.id.clone(),
            _type: main::VersionType::from_str(self._type.to_string()),
            release_time: self.release_time,
            installed: true,
        }
    }

    /// Whether the version is a Fabric or Forge profile.
    pub fn is_modded(&self) -> (r: bool)
        ensures
            r == (contains_spec(self.id@, "fabric"@) || contains_spec(self.id@, "forge"@)),
    {
        contains_str(self.id.as_str(), "fabric") || contains_str(self.id.as_str(), "forge")
    }
}

impl Arguments {
    /// Appends the arguments of the parent version.
    pub fn inherit(self, from: Arguments) -> (res: Arguments)
        ensures
            res.deep_view() == arguments_inherit_model(self.deep_view(), from.deep_view()),
    {
        let ghost a = self.deep_view();
        let ghost b = from.deep_view();
        let mut me = self;
        let game = append_all(me.game, from.game);
        proof {
            lemma_deep_view_append(me.game, from.game, game);
        }
        me.game = game;
        me.jvm = match (me.jvm, from.jvm) {
            (Some(x), Some(y)) => {
                let joined = append_all(x, y);
                proof {
                    lemma_deep_view_append(x, y, joined);
                }
                Some(joined)
            },
            (Some(x), None) => Some(x),
            (None, y) => y,
        };
        assert(me.deep_view() =~= arguments_inherit_model(a, b));
        me
    }

    /// Appends one JVM argument; the arguments must have a JVM list.
    pub fn add_to_jvm(self, i: Either<String, CustomArguments>) -> (res: Arguments)
        requires
            self.jvm is Some,
        ensures
            res.deep_view() == (ArgumentsModel {
                game: self.deep_view().game,
                jvm: Some(self.deep_view().jvm->0.push(i.deep_view())),
            }),
    {
        let ghost a = self.deep_view();
        let mut me = self;
        match me.jvm {
            Some(mut jv) => {
                let ghost before = jv.deep_view();
                jv.push(i);
                assert(jv.deep_view() =~= before.push(i.deep_view()));
                me.jvm = Some(jv);
            },
            None => {},
        }
        me
    }
}

impl Downloads {
    /// Takes the mapping and server entries of the parent where missing.
    pub fn inherit(self, from: Downloads) -> (res: Downloads)
        ensures
            res.deep_view() == downloads_inherit_model(self.deep_view(), from.deep_view()),
    {
        Downloads {
            client: self.client,
            client_mappings: first_present(self.client_mappings, from.client_mappings),
            server: first_present(self.server, from.server),
            server_mappings: first_present(self.server_mappings, from.server_mappings),
        }
    }
}

/// The manifest name of a release type.
pub open spec fn version_type_name(t: VersionType) -> Seq<char> {
    match t {
        VersionType::Release => "release"@,
        VersionType::Snapshot => "snapshot"@,
        VersionType::OldBeta => "old_beta"@,
        VersionType::OldAlpha => "old_alpha"@,
    }
}

impl VersionType {
    /// The manifest name of the release type.
    pub fn to_string(&self) -> (r: String)
        ensures
            r@ == version_type_name(*self),
    {
        match self {
            VersionType::Release => to_owned_string("release"),
            VersionType::Snapshot => to_owned_string("snapshot"),
            VersionType::OldBeta => to_owned_string("old_beta"),
            VersionType::OldAlpha => to_owned_string("old_alpha"),
        }
    }
}

/// The manifest name of a rule action.
pub open spec fn rule_action_name(a: RuleAction) -> Seq<char> {
    match a {
        RuleAction::Allow => "allow"@,
        RuleAction::Disallow => "disallow"@,
    }
}

impl RuleAction {
    pub fn to_string(&self) -> (r: String)
        ensures
            r@ == rule_action_name(*self),
    {
        match self {
            RuleAction::Allow => to_owned_string("allow"),
            RuleAction::Disallow => to_owned_string("disallow"),
        }
    }
}

/// The name by which manifests designate an operating system.
pub open spec fn os_name(os: Os) -> Seq<char> {
    match os {
        Os::Windows => "windows"@,
        Os::MacOS => "osx"@,
        Os::Linux => "linux"@,
    }
}

/// The operating system a manifest name designates, if any.
pub open spec fn os_from_name(s: Seq<char>) -> Option<Os> {
    if s == "windows"@ {
        Some(Os::Windows)
    } else if s == "osx"@ {
        Some(Os::MacOS)
    } else if s == "linux"@ {
        Some(Os::Linux)
    } else {
        None
    }
}

impl Os {
    pub fn from_str(string: &str) -> (r: Option<Os>)
        ensures
            r == os_from_name(string@),
    {
        if str_eq(string, "windows") {
            Some(Os::Windows)
        } else if str_eq(string, "osx") {
            Some(Os::MacOS)
        } else if str_eq(string, "linux") {
            Some(Os::Linux)
        } else {
            None
        }
    }

    pub fn to_str(&self) -> (r: String)
        ensures
            r@ == os_name(*self),
    {
        match self {
            Os::Windows => to_owned_string("windows"),
            Os::MacOS => to_owned_string("osx"),
            Os::Linux => to_owned_string("linux"),
        }
    }
}

/// Reading back the name of an operating system gives that system.
pub proof fn lemma_os_name_round_trip(os: Os)
    ensures
        os_from_name(os_name(os)) == Some(os),
{
    reveal_strlit("windows");
    reveal_strlit("osx");
    reveal_strlit("linux");
    assert("windows"@.len() == 7);
    assert("osx"@.len() == 3);
    assert("linux"@.len() == 5);
}

/// The value a string table gives to `key`.
pub fn lookup_string(entries: &Vec<StringPair>, key: &str) -> (r: Option<String>)
    ensures
        r matches Some(v) ==> assoc(entries.deep_view(), key@) == Some(v@),
        r is None ==> assoc(entries.deep_view(), key@) is None,
{
    let mut i: usize = 0;
    while i < entries.len()
        invariant
            i <= entries@.len(),
            forall|k: int| 0 <= k < i ==> #[trigger] entries.deep_view()[k].0 != key@,
        decreases entries.len() - i,
    {
        if str_eq(entries[i].key.as_str(), key) {
            proof {
                lemma_assoc_found(entries.deep_view(), key@, i as int);
            }
            return Some(entries[i].value.clone());
        }
        assert(entries.deep_view()[i as int].0 == entries@[i as int].key@);
        i = i + 1;
    }
    proof {
        lemma_assoc_missing(entries.deep_view(), key@);
    }
    None
}

} // verus!
