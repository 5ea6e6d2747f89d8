//! Preparing the natives of a version before it is launched.
use crate::arguments::{Environment, get_os, match_rules, os_of, rules_verdict};
use crate::manifest::version::{
    ArtifactModel, Classifier, Library, LibraryDownloadArtifact, LibraryModel, RuleAction, Rule,
    lookup_string, os_name,
};
use crate::install::classifiers_of;
use crate::text::{assoc, concat_str, lemma_assoc_found, lemma_assoc_missing, str_eq};
use crate::app::download_tab::{Message, MessageModel};
use crate::manifest::version::Main;
use vstd::prelude::*;

verus! {

/// An archive of native libraries to unpack into the version's `bin`
/// folder, and the entries to leave out.
pub struct NativeExtraction {
    pub library_path: String,
    pub exclude: Option<Vec<String>>,
}

/// The native archive of a library for this operating system: the library
/// is allowed by its rules (no rules allow it), it names a native classifier
/// for this system, and it provides that classifier.
pub open spec fn native_extraction_model(
    lib: LibraryModel,
    os: Seq<char>,
    arch: Seq<char>,
    os_version: Option<(u64, u64, u64)>,
) -> Option<(Seq<char>, Option<Seq<Seq<char>>>)> {
    let rules = match lib.rules {
        Some(r) => r,
        None => seq![],
    };
    if rules_verdict(rules, None, os, arch, os_version) != RuleAction::Allow {
        None
    } else {
        match lib.natives {
            None => None,
            Some(n) => match assoc(n, os_name(os_of(os))) {
                None => None,
                Some(native_name) => match assoc(classifiers_of(lib), native_name) {
                    None => None,
                    Some(a) => Some((a.path, lib.extract)),
                },
            },
        }
    }
}

fn find_classifier(entries: &Vec<Classifier>, key: &str) -> (r: Option<usize>)
    ensures
        r matches Some(i) ==> (i < entries@.len() && assoc(entries.deep_view(), key@) == Some(
            entries@[i as int].artifact.deep_view(),
        )),
        r is None ==> assoc(entries.deep_view(), key@) is None,
{
    let mut i: usize = 0;
    while i < entries.len()
        invariant
            i <= entries@.len(),
            forall|k: int| 0 <= k < i ==> #[trigger] entries.deep_view()[k].0 != key@,
        decreases entries.len() - i,
    {
        if str_eq(entries[i].name.as_str(), key) {
            proof {
                lemma_assoc_found(entries.deep_view(), key@, i as int);
            }
            return Some(i);
        }
        assert(entries.deep_view()[i as int].0 == entries@[i as int].name@);
        i = i + 1;
    }
    proof {
        lemma_assoc_missing(entries.deep_view(), key@);
    }
    None
}

/// The native archive of a library to unpack, if any (see
/// `native_extraction_model`).
pub fn native_extraction(library: &Library, env: &Environment) -> (r: Option<NativeExtraction>)
    ensures
        r matches Some(x) ==> native_extraction_model(
            library.deep_view(),
            env.os@,
            env.arch@,
            env.os_version,
        ) == Some((x.library_path@, x.exclude.deep_view())),
        r is None ==> native_extraction_model(
            library.deep_view(),
            env.os@,
            env.arch@,
            env.os_version,
        ) is None,
{
    let empty: Vec<Rule> = Vec::new();
    let verdict = match &library.rules {
        None => {
            assert(empty.deep_view() =~= Seq::<crate::manifest::version::RuleModel>::empty());
            match_rules(&empty, None, env)
        },
        Some(rules) => match_rules(rules, None, env),
    };
    match verdict {
        RuleAction::Disallow => None,
        RuleAction::Allow => match &library.natives {
            None => None,
            Some(natives) => {
                let os = get_os(env).to_str();
                match lookup_string(natives, os.as_str()) {
                    None => None,
                    Some(native_name) => match &library.downloads {
                        None => None,
                        Some(d) => match &d.classifiers {
                            None => None,
                            Some(c) => match find_classifier(c, native_name.as_str()) {
                                None => None,
                                Some(i) => {
                                    let exclude = match &library.extract {
                                        None => None,
                                        Some(extract) => {
                                            let e = extract.exclude.clone();
                                            assert(e.deep_view() =~= extract.exclude.deep_view());
                                            Some(e)
                                        },
                                    };
                                    Some(
                                        NativeExtraction {
                                            library_path: c[i].artifact.path.clone(),
                                            exclude,
                                        },
                                    )
                                },
                            },
                        },
                    },
                }
            },
        },
    }
}

/// An archive entry is left out when its name, or its name followed by `/`,
/// is in the exclusion list.
pub open spec fn excluded_model(name: Seq<char>, excludes: Seq<Seq<char>>) -> bool {
    excludes.contains(name) || excludes.contains(name + "/"@)
}

pub fn is_excluded(name: &str, excludes: &Vec<String>) -> (r: bool)
    ensures
        r == excluded_model(name@, excludes.deep_view()),
{
    let with_slash = concat_str(name, "/");
    let mut i: usize = 0;
    while i < excludes.len()
        invariant
            i <= excludes@.len(),
            with_slash@ == name@ + "/"@,
            forall|k: int|
                0 <= k < i ==> #[trigger] excludes.deep_view()[k] != name@ && excludes.deep_view()[k]
                    != with_slash@,
        decreases excludes.len() - i,
    {
        assert(excludes.deep_view()[i as int] == excludes@[i as int]@);
        if str_eq(excludes[i].as_str(), name) || str_eq(excludes[i].as_str(), with_slash.as_str()) {
            return true;
        }
        i = i + 1;
    }
    false
}

/// A native archive to unpack, with its report: the archive's path, the
/// library's position counted from one, and the number of libraries.
pub struct NativeStep {
    pub progress: Message,
    pub extraction: NativeExtraction,
}

/// The natives step for the first `n` libraries: the library positions
/// (from zero) that have a native archive for this system, in order.
pub open spec fn native_positions(
    libs: Seq<LibraryModel>,
    n: nat,
    os: Seq<char>,
    arch: Seq<char>,
    os_version: Option<(u64, u64, u64)>,
) -> Seq<int>
    decreases n,
{
    if n == 0 {
        seq![]
    } else {
        let rest = native_positions(libs, (n - 1) as nat, os, arch, os_version);
        if native_extraction_model(libs[n - 1], os, arch, os_version) is Some {
            rest.push(n - 1)
        } else {
            rest
        }
    }
}

/// The natives step before a launch: reported as step seven, then each
/// library with a native archive for this system is unpacked in turn (see
/// `native_extraction_model`), then step eight is reported.
pub fn pre_launch(manifest: &Main, env: &Environment) -> (r: (Message, Vec<NativeStep>, Message))
    ensures
        r.0.deep_view() == MessageModel::NewStep(7),
        r.2.deep_view() == MessageModel::NewStep(8),
        ({
            let libs = manifest.libraries.deep_view();
            let pos = native_positions(libs, libs.len(), env.os@, env.arch@, env.os_version);
            &&& r.1@.len() == pos.len()
            &&& forall|k: int|
                0 <= k < pos.len() ==> {
                    let x = native_extraction_model(libs[pos[k]], env.os@, env.arch@, env.os_version)->0;
                    &&& (#[trigger] r.1@[k]).extraction.library_path@ == x.0
                    &&& r.1@[k].extraction.exclude.deep_view() == x.1
                    &&& r.1@[k].progress.deep_view() == MessageModel::NewSubStep(
                        x.0,
                        (pos[k] + 1) as u64,
                        libs.len() as u64,
                    )
                }
        }),
{
    let libs = &manifest.libraries;
    let count: usize = libs.len();
    let mut steps: Vec<NativeStep> = Vec::new();
    let mut i: usize = 0;
    while i < count
        invariant
            i <= count,
            count == libs@.len(),
            libs == &manifest.libraries,
            ({
                let lv = libs.deep_view();
                let pos = native_positions(lv, i as nat, env.os@, env.arch@, env.os_version);
                &&& steps@.len() == pos.len()
                &&& forall|k: int| 0 <= k < pos.len() ==> 0 <= #[trigger] pos[k] < i
                &&& forall|k: int|
                    0 <= k < pos.len() ==> {
                        let x = native_extraction_model(lv[pos[k]], env.os@, env.arch@, env.os_version)->0;
                        &&& (#[trigger] steps@[k]).extraction.library_path@ == x.0
                        &&& steps@[k].extraction.exclude.deep_view() == x.1
                        &&& steps@[k].progress.deep_view() == MessageModel::NewSubStep(
                            x.0,
                            (pos[k] + 1) as u64,
                            count as u64,
                        )
                    }
            }),
        decreases count - i,
    {
        assert(libs.deep_view()[i as int] == libs@[i as int].deep_view());
        match native_extraction(&libs[i], env) {
            None => {},
            Some(x) => {
                let shown: usize = i + 1;
                let path = x.library_path.clone();
                steps.push(NativeStep { progress: Message::NewSubStep(path, shown as u64, count as u64), extraction: x });
            },
        }
        i = i + 1;
    }
    (Message::NewStep(7), steps, Message::NewStep(8))
}

} // verus!
