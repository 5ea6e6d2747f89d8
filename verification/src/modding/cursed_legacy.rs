//! Cursed Legacy: a Fabric loader for Beta 1.7.3.
use crate::manifest::version::{Library, LibraryModel, Main, StringPair, VersionType};
use crate::modding::{empty_profile_model, plain_library, plain_library_model, profile};
use crate::text::{concat_str, contains_spec, contains_str, replace_spec, replace_str, str_eq, to_owned_string};
use crate::time::UtcTime;
use crate::utils::{MavVersion, MavenMetadata};
use vstd::prelude::*;

verus! {

/// Where the published loader builds are listed.
pub const LOADER_VERSIONS: &'static str = "https://storage.googleapis.com/devan-maven/io/github/minecraft-cursed-legacy/cursed-fabric-loader/maven-metadata.xml";

/// The launch class of Cursed Legacy profiles.
pub const MAIN_CLASS: &'static str = "net.fabricmc.loader.launch.knot.KnotClient";

/// The libraries every Cursed Legacy profile needs.
pub open spec fn cursed_base_libraries() -> Seq<LibraryModel> {
    seq![
        plain_library_model("net.fabricmc:tiny-mappings-parser:0.2.2.14"@, Some("https://maven.fabricmc.net/"@)),
        plain_library_model("net.fabricmc:sponge-mixin:0.8+build.18"@, Some("https://maven.fabricmc.net/"@)),
        plain_library_model("net.fabricmc:tiny-remapper:0.3.0.70"@, Some("https://maven.fabricmc.net/"@)),
        plain_library_model("net.fabricmc:fabric-loader-sat4j:2.3.5.4"@, Some("https://maven.fabricmc.net/"@)),
        plain_library_model("com.google.jimfs:jimfs:1.1"@, Some("https://maven.fabricmc.net/"@)),
        plain_library_model("org.ow2.asm:asm:9.0"@, Some("https://maven.fabricmc.net/"@)),
        plain_library_model("org.ow2.asm:asm-analysis:9.0"@, Some("https://maven.fabricmc.net/"@)),
        plain_library_model("org.ow2.asm:asm-commons:9.0"@, Some("https://maven.fabricmc.net/"@)),
        plain_library_model("org.ow2.asm:asm-tree:9.0"@, Some("https://maven.fabricmc.net/"@)),
        plain_library_model("org.ow2.asm:asm-util:9.0"@, Some("https://maven.fabricmc.net/"@)),
        plain_library_model("org.apache.logging.log4j:log4j-api:2.8.1"@, None),
        plain_library_model("org.apache.logging.log4j:log4j-core:2.8.1"@, None),
        plain_library_model("com.google.code.gson:gson:2.8.6"@, Some("https://repo1.maven.org/maven2/"@)),
        plain_library_model("net.fabricmc:access-widener:1.0.0"@, Some("https://maven.fabricmc.net/"@)),
        plain_library_model("com.google.guava:guava:21.0"@, Some("https://maven.fabricmc.net/"@)),
        plain_library_model("io.github.minecraft-cursed-legacy:Plasma:b1.7.3-build.19"@, Some("https://storage.googleapis.com/devan-maven/"@)),
    ]
}

/// The libraries of a profile: the common ones and the loader build.
pub open spec fn cursed_libraries(loader_version: Seq<char>) -> Seq<LibraryModel> {
    cursed_base_libraries().push(
        plain_library_model(
            "io.github.minecraft-cursed-legacy:cursed-fabric-loader:"@ + loader_version,
            Some("https://storage.googleapis.com/devan-maven/"@),
        ),
    )
}

/// The profile name for a game version; the loader build stays a
/// `{loader_version}` placeholder.
pub open spec fn cursed_profile_name(mc: Seq<char>) -> Seq<char> {
    "cursed-fabric-loader-{loader_version}-"@ + mc
}

/// The profile name for a loader build: that of the game version with any
/// `${loader_version}` in it replaced by the build.
pub open spec fn cursed_loader_profile_name(mc: Seq<char>, loader_version: Seq<char>) -> Seq<char> {
    replace_spec(cursed_profile_name(mc), "${loader_version}"@, loader_version)
}

/// The date shown beside a loader build: the publication date for the
/// current release, `Unknown` for the others.
pub open spec fn build_date(v: Seq<char>, release: Seq<char>, last_updated: Seq<char>) -> Seq<char> {
    if v == release {
        last_updated
    } else {
        "Unknown"@
    }
}

/// The builds listed from the metadata's versions, taken from the last one
/// down to the `k`-th: each build whose name does not contain `local` and
/// that is not listed yet, with its date.
pub open spec fn cursed_builds(
    vs: Seq<MavVersion>,
    k: int,
    release: Seq<char>,
    last_updated: Seq<char>,
) -> Seq<(Seq<char>, Seq<char>)>
    decreases vs.len() - k,
{
    if k < 0 || k >= vs.len() {
        seq![]
    } else {
        let r = cursed_builds(vs, k + 1, release, last_updated);
        let b = vs[k].body@;
        if !contains_spec(b, "local"@) && !has_key(r, b) {
            r.push((b, build_date(b, release, last_updated)))
        } else {
            r
        }
    }
}

/// The keys of a table are pairwise distinct.
pub open spec fn distinct_keys(t: Seq<(Seq<char>, Seq<char>)>) -> bool {
    forall|i: int, j: int| 0 <= i < j < t.len() ==> #[trigger] t[i].0 != #[trigger] t[j].0
}

/// The table has a key `k`.
pub open spec fn has_key(t: Seq<(Seq<char>, Seq<char>)>, k: Seq<char>) -> bool {
    exists|i: int| 0 <= i < t.len() && #[trigger] t[i].0 == k
}

pub fn contains_key(t: &Vec<StringPair>, key: &str) -> (r: bool)
    ensures
        r == has_key(t.deep_view(), key@),
{
    let mut i: usize = 0;
    while i < t.len()
        invariant
            i <= t@.len(),
            forall|k: int| 0 <= k < i ==> #[trigger] t.deep_view()[k].0 != key@,
        decreases t.len() - i,
    {
        assert(t.deep_view()[i as int].0 == t@[i as int].key@);
        if str_eq(t[i].key.as_str(), key) {
            return true;
        }
        i = i + 1;
    }
    false
}

fn base_libraries() -> (libs: Vec<Library>)
    ensures
        libs.deep_view() == cursed_base_libraries(),
{
    let mut libs: Vec<Library> = Vec::new();
    libs.push(plain_library(to_owned_string("net.fabricmc:tiny-mappings-parser:0.2.2.14"), Some(to_owned_string("https://maven.fabricmc.net/"))));
    libs.push(plain_library(to_owned_string("net.fabricmc:sponge-mixin:0.8+build.18"), Some(to_owned_string("https://maven.fabricmc.net/"))));
    libs.push(plain_library(to_owned_string("net.fabricmc:tiny-remapper:0.3.0.70"), Some(to_owned_string("https://maven.fabricmc.net/"))));
    libs.push(plain_library(to_owned_string("net.fabricmc:fabric-loader-sat4j:2.3.5.4"), Some(to_owned_string("https://maven.fabricmc.net/"))));
    libs.push(plain_library(to_owned_string("com.google.jimfs:jimfs:1.1"), Some(to_owned_string("https://maven.fabricmc.net/"))));
    libs.push(plain_library(to_owned_string("org.ow2.asm:asm:9.0"), Some(to_owned_string("https://maven.fabricmc.net/"))));
    libs.push(plain_library(to_owned_string("org.ow2.asm:asm-analysis:9.0"), Some(to_owned_string("https://maven.fabricmc.net/"))));
    libs.push(plain_library(to_owned_string("org.ow2.asm:asm-commons:9.0"), Some(to_owned_string("https://maven.fabricmc.net/"))));
    libs.push(plain_library(to_owned_string("org.ow2.asm:asm-tree:9.0"), Some(to_owned_string("https://maven.fabricmc.net/"))));
    libs.push(plain_library(to_owned_string("org.ow2.asm:asm-util:9.0"), Some(to_owned_string("https://maven.fabricmc.net/"))));
    libs.push(plain_library(to_owned_string("org.apache.logging.log4j:log4j-api:2.8.1"), None));
    libs.push(plain_library(to_owned_string("org.apache.logging.log4j:log4j-core:2.8.1"), None));
    libs.push(plain_library(to_owned_string("com.google.code.gson:gson:2.8.6"), Some(to_owned_string("https://repo1.maven.org/maven2/"))));
    libs.push(plain_library(to_owned_string("net.fabricmc:access-widener:1.0.0"), Some(to_owned_string("https://maven.fabricmc.net/"))));
    libs.push(plain_library(to_owned_string("com.google.guava:guava:21.0"), Some(to_owned_string("https://maven.fabricmc.net/"))));
    libs.push(plain_library(to_owned_string("io.github.minecraft-cursed-legacy:Plasma:b1.7.3-build.19"), Some(to_owned_string("https://storage.googleapis.com/devan-maven/"))));
    assert(libs.deep_view() =~= cursed_base_libraries());
    libs
}

/// The builds listed for repository metadata `m`: once each, none whose
/// name contains `local`, every such build of the metadata, each with its
/// date.
pub open spec fn cursed_builds_listed(r: Seq<(Seq<char>, Seq<char>)>, m: MavenMetadata) -> bool {
    &&& r == cursed_builds(
        m.versioning.versions.version@,
        0,
        m.versioning.release@,
        m.versioning.last_updated@,
    )
    &&& (distinct_keys(r))
    &&& (forall|i: int|
                0 <= i < r.len() ==> {
                    let k = #[trigger] r[i].0;
                    &&& !contains_spec(k, "local"@)
                    &&& exists|j: int|
                        0 <= j < m.versioning.versions.version@.len()
                            && m.versioning.versions.version@[j].body@ == k
                    &&& r[i].1 == build_date(
                        k,
                        m.versioning.release@,
                        m.versioning.last_updated@,
                    )
                })
    &&& (forall|j: int|
                0 <= j < m.versioning.versions.version@.len() && !contains_spec(
                    #[trigger] m.versioning.versions.version@[j].body@,
                    "local"@,
                ) ==> has_key(r, m.versioning.versions.version@[j].body@))
}

#[derive(Clone, Copy, PartialEq, Eq, Structural)]
pub struct CursedLegacyInstaller {}

impl CursedLegacyInstaller {
    pub fn get_name(&self) -> (r: String)
        ensures
            r@ == "Cursed Legacy"@,
    {
        to_owned_string("Cursed Legacy")
    }

    /// Cursed Legacy exists for Beta 1.7.3 only.
    pub fn get_compatible_versions(&self) -> (r: Vec<String>)
        ensures
            r.deep_view() == seq!["b1.7.3"@],
    {
        let mut versions: Vec<String> = Vec::new();
        versions.push(to_owned_string("b1.7.3"));
        assert(versions.deep_view() =~= seq!["b1.7.3"@]);
        versions
    }

    /// The loader builds listed in the repository metadata, with their
    /// dates: every build whose name does not contain `local`, once each.
    pub fn get_loader_versions(&self, metadata: &MavenMetadata) -> (r: Vec<StringPair>)
        ensures
            cursed_builds_listed(r.deep_view(), *metadata),
    {
        let versions = &metadata.versioning.versions.version;
        let release = &metadata.versioning.release;
        let last_updated = &metadata.versioning.last_updated;
        let mut out: Vec<StringPair> = Vec::new();
        let mut i: usize = versions.len();
        while i > 0
            invariant
                i <= versions@.len(),
                out.deep_view() == cursed_builds(versions@, i as int, release@, last_updated@),
                distinct_keys(out.deep_view()),
                forall|a: int|
                    0 <= a < out@.len() ==> {
                        let k = #[trigger] out.deep_view()[a].0;
                        &&& !contains_spec(k, "local"@)
                        &&& exists|j: int| 0 <= j < versions@.len() && versions@[j].body@ == k
                        &&& out.deep_view()[a].1 == build_date(k, release@, last_updated@)
                    },
                forall|j: int|
                    i <= j < versions@.len() && !contains_spec(#[trigger] versions@[j].body@, "local"@)
                        ==> has_key(out.deep_view(), versions@[j].body@),
            decreases i,
        {
            i = i - 1;
            let body = &versions[i].body;
            if !contains_str(body.as_str(), "local") && !contains_key(&out, body.as_str()) {
                let date = if str_eq(body.as_str(), release.as_str()) {
                    last_updated.clone()
                } else {
                    to_owned_string("Unknown")
                };
                let ghost before = out.deep_view();
                out.push(StringPair { key: body.clone(), value: date });
                assert(out.deep_view() =~= before.push((body@, build_date(body@, release@, last_updated@))));
                assert forall|j: int|
                    i <= j < versions@.len() && !contains_spec(#[trigger] versions@[j].body@, "local"@)
                        implies has_key(out.deep_view(), versions@[j].body@) by {
                    if j == i {
                        assert(out.deep_view()[before.len() as int].0 == body@);
                    } else {
                        let w = choose|w: int| 0 <= w < before.len() && #[trigger] before[w].0 == versions@[j].body@;
                        assert(out.deep_view()[w].0 == before[w].0);
                    }
                }
            }
        }
        out
    }

    pub fn save_compatible_loader_versions(&self) -> (r: bool)
        ensures
            r,
    {
        true
    }

    pub fn get_profile_name_for_mc_version(&self, mc_version: String) -> (r: String)
        ensures
            r@ == cursed_profile_name(mc_version@),
    {
        concat_str("cursed-fabric-loader-{loader_version}-", mc_version.as_str())
    }

    pub fn get_profile_name_for_loader_version(&self, mc_version: String, loader_version: String) -> (r: String)
        ensures
            r@ == cursed_loader_profile_name(mc_version@, loader_version@),
    {
        proof {
            reveal_strlit("${loader_version}");
        }
        let name = self.get_profile_name_for_mc_version(mc_version);
        replace_str(name.as_str(), "${loader_version}", loader_version.as_str())
    }

    /// The Cursed Legacy profile for a game version and loader build, dated
    /// `now`.
    pub fn create_profile(&self, mc_version: String, loader_version: String, now: UtcTime) -> (r: Result<Main, String>)
        ensures
            r matches Ok(m) && m.deep_view() == empty_profile_model(
                cursed_loader_profile_name(mc_version@, loader_version@),
                cursed_libraries(loader_version@),
                MAIN_CLASS@,
                now,
                VersionType::OldBeta,
                mc_version@,
            ),
    {
        let id = self.get_profile_name_for_loader_version(mc_version.clone(), loader_version.clone());
        let mut libs = base_libraries();
        libs.push(
            plain_library(
                concat_str("io.github.minecraft-cursed-legacy:cursed-fabric-loader:", loader_version.as_str()),
                Some(to_owned_string("https://storage.googleapis.com/devan-maven/")),
            ),
        );
        assert(libs.deep_view() =~= cursed_libraries(loader_version@));
        Ok(profile(id, libs, to_owned_string(MAIN_CLASS), now, VersionType::OldBeta, mc_version))
    }
}

} // verus!
