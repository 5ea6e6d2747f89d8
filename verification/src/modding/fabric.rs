//! Fabric: profiles served by the Fabric meta server.
use crate::manifest::version::StringPair;
use crate::modding::cursed_legacy::{contains_key, distinct_keys, has_key};
use crate::text::{concat_str, replace_spec, replace_str, to_owned_string};
use vstd::prelude::*;

verus! {

/// Where the game versions Fabric supports are listed.
pub const MC_VERSIONS: &'static str = "https://meta.fabricmc.net/v2/versions/game";

pub const LOADER_VERSIONS: &'static str = "https://meta.fabricmc.net/v2/versions/loader/:game_version";

pub const JSON_PROFILE: &'static str = "https://meta.fabricmc.net/v2/versions/loader/:game_version/:loader_version/profile/json";

pub const PROFILE_NAMING: &'static str = "fabric-loader-{loader_version}-{mc_version}";

/// A game version in the Fabric list.
pub struct VersionInfo {
    pub version: String,
    pub stable: bool,
}

/// A loader build in the Fabric list.
pub struct LoaderVersionInfo {
    pub loader: LoaderInfo,
}

pub struct LoaderInfo {
    pub version: String,
}

/// The builds of the first `n` entries of the downloaded list, in order,
/// each once, of unknown date.
pub open spec fn fabric_builds(l: Seq<LoaderVersionInfo>, n: int) -> Seq<(Seq<char>, Seq<char>)>
    decreases n,
{
    if n <= 0 || n > l.len() {
        seq![]
    } else {
        let r = fabric_builds(l, n - 1);
        let v = l[n - 1].loader.version@;
        if has_key(r, v) {
            r
        } else {
            r.push((v, "Unknown"@))
        }
    }
}

/// The builds listed for the downloaded list `l`: once each, each of the
/// list, every one of the list, all of unknown date.
pub open spec fn fabric_builds_listed(r: Seq<(Seq<char>, Seq<char>)>, l: Seq<LoaderVersionInfo>) -> bool {
    &&& r == fabric_builds(l, l.len() as int)
    &&& distinct_keys(r)
    &&& forall|i: int|
        0 <= i < r.len() ==> (#[trigger] r[i]).1 == "Unknown"@ && exists|j: int|
            0 <= j < l.len() && l[j].loader.version@ == r[i].0
    &&& forall|j: int| 0 <= j < l.len() ==> has_key(r, #[trigger] l[j].loader.version@)
}

#[derive(Clone, Copy, PartialEq, Eq, Structural)]
pub struct FabricInstaller {}

impl FabricInstaller {
    pub fn new() -> (r: FabricInstaller)
        ensures
            r == (FabricInstaller {}),
    {
        FabricInstaller {  }
    }

    pub fn get_name(&self) -> (r: String)
        ensures
            r@ == "Fabric"@,
    {
        to_owned_string("Fabric")
    }

    /// The game versions of the downloaded Fabric list, in its order.
    pub fn get_compatible_versions(&self, version_list: &Vec<VersionInfo>) -> (r: Vec<String>)
        ensures
            r@.len() == version_list@.len(),
            forall|i: int| 0 <= i < r@.len() ==> #[trigger] r@[i]@ == version_list@[i].version@,
    {
        let mut versions: Vec<String> = Vec::new();
        let mut i: usize = 0;
        while i < version_list.len()
            invariant
                i <= version_list@.len(),
                versions@.len() == i,
                forall|k: int| 0 <= k < i ==> #[trigger] versions@[k]@ == version_list@[k].version@,
            decreases version_list.len() - i,
        {
            versions.push(version_list[i].version.clone());
            i = i + 1;
        }
        versions
    }

    pub fn save_compatible_versions(&self) -> (r: bool)
        ensures
            r,
    {
        true
    }

    /// Where the loader builds for a game version are listed.
    pub fn loader_versions_url(&self, mc_version: &str) -> (r: String)
        ensures
            r@ == replace_spec(LOADER_VERSIONS@, ":game_version"@, mc_version@),
    {
        proof {
            reveal_strlit(":game_version");
        }
        replace_str(LOADER_VERSIONS, ":game_version", mc_version)
    }

    /// The loader builds of the downloaded list, once each, of unknown date.
    pub fn get_loader_versions(&self, version_list: &Vec<LoaderVersionInfo>) -> (r: Vec<StringPair>)
        ensures
            fabric_builds_listed(r.deep_view(), version_list@),
    {
        let mut out: Vec<StringPair> = Vec::new();
        let mut i: usize = 0;
        while i < version_list.len()
            invariant
                i <= version_list@.len(),
                out.deep_view() == fabric_builds(version_list@, i as int),
                distinct_keys(out.deep_view()),
                forall|a: int|
                    0 <= a < out@.len() ==> (#[trigger] out.deep_view()[a]).1 == "Unknown"@ && exists|j: int|
                        0 <= j < version_list@.len() && version_list@[j].loader.version@ == out.deep_view()[a].0,
                forall|j: int| 0 <= j < i ==> has_key(out.deep_view(), #[trigger] version_list@[j].loader.version@),
            decreases version_list.len() - i,
        {
            let v = &version_list[i].loader.version;
            if !contains_key(&out, v.as_str()) {
                let ghost before = out.deep_view();
                out.push(StringPair { key: v.clone(), value: to_owned_string("Unknown") });
                assert(out.deep_view() =~= before.push((v@, "Unknown"@)));
                assert forall|j: int| 0 <= j < i + 1 implies has_key(out.deep_view(), #[trigger] version_list@[j].loader.version@) by {
                    if j == i {
                        assert(out.deep_view()[before.len() as int].0 == v@);
                    } else {
                        let w = choose|w: int| 0 <= w < before.len() && #[trigger] before[w].0 == version_list@[j].loader.version@;
                        assert(out.deep_view()[w].0 == before[w].0);
                    }
                }
            }
            i = i + 1;
        }
        out
    }

    pub fn save_compatible_loader_versions(&self) -> (r: bool)
        ensures
            r,
    {
        true
    }

    pub fn get_profile_name_for_mc_version(&self, mc_version: String) -> (r: String)
        ensures
            r@ == replace_spec(PROFILE_NAMING@, "{mc_version}"@, mc_version@),
    {
        proof {
            reveal_strlit("{mc_version}");
        }
        replace_str(PROFILE_NAMING, "{mc_version}", mc_version.as_str())
    }

    pub fn get_profile_name_for_loader_version(&self, mc_version: String, loader_version: String) -> (r: String)
        ensures
            r@ == replace_spec(
                replace_spec(PROFILE_NAMING@, "{mc_version}"@, mc_version@),
                "{loader_version}"@,
                loader_version@,
            ),
    {
        proof {
            reveal_strlit("{loader_version}");
        }
        let name = self.get_profile_name_for_mc_version(mc_version);
        replace_str(name.as_str(), "{loader_version}", loader_version.as_str())
    }

    /// Where the profile of a game version and loader build is served.
    pub fn profile_url(&self, mc_version: &str, loader_version: &str) -> (r: String)
        ensures
            r@ == replace_spec(
                replace_spec(JSON_PROFILE@, ":game_version"@, mc_version@),
                ":loader_version"@,
                loader_version@,
            ),
    {
        proof {
            reveal_strlit(":game_version");
            reveal_strlit(":loader_version");
        }
        let url = replace_str(JSON_PROFILE, ":game_version", mc_version);
        replace_str(url.as_str(), ":loader_version", loader_version)
    }
}

} // verus!
