//! LiteLoader profiles, for the versions LiteLoader was published for.
use crate::manifest::version::{Library, LibraryModel, Main, MainModel, StringPair, VersionType};
use crate::modding::{plain_library, plain_library_model, empty_profile_model, profile};
use crate::text::{concat_str, str_eq, to_owned_string};
use crate::time::UtcTime;
use vstd::prelude::*;

verus! {

/// The repository of the LiteLoader jars.
pub const MAVEN: &'static str = "http://dl.liteloader.com/versions/";

/// The launch class of LiteLoader profiles.
pub const MAIN_CLASS: &'static str = "net.minecraft.launchwrapper.Launch";

/// Launch arguments of LiteLoader profiles.
pub const ARGS_VERSION_TYPE: &'static str = "--username ${auth_player_name} --version ${version_name} --gameDir ${game_directory} --assetsDir ${assets_root} --assetIndex ${assets_index_name} --uuid ${auth_uuid} --accessToken ${auth_access_token} --userType ${user_type} --versionType ${version_type} --tweakClass com.mumfrey.liteloader.launch.LiteLoaderTweaker";

/// Launch arguments of LiteLoader profiles.
pub const ARGS_USER_PROPERTIES: &'static str = "--username ${auth_player_name} --version ${version_name} --gameDir ${game_directory} --assetsDir ${assets_root} --assetIndex ${assets_index_name} --uuid ${auth_uuid} --accessToken ${auth_access_token} --userProperties ${user_properties} --userType ${user_type} --tweakClass com.mumfrey.liteloader.launch.LiteLoaderTweaker";

/// Launch arguments of LiteLoader profiles.
pub const ARGS_LEGACY_ASSETS: &'static str = "--username ${auth_player_name} --version ${version_name} --gameDir ${game_directory} --assetsDir ${game_assets} --uuid ${auth_uuid} --accessToken ${auth_access_token} --tweakClass com.mumfrey.liteloader.launch.LiteLoaderTweaker";

/// Launch arguments of LiteLoader profiles.
pub const ARGS_SESSION_VERSION: &'static str = "--username ${auth_player_name} --session ${auth_session} --version ${version_name} --gameDir ${game_directory} --assetsDir ${game_assets} --tweakClass com.mumfrey.liteloader.launch.LiteLoaderTweaker";

/// Launch arguments of LiteLoader profiles.
pub const ARGS_SESSION: &'static str = "--username ${auth_player_name} --session ${auth_session} --gameDir ${game_directory} --assetsDir ${game_assets} --tweakClass com.mumfrey.liteloader.launch.LiteLoaderTweaker";

/// Launch arguments of LiteLoader profiles.
pub const ARGS_OLDEST: &'static str = "${auth_player_name} ${auth_session} --gameDir ${game_directory} --assetsDir ${game_assets} --tweakClass com.mumfrey.liteloader.launch.LiteLoaderTweaker";

/// What LiteLoader needs for one game version: whether its jar is a
/// release, the launch wrapper, LZMA, ASM and Guava libraries (empty when
/// not needed) and the launch arguments.
pub struct LiteVersion {
    pub mc: &'static str,
    pub release: bool,
    pub launchwrapper: &'static str,
    pub lzma: &'static str,
    pub asm_lib: &'static str,
    pub guava: &'static str,
    pub args: &'static str,
}

pub struct LiteVersionModel {
    pub mc: Seq<char>,
    pub release: bool,
    pub launchwrapper: Seq<char>,
    pub lzma: Seq<char>,
    pub asm_lib: Seq<char>,
    pub guava: Seq<char>,
    pub args: Seq<char>,
}

impl DeepView for LiteVersion {
    type V = LiteVersionModel;

    open spec fn deep_view(&self) -> LiteVersionModel {
        LiteVersionModel {
            mc: self.mc@,
            release: self.release,
            launchwrapper: self.launchwrapper@,
            lzma: self.lzma@,
            asm_lib: self.asm_lib@,
            guava: self.guava@,
            args: self.args@,
        }
    }
}

/// The game versions LiteLoader supports, newest first.
pub open spec fn lite_versions_model() -> Seq<Seq<char>> {
    seq!["1.12.2"@, "1.12.1"@, "1.12"@, "1.11.2"@, "1.11"@, "1.10.2"@, "1.10"@, "1.9.4"@, "1.9"@, "1.8.9"@, "1.8"@, "1.7.10"@, "1.7.2"@, "1.6.4"@, "1.6.2"@, "1.5.2"@]
}

/// The LiteLoader entry of a game version.
pub open spec fn lite_entry_model(mc: Seq<char>) -> Option<LiteVersionModel> {
    if mc == "1.12.2"@ {
        Some(LiteVersionModel { mc: "1.12.2"@, release: false, launchwrapper: "net.minecraft:launchwrapper:1.12"@, lzma: ""@, asm_lib: "org.ow2.asm:asm-all:5.2"@, guava: ""@, args: ARGS_VERSION_TYPE@ })
    } else if mc == "1.12.1"@ {
        Some(LiteVersionModel { mc: "1.12.1"@, release: false, launchwrapper: "net.minecraft:launchwrapper:1.12"@, lzma: ""@, asm_lib: "org.ow2.asm:asm-all:5.0.3"@, guava: ""@, args: ARGS_VERSION_TYPE@ })
    } else if mc == "1.12"@ {
        Some(LiteVersionModel { mc: "1.12"@, release: false, launchwrapper: "net.minecraft:launchwrapper:1.12"@, lzma: ""@, asm_lib: "org.ow2.asm:asm-all:5.0.3"@, guava: ""@, args: ARGS_VERSION_TYPE@ })
    } else if mc == "1.11.2"@ {
        Some(LiteVersionModel { mc: "1.11.2"@, release: false, launchwrapper: "net.minecraft:launchwrapper:1.12"@, lzma: ""@, asm_lib: "org.ow2.asm:asm-all:5.0.3"@, guava: ""@, args: ARGS_VERSION_TYPE@ })
    } else if mc == "1.11"@ {
        Some(LiteVersionModel { mc: "1.11"@, release: false, launchwrapper: "net.minecraft:launchwrapper:1.12"@, lzma: ""@, asm_lib: "org.ow2.asm:asm-all:5.0.3"@, guava: ""@, args: ARGS_VERSION_TYPE@ })
    } else if mc == "1.10.2"@ {
        Some(LiteVersionModel { mc: "1.10.2"@, release: true, launchwrapper: "net.minecraft:launchwrapper:1.12"@, lzma: ""@, asm_lib: "org.ow2.asm:asm-all:5.0.3"@, guava: ""@, args: ARGS_VERSION_TYPE@ })
    } else if mc == "1.10"@ {
        Some(LiteVersionModel { mc: "1.10"@, release: false, launchwrapper: "net.minecraft:launchwrapper:1.12"@, lzma: ""@, asm_lib: "org.ow2.asm:asm-all:5.0.3"@, guava: ""@, args: ARGS_VERSION_TYPE@ })
    } else if mc == "1.9.4"@ {
        Some(LiteVersionModel { mc: "1.9.4"@, release: true, launchwrapper: "net.minecraft:launchwrapper:1.12"@, lzma: ""@, asm_lib: "org.ow2.asm:asm-all:5.0.3"@, guava: ""@, args: ARGS_VERSION_TYPE@ })
    } else if mc == "1.9"@ {
        Some(LiteVersionModel { mc: "1.9"@, release: false, launchwrapper: "net.minecraft:launchwrapper:1.12"@, lzma: ""@, asm_lib: "org.ow2.asm:asm-all:5.0.3"@, guava: ""@, args: ARGS_VERSION_TYPE@ })
    } else if mc == "1.8.9"@ {
        Some(LiteVersionModel { mc: "1.8.9"@, release: false, launchwrapper: "net.minecraft:launchwrapper:1.12"@, lzma: ""@, asm_lib: "org.ow2.asm:asm-all:5.0.3"@, guava: ""@, args: ARGS_USER_PROPERTIES@ })
    } else if mc == "1.8"@ {
        Some(LiteVersionModel { mc: "1.8"@, release: true, launchwrapper: "net.minecraft:launchwrapper:1.11"@, lzma: ""@, asm_lib: "org.ow2.asm:asm-all:5.0.3"@, guava: ""@, args: ARGS_USER_PROPERTIES@ })
    } else if mc == "1.7.10"@ {
        Some(LiteVersionModel { mc: "1.7.10"@, release: true, launchwrapper: "net.minecraft:launchwrapper:1.11"@, lzma: ""@, asm_lib: "org.ow2.asm:asm-all:5.0.3"@, guava: "com.google.guava:guava:16.0"@, args: ARGS_USER_PROPERTIES@ })
    } else if mc == "1.7.2"@ {
        Some(LiteVersionModel { mc: "1.7.2"@, release: true, launchwrapper: "net.minecraft:launchwrapper:1.9"@, lzma: ""@, asm_lib: "org.ow2.asm:asm-all:4.1"@, guava: ""@, args: ARGS_LEGACY_ASSETS@ })
    } else if mc == "1.6.4"@ {
        Some(LiteVersionModel { mc: "1.6.4"@, release: true, launchwrapper: "net.minecraft:launchwrapper:1.8"@, lzma: "lzma:lzma:0.0.1"@, asm_lib: ""@, guava: ""@, args: ARGS_SESSION_VERSION@ })
    } else if mc == "1.6.2"@ {
        Some(LiteVersionModel { mc: "1.6.2"@, release: true, launchwrapper: "net.minecraft:launchwrapper:1.3"@, lzma: "lzma:lzma:0.0.1"@, asm_lib: ""@, guava: ""@, args: ARGS_SESSION@ })
    } else if mc == "1.5.2"@ {
        Some(LiteVersionModel { mc: "1.5.2"@, release: true, launchwrapper: ""@, lzma: ""@, asm_lib: ""@, guava: ""@, args: ARGS_OLDEST@ })
    } else {
        None
    }
}

/// LiteLoader has an entry exactly for the game versions it lists as
/// supported: a profile can be built for a version if and only if it is
/// offered for it.
pub proof fn lemma_lite_entry_iff_supported(mc: Seq<char>)
    ensures
        lite_entry_model(mc) is Some <==> lite_versions_model().contains(mc),
{
    let vs = lite_versions_model();
    if lite_entry_model(mc) is Some {
        assert(vs[0] == "1.12.2"@);
        assert(vs[1] == "1.12.1"@);
        assert(vs[2] == "1.12"@);
        assert(vs[3] == "1.11.2"@);
        assert(vs[4] == "1.11"@);
        assert(vs[5] == "1.10.2"@);
        assert(vs[6] == "1.10"@);
        assert(vs[7] == "1.9.4"@);
        assert(vs[8] == "1.9"@);
        assert(vs[9] == "1.8.9"@);
        assert(vs[10] == "1.8"@);
        assert(vs[11] == "1.7.10"@);
        assert(vs[12] == "1.7.2"@);
        assert(vs[13] == "1.6.4"@);
        assert(vs[14] == "1.6.2"@);
        assert(vs[15] == "1.5.2"@);
    }
    if vs.contains(mc) {
        let k = choose|k: int| 0 <= k < vs.len() && vs[k] == mc;
        assert(vs.len() == 16);
        assert(0 <= k < 16);
    }
}

/// The oldest versions use the `LiteLoader<version>` profile name.
pub open spec fn lite_old_naming(mc: Seq<char>) -> bool {
    mc == "1.5.2"@ || mc == "1.6.2"@ || mc == "1.6.4"@
}

/// The profile name of a game version: `LiteLoader<mc>` for the oldest,
/// `<mc>-LiteLoader<mc>` for the others.
pub open spec fn lite_profile_name(mc: Seq<char>) -> Seq<char> {
    if lite_old_naming(mc) {
        "LiteLoader"@ + mc
    } else {
        mc + "-LiteLoader"@ + mc
    }
}

pub open spec fn optional_library(name: Seq<char>, url: Option<Seq<char>>) -> Seq<LibraryModel> {
    if name.len() > 0 {
        seq![plain_library_model(name, url)]
    } else {
        seq![]
    }
}

/// The libraries of a LiteLoader profile: the LiteLoader jar (a snapshot
/// build for versions without a release), then the launch wrapper, LZMA,
/// ASM (from the LiteLoader repository for 1.12.2) and Guava where needed.
pub open spec fn lite_libraries(mc: Seq<char>, e: LiteVersionModel) -> Seq<LibraryModel> {
    seq![
        plain_library_model(
            if e.release {
                "com.mumfrey:liteloader:"@ + mc
            } else {
                "com.mumfrey:liteloader:"@ + mc + "-SNAPSHOT"@
            },
            Some(MAVEN@),
        ),
    ] + optional_library(e.launchwrapper, None) + optional_library(e.lzma, None)
        + optional_library(
        e.asm_lib,
        if mc == "1.12.2"@ {
            Some("http://repo.liteloader.com/"@)
        } else {
            None
        },
    ) + optional_library(e.guava, None)
}

/// The LiteLoader profile of a game version.
pub open spec fn lite_profile_model(mc: Seq<char>, e: LiteVersionModel, now: UtcTime) -> MainModel {
    MainModel {
        minecraft_arguments: Some(e.args),
        ..empty_profile_model(
            lite_profile_name(mc),
            lite_libraries(mc, e),
            MAIN_CLASS@,
            now,
            VersionType::Release,
            mc,
        )
    }
}

#[derive(Clone, Copy, PartialEq, Eq, Structural)]
pub struct LiteLoaderInstaller {}

impl LiteLoaderInstaller {
    pub fn new() -> (r: LiteLoaderInstaller)
        ensures
            r == (LiteLoaderInstaller {}),
    {
        LiteLoaderInstaller {  }
    }

    /// The LiteLoader entry of a game version.
    pub fn get_version(&self, mc: &str) -> (r: Option<LiteVersion>)
        ensures
            r.deep_view() == lite_entry_model(mc@),
    {
        if str_eq(mc, "1.12.2") {
            Some(LiteVersion { mc: "1.12.2", release: false, launchwrapper: "net.minecraft:launchwrapper:1.12", lzma: "", asm_lib: "org.ow2.asm:asm-all:5.2", guava: "", args: ARGS_VERSION_TYPE })
        } else if str_eq(mc, "1.12.1") {
            Some(LiteVersion { mc: "1.12.1", release: false, launchwrapper: "net.minecraft:launchwrapper:1.12", lzma: "", asm_lib: "org.ow2.asm:asm-all:5.0.3", guava: "", args: ARGS_VERSION_TYPE })
        } else if str_eq(mc, "1.12") {
            Some(LiteVersion { mc: "1.12", release: false, launchwrapper: "net.minecraft:launchwrapper:1.12", lzma: "", asm_lib: "org.ow2.asm:asm-all:5.0.3", guava: "", args: ARGS_VERSION_TYPE })
        } else if str_eq(mc, "1.11.2") {
            Some(LiteVersion { mc: "1.11.2", release: false, launchwrapper: "net.minecraft:launchwrapper:1.12", lzma: "", asm_lib: "org.ow2.asm:asm-all:5.0.3", guava: "", args: ARGS_VERSION_TYPE })
        } else if str_eq(mc, "1.11") {
            Some(LiteVersion { mc: "1.11", release: false, launchwrapper: "net.minecraft:launchwrapper:1.12", lzma: "", asm_lib: "org.ow2.asm:asm-all:5.0.3", guava: "", args: ARGS_VERSION_TYPE })
        } else if str_eq(mc, "1.10.2") {
            Some(LiteVersion { mc: "1.10.2", release: true, launchwrapper: "net.minecraft:launchwrapper:1.12", lzma: "", asm_lib: "org.ow2.asm:asm-all:5.0.3", guava: "", args: ARGS_VERSION_TYPE })
        } else if str_eq(mc, "1.10") {
            Some(LiteVersion { mc: "1.10", release: false, launchwrapper: "net.minecraft:launchwrapper:1.12", lzma: "", asm_lib: "org.ow2.asm:asm-all:5.0.3", guava: "", args: ARGS_VERSION_TYPE })
        } else if str_eq(mc, "1.9.4") {
            Some(LiteVersion { mc: "1.9.4", release: true, launchwrapper: "net.minecraft:launchwrapper:1.12", lzma: "", asm_lib: "org.ow2.asm:asm-all:5.0.3", guava: "", args: ARGS_VERSION_TYPE })
        } else if str_eq(mc, "1.9") {
            Some(LiteVersion { mc: "1.9", release: false, launchwrapper: "net.minecraft:launchwrapper:1.12", lzma: "", asm_lib: "org.ow2.asm:asm-all:5.0.3", guava: "", args: ARGS_VERSION_TYPE })
        } else if str_eq(mc, "1.8.9") {
            Some(LiteVersion { mc: "1.8.9", release: false, launchwrapper: "net.minecraft:launchwrapper:1.12", lzma: "", asm_lib: "org.ow2.asm:asm-all:5.0.3", guava: "", args: ARGS_USER_PROPERTIES })
        } else if str_eq(mc, "1.8") {
            Some(LiteVersion { mc: "1.8", release: true, launchwrapper: "net.minecraft:launchwrapper:1.11", lzma: "", asm_lib: "org.ow2.asm:asm-all:5.0.3", guava: "", args: ARGS_USER_PROPERTIES })
        } else if str_eq(mc, "1.7.10") {
            Some(LiteVersion { mc: "1.7.10", release: true, launchwrapper: "net.minecraft:launchwrapper:1.11", lzma: "", asm_lib: "org.ow2.asm:asm-all:5.0.3", guava: "com.google.guava:guava:16.0", args: ARGS_USER_PROPERTIES })
        } else if str_eq(mc, "1.7.2") {
            Some(LiteVersion { mc: "1.7.2", release: true, launchwrapper: "net.minecraft:launchwrapper:1.9", lzma: "", asm_lib: "org.ow2.asm:asm-all:4.1", guava: "", args: ARGS_LEGACY_ASSETS })
        } else if str_eq(mc, "1.6.4") {
            Some(LiteVersion { mc: "1.6.4", release: true, launchwrapper: "net.minecraft:launchwrapper:1.8", lzma: "lzma:lzma:0.0.1", asm_lib: "", guava: "", args: ARGS_SESSION_VERSION })
        } else if str_eq(mc, "1.6.2") {
            Some(LiteVersion { mc: "1.6.2", release: true, launchwrapper: "net.minecraft:launchwrapper:1.3", lzma: "lzma:lzma:0.0.1", asm_lib: "", guava: "", args: ARGS_SESSION })
        } else if str_eq(mc, "1.5.2") {
            Some(LiteVersion { mc: "1.5.2", release: true, launchwrapper: "", lzma: "", asm_lib: "", guava: "", args: ARGS_OLDEST })
        } else {
            None
        }
    }

    pub fn get_name(&self) -> (r: String)
        ensures
            r@ == "LiteLoader"@,
    {
        to_owned_string("LiteLoader")
    }

    /// The game versions LiteLoader supports.
    pub fn get_compatible_versions(&self) -> (r: Vec<String>)
        ensures
            r.deep_view() == lite_versions_model(),
    {
        let mut versions: Vec<String> = Vec::new();
        versions.push(to_owned_string("1.12.2"));
        versions.push(to_owned_string("1.12.1"));
        versions.push(to_owned_string("1.12"));
        versions.push(to_owned_string("1.11.2"));
        versions.push(to_owned_string("1.11"));
        versions.push(to_owned_string("1.10.2"));
        versions.push(to_owned_string("1.10"));
        versions.push(to_owned_string("1.9.4"));
        versions.push(to_owned_string("1.9"));
        versions.push(to_owned_string("1.8.9"));
        versions.push(to_owned_string("1.8"));
        versions.push(to_owned_string("1.7.10"));
        versions.push(to_owned_string("1.7.2"));
        versions.push(to_owned_string("1.6.4"));
        versions.push(to_owned_string("1.6.2"));
        versions.push(to_owned_string("1.5.2"));
        assert(versions.deep_view() =~= lite_versions_model());
        versions
    }

    /// LiteLoader has a single build per game version, of unknown date.
    pub fn get_loader_versions(&self, _mc_version: String) -> (r: Vec<StringPair>)
        ensures
            r.deep_view() == seq![("LiteLoader"@, "Unknown"@)],
    {
        let mut map: Vec<StringPair> = Vec::new();
        map.push(StringPair { key: to_owned_string("LiteLoader"), value: to_owned_string("Unknown") });
        assert(map.deep_view() =~= seq![("LiteLoader"@, "Unknown"@)]);
        map
    }

    pub fn get_profile_name_for_mc_version(&self, mc_version: String) -> (r: String)
        ensures
            r@ == lite_profile_name(mc_version@),
    {
        let mc = mc_version.as_str();
        if str_eq(mc, "1.5.2") || str_eq(mc, "1.6.2") || str_eq(mc, "1.6.4") {
            concat_str("LiteLoader", mc)
        } else {
            let mut name = concat_str(mc, "-LiteLoader");
            name.append(mc);
            name
        }
    }

    pub fn get_profile_name_for_loader_version(
        &self,
        mc_version: String,
        _loader_version: String,
    ) -> (r: String)
        ensures
            r@ == lite_profile_name(mc_version@),
    {
        self.get_profile_name_for_mc_version(mc_version)
    }

    /// The LiteLoader profile of a supported game version, dated `now`.
    pub fn create_profile(&self, mc_version: String, _loader_version: String, now: UtcTime) -> (r:
        Result<Main, String>)
        requires
            lite_entry_model(mc_version@) is Some,
        ensures
            r matches Ok(m) && m.deep_view() == lite_profile_model(
                mc_version@,
                lite_entry_model(mc_version@)->0,
                now,
            ),
    {
        let info = self.get_version(mc_version.as_str()).unwrap();
        let mc = mc_version.as_str();
        let id = self.get_profile_name_for_mc_version(mc_version.clone());
        let mut libraries: Vec<Library> = Vec::new();
        let loader_name = if info.release {
            concat_str("com.mumfrey:liteloader:", mc)
        } else {
            let mut n = concat_str("com.mumfrey:liteloader:", mc);
            n.append("-SNAPSHOT");
            n
        };
        libraries.push(plain_library(loader_name, Some(to_owned_string(MAVEN))));
        let ghost l0 = libraries.deep_view();
        if info.launchwrapper.unicode_len() > 0 {
            libraries.push(plain_library(to_owned_string(info.launchwrapper), None));
        }
        let ghost l1 = libraries.deep_view();
        assert(l1 =~= l0 + optional_library(info.launchwrapper@, None));
        if info.lzma.unicode_len() > 0 {
            libraries.push(plain_library(to_owned_string(info.lzma), None));
        }
        let ghost l2 = libraries.deep_view();
        assert(l2 =~= l1 + optional_library(info.lzma@, None));
        if info.asm_lib.unicode_len() > 0 {
            let url = if str_eq(mc, "1.12.2") {
                Some(to_owned_string("http://repo.liteloader.com/"))
            } else {
                None
            };
            libraries.push(plain_library(to_owned_string(info.asm_lib), url));
        }
        let ghost l3 = libraries.deep_view();
        assert(l3 =~= l2 + optional_library(
            info.asm_lib@,
            if mc@ == "1.12.2"@ {
                Some("http://repo.liteloader.com/"@)
            } else {
                None
            },
        ));
        if info.guava.unicode_len() > 0 {
            libraries.push(plain_library(to_owned_string(info.guava), None));
        }
        assert(libraries.deep_view() =~= l3 + optional_library(info.guava@, None));
        let mut m = profile(
            id,
            libraries,
            to_owned_string(MAIN_CLASS),
            now,
            VersionType::Release,
            mc_version,
        );
        m.minecraft_arguments = Some(to_owned_string(info.args));
        proof {
            let e = lite_entry_model(mc_version@)->0;
            assert(info.deep_view() == e);
            assert(libraries.deep_view() =~= lite_libraries(mc_version@, e));
            assert(m.deep_view() == lite_profile_model(mc_version@, e, now));
        }
        Ok(m)
    }
}

} // verus!
