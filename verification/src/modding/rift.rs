//! Rift: a mod loader for 1.13.2.
use crate::manifest::version::{Arguments, Either, Library, LibraryModel, Main, MainModel, StringPair, VersionType};
use crate::modding::{empty_profile_model, plain_library, plain_library_model, profile};
use crate::text::to_owned_string;
use crate::time::UtcTime;
use vstd::prelude::*;

verus! {

/// The libraries of the Rift profile.
pub open spec fn rift_libraries() -> Seq<LibraryModel> {
    seq![
        plain_library_model("com.github.unascribed:Rift:FINAL"@, Some("https://www.jitpack.io/"@)),
        plain_library_model("org.dimdev:mixin:0.7.11-evil"@, Some("https://repo.unascribed.com/"@)),
        plain_library_model("org.ow2.asm:asm:6.2"@, Some("https://repo.spongepowered.org/maven/"@)),
        plain_library_model("org.ow2.asm:asm-commons:6.2"@, Some("https://repo.spongepowered.org/maven/"@)),
        plain_library_model("org.ow2.asm:asm-tree:6.2"@, Some("https://repo.spongepowered.org/maven/"@)),
        plain_library_model("net.minecraft:launchwrapper:1.12"@, None),
    ]
}

/// The Rift profile: the Rift libraries, the launch wrapper as launch class,
/// and the Rift tweaker as game arguments.
pub open spec fn rift_profile_model(mc: Seq<char>, now: UtcTime) -> MainModel {
    MainModel {
        arguments: Some(crate::manifest::version::ArgumentsModel {
            game: seq![
                Either::Left("--tweakClass"@),
                Either::Left("org.dimdev.riftloader.launch.RiftLoaderClientTweaker"@),
            ],
            jvm: None,
        }),
        ..empty_profile_model(
            "1.13.2-rift-FINAL"@,
            rift_libraries(),
            "net.minecraft.launchwrapper.Launch"@,
            now,
            VersionType::Release,
            mc,
        )
    }
}

#[derive(Clone, Copy, PartialEq, Eq, Structural)]
pub struct RiftInstaller {}

impl RiftInstaller {
    pub fn new() -> (r: RiftInstaller)
        ensures
            r == (RiftInstaller {}),
    {
        RiftInstaller {  }
    }

    pub fn get_name(&self) -> (r: String)
        ensures
            r@ == "Rift"@,
    {
        to_owned_string("Rift")
    }

    /// Rift exists for 1.13.2 only.
    pub fn get_compatible_versions(&self) -> (r: Vec<String>)
        ensures
            r.deep_view() == seq!["1.13.2"@],
    {
        let mut v: Vec<String> = Vec::new();
        v.push(to_owned_string("1.13.2"));
        assert(v.deep_view() =~= seq!["1.13.2"@]);
        v
    }

    /// Rift has a single, final build.
    pub fn get_loader_versions(&self, _mc_version: String) -> (r: Vec<StringPair>)
        ensures
            r.deep_view() == seq![("FINAL"@, "Unknown"@)],
    {
        let mut v: Vec<StringPair> = Vec::new();
        v.push(StringPair { key: to_owned_string("FINAL"), value: to_owned_string("Unknown") });
        assert(v.deep_view() =~= seq![("FINAL"@, "Unknown"@)]);
        v
    }

    pub fn get_profile_name_for_mc_version(&self, _mc_version: String) -> (r: String)
        ensures
            r@ == "1.13.2-rift-FINAL"@,
    {
        to_owned_string("1.13.2-rift-FINAL")
    }

    pub fn get_profile_name_for_loader_version(&self, mc_version: String, _loader_version: String) -> (r: String)
        ensures
            r@ == "1.13.2-rift-FINAL"@,
    {
        self.get_profile_name_for_mc_version(mc_version)
    }

    /// The Rift profile on top of a game version, dated `now`.
    pub fn create_profile(&self, mc_version: String, _loader_version: String, now: UtcTime) -> (r: Main)
        ensures
            r.deep_view() == rift_profile_model(mc_version@, now),
    {
        let mut libs: Vec<Library> = Vec::new();
        libs.push(plain_library(to_owned_string("com.github.unascribed:Rift:FINAL"), Some(to_owned_string("https://www.jitpack.io/"))));
        libs.push(plain_library(to_owned_string("org.dimdev:mixin:0.7.11-evil"), Some(to_owned_string("https://repo.unascribed.com/"))));
        libs.push(plain_library(to_owned_string("org.ow2.asm:asm:6.2"), Some(to_owned_string("https://repo.spongepowered.org/maven/"))));
        libs.push(plain_library(to_owned_string("org.ow2.asm:asm-commons:6.2"), Some(to_owned_string("https://repo.spongepowered.org/maven/"))));
        libs.push(plain_library(to_owned_string("org.ow2.asm:asm-tree:6.2"), Some(to_owned_string("https://repo.spongepowered.org/maven/"))));
        libs.push(plain_library(to_owned_string("net.minecraft:launchwrapper:1.12"), None));
        assert(libs.deep_view() =~= rift_libraries());
        let mut game: Vec<Either<String, crate::manifest::version::CustomArguments>> = Vec::new();
        game.push(Either::Left(to_owned_string("--tweakClass")));
        game.push(Either::Left(to_owned_string("org.dimdev.riftloader.launch.RiftLoaderClientTweaker")));
        assert(game.deep_view() =~= seq![
            Either::Left("--tweakClass"@),
            Either::Left("org.dimdev.riftloader.launch.RiftLoaderClientTweaker"@),
        ]);
        let id = self.get_profile_name_for_mc_version(mc_version.clone());
        let mut m = profile(id, libs, to_owned_string("net.minecraft.launchwrapper.Launch"), now, VersionType::Release, mc_version);
        m.arguments = Some(Arguments { game, jvm: None });
        m
    }
}

} // verus!
