use rusty_craft::manifest::version::{Either, StringPair, VersionType};
use rusty_craft::modding::cursed_legacy::CursedLegacyInstaller;
use rusty_craft::modding::fabric::{FabricInstaller, LoaderInfo, LoaderVersionInfo};
use rusty_craft::modding::liteloader::LiteLoaderInstaller;
use rusty_craft::modding::rift::RiftInstaller;
use rusty_craft::modding::{LoaderBuilds, ModLoader, ModLoaderHandler, VanillaLoader};
use rusty_craft::time::UtcTime;
use rusty_craft::utils::{MavVersion, MavenMetadata, MavenVersion, MavenVersioning};

fn now() -> UtcTime {
    UtcTime { secs: 1_600_000_000, nanos: 0 }
}

fn loader_names(loaders: &Vec<ModLoader>) -> Vec<String> {
    loaders.iter().map(|l| l.get_name()).collect()
}

#[test]
fn handler_offers_three_loaders() {
    let handler = ModLoaderHandler::new();
    assert_eq!(loader_names(&handler.mod_loaders), vec!["LiteLoader", "Rift", "Cursed Legacy"]);
}

#[test]
fn vanilla_is_always_offered_first() {
    let handler = ModLoaderHandler::new();
    let loaders = handler.get_loaders_for_version("1.16.5".to_string()).unwrap();
    assert_eq!(loader_names(&loaders), vec!["Vanilla"]);
    assert!(loaders[0].is_vanilla());
}

#[test]
fn loaders_offered_for_their_versions() {
    let handler = ModLoaderHandler::new();
    let l = handler.get_loaders_for_version("1.12.2".to_string()).unwrap();
    assert_eq!(loader_names(&l), vec!["Vanilla", "LiteLoader"]);
    let l = handler.get_loaders_for_version("1.13.2".to_string()).unwrap();
    assert_eq!(loader_names(&l), vec!["Vanilla", "Rift"]);
    let l = handler.get_loaders_for_version("b1.7.3".to_string()).unwrap();
    assert_eq!(loader_names(&l), vec!["Vanilla", "Cursed Legacy"]);
}

#[test]
fn offered_liteloader_builds_a_profile() {
    let handler = ModLoaderHandler::new();
    for mc in (LiteLoaderInstaller {}).get_compatible_versions() {
        let loaders = handler.get_loaders_for_version(mc.clone()).unwrap();
        assert_eq!(loaders.len(), 2);
        assert!(LiteLoaderInstaller {}.get_version(&mc).is_some());
        let profile = loaders[1].create_profile(mc.clone(), String::new(), now()).unwrap();
        assert_eq!(profile.inherits_from, Some(mc));
    }
}

#[test]
fn liteloader_profile_for_1_12_2() {
    let m = LiteLoaderInstaller::new().create_profile("1.12.2".to_string(), String::new(), now()).unwrap();
    assert_eq!(m.id, "1.12.2-LiteLoader1.12.2");
    assert_eq!(m.main_class, "net.minecraft.launchwrapper.Launch");
    assert!(m._type == VersionType::Release);
    let names: Vec<String> = m.libraries.iter().map(|l| l.name.clone()).collect();
    assert_eq!(names, vec![
        "com.mumfrey:liteloader:1.12.2-SNAPSHOT",
        "net.minecraft:launchwrapper:1.12",
        "org.ow2.asm:asm-all:5.2",
    ]);
    assert_eq!(m.libraries[0].url.as_deref(), Some("http://dl.liteloader.com/versions/"));
    assert_eq!(m.libraries[2].url.as_deref(), Some("http://repo.liteloader.com/"));
    assert!(m.minecraft_arguments.unwrap().ends_with("--tweakClass com.mumfrey.liteloader.launch.LiteLoaderTweaker"));
    assert!(m.release_time == now());
}

#[test]
fn liteloader_oldest_profiles() {
    let lite = LiteLoaderInstaller::new();
    assert_eq!(lite.get_profile_name_for_mc_version("1.5.2".to_string()), "LiteLoader1.5.2");
    assert_eq!(lite.get_profile_name_for_mc_version("1.7.10".to_string()), "1.7.10-LiteLoader1.7.10");
    let m = lite.create_profile("1.6.4".to_string(), String::new(), now()).unwrap();
    let names: Vec<String> = m.libraries.iter().map(|l| l.name.clone()).collect();
    assert_eq!(names, vec![
        "com.mumfrey:liteloader:1.6.4",
        "net.minecraft:launchwrapper:1.8",
        "lzma:lzma:0.0.1",
    ]);
    let m = lite.create_profile("1.5.2".to_string(), String::new(), now()).unwrap();
    assert_eq!(m.libraries.len(), 1);
    assert!(lite.get_version("1.16.5").is_none());
}

#[test]
fn rift_profile() {
    let rift = RiftInstaller::new();
    assert_eq!(rift.get_compatible_versions(), vec!["1.13.2"]);
    let m = rift.create_profile("1.13.2".to_string(), "FINAL".to_string(), now());
    assert_eq!(m.id, "1.13.2-rift-FINAL");
    assert_eq!(m.libraries.len(), 6);
    assert_eq!(m.libraries[0].name, "com.github.unascribed:Rift:FINAL");
    let args = m.arguments.unwrap();
    assert_eq!(args.game.len(), 2);
    match &args.game[1] {
        Either::Left(s) => assert_eq!(s, "org.dimdev.riftloader.launch.RiftLoaderClientTweaker"),
        Either::Right(_) => panic!("plain argument expected"),
    }
    let builds = rift.get_loader_versions("1.13.2".to_string());
    assert_eq!(builds.len(), 1);
    assert_eq!(builds[0].key, "FINAL");
    assert_eq!(builds[0].value, "Unknown");
}

#[test]
fn cursed_legacy_profile() {
    let cursed = CursedLegacyInstaller {};
    assert_eq!(cursed.get_compatible_versions(), vec!["b1.7.3"]);
    assert_eq!(cursed.get_profile_name_for_mc_version("b1.7.3".to_string()), "cursed-fabric-loader-{loader_version}-b1.7.3");
    let m = cursed.create_profile("b1.7.3".to_string(), "1.0.0".to_string(), now()).unwrap();
    assert_eq!(m.libraries.len(), 17);
    assert_eq!(m.libraries[16].name, "io.github.minecraft-cursed-legacy:cursed-fabric-loader:1.0.0");
    assert_eq!(m.main_class, "net.fabricmc.loader.launch.knot.KnotClient");
    assert!(m._type == VersionType::OldBeta);
    assert_eq!(m.inherits_from.as_deref(), Some("b1.7.3"));
}

fn metadata() -> MavenMetadata {
    let versions = vec!["0.9", "0.9-local", "1.0", "0.9"]
        .into_iter()
        .map(|b| MavVersion { body: b.to_string() })
        .collect();
    MavenMetadata {
        group_id: "io.github.minecraft-cursed-legacy".to_string(),
        artifact_id: "cursed-fabric-loader".to_string(),
        versioning: MavenVersioning {
            release: "1.0".to_string(),
            last_updated: "2021-01-01T00:00:00Z".to_string(),
            versions: MavenVersion { version: versions },
        },
    }
}

#[test]
fn cursed_legacy_builds_skip_local_ones() {
    let builds = ModLoader::CursedLegacy(CursedLegacyInstaller {})
        .get_loader_versions("b1.7.3".to_string(), &LoaderBuilds::Maven(metadata()));
    let keys: Vec<&str> = builds.iter().map(|p| p.key.as_str()).collect();
    assert_eq!(keys, vec!["0.9", "1.0"]);
    let dates: Vec<&str> = builds.iter().map(|p| p.value.as_str()).collect();
    assert_eq!(dates, vec!["Unknown", "2021-01-01T00:00:00Z"]);
}

#[test]
fn fabric_builds_and_urls() {
    let fabric = ModLoader::Fabric(FabricInstaller::new());
    let list = vec![
        LoaderVersionInfo { loader: LoaderInfo { version: "0.11.3".to_string() } },
        LoaderVersionInfo { loader: LoaderInfo { version: "0.11.2".to_string() } },
        LoaderVersionInfo { loader: LoaderInfo { version: "0.11.3".to_string() } },
    ];
    let builds = fabric.get_loader_versions("1.16.5".to_string(), &LoaderBuilds::Fabric(list));
    let keys: Vec<&str> = builds.iter().map(|p| p.key.as_str()).collect();
    assert_eq!(keys, vec!["0.11.3", "0.11.2"]);
    assert_eq!(
        fabric.loader_versions_url("1.16.5"),
        Some("https://meta.fabricmc.net/v2/versions/loader/1.16.5".to_string())
    );
    assert_eq!(
        fabric.get_profile_name_for_loader_version("1.16.5".to_string(), "0.11.3".to_string()),
        "fabric-loader-0.11.3-1.16.5"
    );
    assert!(fabric.save_compatible_versions());
    assert!(ModLoader::LiteLoader(LiteLoaderInstaller {}).loader_versions_url("1.12.2").is_none());
}

#[test]
fn vanilla_profile_is_the_game_version() {
    let v = VanillaLoader {};
    assert_eq!(v.get_name(), "Vanilla");
    assert_eq!(v.get_profile_name_for_loader_version("1.16.5".to_string(), "x".to_string()), "1.16.5");
    let l = ModLoader::Vanilla(v);
    assert!(l.is_vanilla());
    assert!(!l.save_compatible_loader_versions());
    let lite = ModLoader::LiteLoader(LiteLoaderInstaller {});
    let builds: Vec<StringPair> = lite.get_loader_versions("1.12.2".to_string(), &LoaderBuilds::Known);
    assert_eq!(builds[0].key, "LiteLoader");
}

#[test]
fn loader_profiles_carry_plain_libraries() {
    let loaders = [
        ModLoader::LiteLoader(LiteLoaderInstaller {}),
        ModLoader::Rift(RiftInstaller {}),
        ModLoader::CursedLegacy(CursedLegacyInstaller {}),
    ];
    for l in loaders.iter() {
        let m = l.create_profile("1.12.2".to_string(), "0.1".to_string(), now()).unwrap();
        assert!(!m.libraries.is_empty());
        for lib in m.libraries.iter() {
            assert!(lib.natives.is_none() && lib.rules.is_none() && lib.downloads.is_none());
        }
    }
}
