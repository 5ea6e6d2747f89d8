use rusty_craft::manifest::assets::AssetIndex as Object;
use rusty_craft::manifest::main::{Version, VersionType as Channel};
use rusty_craft::manifest::version::{
    lookup_string, Arguments, DownloadEntry, Downloads, Either, Library, Main, Os, RuleAction, StringPair, VersionType,
};
use rusty_craft::time::UtcTime;

fn at(secs: i64) -> UtcTime {
    UtcTime { secs, nanos: 0 }
}

fn manifest(id: &str) -> Main {
    Main {
        arguments: None,
        asset_index: None,
        assets: None,
        compliance_level: None,
        downloads: None,
        id: id.to_string(),
        java_version: None,
        libraries: Vec::new(),
        logging: None,
        main_class: "net.minecraft.client.main.Main".to_string(),
        minimum_launcher_version: None,
        release_time: at(10),
        time: at(20),
        _type: VersionType::Release,
        minecraft_arguments: None,
        inherits_from: None,
    }
}

fn library(name: &str) -> Library {
    Library { downloads: None, name: name.to_string(), extract: None, natives: None, rules: None, url: None }
}

fn entry(url: &str) -> DownloadEntry {
    DownloadEntry { sha1: "0".to_string(), size: 1, url: url.to_string() }
}

#[test]
fn channel_names_round_trip() {
    for name in ["release", "snapshot", "old_beta", "old_alpha", "pending"] {
        assert_eq!(Channel::from_str(name.to_string()).to_string(), name);
    }
    assert!(Channel::from_str("release".to_string()).is_release());
    assert!(Channel::from_str("snapshot".to_string()).is_snapshot());
    assert!(Channel::from_str("old_beta".to_string()).is_old());
    assert!(Channel::from_str("old_alpha".to_string()).is_old());
    assert!(!Channel::from_str("pending".to_string()).is_release());
    assert_eq!(VersionType::OldAlpha.to_string(), "old_alpha");
    assert_eq!(RuleAction::Disallow.to_string(), "disallow");
}

#[test]
fn system_names_round_trip() {
    for os in [Os::Windows, Os::MacOS, Os::Linux] {
        assert!(Os::from_str(&os.to_str()) == Some(os));
    }
    assert_eq!(Os::MacOS.to_str(), "osx");
    assert!(Os::from_str("macos").is_none());
}

#[test]
fn profile_inherits_from_its_parent() {
    let mut child = manifest("1.16.5-fabric");
    child.inherits_from = Some("1.16.5".to_string());
    child.main_class = "net.fabricmc.loader.launch.knot.KnotClient".to_string();
    child.libraries = vec![library("net.fabricmc:fabric-loader:0.11.3")];
    child.arguments = Some(Arguments { game: vec![Either::Left("--fabric".to_string())], jvm: None });
    let mut parent = manifest("1.16.5");
    parent.libraries = vec![library("com.mojang:brigadier:1.0.17")];
    parent.assets = Some("1.16".to_string());
    parent.arguments = Some(Arguments {
        game: vec![Either::Left("--username".to_string())],
        jvm: Some(vec![Either::Left("-cp".to_string())]),
    });
    parent.downloads = Some(Downloads { client: entry("client"), client_mappings: None, server: Some(entry("server")), server_mappings: None });
    let m = child.inherit(&parent);
    assert_eq!(m.id, "1.16.5-fabric");
    assert_eq!(m.main_class, "net.fabricmc.loader.launch.knot.KnotClient");
    let names: Vec<String> = m.libraries.iter().map(|l| l.name.clone()).collect();
    assert_eq!(names, vec!["net.fabricmc:fabric-loader:0.11.3", "com.mojang:brigadier:1.0.17"]);
    assert_eq!(m.assets.as_deref(), Some("1.16"));
    assert_eq!(m.downloads.unwrap().client.url, "client");
    let args = m.arguments.unwrap();
    assert_eq!(args.game.len(), 2);
    assert_eq!(args.jvm.unwrap().len(), 1);
    assert!(m.release_time == at(10));
    assert_eq!(m.inherits_from.as_deref(), Some("1.16.5"));
}

#[test]
fn modded_versions_are_recognised_by_name() {
    assert!(manifest("1.16.5-fabric-0.11").is_modded());
    assert!(manifest("1.12.2-forge-14.23").is_modded());
    assert!(!manifest("1.16.5").is_modded());
    let row = manifest("1.16.5").to_min_version();
    assert!(row.installed);
    assert_eq!(row.id, "1.16.5");
    assert_eq!(row._type.to_string(), "release");
}

#[test]
fn published_version_row() {
    let v = Version {
        id: "21w03a".to_string(),
        _type: "snapshot".to_string(),
        url: "u".to_string(),
        time: at(1),
        release_time: at(2),
        sha1: "s".to_string(),
        compliance_level: 1,
    };
    let row = v.to_min_version();
    assert!(!row.installed);
    assert!(row._type.is_snapshot());
    assert!(row.release_time == at(2));
}

#[test]
fn asset_object_location() {
    let o = Object { hash: "bdf48ef6b5d0d23bbb02e17d04865216179f510a".to_string(), size: 3665 };
    assert_eq!(o.get_download_url(), "https://resources.download.minecraft.net/bd/bdf48ef6b5d0d23bbb02e17d04865216179f510a");
    let (folder, path) = o.get_download_path();
    assert_eq!(folder, "bd");
    assert_eq!(path, vec!["bd", "bdf48ef6b5d0d23bbb02e17d04865216179f510a"]);
}

#[test]
fn a_table_of_unique_keys_finds_every_entry_in_any_order() {
    let pair = |k: &str, v: &str| StringPair { key: k.to_string(), value: v.to_string() };
    let t = vec![pair("windows", "natives-windows"), pair("linux", "natives-linux"), pair("osx", "natives-osx")];
    let u = vec![pair("osx", "natives-osx"), pair("windows", "natives-windows"), pair("linux", "natives-linux")];
    for key in ["windows", "linux", "osx"] {
        assert_eq!(lookup_string(&t, key), lookup_string(&u, key));
    }
    assert_eq!(lookup_string(&u, "linux"), Some("natives-linux".to_string()));
}

#[test]
fn string_tables_give_the_first_match() {
    let t = vec![
        StringPair { key: "linux".to_string(), value: "natives-linux".to_string() },
        StringPair { key: "linux".to_string(), value: "second".to_string() },
    ];
    assert_eq!(lookup_string(&t, "linux"), Some("natives-linux".to_string()));
    assert_eq!(lookup_string(&t, "osx"), None);
}

#[test]
fn instants_are_ordered() {
    assert!(at(1).is_before_or_at(&at(2)));
    assert!(at(2).is_before_or_at(&at(2)));
    assert!(!UtcTime { secs: 2, nanos: 5 }.is_before_or_at(&UtcTime { secs: 2, nanos: 4 }));
}

#[test]
fn jvm_arguments_grow_one_at_a_time() {
    let a = Arguments { game: vec![Either::Left("--demo".to_string())], jvm: Some(Vec::new()) };
    let a = a.add_to_jvm(Either::Left("-Xmx2G".to_string()));
    let a = a.add_to_jvm(Either::Left("-cp".to_string()));
    let jvm = a.jvm.unwrap();
    assert_eq!(jvm.len(), 2);
    match &jvm[1] {
        Either::Left(s) => assert_eq!(s, "-cp"),
        Either::Right(_) => panic!("plain argument expected"),
    }
    assert_eq!(a.game.len(), 1);
}

#[test]
fn inherited_libraries_keep_their_tables() {
    let mut child = manifest("fabric-1.16.5");
    child.inherits_from = Some("1.16.5".to_string());
    let mut own = library("net.fabricmc:fabric-loader:0.11.3");
    own.natives = Some(vec![StringPair { key: "linux".to_string(), value: "natives-linux".to_string() }]);
    child.libraries = vec![own];
    let mut parent = manifest("1.16.5");
    let mut lwjgl = library("org.lwjgl:lwjgl:3.2.2");
    lwjgl.natives = Some(vec![
        StringPair { key: "windows".to_string(), value: "natives-windows".to_string() },
        StringPair { key: "osx".to_string(), value: "natives-macos".to_string() },
    ]);
    parent.libraries = vec![lwjgl];
    let m = child.inherit(&parent);
    assert_eq!(m.libraries.len(), 2);
    let first = m.libraries[0].natives.as_ref().unwrap();
    let second = m.libraries[1].natives.as_ref().unwrap();
    assert_eq!(lookup_string(first, "linux"), Some("natives-linux".to_string()));
    assert_eq!(lookup_string(second, "osx"), Some("natives-macos".to_string()));
    assert_eq!(lookup_string(second, "windows"), Some("natives-windows".to_string()));
}
