use rusty_craft::app::download_tab::Message;
use rusty_craft::arguments::Environment;
use rusty_craft::install::{
    check_log_file, downloading_manifest, install_client_jar, install_libraries, install_version_start,
    jar_metadata_error, library_label, library_maven_path, log_download_error, manifest_id, reading_manifest,
    size_check, task_action, version_source, DownloadTask, FileAction, FileCheck, FileState, VersionSource,
};
use rusty_craft::manifest::main::Version;
use rusty_craft::manifest::version::{
    Classifier, ClientLogging, ClientLoggingFile, DownloadEntry, Downloads, Library, LibraryDownload,
    LibraryDownloadArtifact, Logging, Main, Rule, RuleAction, StringPair, VersionType,
};
use rusty_craft::time::UtcTime;

fn at(secs: i64) -> UtcTime {
    UtcTime { secs, nanos: 0 }
}

fn manifest(id: &str) -> Main {
    Main {
        arguments: None,
        asset_index: None,
        assets: None,
        compliance_level: None,
        downloads: None,
        id: id.to_string(),
        java_version: None,
        libraries: Vec::new(),
        logging: None,
        main_class: "net.minecraft.client.main.Main".to_string(),
        minimum_launcher_version: None,
        release_time: at(0),
        time: at(0),
        _type: VersionType::Release,
        minecraft_arguments: None,
        inherits_from: None,
    }
}

fn linux() -> Environment {
    Environment { os: "linux".to_string(), arch: "x86_64".to_string(), os_version: Some((5, 10, 0)) }
}

fn artifact(path: &str, size: u64) -> LibraryDownloadArtifact {
    LibraryDownloadArtifact {
        path: path.to_string(),
        sha1: "0".to_string(),
        size,
        url: format!("https://libraries.minecraft.net/{}", path),
    }
}

fn library(name: &str) -> Library {
    Library { downloads: None, name: name.to_string(), extract: None, natives: None, rules: None, url: None }
}

fn published(id: &str, url: &str) -> Version {
    Version {
        id: id.to_string(),
        _type: "release".to_string(),
        url: url.to_string(),
        time: at(0),
        release_time: at(0),
        sha1: "0".to_string(),
        compliance_level: 0,
    }
}

fn error_text(m: &Message) -> String {
    match m {
        Message::Error(e) => e.clone(),
        _ => panic!("an error was expected"),
    }
}

#[test]
fn file_checks() {
    assert!(size_check(&FileState::Missing, 5, FileAction::Fail) == FileAction::Download);
    assert!(size_check(&FileState::Present(Some(5)), 5, FileAction::Fail) == FileAction::Keep);
    assert!(size_check(&FileState::Present(Some(4)), 5, FileAction::Fail) == FileAction::Download);
    assert!(size_check(&FileState::Present(None), 5, FileAction::Fail) == FileAction::Fail);
    assert!(size_check(&FileState::Present(None), 5, FileAction::Download) == FileAction::Download);
    let sized = DownloadTask { url: "u".to_string(), path: "p".to_string(), check: FileCheck::Size(7) };
    assert!(task_action(&sized, &FileState::Present(None)) == FileAction::Fail);
    assert!(task_action(&sized, &FileState::Present(Some(7))) == FileAction::Keep);
    let absent = DownloadTask { url: "u".to_string(), path: "p".to_string(), check: FileCheck::Absent };
    assert!(task_action(&absent, &FileState::Present(Some(1))) == FileAction::Keep);
    assert!(task_action(&absent, &FileState::Present(None)) == FileAction::Keep);
    assert!(task_action(&absent, &FileState::Missing) == FileAction::Download);
}

#[test]
fn maven_paths_and_labels() {
    assert_eq!(library_maven_path("org.lwjgl.lwjgl:lwjgl:2.9.4"), "org/lwjgl/lwjgl/lwjgl/2.9.4/lwjgl-2.9.4.jar");
    assert_eq!(library_label("org.lwjgl.lwjgl:lwjgl:2.9.4"), "lwjgl-2.9.4");
}

#[test]
fn libraries_step_plans_each_library() {
    let mut m = manifest("1.16.5");
    let mut with_artifact = library("com.mojang:brigadier:1.0.17");
    with_artifact.downloads = Some(LibraryDownload {
        artifact: Some(artifact("com/mojang/brigadier/1.0.17/brigadier-1.0.17.jar", 76000)),
        classifiers: None,
    });
    let mut from_repo = library("net.fabricmc:tiny-remapper:0.3.0.70");
    from_repo.url = Some("https://maven.fabricmc.net/".to_string());
    let plain = library("org.ow2.asm:asm:9.0");
    let mut mac_only = library("ca.weblite:java-objc-bridge:1.0.0");
    mac_only.rules = Some(vec![Rule {
        action: RuleAction::Allow,
        features: None,
        os: Some(vec![StringPair { key: "name".to_string(), value: "osx".to_string() }]),
    }]);
    let mut native_missing = library("org.lwjgl:lwjgl-platform:2.9.4");
    native_missing.natives = Some(vec![StringPair { key: "linux".to_string(), value: "natives-linux".to_string() }]);
    native_missing.downloads = Some(LibraryDownload { artifact: None, classifiers: Some(Vec::new()) });
    m.libraries = vec![with_artifact, from_repo, plain, mac_only, native_missing];

    let (start, steps) = install_libraries(&m, &linux());
    assert!(matches!(start, Message::NewStep(4)));
    assert_eq!(steps.len(), 5);
    match &steps[0].progress {
        Message::NewSubStep(label, i, n) => {
            assert_eq!(label, "brigadier-1.0.17");
            assert_eq!((*i, *n), (1, 5));
        }
        _ => panic!("a part report was expected"),
    }
    assert_eq!(steps[0].plan.tasks.len(), 1);
    assert!(steps[0].plan.tasks[0].check == FileCheck::Size(76000));
    assert_eq!(steps[1].plan.tasks.len(), 1);
    assert_eq!(
        steps[1].plan.tasks[0].url,
        "https://maven.fabricmc.net//net/fabricmc/tiny-remapper/0.3.0.70/tiny-remapper-0.3.0.70.jar"
    );
    assert!(steps[1].plan.tasks[0].check == FileCheck::Absent);
    assert_eq!(steps[2].plan.tasks[0].url, "https://libraries.minecraft.net/org/ow2/asm/asm/9.0/asm-9.0.jar");
    assert_eq!(steps[2].plan.tasks[0].path, "org/ow2/asm/asm/9.0/asm-9.0.jar");
    assert!(steps[3].plan.tasks.is_empty());
    assert!(steps[3].plan.complete);
    assert!(!steps[4].plan.complete);
}

#[test]
fn native_classifier_of_this_system_is_downloaded() {
    let mut m = manifest("1.12.2");
    let mut lib = library("org.lwjgl.lwjgl:lwjgl-platform:2.9.4-nightly-20150209");
    lib.natives = Some(vec![
        StringPair { key: "linux".to_string(), value: "natives-linux".to_string() },
        StringPair { key: "windows".to_string(), value: "natives-windows".to_string() },
    ]);
    lib.downloads = Some(LibraryDownload {
        artifact: None,
        classifiers: Some(vec![
            Classifier { name: "natives-windows".to_string(), artifact: artifact("w.jar", 1) },
            Classifier { name: "natives-linux".to_string(), artifact: artifact("l.jar", 2) },
        ]),
    });
    m.libraries = vec![lib];
    let (_, steps) = install_libraries(&m, &linux());
    assert!(steps[0].plan.complete);
    assert_eq!(steps[0].plan.tasks.len(), 1);
    assert_eq!(steps[0].plan.tasks[0].path, "l.jar");
}

#[test]
fn client_jar_step() {
    let (messages, fetch) = install_client_jar(&manifest("1.16.5"));
    assert!(fetch.is_none());
    assert!(matches!(messages[0], Message::NewStep(3)));
    assert_eq!(error_text(&messages[1]), "No client jar to download in version manifest!");
    let mut m = manifest("1.16.5");
    m.downloads = Some(Downloads {
        client: DownloadEntry { sha1: "1".to_string(), size: 17000000, url: "https://x/client.jar".to_string() },
        client_mappings: None,
        server: None,
        server_mappings: None,
    });
    let (messages, fetch) = install_client_jar(&m);
    assert_eq!(messages.len(), 1);
    let f = fetch.unwrap();
    assert_eq!(f.file_name, "1.16.5.jar");
    assert_eq!(f.url, "https://x/client.jar");
    assert_eq!(f.size, 17000000);
    assert_eq!(error_text(&jar_metadata_error("denied")), "Error while trying to get client jar metadata: denied");
}

#[test]
fn log_file_step() {
    let (start, fetch) = check_log_file(&manifest("1.16.5"));
    assert!(matches!(start, Message::NewStep(6)));
    assert!(fetch.is_none());
    let mut m = manifest("1.16.5");
    m.logging = Some(Logging { client: None });
    assert!(check_log_file(&m).1.is_none());
    m.logging = Some(Logging {
        client: Some(ClientLogging {
            argument: "-Dlog4j.configurationFile=${path}".to_string(),
            file: ClientLoggingFile {
                id: "client-1.12.xml".to_string(),
                sha1: "bd65".to_string(),
                size: 888,
                url: "https://launcher.mojang.com/client-1.12.xml".to_string(),
            },
            _type: "log4j2-xml".to_string(),
        }),
    });
    let f = check_log_file(&m).1.unwrap();
    assert_eq!(f.file_name, "client-1.12.xml");
    assert_eq!(f.size, 888);
    assert_eq!(error_text(&log_download_error("offline")), "Unable to download logger file: offline");
}

#[test]
fn where_a_version_manifest_comes_from() {
    let versions = vec![published("1.16.4", "https://a/1.16.4.json"), published("1.16.5", "https://a/1.16.5.json")];
    assert_eq!(manifest_id("1.16.5", &None), Some("1.16.5".to_string()));
    match version_source("1.16.5", &versions, &None, true) {
        VersionSource::Installed(id) => assert_eq!(id, "1.16.5"),
        _ => panic!("the installed manifest should be used"),
    }
    match version_source("1.16.5", &versions, &None, false) {
        VersionSource::Published { id, url } => {
            assert_eq!(id, "1.16.5");
            assert_eq!(url, "https://a/1.16.5.json");
        }
        _ => panic!("the published manifest should be downloaded"),
    }
    assert!(matches!(version_source("20w14infinite", &versions, &None, false), VersionSource::Unavailable));
    let mut modded = manifest("1.16.5-fabric");
    modded.inherits_from = Some("1.16.5".to_string());
    let modded = Some(modded);
    assert_eq!(manifest_id("1.16.5-fabric", &modded), Some("1.16.5".to_string()));
    match version_source("1.16.5-fabric", &versions, &modded, true) {
        VersionSource::Parent(id) => assert_eq!(id, "1.16.5"),
        _ => panic!("the parent manifest should be used"),
    }
    assert!(matches!(version_source("1.16.5-fabric", &versions, &modded, false), VersionSource::Unavailable));
    let orphan = Some(manifest("lonely"));
    assert_eq!(manifest_id("lonely", &orphan), None);
    assert!(matches!(version_source("lonely", &versions, &orphan, true), VersionSource::Unavailable));
}

#[test]
fn version_install_reports() {
    match install_version_start() {
        Message::NewSubStep(n, 1, 3) => assert_eq!(n, "Checking Version folder"),
        _ => panic!("unexpected report"),
    }
    match downloading_manifest() {
        Message::NewSubStep(n, 2, 3) => assert_eq!(n, "Downloading Version manifest"),
        _ => panic!("unexpected report"),
    }
    match reading_manifest() {
        Message::NewSubStep(n, 3, 3) => assert_eq!(n, "Reading Version manifest"),
        _ => panic!("unexpected report"),
    }
}

#[test]
fn libraries_stop_at_a_name_without_version() {
    let mut m = manifest("1.16.5");
    m.libraries = vec![library("org.ow2.asm:asm:9.0"), library("org.ow2.asm:asm"), library("com.google:gson:2.8")];
    let (start, steps) = install_libraries(&m, &linux());
    assert!(matches!(start, Message::NewStep(4)));
    assert_eq!(steps.len(), 1);
    match &steps[0].progress {
        Message::NewSubStep(label, i, n) => {
            assert_eq!(label, "asm-9.0");
            assert_eq!((*i, *n), (1, 3));
        }
        _ => panic!("a part report was expected"),
    }
}
