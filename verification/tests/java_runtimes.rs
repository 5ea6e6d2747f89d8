use rusty_craft::manifest::java_versions::{Availability, Main, Manifest, OsVersions, Version, VersionInfo};
use rusty_craft::manifest::java::{Element, Main as Files};
use rusty_craft::time::UtcTime;

fn runtime(name: &str) -> Version {
    Version {
        availability: Availability { group: 1, progress: 100 },
        manifest: Manifest { sha1: "0".to_string(), size: 1, url: format!("https://x/{}.json", name) },
        version: VersionInfo { name: name.to_string(), released: UtcTime { secs: 0, nanos: 0 } },
    }
}

fn platform(tag: &str) -> OsVersions {
    OsVersions {
        java_runtime_alpha: vec![runtime(&format!("{}-16", tag))],
        jre_legacy: vec![runtime(&format!("{}-8", tag))],
        java_exe: Vec::new(),
    }
}

fn runtimes() -> Main {
    Main {
        linux: platform("linux"),
        linux_i386: platform("linux-i386"),
        mac_os: platform("mac-os"),
        windows_x64: platform("windows-x64"),
        windows_x86: platform("windows-x86"),
    }
}

#[test]
fn runtimes_of_each_platform() {
    let pick = |os: &str, arch: &str| runtimes().get_os_version(os, arch).map(|p| p.jre_legacy[0].version.name.clone());
    assert_eq!(pick("windows", "x86"), Some("windows-x86-8".to_string()));
    assert_eq!(pick("windows", "x86_64"), Some("windows-x64-8".to_string()));
    assert_eq!(pick("windows", "aarch64"), None);
    assert_eq!(pick("macos", "aarch64"), Some("mac-os-8".to_string()));
    assert_eq!(pick("linux", "x86"), Some("linux-i386-8".to_string()));
    assert_eq!(pick("linux", "x86_64"), Some("linux-8".to_string()));
}

#[test]
fn runtime_components_by_name() {
    let p = platform("linux");
    let alpha = p.get_java_version(&"java-runtime-alpha".to_string()).unwrap();
    assert_eq!(alpha[0].version.name, "linux-16");
    let p = platform("linux");
    assert_eq!(p.get_java_version(&"jre-legacy".to_string()).unwrap()[0].version.name, "linux-8");
    let p = platform("linux");
    assert!(p.get_java_version(&"minecraft-java-exe".to_string()).unwrap().is_empty());
    let p = platform("linux");
    assert!(p.get_java_version(&"java-runtime-beta".to_string()).is_none());
}

fn element(kind: &str, executable: bool) -> Element {
    Element { element_type: kind.to_string(), executable, downloads: None, target: None }
}

#[test]
fn a_runtime_path_is_filed_once() {
    let mut files = Files::new();
    files.insert("bin".to_string(), element("directory", false));
    files.insert("bin/java".to_string(), element("file", false));
    files.insert("bin/java".to_string(), element("file", true));
    assert_eq!(files.files.len(), 2);
    assert_eq!(files.files[0].path, "bin");
    assert_eq!(files.files[1].path, "bin/java");
    assert!(files.files[1].element.executable);
}
