use rusty_craft::app::download_tab::{get_step_name, DownloadTab, Message};
use rusty_craft::app::{Action, Key, Tab};
use rusty_craft::manifest::main::{MinVersion, VersionType as Channel};
use rusty_craft::manifest::version::{Main, VersionType};
use rusty_craft::modding::liteloader::LiteLoaderInstaller;
use rusty_craft::modding::rift::RiftInstaller;
use rusty_craft::modding::{ModLoader, VanillaLoader};
use rusty_craft::time::UtcTime;

fn at(secs: i64) -> UtcTime {
    UtcTime { secs, nanos: 0 }
}

fn manifest(id: &str) -> Main {
    Main {
        arguments: None,
        asset_index: None,
        assets: None,
        compliance_level: None,
        downloads: None,
        id: id.to_string(),
        java_version: None,
        libraries: Vec::new(),
        logging: None,
        main_class: "net.minecraft.client.main.Main".to_string(),
        minimum_launcher_version: None,
        release_time: at(0),
        time: at(0),
        _type: VersionType::Release,
        minecraft_arguments: None,
        inherits_from: None,
    }
}

fn min_version(id: &str) -> MinVersion {
    MinVersion { id: id.to_string(), _type: Channel::Release, release_time: at(0), installed: false }
}

#[test]
fn step_names() {
    assert_eq!(get_step_name(1), "Checking version manifest");
    assert_eq!(get_step_name(2), "Checking Java version");
    assert_eq!(get_step_name(3), "Checking client jar");
    assert_eq!(get_step_name(4), "Checking libraries");
    assert_eq!(get_step_name(5), "Checking assets");
    assert_eq!(get_step_name(6), "Checking log file");
    assert_eq!(get_step_name(7), "Extracting natives");
    assert_eq!(get_step_name(8), "Done");
    assert_eq!(get_step_name(0), "Done");
    assert_eq!(get_step_name(200), "Done");
}

#[test]
fn new_tab_is_at_the_first_step() {
    let tab = DownloadTab::new();
    assert!(!tab.started);
    assert_eq!(tab.current_step, 1);
    assert!(tab.current_sub_step.is_none());
    assert!(tab.error.is_none());
    assert!(matches!(tab.tick(), Action::Nothing));
    assert!(tab.get_bindings().is_empty());
    assert!(matches!(tab.on_key_press(Key::Enter), Action::Nothing));
}

#[test]
fn reports_update_the_progress() {
    let mut tab = DownloadTab::new();
    assert!(!tab.apply(Message::Init));
    assert!(tab.apply(Message::NewSubStep("Checking asset index".to_string(), 1, 3)));
    assert!(tab.apply(Message::NewSubSubStep("file".to_string(), 2, 9)));
    assert_eq!(tab.current_sub_sub_step.clone().unwrap().1, 2);
    assert!(!tab.apply(Message::NewStep(5)));
    assert_eq!(tab.current_step, 5);
    assert!(tab.current_sub_step.is_none());
    assert!(tab.current_sub_sub_step.is_none());
    assert!(tab.apply(Message::NewSubStep("part".to_string(), 2, 3)));
    assert!(tab.apply(Message::NewSubSubStep("file".to_string(), 1, 1)));
    assert!(tab.apply(Message::NewSubStep("other".to_string(), 3, 3)));
    assert!(tab.current_sub_sub_step.is_none());
    assert_eq!(tab.current_sub_step.clone().unwrap().0, "other");
    assert!(!tab.apply(Message::Error("boom".to_string())));
    assert_eq!(tab.error.as_deref(), Some("boom"));
    assert_eq!(tab.current_step, 5);
}

#[test]
fn draining_stops_at_reports_to_show() {
    let mut tab = DownloadTab::new();
    assert!(tab.drain_step(1, Message::NewSubSubStep("a".to_string(), 1, 2)));
    assert!(!tab.drain_step(101, Message::NewSubSubStep("b".to_string(), 2, 2)));
    assert!(tab.drain_step(100, Message::NewSubStep("c".to_string(), 1, 2)));
    assert!(!tab.drain_step(2, Message::NewStep(6)));
    assert!(!tab.drain_step(3, Message::Init));
}

#[test]
fn installed_version_opens_the_launch_tab() {
    let mut tab = DownloadTab::new();
    assert!(!tab.apply(Message::Done(manifest("1.16.5"))));
    match tab.tick() {
        Action::NextTab(Tab::Launch(v)) => assert_eq!(v.id, "1.16.5"),
        _ => panic!("the launch tab should open"),
    }
}

#[test]
fn starting_vanilla_installs_no_profile() {
    let mut tab = DownloadTab::new();
    let modded = tab.start(&min_version("1.16.5"), ModLoader::Vanilla(VanillaLoader {}), None, at(5));
    assert!(modded.is_none());
    assert!(tab.started);
    assert_eq!(tab.current_step, 1);
}

#[test]
fn starting_with_a_loader_builds_its_profile() {
    let mut tab = DownloadTab::new();
    let modded = tab.start(&min_version("1.13.2"), ModLoader::Rift(RiftInstaller {}), Some("FINAL".to_string()), at(5));
    let m = modded.unwrap();
    assert_eq!(m.id, "1.13.2-rift-FINAL");
    assert_eq!(m.inherits_from.as_deref(), Some("1.13.2"));
    let modded = tab.start(&min_version("1.12.2"), ModLoader::LiteLoader(LiteLoaderInstaller {}), None, at(5));
    assert_eq!(modded.unwrap().id, "1.12.2-LiteLoader1.12.2");
}

#[test]
fn a_first_init_report_ends_the_frame() {
    let mut tab = DownloadTab::new();
    assert!(!tab.first_report(Some(Message::Init)));
    assert!(tab.first_report(None));
    assert_eq!(tab.current_step, 1);
    assert!(tab.first_report(Some(Message::NewStep(4))));
    assert_eq!(tab.current_step, 4);
    assert!(tab.first_report(Some(Message::NewSubSubStep("file".to_string(), 1, 2))));
    assert_eq!(tab.current_sub_sub_step.clone().unwrap().1, 1);
}
