use rusty_craft::app::download_tab::Message;
use rusty_craft::install::assets::{
    after_index_fetch, index_action, index_download_error, install_assets_index, object_download_error,
    update_assets_start, AssetInstall, AssetPass, AssetWork, IndexFetch,
};
use rusty_craft::install::{asset_object_action, AssetAction, FileAction, FileState};
use rusty_craft::manifest::assets::{AssetIndex as Object, AssetObject, Main as Index};
use rusty_craft::manifest::version::{AssetIndex, Main, VersionType};
use rusty_craft::time::UtcTime;

fn manifest(asset_index: Option<AssetIndex>) -> Main {
    Main {
        arguments: None,
        asset_index,
        assets: None,
        compliance_level: None,
        downloads: None,
        id: "1.16.5".to_string(),
        java_version: None,
        libraries: Vec::new(),
        logging: None,
        main_class: "net.minecraft.client.main.Main".to_string(),
        minimum_launcher_version: None,
        release_time: UtcTime { secs: 0, nanos: 0 },
        time: UtcTime { secs: 0, nanos: 0 },
        _type: VersionType::Release,
        minecraft_arguments: None,
        inherits_from: None,
    }
}

fn object(name: &str, hash: &str, size: u64) -> AssetObject {
    AssetObject { name: name.to_string(), asset: Object { hash: hash.to_string(), size } }
}

fn sub_step(m: &Message) -> (String, u64, u64) {
    match m {
        Message::NewSubStep(n, i, c) => (n.clone(), *i, *c),
        _ => panic!("a part report was expected"),
    }
}

fn file_step(m: &Message) -> (String, u64, u64) {
    match m {
        Message::NewSubSubStep(n, i, c) => (n.clone(), *i, *c),
        _ => panic!("a file report was expected"),
    }
}

#[test]
fn manifest_without_asset_index_stops() {
    let (messages, fetch) = install_assets_index(&manifest(None));
    assert!(fetch.is_none());
    assert_eq!(messages.len(), 3);
    assert!(matches!(messages[0], Message::NewStep(5)));
    assert_eq!(sub_step(&messages[1]), ("Checking asset index".to_string(), 1, 3));
    match &messages[2] {
        Message::Error(e) => assert_eq!(e, "Version manifest doesn't contain any asset index!"),
        _ => panic!("an error was expected"),
    }
}

#[test]
fn asset_index_is_fetched_by_id() {
    let index = AssetIndex {
        id: "1.16".to_string(),
        sha1: "abc".to_string(),
        size: 295417,
        total_size: 330000000,
        url: "https://launchermeta.mojang.com/v1/packages/abc/1.16.json".to_string(),
    };
    let (messages, fetch) = install_assets_index(&manifest(Some(index)));
    assert_eq!(messages.len(), 2);
    let f = fetch.unwrap();
    assert_eq!(f.id, "1.16");
    assert_eq!(f.file_name, "1.16.json");
    assert_eq!(f.size, 295417);
    assert_eq!(f.url, "https://launchermeta.mojang.com/v1/packages/abc/1.16.json");
    match index_download_error("timeout") {
        Message::Error(e) => assert_eq!(e, "Unable to download asset index file: timeout"),
        _ => panic!("an error was expected"),
    }
    assert_eq!(sub_step(&update_assets_start()), ("Installing missing assets".to_string(), 2, 3));
}

#[test]
fn objects_are_checked_then_copied() {
    let index = Index {
        objects: vec![object("icons/icon_16x16.png", "bdf48ef6b5d0d23bbb02e17d04865216179f510a", 3665), object("sound.ogg", "ab", 10)],
        map_to_resources: true,
    };
    let (mut install, started) = AssetInstall::new(index);
    assert!(started.is_none());
    assert!(install.pass == AssetPass::Objects);
    match install.next_work() {
        AssetWork::Check { progress, object, folder, file, url } => {
            assert_eq!(file_step(&progress), ("icons/icon_16x16.png".to_string(), 1, 2));
            assert_eq!(object.asset.size, 3665);
            assert_eq!(folder, "bd");
            assert_eq!(file, "bdf48ef6b5d0d23bbb02e17d04865216179f510a");
            assert_eq!(url, "https://resources.download.minecraft.net/bd/bdf48ef6b5d0d23bbb02e17d04865216179f510a");
            assert!(asset_object_action(&FileState::Present(Some(3665)), &object.asset) == AssetAction::Keep);
            assert!(asset_object_action(&FileState::Present(Some(1)), &object.asset) == AssetAction::Download);
            assert!(asset_object_action(&FileState::Missing, &object.asset) == AssetAction::CreateFolderAndDownload);
        }
        _ => panic!("a check was expected"),
    }
    assert!(install.record(Ok(())).is_none());
    assert_eq!(install.position, 1);
    match install.record(Ok(())) {
        Some(m) => assert_eq!(sub_step(&m), ("Relocating to resources folder".to_string(), 3, 3)),
        None => panic!("the copies should be reported"),
    }
    assert!(install.pass == AssetPass::Resources);
    match install.next_work() {
        AssetWork::Copy { progress, folder, file, target } => {
            assert_eq!(file_step(&progress), ("icons/icon_16x16.png".to_string(), 1, 2));
            assert_eq!(folder, "bd");
            assert_eq!(file, "bdf48ef6b5d0d23bbb02e17d04865216179f510a");
            let target = target.unwrap();
            assert_eq!(target.folders, vec!["resources", "icons"]);
            assert_eq!(target.file.as_deref(), Some("icon_16x16.png"));
        }
        _ => panic!("a copy was expected"),
    }
    install.record(Ok(()));
    match install.next_work() {
        AssetWork::Copy { target, .. } => {
            let target = target.unwrap();
            assert_eq!(target.folders, vec!["resources"]);
            assert_eq!(target.file.as_deref(), Some("sound.ogg"));
        }
        _ => panic!("a copy was expected"),
    }
    assert!(install.record(Ok(())).is_none());
    assert!(install.pass == AssetPass::Done);
    assert!(matches!(install.next_work(), AssetWork::Finished));
}

#[test]
fn failed_download_stops_with_its_report() {
    let index = Index { objects: vec![object("a", "ab", 1), object("b", "cd", 2)], map_to_resources: false };
    let (mut install, _) = AssetInstall::new(index);
    let report = object_download_error("a", "404");
    assert_eq!(report, "Unable to download file a: 404");
    match install.record(Err(Some(report))) {
        Some(Message::Error(e)) => assert_eq!(e, "Unable to download file a: 404"),
        _ => panic!("the error should be reported"),
    }
    assert!(install.pass == AssetPass::Failed);
    assert!(matches!(install.next_work(), AssetWork::Stopped));
}

#[test]
fn silent_failure_reports_nothing() {
    let index = Index { objects: vec![object("a", "ab", 1)], map_to_resources: true };
    let (mut install, _) = AssetInstall::new(index);
    install.record(Ok(()));
    assert!(install.pass == AssetPass::Resources);
    assert!(install.record(Err(None)).is_none());
    assert!(install.pass == AssetPass::Failed);
}

#[test]
fn empty_index_finishes_at_once() {
    let (install, started) = AssetInstall::new(Index { objects: Vec::new(), map_to_resources: false });
    assert!(started.is_none());
    assert!(install.pass == AssetPass::Done);
    let (install, started) = AssetInstall::new(Index { objects: Vec::new(), map_to_resources: true });
    assert_eq!(sub_step(&started.unwrap()), ("Relocating to resources folder".to_string(), 3, 3));
    assert!(install.pass == AssetPass::Done);
}

#[test]
fn every_step_brings_the_end_closer() {
    let index = Index { objects: vec![object("a", "ab", 1), object("b", "cd", 2), object("c", "ef", 3)], map_to_resources: true };
    let (mut install, _) = AssetInstall::new(index);
    let mut steps = 0;
    while install.pass == AssetPass::Objects || install.pass == AssetPass::Resources {
        install.record(Ok(()));
        steps += 1;
        assert!(steps <= 6);
    }
    assert_eq!(steps, 6);
    assert!(install.pass == AssetPass::Done);
}

fn fetch(size: u64) -> IndexFetch {
    IndexFetch {
        id: "1.16".to_string(),
        file_name: "1.16.json".to_string(),
        url: "https://example.net/1.16.json".to_string(),
        size,
    }
}

#[test]
fn index_is_fetched_when_missing_or_of_another_size() {
    assert!(index_action(&FileState::Missing, &fetch(10)) == FileAction::Download);
    assert!(index_action(&FileState::Present(Some(9)), &fetch(10)) == FileAction::Download);
    assert!(index_action(&FileState::Present(Some(10)), &fetch(10)) == FileAction::Keep);
    assert!(index_action(&FileState::Present(None), &fetch(10)) == FileAction::Download);
}

#[test]
fn missing_index_file_stops_with_its_error() {
    let (messages, go_on) = after_index_fetch(false);
    assert!(!go_on);
    assert_eq!(messages.len(), 2);
    assert_eq!(sub_step(&messages[0]), ("Installing missing assets".to_string(), 2, 3));
    match &messages[1] {
        Message::Error(e) => assert_eq!(e, "Asset index file doesn't exist"),
        _ => panic!("an error report was expected"),
    }
}

#[test]
fn present_index_file_goes_on_to_the_objects() {
    let (messages, go_on) = after_index_fetch(true);
    assert!(go_on);
    assert_eq!(messages.len(), 1);
    assert_eq!(sub_step(&messages[0]), ("Installing missing assets".to_string(), 2, 3));
}

#[test]
fn an_object_name_is_filed_once() {
    let mut index = Index::new(true);
    index.insert("a".to_string(), Object { hash: "ab".to_string(), size: 1 });
    index.insert("b".to_string(), Object { hash: "cd".to_string(), size: 2 });
    index.insert("a".to_string(), Object { hash: "ef".to_string(), size: 3 });
    assert!(index.map_to_resources);
    assert_eq!(index.objects.len(), 2);
    assert_eq!(index.objects[0].name, "a");
    assert_eq!(index.objects[0].asset.hash, "ef");
    assert_eq!(index.objects[0].asset.size, 3);
    assert_eq!(index.objects[1].name, "b");
    assert_eq!(index.objects[1].asset.hash, "cd");
}

#[test]
fn a_name_without_parent_folder_has_no_copy_target() {
    let index = Index { objects: vec![object("/", "ab", 1), object("sounds/", "cd", 2)], map_to_resources: true };
    let (mut install, _) = AssetInstall::new(index);
    install.record(Ok(()));
    install.record(Ok(()));
    assert!(install.pass == AssetPass::Resources);
    match install.next_work() {
        AssetWork::Copy { target, .. } => assert!(target.is_none()),
        _ => panic!("a copy was expected"),
    }
    install.record(Ok(()));
    match install.next_work() {
        AssetWork::Copy { target, .. } => {
            let target = target.unwrap();
            assert_eq!(target.folders, vec!["resources", ""]);
            assert_eq!(target.file.as_deref(), Some("sounds"));
        }
        _ => panic!("a copy was expected"),
    }
}
