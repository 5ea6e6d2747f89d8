use rusty_craft::app::download_tab::Message;
use rusty_craft::app::{Action, App, Key, Step, Tab, TabBinding};
use rusty_craft::app::login_tab::LoginReply;
use rusty_craft::manifest::main::{MinVersion, VersionType};
use rusty_craft::manifest::version::{Main, VersionType as Kind};
use rusty_craft::modding::{ModLoader, VanillaLoader};
use rusty_craft::time::UtcTime;

fn rows() -> Vec<MinVersion> {
    vec![
        MinVersion { id: "1.16.5".to_string(), _type: VersionType::Release, release_time: UtcTime { secs: 2, nanos: 0 }, installed: true },
        MinVersion { id: "21w03a".to_string(), _type: VersionType::Snapshot, release_time: UtcTime { secs: 3, nanos: 0 }, installed: false },
    ]
}

fn manifest(id: &str) -> Main {
    Main {
        arguments: None,
        asset_index: None,
        assets: None,
        compliance_level: None,
        downloads: None,
        id: id.to_string(),
        java_version: None,
        libraries: Vec::new(),
        logging: None,
        main_class: "m".to_string(),
        minimum_launcher_version: None,
        release_time: UtcTime { secs: 0, nanos: 0 },
        time: UtcTime { secs: 0, nanos: 0 },
        _type: Kind::Release,
        minecraft_arguments: None,
        inherits_from: None,
    }
}

fn first_key(b: &TabBinding) -> String {
    match b {
        TabBinding::Default(k, _) => k.clone(),
        TabBinding::Enablable(k, _, _) => k.clone(),
    }
}

#[test]
fn app_starts_on_the_login_tab() {
    let app = App::new(rows(), Vec::new());
    assert!(matches!(app.current_tab, Tab::Login));
    assert_eq!(app.current_tab.index(), 0);
    assert_eq!(app.version_tab.mc_version_table.items.len(), 1);
    let b = app.get_bindings();
    assert_eq!(b.len(), 4);
    assert_eq!(first_key(&b[0]), "ESC");
    assert!(matches!(app.tick(), Action::Nothing));
}

#[test]
fn keys_go_to_the_tab_on_screen() {
    let mut app = App::new(rows(), Vec::new());
    app.on_key_press(Key::Char('x'));
    assert_eq!(app.login_tab.account, "x");
    app.on_key_press(Key::Enter);
    assert!(app.login_tab.pending_login);
    let next = app.login_tab.finish_login(Ok(LoginReply { access_token: "t".to_string(), profile: None }));
    assert!(matches!(app.follow(next), Step::Continue));
    assert!(matches!(app.current_tab, Tab::Version));
    assert_eq!(app.get_bindings().len(), 6);
    app.on_key_press(Key::Char('s'));
    assert_eq!(app.version_tab.mc_version_table.items.len(), 2);
}

#[test]
fn opening_the_installation_starts_it() {
    let mut app = App::new(rows(), Vec::new());
    let tab = Tab::Download(rows()[0].clone(), Vec::new(), ModLoader::Vanilla(VanillaLoader {}), None);
    match app.follow(Action::NextTab(tab)) {
        Step::StartDownload(v, vs, l, lv) => {
            assert_eq!(v.id, "1.16.5");
            assert!(vs.is_empty());
            assert!(l.is_vanilla());
            assert!(lv.is_none());
        }
        _ => panic!("the installation should start"),
    }
    assert_eq!(app.current_tab.index(), 2);
    assert_eq!(app.get_bindings().len(), 1);
    assert!(matches!(app.tick(), Action::Nothing));
    app.download_tab.apply(Message::Done(manifest("1.16.5")));
    let next = app.tick();
    match app.follow(next) {
        Step::StartLaunch(v) => assert_eq!(v.id, "1.16.5"),
        _ => panic!("the launch should start"),
    }
    assert_eq!(app.current_tab.index(), 3);
    assert!(matches!(app.follow(Action::Nothing), Step::Continue));
    assert_eq!(app.current_tab.index(), 3);
}

#[test]
fn tabs_copy_what_they_were_opened_with() {
    let tab = Tab::Launch(manifest("1.12.2"));
    match tab.clone() {
        Tab::Launch(v) => assert_eq!(v.id, "1.12.2"),
        _ => panic!("a launch tab was expected"),
    }
    assert_eq!(Tab::ModVersion.clone().index(), 5);
}
