use rusty_craft::app::version_tab::{version_row, VersionTab};
use rusty_craft::app::{Action, Key, Tab, TabBinding};
use rusty_craft::manifest::main::{MinVersion, Version, VersionType};
use rusty_craft::manifest::version::StringPair;
use rusty_craft::modding::ModLoader;
use rusty_craft::time::UtcTime;

fn row(id: &str, t: VersionType, secs: i64) -> MinVersion {
    MinVersion { id: id.to_string(), _type: t, release_time: UtcTime { secs, nanos: 0 }, installed: false }
}

fn versions() -> Vec<MinVersion> {
    vec![
        row("21w03a", VersionType::Snapshot, 50),
        row("1.16.5", VersionType::Release, 40),
        row("1.13.2", VersionType::Release, 30),
        row("b1.7.3", VersionType::OldBeta, 20),
        row("a1.0.4", VersionType::OldAlpha, 10),
    ]
}

fn published() -> Vec<Version> {
    vec![Version {
        id: "1.16.5".to_string(),
        _type: "release".to_string(),
        url: "https://a/1.16.5.json".to_string(),
        time: UtcTime { secs: 40, nanos: 0 },
        release_time: UtcTime { secs: 40, nanos: 0 },
        sha1: "0".to_string(),
        compliance_level: 1,
    }]
}

fn table_ids(tab: &VersionTab) -> Vec<String> {
    tab.mc_version_table.items.iter().map(|v| v.id.clone()).collect()
}

#[test]
fn only_releases_are_shown_at_first() {
    let tab = VersionTab::new(versions(), published());
    assert_eq!(table_ids(&tab), vec!["1.16.5", "1.13.2"]);
    assert_eq!(tab.mc_version_table.selected, Some(0));
}

#[test]
fn s_and_o_show_more_versions() {
    let mut tab = VersionTab::new(versions(), published());
    assert!(matches!(tab.on_key_press(Key::Char('s')), Action::Nothing));
    assert_eq!(table_ids(&tab), vec!["21w03a", "1.16.5", "1.13.2"]);
    tab.on_key_press(Key::Char('o'));
    assert_eq!(table_ids(&tab), vec!["21w03a", "1.16.5", "1.13.2", "b1.7.3", "a1.0.4"]);
    tab.on_key_press(Key::Char('s'));
    assert_eq!(table_ids(&tab), vec!["1.16.5", "1.13.2", "b1.7.3", "a1.0.4"]);
    tab.on_key_press(Key::Char('x'));
    assert!(!tab.snapshot && tab.old);
}

#[test]
fn choosing_a_version_then_vanilla_opens_the_installation() {
    let mut tab = VersionTab::new(versions(), published());
    tab.on_key_press(Key::Down);
    assert_eq!(tab.mc_version_table.selected, Some(1));
    assert!(matches!(tab.on_key_press(Key::Enter), Action::Nothing));
    assert_eq!(tab.selected.clone().unwrap().id, "1.13.2");
    let names: Vec<String> = tab.loader_list.items.iter().map(|l| l.get_name()).collect();
    assert_eq!(names, vec!["Vanilla", "Rift"]);
    match tab.on_key_press(Key::Enter) {
        Action::NextTab(Tab::Download(v, vs, l, lv)) => {
            assert_eq!(v.id, "1.13.2");
            assert_eq!(vs.len(), 1);
            assert!(l.is_vanilla());
            assert!(lv.is_none());
        }
        _ => panic!("the installation should open"),
    }
}

#[test]
fn choosing_a_loader_asks_for_its_builds() {
    let mut tab = VersionTab::new(versions(), published());
    tab.on_key_press(Key::Down);
    tab.on_key_press(Key::Enter);
    tab.on_key_press(Key::Down);
    assert!(matches!(tab.on_key_press(Key::Enter), Action::Nothing));
    assert!(tab.pending_loader_versions);
    assert!(matches!(tab.selected_mod_loader, Some(ModLoader::Rift(_))));
    tab.receive_loader_versions(vec![StringPair { key: "FINAL".to_string(), value: "Unknown".to_string() }]);
    assert!(!tab.pending_loader_versions);
    assert_eq!(tab.loader_version_list.items, vec!["FINAL"]);
    match tab.on_key_press(Key::Enter) {
        Action::NextTab(Tab::Download(v, _, l, lv)) => {
            assert_eq!(v.id, "1.13.2");
            assert!(matches!(l, ModLoader::Rift(_)));
            assert_eq!(lv.as_deref(), Some("FINAL"));
        }
        _ => panic!("the installation should open"),
    }
    assert!(tab.selected_mod_loader.is_none());
}

#[test]
fn left_takes_back_the_last_choice() {
    let mut tab = VersionTab::new(versions(), published());
    tab.on_key_press(Key::Enter);
    assert!(tab.selected.is_some());
    tab.on_key_press(Key::Enter);
    tab.on_key_press(Key::Left);
    assert!(tab.selected_mod_loader.is_none());
    assert!(tab.selected.is_some());
    tab.on_key_press(Key::Left);
    assert!(tab.selected.is_none());
    tab.on_key_press(Key::Left);
    assert!(tab.selected.is_none());
}

#[test]
fn arrows_move_in_the_list_on_screen() {
    let mut tab = VersionTab::new(versions(), published());
    tab.on_key_press(Key::Up);
    assert_eq!(tab.mc_version_table.selected, Some(1));
    tab.on_key_press(Key::Enter);
    tab.on_key_press(Key::Up);
    assert_eq!(tab.loader_list.selected, Some(1));
    assert_eq!(tab.mc_version_table.selected, Some(1));
}

#[test]
fn bindings_show_the_options() {
    let mut tab = VersionTab::new(versions(), published());
    tab.on_key_press(Key::Char('o'));
    let b = tab.get_bindings();
    assert_eq!(b.len(), 5);
    match &b[0] {
        TabBinding::Default(k, d) => {
            assert_eq!(k, "ENTER");
            assert_eq!(d, "Install and Launch selected version");
        }
        _ => panic!("a plain binding was expected"),
    }
    match (&b[3], &b[4]) {
        (TabBinding::Enablable(s, _, on_s), TabBinding::Enablable(o, _, on_o)) => {
            assert_eq!(s, "S");
            assert_eq!(o, "O");
            assert!(!*on_s);
            assert!(*on_o);
        }
        _ => panic!("option bindings were expected"),
    }
    assert!(matches!(tab.tick(), Action::Nothing));
}

#[test]
fn table_rows() {
    let mut v = row("1.16.5", VersionType::Release, 0);
    assert_eq!(version_row(&v), ("1.16.5".to_string(), "release".to_string(), "No".to_string()));
    v.installed = true;
    v._type = VersionType::Other("pending".to_string());
    assert_eq!(version_row(&v).1, "pending");
    assert_eq!(version_row(&v).2, "Yes");
}
