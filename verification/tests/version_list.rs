use rusty_craft::manifest::main::Version;
use rusty_craft::manifest::version::{Main, VersionType};
use rusty_craft::time::UtcTime;
use rusty_craft::version_list::{merge_versions, prepare_versions, sort_order_desc, sort_published};

fn at(secs: i64) -> UtcTime {
    UtcTime { secs, nanos: 0 }
}

fn installed(id: &str, secs: i64) -> Main {
    Main {
        arguments: None,
        asset_index: None,
        assets: None,
        compliance_level: None,
        downloads: None,
        id: id.to_string(),
        java_version: None,
        libraries: Vec::new(),
        logging: None,
        main_class: "m".to_string(),
        minimum_launcher_version: None,
        release_time: at(secs),
        time: at(secs),
        _type: VersionType::Release,
        minecraft_arguments: None,
        inherits_from: None,
    }
}

fn published(id: &str, t: &str, secs: i64) -> Version {
    Version {
        id: id.to_string(),
        _type: t.to_string(),
        url: format!("https://a/{}.json", id),
        time: at(secs),
        release_time: at(secs),
        sha1: "0".to_string(),
        compliance_level: 0,
    }
}

#[test]
fn order_is_newest_first_with_ties_latest_first() {
    let keys = vec![at(5), at(9), at(5), at(1), at(9)];
    assert_eq!(sort_order_desc(&keys), vec![4, 1, 2, 0, 3]);
    assert_eq!(sort_order_desc(&Vec::new()), Vec::<usize>::new());
    let nanos = vec![UtcTime { secs: 1, nanos: 2 }, UtcTime { secs: 1, nanos: 3 }];
    assert_eq!(sort_order_desc(&nanos), vec![1, 0]);
}

#[test]
fn order_matches_stable_sort_then_reverse() {
    let keys: Vec<UtcTime> = (0..40).map(|i| at((i * 7 % 11) as i64)).collect();
    let mut expected: Vec<usize> = (0..keys.len()).collect();
    expected.sort_by(|a, b| (keys[*a].secs, keys[*a].nanos).cmp(&(keys[*b].secs, keys[*b].nanos)));
    expected.reverse();
    assert_eq!(sort_order_desc(&keys), expected);
}

#[test]
fn published_versions_newest_first() {
    let sorted = sort_published(vec![published("1.0", "release", 1), published("1.2", "release", 3), published("1.1", "release", 2)]);
    let ids: Vec<String> = sorted.iter().map(|v| v.id.clone()).collect();
    assert_eq!(ids, vec!["1.2", "1.1", "1.0"]);
}

#[test]
fn merge_skips_modded_and_installed_duplicates() {
    let inst = vec![installed("1.16.5", 40), installed("1.16.5-fabric", 41), installed("1.12.2-forge", 30)];
    let publ = vec![published("21w03a", "snapshot", 50), published("1.16.5", "release", 40), published("1.13.2", "release", 30)];
    let rows = merge_versions(&inst, &publ);
    let ids: Vec<String> = rows.iter().map(|v| v.id.clone()).collect();
    assert_eq!(ids, vec!["1.16.5", "21w03a", "1.13.2"]);
    assert!(rows[0].installed);
    assert!(!rows[1].installed);
    assert_eq!(rows[1]._type.to_string(), "snapshot");
}

#[test]
fn prepared_table_is_newest_first_and_keeps_every_row() {
    let inst = vec![installed("1.8.9", 10), installed("1.16.5", 40)];
    let publ = vec![published("1.13.2", "release", 30), published("21w03a", "snapshot", 50), published("1.16.5", "release", 40), published("b1.7.3", "old_beta", 5)];
    let (rows, versions) = prepare_versions(inst, publ);
    let ids: Vec<String> = rows.iter().map(|v| v.id.clone()).collect();
    assert_eq!(ids, vec!["21w03a", "1.16.5", "1.13.2", "1.8.9", "b1.7.3"]);
    let installed_flags: Vec<bool> = rows.iter().map(|v| v.installed).collect();
    assert_eq!(installed_flags, vec![false, true, false, true, false]);
    let published_ids: Vec<String> = versions.iter().map(|v| v.id.clone()).collect();
    assert_eq!(published_ids, vec!["21w03a", "1.16.5", "1.13.2", "b1.7.3"]);
    for w in rows.windows(2) {
        assert!(w[1].release_time.is_before_or_at(&w[0].release_time));
    }
}
