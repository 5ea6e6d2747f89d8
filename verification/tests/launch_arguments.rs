use rusty_craft::app::launch_tab::{log_lines, GameLogTab};
use rusty_craft::app::Key;
use rusty_craft::arguments::{
    compare_versions, get_args_from_manifest, get_natives, match_rules, version_pattern, Environment, LaunchOptions,
};
use rusty_craft::launch::{is_excluded, pre_launch};
use rusty_craft::app::download_tab::Message;
use rusty_craft::manifest::version::{
    AssetIndex, Classifier, FeatureFlag, Library, LibraryDownload, LibraryDownloadArtifact, LibraryExtract, Main, Rule,
    RuleAction, StringPair, VersionType,
};
use rusty_craft::time::UtcTime;

fn manifest(id: &str) -> Main {
    Main {
        arguments: None,
        asset_index: None,
        assets: None,
        compliance_level: None,
        downloads: None,
        id: id.to_string(),
        java_version: None,
        libraries: Vec::new(),
        logging: None,
        main_class: "net.minecraft.client.main.Main".to_string(),
        minimum_launcher_version: None,
        release_time: UtcTime { secs: 0, nanos: 0 },
        time: UtcTime { secs: 0, nanos: 0 },
        _type: VersionType::Release,
        minecraft_arguments: None,
        inherits_from: None,
    }
}

fn env(os: &str, version: Option<(u64, u64, u64)>) -> Environment {
    Environment { os: os.to_string(), arch: "x86_64".to_string(), os_version: version }
}

fn os_rule(action: RuleAction, key: &str, value: &str) -> Rule {
    Rule { action, features: None, os: Some(vec![StringPair { key: key.to_string(), value: value.to_string() }]) }
}

fn options(demo: bool) -> LaunchOptions {
    LaunchOptions {
        natives_directory: "N".to_string(),
        classpath: "C".to_string(),
        player_name: "Steve".to_string(),
        version: "1.8.9".to_string(),
        game_directory: "G".to_string(),
        assets_directory: "A".to_string(),
        assets_index: "1.8".to_string(),
        player_uuid: "U".to_string(),
        player_token: "T".to_string(),
        user_type: "mojang".to_string(),
        version_type: "release".to_string(),
        demo,
        custom_resolution: false,
        width: None,
        height: None,
    }
}

#[test]
fn no_rules_allow() {
    assert!(match_rules(&Vec::new(), None, &env("linux", None)) == RuleAction::Allow);
}

#[test]
fn os_name_rules() {
    let rules = vec![os_rule(RuleAction::Allow, "name", "osx")];
    assert!(match_rules(&rules, None, &env("macos", None)) == RuleAction::Allow);
    assert!(match_rules(&rules, None, &env("linux", None)) == RuleAction::Disallow);
    let rules = vec![Rule { action: RuleAction::Allow, features: None, os: None }, os_rule(RuleAction::Disallow, "name", "osx")];
    assert!(match_rules(&rules, None, &env("macos", None)) == RuleAction::Disallow);
    assert!(match_rules(&rules, None, &env("windows", None)) == RuleAction::Allow);
}

#[test]
fn os_version_rules_read_the_version_pattern() {
    let rules = vec![os_rule(RuleAction::Allow, "version", "^10\\.")];
    assert!(match_rules(&rules, None, &env("windows", Some((10, 0, 0)))) == RuleAction::Allow);
    assert!(match_rules(&rules, None, &env("windows", Some((10, 0, 1)))) == RuleAction::Disallow);
    assert!(match_rules(&rules, None, &env("windows", None)) == RuleAction::Disallow);
    let exact = vec![os_rule(RuleAction::Allow, "version", "6.1.7601")];
    assert!(match_rules(&exact, None, &env("windows", Some((6, 1, 7601)))) == RuleAction::Allow);
    assert!(match_rules(&exact, None, &env("windows", Some((6, 1, 7600)))) == RuleAction::Disallow);
    let junk = vec![os_rule(RuleAction::Allow, "version", "vista")];
    assert!(match_rules(&junk, None, &env("windows", Some((6, 0, 0)))) == RuleAction::Disallow);
}

#[test]
fn feature_rules_read_the_options() {
    let rules = vec![Rule {
        action: RuleAction::Allow,
        features: Some(vec![FeatureFlag { name: "is_demo_user".to_string(), enabled: true }]),
        os: None,
    }];
    assert!(match_rules(&rules, Some(&options(true)), &env("linux", None)) == RuleAction::Allow);
    assert!(match_rules(&rules, Some(&options(false)), &env("linux", None)) == RuleAction::Disallow);
    assert!(match_rules(&rules, None, &env("linux", None)) == RuleAction::Disallow);
}

#[test]
fn legacy_arguments_are_split_on_spaces() {
    let mut m = manifest("1.8.9");
    m.minecraft_arguments = Some("--username ${auth_player_name} --version ${version_name}".to_string());
    let args = get_args_from_manifest(&m, &options(false), &env("linux", None), None).unwrap();
    assert_eq!(
        args,
        vec![
            "-Djava.library.path=${natives_directory}", "-cp", "${classpath}", "net.minecraft.client.main.Main",
            "--username", "${auth_player_name}", "--version", "${version_name}",
        ]
    );
    let mut o = options(false);
    let filled = o.fill_argument_list(args, "0.1.0", "G/resources");
    assert_eq!(
        filled,
        vec!["-Djava.library.path=N", "-cp", "C", "net.minecraft.client.main.Main", "--username", "Steve", "--version", "1.8.9"]
    );
    assert!(get_args_from_manifest(&manifest("x"), &options(false), &env("linux", None), None).is_none());
}

#[test]
fn plain_arguments_pass_unchanged() {
    let mut o = options(false);
    let args = vec!["--demo".to_string(), "-Xmx2G".to_string(), "$HOME".to_string()];
    assert_eq!(o.fill_argument_list(args.clone(), "0.1.0", "R"), args);
    let filled = o.fill_argument_list(
        vec!["${resolution_width}x${resolution_height}".to_string(), "${launcher_name}".to_string(), "${auth_session}".to_string()],
        "0.1.0",
        "R",
    );
    assert_eq!(filled, vec!["854x480", "Rusty-Craft", "T"]);
}

#[test]
fn launch_options_need_natives_and_an_asset_index() {
    let m = manifest("1.16.5");
    let no_natives = LaunchOptions::from_version(&m, "S".to_string(), "U".to_string(), "T".to_string(), "mojang".to_string(), None, "C".to_string(), "G".to_string(), "A".to_string());
    assert_eq!(no_natives.err(), Some("Unable to get natives directory!"));
    let no_index = LaunchOptions::from_version(&m, "S".to_string(), "U".to_string(), "T".to_string(), "mojang".to_string(), Some("N".to_string()), "C".to_string(), "G".to_string(), "A".to_string());
    assert_eq!(no_index.err(), Some("Unable to get asset index"));
    let mut m = manifest("1.16.5");
    m.asset_index = Some(AssetIndex { id: "1.16".to_string(), sha1: "s".to_string(), size: 1, total_size: 2, url: "u".to_string() });
    let o = LaunchOptions::from_version(&m, "S".to_string(), "U".to_string(), "T".to_string(), "mojang".to_string(), Some("N".to_string()), "C".to_string(), "G".to_string(), "A".to_string()).unwrap();
    assert_eq!(o.assets_index, "1.16");
    assert_eq!(o.version, "1.16.5");
    assert_eq!(o.version_type, "release");
    assert!(!o.demo && o.width.is_none());
}

#[test]
fn class_path_joins_the_placed_jars() {
    let paths = vec![Some("a.jar".to_string()), None, Some("b.jar".to_string())];
    assert_eq!(get_natives(&env("linux", None), &paths, &Some("v.jar".to_string())), "a.jar:b.jar:v.jar");
    assert_eq!(get_natives(&env("windows", None), &paths, &None), "a.jar;b.jar;");
}

#[test]
fn launch_tab_fills_the_arguments() {
    let mut m = manifest("1.8.9");
    m.assets = Some("legacy".to_string());
    m.minecraft_arguments = Some("--username ${auth_player_name} --assetIndex ${assets_index_name}".to_string());
    let mut tab = GameLogTab::new();
    let args = tab
        .init(&m, "Steve".to_string(), "U".to_string(), "T".to_string(), "mojang".to_string(), Some("bin/1.8.9".to_string()), "C".to_string(), "G".to_string(), "A".to_string(), &env("linux", None), None, "0.1.0", "R")
        .unwrap();
    assert_eq!(args[0], "-Djava.library.path=bin/1.8.9");
    assert_eq!(args[5], "Steve");
    assert_eq!(args[7], "legacy");
    assert_eq!(tab.launch_options.unwrap().player_name, "Steve");
    let mut tab = GameLogTab::new();
    assert!(tab.init(&m, "S".to_string(), "U".to_string(), "T".to_string(), "mojang".to_string(), None, "C".to_string(), "G".to_string(), "A".to_string(), &env("linux", None), None, "0.1.0", "R").is_none());
    assert!(tab.launch_options.is_none());
}

#[test]
fn game_output_lines() {
    let lines = log_lines("a\nb", "");
    assert_eq!(lines, vec!["==========Stdout=========", "a", "b", "==========Stderr=========", ""]);
    let mut tab = GameLogTab::new();
    tab.update_logs("a\nb", "");
    assert_eq!(tab.game_logs.items.len(), 5);
    assert_eq!(tab.game_logs.selected, Some(0));
    tab.on_key_press(Key::Down);
    assert_eq!(tab.game_logs.selected, Some(1));
    tab.update_logs("a", "");
    assert_eq!(tab.game_logs.items.len(), 5);
    assert_eq!(tab.game_logs.selected, Some(1));
}

fn native_library(name: &str) -> Library {
    Library {
        downloads: Some(LibraryDownload {
            artifact: None,
            classifiers: Some(vec![Classifier {
                name: "natives-linux".to_string(),
                artifact: LibraryDownloadArtifact { path: format!("{}-natives-linux.jar", name), sha1: "0".to_string(), size: 1, url: "u".to_string() },
            }]),
        }),
        name: format!("org.lwjgl:{}:3.2.2", name),
        extract: Some(LibraryExtract { exclude: vec!["META-INF/".to_string()] }),
        natives: Some(vec![StringPair { key: "linux".to_string(), value: "natives-linux".to_string() }]),
        rules: None,
        url: None,
    }
}

#[test]
fn natives_are_unpacked_before_launch() {
    let mut m = manifest("1.16.5");
    let plain = Library { downloads: None, name: "a:b:c".to_string(), extract: None, natives: None, rules: None, url: None };
    m.libraries = vec![plain, native_library("lwjgl"), native_library("glfw")];
    let (first, steps, last) = pre_launch(&m, &env("linux", None));
    assert!(matches!(first, Message::NewStep(7)));
    assert!(matches!(last, Message::NewStep(8)));
    assert_eq!(steps.len(), 2);
    assert_eq!(steps[0].extraction.library_path, "lwjgl-natives-linux.jar");
    match &steps[1].progress {
        Message::NewSubStep(p, i, n) => {
            assert_eq!(p, "glfw-natives-linux.jar");
            assert_eq!((*i, *n), (3, 3));
        }
        _ => panic!("a part report was expected"),
    }
    assert!(pre_launch(&m, &env("windows", None)).1.is_empty());
    let excludes = steps[0].extraction.exclude.clone().unwrap();
    assert!(is_excluded("META-INF", &excludes));
    assert!(is_excluded("META-INF/", &excludes));
    assert!(!is_excluded("liblwjgl.so", &excludes));
}

#[test]
fn version_patterns_are_cleaned() {
    assert_eq!(version_pattern("^10\\."), ("10.".to_string(), true));
    assert_eq!(version_pattern("10\\.0\\.\\d$"), ("10.0.0".to_string(), false));
    assert_eq!(version_pattern("^6\\.1"), ("6.1".to_string(), true));
    assert!(compare_versions(Some((10, 0, 0)), true, (10, 0, 0)));
    assert!(compare_versions(Some((11, 0, 0)), true, (10, 5, 5)));
    assert!(!compare_versions(Some((10, 0, 0)), true, (10, 0, 1)));
    assert!(compare_versions(Some((6, 1, 7601)), false, (6, 1, 7601)));
    assert!(!compare_versions(Some((6, 1, 7601)), false, (6, 1, 7600)));
    assert!(!compare_versions(None, true, (0, 0, 0)));
}
