use rusty_craft::arguments::LaunchOptions;
use std::path::Path;
use rusty_craft::options::{get_option_to_arg_map, OptionField};
use rusty_craft::path::{
    get_assets_folder, get_bin_folder, get_java_folder_path, get_java_folder_path_sub, get_library_path, is_placeable_path,
    get_minecraft_directory_name, get_minecraft_sub_folder, get_version_folder, minecraft_directory_in_data_dir,
    read_file_from_url_to_string, ReturnType,
};

fn options() -> LaunchOptions {
    LaunchOptions {
        natives_directory: "bin/1.16.5".to_string(),
        classpath: "a.jar:b.jar".to_string(),
        player_name: "Steve".to_string(),
        version: "1.16.5".to_string(),
        game_directory: "/home/steve/.minecraft".to_string(),
        assets_directory: "/home/steve/.minecraft/assets".to_string(),
        assets_index: "1.16".to_string(),
        player_uuid: "uuid".to_string(),
        player_token: "token".to_string(),
        user_type: "mojang".to_string(),
        version_type: "release".to_string(),
        demo: false,
        custom_resolution: false,
        width: None,
        height: Some("720".to_string()),
    }
}

#[test]
fn folders_below_the_game_directory() {
    assert_eq!(get_minecraft_sub_folder("resources").folders, vec!["resources"]);
    assert_eq!(get_version_folder("1.16.5").folders, vec!["versions", "1.16.5"]);
    assert_eq!(get_assets_folder("indexes").folders, vec!["assets", "indexes"]);
    assert_eq!(get_bin_folder("1.16.5".to_string()).folders, vec!["bin/1.16.5"]);
    let lib = get_library_path("com/mojang/brigadier/1.0.17/brigadier-1.0.17.jar");
    assert_eq!(lib.folders, vec!["libraries", "com/mojang/brigadier/1.0.17"]);
    assert_eq!(lib.file.as_deref(), Some("brigadier-1.0.17.jar"));
    let plain = get_library_path("natives");
    assert_eq!(plain.folders, vec!["libraries", "natives"]);
    assert!(plain.file.is_none());
}

#[test]
fn java_runtime_folders() {
    assert_eq!(get_java_folder_path("java-runtime-alpha", "windows", "x86_64").folders, vec!["runtime", "java-runtime-alpha", "windows-x64"]);
    assert_eq!(get_java_folder_path("jre-legacy", "windows", "x86").folders[2], "windows-x86");
    assert_eq!(get_java_folder_path("jre-legacy", "macos", "aarch64").folders[2], "mac-os");
    assert_eq!(get_java_folder_path("jre-legacy", "linux", "x86").folders[2], "linux-i386");
    let sub = get_java_folder_path_sub("jre-legacy", "linux", "x86_64");
    assert_eq!(sub.folders, vec!["runtime", "jre-legacy", "linux"]);
    assert_eq!(sub.file.as_deref(), Some("jre-legacy"));
}

#[test]
fn game_directory_name_per_system() {
    assert_eq!(get_minecraft_directory_name("macos"), "minecraft");
    assert_eq!(get_minecraft_directory_name("linux"), ".minecraft");
    assert_eq!(get_minecraft_directory_name("windows"), ".minecraft");
    assert!(minecraft_directory_in_data_dir("windows"));
    assert!(minecraft_directory_in_data_dir("macos"));
    assert!(!minecraft_directory_in_data_dir("linux"));
}

#[test]
fn downloaded_text() {
    let ok = read_file_from_url_to_string("https://x", Ok(ReturnType::String("body".to_string())));
    assert_eq!(ok, Ok("body".to_string()));
    let wrong = read_file_from_url_to_string("https://x", Ok(ReturnType::U8Vec(vec![1, 2])));
    assert_eq!(wrong, Err("Wrong Return type, expected String found Vec<u8>!".to_string()));
    let failed = read_file_from_url_to_string("https://x", Err("timed out".to_string()));
    assert_eq!(failed, Err("Failed to download https://x: timed out".to_string()));
}

#[test]
fn option_placeholders() {
    let map = get_option_to_arg_map();
    let names: Vec<&str> = map.iter().map(|e| e.1).collect();
    assert_eq!(
        names,
        vec![
            "natives_directory", "classpath", "auth_player_name", "version_name", "game_directory", "assets_root",
            "assets_index_name", "auth_uuid", "auth_access_token", "user_type", "version_type", "resolution_width",
            "resolution_height",
        ]
    );
    let o = options();
    assert_eq!(map[2].0.get(&o), "Steve");
    assert_eq!(OptionField::Width.get(&o), "");
    assert_eq!(OptionField::Height.get(&o), "720");
    assert_eq!(OptionField::Classpath.get(&o), "a.jar:b.jar");
    for i in 0..map.len() {
        for j in (i + 1)..map.len() {
            assert!(map[i].0 != map[j].0);
        }
    }
}

#[test]
fn library_paths_split_as_paths_do() {
    let cases = ["a/b/", "a//b", "/b", "//b", "./b", "a/./b/.", "a/..", "../a", "./", "a/", "x/y/z.jar"];
    for case in cases {
        assert!(is_placeable_path(case));
        let path = Path::new(case);
        let parent = path.parent().unwrap().to_str().unwrap();
        let last = path.components().last().unwrap().as_os_str().to_str().unwrap().to_string();
        let plan = get_library_path(case);
        assert_eq!(plan.folders, vec!["libraries", parent], "folder of {}", case);
        assert_eq!(plan.file, Some(last), "file of {}", case);
    }
    assert_eq!(get_library_path("a/b/").folders, vec!["libraries", "a"]);
    assert_eq!(get_library_path("a/b/").file.as_deref(), Some("b"));
    assert_eq!(get_library_path("/b").folders, vec!["libraries", "/"]);
}

#[test]
fn paths_made_of_a_root_cannot_be_placed() {
    for case in ["/", "//", "/.", "/./"] {
        assert!(Path::new(case).parent().is_none());
        assert!(!is_placeable_path(case));
    }
    assert!(is_placeable_path("natives"));
}
