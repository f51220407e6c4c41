use std::cell::RefCell;
use std::collections::HashSet;

use yet_another_bg3_mod_loader::config::Config;
use yet_another_bg3_mod_loader::launcher_prefs::{is_dx11, Backend};
use yet_another_bg3_mod_loader::paths::{
    build_config_game_binary_paths, game_binary_dirs, get_bg3_local_dir, get_bg3_plugins_dir,
    bg3_dir_from, get_game_binary_paths, get_larian_local_dir, join_path, larian_dir_from, plugins_dir_from, path_components, paths_equal, strip_verbatim_prefix, Bg3Exes, PathsError,
};
use yet_another_bg3_mod_loader::popup::{MessageBoxIcon, MB_ICONERROR, MB_ICONINFORMATION};

#[test]
fn default_config() {
    let c = Config::default();
    assert_eq!(c.install_root, r"C:\Program Files (x86)\Steam\steamapps\common\Baldurs Gate 3");
    assert!(c.flags.is_empty());
    assert!(c.steam);
    assert!(c.disabled.is_empty());
}

#[test]
fn backend_values() {
    assert_eq!(Backend::default(), Backend::Dx11);
    assert_eq!(Backend::Vulkan.to_value(), 0);
    assert_eq!(Backend::Dx11.to_value(), 1);
    assert_eq!(Backend::from_value(0), Backend::Vulkan);
    assert_eq!(Backend::from_value(1), Backend::Dx11);
    assert_eq!(Backend::from_value(2), Backend::Vulkan);
    assert_eq!(Backend::from_value(7), Backend::Vulkan);
    assert!(is_dx11(&Backend::Dx11));
    assert!(!is_dx11(&Backend::Vulkan));
}

#[test]
fn backend_round_trip() {
    for b in [Backend::Vulkan, Backend::Dx11] {
        assert_eq!(Backend::from_value(b.to_value()), b);
    }
    for v in 0..=1u8 {
        assert_eq!(Backend::from_value(v).to_value(), v);
    }
    for v in 2..=255u8 {
        assert_eq!(Backend::from_value(v).to_value(), 0);
    }
}

#[test]
fn message_box_styles() {
    assert_eq!(MessageBoxIcon::Information.style(), MB_ICONINFORMATION);
    assert_eq!(MessageBoxIcon::Error.style(), MB_ICONERROR);
    assert_eq!(MB_ICONINFORMATION, 0x40);
    assert_eq!(MB_ICONERROR, 0x10);
}

#[test]
fn windows_joins() {
    assert_eq!(join_path(r"C:\Users\a", "Larian Studios"), r"C:\Users\a\Larian Studios");
    assert_eq!(join_path(r"C:\Users\a\", "x"), r"C:\Users\a\x");
    assert_eq!(join_path("C:/Users/a/", "x"), "C:/Users/a/x");
    assert_eq!(join_path("", "x"), "x");
    assert_eq!(join_path("C:", "x"), "C:x");
    assert_eq!(join_path("CD", "x"), r"CD\x");
}

#[test]
fn verbatim_prefix() {
    assert_eq!(strip_verbatim_prefix(r"\\?\C:\Games\bin\bg3.exe"), Some(r"C:\Games\bin\bg3.exe".to_string()));
    assert_eq!(strip_verbatim_prefix(r"C:\Games\bin\bg3.exe"), None);
}

#[test]
fn config_binary_paths() {
    let (a, b) = build_config_game_binary_paths(r"\\?\C:\Games\BG3");
    assert_eq!(a, r"C:\Games\BG3\bin\bg3.exe");
    assert_eq!(b, r"C:\Games\BG3\bin\bg3_dx11.exe");
    // without the verbatim prefix each path is kept as it is
    let (a, b) = build_config_game_binary_paths(r"C:\Games\BG3");
    assert_eq!(a, r"C:\Games\BG3\bin\bg3.exe");
    assert_eq!(b, r"C:\Games\BG3\bin\bg3_dx11.exe");
}

fn config(root: &str) -> Config {
    Config { install_root: root.to_string(), ..Config::default() }
}

#[test]
fn binary_search_dirs() {
    let dirs = game_binary_dirs(&config(r"D:\BG3"));
    assert_eq!(dirs, vec![".".to_string(), "..".to_string(), r"D:\BG3\bin".to_string()]);
}

#[test]
fn binaries_found_in_configured_root() {
    let files: HashSet<String> = [r"D:\BG3\bin\bg3.exe", r"D:\BG3\bin\bg3_dx11.exe"].iter().map(|s| s.to_string()).collect();
    let is_file = |p: &String| files.contains(p);
    let canon = |p: &String| if files.contains(p) { Some(format!(r"\\?\{p}")) } else { None };
    let r = get_game_binary_paths(&config(r"D:\BG3"), &is_file, &canon);
    assert_eq!(r, Some(Bg3Exes { bg3: r"D:\BG3\bin\bg3.exe".into(), bg3_dx11: r"D:\BG3\bin\bg3_dx11.exe".into() }));
}

#[test]
fn binaries_found_first_in_current_dir() {
    let files: HashSet<String> = [r".\bg3.exe", r".\bg3_dx11.exe", r"D:\BG3\bin\bg3.exe", r"D:\BG3\bin\bg3_dx11.exe"]
        .iter().map(|s| s.to_string()).collect();
    let is_file = |p: &String| files.contains(p);
    let canon = |p: &String| Some(format!(r"\\?\E:\cwd\{}", p.trim_start_matches(r".\")));
    let r = get_game_binary_paths(&config(r"D:\BG3"), &is_file, &canon).unwrap();
    assert_eq!(r.bg3, r"E:\cwd\bg3.exe");
    assert_eq!(r.bg3_dx11, r"E:\cwd\bg3_dx11.exe");
}

#[test]
fn binaries_need_both_files_and_canonical_paths() {
    // only one of the two executables exists anywhere
    let is_file = |p: &String| p.ends_with("bg3.exe");
    let canon = |p: &String| Some(p.clone());
    assert_eq!(get_game_binary_paths(&config(r"D:\BG3"), &is_file, &canon), None);
    // both exist but cannot be resolved
    let all = |_: &String| true;
    let never = |_: &String| None;
    assert_eq!(get_game_binary_paths(&config(r"D:\BG3"), &all, &never), None);
}

#[test]
fn local_dirs_with_and_without_folders() {
    // the real local data folder is whatever this machine has; every folder exists
    let yes = |_: &String| true;
    let no = |_: &String| false;
    match get_larian_local_dir(&yes) {
        Ok(p) => assert!(p.ends_with("Larian Studios")),
        Err(e) => assert_eq!(e, PathsError::NoBaseDirs),
    }
    match get_bg3_local_dir(&yes) {
        Ok(p) => assert!(p.ends_with(r"Larian Studios\Baldur's Gate 3")),
        Err(e) => assert_eq!(e, PathsError::NoBaseDirs),
    }
    match get_larian_local_dir(&no) {
        Ok(_) => panic!("no folder exists"),
        Err(e) => assert!(e == PathsError::NoBaseDirs || e == PathsError::LarianDirMissing),
    }
    let only_larian = |p: &String| p.ends_with("Larian Studios");
    match get_bg3_local_dir(&only_larian) {
        Ok(_) => panic!("the game folder does not exist"),
        Err(e) => assert!(e == PathsError::NoBaseDirs || e == PathsError::Bg3DirMissing),
    }
}

#[test]
fn plugins_dir_first_run_creates_folders() {
    let created = RefCell::new(Vec::new());
    let exists = |p: &String| !(p.ends_with("Plugins") || p.ends_with("logs"));
    let create = |p: &String| { created.borrow_mut().push(p.clone()); true };
    match get_bg3_plugins_dir(&exists, &create) {
        Ok((first, dir)) => {
            assert!(first);
            assert!(dir.ends_with(r"Baldur's Gate 3\Plugins"));
            assert_eq!(*created.borrow(), vec![dir.clone(), format!(r"{dir}\logs")]);
        }
        Err(e) => assert_eq!(e, PathsError::NoBaseDirs),
    }
}

#[test]
fn plugins_dir_later_runs_create_nothing() {
    let yes = |_: &String| true;
    let create = |_: &String| panic!("nothing to create");
    match get_bg3_plugins_dir(&yes, &create) {
        Ok((first, dir)) => {
            assert!(!first);
            assert!(dir.ends_with("Plugins"));
        }
        Err(e) => assert_eq!(e, PathsError::NoBaseDirs),
    }
}

#[test]
fn plugins_dir_creation_failure() {
    let exists = |p: &String| !p.ends_with("logs");
    let fail = |_: &String| false;
    match get_bg3_plugins_dir(&exists, &fail) {
        Ok(_) => panic!("the logs folder could not be made"),
        Err(PathsError::CreateDirFailed(d)) => assert!(d.ends_with(r"Plugins\logs")),
        Err(e) => assert_eq!(e, PathsError::NoBaseDirs),
    }
}

#[test]
fn paths_compare_by_components() {
    assert_eq!(path_components(r"C:\Games\\BG3\.\bin\"), vec!["C:", "Games", "BG3", "bin"]);
    assert_eq!(path_components(r"./a/../b"), vec![".", "a", "..", "b"]);
    assert_eq!(path_components(r"\\server\share"), vec!["server", "share"]);
    assert!(paths_equal(r"C:\Games\BG3\bin\bg3.exe", "C:/Games//BG3/./bin/bg3.exe"));
    assert!(!paths_equal(r"C:\Games\BG3\bin\bg3.exe", r"C:\Games\BG3\bin\bg3_dx11.exe"));
    assert!(!paths_equal(r"\a", "a"));
    assert!(!paths_equal(r"a\b", r"a\b\c"));
    // drive letters compare without case; a drive and its root differ
    assert!(paths_equal(r"c:\Games\bg3.exe", r"C:\Games\bg3.exe"));
    assert!(!paths_equal("C:", r"C:\"));
    assert!(!paths_equal(r"C:a", r"C:\a"));
    assert!(!paths_equal(r"C:\a", r"D:\a"));
    // a network path differs from a rooted one
    assert!(!paths_equal(r"\\server\share", r"\server\share"));
    assert!(paths_equal(r"\\server\share", "//server/share"));
}

#[test]
fn folders_from_a_given_local_data_folder() {
    let local = || Some(r"C:\Users\a\AppData\Local".to_string());
    let yes = |_: &String| true;
    let no = |_: &String| false;
    let only_larian = |p: &String| p.ends_with("Larian Studios");
    assert_eq!(larian_dir_from(None, &yes), Err(PathsError::NoBaseDirs));
    assert_eq!(larian_dir_from(local(), &yes), Ok(r"C:\Users\a\AppData\Local\Larian Studios".to_string()));
    assert_eq!(larian_dir_from(local(), &no), Err(PathsError::LarianDirMissing));
    assert_eq!(bg3_dir_from(None, &yes), Err(PathsError::NoBaseDirs));
    assert_eq!(bg3_dir_from(local(), &yes), Ok(r"C:\Users\a\AppData\Local\Larian Studios\Baldur's Gate 3".to_string()));
    assert_eq!(bg3_dir_from(local(), &no), Err(PathsError::LarianDirMissing));
    assert_eq!(bg3_dir_from(local(), &only_larian), Err(PathsError::Bg3DirMissing));

    let plugins = r"C:\Users\a\AppData\Local\Larian Studios\Baldur's Gate 3\Plugins".to_string();
    let created = RefCell::new(Vec::new());
    let create = |p: &String| { created.borrow_mut().push(p.clone()); true };
    let first_run = |p: &String| !(p.ends_with("Plugins") || p.ends_with("logs"));
    assert_eq!(plugins_dir_from(local(), &first_run, &create), Ok((true, plugins.clone())));
    assert_eq!(*created.borrow(), vec![plugins.clone(), format!(r"{plugins}\logs")]);
    assert_eq!(plugins_dir_from(local(), &yes, &create), Ok((false, plugins.clone())));
    assert_eq!(plugins_dir_from(None, &yes, &create), Err(PathsError::NoBaseDirs));
    assert_eq!(plugins_dir_from(local(), &only_larian, &create), Err(PathsError::Bg3DirMissing));
    let fail = |_: &String| false;
    assert_eq!(plugins_dir_from(local(), &first_run, &fail), Err(PathsError::CreateDirFailed(plugins)));
}
