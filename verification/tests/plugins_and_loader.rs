use yet_another_bg3_mod_loader::config::Config;
use yet_another_bg3_mod_loader::injector::{
    dir_id, dirty_prefixes, is_disabled, is_dll_extension, is_plugin_file, module_is_dirty, plan_plugin,
    plugin_display_name, to_lowercase, PluginInfo, PluginPlan,
};
use yet_another_bg3_mod_loader::loader::{
    find_game_pid, game_exes, game_wait_over, init_address, loader_display_name, LoaderInfo,
};
use yet_another_bg3_mod_loader::loader::write::{allocation_alignment, allocation_size};
use yet_another_bg3_mod_loader::wide::encode_wide_nul;

fn info(name: Option<&str>, major: u32, minor: u32, patch: u32) -> Option<PluginInfo> {
    Some(PluginInfo { name: name.map(|s| s.to_string()), major, minor, patch })
}

#[test]
fn plugin_names() {
    assert_eq!(plugin_display_name("FooBar", &info(Some("Foo Bar"), 1, 20, 3)), "Foo Bar v1.20.3 (FooBar.dll)");
    assert_eq!(plugin_display_name("FooBar", &info(None, 0, 0, 7)), "FooBar.dll v0.0.7");
    assert_eq!(plugin_display_name("FooBar", &None), "FooBar.dll");
}

#[test]
fn disabled_plugins_ignore_case() {
    let disabled = vec!["FooBar".to_string(), "Ünicode".to_string()];
    assert!(is_disabled(&disabled, "foobar"));
    assert!(is_disabled(&disabled, "FOOBAR"));
    assert!(is_disabled(&disabled, "ünicode"));
    assert!(!is_disabled(&disabled, "FooBaz"));
    assert!(!is_disabled(&Vec::new(), "FooBar"));
    // an entry equal to the file stem disables the plugin
    assert!(matches!(plan_plugin("FooBar", &None, Some(r"C:\p\FooBar.dll"), &disabled), PluginPlan::Skip(_)));
}

#[test]
fn dll_candidates() {
    assert!(is_dll_extension(Some("dll")));
    assert!(is_dll_extension(Some("DLL")));
    assert!(!is_dll_extension(Some("dl")));
    assert!(!is_dll_extension(None));
    assert!(is_plugin_file(true, Some("Dll")));
    assert!(!is_plugin_file(false, Some("dll")));
    assert!(!is_plugin_file(true, Some("exe")));
}

#[test]
fn plugin_plans() {
    let disabled = vec!["skipme".to_string()];
    let path = r"C:\Users\a\AppData\Local\Larian Studios\Baldur's Gate 3\Plugins\Foo.dll";
    match plan_plugin("Foo", &info(Some("Foo"), 1, 0, 0), Some(path), &disabled) {
        PluginPlan::Load { display, wide_path, byte_len } => {
            assert_eq!(display, "Foo v1.0.0 (Foo.dll)");
            assert_eq!(wide_path, encode_wide_nul(path));
            assert_eq!(*wide_path.last().unwrap(), 0);
            assert_eq!(byte_len, wide_path.len() * 2);
        }
        other => panic!("unexpected {other:?}"),
    }
    assert_eq!(plan_plugin("SkipMe", &None, Some(path), &disabled), PluginPlan::Skip("SkipMe.dll".to_string()));
    // a disabled plugin is skipped even when its path is not valid Unicode
    assert_eq!(plan_plugin("skipme", &None, None, &disabled), PluginPlan::Skip("skipme.dll".to_string()));
    assert_eq!(plan_plugin("Foo", &None, None, &disabled), PluginPlan::BadPath);
}

#[test]
fn root_dir_ids() {
    assert_eq!(dir_id(0, 0, 0), 0);
    assert_eq!(dir_id(1, 2, 3), (1u128 << 64) | (2u128 << 32) | 3);
    assert_eq!(dir_id(u32::MAX, u32::MAX, u32::MAX), (0xFFFF_FFFFu128 << 64) | 0xFFFF_FFFF_FFFF_FFFF);
}

#[test]
fn dirty_markers() {
    assert_eq!(to_lowercase("C:\\Games\\ÄBC"), "c:\\games\\äbc");
    let p = dirty_prefixes(r"C:\Games\BG3", r"C:\Users\A\Plugins");
    assert_eq!(p.native_mods, r"c:\games\bg3\bin\nativemods");
    assert_eq!(p.plugins, r"c:\users\a\plugins");
    assert!(module_is_dirty(r"c:\games\bg3\bin\nativemods\x.dll", Some("dll"), &p));
    assert!(module_is_dirty(r"c:\users\a\plugins\y.dll", Some("dll"), &p));
    assert!(!module_is_dirty(r"c:\games\bg3\bin\other.dll", Some("dll"), &p));
    assert!(!module_is_dirty(r"c:\users\a\plugins\y.txt", Some("txt"), &p));
}

#[test]
fn loader_names() {
    let i = Some(LoaderInfo { name: "Loader".into(), author: "Cherry".into(), major: 0, minor: 15, patch: 2 });
    assert_eq!(loader_display_name(&i, "loader.dll"), "Loader by Cherry v0.15.2 (loader.dll)");
    assert_eq!(loader_display_name(&None, "loader.dll"), "loader.dll");
}

#[test]
fn init_entry_address() {
    assert_eq!(init_address(0x7FF6_0000_0000, 0x1234), 0x7FF6_0000_1234);
}

#[test]
fn remote_allocation_sizes() {
    assert_eq!(allocation_alignment(8, 0x10000), 0x10000);
    assert_eq!(allocation_alignment(0x20000, 0x10000), 0x20000);
    assert_eq!(allocation_size(1, 4096), 4096);
    assert_eq!(allocation_size(4096, 4096), 4096);
    assert_eq!(allocation_size(4097, 4096), 8192);
    assert_eq!(allocation_size(0, 4096), 0);
}

#[test]
fn injector_game_search() {
    let c = Config { install_root: r"D:\BG3".into(), ..Config::default() };
    let (a, b) = game_exes(&c);
    assert_eq!(a, r"D:\BG3\bin\bg3.exe");
    assert_eq!(b, r"D:\BG3\bin\bg3_dx11.exe");
    let exes = vec![a.clone(), b.clone()];
    let procs = vec![(1, None), (2, Some(r"C:\x.exe".to_string())), (3, Some(b.clone())), (4, Some(a.clone()))];
    assert_eq!(find_game_pid(&exes, &procs), Some(3));
    assert_eq!(find_game_pid(&exes, &vec![(1, None)]), None);
    // the first listed game wins
    let procs = vec![(7, Some(b.clone())), (8, Some(a.clone()))];
    assert_eq!(find_game_pid(&exes, &procs), Some(7));
    // the same executable written with other separators still matches
    let procs = vec![(5, Some("D:/BG3//bin/bg3.exe".to_string()))];
    assert_eq!(find_game_pid(&exes, &procs), Some(5));
    assert!(!game_wait_over(9_999));
    assert!(game_wait_over(10_000));
}
