use yet_another_bg3_mod_loader::loader::dirty::{
    cached_dir_id, check_module, list_step, module_is_plugin, name_step, DirIdCache, Id, ModulesStep, NameStep, RetryCounts, ERROR_INSUFFICIENT_BUFFER,
};
use yet_another_bg3_mod_loader::loader::enum_modules as old_enum;
use yet_another_bg3_mod_loader::loader::get_module_file_name_ex as old_name;
use yet_another_bg3_mod_loader::wapi::enum_modules::{inner_step, is_alive, EnumStep, E_PARTIAL_COPY, STILL_ACTIVE};
use yet_another_bg3_mod_loader::wapi::get_module_base_ex::GetModuleBaseEx;
use yet_another_bg3_mod_loader::wapi::get_module_file_name_ex::{self as new_name, NameStep as WapiNameStep};
use yet_another_bg3_mod_loader::wapi::query_full_process_image_name::{image_name_step, ImageNameStep, E_INSUFFICIENT_BUFFER, MAX_PATH};
use yet_another_bg3_mod_loader::wide::encode_wide;

#[test]
fn dir_identity_from_file_id() {
    let mut bytes = [0u8; 16];
    bytes[0] = 0x01;
    bytes[1] = 0x02;
    bytes[15] = 0x80;
    let id = Id::from_info(77, bytes);
    assert_eq!(id.volume, 77);
    assert_eq!(id.file, u128::from_le_bytes(bytes));
    assert_eq!(Id::from_info(1, [0xFF; 16]).file, u128::MAX);
}

#[test]
fn id_cache_read_after_write() {
    let mut c = DirIdCache::new();
    let a = Id { volume: 1, file: 2 };
    let b = Id { volume: 3, file: 4 };
    assert_eq!(c.get("x"), None);
    c.insert("x".into(), a);
    c.insert("y".into(), b);
    assert_eq!(c.get("x"), Some(a));
    assert_eq!(c.get("y"), Some(b));
    c.insert("x".into(), b);
    assert_eq!(c.get("x"), Some(b));
    assert_eq!(c.get("z"), None);
}

#[test]
fn plugin_modules() {
    let plugins = Id { volume: 5, file: 9 };
    let elsewhere = Id { volume: 5, file: 10 };
    assert!(module_is_plugin(true, Some("dll"), Some(plugins), plugins));
    assert!(!module_is_plugin(true, Some("dll"), Some(elsewhere), plugins));
    assert!(!module_is_plugin(true, Some("dll"), None, plugins));
    assert!(!module_is_plugin(false, Some("dll"), Some(plugins), plugins));
    assert!(!module_is_plugin(true, Some("exe"), Some(plugins), plugins));
}

#[test]
fn folder_identities_are_read_once() {
    let plugins = Id { volume: 5, file: 9 };
    let reads = std::cell::Cell::new(0u32);
    let read = |p: &String| {
        reads.set(reads.get() + 1);
        if p == "c:\\plugins" {
            Some(plugins)
        } else if p == "c:\\game" {
            Some(Id { volume: 5, file: 1 })
        } else {
            None
        }
    };
    let mut cache = DirIdCache::new();
    assert_eq!(cached_dir_id(&mut cache, "c:\\plugins".into(), &read), Some(plugins));
    assert_eq!(cached_dir_id(&mut cache, "c:\\plugins".into(), &read), Some(plugins));
    assert_eq!(reads.get(), 1);
    assert_eq!(cached_dir_id(&mut cache, "c:\\gone".into(), &read), None);
    assert_eq!(cached_dir_id(&mut cache, "c:\\gone".into(), &read), None);
    assert_eq!(reads.get(), 3);

    assert!(check_module(&mut cache, true, Some("dll"), Some("c:\\plugins".into()), plugins, &read));
    assert_eq!(reads.get(), 3);
    assert!(!check_module(&mut cache, true, Some("dll"), Some("c:\\game".into()), plugins, &read));
    assert!(!check_module(&mut cache, true, Some("dll"), Some("c:\\game".into()), plugins, &read));
    assert_eq!(reads.get(), 4);
    // non-plugins never read a folder identity
    assert!(!check_module(&mut cache, true, Some("exe"), Some("c:\\other".into()), plugins, &read));
    assert!(!check_module(&mut cache, false, Some("dll"), Some("c:\\other".into()), plugins, &read));
    assert!(!check_module(&mut cache, true, Some("dll"), None, plugins, &read));
    assert_eq!(reads.get(), 4);
}

#[test]
fn module_listing_retries() {
    assert_eq!(list_step(false, 0, 0, 8192, 1024), (ModulesStep::Retry, 1));
    assert_eq!(list_step(false, 3, 0, 8192, 1024), (ModulesStep::Retry, 4));
    assert_eq!(list_step(false, 4, 0, 8192, 1024), (ModulesStep::Fail, 0));
    assert_eq!(list_step(true, 2, 9000, 8192, 1024), (ModulesStep::Grow(2048), 0));
    assert_eq!(list_step(true, 2, 800, 8192, 1024), (ModulesStep::Done(100), 0));
}

#[test]
fn module_name_retries() {
    let fresh = RetryCounts { retry: 0, total: 0 };
    assert_eq!(name_step(40, 1024, 5, fresh), (NameStep::Accept(40), fresh));
    assert_eq!(name_step(0, 1024, 0, fresh), (NameStep::Accept(0), fresh));
    assert_eq!(name_step(1024, 1024, ERROR_INSUFFICIENT_BUFFER, fresh), (NameStep::Grow(2048), fresh));
    assert_eq!(name_step(0, 1024, 5, fresh), (NameStep::Retry, RetryCounts { retry: 1, total: 1 }));
    assert_eq!(name_step(0, 1024, 5, RetryCounts { retry: 3, total: 3 }), (NameStep::Skip, RetryCounts { retry: 3, total: 3 }));
    assert_eq!(name_step(0, 1024, 5, RetryCounts { retry: 0, total: 10 }), (NameStep::Fail, RetryCounts { retry: 0, total: 10 }));
}

#[test]
fn module_name_retry_budget() {
    // one module failing forever: three retries, then it is skipped
    let mut counts = RetryCounts { retry: 0, total: 0 };
    let mut retries = 0;
    loop {
        let (step, next) = name_step(0, 1024, 5, counts);
        counts = next;
        match step {
            NameStep::Retry => retries += 1,
            NameStep::Skip => break,
            other => panic!("unexpected {other:?}"),
        }
    }
    assert_eq!(retries, 3);
    // across modules: after ten retries in all, the next failure fails the check
    let mut counts = RetryCounts { retry: 0, total: 0 };
    let mut steps = Vec::new();
    for _ in 0..6 {
        counts.retry = 0;
        loop {
            let (step, next) = name_step(0, 1024, 5, counts);
            counts = next;
            steps.push(step);
            if step != NameStep::Retry {
                break;
            }
        }
        if steps.last() == Some(&NameStep::Fail) {
            break;
        }
    }
    assert_eq!(steps.iter().filter(|s| **s == NameStep::Retry).count(), 10);
    assert_eq!(steps.last(), Some(&NameStep::Fail));
}

#[test]
fn process_liveness() {
    assert!(is_alive(Some(STILL_ACTIVE)));
    assert!(!is_alive(Some(0)));
    assert!(!is_alive(None));
}

#[test]
fn newer_module_listing() {
    assert_eq!(inner_step(None, true, 16000, 8192), EnumStep::Resize(2000));
    assert_eq!(inner_step(Some(E_PARTIAL_COPY), true, 16000, 8192), EnumStep::Resize(2000));
    assert_eq!(inner_step(Some(E_PARTIAL_COPY), true, 800, 8192), EnumStep::Retry);
    assert_eq!(inner_step(Some(E_PARTIAL_COPY), false, 800, 8192), EnumStep::Fail);
    assert_eq!(inner_step(Some(5), true, 800, 8192), EnumStep::Fail);
    assert_eq!(inner_step(None, true, 800, 8192), EnumStep::Done(100));
}

#[test]
fn older_module_listing() {
    assert_eq!(old_enum::inner_step(None, true, 16000, 8192), EnumStep::Resize(2000));
    // a failure other than a partial copy fails even when the buffer was too small
    assert_eq!(old_enum::inner_step(Some(5), true, 16000, 8192), EnumStep::Fail);
    assert_eq!(old_enum::inner_step(Some(E_PARTIAL_COPY), true, 16000, 8192), EnumStep::Resize(2000));
    assert_eq!(old_enum::inner_step(Some(E_PARTIAL_COPY), true, 800, 8192), EnumStep::Retry);
    assert_eq!(old_enum::inner_step(Some(E_PARTIAL_COPY), false, 800, 8192), EnumStep::Fail);
    assert_eq!(old_enum::inner_step(None, false, 800, 8192), EnumStep::Done(100));
}

#[test]
fn module_file_names() {
    assert_eq!(new_name::name_step(1024, 1024, 0), WapiNameStep::Grow(2048));
    assert_eq!(new_name::name_step(0, 1024, 6), WapiNameStep::Fail(6));
    assert_eq!(new_name::name_step(30, 1024, 6), WapiNameStep::Accept(30));
    assert_eq!(old_name::name_step(1024, 1024, 0), WapiNameStep::Accept(1024));
    assert_eq!(old_name::name_step(1024, 1024, ERROR_INSUFFICIENT_BUFFER), WapiNameStep::Grow(2048));
    assert_eq!(old_name::name_step(0, 1024, 6), WapiNameStep::Fail(6));
    assert_eq!(old_name::name_step(1024, 1024, 6), WapiNameStep::Accept(1024));
    assert_eq!(old_name::name_step(30, 1024, 6), WapiNameStep::Accept(30));
}

#[test]
fn process_image_names() {
    assert_eq!(image_name_step(Ok(42), 260), ImageNameStep::Accept(42));
    assert_eq!(image_name_step(Err(E_INSUFFICIENT_BUFFER), 260), ImageNameStep::Grow(260 + MAX_PATH));
    assert_eq!(image_name_step(Err(0x8000_4005), 260), ImageNameStep::Fail(0x8000_4005));
}

#[test]
fn module_by_full_path() {
    let names = |m: u64| match m {
        1 => Some(encode_wide(r"C:\Windows\System32\kernel32.dll")),
        2 => Some(encode_wide(r"C:\Tools\loader.dll")),
        3 => Some(encode_wide(r"C:\Tools\loader.dll")),
        _ => None,
    };
    let target = encode_wide(r"C:\Tools\loader.dll");
    assert_eq!(GetModuleBaseEx(&target, &[1, 2, 3], &names), Some(2));
    assert_eq!(GetModuleBaseEx(&encode_wide("loader.dll"), &[1, 2, 3], &names), None);
    // an unreadable name ends the search
    assert_eq!(GetModuleBaseEx(&target, &[1, 9, 2], &names), None);
}
