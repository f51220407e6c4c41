use yet_another_bg3_mod_loader::is_admin::is_elevated;
use yet_another_bg3_mod_loader::panic::make_msg;
use yet_another_bg3_mod_loader::server::{authorize, PipeAuth};
use yet_another_bg3_mod_loader::single_instance::{instance_check, InstanceCheck, ERROR_ALREADY_EXISTS};
use yet_another_bg3_mod_loader::tmp_loader::{get_init_rva, init_loader, loader_hash_ok, InitLoaderError, RvaError};

const HELLO_SHA256: &str = "2cf24dba5fb0a30e26e83b2ac5b9e29e1b161e5c1fa7425e73043362938b9824";

#[test]
fn elevation() {
    assert!(is_elevated(Some(1)));
    assert!(!is_elevated(Some(0)));
    assert!(!is_elevated(None));
}

#[test]
fn single_instance_outcomes() {
    assert_eq!(instance_check(true, 0), InstanceCheck::Acquired);
    assert_eq!(instance_check(true, ERROR_ALREADY_EXISTS), InstanceCheck::AlreadyRunning);
    assert_eq!(instance_check(true, 5), InstanceCheck::Failed(5));
    assert_eq!(instance_check(false, 0), InstanceCheck::MutexFailed);
}

#[test]
fn crash_report_text() {
    let m = make_msg(Some(r"C:\Temp\report.toml"), "https://example.org/project");
    assert!(m.starts_with("Well, this is embarrassing.\n\nYet Another BG3 Native Mod Loader had a problem and crashed. To help us diagnose the problem, please send us a crash report.\n\n"));
    assert!(m.contains(r#"We have generated a report file at "C:\Temp\report.toml"."#));
    assert!(m.ends_with("(replace * with the actual tool you want to run)\n\nhttps://example.org/project\n"));
    let n = make_msg(None, "");
    assert!(n.contains(r#"report file at "<Failed to store file to disk>""#));
    assert!(n.ends_with("(replace * with the actual tool you want to run)\n"));
}

#[test]
fn pipe_authorization() {
    assert!(authorize(10, 99, 10, 99));
    assert!(!authorize(10, 99, 11, 99));
    assert!(!authorize(10, 99, 10, 98));
    let a = PipeAuth::issue(1234);
    assert_eq!(a.pid, 1234);
    assert!(a.admits(1234, a.code));
    assert!(!a.admits(1235, a.code));
    assert!(!a.admits(1234, a.code.wrapping_add(1)));
}

#[test]
fn pipe_codes_are_random() {
    let codes: std::collections::HashSet<u64> = (0..16).map(|_| PipeAuth::issue(1).code).collect();
    assert!(codes.len() > 1);
}

#[test]
fn loader_digest_check() {
    assert_eq!(loader_hash_ok(b"hello", HELLO_SHA256, true), Ok(()));
    assert_eq!(loader_hash_ok(b"hello", "00", false), Ok(()));
    assert_eq!(loader_hash_ok(b"hello!", HELLO_SHA256, true).unwrap_err().len(), 64);
    assert_ne!(loader_hash_ok(b"hello!", HELLO_SHA256, true).unwrap_err(), HELLO_SHA256);
}

#[test]
fn loader_refused_on_digest_mismatch() {
    match init_loader(b"hello", "00", true) {
        Err(InitLoaderError::HashMismatch(found)) => assert_eq!(found, HELLO_SHA256),
        other => panic!("unexpected {other:?}"),
    }
}

#[test]
fn loader_without_pe_image() {
    assert!(matches!(get_init_rva(b"not a pe image at all"), Err(RvaError::Pe(_))));
    assert!(matches!(init_loader(b"hello", HELLO_SHA256, true), Err(InitLoaderError::Rva(RvaError::Pe(_)))));
}
