//! The text of the crash report shown when the loader panics.
use vstd::prelude::*;

use crate::text::push_str;

verus! {

/// The crash report: an apology, where the report file was stored (or that
/// it could not be), how to submit it, and the homepage when there is one.
pub open spec fn crash_message(file_path: Option<Seq<char>>, homepage: Seq<char>) -> Seq<char> {
    let path = match file_path {
        Some(p) => p,
        None => "<Failed to store file to disk>"@,
    };
    let body = "Well, this is embarrassing.\n"@ + "\n"@
        + "Yet Another BG3 Native Mod Loader"@
        + " had a problem and crashed. To help us diagnose the problem, please send us a crash report.\n"@ + "\n"@
        + "We have generated a report file at \""@ + path
        + "\".\n\nSubmit an issue with the subject of \"Crash Report\" and include the report as an attachment. You may also submit the relevant log file found in the plugins directory.\n\nYou can obtain extra trace information by opening a console window, setting env var `YABG3ML_LOG=\"trace\"` and running `./bg3_*.exe --cli` (replace * with the actual tool you want to run)"@
        + "\n"@;
    if homepage.len() == 0 {
        body
    } else {
        body + "\n"@ + homepage + "\n"@
    }
}

/// The crash report for a report file stored at `file_path` (`None` when
/// it could not be stored) and the project's `homepage`.
pub fn make_msg(file_path: Option<&str>, homepage: &str) -> (m: String)
    ensures
        m@ == crash_message(
            match file_path { Some(p) => Some(p@), None => None },
            homepage@,
        ),
{
    let mut buffer = String::new();
    push_str(&mut buffer, "Well, this is embarrassing.\n");
    push_str(&mut buffer, "\n");
    push_str(&mut buffer, "Yet Another BG3 Native Mod Loader");
    push_str(&mut buffer, " had a problem and crashed. To help us diagnose the problem, please send us a crash report.\n");
    push_str(&mut buffer, "\n");
    push_str(&mut buffer, "We have generated a report file at \"");
    match file_path {
        Some(p) => push_str(&mut buffer, p),
        None => push_str(&mut buffer, "<Failed to store file to disk>"),
    }
    push_str(&mut buffer, "\".\n\nSubmit an issue with the subject of \"Crash Report\" and include the report as an attachment. You may also submit the relevant log file found in the plugins directory.\n\nYou can obtain extra trace information by opening a console window, setting env var `YABG3ML_LOG=\"trace\"` and running `./bg3_*.exe --cli` (replace * with the actual tool you want to run)");
    push_str(&mut buffer, "\n");
    if homepage.unicode_len() != 0 {
        push_str(&mut buffer, "\n");
        push_str(&mut buffer, homepage);
        push_str(&mut buffer, "\n");
    }
    buffer
}

} // verus!
