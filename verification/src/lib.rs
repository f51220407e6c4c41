//! The verified core of a native-plugin loader for Baldur's Gate 3: the
//! decisions of its process watchers, how plugins are selected, named and
//! handed to the game process, the steps of the buffer-growing loops around
//! the Windows process APIs, the paths it works with, and the settings it
//! reads.
//!
//! Everything that touches the operating system (process handles, files,
//! COM, message boxes) is done by the application around this library,
//! which hands plain values in and takes plain values back.
pub mod cli;
pub mod config;
pub mod injector;
pub mod is_admin;
pub mod launcher_prefs;
pub mod loader;
pub mod panic;
pub mod paths;
pub mod popup;
pub mod process_watcher;
pub mod server;
pub mod single_instance;
pub mod text;
pub mod tmp_loader;
pub mod wapi;
pub mod wide;

use vstd::prelude::*;

use crate::cli::Args;
use crate::process_watcher::Timeout;

verus! {

/// Which tool runs.
#[derive(Copy, Clone, Debug, PartialEq, Eq, Structural)]
pub enum RunType {
    /// Watches for the game in the background and patches every instance.
    Watcher,
    /// Waits a while for one running game and patches it.
    Injector,
}

/// How a tool polls for the game.
#[derive(Copy, Clone, Debug, PartialEq, Eq, Structural)]
pub struct WatchSettings {
    pub polling_rate_ms: u64,
    pub timeout: Timeout,
    pub oneshot: bool,
}

/// The watcher polls every 2 seconds forever; the injector polls every
/// second, gives up after 10 seconds and stops at the first game found.
pub fn watch_settings(run_type: RunType) -> (s: WatchSettings)
    ensures
        run_type == RunType::Watcher ==> s == (WatchSettings { polling_rate_ms: 2000, timeout: Timeout::Never, oneshot: false }),
        run_type == RunType::Injector ==> s == (WatchSettings { polling_rate_ms: 1000, timeout: Timeout::Duration(10000), oneshot: true }),
{
    if run_type == RunType::Watcher {
        WatchSettings { polling_rate_ms: 2000, timeout: Timeout::Never, oneshot: false }
    } else {
        WatchSettings { polling_rate_ms: 1000, timeout: Timeout::Duration(10000), oneshot: true }
    }
}

/// What a start of a tool does with its command line.
#[derive(Copy, Clone, Debug, PartialEq, Eq, Structural)]
pub enum Launch {
    PrintHelp,
    PrintVersion,
    Run,
}

/// Help wins over version; without either the tool runs.
pub fn launch(args: &Args) -> (l: Launch)
    ensures
        l == if args.help {
            Launch::PrintHelp
        } else if args.version {
            Launch::PrintVersion
        } else {
            Launch::Run
        },
{
    if args.help {
        Launch::PrintHelp
    } else if args.version {
        Launch::PrintVersion
    } else {
        Launch::Run
    }
}

/// Only the background watcher gets a tray icon.
pub fn has_tray(run_type: RunType) -> (r: bool)
    ensures
        r == (run_type == RunType::Watcher),
{
    run_type == RunType::Watcher
}

} // verus!
