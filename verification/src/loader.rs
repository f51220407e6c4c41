//! Patching a game process with the loader library: how the loader is
//! reported, what is written into the game, and where its `Init` entry point
//! lies once the library is mapped. Opening the process, the remote writes,
//! the remote threads and the waits are done by the application.
pub mod dirty;
pub mod enum_modules;
pub mod get_module_base_addr_ex;
pub mod get_module_file_name_ex;
pub mod write;

use vstd::prelude::*;

use crate::config::Config;
use crate::injector::version_text;
use crate::paths::{join, join_path, paths_equal, same_path};
use crate::text::{push_decimal, push_str};

verus! {

/// The metadata the loader library declares about itself.
#[derive(Debug, Clone, PartialEq, Eq)]
pub struct LoaderInfo {
    pub name: String,
    pub author: String,
    pub major: u32,
    pub minor: u32,
    pub patch: u32,
}

/// How the loader library `dll_name` is reported: `Name by Author v1.2.3
/// (dll_name)` with its metadata, the bare file name without.
pub open spec fn loader_display(info: Option<LoaderInfo>, dll_name: Seq<char>) -> Seq<char> {
    match info {
        None => dll_name,
        Some(i) => i.name@ + " by "@ + i.author@ + " v"@ + version_text(i.major, i.minor, i.patch) + " ("@ + dll_name + ")"@,
    }
}

/// The name under which the loader library is reported.
pub fn loader_display_name(info: &Option<LoaderInfo>, dll_name: &str) -> (s: String)
    ensures
        s@ == loader_display(*info, dll_name@),
{
    let mut s = String::new();
    match info {
        None => push_str(&mut s, dll_name),
        Some(i) => {
            push_str(&mut s, i.name.as_str());
            push_str(&mut s, " by ");
            push_str(&mut s, i.author.as_str());
            push_str(&mut s, " v");
            push_decimal(&mut s, i.major as u64);
            push_str(&mut s, ".");
            push_decimal(&mut s, i.minor as u64);
            push_str(&mut s, ".");
            push_decimal(&mut s, i.patch as u64);
            push_str(&mut s, " (");
            push_str(&mut s, dll_name);
            push_str(&mut s, ")");
        },
    }
    proof {
        assert(s@ =~= loader_display(*info, dll_name@));
    }
    s
}

/// The address of the loader's `Init` entry point: the module's base
/// address plus the entry point's relative address.
pub fn init_address(base: usize, rva: usize) -> (addr: usize)
    requires
        base + rva <= usize::MAX,
    ensures
        addr == base + rva,
{
    base + rva
}

/// The game executables the injector looks for: `bin\\bg3.exe` and
/// `bin\\bg3_dx11.exe` under the install root.
pub fn game_exes(config: &Config) -> (exes: (String, String))
    ensures
        exes.0@ == join(join(config.install_root@, "bin"@), "bg3.exe"@),
        exes.1@ == join(join(config.install_root@, "bin"@), "bg3_dx11.exe"@),
{
    let bin = join_path(config.install_root.as_str(), "bin");
    (join_path(bin.as_str(), "bg3.exe"), join_path(bin.as_str(), "bg3_dx11.exe"))
}

/// How long the injector waits for the game to start, in milliseconds.
pub const GAME_WAIT_MS: u64 = 10_000;

/// Whether the injector has waited long enough for the game.
pub fn game_wait_over(elapsed_ms: u64) -> (r: bool)
    ensures
        r == (elapsed_ms >= GAME_WAIT_MS),
{
    elapsed_ms >= GAME_WAIT_MS
}

/// The first running process (in the order listed) whose executable path
/// names one of the game's executables (compared as paths, component by
/// component, by `same_path`); processes whose path is unknown never match.
pub fn find_game_pid(game_exes: &Vec<String>, processes: &Vec<(u32, Option<String>)>) -> (r: Option<u32>)
    ensures
        r matches Some(pid) ==> exists|i: int| 0 <= i < processes@.len() && #[trigger] processes@[i].0 == pid
            && (processes@[i].1 matches Some(exe) && exists|j: int| 0 <= j < game_exes@.len() && same_path(#[trigger] game_exes@[j]@, exe@))
            && forall|k: int| 0 <= k < i ==> (#[trigger] processes@[k].1 matches Some(exe)
                ==> forall|j: int| 0 <= j < game_exes@.len() ==> !same_path(#[trigger] game_exes@[j]@, exe@)),
        r is None ==> forall|i: int| 0 <= i < processes@.len() ==> (#[trigger] processes@[i].1 matches Some(exe)
            ==> forall|j: int| 0 <= j < game_exes@.len() ==> !same_path(#[trigger] game_exes@[j]@, exe@)),
{
    let mut i: usize = 0;
    while i < processes.len()
        invariant
            i <= processes@.len(),
            forall|k: int| 0 <= k < i ==> (#[trigger] processes@[k].1 matches Some(exe)
                ==> forall|j: int| 0 <= j < game_exes@.len() ==> !same_path(#[trigger] game_exes@[j]@, exe@)),
        decreases processes@.len() - i,
    {
        match &processes[i].1 {
            Some(exe) => {
                let mut j: usize = 0;
                while j < game_exes.len()
                    invariant
                        j <= game_exes@.len(),
                        i < processes@.len(),
                        processes@[i as int].1 == Some(*exe),
                        forall|l: int| 0 <= l < j ==> !same_path(#[trigger] game_exes@[l]@, exe@),
                        forall|k: int| 0 <= k < i ==> (#[trigger] processes@[k].1 matches Some(e)
                            ==> forall|l: int| 0 <= l < game_exes@.len() ==> !same_path(#[trigger] game_exes@[l]@, e@)),
                    decreases game_exes@.len() - j,
                {
                    if paths_equal(game_exes[j].as_str(), exe.as_str()) {
                        assert(same_path(game_exes@[j as int]@, exe@));
                        assert(processes@[i as int].0 == processes[i as int].0);
                        return Some(processes[i].0);
                    }
                    j = j + 1;
                }
            },
            None => {},
        }
        i = i + 1;
    }
    None
}

} // verus!
