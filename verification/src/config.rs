//! The loader's configuration. The file that holds it is read, created and
//! parsed by the application.
use vstd::prelude::*;

verus! {

/// Where most installations of the game live.
pub open spec fn default_install_root() -> Seq<char> {
    "C:\\Program Files (x86)\\Steam\\steamapps\\common\\Baldurs Gate 3"@
}

/// The loader's configuration.
#[derive(Debug, Clone)]
pub struct Config {
    /// The game's root installation directory,
    /// e.g. C:\Program Files (x86)\Steam\steamapps\common\Baldurs Gate 3
    pub install_root: String,
    /// Extra command line flags to pass to the game upon startup;
    /// --skip-launcher is always passed.
    pub flags: Vec<String>,
    /// Use steam to launch the game (recommended).
    pub steam: bool,
    /// The plugins to leave out: each entry is a plugin's file name without
    /// extension. Every other plugin is loaded.
    pub disabled: Vec<String>,
}

impl Default for Config {
    /// The configuration written when none exists: the default Steam
    /// install root, no extra flags, launched through Steam, nothing disabled.
    fn default() -> (c: Self)
        ensures
            c.install_root@ == default_install_root(),
            c.flags@.len() == 0,
            c.steam,
            c.disabled@.len() == 0,
    {
        Config {
            install_root: String::from_str("C:\\Program Files (x86)\\Steam\\steamapps\\common\\Baldurs Gate 3"),
            flags: Vec::new(),
            steam: true,
            disabled: Vec::new(),
        }
    }
}

} // verus!
