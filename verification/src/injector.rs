//! Which files of the plugins folder get injected into the game, under which
//! name they are reported, and what is written into the game process for
//! each of them. Listing the folder, reading each plugin's metadata and the
//! remote allocation, write and thread are done by the application.
use vstd::prelude::*;

use crate::paths::{join, join_path};
use crate::text::{ascii_eq_ignore_case, decimal, eq_ignore_ascii_case, has_prefix, push_decimal, push_str, starts_with, str_eq};
use crate::wide::{encode_wide_nul, utf16_nul, wide_byte_len};

verus! {

/// The metadata a plugin declares about itself.
#[derive(Debug, Clone, PartialEq, Eq)]
pub struct PluginInfo {
    /// Its name, when it declares one.
    pub name: Option<String>,
    pub major: u32,
    pub minor: u32,
    pub patch: u32,
}

impl PluginInfo {
    pub open spec fn name_view(&self) -> Option<Seq<char>> {
        match self.name {
            Some(n) => Some(n@),
            None => None,
        }
    }
}

/// `major.minor.patch`.
pub open spec fn version_text(major: u32, minor: u32, patch: u32) -> Seq<char> {
    decimal(major as nat) + "."@ + decimal(minor as nat) + "."@ + decimal(patch as nat)
}

/// How a plugin file with file stem `stem` is reported: with its declared
/// name and version (`Name v1.2.3 (stem.dll)`), with its version only
/// (`stem.dll v1.2.3`), or, without metadata, as `stem.dll`.
pub open spec fn plugin_display(stem: Seq<char>, info: Option<(Option<Seq<char>>, u32, u32, u32)>) -> Seq<char> {
    match info {
        None => stem + ".dll"@,
        Some((name, major, minor, patch)) => match name {
            Some(n) => n + " v"@ + version_text(major, minor, patch) + " ("@ + stem + ".dll)"@,
            None => stem + ".dll v"@ + version_text(major, minor, patch),
        },
    }
}

/// A plugin's metadata in the shape `plugin_display` reads it.
pub open spec fn info_view(info: Option<PluginInfo>) -> Option<(Option<Seq<char>>, u32, u32, u32)> {
    match info {
        None => None,
        Some(i) => Some((i.name_view(), i.major, i.minor, i.patch)),
    }
}

fn push_version(out: &mut String, major: u32, minor: u32, patch: u32)
    ensures
        final(out)@ == old(out)@ + version_text(major, minor, patch),
{
    push_decimal(out, major as u64);
    push_str(out, ".");
    push_decimal(out, minor as u64);
    push_str(out, ".");
    push_decimal(out, patch as u64);
    proof {
        assert(final(out)@ =~= old(out)@ + version_text(major, minor, patch));
    }
}

/// The name under which the plugin with file stem `stem` is reported.
pub fn plugin_display_name(stem: &str, info: &Option<PluginInfo>) -> (s: String)
    ensures
        s@ == plugin_display(stem@, info_view(*info)),
{
    let mut s = String::new();
    match info {
        None => {
            push_str(&mut s, stem);
            push_str(&mut s, ".dll");
        },
        Some(i) => match &i.name {
            Some(n) => {
                push_str(&mut s, n.as_str());
                push_str(&mut s, " v");
                push_version(&mut s, i.major, i.minor, i.patch);
                push_str(&mut s, " (");
                push_str(&mut s, stem);
                push_str(&mut s, ".dll)");
            },
            None => {
                push_str(&mut s, stem);
                push_str(&mut s, ".dll v");
                push_version(&mut s, i.major, i.minor, i.patch);
            },
        },
    }
    proof {
        assert(s@ =~= plugin_display(stem@, info_view(*info)));
    }
    s
}

/// Unicode case-insensitive equality of two strings, as `unicase::eq`
/// decides it.
pub uninterp spec fn caseless_eq(a: Seq<char>, b: Seq<char>) -> bool;

/// Every character is ASCII.
pub open spec fn all_ascii(s: Seq<char>) -> bool {
    forall|i: int| 0 <= i < s.len() ==> (#[trigger] s[i] as u32) < 128
}

/// `unicase::eq`: whether two strings are equal under Unicode case folding.
/// Equal strings are equal under it; for two ASCII strings the crate
/// compares them ignoring ASCII case.
#[verifier::external_body]
fn unicase_eq(a: &str, b: &str) -> (r: bool)
    ensures
        r == caseless_eq(a@, b@),
        a@ == b@ ==> r,
        all_ascii(a@) && all_ascii(b@) ==> r == eq_ignore_ascii_case(a@, b@),
{
    unicase::eq(a, b)
}

/// Whether the plugin with file stem `stem` is disabled: some entry of
/// `disabled` equals it without regard to case. Between ASCII strings that
/// is equality ignoring ASCII case.
pub fn is_disabled(disabled: &Vec<String>, stem: &str) -> (r: bool)
    ensures
        r == exists|i: int| 0 <= i < disabled@.len() && caseless_eq(#[trigger] disabled@[i]@, stem@),
        all_ascii(stem@) && (forall|i: int| 0 <= i < disabled@.len() ==> all_ascii(#[trigger] disabled@[i]@)) ==>
            r == exists|i: int| 0 <= i < disabled@.len() && eq_ignore_ascii_case(#[trigger] disabled@[i]@, stem@),
        (exists|i: int| 0 <= i < disabled@.len() && #[trigger] disabled@[i]@ == stem@) ==> r,
{
    let mut i: usize = 0;
    while i < disabled.len()
        invariant
            i <= disabled@.len(),
            forall|j: int| 0 <= j < i ==> !caseless_eq(#[trigger] disabled@[j]@, stem@),
            forall|j: int| 0 <= j < i ==> #[trigger] disabled@[j]@ != stem@,
            all_ascii(stem@) && (forall|k: int| 0 <= k < disabled@.len() ==> all_ascii(#[trigger] disabled@[k]@)) ==>
                forall|j: int| 0 <= j < i ==> !eq_ignore_ascii_case(#[trigger] disabled@[j]@, stem@),
        decreases disabled@.len() - i,
    {
        let found = unicase_eq(disabled[i].as_str(), stem);
        if found {
            return true;
        }
        i = i + 1;
    }
    false
}

/// Whether a file extension is `dll`, ignoring ASCII case.
pub fn is_dll_extension(extension: Option<&str>) -> (r: bool)
    ensures
        r == (extension matches Some(e) && eq_ignore_ascii_case(e@, "dll"@)),
{
    match extension {
        None => false,
        Some(e) => ascii_eq_ignore_case(e, "dll"),
    }
}

/// Whether a directory entry is a plugin candidate: a file with the `dll`
/// extension in any ASCII case.
pub fn is_plugin_file(is_file: bool, extension: Option<&str>) -> (r: bool)
    ensures
        r == (is_file && (extension matches Some(e) && eq_ignore_ascii_case(e@, "dll"@))),
{
    is_file && is_dll_extension(extension)
}

/// What becomes of one plugin file.
#[derive(Debug, PartialEq, Eq)]
pub enum PluginPlan {
    /// Disabled by the configuration: reported under this name and skipped.
    Skip(String),
    /// Loaded: reported under `display`; `wide_path` is the NUL-terminated
    /// UTF-16 path written into the game, `byte_len` its size in bytes.
    Load { display: String, wide_path: Vec<u16>, byte_len: usize },
    /// Not disabled, but its path is not valid Unicode: injection stops.
    BadPath,
}

/// The plan for the plugin file with file stem `stem`, metadata `info` and
/// full path `path` (`None` when the path is not valid Unicode).
pub fn plan_plugin(stem: &str, info: &Option<PluginInfo>, path: Option<&str>, disabled: &Vec<String>) -> (r: PluginPlan)
    requires
        path matches Some(p) ==> 2 * (p@.len() * 2 + 1) <= usize::MAX,
    ensures
        ({
            let off = exists|i: int| 0 <= i < disabled@.len() && caseless_eq(#[trigger] disabled@[i]@, stem@);
            let display = plugin_display(stem@, info_view(*info));
            if off {
                r matches PluginPlan::Skip(d) && d@ == display
            } else {
                match path {
                    None => r == PluginPlan::BadPath,
                    Some(p) => r matches PluginPlan::Load { display: d, wide_path: w, byte_len: n } && d@ == display
                        && w@ == utf16_nul(p@) && n == wide_byte_len(w@.len()),
                }
            }
        }),
        (exists|i: int| 0 <= i < disabled@.len() && #[trigger] disabled@[i]@ == stem@) ==> r is Skip,
        all_ascii(stem@) && (forall|i: int| 0 <= i < disabled@.len() ==> all_ascii(#[trigger] disabled@[i]@)) ==>
            (r is Skip <==> exists|i: int| 0 <= i < disabled@.len() && eq_ignore_ascii_case(#[trigger] disabled@[i]@, stem@)),
{
    let off = is_disabled(disabled, stem);
    let display = plugin_display_name(stem, info);
    if off {
        return PluginPlan::Skip(display);
    }
    match path {
        None => PluginPlan::BadPath,
        Some(p) => {
            let wide_path = encode_wide_nul(p);
            proof {
                crate::wide::lemma_utf16_len_bound(p@);
            }
            let byte_len = wide_path.len() * 2;
            PluginPlan::Load { display, wide_path, byte_len }
        },
    }
}

/// The identity of a directory from its volume serial number and file
/// index: volume in the high 64 bits, then the high and low index words.
pub open spec fn file_index_id(volume: u32, high: u32, low: u32) -> int {
    volume * 0x1_0000_0000_0000_0000 + high * 0x1_0000_0000 + low
}

/// Combines a volume serial number and a file index into one identity.
pub fn dir_id(volume: u32, high: u32, low: u32) -> (id: u128)
    ensures
        id == file_index_id(volume, high, low),
{
    let mut id: u128 = 0;
    id = id | ((volume as u128) << 64u128);
    id = id | ((high as u128) << 32u128);
    id = id | (low as u128);
    let v = volume as u128;
    let h = high as u128;
    let l = low as u128;
    assert(id == v * 0x1_0000_0000_0000_0000 + h * 0x1_0000_0000 + l) by (bit_vector)
        requires
            v < 0x1_0000_0000,
            h < 0x1_0000_0000,
            l < 0x1_0000_0000,
            id == ((0u128 | (v << 64u128)) | (h << 32u128)) | l;
    id
}

/// The Unicode lowercase form of a string, as `str::to_lowercase` gives it.
pub uninterp spec fn lowercase(s: Seq<char>) -> Seq<char>;

/// `str::to_lowercase`: the string with every character mapped to its
/// Unicode lowercase form.
#[verifier::external_body]
pub fn to_lowercase(s: &str) -> (r: String)
    ensures
        r@ == lowercase(s@),
{
    s.to_lowercase()
}

/// The folders whose dlls mark a process as already patched, lowercased:
/// the game's `bin\NativeMods` folder (that folder specifically, so that
/// other dlls of the game do not count) and the plugins folder.
#[derive(Debug, Clone, PartialEq, Eq)]
pub struct DirtyPrefixes {
    pub native_mods: String,
    pub plugins: String,
}

/// The patched-process markers for an install root and a plugins folder.
pub fn dirty_prefixes(install_root: &str, plugins_dir: &str) -> (p: DirtyPrefixes)
    ensures
        p.native_mods@ == lowercase(join(join(install_root@, "bin"@), "NativeMods"@)),
        p.plugins@ == lowercase(plugins_dir@),
{
    let bin = join_path(install_root, "bin");
    let native_mods = join_path(bin.as_str(), "NativeMods");
    DirtyPrefixes { native_mods: to_lowercase(native_mods.as_str()), plugins: to_lowercase(plugins_dir) }
}

/// Whether a loaded module marks the process as already patched: its
/// lowercased path `path` has the extension `dll` and lies under one of the
/// marker folders (compared as text prefixes).
pub fn module_is_dirty(path: &str, extension: Option<&str>, prefixes: &DirtyPrefixes) -> (r: bool)
    ensures
        r == ((extension matches Some(e) && e@ == "dll"@)
            && (has_prefix(path@, prefixes.native_mods@) || has_prefix(path@, prefixes.plugins@))),
{
    let is_dll = match extension {
        Some(e) => str_eq(e, "dll"),
        None => false,
    };
    is_dll && (starts_with(path, prefixes.native_mods.as_str()) || starts_with(path, prefixes.plugins.as_str()))
}

} // verus!
