//! Whether a game process was already patched: one of its loaded modules is
//! a dll in the plugins folder. Directories are compared by their file-system
//! identity; the identities of the module folders seen so far are cached.
//! Listing the modules and reading their paths retries on transient
//! failures, within fixed limits.
use vstd::prelude::*;

use crate::wide::wide_eq;

verus! {

/// The value of bytes read as a little-endian unsigned number.
pub open spec fn le_value(b: Seq<u8>) -> nat
    decreases b.len(),
{
    if b.len() == 0 {
        0
    } else {
        (b[0] as nat) + 256 * le_value(b.drop_first())
    }
}

/// `256` to the power `n`.
pub open spec fn pow256(n: nat) -> nat
    decreases n,
{
    if n == 0 { 1 } else { 256 * pow256((n - 1) as nat) }
}

proof fn lemma_le_value_bound(b: Seq<u8>)
    ensures
        le_value(b) < pow256(b.len()),
    decreases b.len(),
{
    if b.len() > 0 {
        lemma_le_value_bound(b.drop_first());
        assert(pow256(b.len()) == 256 * pow256((b.len() - 1) as nat));
        assert(le_value(b) == b[0] + 256 * le_value(b.drop_first()));
        assert(256 * le_value(b.drop_first()) <= 256 * (pow256((b.len() - 1) as nat) - 1)) by (nonlinear_arith)
            requires
                le_value(b.drop_first()) < pow256((b.len() - 1) as nat);
    }
}

proof fn lemma_pow256_16()
    ensures
        pow256(16) == 0x1_0000_0000_0000_0000_0000_0000_0000_0000,
{
    reveal_with_fuel(pow256, 17);
}

proof fn lemma_pow256_mono(a: nat, b: nat)
    requires
        a <= b,
    ensures
        pow256(a) <= pow256(b),
    decreases b,
{
    if a < b {
        lemma_pow256_mono(a, (b - 1) as nat);
    }
}

/// A directory's identity: its volume serial number and its file id.
#[derive(Debug, Clone, Copy, PartialEq, Eq, Structural)]
pub struct Id {
    pub volume: u64,
    pub file: u128,
}

impl Id {
    /// The identity from a volume serial number and the 16 bytes of a file
    /// id, read as a little-endian number.
    pub fn from_info(volume: u64, identifier: [u8; 16]) -> (id: Id)
        ensures
            id.volume == volume,
            id.file == le_value(identifier@),
    {
        let mut v: u128 = 0;
        let mut i: usize = 16;
        proof {
            assert(identifier@.subrange(16, 16) =~= Seq::<u8>::empty());
        }
        while i > 0
            invariant
                i <= 16,
                identifier@.len() == 16,
                v == le_value(identifier@.subrange(i as int, 16)),
                v < pow256((16 - i) as nat),
            decreases i,
        {
            let b = identifier[i - 1];
            proof {
                let s = identifier@.subrange(i - 1, 16);
                assert(s.drop_first() =~= identifier@.subrange(i as int, 16));
                assert(s[0] == b);
                lemma_pow256_mono((17 - i) as nat, 16);
                lemma_pow256_16();
                assert(pow256((17 - i) as nat) == 256 * pow256((16 - i) as nat));
                assert(v * 256 + b < 256 * pow256((16 - i) as nat)) by (nonlinear_arith)
                    requires
                        v < pow256((16 - i) as nat),
                        b < 256;
            }
            v = v * 256 + (b as u128);
            i = i - 1;
        }
        assert(identifier@.subrange(0, 16) =~= identifier@);
        Id { volume, file: v }
    }
}

/// The identities of the folders seen so far, by folder path; a later
/// entry for a path overrides an earlier one.
pub struct DirIdCache {
    entries: Vec<(String, Id)>,
}

/// The identity recorded last for `path` among `entries`.
pub open spec fn lookup(entries: Seq<(Seq<char>, Id)>, path: Seq<char>) -> Option<Id>
    decreases entries.len(),
{
    if entries.len() == 0 {
        None
    } else if entries.last().0 == path {
        Some(entries.last().1)
    } else {
        lookup(entries.drop_last(), path)
    }
}

impl DirIdCache {
    /// The recorded entries, in the order in which they were recorded.
    pub closed spec fn entries(&self) -> Seq<(Seq<char>, Id)> {
        self.entries@.map_values(|e: (String, Id)| (e.0@, e.1))
    }

    /// What the cache says of `path`.
    pub open spec fn get_spec(&self, path: Seq<char>) -> Option<Id> {
        lookup(self.entries(), path)
    }

    /// An empty cache.
    pub fn new() -> (c: Self)
        ensures
            forall|p: Seq<char>| #[trigger] c.get_spec(p) == None::<Id>,
    {
        let c = DirIdCache { entries: Vec::new() };
        assert(c.entries().len() == 0);
        c
    }

    /// The identity recorded for `path`, if any.
    pub fn get(&self, path: &str) -> (r: Option<Id>)
        ensures
            r == self.get_spec(path@),
    {
        let mut i: usize = self.entries.len();
        assert(self.entries().subrange(0, i as int) =~= self.entries());
        while i > 0
            invariant
                i <= self.entries@.len(),
                lookup(self.entries(), path@) == lookup(self.entries().subrange(0, i as int), path@),
            decreases i,
        {
            let ghost sub = self.entries().subrange(0, i as int);
            assert(sub.last() == (self.entries@[i - 1].0@, self.entries@[i - 1].1));
            assert(sub.drop_last() =~= self.entries().subrange(0, i - 1));
            let key: &str = self.entries[i - 1].0.as_str();
            if crate::text::str_eq(key, path) {
                return Some(self.entries[i - 1].1);
            }
            assert(lookup(sub, path@) == lookup(sub.drop_last(), path@));
            i = i - 1;
        }
        None
    }

    /// Records `id` as the identity of `path`.
    pub fn insert(&mut self, path: String, id: Id)
        ensures
            final(self).get_spec(path@) == Some(id),
            forall|p: Seq<char>| p != path@ ==> #[trigger] final(self).get_spec(p) == old(self).get_spec(p),
    {
        let ghost k = path@;
        self.entries.push((path, id));
        proof {
            let e = self.entries();
            assert(e.drop_last() =~= old(self).entries());
            assert(e.last() == (k, id));
        }
    }
}

/// A value read after a write of it: a cache answers for a path with the
/// identity last recorded for it, and recording one path leaves the
/// answers for every other path as they were.
pub proof fn lemma_cache_read_after_write(c: Seq<(Seq<char>, Id)>, path: Seq<char>, id: Id, other: Seq<char>)
    requires
        other != path,
    ensures
        lookup(c.push((path, id)), path) == Some(id),
        lookup(c.push((path, id)), other) == lookup(c, other),
{
    assert(c.push((path, id)).drop_last() =~= c);
}

/// Whether a loaded module is a plugin: a file whose extension (of the
/// lowercased path) is `dll` and whose folder has the plugins folder's
/// identity (`None` when the folder's identity could not be read).
pub fn module_is_plugin(is_file: bool, extension: Option<&str>, folder: Option<Id>, plugins_dir: Id) -> (r: bool)
    ensures
        r == (is_file && (extension matches Some(e) && e@ == "dll"@) && folder == Some(plugins_dir)),
{
    if !is_file {
        return false;
    }
    let is_dll = match extension {
        Some(e) => crate::text::str_eq(e, "dll"),
        None => false,
    };
    if !is_dll {
        return false;
    }
    match folder {
        Some(id) => id == plugins_dir,
        None => false,
    }
}

/// The identity of the folder `key`: the one cached for it, or else the one
/// `read_id` reads (`None` when it cannot be read), which is then cached.
pub fn cached_dir_id(cache: &mut DirIdCache, key: String, read_id: &impl Fn(&String) -> Option<Id>) -> (r: Option<Id>)
    requires
        forall|p: &String| read_id.requires((p,)),
    ensures
        old(cache).get_spec(key@) is Some ==> r == old(cache).get_spec(key@)
            && forall|p: Seq<char>| #[trigger] final(cache).get_spec(p) == old(cache).get_spec(p),
        old(cache).get_spec(key@) is None ==> read_id.ensures((&key,), r),
        r is None ==> forall|p: Seq<char>| #[trigger] final(cache).get_spec(p) == old(cache).get_spec(p),
        r is Some ==> final(cache).get_spec(key@) == r,
        forall|p: Seq<char>| p != key@ ==> #[trigger] final(cache).get_spec(p) == old(cache).get_spec(p),
{
    match cache.get(key.as_str()) {
        Some(id) => Some(id),
        None => {
            let r = read_id(&key);
            match r {
                Some(id) => {
                    cache.insert(key, id);
                    Some(id)
                },
                None => None,
            }
        },
    }
}

/// Whether a loaded module is a plugin, reading folder identities only when
/// needed: a file with the `dll` extension whose folder `parent` (lowercased
/// path) has the plugins folder's identity, taken from the cache or read
/// with `read_id` and cached. Other modules never touch the cache.
pub fn check_module(
    cache: &mut DirIdCache,
    is_file: bool,
    extension: Option<&str>,
    parent: Option<String>,
    plugins_dir: Id,
    read_id: &impl Fn(&String) -> Option<Id>,
) -> (r: bool)
    requires
        forall|p: &String| read_id.requires((p,)),
    ensures
        !(is_file && (extension matches Some(e) && e@ == "dll"@)) || parent is None ==> !r
            && forall|p: Seq<char>| #[trigger] final(cache).get_spec(p) == old(cache).get_spec(p),
        match parent {
            None => true,
            Some(k) => {
                &&& old(cache).get_spec(k@) is Some ==> {
                    &&& r == (is_file && (extension matches Some(e) && e@ == "dll"@) && old(cache).get_spec(k@) == Some(plugins_dir))
                    &&& forall|p: Seq<char>| #[trigger] final(cache).get_spec(p) == old(cache).get_spec(p)
                }
                &&& (is_file && (extension matches Some(e) && e@ == "dll"@)) && old(cache).get_spec(k@) is None ==>
                    exists|read: Option<Id>| {
                        &&& #[trigger] read_id.ensures((&k,), read)
                        &&& r == (read == Some(plugins_dir))
                        &&& read is Some ==> final(cache).get_spec(k@) == read
                        &&& forall|p: Seq<char>| (p != k@ || read is None) ==> #[trigger] final(cache).get_spec(p) == old(cache).get_spec(p)
                    }
            },
        },
{
    if !module_is_plugin(is_file, extension, Some(plugins_dir), plugins_dir) {
        return false;
    }
    match parent {
        None => false,
        Some(k) => {
            let ghost key = k;
            let folder = cached_dir_id(cache, k, read_id);
            assert(old(cache).get_spec(key@) is None ==> read_id.ensures((&key,), folder));
            module_is_plugin(is_file, extension, folder, plugins_dir)
        },
    }
}

/// The size of one module handle in bytes.
pub const MODULE_HANDLE_SIZE: u32 = 8;

/// What to do after one call that lists the process's modules.
#[derive(Debug, PartialEq, Eq, Clone, Copy, Structural)]
pub enum ModulesStep {
    /// The call failed and may be retried: wait a moment and call again.
    Retry,
    /// The call failed too often: the check fails.
    Fail,
    /// The buffer was too small: grow it to this many handles and call again.
    Grow(usize),
    /// The listing is complete: this many handles were written.
    Done(usize),
}

/// The most failed listings retried before giving up.
pub const MAX_LIST_RETRIES: u32 = 4;

/// The step after a listing call, and the retry count carried to the next.
pub open spec fn list_decision(call_ok: bool, retries: u32, needed: u32, size: u32, len: usize) -> (ModulesStep, u32) {
    if !call_ok && retries < MAX_LIST_RETRIES {
        (ModulesStep::Retry, (retries + 1) as u32)
    } else if !call_ok {
        (ModulesStep::Fail, 0u32)
    } else if needed > size {
        (ModulesStep::Grow((len + 1024) as usize), 0u32)
    } else {
        (ModulesStep::Done((needed / MODULE_HANDLE_SIZE) as usize), 0u32)
    }
}

/// The decision after listing the modules into a buffer of `len` handles
/// (`size` bytes): a failed call is retried while fewer than four retries
/// were made, then fails; a successful call that needed more than `size`
/// bytes grows the buffer by 1024 handles. Returns the step and the retry
/// count to carry to the next call (reset once a call succeeds).
pub fn list_step(call_ok: bool, retries: u32, needed: u32, size: u32, len: usize) -> (r: (ModulesStep, u32))
    requires
        len + 1024 <= usize::MAX,
    ensures
        r == list_decision(call_ok, retries, needed, size, len),
{
    if !call_ok && retries < MAX_LIST_RETRIES {
        (ModulesStep::Retry, retries + 1)
    } else if !call_ok {
        (ModulesStep::Fail, 0)
    } else if needed > size {
        (ModulesStep::Grow(len + 1024), 0)
    } else {
        (ModulesStep::Done((needed / MODULE_HANDLE_SIZE) as usize), 0)
    }
}

/// `ERROR_INSUFFICIENT_BUFFER`.
pub const ERROR_INSUFFICIENT_BUFFER: u32 = 122;

/// The retries made so far while reading module paths: for the current
/// module, and for all modules together.
#[derive(Debug, PartialEq, Eq, Clone, Copy, Structural)]
pub struct RetryCounts {
    pub retry: u32,
    pub total: u32,
}

/// What to do after one attempt at reading a module's path.
#[derive(Debug, PartialEq, Eq, Clone, Copy, Structural)]
pub enum NameStep {
    /// The path is the first this-many units of the buffer.
    Accept(u32),
    /// The buffer was too small: grow it to this many units and read again.
    Grow(usize),
    /// A transient failure: wait a moment and read again.
    Retry,
    /// This module keeps failing: go on with the next one.
    Skip,
    /// Reads fail too often: the check fails.
    Fail,
}

/// The decision after reading a module path into a buffer of `buf_len`
/// units, the call returning `len` and the last error being `last_error`,
/// with the retry counts that result.
pub open spec fn name_decision(len: u32, buf_len: usize, last_error: u32, counts: RetryCounts) -> (NameStep, RetryCounts) {
    if len as usize == buf_len || len == 0 {
        if last_error == 0 {
            (NameStep::Accept(len), counts)
        } else if last_error == ERROR_INSUFFICIENT_BUFFER {
            (NameStep::Grow((buf_len + 1024) as usize), counts)
        } else if counts.total > 9 {
            (NameStep::Fail, counts)
        } else if counts.retry < 3 {
            (NameStep::Retry, RetryCounts { retry: (counts.retry + 1) as u32, total: (counts.total + 1) as u32 })
        } else {
            (NameStep::Skip, counts)
        }
    } else {
        (NameStep::Accept(len), counts)
    }
}

/// The decision after reading a module path into a buffer of `buf_len`
/// units, the call returning `len` and the last error being `last_error`.
/// A result that fills the buffer or is zero is judged by the last error:
/// none means the result stands; an insufficient buffer grows by 1024
/// units; any other error fails the check once more than nine retries were
/// made in all, is retried up to three times for one module, and skips the
/// module after that.
pub fn name_step(len: u32, buf_len: usize, last_error: u32, counts: RetryCounts) -> (r: (NameStep, RetryCounts))
    requires
        buf_len + 1024 <= usize::MAX,
        counts.total <= 10,
    ensures
        r == name_decision(len, buf_len, last_error, counts),
{
    if len as usize == buf_len || len == 0 {
        if last_error == 0 {
            (NameStep::Accept(len), counts)
        } else if last_error == ERROR_INSUFFICIENT_BUFFER {
            (NameStep::Grow(buf_len + 1024), counts)
        } else if counts.total > 9 {
            (NameStep::Fail, counts)
        } else if counts.retry < 3 {
            (NameStep::Retry, RetryCounts { retry: counts.retry + 1, total: counts.total + 1 })
        } else {
            (NameStep::Skip, counts)
        }
    } else {
        (NameStep::Accept(len), counts)
    }
}

/// Retries are bounded: a retry happens only while the module has had
/// fewer than three and all modules together at most nine, so no module is
/// read more than four times for transient failures and the retries of a
/// whole check never exceed ten.
pub proof fn lemma_name_retries_bounded(len: u32, buf_len: usize, last_error: u32, counts: RetryCounts)
    requires
        counts.total <= 10,
        counts.retry <= 3,
    ensures
        ({
            let next = name_decision(len, buf_len, last_error, counts);
            &&& next.1.retry <= 3
            &&& next.1.total <= 10
            &&& next.0 == NameStep::Retry ==> next.1.total == counts.total + 1 && next.1.retry == counts.retry + 1
            &&& next.0 != NameStep::Retry ==> next.1 == counts
        }),
{
}

/// Failed listings are retried at most four times in a row: the carried
/// count never exceeds four, a retry happens only below four, and any
/// successful call resets it.
pub proof fn lemma_list_retries_bounded(call_ok: bool, retries: u32, needed: u32, size: u32, len: usize)
    requires
        retries <= MAX_LIST_RETRIES,
    ensures
        ({
            let next = list_decision(call_ok, retries, needed, size, len);
            &&& next.1 <= MAX_LIST_RETRIES
            &&& next.0 == ModulesStep::Retry ==> retries < MAX_LIST_RETRIES && next.1 == retries + 1
            &&& retries == MAX_LIST_RETRIES && !call_ok ==> next.0 == ModulesStep::Fail
            &&& call_ok ==> next.1 == 0
        }),
{
}

} // verus!
