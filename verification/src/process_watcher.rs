//! Polling process watcher: the decisions taken on each round of polling the
//! system's process list. The thread, the channels' receiving ends and the
//! Windows calls that list processes and read their image paths are driven
//! by the application; this module decides which processes are new, which of
//! them are watched executables, when the watcher times out and when it stops.

pub mod event_sink;
pub mod watcher;

use std::collections::HashSet;
use std::mem::ManuallyDrop;
use std::sync::mpsc::Sender;

use vstd::prelude::*;

use crate::wide::{encode_wide, utf16, wide_eq};

verus! {

broadcast use vstd::std_specs::hash::group_hash_axioms;

/// The sending end of a standard channel.
#[verifier::external_type_specification]
#[verifier::external_body]
#[verifier::reject_recursive_types(T)]
pub struct ExSender<T>(Sender<T>);

/// What a watcher reports to its callback.
#[derive(Debug, PartialEq, Eq, Clone, Copy, Structural)]
pub enum CallType {
    /// A watched executable was started with this process id.
    Pid(u32),
    /// The time limit passed before the watcher stopped.
    Timeout,
}

/// How long a watcher runs before it reports [`CallType::Timeout`].
#[derive(Debug, PartialEq, Eq, Clone, Copy, Structural)]
pub enum Timeout {
    /// It never times out.
    Never,
    /// It times out after this many milliseconds.
    Duration(u64),
}

/// The pids of `pids` that are neither in `seen` nor earlier in `pids`,
/// in the order in which they come.
pub open spec fn fresh_pids(seen: Set<u32>, pids: Seq<u32>) -> Seq<u32>
    decreases pids.len(),
{
    if pids.len() == 0 {
        Seq::empty()
    } else {
        let prev = pids.drop_last();
        let p = pids.last();
        if seen.contains(p) || prev.contains(p) {
            fresh_pids(seen, prev)
        } else {
            fresh_pids(seen, prev).push(p)
        }
    }
}

/// The set of the pids in a snapshot.
pub open spec fn pid_set(pids: Seq<u32>) -> Set<u32> {
    Set::new(|p: u32| pids.contains(p))
}

/// Reading the image path of `pid` gave one of the watched executables.
pub open spec fn read_watched(path_of: impl Fn(u32) -> Option<Vec<u16>>, pid: u32, watched: Seq<Seq<u16>>) -> bool {
    exists|p: Vec<u16>| watched.contains(p@) && #[trigger] path_of.ensures((pid,), Some(p))
}

/// Reading the image path of `pid` failed or gave another executable.
pub open spec fn read_unwatched(path_of: impl Fn(u32) -> Option<Vec<u16>>, pid: u32, watched: Seq<Seq<u16>>) -> bool {
    path_of.ensures((pid,), None) || exists|p: Vec<u16>| !watched.contains(p@) && #[trigger] path_of.ensures((pid,), Some(p))
}

/// `order` holds increasing positions in `new`, and `picked` the pids at
/// those positions: `picked` is `new` with some pids left out, in order.
pub open spec fn picked_in_order(new: Seq<u32>, picked: Seq<u32>, order: Seq<int>) -> bool {
    &&& order.len() == picked.len()
    &&& forall|k: int| 0 <= k < order.len() ==> 0 <= #[trigger] order[k] < new.len() && new[order[k]] == picked[k]
    &&& forall|k1: int, k2: int| 0 <= k1 < k2 < order.len() ==> order[k1] < order[k2]
}

/// `picked` is `new` with some pids left out, in the order of `new`.
pub open spec fn in_order(new: Seq<u32>, picked: Seq<u32>) -> bool {
    exists|order: Seq<int>| #[trigger] picked_in_order(new, picked, order)
}

/// What becomes of a freshly started process once its image path was read.
#[derive(Debug, PartialEq, Eq, Clone, Copy, Structural)]
pub enum PidOutcome {
    /// Not a watched executable, or its path could not be read.
    Ignore,
    /// A watched executable: report it and keep watching.
    Report,
    /// A watched executable: report it, then stop (a one-shot watcher).
    ReportAndStop,
}

/// What to do after asking the system for its process list.
#[derive(Debug, PartialEq, Eq, Clone, Copy, Structural)]
pub enum EnumStep {
    /// The buffer may have been too small: grow it to this many pids and ask again.
    Grow(usize),
    /// The first this-many pids of the buffer are the snapshot.
    Snapshot(usize),
}

/// What the wait between two polling rounds ended with.
#[derive(Debug, PartialEq, Eq, Clone, Copy, Structural)]
pub enum PollSignal {
    /// The stop token asked the watcher to stop.
    Stop,
    /// Every stop token is gone.
    Disconnected,
    /// The polling interval passed.
    Elapsed,
}

/// A process watcher: the executables it watches, its polling interval, its
/// time limit, whether it stops after the first match, and the pids it saw
/// in the previous snapshot.
#[derive(Debug)]
pub struct ProcessWatcher {
    processes: Vec<Vec<u16>>,
    polling_rate_ms: u64,
    timeout: Timeout,
    state: HashSet<u32>,
    oneshot: bool,
}

impl ProcessWatcher {
    /// The watched executables' full paths, UTF-16 encoded.
    pub closed spec fn watched(&self) -> Seq<Seq<u16>> {
        self.processes@.map_values(|p: Vec<u16>| p@)
    }

    /// The pids of the previous snapshot.
    pub closed spec fn seen(&self) -> Set<u32> {
        self.state@
    }

    pub closed spec fn spec_polling_rate_ms(&self) -> u64 {
        self.polling_rate_ms
    }

    pub closed spec fn spec_timeout(&self) -> Timeout {
        self.timeout
    }

    pub closed spec fn spec_oneshot(&self) -> bool {
        self.oneshot
    }

    /// A watcher of the given executables (full paths), polling every
    /// `polling_rate_ms` milliseconds, that has seen no process yet.
    pub fn new(processes: Vec<String>, polling_rate_ms: u64, timeout: Timeout, oneshot: bool) -> (w: Self)
        ensures
            w.watched().len() == processes@.len(),
            forall|i: int| 0 <= i < processes@.len() ==> #[trigger] w.watched()[i] == utf16(processes@[i]@),
            w.seen() == Set::<u32>::empty(),
            w.spec_polling_rate_ms() == polling_rate_ms,
            w.spec_timeout() == timeout,
            w.spec_oneshot() == oneshot,
    {
        let mut encoded: Vec<Vec<u16>> = Vec::new();
        let mut i: usize = 0;
        while i < processes.len()
            invariant
                i <= processes@.len(),
                encoded@.len() == i,
                forall|j: int| 0 <= j < i ==> #[trigger] encoded@[j]@ == utf16(processes@[j]@),
            decreases processes@.len() - i,
        {
            let w = encode_wide(processes[i].as_str());
            encoded.push(w);
            i = i + 1;
        }
        let state: HashSet<u32> = HashSet::new();
        let w = ProcessWatcher { processes: encoded, polling_rate_ms, timeout, state, oneshot };
        assert(w.seen() =~= Set::<u32>::empty());
        w
    }

    /// The polling interval in milliseconds.
    pub fn polling_rate_ms(&self) -> (r: u64)
        ensures
            r == self.spec_polling_rate_ms(),
    {
        self.polling_rate_ms
    }

    /// The time limit.
    pub fn timeout(&self) -> (r: Timeout)
        ensures
            r == self.spec_timeout(),
    {
        self.timeout
    }

    /// Whether the watcher stops after its first match.
    pub fn oneshot(&self) -> (r: bool)
        ensures
            r == self.spec_oneshot(),
    {
        self.oneshot
    }

    /// Whether the time limit has passed after `elapsed_ms` milliseconds of
    /// watching.
    pub fn timed_out(&self, elapsed_ms: u64) -> (r: bool)
        ensures
            r == limit_passed(self.spec_timeout(), elapsed_ms),
    {
        match self.timeout {
            Timeout::Never => false,
            Timeout::Duration(d) => elapsed_ms >= d,
        }
    }

    /// Takes a new snapshot of the system's pids: `buffer` receives the pids
    /// that were not in the previous snapshot (each once, in the order in
    /// which they come), and the snapshot becomes the new previous one.
    pub fn process_pids(&mut self, pids: &[u32], buffer: &mut Vec<u32>)
        ensures
            final(buffer)@ == fresh_pids(old(self).seen(), pids@),
            final(self).seen() == pid_set(pids@),
            final(self).watched() == old(self).watched(),
            final(self).spec_polling_rate_ms() == old(self).spec_polling_rate_ms(),
            final(self).spec_timeout() == old(self).spec_timeout(),
            final(self).spec_oneshot() == old(self).spec_oneshot(),
    {
        let ghost seen0 = self.state@;
        buffer.clear();
        let mut i: usize = 0;
        while i < pids.len()
            invariant
                i <= pids@.len(),
                self.state@ == seen0.union(pid_set(pids@.subrange(0, i as int))),
                buffer@ == fresh_pids(seen0, pids@.subrange(0, i as int)),
                self.processes == old(self).processes,
                self.polling_rate_ms == old(self).polling_rate_ms,
                self.timeout == old(self).timeout,
                self.oneshot == old(self).oneshot,
                seen0 == old(self).state@,
            decreases pids@.len() - i,
        {
            let p = pids[i];
            let ghost prev = pids@.subrange(0, i as int);
            let ghost next = pids@.subrange(0, i + 1);
            proof {
                assert(next.drop_last() =~= prev);
                assert(next.last() == p);
                assert(seen0.union(pid_set(prev)).contains(p) == (seen0.contains(p) || prev.contains(p)));
            }
            if self.state.insert(p) {
                buffer.push(p);
            }
            proof {
                assert forall|x: u32| #[trigger] pid_set(next).contains(x) == (pid_set(prev).contains(x) || x == p) by {
                    if prev.contains(x) {
                        let k = choose|k: int| 0 <= k < prev.len() && prev[k] == x;
                        assert(next[k] == x);
                    }
                    if x == p {
                        assert(next[i as int] == x);
                    }
                    if next.contains(x) {
                        let k = choose|k: int| 0 <= k < next.len() && next[k] == x;
                        if k < i {
                            assert(prev[k] == x);
                        }
                    }
                }
                assert(self.state@ =~= seen0.union(pid_set(next)));
            }
            i = i + 1;
        }
        assert(pids@.subrange(0, pids@.len() as int) =~= pids@);
        self.state.clear();
        let mut j: usize = 0;
        while j < pids.len()
            invariant
                j <= pids@.len(),
                self.state@ == pid_set(pids@.subrange(0, j as int)),
                self.processes == old(self).processes,
                self.polling_rate_ms == old(self).polling_rate_ms,
                self.timeout == old(self).timeout,
                self.oneshot == old(self).oneshot,
            decreases pids@.len() - j,
        {
            let p = pids[j];
            self.state.insert(p);
            proof {
                let prev = pids@.subrange(0, j as int);
                let next = pids@.subrange(0, j + 1);
                assert forall|x: u32| #[trigger] pid_set(next).contains(x) == (pid_set(prev).contains(x) || x == p) by {
                    if prev.contains(x) {
                        let k = choose|k: int| 0 <= k < prev.len() && prev[k] == x;
                        assert(next[k] == x);
                    }
                    if x == p {
                        assert(next[j as int] == x);
                    }
                    if next.contains(x) {
                        let k = choose|k: int| 0 <= k < next.len() && next[k] == x;
                        if k < j {
                            assert(prev[k] == x);
                        }
                    }
                }
                assert(self.state@ =~= pid_set(next));
            }
            j = j + 1;
        }
        assert(pids@.subrange(0, pids@.len() as int) =~= pids@);
    }

    /// Whether `path` is the full path of one of the watched executables.
    pub fn is_watched(&self, path: &[u16]) -> (r: bool)
        ensures
            r == self.watched().contains(path@),
    {
        let mut i: usize = 0;
        while i < self.processes.len()
            invariant
                i <= self.processes@.len(),
                forall|j: int| 0 <= j < i ==> self.processes@[j]@ != path@,
            decreases self.processes@.len() - i,
        {
            if wide_eq(self.processes[i].as_slice(), path) {
                assert(self.watched()[i as int] == path@);
                return true;
            }
            i = i + 1;
        }
        proof {
            if self.watched().contains(path@) {
                let k = choose|k: int| 0 <= k < self.watched().len() && self.watched()[k] == path@;
                assert(self.processes@[k]@ == path@);
            }
        }
        false
    }

    /// One polling round after the system listed the pids `pids`: the new
    /// pids go to `new_pids` (as `process_pids` does) and each new pid's
    /// image path is read with `path_of` (`None` when the process cannot be
    /// opened or its path read). Returns the new pids that are watched
    /// executables, in the order in which they come and each once, and
    /// whether the watcher stops: a one-shot watcher stops at its first
    /// match and reads no further paths.
    pub fn scan(
        &mut self,
        pids: &[u32],
        new_pids: &mut Vec<u32>,
        path_of: &impl Fn(u32) -> Option<Vec<u16>>,
    ) -> (r: (Vec<u32>, bool))
        requires
            forall|p: u32| path_of.requires((p,)),
        ensures
            final(new_pids)@ == fresh_pids(old(self).seen(), pids@),
            final(self).seen() == pid_set(pids@),
            final(self).watched() == old(self).watched(),
            final(self).spec_polling_rate_ms() == old(self).spec_polling_rate_ms(),
            final(self).spec_timeout() == old(self).spec_timeout(),
            final(self).spec_oneshot() == old(self).spec_oneshot(),
            forall|k: int| 0 <= k < r.0@.len() ==> final(new_pids)@.contains(#[trigger] r.0@[k])
                && read_watched(*path_of, r.0@[k], old(self).watched()),
            in_order(final(new_pids)@, r.0@),
            r.0@.no_duplicates(),
            r.1 ==> old(self).spec_oneshot() && r.0@.len() == 1,
            r.1 ==> exists|k: int| 0 <= k < final(new_pids)@.len() && final(new_pids)@[k] == r.0@[0]
                && forall|j: int| 0 <= j < k ==> read_unwatched(*path_of, #[trigger] final(new_pids)@[j], old(self).watched()),
            !r.1 ==> forall|i: int| 0 <= i < final(new_pids)@.len() ==>
                (r.0@.contains(#[trigger] final(new_pids)@[i]) || read_unwatched(*path_of, final(new_pids)@[i], old(self).watched())),
            !r.1 && old(self).spec_oneshot() ==> r.0@.len() == 0,
            scan_possible(old(self).spec_oneshot(), r.0@, r.1),
    {
        self.process_pids(pids, new_pids);
        proof {
            lemma_fresh_pids_exact(old(self).seen(), pids@);
        }
        let mut reported: Vec<u32> = Vec::new();
        let ghost mut order: Seq<int> = Seq::empty();
        let mut i: usize = 0;
        while i < new_pids.len()
            invariant
                i <= new_pids@.len(),
                forall|p: u32| path_of.requires((p,)),
                new_pids@ == fresh_pids(old(self).seen(), pids@),
                new_pids@.no_duplicates(),
                self.seen() == pid_set(pids@),
                self.watched() == old(self).watched(),
                self.spec_polling_rate_ms() == old(self).spec_polling_rate_ms(),
                self.spec_timeout() == old(self).spec_timeout(),
                self.spec_oneshot() == old(self).spec_oneshot(),
                forall|k: int| 0 <= k < reported@.len() ==> new_pids@.contains(#[trigger] reported@[k])
                    && read_watched(*path_of, reported@[k], self.watched()),
                picked_in_order(new_pids@, reported@, order),
                forall|k: int| 0 <= k < order.len() ==> #[trigger] order[k] < i,
                reported@.no_duplicates(),
                forall|j: int| 0 <= j < i ==> (reported@.contains(#[trigger] new_pids@[j]) || read_unwatched(*path_of, new_pids@[j], self.watched())),
                self.spec_oneshot() ==> reported@.len() == 0,
            decreases new_pids@.len() - i,
        {
            let pid = new_pids[i];
            let path = path_of(pid);
            let outcome = match &path {
                None => PidOutcome::Ignore,
                Some(p) => self.check_new_process(Some(p.as_slice())),
            };
            match outcome {
                PidOutcome::Ignore => {
                    assert(read_unwatched(*path_of, new_pids@[i as int], self.watched()));
                },
                PidOutcome::Report => {
                    assert(read_watched(*path_of, pid, self.watched()));
                    let ghost before = reported@;
                    let ghost order0 = order;
                    proof {
                        assert forall|k: int| 0 <= k < before.len() implies before[k] != pid by {
                            assert(new_pids@[order0[k]] == before[k]);
                            assert(order0[k] < i);
                        }
                    }
                    reported.push(pid);
                    proof {
                        order = order.push(i as int);
                        assert(picked_in_order(new_pids@, reported@, order));
                    }
                    assert(reported@.last() == pid);
                    assert(reported@.contains(new_pids@[i as int]));
                    assert forall|x: u32| before.contains(x) implies reported@.contains(x) by {
                        let k = choose|k: int| 0 <= k < before.len() && before[k] == x;
                        assert(reported@[k] == x);
                    }
                },
                PidOutcome::ReportAndStop => {
                    assert(read_watched(*path_of, pid, self.watched()));
                    let ghost before = reported@;
                    assert(before.len() == 0);
                    reported.push(pid);
                    assert(reported@[0] == pid);
                    proof {
                        order = order.push(i as int);
                        assert(picked_in_order(new_pids@, reported@, order));
                        assert(in_order(new_pids@, reported@));
                        assert forall|j: int| 0 <= j < i implies read_unwatched(*path_of, #[trigger] new_pids@[j], old(self).watched()) by {
                            assert(!before.contains(new_pids@[j]));
                        }
                    }
                    return (reported, true);
                },
            }
            i = i + 1;
        }
        assert(picked_in_order(new_pids@, reported@, order));
        assert(in_order(new_pids@, reported@));
        (reported, false)
    }

    /// What to do with a freshly started process given its image path
    /// (`None` when the process could not be opened or its path not read).
    pub fn check_new_process(&self, path: Option<&[u16]>) -> (r: PidOutcome)
        ensures
            r == match path {
                None => PidOutcome::Ignore,
                Some(p) => if !self.watched().contains(p@) {
                    PidOutcome::Ignore
                } else if self.spec_oneshot() {
                    PidOutcome::ReportAndStop
                } else {
                    PidOutcome::Report
                },
            },
    {
        match path {
            None => PidOutcome::Ignore,
            Some(p) => {
                if !self.is_watched(p) {
                    PidOutcome::Ignore
                } else if self.oneshot {
                    PidOutcome::ReportAndStop
                } else {
                    PidOutcome::Report
                }
            },
        }
    }

    /// The decision after the system filled a pid buffer of `capacity`
    /// pids and said that the list needs `needed_bytes` bytes: when the list
    /// filled the buffer exactly it may have been cut short, so the buffer
    /// grows by 1024 pids; otherwise the list holds `needed_bytes / 4` pids.
    pub fn enum_step(capacity: usize, needed_bytes: u32) -> (r: EnumStep)
        requires
            capacity * 4 <= u32::MAX,
            capacity + 1024 <= usize::MAX,
        ensures
            r == if needed_bytes == capacity * 4 {
                EnumStep::Grow((capacity + 1024) as usize)
            } else {
                EnumStep::Snapshot((needed_bytes / 4) as usize)
            },
    {
        let cb: u32 = (capacity * 4) as u32;
        if needed_bytes == cb {
            EnumStep::Grow(capacity + 1024)
        } else {
            EnumStep::Snapshot((needed_bytes / 4) as usize)
        }
    }

    /// Whether the watcher stops after the wait between two rounds.
    pub fn stops_after(signal: PollSignal) -> (r: bool)
        ensures
            r == (signal != PollSignal::Elapsed),
    {
        match signal {
            PollSignal::Stop => true,
            PollSignal::Disconnected => true,
            PollSignal::Elapsed => false,
        }
    }
}

/// A pid reported by one snapshot is never reported again by the next
/// snapshot when that one lists the same pids: each started process is
/// reported once.
pub proof fn lemma_same_snapshot_reports_nothing(pids: Seq<u32>)
    ensures
        fresh_pids(pid_set(pids), pids) == Seq::<u32>::empty(),
    decreases pids.len(),
{
    lemma_fresh_pids_within(pid_set(pids), pids);
}

proof fn lemma_fresh_pids_within(seen: Set<u32>, pids: Seq<u32>)
    requires
        forall|i: int| 0 <= i < pids.len() ==> seen.contains(#[trigger] pids[i]),
    ensures
        fresh_pids(seen, pids) == Seq::<u32>::empty(),
    decreases pids.len(),
{
    if pids.len() > 0 {
        let prev = pids.drop_last();
        assert forall|i: int| 0 <= i < prev.len() implies seen.contains(#[trigger] prev[i]) by {
            assert(prev[i] == pids[i]);
        }
        lemma_fresh_pids_within(seen, prev);
        assert(seen.contains(pids[pids.len() - 1]));
    }
}

/// Each start of a process is reported once: a pid listed by two snapshots
/// in a row is not new in the second (so no scan of it reports it), and a
/// pid the second lists but the first did not is new in it.
pub proof fn lemma_reported_once_per_start(first: Seq<u32>, second: Seq<u32>, p: u32)
    ensures
        first.contains(p) ==> !fresh_pids(pid_set(first), second).contains(p),
        second.contains(p) && !first.contains(p) ==> fresh_pids(pid_set(first), second).contains(p),
{
    lemma_fresh_pids_exact(pid_set(first), second);
    assert(pid_set(first).contains(p) == first.contains(p));
}

/// The pids a snapshot reports are exactly the pids of the snapshot that
/// were not in the previous one, each reported once.
pub proof fn lemma_fresh_pids_exact(seen: Set<u32>, pids: Seq<u32>)
    ensures
        forall|p: u32| #[trigger] fresh_pids(seen, pids).contains(p) <==> (pids.contains(p) && !seen.contains(p)),
        fresh_pids(seen, pids).no_duplicates(),
    decreases pids.len(),
{
    if pids.len() > 0 {
        let prev = pids.drop_last();
        let q = pids.last();
        lemma_fresh_pids_exact(seen, prev);
        let f = fresh_pids(seen, prev);
        assert forall|p: u32| #[trigger] pids.contains(p) <==> (prev.contains(p) || p == q) by {
            if pids.contains(p) {
                let k = choose|k: int| 0 <= k < pids.len() && pids[k] == p;
                if k < pids.len() - 1 {
                    assert(prev[k] == p);
                }
            }
            if prev.contains(p) {
                let k = choose|k: int| 0 <= k < prev.len() && prev[k] == p;
                assert(pids[k] == p);
            }
            if p == q {
                assert(pids[pids.len() - 1] == p);
            }
        }
        if !(seen.contains(q) || prev.contains(q)) {
            let g = f.push(q);
            assert forall|p: u32| #[trigger] g.contains(p) <==> (f.contains(p) || p == q) by {
                if g.contains(p) {
                    let k = choose|k: int| 0 <= k < g.len() && g[k] == p;
                    if k < f.len() {
                        assert(f[k] == p);
                    }
                }
                if f.contains(p) {
                    let k = choose|k: int| 0 <= k < f.len() && f[k] == p;
                    assert(g[k] == p);
                }
                if p == q {
                    assert(g[f.len() as int] == p);
                }
            }
            assert forall|i: int, j: int| 0 <= i < g.len() && 0 <= j < g.len() && i != j implies g[i] != g[j] by {
                if i < f.len() && j < f.len() {
                } else if i < f.len() {
                    assert(f.contains(g[i]));
                } else {
                    assert(f.contains(g[j]));
                }
            }
        }
    }
}

/// Whether the time limit `timeout` has passed after `elapsed_ms`
/// milliseconds (what `timed_out` answers).
pub open spec fn limit_passed(timeout: Timeout, elapsed_ms: u64) -> bool {
    timeout matches Timeout::Duration(d) && elapsed_ms >= d
}

/// A scan outcome that `scan` can give: a one-shot watcher either reports
/// nothing and goes on, or reports one pid and stops; any other watcher
/// never stops after a scan.
pub open spec fn scan_possible(oneshot: bool, reported: Seq<u32>, stop: bool) -> bool {
    if oneshot {
        (reported.len() == 0 && !stop) || (reported.len() == 1 && stop)
    } else {
        !stop
    }
}

/// Where a running watcher stands.
#[derive(Debug, PartialEq, Eq, Clone, Copy, Structural)]
pub enum RunPhase {
    /// A polling round is about to begin.
    AwaitRound,
    /// The system's pids are to be listed and scanned.
    AwaitList,
    /// The watcher waits for the polling interval or a stop request.
    AwaitWait,
    /// The run has ended.
    Done,
}

/// What the application tells a running watcher.
#[derive(Debug)]
pub enum RunEvent {
    /// A polling round begins this many milliseconds after the run began.
    RoundBegins(u64),
    /// The system listed these pids.
    Listed(Vec<u32>),
    /// The wait after a round ended so.
    Waited(PollSignal),
}

/// What a running watcher asks the application to do next.
#[derive(Debug)]
pub enum RunAction {
    /// Call back with the timeout, wake the waiter when `wake_waiter`, and
    /// end the run.
    Timeout { wake_waiter: bool },
    /// List the system's pids.
    List,
    /// Call back with each of these pids, in order; then, when `finish`,
    /// wake the waiter and end the run, else wait for the polling interval
    /// or a stop request.
    Report { pids: Vec<u32>, finish: bool },
    /// Begin the next round.
    NextRound,
    /// End the run.
    Finish,
}

/// The callbacks an action asks for.
pub open spec fn action_calls(a: RunAction) -> Seq<CallType> {
    match a {
        RunAction::Timeout { .. } => seq![CallType::Timeout],
        RunAction::Report { pids, .. } => pids@.map_values(|pid: u32| CallType::Pid(pid)),
        _ => Seq::empty(),
    }
}

/// Whether an action wakes the waiter.
pub open spec fn action_wakes(a: RunAction) -> bool {
    match a {
        RunAction::Timeout { wake_waiter } => wake_waiter,
        RunAction::Report { finish, .. } => finish,
        _ => false,
    }
}

/// What holds of every run at every point: a one-shot watcher calls back at
/// most once and, once it has, has woken the waiter once and ended; the
/// waiter is woken at most once, and only as the run ends; a watcher
/// without time limit never reports a timeout; a timeout is the last
/// callback of a run, after which the run has ended.
pub open spec fn run_laws(oneshot: bool, timeout: Timeout, calls: Seq<CallType>, done: bool, wakes: nat) -> bool {
    &&& oneshot ==> calls.len() <= 1
    &&& oneshot && calls.len() == 1 ==> done && wakes == 1
    &&& wakes <= 1
    &&& wakes == 1 ==> done
    &&& timeout == Timeout::Never ==> forall|k: int| 0 <= k < calls.len() ==> #[trigger] calls[k] != CallType::Timeout
    &&& forall|k: int| 0 <= k < calls.len() && #[trigger] calls[k] == CallType::Timeout ==> k == calls.len() - 1 && done
}

/// A running watcher: the decisions of its polling loop, from what the
/// application saw to what it does next. The callbacks and waiter wake-ups
/// asked for so far are recorded.
pub struct WatchRun {
    watcher: ProcessWatcher,
    new_pids: Vec<u32>,
    phase: RunPhase,
    calls: Ghost<Seq<CallType>>,
    wakes: Ghost<nat>,
}

impl WatchRun {
    pub closed spec fn spec_phase(&self) -> RunPhase {
        self.phase
    }

    /// The callbacks asked for so far, in order.
    pub closed spec fn calls(&self) -> Seq<CallType> {
        self.calls@
    }

    /// How often the waiter was to be woken so far.
    pub closed spec fn wakes(&self) -> nat {
        self.wakes@
    }

    pub closed spec fn watched(&self) -> Seq<Seq<u16>> {
        self.watcher.watched()
    }

    pub closed spec fn seen(&self) -> Set<u32> {
        self.watcher.seen()
    }

    pub closed spec fn spec_oneshot(&self) -> bool {
        self.watcher.spec_oneshot()
    }

    pub closed spec fn spec_timeout(&self) -> Timeout {
        self.watcher.spec_timeout()
    }

    /// The run's laws hold of it.
    pub open spec fn wf(&self) -> bool {
        run_laws(self.spec_oneshot(), self.spec_timeout(), self.calls(), self.spec_phase() == RunPhase::Done, self.wakes())
    }

    /// A run of `watcher` that has done nothing yet.
    pub fn new(watcher: ProcessWatcher) -> (run: Self)
        ensures
            run.wf(),
            run.spec_phase() == RunPhase::AwaitRound,
            run.calls() == Seq::<CallType>::empty(),
            run.wakes() == 0,
            run.watched() == watcher.watched(),
            run.seen() == watcher.seen(),
            run.spec_oneshot() == watcher.spec_oneshot(),
            run.spec_timeout() == watcher.spec_timeout(),
    {
        WatchRun { watcher, new_pids: Vec::new(), phase: RunPhase::AwaitRound, calls: Ghost(Seq::empty()), wakes: Ghost(0) }
    }

    /// Where the run stands.
    pub fn phase(&self) -> (p: RunPhase)
        ensures
            p == self.spec_phase(),
    {
        self.phase
    }

    /// The next action after `event`; `path_of` reads a new process's
    /// image path when the system's pids are scanned. A round that begins
    /// after the time limit reports the timeout (waking the waiter of a
    /// one-shot watcher) and ends the run; otherwise the pids are listed and
    /// scanned, and the watched executables among the new processes are
    /// reported. A one-shot watcher then wakes the waiter and ends at its
    /// first report; otherwise the run waits, and ends when the wait ends
    /// otherwise than by the polling interval. An event out of turn, or any
    /// event after the end, ends the run with nothing more done.
    pub fn step(&mut self, event: RunEvent, path_of: &impl Fn(u32) -> Option<Vec<u16>>) -> (a: RunAction)
        requires
            old(self).wf(),
            forall|p: u32| path_of.requires((p,)),
        ensures
            final(self).wf(),
            final(self).calls() == old(self).calls() + action_calls(a),
            final(self).wakes() == old(self).wakes() + if action_wakes(a) { 1nat } else { 0nat },
            final(self).watched() == old(self).watched(),
            final(self).spec_oneshot() == old(self).spec_oneshot(),
            final(self).spec_timeout() == old(self).spec_timeout(),
            old(self).spec_phase() == RunPhase::Done ==> a is Finish && final(self).spec_phase() == RunPhase::Done
                && final(self).seen() == old(self).seen(),
            match (old(self).spec_phase(), event) {
                (RunPhase::AwaitRound, RunEvent::RoundBegins(e)) => if limit_passed(old(self).spec_timeout(), e) {
                    a == (RunAction::Timeout { wake_waiter: old(self).spec_oneshot() }) && final(self).spec_phase() == RunPhase::Done
                } else {
                    a is List && final(self).spec_phase() == RunPhase::AwaitList
                },
                (RunPhase::AwaitList, RunEvent::Listed(l)) => a matches RunAction::Report { pids: r, finish } && {
                    let fresh = fresh_pids(old(self).seen(), l@);
                    &&& forall|k: int| 0 <= k < r@.len() ==> fresh.contains(#[trigger] r@[k])
                        && read_watched(*path_of, r@[k], old(self).watched())
                    &&& in_order(fresh, r@)
                    &&& r@.no_duplicates()
                    &&& finish == (old(self).spec_oneshot() && r@.len() == 1)
                    &&& old(self).spec_oneshot() ==> r@.len() <= 1
                    &&& !finish ==> forall|i: int| 0 <= i < fresh.len() ==>
                        (r@.contains(#[trigger] fresh[i]) || read_unwatched(*path_of, fresh[i], old(self).watched()))
                    &&& final(self).seen() == pid_set(l@)
                    &&& final(self).spec_phase() == if finish { RunPhase::Done } else { RunPhase::AwaitWait }
                },
                (RunPhase::AwaitWait, RunEvent::Waited(s)) => if s != PollSignal::Elapsed {
                    a is Finish && final(self).spec_phase() == RunPhase::Done
                } else {
                    a is NextRound && final(self).spec_phase() == RunPhase::AwaitRound
                },
                _ => a is Finish && final(self).spec_phase() == RunPhase::Done,
            },
    {
        let ghost calls0 = self.calls@;
        let ghost wakes0 = self.wakes@;
        match (self.phase, event) {
            (RunPhase::AwaitRound, RunEvent::RoundBegins(e)) => {
                if self.watcher.timed_out(e) {
                    let wake = self.watcher.oneshot();
                    self.phase = RunPhase::Done;
                    proof {
                        self.calls@ = calls0.push(CallType::Timeout);
                        if wake {
                            self.wakes@ = wakes0 + 1;
                        }
                        assert(self.calls@ =~= calls0 + seq![CallType::Timeout]);
                    }
                    RunAction::Timeout { wake_waiter: wake }
                } else {
                    self.phase = RunPhase::AwaitList;
                    proof {
                        assert(self.calls@ =~= calls0 + Seq::<CallType>::empty());
                    }
                    RunAction::List
                }
            },
            (RunPhase::AwaitList, RunEvent::Listed(l)) => {
                let (r, stop) = self.watcher.scan(l.as_slice(), &mut self.new_pids, path_of);
                let ghost added = r@.map_values(|pid: u32| CallType::Pid(pid));
                proof {
                    self.calls@ = calls0 + added;
                    if stop {
                        self.wakes@ = wakes0 + 1;
                    }
                    assert forall|k: int| 0 <= k < added.len() implies #[trigger] added[k] != CallType::Timeout by {
                        assert(added[k] == CallType::Pid(r@[k]));
                    }
                    assert forall|k: int| 0 <= k < self.calls@.len() && #[trigger] self.calls@[k] == CallType::Timeout
                        implies k < calls0.len() by {
                        if k >= calls0.len() {
                            assert(self.calls@[k] == added[k - calls0.len()]);
                        }
                    }
                }
                if stop {
                    self.phase = RunPhase::Done;
                } else {
                    self.phase = RunPhase::AwaitWait;
                }
                RunAction::Report { pids: r, finish: stop }
            },
            (RunPhase::AwaitWait, RunEvent::Waited(s)) => {
                proof {
                    assert(self.calls@ =~= calls0 + Seq::<CallType>::empty());
                }
                if ProcessWatcher::stops_after(s) {
                    self.phase = RunPhase::Done;
                    RunAction::Finish
                } else {
                    self.phase = RunPhase::AwaitRound;
                    RunAction::NextRound
                }
            },
            _ => {
                proof {
                    assert(self.calls@ =~= calls0 + Seq::<CallType>::empty());
                }
                self.phase = RunPhase::Done;
                RunAction::Finish
            },
        }
    }
}

/// `Sender::send` of a unit signal; `true` when the receiving end still exists.
#[verifier::external_body]
fn send_signal(sender: &Sender<()>) -> bool {
    sender.send(()).is_ok()
}

/// Why a stop request did not reach its receivers.
#[derive(Debug, PartialEq, Eq, Clone, Copy, Structural)]
pub enum StopError {
    /// The watching thread is gone; nothing was sent to the waiter.
    WatcherGone,
    /// The watching thread was told to stop, but the waiter is gone.
    WaiterGone,
}

/// The next thing a stop request does.
#[derive(Debug, PartialEq, Eq, Clone, Copy, Structural)]
pub enum StopStep {
    /// Signal the watching thread.
    SignalThread,
    /// Signal the waiter.
    SignalWaiter,
    /// Send nothing more.
    Finish,
}

/// The next step of a stop request, given what the watching thread's
/// signal came to (`None` while it was not sent): the thread is signalled
/// first, the waiter only once the thread received its signal.
pub fn next_signal(thread_received: Option<bool>) -> (s: StopStep)
    ensures
        s == match thread_received {
            None => StopStep::SignalThread,
            Some(true) => StopStep::SignalWaiter,
            Some(false) => StopStep::Finish,
        },
{
    match thread_received {
        None => StopStep::SignalThread,
        Some(true) => StopStep::SignalWaiter,
        Some(false) => StopStep::Finish,
    }
}

/// What a stop request comes to, given whether the watching thread received
/// its signal and whether the waiter received its own (sent only after the
/// thread received its signal).
pub fn stop_outcome(thread_received: bool, waiter_received: bool) -> (r: Result<(), StopError>)
    ensures
        r == if !thread_received {
            Err(StopError::WatcherGone)
        } else if !waiter_received {
            Err(StopError::WaiterGone)
        } else {
            Ok(())
        },
{
    if !thread_received {
        Err(StopError::WatcherGone)
    } else if !waiter_received {
        Err(StopError::WaiterGone)
    } else {
        Ok(())
    }
}

/// Stops a running watcher: it tells the watching thread to stop, then
/// wakes whoever waits for the watcher. Its senders are never dropped, so
/// dropping a token does not by itself stop the watcher.
#[derive(Debug)]
pub struct ProcessWatcherStopToken {
    thread_sender: ManuallyDrop<Sender<()>>,
    wait_sender: ManuallyDrop<Sender<()>>,
}

impl ProcessWatcherStopToken {
    /// The sending end that reaches the watching thread.
    pub closed spec fn thread_end(&self) -> Sender<()> {
        self.thread_sender@
    }

    /// The sending end that reaches the waiter.
    pub closed spec fn wait_end(&self) -> Sender<()> {
        self.wait_sender@
    }

    /// A token over the sending ends of the watching thread's stop channel
    /// and of the waiter's channel.
    pub fn new(thread_sender: Sender<()>, wait_sender: Sender<()>) -> (t: Self)
        ensures
            t.thread_end() == thread_sender,
            t.wait_end() == wait_sender,
    {
        ProcessWatcherStopToken {
            thread_sender: ManuallyDrop::new(thread_sender),
            wait_sender: ManuallyDrop::new(wait_sender),
        }
    }

    /// The sending end that a step of a stop request signals.
    pub fn stop_target(&self, step: StopStep) -> (s: &Sender<()>)
        requires
            step != StopStep::Finish,
        ensures
            step == StopStep::SignalThread ==> *s == self.thread_end(),
            step == StopStep::SignalWaiter ==> *s == self.wait_end(),
    {
        if step == StopStep::SignalThread {
            &self.thread_sender
        } else {
            &self.wait_sender
        }
    }

    /// Sends the stop signal to the watching thread and then to the waiter;
    /// the second is sent only when the first was received, as
    /// `next_signal` decides, each to the end that `stop_target` gives. Where a receiving end is gone, this returns the
    /// error (`stop_outcome` of the two answers) rather than panicking.
    /// Whether a signal arrives depends on whether its receiving end still
    /// exists, which nothing here can see, so no clause states the result.
    pub fn stop(&self) -> (r: Result<(), StopError>)
    {
        let mut thread_received: Option<bool> = None;
        let mut waiter_received = false;
        let mut rounds: u32 = 0;
        while rounds < 2
            invariant
                rounds <= 2,
            decreases 2 - rounds,
        {
            let step = next_signal(thread_received);
            if step == StopStep::Finish {
                break;
            }
            let received = send_signal(self.stop_target(step));
            if step == StopStep::SignalThread {
                thread_received = Some(received);
            } else {
                waiter_received = received;
                break;
            }
            rounds = rounds + 1;
        }
        let thread_ok = match thread_received {
            Some(b) => b,
            None => false,
        };
        stop_outcome(thread_ok, waiter_received)
    }
}

} // verus!
