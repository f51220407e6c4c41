//! The matching side of the WMI process-creation sink: which notifications
//! are process creations, and which created processes are watched
//! executables. The COM object that receives the notifications, reads their
//! properties and calls back lives in the application.
use vstd::prelude::*;

use crate::wide::{encode_wide, encode_wide_nul, until_nul, utf16, utf16_nul, wide_eq, wide_until_nul, no_nul, lemma_until_nul_of_utf16_nul};

verus! {

/// The WMI class of a process-creation notification.
pub open spec fn creation_event_class() -> Seq<char> {
    "__InstanceCreationEvent"@
}

/// The executables a sink reports, each kept as a NUL-terminated wide string.
pub struct EventSink {
    processes: Vec<Vec<u16>>,
}

impl EventSink {
    /// The NUL-terminated wide paths of the watched executables.
    pub closed spec fn watched(&self) -> Seq<Seq<u16>> {
        self.processes@.map_values(|p: Vec<u16>| p@)
    }

    /// Whether `path` is what a NUL-terminated read of one of the watched
    /// paths yields.
    pub open spec fn watches(&self, path: Seq<u16>) -> bool {
        exists|i: int| 0 <= i < self.watched().len() && until_nul(#[trigger] self.watched()[i]) == path
    }

    /// A sink for the given executables' full paths.
    pub fn new(processes: &[String]) -> (sink: Self)
        ensures
            sink.watched().len() == processes@.len(),
            forall|i: int| 0 <= i < processes@.len() ==> #[trigger] sink.watched()[i] == utf16_nul(processes@[i]@),
    {
        let mut encoded: Vec<Vec<u16>> = Vec::new();
        let mut i: usize = 0;
        while i < processes.len()
            invariant
                i <= processes@.len(),
                encoded@.len() == i,
                forall|j: int| 0 <= j < i ==> #[trigger] encoded@[j]@ == utf16_nul(processes@[j]@),
            decreases processes@.len() - i,
        {
            let w = encode_wide_nul(processes[i].as_str());
            encoded.push(w);
            i = i + 1;
        }
        EventSink { processes: encoded }
    }

    /// Whether a notification whose `__Class` property read as `class`
    /// (`None` when it could not be read) is a process creation.
    pub fn is_creation_event(class: Option<&[u16]>) -> (r: bool)
        ensures
            r == (class matches Some(c) && c@ == utf16(creation_event_class())),
    {
        match class {
            None => false,
            Some(c) => {
                let expected = encode_wide("__InstanceCreationEvent");
                wide_eq(c, expected.as_slice())
            },
        }
    }

    /// Whether a created process whose `ExecutablePath` read as `path`
    /// (`None` when it could not be read) is one of the watched executables.
    /// An empty path matches nothing.
    pub fn is_process(&self, path: Option<&[u16]>) -> (r: bool)
        ensures
            r == (path matches Some(t) && t@.len() > 0 && self.watches(t@)),
    {
        match path {
            None => false,
            Some(target) => target.len() != 0 && self.watches_path(target),
        }
    }

    fn watches_path(&self, target: &[u16]) -> (r: bool)
        requires
            target@.len() > 0,
        ensures
            r == self.watches(target@),
    {
        let mut i: usize = 0;
        while i < self.processes.len()
            invariant
                i <= self.processes@.len(),
                target@.len() > 0,
                forall|j: int| 0 <= j < i ==> until_nul(#[trigger] self.watched()[j]) != target@,
            decreases self.processes@.len() - i,
        {
            let source = wide_until_nul(self.processes[i].as_slice());
            assert(self.watched()[i as int] == self.processes@[i as int]@);
            if wide_eq(source.as_slice(), target) {
                assert(until_nul(self.watched()[i as int]) == target@);
                assert(self.watched().len() == self.processes@.len());
                assert(0 <= i < self.watched().len());
                assert(self.watches(target@));
                return true;
            }
            i = i + 1;
        }
        false
    }
}

/// Every watched executable (with a path free of NUL characters) is
/// recognised when a process with exactly that path is created.
pub proof fn lemma_sink_recognises_watched(processes: Seq<String>, sink: EventSink, i: int)
    requires
        sink.watched().len() == processes.len(),
        forall|k: int| 0 <= k < processes.len() ==> #[trigger] sink.watched()[k] == utf16_nul(processes[k]@),
        0 <= i < processes.len(),
        no_nul(processes[i]@),
    ensures
        sink.watches(utf16(processes[i]@)),
{
    lemma_until_nul_of_utf16_nul(processes[i]@);
    assert(until_nul(sink.watched()[i]) == utf16(processes[i]@));
}

/// A sink recognises exactly the executables it was made for: a created
/// process's path counts if and only if it is, unit for unit, the UTF-16
/// form of one of the given paths (none of which holds a NUL). A path that
/// differs from every one of them in any unit, the first included, or in
/// length, does not count.
pub proof fn lemma_sink_recognises_exactly(processes: Seq<String>, sink: EventSink, t: Seq<u16>)
    requires
        sink.watched().len() == processes.len(),
        forall|k: int| 0 <= k < processes.len() ==> #[trigger] sink.watched()[k] == utf16_nul(processes[k]@),
        forall|k: int| 0 <= k < processes.len() ==> no_nul(#[trigger] processes[k]@),
    ensures
        sink.watches(t) <==> exists|i: int| 0 <= i < processes.len() && t == utf16(#[trigger] processes[i]@),
        sink.watches(t) ==> exists|i: int| 0 <= i < processes.len() && t.len() == utf16(processes[i]@).len()
            && forall|k: int| 0 <= k < t.len() ==> t[k] == #[trigger] utf16(processes[i]@)[k],
{
    if sink.watches(t) {
        let i = choose|i: int| 0 <= i < sink.watched().len() && until_nul(#[trigger] sink.watched()[i]) == t;
        assert(no_nul(processes[i]@));
        lemma_until_nul_of_utf16_nul(processes[i]@);
        assert(t == utf16(processes[i]@));
    }
    if exists|i: int| 0 <= i < processes.len() && t == utf16(#[trigger] processes[i]@) {
        let i = choose|i: int| 0 <= i < processes.len() && t == utf16(#[trigger] processes[i]@);
        assert(no_nul(processes[i]@));
        lemma_sink_recognises_watched(processes, sink, i);
    }
}

} // verus!
