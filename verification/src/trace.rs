//! Trace collector: an append-only log of what happened in the kernel, the
//! source for resuming, forking and replaying a run.

use vstd::prelude::*;
use crate::event_bus::Event;

verus! {

/// One immutable trace record.
#[derive(Debug)]
pub enum TraceEntry {
    PluginLoaded(String),
    PluginUnloaded(String),
    Event(Event),
    /// A fork point.
    Checkpoint(String),
}

impl Clone for TraceEntry {
    fn clone(&self) -> (r: Self)
        ensures
            r == *self,
    {
        match self {
            TraceEntry::PluginLoaded(id) => TraceEntry::PluginLoaded(id.clone()),
            TraceEntry::PluginUnloaded(id) => TraceEntry::PluginUnloaded(id.clone()),
            TraceEntry::Event(e) => TraceEntry::Event(e.clone()),
            TraceEntry::Checkpoint(label) => TraceEntry::Checkpoint(label.clone()),
        }
    }
}

impl TraceEntry {
    /// The entry is a checkpoint whose label reads `label`.
    pub open spec fn is_checkpoint(self, label: Seq<char>) -> bool {
        self matches TraceEntry::Checkpoint(s) && s@ == label
    }

    /// The entry records that the plugin `id` was loaded.
    pub open spec fn is_loaded(self, id: Seq<char>) -> bool {
        self matches TraceEntry::PluginLoaded(s) && s@ == id
    }

    /// The entry records that the plugin `id` was unloaded.
    pub open spec fn is_unloaded(self, id: Seq<char>) -> bool {
        self matches TraceEntry::PluginUnloaded(s) && s@ == id
    }
}

/// Append-only collector of trace entries, in the order they were recorded.
pub struct TraceCollector {
    entries: Vec<TraceEntry>,
}

impl View for TraceCollector {
    type V = Seq<TraceEntry>;

    closed spec fn view(&self) -> Seq<TraceEntry> {
        self.entries@
    }
}

impl TraceCollector {
    pub fn new() -> (t: Self)
        ensures
            t@ == Seq::<TraceEntry>::empty(),
    {
        TraceCollector { entries: Vec::new() }
    }

    /// Appends one entry after all earlier ones.
    pub fn record(&mut self, entry: TraceEntry)
        ensures
            final(self)@ == old(self)@.push(entry),
            old(self)@.is_prefix_of(final(self)@),
    {
        self.entries.push(entry);
    }

    /// Appends a fork checkpoint labelled `label`.
    pub fn checkpoint(&mut self, label: &str)
        ensures
            final(self)@.len() == old(self)@.len() + 1,
            final(self)@.drop_last() == old(self)@,
            final(self)@.last().is_checkpoint(label@),
            old(self)@.is_prefix_of(final(self)@),
    {
        self.record(TraceEntry::Checkpoint(label.to_string()));
    }

    /// Every entry recorded so far, oldest first.
    pub fn snapshot(&self) -> (s: Vec<TraceEntry>)
        ensures
            s@ == self@,
    {
        let mut out: Vec<TraceEntry> = Vec::new();
        let n = self.entries.len();
        for i in 0..n
            invariant
                n == self.entries@.len(),
                out@ == self.entries@.take(i as int),
        {
            out.push(self.entries[i].clone());
            assert(self.entries@.take(i + 1) == self.entries@.take(i as int).push(self.entries@[i as int]));
        }
        assert(self.entries@.take(n as int) == self.entries@);
        out
    }

    pub fn len(&self) -> (n: usize)
        ensures
            n == self@.len(),
    {
        self.entries.len()
    }

    pub fn is_empty(&self) -> (b: bool)
        ensures
            b == (self@.len() == 0),
    {
        self.len() == 0
    }
}

/// The trace is append-only over any run of operations: when every step keeps
/// the trace before it as a prefix (as `record`, `checkpoint`, activation and
/// deactivation all do, and reading operations change nothing), every earlier
/// trace of the run is a prefix of every later one.
pub proof fn law_append_only(run: Seq<Seq<TraceEntry>>)
    requires
        forall|k: int| 0 <= k < run.len() - 1 ==> (#[trigger] run[k]).is_prefix_of(run[k + 1]),
    ensures
        forall|i: int, j: int| 0 <= i <= j < run.len() ==> run[i].is_prefix_of(run[j]),
    decreases run.len(),
{
    if run.len() > 0 {
        let init = run.drop_last();
        assert forall|k: int| 0 <= k < init.len() - 1 implies (#[trigger] init[k]).is_prefix_of(init[k + 1]) by {
            assert(init[k] == run[k] && init[k + 1] == run[k + 1]);
        }
        law_append_only(init);
        assert forall|i: int, j: int| 0 <= i <= j < run.len() implies run[i].is_prefix_of(run[j]) by {
            if j < run.len() - 1 {
                assert(init[i] == run[i] && init[j] == run[j]);
            } else if i < j {
                let last = run.len() - 1;
                assert(init[i] == run[i] && init[last - 1] == run[last - 1]);
                assert(run[i].is_prefix_of(run[last - 1]));
                assert(run[last - 1].is_prefix_of(run[last]));
                assert(run[i] =~= run[last].subrange(0, run[i].len() as int)) by {
                    assert forall|x: int| 0 <= x < run[i].len() implies run[i][x] == run[last][x] by {
                        assert(run[i][x] == run[last - 1].subrange(0, run[i].len() as int)[x]);
                        assert(run[last - 1][x] == run[last].subrange(0, run[last - 1].len() as int)[x]);
                    }
                }
            }
        }
    }
}

impl Default for TraceCollector {
    fn default() -> (t: Self)
        ensures
            t@ == Seq::<TraceEntry>::empty(),
    {
        Self::new()
    }
}

} // verus!
