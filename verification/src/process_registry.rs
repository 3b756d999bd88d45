use vstd::prelude::*;

use std::collections::BTreeMap;

use crate::task::{ProcessId, TaskId};
use vstd::std_specs::iter::IteratorSpec;
use vstd::std_specs::cmp::OrdSpec;

verus! {

broadcast use vstd::laws_cmp::group_laws_cmp, vstd::std_specs::btree::group_btree_axioms;

/// What the registry keeps of a live process: its id and its threads.
#[derive(Debug)]
pub struct ProcessRecord {
    pub id: ProcessId,
    pub threads: Vec<TaskId>,
}

impl ProcessRecord {
    /// A copy of the record.
    pub fn duplicate(&self) -> (r: ProcessRecord)
        ensures
            r.id == self.id,
            r.threads@ == self.threads@,
    {
        ProcessRecord { id: self.id, threads: copy_task_ids(&self.threads) }
    }
}

/// A copy of a list of task ids.
pub fn copy_task_ids(v: &Vec<TaskId>) -> (r: Vec<TaskId>)
    ensures
        r@ == v@,
{
    let mut out: Vec<TaskId> = Vec::new();
    let mut i: usize = 0;
    while i < v.len()
        invariant
            i <= v@.len(),
            out@ == v@.take(i as int),
        decreases v@.len() - i,
    {
        out.push(v[i]);
        assert(out@ =~= v@.take(i + 1));
        i = i + 1;
    }
    assert(v@.take(v@.len() as int) =~= v@);
    out
}

/// The table of live processes, keyed by process id, and the number of
/// process ids ever registered.
pub struct ProcessRegistry {
    table: BTreeMap<usize, ProcessRecord>,
    registered: usize,
}

impl ProcessRegistry {
    /// The live processes, by id.
    pub closed spec fn processes(&self) -> Map<usize, ProcessRecord> {
        self.table@
    }

    /// How many processes were ever registered, modulo the word size.
    pub closed spec fn total(&self) -> usize {
        self.registered
    }

    pub fn new() -> (r: Self)
        ensures
            r.processes() == Map::<usize, ProcessRecord>::empty(),
            r.total() == 0,
    {
        ProcessRegistry { table: BTreeMap::new(), registered: 0 }
    }

    /// Inserts a new process under its id, replacing any process with the
    /// same id, and counts it.  Returns a copy of what was stored.
    pub fn register_process(&mut self, process: ProcessRecord) -> (r: ProcessRecord)
        ensures
            final(self).processes() == old(self).processes().insert(process.id.0, process),
            final(self).total() == (if old(self).total() == usize::MAX { 0 } else { old(self).total() + 1 }),
            r.id == process.id,
            r.threads@ == process.threads@,
    {
        let pid = process.id.0;
        let copy = process.duplicate();
        self.table.insert(pid, process);
        self.registered = self.registered.wrapping_add(1);
        copy
    }

    /// The process with id `pid`, if it is live.
    pub fn get_process(&self, pid: ProcessId) -> (r: Option<&ProcessRecord>)
        ensures
            r is Some <==> self.processes().contains_key(pid.0),
            r matches Some(p) ==> *p == self.processes()[pid.0],
    {
        self.table.get(&pid.0)
    }

    /// Removes the process with id `pid` and hands it back.
    pub fn unregister_process(&mut self, pid: ProcessId) -> (r: Option<ProcessRecord>)
        ensures
            final(self).processes() == old(self).processes().remove(pid.0),
            final(self).total() == old(self).total(),
            r is Some <==> old(self).processes().contains_key(pid.0),
            r matches Some(p) ==> p == old(self).processes()[pid.0],
            final(self).processes().dom().len() == old(self).processes().dom().len() - (if old(
                self,
            ).processes().contains_key(pid.0) {
                1int
            } else {
                0int
            }),
    {
        proof {
            self.lemma_processes_finite();
        }
        self.table.remove(&pid.0)
    }

    /// The live processes are finitely many.
    pub proof fn lemma_processes_finite(&self)
        ensures
            self.processes().dom().finite(),
    {
        vstd::std_specs::btree::axiom_btree_map_view_finite_dom(self.table);
    }

    /// Number of live processes.
    pub fn process_count(&self) -> (r: usize)
        ensures
            r == self.processes().dom().len(),
    {
        self.table.len()
    }

    /// Number of processes ever registered (dead ones included).
    pub fn total_process_count(&self) -> (r: usize)
        ensures
            r == self.total(),
    {
        self.registered
    }

    /// The ids of all live processes, in increasing order.
    pub fn all_pids(&self) -> (r: Vec<ProcessId>)
        ensures
            r@.len() == self.processes().dom().len(),
            forall|i: int| 0 <= i < r@.len() ==> self.processes().contains_key(#[trigger] r@[i].0),
            forall|k: usize| self.processes().contains_key(k) ==> exists|i: int|
                0 <= i < r@.len() && #[trigger] r@[i].0 == k,
            forall|i: int, j: int| 0 <= i < j < r@.len() ==> r@[i].0 < r@[j].0,
    {
        let mut out: Vec<ProcessId> = Vec::new();
        let ghost rem = self.table.keys().remaining();
        let ghost keys = rem.unref();
        proof {
            vstd::std_specs::btree::axiom_spec_keys_iter(&self.table);
        }
        for k in it: self.table.keys()
            invariant
                keys == it.seq().unref(),
                rem == it.seq(),
                keys.to_set() == self.table@.dom(),
                keys.no_duplicates(),
                keys.len() == self.table@.dom().len(),
                vstd::std_specs::btree::increasing_seq(rem),
                out@.len() == it.index(),
                forall|i: int| 0 <= i < out@.len() ==> #[trigger] out@[i].0 == keys[i],
        {
            out.push(ProcessId(*k));
        }
        proof {
            assert forall|i: int| 0 <= i < out@.len() implies self.processes().contains_key(#[trigger] out@[i].0) by {
                assert(keys.to_set().contains(keys[i]));
            }
            assert forall|k: usize| self.processes().contains_key(k) implies exists|i: int|
                0 <= i < out@.len() && #[trigger] out@[i].0 == k by {
                assert(keys.to_set().contains(k));
                let i = choose|i: int| 0 <= i < keys.len() && keys[i] == k;
                assert(out@[i].0 == k);
            }
            assert(vstd::laws_cmp::obeys_cmp::<usize>());
            assert(vstd::laws_cmp::obeys_cmp::<&usize>());
            assert(vstd::std_specs::btree::increasing_seq(rem));
            assert(out@.len() == rem.len());
            vstd::std_specs::btree::axiom_increasing_seq_meaning(rem);
            assert forall|i: int, j: int| 0 <= i < j < out@.len() implies out@[i].0 < out@[j].0 by {
                assert((&rem[i]).cmp_spec(&&rem[j]) is Less);
            }
        }
        out
    }

    /// The threads of process `pid`; empty when the process is not live.
    pub fn threads_of(&self, pid: ProcessId) -> (r: Vec<TaskId>)
        ensures
            self.processes().contains_key(pid.0) ==> r@ == self.processes()[pid.0].threads@,
            !self.processes().contains_key(pid.0) ==> r@.len() == 0,
    {
        match self.get_process(pid) {
            Some(p) => copy_task_ids(&p.threads),
            None => Vec::new(),
        }
    }
}

} // verus!
