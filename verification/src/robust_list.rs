use vstd::prelude::*;

use std::collections::BTreeMap;

verus! {

broadcast use vstd::std_specs::btree::group_btree_axioms;

/// The robust futex list each thread registered: thread id to the list
/// head's address and the length the thread gave for it.
pub struct RobustListTable {
    lists: BTreeMap<usize, (usize, usize)>,
}

impl RobustListTable {
    /// The registered lists, by thread id.
    pub closed spec fn lists(&self) -> Map<usize, (usize, usize)> {
        self.lists@
    }

    pub fn new() -> (t: Self)
        ensures
            t.lists() == Map::<usize, (usize, usize)>::empty(),
    {
        RobustListTable { lists: BTreeMap::new() }
    }

    /// Forgets the list of thread `tid`.
    pub fn clear_robust_list_for_tid(&mut self, tid: usize)
        ensures
            final(self).lists() == old(self).lists().remove(tid),
    {
        let _ = self.lists.remove(&tid);
    }

    /// Records `(head, len)` as the list of thread `tid`, replacing any
    /// earlier one.
    pub fn set_robust_list_for_tid(&mut self, tid: usize, head: usize, len: usize)
        ensures
            final(self).lists() == old(self).lists().insert(tid, (head, len)),
    {
        let _ = self.lists.insert(tid, (head, len));
    }

    /// The list of thread `tid`, if it registered one.
    pub fn robust_list_for_tid(&self, tid: usize) -> (r: Option<(usize, usize)>)
        ensures
            r is Some <==> self.lists().contains_key(tid),
            r matches Some(v) ==> v == self.lists()[tid],
    {
        match self.lists.get(&tid) {
            Some(v) => Some(*v),
            None => None,
        }
    }
}

} // verus!
