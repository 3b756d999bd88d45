use vstd::prelude::*;

use std::collections::VecDeque;

use crate::task::TaskId;

verus! {

/// A lock that masks interrupts while held.  Holding the lock is explicit
/// (`lock`/`unlock`) instead of being tied to a guard's lifetime, and the
/// interrupt flags are values: the caller saves them before locking (the
/// guard keeps them) and restores what `unlock` hands back.
pub struct IrqSafeMutex<T> {
    locked: bool,
    data: T,
}

/// One attempt of a spinning `lock`.
pub enum LockStep {
    /// The lock was free and is now held.
    Acquired(IrqSafeMutexGuard),
    /// The lock is held elsewhere: try again with this spin count.
    Spin(usize),
    /// The lock stayed held for the whole spin limit: restore these saved
    /// interrupt flags and stop (a probable deadlock).
    Deadlock(usize),
}

impl<T> IrqSafeMutex<T> {
    pub closed spec fn is_locked(&self) -> bool {
        self.locked
    }

    pub closed spec fn value(&self) -> T {
        self.data
    }

    pub fn new(data: T) -> (m: Self)
        ensures
            !m.is_locked(),
            m.value() == data,
    {
        IrqSafeMutex { locked: false, data }
    }

    /// Takes a free lock, keeping the interrupt flags `saved_flags` saved
    /// before it in the guard.  A held lock is taken by spinning with
    /// `lock_step` instead.
    pub fn lock(&mut self, saved_flags: usize) -> (g: IrqSafeMutexGuard)
        requires
            !old(self).is_locked(),
        ensures
            final(self).is_locked(),
            final(self).value() == old(self).value(),
            g.saved_flags() == saved_flags,
    {
        self.locked = true;
        IrqSafeMutexGuard { saved_flags }
    }

    /// One attempt of `lock` after `spin_count` failed ones, with at most
    /// `spin_limit` failures allowed: a free lock is taken (the guard keeps
    /// `saved_flags`); a held one leaves everything as it is and either
    /// asks for another attempt or, at the limit, reports a deadlock with
    /// the flags to restore.
    pub fn lock_step(&mut self, spin_count: usize, spin_limit: usize, saved_flags: usize) -> (r: LockStep)
        ensures
            final(self).value() == old(self).value(),
            final(self).is_locked(),
            !old(self).is_locked() ==> (r matches LockStep::Acquired(g) && g.saved_flags() == saved_flags),
            old(self).is_locked() && spin_count + 1 < spin_limit ==> r == LockStep::Spin(
                (spin_count + 1) as usize,
            ),
            old(self).is_locked() && spin_count + 1 >= spin_limit ==> r == LockStep::Deadlock(saved_flags),
    {
        if !self.locked {
            self.locked = true;
            return LockStep::Acquired(IrqSafeMutexGuard { saved_flags });
        }
        if spin_count >= spin_limit || spin_limit - spin_count <= 1 {
            LockStep::Deadlock(saved_flags)
        } else {
            LockStep::Spin(spin_count + 1)
        }
    }

    /// Takes the lock if it is free, the guard keeping `saved_flags`;
    /// `None` when it is already held, in which case nothing changes and
    /// the caller restores the flags it saved.
    pub fn try_lock(&mut self, saved_flags: usize) -> (g: Option<IrqSafeMutexGuard>)
        ensures
            g is Some <==> !old(self).is_locked(),
            g matches Some(guard) ==> guard.saved_flags() == saved_flags,
            final(self).is_locked(),
            final(self).value() == old(self).value(),
    {
        if self.locked {
            None
        } else {
            self.locked = true;
            Some(IrqSafeMutexGuard { saved_flags })
        }
    }

    /// Releases the lock (what dropping the guard does) and hands back the
    /// interrupt flags to restore: those saved before locking.
    pub fn unlock(&mut self, guard: IrqSafeMutexGuard) -> (flags: usize)
        ensures
            !final(self).is_locked(),
            final(self).value() == old(self).value(),
            flags == guard.saved_flags(),
    {
        self.locked = false;
        guard.saved_flags
    }

    /// Whether the lock is held.
    pub fn locked(&self) -> (r: bool)
        ensures
            r == self.is_locked(),
    {
        self.locked
    }

    /// The protected value.
    pub fn get(&self) -> (r: &T)
        ensures
            *r == self.value(),
    {
        &self.data
    }

    /// Replaces the protected value while the lock is held.
    pub fn set(&mut self, data: T)
        requires
            old(self).is_locked(),
        ensures
            final(self).is_locked(),
            final(self).value() == data,
    {
        self.data = data;
    }
}

/// Stands for a held `IrqSafeMutex`; it keeps the interrupt flags saved
/// before locking, and handing it back to `unlock` releases the lock.
pub struct IrqSafeMutexGuard {
    saved_flags: usize,
}

impl IrqSafeMutexGuard {
    /// The interrupt flags saved before the lock was taken.
    pub closed spec fn saved_flags(&self) -> usize {
        self.saved_flags
    }
}

/// The position of the first `tid` in `s`, if any.
pub open spec fn first_index_of(s: Seq<TaskId>, tid: TaskId) -> int
    decreases s.len(),
{
    if s.len() == 0 {
        -1
    } else if first_index_of(s.drop_last(), tid) >= 0 {
        first_index_of(s.drop_last(), tid)
    } else if s.last() == tid {
        s.len() - 1
    } else {
        -1
    }
}

pub proof fn lemma_first_index_of(s: Seq<TaskId>, tid: TaskId)
    ensures
        -1 <= first_index_of(s, tid) < s.len(),
        first_index_of(s, tid) >= 0 ==> s[first_index_of(s, tid)] == tid,
        first_index_of(s, tid) >= 0 ==> forall|k: int| 0 <= k < first_index_of(s, tid) ==> s[k] != tid,
        first_index_of(s, tid) < 0 ==> forall|k: int| 0 <= k < s.len() ==> s[k] != tid,
    decreases s.len(),
{
    if s.len() > 0 {
        let p = s.drop_last();
        lemma_first_index_of(p, tid);
        assert forall|k: int| 0 <= k < p.len() implies p[k] == s[k] by {}
    }
}

/// Tasks waiting for an event, woken in the order they blocked.
pub struct WaitQueue {
    waiters: VecDeque<TaskId>,
}

impl WaitQueue {
    /// The waiting tasks, oldest first.
    pub closed spec fn waiting(&self) -> Seq<TaskId> {
        self.waiters@
    }

    pub fn new() -> (q: Self)
        ensures
            q.waiting() == Seq::<TaskId>::empty(),
    {
        WaitQueue { waiters: VecDeque::new() }
    }

    /// Queues `tid` behind the tasks already waiting.
    pub fn block_id(&mut self, tid: TaskId)
        ensures
            final(self).waiting() == old(self).waiting().push(tid),
    {
        self.waiters.push_back(tid);
    }

    /// Dequeues the oldest waiter.
    pub fn wake_one(&mut self) -> (r: Option<TaskId>)
        ensures
            old(self).waiting().len() == 0 ==> r is None && final(self).waiting() == old(self).waiting(),
            old(self).waiting().len() > 0 ==> r == Some(old(self).waiting()[0])
                && final(self).waiting() == old(self).waiting().drop_first(),
    {
        let r = self.waiters.pop_front();
        proof {
            if old(self).waiting().len() > 0 {
                assert(self.waiters@ =~= old(self).waiting().drop_first());
            }
        }
        r
    }

    /// Dequeues every waiter, oldest first.
    pub fn wake_all(&mut self) -> (r: Vec<TaskId>)
        ensures
            r@ == old(self).waiting(),
            final(self).waiting() == Seq::<TaskId>::empty(),
    {
        let mut out: Vec<TaskId> = Vec::new();
        let ghost all = self.waiters@;
        loop
            invariant
                all == old(self).waiting(),
                out@ + self.waiters@ == all,
            ensures
                out@ == all,
                self.waiters@.len() == 0,
            decreases self.waiters@.len(),
        {
            match self.waiters.pop_front() {
                Some(tid) => {
                    out.push(tid);
                    assert(out@ + self.waiters@ =~= all);
                },
                None => {
                    assert(out@ =~= all);
                    break;
                },
            }
        }
        out
    }

    pub fn len(&self) -> (r: usize)
        ensures
            r == self.waiting().len(),
    {
        self.waiters.len()
    }

    pub fn is_empty(&self) -> (r: bool)
        ensures
            r == (self.waiting().len() == 0),
    {
        self.waiters.len() == 0
    }

    /// Removes the first waiting occurrence of `tid` (blocking undone).
    pub fn unblock_id(&mut self, tid: TaskId)
        ensures
            first_index_of(old(self).waiting(), tid) >= 0 ==> final(self).waiting()
                == old(self).waiting().remove(first_index_of(old(self).waiting(), tid)),
            first_index_of(old(self).waiting(), tid) < 0 ==> final(self).waiting() == old(self).waiting(),
    {
        proof {
            lemma_first_index_of(self.waiters@, tid);
        }
        let n = self.waiters.len();
        let mut i: usize = 0;
        while i < n
            invariant
                n == self.waiters@.len(),
                self.waiters@ == old(self).waiting(),
                i <= n,
                forall|k: int| 0 <= k < i ==> self.waiters@[k] != tid,
            decreases n - i,
        {
            if self.waiters[i] == tid {
                proof {
                    lemma_first_index_of(self.waiters@, tid);
                }
                assert(first_index_of(self.waiters@, tid) == i as int);
                let _ = self.waiters.remove(i);
                return;
            }
            i = i + 1;
        }
        proof {
            lemma_first_index_of(self.waiters@, tid);
        }
    }
}

} // verus!
