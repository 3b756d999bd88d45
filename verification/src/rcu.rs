use vstd::prelude::*;

use std::sync::Arc;

verus! {

/// `Arc::clone`: another handle to the same allocation, so it holds the
/// same value, as std documents it.
#[verifier::external_body]
fn share<T>(a: &Arc<T>) -> (r: Arc<T>)
    ensures
        r == *a,
{
    Arc::clone(a)
}

/// Read-copy-update cell: readers are counted, and a writer swaps in a new
/// value and receives the old one, which it may only free once no reader
/// that could have seen it remains.
pub struct Rcu<T> {
    data: Arc<T>,
    readers: usize,
}

impl<T> Rcu<T> {
    pub closed spec fn current(&self) -> T {
        *self.data
    }

    pub closed spec fn reader_count(&self) -> usize {
        self.readers
    }

    pub fn new(data: T) -> (r: Self)
        ensures
            r.current() == data,
            r.reader_count() == 0,
    {
        Rcu { data: Arc::new(data), readers: 0 }
    }

    /// How many read sections are open.
    pub fn active_readers(&self) -> (r: usize)
        ensures
            r == self.reader_count(),
    {
        self.readers
    }

    /// Opens a read section: the guard sees the current value for as long
    /// as it lives, whatever updates follow.
    pub fn read(&mut self) -> (g: RcuGuard<T>)
        ensures
            g.value() == old(self).current(),
            final(self).current() == old(self).current(),
            final(self).reader_count() == (if old(self).reader_count() == usize::MAX { 0 } else {
                old(self).reader_count() + 1
            }),
    {
        self.readers = self.readers.wrapping_add(1);
        RcuGuard { data: share(&self.data) }
    }

    /// The value readers currently see.
    pub fn get(&self) -> (r: &T)
        ensures
            *r == self.current(),
    {
        &*self.data
    }

    /// Closes a read section of this cell (what dropping the guard does);
    /// an open section means at least one reader is counted.
    pub fn release(&mut self, guard: RcuGuard<T>)
        requires
            old(self).reader_count() > 0,
        ensures
            final(self).current() == old(self).current(),
            final(self).reader_count() == old(self).reader_count() - 1,
    {
        let _ = guard;
        self.readers = self.readers - 1;
    }

    /// Publishes `new_data` and hands back the value it replaces.
    pub fn update(&mut self, new_data: T) -> (old_data: Arc<T>)
        ensures
            final(self).current() == new_data,
            final(self).reader_count() == old(self).reader_count(),
            *old_data == old(self).current(),
    {
        let mut v = Arc::new(new_data);
        core::mem::swap(&mut v, &mut self.data);
        v
    }
}

/// An open read section, holding the value it read.
pub struct RcuGuard<T> {
    data: Arc<T>,
}

impl<T> RcuGuard<T> {
    /// The value the section read.
    pub closed spec fn value(&self) -> T {
        *self.data
    }

    /// The value the section read (what dereferencing the guard gives).
    pub fn get(&self) -> (r: &T)
        ensures
            *r == self.value(),
    {
        &*self.data
    }
}

} // verus!
