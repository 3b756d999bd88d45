use vstd::prelude::*;

use std::collections::BTreeSet;

verus! {

broadcast use vstd::laws_cmp::group_laws_cmp, vstd::std_specs::btree::group_btree_axioms;

#[derive(Debug, Clone, Copy, PartialEq, Eq, Structural)]
pub enum ProcessLifecycleState {
    Created,
    Runnable,
    Running,
    Exited,
}

impl ProcessLifecycleState {
    pub open spec fn code(self) -> u8 {
        match self {
            ProcessLifecycleState::Created => 0,
            ProcessLifecycleState::Runnable => 1,
            ProcessLifecycleState::Running => 2,
            ProcessLifecycleState::Exited => 3,
        }
    }

    pub fn to_u8(self) -> (r: u8)
        ensures
            r == self.code(),
    {
        match self {
            ProcessLifecycleState::Created => 0,
            ProcessLifecycleState::Runnable => 1,
            ProcessLifecycleState::Running => 2,
            ProcessLifecycleState::Exited => 3,
        }
    }

    pub fn from_u8(raw: u8) -> (r: Option<Self>)
        ensures
            r is Some <==> raw <= 3,
            r matches Some(s) ==> s.code() == raw,
    {
        match raw {
            0 => Some(ProcessLifecycleState::Created),
            1 => Some(ProcessLifecycleState::Runnable),
            2 => Some(ProcessLifecycleState::Running),
            3 => Some(ProcessLifecycleState::Exited),
            _ => None,
        }
    }

    /// Decodes a stored state; an unknown code reads as `Created`.
    pub fn from_raw(raw: u8) -> (r: Self)
        ensures
            raw <= 3 ==> r.code() == raw,
            raw > 3 ==> r == ProcessLifecycleState::Created,
    {
        match Self::from_u8(raw) {
            Some(s) => s,
            None => ProcessLifecycleState::Created,
        }
    }
}

/// A mapping of a process: its backend id, its range and how it was made.
#[derive(Debug, Clone, Copy, PartialEq, Eq, Structural)]
pub struct MappingRecord {
    pub map_id: u32,
    pub start: u64,
    pub end: u64,
    pub prot: u32,
    pub flags: u32,
}

/// The constructor and destructor hooks of a loaded image.
#[derive(Debug, Clone, Default)]
pub struct RuntimeLifecycleHooks {
    pub preinit_array: Vec<u64>,
    pub init: Option<u64>,
    pub init_array: Vec<u64>,
    pub deferred_fini: Vec<u64>,
    pub fini_array: Vec<u64>,
    pub fini: Option<u64>,
}

/// The non-zero entries of `s`, in order.
pub open spec fn nonzero(s: Seq<u64>) -> Seq<u64>
    decreases s.len(),
{
    if s.len() == 0 {
        Seq::empty()
    } else if s.last() == 0 {
        nonzero(s.drop_last())
    } else {
        nonzero(s.drop_last()).push(s.last())
    }
}

/// A hook given as an option, when present and non-zero.
pub open spec fn opt_nonzero(o: Option<u64>) -> Seq<u64> {
    match o {
        Some(a) => if a != 0 { seq![a] } else { Seq::empty() },
        None => Seq::empty(),
    }
}

/// `s` with every repeated value dropped after its first occurrence.
pub open spec fn first_occurrences(s: Seq<u64>) -> Seq<u64>
    decreases s.len(),
{
    if s.len() == 0 {
        Seq::empty()
    } else {
        let d = first_occurrences(s.drop_last());
        if d.contains(s.last()) {
            d
        } else {
            d.push(s.last())
        }
    }
}

/// The order in which initialisers run.
pub open spec fn init_order(h: RuntimeLifecycleHooks) -> Seq<u64> {
    nonzero(h.preinit_array@) + opt_nonzero(h.init) + nonzero(h.init_array@)
}

/// Finalisers before deduplication: deferred ones in order, then the
/// finaliser array backwards, then the single `fini` hook.
pub open spec fn fini_candidates(h: RuntimeLifecycleHooks) -> Seq<u64> {
    nonzero(h.deferred_fini@) + nonzero(h.fini_array@.reverse()) + opt_nonzero(h.fini)
}

pub proof fn lemma_push_contains(d: Seq<u64>, y: u64, x: u64)
    ensures
        d.push(y).contains(x) <==> (d.contains(x) || x == y),
{
    if d.contains(x) {
        let i = choose|i: int| 0 <= i < d.len() && d[i] == x;
        assert(d.push(y)[i] == x);
    }
    if x == y {
        assert(d.push(y)[d.len() as int] == y);
    }
    if d.push(y).contains(x) {
        let i = choose|i: int| 0 <= i < d.push(y).len() && d.push(y)[i] == x;
        if i < d.len() {
            assert(d[i] == x);
        }
    }
}

pub proof fn lemma_first_occurrences(s: Seq<u64>)
    ensures
        first_occurrences(s).no_duplicates(),
        forall|x: u64| first_occurrences(s).contains(x) <==> s.contains(x),
    decreases s.len(),
{
    if s.len() > 0 {
        let p = s.drop_last();
        let y = s.last();
        lemma_first_occurrences(p);
        assert(s =~= p.push(y));
        let d = first_occurrences(p);
        assert forall|x: u64| first_occurrences(s).contains(x) <==> s.contains(x) by {
            lemma_push_contains(p, y, x);
            lemma_push_contains(d, y, x);
        }
        if !d.contains(y) {
            assert forall|i: int, j: int| 0 <= i < j < d.push(y).len() implies d.push(y)[i] != d.push(y)[j] by {
                if j == d.len() {
                    assert(d[i] == d.push(y)[i]);
                }
            }
        }
    }
}

/// Appends the non-zero entries of `src` to `out`.
fn push_nonzero(out: &mut Vec<u64>, src: &Vec<u64>)
    ensures
        final(out)@ == old(out)@ + nonzero(src@),
{
    let mut i: usize = 0;
    while i < src.len()
        invariant
            i <= src@.len(),
            out@ == old(out)@ + nonzero(src@.take(i as int)),
        decreases src@.len() - i,
    {
        proof {
            assert(src@.take(i + 1).drop_last() =~= src@.take(i as int));
        }
        if src[i] != 0 {
            out.push(src[i]);
            assert(out@ =~= old(out)@ + nonzero(src@.take(i + 1)));
        }
        i = i + 1;
    }
    assert(src@.take(src@.len() as int) =~= src@);
}

pub proof fn lemma_first_occurrences_push(s: Seq<u64>, x: u64)
    ensures
        first_occurrences(s.push(x)) == (if first_occurrences(s).contains(x) {
            first_occurrences(s)
        } else {
            first_occurrences(s).push(x)
        }),
{
    assert(s.push(x).drop_last() =~= s);
}

impl RuntimeLifecycleHooks {
    /// The non-zero initialisers in the order they run: the pre-init array,
    /// the `init` hook, then the init array.
    pub fn ordered_init_calls(&self) -> (r: Vec<u64>)
        ensures
            r@ == init_order(*self),
    {
        let mut ordered: Vec<u64> = Vec::new();
        push_nonzero(&mut ordered, &self.preinit_array);
        if let Some(init) = self.init {
            if init != 0 {
                ordered.push(init);
            }
        }
        push_nonzero(&mut ordered, &self.init_array);
        assert(ordered@ =~= init_order(*self));
        ordered
    }

    /// The finalisers in the order they run, each address once: deferred
    /// finalisers, then the finaliser array in reverse, then `fini`.
    pub fn ordered_fini_calls(&self) -> (r: Vec<u64>)
        ensures
            r@ == first_occurrences(fini_candidates(*self)),
            r@.no_duplicates(),
            forall|a: u64| r@.contains(a) <==> fini_candidates(*self).contains(a),
    {
        let mut candidates: Vec<u64> = Vec::new();
        push_nonzero(&mut candidates, &self.deferred_fini);
        let mut rev: Vec<u64> = Vec::new();
        let mut j: usize = self.fini_array.len();
        while j > 0
            invariant
                j <= self.fini_array@.len(),
                rev@ == self.fini_array@.subrange(j as int, self.fini_array@.len() as int).reverse(),
            decreases j,
        {
            j = j - 1;
            rev.push(self.fini_array[j]);
            assert(rev@ =~= self.fini_array@.subrange(j as int, self.fini_array@.len() as int).reverse());
        }
        assert(self.fini_array@.subrange(0, self.fini_array@.len() as int) =~= self.fini_array@);
        push_nonzero(&mut candidates, &rev);
        if let Some(fini) = self.fini {
            if fini != 0 {
                candidates.push(fini);
            }
        }
        assert(candidates@ =~= fini_candidates(*self));

        let mut seen: BTreeSet<u64> = BTreeSet::new();
        let mut ordered: Vec<u64> = Vec::new();
        let mut i: usize = 0;
        while i < candidates.len()
            invariant
                i <= candidates@.len(),
                ordered@ == first_occurrences(candidates@.take(i as int)),
                forall|x: u64| #[trigger] seen@.contains(x) <==> ordered@.contains(x),
            decreases candidates@.len() - i,
        {
            proof {
                assert(candidates@.take(i + 1) =~= candidates@.take(i as int).push(candidates@[i as int]));
                lemma_first_occurrences_push(candidates@.take(i as int), candidates@[i as int]);
            }
            let x = candidates[i];
            let ghost before = ordered@;
            if seen.insert(x) {
                ordered.push(x);
                proof {
                    assert forall|y: u64| #[trigger] seen@.contains(y) <==> ordered@.contains(y) by {
                        lemma_push_contains(before, x, y);
                    }
                }
            }
            i = i + 1;
        }
        assert(candidates@.take(candidates@.len() as int) =~= candidates@);
        proof {
            lemma_first_occurrences(candidates@);
        }
        ordered
    }
}

#[derive(Debug, Clone, PartialEq, Eq)]
pub struct ProcessRuntimeContractSnapshot {
    pub image_entry: usize,
    pub runtime_entry: usize,
    pub runtime_fini_entry: usize,
    pub image_base: usize,
    pub phdr_addr: usize,
    pub vdso_base: usize,
    pub vvar_base: usize,
    pub exec_path: String,
    pub init_calls: Vec<u64>,
    pub fini_calls: Vec<u64>,
}

} // verus!
