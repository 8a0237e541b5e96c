//! The registry of reference-counted allocations.
//!
//! An [`Allocation`] holds one value together with the two counters that
//! govern its lifetime: the strong count (owning handles) and the weak
//! count (observing handles). A [`Store`] holds every allocation ever made
//! through it; entries are never removed, so the index of an allocation is
//! a stable identifier. A fully reclaimed allocation merely has no value
//! and both counters at zero.

use vstd::prelude::*;

verus! {

/// The mathematical model of one allocation: the stored value, if it is
/// still alive, and the two reference counters.
pub struct AllocModel<T> {
    pub value: Option<T>,
    pub strong: nat,
    pub weak: nat,
}

impl<T> AllocModel<T> {
    /// The value is present exactly while at least one owning handle exists.
    pub open spec fn inv(self) -> bool {
        self.value is Some <==> self.strong > 0
    }

    /// An allocation is live while it has at least one owner.
    pub open spec fn is_live(self) -> bool {
        self.strong > 0
    }
}

/// One reference-counted allocation: the value and its counters.
pub struct Allocation<T> {
    pub value: Option<T>,
    pub strong: usize,
    pub weak: usize,
}

impl<T> View for Allocation<T> {
    type V = AllocModel<T>;

    open spec fn view(&self) -> AllocModel<T> {
        AllocModel { value: self.value, strong: self.strong as nat, weak: self.weak as nat }
    }
}

/// The registry that owns every allocation. Handles refer to an allocation
/// by its index in `allocs`.
pub struct Store<T> {
    pub allocs: Vec<Allocation<T>>,
}

impl<T> View for Store<T> {
    type V = Seq<AllocModel<T>>;

    open spec fn view(&self) -> Seq<AllocModel<T>> {
        self.allocs@.map_values(|a: Allocation<T>| a@)
    }
}

/// Every allocation of the sequence satisfies its own invariant.
pub open spec fn wf_allocs<T>(s: Seq<AllocModel<T>>) -> bool {
    forall|i: int| 0 <= i < s.len() ==> (#[trigger] s[i]).inv()
}

/// The model of appending a fresh allocation holding `v`: one owner, no
/// observers.
pub open spec fn alloc_new<T>(s: Seq<AllocModel<T>>, v: T) -> Seq<AllocModel<T>> {
    s.push(AllocModel { value: Some(v), strong: 1, weak: 0 })
}

/// The model of gaining one owning handle of allocation `id`.
pub open spec fn strong_inc<T>(s: Seq<AllocModel<T>>, id: int) -> Seq<AllocModel<T>> {
    s.update(id, AllocModel { value: s[id].value, strong: s[id].strong + 1, weak: s[id].weak })
}

/// The model of gaining one observing handle of allocation `id`.
pub open spec fn weak_inc<T>(s: Seq<AllocModel<T>>, id: int) -> Seq<AllocModel<T>> {
    s.update(id, AllocModel { value: s[id].value, strong: s[id].strong, weak: s[id].weak + 1 })
}

/// The model of losing one owning handle of allocation `id`: when the last
/// owner goes, the value is destroyed.
pub open spec fn strong_dec<T>(s: Seq<AllocModel<T>>, id: int) -> Seq<AllocModel<T>> {
    if s[id].strong <= 1 {
        s.update(id, AllocModel { value: None, strong: 0, weak: s[id].weak })
    } else {
        s.update(
            id,
            AllocModel {
                value: s[id].value,
                strong: (s[id].strong - 1) as nat,
                weak: s[id].weak,
            },
        )
    }
}

/// The model of losing one observing handle of allocation `id`.
pub open spec fn weak_dec<T>(s: Seq<AllocModel<T>>, id: int) -> Seq<AllocModel<T>> {
    s.update(
        id,
        AllocModel { value: s[id].value, strong: s[id].strong, weak: (s[id].weak - 1) as nat },
    )
}

/// The model of overwriting the live value of allocation `id` with `v`.
pub open spec fn value_set<T>(s: Seq<AllocModel<T>>, id: int, v: T) -> Seq<AllocModel<T>> {
    s.update(id, AllocModel { value: Some(v), strong: s[id].strong, weak: s[id].weak })
}

impl<T> Store<T> {
    /// Every allocation of the store satisfies its invariant.
    pub open spec fn wf(self) -> bool {
        wf_allocs(self@)
    }

    /// `id` names an allocation of this store.
    pub open spec fn contains(self, id: int) -> bool {
        0 <= id < self@.len()
    }

    /// A store with no allocations yet.
    pub fn new() -> (s: Store<T>)
        ensures
            s.wf(),
            s@.len() == 0,
    {
        Store { allocs: Vec::new() }
    }

    /// How many allocations this store has made. Identifiers handed out by
    /// it are always below this bound.
    pub fn len(&self) -> (n: usize)
        ensures
            n == self@.len(),
    {
        self.allocs.len()
    }
}

} // verus!
