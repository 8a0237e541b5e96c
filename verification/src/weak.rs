//! The observing handle.
//!
//! A [`WeakShared`] refers to an allocation without keeping its value
//! alive: it accounts for one unit of the weak count, which the value's
//! lifetime ignores. Its one way back to ownership is [`WeakShared::upgrade`],
//! which succeeds exactly while at least one owner remains. A handle may
//! also be empty, bound to no allocation at all.

use vstd::prelude::*;

use crate::shared::Shared;
use crate::store::Store;
use crate::store::strong_inc;
use crate::store::weak_dec;
use crate::store::weak_inc;

verus! {

/// A non-owning observer of one allocation, or of none.
pub struct WeakShared<T> {
    pub target: Option<usize>,
    pub marker: core::marker::PhantomData<T>,
}

impl<T> WeakShared<T> {
    /// The handle is bound to an allocation of `store`.
    pub open spec fn in_store(self, store: Store<T>) -> bool {
        self.target is Some && store.contains(self.target->0 as int)
    }

    /// The handle's allocation still holds its value.
    pub open spec fn is_live(self, store: Store<T>) -> bool {
        self.target is Some && store@[self.target->0 as int].is_live()
    }

    /// An observer bound to nothing: it counts towards no allocation, and
    /// upgrading it always reports absence.
    pub fn new() -> (w: WeakShared<T>)
        ensures
            w.target is None,
    {
        WeakShared { target: None, marker: core::marker::PhantomData }
    }

    /// Wraps an existing allocation identifier without touching any
    /// counter: the caller answers for the weak count already accounting
    /// for the new handle, as `downgrade` does.
    pub fn new_from(id: usize) -> (w: WeakShared<T>)
        ensures
            w.target == Some(id),
    {
        WeakShared { target: Some(id), marker: core::marker::PhantomData }
    }

    /// A second observer of the same, possibly dead, allocation: the weak
    /// count goes up by one. Cloning an empty observer stays empty and
    /// touches no store entry.
    pub fn clone(&self, store: &mut Store<T>) -> (w: WeakShared<T>)
        requires
            old(store).wf(),
            self.target is Some ==> self.in_store(*old(store)),
            self.target is Some ==> old(store)@[self.target->0 as int].weak < usize::MAX,
        ensures
            final(store).wf(),
            w.target == self.target,
            self.target is Some ==> final(store)@ == weak_inc(old(store)@, self.target->0 as int),
            self.target is None ==> final(store)@ == old(store)@,
    {
        match self.target {
            Some(id) => {
                let a = &mut store.allocs[id];
                a.weak = a.weak + 1;
                proof {
                    assert(store@ =~= weak_inc(old(store)@, id as int));
                }
                WeakShared { target: Some(id), marker: core::marker::PhantomData }
            },
            None => WeakShared { target: None, marker: core::marker::PhantomData },
        }
    }

    /// Attempts to promote this observer to an owner. It returns a new
    /// owning handle, raising the strong count by one, exactly when at
    /// least one owner still exists at the moment of the call; otherwise it
    /// reports absence and leaves the store untouched. A success now says
    /// nothing about a later call: the strong count may reach zero in
    /// between.
    pub fn upgrade(&self, store: &mut Store<T>) -> (r: Option<Shared<T>>)
        requires
            old(store).wf(),
            self.target is Some ==> self.in_store(*old(store)),
            self.target is Some ==> old(store)@[self.target->0 as int].strong < usize::MAX,
        ensures
            final(store).wf(),
            r is Some <==> self.is_live(*old(store)),
            r is Some ==> r->0.id == self.target->0
                && final(store)@ == strong_inc(old(store)@, self.target->0 as int),
            r is None ==> final(store)@ == old(store)@,
    {
        match self.target {
            Some(id) => {
                if store.allocs[id].strong > 0 {
                    let a = &mut store.allocs[id];
                    a.strong = a.strong + 1;
                    proof {
                        assert(store@ =~= strong_inc(old(store)@, id as int));
                    }
                    Some(Shared::new_from(id))
                } else {
                    None
                }
            },
            None => None,
        }
    }

    /// How many owning handles the allocation has; zero for an empty
    /// observer.
    pub fn strong_count(&self, store: &Store<T>) -> (n: usize)
        requires
            self.target is Some ==> self.in_store(*store),
        ensures
            self.target is Some ==> n == store@[self.target->0 as int].strong,
            self.target is None ==> n == 0,
    {
        match self.target {
            Some(id) => store.allocs[id].strong,
            None => 0,
        }
    }

    /// How many observing handles the allocation has; zero for an empty
    /// observer.
    pub fn weak_count(&self, store: &Store<T>) -> (n: usize)
        requires
            self.target is Some ==> self.in_store(*store),
        ensures
            self.target is Some ==> n == store@[self.target->0 as int].weak,
            self.target is None ==> n == 0,
    {
        match self.target {
            Some(id) => store.allocs[id].weak,
            None => 0,
        }
    }

    /// The identifier of the observed allocation, asked for only while the
    /// value is live: dereferencing a dead or empty observer is a contract
    /// violation, and a caller that cannot rule it out goes through
    /// `upgrade` instead.
    pub fn as_ptr(&self, store: &Store<T>) -> (p: usize)
        requires
            self.in_store(*store),
            self.is_live(*store),
        ensures
            Some(p) == self.target,
    {
        match self.target {
            Some(id) => id,
            None => unreached(),
        }
    }

    /// Gives this observer up: the weak count of its allocation, if any,
    /// goes down by one.
    pub fn release(self, store: &mut Store<T>)
        requires
            old(store).wf(),
            self.target is Some ==> self.in_store(*old(store)),
            self.target is Some ==> old(store)@[self.target->0 as int].weak >= 1,
        ensures
            final(store).wf(),
            self.target is Some ==> final(store)@ == weak_dec(old(store)@, self.target->0 as int),
            self.target is None ==> final(store)@ == old(store)@,
    {
        match self.target {
            Some(id) => {
                let a = &mut store.allocs[id];
                a.weak = a.weak - 1;
                proof {
                    assert(store@ =~= weak_dec(old(store)@, id as int));
                }
            },
            None => (),
        }
    }
}

} // verus!
