//! The owning handle.
//!
//! A [`Shared`] grants shared ownership of one allocation of a [`Store`]:
//! each owning handle accounts for one unit of the allocation's strong
//! count, and the contained value stays alive exactly while that count is
//! positive. Read access borrows the store, exclusive write access borrows
//! it mutably, so conflicting access is rejected by the borrow checker.

use vstd::prelude::*;

use crate::store::Allocation;
use crate::store::Store;
use crate::store::alloc_new;
use crate::store::strong_dec;
use crate::store::strong_inc;
use crate::store::value_set;
use crate::store::weak_inc;
use crate::weak::WeakShared;

verus! {

/// An owning handle of one allocation. It carries no state of its own
/// beyond the identifier of the allocation it owns a share of.
pub struct Shared<T> {
    pub id: usize,
    pub marker: core::marker::PhantomData<T>,
}

impl<T> Shared<T> {
    /// The handle names an allocation of `store`.
    pub open spec fn in_store(self, store: Store<T>) -> bool {
        store.contains(self.id as int)
    }

    /// The handle's allocation still holds its value. An owning handle only
    /// exists while its allocation is live; callers state this through the
    /// `requires` of the operations below.
    pub open spec fn is_live(self, store: Store<T>) -> bool {
        store@[self.id as int].is_live()
    }

    /// Makes a fresh allocation holding `t`, owned by the returned handle
    /// alone: strong count one, weak count zero.
    pub fn new(store: &mut Store<T>, t: T) -> (s: Shared<T>)
        requires
            old(store).wf(),
        ensures
            final(store).wf(),
            final(store)@ == alloc_new(old(store)@, t),
            s.id == old(store)@.len(),
            s.is_live(*final(store)),
    {
        let id = store.allocs.len();
        store.allocs.push(Allocation { value: Some(t), strong: 1, weak: 0 });
        proof {
            assert(store@ =~= alloc_new(old(store)@, t));
        }
        Shared { id, marker: core::marker::PhantomData }
    }

    /// Wraps an existing allocation identifier without touching any
    /// counter: the caller answers for the strong count already accounting
    /// for the new handle, as `upgrade` does.
    pub fn new_from(id: usize) -> (s: Shared<T>)
        ensures
            s.id == id,
    {
        Shared { id, marker: core::marker::PhantomData }
    }

    /// Reads the contained value through a shared borrow of the store.
    pub fn borrow<'a>(&self, store: &'a Store<T>) -> (r: &'a T)
        requires
            store.wf(),
            self.in_store(*store),
            self.is_live(*store),
        ensures
            Some(*r) == store@[self.id as int].value,
    {
        store.allocs[self.id].value.as_ref().unwrap()
    }

    /// Grants exclusive, mutable access to the contained value. The borrow
    /// checker keeps any other access to the store out while the returned
    /// reference lives, so a conflicting acquisition cannot arise.
    pub fn borrow_mut<'a>(&self, store: &'a mut Store<T>) -> (r: &'a mut T)
        requires
            old(store).wf(),
            self.in_store(*old(store)),
            self.is_live(*old(store)),
        ensures
            Some(*r) == old(store)@[self.id as int].value,
            final(store)@ == value_set(old(store)@, self.id as int, *final(r)),
            final(store).wf(),
    {
        let a = &mut store.allocs[self.id];
        match &mut a.value {
            Some(v) => v,
            None => unreached(),
        }
    }

    /// The identifier of the handle's allocation, for identity comparison:
    /// two handles with the same identifier own shares of the same value.
    pub fn as_ptr(&self) -> (p: usize)
        ensures
            p == self.id,
    {
        self.id
    }

    /// A second owning handle of the same allocation: the strong count goes
    /// up by one, observed equally through this handle and the new one.
    pub fn clone(&self, store: &mut Store<T>) -> (c: Shared<T>)
        requires
            old(store).wf(),
            self.in_store(*old(store)),
            self.is_live(*old(store)),
            old(store)@[self.id as int].strong < usize::MAX,
        ensures
            final(store).wf(),
            final(store)@ == strong_inc(old(store)@, self.id as int),
            c.id == self.id,
            final(store)@[self.id as int].strong == old(store)@[self.id as int].strong + 1,
    {
        let a = &mut store.allocs[self.id];
        a.strong = a.strong + 1;
        proof {
            assert(store@ =~= strong_inc(old(store)@, self.id as int));
        }
        Shared { id: self.id, marker: core::marker::PhantomData }
    }

    /// A non-owning observer of the same allocation: the weak count goes up
    /// by one, whatever the strong count is.
    pub fn downgrade(&self, store: &mut Store<T>) -> (w: WeakShared<T>)
        requires
            old(store).wf(),
            self.in_store(*old(store)),
            old(store)@[self.id as int].weak < usize::MAX,
        ensures
            final(store).wf(),
            final(store)@ == weak_inc(old(store)@, self.id as int),
            w.target == Some(self.id),
            final(store)@[self.id as int].weak == old(store)@[self.id as int].weak + 1,
    {
        let a = &mut store.allocs[self.id];
        a.weak = a.weak + 1;
        proof {
            assert(store@ =~= weak_inc(old(store)@, self.id as int));
        }
        WeakShared::new_from(self.id)
    }

    /// How many owning handles the allocation has.
    pub fn strong_count(&self, store: &Store<T>) -> (n: usize)
        requires
            self.in_store(*store),
        ensures
            n == store@[self.id as int].strong,
    {
        store.allocs[self.id].strong
    }

    /// How many observing handles the allocation has.
    pub fn weak_count(&self, store: &Store<T>) -> (n: usize)
        requires
            self.in_store(*store),
        ensures
            n == store@[self.id as int].weak,
    {
        store.allocs[self.id].weak
    }

    /// Gives this owning handle up: the strong count goes down by one, and
    /// the value is destroyed when the last owner goes.
    pub fn release(self, store: &mut Store<T>)
        requires
            old(store).wf(),
            self.in_store(*old(store)),
            self.is_live(*old(store)),
        ensures
            final(store).wf(),
            final(store)@ == strong_dec(old(store)@, self.id as int),
    {
        let a = &mut store.allocs[self.id];
        if a.strong == 1 {
            a.strong = 0;
            a.value = None;
        } else {
            a.strong = a.strong - 1;
        }
        proof {
            assert(store@ =~= strong_dec(old(store)@, self.id as int));
        }
    }
}

} // verus!
