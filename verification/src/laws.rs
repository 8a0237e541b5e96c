//! The laws of the reference-counting discipline, stated over the
//! mathematical model and proved once and for all. Each law speaks of the
//! same model transitions that the operations' own contracts use, so it
//! applies to any sequence of calls.

use vstd::prelude::*;

use crate::shared::Shared;
use crate::store::AllocModel;
use crate::store::Store;
use crate::store::alloc_new;
use crate::store::strong_inc;
use crate::store::value_set;
use crate::store::weak_inc;

verus! {

/// Constructing an owning handle from any value yields an allocation whose
/// strong count is one, whose weak count is zero, and which holds that very
/// value.
pub proof fn law_new_counts<T>(s: Seq<AllocModel<T>>, v: T)
    ensures
        alloc_new(s, v)[s.len() as int].strong == 1,
        alloc_new(s, v)[s.len() as int].weak == 0,
        alloc_new(s, v)[s.len() as int].value == Some(v),
{
}

/// Cloning an owning handle raises the strong count by exactly one, and the
/// original and the clone observe that same counter: they read equal counts.
pub proof fn law_clone_strong_count<T>(pre: Store<T>, post: Store<T>, s: Shared<T>, c: Shared<T>)
    requires
        s.in_store(pre),
        c.id == s.id,
        post@ == strong_inc(pre@, s.id as int),
    ensures
        post@[s.id as int].strong == pre@[s.id as int].strong + 1,
        post@[c.id as int].strong == post@[s.id as int].strong,
{
}

/// Downgrading an owning handle and then cloning the observer leaves two
/// observers of one allocation: starting from no observer, the shared weak
/// count reads two, and the strong count is untouched.
pub proof fn law_downgrade_clone_weak_count<T>(s: Seq<AllocModel<T>>, id: int)
    requires
        0 <= id < s.len(),
        s[id].weak == 0,
    ensures
        weak_inc(weak_inc(s, id), id)[id].weak == 2,
        weak_inc(weak_inc(s, id), id)[id].strong == s[id].strong,
{
}

/// Upgrading an observer of a still-live allocation raises the strong count
/// by exactly one and leaves the value in place. That the upgrade returns a
/// handle at all exactly while the allocation is live is part of the
/// contract of `WeakShared::upgrade` itself.
pub proof fn law_upgrade_strong_count<T>(s: Seq<AllocModel<T>>, id: int)
    requires
        0 <= id < s.len(),
        s[id].strong > 0,
    ensures
        strong_inc(s, id)[id].strong == s[id].strong + 1,
        strong_inc(s, id)[id].value == s[id].value,
{
}

/// Writing a value through one owning handle is observed through every
/// other handle of the same allocation: whatever handle reads afterwards
/// sees the new value.
pub proof fn law_write_visible<T>(pre: Store<T>, post: Store<T>, a: Shared<T>, b: Shared<T>, v: T)
    requires
        a.in_store(pre),
        b.id == a.id,
        post@ == value_set(pre@, a.id as int, v),
    ensures
        post@[b.id as int].value == Some(v),
{
}

/// Constructing an owning handle, downgrading it, and upgrading the
/// observer is a round trip: the upgrade is owed a handle (the allocation
/// is still live when it is asked), and reading afterwards yields the very
/// value first stored.
pub proof fn law_round_trip<T>(s: Seq<AllocModel<T>>, v: T)
    ensures
        ({
            let id = s.len() as int;
            let after_new = alloc_new(s, v);
            let after_down = weak_inc(after_new, id);
            let after_up = strong_inc(after_down, id);
            after_down[id].is_live() && after_up[id].value == Some(v)
        }),
{
}

} // verus!
