//! Shared, mutable, reference-counted ownership of a value, with a
//! non-owning observer handle that can be promoted back to an owner only
//! while the value is still alive.
//!
//! All allocations live in an explicit [`store::Store`]: every owning or
//! observing handle names its allocation by a stable identifier into that
//! store, and every operation that touches the shared counters takes the
//! store as an argument. Exclusive access to a contained value is a plain
//! mutable borrow of the store, so the "one writer or many readers"
//! discipline is enforced by the borrow checker instead of a runtime flag.

pub mod laws;
pub mod shared;
pub mod store;
pub mod weak;

pub use shared::Shared;
pub use store::AllocModel;
pub use store::Allocation;
pub use store::Store;
pub use weak::WeakShared;
