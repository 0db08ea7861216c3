//! Capability contracts gated on the lock state of the chunk store.
//!
//! Each trait is implemented only for transactions whose chunks kind is
//! strong enough, so calling an operation without the needed lock fails to
//! compile. The operations themselves are type-level markers with empty
//! bodies: the real read, write and delete are an external collaborator's
//! job. Each trait also carries a proof obligation stating the availability
//! rule itself, so every implementor demonstrably holds the needed lock.

use crate::state::LockView;
use crate::state::permits_delete;
use crate::state::permits_read;
use crate::state::permits_write;
use vstd::prelude::*;

verus! {

/// Reading a chunk: available whenever some lock is held on the chunk store,
/// shared or exclusive.
pub trait ReadChunk: LockView {
    /// Law: every transaction exposing `read` holds some lock on the chunk
    /// store.
    proof fn chunks_lock_held(&self)
        ensures
            permits_read(self.lock_view()),
    ;

    fn read(&self);
}

/// Writing a chunk: available under the same rule as reading, any held lock
/// on the chunk store suffices. Excluding concurrent writers under a shared
/// lock is an external concern, not modeled here.
pub trait WriteChunk: LockView {
    /// Law: every transaction exposing `write` holds some lock on the chunk
    /// store.
    proof fn chunks_lock_held(&self)
        ensures
            permits_write(self.lock_view()),
    ;

    fn write(&self);
}

/// Deleting a chunk: available only under an exclusive lock on the chunk
/// store; a shared lock is not enough.
pub trait DeleteChunk: LockView {
    /// Law: every transaction exposing `delete` holds an exclusive lock on
    /// the chunk store.
    proof fn chunks_lock_exclusive(&self)
        ensures
            permits_delete(self.lock_view()),
    ;

    fn delete(&self);
}

} // verus!
