//! Compile-time capability gating for a two-resource transaction.
//!
//! A transaction guards two independently lockable resources, a chunk store
//! and an index. The kind of lock held on each is tracked in the type of the
//! transaction, so an operation that needs a stronger lock than the
//! transaction holds is rejected when the program is compiled, not at run
//! time. No real locking or I/O happens here: acquiring the locks and doing
//! the reads, writes and deletes is an external collaborator's job.

mod capability;
mod kind;
mod scope;
mod state;

pub use capability::DeleteChunk;
pub use capability::ReadChunk;
pub use capability::WriteChunk;
pub use kind::AnyKind;
pub use kind::Exclusive;
pub use kind::Kind;
pub use kind::NoLock;
pub use kind::Shared;
pub use scope::Chunks;
pub use scope::Index;
pub use scope::Scope;
pub use state::KindView;
pub use state::LockStateView;
pub use state::LockView;
pub use state::ScopeView;
pub use state::is_any_kind;
pub use state::lemma_transition_independent;
pub use state::lemma_transitions_commute;
pub use state::permits_delete;
pub use state::permits_read;
pub use state::permits_write;
pub use state::transition;

use core::marker::PhantomData;
use vstd::prelude::*;

verus! {

/// The lock state a transaction carries: one kind marker per scope, tracked
/// purely in the type. Values of this type are zero-sized.
pub struct LockState<C, I> {
    pub chunks: PhantomData<C>,
    pub index: PhantomData<I>,
}

/// The unit of capability: a transaction holding one kind of lock on the
/// chunk store and one on the index, both recorded in its type. A transition
/// consumes the transaction and yields a new one with one scope's kind
/// replaced; the capability traits are implemented only for the lock states
/// they allow.
pub struct Transaction<C, I> {
    pub locks: LockState<C, I>,
}

impl<C: Kind, I: Kind> LockView for Transaction<C, I> {
    open spec fn lock_view(&self) -> LockStateView {
        LockStateView { chunks: C::kind(), index: I::kind() }
    }
}

/// A lock transition on scope `S`, setting its kind to `K`. The transaction
/// is consumed and a new one comes back whose state has the `S` field
/// replaced by `K` and the other field unchanged.
pub trait Lock<S: Scope, K: Kind>: LockView + Sized {
    /// The transaction type after the transition.
    type Output: LockView;

    fn locka(self) -> (r: Self::Output)
        ensures
            r.lock_view() == transition(self.lock_view(), S::scope(), K::kind()),
    ;
}

impl<K: Kind, C: Kind, I: Kind> Lock<Chunks, K> for Transaction<C, I> {
    type Output = Transaction<K, I>;

    fn locka(self) -> (r: Transaction<K, I>) {
        Transaction { locks: LockState { chunks: PhantomData, index: self.locks.index } }
    }
}

impl<K: Kind, C: Kind, I: Kind> Lock<Index, K> for Transaction<C, I> {
    type Output = Transaction<C, K>;

    fn locka(self) -> (r: Transaction<C, K>) {
        Transaction { locks: LockState { index: PhantomData, chunks: self.locks.chunks } }
    }
}

impl<C: Kind, I: Kind> Transaction<C, I> {
    /// Transition this transaction's lock on scope `S` to kind `K`,
    /// consuming it. Which `(S, K)` pairs are available is fixed at compile
    /// time by the `Lock` implementations; the operation is total over them
    /// and never fails at run time.
    pub fn lock<S: Scope, K: Kind>(self) -> (r: <Self as Lock<S, K>>::Output) where
        Self: Lock<S, K>,

        ensures
            r.lock_view() == transition(self.lock_view(), S::scope(), K::kind()),
    {
        Lock::<S, K>::locka(self)
    }
}

impl<C: AnyKind, I: Kind> ReadChunk for Transaction<C, I> {
    proof fn chunks_lock_held(&self) {
        C::lemma_held();
    }

    fn read(&self) {
    }
}

impl<C: AnyKind, I: Kind> WriteChunk for Transaction<C, I> {
    proof fn chunks_lock_held(&self) {
        C::lemma_held();
    }

    fn write(&self) {
    }
}

impl<I: Kind> DeleteChunk for Transaction<Exclusive, I> {
    proof fn chunks_lock_exclusive(&self) {
    }

    fn delete(&self) {
    }
}

} // verus!
