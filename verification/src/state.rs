//! The mathematical model of a transaction's lock state: which resource a
//! lock applies to, how strong it is, and what a lock transition does to the
//! recorded pair.

use vstd::prelude::*;

verus! {

/// Identifies one of the two guarded resources at the specification level.
pub enum ScopeView {
    Chunks,
    Index,
}

/// The strength of a lock held on one scope, at the specification level.
pub enum KindView {
    NoLock,
    Shared,
    Exclusive,
}

/// The full lock state of a transaction: one kind per scope, independent of
/// each other.
pub struct LockStateView {
    pub chunks: KindView,
    pub index: KindView,
}

/// Holds when some lock is held, whatever its strength: shared or exclusive,
/// but not no lock at all.
pub open spec fn is_any_kind(k: KindView) -> bool {
    k == KindView::Shared || k == KindView::Exclusive
}

/// The effect of a lock transition: the requested scope's kind is replaced by
/// the requested kind, and the other scope's kind is untouched.
pub open spec fn transition(s: LockStateView, scope: ScopeView, kind: KindView) -> LockStateView {
    match scope {
        ScopeView::Chunks => LockStateView { chunks: kind, index: s.index },
        ScopeView::Index => LockStateView { chunks: s.chunks, index: kind },
    }
}

/// The availability rule for reading a chunk: some lock on the chunk store,
/// shared or exclusive.
pub open spec fn permits_read(s: LockStateView) -> bool {
    is_any_kind(s.chunks)
}

/// The availability rule for writing a chunk: the same as for reading, any
/// held lock on the chunk store suffices.
pub open spec fn permits_write(s: LockStateView) -> bool {
    is_any_kind(s.chunks)
}

/// The availability rule for deleting a chunk: an exclusive lock on the
/// chunk store, nothing weaker.
pub open spec fn permits_delete(s: LockStateView) -> bool {
    s.chunks == KindView::Exclusive
}

/// A type whose values record a lock state; every transaction implements it.
pub trait LockView {
    spec fn lock_view(&self) -> LockStateView;
}

/// Law: from every initial state, transitioning a scope to a kind yields a
/// state whose field for that scope equals the requested kind, while the
/// other scope's field is unchanged.
pub proof fn lemma_transition_independent(s: LockStateView, scope: ScopeView, kind: KindView)
    ensures
        scope == ScopeView::Chunks ==> transition(s, scope, kind) == (LockStateView {
            chunks: kind,
            index: s.index,
        }),
        scope == ScopeView::Index ==> transition(s, scope, kind) == (LockStateView {
            chunks: s.chunks,
            index: kind,
        }),
{
}

/// Law: transitions on distinct scopes commute; starting from any state,
/// setting the chunks kind and then the index kind reaches the same state as
/// doing so in the other order.
pub proof fn lemma_transitions_commute(s: LockStateView, ck: KindView, ik: KindView)
    ensures
        transition(transition(s, ScopeView::Chunks, ck), ScopeView::Index, ik)
            == transition(transition(s, ScopeView::Index, ik), ScopeView::Chunks, ck),
{
}

} // verus!
