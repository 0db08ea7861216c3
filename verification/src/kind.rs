//! Marker types naming the strength of a lock.

use crate::state::KindView;
use crate::state::is_any_kind;
use vstd::prelude::*;

verus! {

/// A tag identifying how strong a lock is.
pub trait Kind {
    /// The strength this marker stands for, at the specification level.
    spec fn kind() -> KindView;
}

/// No lock is held on the scope.
pub struct NoLock;

impl Kind for NoLock {
    open spec fn kind() -> KindView {
        KindView::NoLock
    }
}

/// Some lock is held, strength unspecified: shared or exclusive, never none.
pub trait AnyKind: Kind {
    /// Law: every kind in this grouping really is a held lock.
    proof fn lemma_held()
        ensures
            is_any_kind(Self::kind()),
    ;
}

/// A shared lock: concurrent holders are possible.
pub struct Shared;

impl Kind for Shared {
    open spec fn kind() -> KindView {
        KindView::Shared
    }
}

impl AnyKind for Shared {
    proof fn lemma_held() {
    }
}

/// An exclusive lock: the holder is alone, and mutation rights are granted.
pub struct Exclusive;

impl Kind for Exclusive {
    open spec fn kind() -> KindView {
        KindView::Exclusive
    }
}

impl AnyKind for Exclusive {
    proof fn lemma_held() {
    }
}

} // verus!
