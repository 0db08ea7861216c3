//! Marker types naming the two guarded resources.

use crate::state::ScopeView;
use vstd::prelude::*;

verus! {

/// A tag identifying which guarded resource a lock applies to.
pub trait Scope {
    /// The scope this marker stands for, at the specification level.
    spec fn scope() -> ScopeView;
}

/// The chunk store.
pub struct Chunks;

impl Scope for Chunks {
    open spec fn scope() -> ScopeView {
        ScopeView::Chunks
    }
}

/// The index.
pub struct Index;

impl Scope for Index {
    open spec fn scope() -> ScopeView {
        ScopeView::Index
    }
}

} // verus!
