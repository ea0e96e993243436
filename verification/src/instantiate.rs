//! The handle-based instantiation protocol.
//!
//! A `Handle` selects a child object inside a parent container; the
//! `Instantiate` capability resolves it and wraps the child so that the
//! parent outlives it. A miss is reported as absence, never as a fault, and
//! on a miss nothing is allocated and nothing changes.

use vstd::prelude::*;

verus! {

/// Which child object to instantiate. A value, not an entity: it is
/// consumed by one instantiation call and carries no lifetime.
#[derive(Debug)]
pub enum Handle {
    /// The primary (first) object of the requested kind.
    Default,
    /// The object at this position.
    Index(usize),
    /// The object whose identifier matches this name exactly.
    Name(String),
}

/// Production of a child object of kind `Self` from a parent of kind
/// `Parent`, with defined failure behaviour: out-of-range indices and
/// unknown names yield absence.
pub trait Instantiate: Sized {
    type Parent;

    /// Structural validity of the parent container.
    spec fn parent_wf(parent: &Self::Parent) -> bool;

    /// What instantiation returns, pinned per implementor: whether the
    /// handle resolves, and every observable of the produced child.
    spec fn resolves_to(parent: &Self::Parent, handle: Handle, r: Option<Self>) -> bool;

    fn instantiate(parent: &Self::Parent, handle: Handle) -> (r: Option<Self>)
        requires
            Self::parent_wf(parent),
        ensures
            Self::resolves_to(parent, handle, r),
    ;
}

} // verus!
