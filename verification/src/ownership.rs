//! The reference-counting discipline of the ownership graph.
//!
//! Every wrapper (`File`, `Artboard`, `StateMachine`) holds the engine
//! object behind a shared reference-counted owner, and every child wrapper
//! embeds a strong reference to its parent's owner: `ArtboardInner` holds
//! the file's owner, `StateMachineInner` holds the artboard's. The model
//! below counts the strong references to one parent owner and states the
//! consequence of that structure: the owner — and with it the underlying
//! resource — is released only when host handles and child wrappers are
//! all gone, so dropping the host's handle alone never releases a parent
//! that a child still needs.

use vstd::prelude::*;

verus! {

/// The strong references to one shared owner: those held directly by the
/// host, and those embedded in child wrappers.
pub struct OwnershipCounts {
    pub host_refs: nat,
    pub child_refs: nat,
}

pub open spec fn total_refs(c: OwnershipCounts) -> nat {
    c.host_refs + c.child_refs
}

/// The owner runs the resource's destructor exactly when its last strong
/// reference is dropped.
pub open spec fn released(c: OwnershipCounts) -> bool {
    total_refs(c) == 0
}

/// The host dropping one of its own handles.
pub open spec fn drop_host_ref(c: OwnershipCounts) -> OwnershipCounts {
    OwnershipCounts {
        host_refs: if c.host_refs > 0 {
            (c.host_refs - 1) as nat
        } else {
            0
        },
        child_refs: c.child_refs,
    }
}

/// A child wrapper being dropped, giving up its embedded reference.
pub open spec fn drop_child_ref(c: OwnershipCounts) -> OwnershipCounts {
    OwnershipCounts {
        host_refs: c.host_refs,
        child_refs: if c.child_refs > 0 {
            (c.child_refs - 1) as nat
        } else {
            0
        },
    }
}

/// Ownership: while any child wrapper still embeds a reference to the
/// parent's owner, dropping the host's handle to the parent does not
/// release the parent's resource.
pub proof fn lemma_parent_outlives_child(c: OwnershipCounts)
    requires
        c.child_refs >= 1,
    ensures
        !released(drop_host_ref(c)),
{
}

/// Release happens at most once: it is a property of the transition to
/// zero references, and from a released state there is no reference left
/// to drop.
pub proof fn lemma_release_only_at_zero(c: OwnershipCounts)
    requires
        released(c),
    ensures
        c.host_refs == 0,
        c.child_refs == 0,
{
}

/// Dropping the last child of an otherwise unreferenced parent is what
/// finally releases it: release coincides with the last reference leaving.
pub proof fn lemma_last_child_drop_releases(c: OwnershipCounts)
    requires
        c.host_refs == 0,
        c.child_refs == 1,
    ensures
        !released(c),
        released(drop_child_ref(c)),
{
}

} // verus!
