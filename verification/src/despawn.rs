//! Marking of scene entities that are being removed.
use vstd::prelude::*;

verus! {

/// Whether an entity is live or on its way out.
#[derive(Debug, Clone, Copy, PartialEq, Eq, Structural)]
pub enum DespawnIndicator {
    Active,
    Despawning,
}

} // verus!
