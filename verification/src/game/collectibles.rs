//! Kinds of pickups on the road.

use vstd::prelude::*;

verus! {

#[derive(Debug, Clone, Copy, PartialEq, Eq, Structural)]
pub enum CollectibleType {
    Coin,
    Jewel,
    /// Spawned under high barriers; worth score only, never combo.
    Star,
}

} // verus!
