//! Kinds of road segments.

use vstd::prelude::*;

verus! {

#[derive(Debug, Clone, Copy, PartialEq, Eq, Structural)]
pub enum SegmentType {
    Ground,
    ObstacleZone,
    CoinZone,
}

} // verus!
