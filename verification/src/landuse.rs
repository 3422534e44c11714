//! Classification of OpenStreetMap land-use areas.
use vstd::prelude::*;

verus! {

/// Class of a land-use area.
#[derive(Debug, Clone, Copy, PartialEq, Eq, Hash, Structural)]
pub enum LanduseClass {
    Forest,
    Park,
    Residential,
    Industrial,
    Cemetery,
    Allotments,
    Meadow,
    Commercial,
    RecreationGround,
    Retail,
    Military,
    Quarry,
    Orchard,
    Vineyard,
    Scrub,
    Grass,
    Heath,
    Farmland,
    Farmyard,
    Landfill,
}

} // verus!
