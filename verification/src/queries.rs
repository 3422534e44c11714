//! Parameter and row types of the OSM database queries, and the conversion of
//! borrowed rows into owned ones.
use crate::features::Road;
use crate::road;
use crate::sql_types::{RoadClass, RoadClassCategory, RoadOneway, WaterClass};
use vstd::prelude::*;
use vstd::std_specs::convert::FromSpec;

verus! {

/// An owned copy of a byte slice.
pub fn copy_bytes(bytes: &[u8]) -> (r: Vec<u8>)
    ensures
        r@ == bytes@,
{
    let mut out: Vec<u8> = Vec::with_capacity(bytes.len());
    let mut i: usize = 0;
    while i < bytes.len()
        invariant
            i <= bytes@.len(),
            out@ == bytes@.take(i as int),
        decreases bytes@.len() - i,
    {
        out.push(bytes[i]);
        i += 1;
        assert(out@ =~= bytes@.take(i as int));
    }
    assert(bytes@.take(bytes@.len() as int) =~= bytes@);
    out
}

/// Parameters of the query for roads of one category inside an area.
#[derive(Debug)]
pub struct FetchRoadsByAreaAndCategoryParams<T1> {
    pub category: RoadClassCategory,
    pub bounds: T1,
}

/// Parameters of the statement that inserts or updates a road.
#[derive(Debug)]
pub struct UpsertRoadParams<T1> {
    pub osm_id: i64,
    pub class: RoadClass,
    pub category: RoadClassCategory,
    pub oneway: RoadOneway,
    pub max_speed: Option<i32>,
    pub layer: i32,
    pub is_bridge: bool,
    pub is_tunnel: bool,
    pub geom: T1,
}

/// A row of the query for all roads.
#[derive(Debug, Clone, PartialEq)]
pub struct ListAllRoads {
    pub osm_id: i64,
    pub class: RoadClass,
    pub category: RoadClassCategory,
    pub oneway: RoadOneway,
    pub max_speed: i32,
    pub layer: i32,
    pub reference: String,
    pub is_bridge: bool,
    pub is_tunnel: bool,
    pub geom: Vec<u8>,
}

/// A row of the query for all roads, borrowing its text and geometry.
pub struct ListAllRoadsBorrowed<'a> {
    pub osm_id: i64,
    pub class: RoadClass,
    pub category: RoadClassCategory,
    pub oneway: RoadOneway,
    pub max_speed: i32,
    pub layer: i32,
    pub reference: &'a str,
    pub is_bridge: bool,
    pub is_tunnel: bool,
    pub geom: &'a [u8],
}

impl<'a> vstd::std_specs::convert::FromSpecImpl<ListAllRoadsBorrowed<'a>> for ListAllRoads {
    open spec fn obeys_from_spec() -> bool {
        false
    }

    open spec fn from_spec(v: ListAllRoadsBorrowed<'a>) -> ListAllRoads {
        vstd::pervasive::arbitrary()
    }
}

impl<'a> From<ListAllRoadsBorrowed<'a>> for ListAllRoads {
    /// Copies the borrowed text and geometry into an owned row.
    fn from(v: ListAllRoadsBorrowed<'a>) -> (r: ListAllRoads)
        ensures
            r.osm_id == v.osm_id,
            r.class == v.class,
            r.category == v.category,
            r.oneway == v.oneway,
            r.max_speed == v.max_speed,
            r.layer == v.layer,
            r.reference@ == v.reference@,
            r.is_bridge == v.is_bridge,
            r.is_tunnel == v.is_tunnel,
            r.geom@ == v.geom@,
    {
        ListAllRoads {
            osm_id: v.osm_id,
            class: v.class,
            category: v.category,
            oneway: v.oneway,
            max_speed: v.max_speed,
            layer: v.layer,
            reference: v.reference.to_string(),
            is_bridge: v.is_bridge,
            is_tunnel: v.is_tunnel,
            geom: copy_bytes(v.geom),
        }
    }
}

/// A row of the query for the roads inside an area.
#[derive(Debug, Clone, PartialEq)]
pub struct FetchRoadsByArea {
    pub osm_id: i64,
    pub class: RoadClass,
    pub category: RoadClassCategory,
    pub oneway: RoadOneway,
    pub max_speed: Option<i32>,
    pub layer: i32,
    pub reference: String,
    pub is_bridge: bool,
    pub is_tunnel: bool,
    pub geom: Vec<u8>,
}

/// A row of the query for the roads inside an area, borrowing its text and geometry.
pub struct FetchRoadsByAreaBorrowed<'a> {
    pub osm_id: i64,
    pub class: RoadClass,
    pub category: RoadClassCategory,
    pub oneway: RoadOneway,
    pub max_speed: Option<i32>,
    pub layer: i32,
    pub reference: &'a str,
    pub is_bridge: bool,
    pub is_tunnel: bool,
    pub geom: &'a [u8],
}

impl<'a> vstd::std_specs::convert::FromSpecImpl<FetchRoadsByAreaBorrowed<'a>> for FetchRoadsByArea {
    open spec fn obeys_from_spec() -> bool {
        false
    }

    open spec fn from_spec(v: FetchRoadsByAreaBorrowed<'a>) -> FetchRoadsByArea {
        vstd::pervasive::arbitrary()
    }
}

impl<'a> From<FetchRoadsByAreaBorrowed<'a>> for FetchRoadsByArea {
    /// Copies the borrowed text and geometry into an owned row.
    fn from(v: FetchRoadsByAreaBorrowed<'a>) -> (r: FetchRoadsByArea)
        ensures
            r.osm_id == v.osm_id,
            r.class == v.class,
            r.category == v.category,
            r.oneway == v.oneway,
            r.max_speed == v.max_speed,
            r.layer == v.layer,
            r.reference@ == v.reference@,
            r.is_bridge == v.is_bridge,
            r.is_tunnel == v.is_tunnel,
            r.geom@ == v.geom@,
    {
        FetchRoadsByArea {
            osm_id: v.osm_id,
            class: v.class,
            category: v.category,
            oneway: v.oneway,
            max_speed: v.max_speed,
            layer: v.layer,
            reference: v.reference.to_string(),
            is_bridge: v.is_bridge,
            is_tunnel: v.is_tunnel,
            geom: copy_bytes(v.geom),
        }
    }
}

/// A row of the query for the roads of one category inside an area.
#[derive(Debug, Clone, PartialEq)]
pub struct FetchRoadsByAreaAndCategory {
    pub osm_id: i64,
    pub class: RoadClass,
    pub category: RoadClassCategory,
    pub oneway: RoadOneway,
    pub max_speed: Option<i32>,
    pub layer: i32,
    pub reference: String,
    pub is_bridge: bool,
    pub is_tunnel: bool,
    pub geom: Vec<u8>,
}

/// A row of the query for the roads of one category inside an area, borrowing its text and geometry.
pub struct FetchRoadsByAreaAndCategoryBorrowed<'a> {
    pub osm_id: i64,
    pub class: RoadClass,
    pub category: RoadClassCategory,
    pub oneway: RoadOneway,
    pub max_speed: Option<i32>,
    pub layer: i32,
    pub reference: &'a str,
    pub is_bridge: bool,
    pub is_tunnel: bool,
    pub geom: &'a [u8],
}

impl<'a> vstd::std_specs::convert::FromSpecImpl<FetchRoadsByAreaAndCategoryBorrowed<'a>> for FetchRoadsByAreaAndCategory {
    open spec fn obeys_from_spec() -> bool {
        false
    }

    open spec fn from_spec(v: FetchRoadsByAreaAndCategoryBorrowed<'a>) -> FetchRoadsByAreaAndCategory {
        vstd::pervasive::arbitrary()
    }
}

impl<'a> From<FetchRoadsByAreaAndCategoryBorrowed<'a>> for FetchRoadsByAreaAndCategory {
    /// Copies the borrowed text and geometry into an owned row.
    fn from(v: FetchRoadsByAreaAndCategoryBorrowed<'a>) -> (r: FetchRoadsByAreaAndCategory)
        ensures
            r.osm_id == v.osm_id,
            r.class == v.class,
            r.category == v.category,
            r.oneway == v.oneway,
            r.max_speed == v.max_speed,
            r.layer == v.layer,
            r.reference@ == v.reference@,
            r.is_bridge == v.is_bridge,
            r.is_tunnel == v.is_tunnel,
            r.geom@ == v.geom@,
    {
        FetchRoadsByAreaAndCategory {
            osm_id: v.osm_id,
            class: v.class,
            category: v.category,
            oneway: v.oneway,
            max_speed: v.max_speed,
            layer: v.layer,
            reference: v.reference.to_string(),
            is_bridge: v.is_bridge,
            is_tunnel: v.is_tunnel,
            geom: copy_bytes(v.geom),
        }
    }
}

/// A row of the query for the buildings inside an area.
#[derive(Debug, Clone, PartialEq)]
pub struct FetchBuildingsByArea {
    pub osm_id: i64,
    pub kind: Option<String>,
    pub geom: Vec<u8>,
}

/// A row of the query for the buildings inside an area, borrowing its text and
/// geometry.
pub struct FetchBuildingsByAreaBorrowed<'a> {
    pub osm_id: i64,
    pub kind: Option<&'a str>,
    pub geom: &'a [u8],
}

impl<'a> vstd::std_specs::convert::FromSpecImpl<FetchBuildingsByAreaBorrowed<'a>> for FetchBuildingsByArea {
    open spec fn obeys_from_spec() -> bool {
        false
    }

    open spec fn from_spec(v: FetchBuildingsByAreaBorrowed<'a>) -> FetchBuildingsByArea {
        vstd::pervasive::arbitrary()
    }
}

impl<'a> From<FetchBuildingsByAreaBorrowed<'a>> for FetchBuildingsByArea {
    /// Copies the borrowed text and geometry into an owned row.
    fn from(v: FetchBuildingsByAreaBorrowed<'a>) -> (r: FetchBuildingsByArea)
        ensures
            r.osm_id == v.osm_id,
            r.kind.deep_view() == v.kind.deep_view(),
            r.geom@ == v.geom@,
    {
        let kind = match v.kind {
            Some(k) => Some(k.to_string()),
            None => None,
        };
        FetchBuildingsByArea { osm_id: v.osm_id, kind, geom: copy_bytes(v.geom) }
    }
}

/// A row of the query for the water areas inside an area.
#[derive(Debug, Clone, PartialEq)]
pub struct FetchWatersByArea {
    pub osm_id: i64,
    pub class: WaterClass,
    pub geom: Vec<u8>,
}

/// A row of the query for the water areas inside an area, borrowing its geometry.
pub struct FetchWatersByAreaBorrowed<'a> {
    pub osm_id: i64,
    pub class: WaterClass,
    pub geom: &'a [u8],
}

impl<'a> vstd::std_specs::convert::FromSpecImpl<FetchWatersByAreaBorrowed<'a>> for FetchWatersByArea {
    open spec fn obeys_from_spec() -> bool {
        false
    }

    open spec fn from_spec(v: FetchWatersByAreaBorrowed<'a>) -> FetchWatersByArea {
        vstd::pervasive::arbitrary()
    }
}

impl<'a> From<FetchWatersByAreaBorrowed<'a>> for FetchWatersByArea {
    /// Copies the borrowed geometry into an owned row.
    fn from(v: FetchWatersByAreaBorrowed<'a>) -> (r: FetchWatersByArea)
        ensures
            r.osm_id == v.osm_id,
            r.class == v.class,
            r.geom@ == v.geom@,
    {
        FetchWatersByArea { osm_id: v.osm_id, class: v.class, geom: copy_bytes(v.geom) }
    }
}

/// The road that a fetched row describes, with the points read from its geometry:
/// database enums turned into the map model's, a negative speed limit reinterpreted
/// as its unsigned bit pattern.
pub open spec fn spec_road_from_row<P>(
    osm_id: i64,
    class: RoadClass,
    oneway: RoadOneway,
    max_speed: Option<i32>,
    layer: i32,
    is_bridge: bool,
    is_tunnel: bool,
    road: Road<P>,
) -> bool {
    &&& road.osm_id == osm_id
    &&& road.class == <road::RoadClass as FromSpec<RoadClass>>::from_spec(class)
    &&& road.oneway == <road::OneWay as FromSpec<RoadOneway>>::from_spec(oneway)
    &&& road.max_speed == match max_speed {
        Some(v) => Some(v as u32),
        None => None,
    }
    &&& road.layer == layer
    &&& road.is_bridge == is_bridge
    &&& road.is_tunnel == is_tunnel
}

fn speed_limit(max_speed: Option<i32>) -> (r: Option<u32>)
    ensures
        r == match max_speed {
            Some(v) => Some(v as u32),
            None => None::<u32>,
        },
{
    match max_speed {
        Some(v) => Some(v as u32),
        None => None,
    }
}

/// The road of a row of the query for the roads inside an area.
pub fn road_from_area_row<P>(row: FetchRoadsByArea, geometry: Vec<P>) -> (r: Road<P>)
    ensures
        spec_road_from_row(
            row.osm_id,
            row.class,
            row.oneway,
            row.max_speed,
            row.layer,
            row.is_bridge,
            row.is_tunnel,
            r,
        ),
        r.reference@ == row.reference@,
        r.geometry@ == geometry@,
{
    Road {
        oneway: road::OneWay::from(row.oneway),
        osm_id: row.osm_id,
        is_bridge: row.is_bridge,
        is_tunnel: row.is_tunnel,
        max_speed: speed_limit(row.max_speed),
        class: road::RoadClass::from(row.class),
        reference: row.reference,
        layer: row.layer,
        geometry,
    }
}

/// The road of a row of the query for the roads of one category inside an area.
pub fn road_from_category_row<P>(row: FetchRoadsByAreaAndCategory, geometry: Vec<P>) -> (r: Road<P>)
    ensures
        spec_road_from_row(
            row.osm_id,
            row.class,
            row.oneway,
            row.max_speed,
            row.layer,
            row.is_bridge,
            row.is_tunnel,
            r,
        ),
        r.reference@ == row.reference@,
        r.geometry@ == geometry@,
{
    Road {
        oneway: road::OneWay::from(row.oneway),
        osm_id: row.osm_id,
        is_bridge: row.is_bridge,
        is_tunnel: row.is_tunnel,
        max_speed: speed_limit(row.max_speed),
        class: road::RoadClass::from(row.class),
        reference: row.reference,
        layer: row.layer,
        geometry,
    }
}

/// The closed ring through `corners`: the last corner first, then all corners in
/// order, so that the ring ends where it starts.
pub fn closed_ring<P: Copy>(corners: &[P]) -> (ring: Vec<P>)
    requires
        corners@.len() > 0,
    ensures
        ring@ == seq![corners@.last()] + corners@,
        ring@[0] == ring@.last(),
{
    let n = corners.len();
    let mut ring: Vec<P> = Vec::new();
    ring.push(corners[n - 1]);
    let mut i: usize = 0;
    while i < n
        invariant
            n == corners@.len(),
            n > 0,
            i <= n,
            ring@ == seq![corners@.last()] + corners@.take(i as int),
        decreases n - i,
    {
        ring.push(corners[i]);
        i += 1;
        assert(ring@ =~= seq![corners@.last()] + corners@.take(i as int));
    }
    assert(corners@.take(n as int) =~= corners@);
    ring
}

} // verus!
