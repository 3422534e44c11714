//! Conversions between the map model and the database enum types.
use crate::landuse;
use crate::road;
use crate::sql_types;
use crate::sql_types::SqlEnum;
use crate::water;
use vstd::prelude::*;
use vstd::std_specs::convert::FromSpec;
use vstd::std_specs::convert::FromSpecImpl;

verus! {

impl From<road::OneWay> for sql_types::RoadOneway {
    fn from(value: road::OneWay) -> (r: sql_types::RoadOneway) {
        match value {
            road::OneWay::ForwardsOnly => sql_types::RoadOneway::forwards_only,
            road::OneWay::BackwardsOnly => sql_types::RoadOneway::backwards_only,
            road::OneWay::Bidirectional => sql_types::RoadOneway::bidirectional,
        }
    }
}

impl FromSpecImpl<road::OneWay> for sql_types::RoadOneway {
    open spec fn obeys_from_spec() -> bool {
        true
    }

    open spec fn from_spec(value: road::OneWay) -> sql_types::RoadOneway {
        match value {
            road::OneWay::ForwardsOnly => sql_types::RoadOneway::forwards_only,
            road::OneWay::BackwardsOnly => sql_types::RoadOneway::backwards_only,
            road::OneWay::Bidirectional => sql_types::RoadOneway::bidirectional,
        }
    }
}

impl From<sql_types::RoadOneway> for road::OneWay {
    fn from(value: sql_types::RoadOneway) -> (r: road::OneWay) {
        match value {
            sql_types::RoadOneway::forwards_only => road::OneWay::ForwardsOnly,
            sql_types::RoadOneway::backwards_only => road::OneWay::BackwardsOnly,
            sql_types::RoadOneway::bidirectional => road::OneWay::Bidirectional,
        }
    }
}

impl FromSpecImpl<sql_types::RoadOneway> for road::OneWay {
    open spec fn obeys_from_spec() -> bool {
        true
    }

    open spec fn from_spec(value: sql_types::RoadOneway) -> road::OneWay {
        match value {
            sql_types::RoadOneway::forwards_only => road::OneWay::ForwardsOnly,
            sql_types::RoadOneway::backwards_only => road::OneWay::BackwardsOnly,
            sql_types::RoadOneway::bidirectional => road::OneWay::Bidirectional,
        }
    }
}

/// Storing a one way and reading it back gives the same value, both ways round.
pub proof fn lemma_one_way_conversion_round_trip(a: road::OneWay, b: sql_types::RoadOneway)
    ensures
        <road::OneWay as FromSpec<sql_types::RoadOneway>>::from_spec(<sql_types::RoadOneway as FromSpec<road::OneWay>>::from_spec(a)) == a,
        <sql_types::RoadOneway as FromSpec<road::OneWay>>::from_spec(<road::OneWay as FromSpec<sql_types::RoadOneway>>::from_spec(b)) == b,
{
}

impl From<road::RoadClassCategory> for sql_types::RoadClassCategory {
    fn from(value: road::RoadClassCategory) -> (r: sql_types::RoadClassCategory) {
        match value {
            road::RoadClassCategory::MajorRoads => sql_types::RoadClassCategory::major_roads,
            road::RoadClassCategory::MinorRoads => sql_types::RoadClassCategory::minor_roads,
            road::RoadClassCategory::HighwayLinks => sql_types::RoadClassCategory::highway_links,
            road::RoadClassCategory::VerySmallRoads => sql_types::RoadClassCategory::very_small_roads,
            road::RoadClassCategory::PathsUnsuitableForCars => sql_types::RoadClassCategory::paths_unsuitable_for_cars,
            road::RoadClassCategory::Unknown => sql_types::RoadClassCategory::unknown,
        }
    }
}

impl FromSpecImpl<road::RoadClassCategory> for sql_types::RoadClassCategory {
    open spec fn obeys_from_spec() -> bool {
        true
    }

    open spec fn from_spec(value: road::RoadClassCategory) -> sql_types::RoadClassCategory {
        match value {
            road::RoadClassCategory::MajorRoads => sql_types::RoadClassCategory::major_roads,
            road::RoadClassCategory::MinorRoads => sql_types::RoadClassCategory::minor_roads,
            road::RoadClassCategory::HighwayLinks => sql_types::RoadClassCategory::highway_links,
            road::RoadClassCategory::VerySmallRoads => sql_types::RoadClassCategory::very_small_roads,
            road::RoadClassCategory::PathsUnsuitableForCars => sql_types::RoadClassCategory::paths_unsuitable_for_cars,
            road::RoadClassCategory::Unknown => sql_types::RoadClassCategory::unknown,
        }
    }
}

impl From<sql_types::RoadClassCategory> for road::RoadClassCategory {
    fn from(value: sql_types::RoadClassCategory) -> (r: road::RoadClassCategory) {
        match value {
            sql_types::RoadClassCategory::major_roads => road::RoadClassCategory::MajorRoads,
            sql_types::RoadClassCategory::minor_roads => road::RoadClassCategory::MinorRoads,
            sql_types::RoadClassCategory::highway_links => road::RoadClassCategory::HighwayLinks,
            sql_types::RoadClassCategory::very_small_roads => road::RoadClassCategory::VerySmallRoads,
            sql_types::RoadClassCategory::paths_unsuitable_for_cars => road::RoadClassCategory::PathsUnsuitableForCars,
            sql_types::RoadClassCategory::unknown => road::RoadClassCategory::Unknown,
        }
    }
}

impl FromSpecImpl<sql_types::RoadClassCategory> for road::RoadClassCategory {
    open spec fn obeys_from_spec() -> bool {
        true
    }

    open spec fn from_spec(value: sql_types::RoadClassCategory) -> road::RoadClassCategory {
        match value {
            sql_types::RoadClassCategory::major_roads => road::RoadClassCategory::MajorRoads,
            sql_types::RoadClassCategory::minor_roads => road::RoadClassCategory::MinorRoads,
            sql_types::RoadClassCategory::highway_links => road::RoadClassCategory::HighwayLinks,
            sql_types::RoadClassCategory::very_small_roads => road::RoadClassCategory::VerySmallRoads,
            sql_types::RoadClassCategory::paths_unsuitable_for_cars => road::RoadClassCategory::PathsUnsuitableForCars,
            sql_types::RoadClassCategory::unknown => road::RoadClassCategory::Unknown,
        }
    }
}

/// Storing a road class category and reading it back gives the same value, both ways round.
pub proof fn lemma_road_class_category_conversion_round_trip(a: road::RoadClassCategory, b: sql_types::RoadClassCategory)
    ensures
        <road::RoadClassCategory as FromSpec<sql_types::RoadClassCategory>>::from_spec(<sql_types::RoadClassCategory as FromSpec<road::RoadClassCategory>>::from_spec(a)) == a,
        <sql_types::RoadClassCategory as FromSpec<road::RoadClassCategory>>::from_spec(<road::RoadClassCategory as FromSpec<sql_types::RoadClassCategory>>::from_spec(b)) == b,
{
}

/// The database stores a road class category under the same name the map model gives it.
pub proof fn lemma_road_class_category_label_is_name(a: road::RoadClassCategory)
    ensures
        <sql_types::RoadClassCategory as FromSpec<road::RoadClassCategory>>::from_spec(a).spec_sql_label() == a.spec_name(),
{
}

impl From<road::RoadClass> for sql_types::RoadClass {
    fn from(value: road::RoadClass) -> (r: sql_types::RoadClass) {
        match value {
            road::RoadClass::Motorway => sql_types::RoadClass::motorway,
            road::RoadClass::Trunk => sql_types::RoadClass::trunk,
            road::RoadClass::Primary => sql_types::RoadClass::primary,
            road::RoadClass::Secondary => sql_types::RoadClass::secondary,
            road::RoadClass::Tertiary => sql_types::RoadClass::tertiary,
            road::RoadClass::Unclassified => sql_types::RoadClass::unclassified,
            road::RoadClass::Residential => sql_types::RoadClass::residential,
            road::RoadClass::LivingStreet => sql_types::RoadClass::living_street,
            road::RoadClass::Pedestrian => sql_types::RoadClass::pedestrian,
            road::RoadClass::Busway => sql_types::RoadClass::busway,
            road::RoadClass::MotorwayLink => sql_types::RoadClass::motorway_link,
            road::RoadClass::TrunkLink => sql_types::RoadClass::trunk_link,
            road::RoadClass::PrimaryLink => sql_types::RoadClass::primary_link,
            road::RoadClass::SecondaryLink => sql_types::RoadClass::secondary_link,
            road::RoadClass::TertiaryLink => sql_types::RoadClass::tertiary_link,
            road::RoadClass::Service => sql_types::RoadClass::service,
            road::RoadClass::Track => sql_types::RoadClass::track,
            road::RoadClass::TrackGrade1 => sql_types::RoadClass::track_grade1,
            road::RoadClass::TrackGrade2 => sql_types::RoadClass::track_grade2,
            road::RoadClass::TrackGrade3 => sql_types::RoadClass::track_grade3,
            road::RoadClass::TrackGrade4 => sql_types::RoadClass::track_grade4,
            road::RoadClass::TrackGrade5 => sql_types::RoadClass::track_grade5,
            road::RoadClass::Bridleway => sql_types::RoadClass::bridleway,
            road::RoadClass::Cycleway => sql_types::RoadClass::cycleway,
            road::RoadClass::Footway => sql_types::RoadClass::footway,
            road::RoadClass::Path => sql_types::RoadClass::path,
            road::RoadClass::Steps => sql_types::RoadClass::steps,
            road::RoadClass::Unknown => sql_types::RoadClass::unknown,
        }
    }
}

impl FromSpecImpl<road::RoadClass> for sql_types::RoadClass {
    open spec fn obeys_from_spec() -> bool {
        true
    }

    open spec fn from_spec(value: road::RoadClass) -> sql_types::RoadClass {
        match value {
            road::RoadClass::Motorway => sql_types::RoadClass::motorway,
            road::RoadClass::Trunk => sql_types::RoadClass::trunk,
            road::RoadClass::Primary => sql_types::RoadClass::primary,
            road::RoadClass::Secondary => sql_types::RoadClass::secondary,
            road::RoadClass::Tertiary => sql_types::RoadClass::tertiary,
            road::RoadClass::Unclassified => sql_types::RoadClass::unclassified,
            road::RoadClass::Residential => sql_types::RoadClass::residential,
            road::RoadClass::LivingStreet => sql_types::RoadClass::living_street,
            road::RoadClass::Pedestrian => sql_types::RoadClass::pedestrian,
            road::RoadClass::Busway => sql_types::RoadClass::busway,
            road::RoadClass::MotorwayLink => sql_types::RoadClass::motorway_link,
            road::RoadClass::TrunkLink => sql_types::RoadClass::trunk_link,
            road::RoadClass::PrimaryLink => sql_types::RoadClass::primary_link,
            road::RoadClass::SecondaryLink => sql_types::RoadClass::secondary_link,
            road::RoadClass::TertiaryLink => sql_types::RoadClass::tertiary_link,
            road::RoadClass::Service => sql_types::RoadClass::service,
            road::RoadClass::Track => sql_types::RoadClass::track,
            road::RoadClass::TrackGrade1 => sql_types::RoadClass::track_grade1,
            road::RoadClass::TrackGrade2 => sql_types::RoadClass::track_grade2,
            road::RoadClass::TrackGrade3 => sql_types::RoadClass::track_grade3,
            road::RoadClass::TrackGrade4 => sql_types::RoadClass::track_grade4,
            road::RoadClass::TrackGrade5 => sql_types::RoadClass::track_grade5,
            road::RoadClass::Bridleway => sql_types::RoadClass::bridleway,
            road::RoadClass::Cycleway => sql_types::RoadClass::cycleway,
            road::RoadClass::Footway => sql_types::RoadClass::footway,
            road::RoadClass::Path => sql_types::RoadClass::path,
            road::RoadClass::Steps => sql_types::RoadClass::steps,
            road::RoadClass::Unknown => sql_types::RoadClass::unknown,
        }
    }
}

impl From<sql_types::RoadClass> for road::RoadClass {
    fn from(value: sql_types::RoadClass) -> (r: road::RoadClass) {
        match value {
            sql_types::RoadClass::motorway => road::RoadClass::Motorway,
            sql_types::RoadClass::trunk => road::RoadClass::Trunk,
            sql_types::RoadClass::primary => road::RoadClass::Primary,
            sql_types::RoadClass::secondary => road::RoadClass::Secondary,
            sql_types::RoadClass::tertiary => road::RoadClass::Tertiary,
            sql_types::RoadClass::unclassified => road::RoadClass::Unclassified,
            sql_types::RoadClass::residential => road::RoadClass::Residential,
            sql_types::RoadClass::living_street => road::RoadClass::LivingStreet,
            sql_types::RoadClass::pedestrian => road::RoadClass::Pedestrian,
            sql_types::RoadClass::busway => road::RoadClass::Busway,
            sql_types::RoadClass::motorway_link => road::RoadClass::MotorwayLink,
            sql_types::RoadClass::trunk_link => road::RoadClass::TrunkLink,
            sql_types::RoadClass::primary_link => road::RoadClass::PrimaryLink,
            sql_types::RoadClass::secondary_link => road::RoadClass::SecondaryLink,
            sql_types::RoadClass::tertiary_link => road::RoadClass::TertiaryLink,
            sql_types::RoadClass::service => road::RoadClass::Service,
            sql_types::RoadClass::track => road::RoadClass::Track,
            sql_types::RoadClass::track_grade1 => road::RoadClass::TrackGrade1,
            sql_types::RoadClass::track_grade2 => road::RoadClass::TrackGrade2,
            sql_types::RoadClass::track_grade3 => road::RoadClass::TrackGrade3,
            sql_types::RoadClass::track_grade4 => road::RoadClass::TrackGrade4,
            sql_types::RoadClass::track_grade5 => road::RoadClass::TrackGrade5,
            sql_types::RoadClass::bridleway => road::RoadClass::Bridleway,
            sql_types::RoadClass::cycleway => road::RoadClass::Cycleway,
            sql_types::RoadClass::footway => road::RoadClass::Footway,
            sql_types::RoadClass::path => road::RoadClass::Path,
            sql_types::RoadClass::steps => road::RoadClass::Steps,
            sql_types::RoadClass::unknown => road::RoadClass::Unknown,
        }
    }
}

impl FromSpecImpl<sql_types::RoadClass> for road::RoadClass {
    open spec fn obeys_from_spec() -> bool {
        true
    }

    open spec fn from_spec(value: sql_types::RoadClass) -> road::RoadClass {
        match value {
            sql_types::RoadClass::motorway => road::RoadClass::Motorway,
            sql_types::RoadClass::trunk => road::RoadClass::Trunk,
            sql_types::RoadClass::primary => road::RoadClass::Primary,
            sql_types::RoadClass::secondary => road::RoadClass::Secondary,
            sql_types::RoadClass::tertiary => road::RoadClass::Tertiary,
            sql_types::RoadClass::unclassified => road::RoadClass::Unclassified,
            sql_types::RoadClass::residential => road::RoadClass::Residential,
            sql_types::RoadClass::living_street => road::RoadClass::LivingStreet,
            sql_types::RoadClass::pedestrian => road::RoadClass::Pedestrian,
            sql_types::RoadClass::busway => road::RoadClass::Busway,
            sql_types::RoadClass::motorway_link => road::RoadClass::MotorwayLink,
            sql_types::RoadClass::trunk_link => road::RoadClass::TrunkLink,
            sql_types::RoadClass::primary_link => road::RoadClass::PrimaryLink,
            sql_types::RoadClass::secondary_link => road::RoadClass::SecondaryLink,
            sql_types::RoadClass::tertiary_link => road::RoadClass::TertiaryLink,
            sql_types::RoadClass::service => road::RoadClass::Service,
            sql_types::RoadClass::track => road::RoadClass::Track,
            sql_types::RoadClass::track_grade1 => road::RoadClass::TrackGrade1,
            sql_types::RoadClass::track_grade2 => road::RoadClass::TrackGrade2,
            sql_types::RoadClass::track_grade3 => road::RoadClass::TrackGrade3,
            sql_types::RoadClass::track_grade4 => road::RoadClass::TrackGrade4,
            sql_types::RoadClass::track_grade5 => road::RoadClass::TrackGrade5,
            sql_types::RoadClass::bridleway => road::RoadClass::Bridleway,
            sql_types::RoadClass::cycleway => road::RoadClass::Cycleway,
            sql_types::RoadClass::footway => road::RoadClass::Footway,
            sql_types::RoadClass::path => road::RoadClass::Path,
            sql_types::RoadClass::steps => road::RoadClass::Steps,
            sql_types::RoadClass::unknown => road::RoadClass::Unknown,
        }
    }
}

/// Storing a road class and reading it back gives the same value, both ways round.
pub proof fn lemma_road_class_conversion_round_trip(a: road::RoadClass, b: sql_types::RoadClass)
    ensures
        <road::RoadClass as FromSpec<sql_types::RoadClass>>::from_spec(<sql_types::RoadClass as FromSpec<road::RoadClass>>::from_spec(a)) == a,
        <sql_types::RoadClass as FromSpec<road::RoadClass>>::from_spec(<road::RoadClass as FromSpec<sql_types::RoadClass>>::from_spec(b)) == b,
{
}

/// The database stores a road class under the same name the map model gives it.
pub proof fn lemma_road_class_label_is_name(a: road::RoadClass)
    ensures
        <sql_types::RoadClass as FromSpec<road::RoadClass>>::from_spec(a).spec_sql_label() == a.spec_name(),
{
}

impl From<water::WaterClass> for sql_types::WaterClass {
    fn from(value: water::WaterClass) -> (r: sql_types::WaterClass) {
        match value {
            water::WaterClass::Water => sql_types::WaterClass::water,
            water::WaterClass::Reservoir => sql_types::WaterClass::reservoir,
            water::WaterClass::River => sql_types::WaterClass::river,
            water::WaterClass::Dock => sql_types::WaterClass::dock,
            water::WaterClass::Glacier => sql_types::WaterClass::glacier,
            water::WaterClass::Riverbank => sql_types::WaterClass::riverbank,
            water::WaterClass::Wetland => sql_types::WaterClass::wetland,
            water::WaterClass::WetlandWetMeadow => sql_types::WaterClass::wetland_wet_meadow,
            water::WaterClass::WetlandFen => sql_types::WaterClass::wetland_fen,
            water::WaterClass::WetlandSwamp => sql_types::WaterClass::wetland_swamp,
            water::WaterClass::WetlandReedbed => sql_types::WaterClass::wetland_reedbed,
            water::WaterClass::WetlandTidalflat => sql_types::WaterClass::wetland_tidalflat,
            water::WaterClass::WetlandMangrove => sql_types::WaterClass::wetland_mangrove,
            water::WaterClass::WetlandMarsh => sql_types::WaterClass::wetland_marsh,
            water::WaterClass::WetlandSaltmarsh => sql_types::WaterClass::wetland_saltmarsh,
            water::WaterClass::WetlandBog => sql_types::WaterClass::wetland_bog,
        }
    }
}

impl FromSpecImpl<water::WaterClass> for sql_types::WaterClass {
    open spec fn obeys_from_spec() -> bool {
        true
    }

    open spec fn from_spec(value: water::WaterClass) -> sql_types::WaterClass {
        match value {
            water::WaterClass::Water => sql_types::WaterClass::water,
            water::WaterClass::Reservoir => sql_types::WaterClass::reservoir,
            water::WaterClass::River => sql_types::WaterClass::river,
            water::WaterClass::Dock => sql_types::WaterClass::dock,
            water::WaterClass::Glacier => sql_types::WaterClass::glacier,
            water::WaterClass::Riverbank => sql_types::WaterClass::riverbank,
            water::WaterClass::Wetland => sql_types::WaterClass::wetland,
            water::WaterClass::WetlandWetMeadow => sql_types::WaterClass::wetland_wet_meadow,
            water::WaterClass::WetlandFen => sql_types::WaterClass::wetland_fen,
            water::WaterClass::WetlandSwamp => sql_types::WaterClass::wetland_swamp,
            water::WaterClass::WetlandReedbed => sql_types::WaterClass::wetland_reedbed,
            water::WaterClass::WetlandTidalflat => sql_types::WaterClass::wetland_tidalflat,
            water::WaterClass::WetlandMangrove => sql_types::WaterClass::wetland_mangrove,
            water::WaterClass::WetlandMarsh => sql_types::WaterClass::wetland_marsh,
            water::WaterClass::WetlandSaltmarsh => sql_types::WaterClass::wetland_saltmarsh,
            water::WaterClass::WetlandBog => sql_types::WaterClass::wetland_bog,
        }
    }
}

impl From<sql_types::WaterClass> for water::WaterClass {
    fn from(value: sql_types::WaterClass) -> (r: water::WaterClass) {
        match value {
            sql_types::WaterClass::water => water::WaterClass::Water,
            sql_types::WaterClass::reservoir => water::WaterClass::Reservoir,
            sql_types::WaterClass::river => water::WaterClass::River,
            sql_types::WaterClass::dock => water::WaterClass::Dock,
            sql_types::WaterClass::glacier => water::WaterClass::Glacier,
            sql_types::WaterClass::riverbank => water::WaterClass::Riverbank,
            sql_types::WaterClass::wetland => water::WaterClass::Wetland,
            sql_types::WaterClass::wetland_wet_meadow => water::WaterClass::WetlandWetMeadow,
            sql_types::WaterClass::wetland_fen => water::WaterClass::WetlandFen,
            sql_types::WaterClass::wetland_swamp => water::WaterClass::WetlandSwamp,
            sql_types::WaterClass::wetland_reedbed => water::WaterClass::WetlandReedbed,
            sql_types::WaterClass::wetland_tidalflat => water::WaterClass::WetlandTidalflat,
            sql_types::WaterClass::wetland_mangrove => water::WaterClass::WetlandMangrove,
            sql_types::WaterClass::wetland_marsh => water::WaterClass::WetlandMarsh,
            sql_types::WaterClass::wetland_saltmarsh => water::WaterClass::WetlandSaltmarsh,
            sql_types::WaterClass::wetland_bog => water::WaterClass::WetlandBog,
        }
    }
}

impl FromSpecImpl<sql_types::WaterClass> for water::WaterClass {
    open spec fn obeys_from_spec() -> bool {
        true
    }

    open spec fn from_spec(value: sql_types::WaterClass) -> water::WaterClass {
        match value {
            sql_types::WaterClass::water => water::WaterClass::Water,
            sql_types::WaterClass::reservoir => water::WaterClass::Reservoir,
            sql_types::WaterClass::river => water::WaterClass::River,
            sql_types::WaterClass::dock => water::WaterClass::Dock,
            sql_types::WaterClass::glacier => water::WaterClass::Glacier,
            sql_types::WaterClass::riverbank => water::WaterClass::Riverbank,
            sql_types::WaterClass::wetland => water::WaterClass::Wetland,
            sql_types::WaterClass::wetland_wet_meadow => water::WaterClass::WetlandWetMeadow,
            sql_types::WaterClass::wetland_fen => water::WaterClass::WetlandFen,
            sql_types::WaterClass::wetland_swamp => water::WaterClass::WetlandSwamp,
            sql_types::WaterClass::wetland_reedbed => water::WaterClass::WetlandReedbed,
            sql_types::WaterClass::wetland_tidalflat => water::WaterClass::WetlandTidalflat,
            sql_types::WaterClass::wetland_mangrove => water::WaterClass::WetlandMangrove,
            sql_types::WaterClass::wetland_marsh => water::WaterClass::WetlandMarsh,
            sql_types::WaterClass::wetland_saltmarsh => water::WaterClass::WetlandSaltmarsh,
            sql_types::WaterClass::wetland_bog => water::WaterClass::WetlandBog,
        }
    }
}

/// Storing a water class and reading it back gives the same value, both ways round.
pub proof fn lemma_water_class_conversion_round_trip(a: water::WaterClass, b: sql_types::WaterClass)
    ensures
        <water::WaterClass as FromSpec<sql_types::WaterClass>>::from_spec(<sql_types::WaterClass as FromSpec<water::WaterClass>>::from_spec(a)) == a,
        <sql_types::WaterClass as FromSpec<water::WaterClass>>::from_spec(<water::WaterClass as FromSpec<sql_types::WaterClass>>::from_spec(b)) == b,
{
}

/// The database stores a water class under the same name the map model gives it.
pub proof fn lemma_water_class_label_is_name(a: water::WaterClass)
    ensures
        <sql_types::WaterClass as FromSpec<water::WaterClass>>::from_spec(a).spec_sql_label() == a.spec_name(),
{
}

impl From<landuse::LanduseClass> for sql_types::LanduseClass {
    fn from(value: landuse::LanduseClass) -> (r: sql_types::LanduseClass) {
        match value {
            landuse::LanduseClass::Forest => sql_types::LanduseClass::forest,
            landuse::LanduseClass::Park => sql_types::LanduseClass::park,
            landuse::LanduseClass::Residential => sql_types::LanduseClass::residential,
            landuse::LanduseClass::Industrial => sql_types::LanduseClass::industrial,
            landuse::LanduseClass::Cemetery => sql_types::LanduseClass::cemetery,
            landuse::LanduseClass::Allotments => sql_types::LanduseClass::allotments,
            landuse::LanduseClass::Meadow => sql_types::LanduseClass::meadow,
            landuse::LanduseClass::Commercial => sql_types::LanduseClass::commercial,
            landuse::LanduseClass::RecreationGround => sql_types::LanduseClass::recreation_ground,
            landuse::LanduseClass::Retail => sql_types::LanduseClass::retail,
            landuse::LanduseClass::Military => sql_types::LanduseClass::military,
            landuse::LanduseClass::Quarry => sql_types::LanduseClass::quarry,
            landuse::LanduseClass::Orchard => sql_types::LanduseClass::orchard,
            landuse::LanduseClass::Vineyard => sql_types::LanduseClass::vineyard,
            landuse::LanduseClass::Scrub => sql_types::LanduseClass::scrub,
            landuse::LanduseClass::Grass => sql_types::LanduseClass::grass,
            landuse::LanduseClass::Heath => sql_types::LanduseClass::heath,
            landuse::LanduseClass::Farmland => sql_types::LanduseClass::farmland,
            landuse::LanduseClass::Farmyard => sql_types::LanduseClass::farmyard,
            landuse::LanduseClass::Landfill => sql_types::LanduseClass::landfill,
        }
    }
}

impl FromSpecImpl<landuse::LanduseClass> for sql_types::LanduseClass {
    open spec fn obeys_from_spec() -> bool {
        true
    }

    open spec fn from_spec(value: landuse::LanduseClass) -> sql_types::LanduseClass {
        match value {
            landuse::LanduseClass::Forest => sql_types::LanduseClass::forest,
            landuse::LanduseClass::Park => sql_types::LanduseClass::park,
            landuse::LanduseClass::Residential => sql_types::LanduseClass::residential,
            landuse::LanduseClass::Industrial => sql_types::LanduseClass::industrial,
            landuse::LanduseClass::Cemetery => sql_types::LanduseClass::cemetery,
            landuse::LanduseClass::Allotments => sql_types::LanduseClass::allotments,
            landuse::LanduseClass::Meadow => sql_types::LanduseClass::meadow,
            landuse::LanduseClass::Commercial => sql_types::LanduseClass::commercial,
            landuse::LanduseClass::RecreationGround => sql_types::LanduseClass::recreation_ground,
            landuse::LanduseClass::Retail => sql_types::LanduseClass::retail,
            landuse::LanduseClass::Military => sql_types::LanduseClass::military,
            landuse::LanduseClass::Quarry => sql_types::LanduseClass::quarry,
            landuse::LanduseClass::Orchard => sql_types::LanduseClass::orchard,
            landuse::LanduseClass::Vineyard => sql_types::LanduseClass::vineyard,
            landuse::LanduseClass::Scrub => sql_types::LanduseClass::scrub,
            landuse::LanduseClass::Grass => sql_types::LanduseClass::grass,
            landuse::LanduseClass::Heath => sql_types::LanduseClass::heath,
            landuse::LanduseClass::Farmland => sql_types::LanduseClass::farmland,
            landuse::LanduseClass::Farmyard => sql_types::LanduseClass::farmyard,
            landuse::LanduseClass::Landfill => sql_types::LanduseClass::landfill,
        }
    }
}

impl From<sql_types::LanduseClass> for landuse::LanduseClass {
    fn from(value: sql_types::LanduseClass) -> (r: landuse::LanduseClass) {
        match value {
            sql_types::LanduseClass::forest => landuse::LanduseClass::Forest,
            sql_types::LanduseClass::park => landuse::LanduseClass::Park,
            sql_types::LanduseClass::residential => landuse::LanduseClass::Residential,
            sql_types::LanduseClass::industrial => landuse::LanduseClass::Industrial,
            sql_types::LanduseClass::cemetery => landuse::LanduseClass::Cemetery,
            sql_types::LanduseClass::allotments => landuse::LanduseClass::Allotments,
            sql_types::LanduseClass::meadow => landuse::LanduseClass::Meadow,
            sql_types::LanduseClass::commercial => landuse::LanduseClass::Commercial,
            sql_types::LanduseClass::recreation_ground => landuse::LanduseClass::RecreationGround,
            sql_types::LanduseClass::retail => landuse::LanduseClass::Retail,
            sql_types::LanduseClass::military => landuse::LanduseClass::Military,
            sql_types::LanduseClass::quarry => landuse::LanduseClass::Quarry,
            sql_types::LanduseClass::orchard => landuse::LanduseClass::Orchard,
            sql_types::LanduseClass::vineyard => landuse::LanduseClass::Vineyard,
            sql_types::LanduseClass::scrub => landuse::LanduseClass::Scrub,
            sql_types::LanduseClass::grass => landuse::LanduseClass::Grass,
            sql_types::LanduseClass::heath => landuse::LanduseClass::Heath,
            sql_types::LanduseClass::farmland => landuse::LanduseClass::Farmland,
            sql_types::LanduseClass::farmyard => landuse::LanduseClass::Farmyard,
            sql_types::LanduseClass::landfill => landuse::LanduseClass::Landfill,
        }
    }
}

impl FromSpecImpl<sql_types::LanduseClass> for landuse::LanduseClass {
    open spec fn obeys_from_spec() -> bool {
        true
    }

    open spec fn from_spec(value: sql_types::LanduseClass) -> landuse::LanduseClass {
        match value {
            sql_types::LanduseClass::forest => landuse::LanduseClass::Forest,
            sql_types::LanduseClass::park => landuse::LanduseClass::Park,
            sql_types::LanduseClass::residential => landuse::LanduseClass::Residential,
            sql_types::LanduseClass::industrial => landuse::LanduseClass::Industrial,
            sql_types::LanduseClass::cemetery => landuse::LanduseClass::Cemetery,
            sql_types::LanduseClass::allotments => landuse::LanduseClass::Allotments,
            sql_types::LanduseClass::meadow => landuse::LanduseClass::Meadow,
            sql_types::LanduseClass::commercial => landuse::LanduseClass::Commercial,
            sql_types::LanduseClass::recreation_ground => landuse::LanduseClass::RecreationGround,
            sql_types::LanduseClass::retail => landuse::LanduseClass::Retail,
            sql_types::LanduseClass::military => landuse::LanduseClass::Military,
            sql_types::LanduseClass::quarry => landuse::LanduseClass::Quarry,
            sql_types::LanduseClass::orchard => landuse::LanduseClass::Orchard,
            sql_types::LanduseClass::vineyard => landuse::LanduseClass::Vineyard,
            sql_types::LanduseClass::scrub => landuse::LanduseClass::Scrub,
            sql_types::LanduseClass::grass => landuse::LanduseClass::Grass,
            sql_types::LanduseClass::heath => landuse::LanduseClass::Heath,
            sql_types::LanduseClass::farmland => landuse::LanduseClass::Farmland,
            sql_types::LanduseClass::farmyard => landuse::LanduseClass::Farmyard,
            sql_types::LanduseClass::landfill => landuse::LanduseClass::Landfill,
        }
    }
}

/// Storing a landuse class and reading it back gives the same value, both ways round.
pub proof fn lemma_landuse_class_conversion_round_trip(a: landuse::LanduseClass, b: sql_types::LanduseClass)
    ensures
        <landuse::LanduseClass as FromSpec<sql_types::LanduseClass>>::from_spec(<sql_types::LanduseClass as FromSpec<landuse::LanduseClass>>::from_spec(a)) == a,
        <sql_types::LanduseClass as FromSpec<landuse::LanduseClass>>::from_spec(<landuse::LanduseClass as FromSpec<sql_types::LanduseClass>>::from_spec(b)) == b,
{
}

} // verus!
