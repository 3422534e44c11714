//! Road classification of OpenStreetMap line features.
use crate::text::str_eq;
use vstd::prelude::*;

verus! {

/// Direction(s) in which a road may be travelled.
#[derive(Debug, Clone, Copy, PartialEq, Eq, Structural)]
pub enum OneWay {
    ForwardsOnly,
    BackwardsOnly,
    Bidirectional,
}

impl DeepView for OneWay {
    type V = OneWay;

    open spec fn deep_view(&self) -> OneWay {
        *self
    }
}

/// Coarse grouping of road classes.
#[derive(Debug, Clone, Copy, PartialEq, Eq, Hash, Structural)]
pub enum RoadClassCategory {
    /// Feature classes 511x.
    MajorRoads,
    /// Feature classes 512x.
    MinorRoads,
    /// Feature classes 513x.
    HighwayLinks,
    /// Feature classes 514x.
    VerySmallRoads,
    /// Feature classes 515x.
    PathsUnsuitableForCars,
    /// Feature class 5199.
    Unknown,
}

impl DeepView for RoadClassCategory {
    type V = RoadClassCategory;

    open spec fn deep_view(&self) -> RoadClassCategory {
        *self
    }
}

impl RoadClassCategory {
    /// The text under which the value is stored and displayed.
    pub open spec fn spec_name(self) -> Seq<char> {
        match self {
            RoadClassCategory::MajorRoads => "major_roads"@,
            RoadClassCategory::MinorRoads => "minor_roads"@,
            RoadClassCategory::HighwayLinks => "highway_links"@,
            RoadClassCategory::VerySmallRoads => "very_small_roads"@,
            RoadClassCategory::PathsUnsuitableForCars => "paths_unsuitable_for_cars"@,
            RoadClassCategory::Unknown => "unknown"@,
        }
    }

    /// The value whose name is `s`, if there is one.
    pub open spec fn spec_from_name(s: Seq<char>) -> Option<RoadClassCategory> {
        if s == "major_roads"@ {
            Some(RoadClassCategory::MajorRoads)
        } else if s == "minor_roads"@ {
            Some(RoadClassCategory::MinorRoads)
        } else if s == "highway_links"@ {
            Some(RoadClassCategory::HighwayLinks)
        } else if s == "very_small_roads"@ {
            Some(RoadClassCategory::VerySmallRoads)
        } else if s == "paths_unsuitable_for_cars"@ {
            Some(RoadClassCategory::PathsUnsuitableForCars)
        } else if s == "unknown"@ {
            Some(RoadClassCategory::Unknown)
        } else {
            None
        }
    }

    /// The text under which the value is stored and displayed.
    pub fn name(self) -> (r: &'static str)
        ensures
            r@ == self.spec_name(),
    {
        match self {
            RoadClassCategory::MajorRoads => "major_roads",
            RoadClassCategory::MinorRoads => "minor_roads",
            RoadClassCategory::HighwayLinks => "highway_links",
            RoadClassCategory::VerySmallRoads => "very_small_roads",
            RoadClassCategory::PathsUnsuitableForCars => "paths_unsuitable_for_cars",
            RoadClassCategory::Unknown => "unknown",
        }
    }

    /// Parses a name exactly as [`Self::name`] renders it; any other text gives `None`.
    pub fn from_name(s: &str) -> (r: Option<RoadClassCategory>)
        ensures
            r == RoadClassCategory::spec_from_name(s@),
    {
        if str_eq(s, "major_roads") {
            return Some(RoadClassCategory::MajorRoads);
        }
        if str_eq(s, "minor_roads") {
            return Some(RoadClassCategory::MinorRoads);
        }
        if str_eq(s, "highway_links") {
            return Some(RoadClassCategory::HighwayLinks);
        }
        if str_eq(s, "very_small_roads") {
            return Some(RoadClassCategory::VerySmallRoads);
        }
        if str_eq(s, "paths_unsuitable_for_cars") {
            return Some(RoadClassCategory::PathsUnsuitableForCars);
        }
        if str_eq(s, "unknown") {
            return Some(RoadClassCategory::Unknown);
        }
        None
    }
}

/// Every name identifies its value: parsing the name of `v` gives back `v`.
pub proof fn lemma_road_class_category_name_round_trip(v: RoadClassCategory)
    ensures
        RoadClassCategory::spec_from_name(v.spec_name()) == Some(v),
{
    reveal_strlit("major_roads");
    reveal_strlit("minor_roads");
    reveal_strlit("highway_links");
    reveal_strlit("very_small_roads");
    reveal_strlit("paths_unsuitable_for_cars");
    reveal_strlit("unknown");
    assert("major_roads"@.len() == 11);
    assert("minor_roads"@.len() == 11);
    assert("highway_links"@.len() == 13);
    assert("very_small_roads"@.len() == 16);
    assert("paths_unsuitable_for_cars"@.len() == 25);
    assert("unknown"@.len() == 7);
    assert("major_roads"@[1] != "minor_roads"@[1]);
}

/// Fine-grained road class (the `fclass` attribute).
#[derive(Debug, Clone, Copy, PartialEq, Eq, Hash, Structural)]
pub enum RoadClass {
    Motorway,
    Trunk,
    Primary,
    Secondary,
    Tertiary,
    Unclassified,
    Residential,
    LivingStreet,
    Pedestrian,
    Busway,
    MotorwayLink,
    TrunkLink,
    PrimaryLink,
    SecondaryLink,
    TertiaryLink,
    Service,
    Track,
    TrackGrade1,
    TrackGrade2,
    TrackGrade3,
    TrackGrade4,
    TrackGrade5,
    Bridleway,
    Cycleway,
    Footway,
    Path,
    Steps,
    Unknown,
}

impl DeepView for RoadClass {
    type V = RoadClass;

    open spec fn deep_view(&self) -> RoadClass {
        *self
    }
}

impl RoadClass {
    /// The text under which the value is stored and displayed.
    pub open spec fn spec_name(self) -> Seq<char> {
        match self {
            RoadClass::Motorway => "motorway"@,
            RoadClass::Trunk => "trunk"@,
            RoadClass::Primary => "primary"@,
            RoadClass::Secondary => "secondary"@,
            RoadClass::Tertiary => "tertiary"@,
            RoadClass::Unclassified => "unclassified"@,
            RoadClass::Residential => "residential"@,
            RoadClass::LivingStreet => "living_street"@,
            RoadClass::Pedestrian => "pedestrian"@,
            RoadClass::Busway => "busway"@,
            RoadClass::MotorwayLink => "motorway_link"@,
            RoadClass::TrunkLink => "trunk_link"@,
            RoadClass::PrimaryLink => "primary_link"@,
            RoadClass::SecondaryLink => "secondary_link"@,
            RoadClass::TertiaryLink => "tertiary_link"@,
            RoadClass::Service => "service"@,
            RoadClass::Track => "track"@,
            RoadClass::TrackGrade1 => "track_grade1"@,
            RoadClass::TrackGrade2 => "track_grade2"@,
            RoadClass::TrackGrade3 => "track_grade3"@,
            RoadClass::TrackGrade4 => "track_grade4"@,
            RoadClass::TrackGrade5 => "track_grade5"@,
            RoadClass::Bridleway => "bridleway"@,
            RoadClass::Cycleway => "cycleway"@,
            RoadClass::Footway => "footway"@,
            RoadClass::Path => "path"@,
            RoadClass::Steps => "steps"@,
            RoadClass::Unknown => "unknown"@,
        }
    }

    /// The value whose name is `s`, if there is one.
    pub open spec fn spec_from_name(s: Seq<char>) -> Option<RoadClass> {
        if s == "motorway"@ {
            Some(RoadClass::Motorway)
        } else if s == "trunk"@ {
            Some(RoadClass::Trunk)
        } else if s == "primary"@ {
            Some(RoadClass::Primary)
        } else if s == "secondary"@ {
            Some(RoadClass::Secondary)
        } else if s == "tertiary"@ {
            Some(RoadClass::Tertiary)
        } else if s == "unclassified"@ {
            Some(RoadClass::Unclassified)
        } else if s == "residential"@ {
            Some(RoadClass::Residential)
        } else if s == "living_street"@ {
            Some(RoadClass::LivingStreet)
        } else if s == "pedestrian"@ {
            Some(RoadClass::Pedestrian)
        } else if s == "busway"@ {
            Some(RoadClass::Busway)
        } else if s == "motorway_link"@ {
            Some(RoadClass::MotorwayLink)
        } else if s == "trunk_link"@ {
            Some(RoadClass::TrunkLink)
        } else if s == "primary_link"@ {
            Some(RoadClass::PrimaryLink)
        } else if s == "secondary_link"@ {
            Some(RoadClass::SecondaryLink)
        } else if s == "tertiary_link"@ {
            Some(RoadClass::TertiaryLink)
        } else if s == "service"@ {
            Some(RoadClass::Service)
        } else if s == "track"@ {
            Some(RoadClass::Track)
        } else if s == "track_grade1"@ {
            Some(RoadClass::TrackGrade1)
        } else if s == "track_grade2"@ {
            Some(RoadClass::TrackGrade2)
        } else if s == "track_grade3"@ {
            Some(RoadClass::TrackGrade3)
        } else if s == "track_grade4"@ {
            Some(RoadClass::TrackGrade4)
        } else if s == "track_grade5"@ {
            Some(RoadClass::TrackGrade5)
        } else if s == "bridleway"@ {
            Some(RoadClass::Bridleway)
        } else if s == "cycleway"@ {
            Some(RoadClass::Cycleway)
        } else if s == "footway"@ {
            Some(RoadClass::Footway)
        } else if s == "path"@ {
            Some(RoadClass::Path)
        } else if s == "steps"@ {
            Some(RoadClass::Steps)
        } else if s == "unknown"@ {
            Some(RoadClass::Unknown)
        } else {
            None
        }
    }

    /// The text under which the value is stored and displayed.
    pub fn name(self) -> (r: &'static str)
        ensures
            r@ == self.spec_name(),
    {
        match self {
            RoadClass::Motorway => "motorway",
            RoadClass::Trunk => "trunk",
            RoadClass::Primary => "primary",
            RoadClass::Secondary => "secondary",
            RoadClass::Tertiary => "tertiary",
            RoadClass::Unclassified => "unclassified",
            RoadClass::Residential => "residential",
            RoadClass::LivingStreet => "living_street",
            RoadClass::Pedestrian => "pedestrian",
            RoadClass::Busway => "busway",
            RoadClass::MotorwayLink => "motorway_link",
            RoadClass::TrunkLink => "trunk_link",
            RoadClass::PrimaryLink => "primary_link",
            RoadClass::SecondaryLink => "secondary_link",
            RoadClass::TertiaryLink => "tertiary_link",
            RoadClass::Service => "service",
            RoadClass::Track => "track",
            RoadClass::TrackGrade1 => "track_grade1",
            RoadClass::TrackGrade2 => "track_grade2",
            RoadClass::TrackGrade3 => "track_grade3",
            RoadClass::TrackGrade4 => "track_grade4",
            RoadClass::TrackGrade5 => "track_grade5",
            RoadClass::Bridleway => "bridleway",
            RoadClass::Cycleway => "cycleway",
            RoadClass::Footway => "footway",
            RoadClass::Path => "path",
            RoadClass::Steps => "steps",
            RoadClass::Unknown => "unknown",
        }
    }

    /// Parses a name exactly as [`Self::name`] renders it; any other text gives `None`.
    pub fn from_name(s: &str) -> (r: Option<RoadClass>)
        ensures
            r == RoadClass::spec_from_name(s@),
    {
        if str_eq(s, "motorway") {
            return Some(RoadClass::Motorway);
        }
        if str_eq(s, "trunk") {
            return Some(RoadClass::Trunk);
        }
        if str_eq(s, "primary") {
            return Some(RoadClass::Primary);
        }
        if str_eq(s, "secondary") {
            return Some(RoadClass::Secondary);
        }
        if str_eq(s, "tertiary") {
            return Some(RoadClass::Tertiary);
        }
        if str_eq(s, "unclassified") {
            return Some(RoadClass::Unclassified);
        }
        if str_eq(s, "residential") {
            return Some(RoadClass::Residential);
        }
        if str_eq(s, "living_street") {
            return Some(RoadClass::LivingStreet);
        }
        if str_eq(s, "pedestrian") {
            return Some(RoadClass::Pedestrian);
        }
        if str_eq(s, "busway") {
            return Some(RoadClass::Busway);
        }
        if str_eq(s, "motorway_link") {
            return Some(RoadClass::MotorwayLink);
        }
        if str_eq(s, "trunk_link") {
            return Some(RoadClass::TrunkLink);
        }
        if str_eq(s, "primary_link") {
            return Some(RoadClass::PrimaryLink);
        }
        if str_eq(s, "secondary_link") {
            return Some(RoadClass::SecondaryLink);
        }
        if str_eq(s, "tertiary_link") {
            return Some(RoadClass::TertiaryLink);
        }
        if str_eq(s, "service") {
            return Some(RoadClass::Service);
        }
        if str_eq(s, "track") {
            return Some(RoadClass::Track);
        }
        if str_eq(s, "track_grade1") {
            return Some(RoadClass::TrackGrade1);
        }
        if str_eq(s, "track_grade2") {
            return Some(RoadClass::TrackGrade2);
        }
        if str_eq(s, "track_grade3") {
            return Some(RoadClass::TrackGrade3);
        }
        if str_eq(s, "track_grade4") {
            return Some(RoadClass::TrackGrade4);
        }
        if str_eq(s, "track_grade5") {
            return Some(RoadClass::TrackGrade5);
        }
        if str_eq(s, "bridleway") {
            return Some(RoadClass::Bridleway);
        }
        if str_eq(s, "cycleway") {
            return Some(RoadClass::Cycleway);
        }
        if str_eq(s, "footway") {
            return Some(RoadClass::Footway);
        }
        if str_eq(s, "path") {
            return Some(RoadClass::Path);
        }
        if str_eq(s, "steps") {
            return Some(RoadClass::Steps);
        }
        if str_eq(s, "unknown") {
            return Some(RoadClass::Unknown);
        }
        None
    }
}

/// Every name identifies its value: parsing the name of `v` gives back `v`.
pub proof fn lemma_road_class_name_round_trip(v: RoadClass)
    ensures
        RoadClass::spec_from_name(v.spec_name()) == Some(v),
{
    reveal_strlit("motorway");
    reveal_strlit("trunk");
    reveal_strlit("primary");
    reveal_strlit("secondary");
    reveal_strlit("tertiary");
    reveal_strlit("unclassified");
    reveal_strlit("residential");
    reveal_strlit("living_street");
    reveal_strlit("pedestrian");
    reveal_strlit("busway");
    reveal_strlit("motorway_link");
    reveal_strlit("trunk_link");
    reveal_strlit("primary_link");
    reveal_strlit("secondary_link");
    reveal_strlit("tertiary_link");
    reveal_strlit("service");
    reveal_strlit("track");
    reveal_strlit("track_grade1");
    reveal_strlit("track_grade2");
    reveal_strlit("track_grade3");
    reveal_strlit("track_grade4");
    reveal_strlit("track_grade5");
    reveal_strlit("bridleway");
    reveal_strlit("cycleway");
    reveal_strlit("footway");
    reveal_strlit("path");
    reveal_strlit("steps");
    reveal_strlit("unknown");
    assert("motorway"@.len() == 8);
    assert("trunk"@.len() == 5);
    assert("primary"@.len() == 7);
    assert("secondary"@.len() == 9);
    assert("tertiary"@.len() == 8);
    assert("unclassified"@.len() == 12);
    assert("residential"@.len() == 11);
    assert("living_street"@.len() == 13);
    assert("pedestrian"@.len() == 10);
    assert("busway"@.len() == 6);
    assert("motorway_link"@.len() == 13);
    assert("trunk_link"@.len() == 10);
    assert("primary_link"@.len() == 12);
    assert("secondary_link"@.len() == 14);
    assert("tertiary_link"@.len() == 13);
    assert("service"@.len() == 7);
    assert("track"@.len() == 5);
    assert("track_grade1"@.len() == 12);
    assert("track_grade2"@.len() == 12);
    assert("track_grade3"@.len() == 12);
    assert("track_grade4"@.len() == 12);
    assert("track_grade5"@.len() == 12);
    assert("bridleway"@.len() == 9);
    assert("cycleway"@.len() == 8);
    assert("footway"@.len() == 7);
    assert("path"@.len() == 4);
    assert("steps"@.len() == 5);
    assert("unknown"@.len() == 7);
    assert("motorway"@[0] != "tertiary"@[0]);
    assert("motorway"@[0] != "cycleway"@[0]);
    assert("trunk"@[2] != "track"@[2]);
    assert("trunk"@[0] != "steps"@[0]);
    assert("primary"@[0] != "service"@[0]);
    assert("primary"@[0] != "footway"@[0]);
    assert("primary"@[0] != "unknown"@[0]);
    assert("secondary"@[0] != "bridleway"@[0]);
    assert("tertiary"@[0] != "cycleway"@[0]);
    assert("unclassified"@[0] != "primary_link"@[0]);
    assert("unclassified"@[0] != "track_grade1"@[0]);
    assert("unclassified"@[0] != "track_grade2"@[0]);
    assert("unclassified"@[0] != "track_grade3"@[0]);
    assert("unclassified"@[0] != "track_grade4"@[0]);
    assert("unclassified"@[0] != "track_grade5"@[0]);
    assert("living_street"@[0] != "motorway_link"@[0]);
    assert("living_street"@[0] != "tertiary_link"@[0]);
    assert("pedestrian"@[0] != "trunk_link"@[0]);
    assert("motorway_link"@[0] != "tertiary_link"@[0]);
    assert("primary_link"@[0] != "track_grade1"@[0]);
    assert("primary_link"@[0] != "track_grade2"@[0]);
    assert("primary_link"@[0] != "track_grade3"@[0]);
    assert("primary_link"@[0] != "track_grade4"@[0]);
    assert("primary_link"@[0] != "track_grade5"@[0]);
    assert("service"@[0] != "footway"@[0]);
    assert("service"@[0] != "unknown"@[0]);
    assert("track"@[0] != "steps"@[0]);
    assert("track_grade1"@[11] != "track_grade2"@[11]);
    assert("track_grade1"@[11] != "track_grade3"@[11]);
    assert("track_grade1"@[11] != "track_grade4"@[11]);
    assert("track_grade1"@[11] != "track_grade5"@[11]);
    assert("track_grade2"@[11] != "track_grade3"@[11]);
    assert("track_grade2"@[11] != "track_grade4"@[11]);
    assert("track_grade2"@[11] != "track_grade5"@[11]);
    assert("track_grade3"@[11] != "track_grade4"@[11]);
    assert("track_grade3"@[11] != "track_grade5"@[11]);
    assert("track_grade4"@[11] != "track_grade5"@[11]);
    assert("footway"@[0] != "unknown"@[0]);
}

impl RoadClass {
    /// The category a class belongs to.
    pub open spec fn spec_category(self) -> RoadClassCategory {
        match self {
            RoadClass::Motorway | RoadClass::Trunk | RoadClass::Primary | RoadClass::Secondary | RoadClass::Tertiary => RoadClassCategory::MajorRoads,
            RoadClass::Unclassified | RoadClass::Residential | RoadClass::LivingStreet | RoadClass::Pedestrian | RoadClass::Busway => RoadClassCategory::MinorRoads,
            RoadClass::MotorwayLink | RoadClass::TrunkLink | RoadClass::PrimaryLink | RoadClass::SecondaryLink | RoadClass::TertiaryLink => RoadClassCategory::HighwayLinks,
            RoadClass::Service | RoadClass::Track | RoadClass::TrackGrade1 | RoadClass::TrackGrade2 | RoadClass::TrackGrade3 | RoadClass::TrackGrade4 | RoadClass::TrackGrade5 => RoadClassCategory::VerySmallRoads,
            RoadClass::Bridleway | RoadClass::Cycleway | RoadClass::Footway | RoadClass::Path | RoadClass::Steps => RoadClassCategory::PathsUnsuitableForCars,
            RoadClass::Unknown => RoadClassCategory::Unknown,
        }
    }

    /// The category a class belongs to.
    pub fn category(self) -> (r: RoadClassCategory)
        ensures
            r == self.spec_category(),
    {
        match self {
            RoadClass::Motorway | RoadClass::Trunk | RoadClass::Primary | RoadClass::Secondary | RoadClass::Tertiary => RoadClassCategory::MajorRoads,
            RoadClass::Unclassified | RoadClass::Residential | RoadClass::LivingStreet | RoadClass::Pedestrian | RoadClass::Busway => RoadClassCategory::MinorRoads,
            RoadClass::MotorwayLink | RoadClass::TrunkLink | RoadClass::PrimaryLink | RoadClass::SecondaryLink | RoadClass::TertiaryLink => RoadClassCategory::HighwayLinks,
            RoadClass::Service | RoadClass::Track | RoadClass::TrackGrade1 | RoadClass::TrackGrade2 | RoadClass::TrackGrade3 | RoadClass::TrackGrade4 | RoadClass::TrackGrade5 => RoadClassCategory::VerySmallRoads,
            RoadClass::Bridleway | RoadClass::Cycleway | RoadClass::Footway | RoadClass::Path | RoadClass::Steps => RoadClassCategory::PathsUnsuitableForCars,
            RoadClass::Unknown => RoadClassCategory::Unknown,
        }
    }
}

proof fn lemma_not_suffix_at(s: Seq<char>, t: Seq<char>, k: int)
    requires
        0 <= k < t.len(),
        t.len() <= s.len() ==> s[s.len() - t.len() + k] != t[k],
    ensures
        !t.is_suffix_of(s),
{
    if t.is_suffix_of(s) {
        assert(s.subrange(s.len() - t.len(), s.len() as int)[k] == t[k]);
    }
}

proof fn lemma_not_prefix_at(s: Seq<char>, t: Seq<char>, k: int)
    requires
        0 <= k < t.len(),
        k < s.len() ==> s[k] != t[k],
    ensures
        !t.is_prefix_of(s),
{
    if t.is_prefix_of(s) {
        assert(s.subrange(0, t.len() as int)[k] == t[k]);
    }
}

/// The category of a class can be read off its name: only `unknown` is of the
/// unknown category, the highway links are exactly the classes whose name ends in
/// `_link`, and the very small roads are `service` and the classes whose name starts
/// with `track`.
pub proof fn lemma_category_by_name(c: RoadClass)
    ensures
        (c.spec_category() == RoadClassCategory::Unknown) <==> c == RoadClass::Unknown,
        (c.spec_category() == RoadClassCategory::HighwayLinks) <==> "_link"@.is_suffix_of(c.spec_name()),
        (c.spec_category() == RoadClassCategory::VerySmallRoads) <==> (c == RoadClass::Service
            || "track"@.is_prefix_of(c.spec_name())),
{
    reveal_strlit("major_roads");
    reveal_strlit("minor_roads");
    reveal_strlit("highway_links");
    reveal_strlit("very_small_roads");
    reveal_strlit("paths_unsuitable_for_cars");
    reveal_strlit("unknown");
    reveal_strlit("motorway");
    reveal_strlit("trunk");
    reveal_strlit("primary");
    reveal_strlit("secondary");
    reveal_strlit("tertiary");
    reveal_strlit("unclassified");
    reveal_strlit("residential");
    reveal_strlit("living_street");
    reveal_strlit("pedestrian");
    reveal_strlit("busway");
    reveal_strlit("motorway_link");
    reveal_strlit("trunk_link");
    reveal_strlit("primary_link");
    reveal_strlit("secondary_link");
    reveal_strlit("tertiary_link");
    reveal_strlit("service");
    reveal_strlit("track");
    reveal_strlit("track_grade1");
    reveal_strlit("track_grade2");
    reveal_strlit("track_grade3");
    reveal_strlit("track_grade4");
    reveal_strlit("track_grade5");
    reveal_strlit("bridleway");
    reveal_strlit("cycleway");
    reveal_strlit("footway");
    reveal_strlit("path");
    reveal_strlit("steps");
    reveal_strlit("_link");
    reveal_strlit("track");
    match c {
        RoadClass::Motorway => {
            lemma_not_suffix_at(c.spec_name(), "_link"@, 4);
            lemma_not_prefix_at(c.spec_name(), "track"@, 0);
        },
        RoadClass::Trunk => {
            lemma_not_suffix_at(c.spec_name(), "_link"@, 2);
            lemma_not_prefix_at(c.spec_name(), "track"@, 2);
        },
        RoadClass::Primary => {
            lemma_not_suffix_at(c.spec_name(), "_link"@, 4);
            lemma_not_prefix_at(c.spec_name(), "track"@, 0);
        },
        RoadClass::Secondary => {
            lemma_not_suffix_at(c.spec_name(), "_link"@, 4);
            lemma_not_prefix_at(c.spec_name(), "track"@, 0);
        },
        RoadClass::Tertiary => {
            lemma_not_suffix_at(c.spec_name(), "_link"@, 4);
            lemma_not_prefix_at(c.spec_name(), "track"@, 1);
        },
        RoadClass::Unclassified => {
            lemma_not_suffix_at(c.spec_name(), "_link"@, 4);
            lemma_not_prefix_at(c.spec_name(), "track"@, 0);
        },
        RoadClass::Residential => {
            lemma_not_suffix_at(c.spec_name(), "_link"@, 4);
            lemma_not_prefix_at(c.spec_name(), "track"@, 0);
        },
        RoadClass::LivingStreet => {
            lemma_not_suffix_at(c.spec_name(), "_link"@, 4);
            lemma_not_prefix_at(c.spec_name(), "track"@, 0);
        },
        RoadClass::Pedestrian => {
            lemma_not_suffix_at(c.spec_name(), "_link"@, 4);
            lemma_not_prefix_at(c.spec_name(), "track"@, 0);
        },
        RoadClass::Busway => {
            lemma_not_suffix_at(c.spec_name(), "_link"@, 4);
            lemma_not_prefix_at(c.spec_name(), "track"@, 0);
        },
        RoadClass::MotorwayLink => {
            assert(c.spec_name().subrange(8, 13) =~= "_link"@);
            lemma_not_prefix_at(c.spec_name(), "track"@, 0);
        },
        RoadClass::TrunkLink => {
            assert(c.spec_name().subrange(5, 10) =~= "_link"@);
            lemma_not_prefix_at(c.spec_name(), "track"@, 2);
        },
        RoadClass::PrimaryLink => {
            assert(c.spec_name().subrange(7, 12) =~= "_link"@);
            lemma_not_prefix_at(c.spec_name(), "track"@, 0);
        },
        RoadClass::SecondaryLink => {
            assert(c.spec_name().subrange(9, 14) =~= "_link"@);
            lemma_not_prefix_at(c.spec_name(), "track"@, 0);
        },
        RoadClass::TertiaryLink => {
            assert(c.spec_name().subrange(8, 13) =~= "_link"@);
            lemma_not_prefix_at(c.spec_name(), "track"@, 1);
        },
        RoadClass::Service => {
            lemma_not_suffix_at(c.spec_name(), "_link"@, 4);
            lemma_not_prefix_at(c.spec_name(), "track"@, 0);
        },
        RoadClass::Track => {
            lemma_not_suffix_at(c.spec_name(), "_link"@, 3);
            assert(c.spec_name().subrange(0, 5) =~= "track"@);
        },
        RoadClass::TrackGrade1 => {
            lemma_not_suffix_at(c.spec_name(), "_link"@, 4);
            assert(c.spec_name().subrange(0, 5) =~= "track"@);
        },
        RoadClass::TrackGrade2 => {
            lemma_not_suffix_at(c.spec_name(), "_link"@, 4);
            assert(c.spec_name().subrange(0, 5) =~= "track"@);
        },
        RoadClass::TrackGrade3 => {
            lemma_not_suffix_at(c.spec_name(), "_link"@, 4);
            assert(c.spec_name().subrange(0, 5) =~= "track"@);
        },
        RoadClass::TrackGrade4 => {
            lemma_not_suffix_at(c.spec_name(), "_link"@, 4);
            assert(c.spec_name().subrange(0, 5) =~= "track"@);
        },
        RoadClass::TrackGrade5 => {
            lemma_not_suffix_at(c.spec_name(), "_link"@, 4);
            assert(c.spec_name().subrange(0, 5) =~= "track"@);
        },
        RoadClass::Bridleway => {
            lemma_not_suffix_at(c.spec_name(), "_link"@, 4);
            lemma_not_prefix_at(c.spec_name(), "track"@, 0);
        },
        RoadClass::Cycleway => {
            lemma_not_suffix_at(c.spec_name(), "_link"@, 4);
            lemma_not_prefix_at(c.spec_name(), "track"@, 0);
        },
        RoadClass::Footway => {
            lemma_not_suffix_at(c.spec_name(), "_link"@, 4);
            lemma_not_prefix_at(c.spec_name(), "track"@, 0);
        },
        RoadClass::Path => {
            lemma_not_suffix_at(c.spec_name(), "_link"@, 0);
            lemma_not_prefix_at(c.spec_name(), "track"@, 0);
        },
        RoadClass::Steps => {
            lemma_not_suffix_at(c.spec_name(), "_link"@, 4);
            lemma_not_prefix_at(c.spec_name(), "track"@, 0);
        },
        RoadClass::Unknown => {
            lemma_not_suffix_at(c.spec_name(), "_link"@, 4);
            lemma_not_prefix_at(c.spec_name(), "track"@, 0);
        },
    }
}

/// Every category is the category of some class.
pub proof fn lemma_every_category_has_a_class(cat: RoadClassCategory)
    ensures
        exists|c: RoadClass| #[trigger] c.spec_category() == cat,
{
    match cat {
        RoadClassCategory::MajorRoads => assert(RoadClass::Motorway.spec_category() == cat),
        RoadClassCategory::MinorRoads => assert(RoadClass::Residential.spec_category() == cat),
        RoadClassCategory::HighwayLinks => assert(RoadClass::MotorwayLink.spec_category() == cat),
        RoadClassCategory::VerySmallRoads => assert(RoadClass::Service.spec_category() == cat),
        RoadClassCategory::PathsUnsuitableForCars => assert(RoadClass::Path.spec_category() == cat),
        RoadClassCategory::Unknown => assert(RoadClass::Unknown.spec_category() == cat),
    }
}

/// Every category holds exactly its classes: the major roads are motorway, trunk,
/// primary, secondary and tertiary; the minor roads unclassified, residential,
/// living street, pedestrian and busway; the highway links the five `_link` classes;
/// the very small roads service and the six track classes; the paths unsuitable for
/// cars bridleway, cycleway, footway, path and steps; and only unknown is unknown.
pub proof fn lemma_category_members(c: RoadClass)
    ensures
        (c.spec_category() == RoadClassCategory::MajorRoads) <==> (c == RoadClass::Motorway || c
            == RoadClass::Trunk || c == RoadClass::Primary || c == RoadClass::Secondary || c
            == RoadClass::Tertiary),
        (c.spec_category() == RoadClassCategory::MinorRoads) <==> (c == RoadClass::Unclassified || c
            == RoadClass::Residential || c == RoadClass::LivingStreet || c == RoadClass::Pedestrian || c
            == RoadClass::Busway),
        (c.spec_category() == RoadClassCategory::HighwayLinks) <==> (c == RoadClass::MotorwayLink || c
            == RoadClass::TrunkLink || c == RoadClass::PrimaryLink || c == RoadClass::SecondaryLink || c
            == RoadClass::TertiaryLink),
        (c.spec_category() == RoadClassCategory::VerySmallRoads) <==> (c == RoadClass::Service || c
            == RoadClass::Track || c == RoadClass::TrackGrade1 || c == RoadClass::TrackGrade2 || c
            == RoadClass::TrackGrade3 || c == RoadClass::TrackGrade4 || c == RoadClass::TrackGrade5),
        (c.spec_category() == RoadClassCategory::PathsUnsuitableForCars) <==> (c == RoadClass::Bridleway
            || c == RoadClass::Cycleway || c == RoadClass::Footway || c == RoadClass::Path || c
            == RoadClass::Steps),
        (c.spec_category() == RoadClassCategory::Unknown) <==> c == RoadClass::Unknown,
{
}

} // verus!
