//! Database enum types and their text encoding.
use crate::text::{str_eq, utf8_str};
use vstd::prelude::*;
use vstd::utf8::*;

verus! {

/// An enum that the database stores as one of a fixed set of labels.
pub trait SqlEnum: Sized {
    /// The label under which the value is stored.
    spec fn spec_sql_label(self) -> Seq<char>;

    /// The value stored under `s`, if any.
    spec fn spec_from_sql_label(s: Seq<char>) -> Option<Self>;

    /// The name of the database type.
    spec fn spec_db_type_name() -> Seq<char>;

    /// The number of labels of the database type.
    spec fn spec_label_count() -> nat;

    /// The label under which the value is stored.
    fn sql_label(&self) -> (r: &'static str)
        ensures
            r@ == self.spec_sql_label(),
    ;

    /// The value stored under `s`, if any.
    fn from_sql_label(s: &str) -> (r: Option<Self>)
        ensures
            r == Self::spec_from_sql_label(s@),
    ;

    /// The name of the database type.
    fn db_type_name() -> (r: &'static str)
        ensures
            r@ == Self::spec_db_type_name(),
    ;

    /// The number of labels of the database type.
    fn label_count() -> (r: usize)
        ensures
            r == Self::spec_label_count(),
    ;

    /// Each label is read back as the value it was written for.
    proof fn lemma_label_round_trip(v: Self)
        ensures
            Self::spec_from_sql_label(v.spec_sql_label()) == Some(v),
    ;
}

/// Why stored bytes could not be read as an enum value.
#[derive(Debug)]
pub enum SqlEnumDecodeError {
    /// The bytes are not UTF-8.
    InvalidUtf8,
    /// The text is not one of the labels; it is kept for the message.
    InvalidVariant(String),
}

/// The outcome of decoding, with text taken by its characters.
pub enum SqlDecodeOutcome<E> {
    Decoded(E),
    InvalidUtf8,
    InvalidVariant(Seq<char>),
}

/// What decoding `bytes` gives.
pub open spec fn spec_decode_sql<E: SqlEnum>(bytes: Seq<u8>) -> SqlDecodeOutcome<E> {
    if !valid_utf8(bytes) {
        SqlDecodeOutcome::InvalidUtf8
    } else {
        match E::spec_from_sql_label(decode_utf8(bytes)) {
            Some(e) => SqlDecodeOutcome::Decoded(e),
            None => SqlDecodeOutcome::InvalidVariant(decode_utf8(bytes)),
        }
    }
}

/// The outcome that a decoding result stands for.
pub open spec fn decode_result_outcome<E>(r: Result<E, SqlEnumDecodeError>) -> SqlDecodeOutcome<E> {
    match r {
        Ok(e) => SqlDecodeOutcome::Decoded(e),
        Err(SqlEnumDecodeError::InvalidUtf8) => SqlDecodeOutcome::InvalidUtf8,
        Err(SqlEnumDecodeError::InvalidVariant(s)) => SqlDecodeOutcome::InvalidVariant(s@),
    }
}

/// Reads a value from the bytes the database sent for it.
pub fn decode_sql<E: SqlEnum>(buf: &[u8]) -> (r: Result<E, SqlEnumDecodeError>)
    ensures
        decode_result_outcome(r) == spec_decode_sql::<E>(buf@),
{
    match utf8_str(buf) {
        None => Err(SqlEnumDecodeError::InvalidUtf8),
        Some(s) => match E::from_sql_label(s) {
            Some(e) => Ok(e),
            None => Err(SqlEnumDecodeError::InvalidVariant(s.to_owned())),
        },
    }
}

/// Whether a database type is the enum type that `E` stands for: same name, an enum
/// with as many labels, each of them known.
pub open spec fn spec_accepts_sql_type<E: SqlEnum>(
    db_type: Seq<char>,
    enum_labels: Option<Seq<Seq<char>>>,
) -> bool {
    &&& db_type == E::spec_db_type_name()
    &&& enum_labels is Some
    &&& enum_labels.unwrap().len() == E::spec_label_count()
    &&& forall|i: int|
        0 <= i < enum_labels.unwrap().len() ==> (#[trigger] E::spec_from_sql_label(
            enum_labels.unwrap()[i],
        )) is Some
}

/// The labels of a database enum type, taken by their characters.
pub open spec fn labels_view(labels: Option<&Vec<String>>) -> Option<Seq<Seq<char>>> {
    match labels {
        Some(v) => Some(v@.map_values(|s: String| s@)),
        None => None,
    }
}

/// Decides whether `E` can be read from and written to a database type called
/// `db_type`, whose labels are `enum_labels` when it is an enum type.
pub fn accepts_sql_type<E: SqlEnum>(db_type: &str, enum_labels: Option<&Vec<String>>) -> (r: bool)
    ensures
        r == spec_accepts_sql_type::<E>(db_type@, labels_view(enum_labels)),
{
    if !str_eq(db_type, E::db_type_name()) {
        return false;
    }
    let labels = match enum_labels {
        Some(labels) => labels,
        None => return false,
    };
    let ghost lv = labels@.map_values(|s: String| s@);
    if labels.len() != E::label_count() {
        return false;
    }
    let mut i: usize = 0;
    while i < labels.len()
        invariant
            i <= labels.len(),
            enum_labels == Some(labels),
            lv == labels@.map_values(|s: String| s@),
            forall|k: int| 0 <= k < i ==> (#[trigger] E::spec_from_sql_label(lv[k])) is Some,
        decreases labels.len() - i,
    {
        assert(lv[i as int] == labels@[i as int]@);
        if E::from_sql_label(labels[i].as_str()).is_none() {
            assert(labels_view(enum_labels).unwrap()[i as int] == lv[i as int]);
            return false;
        }
        i += 1;
    }
    true
}

/// Writing a value as the UTF-8 bytes of its label and reading them back gives the value.
pub proof fn lemma_sql_encode_decode<E: SqlEnum>(v: E)
    ensures
        spec_decode_sql::<E>(encode_utf8(v.spec_sql_label())) == SqlDecodeOutcome::Decoded(v),
{
    encode_utf8_valid_utf8(v.spec_sql_label());
    encode_utf8_decode_utf8(v.spec_sql_label());
    E::lemma_label_round_trip(v);
}


/// Road class as the database stores it.
#[derive(Debug, Clone, Copy, PartialEq, Eq, Hash, Structural)]
#[allow(non_camel_case_types)]
pub enum RoadClass {
    motorway,
    trunk,
    primary,
    secondary,
    tertiary,
    unclassified,
    residential,
    living_street,
    pedestrian,
    busway,
    motorway_link,
    trunk_link,
    primary_link,
    secondary_link,
    tertiary_link,
    service,
    track,
    track_grade1,
    track_grade2,
    track_grade3,
    track_grade4,
    track_grade5,
    bridleway,
    cycleway,
    footway,
    path,
    steps,
    unknown,
}

impl DeepView for RoadClass {
    type V = RoadClass;

    open spec fn deep_view(&self) -> RoadClass {
        *self
    }
}

impl RoadClass {
    /// The text under which the value is stored and displayed.
    pub open spec fn spec_name(self) -> Seq<char> {
        match self {
            RoadClass::motorway => "motorway"@,
            RoadClass::trunk => "trunk"@,
            RoadClass::primary => "primary"@,
            RoadClass::secondary => "secondary"@,
            RoadClass::tertiary => "tertiary"@,
            RoadClass::unclassified => "unclassified"@,
            RoadClass::residential => "residential"@,
            RoadClass::living_street => "living_street"@,
            RoadClass::pedestrian => "pedestrian"@,
            RoadClass::busway => "busway"@,
            RoadClass::motorway_link => "motorway_link"@,
            RoadClass::trunk_link => "trunk_link"@,
            RoadClass::primary_link => "primary_link"@,
            RoadClass::secondary_link => "secondary_link"@,
            RoadClass::tertiary_link => "tertiary_link"@,
            RoadClass::service => "service"@,
            RoadClass::track => "track"@,
            RoadClass::track_grade1 => "track_grade1"@,
            RoadClass::track_grade2 => "track_grade2"@,
            RoadClass::track_grade3 => "track_grade3"@,
            RoadClass::track_grade4 => "track_grade4"@,
            RoadClass::track_grade5 => "track_grade5"@,
            RoadClass::bridleway => "bridleway"@,
            RoadClass::cycleway => "cycleway"@,
            RoadClass::footway => "footway"@,
            RoadClass::path => "path"@,
            RoadClass::steps => "steps"@,
            RoadClass::unknown => "unknown"@,
        }
    }

    /// The value whose name is `s`, if there is one.
    pub open spec fn spec_from_name(s: Seq<char>) -> Option<RoadClass> {
        if s == "motorway"@ {
            Some(RoadClass::motorway)
        } else if s == "trunk"@ {
            Some(RoadClass::trunk)
        } else if s == "primary"@ {
            Some(RoadClass::primary)
        } else if s == "secondary"@ {
            Some(RoadClass::secondary)
        } else if s == "tertiary"@ {
            Some(RoadClass::tertiary)
        } else if s == "unclassified"@ {
            Some(RoadClass::unclassified)
        } else if s == "residential"@ {
            Some(RoadClass::residential)
        } else if s == "living_street"@ {
            Some(RoadClass::living_street)
        } else if s == "pedestrian"@ {
            Some(RoadClass::pedestrian)
        } else if s == "busway"@ {
            Some(RoadClass::busway)
        } else if s == "motorway_link"@ {
            Some(RoadClass::motorway_link)
        } else if s == "trunk_link"@ {
            Some(RoadClass::trunk_link)
        } else if s == "primary_link"@ {
            Some(RoadClass::primary_link)
        } else if s == "secondary_link"@ {
            Some(RoadClass::secondary_link)
        } else if s == "tertiary_link"@ {
            Some(RoadClass::tertiary_link)
        } else if s == "service"@ {
            Some(RoadClass::service)
        } else if s == "track"@ {
            Some(RoadClass::track)
        } else if s == "track_grade1"@ {
            Some(RoadClass::track_grade1)
        } else if s == "track_grade2"@ {
            Some(RoadClass::track_grade2)
        } else if s == "track_grade3"@ {
            Some(RoadClass::track_grade3)
        } else if s == "track_grade4"@ {
            Some(RoadClass::track_grade4)
        } else if s == "track_grade5"@ {
            Some(RoadClass::track_grade5)
        } else if s == "bridleway"@ {
            Some(RoadClass::bridleway)
        } else if s == "cycleway"@ {
            Some(RoadClass::cycleway)
        } else if s == "footway"@ {
            Some(RoadClass::footway)
        } else if s == "path"@ {
            Some(RoadClass::path)
        } else if s == "steps"@ {
            Some(RoadClass::steps)
        } else if s == "unknown"@ {
            Some(RoadClass::unknown)
        } else {
            None
        }
    }

    /// The text under which the value is stored and displayed.
    pub fn name(self) -> (r: &'static str)
        ensures
            r@ == self.spec_name(),
    {
        match self {
            RoadClass::motorway => "motorway",
            RoadClass::trunk => "trunk",
            RoadClass::primary => "primary",
            RoadClass::secondary => "secondary",
            RoadClass::tertiary => "tertiary",
            RoadClass::unclassified => "unclassified",
            RoadClass::residential => "residential",
            RoadClass::living_street => "living_street",
            RoadClass::pedestrian => "pedestrian",
            RoadClass::busway => "busway",
            RoadClass::motorway_link => "motorway_link",
            RoadClass::trunk_link => "trunk_link",
            RoadClass::primary_link => "primary_link",
            RoadClass::secondary_link => "secondary_link",
            RoadClass::tertiary_link => "tertiary_link",
            RoadClass::service => "service",
            RoadClass::track => "track",
            RoadClass::track_grade1 => "track_grade1",
            RoadClass::track_grade2 => "track_grade2",
            RoadClass::track_grade3 => "track_grade3",
            RoadClass::track_grade4 => "track_grade4",
            RoadClass::track_grade5 => "track_grade5",
            RoadClass::bridleway => "bridleway",
            RoadClass::cycleway => "cycleway",
            RoadClass::footway => "footway",
            RoadClass::path => "path",
            RoadClass::steps => "steps",
            RoadClass::unknown => "unknown",
        }
    }

    /// Parses a name exactly as [`Self::name`] renders it; any other text gives `None`.
    pub fn from_name(s: &str) -> (r: Option<RoadClass>)
        ensures
            r == RoadClass::spec_from_name(s@),
    {
        if str_eq(s, "motorway") {
            return Some(RoadClass::motorway);
        }
        if str_eq(s, "trunk") {
            return Some(RoadClass::trunk);
        }
        if str_eq(s, "primary") {
            return Some(RoadClass::primary);
        }
        if str_eq(s, "secondary") {
            return Some(RoadClass::secondary);
        }
        if str_eq(s, "tertiary") {
            return Some(RoadClass::tertiary);
        }
        if str_eq(s, "unclassified") {
            return Some(RoadClass::unclassified);
        }
        if str_eq(s, "residential") {
            return Some(RoadClass::residential);
        }
        if str_eq(s, "living_street") {
            return Some(RoadClass::living_street);
        }
        if str_eq(s, "pedestrian") {
            return Some(RoadClass::pedestrian);
        }
        if str_eq(s, "busway") {
            return Some(RoadClass::busway);
        }
        if str_eq(s, "motorway_link") {
            return Some(RoadClass::motorway_link);
        }
        if str_eq(s, "trunk_link") {
            return Some(RoadClass::trunk_link);
        }
        if str_eq(s, "primary_link") {
            return Some(RoadClass::primary_link);
        }
        if str_eq(s, "secondary_link") {
            return Some(RoadClass::secondary_link);
        }
        if str_eq(s, "tertiary_link") {
            return Some(RoadClass::tertiary_link);
        }
        if str_eq(s, "service") {
            return Some(RoadClass::service);
        }
        if str_eq(s, "track") {
            return Some(RoadClass::track);
        }
        if str_eq(s, "track_grade1") {
            return Some(RoadClass::track_grade1);
        }
        if str_eq(s, "track_grade2") {
            return Some(RoadClass::track_grade2);
        }
        if str_eq(s, "track_grade3") {
            return Some(RoadClass::track_grade3);
        }
        if str_eq(s, "track_grade4") {
            return Some(RoadClass::track_grade4);
        }
        if str_eq(s, "track_grade5") {
            return Some(RoadClass::track_grade5);
        }
        if str_eq(s, "bridleway") {
            return Some(RoadClass::bridleway);
        }
        if str_eq(s, "cycleway") {
            return Some(RoadClass::cycleway);
        }
        if str_eq(s, "footway") {
            return Some(RoadClass::footway);
        }
        if str_eq(s, "path") {
            return Some(RoadClass::path);
        }
        if str_eq(s, "steps") {
            return Some(RoadClass::steps);
        }
        if str_eq(s, "unknown") {
            return Some(RoadClass::unknown);
        }
        None
    }
}

/// Every name identifies its value: parsing the name of `v` gives back `v`.
pub proof fn lemma_road_class_name_round_trip(v: RoadClass)
    ensures
        RoadClass::spec_from_name(v.spec_name()) == Some(v),
{
    reveal_strlit("motorway");
    reveal_strlit("trunk");
    reveal_strlit("primary");
    reveal_strlit("secondary");
    reveal_strlit("tertiary");
    reveal_strlit("unclassified");
    reveal_strlit("residential");
    reveal_strlit("living_street");
    reveal_strlit("pedestrian");
    reveal_strlit("busway");
    reveal_strlit("motorway_link");
    reveal_strlit("trunk_link");
    reveal_strlit("primary_link");
    reveal_strlit("secondary_link");
    reveal_strlit("tertiary_link");
    reveal_strlit("service");
    reveal_strlit("track");
    reveal_strlit("track_grade1");
    reveal_strlit("track_grade2");
    reveal_strlit("track_grade3");
    reveal_strlit("track_grade4");
    reveal_strlit("track_grade5");
    reveal_strlit("bridleway");
    reveal_strlit("cycleway");
    reveal_strlit("footway");
    reveal_strlit("path");
    reveal_strlit("steps");
    reveal_strlit("unknown");
    assert("motorway"@.len() == 8);
    assert("trunk"@.len() == 5);
    assert("primary"@.len() == 7);
    assert("secondary"@.len() == 9);
    assert("tertiary"@.len() == 8);
    assert("unclassified"@.len() == 12);
    assert("residential"@.len() == 11);
    assert("living_street"@.len() == 13);
    assert("pedestrian"@.len() == 10);
    assert("busway"@.len() == 6);
    assert("motorway_link"@.len() == 13);
    assert("trunk_link"@.len() == 10);
    assert("primary_link"@.len() == 12);
    assert("secondary_link"@.len() == 14);
    assert("tertiary_link"@.len() == 13);
    assert("service"@.len() == 7);
    assert("track"@.len() == 5);
    assert("track_grade1"@.len() == 12);
    assert("track_grade2"@.len() == 12);
    assert("track_grade3"@.len() == 12);
    assert("track_grade4"@.len() == 12);
    assert("track_grade5"@.len() == 12);
    assert("bridleway"@.len() == 9);
    assert("cycleway"@.len() == 8);
    assert("footway"@.len() == 7);
    assert("path"@.len() == 4);
    assert("steps"@.len() == 5);
    assert("unknown"@.len() == 7);
    assert("motorway"@[0] != "tertiary"@[0]);
    assert("motorway"@[0] != "cycleway"@[0]);
    assert("trunk"@[2] != "track"@[2]);
    assert("trunk"@[0] != "steps"@[0]);
    assert("primary"@[0] != "service"@[0]);
    assert("primary"@[0] != "footway"@[0]);
    assert("primary"@[0] != "unknown"@[0]);
    assert("secondary"@[0] != "bridleway"@[0]);
    assert("tertiary"@[0] != "cycleway"@[0]);
    assert("unclassified"@[0] != "primary_link"@[0]);
    assert("unclassified"@[0] != "track_grade1"@[0]);
    assert("unclassified"@[0] != "track_grade2"@[0]);
    assert("unclassified"@[0] != "track_grade3"@[0]);
    assert("unclassified"@[0] != "track_grade4"@[0]);
    assert("unclassified"@[0] != "track_grade5"@[0]);
    assert("living_street"@[0] != "motorway_link"@[0]);
    assert("living_street"@[0] != "tertiary_link"@[0]);
    assert("pedestrian"@[0] != "trunk_link"@[0]);
    assert("motorway_link"@[0] != "tertiary_link"@[0]);
    assert("primary_link"@[0] != "track_grade1"@[0]);
    assert("primary_link"@[0] != "track_grade2"@[0]);
    assert("primary_link"@[0] != "track_grade3"@[0]);
    assert("primary_link"@[0] != "track_grade4"@[0]);
    assert("primary_link"@[0] != "track_grade5"@[0]);
    assert("service"@[0] != "footway"@[0]);
    assert("service"@[0] != "unknown"@[0]);
    assert("track"@[0] != "steps"@[0]);
    assert("track_grade1"@[11] != "track_grade2"@[11]);
    assert("track_grade1"@[11] != "track_grade3"@[11]);
    assert("track_grade1"@[11] != "track_grade4"@[11]);
    assert("track_grade1"@[11] != "track_grade5"@[11]);
    assert("track_grade2"@[11] != "track_grade3"@[11]);
    assert("track_grade2"@[11] != "track_grade4"@[11]);
    assert("track_grade2"@[11] != "track_grade5"@[11]);
    assert("track_grade3"@[11] != "track_grade4"@[11]);
    assert("track_grade3"@[11] != "track_grade5"@[11]);
    assert("track_grade4"@[11] != "track_grade5"@[11]);
    assert("footway"@[0] != "unknown"@[0]);
}

impl SqlEnum for RoadClass {
    open spec fn spec_sql_label(self) -> Seq<char> {
        self.spec_name()
    }

    open spec fn spec_from_sql_label(s: Seq<char>) -> Option<Self> {
        RoadClass::spec_from_name(s)
    }

    open spec fn spec_db_type_name() -> Seq<char> {
        "road_class"@
    }

    open spec fn spec_label_count() -> nat {
        28
    }

    fn sql_label(&self) -> (r: &'static str) {
        self.name()
    }

    fn from_sql_label(s: &str) -> (r: Option<Self>) {
        RoadClass::from_name(s)
    }

    fn db_type_name() -> (r: &'static str) {
        "road_class"
    }

    fn label_count() -> (r: usize) {
        28
    }

    proof fn lemma_label_round_trip(v: Self) {
        lemma_road_class_name_round_trip(v);
    }
}

/// Road class category as the database stores it.
#[derive(Debug, Clone, Copy, PartialEq, Eq, Hash, Structural)]
#[allow(non_camel_case_types)]
pub enum RoadClassCategory {
    major_roads,
    minor_roads,
    highway_links,
    very_small_roads,
    paths_unsuitable_for_cars,
    unknown,
}

impl DeepView for RoadClassCategory {
    type V = RoadClassCategory;

    open spec fn deep_view(&self) -> RoadClassCategory {
        *self
    }
}

impl RoadClassCategory {
    /// The text under which the value is stored and displayed.
    pub open spec fn spec_name(self) -> Seq<char> {
        match self {
            RoadClassCategory::major_roads => "major_roads"@,
            RoadClassCategory::minor_roads => "minor_roads"@,
            RoadClassCategory::highway_links => "highway_links"@,
            RoadClassCategory::very_small_roads => "very_small_roads"@,
            RoadClassCategory::paths_unsuitable_for_cars => "paths_unsuitable_for_cars"@,
            RoadClassCategory::unknown => "unknown"@,
        }
    }

    /// The value whose name is `s`, if there is one.
    pub open spec fn spec_from_name(s: Seq<char>) -> Option<RoadClassCategory> {
        if s == "major_roads"@ {
            Some(RoadClassCategory::major_roads)
        } else if s == "minor_roads"@ {
            Some(RoadClassCategory::minor_roads)
        } else if s == "highway_links"@ {
            Some(RoadClassCategory::highway_links)
        } else if s == "very_small_roads"@ {
            Some(RoadClassCategory::very_small_roads)
        } else if s == "paths_unsuitable_for_cars"@ {
            Some(RoadClassCategory::paths_unsuitable_for_cars)
        } else if s == "unknown"@ {
            Some(RoadClassCategory::unknown)
        } else {
            None
        }
    }

    /// The text under which the value is stored and displayed.
    pub fn name(self) -> (r: &'static str)
        ensures
            r@ == self.spec_name(),
    {
        match self {
            RoadClassCategory::major_roads => "major_roads",
            RoadClassCategory::minor_roads => "minor_roads",
            RoadClassCategory::highway_links => "highway_links",
            RoadClassCategory::very_small_roads => "very_small_roads",
            RoadClassCategory::paths_unsuitable_for_cars => "paths_unsuitable_for_cars",
            RoadClassCategory::unknown => "unknown",
        }
    }

    /// Parses a name exactly as [`Self::name`] renders it; any other text gives `None`.
    pub fn from_name(s: &str) -> (r: Option<RoadClassCategory>)
        ensures
            r == RoadClassCategory::spec_from_name(s@),
    {
        if str_eq(s, "major_roads") {
            return Some(RoadClassCategory::major_roads);
        }
        if str_eq(s, "minor_roads") {
            return Some(RoadClassCategory::minor_roads);
        }
        if str_eq(s, "highway_links") {
            return Some(RoadClassCategory::highway_links);
        }
        if str_eq(s, "very_small_roads") {
            return Some(RoadClassCategory::very_small_roads);
        }
        if str_eq(s, "paths_unsuitable_for_cars") {
            return Some(RoadClassCategory::paths_unsuitable_for_cars);
        }
        if str_eq(s, "unknown") {
            return Some(RoadClassCategory::unknown);
        }
        None
    }
}

/// Every name identifies its value: parsing the name of `v` gives back `v`.
pub proof fn lemma_road_class_category_name_round_trip(v: RoadClassCategory)
    ensures
        RoadClassCategory::spec_from_name(v.spec_name()) == Some(v),
{
    reveal_strlit("major_roads");
    reveal_strlit("minor_roads");
    reveal_strlit("highway_links");
    reveal_strlit("very_small_roads");
    reveal_strlit("paths_unsuitable_for_cars");
    reveal_strlit("unknown");
    assert("major_roads"@.len() == 11);
    assert("minor_roads"@.len() == 11);
    assert("highway_links"@.len() == 13);
    assert("very_small_roads"@.len() == 16);
    assert("paths_unsuitable_for_cars"@.len() == 25);
    assert("unknown"@.len() == 7);
    assert("major_roads"@[1] != "minor_roads"@[1]);
}

impl SqlEnum for RoadClassCategory {
    open spec fn spec_sql_label(self) -> Seq<char> {
        self.spec_name()
    }

    open spec fn spec_from_sql_label(s: Seq<char>) -> Option<Self> {
        RoadClassCategory::spec_from_name(s)
    }

    open spec fn spec_db_type_name() -> Seq<char> {
        "road_class_category"@
    }

    open spec fn spec_label_count() -> nat {
        6
    }

    fn sql_label(&self) -> (r: &'static str) {
        self.name()
    }

    fn from_sql_label(s: &str) -> (r: Option<Self>) {
        RoadClassCategory::from_name(s)
    }

    fn db_type_name() -> (r: &'static str) {
        "road_class_category"
    }

    fn label_count() -> (r: usize) {
        6
    }

    proof fn lemma_label_round_trip(v: Self) {
        lemma_road_class_category_name_round_trip(v);
    }
}

/// Travel direction as the database stores it.
#[derive(Debug, Clone, Copy, PartialEq, Eq, Hash, Structural)]
#[allow(non_camel_case_types)]
pub enum RoadOneway {
    forwards_only,
    backwards_only,
    bidirectional,
}

impl DeepView for RoadOneway {
    type V = RoadOneway;

    open spec fn deep_view(&self) -> RoadOneway {
        *self
    }
}

impl RoadOneway {
    /// The text under which the value is stored and displayed.
    pub open spec fn spec_name(self) -> Seq<char> {
        match self {
            RoadOneway::forwards_only => "forwards_only"@,
            RoadOneway::backwards_only => "backwards_only"@,
            RoadOneway::bidirectional => "bidirectional"@,
        }
    }

    /// The value whose name is `s`, if there is one.
    pub open spec fn spec_from_name(s: Seq<char>) -> Option<RoadOneway> {
        if s == "forwards_only"@ {
            Some(RoadOneway::forwards_only)
        } else if s == "backwards_only"@ {
            Some(RoadOneway::backwards_only)
        } else if s == "bidirectional"@ {
            Some(RoadOneway::bidirectional)
        } else {
            None
        }
    }

    /// The text under which the value is stored and displayed.
    pub fn name(self) -> (r: &'static str)
        ensures
            r@ == self.spec_name(),
    {
        match self {
            RoadOneway::forwards_only => "forwards_only",
            RoadOneway::backwards_only => "backwards_only",
            RoadOneway::bidirectional => "bidirectional",
        }
    }

    /// Parses a name exactly as [`Self::name`] renders it; any other text gives `None`.
    pub fn from_name(s: &str) -> (r: Option<RoadOneway>)
        ensures
            r == RoadOneway::spec_from_name(s@),
    {
        if str_eq(s, "forwards_only") {
            return Some(RoadOneway::forwards_only);
        }
        if str_eq(s, "backwards_only") {
            return Some(RoadOneway::backwards_only);
        }
        if str_eq(s, "bidirectional") {
            return Some(RoadOneway::bidirectional);
        }
        None
    }
}

/// Every name identifies its value: parsing the name of `v` gives back `v`.
pub proof fn lemma_road_oneway_name_round_trip(v: RoadOneway)
    ensures
        RoadOneway::spec_from_name(v.spec_name()) == Some(v),
{
    reveal_strlit("forwards_only");
    reveal_strlit("backwards_only");
    reveal_strlit("bidirectional");
    assert("forwards_only"@.len() == 13);
    assert("backwards_only"@.len() == 14);
    assert("bidirectional"@.len() == 13);
    assert("forwards_only"@[0] != "bidirectional"@[0]);
}

impl SqlEnum for RoadOneway {
    open spec fn spec_sql_label(self) -> Seq<char> {
        self.spec_name()
    }

    open spec fn spec_from_sql_label(s: Seq<char>) -> Option<Self> {
        RoadOneway::spec_from_name(s)
    }

    open spec fn spec_db_type_name() -> Seq<char> {
        "road_oneway"@
    }

    open spec fn spec_label_count() -> nat {
        3
    }

    fn sql_label(&self) -> (r: &'static str) {
        self.name()
    }

    fn from_sql_label(s: &str) -> (r: Option<Self>) {
        RoadOneway::from_name(s)
    }

    fn db_type_name() -> (r: &'static str) {
        "road_oneway"
    }

    fn label_count() -> (r: usize) {
        3
    }

    proof fn lemma_label_round_trip(v: Self) {
        lemma_road_oneway_name_round_trip(v);
    }
}

/// Water class as the database stores it.
#[derive(Debug, Clone, Copy, PartialEq, Eq, Hash, Structural)]
#[allow(non_camel_case_types)]
pub enum WaterClass {
    water,
    reservoir,
    river,
    dock,
    glacier,
    wetland,
    wetland_fen,
    riverbank,
    wetland_mangrove,
    wetland_marsh,
    wetland_tidalflat,
    wetland_reedbed,
    wetland_wet_meadow,
    wetland_swamp,
    wetland_saltmarsh,
    wetland_bog,
}

impl DeepView for WaterClass {
    type V = WaterClass;

    open spec fn deep_view(&self) -> WaterClass {
        *self
    }
}

impl WaterClass {
    /// The text under which the value is stored and displayed.
    pub open spec fn spec_name(self) -> Seq<char> {
        match self {
            WaterClass::water => "water"@,
            WaterClass::reservoir => "reservoir"@,
            WaterClass::river => "river"@,
            WaterClass::dock => "dock"@,
            WaterClass::glacier => "glacier"@,
            WaterClass::wetland => "wetland"@,
            WaterClass::wetland_fen => "wetland_fen"@,
            WaterClass::riverbank => "riverbank"@,
            WaterClass::wetland_mangrove => "wetland_mangrove"@,
            WaterClass::wetland_marsh => "wetland_marsh"@,
            WaterClass::wetland_tidalflat => "wetland_tidalflat"@,
            WaterClass::wetland_reedbed => "wetland_reedbed"@,
            WaterClass::wetland_wet_meadow => "wetland_wet_meadow"@,
            WaterClass::wetland_swamp => "wetland_swamp"@,
            WaterClass::wetland_saltmarsh => "wetland_saltmarsh"@,
            WaterClass::wetland_bog => "wetland_bog"@,
        }
    }

    /// The value whose name is `s`, if there is one.
    pub open spec fn spec_from_name(s: Seq<char>) -> Option<WaterClass> {
        if s == "water"@ {
            Some(WaterClass::water)
        } else if s == "reservoir"@ {
            Some(WaterClass::reservoir)
        } else if s == "river"@ {
            Some(WaterClass::river)
        } else if s == "dock"@ {
            Some(WaterClass::dock)
        } else if s == "glacier"@ {
            Some(WaterClass::glacier)
        } else if s == "wetland"@ {
            Some(WaterClass::wetland)
        } else if s == "wetland_fen"@ {
            Some(WaterClass::wetland_fen)
        } else if s == "riverbank"@ {
            Some(WaterClass::riverbank)
        } else if s == "wetland_mangrove"@ {
            Some(WaterClass::wetland_mangrove)
        } else if s == "wetland_marsh"@ {
            Some(WaterClass::wetland_marsh)
        } else if s == "wetland_tidalflat"@ {
            Some(WaterClass::wetland_tidalflat)
        } else if s == "wetland_reedbed"@ {
            Some(WaterClass::wetland_reedbed)
        } else if s == "wetland_wet_meadow"@ {
            Some(WaterClass::wetland_wet_meadow)
        } else if s == "wetland_swamp"@ {
            Some(WaterClass::wetland_swamp)
        } else if s == "wetland_saltmarsh"@ {
            Some(WaterClass::wetland_saltmarsh)
        } else if s == "wetland_bog"@ {
            Some(WaterClass::wetland_bog)
        } else {
            None
        }
    }

    /// The text under which the value is stored and displayed.
    pub fn name(self) -> (r: &'static str)
        ensures
            r@ == self.spec_name(),
    {
        match self {
            WaterClass::water => "water",
            WaterClass::reservoir => "reservoir",
            WaterClass::river => "river",
            WaterClass::dock => "dock",
            WaterClass::glacier => "glacier",
            WaterClass::wetland => "wetland",
            WaterClass::wetland_fen => "wetland_fen",
            WaterClass::riverbank => "riverbank",
            WaterClass::wetland_mangrove => "wetland_mangrove",
            WaterClass::wetland_marsh => "wetland_marsh",
            WaterClass::wetland_tidalflat => "wetland_tidalflat",
            WaterClass::wetland_reedbed => "wetland_reedbed",
            WaterClass::wetland_wet_meadow => "wetland_wet_meadow",
            WaterClass::wetland_swamp => "wetland_swamp",
            WaterClass::wetland_saltmarsh => "wetland_saltmarsh",
            WaterClass::wetland_bog => "wetland_bog",
        }
    }

    /// Parses a name exactly as [`Self::name`] renders it; any other text gives `None`.
    pub fn from_name(s: &str) -> (r: Option<WaterClass>)
        ensures
            r == WaterClass::spec_from_name(s@),
    {
        if str_eq(s, "water") {
            return Some(WaterClass::water);
        }
        if str_eq(s, "reservoir") {
            return Some(WaterClass::reservoir);
        }
        if str_eq(s, "river") {
            return Some(WaterClass::river);
        }
        if str_eq(s, "dock") {
            return Some(WaterClass::dock);
        }
        if str_eq(s, "glacier") {
            return Some(WaterClass::glacier);
        }
        if str_eq(s, "wetland") {
            return Some(WaterClass::wetland);
        }
        if str_eq(s, "wetland_fen") {
            return Some(WaterClass::wetland_fen);
        }
        if str_eq(s, "riverbank") {
            return Some(WaterClass::riverbank);
        }
        if str_eq(s, "wetland_mangrove") {
            return Some(WaterClass::wetland_mangrove);
        }
        if str_eq(s, "wetland_marsh") {
            return Some(WaterClass::wetland_marsh);
        }
        if str_eq(s, "wetland_tidalflat") {
            return Some(WaterClass::wetland_tidalflat);
        }
        if str_eq(s, "wetland_reedbed") {
            return Some(WaterClass::wetland_reedbed);
        }
        if str_eq(s, "wetland_wet_meadow") {
            return Some(WaterClass::wetland_wet_meadow);
        }
        if str_eq(s, "wetland_swamp") {
            return Some(WaterClass::wetland_swamp);
        }
        if str_eq(s, "wetland_saltmarsh") {
            return Some(WaterClass::wetland_saltmarsh);
        }
        if str_eq(s, "wetland_bog") {
            return Some(WaterClass::wetland_bog);
        }
        None
    }
}

/// Every name identifies its value: parsing the name of `v` gives back `v`.
pub proof fn lemma_water_class_name_round_trip(v: WaterClass)
    ensures
        WaterClass::spec_from_name(v.spec_name()) == Some(v),
{
    reveal_strlit("water");
    reveal_strlit("reservoir");
    reveal_strlit("river");
    reveal_strlit("dock");
    reveal_strlit("glacier");
    reveal_strlit("wetland");
    reveal_strlit("wetland_fen");
    reveal_strlit("riverbank");
    reveal_strlit("wetland_mangrove");
    reveal_strlit("wetland_marsh");
    reveal_strlit("wetland_tidalflat");
    reveal_strlit("wetland_reedbed");
    reveal_strlit("wetland_wet_meadow");
    reveal_strlit("wetland_swamp");
    reveal_strlit("wetland_saltmarsh");
    reveal_strlit("wetland_bog");
    assert("water"@.len() == 5);
    assert("reservoir"@.len() == 9);
    assert("river"@.len() == 5);
    assert("dock"@.len() == 4);
    assert("glacier"@.len() == 7);
    assert("wetland"@.len() == 7);
    assert("wetland_fen"@.len() == 11);
    assert("riverbank"@.len() == 9);
    assert("wetland_mangrove"@.len() == 16);
    assert("wetland_marsh"@.len() == 13);
    assert("wetland_tidalflat"@.len() == 17);
    assert("wetland_reedbed"@.len() == 15);
    assert("wetland_wet_meadow"@.len() == 18);
    assert("wetland_swamp"@.len() == 13);
    assert("wetland_saltmarsh"@.len() == 17);
    assert("wetland_bog"@.len() == 11);
    assert("water"@[0] != "river"@[0]);
    assert("reservoir"@[1] != "riverbank"@[1]);
    assert("glacier"@[0] != "wetland"@[0]);
    assert("wetland_fen"@[8] != "wetland_bog"@[8]);
    assert("wetland_marsh"@[8] != "wetland_swamp"@[8]);
    assert("wetland_tidalflat"@[8] != "wetland_saltmarsh"@[8]);
}

impl SqlEnum for WaterClass {
    open spec fn spec_sql_label(self) -> Seq<char> {
        self.spec_name()
    }

    open spec fn spec_from_sql_label(s: Seq<char>) -> Option<Self> {
        WaterClass::spec_from_name(s)
    }

    open spec fn spec_db_type_name() -> Seq<char> {
        "water_class"@
    }

    open spec fn spec_label_count() -> nat {
        16
    }

    fn sql_label(&self) -> (r: &'static str) {
        self.name()
    }

    fn from_sql_label(s: &str) -> (r: Option<Self>) {
        WaterClass::from_name(s)
    }

    fn db_type_name() -> (r: &'static str) {
        "water_class"
    }

    fn label_count() -> (r: usize) {
        16
    }

    proof fn lemma_label_round_trip(v: Self) {
        lemma_water_class_name_round_trip(v);
    }
}

/// Land-use class as the database stores it.
#[derive(Debug, Clone, Copy, PartialEq, Eq, Hash, Structural)]
#[allow(non_camel_case_types)]
pub enum LanduseClass {
    forest,
    park,
    residential,
    industrial,
    cemetery,
    allotments,
    meadow,
    commercial,
    recreation_ground,
    retail,
    military,
    quarry,
    orchard,
    vineyard,
    scrub,
    grass,
    heath,
    farmland,
    farmyard,
    landfill,
}

impl DeepView for LanduseClass {
    type V = LanduseClass;

    open spec fn deep_view(&self) -> LanduseClass {
        *self
    }
}

impl LanduseClass {
    /// The text under which the value is stored and displayed.
    pub open spec fn spec_name(self) -> Seq<char> {
        match self {
            LanduseClass::forest => "forest"@,
            LanduseClass::park => "park"@,
            LanduseClass::residential => "residential"@,
            LanduseClass::industrial => "industrial"@,
            LanduseClass::cemetery => "cemetery"@,
            LanduseClass::allotments => "allotments"@,
            LanduseClass::meadow => "meadow"@,
            LanduseClass::commercial => "commercial"@,
            LanduseClass::recreation_ground => "recreation_ground"@,
            LanduseClass::retail => "retail"@,
            LanduseClass::military => "military"@,
            LanduseClass::quarry => "quarry"@,
            LanduseClass::orchard => "orchard"@,
            LanduseClass::vineyard => "vineyard"@,
            LanduseClass::scrub => "scrub"@,
            LanduseClass::grass => "grass"@,
            LanduseClass::heath => "heath"@,
            LanduseClass::farmland => "farmland"@,
            LanduseClass::farmyard => "farmyard"@,
            LanduseClass::landfill => "landfill"@,
        }
    }

    /// The value whose name is `s`, if there is one.
    pub open spec fn spec_from_name(s: Seq<char>) -> Option<LanduseClass> {
        if s == "forest"@ {
            Some(LanduseClass::forest)
        } else if s == "park"@ {
            Some(LanduseClass::park)
        } else if s == "residential"@ {
            Some(LanduseClass::residential)
        } else if s == "industrial"@ {
            Some(LanduseClass::industrial)
        } else if s == "cemetery"@ {
            Some(LanduseClass::cemetery)
        } else if s == "allotments"@ {
            Some(LanduseClass::allotments)
        } else if s == "meadow"@ {
            Some(LanduseClass::meadow)
        } else if s == "commercial"@ {
            Some(LanduseClass::commercial)
        } else if s == "recreation_ground"@ {
            Some(LanduseClass::recreation_ground)
        } else if s == "retail"@ {
            Some(LanduseClass::retail)
        } else if s == "military"@ {
            Some(LanduseClass::military)
        } else if s == "quarry"@ {
            Some(LanduseClass::quarry)
        } else if s == "orchard"@ {
            Some(LanduseClass::orchard)
        } else if s == "vineyard"@ {
            Some(LanduseClass::vineyard)
        } else if s == "scrub"@ {
            Some(LanduseClass::scrub)
        } else if s == "grass"@ {
            Some(LanduseClass::grass)
        } else if s == "heath"@ {
            Some(LanduseClass::heath)
        } else if s == "farmland"@ {
            Some(LanduseClass::farmland)
        } else if s == "farmyard"@ {
            Some(LanduseClass::farmyard)
        } else if s == "landfill"@ {
            Some(LanduseClass::landfill)
        } else {
            None
        }
    }

    /// The text under which the value is stored and displayed.
    pub fn name(self) -> (r: &'static str)
        ensures
            r@ == self.spec_name(),
    {
        match self {
            LanduseClass::forest => "forest",
            LanduseClass::park => "park",
            LanduseClass::residential => "residential",
            LanduseClass::industrial => "industrial",
            LanduseClass::cemetery => "cemetery",
            LanduseClass::allotments => "allotments",
            LanduseClass::meadow => "meadow",
            LanduseClass::commercial => "commercial",
            LanduseClass::recreation_ground => "recreation_ground",
            LanduseClass::retail => "retail",
            LanduseClass::military => "military",
            LanduseClass::quarry => "quarry",
            LanduseClass::orchard => "orchard",
            LanduseClass::vineyard => "vineyard",
            LanduseClass::scrub => "scrub",
            LanduseClass::grass => "grass",
            LanduseClass::heath => "heath",
            LanduseClass::farmland => "farmland",
            LanduseClass::farmyard => "farmyard",
            LanduseClass::landfill => "landfill",
        }
    }

    /// Parses a name exactly as [`Self::name`] renders it; any other text gives `None`.
    pub fn from_name(s: &str) -> (r: Option<LanduseClass>)
        ensures
            r == LanduseClass::spec_from_name(s@),
    {
        if str_eq(s, "forest") {
            return Some(LanduseClass::forest);
        }
        if str_eq(s, "park") {
            return Some(LanduseClass::park);
        }
        if str_eq(s, "residential") {
            return Some(LanduseClass::residential);
        }
        if str_eq(s, "industrial") {
            return Some(LanduseClass::industrial);
        }
        if str_eq(s, "cemetery") {
            return Some(LanduseClass::cemetery);
        }
        if str_eq(s, "allotments") {
            return Some(LanduseClass::allotments);
        }
        if str_eq(s, "meadow") {
            return Some(LanduseClass::meadow);
        }
        if str_eq(s, "commercial") {
            return Some(LanduseClass::commercial);
        }
        if str_eq(s, "recreation_ground") {
            return Some(LanduseClass::recreation_ground);
        }
        if str_eq(s, "retail") {
            return Some(LanduseClass::retail);
        }
        if str_eq(s, "military") {
            return Some(LanduseClass::military);
        }
        if str_eq(s, "quarry") {
            return Some(LanduseClass::quarry);
        }
        if str_eq(s, "orchard") {
            return Some(LanduseClass::orchard);
        }
        if str_eq(s, "vineyard") {
            return Some(LanduseClass::vineyard);
        }
        if str_eq(s, "scrub") {
            return Some(LanduseClass::scrub);
        }
        if str_eq(s, "grass") {
            return Some(LanduseClass::grass);
        }
        if str_eq(s, "heath") {
            return Some(LanduseClass::heath);
        }
        if str_eq(s, "farmland") {
            return Some(LanduseClass::farmland);
        }
        if str_eq(s, "farmyard") {
            return Some(LanduseClass::farmyard);
        }
        if str_eq(s, "landfill") {
            return Some(LanduseClass::landfill);
        }
        None
    }
}

/// Every name identifies its value: parsing the name of `v` gives back `v`.
pub proof fn lemma_landuse_class_name_round_trip(v: LanduseClass)
    ensures
        LanduseClass::spec_from_name(v.spec_name()) == Some(v),
{
    reveal_strlit("forest");
    reveal_strlit("park");
    reveal_strlit("residential");
    reveal_strlit("industrial");
    reveal_strlit("cemetery");
    reveal_strlit("allotments");
    reveal_strlit("meadow");
    reveal_strlit("commercial");
    reveal_strlit("recreation_ground");
    reveal_strlit("retail");
    reveal_strlit("military");
    reveal_strlit("quarry");
    reveal_strlit("orchard");
    reveal_strlit("vineyard");
    reveal_strlit("scrub");
    reveal_strlit("grass");
    reveal_strlit("heath");
    reveal_strlit("farmland");
    reveal_strlit("farmyard");
    reveal_strlit("landfill");
    assert("forest"@.len() == 6);
    assert("park"@.len() == 4);
    assert("residential"@.len() == 11);
    assert("industrial"@.len() == 10);
    assert("cemetery"@.len() == 8);
    assert("allotments"@.len() == 10);
    assert("meadow"@.len() == 6);
    assert("commercial"@.len() == 10);
    assert("recreation_ground"@.len() == 17);
    assert("retail"@.len() == 6);
    assert("military"@.len() == 8);
    assert("quarry"@.len() == 6);
    assert("orchard"@.len() == 7);
    assert("vineyard"@.len() == 8);
    assert("scrub"@.len() == 5);
    assert("grass"@.len() == 5);
    assert("heath"@.len() == 5);
    assert("farmland"@.len() == 8);
    assert("farmyard"@.len() == 8);
    assert("landfill"@.len() == 8);
    assert("forest"@[0] != "meadow"@[0]);
    assert("forest"@[0] != "retail"@[0]);
    assert("forest"@[0] != "quarry"@[0]);
    assert("industrial"@[0] != "allotments"@[0]);
    assert("industrial"@[0] != "commercial"@[0]);
    assert("cemetery"@[0] != "military"@[0]);
    assert("cemetery"@[0] != "vineyard"@[0]);
    assert("cemetery"@[0] != "farmland"@[0]);
    assert("cemetery"@[0] != "farmyard"@[0]);
    assert("cemetery"@[0] != "landfill"@[0]);
    assert("allotments"@[0] != "commercial"@[0]);
    assert("meadow"@[0] != "retail"@[0]);
    assert("meadow"@[0] != "quarry"@[0]);
    assert("retail"@[0] != "quarry"@[0]);
    assert("military"@[0] != "vineyard"@[0]);
    assert("military"@[0] != "farmland"@[0]);
    assert("military"@[0] != "farmyard"@[0]);
    assert("military"@[0] != "landfill"@[0]);
    assert("vineyard"@[0] != "farmland"@[0]);
    assert("vineyard"@[0] != "farmyard"@[0]);
    assert("vineyard"@[0] != "landfill"@[0]);
    assert("scrub"@[0] != "grass"@[0]);
    assert("scrub"@[0] != "heath"@[0]);
    assert("grass"@[0] != "heath"@[0]);
    assert("farmland"@[4] != "farmyard"@[4]);
    assert("farmland"@[0] != "landfill"@[0]);
    assert("farmyard"@[0] != "landfill"@[0]);
}

impl SqlEnum for LanduseClass {
    open spec fn spec_sql_label(self) -> Seq<char> {
        self.spec_name()
    }

    open spec fn spec_from_sql_label(s: Seq<char>) -> Option<Self> {
        LanduseClass::spec_from_name(s)
    }

    open spec fn spec_db_type_name() -> Seq<char> {
        "landuse_class"@
    }

    open spec fn spec_label_count() -> nat {
        20
    }

    fn sql_label(&self) -> (r: &'static str) {
        self.name()
    }

    fn from_sql_label(s: &str) -> (r: Option<Self>) {
        LanduseClass::from_name(s)
    }

    fn db_type_name() -> (r: &'static str) {
        "landuse_class"
    }

    fn label_count() -> (r: usize) {
        20
    }

    proof fn lemma_label_round_trip(v: Self) {
        lemma_landuse_class_name_round_trip(v);
    }
}

/// The database labels of [`RoadClass`]: each value is stored under the text of its own
/// name, and each of those texts is read back as that value.
pub proof fn lemma_road_class_sql_labels()
    ensures
        RoadClass::motorway.spec_sql_label() == "motorway"@,
        RoadClass::spec_from_sql_label("motorway"@) == Some(RoadClass::motorway),
        RoadClass::trunk.spec_sql_label() == "trunk"@,
        RoadClass::spec_from_sql_label("trunk"@) == Some(RoadClass::trunk),
        RoadClass::primary.spec_sql_label() == "primary"@,
        RoadClass::spec_from_sql_label("primary"@) == Some(RoadClass::primary),
        RoadClass::secondary.spec_sql_label() == "secondary"@,
        RoadClass::spec_from_sql_label("secondary"@) == Some(RoadClass::secondary),
        RoadClass::tertiary.spec_sql_label() == "tertiary"@,
        RoadClass::spec_from_sql_label("tertiary"@) == Some(RoadClass::tertiary),
        RoadClass::unclassified.spec_sql_label() == "unclassified"@,
        RoadClass::spec_from_sql_label("unclassified"@) == Some(RoadClass::unclassified),
        RoadClass::residential.spec_sql_label() == "residential"@,
        RoadClass::spec_from_sql_label("residential"@) == Some(RoadClass::residential),
        RoadClass::living_street.spec_sql_label() == "living_street"@,
        RoadClass::spec_from_sql_label("living_street"@) == Some(RoadClass::living_street),
        RoadClass::pedestrian.spec_sql_label() == "pedestrian"@,
        RoadClass::spec_from_sql_label("pedestrian"@) == Some(RoadClass::pedestrian),
        RoadClass::busway.spec_sql_label() == "busway"@,
        RoadClass::spec_from_sql_label("busway"@) == Some(RoadClass::busway),
        RoadClass::motorway_link.spec_sql_label() == "motorway_link"@,
        RoadClass::spec_from_sql_label("motorway_link"@) == Some(RoadClass::motorway_link),
        RoadClass::trunk_link.spec_sql_label() == "trunk_link"@,
        RoadClass::spec_from_sql_label("trunk_link"@) == Some(RoadClass::trunk_link),
        RoadClass::primary_link.spec_sql_label() == "primary_link"@,
        RoadClass::spec_from_sql_label("primary_link"@) == Some(RoadClass::primary_link),
        RoadClass::secondary_link.spec_sql_label() == "secondary_link"@,
        RoadClass::spec_from_sql_label("secondary_link"@) == Some(RoadClass::secondary_link),
        RoadClass::tertiary_link.spec_sql_label() == "tertiary_link"@,
        RoadClass::spec_from_sql_label("tertiary_link"@) == Some(RoadClass::tertiary_link),
        RoadClass::service.spec_sql_label() == "service"@,
        RoadClass::spec_from_sql_label("service"@) == Some(RoadClass::service),
        RoadClass::track.spec_sql_label() == "track"@,
        RoadClass::spec_from_sql_label("track"@) == Some(RoadClass::track),
        RoadClass::track_grade1.spec_sql_label() == "track_grade1"@,
        RoadClass::spec_from_sql_label("track_grade1"@) == Some(RoadClass::track_grade1),
        RoadClass::track_grade2.spec_sql_label() == "track_grade2"@,
        RoadClass::spec_from_sql_label("track_grade2"@) == Some(RoadClass::track_grade2),
        RoadClass::track_grade3.spec_sql_label() == "track_grade3"@,
        RoadClass::spec_from_sql_label("track_grade3"@) == Some(RoadClass::track_grade3),
        RoadClass::track_grade4.spec_sql_label() == "track_grade4"@,
        RoadClass::spec_from_sql_label("track_grade4"@) == Some(RoadClass::track_grade4),
        RoadClass::track_grade5.spec_sql_label() == "track_grade5"@,
        RoadClass::spec_from_sql_label("track_grade5"@) == Some(RoadClass::track_grade5),
        RoadClass::bridleway.spec_sql_label() == "bridleway"@,
        RoadClass::spec_from_sql_label("bridleway"@) == Some(RoadClass::bridleway),
        RoadClass::cycleway.spec_sql_label() == "cycleway"@,
        RoadClass::spec_from_sql_label("cycleway"@) == Some(RoadClass::cycleway),
        RoadClass::footway.spec_sql_label() == "footway"@,
        RoadClass::spec_from_sql_label("footway"@) == Some(RoadClass::footway),
        RoadClass::path.spec_sql_label() == "path"@,
        RoadClass::spec_from_sql_label("path"@) == Some(RoadClass::path),
        RoadClass::steps.spec_sql_label() == "steps"@,
        RoadClass::spec_from_sql_label("steps"@) == Some(RoadClass::steps),
        RoadClass::unknown.spec_sql_label() == "unknown"@,
        RoadClass::spec_from_sql_label("unknown"@) == Some(RoadClass::unknown),
{
    RoadClass::lemma_label_round_trip(RoadClass::motorway);
    RoadClass::lemma_label_round_trip(RoadClass::trunk);
    RoadClass::lemma_label_round_trip(RoadClass::primary);
    RoadClass::lemma_label_round_trip(RoadClass::secondary);
    RoadClass::lemma_label_round_trip(RoadClass::tertiary);
    RoadClass::lemma_label_round_trip(RoadClass::unclassified);
    RoadClass::lemma_label_round_trip(RoadClass::residential);
    RoadClass::lemma_label_round_trip(RoadClass::living_street);
    RoadClass::lemma_label_round_trip(RoadClass::pedestrian);
    RoadClass::lemma_label_round_trip(RoadClass::busway);
    RoadClass::lemma_label_round_trip(RoadClass::motorway_link);
    RoadClass::lemma_label_round_trip(RoadClass::trunk_link);
    RoadClass::lemma_label_round_trip(RoadClass::primary_link);
    RoadClass::lemma_label_round_trip(RoadClass::secondary_link);
    RoadClass::lemma_label_round_trip(RoadClass::tertiary_link);
    RoadClass::lemma_label_round_trip(RoadClass::service);
    RoadClass::lemma_label_round_trip(RoadClass::track);
    RoadClass::lemma_label_round_trip(RoadClass::track_grade1);
    RoadClass::lemma_label_round_trip(RoadClass::track_grade2);
    RoadClass::lemma_label_round_trip(RoadClass::track_grade3);
    RoadClass::lemma_label_round_trip(RoadClass::track_grade4);
    RoadClass::lemma_label_round_trip(RoadClass::track_grade5);
    RoadClass::lemma_label_round_trip(RoadClass::bridleway);
    RoadClass::lemma_label_round_trip(RoadClass::cycleway);
    RoadClass::lemma_label_round_trip(RoadClass::footway);
    RoadClass::lemma_label_round_trip(RoadClass::path);
    RoadClass::lemma_label_round_trip(RoadClass::steps);
    RoadClass::lemma_label_round_trip(RoadClass::unknown);
}

/// The database labels of [`RoadClassCategory`]: each value is stored under the text of its own
/// name, and each of those texts is read back as that value.
pub proof fn lemma_road_class_category_sql_labels()
    ensures
        RoadClassCategory::major_roads.spec_sql_label() == "major_roads"@,
        RoadClassCategory::spec_from_sql_label("major_roads"@) == Some(RoadClassCategory::major_roads),
        RoadClassCategory::minor_roads.spec_sql_label() == "minor_roads"@,
        RoadClassCategory::spec_from_sql_label("minor_roads"@) == Some(RoadClassCategory::minor_roads),
        RoadClassCategory::highway_links.spec_sql_label() == "highway_links"@,
        RoadClassCategory::spec_from_sql_label("highway_links"@) == Some(RoadClassCategory::highway_links),
        RoadClassCategory::very_small_roads.spec_sql_label() == "very_small_roads"@,
        RoadClassCategory::spec_from_sql_label("very_small_roads"@) == Some(RoadClassCategory::very_small_roads),
        RoadClassCategory::paths_unsuitable_for_cars.spec_sql_label() == "paths_unsuitable_for_cars"@,
        RoadClassCategory::spec_from_sql_label("paths_unsuitable_for_cars"@) == Some(RoadClassCategory::paths_unsuitable_for_cars),
        RoadClassCategory::unknown.spec_sql_label() == "unknown"@,
        RoadClassCategory::spec_from_sql_label("unknown"@) == Some(RoadClassCategory::unknown),
{
    RoadClassCategory::lemma_label_round_trip(RoadClassCategory::major_roads);
    RoadClassCategory::lemma_label_round_trip(RoadClassCategory::minor_roads);
    RoadClassCategory::lemma_label_round_trip(RoadClassCategory::highway_links);
    RoadClassCategory::lemma_label_round_trip(RoadClassCategory::very_small_roads);
    RoadClassCategory::lemma_label_round_trip(RoadClassCategory::paths_unsuitable_for_cars);
    RoadClassCategory::lemma_label_round_trip(RoadClassCategory::unknown);
}

/// The database labels of [`RoadOneway`]: each value is stored under the text of its own
/// name, and each of those texts is read back as that value.
pub proof fn lemma_road_oneway_sql_labels()
    ensures
        RoadOneway::forwards_only.spec_sql_label() == "forwards_only"@,
        RoadOneway::spec_from_sql_label("forwards_only"@) == Some(RoadOneway::forwards_only),
        RoadOneway::backwards_only.spec_sql_label() == "backwards_only"@,
        RoadOneway::spec_from_sql_label("backwards_only"@) == Some(RoadOneway::backwards_only),
        RoadOneway::bidirectional.spec_sql_label() == "bidirectional"@,
        RoadOneway::spec_from_sql_label("bidirectional"@) == Some(RoadOneway::bidirectional),
{
    RoadOneway::lemma_label_round_trip(RoadOneway::forwards_only);
    RoadOneway::lemma_label_round_trip(RoadOneway::backwards_only);
    RoadOneway::lemma_label_round_trip(RoadOneway::bidirectional);
}

/// The database labels of [`WaterClass`]: each value is stored under the text of its own
/// name, and each of those texts is read back as that value.
pub proof fn lemma_water_class_sql_labels()
    ensures
        WaterClass::water.spec_sql_label() == "water"@,
        WaterClass::spec_from_sql_label("water"@) == Some(WaterClass::water),
        WaterClass::reservoir.spec_sql_label() == "reservoir"@,
        WaterClass::spec_from_sql_label("reservoir"@) == Some(WaterClass::reservoir),
        WaterClass::river.spec_sql_label() == "river"@,
        WaterClass::spec_from_sql_label("river"@) == Some(WaterClass::river),
        WaterClass::dock.spec_sql_label() == "dock"@,
        WaterClass::spec_from_sql_label("dock"@) == Some(WaterClass::dock),
        WaterClass::glacier.spec_sql_label() == "glacier"@,
        WaterClass::spec_from_sql_label("glacier"@) == Some(WaterClass::glacier),
        WaterClass::wetland.spec_sql_label() == "wetland"@,
        WaterClass::spec_from_sql_label("wetland"@) == Some(WaterClass::wetland),
        WaterClass::wetland_fen.spec_sql_label() == "wetland_fen"@,
        WaterClass::spec_from_sql_label("wetland_fen"@) == Some(WaterClass::wetland_fen),
        WaterClass::riverbank.spec_sql_label() == "riverbank"@,
        WaterClass::spec_from_sql_label("riverbank"@) == Some(WaterClass::riverbank),
        WaterClass::wetland_mangrove.spec_sql_label() == "wetland_mangrove"@,
        WaterClass::spec_from_sql_label("wetland_mangrove"@) == Some(WaterClass::wetland_mangrove),
        WaterClass::wetland_marsh.spec_sql_label() == "wetland_marsh"@,
        WaterClass::spec_from_sql_label("wetland_marsh"@) == Some(WaterClass::wetland_marsh),
        WaterClass::wetland_tidalflat.spec_sql_label() == "wetland_tidalflat"@,
        WaterClass::spec_from_sql_label("wetland_tidalflat"@) == Some(WaterClass::wetland_tidalflat),
        WaterClass::wetland_reedbed.spec_sql_label() == "wetland_reedbed"@,
        WaterClass::spec_from_sql_label("wetland_reedbed"@) == Some(WaterClass::wetland_reedbed),
        WaterClass::wetland_wet_meadow.spec_sql_label() == "wetland_wet_meadow"@,
        WaterClass::spec_from_sql_label("wetland_wet_meadow"@) == Some(WaterClass::wetland_wet_meadow),
        WaterClass::wetland_swamp.spec_sql_label() == "wetland_swamp"@,
        WaterClass::spec_from_sql_label("wetland_swamp"@) == Some(WaterClass::wetland_swamp),
        WaterClass::wetland_saltmarsh.spec_sql_label() == "wetland_saltmarsh"@,
        WaterClass::spec_from_sql_label("wetland_saltmarsh"@) == Some(WaterClass::wetland_saltmarsh),
        WaterClass::wetland_bog.spec_sql_label() == "wetland_bog"@,
        WaterClass::spec_from_sql_label("wetland_bog"@) == Some(WaterClass::wetland_bog),
{
    WaterClass::lemma_label_round_trip(WaterClass::water);
    WaterClass::lemma_label_round_trip(WaterClass::reservoir);
    WaterClass::lemma_label_round_trip(WaterClass::river);
    WaterClass::lemma_label_round_trip(WaterClass::dock);
    WaterClass::lemma_label_round_trip(WaterClass::glacier);
    WaterClass::lemma_label_round_trip(WaterClass::wetland);
    WaterClass::lemma_label_round_trip(WaterClass::wetland_fen);
    WaterClass::lemma_label_round_trip(WaterClass::riverbank);
    WaterClass::lemma_label_round_trip(WaterClass::wetland_mangrove);
    WaterClass::lemma_label_round_trip(WaterClass::wetland_marsh);
    WaterClass::lemma_label_round_trip(WaterClass::wetland_tidalflat);
    WaterClass::lemma_label_round_trip(WaterClass::wetland_reedbed);
    WaterClass::lemma_label_round_trip(WaterClass::wetland_wet_meadow);
    WaterClass::lemma_label_round_trip(WaterClass::wetland_swamp);
    WaterClass::lemma_label_round_trip(WaterClass::wetland_saltmarsh);
    WaterClass::lemma_label_round_trip(WaterClass::wetland_bog);
}

/// The database labels of [`LanduseClass`]: each value is stored under the text of its own
/// name, and each of those texts is read back as that value.
pub proof fn lemma_landuse_class_sql_labels()
    ensures
        LanduseClass::forest.spec_sql_label() == "forest"@,
        LanduseClass::spec_from_sql_label("forest"@) == Some(LanduseClass::forest),
        LanduseClass::park.spec_sql_label() == "park"@,
        LanduseClass::spec_from_sql_label("park"@) == Some(LanduseClass::park),
        LanduseClass::residential.spec_sql_label() == "residential"@,
        LanduseClass::spec_from_sql_label("residential"@) == Some(LanduseClass::residential),
        LanduseClass::industrial.spec_sql_label() == "industrial"@,
        LanduseClass::spec_from_sql_label("industrial"@) == Some(LanduseClass::industrial),
        LanduseClass::cemetery.spec_sql_label() == "cemetery"@,
        LanduseClass::spec_from_sql_label("cemetery"@) == Some(LanduseClass::cemetery),
        LanduseClass::allotments.spec_sql_label() == "allotments"@,
        LanduseClass::spec_from_sql_label("allotments"@) == Some(LanduseClass::allotments),
        LanduseClass::meadow.spec_sql_label() == "meadow"@,
        LanduseClass::spec_from_sql_label("meadow"@) == Some(LanduseClass::meadow),
        LanduseClass::commercial.spec_sql_label() == "commercial"@,
        LanduseClass::spec_from_sql_label("commercial"@) == Some(LanduseClass::commercial),
        LanduseClass::recreation_ground.spec_sql_label() == "recreation_ground"@,
        LanduseClass::spec_from_sql_label("recreation_ground"@) == Some(LanduseClass::recreation_ground),
        LanduseClass::retail.spec_sql_label() == "retail"@,
        LanduseClass::spec_from_sql_label("retail"@) == Some(LanduseClass::retail),
        LanduseClass::military.spec_sql_label() == "military"@,
        LanduseClass::spec_from_sql_label("military"@) == Some(LanduseClass::military),
        LanduseClass::quarry.spec_sql_label() == "quarry"@,
        LanduseClass::spec_from_sql_label("quarry"@) == Some(LanduseClass::quarry),
        LanduseClass::orchard.spec_sql_label() == "orchard"@,
        LanduseClass::spec_from_sql_label("orchard"@) == Some(LanduseClass::orchard),
        LanduseClass::vineyard.spec_sql_label() == "vineyard"@,
        LanduseClass::spec_from_sql_label("vineyard"@) == Some(LanduseClass::vineyard),
        LanduseClass::scrub.spec_sql_label() == "scrub"@,
        LanduseClass::spec_from_sql_label("scrub"@) == Some(LanduseClass::scrub),
        LanduseClass::grass.spec_sql_label() == "grass"@,
        LanduseClass::spec_from_sql_label("grass"@) == Some(LanduseClass::grass),
        LanduseClass::heath.spec_sql_label() == "heath"@,
        LanduseClass::spec_from_sql_label("heath"@) == Some(LanduseClass::heath),
        LanduseClass::farmland.spec_sql_label() == "farmland"@,
        LanduseClass::spec_from_sql_label("farmland"@) == Some(LanduseClass::farmland),
        LanduseClass::farmyard.spec_sql_label() == "farmyard"@,
        LanduseClass::spec_from_sql_label("farmyard"@) == Some(LanduseClass::farmyard),
        LanduseClass::landfill.spec_sql_label() == "landfill"@,
        LanduseClass::spec_from_sql_label("landfill"@) == Some(LanduseClass::landfill),
{
    LanduseClass::lemma_label_round_trip(LanduseClass::forest);
    LanduseClass::lemma_label_round_trip(LanduseClass::park);
    LanduseClass::lemma_label_round_trip(LanduseClass::residential);
    LanduseClass::lemma_label_round_trip(LanduseClass::industrial);
    LanduseClass::lemma_label_round_trip(LanduseClass::cemetery);
    LanduseClass::lemma_label_round_trip(LanduseClass::allotments);
    LanduseClass::lemma_label_round_trip(LanduseClass::meadow);
    LanduseClass::lemma_label_round_trip(LanduseClass::commercial);
    LanduseClass::lemma_label_round_trip(LanduseClass::recreation_ground);
    LanduseClass::lemma_label_round_trip(LanduseClass::retail);
    LanduseClass::lemma_label_round_trip(LanduseClass::military);
    LanduseClass::lemma_label_round_trip(LanduseClass::quarry);
    LanduseClass::lemma_label_round_trip(LanduseClass::orchard);
    LanduseClass::lemma_label_round_trip(LanduseClass::vineyard);
    LanduseClass::lemma_label_round_trip(LanduseClass::scrub);
    LanduseClass::lemma_label_round_trip(LanduseClass::grass);
    LanduseClass::lemma_label_round_trip(LanduseClass::heath);
    LanduseClass::lemma_label_round_trip(LanduseClass::farmland);
    LanduseClass::lemma_label_round_trip(LanduseClass::farmyard);
    LanduseClass::lemma_label_round_trip(LanduseClass::landfill);
}

} // verus!
