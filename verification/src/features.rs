//! OSM features (roads, waters, buildings) read from a shapefile shape and its record.
use crate::parser::{
    result_view, spec_lookup, spec_optional, spec_required, Field, FieldKind, FromStrParser, I32Parser, OneWayParser,
    OptionParser, ParseErrorView, Parser, Record, RecordParseError, ShapeKind, StringParser,
    TfBoolParser, U32Parser,
};
use crate::road::{OneWay, RoadClass};
use crate::text::{append_decimal, decimal_digits, spec_trim};
use crate::water::WaterClass;
use vstd::prelude::*;

verus! {

/// The geometry of a shape, as far as roads read it: a polyline with its parts, or
/// another kind of shape.
#[derive(Debug, Clone)]
pub enum Shape<P> {
    Polyline { parts: Vec<Vec<P>> },
    Other,
}

/// What reading a road's polyline gives: the points of its only part.
pub open spec fn spec_parse_polyline<P>(shape: Shape<P>) -> Result<Seq<P>, ParseErrorView> {
    match shape {
        Shape::Polyline { parts } => if parts@.len() != 1 {
            Err(
                ParseErrorView::InvalidField {
                    field: "shape"@,
                    value: "expected one part, got "@ + decimal_digits(parts@.len()),
                },
            )
        } else {
            Ok(parts@[0]@)
        },
        Shape::Other => Err(
            ParseErrorView::InvalidField { field: "shape"@, value: "unsupported shape type"@ },
        ),
    }
}

/// Reads the points of a polyline that has exactly one part.
pub fn parse_polyline<P: Copy>(shape: &Shape<P>) -> (r: Result<Vec<P>, RecordParseError>)
    ensures
        match r {
            Ok(points) => spec_parse_polyline(*shape) == Ok::<Seq<P>, ParseErrorView>(points@),
            Err(e) => spec_parse_polyline(*shape) == Err::<Seq<P>, ParseErrorView>(e.deep_view()),
        },
{
    match shape {
        Shape::Polyline { parts } => {
            if parts.len() != 1 {
                let mut value = String::from_str("expected one part, got ");
                append_decimal(parts.len() as u64, &mut value);
                return Err(RecordParseError::InvalidField { field: "shape", value });
            }
            let part = &parts[0];
            let mut points: Vec<P> = Vec::new();
            let mut i: usize = 0;
            while i < part.len()
                invariant
                    i <= part@.len(),
                    points@ == part@.take(i as int),
                decreases part@.len() - i,
            {
                points.push(part[i]);
                i += 1;
                assert(points@ =~= part@.take(i as int));
            }
            assert(part@.take(part@.len() as int) =~= part@);
            Ok(points)
        },
        Shape::Other => Err(
            RecordParseError::InvalidField {
                field: "shape",
                value: String::from_str("unsupported shape type"),
            },
        ),
    }
}

/// A road of the OSM road layer, with points of type `P`.
#[derive(Debug, Clone)]
pub struct Road<P> {
    pub osm_id: i64,
    pub class: RoadClass,
    pub reference: String,
    pub oneway: OneWay,
    pub max_speed: Option<u32>,
    pub layer: i32,
    pub is_bridge: bool,
    pub is_tunnel: bool,
    pub geometry: Vec<P>,
}

/// A [`Road`] with its texts and points as sequences.
pub struct RoadView<P> {
    pub osm_id: i64,
    pub class: RoadClass,
    pub reference: Seq<char>,
    pub oneway: OneWay,
    pub max_speed: Option<u32>,
    pub layer: i32,
    pub is_bridge: bool,
    pub is_tunnel: bool,
    pub geometry: Seq<P>,
}

impl<P> DeepView for Road<P> {
    type V = RoadView<P>;

    open spec fn deep_view(&self) -> RoadView<P> {
        RoadView {
            osm_id: self.osm_id,
            class: self.class,
            reference: self.reference@,
            oneway: self.oneway,
            max_speed: self.max_speed,
            layer: self.layer,
            is_bridge: self.is_bridge,
            is_tunnel: self.is_tunnel,
            geometry: self.geometry@,
        }
    }
}

/// What reading a road gives: the polyline first, then `osm_id`, `fclass`, `ref`
/// (empty when absent), `oneway` (both ways when absent), `maxspeed` (none when
/// absent or blank), `layer`, `bridge` and `tunnel` (false when absent), the first
/// failure deciding the error.
pub open spec fn spec_road<P>(shape: Shape<P>, fields: Seq<(String, crate::parser::Field)>) -> Result<
    RoadView<P>,
    ParseErrorView,
> {
    match spec_parse_polyline(shape) {
        Err(e) => Err(e),
        Ok(geometry) => match spec_required::<FromStrParser<i64>>(fields, "osm_id"@) {
            Err(e) => Err(e),
            Ok(osm_id) => match spec_required::<FromStrParser<RoadClass>>(fields, "fclass"@) {
                Err(e) => Err(e),
                Ok(class) => match spec_optional::<StringParser>(fields, "ref"@) {
                    Err(e) => Err(e),
                    Ok(reference) => match spec_optional::<OneWayParser>(fields, "oneway"@) {
                        Err(e) => Err(e),
                        Ok(oneway) => match spec_optional::<OptionParser<U32Parser>>(
                            fields,
                            "maxspeed"@,
                        ) {
                            Err(e) => Err(e),
                            Ok(max_speed) => match spec_required::<I32Parser>(fields, "layer"@) {
                                Err(e) => Err(e),
                                Ok(layer) => match spec_optional::<TfBoolParser>(fields, "bridge"@) {
                                    Err(e) => Err(e),
                                    Ok(is_bridge) => match spec_optional::<TfBoolParser>(
                                        fields,
                                        "tunnel"@,
                                    ) {
                                        Err(e) => Err(e),
                                        Ok(is_tunnel) => Ok(
                                            RoadView {
                                                osm_id,
                                                class,
                                                reference: match reference {
                                                    Some(r) => r,
                                                    None => Seq::empty(),
                                                },
                                                oneway: match oneway {
                                                    Some(o) => o,
                                                    None => OneWay::Bidirectional,
                                                },
                                                max_speed: match max_speed {
                                                    Some(m) => m,
                                                    None => None,
                                                },
                                                layer,
                                                is_bridge: match is_bridge {
                                                    Some(b) => b,
                                                    None => false,
                                                },
                                                is_tunnel: match is_tunnel {
                                                    Some(b) => b,
                                                    None => false,
                                                },
                                                geometry,
                                            },
                                        ),
                                    },
                                },
                            },
                        },
                    },
                },
            },
        },
    }
}

impl<P: Copy> Road<P> {
    /// Reads a road from its shape and record.
    pub fn from_shapefile_item(shape: &Shape<P>, record: &Record) -> (r: Result<
        Road<P>,
        RecordParseError,
    >)
        ensures
            result_view(r) == spec_road(*shape, record.fields@),
    {
        let geometry = match parse_polyline(shape) {
            Ok(g) => g,
            Err(e) => return Err(e),
        };
        let osm_id = match record.required::<FromStrParser<i64>>("osm_id") {
            Ok(v) => v,
            Err(e) => return Err(e),
        };
        let class = match record.required::<FromStrParser<RoadClass>>("fclass") {
            Ok(v) => v,
            Err(e) => return Err(e),
        };
        let reference = match record.optional::<StringParser>("ref") {
            Ok(Some(v)) => v,
            Ok(None) => String::new(),
            Err(e) => return Err(e),
        };
        let oneway = match record.optional::<OneWayParser>("oneway") {
            Ok(Some(v)) => v,
            Ok(None) => OneWay::Bidirectional,
            Err(e) => return Err(e),
        };
        let max_speed = match record.optional::<OptionParser<U32Parser>>("maxspeed") {
            Ok(Some(v)) => v,
            Ok(None) => None,
            Err(e) => return Err(e),
        };
        let layer = match record.required::<I32Parser>("layer") {
            Ok(v) => v,
            Err(e) => return Err(e),
        };
        let is_bridge = match record.optional::<TfBoolParser>("bridge") {
            Ok(Some(v)) => v,
            Ok(None) => false,
            Err(e) => return Err(e),
        };
        let is_tunnel = match record.optional::<TfBoolParser>("tunnel") {
            Ok(Some(v)) => v,
            Ok(None) => false,
            Err(e) => return Err(e),
        };
        Ok(
            Road {
                osm_id,
                class,
                reference,
                oneway,
                max_speed,
                layer,
                is_bridge,
                is_tunnel,
                geometry,
            },
        )
    }
}

/// The reference of a road read from a record is the record's `ref` text without
/// surrounding whitespace, and empty when the record has no `ref` field or a blank
/// one; the road goes both ways unless its `oneway` text says `F` (forwards only) or
/// `T` (backwards only).
pub proof fn lemma_road_reference_and_direction<P>(shape: Shape<P>, fields: Seq<(String, Field)>)
    ensures
        spec_road(shape, fields) matches Ok(road) ==> road.reference == match spec_lookup(fields, "ref"@) {
            Some(v) => match v.kind {
                FieldKind::Character(Some(text)) => spec_trim(text@),
                _ => Seq::<char>::empty(),
            },
            None => Seq::<char>::empty(),
        },
        spec_road(shape, fields) matches Ok(road) ==> road.oneway == match spec_lookup(fields, "oneway"@) {
            Some(v) => match v.kind {
                FieldKind::Character(Some(text)) => if spec_trim(text@) == "F"@ {
                    OneWay::ForwardsOnly
                } else if spec_trim(text@) == "T"@ {
                    OneWay::BackwardsOnly
                } else {
                    OneWay::Bidirectional
                },
                _ => OneWay::Bidirectional,
            },
            None => OneWay::Bidirectional,
        },
{
}

/// A polygon with points of type `P`: its exterior ring, its holes, and the debug
/// rendering that error messages quote.
#[derive(Debug, Clone)]
pub struct Polygon<P> {
    pub exterior: Vec<P>,
    pub interiors: Vec<Vec<P>>,
    pub debug_text: String,
}

/// The geometry of a shape, as far as areas read it.
#[derive(Debug, Clone)]
pub enum Geometry<P> {
    Polygon(Polygon<P>),
    MultiPolygon(Vec<Polygon<P>>),
    Other,
}

/// Whether a polygon has a ring (exterior or hole) of fewer than four points.
pub open spec fn is_degenerate<P>(p: Polygon<P>) -> bool {
    p.exterior@.len() < 4 || exists|k: int|
        0 <= k < p.interiors@.len() && #[trigger] p.interiors@[k]@.len() < 4
}

/// The polygons of an area geometry, or `None` for any other geometry.
pub open spec fn spec_polygons<P>(g: Geometry<P>) -> Option<Seq<Polygon<P>>> {
    match g {
        Geometry::Polygon(p) => Some(seq![p]),
        Geometry::MultiPolygon(ps) => Some(ps@),
        Geometry::Other => None,
    }
}

/// The position of the first degenerate polygon, or the number of polygons.
pub open spec fn first_degenerate<P>(ps: Seq<Polygon<P>>) -> int
    decreases ps.len(),
{
    if ps.len() == 0 {
        0
    } else if is_degenerate(ps[0]) {
        0
    } else {
        1 + first_degenerate(ps.drop_first())
    }
}

/// What checking the geometry of an area gives: its polygons, an error for a shape
/// that is no (multi)polygon, or one quoting the first degenerate polygon.
pub open spec fn spec_area_polygons<P>(shape_type: ShapeKind, g: Geometry<P>) -> Result<
    Seq<Polygon<P>>,
    ParseErrorView,
> {
    match spec_polygons(g) {
        None => Err(ParseErrorView::UnexpectedShapeType { shape_type }),
        Some(ps) => if first_degenerate(ps) < ps.len() {
            Err(
                ParseErrorView::InvalidShape {
                    message: "Polygon with less than 4 points: "@ + ps[first_degenerate(
                        ps,
                    )].debug_text@,
                },
            )
        } else {
            Ok(ps)
        },
    }
}

proof fn lemma_first_degenerate<P>(ps: Seq<Polygon<P>>, i: int)
    requires
        0 <= i <= ps.len(),
        forall|k: int| 0 <= k < i ==> !is_degenerate(#[trigger] ps[k]),
    ensures
        first_degenerate(ps) == i + first_degenerate(ps.skip(i)),
        0 <= first_degenerate(ps) <= ps.len(),
        forall|k: int| 0 <= k < first_degenerate(ps) ==> !is_degenerate(#[trigger] ps[k]),
        first_degenerate(ps) < ps.len() ==> is_degenerate(ps[first_degenerate(ps)]),
    decreases ps.len(),
{
    if ps.len() > 0 {
        if is_degenerate(ps[0]) {
            assert(ps.skip(0) =~= ps);
        } else {
            let j = if i > 0 { i - 1 } else { 0 };
            lemma_first_degenerate(ps.drop_first(), j);
            assert forall|k: int| 0 <= k < first_degenerate(ps) implies !is_degenerate(
                #[trigger] ps[k],
            ) by {
                if k > 0 {
                    assert(ps[k] == ps.drop_first()[k - 1]);
                }
            }
            if i > 0 {
                assert(ps.drop_first().skip(i - 1) =~= ps.skip(i));
            } else {
                assert(ps.skip(0) =~= ps);
            }
            if first_degenerate(ps) < ps.len() {
                assert(ps[first_degenerate(ps)] == ps.drop_first()[first_degenerate(ps) - 1]);
            }
        }
    } else {
        assert(ps.skip(i) =~= ps);
    }
}

fn polygon_is_degenerate<P>(p: &Polygon<P>) -> (r: bool)
    ensures
        r == is_degenerate(*p),
{
    if p.exterior.len() < 4 {
        return true;
    }
    let n = p.interiors.len();
    let mut k: usize = 0;
    while k < n
        invariant
            n == p.interiors@.len(),
            k <= n,
            p.exterior@.len() >= 4,
            forall|j: int| 0 <= j < k ==> #[trigger] p.interiors@[j]@.len() >= 4,
        decreases n - k,
    {
        if p.interiors[k].len() < 4 {
            return true;
        }
        k += 1;
    }
    false
}

/// Checks the geometry of an area: it must be a polygon or a multipolygon whose
/// rings all have at least four points.
pub fn area_polygons<P>(shape_type: ShapeKind, geometry: Geometry<P>) -> (r: Result<
    Vec<Polygon<P>>,
    RecordParseError,
>)
    ensures
        match r {
            Ok(ps) => spec_area_polygons(shape_type, geometry) == Ok::<
                Seq<Polygon<P>>,
                ParseErrorView,
            >(ps@),
            Err(e) => spec_area_polygons(shape_type, geometry) == Err::<
                Seq<Polygon<P>>,
                ParseErrorView,
            >(e.deep_view()),
        },
        r matches Ok(ps) ==> forall|k: int| 0 <= k < ps@.len() ==> !is_degenerate(#[trigger] ps@[k]),
{
    let ghost g = geometry;
    let polygons = match geometry {
        Geometry::Polygon(p) => {
            let mut v: Vec<Polygon<P>> = Vec::new();
            v.push(p);
            v
        },
        Geometry::MultiPolygon(ps) => ps,
        Geometry::Other => return Err(RecordParseError::UnexpectedShapeType { shape_type }),
    };
    assert(spec_polygons(g) == Some(polygons@));
    let n = polygons.len();
    let mut i: usize = 0;
    while i < n
        invariant
            n == polygons@.len(),
            spec_polygons(g) == Some(polygons@),
            g == geometry,
            i <= n,
            forall|k: int| 0 <= k < i ==> !is_degenerate(#[trigger] polygons@[k]),
        decreases n - i,
    {
        if polygon_is_degenerate(&polygons[i]) {
            proof {
                lemma_first_degenerate(polygons@, i as int);
                assert(first_degenerate(polygons@.skip(i as int)) == 0);
            }
            let mut message = String::from_str("Polygon with less than 4 points: ");
            message.append(polygons[i].debug_text.as_str());

            return Err(RecordParseError::InvalidShape { message });
        }
        i += 1;
    }
    proof {
        lemma_first_degenerate(polygons@, n as int);
        assert(polygons@.skip(n as int).len() == 0);
    }
    Ok(polygons)
}

/// A water area of the OSM water layer.
#[derive(Debug, Clone)]
pub struct Water<P> {
    pub osm_id: i64,
    pub class: WaterClass,
    pub geometry: Vec<Polygon<P>>,
}

/// What reading a water area gives: the geometry first, then `osm_id` and `fclass`.
pub open spec fn spec_water<P>(
    shape_type: ShapeKind,
    geometry: Geometry<P>,
    fields: Seq<(String, crate::parser::Field)>,
) -> Result<(i64, WaterClass, Seq<Polygon<P>>), ParseErrorView> {
    match spec_area_polygons(shape_type, geometry) {
        Err(e) => Err(e),
        Ok(ps) => match spec_required::<FromStrParser<i64>>(fields, "osm_id"@) {
            Err(e) => Err(e),
            Ok(osm_id) => match spec_required::<FromStrParser<WaterClass>>(fields, "fclass"@) {
                Err(e) => Err(e),
                Ok(class) => Ok((osm_id, class, ps)),
            },
        },
    }
}

impl<P> Water<P> {
    /// Reads a water area from the type and geometry of its shape and its record.
    pub fn from_shapefile_item(shape_type: ShapeKind, geometry: Geometry<P>, record: &Record) -> (r:
        Result<Water<P>, RecordParseError>)
        ensures
            match r {
                Ok(w) => spec_water(shape_type, geometry, record.fields@) == Ok::<
                    (i64, WaterClass, Seq<Polygon<P>>),
                    ParseErrorView,
                >((w.osm_id, w.class, w.geometry@)),
                Err(e) => spec_water(shape_type, geometry, record.fields@) == Err::<
                    (i64, WaterClass, Seq<Polygon<P>>),
                    ParseErrorView,
                >(e.deep_view()),
            },
    {
        let geometry = match area_polygons(shape_type, geometry) {
            Ok(g) => g,
            Err(e) => return Err(e),
        };
        let osm_id = match record.required::<FromStrParser<i64>>("osm_id") {
            Ok(v) => v,
            Err(e) => return Err(e),
        };
        let class = match record.required::<FromStrParser<WaterClass>>("fclass") {
            Ok(v) => v,
            Err(e) => return Err(e),
        };
        Ok(Water { osm_id, class, geometry })
    }

    /// The OSM id of the area.
    pub fn id(&self) -> (id: i64)
        ensures
            id == self.osm_id,
    {
        self.osm_id
    }
}

/// A building footprint of the OSM building layer.
#[derive(Debug, Clone)]
pub struct Building<P> {
    pub osm_id: i64,
    pub kind: Option<String>,
    pub geometry: Vec<Polygon<P>>,
}

/// What reading a building gives: the geometry first, then `osm_id` and the optional
/// `type`.
pub open spec fn spec_building<P>(
    shape_type: ShapeKind,
    geometry: Geometry<P>,
    fields: Seq<(String, crate::parser::Field)>,
) -> Result<(i64, Option<Seq<char>>, Seq<Polygon<P>>), ParseErrorView> {
    match spec_area_polygons(shape_type, geometry) {
        Err(e) => Err(e),
        Ok(ps) => match spec_required::<FromStrParser<i64>>(fields, "osm_id"@) {
            Err(e) => Err(e),
            Ok(osm_id) => match spec_optional::<StringParser>(fields, "type"@) {
                Err(e) => Err(e),
                Ok(kind) => Ok((osm_id, kind, ps)),
            },
        },
    }
}

impl<P> Building<P> {
    /// Reads a building from the type and geometry of its shape and its record.
    pub fn from_shapefile_item(shape_type: ShapeKind, geometry: Geometry<P>, record: &Record) -> (r:
        Result<Building<P>, RecordParseError>)
        ensures
            match r {
                Ok(b) => spec_building(shape_type, geometry, record.fields@) == Ok::<
                    (i64, Option<Seq<char>>, Seq<Polygon<P>>),
                    ParseErrorView,
                >((b.osm_id, b.kind.deep_view(), b.geometry@)),
                Err(e) => spec_building(shape_type, geometry, record.fields@) == Err::<
                    (i64, Option<Seq<char>>, Seq<Polygon<P>>),
                    ParseErrorView,
                >(e.deep_view()),
            },
    {
        let geometry = match area_polygons(shape_type, geometry) {
            Ok(g) => g,
            Err(e) => return Err(e),
        };
        let osm_id = match record.required::<FromStrParser<i64>>("osm_id") {
            Ok(v) => v,
            Err(e) => return Err(e),
        };
        let kind = match record.optional::<StringParser>("type") {
            Ok(v) => v,
            Err(e) => return Err(e),
        };
        Ok(Building { osm_id, kind, geometry })
    }
}

} // verus!
